use abalone_session::board::EMPTY_BOARD;
use abalone_session::engine::EngineGuard;
use abalone_session::lifecycle::{Lifecycle, Stage};
use abalone_session::player_setting::PlayerSetting;
use abalone_session::session::{SessionError, TurnColor};

#[test]
fn cancel_is_safe_any_number_of_times() {
    // Never cancelled.
    let mut untouched = EngineGuard::new();
    assert!(!untouched.is_stopped());
    assert_eq!(untouched.admit_search(), Ok(()));
    assert!(untouched.has_searched());

    // Cancelled once, without ever having searched.
    let mut once = EngineGuard::new();
    assert!(once.cancel());
    assert!(once.is_stopped());
    assert!(!once.has_searched());

    // Cancelled twice, after a search.
    let mut twice = EngineGuard::new();
    assert_eq!(twice.admit_search(), Ok(()));
    assert!(twice.cancel());
    assert!(!twice.cancel());
    assert!(twice.is_stopped());
    assert!(twice.has_searched());
}

#[test]
fn a_stopped_engine_is_not_asked_again() {
    let mut g = EngineGuard::new();
    assert!(g.admit_observe());
    g.cancel();
    assert_eq!(g.admit_search(), Err(SessionError::EngineFailure));
    assert!(!g.has_searched());
    assert!(!g.admit_observe());
    // Still safe.
    assert!(!g.cancel());
}

#[test]
fn a_second_session_waits_for_the_first_to_be_joined() {
    let mut l = Lifecycle::new();
    assert_eq!(l.stage(), Stage::Idle);
    assert!(!l.is_alive());
    assert_eq!(l.start(), Ok(()));
    assert_eq!(l.stage(), Stage::Running);
    assert!(l.is_alive());
    assert_eq!(l.start(), Err(SessionError::ShutdownRace));
    assert_eq!(l.stage(), Stage::Running);

    assert_eq!(l.begin_shutdown(), Some((EMPTY_BOARD, true)));
    assert_eq!(l.stage(), Stage::Joining);
    // Signalled, but not yet joined.
    assert_eq!(l.start(), Err(SessionError::ShutdownRace));
    assert!(l.finish_shutdown());
    assert_eq!(l.stage(), Stage::Idle);
    assert_eq!(l.start(), Ok(()));
}

#[test]
fn shutdown_without_a_session_does_nothing() {
    let mut l = Lifecycle::new();
    assert_eq!(l.begin_shutdown(), None);
    assert!(!l.finish_shutdown());
    assert_eq!(l.stage(), Stage::Idle);
    l.start().unwrap();
    // Joining needs the signal first.
    assert!(!l.finish_shutdown());
    assert_eq!(l.stage(), Stage::Running);
    assert!(l.begin_shutdown().is_some());
    assert_eq!(l.begin_shutdown(), None);
    assert_eq!(l.stage(), Stage::Joining);
}

#[test]
fn settings_tell_engines_from_humans() {
    assert!(PlayerSetting::Human.is_human());
    assert!(!PlayerSetting::Human.is_engine());
    let e = PlayerSetting::standard_engine();
    assert_eq!(
        e,
        PlayerSetting::MagisterLudiAI { mcts_num: 40, mcts_parallel: 20, mcts_minimum: 7, mcts_depth: 0 }
    );
    assert!(e.is_engine());
    assert_eq!(PlayerSetting::from_switch(true), e);
    assert_eq!(PlayerSetting::from_switch(false), PlayerSetting::Human);
    assert_eq!(TurnColor::First.other(), TurnColor::Second);
    assert_eq!(TurnColor::Second.other(), TurnColor::First);
}

#[test]
fn every_error_has_its_own_sentence() {
    let a = SessionError::ChannelDisconnected.message();
    let b = SessionError::EngineFailure.message();
    let c = SessionError::ShutdownRace.message();
    assert_eq!(a, "the other side of the session went away");
    assert_eq!(b, "an engine failed; the session is over");
    assert_eq!(c, "the previous session has not shut down yet");
}
