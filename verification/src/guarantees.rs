//! What holds of the turn state machine on every sequence of events.

use crate::board::Board;
use crate::coordinator::{Action, CoordinatorState, Event, Request};
use crate::session::TurnColor;
use vstd::prelude::*;

verus! {

/// Whether `action` is directed at the engine of `color`.
pub open spec fn concerns_engine(action: Action, color: TurnColor) -> bool {
    match action {
        Action::Send(_) => false,
        Action::Observe(c, _, _) => c == color,
        Action::Cancel(c) => c == color,
    }
}

/// How many events of a sequence were accepted as moves chosen by an
/// engine: each of them put one board on the way to the interface.
pub open spec fn moves_sent(s: CoordinatorState, events: Seq<Event>) -> nat
    decreases events.len(),
{
    if events.len() == 0 {
        0
    } else {
        moves_sent(s, events.drop_last()) + (if s.run(events.drop_last()).accepts(events.last())
            && events.last() is MoveChosen {
            1nat
        } else {
            0nat
        })
    }
}

/// How many events of a sequence were accepted as commits, whether or not
/// they ended the session.
pub open spec fn commits_taken(s: CoordinatorState, events: Seq<Event>) -> nat
    decreases events.len(),
{
    if events.len() == 0 {
        0
    } else {
        commits_taken(s, events.drop_last()) + (if s.run(events.drop_last()).accepts(
            events.last(),
        ) && events.last() is Committed {
            1nat
        } else {
            0nat
        })
    }
}

/// The script of an interface that hands every board an engine chose
/// straight back, unchanged and without ending the game.
pub open spec fn echoed(boards: Seq<Board>) -> Seq<Event>
    decreases boards.len(),
{
    if boards.len() == 0 {
        Seq::empty()
    } else {
        echoed(boards.drop_last()).push(Event::MoveChosen(boards.last())).push(
            Event::Committed(boards.last(), false),
        )
    }
}

/// One event keeps a state well formed and never changes who plays which
/// colour. The turn passes to the other colour exactly when the event is
/// accepted as a commit that does not end the session; no other event
/// touches it.
pub proof fn step_keeps_session(s: CoordinatorState, event: Event)
    requires
        s.wf(),
    ensures
        s.next(event).wf(),
        s.next(event).first_engine == s.first_engine,
        s.next(event).second_engine == s.second_engine,
        s.accepts_turn(event) ==> s.next(event).turn == s.turn.flipped(),
        !s.accepts_turn(event) ==> s.next(event).turn == s.turn,
{
}

/// A sequence of events keeps a state well formed and never changes who
/// plays which colour.
pub proof fn run_keeps_session(s: CoordinatorState, events: Seq<Event>)
    requires
        s.wf(),
    ensures
        s.run(events).wf(),
        s.run(events).first_engine == s.first_engine,
        s.run(events).second_engine == s.second_engine,
    decreases events.len(),
{
    if events.len() > 0 {
        run_keeps_session(s, events.drop_last());
        step_keeps_session(s.run(events.drop_last()), events.last());
    }
}

/// The colour to move alternates strictly: after any sequence of events it
/// is the opening colour, passed on once for every commit that was
/// accepted without ending the session, and by nothing else.
pub proof fn turn_alternates(s: CoordinatorState, events: Seq<Event>)
    requires
        s.wf(),
    ensures
        s.run(events).turn == s.turn.flipped_times(s.turns_taken(events)),
    decreases events.len(),
{
    if events.len() > 0 {
        turn_alternates(s, events.drop_last());
        run_keeps_session(s, events.drop_last());
        step_keeps_session(s.run(events.drop_last()), events.last());
    }
}

/// A commit that ends the game is reported to the engine that did not
/// move, every engine of the session is then asked to stop, and the
/// session is over without having failed. With an engine on both colours
/// that is one report and two requests to stop.
pub proof fn game_end_stops_every_engine(s: CoordinatorState, board: Board)
    requires
        s.wf(),
        s.phase is AwaitingCommit,
    ensures
        s.next(Event::Committed(board, true)).phase is Terminated,
        s.next(Event::Committed(board, true)).ended(),
        s.next(Event::Committed(board, true)).turn == s.turn,
        s.output(Event::Committed(board, true)) == s.observation(board) + s.cancellations(),
        s.first_engine && s.second_engine ==> s.output(Event::Committed(board, true)) == seq![
            Action::Observe(s.turn.flipped(), board, false),
            Action::Cancel(TurnColor::First),
            Action::Cancel(TurnColor::Second),
        ],
        forall|color: TurnColor|
            #[trigger] s.has_engine(color) ==> s.cancellations().contains(Action::Cancel(color)),
{
    if s.first_engine {
        assert(s.cancellations()[0] == Action::Cancel(TurnColor::First));
        if s.second_engine {
            assert(s.cancellations()[1] == Action::Cancel(TurnColor::Second));
        }
    } else if s.second_engine {
        assert(s.cancellations()[0] == Action::Cancel(TurnColor::Second));
    }
    if s.first_engine && s.second_engine {
        assert(s.output(Event::Committed(board, true)) =~= seq![
            Action::Observe(s.turn.flipped(), board, false),
            Action::Cancel(TurnColor::First),
            Action::Cancel(TurnColor::Second),
        ]);
    }
}

/// A session that is over stays as it is and asks for nothing more,
/// whatever it is told.
pub proof fn terminated_is_absorbing(s: CoordinatorState, events: Seq<Event>)
    requires
        s.phase is Terminated,
    ensures
        s.run(events) == s,
        s.emitted(events) == Seq::<Action>::empty(),
        s.turns_taken(events) == 0,
    decreases events.len(),
{
    if events.len() > 0 {
        terminated_is_absorbing(s, events.drop_last());
    }
}

/// No action that one event asks for is directed at a colour that a human
/// plays.
pub proof fn step_spares_human(s: CoordinatorState, event: Event, color: TurnColor)
    requires
        !s.has_engine(color),
    ensures
        forall|i: int|
            0 <= i < s.output(event).len() ==> !concerns_engine(
                #[trigger] s.output(event)[i],
                color,
            ),
{
}

/// A colour that a human plays is never asked for a move: at no point of
/// any sequence of events does the coordinator wait for a move of that
/// colour, and no action it asks for is directed at an engine of it.
pub proof fn human_color_is_never_asked(s: CoordinatorState, events: Seq<Event>, color: TurnColor)
    requires
        s.wf(),
        !s.has_engine(color),
    ensures
        forall|k: int|
            0 <= k <= events.len() ==> (#[trigger] s.run(events.take(k))).pending()
                != Request::Move(color),
        forall|i: int|
            0 <= i < s.emitted(events).len() ==> !concerns_engine(
                #[trigger] s.emitted(events)[i],
                color,
            ),
    decreases events.len(),
{
    assert forall|k: int| 0 <= k <= events.len() implies (#[trigger] s.run(
        events.take(k),
    )).pending() != Request::Move(color) by {
        run_keeps_session(s, events.take(k));
    }
    if events.len() > 0 {
        let before = events.drop_last();
        human_color_is_never_asked(s, before, color);
        run_keeps_session(s, before);
        step_spares_human(s.run(before), events.last(), color);
        let earlier = s.emitted(before);
        let latest = s.run(before).output(events.last());
        assert forall|i: int| 0 <= i < s.emitted(events).len() implies !concerns_engine(
            #[trigger] s.emitted(events)[i],
            color,
        ) by {
            assert(s.emitted(events) == earlier + latest);
            if i < earlier.len() {
                assert(s.emitted(events)[i] == earlier[i]);
            } else {
                assert(s.emitted(events)[i] == latest[i - earlier.len()]);
            }
        }
    }
}

/// When an engine's move comes back from the interface unchanged, the
/// move was sent exactly once, the echo is the position of record, and the
/// turn has passed on exactly once.
pub proof fn echo_flips_once(s: CoordinatorState, board: Board)
    requires
        s.wf(),
        s.phase is WaitingForActiveMove,
    ensures
        s.output(Event::MoveChosen(board)) == seq![Action::Send(board)],
        s.next(Event::MoveChosen(board)).phase is AwaitingCommit,
        s.next(Event::MoveChosen(board)).turn == s.turn,
        s.run(echoed(seq![board])).turn == s.turn.flipped(),
        s.run(echoed(seq![board])).board == board,
        s.run(echoed(seq![board])).phase == s.opening_phase(s.turn.flipped()),
        s.turns_taken(echoed(seq![board])) == 1,
{
    let script = echoed(seq![board]);
    let first = Event::MoveChosen(board);
    let second = Event::Committed(board, false);
    reveal_with_fuel(echoed, 3);
    assert(seq![board].drop_last() =~= Seq::<Board>::empty());
    assert(script =~= seq![first, second]);
    assert(script.drop_last() =~= seq![first]);
    assert(seq![first].drop_last() =~= Seq::<Event>::empty());
    reveal_with_fuel(CoordinatorState::run, 3);
    reveal_with_fuel(CoordinatorState::turns_taken, 3);
    assert(s.run(seq![first]) == s.next(first));
    assert(s.run(script) == s.next(first).next(second));
    assert(s.turns_taken(seq![first]) == 0);
}

/// With an engine on both colours and an interface that echoes every move,
/// each echoed board passes the turn on exactly once: after any number of
/// rounds the colour to move is the opening colour alternated that many
/// times, and the coordinator waits for the next engine's move.
pub proof fn echoed_rounds_alternate(s: CoordinatorState, boards: Seq<Board>)
    requires
        s.wf(),
        s.first_engine,
        s.second_engine,
        s.phase is WaitingForActiveMove,
    ensures
        s.turns_taken(echoed(boards)) == boards.len(),
        s.run(echoed(boards)).turn == s.turn.flipped_times(boards.len()),
        s.run(echoed(boards)).phase is WaitingForActiveMove,
        boards.len() > 0 ==> s.run(echoed(boards)).board == boards.last(),
    decreases boards.len(),
{
    if boards.len() > 0 {
        let earlier = echoed(boards.drop_last());
        let chosen = Event::MoveChosen(boards.last());
        let echo = Event::Committed(boards.last(), false);
        echoed_rounds_alternate(s, boards.drop_last());
        run_keeps_session(s, earlier);
        let script = echoed(boards);
        assert(script == earlier.push(chosen).push(echo));
        assert(script.drop_last() =~= earlier.push(chosen));
        assert(script.last() == echo);
        assert(earlier.push(chosen).drop_last() =~= earlier);
        assert(earlier.push(chosen).last() == chosen);
        let mid = s.run(earlier);
        assert(s.run(earlier.push(chosen)) == mid.next(chosen));
        assert(s.run(script) == mid.next(chosen).next(echo));
        assert(s.turns_taken(earlier.push(chosen)) == s.turns_taken(earlier));
        assert(s.turns_taken(script) == s.turns_taken(earlier) + 1);
    }
}

/// The coordinator never has more than one board on the way to the
/// interface: on any sequence of events, the moves it sent outnumber the
/// commits it took in by at most one, and by none while it waits for an
/// engine.
pub proof fn one_move_in_flight(s: CoordinatorState, events: Seq<Event>)
    requires
        s.wf(),
    ensures
        moves_sent(s, events) <= commits_taken(s, events) + 1,
        s.run(events).phase is WaitingForActiveMove ==> moves_sent(s, events) <= commits_taken(
            s,
            events,
        ),
    decreases events.len(),
{
    if events.len() > 0 {
        one_move_in_flight(s, events.drop_last());
        run_keeps_session(s, events.drop_last());
    }
}

/// How many of `actions` ask an engine to stop.
pub open spec fn cancel_count(actions: Seq<Action>) -> nat
    decreases actions.len(),
{
    if actions.len() == 0 {
        0
    } else {
        cancel_count(actions.drop_last()) + (if actions.last() is Cancel {
            1nat
        } else {
            0nat
        })
    }
}

/// How many engines a session has.
pub open spec fn engine_count(s: CoordinatorState) -> nat {
    (if s.first_engine {
        1nat
    } else {
        0nat
    }) + (if s.second_engine {
        1nat
    } else {
        0nat
    })
}

/// Whether `event` is accepted in state `s` as the commit that ends the
/// game.
pub open spec fn ends_game(s: CoordinatorState, event: Event) -> bool {
    &&& s.accepts(event)
    &&& event matches Event::Committed(_, ended)
    &&& ended
}

/// Requests to stop are counted piece by piece.
proof fn cancel_count_adds(earlier: Seq<Action>, later: Seq<Action>)
    ensures
        cancel_count(earlier + later) == cancel_count(earlier) + cancel_count(later),
    decreases later.len(),
{
    if later.len() == 0 {
        assert(earlier + later =~= earlier);
    } else {
        cancel_count_adds(earlier, later.drop_last());
        assert((earlier + later).drop_last() =~= earlier + later.drop_last());
        assert((earlier + later).last() == later.last());
    }
}

/// One event asks every engine to stop if it is accepted as the commit
/// that ends the game, and asks none to stop otherwise.
proof fn cancel_count_of_step(s: CoordinatorState, event: Event)
    ensures
        cancel_count(s.output(event)) == (if ends_game(s, event) {
            engine_count(s)
        } else {
            0nat
        }),
{
    reveal_with_fuel(cancel_count, 3);
    if s.accepts(event) {
        match event {
            Event::MoveChosen(board) => {
                assert(seq![Action::Send(board)].drop_last() =~= Seq::<Action>::empty());
            },
            Event::Committed(board, ended) => {
                let told = s.observation(board);
                assert(cancel_count(told) == 0) by {
                    if told.len() > 0 {
                        assert(told.drop_last() =~= Seq::<Action>::empty());
                    }
                }
                if ended {
                    let first = if s.first_engine {
                        seq![Action::Cancel(TurnColor::First)]
                    } else {
                        Seq::<Action>::empty()
                    };
                    let second = if s.second_engine {
                        seq![Action::Cancel(TurnColor::Second)]
                    } else {
                        Seq::<Action>::empty()
                    };
                    assert(cancel_count(first) == (if s.first_engine {
                        1nat
                    } else {
                        0nat
                    })) by {
                        if s.first_engine {
                            assert(first.drop_last() =~= Seq::<Action>::empty());
                        }
                    }
                    assert(cancel_count(second) == (if s.second_engine {
                        1nat
                    } else {
                        0nat
                    })) by {
                        if s.second_engine {
                            assert(second.drop_last() =~= Seq::<Action>::empty());
                        }
                    }
                    assert(s.cancellations() == first + second);
                    cancel_count_adds(first, second);
                    cancel_count_adds(told, s.cancellations());
                }
            },
            Event::Disconnected => {},
            Event::EngineFailed => {},
        }
    }
}

/// Over a whole session the coordinator asks engines to stop either not at
/// all or once each: not at all while the session runs and when it has
/// failed, once each when the game has ended. With no, one or two engines
/// that is no, one or two requests, whether or not any of the engines was
/// ever asked for a move.
pub proof fn stops_once_each_at_game_end(s: CoordinatorState, events: Seq<Event>)
    requires
        s.wf(),
        !(s.phase is Terminated),
    ensures
        cancel_count(s.emitted(events)) == (if s.run(events).ended() {
            engine_count(s)
        } else {
            0nat
        }),
        cancel_count(s.emitted(events)) <= 2,
    decreases events.len(),
{
    if events.len() > 0 {
        let before = events.drop_last();
        stops_once_each_at_game_end(s, before);
        run_keeps_session(s, before);
        cancel_count_of_step(s.run(before), events.last());
        cancel_count_adds(s.emitted(before), s.run(before).output(events.last()));
    }
}

} // verus!
