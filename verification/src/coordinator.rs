//! The turn state machine of a session.
//!
//! The coordinator decides, turn by turn, who must move, hands an engine's
//! move to the interface, waits for the interface to commit the move that
//! was actually played, keeps the waiting engine in step with moves it did
//! not choose, and stops every engine when the game ends. It does none of
//! the outside work itself: it is told what happened through an [`Event`]
//! and answers with the [`Action`]s to carry out.

use crate::board::Board;
use crate::player_setting::PlayerSetting;
use crate::session::{SessionError, TurnColor};
use vstd::prelude::*;

verus! {

/// Where the coordinator stands within a turn.
#[derive(Clone, Copy, Debug, PartialEq, Eq, Structural)]
pub enum Phase {
    /// The engine of the colour to move has been asked for its move.
    WaitingForActiveMove,
    /// The interface has yet to commit the move of this turn.
    AwaitingCommit,
    /// The session is over. Nothing leaves this phase.
    Terminated,
}

/// What the coordinator is told.
#[derive(Clone, Copy, Debug, PartialEq, Eq)]
pub enum Event {
    /// The engine to move returned this board.
    MoveChosen(Board),
    /// The interface committed this board; the flag says whether the game
    /// or the session ends with it.
    Committed(Board, bool),
    /// The peer dropped its end of a queue.
    Disconnected,
    /// An engine reported a failure.
    EngineFailed,
}

/// What the coordinator wants done, in the order given.
#[derive(Clone, Copy, Debug, PartialEq, Eq)]
pub enum Action {
    /// Send this board to the interface.
    Send(Board),
    /// Tell the engine of this colour about a move it did not choose; the
    /// flag says whether a human made it.
    Observe(TurnColor, Board, bool),
    /// Ask the engine of this colour to stop.
    Cancel(TurnColor),
}

/// What the coordinator waits for next.
#[derive(Clone, Copy, Debug, PartialEq, Eq, Structural)]
pub enum Request {
    /// A move from the engine of this colour.
    Move(TurnColor),
    /// The interface's commit of the current turn.
    Commit,
    /// Nothing: the session is over.
    Nothing,
}

/// The coordinator as a mathematical value.
pub struct CoordinatorState {
    /// The position last committed, at first the starting position.
    pub board: Board,
    /// The colour to move.
    pub turn: TurnColor,
    /// Whether an engine plays `First`.
    pub first_engine: bool,
    /// Whether an engine plays `Second`.
    pub second_engine: bool,
    pub phase: Phase,
    /// Why the session failed, if it did.
    pub failure: Option<SessionError>,
}

impl CoordinatorState {
    /// Whether an engine plays `color`.
    pub open spec fn has_engine(self, color: TurnColor) -> bool {
        match color {
            TurnColor::First => self.first_engine,
            TurnColor::Second => self.second_engine,
        }
    }

    /// The phase in which a turn of `mover` begins: an engine is asked for
    /// its move, a human is simply waited for.
    pub open spec fn opening_phase(self, mover: TurnColor) -> Phase {
        if self.has_engine(mover) {
            Phase::WaitingForActiveMove
        } else {
            Phase::AwaitingCommit
        }
    }

    /// A move is only ever awaited from an engine, and only a finished
    /// session carries a failure.
    pub open spec fn wf(self) -> bool {
        &&& self.phase is WaitingForActiveMove ==> self.has_engine(self.turn)
        &&& self.failure is Some ==> self.phase is Terminated
    }

    /// The state in which a session starts.
    pub open spec fn initial(
        board: Board,
        to_move: TurnColor,
        first_engine: bool,
        second_engine: bool,
    ) -> CoordinatorState {
        let turn_opens = if (match to_move {
            TurnColor::First => first_engine,
            TurnColor::Second => second_engine,
        }) {
            Phase::WaitingForActiveMove
        } else {
            Phase::AwaitingCommit
        };
        CoordinatorState {
            board,
            turn: to_move,
            first_engine,
            second_engine,
            phase: turn_opens,
            failure: None,
        }
    }

    /// Whether the game ended, as opposed to the session having failed.
    pub open spec fn ended(self) -> bool {
        self.phase is Terminated && self.failure is None
    }

    /// What is awaited in this state.
    pub open spec fn pending(self) -> Request {
        match self.phase {
            Phase::WaitingForActiveMove => Request::Move(self.turn),
            Phase::AwaitingCommit => Request::Commit,
            Phase::Terminated => Request::Nothing,
        }
    }

    /// Whether `event` is the one this state waits for, or a failure of a
    /// session that still runs. Any other event is dropped.
    pub open spec fn accepts(self, event: Event) -> bool {
        match (self.phase, event) {
            (Phase::Terminated, _) => false,
            (Phase::WaitingForActiveMove, Event::MoveChosen(_)) => true,
            (Phase::AwaitingCommit, Event::Committed(_, _)) => true,
            (_, Event::Disconnected) => true,
            (_, Event::EngineFailed) => true,
            _ => false,
        }
    }

    /// Whether `event` is a commit that this state accepts and that does
    /// not end the session.
    pub open spec fn accepts_turn(self, event: Event) -> bool {
        &&& self.accepts(event)
        &&& event matches Event::Committed(_, ended)
        &&& !ended
    }

    /// The state after `event`.
    pub open spec fn next(self, event: Event) -> CoordinatorState {
        if !self.accepts(event) {
            self
        } else {
            match event {
                Event::MoveChosen(_) => CoordinatorState { phase: Phase::AwaitingCommit, ..self },
                Event::Committed(board, ended) => if ended {
                    CoordinatorState { board, phase: Phase::Terminated, ..self }
                } else {
                    CoordinatorState {
                        board,
                        turn: self.turn.flipped(),
                        phase: self.opening_phase(self.turn.flipped()),
                        ..self
                    }
                },
                Event::Disconnected => CoordinatorState {
                    phase: Phase::Terminated,
                    failure: Some(SessionError::ChannelDisconnected),
                    ..self
                },
                Event::EngineFailed => CoordinatorState {
                    phase: Phase::Terminated,
                    failure: Some(SessionError::EngineFailure),
                    ..self
                },
            }
        }
    }

    /// What the engine that did not move is told about a committed board:
    /// nothing where that colour has no engine.
    pub open spec fn observation(self, board: Board) -> Seq<Action> {
        if self.has_engine(self.turn.flipped()) {
            seq![Action::Observe(self.turn.flipped(), board, !self.has_engine(self.turn))]
        } else {
            Seq::empty()
        }
    }

    /// One request to stop for every engine of the session, `First` before
    /// `Second`.
    pub open spec fn cancellations(self) -> Seq<Action> {
        (if self.first_engine {
            seq![Action::Cancel(TurnColor::First)]
        } else {
            Seq::empty()
        }) + (if self.second_engine {
            seq![Action::Cancel(TurnColor::Second)]
        } else {
            Seq::empty()
        })
    }

    /// The actions that `event` asks for in this state.
    pub open spec fn output(self, event: Event) -> Seq<Action> {
        if !self.accepts(event) {
            Seq::empty()
        } else {
            match event {
                Event::MoveChosen(board) => seq![Action::Send(board)],
                Event::Committed(board, ended) => if ended {
                    self.observation(board) + self.cancellations()
                } else {
                    self.observation(board)
                },
                Event::Disconnected => Seq::empty(),
                Event::EngineFailed => Seq::empty(),
            }
        }
    }

    /// The state after a whole sequence of events.
    pub open spec fn run(self, events: Seq<Event>) -> CoordinatorState
        decreases events.len(),
    {
        if events.len() == 0 {
            self
        } else {
            self.run(events.drop_last()).next(events.last())
        }
    }

    /// Every action asked for while a sequence of events is taken in.
    pub open spec fn emitted(self, events: Seq<Event>) -> Seq<Action>
        decreases events.len(),
    {
        if events.len() == 0 {
            Seq::empty()
        } else {
            self.emitted(events.drop_last()) + self.run(events.drop_last()).output(events.last())
        }
    }

    /// How many events of a sequence were accepted as commits that did not
    /// end the session.
    pub open spec fn turns_taken(self, events: Seq<Event>) -> nat
        decreases events.len(),
    {
        if events.len() == 0 {
            0
        } else {
            self.turns_taken(events.drop_last()) + (if self.run(events.drop_last()).accepts_turn(
                events.last(),
            ) {
                1nat
            } else {
                0nat
            })
        }
    }
}

/// The turn state machine of one session.
pub struct Coordinator {
    board: Board,
    turn: TurnColor,
    first: PlayerSetting,
    second: PlayerSetting,
    phase: Phase,
    failure: Option<SessionError>,
}

impl View for Coordinator {
    type V = CoordinatorState;

    closed spec fn view(&self) -> CoordinatorState {
        CoordinatorState {
            board: self.board,
            turn: self.turn,
            first_engine: self.first.has_engine(),
            second_engine: self.second.has_engine(),
            phase: self.phase,
            failure: self.failure,
        }
    }
}

impl Coordinator {
    /// The setting of `color`, fixed when the session was set up.
    pub closed spec fn setting_of(self, color: TurnColor) -> PlayerSetting {
        match color {
            TurnColor::First => self.first,
            TurnColor::Second => self.second,
        }
    }

    #[verifier::type_invariant]
    spec fn inv(self) -> bool {
        self@.wf()
    }

    /// Sets a session up: `to_move` opens on `board`, and each colour is
    /// played as its setting says.
    pub fn new(board: Board, to_move: TurnColor, first: PlayerSetting, second: PlayerSetting) -> (c:
        Coordinator)
        ensures
            c@ == CoordinatorState::initial(board, to_move, first.has_engine(), second.has_engine()),
            c@.wf(),
            c.setting_of(TurnColor::First) == first,
            c.setting_of(TurnColor::Second) == second,
    {
        let mover_has_engine = match to_move {
            TurnColor::First => first.is_engine(),
            TurnColor::Second => second.is_engine(),
        };
        let phase = if mover_has_engine {
            Phase::WaitingForActiveMove
        } else {
            Phase::AwaitingCommit
        };
        Coordinator { board, turn: to_move, first, second, phase, failure: None }
    }

    /// The position last committed.
    pub fn board(&self) -> (b: Board)
        ensures
            b == self@.board,
    {
        self.board
    }

    /// The colour to move.
    pub fn turn(&self) -> (t: TurnColor)
        ensures
            t == self@.turn,
    {
        self.turn
    }

    pub fn phase(&self) -> (p: Phase)
        ensures
            p == self@.phase,
    {
        self.phase
    }

    /// The setting of `color`.
    pub fn setting(&self, color: TurnColor) -> (s: PlayerSetting)
        ensures
            s == self.setting_of(color),
            s.has_engine() == self@.has_engine(color),
    {
        match color {
            TurnColor::First => self.first,
            TurnColor::Second => self.second,
        }
    }

    /// Whether an engine plays `color`.
    pub fn has_engine(&self, color: TurnColor) -> (r: bool)
        ensures
            r == self@.has_engine(color),
    {
        self.setting(color).is_engine()
    }

    /// Whether the session is over, for whatever reason.
    pub fn is_terminated(&self) -> (r: bool)
        ensures
            r == (self@.phase is Terminated),
    {
        match self.phase {
            Phase::Terminated => true,
            _ => false,
        }
    }

    /// Whether the game ended, as opposed to the session having failed.
    pub fn ended(&self) -> (r: bool)
        ensures
            r == self@.ended(),
    {
        self.is_terminated() && self.failure.is_none()
    }

    /// Why the session failed, if it did.
    pub fn failure(&self) -> (f: Option<SessionError>)
        ensures
            f == self@.failure,
    {
        self.failure
    }

    /// How the session came out: `None` while it runs, `Ok` once the game
    /// has ended, the failure otherwise.
    pub fn outcome(&self) -> (r: Option<Result<(), SessionError>>)
        ensures
            r is None <==> !(self@.phase is Terminated),
            r == Some(Ok::<(), SessionError>(())) <==> self@.ended(),
            forall|e: SessionError|
                r == Some(Err::<(), SessionError>(e)) <==> (self@.phase is Terminated
                    && self@.failure == Some(e)),
    {
        if !self.is_terminated() {
            None
        } else {
            match self.failure {
                None => Some(Ok(())),
                Some(e) => Some(Err(e)),
            }
        }
    }

    /// What the coordinator waits for next.
    pub fn pending(&self) -> (r: Request)
        ensures
            r == self@.pending(),
            r matches Request::Move(color) ==> self@.has_engine(color),
            self@.wf(),
    {
        proof {
            use_type_invariant(self);
        }
        match self.phase {
            Phase::WaitingForActiveMove => Request::Move(self.turn),
            Phase::AwaitingCommit => Request::Commit,
            Phase::Terminated => Request::Nothing,
        }
    }

    /// Whether `event` would be taken in rather than dropped.
    pub fn accepts(&self, event: &Event) -> (r: bool)
        ensures
            r == self@.accepts(*event),
            self@.wf(),
    {
        proof {
            use_type_invariant(self);
        }
        match self.phase {
            Phase::Terminated => false,
            Phase::WaitingForActiveMove => match event {
                Event::Committed(_, _) => false,
                _ => true,
            },
            Phase::AwaitingCommit => match event {
                Event::MoveChosen(_) => false,
                _ => true,
            },
        }
    }

    /// Takes `event` in and returns the actions to carry out, in order.
    ///
    /// A chosen move is sent to the interface. A commit is reported to the
    /// engine that did not move, if there is one; then either every engine
    /// is stopped and the session is over, or the turn passes to the other
    /// colour. A failure ends the session with nothing further to do. An
    /// event that is not waited for changes nothing.
    pub fn step(&mut self, event: Event) -> (actions: Vec<Action>)
        ensures
            final(self)@ == old(self)@.next(event),
            actions@ == old(self)@.output(event),
            final(self)@.wf(),
            final(self).setting_of(TurnColor::First) == old(self).setting_of(TurnColor::First),
            final(self).setting_of(TurnColor::Second) == old(self).setting_of(TurnColor::Second),
    {
        proof {
            use_type_invariant(&*self);
        }
        let mut actions: Vec<Action> = Vec::new();
        if !self.accepts(&event) {
            return actions;
        }
        match event {
            Event::MoveChosen(board) => {
                actions.push(Action::Send(board));
                self.phase = Phase::AwaitingCommit;
            },
            Event::Committed(board, ended) => {
                let mover = self.turn;
                let waiting = mover.other();
                if self.has_engine(waiting) {
                    actions.push(Action::Observe(waiting, board, !self.has_engine(mover)));
                }
                assert(actions@ == old(self)@.observation(board));
                if ended {
                    if self.first.is_engine() {
                        actions.push(Action::Cancel(TurnColor::First));
                    }
                    if self.second.is_engine() {
                        actions.push(Action::Cancel(TurnColor::Second));
                    }
                    assert(actions@ == old(self)@.observation(board) + old(self)@.cancellations());
                    *self = Coordinator {
                        board,
                        turn: mover,
                        first: self.first,
                        second: self.second,
                        phase: Phase::Terminated,
                        failure: None,
                    };
                } else {
                    let phase = if self.has_engine(waiting) {
                        Phase::WaitingForActiveMove
                    } else {
                        Phase::AwaitingCommit
                    };
                    *self = Coordinator {
                        board,
                        turn: waiting,
                        first: self.first,
                        second: self.second,
                        phase,
                        failure: None,
                    };
                }
            },
            Event::Disconnected => {
                *self = Coordinator {
                    board: self.board,
                    turn: self.turn,
                    first: self.first,
                    second: self.second,
                    phase: Phase::Terminated,
                    failure: Some(SessionError::ChannelDisconnected),
                };
            },
            Event::EngineFailed => {
                *self = Coordinator {
                    board: self.board,
                    turn: self.turn,
                    first: self.first,
                    second: self.second,
                    phase: Phase::Terminated,
                    failure: Some(SessionError::EngineFailure),
                };
            },
        }
        actions
    }

    /// Takes a whole script of events in, one after the other, and returns
    /// every action asked for on the way, in order.
    pub fn replay(&mut self, events: &Vec<Event>) -> (actions: Vec<Action>)
        ensures
            final(self)@ == old(self)@.run(events@),
            actions@ == old(self)@.emitted(events@),
            final(self)@.wf(),
            final(self).setting_of(TurnColor::First) == old(self).setting_of(TurnColor::First),
            final(self).setting_of(TurnColor::Second) == old(self).setting_of(TurnColor::Second),
    {
        proof {
            use_type_invariant(&*self);
        }
        let mut actions: Vec<Action> = Vec::new();
        let mut i: usize = 0;
        while i < events.len()
            invariant
                i <= events.len(),
                self@ == old(self)@.run(events@.take(i as int)),
                actions@ == old(self)@.emitted(events@.take(i as int)),
                self@.wf(),
                self.setting_of(TurnColor::First) == old(self).setting_of(TurnColor::First),
                self.setting_of(TurnColor::Second) == old(self).setting_of(TurnColor::Second),
            decreases events.len() - i,
        {
            let mut asked = self.step(events[i]);
            actions.append(&mut asked);
            proof {
                let prefix = events@.take(i + 1);
                assert(prefix.drop_last() == events@.take(i as int));
                assert(prefix.last() == events@[i as int]);
            }
            i += 1;
        }
        proof {
            assert(events@.take(i as int) == events@);
        }
        actions
    }
}

} // verus!
