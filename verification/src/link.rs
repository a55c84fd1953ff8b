//! The two queues between the interface and the coordinator.
//!
//! Each direction has an ordered, unbounded queue of its own: committed
//! turns travel towards the coordinator, chosen moves towards the
//! interface. Every board crosses by value. A queue whose other end is
//! gone is a disconnected session, never a silent loss.

use crate::board::Board;
use crate::coordinator::{Action, Coordinator, CoordinatorState, Event};
use crate::lifecycle::Lifecycle;
use crate::player_setting::PlayerSetting;
use crate::session::{SessionError, TurnColor};
use vstd::prelude::*;

verus! {

/// `crossbeam_channel::Sender`, the sending end of a queue. Nothing is
/// known of what is inside.
#[verifier::external_type_specification]
#[verifier::external_body]
#[verifier::reject_recursive_types(T)]
pub struct ExSender<T>(crossbeam_channel::Sender<T>);

/// `crossbeam_channel::Receiver`, the receiving end of a queue. Nothing is
/// known of what is inside.
#[verifier::external_type_specification]
#[verifier::external_body]
#[verifier::reject_recursive_types(T)]
pub struct ExReceiver<T>(crossbeam_channel::Receiver<T>);

/// `crossbeam_channel::SendError`, the failure of a send. It is only ever
/// told apart from success.
#[verifier::external_type_specification]
#[verifier::external_body]
#[verifier::reject_recursive_types(T)]
pub struct ExSendError<T>(crossbeam_channel::SendError<T>);

/// `crossbeam_channel::RecvError`, the failure of a receive. It is only
/// ever told apart from success.
#[verifier::external_type_specification]
#[verifier::external_body]
pub struct ExRecvError(crossbeam_channel::RecvError);

/// Calls `crossbeam_channel::unbounded`, which makes a queue that holds any
/// number of messages, and returns its two ends. Nothing is claimed of
/// them.
#[verifier::external_body]
fn open_queue<T>() -> (ends: (crossbeam_channel::Sender<T>, crossbeam_channel::Receiver<T>)) {
    crossbeam_channel::unbounded()
}

/// Calls `crossbeam_channel::Sender::send`. On a queue without a bound it
/// does not wait; it fails when every receiver is gone. Which of the two
/// happens depends on the other side, so nothing is claimed of the result.
#[verifier::external_body]
fn send_on<T>(queue: &crossbeam_channel::Sender<T>, message: T) -> (r: Result<
    (),
    crossbeam_channel::SendError<T>,
>) {
    queue.send(message)
}

/// Calls `crossbeam_channel::Receiver::recv`, which waits until a message
/// is there or the queue is empty and every sender is gone. Which message
/// comes, or whether one comes, depends on the other side, so nothing is
/// claimed of the result.
#[verifier::external_body]
fn receive_from<T>(queue: &crossbeam_channel::Receiver<T>) -> (r: Result<
    T,
    crossbeam_channel::RecvError,
>) {
    queue.recv()
}

/// Calls `crossbeam_channel::Receiver::try_recv`, which never waits. A
/// message that is there comes back as `Some`, an empty queue as `None`,
/// and an empty queue whose senders are all gone as the error. Which of
/// them happens depends on the other side, so nothing is claimed of the
/// result.
#[verifier::external_body]
fn poll_from<T>(queue: &crossbeam_channel::Receiver<T>) -> (r: Result<
    Option<T>,
    crossbeam_channel::RecvError,
>) {
    match queue.try_recv() {
        Ok(message) => Ok(Some(message)),
        Err(crossbeam_channel::TryRecvError::Empty) => Ok(None),
        Err(crossbeam_channel::TryRecvError::Disconnected) => Err(crossbeam_channel::RecvError),
    }
}

/// The interface's ends of the two queues.
pub struct InterfaceEnd {
    commits: crossbeam_channel::Sender<(Board, bool)>,
    moves: crossbeam_channel::Receiver<Board>,
}

/// The coordinator's ends of the two queues.
pub struct CoordinatorEnd {
    commits: crossbeam_channel::Receiver<(Board, bool)>,
    moves: crossbeam_channel::Sender<Board>,
}

/// How an engine's move fared on its way to the interface.
#[derive(Clone, Copy, Debug, PartialEq, Eq, Structural)]
pub enum Delivery {
    /// The coordinator did not wait for a move; nothing was sent.
    Dropped,
    /// The move is on its way.
    Sent,
    /// The interface is gone; the session has failed.
    Failed,
}

/// What a send on a queue comes to for the session: a message that was
/// taken is a success, a message that came back because the other end is
/// gone is a disconnected session.
pub fn send_outcome<T>(sent: Result<(), crossbeam_channel::SendError<T>>) -> (r: Result<
    (),
    SessionError,
>)
    ensures
        sent is Ok ==> r == Ok::<(), SessionError>(()),
        sent is Err ==> r == Err::<(), SessionError>(SessionError::ChannelDisconnected),
{
    match sent {
        Ok(()) => Ok(()),
        Err(_) => Err(SessionError::ChannelDisconnected),
    }
}

/// The event that a receive on the queue of commits stands for: the commit
/// that arrived, board and flag untouched, or the news that the interface
/// is gone.
pub fn commit_event(received: Result<(Board, bool), crossbeam_channel::RecvError>) -> (event:
    Event)
    ensures
        received matches Ok(message) ==> event == Event::Committed(message.0, message.1),
        received is Err ==> event == Event::Disconnected,
{
    match received {
        Ok((board, ended)) => Event::Committed(board, ended),
        Err(_) => Event::Disconnected,
    }
}

/// What a look at the queue of moves comes to for the session: the move
/// that was there, untouched; nothing yet; or a disconnected session where
/// the coordinator is gone.
pub fn polled_move(found: Result<Option<Board>, crossbeam_channel::RecvError>) -> (r: Result<
    Option<Board>,
    SessionError,
>)
    ensures
        found matches Ok(waiting) ==> r == Ok::<Option<Board>, SessionError>(waiting),
        found is Err ==> r == Err::<Option<Board>, SessionError>(
            SessionError::ChannelDisconnected,
        ),
{
    match found {
        Ok(waiting) => Ok(waiting),
        Err(_) => Err(SessionError::ChannelDisconnected),
    }
}

/// Makes the two queues of a session and hands out their ends.
pub fn duplex() -> (ends: (InterfaceEnd, CoordinatorEnd)) {
    let (commit_in, commit_out) = open_queue::<(Board, bool)>();
    let (move_in, move_out) = open_queue::<Board>();
    (
        InterfaceEnd { commits: commit_in, moves: move_out },
        CoordinatorEnd { commits: commit_out, moves: move_in },
    )
}

impl InterfaceEnd {
    /// Reports the turn just played to the coordinator: the board it led
    /// to and whether the game ended with it. Fails only when the
    /// coordinator is gone.
    pub fn commit(&self, board: Board, ended: bool) -> (r: Result<(), SessionError>)
        ensures
            r is Err ==> r == Err::<(), SessionError>(SessionError::ChannelDisconnected),
    {
        send_outcome(send_on(&self.commits, (board, ended)))
    }

    /// Looks, without waiting, for a move that an engine chose. `Ok(None)`
    /// says that none has arrived yet. Fails only when the coordinator is
    /// gone and nothing is left to read.
    pub fn poll_move(&self) -> (r: Result<Option<Board>, SessionError>)
        ensures
            r is Err ==> r == Err::<Option<Board>, SessionError>(
                SessionError::ChannelDisconnected,
            ),
    {
        polled_move(poll_from(&self.moves))
    }

    /// Begins the shutdown of the running session: notes it in `lifecycle`
    /// and sends the coordinator the message that ends the session. The
    /// result is `true` exactly when a session ran, and then its
    /// coordinator has to be waited for. Without a running session nothing
    /// is sent and nothing changes. That the coordinator is already gone
    /// is no failure here.
    pub fn shutdown(&self, lifecycle: &mut Lifecycle) -> (wait: bool)
        ensures
            wait == (old(lifecycle)@ is Running),
            final(lifecycle)@ == old(lifecycle)@.shut_down(),
    {
        match lifecycle.begin_shutdown() {
            Some(message) => {
                let _ = send_on(&self.commits, message);
                true
            },
            None => false,
        }
    }
}

impl CoordinatorEnd {
    /// Puts a chosen move on its way to the interface. Fails only when the
    /// interface is gone.
    pub fn send_move(&self, board: Board) -> (r: Result<(), SessionError>)
        ensures
            r is Err ==> r == Err::<(), SessionError>(SessionError::ChannelDisconnected),
    {
        send_outcome(send_on(&self.moves, board))
    }

    /// Waits for the interface to commit a turn and returns it as the
    /// event the coordinator takes in: the commit, or the news that the
    /// interface is gone.
    pub fn await_commit(&self) -> (event: Event)
        ensures
            event is Committed || event is Disconnected,
    {
        commit_event(receive_from(&self.commits))
    }
}

/// Takes an engine's move in and sends it on. A move the coordinator does
/// not wait for is dropped and nothing is sent. Otherwise the move is sent
/// to the interface; if the interface is gone, the coordinator is told so
/// and the session has failed.
pub fn deliver_move(coordinator: &mut Coordinator, end: &CoordinatorEnd, board: Board) -> (r:
    Delivery)
    ensures
        r is Dropped <==> !old(coordinator)@.accepts(Event::MoveChosen(board)),
        r is Dropped ==> final(coordinator)@ == old(coordinator)@,
        r is Sent ==> final(coordinator)@ == old(coordinator)@.next(Event::MoveChosen(board)),
        r is Failed ==> final(coordinator)@ == old(coordinator)@.next(
            Event::MoveChosen(board),
        ).next(Event::Disconnected),
        final(coordinator)@.wf(),
{
    if !coordinator.accepts(&Event::MoveChosen(board)) {
        return Delivery::Dropped;
    }
    let _ = coordinator.step(Event::MoveChosen(board));
    match end.send_move(board) {
        Ok(()) => Delivery::Sent,
        Err(_) => {
            let _ = coordinator.step(Event::Disconnected);
            Delivery::Failed
        },
    }
}

/// Waits for the interface's commit and takes it in. Returns the event
/// that came, which is the commit or the news that the interface is gone,
/// and the actions that the coordinator asks for in answer to it.
pub fn take_commit(coordinator: &mut Coordinator, end: &CoordinatorEnd) -> (r: (
    Event,
    Vec<Action>,
))
    ensures
        r.0 is Committed || r.0 is Disconnected,
        final(coordinator)@ == old(coordinator)@.next(r.0),
        r.1@ == old(coordinator)@.output(r.0),
        final(coordinator)@.wf(),
{
    let event = end.await_commit();
    let actions = coordinator.step(event);
    (event, actions)
}

/// Everything a new session consists of: the interface's ends of the
/// queues, and the coordinator with its ends, to be run elsewhere.
pub struct SessionParts {
    pub interface: InterfaceEnd,
    pub coordinator_end: CoordinatorEnd,
    pub coordinator: Coordinator,
}

/// Starts a session: `to_move` opens on `board`, and each colour is played
/// as its setting says. The start is refused as a shutdown race, with
/// nothing changed, while an earlier coordinator is alive; otherwise
/// `lifecycle` notes the new one.
pub fn start_session(
    lifecycle: &mut Lifecycle,
    board: Board,
    to_move: TurnColor,
    first: PlayerSetting,
    second: PlayerSetting,
) -> (r: Result<SessionParts, SessionError>)
    ensures
        r is Ok <==> old(lifecycle)@ is Idle,
        r matches Err(e) ==> e == SessionError::ShutdownRace,
        final(lifecycle)@ == old(lifecycle)@.started(),
        r matches Ok(parts) ==> parts.coordinator@ == CoordinatorState::initial(
            board,
            to_move,
            first.has_engine(),
            second.has_engine(),
        ) && parts.coordinator@.wf() && parts.coordinator.setting_of(TurnColor::First) == first
            && parts.coordinator.setting_of(TurnColor::Second) == second,
{
    match lifecycle.start() {
        Err(e) => Err(e),
        Ok(()) => {
            let (interface, coordinator_end) = duplex();
            let coordinator = Coordinator::new(board, to_move, first, second);
            Ok(SessionParts { interface, coordinator_end, coordinator })
        },
    }
}

} // verus!
