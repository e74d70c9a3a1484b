//! Allocation-free synchronous session built on a blocking transport.

use vstd::prelude::*;

use crate::protocol::{BoardEvent, Command, DecodeResponseNotificationError, WriteKind, header_mismatch};
use crate::protocol::enable_realtime_updates_bytes;
use crate::transport::{
    BoardError, BoardState, DecodeNotificationError, DecodedNotificationView, Notification, NotificationSource,
    SessionStep, decode_notification, initialization_sequence, initialization_steps, next_event_step,
    next_session_step, notification_outcome, shutdown_sequence, shutdown_steps,
};

verus! {

/// A call made on a blocking transport, as its history records it.
pub enum TransportCall {
    /// Notifications were enabled for a source.
    Subscribe(NotificationSource),
    /// Notifications were disabled for a source.
    Unsubscribe(NotificationSource),
    /// A command was written, given by its bytes and write kind.
    Write(Seq<u8>, WriteKind),
    /// Transport-owned resources were closed.
    Close,
    /// A notification from `source` holding `bytes` was received.
    Received(NotificationSource, Seq<u8>),
    /// Receiving the next notification failed.
    ReceiveFailed,
}

/// A blocking I/O adapter for a connected Chessnut Move board.
///
/// Implementations map commands and notification sources to their Bluetooth
/// library; protocol encoding and decoding stay in this crate.
///
/// An implementation may keep a history of the calls it performed, each with
/// its result, and say so through [`BlockingTransport::records_calls`]. The
/// method contracts speak of that history only for such an implementation;
/// of one that keeps none (the defaults) they claim nothing.
pub trait BlockingTransport {
    /// Error returned by Bluetooth or adapter operations.
    type Error;

    /// Whether this transport keeps the history of its calls. The default
    /// transport keeps none.
    open spec fn records_calls(&self) -> bool {
        false
    }

    /// The calls this transport has performed, oldest first, each with its
    /// result (a received notification counts as a successful call). It is
    /// empty for a transport that keeps no history.
    open spec fn history(&self) -> Seq<(TransportCall, Result<(), Self::Error>)> {
        Seq::empty()
    }

    /// Enables notifications for one protocol source.
    fn subscribe(&mut self, source: NotificationSource) -> (r: Result<(), Self::Error>)
        ensures
            final(self).records_calls() == old(self).records_calls(),
            old(self).records_calls() ==> final(self).history() == old(self).history().push(
                (TransportCall::Subscribe(source), r),
            ),
    ;

    /// Disables notifications for one protocol source.
    ///
    /// The default implementation performs no operation: it succeeds and
    /// records nothing.
    fn unsubscribe(&mut self, source: NotificationSource) -> (r: Result<(), Self::Error>)
        ensures
            final(self).records_calls() == old(self).records_calls(),
            old(self).records_calls() ==> final(self).history() == old(self).history().push(
                (TransportCall::Unsubscribe(source), r),
            ) || (r is Ok && final(self).history() == old(self).history()),
        default_ensures
            r is Ok,
            final(self).history() == old(self).history(),
    {
        Ok(())
    }

    /// Writes an encoded command using its required write kind.
    fn write_command(&mut self, command: &Command) -> (r: Result<(), Self::Error>)
        ensures
            final(self).records_calls() == old(self).records_calls(),
            old(self).records_calls() ==> final(self).history() == old(self).history().push(
                (TransportCall::Write(command@, command.kind()), r),
            ),
    ;

    /// Receives the next notification into the supplied buffer.
    ///
    /// The returned [`Notification`] must borrow its bytes from `buffer`.
    /// Implementations must return an error instead of truncating a notification
    /// that exceeds the buffer.
    fn next_notification<'a>(&'a mut self, buffer: &'a mut [u8]) -> (r: Result<Notification<'a>, Self::Error>)
        ensures
            final(self).records_calls() == old(self).records_calls(),
            old(self).records_calls() ==> final(self).history() == old(self).history().push(
                match r {
                    Ok(notification) => (
                        TransportCall::Received(notification@.0, notification@.1),
                        Ok::<(), Self::Error>(()),
                    ),
                    Err(error) => (TransportCall::ReceiveFailed, Err::<(), Self::Error>(error)),
                },
            ),
    ;

    /// Closes transport-owned resources after subscriptions are disabled.
    ///
    /// The default implementation performs no operation: it succeeds and
    /// records nothing.
    fn close(&mut self) -> (r: Result<(), Self::Error>)
        ensures
            final(self).records_calls() == old(self).records_calls(),
            old(self).records_calls() ==> final(self).history() == old(self).history().push((TransportCall::Close, r))
                || (r is Ok && final(self).history() == old(self).history()),
        default_ensures
            r is Ok,
            final(self).history() == old(self).history(),
    {
        Ok(())
    }
}

/// The session's result for a transport call's result.
pub open spec fn lifted<E>(outcome: Result<(), E>) -> Result<(), BoardError<E>> {
    match outcome {
        Ok(done) => Ok(done),
        Err(error) => Err(BoardError::Transport(error)),
    }
}

/// The transport call that performs a session step.
pub open spec fn step_call(step: SessionStep) -> TransportCall {
    match step {
        SessionStep::Subscribe(source) => TransportCall::Subscribe(source),
        SessionStep::EnableRealtimeUpdates => TransportCall::Write(enable_realtime_updates_bytes(), WriteKind::WithResponse),
        SessionStep::Unsubscribe(source) => TransportCall::Unsubscribe(source),
        SessionStep::Close => TransportCall::Close,
    }
}

/// Whether a transport may perform a step as a no-op that records nothing.
pub open spec fn step_may_be_skipped(step: SessionStep) -> bool {
    step is Unsubscribe || step is Close
}

/// Whether performing `step` took a transport's history from `before` to
/// `after` and gave the session result `r`: the step's call was recorded and
/// `r` is its result, or a cleanup step was a successful no-op.
pub open spec fn step_effect<E>(
    before: Seq<(TransportCall, Result<(), E>)>,
    after: Seq<(TransportCall, Result<(), E>)>,
    step: SessionStep,
    r: Result<(), BoardError<E>>,
) -> bool {
    ||| after == before.push((step_call(step), after.last().1)) && r == lifted(after.last().1)
    ||| step_may_be_skipped(step) && after == before && r == Ok::<(), BoardError<E>>(())
}

/// Whether running `steps` in order, stopping at the first failure, took a
/// transport's history from `before` to `after` and gave the result `r`.
///
/// The result is `Ok` exactly when every step succeeded; a failed step ends
/// the run, and its transport error is the result.
pub open spec fn session_steps_ran<E>(
    before: Seq<(TransportCall, Result<(), E>)>,
    after: Seq<(TransportCall, Result<(), E>)>,
    steps: Seq<SessionStep>,
    r: Result<(), BoardError<E>>,
) -> bool
    decreases steps.len(),
{
    if steps.len() == 0 {
        after == before && r == Ok::<(), BoardError<E>>(())
    } else {
        ||| r is Err && step_effect(before, after, steps[0], r)
        ||| exists|mid: Seq<(TransportCall, Result<(), E>)>|
            #[trigger] step_effect(before, mid, steps[0], Ok::<(), BoardError<E>>(())) && session_steps_ran(
                mid,
                after,
                steps.drop_first(),
                r,
            )
    }
}

/// Appending one more step to a run whose steps all succeeded.
proof fn lemma_run_extend<E>(
    before: Seq<(TransportCall, Result<(), E>)>,
    mid: Seq<(TransportCall, Result<(), E>)>,
    after: Seq<(TransportCall, Result<(), E>)>,
    steps: Seq<SessionStep>,
    step: SessionStep,
    r: Result<(), BoardError<E>>,
)
    requires
        session_steps_ran(before, mid, steps, Ok::<(), BoardError<E>>(())),
        step_effect(mid, after, step, r),
    ensures
        session_steps_ran(before, after, steps.push(step), r),
    decreases steps.len(),
{
    if steps.len() == 0 {
        assert(steps.push(step).drop_first() =~= Seq::<SessionStep>::empty());
        assert(steps.push(step)[0] == step);
        assert(mid == before);
        if r is Ok {
            assert(r == Ok::<(), BoardError<E>>(()));
            assert(session_steps_ran(after, after, steps.push(step).drop_first(), r));
            assert(step_effect(before, after, steps.push(step)[0], Ok::<(), BoardError<E>>(())));
        } else {
            assert(step_effect(before, after, steps.push(step)[0], r));
        }
    } else {
        let m = choose|m: Seq<(TransportCall, Result<(), E>)>|
            #[trigger] step_effect(before, m, steps[0], Ok::<(), BoardError<E>>(())) && session_steps_ran(
                m,
                mid,
                steps.drop_first(),
                Ok::<(), BoardError<E>>(()),
            );
        lemma_run_extend(m, mid, after, steps.drop_first(), step, r);
        assert(steps.push(step).drop_first() =~= steps.drop_first().push(step));
        assert(steps.push(step)[0] == steps[0]);
        assert(step_effect(before, m, steps.push(step)[0], Ok::<(), BoardError<E>>(())));
        assert(session_steps_ran(m, after, steps.push(step).drop_first(), r));
    }
}

/// A run that failed within `steps` is the same run of any longer sequence.
proof fn lemma_run_failed_prefix<E>(
    before: Seq<(TransportCall, Result<(), E>)>,
    after: Seq<(TransportCall, Result<(), E>)>,
    steps: Seq<SessionStep>,
    rest: Seq<SessionStep>,
    r: Result<(), BoardError<E>>,
)
    requires
        session_steps_ran(before, after, steps, r),
        r is Err,
    ensures
        session_steps_ran(before, after, steps + rest, r),
    decreases steps.len(),
{
    assert(steps.len() > 0);
    assert((steps + rest)[0] == steps[0]);
    if !(r is Err && step_effect(before, after, steps[0], r)) {
        let m = choose|m: Seq<(TransportCall, Result<(), E>)>|
            #[trigger] step_effect(before, m, steps[0], Ok::<(), BoardError<E>>(())) && session_steps_ran(
                m,
                after,
                steps.drop_first(),
                r,
            );
        lemma_run_failed_prefix(m, after, steps.drop_first(), rest, r);
        assert((steps + rest).drop_first() =~= steps.drop_first() + rest);
    }
}

/// Whether a logged call received a realtime-update acknowledgement.
pub open spec fn is_acknowledgement<R>(record: (TransportCall, R)) -> bool {
    record.0 matches TransportCall::Received(source, bytes) && notification_outcome(source, bytes) == Ok::<
        DecodedNotificationView,
        DecodeNotificationError,
    >(DecodedNotificationView::RealtimeUpdatesAcknowledged)
}

/// Whether `received`, the calls recorded during one
/// [`BlockingBoard::next_event`], are acknowledgements followed by the call
/// whose outcome `r` reports.
///
/// An event is the decoding of the last notification received; a decoding
/// error is that notification's error, or, after `usize::MAX`
/// acknowledgements, the header error reported for one acknowledgement more;
/// a transport error is the error of the failed receive.
pub open spec fn next_event_outcome<E>(
    received: Seq<(TransportCall, Result<(), E>)>,
    r: Result<BoardEvent, BoardError<E>>,
) -> bool {
    &&& received.len() >= 1
    &&& forall|i: int| 0 <= i < received.len() - 1 ==> #[trigger] is_acknowledgement(received[i])
    &&& match r {
        Ok(event) => received.last().0 matches TransportCall::Received(source, bytes) && notification_outcome(
            source,
            bytes,
        ) == Ok::<DecodedNotificationView, DecodeNotificationError>(DecodedNotificationView::Event(event@)),
        Err(BoardError::Transport(error)) => received.last() == (
            TransportCall::ReceiveFailed,
            Err::<(), E>(error),
        ),
        Err(BoardError::Decode(error)) => received.last().0 matches TransportCall::Received(source, bytes) && (
        notification_outcome(source, bytes) == Err::<DecodedNotificationView, DecodeNotificationError>(error)
            || (received.len() == usize::MAX + 1 && is_acknowledgement(received.last()) && error
            == DecodeNotificationError::CommandResponse(header_mismatch(0, 0x41, 0x23)))),
    }
}

/// Whether `attempted`, the calls a session requested while running
/// `steps`, each with whether it succeeded, ran the steps in order and stopped
/// at the first failure; `succeeded` is whether the run succeeded, which is
/// when every step was requested and succeeded.
pub open spec fn steps_requested(attempted: Seq<(TransportCall, bool)>, steps: Seq<SessionStep>, succeeded: bool) -> bool {
    &&& attempted.len() <= steps.len()
    &&& forall|i: int| 0 <= i < attempted.len() ==> (#[trigger] attempted[i]).0 == step_call(steps[i])
    &&& forall|i: int| 0 <= i < attempted.len() - 1 ==> (#[trigger] attempted[i]).1
    &&& if succeeded {
        attempted.len() == steps.len() && (attempted.len() == 0 || attempted.last().1)
    } else {
        attempted.len() >= 1 && !attempted.last().1
    }
}

/// Whether `received`, the calls a session requested during one
/// [`BlockingBoard::next_event`], each with whether it succeeded, are
/// acknowledgements followed by the call whose outcome `r` reports (as
/// [`next_event_outcome`] says of a transport's history).
pub open spec fn next_event_requests<E>(received: Seq<(TransportCall, bool)>, r: Result<BoardEvent, BoardError<E>>) -> bool {
    &&& received.len() >= 1
    &&& forall|i: int| 0 <= i < received.len() - 1 ==> #[trigger] is_acknowledgement(received[i]) && received[i].1
    &&& received.last().1 == !(received.last().0 is ReceiveFailed)
    &&& match r {
        Ok(event) => received.last().0 matches TransportCall::Received(source, bytes) && notification_outcome(
            source,
            bytes,
        ) == Ok::<DecodedNotificationView, DecodeNotificationError>(DecodedNotificationView::Event(event@)),
        Err(BoardError::Transport(_)) => received.last().0 is ReceiveFailed,
        Err(BoardError::Decode(error)) => received.last().0 matches TransportCall::Received(source, bytes) && (
        notification_outcome(source, bytes) == Err::<DecodedNotificationView, DecodeNotificationError>(error)
            || (received.len() == usize::MAX + 1 && is_acknowledgement(received.last()) && error
            == DecodeNotificationError::CommandResponse(header_mismatch(0, 0x41, 0x23)))),
    }
}

/// A successful initialization made exactly three transport calls, each of
/// which succeeded: it subscribed to positions, wrote the realtime-update
/// command, and subscribed to command responses, in that order.
pub proof fn lemma_successful_initialization_calls<E>(
    before: Seq<(TransportCall, Result<(), E>)>,
    after: Seq<(TransportCall, Result<(), E>)>,
    r: Result<(), BoardError<E>>,
)
    requires
        session_steps_ran(before, after, initialization_sequence(), r),
        r is Ok,
    ensures
        after == before + seq![
        (TransportCall::Subscribe(NotificationSource::Position), Ok::<(), E>(())),
        (TransportCall::Write(enable_realtime_updates_bytes(), WriteKind::WithResponse), Ok::<(), E>(())),
        (TransportCall::Subscribe(NotificationSource::CommandResponse), Ok::<(), E>(())),
    ],
{
    reveal_with_fuel(session_steps_ran, 4);
    let s = initialization_sequence();
    assert(s.drop_first().drop_first().drop_first() =~= Seq::<SessionStep>::empty());
    assert(s.drop_first()[0] == SessionStep::EnableRealtimeUpdates);
    assert(s.drop_first().drop_first()[0] == SessionStep::Subscribe(NotificationSource::CommandResponse));
    let m1 = choose|m: Seq<(TransportCall, Result<(), E>)>| #[trigger] step_effect(before, m, s[0], Ok::<(), BoardError<E>>(())) && session_steps_ran(m, after, s.drop_first(), r);
    let m2 = choose|m: Seq<(TransportCall, Result<(), E>)>| #[trigger] step_effect(m1, m, s.drop_first()[0], Ok::<(), BoardError<E>>(())) && session_steps_ran(m, after, s.drop_first().drop_first(), r);
    let m3 = choose|m: Seq<(TransportCall, Result<(), E>)>| #[trigger] step_effect(m2, m, s.drop_first().drop_first()[0], Ok::<(), BoardError<E>>(())) && session_steps_ran(m, after, s.drop_first().drop_first().drop_first(), r);
    assert(m3 == after);
    assert(m1.last().1 == Ok::<(), E>(()));
    assert(m2.last().1 == Ok::<(), E>(()));
    assert(m3.last().1 == Ok::<(), E>(()));
    assert(after =~= before + seq![
        (TransportCall::Subscribe(NotificationSource::Position), Ok::<(), E>(())),
        (TransportCall::Write(enable_realtime_updates_bytes(), WriteKind::WithResponse), Ok::<(), E>(())),
        (TransportCall::Subscribe(NotificationSource::CommandResponse), Ok::<(), E>(())),
    ]);
}

/// A successful shutdown requested exactly the three cleanup calls, each of
/// which succeeded: unsubscribing from command responses, then from
/// positions, then closing the transport.
pub proof fn lemma_successful_shutdown_requests(attempted: Seq<(TransportCall, bool)>)
    requires
        steps_requested(attempted, shutdown_sequence(), true),
    ensures
        attempted == seq![
            (TransportCall::Unsubscribe(NotificationSource::CommandResponse), true),
            (TransportCall::Unsubscribe(NotificationSource::Position), true),
            (TransportCall::Close, true),
        ],
{
    assert(attempted[0].1 && attempted[1].1 && attempted[2].1);
    assert(attempted[0].0 == step_call(shutdown_sequence()[0]));
    assert(attempted[1].0 == step_call(shutdown_sequence()[1]));
    assert(attempted[2].0 == step_call(shutdown_sequence()[2]));
    assert(attempted =~= seq![
        (TransportCall::Unsubscribe(NotificationSource::CommandResponse), true),
        (TransportCall::Unsubscribe(NotificationSource::Position), true),
        (TransportCall::Close, true),
    ]);
}

/// A shutdown whose first cleanup call failed made no other request.
pub proof fn lemma_failed_shutdown_stops(attempted: Seq<(TransportCall, bool)>)
    requires
        steps_requested(attempted, shutdown_sequence(), false),
        !attempted[0].1,
    ensures
        attempted == seq![(TransportCall::Unsubscribe(NotificationSource::CommandResponse), false)],
{
    assert(attempted[0].0 == step_call(shutdown_sequence()[0]));
    assert(attempted =~= seq![(TransportCall::Unsubscribe(NotificationSource::CommandResponse), false)]);
}

/// An owning, allocation-free blocking session with a Chessnut Move board.
///
/// The session reuses a fixed notification buffer. Dropping a session does not
/// unsubscribe or close the transport; call [`BlockingBoard::shutdown`] when
/// cleanup is required.
pub struct BlockingBoard<T> {
    state: BoardState<T>,
    requests: Ghost<Seq<(TransportCall, bool)>>,
}

impl<T> BlockingBoard<T> {
    /// The transport owned by the session.
    pub closed spec fn owned_transport(&self) -> T {
        self.state.transport
    }

    /// The calls the session has made on its transport, oldest first, each
    /// with whether it succeeded.
    pub closed spec fn requests(&self) -> Seq<(TransportCall, bool)> {
        self.requests@
    }

    /// Creates a board session around a connected transport.
    ///
    /// This constructor performs no I/O. Call [`BlockingBoard::initialize`]
    /// before receiving events.
    pub fn new(transport: T) -> (board: Self)
        ensures
            board.owned_transport() == transport,
            board.requests() == Seq::<(TransportCall, bool)>::empty(),
    {
        BlockingBoard { state: BoardState::new(transport), requests: Ghost(Seq::empty()) }
    }

    /// Returns a shared reference to the underlying transport.
    pub fn transport(&self) -> (transport: &T)
        ensures
            *transport == self.owned_transport(),
    {
        &self.state.transport
    }

    /// Returns a mutable reference to the underlying transport.
    ///
    /// Direct operations can change subscription or connection state expected by
    /// the session; they are not session requests.
    pub fn transport_mut(&mut self) -> (transport: &mut T)
        ensures
            *transport == old(self).owned_transport(),
            final(self).owned_transport() == *final(transport),
            final(self).requests() == old(self).requests(),
    {
        &mut self.state.transport
    }

    /// Consumes the session and returns its transport without shutting it down.
    pub fn into_transport(self) -> (transport: T)
        ensures
            transport == self.owned_transport(),
    {
        self.state.transport
    }
}

impl<T: BlockingTransport> BlockingBoard<T> {
    /// The calls the owned transport has performed, with their results, when
    /// it keeps that history.
    pub open spec fn history(&self) -> Seq<(TransportCall, Result<(), T::Error>)> {
        self.owned_transport().history()
    }

    /// Whether the owned transport keeps the history of its calls.
    pub open spec fn records_calls(&self) -> bool {
        self.owned_transport().records_calls()
    }

    /// Performs one startup or cleanup step on the transport.
    fn perform(&mut self, step: SessionStep) -> (r: Result<(), BoardError<T::Error>>)
        ensures
            final(self).requests() == old(self).requests().push((step_call(step), r is Ok)),
            r is Ok ==> r == Ok::<(), BoardError<T::Error>>(()),
            r matches Err(error) ==> error is Transport,
            final(self).records_calls() == old(self).records_calls(),
            old(self).records_calls() ==> step_effect(old(self).history(), final(self).history(), step, r),
    {
        let result = match step {
            SessionStep::Subscribe(source) => self.state.transport.subscribe(source),
            SessionStep::EnableRealtimeUpdates => self.state.transport.write_command(&Command::enable_realtime_updates()),
            SessionStep::Unsubscribe(source) => self.state.transport.unsubscribe(source),
            SessionStep::Close => self.state.transport.close(),
        };
        proof {
            self.requests@ = self.requests@.push((step_call(step), result is Ok));
        }
        match result {
            Ok(()) => Ok(()),
            Err(error) => Err(BoardError::Transport(error)),
        }
    }

    /// Performs three steps in order, stopping at the first failure.
    fn perform_all(&mut self, steps: [SessionStep; 3]) -> (r: Result<(), BoardError<T::Error>>)
        ensures
            exists|attempted: Seq<(TransportCall, bool)>|
                final(self).requests() == old(self).requests() + attempted && #[trigger] steps_requested(
                    attempted,
                    steps@,
                    r is Ok,
                ),
            r matches Err(error) ==> error is Transport,
            final(self).records_calls() == old(self).records_calls(),
            old(self).records_calls() ==> session_steps_ran(old(self).history(), final(self).history(), steps@, r),
    {
        let mut result: Result<(), BoardError<T::Error>> = Ok(());
        let mut completed: usize = 0;
        let ghost mut attempted: Seq<(TransportCall, bool)> = Seq::empty();
        assert(steps@.take(0) =~= Seq::<SessionStep>::empty());
        loop
            invariant
                completed <= 3,
                steps@.len() == 3,
                attempted.len() == completed,
                self.requests() == old(self).requests() + attempted,
                self.records_calls() == old(self).records_calls(),
                result matches Err(error) ==> error is Transport,
                forall|i: int| 0 <= i < attempted.len() ==> (#[trigger] attempted[i]).0 == step_call(steps@[i]),
                result is Ok ==> forall|i: int| 0 <= i < attempted.len() ==> (#[trigger] attempted[i]).1,
                result is Err ==> steps_requested(attempted, steps@, false),
                result is Ok ==> result == Ok::<(), BoardError<T::Error>>(()),
                result is Err ==> completed >= 1,
                old(self).records_calls() && result is Ok ==> session_steps_ran(
                    old(self).history(),
                    self.history(),
                    steps@.take(completed as int),
                    result,
                ),
                old(self).records_calls() && result is Err ==> session_steps_ran(
                    old(self).history(),
                    self.history(),
                    steps@,
                    result,
                ),
            decreases 3 - completed + (if result is Ok { 1int } else { 0int }),
        {
            let next = next_session_step(steps, completed, result.is_ok());
            match next {
                None => {
                    if result.is_ok() {
                        assert(steps@.take(3) =~= steps@);
                        assert(steps_requested(attempted, steps@, true));
                    } else {
                        assert(steps_requested(attempted, steps@, false));
                    }
                    return result;
                },
                Some(step) => {
                    assert(result == Ok::<(), BoardError<T::Error>>(()));
                    let ghost before = self.history();
                    let outcome = self.perform(step);
                    proof {
                        attempted = attempted.push((step_call(step), outcome is Ok));
                        assert(self.requests() =~= old(self).requests() + attempted);
                        if old(self).records_calls() {
                            lemma_run_extend(
                                old(self).history(),
                                before,
                                self.history(),
                                steps@.take(completed as int),
                                step,
                                outcome,
                            );
                            assert(steps@.take(completed as int).push(step) =~= steps@.take(completed + 1));
                            if outcome is Err {
                                lemma_run_failed_prefix(
                                    old(self).history(),
                                    self.history(),
                                    steps@.take(completed + 1),
                                    steps@.skip(completed + 1),
                                    outcome,
                                );
                                assert(steps@.take(completed + 1) + steps@.skip(completed + 1) =~= steps@);
                            }
                        }
                    }
                    result = outcome;
                    completed += 1;
                },
            }
        }
    }

    /// Initializes subscriptions and enables realtime position updates.
    ///
    /// Initialization subscribes to position notifications, writes
    /// [`Command::enable_realtime_updates`], and then subscribes to command
    /// responses. It stops at the first failed step, whose transport error it
    /// returns; completed steps are not rolled back.
    pub fn initialize(&mut self) -> (r: Result<(), BoardError<T::Error>>)
        ensures
            exists|attempted: Seq<(TransportCall, bool)>|
                final(self).requests() == old(self).requests() + attempted && #[trigger] steps_requested(
                    attempted,
                    initialization_sequence(),
                    r is Ok,
                ),
            r matches Err(error) ==> error is Transport,
            final(self).records_calls() == old(self).records_calls(),
            old(self).records_calls() ==> session_steps_ran(
                old(self).history(),
                final(self).history(),
                initialization_sequence(),
                r,
            ),
    {
        let steps = initialization_steps();
        self.perform_all(steps)
    }

    /// Writes a command to the board.
    ///
    /// This method confirms only the transport write. Commands with protocol
    /// responses are received separately through [`BlockingBoard::next_event`].
    pub fn send(&mut self, command: &Command) -> (r: Result<(), BoardError<T::Error>>)
        ensures
            final(self).requests() == old(self).requests().push((TransportCall::Write(command@, command.kind()), r is Ok)),
            r matches Err(error) ==> error is Transport,
            final(self).records_calls() == old(self).records_calls(),
            old(self).records_calls() ==> final(self).history() == old(self).history().push(
                (TransportCall::Write(command@, command.kind()), final(self).history().last().1),
            ) && r == lifted(final(self).history().last().1),
    {
        let result = self.state.transport.write_command(command);
        proof {
            self.requests@ = self.requests@.push((TransportCall::Write(command@, command.kind()), result is Ok));
        }
        match result {
            Ok(()) => Ok(()),
            Err(error) => Err(BoardError::Transport(error)),
        }
    }

    /// Blocks until the next observable board event is decoded.
    ///
    /// Realtime-update acknowledgements are consumed and are not returned as
    /// events; within one call at most `usize::MAX` of them are consumed, after
    /// which a further one is reported as a command response with an invalid
    /// header.
    pub fn next_event(&mut self) -> (r: Result<BoardEvent, BoardError<T::Error>>)
        ensures
            exists|received: Seq<(TransportCall, bool)>|
                final(self).requests() == old(self).requests() + received && #[trigger] next_event_requests(
                    received,
                    r,
                ),
            final(self).records_calls() == old(self).records_calls(),
            old(self).records_calls() ==> exists|recorded: Seq<(TransportCall, Result<(), T::Error>)>|
                final(self).history() == old(self).history() + recorded && #[trigger] next_event_outcome(
                    recorded,
                    r,
                ),
    {
        let mut acknowledgements: usize = 0;
        let ghost mut received: Seq<(TransportCall, bool)> = Seq::empty();
        let ghost mut recorded: Seq<(TransportCall, Result<(), T::Error>)> = Seq::empty();
        loop
            invariant
                acknowledgements <= usize::MAX,
                received.len() == acknowledgements,
                forall|i: int| 0 <= i < received.len() ==> #[trigger] is_acknowledgement(received[i]) && received[i].1,
                self.requests() == old(self).requests() + received,
                self.records_calls() == old(self).records_calls(),
                old(self).records_calls() ==> recorded.len() == acknowledgements,
                old(self).records_calls() ==> forall|i: int|
                    0 <= i < recorded.len() ==> #[trigger] is_acknowledgement(recorded[i]),
                old(self).records_calls() ==> self.history() == old(self).history() + recorded,
            decreases usize::MAX - acknowledgements,
        {
            let ghost before = self.history();
            let notification = match self.state.transport.next_notification(&mut self.state.notification_buffer) {
                Ok(notification) => notification,
                Err(error) => {
                    proof {
                        received = received.push((TransportCall::ReceiveFailed, false));
                        self.requests@ = self.requests@.push((TransportCall::ReceiveFailed, false));
                        assert(self.requests() =~= old(self).requests() + received);
                        if old(self).records_calls() {
                            recorded = recorded.push(self.history().last());
                            assert(self.history() =~= old(self).history() + recorded);
                        }
                    }
                    let r: Result<BoardEvent, BoardError<T::Error>> = Err(BoardError::Transport(error));
                    assert(next_event_requests(received, r));
                    assert(old(self).records_calls() ==> next_event_outcome(recorded, r));
                    return r;
                },
            };
            let ghost seen = notification@;
            let decoded = decode_notification(notification);
            proof {
                let call = TransportCall::Received(seen.0, seen.1);
                let earlier = received;
                received = received.push((call, true));
                assert forall|i: int| 0 <= i < received.len() - 1 implies #[trigger] is_acknowledgement(received[i])
                    && received[i].1 by {
                    assert(received[i] == earlier[i]);
                }
                self.requests@ = self.requests@.push((call, true));
                assert(self.requests() =~= old(self).requests() + received);
                if old(self).records_calls() {
                    recorded = recorded.push(self.history().last());
                    assert(self.history() =~= old(self).history() + recorded);
                    assert(recorded.last() == (call, Ok::<(), T::Error>(())));
                }
            }
            match next_event_step(decoded) {
                Some(Ok(event)) => {
                    let r: Result<BoardEvent, BoardError<T::Error>> = Ok(event);
                    assert(next_event_requests(received, r));
                    assert(old(self).records_calls() ==> next_event_outcome(recorded, r));
                    return r;
                },
                Some(Err(error)) => {
                    let r: Result<BoardEvent, BoardError<T::Error>> = Err(BoardError::Decode(error));
                    assert(next_event_requests(received, r));
                    assert(old(self).records_calls() ==> next_event_outcome(recorded, r));
                    return r;
                },
                None => {
                    assert(is_acknowledgement(received.last()));
                    assert forall|i: int| 0 <= i < received.len() implies #[trigger] is_acknowledgement(received[i])
                        && received[i].1 by {
                        if i == received.len() - 1 {
                            assert(received[i] == received.last());
                        }
                    }
                    assert(old(self).records_calls() ==> is_acknowledgement(recorded.last()));
                    if acknowledgements == usize::MAX {
                        let r: Result<BoardEvent, BoardError<T::Error>> = Err(
                            BoardError::Decode(
                                DecodeNotificationError::CommandResponse(
                                    DecodeResponseNotificationError::InvalidNotificationHeader {
                                        offset: 0,
                                        expected: 0x41,
                                        actual: 0x23,
                                    },
                                ),
                            ),
                        );
                        assert(received.len() == usize::MAX + 1);
                        assert(DecodeNotificationError::CommandResponse(header_mismatch(0, 0x41, 0x23))
                            == DecodeNotificationError::CommandResponse(
                            DecodeResponseNotificationError::InvalidNotificationHeader {
                                offset: 0,
                                expected: 0x41,
                                actual: 0x23,
                            },
                        ));
                        assert(next_event_requests(received, r));
                        assert(old(self).records_calls() ==> next_event_outcome(recorded, r));
                        return r;
                    }
                    acknowledgements += 1;
                },
            }
        }
    }

    /// Unsubscribes from board notifications and closes the transport.
    ///
    /// Cleanup stops at the first failed operation, whose transport error it
    /// returns. Consuming the session with [`BlockingBoard::into_transport`]
    /// remains available after an error.
    pub fn shutdown(&mut self) -> (r: Result<(), BoardError<T::Error>>)
        ensures
            exists|attempted: Seq<(TransportCall, bool)>|
                final(self).requests() == old(self).requests() + attempted && #[trigger] steps_requested(
                    attempted,
                    shutdown_sequence(),
                    r is Ok,
                ),
            r matches Err(error) ==> error is Transport,
            final(self).records_calls() == old(self).records_calls(),
            old(self).records_calls() ==> session_steps_ran(old(self).history(), final(self).history(), shutdown_sequence(), r),
    {
        let steps = shutdown_steps();
        self.perform_all(steps)
    }
}

} // verus!
