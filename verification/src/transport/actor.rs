//! Decisions of the concurrent board actor.
//!
//! The actor owns a transport in one task and serves cloneable handles. Move
//! query responses carry no request identifier, so at most one query is
//! active at a time and later queries wait, in order, in a bounded queue.
//! [`ActorCore`] holds that bookkeeping: the task that runs the actor performs
//! the transport I/O and timers, reports what happened, and carries out the
//! replies that the core decides. Queries are identified by a ticket number
//! chosen by the task.

use std::collections::VecDeque;
use std::time::Duration;

use vstd::prelude::*;

use crate::protocol::{BatteryStatus, BoardEvent, Command, PieceStatus, query_bytes};
use crate::transport::{DecodeNotificationError, DecodedNotification};

verus! {

/// Queue capacities and timeout behavior for a board actor.
#[derive(Clone, Copy, Debug, PartialEq, Eq)]
pub struct ActorConfig {
    /// Maximum number of handle messages waiting for the actor.
    pub command_capacity: usize,
    /// Number of events retained for each lag-aware subscriber.
    pub event_capacity: usize,
    /// Maximum number of queries waiting behind the active query.
    pub query_capacity: usize,
    /// Time allowed for a battery or piece-status response.
    pub request_timeout: Duration,
}

/// The duration of `secs` whole seconds, as `Duration::from_secs` builds it.
pub uninterp spec fn whole_seconds(secs: u64) -> Duration;

/// Builds a duration of whole seconds with `Duration::from_secs`.
///
/// The result is claimed to be `whole_seconds(secs)`: the standard library
/// documents the call as a pure constructor from the count of seconds. What
/// that duration holds is not modelled here; it is carried through to the
/// timer of the task that runs the actor.
#[verifier::external_body]
fn seconds(secs: u64) -> (duration: Duration)
    ensures
        duration == whole_seconds(secs),
{
    Duration::from_secs(secs)
}

impl Default for ActorConfig {
    /// Capacities of 32 handle messages, 64 retained events and 32 waiting
    /// queries, and a five-second request timeout.
    fn default() -> (config: Self)
        ensures
            config.command_capacity == 32,
            config.event_capacity == 64,
            config.query_capacity == 32,
            config.request_timeout == whole_seconds(5),
    {
        ActorConfig { command_capacity: 32, event_capacity: 64, query_capacity: 32, request_timeout: seconds(5) }
    }
}

/// Reports invalid actor configuration.
#[derive(Clone, Copy, Debug, PartialEq, Eq, Structural)]
pub enum SpawnError {
    /// The command capacity was zero.
    ZeroCommandCapacity,
    /// The event capacity was zero.
    ZeroEventCapacity,
}

/// Checks an actor configuration before the actor is started.
///
/// The command capacity is checked first, then the event capacity; a zero
/// query capacity is valid and makes every query wait for no other.
pub fn validate_config(config: &ActorConfig) -> (r: Result<(), SpawnError>)
    ensures
        config.command_capacity == 0 ==> r == Err::<(), SpawnError>(SpawnError::ZeroCommandCapacity),
        config.command_capacity != 0 && config.event_capacity == 0 ==> r == Err::<(), SpawnError>(
            SpawnError::ZeroEventCapacity,
        ),
        config.command_capacity != 0 && config.event_capacity != 0 ==> r is Ok,
{
    if config.command_capacity == 0 {
        return Err(SpawnError::ZeroCommandCapacity);
    }
    if config.event_capacity == 0 {
        return Err(SpawnError::ZeroEventCapacity);
    }
    Ok(())
}

/// Current lifecycle phase of the board actor.
#[derive(Clone, Copy, Debug, PartialEq, Eq, Structural, Hash)]
pub enum LifecycleState {
    /// The actor is subscribing and enabling realtime updates.
    Starting,
    /// Initialization completed and handle requests are accepted.
    Running,
    /// The actor is rejecting new requests and cleaning up the transport.
    ShuttingDown,
    /// The actor completed without a fatal error.
    Stopped,
    /// Initialization, transport I/O, or cleanup failed.
    Faulted,
}

/// How far the actor has progressed: its lifecycle only ever moves forward in
/// this order, ending in `Stopped` or `Faulted`.
pub open spec fn lifecycle_stage(state: LifecycleState) -> nat {
    match state {
        LifecycleState::Starting => 0,
        LifecycleState::Running => 1,
        LifecycleState::ShuttingDown => 2,
        LifecycleState::Stopped => 3,
        LifecycleState::Faulted => 3,
    }
}

/// Reports why a handle operation could not complete.
#[derive(Clone, Copy, Debug, PartialEq, Eq, Structural)]
pub enum HandleError {
    /// The actor task or its request channel has ended.
    ActorStopped,
    /// Graceful shutdown has started.
    ShuttingDown,
    /// A transport operation failed; the transport error is retained by the actor's exit.
    TransportFailed,
    /// A query did not receive its matching response before the configured timeout.
    RequestTimedOut,
    /// The bounded queue for serialized queries is full.
    QueryQueueFull,
}

/// Reports a recoverable or terminal condition while consuming board events.
#[derive(Clone, Copy, Debug, PartialEq, Eq, Structural)]
pub enum EventStreamError {
    /// The subscriber fell behind and older events were discarded.
    Lagged(u64),
    /// A malformed notification was skipped while the actor remained running.
    Decode(DecodeNotificationError),
    /// The actor closed the event channel.
    Closed,
}

impl From<DecodeNotificationError> for EventStreamError {
    fn from(error: DecodeNotificationError) -> (r: Self) {
        EventStreamError::Decode(error)
    }
}

impl vstd::std_specs::convert::FromSpecImpl<DecodeNotificationError> for EventStreamError {
    open spec fn obeys_from_spec() -> bool {
        true
    }

    open spec fn from_spec(error: DecodeNotificationError) -> Self {
        EventStreamError::Decode(error)
    }
}

/// Fatal error retained when the board actor terminates.
#[derive(Debug)]
pub enum ActorError<E> {
    /// A transport operation failed during initialization, operation, or cleanup.
    Transport(E),
}

/// Why the actor's running loop ended.
pub enum LoopExit<E> {
    /// A transport operation failed: writing a command or receiving a notification.
    TransportFailed(E),
    /// A handle asked the actor to shut down.
    ShutdownRequested,
    /// Every handle was dropped.
    HandlesDropped,
}

/// The result of a running loop that ended: a transport failure is fatal,
/// while a shutdown request or the loss of every handle ends the actor
/// cleanly.
pub fn loop_result<E>(exit: LoopExit<E>) -> (result: Result<(), ActorError<E>>)
    ensures
        match exit {
            LoopExit::TransportFailed(error) => result == Err::<(), ActorError<E>>(ActorError::Transport(error)),
            _ => result == Ok::<(), ActorError<E>>(()),
        },
{
    match exit {
        LoopExit::TransportFailed(error) => Err(ActorError::Transport(error)),
        LoopExit::ShutdownRequested => Ok(()),
        LoopExit::HandlesDropped => Ok(()),
    }
}

/// The result of a terminated actor, including its transport.
///
/// An exit always returns ownership of the transport, including after a
/// transport failure.
pub struct ActorExit<T, E> {
    transport: T,
    result: Result<(), ActorError<E>>,
}

impl<T, E> ActorExit<T, E> {
    /// The transport returned by the actor.
    pub closed spec fn returned_transport(&self) -> T {
        self.transport
    }

    /// The actor's final result.
    pub closed spec fn outcome(&self) -> Result<(), ActorError<E>> {
        self.result
    }

    /// Records how an actor ended.
    pub fn new(transport: T, result: Result<(), ActorError<E>>) -> (exit: Self)
        ensures
            exit.returned_transport() == transport,
            exit.outcome() == result,
    {
        ActorExit { transport, result }
    }

    /// Returns a shared reference to the actor's transport.
    pub fn transport(&self) -> (transport: &T)
        ensures
            *transport == self.returned_transport(),
    {
        &self.transport
    }

    /// Consumes the exit and returns its transport, discarding the actor result.
    pub fn into_transport(self) -> (transport: T)
        ensures
            transport == self.returned_transport(),
    {
        self.transport
    }

    /// Consumes the exit and returns the transport and actor result.
    pub fn into_parts(self) -> (parts: (T, Result<(), ActorError<E>>))
        ensures
            parts.0 == self.returned_transport(),
            parts.1 == self.outcome(),
    {
        (self.transport, self.result)
    }

    /// Returns the actor result by reference: the retained error when
    /// initialization, operation, or cleanup failed.
    pub fn result(&self) -> (result: Result<(), &ActorError<E>>)
        ensures
            result is Ok <==> self.outcome() is Ok,
            result matches Err(error) ==> self.outcome() == Err::<(), ActorError<E>>(*error),
    {
        match &self.result {
            Ok(()) => Ok(()),
            Err(error) => Err(error),
        }
    }

    /// Consumes the exit and returns the owned actor result.
    pub fn into_result(self) -> (result: Result<(), ActorError<E>>)
        ensures
            result == self.outcome(),
    {
        self.result
    }
}

/// Decides whether a handle may hand a request to the actor in a lifecycle state.
///
/// Requests are accepted while the actor starts or runs, refused with
/// `ShuttingDown` during cleanup, and with `ActorStopped` once it has ended.
pub fn admit_request(lifecycle: LifecycleState) -> (r: Result<(), HandleError>)
    ensures
        lifecycle_stage(lifecycle) <= 1 ==> r is Ok,
        lifecycle == LifecycleState::ShuttingDown ==> r == Err::<(), HandleError>(HandleError::ShuttingDown),
        lifecycle_stage(lifecycle) == 3 ==> r == Err::<(), HandleError>(HandleError::ActorStopped),
{
    match lifecycle {
        LifecycleState::Starting | LifecycleState::Running => Ok(()),
        LifecycleState::ShuttingDown => Err(HandleError::ShuttingDown),
        LifecycleState::Stopped | LifecycleState::Faulted => Err(HandleError::ActorStopped),
    }
}

/// What a lag-aware event subscriber received from the actor's broadcast.
#[derive(Clone, Copy, Debug, PartialEq, Eq)]
pub enum BroadcastReceipt {
    /// A published decoding result.
    Delivered(Result<BoardEvent, DecodeNotificationError>),
    /// The subscriber fell behind and missed this many results.
    Lagged(u64),
    /// The actor closed the broadcast.
    Ended,
}

/// Turns a broadcast receipt into the next item of an event stream; the
/// stream ends (`None`) when the broadcast was closed.
pub fn stream_item(receipt: BroadcastReceipt) -> (item: Option<Result<BoardEvent, EventStreamError>>)
    ensures
        receipt matches BroadcastReceipt::Delivered(Ok(event)) ==> item == Some(
            Ok::<BoardEvent, EventStreamError>(event),
        ),
        receipt matches BroadcastReceipt::Delivered(Err(error)) ==> item == Some(
            Err::<BoardEvent, EventStreamError>(EventStreamError::Decode(error)),
        ),
        receipt matches BroadcastReceipt::Lagged(count) ==> item == Some(
            Err::<BoardEvent, EventStreamError>(EventStreamError::Lagged(count)),
        ),
        receipt is Ended ==> item is None,
{
    match receipt {
        BroadcastReceipt::Delivered(Ok(event)) => Some(Ok(event)),
        BroadcastReceipt::Delivered(Err(error)) => Some(Err(EventStreamError::Decode(error))),
        BroadcastReceipt::Lagged(count) => Some(Err(EventStreamError::Lagged(count))),
        BroadcastReceipt::Ended => None,
    }
}

/// The next event of a stream whose next item is `item`: an ended stream
/// reports `Closed`.
pub fn received_event(item: Option<Result<BoardEvent, EventStreamError>>) -> (r: Result<BoardEvent, EventStreamError>)
    ensures
        item matches Some(result) ==> r == result,
        item is None ==> r == Err::<BoardEvent, EventStreamError>(EventStreamError::Closed),
{
    match item {
        Some(result) => result,
        None => Err(EventStreamError::Closed),
    }
}

/// The two queries whose responses the actor correlates.
#[derive(Clone, Copy, Debug, PartialEq, Eq, Structural, Hash)]
pub enum QueryKind {
    /// The board battery query.
    Battery,
    /// The tracked-piece status query.
    Pieces,
}

/// Whether an event is the response to a query kind.
pub open spec fn query_answered_by(kind: QueryKind, event: BoardEvent) -> bool {
    match (kind, event) {
        (QueryKind::Battery, BoardEvent::BatteryStatus(_)) => true,
        (QueryKind::Pieces, BoardEvent::PieceStatus(_)) => true,
        _ => false,
    }
}

impl QueryKind {
    /// Builds the command written for this query.
    pub fn command(self) -> (command: Command)
        ensures
            self == QueryKind::Battery ==> command@ == query_bytes(0x0c),
            self == QueryKind::Pieces ==> command@ == query_bytes(0x0b),
            command.kind() == crate::protocol::WriteKind::WithResponse,
    {
        match self {
            QueryKind::Battery => Command::read_battery_level(),
            QueryKind::Pieces => Command::read_piece_status(),
        }
    }
}

/// A query submitted to the actor, numbered by the task that runs it.
#[derive(Clone, Copy, Debug, PartialEq, Eq, Structural, Hash)]
pub struct QueryTicket {
    /// Number by which the task finds the query's reply channel.
    pub id: u64,
    /// Which query this is.
    pub kind: QueryKind,
}

/// The successful answer to a query.
#[derive(Clone, Copy, Debug, PartialEq, Eq)]
pub enum QueryAnswer {
    /// The answer to a battery query.
    Battery(BatteryStatus),
    /// The answer to a tracked-piece query.
    Pieces(PieceStatus),
}

/// The event that carried an answer.
pub open spec fn answer_event(answer: QueryAnswer) -> BoardEvent {
    match answer {
        QueryAnswer::Battery(status) => BoardEvent::BatteryStatus(status),
        QueryAnswer::Pieces(status) => BoardEvent::PieceStatus(status),
    }
}

/// A query completed with its answer.
#[derive(Clone, Copy, Debug, PartialEq, Eq)]
pub struct QueryReply {
    /// The completed query.
    pub ticket: QueryTicket,
    /// Its answer.
    pub answer: QueryAnswer,
}

/// A query completed with an error.
#[derive(Clone, Copy, Debug, PartialEq, Eq, Structural)]
pub struct QueryFailure {
    /// The failed query.
    pub ticket: QueryTicket,
    /// The error its caller receives.
    pub error: HandleError,
}

/// What the actor does with a decoded notification.
#[derive(Clone, Copy, Debug, PartialEq, Eq)]
pub struct NotificationOutcome {
    /// The query that the notification answered, if any.
    pub reply: Option<QueryReply>,
    /// What is published to event subscribers, if anything.
    pub publish: Option<Result<BoardEvent, DecodeNotificationError>>,
}

/// What becomes of a newly submitted query.
#[derive(Clone, Copy, Debug, PartialEq, Eq, Structural)]
pub enum QueryDecision {
    /// The query is now active: write its command.
    Start(QueryTicket),
    /// The query waits behind the active query.
    Queued,
    /// The queue is full: the query fails at once.
    Rejected(QueryFailure),
}

/// Mathematical model of the actor's bookkeeping.
pub struct ActorModel {
    /// Current lifecycle phase.
    pub lifecycle: LifecycleState,
    /// The active query, whose response is awaited.
    pub active: Option<QueryTicket>,
    /// Queries waiting behind the active one, oldest first.
    pub waiting: Seq<QueryTicket>,
    /// Maximum number of waiting queries.
    pub query_capacity: nat,
}

/// Every query the actor still owes an answer: the active one, then the waiting ones in order.
pub open spec fn outstanding(model: ActorModel) -> Seq<QueryTicket> {
    match model.active {
        Some(ticket) => seq![ticket] + model.waiting,
        None => model.waiting,
    }
}

/// The actor's bookkeeping: lifecycle, the active query and the waiting queries.
pub struct ActorCore {
    lifecycle: LifecycleState,
    active: Option<QueryTicket>,
    waiting: VecDeque<QueryTicket>,
    query_capacity: usize,
}

impl View for ActorCore {
    type V = ActorModel;

    closed spec fn view(&self) -> ActorModel {
        ActorModel {
            lifecycle: self.lifecycle,
            active: self.active,
            waiting: self.waiting@,
            query_capacity: self.query_capacity as nat,
        }
    }
}

impl ActorCore {
    #[verifier::type_invariant]
    spec fn bounded(self) -> bool {
        self.waiting@.len() <= self.query_capacity
    }

    /// Bookkeeping for an actor that is starting, with room for
    /// `query_capacity` waiting queries.
    pub fn new(query_capacity: usize) -> (core: Self)
        ensures
            core@ == (ActorModel {
                lifecycle: LifecycleState::Starting,
                active: None,
                waiting: Seq::empty(),
                query_capacity: query_capacity as nat,
            }),
    {
        let core = ActorCore { lifecycle: LifecycleState::Starting, active: None, waiting: VecDeque::new(), query_capacity };
        assert(core@.waiting =~= Seq::empty());
        core
    }

    /// The current lifecycle phase.
    pub fn lifecycle(&self) -> (state: LifecycleState)
        ensures
            state == self@.lifecycle,
    {
        self.lifecycle
    }

    /// Whether a query is active, so that its response deadline applies.
    pub fn has_active_query(&self) -> (active: bool)
        ensures
            active == self@.active is Some,
    {
        self.active.is_some()
    }

    /// Records that initialization completed: a starting actor starts running.
    pub fn start_running(&mut self)
        ensures
            lifecycle_stage(old(self)@.lifecycle) <= lifecycle_stage(final(self)@.lifecycle),
            old(self)@.lifecycle == LifecycleState::Starting ==> final(self)@ == (ActorModel {
                lifecycle: LifecycleState::Running,
                ..old(self)@
            }),
            old(self)@.lifecycle != LifecycleState::Starting ==> final(self)@ == old(self)@,
    {
        proof {
            use_type_invariant(&*self);
        }
        if self.lifecycle == LifecycleState::Starting {
            self.lifecycle = LifecycleState::Running;
        }
    }

    /// Decides what becomes of a newly submitted query.
    ///
    /// With no active and no waiting query it becomes active at once; else it
    /// waits while the queue has room; else it fails with `QueryQueueFull`.
    pub fn submit_query(&mut self, ticket: QueryTicket) -> (decision: QueryDecision)
        ensures
            final(self)@.lifecycle == old(self)@.lifecycle,
            final(self)@.query_capacity == old(self)@.query_capacity,
            final(self)@.waiting.len() <= final(self)@.query_capacity,
            old(self)@.active is None && old(self)@.waiting.len() == 0 ==> decision == QueryDecision::Start(ticket)
                && final(self)@.active == Some(ticket) && final(self)@.waiting == old(self)@.waiting,
            !(old(self)@.active is None && old(self)@.waiting.len() == 0) && old(self)@.waiting.len()
                < old(self)@.query_capacity ==> decision == QueryDecision::Queued && final(self)@.active
                == old(self)@.active && final(self)@.waiting == old(self)@.waiting.push(ticket),
            !(old(self)@.active is None && old(self)@.waiting.len() == 0) && old(self)@.waiting.len()
                >= old(self)@.query_capacity ==> decision == QueryDecision::Rejected(
                QueryFailure { ticket, error: HandleError::QueryQueueFull },
            ) && final(self)@ == old(self)@,
            outstanding(final(self)@) == if decision is Rejected {
                outstanding(old(self)@)
            } else {
                outstanding(old(self)@).push(ticket)
            },
    {
        proof {
            use_type_invariant(&*self);
        }
        if self.active.is_none() && self.waiting.len() == 0 {
            self.active = Some(ticket);
            assert(outstanding(self@) =~= outstanding(old(self)@).push(ticket));
            QueryDecision::Start(ticket)
        } else if self.waiting.len() < self.query_capacity {
            let mut waiting = VecDeque::new();
            std::mem::swap(&mut waiting, &mut self.waiting);
            waiting.push_back(ticket);
            self.waiting = waiting;
            assert(outstanding(self@) =~= outstanding(old(self)@).push(ticket));
            QueryDecision::Queued
        } else {
            QueryDecision::Rejected(QueryFailure { ticket, error: HandleError::QueryQueueFull })
        }
    }

    /// When no query is active, makes the oldest waiting query active and
    /// returns it so that its command is written.
    pub fn next_query_to_start(&mut self) -> (started: Option<QueryTicket>)
        ensures
            final(self)@.lifecycle == old(self)@.lifecycle,
            final(self)@.query_capacity == old(self)@.query_capacity,
            final(self)@.waiting.len() <= final(self)@.query_capacity,
            old(self)@.active is None && old(self)@.waiting.len() > 0 ==> started == Some(old(self)@.waiting[0])
                && final(self)@.active == started && final(self)@.waiting == old(self)@.waiting.drop_first(),
            !(old(self)@.active is None && old(self)@.waiting.len() > 0) ==> started is None && final(self)@
                == old(self)@,
            outstanding(final(self)@) == outstanding(old(self)@),
    {
        proof {
            use_type_invariant(&*self);
        }
        if self.active.is_none() {
            let mut waiting = VecDeque::new();
            std::mem::swap(&mut waiting, &mut self.waiting);
            let next = waiting.pop_front();
            self.waiting = waiting;
            match next {
                Some(ticket) => {
                    self.active = Some(ticket);
                    assert(outstanding(self@) =~= outstanding(old(self)@));
                    Some(ticket)
                },
                None => {
                    assert(self@ == old(self)@);
                    None
                },
            }
        } else {
            None
        }
    }

    /// Offers a decoded event to the active query.
    ///
    /// The active query completes when the event is its response; any other
    /// event leaves it active. The event itself is published either way.
    pub fn resolve(&mut self, event: &BoardEvent) -> (reply: Option<QueryReply>)
        ensures
            final(self)@.lifecycle == old(self)@.lifecycle,
            final(self)@.waiting == old(self)@.waiting,
            final(self)@.query_capacity == old(self)@.query_capacity,
            match old(self)@.active {
                Some(ticket) => if query_answered_by(ticket.kind, *event) {
                    reply matches Some(r) && r.ticket == ticket && answer_event(r.answer) == *event
                        && final(self)@.active is None
                } else {
                    reply is None && final(self)@.active == old(self)@.active
                },
                None => reply is None && final(self)@.active is None,
            },
            outstanding(final(self)@) == if reply is Some {
                outstanding(old(self)@).drop_first()
            } else {
                outstanding(old(self)@)
            },
    {
        proof {
            use_type_invariant(&*self);
        }
        let answer = match (self.active, *event) {
            (Some(ticket), BoardEvent::BatteryStatus(status)) if ticket.kind == QueryKind::Battery => Some(
                QueryReply { ticket, answer: QueryAnswer::Battery(status) },
            ),
            (Some(ticket), BoardEvent::PieceStatus(status)) if ticket.kind == QueryKind::Pieces => Some(
                QueryReply { ticket, answer: QueryAnswer::Pieces(status) },
            ),
            _ => None,
        };
        if answer.is_some() {
            self.active = None;
            assert(outstanding(self@) =~= outstanding(old(self)@).drop_first());
        }
        answer
    }

    /// Handles one decoded notification.
    ///
    /// An event is offered to the active query and is always published to
    /// event subscribers, whether or not it answered the query; a decoding
    /// error is published and leaves the actor as it was; an acknowledgement
    /// is consumed. No notification changes the lifecycle.
    pub fn on_notification(&mut self, decoded: Result<DecodedNotification, DecodeNotificationError>) -> (outcome:
        NotificationOutcome)
        ensures
            final(self)@.lifecycle == old(self)@.lifecycle,
            final(self)@.waiting == old(self)@.waiting,
            final(self)@.query_capacity == old(self)@.query_capacity,
            decoded matches Ok(DecodedNotification::Event(event)) ==> outcome.publish == Some(
                Ok::<BoardEvent, DecodeNotificationError>(event),
            ) && match old(self)@.active {
                Some(ticket) => if query_answered_by(ticket.kind, event) {
                    outcome.reply matches Some(r) && r.ticket == ticket && answer_event(r.answer) == event
                        && final(self)@.active is None
                } else {
                    outcome.reply is None && final(self)@.active == old(self)@.active
                },
                None => outcome.reply is None && final(self)@.active is None,
            },
            decoded matches Ok(DecodedNotification::RealtimeUpdatesAcknowledged) ==> outcome.publish is None
                && outcome.reply is None && final(self)@ == old(self)@,
            decoded matches Err(error) ==> outcome.publish == Some(Err::<BoardEvent, DecodeNotificationError>(error))
                && outcome.reply is None && final(self)@ == old(self)@,
            outstanding(final(self)@) == if outcome.reply is Some {
                outstanding(old(self)@).drop_first()
            } else {
                outstanding(old(self)@)
            },
    {
        match decoded {
            Ok(DecodedNotification::Event(event)) => {
                let reply = self.resolve(&event);
                NotificationOutcome { reply, publish: Some(Ok(event)) }
            },
            Ok(DecodedNotification::RealtimeUpdatesAcknowledged) => NotificationOutcome { reply: None, publish: None },
            Err(error) => NotificationOutcome { reply: None, publish: Some(Err(error)) },
        }
    }

    /// Ends the active query because its response deadline passed; it fails
    /// with `RequestTimedOut` and the actor keeps running.
    pub fn expire_active_query(&mut self) -> (failure: Option<QueryFailure>)
        ensures
            final(self)@ == (ActorModel { active: None, ..old(self)@ }),
            match old(self)@.active {
                Some(ticket) => failure == Some(QueryFailure { ticket, error: HandleError::RequestTimedOut }),
                None => failure is None,
            },
            outstanding(final(self)@) == if failure is Some {
                outstanding(old(self)@).drop_first()
            } else {
                outstanding(old(self)@)
            },
    {
        proof {
            use_type_invariant(&*self);
        }
        let failure = match self.active {
            Some(ticket) => Some(QueryFailure { ticket, error: HandleError::RequestTimedOut }),
            None => None,
        };
        self.active = None;
        assert(outstanding(self@) =~= if failure is Some {
            outstanding(old(self)@).drop_first()
        } else {
            outstanding(old(self)@)
        });
        failure
    }

    /// Ends the active query because writing its command failed; it fails
    /// with `TransportFailed`.
    pub fn fail_active_query(&mut self) -> (failure: Option<QueryFailure>)
        ensures
            final(self)@ == (ActorModel { active: None, ..old(self)@ }),
            match old(self)@.active {
                Some(ticket) => failure == Some(QueryFailure { ticket, error: HandleError::TransportFailed }),
                None => failure is None,
            },
            outstanding(final(self)@) == if failure is Some {
                outstanding(old(self)@).drop_first()
            } else {
                outstanding(old(self)@)
            },
    {
        proof {
            use_type_invariant(&*self);
        }
        let failure = match self.active {
            Some(ticket) => Some(QueryFailure { ticket, error: HandleError::TransportFailed }),
            None => None,
        };
        self.active = None;
        assert(outstanding(self@) =~= if failure is Some {
            outstanding(old(self)@).drop_first()
        } else {
            outstanding(old(self)@)
        });
        failure
    }

    /// Starts cleanup: the actor stops accepting requests and every
    /// outstanding query fails with `ShuttingDown`, the active one first and
    /// then the waiting ones in order. Cleanup starts once, before the actor
    /// has ended.
    pub fn begin_shutdown(&mut self) -> (failures: Vec<QueryFailure>)
        requires
            lifecycle_stage(old(self)@.lifecycle) <= 2,
        ensures
            lifecycle_stage(old(self)@.lifecycle) <= lifecycle_stage(final(self)@.lifecycle),
            final(self)@ == (ActorModel {
                lifecycle: LifecycleState::ShuttingDown,
                active: None,
                waiting: Seq::empty(),
                query_capacity: old(self)@.query_capacity,
            }),
            failures@.len() == outstanding(old(self)@).len(),
            forall|i: int|
                0 <= i < failures@.len() ==> #[trigger] failures@[i] == (QueryFailure {
                    ticket: outstanding(old(self)@)[i],
                    error: HandleError::ShuttingDown,
                }),
    {
        proof {
            use_type_invariant(&*self);
        }
        let ghost owed = outstanding(self@);
        self.lifecycle = LifecycleState::ShuttingDown;
        let mut failures: Vec<QueryFailure> = Vec::new();
        match self.active {
            Some(ticket) => failures.push(QueryFailure { ticket, error: HandleError::ShuttingDown }),
            None => {},
        }
        self.active = None;
        let mut waiting = VecDeque::new();
        std::mem::swap(&mut waiting, &mut self.waiting);
        let ghost first = failures@.len();
        loop
            invariant
                self@.active is None,
                self@.lifecycle == LifecycleState::ShuttingDown,
                self@.query_capacity == old(self)@.query_capacity,
                first == (if old(self)@.active is Some { 1int } else { 0int }),
                failures@.len() + waiting@.len() == owed.len(),
                failures@.len() >= first,
                owed == outstanding(old(self)@),
                waiting@ == owed.subrange(failures@.len() as int, owed.len() as int),
                self@.waiting == Seq::<QueryTicket>::empty(),
                forall|i: int|
                    0 <= i < failures@.len() ==> #[trigger] failures@[i] == (QueryFailure {
                        ticket: owed[i],
                        error: HandleError::ShuttingDown,
                    }),
            ensures
                waiting@.len() == 0,
            decreases waiting@.len(),
        {
            match waiting.pop_front() {
                Some(ticket) => {
                    failures.push(QueryFailure { ticket, error: HandleError::ShuttingDown });
                },
                None => {
                    break;
                },
            }
        }
        failures
    }

    /// Ends the actor's life once cleanup has run, and returns its final result.
    ///
    /// The result is the first failure: the run's error if the run failed,
    /// else the cleanup's result. The actor ends `Stopped` when that result is
    /// `Ok` and `Faulted` otherwise.
    pub fn finish<E>(&mut self, run: Result<(), ActorError<E>>, cleanup: Result<(), ActorError<E>>) -> (result: Result<
        (),
        ActorError<E>,
    >)
        ensures
            lifecycle_stage(old(self)@.lifecycle) <= lifecycle_stage(final(self)@.lifecycle),
            result == (if run is Ok {
                cleanup
            } else {
                run
            }),
            final(self)@ == (ActorModel {
                lifecycle: if result is Ok {
                    LifecycleState::Stopped
                } else {
                    LifecycleState::Faulted
                },
                ..old(self)@
            }),
    {
        proof {
            use_type_invariant(&*self);
        }
        let result = match run {
            Ok(()) => cleanup,
            Err(error) => Err(error),
        };
        self.lifecycle = if result.is_ok() {
            LifecycleState::Stopped
        } else {
            LifecycleState::Faulted
        };
        result
    }
}

/// The reply to a shutdown request, given the actor's final result:
/// `TransportFailed` when the actor failed.
pub fn shutdown_reply<E>(result: &Result<(), ActorError<E>>) -> (reply: Result<(), HandleError>)
    ensures
        result is Ok ==> reply is Ok,
        result is Err ==> reply == Err::<(), HandleError>(HandleError::TransportFailed),
{
    match result {
        Ok(()) => Ok(()),
        Err(_) => Err(HandleError::TransportFailed),
    }
}

/// Each query is answered by its own kind of response and by no other event:
/// a battery query by every battery report, a tracked-piece query by every
/// tracked-piece report.
pub proof fn lemma_queries_answered_by_their_responses(event: BoardEvent)
    ensures
        query_answered_by(QueryKind::Battery, event) <==> event is BatteryStatus,
        query_answered_by(QueryKind::Pieces, event) <==> event is PieceStatus,
{
}

} // verus!
