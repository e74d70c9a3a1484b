use chessnut_move::protocol::{BatteryStatus, BoardEvent, Position, SQUARE_COUNT};
use chessnut_move::transport::{DecodeNotificationError, DecodedNotification};
use chessnut_move::protocol::{DecodePositionNotificationError, NotificationTooShortError};
use chessnut_move::transport::actor::{
    ActorConfig, ActorCore, ActorError, ActorExit, BroadcastReceipt, EventStreamError, HandleError,
    LifecycleState, LoopExit, QueryAnswer, QueryDecision, QueryFailure, QueryKind, QueryTicket, SpawnError,
    admit_request, loop_result, received_event, shutdown_reply, stream_item, validate_config,
};

fn battery(percentage: u8) -> BoardEvent {
    BoardEvent::BatteryStatus(BatteryStatus { charging: true, percentage })
}

#[test]
fn default_config_has_documented_capacities() {
    let config = ActorConfig::default();
    assert_eq!(config.command_capacity, 32);
    assert_eq!(config.event_capacity, 64);
    assert_eq!(config.query_capacity, 32);
    assert_eq!(config.request_timeout, std::time::Duration::from_secs(5));
}

#[test]
fn zero_capacities_are_rejected() {
    let config = ActorConfig::default();
    assert_eq!(validate_config(&config), Ok(()));
    assert_eq!(
        validate_config(&ActorConfig { command_capacity: 0, event_capacity: 0, ..config }),
        Err(SpawnError::ZeroCommandCapacity)
    );
    assert_eq!(
        validate_config(&ActorConfig { event_capacity: 0, ..config }),
        Err(SpawnError::ZeroEventCapacity)
    );
    assert_eq!(validate_config(&ActorConfig { query_capacity: 0, ..config }), Ok(()));
}

#[test]
fn requests_are_admitted_only_while_starting_or_running() {
    assert_eq!(admit_request(LifecycleState::Starting), Ok(()));
    assert_eq!(admit_request(LifecycleState::Running), Ok(()));
    assert_eq!(admit_request(LifecycleState::ShuttingDown), Err(HandleError::ShuttingDown));
    assert_eq!(admit_request(LifecycleState::Stopped), Err(HandleError::ActorStopped));
    assert_eq!(admit_request(LifecycleState::Faulted), Err(HandleError::ActorStopped));
}

#[test]
fn actor_correlates_queries_without_stealing_events() {
    let mut core = ActorCore::new(32);
    assert_eq!(core.lifecycle(), LifecycleState::Starting);
    core.start_running();
    assert_eq!(core.lifecycle(), LifecycleState::Running);

    let battery_query = QueryTicket { id: 1, kind: QueryKind::Battery };
    assert_eq!(core.submit_query(battery_query), QueryDecision::Start(battery_query));
    assert_eq!(QueryKind::Battery.command().bytes(), [0x41, 0x01, 0x0c]);
    assert!(core.has_active_query());

    // A position event does not answer the battery query.
    let position = BoardEvent::PositionChanged(Position::new([None; SQUARE_COUNT]));
    assert_eq!(core.resolve(&position), None);
    assert!(core.has_active_query());

    let reply = core.resolve(&battery(88)).unwrap();
    assert_eq!(reply.ticket, battery_query);
    assert_eq!(reply.answer, QueryAnswer::Battery(BatteryStatus { charging: true, percentage: 88 }));
    assert!(!core.has_active_query());

    // Once the query is answered, further battery events answer nothing.
    assert_eq!(core.resolve(&battery(87)), None);
}

#[test]
fn queries_wait_in_order_and_the_queue_is_bounded() {
    let mut core = ActorCore::new(2);
    core.start_running();
    let first = QueryTicket { id: 1, kind: QueryKind::Pieces };
    let second = QueryTicket { id: 2, kind: QueryKind::Battery };
    let third = QueryTicket { id: 3, kind: QueryKind::Pieces };
    let fourth = QueryTicket { id: 4, kind: QueryKind::Battery };
    assert_eq!(core.submit_query(first), QueryDecision::Start(first));
    assert_eq!(core.submit_query(second), QueryDecision::Queued);
    assert_eq!(core.submit_query(third), QueryDecision::Queued);
    assert_eq!(
        core.submit_query(fourth),
        QueryDecision::Rejected(QueryFailure { ticket: fourth, error: HandleError::QueryQueueFull })
    );
    // Nothing starts while a query is active.
    assert_eq!(core.next_query_to_start(), None);

    assert_eq!(
        core.expire_active_query(),
        Some(QueryFailure { ticket: first, error: HandleError::RequestTimedOut })
    );
    assert_eq!(core.lifecycle(), LifecycleState::Running);
    assert_eq!(core.next_query_to_start(), Some(second));
    assert_eq!(
        core.fail_active_query(),
        Some(QueryFailure { ticket: second, error: HandleError::TransportFailed })
    );
    assert_eq!(core.next_query_to_start(), Some(third));
    assert_eq!(core.next_query_to_start(), None);
    assert_eq!(core.expire_active_query().map(|failure| failure.ticket), Some(third));
    assert_eq!(core.expire_active_query(), None);
}

#[test]
fn shutdown_fails_every_outstanding_query() {
    let mut core = ActorCore::new(4);
    core.start_running();
    let tickets = [
        QueryTicket { id: 10, kind: QueryKind::Battery },
        QueryTicket { id: 11, kind: QueryKind::Pieces },
        QueryTicket { id: 12, kind: QueryKind::Battery },
    ];
    for ticket in tickets {
        core.submit_query(ticket);
    }
    let failures = core.begin_shutdown();
    assert_eq!(core.lifecycle(), LifecycleState::ShuttingDown);
    assert_eq!(failures.len(), 3);
    for (failure, ticket) in failures.iter().zip(tickets.iter()) {
        assert_eq!(failure.ticket, *ticket);
        assert_eq!(failure.error, HandleError::ShuttingDown);
    }
    assert!(!core.has_active_query());
    assert_eq!(core.next_query_to_start(), None);

    let result: Result<(), ActorError<&str>> = core.finish(Ok(()), Ok(()));
    assert!(result.is_ok());
    assert_eq!(core.lifecycle(), LifecycleState::Stopped);
    assert_eq!(shutdown_reply(&result), Ok(()));
}

#[test]
fn the_first_failure_becomes_the_actor_result() {
    let mut core = ActorCore::new(1);
    core.begin_shutdown();
    let result = core.finish(Err(ActorError::Transport("read")), Err(ActorError::Transport("close")));
    assert!(matches!(result, Err(ActorError::Transport("read"))));
    assert_eq!(core.lifecycle(), LifecycleState::Faulted);
    assert_eq!(shutdown_reply(&result), Err(HandleError::TransportFailed));

    let mut core = ActorCore::new(1);
    let result = core.finish(Ok(()), Err(ActorError::Transport("close")));
    assert!(matches!(result, Err(ActorError::Transport("close"))));
    assert_eq!(core.lifecycle(), LifecycleState::Faulted);
}

#[test]
fn event_stream_reports_lag() {
    assert_eq!(
        received_event(stream_item(BroadcastReceipt::Lagged(1))),
        Err(EventStreamError::Lagged(1))
    );
    assert_eq!(received_event(stream_item(BroadcastReceipt::Delivered(Ok(battery(11))))), Ok(battery(11)));
    assert_eq!(received_event(stream_item(BroadcastReceipt::Ended)), Err(EventStreamError::Closed));
    let error = DecodeNotificationError::Position(DecodePositionNotificationError::NotificationTooShort(
        NotificationTooShortError { expected: 34, actual: 29 },
    ));
    assert_eq!(
        stream_item(BroadcastReceipt::Delivered(Err(error))),
        Some(Err(EventStreamError::Decode(error)))
    );
    assert_eq!(EventStreamError::from(error), EventStreamError::Decode(error));
}

#[test]
fn malformed_notifications_are_published_and_the_actor_keeps_running() {
    let mut core = ActorCore::new(8);
    core.start_running();
    let query = QueryTicket { id: 7, kind: QueryKind::Pieces };
    core.submit_query(query);

    let error = DecodeNotificationError::Position(DecodePositionNotificationError::NotificationTooShort(
        NotificationTooShortError { expected: 34, actual: 29 },
    ));
    let outcome = core.on_notification(Err(error));
    assert_eq!(outcome.publish, Some(Err(error)));
    assert_eq!(outcome.reply, None);
    assert_eq!(core.lifecycle(), LifecycleState::Running);
    assert!(core.has_active_query());

    let outcome = core.on_notification(Ok(DecodedNotification::RealtimeUpdatesAcknowledged));
    assert_eq!(outcome.publish, None);
    assert_eq!(outcome.reply, None);

    // A battery report is published but does not answer the piece query.
    let outcome = core.on_notification(Ok(DecodedNotification::Event(battery(50))));
    assert_eq!(outcome.publish, Some(Ok(battery(50))));
    assert_eq!(outcome.reply, None);
    assert!(core.has_active_query());
}

#[test]
fn an_exit_returns_the_transport_and_the_result() {
    let exit: ActorExit<Vec<u8>, &str> = ActorExit::new(vec![1, 2], Err(ActorError::Transport("closed")));
    assert_eq!(exit.transport(), &vec![1, 2]);
    assert!(matches!(exit.result(), Err(ActorError::Transport("closed"))));
    let (transport, result) = exit.into_parts();
    assert_eq!(transport, vec![1, 2]);
    assert!(result.is_err());

    let exit: ActorExit<u8, &str> = ActorExit::new(3, Ok(()));
    assert!(exit.result().is_ok());
    assert_eq!(ActorExit::<u8, &str>::new(4, Ok(())).into_transport(), 4);
    assert!(exit.into_result().is_ok());
}

#[test]
fn only_transport_failures_end_the_loop_with_an_error() {
    assert!(matches!(
        loop_result(LoopExit::TransportFailed("lost")),
        Err(ActorError::Transport("lost"))
    ));
    assert!(loop_result::<&str>(LoopExit::ShutdownRequested).is_ok());
    assert!(loop_result::<&str>(LoopExit::HandlesDropped).is_ok());
}
