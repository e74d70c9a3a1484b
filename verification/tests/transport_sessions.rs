use core::convert::Infallible;

use chessnut_move::protocol::{BatteryStatus, BoardEvent, Command, WriteKind};
use chessnut_move::transport::gatt::{
    COMMAND_RESPONSE_UUID, COMMAND_WRITE_UUID, Characteristic, POSITION_NOTIFICATION_UUID,
    find_characteristic,
};
use chessnut_move::transport::{
    AsyncBoard, BlockingBoard, BlockingTransport, BoardError, DecodeNotificationError,
    DecodedNotification, MAX_NOTIFICATION_LEN, Notification, NotificationRouteError,
    NotificationSource, SessionStep, decode_notification, initialization_steps, next_event_step,
    next_session_step, route_notification, shutdown_steps,
};

#[test]
fn decodes_notifications_according_to_their_source() {
    let response = [0x41, 0x03, 0x0c, 0x01, 74];
    let event = decode_notification(Notification::new(NotificationSource::CommandResponse, &response));

    assert_eq!(
        event,
        Ok(DecodedNotification::Event(BoardEvent::BatteryStatus(BatteryStatus {
            charging: true,
            percentage: 74,
        })))
    );
}

#[test]
fn recognizes_realtime_update_acknowledgement() {
    let notification = Notification::new(NotificationSource::CommandResponse, &[0x23, 0x01, 0x00]);

    assert_eq!(
        decode_notification(notification),
        Ok(DecodedNotification::RealtimeUpdatesAcknowledged)
    );
}

#[test]
fn position_bytes_are_not_acknowledgements() {
    let mut bytes = [0_u8; 34];
    bytes[0] = 0x23;
    let decoded = decode_notification(Notification::new(NotificationSource::Position, &bytes));
    assert!(matches!(decoded, Ok(DecodedNotification::Event(BoardEvent::PositionChanged(_)))));

    let short = [0x23_u8; 3];
    assert!(matches!(
        decode_notification(Notification::new(NotificationSource::Position, &short)),
        Err(DecodeNotificationError::Position(_))
    ));
    assert!(matches!(
        decode_notification(Notification::new(NotificationSource::CommandResponse, &[])),
        Err(DecodeNotificationError::CommandResponse(_))
    ));
}

#[test]
fn notification_keeps_its_source_and_bytes() {
    let bytes = [0x23, 0x01, 0x00];
    let notification = Notification::new(NotificationSource::CommandResponse, &bytes);
    assert_eq!(notification.bytes(), &bytes);
    assert_eq!(notification.source(), NotificationSource::CommandResponse);
    assert_eq!(MAX_NOTIFICATION_LEN, 3 + 34 * 4);
}

#[test]
fn sources_map_to_their_characteristics() {
    assert_eq!(NotificationSource::Position.characteristic(), Characteristic::PositionNotification);
    assert_eq!(NotificationSource::CommandResponse.characteristic(), Characteristic::CommandResponse);
    assert_eq!(Characteristic::CommandWrite.uuid(), COMMAND_WRITE_UUID);
    assert_eq!(Characteristic::PositionNotification.uuid(), POSITION_NOTIFICATION_UUID);
    assert_eq!(Characteristic::CommandResponse.uuid(), COMMAND_RESPONSE_UUID);
    assert_eq!(
        Characteristic::CommandResponse.uuid_u128(),
        0x1b7e8273_2877_41c3_b46e_cf057c562023_u128
    );
    for characteristic in [
        Characteristic::PositionNotification,
        Characteristic::CommandWrite,
        Characteristic::CommandResponse,
    ] {
        let text = format!("{:032x}", characteristic.uuid_u128());
        assert_eq!(characteristic.uuid().replace('-', ""), text);
    }
}

#[test]
fn routes_values_by_characteristic_and_length() {
    let position = Characteristic::PositionNotification.uuid_u128();
    let response = Characteristic::CommandResponse.uuid_u128();
    let write = Characteristic::CommandWrite.uuid_u128();
    assert_eq!(route_notification(position, 34, 139), Ok(NotificationSource::Position));
    assert_eq!(route_notification(response, 139, 139), Ok(NotificationSource::CommandResponse));
    assert_eq!(
        route_notification(write, 200, 139),
        Err(NotificationRouteError::UnexpectedCharacteristic(write))
    );
    assert_eq!(
        route_notification(response, 140, 139),
        Err(NotificationRouteError::TooLong { actual: 140, capacity: 139 })
    );
}

#[test]
fn sessions_subscribe_before_enabling_and_unsubscribe_in_reverse() {
    assert_eq!(
        initialization_steps(),
        [
            SessionStep::Subscribe(NotificationSource::Position),
            SessionStep::EnableRealtimeUpdates,
            SessionStep::Subscribe(NotificationSource::CommandResponse),
        ]
    );
    assert_eq!(
        shutdown_steps(),
        [
            SessionStep::Unsubscribe(NotificationSource::CommandResponse),
            SessionStep::Unsubscribe(NotificationSource::Position),
            SessionStep::Close,
        ]
    );
}

struct MockTransport {
    subscriptions: [Option<NotificationSource>; 2],
    subscription_count: usize,
    unsubscriptions: Vec<NotificationSource>,
    closed: bool,
    written: [u8; 35],
    written_len: usize,
    write_kind: Option<WriteKind>,
    notification_count: usize,
}

impl MockTransport {
    const fn new() -> Self {
        Self {
            subscriptions: [None; 2],
            subscription_count: 0,
            unsubscriptions: Vec::new(),
            closed: false,
            written: [0; 35],
            written_len: 0,
            write_kind: None,
            notification_count: 0,
        }
    }
}

impl BlockingTransport for MockTransport {
    type Error = Infallible;

    fn subscribe(&mut self, source: NotificationSource) -> Result<(), Self::Error> {
        self.subscriptions[self.subscription_count] = Some(source);
        self.subscription_count += 1;
        Ok(())
    }

    fn unsubscribe(&mut self, source: NotificationSource) -> Result<(), Self::Error> {
        self.unsubscriptions.push(source);
        Ok(())
    }

    fn write_command(&mut self, command: &Command) -> Result<(), Self::Error> {
        self.written[..command.bytes().len()].copy_from_slice(command.bytes());
        self.written_len = command.bytes().len();
        self.write_kind = Some(command.write_kind());
        Ok(())
    }

    fn next_notification<'a>(&'a mut self, buffer: &'a mut [u8]) -> Result<Notification<'a>, Self::Error> {
        let notification: &[u8] = if self.notification_count == 0 {
            &[0x23, 0x01, 0x00]
        } else {
            &[0x41, 0x03, 0x0c, 0x01, 81]
        };
        self.notification_count += 1;
        buffer[..notification.len()].copy_from_slice(notification);
        Ok(Notification::new(NotificationSource::CommandResponse, &buffer[..notification.len()]))
    }

    fn close(&mut self) -> Result<(), Self::Error> {
        self.closed = true;
        Ok(())
    }
}

#[test]
fn blocking_initializes_and_decodes_events_without_allocating() {
    let mut board = BlockingBoard::new(MockTransport::new());
    board.initialize().unwrap();

    assert_eq!(
        board.transport().subscriptions,
        [Some(NotificationSource::Position), Some(NotificationSource::CommandResponse)]
    );
    assert_eq!(
        &board.transport().written[..board.transport().written_len],
        Command::enable_realtime_updates().bytes()
    );
    assert_eq!(board.transport().write_kind, Some(WriteKind::WithResponse));

    assert_eq!(
        board.next_event().unwrap(),
        BoardEvent::BatteryStatus(BatteryStatus { charging: true, percentage: 81 })
    );
}

#[test]
fn blocking_session_sends_and_shuts_down_in_order() {
    let mut board = BlockingBoard::new(MockTransport::new());
    board.send(&Command::read_battery_level()).unwrap();
    assert_eq!(&board.transport().written[..3], [0x41, 0x01, 0x0c]);
    board.shutdown().unwrap();
    assert_eq!(
        board.transport().unsubscriptions,
        [NotificationSource::CommandResponse, NotificationSource::Position]
    );
    assert!(board.transport().closed);
    board.transport_mut().closed = false;
    assert!(!board.into_transport().closed);
}

struct FailingTransport {
    writes: usize,
}

impl BlockingTransport for FailingTransport {
    type Error = &'static str;

    fn subscribe(&mut self, _source: NotificationSource) -> Result<(), Self::Error> {
        Ok(())
    }

    fn write_command(&mut self, _command: &Command) -> Result<(), Self::Error> {
        self.writes += 1;
        Err("write failed")
    }

    fn next_notification<'a>(&'a mut self, buffer: &'a mut [u8]) -> Result<Notification<'a>, Self::Error> {
        buffer[..2].copy_from_slice(&[0x41, 0x03]);
        Ok(Notification::new(NotificationSource::CommandResponse, &buffer[..2]))
    }
}

#[test]
fn blocking_session_reports_transport_and_decode_errors() {
    let mut board = BlockingBoard::new(FailingTransport { writes: 0 });
    assert!(matches!(board.initialize(), Err(BoardError::Transport("write failed"))));
    assert_eq!(board.transport().writes, 1);
    assert!(matches!(
        board.next_event(),
        Err(BoardError::Decode(DecodeNotificationError::CommandResponse(_)))
    ));
    assert!(board.shutdown().is_ok());
}

#[test]
fn async_session_owns_its_transport() {
    let mut board = AsyncBoard::new(MockTransport::new());
    assert_eq!(board.transport().subscription_count, 0);
    board.transport_mut().subscription_count = 2;
    let (transport, buffer) = board.transport_and_buffer_mut();
    assert_eq!(transport.subscription_count, 2);
    assert_eq!(buffer.len(), MAX_NOTIFICATION_LEN);
    assert_eq!(board.into_transport().subscription_count, 2);
}

#[test]
fn uuid_strings_denote_their_integers() {
    for characteristic in [
        Characteristic::PositionNotification,
        Characteristic::CommandWrite,
        Characteristic::CommandResponse,
    ] {
        let digits = characteristic.uuid().replace('-', "");
        assert_eq!(u128::from_str_radix(&digits, 16).unwrap(), characteristic.uuid_u128());
    }
    assert_eq!(
        Characteristic::CommandResponse.uuid_u128(),
        0x1b7e8273_2877_41c3_b46e_cf057c562023
    );
}

#[test]
fn session_steps_run_in_order_and_stop_at_a_failure() {
    let steps = initialization_steps();
    assert_eq!(
        next_session_step(steps, 0, true),
        Some(SessionStep::Subscribe(NotificationSource::Position))
    );
    assert_eq!(next_session_step(steps, 1, true), Some(SessionStep::EnableRealtimeUpdates));
    assert_eq!(next_session_step(steps, 1, false), None);
    assert_eq!(next_session_step(steps, 3, true), None);
}

#[test]
fn event_steps_consume_only_acknowledgements() {
    let status = BatteryStatus { charging: false, percentage: 40 };
    assert_eq!(
        next_event_step(Ok(DecodedNotification::Event(BoardEvent::BatteryStatus(status)))),
        Some(Ok(BoardEvent::BatteryStatus(status)))
    );
    assert_eq!(next_event_step(Ok(DecodedNotification::RealtimeUpdatesAcknowledged)), None);
    let error = decode_notification(Notification::new(NotificationSource::CommandResponse, &[0x41]))
        .unwrap_err();
    assert_eq!(next_event_step(Err(error)), Some(Err(error)));
}

#[test]
fn finds_the_first_discovered_characteristic_with_its_uuid() {
    let write = Characteristic::CommandWrite.uuid_u128();
    let discovered = [7, write, Characteristic::CommandResponse.uuid_u128(), write];
    assert_eq!(find_characteristic(&discovered, Characteristic::CommandWrite), Some(1));
    assert_eq!(find_characteristic(&discovered, Characteristic::CommandResponse), Some(2));
    assert_eq!(find_characteristic(&discovered, Characteristic::PositionNotification), None);
    assert_eq!(find_characteristic(&[], Characteristic::CommandWrite), None);
}
