use borderless::config::TransportMode;
use borderless::input_event::{InputEvent, MouseMoveAbsEvent};
use borderless::link::{
    connection_failure_message, incoming_frame_len, read_timeout_message, FrameWriter, Link,
    LinkAction, LinkInput, RECONNECT_DELAY_MILLIS, RELIABLE_READ_TIMEOUT_MILLIS,
};
use borderless::protocol::{decode_frame, Heartbeat, WireMessage};
use borderless::transport::{ConnectionCommand, ConnectionEvent};

fn controller() -> (Link, Vec<LinkAction>) {
    Link::start(false, "127.0.0.1:24800".to_string(), TransportMode::Tcp)
}

fn agent() -> (Link, Vec<LinkAction>) {
    Link::start(true, "0.0.0.0:24800".to_string(), TransportMode::Tcp)
}

fn open(link: &mut Link) {
    assert_eq!(
        link.on_input(LinkInput::Opened("10.0.0.2:5000".to_string())),
        vec![LinkAction::Emit(ConnectionEvent::Connected {
            peer: "10.0.0.2:5000".to_string(),
            mode: TransportMode::Tcp,
        })]
    );
}

fn release_all() -> LinkInput {
    LinkInput::Command(ConnectionCommand::SendReliable(WireMessage::ReleaseAll))
}

fn stop() -> LinkInput {
    LinkInput::Command(ConnectionCommand::Stop)
}

#[test]
fn connection_failure_message_names_target_and_setup_checks() {
    let message = connection_failure_message(
        "192.168.1.2:24800",
        "由于目标计算机积极拒绝，无法连接。 (os error 10061)",
    );

    assert!(message.contains("192.168.1.2:24800"));
    assert!(message.contains("Agent"));
    assert!(message.contains("firewall"));
    assert!(message.contains("port"));
    assert!(message.contains("os error 10061"));
}

#[test]
fn agent_server_reliable_read_timeout_allows_drag_handoff_and_bulk_transfer_jitter() {
    assert!(RELIABLE_READ_TIMEOUT_MILLIS >= 5_000);
}

#[test]
fn controller_client_reliable_read_timeout_allows_drag_handoff_and_bulk_transfer_jitter() {
    assert!(RELIABLE_READ_TIMEOUT_MILLIS >= 5_000);
    assert!(RECONNECT_DELAY_MILLIS > 0);
}

#[test]
fn pointer_input_is_delivered_on_the_control_tcp_connection() {
    let (mut link, _) = controller();
    open(&mut link);
    assert_eq!(
        link.on_input(LinkInput::Command(ConnectionCommand::SendReliable(WireMessage::Input(
            InputEvent::MouseMoveAbs(MouseMoveAbsEvent { x: 400, y: 300 })
        )))),
        vec![LinkAction::Send(WireMessage::Input(InputEvent::MouseMoveAbs(
            MouseMoveAbsEvent { x: 400, y: 300 }
        )))]
    );
}

#[test]
fn the_latest_pointer_travels_as_input() {
    let (mut link, _) = controller();
    open(&mut link);
    assert_eq!(
        link.on_input(LinkInput::Command(ConnectionCommand::SendLatestPointer { x: 12, y: 34 })),
        vec![LinkAction::Send(WireMessage::Input(InputEvent::MouseMoveAbs(
            MouseMoveAbsEvent { x: 12, y: 34 }
        )))]
    );
}

#[test]
fn reconnect_delay_ignores_send_commands_until_delay_expires() {
    let (mut link, _) = controller();
    let actions = link.on_input(LinkInput::OpenFailed("refused".to_string()));
    assert!(actions.contains(&LinkAction::Delay));
    assert!(link.on_input(release_all()).is_empty());
    let actions = link.on_input(LinkInput::DelayOver);
    assert!(actions.contains(&LinkAction::Open));
}

#[test]
fn connect_or_stop_stops_while_connect_is_pending() {
    let (mut link, _) = controller();
    assert!(link.on_input(stop()).is_empty());
    assert!(link.is_stopped());
    assert!(link.on_input(LinkInput::Opened("late".to_string())).is_empty());
}

#[test]
fn connect_or_stop_ignores_send_commands_while_connect_is_pending() {
    let (mut link, _) = controller();
    assert!(link.on_input(release_all()).is_empty());
    open(&mut link);
}

#[test]
fn controller_waits_after_live_disconnect_before_reconnecting() {
    let (mut link, _) = controller();
    open(&mut link);
    let actions = link.on_input(LinkInput::Closed);
    assert_eq!(
        actions,
        vec![
            LinkAction::Emit(ConnectionEvent::Disconnected("10.0.0.2:5000".to_string())),
            LinkAction::Delay,
        ]
    );
    assert_eq!(
        link.on_input(LinkInput::DelayOver),
        vec![
            LinkAction::Emit(ConnectionEvent::Connecting("127.0.0.1:24800".to_string())),
            LinkAction::Open,
        ]
    );
}

#[test]
fn controller_reports_disconnect_when_reliable_channel_is_idle() {
    let (mut link, _) = controller();
    open(&mut link);
    let actions = link.on_input(LinkInput::Broken(read_timeout_message()));
    assert!(actions.contains(&LinkAction::Emit(ConnectionEvent::Error(read_timeout_message()))));
    assert!(actions
        .contains(&LinkAction::Emit(ConnectionEvent::Disconnected("10.0.0.2:5000".to_string()))));
}

#[test]
fn agent_reports_disconnect_when_reliable_channel_is_idle() {
    let (mut link, actions) = agent();
    assert_eq!(actions[0], LinkAction::Emit(ConnectionEvent::Waiting));
    open(&mut link);
    let actions = link.on_input(LinkInput::Broken(read_timeout_message()));
    assert!(actions
        .contains(&LinkAction::Emit(ConnectionEvent::Disconnected("10.0.0.2:5000".to_string()))));
}

#[test]
fn post_disconnect_backoff_ignores_send_commands_until_delay_expires() {
    let (mut link, _) = agent();
    open(&mut link);
    link.on_input(LinkInput::Closed);
    assert!(link.on_input(release_all()).is_empty());
    assert!(link.on_input(LinkInput::DelayOver).contains(&LinkAction::Open));
}

#[test]
fn post_disconnect_backoff_stops_immediately_on_stop() {
    let (mut link, _) = agent();
    open(&mut link);
    link.on_input(LinkInput::Closed);
    assert!(link.on_input(stop()).is_empty());
    assert!(link.is_stopped());
    assert!(link.on_input(LinkInput::DelayOver).is_empty());
}

#[test]
fn messages_pass_only_while_the_connection_is_open() {
    let (mut link, _) = controller();
    assert!(link.on_input(LinkInput::Message(WireMessage::ReleaseAll)).is_empty());
    open(&mut link);
    assert_eq!(
        link.on_input(LinkInput::Message(WireMessage::ReleaseAll)),
        vec![LinkAction::Emit(ConnectionEvent::Message(WireMessage::ReleaseAll))]
    );
    assert_eq!(link.on_input(stop()), vec![LinkAction::Close]);
    assert!(link.on_input(LinkInput::Message(WireMessage::ReleaseAll)).is_empty());
}

#[test]
fn frames_are_numbered_and_bounded() {
    let mut writer = FrameWriter::new();
    let message = WireMessage::Heartbeat(Heartbeat { sent_millis: 9 });
    let frame = writer.next_frame(&message).unwrap();
    let len = u32::from_be_bytes([frame[0], frame[1], frame[2], frame[3]]);
    assert_eq!(incoming_frame_len(len), Ok(frame.len() - 4));
    let first = decode_frame(&frame[4..]).unwrap();
    let second = decode_frame(&writer.next_frame(&message).unwrap()[4..]).unwrap();
    assert_eq!(second.sequence, first.sequence + 1);
    assert_eq!(first.message, message);
    assert!(incoming_frame_len(64).is_ok());
    assert!(incoming_frame_len(u32::MAX).is_err());
}
