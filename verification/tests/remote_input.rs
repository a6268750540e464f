use borderless::bulk_events::{BulkTransferCommand, BulkTransferEvent};
use borderless::config::{AppConfig, RemotePosition, TransportMode};
use borderless::control::{ControlMode, ControlOutput, ControlState};
use borderless::controller::{
    controller_hook_route, controller_recovery_action_for_connection_event,
    finish_controller_file_drag_pointer_mode, return_local_pointer_target, ControllerHookRoute,
    ControllerPump, ControllerRecoveryAction,
};
use borderless::diagnostics::MouseDiagnostics;
use borderless::drag_events::DragDropEvent;
use borderless::file_transfer::{FileManifestEntry, FileTransferManifest};
use borderless::geometry::{Point, Rect};
use borderless::heartbeat::{handle_heartbeat_message, send_heartbeat, HeartbeatTracker};
use borderless::hooks::{HookEvent, SuppressionMode};
use borderless::input_event::{
    InputEvent, KeyEvent, MouseButton, MouseButtonEvent, MouseMoveDeltaEvent, MouseWheelEvent,
};
use borderless::pointer::{
    clear_pending_remote_pointer_position_after_raw_delta, consume_pending_pointer_park,
    mark_local_pointer_parked_for_remote_control, pending_remote_pointer_position_due,
    remote_pointer_position_action, should_repark_local_pointer_for_remote_control,
    PendingRemotePointerPosition, RemotePointerPositionAction,
};
use borderless::protocol::{DragTransfer, Heartbeat, Hello, WireMessage, PROTOCOL_VERSION};
use borderless::send_buffer::{
    emit_remote_send_actions, RemoteInputSendBuffer, RemoteSendAction,
};
use borderless::session::{Channels, PointerMove, PumpAction, SessionCommand, SessionUpdate};
use borderless::stale_pointer::{apply_stale_pointer_packet_update, StalePointerPacketGate};
use borderless::status::AppStatus;
use borderless::transport::{ConnectionCommand, ConnectionEvent};

#[test]
fn stale_pointer_log_gate_logs_count_changes_at_most_once_per_second() {
    let mut gate = StalePointerPacketGate::default();

    assert_eq!(
        gate.maybe_emit(1, 1_000).map(|emission| emission.log_message()),
        Some("KCP UDP stale pointer packets: 1".to_string())
    );
    assert_eq!(gate.maybe_emit(2, 1_500), None);
    assert_eq!(gate.maybe_emit(2, 1_999), None);
    assert_eq!(
        gate.maybe_emit(2, 2_000).map(|emission| emission.log_message()),
        Some("KCP UDP stale pointer packets: 2".to_string())
    );
    assert_eq!(gate.maybe_emit(3, 2_500), None);
    assert_eq!(
        gate.maybe_emit(3, 3_000).map(|emission| emission.log_message()),
        Some("KCP UDP stale pointer packets: 3".to_string())
    );
    assert_eq!(gate.maybe_emit(3, 4_000), None);
}

#[test]
fn stale_pointer_packet_updates_emit_latest_count_at_cadence() {
    let mut status = AppStatus::default();
    let mut gate = StalePointerPacketGate::default();

    let samples = [(1, 1_000), (2, 1_010), (3, 1_500), (4, 1_999), (5, 2_000)];
    let emissions = samples
        .into_iter()
        .filter_map(|(count, now)| {
            apply_stale_pointer_packet_update(&mut status, &mut gate, count, now)
                .map(|emission| emission.count)
        })
        .collect::<Vec<_>>();

    assert_eq!(emissions, vec![1, 5]);
    assert_eq!(status.stale_pointer_packets, 5);
}

#[test]
fn remote_input_send_buffer_coalesces_tcp_moves_and_preserves_reliable_order() {
    let mut buffer = RemoteInputSendBuffer::new(TransportMode::Tcp);
    let key_down = InputEvent::Key(KeyEvent { vk_code: 0x41, pressed: true });
    let left_down = InputEvent::MouseButton(MouseButtonEvent {
        button: MouseButton::Left,
        pressed: true,
    });
    let wheel = InputEvent::MouseWheel(MouseWheelEvent { delta: 120, horizontal: false });
    let mut actions = Vec::new();

    actions.extend(buffer.send_pointer(Point::new(10, 10), 1_000));
    actions.extend(buffer.send_pointer(Point::new(20, 20), 1_001));
    actions.extend(buffer.send_reliable_input(key_down.clone()));
    actions.extend(buffer.send_pointer(Point::new(30, 30), 1_002));
    actions.extend(buffer.send_pointer(Point::new(40, 40), 1_003));
    actions.extend(buffer.send_reliable_input(left_down.clone()));
    actions.extend(buffer.send_reliable_input(wheel.clone()));
    actions.extend(buffer.send_release_all());
    actions.extend(buffer.flush_pending_move());

    assert_eq!(
        actions,
        vec![
            RemoteSendAction::Command(ConnectionCommand::SendLatestPointer { x: 20, y: 20 }),
            RemoteSendAction::Command(ConnectionCommand::SendReliable(WireMessage::Input(
                key_down
            ))),
            RemoteSendAction::Command(ConnectionCommand::SendLatestPointer { x: 40, y: 40 }),
            RemoteSendAction::Command(ConnectionCommand::SendReliable(WireMessage::Input(
                left_down
            ))),
            RemoteSendAction::Command(ConnectionCommand::SendReliable(WireMessage::Input(wheel))),
            RemoteSendAction::Command(ConnectionCommand::SendReliable(WireMessage::ReleaseAll)),
        ]
    );
}

#[test]
fn remote_input_send_buffer_keeps_kcp_pointer_moves_on_latest_pointer_path() {
    let mut buffer = RemoteInputSendBuffer::new(TransportMode::Kcp);
    let mut actions = Vec::new();

    actions.extend(buffer.send_pointer(Point::new(10, 10), 1_000));
    actions.extend(buffer.send_pointer(Point::new(20, 20), 1_001));

    assert_eq!(
        actions,
        vec![
            RemoteSendAction::Command(ConnectionCommand::SendLatestPointer { x: 10, y: 10 }),
            RemoteSendAction::Command(ConnectionCommand::SendLatestPointer { x: 20, y: 20 }),
        ]
    );
}

#[test]
fn remote_input_send_buffer_logs_tcp_move_coalescing_once_per_second() {
    let mut buffer = RemoteInputSendBuffer::new(TransportMode::Tcp);
    let mut log_actions = Vec::new();

    for i in 0..=102 {
        log_actions.extend(
            buffer
                .send_pointer(Point::new(i, i), 1_000)
                .into_iter()
                .filter(|action| matches!(action, RemoteSendAction::Log(_))),
        );
    }
    log_actions.extend(
        buffer
            .send_pointer(Point::new(200, 200), 1_500)
            .into_iter()
            .filter(|action| matches!(action, RemoteSendAction::Log(_))),
    );

    assert_eq!(
        log_actions,
        vec![RemoteSendAction::Log(
            "coalesced remote mouse moves: 101 in the last second".to_string()
        )]
    );

    for i in 0..=101 {
        log_actions.extend(
            buffer
                .send_pointer(Point::new(300 + i, 300 + i), 2_100)
                .into_iter()
                .filter(|action| matches!(action, RemoteSendAction::Log(_))),
        );
    }

    assert_eq!(
        log_actions,
        vec![
            RemoteSendAction::Log(
                "coalesced remote mouse moves: 101 in the last second".to_string()
            ),
            RemoteSendAction::Log(
                "coalesced remote mouse moves: 101 in the last second".to_string()
            ),
        ]
    );
}

#[test]
fn send_actions_become_pump_actions_in_order() {
    let mut out = vec![PumpAction::CloseInjector];
    emit_remote_send_actions(
        vec![
            RemoteSendAction::Log("merged".to_string()),
            RemoteSendAction::Command(ConnectionCommand::Stop),
        ],
        &mut out,
    );
    assert_eq!(
        out,
        vec![
            PumpAction::CloseInjector,
            PumpAction::Update(SessionUpdate::Log("merged".to_string())),
            PumpAction::Connection(ConnectionCommand::Stop),
        ]
    );
}

fn remote_control_state() -> ControlState {
    let mut state = ControlState::new(
        Rect::new(0, 0, 1920, 1080),
        Rect::new(0, 0, 1280, 720),
        RemotePosition::Right,
        2,
    );
    assert!(matches!(
        state.observe_local_pointer(Point::new(1919, 540)),
        ControlOutput::EnterRemote(_)
    ));
    assert_eq!(state.mode(), ControlMode::Remote);
    state
}

#[test]
fn controller_terminal_connection_events_recover_from_remote_mode() {
    for event in [
        ConnectionEvent::Disconnected("agent".to_string()),
        ConnectionEvent::Error("network down".to_string()),
        ConnectionEvent::Message(WireMessage::Error("peer error".to_string())),
    ] {
        let mut control_state = Some(remote_control_state());

        let action = controller_recovery_action_for_connection_event(&event, &mut control_state);

        assert_eq!(
            action,
            ControllerRecoveryAction { pass_through: true, release_all: true }
        );
        assert!(control_state.is_none());
    }
}

#[test]
fn return_local_control_output_preserves_pointer_target() {
    let point = Point::new(1917, 540);

    assert_eq!(
        return_local_pointer_target(&ControlOutput::ReturnLocal(point)),
        Some(point)
    );
    assert_eq!(return_local_pointer_target(&ControlOutput::MoveRemote(point)), None);
}

#[test]
fn remote_control_parks_local_pointer_away_from_edge_for_delta_tracking() {
    let local_desktop = Rect::new(0, 0, 1920, 1080);
    let mut last_pointer = Some(Point::new(1919, 540));

    let anchor = mark_local_pointer_parked_for_remote_control(local_desktop, &mut last_pointer);

    assert_eq!(anchor, Point::new(960, 540));
    assert_eq!(last_pointer, Some(anchor));
}

#[test]
fn parked_pointer_position_is_consumed_before_delta_calculation() {
    let anchor = Point::new(960, 540);
    let mut last_pointer = Some(Point::new(900, 540));
    let mut pending_park = Some(anchor);

    assert!(consume_pending_pointer_park(
        Point::new(961, 540),
        &mut last_pointer,
        &mut pending_park
    ));
    assert_eq!(last_pointer, Some(anchor));
    assert_eq!(pending_park, None);
}

#[test]
fn parked_pointer_position_consumes_small_sendinput_landing_error() {
    let anchor = Point::new(960, 540);
    let mut last_pointer = Some(Point::new(900, 540));
    let mut pending_park = Some(anchor);

    assert!(consume_pending_pointer_park(
        Point::new(982, 536),
        &mut last_pointer,
        &mut pending_park
    ));
    assert_eq!(last_pointer, Some(anchor));
    assert_eq!(pending_park, None);
}

#[test]
fn remote_move_reparks_only_near_local_desktop_edge() {
    let local_desktop = Rect::new(0, 0, 1920, 1080);

    assert!(!should_repark_local_pointer_for_remote_control(
        Point::new(960, 540),
        local_desktop
    ));
    assert!(should_repark_local_pointer_for_remote_control(
        Point::new(1910, 540),
        local_desktop
    ));
}

#[test]
fn remote_pointer_position_falls_back_to_signed_delta_without_recent_raw_input() {
    let local_desktop = Rect::new(0, 0, 1920, 1080);
    let mut last_pointer = Some(Point::new(960, 540));

    let action = remote_pointer_position_action(
        Point::new(940, 545),
        local_desktop,
        &mut last_pointer,
        false,
    );

    assert_eq!(
        action,
        RemotePointerPositionAction::Delta { dx: -20, dy: 5, repark_after_move: false }
    );
    assert_eq!(last_pointer, Some(Point::new(940, 545)));
}

#[test]
fn remote_pointer_position_does_not_double_apply_when_raw_input_is_recent() {
    let local_desktop = Rect::new(0, 0, 1920, 1080);
    let mut last_pointer = Some(Point::new(960, 540));

    let action = remote_pointer_position_action(
        Point::new(940, 545),
        local_desktop,
        &mut last_pointer,
        true,
    );

    assert_eq!(action, RemotePointerPositionAction::TrackOnly { repark_after_move: false });
    assert_eq!(last_pointer, Some(Point::new(940, 545)));
}

#[test]
fn raw_delta_after_pending_absolute_clears_fallback_and_tracks_pointer() {
    let mut pending = Some(PendingRemotePointerPosition {
        point: Point::new(940, 545),
        observed_millis: 100,
    });
    let mut last_pointer = Some(Point::new(960, 540));

    assert!(clear_pending_remote_pointer_position_after_raw_delta(
        &mut pending,
        &mut last_pointer
    ));

    assert_eq!(pending, None);
    assert_eq!(last_pointer, Some(Point::new(940, 545)));
}

#[test]
fn pending_remote_pointer_position_waits_for_raw_fallback_delay() {
    let pending = PendingRemotePointerPosition {
        point: Point::new(940, 545),
        observed_millis: 100,
    };

    assert!(!pending_remote_pointer_position_due(pending, 103));
    assert!(pending_remote_pointer_position_due(pending, 104));
}

#[test]
fn mouse_diagnostics_summary_records_cross_screen_event_counts() {
    let mut diagnostics = MouseDiagnostics::default();

    diagnostics.record_hook_position(Point::new(1919, 540), false);
    diagnostics.record_hook_position(Point::new(960, 540), true);
    diagnostics.record_raw_delta(-7, 3, 100);
    diagnostics.record_remote_move(Point::new(1200, 360));
    diagnostics.record_pointer_park_attempt();
    diagnostics.record_pointer_park_consumed();
    diagnostics.record_pointer_park_missed();
    diagnostics.record_return_local();

    assert!(diagnostics.raw_delta_recent(130));
    assert!(!diagnostics.raw_delta_recent(151));
    assert_eq!(
        diagnostics.summary(),
        "hook local=1, hook remote=1, raw=1, sent=1, parks=1/1/1, returns=1, last delta=-7,3, local=960,540, remote=1200,360"
    );
}

#[test]
fn return_local_pointer_warp_is_consumed_before_edge_detection() {
    let return_point = Point::new(1917, 540);
    let mut last_pointer = Some(return_point);
    let mut pending_warp = Some(return_point);

    assert!(consume_pending_pointer_park(
        Point::new(1919, 540),
        &mut last_pointer,
        &mut pending_warp
    ));
    assert_eq!(last_pointer, Some(return_point));
    assert_eq!(pending_warp, None);
}

#[test]
fn heartbeat_tracker_reports_only_returned_local_heartbeats() {
    let mut tracker = HeartbeatTracker::default();
    tracker.sent(1000);

    assert_eq!(tracker.receive(500, 2000), None);
    assert_eq!(tracker.receive(1000, 1125), Some(125));
    assert_eq!(tracker.receive(1000, 1200), None);
}

#[test]
fn foreign_heartbeats_are_echoed_and_own_ones_measured() {
    let mut tracker = HeartbeatTracker::default();
    assert_eq!(
        send_heartbeat(&mut tracker, 100),
        PumpAction::Connection(ConnectionCommand::SendReliable(WireMessage::Heartbeat(
            Heartbeat { sent_millis: 100 }
        )))
    );
    assert_eq!(
        handle_heartbeat_message(Heartbeat { sent_millis: 7 }, &mut tracker, 130),
        vec![PumpAction::Connection(ConnectionCommand::SendReliable(
            WireMessage::Heartbeat(Heartbeat { sent_millis: 7 })
        ))]
    );
    assert_eq!(
        handle_heartbeat_message(Heartbeat { sent_millis: 100 }, &mut tracker, 130),
        vec![PumpAction::Update(SessionUpdate::Rtt(30))]
    );
}

#[test]
fn controller_hook_route_defers_standard_edge_handoff_during_file_drag() {
    let local_desktop = Rect::new(0, 0, 1920, 1080);
    let pointer = HookEvent::PointerPosition { x: 1919, y: 540 };
    let center_pointer = HookEvent::PointerPosition { x: 960, y: 540 };
    let raw_delta = HookEvent::Input(InputEvent::MouseMoveDelta(MouseMoveDeltaEvent {
        dx: 12,
        dy: 0,
    }));

    assert_eq!(
        controller_hook_route(
            &pointer,
            true,
            true,
            true,
            local_desktop,
            2,
            RemotePosition::Right
        ),
        ControllerHookRoute::FileDrag
    );
    assert_eq!(
        controller_hook_route(
            &raw_delta,
            true,
            true,
            true,
            local_desktop,
            2,
            RemotePosition::Right
        ),
        ControllerHookRoute::FileDrag
    );
    assert_eq!(
        controller_hook_route(
            &pointer,
            false,
            true,
            true,
            local_desktop,
            2,
            RemotePosition::Right
        ),
        ControllerHookRoute::Ignore
    );
    assert_eq!(
        controller_hook_route(
            &center_pointer,
            false,
            true,
            true,
            local_desktop,
            2,
            RemotePosition::Right
        ),
        ControllerHookRoute::Standard
    );
    assert_eq!(
        controller_hook_route(
            &pointer,
            false,
            false,
            true,
            local_desktop,
            2,
            RemotePosition::Right
        ),
        ControllerHookRoute::Standard
    );
}

#[test]
fn finish_controller_file_drag_pointer_mode_leaves_local_control() {
    let mut control_state = Some(ControlState::new(
        Rect::new(0, 0, 1920, 1080),
        Rect::new(0, 0, 1280, 720),
        RemotePosition::Right,
        2,
    ));
    control_state
        .as_mut()
        .unwrap()
        .observe_local_pointer(Point::new(1919, 540));
    let mut remote_control_active = true;
    let mut pending_remote_pointer_position = Some(PendingRemotePointerPosition {
        point: Point::new(1918, 540),
        observed_millis: 99,
    });

    finish_controller_file_drag_pointer_mode(
        &mut control_state,
        &mut remote_control_active,
        &mut pending_remote_pointer_position,
    );

    assert_eq!(control_state.as_ref().unwrap().mode(), ControlMode::Local);
    assert!(!remote_control_active);
    assert_eq!(pending_remote_pointer_position, None);
}

#[test]
fn a_parked_pointer_moves_the_remote_pointer() {
    let local_desktop = Rect::new(0, 0, 1920, 1080);
    let remote_desktop = Rect::new(0, 0, 1280, 720);
    let mut state = ControlState::new(local_desktop, remote_desktop, RemotePosition::Right, 2);
    assert!(matches!(
        state.observe_local_pointer(Point::new(1919, 540)),
        ControlOutput::EnterRemote(_)
    ));
    let mut last_pointer = Some(Point::new(1919, 540));
    let anchor = mark_local_pointer_parked_for_remote_control(local_desktop, &mut last_pointer);
    let next_local = Point::new(anchor.x + 20, anchor.y);
    let previous = last_pointer.replace(next_local).unwrap();

    let output = state.apply_remote_delta(
        next_local.x.saturating_sub(previous.x),
        next_local.y.saturating_sub(previous.y),
    );

    assert_eq!(output, ControlOutput::MoveRemote(Point::new(20, 360)));
    assert_eq!(state.mode(), ControlMode::Remote);
}

#[test]
fn a_file_drag_at_the_edge_enters_remote_without_parking() {
    let mut pump = connected_pump();
    pump.remote_input_send_buffer = RemoteInputSendBuffer::new(TransportMode::Kcp);
    let event = HookEvent::PointerPosition { x: 1919, y: 540 };
    assert!(pump.can_handle_hook(&event));
    let mut out = Vec::new();

    pump.handle_controller_file_drag_hook_event(event, 7, &mut out);

    assert_eq!(pump.pending_pointer_park, None);
    assert!(pump.remote_control_active);
    assert_eq!(
        out.iter().find(|action| matches!(action, PumpAction::Connection(_))),
        Some(&PumpAction::Connection(ConnectionCommand::SendLatestPointer { x: 0, y: 360 }))
    );
}

#[test]
fn what_waits_is_sent_at_the_end_of_a_round() {
    let mut pump = connected_pump();
    pump.remote_input_send_buffer.pending_tcp_move = Some(Point::new(7, 8));
    let mut out = Vec::new();
    pump.flush_hook_round(30, &mut out);
    assert_eq!(
        out.first(),
        Some(&PumpAction::Connection(ConnectionCommand::SendLatestPointer { x: 7, y: 8 }))
    );
    assert_eq!(pump.remote_input_send_buffer.pending_tcp_move, None);
}

fn pump() -> ControllerPump {
    ControllerPump::new(AppConfig::default(), Rect::new(0, 0, 1920, 1080), false)
}

fn connected_pump() -> ControllerPump {
    let mut pump = pump();
    let mut out = Vec::new();
    pump.on_connection_event(
        &ConnectionEvent::Message(WireMessage::Hello(Hello {
            protocol_version: PROTOCOL_VERSION,
            desktop: Rect::new(0, 0, 1280, 720),
        })),
        0,
        &mut out,
    );
    assert!(pump.control_state.is_some());
    pump
}

fn remote_pump() -> ControllerPump {
    let mut pump = connected_pump();
    let mut out = Vec::new();
    let event = HookEvent::PointerPosition { x: 1919, y: 540 };
    assert!(pump.can_handle_hook(&event));
    pump.on_hook_event(event, 10, &mut out);
    assert!(out.contains(&PumpAction::RemoteActive(true)));
    assert!(out.contains(&PumpAction::Suppression(SuppressionMode::Suppress)));
    pump
}

/// Replays actions and tells whether the remote desktop was published as active when
/// the release was sent, and afterwards.
fn active_at_release(actions: &[PumpAction]) -> (Option<bool>, bool) {
    let mut active = true;
    let mut observed = None;
    for action in actions {
        match action {
            PumpAction::RemoteActive(next) => active = *next,
            PumpAction::Connection(ConnectionCommand::SendReliable(WireMessage::ReleaseAll)) => {
                observed = Some(active)
            }
            _ => {}
        }
    }
    (observed, active)
}

#[test]
fn return_local_release_all_keeps_remote_active_until_actions_are_emitted() {
    let mut pump = pump();
    pump.remote_control_active = true;
    let mut out = Vec::new();

    pump.emit_return_local_release_all(&mut out);

    assert_eq!(active_at_release(&out), (Some(true), false));
    assert_eq!(
        out.iter()
            .filter(|action| matches!(action, PumpAction::Connection(_)))
            .count(),
        1
    );
    assert!(!pump.remote_control_active);
}

#[test]
fn recovery_release_all_keeps_remote_active_until_release_is_enqueued() {
    let mut pump = pump();
    pump.remote_control_active = true;
    let mut out = Vec::new();

    pump.emit_recovery_release_all(&mut out);

    assert_eq!(active_at_release(&out), (Some(true), false));
    assert!(!pump.remote_control_active);
}

#[test]
fn crossing_the_edge_hands_input_to_the_other_computer() {
    let mut pump = remote_pump();
    let mut out = Vec::new();
    let key = HookEvent::Input(InputEvent::Key(KeyEvent { vk_code: 0x41, pressed: true }));
    assert!(pump.can_handle_hook(&key));
    pump.on_hook_event(key, 20, &mut out);
    assert!(out.contains(&PumpAction::Connection(ConnectionCommand::SendReliable(
        WireMessage::Input(InputEvent::Key(KeyEvent { vk_code: 0x41, pressed: true }))
    ))));
}

#[test]
fn local_input_is_not_sent_while_this_computer_has_control() {
    let mut pump = connected_pump();
    let mut out = Vec::new();
    let key = HookEvent::Input(InputEvent::Key(KeyEvent { vk_code: 0x41, pressed: true }));
    pump.on_hook_event(key, 20, &mut out);
    assert!(!out.iter().any(|action| matches!(action, PumpAction::Connection(_))));
}

#[test]
fn a_lost_connection_returns_control() {
    let mut pump = remote_pump();
    let mut out = Vec::new();
    pump.on_connection_event(&ConnectionEvent::Disconnected("agent".to_string()), 30, &mut out);
    assert!(pump.control_state.is_none());
    assert!(!pump.remote_control_active);
    assert!(out.contains(&PumpAction::Suppression(SuppressionMode::PassThrough)));
    assert!(!pump.clipboard_transport_ready);
}

#[test]
fn stopping_in_remote_mode_releases_held_input() {
    let mut pump = remote_pump();
    let mut out = Vec::new();
    assert!(!pump.on_command(SessionCommand::Stop, &mut out));
    assert!(out.contains(&PumpAction::Suppression(SuppressionMode::PassThrough)));
    assert!(out.contains(&PumpAction::Connection(ConnectionCommand::SendReliable(
        WireMessage::ReleaseAll
    ))));
    assert!(!pump.remote_control_active);
}

#[test]
fn the_controller_asks_for_the_round_trip() {
    let mut pump = connected_pump();
    let mut out = Vec::new();
    pump.on_heartbeat(40, &mut out);
    assert!(matches!(
        out.as_slice(),
        [PumpAction::Connection(ConnectionCommand::SendReliable(WireMessage::Heartbeat(_)))]
    ));
}

#[test]
fn a_pointer_that_cannot_be_moved_is_reported() {
    let mut pump = remote_pump();
    let mut out = Vec::new();
    pump.pointer_move_failed(PointerMove::Park, "denied", &mut out);
    pump.pointer_move_failed(PointerMove::Return, "denied", &mut out);
    assert_eq!(pump.pending_pointer_park, None);
    assert_eq!(
        out,
        vec![
            PumpAction::Update(SessionUpdate::Error(
                "local pointer park failed: denied".to_string()
            )),
            PumpAction::Update(SessionUpdate::Error(
                "local pointer move failed: denied".to_string()
            )),
        ]
    );
}

#[test]
fn a_merged_position_is_sent_at_the_end_of_a_round() {
    let mut pump = remote_pump();
    let mut out = Vec::new();
    pump.handle_control_output(
        ControlOutput::MoveRemote(Point::new(30, 40)),
        false,
        100,
        &mut out,
    );
    assert!(pump.can_process_pending());
    pump.end_hook_round(100, &mut out);
    assert_eq!(pump.remote_input_send_buffer.pending_tcp_move, None);
    assert!(out.contains(&PumpAction::Connection(
        ConnectionCommand::SendLatestPointer { x: 30, y: 40 }
    )));
}

#[test]
fn files_of_a_local_drag_are_sent_once_it_is_released() {
    let mut pump = connected_pump();
    let channels = Channels { connection_open: true, bulk_available: true, bulk_open: true };
    let paths = vec!["C:/a.txt".to_string()];
    let manifest = FileTransferManifest {
        transfer_id: 2,
        root_name: "a.txt".to_string(),
        files: vec![FileManifestEntry::file("a.txt", 3)],
        total_bytes: 3,
    };
    let mut out = Vec::new();
    pump.on_drag_event(
        DragDropEvent::LocalFileDragEntered {
            session_id: 1,
            transfer_id: 2,
            paths: paths.clone(),
        },
        channels,
        &mut out,
    );
    assert!(pump.drag_drop_runtime.has_active());
    let drag = DragTransfer { session_id: 1, transfer_id: 2 };
    pump.on_drag_files(drag, paths.clone(), Ok(manifest.clone()), channels, &mut out);
    assert!(!out.iter().any(|action| matches!(action, PumpAction::BulkLast(_))));

    let mut out = Vec::new();
    pump.on_drag_event(DragDropEvent::LocalDropCommitted { session_id: 1 }, channels, &mut out);
    assert!(!pump.drag_drop_runtime.has_active());
    assert!(out.contains(&PumpAction::CollectDragFiles { drag, paths: paths.clone() }));
    assert!(!out.iter().any(|action| matches!(action, PumpAction::BulkLast(_))));

    let mut out = Vec::new();
    pump.on_drag_files(drag, paths.clone(), Ok(manifest.clone()), channels, &mut out);
    assert!(out.contains(&PumpAction::BulkLast(BulkTransferCommand::SendFiles {
        manifest,
        source_paths: paths,
    })));
    pump.on_bulk_event(&BulkTransferEvent::Sent { transfer_id: 2 });
    assert_eq!(pump.drag_drop_runtime.cancel_session(1), None);
}
