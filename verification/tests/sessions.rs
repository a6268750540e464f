use borderless::agent::{
    agent_clipboard_transport_ready_after_event, input_injected, input_released, AgentPump,
};
use borderless::agent_drag::{
    agent_drag_drop_action_for_bulk_transfer_event, AgentDragDropBulkAction, AgentDragDropRuntime,
};
use borderless::bulk_events::{BulkTransferCommand, BulkTransferEvent};
use borderless::config::{AppConfig, RemotePosition, Role, TransportMode};
use borderless::control::ControlState;
use borderless::controller::controller_clipboard_transport_ready_after_event;
use borderless::controller_drag::{
    cancel_all_controller_drag_drop_sessions, cancel_controller_drag_drop_session,
    handle_controller_bulk_transfer_event, handle_controller_drag_drop_event,
    handle_controller_drag_files, ControllerDragDropRuntime,
};
use borderless::drag_events::{DragDropEvent, DropAnswer, EdgeDrag};
use borderless::file_transfer::{FileManifestEntry, FileTransferManifest};
use borderless::geometry::{Edge, Rect};
use borderless::protocol::{DragTransfer, Hello, WireMessage, PROTOCOL_VERSION};
use borderless::runtime::{
    bulk_client_host, bulk_server_host, ActiveRuntime, LoopAction, RuntimeCommand, RuntimeLoop,
    StopStep, StopTaskOutcome, TaggedSessionUpdate,
};
use borderless::session::{Channels, PumpAction, RuntimeEvent, SessionUpdate};
use borderless::session_plan::{start_session, task_exited, SessionTask};
use borderless::status::{AppStatus, RunState};
use borderless::status_updates::{
    apply_connection_event_to_status, connection_event_updates_status,
};
use borderless::transport::{
    agent_transport_settings, controller_transport_settings, ConnectionCommand, ConnectionEvent,
};

fn drag(session_id: u128, transfer_id: u128) -> DragTransfer {
    DragTransfer { session_id, transfer_id }
}

fn open_channels() -> Channels {
    Channels { connection_open: true, bulk_available: true, bulk_open: true }
}

fn connection_commands(actions: &[PumpAction]) -> Vec<&ConnectionCommand> {
    actions
        .iter()
        .filter_map(|action| match action {
            PumpAction::Connection(command) => Some(command),
            _ => None,
        })
        .collect()
}

fn bulk_commands(actions: &[PumpAction]) -> Vec<&BulkTransferCommand> {
    actions
        .iter()
        .filter_map(|action| match action {
            PumpAction::BulkAll(command) | PumpAction::BulkLast(command) => Some(command),
            _ => None,
        })
        .collect()
}

fn updates(actions: &[PumpAction]) -> Vec<&SessionUpdate> {
    actions
        .iter()
        .filter_map(|action| match action {
            PumpAction::Update(update) => Some(update),
            _ => None,
        })
        .collect()
}

#[test]
fn controller_transport_settings_map_controller_config() {
    let mut config = AppConfig::default();
    config.role = Role::Controller;
    config.controller.agent_host = "agent.local".to_string();
    config.controller.agent_port = 34567;
    config.controller.transport_mode = TransportMode::Kcp;
    config.controller.pointer_port = 34568;

    let settings = controller_transport_settings(&config);

    assert_eq!(settings.mode, TransportMode::Kcp);
    assert_eq!(settings.host, "agent.local");
    assert_eq!(settings.reliable_port, 34567);
    assert_eq!(settings.pointer_port, 34568);
}

#[test]
fn agent_transport_settings_map_agent_config() {
    let mut config = AppConfig::default();
    config.role = Role::Agent;
    config.agent.listen_host = "127.0.0.1".to_string();
    config.agent.listen_port = 45678;
    config.agent.transport_mode = TransportMode::Kcp;
    config.agent.pointer_port = 45679;

    let settings = agent_transport_settings(&config);

    assert_eq!(settings.mode, TransportMode::Kcp);
    assert_eq!(settings.host, "127.0.0.1");
    assert_eq!(settings.reliable_port, 45678);
    assert_eq!(settings.pointer_port, 45679);
}

#[test]
fn connection_events_update_status_state_sequence_and_error() {
    let mut status = AppStatus::default();

    apply_connection_event_to_status(
        &mut status,
        &ConnectionEvent::Connected {
            peer: "127.0.0.1:24800".to_string(),
            mode: TransportMode::Kcp,
        },
    );
    assert_eq!(status.run_state, RunState::Connected);
    assert_eq!(status.transport_mode, Some(TransportMode::Kcp));

    apply_connection_event_to_status(
        &mut status,
        &ConnectionEvent::LatestPointer { x: 10, y: 20, sequence: 99 },
    );
    assert_eq!(status.latest_pointer_sequence, Some(99));
    apply_connection_event_to_status(
        &mut status,
        &ConnectionEvent::StalePointerPackets { count: 4 },
    );
    assert_eq!(status.stale_pointer_packets, 4);
    assert!(!connection_event_updates_status(
        &ConnectionEvent::StalePointerPackets { count: 4 }
    ));

    apply_connection_event_to_status(&mut status, &ConnectionEvent::Error("boom".to_string()));
    assert_eq!(status.run_state, RunState::Error);
    assert_eq!(status.last_error.as_deref(), Some("boom"));

    apply_connection_event_to_status(
        &mut status,
        &ConnectionEvent::Message(WireMessage::ReleaseAll),
    );
    assert_eq!(status.run_state, RunState::Error);
}

#[test]
fn agent_drag_drop_runtime_matches_completed_transfer() {
    let session_id = 1;
    let transfer_id = 2;
    let mut runtime = AgentDragDropRuntime::default();
    assert_eq!(runtime.remember_start(drag(session_id, transfer_id)), None);

    let action = agent_drag_drop_action_for_bulk_transfer_event(
        BulkTransferEvent::Completed {
            transfer_id,
            cache_paths: vec!["C:/cache/a.txt".to_string()],
        },
        &mut runtime,
    );

    assert_eq!(
        action,
        Some(AgentDragDropBulkAction::StartRemoteDrag {
            session_id,
            cache_paths: vec!["C:/cache/a.txt".to_string()],
        })
    );
    assert!(agent_drag_drop_action_for_bulk_transfer_event(
        BulkTransferEvent::Completed {
            transfer_id,
            cache_paths: vec!["C:/cache/a.txt".to_string()],
        },
        &mut runtime,
    )
    .is_none());
}

#[test]
fn agent_drag_drop_runtime_cancel_removes_pending_session() {
    let session_id = 3;
    let transfer_id = 4;
    let mut runtime = AgentDragDropRuntime::default();
    assert_eq!(runtime.remember_start(drag(session_id, transfer_id)), None);

    assert_eq!(runtime.cancel_session(session_id), Some(transfer_id));

    assert!(agent_drag_drop_action_for_bulk_transfer_event(
        BulkTransferEvent::Completed {
            transfer_id,
            cache_paths: vec!["C:/cache/a.txt".to_string()],
        },
        &mut runtime,
    )
    .is_none());
}

#[test]
fn agent_drag_drop_failed_transfer_reports_session_error() {
    let session_id = 5;
    let transfer_id = 6;
    let mut runtime = AgentDragDropRuntime::default();
    assert_eq!(runtime.remember_start(drag(session_id, transfer_id)), None);

    let action = agent_drag_drop_action_for_bulk_transfer_event(
        BulkTransferEvent::Failed { transfer_id, error: "checksum mismatch".to_string() },
        &mut runtime,
    );

    assert_eq!(
        action,
        Some(AgentDragDropBulkAction::Failed {
            session_id,
            message: "checksum mismatch".to_string(),
        })
    );
}

#[test]
fn agent_drag_drop_runtime_starts_when_completion_arrives_before_start() {
    let session_id = 21;
    let transfer_id = 22;
    let mut runtime = AgentDragDropRuntime::default();

    let action = agent_drag_drop_action_for_bulk_transfer_event(
        BulkTransferEvent::Completed {
            transfer_id,
            cache_paths: vec!["C:/cache/docs".to_string()],
        },
        &mut runtime,
    );

    assert_eq!(action, None);
    assert_eq!(
        runtime.remember_start(drag(session_id, transfer_id)),
        Some(vec!["C:/cache/docs".to_string()])
    );
}

#[test]
fn controller_drag_drop_runtime_maps_session_to_transfer_for_cancel() {
    let session_id = 7;
    let transfer_id = 8;
    let mut runtime = ControllerDragDropRuntime::default();

    runtime.remember_start(drag(session_id, transfer_id));

    assert_eq!(runtime.cancel_session(session_id), Some(transfer_id));
    assert_eq!(runtime.cancel_session(session_id), None);
}

#[test]
fn controller_local_drag_cancel_notifies_peer_and_cancels_bulk_transfer() {
    let session_id = 9;
    let transfer_id = 10;
    let mut runtime = ControllerDragDropRuntime::default();
    runtime.remember_start(drag(session_id, transfer_id));
    let mut out = Vec::new();

    handle_controller_drag_drop_event(
        DragDropEvent::LocalDragCancelled { session_id },
        &mut runtime,
        open_channels(),
        &mut out,
    );

    assert_eq!(
        connection_commands(&out),
        vec![&ConnectionCommand::SendReliable(WireMessage::DragDropCancel {
            session_id,
            reason: String::new(),
        })]
    );
    assert!(matches!(
        bulk_commands(&out)[0],
        BulkTransferCommand::Cancel(id) if *id == transfer_id
    ));
    assert!(updates(&out).iter().any(|update| {
        matches!(
            update,
            SessionUpdate::DragDrop(DragDropEvent::LocalDragCancelled { session_id: id })
                if *id == session_id
        )
    }));
}

#[test]
fn controller_local_drop_commit_notifies_peer_without_cancelling_bulk_transfer() {
    let session_id = 45;
    let transfer_id = 46;
    let mut runtime = ControllerDragDropRuntime::default();
    runtime.remember_start(drag(session_id, transfer_id));
    let mut out = Vec::new();

    handle_controller_drag_drop_event(
        DragDropEvent::LocalDropCommitted { session_id },
        &mut runtime,
        open_channels(),
        &mut out,
    );

    assert_eq!(
        connection_commands(&out),
        vec![&ConnectionCommand::SendReliable(WireMessage::DragDropCommit { session_id })]
    );
    assert!(bulk_commands(&out).is_empty());
    assert!(!runtime.has_active());
    assert!(updates(&out).iter().any(|update| {
        matches!(
            update,
            SessionUpdate::DragDrop(DragDropEvent::LocalDropCommitted { session_id: id })
                if *id == session_id
        )
    }));
}

#[test]
fn agent_drag_drop_runtime_remembers_commit_before_remote_drag_starts() {
    let session_id = 47;
    let mut runtime = AgentDragDropRuntime::default();

    assert!(!runtime.remember_remote_drop_commit(session_id));
    assert!(runtime.take_remote_drop_commit(session_id));
    assert!(!runtime.take_remote_drop_commit(session_id));
}

#[test]
fn controller_unscoped_drag_error_clears_all_pending_drag_sessions() {
    let mut runtime = ControllerDragDropRuntime::default();
    let transfer_id = 61;
    runtime.remember_start(drag(60, transfer_id));
    let mut out = Vec::new();

    handle_controller_drag_drop_event(
        DragDropEvent::Error { session_id: None, message: "drag source lost".to_string() },
        &mut runtime,
        open_channels(),
        &mut out,
    );

    assert!(!runtime.has_active());
    assert!(connection_commands(&out).is_empty());
    assert_eq!(bulk_commands(&out), vec![&BulkTransferCommand::Cancel(transfer_id)]);
    assert!(updates(&out).iter().any(|update| {
        matches!(
            update,
            SessionUpdate::DragDrop(DragDropEvent::Error { session_id: None, .. })
        )
    }));
}

#[test]
fn controller_peer_drag_cancel_cancels_bulk_without_echo() {
    let session_id = 11;
    let transfer_id = 12;
    let mut runtime = ControllerDragDropRuntime::default();
    runtime.remember_start(drag(session_id, transfer_id));
    let mut out = Vec::new();

    cancel_controller_drag_drop_session(session_id, &mut runtime, false, &mut out);

    assert!(connection_commands(&out).is_empty());
    assert!(matches!(
        bulk_commands(&out)[0],
        BulkTransferCommand::Cancel(id) if *id == transfer_id
    ));
}

#[test]
fn controller_disconnect_cancels_all_pending_drag_transfers() {
    let mut runtime = ControllerDragDropRuntime::default();
    let first_transfer_id = 14;
    let second_transfer_id = 16;
    runtime.remember_start(drag(13, first_transfer_id));
    runtime.remember_start(drag(15, second_transfer_id));
    let mut out = Vec::new();

    cancel_all_controller_drag_drop_sessions(&mut runtime, &mut out);

    assert_eq!(
        bulk_commands(&out),
        vec![
            &BulkTransferCommand::Cancel(first_transfer_id),
            &BulkTransferCommand::Cancel(second_transfer_id),
        ]
    );
    assert!(runtime.cancel_all().is_empty());
}

fn dragged_manifest() -> FileTransferManifest {
    FileTransferManifest {
        transfer_id: 2,
        root_name: "a.txt".to_string(),
        files: vec![FileManifestEntry::file("a.txt", 3)],
        total_bytes: 3,
    }
}

fn held_drag(out: &mut Vec<PumpAction>) -> ControllerDragDropRuntime {
    let mut runtime = ControllerDragDropRuntime::default();
    handle_controller_drag_drop_event(
        DragDropEvent::LocalFileDragEntered {
            session_id: 1,
            transfer_id: 2,
            paths: vec!["C:/a.txt".to_string()],
        },
        &mut runtime,
        open_channels(),
        out,
    );
    runtime
}

fn collect(
    runtime: &mut ControllerDragDropRuntime,
    manifest: Result<FileTransferManifest, String>,
    limit: u64,
    channels: Channels,
) -> Vec<PumpAction> {
    let mut out = Vec::new();
    handle_controller_drag_files(
        drag(1, 2),
        vec!["C:/a.txt".to_string()],
        manifest,
        limit,
        runtime,
        channels,
        &mut out,
    );
    out
}

#[test]
fn no_files_are_sent_before_the_button_is_released() {
    let mut out = Vec::new();
    let mut runtime = held_drag(&mut out);
    assert!(runtime.has_active());
    assert_eq!(
        out,
        vec![PumpAction::Update(SessionUpdate::DragDrop(
            DragDropEvent::LocalFileDragEntered {
                session_id: 1,
                transfer_id: 2,
                paths: vec!["C:/a.txt".to_string()],
            }
        ))]
    );
    let out = collect(&mut runtime, Ok(dragged_manifest()), 10, open_channels());
    assert!(out.is_empty());
    assert!(runtime.has_active());
}

#[test]
fn released_files_are_announced_and_sent() {
    let mut out = Vec::new();
    let mut runtime = held_drag(&mut out);
    let mut out = Vec::new();
    handle_controller_drag_drop_event(
        DragDropEvent::LocalDropCommitted { session_id: 1 },
        &mut runtime,
        open_channels(),
        &mut out,
    );
    assert!(!runtime.has_active());
    assert_eq!(
        out,
        vec![
            PumpAction::Connection(ConnectionCommand::SendReliable(WireMessage::DragDropCommit {
                session_id: 1,
            })),
            PumpAction::Update(SessionUpdate::DragDrop(DragDropEvent::LocalDropCommitted {
                session_id: 1,
            })),
            PumpAction::CollectDragFiles {
                drag: drag(1, 2),
                paths: vec!["C:/a.txt".to_string()],
            },
        ]
    );

    let out = collect(&mut runtime, Ok(dragged_manifest()), 10, open_channels());
    assert_eq!(
        out,
        vec![
            PumpAction::Connection(ConnectionCommand::SendReliable(WireMessage::DragDropStart(
                drag(1, 2)
            ))),
            PumpAction::BulkLast(BulkTransferCommand::SendFiles {
                manifest: dragged_manifest(),
                source_paths: vec!["C:/a.txt".to_string()],
            }),
        ]
    );
    assert!(collect(&mut runtime, Ok(dragged_manifest()), 10, open_channels()).is_empty());

    let mut out = Vec::new();
    cancel_controller_drag_drop_session(1, &mut runtime, false, &mut out);
    assert_eq!(bulk_commands(&out), vec![&BulkTransferCommand::Cancel(2)]);
}

#[test]
fn a_finished_transfer_is_not_called_off() {
    let mut runtime = ControllerDragDropRuntime::default();
    runtime.remember_start(drag(1, 2));
    handle_controller_bulk_transfer_event(
        &BulkTransferEvent::Progress {
            transfer_id: 2,
            bytes_done: 1,
            bytes_total: 3,
            current_file: "a.txt".to_string(),
        },
        &mut runtime,
    );
    handle_controller_bulk_transfer_event(&BulkTransferEvent::Sent { transfer_id: 9 }, &mut runtime);
    assert_eq!(runtime.cancel_session(1), Some(2));
    runtime.remember_start(drag(1, 2));
    handle_controller_bulk_transfer_event(&BulkTransferEvent::Sent { transfer_id: 2 }, &mut runtime);
    assert_eq!(runtime.cancel_session(1), None);
}

#[test]
fn a_held_drag_is_called_off_without_a_transfer() {
    let mut out = Vec::new();
    let mut runtime = held_drag(&mut out);
    let mut out = Vec::new();
    cancel_all_controller_drag_drop_sessions(&mut runtime, &mut out);
    assert!(!runtime.has_active());
    assert_eq!(
        out,
        vec![PumpAction::Update(SessionUpdate::DragDrop(
            DragDropEvent::LocalDragCancelled { session_id: 1 }
        ))]
    );
}

#[test]
fn released_files_that_cannot_be_sent_are_reported() {
    let closed = Channels { connection_open: false, ..open_channels() };
    let no_bulk = Channels { bulk_open: false, ..open_channels() };
    let cases = [
        (
            Ok(dragged_manifest()),
            2,
            open_channels(),
            "file drag/drop ignored: files are 3 bytes, file transfer limit is 2",
        ),
        (Err("gone".to_string()), 10, open_channels(), "file drag/drop failed: gone"),
        (
            Ok(dragged_manifest()),
            10,
            closed,
            "file drag/drop failed: connection command channel closed",
        ),
        (
            Ok(dragged_manifest()),
            10,
            no_bulk,
            "file drag/drop failed: bulk transfer command channel closed",
        ),
    ];
    for (manifest, limit, channels, text) in cases {
        let mut out = Vec::new();
        let mut runtime = held_drag(&mut out);
        handle_controller_drag_drop_event(
            DragDropEvent::LocalDropCommitted { session_id: 1 },
            &mut runtime,
            open_channels(),
            &mut out,
        );
        let out = collect(&mut runtime, manifest, limit, channels);
        assert!(bulk_commands(&out).is_empty());
        assert_eq!(
            out.last(),
            Some(&PumpAction::Update(SessionUpdate::DragDrop(DragDropEvent::Error {
                session_id: Some(1),
                message: text.to_string(),
            })))
        );
    }
}

fn agent_pump() -> AgentPump {
    AgentPump::new(AppConfig::default(), Rect::new(0, 0, 1920, 1080))
}

#[test]
fn agent_peer_drag_cancel_cancels_pending_bulk_transfer() {
    let session_id = 17;
    let transfer_id = 18;
    let mut pump = agent_pump();
    assert_eq!(pump.drag_drop_runtime.remember_start(drag(session_id, transfer_id)), None);
    let mut out = Vec::new();

    pump.handle_agent_connection_event(
        &ConnectionEvent::Message(WireMessage::DragDropCancel {
            session_id,
            reason: String::new(),
        }),
        0,
        &mut out,
    );

    assert!(matches!(
        bulk_commands(&out)[0],
        BulkTransferCommand::Cancel(id) if *id == transfer_id
    ));
}

#[test]
fn agent_peer_drag_commit_does_not_cancel_pending_bulk_transfer() {
    let session_id = 48;
    let transfer_id = 49;
    let mut pump = agent_pump();
    assert_eq!(pump.drag_drop_runtime.remember_start(drag(session_id, transfer_id)), None);
    let mut out = Vec::new();

    pump.handle_agent_connection_event(
        &ConnectionEvent::Message(WireMessage::DragDropCommit { session_id }),
        0,
        &mut out,
    );

    assert!(bulk_commands(&out).is_empty());
    assert!(pump.drag_drop_runtime.take_remote_drop_commit(session_id));
    assert!(updates(&out).iter().any(|update| {
        matches!(
            update,
            SessionUpdate::DragDrop(DragDropEvent::LocalDropCommitted { session_id: id })
                if *id == session_id
        )
    }));
}

#[test]
fn controller_clipboard_transport_ready_waits_for_valid_hello_and_resets() {
    let config = AppConfig::default();
    let local_desktop = Rect::new(0, 0, 100, 100);
    let remote_desktop = Rect::new(100, 0, 100, 100);
    let valid_hello = ConnectionEvent::Message(WireMessage::Hello(Hello {
        protocol_version: PROTOCOL_VERSION,
        desktop: remote_desktop,
    }));
    let invalid_hello = ConnectionEvent::Message(WireMessage::Hello(Hello {
        protocol_version: PROTOCOL_VERSION + 1,
        desktop: remote_desktop,
    }));
    let control_state = Some(ControlState::new(
        local_desktop,
        remote_desktop,
        config.controller.remote_position,
        config.edge_trigger_px,
    ));

    assert!(!controller_clipboard_transport_ready_after_event(false, &valid_hello, &None));
    assert!(controller_clipboard_transport_ready_after_event(
        false,
        &valid_hello,
        &control_state,
    ));
    assert!(!controller_clipboard_transport_ready_after_event(
        true,
        &invalid_hello,
        &control_state,
    ));
    assert!(!controller_clipboard_transport_ready_after_event(
        true,
        &ConnectionEvent::Disconnected("agent".to_string()),
        &control_state,
    ));
}

#[test]
fn agent_clipboard_transport_ready_follows_connection_state() {
    assert!(agent_clipboard_transport_ready_after_event(
        false,
        &ConnectionEvent::Connected {
            peer: "controller".to_string(),
            mode: TransportMode::Tcp,
        },
    ));
    assert!(agent_clipboard_transport_ready_after_event(
        true,
        &ConnectionEvent::Message(WireMessage::ReleaseAll),
    ));
    assert!(!agent_clipboard_transport_ready_after_event(true, &ConnectionEvent::Waiting));
    assert!(!agent_clipboard_transport_ready_after_event(
        true,
        &ConnectionEvent::Error("closed".to_string()),
    ));
}

fn run_command(
    runtime: &mut RuntimeLoop,
    command: RuntimeCommand,
) -> (LoopAction, Vec<RuntimeEvent>) {
    let mut events = Vec::new();
    let action = runtime.on_command(command, &mut events);
    (action, events)
}

#[test]
fn runtime_emits_log_and_status_for_start_stop_and_reconnect() {
    let mut runtime = RuntimeLoop::new();
    let mut config = AppConfig::default();
    config.role = Role::Agent;

    let (_, events) = run_command(&mut runtime, RuntimeCommand::Start(config.clone()));
    assert!(events.iter().any(
        |event| matches!(event, RuntimeEvent::Log(message) if message == "starting runtime")
    ));
    assert!(events.iter().any(|event| {
        matches!(
            event,
            RuntimeEvent::Status(status) if status.run_state == RunState::Connecting
        )
    }));

    let (_, events) = run_command(&mut runtime, RuntimeCommand::Stop);
    assert!(events.iter().any(
        |event| matches!(event, RuntimeEvent::Log(message) if message == "runtime stopped")
    ));
    assert!(events.iter().any(|event| {
        matches!(
            event,
            RuntimeEvent::Status(status)
                if status.run_state == RunState::Stopped && status.transport_mode.is_none()
        )
    }));

    let (_, events) = run_command(&mut runtime, RuntimeCommand::Reconnect(config));
    assert!(events.iter().any(|event| {
        matches!(event, RuntimeEvent::Log(message) if message == "reconnecting runtime")
    }));
    assert!(events.iter().any(|event| {
        matches!(
            event,
            RuntimeEvent::Status(status) if status.run_state == RunState::Reconnecting
        )
    }));
}

#[test]
fn agent_start_and_reconnect_report_agent_transport_mode() {
    let mut runtime = RuntimeLoop::new();
    let mut config = AppConfig::default();
    config.role = Role::Agent;
    config.agent.transport_mode = TransportMode::Tcp;
    config.controller.transport_mode = TransportMode::Kcp;

    let (_, events) = run_command(&mut runtime, RuntimeCommand::Start(config.clone()));
    assert!(events.iter().any(|event| {
        matches!(
            event,
            RuntimeEvent::Status(status)
                if status.run_state == RunState::Connecting
                    && status.transport_mode == Some(TransportMode::Tcp)
        )
    }));

    let (_, events) = run_command(&mut runtime, RuntimeCommand::Reconnect(config));
    assert!(events.iter().any(|event| {
        matches!(
            event,
            RuntimeEvent::Status(status)
                if status.run_state == RunState::Reconnecting
                    && status.transport_mode == Some(TransportMode::Tcp)
        )
    }));
}

#[test]
fn every_session_gets_a_new_number_and_old_reports_are_ignored() {
    let mut runtime = RuntimeLoop::new();
    let (first, _) = run_command(&mut runtime, RuntimeCommand::Start(AppConfig::default()));
    let (second, _) = run_command(&mut runtime, RuntimeCommand::Reconnect(AppConfig::default()));
    let number = |action: &LoopAction| match action {
        LoopAction::StartSession { session_id, .. } => *session_id,
        other => panic!("expected a session, got {other:?}"),
    };
    assert_ne!(number(&first), number(&second));
    let before = runtime.status.clone();
    let mut events = Vec::new();
    runtime.on_update(
        TaggedSessionUpdate {
            session_id: number(&first),
            update: SessionUpdate::Error("late".to_string()),
        },
        0,
        Ok(()),
        &mut events,
    );
    assert!(events.is_empty());
    assert_eq!(runtime.status, before);
    runtime.on_update(
        TaggedSessionUpdate {
            session_id: number(&second),
            update: SessionUpdate::Rtt(40),
        },
        0,
        Ok(()),
        &mut events,
    );
    assert_eq!(runtime.status.recent_rtt_ms, Some(40));
}

#[test]
fn a_session_that_does_not_start_is_an_error() {
    let mut runtime = RuntimeLoop::new();
    run_command(&mut runtime, RuntimeCommand::Start(AppConfig::default()));
    let mut events = Vec::new();
    runtime.start_failed("no hooks".to_string(), &mut events);
    assert_eq!(runtime.status.run_state, RunState::Error);
    assert!(runtime.status.last_error.as_deref().is_some_and(|error| error.contains("no hooks")));
    assert_eq!(runtime.active, None);
}

#[test]
fn runtime_command_is_cloneable() {
    let command = RuntimeCommand::Start(AppConfig::default());
    let cloned = command.clone();

    assert!(matches!(cloned, RuntimeCommand::Start(_)));
}

fn active_runtime() -> ActiveRuntime {
    ActiveRuntime { session_id: 7, has_hooks: true, has_edge_target: true, stopped: false }
}

#[test]
fn active_runtime_stop_sends_release_all_when_remote_active() {
    let mut runtime = active_runtime();
    let steps = runtime.request_stop(true);
    let release = steps.iter().position(|step| *step == StopStep::ReleaseAll).unwrap();
    let stop = steps.iter().position(|step| *step == StopStep::StopConnection).unwrap();
    assert!(release < stop);
    assert!(steps.contains(&StopStep::PassThrough));
    assert!(steps.contains(&StopStep::RemoveEdgeTarget));
    assert!(runtime.request_stop(true).is_empty());
}

#[test]
fn active_runtime_stop_skips_release_all_when_local() {
    let mut runtime = active_runtime();
    let steps = runtime.request_stop(false);
    assert!(!steps.contains(&StopStep::ReleaseAll));
    assert!(steps.contains(&StopStep::StopConnection));
}

#[test]
fn tasks_that_had_to_be_aborted_are_told() {
    let mut runtime = RuntimeLoop::new();
    let mut events = Vec::new();
    runtime.log_stop_task_outcome(StopTaskOutcome { completed: 1, aborted: 0 }, &mut events);
    assert!(events.is_empty());
    runtime.log_stop_task_outcome(StopTaskOutcome { completed: 1, aborted: 2 }, &mut events);
    assert!(matches!(&events[0], RuntimeEvent::Log(message) if message.contains('2')));
}

#[test]
fn agent_disconnect_release_logs_released_pressed_input() {
    let mut pump = agent_pump();
    pump.injector_ready = true;
    let mut out = Vec::new();

    pump.handle_agent_connection_event(
        &ConnectionEvent::Disconnected("controller".to_string()),
        0,
        &mut out,
    );

    assert!(out.contains(&PumpAction::ReleaseInput { log_after_disconnect: true }));
    assert!(out.contains(&PumpAction::CloseInjector));
    assert!(!pump.injector_ready);
    assert_eq!(
        input_released(Ok(()), true),
        Some(SessionUpdate::Log("released all pressed input after disconnect".to_string()))
    );
    assert!(input_injected(Ok(())).is_none());
    assert!(input_injected(Err("denied".to_string())).is_some());
}

#[test]
fn bulk_hosts_follow_the_role() {
    let mut config = AppConfig::default();
    config.controller.agent_host = "10.0.0.2".to_string();
    config.agent.listen_host = "10.0.0.3".to_string();
    config.role = Role::Controller;
    assert_eq!(bulk_client_host(&config), Some("10.0.0.2".to_string()));
    config.role = Role::Agent;
    assert_eq!(bulk_server_host(&config), "10.0.0.3");
    assert_eq!(bulk_client_host(&config), None);
}

#[test]
fn a_drag_over_the_edge_is_a_session_until_it_leaves() {
    let mut edge = EdgeDrag { active_session: None };
    assert_eq!(edge.over(), DropAnswer::Refuse);
    assert_eq!(edge.enter(None, 1, 2), (DropAnswer::Refuse, None));
    assert_eq!(edge.enter(Some(Vec::new()), 1, 2), (DropAnswer::Refuse, None));
    let (answer, event) = edge.enter(Some(vec!["C:/a.txt".to_string()]), 1, 2);
    assert_eq!(answer, DropAnswer::Copy);
    assert_eq!(
        event,
        Some(DragDropEvent::LocalFileDragEntered {
            session_id: 1,
            transfer_id: 2,
            paths: vec!["C:/a.txt".to_string()],
        })
    );
    assert_eq!(edge.over(), DropAnswer::Copy);
    assert_eq!(edge.finish(), Some(1));
    assert_eq!(edge.finish(), None);
}

#[test]
fn a_controller_watches_input_and_connects() {
    let mut config = AppConfig::default();
    config.role = Role::Controller;
    config.controller.agent_host = "192.168.1.7".to_string();
    config.controller.remote_position = RemotePosition::Left;
    config.sharing.real_file_drag_drop = true;

    let plan = start_session(&config);

    assert!(plan.hooks && !plan.listens);
    assert_eq!(plan.drop_edge, Some(Edge::Left));
    assert_eq!(plan.transport, controller_transport_settings(&config));
    assert_eq!(plan.bulk_server_host, "0.0.0.0");
    assert_eq!(plan.bulk_client_host.as_deref(), Some("192.168.1.7"));
    assert_eq!(plan.bulk_port, config.sharing.bulk_transfer_port);

    config.sharing.real_file_drag_drop = false;
    assert_eq!(start_session(&config).drop_edge, None);
}

#[test]
fn an_agent_waits_for_its_controller() {
    let mut config = AppConfig::default();
    config.role = Role::Agent;
    config.sharing.real_file_drag_drop = true;

    let plan = start_session(&config);

    assert!(plan.listens && !plan.hooks);
    assert_eq!(plan.drop_edge, None);
    assert_eq!(plan.transport, agent_transport_settings(&config));
    assert_eq!(plan.bulk_server_host, config.agent.listen_host);
    assert_eq!(plan.bulk_client_host, None);
}

#[test]
fn exited_tasks_are_reported_by_name() {
    let cases = [
        (SessionTask::ControllerTransport, "controller transport exited: gone"),
        (SessionTask::AgentTransport, "agent transport exited: gone"),
        (SessionTask::BulkServer, "bulk transfer server exited: gone"),
        (SessionTask::BulkClient, "bulk transfer client exited: gone"),
    ];
    for (task, text) in cases {
        assert_eq!(task_exited(task, "gone"), SessionUpdate::Error(text.to_string()));
    }
}

#[test]
fn a_session_is_stopped_before_another_one_starts() {
    let mut runtime = RuntimeLoop::new();
    let mut events = Vec::new();
    let start = RuntimeCommand::Start(AppConfig::default());
    assert!(!runtime.must_stop_session(&start));
    runtime.on_command(start, &mut events);

    assert!(runtime.must_stop_session(&RuntimeCommand::Start(AppConfig::default())));
    assert!(runtime.must_stop_session(&RuntimeCommand::Reconnect(AppConfig::default())));
    assert!(runtime.must_stop_session(&RuntimeCommand::Stop));
    assert!(!runtime.must_stop_session(&RuntimeCommand::CancelTransfer(3)));
    assert!(!runtime.must_stop_session(&RuntimeCommand::CancelDragDrop(3)));
}

#[test]
fn an_arrived_drag_is_carried_on_by_the_agent() {
    let mut pump = agent_pump();
    assert_eq!(pump.drag_drop_runtime.remember_start(drag(5, 6)), None);
    let mut out = Vec::new();
    pump.handle_agent_bulk_transfer_event_for_drag_drop(
        BulkTransferEvent::Completed { transfer_id: 6, cache_paths: vec!["C:/cache/a".to_string()] },
        &mut out,
    );
    assert!(out.contains(&PumpAction::StartRemoteDrag {
        session_id: 5,
        cache_paths: vec!["C:/cache/a".to_string()],
    }));

    let mut out = Vec::new();
    pump.remote_drag_started(5, Err("no window".to_string()), &mut out);
    assert_eq!(
        out,
        vec![PumpAction::Update(SessionUpdate::DragDrop(DragDropEvent::Error {
            session_id: Some(5),
            message: "remote file drag failed: no window".to_string(),
        }))]
    );

    let mut out = Vec::new();
    pump.remote_drag_started(5, Ok(()), &mut out);
    assert!(pump.drag_drop_runtime.has_active_drag());
    let mut out = Vec::new();
    pump.handle_agent_remote_drag_event(
        DragDropEvent::RemoteDropFinished { session_id: 5 },
        &mut out,
    );
    assert!(!pump.drag_drop_runtime.has_active_drag());
    assert_eq!(
        out.last(),
        Some(&PumpAction::Update(SessionUpdate::DragDrop(
            DragDropEvent::RemoteDropFinished { session_id: 5 }
        )))
    );
}
