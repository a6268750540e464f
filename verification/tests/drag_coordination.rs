use borderless::bulk_events::BulkTransferEvent;
use borderless::config::{RemotePosition, Role};
use borderless::control::ControlMode;
use borderless::drag_coordinator::{DragDropCoordinator, DragEffect};
use borderless::drag_drop::{DragDirection, DragDropPhase, DropResolutionKind, DropTargetSummary};
use borderless::geometry::{Edge, Point};
use borderless::protocol::WireMessage;
use uuid::Uuid;

const NOW: u64 = 1_000;

fn transferring_source() -> (DragDropCoordinator, u128, u128) {
    let session_id = 1;
    let transfer_id = 2;
    let mut coordinator = DragDropCoordinator::new(Role::Controller);
    coordinator.begin_local_drag(
        session_id,
        transfer_id,
        vec!["C:\\src\\report.pdf".to_string()],
    );
    coordinator.set_control_mode(ControlMode::Remote);
    coordinator.local_left_released(Point::new(20, 30), NOW);
    let effects = coordinator.handle_peer_message(
        WireMessage::DragDropTargetResolved {
            session_id,
            target: DropTargetSummary {
                display_name: "Reports".to_string(),
                resolution_kind: DropResolutionKind::FolderIcon,
                authorization: 3,
            },
        },
        NOW,
    );
    assert!(effects.iter().any(|effect| matches!(
        effect,
        DragEffect::BeginTransfer {
            session_id: candidate_session,
            transfer_id: candidate_transfer,
            ..
        } if *candidate_session == session_id && *candidate_transfer == transfer_id
    )));
    (coordinator, session_id, transfer_id)
}

fn entered(session_id: u128, transfer_id: u128) -> WireMessage {
    WireMessage::DragDropEntered { session_id, transfer_id, item_count: 1 }
}

fn report() -> Vec<String> {
    vec!["C:\\src\\report.pdf".to_string()]
}

#[test]
fn agent_entered_after_control_returns_is_immediately_handed_to_controller() {
    let mut coordinator = DragDropCoordinator::new(Role::Controller);
    coordinator.set_control_mode(ControlMode::Local);

    let effects = coordinator.handle_peer_message(entered(1, 2), NOW);

    assert!(effects.contains(&DragEffect::AwaitLocalRelease { session_id: 1 }));
}

#[test]
fn control_returns_after_agent_entered_produces_the_same_effect() {
    let mut coordinator = DragDropCoordinator::new(Role::Controller);
    coordinator.set_control_mode(ControlMode::Remote);
    coordinator.handle_peer_message(entered(1, 2), NOW);

    let effects = coordinator.set_control_mode(ControlMode::Local);
    assert!(effects.contains(&DragEffect::AwaitLocalRelease { session_id: 1 }));
}

#[test]
fn layout_installs_only_the_reciprocal_agent_edge() {
    let effects = DragDropCoordinator::new(Role::Agent).handle_peer_message(
        WireMessage::PeerLayout { controller_remote_position: RemotePosition::Right },
        NOW,
    );
    assert!(effects.contains(&DragEffect::InstallEdge(Edge::Left)));
}

#[test]
fn both_roles_create_the_same_source_session_shape() {
    for (role, direction) in [
        (Role::Controller, DragDirection::ControllerToAgent),
        (Role::Agent, DragDirection::AgentToController),
    ] {
        let mut coordinator = DragDropCoordinator::new(role);
        let effects = coordinator.begin_local_drag(1, 2, report());

        assert!(effects.contains(&DragEffect::Send(entered(1, 2))));
        assert_eq!(coordinator.active_session().unwrap().direction(), direction);
    }
}

#[test]
fn second_peer_offer_is_rejected_while_one_is_active() {
    let mut coordinator = DragDropCoordinator::new(Role::Controller);
    coordinator.handle_peer_message(entered(1, 2), NOW);

    let effects = coordinator.handle_peer_message(entered(3, 4), NOW);

    assert_eq!(
        effects,
        vec![DragEffect::Send(WireMessage::DragDropCancel {
            session_id: 3,
            reason: "another drag-drop session is active".to_string(),
        })]
    );
}

#[test]
fn controller_source_starts_remote_selection_when_control_crosses_the_edge() {
    let mut coordinator = DragDropCoordinator::new(Role::Controller);
    coordinator.begin_local_drag(1, 2, report());

    let effects = coordinator.set_control_mode(ControlMode::Remote);

    assert_eq!(
        coordinator.active_session().unwrap().phase(),
        &DragDropPhase::RemoteTargetSelecting
    );
    assert!(effects.contains(&DragEffect::Status {
        state: "正在选择目标目录".to_string(),
        destination: None,
    }));
}

#[test]
fn controller_drag_detected_after_edge_crossing_starts_remote_selection_immediately() {
    let mut coordinator = DragDropCoordinator::new(Role::Controller);
    coordinator.set_control_mode(ControlMode::Remote);

    let effects = coordinator.begin_local_drag(1, 2, report());

    assert_eq!(
        coordinator.active_session().unwrap().phase(),
        &DragDropPhase::RemoteTargetSelecting
    );
    assert!(effects.contains(&DragEffect::Status {
        state: "正在选择目标目录".to_string(),
        destination: None,
    }));
}

#[test]
fn local_cancel_notifies_the_peer_and_clears_the_session() {
    let mut coordinator = DragDropCoordinator::new(Role::Agent);
    coordinator.begin_local_drag(1, 2, report());

    let effects = coordinator.cancel_local_drag(1, "用户取消".to_string());

    assert!(coordinator.active_session().is_none());
    assert!(effects.contains(&DragEffect::Send(WireMessage::DragDropCancel {
        session_id: 1,
        reason: "用户取消".to_string(),
    })));
}

#[test]
fn release_on_the_edge_before_handoff_cancels_the_source() {
    let mut coordinator = DragDropCoordinator::new(Role::Controller);
    coordinator.begin_local_drag(1, 2, report());

    let effects = coordinator.native_drop_released(1);

    assert!(coordinator.active_session().is_none());
    assert!(effects.iter().any(|effect| matches!(
        effect,
        DragEffect::Status { state, .. } if state.contains("尚未进入另一台电脑")
    )));
}

#[test]
fn handoff_release_does_not_cancel_an_agent_source() {
    let mut coordinator = DragDropCoordinator::new(Role::Agent);
    coordinator.begin_local_drag(1, 2, report());

    let effects = coordinator.native_drop_released(1);

    assert!(coordinator.active_session().is_some());
    assert!(effects
        .iter()
        .all(|effect| !matches!(effect, DragEffect::Send(WireMessage::DragDropCancel { .. }))));
}

#[test]
fn peer_release_ends_the_native_drag_for_an_agent_source() {
    let session_id = 1;
    let mut coordinator = DragDropCoordinator::new(Role::Agent);
    coordinator.begin_local_drag(session_id, 2, report());

    let effects = coordinator.handle_peer_message(
        WireMessage::DragDropReleased { session_id, point: Point::new(20, 30) },
        NOW,
    );

    assert!(effects.contains(&DragEffect::RestoreLocalInput));
    assert!(effects
        .iter()
        .all(|effect| !matches!(effect, DragEffect::Send(WireMessage::DragDropCancel { .. }))));
}

#[test]
fn sender_completes_only_after_matching_target_result() {
    let (mut coordinator, session_id, transfer_id) = transferring_source();

    assert!(coordinator
        .handle_bulk_event(BulkTransferEvent::Sent { transfer_id })
        .iter()
        .all(|effect| !matches!(
            effect,
            DragEffect::Status { state, .. } if state == "拖放完成"
        )));

    let effects = coordinator.handle_peer_message(
        WireMessage::DragDropTransferResult { session_id, transfer_id, ok: true, reason: None },
        NOW,
    );
    assert!(effects.contains(&DragEffect::Status {
        state: "拖放完成".to_string(),
        destination: None,
    }));
}

#[test]
fn wrong_transfer_result_is_ignored() {
    let (mut coordinator, session_id, _) = transferring_source();
    let effects = coordinator.handle_peer_message(
        WireMessage::DragDropTransferResult {
            session_id,
            transfer_id: 999,
            ok: true,
            reason: None,
        },
        NOW,
    );
    assert!(effects.is_empty());
}

#[test]
fn target_resolution_and_bulk_completion_send_verified_result() {
    let session_id = 10;
    let transfer_id = 11;
    let target = DropTargetSummary {
        display_name: "Reports".to_string(),
        resolution_kind: DropResolutionKind::FolderIcon,
        authorization: 12,
    };
    let mut coordinator = DragDropCoordinator::new(Role::Controller);
    coordinator.handle_peer_message(entered(session_id, transfer_id), NOW);
    coordinator.local_left_released(Point::new(40, 50), NOW);

    let resolved =
        coordinator.complete_target_resolution(session_id, transfer_id, Ok(target.clone()));
    assert!(resolved.contains(&DragEffect::Send(WireMessage::DragDropTargetResolved {
        session_id,
        target
    })));

    coordinator.handle_peer_message(
        WireMessage::DragDropTransferStarted { session_id, transfer_id },
        NOW,
    );
    let completed = coordinator.handle_bulk_event(BulkTransferEvent::Completed {
        transfer_id,
        cache_paths: vec!["C:\\drop\\report.pdf".to_string()],
    });
    assert!(completed.contains(&DragEffect::Send(WireMessage::DragDropTransferResult {
        session_id,
        transfer_id,
        ok: true,
        reason: None,
    })));
}

#[test]
fn failed_target_resolution_clears_the_peer_offer() {
    let session_id = 10;
    let transfer_id = 11;
    let mut coordinator = DragDropCoordinator::new(Role::Agent);
    coordinator.handle_peer_message(entered(session_id, transfer_id), NOW);
    coordinator.handle_peer_message(
        WireMessage::DragDropReleased { session_id, point: Point::new(40, 50) },
        NOW,
    );

    let effects = coordinator.complete_target_resolution(
        session_id,
        transfer_id,
        Err("目标目录不可写".to_string()),
    );

    assert!(effects.contains(&DragEffect::Send(WireMessage::DragDropTargetFailed {
        session_id,
        reason: "目标目录不可写".to_string(),
    })));
    let next = coordinator.handle_peer_message(entered(20, 21), NOW);
    assert!(next
        .iter()
        .all(|effect| !matches!(effect, DragEffect::Send(WireMessage::DragDropCancel { .. }))));
}

#[test]
fn disconnect_cancels_drag_bulk_and_releases_input() {
    let (mut coordinator, _session_id, transfer_id) = transferring_source();
    coordinator.begin_connection_generation(7);

    let effects = coordinator.on_disconnect(7);

    assert!(effects.contains(&DragEffect::CancelBulk { transfer_id }));
    assert!(effects.contains(&DragEffect::Send(WireMessage::ReleaseAll)));
    assert!(effects.contains(&DragEffect::RestoreLocalInput));
    assert!(effects.contains(&DragEffect::UninstallEdge));
    assert!(effects.iter().any(|effect| matches!(
        effect,
        DragEffect::Status { state, .. } if state.contains("连接中断")
    )));
    assert!(coordinator.active_session().is_none());
}

#[test]
fn stale_connection_generation_messages_are_ignored() {
    let mut coordinator = DragDropCoordinator::new(Role::Controller);
    coordinator.begin_connection_generation(8);

    let effects = coordinator.handle_tagged_peer_message(
        7,
        WireMessage::DragDropCancel {
            session_id: Uuid::new_v4().as_u128(),
            reason: "old connection".to_string(),
        },
        NOW,
    );

    assert!(effects.is_empty());
}

#[test]
fn target_authorization_timeout_fails_without_starting_bulk() {
    let session_id = 1;
    let mut coordinator = DragDropCoordinator::new(Role::Controller);
    coordinator.begin_local_drag(session_id, 2, report());
    coordinator.set_control_mode(ControlMode::Remote);
    coordinator.local_left_released(Point::new(20, 30), NOW);

    let effects = coordinator.tick(NOW + 31_000);

    assert!(effects.iter().any(|effect| matches!(
        effect,
        DragEffect::Status { state, .. } if state.contains("超时")
    )));
    assert!(effects
        .iter()
        .all(|effect| !matches!(effect, DragEffect::BeginTransfer { .. })));
    assert!(coordinator.active_session().is_none());
}

#[test]
fn a_drag_within_its_time_is_left_alone() {
    let mut coordinator = DragDropCoordinator::new(Role::Controller);
    coordinator.begin_local_drag(1, 2, report());
    coordinator.set_control_mode(ControlMode::Remote);
    coordinator.local_left_released(Point::new(20, 30), NOW);
    assert!(coordinator.tick(NOW + 29_000).is_empty());
    assert!(coordinator.active_session().is_some());
    let effects = coordinator.on_stop();
    assert!(effects.contains(&DragEffect::RestoreLocalInput));
    assert!(coordinator.active_session().is_none());
}
