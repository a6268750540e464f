use borderless::bulk_events::{BulkTransferCommand, BulkTransferEvent};
use borderless::clipboard::{
    ClipboardChangeId, ClipboardEnvelope, ClipboardPayload, RemoteFileOffer,
};
use borderless::clipboard_reading::ClipboardEvent;
use borderless::clipboard_sync::{
    clipboard_data_send_decision, clipboard_data_write_decision, clipboard_enabled,
    clipboard_payload_format, clipboard_read_options, clipboard_send_decision,
    clipboard_wire_bytes,
    file_transfer_request_from_clipboard_offer, handle_clipboard_event,
    handle_local_clipboard_file_offer, handle_remote_clipboard_message,
    remote_clipboard_message_action, remote_clipboard_written, ClipboardSendDecision, FileRequest,
    RemoteClipboardMessageAction,
};
use borderless::config::AppConfig;
use borderless::file_transfer::FileManifestEntry;
use borderless::protocol::{WireMessage, MAX_PAYLOAD_LEN};
use borderless::purposes::TransferPurposeTracker;
use borderless::session::{PumpAction, RuntimeEvent, SessionUpdate};
use borderless::sources::{manifest_from_source_paths, SourceChild, SourceKind, SourceTree};
use borderless::stale_pointer::StalePointerPacketGate;
use borderless::status::AppStatus;
use borderless::status_updates::{
    apply_bulk_transfer_status_update, apply_clipboard_error_status,
    apply_clipboard_ignored_status, apply_clipboard_queued_status, apply_clipboard_written_status,
    apply_session_update, clipboard_content_to_write,
    clipboard_payload_for_completed_bulk_transfer, emit_status,
};
use borderless::transport::ConnectionCommand;

fn text(value: &str) -> ClipboardPayload {
    ClipboardPayload::UnicodeText(value.to_string())
}

fn envelope(payload: ClipboardPayload) -> ClipboardEnvelope {
    ClipboardEnvelope { change_id: ClipboardChangeId::new(0, 1), payload }
}

fn oversized() -> ClipboardEnvelope {
    envelope(ClipboardPayload::ImagePng(vec![0; MAX_PAYLOAD_LEN]))
}

fn updates(actions: &[PumpAction]) -> Vec<&SessionUpdate> {
    actions
        .iter()
        .filter_map(|action| match action {
            PumpAction::Update(update) => Some(update),
            _ => None,
        })
        .collect()
}

fn has_connection_command(actions: &[PumpAction]) -> bool {
    actions
        .iter()
        .any(|action| matches!(action, PumpAction::Connection(_)))
}

fn has_bulk_command(actions: &[PumpAction]) -> bool {
    actions
        .iter()
        .any(|action| matches!(action, PumpAction::BulkAll(_) | PumpAction::BulkLast(_)))
}

#[test]
fn clipboard_enabled_tracks_any_clipboard_sharing_flag() {
    let mut config = AppConfig::default();
    config.sharing.clipboard_text = false;
    config.sharing.clipboard_html = false;
    config.sharing.clipboard_images = false;
    config.sharing.file_copy_paste = false;

    assert!(!clipboard_enabled(&config));

    config.sharing.clipboard_html = true;
    assert!(clipboard_enabled(&config));
}

#[test]
fn clipboard_payload_format_names_are_human_readable() {
    assert_eq!(clipboard_payload_format(&text("hi")), "text");
    assert_eq!(
        clipboard_payload_format(&ClipboardPayload::Html("<b>hi</b>".to_string())),
        "html"
    );
    assert_eq!(clipboard_payload_format(&ClipboardPayload::ImagePng(vec![1, 2, 3])), "png");
    assert_eq!(clipboard_payload_format(&ClipboardPayload::ImageDib(vec![1, 2, 3])), "dib");
    assert_eq!(
        clipboard_payload_format(&ClipboardPayload::Files(RemoteFileOffer {
            transfer_id: 0,
            files: vec![FileManifestEntry::file("a.txt", 4)],
        })),
        "files"
    );
}

#[test]
fn clipboard_send_decision_enforces_enabled_formats_and_size_limit() {
    let mut config = AppConfig::default();
    config.sharing.max_clipboard_bytes = 4;
    config.sharing.clipboard_html = false;

    assert_eq!(
        clipboard_send_decision(&config, &text("four")),
        ClipboardSendDecision::Send { format: "text", bytes: 4 }
    );
    assert_eq!(
        clipboard_send_decision(&config, &text("too large")),
        ClipboardSendDecision::Ignore("clipboard text is 9 bytes, limit is 4".to_string())
    );
    assert_eq!(
        clipboard_send_decision(&config, &ClipboardPayload::Html("<b>x</b>".to_string())),
        ClipboardSendDecision::Ignore("clipboard html sharing is disabled".to_string())
    );
}

#[test]
fn clipboard_file_path_metadata_size_ignores_future_content_size() {
    let mut config = AppConfig::default();
    config.sharing.max_clipboard_bytes = 64;
    config.sharing.max_file_transfer_bytes = u64::MAX;
    let payload = ClipboardPayload::Files(RemoteFileOffer {
        transfer_id: 0,
        files: vec![FileManifestEntry::file("small-path.txt", u64::MAX)],
    });

    assert_eq!(
        clipboard_send_decision(&config, &payload),
        ClipboardSendDecision::Send { format: "files", bytes: 14 }
    );
}

#[test]
fn clipboard_data_larger_than_protocol_limit_is_ignored_before_enqueue() {
    let mut config = AppConfig::default();
    config.sharing.max_clipboard_bytes = (32 * 1024 * 1024) as u64;

    assert!(matches!(
        clipboard_data_send_decision(&config, &oversized()),
        ClipboardSendDecision::Ignore(reason)
            if reason.contains("clipboard png encoded message is too large")
                && reason.contains("protocol limit")
    ));
}

#[test]
fn clipboard_data_larger_than_protocol_limit_is_ignored_before_write_status() {
    let mut config = AppConfig::default();
    config.sharing.max_clipboard_bytes = (32 * 1024 * 1024) as u64;

    assert!(matches!(
        clipboard_data_write_decision(&config, &oversized()),
        ClipboardSendDecision::Ignore(reason)
            if reason.contains("clipboard png encoded message is too large")
                && reason.contains("protocol limit")
    ));
}

#[test]
fn clipboard_event_does_not_enqueue_oversized_protocol_data() {
    let mut config = AppConfig::default();
    config.sharing.max_clipboard_bytes = (32 * 1024 * 1024) as u64;

    let actions =
        handle_clipboard_event(ClipboardEvent::Changed(oversized()), &config, true, true);

    assert!(!has_connection_command(&actions));
    assert!(updates(&actions).iter().any(|update| {
        matches!(
            update,
            SessionUpdate::ClipboardIgnored(reason)
                if reason.contains("clipboard png encoded message is too large")
        )
    }));
}

#[test]
fn clipboard_event_without_transport_ready_is_ignored_before_enqueue() {
    let config = AppConfig::default();

    let actions = handle_clipboard_event(
        ClipboardEvent::Changed(envelope(text("waiting"))),
        &config,
        false,
        true,
    );

    assert!(!has_connection_command(&actions));
    assert!(updates(&actions).iter().any(|update| {
        matches!(
            update,
            SessionUpdate::ClipboardIgnored(reason)
                if reason == "clipboard sync skipped: peer is not connected"
        )
    }));
}

#[test]
fn clipboard_event_with_transport_ready_enqueues_data_and_reports_queued() {
    let config = AppConfig::default();
    let sent = envelope(text("ready"));

    let actions =
        handle_clipboard_event(ClipboardEvent::Changed(sent.clone()), &config, true, true);

    assert!(actions.contains(&PumpAction::Connection(ConnectionCommand::SendReliable(
        WireMessage::ClipboardData(sent)
    ))));
    assert!(updates(&actions).iter().any(|update| {
        matches!(
            update,
            SessionUpdate::ClipboardQueued { format, bytes } if format == "text" && *bytes == 5
        )
    }));
}

#[test]
fn clipboard_file_payload_over_file_transfer_limit_is_ignored() {
    let mut config = AppConfig::default();
    config.sharing.max_clipboard_bytes = 1024;
    config.sharing.max_file_transfer_bytes = 10;
    let payload = ClipboardPayload::Files(RemoteFileOffer {
        transfer_id: 0,
        files: vec![FileManifestEntry::file("large.bin", 11)],
    });

    assert_eq!(
        clipboard_send_decision(&config, &payload),
        ClipboardSendDecision::Ignore(
            "clipboard files are 11 bytes, file transfer limit is 10".to_string()
        )
    );
}

fn docs_tree(path: &str) -> SourceTree {
    SourceTree {
        path: path.to_string(),
        is_dir: true,
        size_bytes: 0,
        children: vec![
            SourceChild {
                child_path: "nested".to_string(),
                path: format!("{path}/nested"),
                kind: SourceKind::Directory,
                size_bytes: 0,
            },
            SourceChild {
                child_path: "nested/note.txt".to_string(),
                path: format!("{path}/nested/note.txt"),
                kind: SourceKind::File,
                size_bytes: 4,
            },
            SourceChild {
                child_path: "root.txt".to_string(),
                path: format!("{path}/root.txt"),
                kind: SourceKind::File,
                size_bytes: 9,
            },
        ],
    }
}

#[test]
fn clipboard_file_event_does_not_send_local_paths_over_control_channel() {
    let mut config = AppConfig::default();
    config.sharing.file_copy_paste = true;
    let source_path = "/tmp/borderless-clipboard-file-event/source.txt".to_string();
    let offer = RemoteFileOffer {
        transfer_id: 0,
        files: vec![FileManifestEntry::file(&source_path, 5)],
    };
    let actions = handle_clipboard_event(
        ClipboardEvent::Changed(envelope(ClipboardPayload::Files(offer))),
        &config,
        true,
        true,
    );
    let (offer, bytes) = actions
        .into_iter()
        .find_map(|action| match action {
            PumpAction::CollectFiles { offer, bytes } => Some((offer, bytes)),
            _ => None,
        })
        .unwrap();
    let source_paths = file_transfer_request_from_clipboard_offer(&offer).unwrap();
    let trees = vec![SourceTree {
        path: source_path.clone(),
        is_dir: false,
        size_bytes: 5,
        children: Vec::new(),
    }];
    let manifest = manifest_from_source_paths(offer.transfer_id, &source_paths, &trees).unwrap();

    let actions = handle_local_clipboard_file_offer(
        &config,
        bytes,
        Ok(FileRequest { manifest, source_paths }),
        true,
        true,
        true,
    );

    assert!(actions.iter().any(|action| matches!(
        action,
        PumpAction::Connection(ConnectionCommand::SendReliable(
            WireMessage::FileTransferOffer(manifest)
        )) if manifest.files.iter().all(|entry| !entry.relative_path.contains(':'))
            && manifest.files.iter().any(|entry| entry.relative_path == "source.txt")
    )));
    assert!(actions.iter().any(|action| matches!(
        action,
        PumpAction::BulkLast(BulkTransferCommand::SendFiles { source_paths, .. })
            if *source_paths == vec![source_path.clone()]
    )));
    assert!(updates(&actions).iter().any(|update| {
        matches!(
            update,
            SessionUpdate::ClipboardQueued { format, bytes }
                if format == "files" && *bytes == source_path.len() as u64
        )
    }));
}

#[test]
fn clipboard_folder_transfer_request_expands_children_and_totals_bytes() {
    let source_path = "/tmp/borderless-clipboard-folder-event/docs".to_string();
    let offer = RemoteFileOffer {
        transfer_id: 0,
        files: vec![FileManifestEntry::file(&source_path, 0)],
    };

    let source_paths = file_transfer_request_from_clipboard_offer(&offer).unwrap();
    let manifest =
        manifest_from_source_paths(offer.transfer_id, &source_paths, &vec![docs_tree(&source_path)])
            .unwrap();

    assert_eq!(source_paths, vec![source_path]);
    assert_eq!(manifest.root_name, "docs");
    assert_eq!(manifest.total_bytes, 13);
    assert!(manifest
        .files
        .iter()
        .any(|entry| entry.relative_path == "docs/nested/note.txt" && entry.size_bytes == 4));
    assert!(manifest
        .files
        .iter()
        .any(|entry| entry.relative_path == "docs/root.txt" && entry.size_bytes == 9));
}

#[test]
fn clipboard_folder_event_over_file_transfer_limit_is_ignored_after_expansion() {
    let mut config = AppConfig::default();
    config.sharing.file_copy_paste = true;
    config.sharing.max_file_transfer_bytes = 3;
    let source_path = "/tmp/borderless-clipboard-folder-limit/docs".to_string();
    let offer = RemoteFileOffer {
        transfer_id: 0,
        files: vec![FileManifestEntry::file(&source_path, 0)],
    };
    let mut actions = handle_clipboard_event(
        ClipboardEvent::Changed(envelope(ClipboardPayload::Files(offer))),
        &config,
        true,
        true,
    );
    let (offer, bytes) = match actions.pop() {
        Some(PumpAction::CollectFiles { offer, bytes }) => (offer, bytes),
        other => panic!("unexpected action {other:?}"),
    };
    let source_paths = file_transfer_request_from_clipboard_offer(&offer).unwrap();
    let trees = vec![SourceTree {
        path: source_paths[0].clone(),
        is_dir: true,
        size_bytes: 0,
        children: vec![SourceChild {
            child_path: "note.txt".to_string(),
            path: format!("{}/note.txt", source_paths[0]),
            kind: SourceKind::File,
            size_bytes: 4,
        }],
    }];
    let manifest = manifest_from_source_paths(offer.transfer_id, &source_paths, &trees).unwrap();

    actions.extend(handle_local_clipboard_file_offer(
        &config,
        bytes,
        Ok(FileRequest { manifest, source_paths }),
        true,
        true,
        true,
    ));

    assert!(!has_connection_command(&actions));
    assert!(!has_bulk_command(&actions));
    assert!(updates(&actions).iter().any(|update| {
        matches!(
            update,
            SessionUpdate::ClipboardIgnored(reason)
                if reason == "clipboard files are 4 bytes, file transfer limit is 3"
        )
    }));
}

#[test]
fn completed_bulk_transfer_paths_become_file_clipboard_payload() {
    let payload = clipboard_payload_for_completed_bulk_transfer(
        0,
        &vec!["C:/cache/a.txt".to_string(), "C:/cache/b.txt".to_string()],
    );

    assert_eq!(
        payload,
        ClipboardPayload::Files(RemoteFileOffer {
            transfer_id: 0,
            files: vec![
                FileManifestEntry::file("C:/cache/a.txt", 0),
                FileManifestEntry::file("C:/cache/b.txt", 0),
            ],
        })
    );
}

fn completed(transfer_id: u128) -> SessionUpdate {
    SessionUpdate::BulkTransfer(BulkTransferEvent::Completed {
        transfer_id,
        cache_paths: vec!["C:/cache/docs".to_string()],
    })
}

#[test]
fn drag_drop_bulk_completion_does_not_write_file_clipboard_status() {
    let transfer_id = 19;
    let mut status = AppStatus::default();
    let mut events = Vec::new();
    let mut stale_gate = StalePointerPacketGate::default();
    let mut transfer_purposes = TransferPurposeTracker::default();
    transfer_purposes.remember_drag_drop(transfer_id);
    assert_eq!(clipboard_content_to_write(&transfer_purposes, &completed(transfer_id)), None);

    apply_session_update(
        &mut status,
        &mut events,
        completed(transfer_id),
        &mut stale_gate,
        &mut transfer_purposes,
        0,
        Ok(()),
    );

    assert_eq!(status.last_clipboard_format, None);
    assert_eq!(status.last_clipboard_bytes, None);
    assert!(!transfer_purposes.is_drag_drop(transfer_id));
}

#[test]
fn delayed_drag_drop_intent_consumes_pending_bulk_completion_without_clipboard_write() {
    let transfer_id = 23;
    let mut status = AppStatus::default();
    let mut events = Vec::new();
    let mut stale_gate = StalePointerPacketGate::default();
    let mut transfer_purposes = TransferPurposeTracker::default();

    apply_session_update(
        &mut status,
        &mut events,
        completed(transfer_id),
        &mut stale_gate,
        &mut transfer_purposes,
        0,
        Ok(()),
    );
    apply_session_update(
        &mut status,
        &mut events,
        SessionUpdate::DragDropTransferStarted(transfer_id),
        &mut stale_gate,
        &mut transfer_purposes,
        0,
        Ok(()),
    );

    assert_eq!(status.last_clipboard_format, None);
    assert_eq!(status.last_clipboard_bytes, None);
    assert!(!transfer_purposes.is_drag_drop(transfer_id));
}

#[test]
fn announced_clipboard_transfer_is_written_once_it_has_arrived() {
    let transfer_id = 24;
    let mut status = AppStatus::default();
    let mut events = Vec::new();
    let mut stale_gate = StalePointerPacketGate::default();
    let mut purposes = TransferPurposeTracker::default();
    assert_eq!(purposes.remember_clipboard(transfer_id), None);
    let content = clipboard_content_to_write(&purposes, &completed(transfer_id)).unwrap();
    assert_eq!(
        content,
        clipboard_payload_for_completed_bulk_transfer(
            transfer_id,
            &vec!["C:/cache/docs".to_string()]
        )
    );

    apply_session_update(
        &mut status,
        &mut events,
        completed(transfer_id),
        &mut stale_gate,
        &mut purposes,
        0,
        Ok(()),
    );

    assert_eq!(status.last_clipboard_format.as_deref(), Some("files"));
    assert!(!purposes.is_clipboard(transfer_id));
}

fn writes_of(updates: Vec<SessionUpdate>) -> (Vec<ClipboardPayload>, AppStatus) {
    let mut status = AppStatus::default();
    let mut events = Vec::new();
    let mut stale_gate = StalePointerPacketGate::default();
    let mut purposes = TransferPurposeTracker::default();
    let mut writes = Vec::new();
    for update in updates {
        writes.extend(clipboard_content_to_write(&purposes, &update));
        apply_session_update(
            &mut status,
            &mut events,
            update,
            &mut stale_gate,
            &mut purposes,
            0,
            Ok(()),
        );
    }
    (writes, status)
}

#[test]
fn copied_files_are_written_once_in_either_order() {
    let told = || SessionUpdate::ClipboardFileTransferStarted(25);
    let expected = clipboard_payload_for_completed_bulk_transfer(
        25,
        &vec!["C:/cache/docs".to_string()],
    );
    for updates in [vec![told(), completed(25)], vec![completed(25), told()]] {
        let (writes, status) = writes_of(updates);
        assert_eq!(writes, vec![expected.clone()]);
        assert_eq!(status.last_clipboard_format.as_deref(), Some("files"));
    }
}

#[test]
fn dragged_files_are_never_written_in_either_order() {
    let told = || SessionUpdate::DragDropTransferStarted(26);
    for updates in [vec![told(), completed(26)], vec![completed(26), told()]] {
        let (writes, status) = writes_of(updates);
        assert!(writes.is_empty());
        assert_eq!(status.last_clipboard_format, None);
        assert_eq!(status.last_clipboard_bytes, None);
    }
}

#[test]
fn sent_bulk_transfer_clears_sender_progress() {
    let transfer_id = 20;
    let mut status = AppStatus {
        transfer_active: true,
        transfer_id: Some(transfer_id),
        transfer_bytes_done: 10,
        transfer_bytes_total: 20,
        transfer_current_file: Some("docs/a.txt".to_string()),
        ..Default::default()
    };
    let mut events = Vec::new();

    apply_bulk_transfer_status_update(
        &mut status,
        &mut events,
        BulkTransferEvent::Sent { transfer_id },
        true,
        Ok(()),
    );

    assert!(!status.transfer_active);
    assert_eq!(status.transfer_current_file, None);
}

#[test]
fn remote_clipboard_offer_is_ignored_instead_of_written_as_data() {
    let config = AppConfig::default();

    assert_eq!(
        remote_clipboard_message_action(
            &config,
            WireMessage::ClipboardOffer(envelope(text("offer")))
        ),
        RemoteClipboardMessageAction::Ignore(
            "clipboard offer ignored: data message required".to_string()
        )
    );
}

#[test]
fn remote_clipboard_data_is_selected_for_local_write() {
    let config = AppConfig::default();
    let data = envelope(text("data"));

    assert_eq!(
        remote_clipboard_message_action(&config, WireMessage::ClipboardData(data.clone())),
        RemoteClipboardMessageAction::Write { envelope: data, format: "text", bytes: 4 }
    );
}

#[test]
fn remote_clipboard_data_is_written_and_reported() {
    let config = AppConfig::default();
    let actions =
        handle_remote_clipboard_message(WireMessage::ClipboardData(envelope(text("data"))), &config);
    assert_eq!(
        actions,
        vec![PumpAction::WriteClipboard {
            payload: text("data"),
            format: "text".to_string(),
            bytes: 4,
        }]
    );
    assert_eq!(
        remote_clipboard_written("text".to_string(), 4, Ok(())),
        SessionUpdate::ClipboardWritten { format: "text".to_string(), bytes: 4 }
    );
    assert!(matches!(
        remote_clipboard_written("text".to_string(), 4, Err("busy".to_string())),
        SessionUpdate::ClipboardError(error) if error.contains("busy")
    ));
}

#[test]
fn clipboard_data_under_protocol_limit_still_sends() {
    let config = AppConfig::default();

    assert_eq!(
        clipboard_data_send_decision(&config, &envelope(text("small"))),
        ClipboardSendDecision::Send { format: "text", bytes: 5 }
    );
}

#[test]
fn clipboard_monitor_options_follow_sharing_config_and_size_limit() {
    let mut config = AppConfig::default();
    config.sharing.clipboard_text = true;
    config.sharing.clipboard_html = false;
    config.sharing.clipboard_images = false;
    config.sharing.file_copy_paste = true;
    config.sharing.max_clipboard_bytes = 1234;

    let options = clipboard_read_options(&config);

    assert!(options.text);
    assert!(!options.html);
    assert!(!options.images);
    assert!(options.files);
    assert_eq!(options.max_bytes, 1234);
}

#[test]
fn clipboard_monitor_options_cap_size_at_protocol_payload_limit() {
    let mut config = AppConfig::default();
    config.sharing.max_clipboard_bytes = (32 * 1024 * 1024) as u64;

    let options = clipboard_read_options(&config);

    assert_eq!(options.max_bytes, MAX_PAYLOAD_LEN as u64);
}

#[test]
fn clipboard_status_updates_record_queued_and_ignored_events() {
    let mut events = Vec::new();
    let mut status = AppStatus::default();

    let payload = text("hello");
    apply_clipboard_queued_status(
        &mut status,
        &mut events,
        clipboard_payload_format(&payload).to_string(),
        clipboard_wire_bytes(&payload),
    );
    emit_status(&status, &mut events);

    assert_eq!(status.last_clipboard_format.as_deref(), Some("text"));
    assert_eq!(status.last_clipboard_bytes, Some(5));
    assert_eq!(status.clipboard_ignored_reason, None);
    assert!(status
        .events
        .iter()
        .any(|message| message == "clipboard queued: text (5 bytes)"));

    apply_clipboard_ignored_status(&mut status, &mut events, "too large".to_string());
    emit_status(&status, &mut events);

    assert_eq!(status.clipboard_ignored_reason.as_deref(), Some("too large"));
    assert!(status
        .events
        .iter()
        .any(|message| message == "clipboard ignored: too large"));

    apply_clipboard_error_status(&mut status, &mut events, "clipboard busy".to_string());
    emit_status(&status, &mut events);

    assert_eq!(status.last_error.as_deref(), Some("clipboard busy"));
    assert_eq!(status.clipboard_ignored_reason.as_deref(), Some("clipboard busy"));
    assert!(events.iter().any(
        |event| matches!(event, RuntimeEvent::Status(status) if status.last_clipboard_bytes == Some(5))
    ));

    apply_clipboard_written_status(&mut status, &mut events, "html".to_string(), 7);
    assert_eq!(status.last_clipboard_bytes, Some(7));
    assert_eq!(status.clipboard_ignored_reason, None);
}
