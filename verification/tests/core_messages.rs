use borderless::clipboard::{
    ClipboardChangeId, ClipboardEnvelope, ClipboardLoopGuard, ClipboardPayload, RemoteFileOffer,
};
use borderless::config::{RemotePosition, TransportMode};
use borderless::drag_drop::{
    DragDirection, DragDropPhase, DragDropSession, DropResolutionKind, DropTargetSummary,
};
use borderless::file_transfer::{FileManifestEntry, FileTransferManifest};
use borderless::geometry::{Point, Rect};
use borderless::input_event::{
    InputEvent, KeyEvent, MouseButton, MouseButtonEvent, MouseMoveAbsEvent, MouseMoveDeltaEvent,
    MouseWheelEvent,
};
use borderless::latest_pointer::{
    LatestPointerSession, LatestPointerState, PointerPacket, PointerPacketError,
};
use borderless::protocol::{
    decode_frame, encode_frame, DragTransfer, Heartbeat, Hello, ProtocolError, WireMessage,
    MAX_PAYLOAD_LEN, PROTOCOL_VERSION,
};
use borderless::status::AppStatus;
use borderless::transport::{HostKind, TcpConnectionSettings};
use uuid::Uuid;

#[test]
fn duplicate_clipboard_change_from_same_source_is_ignored() {
    let source = Uuid::new_v4().as_u128();
    let change = ClipboardChangeId::new(source, 7);
    let mut guard = ClipboardLoopGuard::default();
    assert!(guard.accept(change));
    assert!(!guard.accept(change));
    assert!(guard.accept(ClipboardChangeId::new(source, 8)));
}

#[test]
fn file_clipboard_offer_reports_total_size() {
    let offer = ClipboardPayload::Files(RemoteFileOffer {
        transfer_id: Uuid::new_v4().as_u128(),
        files: vec![
            FileManifestEntry::file("a.txt", 10),
            FileManifestEntry::file("dir/b.txt", 20),
        ],
    });
    assert_eq!(offer.total_bytes(), 30);
}

#[test]
fn file_clipboard_offer_total_size_saturates_on_overflow() {
    let offer = ClipboardPayload::Files(RemoteFileOffer {
        transfer_id: Uuid::new_v4().as_u128(),
        files: vec![
            FileManifestEntry::file("huge.bin", u64::MAX),
            FileManifestEntry::file("another-byte.bin", 1),
        ],
    });
    assert_eq!(offer.total_bytes(), u64::MAX);
}

#[test]
fn identifiers_are_written_as_the_uuid_crate_writes_them() {
    let id = Uuid::from_u128(0x0123_4567_89ab_cdef_0123_4567_89ab_cdef);
    let mut session = DragDropSession::new(
        id.as_u128(),
        2,
        DragDirection::ControllerToAgent,
        Vec::new(),
    );
    let text = session.complete().unwrap_err().to_text();
    assert!(text.contains("01234567-89ab-cdef-0123-456789abcdef"), "{text}");
    assert!(text.contains(&id.to_string()), "{text}");
}

fn test_session(direction: DragDirection) -> DragDropSession {
    DragDropSession::new(1, 2, direction, vec!["C:\\src\\a.txt".to_string()])
}

fn test_target() -> DropTargetSummary {
    DropTargetSummary {
        display_name: "Desktop".to_string(),
        resolution_kind: DropResolutionKind::Desktop,
        authorization: 3,
    }
}

#[test]
fn both_directions_follow_the_same_happy_path() {
    for direction in [
        DragDirection::ControllerToAgent,
        DragDirection::AgentToController,
    ] {
        let mut session =
            DragDropSession::new(1, 2, direction, vec!["C:\\src\\report.pdf".to_string()]);
        session.begin_remote_target_selection().unwrap();
        session.release_at(Point::new(200, 300)).unwrap();
        session.resolve_target(test_target()).unwrap();
        session.begin_transfer().unwrap();
        session.complete().unwrap();
        assert_eq!(session.phase(), &DragDropPhase::Completed);
    }
}

#[test]
fn sent_bytes_do_not_complete_the_drag_session() {
    let mut session = test_session(DragDirection::ControllerToAgent);
    session.begin_remote_target_selection().unwrap();
    session.release_at(Point::new(10, 20)).unwrap();
    session.resolve_target(test_target()).unwrap();
    session.begin_transfer().unwrap();

    assert_eq!(session.phase(), &DragDropPhase::Transferring);
    assert!(!session.is_terminal());
}

#[test]
fn release_before_remote_selection_is_rejected() {
    let mut s = test_session(DragDirection::ControllerToAgent);
    assert!(s.release_at(Point::new(0, 0)).is_err());
    assert_eq!(*s.phase(), DragDropPhase::LocalDragDetected);
}

#[test]
fn transfer_requires_resolved_target() {
    let mut s = test_session(DragDirection::ControllerToAgent);
    s.begin_remote_target_selection().unwrap();
    assert!(s.begin_transfer().is_err());
}

#[test]
fn cancel_allowed_in_any_non_terminal_phase() {
    let mut s = test_session(DragDirection::ControllerToAgent);
    s.begin_remote_target_selection().unwrap();
    s.cancel("user cancelled".to_string()).unwrap();
    assert_eq!(
        *s.phase(),
        DragDropPhase::Cancelled {
            reason: "user cancelled".to_string()
        }
    );
    assert!(s.cancel("again".to_string()).is_err());
}

#[test]
fn fail_records_reason_and_is_terminal() {
    let mut s = test_session(DragDirection::AgentToController);
    s.begin_remote_target_selection().unwrap();
    s.release_at(Point::new(5, 5)).unwrap();
    s.fail("no destination resolved".to_string()).unwrap();
    assert_eq!(
        *s.phase(),
        DragDropPhase::Failed {
            reason: "no destination resolved".to_string()
        }
    );
    assert!(s.is_terminal());
    assert!(s.fail("again".to_string()).is_err());
}

#[test]
fn a_refused_step_names_the_session_and_the_phase() {
    let mut s = test_session(DragDirection::ControllerToAgent);
    s.cancel("say \"no\"\n".to_string()).unwrap();
    let error = s.begin_transfer().unwrap_err();
    assert_eq!(error.session_id, 1);
    let text = error.to_text();
    assert!(text.contains("00000000-0000-0000-0000-000000000001"), "{text}");
    assert!(text.contains(&format!("{:?}", "say \"no\"\n")), "{text}");
}

#[test]
fn encode_decode_hello_round_trips() {
    let msg = WireMessage::Hello(Hello {
        protocol_version: PROTOCOL_VERSION,
        desktop: Rect::new(0, 0, 1920, 1080),
    });
    let encoded = encode_frame(7, &msg).unwrap();
    let decoded = decode_frame(&encoded).unwrap();
    assert_eq!(decoded.sequence, 7);
    assert_eq!(decoded.message, msg);
}

#[test]
fn invalid_magic_is_rejected() {
    let mut encoded =
        encode_frame(1, &WireMessage::Heartbeat(Heartbeat { sent_millis: 1 })).unwrap();
    encoded[0] = 0;
    assert!(decode_frame(&encoded).is_err());
}

fn one_of_each_message() -> Vec<WireMessage> {
    let envelope = ClipboardEnvelope {
        change_id: ClipboardChangeId::new(9, 4),
        payload: ClipboardPayload::UnicodeText("héllo".to_string()),
    };
    let files = vec![
        FileManifestEntry::file("a.txt", 10),
        FileManifestEntry {
            relative_path: "dir".to_string(),
            size_bytes: 0,
            is_dir: true,
            blake3_hex: Some("ab".to_string()),
        },
    ];
    vec![
        WireMessage::Hello(Hello {
            protocol_version: PROTOCOL_VERSION,
            desktop: Rect::new(-5, -6, 1920, 1080),
        }),
        WireMessage::Input(InputEvent::Key(KeyEvent { vk_code: 0x41, pressed: true })),
        WireMessage::Input(InputEvent::MouseButton(MouseButtonEvent {
            button: MouseButton::X1,
            pressed: false,
        })),
        WireMessage::Input(InputEvent::MouseMoveAbs(MouseMoveAbsEvent { x: -1, y: 2 })),
        WireMessage::Input(InputEvent::MouseMoveDelta(MouseMoveDeltaEvent { dx: 3, dy: -4 })),
        WireMessage::Input(InputEvent::MouseWheel(MouseWheelEvent {
            delta: -120,
            horizontal: true,
        })),
        WireMessage::Input(InputEvent::ReleaseAll),
        WireMessage::Heartbeat(Heartbeat { sent_millis: 1 }),
        WireMessage::ReleaseAll,
        WireMessage::Error("boom".to_string()),
        WireMessage::ClipboardOffer(envelope.clone()),
        WireMessage::ClipboardData(ClipboardEnvelope {
            change_id: ClipboardChangeId::new(9, 5),
            payload: ClipboardPayload::ImagePng(vec![1, 2, 3]),
        }),
        WireMessage::ClipboardData(ClipboardEnvelope {
            change_id: ClipboardChangeId::new(9, 6),
            payload: ClipboardPayload::Files(RemoteFileOffer { transfer_id: 3, files: files.clone() }),
        }),
        WireMessage::FileTransferOffer(FileTransferManifest {
            transfer_id: 3,
            root_name: "root".to_string(),
            files,
            total_bytes: 10,
        }),
        WireMessage::DragDropStart(DragTransfer { session_id: 1, transfer_id: 2 }),
        WireMessage::DragDropCommit { session_id: 1 },
        WireMessage::DragDropCancel { session_id: 1, reason: "no".to_string() },
        WireMessage::PeerLayout { controller_remote_position: RemotePosition::Top },
        WireMessage::DragDropEntered { session_id: 1, transfer_id: 2, item_count: 3 },
        WireMessage::DragDropReleased { session_id: 1, point: Point::new(4, -5) },
        WireMessage::DragDropTargetResolved { session_id: 1, target: test_target() },
        WireMessage::DragDropTargetFailed { session_id: 1, reason: "gone".to_string() },
        WireMessage::DragDropTransferStarted { session_id: 1, transfer_id: 2 },
        WireMessage::DragDropTransferResult {
            session_id: 1,
            transfer_id: 2,
            ok: false,
            reason: Some("disk full".to_string()),
        },
    ]
}

#[test]
fn every_message_round_trips_and_frames_differ() {
    let messages = one_of_each_message();
    let mut frames = Vec::new();
    for message in &messages {
        let frame = encode_frame(3, message).unwrap();
        let decoded = decode_frame(&frame).unwrap();
        assert_eq!(decoded.sequence, 3);
        assert_eq!(&decoded.message, message);
        assert_eq!(&message.clone(), message);
        frames.push(frame);
    }
    for i in 0..frames.len() {
        for j in 0..i {
            assert_ne!(frames[i], frames[j]);
        }
    }
}

#[test]
fn broken_frames_are_told_apart() {
    let frame = encode_frame(1, &WireMessage::Heartbeat(Heartbeat { sent_millis: 1 })).unwrap();
    assert_eq!(decode_frame(&frame[..3]), Err(ProtocolError::ShortFrame));
    let mut magic = frame.clone();
    magic[0] = 0;
    assert_eq!(decode_frame(&magic), Err(ProtocolError::InvalidMagic));
    let mut version = frame.clone();
    version[5] = version[5].wrapping_add(1);
    assert_eq!(decode_frame(&version), Err(ProtocolError::VersionMismatch));
    let mut longer = frame.clone();
    longer.push(0);
    assert_eq!(decode_frame(&longer), Err(ProtocolError::LengthMismatch));
    let last = frame.len() - 1;
    assert!(matches!(
        decode_frame(&frame[..last]),
        Err(ProtocolError::LengthMismatch)
    ));
}

#[test]
fn too_large_messages_are_not_framed() {
    let message = WireMessage::ClipboardData(ClipboardEnvelope {
        change_id: ClipboardChangeId::new(1, 1),
        payload: ClipboardPayload::ImagePng(vec![0; MAX_PAYLOAD_LEN]),
    });
    match encode_frame(1, &message) {
        Err(ProtocolError::PayloadTooLarge { max, actual }) => {
            assert_eq!(max, MAX_PAYLOAD_LEN);
            assert!(actual > max);
        }
        other => panic!("expected an error, got {:?}", other.map(|frame| frame.len())),
    }
}

#[test]
fn stale_pointer_packets_are_ignored() {
    let mut state = LatestPointerState::default();

    assert_eq!(
        state.accept(PointerPacket { session_id: 7, sequence: 10, x: 100, y: 200 }),
        Some((100, 200))
    );
    assert_eq!(state.stale_pointer_packets(), 0);
    assert_eq!(
        state.accept(PointerPacket { session_id: 7, sequence: 9, x: 300, y: 400 }),
        None
    );
    assert_eq!(state.stale_pointer_packets(), 1);
    assert_eq!(
        state.accept(PointerPacket { session_id: 7, sequence: 11, x: 500, y: 600 }),
        Some((500, 600))
    );
    assert_eq!(state.stale_pointer_packets(), 1);
}

#[test]
fn new_pointer_session_accepts_sequence_one_after_previous_high_sequence() {
    let mut state = LatestPointerState::default();

    assert_eq!(
        state.accept(PointerPacket { session_id: 7, sequence: 900, x: 100, y: 200 }),
        Some((100, 200))
    );
    assert_eq!(
        state.accept(PointerPacket { session_id: 8, sequence: 1, x: 300, y: 400 }),
        Some((300, 400))
    );
}

#[test]
fn retired_pointer_session_packets_are_ignored_after_new_session() {
    let mut state = LatestPointerState::default();

    assert_eq!(
        state.accept(PointerPacket { session_id: 7, sequence: 900, x: 100, y: 200 }),
        Some((100, 200))
    );
    assert_eq!(
        state.accept(PointerPacket { session_id: 8, sequence: 1, x: 300, y: 400 }),
        Some((300, 400))
    );
    assert_eq!(
        state.accept(PointerPacket { session_id: 7, sequence: 901, x: 500, y: 600 }),
        None
    );
    assert_eq!(state.stale_pointer_packets(), 1);
}

#[test]
fn pointer_packet_round_trips() {
    let packet = PointerPacket { session_id: 123_456_789, sequence: 42, x: -10, y: 900 };
    let encoded = packet.encode();
    assert_eq!(PointerPacket::decode(&encoded).unwrap(), packet);
}

#[test]
fn broken_pointer_packets_are_refused() {
    let packet = PointerPacket { session_id: 1, sequence: 1, x: 1, y: 1 };
    let encoded = packet.encode();
    let short = PointerPacket::decode(&encoded[1..]).unwrap_err();
    assert_eq!(short, PointerPacketError::Length { actual: encoded.len() - 1 });
    let mut wrong = encoded.clone();
    wrong[0] ^= 0xff;
    assert!(matches!(
        PointerPacket::decode(&wrong),
        Err(PointerPacketError::Magic { .. })
    ));
}

#[test]
fn pointer_session_sequence_continues_above_persistent_receive_state_after_reconnect() {
    let mut session = LatestPointerSession::default();

    for sequence in 1..=50 {
        let packet = session.next_packet(sequence, sequence * 10);
        assert_eq!(packet.sequence, sequence as u64);
    }

    assert_eq!(
        session.accept(PointerPacket { session_id: 1, sequence: 50, x: 100, y: 200 }),
        Some((100, 200))
    );

    let post_reconnect = session.next_packet(51, 510);
    assert_eq!(post_reconnect.sequence, 51);
    assert_eq!(session.accept(post_reconnect), Some((51, 510)));
}

#[test]
fn reliable_reconnect_retires_current_inbound_session_before_new_udp_arrives() {
    let mut session = LatestPointerSession::default();
    let old_outbound = session.next_packet(1, 2);
    assert_eq!(old_outbound.sequence, 1);

    assert_eq!(
        session.accept(PointerPacket { session_id: 7, sequence: 50, x: 100, y: 200 }),
        Some((100, 200))
    );

    session.begin_reliable_session();

    let new_outbound = session.next_packet(3, 4);
    assert_ne!(new_outbound.session_id, old_outbound.session_id);
    assert_eq!(new_outbound.sequence, 1);

    assert_eq!(
        session.accept(PointerPacket { session_id: 7, sequence: 51, x: 300, y: 400 }),
        None
    );
    assert_eq!(session.stale_pointer_packets(), 1);
    assert_eq!(
        session.accept(PointerPacket { session_id: 8, sequence: 1, x: 500, y: 600 }),
        Some((500, 600))
    );
}

#[test]
fn event_log_keeps_recent_entries() {
    let mut status = AppStatus::default();
    for i in 0..150 {
        status.push_log(format!("event {i}"));
    }
    assert_eq!(status.events.len(), 100);
    assert_eq!(status.events.front().unwrap(), "event 50");
}

#[test]
fn event_log_accepts_str_messages() {
    let mut status = AppStatus::default();
    status.push_log("ready".to_string());

    assert_eq!(status.events.front().unwrap(), "ready");
}

#[test]
fn reset_runtime_fields_clears_live_metrics() {
    let mut status = AppStatus {
        transport_mode: Some(TransportMode::Kcp),
        last_error: Some("boom".to_string()),
        recent_rtt_ms: Some(10),
        average_rtt_ms: Some(20),
        stale_pointer_packets: 3,
        latest_pointer_sequence: Some(99),
        clipboard_enabled: true,
        last_clipboard_format: Some("text".to_string()),
        last_clipboard_bytes: Some(12),
        clipboard_ignored_reason: Some("too large".to_string()),
        transfer_active: true,
        transfer_id: Some(0),
        transfer_bytes_done: 1,
        transfer_bytes_total: 2,
        transfer_current_file: Some("a.txt".to_string()),
        mouse_diagnostics: Some("raw=1".to_string()),
        ..AppStatus::default()
    };

    status.reset_runtime_fields();

    assert_eq!(status.transport_mode, None);
    assert_eq!(status.last_error, None);
    assert_eq!(status.recent_rtt_ms, None);
    assert_eq!(status.average_rtt_ms, None);
    assert_eq!(status.stale_pointer_packets, 0);
    assert_eq!(status.latest_pointer_sequence, None);
    assert!(!status.clipboard_enabled);
    assert_eq!(status.last_clipboard_format, None);
    assert_eq!(status.last_clipboard_bytes, None);
    assert_eq!(status.clipboard_ignored_reason, None);
    assert!(!status.transfer_active);
    assert_eq!(status.transfer_id, None);
    assert_eq!(status.transfer_bytes_done, 0);
    assert_eq!(status.transfer_bytes_total, 0);
    assert_eq!(status.transfer_current_file, None);
    assert_eq!(status.mouse_diagnostics, None);
}

#[test]
fn record_rtt_tracks_recent_and_weighted_average() {
    let mut status = AppStatus::default();

    status.record_rtt(100);
    status.record_rtt(200);

    assert_eq!(status.recent_rtt_ms, Some(200));
    assert_eq!(status.average_rtt_ms, Some(125));
}

#[test]
fn tcp_settings_format_ipv4_and_ipv6_addresses() {
    let ipv4 = TcpConnectionSettings { host: "127.0.0.1".to_string(), port: 24800 };
    let ipv6 = TcpConnectionSettings { host: "::1".to_string(), port: 24800 };
    let name = TcpConnectionSettings { host: "desk.local".to_string(), port: 24800 };

    assert_eq!(ipv4.peer_addr(&HostKind::V4("127.0.0.1".to_string())), "127.0.0.1:24800");
    assert_eq!(ipv6.peer_addr(&HostKind::V6("::1".to_string())), "[::1]:24800");
    assert_eq!(name.peer_addr(&HostKind::Name), "desk.local:24800");
}
