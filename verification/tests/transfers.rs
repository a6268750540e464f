use borderless::bulk_events::{BulkTransferCommand, BulkTransferEvent};
use borderless::bulk_wire::{
    bulk_frame_len, decode_bulk, encode_bulk_frame, BulkWireMessage, CHUNK_SIZE,
    MAX_BULK_FRAME_LEN,
};
use borderless::drop_authorization::DropAuthorizationRegistry;
use borderless::file_sender::{FileSender, SendEvent, SendWish};
use borderless::file_transfer::{FileChunk, FileManifestEntry, FileTransferManifest};
use borderless::hashing::FileDigest;
use borderless::paths::{
    rename_conflict, safe_relative_path, temp_part_name, top_level_component,
    top_level_relative_paths, transfer_root_name, unique_relative_root, with_slashes, NameSearch,
};
use borderless::receiving::{
    resolved_cache_path, CancelledTransfers, IncomingStep, IncomingTransfers, ResolvedRoot,
};
use borderless::root_names::ManifestRoots;
use borderless::sending::{
    handle_session_command, queue_command, OutgoingTransfer, WriterCommand,
};
use borderless::sources::{
    expand_sources, manifest_from_source_paths, source_roots, SourceChild, SourceFile, SourceKind,
    SourceTree,
};
use std::collections::VecDeque;

#[test]
fn conflict_names_are_renamed_without_overwrite() {
    assert_eq!(rename_conflict("report.txt", 1), "report (Borderless 1).txt");
    assert_eq!(rename_conflict("archive", 2), "archive (Borderless 2)");
}

fn docs_tree() -> SourceTree {
    SourceTree {
        path: "/tmp/source/docs".to_string(),
        is_dir: true,
        size_bytes: 0,
        children: vec![
            SourceChild {
                child_path: "nested".to_string(),
                path: "/tmp/source/docs/nested".to_string(),
                kind: SourceKind::Directory,
                size_bytes: 0,
            },
            SourceChild {
                child_path: "nested/note.txt".to_string(),
                path: "/tmp/source/docs/nested/note.txt".to_string(),
                kind: SourceKind::File,
                size_bytes: 4,
            },
        ],
    }
}

#[test]
fn expanded_directory_sources_keep_top_level_folder_name() {
    let roots = source_roots(&vec!["/tmp/source/docs".to_string()]).unwrap();
    let files = expand_sources(&roots, &vec![docs_tree()]);

    assert_eq!(files.len(), 1);
    assert_eq!(files[0].relative_path, "docs/nested/note.txt");
    assert_eq!(files[0].path, "/tmp/source/docs/nested/note.txt");
}

#[test]
fn manifest_from_source_paths_expands_folders_and_totals_file_bytes() {
    let mut tree = docs_tree();
    tree.children.push(SourceChild {
        child_path: "root.txt".to_string(),
        path: "/tmp/source/docs/root.txt".to_string(),
        kind: SourceKind::File,
        size_bytes: 9,
    });
    let transfer_id = 77;

    let manifest =
        manifest_from_source_paths(transfer_id, &vec!["/tmp/source/docs".to_string()], &vec![tree])
            .unwrap();

    assert_eq!(manifest.transfer_id, transfer_id);
    assert_eq!(manifest.root_name, "docs");
    assert_eq!(manifest.total_bytes, 13);
    assert!(manifest
        .files
        .iter()
        .any(|entry| entry.relative_path == "docs" && entry.is_dir));
    assert!(manifest
        .files
        .iter()
        .any(|entry| entry.relative_path == "docs/nested" && entry.is_dir));
    assert!(manifest
        .files
        .iter()
        .any(|entry| entry.relative_path == "docs/nested/note.txt" && entry.size_bytes == 4));
    assert!(manifest
        .files
        .iter()
        .any(|entry| entry.relative_path == "docs/root.txt" && entry.size_bytes == 9));
}

#[test]
fn sources_of_one_name_get_roots_of_their_own() {
    let roots = source_roots(&vec!["/a/note.txt".to_string(), "/b/note.txt".to_string()]).unwrap();
    assert_eq!(roots, vec!["note.txt".to_string(), "note (Borderless 1).txt".to_string()]);
    let mut used = vec!["x".to_string()];
    assert_eq!(unique_relative_root("x", &mut used), "x (Borderless 1)");
    assert_eq!(used.len(), 2);
    assert_eq!(transfer_root_name(&vec!["/a/note.txt".to_string()]), "note.txt");
}

fn cached_roots() -> Vec<ResolvedRoot> {
    ["foo", "docs", "a", "C:"]
        .iter()
        .map(|root| ResolvedRoot {
            root: root.to_string(),
            file_name: root.to_string(),
            path: format!("/cache/{root}"),
        })
        .collect()
}

#[test]
fn what_arrives_is_written_below_its_root() {
    let target = resolved_cache_path(&cached_roots(), "docs/nested\\./note.txt").unwrap();
    assert_eq!(target.root_path, "/cache/docs");
    assert_eq!(target.parts, vec!["nested", "note.txt"]);
    assert_eq!(target.file_name, "note.txt");
    let target = resolved_cache_path(&cached_roots(), "./foo").unwrap();
    assert_eq!(target.root_path, "/cache/foo");
    assert!(target.parts.is_empty());
    assert_eq!(target.file_name, "foo");
    assert_eq!(
        resolved_cache_path(&cached_roots(), "bar/x"),
        Err("resolved root missing for bar".to_string())
    );
}

#[test]
fn names_in_the_cache_lead_down() {
    let mut roots = ManifestRoots::resolve_manifest_roots(vec!["ab:c.txt".to_string()]);
    assert_eq!(roots.available_top_level_path().as_deref(), Some("ab:c.txt"));
    roots.path_checked(true);
    let name = roots.available_top_level_path().unwrap();
    assert_eq!(name, "ab:c (Borderless 1).txt");
    assert_eq!(safe_relative_path(&name), Ok(vec![name.clone()]));
}

#[test]
fn names_are_split_as_std_splits_them() {
    let names = [
        "a", "a.txt", ".hidden", ".hidden.txt", "a.", "a..", "..a", "...", "a.b.c", "dir/a.txt",
        "dir.d/a", "a/..", "..", ".", "/", "a/.", "a.txt/", "C:\\a.txt", "a\\b.txt", "x:y.z",
        "\\\\host\\share\\a.txt",
    ];
    for name in names {
        let path = std::path::Path::new(name);
        let stem = path.file_stem().and_then(|stem| stem.to_str()).unwrap_or(name);
        let expected = match path.extension().and_then(|extension| extension.to_str()) {
            Some(extension) if !extension.is_empty() => format!("{stem} (Borderless 3).{extension}"),
            _ => format!("{stem} (Borderless 3)"),
        };
        assert_eq!(rename_conflict(name, 3), expected, "{name}");
    }
}

#[test]
fn unsafe_paths_are_refused() {
    assert_eq!(
        safe_relative_path("docs/nested/note.txt").unwrap(),
        vec!["docs".to_string(), "nested".to_string(), "note.txt".to_string()]
    );
    assert_eq!(
        safe_relative_path("docs\\./note.txt").unwrap(),
        vec!["docs".to_string(), "note.txt".to_string()]
    );
    for path in ["../note.txt", "docs/../../note.txt", "/note.txt", "\\note.txt", "C:\\note.txt", ""] {
        assert!(safe_relative_path(path).is_err(), "{path}");
    }
    for path in ["foo/C:/bar", "foo/D:x", "./C:/x", "a/C:", "docs\\z:note.txt"] {
        let refused = format!("relative path has no top-level component: {path}");
        assert_eq!(safe_relative_path(path), Err(refused.clone()));
        assert_eq!(top_level_component(path), Err(refused.clone()));
        assert_eq!(resolved_cache_path(&cached_roots(), path), Err(refused.clone()));
        let files = vec![FileManifestEntry::file(path, 1)];
        assert_eq!(top_level_relative_paths(&files), Err(refused));
    }
    assert_eq!(
        safe_relative_path("foo/C:/../bar"),
        Err("unsafe relative path: foo/C:/../bar".to_string())
    );
    assert_eq!(
        safe_relative_path("foo/ab:c/1:2").unwrap(),
        vec!["foo".to_string(), "ab:c".to_string(), "1:2".to_string()]
    );
    assert_eq!(top_level_component("docs/a").unwrap(), "docs");
    assert_eq!(with_slashes("a\\b"), "a/b");
    assert!(temp_part_name("note.txt").contains("note.txt"));
    assert_ne!(temp_part_name("note.txt"), "note.txt");
}

#[test]
fn a_free_name_is_searched_for() {
    let mut search = NameSearch::new("docs.tar.gz");
    assert_eq!(search.candidate(), "docs.tar.gz");
    assert!(search.can_go_on());
    search.taken();
    assert_eq!(search.candidate(), "docs.tar (Borderless 1).gz");
    search.skip_reserved(&vec!["docs.tar (Borderless 1).gz".to_string()]);
    assert_eq!(search.candidate(), "docs.tar (Borderless 2).gz");
}

#[test]
fn digests_are_those_of_the_hash_crate() {
    let mut digest = FileDigest::new();
    assert!(digest.has_room_for(5));
    digest.update(b"bulk ");
    digest.update(b"transfer payload");
    assert_eq!(
        digest.hex(),
        blake3::hash(b"bulk transfer payload").to_hex().to_string()
    );
    assert_ne!(digest.hex(), FileDigest::new().hex());
}

fn note_manifest() -> FileTransferManifest {
    FileTransferManifest {
        transfer_id: 5,
        root_name: "note.txt".to_string(),
        files: vec![FileManifestEntry::file("note.txt", 21)],
        total_bytes: 21,
    }
}

#[test]
fn bulk_messages_round_trip() {
    let messages = vec![
        BulkWireMessage::Manifest(note_manifest()),
        BulkWireMessage::FileHeader {
            transfer_id: 5,
            relative_path: "note.txt".to_string(),
            size_bytes: 21,
            blake3_hex: "ab".to_string(),
        },
        BulkWireMessage::Chunk(FileChunk {
            transfer_id: 5,
            relative_path: "note.txt".to_string(),
            offset: 3,
            bytes: vec![1, 2, 3],
            blake3_hex: "cd".to_string(),
        }),
        BulkWireMessage::FileComplete {
            transfer_id: 5,
            relative_path: "note.txt".to_string(),
            blake3_hex: "ab".to_string(),
        },
        BulkWireMessage::TransferComplete { transfer_id: 5 },
        BulkWireMessage::Cancel { transfer_id: 5 },
    ];
    for message in messages {
        let frame = encode_bulk_frame(&message).unwrap();
        let len = bulk_frame_len(u32::from_be_bytes([frame[0], frame[1], frame[2], frame[3]]));
        assert_eq!(len, Ok(frame.len() - 4));
        assert_eq!(decode_bulk(&frame[4..]).unwrap(), message);
        assert!(decode_bulk(&frame[4..frame.len() - 1]).is_err());
    }
    assert!(bulk_frame_len(u32::MAX).is_err());
    assert!(CHUNK_SIZE < MAX_BULK_FRAME_LEN);
}

#[test]
fn too_large_bulk_messages_are_not_framed() {
    let chunk = BulkWireMessage::Chunk(FileChunk {
        transfer_id: 5,
        relative_path: "note.txt".to_string(),
        offset: 0,
        bytes: vec![0; MAX_BULK_FRAME_LEN],
        blake3_hex: String::new(),
    });
    assert!(encode_bulk_frame(&chunk).is_err());
}

fn cache_root(name: &str) -> ResolvedRoot {
    ResolvedRoot {
        root: "note.txt".to_string(),
        file_name: name.to_string(),
        path: format!("/cache/{name}"),
    }
}

/// Announces a transfer, as a receiver does whose cache is `/cache`.
fn announce(
    incoming: &mut IncomingTransfers,
    cancelled: &mut CancelledTransfers,
    manifest: FileTransferManifest,
    root: ResolvedRoot,
) {
    match incoming.on_message(BulkWireMessage::Manifest(manifest), cancelled) {
        IncomingStep::ResolveRoots { manifest, roots } => {
            assert_eq!(roots, vec![root.root.clone()]);
            incoming.book.handle_manifest(&manifest, vec![root]).unwrap();
        }
        _ => panic!("expected an announcement"),
    }
}

#[test]
fn a_transfer_arrives_under_a_free_name() {
    let content = b"bulk transfer payload".to_vec();
    let hash = blake3::hash(&content).to_hex().to_string();
    let mut cancelled = CancelledTransfers::default();
    let mut incoming = IncomingTransfers::new();
    announce(&mut incoming, &mut cancelled, note_manifest(), cache_root("note (Borderless 1).txt"));

    let (mut outgoing, first) = OutgoingTransfer::begin(&note_manifest());
    assert_eq!(first, BulkWireMessage::Manifest(note_manifest()));
    let header = outgoing.begin_file("note.txt".to_string(), 21, hash.clone());
    assert!(matches!(incoming.on_message(header, &mut cancelled), IncomingStep::OpenFile));
    assert_eq!(
        incoming.active.as_ref().unwrap().target().file_name,
        "note (Borderless 1).txt"
    );
    let mut written = Vec::new();
    for part in content.chunks(8) {
        let (message, progress) = outgoing.next_chunk(part.to_vec());
        assert!(matches!(progress, BulkTransferEvent::Progress { bytes_total: 21, .. }));
        match incoming.on_message(message, &mut cancelled) {
            IncomingStep::WriteChunk(chunk) => {
                written.extend_from_slice(&chunk.bytes);
                let done = written.len() as u64;
                assert_eq!(
                    incoming.chunk_written(&chunk),
                    Some(BulkTransferEvent::Progress {
                        transfer_id: 5,
                        bytes_done: done,
                        bytes_total: 21,
                        current_file: "note.txt".to_string(),
                    })
                );
            }
            _ => panic!("expected a chunk"),
        }
    }
    assert_eq!(written, content);
    match incoming.on_message(outgoing.end_file(), &mut cancelled) {
        IncomingStep::FinishFile { file, transfer_id, relative_path, blake3_hex } => {
            file.complete_receive_file(&blake3_hex, false).unwrap();
            assert_eq!(
                file.complete_receive_file(&blake3_hex, true),
                Err("cache path appeared before final rename".to_string())
            );
            assert_eq!(
                incoming.book.file_completed(transfer_id, &relative_path),
                Some(BulkTransferEvent::Completed {
                    transfer_id: 5,
                    cache_paths: vec!["/cache/note (Borderless 1).txt".to_string()],
                })
            );
        }
        _ => panic!("expected the end of the file"),
    }
    let (last, sent) = outgoing.finish();
    assert_eq!(sent, BulkTransferEvent::Sent { transfer_id: 5 });
    assert!(matches!(incoming.on_message(last, &mut cancelled), IncomingStep::Go(None)));
}

#[test]
fn content_that_was_not_announced_is_refused() {
    let mut cancelled = CancelledTransfers::default();
    let mut incoming = IncomingTransfers::new();
    announce(&mut incoming, &mut cancelled, note_manifest(), cache_root("note.txt"));
    let (mut outgoing, _) = OutgoingTransfer::begin(&note_manifest());
    let header = outgoing.begin_file("other.txt".to_string(), 21, String::new());
    assert!(matches!(
        incoming.on_message(header, &mut cancelled),
        IncomingStep::Fail { transfer_id: 5, .. }
    ));
    let header = outgoing.begin_file("note.txt".to_string(), 21, String::new());
    assert!(matches!(incoming.on_message(header, &mut cancelled), IncomingStep::OpenFile));
    let (message, _) = outgoing.next_chunk(vec![1, 2, 3]);
    let BulkWireMessage::Chunk(chunk) = message else {
        panic!("expected a chunk");
    };
    let refused = |change: fn(&mut FileChunk)| {
        let mut changed = FileChunk {
            transfer_id: chunk.transfer_id,
            relative_path: chunk.relative_path.clone(),
            offset: chunk.offset,
            bytes: chunk.bytes.clone(),
            blake3_hex: chunk.blake3_hex.clone(),
        };
        change(&mut changed);
        incoming.active.as_ref().unwrap().check_chunk(&changed).unwrap_err()
    };
    assert_eq!(refused(|chunk| chunk.transfer_id = 6), "chunk transfer id mismatch");
    assert_eq!(
        refused(|chunk| chunk.relative_path = "x".to_string()),
        "chunk relative path mismatch"
    );
    assert_eq!(refused(|chunk| chunk.offset = 1), "chunk offset mismatch");
    assert_eq!(refused(|chunk| chunk.bytes[0] = 9), "chunk checksum mismatch");
    assert!(incoming.active.as_ref().unwrap().check_chunk(&chunk).is_ok());
    let active = incoming.active.as_ref().unwrap();
    assert_eq!(active.check_end(6, "note.txt").unwrap_err(), "file transfer id mismatch");
    assert_eq!(active.check_end(5, "x").unwrap_err(), "file relative path mismatch");
    assert_eq!(active.check_end(5, "note.txt").unwrap_err(), "file size mismatch");
    assert_eq!(
        active.complete_receive_file("", false).unwrap_err(),
        "file checksum mismatch"
    );
}

#[test]
fn cancelled_transfers_are_not_written() {
    let mut cancelled = CancelledTransfers::default();
    let mut incoming = IncomingTransfers::new();
    announce(&mut incoming, &mut cancelled, note_manifest(), cache_root("note.txt"));
    let (mut outgoing, _) = OutgoingTransfer::begin(&note_manifest());
    let header = outgoing.begin_file("note.txt".to_string(), 21, String::new());
    assert!(matches!(incoming.on_message(header, &mut cancelled), IncomingStep::OpenFile));
    let (cancel, event) = outgoing.cancel();
    assert_eq!(event, BulkTransferEvent::Cancelled(5));
    assert!(matches!(
        incoming.on_message(cancel, &mut cancelled),
        IncomingStep::Go(Some(BulkTransferEvent::Cancelled(5)))
    ));
    assert!(cancelled.is_cancelled(5));
    let (chunk, _) = outgoing.next_chunk(vec![1]);
    assert!(matches!(incoming.on_message(chunk, &mut cancelled), IncomingStep::Go(None)));
}

#[test]
fn an_empty_directory_is_complete_at_once() {
    let mut cancelled = CancelledTransfers::default();
    let mut incoming = IncomingTransfers::new();
    let manifest = FileTransferManifest {
        transfer_id: 8,
        root_name: "empty-docs".to_string(),
        files: vec![FileManifestEntry {
            relative_path: "empty-docs".to_string(),
            size_bytes: 0,
            is_dir: true,
            blake3_hex: None,
        }],
        total_bytes: 0,
    };
    assert_eq!(top_level_relative_paths(&manifest.files).unwrap(), vec!["empty-docs".to_string()]);
    let root = ResolvedRoot {
        root: "empty-docs".to_string(),
        file_name: "empty-docs".to_string(),
        path: "/cache/empty-docs".to_string(),
    };
    announce(&mut incoming, &mut cancelled, manifest, root);
    assert!(matches!(
        incoming.on_message(BulkWireMessage::TransferComplete { transfer_id: 8 }, &mut cancelled),
        IncomingStep::Go(Some(BulkTransferEvent::Completed { transfer_id: 8, cache_paths }))
            if cache_paths == vec!["/cache/empty-docs".to_string()]
    ));
    assert!(matches!(
        incoming.on_message(BulkWireMessage::TransferComplete { transfer_id: 8 }, &mut cancelled),
        IncomingStep::Go(None)
    ));
}

#[test]
fn commands_wait_until_a_peer_is_there() {
    let mut pending = VecDeque::new();
    assert!(!queue_command(BulkTransferCommand::SendManifest(note_manifest()), &mut pending));
    assert_eq!(pending.len(), 1);
    assert!(queue_command(BulkTransferCommand::Stop, &mut pending));
}

#[test]
fn commands_reach_the_writer() {
    let mut cancelled = CancelledTransfers::default();
    let outcome = handle_session_command(BulkTransferCommand::Cancel(5), &mut cancelled);
    assert_eq!(outcome.writer, WriterCommand::Frame(BulkWireMessage::Cancel { transfer_id: 5 }));
    assert_eq!(outcome.event, Some(BulkTransferEvent::Cancelled(5)));
    assert!(!outcome.stop);
    assert!(cancelled.is_cancelled(5));
    let outcome = handle_session_command(BulkTransferCommand::Stop, &mut cancelled);
    assert_eq!(outcome.writer, WriterCommand::Stop);
    assert!(outcome.stop);
}

#[test]
fn authorization_is_bound_to_session_transfer_and_consumed_once() {
    let mut registry = DropAuthorizationRegistry::default();
    let session_id = 1;
    let transfer_id = 2;
    let token = registry.register(
        session_id,
        transfer_id,
        "C:\\Users\\demo\\Desktop".to_string(),
        0,
        30_000,
    );

    assert!(registry
        .consume(session_id, transfer_id, token, 0)
        .unwrap()
        .ends_with("Desktop"));
    assert!(registry.consume(session_id, transfer_id, token, 0).is_err());
}

#[test]
fn wrong_transfer_id_does_not_consume_authorization() {
    let mut registry = DropAuthorizationRegistry::default();
    let session_id = 1;
    let transfer_id = 2;
    let token = registry.register(session_id, transfer_id, "C:\\drop".to_string(), 0, 30_000);

    assert!(registry.consume(session_id, 99, token, 0).is_err());
    assert!(registry.consume(session_id, transfer_id, token, 0).is_ok());
}

#[test]
fn revoke_session_removes_all_authorizations() {
    let mut registry = DropAuthorizationRegistry::default();
    let session_id = 1;
    let transfer_id = 2;
    let token = registry.register(session_id, transfer_id, "C:\\drop".to_string(), 0, 30_000);
    registry.revoke_session(session_id);
    assert!(registry.consume(session_id, transfer_id, token, 0).is_err());
}

#[test]
fn purge_expired_returns_each_affected_session_once() {
    let mut registry = DropAuthorizationRegistry::default();
    let expired_session = 1;
    let live_session = 2;
    let transfer_id = 3;
    let expired =
        registry.register(expired_session, transfer_id, "C:\\expired".to_string(), 0, 0);
    registry.register(expired_session, 4, "C:\\expired-two".to_string(), 0, 0);
    let live = registry.register(live_session, transfer_id, "C:\\live".to_string(), 0, 60_000);

    let sessions = registry.purge_expired(1_000);

    assert_eq!(sessions, vec![expired_session]);
    assert!(registry.consume(expired_session, transfer_id, expired, 1_000).is_err());
    assert!(registry.consume(live_session, transfer_id, live, 1_000).is_ok());
}

#[test]
fn every_permission_has_a_token_of_its_own() {
    let mut registry = DropAuthorizationRegistry::default();
    let first = registry.register(1, 2, "a".to_string(), 0, 10);
    let second = registry.register(1, 2, "b".to_string(), 0, 10);
    assert_ne!(first, second);
    assert!(registry.consume(1, 2, second, 11).is_err());
    registry.clear();
    assert!(registry.consume(1, 2, first, 0).is_err());
}

#[test]
fn roots_get_free_names_in_the_cache() {
    let roots = vec!["a.txt".to_string(), "b".to_string(), "a.txt".to_string()];
    let mut search = ManifestRoots::resolve_manifest_roots(roots);
    let present = ["a.txt", "b", "b (Borderless 1)"];
    let mut asked = Vec::new();
    while let Some(name) = search.available_top_level_path() {
        assert!(search.can_check());
        search.path_checked(present.contains(&name.as_str()));
        asked.push(name);
    }
    assert!(!search.can_check());
    assert_eq!(
        asked,
        vec![
            "a.txt",
            "a (Borderless 1).txt",
            "b",
            "b (Borderless 1)",
            "b (Borderless 2)",
            "a.txt",
            "a (Borderless 1).txt",
            "a (Borderless 2).txt",
        ]
    );
    assert_eq!(
        search.into_names(),
        vec!["a (Borderless 1).txt", "b (Borderless 2)", "a (Borderless 2).txt"]
    );
}

fn source_file(name: &str, size_bytes: u64) -> SourceFile {
    SourceFile { relative_path: name.to_string(), path: format!("/src/{name}"), size_bytes }
}

fn two_files() -> (FileTransferManifest, Vec<SourceFile>) {
    let manifest = FileTransferManifest {
        transfer_id: 3,
        root_name: "docs".to_string(),
        files: vec![FileManifestEntry::file("a", 5), FileManifestEntry::file("b", 0)],
        total_bytes: 5,
    };
    (manifest, vec![source_file("a", 5), source_file("b", 0)])
}

#[test]
fn files_are_sent_one_after_the_other() {
    let (manifest, files) = two_files();
    let (mut sender, first) = FileSender::send_files(&manifest, files);
    let mut frames = vec![first];
    let mut reports = Vec::new();
    let mut pieces = vec![Vec::new(), Vec::new(), b"lo".to_vec(), b"hel".to_vec()];
    loop {
        let event = match sender.wish(false) {
            SendWish::Hash { path } => SendEvent::Hashed(format!("hash of {path}")),
            SendWish::Read { .. } => SendEvent::Read(pieces.pop().unwrap()),
            SendWish::Finish => SendEvent::NoFileLeft,
            SendWish::CallOff => panic!("nobody called the transfer off"),
            SendWish::Nothing => break,
        };
        let step = sender.step(event).unwrap();
        frames.push(step.frame);
        reports.extend(step.report);
    }

    let header = |name: &str, size_bytes: u64| BulkWireMessage::FileHeader {
        transfer_id: 3,
        relative_path: name.to_string(),
        size_bytes,
        blake3_hex: format!("hash of /src/{name}"),
    };
    let chunk = |offset: u64, bytes: &[u8]| {
        BulkWireMessage::Chunk(FileChunk {
            transfer_id: 3,
            relative_path: "a".to_string(),
            offset,
            bytes: bytes.to_vec(),
            blake3_hex: blake3::hash(bytes).to_hex().to_string(),
        })
    };
    let end = |name: &str| BulkWireMessage::FileComplete {
        transfer_id: 3,
        relative_path: name.to_string(),
        blake3_hex: format!("hash of /src/{name}"),
    };
    assert_eq!(
        frames,
        vec![
            BulkWireMessage::Manifest(manifest),
            header("a", 5),
            chunk(0, b"hel"),
            chunk(3, b"lo"),
            end("a"),
            header("b", 0),
            end("b"),
            BulkWireMessage::TransferComplete { transfer_id: 3 },
        ]
    );
    let progress = |bytes_done: u64| BulkTransferEvent::Progress {
        transfer_id: 3,
        bytes_done,
        bytes_total: 5,
        current_file: "a".to_string(),
    };
    assert_eq!(reports, vec![progress(3), progress(5), BulkTransferEvent::Sent { transfer_id: 3 }]);
}

#[test]
fn a_transfer_is_called_off_before_a_file_or_a_read() {
    let (manifest, files) = two_files();
    let (mut sender, _) = FileSender::send_files(&manifest, files);
    assert_eq!(sender.wish(true), SendWish::CallOff);
    sender.step(SendEvent::Hashed("h".to_string())).unwrap();
    assert_eq!(sender.wish(true), SendWish::CallOff);
    let step = sender.step(SendEvent::CalledOff).unwrap();
    assert_eq!(step.frame, BulkWireMessage::Cancel { transfer_id: 3 });
    assert_eq!(step.report, Some(BulkTransferEvent::Cancelled(3)));
    assert_eq!(sender.wish(false), SendWish::Nothing);
    assert_eq!(sender.step(SendEvent::NoFileLeft), None);

    let (mut sender, _) = FileSender::send_files(&manifest, Vec::new());
    assert_eq!(sender.wish(true), SendWish::Finish);
    assert_eq!(sender.step(SendEvent::CalledOff), None);
}

#[test]
fn events_out_of_place_change_nothing() {
    let (manifest, files) = two_files();
    let (mut sender, _) = FileSender::send_files(&manifest, files);
    assert_eq!(sender.step(SendEvent::Read(b"x".to_vec())), None);
    assert_eq!(sender.step(SendEvent::NoFileLeft), None);
    sender.step(SendEvent::Hashed("h".to_string())).unwrap();
    assert_eq!(sender.step(SendEvent::Hashed("h".to_string())), None);
    assert_eq!(sender.step(SendEvent::Read(vec![0; CHUNK_SIZE + 1])), None);
    assert!(sender.step(SendEvent::Read(vec![0; CHUNK_SIZE])).is_some());
}

#[test]
fn sources_travel_under_the_last_part_of_their_path() {
    let roots = |paths: &[&str]| source_roots(&paths.iter().map(|path| path.to_string()).collect());
    assert_eq!(roots(&["/tmp/docs"]).unwrap(), vec!["docs"]);
    assert_eq!(roots(&["/tmp/docs/", "a/./b/."]).unwrap(), vec!["docs", "b"]);
    assert_eq!(
        roots(&["/x/note.txt", "/y/note.txt"]).unwrap(),
        vec!["note.txt", "note (Borderless 1).txt"]
    );
    assert_eq!(roots(&["/tmp/.."]), Err("source path has no name: /tmp/..".to_string()));
    assert_eq!(roots(&["a", "/"]), Err("source path has no name: /".to_string()));
    assert_eq!(roots(&["."]), Err("source path has no name: .".to_string()));
    assert_eq!(transfer_root_name(&vec!["/".to_string()]), "clipboard-files");
    assert_eq!(rename_conflict("dir/a.txt", 2), "a (Borderless 2).txt");
    assert_eq!(rename_conflict("..", 2), ".. (Borderless 2)");
}
