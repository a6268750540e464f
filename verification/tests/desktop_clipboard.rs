use borderless::clipboard::{ClipboardChangeId, ClipboardPayload, RemoteFileOffer};
use borderless::clipboard_formats::{
    ensure_size_within_limit, hdrop_bytes, html_format_bytes, html_format_fits, html_of,
    nul_terminated_bytes, trim_trailing_nuls, unicode_text_bytes, unicode_text_of, wide_null,
    write_clipboard_data, ClipboardReadFormat,
};
use borderless::clipboard_reading::{
    clipboard_open_hwnd, clipboard_read_format_order, file_manifest_entry_for_path, hdrop_offer,
    open_clipboard_retry_delay, ClipboardEvent, ClipboardOpenMode, ClipboardReadOptions,
    ClipboardReader, FileFacts, LocalClipboard,
};
use borderless::file_transfer::FileManifestEntry;

#[test]
fn clipboard_write_open_requires_owner_window() {
    let owner: usize = 8;

    assert_eq!(clipboard_open_hwnd(ClipboardOpenMode::Read, None).unwrap(), 0);
    assert_eq!(clipboard_open_hwnd(ClipboardOpenMode::Write, Some(owner)).unwrap(), owner);
    assert!(clipboard_open_hwnd(ClipboardOpenMode::Write, None)
        .unwrap_err()
        .contains("owner window"));
    assert!(clipboard_open_hwnd(ClipboardOpenMode::Write, Some(0)).is_err());
}

#[test]
fn remote_write_suppression_is_active_before_write_operation_runs() {
    let mut clipboard = LocalClipboard::new(1);
    clipboard.record_local_suppress_window(1_000);

    let active_during_operation = clipboard.take_local_suppress_window(1_000);

    assert!(active_during_operation);
}

#[test]
fn remote_write_suppression_window_is_not_consumed_by_first_check_and_expires() {
    let mut clipboard = LocalClipboard::new(1);
    clipboard.record_local_suppress_window(1_000);

    assert!(clipboard.take_local_suppress_window(1_000));
    assert!(clipboard.take_local_suppress_window(1_750));

    assert!(!clipboard.take_local_suppress_window(1_751));
    assert!(!clipboard.take_local_suppress_window(1_000));
}

#[test]
fn open_clipboard_retry_delay_uses_short_bounded_backoff() {
    assert_eq!(open_clipboard_retry_delay(0), Some(2));
    assert_eq!(open_clipboard_retry_delay(1), Some(5));
    assert_eq!(open_clipboard_retry_delay(2), Some(10));
    assert_eq!(open_clipboard_retry_delay(3), None);
}

#[test]
fn default_read_options_enable_all_formats_with_requested_size_limit() {
    let options = ClipboardReadOptions::all_with_max_bytes(42);

    assert!(options.text);
    assert!(options.html);
    assert!(options.images);
    assert!(options.files);
    assert_eq!(options.max_bytes, 42);
    assert_eq!(ClipboardReadOptions::default().max_bytes, u64::MAX);
}

#[test]
fn read_policy_skips_disabled_higher_priority_formats() {
    let options = ClipboardReadOptions {
        text: true,
        html: false,
        images: false,
        files: false,
        max_bytes: 1024,
    };

    assert_eq!(
        clipboard_read_format_order(options),
        vec![ClipboardReadFormat::UnicodeText]
    );
}

#[test]
fn richer_formats_are_read_first() {
    assert_eq!(
        clipboard_read_format_order(ClipboardReadOptions::default()),
        vec![
            ClipboardReadFormat::Files,
            ClipboardReadFormat::Png,
            ClipboardReadFormat::Dib,
            ClipboardReadFormat::Html,
            ClipboardReadFormat::UnicodeText,
        ]
    );
    let mut reader = ClipboardReader::new(ClipboardReadOptions {
        text: true,
        html: true,
        images: false,
        files: false,
        max_bytes: 9,
    });
    assert_eq!(reader.next_format(), Some(ClipboardReadFormat::Html));
    assert_eq!(reader.on_read(Ok(None)), None);
    assert_eq!(reader.next_format(), Some(ClipboardReadFormat::UnicodeText));
    let found = Ok(Some(ClipboardPayload::UnicodeText("x".to_string())));
    assert_eq!(reader.on_read(found.clone()), Some(found));
    assert_eq!(reader.next_format(), None);

    let mut reader = ClipboardReader::new(ClipboardReadOptions::default());
    assert_eq!(
        reader.on_read(Err("too large".to_string())),
        Some(Err("too large".to_string()))
    );
}

#[test]
fn local_changes_are_numbered() {
    let mut clipboard = LocalClipboard::new(7);
    let text = || Ok(Some(ClipboardPayload::UnicodeText("x".to_string())));
    for sequence in 1..=2 {
        match clipboard.change_event(text()) {
            ClipboardEvent::Changed(envelope) => {
                assert_eq!(envelope.change_id, ClipboardChangeId::new(7, sequence))
            }
            other => panic!("expected a change, got {other:?}"),
        }
    }
    assert_eq!(
        clipboard.change_event(Ok(None)),
        ClipboardEvent::Ignored("clipboard contains no supported format".to_string())
    );
    assert_eq!(
        clipboard.change_event(Err("busy".to_string())),
        ClipboardEvent::Error("busy".to_string())
    );
    assert_eq!(
        clipboard.suppressed_event(),
        ClipboardEvent::Ignored("suppressed local clipboard echo".to_string())
    );
}

#[test]
fn text_is_wide_and_ends_with_a_zero() {
    let text = "a\u{e9}\u{4e2d}\u{1f600}";
    let mut units: Vec<u16> = text.encode_utf16().collect();
    units.push(0);
    assert_eq!(wide_null(text), units);
    let mut bytes = Vec::new();
    for unit in &units {
        bytes.extend_from_slice(&unit.to_le_bytes());
    }
    assert_eq!(unicode_text_bytes(text), bytes);
    units.extend_from_slice(&[0x41, 0x42]);
    assert_eq!(unicode_text_of(&units), text);
    assert_eq!(unicode_text_of(&vec![0xD800, 0x41]), "\u{fffd}A");
}

#[test]
fn html_has_a_header_that_points_at_the_fragment() {
    let html = "<b>h\u{e9}llo</b>";
    assert!(html_format_fits(html));
    let bytes = html_format_bytes(html);
    assert_eq!(bytes.last(), Some(&0));
    let text = html_of(&bytes);
    let number = |label: &str| -> usize {
        let start = text.find(label).unwrap() + label.len();
        text[start..start + 10].parse().unwrap()
    };
    assert!(text.starts_with("Version:0.9\r\n"));
    assert_eq!(&text[number("StartHTML:")..number("StartHTML:") + 6], "<html>");
    assert_eq!(number("EndHTML:"), text.len());
    assert_eq!(&text[number("StartFragment:")..number("EndFragment:")], html);

    let own = "Version:0.9 and so on";
    assert_eq!(html_format_bytes(own), nul_terminated_bytes(own.as_bytes()));
    assert_eq!(html_of(&vec![b'a', 0xff, 0, 0]), "a\u{fffd}");
}

#[test]
fn zeros_at_the_end() {
    assert_eq!(nul_terminated_bytes(b"a"), b"a\0");
    assert_eq!(nul_terminated_bytes(b"a\0"), b"a\0");
    assert_eq!(nul_terminated_bytes(b""), b"\0");
    assert_eq!(trim_trailing_nuls(b"a\0b\0\0"), b"a\0b");
    assert_eq!(trim_trailing_nuls(b"\0\0"), b"");
}

#[test]
fn files_are_listed_behind_a_head() {
    let files = vec![FileManifestEntry::file("C:\\a", 1), FileManifestEntry::file("b", 2)];
    let bytes = hdrop_bytes(&files);
    assert_eq!(&bytes[..20], &[20, 0, 0, 0, 0, 0, 0, 0, 0, 0, 0, 0, 0, 0, 0, 0, 1, 0, 0, 0]);
    let mut units: Vec<u16> = "C:\\a".encode_utf16().collect();
    units.push(0);
    units.extend("b".encode_utf16());
    units.push(0);
    units.push(0);
    let expected: Vec<u8> = units.iter().flat_map(|unit| unit.to_le_bytes()).collect();
    assert_eq!(&bytes[20..], &expected[..]);
    assert_eq!(
        write_clipboard_data(&ClipboardPayload::Files(RemoteFileOffer { transfer_id: 1, files })),
        (ClipboardReadFormat::Files, bytes)
    );
    assert_eq!(
        write_clipboard_data(&ClipboardPayload::ImageDib(vec![1, 2])),
        (ClipboardReadFormat::Dib, vec![1, 2])
    );
}

#[test]
fn sizes_are_limited() {
    assert_eq!(ensure_size_within_limit(4, 4, "clipboard text"), Ok(()));
    assert_eq!(
        ensure_size_within_limit(5, 4, "clipboard text"),
        Err("clipboard text is 5 bytes, limit is 4".to_string())
    );
}

#[test]
fn files_on_the_clipboard_become_an_offer() {
    let file = file_manifest_entry_for_path("C:\\a", Some(FileFacts { is_dir: false, len: 9 }), false);
    assert_eq!(file, FileManifestEntry::file("C:\\a", 9));
    let dir = file_manifest_entry_for_path("C:\\d", Some(FileFacts { is_dir: true, len: 9 }), false);
    assert_eq!((dir.is_dir, dir.size_bytes), (true, 0));
    assert!(file_manifest_entry_for_path("C:\\d", None, true).is_dir);
    assert_eq!(hdrop_offer(3, Vec::new()), None);
    assert_eq!(
        hdrop_offer(3, vec![file.clone()]),
        Some(RemoteFileOffer { transfer_id: 3, files: vec![file] })
    );
}
