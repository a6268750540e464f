//! The wire notation of the values that messages are made of.
use crate::clipboard::{
    ClipboardChangeId, ClipboardEnvelope, ClipboardEnvelopeView, ClipboardPayload,
    ClipboardPayloadView, RemoteFileOffer, RemoteFileOfferView,
};
use crate::config::RemotePosition;
use crate::drag_drop::{DropResolutionKind, DropTargetSummary, DropTargetView};
use crate::file_transfer::{
    FileManifestEntry, FileManifestEntryView, FileTransferManifest, FileTransferManifestView,
};
use crate::geometry::{Point, Rect};
use crate::input_event::{
    InputEvent, KeyEvent, MouseButton, MouseButtonEvent, MouseMoveAbsEvent, MouseMoveDeltaEvent,
    MouseWheelEvent,
};
use crate::octets::{bits32, le_bytes};
use crate::text::views;
use crate::wire::{
    blob_bytes, flag_bytes, id_bytes, lemma_blob, lemma_flag, lemma_i32, lemma_id, lemma_opt_text,
    lemma_text, lemma_u16, lemma_u32, lemma_u64, ok, ok_view, opt_text_bytes, parse_blob,
    parse_flag, parse_i32, parse_id, parse_opt_text, parse_text, parse_u16, parse_u32, parse_u64,
    read_as, read_blob, read_flag, read_i32, read_id, read_opt_text, read_text, read_u16, read_u32,
    read_u64, serialize_blob, serialize_flag, serialize_i32, serialize_id, serialize_opt_text,
    serialize_text, serialize_u16, serialize_u32, serialize_u64, text_bytes,
};
use vstd::prelude::*;

verus! {

/// A message from the parser for a variant number that has no variant.
fn unknown_variant() -> String {
    "unknown variant".to_owned()
}

/// Appends bytes.
pub(crate) fn put(out: &mut Vec<u8>, bytes: Vec<u8>)
    ensures
        final(out)@ == old(out)@ + bytes@,
{
    let mut bytes = bytes;
    out.append(&mut bytes);
}

/// A variant number on the wire.
pub open spec fn tag_bytes(tag: int) -> Seq<u8> {
    le_bytes(tag as nat, 4)
}

pub(crate) fn put_tag(out: &mut Vec<u8>, tag: u32)
    ensures
        final(out)@ == old(out)@ + tag_bytes(tag as int),
{
    put(out, serialize_u32(tag));
}

// ---- points and rectangles ----

pub open spec fn point_bytes(p: Point) -> Seq<u8> {
    le_bytes(bits32(p.x), 4) + le_bytes(bits32(p.y), 4)
}

pub open spec fn parse_point(s: Seq<u8>) -> Option<(Point, Seq<u8>)> {
    match parse_i32(s) {
        None => None,
        Some((x, s1)) => match parse_i32(s1) {
            None => None,
            Some((y, s2)) => Some((Point { x, y }, s2)),
        },
    }
}

pub(crate) fn put_point(out: &mut Vec<u8>, p: Point)
    ensures
        final(out)@ == old(out)@ + point_bytes(p),
{
    put(out, serialize_i32(p.x));
    put(out, serialize_i32(p.y));
    assert(out@ =~= old(out)@ + point_bytes(p));
}

pub(crate) fn read_point(raw: &[u8], at: usize) -> (r: Result<(Point, usize), String>)
    requires
        at <= raw@.len(),
    ensures
        read_as(parse_point(raw@.skip(at as int)), raw@, ok(r)),
{
    let (x, a1) = read_i32(raw, at)?;
    let (y, a2) = read_i32(raw, a1)?;
    Ok((Point { x, y }, a2))
}

pub proof fn lemma_point(p: Point, rest: Seq<u8>)
    ensures
        parse_point(point_bytes(p) + rest) == Some((p, rest)),
{
    let b = le_bytes(bits32(p.y), 4) + rest;
    assert(point_bytes(p) + rest =~= le_bytes(bits32(p.x), 4) + b);
    lemma_i32(p.x, b);
    lemma_i32(p.y, rest);
}

pub open spec fn rect_bytes(r: Rect) -> Seq<u8> {
    le_bytes(bits32(r.left), 4) + le_bytes(bits32(r.top), 4) + le_bytes(bits32(r.width), 4)
        + le_bytes(bits32(r.height), 4)
}

pub open spec fn parse_rect(s: Seq<u8>) -> Option<(Rect, Seq<u8>)> {
    match parse_i32(s) {
        None => None,
        Some((left, s1)) => match parse_i32(s1) {
            None => None,
            Some((top, s2)) => match parse_i32(s2) {
                None => None,
                Some((width, s3)) => match parse_i32(s3) {
                    None => None,
                    Some((height, s4)) => Some((Rect { left, top, width, height }, s4)),
                },
            },
        },
    }
}

pub(crate) fn put_rect(out: &mut Vec<u8>, r: Rect)
    ensures
        final(out)@ == old(out)@ + rect_bytes(r),
{
    put(out, serialize_i32(r.left));
    put(out, serialize_i32(r.top));
    put(out, serialize_i32(r.width));
    put(out, serialize_i32(r.height));
    assert(out@ =~= old(out)@ + rect_bytes(r));
}

pub(crate) fn read_rect(raw: &[u8], at: usize) -> (r: Result<(Rect, usize), String>)
    requires
        at <= raw@.len(),
    ensures
        read_as(parse_rect(raw@.skip(at as int)), raw@, ok(r)),
{
    let (left, a1) = read_i32(raw, at)?;
    let (top, a2) = read_i32(raw, a1)?;
    let (width, a3) = read_i32(raw, a2)?;
    let (height, a4) = read_i32(raw, a3)?;
    Ok((Rect { left, top, width, height }, a4))
}

pub proof fn lemma_rect(r: Rect, rest: Seq<u8>)
    ensures
        parse_rect(rect_bytes(r) + rest) == Some((r, rest)),
{
    let b4 = le_bytes(bits32(r.height), 4) + rest;
    let b3 = le_bytes(bits32(r.width), 4) + b4;
    let b2 = le_bytes(bits32(r.top), 4) + b3;
    assert(rect_bytes(r) + rest =~= le_bytes(bits32(r.left), 4) + b2);
    lemma_i32(r.left, b2);
    lemma_i32(r.top, b3);
    lemma_i32(r.width, b4);
    lemma_i32(r.height, rest);
}

// ---- input events ----

pub open spec fn button_number(button: MouseButton) -> int {
    match button {
        MouseButton::Left => 0,
        MouseButton::Right => 1,
        MouseButton::Middle => 2,
        MouseButton::X1 => 3,
        MouseButton::X2 => 4,
    }
}

pub open spec fn button_of(number: u32) -> Option<MouseButton> {
    if number == 0 {
        Some(MouseButton::Left)
    } else if number == 1 {
        Some(MouseButton::Right)
    } else if number == 2 {
        Some(MouseButton::Middle)
    } else if number == 3 {
        Some(MouseButton::X1)
    } else if number == 4 {
        Some(MouseButton::X2)
    } else {
        None
    }
}

/// An input event: the number of its variant, then its fields.
pub open spec fn input_bytes(event: InputEvent) -> Seq<u8> {
    tag_bytes(input_number(event)) + input_fields(event)
}

pub open spec fn parse_key(s: Seq<u8>) -> Option<(InputEvent, Seq<u8>)> {
    match parse_u16(s) {
        None => None,
        Some((vk_code, s1)) => match parse_flag(s1) {
            None => None,
            Some((pressed, s2)) => Some((InputEvent::Key(KeyEvent { vk_code, pressed }), s2)),
        },
    }
}

pub open spec fn parse_button_event(s: Seq<u8>) -> Option<(InputEvent, Seq<u8>)> {
    match parse_u32(s) {
        None => None,
        Some((number, s1)) => match button_of(number) {
            None => None,
            Some(button) => match parse_flag(s1) {
                None => None,
                Some((pressed, s2)) => Some(
                    (InputEvent::MouseButton(MouseButtonEvent { button, pressed }), s2),
                ),
            },
        },
    }
}

pub open spec fn parse_wheel(s: Seq<u8>) -> Option<(InputEvent, Seq<u8>)> {
    match parse_i32(s) {
        None => None,
        Some((delta, s1)) => match parse_flag(s1) {
            None => None,
            Some((horizontal, s2)) => Some(
                (InputEvent::MouseWheel(MouseWheelEvent { delta, horizontal }), s2),
            ),
        },
    }
}

pub open spec fn parse_input(s: Seq<u8>) -> Option<(InputEvent, Seq<u8>)> {
    match parse_u32(s) {
        None => None,
        Some((tag, s1)) => parse_input_fields(tag, s1),
    }
}

fn button_tag(button: MouseButton) -> (r: u32)
    ensures
        r == button_number(button),
{
    match button {
        MouseButton::Left => 0,
        MouseButton::Right => 1,
        MouseButton::Middle => 2,
        MouseButton::X1 => 3,
        MouseButton::X2 => 4,
    }
}

pub(crate) fn put_input(out: &mut Vec<u8>, event: &InputEvent)
    ensures
        final(out)@ == old(out)@ + input_bytes(*event),
{
    match event {
        InputEvent::Key(e) => {
            put_tag(out, 0);
            put(out, serialize_u16(e.vk_code));
            put(out, serialize_flag(e.pressed));
        },
        InputEvent::MouseButton(e) => {
            put_tag(out, 1);
            put_tag(out, button_tag(e.button));
            put(out, serialize_flag(e.pressed));
        },
        InputEvent::MouseMoveAbs(e) => {
            put_tag(out, 2);
            put(out, serialize_i32(e.x));
            put(out, serialize_i32(e.y));
        },
        InputEvent::MouseMoveDelta(e) => {
            put_tag(out, 3);
            put(out, serialize_i32(e.dx));
            put(out, serialize_i32(e.dy));
        },
        InputEvent::MouseWheel(e) => {
            put_tag(out, 4);
            put(out, serialize_i32(e.delta));
            put(out, serialize_flag(e.horizontal));
        },
        InputEvent::ReleaseAll => {
            put_tag(out, 5);
        },
    }
    assert(out@ =~= old(out)@ + input_bytes(*event));
}

pub(crate) fn read_input(raw: &[u8], at: usize) -> (r: Result<(InputEvent, usize), String>)
    requires
        at <= raw@.len(),
    ensures
        read_as(parse_input(raw@.skip(at as int)), raw@, ok(r)),
{
    let (tag, a1) = read_u32(raw, at)?;
    if tag == 0 {
        let (vk_code, a2) = read_u16(raw, a1)?;
        let (pressed, a3) = read_flag(raw, a2)?;
        Ok((InputEvent::Key(KeyEvent { vk_code, pressed }), a3))
    } else if tag == 1 {
        let (number, a2) = read_u32(raw, a1)?;
        let button = if number == 0 {
            MouseButton::Left
        } else if number == 1 {
            MouseButton::Right
        } else if number == 2 {
            MouseButton::Middle
        } else if number == 3 {
            MouseButton::X1
        } else if number == 4 {
            MouseButton::X2
        } else {
            return Err(unknown_variant());
        };
        let (pressed, a3) = read_flag(raw, a2)?;
        Ok((InputEvent::MouseButton(MouseButtonEvent { button, pressed }), a3))
    } else if tag == 2 {
        let (p, a2) = read_point(raw, a1)?;
        Ok((InputEvent::MouseMoveAbs(MouseMoveAbsEvent { x: p.x, y: p.y }), a2))
    } else if tag == 3 {
        let (p, a2) = read_point(raw, a1)?;
        Ok((InputEvent::MouseMoveDelta(MouseMoveDeltaEvent { dx: p.x, dy: p.y }), a2))
    } else if tag == 4 {
        let (delta, a2) = read_i32(raw, a1)?;
        let (horizontal, a3) = read_flag(raw, a2)?;
        Ok((InputEvent::MouseWheel(MouseWheelEvent { delta, horizontal }), a3))
    } else if tag == 5 {
        Ok((InputEvent::ReleaseAll, a1))
    } else {
        Err(unknown_variant())
    }
}

proof fn lemma_key(e: KeyEvent, rest: Seq<u8>)
    ensures
        parse_key(le_bytes(e.vk_code as nat, 2) + flag_bytes(e.pressed) + rest) == Some(
            (InputEvent::Key(e), rest),
        ),
{
    let b = flag_bytes(e.pressed) + rest;
    assert(le_bytes(e.vk_code as nat, 2) + flag_bytes(e.pressed) + rest =~= le_bytes(
        e.vk_code as nat,
        2,
    ) + b);
    lemma_u16(e.vk_code, b);
    lemma_flag(e.pressed, rest);
}

proof fn lemma_button_event(e: MouseButtonEvent, rest: Seq<u8>)
    ensures
        parse_button_event(tag_bytes(button_number(e.button)) + flag_bytes(e.pressed) + rest)
            == Some((InputEvent::MouseButton(e), rest)),
{
    let b = flag_bytes(e.pressed) + rest;
    assert(tag_bytes(button_number(e.button)) + flag_bytes(e.pressed) + rest =~= tag_bytes(
        button_number(e.button),
    ) + b);
    lemma_u32(button_number(e.button) as u32, b);
    lemma_flag(e.pressed, rest);
}

proof fn lemma_wheel(e: MouseWheelEvent, rest: Seq<u8>)
    ensures
        parse_wheel(le_bytes(bits32(e.delta), 4) + flag_bytes(e.horizontal) + rest) == Some(
            (InputEvent::MouseWheel(e), rest),
        ),
{
    let b = flag_bytes(e.horizontal) + rest;
    assert(le_bytes(bits32(e.delta), 4) + flag_bytes(e.horizontal) + rest =~= le_bytes(
        bits32(e.delta),
        4,
    ) + b);
    lemma_i32(e.delta, b);
    lemma_flag(e.horizontal, rest);
}

/// The fields of an input event behind its variant number.
pub open spec fn input_fields(event: InputEvent) -> Seq<u8> {
    match event {
        InputEvent::Key(e) => le_bytes(e.vk_code as nat, 2) + flag_bytes(e.pressed),
        InputEvent::MouseButton(e) => tag_bytes(button_number(e.button)) + flag_bytes(e.pressed),
        InputEvent::MouseMoveAbs(e) => point_bytes(Point { x: e.x, y: e.y }),
        InputEvent::MouseMoveDelta(e) => point_bytes(Point { x: e.dx, y: e.dy }),
        InputEvent::MouseWheel(e) => le_bytes(bits32(e.delta), 4) + flag_bytes(e.horizontal),
        InputEvent::ReleaseAll => Seq::empty(),
    }
}

pub open spec fn input_number(event: InputEvent) -> int {
    match event {
        InputEvent::Key(_) => 0,
        InputEvent::MouseButton(_) => 1,
        InputEvent::MouseMoveAbs(_) => 2,
        InputEvent::MouseMoveDelta(_) => 3,
        InputEvent::MouseWheel(_) => 4,
        InputEvent::ReleaseAll => 5,
    }
}

pub open spec fn parse_input_fields(tag: u32, s: Seq<u8>) -> Option<(InputEvent, Seq<u8>)> {
    if tag == 0 {
        parse_key(s)
    } else if tag == 1 {
        parse_button_event(s)
    } else if tag == 2 {
        match parse_point(s) {
            None => None,
            Some((p, rest)) => Some(
                (InputEvent::MouseMoveAbs(MouseMoveAbsEvent { x: p.x, y: p.y }), rest),
            ),
        }
    } else if tag == 3 {
        match parse_point(s) {
            None => None,
            Some((p, rest)) => Some(
                (InputEvent::MouseMoveDelta(MouseMoveDeltaEvent { dx: p.x, dy: p.y }), rest),
            ),
        }
    } else if tag == 4 {
        parse_wheel(s)
    } else if tag == 5 {
        Some((InputEvent::ReleaseAll, s))
    } else {
        None
    }
}

proof fn lemma_input_fields(event: InputEvent, rest: Seq<u8>)
    ensures
        parse_input_fields(input_number(event) as u32, input_fields(event) + rest) == Some(
            (event, rest),
        ),
{
    match event {
        InputEvent::Key(e) => {
            lemma_key(e, rest);
        },
        InputEvent::MouseButton(e) => {
            lemma_button_event(e, rest);
        },
        InputEvent::MouseMoveAbs(e) => {
            lemma_point(Point { x: e.x, y: e.y }, rest);
        },
        InputEvent::MouseMoveDelta(e) => {
            lemma_point(Point { x: e.dx, y: e.dy }, rest);
        },
        InputEvent::MouseWheel(e) => {
            lemma_wheel(e, rest);
        },
        InputEvent::ReleaseAll => {
            assert(input_fields(event) + rest =~= rest);
        },
    }
}

pub proof fn lemma_input(event: InputEvent, rest: Seq<u8>)
    ensures
        parse_input(input_bytes(event) + rest) == Some((event, rest)),
{
    let b = input_fields(event) + rest;
    assert(input_bytes(event) + rest =~= tag_bytes(input_number(event)) + b);
    lemma_u32(input_number(event) as u32, b);
    lemma_input_fields(event, rest);
}

// ---- files ----

pub open spec fn entry_bytes(e: FileManifestEntryView) -> Seq<u8> {
    text_bytes(e.relative_path) + le_bytes(e.size_bytes as nat, 8) + flag_bytes(e.is_dir)
        + opt_text_bytes(e.blake3_hex)
}

pub open spec fn parse_entry(s: Seq<u8>) -> Option<(FileManifestEntryView, Seq<u8>)> {
    match parse_text(s) {
        None => None,
        Some((relative_path, s1)) => match parse_u64(s1) {
            None => None,
            Some((size_bytes, s2)) => match parse_flag(s2) {
                None => None,
                Some((is_dir, s3)) => match parse_opt_text(s3) {
                    None => None,
                    Some((blake3_hex, s4)) => Some(
                        (
                            FileManifestEntryView { relative_path, size_bytes, is_dir, blake3_hex },
                            s4,
                        ),
                    ),
                },
            },
        },
    }
}

pub(crate) fn put_entry(out: &mut Vec<u8>, e: &FileManifestEntry)
    ensures
        final(out)@ == old(out)@ + entry_bytes(e@),
{
    put(out, serialize_text(e.relative_path.as_str()));
    put(out, serialize_u64(e.size_bytes));
    put(out, serialize_flag(e.is_dir));
    put(out, serialize_opt_text(&e.blake3_hex));
    assert(out@ =~= old(out)@ + entry_bytes(e@));
}

pub(crate) fn read_entry(raw: &[u8], at: usize) -> (r: Result<(FileManifestEntry, usize), String>)
    requires
        at <= raw@.len(),
    ensures
        read_as(parse_entry(raw@.skip(at as int)), raw@, ok_view(r)),
{
    let (relative_path, a1) = read_text(raw, at)?;
    let (size_bytes, a2) = read_u64(raw, a1)?;
    let (is_dir, a3) = read_flag(raw, a2)?;
    let (blake3_hex, a4) = read_opt_text(raw, a3)?;
    Ok((FileManifestEntry { relative_path, size_bytes, is_dir, blake3_hex }, a4))
}

pub proof fn lemma_entry(e: FileManifestEntryView, rest: Seq<u8>)
    requires
        entry_bytes(e).len() <= u64::MAX,
    ensures
        parse_entry(entry_bytes(e) + rest) == Some((e, rest)),
{
    let b4 = opt_text_bytes(e.blake3_hex) + rest;
    let b3 = flag_bytes(e.is_dir) + b4;
    let b2 = le_bytes(e.size_bytes as nat, 8) + b3;
    assert(entry_bytes(e) + rest =~= text_bytes(e.relative_path) + b2);
    lemma_text(e.relative_path, b2);
    lemma_u64(e.size_bytes, b3);
    lemma_flag(e.is_dir, b4);
    lemma_opt_text(e.blake3_hex, rest);
}

/// Entries one after the other.
pub open spec fn entry_run(entries: Seq<FileManifestEntryView>) -> Seq<u8>
    decreases entries.len(),
{
    if entries.len() == 0 {
        Seq::empty()
    } else {
        entry_run(entries.drop_last()) + entry_bytes(entries.last())
    }
}

/// A list of entries: their number, then the entries.
pub open spec fn entries_bytes(entries: Seq<FileManifestEntryView>) -> Seq<u8> {
    le_bytes(entries.len(), 8) + entry_run(entries)
}

/// `n` entries one after the other.
pub open spec fn parse_run(s: Seq<u8>, n: nat) -> Option<(Seq<FileManifestEntryView>, Seq<u8>)>
    decreases n,
{
    if n == 0 {
        Some((Seq::empty(), s))
    } else {
        match parse_run(s, (n - 1) as nat) {
            None => None,
            Some((entries, s1)) => match parse_entry(s1) {
                None => None,
                Some((entry, s2)) => Some((entries.push(entry), s2)),
            },
        }
    }
}

pub open spec fn parse_entries(s: Seq<u8>) -> Option<(Seq<FileManifestEntryView>, Seq<u8>)> {
    match parse_u64(s) {
        None => None,
        Some((n, s1)) => parse_run(s1, n as nat),
    }
}

pub(crate) fn put_entries(out: &mut Vec<u8>, entries: &Vec<FileManifestEntry>)
    ensures
        final(out)@ == old(out)@ + entries_bytes(views(entries@)),
{
    put(out, serialize_u64(entries.len() as u64));
    let ghost start = out@;
    let mut i: usize = 0;
    assert(out@ =~= start + entry_run(views(entries@).take(0)));
    while i < entries.len()
        invariant
            i <= entries@.len(),
            out@ == start + entry_run(views(entries@).take(i as int)),
        decreases entries@.len() - i,
    {
        put_entry(out, &entries[i]);
        proof {
            let taken = views(entries@).take(i as int + 1);
            assert(taken.drop_last() =~= views(entries@).take(i as int));
            assert(out@ =~= start + entry_run(taken));
        }
        i = i + 1;
    }
    assert(views(entries@).take(entries@.len() as int) =~= views(entries@));
    assert(out@ =~= old(out)@ + entries_bytes(views(entries@)));
}

/// When the first `i` of `n` entries are followed by something unreadable, so are
/// all `n`.
proof fn lemma_run_stops(s: Seq<u8>, i: nat, n: nat)
    requires
        i < n,
        parse_run(s, (i + 1) as nat) is None,
    ensures
        parse_run(s, n) is None,
    decreases n,
{
    if n > i + 1 {
        lemma_run_stops(s, i, (n - 1) as nat);
    }
}

pub(crate) fn read_entries(raw: &[u8], at: usize) -> (r: Result<
    (Vec<FileManifestEntry>, usize),
    String,
>)
    requires
        at <= raw@.len(),
    ensures
        read_as(
            parse_entries(raw@.skip(at as int)),
            raw@,
            match r {
                Ok((v, next)) => Some((views(v@), next)),
                Err(_) => None,
            },
        ),
{
    let (n, a1) = read_u64(raw, at)?;
    let mut entries: Vec<FileManifestEntry> = Vec::new();
    let mut next: usize = a1;
    let mut i: u64 = 0;
    assert(views(entries@) =~= Seq::<FileManifestEntryView>::empty());
    while i < n
        invariant
            i <= n,
            a1 <= raw@.len(),
            next <= raw@.len(),
            at <= raw@.len(),
            parse_u64(raw@.skip(at as int)) == Some((n, raw@.skip(a1 as int))),
            parse_run(raw@.skip(a1 as int), i as nat) == Some(
                (views(entries@), raw@.skip(next as int)),
            ),
        decreases n - i,
    {
        match read_entry(raw, next) {
            Ok((entry, a2)) => {
                proof {
                    crate::text::lemma_views_push(entries@, entry);
                }
                entries.push(entry);
                next = a2;
            },
            Err(error) => {
                proof {
                    lemma_run_stops(raw@.skip(a1 as int), i as nat, n as nat);
                }
                return Err(error);
            },
        }
        i = i + 1;
    }
    Ok((entries, next))
}

proof fn lemma_run(entries: Seq<FileManifestEntryView>, rest: Seq<u8>)
    requires
        entry_run(entries).len() <= u64::MAX,
    ensures
        parse_run(entry_run(entries) + rest, entries.len()) == Some((entries, rest)),
    decreases entries.len(),
{
    if entries.len() > 0 {
        let front = entries.drop_last();
        let last = entries.last();
        assert(entry_run(entries) + rest =~= entry_run(front) + (entry_bytes(last) + rest));
        lemma_run(front, entry_bytes(last) + rest);
        lemma_entry(last, rest);
        assert(front.push(last) =~= entries);
    } else {
        assert(entry_run(entries) + rest =~= rest);
        assert(entries =~= Seq::<FileManifestEntryView>::empty());
    }
}

/// Every entry takes at least one byte.
proof fn lemma_run_len(entries: Seq<FileManifestEntryView>)
    ensures
        entries.len() <= entry_run(entries).len(),
    decreases entries.len(),
{
    if entries.len() > 0 {
        lemma_run_len(entries.drop_last());
    }
}

pub proof fn lemma_entries(entries: Seq<FileManifestEntryView>, rest: Seq<u8>)
    requires
        entries_bytes(entries).len() <= u64::MAX,
    ensures
        parse_entries(entries_bytes(entries) + rest) == Some((entries, rest)),
{
    lemma_run_len(entries);
    assert(entries_bytes(entries) + rest =~= le_bytes(entries.len(), 8) + (entry_run(entries)
        + rest));
    lemma_u64(entries.len() as u64, entry_run(entries) + rest);
    lemma_run(entries, rest);
}

pub open spec fn manifest_bytes(m: FileTransferManifestView) -> Seq<u8> {
    id_bytes(m.transfer_id) + text_bytes(m.root_name) + entries_bytes(m.files) + le_bytes(
        m.total_bytes as nat,
        8,
    )
}

pub open spec fn parse_manifest(s: Seq<u8>) -> Option<(FileTransferManifestView, Seq<u8>)> {
    match parse_id(s) {
        None => None,
        Some((transfer_id, s1)) => match parse_text(s1) {
            None => None,
            Some((root_name, s2)) => match parse_entries(s2) {
                None => None,
                Some((files, s3)) => match parse_u64(s3) {
                    None => None,
                    Some((total_bytes, s4)) => Some(
                        (
                            FileTransferManifestView { transfer_id, root_name, files, total_bytes },
                            s4,
                        ),
                    ),
                },
            },
        },
    }
}

pub(crate) fn put_manifest(out: &mut Vec<u8>, m: &FileTransferManifest)
    ensures
        final(out)@ == old(out)@ + manifest_bytes(m@),
{
    put(out, serialize_id(m.transfer_id));
    put(out, serialize_text(m.root_name.as_str()));
    put_entries(out, &m.files);
    put(out, serialize_u64(m.total_bytes));
    assert(out@ =~= old(out)@ + manifest_bytes(m@));
}

pub(crate) fn read_manifest(raw: &[u8], at: usize) -> (r: Result<
    (FileTransferManifest, usize),
    String,
>)
    requires
        at <= raw@.len(),
    ensures
        read_as(parse_manifest(raw@.skip(at as int)), raw@, ok_view(r)),
{
    let (transfer_id, a1) = read_id(raw, at)?;
    let (root_name, a2) = read_text(raw, a1)?;
    let (files, a3) = read_entries(raw, a2)?;
    let (total_bytes, a4) = read_u64(raw, a3)?;
    Ok((FileTransferManifest { transfer_id, root_name, files, total_bytes }, a4))
}

pub proof fn lemma_manifest(m: FileTransferManifestView, rest: Seq<u8>)
    requires
        manifest_bytes(m).len() <= u64::MAX,
    ensures
        parse_manifest(manifest_bytes(m) + rest) == Some((m, rest)),
{
    let b4 = le_bytes(m.total_bytes as nat, 8) + rest;
    let b3 = entries_bytes(m.files) + b4;
    let b2 = text_bytes(m.root_name) + b3;
    assert(manifest_bytes(m) + rest =~= id_bytes(m.transfer_id) + b2);
    lemma_id(m.transfer_id, b2);
    lemma_text(m.root_name, b3);
    lemma_entries(m.files, b4);
    lemma_u64(m.total_bytes, rest);
}

// ---- clipboard ----

pub open spec fn payload_bytes(p: ClipboardPayloadView) -> Seq<u8> {
    match p {
        ClipboardPayloadView::UnicodeText(text) => tag_bytes(0) + text_bytes(text),
        ClipboardPayloadView::Html(html) => tag_bytes(1) + text_bytes(html),
        ClipboardPayloadView::ImagePng(bytes) => tag_bytes(2) + blob_bytes(bytes),
        ClipboardPayloadView::ImageDib(bytes) => tag_bytes(3) + blob_bytes(bytes),
        ClipboardPayloadView::Files(offer) => tag_bytes(4) + id_bytes(offer.transfer_id)
            + entries_bytes(offer.files),
    }
}

pub open spec fn parse_offer(s: Seq<u8>) -> Option<(ClipboardPayloadView, Seq<u8>)> {
    match parse_id(s) {
        None => None,
        Some((transfer_id, s1)) => match parse_entries(s1) {
            None => None,
            Some((files, s2)) => Some(
                (ClipboardPayloadView::Files(RemoteFileOfferView { transfer_id, files }), s2),
            ),
        },
    }
}

pub open spec fn parse_payload(s: Seq<u8>) -> Option<(ClipboardPayloadView, Seq<u8>)> {
    match parse_u32(s) {
        None => None,
        Some((tag, s1)) => if tag == 0 {
            match parse_text(s1) {
                None => None,
                Some((text, s2)) => Some((ClipboardPayloadView::UnicodeText(text), s2)),
            }
        } else if tag == 1 {
            match parse_text(s1) {
                None => None,
                Some((text, s2)) => Some((ClipboardPayloadView::Html(text), s2)),
            }
        } else if tag == 2 {
            match parse_blob(s1) {
                None => None,
                Some((bytes, s2)) => Some((ClipboardPayloadView::ImagePng(bytes), s2)),
            }
        } else if tag == 3 {
            match parse_blob(s1) {
                None => None,
                Some((bytes, s2)) => Some((ClipboardPayloadView::ImageDib(bytes), s2)),
            }
        } else if tag == 4 {
            parse_offer(s1)
        } else {
            None
        },
    }
}

pub(crate) fn put_payload(out: &mut Vec<u8>, p: &ClipboardPayload)
    ensures
        final(out)@ == old(out)@ + payload_bytes(p@),
{
    match p {
        ClipboardPayload::UnicodeText(text) => {
            put_tag(out, 0);
            put(out, serialize_text(text.as_str()));
        },
        ClipboardPayload::Html(html) => {
            put_tag(out, 1);
            put(out, serialize_text(html.as_str()));
        },
        ClipboardPayload::ImagePng(bytes) => {
            put_tag(out, 2);
            put(out, serialize_blob(bytes.as_slice()));
        },
        ClipboardPayload::ImageDib(bytes) => {
            put_tag(out, 3);
            put(out, serialize_blob(bytes.as_slice()));
        },
        ClipboardPayload::Files(offer) => {
            put_tag(out, 4);
            put(out, serialize_id(offer.transfer_id));
            put_entries(out, &offer.files);
        },
    }
    assert(out@ =~= old(out)@ + payload_bytes(p@));
}

pub(crate) fn read_payload(raw: &[u8], at: usize) -> (r: Result<(ClipboardPayload, usize), String>)
    requires
        at <= raw@.len(),
    ensures
        read_as(parse_payload(raw@.skip(at as int)), raw@, ok_view(r)),
{
    let (tag, a1) = read_u32(raw, at)?;
    if tag == 0 {
        let (text, a2) = read_text(raw, a1)?;
        Ok((ClipboardPayload::UnicodeText(text), a2))
    } else if tag == 1 {
        let (text, a2) = read_text(raw, a1)?;
        Ok((ClipboardPayload::Html(text), a2))
    } else if tag == 2 {
        let (bytes, a2) = read_blob(raw, a1)?;
        Ok((ClipboardPayload::ImagePng(bytes), a2))
    } else if tag == 3 {
        let (bytes, a2) = read_blob(raw, a1)?;
        Ok((ClipboardPayload::ImageDib(bytes), a2))
    } else if tag == 4 {
        let (transfer_id, a2) = read_id(raw, a1)?;
        let (files, a3) = read_entries(raw, a2)?;
        Ok((ClipboardPayload::Files(RemoteFileOffer { transfer_id, files }), a3))
    } else {
        Err(unknown_variant())
    }
}

pub proof fn lemma_payload(p: ClipboardPayloadView, rest: Seq<u8>)
    requires
        payload_bytes(p).len() <= u64::MAX,
    ensures
        parse_payload(payload_bytes(p) + rest) == Some((p, rest)),
{
    match p {
        ClipboardPayloadView::UnicodeText(text) => {
            assert(payload_bytes(p) + rest =~= tag_bytes(0) + (text_bytes(text) + rest));
            lemma_u32(0, text_bytes(text) + rest);
            lemma_text(text, rest);
        },
        ClipboardPayloadView::Html(text) => {
            assert(payload_bytes(p) + rest =~= tag_bytes(1) + (text_bytes(text) + rest));
            lemma_u32(1, text_bytes(text) + rest);
            lemma_text(text, rest);
        },
        ClipboardPayloadView::ImagePng(bytes) => {
            assert(payload_bytes(p) + rest =~= tag_bytes(2) + (blob_bytes(bytes) + rest));
            lemma_u32(2, blob_bytes(bytes) + rest);
            lemma_blob(bytes, rest);
        },
        ClipboardPayloadView::ImageDib(bytes) => {
            assert(payload_bytes(p) + rest =~= tag_bytes(3) + (blob_bytes(bytes) + rest));
            lemma_u32(3, blob_bytes(bytes) + rest);
            lemma_blob(bytes, rest);
        },
        ClipboardPayloadView::Files(offer) => {
            let b2 = entries_bytes(offer.files) + rest;
            let b1 = id_bytes(offer.transfer_id) + b2;
            assert(payload_bytes(p) + rest =~= tag_bytes(4) + b1);
            lemma_u32(4, b1);
            lemma_id(offer.transfer_id, b2);
            lemma_entries(offer.files, rest);
        },
    }
}

pub open spec fn envelope_bytes(e: ClipboardEnvelopeView) -> Seq<u8> {
    id_bytes(e.change_id.source_device_id) + le_bytes(e.change_id.sequence as nat, 8)
        + payload_bytes(e.payload)
}

pub open spec fn parse_envelope(s: Seq<u8>) -> Option<(ClipboardEnvelopeView, Seq<u8>)> {
    match parse_id(s) {
        None => None,
        Some((source_device_id, s1)) => match parse_u64(s1) {
            None => None,
            Some((sequence, s2)) => match parse_payload(s2) {
                None => None,
                Some((payload, s3)) => Some(
                    (
                        ClipboardEnvelopeView {
                            change_id: ClipboardChangeId { source_device_id, sequence },
                            payload,
                        },
                        s3,
                    ),
                ),
            },
        },
    }
}

pub(crate) fn put_envelope(out: &mut Vec<u8>, e: &ClipboardEnvelope)
    ensures
        final(out)@ == old(out)@ + envelope_bytes(e@),
{
    put(out, serialize_id(e.change_id.source_device_id));
    put(out, serialize_u64(e.change_id.sequence));
    put_payload(out, &e.payload);
    assert(out@ =~= old(out)@ + envelope_bytes(e@));
}

pub(crate) fn read_envelope(raw: &[u8], at: usize) -> (r: Result<
    (ClipboardEnvelope, usize),
    String,
>)
    requires
        at <= raw@.len(),
    ensures
        read_as(parse_envelope(raw@.skip(at as int)), raw@, ok_view(r)),
{
    let (source_device_id, a1) = read_id(raw, at)?;
    let (sequence, a2) = read_u64(raw, a1)?;
    let (payload, a3) = read_payload(raw, a2)?;
    Ok(
        (
            ClipboardEnvelope {
                change_id: ClipboardChangeId { source_device_id, sequence },
                payload,
            },
            a3,
        ),
    )
}

pub proof fn lemma_envelope(e: ClipboardEnvelopeView, rest: Seq<u8>)
    requires
        envelope_bytes(e).len() <= u64::MAX,
    ensures
        parse_envelope(envelope_bytes(e) + rest) == Some((e, rest)),
{
    let b3 = payload_bytes(e.payload) + rest;
    let b2 = le_bytes(e.change_id.sequence as nat, 8) + b3;
    assert(envelope_bytes(e) + rest =~= id_bytes(e.change_id.source_device_id) + b2);
    lemma_id(e.change_id.source_device_id, b2);
    lemma_u64(e.change_id.sequence, b3);
    lemma_payload(e.payload, rest);
}

// ---- drag and drop ----

pub open spec fn position_number(position: RemotePosition) -> int {
    match position {
        RemotePosition::Left => 0,
        RemotePosition::Right => 1,
        RemotePosition::Top => 2,
        RemotePosition::Bottom => 3,
    }
}

pub open spec fn parse_position(s: Seq<u8>) -> Option<(RemotePosition, Seq<u8>)> {
    match parse_u32(s) {
        None => None,
        Some((tag, s1)) => if tag == 0 {
            Some((RemotePosition::Left, s1))
        } else if tag == 1 {
            Some((RemotePosition::Right, s1))
        } else if tag == 2 {
            Some((RemotePosition::Top, s1))
        } else if tag == 3 {
            Some((RemotePosition::Bottom, s1))
        } else {
            None
        },
    }
}

pub(crate) fn put_position(out: &mut Vec<u8>, position: RemotePosition)
    ensures
        final(out)@ == old(out)@ + tag_bytes(position_number(position)),
{
    let tag: u32 = match position {
        RemotePosition::Left => 0,
        RemotePosition::Right => 1,
        RemotePosition::Top => 2,
        RemotePosition::Bottom => 3,
    };
    put_tag(out, tag);
}

pub(crate) fn read_position(raw: &[u8], at: usize) -> (r: Result<(RemotePosition, usize), String>)
    requires
        at <= raw@.len(),
    ensures
        read_as(parse_position(raw@.skip(at as int)), raw@, ok(r)),
{
    let (tag, a1) = read_u32(raw, at)?;
    if tag == 0 {
        Ok((RemotePosition::Left, a1))
    } else if tag == 1 {
        Ok((RemotePosition::Right, a1))
    } else if tag == 2 {
        Ok((RemotePosition::Top, a1))
    } else if tag == 3 {
        Ok((RemotePosition::Bottom, a1))
    } else {
        Err(unknown_variant())
    }
}

pub proof fn lemma_position(position: RemotePosition, rest: Seq<u8>)
    ensures
        parse_position(tag_bytes(position_number(position)) + rest) == Some((position, rest)),
{
    lemma_u32(position_number(position) as u32, rest);
}

pub open spec fn kind_number(kind: DropResolutionKind) -> int {
    match kind {
        DropResolutionKind::Desktop => 0,
        DropResolutionKind::ExplorerDirectory => 1,
        DropResolutionKind::FolderIcon => 2,
    }
}

pub open spec fn parse_kind(s: Seq<u8>) -> Option<(DropResolutionKind, Seq<u8>)> {
    match parse_u32(s) {
        None => None,
        Some((tag, s1)) => if tag == 0 {
            Some((DropResolutionKind::Desktop, s1))
        } else if tag == 1 {
            Some((DropResolutionKind::ExplorerDirectory, s1))
        } else if tag == 2 {
            Some((DropResolutionKind::FolderIcon, s1))
        } else {
            None
        },
    }
}

pub open spec fn target_bytes(t: DropTargetView) -> Seq<u8> {
    text_bytes(t.display_name) + tag_bytes(kind_number(t.resolution_kind)) + id_bytes(
        t.authorization,
    )
}

pub open spec fn parse_target(s: Seq<u8>) -> Option<(DropTargetView, Seq<u8>)> {
    match parse_text(s) {
        None => None,
        Some((display_name, s1)) => match parse_kind(s1) {
            None => None,
            Some((resolution_kind, s2)) => match parse_id(s2) {
                None => None,
                Some((authorization, s3)) => Some(
                    (DropTargetView { display_name, resolution_kind, authorization }, s3),
                ),
            },
        },
    }
}

pub(crate) fn put_target(out: &mut Vec<u8>, t: &DropTargetSummary)
    ensures
        final(out)@ == old(out)@ + target_bytes(t@),
{
    put(out, serialize_text(t.display_name.as_str()));
    let tag: u32 = match t.resolution_kind {
        DropResolutionKind::Desktop => 0,
        DropResolutionKind::ExplorerDirectory => 1,
        DropResolutionKind::FolderIcon => 2,
    };
    put_tag(out, tag);
    put(out, serialize_id(t.authorization));
    assert(out@ =~= old(out)@ + target_bytes(t@));
}

pub(crate) fn read_target(raw: &[u8], at: usize) -> (r: Result<
    (DropTargetSummary, usize),
    String,
>)
    requires
        at <= raw@.len(),
    ensures
        read_as(parse_target(raw@.skip(at as int)), raw@, ok_view(r)),
{
    let (display_name, a1) = read_text(raw, at)?;
    let (tag, a2) = read_u32(raw, a1)?;
    let resolution_kind = if tag == 0 {
        DropResolutionKind::Desktop
    } else if tag == 1 {
        DropResolutionKind::ExplorerDirectory
    } else if tag == 2 {
        DropResolutionKind::FolderIcon
    } else {
        return Err(unknown_variant());
    };
    let (authorization, a3) = read_id(raw, a2)?;
    Ok((DropTargetSummary { display_name, resolution_kind, authorization }, a3))
}

pub proof fn lemma_target(t: DropTargetView, rest: Seq<u8>)
    requires
        target_bytes(t).len() <= u64::MAX,
    ensures
        parse_target(target_bytes(t) + rest) == Some((t, rest)),
{
    let b3 = id_bytes(t.authorization) + rest;
    let b2 = tag_bytes(kind_number(t.resolution_kind)) + b3;
    assert(target_bytes(t) + rest =~= text_bytes(t.display_name) + b2);
    lemma_text(t.display_name, b2);
    lemma_u32(kind_number(t.resolution_kind) as u32, b3);
    lemma_id(t.authorization, rest);
}

/// The variants are numbered in the order of their declaration, and the number comes
/// first: of input events, of buttons, of clipboard contents, of sides and of the ways in
/// which a destination was found.
pub proof fn law_variants_are_numbered_in_order(
    event: InputEvent,
    payload: ClipboardPayloadView,
    position: RemotePosition,
    target: DropTargetView,
)
    ensures
        input_bytes(event).take(4) == seq![
            match event {
                InputEvent::Key(_) => 0u8,
                InputEvent::MouseButton(_) => 1u8,
                InputEvent::MouseMoveAbs(_) => 2u8,
                InputEvent::MouseMoveDelta(_) => 3u8,
                InputEvent::MouseWheel(_) => 4u8,
                InputEvent::ReleaseAll => 5u8,
            },
            0u8,
            0u8,
            0u8,
        ],
        event matches InputEvent::MouseButton(e) ==> input_bytes(event).skip(4) == seq![
            match e.button {
                MouseButton::Left => 0u8,
                MouseButton::Right => 1u8,
                MouseButton::Middle => 2u8,
                MouseButton::X1 => 3u8,
                MouseButton::X2 => 4u8,
            },
            0u8,
            0u8,
            0u8,
            if e.pressed {
                1u8
            } else {
                0u8
            },
        ],
        payload_bytes(payload).take(4) == seq![
            match payload {
                ClipboardPayloadView::UnicodeText(_) => 0u8,
                ClipboardPayloadView::Html(_) => 1u8,
                ClipboardPayloadView::ImagePng(_) => 2u8,
                ClipboardPayloadView::ImageDib(_) => 3u8,
                ClipboardPayloadView::Files(_) => 4u8,
            },
            0u8,
            0u8,
            0u8,
        ],
        tag_bytes(position_number(position)) == seq![
            match position {
                RemotePosition::Left => 0u8,
                RemotePosition::Right => 1u8,
                RemotePosition::Top => 2u8,
                RemotePosition::Bottom => 3u8,
            },
            0u8,
            0u8,
            0u8,
        ],
        tag_bytes(kind_number(target.resolution_kind)) == seq![
            match target.resolution_kind {
                DropResolutionKind::Desktop => 0u8,
                DropResolutionKind::ExplorerDirectory => 1u8,
                DropResolutionKind::FolderIcon => 2u8,
            },
            0u8,
            0u8,
            0u8,
        ],
{
    lemma_tag(0);
    lemma_tag(1);
    lemma_tag(2);
    lemma_tag(3);
    lemma_tag(4);
    lemma_tag(5);
}

pub(crate) proof fn lemma_tag(tag: int)
    requires
        0 <= tag < 256,
    ensures
        tag_bytes(tag) == seq![tag as u8, 0u8, 0u8, 0u8],
{
    reveal_with_fuel(le_bytes, 5);
    assert(tag_bytes(tag) =~= seq![tag as u8, 0u8, 0u8, 0u8]);
}

/// The fields of points and rectangles stand in order, four bytes each: x before y, and
/// left, top, width and height.
pub proof fn law_coordinates_stand_in_order(p: Point, r: Rect)
    ensures
        point_bytes(p).len() == 8,
        point_bytes(p).subrange(0, 4) == le_bytes(bits32(p.x), 4),
        point_bytes(p).subrange(4, 8) == le_bytes(bits32(p.y), 4),
        rect_bytes(r).len() == 16,
        rect_bytes(r).subrange(0, 4) == le_bytes(bits32(r.left), 4),
        rect_bytes(r).subrange(4, 8) == le_bytes(bits32(r.top), 4),
        rect_bytes(r).subrange(8, 12) == le_bytes(bits32(r.width), 4),
        rect_bytes(r).subrange(12, 16) == le_bytes(bits32(r.height), 4),
{
    crate::octets::lemma_le_len(bits32(p.x), 4);
    crate::octets::lemma_le_len(bits32(p.y), 4);
    crate::octets::lemma_le_len(bits32(r.left), 4);
    crate::octets::lemma_le_len(bits32(r.top), 4);
    crate::octets::lemma_le_len(bits32(r.width), 4);
    crate::octets::lemma_le_len(bits32(r.height), 4);
    assert(point_bytes(p).subrange(0, 4) =~= le_bytes(bits32(p.x), 4));
    assert(point_bytes(p).subrange(4, 8) =~= le_bytes(bits32(p.y), 4));
    assert(rect_bytes(r).subrange(0, 4) =~= le_bytes(bits32(r.left), 4));
    assert(rect_bytes(r).subrange(4, 8) =~= le_bytes(bits32(r.top), 4));
    assert(rect_bytes(r).subrange(8, 12) =~= le_bytes(bits32(r.width), 4));
    assert(rect_bytes(r).subrange(12, 16) =~= le_bytes(bits32(r.height), 4));
}

/// The fields of files, manifests, clipboard contents and destinations stand in order: what
/// a value is known by comes first, and what is said of it follows.
pub proof fn law_fields_stand_in_order(
    entry: FileManifestEntryView,
    manifest: FileTransferManifestView,
    envelope: ClipboardEnvelopeView,
    target: DropTargetView,
)
    ensures
        ({
            let path = text_bytes(entry.relative_path);
            let raw = entry_bytes(entry);
            let n = path.len() as int;
            &&& path.is_prefix_of(raw)
            &&& raw.subrange(n, n + 8) == le_bytes(entry.size_bytes as nat, 8)
            &&& raw[n + 8] == (if entry.is_dir {
                1u8
            } else {
                0u8
            })
            &&& raw.skip(n + 9) == opt_text_bytes(entry.blake3_hex)
        }),
        id_bytes(manifest.transfer_id).is_prefix_of(manifest_bytes(manifest)),
        le_bytes(manifest.total_bytes as nat, 8).is_suffix_of(manifest_bytes(manifest)),
        (id_bytes(manifest.transfer_id) + text_bytes(manifest.root_name)).is_prefix_of(
            manifest_bytes(manifest),
        ),
        (id_bytes(envelope.change_id.source_device_id) + le_bytes(
            envelope.change_id.sequence as nat,
            8,
        )).is_prefix_of(envelope_bytes(envelope)),
        payload_bytes(envelope.payload).is_suffix_of(envelope_bytes(envelope)),
        text_bytes(target.display_name).is_prefix_of(target_bytes(target)),
        id_bytes(target.authorization).is_suffix_of(target_bytes(target)),
{
    let path = text_bytes(entry.relative_path);
    let raw = entry_bytes(entry);
    let n = path.len() as int;
    crate::octets::lemma_le_len(entry.size_bytes as nat, 8);
    crate::octets::lemma_le_len(manifest.total_bytes as nat, 8);
    assert(path =~= raw.subrange(0, n));
    assert(raw.subrange(n, n + 8) =~= le_bytes(entry.size_bytes as nat, 8));
    assert(raw.skip(n + 9) =~= opt_text_bytes(entry.blake3_hex));
    let m = manifest_bytes(manifest);
    let head = id_bytes(manifest.transfer_id);
    let named = head + text_bytes(manifest.root_name);
    assert(head =~= m.subrange(0, head.len() as int));
    assert(named =~= m.subrange(0, named.len() as int));
    assert(le_bytes(manifest.total_bytes as nat, 8) =~= m.subrange(m.len() - 8, m.len() as int));
    let e = envelope_bytes(envelope);
    let change = id_bytes(envelope.change_id.source_device_id) + le_bytes(
        envelope.change_id.sequence as nat,
        8,
    );
    let payload = payload_bytes(envelope.payload);
    assert(change =~= e.subrange(0, change.len() as int));
    assert(payload =~= e.subrange(e.len() - payload.len(), e.len() as int));
    let t = target_bytes(target);
    let name = text_bytes(target.display_name);
    let permission = id_bytes(target.authorization);
    assert(name =~= t.subrange(0, name.len() as int));
    assert(permission =~= t.subrange(t.len() - permission.len(), t.len() as int));
}

} // verus!
