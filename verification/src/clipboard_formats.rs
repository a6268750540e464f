//! How content is laid out in the formats of the system's clipboard.
use crate::clipboard::{clone_bytes, ClipboardPayload, ClipboardPayloadView};
use crate::file_transfer::{FileManifestEntry, FileManifestEntryView};
use crate::octets::le_bytes;
use crate::text::{decimal, join2, join3, join4, number, views};
use vstd::prelude::*;
use vstd::string::StrSliceExecFns;
use vstd::utf8::{encode_utf8, is_ascii_chars, is_ascii_chars_encode_utf8};

verus! {

/// A kind of content that the clipboard is asked for.
#[derive(Clone, Copy, Debug, PartialEq, Eq, Structural)]
pub enum ClipboardReadFormat {
    Files,
    Png,
    Dib,
    Html,
    UnicodeText,
}

/// The UTF-16 code units of a character.
pub open spec fn char_units(c: char) -> Seq<u16> {
    let code = c as u32 as int;
    if code < 0x1_0000 {
        seq![code as u16]
    } else {
        seq![
            (0xD800 + (code - 0x1_0000) / 0x400) as u16,
            (0xDC00 + (code - 0x1_0000) % 0x400) as u16,
        ]
    }
}

/// The UTF-16 code units of a text.
pub open spec fn utf16(text: Seq<char>) -> Seq<u16>
    decreases text.len(),
{
    if text.len() == 0 {
        Seq::empty()
    } else {
        utf16(text.drop_last()) + char_units(text.last())
    }
}

/// The UTF-16 code units of a text, with a zero at the end.
pub fn wide_null(value: &str) -> (r: Vec<u16>)
    ensures
        r@ == utf16(value@).push(0),
{
    let mut units: Vec<u16> = Vec::new();
    let count = value.unicode_len();
    let mut i: usize = 0;
    while i < count
        invariant
            i <= count,
            count == value@.len(),
            units@ == utf16(value@.take(i as int)),
        decreases count - i,
    {
        let code: u32 = value.get_char(i) as u32;
        if code < 0x1_0000 {
            units.push(code as u16);
        } else {
            units.push((0xD800 + (code - 0x1_0000) / 0x400) as u16);
            units.push((0xDC00 + (code - 0x1_0000) % 0x400) as u16);
        }
        proof {
            let longer = value@.take(i as int + 1);
            assert(longer.drop_last() =~= value@.take(i as int));
            assert(longer.last() == value@[i as int]);
            assert(units@ =~= utf16(longer));
        }
        i = i + 1;
    }
    assert(value@.take(count as int) =~= value@);
    units.push(0);
    units
}

/// Code units as bytes, the lower byte of each first.
pub open spec fn units_bytes(units: Seq<u16>) -> Seq<u8>
    decreases units.len(),
{
    if units.len() == 0 {
        Seq::empty()
    } else {
        units_bytes(units.drop_last()) + le_bytes(units.last() as nat, 2)
    }
}

proof fn lemma_two_bytes(unit: u16)
    ensures
        le_bytes(unit as nat, 2) == seq![(unit % 256) as u8, (unit / 256) as u8],
{
    reveal_with_fuel(le_bytes, 3);
    assert(le_bytes(unit as nat, 2) =~= seq![(unit % 256) as u8, (unit / 256) as u8]);
}

fn push_units(bytes: &mut Vec<u8>, units: &Vec<u16>)
    ensures
        final(bytes)@ == old(bytes)@ + units_bytes(units@),
{
    let ghost start = bytes@;
    let mut i: usize = 0;
    assert(bytes@ =~= start + units_bytes(units@.take(0)));
    while i < units.len()
        invariant
            i <= units@.len(),
            bytes@ == start + units_bytes(units@.take(i as int)),
        decreases units@.len() - i,
    {
        bytes.push((units[i] % 256) as u8);
        bytes.push((units[i] / 256) as u8);
        proof {
            let longer = units@.take(i as int + 1);
            assert(longer.drop_last() =~= units@.take(i as int));
            lemma_two_bytes(units@[i as int]);
            assert(bytes@ =~= start + units_bytes(longer));
        }
        i = i + 1;
    }
    assert(units@.take(units@.len() as int) =~= units@);
}

/// The bytes of a text on the clipboard.
pub fn unicode_text_bytes(text: &str) -> (r: Vec<u8>)
    ensures
        r@ == units_bytes(utf16(text@).push(0)),
{
    let units = wide_null(text);
    let mut bytes: Vec<u8> = Vec::new();
    push_units(&mut bytes, &units);
    assert(bytes@ =~= units_bytes(units@));
    bytes
}

/// The size of the head of a list of files.
pub const DROP_FILES_SIZE: u8 = 20;

/// The head of a list of files: where the paths begin, no place, and wide text.
pub open spec fn drop_files_head() -> Seq<u8> {
    le_bytes(DROP_FILES_SIZE as nat, 4) + le_bytes(0, 4) + le_bytes(0, 4) + le_bytes(0, 4)
        + le_bytes(1, 4)
}

/// The paths of files, each with a zero at its end.
pub open spec fn path_units(files: Seq<FileManifestEntryView>) -> Seq<u16>
    decreases files.len(),
{
    if files.len() == 0 {
        Seq::empty()
    } else {
        path_units(files.drop_last()) + utf16(files.last().relative_path).push(0)
    }
}

fn push_number(bytes: &mut Vec<u8>, number: u8)
    ensures
        final(bytes)@ == old(bytes)@ + le_bytes(number as nat, 4),
{
    bytes.push(number);
    bytes.push(0);
    bytes.push(0);
    bytes.push(0);
    proof {
        reveal_with_fuel(le_bytes, 5);
        assert(le_bytes(number as nat, 4) =~= seq![number, 0, 0, 0]);
        assert(bytes@ =~= old(bytes)@ + le_bytes(number as nat, 4));
    }
}

proof fn lemma_units_bytes_add(a: Seq<u16>, b: Seq<u16>)
    ensures
        units_bytes(a + b) == units_bytes(a) + units_bytes(b),
    decreases b.len(),
{
    if b.len() == 0 {
        assert(a + b =~= a);
        assert(units_bytes(a + b) =~= units_bytes(a) + units_bytes(b));
    } else {
        assert((a + b).drop_last() =~= a + b.drop_last());
        lemma_units_bytes_add(a, b.drop_last());
        assert(units_bytes(a + b) =~= units_bytes(a) + units_bytes(b));
    }
}

/// The bytes of a list of files on the clipboard.
pub fn hdrop_bytes(files: &Vec<FileManifestEntry>) -> (r: Vec<u8>)
    ensures
        r@ == drop_files_head() + units_bytes(path_units(views(files@)).push(0)),
{
    let mut bytes: Vec<u8> = Vec::new();
    push_number(&mut bytes, DROP_FILES_SIZE);
    push_number(&mut bytes, 0);
    push_number(&mut bytes, 0);
    push_number(&mut bytes, 0);
    push_number(&mut bytes, 1);
    assert(bytes@ =~= drop_files_head());
    let ghost all = views(files@);
    let mut i: usize = 0;
    assert(bytes@ =~= drop_files_head() + units_bytes(path_units(all.take(0))));
    while i < files.len()
        invariant
            i <= files@.len(),
            all == views(files@),
            bytes@ == drop_files_head() + units_bytes(path_units(all.take(i as int))),
        decreases files@.len() - i,
    {
        let units = wide_null(files[i].relative_path.as_str());
        push_units(&mut bytes, &units);
        proof {
            let longer = all.take(i as int + 1);
            assert(longer.drop_last() =~= all.take(i as int));
            assert(longer.last() == files@[i as int]@);
            lemma_units_bytes_add(path_units(all.take(i as int)), units@);
            assert(bytes@ =~= drop_files_head() + units_bytes(path_units(longer)));
        }
        i = i + 1;
    }
    let ghost paths = path_units(all);
    assert(all.take(files@.len() as int) =~= all);
    bytes.push(0);
    bytes.push(0);
    proof {
        lemma_two_bytes(0);
        assert(paths.push(0).drop_last() =~= paths);
        assert(bytes@ =~= drop_files_head() + units_bytes(paths.push(0)));
    }
    bytes
}

/// Bytes with a zero at the end.
pub open spec fn nul_terminated(bytes: Seq<u8>) -> Seq<u8> {
    if bytes.len() > 0 && bytes.last() == 0 { bytes } else { bytes.push(0) }
}

pub fn nul_terminated_bytes(bytes: &[u8]) -> (r: Vec<u8>)
    ensures
        r@ == nul_terminated(bytes@),
{
    let mut out: Vec<u8> = Vec::new();
    out.extend_from_slice(bytes);
    assert(out@ =~= bytes@);
    if out.len() == 0 || out[out.len() - 1] != 0 {
        out.push(0);
    }
    out
}

/// Bytes without the zeros at their end.
pub open spec fn without_trailing_nuls(bytes: Seq<u8>) -> Seq<u8>
    decreases bytes.len(),
{
    if bytes.len() == 0 || bytes.last() != 0 {
        bytes
    } else {
        without_trailing_nuls(bytes.drop_last())
    }
}

pub fn trim_trailing_nuls(bytes: &[u8]) -> (r: Vec<u8>)
    ensures
        r@ == without_trailing_nuls(bytes@),
{
    let mut out: Vec<u8> = Vec::new();
    out.extend_from_slice(bytes);
    assert(out@ =~= bytes@);
    while out.len() > 0 && out[out.len() - 1] == 0
        invariant
            without_trailing_nuls(out@) == without_trailing_nuls(bytes@),
        decreases out@.len(),
    {
        let ghost before = out@;
        out.pop();
        assert(out@ =~= before.drop_last());
    }
    out
}

/// Code units up to the first zero.
pub open spec fn before_nul(units: Seq<u16>) -> Seq<u16>
    decreases units.len(),
{
    if units.len() == 0 || units[0] == 0 {
        Seq::empty()
    } else {
        seq![units[0]] + before_nul(units.skip(1))
    }
}

/// The text that some UTF-16 code units stand for, with the replacement character in
/// place of what is no text.
pub uninterp spec fn lossy_utf16(units: Seq<u16>) -> Seq<char>;

/// `String::from_utf16_lossy`. The text is a function of the code units; of which
/// text it is, only the code units of valid text are spoken for.
#[verifier::external_body]
fn from_utf16_lossy(units: &[u16]) -> (r: String)
    ensures
        r@ == lossy_utf16(units@),
        forall|text: Seq<char>| #[trigger] utf16(text) == units@ ==> r@ == text,
{
    String::from_utf16_lossy(units)
}

/// The text that some bytes stand for in UTF-8, with the replacement character in
/// place of what is no text.
pub uninterp spec fn lossy_utf8(bytes: Seq<u8>) -> Seq<char>;

/// `String::from_utf8_lossy`. The text is a function of the bytes; of which text it
/// is, only the bytes of valid text are spoken for.
#[verifier::external_body]
fn from_utf8_lossy(bytes: &[u8]) -> (r: String)
    ensures
        r@ == lossy_utf8(bytes@),
        forall|text: Seq<char>| #[trigger] encode_utf8(text) == bytes@ ==> r@ == text,
{
    String::from_utf8_lossy(bytes).into_owned()
}

/// The text that the clipboard holds in code units, up to the first zero.
pub fn unicode_text_of(units: &Vec<u16>) -> (r: String)
    ensures
        r@ == lossy_utf16(before_nul(units@)),
        forall|text: Seq<char>| #[trigger] utf16(text) == before_nul(units@) ==> r@ == text,
{
    let mut text: Vec<u16> = Vec::new();
    let mut i: usize = 0;
    assert(units@.skip(0) =~= units@);
    assert(text@ + before_nul(units@) =~= before_nul(units@));
    while i < units.len() && units[i] != 0
        invariant
            i <= units@.len(),
            text@ + before_nul(units@.skip(i as int)) == before_nul(units@),
        decreases units@.len() - i,
    {
        text.push(units[i]);
        proof {
            let rest = units@.skip(i as int);
            assert(rest.skip(1) =~= units@.skip(i as int + 1));
            assert(text@ + before_nul(rest.skip(1)) =~= text@.drop_last() + before_nul(rest));
            assert(text@.drop_last() + before_nul(rest) == before_nul(units@));
        }
        i = i + 1;
    }
    assert(text@ =~= before_nul(units@));
    from_utf16_lossy(text.as_slice())
}

/// The HTML that the clipboard holds in bytes, without the zeros at their end.
pub fn html_of(bytes: &Vec<u8>) -> (r: String)
    ensures
        r@ == lossy_utf8(without_trailing_nuls(bytes@)),
        forall|text: Seq<char>| #[trigger]
            encode_utf8(text) == without_trailing_nuls(bytes@) ==> r@ == text,
{
    let trimmed = trim_trailing_nuls(bytes.as_slice());
    from_utf8_lossy(trimmed.as_slice())
}

/// A number in at least ten digits.
pub open spec fn ten_digits(n: nat) -> Seq<char> {
    padded(decimal(n))
}

/// A text with zeros before it, so that it has at least ten characters.
pub open spec fn padded(text: Seq<char>) -> Seq<char> {
    if text.len() >= 10 {
        text
    } else {
        Seq::new((10 - text.len()) as nat, |_i: int| '0') + text
    }
}

fn ten_digit_number(n: u64) -> (r: String)
    ensures
        r@ == ten_digits(n as nat),
{
    let mut text = number(n);
    while text.as_str().unicode_len() < 10
        invariant
            padded(text@) == ten_digits(n as nat),
        decreases 10 - text@.len(),
    {
        let ghost before = text@;
        proof {
            reveal_strlit("0");
        }
        text = join2("0", text.as_str());
        assert(padded(text@) =~= padded(before));
    }
    text
}

/// What marks HTML that has its header already.
pub open spec fn html_version_mark() -> Seq<char> {
    "Version:"@
}

/// What stands before and after the fragment.
pub open spec fn before_fragment() -> Seq<char> {
    "<html><body><!--StartFragment-->"@
}

pub open spec fn after_fragment() -> Seq<char> {
    "<!--EndFragment--></body></html>"@
}

/// The length of a header whose numbers have ten digits.
pub const HTML_HEADER_LEN: usize = 105;

/// The length of what stands before the fragment, and of what stands after it.
pub const HTML_FRAME_LEN: usize = 32;

/// The header of a fragment of the given length.
pub open spec fn html_header(len: nat) -> Seq<char> {
    let start_html = HTML_HEADER_LEN as nat;
    let start_fragment = start_html + HTML_FRAME_LEN as nat;
    let end_fragment = start_fragment + len;
    let end_html = end_fragment + HTML_FRAME_LEN as nat;
    "Version:0.9\r\nStartHTML:"@ + ten_digits(start_html) + "\r\nEndHTML:"@ + ten_digits(end_html)
        + "\r\nStartFragment:"@ + ten_digits(start_fragment) + "\r\nEndFragment:"@ + ten_digits(
        end_fragment,
    ) + "\r\n"@
}

/// Whether the bytes begin with a header.
pub open spec fn has_html_header(html: Seq<u8>) -> bool {
    encode_utf8(html_version_mark()).is_prefix_of(html)
}

/// The bytes of HTML on the clipboard: with a header that says where the fragment
/// stands.
pub open spec fn html_bytes(html: Seq<char>) -> Seq<u8> {
    let fragment = encode_utf8(html);
    if has_html_header(fragment) {
        nul_terminated(fragment)
    } else {
        nul_terminated(
            encode_utf8(html_header(fragment.len())) + encode_utf8(before_fragment()) + fragment
                + encode_utf8(after_fragment()),
        )
    }
}

/// The positions of a header can be counted.
pub open spec fn html_fits(html: Seq<char>) -> bool {
    encode_utf8(html).len() + HTML_HEADER_LEN + 2 * HTML_FRAME_LEN <= usize::MAX
}

pub fn html_format_fits(html: &str) -> (r: bool)
    ensures
        r == html_fits(html@),
{
    html.as_bytes().len() <= usize::MAX - HTML_HEADER_LEN - 2 * HTML_FRAME_LEN
}

fn starts_with(bytes: &[u8], prefix: &[u8]) -> (r: bool)
    ensures
        r == prefix@.is_prefix_of(bytes@),
{
    if bytes.len() < prefix.len() {
        return false;
    }
    let mut i: usize = 0;
    while i < prefix.len()
        invariant
            i <= prefix@.len() <= bytes@.len(),
            forall|j: int| 0 <= j < i ==> prefix@[j] == bytes@[j],
        decreases prefix@.len() - i,
    {
        if bytes[i] != prefix[i] {
            assert(bytes@.subrange(0, prefix@.len() as int)[i as int] != prefix@[i as int]);
            return false;
        }
        i = i + 1;
    }
    assert(bytes@.subrange(0, prefix@.len() as int) =~= prefix@);
    true
}

fn html_header_text(len: usize) -> (r: String)
    requires
        len + HTML_HEADER_LEN + 2 * HTML_FRAME_LEN <= usize::MAX,
    ensures
        r@ == html_header(len as nat),
{
    let start_fragment: usize = HTML_HEADER_LEN + HTML_FRAME_LEN;
    let end_fragment: usize = start_fragment + len;
    let end_html: usize = end_fragment + HTML_FRAME_LEN;
    let first = ten_digit_number(HTML_HEADER_LEN as u64);
    let second = ten_digit_number(end_html as u64);
    let third = ten_digit_number(start_fragment as u64);
    let fourth = ten_digit_number(end_fragment as u64);
    let html = join4(
        "Version:0.9\r\nStartHTML:",
        first.as_str(),
        "\r\nEndHTML:",
        second.as_str(),
    );
    let start = join3(html.as_str(), "\r\nStartFragment:", third.as_str());
    let end = join4(start.as_str(), "\r\nEndFragment:", fourth.as_str(), "\r\n");
    end
}

pub fn html_format_bytes(html: &str) -> (r: Vec<u8>)
    requires
        html_fits(html@),
    ensures
        r@ == html_bytes(html@),
{
    let fragment = html.as_bytes();
    if starts_with(fragment, "Version:".as_bytes()) {
        return nul_terminated_bytes(fragment);
    }
    let header = html_header_text(fragment.len());
    let mut bytes: Vec<u8> = Vec::new();
    bytes.extend_from_slice(header.as_str().as_bytes());
    bytes.extend_from_slice("<html><body><!--StartFragment-->".as_bytes());
    bytes.extend_from_slice(fragment);
    bytes.extend_from_slice("<!--EndFragment--></body></html>".as_bytes());
    assert(bytes@ =~= encode_utf8(html_header(encode_utf8(html@).len())) + encode_utf8(
        before_fragment(),
    ) + encode_utf8(html@) + encode_utf8(after_fragment()));
    nul_terminated_bytes(bytes.as_slice())
}

/// Whether content is small enough to be read.
pub fn ensure_size_within_limit(size: u64, max_bytes: u64, label: &str) -> (r: Result<(), String>)
    ensures
        match r {
            Ok(_) => size <= max_bytes,
            Err(error) => size > max_bytes && error@ == label@ + " is "@ + decimal(size as nat)
                + " bytes, limit is "@ + decimal(max_bytes as nat),
        },
{
    if size > max_bytes {
        let size_text = number(size);
        let max_text = number(max_bytes);
        let start = join4(label, " is ", size_text.as_str(), " bytes, limit is ");
        return Err(join2(start.as_str(), max_text.as_str()));
    }
    Ok(())
}

/// The format and the bytes that content is written in.
pub open spec fn written_as(payload: ClipboardPayloadView) -> (ClipboardReadFormat, Seq<u8>) {
    match payload {
        ClipboardPayloadView::UnicodeText(text) => (
            ClipboardReadFormat::UnicodeText,
            units_bytes(utf16(text).push(0)),
        ),
        ClipboardPayloadView::Html(html) => (ClipboardReadFormat::Html, html_bytes(html)),
        ClipboardPayloadView::ImagePng(bytes) => (ClipboardReadFormat::Png, bytes),
        ClipboardPayloadView::ImageDib(bytes) => (ClipboardReadFormat::Dib, bytes),
        ClipboardPayloadView::Files(offer) => (
            ClipboardReadFormat::Files,
            drop_files_head() + units_bytes(path_units(offer.files).push(0)),
        ),
    }
}

/// The format and the bytes in which content is put on the clipboard.
pub fn write_clipboard_data(payload: &ClipboardPayload) -> (r: (ClipboardReadFormat, Vec<u8>))
    requires
        payload@ matches ClipboardPayloadView::Html(html) ==> html_fits(html),
    ensures
        (r.0, r.1@) == written_as(payload@),
{
    match payload {
        ClipboardPayload::UnicodeText(text) => (
            ClipboardReadFormat::UnicodeText,
            unicode_text_bytes(text.as_str()),
        ),
        ClipboardPayload::Html(html) => (
            ClipboardReadFormat::Html,
            html_format_bytes(html.as_str()),
        ),
        ClipboardPayload::ImagePng(bytes) => (ClipboardReadFormat::Png, clone_bytes(bytes)),
        ClipboardPayload::ImageDib(bytes) => (ClipboardReadFormat::Dib, clone_bytes(bytes)),
        ClipboardPayload::Files(offer) => (
            ClipboardReadFormat::Files,
            hdrop_bytes(&offer.files),
        ),
    }
}

proof fn lemma_ten_digits_len(n: nat)
    requires
        n < 10_000_000_000,
    ensures
        ten_digits(n).len() == 10,
        is_ascii_chars(ten_digits(n)),
{
    reveal_with_fuel(power10, 11);
    lemma_decimal_len(n, 10);
    lemma_decimal_ascii(n);
    lemma_padded(decimal(n));
}

spec fn power10(k: nat) -> nat
    decreases k,
{
    if k == 0 { 1 } else { 10 * power10((k - 1) as nat) }
}

proof fn lemma_decimal_len(n: nat, k: nat)
    requires
        k > 0,
        n < power10(k),
    ensures
        0 < decimal(n).len() <= k,
    decreases k,
{
    if n >= 10 {
        assert(n / 10 < power10((k - 1) as nat)) by {
            assert(power10(k) == 10 * power10((k - 1) as nat));
        }
        if k == 1 {
            assert(power10(0) == 1);
        }
        lemma_decimal_len(n / 10, (k - 1) as nat);
    }
}

proof fn lemma_decimal_ascii(n: nat)
    ensures
        is_ascii_chars(decimal(n)),
    decreases n,
{
    if n >= 10 {
        lemma_decimal_ascii(n / 10);
    }
}

proof fn lemma_padded(text: Seq<char>)
    requires
        text.len() <= 10,
        is_ascii_chars(text),
    ensures
        padded(text).len() == 10,
        is_ascii_chars(padded(text)),
{
}

proof fn lemma_header_len(len: nat)
    requires
        len + HTML_HEADER_LEN + 2 * HTML_FRAME_LEN < 10_000_000_000,
    ensures
        encode_utf8(html_header(len)).len() == HTML_HEADER_LEN,
{
    let start_fragment = (HTML_HEADER_LEN + HTML_FRAME_LEN) as nat;
    lemma_ten_digits_len(HTML_HEADER_LEN as nat);
    lemma_ten_digits_len(start_fragment);
    lemma_ten_digits_len(start_fragment + len);
    lemma_ten_digits_len(start_fragment + len + HTML_FRAME_LEN as nat);
    reveal_strlit("Version:0.9\r\nStartHTML:");
    reveal_strlit("\r\nEndHTML:");
    reveal_strlit("\r\nStartFragment:");
    reveal_strlit("\r\nEndFragment:");
    reveal_strlit("\r\n");
    is_ascii_chars_encode_utf8(html_header(len));
}

/// The header of HTML says where the fragment stands: between the positions that it
/// names stands the HTML itself.
pub proof fn law_header_points_at_the_fragment(html: Seq<char>)
    requires
        !has_html_header(encode_utf8(html)),
        encode_utf8(html).len() + HTML_HEADER_LEN + 2 * HTML_FRAME_LEN < 10_000_000_000,
    ensures
        ({
            let start = HTML_HEADER_LEN + HTML_FRAME_LEN;
            let end = start + encode_utf8(html).len();
            html_bytes(html).subrange(start, end) == encode_utf8(html)
        }),
{
    lemma_header_len(encode_utf8(html).len());
    reveal_strlit("<html><body><!--StartFragment-->");
    is_ascii_chars_encode_utf8(before_fragment());
    let start = HTML_HEADER_LEN + HTML_FRAME_LEN;
    let end = start + encode_utf8(html).len();
    assert(html_bytes(html).subrange(start, end) =~= encode_utf8(html));
}

proof fn lemma_char_units_are_not_nul(c: char)
    requires
        c != '\0',
    ensures
        forall|i: int| 0 <= i < char_units(c).len() ==> char_units(c)[i] != 0,
{
    let code = c as u32;
    assert(0 < code <= 0x10_FFFF);
    if code >= 0x1_0000 {
        let high = (0xD800 + (code - 0x1_0000) / 0x400) as u16;
        let low = (0xDC00 + (code - 0x1_0000) % 0x400) as u16;
        assert(0xD800 <= high);
        assert(0xDC00 <= low);
        assert(char_units(c) =~= seq![high, low]);
    } else {
        assert(char_units(c) =~= seq![code as u16]);
    }
}

proof fn lemma_units_are_not_nul(text: Seq<char>)
    requires
        !text.contains('\0'),
    ensures
        !utf16(text).contains(0),
    decreases text.len(),
{
    if text.len() > 0 {
        let shorter = text.drop_last();
        assert forall|c: char| shorter.contains(c) implies text.contains(c) by {
            let i = choose|i: int| 0 <= i < shorter.len() && shorter[i] == c;
            assert(text[i] == c);
        }
        assert(text.contains(text.last()));
        lemma_units_are_not_nul(shorter);
        lemma_char_units_are_not_nul(text.last());
        assert forall|i: int| 0 <= i < utf16(text).len() implies utf16(text)[i] != 0 by {
            if i < utf16(shorter).len() {
                assert(utf16(shorter).contains(utf16(shorter)[i]));
            }
        }
    }
}

proof fn lemma_before_nul(units: Seq<u16>)
    requires
        !units.contains(0),
    ensures
        before_nul(units.push(0)) == units,
    decreases units.len(),
{
    if units.len() > 0 {
        assert(units.contains(units[0]));
        assert forall|u: u16| units.skip(1).contains(u) implies units.contains(u) by {
            let i = choose|i: int| 0 <= i < units.skip(1).len() && units.skip(1)[i] == u;
            assert(units[i + 1] == u);
        }
        assert(units.push(0).skip(1) =~= units.skip(1).push(0));
        lemma_before_nul(units.skip(1));
        assert(before_nul(units.push(0)) =~= units);
    }
}

/// Text without a zero character is found again: what stands before the zero are the
/// code units of the whole text.
pub proof fn law_text_ends_at_its_zero(text: Seq<char>)
    requires
        !text.contains('\0'),
    ensures
        before_nul(utf16(text).push(0)) == utf16(text),
{
    lemma_units_are_not_nul(text);
    lemma_before_nul(utf16(text));
}

/// A character is one code unit, or a high and a low surrogate that hold its number
/// together.
pub proof fn law_characters_have_their_units(c: char)
    ensures
        ({
            let units = char_units(c);
            let code = c as u32 as int;
            &&& code < 0x1_0000 ==> units.len() == 1 && units[0] == code
            &&& code >= 0x1_0000 ==> {
                &&& units.len() == 2
                &&& 0xD800 <= units[0] < 0xDC00
                &&& 0xDC00 <= units[1] < 0xE000
                &&& code == 0x1_0000 + (units[0] - 0xD800) * 0x400 + (units[1] - 0xDC00)
            }
        }),
{
}

/// Text is written character by character.
pub proof fn law_texts_are_written_in_order(a: Seq<char>, b: Seq<char>, c: char)
    ensures
        utf16(a + b) == utf16(a) + utf16(b),
        utf16(seq![c]) == char_units(c),
        utf16(a).len() >= a.len(),
    decreases b.len(), a.len(),
{
    assert(seq![c].drop_last() =~= Seq::<char>::empty());
    assert(utf16(seq![c].drop_last()) =~= Seq::<u16>::empty());
    assert(seq![c].last() == c);
    assert(utf16(seq![c]) =~= char_units(c));
    if b.len() > 0 {
        law_texts_are_written_in_order(a, b.drop_last(), c);
        assert((a + b).drop_last() =~= a + b.drop_last());
        assert(utf16(a + b) =~= utf16(a) + utf16(b));
    } else {
        assert(a + b =~= a);
        assert(utf16(a) + utf16(b) =~= utf16(a));
        if a.len() > 0 {
            law_texts_are_written_in_order(a.drop_last(), b, c);
        }
    }
}

/// Every code unit takes two bytes, the lower one first.
pub proof fn law_units_take_two_bytes(units: Seq<u16>, i: int)
    ensures
        units_bytes(units).len() == 2 * units.len(),
        0 <= i < units.len() ==> units_bytes(units)[2 * i] == units[i] % 256 && units_bytes(
            units,
        )[2 * i + 1] == units[i] / 256,
    decreases units.len(),
{
    if units.len() > 0 {
        law_units_take_two_bytes(units.drop_last(), i);
        lemma_two_bytes(units.last());
        let front = units_bytes(units.drop_last());
        if 0 <= i < units.len() - 1 {
            assert(units_bytes(units)[2 * i] == front[2 * i]);
            assert(units_bytes(units)[2 * i + 1] == front[2 * i + 1]);
        }
    }
}

/// The head of a list of files takes twenty bytes, says so first, and names wide text; no
/// place is named. The paths follow one after the other, each with its own end.
pub proof fn law_file_lists_have_their_head(
    files: Seq<FileManifestEntryView>,
    entry: FileManifestEntryView,
    i: int,
)
    ensures
        drop_files_head().len() == 20,
        drop_files_head()[0] == 20,
        drop_files_head()[16] == 1,
        0 < i < 20 && i != 16 ==> drop_files_head()[i] == 0,
        path_units(files.push(entry)) == path_units(files) + utf16(entry.relative_path).push(0),
        path_units(seq![entry]) == utf16(entry.relative_path).push(0),
{
    reveal_with_fuel(le_bytes, 5);
    assert(drop_files_head() =~= seq![
        20u8, 0u8, 0u8, 0u8, 0u8, 0u8, 0u8, 0u8, 0u8, 0u8, 0u8, 0u8, 0u8, 0u8, 0u8, 0u8, 1u8, 0u8,
        0u8, 0u8,
    ]);
    assert(files.push(entry).drop_last() =~= files);
    assert(seq![entry].drop_last() =~= Seq::<FileManifestEntryView>::empty());
    assert(path_units(seq![entry].drop_last()) =~= Seq::<u16>::empty());
    assert(seq![entry].last() == entry);
    assert(path_units(seq![entry]) =~= utf16(entry.relative_path).push(0));
}

/// A zero is added at the end where there is none, and the zeros at the end are taken away
/// again, all of them and nothing else.
pub proof fn law_zeros_end_the_bytes(bytes: Seq<u8>, i: int)
    ensures
        nul_terminated(bytes).len() > 0 && nul_terminated(bytes).last() == 0,
        bytes.is_prefix_of(nul_terminated(bytes)),
        nul_terminated(bytes).len() <= bytes.len() + 1,
        nul_terminated(nul_terminated(bytes)) == nul_terminated(bytes),
        without_trailing_nuls(bytes).is_prefix_of(bytes),
        without_trailing_nuls(bytes).len() > 0 ==> without_trailing_nuls(bytes).last() != 0,
        without_trailing_nuls(bytes).len() <= i < bytes.len() ==> bytes[i] == 0,
        without_trailing_nuls(nul_terminated(bytes)) == without_trailing_nuls(bytes),
    decreases bytes.len(),
{
    if bytes.len() > 0 && bytes.last() == 0 {
        law_zeros_end_the_bytes(bytes.drop_last(), i);
        if without_trailing_nuls(bytes).len() <= i < bytes.len() - 1 {
            assert(bytes.drop_last()[i] == bytes[i]);
        }
    } else {
        assert(bytes.push(0).drop_last() =~= bytes);
    }
}

/// Of code units with a zero among them, those before the first zero are taken; without a
/// zero, all are.
pub proof fn law_text_stops_at_the_first_zero(units: Seq<u16>, i: int)
    ensures
        ({
            let text = before_nul(units);
            &&& text.is_prefix_of(units)
            &&& 0 <= i < text.len() ==> text[i] != 0
            &&& text.len() < units.len() ==> units[text.len() as int] == 0
        }),
    decreases units.len(),
{
    if units.len() > 0 && units[0] != 0 {
        law_text_stops_at_the_first_zero(units.skip(1), i - 1);
        let rest = before_nul(units.skip(1));
        let text = before_nul(units);
        assert(text =~= seq![units[0]] + rest);
        assert(forall|k: int| 0 <= k < rest.len() ==> rest[k] == units.skip(1)[k]);
        assert(text =~= units.subrange(0, text.len() as int));
        if rest.len() < units.skip(1).len() {
            assert(units.skip(1)[rest.len() as int] == units[rest.len() as int + 1]);
        }
        if 0 < i < text.len() {
            assert(text[i] == rest[i - 1]);
        }
    }
}

/// The numbers of the header have at least ten digits, with zeros in front, and name the
/// beginning and the end of the whole and of the fragment.
pub proof fn law_header_names_its_places(len: nat, n: nat)
    ensures
        html_header(len) == "Version:0.9\r\nStartHTML:"@ + ten_digits(105) + "\r\nEndHTML:"@
            + ten_digits(105 + 32 + len + 32) + "\r\nStartFragment:"@ + ten_digits(105 + 32)
            + "\r\nEndFragment:"@ + ten_digits(105 + 32 + len) + "\r\n"@,
        ten_digits(n).len() >= 10,
        decimal(n).len() <= 10 ==> ten_digits(n).len() == 10,
        decimal(n).is_suffix_of(ten_digits(n)),
        forall|i: int|
            0 <= i < ten_digits(n).len() - decimal(n).len() ==> #[trigger] ten_digits(n)[i] == '0',
{
}

} // verus!
