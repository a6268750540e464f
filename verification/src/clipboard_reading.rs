//! Reading the local clipboard: which formats are asked for, and what is found.
use crate::clipboard::{
    ClipboardChangeId, ClipboardEnvelope, ClipboardEnvelopeView, ClipboardPayload,
    ClipboardPayloadView, RemoteFileOffer, RemoteFileOfferView,
};
use crate::clipboard_formats::ClipboardReadFormat;
use crate::file_transfer::{FileManifestEntry, FileManifestEntryView};
use crate::text::{opt_view, views};
use vstd::prelude::*;

verus! {

/// Which kinds of content are read, and how much of it.
#[derive(Clone, Copy, Debug, PartialEq, Eq, Structural)]
pub struct ClipboardReadOptions {
    pub text: bool,
    pub html: bool,
    pub images: bool,
    pub files: bool,
    pub max_bytes: u64,
}

/// What the clipboard monitor reports.
#[derive(Debug, PartialEq, Eq)]
pub enum ClipboardEvent {
    Changed(ClipboardEnvelope),
    Ignored(String),
    Error(String),
}

pub enum ClipboardEventView {
    Changed(ClipboardEnvelopeView),
    Ignored(Seq<char>),
    Error(Seq<char>),
}

impl View for ClipboardEvent {
    type V = ClipboardEventView;

    open spec fn view(&self) -> ClipboardEventView {
        match self {
            ClipboardEvent::Changed(envelope) => ClipboardEventView::Changed(envelope@),
            ClipboardEvent::Ignored(reason) => ClipboardEventView::Ignored(reason@),
            ClipboardEvent::Error(error) => ClipboardEventView::Error(error@),
        }
    }
}

impl ClipboardReadOptions {
    /// Everything is read, up to a size.
    pub fn all_with_max_bytes(max_bytes: u64) -> (r: Self)
        ensures
            r == (ClipboardReadOptions { text: true, html: true, images: true, files: true, max_bytes }),
    {
        ClipboardReadOptions { text: true, html: true, images: true, files: true, max_bytes }
    }
}

impl Default for ClipboardReadOptions {
    fn default() -> (r: Self)
        ensures
            r == (ClipboardReadOptions {
                text: true,
                html: true,
                images: true,
                files: true,
                max_bytes: u64::MAX,
            }),
    {
        Self::all_with_max_bytes(u64::MAX)
    }
}

/// Whether a kind of content is read.
pub open spec fn wants(options: ClipboardReadOptions, format: ClipboardReadFormat) -> bool {
    match format {
        ClipboardReadFormat::Files => options.files,
        ClipboardReadFormat::Png => options.images,
        ClipboardReadFormat::Dib => options.images,
        ClipboardReadFormat::Html => options.html,
        ClipboardReadFormat::UnicodeText => options.text,
    }
}

/// All kinds of content, the richest first.
pub open spec fn all_formats() -> Seq<ClipboardReadFormat> {
    seq![
        ClipboardReadFormat::Files,
        ClipboardReadFormat::Png,
        ClipboardReadFormat::Dib,
        ClipboardReadFormat::Html,
        ClipboardReadFormat::UnicodeText,
    ]
}

/// The kinds of content that are read, the richest first.
pub open spec fn formats_in_order(options: ClipboardReadOptions) -> Seq<ClipboardReadFormat> {
    all_formats().filter(|format: ClipboardReadFormat| wants(options, format))
}

pub fn clipboard_read_format_order(options: ClipboardReadOptions) -> (r: Vec<ClipboardReadFormat>)
    ensures
        r@ == formats_in_order(options),
{
    let mut formats: Vec<ClipboardReadFormat> = Vec::new();
    if options.files {
        formats.push(ClipboardReadFormat::Files);
    }
    if options.images {
        formats.push(ClipboardReadFormat::Png);
        formats.push(ClipboardReadFormat::Dib);
    }
    if options.html {
        formats.push(ClipboardReadFormat::Html);
    }
    if options.text {
        formats.push(ClipboardReadFormat::UnicodeText);
    }
    proof {
        let wanted = |format: ClipboardReadFormat| wants(options, format);
        let all = all_formats();
        let four = all.drop_last();
        let three = four.drop_last();
        let two = three.drop_last();
        let one = two.drop_last();
        assert(one.drop_last() =~= Seq::<ClipboardReadFormat>::empty());
        reveal(Seq::filter);
        assert(one.drop_last().filter(wanted) =~= Seq::<ClipboardReadFormat>::empty());
        assert(one.filter(wanted) == if wanted(one.last()) {
            one.drop_last().filter(wanted).push(one.last())
        } else {
            one.drop_last().filter(wanted)
        });
        assert(two.filter(wanted) == if wanted(two.last()) {
            one.filter(wanted).push(two.last())
        } else {
            one.filter(wanted)
        });
        assert(three.filter(wanted) == if wanted(three.last()) {
            two.filter(wanted).push(three.last())
        } else {
            two.filter(wanted)
        });
        assert(four.filter(wanted) == if wanted(four.last()) {
            three.filter(wanted).push(four.last())
        } else {
            three.filter(wanted)
        });
        assert(all.filter(wanted) == if wanted(all.last()) {
            four.filter(wanted).push(all.last())
        } else {
            four.filter(wanted)
        });
        assert(formats@ =~= all.filter(wanted));
    }
    formats
}

/// What reading the clipboard comes to.
pub type ReadView = Result<Option<ClipboardPayloadView>, Seq<char>>;

pub open spec fn read_view(read: Result<Option<ClipboardPayload>, String>) -> ReadView {
    match read {
        Ok(payload) => Ok(opt_view(payload)),
        Err(error) => Err(error@),
    }
}

/// Reads one format after the other until content is found or reading fails.
#[derive(Debug, PartialEq, Eq)]
pub struct ClipboardReader {
    formats: Vec<ClipboardReadFormat>,
    place: usize,
}

impl ClipboardReader {
    /// The formats that have not been read yet.
    pub closed spec fn left(self) -> Seq<ClipboardReadFormat> {
        self.formats@.skip(self.place as int)
    }

    #[verifier::type_invariant]
    spec fn well_formed(self) -> bool {
        self.place <= self.formats@.len()
    }

    pub fn new(options: ClipboardReadOptions) -> (r: Self)
        ensures
            r.left() == formats_in_order(options),
    {
        let r = ClipboardReader { formats: clipboard_read_format_order(options), place: 0 };
        assert(r.left() =~= formats_in_order(options));
        r
    }

    /// The format that is read next, if one is left.
    pub fn next_format(&self) -> (r: Option<ClipboardReadFormat>)
        ensures
            r == (if self.left().len() == 0 { None } else { Some(self.left()[0]) }),
    {
        proof {
            use_type_invariant(self);
        }
        if self.place < self.formats.len() {
            Some(self.formats[self.place])
        } else {
            None
        }
    }

    /// The next format has been read. Gives what the clipboard holds, once that is
    /// settled.
    pub fn on_read(&mut self, read: Result<Option<ClipboardPayload>, String>) -> (r: Option<
        Result<Option<ClipboardPayload>, String>,
    >)
        requires
            old(self).left().len() > 0,
        ensures
            final(self).left() == old(self).left().skip(1),
            match read_view(read) {
                Ok(None) => if old(self).left().len() == 1 {
                    r matches Some(Ok(None))
                } else {
                    r is None
                },
                found => (r matches Some(result) && read_view(result) == found),
            },
    {
        proof {
            use_type_invariant(&*self);
        }
        let count = self.formats.len();
        assert(self.left().len() == count - self.place);
        self.place = self.place + 1;
        assert(self.left() =~= old(self).left().skip(1));
        match read {
            Ok(None) => if self.place < count {
                None
            } else {
                Some(Ok(None))
            },
            found => Some(found),
        }
    }
}

/// How a window opens the clipboard.
#[derive(Clone, Copy, Debug, PartialEq, Eq, Structural)]
pub enum ClipboardOpenMode {
    Read,
    Write,
}

/// The window with which the clipboard is opened: reading needs none.
pub fn clipboard_open_hwnd(mode: ClipboardOpenMode, owner: Option<usize>) -> (r: Result<
    usize,
    String,
>)
    ensures
        match mode {
            ClipboardOpenMode::Read => r == Ok::<usize, String>(0),
            ClipboardOpenMode::Write => match r {
                Ok(window) => owner == Some(window) && window != 0,
                Err(error) => (owner is None || owner == Some(0usize)) && error@
                    == "clipboard write requires a non-null owner window"@,
            },
        },
{
    match mode {
        ClipboardOpenMode::Read => Ok(0),
        ClipboardOpenMode::Write => match owner {
            Some(window) if window != 0 => Ok(window),
            _ => Err("clipboard write requires a non-null owner window".to_string()),
        },
    }
}

/// How long to wait before the clipboard is opened again, in milliseconds.
pub fn open_clipboard_retry_delay(attempt: usize) -> (r: Option<u64>)
    ensures
        r == (if attempt == 0 {
            Some(2u64)
        } else if attempt == 1 {
            Some(5)
        } else if attempt == 2 {
            Some(10)
        } else {
            None
        }),
{
    if attempt == 0 {
        Some(2)
    } else if attempt == 1 {
        Some(5)
    } else if attempt == 2 {
        Some(10)
    } else {
        None
    }
}

/// How long changes of the clipboard are taken for echoes of a remote write, in
/// milliseconds.
pub const SUPPRESS_AFTER_REMOTE_WRITE_MILLIS: u64 = 750;

#[verifier::ext_equal]
pub struct LocalClipboardView {
    pub device_id: u128,
    pub next_sequence: u64,
    pub suppress_until: Option<u64>,
}

/// What this computer knows of its own clipboard.
#[derive(Debug, PartialEq, Eq)]
pub struct LocalClipboard {
    device_id: u128,
    next_sequence: u64,
    suppress_until: Option<u64>,
}

impl View for LocalClipboard {
    type V = LocalClipboardView;

    closed spec fn view(&self) -> LocalClipboardView {
        LocalClipboardView {
            device_id: self.device_id,
            next_sequence: self.next_sequence,
            suppress_until: self.suppress_until,
        }
    }
}

impl LocalClipboardView {
    /// A change now is the echo of a remote write.
    pub open spec fn suppressed(self, now: u64) -> bool {
        self.suppress_until matches Some(until) && now <= until
    }
}

impl LocalClipboard {
    pub fn new(device_id: u128) -> (r: Self)
        ensures
            r@ == (LocalClipboardView { device_id, next_sequence: 1, suppress_until: None }),
    {
        LocalClipboard { device_id, next_sequence: 1, suppress_until: None }
    }

    /// Remote content is about to be written.
    pub fn record_local_suppress_window(&mut self, now: u64)
        requires
            now + SUPPRESS_AFTER_REMOTE_WRITE_MILLIS <= u64::MAX,
        ensures
            final(self)@ == (LocalClipboardView {
                suppress_until: Some((now + SUPPRESS_AFTER_REMOTE_WRITE_MILLIS) as u64),
                ..old(self)@
            }),
    {
        self.suppress_until = Some(now + SUPPRESS_AFTER_REMOTE_WRITE_MILLIS);
    }

    /// Whether a change now is the echo of a remote write. A window that is over is
    /// forgotten.
    pub fn take_local_suppress_window(&mut self, now: u64) -> (r: bool)
        ensures
            r == old(self)@.suppressed(now),
            final(self)@ == (LocalClipboardView {
                suppress_until: if r { old(self)@.suppress_until } else { None },
                ..old(self)@
            }),
    {
        match self.suppress_until {
            Some(until) => if now <= until {
                true
            } else {
                self.suppress_until = None;
                false
            },
            None => false,
        }
    }

    /// The report of an echo.
    pub fn suppressed_event(&self) -> (r: ClipboardEvent)
        ensures
            r@ == ClipboardEventView::Ignored("suppressed local clipboard echo"@),
    {
        ClipboardEvent::Ignored("suppressed local clipboard echo".to_string())
    }

    /// The report of a change, from what was read. Each change gets a number of its
    /// own.
    pub fn change_event(&mut self, read: Result<Option<ClipboardPayload>, String>) -> (r:
        ClipboardEvent)
        ensures
            match read_view(read) {
                Ok(Some(payload)) => {
                    &&& r@ == ClipboardEventView::Changed(
                        ClipboardEnvelopeView {
                            change_id: ClipboardChangeId {
                                source_device_id: old(self)@.device_id,
                                sequence: old(self)@.next_sequence,
                            },
                            payload,
                        },
                    )
                    &&& final(self)@ == (LocalClipboardView {
                        next_sequence: old(self)@.next_sequence.wrapping_add(1),
                        ..old(self)@
                    })
                },
                Ok(None) => {
                    &&& r@ == ClipboardEventView::Ignored("clipboard contains no supported format"@)
                    &&& final(self)@ == old(self)@
                },
                Err(error) => {
                    &&& r@ == ClipboardEventView::Error(error)
                    &&& final(self)@ == old(self)@
                },
            },
    {
        match read {
            Ok(Some(payload)) => {
                let sequence = self.next_sequence;
                self.next_sequence = sequence.wrapping_add(1);
                ClipboardEvent::Changed(
                    ClipboardEnvelope {
                        change_id: ClipboardChangeId::new(self.device_id, sequence),
                        payload,
                    },
                )
            },
            Ok(None) => ClipboardEvent::Ignored(
                "clipboard contains no supported format".to_string(),
            ),
            Err(error) => ClipboardEvent::Error(error),
        }
    }
}

/// What the system says of a file: whether it is a directory, and its size.
#[derive(Clone, Copy, Debug, PartialEq, Eq, Structural)]
pub struct FileFacts {
    pub is_dir: bool,
    pub len: u64,
}

/// The entry of a file on the clipboard. Where the system tells nothing of it, only
/// whether it looks like a directory is known.
pub fn file_manifest_entry_for_path(path: &str, facts: Option<FileFacts>, looks_like_dir: bool) -> (r:
    FileManifestEntry)
    ensures
        r@ == (FileManifestEntryView {
            relative_path: path@,
            size_bytes: match facts {
                Some(facts) if !facts.is_dir => facts.len,
                _ => 0,
            },
            is_dir: match facts {
                Some(facts) => facts.is_dir,
                None => looks_like_dir,
            },
            blake3_hex: None,
        }),
{
    let (size_bytes, is_dir): (u64, bool) = match facts {
        Some(facts) => (if facts.is_dir { 0 } else { facts.len }, facts.is_dir),
        None => (0, looks_like_dir),
    };
    FileManifestEntry { relative_path: path.to_string(), size_bytes, is_dir, blake3_hex: None }
}

/// The offer of the files on the clipboard, if there are any.
pub fn hdrop_offer(transfer_id: u128, files: Vec<FileManifestEntry>) -> (r: Option<RemoteFileOffer>)
    ensures
        match r {
            Some(offer) => files@.len() > 0 && offer@ == (RemoteFileOfferView {
                transfer_id,
                files: views(files@),
            }),
            None => files@.len() == 0,
        },
{
    if files.len() == 0 {
        None
    } else {
        Some(RemoteFileOffer { transfer_id, files })
    }
}

/// While remote content is written, and for a while after, no change is reported as a
/// local one.
pub proof fn law_remote_writes_do_not_echo(clipboard: LocalClipboardView, written: u64, now: u64)
    requires
        written <= now <= written + SUPPRESS_AFTER_REMOTE_WRITE_MILLIS <= u64::MAX,
        clipboard.suppress_until == Some((written + SUPPRESS_AFTER_REMOTE_WRITE_MILLIS) as u64),
    ensures
        clipboard.suppressed(now),
{
}

/// Content that is not shared is not read, whatever the clipboard holds.
pub proof fn law_unwanted_formats_are_not_read(
    options: ClipboardReadOptions,
    format: ClipboardReadFormat,
)
    ensures
        formats_in_order(options).contains(format) == wants(options, format),
{
    let wanted = |format: ClipboardReadFormat| wants(options, format);
    let all = all_formats();
    assert(all[0] == ClipboardReadFormat::Files);
    assert(all[1] == ClipboardReadFormat::Png);
    assert(all[2] == ClipboardReadFormat::Dib);
    assert(all[3] == ClipboardReadFormat::Html);
    assert(all[4] == ClipboardReadFormat::UnicodeText);
    assert(all.contains(format));
    if wants(options, format) {
        let i = choose|i: int| 0 <= i < all.len() && all[i] == format;
        all.lemma_filter_contains(wanted, i);
    } else if all.filter(wanted).contains(format) {
        let j = choose|j: int| 0 <= j < all.filter(wanted).len() && all.filter(wanted)[j] == format;
        all.lemma_filter_pred(wanted, j);
    }
}

/// The richer content comes first: files, then images, then HTML, then plain text; each
/// kind is there if its own flag is on, and nothing is read twice.
pub proof fn law_richer_content_is_read_first(options: ClipboardReadOptions)
    ensures
        ({
            let order = formats_in_order(options);
            &&& options.files ==> order[0] == ClipboardReadFormat::Files
            &&& options.text ==> order.last() == ClipboardReadFormat::UnicodeText
            &&& options.images && !options.files ==> order[0] == ClipboardReadFormat::Png
                && order[1] == ClipboardReadFormat::Dib
            &&& options.images && options.files ==> order[1] == ClipboardReadFormat::Png
                && order[2] == ClipboardReadFormat::Dib
            &&& options.html && options.text ==> order[order.len() - 2] == ClipboardReadFormat::Html
            &&& options.html && !options.text ==> order.last() == ClipboardReadFormat::Html
            &&& order.len() == (if options.files {
                1int
            } else {
                0
            }) + (if options.images {
                2int
            } else {
                0
            }) + (if options.html {
                1int
            } else {
                0
            }) + (if options.text {
                1int
            } else {
                0
            })
        }),
{
    reveal_with_fuel(Seq::filter, 6);
}

/// The echoes of a remote write are over after three quarters of a second.
pub proof fn law_echoes_are_over_in_time(clipboard: LocalClipboardView, now: u64)
    ensures
        SUPPRESS_AFTER_REMOTE_WRITE_MILLIS == 750,
        clipboard.suppress_until is None ==> !clipboard.suppressed(now),
        clipboard.suppress_until matches Some(until) ==> (clipboard.suppressed(now) <==> now
            <= until),
{
}

/// A file on the clipboard is offered under its path and with its size; a directory has no
/// size of its own, and where nothing is known of a file its size counts as nothing. Files
/// are offered all, in order, and no files are no offer.
pub proof fn law_clipboard_files_are_described(
    path: &str,
    facts: Option<FileFacts>,
    looks_like_dir: bool,
    entry: FileManifestEntry,
    transfer_id: u128,
    files: Vec<FileManifestEntry>,
    offer: Option<RemoteFileOffer>,
)
    requires
        call_ensures(file_manifest_entry_for_path, (path, facts, looks_like_dir), entry),
        call_ensures(hdrop_offer, (transfer_id, files), offer),
    ensures
        entry@.relative_path == path@,
        entry@.is_dir ==> entry@.size_bytes == 0,
        facts matches Some(known) ==> entry@.is_dir == known.is_dir && (!known.is_dir
            ==> entry@.size_bytes == known.len),
        facts is None ==> entry@.is_dir == looks_like_dir && entry@.size_bytes == 0,
        entry@.blake3_hex is None,
        offer is Some <==> files@.len() > 0,
        offer matches Some(o) ==> o@.transfer_id == transfer_id && o@.files.len() == files@.len()
            && forall|i: int|
            0 <= i < files@.len() ==> #[trigger] o@.files[i] == files@[i]@,
{
}

/// Opening the clipboard is tried again three times, each time after a longer while.
pub proof fn law_retries_wait_longer(
    a: usize,
    b: usize,
    first: Option<u64>,
    second: Option<u64>,
)
    requires
        call_ensures(open_clipboard_retry_delay, (a,), first),
        call_ensures(open_clipboard_retry_delay, (b,), second),
    ensures
        first is Some <==> a < 3,
        a < b < 3 ==> first->0 < second->0,
        first matches Some(delay) ==> 2 <= delay <= 10,
{
}

/// A change that was read is reported with its content under the number that is next, and
/// the number after it is another one; what holds nothing or cannot be read takes no
/// number.
pub proof fn law_changes_are_numbered(
    clipboard: &mut LocalClipboard,
    read: Result<Option<ClipboardPayload>, String>,
    event: ClipboardEvent,
)
    requires
        call_ensures(LocalClipboard::change_event, (clipboard, read), event),
    ensures
        read matches Ok(Some(payload)) ==> (event@ matches ClipboardEventView::Changed(envelope)
            && envelope.payload == payload@ && envelope.change_id.source_device_id
            == old(clipboard)@.device_id && envelope.change_id.sequence
            == old(clipboard)@.next_sequence && final(clipboard)@.next_sequence
            != old(clipboard)@.next_sequence),
        read matches Ok(None) ==> event@ is Ignored,
        read matches Err(error) ==> event@ == ClipboardEventView::Error(error@),
        !(event@ is Changed) ==> final(clipboard)@.next_sequence == old(clipboard)@.next_sequence,
        final(clipboard)@.device_id == old(clipboard)@.device_id,
{
}

/// Writing remote content hides the changes of the next 750 milliseconds, and no later ones.
pub proof fn law_remote_writes_hide_changes_for_a_while(
    clipboard: &mut LocalClipboard,
    written: u64,
    now: u64,
)
    requires
        written + SUPPRESS_AFTER_REMOTE_WRITE_MILLIS <= u64::MAX,
        call_ensures(LocalClipboard::record_local_suppress_window, (clipboard, written), ()),
    ensures
        final(clipboard)@.suppressed(now) <==> now <= written + 750,
        final(clipboard)@.next_sequence == old(clipboard)@.next_sequence,
{
}

/// Reading needs no window; writing needs one, and takes the one that there is.
pub proof fn law_writing_needs_a_window(
    mode: ClipboardOpenMode,
    owner: Option<usize>,
    r: Result<usize, String>,
)
    requires
        call_ensures(clipboard_open_hwnd, (mode, owner), r),
    ensures
        mode == ClipboardOpenMode::Read ==> r == Ok::<usize, String>(0),
        mode == ClipboardOpenMode::Write ==> (r is Ok <==> owner is Some && owner->0 != 0),
        mode == ClipboardOpenMode::Write && r is Ok ==> r->Ok_0 == owner->0,
{
}

} // verus!
