//! Sending the files of a transfer, one step after the other.
use crate::bulk_events::{BulkEventView, BulkTransferEvent};
use crate::bulk_wire::{BulkMessageView, BulkWireMessage, CHUNK_SIZE};
use crate::clipboard::at_most_u64;
use crate::file_transfer::{
    FileChunkView, FileTransferManifest, FileTransferManifestView,
};
use crate::hashing::digest_hex;
use crate::receiving::event_view;
use crate::sending::{OutgoingTransfer, OutgoingView};
use crate::sources::{SourceFile, SourceFileView};
use crate::text::views;
use vstd::prelude::*;

verus! {

/// Where a transfer stands.
#[derive(Clone, Copy, Debug, PartialEq, Eq, Structural)]
pub enum SendPhase {
    /// No file is being sent: the next one, or the end, comes.
    Between,
    /// A file was announced and is being read.
    Reading,
    Sent,
    CalledOff,
}

/// What is to be done next.
#[derive(Debug, PartialEq, Eq)]
pub enum SendWish {
    /// Compute the digest of the next file.
    Hash { path: String },
    /// Read the next bytes of the file, a chunk at most.
    Read { path: String },
    /// Say that no file is left.
    Finish,
    /// Say that the transfer was called off.
    CallOff,
    Nothing,
}

pub enum SendWishView {
    Hash { path: Seq<char> },
    Read { path: Seq<char> },
    Finish,
    CallOff,
    Nothing,
}

impl View for SendWish {
    type V = SendWishView;

    open spec fn view(&self) -> SendWishView {
        match self {
            SendWish::Hash { path } => SendWishView::Hash { path: path@ },
            SendWish::Read { path } => SendWishView::Read { path: path@ },
            SendWish::Finish => SendWishView::Finish,
            SendWish::CallOff => SendWishView::CallOff,
            SendWish::Nothing => SendWishView::Nothing,
        }
    }
}

/// What was done.
#[derive(Debug, PartialEq, Eq)]
pub enum SendEvent {
    /// The digest of the next file is known.
    Hashed(String),
    /// Bytes of the file were read; none are left where there are none.
    Read(Vec<u8>),
    NoFileLeft,
    CalledOff,
}

pub enum SendEventView {
    Hashed(Seq<char>),
    Read(Seq<u8>),
    NoFileLeft,
    CalledOff,
}

impl View for SendEvent {
    type V = SendEventView;

    open spec fn view(&self) -> SendEventView {
        match self {
            SendEvent::Hashed(hash) => SendEventView::Hashed(hash@),
            SendEvent::Read(bytes) => SendEventView::Read(bytes@),
            SendEvent::NoFileLeft => SendEventView::NoFileLeft,
            SendEvent::CalledOff => SendEventView::CalledOff,
        }
    }
}

/// The message that goes out, and what is reported once it has gone out.
#[derive(Debug, PartialEq, Eq)]
pub struct SendStep {
    pub frame: BulkWireMessage,
    pub report: Option<BulkTransferEvent>,
}

pub struct SendStepView {
    pub after: SenderView,
    pub frame: BulkMessageView,
    pub report: Option<BulkEventView>,
}

/// A transfer whose files are being sent.
#[derive(Debug, PartialEq, Eq)]
pub struct FileSender {
    outgoing: OutgoingTransfer,
    files: Vec<SourceFile>,
    place: usize,
    phase: SendPhase,
}

/// `place` is the file that is being sent, or comes next.
#[verifier::ext_equal]
pub struct SenderView {
    pub outgoing: OutgoingView,
    pub files: Seq<SourceFileView>,
    pub place: nat,
    pub phase: SendPhase,
}

impl View for FileSender {
    type V = SenderView;

    closed spec fn view(&self) -> SenderView {
        SenderView {
            outgoing: self.outgoing@,
            files: views(self.files@),
            place: self.place as nat,
            phase: self.phase,
        }
    }
}

impl SenderView {
    /// What is to be done next. Whether the transfer was called off is looked at before
    /// a file is hashed and before each read.
    pub open spec fn wish(self, cancelled: bool) -> SendWishView {
        match self.phase {
            SendPhase::Between => if self.place >= self.files.len() {
                SendWishView::Finish
            } else if cancelled {
                SendWishView::CallOff
            } else {
                SendWishView::Hash { path: self.files[self.place as int].path }
            },
            SendPhase::Reading => if self.place >= self.files.len() {
                SendWishView::Nothing
            } else if cancelled {
                SendWishView::CallOff
            } else {
                SendWishView::Read { path: self.files[self.place as int].path }
            },
            SendPhase::Sent | SendPhase::CalledOff => SendWishView::Nothing,
        }
    }

    /// The step that an event leads to, if it belongs here.
    pub open spec fn step(self, event: SendEventView) -> Option<SendStepView> {
        let left = self.place < self.files.len();
        match event {
            SendEventView::Hashed(hash) => if self.phase == SendPhase::Between && left {
                let file = self.files[self.place as int];
                let outgoing = self.outgoing.with_file(file.relative_path, hash);
                Some(
                    SendStepView {
                        after: SenderView { outgoing, phase: SendPhase::Reading, ..self },
                        frame: outgoing.header(file.size_bytes),
                        report: None,
                    },
                )
            } else {
                None
            },
            SendEventView::Read(bytes) => if self.phase != SendPhase::Reading || !left
                || bytes.len() > CHUNK_SIZE {
                None
            } else if bytes.len() == 0 {
                Some(
                    SendStepView {
                        after: SenderView {
                            place: self.place + 1,
                            phase: SendPhase::Between,
                            ..self
                        },
                        frame: self.outgoing.end(),
                        report: None,
                    },
                )
            } else {
                Some(
                    SendStepView {
                        after: SenderView { outgoing: self.outgoing.advanced(bytes.len()), ..self },
                        frame: BulkMessageView::Chunk(self.outgoing.chunk(bytes)),
                        report: Some(self.outgoing.progress(bytes.len())),
                    },
                )
            },
            SendEventView::NoFileLeft => if self.phase == SendPhase::Between && !left {
                Some(
                    SendStepView {
                        after: SenderView { phase: SendPhase::Sent, ..self },
                        frame: BulkMessageView::TransferComplete {
                            transfer_id: self.outgoing.transfer_id,
                        },
                        report: Some(
                            BulkEventView::Sent { transfer_id: self.outgoing.transfer_id },
                        ),
                    },
                )
            } else {
                None
            },
            SendEventView::CalledOff => if left && (self.phase == SendPhase::Between || self.phase
                == SendPhase::Reading) {
                Some(
                    SendStepView {
                        after: SenderView { phase: SendPhase::CalledOff, ..self },
                        frame: BulkMessageView::Cancel { transfer_id: self.outgoing.transfer_id },
                        report: Some(BulkEventView::Cancelled(self.outgoing.transfer_id)),
                    },
                )
            } else {
                None
            },
        }
    }
}

impl FileSender {
    /// Sending begins with the manifest.
    pub fn send_files(manifest: &FileTransferManifest, files: Vec<SourceFile>) -> (r: (
        Self,
        BulkWireMessage,
    ))
        ensures
            r.0@.outgoing.transfer_id == manifest.transfer_id,
            r.0@.outgoing.bytes_total == manifest.total_bytes,
            r.0@.outgoing.bytes_done == 0,
            r.0@.files == views(files@),
            r.0@.place == 0,
            r.0@.phase == SendPhase::Between,
            r.1@ == BulkMessageView::Manifest(manifest@),
    {
        let (outgoing, first) = OutgoingTransfer::begin(manifest);
        (FileSender { outgoing, files, place: 0, phase: SendPhase::Between }, first)
    }

    /// What is to be done next, given whether the transfer was called off.
    pub fn wish(&self, cancelled: bool) -> (r: SendWish)
        ensures
            r@ == self@.wish(cancelled),
    {
        let left = self.place < self.files.len();
        assert(self@.files.len() == self.files@.len());
        assert(left ==> self@.files[self.place as int] == self.files@[self.place as int]@);
        match self.phase {
            SendPhase::Between => if !left {
                SendWish::Finish
            } else if cancelled {
                SendWish::CallOff
            } else {
                SendWish::Hash { path: self.files[self.place].path.clone() }
            },
            SendPhase::Reading => if !left {
                SendWish::Nothing
            } else if cancelled {
                SendWish::CallOff
            } else {
                SendWish::Read { path: self.files[self.place].path.clone() }
            },
            SendPhase::Sent | SendPhase::CalledOff => SendWish::Nothing,
        }
    }

    /// The next step. An event that does not belong here changes nothing.
    pub fn step(&mut self, event: SendEvent) -> (r: Option<SendStep>)
        ensures
            match old(self)@.step(event@) {
                Some(step) => {
                    &&& r matches Some(done)
                    &&& done.frame@ == step.frame
                    &&& event_view(done.report) == step.report
                    &&& final(self)@ == step.after
                },
                None => r is None && final(self)@ == old(self)@,
            },
    {
        let left = self.place < self.files.len();
        assert(self@.files.len() == self.files@.len());
        assert(left ==> self@.files[self.place as int] == self.files@[self.place as int]@);
        match event {
            SendEvent::Hashed(hash) => {
                if self.phase != SendPhase::Between || !left {
                    return None;
                }
                let relative_path = self.files[self.place].relative_path.clone();
                let size_bytes = self.files[self.place].size_bytes;
                let frame = self.outgoing.begin_file(relative_path, size_bytes, hash);
                self.phase = SendPhase::Reading;
                Some(SendStep { frame, report: None })
            },
            SendEvent::Read(bytes) => {
                if self.phase != SendPhase::Reading || !left || bytes.len() > CHUNK_SIZE {
                    return None;
                }
                if bytes.len() == 0 {
                    let frame = self.outgoing.end_file();
                    self.place = self.place + 1;
                    self.phase = SendPhase::Between;
                    return Some(SendStep { frame, report: None });
                }
                let (frame, progress) = self.outgoing.next_chunk(bytes);
                Some(SendStep { frame, report: Some(progress) })
            },
            SendEvent::NoFileLeft => {
                if self.phase != SendPhase::Between || left {
                    return None;
                }
                let (frame, sent) = self.outgoing.finish();
                self.phase = SendPhase::Sent;
                Some(SendStep { frame, report: Some(sent) })
            },
            SendEvent::CalledOff => {
                if !left || (self.phase != SendPhase::Between && self.phase != SendPhase::Reading) {
                    return None;
                }
                let (frame, cancelled) = self.outgoing.cancel();
                self.phase = SendPhase::CalledOff;
                Some(SendStep { frame, report: Some(cancelled) })
            },
        }
    }
}

/// What was sent of a file: its digest, and its bytes in the pieces they went out in.
#[verifier::ext_equal]
pub struct SentFile {
    pub hash: Seq<char>,
    pub pieces: Seq<Seq<u8>>,
}

/// The number of bytes in pieces.
pub open spec fn byte_count(pieces: Seq<Seq<u8>>) -> nat
    decreases pieces.len(),
{
    if pieces.len() == 0 {
        0
    } else {
        byte_count(pieces.drop_last()) + pieces.last().len()
    }
}

/// The chunks of a file: the first begins at its start, each other one where the one
/// before it ends.
pub open spec fn chunk_frames(
    transfer_id: u128,
    relative_path: Seq<char>,
    pieces: Seq<Seq<u8>>,
) -> Seq<BulkMessageView>
    decreases pieces.len(),
{
    if pieces.len() == 0 {
        Seq::empty()
    } else {
        chunk_frames(transfer_id, relative_path, pieces.drop_last()).push(
            BulkMessageView::Chunk(
                FileChunkView {
                    transfer_id,
                    relative_path,
                    offset: at_most_u64(byte_count(pieces.drop_last())),
                    bytes: pieces.last(),
                    blake3_hex: digest_hex(pieces.last()),
                },
            ),
        )
    }
}

/// The announcement of a file and its chunks.
pub open spec fn opened_frames(
    transfer_id: u128,
    file: SourceFileView,
    sent: SentFile,
) -> Seq<BulkMessageView> {
    seq![
        BulkMessageView::FileHeader {
            transfer_id,
            relative_path: file.relative_path,
            size_bytes: file.size_bytes,
            blake3_hex: sent.hash,
        },
    ] + chunk_frames(transfer_id, file.relative_path, sent.pieces)
}

/// The messages of a file: its announcement, its chunks and its end.
pub open spec fn file_frames(
    transfer_id: u128,
    file: SourceFileView,
    sent: SentFile,
) -> Seq<BulkMessageView> {
    opened_frames(transfer_id, file, sent).push(
        BulkMessageView::FileComplete {
            transfer_id,
            relative_path: file.relative_path,
            blake3_hex: sent.hash,
        },
    )
}

/// The messages of the first files, one file after the other.
pub open spec fn files_frames(
    transfer_id: u128,
    files: Seq<SourceFileView>,
    done: Seq<SentFile>,
) -> Seq<BulkMessageView>
    decreases done.len(),
{
    if done.len() == 0 {
        Seq::empty()
    } else {
        files_frames(transfer_id, files, done.drop_last()) + file_frames(
            transfer_id,
            files[done.len() - 1],
            done.last(),
        )
    }
}

/// A piece that is not empty and fits into a chunk.
pub open spec fn fits_chunk(piece: Seq<u8>) -> bool {
    0 < piece.len() <= CHUNK_SIZE
}

/// A transfer and all that it sent and reported: `done` are the files that were sent,
/// `current` is what was sent of the one that is being read.
#[verifier::ext_equal]
pub struct SendHistory {
    pub sender: SenderView,
    pub frames: Seq<BulkMessageView>,
    pub reports: Seq<BulkEventView>,
    pub done: Seq<SentFile>,
    pub current: SentFile,
}

/// The bytes that a report of progress tells.
pub open spec fn told(report: BulkEventView) -> u64 {
    match report {
        BulkEventView::Progress { bytes_done, .. } => bytes_done,
        _ => 0,
    }
}

impl SendHistory {
    /// A transfer that begins.
    pub open spec fn begun(sender: SenderView, manifest: FileTransferManifestView) -> SendHistory {
        SendHistory {
            sender,
            frames: seq![BulkMessageView::Manifest(manifest)],
            reports: Seq::empty(),
            done: Seq::empty(),
            current: SentFile { hash: Seq::empty(), pieces: Seq::empty() },
        }
    }

    /// After an event that belongs here.
    pub open spec fn after(self, event: SendEventView) -> SendHistory {
        let step = self.sender.step(event)->0;
        SendHistory {
            sender: step.after,
            frames: self.frames.push(step.frame),
            reports: match step.report {
                Some(report) => self.reports.push(report),
                None => self.reports,
            },
            done: match event {
                SendEventView::Read(bytes) => if bytes.len() == 0 {
                    self.done.push(self.current)
                } else {
                    self.done
                },
                _ => self.done,
            },
            current: match event {
                SendEventView::Hashed(hash) => SentFile { hash, pieces: Seq::empty() },
                SendEventView::Read(bytes) => if bytes.len() == 0 {
                    self.current
                } else {
                    SentFile { pieces: self.current.pieces.push(bytes), ..self.current }
                },
                _ => self.current,
            },
        }
    }

    /// After events that belong here, one after the other.
    pub open spec fn run(self, events: Seq<SendEventView>) -> Option<SendHistory>
        decreases events.len(),
    {
        if events.len() == 0 {
            Some(self)
        } else {
            match self.run(events.drop_last()) {
                Some(before) => if before.sender.step(events.last()) is Some {
                    Some(before.after(events.last()))
                } else {
                    None
                },
                None => None,
            }
        }
    }

    /// The messages before the file that is being read.
    pub open spec fn settled(self, manifest: FileTransferManifestView) -> Seq<BulkMessageView> {
        seq![BulkMessageView::Manifest(manifest)] + files_frames(
            manifest.transfer_id,
            self.sender.files,
            self.done,
        )
    }

    /// The file that is being read is sent from its start.
    pub open spec fn reading(self) -> bool {
        let file = self.sender.files[self.sender.place as int];
        &&& self.sender.place < self.sender.files.len()
        &&& self.sender.outgoing.relative_path == file.relative_path
        &&& self.sender.outgoing.file_hash == self.current.hash
        &&& self.sender.outgoing.offset == at_most_u64(byte_count(self.current.pieces))
        &&& forall|i: int|
            0 <= i < self.current.pieces.len() ==> fits_chunk(#[trigger] self.current.pieces[i])
    }

    /// The messages came in order: the manifest, then for each file its announcement, its
    /// chunks and its end, then the end of the transfer. A transfer that was called off
    /// ends instead before a file or within one.
    pub open spec fn frames_in_order(self, manifest: FileTransferManifestView) -> bool {
        &&& self.sender.outgoing.transfer_id == manifest.transfer_id
        &&& self.sender.place == self.done.len()
        &&& self.done.len() <= self.sender.files.len()
        &&& forall|i: int, k: int|
            0 <= i < self.done.len() && 0 <= k < self.done[i].pieces.len() ==> fits_chunk(
                #[trigger] self.done[i].pieces[k],
            )
        &&& match self.sender.phase {
            SendPhase::Between => self.frames == self.settled(manifest),
            SendPhase::Reading => self.reading() && self.frames == self.settled(manifest)
                + opened_frames(
                manifest.transfer_id,
                self.sender.files[self.sender.place as int],
                self.current,
            ),
            SendPhase::Sent => self.done.len() == self.sender.files.len() && self.frames
                == self.settled(manifest).push(
                BulkMessageView::TransferComplete { transfer_id: manifest.transfer_id },
            ),
            SendPhase::CalledOff => {
                let called_off = BulkMessageView::Cancel { transfer_id: manifest.transfer_id };
                &&& self.done.len() < self.sender.files.len()
                &&& {
                    ||| self.frames == self.settled(manifest).push(called_off)
                    ||| self.reading() && self.frames == (self.settled(manifest) + opened_frames(
                        manifest.transfer_id,
                        self.sender.files[self.sender.place as int],
                        self.current,
                    )).push(called_off)
                }
            },
        }
    }

    /// The reports came in order: progress that only grows, then how it ended.
    pub open spec fn reports_in_order(self) -> bool {
        let transfer_id = self.sender.outgoing.transfer_id;
        let over = self.sender.phase == SendPhase::Sent || self.sender.phase
            == SendPhase::CalledOff;
        let progress = if over { self.reports.len() - 1 } else { self.reports.len() as int };
        &&& forall|i: int| 0 <= i < progress ==> (#[trigger] self.reports[i]) is Progress
        &&& forall|i: int| 0 <= i < progress ==> told(#[trigger] self.reports[i])
            <= self.sender.outgoing.bytes_done
        &&& forall|i: int, j: int|
            0 <= i <= j < progress ==> told(#[trigger] self.reports[i]) <= told(
                #[trigger] self.reports[j],
            )
        &&& over ==> self.reports.len() > 0
        &&& self.sender.phase == SendPhase::Sent ==> self.reports.last() == (BulkEventView::Sent {
            transfer_id,
        })
        &&& self.sender.phase == SendPhase::CalledOff ==> self.reports.last()
            == BulkEventView::Cancelled(transfer_id)
    }
}

/// The messages of a transfer come in order, whatever happens: first the manifest, then
/// for each file in turn its announcement, its chunks of at most the chunk size from the
/// start of the file on, and its end with the announced digest, and the end of the
/// transfer last. A transfer that begins is in order, and every step keeps it so.
pub proof fn law_frames_come_in_order(
    history: SendHistory,
    manifest: FileTransferManifestView,
    event: SendEventView,
)
    requires
        history.frames_in_order(manifest),
        history.sender.step(event) is Some,
    ensures
        history.after(event).frames_in_order(manifest),
{
    let after = history.after(event);
    let id = manifest.transfer_id;
    match event {
        SendEventView::Hashed(hash) => {
            let file = history.sender.files[history.sender.place as int];
            let sent = SentFile { hash, pieces: Seq::empty() };
            assert(opened_frames(id, file, sent) =~= seq![history.sender.step(event)->0.frame]);
            assert(after.frames =~= after.settled(manifest) + opened_frames(id, file, sent));
        },
        SendEventView::Read(bytes) => {
            let file = history.sender.files[history.sender.place as int];
            if bytes.len() == 0 {
                assert(after.done.drop_last() =~= history.done);
                assert(after.frames =~= after.settled(manifest));
            } else {
                assert(after.current.pieces.drop_last() =~= history.current.pieces);
                assert(after.frames =~= after.settled(manifest) + opened_frames(
                    id,
                    file,
                    after.current,
                ));
            }
        },
        _ => {},
    }
}

/// A transfer that begins has sent its manifest and nothing else.
pub proof fn law_sending_begins_in_order(sender: SenderView, manifest: FileTransferManifestView)
    requires
        sender.outgoing.transfer_id == manifest.transfer_id,
        sender.place == 0,
        sender.phase == SendPhase::Between,
    ensures
        SendHistory::begun(sender, manifest).frames_in_order(manifest),
        SendHistory::begun(sender, manifest).reports_in_order(),
{
    let begun = SendHistory::begun(sender, manifest);
    assert(begun.frames =~= begun.settled(manifest));
}

/// The reports of a transfer come in order, whatever happens: progress that only grows,
/// and at the very end that the transfer was sent or called off.
pub proof fn law_reports_come_in_order(history: SendHistory, event: SendEventView)
    requires
        history.reports_in_order(),
        history.sender.step(event) is Some,
    ensures
        history.after(event).reports_in_order(),
{
}

/// All that a transfer sends and reports is in order from its manifest on, in every run
/// of events.
pub proof fn law_runs_are_in_order(
    sender: SenderView,
    manifest: FileTransferManifestView,
    events: Seq<SendEventView>,
)
    requires
        sender.outgoing.transfer_id == manifest.transfer_id,
        sender.place == 0,
        sender.phase == SendPhase::Between,
    ensures
        match SendHistory::begun(sender, manifest).run(events) {
            Some(history) => history.frames_in_order(manifest) && history.reports_in_order(),
            None => true,
        },
    decreases events.len(),
{
    if events.len() == 0 {
        law_sending_begins_in_order(sender, manifest);
    } else {
        law_runs_are_in_order(sender, manifest, events.drop_last());
        match SendHistory::begun(sender, manifest).run(events.drop_last()) {
            Some(before) => {
                if before.sender.step(events.last()) is Some {
                    law_frames_come_in_order(before, manifest, events.last());
                    law_reports_come_in_order(before, events.last());
                }
            },
            None => {},
        }
    }
}

/// The chunks of a file are its bytes: put together they are the pieces that were read,
/// and each begins where the one before it ended.
pub proof fn law_chunks_follow_each_other(
    transfer_id: u128,
    relative_path: Seq<char>,
    pieces: Seq<Seq<u8>>,
    k: int,
)
    requires
        0 <= k < pieces.len(),
    ensures
        chunk_frames(transfer_id, relative_path, pieces).len() == pieces.len(),
        chunk_frames(transfer_id, relative_path, pieces)[k] == BulkMessageView::Chunk(
            FileChunkView {
                transfer_id,
                relative_path,
                offset: at_most_u64(byte_count(pieces.take(k))),
                bytes: pieces[k],
                blake3_hex: digest_hex(pieces[k]),
            },
        ),
    decreases pieces.len(),
{
    lemma_chunk_count(transfer_id, relative_path, pieces.drop_last());
    if k == pieces.len() - 1 {
        assert(pieces.take(k) =~= pieces.drop_last());
    } else {
        law_chunks_follow_each_other(transfer_id, relative_path, pieces.drop_last(), k);
        assert(pieces.drop_last().take(k) =~= pieces.take(k));
    }
}

proof fn lemma_chunk_count(transfer_id: u128, relative_path: Seq<char>, pieces: Seq<Seq<u8>>)
    ensures
        chunk_frames(transfer_id, relative_path, pieces).len() == pieces.len(),
    decreases pieces.len(),
{
    if pieces.len() > 0 {
        lemma_chunk_count(transfer_id, relative_path, pieces.drop_last());
    }
}

/// What the sender wants is what it can go on with: the digest and the bytes of the file
/// whose turn it is, the end once no file is left, and to stop once the transfer was called
/// off while files are left. Whatever is done as wished moves the transfer on.
pub proof fn law_wishes_are_for_the_next_file(
    sender: SenderView,
    cancelled: bool,
    hash: Seq<char>,
    bytes: Seq<u8>,
)
    requires
        bytes.len() <= CHUNK_SIZE,
    ensures
        ({
            let left = sender.place < sender.files.len();
            match sender.wish(cancelled) {
                SendWishView::Hash { path } => {
                    &&& !cancelled && left
                    &&& path == sender.files[sender.place as int].path
                    &&& sender.step(SendEventView::Hashed(hash)) matches Some(step)
                    &&& step.frame matches BulkMessageView::FileHeader {
                        relative_path,
                        size_bytes,
                        blake3_hex,
                        ..
                    }
                    &&& relative_path == sender.files[sender.place as int].relative_path
                    &&& size_bytes == sender.files[sender.place as int].size_bytes
                    &&& blake3_hex == hash
                    &&& step.after.phase == SendPhase::Reading
                },
                SendWishView::Read { path } => {
                    &&& !cancelled && left
                    &&& path == sender.files[sender.place as int].path
                    &&& sender.step(SendEventView::Read(bytes)) matches Some(step)
                    &&& bytes.len() > 0 ==> step.after.place == sender.place
                        && step.frame is Chunk && step.report is Some
                    &&& bytes.len() == 0 ==> step.after.place == sender.place + 1
                        && step.frame is FileComplete && step.report is None
                },
                SendWishView::Finish => {
                    &&& !left
                    &&& sender.step(SendEventView::NoFileLeft) matches Some(step)
                    &&& step.frame is TransferComplete
                    &&& step.report == Some(
                        BulkEventView::Sent { transfer_id: sender.outgoing.transfer_id },
                    )
                },
                SendWishView::CallOff => {
                    &&& cancelled && left
                    &&& sender.step(SendEventView::CalledOff) matches Some(step)
                    &&& step.frame == (BulkMessageView::Cancel {
                        transfer_id: sender.outgoing.transfer_id,
                    })
                    &&& step.report == Some(BulkEventView::Cancelled(sender.outgoing.transfer_id))
                    &&& step.after.wish(cancelled) is Nothing
                },
                SendWishView::Nothing => sender.phase == SendPhase::Sent || sender.phase
                    == SendPhase::CalledOff || (sender.phase == SendPhase::Reading && !left),
            }
        }),
{
}

/// Sending begins with the manifest, before the first file, with nothing done of the
/// announced total.
pub proof fn law_sending_begins_with_the_manifest(
    manifest: FileTransferManifest,
    files: Vec<SourceFile>,
    r: (FileSender, BulkWireMessage),
)
    requires
        call_ensures(FileSender::send_files, (&manifest, files), r),
    ensures
        r.1@ == BulkMessageView::Manifest(manifest@),
        r.0@.files.len() == files@.len(),
        forall|i: int| 0 <= i < files@.len() ==> #[trigger] r.0@.files[i] == files@[i]@,
        files@.len() > 0 ==> r.0@.wish(false) == (SendWishView::Hash { path: files@[0]@.path }),
        files@.len() == 0 ==> r.0@.wish(false) is Finish,
        r.0@.outgoing.bytes_done == 0,
        r.0@.outgoing.bytes_total == manifest@.total_bytes,
        r.0@.outgoing.transfer_id == manifest@.transfer_id,
{
}

} // verus!
