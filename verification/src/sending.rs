//! Files that are sent: the messages of a transfer, in order.
use crate::bulk_events::{BulkCommandView, BulkEventView, BulkTransferCommand, BulkTransferEvent};
use crate::bulk_wire::{BulkMessageView, BulkWireMessage};
use crate::clipboard::at_most_u64;
use crate::file_transfer::{
    FileChunk, FileChunkView, FileTransferManifest, FileTransferManifestView,
};
use crate::hashing::{bytes_hex, digest_hex};
use crate::receiving::{event_view, ActiveView, CancelledTransfers};
use crate::text::views;
use std::collections::VecDeque;
use vstd::prelude::*;

verus! {

/// What the writer of a connection is told.
#[derive(Debug, PartialEq, Eq)]
pub enum WriterCommand {
    Frame(BulkWireMessage),
    Files { manifest: FileTransferManifest, source_paths: Vec<String> },
    Stop,
}

pub enum WriterView {
    Frame(BulkMessageView),
    Files { manifest: FileTransferManifestView, source_paths: Seq<Seq<char>> },
    Stop,
}

impl View for WriterCommand {
    type V = WriterView;

    open spec fn view(&self) -> WriterView {
        match self {
            WriterCommand::Frame(message) => WriterView::Frame(message@),
            WriterCommand::Files { manifest, source_paths } => WriterView::Files {
                manifest: manifest@,
                source_paths: views(source_paths@),
            },
            WriterCommand::Stop => WriterView::Stop,
        }
    }
}

/// What a command leads to on a connection.
#[derive(Debug, PartialEq, Eq)]
pub struct CommandOutcome {
    pub writer: WriterCommand,
    pub event: Option<BulkTransferEvent>,
    pub stop: bool,
}

/// What the writer is told of a command.
pub open spec fn writer_command(command: BulkCommandView) -> WriterView {
    match command {
        BulkCommandView::SendManifest(manifest) => WriterView::Frame(
            BulkMessageView::Manifest(manifest),
        ),
        BulkCommandView::SendFiles { manifest, source_paths } => WriterView::Files {
            manifest,
            source_paths,
        },
        BulkCommandView::Cancel(transfer_id) => WriterView::Frame(
            BulkMessageView::Cancel { transfer_id },
        ),
        BulkCommandView::Stop => WriterView::Stop,
    }
}

/// Acts on a command while a connection is open.
pub fn handle_session_command(
    command: BulkTransferCommand,
    cancelled: &mut CancelledTransfers,
) -> (r: CommandOutcome)
    ensures
        r.writer@ == writer_command(command@),
        r.stop == (command@ is Stop),
        match command@ {
            BulkCommandView::Cancel(transfer_id) => final(cancelled)@ == old(cancelled)@.insert(
                transfer_id,
            ) && event_view(r.event) == Some(BulkEventView::Cancelled(transfer_id)),
            _ => final(cancelled)@ == old(cancelled)@ && r.event is None,
        },
{
    match command {
        BulkTransferCommand::SendManifest(manifest) => CommandOutcome {
            writer: WriterCommand::Frame(BulkWireMessage::Manifest(manifest)),
            event: None,
            stop: false,
        },
        BulkTransferCommand::SendFiles { manifest, source_paths } => CommandOutcome {
            writer: WriterCommand::Files { manifest, source_paths },
            event: None,
            stop: false,
        },
        BulkTransferCommand::Cancel(transfer_id) => {
            cancelled.mark_cancelled(transfer_id);
            CommandOutcome {
                writer: WriterCommand::Frame(BulkWireMessage::Cancel { transfer_id }),
                event: Some(BulkTransferEvent::Cancelled(transfer_id)),
                stop: false,
            }
        },
        BulkTransferCommand::Stop => CommandOutcome {
            writer: WriterCommand::Stop,
            event: None,
            stop: true,
        },
    }
}

/// Acts on a command while there is no connection: it waits for one. Whether to stop
/// is returned.
pub fn queue_command(
    command: BulkTransferCommand,
    pending: &mut VecDeque<BulkTransferCommand>,
) -> (r: bool)
    ensures
        r == (command is Stop),
        final(pending)@ == (if r {
            old(pending)@
        } else {
            old(pending)@.push(command)
        }),
{
    match command {
        BulkTransferCommand::Stop => true,
        command => {
            pending.push_back(command);
            false
        },
    }
}

/// A transfer that is being sent, and the file of it that is being sent now.
#[derive(Debug, PartialEq, Eq)]
pub struct OutgoingTransfer {
    transfer_id: u128,
    bytes_total: u64,
    bytes_done: u64,
    relative_path: String,
    offset: u64,
    file_hash: String,
}

#[verifier::ext_equal]
pub struct OutgoingView {
    pub transfer_id: u128,
    pub bytes_total: u64,
    pub bytes_done: u64,
    pub relative_path: Seq<char>,
    pub offset: u64,
    pub file_hash: Seq<char>,
}

impl View for OutgoingTransfer {
    type V = OutgoingView;

    closed spec fn view(&self) -> OutgoingView {
        OutgoingView {
            transfer_id: self.transfer_id,
            bytes_total: self.bytes_total,
            bytes_done: self.bytes_done,
            relative_path: self.relative_path@,
            offset: self.offset,
            file_hash: self.file_hash@,
        }
    }
}

impl OutgoingView {
    /// The next file begins.
    pub open spec fn with_file(self, relative_path: Seq<char>, file_hash: Seq<char>) -> OutgoingView {
        OutgoingView { relative_path, offset: 0, file_hash, ..self }
    }

    /// The announcement of a file.
    pub open spec fn header(self, size_bytes: u64) -> BulkMessageView {
        BulkMessageView::FileHeader {
            transfer_id: self.transfer_id,
            relative_path: self.relative_path,
            size_bytes,
            blake3_hex: self.file_hash,
        }
    }

    /// The chunk with the next bytes.
    pub open spec fn chunk(self, bytes: Seq<u8>) -> FileChunkView {
        FileChunkView {
            transfer_id: self.transfer_id,
            relative_path: self.relative_path,
            offset: self.offset,
            bytes,
            blake3_hex: digest_hex(bytes),
        }
    }

    /// After the next bytes.
    pub open spec fn advanced(self, count: nat) -> OutgoingView {
        OutgoingView {
            offset: at_most_u64(self.offset as nat + count),
            bytes_done: at_most_u64(self.bytes_done as nat + count),
            ..self
        }
    }

    /// The report of the next bytes.
    pub open spec fn progress(self, count: nat) -> BulkEventView {
        BulkEventView::Progress {
            transfer_id: self.transfer_id,
            bytes_done: self.advanced(count).bytes_done,
            bytes_total: self.bytes_total,
            current_file: self.relative_path,
        }
    }

    /// The end of a file.
    pub open spec fn end(self) -> BulkMessageView {
        BulkMessageView::FileComplete {
            transfer_id: self.transfer_id,
            relative_path: self.relative_path,
            blake3_hex: self.file_hash,
        }
    }
}

impl OutgoingTransfer {
    /// A transfer begins with its manifest.
    pub fn begin(manifest: &FileTransferManifest) -> (r: (Self, BulkWireMessage))
        ensures
            r.0@.transfer_id == manifest.transfer_id,
            r.0@.bytes_total == manifest.total_bytes,
            r.0@.bytes_done == 0,
            r.1@ == BulkMessageView::Manifest(manifest@),
    {
        (
            OutgoingTransfer {
                transfer_id: manifest.transfer_id,
                bytes_total: manifest.total_bytes,
                bytes_done: 0,
                relative_path: "".to_owned(),
                offset: 0,
                file_hash: "".to_owned(),
            },
            BulkWireMessage::Manifest(manifest.clone()),
        )
    }

    /// The next file begins with its announcement.
    pub fn begin_file(&mut self, relative_path: String, size_bytes: u64, file_hash: String) -> (r:
        BulkWireMessage)
        ensures
            final(self)@ == old(self)@.with_file(relative_path@, file_hash@),
            r@ == final(self)@.header(size_bytes),
    {
        self.relative_path = relative_path;
        self.offset = 0;
        self.file_hash = file_hash;
        BulkWireMessage::FileHeader {
            transfer_id: self.transfer_id,
            relative_path: self.relative_path.clone(),
            size_bytes,
            blake3_hex: self.file_hash.clone(),
        }
    }

    /// The next bytes of the file are sent and reported.
    pub fn next_chunk(&mut self, bytes: Vec<u8>) -> (r: (BulkWireMessage, BulkTransferEvent))
        ensures
            final(self)@ == old(self)@.advanced(bytes@.len()),
            r.0@ == BulkMessageView::Chunk(old(self)@.chunk(bytes@)),
            r.1@ == old(self)@.progress(bytes@.len()),
    {
        let count: u64 = bytes.len() as u64;
        let blake3_hex = bytes_hex(bytes.as_slice());
        let message = BulkWireMessage::Chunk(
            FileChunk {
                transfer_id: self.transfer_id,
                relative_path: self.relative_path.clone(),
                offset: self.offset,
                bytes,
                blake3_hex,
            },
        );
        self.offset = self.offset.saturating_add(count);
        self.bytes_done = self.bytes_done.saturating_add(count);
        let event = BulkTransferEvent::Progress {
            transfer_id: self.transfer_id,
            bytes_done: self.bytes_done,
            bytes_total: self.bytes_total,
            current_file: self.relative_path.clone(),
        };
        (message, event)
    }

    /// The file ends.
    pub fn end_file(&self) -> (r: BulkWireMessage)
        ensures
            r@ == self@.end(),
    {
        BulkWireMessage::FileComplete {
            transfer_id: self.transfer_id,
            relative_path: self.relative_path.clone(),
            blake3_hex: self.file_hash.clone(),
        }
    }

    /// The transfer ends.
    pub fn finish(&self) -> (r: (BulkWireMessage, BulkTransferEvent))
        ensures
            r.0@ == (BulkMessageView::TransferComplete { transfer_id: self@.transfer_id }),
            r.1@ == (BulkEventView::Sent { transfer_id: self@.transfer_id }),
    {
        (
            BulkWireMessage::TransferComplete { transfer_id: self.transfer_id },
            BulkTransferEvent::Sent { transfer_id: self.transfer_id },
        )
    }

    /// The transfer was called off.
    pub fn cancel(&self) -> (r: (BulkWireMessage, BulkTransferEvent))
        ensures
            r.0@ == (BulkMessageView::Cancel { transfer_id: self@.transfer_id }),
            r.1@ == BulkEventView::Cancelled(self@.transfer_id),
    {
        (
            BulkWireMessage::Cancel { transfer_id: self.transfer_id },
            BulkTransferEvent::Cancelled(self.transfer_id),
        )
    }
}

/// Sender and receiver are at the same place of the same file.
pub open spec fn in_step(sender: OutgoingView, receiver: ActiveView) -> bool {
    &&& sender.transfer_id == receiver.transfer_id
    &&& sender.relative_path == receiver.relative_path
    &&& sender.offset == receiver.content.len()
    &&& sender.file_hash == receiver.expected_hash
}

/// The receiver takes every chunk that the sender makes, and has the same bytes then.
pub proof fn law_chunks_are_accepted(sender: OutgoingView, receiver: ActiveView, bytes: Seq<u8>)
    requires
        in_step(sender, receiver),
        receiver.content.len() + bytes.len() <= u64::MAX,
    ensures
        receiver.chunk_problem(sender.chunk(bytes)) is None,
        receiver.with_chunk(sender.chunk(bytes)).content == receiver.content + bytes,
        in_step(sender.advanced(bytes.len()), receiver.with_chunk(sender.chunk(bytes))),
{
}

/// When the announced bytes have been sent, the receiver puts the file in its place.
pub proof fn law_sent_file_is_kept(sender: OutgoingView, receiver: ActiveView)
    requires
        in_step(sender, receiver),
        receiver.expected_size == receiver.content.len(),
        sender.file_hash == digest_hex(receiver.content),
    ensures
        receiver.end_problem(sender.transfer_id, sender.relative_path) is None,
        receiver.digest_problem(sender.file_hash, false) is None,
{
}

/// The writer is told what was asked for: a manifest and a cancellation as messages, files
/// with their sources, and the end as the end.
pub proof fn law_commands_become_messages(
    manifest: FileTransferManifestView,
    source_paths: Seq<Seq<char>>,
    transfer_id: u128,
)
    ensures
        writer_command(BulkCommandView::SendManifest(manifest)) == WriterView::Frame(
            BulkMessageView::Manifest(manifest),
        ),
        writer_command(BulkCommandView::SendFiles { manifest, source_paths }) == (
        WriterView::Files { manifest, source_paths }),
        writer_command(BulkCommandView::Cancel(transfer_id)) == WriterView::Frame(
            BulkMessageView::Cancel { transfer_id },
        ),
        writer_command(BulkCommandView::Stop) == WriterView::Stop,
{
}

/// A sender counts what it sent: every chunk begins where the one before it ended, carries
/// its own digest, and moves the offset of the file and the total of the transfer on by its
/// length. The next file begins at its start, and the total goes on.
pub proof fn law_senders_count_their_bytes(
    sender: OutgoingView,
    bytes: Seq<u8>,
    relative_path: Seq<char>,
    file_hash: Seq<char>,
    size_bytes: u64,
)
    requires
        sender.offset + bytes.len() <= u64::MAX,
        sender.bytes_done + bytes.len() <= u64::MAX,
    ensures
        ({
            let chunk = sender.chunk(bytes);
            let after = sender.advanced(bytes.len());
            let next = sender.with_file(relative_path, file_hash);
            &&& chunk.transfer_id == sender.transfer_id
            &&& chunk.relative_path == sender.relative_path
            &&& chunk.offset == sender.offset
            &&& chunk.bytes == bytes
            &&& chunk.blake3_hex == digest_hex(bytes)
            &&& after.offset == sender.offset + bytes.len()
            &&& after.bytes_done == sender.bytes_done + bytes.len()
            &&& after.bytes_total == sender.bytes_total
            &&& sender.progress(bytes.len()) == (BulkEventView::Progress {
                transfer_id: sender.transfer_id,
                bytes_done: after.bytes_done,
                bytes_total: sender.bytes_total,
                current_file: sender.relative_path,
            })
            &&& next.offset == 0
            &&& next.bytes_done == sender.bytes_done
            &&& next.transfer_id == sender.transfer_id
            &&& next.header(size_bytes) == (BulkMessageView::FileHeader {
                transfer_id: sender.transfer_id,
                relative_path,
                size_bytes,
                blake3_hex: file_hash,
            })
            &&& next.end() == (BulkMessageView::FileComplete {
                transfer_id: sender.transfer_id,
                relative_path,
                blake3_hex: file_hash,
            })
        }),
{
}

} // verus!
