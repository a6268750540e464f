//! What the file transfer channel is told and what it reports.
use crate::file_transfer::{clone_texts, FileTransferManifest, FileTransferManifestView};
use crate::text::views;
use vstd::prelude::*;

verus! {

#[derive(Debug, PartialEq, Eq)]
pub enum BulkTransferEvent {
    Offered(FileTransferManifest),
    Progress { transfer_id: u128, bytes_done: u64, bytes_total: u64, current_file: String },
    Sent { transfer_id: u128 },
    Completed { transfer_id: u128, cache_paths: Vec<String> },
    Cancelled(u128),
    Failed { transfer_id: u128, error: String },
}

pub enum BulkEventView {
    Offered(FileTransferManifestView),
    Progress { transfer_id: u128, bytes_done: u64, bytes_total: u64, current_file: Seq<char> },
    Sent { transfer_id: u128 },
    Completed { transfer_id: u128, cache_paths: Seq<Seq<char>> },
    Cancelled(u128),
    Failed { transfer_id: u128, error: Seq<char> },
}

impl View for BulkTransferEvent {
    type V = BulkEventView;

    open spec fn view(&self) -> BulkEventView {
        match self {
            BulkTransferEvent::Offered(manifest) => BulkEventView::Offered(manifest@),
            BulkTransferEvent::Progress { transfer_id, bytes_done, bytes_total, current_file } => {
                BulkEventView::Progress {
                    transfer_id: *transfer_id,
                    bytes_done: *bytes_done,
                    bytes_total: *bytes_total,
                    current_file: current_file@,
                }
            },
            BulkTransferEvent::Sent { transfer_id } => BulkEventView::Sent {
                transfer_id: *transfer_id,
            },
            BulkTransferEvent::Completed { transfer_id, cache_paths } => BulkEventView::Completed {
                transfer_id: *transfer_id,
                cache_paths: views(cache_paths@),
            },
            BulkTransferEvent::Cancelled(transfer_id) => BulkEventView::Cancelled(*transfer_id),
            BulkTransferEvent::Failed { transfer_id, error } => BulkEventView::Failed {
                transfer_id: *transfer_id,
                error: error@,
            },
        }
    }
}

impl Clone for BulkTransferEvent {
    fn clone(&self) -> (r: Self)
        ensures
            r@ == self@,
    {
        match self {
            BulkTransferEvent::Offered(manifest) => BulkTransferEvent::Offered(manifest.clone()),
            BulkTransferEvent::Progress { transfer_id, bytes_done, bytes_total, current_file } => {
                BulkTransferEvent::Progress {
                    transfer_id: *transfer_id,
                    bytes_done: *bytes_done,
                    bytes_total: *bytes_total,
                    current_file: current_file.clone(),
                }
            },
            BulkTransferEvent::Sent { transfer_id } => BulkTransferEvent::Sent {
                transfer_id: *transfer_id,
            },
            BulkTransferEvent::Completed { transfer_id, cache_paths } => {
                BulkTransferEvent::Completed {
                    transfer_id: *transfer_id,
                    cache_paths: clone_texts(cache_paths),
                }
            },
            BulkTransferEvent::Cancelled(transfer_id) => BulkTransferEvent::Cancelled(*transfer_id),
            BulkTransferEvent::Failed { transfer_id, error } => BulkTransferEvent::Failed {
                transfer_id: *transfer_id,
                error: error.clone(),
            },
        }
    }
}

impl BulkEventView {
    /// The transfer that an event is about.
    pub open spec fn id(self) -> u128 {
        match self {
            BulkEventView::Offered(manifest) => manifest.transfer_id,
            BulkEventView::Progress { transfer_id, .. } => transfer_id,
            BulkEventView::Sent { transfer_id } => transfer_id,
            BulkEventView::Completed { transfer_id, .. } => transfer_id,
            BulkEventView::Cancelled(transfer_id) => transfer_id,
            BulkEventView::Failed { transfer_id, .. } => transfer_id,
        }
    }

    /// Nothing more will be reported of the transfer.
    pub open spec fn terminal(self) -> bool {
        self is Sent || self is Completed || self is Cancelled || self is Failed
    }
}

/// The transfer that an event is about.
pub fn bulk_transfer_event_id(event: &BulkTransferEvent) -> (r: u128)
    ensures
        r == event@.id(),
{
    match event {
        BulkTransferEvent::Offered(manifest) => manifest.transfer_id,
        BulkTransferEvent::Progress { transfer_id, .. } => *transfer_id,
        BulkTransferEvent::Sent { transfer_id } => *transfer_id,
        BulkTransferEvent::Completed { transfer_id, .. } => *transfer_id,
        BulkTransferEvent::Cancelled(transfer_id) => *transfer_id,
        BulkTransferEvent::Failed { transfer_id, .. } => *transfer_id,
    }
}

/// Whether nothing more will be reported of the transfer.
pub fn bulk_transfer_event_is_terminal(event: &BulkTransferEvent) -> (r: bool)
    ensures
        r == event@.terminal(),
{
    match event {
        BulkTransferEvent::Sent { .. } | BulkTransferEvent::Completed { .. }
        | BulkTransferEvent::Cancelled(_) | BulkTransferEvent::Failed { .. } => true,
        BulkTransferEvent::Offered(_) | BulkTransferEvent::Progress { .. } => false,
    }
}

#[derive(Debug, PartialEq, Eq)]
pub enum BulkTransferCommand {
    SendManifest(FileTransferManifest),
    SendFiles { manifest: FileTransferManifest, source_paths: Vec<String> },
    Cancel(u128),
    Stop,
}

pub enum BulkCommandView {
    SendManifest(FileTransferManifestView),
    SendFiles { manifest: FileTransferManifestView, source_paths: Seq<Seq<char>> },
    Cancel(u128),
    Stop,
}

impl View for BulkTransferCommand {
    type V = BulkCommandView;

    open spec fn view(&self) -> BulkCommandView {
        match self {
            BulkTransferCommand::SendManifest(manifest) => BulkCommandView::SendManifest(manifest@),
            BulkTransferCommand::SendFiles { manifest, source_paths } => {
                BulkCommandView::SendFiles {
                    manifest: manifest@,
                    source_paths: views(source_paths@),
                }
            },
            BulkTransferCommand::Cancel(transfer_id) => BulkCommandView::Cancel(*transfer_id),
            BulkTransferCommand::Stop => BulkCommandView::Stop,
        }
    }
}

impl Clone for BulkTransferCommand {
    fn clone(&self) -> (r: Self)
        ensures
            r@ == self@,
    {
        match self {
            BulkTransferCommand::SendManifest(manifest) => BulkTransferCommand::SendManifest(
                manifest.clone(),
            ),
            BulkTransferCommand::SendFiles { manifest, source_paths } => {
                BulkTransferCommand::SendFiles {
                    manifest: manifest.clone(),
                    source_paths: clone_texts(source_paths),
                }
            },
            BulkTransferCommand::Cancel(transfer_id) => BulkTransferCommand::Cancel(*transfer_id),
            BulkTransferCommand::Stop => BulkTransferCommand::Stop,
        }
    }
}

/// An event is about the transfer that it names, and it is the last one of that transfer
/// exactly if the transfer was sent, completed, called off or failed.
pub proof fn law_events_name_their_transfer(event: BulkEventView)
    ensures
        event matches BulkEventView::Offered(manifest) ==> event.id() == manifest.transfer_id,
        event matches BulkEventView::Progress { transfer_id, .. } ==> event.id() == transfer_id,
        event matches BulkEventView::Sent { transfer_id } ==> event.id() == transfer_id,
        event matches BulkEventView::Completed { transfer_id, .. } ==> event.id() == transfer_id,
        event matches BulkEventView::Cancelled(transfer_id) ==> event.id() == transfer_id,
        event matches BulkEventView::Failed { transfer_id, .. } ==> event.id() == transfer_id,
        event.terminal() <==> !(event is Offered || event is Progress),
{
}

} // verus!
