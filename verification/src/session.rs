//! Messages between the parts of a running session: what a session reports, what
//! it wants done, and what the program tells its window.
use crate::bulk_events::{BulkCommandView, BulkEventView, BulkTransferCommand, BulkTransferEvent};
use crate::clipboard::{
    ClipboardPayload, ClipboardPayloadView, RemoteFileOffer, RemoteFileOfferView,
};
use crate::drag_events::{DragDropEvent, DragEventView};
use crate::geometry::{Point, Rect};
use crate::hooks::SuppressionMode;
use crate::input_event::InputEvent;
use crate::protocol::DragTransfer;
use crate::status::{AppStatus, RunState, StatusView};
use crate::text::views;
use crate::transport::{CommandView, ConnectionCommand, ConnectionEvent, ConnectionEventView};
use vstd::prelude::*;

verus! {

/// What a session reports.
#[derive(Debug, PartialEq, Eq)]
pub enum SessionUpdate {
    Connection(ConnectionEvent),
    Error(String),
    Log(String),
    Rtt(u64),
    RunState(RunState),
    ClipboardQueued { format: String, bytes: u64 },
    ClipboardWritten { format: String, bytes: u64 },
    ClipboardIgnored(String),
    ClipboardError(String),
    BulkTransfer(BulkTransferEvent),
    DragDrop(DragDropEvent),
    ClipboardFileTransferStarted(u128),
    DragDropTransferStarted(u128),
    MouseDiagnostics(String),
}

pub enum UpdateView {
    Connection(ConnectionEventView),
    Error(Seq<char>),
    Log(Seq<char>),
    Rtt(u64),
    RunState(RunState),
    ClipboardQueued { format: Seq<char>, bytes: u64 },
    ClipboardWritten { format: Seq<char>, bytes: u64 },
    ClipboardIgnored(Seq<char>),
    ClipboardError(Seq<char>),
    BulkTransfer(BulkEventView),
    DragDrop(DragEventView),
    ClipboardFileTransferStarted(u128),
    DragDropTransferStarted(u128),
    MouseDiagnostics(Seq<char>),
}

impl View for SessionUpdate {
    type V = UpdateView;

    open spec fn view(&self) -> UpdateView {
        match self {
            SessionUpdate::Connection(event) => UpdateView::Connection(event@),
            SessionUpdate::Error(error) => UpdateView::Error(error@),
            SessionUpdate::Log(message) => UpdateView::Log(message@),
            SessionUpdate::Rtt(rtt) => UpdateView::Rtt(*rtt),
            SessionUpdate::RunState(state) => UpdateView::RunState(*state),
            SessionUpdate::ClipboardQueued { format, bytes } => UpdateView::ClipboardQueued {
                format: format@,
                bytes: *bytes,
            },
            SessionUpdate::ClipboardWritten { format, bytes } => UpdateView::ClipboardWritten {
                format: format@,
                bytes: *bytes,
            },
            SessionUpdate::ClipboardIgnored(reason) => UpdateView::ClipboardIgnored(reason@),
            SessionUpdate::ClipboardError(error) => UpdateView::ClipboardError(error@),
            SessionUpdate::BulkTransfer(event) => UpdateView::BulkTransfer(event@),
            SessionUpdate::DragDrop(event) => UpdateView::DragDrop(event@),
            SessionUpdate::ClipboardFileTransferStarted(id) => {
                UpdateView::ClipboardFileTransferStarted(*id)
            },
            SessionUpdate::DragDropTransferStarted(id) => UpdateView::DragDropTransferStarted(*id),
            SessionUpdate::MouseDiagnostics(summary) => UpdateView::MouseDiagnostics(summary@),
        }
    }
}

/// What the program tells its window.
#[derive(Debug, PartialEq, Eq)]
pub enum RuntimeEvent {
    Status(AppStatus),
    Log(String),
}

pub enum RuntimeEventView {
    Status(StatusView),
    Log(Seq<char>),
}

impl View for RuntimeEvent {
    type V = RuntimeEventView;

    open spec fn view(&self) -> RuntimeEventView {
        match self {
            RuntimeEvent::Status(status) => RuntimeEventView::Status(status@),
            RuntimeEvent::Log(line) => RuntimeEventView::Log(line@),
        }
    }
}

/// What a session is told.
#[derive(Clone, Copy, Debug, PartialEq, Eq, Structural)]
pub enum SessionCommand {
    Stop,
    CancelDragDrop(u128),
}

/// Which channels take commands.
#[derive(Clone, Copy, Debug, PartialEq, Eq, Structural)]
pub struct Channels {
    /// The control connection takes commands.
    pub connection_open: bool,
    /// There is a file transfer channel.
    pub bulk_available: bool,
    /// The last file transfer channel takes commands.
    pub bulk_open: bool,
}

/// Why the local pointer is moved.
#[derive(Clone, Copy, Debug, PartialEq, Eq, Structural)]
pub enum PointerMove {
    Park,
    Return,
}

/// What a session wants done.
#[derive(Debug, PartialEq, Eq)]
pub enum PumpAction {
    /// Tell the control connection.
    Connection(ConnectionCommand),
    /// Tell every file transfer channel.
    BulkAll(BulkTransferCommand),
    /// Tell the last file transfer channel.
    BulkLast(BulkTransferCommand),
    /// Report.
    Update(SessionUpdate),
    /// Let local input pass, or swallow it.
    Suppression(SuppressionMode),
    /// Publish whether the remote desktop has control.
    RemoteActive(bool),
    /// Move the local pointer.
    MoveLocalPointer { desktop: Rect, point: Point, purpose: PointerMove },
    /// Get ready to inject input on a desktop.
    OpenInjector(Rect),
    /// Inject an event.
    Inject(InputEvent),
    /// Release everything that is held down.
    ReleaseInput { log_after_disconnect: bool },
    /// Stop injecting input.
    CloseInjector,
    /// Write to the clipboard.
    WriteClipboard { payload: ClipboardPayload, format: String, bytes: u64 },
    /// Collect the files of a clipboard offer.
    CollectFiles { offer: RemoteFileOffer, bytes: u64 },
    /// Collect the files of a local drag.
    CollectDragFiles { drag: DragTransfer, paths: Vec<String> },
    /// Start a native drag of files.
    StartRemoteDrag { session_id: u128, cache_paths: Vec<String> },
    /// Drop the files of the native drag.
    CommitRemoteDrag { session_id: u128 },
    /// Give up the native drag.
    EndRemoteDrag,
    /// Stop watching the clipboard.
    StopClipboard,
}

pub enum ActionView {
    Connection(CommandView),
    BulkAll(BulkCommandView),
    BulkLast(BulkCommandView),
    Update(UpdateView),
    Suppression(SuppressionMode),
    RemoteActive(bool),
    MoveLocalPointer { desktop: Rect, point: Point, purpose: PointerMove },
    OpenInjector(Rect),
    Inject(InputEvent),
    ReleaseInput { log_after_disconnect: bool },
    CloseInjector,
    WriteClipboard { payload: ClipboardPayloadView, format: Seq<char>, bytes: u64 },
    CollectFiles { offer: RemoteFileOfferView, bytes: u64 },
    CollectDragFiles { drag: DragTransfer, paths: Seq<Seq<char>> },
    StartRemoteDrag { session_id: u128, cache_paths: Seq<Seq<char>> },
    CommitRemoteDrag { session_id: u128 },
    EndRemoteDrag,
    StopClipboard,
}

impl View for PumpAction {
    type V = ActionView;

    open spec fn view(&self) -> ActionView {
        match self {
            PumpAction::Connection(command) => ActionView::Connection(command@),
            PumpAction::BulkAll(command) => ActionView::BulkAll(command@),
            PumpAction::BulkLast(command) => ActionView::BulkLast(command@),
            PumpAction::Update(update) => ActionView::Update(update@),
            PumpAction::Suppression(mode) => ActionView::Suppression(*mode),
            PumpAction::RemoteActive(active) => ActionView::RemoteActive(*active),
            PumpAction::MoveLocalPointer { desktop, point, purpose } => {
                ActionView::MoveLocalPointer { desktop: *desktop, point: *point, purpose: *purpose }
            },
            PumpAction::OpenInjector(desktop) => ActionView::OpenInjector(*desktop),
            PumpAction::Inject(event) => ActionView::Inject(*event),
            PumpAction::ReleaseInput { log_after_disconnect } => ActionView::ReleaseInput {
                log_after_disconnect: *log_after_disconnect,
            },
            PumpAction::CloseInjector => ActionView::CloseInjector,
            PumpAction::WriteClipboard { payload, format, bytes } => ActionView::WriteClipboard {
                payload: payload@,
                format: format@,
                bytes: *bytes,
            },
            PumpAction::CollectFiles { offer, bytes } => ActionView::CollectFiles {
                offer: offer@,
                bytes: *bytes,
            },
            PumpAction::CollectDragFiles { drag, paths } => ActionView::CollectDragFiles {
                drag: *drag,
                paths: views(paths@),
            },
            PumpAction::StartRemoteDrag { session_id, cache_paths } => {
                ActionView::StartRemoteDrag {
                    session_id: *session_id,
                    cache_paths: views(cache_paths@),
                }
            },
            PumpAction::CommitRemoteDrag { session_id } => ActionView::CommitRemoteDrag {
                session_id: *session_id,
            },
            PumpAction::EndRemoteDrag => ActionView::EndRemoteDrag,
            PumpAction::StopClipboard => ActionView::StopClipboard,
        }
    }
}

/// One action.
pub fn one_action(action: PumpAction) -> (r: Vec<PumpAction>)
    ensures
        views(r@) == seq![action@],
{
    let mut r: Vec<PumpAction> = Vec::new();
    r.push(action);
    assert(views(r@) =~= seq![action@]);
    r
}

} // verus!
