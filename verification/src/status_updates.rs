//! How the reports of a session change what the program shows.
use crate::bulk_events::{
    bulk_transfer_event_id, bulk_transfer_event_is_terminal, BulkEventView, BulkTransferEvent,
};
use crate::clipboard::{
    at_most_u64, ClipboardPayload, ClipboardPayloadView, RemoteFileOffer, RemoteFileOfferView,
};
use crate::clipboard_sync::{
    any_clipboard_sharing, clipboard_enabled, clipboard_wire_bytes, wire_size,
};
use crate::config::{AppConfig, TransportMode};
use crate::drag_events::{DragDropEvent, DragEventView};
use crate::file_transfer::{FileManifestEntry, FileManifestEntryView};
use crate::ids::{hyphenated, id_text};
use crate::protocol::{MessageView, WireMessage};
use crate::purposes::{PurposesView, TransferPurposeTracker};
use crate::session::{RuntimeEvent, RuntimeEventView, SessionUpdate, UpdateView};
use crate::stale_pointer::{apply_stale_pointer_packet_update, StalePointerPacketGate};
use crate::status::{averaged, AppStatus, RunState, StatusView};
use crate::text::{decimal, join2, join3, join4, number, opt_view, views};
use crate::transport::{mode_of, runtime_transport_mode, ConnectionEvent, ConnectionEventView};
use vstd::prelude::*;

verus! {

broadcast use crate::text::lemma_views_push;

/// The status, and what the window has been told.
#[verifier::ext_equal]
pub struct ShownView {
    pub status: StatusView,
    pub told: Seq<RuntimeEventView>,
}

/// The view of a status and of the events for the window.
pub open spec fn shown(status: AppStatus, events: Seq<RuntimeEvent>) -> ShownView {
    ShownView { status: status@, told: views(events) }
}

impl ShownView {
    /// With one more line in the log, of which the window is told.
    pub open spec fn log(self, line: Seq<char>) -> ShownView {
        ShownView {
            status: self.status.with_log(line),
            told: self.told.push(RuntimeEventView::Log(line)),
        }
    }

    /// With another status, of which the window is not told yet.
    pub open spec fn with(self, status: StatusView) -> ShownView {
        ShownView { status, ..self }
    }

    /// The window is told the status.
    pub open spec fn publish(self) -> ShownView {
        ShownView { told: self.told.push(RuntimeEventView::Status(self.status)), ..self }
    }
}

pub fn emit_log(status: &mut AppStatus, events: &mut Vec<RuntimeEvent>, message: String)
    ensures
        shown(*final(status), final(events)@) == shown(*old(status), old(events)@).log(message@),
{
    status.push_log(message.clone());
    events.push(RuntimeEvent::Log(message));
}

pub fn emit_status(status: &AppStatus, events: &mut Vec<RuntimeEvent>)
    ensures
        shown(*status, final(events)@) == shown(*status, old(events)@).publish(),
{
    events.push(RuntimeEvent::Status(status.clone()));
}

impl ShownView {
    pub open spec fn clipboard_queued(self, format: Seq<char>, bytes: u64) -> ShownView {
        self.clipboard_moved("clipboard queued: "@, format, bytes)
    }

    pub open spec fn clipboard_written(self, format: Seq<char>, bytes: u64) -> ShownView {
        self.clipboard_moved("clipboard written: "@, format, bytes)
    }

    /// Clipboard content was sent or written.
    pub open spec fn clipboard_moved(
        self,
        what: Seq<char>,
        format: Seq<char>,
        bytes: u64,
    ) -> ShownView {
        self.with(
            StatusView {
                last_clipboard_format: Some(format),
                last_clipboard_bytes: Some(bytes),
                clipboard_ignored_reason: None,
                ..self.status
            },
        ).log(what + format + " ("@ + decimal(bytes as nat) + " bytes)"@)
    }

    pub open spec fn clipboard_ignored(self, reason: Seq<char>) -> ShownView {
        self.with(StatusView { clipboard_ignored_reason: Some(reason), ..self.status }).log(
            "clipboard ignored: "@ + reason,
        )
    }

    pub open spec fn clipboard_failed(self, error: Seq<char>) -> ShownView {
        self.with(
            StatusView {
                last_error: Some(error),
                clipboard_ignored_reason: Some(error),
                ..self.status
            },
        ).log("clipboard error: "@ + error)
    }
}

fn apply_clipboard_moved(
    status: &mut AppStatus,
    events: &mut Vec<RuntimeEvent>,
    what: &str,
    format: String,
    bytes: u64,
)
    ensures
        shown(*final(status), final(events)@) == shown(*old(status), old(events)@).clipboard_moved(
            what@,
            format@,
            bytes,
        ),
{
    let bytes_text = number(bytes);
    let start = join4(what, format.as_str(), " (", bytes_text.as_str());
    let line = join2(start.as_str(), " bytes)");
    status.last_clipboard_format = Some(format);
    status.last_clipboard_bytes = Some(bytes);
    status.clipboard_ignored_reason = None;
    emit_log(status, events, line);
}

pub fn apply_clipboard_queued_status(
    status: &mut AppStatus,
    events: &mut Vec<RuntimeEvent>,
    format: String,
    bytes: u64,
)
    ensures
        shown(*final(status), final(events)@) == shown(*old(status), old(events)@).clipboard_queued(
            format@,
            bytes,
        ),
{
    apply_clipboard_moved(status, events, "clipboard queued: ", format, bytes);
}

pub fn apply_clipboard_written_status(
    status: &mut AppStatus,
    events: &mut Vec<RuntimeEvent>,
    format: String,
    bytes: u64,
)
    ensures
        shown(*final(status), final(events)@)
            == shown(*old(status), old(events)@).clipboard_written(format@, bytes),
{
    apply_clipboard_moved(status, events, "clipboard written: ", format, bytes);
}

pub fn apply_clipboard_ignored_status(
    status: &mut AppStatus,
    events: &mut Vec<RuntimeEvent>,
    reason: String,
)
    ensures
        shown(*final(status), final(events)@)
            == shown(*old(status), old(events)@).clipboard_ignored(reason@),
{
    let line = join2("clipboard ignored: ", reason.as_str());
    status.clipboard_ignored_reason = Some(reason);
    emit_log(status, events, line);
}

pub fn apply_clipboard_error_status(
    status: &mut AppStatus,
    events: &mut Vec<RuntimeEvent>,
    error: String,
)
    ensures
        shown(*final(status), final(events)@) == shown(*old(status), old(events)@).clipboard_failed(
            error@,
        ),
{
    let line = join2("clipboard error: ", error.as_str());
    status.last_error = Some(error.clone());
    status.clipboard_ignored_reason = Some(error);
    emit_log(status, events, line);
}

impl StatusView {
    /// The status of a session that begins.
    pub open spec fn running(self, config: AppConfig, run_state: RunState) -> StatusView {
        StatusView {
            run_state,
            transport_mode: Some(mode_of(config)),
            clipboard_enabled: any_clipboard_sharing(config.sharing),
            drag_drop_enabled: config.sharing.real_file_drag_drop,
            drag_drop_state: if config.sharing.real_file_drag_drop {
                Some("ready"@)
            } else {
                None
            },
            ..self.reset()
        }
    }

    /// The status of a program that was stopped.
    pub open spec fn stopped(self) -> StatusView {
        StatusView { run_state: RunState::Stopped, ..self.reset() }
    }
}

pub fn prepare_running_status(status: &mut AppStatus, config: &AppConfig, run_state: RunState)
    ensures
        final(status)@ == old(status)@.running(*config, run_state),
{
    status.reset_runtime_fields();
    status.run_state = run_state;
    status.transport_mode = Some(runtime_transport_mode(config));
    status.clipboard_enabled = clipboard_enabled(config);
    status.drag_drop_enabled = config.sharing.real_file_drag_drop;
    if config.sharing.real_file_drag_drop {
        status.drag_drop_state = Some("ready".to_owned());
    }
}

pub fn prepare_stopped_status(status: &mut AppStatus)
    ensures
        final(status)@ == old(status)@.stopped(),
{
    status.reset_runtime_fields();
    status.run_state = RunState::Stopped;
}

impl StatusView {
    /// The status without a drag that ended.
    pub open spec fn drag_ended(self, session_id: u128, state: Seq<char>) -> StatusView {
        StatusView {
            active_drag_session: if self.active_drag_session == Some(session_id) {
                None
            } else {
                self.active_drag_session
            },
            drag_drop_state: Some(state),
            ..self
        }
    }

    /// The status with a drag under way.
    pub open spec fn drag_active(self, session_id: u128, state: Seq<char>) -> StatusView {
        StatusView {
            active_drag_session: Some(session_id),
            drag_drop_state: Some(state),
            ..self
        }
    }
}

impl ShownView {
    /// What is shown of a drag event.
    pub open spec fn drag_event(self, event: DragEventView) -> ShownView {
        match event {
            DragEventView::LocalFileDragEntered { session_id, paths, .. } => self.with(
                self.status.drag_active(session_id, "transferring files"@),
            ).log(
                "file drag/drop detected: "@ + decimal(paths.len()) + " path(s), session "@
                    + hyphenated(session_id),
            ),
            DragEventView::LocalDragCancelled { session_id } => self.with(
                self.status.drag_ended(session_id, "cancelled"@),
            ).log("file drag/drop cancelled: "@ + hyphenated(session_id)),
            DragEventView::LocalDropCommitted { session_id } => self.with(
                self.status.drag_ended(session_id, "handoff committed"@),
            ).log("file drag/drop handoff committed: "@ + hyphenated(session_id)),
            DragEventView::RemoteDropStarted { session_id } => self.with(
                self.status.drag_active(session_id, "remote dragging"@),
            ).log("remote file drag/drop started: "@ + hyphenated(session_id)),
            DragEventView::RemoteDropFinished { session_id } => self.with(
                self.status.drag_ended(session_id, "dropped"@),
            ).log("remote file drag/drop finished: "@ + hyphenated(session_id)),
            DragEventView::Error { session_id, message } => self.with(
                StatusView {
                    active_drag_session: if session_id is Some && self.status.active_drag_session
                        == session_id {
                        None
                    } else {
                        self.status.active_drag_session
                    },
                    drag_drop_state: Some("failed"@),
                    last_error: Some(message),
                    ..self.status
                },
            ).log(
                match session_id {
                    Some(id) => "file drag/drop error "@ + hyphenated(id) + ": "@ + message,
                    None => "file drag/drop error: "@ + message,
                },
            ),
        }
    }
}

fn end_drag(status: &mut AppStatus, session_id: u128, state: &str)
    ensures
        final(status)@ == old(status)@.drag_ended(session_id, state@),
{
    if status.active_drag_session == Some(session_id) {
        status.active_drag_session = None;
    }
    status.drag_drop_state = Some(state.to_owned());
}

fn begin_drag(status: &mut AppStatus, session_id: u128, state: &str)
    ensures
        final(status)@ == old(status)@.drag_active(session_id, state@),
{
    status.active_drag_session = Some(session_id);
    status.drag_drop_state = Some(state.to_owned());
}

pub fn apply_drag_drop_status_update(
    status: &mut AppStatus,
    events: &mut Vec<RuntimeEvent>,
    event: DragDropEvent,
)
    ensures
        shown(*final(status), final(events)@) == shown(*old(status), old(events)@).drag_event(
            event@,
        ),
{
    let line = match event {
        DragDropEvent::LocalFileDragEntered { session_id, transfer_id: _, paths } => {
            begin_drag(status, session_id, "transferring files");
            let count_text = number(paths.len() as u64);
            let session_text = id_text(session_id);
            join4(
                "file drag/drop detected: ",
                count_text.as_str(),
                " path(s), session ",
                session_text.as_str(),
            )
        },
        DragDropEvent::LocalDragCancelled { session_id } => {
            end_drag(status, session_id, "cancelled");
            join2("file drag/drop cancelled: ", id_text(session_id).as_str())
        },
        DragDropEvent::LocalDropCommitted { session_id } => {
            end_drag(status, session_id, "handoff committed");
            join2("file drag/drop handoff committed: ", id_text(session_id).as_str())
        },
        DragDropEvent::RemoteDropStarted { session_id } => {
            begin_drag(status, session_id, "remote dragging");
            join2("remote file drag/drop started: ", id_text(session_id).as_str())
        },
        DragDropEvent::RemoteDropFinished { session_id } => {
            end_drag(status, session_id, "dropped");
            join2("remote file drag/drop finished: ", id_text(session_id).as_str())
        },
        DragDropEvent::Error { session_id, message } => {
            let line = match session_id {
                Some(id) => {
                    if status.active_drag_session == Some(id) {
                        status.active_drag_session = None;
                    }
                    join4(
                        "file drag/drop error ",
                        id_text(id).as_str(),
                        ": ",
                        message.as_str(),
                    )
                },
                None => join2("file drag/drop error: ", message.as_str()),
            };
            status.drag_drop_state = Some("failed".to_owned());
            status.last_error = Some(message);
            line
        },
    };
    emit_log(status, events, line);
}

/// The clipboard content that arrived files make.
pub open spec fn arrived_payload(
    transfer_id: u128,
    cache_paths: Seq<Seq<char>>,
) -> ClipboardPayloadView {
    ClipboardPayloadView::Files(
        RemoteFileOfferView {
            transfer_id,
            files: cache_paths.map_values(
                |path: Seq<char>|
                    FileManifestEntryView {
                        relative_path: path,
                        size_bytes: 0,
                        is_dir: false,
                        blake3_hex: None,
                    },
            ),
        },
    )
}

pub fn clipboard_payload_for_completed_bulk_transfer(
    transfer_id: u128,
    cache_paths: &Vec<String>,
) -> (r: ClipboardPayload)
    ensures
        r@ == arrived_payload(transfer_id, views(cache_paths@)),
{
    let ghost wanted = arrived_payload(transfer_id, views(cache_paths@))->Files_0.files;
    let mut files: Vec<FileManifestEntry> = Vec::new();
    let mut i: usize = 0;
    while i < cache_paths.len()
        invariant
            i <= cache_paths@.len(),
            wanted == arrived_payload(transfer_id, views(cache_paths@))->Files_0.files,
            views(files@) == wanted.take(i as int),
        decreases cache_paths@.len() - i,
    {
        files.push(FileManifestEntry::file(cache_paths[i].as_str(), 0));
        assert(views(files@) =~= wanted.take(i as int + 1));
        i = i + 1;
    }
    assert(views(files@) =~= wanted);
    ClipboardPayload::Files(RemoteFileOffer { transfer_id, files })
}

impl StatusView {
    /// The status once a transfer is over.
    pub open spec fn transfer_over(self, transfer_id: u128) -> StatusView {
        StatusView {
            transfer_active: false,
            transfer_id: Some(transfer_id),
            transfer_current_file: None,
            ..self
        }
    }

    /// The status of a transfer under way.
    pub open spec fn transfer_at(
        self,
        transfer_id: u128,
        bytes_done: u64,
        bytes_total: u64,
        current_file: Seq<char>,
    ) -> StatusView {
        StatusView {
            transfer_active: true,
            transfer_id: Some(transfer_id),
            transfer_bytes_done: bytes_done,
            transfer_bytes_total: bytes_total,
            transfer_current_file: Some(current_file),
            ..self
        }
    }
}

impl ShownView {
    /// What is shown of files that arrived. If they fill the clipboard, `written`
    /// tells whether that worked.
    pub open spec fn transfer_arrived(
        self,
        transfer_id: u128,
        cache_paths: Seq<Seq<char>>,
        fill_clipboard: bool,
        written: Result<(), Seq<char>>,
    ) -> ShownView {
        let over = StatusView {
            transfer_bytes_done: self.status.transfer_bytes_total,
            ..self.status.transfer_over(transfer_id)
        };
        let ready = if fill_clipboard {
            match written {
                Ok(_) => self.with(
                    StatusView {
                        last_clipboard_format: Some("files"@),
                        last_clipboard_bytes: Some(
                            at_most_u64(wire_size(arrived_payload(transfer_id, cache_paths))),
                        ),
                        clipboard_ignored_reason: None,
                        ..over
                    },
                ).log("Remote files ready to paste"@),
                Err(error) => self.with(
                    StatusView {
                        last_error: Some("file clipboard write failed: "@ + error),
                        ..over
                    },
                ).log("file clipboard write failed: "@ + error),
            }
        } else {
            self.with(over).log("Remote files ready for drag/drop"@)
        };
        ready.log(
            "bulk transfer "@ + hyphenated(transfer_id) + " completed: "@ + decimal(
                cache_paths.len(),
            ) + " file(s)"@,
        )
    }

    /// What is shown of a transfer event.
    pub open spec fn bulk_event(
        self,
        event: BulkEventView,
        fill_clipboard: bool,
        written: Result<(), Seq<char>>,
    ) -> ShownView {
        match event {
            BulkEventView::Offered(manifest) => self.with(
                self.status.transfer_at(
                    manifest.transfer_id,
                    0,
                    manifest.total_bytes,
                    manifest.root_name,
                ),
            ).log(
                "bulk transfer offered: "@ + manifest.root_name + " ("@ + decimal(
                    manifest.total_bytes as nat,
                ) + " bytes)"@,
            ),
            BulkEventView::Progress { transfer_id, bytes_done, bytes_total, current_file } => {
                self.with(
                    self.status.transfer_at(transfer_id, bytes_done, bytes_total, current_file),
                ).log(
                    "bulk transfer "@ + hyphenated(transfer_id) + ": "@ + decimal(bytes_done as nat)
                        + "/"@ + decimal(bytes_total as nat) + " bytes ("@ + current_file + ")"@,
                )
            },
            BulkEventView::Sent { transfer_id } => self.with(
                self.status.transfer_over(transfer_id),
            ).log("bulk transfer "@ + hyphenated(transfer_id) + " sent"@),
            BulkEventView::Completed { transfer_id, cache_paths } => self.transfer_arrived(
                transfer_id,
                cache_paths,
                fill_clipboard,
                written,
            ),
            BulkEventView::Cancelled(transfer_id) => self.with(
                self.status.transfer_over(transfer_id),
            ).log("bulk transfer "@ + hyphenated(transfer_id) + " cancelled"@),
            BulkEventView::Failed { transfer_id, error } => self.with(
                StatusView {
                    last_error: Some(error),
                    ..self.status.transfer_over(transfer_id)
                },
            ).log("bulk transfer "@ + hyphenated(transfer_id) + " failed: "@ + error),
        }
    }
}

/// The view of the outcome of a write.
pub open spec fn written_view(written: Result<(), String>) -> Result<(), Seq<char>> {
    match written {
        Ok(_) => Ok(()),
        Err(error) => Err(error@),
    }
}

fn end_transfer(status: &mut AppStatus, transfer_id: u128)
    ensures
        final(status)@ == old(status)@.transfer_over(transfer_id),
{
    status.transfer_active = false;
    status.transfer_id = Some(transfer_id);
    status.transfer_current_file = None;
}

fn show_transfer(
    status: &mut AppStatus,
    transfer_id: u128,
    bytes_done: u64,
    bytes_total: u64,
    current_file: String,
)
    ensures
        final(status)@ == old(status)@.transfer_at(
            transfer_id,
            bytes_done,
            bytes_total,
            current_file@,
        ),
{
    status.transfer_active = true;
    status.transfer_id = Some(transfer_id);
    status.transfer_bytes_done = bytes_done;
    status.transfer_bytes_total = bytes_total;
    status.transfer_current_file = Some(current_file);
}

fn apply_transfer_arrived(
    status: &mut AppStatus,
    events: &mut Vec<RuntimeEvent>,
    transfer_id: u128,
    cache_paths: Vec<String>,
    fill_clipboard: bool,
    written: Result<(), String>,
)
    ensures
        shown(*final(status), final(events)@) == shown(*old(status), old(events)@).transfer_arrived(
            transfer_id,
            views(cache_paths@),
            fill_clipboard,
            written_view(written),
        ),
{
    end_transfer(status, transfer_id);
    status.transfer_bytes_done = status.transfer_bytes_total;
    if fill_clipboard {
        match written {
            Ok(_) => {
                let payload = clipboard_payload_for_completed_bulk_transfer(
                    transfer_id,
                    &cache_paths,
                );
                status.last_clipboard_format = Some("files".to_owned());
                status.last_clipboard_bytes = Some(clipboard_wire_bytes(&payload));
                status.clipboard_ignored_reason = None;
                emit_log(status, events, "Remote files ready to paste".to_owned());
            },
            Err(error) => {
                let line = join2("file clipboard write failed: ", error.as_str());
                status.last_error = Some(line.clone());
                emit_log(status, events, line);
            },
        }
    } else {
        emit_log(status, events, "Remote files ready for drag/drop".to_owned());
    }
    let count_text = number(cache_paths.len() as u64);
    let start = join4(
        "bulk transfer ",
        id_text(transfer_id).as_str(),
        " completed: ",
        count_text.as_str(),
    );
    emit_log(status, events, join2(start.as_str(), " file(s)"));
}

pub fn apply_bulk_transfer_status_update(
    status: &mut AppStatus,
    events: &mut Vec<RuntimeEvent>,
    event: BulkTransferEvent,
    write_clipboard_on_complete: bool,
    written: Result<(), String>,
)
    ensures
        shown(*final(status), final(events)@) == shown(*old(status), old(events)@).bulk_event(
            event@,
            write_clipboard_on_complete,
            written_view(written),
        ),
{
    let line = match event {
        BulkTransferEvent::Offered(manifest) => {
            let bytes_text = number(manifest.total_bytes);
            let start = join4(
                "bulk transfer offered: ",
                manifest.root_name.as_str(),
                " (",
                bytes_text.as_str(),
            );
            let line = join2(start.as_str(), " bytes)");
            show_transfer(
                status,
                manifest.transfer_id,
                0,
                manifest.total_bytes,
                manifest.root_name,
            );
            line
        },
        BulkTransferEvent::Progress { transfer_id, bytes_done, bytes_total, current_file } => {
            let done_text = number(bytes_done);
            let total_text = number(bytes_total);
            let start = join4(
                "bulk transfer ",
                id_text(transfer_id).as_str(),
                ": ",
                done_text.as_str(),
            );
            let middle = join4(start.as_str(), "/", total_text.as_str(), " bytes (");
            let line = join3(middle.as_str(), current_file.as_str(), ")");
            show_transfer(status, transfer_id, bytes_done, bytes_total, current_file);
            line
        },
        BulkTransferEvent::Sent { transfer_id } => {
            end_transfer(status, transfer_id);
            join3("bulk transfer ", id_text(transfer_id).as_str(), " sent")
        },
        BulkTransferEvent::Completed { transfer_id, cache_paths } => {
            apply_transfer_arrived(
                status,
                events,
                transfer_id,
                cache_paths,
                write_clipboard_on_complete,
                written,
            );
            return;
        },
        BulkTransferEvent::Cancelled(transfer_id) => {
            end_transfer(status, transfer_id);
            join3("bulk transfer ", id_text(transfer_id).as_str(), " cancelled")
        },
        BulkTransferEvent::Failed { transfer_id, error } => {
            end_transfer(status, transfer_id);
            let line = join4(
                "bulk transfer ",
                id_text(transfer_id).as_str(),
                " failed: ",
                error.as_str(),
            );
            status.last_error = Some(error);
            line
        },
    };
    emit_log(status, events, line);
}

impl StatusView {
    /// The status after a connection event.
    pub open spec fn connection_event(self, event: ConnectionEventView) -> StatusView {
        match event {
            ConnectionEventView::Waiting => StatusView { run_state: RunState::Waiting, ..self },
            ConnectionEventView::Connecting(_) => StatusView {
                run_state: RunState::Connecting,
                ..self
            },
            ConnectionEventView::Connected { mode, .. } => StatusView {
                run_state: RunState::Connected,
                transport_mode: Some(mode),
                last_error: None,
                ..self
            },
            ConnectionEventView::Disconnected(_) => StatusView {
                run_state: RunState::Reconnecting,
                ..self
            },
            ConnectionEventView::LatestPointer { sequence, .. } => StatusView {
                latest_pointer_sequence: Some(sequence),
                ..self
            },
            ConnectionEventView::StalePointerPackets { count } => StatusView {
                stale_pointer_packets: count,
                ..self
            },
            ConnectionEventView::Error(error) => StatusView {
                run_state: RunState::Error,
                last_error: Some(error),
                ..self
            },
            ConnectionEventView::Message(MessageView::Error(error)) => StatusView {
                run_state: RunState::Error,
                last_error: Some(error),
                ..self
            },
            ConnectionEventView::Message(_) => self,
        }
    }
}

pub fn apply_connection_event_to_status(status: &mut AppStatus, event: &ConnectionEvent)
    ensures
        final(status)@ == old(status)@.connection_event(event@),
{
    match event {
        ConnectionEvent::Waiting => {
            status.run_state = RunState::Waiting;
        },
        ConnectionEvent::Connecting(_) => {
            status.run_state = RunState::Connecting;
        },
        ConnectionEvent::Connected { peer: _, mode } => {
            status.run_state = RunState::Connected;
            status.transport_mode = Some(*mode);
            status.last_error = None;
        },
        ConnectionEvent::Disconnected(_) => {
            status.run_state = RunState::Reconnecting;
        },
        ConnectionEvent::LatestPointer { x: _, y: _, sequence } => {
            status.latest_pointer_sequence = Some(*sequence);
        },
        ConnectionEvent::StalePointerPackets { count } => {
            status.stale_pointer_packets = *count;
        },
        ConnectionEvent::Error(error) => {
            status.run_state = RunState::Error;
            status.last_error = Some(error.clone());
        },
        ConnectionEvent::Message(WireMessage::Error(error)) => {
            status.run_state = RunState::Error;
            status.last_error = Some(error.clone());
        },
        ConnectionEvent::Message(_) => {},
    }
}

/// Whether the window is told of a connection event.
pub open spec fn worth_telling(event: ConnectionEventView) -> bool {
    match event {
        ConnectionEventView::Message(m) => m is Error,
        ConnectionEventView::StalePointerPackets { .. } => false,
        _ => true,
    }
}

pub fn connection_event_updates_status(event: &ConnectionEvent) -> (r: bool)
    ensures
        r == worth_telling(event@),
{
    match event {
        ConnectionEvent::Message(WireMessage::Error(_)) => true,
        ConnectionEvent::Message(_) | ConnectionEvent::StalePointerPackets { .. } => false,
        _ => true,
    }
}

/// The name of a transport.
pub open spec fn mode_name(mode: TransportMode) -> Seq<char> {
    match mode {
        TransportMode::Tcp => "Tcp"@,
        TransportMode::Kcp => "Kcp"@,
    }
}

fn mode_text(mode: TransportMode) -> (r: &'static str)
    ensures
        r@ == mode_name(mode),
{
    match mode {
        TransportMode::Tcp => "Tcp",
        TransportMode::Kcp => "Kcp",
    }
}

/// The log line for a connection event.
pub open spec fn connection_line(event: ConnectionEventView) -> Option<Seq<char>> {
    match event {
        ConnectionEventView::Waiting => Some("waiting for connection"@),
        ConnectionEventView::Connecting(peer) => Some("connection endpoint "@ + peer),
        ConnectionEventView::Connected { peer, mode } => Some(
            "connected "@ + peer + " via "@ + mode_name(mode),
        ),
        ConnectionEventView::Disconnected(peer) => Some("disconnected "@ + peer),
        ConnectionEventView::Error(error) => Some("connection error: "@ + error),
        ConnectionEventView::Message(MessageView::Error(error)) => Some("peer error: "@ + error),
        ConnectionEventView::Message(_) | ConnectionEventView::LatestPointer { .. }
        | ConnectionEventView::StalePointerPackets { .. } => None,
    }
}

pub fn connection_event_log(event: &ConnectionEvent) -> (r: Option<String>)
    ensures
        opt_view(r) == connection_line(event@),
{
    match event {
        ConnectionEvent::Waiting => Some("waiting for connection".to_owned()),
        ConnectionEvent::Connecting(peer) => Some(join2("connection endpoint ", peer.as_str())),
        ConnectionEvent::Connected { peer, mode } => Some(
            join4("connected ", peer.as_str(), " via ", mode_text(*mode)),
        ),
        ConnectionEvent::Disconnected(peer) => Some(join2("disconnected ", peer.as_str())),
        ConnectionEvent::Error(error) => Some(join2("connection error: ", error.as_str())),
        ConnectionEvent::Message(WireMessage::Error(error)) => Some(
            join2("peer error: ", error.as_str()),
        ),
        ConnectionEvent::Message(_) | ConnectionEvent::LatestPointer { .. }
        | ConnectionEvent::StalePointerPackets { .. } => None,
    }
}

/// Everything that reports change: what is shown, when outdated packets were
/// reported last, and what transfers are for.
#[verifier::ext_equal]
pub struct BoardView {
    pub shown: ShownView,
    pub gate: StalePointerPacketGate,
    pub purposes: PurposesView,
}

impl BoardView {
    pub open spec fn show(self, shown: ShownView) -> BoardView {
        BoardView { shown, ..self }
    }

    /// The window is told the status.
    pub open spec fn publish(self) -> BoardView {
        self.show(self.shown.publish())
    }

    pub open spec fn connection(self, event: ConnectionEventView, now_millis: u64) -> BoardView {
        match event {
            ConnectionEventView::StalePointerPackets { count } => {
                let counted = BoardView {
                    shown: self.shown.with(
                        StatusView { stale_pointer_packets: count, ..self.shown.status },
                    ),
                    gate: self.gate.after(count, now_millis),
                    ..self
                };
                if self.gate.opens(count, now_millis) {
                    counted.show(
                        counted.shown.log(
                            "KCP UDP stale pointer packets: "@ + decimal(count as nat),
                        ),
                    ).publish()
                } else {
                    counted
                }
            },
            _ => {
                let changed = self.shown.with(self.shown.status.connection_event(event));
                let logged = match connection_line(event) {
                    Some(line) => changed.log(line),
                    None => changed,
                };
                if worth_telling(event) {
                    self.show(logged).publish()
                } else {
                    self.show(logged)
                }
            },
        }
    }

    /// A transfer event. Files that arrive fill the clipboard or wait for a drag, as
    /// their purpose says; as long as it is not known they are kept.
    pub open spec fn bulk(self, event: BulkEventView, written: Result<(), Seq<char>>) -> BoardView {
        match event {
            BulkEventView::Completed { transfer_id, cache_paths } => if self.purposes.drag.contains(
                transfer_id,
            ) {
                BoardView {
                    shown: self.shown.bulk_event(event, false, written),
                    purposes: self.purposes.without(transfer_id),
                    ..self
                }
            } else if self.purposes.clipboard.contains(transfer_id) {
                BoardView {
                    shown: self.shown.bulk_event(event, true, written),
                    purposes: self.purposes.without(transfer_id),
                    ..self
                }
            } else {
                BoardView {
                    shown: self.shown.with(self.shown.status.transfer_over(transfer_id)).log(
                        "bulk transfer "@ + hyphenated(transfer_id)
                            + " completed, waiting for intent"@,
                    ),
                    purposes: self.purposes.with_arrived(transfer_id, cache_paths),
                    ..self
                }
            },
            _ => BoardView {
                shown: self.shown.bulk_event(event, true, written),
                purposes: if event.terminal() {
                    self.purposes.without(event.id())
                } else {
                    self.purposes
                },
                ..self
            },
        }.publish()
    }

    /// The purpose of a transfer is told. If its files are there already, they are
    /// used at once.
    pub open spec fn purpose(
        self,
        transfer_id: u128,
        fill_clipboard: bool,
        written: Result<(), Seq<char>>,
    ) -> BoardView {
        let marked = if fill_clipboard {
            self.purposes.with_clipboard(transfer_id)
        } else {
            self.purposes.with_drag(transfer_id)
        };
        match self.purposes.arrived(transfer_id) {
            Some(cache_paths) => BoardView {
                shown: self.shown.transfer_arrived(
                    transfer_id,
                    cache_paths,
                    fill_clipboard,
                    written,
                ),
                purposes: marked.taken(transfer_id).without(transfer_id),
                ..self
            }.publish(),
            None => BoardView { purposes: marked.taken(transfer_id), ..self },
        }
    }

    /// A report of the session.
    pub open spec fn update(
        self,
        update: UpdateView,
        now_millis: u64,
        written: Result<(), Seq<char>>,
    ) -> BoardView {
        let status = self.shown.status;
        match update {
            UpdateView::Connection(event) => self.connection(event, now_millis),
            UpdateView::Error(error) => self.show(
                self.shown.with(
                    StatusView { run_state: RunState::Error, last_error: Some(error), ..status },
                ).log("runtime error: "@ + error),
            ).publish(),
            UpdateView::Log(message) => self.show(self.shown.log(message)),
            UpdateView::Rtt(rtt) => self.show(
                self.shown.with(
                    StatusView {
                        recent_rtt_ms: Some(rtt),
                        average_rtt_ms: Some(averaged(status.average_rtt_ms, rtt)),
                        ..status
                    },
                ),
            ).publish(),
            UpdateView::RunState(run_state) => if status.run_state == run_state {
                self
            } else {
                self.show(self.shown.with(StatusView { run_state, ..status })).publish()
            },
            UpdateView::ClipboardQueued { format, bytes } => self.show(
                self.shown.clipboard_queued(format, bytes),
            ).publish(),
            UpdateView::ClipboardWritten { format, bytes } => self.show(
                self.shown.clipboard_written(format, bytes),
            ).publish(),
            UpdateView::ClipboardIgnored(reason) => self.show(
                self.shown.clipboard_ignored(reason),
            ).publish(),
            UpdateView::ClipboardError(error) => self.show(
                self.shown.clipboard_failed(error),
            ).publish(),
            UpdateView::BulkTransfer(event) => self.bulk(event, written),
            UpdateView::DragDrop(event) => self.show(self.shown.drag_event(event)).publish(),
            UpdateView::ClipboardFileTransferStarted(id) => self.purpose(id, true, written),
            UpdateView::DragDropTransferStarted(id) => self.purpose(id, false, written),
            UpdateView::MouseDiagnostics(summary) => self.show(
                self.shown.with(StatusView { mouse_diagnostics: Some(summary), ..status }),
            ).publish(),
        }
    }
}

/// The view of everything that reports change.
pub open spec fn board(
    status: AppStatus,
    events: Seq<RuntimeEvent>,
    gate: StalePointerPacketGate,
    purposes: TransferPurposeTracker,
) -> BoardView {
    BoardView { shown: shown(status, events), gate, purposes: purposes@ }
}

/// The clipboard content that has to be written before a report is applied: the
/// files of a transfer that fills the clipboard and has arrived.
pub open spec fn content_to_write(purposes: PurposesView, update: UpdateView) -> Option<
    ClipboardPayloadView,
> {
    match update {
        UpdateView::BulkTransfer(BulkEventView::Completed { transfer_id, cache_paths }) => {
            if purposes.clipboard.contains(transfer_id) && !purposes.drag.contains(transfer_id) {
                Some(arrived_payload(transfer_id, cache_paths))
            } else {
                None
            }
        },
        UpdateView::ClipboardFileTransferStarted(transfer_id) => match purposes.arrived(
            transfer_id,
        ) {
            Some(cache_paths) => Some(arrived_payload(transfer_id, cache_paths)),
            None => None,
        },
        _ => None,
    }
}

/// The clipboard content that has to be written before a report is applied.
pub fn clipboard_content_to_write(purposes: &TransferPurposeTracker, update: &SessionUpdate) -> (r:
    Option<ClipboardPayload>)
    ensures
        match r {
            Some(payload) => content_to_write(purposes@, update@) == Some(payload@),
            None => content_to_write(purposes@, update@) is None,
        },
{
    match update {
        SessionUpdate::BulkTransfer(
            BulkTransferEvent::Completed { transfer_id, cache_paths },
        ) => {
            if purposes.is_clipboard(*transfer_id) && !purposes.is_drag_drop(*transfer_id) {
                Some(clipboard_payload_for_completed_bulk_transfer(*transfer_id, cache_paths))
            } else {
                None
            }
        },
        SessionUpdate::ClipboardFileTransferStarted(transfer_id) => {
            match purposes.pending_paths(*transfer_id) {
                Some(cache_paths) => Some(
                    clipboard_payload_for_completed_bulk_transfer(*transfer_id, cache_paths),
                ),
                None => None,
            }
        },
        _ => None,
    }
}

fn apply_connection_update(
    status: &mut AppStatus,
    events: &mut Vec<RuntimeEvent>,
    event: &ConnectionEvent,
    gate: &mut StalePointerPacketGate,
    now_millis: u64,
) -> (r: bool)
    ensures
        forall|p: TransferPurposeTracker| #[trigger]
            board(*old(status), old(events)@, *old(gate), p).connection(event@, now_millis)
                == (if r {
                board(*final(status), final(events)@, *final(gate), p).publish()
            } else {
                board(*final(status), final(events)@, *final(gate), p)
            }),
{
    match event {
        ConnectionEvent::StalePointerPackets { count } => {
            match apply_stale_pointer_packet_update(status, gate, *count, now_millis) {
                Some(emission) => {
                    emit_log(status, events, emission.log_message());
                    true
                },
                None => false,
            }
        },
        _ => {
            apply_connection_event_to_status(status, event);
            match connection_event_log(event) {
                Some(line) => {
                    emit_log(status, events, line);
                },
                None => {},
            }
            connection_event_updates_status(event)
        },
    }
}

fn apply_bulk_update(
    status: &mut AppStatus,
    events: &mut Vec<RuntimeEvent>,
    event: BulkTransferEvent,
    purposes: &mut TransferPurposeTracker,
    written: Result<(), String>,
)
    ensures
        forall|gate: StalePointerPacketGate| #[trigger]
            board(*old(status), old(events)@, gate, *old(purposes)).bulk(
                event@,
                written_view(written),
            ) == board(*final(status), final(events)@, gate, *final(purposes)).publish(),
{
    match event {
        BulkTransferEvent::Completed { transfer_id, cache_paths } => {
            if purposes.is_drag_drop(transfer_id) {
                apply_transfer_arrived(status, events, transfer_id, cache_paths, false, written);
                purposes.forget(transfer_id);
            } else if purposes.is_clipboard(transfer_id) {
                apply_transfer_arrived(status, events, transfer_id, cache_paths, true, written);
                purposes.forget(transfer_id);
            } else {
                end_transfer(status, transfer_id);
                let line = join3(
                    "bulk transfer ",
                    id_text(transfer_id).as_str(),
                    " completed, waiting for intent",
                );
                emit_log(status, events, line);
                purposes.remember_unknown_completed(transfer_id, cache_paths);
            }
        },
        event => {
            let transfer_id: u128 = bulk_transfer_event_id(&event);
            let is_terminal = bulk_transfer_event_is_terminal(&event);
            apply_bulk_transfer_status_update(status, events, event, true, written);
            if is_terminal {
                purposes.forget(transfer_id);
            }
        },
    }
}

fn apply_purpose(
    status: &mut AppStatus,
    events: &mut Vec<RuntimeEvent>,
    transfer_id: u128,
    fill_clipboard: bool,
    purposes: &mut TransferPurposeTracker,
    written: Result<(), String>,
) -> (r: bool)
    ensures
        forall|gate: StalePointerPacketGate| #[trigger]
            board(*old(status), old(events)@, gate, *old(purposes)).purpose(
                transfer_id,
                fill_clipboard,
                written_view(written),
            ) == (if r {
                board(*final(status), final(events)@, gate, *final(purposes)).publish()
            } else {
                board(*final(status), final(events)@, gate, *final(purposes))
            }),
{
    let arrived = if fill_clipboard {
        purposes.remember_clipboard(transfer_id)
    } else {
        purposes.remember_drag_drop(transfer_id)
    };
    match arrived {
        Some(cache_paths) => {
            apply_transfer_arrived(
                status,
                events,
                transfer_id,
                cache_paths,
                fill_clipboard,
                written,
            );
            purposes.forget(transfer_id);
            true
        },
        None => false,
    }
}

/// Applies a report of the session. `written` tells whether the clipboard content
/// that the report calls for could be written.
#[verifier::spinoff_prover]
#[verifier::rlimit(30)]
pub fn apply_session_update(
    status: &mut AppStatus,
    events: &mut Vec<RuntimeEvent>,
    update: SessionUpdate,
    stale_pointer_packet_gate: &mut StalePointerPacketGate,
    transfer_purposes: &mut TransferPurposeTracker,
    now_millis: u64,
    written: Result<(), String>,
)
    ensures
        board(
            *final(status),
            final(events)@,
            *final(stale_pointer_packet_gate),
            *final(transfer_purposes),
        ) == board(
            *old(status),
            old(events)@,
            *old(stale_pointer_packet_gate),
            *old(transfer_purposes),
        ).update(update@, now_millis, written_view(written)),
{
    let status_changed = match update {
        SessionUpdate::Connection(event) => apply_connection_update(
            status,
            events,
            &event,
            stale_pointer_packet_gate,
            now_millis,
        ),
        SessionUpdate::Error(error) => {
            let line = join2("runtime error: ", error.as_str());
            status.run_state = RunState::Error;
            status.last_error = Some(error);
            emit_log(status, events, line);
            true
        },
        SessionUpdate::Log(message) => {
            emit_log(status, events, message);
            false
        },
        SessionUpdate::Rtt(rtt) => {
            status.record_rtt(rtt);
            true
        },
        SessionUpdate::RunState(run_state) => {
            if status.run_state != run_state {
                status.run_state = run_state;
                true
            } else {
                false
            }
        },
        SessionUpdate::ClipboardQueued { format, bytes } => {
            apply_clipboard_queued_status(status, events, format, bytes);
            true
        },
        SessionUpdate::ClipboardWritten { format, bytes } => {
            apply_clipboard_written_status(status, events, format, bytes);
            true
        },
        SessionUpdate::ClipboardIgnored(reason) => {
            apply_clipboard_ignored_status(status, events, reason);
            true
        },
        SessionUpdate::ClipboardError(error) => {
            apply_clipboard_error_status(status, events, error);
            true
        },
        SessionUpdate::BulkTransfer(event) => {
            apply_bulk_update(status, events, event, transfer_purposes, written);
            true
        },
        SessionUpdate::DragDrop(event) => {
            apply_drag_drop_status_update(status, events, event);
            true
        },
        SessionUpdate::ClipboardFileTransferStarted(transfer_id) => apply_purpose(
            status,
            events,
            transfer_id,
            true,
            transfer_purposes,
            written,
        ),
        SessionUpdate::DragDropTransferStarted(transfer_id) => apply_purpose(
            status,
            events,
            transfer_id,
            false,
            transfer_purposes,
            written,
        ),
        SessionUpdate::MouseDiagnostics(summary) => {
            status.mouse_diagnostics = Some(summary);
            true
        },
    };
    if status_changed {
        emit_status(status, events);
    }
}

/// A transfer is used for one purpose only once: after its files were handed to the
/// clipboard or to a drag, nothing is known of it any more.
pub proof fn law_used_transfers_are_forgotten(
    board: BoardView,
    transfer_id: u128,
    cache_paths: Seq<Seq<char>>,
    now_millis: u64,
    written: Result<(), Seq<char>>,
)
    requires
        board.purposes.clipboard.contains(transfer_id) || board.purposes.drag.contains(transfer_id),
    ensures
        ({
            let after = board.update(
                UpdateView::BulkTransfer(BulkEventView::Completed { transfer_id, cache_paths }),
                now_millis,
                written,
            ).purposes;
            &&& !after.clipboard.contains(transfer_id)
            &&& !after.drag.contains(transfer_id)
            &&& after.arrived(transfer_id) is None
        }),
{
    crate::purposes::law_early_arrivals_are_kept(board.purposes, transfer_id, cache_paths);
}

/// Two statuses differ at most in their logs.
pub open spec fn same_but_log(a: StatusView, b: StatusView) -> bool {
    a == (StatusView { events: a.events, ..b })
}

proof fn lemma_arrival_shows_the_same(
    a: ShownView,
    b: ShownView,
    transfer_id: u128,
    cache_paths: Seq<Seq<char>>,
    written: Result<(), Seq<char>>,
)
    requires
        same_but_log(a.status, b.status.transfer_over(transfer_id)),
    ensures
        same_but_log(
            a.transfer_arrived(transfer_id, cache_paths, true, written).status,
            b.transfer_arrived(transfer_id, cache_paths, true, written).status,
        ),
{
}

proof fn lemma_early_arrival(
    board: BoardView,
    transfer_id: u128,
    cache_paths: Seq<Seq<char>>,
    written: Result<(), Seq<char>>,
)
    requires
        !board.purposes.clipboard.contains(transfer_id),
        !board.purposes.drag.contains(transfer_id),
    ensures
        ({
            let kept = board.bulk(BulkEventView::Completed { transfer_id, cache_paths }, written);
            &&& kept.purposes.arrived(transfer_id) == Some(cache_paths)
            &&& same_but_log(
                kept.shown.status,
                board.shown.status.transfer_over(transfer_id),
            )
        }),
{
    crate::purposes::law_early_arrivals_are_kept(board.purposes, transfer_id, cache_paths);
}

/// Files whose purpose is told only after they arrived are shown as ready, just as
/// those whose purpose was known before: the status is the same either way, but for
/// the log.
pub proof fn law_purpose_and_arrival_commute(
    board: BoardView,
    transfer_id: u128,
    cache_paths: Seq<Seq<char>>,
    written: Result<(), Seq<char>>,
)
    requires
        !board.purposes.clipboard.contains(transfer_id),
        !board.purposes.drag.contains(transfer_id),
        board.purposes.arrived(transfer_id) is None,
    ensures
        ({
            let arrival = BulkEventView::Completed { transfer_id, cache_paths };
            same_but_log(
                board.bulk(arrival, written).purpose(transfer_id, true, written).shown.status,
                board.purpose(transfer_id, true, written).bulk(arrival, written).shown.status,
            )
        }),
{
    let kept = board.bulk(BulkEventView::Completed { transfer_id, cache_paths }, written);
    lemma_early_arrival(board, transfer_id, cache_paths, written);
    lemma_arrival_shows_the_same(kept.shown, board.shown, transfer_id, cache_paths, written);
}

/// Nothing is known of a transfer.
pub open spec fn unknown(purposes: PurposesView, transfer_id: u128) -> bool {
    &&& !purposes.clipboard.contains(transfer_id)
    &&& !purposes.drag.contains(transfer_id)
    &&& purposes.arrived(transfer_id) is None
}

/// The clipboard as it is shown.
pub open spec fn same_clipboard(a: StatusView, b: StatusView) -> bool {
    &&& a.last_clipboard_format == b.last_clipboard_format
    &&& a.last_clipboard_bytes == b.last_clipboard_bytes
}

/// The status once files arrived whose purpose is known: `before` is what was shown.
spec fn arrived_status(
    before: ShownView,
    transfer_id: u128,
    cache_paths: Seq<Seq<char>>,
    fill_clipboard: bool,
    written: Result<(), Seq<char>>,
) -> StatusView {
    before.transfer_arrived(transfer_id, cache_paths, fill_clipboard, written).status
}

proof fn lemma_purpose_after_arrival(
    board: BoardView,
    transfer_id: u128,
    cache_paths: Seq<Seq<char>>,
    fill_clipboard: bool,
    written: Result<(), Seq<char>>,
)
    requires
        unknown(board.purposes, transfer_id),
    ensures
        ({
            let arrived = board.bulk(BulkEventView::Completed { transfer_id, cache_paths }, written);
            let late = arrived.purpose(transfer_id, fill_clipboard, written);
            &&& !arrived.purposes.clipboard.contains(transfer_id)
            &&& !arrived.purposes.drag.contains(transfer_id)
            &&& arrived.purposes.arrived(transfer_id) == Some(cache_paths)
            &&& same_but_log(
                arrived.shown.status,
                board.shown.status.transfer_over(transfer_id),
            )
            &&& late.shown.status == arrived_status(
                arrived.shown,
                transfer_id,
                cache_paths,
                fill_clipboard,
                written,
            )
            &&& unknown(late.purposes, transfer_id)
        }),
{
    let arrived = board.bulk(BulkEventView::Completed { transfer_id, cache_paths }, written);
    lemma_early_arrival(board, transfer_id, cache_paths, written);
    let marked = if fill_clipboard {
        arrived.purposes.with_clipboard(transfer_id)
    } else {
        arrived.purposes.with_drag(transfer_id)
    };
    crate::purposes::law_early_arrivals_are_kept(
        marked.taken(transfer_id),
        transfer_id,
        cache_paths,
    );
}

proof fn lemma_arrival_after_purpose(
    board: BoardView,
    transfer_id: u128,
    cache_paths: Seq<Seq<char>>,
    fill_clipboard: bool,
    written: Result<(), Seq<char>>,
)
    requires
        unknown(board.purposes, transfer_id),
    ensures
        ({
            let told = board.purpose(transfer_id, fill_clipboard, written);
            let early = told.bulk(BulkEventView::Completed { transfer_id, cache_paths }, written);
            &&& told.purposes.clipboard.contains(transfer_id) == fill_clipboard
            &&& told.purposes.drag.contains(transfer_id) == !fill_clipboard
            &&& early.shown.status == arrived_status(
                board.shown,
                transfer_id,
                cache_paths,
                fill_clipboard,
                written,
            )
            &&& unknown(early.purposes, transfer_id)
        }),
{
    let told = board.purpose(transfer_id, fill_clipboard, written);
    crate::purposes::law_early_arrivals_are_kept(told.purposes, transfer_id, cache_paths);
}

proof fn lemma_drag_arrival_keeps_the_clipboard(
    a: ShownView,
    b: ShownView,
    transfer_id: u128,
    cache_paths: Seq<Seq<char>>,
    written: Result<(), Seq<char>>,
)
    requires
        same_but_log(a.status, b.status.transfer_over(transfer_id)),
    ensures
        ({
            let late = arrived_status(a, transfer_id, cache_paths, false, written);
            let early = arrived_status(b, transfer_id, cache_paths, false, written);
            &&& same_but_log(late, early)
            &&& same_clipboard(late, b.status)
            &&& same_clipboard(early, b.status)
        }),
{
}

proof fn lemma_reports_of_a_transfer(
    board: BoardView,
    transfer_id: u128,
    cache_paths: Seq<Seq<char>>,
    now_millis: u64,
    written: Result<(), Seq<char>>,
)
    ensures
        board.update(
            UpdateView::BulkTransfer(BulkEventView::Completed { transfer_id, cache_paths }),
            now_millis,
            written,
        ) == board.bulk(BulkEventView::Completed { transfer_id, cache_paths }, written),
        board.update(UpdateView::ClipboardFileTransferStarted(transfer_id), now_millis, written)
            == board.purpose(transfer_id, true, written),
        board.update(UpdateView::DragDropTransferStarted(transfer_id), now_millis, written)
            == board.purpose(transfer_id, false, written),
{
}

/// What becomes of the files of a drag: `arrived` is the board once they arrived, `late`
/// that once the drag was told then; `told` is the board once the drag was told, `early`
/// that once the files arrived then.
spec fn drag_files_settled(
    board: BoardView,
    arrived: BoardView,
    late: BoardView,
    told: BoardView,
    early: BoardView,
    transfer_id: u128,
    cache_paths: Seq<Seq<char>>,
) -> bool {
    let arrival = UpdateView::BulkTransfer(BulkEventView::Completed { transfer_id, cache_paths });
    let intent = UpdateView::DragDropTransferStarted(transfer_id);
    &&& content_to_write(board.purposes, arrival) is None
    &&& content_to_write(arrived.purposes, intent) is None
    &&& content_to_write(board.purposes, intent) is None
    &&& content_to_write(told.purposes, arrival) is None
    &&& same_clipboard(late.shown.status, board.shown.status)
    &&& same_clipboard(early.shown.status, board.shown.status)
    &&& same_but_log(late.shown.status, early.shown.status)
    &&& unknown(late.purposes, transfer_id)
    &&& unknown(early.purposes, transfer_id)
}

proof fn lemma_drag_files_settled(
    board: BoardView,
    transfer_id: u128,
    cache_paths: Seq<Seq<char>>,
    written: Result<(), Seq<char>>,
)
    requires
        unknown(board.purposes, transfer_id),
    ensures
        ({
            let arrival = BulkEventView::Completed { transfer_id, cache_paths };
            let arrived = board.bulk(arrival, written);
            let told = board.purpose(transfer_id, false, written);
            drag_files_settled(
                board,
                arrived,
                arrived.purpose(transfer_id, false, written),
                told,
                told.bulk(arrival, written),
                transfer_id,
                cache_paths,
            )
        }),
{
    let arrived = board.bulk(BulkEventView::Completed { transfer_id, cache_paths }, written);
    lemma_purpose_after_arrival(board, transfer_id, cache_paths, false, written);
    lemma_arrival_after_purpose(board, transfer_id, cache_paths, false, written);
    lemma_drag_arrival_keeps_the_clipboard(
        arrived.shown,
        board.shown,
        transfer_id,
        cache_paths,
        written,
    );
}

/// Files of a drag never reach the clipboard, whether the drag is told before or after
/// they arrive: nothing is written, what is shown of the clipboard stays, the status is
/// the same either way but for the log, and the transfer is forgotten.
#[verifier::spinoff_prover]
pub proof fn law_drag_and_arrival_commute(
    board: BoardView,
    transfer_id: u128,
    cache_paths: Seq<Seq<char>>,
    now_millis: u64,
    written: Result<(), Seq<char>>,
)
    requires
        unknown(board.purposes, transfer_id),
    ensures
        ({
            let arrival = UpdateView::BulkTransfer(
                BulkEventView::Completed { transfer_id, cache_paths },
            );
            let intent = UpdateView::DragDropTransferStarted(transfer_id);
            let arrived = board.update(arrival, now_millis, written);
            let late = arrived.update(intent, now_millis, written);
            let told = board.update(intent, now_millis, written);
            let early = told.update(arrival, now_millis, written);
            &&& content_to_write(board.purposes, arrival) is None
            &&& content_to_write(arrived.purposes, intent) is None
            &&& content_to_write(board.purposes, intent) is None
            &&& content_to_write(told.purposes, arrival) is None
            &&& same_clipboard(late.shown.status, board.shown.status)
            &&& same_clipboard(early.shown.status, board.shown.status)
            &&& same_but_log(late.shown.status, early.shown.status)
            &&& unknown(late.purposes, transfer_id)
            &&& unknown(early.purposes, transfer_id)
        }),
{
    let arrival = BulkEventView::Completed { transfer_id, cache_paths };
    let arrived = board.bulk(arrival, written);
    let told = board.purpose(transfer_id, false, written);
    lemma_reports_of_a_transfer(board, transfer_id, cache_paths, now_millis, written);
    lemma_reports_of_a_transfer(arrived, transfer_id, cache_paths, now_millis, written);
    lemma_reports_of_a_transfer(told, transfer_id, cache_paths, now_millis, written);
    lemma_drag_files_settled(board, transfer_id, cache_paths, written);
}

/// What becomes of files that were copied, on the same boards.
spec fn copied_files_settled(
    board: BoardView,
    arrived: BoardView,
    late: BoardView,
    told: BoardView,
    early: BoardView,
    transfer_id: u128,
    cache_paths: Seq<Seq<char>>,
) -> bool {
    let arrival = UpdateView::BulkTransfer(BulkEventView::Completed { transfer_id, cache_paths });
    let intent = UpdateView::ClipboardFileTransferStarted(transfer_id);
    let files = arrived_payload(transfer_id, cache_paths);
    &&& content_to_write(board.purposes, arrival) is None
    &&& content_to_write(arrived.purposes, intent) == Some(files)
    &&& content_to_write(board.purposes, intent) is None
    &&& content_to_write(told.purposes, arrival) == Some(files)
    &&& unknown(late.purposes, transfer_id)
    &&& unknown(early.purposes, transfer_id)
}

proof fn lemma_copied_files_settled(
    board: BoardView,
    transfer_id: u128,
    cache_paths: Seq<Seq<char>>,
    written: Result<(), Seq<char>>,
)
    requires
        unknown(board.purposes, transfer_id),
    ensures
        ({
            let arrival = BulkEventView::Completed { transfer_id, cache_paths };
            let arrived = board.bulk(arrival, written);
            let told = board.purpose(transfer_id, true, written);
            copied_files_settled(
                board,
                arrived,
                arrived.purpose(transfer_id, true, written),
                told,
                told.bulk(arrival, written),
                transfer_id,
                cache_paths,
            )
        }),
{
    lemma_purpose_after_arrival(board, transfer_id, cache_paths, true, written);
    lemma_arrival_after_purpose(board, transfer_id, cache_paths, true, written);
}

/// Files that were copied reach the clipboard exactly once, whether their purpose is told
/// before or after they arrive: what is written lists exactly the files that arrived, and
/// the transfer is forgotten.
#[verifier::spinoff_prover]
pub proof fn law_copied_files_are_written_once(
    board: BoardView,
    transfer_id: u128,
    cache_paths: Seq<Seq<char>>,
    now_millis: u64,
    written: Result<(), Seq<char>>,
)
    requires
        unknown(board.purposes, transfer_id),
    ensures
        ({
            let arrival = UpdateView::BulkTransfer(
                BulkEventView::Completed { transfer_id, cache_paths },
            );
            let intent = UpdateView::ClipboardFileTransferStarted(transfer_id);
            let arrived = board.update(arrival, now_millis, written);
            let late = arrived.update(intent, now_millis, written);
            let told = board.update(intent, now_millis, written);
            let early = told.update(arrival, now_millis, written);
            let files = arrived_payload(transfer_id, cache_paths);
            &&& content_to_write(board.purposes, arrival) is None
            &&& content_to_write(arrived.purposes, intent) == Some(files)
            &&& content_to_write(board.purposes, intent) is None
            &&& content_to_write(told.purposes, arrival) == Some(files)
            &&& unknown(late.purposes, transfer_id)
            &&& unknown(early.purposes, transfer_id)
        }),
{
    let arrived = board.bulk(BulkEventView::Completed { transfer_id, cache_paths }, written);
    let told = board.purpose(transfer_id, true, written);
    lemma_reports_of_a_transfer(board, transfer_id, cache_paths, now_millis, written);
    lemma_reports_of_a_transfer(arrived, transfer_id, cache_paths, now_millis, written);
    lemma_reports_of_a_transfer(told, transfer_id, cache_paths, now_millis, written);
    lemma_copied_files_settled(board, transfer_id, cache_paths, written);
}

/// Clipboard content that moved is shown with its format and size, and nothing was ignored
/// any more; content that was ignored or failed is shown with the reason. Nothing else of
/// the status changes but the log, of which the window is told.
#[verifier::spinoff_prover]
pub proof fn law_clipboard_reports_are_shown(
    before: ShownView,
    format: Seq<char>,
    bytes: u64,
    reason: Seq<char>,
)
    ensures
        ({
            let queued = before.clipboard_queued(format, bytes);
            let written = before.clipboard_written(format, bytes);
            let ignored = before.clipboard_ignored(reason);
            let failed = before.clipboard_failed(reason);
            &&& queued.status == (StatusView {
                last_clipboard_format: Some(format),
                last_clipboard_bytes: Some(bytes),
                clipboard_ignored_reason: None,
                events: queued.status.events,
                ..before.status
            })
            &&& same_but_log(written.status, queued.status)
            &&& ignored.status == (StatusView {
                clipboard_ignored_reason: Some(reason),
                events: ignored.status.events,
                ..before.status
            })
            &&& failed.status == (StatusView {
                clipboard_ignored_reason: Some(reason),
                last_error: Some(reason),
                events: failed.status.events,
                ..before.status
            })
            &&& queued.told.len() == before.told.len() + 1
            &&& queued.told.last() is Log
            &&& queued.told.last()->Log_0 == queued.status.events.last()
            &&& ignored.told.last()->Log_0 == ignored.status.events.last()
            &&& failed.told.last()->Log_0 == failed.status.events.last()
        }),
{
}

/// A session that begins shows its transport, what is shared and that drags are ready if
/// they are allowed, and nothing of the session before; one that was stopped shows nothing
/// but its log.
pub proof fn law_sessions_begin_with_a_clean_status(
    status: StatusView,
    other: StatusView,
    config: AppConfig,
    run_state: RunState,
)
    ensures
        other.events == status.events ==> other.running(config, run_state) == status.running(
            config,
            run_state,
        ) && other.stopped() == status.stopped(),
        ({
            let running = status.running(config, run_state);
            &&& running.run_state == run_state
            &&& running.transport_mode == Some(mode_of(config))
            &&& running.clipboard_enabled <==> config.sharing.clipboard_text
                || config.sharing.clipboard_html || config.sharing.clipboard_images
                || config.sharing.file_copy_paste
            &&& running.drag_drop_enabled == config.sharing.real_file_drag_drop
            &&& running.drag_drop_state is Some <==> config.sharing.real_file_drag_drop
            &&& running.events == status.events
            &&& running.last_error is None
            &&& !running.transfer_active
            &&& running.active_drag_session is None
        }),
        status.stopped().run_state == RunState::Stopped,
        status.stopped().events == status.events,
        status.stopped().last_error is None,
        !status.stopped().transfer_active,
        !status.stopped().clipboard_enabled,
        !status.stopped().drag_drop_enabled,
        status.stopped().active_drag_session is None,
{
}

/// A drag that begins here or there is the one that is shown; one that ends is not shown
/// any more, and another one stays. A failure is shown as the last error.
#[verifier::spinoff_prover]
pub proof fn law_drags_are_shown_while_they_last(before: ShownView, event: DragEventView)
    ensures
        ({
            let after = before.drag_event(event);
            &&& event matches DragEventView::LocalFileDragEntered { session_id, .. }
                ==> after.status.active_drag_session == Some(session_id)
            &&& event matches DragEventView::RemoteDropStarted { session_id }
                ==> after.status.active_drag_session == Some(session_id)
            &&& event matches DragEventView::LocalDragCancelled { session_id }
                ==> after.status.active_drag_session != Some(session_id) && (
            before.status.active_drag_session != Some(session_id)
                ==> after.status.active_drag_session == before.status.active_drag_session)
            &&& event matches DragEventView::LocalDropCommitted { session_id }
                ==> after.status.active_drag_session != Some(session_id) && (
            before.status.active_drag_session != Some(session_id)
                ==> after.status.active_drag_session == before.status.active_drag_session)
            &&& event matches DragEventView::RemoteDropFinished { session_id }
                ==> after.status.active_drag_session != Some(session_id) && (
            before.status.active_drag_session != Some(session_id)
                ==> after.status.active_drag_session == before.status.active_drag_session)
            &&& event matches DragEventView::Error { session_id, message } ==> {
                &&& after.status.last_error == Some(message)
                &&& session_id is Some ==> after.status.active_drag_session != session_id
                &&& session_id is None || before.status.active_drag_session != session_id
                    ==> after.status.active_drag_session == before.status.active_drag_session
            }
            &&& !(event is Error) ==> after.status.last_error == before.status.last_error
            &&& after.status.drag_drop_state is Some
            &&& after.status.run_state == before.status.run_state
            &&& after.status.transfer_active == before.status.transfer_active
            &&& after.told.len() == before.told.len() + 1
            &&& after.told.last() is Log
        }),
{
}

/// A transfer is shown while it runs, with how far it is and the file that moves; once it
/// is sent, called off or failed nothing moves any more, and a failure is the last error.
#[verifier::spinoff_prover]
pub proof fn law_transfers_are_shown_while_they_run(
    before: ShownView,
    event: BulkEventView,
    fill_clipboard: bool,
    written: Result<(), Seq<char>>,
)
    ensures
        ({
            let after = before.bulk_event(event, fill_clipboard, written).status;
            &&& event matches BulkEventView::Offered(manifest) ==> {
                &&& after.transfer_active
                &&& after.transfer_id == Some(manifest.transfer_id)
                &&& after.transfer_bytes_done == 0
                &&& after.transfer_bytes_total == manifest.total_bytes
                &&& after.transfer_current_file == Some(manifest.root_name)
            }
            &&& event matches BulkEventView::Progress {
                transfer_id,
                bytes_done,
                bytes_total,
                current_file,
            } ==> {
                &&& after.transfer_active
                &&& after.transfer_id == Some(transfer_id)
                &&& after.transfer_bytes_done == bytes_done
                &&& after.transfer_bytes_total == bytes_total
                &&& after.transfer_current_file == Some(current_file)
            }
            &&& event is Sent || event is Completed || event is Cancelled || event is Failed ==> {
                &&& !after.transfer_active
                &&& after.transfer_current_file is None
                &&& after.transfer_id == Some(event.id())
                &&& after.transfer_bytes_total == before.status.transfer_bytes_total
            }
            &&& event is Completed ==> after.transfer_bytes_done == after.transfer_bytes_total
            &&& event matches BulkEventView::Failed { error, .. } ==> after.last_error == Some(
                error,
            )
            &&& event is Offered || event is Progress || event is Sent || event is Cancelled
                ==> after.last_error == before.status.last_error
            &&& event is Completed && fill_clipboard && written is Ok ==> {
                &&& after.last_clipboard_format == Some("files"@)
                &&& after.clipboard_ignored_reason is None
                &&& after.last_error == before.status.last_error
            }
            &&& event is Completed && fill_clipboard && written is Err ==> after.last_error == Some(
                "file clipboard write failed: "@ + written->Err_0,
            ) && after.last_clipboard_format == before.status.last_clipboard_format
            &&& event is Completed && !fill_clipboard ==> after.last_clipboard_format
                == before.status.last_clipboard_format && after.last_error
                == before.status.last_error
        }),
{
}

/// The state that is shown follows the connection: each event has its own state, an error
/// of the connection or of the peer is the last error, and a connection clears it. A
/// message or a pointer changes no state.
#[verifier::spinoff_prover]
pub proof fn law_state_follows_the_connection(status: StatusView, event: ConnectionEventView)
    ensures
        ({
            let after = status.connection_event(event);
            let peer_error = event matches ConnectionEventView::Message(m) && m is Error;
            &&& event is Waiting ==> after.run_state == RunState::Waiting
            &&& event is Connecting ==> after.run_state == RunState::Connecting
            &&& event is Connected ==> after.run_state == RunState::Connected
                && after.last_error is None && after.transport_mode is Some
            &&& event matches ConnectionEventView::Connected { mode, .. }
                ==> after.transport_mode == Some(mode)
            &&& event is Disconnected ==> after.run_state == RunState::Reconnecting
            &&& event is Error || peer_error ==> after.run_state == RunState::Error
            &&& event matches ConnectionEventView::Error(error) ==> after.last_error == Some(error)
            &&& event matches ConnectionEventView::Message(MessageView::Error(error))
                ==> after.last_error == Some(error)
            &&& event matches ConnectionEventView::LatestPointer { sequence, .. }
                ==> after.latest_pointer_sequence == Some(sequence) && after.run_state
                == status.run_state
            &&& event matches ConnectionEventView::StalePointerPackets { count }
                ==> after.stale_pointer_packets == count && after.run_state == status.run_state
            &&& event is Message && !peer_error ==> after == status
            &&& !(event is Connected || event is Error || peer_error) ==> after.last_error
                == status.last_error
            &&& after.events == status.events
            &&& after.transfer_active == status.transfer_active
            &&& worth_telling(event) <==> !(event is StalePointerPackets) && (event is Message
                ==> peer_error)
            &&& connection_line(event) is Some <==> !(event is LatestPointer
                || event is StalePointerPackets) && (event is Message ==> peer_error)
        }),
{
}

/// The lines of the log name the peer and what went wrong.
pub proof fn law_lines_name_the_peer(text: Seq<char>, mode: TransportMode)
    ensures
        connection_line(ConnectionEventView::Connecting(text)) == Some(
            "connection endpoint "@ + text,
        ),
        connection_line(ConnectionEventView::Connected { peer: text, mode }) == Some(
            "connected "@ + text + " via "@ + if mode == TransportMode::Tcp {
                "Tcp"@
            } else {
                "Kcp"@
            },
        ),
        connection_line(ConnectionEventView::Disconnected(text)) == Some("disconnected "@ + text),
        connection_line(ConnectionEventView::Error(text)) == Some("connection error: "@ + text),
        connection_line(ConnectionEventView::Message(MessageView::Error(text))) == Some(
            "peer error: "@ + text,
        ),
{
}

/// The content that arrived files make lists each path once, in order, under the number of
/// the transfer.
pub proof fn law_arrived_files_are_listed(transfer_id: u128, cache_paths: Seq<Seq<char>>)
    ensures
        arrived_payload(transfer_id, cache_paths) matches ClipboardPayloadView::Files(offer) && {
            &&& offer.transfer_id == transfer_id
            &&& offer.files.len() == cache_paths.len()
            &&& forall|i: int|
                0 <= i < cache_paths.len() ==> (#[trigger] offer.files[i]).relative_path
                    == cache_paths[i]
        },
{
}

/// Reports of the session are shown as they are: errors, lines, round trip times, states
/// and counts each in their own place; the window is told the status if it changed.
#[verifier::spinoff_prover]
pub proof fn law_reports_are_shown(
    board: BoardView,
    text: Seq<char>,
    rtt: u64,
    run_state: RunState,
    now_millis: u64,
    written: Result<(), Seq<char>>,
)
    ensures
        ({
            let status = board.shown.status;
            let error = board.update(UpdateView::Error(text), now_millis, written).shown;
            let line = board.update(UpdateView::Log(text), now_millis, written).shown;
            let time = board.update(UpdateView::Rtt(rtt), now_millis, written).shown;
            let state = board.update(UpdateView::RunState(run_state), now_millis, written).shown;
            let counts = board.update(
                UpdateView::MouseDiagnostics(text),
                now_millis,
                written,
            ).shown;
            &&& error.status.run_state == RunState::Error
            &&& error.status.last_error == Some(text)
            &&& error.told.last() == RuntimeEventView::Status(error.status)
            &&& same_but_log(line.status, status)
            &&& line.status.events.last() == text
            &&& line.told.last() == RuntimeEventView::Log(text)
            &&& time.status.recent_rtt_ms == Some(rtt)
            &&& time.status.average_rtt_ms == Some(averaged(status.average_rtt_ms, rtt))
            &&& time.status.run_state == status.run_state
            &&& time.told.last() == RuntimeEventView::Status(time.status)
            &&& state.status.run_state == run_state
            &&& status.run_state == run_state ==> state == board.shown
            &&& status.run_state != run_state ==> state.told.last() == RuntimeEventView::Status(
                state.status,
            )
            &&& counts.status.mouse_diagnostics == Some(text)
            &&& counts.status.run_state == status.run_state
        }),
{
}

/// What is logged of the clipboard says what happened: what was queued or written with its
/// format and size, what was ignored with the reason, and what failed with the error.
#[verifier::spinoff_prover]
pub proof fn law_clipboard_lines_say_what_happened(
    before: ShownView,
    format: Seq<char>,
    bytes: u64,
    reason: Seq<char>,
)
    ensures
        ({
            let size = format + " ("@ + decimal(bytes as nat) + " bytes)"@;
            &&& before.clipboard_queued(format, bytes).told.last() == RuntimeEventView::Log(
                "clipboard queued: "@ + size,
            )
            &&& before.clipboard_written(format, bytes).told.last() == RuntimeEventView::Log(
                "clipboard written: "@ + size,
            )
            &&& before.clipboard_ignored(reason).told.last() == RuntimeEventView::Log(
                "clipboard ignored: "@ + reason,
            )
            &&& before.clipboard_failed(reason).told.last() == RuntimeEventView::Log(
                "clipboard error: "@ + reason,
            )
        }),
{
    let size = format + " ("@ + decimal(bytes as nat) + " bytes)"@;
    assert("clipboard queued: "@ + format + " ("@ + decimal(bytes as nat) + " bytes)"@
        =~= "clipboard queued: "@ + size);
    assert("clipboard written: "@ + format + " ("@ + decimal(bytes as nat) + " bytes)"@
        =~= "clipboard written: "@ + size);
}

} // verus!
