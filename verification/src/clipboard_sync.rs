//! Which clipboard contents travel between the computers.
use crate::bulk_events::{BulkCommandView, BulkTransferCommand};
use crate::clipboard::{
    at_most_u64, total_size, ClipboardEnvelope, ClipboardEnvelopeView, ClipboardPayload,
    ClipboardPayloadView, RemoteFileOffer,
};
use crate::clipboard_reading::{ClipboardEvent, ClipboardEventView, ClipboardReadOptions};
use crate::config::{AppConfig, SharingConfig};
use crate::file_transfer::{
    FileManifestEntryView, FileTransferManifest, FileTransferManifestView,
};
use crate::protocol::{
    encode_frame, message_bytes, MessageView, ProtocolError, WireMessage, MAX_PAYLOAD_LEN,
};
use crate::session::{one_action, ActionView, PumpAction, SessionUpdate, UpdateView};
use crate::text::{decimal, join2, join4, number, views};
use crate::transport::{CommandView, ConnectionCommand};
use vstd::prelude::*;

verus! {

broadcast use crate::text::lemma_views_push;

/// Whether any clipboard content is shared.
pub open spec fn any_clipboard_sharing(sharing: SharingConfig) -> bool {
    sharing.clipboard_text || sharing.clipboard_html || sharing.clipboard_images
        || sharing.file_copy_paste
}

pub fn clipboard_enabled(config: &AppConfig) -> (r: bool)
    ensures
        r == any_clipboard_sharing(config.sharing),
{
    config.sharing.clipboard_text || config.sharing.clipboard_html
        || config.sharing.clipboard_images || config.sharing.file_copy_paste
}

/// What is read of the local clipboard. More than a frame can carry is never read.
pub fn clipboard_read_options(config: &AppConfig) -> (r: ClipboardReadOptions)
    ensures
        r == (ClipboardReadOptions {
            text: config.sharing.clipboard_text,
            html: config.sharing.clipboard_html,
            images: config.sharing.clipboard_images,
            files: config.sharing.file_copy_paste,
            max_bytes: if config.sharing.max_clipboard_bytes <= MAX_PAYLOAD_LEN {
                config.sharing.max_clipboard_bytes
            } else {
                MAX_PAYLOAD_LEN as u64
            },
        }),
{
    let limit: u64 = MAX_PAYLOAD_LEN as u64;
    ClipboardReadOptions {
        text: config.sharing.clipboard_text,
        html: config.sharing.clipboard_html,
        images: config.sharing.clipboard_images,
        files: config.sharing.file_copy_paste,
        max_bytes: if config.sharing.max_clipboard_bytes <= limit {
            config.sharing.max_clipboard_bytes
        } else {
            limit
        },
    }
}

/// The short name of a kind of content.
pub open spec fn format_name(payload: ClipboardPayloadView) -> Seq<char> {
    match payload {
        ClipboardPayloadView::UnicodeText(_) => "text"@,
        ClipboardPayloadView::Html(_) => "html"@,
        ClipboardPayloadView::ImagePng(_) => "png"@,
        ClipboardPayloadView::ImageDib(_) => "dib"@,
        ClipboardPayloadView::Files(_) => "files"@,
    }
}

pub fn clipboard_payload_format(payload: &ClipboardPayload) -> (r: &'static str)
    ensures
        r@ == format_name(payload@),
{
    match payload {
        ClipboardPayload::UnicodeText(_) => "text",
        ClipboardPayload::Html(_) => "html",
        ClipboardPayload::ImagePng(_) => "png",
        ClipboardPayload::ImageDib(_) => "dib",
        ClipboardPayload::Files(_) => "files",
    }
}

/// The number of bytes that the paths of files take.
pub open spec fn path_bytes(files: Seq<FileManifestEntryView>) -> nat
    decreases files.len(),
{
    if files.len() == 0 {
        0
    } else {
        path_bytes(files.drop_last()) + vstd::utf8::encode_utf8(files.last().relative_path).len()
    }
}

/// The number of bytes that count as clipboard content: for files only their
/// paths, since the contents move on another channel.
pub open spec fn wire_size(payload: ClipboardPayloadView) -> nat {
    match payload {
        ClipboardPayloadView::Files(offer) => path_bytes(offer.files),
        _ => payload.size(),
    }
}

pub fn clipboard_file_path_metadata_bytes(offer: &RemoteFileOffer) -> (r: u64)
    ensures
        r == at_most_u64(path_bytes(offer@.files)),
{
    let ghost files = offer@.files;
    let mut total: u64 = 0;
    let mut i: usize = 0;
    while i < offer.files.len()
        invariant
            i <= offer.files@.len(),
            files == offer@.files,
            total == at_most_u64(path_bytes(files.take(i as int))),
        decreases offer.files@.len() - i,
    {
        assert(files.take(i as int + 1).drop_last() =~= files.take(i as int));
        assert(files.take(i as int + 1).last() == offer.files@[i as int]@);
        total = total.saturating_add(offer.files[i].relative_path.as_str().as_bytes().len() as u64);
        i = i + 1;
    }
    assert(files.take(files.len() as int) =~= files);
    total
}

pub fn clipboard_wire_bytes(payload: &ClipboardPayload) -> (r: u64)
    ensures
        r == at_most_u64(wire_size(payload@)),
{
    match payload {
        ClipboardPayload::UnicodeText(value) => value.as_str().as_bytes().len() as u64,
        ClipboardPayload::Html(value) => value.as_str().as_bytes().len() as u64,
        ClipboardPayload::ImagePng(bytes) => bytes.len() as u64,
        ClipboardPayload::ImageDib(bytes) => bytes.len() as u64,
        ClipboardPayload::Files(offer) => clipboard_file_path_metadata_bytes(offer),
    }
}

/// What is done with clipboard content.
#[derive(Debug, PartialEq, Eq)]
pub enum ClipboardSendDecision {
    Send { format: &'static str, bytes: u64 },
    Ignore(String),
}

pub enum DecisionView {
    Send { format: Seq<char>, bytes: u64 },
    Ignore(Seq<char>),
}

impl View for ClipboardSendDecision {
    type V = DecisionView;

    open spec fn view(&self) -> DecisionView {
        match self {
            ClipboardSendDecision::Send { format, bytes } => DecisionView::Send {
                format: format@,
                bytes: *bytes,
            },
            ClipboardSendDecision::Ignore(reason) => DecisionView::Ignore(reason@),
        }
    }
}

/// Why a kind of content is not shared, if it is not.
pub open spec fn disabled_reason(
    sharing: SharingConfig,
    payload: ClipboardPayloadView,
) -> Option<Seq<char>> {
    match payload {
        ClipboardPayloadView::UnicodeText(_) => if sharing.clipboard_text {
            None
        } else {
            Some("clipboard text sharing is disabled"@)
        },
        ClipboardPayloadView::Html(_) => if sharing.clipboard_html {
            None
        } else {
            Some("clipboard html sharing is disabled"@)
        },
        ClipboardPayloadView::ImagePng(_) | ClipboardPayloadView::ImageDib(
            _,
        ) => if sharing.clipboard_images {
            None
        } else {
            Some("clipboard image sharing is disabled"@)
        },
        ClipboardPayloadView::Files(_) => if sharing.file_copy_paste {
            None
        } else {
            Some("clipboard file copy/paste is disabled"@)
        },
    }
}

pub fn clipboard_disabled_reason(config: &AppConfig, payload: &ClipboardPayload) -> (r: Option<
    String,
>)
    ensures
        crate::text::opt_view(r) == disabled_reason(config.sharing, payload@),
{
    match payload {
        ClipboardPayload::UnicodeText(_) => {
            if !config.sharing.clipboard_text {
                return Some("clipboard text sharing is disabled".to_owned());
            }
        },
        ClipboardPayload::Html(_) => {
            if !config.sharing.clipboard_html {
                return Some("clipboard html sharing is disabled".to_owned());
            }
        },
        ClipboardPayload::ImagePng(_) | ClipboardPayload::ImageDib(_) => {
            if !config.sharing.clipboard_images {
                return Some("clipboard image sharing is disabled".to_owned());
            }
        },
        ClipboardPayload::Files(_) => {
            if !config.sharing.file_copy_paste {
                return Some("clipboard file copy/paste is disabled".to_owned());
            }
        },
    }
    None
}

/// Why files are too large to transfer.
pub open spec fn files_too_large(bytes: u64, limit: u64) -> Seq<char> {
    "clipboard files are "@ + decimal(bytes as nat) + " bytes, file transfer limit is "@ + decimal(
        limit as nat,
    )
}

fn files_too_large_text(bytes: u64, limit: u64) -> (r: String)
    ensures
        r@ == files_too_large(bytes, limit),
{
    let bytes_text = number(bytes);
    let limit_text = number(limit);
    join4(
        "clipboard files are ",
        bytes_text.as_str(),
        " bytes, file transfer limit is ",
        limit_text.as_str(),
    )
}

/// What is done with content: it is sent unless its kind is not shared, its files
/// are larger than a transfer may be, or it is larger than the clipboard limit.
pub open spec fn send_decision(
    sharing: SharingConfig,
    payload: ClipboardPayloadView,
) -> DecisionView {
    let bytes = at_most_u64(wire_size(payload));
    match disabled_reason(sharing, payload) {
        Some(reason) => DecisionView::Ignore(reason),
        None => if payload is Files && at_most_u64(payload.size())
            > sharing.max_file_transfer_bytes {
            DecisionView::Ignore(
                files_too_large(at_most_u64(payload.size()), sharing.max_file_transfer_bytes),
            )
        } else if bytes > sharing.max_clipboard_bytes {
            DecisionView::Ignore(
                "clipboard "@ + format_name(payload) + " is "@ + decimal(bytes as nat)
                    + " bytes, limit is "@ + decimal(sharing.max_clipboard_bytes as nat),
            )
        } else {
            DecisionView::Send { format: format_name(payload), bytes }
        },
    }
}

pub fn clipboard_send_decision(config: &AppConfig, payload: &ClipboardPayload) -> (r:
    ClipboardSendDecision)
    ensures
        r@ == send_decision(config.sharing, payload@),
{
    match clipboard_disabled_reason(config, payload) {
        Some(reason) => {
            return ClipboardSendDecision::Ignore(reason);
        },
        None => {},
    }
    let format = clipboard_payload_format(payload);
    match payload {
        ClipboardPayload::Files(offer) => {
            let bytes: u64 = total_size(&offer.files);
            let limit: u64 = config.sharing.max_file_transfer_bytes;
            if bytes > limit {
                return ClipboardSendDecision::Ignore(files_too_large_text(bytes, limit));
            }
        },
        _ => {},
    }
    let bytes: u64 = clipboard_wire_bytes(payload);
    let limit: u64 = config.sharing.max_clipboard_bytes;
    if bytes > limit {
        let bytes_text = number(bytes);
        let limit_text = number(limit);
        let start = join4("clipboard ", format, " is ", bytes_text.as_str());
        let whole = join2(start.as_str(), " bytes, limit is ");
        ClipboardSendDecision::Ignore(join2(whole.as_str(), limit_text.as_str()))
    } else {
        ClipboardSendDecision::Send { format, bytes }
    }
}

/// What is done with an envelope: as with its content, but an envelope that no
/// frame can carry is not sent.
pub open spec fn protocol_decision(
    sharing: SharingConfig,
    envelope: ClipboardEnvelopeView,
) -> DecisionView {
    let size = message_bytes(MessageView::ClipboardData(envelope)).len();
    match send_decision(sharing, envelope.payload) {
        DecisionView::Send { format, bytes } => if size <= MAX_PAYLOAD_LEN {
            DecisionView::Send { format, bytes }
        } else {
            DecisionView::Ignore(
                "clipboard "@ + format + " encoded message is too large: "@ + decimal(size)
                    + " bytes, protocol limit is "@ + decimal(MAX_PAYLOAD_LEN as nat),
            )
        },
        ignored => ignored,
    }
}

/// Why an encoded message is not sent.
pub fn clipboard_protocol_ignored_reason(format: &str, error: &ProtocolError) -> (r: String)
    ensures
        error matches ProtocolError::PayloadTooLarge { max, actual } ==> r@ == "clipboard "@
            + format@ + " encoded message is too large: "@ + decimal(actual as nat)
            + " bytes, protocol limit is "@ + decimal(max as nat),
        !(error is PayloadTooLarge) ==> r@ == "clipboard "@ + format@
            + " encoded message cannot be sent: "@ + error.text(),
{
    match error {
        ProtocolError::PayloadTooLarge { max, actual } => {
            let actual_text = number(*actual as u64);
            let max_text = number(*max as u64);
            let start = join4(
                "clipboard ",
                format,
                " encoded message is too large: ",
                actual_text.as_str(),
            );
            let whole = join2(start.as_str(), " bytes, protocol limit is ");
            join2(whole.as_str(), max_text.as_str())
        },
        error => {
            let error_text = error.to_text();
            join4(
                "clipboard ",
                format,
                " encoded message cannot be sent: ",
                error_text.as_str(),
            )
        },
    }
}

pub fn clipboard_protocol_decision(config: &AppConfig, envelope: &ClipboardEnvelope) -> (r:
    ClipboardSendDecision)
    ensures
        r@ == protocol_decision(config.sharing, envelope@),
{
    match clipboard_send_decision(config, &envelope.payload) {
        ClipboardSendDecision::Send { format, bytes } => {
            let message = WireMessage::ClipboardData(envelope.clone());
            match encode_frame(0, &message) {
                Ok(_) => ClipboardSendDecision::Send { format, bytes },
                Err(error) => ClipboardSendDecision::Ignore(
                    clipboard_protocol_ignored_reason(format, &error),
                ),
            }
        },
        ClipboardSendDecision::Ignore(reason) => ClipboardSendDecision::Ignore(reason),
    }
}

/// What is done with content of this computer.
pub fn clipboard_data_send_decision(config: &AppConfig, envelope: &ClipboardEnvelope) -> (r:
    ClipboardSendDecision)
    ensures
        r@ == protocol_decision(config.sharing, envelope@),
{
    clipboard_protocol_decision(config, envelope)
}

/// What is done with content of the other computer.
pub fn clipboard_data_write_decision(config: &AppConfig, envelope: &ClipboardEnvelope) -> (r:
    ClipboardSendDecision)
    ensures
        r@ == protocol_decision(config.sharing, envelope@),
{
    clipboard_protocol_decision(config, envelope)
}

/// What is done with a clipboard message of the other computer.
#[derive(Debug, PartialEq, Eq)]
pub enum RemoteClipboardMessageAction {
    Write { envelope: ClipboardEnvelope, format: &'static str, bytes: u64 },
    Ignore(String),
}

pub enum RemoteClipboardView {
    Write { envelope: ClipboardEnvelopeView, format: Seq<char>, bytes: u64 },
    Ignore(Seq<char>),
}

impl View for RemoteClipboardMessageAction {
    type V = RemoteClipboardView;

    open spec fn view(&self) -> RemoteClipboardView {
        match self {
            RemoteClipboardMessageAction::Write { envelope, format, bytes } => {
                RemoteClipboardView::Write { envelope: envelope@, format: format@, bytes: *bytes }
            },
            RemoteClipboardMessageAction::Ignore(reason) => RemoteClipboardView::Ignore(reason@),
        }
    }
}

/// Only data that may be shared is written; an offer carries none.
pub open spec fn remote_action(sharing: SharingConfig, message: MessageView) -> RemoteClipboardView {
    match message {
        MessageView::ClipboardData(envelope) => match protocol_decision(sharing, envelope) {
            DecisionView::Send { format, bytes } => RemoteClipboardView::Write {
                envelope,
                format,
                bytes,
            },
            DecisionView::Ignore(reason) => RemoteClipboardView::Ignore(reason),
        },
        _ => RemoteClipboardView::Ignore("clipboard offer ignored: data message required"@),
    }
}

pub fn remote_clipboard_message_action(config: &AppConfig, message: WireMessage) -> (r:
    RemoteClipboardMessageAction)
    ensures
        r@ == remote_action(config.sharing, message@),
{
    match message {
        WireMessage::ClipboardData(envelope) => {
            match clipboard_data_write_decision(config, &envelope) {
                ClipboardSendDecision::Send { format, bytes } => {
                    RemoteClipboardMessageAction::Write { envelope, format, bytes }
                },
                ClipboardSendDecision::Ignore(reason) => RemoteClipboardMessageAction::Ignore(
                    reason,
                ),
            }
        },
        _ => RemoteClipboardMessageAction::Ignore(
            "clipboard offer ignored: data message required".to_owned(),
        ),
    }
}

/// What a clipboard message of the other computer leads to.
pub open spec fn remote_clipboard_actions(sharing: SharingConfig, message: MessageView) -> Seq<
    ActionView,
> {
    match remote_action(sharing, message) {
        RemoteClipboardView::Write { envelope, format, bytes } => seq![
            ActionView::WriteClipboard { payload: envelope.payload, format, bytes },
        ],
        RemoteClipboardView::Ignore(reason) => seq![
            ActionView::Update(UpdateView::ClipboardIgnored(reason)),
        ],
    }
}

pub fn handle_remote_clipboard_message(message: WireMessage, config: &AppConfig) -> (r: Vec<
    PumpAction,
>)
    ensures
        views(r@) == remote_clipboard_actions(config.sharing, message@),
{
    match remote_clipboard_message_action(config, message) {
        RemoteClipboardMessageAction::Write { envelope, format, bytes } => one_action(
            PumpAction::WriteClipboard {
                payload: envelope.payload,
                format: format.to_owned(),
                bytes,
            },
        ),
        RemoteClipboardMessageAction::Ignore(reason) => one_action(
            PumpAction::Update(SessionUpdate::ClipboardIgnored(reason)),
        ),
    }
}

/// What is reported once content of the other computer was written, or could not be.
pub fn remote_clipboard_written(format: String, bytes: u64, written: Result<(), String>) -> (r:
    SessionUpdate)
    ensures
        r@ == (match written {
            Ok(_) => UpdateView::ClipboardWritten { format: format@, bytes },
            Err(error) => UpdateView::ClipboardError("clipboard write failed: "@ + error@),
        }),
{
    match written {
        Ok(_) => SessionUpdate::ClipboardWritten { format, bytes },
        Err(error) => SessionUpdate::ClipboardError(
            join2("clipboard write failed: ", error.as_str()),
        ),
    }
}

/// The reason why nothing is sent before the peer is there.
pub open spec fn peer_not_connected() -> Seq<char> {
    "clipboard sync skipped: peer is not connected"@
}

/// What an event of the clipboard monitor leads to. `ready` tells whether the peer
/// is connected, `connection_open` whether the control connection takes commands.
pub open spec fn clipboard_event_actions(
    event: ClipboardEventView,
    sharing: SharingConfig,
    ready: bool,
    connection_open: bool,
) -> Seq<ActionView> {
    match event {
        ClipboardEventView::Changed(envelope) => if !ready {
            seq![ActionView::Update(UpdateView::ClipboardIgnored(peer_not_connected()))]
        } else {
            match protocol_decision(sharing, envelope) {
                DecisionView::Send { format, bytes } => match envelope.payload {
                    ClipboardPayloadView::Files(offer) => seq![
                        ActionView::CollectFiles { offer, bytes },
                    ],
                    _ => if connection_open {
                        seq![
                            ActionView::Connection(
                                CommandView::SendReliable(MessageView::ClipboardData(envelope)),
                            ),
                            ActionView::Update(UpdateView::ClipboardQueued { format, bytes }),
                        ]
                    } else {
                        seq![
                            ActionView::Update(
                                UpdateView::ClipboardError(
                                    "clipboard send failed: connection command channel closed"@,
                                ),
                            ),
                        ]
                    },
                },
                DecisionView::Ignore(reason) => seq![
                    ActionView::Update(UpdateView::ClipboardIgnored(reason)),
                ],
            }
        },
        ClipboardEventView::Ignored(reason) => seq![
            ActionView::Update(UpdateView::ClipboardIgnored(reason)),
        ],
        ClipboardEventView::Error(error) => seq![
            ActionView::Update(UpdateView::ClipboardError(error)),
        ],
    }
}

pub fn handle_clipboard_event(
    event: ClipboardEvent,
    config: &AppConfig,
    clipboard_transport_ready: bool,
    connection_open: bool,
) -> (r: Vec<PumpAction>)
    ensures
        views(r@) == clipboard_event_actions(
            event@,
            config.sharing,
            clipboard_transport_ready,
            connection_open,
        ),
{
    let update = match event {
        ClipboardEvent::Changed(envelope) => {
            if !clipboard_transport_ready {
                SessionUpdate::ClipboardIgnored(
                    "clipboard sync skipped: peer is not connected".to_owned(),
                )
            } else {
                match clipboard_data_send_decision(config, &envelope) {
                    ClipboardSendDecision::Send { format, bytes } => match envelope.payload {
                        ClipboardPayload::Files(offer) => {
                            return one_action(PumpAction::CollectFiles { offer, bytes });
                        },
                        _ => {
                            if connection_open {
                                let ghost sent = envelope@;
                                let mut actions = one_action(
                                    PumpAction::Connection(
                                        ConnectionCommand::SendReliable(
                                            WireMessage::ClipboardData(envelope),
                                        ),
                                    ),
                                );
                                actions.push(
                                    PumpAction::Update(
                                        SessionUpdate::ClipboardQueued {
                                            format: format.to_owned(),
                                            bytes,
                                        },
                                    ),
                                );
                                assert(views(actions@) =~= clipboard_event_actions(
                                    event@,
                                    config.sharing,
                                    clipboard_transport_ready,
                                    connection_open,
                                ));
                                return actions;
                            }
                            SessionUpdate::ClipboardError(
                                "clipboard send failed: connection command channel closed".to_owned(),
                            )
                        },
                    },
                    ClipboardSendDecision::Ignore(reason) => SessionUpdate::ClipboardIgnored(
                        reason,
                    ),
                }
            }
        },
        ClipboardEvent::Ignored(reason) => SessionUpdate::ClipboardIgnored(reason),
        ClipboardEvent::Error(error) => SessionUpdate::ClipboardError(error),
    };
    one_action(PumpAction::Update(update))
}

/// The paths of the files of an offer.
pub open spec fn paths_of(files: Seq<FileManifestEntryView>) -> Seq<Seq<char>> {
    files.map_values(|f: FileManifestEntryView| f.relative_path)
}

/// The paths that a clipboard offer asks to transfer; there must be some.
pub fn file_transfer_request_from_clipboard_offer(offer: &RemoteFileOffer) -> (r: Result<
    Vec<String>,
    String,
>)
    ensures
        match r {
            Ok(paths) => offer.files@.len() > 0 && views(paths@) == paths_of(offer@.files),
            Err(error) => offer.files@.len() == 0 && error@ == "clipboard file list is empty"@,
        },
{
    if offer.files.len() == 0 {
        return Err("clipboard file list is empty".to_owned());
    }
    let mut paths: Vec<String> = Vec::new();
    let mut i: usize = 0;
    while i < offer.files.len()
        invariant
            i <= offer.files@.len(),
            views(paths@) == paths_of(offer@.files).take(i as int),
        decreases offer.files@.len() - i,
    {
        let ghost before = paths@;
        paths.push(offer.files[i].relative_path.clone());
        assert(views(paths@) =~= paths_of(offer@.files).take(i as int + 1));
        i = i + 1;
    }
    assert(views(paths@) =~= paths_of(offer@.files));
    Ok(paths)
}

/// The files of a clipboard offer, ready to be transferred.
#[derive(Debug, PartialEq, Eq)]
pub struct FileRequest {
    pub manifest: FileTransferManifest,
    pub source_paths: Vec<String>,
}

/// What an offer of local files leads to, once its files were collected or could
/// not be: the peer hears of the transfer before the files go out.
pub open spec fn file_offer_actions(
    sharing: SharingConfig,
    bytes: u64,
    request: Result<(FileTransferManifestView, Seq<Seq<char>>), Seq<char>>,
    bulk_available: bool,
    connection_open: bool,
    bulk_open: bool,
) -> Seq<ActionView> {
    if !bulk_available {
        seq![
            ActionView::Update(
                UpdateView::ClipboardError(
                    "file copy/paste failed: bulk transfer channel is not available"@,
                ),
            ),
        ]
    } else {
        match request {
            Ok((manifest, source_paths)) => if manifest.total_bytes
                > sharing.max_file_transfer_bytes {
                seq![
                    ActionView::Update(
                        UpdateView::ClipboardIgnored(
                            files_too_large(manifest.total_bytes, sharing.max_file_transfer_bytes),
                        ),
                    ),
                ]
            } else if !connection_open {
                seq![
                    ActionView::Update(
                        UpdateView::ClipboardError(
                            "file copy/paste failed: connection command channel closed"@,
                        ),
                    ),
                ]
            } else {
                let offered = ActionView::Connection(
                    CommandView::SendReliable(MessageView::FileTransferOffer(manifest)),
                );
                if bulk_open {
                    seq![
                        offered,
                        ActionView::BulkLast(BulkCommandView::SendFiles { manifest, source_paths }),
                        ActionView::Update(
                            UpdateView::ClipboardQueued {
                                format: "files"@,
                                bytes: if manifest.total_bytes >= bytes {
                                    manifest.total_bytes
                                } else {
                                    bytes
                                },
                            },
                        ),
                    ]
                } else {
                    seq![
                        offered,
                        ActionView::Update(
                            UpdateView::ClipboardError(
                                "file copy/paste failed: bulk transfer command channel closed"@,
                            ),
                        ),
                    ]
                }
            },
            Err(error) => seq![
                ActionView::Update(
                    UpdateView::ClipboardError("file copy/paste failed: "@ + error),
                ),
            ],
        }
    }
}

/// The view of a request or of why there is none.
pub open spec fn request_view(request: Result<FileRequest, String>) -> Result<
    (FileTransferManifestView, Seq<Seq<char>>),
    Seq<char>,
> {
    match request {
        Ok(r) => Ok((r.manifest@, views(r.source_paths@))),
        Err(error) => Err(error@),
    }
}

pub fn handle_local_clipboard_file_offer(
    config: &AppConfig,
    bytes: u64,
    request: Result<FileRequest, String>,
    bulk_available: bool,
    connection_open: bool,
    bulk_open: bool,
) -> (r: Vec<PumpAction>)
    ensures
        views(r@) == file_offer_actions(
            config.sharing,
            bytes,
            request_view(request),
            bulk_available,
            connection_open,
            bulk_open,
        ),
{
    if !bulk_available {
        return one_action(
            PumpAction::Update(
                SessionUpdate::ClipboardError(
                    "file copy/paste failed: bulk transfer channel is not available".to_owned(),
                ),
            ),
        );
    }
    let files = match request {
        Ok(files) => files,
        Err(error) => {
            return one_action(
                PumpAction::Update(
                    SessionUpdate::ClipboardError(
                        join2("file copy/paste failed: ", error.as_str()),
                    ),
                ),
            );
        },
    };
    let limit: u64 = config.sharing.max_file_transfer_bytes;
    let total: u64 = files.manifest.total_bytes;
    if total > limit {
        return one_action(
            PumpAction::Update(
                SessionUpdate::ClipboardIgnored(files_too_large_text(total, limit)),
            ),
        );
    }
    if !connection_open {
        return one_action(
            PumpAction::Update(
                SessionUpdate::ClipboardError(
                    "file copy/paste failed: connection command channel closed".to_owned(),
                ),
            ),
        );
    }
    let mut actions = one_action(
        PumpAction::Connection(
            ConnectionCommand::SendReliable(WireMessage::FileTransferOffer(files.manifest.clone())),
        ),
    );
    if bulk_open {
        actions.push(
            PumpAction::BulkLast(
                BulkTransferCommand::SendFiles {
                    manifest: files.manifest,
                    source_paths: files.source_paths,
                },
            ),
        );
        actions.push(
            PumpAction::Update(
                SessionUpdate::ClipboardQueued {
                    format: "files".to_owned(),
                    bytes: if total >= bytes { total } else { bytes },
                },
            ),
        );
    } else {
        actions.push(
            PumpAction::Update(
                SessionUpdate::ClipboardError(
                    "file copy/paste failed: bulk transfer command channel closed".to_owned(),
                ),
            ),
        );
    }
    assert(views(actions@) =~= file_offer_actions(
        config.sharing,
        bytes,
        request_view(request),
        bulk_available,
        connection_open,
        bulk_open,
    ));
    actions
}

/// Nothing is sent of content that is not shared or is larger than the limits, and
/// nothing at all before the peer is there: the connection is told of local content
/// only if the peer is connected and the content's own decision is to send it.
pub proof fn law_only_shared_content_is_sent(
    envelope: ClipboardEnvelopeView,
    sharing: SharingConfig,
    ready: bool,
    connection_open: bool,
    i: int,
)
    requires
        0 <= i < clipboard_event_actions(
            ClipboardEventView::Changed(envelope),
            sharing,
            ready,
            connection_open,
        ).len(),
        !(clipboard_event_actions(
            ClipboardEventView::Changed(envelope),
            sharing,
            ready,
            connection_open,
        )[i] is Update),
    ensures
        ready,
        disabled_reason(sharing, envelope.payload) is None,
        at_most_u64(wire_size(envelope.payload)) <= sharing.max_clipboard_bytes,
        envelope.payload is Files ==> at_most_u64(envelope.payload.size())
            <= sharing.max_file_transfer_bytes,
        message_bytes(MessageView::ClipboardData(envelope)).len() <= MAX_PAYLOAD_LEN,
{
}

/// Whether the setting for a kind of content is on.
pub open spec fn kind_is_shared(sharing: SharingConfig, payload: ClipboardPayloadView) -> bool {
    &&& payload is UnicodeText ==> sharing.clipboard_text
    &&& payload is Html ==> sharing.clipboard_html
    &&& payload is ImagePng ==> sharing.clipboard_images
    &&& payload is ImageDib ==> sharing.clipboard_images
    &&& payload is Files ==> sharing.file_copy_paste
}

/// Every kind of content has its own switch: content is sent exactly if the setting of
/// its own kind is on and it is within the limits, whatever the other settings are. With
/// the setting off the kind is named as the reason.
pub proof fn law_every_kind_has_its_own_switch(
    sharing: SharingConfig,
    payload: ClipboardPayloadView,
)
    ensures
        send_decision(sharing, payload) is Send <==> {
            &&& kind_is_shared(sharing, payload)
            &&& at_most_u64(wire_size(payload)) <= sharing.max_clipboard_bytes
            &&& payload is Files ==> at_most_u64(payload.size()) <= sharing.max_file_transfer_bytes
        },
        !kind_is_shared(sharing, payload) ==> send_decision(sharing, payload)
            == DecisionView::Ignore(
            if payload is UnicodeText {
                "clipboard text sharing is disabled"@
            } else if payload is Html {
                "clipboard html sharing is disabled"@
            } else if payload is Files {
                "clipboard file copy/paste is disabled"@
            } else {
                "clipboard image sharing is disabled"@
            },
        ),
        send_decision(sharing, payload) matches DecisionView::Send { bytes, .. } ==> bytes
            == at_most_u64(wire_size(payload)),
{
}

/// What the other computer sends is written exactly if it is data of a kind that is
/// shared, within the limits, and then it is written unchanged. An offer is never
/// written.
pub proof fn law_only_shared_content_is_written(sharing: SharingConfig, message: MessageView)
    ensures
        remote_action(sharing, message) matches RemoteClipboardView::Write { envelope, bytes, .. }
            ==> {
            &&& message == MessageView::ClipboardData(envelope)
            &&& kind_is_shared(sharing, envelope.payload)
            &&& bytes == at_most_u64(wire_size(envelope.payload))
            &&& bytes <= sharing.max_clipboard_bytes
        },
        message matches MessageView::ClipboardData(envelope) ==> (kind_is_shared(
            sharing,
            envelope.payload,
        ) && at_most_u64(wire_size(envelope.payload)) <= sharing.max_clipboard_bytes && (
        envelope.payload is Files ==> at_most_u64(envelope.payload.size())
            <= sharing.max_file_transfer_bytes) && message_bytes(message).len() <= MAX_PAYLOAD_LEN
            ==> remote_action(sharing, message) is Write),
        remote_clipboard_actions(sharing, message).len() == 1,
        remote_clipboard_actions(sharing, message)[0] matches ActionView::WriteClipboard {
            payload,
            bytes,
            ..
        } ==> remote_action(sharing, message) is Write && message is ClipboardData
            && message->ClipboardData_0.payload == payload && bytes == at_most_u64(
            wire_size(payload),
        ),
        remote_action(sharing, message) is Write ==> remote_clipboard_actions(sharing, message)[0]
            is WriteClipboard,
{
}

/// What changes on this computer's clipboard is sent as it is, if its kind is shared and
/// the peer is there: text, HTML and images as one message, of which the window is told;
/// files are collected first.
pub proof fn law_shared_content_is_sent(
    envelope: ClipboardEnvelopeView,
    sharing: SharingConfig,
)
    requires
        kind_is_shared(sharing, envelope.payload),
        at_most_u64(wire_size(envelope.payload)) <= sharing.max_clipboard_bytes,
        envelope.payload is Files ==> at_most_u64(envelope.payload.size())
            <= sharing.max_file_transfer_bytes,
        message_bytes(MessageView::ClipboardData(envelope)).len() <= MAX_PAYLOAD_LEN,
    ensures
        ({
            let actions = clipboard_event_actions(
                ClipboardEventView::Changed(envelope),
                sharing,
                true,
                true,
            );
            let bytes = at_most_u64(wire_size(envelope.payload));
            match envelope.payload {
                ClipboardPayloadView::Files(offer) => actions.len() == 1 && actions[0]
                    == ActionView::CollectFiles { offer, bytes },
                _ => actions.len() == 2 && actions[0] == ActionView::Connection(
                    CommandView::SendReliable(MessageView::ClipboardData(envelope)),
                ) && (actions[1] matches ActionView::Update(
                    UpdateView::ClipboardQueued { bytes: told, .. },
                ) && told == bytes),
            }
        }),
{
}

/// The kinds of content that have a name of their own keep it apart from the others.
pub proof fn law_formats_have_their_own_names(a: ClipboardPayloadView, b: ClipboardPayloadView)
    ensures
        format_name(a) == format_name(b) <==> {
            &&& a is UnicodeText <==> b is UnicodeText
            &&& a is Html <==> b is Html
            &&& a is ImagePng <==> b is ImagePng
            &&& a is ImageDib <==> b is ImageDib
            &&& a is Files <==> b is Files
        },
        a is UnicodeText ==> format_name(a) == "text"@,
        a is Html ==> format_name(a) == "html"@,
        a is ImagePng ==> format_name(a) == "png"@,
        a is ImageDib ==> format_name(a) == "dib"@,
        a is Files ==> format_name(a) == "files"@,
{
    reveal_strlit("text");
    reveal_strlit("html");
    reveal_strlit("png");
    reveal_strlit("dib");
    reveal_strlit("files");
    assert("text"@[0] == 't' && "html"@[0] == 'h' && "png"@[0] == 'p' && "dib"@[0] == 'd'
        && "files"@[0] == 'f');
}

/// Content counts as the bytes that it has; of files only the paths count, and one more
/// file adds its own path.
pub proof fn law_sizes_count_what_travels(
    text: Seq<char>,
    bytes: Seq<u8>,
    offer: crate::clipboard::RemoteFileOfferView,
    file: FileManifestEntryView,
)
    ensures
        wire_size(ClipboardPayloadView::UnicodeText(text)) == vstd::utf8::encode_utf8(text).len(),
        wire_size(ClipboardPayloadView::Html(text)) == vstd::utf8::encode_utf8(text).len(),
        wire_size(ClipboardPayloadView::ImagePng(bytes)) == bytes.len(),
        wire_size(ClipboardPayloadView::ImageDib(bytes)) == bytes.len(),
        offer.files.len() == 0 ==> wire_size(ClipboardPayloadView::Files(offer)) == 0,
        wire_size(
            ClipboardPayloadView::Files(
                crate::clipboard::RemoteFileOfferView { files: offer.files.push(file), ..offer },
            ),
        ) == wire_size(ClipboardPayloadView::Files(offer)) + vstd::utf8::encode_utf8(
            file.relative_path,
        ).len(),
{
    assert(offer.files.push(file).drop_last() =~= offer.files);
}

/// Clipboard sharing is on exactly if one of its four settings is, and only what is
/// shared is read.
pub proof fn law_only_shared_kinds_are_read(
    config: &AppConfig,
    enabled: bool,
    options: ClipboardReadOptions,
)
    requires
        call_ensures(clipboard_enabled, (config,), enabled),
        call_ensures(clipboard_read_options, (config,), options),
    ensures
        options.text == config.sharing.clipboard_text,
        options.html == config.sharing.clipboard_html,
        options.images == config.sharing.clipboard_images,
        options.files == config.sharing.file_copy_paste,
        enabled <==> options.text || options.html || options.images || options.files,
        options.max_bytes <= config.sharing.max_clipboard_bytes,
        options.max_bytes <= MAX_PAYLOAD_LEN,
        options.max_bytes == config.sharing.max_clipboard_bytes || options.max_bytes
            == MAX_PAYLOAD_LEN,
{
}

/// Files that were copied go out whole: the peer is told of exactly the manifest whose
/// files are then sent from exactly the given paths, in this order, and the window is told
/// last. Nothing is sent if the files are larger than a transfer may be, could not be
/// collected, or a channel is missing.
pub proof fn law_copied_files_are_offered_then_sent(
    sharing: SharingConfig,
    bytes: u64,
    request: Result<(FileTransferManifestView, Seq<Seq<char>>), Seq<char>>,
    bulk_available: bool,
    connection_open: bool,
    bulk_open: bool,
)
    ensures
        ({
            let actions = file_offer_actions(
                sharing,
                bytes,
                request,
                bulk_available,
                connection_open,
                bulk_open,
            );
            let fits = request is Ok && request->Ok_0.0.total_bytes
                <= sharing.max_file_transfer_bytes;
            &&& fits && bulk_available && connection_open && bulk_open ==> {
                let (manifest, source_paths) = request->Ok_0;
                &&& actions.len() == 3
                &&& actions[0] == ActionView::Connection(
                    CommandView::SendReliable(MessageView::FileTransferOffer(manifest)),
                )
                &&& actions[1] == ActionView::BulkLast(
                    BulkCommandView::SendFiles { manifest, source_paths },
                )
                &&& actions[2] matches ActionView::Update(
                    UpdateView::ClipboardQueued { bytes: told, .. },
                ) && told >= bytes && told >= manifest.total_bytes && (told == bytes || told
                    == manifest.total_bytes)
            }
            &&& !(fits && bulk_available && connection_open && bulk_open) ==> forall|i: int|
                0 <= i < actions.len() ==> !((#[trigger] actions[i]) is BulkLast)
            &&& !(fits && bulk_available && connection_open) ==> actions.len() == 1 && actions[0]
                is Update
        }),
{
}

/// What an offer of files asks to transfer is one path for each of its files, in order.
pub proof fn law_offers_name_every_path(offer: &RemoteFileOffer, r: Result<Vec<String>, String>)
    requires
        call_ensures(file_transfer_request_from_clipboard_offer, (offer,), r),
    ensures
        r is Ok <==> offer.files@.len() > 0,
        r matches Ok(paths) ==> {
            &&& paths@.len() == offer.files@.len()
            &&& forall|i: int|
                0 <= i < paths@.len() ==> (#[trigger] paths@[i])@
                    == offer.files@[i].relative_path@
        },
{
    if r is Ok {
        let paths = r->Ok_0;
        assert(views(paths@).len() == paths@.len());
        assert forall|i: int| 0 <= i < paths@.len() implies (#[trigger] paths@[i])@
            == offer.files@[i].relative_path@ by {
            assert(views(paths@)[i] == paths@[i]@);
            assert(offer@.files[i] == offer.files@[i]@);
        }
    }
}

/// Content that was written is reported with its format and size, and a failure with its
/// error.
pub proof fn law_written_content_is_reported(
    format: String,
    bytes: u64,
    written: Result<(), String>,
    r: SessionUpdate,
)
    requires
        call_ensures(remote_clipboard_written, (format, bytes, written), r),
    ensures
        written is Ok ==> r@ == (UpdateView::ClipboardWritten { format: format@, bytes }),
        written matches Err(error) ==> r@ == UpdateView::ClipboardError(
            "clipboard write failed: "@ + error@,
        ),
{
}

/// Content that is too large is refused with its size and the limit that it breaks: files
/// with the limit of transfers, other content with the limit of the clipboard, and what does
/// not fit into a message with the limit of messages.
pub proof fn law_refusals_name_the_limit(sharing: SharingConfig, envelope: ClipboardEnvelopeView)
    requires
        disabled_reason(sharing, envelope.payload) is None,
    ensures
        ({
            let payload = envelope.payload;
            let size = at_most_u64(payload.size());
            let travels = at_most_u64(wire_size(payload));
            &&& payload is Files && size > sharing.max_file_transfer_bytes ==> send_decision(
                sharing,
                payload,
            ) == DecisionView::Ignore(
                "clipboard files are "@ + decimal(size as nat)
                    + " bytes, file transfer limit is "@ + decimal(
                    sharing.max_file_transfer_bytes as nat,
                ),
            )
            &&& !(payload is Files) && travels > sharing.max_clipboard_bytes ==> send_decision(
                sharing,
                payload,
            ) == DecisionView::Ignore(
                "clipboard "@ + format_name(payload) + " is "@ + decimal(travels as nat)
                    + " bytes, limit is "@ + decimal(sharing.max_clipboard_bytes as nat),
            )
            &&& send_decision(sharing, payload) is Send && message_bytes(
                MessageView::ClipboardData(envelope),
            ).len() > MAX_PAYLOAD_LEN ==> protocol_decision(sharing, envelope)
                == DecisionView::Ignore(
                "clipboard "@ + format_name(payload) + " encoded message is too large: "@ + decimal(
                    message_bytes(MessageView::ClipboardData(envelope)).len(),
                ) + " bytes, protocol limit is "@ + decimal(16 * 1024 * 1024),
            )
        }),
{
}

/// Copied files that cannot be sent are answered with the reason, and none of them are
/// handed to the file channel; content that cannot be sent is answered in the same way.
pub proof fn law_unsent_content_is_answered(
    sharing: SharingConfig,
    bytes: u64,
    manifest: FileTransferManifestView,
    source_paths: Seq<Seq<char>>,
    error: Seq<char>,
    envelope: ClipboardEnvelopeView,
    connection_open: bool,
    bulk_open: bool,
)
    ensures
        ({
            let request = Ok::<(FileTransferManifestView, Seq<Seq<char>>), Seq<char>>(
                (manifest, source_paths),
            );
            let without = file_offer_actions(
                sharing,
                bytes,
                request,
                false,
                connection_open,
                bulk_open,
            );
            let closed = file_offer_actions(sharing, bytes, request, true, false, bulk_open);
            let half = file_offer_actions(sharing, bytes, request, true, true, false);
            &&& without == seq![
                ActionView::Update(
                    UpdateView::ClipboardError(
                        "file copy/paste failed: bulk transfer channel is not available"@,
                    ),
                ),
            ]
            &&& manifest.total_bytes <= sharing.max_file_transfer_bytes ==> closed == seq![
                ActionView::Update(
                    UpdateView::ClipboardError(
                        "file copy/paste failed: connection command channel closed"@,
                    ),
                ),
            ] && half.last() == ActionView::Update(
                UpdateView::ClipboardError(
                    "file copy/paste failed: bulk transfer command channel closed"@,
                ),
            ) && half.len() == 2
        }),
        clipboard_event_actions(
            ClipboardEventView::Changed(envelope),
            sharing,
            false,
            connection_open,
        ) == seq![
            ActionView::Update(
                UpdateView::ClipboardIgnored("clipboard sync skipped: peer is not connected"@),
            ),
        ],
        protocol_decision(sharing, envelope) is Send && !(envelope.payload is Files)
            ==> clipboard_event_actions(
            ClipboardEventView::Changed(envelope),
            sharing,
            true,
            false,
        ) == seq![
            ActionView::Update(
                UpdateView::ClipboardError(
                    "clipboard send failed: connection command channel closed"@,
                ),
            ),
        ],
{
}

} // verus!
