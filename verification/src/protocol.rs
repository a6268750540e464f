//! Messages between the two computers and the frames that carry them.
use crate::clipboard::{ClipboardEnvelope, ClipboardEnvelopeView};
use crate::codec::{
    envelope_bytes, input_bytes, lemma_envelope, lemma_input, lemma_manifest, lemma_point,
    lemma_position, lemma_rect, lemma_target, manifest_bytes, parse_envelope, parse_input,
    parse_manifest, parse_point, parse_position, parse_rect, parse_target, point_bytes,
    position_number, put, put_envelope, put_input, put_manifest, put_point, put_position, put_rect,
    put_tag, put_target, read_envelope, read_input, read_manifest, read_point, read_position,
    read_rect, read_target, rect_bytes, tag_bytes, target_bytes,
};
use crate::config::RemotePosition;
use crate::drag_drop::{DropTargetSummary, DropTargetView};
use crate::file_transfer::{FileTransferManifest, FileTransferManifestView};
use crate::geometry::{Point, Rect};
use crate::input_event::InputEvent;
use crate::octets::{
    be_bytes, be_value, buffer_to_vec, buffer_with_capacity, get_u16, get_u32, get_u64, get_u8,
    le_bytes, lemma_be_len, lemma_be_round_trip, lemma_pow256_values, put_slice, put_u16, put_u32,
    put_u64, put_u8,
};
use crate::text::{decimal, join4, number, opt_view};
use crate::wire::{
    flag_bytes, id_bytes, lemma_flag, lemma_id, lemma_opt_text, lemma_text, lemma_u16, lemma_u32,
    lemma_u64, ok, ok_view, opt_text_bytes, parse_flag, parse_id, parse_opt_text, parse_text,
    parse_u16, parse_u32, parse_u64, read_as, read_flag, read_id, read_opt_text, read_text,
    read_u16, read_u32, read_u64, serialize_flag, serialize_id, serialize_opt_text,
    serialize_text, serialize_u16, serialize_u32, serialize_u64, text_bytes,
};
use vstd::prelude::*;
use vstd::slice::slice_subrange;

verus! {

pub const MAGIC: u32 = 0x4244_524c;

pub const PROTOCOL_VERSION: u16 = 1;

/// Magic number, version, message type, sequence number and payload length.
pub const HEADER_LEN: usize = 19;

/// The largest payload that a frame may carry.
pub const MAX_PAYLOAD_LEN: usize = 16 * 1024 * 1024;

/// The largest frame.
pub const MAX_FRAME_LEN: usize = 16 * 1024 * 1024 + 19;

#[derive(Clone, Copy, Debug, PartialEq, Eq, Structural)]
pub struct Hello {
    pub protocol_version: u16,
    pub desktop: Rect,
}

#[derive(Clone, Copy, Debug, PartialEq, Eq, Structural)]
pub struct Heartbeat {
    pub sent_millis: u64,
}

/// A drag session and the transfer of its files.
#[derive(Clone, Copy, Debug, PartialEq, Eq, Structural)]
pub struct DragTransfer {
    pub session_id: u128,
    pub transfer_id: u128,
}

#[allow(inconsistent_fields)]
#[derive(Debug, PartialEq, Eq)]
pub enum WireMessage {
    Hello(Hello),
    Input(InputEvent),
    Heartbeat(Heartbeat),
    ReleaseAll,
    Error(String),
    ClipboardOffer(ClipboardEnvelope),
    ClipboardData(ClipboardEnvelope),
    FileTransferOffer(FileTransferManifest),
    DragDropStart(DragTransfer),
    DragDropCommit { session_id: u128 },
    DragDropCancel { session_id: u128, reason: String },
    PeerLayout { controller_remote_position: RemotePosition },
    DragDropEntered { session_id: u128, transfer_id: u128, item_count: u32 },
    DragDropReleased { session_id: u128, point: Point },
    DragDropTargetResolved { session_id: u128, target: DropTargetSummary },
    DragDropTargetFailed { session_id: u128, reason: String },
    DragDropTransferStarted { session_id: u128, transfer_id: u128 },
    DragDropTransferResult {
        session_id: u128,
        transfer_id: u128,
        ok: bool,
        reason: Option<String>,
    },
}

#[allow(inconsistent_fields)]
pub enum MessageView {
    Hello(Hello),
    Input(InputEvent),
    Heartbeat(Heartbeat),
    ReleaseAll,
    Error(Seq<char>),
    ClipboardOffer(ClipboardEnvelopeView),
    ClipboardData(ClipboardEnvelopeView),
    FileTransferOffer(FileTransferManifestView),
    DragDropStart(DragTransfer),
    DragDropCommit { session_id: u128 },
    DragDropCancel { session_id: u128, reason: Seq<char> },
    PeerLayout { controller_remote_position: RemotePosition },
    DragDropEntered { session_id: u128, transfer_id: u128, item_count: u32 },
    DragDropReleased { session_id: u128, point: Point },
    DragDropTargetResolved { session_id: u128, target: DropTargetView },
    DragDropTargetFailed { session_id: u128, reason: Seq<char> },
    DragDropTransferStarted { session_id: u128, transfer_id: u128 },
    DragDropTransferResult {
        session_id: u128,
        transfer_id: u128,
        ok: bool,
        reason: Option<Seq<char>>,
    },
}

impl View for WireMessage {
    type V = MessageView;

    open spec fn view(&self) -> MessageView {
        match self {
            WireMessage::Hello(hello) => MessageView::Hello(*hello),
            WireMessage::Input(event) => MessageView::Input(*event),
            WireMessage::Heartbeat(heartbeat) => MessageView::Heartbeat(*heartbeat),
            WireMessage::ReleaseAll => MessageView::ReleaseAll,
            WireMessage::Error(text) => MessageView::Error(text@),
            WireMessage::ClipboardOffer(envelope) => MessageView::ClipboardOffer(envelope@),
            WireMessage::ClipboardData(envelope) => MessageView::ClipboardData(envelope@),
            WireMessage::FileTransferOffer(manifest) => MessageView::FileTransferOffer(manifest@),
            WireMessage::DragDropStart(start) => MessageView::DragDropStart(*start),
            WireMessage::DragDropCommit { session_id } => MessageView::DragDropCommit {
                session_id: *session_id,
            },
            WireMessage::DragDropCancel { session_id, reason } => MessageView::DragDropCancel {
                session_id: *session_id,
                reason: reason@,
            },
            WireMessage::PeerLayout { controller_remote_position } => MessageView::PeerLayout {
                controller_remote_position: *controller_remote_position,
            },
            WireMessage::DragDropEntered { session_id, transfer_id, item_count } => {
                MessageView::DragDropEntered {
                    session_id: *session_id,
                    transfer_id: *transfer_id,
                    item_count: *item_count,
                }
            },
            WireMessage::DragDropReleased { session_id, point } => MessageView::DragDropReleased {
                session_id: *session_id,
                point: *point,
            },
            WireMessage::DragDropTargetResolved { session_id, target } => {
                MessageView::DragDropTargetResolved { session_id: *session_id, target: target@ }
            },
            WireMessage::DragDropTargetFailed { session_id, reason } => {
                MessageView::DragDropTargetFailed { session_id: *session_id, reason: reason@ }
            },
            WireMessage::DragDropTransferStarted { session_id, transfer_id } => {
                MessageView::DragDropTransferStarted {
                    session_id: *session_id,
                    transfer_id: *transfer_id,
                }
            },
            WireMessage::DragDropTransferResult { session_id, transfer_id, ok, reason } => {
                MessageView::DragDropTransferResult {
                    session_id: *session_id,
                    transfer_id: *transfer_id,
                    ok: *ok,
                    reason: opt_view(*reason),
                }
            },
        }
    }
}

impl Clone for WireMessage {
    fn clone(&self) -> (r: Self)
        ensures
            r@ == self@,
    {
        match self {
            WireMessage::Hello(hello) => WireMessage::Hello(*hello),
            WireMessage::Input(event) => WireMessage::Input(*event),
            WireMessage::Heartbeat(heartbeat) => WireMessage::Heartbeat(*heartbeat),
            WireMessage::ReleaseAll => WireMessage::ReleaseAll,
            WireMessage::Error(text) => WireMessage::Error(text.clone()),
            WireMessage::ClipboardOffer(envelope) => WireMessage::ClipboardOffer(envelope.clone()),
            WireMessage::ClipboardData(envelope) => WireMessage::ClipboardData(envelope.clone()),
            WireMessage::FileTransferOffer(m) => WireMessage::FileTransferOffer(m.clone()),
            WireMessage::DragDropStart(start) => WireMessage::DragDropStart(*start),
            WireMessage::DragDropCommit { session_id } => WireMessage::DragDropCommit {
                session_id: *session_id,
            },
            WireMessage::DragDropCancel { session_id, reason } => WireMessage::DragDropCancel {
                session_id: *session_id,
                reason: reason.clone(),
            },
            WireMessage::PeerLayout { controller_remote_position } => WireMessage::PeerLayout {
                controller_remote_position: *controller_remote_position,
            },
            WireMessage::DragDropEntered { session_id, transfer_id, item_count } => {
                WireMessage::DragDropEntered {
                    session_id: *session_id,
                    transfer_id: *transfer_id,
                    item_count: *item_count,
                }
            },
            WireMessage::DragDropReleased { session_id, point } => WireMessage::DragDropReleased {
                session_id: *session_id,
                point: *point,
            },
            WireMessage::DragDropTargetResolved { session_id, target } => {
                WireMessage::DragDropTargetResolved {
                    session_id: *session_id,
                    target: target.clone(),
                }
            },
            WireMessage::DragDropTargetFailed { session_id, reason } => {
                WireMessage::DragDropTargetFailed {
                    session_id: *session_id,
                    reason: reason.clone(),
                }
            },
            WireMessage::DragDropTransferStarted { session_id, transfer_id } => {
                WireMessage::DragDropTransferStarted {
                    session_id: *session_id,
                    transfer_id: *transfer_id,
                }
            },
            WireMessage::DragDropTransferResult { session_id, transfer_id, ok, reason } => {
                WireMessage::DragDropTransferResult {
                    session_id: *session_id,
                    transfer_id: *transfer_id,
                    ok: *ok,
                    reason: crate::file_transfer::clone_text(reason),
                }
            },
        }
    }
}

/// A message with the sequence number of its frame.
#[derive(Debug, PartialEq, Eq)]
pub struct DecodedFrame {
    pub sequence: u64,
    pub message: WireMessage,
}

/// Why a frame cannot be made or read.
#[derive(Debug, PartialEq, Eq)]
pub enum ProtocolError {
    /// The frame is shorter than its header.
    ShortFrame,
    /// The frame does not begin with the magic number.
    InvalidMagic,
    /// The frame has another protocol version.
    VersionMismatch,
    /// The header tells another payload length than there is.
    LengthMismatch,
    /// The payload is not a message; the text says why.
    MalformedPayload(String),
    /// The payload is a message of another type than the header tells.
    TypeMismatch,
    /// The payload is larger than a frame may carry.
    PayloadTooLarge { max: usize, actual: usize },
}

impl ProtocolError {
    /// The error as a message.
    pub open spec fn text(self) -> Seq<char> {
        match self {
            ProtocolError::ShortFrame => "frame shorter than header"@,
            ProtocolError::InvalidMagic => "invalid frame magic"@,
            ProtocolError::VersionMismatch => "protocol version mismatch"@,
            ProtocolError::LengthMismatch => "frame payload length mismatch"@,
            ProtocolError::MalformedPayload(text) => text@,
            ProtocolError::TypeMismatch => "message type does not match payload"@,
            ProtocolError::PayloadTooLarge { max, actual } => "payload too large: "@ + decimal(
                actual as nat,
            ) + " bytes, limit is "@ + decimal(max as nat),
        }
    }

    /// The error as a message.
    pub fn to_text(&self) -> (r: String)
        ensures
            r@ == self.text(),
    {
        match self {
            ProtocolError::ShortFrame => "frame shorter than header".to_owned(),
            ProtocolError::InvalidMagic => "invalid frame magic".to_owned(),
            ProtocolError::VersionMismatch => "protocol version mismatch".to_owned(),
            ProtocolError::LengthMismatch => "frame payload length mismatch".to_owned(),
            ProtocolError::MalformedPayload(text) => text.clone(),
            ProtocolError::TypeMismatch => "message type does not match payload".to_owned(),
            ProtocolError::PayloadTooLarge { max, actual } => join4(
                "payload too large: ",
                number(*actual as u64).as_str(),
                " bytes, limit is ",
                number(*max as u64).as_str(),
            ),
        }
    }
}

/// The number that a frame's header gives a message's type.
pub open spec fn type_number(m: MessageView) -> u8 {
    match m {
        MessageView::Hello(_) => 1,
        MessageView::Input(_) => 2,
        MessageView::Heartbeat(_) => 3,
        MessageView::ReleaseAll => 4,
        MessageView::Error(_) => 5,
        MessageView::ClipboardOffer(_) => 6,
        MessageView::ClipboardData(_) => 7,
        MessageView::FileTransferOffer(_) => 8,
        MessageView::DragDropStart(_) => 9,
        MessageView::DragDropCommit { .. } => 10,
        MessageView::DragDropCancel { .. } => 11,
        MessageView::PeerLayout { .. } => 12,
        MessageView::DragDropEntered { .. } => 13,
        MessageView::DragDropReleased { .. } => 14,
        MessageView::DragDropTargetResolved { .. } => 15,
        MessageView::DragDropTargetFailed { .. } => 16,
        MessageView::DragDropTransferStarted { .. } => 17,
        MessageView::DragDropTransferResult { .. } => 18,
    }
}

/// The fields of a message in wire notation.
pub open spec fn body_bytes(m: MessageView) -> Seq<u8> {
    match m {
        MessageView::Hello(h) => le_bytes(h.protocol_version as nat, 2) + rect_bytes(h.desktop),
        MessageView::Input(event) => input_bytes(event),
        MessageView::Heartbeat(h) => le_bytes(h.sent_millis as nat, 8),
        MessageView::ReleaseAll => Seq::empty(),
        MessageView::Error(text) => text_bytes(text),
        MessageView::ClipboardOffer(envelope) => envelope_bytes(envelope),
        MessageView::ClipboardData(envelope) => envelope_bytes(envelope),
        MessageView::FileTransferOffer(manifest) => manifest_bytes(manifest),
        MessageView::DragDropStart(start) => id_bytes(start.session_id) + id_bytes(
            start.transfer_id,
        ),
        MessageView::DragDropCommit { session_id } => id_bytes(session_id),
        MessageView::DragDropCancel { session_id, reason } => id_bytes(session_id) + text_bytes(
            reason,
        ),
        MessageView::PeerLayout { controller_remote_position } => tag_bytes(
            position_number(controller_remote_position),
        ),
        MessageView::DragDropEntered { session_id, transfer_id, item_count } => id_bytes(session_id)
            + id_bytes(transfer_id) + le_bytes(item_count as nat, 4),
        MessageView::DragDropReleased { session_id, point } => id_bytes(session_id) + point_bytes(
            point,
        ),
        MessageView::DragDropTargetResolved { session_id, target } => id_bytes(session_id)
            + target_bytes(target),
        MessageView::DragDropTargetFailed { session_id, reason } => id_bytes(session_id)
            + text_bytes(reason),
        MessageView::DragDropTransferStarted { session_id, transfer_id } => id_bytes(session_id)
            + id_bytes(transfer_id),
        MessageView::DragDropTransferResult { session_id, transfer_id, ok, reason } => id_bytes(
            session_id,
        ) + id_bytes(transfer_id) + flag_bytes(ok) + opt_text_bytes(reason),
    }
}

/// A message in wire notation: the number of its variant, then its fields.
pub open spec fn message_bytes(m: MessageView) -> Seq<u8> {
    tag_bytes(type_number(m) - 1) + body_bytes(m)
}

pub open spec fn parse_hello(s: Seq<u8>) -> Option<(MessageView, Seq<u8>)> {
    match parse_u16(s) {
        None => None,
        Some((protocol_version, s1)) => match parse_rect(s1) {
            None => None,
            Some((desktop, s2)) => Some(
                (MessageView::Hello(Hello { protocol_version, desktop }), s2),
            ),
        },
    }
}

/// Two identifiers, one after the other.
pub open spec fn parse_two_ids(s: Seq<u8>) -> Option<((u128, u128), Seq<u8>)> {
    match parse_id(s) {
        None => None,
        Some((a, s1)) => match parse_id(s1) {
            None => None,
            Some((b, s2)) => Some(((a, b), s2)),
        },
    }
}

/// An identifier and text.
pub open spec fn parse_id_text(s: Seq<u8>) -> Option<((u128, Seq<char>), Seq<u8>)> {
    match parse_id(s) {
        None => None,
        Some((a, s1)) => match parse_text(s1) {
            None => None,
            Some((b, s2)) => Some(((a, b), s2)),
        },
    }
}

pub open spec fn parse_entered(s: Seq<u8>) -> Option<(MessageView, Seq<u8>)> {
    match parse_two_ids(s) {
        None => None,
        Some(((session_id, transfer_id), s1)) => match parse_u32(s1) {
            None => None,
            Some((item_count, s2)) => Some(
                (MessageView::DragDropEntered { session_id, transfer_id, item_count }, s2),
            ),
        },
    }
}

pub open spec fn parse_released(s: Seq<u8>) -> Option<(MessageView, Seq<u8>)> {
    match parse_id(s) {
        None => None,
        Some((session_id, s1)) => match parse_point(s1) {
            None => None,
            Some((point, s2)) => Some((MessageView::DragDropReleased { session_id, point }, s2)),
        },
    }
}

pub open spec fn parse_resolved(s: Seq<u8>) -> Option<(MessageView, Seq<u8>)> {
    match parse_id(s) {
        None => None,
        Some((session_id, s1)) => match parse_target(s1) {
            None => None,
            Some((target, s2)) => Some(
                (MessageView::DragDropTargetResolved { session_id, target }, s2),
            ),
        },
    }
}

pub open spec fn parse_result(s: Seq<u8>) -> Option<(MessageView, Seq<u8>)> {
    match parse_two_ids(s) {
        None => None,
        Some(((session_id, transfer_id), s1)) => match parse_flag(s1) {
            None => None,
            Some((ok, s2)) => match parse_opt_text(s2) {
                None => None,
                Some((reason, s3)) => Some(
                    (
                        MessageView::DragDropTransferResult { session_id, transfer_id, ok, reason },
                        s3,
                    ),
                ),
            },
        },
    }
}

/// The fields of the message with a variant number.
pub open spec fn parse_body(tag: u32, s: Seq<u8>) -> Option<(MessageView, Seq<u8>)> {
    if tag == 0 {
        parse_hello(s)
    } else if tag == 1 {
        match parse_input(s) {
            None => None,
            Some((event, rest)) => Some((MessageView::Input(event), rest)),
        }
    } else if tag == 2 {
        match parse_u64(s) {
            None => None,
            Some((sent_millis, rest)) => Some(
                (MessageView::Heartbeat(Heartbeat { sent_millis }), rest),
            ),
        }
    } else if tag == 3 {
        Some((MessageView::ReleaseAll, s))
    } else if tag == 4 {
        match parse_text(s) {
            None => None,
            Some((text, rest)) => Some((MessageView::Error(text), rest)),
        }
    } else if tag == 5 {
        match parse_envelope(s) {
            None => None,
            Some((envelope, rest)) => Some((MessageView::ClipboardOffer(envelope), rest)),
        }
    } else if tag == 6 {
        match parse_envelope(s) {
            None => None,
            Some((envelope, rest)) => Some((MessageView::ClipboardData(envelope), rest)),
        }
    } else if tag == 7 {
        match parse_manifest(s) {
            None => None,
            Some((manifest, rest)) => Some((MessageView::FileTransferOffer(manifest), rest)),
        }
    } else if tag == 8 {
        match parse_two_ids(s) {
            None => None,
            Some(((session_id, transfer_id), rest)) => Some(
                (MessageView::DragDropStart(DragTransfer { session_id, transfer_id }), rest),
            ),
        }
    } else if tag == 9 {
        match parse_id(s) {
            None => None,
            Some((session_id, rest)) => Some((MessageView::DragDropCommit { session_id }, rest)),
        }
    } else if tag == 10 {
        match parse_id_text(s) {
            None => None,
            Some(((session_id, reason), rest)) => Some(
                (MessageView::DragDropCancel { session_id, reason }, rest),
            ),
        }
    } else if tag == 11 {
        match parse_position(s) {
            None => None,
            Some((controller_remote_position, rest)) => Some(
                (MessageView::PeerLayout { controller_remote_position }, rest),
            ),
        }
    } else if tag == 12 {
        parse_entered(s)
    } else if tag == 13 {
        parse_released(s)
    } else if tag == 14 {
        parse_resolved(s)
    } else if tag == 15 {
        match parse_id_text(s) {
            None => None,
            Some(((session_id, reason), rest)) => Some(
                (MessageView::DragDropTargetFailed { session_id, reason }, rest),
            ),
        }
    } else if tag == 16 {
        match parse_two_ids(s) {
            None => None,
            Some(((session_id, transfer_id), rest)) => Some(
                (MessageView::DragDropTransferStarted { session_id, transfer_id }, rest),
            ),
        }
    } else if tag == 17 {
        parse_result(s)
    } else {
        None
    }
}

/// The message at the front of some bytes, and what follows it.
pub open spec fn parse_message(s: Seq<u8>) -> Option<(MessageView, Seq<u8>)> {
    match parse_u32(s) {
        None => None,
        Some((tag, s1)) => parse_body(tag, s1),
    }
}

/// A frame: header and payload.
pub open spec fn frame_bytes(sequence: u64, m: MessageView) -> Seq<u8> {
    (be_bytes(MAGIC as nat, 4) + be_bytes(PROTOCOL_VERSION as nat, 2)).push(type_number(m))
        + be_bytes(sequence as nat, 8) + be_bytes(message_bytes(m).len(), 4) + message_bytes(m)
}

/// What reading a frame gives.
pub enum FrameOutcome {
    Frame { sequence: u64, message: MessageView },
    ShortFrame,
    InvalidMagic,
    VersionMismatch,
    LengthMismatch,
    MalformedPayload,
    TypeMismatch,
}

/// What bytes from the wire mean. Bytes of the payload behind the message are
/// passed over.
pub open spec fn frame_of(raw: Seq<u8>) -> FrameOutcome {
    if raw.len() < HEADER_LEN {
        FrameOutcome::ShortFrame
    } else if be_value(raw.subrange(0, 4)) != MAGIC {
        FrameOutcome::InvalidMagic
    } else if be_value(raw.subrange(4, 6)) != PROTOCOL_VERSION {
        FrameOutcome::VersionMismatch
    } else if be_value(raw.subrange(15, 19)) != raw.len() - HEADER_LEN {
        FrameOutcome::LengthMismatch
    } else {
        match parse_message(raw.skip(HEADER_LEN as int)) {
            None => FrameOutcome::MalformedPayload,
            Some((message, _)) => if type_number(message) != raw[6] {
                FrameOutcome::TypeMismatch
            } else {
                FrameOutcome::Frame { sequence: be_value(raw.subrange(7, 15)) as u64, message }
            },
        }
    }
}

/// The outcome that a result of `decode_frame` stands for.
pub open spec fn outcome_of(r: Result<DecodedFrame, ProtocolError>) -> FrameOutcome {
    match r {
        Ok(frame) => FrameOutcome::Frame { sequence: frame.sequence, message: frame.message@ },
        Err(ProtocolError::ShortFrame) => FrameOutcome::ShortFrame,
        Err(ProtocolError::InvalidMagic) => FrameOutcome::InvalidMagic,
        Err(ProtocolError::VersionMismatch) => FrameOutcome::VersionMismatch,
        Err(ProtocolError::LengthMismatch) => FrameOutcome::LengthMismatch,
        Err(ProtocolError::MalformedPayload(_)) => FrameOutcome::MalformedPayload,
        Err(ProtocolError::TypeMismatch) => FrameOutcome::TypeMismatch,
        Err(ProtocolError::PayloadTooLarge { .. }) => arbitrary(),
    }
}

/// Makes the frame that carries a message.
pub fn encode_frame(sequence: u64, message: &WireMessage) -> (r: Result<Vec<u8>, ProtocolError>)
    ensures
        match r {
            Ok(frame) => frame@ == frame_bytes(sequence, message@) && message_bytes(message@).len()
                <= MAX_PAYLOAD_LEN,
            Err(error) => {
                &&& message_bytes(message@).len() > MAX_PAYLOAD_LEN
                &&& error matches ProtocolError::PayloadTooLarge { max, actual }
                &&& max == MAX_PAYLOAD_LEN
                &&& actual == message_bytes(message@).len()
            },
        },
{
    let payload = encode_message(message);
    if payload.len() > MAX_PAYLOAD_LEN {
        return Err(
            ProtocolError::PayloadTooLarge { max: MAX_PAYLOAD_LEN, actual: payload.len() },
        );
    }
    proof {
        lemma_be_len(MAGIC as nat, 4);
        lemma_be_len(PROTOCOL_VERSION as nat, 2);
        lemma_be_len(sequence as nat, 8);
        lemma_be_len(payload@.len(), 4);
    }
    let mut buf = buffer_with_capacity(HEADER_LEN + payload.len());
    put_u32(&mut buf, MAGIC);
    put_u16(&mut buf, PROTOCOL_VERSION);
    put_u8(&mut buf, message_type(message));
    put_u64(&mut buf, sequence);
    put_u32(&mut buf, payload.len() as u32);
    put_slice(&mut buf, payload.as_slice());
    let frame = buffer_to_vec(&buf);
    assert(frame@ =~= frame_bytes(sequence, message@));
    Ok(frame)
}

/// Reads a frame.
pub fn decode_frame(raw: &[u8]) -> (r: Result<DecodedFrame, ProtocolError>)
    ensures
        outcome_of(r) == frame_of(raw@),
        !(r matches Err(ProtocolError::PayloadTooLarge { .. })),
{
    if raw.len() < HEADER_LEN {
        return Err(ProtocolError::ShortFrame);
    }
    let magic: u32 = get_u32(raw);
    assert(raw@.take(4) =~= raw@.subrange(0, 4));
    if magic != MAGIC {
        return Err(ProtocolError::InvalidMagic);
    }
    let header = slice_subrange(raw, 4, raw.len());
    let version: u16 = get_u16(header);
    assert(header@.take(2) =~= raw@.subrange(4, 6));
    if version != PROTOCOL_VERSION {
        return Err(ProtocolError::VersionMismatch);
    }
    let ty: u8 = get_u8(slice_subrange(raw, 6, raw.len()));
    let after_type = slice_subrange(raw, 7, raw.len());
    assert(after_type@.take(8) =~= raw@.subrange(7, 15));
    let sequence: u64 = get_u64(after_type);
    let after_sequence = slice_subrange(raw, 15, raw.len());
    assert(after_sequence@.take(4) =~= raw@.subrange(15, 19));
    let payload_len: u32 = get_u32(after_sequence);
    let payload = slice_subrange(raw, HEADER_LEN, raw.len());
    assert(payload@ =~= raw@.skip(HEADER_LEN as int));
    if payload.len() as u64 != payload_len as u64 {
        return Err(ProtocolError::LengthMismatch);
    }
    match decode_message(ty, payload) {
        Ok(message) => Ok(DecodedFrame { sequence, message }),
        Err(error) => Err(error),
    }
}

/// The number that a frame's header gives a message's type.
pub fn message_type(message: &WireMessage) -> (r: u8)
    ensures
        r == type_number(message@),
{
    match message {
        WireMessage::Hello(_) => 1,
        WireMessage::Input(_) => 2,
        WireMessage::Heartbeat(_) => 3,
        WireMessage::ReleaseAll => 4,
        WireMessage::Error(_) => 5,
        WireMessage::ClipboardOffer(_) => 6,
        WireMessage::ClipboardData(_) => 7,
        WireMessage::FileTransferOffer(_) => 8,
        WireMessage::DragDropStart(_) => 9,
        WireMessage::DragDropCommit { .. } => 10,
        WireMessage::DragDropCancel { .. } => 11,
        WireMessage::PeerLayout { .. } => 12,
        WireMessage::DragDropEntered { .. } => 13,
        WireMessage::DragDropReleased { .. } => 14,
        WireMessage::DragDropTargetResolved { .. } => 15,
        WireMessage::DragDropTargetFailed { .. } => 16,
        WireMessage::DragDropTransferStarted { .. } => 17,
        WireMessage::DragDropTransferResult { .. } => 18,
    }
}

/// Puts a message into wire notation.
pub fn encode_message(message: &WireMessage) -> (r: Vec<u8>)
    ensures
        r@ == message_bytes(message@),
{
    let mut out: Vec<u8> = Vec::new();
    put_tag(&mut out, message_type(message) as u32 - 1);
    let ghost start = out@;
    match message {
        WireMessage::Hello(hello) => {
            put(&mut out, serialize_u16(hello.protocol_version));
            put_rect(&mut out, hello.desktop);
        },
        WireMessage::Input(event) => {
            put_input(&mut out, event);
        },
        WireMessage::Heartbeat(heartbeat) => {
            put(&mut out, serialize_u64(heartbeat.sent_millis));
        },
        WireMessage::ReleaseAll => {},
        WireMessage::Error(text) => {
            put(&mut out, serialize_text(text.as_str()));
        },
        WireMessage::ClipboardOffer(envelope) => {
            put_envelope(&mut out, envelope);
        },
        WireMessage::ClipboardData(envelope) => {
            put_envelope(&mut out, envelope);
        },
        WireMessage::FileTransferOffer(manifest) => {
            put_manifest(&mut out, manifest);
        },
        WireMessage::DragDropStart(transfer) => {
            put(&mut out, serialize_id(transfer.session_id));
            put(&mut out, serialize_id(transfer.transfer_id));
        },
        WireMessage::DragDropCommit { session_id } => {
            put(&mut out, serialize_id(*session_id));
        },
        WireMessage::DragDropCancel { session_id, reason } => {
            put(&mut out, serialize_id(*session_id));
            put(&mut out, serialize_text(reason.as_str()));
        },
        WireMessage::PeerLayout { controller_remote_position } => {
            put_position(&mut out, *controller_remote_position);
        },
        WireMessage::DragDropEntered { session_id, transfer_id, item_count } => {
            put(&mut out, serialize_id(*session_id));
            put(&mut out, serialize_id(*transfer_id));
            put(&mut out, serialize_u32(*item_count));
        },
        WireMessage::DragDropReleased { session_id, point } => {
            put(&mut out, serialize_id(*session_id));
            put_point(&mut out, *point);
        },
        WireMessage::DragDropTargetResolved { session_id, target } => {
            put(&mut out, serialize_id(*session_id));
            put_target(&mut out, target);
        },
        WireMessage::DragDropTargetFailed { session_id, reason } => {
            put(&mut out, serialize_id(*session_id));
            put(&mut out, serialize_text(reason.as_str()));
        },
        WireMessage::DragDropTransferStarted { session_id, transfer_id } => {
            put(&mut out, serialize_id(*session_id));
            put(&mut out, serialize_id(*transfer_id));
        },
        WireMessage::DragDropTransferResult { session_id, transfer_id, ok, reason } => {
            put(&mut out, serialize_id(*session_id));
            put(&mut out, serialize_id(*transfer_id));
            put(&mut out, serialize_flag(*ok));
            put(&mut out, serialize_opt_text(reason));
        },
    }
    assert(out@ =~= start + body_bytes(message@));
    assert(start =~= tag_bytes(type_number(message@) - 1));
    out
}

fn read_two_ids(raw: &[u8], at: usize) -> (r: Result<((u128, u128), usize), String>)
    requires
        at <= raw@.len(),
    ensures
        read_as(parse_two_ids(raw@.skip(at as int)), raw@, ok(r)),
{
    let (a, a1) = read_id(raw, at)?;
    let (b, a2) = read_id(raw, a1)?;
    Ok(((a, b), a2))
}

fn read_id_text(raw: &[u8], at: usize) -> (r: Result<((u128, String), usize), String>)
    requires
        at <= raw@.len(),
    ensures
        read_as(
            parse_id_text(raw@.skip(at as int)),
            raw@,
            match r {
                Ok(((id, text), next)) => Some(((id, text@), next)),
                Err(_) => None,
            },
        ),
{
    let (a, a1) = read_id(raw, at)?;
    let (b, a2) = read_text(raw, a1)?;
    Ok(((a, b), a2))
}

/// Reads the fields of the message with a variant number.
fn read_body(tag: u32, raw: &[u8], at: usize) -> (r: Result<(WireMessage, usize), String>)
    requires
        at <= raw@.len(),
    ensures
        read_as(parse_body(tag, raw@.skip(at as int)), raw@, ok_view(r)),
{
    if tag == 0 {
        let (protocol_version, a1) = read_u16(raw, at)?;
        let (desktop, a2) = read_rect(raw, a1)?;
        Ok((WireMessage::Hello(Hello { protocol_version, desktop }), a2))
    } else if tag == 1 {
        let (event, a1) = read_input(raw, at)?;
        Ok((WireMessage::Input(event), a1))
    } else if tag == 2 {
        let (sent_millis, a1) = read_u64(raw, at)?;
        Ok((WireMessage::Heartbeat(Heartbeat { sent_millis }), a1))
    } else if tag == 3 {
        Ok((WireMessage::ReleaseAll, at))
    } else if tag == 4 {
        let (text, a1) = read_text(raw, at)?;
        Ok((WireMessage::Error(text), a1))
    } else if tag == 5 {
        let (envelope, a1) = read_envelope(raw, at)?;
        Ok((WireMessage::ClipboardOffer(envelope), a1))
    } else if tag == 6 {
        let (envelope, a1) = read_envelope(raw, at)?;
        Ok((WireMessage::ClipboardData(envelope), a1))
    } else if tag == 7 {
        let (manifest, a1) = read_manifest(raw, at)?;
        Ok((WireMessage::FileTransferOffer(manifest), a1))
    } else if tag == 8 {
        let ((session_id, transfer_id), a1) = read_two_ids(raw, at)?;
        Ok((WireMessage::DragDropStart(DragTransfer { session_id, transfer_id }), a1))
    } else if tag == 9 {
        let (session_id, a1) = read_id(raw, at)?;
        Ok((WireMessage::DragDropCommit { session_id }, a1))
    } else if tag == 10 {
        let ((session_id, reason), a1) = read_id_text(raw, at)?;
        Ok((WireMessage::DragDropCancel { session_id, reason }, a1))
    } else if tag == 11 {
        let (controller_remote_position, a1) = read_position(raw, at)?;
        Ok((WireMessage::PeerLayout { controller_remote_position }, a1))
    } else if tag == 12 {
        let ((session_id, transfer_id), a1) = read_two_ids(raw, at)?;
        let (item_count, a2) = read_u32(raw, a1)?;
        Ok((WireMessage::DragDropEntered { session_id, transfer_id, item_count }, a2))
    } else if tag == 13 {
        let (session_id, a1) = read_id(raw, at)?;
        let (point, a2) = read_point(raw, a1)?;
        Ok((WireMessage::DragDropReleased { session_id, point }, a2))
    } else if tag == 14 {
        let (session_id, a1) = read_id(raw, at)?;
        let (target, a2) = read_target(raw, a1)?;
        Ok((WireMessage::DragDropTargetResolved { session_id, target }, a2))
    } else if tag == 15 {
        let ((session_id, reason), a1) = read_id_text(raw, at)?;
        Ok((WireMessage::DragDropTargetFailed { session_id, reason }, a1))
    } else if tag == 16 {
        let ((session_id, transfer_id), a1) = read_two_ids(raw, at)?;
        Ok((WireMessage::DragDropTransferStarted { session_id, transfer_id }, a1))
    } else if tag == 17 {
        let ((session_id, transfer_id), a1) = read_two_ids(raw, at)?;
        let (ok, a2) = read_flag(raw, a1)?;
        let (reason, a3) = read_opt_text(raw, a2)?;
        Ok((WireMessage::DragDropTransferResult { session_id, transfer_id, ok, reason }, a3))
    } else {
        Err("unknown message variant".to_owned())
    }
}

/// Reads a payload whose header tells type `ty`.
pub fn decode_message(ty: u8, payload: &[u8]) -> (r: Result<WireMessage, ProtocolError>)
    ensures
        match parse_message(payload@) {
            None => r matches Err(ProtocolError::MalformedPayload(_)),
            Some((message, _)) => if type_number(message) == ty {
                r matches Ok(decoded) && decoded@ == message
            } else {
                r == Err::<WireMessage, ProtocolError>(ProtocolError::TypeMismatch)
            },
        },
{
    assert(payload@.skip(0) =~= payload@);
    let decoded = match read_u32(payload, 0) {
        Ok((tag, next)) => read_body(tag, payload, next),
        Err(error) => Err(error),
    };
    match decoded {
        Ok((message, _)) => {
            if message_type(&message) != ty {
                return Err(ProtocolError::TypeMismatch);
            }
            Ok(message)
        },
        Err(error) => Err(ProtocolError::MalformedPayload(error)),
    }
}

// ---- reading gives back what was written ----

proof fn lemma_two_ids(a: u128, b: u128, rest: Seq<u8>)
    ensures
        parse_two_ids(id_bytes(a) + id_bytes(b) + rest) == Some(((a, b), rest)),
{
    assert(id_bytes(a) + id_bytes(b) + rest =~= id_bytes(a) + (id_bytes(b) + rest));
    lemma_id(a, id_bytes(b) + rest);
    lemma_id(b, rest);
}

proof fn lemma_id_text(a: u128, text: Seq<char>, rest: Seq<u8>)
    requires
        text_bytes(text).len() <= u64::MAX,
    ensures
        parse_id_text(id_bytes(a) + text_bytes(text) + rest) == Some(((a, text), rest)),
{
    assert(id_bytes(a) + text_bytes(text) + rest =~= id_bytes(a) + (text_bytes(text) + rest));
    lemma_id(a, text_bytes(text) + rest);
    lemma_text(text, rest);
}

proof fn lemma_hello(h: Hello, rest: Seq<u8>)
    ensures
        parse_hello(body_bytes(MessageView::Hello(h)) + rest) == Some(
            (MessageView::Hello(h), rest),
        ),
{
    let b = rect_bytes(h.desktop) + rest;
    assert(body_bytes(MessageView::Hello(h)) + rest =~= le_bytes(h.protocol_version as nat, 2) + b);
    lemma_u16(h.protocol_version, b);
    lemma_rect(h.desktop, rest);
}

proof fn lemma_entered(m: MessageView, rest: Seq<u8>)
    requires
        m is DragDropEntered,
    ensures
        parse_entered(body_bytes(m) + rest) == Some((m, rest)),
{
    if let MessageView::DragDropEntered { session_id, transfer_id, item_count } = m {
        let b = le_bytes(item_count as nat, 4) + rest;
        assert(body_bytes(m) + rest =~= id_bytes(session_id) + id_bytes(transfer_id) + b);
        lemma_two_ids(session_id, transfer_id, b);
        lemma_u32(item_count, rest);
    }
}

proof fn lemma_released(m: MessageView, rest: Seq<u8>)
    requires
        m is DragDropReleased,
    ensures
        parse_released(body_bytes(m) + rest) == Some((m, rest)),
{
    if let MessageView::DragDropReleased { session_id, point } = m {
        let b = point_bytes(point) + rest;
        assert(body_bytes(m) + rest =~= id_bytes(session_id) + b);
        lemma_id(session_id, b);
        lemma_point(point, rest);
    }
}

proof fn lemma_resolved(m: MessageView, rest: Seq<u8>)
    requires
        m is DragDropTargetResolved,
        body_bytes(m).len() <= u64::MAX,
    ensures
        parse_resolved(body_bytes(m) + rest) == Some((m, rest)),
{
    if let MessageView::DragDropTargetResolved { session_id, target } = m {
        let b = target_bytes(target) + rest;
        assert(body_bytes(m) + rest =~= id_bytes(session_id) + b);
        lemma_id(session_id, b);
        lemma_target(target, rest);
    }
}

proof fn lemma_result(m: MessageView, rest: Seq<u8>)
    requires
        m is DragDropTransferResult,
        body_bytes(m).len() <= u64::MAX,
    ensures
        parse_result(body_bytes(m) + rest) == Some((m, rest)),
{
    if let MessageView::DragDropTransferResult { session_id, transfer_id, ok, reason } = m {
        let b2 = opt_text_bytes(reason) + rest;
        let b1 = flag_bytes(ok) + b2;
        assert(body_bytes(m) + rest =~= id_bytes(session_id) + id_bytes(transfer_id) + b1);
        lemma_two_ids(session_id, transfer_id, b1);
        lemma_flag(ok, b2);
        lemma_opt_text(reason, rest);
    }
}

/// The fields of a message are read back.
#[verifier::rlimit(100)]
#[verifier::spinoff_prover]
proof fn lemma_body(m: MessageView, rest: Seq<u8>)
    requires
        body_bytes(m).len() <= u64::MAX,
    ensures
        parse_body((type_number(m) - 1) as u32, body_bytes(m) + rest) == Some((m, rest)),
{
    match m {
        MessageView::Hello(h) => {
            lemma_hello(h, rest);
        },
        MessageView::Input(event) => {
            lemma_input(event, rest);
        },
        MessageView::Heartbeat(h) => {
            lemma_u64(h.sent_millis, rest);
        },
        MessageView::ReleaseAll => {
            assert(body_bytes(m) + rest =~= rest);
        },
        MessageView::Error(text) => {
            lemma_text(text, rest);
        },
        MessageView::ClipboardOffer(envelope) => {
            lemma_envelope(envelope, rest);
        },
        MessageView::ClipboardData(envelope) => {
            lemma_envelope(envelope, rest);
        },
        MessageView::FileTransferOffer(manifest) => {
            lemma_manifest(manifest, rest);
        },
        MessageView::DragDropStart(start) => {
            lemma_two_ids(start.session_id, start.transfer_id, rest);
        },
        MessageView::DragDropCommit { session_id } => {
            lemma_id(session_id, rest);
        },
        MessageView::DragDropCancel { session_id, reason } => {
            lemma_id_text(session_id, reason, rest);
        },
        MessageView::PeerLayout { controller_remote_position } => {
            lemma_position(controller_remote_position, rest);
        },
        MessageView::DragDropEntered { .. } => {
            lemma_entered(m, rest);
        },
        MessageView::DragDropReleased { .. } => {
            lemma_released(m, rest);
        },
        MessageView::DragDropTargetResolved { .. } => {
            lemma_resolved(m, rest);
        },
        MessageView::DragDropTargetFailed { session_id, reason } => {
            lemma_id_text(session_id, reason, rest);
        },
        MessageView::DragDropTransferStarted { session_id, transfer_id } => {
            lemma_two_ids(session_id, transfer_id, rest);
        },
        MessageView::DragDropTransferResult { .. } => {
            lemma_result(m, rest);
        },
    }
}

/// A message in wire notation is read back, whatever bytes follow it.
pub proof fn law_message_round_trips(m: MessageView, rest: Seq<u8>)
    requires
        message_bytes(m).len() <= u64::MAX,
    ensures
        parse_message(message_bytes(m) + rest) == Some((m, rest)),
{
    let b = body_bytes(m) + rest;
    assert(message_bytes(m) + rest =~= tag_bytes(type_number(m) - 1) + b);
    lemma_u32((type_number(m) - 1) as u32, b);
    lemma_body(m, rest);
}

/// A frame that was encoded decodes to the same sequence number and message.
pub proof fn law_frame_round_trips(sequence: u64, m: MessageView)
    requires
        message_bytes(m).len() <= MAX_PAYLOAD_LEN,
    ensures
        frame_of(frame_bytes(sequence, m)) == (FrameOutcome::Frame { sequence, message: m }),
{
    lemma_pow256_values();
    lemma_be_round_trip(MAGIC as nat, 4);
    lemma_be_round_trip(PROTOCOL_VERSION as nat, 2);
    lemma_be_round_trip(sequence as nat, 8);
    lemma_be_round_trip(message_bytes(m).len(), 4);
    let raw = frame_bytes(sequence, m);
    assert(raw.subrange(0, 4) =~= be_bytes(MAGIC as nat, 4));
    assert(raw.subrange(4, 6) =~= be_bytes(PROTOCOL_VERSION as nat, 2));
    assert(raw[6] == type_number(m));
    assert(raw.subrange(7, 15) =~= be_bytes(sequence as nat, 8));
    assert(raw.subrange(15, 19) =~= be_bytes(message_bytes(m).len(), 4));
    assert(raw.skip(19) =~= message_bytes(m) + Seq::<u8>::empty());
    law_message_round_trips(m, Seq::empty());
}

/// A frame is never longer than the largest frame.
pub proof fn law_frames_are_bounded(sequence: u64, m: MessageView)
    requires
        message_bytes(m).len() <= MAX_PAYLOAD_LEN,
    ensures
        frame_bytes(sequence, m).len() == HEADER_LEN + message_bytes(m).len(),
        frame_bytes(sequence, m).len() <= MAX_FRAME_LEN,
{
    lemma_be_len(MAGIC as nat, 4);
    lemma_be_len(PROTOCOL_VERSION as nat, 2);
    lemma_be_len(sequence as nat, 8);
    lemma_be_len(message_bytes(m).len(), 4);
}

/// Two frames with the same bytes carry the same message.
pub proof fn law_frames_tell_messages_apart(sequence: u64, a: MessageView, b: MessageView)
    requires
        message_bytes(a).len() <= MAX_PAYLOAD_LEN,
        message_bytes(b).len() <= MAX_PAYLOAD_LEN,
        frame_bytes(sequence, a) == frame_bytes(sequence, b),
    ensures
        a == b,
{
    law_frame_round_trips(sequence, a);
    law_frame_round_trips(sequence, b);
}

/// A frame byte by byte: the letters of the magic number, the version, the number of the
/// message's type, the sequence number and the length of the payload, most significant byte
/// first, and then the payload, which begins with the number of the message's variant.
pub proof fn law_frames_have_their_layout(sequence: u64, m: MessageView, i: int)
    ensures
        ({
            let raw = frame_bytes(sequence, m);
            let payload = message_bytes(m);
            let number: u8 = match m {
                MessageView::Hello(_) => 1,
                MessageView::Input(_) => 2,
                MessageView::Heartbeat(_) => 3,
                MessageView::ReleaseAll => 4,
                MessageView::Error(_) => 5,
                MessageView::ClipboardOffer(_) => 6,
                MessageView::ClipboardData(_) => 7,
                MessageView::FileTransferOffer(_) => 8,
                MessageView::DragDropStart(_) => 9,
                MessageView::DragDropCommit { .. } => 10,
                MessageView::DragDropCancel { .. } => 11,
                MessageView::PeerLayout { .. } => 12,
                MessageView::DragDropEntered { .. } => 13,
                MessageView::DragDropReleased { .. } => 14,
                MessageView::DragDropTargetResolved { .. } => 15,
                MessageView::DragDropTargetFailed { .. } => 16,
                MessageView::DragDropTransferStarted { .. } => 17,
                MessageView::DragDropTransferResult { .. } => 18,
            };
            &&& raw.len() == 19 + payload.len()
            &&& raw[0] == 0x42 && raw[1] == 0x44 && raw[2] == 0x52 && raw[3] == 0x4c
            &&& raw[4] == 0 && raw[5] == 1
            &&& raw[6] == number
            &&& raw[14] == sequence % 256
            &&& 0 <= i < 8 ==> raw[7 + i] == (sequence as nat / crate::octets::pow256((7 - i) as nat)) % 256
            &&& raw[18] == payload.len() % 256
            &&& 0 <= i < 4 ==> raw[15 + i] == (payload.len() / crate::octets::pow256((3 - i) as nat)) % 256
            &&& raw.skip(19) == payload
            &&& raw[19] == number - 1 && raw[20] == 0 && raw[21] == 0 && raw[22] == 0
        }),
{
    let raw = frame_bytes(sequence, m);
    let payload = message_bytes(m);
    let head = be_bytes(MAGIC as nat, 4);
    let version = be_bytes(PROTOCOL_VERSION as nat, 2);
    lemma_be_len(MAGIC as nat, 4);
    lemma_be_len(PROTOCOL_VERSION as nat, 2);
    lemma_be_len(sequence as nat, 8);
    lemma_be_len(payload.len(), 4);
    lemma_pow256_values();
    assert(crate::octets::pow256(0) == 1);
    reveal_with_fuel(be_bytes, 5);
    assert(raw[0] == head[0] && raw[1] == head[1] && raw[2] == head[2] && raw[3] == head[3]);
    assert(raw[4] == version[0] && raw[5] == version[1]);
    crate::octets::law_bytes_stand_in_order(sequence as nat, 8, 7);
    crate::octets::law_bytes_stand_in_order(payload.len(), 4, 3);
    if 0 <= i < 8 {
        crate::octets::law_bytes_stand_in_order(sequence as nat, 8, i);
        assert(raw[7 + i] == be_bytes(sequence as nat, 8)[i]);
    }
    if 0 <= i < 4 {
        crate::octets::law_bytes_stand_in_order(payload.len(), 4, i);
        assert(raw[15 + i] == be_bytes(payload.len(), 4)[i]);
    }
    assert(raw[14] == be_bytes(sequence as nat, 8)[7]);
    assert(raw[18] == be_bytes(payload.len(), 4)[3]);
    assert(raw.skip(19) =~= payload);
    crate::codec::lemma_tag(type_number(m) - 1);
    assert(forall|k: int| 0 <= k < 4 ==> raw[19 + k] == payload[k]);
}

/// A frame that was damaged is refused for what is wrong with it: too few bytes, another
/// beginning, another version, bytes that are missing or too many, or another type.
pub proof fn law_damaged_frames_are_refused(
    sequence: u64,
    m: MessageView,
    i: int,
    b: u8,
    n: int,
    more: Seq<u8>,
)
    requires
        message_bytes(m).len() <= MAX_PAYLOAD_LEN,
        frame_of(frame_bytes(sequence, m)) == (FrameOutcome::Frame { sequence, message: m }),
    ensures
        ({
            let raw = frame_bytes(sequence, m);
            &&& 0 <= n < 19 ==> frame_of(raw.take(n)) == FrameOutcome::ShortFrame
            &&& 19 <= n < raw.len() ==> frame_of(raw.take(n)) == FrameOutcome::LengthMismatch
            &&& more.len() > 0 ==> frame_of(raw + more) == FrameOutcome::LengthMismatch
            &&& 0 <= i < raw.len() && b != raw[i] ==> {
                &&& i < 4 ==> frame_of(raw.update(i, b)) == FrameOutcome::InvalidMagic
                &&& 4 <= i < 6 ==> frame_of(raw.update(i, b)) == FrameOutcome::VersionMismatch
                &&& i == 6 ==> frame_of(raw.update(i, b)) == FrameOutcome::TypeMismatch
                &&& 15 <= i < 19 ==> frame_of(raw.update(i, b)) == FrameOutcome::LengthMismatch
            }
        }),
{
    let raw = frame_bytes(sequence, m);
    lemma_be_len(MAGIC as nat, 4);
    lemma_be_len(PROTOCOL_VERSION as nat, 2);
    lemma_be_len(sequence as nat, 8);
    lemma_be_len(message_bytes(m).len(), 4);
    if 19 <= n < raw.len() {
        let part = raw.take(n);
        assert(part.subrange(0, 4) =~= raw.subrange(0, 4));
        assert(part.subrange(4, 6) =~= raw.subrange(4, 6));
        assert(part.subrange(15, 19) =~= raw.subrange(15, 19));
    }
    if more.len() > 0 {
        let long = raw + more;
        assert(long.subrange(0, 4) =~= raw.subrange(0, 4));
        assert(long.subrange(4, 6) =~= raw.subrange(4, 6));
        assert(long.subrange(15, 19) =~= raw.subrange(15, 19));
    }
    if 0 <= i < raw.len() && b != raw[i] {
        let other = raw.update(i, b);
        if i < 4 {
            assert(other.subrange(0, 4)[i] != raw.subrange(0, 4)[i]);
            if be_value(other.subrange(0, 4)) == MAGIC {
                crate::octets::law_numbers_tell_bytes_apart(
                    other.subrange(0, 4),
                    raw.subrange(0, 4),
                );
            }
        } else {
            assert(other.subrange(0, 4) =~= raw.subrange(0, 4));
        }
        if 4 <= i < 6 {
            assert(other.subrange(4, 6)[i - 4] != raw.subrange(4, 6)[i - 4]);
            if be_value(other.subrange(4, 6)) == PROTOCOL_VERSION {
                crate::octets::law_numbers_tell_bytes_apart(
                    other.subrange(4, 6),
                    raw.subrange(4, 6),
                );
            }
        } else {
            assert(other.subrange(4, 6) =~= raw.subrange(4, 6));
        }
        if 15 <= i < 19 {
            assert(other.subrange(15, 19)[i - 15] != raw.subrange(15, 19)[i - 15]);
            if be_value(other.subrange(15, 19)) == raw.len() - HEADER_LEN {
                crate::octets::law_numbers_tell_bytes_apart(
                    other.subrange(15, 19),
                    raw.subrange(15, 19),
                );
            }
        } else {
            assert(other.subrange(15, 19) =~= raw.subrange(15, 19));
        }
        if i == 6 {
            assert(other.skip(19) =~= raw.skip(19));
        }
    }
}

/// A message about a drag begins with the drag's session, and the transfer follows where it
/// is named; what else is said of the drag comes last.
pub proof fn law_drag_messages_name_their_session_first(
    session_id: u128,
    transfer_id: u128,
    reason: Seq<char>,
    item_count: u32,
    point: Point,
    ok: bool,
)
    ensures
        body_bytes(MessageView::DragDropCancel { session_id, reason }) == id_bytes(session_id)
            + text_bytes(reason),
        body_bytes(MessageView::DragDropTargetFailed { session_id, reason }) == body_bytes(
            MessageView::DragDropCancel { session_id, reason },
        ),
        body_bytes(MessageView::DragDropCommit { session_id }) == id_bytes(session_id),
        body_bytes(MessageView::DragDropEntered { session_id, transfer_id, item_count })
            == body_bytes(MessageView::DragDropStart(DragTransfer { session_id, transfer_id }))
            + le_bytes(item_count as nat, 4),
        body_bytes(MessageView::DragDropTransferStarted { session_id, transfer_id }) == body_bytes(
            MessageView::DragDropStart(DragTransfer { session_id, transfer_id }),
        ),
        body_bytes(MessageView::DragDropStart(DragTransfer { session_id, transfer_id }))
            == id_bytes(session_id) + id_bytes(transfer_id),
        body_bytes(MessageView::DragDropReleased { session_id, point }) == id_bytes(session_id)
            + point_bytes(point),
        body_bytes(
            MessageView::DragDropTransferResult { session_id, transfer_id, ok, reason: None },
        ) == id_bytes(session_id) + id_bytes(transfer_id) + seq![
            if ok {
                1u8
            } else {
                0u8
            },
            0u8,
        ],
{
    assert(flag_bytes(ok) + opt_text_bytes(None) =~= seq![
        if ok {
            1u8
        } else {
            0u8
        },
        0u8,
    ]);
    assert(body_bytes(
        MessageView::DragDropTransferResult { session_id, transfer_id, ok, reason: None },
    ) =~= id_bytes(session_id) + id_bytes(transfer_id) + seq![
        if ok {
            1u8
        } else {
            0u8
        },
        0u8,
    ]);
}

} // verus!
