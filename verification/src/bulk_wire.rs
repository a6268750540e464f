//! The messages of the file transfer channel and their frames.
use crate::codec::{
    lemma_manifest, manifest_bytes, parse_manifest, put, put_manifest, put_tag, read_manifest,
    tag_bytes,
};
use crate::file_transfer::{
    FileChunk, FileChunkView, FileTransferManifest, FileTransferManifestView,
};
use crate::octets::{
    be_bytes, buffer_to_vec, buffer_with_capacity, le_bytes, lemma_be_len, put_slice, put_u32,
};
use crate::text::{decimal, join4, number};
use crate::wire::{
    blob_bytes, id_bytes, lemma_blob, lemma_id, lemma_text, lemma_u32, lemma_u64, ok_view,
    parse_blob, parse_id, parse_text, parse_u32, parse_u64, read_as, read_blob, read_id, read_text,
    read_u32, read_u64, serialize_blob, serialize_id, serialize_text, serialize_u64, text_bytes,
};
use vstd::prelude::*;

verus! {

/// The largest number of file bytes in one message.
pub const CHUNK_SIZE: usize = 1024 * 1024;

/// The largest encoded message.
pub const MAX_BULK_FRAME_LEN: usize = 1024 * 1024 + 64 * 1024;

/// A message of the file transfer channel.
#[derive(Debug, PartialEq, Eq)]
pub enum BulkWireMessage {
    Manifest(FileTransferManifest),
    FileHeader { transfer_id: u128, relative_path: String, size_bytes: u64, blake3_hex: String },
    Chunk(FileChunk),
    FileComplete { transfer_id: u128, relative_path: String, blake3_hex: String },
    TransferComplete { transfer_id: u128 },
    Cancel { transfer_id: u128 },
}

pub enum BulkMessageView {
    Manifest(FileTransferManifestView),
    FileHeader {
        transfer_id: u128,
        relative_path: Seq<char>,
        size_bytes: u64,
        blake3_hex: Seq<char>,
    },
    Chunk(FileChunkView),
    FileComplete { transfer_id: u128, relative_path: Seq<char>, blake3_hex: Seq<char> },
    TransferComplete { transfer_id: u128 },
    Cancel { transfer_id: u128 },
}

impl View for BulkWireMessage {
    type V = BulkMessageView;

    open spec fn view(&self) -> BulkMessageView {
        match self {
            BulkWireMessage::Manifest(manifest) => BulkMessageView::Manifest(manifest@),
            BulkWireMessage::FileHeader { transfer_id, relative_path, size_bytes, blake3_hex } => {
                BulkMessageView::FileHeader {
                    transfer_id: *transfer_id,
                    relative_path: relative_path@,
                    size_bytes: *size_bytes,
                    blake3_hex: blake3_hex@,
                }
            },
            BulkWireMessage::Chunk(chunk) => BulkMessageView::Chunk(chunk@),
            BulkWireMessage::FileComplete { transfer_id, relative_path, blake3_hex } => {
                BulkMessageView::FileComplete {
                    transfer_id: *transfer_id,
                    relative_path: relative_path@,
                    blake3_hex: blake3_hex@,
                }
            },
            BulkWireMessage::TransferComplete { transfer_id } => {
                BulkMessageView::TransferComplete { transfer_id: *transfer_id }
            },
            BulkWireMessage::Cancel { transfer_id } => BulkMessageView::Cancel {
                transfer_id: *transfer_id,
            },
        }
    }
}

/// The variant number of a message.
pub open spec fn bulk_number(m: BulkMessageView) -> int {
    match m {
        BulkMessageView::Manifest(_) => 0,
        BulkMessageView::FileHeader { .. } => 1,
        BulkMessageView::Chunk(_) => 2,
        BulkMessageView::FileComplete { .. } => 3,
        BulkMessageView::TransferComplete { .. } => 4,
        BulkMessageView::Cancel { .. } => 5,
    }
}

/// The fields of a message on the wire.
pub open spec fn bulk_fields(m: BulkMessageView) -> Seq<u8> {
    match m {
        BulkMessageView::Manifest(manifest) => manifest_bytes(manifest),
        BulkMessageView::FileHeader { transfer_id, relative_path, size_bytes, blake3_hex } => {
            id_bytes(transfer_id) + text_bytes(relative_path) + le_bytes(size_bytes as nat, 8)
                + text_bytes(blake3_hex)
        },
        BulkMessageView::Chunk(chunk) => id_bytes(chunk.transfer_id) + text_bytes(
            chunk.relative_path,
        ) + le_bytes(chunk.offset as nat, 8) + blob_bytes(chunk.bytes) + text_bytes(
            chunk.blake3_hex,
        ),
        BulkMessageView::FileComplete { transfer_id, relative_path, blake3_hex } => id_bytes(
            transfer_id,
        ) + text_bytes(relative_path) + text_bytes(blake3_hex),
        BulkMessageView::TransferComplete { transfer_id } => id_bytes(transfer_id),
        BulkMessageView::Cancel { transfer_id } => id_bytes(transfer_id),
    }
}

/// A message on the wire.
pub open spec fn bulk_bytes(m: BulkMessageView) -> Seq<u8> {
    tag_bytes(bulk_number(m)) + bulk_fields(m)
}

/// A frame: the length of the message in four bytes, then the message.
pub open spec fn bulk_frame(m: BulkMessageView) -> Seq<u8> {
    be_bytes(bulk_bytes(m).len(), 4) + bulk_bytes(m)
}

/// An identifier and a path.
pub open spec fn parse_file(s: Seq<u8>) -> Option<((u128, Seq<char>), Seq<u8>)> {
    match parse_id(s) {
        None => None,
        Some((id, s1)) => match parse_text(s1) {
            None => None,
            Some((path, s2)) => Some(((id, path), s2)),
        },
    }
}

pub open spec fn parse_file_header(s: Seq<u8>) -> Option<(BulkMessageView, Seq<u8>)> {
    match parse_file(s) {
        None => None,
        Some(((transfer_id, relative_path), s1)) => match parse_u64(s1) {
            None => None,
            Some((size_bytes, s2)) => match parse_text(s2) {
                None => None,
                Some((blake3_hex, s3)) => Some(
                    (
                        BulkMessageView::FileHeader {
                            transfer_id,
                            relative_path,
                            size_bytes,
                            blake3_hex,
                        },
                        s3,
                    ),
                ),
            },
        },
    }
}

pub open spec fn parse_chunk(s: Seq<u8>) -> Option<(BulkMessageView, Seq<u8>)> {
    match parse_file(s) {
        None => None,
        Some(((transfer_id, relative_path), s1)) => match parse_u64(s1) {
            None => None,
            Some((offset, s2)) => match parse_blob(s2) {
                None => None,
                Some((bytes, s3)) => match parse_text(s3) {
                    None => None,
                    Some((blake3_hex, s4)) => Some(
                        (
                            BulkMessageView::Chunk(
                                FileChunkView {
                                    transfer_id,
                                    relative_path,
                                    offset,
                                    bytes,
                                    blake3_hex,
                                },
                            ),
                            s4,
                        ),
                    ),
                },
            },
        },
    }
}

pub open spec fn parse_file_complete(s: Seq<u8>) -> Option<(BulkMessageView, Seq<u8>)> {
    match parse_file(s) {
        None => None,
        Some(((transfer_id, relative_path), s1)) => match parse_text(s1) {
            None => None,
            Some((blake3_hex, s2)) => Some(
                (BulkMessageView::FileComplete { transfer_id, relative_path, blake3_hex }, s2),
            ),
        },
    }
}

/// The fields of a message of a variant.
pub open spec fn parse_bulk_fields(tag: u32, s: Seq<u8>) -> Option<(BulkMessageView, Seq<u8>)> {
    if tag == 0 {
        match parse_manifest(s) {
            None => None,
            Some((manifest, rest)) => Some((BulkMessageView::Manifest(manifest), rest)),
        }
    } else if tag == 1 {
        parse_file_header(s)
    } else if tag == 2 {
        parse_chunk(s)
    } else if tag == 3 {
        parse_file_complete(s)
    } else if tag == 4 {
        match parse_id(s) {
            None => None,
            Some((transfer_id, rest)) => Some(
                (BulkMessageView::TransferComplete { transfer_id }, rest),
            ),
        }
    } else if tag == 5 {
        match parse_id(s) {
            None => None,
            Some((transfer_id, rest)) => Some((BulkMessageView::Cancel { transfer_id }, rest)),
        }
    } else {
        None
    }
}

/// A message; bytes behind it are left.
pub open spec fn parse_bulk(s: Seq<u8>) -> Option<(BulkMessageView, Seq<u8>)> {
    match parse_u32(s) {
        None => None,
        Some((tag, rest)) => parse_bulk_fields(tag, rest),
    }
}

fn encode_bulk(message: &BulkWireMessage) -> (r: Vec<u8>)
    ensures
        r@ == bulk_bytes(message@),
{
    let mut out: Vec<u8> = Vec::new();
    match message {
        BulkWireMessage::Manifest(manifest) => {
            put_tag(&mut out, 0);
            put_manifest(&mut out, manifest);
        },
        BulkWireMessage::FileHeader { transfer_id, relative_path, size_bytes, blake3_hex } => {
            put_tag(&mut out, 1);
            put(&mut out, serialize_id(*transfer_id));
            put(&mut out, serialize_text(relative_path.as_str()));
            put(&mut out, serialize_u64(*size_bytes));
            put(&mut out, serialize_text(blake3_hex.as_str()));
        },
        BulkWireMessage::Chunk(chunk) => {
            put_tag(&mut out, 2);
            put(&mut out, serialize_id(chunk.transfer_id));
            put(&mut out, serialize_text(chunk.relative_path.as_str()));
            put(&mut out, serialize_u64(chunk.offset));
            put(&mut out, serialize_blob(chunk.bytes.as_slice()));
            put(&mut out, serialize_text(chunk.blake3_hex.as_str()));
        },
        BulkWireMessage::FileComplete { transfer_id, relative_path, blake3_hex } => {
            put_tag(&mut out, 3);
            put(&mut out, serialize_id(*transfer_id));
            put(&mut out, serialize_text(relative_path.as_str()));
            put(&mut out, serialize_text(blake3_hex.as_str()));
        },
        BulkWireMessage::TransferComplete { transfer_id } => {
            put_tag(&mut out, 4);
            put(&mut out, serialize_id(*transfer_id));
        },
        BulkWireMessage::Cancel { transfer_id } => {
            put_tag(&mut out, 5);
            put(&mut out, serialize_id(*transfer_id));
        },
    }
    assert(out@ =~= bulk_bytes(message@));
    out
}

/// Makes the frame of a message, or says why the message is too large for one.
pub fn encode_bulk_frame(message: &BulkWireMessage) -> (r: Result<Vec<u8>, String>)
    ensures
        match r {
            Ok(frame) => bulk_bytes(message@).len() <= MAX_BULK_FRAME_LEN && frame@ == bulk_frame(
                message@,
            ),
            Err(error) => bulk_bytes(message@).len() > MAX_BULK_FRAME_LEN && error@
                == "bulk frame too large: max "@ + decimal(MAX_BULK_FRAME_LEN as nat) + ", got "@
                + decimal(bulk_bytes(message@).len()),
        },
{
    let payload = encode_bulk(message);
    if payload.len() > MAX_BULK_FRAME_LEN {
        let max_text = number(MAX_BULK_FRAME_LEN as u64);
        let got_text = number(payload.len() as u64);
        return Err(
            join4("bulk frame too large: max ", max_text.as_str(), ", got ", got_text.as_str()),
        );
    }
    proof {
        lemma_be_len(payload@.len(), 4);
    }
    let mut buf = buffer_with_capacity(4 + payload.len());
    put_u32(&mut buf, payload.len() as u32);
    put_slice(&mut buf, payload.as_slice());
    let frame = buffer_to_vec(&buf);
    assert(frame@ =~= bulk_frame(message@));
    Ok(frame)
}

/// The length that a frame announces, if a message may be so long.
pub fn bulk_frame_len(announced: u32) -> (r: Result<usize, String>)
    ensures
        match r {
            Ok(n) => n == announced && announced <= MAX_BULK_FRAME_LEN,
            Err(error) => announced > MAX_BULK_FRAME_LEN && error@
                == "incoming bulk frame too large: max "@ + decimal(MAX_BULK_FRAME_LEN as nat)
                + ", got "@ + decimal(announced as nat),
        },
{
    let n: usize = announced as usize;
    if n > MAX_BULK_FRAME_LEN {
        let max_text = number(MAX_BULK_FRAME_LEN as u64);
        let got_text = number(announced as u64);
        return Err(
            join4(
                "incoming bulk frame too large: max ",
                max_text.as_str(),
                ", got ",
                got_text.as_str(),
            ),
        );
    }
    Ok(n)
}

fn read_file(raw: &[u8], at: usize) -> (r: Result<((u128, String), usize), String>)
    requires
        at <= raw@.len(),
    ensures
        match r {
            Ok(((id, path), next)) => next <= raw@.len() && parse_file(raw@.skip(at as int))
                == Some(((id, path@), raw@.skip(next as int))),
            Err(_) => parse_file(raw@.skip(at as int)) is None,
        },
{
    let (id, a1) = read_id(raw, at)?;
    let (path, a2) = read_text(raw, a1)?;
    Ok(((id, path), a2))
}

fn read_file_header(raw: &[u8], at: usize) -> (r: Result<(BulkWireMessage, usize), String>)
    requires
        at <= raw@.len(),
    ensures
        read_as(parse_file_header(raw@.skip(at as int)), raw@, ok_view(r)),
{
    let ((transfer_id, relative_path), a1) = read_file(raw, at)?;
    let (size_bytes, a2) = read_u64(raw, a1)?;
    let (blake3_hex, a3) = read_text(raw, a2)?;
    Ok((BulkWireMessage::FileHeader { transfer_id, relative_path, size_bytes, blake3_hex }, a3))
}

fn read_chunk(raw: &[u8], at: usize) -> (r: Result<(BulkWireMessage, usize), String>)
    requires
        at <= raw@.len(),
    ensures
        read_as(parse_chunk(raw@.skip(at as int)), raw@, ok_view(r)),
{
    let ((transfer_id, relative_path), a1) = read_file(raw, at)?;
    let (offset, a2) = read_u64(raw, a1)?;
    let (bytes, a3) = read_blob(raw, a2)?;
    let (blake3_hex, a4) = read_text(raw, a3)?;
    Ok(
        (
            BulkWireMessage::Chunk(
                FileChunk { transfer_id, relative_path, offset, bytes, blake3_hex },
            ),
            a4,
        ),
    )
}

fn read_file_complete(raw: &[u8], at: usize) -> (r: Result<(BulkWireMessage, usize), String>)
    requires
        at <= raw@.len(),
    ensures
        read_as(parse_file_complete(raw@.skip(at as int)), raw@, ok_view(r)),
{
    let ((transfer_id, relative_path), a1) = read_file(raw, at)?;
    let (blake3_hex, a2) = read_text(raw, a1)?;
    Ok((BulkWireMessage::FileComplete { transfer_id, relative_path, blake3_hex }, a2))
}

fn read_bulk_fields(tag: u32, raw: &[u8], at: usize) -> (r: Result<
    (BulkWireMessage, usize),
    String,
>)
    requires
        at <= raw@.len(),
    ensures
        read_as(parse_bulk_fields(tag, raw@.skip(at as int)), raw@, ok_view(r)),
{
    if tag == 0 {
        let (manifest, next) = read_manifest(raw, at)?;
        Ok((BulkWireMessage::Manifest(manifest), next))
    } else if tag == 1 {
        read_file_header(raw, at)
    } else if tag == 2 {
        read_chunk(raw, at)
    } else if tag == 3 {
        read_file_complete(raw, at)
    } else if tag == 4 {
        let (transfer_id, next) = read_id(raw, at)?;
        Ok((BulkWireMessage::TransferComplete { transfer_id }, next))
    } else if tag == 5 {
        let (transfer_id, next) = read_id(raw, at)?;
        Ok((BulkWireMessage::Cancel { transfer_id }, next))
    } else {
        Err("unknown bulk message".to_owned())
    }
}

/// Reads a message. The text of the error comes from the decoder and is not stated.
pub fn decode_bulk(payload: &[u8]) -> (r: Result<BulkWireMessage, String>)
    ensures
        match r {
            Ok(message) => parse_bulk(payload@) matches Some((parsed, _)) && parsed == message@,
            Err(_) => parse_bulk(payload@) is None,
        },
{
    assert(payload@.skip(0) =~= payload@);
    let (tag, next) = read_u32(payload, 0)?;
    let (message, _) = read_bulk_fields(tag, payload, next)?;
    Ok(message)
}

proof fn lemma_file(id: u128, path: Seq<char>, rest: Seq<u8>)
    requires
        text_bytes(path).len() <= u64::MAX,
    ensures
        parse_file(id_bytes(id) + text_bytes(path) + rest) == Some(((id, path), rest)),
{
    assert(id_bytes(id) + text_bytes(path) + rest =~= id_bytes(id) + (text_bytes(path) + rest));
    lemma_id(id, text_bytes(path) + rest);
    lemma_text(path, rest);
}

proof fn lemma_file_header(
    id: u128,
    path: Seq<char>,
    size: u64,
    hex: Seq<char>,
    rest: Seq<u8>,
)
    requires
        text_bytes(path).len() <= u64::MAX,
        text_bytes(hex).len() <= u64::MAX,
    ensures
        ({
            let m = BulkMessageView::FileHeader {
                transfer_id: id,
                relative_path: path,
                size_bytes: size,
                blake3_hex: hex,
            };
            parse_file_header(bulk_fields(m) + rest) == Some((m, rest))
        }),
{
    let m = BulkMessageView::FileHeader {
        transfer_id: id,
        relative_path: path,
        size_bytes: size,
        blake3_hex: hex,
    };
    let b2 = text_bytes(hex) + rest;
    let b1 = le_bytes(size as nat, 8) + b2;
    assert(bulk_fields(m) + rest =~= id_bytes(id) + text_bytes(path) + b1);
    lemma_file(id, path, b1);
    lemma_u64(size, b2);
    lemma_text(hex, rest);
}

proof fn lemma_chunk(c: FileChunkView, rest: Seq<u8>)
    requires
        text_bytes(c.relative_path).len() <= u64::MAX,
        blob_bytes(c.bytes).len() <= u64::MAX,
        text_bytes(c.blake3_hex).len() <= u64::MAX,
    ensures
        parse_chunk(bulk_fields(BulkMessageView::Chunk(c)) + rest) == Some(
            (BulkMessageView::Chunk(c), rest),
        ),
{
    let b3 = text_bytes(c.blake3_hex) + rest;
    let b2 = blob_bytes(c.bytes) + b3;
    let b1 = le_bytes(c.offset as nat, 8) + b2;
    assert(bulk_fields(BulkMessageView::Chunk(c)) + rest =~= id_bytes(c.transfer_id) + text_bytes(
        c.relative_path,
    ) + b1);
    lemma_file(c.transfer_id, c.relative_path, b1);
    lemma_u64(c.offset, b2);
    lemma_blob(c.bytes, b3);
    lemma_text(c.blake3_hex, rest);
}

proof fn lemma_file_complete(id: u128, path: Seq<char>, hex: Seq<char>, rest: Seq<u8>)
    requires
        text_bytes(path).len() <= u64::MAX,
        text_bytes(hex).len() <= u64::MAX,
    ensures
        ({
            let m = BulkMessageView::FileComplete {
                transfer_id: id,
                relative_path: path,
                blake3_hex: hex,
            };
            parse_file_complete(bulk_fields(m) + rest) == Some((m, rest))
        }),
{
    let m = BulkMessageView::FileComplete {
        transfer_id: id,
        relative_path: path,
        blake3_hex: hex,
    };
    let b1 = text_bytes(hex) + rest;
    assert(bulk_fields(m) + rest =~= id_bytes(id) + text_bytes(path) + b1);
    lemma_file(id, path, b1);
    lemma_text(hex, rest);
}

/// A message of the file transfer channel is read back, whatever bytes follow it.
pub proof fn law_bulk_message_round_trips(m: BulkMessageView, rest: Seq<u8>)
    requires
        bulk_bytes(m).len() <= u64::MAX,
    ensures
        parse_bulk(bulk_bytes(m) + rest) == Some((m, rest)),
{
    let b = bulk_fields(m) + rest;
    assert(bulk_bytes(m) + rest =~= tag_bytes(bulk_number(m)) + b);
    lemma_u32(bulk_number(m) as u32, b);
    match m {
        BulkMessageView::Manifest(manifest) => {
            lemma_manifest(manifest, rest);
        },
        BulkMessageView::FileHeader { transfer_id, relative_path, size_bytes, blake3_hex } => {
            lemma_file_header(transfer_id, relative_path, size_bytes, blake3_hex, rest);
        },
        BulkMessageView::Chunk(chunk) => {
            lemma_chunk(chunk, rest);
        },
        BulkMessageView::FileComplete { transfer_id, relative_path, blake3_hex } => {
            lemma_file_complete(transfer_id, relative_path, blake3_hex, rest);
        },
        BulkMessageView::TransferComplete { transfer_id } => {
            lemma_id(transfer_id, rest);
        },
        BulkMessageView::Cancel { transfer_id } => {
            lemma_id(transfer_id, rest);
        },
    }
}

/// A chunk of the largest size fits into a frame, as long as its path and digest take
/// less than what a frame has besides.
pub proof fn law_chunks_fit_into_frames(chunk: FileChunkView)
    requires
        chunk.bytes.len() <= CHUNK_SIZE,
        text_bytes(chunk.relative_path).len() + text_bytes(chunk.blake3_hex).len() + 44 <= 64
            * 1024,
    ensures
        bulk_bytes(BulkMessageView::Chunk(chunk)).len() <= MAX_BULK_FRAME_LEN,
{
    crate::octets::lemma_le_len(2, 4);
    crate::octets::lemma_le_len(chunk.offset as nat, 8);
    crate::octets::lemma_le_len(chunk.bytes.len(), 8);
    assert(id_bytes(chunk.transfer_id).len() == 24) by {
        crate::octets::lemma_le_len(16, 8);
        lemma_be_len(chunk.transfer_id as nat, 16);
    }
    assert(blob_bytes(chunk.bytes).len() == 8 + chunk.bytes.len());
}

/// A frame of the file channel byte by byte: the length of the message, most significant
/// byte first, then the number of its variant and its fields.
pub proof fn law_bulk_frames_have_their_layout(m: BulkMessageView, i: int)
    ensures
        ({
            let raw = bulk_frame(m);
            let number: u8 = match m {
                BulkMessageView::Manifest(_) => 0,
                BulkMessageView::FileHeader { .. } => 1,
                BulkMessageView::Chunk(_) => 2,
                BulkMessageView::FileComplete { .. } => 3,
                BulkMessageView::TransferComplete { .. } => 4,
                BulkMessageView::Cancel { .. } => 5,
            };
            &&& raw.len() == 4 + bulk_bytes(m).len()
            &&& 0 <= i < 4 ==> raw[i] == (bulk_bytes(m).len() / crate::octets::pow256(
                (3 - i) as nat,
            )) % 256
            &&& raw[4] == number && raw[5] == 0 && raw[6] == 0 && raw[7] == 0
            &&& raw.skip(8) == bulk_fields(m)
        }),
{
    let raw = bulk_frame(m);
    crate::octets::lemma_be_len(bulk_bytes(m).len(), 4);
    crate::codec::lemma_tag(bulk_number(m));
    if 0 <= i < 4 {
        crate::octets::law_bytes_stand_in_order(bulk_bytes(m).len(), 4, i);
        assert(raw[i] == be_bytes(bulk_bytes(m).len(), 4)[i]);
    }
    assert(forall|k: int| 0 <= k < 4 ==> raw[4 + k] == bulk_bytes(m)[k]);
    assert(raw.skip(8) =~= bulk_fields(m));
}

} // verus!
