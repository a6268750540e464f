//! Plain values in the binary notation of the `bincode` crate: numbers of fixed
//! width in little-endian order, lengths as 64 bit numbers.
use crate::octets::{bits32, le_bytes, le_value, lemma_le_round_trip, lemma_pow256_values, signed32};
use vstd::prelude::*;
use vstd::slice::slice_subrange;
use vstd::utf8::{decode_utf8, encode_utf8, valid_utf8};

verus! {

/// Text in wire notation: its length in bytes, then its UTF-8 bytes.
pub open spec fn text_bytes(text: Seq<char>) -> Seq<u8> {
    le_bytes(encode_utf8(text).len(), 8) + encode_utf8(text)
}

/// Bytes in wire notation: their number, then the bytes.
pub open spec fn blob_bytes(bytes: Seq<u8>) -> Seq<u8> {
    le_bytes(bytes.len(), 8) + bytes
}

/// An identifier in wire notation: sixteen bytes, most significant first, behind
/// their number.
pub open spec fn id_bytes(id: u128) -> Seq<u8> {
    le_bytes(16, 8) + crate::octets::be_bytes(id as nat, 16)
}

/// A flag in wire notation.
pub open spec fn flag_bytes(flag: bool) -> Seq<u8> {
    seq![if flag { 1u8 } else { 0u8 }]
}

/// An optional text in wire notation: a byte that tells whether it is there, then
/// the text.
pub open spec fn opt_text_bytes(text: Option<Seq<char>>) -> Seq<u8> {
    match text {
        Some(t) => seq![1u8] + text_bytes(t),
        None => seq![0u8],
    }
}

/// A number of `n` bytes at the front, and what follows it.
pub open spec fn parse_number(s: Seq<u8>, n: nat) -> Option<(nat, Seq<u8>)> {
    if s.len() < n {
        None
    } else {
        Some((le_value(s.take(n as int)), s.skip(n as int)))
    }
}

pub open spec fn parse_u16(s: Seq<u8>) -> Option<(u16, Seq<u8>)> {
    match parse_number(s, 2) {
        Some((v, rest)) => Some((v as u16, rest)),
        None => None,
    }
}

pub open spec fn parse_u32(s: Seq<u8>) -> Option<(u32, Seq<u8>)> {
    match parse_number(s, 4) {
        Some((v, rest)) => Some((v as u32, rest)),
        None => None,
    }
}

pub open spec fn parse_u64(s: Seq<u8>) -> Option<(u64, Seq<u8>)> {
    match parse_number(s, 8) {
        Some((v, rest)) => Some((v as u64, rest)),
        None => None,
    }
}

pub open spec fn parse_i32(s: Seq<u8>) -> Option<(i32, Seq<u8>)> {
    match parse_number(s, 4) {
        Some((v, rest)) => Some((signed32(v) as i32, rest)),
        None => None,
    }
}

pub open spec fn parse_flag(s: Seq<u8>) -> Option<(bool, Seq<u8>)> {
    if s.len() < 1 || s[0] > 1 {
        None
    } else {
        Some((s[0] == 1, s.skip(1)))
    }
}

/// Bytes behind their number.
pub open spec fn parse_blob(s: Seq<u8>) -> Option<(Seq<u8>, Seq<u8>)> {
    match parse_number(s, 8) {
        Some((n, rest)) => if rest.len() < n {
            None
        } else {
            Some((rest.take(n as int), rest.skip(n as int)))
        },
        None => None,
    }
}

/// UTF-8 text behind its length.
pub open spec fn parse_text(s: Seq<u8>) -> Option<(Seq<char>, Seq<u8>)> {
    match parse_blob(s) {
        Some((bytes, rest)) => if valid_utf8(bytes) {
            Some((decode_utf8(bytes), rest))
        } else {
            None
        },
        None => None,
    }
}

pub open spec fn parse_id(s: Seq<u8>) -> Option<(u128, Seq<u8>)> {
    match parse_blob(s) {
        Some((bytes, rest)) => if bytes.len() == 16 {
            Some((crate::octets::be_value(bytes) as u128, rest))
        } else {
            None
        },
        None => None,
    }
}

pub open spec fn parse_opt_text(s: Seq<u8>) -> Option<(Option<Seq<char>>, Seq<u8>)> {
    if s.len() < 1 || s[0] > 1 {
        None
    } else if s[0] == 0 {
        Some((None, s.skip(1)))
    } else {
        match parse_text(s.skip(1)) {
            Some((t, rest)) => Some((Some(t), rest)),
            None => None,
        }
    }
}

// ---- what bincode writes ----

/// `bincode::serialize` of a `u16`. Claimed: its two bytes, little-endian.
#[verifier::external_body]
pub(crate) fn serialize_u16(v: u16) -> (r: Vec<u8>)
    ensures
        r@ == le_bytes(v as nat, 2),
{
    bincode::serialize(&v).unwrap_or_default()
}

/// `bincode::serialize` of a `u32`. Claimed: its four bytes, little-endian.
#[verifier::external_body]
pub(crate) fn serialize_u32(v: u32) -> (r: Vec<u8>)
    ensures
        r@ == le_bytes(v as nat, 4),
{
    bincode::serialize(&v).unwrap_or_default()
}

/// `bincode::serialize` of a `u64`. Claimed: its eight bytes, little-endian.
#[verifier::external_body]
pub(crate) fn serialize_u64(v: u64) -> (r: Vec<u8>)
    ensures
        r@ == le_bytes(v as nat, 8),
{
    bincode::serialize(&v).unwrap_or_default()
}

/// `bincode::serialize` of an `i32`. Claimed: the four bytes of its two's
/// complement, little-endian.
#[verifier::external_body]
pub(crate) fn serialize_i32(v: i32) -> (r: Vec<u8>)
    ensures
        r@ == le_bytes(bits32(v), 4),
{
    bincode::serialize(&v).unwrap_or_default()
}

/// `bincode::serialize` of a `bool`. Claimed: one byte, one or zero.
#[verifier::external_body]
pub(crate) fn serialize_flag(v: bool) -> (r: Vec<u8>)
    ensures
        r@ == flag_bytes(v),
{
    bincode::serialize(&v).unwrap_or_default()
}

/// `bincode::serialize` of a `str`. Claimed: the length in eight bytes, then the
/// UTF-8 bytes.
#[verifier::external_body]
pub(crate) fn serialize_text(v: &str) -> (r: Vec<u8>)
    ensures
        r@ == text_bytes(v@),
{
    bincode::serialize(v).unwrap_or_default()
}

/// `bincode::serialize` of bytes. Claimed: their number in eight bytes, then the
/// bytes.
#[verifier::external_body]
pub(crate) fn serialize_blob(v: &[u8]) -> (r: Vec<u8>)
    ensures
        r@ == blob_bytes(v@),
{
    bincode::serialize(v).unwrap_or_default()
}

/// `bincode::serialize` of a `uuid::Uuid`. Claimed: the number sixteen in eight
/// bytes, then the identifier's bytes, most significant first.
#[verifier::external_body]
pub(crate) fn serialize_id(v: u128) -> (r: Vec<u8>)
    ensures
        r@ == id_bytes(v),
{
    bincode::serialize(&uuid::Uuid::from_u128(v)).unwrap_or_default()
}

/// `bincode::serialize` of an optional text. Claimed: a byte that tells whether
/// there is text, then the text.
#[verifier::external_body]
pub(crate) fn serialize_opt_text(v: &Option<String>) -> (r: Vec<u8>)
    ensures
        r@ == opt_text_bytes(crate::text::opt_view(*v)),
{
    bincode::serialize(v).unwrap_or_default()
}

// ---- what bincode reads ----

/// `bincode::deserialize` of a `u16`. Claimed: the first two bytes, little-endian,
/// and an error exactly when there are fewer. What the error says is not claimed.
#[verifier::external_body]
fn deserialize_u16(raw: &[u8]) -> (r: Result<u16, String>)
    ensures
        r is Ok <==> raw@.len() >= 2,
        r matches Ok(v) ==> v == le_value(raw@.take(2)),
{
    bincode::deserialize(raw).map_err(|error| error.to_string())
}

/// `bincode::deserialize` of a `u32`. Claimed: the first four bytes, little-endian,
/// and an error exactly when there are fewer. What the error says is not claimed.
#[verifier::external_body]
fn deserialize_u32(raw: &[u8]) -> (r: Result<u32, String>)
    ensures
        r is Ok <==> raw@.len() >= 4,
        r matches Ok(v) ==> v == le_value(raw@.take(4)),
{
    bincode::deserialize(raw).map_err(|error| error.to_string())
}

/// `bincode::deserialize` of a `u64`. Claimed: the first eight bytes,
/// little-endian, and an error exactly when there are fewer. What the error says
/// is not claimed.
#[verifier::external_body]
fn deserialize_u64(raw: &[u8]) -> (r: Result<u64, String>)
    ensures
        r is Ok <==> raw@.len() >= 8,
        r matches Ok(v) ==> v == le_value(raw@.take(8)),
{
    bincode::deserialize(raw).map_err(|error| error.to_string())
}

/// `bincode::deserialize` of an `i32`. Claimed: the first four bytes,
/// little-endian, in two's complement, and an error exactly when there are fewer.
/// What the error says is not claimed.
#[verifier::external_body]
fn deserialize_i32(raw: &[u8]) -> (r: Result<i32, String>)
    ensures
        r is Ok <==> raw@.len() >= 4,
        r matches Ok(v) ==> v == signed32(le_value(raw@.take(4))),
{
    bincode::deserialize(raw).map_err(|error| error.to_string())
}

/// `bincode::deserialize` of a `bool`. Claimed: the first byte, one for true and
/// zero for false, and an error for every other byte and for no byte. What the
/// error says is not claimed.
#[verifier::external_body]
fn deserialize_flag(raw: &[u8]) -> (r: Result<bool, String>)
    ensures
        r is Ok <==> parse_flag(raw@) is Some,
        r matches Ok(v) ==> v == parse_flag(raw@).unwrap().0,
{
    bincode::deserialize(raw).map_err(|error| error.to_string())
}

/// `bincode::deserialize` of a `String`. Claimed: the UTF-8 text behind the length
/// in the first eight bytes, and an error when the bytes run out or are not UTF-8.
/// What the error says is not claimed.
#[verifier::external_body]
fn deserialize_text(raw: &[u8]) -> (r: Result<String, String>)
    ensures
        r is Ok <==> parse_text(raw@) is Some,
        r matches Ok(v) ==> v@ == parse_text(raw@).unwrap().0,
{
    bincode::deserialize(raw).map_err(|error| error.to_string())
}

/// `bincode::deserialize` of bytes. Claimed: the bytes behind their number in the
/// first eight bytes, and an error when the bytes run out. What the error says is
/// not claimed.
#[verifier::external_body]
fn deserialize_blob(raw: &[u8]) -> (r: Result<Vec<u8>, String>)
    ensures
        r is Ok <==> parse_blob(raw@) is Some,
        r matches Ok(v) ==> v@ == parse_blob(raw@).unwrap().0,
{
    bincode::deserialize(raw).map_err(|error| error.to_string())
}

/// `bincode::deserialize` of a `uuid::Uuid`. Claimed: the identifier in the sixteen
/// bytes behind the number sixteen, and an error otherwise. What the error says is
/// not claimed.
#[verifier::external_body]
fn deserialize_id(raw: &[u8]) -> (r: Result<u128, String>)
    ensures
        r is Ok <==> parse_id(raw@) is Some,
        r matches Ok(v) ==> v == parse_id(raw@).unwrap().0,
{
    let id: Result<uuid::Uuid, bincode::Error> = bincode::deserialize(raw);
    id.map(|id| id.as_u128()).map_err(|error| error.to_string())
}

/// `bincode::deserialize` of an optional text. Claimed: nothing behind a zero byte,
/// the text behind a byte one, and an error otherwise. What the error says is not
/// claimed.
#[verifier::external_body]
fn deserialize_opt_text(raw: &[u8]) -> (r: Result<Option<String>, String>)
    ensures
        r is Ok <==> parse_opt_text(raw@) is Some,
        r matches Ok(v) ==> crate::text::opt_view(v) == parse_opt_text(raw@).unwrap().0,
{
    bincode::deserialize(raw).map_err(|error| error.to_string())
}

// ---- reading at a position ----

/// The bytes from a position on.
fn from_position(raw: &[u8], at: usize) -> (r: &[u8])
    requires
        at <= raw@.len(),
    ensures
        r@ == raw@.skip(at as int),
        raw@.len() <= usize::MAX,
{
    let r = slice_subrange(raw, at, raw.len());
    assert(r@ =~= raw@.skip(at as int));
    r
}

/// What reading at a position gives: the parsed value and the position behind it,
/// or an error when there is nothing to parse.
pub open spec fn read_as<T>(
    parsed: Option<(T, Seq<u8>)>,
    raw: Seq<u8>,
    r: Option<(T, usize)>,
) -> bool {
    match r {
        Some((v, next)) => next <= raw.len() && parsed == Some((v, raw.skip(next as int))),
        None => parsed is None,
    }
}

/// The success part of a reader's result.
pub open spec fn ok<T>(r: Result<(T, usize), String>) -> Option<(T, usize)> {
    match r {
        Ok(v) => Some(v),
        Err(_) => None,
    }
}

/// The success part of a reader's result, the value taken by its view.
pub open spec fn ok_view<T: View>(r: Result<(T, usize), String>) -> Option<(T::V, usize)> {
    match r {
        Ok((v, next)) => Some((v@, next)),
        Err(_) => None,
    }
}

pub fn read_u16(raw: &[u8], at: usize) -> (r: Result<(u16, usize), String>)
    requires
        at <= raw@.len(),
    ensures
        read_as(parse_u16(raw@.skip(at as int)), raw@, ok(r)),
{
    let rest = from_position(raw, at);
    match deserialize_u16(rest) {
        Ok(v) => {
            assert(raw@.skip(at as int).skip(2) =~= raw@.skip(at + 2));
            Ok((v, at + 2))
        },
        Err(error) => Err(error),
    }
}

pub fn read_u32(raw: &[u8], at: usize) -> (r: Result<(u32, usize), String>)
    requires
        at <= raw@.len(),
    ensures
        read_as(parse_u32(raw@.skip(at as int)), raw@, ok(r)),
{
    let rest = from_position(raw, at);
    match deserialize_u32(rest) {
        Ok(v) => {
            assert(raw@.skip(at as int).skip(4) =~= raw@.skip(at + 4));
            Ok((v, at + 4))
        },
        Err(error) => Err(error),
    }
}

pub fn read_u64(raw: &[u8], at: usize) -> (r: Result<(u64, usize), String>)
    requires
        at <= raw@.len(),
    ensures
        read_as(parse_u64(raw@.skip(at as int)), raw@, ok(r)),
{
    let rest = from_position(raw, at);
    match deserialize_u64(rest) {
        Ok(v) => {
            assert(raw@.skip(at as int).skip(8) =~= raw@.skip(at + 8));
            Ok((v, at + 8))
        },
        Err(error) => Err(error),
    }
}

pub fn read_i32(raw: &[u8], at: usize) -> (r: Result<(i32, usize), String>)
    requires
        at <= raw@.len(),
    ensures
        read_as(parse_i32(raw@.skip(at as int)), raw@, ok(r)),
{
    let rest = from_position(raw, at);
    match deserialize_i32(rest) {
        Ok(v) => {
            assert(raw@.skip(at as int).skip(4) =~= raw@.skip(at + 4));
            Ok((v, at + 4))
        },
        Err(error) => Err(error),
    }
}

pub fn read_flag(raw: &[u8], at: usize) -> (r: Result<(bool, usize), String>)
    requires
        at <= raw@.len(),
    ensures
        read_as(parse_flag(raw@.skip(at as int)), raw@, ok(r)),
{
    let rest = from_position(raw, at);
    match deserialize_flag(rest) {
        Ok(v) => {
            assert(raw@.skip(at as int).skip(1) =~= raw@.skip(at + 1));
            Ok((v, at + 1))
        },
        Err(error) => Err(error),
    }
}

/// What follows bytes behind their number begins right after them.
proof fn lemma_blob_rest(s: Seq<u8>)
    requires
        parse_blob(s) is Some,
    ensures
        8 + parse_blob(s).unwrap().0.len() <= s.len(),
        parse_blob(s).unwrap().1 == s.skip(8 + parse_blob(s).unwrap().0.len() as int),
{
    let n = le_value(s.take(8));
    assert(s.skip(8).skip(n as int) =~= s.skip(8 + n as int));
}

pub fn read_blob(raw: &[u8], at: usize) -> (r: Result<(Vec<u8>, usize), String>)
    requires
        at <= raw@.len(),
    ensures
        read_as(parse_blob(raw@.skip(at as int)), raw@, ok_view(r)),
{
    let rest = from_position(raw, at);
    match deserialize_blob(rest) {
        Ok(v) => {
            proof {
                lemma_blob_rest(rest@);
                assert(raw@.skip(at as int).skip(8 + v@.len() as int) =~= raw@.skip(
                    at + 8 + v@.len() as int,
                ));
            }
            let next: usize = at + 8 + v.len();
            Ok((v, next))
        },
        Err(error) => Err(error),
    }
}

pub fn read_text(raw: &[u8], at: usize) -> (r: Result<(String, usize), String>)
    requires
        at <= raw@.len(),
    ensures
        read_as(parse_text(raw@.skip(at as int)), raw@, ok_view(r)),
{
    let rest = from_position(raw, at);
    match deserialize_text(rest) {
        Ok(v) => {
            let len: usize = v.as_str().as_bytes().len();
            proof {
                lemma_blob_rest(rest@);
                let bytes = parse_blob(rest@).unwrap().0;
                vstd::utf8::decode_utf8_encode_utf8(bytes);
                assert(encode_utf8(v@) == bytes);
                assert(raw@.skip(at as int).skip(8 + bytes.len() as int) =~= raw@.skip(
                    at + 8 + bytes.len() as int,
                ));
            }
            let next: usize = at + 8 + len;
            Ok((v, next))
        },
        Err(error) => Err(error),
    }
}

pub fn read_id(raw: &[u8], at: usize) -> (r: Result<(u128, usize), String>)
    requires
        at <= raw@.len(),
    ensures
        read_as(parse_id(raw@.skip(at as int)), raw@, ok(r)),
{
    let rest = from_position(raw, at);
    match deserialize_id(rest) {
        Ok(v) => {
            proof {
                lemma_blob_rest(rest@);
                assert(raw@.skip(at as int).skip(24) =~= raw@.skip(at + 24));
            }
            Ok((v, at + 24))
        },
        Err(error) => Err(error),
    }
}

pub fn read_opt_text(raw: &[u8], at: usize) -> (r: Result<(Option<String>, usize), String>)
    requires
        at <= raw@.len(),
    ensures
        read_as(
            parse_opt_text(raw@.skip(at as int)),
            raw@,
            match r {
                Ok((v, next)) => Some((crate::text::opt_view(v), next)),
                Err(_) => None,
            },
        ),
{
    let rest = from_position(raw, at);
    match deserialize_opt_text(rest) {
        Ok(v) => {
            let len: usize = match &v {
                Some(text) => text.as_str().as_bytes().len(),
                None => 0,
            };
            if v.is_some() {
                proof {
                    lemma_blob_rest(rest@.skip(1));
                    let bytes = parse_blob(rest@.skip(1)).unwrap().0;
                    vstd::utf8::decode_utf8_encode_utf8(bytes);
                    assert(rest@.skip(1).skip(8 + bytes.len() as int) =~= raw@.skip(
                        at + 9 + bytes.len() as int,
                    ));
                }
                let next: usize = at + 9 + len;
                Ok((v, next))
            } else {
                assert(raw@.skip(at as int).skip(1) =~= raw@.skip(at + 1));
                Ok((v, at + 1))
            }
        },
        Err(error) => Err(error),
    }
}

// ---- reading gives back what was written ----

/// A number at the front of some bytes is read back.
proof fn lemma_number(v: nat, n: nat, rest: Seq<u8>)
    requires
        v < crate::octets::pow256(n),
    ensures
        parse_number(le_bytes(v, n) + rest, n) == Some((v, rest)),
{
    lemma_le_round_trip(v, n);
    assert((le_bytes(v, n) + rest).take(n as int) =~= le_bytes(v, n));
    assert((le_bytes(v, n) + rest).skip(n as int) =~= rest);
}

pub proof fn lemma_u16(v: u16, rest: Seq<u8>)
    ensures
        parse_u16(le_bytes(v as nat, 2) + rest) == Some((v, rest)),
{
    lemma_pow256_values();
    lemma_number(v as nat, 2, rest);
}

pub proof fn lemma_u32(v: u32, rest: Seq<u8>)
    ensures
        parse_u32(le_bytes(v as nat, 4) + rest) == Some((v, rest)),
{
    lemma_pow256_values();
    lemma_number(v as nat, 4, rest);
}

pub proof fn lemma_u64(v: u64, rest: Seq<u8>)
    ensures
        parse_u64(le_bytes(v as nat, 8) + rest) == Some((v, rest)),
{
    lemma_pow256_values();
    lemma_number(v as nat, 8, rest);
}

pub proof fn lemma_i32(v: i32, rest: Seq<u8>)
    ensures
        parse_i32(le_bytes(bits32(v), 4) + rest) == Some((v, rest)),
{
    lemma_pow256_values();
    lemma_number(bits32(v), 4, rest);
}

pub proof fn lemma_flag(v: bool, rest: Seq<u8>)
    ensures
        parse_flag(flag_bytes(v) + rest) == Some((v, rest)),
{
    assert((flag_bytes(v) + rest).skip(1) =~= rest);
}

pub proof fn lemma_blob(v: Seq<u8>, rest: Seq<u8>)
    requires
        v.len() <= u64::MAX,
    ensures
        parse_blob(blob_bytes(v) + rest) == Some((v, rest)),
{
    lemma_pow256_values();
    assert(blob_bytes(v) + rest =~= le_bytes(v.len(), 8) + (v + rest));
    lemma_number(v.len(), 8, v + rest);
    assert((v + rest).take(v.len() as int) =~= v);
    assert((v + rest).skip(v.len() as int) =~= rest);
}

pub proof fn lemma_text(v: Seq<char>, rest: Seq<u8>)
    requires
        encode_utf8(v).len() <= u64::MAX,
    ensures
        parse_text(text_bytes(v) + rest) == Some((v, rest)),
{
    lemma_blob(encode_utf8(v), rest);
    vstd::utf8::encode_utf8_valid_utf8(v);
    vstd::utf8::encode_utf8_decode_utf8(v);
}

pub proof fn lemma_id(v: u128, rest: Seq<u8>)
    ensures
        parse_id(id_bytes(v) + rest) == Some((v, rest)),
{
    lemma_pow256_values();
    crate::octets::lemma_be_round_trip(v as nat, 16);
    lemma_blob(crate::octets::be_bytes(v as nat, 16), rest);
}

pub proof fn lemma_opt_text(v: Option<Seq<char>>, rest: Seq<u8>)
    requires
        v matches Some(t) ==> encode_utf8(t).len() <= u64::MAX,
    ensures
        parse_opt_text(opt_text_bytes(v) + rest) == Some((v, rest)),
{
    match v {
        Some(t) => {
            lemma_text(t, rest);
            assert((opt_text_bytes(v) + rest).skip(1) =~= text_bytes(t) + rest);
        },
        None => {
            assert((opt_text_bytes(v) + rest).skip(1) =~= rest);
        },
    }
}

/// Texts and bytes stand behind their length, identifiers behind theirs, and a flag is a
/// single byte.
pub proof fn law_values_stand_behind_their_length(
    text: Seq<char>,
    bytes: Seq<u8>,
    id: u128,
    flag: bool,
)
    ensures
        text_bytes(text).len() == 8 + encode_utf8(text).len(),
        text_bytes(text).skip(8) == encode_utf8(text),
        text_bytes(text)[0] == encode_utf8(text).len() % 256,
        blob_bytes(bytes).len() == 8 + bytes.len(),
        blob_bytes(bytes).skip(8) == bytes,
        blob_bytes(bytes)[0] == bytes.len() % 256,
        id_bytes(id).len() == 24,
        id_bytes(id)[0] == 16,
        id_bytes(id)[23] == id % 256,
        flag_bytes(flag).len() == 1,
        flag_bytes(flag)[0] == 1 <==> flag,
        flag_bytes(flag)[0] <= 1,
        opt_text_bytes(Some(text)).skip(1) == text_bytes(text),
        opt_text_bytes(Some(text))[0] == 1,
        opt_text_bytes(None) == seq![0u8],
{
    crate::octets::lemma_le_len(encode_utf8(text).len(), 8);
    crate::octets::lemma_le_len(bytes.len(), 8);
    crate::octets::lemma_le_len(16, 8);
    crate::octets::lemma_be_len(id as nat, 16);
    assert(text_bytes(text).skip(8) =~= encode_utf8(text));
    assert(blob_bytes(bytes).skip(8) =~= bytes);
    assert(opt_text_bytes(Some(text)).skip(1) =~= text_bytes(text));
    assert(id_bytes(id)[23] == crate::octets::be_bytes(id as nat, 16)[15]);
    assert(id_bytes(id)[0] == le_bytes(16, 8)[0]);
}

} // verus!
