//! Numbers as sequences of bytes, and the byte buffers of the `bytes` crate.
use bytes::{Buf, BufMut};
use vstd::prelude::*;

verus! {

/// The number of values that `n` bytes can hold.
pub open spec fn pow256(n: nat) -> nat
    decreases n,
{
    if n == 0 { 1 } else { 256 * pow256((n - 1) as nat) }
}

/// A number in `n` bytes, most significant byte first.
pub open spec fn be_bytes(v: nat, n: nat) -> Seq<u8>
    decreases n,
{
    if n == 0 {
        Seq::empty()
    } else {
        be_bytes(v / 256, (n - 1) as nat).push((v % 256) as u8)
    }
}

/// The number that some bytes hold, most significant byte first.
pub open spec fn be_value(s: Seq<u8>) -> nat
    decreases s.len(),
{
    if s.len() == 0 {
        0
    } else {
        be_value(s.drop_last()) * 256 + s.last() as nat
    }
}

/// A number in `n` bytes, least significant byte first.
pub open spec fn le_bytes(v: nat, n: nat) -> Seq<u8>
    decreases n,
{
    if n == 0 {
        Seq::empty()
    } else {
        seq![(v % 256) as u8] + le_bytes(v / 256, (n - 1) as nat)
    }
}

/// The number that some bytes hold, least significant byte first.
pub open spec fn le_value(s: Seq<u8>) -> nat
    decreases s.len(),
{
    if s.len() == 0 {
        0
    } else {
        s[0] as nat + 256 * le_value(s.skip(1))
    }
}

/// The bits of a signed 32 bit number, read as an unsigned one.
pub open spec fn bits32(v: i32) -> nat {
    if v < 0 { (v + 0x1_0000_0000) as nat } else { v as nat }
}

/// The signed 32 bit number with some bits.
pub open spec fn signed32(bits: nat) -> int {
    if bits >= 0x8000_0000 { bits - 0x1_0000_0000 } else { bits as int }
}

pub proof fn lemma_be_len(v: nat, n: nat)
    ensures
        be_bytes(v, n).len() == n,
    decreases n,
{
    if n > 0 {
        lemma_be_len(v / 256, (n - 1) as nat);
    }
}

pub proof fn lemma_le_len(v: nat, n: nat)
    ensures
        le_bytes(v, n).len() == n,
    decreases n,
{
    if n > 0 {
        lemma_le_len(v / 256, (n - 1) as nat);
    }
}

/// Writing a number and reading it back gives the number.
pub proof fn lemma_be_round_trip(v: nat, n: nat)
    requires
        v < pow256(n),
    ensures
        be_bytes(v, n).len() == n,
        be_value(be_bytes(v, n)) == v,
    decreases n,
{
    lemma_be_len(v, n);
    if n > 0 {
        lemma_be_round_trip(v / 256, (n - 1) as nat);
        let rest = be_bytes(v / 256, (n - 1) as nat);
        assert(be_bytes(v, n).drop_last() =~= rest);
    }
}

/// Writing a number and reading it back gives the number.
pub proof fn lemma_le_round_trip(v: nat, n: nat)
    requires
        v < pow256(n),
    ensures
        le_bytes(v, n).len() == n,
        le_value(le_bytes(v, n)) == v,
    decreases n,
{
    lemma_le_len(v, n);
    if n > 0 {
        lemma_le_round_trip(v / 256, (n - 1) as nat);
        let rest = le_bytes(v / 256, (n - 1) as nat);
        assert(le_bytes(v, n).skip(1) =~= rest);
    }
}

/// Some bytes hold a number that fits in as many bytes.
pub proof fn lemma_be_bound(s: Seq<u8>)
    ensures
        be_value(s) < pow256(s.len()),
    decreases s.len(),
{
    if s.len() > 0 {
        lemma_be_bound(s.drop_last());
    }
}

/// Some bytes hold a number that fits in as many bytes.
pub proof fn lemma_le_bound(s: Seq<u8>)
    ensures
        le_value(s) < pow256(s.len()),
    decreases s.len(),
{
    if s.len() > 0 {
        lemma_le_bound(s.skip(1));
    }
}

/// The values of `pow256` for the sizes of the integer types.
pub proof fn lemma_pow256_values()
    ensures
        pow256(1) == 0x100,
        pow256(2) == 0x1_0000,
        pow256(4) == 0x1_0000_0000,
        pow256(8) == 0x1_0000_0000_0000_0000,
        pow256(16) == 0x1_0000_0000_0000_0000_0000_0000_0000_0000,
{
    reveal_with_fuel(pow256, 17);
}

/// The growable byte buffer of the `bytes` crate.
#[verifier::external_type_specification]
#[verifier::external_body]
pub struct ExBytesMut(bytes::BytesMut);

/// The bytes that a buffer holds.
pub uninterp spec fn buffered(buf: bytes::BytesMut) -> Seq<u8>;

/// Makes a buffer with `BytesMut::with_capacity`. Claimed: it holds no bytes.
#[verifier::external_body]
pub(crate) fn buffer_with_capacity(capacity: usize) -> (r: bytes::BytesMut)
    requires
        capacity <= isize::MAX,
    ensures
        buffered(r) == Seq::<u8>::empty(),
{
    bytes::BytesMut::with_capacity(capacity)
}

/// Appends with `BufMut::put_u8`. Claimed: the byte is added at the end.
#[verifier::external_body]
pub(crate) fn put_u8(buf: &mut bytes::BytesMut, v: u8)
    requires
        buffered(*old(buf)).len() + 1 <= isize::MAX,
    ensures
        buffered(*final(buf)) == buffered(*old(buf)).push(v),
{
    buf.put_u8(v)
}

/// Appends with `BufMut::put_u16`. Claimed: two bytes in big-endian order are
/// added at the end.
#[verifier::external_body]
pub(crate) fn put_u16(buf: &mut bytes::BytesMut, v: u16)
    requires
        buffered(*old(buf)).len() + 2 <= isize::MAX,
    ensures
        buffered(*final(buf)) == buffered(*old(buf)) + be_bytes(v as nat, 2),
{
    buf.put_u16(v)
}

/// Appends with `BufMut::put_u32`. Claimed: four bytes in big-endian order are
/// added at the end.
#[verifier::external_body]
pub(crate) fn put_u32(buf: &mut bytes::BytesMut, v: u32)
    requires
        buffered(*old(buf)).len() + 4 <= isize::MAX,
    ensures
        buffered(*final(buf)) == buffered(*old(buf)) + be_bytes(v as nat, 4),
{
    buf.put_u32(v)
}

/// Appends with `BufMut::put_u64`. Claimed: eight bytes in big-endian order are
/// added at the end.
#[verifier::external_body]
pub(crate) fn put_u64(buf: &mut bytes::BytesMut, v: u64)
    requires
        buffered(*old(buf)).len() + 8 <= isize::MAX,
    ensures
        buffered(*final(buf)) == buffered(*old(buf)) + be_bytes(v as nat, 8),
{
    buf.put_u64(v)
}

/// Appends with `BufMut::put_u128`. Claimed: sixteen bytes in big-endian order
/// are added at the end.
#[verifier::external_body]
pub(crate) fn put_u128(buf: &mut bytes::BytesMut, v: u128)
    requires
        buffered(*old(buf)).len() + 16 <= isize::MAX,
    ensures
        buffered(*final(buf)) == buffered(*old(buf)) + be_bytes(v as nat, 16),
{
    buf.put_u128(v)
}

/// Appends with `BufMut::put_i32`. Claimed: the four bytes of the number in two's
/// complement, in big-endian order, are added at the end.
#[verifier::external_body]
pub(crate) fn put_i32(buf: &mut bytes::BytesMut, v: i32)
    requires
        buffered(*old(buf)).len() + 4 <= isize::MAX,
    ensures
        buffered(*final(buf)) == buffered(*old(buf)) + be_bytes(bits32(v), 4),
{
    buf.put_i32(v)
}

/// Appends with `BytesMut::extend_from_slice`. Claimed: the bytes are added at
/// the end.
#[verifier::external_body]
pub(crate) fn put_slice(buf: &mut bytes::BytesMut, bytes: &[u8])
    requires
        buffered(*old(buf)).len() + bytes@.len() <= isize::MAX,
    ensures
        buffered(*final(buf)) == buffered(*old(buf)) + bytes@,
{
    buf.extend_from_slice(bytes)
}

/// Copies a buffer out with `to_vec`. Claimed: the vector holds the buffer's bytes.
#[verifier::external_body]
pub(crate) fn buffer_to_vec(buf: &bytes::BytesMut) -> (r: Vec<u8>)
    ensures
        r@ == buffered(*buf),
{
    buf.to_vec()
}

/// Reads with `Buf::get_u8`. Claimed: the first byte.
#[verifier::external_body]
pub(crate) fn get_u8(raw: &[u8]) -> (r: u8)
    requires
        raw@.len() >= 1,
    ensures
        r == raw@[0],
{
    let mut raw = raw;
    raw.get_u8()
}

/// Reads with `Buf::get_u16`. Claimed: the first two bytes in big-endian order.
#[verifier::external_body]
pub(crate) fn get_u16(raw: &[u8]) -> (r: u16)
    requires
        raw@.len() >= 2,
    ensures
        r == be_value(raw@.take(2)),
{
    let mut raw = raw;
    raw.get_u16()
}

/// Reads with `Buf::get_u32`. Claimed: the first four bytes in big-endian order.
#[verifier::external_body]
pub(crate) fn get_u32(raw: &[u8]) -> (r: u32)
    requires
        raw@.len() >= 4,
    ensures
        r == be_value(raw@.take(4)),
{
    let mut raw = raw;
    raw.get_u32()
}

/// Reads with `Buf::get_u64`. Claimed: the first eight bytes in big-endian order.
#[verifier::external_body]
pub(crate) fn get_u64(raw: &[u8]) -> (r: u64)
    requires
        raw@.len() >= 8,
    ensures
        r == be_value(raw@.take(8)),
{
    let mut raw = raw;
    raw.get_u64()
}

/// Reads with `Buf::get_u128`. Claimed: the first sixteen bytes in big-endian order.
#[verifier::external_body]
pub(crate) fn get_u128(raw: &[u8]) -> (r: u128)
    requires
        raw@.len() >= 16,
    ensures
        r == be_value(raw@.take(16)),
{
    let mut raw = raw;
    raw.get_u128()
}

/// Reads with `Buf::get_i32`. Claimed: the first four bytes in big-endian order,
/// as a number in two's complement.
#[verifier::external_body]
pub(crate) fn get_i32(raw: &[u8]) -> (r: i32)
    requires
        raw@.len() >= 4,
    ensures
        r == signed32(be_value(raw@.take(4))),
{
    let mut raw = raw;
    raw.get_i32()
}

/// Every byte stands at its place: the most significant one first, or last.
pub proof fn law_bytes_stand_in_order(v: nat, n: nat, i: int)
    requires
        0 <= i < n,
    ensures
        be_bytes(v, n)[i] == (v / pow256((n - 1 - i) as nat)) % 256,
        le_bytes(v, n)[i] == (v / pow256(i as nat)) % 256,
    decreases n,
{
    lemma_be_len(v / 256, (n - 1) as nat);
    lemma_le_len(v / 256, (n - 1) as nat);
    assert(pow256(0) == 1);
    assert(v / 1 == v);
    if i < n - 1 {
        let m = (n - 2 - i) as nat;
        law_bytes_stand_in_order(v / 256, (n - 1) as nat, i);
        lemma_pow256_positive(m);
        vstd::arithmetic::div_mod::lemma_div_denominator(v as int, 256, pow256(m) as int);
        assert((n - 1 - i) as nat == m + 1);
        assert(pow256(m + 1) == 256 * pow256(m));
        assert(be_bytes(v, n)[i] == be_bytes(v / 256, (n - 1) as nat)[i]);
        assert((v / 256) / pow256(m) == v / pow256(m + 1));
    } else {
        assert((n - 1 - i) as nat == 0);
        assert(be_bytes(v, n)[i] == v % 256);
    }
    if i > 0 {
        let m = (i - 1) as nat;
        law_bytes_stand_in_order(v / 256, (n - 1) as nat, i - 1);
        lemma_pow256_positive(m);
        vstd::arithmetic::div_mod::lemma_div_denominator(v as int, 256, pow256(m) as int);
        assert(i as nat == m + 1);
        assert(pow256(m + 1) == 256 * pow256(m));
        assert(le_bytes(v, n)[i] == le_bytes(v / 256, (n - 1) as nat)[i - 1]);
        assert((v / 256) / pow256(m) == v / pow256(m + 1));
    } else {
        assert(le_bytes(v, n)[i] == v % 256);
    }
}

proof fn lemma_pow256_positive(n: nat)
    ensures
        pow256(n) > 0,
    decreases n,
{
    if n > 0 {
        lemma_pow256_positive((n - 1) as nat);
    }
}

/// As many bytes hold the same number only if they are the same.
pub proof fn law_numbers_tell_bytes_apart(a: Seq<u8>, b: Seq<u8>)
    requires
        a.len() == b.len(),
        be_value(a) == be_value(b),
    ensures
        a == b,
    decreases a.len(),
{
    if a.len() > 0 {
        law_numbers_tell_bytes_apart(a.drop_last(), b.drop_last());
        assert(a =~= a.drop_last().push(a.last()));
        assert(b =~= b.drop_last().push(b.last()));
    } else {
        assert(a =~= b);
    }
}

/// A signed number and its bits tell each other.
pub proof fn law_signed_numbers_have_bits(v: i32)
    ensures
        signed32(bits32(v)) == v,
        bits32(v) < 0x1_0000_0000,
        v >= 0 <==> bits32(v) < 0x8000_0000,
        v >= 0 ==> bits32(v) == v,
        v == -1 ==> bits32(v) == 0xffff_ffff,
{
}

} // verus!
