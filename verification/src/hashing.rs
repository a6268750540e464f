//! BLAKE3 digests.
use vstd::prelude::*;

verus! {

/// The hexadecimal BLAKE3 digest of bytes, as `blake3::hash` and `to_hex` give it.
pub uninterp spec fn digest_hex(bytes: Seq<u8>) -> Seq<char>;

/// A digest that is being computed.
#[verifier::external_type_specification]
#[verifier::external_body]
pub struct ExHasher(blake3::Hasher);

/// The bytes that a hasher has been fed.
pub uninterp spec fn hashed(hasher: blake3::Hasher) -> Seq<u8>;

/// Calls `blake3::hash` and `to_hex`. Claimed: the result is the digest of the bytes.
#[verifier::external_body]
pub(crate) fn bytes_hex(bytes: &[u8]) -> (r: String)
    ensures
        r@ == digest_hex(bytes@),
{
    blake3::hash(bytes).to_hex().to_string()
}

/// Calls `blake3::Hasher::new`. Claimed: the hasher has been fed nothing.
#[verifier::external_body]
pub(crate) fn new_hasher() -> (r: blake3::Hasher)
    ensures
        hashed(r) == Seq::<u8>::empty(),
{
    blake3::Hasher::new()
}

/// Calls `blake3::Hasher::update`. Claimed: the hasher has been fed the bytes after
/// those it had been fed before.
#[verifier::external_body]
pub(crate) fn feed_hasher(hasher: &mut blake3::Hasher, bytes: &[u8])
    requires
        hashed(*old(hasher)).len() + bytes@.len() <= u64::MAX,
    ensures
        hashed(*final(hasher)) == hashed(*old(hasher)) + bytes@,
{
    hasher.update(bytes);
}

/// Calls `blake3::Hasher::finalize` and `to_hex`. Claimed: the result is the digest of
/// the bytes that the hasher has been fed, as `blake3::hash` gives it for them.
#[verifier::external_body]
pub(crate) fn hasher_hex(hasher: &blake3::Hasher) -> (r: String)
    ensures
        r@ == digest_hex(hashed(*hasher)),
{
    hasher.finalize().to_hex().to_string()
}

/// The digest of a file that is read piece by piece.
pub struct FileDigest {
    hasher: blake3::Hasher,
    length: u64,
}

impl View for FileDigest {
    type V = Seq<u8>;

    closed spec fn view(&self) -> Seq<u8> {
        hashed(self.hasher)
    }
}

impl FileDigest {
    /// The length that was counted is the length of what was read.
    pub closed spec fn wf(self) -> bool {
        self.length == hashed(self.hasher).len()
    }

    /// The digest of nothing.
    pub fn new() -> (r: Self)
        ensures
            r.wf(),
            r@ == Seq::<u8>::empty(),
    {
        FileDigest { hasher: new_hasher(), length: 0 }
    }

    /// Whether a piece of a length can still be counted.
    pub fn has_room_for(&self, count: usize) -> (r: bool)
        requires
            self.wf(),
        ensures
            r == (self@.len() + count <= u64::MAX),
    {
        self.length <= u64::MAX - count as u64
    }

    /// A piece was read.
    pub fn update(&mut self, bytes: &[u8])
        requires
            old(self).wf(),
            old(self)@.len() + bytes@.len() <= u64::MAX,
        ensures
            final(self).wf(),
            final(self)@ == old(self)@ + bytes@,
    {
        feed_hasher(&mut self.hasher, bytes);
        self.length = self.length + bytes.len() as u64;
    }

    /// The digest of what was read.
    pub fn hex(&self) -> (r: String)
        ensures
            r@ == digest_hex(self@),
    {
        hasher_hex(&self.hasher)
    }
}

} // verus!
