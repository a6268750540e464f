//! Clipboard contents and the guard against clipboard echoes.
use crate::file_transfer::{clone_entries, FileManifestEntry, FileManifestEntryView};
use crate::text::views;
use std::collections::BTreeSet;
use vstd::prelude::*;

verus! {

broadcast use {vstd::std_specs::btree::group_btree_axioms, vstd::laws_cmp::group_laws_cmp};

/// Identifies one change of the clipboard of one device.
#[derive(Clone, Copy, Debug, PartialEq, Eq, PartialOrd, Ord, Structural)]
pub struct ClipboardChangeId {
    pub source_device_id: u128,
    pub sequence: u64,
}

impl ClipboardChangeId {
    pub fn new(source_device_id: u128, sequence: u64) -> (r: Self)
        ensures
            r == (ClipboardChangeId { source_device_id, sequence }),
    {
        Self { source_device_id, sequence }
    }
}

/// Remembers which clipboard changes were seen.
#[derive(Debug)]
pub struct ClipboardLoopGuard {
    seen: BTreeSet<(u128, u64)>,
}

impl View for ClipboardLoopGuard {
    type V = Set<ClipboardChangeId>;

    closed spec fn view(&self) -> Set<ClipboardChangeId> {
        Set::new(|id: ClipboardChangeId| self.seen@.contains((id.source_device_id, id.sequence)))
    }
}

impl Default for ClipboardLoopGuard {
    fn default() -> (r: Self)
        ensures
            r@ == Set::<ClipboardChangeId>::empty(),
    {
        let r = ClipboardLoopGuard { seen: BTreeSet::new() };
        assert(r@ =~= Set::<ClipboardChangeId>::empty());
        r
    }
}

impl ClipboardLoopGuard {
    /// Accepts a change the first time it is seen.
    pub fn accept(&mut self, change_id: ClipboardChangeId) -> (r: bool)
        ensures
            r == !old(self)@.contains(change_id),
            final(self)@ == old(self)@.insert(change_id),
    {
        let r = self.seen.insert((change_id.source_device_id, change_id.sequence));
        assert(self@ =~= old(self)@.insert(change_id));
        r
    }
}

#[derive(Debug, PartialEq, Eq)]
pub struct RemoteFileOffer {
    pub transfer_id: u128,
    pub files: Vec<FileManifestEntry>,
}

pub struct RemoteFileOfferView {
    pub transfer_id: u128,
    pub files: Seq<FileManifestEntryView>,
}

impl View for RemoteFileOffer {
    type V = RemoteFileOfferView;

    open spec fn view(&self) -> RemoteFileOfferView {
        RemoteFileOfferView { transfer_id: self.transfer_id, files: views(self.files@) }
    }
}

impl Clone for RemoteFileOffer {
    fn clone(&self) -> (r: Self)
        ensures
            r@ == self@,
    {
        RemoteFileOffer { transfer_id: self.transfer_id, files: clone_entries(&self.files) }
    }
}

#[derive(Debug, PartialEq, Eq)]
pub enum ClipboardPayload {
    UnicodeText(String),
    Html(String),
    ImagePng(Vec<u8>),
    ImageDib(Vec<u8>),
    Files(RemoteFileOffer),
}

pub enum ClipboardPayloadView {
    UnicodeText(Seq<char>),
    Html(Seq<char>),
    ImagePng(Seq<u8>),
    ImageDib(Seq<u8>),
    Files(RemoteFileOfferView),
}

impl View for ClipboardPayload {
    type V = ClipboardPayloadView;

    open spec fn view(&self) -> ClipboardPayloadView {
        match self {
            ClipboardPayload::UnicodeText(text) => ClipboardPayloadView::UnicodeText(text@),
            ClipboardPayload::Html(html) => ClipboardPayloadView::Html(html@),
            ClipboardPayload::ImagePng(bytes) => ClipboardPayloadView::ImagePng(bytes@),
            ClipboardPayload::ImageDib(bytes) => ClipboardPayloadView::ImageDib(bytes@),
            ClipboardPayload::Files(offer) => ClipboardPayloadView::Files(offer@),
        }
    }
}

/// Copies bytes.
pub fn clone_bytes(bytes: &Vec<u8>) -> (r: Vec<u8>)
    ensures
        r@ == bytes@,
{
    let r = bytes.clone();
    assert(r@ =~= bytes@);
    r
}

impl Clone for ClipboardPayload {
    fn clone(&self) -> (r: Self)
        ensures
            r@ == self@,
    {
        match self {
            ClipboardPayload::UnicodeText(text) => ClipboardPayload::UnicodeText(text.clone()),
            ClipboardPayload::Html(html) => ClipboardPayload::Html(html.clone()),
            ClipboardPayload::ImagePng(bytes) => ClipboardPayload::ImagePng(clone_bytes(bytes)),
            ClipboardPayload::ImageDib(bytes) => ClipboardPayload::ImageDib(clone_bytes(bytes)),
            ClipboardPayload::Files(offer) => ClipboardPayload::Files(offer.clone()),
        }
    }
}

/// The sum of the sizes of some files.
pub open spec fn size_sum(files: Seq<FileManifestEntryView>) -> nat
    decreases files.len(),
{
    if files.len() == 0 {
        0
    } else {
        size_sum(files.drop_last()) + files.last().size_bytes as nat
    }
}

/// A number of bytes, or the largest `u64` if there are more.
pub open spec fn at_most_u64(n: nat) -> u64 {
    if n <= u64::MAX { n as u64 } else { u64::MAX }
}

impl ClipboardPayloadView {
    /// The size of the content: the length of text in UTF-8, of an image in bytes,
    /// and of files the sum of their sizes.
    pub open spec fn size(self) -> nat {
        match self {
            ClipboardPayloadView::UnicodeText(text) => vstd::utf8::encode_utf8(text).len(),
            ClipboardPayloadView::Html(html) => vstd::utf8::encode_utf8(html).len(),
            ClipboardPayloadView::ImagePng(bytes) => bytes.len(),
            ClipboardPayloadView::ImageDib(bytes) => bytes.len(),
            ClipboardPayloadView::Files(offer) => size_sum(offer.files),
        }
    }
}

/// Adds up the sizes of files, stopping at the largest `u64`.
pub fn total_size(files: &Vec<FileManifestEntry>) -> (r: u64)
    ensures
        r == at_most_u64(size_sum(views(files@))),
{
    let mut total: u64 = 0;
    let mut i: usize = 0;
    while i < files.len()
        invariant
            i <= files@.len(),
            total == at_most_u64(size_sum(views(files@).take(i as int))),
        decreases files@.len() - i,
    {
        assert(views(files@).take(i as int + 1).drop_last() =~= views(files@).take(i as int));
        total = total.saturating_add(files[i].size_bytes);
        i = i + 1;
    }
    assert(views(files@).take(files@.len() as int) =~= views(files@));
    total
}

impl ClipboardPayload {
    pub fn total_bytes(&self) -> (r: u64)
        ensures
            r == at_most_u64(self@.size()),
    {
        match self {
            ClipboardPayload::UnicodeText(value) => value.as_str().as_bytes().len() as u64,
            ClipboardPayload::Html(value) => value.as_str().as_bytes().len() as u64,
            ClipboardPayload::ImagePng(bytes) => bytes.len() as u64,
            ClipboardPayload::ImageDib(bytes) => bytes.len() as u64,
            ClipboardPayload::Files(offer) => total_size(&offer.files),
        }
    }
}

#[derive(Debug, PartialEq, Eq)]
pub struct ClipboardEnvelope {
    pub change_id: ClipboardChangeId,
    pub payload: ClipboardPayload,
}

pub struct ClipboardEnvelopeView {
    pub change_id: ClipboardChangeId,
    pub payload: ClipboardPayloadView,
}

impl View for ClipboardEnvelope {
    type V = ClipboardEnvelopeView;

    open spec fn view(&self) -> ClipboardEnvelopeView {
        ClipboardEnvelopeView { change_id: self.change_id, payload: self.payload@ }
    }
}

impl Clone for ClipboardEnvelope {
    fn clone(&self) -> (r: Self)
        ensures
            r@ == self@,
    {
        ClipboardEnvelope { change_id: self.change_id, payload: self.payload.clone() }
    }
}

/// A change that was accepted once is never accepted again, whatever else arrives
/// in between.
pub proof fn law_change_is_accepted_once(
    seen: Set<ClipboardChangeId>,
    change: ClipboardChangeId,
    others: Set<ClipboardChangeId>,
)
    ensures
        seen.insert(change).union(others).contains(change),
{
}

/// Sizes add up: the size of files taken together is the sum of both parts, no file is
/// larger than the whole, and content is never counted by another content's measure.
pub proof fn law_sizes_add_up(
    a: Seq<FileManifestEntryView>,
    b: Seq<FileManifestEntryView>,
    transfer_id: u128,
    i: int,
)
    ensures
        size_sum(a + b) == size_sum(a) + size_sum(b),
        0 <= i < a.len() ==> a[i].size_bytes <= size_sum(a),
        a.len() == 1 ==> size_sum(a) == a[0].size_bytes,
        ClipboardPayloadView::Files(RemoteFileOfferView { transfer_id, files: a }).size()
            == size_sum(a),
    decreases b.len(), a.len(),
{
    if b.len() > 0 {
        law_sizes_add_up(a, b.drop_last(), transfer_id, i);
        assert((a + b).drop_last() =~= a + b.drop_last());
    } else {
        assert(a + b =~= a);
        if 0 <= i < a.len() {
            law_sizes_add_up(a.drop_last(), b, transfer_id, i);
            if i < a.len() - 1 {
                assert(a.drop_last()[i] == a[i]);
            }
        }
        if a.len() == 1 {
            assert(size_sum(a.drop_last()) == 0);
        }
    }
}

/// A size that fits is told as it is; a larger one as the largest number.
pub proof fn law_sizes_are_capped(n: nat, m: nat)
    ensures
        n <= u64::MAX ==> at_most_u64(n) == n,
        n > u64::MAX ==> at_most_u64(n) == u64::MAX,
        n <= m ==> at_most_u64(n) <= at_most_u64(m),
{
}

/// A change is accepted exactly if it was not seen before; from then on it counts as seen,
/// and no other change does.
pub proof fn law_changes_are_accepted_once(
    guard: &mut ClipboardLoopGuard,
    change: ClipboardChangeId,
    other: ClipboardChangeId,
    accepted: bool,
)
    requires
        call_ensures(ClipboardLoopGuard::accept, (guard, change), accepted),
    ensures
        accepted <==> !old(guard)@.contains(change),
        final(guard)@.contains(change),
        other != change ==> (final(guard)@.contains(other) <==> old(guard)@.contains(other)),
{
}

} // verus!
