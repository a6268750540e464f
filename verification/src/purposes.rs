//! What finished file transfers are for.
use crate::lists::{
    completed_place, drop_completed, other_completed, take_completed, CompletedTransfer,
    CompletedView,
};
use crate::text::views;
use std::collections::BTreeSet;
use vstd::prelude::*;

verus! {

broadcast use {
    crate::text::lemma_views_push,
    vstd::std_specs::btree::group_btree_axioms,
    vstd::laws_cmp::group_laws_cmp,
};

/// Which transfers fill the clipboard and which belong to a drag, and the files of
/// those that arrived before their purpose was known.
#[derive(Debug, PartialEq, Eq)]
pub struct TransferPurposeTracker {
    clipboard_transfer_ids: BTreeSet<u128>,
    drag_transfer_ids: BTreeSet<u128>,
    pending_completed: Vec<CompletedTransfer>,
}

#[verifier::ext_equal]
pub struct PurposesView {
    pub clipboard: Set<u128>,
    pub drag: Set<u128>,
    pub pending: Seq<CompletedView>,
}

impl View for TransferPurposeTracker {
    type V = PurposesView;

    closed spec fn view(&self) -> PurposesView {
        PurposesView {
            clipboard: self.clipboard_transfer_ids@,
            drag: self.drag_transfer_ids@,
            pending: views(self.pending_completed@),
        }
    }
}

impl PurposesView {
    /// No transfer is known.
    pub open spec fn none() -> PurposesView {
        PurposesView { clipboard: Set::empty(), drag: Set::empty(), pending: Seq::empty() }
    }

    /// The files of a transfer that arrived before its purpose was known.
    pub open spec fn arrived(self, transfer_id: u128) -> Option<Seq<Seq<char>>> {
        match completed_place(self.pending, transfer_id) {
            Some(i) => Some(self.pending[i].cache_paths),
            None => None,
        }
    }

    /// Without those files.
    pub open spec fn taken(self, transfer_id: u128) -> PurposesView {
        match completed_place(self.pending, transfer_id) {
            Some(i) => PurposesView { pending: self.pending.remove(i), ..self },
            None => self,
        }
    }

    pub open spec fn with_clipboard(self, transfer_id: u128) -> PurposesView {
        PurposesView { clipboard: self.clipboard.insert(transfer_id), ..self }
    }

    pub open spec fn with_drag(self, transfer_id: u128) -> PurposesView {
        PurposesView { drag: self.drag.insert(transfer_id), ..self }
    }

    /// With the files of a transfer that arrived before its purpose was known.
    pub open spec fn with_arrived(
        self,
        transfer_id: u128,
        cache_paths: Seq<Seq<char>>,
    ) -> PurposesView {
        PurposesView {
            pending: other_completed(self.pending, transfer_id).push(
                CompletedView { transfer_id, cache_paths },
            ),
            ..self
        }
    }

    /// Without a transfer.
    pub open spec fn without(self, transfer_id: u128) -> PurposesView {
        PurposesView {
            clipboard: self.clipboard.remove(transfer_id),
            drag: self.drag.remove(transfer_id),
            pending: other_completed(self.pending, transfer_id),
        }
    }
}

/// The view of paths that may be missing.
pub open spec fn paths_view(paths: Option<Vec<String>>) -> Option<Seq<Seq<char>>> {
    match paths {
        Some(p) => Some(views(p@)),
        None => None,
    }
}

impl Default for TransferPurposeTracker {
    fn default() -> (r: Self)
        ensures
            r@ == PurposesView::none(),
    {
        let r = TransferPurposeTracker {
            clipboard_transfer_ids: BTreeSet::new(),
            drag_transfer_ids: BTreeSet::new(),
            pending_completed: Vec::new(),
        };
        assert(r@ =~= PurposesView::none());
        r
    }
}

impl TransferPurposeTracker {
    pub fn clear(&mut self)
        ensures
            final(self)@ == PurposesView::none(),
    {
        self.clipboard_transfer_ids.clear();
        self.drag_transfer_ids.clear();
        self.pending_completed.clear();
        assert(self@ =~= PurposesView::none());
    }

    /// A transfer fills the clipboard. If its files are there already, they are
    /// returned.
    pub fn remember_clipboard(&mut self, transfer_id: u128) -> (r: Option<Vec<String>>)
        ensures
            final(self)@ == old(self)@.with_clipboard(transfer_id).taken(transfer_id),
            paths_view(r) == old(self)@.arrived(transfer_id),
    {
        let _ = self.clipboard_transfer_ids.insert(transfer_id);
        self.take_pending_completed(transfer_id)
    }

    /// A transfer belongs to a drag. If its files are there already, they are
    /// returned.
    pub fn remember_drag_drop(&mut self, transfer_id: u128) -> (r: Option<Vec<String>>)
        ensures
            final(self)@ == old(self)@.with_drag(transfer_id).taken(transfer_id),
            paths_view(r) == old(self)@.arrived(transfer_id),
    {
        let _ = self.drag_transfer_ids.insert(transfer_id);
        self.take_pending_completed(transfer_id)
    }

    /// A transfer arrived whose purpose is not known.
    pub fn remember_unknown_completed(&mut self, transfer_id: u128, cache_paths: Vec<String>)
        ensures
            final(self)@ == old(self)@.with_arrived(transfer_id, views(cache_paths@)),
    {
        drop_completed(&mut self.pending_completed, transfer_id);
        self.pending_completed.push(CompletedTransfer { transfer_id, cache_paths });
    }

    /// Takes the files of a transfer that arrived before its purpose was known.
    pub fn take_pending_completed(&mut self, transfer_id: u128) -> (r: Option<Vec<String>>)
        ensures
            final(self)@ == old(self)@.taken(transfer_id),
            paths_view(r) == old(self)@.arrived(transfer_id),
    {
        take_completed(&mut self.pending_completed, transfer_id)
    }

    pub fn is_clipboard(&self, transfer_id: u128) -> (r: bool)
        ensures
            r == self@.clipboard.contains(transfer_id),
    {
        self.clipboard_transfer_ids.contains(&transfer_id)
    }

    pub fn is_drag_drop(&self, transfer_id: u128) -> (r: bool)
        ensures
            r == self@.drag.contains(transfer_id),
    {
        self.drag_transfer_ids.contains(&transfer_id)
    }

    /// The files of a transfer that arrived before its purpose was known, left where
    /// they are.
    pub fn pending_paths(&self, transfer_id: u128) -> (r: Option<&Vec<String>>)
        ensures
            match r {
                Some(paths) => self@.arrived(transfer_id) == Some(views(paths@)),
                None => self@.arrived(transfer_id) is None,
            },
    {
        let ghost pending = views(self.pending_completed@);
        let ghost p = |c: CompletedView| c.transfer_id == transfer_id;
        let mut i: usize = 0;
        while i < self.pending_completed.len()
            invariant
                i <= self.pending_completed@.len(),
                pending == views(self.pending_completed@),
                p == (|c: CompletedView| c.transfer_id == transfer_id),
                forall|j: int| 0 <= j < i ==> pending[j].transfer_id != transfer_id,
            decreases self.pending_completed@.len() - i,
        {
            assert(pending[i as int] == self.pending_completed@[i as int]@);
            if self.pending_completed[i].transfer_id == transfer_id {
                proof {
                    crate::lists::lemma_find_first_at(pending, p, i as int);
                }
                return Some(&self.pending_completed[i].cache_paths);
            }
            i = i + 1;
        }
        proof {
            crate::lists::lemma_find_first_none(pending, p);
        }
        None
    }

    pub fn forget(&mut self, transfer_id: u128)
        ensures
            final(self)@ == old(self)@.without(transfer_id),
    {
        let _ = self.clipboard_transfer_ids.remove(&transfer_id);
        let _ = self.drag_transfer_ids.remove(&transfer_id);
        drop_completed(&mut self.pending_completed, transfer_id);
    }
}

/// Files that arrive before their purpose is known are not lost: once the purpose
/// is told, they are handed out.
pub proof fn law_early_arrivals_are_kept(
    purposes: PurposesView,
    transfer_id: u128,
    cache_paths: Seq<Seq<char>>,
)
    ensures
        purposes.with_arrived(transfer_id, cache_paths).arrived(transfer_id) == Some(cache_paths),
        purposes.without(transfer_id).arrived(transfer_id) is None,
{
    let p = |c: CompletedView| c.transfer_id == transfer_id;
    let others = other_completed(purposes.pending, transfer_id);
    let q = |c: CompletedView| c.transfer_id != transfer_id;
    assert forall|j: int| 0 <= j < others.len() implies !p(#[trigger] others[j]) by {
        purposes.pending.lemma_filter_pred(q, j);
    }
    crate::lists::lemma_find_first_none(others, p);
    let all = others.push(CompletedView { transfer_id, cache_paths });
    crate::lists::lemma_find_first_at(all, p, others.len() as int);
}

/// A purpose is noted for its own transfer and no other, and the two purposes are kept
/// apart. What is forgotten of one transfer stays of the others.
pub proof fn law_purposes_are_kept_apart(purposes: PurposesView, id: u128, other: u128)
    ensures
        purposes.with_clipboard(id).clipboard.contains(id),
        purposes.with_clipboard(id).drag == purposes.drag,
        purposes.with_clipboard(id).pending == purposes.pending,
        purposes.with_drag(id).drag.contains(id),
        purposes.with_drag(id).clipboard == purposes.clipboard,
        purposes.with_drag(id).pending == purposes.pending,
        !purposes.without(id).clipboard.contains(id),
        !purposes.without(id).drag.contains(id),
        other != id ==> {
            &&& purposes.with_clipboard(id).clipboard.contains(other)
                == purposes.clipboard.contains(other)
            &&& purposes.with_drag(id).drag.contains(other) == purposes.drag.contains(other)
            &&& purposes.without(id).clipboard.contains(other) == purposes.clipboard.contains(other)
            &&& purposes.without(id).drag.contains(other) == purposes.drag.contains(other)
        },
        PurposesView::none().arrived(id) is None,
        !PurposesView::none().clipboard.contains(id) && !PurposesView::none().drag.contains(id),
{
    crate::lists::lemma_find_first_none(
        Seq::<CompletedView>::empty(),
        |c: CompletedView| c.transfer_id == id,
    );
}

} // verus!
