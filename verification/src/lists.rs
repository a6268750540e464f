//! Searching and thinning out short lists.
use crate::protocol::DragTransfer;
use crate::text::views;
use vstd::prelude::*;

verus! {

/// The place of the first element with a property.
pub open spec fn find_first<T>(s: Seq<T>, p: spec_fn(T) -> bool) -> Option<int>
    decreases s.len(),
{
    if s.len() == 0 {
        None
    } else {
        match find_first(s.drop_last(), p) {
            Some(i) => Some(i),
            None => if p(s.last()) { Some(s.len() - 1) } else { None },
        }
    }
}

/// What `find_first` gives is the first element with the property.
pub proof fn lemma_find_first<T>(s: Seq<T>, p: spec_fn(T) -> bool)
    ensures
        match find_first(s, p) {
            Some(i) => 0 <= i < s.len() && p(s[i]) && forall|j: int| 0 <= j < i ==> !p(s[j]),
            None => forall|j: int| 0 <= j < s.len() ==> !p(s[j]),
        },
    decreases s.len(),
{
    if s.len() > 0 {
        lemma_find_first(s.drop_last(), p);
        assert forall|j: int| 0 <= j < s.len() - 1 implies s.drop_last()[j] == s[j] by {}
    }
}

/// The first element with a property is found where it stands.
pub proof fn lemma_find_first_at<T>(s: Seq<T>, p: spec_fn(T) -> bool, i: int)
    requires
        0 <= i < s.len(),
        p(s[i]),
        forall|j: int| 0 <= j < i ==> !p(s[j]),
    ensures
        find_first(s, p) == Some(i),
{
    lemma_find_first(s, p);
}

/// A property that no element has is not found.
pub proof fn lemma_find_first_none<T>(s: Seq<T>, p: spec_fn(T) -> bool)
    requires
        forall|j: int| 0 <= j < s.len() ==> !p(s[j]),
    ensures
        find_first(s, p) is None,
{
    lemma_find_first(s, p);
}

/// Filtering one more element.
pub proof fn lemma_filter_step<T>(s: Seq<T>, p: spec_fn(T) -> bool, i: int)
    requires
        0 <= i < s.len(),
    ensures
        s.take(i + 1).filter(p) == (if p(s[i]) {
            s.take(i).filter(p).push(s[i])
        } else {
            s.take(i).filter(p)
        }),
{
    reveal(Seq::filter);
    assert(s.take(i + 1).drop_last() =~= s.take(i));
}

/// The drags that share neither session nor transfer with another one.
pub open spec fn unrelated(s: Seq<DragTransfer>, other: DragTransfer) -> Seq<DragTransfer> {
    s.filter(
        |d: DragTransfer|
            d.session_id != other.session_id && d.transfer_id != other.transfer_id,
    )
}

/// The place of the first drag of a session.
pub open spec fn session_place(s: Seq<DragTransfer>, session_id: u128) -> Option<int> {
    find_first(s, |d: DragTransfer| d.session_id == session_id)
}

/// The place of the first drag with a transfer.
pub open spec fn transfer_place(s: Seq<DragTransfer>, transfer_id: u128) -> Option<int> {
    find_first(s, |d: DragTransfer| d.transfer_id == transfer_id)
}

/// Keeps the drags that share neither session nor transfer with `other`.
pub fn keep_unrelated(v: &Vec<DragTransfer>, other: DragTransfer) -> (r: Vec<DragTransfer>)
    ensures
        r@ == unrelated(v@, other),
{
    let ghost p = |d: DragTransfer|
        d.session_id != other.session_id && d.transfer_id != other.transfer_id;
    let mut out: Vec<DragTransfer> = Vec::new();
    let mut i: usize = 0;
    proof {
        reveal(Seq::filter);
        assert(v@.take(0) =~= Seq::<DragTransfer>::empty());
    }
    while i < v.len()
        invariant
            i <= v@.len(),
            p == (|d: DragTransfer|
                d.session_id != other.session_id && d.transfer_id != other.transfer_id),
            out@ == v@.take(i as int).filter(p),
        decreases v@.len() - i,
    {
        let d = v[i];
        proof {
            lemma_filter_step(v@, p, i as int);
        }
        if d.session_id != other.session_id && d.transfer_id != other.transfer_id {
            out.push(d);
        }
        i = i + 1;
    }
    assert(v@.take(v@.len() as int) =~= v@);
    out
}

/// The place of the first drag of a session.
pub fn place_of_session(v: &Vec<DragTransfer>, session_id: u128) -> (r: Option<usize>)
    ensures
        match r {
            Some(i) => session_place(v@, session_id) == Some(i as int) && i < v@.len() && v@[i as int].session_id == session_id,
            None => session_place(v@, session_id) is None,
        },
{
    let ghost p = |d: DragTransfer| d.session_id == session_id;
    let mut i: usize = 0;
    while i < v.len()
        invariant
            i <= v@.len(),
            p == (|d: DragTransfer| d.session_id == session_id),
            forall|j: int| 0 <= j < i ==> v@[j].session_id != session_id,
        decreases v@.len() - i,
    {
        if v[i].session_id == session_id {
            proof {
                lemma_find_first_at(v@, p, i as int);
            }
            return Some(i);
        }
        i = i + 1;
    }
    proof {
        lemma_find_first_none(v@, p);
    }
    None
}

/// The place of the first drag with a transfer.
pub fn place_of_transfer(v: &Vec<DragTransfer>, transfer_id: u128) -> (r: Option<usize>)
    ensures
        match r {
            Some(i) => transfer_place(v@, transfer_id) == Some(i as int) && i < v@.len() && v@[i as int].transfer_id == transfer_id,
            None => transfer_place(v@, transfer_id) is None,
        },
{
    let ghost p = |d: DragTransfer| d.transfer_id == transfer_id;
    let mut i: usize = 0;
    while i < v.len()
        invariant
            i <= v@.len(),
            p == (|d: DragTransfer| d.transfer_id == transfer_id),
            forall|j: int| 0 <= j < i ==> v@[j].transfer_id != transfer_id,
        decreases v@.len() - i,
    {
        if v[i].transfer_id == transfer_id {
            proof {
                lemma_find_first_at(v@, p, i as int);
            }
            return Some(i);
        }
        i = i + 1;
    }
    proof {
        lemma_find_first_none(v@, p);
    }
    None
}

/// A transfer that has arrived, with the files in the cache.
#[derive(Debug, PartialEq, Eq)]
pub struct CompletedTransfer {
    pub transfer_id: u128,
    pub cache_paths: Vec<String>,
}

pub struct CompletedView {
    pub transfer_id: u128,
    pub cache_paths: Seq<Seq<char>>,
}

impl View for CompletedTransfer {
    type V = CompletedView;

    open spec fn view(&self) -> CompletedView {
        CompletedView { transfer_id: self.transfer_id, cache_paths: views(self.cache_paths@) }
    }
}

/// The place of the first arrived transfer with an identifier.
pub open spec fn completed_place(s: Seq<CompletedView>, transfer_id: u128) -> Option<int> {
    find_first(s, |c: CompletedView| c.transfer_id == transfer_id)
}

/// The arrived transfers with other identifiers.
pub open spec fn other_completed(s: Seq<CompletedView>, transfer_id: u128) -> Seq<CompletedView> {
    s.filter(|c: CompletedView| c.transfer_id != transfer_id)
}

/// Removes the arrived transfers with an identifier.
pub fn drop_completed(v: &mut Vec<CompletedTransfer>, transfer_id: u128)
    ensures
        views(final(v)@) == other_completed(views(old(v)@), transfer_id),
{
    let ghost p = |c: CompletedView| c.transfer_id != transfer_id;
    let ghost start = views(v@);
    let ghost mut seen: int = 0;
    let mut i: usize = 0;
    proof {
        reveal(Seq::filter);
        assert(start.take(0) =~= Seq::<CompletedView>::empty());
        assert(views(v@) =~= start.take(0).filter(p) + start.skip(0));
    }
    while i < v.len()
        invariant
            0 <= seen <= start.len(),
            p == (|c: CompletedView| c.transfer_id != transfer_id),
            i == start.take(seen).filter(p).len(),
            views(v@) == start.take(seen).filter(p) + start.skip(seen),
        decreases start.len() - seen,
    {
        proof {
            lemma_filter_step(start, p, seen);
            assert(views(v@).len() == v@.len());
            assert(views(v@)[i as int] == start.skip(seen)[0]);
            assert(start.skip(seen)[0] == start[seen]);
        }
        if v[i].transfer_id == transfer_id {
            let ghost before = v@;
            let _ = v.remove(i);
            proof {
                assert(views(v@) =~= views(before).remove(i as int));
                assert(views(v@) =~= start.take(seen + 1).filter(p) + start.skip(seen + 1));
            }
        } else {
            proof {
                assert(views(v@) =~= start.take(seen + 1).filter(p) + start.skip(seen + 1));
            }
            i = i + 1;
        }
        proof {
            seen = seen + 1;
        }
    }
    proof {
        assert(views(v@).len() == v@.len());
        assert(start.skip(seen).len() == 0);
        assert(start.take(seen) =~= start);
        assert(views(v@) =~= start.filter(p));
    }
}

/// Removes and returns the first arrived transfer with an identifier.
pub fn take_completed(v: &mut Vec<CompletedTransfer>, transfer_id: u128) -> (r: Option<Vec<String>>)
    ensures
        match completed_place(views(old(v)@), transfer_id) {
            Some(i) => {
                &&& 0 <= i < views(old(v)@).len()
                &&& views(final(v)@) == views(old(v)@).remove(i)
                &&& r matches Some(paths)
                &&& views(paths@) == views(old(v)@)[i].cache_paths
            },
            None => views(final(v)@) == views(old(v)@) && r is None,
        },
{
    let ghost p = |c: CompletedView| c.transfer_id == transfer_id;
    let ghost start = views(v@);
    let mut i: usize = 0;
    while i < v.len()
        invariant
            i <= v@.len(),
            views(v@) == start,
            start == views(old(v)@),
            p == (|c: CompletedView| c.transfer_id == transfer_id),
            forall|j: int| 0 <= j < i ==> start[j].transfer_id != transfer_id,
        decreases v@.len() - i,
    {
        if v[i].transfer_id == transfer_id {
            proof {
                assert(start[i as int].transfer_id == transfer_id);
                lemma_find_first_at(start, p, i as int);
            }
            let found = v.remove(i);
            assert(views(v@) =~= start.remove(i as int));
            return Some(found.cache_paths);
        }
        assert(start[i as int] == v@[i as int]@);
        i = i + 1;
    }
    proof {
        lemma_find_first_none(start, p);
    }
    None
}

} // verus!
