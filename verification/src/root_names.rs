//! Finding free names in the cache for the roots of an arriving transfer.
use crate::paths::{
    begins, goes_down, law_cache_names_lead_down, lists_text, NameSearch, NameSearchView,
};
use crate::text::views;
use vstd::prelude::*;

verus! {

/// The names that were found for roots, and the search for the next one.
pub struct ManifestRoots {
    roots: Vec<String>,
    names: Vec<String>,
    search: Option<NameSearch>,
}

/// `names` are those of the first roots; `search` is for the root behind them.
#[verifier::ext_equal]
pub struct RootNamesView {
    pub roots: Seq<Seq<char>>,
    pub names: Seq<Seq<char>>,
    pub search: Option<NameSearchView>,
}

impl View for ManifestRoots {
    type V = RootNamesView;

    closed spec fn view(&self) -> RootNamesView {
        RootNamesView {
            roots: views(self.roots@),
            names: views(self.names@),
            search: match self.search {
                Some(search) => Some(search@),
                None => None,
            },
        }
    }
}

impl RootNamesView {
    /// The search for the next root has begun, if there is one.
    pub open spec fn next_begun(self) -> bool {
        match self.search {
            Some(search) => self.names.len() < self.roots.len() && begins(
                search,
                self.roots[self.names.len() as int],
            ),
            None => self.names.len() >= self.roots.len(),
        }
    }

    /// The name that is tried cannot be had.
    pub open spec fn taken(self, present: bool) -> bool {
        present || self.names.contains(self.search->0.current())
    }

    /// What becomes of the search when it is known whether something of the name that
    /// is tried is present.
    pub open spec fn checked(self, present: bool, after: RootNamesView) -> bool {
        let search = self.search->0;
        &&& after.roots == self.roots
        &&& if self.taken(present) {
            after.names == self.names && after.search == Some(search.moved_to(search.index + 1))
        } else {
            after.names == self.names.push(search.current()) && after.next_begun()
        }
    }
}

impl ManifestRoots {
    /// The search for the names of some roots.
    pub fn resolve_manifest_roots(roots: Vec<String>) -> (r: Self)
        ensures
            r@.roots == views(roots@),
            r@.names == Seq::<Seq<char>>::empty(),
            r@.next_begun(),
    {
        let search = if roots.len() > 0 {
            Some(NameSearch::new(roots[0].as_str()))
        } else {
            None
        };
        let names: Vec<String> = Vec::new();
        assert(views(names@) =~= Seq::<Seq<char>>::empty());
        ManifestRoots { roots, names, search }
    }

    /// The name that is tried now; there is none once every root has a name.
    pub fn available_top_level_path(&self) -> (r: Option<String>)
        ensures
            match r {
                Some(name) => self@.search is Some && name@ == self@.search->0.current(),
                None => self@.search is None,
            },
    {
        match &self.search {
            Some(search) => Some(search.candidate()),
            None => None,
        }
    }

    /// Whether there is a name to try, and another one behind it.
    pub fn can_check(&self) -> (r: bool)
        ensures
            r == (self@.search is Some && self@.search->0.index < u32::MAX),
    {
        match &self.search {
            Some(search) => search.can_go_on(),
            None => false,
        }
    }

    /// It is known now whether something of the name that is tried is present.
    pub fn path_checked(&mut self, present: bool)
        requires
            old(self)@.search is Some,
            old(self)@.search->0.index < u32::MAX,
        ensures
            old(self)@.checked(present, final(self)@),
    {
        let ghost before = self@;
        match self.search.take() {
            Some(mut search) => {
                let name = search.candidate();
                if present || lists_text(&self.names, name.as_str()) {
                    search.taken();
                    self.search = Some(search);
                } else {
                    self.names.push(name);
                    assert(views(self.names@) =~= before.names.push(before.search->0.current()));
                    if self.names.len() < self.roots.len() {
                        self.search = Some(
                            NameSearch::new(self.roots[self.names.len()].as_str()),
                        );
                    }
                }
            },
            None => {},
        }
    }

    /// The names that were found.
    pub fn into_names(self) -> (r: Vec<String>)
        ensures
            views(r@) == self@.names,
    {
        self.names
    }
}

/// No two roots get the same name, and none gets the name of
/// something that is present.
pub proof fn law_roots_get_free_names(
    before: RootNamesView,
    present: bool,
    after: RootNamesView,
)
    requires
        before.search is Some,
        before.names.no_duplicates(),
        before.checked(present, after),
    ensures
        after.names.no_duplicates(),
        before.names.is_prefix_of(after.names),
        after.names != before.names ==> !present && !before.names.contains(after.names.last()),
{
    if !before.taken(present) {
        let name = before.search->0.current();
        assert(after.names =~= before.names.push(name));
        assert forall|i: int, j: int|
            0 <= i < after.names.len() && 0 <= j < after.names.len() && i != j implies after.names[i]
            != after.names[j] by {
            if i < before.names.len() && j < before.names.len() {
                assert(before.names[i] != before.names[j]);
            } else if i < before.names.len() {
                assert(before.names.contains(before.names[i]));
            } else {
                assert(before.names.contains(before.names[j]));
            }
        }
    }
}

impl RootNamesView {
    /// Every root and every name lead down, and the search is one for the next root.
    pub open spec fn inside(self) -> bool {
        &&& forall|i: int| 0 <= i < self.roots.len() ==> goes_down(#[trigger] self.roots[i])
        &&& forall|i: int| 0 <= i < self.names.len() ==> goes_down(#[trigger] self.names[i])
        &&& match self.search {
            Some(search) => self.names.len() < self.roots.len() && begins(
                search.moved_to(0),
                self.roots[self.names.len() as int],
            ),
            None => true,
        }
    }
}

/// What is received stays in the cache directory: roots that lead down get names that
/// lead down, from the beginning of the search and through every step of it.
pub proof fn law_roots_stay_in_the_cache(
    before: RootNamesView,
    present: bool,
    after: RootNamesView,
)
    ensures
        before.next_begun() && before.names.len() == 0 && (forall|i: int|
            0 <= i < before.roots.len() ==> goes_down(#[trigger] before.roots[i]))
            ==> before.inside(),
        before.inside() && before.search is Some && before.checked(present, after)
            ==> after.inside(),
{
    if before.next_begun() && before.search is Some {
        assert(before.search->0.moved_to(0) == before.search->0);
    }
    if before.inside() && before.search is Some && before.checked(present, after) {
        let search = before.search->0;
        let root = before.roots[before.names.len() as int];
        law_cache_names_lead_down(root, search.moved_to(0), search.index);
        assert(search.moved_to(0).at(search.index) == search.current());
        if before.taken(present) {
            assert(after.search->0.moved_to(0) == search.moved_to(0));
        } else if after.search is Some {
            assert(after.search->0.moved_to(0) == after.search->0);
        }
    }
}

} // verus!
