//! Names and relative paths of files that travel.
use crate::file_transfer::{FileManifestEntry, FileManifestEntryView};
use crate::text::{decimal, join2, join3, join4, number, opt_view, same_text, views};
use vstd::prelude::*;

verus! {

broadcast use crate::text::lemma_views_push;

/// A name that is a single path component on every system.
pub open spec fn plain(name: Seq<char>) -> bool {
    &&& name.len() > 0
    &&& !name.contains('/')
    &&& !name.contains('\\')
    &&& !name.contains(':')
    &&& name != "."@
    &&& name != ".."@
}

/// A path that every system reads in the same way: its parts stand between slashes, and
/// it begins neither with a drive nor with the name of a computer.
pub open spec fn portable(path: Seq<char>) -> bool {
    &&& !path.contains('\\')
    &&& !path.contains(':')
    &&& !(path.len() >= 2 && path[0] == '/' && path[1] == '/')
}

/// The parts of a path between its slashes.
pub open spec fn slash_parts(path: Seq<char>) -> Seq<Seq<char>>
    decreases path.len(),
{
    if path.len() == 0 {
        seq![Seq::empty()]
    } else {
        let before = slash_parts(path.drop_last());
        if path.last() == '/' {
            before.push(Seq::empty())
        } else {
            before.drop_last().push(before.last().push(path.last()))
        }
    }
}

/// A part that names something.
pub open spec fn names_something(piece: Seq<char>) -> bool {
    piece.len() > 0 && piece != "."@
}

/// The last part of a path that names something, unless it leads up.
pub open spec fn last_part(path: Seq<char>) -> Option<Seq<char>> {
    let parts = slash_parts(path).filter(|part: Seq<char>| names_something(part));
    if parts.len() == 0 || parts.last() == ".."@ {
        None
    } else {
        Some(parts.last())
    }
}

/// A path begins with a drive.
pub open spec fn has_drive(path: Seq<char>) -> bool {
    path.len() >= 2 && path[1] == ':' && (('a' <= path[0] && path[0] <= 'z') || ('A' <= path[0]
        && path[0] <= 'Z'))
}

/// What separates the parts of a path where backslashes do so too.
pub open spec fn separates(c: char) -> bool {
    c == '/' || c == '\\'
}

/// A path begins as one does that names a computer or a device.
pub open spec fn begins_twice(path: Seq<char>) -> bool {
    path.len() >= 2 && separates(path[0]) && separates(path[1])
}

/// What the file name of a path can be on a system that knows drives and reads
/// backslashes as slashes. A drive is no part of the name. Where a path names a computer
/// or a device, that is none either. A question mark behind two separators can keep a
/// path from being taken apart in this way; then nothing is said.
pub open spec fn named_by_drives(path: Seq<char>, name: Option<Seq<char>>) -> bool {
    if has_drive(path) {
        name == last_part(slashed(path.skip(2)))
    } else if !begins_twice(path) {
        name == last_part(slashed(path))
    } else {
        ||| path.len() > 2 && path[2] == '?'
        ||| name is None
        ||| name == last_part(slashed(path))
    }
}

/// What the file name of a path can be. On a path that is not portable systems differ:
/// some separate at slashes alone, the others know drives.
pub open spec fn named(path: Seq<char>, name: Option<Seq<char>>) -> bool {
    if portable(path) {
        name == last_part(path)
    } else {
        name == last_part(path) || named_by_drives(path, name)
    }
}

/// The place of the last dot of a name.
pub open spec fn last_dot(name: Seq<char>) -> Option<int>
    decreases name.len(),
{
    if name.len() == 0 {
        None
    } else if name.last() == '.' {
        Some(name.len() - 1)
    } else {
        last_dot(name.drop_last())
    }
}

/// The part of a name before its last dot; a dot at the beginning does not count.
pub open spec fn stem_of(name: Seq<char>) -> Seq<char> {
    match last_dot(name) {
        Some(i) => if i > 0 { name.take(i) } else { name },
        None => name,
    }
}

/// The part of a name after its last dot; a dot at the beginning does not count.
pub open spec fn extension_of(name: Seq<char>) -> Option<Seq<char>> {
    match last_dot(name) {
        Some(i) => if i > 0 { Some(name.skip(i + 1)) } else { None },
        None => None,
    }
}

/// Calls `std::path::Path::file_name`. Claimed: of a portable path, its last component,
/// unless that leads up; of another path, the same, or its last component behind a drive
/// where backslashes separate too, as the system reads it. Where a path begins with two
/// separators there may be no name, since the last component can belong to the name of a
/// computer or a device; with a question mark behind them nothing is claimed.
#[verifier::external_body]
pub(crate) fn file_name(path: &str) -> (r: Option<String>)
    ensures
        named(path@, opt_view(r)),
{
    std::path::Path::new(path).file_name().and_then(|name| name.to_str()).map(String::from)
}

/// A numbered name with a stem and an extension.
pub open spec fn numbered(stem: Seq<char>, extension: Option<Seq<char>>, index: nat) -> Seq<char> {
    let start = stem + " (Borderless "@ + decimal(index) + ")"@;
    match extension {
        Some(e) => if e.len() > 0 { start + "."@ + e } else { start },
        None => start,
    }
}

/// The search for a name, given what its file name is: numbers come before the
/// extension, and a name without a file name is numbered as a whole.
pub open spec fn search_as(name: Seq<char>, file_name: Option<Seq<char>>) -> NameSearchView {
    NameSearchView {
        name,
        stem: match file_name {
            Some(own) => stem_of(own),
            None => name,
        },
        extension: match file_name {
            Some(own) => extension_of(own),
            None => None,
        },
        index: 0,
    }
}

/// The search for a portable name.
pub open spec fn own_search(name: Seq<char>) -> NameSearchView {
    search_as(name, last_part(name))
}

/// A search that begins with a name.
pub open spec fn begins(search: NameSearchView, name: Seq<char>) -> bool {
    exists|file_name: Option<Seq<char>>| #[trigger]
        named(name, file_name) && search == search_as(name, file_name)
}

/// The name with a number.
pub open spec fn renamed(name: Seq<char>, index: nat) -> Seq<char> {
    numbered(own_search(name).stem, own_search(name).extension, index)
}

/// A free name was found: the first one of its list that is not taken.
pub open spec fn first_free_name(name: Seq<char>, taken: Seq<Seq<char>>, found: Seq<char>) -> bool {
    exists|search: NameSearchView, index: nat|
        begins(search, name) && #[trigger] search.first_free(taken, index) && found == search.at(
            index,
        )
}

/// Makes a numbered name.
pub fn numbered_name(stem: &str, extension: &Option<String>, index: u32) -> (r: String)
    ensures
        r@ == numbered(stem@, opt_view(*extension), index as nat),
{
    let index_text = number(index as u64);
    let start = join4(stem, " (Borderless ", index_text.as_str(), ")");
    match extension {
        Some(e) => if e.as_str().unicode_len() > 0 {
            join3(start.as_str(), ".", e.as_str())
        } else {
            start
        },
        None => start,
    }
}

/// Splits a name at its last dot.
fn split_at_dot(name: &str) -> (r: (String, Option<String>))
    ensures
        r.0@ == stem_of(name@),
        opt_view(r.1) == extension_of(name@),
{
    let length: usize = name.unicode_len();
    let mut end: usize = length;
    assert(name@.take(length as int) =~= name@);
    while end > 0
        invariant
            end <= length,
            length == name@.len(),
            last_dot(name@) == last_dot(name@.take(end as int)),
        decreases end,
    {
        assert(name@.take(end as int).drop_last() =~= name@.take(end as int - 1));
        if name.get_char(end - 1) == '.' {
            if end == 1 {
                return (name.to_owned(), None);
            }
            let stem = name.substring_char(0, end - 1);
            let extension = name.substring_char(end, length);
            assert(stem@ =~= name@.take(end as int - 1));
            assert(extension@ =~= name@.skip(end as int));
            return (stem.to_owned(), Some(extension.to_owned()));
        }
        end = end - 1;
    }
    (name.to_owned(), None)
}

/// Gives a name a number, before its extension. What the file name of a name is that is
/// not portable is left to the system.
pub fn rename_conflict(name: &str, index: u32) -> (r: String)
    ensures
        portable(name@) ==> r@ == renamed(name@, index as nat),
        exists|search: NameSearchView| #[trigger]
            begins(search, name@) && r@ == numbered(search.stem, search.extension, index as nat),
{
    let search = NameSearch::new(name);
    assert(begins(search@, name@));
    numbered_name(search.stem.as_str(), &search.extension, index)
}

/// The names that are tried for a file, in order: its own name, then numbered ones.
pub open spec fn candidate(
    name: Seq<char>,
    stem: Seq<char>,
    extension: Option<Seq<char>>,
    index: nat,
) -> Seq<char> {
    if index == 0 { name } else { numbered(stem, extension, index) }
}

/// Whether a text is in a list.
pub fn lists_text(texts: &Vec<String>, text: &str) -> (r: bool)
    ensures
        r == views(texts@).contains(text@),
{
    let mut i: usize = 0;
    while i < texts.len()
        invariant
            i <= texts@.len(),
            forall|j: int| 0 <= j < i ==> views(texts@)[j] != text@,
        decreases texts@.len() - i,
    {
        assert(views(texts@)[i as int] == texts@[i as int]@);
        if same_text(texts[i].as_str(), text) {
            return true;
        }
        i = i + 1;
    }
    false
}

/// A search for a name that is free.
#[derive(Debug, PartialEq, Eq)]
pub struct NameSearch {
    name: String,
    stem: String,
    extension: Option<String>,
    index: u32,
}

pub struct NameSearchView {
    pub name: Seq<char>,
    pub stem: Seq<char>,
    pub extension: Option<Seq<char>>,
    pub index: nat,
}

impl View for NameSearch {
    type V = NameSearchView;

    closed spec fn view(&self) -> NameSearchView {
        NameSearchView {
            name: self.name@,
            stem: self.stem@,
            extension: opt_view(self.extension),
            index: self.index as nat,
        }
    }
}

impl NameSearchView {
    /// The name that is tried at a place of the list.
    pub open spec fn at(self, index: nat) -> Seq<char> {
        candidate(self.name, self.stem, self.extension, index)
    }

    /// The name that is tried now.
    pub open spec fn current(self) -> Seq<char> {
        self.at(self.index)
    }

    /// The same search at another place.
    pub open spec fn moved_to(self, index: nat) -> NameSearchView {
        NameSearchView { index, ..self }
    }

    /// The first name from the current one on that is not in a list.
    pub open spec fn first_free(self, taken: Seq<Seq<char>>, index: nat) -> bool {
        &&& self.index <= index
        &&& !taken.contains(self.at(index))
        &&& forall|j: nat| self.index <= j < index ==> taken.contains(#[trigger] self.at(j))
    }
}

impl NameSearch {
    /// A search that begins with the name itself.
    pub fn new(name: &str) -> (r: Self)
        ensures
            begins(r@, name@),
            portable(name@) ==> r@ == own_search(name@),
    {
        let own = file_name(name);
        let ghost own_view = opt_view(own);
        let (stem, extension) = match own {
            Some(own) => split_at_dot(own.as_str()),
            None => (name.to_owned(), None),
        };
        let search = NameSearch { name: name.to_owned(), stem, extension, index: 0 };
        assert(named(name@, own_view) && search@ == search_as(name@, own_view));
        search
    }

    /// The name that is tried now.
    pub fn candidate(&self) -> (r: String)
        ensures
            r@ == self@.current(),
    {
        if self.index == 0 {
            self.name.clone()
        } else {
            numbered_name(self.stem.as_str(), &self.extension, self.index)
        }
    }

    /// Whether there is a next name.
    pub fn can_go_on(&self) -> (r: bool)
        ensures
            r == (self@.index < u32::MAX),
    {
        self.index < u32::MAX
    }

    /// The current name is taken: the next one is tried.
    pub fn taken(&mut self)
        requires
            old(self)@.index < u32::MAX,
        ensures
            final(self)@ == old(self)@.moved_to(old(self)@.index + 1),
    {
        self.index = self.index + 1;
    }

    /// Passes over the names in a list.
    pub fn skip_reserved(&mut self, reserved: &Vec<String>)
        requires
            old(self)@.index + reserved@.len() < u32::MAX,
        ensures
            exists|index: nat| #[trigger]
                old(self)@.first_free(views(reserved@), index) && final(self)@ == old(
                    self,
                )@.moved_to(index),
            final(self)@.index <= old(self)@.index + reserved@.len() + 1,
    {
        let ghost start = self@;
        let ghost taken = views(reserved@);
        while lists_text(reserved, self.candidate().as_str())
            invariant
                self@ == start.moved_to(self@.index),
                start.index <= self@.index,
                taken == views(reserved@),
                taken.len() == reserved@.len(),
                start.index + reserved@.len() < u32::MAX,
                self@.index <= start.index + reserved@.len() + 1,
                forall|j: nat|
                    start.index <= j < self@.index ==> taken.contains(#[trigger] start.at(j)),
            decreases u32::MAX - self.index,
        {
            proof {
                assert(taken.contains(start.at(self@.index)));
                lemma_not_all_taken(start, taken, self@.index);
            }
            self.index = self.index + 1;
        }
        assert(start.first_free(taken, self@.index));
    }
}

/// Different numbers are written differently.
pub proof fn lemma_decimal_is_injective(a: nat, b: nat)
    requires
        decimal(a) == decimal(b),
    ensures
        a == b,
    decreases a,
{
    lemma_last_digit(a);
    lemma_last_digit(b);
    if a >= 10 && b >= 10 {
        assert(decimal(a).drop_last() =~= decimal(a / 10));
        assert(decimal(b).drop_last() =~= decimal(b / 10));
        lemma_decimal_is_injective(a / 10, b / 10);
    } else if a >= 10 || b >= 10 {
        let big = if a >= 10 { a } else { b };
        lemma_last_digit(big / 10);
        assert(decimal(big).len() == decimal(big / 10).len() + 1);
    }
}

proof fn lemma_last_digit(n: nat)
    ensures
        decimal(n).len() >= 1,
        decimal(n).last() == crate::text::digit_char(n % 10),
{
}

/// Different numbers give different names.
pub proof fn lemma_numbered_is_injective(
    stem: Seq<char>,
    extension: Option<Seq<char>>,
    a: nat,
    b: nat,
)
    requires
        numbered(stem, extension, a) == numbered(stem, extension, b),
    ensures
        a == b,
{
    let head = stem + " (Borderless "@;
    let x = numbered(stem, extension, a);
    let y = numbered(stem, extension, b);
    let n = head.len() as int;
    assert(x.len() == y.len());
    assert(decimal(a).len() == decimal(b).len());
    assert(x.subrange(n, n + decimal(a).len()) =~= decimal(a));
    assert(y.subrange(n, n + decimal(b).len()) =~= decimal(b));
    lemma_decimal_is_injective(a, b);
}

/// Among more names than a list has entries, one is not in the list.
proof fn lemma_not_all_taken(search: NameSearchView, taken: Seq<Seq<char>>, last: nat)
    requires
        search.index <= last,
        forall|j: nat| search.index <= j <= last ==> taken.contains(#[trigger] search.at(j)),
    ensures
        last - search.index <= taken.len(),
{
    let first: nat = if search.index == 0 { 1 } else { search.index };
    let count = if last >= first { (last - first + 1) as nat } else { 0 };
    let names = Seq::new(count, |i: int| search.at((first + i) as nat));
    assert(names.no_duplicates()) by {
        assert forall|i: int, j: int|
            0 <= i < names.len() && 0 <= j < names.len() && i != j implies names[i]
            != names[j] by {
            if names[i] == names[j] {
                lemma_numbered_is_injective(
                    search.stem,
                    search.extension,
                    (first + i) as nat,
                    (first + j) as nat,
                );
            }
        }
    }
    names.unique_seq_to_set();
    taken.lemma_cardinality_of_set();
    assert(names.to_set().subset_of(taken.to_set())) by {
        assert forall|n: Seq<char>| names.to_set().contains(n) implies taken.to_set().contains(
            n,
        ) by {
            let i = choose|i: int| 0 <= i < names.len() && names[i] == n;
            assert(taken.contains(search.at((first + i) as nat)));
        }
    }
    vstd::set_lib::lemma_len_subset(names.to_set(), taken.to_set());
}

/// A name for a source that is not used by another one: its own name, or the first
/// numbered one that is free. It is used from then on.
pub fn unique_relative_root(source_name: &str, used_roots: &mut Vec<String>) -> (r: String)
    requires
        old(used_roots)@.len() < u32::MAX,
    ensures
        views(final(used_roots)@) == views(old(used_roots)@).push(r@),
        !views(old(used_roots)@).contains(r@),
        !views(old(used_roots)@).contains(source_name@) ==> r@ == source_name@,
        first_free_name(source_name@, views(old(used_roots)@), r@),
{
    let mut search = NameSearch::new(source_name);
    let ghost start = search@;
    search.skip_reserved(used_roots);
    let name = search.candidate();
    proof {
        let index = choose|index: nat| #[trigger]
            start.first_free(views(used_roots@), index) && search@ == start.moved_to(index);
        if !views(used_roots@).contains(source_name@) && index > 0 {
            assert(views(used_roots@).contains(start.at(0)));
        }
        assert(begins(start, source_name@) && start.first_free(views(used_roots@), index));
    }
    used_roots.push(name.clone());
    name
}

/// The parts of a path between its separators.
pub open spec fn pieces(path: Seq<char>) -> Seq<Seq<char>>
    decreases path.len(),
{
    if path.len() == 0 {
        seq![Seq::empty()]
    } else {
        let before = pieces(path.drop_last());
        if separates(path.last()) {
            before.push(Seq::empty())
        } else {
            before.drop_last().push(before.last().push(path.last()))
        }
    }
}

/// A path that begins at a root or a drive, or a part of which leads up.
pub open spec fn climbs(path: Seq<char>) -> bool {
    ||| path.len() > 0 && separates(path[0])
    ||| has_drive(path)
    ||| pieces(path).contains(".."@)
}

/// The parts of a path that name something.
pub open spec fn components(path: Seq<char>) -> Seq<Seq<char>> {
    pieces(path).filter(|p: Seq<char>| names_something(p))
}

/// A path that goes to a drive on its way: a component that begins with a drive takes the
/// place of all that stands before it.
pub open spec fn changes_drive(path: Seq<char>) -> bool {
    exists|i: int| 0 <= i < components(path).len() && has_drive(#[trigger] components(path)[i])
}

/// The components of a relative path, or why it cannot be used.
pub open spec fn safe_components(path: Seq<char>) -> Result<Seq<Seq<char>>, Seq<char>> {
    if climbs(path) {
        Err("unsafe relative path: "@ + path)
    } else if components(path).len() == 0 {
        Err("empty relative path"@)
    } else if changes_drive(path) {
        Err("relative path has no top-level component: "@ + path)
    } else {
        Ok(components(path))
    }
}

/// The view of texts or of an error.
pub open spec fn texts_view(r: Result<Vec<String>, String>) -> Result<Seq<Seq<char>>, Seq<char>> {
    match r {
        Ok(texts) => Ok(views(texts@)),
        Err(error) => Err(error@),
    }
}

/// The view of a text or of an error.
pub open spec fn text_view(r: Result<String, String>) -> Result<Seq<char>, Seq<char>> {
    match r {
        Ok(text) => Ok(text@),
        Err(error) => Err(error@),
    }
}

/// Splits a path at its separators.
fn split_path(path: &str) -> (r: Vec<String>)
    ensures
        views(r@) == pieces(path@),
{
    let length: usize = path.unicode_len();
    let mut found: Vec<String> = Vec::new();
    let mut start: usize = 0;
    let mut i: usize = 0;
    proof {
        assert(path@.take(0) =~= Seq::<char>::empty());
        assert(path@.subrange(0, 0) =~= Seq::<char>::empty());
        assert(pieces(path@.take(0)) =~= views(found@).push(path@.subrange(0, 0)));
    }
    while i < length
        invariant
            length == path@.len(),
            start <= i <= length,
            pieces(path@.take(i as int)) == views(found@).push(
                path@.subrange(start as int, i as int),
            ),
        decreases length - i,
    {
        let c = path.get_char(i);
        let ghost before = pieces(path@.take(i as int));
        let ghost had = found@;
        proof {
            assert(path@.take(i as int + 1).drop_last() =~= path@.take(i as int));
            assert(path@.take(i as int + 1).last() == c);
        }
        if c == '/' || c == '\\' {
            let piece = path.substring_char(start, i);
            found.push(piece.to_owned());
            start = i + 1;
            proof {
                assert(views(found@) =~= before);
                assert(path@.subrange(start as int, i as int + 1) =~= Seq::<char>::empty());
            }
        } else {
            proof {
                assert(before.drop_last() =~= views(found@));
                assert(before.last() == path@.subrange(start as int, i as int));
                assert(path@.subrange(start as int, i as int + 1) =~= path@.subrange(
                    start as int,
                    i as int,
                ).push(c));
            }
        }
        i = i + 1;
    }
    let piece = path.substring_char(start, length);
    found.push(piece.to_owned());
    assert(path@.take(length as int) =~= path@);
    found
}

/// Whether a text begins with a drive.
fn begins_with_drive(text: &str) -> (r: bool)
    ensures
        r == has_drive(text@),
{
    if text.unicode_len() < 2 {
        return false;
    }
    let first = text.get_char(0);
    text.get_char(1) == ':' && (('a' <= first && first <= 'z') || ('A' <= first && first <= 'Z'))
}

/// Reads a relative path. It is taken apart at slashes and backslashes; what leads out
/// of its directory is refused: a root, a drive in any place, or a part that leads up.
pub fn safe_relative_path(relative_path: &str) -> (r: Result<Vec<String>, String>)
    ensures
        texts_view(r) == safe_components(relative_path@),
{
    let length: usize = relative_path.unicode_len();
    let mut refused = begins_with_drive(relative_path);
    if length > 0 {
        let first = relative_path.get_char(0);
        if first == '/' || first == '\\' {
            refused = true;
        }
    }
    let parts = split_path(relative_path);
    if refused || lists_text(&parts, "..") {
        return Err(join2("unsafe relative path: ", relative_path));
    }
    let ghost p = |p: Seq<char>| names_something(p);
    let mut kept: Vec<String> = Vec::new();
    let mut i: usize = 0;
    proof {
        reveal(Seq::filter);
        assert(views(parts@).take(0) =~= Seq::<Seq<char>>::empty());
        assert(views(kept@) =~= Seq::<Seq<char>>::empty());
    }
    while i < parts.len()
        invariant
            i <= parts@.len(),
            p == (|p: Seq<char>| names_something(p)),
            views(kept@) == views(parts@).take(i as int).filter(p),
        decreases parts@.len() - i,
    {
        proof {
            crate::lists::lemma_filter_step(views(parts@), p, i as int);
        }
        if parts[i].as_str().unicode_len() > 0 && !same_text(parts[i].as_str(), ".") {
            kept.push(parts[i].clone());
        }
        i = i + 1;
    }
    assert(views(parts@).take(parts@.len() as int) =~= views(parts@));
    if kept.len() == 0 {
        return Err("empty relative path".to_owned());
    }
    assert(views(kept@) == components(relative_path@));
    let mut k: usize = 0;
    while k < kept.len()
        invariant
            k <= kept@.len(),
            views(kept@) == components(relative_path@),
            !climbs(relative_path@),
            kept@.len() > 0,
            forall|j: int| 0 <= j < k ==> !has_drive(#[trigger] components(relative_path@)[j]),
        decreases kept@.len() - k,
    {
        assert(components(relative_path@)[k as int] == kept@[k as int]@);
        if begins_with_drive(kept[k].as_str()) {
            return Err(join2("relative path has no top-level component: ", relative_path));
        }
        k = k + 1;
    }
    assert(components(relative_path@).len() == kept@.len());
    Ok(kept)
}

/// The first component of a relative path.
pub open spec fn top_level(path: Seq<char>) -> Result<Seq<char>, Seq<char>> {
    match safe_components(path) {
        Ok(parts) => Ok(parts[0]),
        Err(error) => Err(error),
    }
}

pub fn top_level_component(relative_path: &str) -> (r: Result<String, String>)
    ensures
        text_view(r) == top_level(relative_path@),
{
    match safe_relative_path(relative_path) {
        Ok(parts) => Ok(parts[0].clone()),
        Err(error) => Err(error),
    }
}

/// The first components of the paths of files, each once, in order; or why a path
/// cannot be used.
pub open spec fn roots_of(files: Seq<FileManifestEntryView>) -> Result<Seq<Seq<char>>, Seq<char>>
    decreases files.len(),
{
    if files.len() == 0 {
        Ok(Seq::empty())
    } else {
        match roots_of(files.drop_last()) {
            Err(error) => Err(error),
            Ok(roots) => match top_level(files.last().relative_path) {
                Err(error) => Err(error),
                Ok(root) => if roots.contains(root) { Ok(roots) } else { Ok(roots.push(root)) },
            },
        }
    }
}

/// A path that cannot be used among the first files is found first.
proof fn lemma_roots_error_stays(files: Seq<FileManifestEntryView>, n: int)
    requires
        0 <= n <= files.len(),
        roots_of(files.take(n)) is Err,
    ensures
        roots_of(files) == roots_of(files.take(n)),
    decreases files.len() - n,
{
    if n == files.len() {
        assert(files.take(n) =~= files);
    } else {
        assert(files.take(n + 1).drop_last() =~= files.take(n));
        lemma_roots_error_stays(files, n + 1);
    }
}

pub fn top_level_relative_paths(files: &Vec<FileManifestEntry>) -> (r: Result<Vec<String>, String>)
    ensures
        texts_view(r) == roots_of(views(files@)),
{
    let ghost all = views(files@);
    let mut roots: Vec<String> = Vec::new();
    let mut i: usize = 0;
    assert(all.take(0) =~= Seq::<FileManifestEntryView>::empty());
    assert(views(roots@) =~= Seq::<Seq<char>>::empty());
    while i < files.len()
        invariant
            i <= files@.len(),
            all == views(files@),
            roots_of(all.take(i as int)) == Ok::<Seq<Seq<char>>, Seq<char>>(views(roots@)),
        decreases files@.len() - i,
    {
        proof {
            assert(all.take(i as int + 1).drop_last() =~= all.take(i as int));
            assert(all.take(i as int + 1).last() == files@[i as int]@);
        }
        match top_level_component(files[i].relative_path.as_str()) {
            Ok(root) => {
                if !lists_text(&roots, root.as_str()) {
                    roots.push(root);
                }
            },
            Err(error) => {
                proof {
                    lemma_roots_error_stays(all, i as int + 1);
                }
                return Err(error);
            },
        }
        i = i + 1;
    }
    assert(all.take(all.len() as int) =~= all);
    Ok(roots)
}

/// The name of the file while it is being received.
pub fn temp_part_name(file_name: &str) -> (r: String)
    ensures
        r@ == file_name@ + ".borderless-part"@,
{
    join2(file_name, ".borderless-part")
}

/// A path with slashes for backslashes.
pub open spec fn slashed(path: Seq<char>) -> Seq<char> {
    path.map_values(|c: char| if c == '\\' { '/' } else { c })
}

/// Writes a path with slashes for backslashes.
pub fn with_slashes(path: &str) -> (r: String)
    ensures
        r@ == slashed(path@),
{
    let length: usize = path.unicode_len();
    let mut out = "".to_owned();
    let mut start: usize = 0;
    let mut i: usize = 0;
    proof {
        reveal_strlit("");
        reveal_strlit("/");
        assert(out@ =~= slashed(path@).take(0));
    }
    while i < length
        invariant
            length == path@.len(),
            start <= i <= length,
            out@ == slashed(path@).take(start as int),
            forall|j: int| start <= j < i ==> path@[j] != '\\',
            "/"@ == seq!['/'],
        decreases length - i,
    {
        if path.get_char(i) == '\\' {
            let piece = path.substring_char(start, i);
            out.append(piece);
            out.append("/");
            assert(out@ =~= slashed(path@).take(i as int + 1));
            start = i + 1;
        }
        i = i + 1;
    }
    let piece = path.substring_char(start, length);
    out.append(piece);
    assert(out@ =~= slashed(path@));
    out
}

/// The name of a transfer: that of its only source, if it has one, or a general one.
pub open spec fn root_name(count: nat, name: Option<Seq<char>>) -> Seq<char> {
    if count == 1 && name is Some && name->0.len() > 0 {
        name->0
    } else {
        "clipboard-files"@
    }
}

/// The name of a transfer, from the number of its sources and the name of the first.
pub fn transfer_name(count: usize, name: Option<String>) -> (r: String)
    ensures
        r@ == root_name(count as nat, opt_view(name)),
{
    if count == 1 {
        match name {
            Some(name) => {
                if name.as_str().unicode_len() > 0 {
                    return name;
                }
            },
            None => {},
        }
    }
    "clipboard-files".to_owned()
}

/// The name of a transfer.
pub fn transfer_root_name(source_paths: &Vec<String>) -> (r: String)
    ensures
        source_paths@.len() != 1 ==> r@ == "clipboard-files"@,
        source_paths@.len() == 1 ==> exists|name: Option<Seq<char>>| #[trigger]
            named(source_paths@[0]@, name) && r@ == root_name(1, name),
{
    if source_paths.len() == 1 {
        let name = file_name(source_paths[0].as_str());
        assert(named(source_paths@[0]@, opt_view(name)));
        transfer_name(1, name)
    } else {
        transfer_name(source_paths.len(), None)
    }
}

/// The file name of a portable path is a single component: it is its own file name, on
/// every system.
pub proof fn law_file_names_are_single_components(path: Seq<char>)
    requires
        portable(path),
        last_part(path) is Some,
    ensures
        plain(last_part(path)->0),
        portable(last_part(path)->0),
        last_part(last_part(path)->0) == last_part(path),
{
    let p = |part: Seq<char>| names_something(part);
    let parts = slash_parts(path).filter(p);
    let name = parts.last();
    slash_parts(path).lemma_filter_pred(p, parts.len() - 1);
    slash_parts(path).lemma_filter_contains_rev(p, name);
    let k = choose|k: int| 0 <= k < slash_parts(path).len() && slash_parts(path)[k] == name;
    lemma_slash_parts(path, k);
    assert forall|j: int| 0 <= j < name.len() implies name[j] != '\\' && name[j] != ':' by {
        assert(path.contains(name[j]));
    }
    assert(plain(name));
    law_plain_names_are_file_names(name);
}

/// A name that is a single component is its own file name.
pub proof fn law_plain_names_are_file_names(name: Seq<char>)
    requires
        plain(name),
    ensures
        portable(name),
        last_part(name) == Some(name),
{
    assert forall|j: int| 0 <= j < name.len() implies !separates(#[trigger] name[j]) by {
        assert(name.contains(name[j]));
    }
    assert(name.len() >= 2 ==> name.contains(name[1]));
    law_components_are_file_names(name, own_search(name));
}

proof fn lemma_single_part(name: Seq<char>)
    requires
        !name.contains('/'),
    ensures
        slash_parts(name) == seq![name],
    decreases name.len(),
{
    if name.len() > 0 {
        let shorter = name.drop_last();
        assert forall|j: int| 0 <= j < shorter.len() implies shorter[j] != '/' by {
            assert(name.contains(name[j]));
        }
        lemma_single_part(shorter);
        assert(name.contains(name.last()));
        assert(shorter.push(name.last()) =~= name);
        assert(slash_parts(name) =~= seq![name]);
    } else {
        assert(name =~= Seq::<char>::empty());
    }
}

proof fn lemma_slash_parts(path: Seq<char>, k: int)
    requires
        0 <= k < slash_parts(path).len(),
    ensures
        slash_parts(path).len() > 0,
        forall|j: int|
            0 <= j < slash_parts(path)[k].len() ==> (#[trigger] slash_parts(path)[k][j]) != '/'
                && path.contains(slash_parts(path)[k][j]),
    decreases path.len(),
{
    if path.len() > 0 {
        let shorter = path.drop_last();
        let before = slash_parts(shorter);
        lemma_slash_parts_exist(shorter);
        let part = slash_parts(path)[k];
        let place = if k < before.len() { k } else { before.len() - 1 };
        lemma_slash_parts(shorter, place);
        assert forall|j: int| 0 <= j < part.len() implies (#[trigger] part[j]) != '/'
            && path.contains(part[j]) by {
            if path.last() != '/' && k == before.len() - 1 {
                if j < before.last().len() {
                    assert(before.last()[j] == part[j]);
                    let i = choose|i: int| 0 <= i < shorter.len() && shorter[i] == part[j];
                    assert(path[i] == part[j]);
                } else {
                    assert(path[path.len() - 1] == part[j]);
                }
            } else {
                assert(part == before[k]);
                let i = choose|i: int| 0 <= i < shorter.len() && shorter[i] == part[j];
                assert(path[i] == part[j]);
            }
        }
    }
}

proof fn lemma_slash_parts_exist(path: Seq<char>)
    ensures
        slash_parts(path).len() > 0,
    decreases path.len(),
{
    if path.len() > 0 {
        lemma_slash_parts_exist(path.drop_last());
    }
}

/// A component that leads from a directory to something in it.
pub open spec fn goes_down(part: Seq<char>) -> bool {
    &&& names_something(part)
    &&& part != ".."@
    &&& !has_drive(part)
    &&& forall|j: int| 0 <= j < part.len() ==> !separates(#[trigger] part[j])
}

/// A relative path that is accepted names something inside its directory: it begins
/// neither at a root nor at a drive, it has a component, and none of its components leads
/// up or goes to a drive.
pub proof fn law_safe_paths_stay_inside(path: Seq<char>, i: int)
    requires
        safe_components(path) is Ok,
        0 <= i < safe_components(path)->Ok_0.len(),
    ensures
        !climbs(path),
        goes_down(safe_components(path)->Ok_0[i]),
{
    let p = |p: Seq<char>| names_something(p);
    let parts = components(path);
    pieces(path).lemma_filter_pred(p, i);
    pieces(path).lemma_filter_contains_rev(p, parts[i]);
    let k = choose|k: int| 0 <= k < pieces(path).len() && pieces(path)[k] == parts[i];
    lemma_pieces_hold_no_separator(path, k);
}

/// The roots of an announced transfer lead down from the cache directory.
pub proof fn law_roots_lead_down(files: Seq<FileManifestEntryView>)
    requires
        roots_of(files) is Ok,
    ensures
        forall|i: int|
            0 <= i < roots_of(files)->Ok_0.len() ==> goes_down(#[trigger] roots_of(files)->Ok_0[i]),
    decreases files.len(),
{
    if files.len() > 0 {
        law_roots_lead_down(files.drop_last());
        law_safe_paths_stay_inside(files.last().relative_path, 0);
    }
}

/// A component that leads down is its own file name, on every system; so there is one
/// list of names to try for it.
pub proof fn law_components_are_file_names(name: Seq<char>, search: NameSearchView)
    requires
        goes_down(name),
    ensures
        last_part(name) == Some(name),
        begins(search, name) <==> search == own_search(name),
{
    reveal(Seq::filter);
    if name.contains('/') {
        let k = choose|k: int| 0 <= k < name.len() && name[k] == '/';
        assert(separates(name[k]));
    }
    lemma_single_part(name);
    let p = |part: Seq<char>| names_something(part);
    let parts = seq![name];
    assert(parts.drop_last() =~= Seq::<Seq<char>>::empty());
    assert(parts.filter(p) =~= parts);
    assert(last_part(name) == Some(name));
    assert forall|j: int| 0 <= j < name.len() implies slashed(name)[j] == name[j] by {
        assert(!separates(name[j]));
    }
    assert(slashed(name) =~= name);
    assert(!separates(name[0]));
    assert(named(name, Some(name)));
}

/// What is received stays in the cache directory: every name that is tried there for a
/// component that leads down leads down itself.
pub proof fn law_cache_names_lead_down(name: Seq<char>, search: NameSearchView, index: nat)
    requires
        goes_down(name),
        begins(search, name),
    ensures
        goes_down(search.at(index)),
{
    law_components_are_file_names(name, search);
    reveal_strlit(" (Borderless ");
    reveal_strlit(")");
    reveal_strlit(".");
    reveal_strlit("..");
    let tried = search.at(index);
    if index > 0 {
        lemma_last_dot(name);
        lemma_digits_do_not_separate(index);
        let stem = stem_of(name);
        assert(stem.len() > 0);
        assert forall|j: int| 0 <= j < tried.len() implies !separates(#[trigger] tried[j]) by {
            let n = stem.len() as int;
            let d = decimal(index).len() as int;
            if j < n {
                assert(tried[j] == name[j]);
            } else if n + 13 <= j < n + 13 + d {
                assert(tried[j] == decimal(index)[j - n - 13]);
            } else if j >= n + 13 + d + 2 {
                let e = extension_of(name)->0;
                assert(tried[j] == e[j - (n + 13 + d + 2)]);
                assert(tried[j] == name[n + 1 + j - (n + 13 + d + 2)]);
            }
        }
        if stem.len() >= 2 {
            assert(tried[0] == name[0] && tried[1] == name[1]);
        } else {
            assert(tried[1] == ' ');
        }
    }
}

proof fn lemma_last_dot(name: Seq<char>)
    ensures
        last_dot(name) matches Some(i) ==> 0 <= i < name.len() && name[i] == '.',
    decreases name.len(),
{
    if name.len() > 0 && name.last() != '.' {
        lemma_last_dot(name.drop_last());
    }
}

proof fn lemma_digits_do_not_separate(n: nat)
    ensures
        forall|j: int| 0 <= j < decimal(n).len() ==> !separates(#[trigger] decimal(n)[j]),
    decreases n,
{
    if n >= 10 {
        let before = decimal(n / 10);
        lemma_digits_do_not_separate(n / 10);
        assert forall|j: int| 0 <= j < decimal(n).len() implies !separates(
            #[trigger] decimal(n)[j],
        ) by {
            if j < before.len() {
                assert(decimal(n)[j] == before[j]);
            }
        }
    }
}

proof fn lemma_pieces_hold_no_separator(path: Seq<char>, k: int)
    requires
        0 <= k < pieces(path).len(),
    ensures
        forall|j: int| 0 <= j < pieces(path)[k].len() ==> !separates(#[trigger] pieces(path)[k][j]),
    decreases path.len(),
{
    lemma_pieces_exist(path);
    if path.len() > 0 {
        let before = pieces(path.drop_last());
        lemma_pieces_exist(path.drop_last());
        if k < before.len() - 1 || (separates(path.last()) && k < before.len()) {
            lemma_pieces_hold_no_separator(path.drop_last(), k);
        } else if !separates(path.last()) {
            lemma_pieces_hold_no_separator(path.drop_last(), before.len() - 1);
        }
    }
}

proof fn lemma_pieces_exist(path: Seq<char>)
    ensures
        pieces(path).len() > 0,
    decreases path.len(),
{
    if path.len() > 0 {
        lemma_pieces_exist(path.drop_last());
    }
}

/// Numbered names of a file never meet: two different numbers give two different
/// names.
pub proof fn law_numbered_names_differ(name: Seq<char>, a: nat, b: nat)
    requires
        a != b,
    ensures
        renamed(name, a) != renamed(name, b),
{
    if renamed(name, a) == renamed(name, b) {
        lemma_numbered_is_injective(own_search(name).stem, own_search(name).extension, a, b);
    }
}

/// Paths are taken apart at separators, wherever they stand: the parts of two paths with a
/// separator between them are those of the first and those of the second.
pub proof fn law_paths_are_taken_apart_at_separators(a: Seq<char>, b: Seq<char>, separator: char)
    ensures
        separates(separator) ==> pieces(a.push(separator) + b) == pieces(a) + pieces(b),
        slash_parts(a.push('/') + b) == slash_parts(a) + slash_parts(b),
        pieces(a).len() > 0 && slash_parts(a).len() > 0,
        pieces(Seq::<char>::empty()) == seq![Seq::<char>::empty()],
        separates('/') && separates('\\'),
    decreases b.len(), a.len(),
{
    let whole = a.push(separator) + b;
    let slashed_whole = a.push('/') + b;
    lemma_has_parts(a);
    lemma_has_parts(b);
    if b.len() == 0 {
        assert(whole =~= a.push(separator));
        assert(whole.drop_last() =~= a);
        assert(slashed_whole =~= a.push('/'));
        assert(slashed_whole.drop_last() =~= a);
        if separates(separator) {
            assert(pieces(whole) =~= pieces(a) + pieces(b));
        }
        assert(slash_parts(slashed_whole) =~= slash_parts(a) + slash_parts(b));
    } else {
        law_paths_are_taken_apart_at_separators(a, b.drop_last(), separator);
        lemma_has_parts(b.drop_last());
        assert(whole.drop_last() =~= a.push(separator) + b.drop_last());
        assert(slashed_whole.drop_last() =~= a.push('/') + b.drop_last());
        if separates(separator) {
            assert(pieces(whole) =~= pieces(a) + pieces(b));
        }
        assert(slash_parts(slashed_whole) =~= slash_parts(a) + slash_parts(b));
    }
}

proof fn lemma_has_parts(a: Seq<char>)
    ensures
        pieces(a).len() > 0,
        slash_parts(a).len() > 0,
    decreases a.len(),
{
    if a.len() > 0 {
        lemma_has_parts(a.drop_last());
    }
}

/// A name is made of its stem, a dot and its extension; the extension holds no dot. A
/// number comes between the two, and a name without an extension is numbered at its end.
pub proof fn law_numbers_come_before_the_extension(name: Seq<char>, index: nat)
    ensures
        ({
            let mark = " (Borderless "@ + decimal(index) + ")"@;
            match extension_of(name) {
                Some(extension) => {
                    &&& name == stem_of(name) + seq!['.'] + extension
                    &&& stem_of(name).len() > 0
                    &&& !extension.contains('.')
                    &&& extension.len() > 0 ==> numbered(
                        stem_of(name),
                        Some(extension),
                        index,
                    ) == stem_of(name) + mark + "."@ + extension
                },
                None => {
                    &&& stem_of(name) == name
                    &&& forall|i: int| 0 < i < name.len() ==> #[trigger] name[i] != '.'
                    &&& numbered(stem_of(name), None, index) == name + mark
                },
            }
        }),
{
    lemma_dots(name);
    let mark = " (Borderless "@ + decimal(index) + ")"@;
    match extension_of(name) {
        Some(extension) => {
            let i = last_dot(name)->0;
            assert(name =~= name.take(i) + seq!['.'] + name.skip(i + 1));
            if extension.contains('.') {
                let k = choose|k: int| 0 <= k < extension.len() && extension[k] == '.';
                assert(name[i + 1 + k] == '.');
            }
            assert(numbered(stem_of(name), Some(extension), index) =~= if extension.len() > 0 {
                stem_of(name) + mark + "."@ + extension
            } else {
                stem_of(name) + mark
            });
        },
        None => {
            assert(numbered(stem_of(name), None, index) =~= name + mark);
        },
    }
}

proof fn lemma_dots(name: Seq<char>)
    ensures
        match last_dot(name) {
            Some(i) => 0 <= i < name.len() && name[i] == '.' && forall|k: int|
                i < k < name.len() ==> #[trigger] name[k] != '.',
            None => forall|k: int| 0 <= k < name.len() ==> #[trigger] name[k] != '.',
        },
    decreases name.len(),
{
    if name.len() > 0 {
        lemma_dots(name.drop_last());
        let front = name.drop_last();
        assert(forall|k: int| 0 <= k < front.len() ==> #[trigger] name[k] == front[k]);
    }
}

/// The names that are tried for a file are its own name first and then the numbered ones,
/// counted up from one.
pub proof fn law_own_names_are_tried_first(search: NameSearchView, taken: Seq<Seq<char>>)
    ensures
        search.at(0) == search.name,
        search.at(1) == numbered(search.stem, search.extension, 1),
        search.index == 0 && !taken.contains(search.name) ==> search.first_free(taken, 0),
        search.index == 0 && taken.contains(search.name) ==> !search.first_free(taken, 0),
        search.index == 0 && taken.contains(search.name) && !taken.contains(search.at(1))
            ==> search.first_free(taken, 1),
{
    if search.index == 0 && taken.contains(search.name) && !taken.contains(search.at(1)) {
        assert forall|j: nat| search.index <= j < 1 implies taken.contains(
            #[trigger] search.at(j),
        ) by {
            assert(j == 0);
        }
    }
}

} // verus!
