//! The files that a transfer sends: sources on disk become entries with relative
//! paths.
use crate::clipboard::at_most_u64;
use crate::file_transfer::{
    FileManifestEntry, FileManifestEntryView, FileTransferManifest, FileTransferManifestView,
};
use crate::paths::{
    file_name, first_free_name, last_part, law_file_names_are_single_components, named, own_search,
    portable, root_name, slashed, transfer_root_name, unique_relative_root, with_slashes,
};
use crate::text::{join2, join3, views};
use vstd::prelude::*;

verus! {

broadcast use {crate::text::lemma_views_push, crate::text::lemma_views_add};

/// What something on disk is.
#[derive(Clone, Copy, Debug, PartialEq, Eq, Structural)]
pub enum SourceKind {
    File,
    Directory,
    Other,
}

/// Something below a source directory, by its path from there.
#[derive(Debug, PartialEq, Eq)]
pub struct SourceChild {
    pub child_path: String,
    pub path: String,
    pub kind: SourceKind,
    pub size_bytes: u64,
}

pub struct ChildView {
    pub child_path: Seq<char>,
    pub path: Seq<char>,
    pub kind: SourceKind,
    pub size_bytes: u64,
}

impl View for SourceChild {
    type V = ChildView;

    open spec fn view(&self) -> ChildView {
        ChildView {
            child_path: self.child_path@,
            path: self.path@,
            kind: self.kind,
            size_bytes: self.size_bytes,
        }
    }
}

/// A source: a file, or a directory with everything below it.
#[derive(Debug, PartialEq, Eq)]
pub struct SourceTree {
    pub path: String,
    pub is_dir: bool,
    pub size_bytes: u64,
    pub children: Vec<SourceChild>,
}

pub struct TreeView {
    pub path: Seq<char>,
    pub is_dir: bool,
    pub size_bytes: u64,
    pub children: Seq<ChildView>,
}

impl View for SourceTree {
    type V = TreeView;

    open spec fn view(&self) -> TreeView {
        TreeView {
            path: self.path@,
            is_dir: self.is_dir,
            size_bytes: self.size_bytes,
            children: views(self.children@),
        }
    }
}

/// A file that is sent.
#[derive(Debug, PartialEq, Eq)]
pub struct SourceFile {
    pub relative_path: String,
    pub path: String,
    pub size_bytes: u64,
}

pub struct SourceFileView {
    pub relative_path: Seq<char>,
    pub path: Seq<char>,
    pub size_bytes: u64,
}

impl View for SourceFile {
    type V = SourceFileView;

    open spec fn view(&self) -> SourceFileView {
        SourceFileView {
            relative_path: self.relative_path@,
            path: self.path@,
            size_bytes: self.size_bytes,
        }
    }
}

/// Roots for names: each is the first name of its list that no earlier root has.
pub open spec fn roots_for(names: Seq<Seq<char>>, roots: Seq<Seq<char>>) -> bool {
    &&& roots.len() == names.len()
    &&& forall|i: int|
        0 <= i < roots.len() ==> {
            let earlier = #[trigger] roots.take(i);
            &&& !earlier.contains(roots[i])
            &&& !earlier.contains(names[i]) ==> roots[i] == names[i]
            &&& first_free_name(names[i], earlier, roots[i])
        }
}

proof fn lemma_roots_grow(names: Seq<Seq<char>>, roots: Seq<Seq<char>>, n: int, next: Seq<char>)
    requires
        0 <= n < names.len(),
        roots_for(names.take(n), roots),
        !roots.contains(next),
        !roots.contains(names[n]) ==> next == names[n],
        first_free_name(names[n], roots, next),
    ensures
        roots_for(names.take(n + 1), roots.push(next)),
{
    let longer = roots.push(next);
    assert forall|i: int| 0 <= i < longer.len() implies {
        let earlier = #[trigger] longer.take(i);
        &&& !earlier.contains(longer[i])
        &&& !earlier.contains(names.take(n + 1)[i]) ==> longer[i] == names.take(n + 1)[i]
        &&& first_free_name(names.take(n + 1)[i], earlier, longer[i])
    } by {
        if i < n {
            assert(longer.take(i) =~= roots.take(i));
            assert(names.take(n)[i] == names.take(n + 1)[i]);
        } else {
            assert(longer.take(i) =~= roots);
        }
    }
}

/// Finds a root for each name.
pub fn unique_roots(names: &Vec<String>) -> (r: Vec<String>)
    requires
        names@.len() < u32::MAX,
    ensures
        roots_for(views(names@), views(r@)),
{
    let ghost all = views(names@);
    let mut roots: Vec<String> = Vec::new();
    let mut i: usize = 0;
    assert(views(roots@) =~= Seq::<Seq<char>>::empty());
    while i < names.len()
        invariant
            i <= names@.len(),
            names@.len() < u32::MAX,
            all == views(names@),
            roots@.len() == i,
            roots_for(all.take(i as int), views(roots@)),
        decreases names@.len() - i,
    {
        let ghost before = views(roots@);
        let root = unique_relative_root(names[i].as_str(), &mut roots);
        proof {
            assert(all[i as int] == names@[i as int]@);
            lemma_roots_grow(all, before, i as int, root@);
            assert(views(roots@).len() == roots@.len());
        }
        i = i + 1;
    }
    assert(all.take(all.len() as int) =~= all);
    roots
}

/// Names for source paths: each is the file name of its path.
pub open spec fn names_of(source_paths: Seq<Seq<char>>, names: Seq<Seq<char>>) -> bool {
    &&& names.len() == source_paths.len()
    &&& forall|i: int| 0 <= i < names.len() ==> #[trigger] named(source_paths[i], Some(names[i]))
}

/// The text that a source path without a file name is answered with, if every path
/// before it has one.
pub open spec fn nameless(source_paths: Seq<Seq<char>>, error: Seq<char>) -> bool {
    exists|i: int, names: Seq<Seq<char>>|
        0 <= i < source_paths.len() && #[trigger] names_of(source_paths.take(i), names)
            && named(source_paths[i], None) && error == "source path has no name: "@
            + source_paths[i]
}

/// Roots that belong to source paths: each source travels under its file name, or under
/// a numbered one where that is taken.
pub open spec fn rooted(source_paths: Seq<Seq<char>>, roots: Seq<Seq<char>>) -> bool {
    exists|names: Seq<Seq<char>>| #[trigger]
        names_of(source_paths, names) && roots_for(names, roots)
}

/// Finds a root for each source path: its file name, or a numbered one.
pub fn source_roots(source_paths: &Vec<String>) -> (r: Result<Vec<String>, String>)
    requires
        source_paths@.len() < u32::MAX,
    ensures
        match r {
            Ok(roots) => {
                &&& roots@.len() == source_paths@.len()
                &&& views(roots@).no_duplicates()
                &&& rooted(views(source_paths@), views(roots@))
            },
            Err(error) => nameless(views(source_paths@), error@),
        },
{
    let ghost paths = views(source_paths@);
    let mut names: Vec<String> = Vec::new();
    let mut i: usize = 0;
    while i < source_paths.len()
        invariant
            i <= source_paths@.len(),
            paths == views(source_paths@),
            names_of(paths.take(i as int), views(names@)),
        decreases source_paths@.len() - i,
    {
        let ghost before = views(names@);
        assert(paths[i as int] == source_paths@[i as int]@);
        match file_name(source_paths[i].as_str()) {
            Some(name) => {
                names.push(name);
                proof {
                    let longer = views(names@);
                    assert forall|j: int| 0 <= j < longer.len() implies #[trigger] named(
                        paths.take(i as int + 1)[j],
                        Some(longer[j]),
                    ) by {
                        if j < i {
                            assert(named(paths.take(i as int)[j], Some(before[j])));
                        }
                    }
                }
            },
            None => {
                assert(names_of(paths.take(i as int), before));
                return Err(join2("source path has no name: ", source_paths[i].as_str()));
            },
        }
        i = i + 1;
    }
    assert(paths.take(paths.len() as int) =~= paths);
    assert(views(names@).len() == names@.len());
    let roots = unique_roots(&names);
    proof {
        lemma_roots_are_distinct(views(names@), views(roots@));
        assert(views(roots@).len() == roots@.len());
        assert(names_of(paths, views(names@)));
    }
    Ok(roots)
}

proof fn lemma_roots_are_distinct(names: Seq<Seq<char>>, roots: Seq<Seq<char>>)
    requires
        roots_for(names, roots),
    ensures
        roots.no_duplicates(),
{
    assert forall|i: int, j: int| 0 <= i < roots.len() && 0 <= j < roots.len() && i != j implies
    roots[i] != roots[j] by {
        let (a, b) = if i < j { (i, j) } else { (j, i) };
        assert(roots.take(b)[a] == roots[a]);
        assert(!roots.take(b).contains(roots[b]));
    }
}

/// The relative path of something below a root.
pub open spec fn below(root: Seq<char>, child_path: Seq<char>) -> Seq<char> {
    root + "/"@ + slashed(child_path)
}

fn path_below(root: &str, child_path: &str) -> (r: String)
    ensures
        r@ == below(root@, child_path@),
{
    let slashed_path = with_slashes(child_path);
    join3(root, "/", slashed_path.as_str())
}

/// The entry of a directory.
pub open spec fn directory_entry(path: Seq<char>) -> FileManifestEntryView {
    FileManifestEntryView { relative_path: path, size_bytes: 0, is_dir: true, blake3_hex: None }
}

/// The entry of a file.
pub open spec fn file_entry(path: Seq<char>, size_bytes: u64) -> FileManifestEntryView {
    FileManifestEntryView { relative_path: path, size_bytes, is_dir: false, blake3_hex: None }
}

/// The entries of what is below a root.
pub open spec fn child_entries(root: Seq<char>, children: Seq<ChildView>) -> Seq<
    FileManifestEntryView,
>
    decreases children.len(),
{
    if children.len() == 0 {
        Seq::empty()
    } else {
        let earlier = child_entries(root, children.drop_last());
        let child = children.last();
        match child.kind {
            SourceKind::Directory => earlier.push(directory_entry(below(root, child.child_path))),
            SourceKind::File => earlier.push(
                file_entry(below(root, child.child_path), child.size_bytes),
            ),
            SourceKind::Other => earlier,
        }
    }
}

/// The entries of sources: a directory and all that is below it, or a file.
pub open spec fn all_entries(roots: Seq<Seq<char>>, trees: Seq<TreeView>) -> Seq<
    FileManifestEntryView,
>
    decreases trees.len(),
{
    if trees.len() == 0 {
        Seq::empty()
    } else {
        let earlier = all_entries(roots, trees.drop_last());
        let root = roots[trees.len() - 1];
        let tree = trees.last();
        if tree.is_dir {
            earlier.push(directory_entry(root)) + child_entries(root, tree.children)
        } else {
            earlier.push(file_entry(root, tree.size_bytes))
        }
    }
}

/// The files below a root.
pub open spec fn child_files(root: Seq<char>, children: Seq<ChildView>) -> Seq<SourceFileView>
    decreases children.len(),
{
    if children.len() == 0 {
        Seq::empty()
    } else {
        let earlier = child_files(root, children.drop_last());
        let child = children.last();
        if child.kind == SourceKind::File {
            earlier.push(
                SourceFileView {
                    relative_path: below(root, child.child_path),
                    path: child.path,
                    size_bytes: child.size_bytes,
                },
            )
        } else {
            earlier
        }
    }
}

/// The files of sources.
pub open spec fn all_files(roots: Seq<Seq<char>>, trees: Seq<TreeView>) -> Seq<SourceFileView>
    decreases trees.len(),
{
    if trees.len() == 0 {
        Seq::empty()
    } else {
        let earlier = all_files(roots, trees.drop_last());
        let root = roots[trees.len() - 1];
        let tree = trees.last();
        if tree.is_dir {
            earlier + child_files(root, tree.children)
        } else {
            earlier.push(
                SourceFileView {
                    relative_path: root,
                    path: tree.path,
                    size_bytes: tree.size_bytes,
                },
            )
        }
    }
}

fn entries_below(root: &str, children: &Vec<SourceChild>) -> (r: Vec<FileManifestEntry>)
    ensures
        views(r@) == child_entries(root@, views(children@)),
{
    let ghost all = views(children@);
    let mut entries: Vec<FileManifestEntry> = Vec::new();
    let mut i: usize = 0;
    assert(all.take(0) =~= Seq::<ChildView>::empty());
    assert(views(entries@) =~= Seq::<FileManifestEntryView>::empty());
    while i < children.len()
        invariant
            i <= children@.len(),
            all == views(children@),
            views(entries@) == child_entries(root@, all.take(i as int)),
        decreases children@.len() - i,
    {
        proof {
            assert(all.take(i as int + 1).drop_last() =~= all.take(i as int));
            assert(all.take(i as int + 1).last() == children@[i as int]@);
        }
        let child = &children[i];
        match child.kind {
            SourceKind::Directory => {
                entries.push(
                    FileManifestEntry {
                        relative_path: path_below(root, child.child_path.as_str()),
                        size_bytes: 0,
                        is_dir: true,
                        blake3_hex: None,
                    },
                );
            },
            SourceKind::File => {
                let path = path_below(root, child.child_path.as_str());
                entries.push(FileManifestEntry::file(path.as_str(), child.size_bytes));
            },
            SourceKind::Other => {},
        }
        i = i + 1;
    }
    assert(all.take(all.len() as int) =~= all);
    entries
}

/// The entries of sources with their roots.
pub fn expand_manifest_entries(roots: &Vec<String>, trees: &Vec<SourceTree>) -> (r: Vec<
    FileManifestEntry,
>)
    requires
        roots@.len() == trees@.len(),
    ensures
        views(r@) == all_entries(views(roots@), views(trees@)),
{
    let ghost all = views(trees@);
    let ghost names = views(roots@);
    let mut entries: Vec<FileManifestEntry> = Vec::new();
    let mut i: usize = 0;
    assert(all.take(0) =~= Seq::<TreeView>::empty());
    assert(views(entries@) =~= Seq::<FileManifestEntryView>::empty());
    while i < trees.len()
        invariant
            i <= trees@.len(),
            roots@.len() == trees@.len(),
            all == views(trees@),
            names == views(roots@),
            views(entries@) == all_entries(names, all.take(i as int)),
        decreases trees@.len() - i,
    {
        proof {
            assert(all.take(i as int + 1).drop_last() =~= all.take(i as int));
            assert(all.take(i as int + 1).last() == trees@[i as int]@);
            assert(names[i as int] == roots@[i as int]@);
        }
        let tree = &trees[i];
        if tree.is_dir {
            entries.push(
                FileManifestEntry {
                    relative_path: roots[i].clone(),
                    size_bytes: 0,
                    is_dir: true,
                    blake3_hex: None,
                },
            );
            let mut more = entries_below(roots[i].as_str(), &tree.children);
            entries.append(&mut more);
        } else {
            entries.push(FileManifestEntry::file(roots[i].as_str(), tree.size_bytes));
        }
        i = i + 1;
    }
    assert(all.take(all.len() as int) =~= all);
    entries
}

fn files_below(root: &str, children: &Vec<SourceChild>) -> (r: Vec<SourceFile>)
    ensures
        views(r@) == child_files(root@, views(children@)),
{
    let ghost all = views(children@);
    let mut files: Vec<SourceFile> = Vec::new();
    let mut i: usize = 0;
    assert(all.take(0) =~= Seq::<ChildView>::empty());
    assert(views(files@) =~= Seq::<SourceFileView>::empty());
    while i < children.len()
        invariant
            i <= children@.len(),
            all == views(children@),
            views(files@) == child_files(root@, all.take(i as int)),
        decreases children@.len() - i,
    {
        proof {
            assert(all.take(i as int + 1).drop_last() =~= all.take(i as int));
            assert(all.take(i as int + 1).last() == children@[i as int]@);
        }
        let child = &children[i];
        if child.kind == SourceKind::File {
            files.push(
                SourceFile {
                    relative_path: path_below(root, child.child_path.as_str()),
                    path: child.path.clone(),
                    size_bytes: child.size_bytes,
                },
            );
        }
        i = i + 1;
    }
    assert(all.take(all.len() as int) =~= all);
    files
}

/// The files of sources with their roots.
pub fn expand_sources(roots: &Vec<String>, trees: &Vec<SourceTree>) -> (r: Vec<SourceFile>)
    requires
        roots@.len() == trees@.len(),
    ensures
        views(r@) == all_files(views(roots@), views(trees@)),
{
    let ghost all = views(trees@);
    let ghost names = views(roots@);
    let mut files: Vec<SourceFile> = Vec::new();
    let mut i: usize = 0;
    assert(all.take(0) =~= Seq::<TreeView>::empty());
    assert(views(files@) =~= Seq::<SourceFileView>::empty());
    while i < trees.len()
        invariant
            i <= trees@.len(),
            roots@.len() == trees@.len(),
            all == views(trees@),
            names == views(roots@),
            views(files@) == all_files(names, all.take(i as int)),
        decreases trees@.len() - i,
    {
        proof {
            assert(all.take(i as int + 1).drop_last() =~= all.take(i as int));
            assert(all.take(i as int + 1).last() == trees@[i as int]@);
            assert(names[i as int] == roots@[i as int]@);
        }
        let tree = &trees[i];
        if tree.is_dir {
            let mut more = files_below(roots[i].as_str(), &tree.children);
            files.append(&mut more);
        } else {
            files.push(
                SourceFile {
                    relative_path: roots[i].clone(),
                    path: tree.path.clone(),
                    size_bytes: tree.size_bytes,
                },
            );
        }
        i = i + 1;
    }
    assert(all.take(all.len() as int) =~= all);
    files
}

/// The number of bytes of files, without directories.
pub open spec fn file_bytes(files: Seq<FileManifestEntryView>) -> nat
    decreases files.len(),
{
    if files.len() == 0 {
        0
    } else {
        file_bytes(files.drop_last()) + if files.last().is_dir {
            0nat
        } else {
            files.last().size_bytes as nat
        }
    }
}

/// The manifest of a transfer of entries.
pub fn manifest_of(transfer_id: u128, root_name: String, entries: Vec<FileManifestEntry>) -> (r:
    FileTransferManifest)
    ensures
        r@ == (FileTransferManifestView {
            transfer_id,
            root_name: root_name@,
            files: views(entries@),
            total_bytes: at_most_u64(file_bytes(views(entries@))),
        }),
{
    let ghost all = views(entries@);
    let mut total: u64 = 0;
    let mut i: usize = 0;
    assert(all.take(0) =~= Seq::<FileManifestEntryView>::empty());
    while i < entries.len()
        invariant
            i <= entries@.len(),
            all == views(entries@),
            total == at_most_u64(file_bytes(all.take(i as int))),
        decreases entries@.len() - i,
    {
        proof {
            assert(all.take(i as int + 1).drop_last() =~= all.take(i as int));
            assert(all.take(i as int + 1).last() == entries@[i as int]@);
        }
        if !entries[i].is_dir {
            total = total.saturating_add(entries[i].size_bytes);
        }
        i = i + 1;
    }
    assert(all.take(all.len() as int) =~= all);
    FileTransferManifest { transfer_id, root_name, files: entries, total_bytes: total }
}

/// The manifest of a transfer of sources: `trees` tells what is at each source path.
pub fn manifest_from_source_paths(
    transfer_id: u128,
    source_paths: &Vec<String>,
    trees: &Vec<SourceTree>,
) -> (r: Result<FileTransferManifest, String>)
    requires
        source_paths@.len() < u32::MAX,
        trees@.len() == source_paths@.len(),
    ensures
        match r {
            Ok(manifest) => {
                &&& manifest@.transfer_id == transfer_id
                &&& manifest@.total_bytes == at_most_u64(file_bytes(manifest@.files))
                &&& source_paths@.len() != 1 ==> manifest@.root_name == "clipboard-files"@
                &&& source_paths@.len() == 1 ==> exists|name: Option<Seq<char>>| #[trigger]
                    named(source_paths@[0]@, name) && manifest@.root_name == root_name(1, name)
                &&& exists|roots: Seq<Seq<char>>|
                    rooted(views(source_paths@), roots) && roots.no_duplicates()
                        && manifest@.files == #[trigger] all_entries(roots, views(trees@))
            },
            Err(error) => nameless(views(source_paths@), error@),
        },
{
    let roots = match source_roots(source_paths) {
        Ok(roots) => roots,
        Err(error) => {
            return Err(error);
        },
    };
    let entries = expand_manifest_entries(&roots, trees);
    let name = transfer_root_name(source_paths);
    let manifest = manifest_of(transfer_id, name, entries);
    assert(manifest@.files == all_entries(views(roots@), views(trees@)));
    Ok(manifest)
}

/// On paths that every system reads in the same way, each source travels under the last
/// part of its path, unless an earlier source took that name; and if one of them has no
/// last part, there are no roots.
pub proof fn law_sources_keep_their_names(
    source_paths: Seq<Seq<char>>,
    roots: Seq<Seq<char>>,
    i: int,
)
    requires
        rooted(source_paths, roots),
        0 <= i < source_paths.len(),
        portable(source_paths[i]),
    ensures
        roots.len() == source_paths.len(),
        last_part(source_paths[i]) is Some,
        !roots.take(i).contains(last_part(source_paths[i])->0) ==> roots[i] == last_part(
            source_paths[i],
        )->0,
        exists|index: nat| #[trigger]
            own_search(last_part(source_paths[i])->0).first_free(roots.take(i), index) && roots[i]
                == own_search(last_part(source_paths[i])->0).at(index),
{
    let names = choose|names: Seq<Seq<char>>| #[trigger]
        names_of(source_paths, names) && roots_for(names, roots);
    assert(named(source_paths[i], Some(names[i])));
    law_file_names_are_single_components(source_paths[i]);
    assert(!roots.take(i).contains(roots[i]));
    assert(first_free_name(names[i], roots.take(i), roots[i]));
}

/// What is sent is what was announced: the files of sources are the entries of their
/// manifest that are not directories, in the same order, with the same sizes.
pub proof fn law_announced_files_are_sent(roots: Seq<Seq<char>>, trees: Seq<TreeView>)
    ensures
        announced(all_entries(roots, trees)) == sent(all_files(roots, trees)),
    decreases trees.len(),
{
    reveal(Seq::filter);
    if trees.len() == 0 {
        assert(announced(all_entries(roots, trees)) =~= sent(all_files(roots, trees)));
    } else {
        law_announced_files_are_sent(roots, trees.drop_last());
        let root = roots[trees.len() - 1];
        let tree = trees.last();
        let earlier = all_entries(roots, trees.drop_last());
        if tree.is_dir {
            let dir = earlier.push(directory_entry(root));
            assert(dir.drop_last() =~= earlier);
            lemma_children_are_sent(root, tree.children);
            lemma_announced_add(dir, child_entries(root, tree.children));
            assert(announced(dir) =~= announced(earlier));
            assert(sent(all_files(roots, trees)) =~= sent(all_files(roots, trees.drop_last()))
                + sent(child_files(root, tree.children)));
        } else {
            let with_file = earlier.push(file_entry(root, tree.size_bytes));
            assert(with_file.drop_last() =~= earlier);
            assert(announced(with_file) =~= announced(earlier).push((root, tree.size_bytes)));
            assert(sent(all_files(roots, trees)) =~= sent(
                all_files(roots, trees.drop_last()),
            ).push((root, tree.size_bytes)));
        }
    }
}

/// The paths and sizes of the entries that are files.
pub open spec fn announced(entries: Seq<FileManifestEntryView>) -> Seq<(Seq<char>, u64)> {
    entries.filter(|e: FileManifestEntryView| !e.is_dir).map_values(
        |e: FileManifestEntryView| (e.relative_path, e.size_bytes),
    )
}

/// The paths and sizes of files.
pub open spec fn sent(files: Seq<SourceFileView>) -> Seq<(Seq<char>, u64)> {
    files.map_values(|f: SourceFileView| (f.relative_path, f.size_bytes))
}

proof fn lemma_announced_add(a: Seq<FileManifestEntryView>, b: Seq<FileManifestEntryView>)
    ensures
        announced(a + b) == announced(a) + announced(b),
    decreases b.len(),
{
    reveal(Seq::filter);
    if b.len() == 0 {
        assert(a + b =~= a);
        assert(announced(a + b) =~= announced(a) + announced(b));
    } else {
        assert((a + b).drop_last() =~= a + b.drop_last());
        lemma_announced_add(a, b.drop_last());
        assert(announced(a + b) =~= announced(a) + announced(b));
    }
}

proof fn lemma_children_are_sent(root: Seq<char>, children: Seq<ChildView>)
    ensures
        announced(child_entries(root, children)) == sent(child_files(root, children)),
    decreases children.len(),
{
    reveal(Seq::filter);
    if children.len() == 0 {
        assert(announced(child_entries(root, children)) =~= sent(child_files(root, children)));
    } else {
        let earlier = child_entries(root, children.drop_last());
        lemma_children_are_sent(root, children.drop_last());
        let child = children.last();
        match child.kind {
            SourceKind::Directory => {
                let with_dir = earlier.push(directory_entry(below(root, child.child_path)));
                assert(with_dir.drop_last() =~= earlier);
            },
            SourceKind::File => {
                let with_file = earlier.push(
                    file_entry(below(root, child.child_path), child.size_bytes),
                );
                assert(with_file.drop_last() =~= earlier);
                assert(announced(with_file) =~= announced(earlier).push(
                    (below(root, child.child_path), child.size_bytes),
                ));
                assert(sent(child_files(root, children)) =~= sent(
                    child_files(root, children.drop_last()),
                ).push((below(root, child.child_path), child.size_bytes)));
            },
            SourceKind::Other => {},
        }
    }
}

/// Everything below a directory is announced under the root's name: each file with its
/// size, each directory as one, and what is neither is left out. The files are read from
/// where they lie.
pub proof fn law_everything_below_a_root_is_announced(
    root: Seq<char>,
    children: Seq<ChildView>,
    i: int,
)
    requires
        0 <= i < children.len(),
    ensures
        ({
            let child = children[i];
            let path = root + "/"@ + slashed(child.child_path);
            let entries = child_entries(root, children);
            &&& child.kind == SourceKind::File ==> entries.contains(
                FileManifestEntryView {
                    relative_path: path,
                    size_bytes: child.size_bytes,
                    is_dir: false,
                    blake3_hex: None,
                },
            ) && child_files(root, children).contains(
                SourceFileView {
                    relative_path: path,
                    path: child.path,
                    size_bytes: child.size_bytes,
                },
            )
            &&& child.kind == SourceKind::Directory ==> entries.contains(
                FileManifestEntryView {
                    relative_path: path,
                    size_bytes: 0,
                    is_dir: true,
                    blake3_hex: None,
                },
            )
            &&& child_files(root, children).len() <= entries.len() <= children.len()
            &&& (forall|k: int|
                0 <= k < children.len() ==> (#[trigger] children[k]).kind != SourceKind::Other)
                ==> entries.len() == children.len()
        }),
    decreases children.len(),
{
    let earlier = child_entries(root, children.drop_last());
    let files = child_files(root, children.drop_last());
    let entries = child_entries(root, children);
    let all = child_files(root, children);
    lemma_child_counts(root, children);
    if i < children.len() - 1 {
        law_everything_below_a_root_is_announced(root, children.drop_last(), i);
        let child = children[i];
        let path = root + "/"@ + slashed(child.child_path);
        assert(children.drop_last()[i] == child);
        let as_file = file_entry(path, child.size_bytes);
        let as_dir = directory_entry(path);
        let read = SourceFileView {
            relative_path: path,
            path: child.path,
            size_bytes: child.size_bytes,
        };
        if earlier.contains(as_file) {
            let k = choose|k: int| 0 <= k < earlier.len() && earlier[k] == as_file;
            assert(entries[k] == as_file);
        }
        if earlier.contains(as_dir) {
            let k = choose|k: int| 0 <= k < earlier.len() && earlier[k] == as_dir;
            assert(entries[k] == as_dir);
        }
        if files.contains(read) {
            let k = choose|k: int| 0 <= k < files.len() && files[k] == read;
            assert(all[k] == read);
        }
    } else if children[i].kind != SourceKind::Other {
        assert(entries[earlier.len() as int] == entries.last());
        if children[i].kind == SourceKind::File {
            assert(all[files.len() as int] == all.last());
        }
    }
}

proof fn lemma_child_counts(root: Seq<char>, children: Seq<ChildView>)
    ensures
        child_files(root, children).len() <= child_entries(root, children).len()
            <= children.len(),
        (forall|k: int|
            0 <= k < children.len() ==> (#[trigger] children[k]).kind != SourceKind::Other)
            ==> child_entries(root, children).len() == children.len(),
    decreases children.len(),
{
    if children.len() > 0 {
        let front = children.drop_last();
        lemma_child_counts(root, front);
        if forall|k: int|
            0 <= k < children.len() ==> (#[trigger] children[k]).kind != SourceKind::Other {
            assert forall|k: int| 0 <= k < front.len() implies (#[trigger] front[k]).kind
                != SourceKind::Other by {
                assert(front[k] == children[k]);
            }
            assert(children.last() == children[children.len() - 1]);
        }
    }
}

/// Every source is announced under its root, in order: a file with its size, a directory as
/// one, right before what is below it.
pub proof fn law_sources_are_announced_in_order(
    roots: Seq<Seq<char>>,
    trees: Seq<TreeView>,
    tree: TreeView,
)
    requires
        roots.len() == trees.len() + 1,
    ensures
        ({
            let before = all_entries(roots, trees);
            let after = all_entries(roots, trees.push(tree));
            let root = roots.last();
            &&& before.is_prefix_of(after)
            &&& after.len() > before.len()
            &&& after[before.len() as int].relative_path == root
            &&& after[before.len() as int].is_dir == tree.is_dir
            &&& tree.is_dir ==> after.skip(before.len() as int + 1) == child_entries(
                root,
                tree.children,
            )
            &&& !tree.is_dir ==> after.len() == before.len() + 1
                && after.last().size_bytes == tree.size_bytes
            &&& !tree.is_dir ==> all_files(roots, trees.push(tree)).last().path == tree.path
        }),
{
    let longer = trees.push(tree);
    assert(longer.drop_last() =~= trees);
    let before = all_entries(roots, trees);
    let after = all_entries(roots, longer);
    if tree.is_dir {
        assert(after.skip(before.len() as int + 1) =~= child_entries(roots.last(), tree.children));
    }
    assert(before =~= after.subrange(0, before.len() as int));
}

/// The announced total is the sum of the sizes of the files; directories count nothing.
pub proof fn law_totals_count_the_files(
    a: Seq<FileManifestEntryView>,
    b: Seq<FileManifestEntryView>,
    path: Seq<char>,
    size: u64,
)
    ensures
        file_bytes(a + b) == file_bytes(a) + file_bytes(b),
        file_bytes(seq![file_entry(path, size)]) == size,
        file_bytes(seq![directory_entry(path)]) == 0,
    decreases b.len(),
{
    let one = seq![file_entry(path, size)];
    let dir = seq![directory_entry(path)];
    assert(one.drop_last() =~= Seq::<FileManifestEntryView>::empty());
    assert(dir.drop_last() =~= Seq::<FileManifestEntryView>::empty());
    assert(file_bytes(one.drop_last()) == 0);
    assert(file_bytes(dir.drop_last()) == 0);
    if b.len() > 0 {
        law_totals_count_the_files(a, b.drop_last(), path, size);
        assert((a + b).drop_last() =~= a + b.drop_last());
    } else {
        assert(a + b =~= a);
    }
}

} // verus!
