//! Files that arrive: what is expected, what has come, and when a transfer is
//! complete.
use crate::bulk_events::{BulkEventView, BulkTransferEvent};
use crate::bulk_wire::{BulkMessageView, BulkWireMessage};
use crate::file_transfer::{
    FileChunk, FileChunkView, FileManifestEntry, FileManifestEntryView, FileTransferManifest,
    FileTransferManifestView, FileTransferState,
};
use crate::hashing::{bytes_hex, digest_hex, feed_hasher, hashed, hasher_hex, new_hasher};
use crate::ids::{hyphenated, id_text};
use crate::lists::{find_first, lemma_find_first, lemma_find_first_at, lemma_find_first_none};
use crate::paths::{
    components, goes_down, law_safe_paths_stay_inside, lists_text, roots_of, safe_components,
    safe_relative_path, temp_part_name, top_level_relative_paths,
};
use crate::text::{join2, same_text, views};
use std::collections::{BTreeMap, BTreeSet};
use vstd::prelude::*;

verus! {

broadcast use {
    crate::text::lemma_views_push,
    vstd::std_specs::btree::group_btree_axioms,
    vstd::laws_cmp::group_laws_cmp,
};

/// The transfers that were called off.
#[derive(Debug, PartialEq, Eq)]
pub struct CancelledTransfers {
    ids: BTreeSet<u128>,
}

impl View for CancelledTransfers {
    type V = Set<u128>;

    closed spec fn view(&self) -> Set<u128> {
        self.ids@
    }
}

impl Default for CancelledTransfers {
    fn default() -> (r: Self)
        ensures
            r@ == Set::<u128>::empty(),
    {
        CancelledTransfers { ids: BTreeSet::new() }
    }
}

impl CancelledTransfers {
    pub fn mark_cancelled(&mut self, transfer_id: u128)
        ensures
            final(self)@ == old(self)@.insert(transfer_id),
    {
        let _ = self.ids.insert(transfer_id);
    }

    pub fn is_cancelled(&self, transfer_id: u128) -> (r: bool)
        ensures
            r == self@.contains(transfer_id),
    {
        self.ids.contains(&transfer_id)
    }
}

/// A first component of the announced paths, and where it goes in the cache.
#[derive(Debug, PartialEq, Eq)]
pub struct ResolvedRoot {
    /// The component.
    pub root: String,
    /// The name in the cache.
    pub file_name: String,
    /// The whole path in the cache.
    pub path: String,
}

pub struct RootView {
    pub root: Seq<char>,
    pub file_name: Seq<char>,
    pub path: Seq<char>,
}

impl View for ResolvedRoot {
    type V = RootView;

    open spec fn view(&self) -> RootView {
        RootView { root: self.root@, file_name: self.file_name@, path: self.path@ }
    }
}

/// Where something goes in the cache: below a path, through components.
#[derive(Debug, PartialEq, Eq)]
pub struct ReceiveTarget {
    pub root_path: String,
    pub parts: Vec<String>,
    pub file_name: String,
}

pub struct TargetView {
    pub root_path: Seq<char>,
    pub parts: Seq<Seq<char>>,
    pub file_name: Seq<char>,
}

impl View for ReceiveTarget {
    type V = TargetView;

    open spec fn view(&self) -> TargetView {
        TargetView {
            root_path: self.root_path@,
            parts: views(self.parts@),
            file_name: self.file_name@,
        }
    }
}

impl ReceiveTarget {
    /// The name of the file while it is being received.
    pub fn temp_name(&self) -> (r: String)
        ensures
            r@ == self@.file_name + ".borderless-part"@,
    {
        temp_part_name(self.file_name.as_str())
    }
}

/// The place of a root in a list.
pub open spec fn root_place(roots: Seq<RootView>, root: Seq<char>) -> Option<int> {
    find_first(roots, |r: RootView| r.root == root)
}

/// Where a relative path goes, or why it goes nowhere.
pub open spec fn target_of(roots: Seq<RootView>, path: Seq<char>) -> Result<TargetView, Seq<char>> {
    match safe_components(path) {
        Err(error) => Err(error),
        Ok(parts) => match root_place(roots, parts[0]) {
            None => Err("resolved root missing for "@ + parts[0]),
            Some(i) => Ok(
                TargetView {
                    root_path: roots[i].path,
                    parts: parts.skip(1),
                    file_name: if parts.len() > 1 { parts.last() } else { roots[i].file_name },
                },
            ),
        },
    }
}

/// What arrives is written below a root that was resolved for its transfer: the path leads
/// down from there through components of which none leads up, goes to a drive or holds a
/// separator.
pub proof fn law_targets_lie_below_a_root(roots: Seq<RootView>, path: Seq<char>)
    requires
        target_of(roots, path) is Ok,
    ensures
        ({
            let target = target_of(roots, path)->Ok_0;
            &&& exists|i: int|
                0 <= i < roots.len() && #[trigger] roots[i].path == target.root_path
                    && roots[i].root == components(path)[0] && (target.parts.len() == 0
                    ==> target.file_name == roots[i].file_name)
            &&& target.parts.len() > 0 ==> target.file_name == target.parts.last()
            &&& forall|k: int| 0 <= k < target.parts.len() ==> goes_down(#[trigger] target.parts[k])
        }),
{
    let target = target_of(roots, path)->Ok_0;
    let parts = components(path);
    lemma_find_first(roots, |r: RootView| r.root == parts[0]);
    assert forall|k: int| 0 <= k < target.parts.len() implies goes_down(
        #[trigger] target.parts[k],
    ) by {
        law_safe_paths_stay_inside(path, k + 1);
    }
}

/// The view of a target or of an error.
pub open spec fn target_view(r: Result<ReceiveTarget, String>) -> Result<TargetView, Seq<char>> {
    match r {
        Ok(target) => Ok(target@),
        Err(error) => Err(error@),
    }
}

fn place_of_root(roots: &Vec<ResolvedRoot>, root: &str) -> (r: Option<usize>)
    ensures
        match r {
            Some(i) => i < roots@.len() && root_place(views(roots@), root@) == Some(i as int),
            None => root_place(views(roots@), root@) is None,
        },
{
    let ghost all = views(roots@);
    let ghost p = |r: RootView| r.root == root@;
    let mut i: usize = 0;
    while i < roots.len()
        invariant
            i <= roots@.len(),
            all == views(roots@),
            p == (|r: RootView| r.root == root@),
            forall|j: int| 0 <= j < i ==> all[j].root != root@,
        decreases roots@.len() - i,
    {
        assert(all[i as int] == roots@[i as int]@);
        if same_text(roots[i].root.as_str(), root) {
            proof {
                lemma_find_first_at(all, p, i as int);
            }
            return Some(i);
        }
        i = i + 1;
    }
    proof {
        lemma_find_first_none(all, p);
    }
    None
}

/// Finds where a relative path goes.
pub fn resolved_cache_path(roots: &Vec<ResolvedRoot>, relative_path: &str) -> (r: Result<
    ReceiveTarget,
    String,
>)
    ensures
        target_view(r) == target_of(views(roots@), relative_path@),
{
    let mut parts = match safe_relative_path(relative_path) {
        Ok(parts) => parts,
        Err(error) => {
            return Err(error);
        },
    };
    let ghost all = views(parts@);
    assert(all == safe_components(relative_path@)->Ok_0);
    let root = parts.remove(0);
    assert(root@ == all[0]);
    assert(views(parts@) =~= all.skip(1));
    match place_of_root(roots, root.as_str()) {
        Some(i) => {
            let file_name = if parts.len() > 0 {
                assert(parts@.last()@ == all.last());
                parts[parts.len() - 1].clone()
            } else {
                roots[i].file_name.clone()
            };
            Ok(ReceiveTarget { root_path: roots[i].path.clone(), parts, file_name })
        },
        None => Err(join2("resolved root missing for ", root.as_str())),
    }
}

/// One transfer that arrives.
#[derive(Debug, PartialEq, Eq)]
pub struct ReceiveTransfer {
    manifest: FileTransferManifest,
    state: FileTransferState,
    bytes_done: u64,
    roots: Vec<ResolvedRoot>,
    completed_files: Vec<String>,
}

#[verifier::ext_equal]
pub struct ReceiveView {
    pub manifest: FileTransferManifestView,
    pub state: FileTransferState,
    pub bytes_done: u64,
    pub roots: Seq<RootView>,
    pub completed: Seq<Seq<char>>,
}

impl View for ReceiveTransfer {
    type V = ReceiveView;

    closed spec fn view(&self) -> ReceiveView {
        ReceiveView {
            manifest: self.manifest@,
            state: self.state,
            bytes_done: self.bytes_done,
            roots: views(self.roots@),
            completed: views(self.completed_files@),
        }
    }
}

/// The number of files, without directories.
pub open spec fn file_count(files: Seq<FileManifestEntryView>) -> nat
    decreases files.len(),
{
    if files.len() == 0 {
        0
    } else {
        file_count(files.drop_last()) + if files.last().is_dir { 0nat } else { 1nat }
    }
}

impl ReceiveView {
    /// A transfer that was announced.
    pub open spec fn offered(manifest: FileTransferManifestView, roots: Seq<RootView>) -> ReceiveView {
        ReceiveView {
            manifest,
            state: FileTransferState::Offered,
            bytes_done: 0,
            roots,
            completed: Seq::empty(),
        }
    }

    /// A transfer that is announced once more keeps what has arrived.
    pub open spec fn offered_again(
        self,
        manifest: FileTransferManifestView,
        roots: Seq<RootView>,
    ) -> ReceiveView {
        ReceiveView {
            manifest,
            roots,
            state: if self.state == FileTransferState::Completed {
                FileTransferState::Completed
            } else {
                FileTransferState::Offered
            },
            ..self
        }
    }

    /// Bytes have arrived.
    pub open spec fn progressed(self, count: nat) -> ReceiveView {
        ReceiveView {
            state: FileTransferState::Transferring,
            bytes_done: if self.bytes_done + count <= u64::MAX {
                (self.bytes_done + count) as u64
            } else {
                u64::MAX
            },
            ..self
        }
    }

    /// A file has arrived.
    pub open spec fn with_file(self, path: Seq<char>) -> ReceiveView {
        ReceiveView {
            completed: if self.completed.contains(path) {
                self.completed
            } else {
                self.completed.push(path)
            },
            ..self
        }
    }

    /// The transfer is complete and was not reported so.
    pub open spec fn newly_complete(self) -> bool {
        self.completed.len() == file_count(self.manifest.files) && self.state
            != FileTransferState::Completed
    }

    /// The transfer once its completion was reported.
    pub open spec fn settled(self) -> ReceiveView {
        if self.newly_complete() {
            ReceiveView { state: FileTransferState::Completed, ..self }
        } else {
            self
        }
    }

    /// The report that a transfer is complete.
    pub open spec fn report(self, transfer_id: u128) -> Option<BulkEventView> {
        if self.newly_complete() {
            Some(BulkEventView::Completed { transfer_id, cache_paths: root_paths(self.roots) })
        } else {
            None
        }
    }
}

/// The paths of roots.
pub open spec fn root_paths(roots: Seq<RootView>) -> Seq<Seq<char>> {
    roots.map_values(|r: RootView| r.path)
}

/// The view of an event that may be missing.
pub open spec fn event_view(event: Option<BulkTransferEvent>) -> Option<BulkEventView> {
    match event {
        Some(e) => Some(e@),
        None => None,
    }
}

fn count_files(files: &Vec<FileManifestEntry>) -> (r: usize)
    ensures
        r == file_count(views(files@)),
{
    let ghost all = views(files@);
    let mut count: usize = 0;
    let mut i: usize = 0;
    assert(all.take(0) =~= Seq::<FileManifestEntryView>::empty());
    while i < files.len()
        invariant
            i <= files@.len(),
            all == views(files@),
            count == file_count(all.take(i as int)),
            count <= i,
        decreases files@.len() - i,
    {
        assert(all.take(i as int + 1).drop_last() =~= all.take(i as int));
        assert(all.take(i as int + 1).last() == files@[i as int]@);
        if !files[i].is_dir {
            count = count + 1;
        }
        i = i + 1;
    }
    assert(all.take(all.len() as int) =~= all);
    count
}

fn paths_of_roots(roots: &Vec<ResolvedRoot>) -> (r: Vec<String>)
    ensures
        views(r@) == root_paths(views(roots@)),
{
    let mut paths: Vec<String> = Vec::new();
    let mut i: usize = 0;
    while i < roots.len()
        invariant
            i <= roots@.len(),
            views(paths@) == root_paths(views(roots@)).take(i as int),
        decreases roots@.len() - i,
    {
        paths.push(roots[i].path.clone());
        assert(views(paths@) =~= root_paths(views(roots@)).take(i as int + 1));
        i = i + 1;
    }
    assert(views(paths@) =~= root_paths(views(roots@)));
    paths
}

impl ReceiveTransfer {
    fn settle(&mut self, transfer_id: u128) -> (r: Option<BulkTransferEvent>)
        ensures
            final(self)@ == old(self)@.settled(),
            event_view(r) == old(self)@.report(transfer_id),
    {
        let expected: usize = count_files(&self.manifest.files);
        if self.completed_files.len() == expected && self.state != FileTransferState::Completed {
            self.state = FileTransferState::Completed;
            Some(
                BulkTransferEvent::Completed {
                    transfer_id,
                    cache_paths: paths_of_roots(&self.roots),
                },
            )
        } else {
            None
        }
    }
}

/// The directories that an announcement asks to create, or why one cannot be.
pub open spec fn directories(
    roots: Seq<RootView>,
    files: Seq<FileManifestEntryView>,
) -> Result<Seq<TargetView>, Seq<char>>
    decreases files.len(),
{
    if files.len() == 0 {
        Ok(Seq::empty())
    } else {
        match directories(roots, files.drop_last()) {
            Err(error) => Err(error),
            Ok(targets) => if files.last().is_dir {
                match target_of(roots, files.last().relative_path) {
                    Err(error) => Err(error),
                    Ok(target) => Ok(targets.push(target)),
                }
            } else {
                Ok(targets)
            },
        }
    }
}

proof fn lemma_directory_error_stays(
    roots: Seq<RootView>,
    files: Seq<FileManifestEntryView>,
    n: int,
)
    requires
        0 <= n <= files.len(),
        directories(roots, files.take(n)) is Err,
    ensures
        directories(roots, files) == directories(roots, files.take(n)),
    decreases files.len() - n,
{
    if n == files.len() {
        assert(files.take(n) =~= files);
    } else {
        assert(files.take(n + 1).drop_last() =~= files.take(n));
        lemma_directory_error_stays(roots, files, n + 1);
    }
}

/// The view of targets or of an error.
pub open spec fn targets_view(r: Result<Vec<ReceiveTarget>, String>) -> Result<
    Seq<TargetView>,
    Seq<char>,
> {
    match r {
        Ok(targets) => Ok(views(targets@)),
        Err(error) => Err(error@),
    }
}

fn directory_targets(roots: &Vec<ResolvedRoot>, files: &Vec<FileManifestEntry>) -> (r: Result<
    Vec<ReceiveTarget>,
    String,
>)
    ensures
        targets_view(r) == directories(views(roots@), views(files@)),
{
    let ghost all = views(files@);
    let ghost where_to = views(roots@);
    let mut targets: Vec<ReceiveTarget> = Vec::new();
    let mut i: usize = 0;
    assert(all.take(0) =~= Seq::<FileManifestEntryView>::empty());
    assert(views(targets@) =~= Seq::<TargetView>::empty());
    while i < files.len()
        invariant
            i <= files@.len(),
            all == views(files@),
            where_to == views(roots@),
            directories(where_to, all.take(i as int)) == Ok::<Seq<TargetView>, Seq<char>>(
                views(targets@),
            ),
        decreases files@.len() - i,
    {
        proof {
            assert(all.take(i as int + 1).drop_last() =~= all.take(i as int));
            assert(all.take(i as int + 1).last() == files@[i as int]@);
        }
        if files[i].is_dir {
            match resolved_cache_path(roots, files[i].relative_path.as_str()) {
                Ok(target) => {
                    targets.push(target);
                },
                Err(error) => {
                    proof {
                        lemma_directory_error_stays(where_to, all, i as int + 1);
                    }
                    return Err(error);
                },
            }
        }
        i = i + 1;
    }
    assert(all.take(all.len() as int) =~= all);
    Ok(targets)
}

/// The transfers that arrive.
#[derive(Debug, PartialEq, Eq)]
pub struct ReceiveBook {
    transfers: BTreeMap<u128, ReceiveTransfer>,
}

impl View for ReceiveBook {
    type V = Map<u128, ReceiveView>;

    closed spec fn view(&self) -> Map<u128, ReceiveView> {
        self.transfers@.map_values(|t: ReceiveTransfer| t@)
    }
}

impl Default for ReceiveBook {
    fn default() -> (r: Self)
        ensures
            r@ == Map::<u128, ReceiveView>::empty(),
    {
        let r = ReceiveBook { transfers: BTreeMap::new() };
        assert(r@ =~= Map::<u128, ReceiveView>::empty());
        r
    }
}

/// The book after an announcement.
pub open spec fn book_offered(
    book: Map<u128, ReceiveView>,
    manifest: FileTransferManifestView,
    roots: Seq<RootView>,
) -> Map<u128, ReceiveView> {
    book.insert(
        manifest.transfer_id,
        if book.contains_key(manifest.transfer_id) {
            book[manifest.transfer_id].offered_again(manifest, roots)
        } else {
            ReceiveView::offered(manifest, roots)
        },
    )
}

/// The book after a completion was looked for.
pub open spec fn book_settled(book: Map<u128, ReceiveView>, id: u128) -> Map<u128, ReceiveView> {
    if book.contains_key(id) {
        book.insert(id, book[id].settled())
    } else {
        book
    }
}

/// The report of a completion.
pub open spec fn book_report(book: Map<u128, ReceiveView>, id: u128) -> Option<BulkEventView> {
    if book.contains_key(id) {
        book[id].report(id)
    } else {
        None
    }
}

/// The book after a file arrived.
pub open spec fn book_with_file(
    book: Map<u128, ReceiveView>,
    id: u128,
    path: Seq<char>,
) -> Map<u128, ReceiveView> {
    if book.contains_key(id) {
        book.insert(id, book[id].with_file(path))
    } else {
        book
    }
}

/// The book after bytes arrived.
pub open spec fn book_progressed(
    book: Map<u128, ReceiveView>,
    id: u128,
    count: nat,
) -> Map<u128, ReceiveView> {
    if book.contains_key(id) {
        book.insert(id, book[id].progressed(count))
    } else {
        book
    }
}

/// The book after a transfer was called off.
pub open spec fn book_cancelled(book: Map<u128, ReceiveView>, id: u128) -> Map<u128, ReceiveView> {
    if book.contains_key(id) {
        book.insert(id, ReceiveView { state: FileTransferState::Cancelled, ..book[id] })
    } else {
        book
    }
}

impl ReceiveBook {
    fn take(&mut self, id: u128) -> (r: Option<ReceiveTransfer>)
        ensures
            final(self)@ == old(self)@.remove(id),
            match r {
                Some(t) => old(self)@.contains_key(id) && t@ == old(self)@[id],
                None => !old(self)@.contains_key(id),
            },
    {
        let r = self.transfers.remove(&id);
        assert(self@ =~= old(self)@.remove(id));
        r
    }

    fn put(&mut self, id: u128, transfer: ReceiveTransfer)
        ensures
            final(self)@ == old(self)@.insert(id, transfer@),
    {
        let _ = self.transfers.insert(id, transfer);
        assert(self@ =~= old(self)@.insert(id, transfer@));
    }

    /// Takes an announcement down. The directories that it asks for are returned.
    pub fn handle_manifest(&mut self, manifest: &FileTransferManifest, roots: Vec<ResolvedRoot>) -> (r:
        Result<Vec<ReceiveTarget>, String>)
        ensures
            final(self)@ == book_offered(old(self)@, manifest@, views(roots@)),
            targets_view(r) == directories(views(roots@), manifest@.files),
    {
        let targets = directory_targets(&roots, &manifest.files);
        let transfer = match self.take(manifest.transfer_id) {
            Some(mut known) => {
                known.manifest = manifest.clone();
                known.roots = roots;
                if known.state != FileTransferState::Completed {
                    known.state = FileTransferState::Offered;
                }
                known
            },
            None => {
                let fresh = ReceiveTransfer {
                    manifest: manifest.clone(),
                    state: FileTransferState::Offered,
                    bytes_done: 0,
                    roots,
                    completed_files: Vec::new(),
                };
                assert(fresh@.completed =~= Seq::<Seq<char>>::empty());
                fresh
            },
        };
        self.put(manifest.transfer_id, transfer);
        assert(self@ =~= book_offered(old(self)@, manifest@, views(roots@)));
        targets
    }

    /// Reports a transfer as complete once all its files have arrived.
    pub fn maybe_emit_completed(&mut self, transfer_id: u128) -> (r: Option<BulkTransferEvent>)
        ensures
            final(self)@ == book_settled(old(self)@, transfer_id),
            event_view(r) == book_report(old(self)@, transfer_id),
    {
        match self.take(transfer_id) {
            Some(mut transfer) => {
                let event = transfer.settle(transfer_id);
                self.put(transfer_id, transfer);
                assert(self@ =~= book_settled(old(self)@, transfer_id));
                event
            },
            None => {
                assert(self@ =~= old(self)@);
                None
            },
        }
    }

    /// A file has arrived in the cache.
    pub fn file_completed(&mut self, transfer_id: u128, relative_path: &str) -> (r: Option<
        BulkTransferEvent,
    >)
        ensures
            final(self)@ == book_settled(
                book_with_file(old(self)@, transfer_id, relative_path@),
                transfer_id,
            ),
            event_view(r) == book_report(
                book_with_file(old(self)@, transfer_id, relative_path@),
                transfer_id,
            ),
    {
        match self.take(transfer_id) {
            Some(mut transfer) => {
                if !lists_text(&transfer.completed_files, relative_path) {
                    transfer.completed_files.push(relative_path.to_owned());
                }
                self.put(transfer_id, transfer);
                assert(self@ =~= book_with_file(old(self)@, transfer_id, relative_path@));
            },
            None => {
                assert(self@ =~= old(self)@);
            },
        }
        self.maybe_emit_completed(transfer_id)
    }

    fn progressed(&mut self, transfer_id: u128, count: usize, current_file: &str) -> (r: Option<
        BulkTransferEvent,
    >)
        ensures
            final(self)@ == book_progressed(old(self)@, transfer_id, count as nat),
            event_view(r) == progress_report(old(self)@, transfer_id, count as nat, current_file@),
    {
        match self.take(transfer_id) {
            Some(mut transfer) => {
                transfer.state = FileTransferState::Transferring;
                transfer.bytes_done = transfer.bytes_done.saturating_add(count as u64);
                let event = BulkTransferEvent::Progress {
                    transfer_id,
                    bytes_done: transfer.bytes_done,
                    bytes_total: transfer.manifest.total_bytes,
                    current_file: current_file.to_owned(),
                };
                self.put(transfer_id, transfer);
                assert(self@ =~= book_progressed(old(self)@, transfer_id, count as nat));
                Some(event)
            },
            None => {
                assert(self@ =~= old(self)@);
                None
            },
        }
    }

    fn cancelled(&mut self, transfer_id: u128)
        ensures
            final(self)@ == book_cancelled(old(self)@, transfer_id),
    {
        match self.take(transfer_id) {
            Some(mut transfer) => {
                transfer.state = FileTransferState::Cancelled;
                self.put(transfer_id, transfer);
                assert(self@ =~= book_cancelled(old(self)@, transfer_id));
            },
            None => {
                assert(self@ =~= old(self)@);
            },
        }
    }
}

/// The report of bytes that arrived.
pub open spec fn progress_report(
    book: Map<u128, ReceiveView>,
    id: u128,
    count: nat,
    current_file: Seq<char>,
) -> Option<BulkEventView> {
    if book.contains_key(id) {
        Some(
            BulkEventView::Progress {
                transfer_id: id,
                bytes_done: book[id].progressed(count).bytes_done,
                bytes_total: book[id].manifest.total_bytes,
                current_file,
            },
        )
    } else {
        None
    }
}

/// The file that is being received.
pub struct ActiveReceiveFile {
    transfer_id: u128,
    relative_path: String,
    target: ReceiveTarget,
    expected_size: u64,
    expected_hash: String,
    written: u64,
    hasher: blake3::Hasher,
}

/// What is known of the file that is being received. `content` is what has arrived.
#[verifier::ext_equal]
pub struct ActiveView {
    pub transfer_id: u128,
    pub relative_path: Seq<char>,
    pub target: TargetView,
    pub expected_size: u64,
    pub expected_hash: Seq<char>,
    pub content: Seq<u8>,
}

impl View for ActiveReceiveFile {
    type V = ActiveView;

    closed spec fn view(&self) -> ActiveView {
        ActiveView {
            transfer_id: self.transfer_id,
            relative_path: self.relative_path@,
            target: self.target@,
            expected_size: self.expected_size,
            expected_hash: self.expected_hash@,
            content: hashed(self.hasher),
        }
    }
}

impl ActiveView {
    /// Why a chunk does not continue the file, if it does not.
    pub open spec fn chunk_problem(self, chunk: FileChunkView) -> Option<Seq<char>> {
        if chunk.transfer_id != self.transfer_id {
            Some("chunk transfer id mismatch"@)
        } else if chunk.relative_path != self.relative_path {
            Some("chunk relative path mismatch"@)
        } else if chunk.offset != self.content.len() {
            Some("chunk offset mismatch"@)
        } else if digest_hex(chunk.bytes) != chunk.blake3_hex {
            Some("chunk checksum mismatch"@)
        } else {
            None
        }
    }

    /// The file with a chunk.
    pub open spec fn with_chunk(self, chunk: FileChunkView) -> ActiveView {
        ActiveView { content: self.content + chunk.bytes, ..self }
    }

    /// Why the end of a file is not the end of this one, if it is not.
    pub open spec fn end_problem(self, transfer_id: u128, relative_path: Seq<char>) -> Option<
        Seq<char>,
    > {
        if transfer_id != self.transfer_id {
            Some("file transfer id mismatch"@)
        } else if relative_path != self.relative_path {
            Some("file relative path mismatch"@)
        } else if self.content.len() != self.expected_size {
            Some("file size mismatch"@)
        } else {
            None
        }
    }

    /// Why the file cannot be put in its place, if it cannot.
    pub open spec fn digest_problem(self, blake3_hex: Seq<char>, place_taken: bool) -> Option<
        Seq<char>,
    > {
        if digest_hex(self.content) != self.expected_hash {
            Some("file checksum mismatch"@)
        } else if digest_hex(self.content) != blake3_hex {
            Some("file complete checksum mismatch"@)
        } else if place_taken {
            Some("cache path appeared before final rename"@)
        } else {
            None
        }
    }
}

/// The view of a problem that may be missing.
pub open spec fn problem_view(r: Result<(), String>) -> Option<Seq<char>> {
    match r {
        Ok(_) => None,
        Err(error) => Some(error@),
    }
}

/// What is done when a file is announced: nothing if it is not wanted, else it is
/// received.
pub open spec fn prepared(
    book: Map<u128, ReceiveView>,
    cancelled: Set<u128>,
    transfer_id: u128,
    relative_path: Seq<char>,
    size_bytes: u64,
    blake3_hex: Seq<char>,
) -> Result<Option<ActiveView>, Seq<char>> {
    if cancelled.contains(transfer_id) || (book.contains_key(transfer_id)
        && book[transfer_id].completed.contains(relative_path)) {
        Ok(None)
    } else if !book.contains_key(transfer_id) {
        Err("transfer manifest not found for "@ + hyphenated(transfer_id))
    } else {
        match target_of(book[transfer_id].roots, relative_path) {
            Err(error) => Err(error),
            Ok(target) => Ok(
                Some(
                    ActiveView {
                        transfer_id,
                        relative_path,
                        target,
                        expected_size: size_bytes,
                        expected_hash: blake3_hex,
                        content: Seq::empty(),
                    },
                ),
            ),
        }
    }
}

/// The view of a file that is to be received, or of an error.
pub open spec fn prepared_view(r: Result<Option<ActiveReceiveFile>, String>) -> Result<
    Option<ActiveView>,
    Seq<char>,
> {
    match r {
        Ok(Some(file)) => Ok(Some(file@)),
        Ok(None) => Ok(None),
        Err(error) => Err(error@),
    }
}

/// Gets ready to receive a file.
pub fn prepare_receive_file(
    book: &ReceiveBook,
    cancelled: &CancelledTransfers,
    transfer_id: u128,
    relative_path: String,
    size_bytes: u64,
    blake3_hex: String,
) -> (r: Result<Option<ActiveReceiveFile>, String>)
    ensures
        prepared_view(r) == prepared(
            book@,
            cancelled@,
            transfer_id,
            relative_path@,
            size_bytes,
            blake3_hex@,
        ),
        r matches Ok(Some(file)) ==> file.wf(),
{
    if cancelled.is_cancelled(transfer_id) {
        return Ok(None);
    }
    match book.transfers.get(&transfer_id) {
        Some(transfer) => {
            assert(book@[transfer_id] == transfer@);
            if lists_text(&transfer.completed_files, relative_path.as_str()) {
                return Ok(None);
            }
            match resolved_cache_path(&transfer.roots, relative_path.as_str()) {
                Ok(target) => Ok(
                    Some(
                        ActiveReceiveFile {
                            transfer_id,
                            relative_path,
                            target,
                            expected_size: size_bytes,
                            expected_hash: blake3_hex,
                            written: 0,
                            hasher: new_hasher(),
                        },
                    ),
                ),
                Err(error) => Err(error),
            }
        },
        None => Err(
            join2("transfer manifest not found for ", id_text(transfer_id).as_str()),
        ),
    }
}

impl ActiveReceiveFile {
    /// The number of bytes that were counted is the number of bytes that arrived.
    pub closed spec fn wf(self) -> bool {
        self.written == hashed(self.hasher).len()
    }

    /// Where the file goes.
    pub fn target(&self) -> (r: &ReceiveTarget)
        ensures
            r@ == self@.target,
    {
        &self.target
    }

    /// Whether a chunk of a length can still be counted.
    pub fn has_room_for(&self, count: usize) -> (r: bool)
        requires
            self.wf(),
        ensures
            r == (self@.content.len() + count <= u64::MAX),
    {
        self.written <= u64::MAX - count as u64
    }

    /// Checks that a chunk continues the file.
    pub fn check_chunk(&self, chunk: &FileChunk) -> (r: Result<(), String>)
        requires
            self.wf(),
        ensures
            problem_view(r) == self@.chunk_problem(chunk@),
    {
        if chunk.transfer_id != self.transfer_id {
            return Err("chunk transfer id mismatch".to_owned());
        }
        if !same_text(chunk.relative_path.as_str(), self.relative_path.as_str()) {
            return Err("chunk relative path mismatch".to_owned());
        }
        if chunk.offset != self.written {
            return Err("chunk offset mismatch".to_owned());
        }
        let digest = bytes_hex(chunk.bytes.as_slice());
        if !same_text(digest.as_str(), chunk.blake3_hex.as_str()) {
            return Err("chunk checksum mismatch".to_owned());
        }
        Ok(())
    }

    /// A chunk that continues the file was written.
    pub fn receive_chunk(&mut self, book: &mut ReceiveBook, chunk: &FileChunk) -> (r: Option<
        BulkTransferEvent,
    >)
        requires
            old(self).wf(),
            old(self)@.chunk_problem(chunk@) is None,
            old(self)@.content.len() + chunk@.bytes.len() <= u64::MAX,
        ensures
            final(self).wf(),
            final(self)@ == old(self)@.with_chunk(chunk@),
            final(book)@ == book_progressed(
                old(book)@,
                old(self)@.transfer_id,
                chunk@.bytes.len(),
            ),
            event_view(r) == progress_report(
                old(book)@,
                old(self)@.transfer_id,
                chunk@.bytes.len(),
                old(self)@.relative_path,
            ),
    {
        feed_hasher(&mut self.hasher, chunk.bytes.as_slice());
        self.written = self.written + chunk.bytes.len() as u64;
        book.progressed(self.transfer_id, chunk.bytes.len(), self.relative_path.as_str())
    }

    /// Checks that the end of a file is the end of this one.
    pub fn check_end(&self, transfer_id: u128, relative_path: &str) -> (r: Result<(), String>)
        requires
            self.wf(),
        ensures
            problem_view(r) == self@.end_problem(transfer_id, relative_path@),
    {
        if transfer_id != self.transfer_id {
            return Err("file transfer id mismatch".to_owned());
        }
        if !same_text(relative_path, self.relative_path.as_str()) {
            return Err("file relative path mismatch".to_owned());
        }
        if self.written != self.expected_size {
            return Err("file size mismatch".to_owned());
        }
        Ok(())
    }

    /// Checks that the file has the announced content and that its place is free.
    pub fn complete_receive_file(&self, blake3_hex: &str, place_taken: bool) -> (r: Result<
        (),
        String,
    >)
        ensures
            problem_view(r) == self@.digest_problem(blake3_hex@, place_taken),
    {
        let actual = hasher_hex(&self.hasher);
        if !same_text(actual.as_str(), self.expected_hash.as_str()) {
            return Err("file checksum mismatch".to_owned());
        }
        if !same_text(actual.as_str(), blake3_hex) {
            return Err("file complete checksum mismatch".to_owned());
        }
        if place_taken {
            return Err("cache path appeared before final rename".to_owned());
        }
        Ok(())
    }
}

/// What a message of the sender asks for.
pub enum IncomingStep {
    /// Nothing, or only a report.
    Go(Option<BulkTransferEvent>),
    /// Find places in the cache for the roots of an announcement.
    ResolveRoots { manifest: FileTransferManifest, roots: Vec<String> },
    /// Create the file that is received now.
    OpenFile,
    /// Write a chunk to the file that is received now.
    WriteChunk(FileChunk),
    /// Put a file in its place.
    FinishFile {
        file: ActiveReceiveFile,
        transfer_id: u128,
        relative_path: String,
        blake3_hex: String,
    },
    /// Report the failure of a transfer and stop receiving.
    Fail { transfer_id: u128, error: String },
}

pub enum IncomingView {
    Go(Option<BulkEventView>),
    ResolveRoots { manifest: FileTransferManifestView, roots: Seq<Seq<char>> },
    OpenFile,
    WriteChunk(FileChunkView),
    FinishFile {
        file: ActiveView,
        transfer_id: u128,
        relative_path: Seq<char>,
        blake3_hex: Seq<char>,
    },
    Fail { transfer_id: u128, error: Seq<char> },
}

impl View for IncomingStep {
    type V = IncomingView;

    open spec fn view(&self) -> IncomingView {
        match self {
            IncomingStep::Go(event) => IncomingView::Go(event_view(*event)),
            IncomingStep::ResolveRoots { manifest, roots } => IncomingView::ResolveRoots {
                manifest: manifest@,
                roots: views(roots@),
            },
            IncomingStep::OpenFile => IncomingView::OpenFile,
            IncomingStep::WriteChunk(chunk) => IncomingView::WriteChunk(chunk@),
            IncomingStep::FinishFile { file, transfer_id, relative_path, blake3_hex } => {
                IncomingView::FinishFile {
                    file: file@,
                    transfer_id: *transfer_id,
                    relative_path: relative_path@,
                    blake3_hex: blake3_hex@,
                }
            },
            IncomingStep::Fail { transfer_id, error } => IncomingView::Fail {
                transfer_id: *transfer_id,
                error: error@,
            },
        }
    }
}

/// What has arrived and what is being received.
pub struct IncomingTransfers {
    pub book: ReceiveBook,
    pub active: Option<ActiveReceiveFile>,
}

#[verifier::ext_equal]
pub struct ArrivalsView {
    pub book: Map<u128, ReceiveView>,
    pub active: Option<ActiveView>,
    pub cancelled: Set<u128>,
}

/// The view of a file that may be missing.
pub open spec fn active_view(active: Option<ActiveReceiveFile>) -> Option<ActiveView> {
    match active {
        Some(file) => Some(file@),
        None => None,
    }
}

/// The view of what arrives and of the transfers that were called off.
pub open spec fn arrivals(
    incoming: IncomingTransfers,
    cancelled: CancelledTransfers,
) -> ArrivalsView {
    ArrivalsView {
        book: incoming.book@,
        active: active_view(incoming.active),
        cancelled: cancelled@,
    }
}

impl ArrivalsView {
    /// What an announced file leads to.
    pub open spec fn file_header(
        self,
        transfer_id: u128,
        relative_path: Seq<char>,
        size_bytes: u64,
        blake3_hex: Seq<char>,
    ) -> (ArrivalsView, IncomingView) {
        match prepared(
            self.book,
            self.cancelled,
            transfer_id,
            relative_path,
            size_bytes,
            blake3_hex,
        ) {
            Err(error) => (self, IncomingView::Fail { transfer_id, error }),
            Ok(file) => (
                ArrivalsView { active: file, ..self },
                if file is Some { IncomingView::OpenFile } else { IncomingView::Go(None) },
            ),
        }
    }

    /// What a chunk leads to.
    pub open spec fn chunk(self, chunk: FileChunkView) -> IncomingView {
        if self.cancelled.contains(chunk.transfer_id) {
            IncomingView::Go(None)
        } else {
            match self.active {
                None => IncomingView::Go(None),
                Some(file) => match file.chunk_problem(chunk) {
                    Some(error) => IncomingView::Fail { transfer_id: chunk.transfer_id, error },
                    None => IncomingView::WriteChunk(chunk),
                },
            }
        }
    }

    /// What the end of a file leads to.
    pub open spec fn file_complete(
        self,
        transfer_id: u128,
        relative_path: Seq<char>,
        blake3_hex: Seq<char>,
    ) -> (ArrivalsView, IncomingView) {
        let idle = ArrivalsView { active: None, ..self };
        if self.cancelled.contains(transfer_id) {
            (idle, IncomingView::Go(None))
        } else {
            match self.active {
                None => (idle, IncomingView::Go(None)),
                Some(file) => match file.end_problem(transfer_id, relative_path) {
                    Some(error) => (idle, IncomingView::Fail { transfer_id, error }),
                    None => (
                        idle,
                        IncomingView::FinishFile { file, transfer_id, relative_path, blake3_hex },
                    ),
                },
            }
        }
    }

    /// What a message leads to.
    pub open spec fn message(self, message: BulkMessageView) -> (ArrivalsView, IncomingView) {
        match message {
            BulkMessageView::Manifest(manifest) => (
                self,
                match roots_of(manifest.files) {
                    Ok(roots) => IncomingView::ResolveRoots { manifest, roots },
                    Err(error) => IncomingView::Fail { transfer_id: manifest.transfer_id, error },
                },
            ),
            BulkMessageView::FileHeader { transfer_id, relative_path, size_bytes, blake3_hex } => {
                self.file_header(transfer_id, relative_path, size_bytes, blake3_hex)
            },
            BulkMessageView::Chunk(chunk) => (self, self.chunk(chunk)),
            BulkMessageView::FileComplete { transfer_id, relative_path, blake3_hex } => {
                self.file_complete(transfer_id, relative_path, blake3_hex)
            },
            BulkMessageView::TransferComplete { transfer_id } => (
                ArrivalsView { book: book_settled(self.book, transfer_id), ..self },
                IncomingView::Go(book_report(self.book, transfer_id)),
            ),
            BulkMessageView::Cancel { transfer_id } => (
                ArrivalsView {
                    book: book_cancelled(self.book, transfer_id),
                    active: None,
                    cancelled: self.cancelled.insert(transfer_id),
                },
                IncomingView::Go(Some(BulkEventView::Cancelled(transfer_id))),
            ),
        }
    }
}

impl IncomingTransfers {
    pub open spec fn wf(self) -> bool {
        self.active matches Some(file) ==> file.wf()
    }

    /// Nothing has arrived yet.
    pub fn new() -> (r: Self)
        ensures
            r.wf(),
            r.book@ == Map::<u128, ReceiveView>::empty(),
            r.active is None,
    {
        IncomingTransfers { book: ReceiveBook::default(), active: None }
    }

    fn on_file_complete(
        &mut self,
        transfer_id: u128,
        relative_path: String,
        blake3_hex: String,
        cancelled: &CancelledTransfers,
    ) -> (r: IncomingStep)
        requires
            old(self).wf(),
        ensures
            final(self).wf(),
            (arrivals(*final(self), *cancelled), r@) == arrivals(
                *old(self),
                *cancelled,
            ).file_complete(transfer_id, relative_path@, blake3_hex@),
    {
        let active = self.active.take();
        if cancelled.is_cancelled(transfer_id) {
            return IncomingStep::Go(None);
        }
        match active {
            Some(file) => {
                match file.check_end(transfer_id, relative_path.as_str()) {
                    Ok(_) => IncomingStep::FinishFile {
                        file,
                        transfer_id,
                        relative_path,
                        blake3_hex,
                    },
                    Err(error) => IncomingStep::Fail { transfer_id, error },
                }
            },
            None => IncomingStep::Go(None),
        }
    }

    /// A message of the sender.
    pub fn on_message(&mut self, message: BulkWireMessage, cancelled: &mut CancelledTransfers) -> (r:
        IncomingStep)
        requires
            old(self).wf(),
        ensures
            final(self).wf(),
            (arrivals(*final(self), *final(cancelled)), r@) == arrivals(
                *old(self),
                *old(cancelled),
            ).message(message@),
    {
        match message {
            BulkWireMessage::Manifest(manifest) => {
                match top_level_relative_paths(&manifest.files) {
                    Ok(roots) => IncomingStep::ResolveRoots { manifest, roots },
                    Err(error) => IncomingStep::Fail { transfer_id: manifest.transfer_id, error },
                }
            },
            BulkWireMessage::FileHeader { transfer_id, relative_path, size_bytes, blake3_hex } => {
                match prepare_receive_file(
                    &self.book,
                    cancelled,
                    transfer_id,
                    relative_path,
                    size_bytes,
                    blake3_hex,
                ) {
                    Ok(file) => {
                        let opened = file.is_some();
                        self.active = file;
                        if opened {
                            IncomingStep::OpenFile
                        } else {
                            IncomingStep::Go(None)
                        }
                    },
                    Err(error) => IncomingStep::Fail { transfer_id, error },
                }
            },
            BulkWireMessage::Chunk(chunk) => {
                if cancelled.is_cancelled(chunk.transfer_id) {
                    return IncomingStep::Go(None);
                }
                match &self.active {
                    Some(file) => match file.check_chunk(&chunk) {
                        Ok(_) => IncomingStep::WriteChunk(chunk),
                        Err(error) => IncomingStep::Fail {
                            transfer_id: chunk.transfer_id,
                            error,
                        },
                    },
                    None => IncomingStep::Go(None),
                }
            },
            BulkWireMessage::FileComplete { transfer_id, relative_path, blake3_hex } => {
                self.on_file_complete(transfer_id, relative_path, blake3_hex, cancelled)
            },
            BulkWireMessage::TransferComplete { transfer_id } => IncomingStep::Go(
                self.book.maybe_emit_completed(transfer_id),
            ),
            BulkWireMessage::Cancel { transfer_id } => {
                cancelled.mark_cancelled(transfer_id);
                self.active = None;
                self.book.cancelled(transfer_id);
                IncomingStep::Go(Some(BulkTransferEvent::Cancelled(transfer_id)))
            },
        }
    }

    /// The chunk of a `WriteChunk` step was written. Nothing happens if no file is
    /// being received any more, if the chunk does not continue it, or if the file
    /// would become too long to count.
    pub fn chunk_written(&mut self, chunk: &FileChunk) -> (r: Option<BulkTransferEvent>)
        requires
            old(self).wf(),
        ensures
            final(self).wf(),
            match active_view(old(self).active) {
                Some(file) => if file.chunk_problem(chunk@) is None && file.content.len()
                    + chunk@.bytes.len() <= u64::MAX {
                    &&& active_view(final(self).active) == Some(file.with_chunk(chunk@))
                    &&& final(self).book@ == book_progressed(
                        old(self).book@,
                        file.transfer_id,
                        chunk@.bytes.len(),
                    )
                    &&& event_view(r) == progress_report(
                        old(self).book@,
                        file.transfer_id,
                        chunk@.bytes.len(),
                        file.relative_path,
                    )
                } else {
                    active_view(final(self).active) == Some(file) && final(self).book@ == old(
                        self,
                    ).book@ && r is None
                },
                None => final(self).active is None && final(self).book@ == old(self).book@
                    && r is None,
            },
    {
        match self.active.take() {
            Some(mut file) => {
                let fits = match file.check_chunk(chunk) {
                    Ok(_) => file.has_room_for(chunk.bytes.len()),
                    Err(_) => false,
                };
                let event = if fits {
                    file.receive_chunk(&mut self.book, chunk)
                } else {
                    None
                };
                self.active = Some(file);
                event
            },
            None => None,
        }
    }
}

/// A file is put in its place only if exactly the announced bytes arrived: their
/// number and their digest are those that were announced, before and after.
pub proof fn law_only_announced_content_is_kept(
    file: ActiveView,
    transfer_id: u128,
    relative_path: Seq<char>,
    blake3_hex: Seq<char>,
    place_taken: bool,
)
    requires
        file.end_problem(transfer_id, relative_path) is None,
        file.digest_problem(blake3_hex, place_taken) is None,
    ensures
        transfer_id == file.transfer_id,
        relative_path == file.relative_path,
        file.content.len() == file.expected_size,
        digest_hex(file.content) == file.expected_hash,
        digest_hex(file.content) == blake3_hex,
        !place_taken,
{
}

/// A transfer is reported complete at most once.
pub proof fn law_completion_is_reported_once(book: Map<u128, ReceiveView>, id: u128)
    ensures
        book_report(book_settled(book, id), id) is None,
{
}

/// A transfer is reported complete only when as many files have arrived as were
/// announced.
pub proof fn law_completion_needs_all_files(book: Map<u128, ReceiveView>, id: u128)
    requires
        book_report(book, id) is Some,
    ensures
        book.contains_key(id),
        book[id].completed.len() == file_count(book[id].manifest.files),
{
}

/// Nothing of a transfer that was called off is written any more.
pub proof fn law_cancelled_transfers_are_not_written(
    state: ArrivalsView,
    id: u128,
    chunk: FileChunkView,
    relative_path: Seq<char>,
    size_bytes: u64,
    blake3_hex: Seq<char>,
)
    requires
        chunk.transfer_id == id,
    ensures
        ({
            let after = state.message(BulkMessageView::Cancel { transfer_id: id }).0;
            &&& after.chunk(chunk) == IncomingView::Go(None)
            &&& after.file_header(id, relative_path, size_bytes, blake3_hex).1
                == IncomingView::Go(None)
        }),
{
}

/// A transfer that is reported complete names one path for each root that was resolved
/// for it, in order and none besides: all that was copied can be pasted.
pub proof fn law_completion_names_every_root(book: Map<u128, ReceiveView>, id: u128)
    requires
        book_report(book, id) is Some,
    ensures
        book_report(book, id)->0 matches BulkEventView::Completed { transfer_id, cache_paths } && {
            &&& transfer_id == id
            &&& cache_paths.len() == book[id].roots.len()
            &&& forall|i: int|
                0 <= i < cache_paths.len() ==> #[trigger] cache_paths[i] == book[id].roots[i].path
        },
{
}

/// The number of entries that are not directories is what one more entry adds to it.
proof fn lemma_file_count(files: Seq<FileManifestEntryView>)
    ensures
        file_count(files) == files.filter(|e: FileManifestEntryView| !e.is_dir).len(),
    decreases files.len(),
{
    reveal(Seq::filter);
    if files.len() > 0 {
        lemma_file_count(files.drop_last());
    }
}

/// An announcement is taken down as it is: its manifest and the roots that were resolved
/// for it are kept for its own transfer, what had arrived of it stays, and other transfers
/// stay as they are.
pub proof fn law_announcements_are_kept(
    book: Map<u128, ReceiveView>,
    manifest: FileTransferManifestView,
    roots: Seq<RootView>,
    other: u128,
)
    ensures
        ({
            let id = manifest.transfer_id;
            let after = book_offered(book, manifest, roots);
            &&& after.contains_key(id)
            &&& after[id].manifest == manifest
            &&& after[id].roots == roots
            &&& book.contains_key(id) ==> after[id].completed == book[id].completed
                && after[id].bytes_done == book[id].bytes_done && (after[id].state
                == FileTransferState::Completed <==> book[id].state
                == FileTransferState::Completed)
            &&& !book.contains_key(id) ==> after[id].completed.len() == 0
                && after[id].bytes_done == 0 && after[id].state == FileTransferState::Offered
            &&& other != id ==> (after.contains_key(other) <==> book.contains_key(other))
                && after[other] == book[other]
        }),
{
}

/// A file that arrives counts once and for its own transfer, and the transfer is reported
/// complete with the last of its files and not before: as soon as as many different files
/// have arrived as were announced that are no directories.
pub proof fn law_last_file_completes_the_transfer(
    book: Map<u128, ReceiveView>,
    id: u128,
    path: Seq<char>,
    other: u128,
)
    requires
        book.contains_key(id),
        book[id].state != FileTransferState::Completed,
    ensures
        ({
            let with = book_with_file(book, id, path);
            let announced = book[id].manifest.files.filter(|e: FileManifestEntryView| !e.is_dir);
            let arrived = book[id].completed;
            &&& with[id].completed.contains(path)
            &&& arrived.contains(path) ==> with[id].completed == arrived
            &&& !arrived.contains(path) ==> with[id].completed.len() == arrived.len() + 1
            &&& arrived.is_prefix_of(with[id].completed)
            &&& with[id].roots == book[id].roots
            &&& with[id].manifest == book[id].manifest
            &&& other != id ==> with[other] == book[other] && (with.contains_key(other)
                <==> book.contains_key(other))
            &&& !arrived.contains(path) ==> (book_report(with, id) is Some <==> arrived.len() + 1
                == announced.len())
            &&& book_report(with, id) is Some ==> book_settled(with, id)[id].state
                == FileTransferState::Completed
        }),
{
    lemma_file_count(book[id].manifest.files);
    let with = book_with_file(book, id, path);
    assert(with[id].completed.last() == path || with[id].completed == book[id].completed);
    if !book[id].completed.contains(path) {
        assert(with[id].completed[book[id].completed.len() as int] == path);
    }
    assert(with[id].completed.take(book[id].completed.len() as int) =~= book[id].completed);
}

/// Bytes that arrive are added up, and what is reported is how far the transfer is: no
/// less than before, and with the announced total.
pub proof fn law_progress_adds_up(
    book: Map<u128, ReceiveView>,
    id: u128,
    count: nat,
    current_file: Seq<char>,
    other: u128,
)
    ensures
        progress_report(book, id, count, current_file) is Some <==> book.contains_key(id),
        book.contains_key(id) ==> {
            let after = book_progressed(book, id, count);
            &&& progress_report(book, id, count, current_file)->0 matches BulkEventView::Progress {
                transfer_id,
                bytes_done,
                bytes_total,
                current_file: file,
            }
            &&& transfer_id == id
            &&& file == current_file
            &&& bytes_total == book[id].manifest.total_bytes
            &&& bytes_done == after[id].bytes_done
            &&& book[id].bytes_done + count <= u64::MAX ==> bytes_done == book[id].bytes_done
                + count
            &&& book[id].bytes_done + count > u64::MAX ==> bytes_done == u64::MAX
            &&& after[id].completed == book[id].completed
            &&& after[id].roots == book[id].roots
            &&& after[id].manifest == book[id].manifest
            &&& other != id ==> after[other] == book[other]
        },
{
}

/// The chunks of a file are put together in the order of their places: a chunk is taken
/// exactly if it belongs to the file, begins where the file ends so far, and has its own
/// digest; then its bytes stand behind those before it.
pub proof fn law_chunks_are_put_together(file: ActiveView, chunk: FileChunkView)
    ensures
        file.chunk_problem(chunk) is None <==> chunk.transfer_id == file.transfer_id
            && chunk.relative_path == file.relative_path && chunk.offset == file.content.len()
            && digest_hex(chunk.bytes) == chunk.blake3_hex,
        ({
            let after = file.with_chunk(chunk);
            &&& after.content.len() == file.content.len() + chunk.bytes.len()
            &&& forall|i: int|
                0 <= i < file.content.len() ==> #[trigger] after.content[i] == file.content[i]
            &&& forall|i: int|
                0 <= i < chunk.bytes.len() ==> after.content[file.content.len() + i]
                    == #[trigger] chunk.bytes[i]
            &&& after.transfer_id == file.transfer_id
            &&& after.relative_path == file.relative_path
            &&& after.target == file.target
            &&& after.expected_size == file.expected_size
            &&& after.expected_hash == file.expected_hash
        }),
{
}

/// A file that was received as announced is accepted: if its bytes have the announced
/// number and digest and its place is free, nothing is wrong with it.
pub proof fn law_announced_content_is_accepted(
    file: ActiveView,
    blake3_hex: Seq<char>,
    place_taken: bool,
)
    ensures
        file.end_problem(file.transfer_id, file.relative_path) is None <==> file.content.len()
            == file.expected_size,
        file.digest_problem(blake3_hex, place_taken) is None <==> digest_hex(file.content)
            == file.expected_hash && digest_hex(file.content) == blake3_hex && !place_taken,
{
}

/// A file is received exactly if its transfer was announced and not called off and the
/// file is not there yet; then it starts empty, with what was announced of it, at a place
/// below a root of its own transfer. A file of an unknown transfer is an error.
pub proof fn law_files_are_received_as_announced(
    book: Map<u128, ReceiveView>,
    cancelled: Set<u128>,
    id: u128,
    path: Seq<char>,
    size_bytes: u64,
    blake3_hex: Seq<char>,
)
    ensures
        ({
            let r = prepared(book, cancelled, id, path, size_bytes, blake3_hex);
            let there = book.contains_key(id) && book[id].completed.contains(path);
            &&& cancelled.contains(id) || there ==> r == Ok::<Option<ActiveView>, Seq<char>>(None)
            &&& !cancelled.contains(id) && !book.contains_key(id) ==> r is Err
            &&& r matches Ok(Some(file)) ==> {
                &&& book.contains_key(id) && !cancelled.contains(id) && !there
                &&& file.transfer_id == id
                &&& file.relative_path == path
                &&& file.expected_size == size_bytes
                &&& file.expected_hash == blake3_hex
                &&& file.content.len() == 0
                &&& target_of(book[id].roots, path) == Ok::<TargetView, Seq<char>>(file.target)
            }
            &&& book.contains_key(id) && !cancelled.contains(id) && !there && target_of(
                book[id].roots,
                path,
            ) is Ok ==> (r matches Ok(Some(_)))
        }),
{
}

/// A path goes below the root that its first component was resolved to, through all the
/// components behind it.
pub proof fn law_targets_follow_their_path(roots: Seq<RootView>, path: Seq<char>)
    requires
        safe_components(path) is Ok,
    ensures
        ({
            let parts = safe_components(path)->Ok_0;
            let known = exists|i: int| 0 <= i < roots.len() && #[trigger] roots[i].root == parts[0];
            &&& target_of(roots, path) is Ok <==> known
            &&& target_of(roots, path) matches Ok(target) ==> {
                &&& target.parts.len() + 1 == parts.len()
                &&& forall|k: int|
                    0 <= k < target.parts.len() ==> #[trigger] target.parts[k] == parts[k + 1]
            }
        }),
{
    let parts = safe_components(path)->Ok_0;
    lemma_find_first(roots, |r: RootView| r.root == parts[0]);
}

/// The messages of a sender do what they say: an announcement asks for its own roots, a
/// chunk that fits is written as it is, the end of a file that fits hands the file over,
/// and a cancellation stops its transfer and is reported.
pub proof fn law_messages_do_what_they_say(
    state: ArrivalsView,
    manifest: FileTransferManifestView,
    chunk: FileChunkView,
    blake3_hex: Seq<char>,
    id: u128,
)
    ensures
        state.message(BulkMessageView::Manifest(manifest)).0 == state,
        state.message(BulkMessageView::Manifest(manifest)).1
            matches IncomingView::ResolveRoots { manifest: m, roots } ==> m == manifest
            && roots_of(manifest.files) == Ok::<Seq<Seq<char>>, Seq<char>>(roots),
        roots_of(manifest.files) is Ok ==> state.message(BulkMessageView::Manifest(manifest)).1
            is ResolveRoots,
        state.message(BulkMessageView::Chunk(chunk)).0 == state,
        state.message(BulkMessageView::Chunk(chunk)).1 matches IncomingView::WriteChunk(c) ==> c
            == chunk && state.active is Some && state.active->0.chunk_problem(chunk) is None
            && !state.cancelled.contains(chunk.transfer_id),
        state.active is Some && state.active->0.chunk_problem(chunk) is None
            && !state.cancelled.contains(chunk.transfer_id) ==> state.message(
            BulkMessageView::Chunk(chunk),
        ).1 == IncomingView::WriteChunk(chunk),
        state.active matches Some(current) ==> (!state.cancelled.contains(current.transfer_id)
            && current.content.len() == current.expected_size ==> state.message(
            BulkMessageView::FileComplete {
                transfer_id: current.transfer_id,
                relative_path: current.relative_path,
                blake3_hex,
            },
        ) == (
            (ArrivalsView { active: None, ..state }),
            IncomingView::FinishFile {
                file: current,
                transfer_id: current.transfer_id,
                relative_path: current.relative_path,
                blake3_hex,
            },
        )),
        ({
            let (after, step) = state.message(BulkMessageView::Cancel { transfer_id: id });
            &&& step == IncomingView::Go(Some(BulkEventView::Cancelled(id)))
            &&& after.cancelled.contains(id)
            &&& forall|other: u128|
                other != id ==> (after.cancelled.contains(other) <==> #[trigger]
                    state.cancelled.contains(other))
            &&& after.active is None
            &&& state.book.contains_key(id) ==> after.book[id].state
                == FileTransferState::Cancelled
        }),
{
}

/// The directories that are created are those of the announcement, in order: one for every
/// announced directory, at the place where its path leads.
pub proof fn law_announced_directories_are_created(
    roots: Seq<RootView>,
    files: Seq<FileManifestEntryView>,
    entry: FileManifestEntryView,
)
    requires
        directories(roots, files) is Ok,
    ensures
        ({
            let before = directories(roots, files)->Ok_0;
            let after = directories(roots, files.push(entry));
            &&& !entry.is_dir ==> after == Ok::<Seq<TargetView>, Seq<char>>(before)
            &&& entry.is_dir ==> match target_of(roots, entry.relative_path) {
                Ok(target) => after == Ok::<Seq<TargetView>, Seq<char>>(before.push(target)),
                Err(error) => after == Err::<Seq<TargetView>, Seq<char>>(error),
            }
            &&& files.len() == 0 ==> before.len() == 0
        }),
{
    assert(files.push(entry).drop_last() =~= files);
}

/// What is wrong with a chunk, the end of a file or its digest is told by name, the first
/// thing that is wrong first; what has nothing wrong is accepted.
pub proof fn law_problems_are_named(
    receiver: ActiveView,
    chunk: FileChunkView,
    transfer_id: u128,
    relative_path: Seq<char>,
    blake3_hex: Seq<char>,
    place_taken: bool,
)
    ensures
        receiver.chunk_problem(chunk) == Some("chunk transfer id mismatch"@)
            || chunk.transfer_id == receiver.transfer_id,
        chunk.transfer_id == receiver.transfer_id && chunk.relative_path != receiver.relative_path
            ==> receiver.chunk_problem(chunk) == Some("chunk relative path mismatch"@),
        chunk.transfer_id == receiver.transfer_id && chunk.relative_path == receiver.relative_path
            && chunk.offset != receiver.content.len() ==> receiver.chunk_problem(chunk) == Some(
            "chunk offset mismatch"@,
        ),
        chunk.transfer_id == receiver.transfer_id && chunk.relative_path == receiver.relative_path
            && chunk.offset == receiver.content.len() ==> receiver.chunk_problem(chunk) == (
        if digest_hex(chunk.bytes) == chunk.blake3_hex {
            None
        } else {
            Some("chunk checksum mismatch"@)
        }),
        transfer_id != receiver.transfer_id ==> receiver.end_problem(transfer_id, relative_path)
            == Some("file transfer id mismatch"@),
        transfer_id == receiver.transfer_id && relative_path != receiver.relative_path
            ==> receiver.end_problem(transfer_id, relative_path) == Some(
            "file relative path mismatch"@,
        ),
        transfer_id == receiver.transfer_id && relative_path == receiver.relative_path
            ==> receiver.end_problem(transfer_id, relative_path) == (if receiver.content.len()
            == receiver.expected_size {
            None
        } else {
            Some("file size mismatch"@)
        }),
        digest_hex(receiver.content) != receiver.expected_hash ==> receiver.digest_problem(
            blake3_hex,
            place_taken,
        ) == Some("file checksum mismatch"@),
        digest_hex(receiver.content) == receiver.expected_hash && blake3_hex
            != receiver.expected_hash ==> receiver.digest_problem(blake3_hex, place_taken) == Some(
            "file complete checksum mismatch"@,
        ),
        digest_hex(receiver.content) == receiver.expected_hash && blake3_hex
            == receiver.expected_hash ==> receiver.digest_problem(blake3_hex, place_taken) == (
        if place_taken {
            Some("cache path appeared before final rename"@)
        } else {
            None
        }),
{
}

} // verus!
