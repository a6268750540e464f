//! File drags that arrive at the agent: a drag starts there once its files are in
//! the cache, whichever is told first.
use crate::bulk_events::{BulkEventView, BulkTransferEvent};
use crate::controller_drag::without_session;
use crate::lists::{
    completed_place, drop_completed, keep_unrelated, other_completed, place_of_session,
    place_of_transfer, session_place, take_completed, transfer_place, unrelated, CompletedTransfer,
    CompletedView,
};
use crate::protocol::DragTransfer;
use crate::purposes::paths_view;
use crate::text::views;
use std::collections::BTreeSet;
use vstd::prelude::*;

verus! {

broadcast use {
    crate::text::lemma_views_push,
    vstd::std_specs::btree::group_btree_axioms,
    vstd::laws_cmp::group_laws_cmp,
};

/// The drags that wait for their files, the files that wait for their drag, the
/// native drag under way, and the drops that came before their drag.
#[derive(Debug, PartialEq, Eq)]
pub struct AgentDragDropRuntime {
    pending: Vec<DragTransfer>,
    completed: Vec<CompletedTransfer>,
    active_remote_drag: Option<u128>,
    committed_remote_drops: BTreeSet<u128>,
}

#[verifier::ext_equal]
pub struct AgentDragView {
    pub pending: Seq<DragTransfer>,
    pub completed: Seq<CompletedView>,
    pub active: Option<u128>,
    pub committed: Set<u128>,
}

impl View for AgentDragDropRuntime {
    type V = AgentDragView;

    closed spec fn view(&self) -> AgentDragView {
        AgentDragView {
            pending: self.pending@,
            completed: views(self.completed@),
            active: self.active_remote_drag,
            committed: self.committed_remote_drops@,
        }
    }
}

impl AgentDragView {
    /// Nothing is known.
    pub open spec fn none() -> AgentDragView {
        AgentDragView {
            pending: Seq::empty(),
            completed: Seq::empty(),
            active: None,
            committed: Set::empty(),
        }
    }

    /// A drag begins: if its files are there, they are used, else it waits.
    pub open spec fn started(self, drag: DragTransfer) -> (AgentDragView, Option<Seq<Seq<char>>>) {
        match completed_place(self.completed, drag.transfer_id) {
            Some(i) => (
                AgentDragView { completed: self.completed.remove(i), ..self },
                Some(self.completed[i].cache_paths),
            ),
            None => (
                AgentDragView { pending: unrelated(self.pending, drag).push(drag), ..self },
                None,
            ),
        }
    }

    /// A drag is called off.
    pub open spec fn without(self, session_id: u128) -> AgentDragView {
        AgentDragView {
            pending: without_session(self.pending, session_id),
            active: if self.active == Some(session_id) { None } else { self.active },
            committed: self.committed.remove(session_id),
            ..self
        }
    }

    /// The transfer of a drag that waits.
    pub open spec fn transfer_of(self, session_id: u128) -> Option<u128> {
        match session_place(self.pending, session_id) {
            Some(i) => Some(self.pending[i].transfer_id),
            None => None,
        }
    }

    /// The drag that waits for a transfer.
    pub open spec fn waiting_for(self, transfer_id: u128) -> Option<DragTransfer> {
        match transfer_place(self.pending, transfer_id) {
            Some(i) => Some(self.pending[i]),
            None => None,
        }
    }

    /// Without that drag.
    pub open spec fn not_waiting_for(self, transfer_id: u128) -> AgentDragView {
        match transfer_place(self.pending, transfer_id) {
            Some(i) => AgentDragView { pending: self.pending.remove(i), ..self },
            None => self,
        }
    }

    /// With the files of a transfer that no drag waits for yet.
    pub open spec fn with_completed(
        self,
        transfer_id: u128,
        cache_paths: Seq<Seq<char>>,
    ) -> AgentDragView {
        AgentDragView {
            completed: other_completed(self.completed, transfer_id).push(
                CompletedView { transfer_id, cache_paths },
            ),
            ..self
        }
    }

    /// The connection is lost: only files that arrived are kept.
    pub open spec fn disconnected(self) -> AgentDragView {
        AgentDragView { completed: self.completed, ..AgentDragView::none() }
    }

    /// What a transfer event means for the drags.
    pub open spec fn bulk(self, event: BulkEventView) -> (AgentDragView, Option<AgentBulkView>) {
        match event {
            BulkEventView::Completed { transfer_id, cache_paths } => match self.waiting_for(
                transfer_id,
            ) {
                Some(drag) => (
                    self.not_waiting_for(transfer_id),
                    Some(
                        AgentBulkView::StartRemoteDrag { session_id: drag.session_id, cache_paths },
                    ),
                ),
                None => (self.with_completed(transfer_id, cache_paths), None),
            },
            BulkEventView::Cancelled(transfer_id) => (
                self.not_waiting_for(transfer_id),
                match self.waiting_for(transfer_id) {
                    Some(drag) => Some(AgentBulkView::Cancelled { session_id: drag.session_id }),
                    None => None,
                },
            ),
            BulkEventView::Failed { transfer_id, error } => (
                self.not_waiting_for(transfer_id),
                match self.waiting_for(transfer_id) {
                    Some(drag) => Some(
                        AgentBulkView::Failed { session_id: drag.session_id, message: error },
                    ),
                    None => None,
                },
            ),
            _ => (self, None),
        }
    }
}

impl Default for AgentDragDropRuntime {
    fn default() -> (r: Self)
        ensures
            r@ == AgentDragView::none(),
    {
        let r = AgentDragDropRuntime {
            pending: Vec::new(),
            completed: Vec::new(),
            active_remote_drag: None,
            committed_remote_drops: BTreeSet::new(),
        };
        assert(r@ =~= AgentDragView::none());
        r
    }
}

/// The transfers of drags.
pub open spec fn transfers_of(drags: Seq<DragTransfer>) -> Seq<u128> {
    drags.map_values(|d: DragTransfer| d.transfer_id)
}

impl AgentDragDropRuntime {
    /// A drag begins. If its files are there already, they are returned.
    pub fn remember_start(&mut self, session: DragTransfer) -> (r: Option<Vec<String>>)
        ensures
            (final(self)@, paths_view(r)) == old(self)@.started(session),
    {
        match take_completed(&mut self.completed, session.transfer_id) {
            Some(cache_paths) => Some(cache_paths),
            None => {
                let mut kept = keep_unrelated(&self.pending, session);
                kept.push(session);
                self.pending = kept;
                None
            },
        }
    }

    /// A drag is called off. The transfer that it waited for is returned.
    pub fn cancel_session(&mut self, session_id: u128) -> (r: Option<u128>)
        ensures
            final(self)@ == old(self)@.without(session_id),
            r == old(self)@.transfer_of(session_id),
    {
        let _ = self.committed_remote_drops.remove(&session_id);
        let transfer_id = match place_of_session(&self.pending, session_id) {
            Some(i) => {
                let removed = self.pending.remove(i);
                Some(removed.transfer_id)
            },
            None => None,
        };
        if self.active_remote_drag == Some(session_id) {
            self.active_remote_drag = None;
        }
        transfer_id
    }

    /// Everything is called off, but files that arrived are kept. The transfers that
    /// drags waited for are returned.
    pub fn cancel_all_pending_transfers(&mut self) -> (r: Vec<u128>)
        ensures
            final(self)@ == old(self)@.disconnected(),
            r@ == transfers_of(old(self)@.pending),
    {
        let mut transfer_ids: Vec<u128> = Vec::new();
        let mut i: usize = 0;
        while i < self.pending.len()
            invariant
                i <= self.pending@.len(),
                transfer_ids@ == transfers_of(self.pending@).take(i as int),
            decreases self.pending@.len() - i,
        {
            transfer_ids.push(self.pending[i].transfer_id);
            assert(transfer_ids@ =~= transfers_of(self.pending@).take(i as int + 1));
            i = i + 1;
        }
        assert(transfer_ids@ =~= transfers_of(self.pending@));
        self.pending.clear();
        self.active_remote_drag = None;
        self.committed_remote_drops.clear();
        assert(self@ =~= old(self)@.disconnected());
        transfer_ids
    }

    /// Takes the drag that waits for a transfer.
    pub fn take_transfer_session(&mut self, transfer_id: u128) -> (r: Option<DragTransfer>)
        ensures
            final(self)@ == old(self)@.not_waiting_for(transfer_id),
            r == old(self)@.waiting_for(transfer_id),
    {
        match place_of_transfer(&self.pending, transfer_id) {
            Some(i) => Some(self.pending.remove(i)),
            None => None,
        }
    }

    /// Files arrived that no drag waits for yet.
    pub fn remember_completed_transfer(&mut self, transfer_id: u128, cache_paths: Vec<String>)
        ensures
            final(self)@ == old(self)@.with_completed(transfer_id, views(cache_paths@)),
    {
        drop_completed(&mut self.completed, transfer_id);
        self.completed.push(CompletedTransfer { transfer_id, cache_paths });
    }

    /// The native drag runs. Whether its files have been dropped already is returned.
    pub fn set_active_remote_drag(&mut self, session_id: u128) -> (r: bool)
        ensures
            final(self)@ == (AgentDragView {
                active: Some(session_id),
                committed: old(self)@.committed.remove(session_id),
                ..old(self)@
            }),
            r == old(self)@.committed.contains(session_id),
    {
        let committed = self.take_remote_drop_commit(session_id);
        self.active_remote_drag = Some(session_id);
        committed
    }

    /// The files of a drag are dropped. Whether its native drag runs is returned; if
    /// not, the drop is remembered.
    pub fn remember_remote_drop_commit(&mut self, session_id: u128) -> (r: bool)
        ensures
            r == (old(self)@.active == Some(session_id)),
            final(self)@ == (if r {
                old(self)@
            } else {
                AgentDragView {
                    committed: old(self)@.committed.insert(session_id),
                    ..old(self)@
                }
            }),
    {
        if self.active_remote_drag == Some(session_id) {
            true
        } else {
            let _ = self.committed_remote_drops.insert(session_id);
            false
        }
    }

    /// Whether the files of a drag have been dropped; that is then forgotten.
    pub fn take_remote_drop_commit(&mut self, session_id: u128) -> (r: bool)
        ensures
            r == old(self)@.committed.contains(session_id),
            final(self)@ == (AgentDragView {
                committed: old(self)@.committed.remove(session_id),
                ..old(self)@
            }),
    {
        self.committed_remote_drops.remove(&session_id)
    }

    /// Whether a native drag runs.
    pub fn has_active_drag(&self) -> (r: bool)
        ensures
            r == (self@.active is Some),
    {
        self.active_remote_drag.is_some()
    }

    pub fn clear(&mut self)
        ensures
            final(self)@ == AgentDragView::none(),
    {
        self.pending.clear();
        self.completed.clear();
        self.active_remote_drag = None;
        self.committed_remote_drops.clear();
        assert(self@ =~= AgentDragView::none());
    }
}

/// What a transfer event means for a drag.
#[allow(inconsistent_fields)]
#[derive(Debug, PartialEq, Eq)]
pub enum AgentDragDropBulkAction {
    StartRemoteDrag { session_id: u128, cache_paths: Vec<String> },
    Cancelled { session_id: u128 },
    Failed { session_id: u128, message: String },
}

#[allow(inconsistent_fields)]
pub enum AgentBulkView {
    StartRemoteDrag { session_id: u128, cache_paths: Seq<Seq<char>> },
    Cancelled { session_id: u128 },
    Failed { session_id: u128, message: Seq<char> },
}

impl View for AgentDragDropBulkAction {
    type V = AgentBulkView;

    open spec fn view(&self) -> AgentBulkView {
        match self {
            AgentDragDropBulkAction::StartRemoteDrag { session_id, cache_paths } => {
                AgentBulkView::StartRemoteDrag {
                    session_id: *session_id,
                    cache_paths: views(cache_paths@),
                }
            },
            AgentDragDropBulkAction::Cancelled { session_id } => AgentBulkView::Cancelled {
                session_id: *session_id,
            },
            AgentDragDropBulkAction::Failed { session_id, message } => AgentBulkView::Failed {
                session_id: *session_id,
                message: message@,
            },
        }
    }
}

/// The view of an action that may be missing.
pub open spec fn bulk_action_view(action: Option<AgentDragDropBulkAction>) -> Option<
    AgentBulkView,
> {
    match action {
        Some(a) => Some(a@),
        None => None,
    }
}

pub fn agent_drag_drop_action_for_bulk_transfer_event(
    event: BulkTransferEvent,
    drag_drop_runtime: &mut AgentDragDropRuntime,
) -> (r: Option<AgentDragDropBulkAction>)
    ensures
        (final(drag_drop_runtime)@, bulk_action_view(r)) == old(drag_drop_runtime)@.bulk(event@),
{
    match event {
        BulkTransferEvent::Completed { transfer_id, cache_paths } => {
            match drag_drop_runtime.take_transfer_session(transfer_id) {
                Some(session) => Some(
                    AgentDragDropBulkAction::StartRemoteDrag {
                        session_id: session.session_id,
                        cache_paths,
                    },
                ),
                None => {
                    drag_drop_runtime.remember_completed_transfer(transfer_id, cache_paths);
                    None
                },
            }
        },
        BulkTransferEvent::Cancelled(transfer_id) => {
            match drag_drop_runtime.take_transfer_session(transfer_id) {
                Some(session) => Some(
                    AgentDragDropBulkAction::Cancelled { session_id: session.session_id },
                ),
                None => None,
            }
        },
        BulkTransferEvent::Failed { transfer_id, error } => {
            match drag_drop_runtime.take_transfer_session(transfer_id) {
                Some(session) => Some(
                    AgentDragDropBulkAction::Failed {
                        session_id: session.session_id,
                        message: error,
                    },
                ),
                None => None,
            }
        },
        BulkTransferEvent::Offered(_) | BulkTransferEvent::Progress { .. }
        | BulkTransferEvent::Sent { .. } => None,
    }
}

/// It does not matter whether a drag is announced before or after its files arrive:
/// either way the native drag starts with those files.
pub proof fn law_announcement_and_arrival_commute(
    state: AgentDragView,
    drag: DragTransfer,
    cache_paths: Seq<Seq<char>>,
)
    requires
        completed_place(state.completed, drag.transfer_id) is None,
        transfer_place(state.pending, drag.transfer_id) is None,
    ensures
        ({
            let arrival = BulkEventView::Completed { transfer_id: drag.transfer_id, cache_paths };
            &&& state.started(drag).1 is None
            &&& state.started(drag).0.bulk(arrival).1 == Some(
                AgentBulkView::StartRemoteDrag { session_id: drag.session_id, cache_paths },
            )
            &&& state.bulk(arrival).1 is None
            &&& state.bulk(arrival).0.started(drag).1 == Some(cache_paths)
        }),
{
    let p = |d: DragTransfer| d.transfer_id == drag.transfer_id;
    let q = |d: DragTransfer|
        d.session_id != drag.session_id && d.transfer_id != drag.transfer_id;
    let others = unrelated(state.pending, drag);
    let all = others.push(drag);
    assert forall|j: int| 0 <= j < others.len() implies !p(all[j]) by {
        state.pending.lemma_filter_pred(q, j);
    }
    crate::lists::lemma_find_first_at(all, p, others.len() as int);
    let pc = |c: CompletedView| c.transfer_id == drag.transfer_id;
    let qc = |c: CompletedView| c.transfer_id != drag.transfer_id;
    let kept = other_completed(state.completed, drag.transfer_id);
    let with_files = kept.push(CompletedView { transfer_id: drag.transfer_id, cache_paths });
    assert forall|j: int| 0 <= j < kept.len() implies !pc(with_files[j]) by {
        state.completed.lemma_filter_pred(qc, j);
    }
    crate::lists::lemma_find_first_at(with_files, pc, kept.len() as int);
}

/// A transfer that is called off or fails ends exactly the drag that waited for it, with
/// the error; one that nobody waits for ends none. Other events change nothing.
pub proof fn law_failed_transfers_end_their_drag(
    state: AgentDragView,
    id: u128,
    error: Seq<char>,
    event: BulkEventView,
)
    ensures
        ({
            let cancelled = state.bulk(BulkEventView::Cancelled(id));
            let failed = state.bulk(BulkEventView::Failed { transfer_id: id, error });
            &&& state.waiting_for(id) matches Some(drag) ==> {
                &&& drag.transfer_id == id
                &&& cancelled.1 == Some(AgentBulkView::Cancelled { session_id: drag.session_id })
                &&& failed.1 == Some(
                    AgentBulkView::Failed { session_id: drag.session_id, message: error },
                )
                &&& cancelled.0.pending.len() + 1 == state.pending.len()
            }
            &&& state.waiting_for(id) is None ==> cancelled == (state, None::<AgentBulkView>)
                && failed == (state, None::<AgentBulkView>)
            &&& failed.0 == cancelled.0
            &&& cancelled.0.completed == state.completed
        }),
        event is Offered || event is Progress || event is Sent ==> state.bulk(event) == (
            state,
            None::<AgentBulkView>,
        ),
{
    crate::lists::lemma_find_first(state.pending, |d: DragTransfer| d.transfer_id == id);
}

/// A drag that is called off does not wait, run or drop any more; other drags stay as they
/// are. A lost connection leaves only the files that arrived.
pub proof fn law_called_off_drags_are_gone(state: AgentDragView, session_id: u128, other: u128)
    ensures
        ({
            let after = state.without(session_id);
            &&& after.active != Some(session_id)
            &&& !after.committed.contains(session_id)
            &&& state.active != Some(session_id) ==> after.active == state.active
            &&& other != session_id ==> after.committed.contains(other)
                == state.committed.contains(other)
            &&& after.completed == state.completed
            &&& state.transfer_of(session_id) is Some ==> after.pending.len() + 1
                == state.pending.len()
            &&& state.transfer_of(session_id) is None ==> after.pending == state.pending
        }),
        state.disconnected().completed == state.completed,
        state.disconnected().pending.len() == 0,
        state.disconnected().active is None,
        !state.disconnected().committed.contains(other),
        AgentDragView::none().completed.len() == 0,
{
    crate::lists::lemma_find_first(state.pending, |d: DragTransfer| d.session_id == session_id);
}

/// The transfer of a drag is that of the drag with its session, and the transfers of drags
/// are those of each, in order.
pub proof fn law_drags_know_their_transfer(state: AgentDragView, session_id: u128)
    ensures
        state.transfer_of(session_id) matches Some(id) ==> exists|i: int|
            0 <= i < state.pending.len() && #[trigger] state.pending[i] == (DragTransfer {
                session_id,
                transfer_id: id,
            }),
        state.transfer_of(session_id) is None ==> forall|i: int|
            0 <= i < state.pending.len() ==> (#[trigger] state.pending[i]).session_id != session_id,
        transfers_of(state.pending).len() == state.pending.len(),
        forall|i: int|
            0 <= i < state.pending.len() ==> #[trigger] transfers_of(state.pending)[i]
                == state.pending[i].transfer_id,
{
    crate::lists::lemma_find_first(state.pending, |d: DragTransfer| d.session_id == session_id);
}

/// A drop that comes before its drag runs is not lost: it is remembered, found when the
/// drag begins to run, and then forgotten.
pub proof fn law_early_drops_are_found(
    first: &mut AgentDragDropRuntime,
    then: &mut AgentDragDropRuntime,
    session_id: u128,
    running: bool,
    dropped: bool,
)
    requires
        call_ensures(
            AgentDragDropRuntime::remember_remote_drop_commit,
            (first, session_id),
            running,
        ),
        old(then)@ == final(first)@,
        call_ensures(AgentDragDropRuntime::set_active_remote_drag, (then, session_id), dropped),
    ensures
        running <==> old(first)@.active == Some(session_id),
        !running ==> dropped,
        final(then)@.active == Some(session_id),
        !final(then)@.committed.contains(session_id),
        final(then)@.pending == old(first)@.pending,
        final(then)@.completed == old(first)@.completed,
{
}

} // verus!
