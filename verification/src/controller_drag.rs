//! Local file drags that the controller hands over to the other computer.
use crate::bulk_events::{
    bulk_transfer_event_id, bulk_transfer_event_is_terminal, BulkCommandView, BulkEventView,
    BulkTransferCommand, BulkTransferEvent,
};
use crate::drag_events::{DragDropEvent, DragEventView};
use crate::file_transfer::{clone_texts, FileTransferManifest, FileTransferManifestView};
use crate::lists::{
    find_first, keep_unrelated, lemma_filter_step, lemma_find_first, lemma_find_first_at,
    lemma_find_first_none, place_of_session, place_of_transfer, session_place, transfer_place,
    unrelated,
};
use crate::protocol::{DragTransfer, MessageView, WireMessage};
use crate::session::{ActionView, Channels, PumpAction, SessionUpdate, UpdateView};
use crate::text::{decimal, join2, join4, number, views};
use crate::transport::{CommandView, ConnectionCommand};
use vstd::prelude::*;

verus! {

broadcast use crate::text::lemma_views_push;

/// A drag of files that has not been released yet.
#[derive(Debug, PartialEq, Eq)]
pub struct HeldDrag {
    pub drag: DragTransfer,
    pub paths: Vec<String>,
}

#[verifier::ext_equal]
pub struct HeldView {
    pub drag: DragTransfer,
    pub paths: Seq<Seq<char>>,
}

impl View for HeldDrag {
    type V = HeldView;

    open spec fn view(&self) -> HeldView {
        HeldView { drag: self.drag, paths: views(self.paths@) }
    }
}

/// The place of the first held drag of a session.
pub open spec fn held_place(held: Seq<HeldView>, session_id: u128) -> Option<int> {
    find_first(held, |h: HeldView| h.drag.session_id == session_id)
}

/// The held drags that share neither session nor transfer with another one.
pub open spec fn unrelated_held(held: Seq<HeldView>, other: DragTransfer) -> Seq<HeldView> {
    held.filter(
        |h: HeldView|
            h.drag.session_id != other.session_id && h.drag.transfer_id != other.transfer_id,
    )
}

/// The drags of the controller. Files are on their way only of those that are sending.
#[derive(Debug, PartialEq, Eq)]
pub struct ControllerDragDropRuntime {
    held: Vec<HeldDrag>,
    released: Vec<DragTransfer>,
    pending: Vec<DragTransfer>,
}

/// `held` are the drags whose button is down, `released` those whose files are being
/// collected, `sending` those whose transfer has begun.
#[verifier::ext_equal]
pub struct DragsView {
    pub held: Seq<HeldView>,
    pub released: Seq<DragTransfer>,
    pub sending: Seq<DragTransfer>,
}

impl View for ControllerDragDropRuntime {
    type V = DragsView;

    closed spec fn view(&self) -> DragsView {
        DragsView {
            held: views(self.held@),
            released: self.released@,
            sending: self.pending@,
        }
    }
}

/// The drags without the first one of a session.
pub open spec fn without_session(drags: Seq<DragTransfer>, session_id: u128) -> Seq<DragTransfer> {
    match session_place(drags, session_id) {
        Some(i) => drags.remove(i),
        None => drags,
    }
}

/// The drags without the first one with a transfer.
pub open spec fn without_transfer(
    drags: Seq<DragTransfer>,
    transfer_id: u128,
) -> Seq<DragTransfer> {
    match transfer_place(drags, transfer_id) {
        Some(i) => drags.remove(i),
        None => drags,
    }
}

/// The held drags without the first one of a session.
pub open spec fn without_held(held: Seq<HeldView>, session_id: u128) -> Seq<HeldView> {
    match held_place(held, session_id) {
        Some(i) => held.remove(i),
        None => held,
    }
}

impl DragsView {
    /// No drags.
    pub open spec fn none() -> DragsView {
        DragsView { held: Seq::empty(), released: Seq::empty(), sending: Seq::empty() }
    }

    /// A drag is over, wherever it stood.
    pub open spec fn forget(self, session_id: u128) -> DragsView {
        DragsView {
            held: without_held(self.held, session_id),
            released: without_session(self.released, session_id),
            sending: without_session(self.sending, session_id),
        }
    }

    /// The button of a drag is released: a held drag waits for its files.
    pub open spec fn release(self, session_id: u128) -> DragsView {
        DragsView {
            held: without_held(self.held, session_id),
            released: match held_place(self.held, session_id) {
                Some(i) => self.released.push(self.held[i].drag),
                None => self.released,
            },
            sending: without_session(self.sending, session_id),
        }
    }

    /// The button of a drag was released, and its files have not been sent yet.
    pub open spec fn may_send(self, drag: DragTransfer) -> bool {
        match session_place(self.released, drag.session_id) {
            Some(i) => self.released[i] == drag,
            None => false,
        }
    }

    /// The sessions whose transfer has not begun.
    pub open spec fn waiting(self) -> Seq<u128> {
        self.released.map_values(|d: DragTransfer| d.session_id) + self.held.map_values(
            |h: HeldView| h.drag.session_id,
        )
    }
}

fn take_held(v: &mut Vec<HeldDrag>, session_id: u128) -> (r: Option<HeldDrag>)
    ensures
        views(final(v)@) == without_held(views(old(v)@), session_id),
        match held_place(views(old(v)@), session_id) {
            Some(i) => r matches Some(held) && held@ == views(old(v)@)[i],
            None => r is None,
        },
{
    let ghost p = |h: HeldView| h.drag.session_id == session_id;
    let ghost start = views(v@);
    let mut i: usize = 0;
    while i < v.len()
        invariant
            i <= v@.len(),
            views(v@) == start,
            start == views(old(v)@),
            p == (|h: HeldView| h.drag.session_id == session_id),
            forall|j: int| 0 <= j < i ==> start[j].drag.session_id != session_id,
        decreases v@.len() - i,
    {
        assert(start[i as int] == v@[i as int]@);
        if v[i].drag.session_id == session_id {
            proof {
                lemma_find_first_at(start, p, i as int);
            }
            let found = v.remove(i);
            assert(views(v@) =~= start.remove(i as int));
            return Some(found);
        }
        i = i + 1;
    }
    proof {
        lemma_find_first_none(start, p);
    }
    None
}

fn drop_related_held(v: &mut Vec<HeldDrag>, other: DragTransfer)
    ensures
        views(final(v)@) == unrelated_held(views(old(v)@), other),
{
    let ghost p = |h: HeldView|
        h.drag.session_id != other.session_id && h.drag.transfer_id != other.transfer_id;
    let ghost start = views(v@);
    let ghost mut seen: int = 0;
    let mut i: usize = 0;
    proof {
        reveal(Seq::filter);
        assert(start.take(0) =~= Seq::<HeldView>::empty());
        assert(views(v@) =~= start.take(0).filter(p) + start.skip(0));
    }
    while i < v.len()
        invariant
            0 <= seen <= start.len(),
            p == (|h: HeldView|
                h.drag.session_id != other.session_id && h.drag.transfer_id
                    != other.transfer_id),
            i == start.take(seen).filter(p).len(),
            views(v@) == start.take(seen).filter(p) + start.skip(seen),
        decreases start.len() - seen,
    {
        proof {
            lemma_filter_step(start, p, seen);
            assert(views(v@).len() == v@.len());
            assert(views(v@)[i as int] == start.skip(seen)[0]);
            assert(start.skip(seen)[0] == start[seen]);
        }
        let drag = v[i].drag;
        if drag.session_id != other.session_id && drag.transfer_id != other.transfer_id {
            assert(views(v@) =~= start.take(seen + 1).filter(p) + start.skip(seen + 1));
            i = i + 1;
        } else {
            let ghost before = v@;
            let _ = v.remove(i);
            proof {
                assert(views(v@) =~= views(before).remove(i as int));
                assert(views(v@) =~= start.take(seen + 1).filter(p) + start.skip(seen + 1));
            }
        }
        proof {
            seen = seen + 1;
        }
    }
    proof {
        assert(views(v@).len() == v@.len());
        assert(start.skip(seen).len() == 0);
        assert(start.take(seen) =~= start);
        assert(views(v@) =~= start.filter(p));
    }
}

impl Default for ControllerDragDropRuntime {
    fn default() -> (r: Self)
        ensures
            r@ == DragsView::none(),
    {
        let r = ControllerDragDropRuntime {
            held: Vec::new(),
            released: Vec::new(),
            pending: Vec::new(),
        };
        assert(r@ =~= DragsView::none());
        r
    }
}

impl ControllerDragDropRuntime {
    /// A drag comes to the edge. It replaces held drags with the same session or
    /// transfer.
    pub fn hold(&mut self, drag: DragTransfer, paths: Vec<String>)
        ensures
            final(self)@ == (DragsView {
                held: unrelated_held(old(self)@.held, drag).push(
                    HeldView { drag, paths: views(paths@) },
                ),
                ..old(self)@
            }),
    {
        drop_related_held(&mut self.held, drag);
        self.held.push(HeldDrag { drag, paths });
    }

    /// The transfer of a drag has begun. It replaces those with the same session or
    /// transfer.
    pub fn remember_start(&mut self, session: DragTransfer)
        ensures
            final(self)@ == (DragsView {
                sending: unrelated(old(self)@.sending, session).push(session),
                ..old(self)@
            }),
    {
        let mut kept = keep_unrelated(&self.pending, session);
        kept.push(session);
        self.pending = kept;
    }

    /// Whether a drag is held over the edge.
    pub fn has_active(&self) -> (r: bool)
        ensures
            r == (self@.held.len() > 0),
    {
        self.held.len() > 0
    }

    /// Forgets a drag. Its transfer is returned, if it had begun.
    pub fn cancel_session(&mut self, session_id: u128) -> (r: Option<u128>)
        ensures
            final(self)@ == old(self)@.forget(session_id),
            r == (match session_place(old(self)@.sending, session_id) {
                Some(i) => Some(old(self)@.sending[i].transfer_id),
                None => None,
            }),
    {
        let _ = take_held(&mut self.held, session_id);
        match place_of_session(&self.released, session_id) {
            Some(i) => {
                let _ = self.released.remove(i);
            },
            None => {},
        }
        match place_of_session(&self.pending, session_id) {
            Some(i) => {
                let removed = self.pending.remove(i);
                Some(removed.transfer_id)
            },
            None => None,
        }
    }

    /// The button of a drag is released. The drag is returned, if it was held; its
    /// files may be sent from now on.
    pub fn complete_session(&mut self, session_id: u128) -> (r: Option<HeldDrag>)
        ensures
            final(self)@ == old(self)@.release(session_id),
            match held_place(old(self)@.held, session_id) {
                Some(i) => r matches Some(held) && held@ == old(self)@.held[i],
                None => r is None,
            },
    {
        match place_of_session(&self.pending, session_id) {
            Some(i) => {
                let _ = self.pending.remove(i);
            },
            None => {},
        }
        let held = take_held(&mut self.held, session_id);
        match &held {
            Some(held) => {
                self.released.push(held.drag);
            },
            None => {},
        }
        held
    }

    /// The files of a drag were collected. Whether the drag was released is returned;
    /// it does not wait for its files any more.
    pub fn take_released(&mut self, drag: DragTransfer) -> (r: bool)
        ensures
            r == old(self)@.may_send(drag),
            final(self)@ == (if r {
                DragsView {
                    released: without_session(old(self)@.released, drag.session_id),
                    ..old(self)@
                }
            } else {
                old(self)@
            }),
    {
        match place_of_session(&self.released, drag.session_id) {
            Some(i) => {
                if self.released[i].transfer_id == drag.transfer_id {
                    let _ = self.released.remove(i);
                    true
                } else {
                    false
                }
            },
            None => false,
        }
    }

    /// A transfer is over.
    pub fn transfer_over(&mut self, transfer_id: u128)
        ensures
            final(self)@ == (DragsView {
                sending: without_transfer(old(self)@.sending, transfer_id),
                ..old(self)@
            }),
    {
        match place_of_transfer(&self.pending, transfer_id) {
            Some(i) => {
                let _ = self.pending.remove(i);
            },
            None => {},
        }
    }

    /// The sessions whose transfer has not begun.
    pub fn waiting_sessions(&self) -> (r: Vec<u128>)
        ensures
            r@ == self@.waiting(),
    {
        let mut out: Vec<u128> = Vec::new();
        let mut i: usize = 0;
        while i < self.released.len()
            invariant
                i <= self.released@.len(),
                out@ == self.released@.take(i as int).map_values(|d: DragTransfer| d.session_id),
            decreases self.released@.len() - i,
        {
            out.push(self.released[i].session_id);
            i = i + 1;
            assert(out@ =~= self.released@.take(i as int).map_values(
                |d: DragTransfer| d.session_id,
            ));
        }
        let ghost first = out@;
        assert(self.released@.take(self.released@.len() as int) =~= self.released@);
        let mut j: usize = 0;
        while j < self.held.len()
            invariant
                j <= self.held@.len(),
                out@ == first + self@.held.take(j as int).map_values(
                    |h: HeldView| h.drag.session_id,
                ),
                self@.held.len() == self.held@.len(),
            decreases self.held@.len() - j,
        {
            assert(self@.held[j as int] == self.held@[j as int]@);
            out.push(self.held[j].drag.session_id);
            j = j + 1;
            assert(out@ =~= first + self@.held.take(j as int).map_values(
                |h: HeldView| h.drag.session_id,
            ));
        }
        assert(self@.held.take(self@.held.len() as int) =~= self@.held);
        out
    }

    /// Forgets all drags and returns those whose transfer has begun.
    pub fn cancel_all(&mut self) -> (r: Vec<DragTransfer>)
        ensures
            final(self)@ == DragsView::none(),
            r@ == old(self)@.sending,
    {
        self.held = Vec::new();
        self.released = Vec::new();
        let mut drags: Vec<DragTransfer> = Vec::new();
        drags.append(&mut self.pending);
        assert(drags@ =~= old(self)@.sending);
        assert(self@ =~= DragsView::none());
        drags
    }
}

/// The drags that are under way, and what was done.
#[verifier::ext_equal]
pub struct DragTrace {
    pub drags: DragsView,
    pub out: Seq<ActionView>,
}

/// The view of the drags and of the actions so far.
pub open spec fn drag_trace(runtime: ControllerDragDropRuntime, out: Seq<PumpAction>) -> DragTrace {
    DragTrace { drags: runtime@, out: views(out) }
}

/// Reports a drag event.
pub open spec fn drag_report(event: DragEventView) -> ActionView {
    ActionView::Update(UpdateView::DragDrop(event))
}

/// Reports that a drag failed.
pub open spec fn drag_failure(session_id: u128, message: Seq<char>) -> ActionView {
    drag_report(DragEventView::Error { session_id: Some(session_id), message })
}

/// Tells the peer.
pub open spec fn tell_peer(message: MessageView) -> ActionView {
    ActionView::Connection(CommandView::SendReliable(message))
}

/// Tells the peer that a drag is off.
pub open spec fn cancel_notice(session_id: u128) -> ActionView {
    tell_peer(MessageView::DragDropCancel { session_id, reason: ""@ })
}

/// Calls a transfer off.
pub open spec fn transfer_off(transfer_id: u128) -> ActionView {
    ActionView::BulkAll(BulkCommandView::Cancel(transfer_id))
}

/// What gives up drags one after the other.
pub open spec fn give_up_all(drags: Seq<DragTransfer>) -> Seq<ActionView>
    decreases drags.len(),
{
    if drags.len() == 0 {
        Seq::empty()
    } else {
        give_up_all(drags.drop_last()).push(transfer_off(drags.last().transfer_id)).push(
            drag_report(
                DragEventView::LocalDragCancelled { session_id: drags.last().session_id },
            ),
        )
    }
}

/// Reports that sessions have come to an end.
pub open spec fn reports_of_end(sessions: Seq<u128>) -> Seq<ActionView> {
    sessions.map_values(
        |session_id: u128| drag_report(DragEventView::LocalDragCancelled { session_id }),
    )
}

impl DragTrace {
    pub open spec fn emit(self, action: ActionView) -> DragTrace {
        DragTrace { out: self.out.push(action), ..self }
    }

    /// A drag is called off; its transfer with it, if it had begun.
    pub open spec fn cancel(self, session_id: u128, notify_peer: bool) -> DragTrace {
        let forgotten = DragTrace { drags: self.drags.forget(session_id), ..self };
        let stopped = match session_place(self.drags.sending, session_id) {
            Some(i) => forgotten.emit(transfer_off(self.drags.sending[i].transfer_id)),
            None => forgotten,
        };
        let told = if notify_peer {
            stopped.emit(cancel_notice(session_id))
        } else {
            stopped
        };
        told.emit(drag_report(DragEventView::LocalDragCancelled { session_id }))
    }

    /// All drags are called off, without a word to the peer.
    pub open spec fn cancel_all(self) -> DragTrace {
        DragTrace {
            drags: DragsView::none(),
            out: self.out + give_up_all(self.drags.sending) + reports_of_end(self.drags.waiting()),
        }
    }

    /// What an event of the drag windows leads to. Nothing is sent of files that are
    /// held; they are collected once the button is released.
    pub open spec fn event(self, event: DragEventView, channels: Channels) -> DragTrace {
        match event {
            DragEventView::LocalFileDragEntered { session_id, transfer_id, paths } => {
                if channels.bulk_available {
                    let drag = DragTransfer { session_id, transfer_id };
                    DragTrace {
                        drags: DragsView {
                            held: unrelated_held(self.drags.held, drag).push(
                                HeldView { drag, paths },
                            ),
                            ..self.drags
                        },
                        ..self
                    }.emit(drag_report(event))
                } else {
                    self.emit(
                        drag_failure(
                            session_id,
                            "file drag/drop failed: bulk transfer channel is not available"@,
                        ),
                    )
                }
            },
            DragEventView::LocalDragCancelled { session_id } => self.cancel(session_id, true),
            DragEventView::LocalDropCommitted { session_id } => {
                let told = DragTrace { drags: self.drags.release(session_id), ..self }.emit(
                    tell_peer(MessageView::DragDropCommit { session_id }),
                ).emit(drag_report(event));
                match held_place(self.drags.held, session_id) {
                    Some(i) => told.emit(
                        ActionView::CollectDragFiles {
                            drag: self.drags.held[i].drag,
                            paths: self.drags.held[i].paths,
                        },
                    ),
                    None => told,
                }
            },
            DragEventView::Error { session_id, .. } => match session_id {
                Some(id) => self.cancel(id, true).emit(drag_report(event)),
                None => self.cancel_all().emit(drag_report(event)),
            },
            DragEventView::RemoteDropStarted { .. }
            | DragEventView::RemoteDropFinished { .. } => self,
        }
    }

    /// What a report of the file transfer channel means: a drag whose transfer is over
    /// is forgotten.
    pub open spec fn bulk(self, event: BulkEventView) -> DragTrace {
        if event.terminal() {
            DragTrace {
                drags: DragsView {
                    sending: without_transfer(self.drags.sending, event.id()),
                    ..self.drags
                },
                ..self
            }
        } else {
            self
        }
    }

    /// What happens once the files of a drag were collected, or could not be. Nothing
    /// happens unless the button was released. The peer hears of the drag before the
    /// files go out, and a drag whose files cannot go out is called off.
    pub open spec fn collected(
        self,
        drag: DragTransfer,
        paths: Seq<Seq<char>>,
        manifest: Result<FileTransferManifestView, Seq<char>>,
        limit: u64,
        channels: Channels,
    ) -> DragTrace {
        let taken = DragTrace {
            drags: DragsView {
                released: without_session(self.drags.released, drag.session_id),
                ..self.drags
            },
            ..self
        };
        if !self.drags.may_send(drag) {
            self
        } else {
            match manifest {
                Ok(m) => if m.total_bytes > limit {
                    taken.emit(
                        drag_failure(
                            drag.session_id,
                            "file drag/drop ignored: files are "@ + decimal(m.total_bytes as nat)
                                + " bytes, file transfer limit is "@ + decimal(limit as nat),
                        ),
                    )
                } else if !channels.connection_open {
                    taken.emit(
                        drag_failure(
                            drag.session_id,
                            "file drag/drop failed: connection command channel closed"@,
                        ),
                    )
                } else {
                    let started = taken.emit(tell_peer(MessageView::DragDropStart(drag)));
                    if !channels.bulk_open {
                        started.emit(cancel_notice(drag.session_id)).emit(
                            drag_failure(
                                drag.session_id,
                                "file drag/drop failed: bulk transfer command channel closed"@,
                            ),
                        )
                    } else {
                        DragTrace {
                            drags: DragsView {
                                sending: unrelated(self.drags.sending, drag).push(drag),
                                ..taken.drags
                            },
                            ..started.emit(
                                ActionView::BulkLast(
                                    BulkCommandView::SendFiles { manifest: m, source_paths: paths },
                                ),
                            )
                        }
                    }
                },
                Err(error) => taken.emit(
                    drag_failure(drag.session_id, "file drag/drop failed: "@ + error),
                ),
            }
        }
    }
}

/// The view of a manifest or of why there is none.
pub open spec fn manifest_view(manifest: Result<FileTransferManifest, String>) -> Result<
    FileTransferManifestView,
    Seq<char>,
> {
    match manifest {
        Ok(m) => Ok(m@),
        Err(error) => Err(error@),
    }
}

fn failure(session_id: u128, message: String) -> (r: PumpAction)
    ensures
        r@ == drag_failure(session_id, message@),
{
    PumpAction::Update(
        SessionUpdate::DragDrop(DragDropEvent::Error { session_id: Some(session_id), message }),
    )
}

/// Tells the peer that a drag is off.
pub fn notice_of_cancel(session_id: u128) -> (r: PumpAction)
    ensures
        r@ == cancel_notice(session_id),
{
    PumpAction::Connection(
        ConnectionCommand::SendReliable(
            WireMessage::DragDropCancel { session_id, reason: "".to_owned() },
        ),
    )
}

fn report_of_end(session_id: u128) -> (r: PumpAction)
    ensures
        r@ == drag_report(DragEventView::LocalDragCancelled { session_id }),
{
    PumpAction::Update(SessionUpdate::DragDrop(DragDropEvent::LocalDragCancelled { session_id }))
}

pub fn send_bulk_cancel(transfer_id: u128) -> (r: PumpAction)
    ensures
        r@ == transfer_off(transfer_id),
{
    PumpAction::BulkAll(BulkTransferCommand::Cancel(transfer_id))
}

pub fn cancel_controller_drag_drop_session(
    session_id: u128,
    drag_drop_runtime: &mut ControllerDragDropRuntime,
    notify_peer: bool,
    out: &mut Vec<PumpAction>,
)
    ensures
        drag_trace(*final(drag_drop_runtime), final(out)@) == drag_trace(
            *old(drag_drop_runtime),
            old(out)@,
        ).cancel(session_id, notify_peer),
{
    match drag_drop_runtime.cancel_session(session_id) {
        Some(transfer_id) => {
            out.push(send_bulk_cancel(transfer_id));
        },
        None => {},
    }
    if notify_peer {
        out.push(notice_of_cancel(session_id));
    }
    out.push(report_of_end(session_id));
}

pub fn cancel_all_controller_drag_drop_sessions(
    drag_drop_runtime: &mut ControllerDragDropRuntime,
    out: &mut Vec<PumpAction>,
)
    ensures
        drag_trace(*final(drag_drop_runtime), final(out)@) == drag_trace(
            *old(drag_drop_runtime),
            old(out)@,
        ).cancel_all(),
{
    let ghost start = drag_trace(*drag_drop_runtime, out@);
    let waiting = drag_drop_runtime.waiting_sessions();
    let drags = drag_drop_runtime.cancel_all();
    let mut i: usize = 0;
    assert(drags@.take(0) =~= Seq::<DragTransfer>::empty());
    assert(start.out + give_up_all(drags@.take(0)) =~= start.out);
    while i < drags.len()
        invariant
            i <= drags@.len(),
            views(out@) == start.out + give_up_all(drags@.take(i as int)),
        decreases drags@.len() - i,
    {
        let drag = drags[i];
        out.push(send_bulk_cancel(drag.transfer_id));
        out.push(report_of_end(drag.session_id));
        proof {
            assert(drags@.take(i as int + 1).drop_last() =~= drags@.take(i as int));
            assert(views(out@) =~= start.out + give_up_all(drags@.take(i as int + 1)));
        }
        i = i + 1;
    }
    assert(drags@.take(drags@.len() as int) =~= drags@);
    let ghost stopped = views(out@);
    let mut j: usize = 0;
    assert(stopped + reports_of_end(waiting@.take(0)) =~= stopped);
    while j < waiting.len()
        invariant
            j <= waiting@.len(),
            views(out@) == stopped + reports_of_end(waiting@.take(j as int)),
        decreases waiting@.len() - j,
    {
        out.push(report_of_end(waiting[j]));
        j = j + 1;
        assert(views(out@) =~= stopped + reports_of_end(waiting@.take(j as int)));
    }
    assert(waiting@.take(waiting@.len() as int) =~= waiting@);
}

pub fn handle_controller_drag_drop_event(
    event: DragDropEvent,
    drag_drop_runtime: &mut ControllerDragDropRuntime,
    channels: Channels,
    out: &mut Vec<PumpAction>,
)
    ensures
        drag_trace(*final(drag_drop_runtime), final(out)@) == drag_trace(
            *old(drag_drop_runtime),
            old(out)@,
        ).event(event@, channels),
{
    match event {
        DragDropEvent::LocalFileDragEntered { session_id, transfer_id, paths } => {
            if channels.bulk_available {
                drag_drop_runtime.hold(
                    DragTransfer { session_id, transfer_id },
                    clone_texts(&paths),
                );
                out.push(
                    PumpAction::Update(
                        SessionUpdate::DragDrop(
                            DragDropEvent::LocalFileDragEntered { session_id, transfer_id, paths },
                        ),
                    ),
                );
            } else {
                out.push(
                    failure(
                        session_id,
                        "file drag/drop failed: bulk transfer channel is not available".to_owned(),
                    ),
                );
            }
        },
        DragDropEvent::LocalDragCancelled { session_id } => {
            cancel_controller_drag_drop_session(session_id, drag_drop_runtime, true, out);
        },
        DragDropEvent::LocalDropCommitted { session_id } => {
            let held = drag_drop_runtime.complete_session(session_id);
            out.push(
                PumpAction::Connection(
                    ConnectionCommand::SendReliable(WireMessage::DragDropCommit { session_id }),
                ),
            );
            out.push(
                PumpAction::Update(
                    SessionUpdate::DragDrop(DragDropEvent::LocalDropCommitted { session_id }),
                ),
            );
            match held {
                Some(held) => {
                    out.push(PumpAction::CollectDragFiles { drag: held.drag, paths: held.paths });
                },
                None => {},
            }
        },
        DragDropEvent::Error { session_id, message } => {
            match session_id {
                Some(id) => {
                    cancel_controller_drag_drop_session(id, drag_drop_runtime, true, out);
                },
                None => {
                    cancel_all_controller_drag_drop_sessions(drag_drop_runtime, out);
                },
            }
            out.push(
                PumpAction::Update(
                    SessionUpdate::DragDrop(DragDropEvent::Error { session_id, message }),
                ),
            );
        },
        DragDropEvent::RemoteDropStarted { .. } | DragDropEvent::RemoteDropFinished { .. } => {},
    }
}

/// The files of a drag were collected, or could not be.
pub fn handle_controller_drag_files(
    drag: DragTransfer,
    paths: Vec<String>,
    manifest: Result<FileTransferManifest, String>,
    max_file_transfer_bytes: u64,
    drag_drop_runtime: &mut ControllerDragDropRuntime,
    channels: Channels,
    out: &mut Vec<PumpAction>,
)
    ensures
        drag_trace(*final(drag_drop_runtime), final(out)@) == drag_trace(
            *old(drag_drop_runtime),
            old(out)@,
        ).collected(drag, views(paths@), manifest_view(manifest), max_file_transfer_bytes, channels),
{
    if !drag_drop_runtime.take_released(drag) {
        return;
    }
    match manifest {
        Ok(manifest) => {
            if manifest.total_bytes > max_file_transfer_bytes {
                let total_text = number(manifest.total_bytes);
                let limit_text = number(max_file_transfer_bytes);
                out.push(
                    failure(
                        drag.session_id,
                        join4(
                            "file drag/drop ignored: files are ",
                            total_text.as_str(),
                            " bytes, file transfer limit is ",
                            limit_text.as_str(),
                        ),
                    ),
                );
                return;
            }
            if !channels.connection_open {
                out.push(
                    failure(
                        drag.session_id,
                        "file drag/drop failed: connection command channel closed".to_owned(),
                    ),
                );
                return;
            }
            out.push(
                PumpAction::Connection(
                    ConnectionCommand::SendReliable(WireMessage::DragDropStart(drag)),
                ),
            );
            if !channels.bulk_open {
                out.push(notice_of_cancel(drag.session_id));
                out.push(
                    failure(
                        drag.session_id,
                        "file drag/drop failed: bulk transfer command channel closed".to_owned(),
                    ),
                );
                return;
            }
            out.push(
                PumpAction::BulkLast(
                    BulkTransferCommand::SendFiles { manifest, source_paths: paths },
                ),
            );
            drag_drop_runtime.remember_start(drag);
        },
        Err(error) => {
            out.push(
                failure(drag.session_id, join2("file drag/drop failed: ", error.as_str())),
            );
        },
    }
}

/// The file transfer channel reported something.
pub fn handle_controller_bulk_transfer_event(
    event: &BulkTransferEvent,
    drag_drop_runtime: &mut ControllerDragDropRuntime,
)
    ensures
        forall|out: Seq<PumpAction>| #[trigger]
            drag_trace(*final(drag_drop_runtime), out) == drag_trace(
                *old(drag_drop_runtime),
                out,
            ).bulk(event@),
{
    if bulk_transfer_event_is_terminal(event) {
        drag_drop_runtime.transfer_over(bulk_transfer_event_id(event));
    }
}

/// An action that sends files.
pub open spec fn sends_files(action: ActionView) -> bool {
    action matches ActionView::BulkLast(BulkCommandView::SendFiles { .. }) || (
    action matches ActionView::BulkAll(BulkCommandView::SendFiles { .. }))
}

/// Nothing is sent of files before the button is released: no event of the drag windows
/// sends files, files that were collected are sent only of a released drag, and a drag
/// is released only by its own commit.
pub proof fn law_files_wait_for_the_release(
    trace: DragTrace,
    event: DragEventView,
    drag: DragTransfer,
    paths: Seq<Seq<char>>,
    manifest: Result<FileTransferManifestView, Seq<char>>,
    limit: u64,
    channels: Channels,
)
    ensures
        trace.out.is_prefix_of(trace.event(event, channels).out),
        forall|i: int|
            trace.out.len() <= i < trace.event(event, channels).out.len() ==> !sends_files(
                #[trigger] trace.event(event, channels).out[i],
            ),
        !trace.drags.may_send(drag) ==> trace.collected(drag, paths, manifest, limit, channels)
            == trace,
        trace.event(event, channels).drags.released.contains(drag)
            && !trace.drags.released.contains(drag) ==> event == (
        DragEventView::LocalDropCommitted { session_id: drag.session_id }),
{
    let after = trace.event(event, channels);
    match event {
        DragEventView::LocalDropCommitted { session_id } => {
            lemma_held_place(trace.drags.held, session_id);
            assert forall|d: DragTransfer|
                after.drags.released.contains(d) && !trace.drags.released.contains(d) implies
                d.session_id == session_id by {
                let i = choose|i: int|
                    0 <= i < after.drags.released.len() && after.drags.released[i] == d;
                if i < trace.drags.released.len() {
                    assert(trace.drags.released[i] == d);
                }
            }
        },
        DragEventView::LocalDragCancelled { session_id } => {
            lemma_fewer(trace.drags.released, session_id, drag);
        },
        DragEventView::Error { session_id, .. } => {
            match session_id {
                Some(id) => {
                    lemma_fewer(trace.drags.released, id, drag);
                },
                None => {
                    lemma_giving_up_sends_nothing(trace.drags.sending);
                    let given = give_up_all(trace.drags.sending);
                    let reports = reports_of_end(trace.drags.waiting());
                    assert forall|i: int|
                        trace.out.len() <= i < after.out.len() implies !sends_files(
                        #[trigger] after.out[i],
                    ) by {
                        let k = i - trace.out.len();
                        if k < given.len() {
                            assert(after.out[i] == given[k]);
                        } else if k - given.len() < reports.len() {
                            assert(after.out[i] == reports[k - given.len()]);
                        }
                    }
                },
            }
        },
        _ => {},
    }
    assert(trace.out.is_prefix_of(after.out)) by {
        assert(after.out.take(trace.out.len() as int) =~= trace.out);
        assert(trace.out =~= after.out.subrange(0, trace.out.len() as int));
    }
}

proof fn lemma_held_place(held: Seq<HeldView>, session_id: u128)
    ensures
        held_place(held, session_id) matches Some(i) ==> 0 <= i < held.len()
            && held[i].drag.session_id == session_id,
{
    lemma_find_first(held, |h: HeldView| h.drag.session_id == session_id);
}

proof fn lemma_fewer(drags: Seq<DragTransfer>, session_id: u128, drag: DragTransfer)
    ensures
        without_session(drags, session_id).contains(drag) ==> drags.contains(drag),
{
    lemma_find_first(drags, |d: DragTransfer| d.session_id == session_id);
    let fewer = without_session(drags, session_id);
    if fewer.contains(drag) {
        let k = choose|k: int| 0 <= k < fewer.len() && fewer[k] == drag;
        if let Some(i) = session_place(drags, session_id) {
            assert(fewer[k] == if k < i { drags[k] } else { drags[k + 1] });
        }
    }
}

proof fn lemma_giving_up_sends_nothing(drags: Seq<DragTransfer>)
    ensures
        forall|i: int|
            0 <= i < give_up_all(drags).len() ==> !sends_files(#[trigger] give_up_all(drags)[i]),
    decreases drags.len(),
{
    if drags.len() > 0 {
        lemma_giving_up_sends_nothing(drags.drop_last());
        let earlier = give_up_all(drags.drop_last());
        assert forall|i: int| 0 <= i < give_up_all(drags).len() implies !sends_files(
            #[trigger] give_up_all(drags)[i],
        ) by {
            if i < earlier.len() {
                assert(give_up_all(drags)[i] == earlier[i]);
            }
        }
    }
}

/// Files go out once the button was released: a held drag whose button is released is
/// collected, and its files are sent if they are within the limit and the channels are
/// open, unless an earlier drag of the same session still waits for its files.
pub proof fn law_released_files_are_sent(
    trace: DragTrace,
    drag: DragTransfer,
    paths: Seq<Seq<char>>,
    manifest: FileTransferManifestView,
    limit: u64,
    channels: Channels,
)
    requires
        held_place(trace.drags.held, drag.session_id) is Some,
        trace.drags.held[held_place(trace.drags.held, drag.session_id)->0] == (HeldView {
            drag,
            paths,
        }),
        session_place(trace.drags.released, drag.session_id) matches Some(i)
            ==> trace.drags.released[i] == drag,
        manifest.total_bytes <= limit,
        channels.connection_open,
        channels.bulk_open,
    ensures
        ({
            let committed = trace.event(
                DragEventView::LocalDropCommitted { session_id: drag.session_id },
                channels,
            );
            let after = committed.collected(drag, paths, Ok(manifest), limit, channels);
            &&& committed.out.last() == ActionView::CollectDragFiles { drag, paths }
            &&& after.out == committed.out.push(tell_peer(MessageView::DragDropStart(drag))).push(
                ActionView::BulkLast(BulkCommandView::SendFiles { manifest, source_paths: paths }),
            )
            &&& after.drags.sending.contains(drag)
        }),
{
    let p = |d: DragTransfer| d.session_id == drag.session_id;
    let released = trace.drags.released.push(drag);
    lemma_find_first(trace.drags.released, p);
    let place = match session_place(trace.drags.released, drag.session_id) {
        Some(i) => i,
        None => trace.drags.released.len() as int,
    };
    assert forall|j: int| 0 <= j < place implies !p(released[j]) by {
        assert(released[j] == trace.drags.released[j]);
    }
    lemma_find_first_at(released, p, place);
    let committed = trace.event(
        DragEventView::LocalDropCommitted { session_id: drag.session_id },
        channels,
    );
    assert(committed.drags.released == released);
    let after = committed.collected(drag, paths, Ok(manifest), limit, channels);
    assert(after.drags.sending.last() == drag);
}

/// After the connection is lost no drag is left, and every transfer of a drag that had
/// begun was called off.
pub proof fn law_no_drag_survives_a_lost_connection(trace: DragTrace, i: int)
    requires
        0 <= i < trace.drags.sending.len(),
    ensures
        trace.cancel_all().drags == DragsView::none(),
        trace.cancel_all().out.contains(transfer_off(trace.drags.sending[i].transfer_id)),
{
    let drags = trace.drags.sending;
    lemma_given_up(drags, i);
    let given = give_up_all(drags);
    let k = choose|k: int| 0 <= k < given.len() && given[k] == transfer_off(drags[i].transfer_id);
    assert(trace.cancel_all().out[trace.out.len() + k] == transfer_off(drags[i].transfer_id));
}

proof fn lemma_given_up(drags: Seq<DragTransfer>, i: int)
    requires
        0 <= i < drags.len(),
    ensures
        exists|k: int|
            0 <= k < give_up_all(drags).len() && give_up_all(drags)[k] == transfer_off(
                drags[i].transfer_id,
            ),
    decreases drags.len(),
{
    let earlier = give_up_all(drags.drop_last());
    let all = give_up_all(drags);
    if i == drags.len() - 1 {
        assert(all[earlier.len() as int] == transfer_off(drags[i].transfer_id));
    } else {
        lemma_given_up(drags.drop_last(), i);
        let k = choose|k: int|
            0 <= k < earlier.len() && earlier[k] == transfer_off(
                drags.drop_last()[i].transfer_id,
            );
        assert(all[k] == earlier[k]);
    }
}

/// A drag whose transfer has begun is called off completely: it is forgotten, its
/// transfer is called off, and the peer is told unless it said so itself.
pub proof fn law_cancelled_drag_stops_its_transfer(
    trace: DragTrace,
    drag: DragTransfer,
    notify_peer: bool,
)
    ensures
        ({
            let others = unrelated(trace.drags.sending, drag);
            let started = DragTrace {
                drags: DragsView { sending: others.push(drag), ..trace.drags },
                ..trace
            };
            let after = started.cancel(drag.session_id, notify_peer);
            &&& after.drags.sending == others
            &&& after.out.contains(transfer_off(drag.transfer_id))
            &&& notify_peer ==> after.out.contains(cancel_notice(drag.session_id))
        }),
{
    let q = |d: DragTransfer|
        d.session_id != drag.session_id && d.transfer_id != drag.transfer_id;
    let p = |d: DragTransfer| d.session_id == drag.session_id;
    let others = unrelated(trace.drags.sending, drag);
    let all = others.push(drag);
    assert forall|j: int| 0 <= j < others.len() implies !p(all[j]) by {
        trace.drags.sending.lemma_filter_pred(q, j);
    }
    lemma_find_first_at(all, p, others.len() as int);
    let started = DragTrace { drags: DragsView { sending: all, ..trace.drags }, ..trace };
    let after = started.cancel(drag.session_id, notify_peer);
    assert(after.drags.sending =~= others);
    assert(after.out[trace.out.len() as int] == transfer_off(drag.transfer_id));
    if notify_peer {
        assert(after.out[trace.out.len() as int + 1] == cancel_notice(drag.session_id));
    }
}

/// A drag that is held is called off without a word to the file transfer channel, since
/// nothing of it was sent.
pub proof fn law_held_drag_has_nothing_to_stop(trace: DragTrace, session_id: u128)
    requires
        session_place(trace.drags.sending, session_id) is None,
    ensures
        trace.cancel(session_id, true).out == trace.out.push(cancel_notice(session_id)).push(
            drag_report(DragEventView::LocalDragCancelled { session_id }),
        ),
{
}

/// A drag that comes to the edge is held with exactly its files, and told; without a
/// channel for files it is refused with the reason and not held.
pub proof fn law_drags_are_held_with_their_files(
    trace: DragTrace,
    drag: DragTransfer,
    paths: Seq<Seq<char>>,
    channels: Channels,
)
    ensures
        ({
            let event = DragEventView::LocalFileDragEntered {
                session_id: drag.session_id,
                transfer_id: drag.transfer_id,
                paths,
            };
            let after = trace.event(event, channels);
            &&& after.out.len() == trace.out.len() + 1
            &&& channels.bulk_available ==> {
                &&& after.drags.held.last() == (HeldView { drag, paths })
                &&& after.out.last() == drag_report(event)
                &&& forall|i: int|
                    0 <= i < after.drags.held.len() - 1 ==> (#[trigger] after.drags.held[i]).drag.session_id
                        != drag.session_id
            }
            &&& !channels.bulk_available ==> after.drags == trace.drags && after.out.last()
                == drag_failure(
                drag.session_id,
                "file drag/drop failed: bulk transfer channel is not available"@,
            )
            &&& after.drags.sending == trace.drags.sending
            &&& after.drags.released == trace.drags.released
        }),
{
    let others = unrelated_held(trace.drags.held, drag);
    let keep = |h: HeldView|
        h.drag.session_id != drag.session_id && h.drag.transfer_id != drag.transfer_id;
    assert forall|i: int| 0 <= i < others.len() implies (#[trigger] others[i]).drag.session_id
        != drag.session_id by {
        trace.drags.held.lemma_filter_pred(keep, i);
    }
    assert forall|i: int| 0 <= i < others.len() implies others.push(HeldView { drag, paths })[i]
        == others[i] by {}
}

/// A drop is told to the peer and the window, in this order, whether or not the drag was
/// held; an error of the drag windows is shown after what it ends.
pub proof fn law_drops_are_told(
    trace: DragTrace,
    session_id: u128,
    message: Seq<char>,
    channels: Channels,
)
    ensures
        ({
            let event = DragEventView::LocalDropCommitted { session_id };
            let after = trace.event(event, channels);
            let n = trace.out.len() as int;
            &&& after.out[n] == tell_peer(MessageView::DragDropCommit { session_id })
            &&& after.out[n + 1] == drag_report(event)
            &&& after.out.len() == n + 2 <==> held_place(trace.drags.held, session_id) is None
        }),
        ({
            let event = DragEventView::Error { session_id: Some(session_id), message };
            let after = trace.event(event, channels);
            &&& after.out.last() == drag_report(event)
            &&& after.drags == trace.drags.forget(session_id)
        }),
        ({
            let event = DragEventView::Error { session_id: None, message };
            let after = trace.event(event, channels);
            &&& after.out.last() == drag_report(event)
            &&& after.drags == DragsView::none()
        }),
        ({
            let after = trace.event(DragEventView::LocalDragCancelled { session_id }, channels);
            &&& after.drags == trace.drags.forget(session_id)
            &&& after.out.last() == drag_report(DragEventView::LocalDragCancelled { session_id })
            &&& after.out[after.out.len() - 2] == cancel_notice(session_id)
        }),
{
}

/// Files that are too large, could not be collected or have no channel are not sent, and
/// the window is told why; the drag does not wait for them any more.
pub proof fn law_unsent_files_are_reported(
    trace: DragTrace,
    drag: DragTransfer,
    paths: Seq<Seq<char>>,
    manifest: Result<FileTransferManifestView, Seq<char>>,
    limit: u64,
    channels: Channels,
)
    requires
        trace.drags.may_send(drag),
        manifest is Err || manifest->Ok_0.total_bytes > limit || !channels.connection_open
            || !channels.bulk_open,
    ensures
        ({
            let after = trace.collected(drag, paths, manifest, limit, channels);
            &&& after.drags.sending == trace.drags.sending
            &&& after.drags.held == trace.drags.held
            &&& after.drags.released.len() + 1 == trace.drags.released.len()
            &&& after.out.last() matches ActionView::Update(UpdateView::DragDrop(told))
            &&& told matches DragEventView::Error { session_id, message }
            &&& session_id == Some(drag.session_id)
            &&& manifest matches Err(error) ==> message == "file drag/drop failed: "@ + error
            &&& forall|i: int|
                trace.out.len() <= i < after.out.len() ==> !sends_files(#[trigger] after.out[i])
        }),
{
    lemma_find_first(trace.drags.released, |d: DragTransfer| d.session_id == drag.session_id);
}

/// A transfer that is over belongs to no drag any more, and only its last report says so.
pub proof fn law_finished_transfers_are_forgotten(trace: DragTrace, event: BulkEventView)
    ensures
        !event.terminal() ==> trace.bulk(event) == trace,
        event.terminal() ==> trace.bulk(event).drags.sending == without_transfer(
            trace.drags.sending,
            event.id(),
        ),
        trace.bulk(event).drags.held == trace.drags.held,
        trace.bulk(event).drags.released == trace.drags.released,
        trace.bulk(event).out == trace.out,
{
}

} // verus!
