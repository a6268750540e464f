//! What the drag-and-drop windows of this computer report.
use crate::text::views;
use vstd::prelude::*;

verus! {

#[allow(inconsistent_fields)]
#[derive(Debug, PartialEq, Eq)]
pub enum DragDropEvent {
    LocalFileDragEntered { session_id: u128, transfer_id: u128, paths: Vec<String> },
    LocalDragCancelled { session_id: u128 },
    LocalDropCommitted { session_id: u128 },
    RemoteDropStarted { session_id: u128 },
    RemoteDropFinished { session_id: u128 },
    Error { session_id: Option<u128>, message: String },
}

#[allow(inconsistent_fields)]
pub enum DragEventView {
    LocalFileDragEntered { session_id: u128, transfer_id: u128, paths: Seq<Seq<char>> },
    LocalDragCancelled { session_id: u128 },
    LocalDropCommitted { session_id: u128 },
    RemoteDropStarted { session_id: u128 },
    RemoteDropFinished { session_id: u128 },
    Error { session_id: Option<u128>, message: Seq<char> },
}

impl View for DragDropEvent {
    type V = DragEventView;

    open spec fn view(&self) -> DragEventView {
        match self {
            DragDropEvent::LocalFileDragEntered { session_id, transfer_id, paths } => {
                DragEventView::LocalFileDragEntered {
                    session_id: *session_id,
                    transfer_id: *transfer_id,
                    paths: views(paths@),
                }
            },
            DragDropEvent::LocalDragCancelled { session_id } => {
                DragEventView::LocalDragCancelled { session_id: *session_id }
            },
            DragDropEvent::LocalDropCommitted { session_id } => {
                DragEventView::LocalDropCommitted { session_id: *session_id }
            },
            DragDropEvent::RemoteDropStarted { session_id } => {
                DragEventView::RemoteDropStarted { session_id: *session_id }
            },
            DragDropEvent::RemoteDropFinished { session_id } => {
                DragEventView::RemoteDropFinished { session_id: *session_id }
            },
            DragDropEvent::Error { session_id, message } => DragEventView::Error {
                session_id: *session_id,
                message: message@,
            },
        }
    }
}

impl DragEventView {
    /// The local drag is over.
    pub open spec fn ends_handoff(self) -> bool {
        self is LocalDragCancelled || self is LocalDropCommitted || self is Error
    }
}

/// Whether the local drag is over after an event.
pub fn controller_drag_event_ends_local_handoff(event: &DragDropEvent) -> (r: bool)
    ensures
        r == event@.ends_handoff(),
{
    match event {
        DragDropEvent::LocalDragCancelled { .. } | DragDropEvent::LocalDropCommitted { .. }
        | DragDropEvent::Error { .. } => true,
        _ => false,
    }
}

/// The drag that hovers over the edge window of this computer.
#[derive(Clone, Copy, Debug, PartialEq, Eq, Structural)]
pub struct EdgeDrag {
    pub active_session: Option<u128>,
}

/// What the edge window answers a drag: whether a drop would copy.
#[derive(Clone, Copy, Debug, PartialEq, Eq, Structural)]
pub enum DropAnswer {
    Copy,
    Refuse,
}

impl EdgeDrag {
    /// A drag enters. `paths` are the files that it carries, if it carries files;
    /// the identifiers are for the session that begins.
    pub fn enter(
        &mut self,
        paths: Option<Vec<String>>,
        session_id: u128,
        transfer_id: u128,
    ) -> (r: (DropAnswer, Option<DragDropEvent>))
        ensures
            match paths {
                Some(files) => if files@.len() > 0 {
                    &&& final(self).active_session == Some(session_id)
                    &&& r.0 == DropAnswer::Copy
                    &&& r.1 matches Some(event)
                    &&& event == (DragDropEvent::LocalFileDragEntered {
                        session_id,
                        transfer_id,
                        paths: files,
                    })
                } else {
                    *final(self) == *old(self) && r.0 == DropAnswer::Refuse && r.1 is None
                },
                None => *final(self) == *old(self) && r.0 == DropAnswer::Refuse && r.1 is None,
            },
    {
        match paths {
            Some(files) => {
                if files.len() == 0 {
                    return (DropAnswer::Refuse, None);
                }
                self.active_session = Some(session_id);
                (
                    DropAnswer::Copy,
                    Some(
                        DragDropEvent::LocalFileDragEntered {
                            session_id,
                            transfer_id,
                            paths: files,
                        },
                    ),
                )
            },
            None => (DropAnswer::Refuse, None),
        }
    }

    /// A drag moves over the window.
    pub fn over(&self) -> (r: DropAnswer)
        ensures
            r == (if self.active_session is Some {
                DropAnswer::Copy
            } else {
                DropAnswer::Refuse
            }),
    {
        if self.active_session.is_some() {
            DropAnswer::Copy
        } else {
            DropAnswer::Refuse
        }
    }

    /// The drag ends, by leaving or by a drop. The session that ended is told, if
    /// there was one.
    pub fn finish(&mut self) -> (r: Option<u128>)
        ensures
            r == old(self).active_session,
            final(self).active_session is None,
    {
        self.active_session.take()
    }
}

/// A drag that moves over the edge is answered by whether it was taken, and every event but
/// the beginning of a drag and the progress of a drop gives the pointer back.
pub proof fn law_taken_drags_stay_taken(
    drag: EdgeDrag,
    event: DragEventView,
    answer: DropAnswer,
)
    requires
        call_ensures(EdgeDrag::over, (&drag,), answer),
    ensures
        answer == DropAnswer::Copy <==> drag.active_session is Some,
        event.ends_handoff() <==> !(event is LocalFileDragEntered || event is RemoteDropStarted
            || event is RemoteDropFinished),
{
}

/// A drag that comes to the edge is taken exactly if it carries files, and then it is
/// reported with all of them. When it ends, its session is told, once.
pub proof fn law_file_drags_are_taken(
    drag: &mut EdgeDrag,
    paths: Option<Vec<String>>,
    session_id: u128,
    transfer_id: u128,
    r: (DropAnswer, Option<DragDropEvent>),
    ended: &mut EdgeDrag,
    told: Option<u128>,
)
    requires
        call_ensures(EdgeDrag::enter, (drag, paths, session_id, transfer_id), r),
        call_ensures(EdgeDrag::finish, (ended,), told),
    ensures
        r.0 == DropAnswer::Copy <==> paths is Some && paths->0@.len() > 0,
        r.1 is Some <==> r.0 == DropAnswer::Copy,
        r.1 matches Some(event) ==> (event@ matches DragEventView::LocalFileDragEntered {
            session_id: s,
            transfer_id: t,
            paths: p,
        } && s == session_id && t == transfer_id && p == views(paths->0@)),
        r.0 == DropAnswer::Copy ==> final(drag).active_session == Some(session_id),
        r.0 != DropAnswer::Copy ==> final(drag).active_session == old(drag).active_session,
        told == old(ended).active_session,
        final(ended).active_session is None,
{
}

} // verus!
