//! One drag-and-drop operation between the two computers and its phases.
use crate::geometry::Point;
use crate::ids::{hyphenated, id_text};
use crate::text::{join3, join4, quote, quoted, signed_decimal, signed_number, views};
use vstd::prelude::*;

verus! {

#[derive(Clone, Copy, Debug, PartialEq, Eq, Structural)]
pub enum DragDirection {
    ControllerToAgent,
    AgentToController,
}

#[derive(Clone, Copy, Debug, PartialEq, Eq, Structural)]
pub enum DropResolutionKind {
    Desktop,
    ExplorerDirectory,
    FolderIcon,
}

/// What the source learns of the place where files will be written.
#[derive(Debug, PartialEq, Eq)]
pub struct DropTargetSummary {
    pub display_name: String,
    pub resolution_kind: DropResolutionKind,
    pub authorization: u128,
}

pub struct DropTargetView {
    pub display_name: Seq<char>,
    pub resolution_kind: DropResolutionKind,
    pub authorization: u128,
}

impl View for DropTargetSummary {
    type V = DropTargetView;

    open spec fn view(&self) -> DropTargetView {
        DropTargetView {
            display_name: self.display_name@,
            resolution_kind: self.resolution_kind,
            authorization: self.authorization,
        }
    }
}

impl Clone for DropTargetSummary {
    fn clone(&self) -> (r: Self)
        ensures
            r == *self,
    {
        DropTargetSummary {
            display_name: self.display_name.clone(),
            resolution_kind: self.resolution_kind,
            authorization: self.authorization,
        }
    }
}

#[derive(Debug, PartialEq, Eq)]
pub enum DragDropPhase {
    LocalDragDetected,
    RemoteTargetSelecting,
    RemoteDropReleased { release_point: Point },
    RemoteTargetResolved { target: DropTargetSummary },
    Transferring,
    Completed,
    Cancelled { reason: String },
    Failed { reason: String },
}

pub enum PhaseView {
    LocalDragDetected,
    RemoteTargetSelecting,
    RemoteDropReleased { release_point: Point },
    RemoteTargetResolved { target: DropTargetView },
    Transferring,
    Completed,
    Cancelled { reason: Seq<char> },
    Failed { reason: Seq<char> },
}

impl View for DragDropPhase {
    type V = PhaseView;

    open spec fn view(&self) -> PhaseView {
        match self {
            DragDropPhase::LocalDragDetected => PhaseView::LocalDragDetected,
            DragDropPhase::RemoteTargetSelecting => PhaseView::RemoteTargetSelecting,
            DragDropPhase::RemoteDropReleased { release_point } => PhaseView::RemoteDropReleased {
                release_point: *release_point,
            },
            DragDropPhase::RemoteTargetResolved { target } => PhaseView::RemoteTargetResolved {
                target: target@,
            },
            DragDropPhase::Transferring => PhaseView::Transferring,
            DragDropPhase::Completed => PhaseView::Completed,
            DragDropPhase::Cancelled { reason } => PhaseView::Cancelled { reason: reason@ },
            DragDropPhase::Failed { reason } => PhaseView::Failed { reason: reason@ },
        }
    }
}

impl Clone for DragDropPhase {
    fn clone(&self) -> (r: Self)
        ensures
            r == *self,
    {
        match self {
            DragDropPhase::LocalDragDetected => DragDropPhase::LocalDragDetected,
            DragDropPhase::RemoteTargetSelecting => DragDropPhase::RemoteTargetSelecting,
            DragDropPhase::RemoteDropReleased { release_point } => {
                DragDropPhase::RemoteDropReleased { release_point: *release_point }
            },
            DragDropPhase::RemoteTargetResolved { target } => {
                DragDropPhase::RemoteTargetResolved { target: target.clone() }
            },
            DragDropPhase::Transferring => DragDropPhase::Transferring,
            DragDropPhase::Completed => DragDropPhase::Completed,
            DragDropPhase::Cancelled { reason } => DragDropPhase::Cancelled {
                reason: reason.clone(),
            },
            DragDropPhase::Failed { reason } => DragDropPhase::Failed { reason: reason.clone() },
        }
    }
}

impl PhaseView {
    /// The operation has come to an end.
    pub open spec fn terminal(self) -> bool {
        self is Completed || self is Cancelled || self is Failed
    }
}

/// The name of a kind of destination.
pub open spec fn kind_name(kind: DropResolutionKind) -> Seq<char> {
    match kind {
        DropResolutionKind::Desktop => "Desktop"@,
        DropResolutionKind::ExplorerDirectory => "ExplorerDirectory"@,
        DropResolutionKind::FolderIcon => "FolderIcon"@,
    }
}

fn name_of_kind(kind: DropResolutionKind) -> (r: String)
    ensures
        r@ == kind_name(kind),
{
    match kind {
        DropResolutionKind::Desktop => "Desktop".to_owned(),
        DropResolutionKind::ExplorerDirectory => "ExplorerDirectory".to_owned(),
        DropResolutionKind::FolderIcon => "FolderIcon".to_owned(),
    }
}

/// A phase in the notation used by error messages.
pub open spec fn phase_text(phase: PhaseView) -> Seq<char> {
    match phase {
        PhaseView::LocalDragDetected => "LocalDragDetected"@,
        PhaseView::RemoteTargetSelecting => "RemoteTargetSelecting"@,
        PhaseView::RemoteDropReleased { release_point } => {
            "RemoteDropReleased { release_point: Point { x: "@ + signed_decimal(
                release_point.x as int,
            ) + ", y: "@ + signed_decimal(release_point.y as int) + " } }"@
        },
        PhaseView::RemoteTargetResolved { target } => {
            "RemoteTargetResolved { target: DropTargetSummary { display_name: "@ + quoted(
                target.display_name,
            ) + ", resolution_kind: "@ + kind_name(target.resolution_kind) + ", authorization: "@
                + hyphenated(target.authorization) + " } }"@
        },
        PhaseView::Transferring => "Transferring"@,
        PhaseView::Completed => "Completed"@,
        PhaseView::Cancelled { reason } => "Cancelled { reason: "@ + quoted(reason) + " }"@,
        PhaseView::Failed { reason } => "Failed { reason: "@ + quoted(reason) + " }"@,
    }
}

impl DragDropPhase {
    /// The phase in the notation used by error messages.
    pub fn to_text(&self) -> (r: String)
        ensures
            r@ == phase_text(self@),
    {
        match self {
            DragDropPhase::LocalDragDetected => "LocalDragDetected".to_owned(),
            DragDropPhase::RemoteTargetSelecting => "RemoteTargetSelecting".to_owned(),
            DragDropPhase::RemoteDropReleased { release_point } => {
                let x = signed_number(release_point.x as i64);
                let y = signed_number(release_point.y as i64);
                let mut text = join4(
                    "RemoteDropReleased { release_point: Point { x: ",
                    x.as_str(),
                    ", y: ",
                    y.as_str(),
                );
                text.append(" } }");
                text
            },
            DragDropPhase::RemoteTargetResolved { target } => {
                let name = quote(target.display_name.as_str());
                let kind = name_of_kind(target.resolution_kind);
                let authorization = id_text(target.authorization);
                let mut text = join4(
                    "RemoteTargetResolved { target: DropTargetSummary { display_name: ",
                    name.as_str(),
                    ", resolution_kind: ",
                    kind.as_str(),
                );
                text.append(", authorization: ");
                text.append(authorization.as_str());
                text.append(" } }");
                text
            },
            DragDropPhase::Transferring => "Transferring".to_owned(),
            DragDropPhase::Completed => "Completed".to_owned(),
            DragDropPhase::Cancelled { reason } => {
                join3("Cancelled { reason: ", quote(reason.as_str()).as_str(), " }")
            },
            DragDropPhase::Failed { reason } => {
                join3("Failed { reason: ", quote(reason.as_str()).as_str(), " }")
            },
        }
    }
}

/// A step that the session's phase does not allow.
#[derive(Debug, PartialEq, Eq)]
pub struct DragDropStateError {
    pub session_id: u128,
    pub from: DragDropPhase,
    pub attempted: String,
}

pub struct DragDropStateErrorView {
    pub session_id: u128,
    pub from: PhaseView,
    pub attempted: Seq<char>,
}

impl View for DragDropStateError {
    type V = DragDropStateErrorView;

    open spec fn view(&self) -> DragDropStateErrorView {
        DragDropStateErrorView {
            session_id: self.session_id,
            from: self.from@,
            attempted: self.attempted@,
        }
    }
}

impl DragDropStateError {
    /// The error as a message.
    pub fn to_text(&self) -> (r: String)
        ensures
            r@ == "invalid drag-drop transition for session "@ + hyphenated(self.session_id) + ": "@
                + self.attempted@ + " from "@ + phase_text(self.from@),
    {
        let id = id_text(self.session_id);
        let from = self.from.to_text();
        let mut text = join4(
            "invalid drag-drop transition for session ",
            id.as_str(),
            ": ",
            self.attempted.as_str(),
        );
        text.append(" from ");
        text.append(from.as_str());
        text
    }
}

/// A drag-and-drop operation.
#[derive(Debug, PartialEq, Eq)]
pub struct DragDropSession {
    session_id: u128,
    transfer_id: u128,
    direction: DragDirection,
    source_paths: Vec<String>,
    phase: DragDropPhase,
}

#[verifier::ext_equal]
pub struct SessionView {
    pub session_id: u128,
    pub transfer_id: u128,
    pub direction: DragDirection,
    pub source_paths: Seq<Seq<char>>,
    pub phase: PhaseView,
}

impl View for DragDropSession {
    type V = SessionView;

    closed spec fn view(&self) -> SessionView {
        SessionView {
            session_id: self.session_id,
            transfer_id: self.transfer_id,
            direction: self.direction,
            source_paths: views(self.source_paths@),
            phase: self.phase@,
        }
    }
}

impl SessionView {
    /// The phases that may follow the current one in the course of a drop. `next`
    /// is what the step asks for.
    pub open spec fn allows(self, next: PhaseView) -> bool {
        match next {
            PhaseView::LocalDragDetected => false,
            PhaseView::RemoteTargetSelecting => self.phase is LocalDragDetected,
            PhaseView::RemoteDropReleased { .. } => self.phase is RemoteTargetSelecting,
            PhaseView::RemoteTargetResolved { .. } => self.phase is RemoteDropReleased,
            PhaseView::Transferring => self.phase is RemoteTargetResolved,
            PhaseView::Completed => self.phase is Transferring,
            PhaseView::Cancelled { .. } | PhaseView::Failed { .. } => !self.phase.terminal(),
        }
    }

    /// The session after an allowed step, itself after a refused one.
    pub open spec fn step(self, next: PhaseView) -> SessionView {
        if self.allows(next) {
            SessionView { phase: next, ..self }
        } else {
            self
        }
    }

    /// What a refused step is answered.
    pub open spec fn refusal(self, attempted: Seq<char>) -> DragDropStateErrorView {
        DragDropStateErrorView { session_id: self.session_id, from: self.phase, attempted }
    }
}

/// The outcome of a step: success exactly when it is allowed, and otherwise the
/// refusal.
pub open spec fn step_outcome(
    s: SessionView,
    next: PhaseView,
    attempted: Seq<char>,
    r: Result<(), DragDropStateError>,
) -> bool {
    match r {
        Ok(_) => s.allows(next),
        Err(error) => !s.allows(next) && error@ == s.refusal(attempted),
    }
}

impl DragDropSession {
    pub fn new(
        session_id: u128,
        transfer_id: u128,
        direction: DragDirection,
        source_paths: Vec<String>,
    ) -> (r: Self)
        ensures
            r@ == (SessionView {
                session_id,
                transfer_id,
                direction,
                source_paths: views(source_paths@),
                phase: PhaseView::LocalDragDetected,
            }),
    {
        Self {
            session_id,
            transfer_id,
            direction,
            source_paths,
            phase: DragDropPhase::LocalDragDetected,
        }
    }

    pub fn session_id(&self) -> (r: u128)
        ensures
            r == self@.session_id,
    {
        self.session_id
    }

    pub fn transfer_id(&self) -> (r: u128)
        ensures
            r == self@.transfer_id,
    {
        self.transfer_id
    }

    pub fn direction(&self) -> (r: DragDirection)
        ensures
            r == self@.direction,
    {
        self.direction
    }

    pub fn source_paths(&self) -> (r: &Vec<String>)
        ensures
            views(r@) == self@.source_paths,
    {
        &self.source_paths
    }

    pub fn phase(&self) -> (r: &DragDropPhase)
        ensures
            r@ == self@.phase,
    {
        &self.phase
    }

    pub fn is_terminal(&self) -> (r: bool)
        ensures
            r == self@.phase.terminal(),
    {
        matches!(
            self.phase,
            DragDropPhase::Completed | DragDropPhase::Cancelled { .. }
                | DragDropPhase::Failed { .. }
        )
    }

    /// The drag crossed the edge.
    pub fn begin_remote_target_selection(&mut self) -> (r: Result<(), DragDropStateError>)
        ensures
            final(self)@ == old(self)@.step(PhaseView::RemoteTargetSelecting),
            step_outcome(
                old(self)@,
                PhaseView::RemoteTargetSelecting,
                "RemoteTargetSelecting"@,
                r,
            ),
    {
        self.transition(
            matches!(self.phase, DragDropPhase::LocalDragDetected),
            DragDropPhase::RemoteTargetSelecting,
        )
    }

    /// The button was released over the other desktop.
    pub fn release_at(&mut self, release_point: Point) -> (r: Result<(), DragDropStateError>)
        ensures
            final(self)@ == old(self)@.step(PhaseView::RemoteDropReleased { release_point }),
            step_outcome(
                old(self)@,
                PhaseView::RemoteDropReleased { release_point },
                phase_text(PhaseView::RemoteDropReleased { release_point }),
                r,
            ),
    {
        self.transition(
            matches!(self.phase, DragDropPhase::RemoteTargetSelecting),
            DragDropPhase::RemoteDropReleased { release_point },
        )
    }

    /// The place to write to is known.
    pub fn resolve_target(&mut self, target: DropTargetSummary) -> (r: Result<
        (),
        DragDropStateError,
    >)
        ensures
            final(self)@ == old(self)@.step(PhaseView::RemoteTargetResolved { target: target@ }),
            step_outcome(
                old(self)@,
                PhaseView::RemoteTargetResolved { target: target@ },
                phase_text(PhaseView::RemoteTargetResolved { target: target@ }),
                r,
            ),
    {
        self.transition(
            matches!(self.phase, DragDropPhase::RemoteDropReleased { .. }),
            DragDropPhase::RemoteTargetResolved { target },
        )
    }

    /// The files begin to travel.
    pub fn begin_transfer(&mut self) -> (r: Result<(), DragDropStateError>)
        ensures
            final(self)@ == old(self)@.step(PhaseView::Transferring),
            step_outcome(old(self)@, PhaseView::Transferring, "Transferring"@, r),
    {
        self.transition(
            matches!(self.phase, DragDropPhase::RemoteTargetResolved { .. }),
            DragDropPhase::Transferring,
        )
    }

    /// The files have arrived.
    pub fn complete(&mut self) -> (r: Result<(), DragDropStateError>)
        ensures
            final(self)@ == old(self)@.step(PhaseView::Completed),
            step_outcome(old(self)@, PhaseView::Completed, "Completed"@, r),
    {
        self.transition(
            matches!(self.phase, DragDropPhase::Transferring),
            DragDropPhase::Completed,
        )
    }

    /// Gives the operation up.
    pub fn cancel(&mut self, reason: String) -> (r: Result<(), DragDropStateError>)
        ensures
            final(self)@ == old(self)@.step(PhaseView::Cancelled { reason: reason@ }),
            step_outcome(old(self)@, PhaseView::Cancelled { reason: reason@ }, "cancel"@, r),
    {
        if self.is_terminal() {
            return Err(self.invalid("cancel"));
        }
        self.phase = DragDropPhase::Cancelled { reason };
        Ok(())
    }

    /// Ends the operation with an error.
    pub fn fail(&mut self, reason: String) -> (r: Result<(), DragDropStateError>)
        ensures
            final(self)@ == old(self)@.step(PhaseView::Failed { reason: reason@ }),
            step_outcome(old(self)@, PhaseView::Failed { reason: reason@ }, "fail"@, r),
    {
        if self.is_terminal() {
            return Err(self.invalid("fail"));
        }
        self.phase = DragDropPhase::Failed { reason };
        Ok(())
    }

    fn transition(&mut self, allowed: bool, next: DragDropPhase) -> (r: Result<
        (),
        DragDropStateError,
    >)
        ensures
            final(self)@ == (if allowed {
                SessionView { phase: next@, ..old(self)@ }
            } else {
                old(self)@
            }),
            match r {
                Ok(_) => allowed,
                Err(error) => !allowed && error@ == old(self)@.refusal(phase_text(next@)),
            },
    {
        if !allowed {
            return Err(
                DragDropStateError {
                    session_id: self.session_id,
                    from: self.phase.clone(),
                    attempted: next.to_text(),
                },
            );
        }
        self.phase = next;
        Ok(())
    }

    fn invalid(&self, attempted: &str) -> (r: DragDropStateError)
        ensures
            r@ == self@.refusal(attempted@),
    {
        DragDropStateError {
            session_id: self.session_id,
            from: self.phase.clone(),
            attempted: attempted.to_owned(),
        }
    }
}

/// A session that has come to an end never leaves its phase.
pub proof fn law_terminal_phases_are_final(s: SessionView, next: PhaseView)
    requires
        s.phase.terminal(),
    ensures
        !s.allows(next),
        s.step(next) == s,
{
}

/// Whatever a step asks for, the session keeps its identity, its direction and its
/// files.
pub proof fn law_steps_keep_identity(s: SessionView, next: PhaseView)
    ensures
        s.step(next).session_id == s.session_id,
        s.step(next).transfer_id == s.transfer_id,
        s.step(next).direction == s.direction,
        s.step(next).source_paths == s.source_paths,
{
}

/// One session follows from another by one step, allowed or refused.
pub open spec fn follows(before: SessionView, after: SessionView) -> bool {
    exists|next: PhaseView| after == #[trigger] before.step(next)
}

/// A run: every session follows from the one before it.
pub open spec fn is_run(run: Seq<SessionView>) -> bool {
    forall|i: int, j: int|
        0 <= i && j == i + 1 && j < run.len() ==> follows(#[trigger] run[i], #[trigger] run[j])
}

/// No data travels before the button is released and the destination is known: a
/// run from a detected drag to the transfer goes through a release and a resolved
/// target, in this order.
pub proof fn law_no_transfer_before_release(run: Seq<SessionView>)
    requires
        run.len() > 0,
        run[0].phase is LocalDragDetected,
        is_run(run),
        run.last().phase is Transferring,
    ensures
        exists|released: int, resolved: int|
            0 < released < resolved < run.len() - 1 && run[released].phase is RemoteDropReleased
                && #[trigger] run[resolved].phase is RemoteTargetResolved
                && #[trigger] run[released].session_id == run[0].session_id,
{
    let last = run.len() - 1;
    let resolved = lemma_reached_from(run, last, 4);
    let released = lemma_reached_from(run, resolved, 3);
    let selecting = lemma_reached_from(run, released, 2);
    lemma_same_session(run, released);
    assert(run[resolved].phase is RemoteTargetResolved);
    assert(run[released].session_id == run[0].session_id);
}

/// The place of a phase in the course of a successful drop.
pub open spec fn rank(phase: PhaseView) -> int {
    match phase {
        PhaseView::LocalDragDetected => 0,
        PhaseView::RemoteTargetSelecting => 1,
        PhaseView::RemoteDropReleased { .. } => 2,
        PhaseView::RemoteTargetResolved { .. } => 3,
        PhaseView::Transferring => 4,
        PhaseView::Completed => 5,
        PhaseView::Cancelled { .. } => 6,
        PhaseView::Failed { .. } => 7,
    }
}

/// A phase with a rank from one to five is entered from the phase just below.
proof fn lemma_reached_from(run: Seq<SessionView>, at: int, r: int) -> (before: int)
    requires
        0 <= at < run.len(),
        run[0].phase is LocalDragDetected,
        is_run(run),
        rank(run[at].phase) == r,
        1 <= r <= 5,
    ensures
        0 <= before < at,
        rank(run[before].phase) == r - 1,
    decreases at,
{
    assert(at > 0);
    assert(follows(run[at - 1], run[at]));
    if run[at - 1].phase == run[at].phase {
        lemma_reached_from(run, at - 1, r)
    } else {
        at - 1
    }
}

proof fn lemma_same_session(run: Seq<SessionView>, at: int)
    requires
        0 <= at < run.len(),
        is_run(run),
    ensures
        run[at].session_id == run[0].session_id,
    decreases at,
{
    if at > 0 {
        assert(follows(run[at - 1], run[at]));
        lemma_same_session(run, at - 1);
    }
}

/// A drop takes its course: the phases follow each other in one order only, from the
/// detected drag over the chosen target, the release and the resolved target to the
/// transfer and its end. At any time before the end it can be called off or fail.
pub proof fn law_drops_take_their_course(s: SessionView, next: PhaseView)
    ensures
        s.allows(next) <==> match next {
            PhaseView::Cancelled { .. } | PhaseView::Failed { .. } => rank(s.phase) <= 4,
            _ => rank(next) >= 1 && rank(s.phase) + 1 == rank(next) && rank(s.phase) <= 4,
        },
        s.allows(next) ==> s.step(next).phase == next,
        !s.allows(next) ==> s.step(next) == s,
        s.phase.terminal() <==> rank(s.phase) >= 5,
{
}

/// A step that is refused says which session it was, where that stands, and what was
/// tried; one that is allowed is not refused.
pub proof fn law_refusals_name_the_step(
    s: SessionView,
    next: PhaseView,
    attempted: Seq<char>,
    r: Result<(), DragDropStateError>,
)
    requires
        step_outcome(s, next, attempted, r),
    ensures
        r is Ok <==> s.allows(next),
        r matches Err(error) ==> {
            &&& error@.session_id == s.session_id
            &&& error@.from == s.phase
            &&& error@.attempted == attempted
        },
{
}

/// The phases and kinds have names of their own.
pub proof fn law_phases_have_names(kind: DropResolutionKind)
    ensures
        phase_text(PhaseView::LocalDragDetected) == "LocalDragDetected"@,
        phase_text(PhaseView::RemoteTargetSelecting) == "RemoteTargetSelecting"@,
        phase_text(PhaseView::Transferring) == "Transferring"@,
        phase_text(PhaseView::Completed) == "Completed"@,
        kind == DropResolutionKind::Desktop ==> kind_name(kind) == "Desktop"@,
        kind == DropResolutionKind::ExplorerDirectory ==> kind_name(kind) == "ExplorerDirectory"@,
        kind == DropResolutionKind::FolderIcon ==> kind_name(kind) == "FolderIcon"@,
{
}

/// A session begins as a detected drag, with its own identifiers and files.
pub proof fn law_sessions_begin_as_detected_drags(
    session_id: u128,
    transfer_id: u128,
    direction: DragDirection,
    source_paths: Vec<String>,
    session: DragDropSession,
)
    requires
        call_ensures(
            DragDropSession::new,
            (session_id, transfer_id, direction, source_paths),
            session,
        ),
    ensures
        session@.session_id == session_id,
        session@.transfer_id == transfer_id,
        session@.direction == direction,
        session@.source_paths.len() == source_paths@.len(),
        forall|i: int|
            0 <= i < source_paths@.len() ==> #[trigger] session@.source_paths[i]
                == source_paths@[i]@,
        session@.phase is LocalDragDetected,
{
}

/// A phase that holds something tells it: the point of a release with x before y, the
/// destination with its name, its kind and its permission, and why a drop ended.
pub proof fn law_phases_tell_what_they_hold(
    release_point: Point,
    target: DropTargetView,
    reason: Seq<char>,
)
    ensures
        phase_text(PhaseView::RemoteDropReleased { release_point })
            == "RemoteDropReleased { release_point: Point { x: "@ + signed_decimal(
            release_point.x as int,
        ) + ", y: "@ + signed_decimal(release_point.y as int) + " } }"@,
        phase_text(PhaseView::RemoteTargetResolved { target })
            == "RemoteTargetResolved { target: DropTargetSummary { display_name: "@ + quoted(
            target.display_name,
        ) + ", resolution_kind: "@ + (match target.resolution_kind {
            DropResolutionKind::Desktop => "Desktop"@,
            DropResolutionKind::ExplorerDirectory => "ExplorerDirectory"@,
            DropResolutionKind::FolderIcon => "FolderIcon"@,
        }) + ", authorization: "@ + hyphenated(target.authorization) + " } }"@,
        phase_text(PhaseView::Cancelled { reason }) == "Cancelled { reason: "@ + quoted(reason)
            + " }"@,
        phase_text(PhaseView::Failed { reason }) == "Failed { reason: "@ + quoted(reason) + " }"@,
{
}

} // verus!
