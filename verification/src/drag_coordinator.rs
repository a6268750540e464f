//! Coordinates a targeted drag and drop: which side is the source, when the button
//! is released, where the files go and how the operation ends.
use crate::bulk_events::{bulk_transfer_event_id, BulkEventView, BulkTransferEvent};
use crate::config::{RemotePosition, Role};
use crate::control::ControlMode;
use crate::drag_drop::{
    DragDirection, DragDropPhase, DragDropSession, DropTargetSummary, DropTargetView, PhaseView,
    SessionView,
};
use crate::file_transfer::clone_texts;
use crate::geometry::{edge_for_position, edge_of, opposite_edge, Edge, Point};
use crate::protocol::{MessageView, WireMessage};
use crate::text::{join2, opt_view, views};
use vstd::prelude::*;

verus! {

broadcast use {crate::text::lemma_views_push, crate::text::lemma_views_add};

/// How long the source waits for a destination, in milliseconds.
pub const TARGET_AUTHORIZATION_TIMEOUT: u64 = 30_000;

/// What the coordinator asks its surroundings to do.
#[allow(inconsistent_fields)]
#[derive(Debug, PartialEq, Eq)]
pub enum DragEffect {
    InstallEdge(Edge),
    UninstallEdge,
    Send(WireMessage),
    AwaitLocalRelease { session_id: u128 },
    ResolveTarget { session_id: u128, transfer_id: u128, point: Point },
    BeginTransfer {
        session_id: u128,
        transfer_id: u128,
        authorization: u128,
        source_paths: Vec<String>,
        destination: String,
    },
    CancelBulk { transfer_id: u128 },
    RevokeAuthorization { session_id: u128 },
    RestoreLocalInput,
    Status { state: String, destination: Option<String> },
}

#[allow(inconsistent_fields)]
pub enum EffectView {
    InstallEdge(Edge),
    UninstallEdge,
    Send(MessageView),
    AwaitLocalRelease { session_id: u128 },
    ResolveTarget { session_id: u128, transfer_id: u128, point: Point },
    BeginTransfer {
        session_id: u128,
        transfer_id: u128,
        authorization: u128,
        source_paths: Seq<Seq<char>>,
        destination: Seq<char>,
    },
    CancelBulk { transfer_id: u128 },
    RevokeAuthorization { session_id: u128 },
    RestoreLocalInput,
    Status { state: Seq<char>, destination: Option<Seq<char>> },
}

impl View for DragEffect {
    type V = EffectView;

    open spec fn view(&self) -> EffectView {
        match self {
            DragEffect::InstallEdge(edge) => EffectView::InstallEdge(*edge),
            DragEffect::UninstallEdge => EffectView::UninstallEdge,
            DragEffect::Send(message) => EffectView::Send(message@),
            DragEffect::AwaitLocalRelease { session_id } => EffectView::AwaitLocalRelease {
                session_id: *session_id,
            },
            DragEffect::ResolveTarget { session_id, transfer_id, point } => {
                EffectView::ResolveTarget {
                    session_id: *session_id,
                    transfer_id: *transfer_id,
                    point: *point,
                }
            },
            DragEffect::BeginTransfer {
                session_id,
                transfer_id,
                authorization,
                source_paths,
                destination,
            } => EffectView::BeginTransfer {
                session_id: *session_id,
                transfer_id: *transfer_id,
                authorization: *authorization,
                source_paths: views(source_paths@),
                destination: destination@,
            },
            DragEffect::CancelBulk { transfer_id } => EffectView::CancelBulk {
                transfer_id: *transfer_id,
            },
            DragEffect::RevokeAuthorization { session_id } => EffectView::RevokeAuthorization {
                session_id: *session_id,
            },
            DragEffect::RestoreLocalInput => EffectView::RestoreLocalInput,
            DragEffect::Status { state, destination } => EffectView::Status {
                state: state@,
                destination: opt_view(*destination),
            },
        }
    }
}

/// A drag that the peer announced.
#[derive(Clone, Copy, Debug, PartialEq, Eq, Structural)]
pub struct PeerDragOffer {
    pub session_id: u128,
    pub transfer_id: u128,
    pub item_count: u32,
    pub handed_off: bool,
    pub released: bool,
}

/// The state of drag and drop on this computer.
#[derive(Debug)]
pub struct DragDropCoordinator {
    role: Role,
    control_mode: ControlMode,
    peer_layout: Option<RemotePosition>,
    active: Option<DragDropSession>,
    peer_offer: Option<PeerDragOffer>,
    active_deadline: Option<u64>,
    connection_generation: u64,
}

#[verifier::ext_equal]
pub struct CoordinatorView {
    pub role: Role,
    pub control_mode: ControlMode,
    pub peer_layout: Option<RemotePosition>,
    pub active: Option<SessionView>,
    pub peer_offer: Option<PeerDragOffer>,
    pub active_deadline: Option<u64>,
    pub connection_generation: u64,
}

impl View for DragDropCoordinator {
    type V = CoordinatorView;

    closed spec fn view(&self) -> CoordinatorView {
        CoordinatorView {
            role: self.role,
            control_mode: self.control_mode,
            peer_layout: self.peer_layout,
            active: opt_view(self.active),
            peer_offer: self.peer_offer,
            active_deadline: self.active_deadline,
            connection_generation: self.connection_generation,
        }
    }
}

/// A status line without a destination.
pub open spec fn status(state: Seq<char>) -> EffectView {
    EffectView::Status { state, destination: None }
}

/// A coordinator together with what it asks for.
pub type Step = (CoordinatorView, Seq<EffectView>);

/// The answer to a drag that begins while another one is under way.
pub open spec fn busy(session_id: u128) -> Seq<EffectView> {
    seq![
        EffectView::Send(
            MessageView::DragDropCancel {
                session_id,
                reason: "another drag-drop session is active"@,
            },
        ),
    ]
}

impl CoordinatorView {
    /// A coordinator that has seen nothing yet.
    pub open spec fn fresh(role: Role) -> CoordinatorView {
        CoordinatorView {
            role,
            control_mode: ControlMode::Local,
            peer_layout: None,
            active: None,
            peer_offer: None,
            active_deadline: None,
            connection_generation: 0,
        }
    }

    /// This computer is the source of the session.
    pub open spec fn is_source_of(self, session_id: u128) -> bool {
        self.active matches Some(session) && session.session_id == session_id
    }

    /// This computer is the target of the session.
    pub open spec fn is_target_of(self, session_id: u128) -> bool {
        self.peer_offer matches Some(offer) && offer.session_id == session_id
    }

    /// The drag that the peer announced waits for the button on this computer, if
    /// the pointer is here.
    pub open spec fn handed_off(self) -> Step {
        match self.peer_offer {
            Some(offer) => if self.role == Role::Controller && self.control_mode
                == ControlMode::Local && !offer.handed_off {
                (
                    CoordinatorView {
                        peer_offer: Some(PeerDragOffer { handed_off: true, ..offer }),
                        ..self
                    },
                    seq![EffectView::AwaitLocalRelease { session_id: offer.session_id }],
                )
            } else {
                (self, Seq::empty())
            },
            None => (self, Seq::empty()),
        }
    }

    /// No drag is under way.
    pub open spec fn cleared(self) -> CoordinatorView {
        CoordinatorView { active: None, peer_offer: None, active_deadline: None, ..self }
    }

    /// Ends whatever drag is under way: the transfer is cancelled, the destination
    /// is no longer authorized, held input is released and the peer may be told.
    pub open spec fn terminated(self, reason: Seq<char>, failed: bool, notify_peer: bool) -> Step {
        let ids = match (self.active, self.peer_offer) {
            (Some(session), _) => Some((session.session_id, session.transfer_id)),
            (None, Some(offer)) => Some((offer.session_id, offer.transfer_id)),
            (None, None) => None,
        };
        match ids {
            None => (self.cleared(), seq![EffectView::RestoreLocalInput]),
            Some((session_id, transfer_id)) => (
                self.cleared(),
                seq![
                    EffectView::CancelBulk { transfer_id },
                    EffectView::RevokeAuthorization { session_id },
                ] + (if notify_peer {
                    seq![EffectView::Send(MessageView::DragDropCancel { session_id, reason })]
                } else {
                    Seq::empty()
                }) + seq![
                    EffectView::Send(MessageView::ReleaseAll),
                    EffectView::RestoreLocalInput,
                    status(
                        (if failed {
                            "拖放失败："@
                        } else {
                            "拖放已取消："@
                        }) + reason,
                    ),
                ],
            ),
        }
    }

    /// Whether a drag is under way.
    pub open spec fn busy_now(self) -> bool {
        self.active is Some || self.peer_offer is Some
    }

    pub open spec fn control_changed(self, mode: ControlMode) -> Step {
        let s = CoordinatorView { control_mode: mode, ..self };
        let (t, first) = if self.role != Role::Controller {
            (s, Seq::<EffectView>::empty())
        } else {
            match self.active {
                Some(session) => if mode == ControlMode::Remote
                    && session.phase is LocalDragDetected {
                    (
                        CoordinatorView {
                            active: Some(session.step(PhaseView::RemoteTargetSelecting)),
                            ..s
                        },
                        seq![status("正在选择目标目录"@)],
                    )
                } else if mode == ControlMode::Local && session.phase is RemoteTargetSelecting {
                    s.terminated("拖拽已返回本机"@, false, true)
                } else {
                    (s, Seq::empty())
                },
                None => (s, Seq::empty()),
            }
        };
        let (u, second) = t.handed_off();
        (u, first + second)
    }

    pub open spec fn local_drag_begun(
        self,
        session_id: u128,
        transfer_id: u128,
        source_paths: Seq<Seq<char>>,
    ) -> Step {
        if self.busy_now() {
            (self, busy(session_id))
        } else {
            let selecting = self.role == Role::Agent || self.control_mode == ControlMode::Remote;
            let session = SessionView {
                session_id,
                transfer_id,
                direction: if self.role == Role::Controller {
                    DragDirection::ControllerToAgent
                } else {
                    DragDirection::AgentToController
                },
                source_paths,
                phase: if selecting {
                    PhaseView::RemoteTargetSelecting
                } else {
                    PhaseView::LocalDragDetected
                },
            };
            (
                CoordinatorView { active: Some(session), active_deadline: None, ..self },
                seq![
                    EffectView::Send(
                        MessageView::DragDropEntered {
                            session_id,
                            transfer_id,
                            item_count: if source_paths.len() <= u32::MAX {
                                source_paths.len() as u32
                            } else {
                                u32::MAX
                            },
                        },
                    ),
                    status("文件已到达共享边缘"@),
                ] + (if selecting {
                    seq![status("正在选择目标目录"@)]
                } else {
                    Seq::empty()
                }),
            )
        }
    }

    pub open spec fn local_drag_cancelled(self, session_id: u128, reason: Seq<char>) -> Step {
        if self.is_source_of(session_id) {
            self.terminated(reason, false, true)
        } else {
            (self, Seq::empty())
        }
    }

    pub open spec fn native_drop(self, session_id: u128) -> Step {
        match self.active {
            Some(session) => if session.session_id != session_id {
                (self, Seq::empty())
            } else if session.phase is LocalDragDetected {
                self.terminated("尚未进入另一台电脑就已松开"@, false, true)
            } else {
                (self, seq![status("拖拽已交接到另一台电脑"@)])
            },
            None => (self, Seq::empty()),
        }
    }

    /// The source waits for a destination from `now` on.
    pub open spec fn awaiting_target(self, session: SessionView, point: Point, now: u64)
        -> CoordinatorView {
        CoordinatorView {
            active: Some(session.step(PhaseView::RemoteDropReleased { release_point: point })),
            active_deadline: Some((now + TARGET_AUTHORIZATION_TIMEOUT) as u64),
            ..self
        }
    }

    pub open spec fn left_released(self, point: Point, now: u64) -> Step {
        if self.role != Role::Controller {
            (self, Seq::empty())
        } else if self.control_mode == ControlMode::Remote {
            match self.active {
                Some(session) => if session.phase is RemoteTargetSelecting {
                    (
                        self.awaiting_target(session, point, now),
                        seq![
                            EffectView::Send(
                                MessageView::DragDropReleased {
                                    session_id: session.session_id,
                                    point,
                                },
                            ),
                            EffectView::RestoreLocalInput,
                            status("正在解析目标目录"@),
                        ],
                    )
                } else {
                    (self, Seq::empty())
                },
                None => (self, Seq::empty()),
            }
        } else {
            match self.peer_offer {
                Some(offer) => if offer.handed_off && !offer.released {
                    (
                        CoordinatorView {
                            peer_offer: Some(PeerDragOffer { released: true, ..offer }),
                            ..self
                        },
                        seq![
                            EffectView::Send(
                                MessageView::DragDropReleased {
                                    session_id: offer.session_id,
                                    point,
                                },
                            ),
                            EffectView::ResolveTarget {
                                session_id: offer.session_id,
                                transfer_id: offer.transfer_id,
                                point,
                            },
                            status("正在解析目标目录"@),
                        ],
                    )
                } else {
                    (self, Seq::empty())
                },
                None => (self, Seq::empty()),
            }
        }
    }

    /// Ends the drag and makes sure that held input is released and the edge is
    /// given up.
    pub open spec fn shut_down(self, reason: Seq<char>, failed: bool, notify_peer: bool) -> Step {
        let (s, effects) = self.terminated(reason, failed, notify_peer);
        (
            s,
            (if self.busy_now() {
                effects
            } else {
                effects.push(EffectView::Send(MessageView::ReleaseAll))
            }).push(EffectView::UninstallEdge),
        )
    }

    pub open spec fn disconnected(self, generation: u64) -> Step {
        if generation != self.connection_generation {
            (self, Seq::empty())
        } else {
            self.shut_down("连接中断"@, true, false)
        }
    }

    pub open spec fn ticked(self, now: u64) -> Step {
        if self.active_deadline matches Some(deadline) && now > deadline {
            self.terminated("等待目标目录授权超时"@, true, true)
        } else {
            (self, Seq::empty())
        }
    }

    pub open spec fn authorization_lapsed(self, session_id: u128) -> Step {
        if self.is_target_of(session_id) {
            let (s, effects) = self.terminated("目标目录授权超时"@, true, false);
            (
                s,
                seq![
                    EffectView::Send(
                        MessageView::DragDropTargetFailed {
                            session_id,
                            reason: "目标目录授权超时"@,
                        },
                    ),
                ] + effects,
            )
        } else {
            (self, Seq::empty())
        }
    }

    pub open spec fn peer_entered(self, session_id: u128, transfer_id: u128, item_count: u32)
        -> Step {
        if self.busy_now() {
            (self, busy(session_id))
        } else {
            CoordinatorView {
                peer_offer: Some(
                    PeerDragOffer {
                        session_id,
                        transfer_id,
                        item_count,
                        handed_off: false,
                        released: false,
                    },
                ),
                ..self
            }.handed_off()
        }
    }

    pub open spec fn peer_released(self, session_id: u128, point: Point, now: u64) -> Step {
        if self.is_source_of(session_id) {
            if self.active->0.phase is RemoteTargetSelecting {
                (
                    self.awaiting_target(self.active->0, point, now),
                    seq![EffectView::RestoreLocalInput, status("正在解析目标目录"@)],
                )
            } else {
                (self, Seq::empty())
            }
        } else {
            match self.peer_offer {
                Some(offer) => if offer.session_id == session_id && !offer.released {
                    (
                        CoordinatorView {
                            peer_offer: Some(PeerDragOffer { released: true, ..offer }),
                            ..self
                        },
                        seq![
                            EffectView::ResolveTarget {
                                session_id,
                                transfer_id: offer.transfer_id,
                                point,
                            },
                            status("正在解析目标目录"@),
                        ],
                    )
                } else {
                    (self, Seq::empty())
                },
                None => (self, Seq::empty()),
            }
        }
    }

    pub open spec fn target_resolved(self, session_id: u128, target: DropTargetView) -> Step {
        if self.is_source_of(session_id) && self.active->0.phase is RemoteDropReleased {
            let session = self.active->0;
            (
                CoordinatorView {
                    active: Some(SessionView { phase: PhaseView::Transferring, ..session }),
                    active_deadline: None,
                    ..self
                },
                seq![
                    EffectView::BeginTransfer {
                        session_id,
                        transfer_id: session.transfer_id,
                        authorization: target.authorization,
                        source_paths: session.source_paths,
                        destination: target.display_name,
                    },
                    EffectView::Status {
                        state: "正在传输到目标目录"@,
                        destination: Some(target.display_name),
                    },
                ],
            )
        } else {
            (self, Seq::empty())
        }
    }

    pub open spec fn transfer_result(
        self,
        session_id: u128,
        transfer_id: u128,
        ok: bool,
        reason: Option<Seq<char>>,
    ) -> Step {
        if self.is_source_of(session_id) && self.active->0.transfer_id == transfer_id
            && self.active->0.phase is Transferring {
            if ok {
                (
                    CoordinatorView { active: None, active_deadline: None, ..self },
                    seq![EffectView::RestoreLocalInput, status("拖放完成"@)],
                )
            } else {
                self.terminated(
                    match reason {
                        Some(text) => text,
                        None => "接收端未能完成传输"@,
                    },
                    true,
                    false,
                )
            }
        } else {
            (self, Seq::empty())
        }
    }

    /// What a message from the peer leads to.
    pub open spec fn peer_message(self, message: MessageView, now: u64) -> Step {
        match message {
            MessageView::PeerLayout { controller_remote_position } => (
                CoordinatorView { peer_layout: Some(controller_remote_position), ..self },
                seq![
                    EffectView::InstallEdge(
                        if self.role == Role::Controller {
                            edge_of(controller_remote_position)
                        } else {
                            edge_of(controller_remote_position).across()
                        },
                    ),
                ],
            ),
            MessageView::DragDropEntered { session_id, transfer_id, item_count } => {
                self.peer_entered(session_id, transfer_id, item_count)
            },
            MessageView::DragDropReleased { session_id, point } => {
                self.peer_released(session_id, point, now)
            },
            MessageView::DragDropTargetResolved { session_id, target } => {
                self.target_resolved(session_id, target)
            },
            MessageView::DragDropTargetFailed { session_id, reason } => {
                if self.is_source_of(session_id) {
                    self.terminated(reason, true, false)
                } else {
                    (self, Seq::empty())
                }
            },
            MessageView::DragDropTransferStarted { session_id, transfer_id } => {
                if self.is_target_of(session_id) && self.peer_offer->0.transfer_id == transfer_id {
                    (self, seq![status("正在接收拖放文件"@)])
                } else {
                    (self, Seq::empty())
                }
            },
            MessageView::DragDropTransferResult { session_id, transfer_id, ok, reason } => {
                self.transfer_result(session_id, transfer_id, ok, reason)
            },
            MessageView::DragDropCancel { session_id, reason } => {
                if self.is_source_of(session_id) || self.is_target_of(session_id) {
                    self.terminated(reason, false, false)
                } else {
                    (self, Seq::empty())
                }
            },
            _ => (self, Seq::empty()),
        }
    }

    /// The target reports the end of the transfer to the source.
    pub open spec fn reported(self, ok: bool, reason: Option<Seq<char>>, state: Seq<char>) -> Step {
        let offer = self.peer_offer->0;
        (
            CoordinatorView { peer_offer: None, ..self },
            seq![
                EffectView::Send(
                    MessageView::DragDropTransferResult {
                        session_id: offer.session_id,
                        transfer_id: offer.transfer_id,
                        ok,
                        reason,
                    },
                ),
                EffectView::RevokeAuthorization { session_id: offer.session_id },
                EffectView::RestoreLocalInput,
                status(state),
            ],
        )
    }

    /// What a report of the file transfer channel leads to.
    pub open spec fn bulk_event(self, event: BulkEventView) -> Step {
        if self.active matches Some(session) && session.transfer_id == event.id() {
            match event {
                BulkEventView::Sent { .. } => (self, seq![status("文件已发送，等待接收端确认"@)]),
                BulkEventView::Failed { error, .. } => self.terminated(error, true, true),
                BulkEventView::Cancelled(_) => self.terminated("本机已取消传输"@, false, true),
                _ => (self, Seq::empty()),
            }
        } else if self.peer_offer matches Some(offer) && offer.transfer_id == event.id() {
            match event {
                BulkEventView::Completed { .. } => self.reported(true, None, "拖放完成"@),
                BulkEventView::Failed { error, .. } => self.reported(
                    false,
                    Some(error),
                    "拖放失败："@ + error,
                ),
                BulkEventView::Cancelled(_) => self.reported(
                    false,
                    Some("接收端已取消传输"@),
                    "拖放已取消"@,
                ),
                _ => (self, Seq::empty()),
            }
        } else {
            (self, Seq::empty())
        }
    }

    /// What the outcome of looking for a destination leads to.
    pub open spec fn resolution(
        self,
        session_id: u128,
        transfer_id: u128,
        result: Result<DropTargetView, Seq<char>>,
    ) -> Step {
        if self.is_target_of(session_id) && self.peer_offer->0.transfer_id == transfer_id
            && self.peer_offer->0.released {
            match result {
                Ok(target) => (
                    self,
                    seq![
                        EffectView::Send(MessageView::DragDropTargetResolved { session_id, target }),
                        EffectView::Status {
                            state: "目标目录已确认"@,
                            destination: Some(target.display_name),
                        },
                    ],
                ),
                Err(reason) => {
                    let (s, effects) = self.terminated(reason, true, false);
                    (
                        s,
                        seq![
                            EffectView::Send(
                                MessageView::DragDropTargetFailed { session_id, reason },
                            ),
                        ] + effects,
                    )
                },
            }
        } else {
            (self, Seq::empty())
        }
    }
}

/// A status effect without a destination.
fn status_line(state: &str) -> (r: DragEffect)
    ensures
        r@ == status(state@),
{
    DragEffect::Status { state: state.to_owned(), destination: None }
}

/// No effects.
fn nothing() -> (r: Vec<DragEffect>)
    ensures
        views(r@) == Seq::<EffectView>::empty(),
{
    let r: Vec<DragEffect> = Vec::new();
    assert(views(r@) =~= Seq::<EffectView>::empty());
    r
}

/// One effect.
fn one(effect: DragEffect) -> (r: Vec<DragEffect>)
    ensures
        views(r@) == seq![effect@],
{
    let mut r: Vec<DragEffect> = Vec::new();
    r.push(effect);
    assert(views(r@) =~= seq![effect@]);
    r
}

fn busy_answer(session_id: u128) -> (r: Vec<DragEffect>)
    ensures
        views(r@) == busy(session_id),
{
    one(
        DragEffect::Send(
            WireMessage::DragDropCancel {
                session_id,
                reason: "another drag-drop session is active".to_owned(),
            },
        ),
    )
}

impl DragDropCoordinator {
    pub fn new(role: Role) -> (r: Self)
        ensures
            r@ == CoordinatorView::fresh(role),
    {
        Self {
            role,
            control_mode: ControlMode::Local,
            peer_layout: None,
            active: None,
            peer_offer: None,
            active_deadline: None,
            connection_generation: 0,
        }
    }

    /// The drag that this computer is the source of.
    pub fn active_session(&self) -> (r: Option<&DragDropSession>)
        ensures
            match r {
                Some(session) => self@.active == Some(session@),
                None => self@.active is None,
            },
    {
        self.active.as_ref()
    }

    /// Control moved to the other desktop.
    pub fn set_control_mode(&mut self, mode: ControlMode) -> (r: Vec<DragEffect>)
        ensures
            (final(self)@, views(r@)) == old(self)@.control_changed(mode),
    {
        self.control_mode = mode;
        let mut effects = nothing();
        if self.role == Role::Controller {
            match self.active.take() {
                Some(mut session) => {
                    let detected = matches!(session.phase(), DragDropPhase::LocalDragDetected);
                    let selecting = matches!(
                        session.phase(),
                        DragDropPhase::RemoteTargetSelecting
                    );
                    if mode == ControlMode::Remote && detected {
                        let _ = session.begin_remote_target_selection();
                        self.active = Some(session);
                        effects = one(status_line("正在选择目标目录"));
                    } else if mode == ControlMode::Local && selecting {
                        self.active = Some(session);
                        effects = self.terminate_active(
                            "拖拽已返回本机".to_owned(),
                            false,
                            true,
                        );
                    } else {
                        self.active = Some(session);
                    }
                },
                None => {},
            }
        }
        let mut handoff = self.local_release_handoff_effects();
        effects.append(&mut handoff);
        effects
    }

    /// Files were dragged to the shared edge of this computer.
    pub fn begin_local_drag(
        &mut self,
        session_id: u128,
        transfer_id: u128,
        source_paths: Vec<String>,
    ) -> (r: Vec<DragEffect>)
        ensures
            (final(self)@, views(r@)) == old(self)@.local_drag_begun(
                session_id,
                transfer_id,
                views(source_paths@),
            ),
    {
        if self.active.is_some() || self.peer_offer.is_some() {
            return busy_answer(session_id);
        }
        let count: usize = source_paths.len();
        let item_count: u32 = if count as u64 <= u32::MAX as u64 {
            count as u32
        } else {
            u32::MAX
        };
        let direction = match self.role {
            Role::Controller => DragDirection::ControllerToAgent,
            Role::Agent => DragDirection::AgentToController,
        };
        let mut session = DragDropSession::new(session_id, transfer_id, direction, source_paths);
        let target_selecting = self.role == Role::Agent || self.control_mode == ControlMode::Remote;
        if target_selecting {
            let _ = session.begin_remote_target_selection();
        }
        self.active = Some(session);
        self.active_deadline = None;
        let mut effects = one(
            DragEffect::Send(
                WireMessage::DragDropEntered { session_id, transfer_id, item_count },
            ),
        );
        effects.push(status_line("文件已到达共享边缘"));
        if target_selecting {
            effects.push(status_line("正在选择目标目录"));
        }
        assert(views(effects@) =~= old(self)@.local_drag_begun(
            session_id,
            transfer_id,
            views(source_paths@),
        ).1);
        effects
    }

    /// The native drag left the edge.
    pub fn cancel_local_drag(&mut self, session_id: u128, reason: String) -> (r: Vec<DragEffect>)
        ensures
            (final(self)@, views(r@)) == old(self)@.local_drag_cancelled(session_id, reason@),
    {
        if !self.is_source(session_id) {
            return nothing();
        }
        self.terminate_active(reason, false, true)
    }

    /// Whether this computer is the source of a session.
    fn is_source(&self, session_id: u128) -> (r: bool)
        ensures
            r == self@.is_source_of(session_id),
    {
        match &self.active {
            Some(session) => session.session_id() == session_id,
            None => false,
        }
    }

    /// Whether this computer is the target of a session.
    fn is_target(&self, session_id: u128) -> (r: bool)
        ensures
            r == self@.is_target_of(session_id),
    {
        match &self.peer_offer {
            Some(offer) => offer.session_id == session_id,
            None => false,
        }
    }

    /// The native drag was dropped on the edge.
    pub fn native_drop_released(&mut self, session_id: u128) -> (r: Vec<DragEffect>)
        ensures
            (final(self)@, views(r@)) == old(self)@.native_drop(session_id),
    {
        let detected = match &self.active {
            Some(session) => {
                if session.session_id() != session_id {
                    return nothing();
                }
                matches!(session.phase(), DragDropPhase::LocalDragDetected)
            },
            None => {
                return nothing();
            },
        };
        if detected {
            return self.cancel_local_drag(
                session_id,
                "尚未进入另一台电脑就已松开".to_owned(),
            );
        }
        one(status_line("拖拽已交接到另一台电脑"))
    }

    /// The left button went up at `point`.
    pub fn local_left_released(&mut self, point: Point, now: u64) -> (r: Vec<DragEffect>)
        requires
            now + TARGET_AUTHORIZATION_TIMEOUT <= u64::MAX,
        ensures
            (final(self)@, views(r@)) == old(self)@.left_released(point, now),
    {
        if self.role != Role::Controller {
            return nothing();
        }
        if self.control_mode == ControlMode::Remote {
            match self.active.take() {
                Some(mut session) => {
                    let selecting = matches!(
                        session.phase(),
                        DragDropPhase::RemoteTargetSelecting
                    );
                    if !selecting {
                        self.active = Some(session);
                        return nothing();
                    }
                    let session_id = session.session_id();
                    let _ = session.release_at(point);
                    self.active = Some(session);
                    self.active_deadline = Some(now + TARGET_AUTHORIZATION_TIMEOUT);
                    let mut effects = one(
                        DragEffect::Send(WireMessage::DragDropReleased { session_id, point }),
                    );
                    effects.push(DragEffect::RestoreLocalInput);
                    effects.push(status_line("正在解析目标目录"));
                    assert(views(effects@) =~= old(self)@.left_released(point, now).1);
                    return effects;
                },
                None => {
                    return nothing();
                },
            }
        }
        match self.peer_offer {
            Some(offer) => {
                if !offer.handed_off || offer.released {
                    return nothing();
                }
                self.peer_offer = Some(
                    PeerDragOffer {
                        session_id: offer.session_id,
                        transfer_id: offer.transfer_id,
                        item_count: offer.item_count,
                        handed_off: offer.handed_off,
                        released: true,
                    },
                );
                let mut effects = one(
                    DragEffect::Send(
                        WireMessage::DragDropReleased { session_id: offer.session_id, point },
                    ),
                );
                effects.push(
                    DragEffect::ResolveTarget {
                        session_id: offer.session_id,
                        transfer_id: offer.transfer_id,
                        point,
                    },
                );
                effects.push(status_line("正在解析目标目录"));
                assert(views(effects@) =~= old(self)@.left_released(point, now).1);
                effects
            },
            None => nothing(),
        }
    }

    /// A new connection was made.
    pub fn begin_connection_generation(&mut self, generation: u64)
        ensures
            final(self)@ == (CoordinatorView {
                connection_generation: generation,
                ..old(self)@
            }),
    {
        self.connection_generation = generation;
    }

    /// A message arrived over the connection with the given generation. Messages
    /// of earlier connections are ignored.
    pub fn handle_tagged_peer_message(
        &mut self,
        generation: u64,
        message: WireMessage,
        now: u64,
    ) -> (r: Vec<DragEffect>)
        requires
            now + TARGET_AUTHORIZATION_TIMEOUT <= u64::MAX,
        ensures
            (final(self)@, views(r@)) == (if generation != old(self)@.connection_generation {
                (old(self)@, Seq::<EffectView>::empty())
            } else {
                old(self)@.peer_message(message@, now)
            }),
    {
        if generation != self.connection_generation {
            return nothing();
        }
        self.handle_peer_message(message, now)
    }

    /// Appends what a shutdown needs besides ending the drag.
    fn finish_shutdown(effects: Vec<DragEffect>, released: bool) -> (r: Vec<DragEffect>)
        ensures
            views(r@) == (if released {
                views(effects@)
            } else {
                views(effects@).push(EffectView::Send(MessageView::ReleaseAll))
            }).push(EffectView::UninstallEdge),
    {
        let mut effects = effects;
        if !released {
            effects.push(DragEffect::Send(WireMessage::ReleaseAll));
        }
        effects.push(DragEffect::UninstallEdge);
        effects
    }

    /// The connection with the given generation was lost.
    pub fn on_disconnect(&mut self, generation: u64) -> (r: Vec<DragEffect>)
        ensures
            (final(self)@, views(r@)) == old(self)@.disconnected(generation),
    {
        if generation != self.connection_generation {
            return nothing();
        }
        let released = self.active.is_some() || self.peer_offer.is_some();
        let effects = self.terminate_active("连接中断".to_owned(), true, false);
        Self::finish_shutdown(effects, released)
    }

    /// The program stops.
    pub fn on_stop(&mut self) -> (r: Vec<DragEffect>)
        ensures
            (final(self)@, views(r@)) == old(self)@.shut_down("程序已停止"@, false, true),
    {
        let released = self.active.is_some() || self.peer_offer.is_some();
        let effects = self.terminate_active("程序已停止".to_owned(), false, true);
        Self::finish_shutdown(effects, released)
    }

    /// Time has passed.
    pub fn tick(&mut self, now: u64) -> (r: Vec<DragEffect>)
        ensures
            (final(self)@, views(r@)) == old(self)@.ticked(now),
    {
        if let Some(deadline) = self.active_deadline {
            if now > deadline {
                return self.terminate_active(
                    "等待目标目录授权超时".to_owned(),
                    true,
                    true,
                );
            }
        }
        nothing()
    }

    /// The authorization that was given to a session expired.
    pub fn authorization_expired(&mut self, session_id: u128) -> (r: Vec<DragEffect>)
        ensures
            (final(self)@, views(r@)) == old(self)@.authorization_lapsed(session_id),
    {
        if !self.is_target(session_id) {
            return nothing();
        }
        let mut ended = self.terminate_active("目标目录授权超时".to_owned(), true, false);
        let mut effects = one(
            DragEffect::Send(
                WireMessage::DragDropTargetFailed {
                    session_id,
                    reason: "目标目录授权超时".to_owned(),
                },
            ),
        );
        effects.append(&mut ended);
        effects
    }

    fn terminate_active(&mut self, reason: String, failed: bool, notify_peer: bool) -> (r: Vec<
        DragEffect,
    >)
        ensures
            (final(self)@, views(r@)) == old(self)@.terminated(reason@, failed, notify_peer),
    {
        let source = self.active.take();
        let target = self.peer_offer.take();
        self.active_deadline = None;
        let (session_id, transfer_id) = match source {
            Some(session) => (session.session_id(), session.transfer_id()),
            None => match target {
                Some(offer) => (offer.session_id, offer.transfer_id),
                None => {
                    return one(DragEffect::RestoreLocalInput);
                },
            },
        };
        let text = join2(
            if failed {
                "拖放失败："
            } else {
                "拖放已取消："
            },
            reason.as_str(),
        );
        let mut effects = one(DragEffect::CancelBulk { transfer_id });
        effects.push(DragEffect::RevokeAuthorization { session_id });
        if notify_peer {
            effects.push(DragEffect::Send(WireMessage::DragDropCancel { session_id, reason }));
        }
        effects.push(DragEffect::Send(WireMessage::ReleaseAll));
        effects.push(DragEffect::RestoreLocalInput);
        effects.push(DragEffect::Status { state: text, destination: None });
        assert(views(effects@) =~= old(self)@.terminated(reason@, failed, notify_peer).1);
        effects
    }

    /// A message arrived from the peer.
    pub fn handle_peer_message(&mut self, message: WireMessage, now: u64) -> (r: Vec<DragEffect>)
        requires
            now + TARGET_AUTHORIZATION_TIMEOUT <= u64::MAX,
        ensures
            (final(self)@, views(r@)) == old(self)@.peer_message(message@, now),
    {
        match message {
            WireMessage::PeerLayout { controller_remote_position } => {
                let edge = edge_for_position(controller_remote_position);
                self.peer_layout = Some(controller_remote_position);
                one(
                    DragEffect::InstallEdge(
                        if self.role == Role::Controller {
                            edge
                        } else {
                            opposite_edge(edge)
                        },
                    ),
                )
            },
            WireMessage::DragDropEntered { session_id, transfer_id, item_count } => {
                if self.active.is_some() || self.peer_offer.is_some() {
                    return busy_answer(session_id);
                }
                self.peer_offer = Some(
                    PeerDragOffer {
                        session_id,
                        transfer_id,
                        item_count,
                        handed_off: false,
                        released: false,
                    },
                );
                self.local_release_handoff_effects()
            },
            WireMessage::DragDropReleased { session_id, point } => {
                self.peer_released_drag(session_id, point, now)
            },
            WireMessage::DragDropTargetResolved { session_id, target } => {
                self.peer_resolved_target(session_id, target)
            },
            WireMessage::DragDropTargetFailed { session_id, reason } => {
                if !self.is_source(session_id) {
                    return nothing();
                }
                self.terminate_active(reason, true, false)
            },
            WireMessage::DragDropTransferStarted { session_id, transfer_id } => {
                let matches_offer = match &self.peer_offer {
                    Some(offer) => offer.session_id == session_id && offer.transfer_id
                        == transfer_id,
                    None => false,
                };
                if matches_offer {
                    one(status_line("正在接收拖放文件"))
                } else {
                    nothing()
                }
            },
            WireMessage::DragDropTransferResult { session_id, transfer_id, ok, reason } => {
                self.peer_reported_result(session_id, transfer_id, ok, reason)
            },
            WireMessage::DragDropCancel { session_id, reason } => {
                if self.is_source(session_id) || self.is_target(session_id) {
                    self.terminate_active(reason, false, false)
                } else {
                    nothing()
                }
            },
            _ => nothing(),
        }
    }

    fn peer_released_drag(&mut self, session_id: u128, point: Point, now: u64) -> (r: Vec<
        DragEffect,
    >)
        requires
            now + TARGET_AUTHORIZATION_TIMEOUT <= u64::MAX,
        ensures
            (final(self)@, views(r@)) == old(self)@.peer_released(session_id, point, now),
    {
        if self.is_source(session_id) {
            match self.active.take() {
                Some(mut session) => {
                    let selecting = matches!(
                        session.phase(),
                        DragDropPhase::RemoteTargetSelecting
                    );
                    if !selecting {
                        self.active = Some(session);
                        return nothing();
                    }
                    let _ = session.release_at(point);
                    self.active = Some(session);
                    self.active_deadline = Some(now + TARGET_AUTHORIZATION_TIMEOUT);
                    let mut effects = one(DragEffect::RestoreLocalInput);
                    effects.push(status_line("正在解析目标目录"));
                    assert(views(effects@) =~= old(self)@.peer_released(session_id, point, now).1);
                    return effects;
                },
                None => {
                    return nothing();
                },
            }
        }
        match self.peer_offer {
            Some(offer) => {
                if offer.session_id != session_id || offer.released {
                    return nothing();
                }
                self.peer_offer = Some(
                    PeerDragOffer {
                        session_id: offer.session_id,
                        transfer_id: offer.transfer_id,
                        item_count: offer.item_count,
                        handed_off: offer.handed_off,
                        released: true,
                    },
                );
                let mut effects = one(
                    DragEffect::ResolveTarget {
                        session_id,
                        transfer_id: offer.transfer_id,
                        point,
                    },
                );
                effects.push(status_line("正在解析目标目录"));
                assert(views(effects@) =~= old(self)@.peer_released(session_id, point, now).1);
                effects
            },
            None => nothing(),
        }
    }

    fn peer_resolved_target(&mut self, session_id: u128, target: DropTargetSummary) -> (r: Vec<
        DragEffect,
    >)
        ensures
            (final(self)@, views(r@)) == old(self)@.target_resolved(session_id, target@),
    {
        if !self.is_source(session_id) {
            return nothing();
        }
        match self.active.take() {
            Some(mut session) => {
                let destination = target.display_name.clone();
                let shown = target.display_name.clone();
                let authorization = target.authorization;
                if session.resolve_target(target).is_err() {
                    self.active = Some(session);
                    return nothing();
                }
                let _ = session.begin_transfer();
                let transfer_id = session.transfer_id();
                let source_paths = clone_texts(session.source_paths());
                self.active = Some(session);
                self.active_deadline = None;
                let mut effects = one(
                    DragEffect::BeginTransfer {
                        session_id,
                        transfer_id,
                        authorization,
                        source_paths,
                        destination,
                    },
                );
                effects.push(
                    DragEffect::Status {
                        state: "正在传输到目标目录".to_owned(),
                        destination: Some(shown),
                    },
                );
                assert(views(effects@) =~= old(self)@.target_resolved(session_id, target@).1);
                effects
            },
            None => nothing(),
        }
    }

    fn peer_reported_result(
        &mut self,
        session_id: u128,
        transfer_id: u128,
        ok: bool,
        reason: Option<String>,
    ) -> (r: Vec<DragEffect>)
        ensures
            (final(self)@, views(r@)) == old(self)@.transfer_result(
                session_id,
                transfer_id,
                ok,
                opt_view(reason),
            ),
    {
        let matches_session = match &self.active {
            Some(session) => session.session_id() == session_id && session.transfer_id()
                == transfer_id && matches!(session.phase(), DragDropPhase::Transferring),
            None => false,
        };
        if !matches_session {
            return nothing();
        }
        if ok {
            self.active = None;
            self.active_deadline = None;
            let mut effects = one(DragEffect::RestoreLocalInput);
            effects.push(status_line("拖放完成"));
            assert(views(effects@) =~= seq![EffectView::RestoreLocalInput, status("拖放完成"@)]);
            effects
        } else {
            let reason = match reason {
                Some(text) => text,
                None => "接收端未能完成传输".to_owned(),
            };
            self.terminate_active(reason, true, false)
        }
    }

    /// The file transfer channel reported something.
    pub fn handle_bulk_event(&mut self, event: BulkTransferEvent) -> (r: Vec<DragEffect>)
        ensures
            (final(self)@, views(r@)) == old(self)@.bulk_event(event@),
    {
        let transfer_id = bulk_transfer_event_id(&event);
        let sends = match &self.active {
            Some(session) => session.transfer_id() == transfer_id,
            None => false,
        };
        if sends {
            return match event {
                BulkTransferEvent::Sent { .. } => one(
                    status_line("文件已发送，等待接收端确认"),
                ),
                BulkTransferEvent::Failed { error, .. } => self.terminate_active(error, true, true),
                BulkTransferEvent::Cancelled(_) => self.terminate_active(
                    "本机已取消传输".to_owned(),
                    false,
                    true,
                ),
                _ => nothing(),
            };
        }
        let receives = match &self.peer_offer {
            Some(offer) => offer.transfer_id == transfer_id,
            None => false,
        };
        if !receives {
            return nothing();
        }
        match event {
            BulkTransferEvent::Completed { .. } => self.report(true, None, "拖放完成".to_owned()),
            BulkTransferEvent::Failed { error, .. } => {
                let state = join2("拖放失败：", error.as_str());
                self.report(false, Some(error), state)
            },
            BulkTransferEvent::Cancelled(_) => self.report(
                false,
                Some("接收端已取消传输".to_owned()),
                "拖放已取消".to_owned(),
            ),
            _ => nothing(),
        }
    }

    fn report(&mut self, ok: bool, reason: Option<String>, state: String) -> (r: Vec<DragEffect>)
        requires
            old(self)@.peer_offer is Some,
        ensures
            (final(self)@, views(r@)) == old(self)@.reported(ok, opt_view(reason), state@),
    {
        match self.peer_offer {
            Some(offer) => {
                self.peer_offer = None;
                let mut effects = one(
                    DragEffect::Send(
                        WireMessage::DragDropTransferResult {
                            session_id: offer.session_id,
                            transfer_id: offer.transfer_id,
                            ok,
                            reason,
                        },
                    ),
                );
                effects.push(DragEffect::RevokeAuthorization { session_id: offer.session_id });
                effects.push(DragEffect::RestoreLocalInput);
                effects.push(DragEffect::Status { state, destination: None });
                assert(views(effects@) =~= old(self)@.reported(ok, opt_view(reason), state@).1);
                effects
            },
            None => nothing(),
        }
    }

    /// The search for a destination ended.
    pub fn complete_target_resolution(
        &mut self,
        session_id: u128,
        transfer_id: u128,
        result: Result<DropTargetSummary, String>,
    ) -> (r: Vec<DragEffect>)
        ensures
            (final(self)@, views(r@)) == old(self)@.resolution(
                session_id,
                transfer_id,
                match result {
                    Ok(target) => Ok::<DropTargetView, Seq<char>>(target@),
                    Err(reason) => Err(reason@),
                },
            ),
    {
        let matches_offer = match &self.peer_offer {
            Some(offer) => offer.session_id == session_id && offer.transfer_id == transfer_id
                && offer.released,
            None => false,
        };
        if !matches_offer {
            return nothing();
        }
        match result {
            Ok(target) => {
                let shown = target.display_name.clone();
                let mut effects = one(
                    DragEffect::Send(WireMessage::DragDropTargetResolved { session_id, target }),
                );
                effects.push(
                    DragEffect::Status {
                        state: "目标目录已确认".to_owned(),
                        destination: Some(shown),
                    },
                );
                assert(views(effects@) =~= old(self)@.resolution(
                    session_id,
                    transfer_id,
                    Ok::<DropTargetView, Seq<char>>(target@),
                ).1);
                effects
            },
            Err(reason) => {
                let mut ended = self.terminate_active(reason.clone(), true, false);
                let mut effects = one(
                    DragEffect::Send(WireMessage::DragDropTargetFailed { session_id, reason }),
                );
                effects.append(&mut ended);
                effects
            },
        }
    }

    fn local_release_handoff_effects(&mut self) -> (r: Vec<DragEffect>)
        ensures
            (final(self)@, views(r@)) == old(self)@.handed_off(),
    {
        if self.role != Role::Controller || self.control_mode != ControlMode::Local {
            return nothing();
        }
        match self.peer_offer {
            Some(offer) => {
                if offer.handed_off {
                    return nothing();
                }
                self.peer_offer = Some(
                    PeerDragOffer {
                        session_id: offer.session_id,
                        transfer_id: offer.transfer_id,
                        item_count: offer.item_count,
                        handed_off: true,
                        released: offer.released,
                    },
                );
                one(DragEffect::AwaitLocalRelease { session_id: offer.session_id })
            },
            None => nothing(),
        }
    }
}

/// Everything that can happen to a coordinator.
#[allow(inconsistent_fields)]
pub enum CoordinatorInput {
    ControlMode(ControlMode),
    LocalDrag { session_id: u128, transfer_id: u128, source_paths: Seq<Seq<char>> },
    LocalDragCancelled { session_id: u128, reason: Seq<char> },
    NativeDrop { session_id: u128 },
    LeftReleased { point: Point, now: u64 },
    Generation(u64),
    PeerMessage { message: MessageView, now: u64 },
    Disconnected { generation: u64 },
    Stopped,
    Tick { now: u64 },
    AuthorizationExpired { session_id: u128 },
    BulkEvent(BulkEventView),
    Resolution {
        session_id: u128,
        transfer_id: u128,
        result: Result<DropTargetView, Seq<char>>,
    },
}

impl CoordinatorView {
    /// What an input leads to.
    pub open spec fn step(self, input: CoordinatorInput) -> Step {
        match input {
            CoordinatorInput::ControlMode(mode) => self.control_changed(mode),
            CoordinatorInput::LocalDrag { session_id, transfer_id, source_paths } => {
                self.local_drag_begun(session_id, transfer_id, source_paths)
            },
            CoordinatorInput::LocalDragCancelled { session_id, reason } => {
                self.local_drag_cancelled(session_id, reason)
            },
            CoordinatorInput::NativeDrop { session_id } => self.native_drop(session_id),
            CoordinatorInput::LeftReleased { point, now } => self.left_released(point, now),
            CoordinatorInput::Generation(generation) => (
                CoordinatorView { connection_generation: generation, ..self },
                Seq::empty(),
            ),
            CoordinatorInput::PeerMessage { message, now } => self.peer_message(message, now),
            CoordinatorInput::Disconnected { generation } => self.disconnected(generation),
            CoordinatorInput::Stopped => self.shut_down("程序已停止"@, false, true),
            CoordinatorInput::Tick { now } => self.ticked(now),
            CoordinatorInput::AuthorizationExpired { session_id } => {
                self.authorization_lapsed(session_id)
            },
            CoordinatorInput::BulkEvent(event) => self.bulk_event(event),
            CoordinatorInput::Resolution { session_id, transfer_id, result } => {
                self.resolution(session_id, transfer_id, result)
            },
        }
    }

    /// At most one drag is under way, and a deadline runs only for a source that
    /// waits for a destination.
    pub open spec fn wf(self) -> bool {
        &&& !(self.active is Some && self.peer_offer is Some)
        &&& self.active_deadline is Some ==> (self.active matches Some(session)
            && session.phase is RemoteDropReleased)
        &&& (self.active matches Some(session) ==> !session.phase.terminal()
            && !(session.phase is RemoteTargetResolved))
    }
}

/// Whatever happens, at most one drag is under way: this computer is never source
/// and target at once.
pub proof fn law_at_most_one_drag(s: CoordinatorView, input: CoordinatorInput)
    requires
        s.wf(),
    ensures
        s.step(input).0.wf(),
        CoordinatorView::fresh(s.role).wf(),
{
}

/// An effect that starts sending files.
pub open spec fn starts_transfer(effects: Seq<EffectView>) -> bool {
    exists|i: int| 0 <= i < effects.len() && (#[trigger] effects[i]) is BeginTransfer
}

/// No data is transferred before the button is released and the target computer has
/// named a destination: sending starts only in answer to a resolved target of the
/// session whose button was released, with the authorization of that target and the
/// files of that session.
pub proof fn law_transfer_starts_after_release_and_resolution(
    s: CoordinatorView,
    input: CoordinatorInput,
)
    requires
        s.wf(),
        starts_transfer(s.step(input).1),
    ensures
        input matches CoordinatorInput::PeerMessage {
            message: MessageView::DragDropTargetResolved { session_id, target },
            ..
        } && s.active matches Some(session) && session.session_id == session_id
            && session.phase is RemoteDropReleased && s.step(input).1[0]
            == (EffectView::BeginTransfer {
            session_id,
            transfer_id: session.transfer_id,
            authorization: target.authorization,
            source_paths: session.source_paths,
            destination: target.display_name,
        }),
{
    let effects = s.step(input).1;
    let i = choose|i: int| 0 <= i < effects.len() && (#[trigger] effects[i]) is BeginTransfer;
    assert(effects[i] is BeginTransfer);
}

/// Sent bytes do not complete a drag: only the peer's result for the same session
/// and transfer makes a transferring source finish without an error.
pub proof fn law_sent_bytes_do_not_complete(s: CoordinatorView, transfer_id: u128)
    ensures
        s.bulk_event(BulkEventView::Sent { transfer_id }).0 == s,
{
}

/// A result for another session or another transfer changes nothing.
pub proof fn law_foreign_results_are_ignored(
    s: CoordinatorView,
    session_id: u128,
    transfer_id: u128,
    ok: bool,
    reason: Option<Seq<char>>,
    now: u64,
)
    requires
        !(s.active matches Some(session) && session.session_id == session_id
            && session.transfer_id == transfer_id),
    ensures
        s.peer_message(
            MessageView::DragDropTransferResult { session_id, transfer_id, ok, reason },
            now,
        ) == (s, Seq::<EffectView>::empty()),
{
}

/// Losing the connection or stopping ends every drag and always releases held input
/// and gives up the edge.
pub proof fn law_shutdown_releases_input(
    s: CoordinatorView,
    reason: Seq<char>,
    failed: bool,
    notify_peer: bool,
)
    ensures
        ({
            let (t, effects) = s.shut_down(reason, failed, notify_peer);
            &&& t.active is None && t.peer_offer is None && t.active_deadline is None
            &&& effects.contains(EffectView::Send(MessageView::ReleaseAll))
            &&& effects.contains(EffectView::RestoreLocalInput)
            &&& effects.last() == EffectView::UninstallEdge
        }),
{
    let (t, effects) = s.shut_down(reason, failed, notify_peer);
    if s.busy_now() {
        let n = effects.len();
        assert(effects[n - 4] == EffectView::Send(MessageView::ReleaseAll));
        assert(effects[n - 3] == EffectView::RestoreLocalInput);
    } else {
        assert(effects[0] == EffectView::RestoreLocalInput);
        assert(effects[1] == EffectView::Send(MessageView::ReleaseAll));
    }
}

/// A source whose destination does not arrive in time gives up, and not before.
pub proof fn law_deadline(s: CoordinatorView, deadline: u64, now: u64)
    requires
        s.active_deadline == Some(deadline),
    ensures
        now <= deadline ==> s.ticked(now) == (s, Seq::<EffectView>::empty()),
        now > deadline ==> s.ticked(now).0 == s.cleared(),
{
}

/// A second drag is refused while one is under way, and the one under way goes on.
pub proof fn law_second_drag_is_refused(
    s: CoordinatorView,
    session_id: u128,
    transfer_id: u128,
    item_count: u32,
    source_paths: Seq<Seq<char>>,
    now: u64,
)
    requires
        s.busy_now(),
    ensures
        s.local_drag_begun(session_id, transfer_id, source_paths) == (s, busy(session_id)),
        s.peer_message(
            MessageView::DragDropEntered { session_id, transfer_id, item_count },
            now,
        ) == (s, busy(session_id)),
{
}

/// The same handoff happens whichever comes first: the peer's announcement or the
/// return of control.
pub proof fn law_handoff_order_does_not_matter(
    role: Role,
    session_id: u128,
    transfer_id: u128,
    item_count: u32,
    now: u64,
)
    requires
        role == Role::Controller,
    ensures
        ({
            let entered = MessageView::DragDropEntered { session_id, transfer_id, item_count };
            let remote = CoordinatorView {
                control_mode: ControlMode::Remote,
                ..CoordinatorView::fresh(role)
            };
            let (a, first) = remote.peer_message(entered, now);
            let (b, second) = a.control_changed(ControlMode::Local);
            let (c, third) = remote.control_changed(ControlMode::Local);
            let (d, fourth) = c.peer_message(entered, now);
            &&& b == d
            &&& first + second == third + fourth
            &&& third + fourth == seq![EffectView::AwaitLocalRelease { session_id }]
        }),
{
    let entered = MessageView::DragDropEntered { session_id, transfer_id, item_count };
    let remote = CoordinatorView {
        control_mode: ControlMode::Remote,
        ..CoordinatorView::fresh(role)
    };
    let (a, first) = remote.peer_message(entered, now);
    let (b, second) = a.control_changed(ControlMode::Local);
    let (c, third) = remote.control_changed(ControlMode::Local);
    let (d, fourth) = c.peer_message(entered, now);
    assert(first + second =~= third + fourth);
    assert(third + fourth =~= seq![EffectView::AwaitLocalRelease { session_id }]);
}

/// A drag that begins here is announced with its own identifiers and the number of its
/// files, and kept with exactly these files. The target is being chosen at once where the
/// pointer is on the other computer, and always on the computer that is controlled.
pub proof fn law_local_drags_are_announced(
    s: CoordinatorView,
    session_id: u128,
    transfer_id: u128,
    source_paths: Seq<Seq<char>>,
)
    requires
        !s.busy_now(),
    ensures
        ({
            let (t, effects) = s.local_drag_begun(session_id, transfer_id, source_paths);
            &&& t.active matches Some(session)
            &&& session.session_id == session_id
            &&& session.transfer_id == transfer_id
            &&& session.source_paths == source_paths
            &&& session.direction == DragDirection::ControllerToAgent <==> s.role
                == Role::Controller
            &&& session.phase is LocalDragDetected <==> s.role == Role::Controller
                && s.control_mode == ControlMode::Local
            &&& session.phase is RemoteTargetSelecting <==> !(session.phase is LocalDragDetected)
            &&& t.active_deadline is None
            &&& effects[0] matches EffectView::Send(
                MessageView::DragDropEntered { session_id: a, transfer_id: b, item_count },
            )
            &&& a == session_id && b == transfer_id
            &&& source_paths.len() <= u32::MAX ==> item_count == source_paths.len()
        }),
{
}

/// A drag that ends early takes everything of it along: its own transfer is cancelled, its
/// own authorization withdrawn, the held input released on both sides, and the reason is
/// shown. The peer is told, with the same reason, exactly if it does not know yet.
pub proof fn law_ended_drags_leave_nothing(
    s: CoordinatorView,
    session_id: u128,
    transfer_id: u128,
    reason: Seq<char>,
    failed: bool,
    notify_peer: bool,
)
    requires
        s.wf(),
        (s.is_source_of(session_id) && s.active->0.transfer_id == transfer_id) || (s.is_target_of(
            session_id,
        ) && s.peer_offer->0.transfer_id == transfer_id),
    ensures
        ({
            let (t, effects) = s.terminated(reason, failed, notify_peer);
            let told = EffectView::Send(MessageView::DragDropCancel { session_id, reason });
            &&& !t.busy_now()
            &&& t.active_deadline is None
            &&& t.role == s.role && t.control_mode == s.control_mode
            &&& effects.contains(EffectView::CancelBulk { transfer_id })
            &&& effects.contains(EffectView::RevokeAuthorization { session_id })
            &&& effects.contains(EffectView::Send(MessageView::ReleaseAll))
            &&& effects.contains(EffectView::RestoreLocalInput)
            &&& effects.contains(told) <==> notify_peer
            &&& effects.last() == status(
                (if failed {
                    "拖放失败："@
                } else {
                    "拖放已取消："@
                }) + reason,
            )
        }),
{
    let (t, effects) = s.terminated(reason, failed, notify_peer);
    let told = EffectView::Send(MessageView::DragDropCancel { session_id, reason });
    let n = effects.len() as int;
    assert(effects[0] == EffectView::CancelBulk { transfer_id });
    assert(effects[1] == EffectView::RevokeAuthorization { session_id });
    assert(effects[n - 3] == EffectView::Send(MessageView::ReleaseAll));
    assert(effects[n - 2] == EffectView::RestoreLocalInput);
    if notify_peer {
        assert(effects[2] == told);
    }
}

/// The button decides where the files go: when it is released, the point is told to the
/// computer under the pointer, and the destination is looked up at exactly that point, by
/// the target, once.
pub proof fn law_destination_is_where_the_button_was_released(
    s: CoordinatorView,
    session_id: u128,
    transfer_id: u128,
    point: Point,
    other: Point,
    now: u64,
    later: u64,
)
    requires
        now + 30_000 <= u64::MAX,
    ensures
        s.role == Role::Controller && s.control_mode == ControlMode::Remote && s.is_source_of(
            session_id,
        ) && s.active->0.phase is RemoteTargetSelecting ==> ({
            let (t, effects) = s.left_released(point, now);
            &&& effects[0] == EffectView::Send(MessageView::DragDropReleased { session_id, point })
            &&& effects.contains(EffectView::RestoreLocalInput)
            &&& t.active_deadline == Some((now + 30_000) as u64)
            &&& t.active->0.phase == PhaseView::RemoteDropReleased { release_point: point }
            &&& t.left_released(other, later) == (t, Seq::<EffectView>::empty())
        }),
        s.role == Role::Controller && s.control_mode == ControlMode::Local && s.is_target_of(
            session_id,
        ) && s.peer_offer->0.transfer_id == transfer_id && s.peer_offer->0.handed_off
            && !s.peer_offer->0.released ==> ({
            let (t, effects) = s.left_released(point, now);
            &&& effects[0] == EffectView::Send(MessageView::DragDropReleased { session_id, point })
            &&& effects[1] == EffectView::ResolveTarget { session_id, transfer_id, point }
            &&& t.left_released(other, later) == (t, Seq::<EffectView>::empty())
        }),
        s.wf() && s.is_target_of(session_id) && s.peer_offer->0.transfer_id == transfer_id
            && !s.peer_offer->0.released ==> ({
            let message = MessageView::DragDropReleased { session_id, point };
            let (t, effects) = s.peer_message(message, now);
            &&& effects[0] == EffectView::ResolveTarget { session_id, transfer_id, point }
            &&& t.peer_message(message, later) == (t, Seq::<EffectView>::empty())
        }),
        s.role == Role::Agent ==> s.left_released(point, now) == (s, Seq::<EffectView>::empty()),
{
    if s.role == Role::Controller && s.control_mode == ControlMode::Remote && s.is_source_of(
        session_id,
    ) && s.active->0.phase is RemoteTargetSelecting {
        assert(s.left_released(point, now).1[1] == EffectView::RestoreLocalInput);
    }
}

/// The answer to a search for a destination goes to the source: the destination as it was
/// found, or the reason why there is none, which ends the drag. Before the button is
/// released there is no answer.
pub proof fn law_destinations_are_told_to_the_source(
    s: CoordinatorView,
    session_id: u128,
    transfer_id: u128,
    target: DropTargetView,
    reason: Seq<char>,
)
    requires
        s.wf(),
        s.is_target_of(session_id),
        s.peer_offer->0.transfer_id == transfer_id,
    ensures
        s.peer_offer->0.released ==> ({
            let (found, told) = s.resolution(session_id, transfer_id, Ok(target));
            let (lost, warned) = s.resolution(session_id, transfer_id, Err(reason));
            &&& found == s
            &&& told[0] == EffectView::Send(
                MessageView::DragDropTargetResolved { session_id, target },
            )
            &&& told[1] matches EffectView::Status { destination, .. }
            &&& destination == Some(target.display_name)
            &&& !lost.busy_now()
            &&& warned[0] == EffectView::Send(
                MessageView::DragDropTargetFailed { session_id, reason },
            )
            &&& warned.last() == status("拖放失败："@ + reason)
        }),
        !s.peer_offer->0.released ==> s.resolution(session_id, transfer_id, Ok(target)) == (
            s,
            Seq::<EffectView>::empty(),
        ),
{
}

/// The target tells the source how the transfer ended: well if all files arrived, otherwise
/// with the reason. The drag is over with it, and its authorization is withdrawn.
pub proof fn law_results_are_told_to_the_source(
    s: CoordinatorView,
    session_id: u128,
    transfer_id: u128,
    cache_paths: Seq<Seq<char>>,
    error: Seq<char>,
)
    requires
        s.wf(),
        s.is_target_of(session_id),
        s.peer_offer->0.transfer_id == transfer_id,
    ensures
        ({
            let (done, good) = s.bulk_event(BulkEventView::Completed { transfer_id, cache_paths });
            let (lost, bad) = s.bulk_event(BulkEventView::Failed { transfer_id, error });
            let (left, off) = s.bulk_event(BulkEventView::Cancelled(transfer_id));
            &&& good[0] == EffectView::Send(
                MessageView::DragDropTransferResult {
                    session_id,
                    transfer_id,
                    ok: true,
                    reason: None,
                },
            )
            &&& bad[0] == EffectView::Send(
                MessageView::DragDropTransferResult {
                    session_id,
                    transfer_id,
                    ok: false,
                    reason: Some(error),
                },
            )
            &&& off[0] matches EffectView::Send(
                MessageView::DragDropTransferResult { ok, reason, .. },
            )
            &&& !ok && reason is Some
            &&& !done.busy_now() && !lost.busy_now() && !left.busy_now()
            &&& good[1] == EffectView::RevokeAuthorization { session_id }
            &&& bad[1] == good[1] && off[1] == good[1]
            &&& good.last() == status("拖放完成"@)
            &&& bad.last() == status("拖放失败："@ + error)
        }),
{
}

/// The source learns how its drag ended: a good result finishes it without an error, a bad
/// one with the target's reason, and a failure of its own transfer is told to the target.
pub proof fn law_sources_learn_the_result(
    s: CoordinatorView,
    session_id: u128,
    transfer_id: u128,
    reason: Seq<char>,
    now: u64,
)
    requires
        s.wf(),
        s.is_source_of(session_id),
        s.active->0.transfer_id == transfer_id,
        s.active->0.phase is Transferring,
    ensures
        ({
            let (done, good) = s.peer_message(
                MessageView::DragDropTransferResult {
                    session_id,
                    transfer_id,
                    ok: true,
                    reason: Some(reason),
                },
                now,
            );
            let (lost, bad) = s.peer_message(
                MessageView::DragDropTransferResult {
                    session_id,
                    transfer_id,
                    ok: false,
                    reason: Some(reason),
                },
                now,
            );
            let (failed, told) = s.bulk_event(BulkEventView::Failed { transfer_id, error: reason });
            let (left, off) = s.bulk_event(BulkEventView::Cancelled(transfer_id));
            &&& !done.busy_now() && !lost.busy_now() && !failed.busy_now() && !left.busy_now()
            &&& good[0] == EffectView::RestoreLocalInput
            &&& good.last() == status("拖放完成"@)
            &&& good.len() == 2
            &&& bad.last() == status("拖放失败："@ + reason)
            &&& told[2] == EffectView::Send(MessageView::DragDropCancel { session_id, reason })
            &&& told.last() == status("拖放失败："@ + reason)
            &&& off[2] matches EffectView::Send(MessageView::DragDropCancel { session_id: id, .. })
            &&& id == session_id
        }),
{
}

/// Messages, reports and answers for a drag that is not under way here change nothing.
pub proof fn law_foreign_drags_are_ignored(
    s: CoordinatorView,
    session_id: u128,
    transfer_id: u128,
    point: Point,
    target: DropTargetView,
    reason: Seq<char>,
    event: BulkEventView,
    now: u64,
)
    requires
        !s.is_source_of(session_id),
        !s.is_target_of(session_id),
        !(s.active matches Some(session) && session.transfer_id == event.id()),
        !(s.peer_offer matches Some(offer) && offer.transfer_id == event.id()),
    ensures
        ({
            let same = (s, Seq::<EffectView>::empty());
            &&& s.peer_message(MessageView::DragDropReleased { session_id, point }, now) == same
            &&& s.peer_message(MessageView::DragDropTargetResolved { session_id, target }, now)
                == same
            &&& s.peer_message(MessageView::DragDropTargetFailed { session_id, reason }, now)
                == same
            &&& s.peer_message(
                MessageView::DragDropTransferStarted { session_id, transfer_id },
                now,
            ) == same
            &&& s.peer_message(MessageView::DragDropCancel { session_id, reason }, now) == same
            &&& s.local_drag_cancelled(session_id, reason) == same
            &&& s.native_drop(session_id) == same
            &&& s.authorization_lapsed(session_id) == same
            &&& s.resolution(session_id, transfer_id, Ok(target)) == same
            &&& s.resolution(session_id, transfer_id, Err(reason)) == same
            &&& s.bulk_event(event) == same
        }),
{
}

/// The pointer leads a drag: when it goes over to the other computer, the target is being
/// chosen there; when it comes back before the button is released, the drag is called off
/// and the peer is told. A drop before the pointer went over calls it off too.
pub proof fn law_drags_follow_the_pointer(s: CoordinatorView, session_id: u128)
    requires
        s.wf(),
        s.role == Role::Controller,
        s.is_source_of(session_id),
    ensures
        s.active->0.phase is LocalDragDetected ==> ({
            let (t, effects) = s.control_changed(ControlMode::Remote);
            let (u, dropped) = s.native_drop(session_id);
            &&& t.active == Some(
                SessionView { phase: PhaseView::RemoteTargetSelecting, ..s.active->0 },
            )
            &&& t.control_mode == ControlMode::Remote
            &&& effects.len() == 1
            &&& !u.busy_now()
            &&& dropped[2] matches EffectView::Send(
                MessageView::DragDropCancel { session_id: id, .. },
            )
            &&& id == session_id
        }),
        s.active->0.phase is RemoteTargetSelecting ==> ({
            let (t, effects) = s.control_changed(ControlMode::Local);
            &&& !t.busy_now()
            &&& t.control_mode == ControlMode::Local
            &&& effects[2] matches EffectView::Send(
                MessageView::DragDropCancel { session_id: id, .. },
            )
            &&& id == session_id
            &&& s.native_drop(session_id).0 == s
        }),
        s.active->0.phase is RemoteDropReleased || s.active->0.phase is Transferring ==> ({
            let (t, effects) = s.control_changed(ControlMode::Local);
            &&& t.active == s.active
            &&& effects.len() == 0
        }),
{
}

/// The two computers watch facing edges: the controller the one behind which the other
/// desktop lies, the agent the one on the other side.
pub proof fn law_edges_face_each_other(
    s: CoordinatorView,
    t: CoordinatorView,
    position: RemotePosition,
    now: u64,
)
    requires
        s.role == Role::Controller,
        t.role == Role::Agent,
    ensures
        ({
            let message = MessageView::PeerLayout { controller_remote_position: position };
            let (u, mine) = s.peer_message(message, now);
            let (v, theirs) = t.peer_message(message, now);
            &&& u.peer_layout == Some(position) && v.peer_layout == Some(position)
            &&& mine == match position {
                RemotePosition::Left => seq![EffectView::InstallEdge(Edge::Left)],
                RemotePosition::Right => seq![EffectView::InstallEdge(Edge::Right)],
                RemotePosition::Top => seq![EffectView::InstallEdge(Edge::Top)],
                RemotePosition::Bottom => seq![EffectView::InstallEdge(Edge::Bottom)],
            }
            &&& theirs == match position {
                RemotePosition::Left => seq![EffectView::InstallEdge(Edge::Right)],
                RemotePosition::Right => seq![EffectView::InstallEdge(Edge::Left)],
                RemotePosition::Top => seq![EffectView::InstallEdge(Edge::Bottom)],
                RemotePosition::Bottom => seq![EffectView::InstallEdge(Edge::Top)],
            }
        }),
{
}

/// A permission that lapses ends the drag on the target, and the source is told. A lost
/// connection counts only if it is the one that is in use.
pub proof fn law_lapses_and_losses_end_the_drag(s: CoordinatorView, session_id: u128, now: u64)
    requires
        s.wf(),
        s.is_target_of(session_id),
    ensures
        ({
            let (t, effects) = s.authorization_lapsed(session_id);
            &&& !t.busy_now()
            &&& effects[0] matches EffectView::Send(
                MessageView::DragDropTargetFailed { session_id: id, .. },
            )
            &&& id == session_id
        }),
        forall|generation: u64|
            generation != s.connection_generation ==> #[trigger] s.disconnected(generation) == (
                s,
                Seq::<EffectView>::empty(),
            ),
        !s.disconnected(s.connection_generation).0.busy_now(),
        s.ticked(now) == (s, Seq::<EffectView>::empty()),
{
}

/// A drag from the controller to the agent, from its beginning to its end: what one side
/// sends is what moves the other one on. The files of the drag are sent under the
/// permission that the agent gave for the place where the button was released, and in the
/// end neither side has a drag under way.
#[verifier::spinoff_prover]
pub proof fn law_drags_reach_the_agent(
    session_id: u128,
    transfer_id: u128,
    source_paths: Seq<Seq<char>>,
    point: Point,
    target: DropTargetView,
    cache_paths: Seq<Seq<char>>,
    now: u64,
)
    requires
        now + 30_000 <= u64::MAX,
    ensures
        ({
            let (c0, _) = CoordinatorView::fresh(Role::Controller).control_changed(
                ControlMode::Remote,
            );
            let a0 = CoordinatorView::fresh(Role::Agent);
            let (c1, e1) = c0.local_drag_begun(session_id, transfer_id, source_paths);
            let (a1, _) = a0.peer_message(e1[0]->Send_0, now);
            let (c2, e2) = c1.left_released(point, now);
            let (a2, f2) = a1.peer_message(e2[0]->Send_0, now);
            let (a3, f3) = a2.resolution(session_id, transfer_id, Ok(target));
            let (c3, e3) = c2.peer_message(f3[0]->Send_0, now);
            let (a4, f4) = a3.bulk_event(BulkEventView::Completed { transfer_id, cache_paths });
            let (c4, e4) = c3.peer_message(f4[0]->Send_0, now);
            &&& e1[0] is Send && e2[0] is Send && f3[0] is Send && f4[0] is Send
            &&& f2[0] == EffectView::ResolveTarget { session_id, transfer_id, point }
            &&& e3[0] == EffectView::BeginTransfer {
                session_id,
                transfer_id,
                authorization: target.authorization,
                source_paths,
                destination: target.display_name,
            }
            &&& e4.last() == status("拖放完成"@)
            &&& !a4.busy_now() && !c4.busy_now()
        }),
{
}

/// A drag from the agent to the controller, from its beginning to its end: the pointer
/// comes back to the controller, the button is released there, and the agent sends its
/// files under the permission for that place.
#[verifier::spinoff_prover]
pub proof fn law_drags_reach_the_controller(
    session_id: u128,
    transfer_id: u128,
    source_paths: Seq<Seq<char>>,
    point: Point,
    target: DropTargetView,
    cache_paths: Seq<Seq<char>>,
    now: u64,
)
    requires
        now + 30_000 <= u64::MAX,
    ensures
        ({
            let (c0, _) = CoordinatorView::fresh(Role::Controller).control_changed(
                ControlMode::Remote,
            );
            let a0 = CoordinatorView::fresh(Role::Agent);
            let (a1, f1) = a0.local_drag_begun(session_id, transfer_id, source_paths);
            let (c1, _) = c0.peer_message(f1[0]->Send_0, now);
            let (c2, e2) = c1.control_changed(ControlMode::Local);
            let (c3, e3) = c2.left_released(point, now);
            let (a2, _) = a1.peer_message(e3[0]->Send_0, now);
            let (c4, e4) = c3.resolution(session_id, transfer_id, Ok(target));
            let (a3, f3) = a2.peer_message(e4[0]->Send_0, now);
            let (c5, e5) = c4.bulk_event(BulkEventView::Completed { transfer_id, cache_paths });
            let (a4, f4) = a3.peer_message(e5[0]->Send_0, now);
            &&& f1[0] is Send && e3[0] is Send && e4[0] is Send && e5[0] is Send
            &&& e2 == seq![EffectView::AwaitLocalRelease { session_id }]
            &&& e3[1] == EffectView::ResolveTarget { session_id, transfer_id, point }
            &&& f3[0] == EffectView::BeginTransfer {
                session_id,
                transfer_id,
                authorization: target.authorization,
                source_paths,
                destination: target.display_name,
            }
            &&& f4.last() == status("拖放完成"@)
            &&& !a4.busy_now() && !c5.busy_now()
        }),
{
}

/// How a drag ended is shown as what it was. To give it up here, to come back with the
/// pointer, to release the button too early or to stop is to call it off; a lost
/// connection, a destination that does not come in time and a permission that lapses are
/// failures. A failure that the peer reports is shown with its reason, and so is what the
/// peer called off.
pub proof fn law_endings_are_shown_as_what_they_are(
    s: CoordinatorView,
    session_id: u128,
    reason: Seq<char>,
    now: u64,
)
    requires
        s.wf(),
    ensures
        s.is_source_of(session_id) ==> {
            &&& s.local_drag_cancelled(session_id, reason).1.last() == status(
                "拖放已取消："@ + reason,
            )
            &&& s.local_drag_cancelled(session_id, reason).1[2] == EffectView::Send(
                MessageView::DragDropCancel { session_id, reason },
            )
            &&& s.peer_message(
                MessageView::DragDropTargetFailed { session_id, reason },
                now,
            ).1.last() == status("拖放失败："@ + reason)
            &&& s.active->0.phase is LocalDragDetected ==> s.native_drop(session_id).1.last()
                == status("拖放已取消："@ + "尚未进入另一台电脑就已松开"@)
            &&& s.role == Role::Controller && s.active->0.phase is RemoteTargetSelecting
                ==> s.control_changed(ControlMode::Local).1.last() == status(
                "拖放已取消："@ + "拖拽已返回本机"@,
            )
            &&& s.active_deadline matches Some(deadline) ==> (now > deadline ==> s.ticked(
                now,
            ).1.last() == status("拖放失败："@ + "等待目标目录授权超时"@) && s.ticked(now).1[2]
                == EffectView::Send(
                MessageView::DragDropCancel { session_id, reason: "等待目标目录授权超时"@ },
            ))
        },
        s.is_source_of(session_id) || s.is_target_of(session_id) ==> {
            let cancelled = s.peer_message(
                MessageView::DragDropCancel { session_id, reason },
                now,
            ).1;
            let lost = s.disconnected(s.connection_generation).1;
            let stopped = s.step(CoordinatorInput::Stopped).1;
            &&& cancelled.last() == status("拖放已取消："@ + reason)
            &&& !cancelled.contains(
                EffectView::Send(MessageView::DragDropCancel { session_id, reason }),
            )
            &&& lost[lost.len() - 2] == status("拖放失败："@ + "连接中断"@)
            &&& stopped[stopped.len() - 2] == status("拖放已取消："@ + "程序已停止"@)
            &&& stopped[2] == EffectView::Send(
                MessageView::DragDropCancel { session_id, reason: "程序已停止"@ },
            )
        },
        s.is_target_of(session_id) ==> s.authorization_lapsed(session_id).1.last() == status(
            "拖放失败："@ + "目标目录授权超时"@,
        ),
{
}

} // verus!
