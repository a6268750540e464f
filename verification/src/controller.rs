//! The controller's session: it turns local input into remote input, and connection
//! and drag events into actions.
use crate::bulk_events::{BulkEventView, BulkTransferEvent};
use crate::clipboard_sync::{handle_remote_clipboard_message, remote_clipboard_actions};
use crate::config::{AppConfig, RemotePosition, TransportMode};
use crate::control::{ControlMode, ControlOutput, ControlState, ControlView};
use crate::controller_drag::{
    cancel_all_controller_drag_drop_sessions, cancel_controller_drag_drop_session,
    drag_trace, handle_controller_bulk_transfer_event, handle_controller_drag_drop_event,
    handle_controller_drag_files, law_files_wait_for_the_release, manifest_view, sends_files,
    ControllerDragDropRuntime, DragTrace, DragsView,
};
use crate::diagnostics::MouseDiagnostics;
use crate::drag_events::{controller_drag_event_ends_local_handoff, DragDropEvent, DragEventView};
use crate::file_transfer::{FileTransferManifest, FileTransferManifestView};
use crate::geometry::{
    detect_edge_for_position, edge_at_position, strip_fits, strip_is_representable, Point, Rect,
};
use crate::heartbeat::{
    handle_heartbeat_message, heartbeat_actions, send_heartbeat, with_received, with_sent,
    HeartbeatTracker,
};
use crate::hooks::{HookEvent, SuppressionMode};
use crate::input_event::{InputEvent, MouseButton};
use crate::pointer::{
    anchor_of, clear_pending_remote_pointer_position_after_raw_delta,
    consume_pending_pointer_park, is_park_echo, mark_local_pointer_parked_for_remote_control,
    near_border, pending_remote_pointer_position_due, position_action,
    remote_pointer_position_action, PendingRemotePointerPosition, RemotePointerPositionAction,
};
use crate::protocol::{DragTransfer, Heartbeat, MessageView, WireMessage, PROTOCOL_VERSION};
use crate::send_buffer::{
    emit_remote_send_actions, send_actions, RemoteInputSendBuffer,
};
use crate::session::{
    ActionView, Channels, PointerMove, PumpAction, SessionCommand, SessionUpdate, UpdateView,
};
use crate::status::RunState;
use crate::text::{decimal, join2, join4, number, views};
use crate::transport::{
    connection_event_is_terminal, CommandView, ConnectionCommand, ConnectionEvent,
    ConnectionEventView,
};
use vstd::prelude::*;

verus! {

broadcast use {crate::text::lemma_views_push, crate::text::lemma_views_add};

/// Where a hook event goes.
#[derive(Clone, Copy, Debug, PartialEq, Eq, Structural)]
pub enum ControllerHookRoute {
    Standard,
    FileDrag,
    Ignore,
}

/// Whether a pointer position lies on the edge that leads to the other computer.
pub open spec fn guards_edge(
    event: HookEvent,
    desktop: Rect,
    edge_trigger_px: int,
    remote_position: RemotePosition,
) -> bool {
    match event {
        HookEvent::PointerPosition { x, y } => edge_at_position(
            Point { x, y },
            desktop,
            edge_trigger_px,
            remote_position,
        ) is Some,
        _ => false,
    }
}

pub fn file_drag_edge_guard_applies(
    event: &HookEvent,
    local_desktop: Rect,
    edge_trigger_px: i32,
    remote_position: RemotePosition,
) -> (r: bool)
    requires
        strip_fits(local_desktop, edge_trigger_px as int, remote_position),
    ensures
        r == guards_edge(*event, local_desktop, edge_trigger_px as int, remote_position),
{
    match event {
        HookEvent::PointerPosition { x, y } => detect_edge_for_position(
            Point::new(*x, *y),
            local_desktop,
            edge_trigger_px,
            remote_position,
        ).is_some(),
        _ => false,
    }
}

/// Where a hook event goes. During a file drag only movements count, and they move
/// the remote pointer; while the button is held on the edge, the drag may yet begin.
pub open spec fn route_of(
    event: HookEvent,
    file_drag_active: bool,
    local_left_button_down: bool,
    real_file_drag_drop_enabled: bool,
    desktop: Rect,
    edge_trigger_px: int,
    remote_position: RemotePosition,
) -> ControllerHookRoute {
    if file_drag_active {
        match event {
            HookEvent::PointerPosition { .. } => ControllerHookRoute::FileDrag,
            HookEvent::Input(InputEvent::MouseMoveDelta(_)) => ControllerHookRoute::FileDrag,
            _ => ControllerHookRoute::Ignore,
        }
    } else if real_file_drag_drop_enabled && local_left_button_down && guards_edge(
        event,
        desktop,
        edge_trigger_px,
        remote_position,
    ) {
        ControllerHookRoute::Ignore
    } else {
        ControllerHookRoute::Standard
    }
}

pub fn controller_hook_route(
    event: &HookEvent,
    file_drag_active: bool,
    local_left_button_down: bool,
    real_file_drag_drop_enabled: bool,
    local_desktop: Rect,
    edge_trigger_px: i32,
    remote_position: RemotePosition,
) -> (r: ControllerHookRoute)
    requires
        strip_fits(local_desktop, edge_trigger_px as int, remote_position),
    ensures
        r == route_of(
            *event,
            file_drag_active,
            local_left_button_down,
            real_file_drag_drop_enabled,
            local_desktop,
            edge_trigger_px as int,
            remote_position,
        ),
{
    if file_drag_active {
        return match event {
            HookEvent::PointerPosition { .. } => ControllerHookRoute::FileDrag,
            HookEvent::Input(InputEvent::MouseMoveDelta(_)) => ControllerHookRoute::FileDrag,
            _ => ControllerHookRoute::Ignore,
        };
    }
    if real_file_drag_drop_enabled && local_left_button_down && file_drag_edge_guard_applies(
        event,
        local_desktop,
        edge_trigger_px,
        remote_position,
    ) {
        ControllerHookRoute::Ignore
    } else {
        ControllerHookRoute::Standard
    }
}

/// Whether the left button is down after an event.
pub open spec fn left_down_after(event: HookEvent, down: bool) -> bool {
    match event {
        HookEvent::Input(InputEvent::MouseButton(button)) => if button.button == MouseButton::Left {
            button.pressed
        } else {
            down
        },
        _ => down,
    }
}

pub fn update_local_left_button_state(event: &HookEvent, local_left_button_down: &mut bool)
    ensures
        *final(local_left_button_down) == left_down_after(*event, *old(local_left_button_down)),
{
    match event {
        HookEvent::Input(InputEvent::MouseButton(button)) => {
            if button.button == MouseButton::Left {
                *local_left_button_down = button.pressed;
            }
        },
        _ => {},
    }
}

/// Whether clipboard content may be sent after a connection event: it may between
/// the agent's hello and the loss of the connection.
pub open spec fn controller_ready_after(
    current: bool,
    event: ConnectionEventView,
    controlling: bool,
) -> bool {
    match event {
        ConnectionEventView::Message(message) => match message {
            MessageView::Hello(hello) => hello.protocol_version == PROTOCOL_VERSION && controlling,
            MessageView::Error(_) => false,
            _ => current,
        },
        ConnectionEventView::LatestPointer { .. }
        | ConnectionEventView::StalePointerPackets { .. } => current,
        _ => false,
    }
}

pub fn controller_clipboard_transport_ready_after_event(
    current: bool,
    event: &ConnectionEvent,
    control_state: &Option<ControlState>,
) -> (r: bool)
    ensures
        r == controller_ready_after(current, event@, control_state is Some),
{
    match event {
        ConnectionEvent::Message(message) => match message {
            WireMessage::Hello(hello) => hello.protocol_version == PROTOCOL_VERSION
                && control_state.is_some(),
            WireMessage::Error(_) => false,
            _ => current,
        },
        ConnectionEvent::LatestPointer { .. } | ConnectionEvent::StalePointerPackets { .. } => {
            current
        },
        _ => false,
    }
}

/// What the loss of the connection asks for.
#[derive(Clone, Copy, Debug, PartialEq, Eq, Structural)]
pub struct ControllerRecoveryAction {
    pub pass_through: bool,
    pub release_all: bool,
}

/// The view of a control state that may be missing.
pub open spec fn control_view(control: Option<ControlState>) -> Option<ControlView> {
    match control {
        Some(state) => Some(state@),
        None => None,
    }
}

/// The remote desktop has control.
pub open spec fn is_remote(control: Option<ControlView>) -> bool {
    control is Some && control->0.mode == ControlMode::Remote
}

/// Whether the remote desktop has control.
pub fn in_remote_mode(control_state: &Option<ControlState>) -> (r: bool)
    ensures
        r == is_remote(control_view(*control_state)),
{
    match control_state {
        Some(state) => state.mode() == ControlMode::Remote,
        None => false,
    }
}

/// After the connection is lost there is no remote desktop. If it had control, local
/// input must pass again and held input must be released.
pub fn controller_recovery_action_for_connection_event(
    event: &ConnectionEvent,
    control_state: &mut Option<ControlState>,
) -> (r: ControllerRecoveryAction)
    ensures
        event@.terminal() ==> *final(control_state) == None::<ControlState> && r.pass_through
            == is_remote(control_view(*old(control_state))) && r.release_all == is_remote(
            control_view(*old(control_state)),
        ),
        !event@.terminal() ==> *final(control_state) == *old(control_state) && r == (
        ControllerRecoveryAction { pass_through: false, release_all: false }),
{
    if !connection_event_is_terminal(event) {
        return ControllerRecoveryAction { pass_through: false, release_all: false };
    }
    let was_remote = in_remote_mode(control_state);
    *control_state = None;
    ControllerRecoveryAction { pass_through: was_remote, release_all: was_remote }
}

/// Where the local pointer continues, if control comes back.
pub fn return_local_pointer_target(output: &ControlOutput) -> (r: Option<Point>)
    ensures
        r == (match *output {
            ControlOutput::ReturnLocal(point) => Some(point),
            _ => None,
        }),
{
    match output {
        ControlOutput::ReturnLocal(point) => Some(*point),
        _ => None,
    }
}

/// The end of a file drag gives control back without a pointer movement.
pub fn finish_controller_file_drag_pointer_mode(
    control_state: &mut Option<ControlState>,
    remote_control_active: &mut bool,
    pending_remote_pointer_position: &mut Option<PendingRemotePointerPosition>,
)
    ensures
        control_view(*final(control_state)) == forced_local(control_view(*old(control_state))),
        !*final(remote_control_active),
        *final(pending_remote_pointer_position) == None::<PendingRemotePointerPosition>,
{
    match *control_state {
        Some(state) => {
            let mut local = state;
            local.force_local();
            *control_state = Some(local);
        },
        None => {},
    }
    *remote_control_active = false;
    *pending_remote_pointer_position = None;
}

/// The local desktop has control, if there are two.
pub open spec fn forced_local(control: Option<ControlView>) -> Option<ControlView> {
    match control {
        Some(state) => Some(ControlView { mode: ControlMode::Local, ..state }),
        None => None,
    }
}

/// The state of the controller's session.
#[derive(Debug, PartialEq, Eq)]
pub struct ControllerPump {
    pub config: AppConfig,
    pub local_desktop: Rect,
    pub control_state: Option<ControlState>,
    pub last_pointer: Option<Point>,
    pub pending_pointer_park: Option<Point>,
    pub pending_remote_pointer_position: Option<PendingRemotePointerPosition>,
    pub mouse_diagnostics: MouseDiagnostics,
    pub remote_input_send_buffer: RemoteInputSendBuffer,
    pub heartbeat: HeartbeatTracker,
    pub clipboard_transport_ready: bool,
    pub drag_drop_runtime: ControllerDragDropRuntime,
    pub real_file_drag_drop_enabled: bool,
    pub local_left_button_down: bool,
    pub remote_control_active: bool,
}

#[verifier::ext_equal]
pub struct ControllerView {
    pub config: AppConfig,
    pub desktop: Rect,
    pub control: Option<ControlView>,
    pub last_pointer: Option<Point>,
    pub pending_park: Option<Point>,
    pub pending_position: Option<PendingRemotePointerPosition>,
    pub diagnostics: MouseDiagnostics,
    pub buffer: RemoteInputSendBuffer,
    pub heartbeats: Seq<u64>,
    pub clipboard_ready: bool,
    pub drags: DragsView,
    pub file_drags: bool,
    pub left_down: bool,
    pub remote_active: bool,
}

impl View for ControllerPump {
    type V = ControllerView;

    open spec fn view(&self) -> ControllerView {
        ControllerView {
            config: self.config,
            desktop: self.local_desktop,
            control: control_view(self.control_state),
            last_pointer: self.last_pointer,
            pending_park: self.pending_pointer_park,
            pending_position: self.pending_remote_pointer_position,
            diagnostics: self.mouse_diagnostics,
            buffer: self.remote_input_send_buffer,
            heartbeats: self.heartbeat@,
            clipboard_ready: self.clipboard_transport_ready,
            drags: self.drag_drop_runtime@,
            file_drags: self.real_file_drag_drop_enabled,
            left_down: self.local_left_button_down,
            remote_active: self.remote_control_active,
        }
    }
}

/// The state of the session, and what was done.
#[verifier::ext_equal]
pub struct ControllerTrace {
    pub state: ControllerView,
    pub out: Seq<ActionView>,
}

/// The view of a session and of the actions so far.
pub open spec fn controller_trace(pump: ControllerPump, out: Seq<PumpAction>) -> ControllerTrace {
    ControllerTrace { state: pump@, out: views(out) }
}

/// Reports a log line.
pub open spec fn log_of(line: Seq<char>) -> ActionView {
    ActionView::Update(UpdateView::Log(line))
}

/// Reports the state.
pub open spec fn state_of(state: RunState) -> ActionView {
    ActionView::Update(UpdateView::RunState(state))
}

impl ControllerTrace {
    pub open spec fn emit(self, action: ActionView) -> ControllerTrace {
        ControllerTrace { out: self.out.push(action), ..self }
    }

    pub open spec fn emit_all(self, actions: Seq<ActionView>) -> ControllerTrace {
        ControllerTrace { out: self.out + actions, ..self }
    }

    pub open spec fn with(self, state: ControllerView) -> ControllerTrace {
        ControllerTrace { state, ..self }
    }

    /// The local pointer is put in the middle of the desktop. Local input passes
    /// while it is, and is swallowed afterwards.
    pub open spec fn park(self) -> ControllerTrace {
        let anchor = anchor_of(self.state.desktop);
        self.with(
            ControllerView {
                diagnostics: self.state.diagnostics.with_park_attempt(),
                last_pointer: Some(anchor),
                pending_park: Some(anchor),
                ..self.state
            },
        ).emit(ActionView::Suppression(SuppressionMode::PassThrough)).emit(
            ActionView::MoveLocalPointer {
                desktop: self.state.desktop,
                point: anchor,
                purpose: PointerMove::Park,
            },
        ).emit(ActionView::Suppression(SuppressionMode::Suppress))
    }

    /// The remote pointer is moved.
    pub open spec fn send_pointer(self, point: Point, now: u64) -> ControllerTrace {
        let (buffer, sent) = self.state.buffer.pointed(point, now);
        self.with(
            ControllerView {
                diagnostics: self.state.diagnostics.with_remote_move(point),
                buffer,
                ..self.state
            },
        ).emit_all(send_actions(sent))
    }

    /// A message is sent after the pointer position that waits.
    pub open spec fn send_after_pointer(self, message: MessageView) -> ControllerTrace {
        self.with(ControllerView { buffer: self.state.buffer.flushed(), ..self.state }).emit_all(
            send_actions(self.state.buffer.followed_by(message)),
        )
    }

    /// Publishes whether the remote desktop has control.
    pub open spec fn set_remote(self, active: bool) -> ControllerTrace {
        self.with(ControllerView { remote_active: active, ..self.state }).emit(
            ActionView::RemoteActive(active),
        )
    }

    /// What a change of control leads to.
    pub open spec fn control_output(
        self,
        output: ControlOutput,
        repark: bool,
        now: u64,
    ) -> ControllerTrace {
        match output {
            ControlOutput::Idle => self,
            ControlOutput::EnterRemote(point) => self.set_remote(true).send_pointer(
                point,
                now,
            ).park().emit(ActionView::Suppression(SuppressionMode::Suppress)).emit(
                log_of("entered remote control"@),
            ).emit(state_of(RunState::RemoteControl)),
            ControlOutput::MoveRemote(point) => if repark {
                self.send_pointer(point, now).park()
            } else {
                self.send_pointer(point, now)
            },
            ControlOutput::ReturnLocal(point) => self.with(
                ControllerView {
                    diagnostics: self.state.diagnostics.with_return(),
                    last_pointer: Some(point),
                    pending_park: Some(point),
                    ..self.state
                },
            ).emit(ActionView::Suppression(SuppressionMode::PassThrough)).emit(
                ActionView::MoveLocalPointer {
                    desktop: self.state.desktop,
                    point,
                    purpose: PointerMove::Return,
                },
            ).send_after_pointer(MessageView::ReleaseAll).set_remote(false).emit(
                log_of("returned to local control"@),
            ).emit(state_of(RunState::LocalControl)),
        }
    }

    /// What a change of control leads to during a file drag: the local pointer stays
    /// with the drag.
    pub open spec fn file_drag_output(self, output: ControlOutput, now: u64) -> ControllerTrace {
        match output {
            ControlOutput::EnterRemote(point) => self.set_remote(true).send_pointer(
                point,
                now,
            ).emit(log_of("file drag/drop controlling remote pointer"@)),
            ControlOutput::MoveRemote(point) => self.set_remote(true).send_pointer(point, now),
            ControlOutput::ReturnLocal(_) => self.set_remote(false),
            ControlOutput::Idle => self,
        }
    }

    /// The remote pointer moves by a distance.
    pub open spec fn move_by(self, dx: i32, dy: i32, repark: bool, now: u64) -> ControllerTrace {
        let (control, output) = self.state.control->0.applied(dx as int, dy as int);
        self.with(ControllerView { control: Some(control), ..self.state }).control_output(
            output,
            repark,
            now,
        )
    }

    /// What a position of the local pointer leads to.
    pub open spec fn position(self, point: Point, now: u64) -> ControllerTrace {
        let state = self.state;
        let seen = state.diagnostics.with_position(point, is_remote(state.control));
        if is_park_echo(point, state.pending_park) {
            self.with(
                ControllerView {
                    diagnostics: seen.with_park_consumed(),
                    last_pointer: state.pending_park,
                    pending_park: None,
                    ..state
                },
            )
        } else {
            let noted = self.with(
                ControllerView {
                    diagnostics: if state.pending_park is Some {
                        seen.with_park_missed()
                    } else {
                        seen
                    },
                    pending_park: None,
                    ..state
                },
            );
            match state.control {
                None => noted.with(ControllerView { last_pointer: Some(point), ..noted.state }),
                Some(control) => if control.mode == ControlMode::Local {
                    let (after, output) = control.observed(point);
                    noted.with(
                        ControllerView {
                            last_pointer: Some(point),
                            control: Some(after),
                            ..noted.state
                        },
                    ).control_output(output, false, now)
                } else if state.diagnostics.raw_recent(now) {
                    let followed = noted.with(
                        ControllerView { last_pointer: Some(point), ..noted.state },
                    );
                    if near_border(point, state.desktop) {
                        followed.park()
                    } else {
                        followed
                    }
                } else {
                    noted.with(
                        ControllerView {
                            pending_position: Some(
                                PendingRemotePointerPosition { point, observed_millis: now },
                            ),
                            ..noted.state
                        },
                    )
                },
            }
        }
    }

    /// What local input leads to while the remote desktop has control.
    pub open spec fn remote_input(self, input: InputEvent, now: u64) -> ControllerTrace {
        match input {
            InputEvent::MouseMoveAbs(_) => self,
            InputEvent::MouseMoveDelta(delta) => self.with(
                ControllerView {
                    last_pointer: match self.state.pending_position {
                        Some(pending) => Some(pending.point),
                        None => self.state.last_pointer,
                    },
                    pending_position: None,
                    diagnostics: self.state.diagnostics.with_raw_delta(delta.dx, delta.dy, now),
                    ..self.state
                },
            ).move_by(delta.dx, delta.dy, false, now),
            InputEvent::ReleaseAll => self.send_after_pointer(MessageView::ReleaseAll),
            _ => self.send_after_pointer(MessageView::Input(input)),
        }
    }

    /// What a hook event leads to when no file is dragged.
    pub open spec fn standard_hook(self, event: HookEvent, now: u64) -> ControllerTrace {
        match event {
            HookEvent::PointerPosition { x, y } => self.position(Point { x, y }, now),
            HookEvent::Input(input) => if is_remote(self.state.control) {
                self.remote_input(input, now)
            } else {
                self
            },
        }
    }

    /// What a hook event leads to while a file is dragged.
    pub open spec fn file_drag_hook(self, event: HookEvent, now: u64) -> ControllerTrace {
        let unparked = self.with(ControllerView { pending_park: None, ..self.state });
        match event {
            HookEvent::PointerPosition { x, y } => {
                let point = Point { x, y };
                let noted = unparked.with(
                    ControllerView { last_pointer: Some(point), ..unparked.state },
                );
                if self.state.control is Some && !is_remote(self.state.control) {
                    let (after, output) = self.state.control->0.observed(point);
                    noted.with(
                        ControllerView { control: Some(after), ..noted.state },
                    ).file_drag_output(output, now)
                } else {
                    noted
                }
            },
            HookEvent::Input(InputEvent::MouseMoveDelta(delta)) => if is_remote(
                self.state.control,
            ) {
                let (after, output) = self.state.control->0.applied(
                    delta.dx as int,
                    delta.dy as int,
                );
                unparked.with(
                    ControllerView {
                        diagnostics: self.state.diagnostics.with_raw_delta(
                            delta.dx,
                            delta.dy,
                            now,
                        ),
                        control: Some(after),
                        ..unparked.state
                    },
                ).file_drag_output(output, now)
            } else {
                unparked
            },
            HookEvent::Input(_) => unparked,
        }
    }

    /// What a hook event leads to.
    pub open spec fn hook(self, event: HookEvent, now: u64) -> ControllerTrace {
        let pressed = self.with(
            ControllerView { left_down: left_down_after(event, self.state.left_down), ..self.state },
        );
        match pressed.state.route(event) {
            ControllerHookRoute::Standard => pressed.standard_hook(event, now),
            ControllerHookRoute::FileDrag => pressed.file_drag_hook(event, now),
            ControllerHookRoute::Ignore => pressed,
        }
    }

    /// A position for which no raw movement came in time is read as a movement.
    pub open spec fn pending(self, now: u64) -> ControllerTrace {
        match self.state.pending_position {
            Some(pending) => if !pending.due(now) {
                self
            } else {
                let followed = self.with(
                    ControllerView {
                        pending_position: None,
                        last_pointer: Some(pending.point),
                        ..self.state
                    },
                );
                if self.state.diagnostics.raw_recent(now) || !is_remote(self.state.control) {
                    followed
                } else {
                    match position_action(
                        pending.point,
                        self.state.desktop,
                        self.state.last_pointer,
                        false,
                    ) {
                        RemotePointerPositionAction::TrackOnly { repark_after_move } => {
                            if repark_after_move {
                                followed.park()
                            } else {
                                followed
                            }
                        },
                        RemotePointerPositionAction::Delta { dx, dy, repark_after_move } => {
                            followed.move_by(dx, dy, repark_after_move, now)
                        },
                    }
                }
            },
            None => self,
        }
    }

    /// What waits is sent, and the counts are shown from time to time.
    pub open spec fn flush_round(self, now: u64) -> ControllerTrace {
        let flushed = self.with(
            ControllerView { buffer: self.state.buffer.flushed(), ..self.state },
        ).emit_all(send_actions(self.state.buffer.waiting()));
        if flushed.state.diagnostics.due(now) {
            flushed.with(
                ControllerView {
                    diagnostics: MouseDiagnostics {
                        last_emit_millis: Some(now),
                        ..flushed.state.diagnostics
                    },
                    ..flushed.state
                },
            ).emit(
                ActionView::Update(
                    UpdateView::MouseDiagnostics(flushed.state.diagnostics.summary_text()),
                ),
            )
        } else {
            flushed
        }
    }

    /// The end of a round of hook events: a position that waits is taken up, unless a
    /// drag is held, and what waits is sent.
    pub open spec fn end_round(self, now: u64) -> ControllerTrace {
        let settled = if self.state.drags.held.len() > 0 {
            self
        } else {
            self.pending(now)
        };
        settled.flush_round(now)
    }

    /// The drags after a step of theirs.
    pub open spec fn with_drags(self, drags: DragTrace) -> ControllerTrace {
        ControllerTrace { state: ControllerView { drags: drags.drags, ..self.state }, out: drags.out }
    }

    pub open spec fn drag_part(self) -> DragTrace {
        DragTrace { drags: self.state.drags, out: self.out }
    }

    /// The end of a file drag gives control back.
    pub open spec fn finish_file_drag(self) -> ControllerTrace {
        self.with(
            ControllerView {
                control: forced_local(self.state.control),
                pending_position: None,
                ..self.state
            },
        ).set_remote(false)
    }

    /// What an event of the drag windows leads to.
    pub open spec fn drag(self, event: DragEventView, channels: Channels) -> ControllerTrace {
        let after = self.with_drags(self.drag_part().event(event, channels));
        if event.ends_handoff() {
            after.finish_file_drag()
        } else {
            after
        }
    }

    /// What the files of a drag lead to.
    pub open spec fn drag_files(
        self,
        drag: DragTransfer,
        paths: Seq<Seq<char>>,
        manifest: Result<FileTransferManifestView, Seq<char>>,
        channels: Channels,
    ) -> ControllerTrace {
        self.with_drags(
            self.drag_part().collected(
                drag,
                paths,
                manifest,
                self.state.config.sharing.max_file_transfer_bytes,
                channels,
            ),
        )
    }

    /// What a report of the file transfer channel leads to.
    pub open spec fn bulk(self, event: BulkEventView) -> ControllerTrace {
        self.with_drags(self.drag_part().bulk(event))
    }

    /// The agent says hello: there is a remote desktop, if it speaks the protocol.
    pub open spec fn hello(self, desktop: Rect, protocol_version: u16) -> ControllerTrace {
        if protocol_version != PROTOCOL_VERSION {
            let error = "protocol version mismatch: expected "@ + decimal(PROTOCOL_VERSION as nat)
                + ", got "@ + decimal(protocol_version as nat);
            self.emit(
                ActionView::Connection(CommandView::SendReliable(MessageView::Error(error))),
            ).emit(ActionView::Update(UpdateView::Error(error)))
        } else {
            self.with(
                ControllerView {
                    control: Some(
                        ControlView {
                            local_desktop: self.state.desktop,
                            remote_desktop: desktop,
                            remote_position: self.state.config.controller.remote_position,
                            edge_trigger_px: self.state.config.edge_trigger_px as int,
                            mode: ControlMode::Local,
                            last_local_point: Point {
                                x: self.state.desktop.left,
                                y: self.state.desktop.top,
                            },
                            remote_point: Point { x: desktop.left, y: desktop.top },
                        },
                    ),
                    ..self.state
                },
            ).set_remote(false).emit(log_of("agent hello received"@)).emit(
                state_of(RunState::LocalControl),
            )
        }
    }

    /// The connection is lost: if the remote desktop had control, local input passes
    /// again, held input is released, and then control is given back.
    pub open spec fn recover(self) -> ControllerTrace {
        let alone = self.with(ControllerView { control: None, ..self.state });
        if is_remote(self.state.control) {
            alone.emit(ActionView::Suppression(SuppressionMode::PassThrough)).emit(
                ActionView::Connection(CommandView::SendReliable(MessageView::ReleaseAll)),
            ).set_remote(false)
        } else {
            alone
        }
    }

    /// What a message of the agent leads to, apart from drags.
    pub open spec fn message(self, message: MessageView, now: u64) -> ControllerTrace {
        match message {
            MessageView::Hello(hello) => self.hello(hello.desktop, hello.protocol_version),
            MessageView::Heartbeat(beat) => self.with(
                ControllerView {
                    heartbeats: with_received(self.state.heartbeats, beat.sent_millis),
                    ..self.state
                },
            ).emit_all(heartbeat_actions(self.state.heartbeats, beat, now)),
            MessageView::ClipboardOffer(_) | MessageView::ClipboardData(_) => self.emit_all(
                remote_clipboard_actions(self.state.config.sharing, message),
            ),
            MessageView::FileTransferOffer(manifest) => self.emit(
                ActionView::Update(
                    UpdateView::ClipboardFileTransferStarted(manifest.transfer_id),
                ),
            ),
            MessageView::Error(error) => self.recover().emit(
                ActionView::Update(UpdateView::Error(error)),
            ),
            _ => self,
        }
    }

    /// What a connection event leads to, apart from drags.
    pub open spec fn handle(self, event: ConnectionEventView, now: u64) -> ControllerTrace {
        let told = self.emit(ActionView::Update(UpdateView::Connection(event)));
        match event {
            ConnectionEventView::Message(message) => told.message(message, now),
            ConnectionEventView::Disconnected(_)
            | ConnectionEventView::Error(_) => told.recover(),
            _ => told,
        }
    }

    /// What a connection event means for drags.
    pub open spec fn settle_drags(self, event: ConnectionEventView) -> ControllerTrace {
        match event {
            ConnectionEventView::Message(MessageView::DragDropCancel { session_id, .. }) => {
                self.with_drags(self.drag_part().cancel(session_id, false)).finish_file_drag()
            },
            _ => if event.terminal() {
                self.with_drags(self.drag_part().cancel_all()).finish_file_drag()
            } else {
                self
            },
        }
    }

    /// What a connection event means for the clipboard.
    pub open spec fn settle_clipboard(self, event: ConnectionEventView) -> ControllerTrace {
        self.with(
            ControllerView {
                clipboard_ready: controller_ready_after(
                    self.state.clipboard_ready,
                    event,
                    self.state.control is Some,
                ),
                ..self.state
            },
        )
    }

    /// What a connection event leads to.
    pub open spec fn connection(self, event: ConnectionEventView, now: u64) -> ControllerTrace {
        self.handle(event, now).settle_drags(event).settle_clipboard(event)
    }

    /// The session ends.
    pub open spec fn end(self) -> ControllerTrace {
        self.emit(ActionView::StopClipboard).emit(
            ActionView::Suppression(SuppressionMode::PassThrough),
        ).set_remote(false)
    }

    /// The session is told to stop: if the remote desktop has control, held input is
    /// released.
    pub open spec fn stop(self) -> ControllerTrace {
        let passing = self.emit(ActionView::Suppression(SuppressionMode::PassThrough));
        let released = if self.state.remote_active {
            passing.set_remote(false).send_after_pointer(MessageView::ReleaseAll)
        } else {
            passing
        };
        released.end()
    }

    /// A drag is called off from the window.
    pub open spec fn cancel_drag(self, session_id: u128) -> ControllerTrace {
        self.with_drags(self.drag_part().cancel(session_id, true)).finish_file_drag()
    }

    /// A heartbeat is sent.
    pub open spec fn heartbeat(self, now: u64) -> ControllerTrace {
        self.with(
            ControllerView { heartbeats: with_sent(self.state.heartbeats, now), ..self.state },
        ).emit(
            ActionView::Connection(
                CommandView::SendReliable(
                    MessageView::Heartbeat(Heartbeat { sent_millis: now }),
                ),
            ),
        )
    }

    /// The local pointer could not be put where it should be.
    pub open spec fn move_failed(self, purpose: PointerMove, error: Seq<char>) -> ControllerTrace {
        self.with(ControllerView { pending_park: None, ..self.state }).emit(
            ActionView::Update(
                UpdateView::Error(
                    match purpose {
                        PointerMove::Park => "local pointer park failed: "@ + error,
                        PointerMove::Return => "local pointer move failed: "@ + error,
                    },
                ),
            ),
        )
    }
}

impl ControllerView {
    /// Where a hook event goes.
    pub open spec fn route(self, event: HookEvent) -> ControllerHookRoute {
        route_of(
            event,
            self.drags.held.len() > 0,
            self.left_down,
            self.file_drags,
            self.desktop,
            self.config.edge_trigger_px as int,
            self.config.controller.remote_position,
        )
    }

    /// The strip at the edge has representable coordinates.
    pub open spec fn edge_fits(self) -> bool {
        strip_fits(
            self.desktop,
            self.config.edge_trigger_px as int,
            self.config.controller.remote_position,
        )
    }

    /// The coordinates that a hook event computes are representable.
    pub open spec fn hook_fits(self, event: HookEvent) -> bool {
        &&& self.edge_fits()
        &&& match self.control {
            Some(control) => match event {
                HookEvent::PointerPosition { x, y } => control.observation_fits(Point { x, y }),
                HookEvent::Input(InputEvent::MouseMoveDelta(delta)) => control.movement_fits(
                    delta.dx as int,
                    delta.dy as int,
                ),
                _ => true,
            },
            None => true,
        }
    }

    /// The coordinates that a pending position computes are representable.
    pub open spec fn pending_fits(self) -> bool {
        match (self.control, self.pending_position) {
            (Some(control), Some(pending)) => match position_action(
                pending.point,
                self.desktop,
                self.last_pointer,
                false,
            ) {
                RemotePointerPositionAction::Delta { dx, dy, .. } => control.movement_fits(
                    dx as int,
                    dy as int,
                ),
                _ => true,
            },
            _ => true,
        }
    }
}

impl ControllerPump {
    /// A session that begins.
    pub fn new(config: AppConfig, local_desktop: Rect, real_file_drag_drop_enabled: bool) -> (r:
        Self)
        ensures
            r@ == (ControllerView {
                config,
                desktop: local_desktop,
                control: None,
                last_pointer: None,
                pending_park: None,
                pending_position: None,
                diagnostics: MouseDiagnostics::zero(),
                buffer: RemoteInputSendBuffer::empty(config.controller.transport_mode),
                heartbeats: Seq::empty(),
                clipboard_ready: false,
                drags: DragsView::none(),
                file_drags: real_file_drag_drop_enabled,
                left_down: false,
                remote_active: false,
            }),
    {
        let buffer = RemoteInputSendBuffer::new(config.controller.transport_mode);
        ControllerPump {
            config,
            local_desktop,
            control_state: None,
            last_pointer: None,
            pending_pointer_park: None,
            pending_remote_pointer_position: None,
            mouse_diagnostics: MouseDiagnostics::default(),
            remote_input_send_buffer: buffer,
            heartbeat: HeartbeatTracker::default(),
            clipboard_transport_ready: false,
            drag_drop_runtime: ControllerDragDropRuntime::default(),
            real_file_drag_drop_enabled,
            local_left_button_down: false,
            remote_control_active: false,
        }
    }

    /// Whether the coordinates that a hook event computes are representable.
    pub fn can_handle_hook(&self, event: &HookEvent) -> (r: bool)
        ensures
            r == self@.hook_fits(*event),
    {
        if !strip_is_representable(
            self.local_desktop,
            self.config.edge_trigger_px,
            self.config.controller.remote_position,
        ) {
            return false;
        }
        match &self.control_state {
            Some(state) => match event {
                HookEvent::PointerPosition { x, y } => state.can_observe(Point::new(*x, *y)),
                HookEvent::Input(InputEvent::MouseMoveDelta(delta)) => state.can_move(
                    delta.dx,
                    delta.dy,
                ),
                _ => true,
            },
            None => true,
        }
    }

    /// Whether the coordinates that a pending position computes are representable.
    pub fn can_process_pending(&self) -> (r: bool)
        ensures
            r == self@.pending_fits(),
    {
        match (&self.control_state, &self.pending_remote_pointer_position) {
            (Some(state), Some(pending)) => {
                let mut last = self.last_pointer;
                match remote_pointer_position_action(
                    pending.point,
                    self.local_desktop,
                    &mut last,
                    false,
                ) {
                    RemotePointerPositionAction::Delta { dx, dy, repark_after_move: _ } => {
                        state.can_move(dx, dy)
                    },
                    _ => true,
                }
            },
            _ => true,
        }
    }

    fn set_remote(&mut self, active: bool, out: &mut Vec<PumpAction>)
        ensures
            controller_trace(*final(self), final(out)@) == controller_trace(
                *old(self),
                old(out)@,
            ).set_remote(active),
    {
        self.remote_control_active = active;
        out.push(PumpAction::RemoteActive(active));
    }

    fn park_local_pointer_for_remote_control(&mut self, out: &mut Vec<PumpAction>)
        ensures
            controller_trace(*final(self), final(out)@) == controller_trace(
                *old(self),
                old(out)@,
            ).park(),
    {
        self.mouse_diagnostics.record_pointer_park_attempt();
        let anchor = mark_local_pointer_parked_for_remote_control(
            self.local_desktop,
            &mut self.last_pointer,
        );
        self.pending_pointer_park = Some(anchor);
        out.push(PumpAction::Suppression(SuppressionMode::PassThrough));
        out.push(
            PumpAction::MoveLocalPointer {
                desktop: self.local_desktop,
                point: anchor,
                purpose: PointerMove::Park,
            },
        );
        out.push(PumpAction::Suppression(SuppressionMode::Suppress));
    }

    fn send_pointer(&mut self, point: Point, now: u64, out: &mut Vec<PumpAction>)
        ensures
            controller_trace(*final(self), final(out)@) == controller_trace(
                *old(self),
                old(out)@,
            ).send_pointer(point, now),
    {
        self.mouse_diagnostics.record_remote_move(point);
        let actions = self.remote_input_send_buffer.send_pointer(point, now);
        emit_remote_send_actions(actions, out);
    }

    fn send_release_all(&mut self, out: &mut Vec<PumpAction>)
        ensures
            controller_trace(*final(self), final(out)@) == controller_trace(
                *old(self),
                old(out)@,
            ).send_after_pointer(MessageView::ReleaseAll),
    {
        let actions = self.remote_input_send_buffer.send_release_all();
        emit_remote_send_actions(actions, out);
    }

    /// Acts on a change of control.
    pub fn handle_control_output(
        &mut self,
        output: ControlOutput,
        repark_after_move: bool,
        now: u64,
        out: &mut Vec<PumpAction>,
    )
        ensures
            controller_trace(*final(self), final(out)@) == controller_trace(
                *old(self),
                old(out)@,
            ).control_output(output, repark_after_move, now),
    {
        match output {
            ControlOutput::Idle => {},
            ControlOutput::EnterRemote(point) => {
                self.set_remote(true, out);
                self.send_pointer(point, now, out);
                self.park_local_pointer_for_remote_control(out);
                out.push(PumpAction::Suppression(SuppressionMode::Suppress));
                out.push(
                    PumpAction::Update(SessionUpdate::Log("entered remote control".to_owned())),
                );
                out.push(PumpAction::Update(SessionUpdate::RunState(RunState::RemoteControl)));
            },
            ControlOutput::MoveRemote(point) => {
                self.send_pointer(point, now, out);
                if repark_after_move {
                    self.park_local_pointer_for_remote_control(out);
                }
            },
            ControlOutput::ReturnLocal(point) => {
                self.mouse_diagnostics.record_return_local();
                out.push(PumpAction::Suppression(SuppressionMode::PassThrough));
                self.last_pointer = Some(point);
                self.pending_pointer_park = Some(point);
                out.push(
                    PumpAction::MoveLocalPointer {
                        desktop: self.local_desktop,
                        point,
                        purpose: PointerMove::Return,
                    },
                );
                self.emit_return_local_release_all(out);
                out.push(
                    PumpAction::Update(SessionUpdate::Log("returned to local control".to_owned())),
                );
                out.push(PumpAction::Update(SessionUpdate::RunState(RunState::LocalControl)));
            },
        }
    }

    /// Releases held input and then gives control back.
    pub fn emit_return_local_release_all(&mut self, out: &mut Vec<PumpAction>)
        ensures
            controller_trace(*final(self), final(out)@) == controller_trace(
                *old(self),
                old(out)@,
            ).send_after_pointer(MessageView::ReleaseAll).set_remote(false),
    {
        self.send_release_all(out);
        self.set_remote(false, out);
    }

    /// Acts on a change of control during a file drag.
    pub fn handle_file_drag_control_output(
        &mut self,
        output: ControlOutput,
        now: u64,
        out: &mut Vec<PumpAction>,
    )
        ensures
            controller_trace(*final(self), final(out)@) == controller_trace(
                *old(self),
                old(out)@,
            ).file_drag_output(output, now),
    {
        match output {
            ControlOutput::EnterRemote(point) => {
                self.set_remote(true, out);
                self.send_pointer(point, now, out);
                out.push(
                    PumpAction::Update(
                        SessionUpdate::Log("file drag/drop controlling remote pointer".to_owned()),
                    ),
                );
            },
            ControlOutput::MoveRemote(point) => {
                self.set_remote(true, out);
                self.send_pointer(point, now, out);
            },
            ControlOutput::ReturnLocal(_) => {
                self.set_remote(false, out);
            },
            ControlOutput::Idle => {},
        }
    }

    fn move_by(&mut self, dx: i32, dy: i32, repark: bool, now: u64, out: &mut Vec<PumpAction>)
        requires
            old(self)@.control is Some,
            old(self)@.control->0.movement_fits(dx as int, dy as int),
        ensures
            controller_trace(*final(self), final(out)@) == controller_trace(
                *old(self),
                old(out)@,
            ).move_by(dx, dy, repark, now),
    {
        match self.control_state {
            Some(before) => {
                let mut state = before;
                let output = state.apply_remote_delta(dx, dy);
                self.control_state = Some(state);
                self.handle_control_output(output, repark, now, out);
            },
            None => {},
        }
    }

    fn handle_position(&mut self, point: Point, now: u64, out: &mut Vec<PumpAction>)
        requires
            old(self)@.control is Some ==> old(self)@.control->0.observation_fits(point),
        ensures
            controller_trace(*final(self), final(out)@) == controller_trace(
                *old(self),
                old(out)@,
            ).position(point, now),
    {
        let remote_mode = in_remote_mode(&self.control_state);
        let raw_delta_recent = self.mouse_diagnostics.raw_delta_recent(now);
        self.mouse_diagnostics.record_hook_position(point, remote_mode);
        let had_pending_park = self.pending_pointer_park.is_some();
        if consume_pending_pointer_park(
            point,
            &mut self.last_pointer,
            &mut self.pending_pointer_park,
        ) {
            self.mouse_diagnostics.record_pointer_park_consumed();
            return;
        }
        if had_pending_park {
            self.mouse_diagnostics.record_pointer_park_missed();
        }
        match self.control_state {
            None => {
                self.last_pointer = Some(point);
            },
            Some(before) => {
                let mut state = before;
                match state.mode() {
                    ControlMode::Local => {
                        self.last_pointer = Some(point);
                        let output = state.observe_local_pointer(point);
                        self.control_state = Some(state);
                        self.handle_control_output(output, false, now, out);
                    },
                    ControlMode::Remote => {
                        if !raw_delta_recent {
                            self.pending_remote_pointer_position =
                            Some(PendingRemotePointerPosition { point, observed_millis: now });
                            return;
                        }
                        match remote_pointer_position_action(
                            point,
                            self.local_desktop,
                            &mut self.last_pointer,
                            raw_delta_recent,
                        ) {
                            RemotePointerPositionAction::TrackOnly { repark_after_move } => {
                                if repark_after_move {
                                    self.park_local_pointer_for_remote_control(out);
                                }
                            },
                            RemotePointerPositionAction::Delta { .. } => {},
                        }
                    },
                }
            },
        }
    }

    fn send_remote_input(&mut self, input: InputEvent, now: u64, out: &mut Vec<PumpAction>)
        requires
            old(self)@.control is Some,
            input matches InputEvent::MouseMoveDelta(delta) ==> old(
                self,
            )@.control->0.movement_fits(delta.dx as int, delta.dy as int),
        ensures
            controller_trace(*final(self), final(out)@) == controller_trace(
                *old(self),
                old(out)@,
            ).remote_input(input, now),
    {
        match input {
            InputEvent::MouseMoveAbs(_) => {},
            InputEvent::MouseMoveDelta(delta) => {
                let _ = clear_pending_remote_pointer_position_after_raw_delta(
                    &mut self.pending_remote_pointer_position,
                    &mut self.last_pointer,
                );
                self.mouse_diagnostics.record_raw_delta(delta.dx, delta.dy, now);
                self.move_by(delta.dx, delta.dy, false, now, out);
            },
            InputEvent::ReleaseAll => {
                self.send_release_all(out);
            },
            event => {
                let actions = self.remote_input_send_buffer.send_reliable_input(event);
                emit_remote_send_actions(actions, out);
            },
        }
    }

    /// Acts on a hook event when no file is dragged.
    pub fn handle_controller_hook_event(
        &mut self,
        event: HookEvent,
        now: u64,
        out: &mut Vec<PumpAction>,
    )
        requires
            old(self)@.hook_fits(event),
        ensures
            controller_trace(*final(self), final(out)@) == controller_trace(
                *old(self),
                old(out)@,
            ).standard_hook(event, now),
    {
        match event {
            HookEvent::PointerPosition { x, y } => {
                self.handle_position(Point::new(x, y), now, out);
            },
            HookEvent::Input(input) => {
                if in_remote_mode(&self.control_state) {
                    self.send_remote_input(input, now, out);
                }
            },
        }
    }

    /// Acts on a hook event while a file is dragged.
    pub fn handle_controller_file_drag_hook_event(
        &mut self,
        event: HookEvent,
        now: u64,
        out: &mut Vec<PumpAction>,
    )
        requires
            old(self)@.hook_fits(event),
        ensures
            controller_trace(*final(self), final(out)@) == controller_trace(
                *old(self),
                old(out)@,
            ).file_drag_hook(event, now),
    {
        self.pending_pointer_park = None;
        match event {
            HookEvent::PointerPosition { x, y } => {
                let point = Point::new(x, y);
                self.last_pointer = Some(point);
                match self.control_state {
                    Some(before) => {
                        let mut state = before;
                        if state.mode() == ControlMode::Local {
                            let output = state.observe_local_pointer(point);
                            self.control_state = Some(state);
                            self.handle_file_drag_control_output(output, now, out);
                        }
                    },
                    None => {},
                }
            },
            HookEvent::Input(InputEvent::MouseMoveDelta(delta)) => match self.control_state {
                Some(before) => {
                    let mut state = before;
                    if state.mode() == ControlMode::Remote {
                        self.mouse_diagnostics.record_raw_delta(delta.dx, delta.dy, now);
                        let output = state.apply_remote_delta(delta.dx, delta.dy);
                        self.control_state = Some(state);
                        self.handle_file_drag_control_output(output, now, out);
                    }
                },
                None => {},
            },
            HookEvent::Input(_) => {},
        }
    }

    /// A hook event.
    pub fn on_hook_event(&mut self, event: HookEvent, now: u64, out: &mut Vec<PumpAction>)
        requires
            old(self)@.hook_fits(event),
        ensures
            controller_trace(*final(self), final(out)@) == controller_trace(
                *old(self),
                old(out)@,
            ).hook(event, now),
    {
        update_local_left_button_state(&event, &mut self.local_left_button_down);
        match controller_hook_route(
            &event,
            self.drag_drop_runtime.has_active(),
            self.local_left_button_down,
            self.real_file_drag_drop_enabled,
            self.local_desktop,
            self.config.edge_trigger_px,
            self.config.controller.remote_position,
        ) {
            ControllerHookRoute::Standard => {
                self.handle_controller_hook_event(event, now, out);
            },
            ControllerHookRoute::FileDrag => {
                self.handle_controller_file_drag_hook_event(event, now, out);
            },
            ControllerHookRoute::Ignore => {},
        }
    }

    /// Reads a position for which no raw movement came in time as a movement.
    pub fn process_pending_remote_pointer_position(&mut self, now: u64, out: &mut Vec<PumpAction>)
        requires
            old(self)@.pending_fits(),
        ensures
            controller_trace(*final(self), final(out)@) == controller_trace(
                *old(self),
                old(out)@,
            ).pending(now),
    {
        let pending = match self.pending_remote_pointer_position {
            Some(pending) => pending,
            None => {
                return;
            },
        };
        if !pending_remote_pointer_position_due(pending, now) {
            return;
        }
        self.pending_remote_pointer_position = None;
        if self.mouse_diagnostics.raw_delta_recent(now) || !in_remote_mode(&self.control_state) {
            self.last_pointer = Some(pending.point);
            return;
        }
        match remote_pointer_position_action(
            pending.point,
            self.local_desktop,
            &mut self.last_pointer,
            false,
        ) {
            RemotePointerPositionAction::TrackOnly { repark_after_move } => {
                if repark_after_move {
                    self.park_local_pointer_for_remote_control(out);
                }
            },
            RemotePointerPositionAction::Delta { dx, dy, repark_after_move } => {
                self.move_by(dx, dy, repark_after_move, now, out);
            },
        }
    }

    /// The end of a round of hook events.
    pub fn end_hook_round(&mut self, now: u64, out: &mut Vec<PumpAction>)
        requires
            old(self)@.pending_fits(),
        ensures
            controller_trace(*final(self), final(out)@) == controller_trace(
                *old(self),
                old(out)@,
            ).end_round(now),
    {
        if !self.drag_drop_runtime.has_active() {
            self.process_pending_remote_pointer_position(now, out);
        }
        self.flush_hook_round(now, out);
    }

    /// What waits is sent at the end of a round of hook events.
    pub fn flush_hook_round(&mut self, now: u64, out: &mut Vec<PumpAction>)
        ensures
            controller_trace(*final(self), final(out)@) == controller_trace(
                *old(self),
                old(out)@,
            ).flush_round(now),
    {
        let actions = self.remote_input_send_buffer.flush_pending_move();
        emit_remote_send_actions(actions, out);
        match self.mouse_diagnostics.summary_if_due(now) {
            Some(summary) => {
                out.push(PumpAction::Update(SessionUpdate::MouseDiagnostics(summary)));
            },
            None => {},
        }
    }

    fn finish_file_drag(&mut self, out: &mut Vec<PumpAction>)
        ensures
            controller_trace(*final(self), final(out)@) == controller_trace(
                *old(self),
                old(out)@,
            ).finish_file_drag(),
    {
        finish_controller_file_drag_pointer_mode(
            &mut self.control_state,
            &mut self.remote_control_active,
            &mut self.pending_remote_pointer_position,
        );
        out.push(PumpAction::RemoteActive(false));
    }

    /// An event of the drag windows.
    pub fn on_drag_event(
        &mut self,
        event: DragDropEvent,
        channels: Channels,
        out: &mut Vec<PumpAction>,
    )
        ensures
            controller_trace(*final(self), final(out)@) == controller_trace(
                *old(self),
                old(out)@,
            ).drag(event@, channels),
    {
        let ends_local_handoff = controller_drag_event_ends_local_handoff(&event);
        handle_controller_drag_drop_event(event, &mut self.drag_drop_runtime, channels, out);
        if ends_local_handoff {
            self.finish_file_drag(out);
        }
    }

    /// The files of a drag were collected, or could not be.
    pub fn on_drag_files(
        &mut self,
        drag: DragTransfer,
        paths: Vec<String>,
        manifest: Result<FileTransferManifest, String>,
        channels: Channels,
        out: &mut Vec<PumpAction>,
    )
        ensures
            controller_trace(*final(self), final(out)@) == controller_trace(
                *old(self),
                old(out)@,
            ).drag_files(drag, views(paths@), manifest_view(manifest), channels),
    {
        handle_controller_drag_files(
            drag,
            paths,
            manifest,
            self.config.sharing.max_file_transfer_bytes,
            &mut self.drag_drop_runtime,
            channels,
            out,
        );
    }

    /// A report of the file transfer channel.
    pub fn on_bulk_event(&mut self, event: &BulkTransferEvent)
        ensures
            forall|out: Seq<PumpAction>| #[trigger]
                controller_trace(*final(self), out) == controller_trace(*old(self), out).bulk(
                    event@,
                ),
    {
        let ghost before = self.drag_drop_runtime;
        handle_controller_bulk_transfer_event(event, &mut self.drag_drop_runtime);
        assert forall|out: Seq<PumpAction>| #[trigger]
            controller_trace(*self, out) == controller_trace(*old(self), out).bulk(event@) by {
            assert(drag_trace(self.drag_drop_runtime, out) == drag_trace(before, out).bulk(event@));
        }
    }

    fn handle_hello(&mut self, desktop: Rect, protocol_version: u16, out: &mut Vec<PumpAction>)
        ensures
            controller_trace(*final(self), final(out)@) == controller_trace(
                *old(self),
                old(out)@,
            ).hello(desktop, protocol_version),
    {
        if protocol_version != PROTOCOL_VERSION {
            let expected = number(PROTOCOL_VERSION as u64);
            let got = number(protocol_version as u64);
            let error = join4(
                "protocol version mismatch: expected ",
                expected.as_str(),
                ", got ",
                got.as_str(),
            );
            out.push(
                PumpAction::Connection(
                    ConnectionCommand::SendReliable(WireMessage::Error(error.clone())),
                ),
            );
            out.push(PumpAction::Update(SessionUpdate::Error(error)));
            return;
        }
        self.control_state =
        Some(
            ControlState::new(
                self.local_desktop,
                desktop,
                self.config.controller.remote_position,
                self.config.edge_trigger_px,
            ),
        );
        self.set_remote(false, out);
        out.push(PumpAction::Update(SessionUpdate::Log("agent hello received".to_owned())));
        out.push(PumpAction::Update(SessionUpdate::RunState(RunState::LocalControl)));
    }

    fn recover(&mut self, event: &ConnectionEvent, out: &mut Vec<PumpAction>)
        requires
            event@.terminal(),
        ensures
            controller_trace(*final(self), final(out)@) == controller_trace(
                *old(self),
                old(out)@,
            ).recover(),
    {
        let action = controller_recovery_action_for_connection_event(
            event,
            &mut self.control_state,
        );
        if action.pass_through {
            out.push(PumpAction::Suppression(SuppressionMode::PassThrough));
        }
        if action.release_all {
            self.emit_recovery_release_all(out);
        }
    }

    /// Releases held input and then gives control back.
    pub fn emit_recovery_release_all(&mut self, out: &mut Vec<PumpAction>)
        ensures
            controller_trace(*final(self), final(out)@) == controller_trace(
                *old(self),
                old(out)@,
            ).emit(
                ActionView::Connection(CommandView::SendReliable(MessageView::ReleaseAll)),
            ).set_remote(false),
    {
        out.push(
            PumpAction::Connection(ConnectionCommand::SendReliable(WireMessage::ReleaseAll)),
        );
        self.set_remote(false, out);
    }

    fn handle_message(&mut self, event: &ConnectionEvent, now: u64, out: &mut Vec<PumpAction>)
        requires
            event@ is Message,
        ensures
            controller_trace(*final(self), final(out)@) == controller_trace(
                *old(self),
                old(out)@,
            ).message(event@->Message_0, now),
    {
        match event {
            ConnectionEvent::Message(message) => match message {
                WireMessage::Hello(hello) => {
                    self.handle_hello(hello.desktop, hello.protocol_version, out);
                },
                WireMessage::Heartbeat(beat) => {
                    let mut actions = handle_heartbeat_message(*beat, &mut self.heartbeat, now);
                    out.append(&mut actions);
                },
                WireMessage::ClipboardOffer(_) | WireMessage::ClipboardData(_) => {
                    let mut actions = handle_remote_clipboard_message(
                        message.clone(),
                        &self.config,
                    );
                    out.append(&mut actions);
                },
                WireMessage::FileTransferOffer(manifest) => {
                    out.push(
                        PumpAction::Update(
                            SessionUpdate::ClipboardFileTransferStarted(manifest.transfer_id),
                        ),
                    );
                },
                WireMessage::Error(error) => {
                    self.recover(event, out);
                    out.push(PumpAction::Update(SessionUpdate::Error(error.clone())));
                },
                _ => {},
            },
            _ => {},
        }
    }

    /// Acts on a connection event, apart from drags.
    pub fn handle_controller_connection_event(
        &mut self,
        event: &ConnectionEvent,
        now: u64,
        out: &mut Vec<PumpAction>,
    )
        ensures
            controller_trace(*final(self), final(out)@) == controller_trace(
                *old(self),
                old(out)@,
            ).handle(event@, now),
    {
        out.push(PumpAction::Update(SessionUpdate::Connection(event.clone())));
        match event {
            ConnectionEvent::Message(_) => {
                self.handle_message(event, now, out);
            },
            ConnectionEvent::Disconnected(_) | ConnectionEvent::Error(_) => {
                self.recover(event, out);
            },
            _ => {},
        }
    }

    fn settle_drags(&mut self, event: &ConnectionEvent, out: &mut Vec<PumpAction>)
        ensures
            controller_trace(*final(self), final(out)@) == controller_trace(
                *old(self),
                old(out)@,
            ).settle_drags(event@),
    {
        match event {
            ConnectionEvent::Message(
                WireMessage::DragDropCancel { session_id, reason: _ },
            ) => {
                cancel_controller_drag_drop_session(
                    *session_id,
                    &mut self.drag_drop_runtime,
                    false,
                    out,
                );
                self.finish_file_drag(out);
            },
            _ => {
                if connection_event_is_terminal(event) {
                    cancel_all_controller_drag_drop_sessions(&mut self.drag_drop_runtime, out);
                    self.finish_file_drag(out);
                }
            },
        }
    }

    fn settle_clipboard(&mut self, event: &ConnectionEvent)
        ensures
            forall|out: Seq<PumpAction>| #[trigger]
                controller_trace(*final(self), out) == controller_trace(
                    *old(self),
                    out,
                ).settle_clipboard(event@),
    {
        self.clipboard_transport_ready =
        controller_clipboard_transport_ready_after_event(
            self.clipboard_transport_ready,
            event,
            &self.control_state,
        );
    }

    /// A connection event.
    pub fn on_connection_event(
        &mut self,
        event: &ConnectionEvent,
        now: u64,
        out: &mut Vec<PumpAction>,
    )
        ensures
            controller_trace(*final(self), final(out)@) == controller_trace(
                *old(self),
                old(out)@,
            ).connection(event@, now),
    {
        self.handle_controller_connection_event(event, now, out);
        self.settle_drags(event, out);
        self.settle_clipboard(event);
    }

    /// The session ends because the connection is gone for good.
    pub fn end(&mut self, out: &mut Vec<PumpAction>)
        ensures
            controller_trace(*final(self), final(out)@) == controller_trace(
                *old(self),
                old(out)@,
            ).end(),
    {
        out.push(PumpAction::StopClipboard);
        out.push(PumpAction::Suppression(SuppressionMode::PassThrough));
        self.set_remote(false, out);
    }

    /// The session is told something. Whether it goes on is returned.
    pub fn on_command(&mut self, command: SessionCommand, out: &mut Vec<PumpAction>) -> (r: bool)
        ensures
            match command {
                SessionCommand::Stop => !r && controller_trace(*final(self), final(out)@)
                    == controller_trace(*old(self), old(out)@).stop(),
                SessionCommand::CancelDragDrop(session_id) => r && controller_trace(
                    *final(self),
                    final(out)@,
                ) == controller_trace(*old(self), old(out)@).cancel_drag(session_id),
            },
    {
        match command {
            SessionCommand::Stop => {
                out.push(PumpAction::Suppression(SuppressionMode::PassThrough));
                if self.remote_control_active {
                    self.set_remote(false, out);
                    self.send_release_all(out);
                }
                self.end(out);
                false
            },
            SessionCommand::CancelDragDrop(session_id) => {
                cancel_controller_drag_drop_session(
                    session_id,
                    &mut self.drag_drop_runtime,
                    true,
                    out,
                );
                self.finish_file_drag(out);
                true
            },
        }
    }

    /// It is time for a heartbeat.
    pub fn on_heartbeat(&mut self, now: u64, out: &mut Vec<PumpAction>)
        ensures
            controller_trace(*final(self), final(out)@) == controller_trace(
                *old(self),
                old(out)@,
            ).heartbeat(now),
    {
        let action = send_heartbeat(&mut self.heartbeat, now);
        out.push(action);
    }

    /// The local pointer could not be put where it should be.
    pub fn pointer_move_failed(
        &mut self,
        purpose: PointerMove,
        error: &str,
        out: &mut Vec<PumpAction>,
    )
        ensures
            controller_trace(*final(self), final(out)@) == controller_trace(
                *old(self),
                old(out)@,
            ).move_failed(purpose, error@),
    {
        self.pending_pointer_park = None;
        let text = match purpose {
            PointerMove::Park => join2("local pointer park failed: ", error),
            PointerMove::Return => join2("local pointer move failed: ", error),
        };
        out.push(PumpAction::Update(SessionUpdate::Error(text)));
    }
}

impl ControllerView {
    /// What is published about control agrees with who has it.
    pub open spec fn consistent(self) -> bool {
        self.remote_active == is_remote(self.control)
    }
}

/// A session that begins is consistent, and every event keeps it so.
pub proof fn law_published_control_is_true(
    trace: ControllerTrace,
    event: HookEvent,
    drag_event: DragEventView,
    connection_event: ConnectionEventView,
    channels: Channels,
    session_id: u128,
    now: u64,
)
    requires
        trace.state.consistent(),
    ensures
        trace.hook(event, now).state.consistent(),
        trace.pending(now).state.consistent(),
        trace.end_round(now).state.consistent(),
        trace.drag(drag_event, channels).state.consistent(),
        trace.cancel_drag(session_id).state.consistent(),
        trace.connection(connection_event, now).state.consistent(),
{
    lemma_hook_is_consistent(trace, event, now);
    lemma_pending_is_consistent(trace, now);
    lemma_connection_is_consistent(trace, connection_event, now);
}

proof fn lemma_output_is_consistent(
    trace: ControllerTrace,
    control: ControlView,
    output: ControlOutput,
    repark: bool,
    now: u64,
)
    requires
        output is EnterRemote || output is MoveRemote ==> control.mode == ControlMode::Remote,
        output is ReturnLocal ==> control.mode == ControlMode::Local,
        output is Idle || (output is MoveRemote) ==> trace.state.remote_active == (control.mode
            == ControlMode::Remote),
        trace.state.control == Some(control),
    ensures
        trace.control_output(output, repark, now).state.consistent(),
        trace.file_drag_output(output, now).state.consistent(),
{
}

proof fn lemma_move_is_consistent(
    trace: ControllerTrace,
    dx: i32,
    dy: i32,
    repark: bool,
    now: u64,
)
    requires
        trace.state.consistent(),
        trace.state.control is Some,
    ensures
        trace.move_by(dx, dy, repark, now).state.consistent(),
{
    let (control, output) = trace.state.control->0.applied(dx as int, dy as int);
    lemma_output_is_consistent(
        trace.with(ControllerView { control: Some(control), ..trace.state }),
        control,
        output,
        repark,
        now,
    );
}

proof fn lemma_position_is_consistent(trace: ControllerTrace, point: Point, now: u64)
    requires
        trace.state.consistent(),
    ensures
        trace.position(point, now).state.consistent(),
{
    let state = trace.state;
    let seen = state.diagnostics.with_position(point, is_remote(state.control));
    let noted = trace.with(
        ControllerView {
            diagnostics: if state.pending_park is Some {
                seen.with_park_missed()
            } else {
                seen
            },
            pending_park: None,
            ..state
        },
    );
    if state.control is Some && state.control->0.mode == ControlMode::Local {
        let (after, output) = state.control->0.observed(point);
        lemma_output_is_consistent(
            noted.with(
                ControllerView { last_pointer: Some(point), control: Some(after), ..noted.state },
            ),
            after,
            output,
            false,
            now,
        );
    }
}

proof fn lemma_input_is_consistent(trace: ControllerTrace, input: InputEvent, now: u64)
    requires
        trace.state.consistent(),
        trace.state.control is Some,
    ensures
        trace.remote_input(input, now).state.consistent(),
{
    if let InputEvent::MouseMoveDelta(delta) = input {
        let noted = trace.with(
            ControllerView {
                last_pointer: match trace.state.pending_position {
                    Some(pending) => Some(pending.point),
                    None => trace.state.last_pointer,
                },
                pending_position: None,
                diagnostics: trace.state.diagnostics.with_raw_delta(delta.dx, delta.dy, now),
                ..trace.state
            },
        );
        lemma_move_is_consistent(noted, delta.dx, delta.dy, false, now);
    }
}

proof fn lemma_hook_is_consistent(trace: ControllerTrace, event: HookEvent, now: u64)
    requires
        trace.state.consistent(),
    ensures
        trace.hook(event, now).state.consistent(),
{
    let pressed = trace.with(
        ControllerView { left_down: left_down_after(event, trace.state.left_down), ..trace.state },
    );
    match event {
        HookEvent::PointerPosition { x, y } => {
            let point = Point { x, y };
            lemma_position_is_consistent(pressed, point, now);
            let unparked = pressed.with(ControllerView { pending_park: None, ..pressed.state });
            let noted = unparked.with(
                ControllerView { last_pointer: Some(point), ..unparked.state },
            );
            if trace.state.control is Some && !is_remote(trace.state.control) {
                let (after, output) = trace.state.control->0.observed(point);
                lemma_output_is_consistent(
                    noted.with(ControllerView { control: Some(after), ..noted.state }),
                    after,
                    output,
                    false,
                    now,
                );
            }
        },
        HookEvent::Input(input) => {
            if is_remote(trace.state.control) {
                lemma_input_is_consistent(pressed, input, now);
                if let InputEvent::MouseMoveDelta(delta) = input {
                    let (after, output) = trace.state.control->0.applied(
                        delta.dx as int,
                        delta.dy as int,
                    );
                    let unparked = pressed.with(
                        ControllerView { pending_park: None, ..pressed.state },
                    );
                    lemma_output_is_consistent(
                        unparked.with(
                            ControllerView {
                                diagnostics: pressed.state.diagnostics.with_raw_delta(
                                    delta.dx,
                                    delta.dy,
                                    now,
                                ),
                                control: Some(after),
                                ..unparked.state
                            },
                        ),
                        after,
                        output,
                        false,
                        now,
                    );
                }
            }
        },
    }
}

proof fn lemma_pending_is_consistent(trace: ControllerTrace, now: u64)
    requires
        trace.state.consistent(),
    ensures
        trace.pending(now).state.consistent(),
{
    if let Some(pending) = trace.state.pending_position {
        let followed = trace.with(
            ControllerView {
                pending_position: None,
                last_pointer: Some(pending.point),
                ..trace.state
            },
        );
        if let RemotePointerPositionAction::Delta { dx, dy, repark_after_move } = position_action(
            pending.point,
            trace.state.desktop,
            trace.state.last_pointer,
            false,
        ) {
            if is_remote(trace.state.control) {
                lemma_move_is_consistent(followed, dx, dy, repark_after_move, now);
            }
        }
    }
}

proof fn lemma_connection_is_consistent(
    trace: ControllerTrace,
    event: ConnectionEventView,
    now: u64,
)
    requires
        trace.state.consistent(),
    ensures
        trace.connection(event, now).state.consistent(),
{
    let handled = trace.handle(event, now);
    assert(handled.state.consistent());
    assert(handled.settle_drags(event).state.consistent());
}

/// The controller sends no files before the button of a drag is released.
pub proof fn law_no_files_before_the_release(
    trace: ControllerTrace,
    event: DragEventView,
    drag: DragTransfer,
    paths: Seq<Seq<char>>,
    manifest: Result<FileTransferManifestView, Seq<char>>,
    channels: Channels,
)
    ensures
        forall|i: int|
            trace.out.len() <= i < trace.drag(event, channels).out.len() ==> !sends_files(
                #[trigger] trace.drag(event, channels).out[i],
            ),
        !trace.state.drags.may_send(drag) ==> trace.drag_files(drag, paths, manifest, channels)
            == trace,
        trace.drag(event, channels).state.drags.released.contains(drag)
            && !trace.state.drags.released.contains(drag) ==> event == (
        DragEventView::LocalDropCommitted { session_id: drag.session_id }),
{
    law_files_wait_for_the_release(
        trace.drag_part(),
        event,
        drag,
        paths,
        manifest,
        trace.state.config.sharing.max_file_transfer_bytes,
        channels,
    );
    let stepped = trace.drag_part().event(event, channels).out;
    let after = trace.drag(event, channels).out;
    assert forall|i: int| trace.out.len() <= i < after.len() implies !sends_files(
        #[trigger] after[i],
    ) by {
        if i < stepped.len() {
            assert(after[i] == stepped[i]);
        }
    }
}

/// Once the connection is lost, nothing of the remote side is left: the local
/// desktop has control, no drag is under way, and no clipboard content is sent.
pub proof fn law_lost_connection_leaves_local_control(
    trace: ControllerTrace,
    event: ConnectionEventView,
    now: u64,
)
    requires
        event.terminal(),
    ensures
        trace.connection(event, now).state.control is None,
        !trace.connection(event, now).state.remote_active,
        trace.connection(event, now).state.drags == DragsView::none(),
        !trace.connection(event, now).state.clipboard_ready,
{
    assert(trace.handle(event, now).state.control is None);
}

/// While the local desktop has control, keys and buttons are not sent.
pub proof fn law_local_input_stays_local(trace: ControllerTrace, input: InputEvent, now: u64)
    requires
        !is_remote(trace.state.control),
    ensures
        trace.hook(HookEvent::Input(input), now).out == trace.out,
{
}

/// Held input is released before control is given back, so no key stays pressed on
/// the other computer.
pub proof fn law_release_precedes_return(trace: ControllerTrace, point: Point, now: u64)
    ensures
        ({
            let after = trace.control_output(ControlOutput::ReturnLocal(point), false, now);
            let release = ActionView::Connection(
                CommandView::SendReliable(MessageView::ReleaseAll),
            );
            let given_back = ActionView::RemoteActive(false);
            exists|i: int, j: int|
                trace.out.len() <= i < j < after.out.len() && after.out[i] == release
                    && after.out[j] == given_back
        }),
        is_remote(trace.state.control) ==> ({
            let after = trace.recover();
            let release = ActionView::Connection(
                CommandView::SendReliable(MessageView::ReleaseAll),
            );
            let given_back = ActionView::RemoteActive(false);
            exists|i: int, j: int|
                trace.out.len() <= i < j < after.out.len() && after.out[i] == release
                    && after.out[j] == given_back
        }),
{
    let release = ActionView::Connection(CommandView::SendReliable(MessageView::ReleaseAll));
    let given_back = ActionView::RemoteActive(false);
    let sent = send_actions(trace.state.buffer.followed_by(MessageView::ReleaseAll));
    assert(sent.last() == release);
    let after = trace.control_output(ControlOutput::ReturnLocal(point), false, now);
    let place = trace.out.len() + 2 + sent.len() - 1;
    assert(after.out[place] == release);
    assert(after.out[place + 1] == given_back);
    if is_remote(trace.state.control) {
        let recovered = trace.recover();
        assert(recovered.out[trace.out.len() as int + 1] == release);
        assert(recovered.out[trace.out.len() as int + 2] == given_back);
    }
}

/// A session that stops while the other computer is controlled releases held input.
pub proof fn law_stop_releases_held_input(trace: ControllerTrace)
    requires
        trace.state.remote_active,
    ensures
        trace.stop().out.contains(
            ActionView::Connection(CommandView::SendReliable(MessageView::ReleaseAll)),
        ),
        !trace.stop().state.remote_active,
{
    let release = ActionView::Connection(CommandView::SendReliable(MessageView::ReleaseAll));
    let sent = send_actions(trace.state.buffer.followed_by(MessageView::ReleaseAll));
    assert(sent.last() == release);
    assert(trace.stop().out[trace.out.len() + 2 + sent.len() - 1] == release);
}

/// Keys, buttons and the wheel go to the other computer as they are while it is
/// controlled: the last thing that such an event leads to is a message with exactly that
/// event, and before it at most the pointer position that waited.
#[verifier::spinoff_prover]
pub proof fn law_input_goes_to_the_controlled_computer(
    trace: ControllerTrace,
    input: InputEvent,
    now: u64,
)
    requires
        is_remote(trace.state.control),
        trace.state.drags.held.len() == 0,
        input is Key || input is MouseButton || input is MouseWheel,
    ensures
        ({
            let after = trace.hook(HookEvent::Input(input), now);
            let waits = trace.state.buffer.pending_tcp_move is Some;
            &&& after.out.last() == ActionView::Connection(
                CommandView::SendReliable(MessageView::Input(input)),
            )
            &&& after.out.len() == trace.out.len() + if waits { 2int } else { 1 }
            &&& trace.state.buffer.pending_tcp_move matches Some(point)
                ==> after.out[trace.out.len() as int] == ActionView::Connection(
                CommandView::SendLatestPointer { x: point.x, y: point.y },
            )
            &&& after.state.control == trace.state.control
            &&& after.state.remote_active == trace.state.remote_active
        }),
{
    let event = HookEvent::Input(input);
    let pressed = trace.with(
        ControllerView { left_down: left_down_after(event, trace.state.left_down), ..trace.state },
    );
    assert(pressed.state.route(event) == ControllerHookRoute::Standard);
    assert(trace.hook(event, now) == pressed.send_after_pointer(MessageView::Input(input)));
    lemma_sent_after_pointer(pressed, MessageView::Input(input));
}

proof fn lemma_sent_after_pointer(trace: ControllerTrace, message: MessageView)
    ensures
        ({
            let after = trace.send_after_pointer(message);
            &&& after.out.last() == ActionView::Connection(CommandView::SendReliable(message))
            &&& after.out.len() == trace.out.len() + if trace.state.buffer.pending_tcp_move is Some {
                2int
            } else {
                1
            }
            &&& trace.state.buffer.pending_tcp_move matches Some(point)
                ==> after.out[trace.out.len() as int] == ActionView::Connection(
                CommandView::SendLatestPointer { x: point.x, y: point.y },
            )
        }),
{
}

/// A movement of the mouse moves the pointer of the controlled computer by that distance:
/// control changes as the movement says, and the pointer is sent where it then is.
#[verifier::spinoff_prover]
pub proof fn law_movements_move_the_remote_pointer(
    trace: ControllerTrace,
    delta: crate::input_event::MouseMoveDeltaEvent,
    now: u64,
)
    requires
        is_remote(trace.state.control),
        trace.state.drags.held.len() == 0,
    ensures
        ({
            let event = HookEvent::Input(InputEvent::MouseMoveDelta(delta));
            let after = trace.hook(event, now);
            let (control, output) = trace.state.control->0.applied(
                delta.dx as int,
                delta.dy as int,
            );
            &&& after.state.control == Some(control)
            &&& output matches ControlOutput::MoveRemote(point) ==> {
                &&& after.state.buffer == trace.state.buffer.pointed(point, now).0
                &&& after.out == trace.out + send_actions(trace.state.buffer.pointed(point, now).1)
                &&& after.state.remote_active == trace.state.remote_active
            }
            &&& output is ReturnLocal ==> !after.state.remote_active
            &&& after.state.pending_position is None
        }),
{
    let event = HookEvent::Input(InputEvent::MouseMoveDelta(delta));
    let pressed = trace.with(
        ControllerView { left_down: left_down_after(event, trace.state.left_down), ..trace.state },
    );
    assert(pressed.state.route(event) == ControllerHookRoute::Standard);
    assert(trace.hook(event, now) == pressed.remote_input(
        InputEvent::MouseMoveDelta(delta),
        now,
    ));
}

/// When control is taken to the other computer, this is published, its pointer is sent to
/// the entry, the local pointer is parked in the middle, and local input is swallowed from
/// then on.
#[verifier::spinoff_prover]
pub proof fn law_entering_takes_control(trace: ControllerTrace, point: Point, now: u64)
    ensures
        ({
            let after = trace.control_output(ControlOutput::EnterRemote(point), false, now);
            let n = trace.out.len() as int;
            let m = after.out.len() as int;
            &&& after.state.remote_active
            &&& after.out[n] == ActionView::RemoteActive(true)
            &&& after.out[m - 1] == ActionView::Update(
                UpdateView::RunState(RunState::RemoteControl),
            )
            &&& after.out[m - 3] == ActionView::Suppression(SuppressionMode::Suppress)
            &&& after.out[m - 4] == ActionView::Suppression(SuppressionMode::Suppress)
            &&& after.out[m - 5] == (ActionView::MoveLocalPointer {
                desktop: trace.state.desktop,
                point: anchor_of(trace.state.desktop),
                purpose: PointerMove::Park,
            })
            &&& after.state.last_pointer == Some(anchor_of(trace.state.desktop))
            &&& after.state.pending_park == Some(anchor_of(trace.state.desktop))
            &&& after.state.buffer == trace.state.buffer.pointed(point, now).0
            &&& trace.state.buffer.transport_mode == TransportMode::Kcp ==> after.out[n + 1]
                == ActionView::Connection(
                CommandView::SendLatestPointer { x: point.x, y: point.y },
            )
        }),
{
}

/// When control comes back, local input passes before the pointer is put where it
/// continues, held input of the other computer is released, and this is published.
#[verifier::spinoff_prover]
pub proof fn law_returning_gives_control_back(trace: ControllerTrace, point: Point, now: u64)
    ensures
        ({
            let after = trace.control_output(ControlOutput::ReturnLocal(point), false, now);
            let n = trace.out.len() as int;
            let m = after.out.len() as int;
            &&& !after.state.remote_active
            &&& after.out[n] == ActionView::Suppression(SuppressionMode::PassThrough)
            &&& after.out[n + 1] == (ActionView::MoveLocalPointer {
                desktop: trace.state.desktop,
                point,
                purpose: PointerMove::Return,
            })
            &&& after.out[m - 4] == ActionView::Connection(
                CommandView::SendReliable(MessageView::ReleaseAll),
            )
            &&& after.out[m - 3] == ActionView::RemoteActive(false)
            &&& after.out[m - 1] == ActionView::Update(
                UpdateView::RunState(RunState::LocalControl),
            )
            &&& after.state.last_pointer == Some(point)
            &&& after.state.pending_park == Some(point)
            &&& forall|i: int|
                n < i < m ==> #[trigger] after.out[i] != ActionView::Suppression(
                    SuppressionMode::Suppress,
                )
        }),
{
    let sent = send_actions(trace.state.buffer.followed_by(MessageView::ReleaseAll));
    assert(sent.last() == ActionView::Connection(
        CommandView::SendReliable(MessageView::ReleaseAll),
    ));
}

/// A position of the local pointer takes control over exactly if the control state says
/// so; the echo of a pointer that was put somewhere never does.
#[verifier::spinoff_prover]
pub proof fn law_positions_take_control_at_the_edge(
    trace: ControllerTrace,
    point: Point,
    now: u64,
)
    requires
        trace.state.control is Some,
        trace.state.control->0.mode == ControlMode::Local,
        trace.state.drags.held.len() == 0,
        !trace.state.left_down || !trace.state.file_drags,
    ensures
        ({
            let after = trace.hook(HookEvent::PointerPosition { x: point.x, y: point.y }, now);
            let (control, output) = trace.state.control->0.observed(point);
            let echo = is_park_echo(point, trace.state.pending_park);
            &&& echo ==> after.state.control == trace.state.control && after.out == trace.out
            &&& !echo ==> after.state.control == Some(control)
            &&& !echo && output is Idle ==> after.out == trace.out && after.state.last_pointer
                == Some(point)
            &&& !echo && output is EnterRemote ==> after.state.remote_active && after.out.len()
                > trace.out.len()
            &&& after.state.pending_park is Some ==> !echo && output is EnterRemote
        }),
{
}

/// While the other computer is controlled, a position of the local pointer never moves the
/// remote one by itself: it waits for a raw movement, or raw movements tell it already.
/// Near an edge the local pointer is parked again.
#[verifier::spinoff_prover]
pub proof fn law_remote_positions_wait(trace: ControllerTrace, point: Point, now: u64)
    requires
        is_remote(trace.state.control),
        trace.state.drags.held.len() == 0,
        !trace.state.left_down || !trace.state.file_drags,
        !is_park_echo(point, trace.state.pending_park),
    ensures
        ({
            let after = trace.hook(HookEvent::PointerPosition { x: point.x, y: point.y }, now);
            let recent = trace.state.diagnostics.raw_recent(now);
            &&& after.state.control == trace.state.control
            &&& !recent ==> after.out == trace.out && after.state.pending_position == Some(
                PendingRemotePointerPosition { point, observed_millis: now },
            )
            &&& recent && !near_border(point, trace.state.desktop) ==> after.out == trace.out
                && after.state.last_pointer == Some(point)
            &&& recent && near_border(point, trace.state.desktop) ==> after.state.last_pointer
                == Some(anchor_of(trace.state.desktop))
        }),
{
}

/// A position for which no raw movement came is taken as a movement from where the pointer
/// was: the remote pointer moves by the difference, once.
#[verifier::spinoff_prover]
pub proof fn law_waiting_positions_become_movements(trace: ControllerTrace, now: u64)
    requires
        trace.state.pending_position is Some,
        is_remote(trace.state.control),
        !trace.state.diagnostics.raw_recent(now),
        trace.state.last_pointer is Some,
    ensures
        ({
            let pending = trace.state.pending_position->0;
            let after = trace.pending(now);
            let last = trace.state.last_pointer->0;
            let dx = pending.point.x - last.x;
            let dy = pending.point.y - last.y;
            let fits = i32::MIN <= dx <= i32::MAX && i32::MIN <= dy <= i32::MAX;
            let moved = trace.state.control->0.applied(dx, dy);
            &&& !pending.due(now) ==> after == trace
            &&& pending.due(now) ==> after.state.pending_position is None
            &&& pending.due(now) && fits && pending.point != last ==> after.state.control == Some(
                moved.0,
            )
            &&& pending.due(now) && pending.point == last ==> after.state.control
                == trace.state.control
        }),
{
}

/// The agent's hello makes its desktop the remote one, on the configured side and with the
/// configured strip, with control here. An agent of another version gets an error and
/// changes nothing.
#[verifier::spinoff_prover]
pub proof fn law_hello_brings_the_remote_desktop(
    trace: ControllerTrace,
    hello: crate::protocol::Hello,
    now: u64,
)
    ensures
        ({
            let event = ConnectionEventView::Message(MessageView::Hello(hello));
            let after = trace.connection(event, now);
            &&& hello.protocol_version == PROTOCOL_VERSION ==> {
                &&& after.state.control matches Some(control)
                &&& control.local_desktop == trace.state.desktop
                &&& control.remote_desktop == hello.desktop
                &&& control.remote_position == trace.state.config.controller.remote_position
                &&& control.edge_trigger_px == trace.state.config.edge_trigger_px
                &&& control.mode == ControlMode::Local
                &&& !after.state.remote_active
                &&& after.state.clipboard_ready
                &&& after.out.last() == ActionView::Update(
                    UpdateView::RunState(RunState::LocalControl),
                )
            }
            &&& hello.protocol_version != PROTOCOL_VERSION ==> {
                &&& after.state.control == trace.state.control
                &&& after.out.len() == trace.out.len() + 3
                &&& after.out[trace.out.len() as int + 1] matches ActionView::Connection(
                    CommandView::SendReliable(MessageView::Error(error)),
                )
                &&& after.out.last() == ActionView::Update(UpdateView::Error(error))
                &&& !after.state.clipboard_ready
            }
        }),
{
}

/// Every event of the connection is told to the window before anything else, and nothing
/// that was done before is undone.
#[verifier::spinoff_prover]
pub proof fn law_controller_events_are_told(
    trace: ControllerTrace,
    event: ConnectionEventView,
    now: u64,
)
    ensures
        ({
            let after = trace.connection(event, now);
            let n = trace.out.len() as int;
            &&& after.out.len() > n
            &&& after.out[n] == ActionView::Update(UpdateView::Connection(event))
            &&& after.state.config == trace.state.config
            &&& after.state.desktop == trace.state.desktop
        }),
{
    let told = trace.emit(ActionView::Update(UpdateView::Connection(event)));
    if let ConnectionEventView::Message(message) = event {
        lemma_messages_keep_what_was_done(told, message, now, trace.out.len() as int);
    }
    lemma_drags_keep_what_was_done(trace.handle(event, now), event, trace.out.len() as int);
}

proof fn lemma_messages_keep_what_was_done(
    trace: ControllerTrace,
    message: MessageView,
    now: u64,
    k: int,
)
    requires
        0 <= k < trace.out.len(),
    ensures
        trace.message(message, now).out.len() >= trace.out.len(),
        trace.message(message, now).out[k] == trace.out[k],
        trace.message(message, now).state.config == trace.state.config,
        trace.message(message, now).state.desktop == trace.state.desktop,
{
}

proof fn lemma_drags_keep_what_was_done(trace: ControllerTrace, event: ConnectionEventView, k: int)
    requires
        0 <= k < trace.out.len(),
    ensures
        trace.settle_drags(event).out.len() >= trace.out.len(),
        trace.settle_drags(event).out[k] == trace.out[k],
        trace.settle_drags(event).state.config == trace.state.config,
        trace.settle_drags(event).state.desktop == trace.state.desktop,
{
}

/// Clipboard content of the agent is written as the settings say, a transfer of copied
/// files is noted as such, and a heartbeat is answered.
#[verifier::spinoff_prover]
pub proof fn law_controller_hands_contents_on(
    trace: ControllerTrace,
    message: MessageView,
    now: u64,
)
    ensures
        ({
            let after = trace.connection(ConnectionEventView::Message(message), now);
            let n = trace.out.len() as int;
            &&& message is ClipboardData || message is ClipboardOffer ==> after.out.skip(n + 1)
                == remote_clipboard_actions(trace.state.config.sharing, message)
            &&& message matches MessageView::FileTransferOffer(manifest) ==> after.out.skip(n + 1)
                == seq![
                ActionView::Update(
                    UpdateView::ClipboardFileTransferStarted(manifest.transfer_id),
                ),
            ]
            &&& message matches MessageView::Heartbeat(beat) ==> after.out.skip(n + 1)
                == heartbeat_actions(trace.state.heartbeats, beat, now)
        }),
{
    let after = trace.connection(ConnectionEventView::Message(message), now);
    let n = trace.out.len() as int;
    if message is ClipboardData || message is ClipboardOffer {
        assert(after.out.skip(n + 1) =~= remote_clipboard_actions(
            trace.state.config.sharing,
            message,
        ));
    }
    if let MessageView::FileTransferOffer(manifest) = message {
        assert(after.out.skip(n + 1) =~= seq![
            ActionView::Update(UpdateView::ClipboardFileTransferStarted(manifest.transfer_id)),
        ]);
    }
    if let MessageView::Heartbeat(beat) = message {
        assert(after.out.skip(n + 1) =~= heartbeat_actions(trace.state.heartbeats, beat, now));
    }
}

/// Local input passes again when the connection is lost while the other computer is
/// controlled, and whenever the session stops or ends.
#[verifier::spinoff_prover]
pub proof fn law_local_input_passes_in_the_end(
    trace: ControllerTrace,
    event: ConnectionEventView,
    now: u64,
)
    ensures
        is_remote(trace.state.control) && event.terminal() ==> trace.connection(
            event,
            now,
        ).out[trace.out.len() as int + 1] == ActionView::Suppression(SuppressionMode::PassThrough),
        trace.stop().out[trace.out.len() as int] == ActionView::Suppression(
            SuppressionMode::PassThrough,
        ),
        trace.stop().out[trace.stop().out.len() - 2] == ActionView::Suppression(
            SuppressionMode::PassThrough,
        ),
        trace.stop().out.last() == ActionView::RemoteActive(false),
        trace.end().out == trace.out + seq![
            ActionView::StopClipboard,
            ActionView::Suppression(SuppressionMode::PassThrough),
            ActionView::RemoteActive(false),
        ],
        !trace.end().state.remote_active,
{
    assert(trace.end().out =~= trace.out + seq![
        ActionView::StopClipboard,
        ActionView::Suppression(SuppressionMode::PassThrough),
        ActionView::RemoteActive(false),
    ]);
}

/// Content may be sent from the hello of an agent of the same version until the connection
/// is lost or the agent reports an error.
#[verifier::spinoff_prover]
pub proof fn law_controller_is_ready_after_the_hello(
    current: bool,
    event: ConnectionEventView,
    controlling: bool,
)
    ensures
        event matches ConnectionEventView::Message(message) ==> {
            &&& message matches MessageView::Hello(hello) ==> (controller_ready_after(
                current,
                event,
                controlling,
            ) <==> controlling && hello.protocol_version == PROTOCOL_VERSION)
            &&& !(message is Hello) ==> (controller_ready_after(current, event, controlling)
                <==> current && !(message is Error))
        },
        event is LatestPointer || event is StalePointerPackets ==> controller_ready_after(
            current,
            event,
            controlling,
        ) == current,
        event is Waiting || event is Connecting || event is Connected || event is Disconnected
            || event is Error ==> !controller_ready_after(current, event, controlling),
{
}

/// Hook events take the usual way unless a file is dragged. While one is dragged only
/// movements count; and while the left button is held at the edge, a drag may yet begin.
#[verifier::spinoff_prover]
pub proof fn law_hook_events_find_their_way(
    event: HookEvent,
    dragging: bool,
    left_down: bool,
    file_drags: bool,
    desktop: Rect,
    edge_trigger_px: int,
    remote_position: RemotePosition,
)
    ensures
        ({
            let route = route_of(
                event,
                dragging,
                left_down,
                file_drags,
                desktop,
                edge_trigger_px,
                remote_position,
            );
            let movement = event is PointerPosition || (event matches HookEvent::Input(input)
                && input is MouseMoveDelta);
            &&& route == ControllerHookRoute::FileDrag <==> dragging && movement
            &&& dragging && !movement ==> route == ControllerHookRoute::Ignore
            &&& !dragging && event is Input ==> route == ControllerHookRoute::Standard
            &&& !dragging && (!left_down || !file_drags) ==> route == ControllerHookRoute::Standard
            &&& !dragging && left_down && file_drags ==> (event matches HookEvent::PointerPosition {
                x,
                y,
            } ==> (route == ControllerHookRoute::Ignore <==> edge_at_position(
                Point { x, y },
                desktop,
                edge_trigger_px,
                remote_position,
            ) is Some))
        }),
{
}

/// The left button is down after it went down and up after it went up; no other event
/// changes that.
#[verifier::spinoff_prover]
pub proof fn law_left_button_is_followed(event: HookEvent, down: bool)
    ensures
        event matches HookEvent::Input(InputEvent::MouseButton(button)) ==> left_down_after(
            event,
            down,
        ) == if button.button == MouseButton::Left { button.pressed } else { down },
        !(event matches HookEvent::Input(InputEvent::MouseButton(_))) ==> left_down_after(
            event,
            down,
        ) == down,
{
}

/// While a file is dragged, the remote pointer follows as otherwise, but the local pointer
/// stays with the drag and local input is never swallowed.
#[verifier::spinoff_prover]
pub proof fn law_file_drags_keep_the_local_pointer(
    trace: ControllerTrace,
    event: HookEvent,
    now: u64,
)
    ensures
        ({
            let after = trace.file_drag_hook(event, now);
            &&& forall|i: int|
                trace.out.len() <= i < after.out.len() ==> !((#[trigger] after.out[i])
                    is Suppression) && !(after.out[i] is MoveLocalPointer)
            &&& event matches HookEvent::Input(InputEvent::MouseMoveDelta(delta)) ==> (is_remote(
                trace.state.control,
            ) ==> after.state.control == Some(
                trace.state.control->0.applied(delta.dx as int, delta.dy as int).0,
            ))
            &&& event matches HookEvent::PointerPosition { x, y } ==> {
                &&& after.state.last_pointer == Some(Point { x, y })
                &&& trace.state.control is Some && !is_remote(trace.state.control)
                    ==> after.state.control == Some(
                    trace.state.control->0.observed(Point { x, y }).0,
                )
            }
        }),
{
}

/// At the end of a round the position that waits over TCP is sent, exactly once.
#[verifier::spinoff_prover]
pub proof fn law_rounds_send_what_waits(trace: ControllerTrace, now: u64)
    ensures
        ({
            let after = trace.flush_round(now);
            let n = trace.out.len() as int;
            &&& after.state.buffer.pending_tcp_move is None
            &&& trace.state.buffer.pending_tcp_move matches Some(point) ==> after.out[n]
                == ActionView::Connection(
                CommandView::SendLatestPointer { x: point.x, y: point.y },
            )
            &&& forall|i: int|
                n <= i < after.out.len() && (i > n || trace.state.buffer.pending_tcp_move is None)
                    ==> (#[trigger] after.out[i]) is Update
            &&& after.state.control == trace.state.control
        }),
{
}

/// A heartbeat is sent with its time, and waited for.
#[verifier::spinoff_prover]
pub proof fn law_heartbeats_are_sent(trace: ControllerTrace, now: u64)
    ensures
        trace.heartbeat(now).out == trace.out.push(
            ActionView::Connection(
                CommandView::SendReliable(MessageView::Heartbeat(Heartbeat { sent_millis: now })),
            ),
        ),
        trace.heartbeat(now).state.heartbeats.last() == now,
{
}

/// A drag that is called off or dropped gives control back to this computer.
#[verifier::spinoff_prover]
pub proof fn law_ended_drags_give_control_back(
    trace: ControllerTrace,
    event: DragEventView,
    session_id: u128,
    channels: Channels,
)
    ensures
        ({
            let after = trace.drag(event, channels);
            &&& event is LocalDropCommitted || event is LocalDragCancelled || event is Error ==> {
                &&& !after.state.remote_active
                &&& !is_remote(after.state.control)
                &&& after.out.last() == ActionView::RemoteActive(false)
            }
            &&& event is LocalFileDragEntered ==> after.state.control == trace.state.control
                && after.state.remote_active == trace.state.remote_active
        }),
        !trace.cancel_drag(session_id).state.remote_active,
        !is_remote(trace.cancel_drag(session_id).state.control),
{
}

/// Where the pointer continues is told exactly when control comes back, and the lost
/// connection asks for recovery exactly if the other computer was controlled.
#[verifier::spinoff_prover]
pub proof fn law_returns_tell_the_point(output: &ControlOutput, r: Option<Point>)
    requires
        call_ensures(return_local_pointer_target, (output,), r),
    ensures
        r is Some <==> output is ReturnLocal,
        *output matches ControlOutput::ReturnLocal(point) ==> r == Some(point),
{
}

/// A pointer that could not be moved is reported with what was tried, and is not waited
/// for any more.
#[verifier::spinoff_prover]
pub proof fn law_failed_moves_are_reported(
    trace: ControllerTrace,
    purpose: PointerMove,
    error: Seq<char>,
)
    ensures
        trace.move_failed(purpose, error).state.pending_park is None,
        trace.move_failed(purpose, error).out.last() == ActionView::Update(
            UpdateView::Error(
                if purpose == PointerMove::Park {
                    "local pointer park failed: "@
                } else {
                    "local pointer move failed: "@
                } + error,
            ),
        ),
{
}

} // verus!
