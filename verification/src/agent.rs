//! The agent's session: it injects the input of the controller and turns connection
//! and transfer events into actions.
use crate::agent_drag::{
    agent_drag_drop_action_for_bulk_transfer_event, transfers_of, AgentBulkView,
    AgentDragDropBulkAction, AgentDragDropRuntime, AgentDragView,
};
use crate::bulk_events::{BulkEventView, BulkTransferEvent};
use crate::clipboard_sync::{handle_remote_clipboard_message, remote_clipboard_actions};
use crate::config::AppConfig;
use crate::controller::log_of;
use crate::controller_drag::{
    cancel_notice, drag_failure, drag_report, notice_of_cancel, send_bulk_cancel, transfer_off,
};
use crate::drag_events::{DragDropEvent, DragEventView};
use crate::geometry::Rect;
use crate::heartbeat::{
    handle_heartbeat_message, heartbeat_actions, with_received, HeartbeatTracker,
};
use crate::ids::{hyphenated, id_text};
use crate::input_event::{InputEvent, MouseMoveAbsEvent};
use crate::protocol::{DragTransfer, Hello, MessageView, WireMessage, PROTOCOL_VERSION};
use crate::session::{ActionView, PumpAction, SessionCommand, SessionUpdate, UpdateView};
use crate::text::{join2, views};
use crate::transport::{CommandView, ConnectionCommand, ConnectionEvent, ConnectionEventView};
use vstd::prelude::*;

verus! {

broadcast use {crate::text::lemma_views_push, crate::text::lemma_views_add};

/// Whether clipboard content may be sent after a connection event: it may from the
/// connection to its loss.
pub open spec fn agent_ready_after(current: bool, event: ConnectionEventView) -> bool {
    match event {
        ConnectionEventView::Connected { .. } => true,
        ConnectionEventView::Waiting | ConnectionEventView::Connecting(_)
        | ConnectionEventView::Disconnected(_) | ConnectionEventView::Error(_)
        | ConnectionEventView::Message(MessageView::Error(_)) => false,
        _ => current,
    }
}

pub fn agent_clipboard_transport_ready_after_event(current: bool, event: &ConnectionEvent) -> (r:
    bool)
    ensures
        r == agent_ready_after(current, event@),
{
    match event {
        ConnectionEvent::Connected { .. } => true,
        ConnectionEvent::Waiting | ConnectionEvent::Connecting(_)
        | ConnectionEvent::Disconnected(_) | ConnectionEvent::Error(_)
        | ConnectionEvent::Message(WireMessage::Error(_)) => false,
        _ => current,
    }
}

/// What is reported after an event was injected, or could not be.
pub fn input_injected(result: Result<(), String>) -> (r: Option<SessionUpdate>)
    ensures
        match result {
            Ok(_) => r is None,
            Err(error) => r is Some && r->0@ == UpdateView::Error(
                "input injection failed: "@ + error@,
            ),
        },
{
    match result {
        Ok(_) => None,
        Err(error) => Some(
            SessionUpdate::Error(join2("input injection failed: ", error.as_str())),
        ),
    }
}

/// What is reported after held input was released, or could not be.
pub fn input_released(result: Result<(), String>, log_after_disconnect: bool) -> (r: Option<
    SessionUpdate,
>)
    ensures
        match result {
            Ok(_) => if log_after_disconnect {
                r is Some && r->0@ == UpdateView::Log("released all pressed input after disconnect"@)
            } else {
                r is None
            },
            Err(error) => r is Some && r->0@ == UpdateView::Error(
                "release all failed: "@ + error@,
            ),
        },
{
    match result {
        Ok(_) => if log_after_disconnect {
            Some(SessionUpdate::Log("released all pressed input after disconnect".to_owned()))
        } else {
            None
        },
        Err(error) => Some(SessionUpdate::Error(join2("release all failed: ", error.as_str()))),
    }
}

/// The state of the agent's session.
#[derive(Debug, PartialEq, Eq)]
pub struct AgentPump {
    pub config: AppConfig,
    pub local_desktop: Rect,
    pub injector_ready: bool,
    pub heartbeat: HeartbeatTracker,
    pub clipboard_transport_ready: bool,
    pub drag_drop_runtime: AgentDragDropRuntime,
}

#[verifier::ext_equal]
pub struct AgentView {
    pub config: AppConfig,
    pub desktop: Rect,
    pub injector_ready: bool,
    pub heartbeats: Seq<u64>,
    pub clipboard_ready: bool,
    pub drags: AgentDragView,
}

impl View for AgentPump {
    type V = AgentView;

    open spec fn view(&self) -> AgentView {
        AgentView {
            config: self.config,
            desktop: self.local_desktop,
            injector_ready: self.injector_ready,
            heartbeats: self.heartbeat@,
            clipboard_ready: self.clipboard_transport_ready,
            drags: self.drag_drop_runtime@,
        }
    }
}

/// The state of the session, and what was done.
#[verifier::ext_equal]
pub struct AgentTrace {
    pub state: AgentView,
    pub out: Seq<ActionView>,
}

/// The view of a session and of the actions so far.
pub open spec fn agent_trace(pump: AgentPump, out: Seq<PumpAction>) -> AgentTrace {
    AgentTrace { state: pump@, out: views(out) }
}

/// What calls transfers off.
pub open spec fn transfers_off(transfers: Seq<u128>) -> Seq<ActionView> {
    transfers.map_values(|id: u128| transfer_off(id))
}

impl AgentTrace {
    pub open spec fn emit(self, action: ActionView) -> AgentTrace {
        AgentTrace { out: self.out.push(action), ..self }
    }

    pub open spec fn emit_all(self, actions: Seq<ActionView>) -> AgentTrace {
        AgentTrace { out: self.out + actions, ..self }
    }

    pub open spec fn with(self, state: AgentView) -> AgentTrace {
        AgentTrace { state, ..self }
    }

    /// The drags after a step of theirs. A native drag that is not wanted any more
    /// is given up.
    pub open spec fn with_drags(self, drags: AgentDragView) -> AgentTrace {
        let changed = self.with(AgentView { drags, ..self.state });
        if self.state.drags.active is Some && drags.active is None {
            changed.emit(ActionView::EndRemoteDrag)
        } else {
            changed
        }
    }

    /// Held input is released, if there is an injector.
    pub open spec fn release(self, log_after_disconnect: bool) -> AgentTrace {
        if self.state.injector_ready {
            self.emit(ActionView::ReleaseInput { log_after_disconnect })
        } else {
            self
        }
    }

    /// An event is injected, if there is an injector.
    pub open spec fn inject(self, event: InputEvent) -> AgentTrace {
        if self.state.injector_ready {
            self.emit(ActionView::Inject(event))
        } else {
            self.emit(log_of("dropped input before agent connection was ready"@))
        }
    }

    /// A drag is called off; its transfer with it, if the drag waited for it.
    pub open spec fn cancel(self, session_id: u128, notify_peer: bool) -> AgentTrace {
        let forgotten = self.with_drags(self.state.drags.without(session_id));
        let stopped = match self.state.drags.transfer_of(session_id) {
            Some(transfer_id) => forgotten.emit(transfer_off(transfer_id)),
            None => forgotten,
        };
        let told = if notify_peer {
            stopped.emit(cancel_notice(session_id))
        } else {
            stopped
        };
        told.emit(drag_report(DragEventView::LocalDragCancelled { session_id }))
    }

    /// What an event of the native drag leads to.
    pub open spec fn remote_drag(self, event: DragEventView) -> AgentTrace {
        let handled = match event {
            DragEventView::RemoteDropFinished { session_id } => self.with_drags(
                self.state.drags.without(session_id),
            ),
            DragEventView::LocalDragCancelled { session_id } => self.with_drags(
                self.state.drags.without(session_id),
            ).emit(cancel_notice(session_id)),
            DragEventView::Error { session_id, .. } => match session_id {
                Some(id) => self.with_drags(self.state.drags.without(id)).emit(cancel_notice(id)),
                None => self.with_drags(AgentDragView::none()),
            },
            _ => self,
        };
        handled.emit(drag_report(event))
    }

    /// What a transfer event leads to.
    pub open spec fn bulk(self, event: BulkEventView) -> AgentTrace {
        let (drags, action) = self.state.drags.bulk(event);
        let changed = self.with(AgentView { drags, ..self.state });
        match action {
            Some(AgentBulkView::StartRemoteDrag { session_id, cache_paths }) => changed.emit(
                ActionView::StartRemoteDrag { session_id, cache_paths },
            ),
            Some(AgentBulkView::Cancelled { session_id }) => changed.emit(
                drag_report(DragEventView::LocalDragCancelled { session_id }),
            ),
            Some(AgentBulkView::Failed { session_id, message }) => changed.emit(
                drag_failure(session_id, "file transfer failed before remote drag: "@ + message),
            ),
            None => changed,
        }
    }

    /// The native drag was started, or could not be. If its files have been dropped
    /// already, they are dropped now.
    pub open spec fn drag_started(self, session_id: u128, result: Result<(), Seq<char>>) -> AgentTrace {
        match result {
            Ok(_) => {
                let running = self.with(
                    AgentView {
                        drags: AgentDragView {
                            active: Some(session_id),
                            committed: self.state.drags.committed.remove(session_id),
                            ..self.state.drags
                        },
                        ..self.state
                    },
                );
                if self.state.drags.committed.contains(session_id) {
                    running.emit(ActionView::CommitRemoteDrag { session_id })
                } else {
                    running
                }
            },
            Err(error) => self.emit(
                drag_failure(session_id, "remote file drag failed: "@ + error),
            ),
        }
    }

    /// The connection is lost.
    pub open spec fn lose(self) -> AgentTrace {
        let released = self.release(true);
        let closed = released.with(AgentView { injector_ready: false, ..released.state }).emit(
            ActionView::CloseInjector,
        );
        closed.with_drags(closed.state.drags.disconnected()).emit_all(
            transfers_off(transfers_of(self.state.drags.pending)),
        )
    }

    /// The controller announces a drag.
    pub open spec fn announce(self, drag: DragTransfer) -> AgentTrace {
        let (drags, files) = self.state.drags.started(drag);
        let told = self.with(AgentView { drags, ..self.state }).emit(
            ActionView::Update(UpdateView::DragDropTransferStarted(drag.transfer_id)),
        ).emit(drag_report(DragEventView::RemoteDropStarted { session_id: drag.session_id })).emit(
            log_of(
                "remote file drag/drop session waiting for transfer: "@ + hyphenated(
                    drag.transfer_id,
                ),
            ),
        );
        match files {
            Some(cache_paths) => told.emit(
                ActionView::StartRemoteDrag { session_id: drag.session_id, cache_paths },
            ),
            None => told,
        }
    }

    /// The controller drops the files of a drag.
    pub open spec fn commit(self, session_id: u128) -> AgentTrace {
        let dropped = if self.state.drags.active == Some(session_id) {
            self.emit(ActionView::CommitRemoteDrag { session_id })
        } else {
            self.with(
                AgentView {
                    drags: AgentDragView {
                        committed: self.state.drags.committed.insert(session_id),
                        ..self.state.drags
                    },
                    ..self.state
                },
            )
        };
        dropped.emit(drag_report(DragEventView::LocalDropCommitted { session_id }))
    }

    /// What a message of the controller leads to.
    pub open spec fn message(self, message: MessageView, now: u64) -> AgentTrace {
        match message {
            MessageView::Input(event) => self.inject(event),
            MessageView::ReleaseAll => self.release(false),
            MessageView::Heartbeat(beat) => self.with(
                AgentView {
                    heartbeats: with_received(self.state.heartbeats, beat.sent_millis),
                    ..self.state
                },
            ).emit_all(heartbeat_actions(self.state.heartbeats, beat, now)),
            MessageView::ClipboardOffer(_) | MessageView::ClipboardData(_) => self.emit_all(
                remote_clipboard_actions(self.state.config.sharing, message),
            ),
            MessageView::FileTransferOffer(manifest) => self.emit(
                ActionView::Update(
                    UpdateView::ClipboardFileTransferStarted(manifest.transfer_id),
                ),
            ),
            MessageView::DragDropStart(drag) => self.announce(drag),
            MessageView::DragDropCancel { session_id, .. } => self.cancel(session_id, false),
            MessageView::DragDropCommit { session_id } => self.commit(session_id),
            MessageView::Error(error) => self.emit(ActionView::Update(UpdateView::Error(error))),
            _ => self,
        }
    }

    /// What a connection event leads to, apart from the clipboard.
    pub open spec fn handle(self, event: ConnectionEventView, now: u64) -> AgentTrace {
        let told = self.emit(ActionView::Update(UpdateView::Connection(event)));
        match event {
            ConnectionEventView::Connected { .. } => told.with(
                AgentView { injector_ready: true, ..told.state },
            ).emit(ActionView::OpenInjector(self.state.desktop)).emit(
                ActionView::Connection(
                    CommandView::SendReliable(
                        MessageView::Hello(
                            Hello {
                                protocol_version: PROTOCOL_VERSION,
                                desktop: self.state.desktop,
                            },
                        ),
                    ),
                ),
            ),
            ConnectionEventView::Disconnected(_) | ConnectionEventView::Error(_) => told.lose(),
            ConnectionEventView::LatestPointer { x, y, .. } => told.inject(
                InputEvent::MouseMoveAbs(MouseMoveAbsEvent { x, y }),
            ),
            ConnectionEventView::Message(message) => told.message(message, now),
            _ => told,
        }
    }

    /// What a connection event leads to.
    pub open spec fn connection(self, event: ConnectionEventView, now: u64) -> AgentTrace {
        let handled = self.handle(event, now);
        handled.with(
            AgentView {
                clipboard_ready: agent_ready_after(self.state.clipboard_ready, event),
                ..handled.state
            },
        )
    }

    /// The session ends because the connection is gone for good.
    pub open spec fn end(self) -> AgentTrace {
        self.emit(ActionView::StopClipboard).release(false)
    }

    /// The session is told to stop.
    pub open spec fn stop(self) -> AgentTrace {
        let released = self.release(false);
        released.with_drags(AgentDragView::none()).end()
    }
}

/// The view of the outcome of an outside action.
pub open spec fn outcome_view(result: Result<(), String>) -> Result<(), Seq<char>> {
    match result {
        Ok(_) => Ok(()),
        Err(error) => Err(error@),
    }
}

impl AgentPump {
    /// A session that begins.
    pub fn new(config: AppConfig, local_desktop: Rect) -> (r: Self)
        ensures
            r@ == (AgentView {
                config,
                desktop: local_desktop,
                injector_ready: false,
                heartbeats: Seq::empty(),
                clipboard_ready: false,
                drags: AgentDragView::none(),
            }),
    {
        AgentPump {
            config,
            local_desktop,
            injector_ready: false,
            heartbeat: HeartbeatTracker::default(),
            clipboard_transport_ready: false,
            drag_drop_runtime: AgentDragDropRuntime::default(),
        }
    }

    fn release_agent_input(&mut self, log_after_disconnect: bool, out: &mut Vec<PumpAction>)
        ensures
            agent_trace(*final(self), final(out)@) == agent_trace(*old(self), old(out)@).release(
                log_after_disconnect,
            ),
    {
        if self.injector_ready {
            out.push(PumpAction::ReleaseInput { log_after_disconnect });
        }
    }

    fn inject_agent_input(&mut self, input: InputEvent, out: &mut Vec<PumpAction>)
        ensures
            agent_trace(*final(self), final(out)@) == agent_trace(*old(self), old(out)@).inject(
                input,
            ),
    {
        if self.injector_ready {
            out.push(PumpAction::Inject(input));
        } else {
            out.push(
                PumpAction::Update(
                    SessionUpdate::Log(
                        "dropped input before agent connection was ready".to_owned(),
                    ),
                ),
            );
        }
    }

    fn cancel_drag(&mut self, session_id: u128, out: &mut Vec<PumpAction>) -> (r: Option<u128>)
        ensures
            agent_trace(*final(self), final(out)@) == agent_trace(*old(self), old(out)@).with_drags(
                old(self)@.drags.without(session_id),
            ),
            r == old(self)@.drags.transfer_of(session_id),
    {
        let was_active = self.drag_drop_runtime.has_active_drag();
        let transfer_id = self.drag_drop_runtime.cancel_session(session_id);
        if was_active && !self.drag_drop_runtime.has_active_drag() {
            out.push(PumpAction::EndRemoteDrag);
        }
        transfer_id
    }

    fn clear_drags(&mut self, out: &mut Vec<PumpAction>)
        ensures
            agent_trace(*final(self), final(out)@) == agent_trace(*old(self), old(out)@).with_drags(
                AgentDragView::none(),
            ),
    {
        let was_active = self.drag_drop_runtime.has_active_drag();
        self.drag_drop_runtime.clear();
        if was_active {
            out.push(PumpAction::EndRemoteDrag);
        }
    }

    fn cancel(&mut self, session_id: u128, notify_peer: bool, out: &mut Vec<PumpAction>)
        ensures
            agent_trace(*final(self), final(out)@) == agent_trace(*old(self), old(out)@).cancel(
                session_id,
                notify_peer,
            ),
    {
        match self.cancel_drag(session_id, out) {
            Some(transfer_id) => {
                out.push(send_bulk_cancel(transfer_id));
            },
            None => {},
        }
        if notify_peer {
            out.push(notice_of_cancel(session_id));
        }
        out.push(
            PumpAction::Update(
                SessionUpdate::DragDrop(DragDropEvent::LocalDragCancelled { session_id }),
            ),
        );
    }

    /// Acts on an event of the native drag.
    pub fn handle_agent_remote_drag_event(
        &mut self,
        event: DragDropEvent,
        out: &mut Vec<PumpAction>,
    )
        ensures
            agent_trace(*final(self), final(out)@) == agent_trace(*old(self), old(out)@).remote_drag(
                event@,
            ),
    {
        match &event {
            DragDropEvent::RemoteDropFinished { session_id } => {
                let _ = self.cancel_drag(*session_id, out);
            },
            DragDropEvent::LocalDragCancelled { session_id } => {
                let _ = self.cancel_drag(*session_id, out);
                out.push(notice_of_cancel(*session_id));
            },
            DragDropEvent::Error { session_id, message: _ } => match session_id {
                Some(id) => {
                    let _ = self.cancel_drag(*id, out);
                    out.push(notice_of_cancel(*id));
                },
                None => {
                    self.clear_drags(out);
                },
            },
            _ => {},
        }
        out.push(PumpAction::Update(SessionUpdate::DragDrop(event)));
    }

    /// Acts on a transfer event.
    pub fn handle_agent_bulk_transfer_event_for_drag_drop(
        &mut self,
        event: BulkTransferEvent,
        out: &mut Vec<PumpAction>,
    )
        ensures
            agent_trace(*final(self), final(out)@) == agent_trace(*old(self), old(out)@).bulk(
                event@,
            ),
    {
        match agent_drag_drop_action_for_bulk_transfer_event(event, &mut self.drag_drop_runtime) {
            Some(AgentDragDropBulkAction::StartRemoteDrag { session_id, cache_paths }) => {
                out.push(PumpAction::StartRemoteDrag { session_id, cache_paths });
            },
            Some(AgentDragDropBulkAction::Cancelled { session_id }) => {
                out.push(
                    PumpAction::Update(
                        SessionUpdate::DragDrop(DragDropEvent::LocalDragCancelled { session_id }),
                    ),
                );
            },
            Some(AgentDragDropBulkAction::Failed { session_id, message }) => {
                out.push(
                    PumpAction::Update(
                        SessionUpdate::DragDrop(
                            DragDropEvent::Error {
                                session_id: Some(session_id),
                                message: join2(
                                    "file transfer failed before remote drag: ",
                                    message.as_str(),
                                ),
                            },
                        ),
                    ),
                );
            },
            None => {},
        }
    }

    /// The native drag was started, or could not be.
    pub fn remote_drag_started(
        &mut self,
        session_id: u128,
        result: Result<(), String>,
        out: &mut Vec<PumpAction>,
    )
        ensures
            agent_trace(*final(self), final(out)@) == agent_trace(
                *old(self),
                old(out)@,
            ).drag_started(session_id, outcome_view(result)),
    {
        match result {
            Ok(_) => {
                if self.drag_drop_runtime.set_active_remote_drag(session_id) {
                    out.push(PumpAction::CommitRemoteDrag { session_id });
                }
            },
            Err(error) => {
                out.push(
                    PumpAction::Update(
                        SessionUpdate::DragDrop(
                            DragDropEvent::Error {
                                session_id: Some(session_id),
                                message: join2("remote file drag failed: ", error.as_str()),
                            },
                        ),
                    ),
                );
            },
        }
    }

    fn lose_connection(&mut self, out: &mut Vec<PumpAction>)
        ensures
            agent_trace(*final(self), final(out)@) == agent_trace(*old(self), old(out)@).lose(),
    {
        self.release_agent_input(true, out);
        self.injector_ready = false;
        out.push(PumpAction::CloseInjector);
        let was_active = self.drag_drop_runtime.has_active_drag();
        let transfers = self.drag_drop_runtime.cancel_all_pending_transfers();
        if was_active {
            out.push(PumpAction::EndRemoteDrag);
        }
        let ghost before = views(out@);
        let ghost wanted = transfers_off(transfers@);
        let mut i: usize = 0;
        assert(before + wanted.take(0) =~= before);
        while i < transfers.len()
            invariant
                i <= transfers@.len(),
                wanted == transfers_off(transfers@),
                views(out@) == before + wanted.take(i as int),
            decreases transfers@.len() - i,
        {
            out.push(send_bulk_cancel(transfers[i]));
            assert(views(out@) =~= before + wanted.take(i as int + 1));
            i = i + 1;
        }
        assert(wanted.take(wanted.len() as int) =~= wanted);
    }

    fn announce(&mut self, drag: DragTransfer, out: &mut Vec<PumpAction>)
        ensures
            agent_trace(*final(self), final(out)@) == agent_trace(*old(self), old(out)@).announce(
                drag,
            ),
    {
        let files = self.drag_drop_runtime.remember_start(drag);
        out.push(PumpAction::Update(SessionUpdate::DragDropTransferStarted(drag.transfer_id)));
        out.push(
            PumpAction::Update(
                SessionUpdate::DragDrop(
                    DragDropEvent::RemoteDropStarted { session_id: drag.session_id },
                ),
            ),
        );
        out.push(
            PumpAction::Update(
                SessionUpdate::Log(
                    join2(
                        "remote file drag/drop session waiting for transfer: ",
                        id_text(drag.transfer_id).as_str(),
                    ),
                ),
            ),
        );
        match files {
            Some(cache_paths) => {
                out.push(
                    PumpAction::StartRemoteDrag { session_id: drag.session_id, cache_paths },
                );
            },
            None => {},
        }
    }

    fn commit(&mut self, session_id: u128, out: &mut Vec<PumpAction>)
        ensures
            agent_trace(*final(self), final(out)@) == agent_trace(*old(self), old(out)@).commit(
                session_id,
            ),
    {
        if self.drag_drop_runtime.remember_remote_drop_commit(session_id) {
            out.push(PumpAction::CommitRemoteDrag { session_id });
        }
        out.push(
            PumpAction::Update(
                SessionUpdate::DragDrop(DragDropEvent::LocalDropCommitted { session_id }),
            ),
        );
    }

    fn handle_message(&mut self, message: &WireMessage, now: u64, out: &mut Vec<PumpAction>)
        ensures
            agent_trace(*final(self), final(out)@) == agent_trace(*old(self), old(out)@).message(
                message@,
                now,
            ),
    {
        match message {
            WireMessage::Input(event) => {
                self.inject_agent_input(*event, out);
            },
            WireMessage::ReleaseAll => {
                self.release_agent_input(false, out);
            },
            WireMessage::Heartbeat(beat) => {
                let mut actions = handle_heartbeat_message(*beat, &mut self.heartbeat, now);
                out.append(&mut actions);
            },
            WireMessage::ClipboardOffer(_) | WireMessage::ClipboardData(_) => {
                let mut actions = handle_remote_clipboard_message(message.clone(), &self.config);
                out.append(&mut actions);
            },
            WireMessage::FileTransferOffer(manifest) => {
                out.push(
                    PumpAction::Update(
                        SessionUpdate::ClipboardFileTransferStarted(manifest.transfer_id),
                    ),
                );
            },
            WireMessage::DragDropStart(drag) => {
                self.announce(*drag, out);
            },
            WireMessage::DragDropCancel { session_id, reason: _ } => {
                self.cancel(*session_id, false, out);
            },
            WireMessage::DragDropCommit { session_id } => {
                self.commit(*session_id, out);
            },
            WireMessage::Error(error) => {
                out.push(PumpAction::Update(SessionUpdate::Error(error.clone())));
            },
            _ => {},
        }
    }

    /// Acts on a connection event, apart from the clipboard.
    pub fn handle_agent_connection_event(
        &mut self,
        event: &ConnectionEvent,
        now: u64,
        out: &mut Vec<PumpAction>,
    )
        ensures
            agent_trace(*final(self), final(out)@) == agent_trace(*old(self), old(out)@).handle(
                event@,
                now,
            ),
    {
        out.push(PumpAction::Update(SessionUpdate::Connection(event.clone())));
        match event {
            ConnectionEvent::Connected { .. } => {
                self.injector_ready = true;
                out.push(PumpAction::OpenInjector(self.local_desktop));
                out.push(
                    PumpAction::Connection(
                        ConnectionCommand::SendReliable(
                            WireMessage::Hello(
                                Hello {
                                    protocol_version: PROTOCOL_VERSION,
                                    desktop: self.local_desktop,
                                },
                            ),
                        ),
                    ),
                );
            },
            ConnectionEvent::Disconnected(_) | ConnectionEvent::Error(_) => {
                self.lose_connection(out);
            },
            ConnectionEvent::LatestPointer { x, y, sequence: _ } => {
                self.inject_agent_input(
                    InputEvent::MouseMoveAbs(MouseMoveAbsEvent { x: *x, y: *y }),
                    out,
                );
            },
            ConnectionEvent::Message(message) => {
                self.handle_message(message, now, out);
            },
            _ => {},
        }
    }

    /// A connection event.
    pub fn on_connection_event(
        &mut self,
        event: &ConnectionEvent,
        now: u64,
        out: &mut Vec<PumpAction>,
    )
        ensures
            agent_trace(*final(self), final(out)@) == agent_trace(*old(self), old(out)@).connection(
                event@,
                now,
            ),
    {
        let ready = agent_clipboard_transport_ready_after_event(
            self.clipboard_transport_ready,
            event,
        );
        self.handle_agent_connection_event(event, now, out);
        self.clipboard_transport_ready = ready;
    }

    /// The session ends because the connection is gone for good.
    pub fn end(&mut self, out: &mut Vec<PumpAction>)
        ensures
            agent_trace(*final(self), final(out)@) == agent_trace(*old(self), old(out)@).end(),
    {
        out.push(PumpAction::StopClipboard);
        self.release_agent_input(false, out);
    }

    /// The session is told something. Whether it goes on is returned.
    pub fn on_command(&mut self, command: SessionCommand, out: &mut Vec<PumpAction>) -> (r: bool)
        ensures
            match command {
                SessionCommand::Stop => !r && agent_trace(*final(self), final(out)@) == agent_trace(
                    *old(self),
                    old(out)@,
                ).stop(),
                SessionCommand::CancelDragDrop(session_id) => r && agent_trace(
                    *final(self),
                    final(out)@,
                ) == agent_trace(*old(self), old(out)@).cancel(session_id, true),
            },
    {
        match command {
            SessionCommand::Stop => {
                self.release_agent_input(false, out);
                self.clear_drags(out);
                self.end(out);
                false
            },
            SessionCommand::CancelDragDrop(session_id) => {
                self.cancel(session_id, true, out);
                true
            },
        }
    }
}

/// When the connection is lost, held input is released before the injector is closed,
/// and no drag waits any more.
pub proof fn law_lost_connection_releases_input(
    trace: AgentTrace,
    event: ConnectionEventView,
    now: u64,
)
    requires
        trace.state.injector_ready,
        event is Disconnected || event is Error,
    ensures
        ({
            let after = trace.connection(event, now);
            let n = trace.out.len() as int;
            &&& after.out[n + 1] == (ActionView::ReleaseInput { log_after_disconnect: true })
            &&& after.out[n + 2] == ActionView::CloseInjector
            &&& !after.state.injector_ready
            &&& !after.state.clipboard_ready
            &&& after.state.drags.pending.len() == 0
            &&& after.state.drags.active is None
        }),
{
}

/// Nothing is injected before the controller has connected.
pub proof fn law_no_injection_without_connection(
    trace: AgentTrace,
    event: ConnectionEventView,
    now: u64,
    i: int,
)
    requires
        !trace.state.injector_ready,
        !(event is Connected),
        trace.out.len() <= i < trace.connection(event, now).out.len(),
    ensures
        !(trace.connection(event, now).out[i] is Inject),
{
    if let ConnectionEventView::Message(message) = event {
        let told = trace.emit(ActionView::Update(UpdateView::Connection(event)));
        lemma_message_does_not_inject(told, message, now, i);
    }
}

proof fn lemma_message_does_not_inject(
    trace: AgentTrace,
    message: MessageView,
    now: u64,
    i: int,
)
    requires
        !trace.state.injector_ready,
        trace.out.len() - 1 <= i < trace.message(message, now).out.len(),
        trace.out.len() > 0,
        !(trace.out.last() is Inject),
    ensures
        !(trace.message(message, now).out[i] is Inject),
{
}

/// Input of the controller is injected as it is, exactly while the injector is open: one
/// injection for each event, and a position for each pointer packet.
pub proof fn law_input_is_injected_as_it_is(
    trace: AgentTrace,
    event: InputEvent,
    x: i32,
    y: i32,
    sequence: u64,
    now: u64,
)
    requires
        trace.state.injector_ready,
    ensures
        ({
            let after = trace.connection(
                ConnectionEventView::Message(MessageView::Input(event)),
                now,
            );
            &&& after.out.len() == trace.out.len() + 2
            &&& after.out.last() == ActionView::Inject(event)
            &&& after.state == trace.state
        }),
        ({
            let after = trace.connection(
                ConnectionEventView::LatestPointer { x, y, sequence },
                now,
            );
            &&& after.out.len() == trace.out.len() + 2
            &&& after.out.last() == ActionView::Inject(
                InputEvent::MouseMoveAbs(MouseMoveAbsEvent { x, y }),
            )
            &&& after.state == trace.state
        }),
        ({
            let after = trace.connection(ConnectionEventView::Message(MessageView::ReleaseAll), now);
            &&& after.out.len() == trace.out.len() + 2
            &&& after.out.last() == (ActionView::ReleaseInput { log_after_disconnect: false })
            &&& after.state == trace.state
        }),
{
}

/// When the controller connects, the injector is opened for this desktop before the
/// controller hears of the desktop; from then on input is injected and content is sent.
pub proof fn law_connection_opens_the_injector(
    trace: AgentTrace,
    event: ConnectionEventView,
    now: u64,
)
    requires
        event is Connected,
    ensures
        ({
            let after = trace.connection(event, now);
            let n = trace.out.len() as int;
            &&& after.out.len() == n + 3
            &&& after.out[n] == ActionView::Update(UpdateView::Connection(event))
            &&& after.out[n + 1] == ActionView::OpenInjector(trace.state.desktop)
            &&& after.out[n + 2] == ActionView::Connection(
                CommandView::SendReliable(
                    MessageView::Hello(
                        Hello { protocol_version: PROTOCOL_VERSION, desktop: trace.state.desktop },
                    ),
                ),
            )
            &&& after.state.injector_ready
            &&& after.state.clipboard_ready
            &&& after.state.drags == trace.state.drags
        }),
{
}

/// Every event of the connection is told to the window, before anything else that it
/// leads to; and nothing that was done before is undone.
pub proof fn law_connection_events_are_told(
    trace: AgentTrace,
    event: ConnectionEventView,
    now: u64,
)
    ensures
        ({
            let after = trace.connection(event, now);
            let n = trace.out.len() as int;
            &&& after.out.len() > n
            &&& after.out[n] == ActionView::Update(UpdateView::Connection(event))
            &&& trace.out.is_prefix_of(after.out)
            &&& after.state.config == trace.state.config
            &&& after.state.desktop == trace.state.desktop
        }),
{
    let after = trace.connection(event, now);
    assert(after.out.take(trace.out.len() as int) =~= trace.out);
}

/// Clipboard content of the controller is written as the settings say, a transfer of
/// copied files is noted as such, and an error is shown.
pub proof fn law_contents_are_handed_on(
    trace: AgentTrace,
    message: MessageView,
    now: u64,
)
    ensures
        ({
            let after = trace.connection(ConnectionEventView::Message(message), now);
            let n = trace.out.len() as int;
            &&& message is ClipboardData || message is ClipboardOffer ==> after.out.skip(n + 1)
                == remote_clipboard_actions(trace.state.config.sharing, message)
            &&& message matches MessageView::FileTransferOffer(manifest) ==> after.out.skip(n + 1)
                == seq![
                ActionView::Update(
                    UpdateView::ClipboardFileTransferStarted(manifest.transfer_id),
                ),
            ]
            &&& message matches MessageView::Error(error) ==> after.out.skip(n + 1) == seq![
                ActionView::Update(UpdateView::Error(error)),
            ]
            &&& message matches MessageView::Heartbeat(beat) ==> after.out.skip(n + 1)
                == heartbeat_actions(trace.state.heartbeats, beat, now)
        }),
{
    let after = trace.connection(ConnectionEventView::Message(message), now);
    let n = trace.out.len() as int;
    if message is ClipboardData || message is ClipboardOffer {
        assert(after.out.skip(n + 1) =~= remote_clipboard_actions(
            trace.state.config.sharing,
            message,
        ));
    }
    if let MessageView::FileTransferOffer(manifest) = message {
        assert(after.out.skip(n + 1) =~= seq![
            ActionView::Update(UpdateView::ClipboardFileTransferStarted(manifest.transfer_id)),
        ]);
    }
    if let MessageView::Error(error) = message {
        assert(after.out.skip(n + 1) =~= seq![ActionView::Update(UpdateView::Error(error))]);
    }
    if let MessageView::Heartbeat(beat) = message {
        assert(after.out.skip(n + 1) =~= heartbeat_actions(trace.state.heartbeats, beat, now));
    }
}

/// Content may be sent from the connection on until it is lost or the controller reports
/// an error; other events change nothing of that.
pub proof fn law_agent_is_ready_while_connected(current: bool, event: ConnectionEventView)
    ensures
        event is Connected ==> agent_ready_after(current, event),
        event is Waiting || event is Connecting || event is Disconnected || event is Error
            ==> !agent_ready_after(current, event),
        event matches ConnectionEventView::Message(message) ==> (agent_ready_after(current, event)
            <==> current && !(message is Error)),
        event is LatestPointer || event is StalePointerPackets ==> agent_ready_after(current, event)
            == current,
{
}

/// Files of a drag that are dropped before the native drag runs are dropped as soon as it
/// does, exactly once; and files that are dropped while it runs are dropped at once.
pub proof fn law_early_drops_are_not_lost(
    trace: AgentTrace,
    session_id: u128,
)
    ensures
        ({
            let dropped = trace.commit(session_id);
            let started = dropped.drag_started(session_id, Ok(()));
            let again = started.drag_started(session_id, Ok(()));
            let commit = ActionView::CommitRemoteDrag { session_id };
            let running = trace.state.drags.active == Some(session_id);
            &&& running ==> dropped.out.contains(commit)
            &&& !running ==> dropped.out.len() == trace.out.len() + 1 && started.out.last()
                == commit && started.out.len() == dropped.out.len() + 1
            &&& started.state.drags.active == Some(session_id)
            &&& again.out == started.out
        }),
{
    let dropped = trace.commit(session_id);
    if trace.state.drags.active == Some(session_id) {
        assert(dropped.out[trace.out.len() as int] == (ActionView::CommitRemoteDrag {
            session_id,
        }));
    }
}

/// A drag that is announced is noted as one, so that its files do not fill the clipboard,
/// and it is shown; if its files are there already, the native drag begins with exactly
/// them.
pub proof fn law_announced_drags_are_noted(trace: AgentTrace, drag: DragTransfer)
    ensures
        ({
            let after = trace.announce(drag);
            let n = trace.out.len() as int;
            &&& after.out[n] == ActionView::Update(
                UpdateView::DragDropTransferStarted(drag.transfer_id),
            )
            &&& after.out[n + 1] == drag_report(
                DragEventView::RemoteDropStarted { session_id: drag.session_id },
            )
            &&& trace.state.drags.started(drag).1 matches Some(paths) ==> after.out.len() == n + 4
                && after.out[n + 3] == (ActionView::StartRemoteDrag {
                session_id: drag.session_id,
                cache_paths: paths,
            })
            &&& trace.state.drags.started(drag).1 is None ==> after.out.len() == n + 3
        }),
{
}

/// A session that stops releases held input, gives up every drag and the clipboard.
pub proof fn law_agent_stop_releases_everything(trace: AgentTrace)
    ensures
        trace.state.injector_ready ==> trace.stop().out.contains(
            ActionView::ReleaseInput { log_after_disconnect: false },
        ),
        trace.stop().out.contains(ActionView::StopClipboard),
        trace.state.drags.active is Some ==> trace.stop().out.contains(ActionView::EndRemoteDrag),
        trace.stop().state.drags == AgentDragView::none(),
{
    let n = trace.out.len() as int;
    let after = trace.stop().out;
    let release = ActionView::ReleaseInput { log_after_disconnect: false };
    if trace.state.injector_ready {
        assert(after[n] == release);
        assert(after.last() == release);
        assert(after[after.len() - 2] == ActionView::StopClipboard);
        if trace.state.drags.active is Some {
            assert(after[n + 1] == ActionView::EndRemoteDrag);
        }
    } else {
        assert(after.last() == ActionView::StopClipboard);
        if trace.state.drags.active is Some {
            assert(after[n] == ActionView::EndRemoteDrag);
        }
    }
}

/// A drag that is called off is forgotten, its transfer with it if the drag waited for
/// that, and the controller is told unless it said so itself.
pub proof fn law_agent_drags_are_called_off(trace: AgentTrace, session_id: u128, notify_peer: bool)
    ensures
        ({
            let after = trace.cancel(session_id, notify_peer);
            &&& after.state.drags == trace.state.drags.without(session_id)
            &&& after.out.last() == drag_report(DragEventView::LocalDragCancelled { session_id })
            &&& trace.state.drags.transfer_of(session_id) matches Some(id) ==> after.out.contains(
                transfer_off(id),
            )
            &&& notify_peer ==> after.out[after.out.len() - 2] == cancel_notice(session_id)
        }),
{
    let after = trace.cancel(session_id, notify_peer);
    if let Some(id) = trace.state.drags.transfer_of(session_id) {
        let at = after.out.len() - if notify_peer { 3int } else { 2 };
        assert(after.out[at] == transfer_off(id));
    }
}

/// What is reported of injected and released input is exactly what went wrong, and after
/// the connection was lost also that it went well.
pub proof fn law_injection_failures_are_reported(
    result: Result<(), String>,
    log_after_disconnect: bool,
    injected: Option<SessionUpdate>,
    released: Option<SessionUpdate>,
)
    requires
        call_ensures(input_injected, (result,), injected),
        call_ensures(input_released, (result, log_after_disconnect), released),
    ensures
        injected is Some <==> result is Err,
        released is Some <==> result is Err || log_after_disconnect,
        result matches Err(error) ==> injected->0@ == UpdateView::Error(
            "input injection failed: "@ + error@,
        ) && released->0@ == UpdateView::Error("release all failed: "@ + error@),
        result is Ok && log_after_disconnect ==> released->0@ is Log,
{
}

/// What happens to the native drag is always reported as it is. A drag that ended, was
/// called off or failed is forgotten, and given up if it is the one that runs. Only a drag
/// that did not reach its end is told to the peer.
pub proof fn law_native_drags_are_reported(
    trace: AgentTrace,
    session_id: u128,
    message: Seq<char>,
    event: DragEventView,
)
    ensures
        trace.remote_drag(event).out.last() == ActionView::Update(UpdateView::DragDrop(event)),
        ({
            let after = trace.remote_drag(DragEventView::RemoteDropFinished { session_id });
            &&& after.state.drags == trace.state.drags.without(session_id)
            &&& trace.state.drags.active == Some(session_id) ==> after.out.len()
                == trace.out.len() + 2 && after.out[trace.out.len() as int]
                == ActionView::EndRemoteDrag
            &&& trace.state.drags.active != Some(session_id) ==> after.out.len()
                == trace.out.len() + 1
        }),
        ({
            let off = trace.remote_drag(DragEventView::LocalDragCancelled { session_id });
            let failed = trace.remote_drag(
                DragEventView::Error { session_id: Some(session_id), message },
            );
            &&& off.state.drags == trace.state.drags.without(session_id)
            &&& failed.state.drags == off.state.drags
            &&& off.out[off.out.len() - 2] == cancel_notice(session_id)
            &&& failed.out[failed.out.len() - 2] == cancel_notice(session_id)
        }),
        trace.remote_drag(
            DragEventView::Error { session_id: None, message },
        ).state.drags == AgentDragView::none(),
        event is RemoteDropStarted ==> trace.remote_drag(event).state == trace.state,
{
}

} // verus!
