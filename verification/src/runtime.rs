//! The program's main loop: commands of the window start and stop sessions, reports
//! of the running session change what is shown.
use crate::config::{AppConfig, Role};
use crate::ids::{hyphenated, id_text};
use crate::purposes::{PurposesView, TransferPurposeTracker};
use crate::session::{RuntimeEvent, RuntimeEventView, SessionUpdate, UpdateView};
use crate::stale_pointer::{fresh_gate, StalePointerPacketGate};
use crate::status::{AppStatus, RunState, StatusView};
use crate::status_updates::{
    apply_session_update, board, emit_log, emit_status, prepare_running_status,
    prepare_stopped_status, written_view, BoardView, ShownView,
};
use crate::text::{decimal, join2, join3, number, views};
use vstd::prelude::*;

verus! {

broadcast use crate::text::lemma_views_push;

/// What the window asks for.
#[derive(Debug, PartialEq, Eq)]
pub enum RuntimeCommand {
    Start(AppConfig),
    Stop,
    Reconnect(AppConfig),
    CancelTransfer(u128),
    CancelDragDrop(u128),
}

impl Clone for RuntimeCommand {
    fn clone(&self) -> (r: Self)
        ensures
            r == *self,
    {
        match self {
            RuntimeCommand::Start(config) => RuntimeCommand::Start(config.clone()),
            RuntimeCommand::Stop => RuntimeCommand::Stop,
            RuntimeCommand::Reconnect(config) => RuntimeCommand::Reconnect(config.clone()),
            RuntimeCommand::CancelTransfer(id) => RuntimeCommand::CancelTransfer(*id),
            RuntimeCommand::CancelDragDrop(id) => RuntimeCommand::CancelDragDrop(*id),
        }
    }
}

/// What a command asks of the sessions.
#[derive(Debug, PartialEq, Eq)]
pub enum LoopAction {
    Nothing,
    StartSession { session_id: u64, config: AppConfig },
    CancelTransfer(u128),
    CancelDragDrop(u128),
}

/// How the tasks of a session ended.
#[derive(Clone, Copy, Debug, PartialEq, Eq, Structural)]
pub struct StopTaskOutcome {
    pub completed: usize,
    pub aborted: usize,
}

/// A report, with the session that it comes from.
#[derive(Debug, PartialEq, Eq)]
pub struct TaggedSessionUpdate {
    pub session_id: u64,
    pub update: SessionUpdate,
}

/// The state of the main loop.
#[derive(Debug, PartialEq, Eq)]
pub struct RuntimeLoop {
    pub status: AppStatus,
    pub stale_pointer_packet_gate: StalePointerPacketGate,
    pub transfer_purposes: TransferPurposeTracker,
    pub next_session_id: u64,
    pub active: Option<u64>,
}

/// The state of the main loop, and what the window has been told.
#[verifier::ext_equal]
pub struct LoopView {
    pub board: BoardView,
    pub next_session_id: u64,
    pub active: Option<u64>,
}

/// The view of the main loop and of the events for the window.
pub open spec fn loop_view(state: RuntimeLoop, events: Seq<RuntimeEvent>) -> LoopView {
    LoopView {
        board: board(
            state.status,
            events,
            state.stale_pointer_packet_gate,
            state.transfer_purposes,
        ),
        next_session_id: state.next_session_id,
        active: state.active,
    }
}

impl LoopView {
    /// The running session has stopped.
    pub open spec fn session_stopped(self, aborted: usize) -> LoopView {
        let stopped = LoopView { active: None, ..self };
        if aborted > 0 {
            stopped.show(
                stopped.board.shown.log(
                    "aborted "@ + decimal(aborted as nat)
                        + " runtime task(s) after shutdown timeout"@,
                ),
            )
        } else {
            stopped
        }
    }

    pub open spec fn show(self, shown: ShownView) -> LoopView {
        LoopView { board: self.board.show(shown), ..self }
    }

    /// Everything that the last session left is forgotten.
    pub open spec fn afresh(self, status: StatusView, line: Seq<char>) -> LoopView {
        LoopView {
            board: BoardView {
                shown: self.board.shown.with(status).log(line).publish(),
                gate: fresh_gate(),
                purposes: PurposesView::none(),
            },
            ..self
        }
    }

    /// A session begins.
    pub open spec fn begun(self, config: AppConfig, run_state: RunState, line: Seq<char>) -> LoopView {
        LoopView {
            next_session_id: if self.next_session_id < u64::MAX {
                (self.next_session_id + 1) as u64
            } else {
                u64::MAX
            },
            active: Some(self.next_session_id),
            ..self.afresh(self.board.shown.status.running(config, run_state), line)
        }
    }

    /// A command is carried out.
    pub open spec fn commanded(self, command: RuntimeCommand) -> LoopView {
        match command {
            RuntimeCommand::Start(config) => self.begun(
                config,
                RunState::Connecting,
                "starting runtime"@,
            ),
            RuntimeCommand::Reconnect(config) => self.begun(
                config,
                RunState::Reconnecting,
                "reconnecting runtime"@,
            ),
            RuntimeCommand::Stop => LoopView {
                active: None,
                ..self.afresh(self.board.shown.status.stopped(), "runtime stopped"@)
            },
            RuntimeCommand::CancelTransfer(id) => if self.active is Some {
                self.show(
                    self.board.shown.log("requested transfer cancel: "@ + hyphenated(id)),
                )
            } else {
                self
            },
            RuntimeCommand::CancelDragDrop(id) => self.show(
                self.board.shown.with(
                    StatusView {
                        active_drag_session: None,
                        drag_drop_state: Some("cancelled"@),
                        ..self.board.shown.status
                    },
                ).log("requested drag/drop cancel: "@ + hyphenated(id)).publish(),
            ),
        }
    }

    /// What a command asks of the sessions.
    pub open spec fn action(self, command: RuntimeCommand) -> LoopAction {
        match command {
            RuntimeCommand::Start(config) => LoopAction::StartSession {
                session_id: self.next_session_id,
                config,
            },
            RuntimeCommand::Reconnect(config) => LoopAction::StartSession {
                session_id: self.next_session_id,
                config,
            },
            RuntimeCommand::Stop => LoopAction::Nothing,
            RuntimeCommand::CancelTransfer(id) => if self.active is Some {
                LoopAction::CancelTransfer(id)
            } else {
                LoopAction::Nothing
            },
            RuntimeCommand::CancelDragDrop(id) => if self.active is Some {
                LoopAction::CancelDragDrop(id)
            } else {
                LoopAction::Nothing
            },
        }
    }

    /// The session could not be started.
    pub open spec fn start_failed(self, error: Seq<char>) -> LoopView {
        LoopView {
            board: self.board.update(UpdateView::Error(error), 0, Ok(())),
            active: None,
            ..self
        }
    }

    /// A report counts only if it comes from the running session.
    pub open spec fn reported(
        self,
        session_id: u64,
        update: UpdateView,
        now_millis: u64,
        written: Result<(), Seq<char>>,
    ) -> LoopView {
        if self.active == Some(session_id) {
            LoopView { board: self.board.update(update, now_millis, written), ..self }
        } else {
            self
        }
    }
}

impl RuntimeLoop {
    pub fn new() -> (r: Self)
        ensures
            loop_view(r, Seq::empty()) == (LoopView {
                board: BoardView {
                    shown: ShownView { status: StatusView::initial(), told: Seq::empty() },
                    gate: fresh_gate(),
                    purposes: PurposesView::none(),
                },
                next_session_id: 1,
                active: None,
            }),
    {
        let r = RuntimeLoop {
            status: AppStatus::default(),
            stale_pointer_packet_gate: StalePointerPacketGate::default(),
            transfer_purposes: TransferPurposeTracker::default(),
            next_session_id: 1,
            active: None,
        };
        assert(views(Seq::<RuntimeEvent>::empty()) =~= Seq::empty());
        r
    }

    /// Whether the running session must stop before a command is carried out.
    pub fn must_stop_session(&self, command: &RuntimeCommand) -> (r: bool)
        ensures
            r == (self.active is Some && (command is Start || command is Stop
                || command is Reconnect)),
    {
        self.active.is_some() && match command {
            RuntimeCommand::Start(_) | RuntimeCommand::Stop | RuntimeCommand::Reconnect(_) => true,
            _ => false,
        }
    }

    /// The running session has stopped.
    pub fn log_stop_task_outcome(
        &mut self,
        outcome: StopTaskOutcome,
        events: &mut Vec<RuntimeEvent>,
    )
        ensures
            loop_view(*final(self), final(events)@) == loop_view(
                *old(self),
                old(events)@,
            ).session_stopped(outcome.aborted),
    {
        self.active = None;
        if outcome.aborted > 0 {
            let count_text = number(outcome.aborted as u64);
            let line = join3(
                "aborted ",
                count_text.as_str(),
                " runtime task(s) after shutdown timeout",
            );
            emit_log(&mut self.status, events, line);
        }
    }

    fn begin(
        &mut self,
        config: AppConfig,
        run_state: RunState,
        line: &str,
        events: &mut Vec<RuntimeEvent>,
    ) -> (r: LoopAction)
        ensures
            loop_view(*final(self), final(events)@) == loop_view(*old(self), old(events)@).begun(
                config,
                run_state,
                line@,
            ),
            r == (LoopAction::StartSession { session_id: old(self).next_session_id, config }),
    {
        self.stale_pointer_packet_gate.reset();
        self.transfer_purposes.clear();
        prepare_running_status(&mut self.status, &config, run_state);
        emit_log(&mut self.status, events, line.to_owned());
        emit_status(&self.status, events);
        let session_id: u64 = self.next_session_id;
        self.next_session_id = self.next_session_id.saturating_add(1);
        self.active = Some(session_id);
        LoopAction::StartSession { session_id, config }
    }

    /// Carries a command out.
    pub fn on_command(&mut self, command: RuntimeCommand, events: &mut Vec<RuntimeEvent>) -> (r:
        LoopAction)
        ensures
            loop_view(*final(self), final(events)@) == loop_view(
                *old(self),
                old(events)@,
            ).commanded(command),
            r == loop_view(*old(self), old(events)@).action(command),
    {
        match command {
            RuntimeCommand::Start(config) => self.begin(
                config,
                RunState::Connecting,
                "starting runtime",
                events,
            ),
            RuntimeCommand::Reconnect(config) => self.begin(
                config,
                RunState::Reconnecting,
                "reconnecting runtime",
                events,
            ),
            RuntimeCommand::Stop => {
                self.stale_pointer_packet_gate.reset();
                self.transfer_purposes.clear();
                prepare_stopped_status(&mut self.status);
                emit_log(&mut self.status, events, "runtime stopped".to_owned());
                emit_status(&self.status, events);
                self.active = None;
                LoopAction::Nothing
            },
            RuntimeCommand::CancelTransfer(id) => {
                if self.active.is_some() {
                    let line = join2("requested transfer cancel: ", id_text(id).as_str());
                    emit_log(&mut self.status, events, line);
                    LoopAction::CancelTransfer(id)
                } else {
                    LoopAction::Nothing
                }
            },
            RuntimeCommand::CancelDragDrop(id) => {
                self.status.active_drag_session = None;
                self.status.drag_drop_state = Some("cancelled".to_owned());
                let line = join2("requested drag/drop cancel: ", id_text(id).as_str());
                emit_log(&mut self.status, events, line);
                emit_status(&self.status, events);
                if self.active.is_some() {
                    LoopAction::CancelDragDrop(id)
                } else {
                    LoopAction::Nothing
                }
            },
        }
    }

    /// The session could not be started.
    pub fn start_failed(&mut self, error: String, events: &mut Vec<RuntimeEvent>)
        ensures
            loop_view(*final(self), final(events)@) == loop_view(
                *old(self),
                old(events)@,
            ).start_failed(error@),
    {
        self.active = None;
        apply_session_update(
            &mut self.status,
            events,
            SessionUpdate::Error(error),
            &mut self.stale_pointer_packet_gate,
            &mut self.transfer_purposes,
            0,
            Ok(()),
        );
    }

    /// A report of a session. `written` tells whether the clipboard content that the
    /// report calls for could be written.
    pub fn on_update(
        &mut self,
        tagged: TaggedSessionUpdate,
        now_millis: u64,
        written: Result<(), String>,
        events: &mut Vec<RuntimeEvent>,
    )
        ensures
            loop_view(*final(self), final(events)@) == loop_view(*old(self), old(events)@).reported(
                tagged.session_id,
                tagged.update@,
                now_millis,
                written_view(written),
            ),
    {
        if self.active == Some(tagged.session_id) {
            apply_session_update(
                &mut self.status,
                events,
                tagged.update,
                &mut self.stale_pointer_packet_gate,
                &mut self.transfer_purposes,
                now_millis,
                written,
            );
        }
    }
}

/// One step of stopping a session.
#[derive(Clone, Copy, Debug, PartialEq, Eq, Structural)]
pub enum StopStep {
    /// The other computer releases held input.
    ReleaseAll,
    StopSession,
    StopConnection,
    StopBulk,
    /// Local input passes again.
    PassThrough,
    RemoveEdgeTarget,
}

/// What a running session holds that must be stopped.
#[derive(Clone, Copy, Debug, PartialEq, Eq, Structural)]
pub struct ActiveRuntime {
    pub session_id: u64,
    pub has_hooks: bool,
    pub has_edge_target: bool,
    pub stopped: bool,
}

impl ActiveRuntime {
    /// The steps that stop the session. `remote_active` tells whether the remote
    /// desktop has control.
    pub open spec fn stop_steps(self, remote_active: bool) -> Seq<StopStep> {
        if self.stopped {
            Seq::empty()
        } else {
            (if remote_active {
                seq![StopStep::ReleaseAll]
            } else {
                Seq::empty()
            }) + seq![StopStep::StopSession, StopStep::StopConnection, StopStep::StopBulk] + (
            if self.has_hooks {
                seq![StopStep::PassThrough]
            } else {
                Seq::empty()
            }) + (if self.has_edge_target {
                seq![StopStep::RemoveEdgeTarget]
            } else {
                Seq::empty()
            })
        }
    }

    /// Stops the session. The second time there is nothing to do.
    pub fn request_stop(&mut self, remote_active: bool) -> (r: Vec<StopStep>)
        ensures
            r@ == old(self).stop_steps(remote_active),
            *final(self) == (if old(self).stopped {
                *old(self)
            } else {
                ActiveRuntime {
                    stopped: true,
                    has_hooks: false,
                    has_edge_target: false,
                    ..*old(self)
                }
            }),
    {
        let mut steps: Vec<StopStep> = Vec::new();
        if self.stopped {
            assert(steps@ =~= old(self).stop_steps(remote_active));
            return steps;
        }
        self.stopped = true;
        if remote_active {
            steps.push(StopStep::ReleaseAll);
        }
        steps.push(StopStep::StopSession);
        steps.push(StopStep::StopConnection);
        steps.push(StopStep::StopBulk);
        if self.has_hooks {
            self.has_hooks = false;
            steps.push(StopStep::PassThrough);
        }
        if self.has_edge_target {
            self.has_edge_target = false;
            steps.push(StopStep::RemoveEdgeTarget);
        }
        assert(steps@ =~= old(self).stop_steps(remote_active));
        steps
    }
}

/// Where the file transfer server of a role listens.
pub open spec fn bulk_server_host_of(config: AppConfig) -> Seq<char> {
    match config.role {
        Role::Controller => "0.0.0.0"@,
        Role::Agent => config.agent.listen_host@,
    }
}

/// The host on which this computer waits for files.
pub fn bulk_server_host(config: &AppConfig) -> (r: String)
    ensures
        r@ == bulk_server_host_of(*config),
{
    match config.role {
        Role::Controller => "0.0.0.0".to_owned(),
        Role::Agent => config.agent.listen_host.clone(),
    }
}

/// The host to which this computer connects for files: only the controller does.
pub fn bulk_client_host(config: &AppConfig) -> (r: Option<String>)
    ensures
        match config.role {
            Role::Controller => r is Some && r->0@ == config.controller.agent_host@,
            Role::Agent => r is None,
        },
{
    match config.role {
        Role::Controller => Some(config.controller.agent_host.clone()),
        Role::Agent => None,
    }
}

/// Reports of a session that is not running any more change nothing.
pub proof fn law_stale_reports_are_ignored(
    state: LoopView,
    session_id: u64,
    update: UpdateView,
    now_millis: u64,
    written: Result<(), Seq<char>>,
)
    requires
        state.active != Some(session_id),
    ensures
        state.reported(session_id, update, now_millis, written) == state,
{
}

/// A new session never has the number of an older one, as long as numbers last.
pub proof fn law_sessions_have_new_numbers(state: LoopView, config: AppConfig)
    requires
        state.next_session_id < u64::MAX,
        state.active is Some ==> state.active->0 < state.next_session_id,
    ensures
        ({
            let after = state.commanded(RuntimeCommand::Start(config));
            &&& after.active == Some(state.next_session_id)
            &&& after.active != state.active
            &&& after.active->0 < after.next_session_id
        }),
{
}

/// A stopped program shows nothing of its last session but the log.
pub proof fn law_stop_clears_the_status(state: LoopView)
    ensures
        ({
            let after = state.commanded(RuntimeCommand::Stop);
            &&& after.active is None
            &&& after.board.purposes == PurposesView::none()
            &&& after.board.shown.status == (StatusView {
                events: after.board.shown.status.events,
                ..StatusView::initial()
            })
        }),
{
}

/// Stopping a session twice does no more than stopping it once.
pub proof fn law_stop_is_idempotent(session: ActiveRuntime, remote_active: bool)
    requires
        session.stopped,
    ensures
        session.stop_steps(remote_active).len() == 0,
{
}

/// Starting and reconnecting begin a session with exactly the given configuration and a
/// number of its own; the session runs from then on, and everything of the one before is
/// forgotten but the log.
#[verifier::spinoff_prover]
pub proof fn law_start_begins_a_session(state: LoopView, config: AppConfig)
    ensures
        ({
            let start = state.commanded(RuntimeCommand::Start(config));
            let again = state.commanded(RuntimeCommand::Reconnect(config));
            let session = LoopAction::StartSession { session_id: state.next_session_id, config };
            &&& state.action(RuntimeCommand::Start(config)) == session
            &&& state.action(RuntimeCommand::Reconnect(config)) == session
            &&& start.active == Some(state.next_session_id)
            &&& again.active == start.active
            &&& start.board.shown.status.run_state == RunState::Connecting
            &&& again.board.shown.status.run_state == RunState::Reconnecting
            &&& start.board.purposes == PurposesView::none()
            &&& again.board.purposes == PurposesView::none()
            &&& start.board.gate == fresh_gate()
            &&& start.board.shown.told.last() == RuntimeEventView::Status(
                start.board.shown.status,
            )
            &&& start.board.shown.status.last_error is None
            &&& start.board.shown.status.transport_mode == Some(
                crate::transport::mode_of(config),
            )
            &&& again.next_session_id == start.next_session_id
        }),
{
}

/// Stopping runs nothing any more. A transfer or a drag can be called off only while a
/// session runs, and then exactly the one that was named; the window sees at once that a
/// drag is off.
#[verifier::spinoff_prover]
pub proof fn law_cancellations_reach_their_session(state: LoopView, id: u128)
    ensures
        ({
            let drag = state.commanded(RuntimeCommand::CancelDragDrop(id));
            let transfer = state.commanded(RuntimeCommand::CancelTransfer(id));
            let running = state.active is Some;
            &&& state.action(RuntimeCommand::Stop) == LoopAction::Nothing
            &&& state.commanded(RuntimeCommand::Stop).active is None
            &&& state.commanded(RuntimeCommand::Stop).board.shown.status.run_state
                == RunState::Stopped
            &&& running ==> state.action(RuntimeCommand::CancelTransfer(id))
                == LoopAction::CancelTransfer(id)
            &&& running ==> state.action(RuntimeCommand::CancelDragDrop(id))
                == LoopAction::CancelDragDrop(id)
            &&& !running ==> state.action(RuntimeCommand::CancelTransfer(id))
                == LoopAction::Nothing && state.action(RuntimeCommand::CancelDragDrop(id))
                == LoopAction::Nothing
            &&& !running ==> transfer == state
            &&& transfer.active == state.active
            &&& drag.active == state.active
            &&& drag.board.shown.status.active_drag_session is None
            &&& drag.board.shown.told.last() == RuntimeEventView::Status(drag.board.shown.status)
        }),
{
}

/// Reports of the running session are applied; a session that could not start does not run
/// and its error is shown.
#[verifier::spinoff_prover]
pub proof fn law_running_reports_are_applied(
    state: LoopView,
    update: UpdateView,
    error: Seq<char>,
    now_millis: u64,
    written: Result<(), Seq<char>>,
)
    ensures
        state.active matches Some(session_id) ==> state.reported(
            session_id,
            update,
            now_millis,
            written,
        ).board == state.board.update(update, now_millis, written),
        state.start_failed(error).active is None,
        state.start_failed(error).board.shown.status.last_error == Some(error),
        state.start_failed(error).board.shown.status.run_state == RunState::Error,
        state.session_stopped(0).active is None,
        state.session_stopped(0).board == state.board,
{
}

/// A session is stopped in an order in which nothing is left hanging: held input is
/// released while the connection is still there, and whatever was set up is taken down.
pub proof fn law_stopping_leaves_nothing(session: ActiveRuntime, remote_active: bool)
    requires
        !session.stopped,
    ensures
        ({
            let steps = session.stop_steps(remote_active);
            let first: int = if remote_active { 1 } else { 0 };
            &&& remote_active ==> steps[0] == StopStep::ReleaseAll
            &&& steps[first] == StopStep::StopSession
            &&& steps[first + 1] == StopStep::StopConnection
            &&& steps[first + 2] == StopStep::StopBulk
            &&& session.has_hooks ==> steps[first + 3] == StopStep::PassThrough
            &&& session.has_edge_target ==> steps.last() == StopStep::RemoveEdgeTarget
            &&& steps.len() == first + 3 + (if session.has_hooks { 1int } else { 0 }) + (
            if session.has_edge_target { 1int } else { 0 })
        }),
{
}

/// A running session must stop before another one begins or the program stops, and for no
/// other command; the controller alone connects for files, to its agent.
pub proof fn law_sessions_follow_each_other(
    state: &RuntimeLoop,
    command: &RuntimeCommand,
    must_stop: bool,
    config: &AppConfig,
    server: String,
    client: Option<String>,
)
    requires
        call_ensures(RuntimeLoop::must_stop_session, (state, command), must_stop),
        call_ensures(bulk_server_host, (config,), server),
        call_ensures(bulk_client_host, (config,), client),
    ensures
        must_stop <==> state.active is Some && !(command is CancelTransfer || command
            is CancelDragDrop),
        client is Some <==> config.role == Role::Controller,
        client matches Some(host) ==> host@ == config.controller.agent_host@,
        config.role == Role::Agent ==> server@ == config.agent.listen_host@,
        config.role == Role::Controller ==> server@ == "0.0.0.0"@,
{
}

/// Tasks that had to be aborted are told with their number; a session that ended in time is
/// not spoken of. What is asked for is logged in its own words.
#[verifier::spinoff_prover]
pub proof fn law_the_log_tells_what_was_asked_for(l: LoopView, aborted: usize, id: u128)
    ensures
        l.session_stopped(0).board.shown == l.board.shown,
        aborted > 0 ==> l.session_stopped(aborted).board.shown == l.board.shown.log(
            "aborted "@ + decimal(aborted as nat) + " runtime task(s) after shutdown timeout"@,
        ),
        l.session_stopped(aborted).active is None,
        l.active is Some ==> l.commanded(RuntimeCommand::CancelTransfer(id)).board.shown
            == l.board.shown.log("requested transfer cancel: "@ + hyphenated(id)),
        l.commanded(
            RuntimeCommand::CancelDragDrop(id),
        ).board.shown.status.drag_drop_state == Some("cancelled"@),
{
}

} // verus!
