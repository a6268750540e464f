//! What a session consists of.
use crate::config::{AppConfig, Role};
use crate::geometry::{edge_for_position, edge_of, Edge};
use crate::runtime::{bulk_client_host, bulk_server_host, bulk_server_host_of};
use crate::session::{SessionUpdate, UpdateView};
use crate::text::{join2, opt_view};
use crate::transport::{agent_transport_settings, controller_transport_settings, TransportSettings};
use vstd::prelude::*;

verus! {

/// What has to be started for a session.
#[derive(Debug, PartialEq, Eq)]
pub struct SessionPlan {
    /// The control connection, and whether this computer waits for it.
    pub transport: TransportSettings,
    pub listens: bool,
    /// Whether local input is watched.
    pub hooks: bool,
    /// Where drags of files are noticed.
    pub drop_edge: Option<Edge>,
    /// Where this computer waits for files, and where it connects to for them.
    pub bulk_server_host: String,
    pub bulk_client_host: Option<String>,
    pub bulk_port: u16,
}

/// The plan of a session with a configuration.
pub open spec fn plan_of(config: AppConfig, plan: SessionPlan) -> bool {
    &&& plan.bulk_server_host@ == bulk_server_host_of(config)
    &&& plan.bulk_port == config.sharing.bulk_transfer_port
    &&& match config.role {
        Role::Controller => {
            &&& plan.transport == (TransportSettings {
                mode: config.controller.transport_mode,
                host: config.controller.agent_host,
                reliable_port: config.controller.agent_port,
                pointer_port: config.controller.pointer_port,
            })
            &&& !plan.listens
            &&& plan.hooks
            &&& plan.drop_edge == if config.sharing.real_file_drag_drop {
                Some(edge_of(config.controller.remote_position))
            } else {
                None
            }
            &&& opt_view(plan.bulk_client_host) == Some(config.controller.agent_host@)
        },
        Role::Agent => {
            &&& plan.transport == (TransportSettings {
                mode: config.agent.transport_mode,
                host: config.agent.listen_host,
                reliable_port: config.agent.listen_port,
                pointer_port: config.agent.pointer_port,
            })
            &&& plan.listens
            &&& !plan.hooks
            &&& plan.drop_edge is None
            &&& plan.bulk_client_host is None
        },
    }
}

/// The controller watches local input and connects; the agent waits.
pub fn start_session(config: &AppConfig) -> (r: SessionPlan)
    ensures
        plan_of(*config, r),
{
    match config.role {
        Role::Controller => start_controller_session(config),
        Role::Agent => start_agent_session(config),
    }
}

fn start_controller_session(config: &AppConfig) -> (r: SessionPlan)
    requires
        config.role == Role::Controller,
    ensures
        plan_of(*config, r),
{
    SessionPlan {
        transport: controller_transport_settings(config),
        listens: false,
        hooks: true,
        drop_edge: if config.sharing.real_file_drag_drop {
            Some(edge_for_position(config.controller.remote_position))
        } else {
            None
        },
        bulk_server_host: bulk_server_host(config),
        bulk_client_host: bulk_client_host(config),
        bulk_port: config.sharing.bulk_transfer_port,
    }
}

fn start_agent_session(config: &AppConfig) -> (r: SessionPlan)
    requires
        config.role == Role::Agent,
    ensures
        plan_of(*config, r),
{
    SessionPlan {
        transport: agent_transport_settings(config),
        listens: true,
        hooks: false,
        drop_edge: None,
        bulk_server_host: bulk_server_host(config),
        bulk_client_host: bulk_client_host(config),
        bulk_port: config.sharing.bulk_transfer_port,
    }
}

/// A part of a session that runs on its own.
#[derive(Clone, Copy, Debug, PartialEq, Eq, Structural)]
pub enum SessionTask {
    ControllerTransport,
    AgentTransport,
    BulkServer,
    BulkClient,
}

/// The name of a part of a session.
pub open spec fn task_name(task: SessionTask) -> Seq<char> {
    match task {
        SessionTask::ControllerTransport => "controller transport exited: "@,
        SessionTask::AgentTransport => "agent transport exited: "@,
        SessionTask::BulkServer => "bulk transfer server exited: "@,
        SessionTask::BulkClient => "bulk transfer client exited: "@,
    }
}

/// The report of a part that came to an end with an error.
pub fn task_exited(task: SessionTask, error: &str) -> (r: SessionUpdate)
    ensures
        r@ == UpdateView::Error(task_name(task) + error@),
{
    let name = match task {
        SessionTask::ControllerTransport => "controller transport exited: ",
        SessionTask::AgentTransport => "agent transport exited: ",
        SessionTask::BulkServer => "bulk transfer server exited: ",
        SessionTask::BulkClient => "bulk transfer client exited: ",
    };
    SessionUpdate::Error(join2(name, error))
}

/// Two computers whose configurations name each other meet: the controller connects
/// to the ports on which the agent waits, for control and for files.
pub proof fn law_peers_meet(
    controller: AppConfig,
    agent: AppConfig,
    connecting: SessionPlan,
    waiting: SessionPlan,
)
    requires
        controller.role == Role::Controller,
        agent.role == Role::Agent,
        plan_of(controller, connecting),
        plan_of(agent, waiting),
        controller.controller.agent_port == agent.agent.listen_port,
        controller.controller.pointer_port == agent.agent.pointer_port,
        controller.controller.transport_mode == agent.agent.transport_mode,
        controller.sharing.bulk_transfer_port == agent.sharing.bulk_transfer_port,
    ensures
        waiting.listens && !connecting.listens,
        connecting.transport.mode == waiting.transport.mode,
        connecting.transport.reliable_port == waiting.transport.reliable_port,
        connecting.transport.pointer_port == waiting.transport.pointer_port,
        connecting.bulk_client_host is Some && waiting.bulk_client_host is None,
        connecting.bulk_port == waiting.bulk_port,
{
}

/// The controller watches local input and connects to the agent; the agent listens and
/// watches nothing. Drags are noticed at the edge that leads to the agent, exactly if they
/// are allowed.
pub proof fn law_roles_do_their_part(config: AppConfig, plan: SessionPlan)
    requires
        plan_of(config, plan),
    ensures
        plan.listens <==> config.role == Role::Agent,
        plan.hooks <==> config.role == Role::Controller,
        plan.drop_edge is Some <==> config.role == Role::Controller
            && config.sharing.real_file_drag_drop,
        plan.drop_edge matches Some(edge) ==> match config.controller.remote_position {
            crate::config::RemotePosition::Left => edge == Edge::Left,
            crate::config::RemotePosition::Right => edge == Edge::Right,
            crate::config::RemotePosition::Top => edge == Edge::Top,
            crate::config::RemotePosition::Bottom => edge == Edge::Bottom,
        },
        plan.bulk_client_host is Some <==> config.role == Role::Controller,
        plan.bulk_client_host matches Some(host) ==> host@ == config.controller.agent_host@,
        plan.bulk_port == config.sharing.bulk_transfer_port,
        config.role == Role::Controller ==> plan.transport.host@ == config.controller.agent_host@
            && plan.transport.reliable_port == config.controller.agent_port
            && plan.transport.pointer_port == config.controller.pointer_port
            && plan.transport.mode == config.controller.transport_mode
            && plan.bulk_server_host@ == "0.0.0.0"@,
        config.role == Role::Agent ==> plan.transport.host@ == config.agent.listen_host@
            && plan.transport.reliable_port == config.agent.listen_port
            && plan.transport.pointer_port == config.agent.pointer_port
            && plan.transport.mode == config.agent.transport_mode
            && plan.bulk_server_host@ == config.agent.listen_host@,
{
}

/// A part of a session that fails is named in the report, with the error at its end.
pub proof fn law_failed_parts_are_named(task: SessionTask, error: &str, r: SessionUpdate)
    requires
        call_ensures(task_exited, (task, error), r),
    ensures
        r@ is Error,
        r@->Error_0 == match task {
            SessionTask::ControllerTransport => "controller transport exited: "@,
            SessionTask::AgentTransport => "agent transport exited: "@,
            SessionTask::BulkServer => "bulk transfer server exited: "@,
            SessionTask::BulkClient => "bulk transfer client exited: "@,
        } + error@,
{
}

} // verus!
