//! What the control connection is told, what it reports, and its addresses.
use crate::config::{AppConfig, Role, TransportMode};
use crate::protocol::{MessageView, WireMessage};
use crate::text::{decimal, join3, join4, number};
use vstd::prelude::*;

verus! {

#[derive(Debug, PartialEq, Eq)]
pub enum ConnectionEvent {
    Waiting,
    Connecting(String),
    Connected { peer: String, mode: TransportMode },
    Disconnected(String),
    Message(WireMessage),
    LatestPointer { x: i32, y: i32, sequence: u64 },
    StalePointerPackets { count: u64 },
    Error(String),
}

pub enum ConnectionEventView {
    Waiting,
    Connecting(Seq<char>),
    Connected { peer: Seq<char>, mode: TransportMode },
    Disconnected(Seq<char>),
    Message(MessageView),
    LatestPointer { x: i32, y: i32, sequence: u64 },
    StalePointerPackets { count: u64 },
    Error(Seq<char>),
}

impl View for ConnectionEvent {
    type V = ConnectionEventView;

    open spec fn view(&self) -> ConnectionEventView {
        match self {
            ConnectionEvent::Waiting => ConnectionEventView::Waiting,
            ConnectionEvent::Connecting(peer) => ConnectionEventView::Connecting(peer@),
            ConnectionEvent::Connected { peer, mode } => ConnectionEventView::Connected {
                peer: peer@,
                mode: *mode,
            },
            ConnectionEvent::Disconnected(peer) => ConnectionEventView::Disconnected(peer@),
            ConnectionEvent::Message(message) => ConnectionEventView::Message(message@),
            ConnectionEvent::LatestPointer { x, y, sequence } => {
                ConnectionEventView::LatestPointer { x: *x, y: *y, sequence: *sequence }
            },
            ConnectionEvent::StalePointerPackets { count } => {
                ConnectionEventView::StalePointerPackets { count: *count }
            },
            ConnectionEvent::Error(error) => ConnectionEventView::Error(error@),
        }
    }
}

impl Clone for ConnectionEvent {
    fn clone(&self) -> (r: Self)
        ensures
            r@ == self@,
    {
        match self {
            ConnectionEvent::Waiting => ConnectionEvent::Waiting,
            ConnectionEvent::Connecting(peer) => ConnectionEvent::Connecting(peer.clone()),
            ConnectionEvent::Connected { peer, mode } => ConnectionEvent::Connected {
                peer: peer.clone(),
                mode: *mode,
            },
            ConnectionEvent::Disconnected(peer) => ConnectionEvent::Disconnected(peer.clone()),
            ConnectionEvent::Message(message) => ConnectionEvent::Message(message.clone()),
            ConnectionEvent::LatestPointer { x, y, sequence } => ConnectionEvent::LatestPointer {
                x: *x,
                y: *y,
                sequence: *sequence,
            },
            ConnectionEvent::StalePointerPackets { count } => {
                ConnectionEvent::StalePointerPackets { count: *count }
            },
            ConnectionEvent::Error(error) => ConnectionEvent::Error(error.clone()),
        }
    }
}

impl ConnectionEventView {
    /// The connection cannot be used any more: it was lost, it failed, or the peer
    /// reported an error.
    pub open spec fn terminal(self) -> bool {
        self is Disconnected || self is Error || (self matches ConnectionEventView::Message(m)
            && m is Error)
    }
}

/// Whether the connection was lost, failed, or the peer reported an error.
pub fn connection_event_is_terminal(event: &ConnectionEvent) -> (r: bool)
    ensures
        r == event@.terminal(),
{
    match event {
        ConnectionEvent::Disconnected(_) | ConnectionEvent::Error(_) => true,
        ConnectionEvent::Message(WireMessage::Error(_)) => true,
        _ => false,
    }
}

#[derive(Debug, PartialEq, Eq)]
pub enum ConnectionCommand {
    SendReliable(WireMessage),
    SendLatestPointer { x: i32, y: i32 },
    Stop,
}

pub enum CommandView {
    SendReliable(MessageView),
    SendLatestPointer { x: i32, y: i32 },
    Stop,
}

impl View for ConnectionCommand {
    type V = CommandView;

    open spec fn view(&self) -> CommandView {
        match self {
            ConnectionCommand::SendReliable(message) => CommandView::SendReliable(message@),
            ConnectionCommand::SendLatestPointer { x, y } => CommandView::SendLatestPointer {
                x: *x,
                y: *y,
            },
            ConnectionCommand::Stop => CommandView::Stop,
        }
    }
}

/// Where and how the two computers reach each other.
#[derive(Debug, PartialEq, Eq)]
pub struct TransportSettings {
    pub mode: TransportMode,
    pub host: String,
    pub reliable_port: u16,
    pub pointer_port: u16,
}

/// The settings of the controller's connection.
pub fn controller_transport_settings(config: &AppConfig) -> (r: TransportSettings)
    ensures
        r == (TransportSettings {
            mode: config.controller.transport_mode,
            host: config.controller.agent_host,
            reliable_port: config.controller.agent_port,
            pointer_port: config.controller.pointer_port,
        }),
{
    TransportSettings {
        mode: config.controller.transport_mode,
        host: config.controller.agent_host.clone(),
        reliable_port: config.controller.agent_port,
        pointer_port: config.controller.pointer_port,
    }
}

/// The settings of the agent's listener.
pub fn agent_transport_settings(config: &AppConfig) -> (r: TransportSettings)
    ensures
        r == (TransportSettings {
            mode: config.agent.transport_mode,
            host: config.agent.listen_host,
            reliable_port: config.agent.listen_port,
            pointer_port: config.agent.pointer_port,
        }),
{
    TransportSettings {
        mode: config.agent.transport_mode,
        host: config.agent.listen_host.clone(),
        reliable_port: config.agent.listen_port,
        pointer_port: config.agent.pointer_port,
    }
}

/// The transport that a configuration's role uses.
pub open spec fn mode_of(config: AppConfig) -> TransportMode {
    match config.role {
        Role::Controller => config.controller.transport_mode,
        Role::Agent => config.agent.transport_mode,
    }
}

/// The transport that a configuration's role uses.
pub fn runtime_transport_mode(config: &AppConfig) -> (r: TransportMode)
    ensures
        r == mode_of(*config),
{
    match config.role {
        Role::Controller => config.controller.transport_mode,
        Role::Agent => config.agent.transport_mode,
    }
}

/// What a host name turned out to be.
#[derive(Debug, PartialEq, Eq)]
pub enum HostKind {
    /// The text of an IPv4 address, in its canonical form.
    V4(String),
    /// The text of an IPv6 address, in its canonical form.
    V6(String),
    /// Not an address.
    Name,
}

/// Host and port of a TCP endpoint.
#[derive(Debug, PartialEq, Eq)]
pub struct TcpConnectionSettings {
    pub host: String,
    pub port: u16,
}

/// An endpoint as text: IPv6 addresses stand in brackets.
pub open spec fn endpoint_text(host: Seq<char>, port: u16, kind: HostKind) -> Seq<char> {
    match kind {
        HostKind::V4(ip) => ip@ + ":"@ + decimal(port as nat),
        HostKind::V6(ip) => "["@ + ip@ + "]:"@ + decimal(port as nat),
        HostKind::Name => host + ":"@ + decimal(port as nat),
    }
}

impl TcpConnectionSettings {
    /// The endpoint as text. `kind` tells what the host is.
    pub fn peer_addr(&self, kind: &HostKind) -> (r: String)
        ensures
            r@ == endpoint_text(self.host@, self.port, *kind),
    {
        addr_string(self.host.as_str(), self.port, kind)
    }
}

/// An endpoint as text. `kind` tells what the host is.
pub fn addr_string(host: &str, port: u16, kind: &HostKind) -> (r: String)
    ensures
        r@ == endpoint_text(host@, port, *kind),
{
    let port_text = number(port as u64);
    match kind {
        HostKind::V4(ip) => join3(ip.as_str(), ":", port_text.as_str()),
        HostKind::V6(ip) => join4("[", ip.as_str(), "]:", port_text.as_str()),
        HostKind::Name => join3(host, ":", port_text.as_str()),
    }
}

/// Each role connects with its own settings: the controller to the agent's host and ports,
/// the agent on those on which it listens.
pub proof fn law_roles_have_their_own_settings(
    config: &AppConfig,
    controller: TransportSettings,
    agent: TransportSettings,
)
    requires
        call_ensures(controller_transport_settings, (config,), controller),
        call_ensures(agent_transport_settings, (config,), agent),
    ensures
        controller.host@ == config.controller.agent_host@,
        controller.reliable_port == config.controller.agent_port,
        controller.pointer_port == config.controller.pointer_port,
        controller.mode == config.controller.transport_mode,
        agent.host@ == config.agent.listen_host@,
        agent.reliable_port == config.agent.listen_port,
        agent.pointer_port == config.agent.pointer_port,
        agent.mode == config.agent.transport_mode,
        config.role == Role::Controller ==> mode_of(*config) == controller.mode,
        config.role == Role::Agent ==> mode_of(*config) == agent.mode,
{
}

/// An endpoint is written with its host first and its port last; an IPv6 address alone
/// stands in brackets.
pub proof fn law_endpoints_name_host_and_port(host: Seq<char>, port: u16, kind: HostKind)
    ensures
        ({
            let text = endpoint_text(host, port, kind);
            let digits = decimal(port as nat);
            &&& digits.is_suffix_of(text)
            &&& text[text.len() - digits.len() - 1] == ':'
            &&& kind is Name ==> host.is_prefix_of(text) && text.len() == host.len() + 1
                + digits.len()
            &&& kind matches HostKind::V4(ip) ==> ip@.is_prefix_of(text) && text.len()
                == ip@.len() + 1 + digits.len()
            &&& kind matches HostKind::V6(ip) ==> {
                &&& text[0] == '['
                &&& text.subrange(1, ip@.len() as int + 1) == ip@
                &&& text[ip@.len() as int + 1] == ']'
                &&& text.len() == ip@.len() + 3 + digits.len()
            }
        }),
{
    reveal_strlit(":");
    reveal_strlit("[");
    reveal_strlit("]:");
    let text = endpoint_text(host, port, kind);
    let digits = decimal(port as nat);
    assert(text.subrange(text.len() - digits.len(), text.len() as int) =~= digits);
    match kind {
        HostKind::V4(ip) => {
            assert(text.subrange(0, ip@.len() as int) =~= ip@);
        },
        HostKind::V6(ip) => {
            assert(text.subrange(1, ip@.len() as int + 1) =~= ip@);
        },
        HostKind::Name => {
            assert(text.subrange(0, host.len() as int) =~= host);
        },
    }
}

/// A connection is over exactly after it was lost or failed or the peer reported an error.
pub proof fn law_connections_end_with_an_error_or_a_loss(event: ConnectionEventView)
    ensures
        event.terminal() <==> event is Disconnected || event is Error || (event is Message
            && event->Message_0 is Error),
{
}

} // verus!
