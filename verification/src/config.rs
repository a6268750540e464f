//! Configuration of the program.
use vstd::prelude::*;

verus! {

#[derive(Clone, Copy, Debug, PartialEq, Eq, Structural)]
pub enum Role {
    Controller,
    Agent,
}

/// Where the other desktop lies as seen from the controller.
#[derive(Clone, Copy, Debug, PartialEq, Eq, Structural)]
pub enum RemotePosition {
    Left,
    Right,
    Top,
    Bottom,
}

#[derive(Clone, Copy, Debug, PartialEq, Eq, Structural)]
pub enum TransportMode {
    Tcp,
    Kcp,
}

#[derive(Debug, PartialEq, Eq)]
pub struct ControllerConfig {
    pub agent_host: String,
    pub agent_port: u16,
    pub transport_mode: TransportMode,
    pub pointer_port: u16,
    pub remote_position: RemotePosition,
}

#[derive(Debug, PartialEq, Eq)]
pub struct AgentConfig {
    pub listen_host: String,
    pub listen_port: u16,
    pub transport_mode: TransportMode,
    pub pointer_port: u16,
}

#[derive(Debug, PartialEq, Eq)]
pub struct SharingConfig {
    pub clipboard_text: bool,
    pub clipboard_html: bool,
    pub clipboard_images: bool,
    pub file_copy_paste: bool,
    pub real_file_drag_drop: bool,
    pub max_clipboard_bytes: u64,
    pub max_file_transfer_bytes: u64,
    pub bulk_transfer_port: u16,
    pub incoming_cache_dir: String,
}

#[derive(Debug, PartialEq, Eq)]
pub struct AppConfig {
    pub role: Role,
    pub edge_trigger_px: i32,
    pub debug_logging: bool,
    pub controller: ControllerConfig,
    pub agent: AgentConfig,
    pub sharing: SharingConfig,
}

impl Clone for AppConfig {
    fn clone(&self) -> (r: Self)
        ensures
            r == *self,
    {
        AppConfig {
            role: self.role,
            edge_trigger_px: self.edge_trigger_px,
            debug_logging: self.debug_logging,
            controller: ControllerConfig {
                agent_host: self.controller.agent_host.clone(),
                agent_port: self.controller.agent_port,
                transport_mode: self.controller.transport_mode,
                pointer_port: self.controller.pointer_port,
                remote_position: self.controller.remote_position,
            },
            agent: AgentConfig {
                listen_host: self.agent.listen_host.clone(),
                listen_port: self.agent.listen_port,
                transport_mode: self.agent.transport_mode,
                pointer_port: self.agent.pointer_port,
            },
            sharing: SharingConfig {
                clipboard_text: self.sharing.clipboard_text,
                clipboard_html: self.sharing.clipboard_html,
                clipboard_images: self.sharing.clipboard_images,
                file_copy_paste: self.sharing.file_copy_paste,
                real_file_drag_drop: self.sharing.real_file_drag_drop,
                max_clipboard_bytes: self.sharing.max_clipboard_bytes,
                max_file_transfer_bytes: self.sharing.max_file_transfer_bytes,
                bulk_transfer_port: self.sharing.bulk_transfer_port,
                incoming_cache_dir: self.sharing.incoming_cache_dir.clone(),
            },
        }
    }
}

/// Why a configuration cannot be used.
#[derive(Debug, PartialEq, Eq)]
pub struct ConfigError {
    message: String,
}

impl View for ConfigError {
    type V = Seq<char>;

    closed spec fn view(&self) -> Seq<char> {
        self.message@
    }
}

impl ConfigError {
    pub fn new(message: &str) -> (r: Self)
        ensures
            r@ == message@,
    {
        Self { message: message.to_owned() }
    }

    /// The message as text.
    pub fn to_text(&self) -> (r: String)
        ensures
            r@ == self@,
    {
        self.message.clone()
    }
}

/// The characters that Unicode classes as white space.
pub open spec fn white_space(c: char) -> bool {
    ||| '\u{9}' <= c <= '\u{d}'
    ||| c == ' '
    ||| c == '\u{85}'
    ||| c == '\u{a0}'
    ||| c == '\u{1680}'
    ||| '\u{2000}' <= c <= '\u{200a}'
    ||| c == '\u{2028}'
    ||| c == '\u{2029}'
    ||| c == '\u{202f}'
    ||| c == '\u{205f}'
    ||| c == '\u{3000}'
}

pub fn is_white_space(c: char) -> (r: bool)
    ensures
        r == white_space(c),
{
    ('\u{9}' <= c && c <= '\u{d}') || c == ' ' || c == '\u{85}' || c == '\u{a0}' || c == '\u{1680}'
        || ('\u{2000}' <= c && c <= '\u{200a}') || c == '\u{2028}' || c == '\u{2029}' || c
        == '\u{202f}' || c == '\u{205f}' || c == '\u{3000}'
}

/// Text that holds nothing but white space.
pub open spec fn blank(s: Seq<char>) -> bool {
    forall|i: int| 0 <= i < s.len() ==> white_space(#[trigger] s[i])
}

/// Whether trimming white space leaves nothing.
pub fn is_blank(s: &str) -> (r: bool)
    ensures
        r == blank(s@),
{
    let len: usize = s.unicode_len();
    let mut i: usize = 0;
    while i < len
        invariant
            i <= len,
            len == s@.len(),
            forall|j: int| 0 <= j < i ==> white_space(#[trigger] s@[j]),
        decreases len - i,
    {
        if !is_white_space(s.get_char(i)) {
            return false;
        }
        i = i + 1;
    }
    true
}

/// The first rule that a configuration breaks, if any. `listen_host_is_ip` tells
/// whether `agent.listen_host` is the text of an IP address.
pub open spec fn first_problem(config: AppConfig, listen_host_is_ip: bool) -> Option<Seq<char>> {
    if config.edge_trigger_px < 1 || config.edge_trigger_px > 32 {
        Some("edge_trigger_px must be between 1 and 32"@)
    } else if config.controller.agent_port == 0 {
        Some("controller.agent_port must be greater than 0"@)
    } else if config.controller.pointer_port == 0 {
        Some("controller.pointer_port must be greater than 0"@)
    } else if config.agent.listen_port == 0 {
        Some("agent.listen_port must be greater than 0"@)
    } else if config.agent.pointer_port == 0 {
        Some("agent.pointer_port must be greater than 0"@)
    } else if config.sharing.bulk_transfer_port == 0 {
        Some("sharing.bulk_transfer_port must be greater than 0"@)
    } else if config.sharing.max_clipboard_bytes == 0 {
        Some("sharing.max_clipboard_bytes must be greater than 0"@)
    } else if config.sharing.max_file_transfer_bytes == 0 {
        Some("sharing.max_file_transfer_bytes must be greater than 0"@)
    } else if blank(config.sharing.incoming_cache_dir@) {
        Some("sharing.incoming_cache_dir must not be empty"@)
    } else if blank(config.controller.agent_host@) {
        Some("controller.agent_host must not be empty"@)
    } else if !listen_host_is_ip {
        Some("agent.listen_host must be an IP address"@)
    } else {
        None
    }
}

/// The configuration a fresh installation starts with.
pub open spec fn is_default(config: AppConfig) -> bool {
    &&& config.role == Role::Controller
    &&& config.edge_trigger_px == 2
    &&& !config.debug_logging
    &&& config.controller.agent_host@ == "192.168.1.2"@
    &&& config.controller.agent_port == 24800
    &&& config.controller.transport_mode == TransportMode::Tcp
    &&& config.controller.pointer_port == 24801
    &&& config.controller.remote_position == RemotePosition::Right
    &&& config.agent.listen_host@ == "0.0.0.0"@
    &&& config.agent.listen_port == 24800
    &&& config.agent.transport_mode == TransportMode::Tcp
    &&& config.agent.pointer_port == 24801
    &&& config.sharing.clipboard_text
    &&& config.sharing.clipboard_html
    &&& config.sharing.clipboard_images
    &&& config.sharing.file_copy_paste
    &&& config.sharing.real_file_drag_drop
    &&& config.sharing.max_clipboard_bytes == 32 * 1024 * 1024
    &&& config.sharing.max_file_transfer_bytes == 20 * 1024 * 1024 * 1024
    &&& config.sharing.bulk_transfer_port == 24802
    &&& config.sharing.incoming_cache_dir@ == "%LOCALAPPDATA%\\Borderless\\Incoming"@
}

impl Default for AppConfig {
    fn default() -> (r: Self)
        ensures
            is_default(r),
    {
        Self {
            role: Role::Controller,
            edge_trigger_px: 2,
            debug_logging: false,
            controller: ControllerConfig {
                agent_host: "192.168.1.2".to_owned(),
                agent_port: 24800,
                transport_mode: TransportMode::Tcp,
                pointer_port: 24801,
                remote_position: RemotePosition::Right,
            },
            agent: AgentConfig {
                listen_host: "0.0.0.0".to_owned(),
                listen_port: 24800,
                transport_mode: TransportMode::Tcp,
                pointer_port: 24801,
            },
            sharing: SharingConfig {
                clipboard_text: true,
                clipboard_html: true,
                clipboard_images: true,
                file_copy_paste: true,
                real_file_drag_drop: true,
                max_clipboard_bytes: 32 * 1024 * 1024,
                max_file_transfer_bytes: 20 * 1024 * 1024 * 1024,
                bulk_transfer_port: 24802,
                incoming_cache_dir: "%LOCALAPPDATA%\\Borderless\\Incoming".to_owned(),
            },
        }
    }
}

impl AppConfig {
    /// Checks the configuration. `listen_host_is_ip` tells whether
    /// `agent.listen_host` is the text of an IP address.
    pub fn validate(&self, listen_host_is_ip: bool) -> (r: Result<(), ConfigError>)
        ensures
            match first_problem(*self, listen_host_is_ip) {
                None => r is Ok,
                Some(message) => r matches Err(error) && error@ == message,
            },
    {
        if self.edge_trigger_px < 1 || self.edge_trigger_px > 32 {
            return Err(ConfigError::new("edge_trigger_px must be between 1 and 32"));
        }
        if self.controller.agent_port == 0 {
            return Err(ConfigError::new("controller.agent_port must be greater than 0"));
        }
        if self.controller.pointer_port == 0 {
            return Err(ConfigError::new("controller.pointer_port must be greater than 0"));
        }
        if self.agent.listen_port == 0 {
            return Err(ConfigError::new("agent.listen_port must be greater than 0"));
        }
        if self.agent.pointer_port == 0 {
            return Err(ConfigError::new("agent.pointer_port must be greater than 0"));
        }
        if self.sharing.bulk_transfer_port == 0 {
            return Err(ConfigError::new("sharing.bulk_transfer_port must be greater than 0"));
        }
        if self.sharing.max_clipboard_bytes == 0 {
            return Err(ConfigError::new("sharing.max_clipboard_bytes must be greater than 0"));
        }
        if self.sharing.max_file_transfer_bytes == 0 {
            return Err(ConfigError::new("sharing.max_file_transfer_bytes must be greater than 0"));
        }
        if is_blank(self.sharing.incoming_cache_dir.as_str()) {
            return Err(ConfigError::new("sharing.incoming_cache_dir must not be empty"));
        }
        if is_blank(self.controller.agent_host.as_str()) {
            return Err(ConfigError::new("controller.agent_host must not be empty"));
        }
        if !listen_host_is_ip {
            return Err(ConfigError::new("agent.listen_host must be an IP address"));
        }
        Ok(())
    }
}

/// The default configuration passes validation.
pub proof fn law_default_config_is_valid(config: AppConfig)
    requires
        is_default(config),
    ensures
        first_problem(config, true) is None,
{
    reveal_strlit("192.168.1.2");
    reveal_strlit("%LOCALAPPDATA%\\Borderless\\Incoming");
    assert(config.controller.agent_host@[0] == '1');
    assert(config.sharing.incoming_cache_dir@[0] == '%');
}

/// A configuration can be used exactly if the strip at the edge has between one and 32
/// pixels, every port and limit is more than zero, the cache directory and the agent's
/// host are not blank, and the agent listens on an IP address.
pub proof fn law_usable_configs(config: AppConfig, listen_host_is_ip: bool)
    ensures
        first_problem(config, listen_host_is_ip) is None <==> {
            &&& 1 <= config.edge_trigger_px <= 32
            &&& config.controller.agent_port > 0
            &&& config.controller.pointer_port > 0
            &&& config.agent.listen_port > 0
            &&& config.agent.pointer_port > 0
            &&& config.sharing.bulk_transfer_port > 0
            &&& config.sharing.max_clipboard_bytes > 0
            &&& config.sharing.max_file_transfer_bytes > 0
            &&& !blank(config.sharing.incoming_cache_dir@)
            &&& !blank(config.controller.agent_host@)
            &&& listen_host_is_ip
        },
{
}

/// Of a configuration that breaks a single rule, that rule is named.
pub proof fn law_the_broken_rule_is_named(config: AppConfig, listen_host_is_ip: bool)
    ensures
        ({
            let strip = 1 <= config.edge_trigger_px <= 32;
            let agent_port = config.controller.agent_port > 0;
            let pointer_port = config.controller.pointer_port > 0;
            let listen_port = config.agent.listen_port > 0;
            let agent_pointer_port = config.agent.pointer_port > 0;
            let bulk_port = config.sharing.bulk_transfer_port > 0;
            let clipboard = config.sharing.max_clipboard_bytes > 0;
            let transfer = config.sharing.max_file_transfer_bytes > 0;
            let cache = !blank(config.sharing.incoming_cache_dir@);
            let host = !blank(config.controller.agent_host@);
            let problem = first_problem(config, listen_host_is_ip);
            let ports = agent_port && pointer_port && listen_port && agent_pointer_port && bulk_port;
            let limits = clipboard && transfer;
            let texts = cache && host && listen_host_is_ip;
            &&& !strip ==> problem == Some("edge_trigger_px must be between 1 and 32"@)
            &&& strip && !agent_port ==> problem == Some(
                "controller.agent_port must be greater than 0"@,
            )
            &&& strip && agent_port && !pointer_port ==> problem == Some(
                "controller.pointer_port must be greater than 0"@,
            )
            &&& strip && agent_port && pointer_port && !listen_port ==> problem == Some(
                "agent.listen_port must be greater than 0"@,
            )
            &&& strip && agent_port && pointer_port && listen_port && !agent_pointer_port
                ==> problem == Some("agent.pointer_port must be greater than 0"@)
            &&& strip && agent_port && pointer_port && listen_port && agent_pointer_port
                && !bulk_port ==> problem == Some(
                "sharing.bulk_transfer_port must be greater than 0"@,
            )
            &&& strip && ports && !clipboard ==> problem == Some(
                "sharing.max_clipboard_bytes must be greater than 0"@,
            )
            &&& strip && ports && clipboard && !transfer ==> problem == Some(
                "sharing.max_file_transfer_bytes must be greater than 0"@,
            )
            &&& strip && ports && limits && !cache ==> problem == Some(
                "sharing.incoming_cache_dir must not be empty"@,
            )
            &&& strip && ports && limits && cache && !host ==> problem == Some(
                "controller.agent_host must not be empty"@,
            )
            &&& strip && ports && limits && cache && host && !listen_host_is_ip ==> problem == Some(
                "agent.listen_host must be an IP address"@,
            )
        }),
{
}

/// A text is blank exactly if no part of it is not: texts that are put together are blank
/// exactly if both are, the empty text is, and one with a printed ASCII character is not.
pub proof fn law_blank_texts(a: Seq<char>, b: Seq<char>, c: char)
    ensures
        blank(a + b) <==> blank(a) && blank(b),
        blank(Seq::empty()),
        '!' <= c <= '~' ==> !blank(a.push(c)),
        c == ' ' || c == '\t' || c == '\n' || c == '\r' ==> (blank(a.push(c)) <==> blank(a)),
{
    assert forall|i: int| 0 <= i < a.len() implies (a + b)[i] == a[i] by {}
    assert forall|i: int| 0 <= i < b.len() implies (a + b)[a.len() + i] == b[i] by {}
    if blank(a + b) {
        assert forall|i: int| 0 <= i < a.len() implies white_space(#[trigger] a[i]) by {
            assert(white_space((a + b)[i]));
        }
        assert forall|i: int| 0 <= i < b.len() implies white_space(#[trigger] b[i]) by {
            assert(white_space((a + b)[a.len() + i]));
        }
    }
    let longer = a.push(c);
    assert(longer[a.len() as int] == c);
    if blank(longer) {
        assert(white_space(longer[a.len() as int]));
        assert forall|i: int| 0 <= i < a.len() implies white_space(#[trigger] a[i]) by {
            assert(white_space(longer[i]));
        }
    }
}

/// Roles, sharing and addresses of a fresh installation: it controls an agent on the
/// right, everything is shared, and the three channels have ports of their own.
pub proof fn law_default_config_shares_everything(config: AppConfig)
    requires
        is_default(config),
    ensures
        config.role == Role::Controller,
        config.controller.remote_position == RemotePosition::Right,
        config.controller.transport_mode == config.agent.transport_mode,
        config.controller.transport_mode == TransportMode::Tcp,
        config.controller.agent_port == config.agent.listen_port,
        config.controller.pointer_port == config.agent.pointer_port,
        config.controller.agent_port == 24800,
        config.controller.pointer_port == 24801,
        config.sharing.bulk_transfer_port == 24802,
        config.sharing.clipboard_text && config.sharing.clipboard_html
            && config.sharing.clipboard_images && config.sharing.file_copy_paste
            && config.sharing.real_file_drag_drop,
        config.sharing.max_clipboard_bytes == 0x200_0000,
        config.sharing.max_file_transfer_bytes == 0x5_0000_0000,
        config.edge_trigger_px == 2,
{
}

} // verus!
