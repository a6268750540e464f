//! The settings as the window holds them, and the configuration that they make.
use crate::config::{
    is_white_space, first_problem, white_space, AgentConfig, AppConfig, ControllerConfig,
    RemotePosition, Role, SharingConfig,
};
use crate::text::{decimal, digit_char, join2, number};
use vstd::prelude::*;
use vstd::string::StrSliceExecFns;

verus! {

/// A text without the white space at its start.
pub open spec fn trimmed_start(text: Seq<char>) -> Seq<char>
    decreases text.len(),
{
    if text.len() > 0 && white_space(text[0]) {
        trimmed_start(text.skip(1))
    } else {
        text
    }
}

/// A text without the white space at its end.
pub open spec fn trimmed_end(text: Seq<char>) -> Seq<char>
    decreases text.len(),
{
    if text.len() > 0 && white_space(text.last()) {
        trimmed_end(text.drop_last())
    } else {
        text
    }
}

/// A text without the white space around it.
pub open spec fn trimmed(text: Seq<char>) -> Seq<char> {
    trimmed_end(trimmed_start(text))
}

pub open spec fn is_digit(c: char) -> bool {
    '0' <= c <= '9'
}

pub open spec fn all_digits(text: Seq<char>) -> bool {
    forall|i: int| 0 <= i < text.len() ==> is_digit(#[trigger] text[i])
}

/// The number that digits stand for.
pub open spec fn digits_value(text: Seq<char>) -> nat
    decreases text.len(),
{
    if text.len() == 0 {
        0
    } else {
        digits_value(text.drop_last()) * 10 + (text.last() as u32 - '0' as u32) as nat
    }
}

/// The digits of a number, after a plus sign if there is one.
pub open spec fn digits_of(text: Seq<char>) -> Seq<char> {
    if text.len() > 0 && text[0] == '+' { text.skip(1) } else { text }
}

/// The number that a text stands for, if it is one of 64 bits.
pub open spec fn parsed(text: Seq<char>) -> Option<u64> {
    let digits = digits_of(text);
    if digits.len() > 0 && all_digits(digits) && digits_value(digits) <= u64::MAX {
        Some(digits_value(digits) as u64)
    } else {
        None
    }
}

/// The number in a setting, or why it is none.
pub open spec fn parsed_setting(value: Seq<char>, label: Seq<char>) -> Result<u64, Seq<char>> {
    let text = trimmed(value);
    if text.len() == 0 {
        Err(label + "不能为空"@)
    } else {
        match parsed(text) {
            Some(number) => Ok(number),
            None => Err(label + "必须是正整数"@),
        }
    }
}

fn text_chars(text: &str) -> (r: Vec<char>)
    ensures
        r@ == text@,
{
    let count = text.unicode_len();
    let mut chars: Vec<char> = Vec::new();
    let mut i: usize = 0;
    while i < count
        invariant
            i <= count,
            count == text@.len(),
            chars@ == text@.take(i as int),
        decreases count - i,
    {
        chars.push(text.get_char(i));
        assert(chars@ =~= text@.take(i as int + 1));
        i = i + 1;
    }
    assert(text@.take(count as int) =~= text@);
    chars
}

fn trim(text: &str) -> (r: Vec<char>)
    ensures
        r@ == trimmed(text@),
{
    let chars = text_chars(text);
    let mut start: usize = 0;
    assert(chars@.skip(0) =~= chars@);
    while start < chars.len() && is_white_space(chars[start])
        invariant
            start <= chars@.len(),
            trimmed_start(chars@.skip(start as int)) == trimmed_start(text@),
        decreases chars@.len() - start,
    {
        proof {
            let rest = chars@.skip(start as int);
            assert(rest[0] == chars@[start as int]);
            assert(rest.skip(1) =~= chars@.skip(start as int + 1));
        }
        start = start + 1;
    }
    let ghost rest = chars@.skip(start as int);
    assert(rest == trimmed_start(text@));
    let mut end: usize = chars.len();
    assert(rest.take(rest.len() as int) =~= rest);
    while end > start && is_white_space(chars[end - 1])
        invariant
            start <= end <= chars@.len(),
            rest == chars@.skip(start as int),
            trimmed_end(rest.take(end - start)) == trimmed_end(rest),
        decreases end - start,
    {
        proof {
            let kept = rest.take(end - start);
            assert(kept.last() == chars@[end as int - 1]);
            assert(kept.drop_last() =~= rest.take(end - 1 - start));
        }
        end = end - 1;
    }
    proof {
        let kept = rest.take(end - start);
        if end > start {
            assert(kept.last() == chars@[end as int - 1]);
        }
        assert(trimmed_end(kept) == kept);
    }
    let mut out: Vec<char> = Vec::new();
    let mut i: usize = start;
    while i < end
        invariant
            start <= i <= end <= chars@.len(),
            rest == chars@.skip(start as int),
            out@ == rest.take(i - start),
        decreases end - i,
    {
        out.push(chars[i]);
        assert(out@ =~= rest.take(i + 1 - start));
        i = i + 1;
    }
    out
}

proof fn lemma_value_grows(text: Seq<char>, n: int)
    requires
        all_digits(text),
        0 <= n <= text.len(),
    ensures
        digits_value(text.take(n)) <= digits_value(text),
    decreases text.len(),
{
    if n == text.len() {
        assert(text.take(n) =~= text);
    } else {
        let shorter = text.drop_last();
        assert(all_digits(shorter));
        lemma_value_grows(shorter, n);
        assert(shorter.take(n) =~= text.take(n));
        assert(is_digit(text.last()));
    }
}

fn parse_number(text: &Vec<char>) -> (r: Option<u64>)
    ensures
        r == parsed(text@),
{
    let start: usize = if text.len() > 0 && text[0] == '+' {
        1
    } else {
        0
    };
    let ghost digits = digits_of(text@);
    assert(digits =~= text@.skip(start as int));
    if start == text.len() {
        return None;
    }
    let mut value: u64 = 0;
    let mut i: usize = start;
    assert(digits.take(0) =~= Seq::<char>::empty());
    while i < text.len()
        invariant
            start <= i <= text@.len(),
            digits == digits_of(text@),
            digits == text@.skip(start as int),
            forall|j: int| 0 <= j < i - start ==> is_digit(#[trigger] digits[j]),
            value == digits_value(digits.take(i - start)),
        decreases text@.len() - i,
    {
        let c: char = text[i];
        assert(digits[i - start] == c);
        if !('0' <= c && c <= '9') {
            return None;
        }
        let next: u128 = value as u128 * 10 + (c as u32 - '0' as u32) as u128;
        proof {
            let longer = digits.take(i + 1 - start);
            assert(longer.drop_last() =~= digits.take(i - start));
            assert(longer.last() == c);
            assert(next == digits_value(longer));
        }
        if next > u64::MAX as u128 {
            proof {
                if all_digits(digits) {
                    lemma_value_grows(digits, i + 1 - start);
                }
            }
            return None;
        }
        value = next as u64;
        i = i + 1;
    }
    assert(digits.take(digits.len() as int) =~= digits);
    Some(value)
}

/// The number in a setting of the window.
pub fn parse_u64_setting(value: &str, label: &str) -> (r: Result<u64, String>)
    ensures
        match parsed_setting(value@, label@) {
            Ok(number) => r == Ok::<u64, String>(number),
            Err(message) => (r matches Err(error) && error@ == message),
        },
{
    let text = trim(value);
    if text.len() == 0 {
        return Err(join2(label, "不能为空"));
    }
    match parse_number(&text) {
        Some(number) => Ok(number),
        None => Err(join2(label, "必须是正整数")),
    }
}

/// The position that an entry of the list stands for.
pub open spec fn position_at(index: i32) -> RemotePosition {
    if index == 0 {
        RemotePosition::Left
    } else if index == 2 {
        RemotePosition::Top
    } else if index == 3 {
        RemotePosition::Bottom
    } else {
        RemotePosition::Right
    }
}

/// The entry of the list that stands for a position.
pub open spec fn index_of_position(position: RemotePosition) -> i32 {
    match position {
        RemotePosition::Left => 0,
        RemotePosition::Right => 1,
        RemotePosition::Top => 2,
        RemotePosition::Bottom => 3,
    }
}

pub fn position_from_index(index: i32) -> (r: RemotePosition)
    ensures
        r == position_at(index),
{
    if index == 0 {
        RemotePosition::Left
    } else if index == 2 {
        RemotePosition::Top
    } else if index == 3 {
        RemotePosition::Bottom
    } else {
        RemotePosition::Right
    }
}

pub fn position_index(position: RemotePosition) -> (r: i32)
    ensures
        r == index_of_position(position),
{
    match position {
        RemotePosition::Left => 0,
        RemotePosition::Right => 1,
        RemotePosition::Top => 2,
        RemotePosition::Bottom => 3,
    }
}

/// The settings that can be changed at a glance.
#[derive(Debug, PartialEq, Eq)]
pub struct ConfigDraft {
    pub role: Role,
    pub target_host: String,
    pub target_port: u16,
    pub listen_host: String,
    pub listen_port: u16,
    pub remote_position: RemotePosition,
    pub clipboard_text: bool,
    pub clipboard_html: bool,
    pub clipboard_images: bool,
    pub file_copy_paste: bool,
    pub file_drag_drop: bool,
}

/// A configuration with the settings of a draft; everything else stays.
pub open spec fn drafted(config: AppConfig, draft: ConfigDraft) -> AppConfig {
    AppConfig {
        role: draft.role,
        controller: ControllerConfig {
            agent_host: draft.target_host,
            agent_port: draft.target_port,
            remote_position: draft.remote_position,
            ..config.controller
        },
        agent: AgentConfig {
            listen_host: draft.listen_host,
            listen_port: draft.listen_port,
            ..config.agent
        },
        sharing: SharingConfig {
            clipboard_text: draft.clipboard_text,
            clipboard_html: draft.clipboard_html,
            clipboard_images: draft.clipboard_images,
            file_copy_paste: draft.file_copy_paste,
            real_file_drag_drop: draft.file_drag_drop,
            ..config.sharing
        },
        ..config
    }
}

impl ConfigDraft {
    pub fn apply_to(&self, config: &mut AppConfig)
        ensures
            *final(config) == drafted(*old(config), *self),
    {
        config.role = self.role;
        config.controller.agent_host = self.target_host.clone();
        config.controller.agent_port = self.target_port;
        config.controller.remote_position = self.remote_position;
        config.agent.listen_host = self.listen_host.clone();
        config.agent.listen_port = self.listen_port;
        config.sharing.clipboard_text = self.clipboard_text;
        config.sharing.clipboard_html = self.clipboard_html;
        config.sharing.clipboard_images = self.clipboard_images;
        config.sharing.file_copy_paste = self.file_copy_paste;
        config.sharing.real_file_drag_drop = self.file_drag_drop;
    }
}

/// What the fields of the window hold.
#[derive(Debug, PartialEq, Eq)]
pub struct WindowSettings {
    pub controller_role: bool,
    pub target_host: String,
    pub target_port: i32,
    pub listen_host: String,
    pub listen_port: i32,
    pub remote_position_index: i32,
    pub clipboard_text: bool,
    pub clipboard_html: bool,
    pub clipboard_images: bool,
    pub file_copy_paste: bool,
    pub file_drag_drop: bool,
    pub bulk_port: i32,
    pub cache_directory: String,
    pub max_clipboard_bytes: String,
    pub max_file_bytes: String,
    pub edge_trigger_px: i32,
    pub debug_logging: bool,
}

/// The window shows a configuration.
pub open spec fn shows(settings: WindowSettings, config: AppConfig) -> bool {
    &&& settings.controller_role == (config.role == Role::Controller)
    &&& settings.target_host == config.controller.agent_host
    &&& settings.target_port == config.controller.agent_port
    &&& settings.listen_host == config.agent.listen_host
    &&& settings.listen_port == config.agent.listen_port
    &&& settings.remote_position_index == index_of_position(config.controller.remote_position)
    &&& settings.clipboard_text == config.sharing.clipboard_text
    &&& settings.clipboard_html == config.sharing.clipboard_html
    &&& settings.clipboard_images == config.sharing.clipboard_images
    &&& settings.file_copy_paste == config.sharing.file_copy_paste
    &&& settings.file_drag_drop == config.sharing.real_file_drag_drop
    &&& settings.bulk_port == config.sharing.bulk_transfer_port
    &&& settings.cache_directory == config.sharing.incoming_cache_dir
    &&& settings.max_clipboard_bytes@ == decimal(config.sharing.max_clipboard_bytes as nat)
    &&& settings.max_file_bytes@ == decimal(config.sharing.max_file_transfer_bytes as nat)
    &&& settings.edge_trigger_px == config.edge_trigger_px
    &&& settings.debug_logging == config.debug_logging
}

/// What the fields of the window hold for a configuration.
pub fn apply_config_to_window(config: &AppConfig) -> (r: WindowSettings)
    ensures
        shows(r, *config),
{
    WindowSettings {
        controller_role: config.role == Role::Controller,
        target_host: config.controller.agent_host.clone(),
        target_port: config.controller.agent_port as i32,
        listen_host: config.agent.listen_host.clone(),
        listen_port: config.agent.listen_port as i32,
        remote_position_index: position_index(config.controller.remote_position),
        clipboard_text: config.sharing.clipboard_text,
        clipboard_html: config.sharing.clipboard_html,
        clipboard_images: config.sharing.clipboard_images,
        file_copy_paste: config.sharing.file_copy_paste,
        file_drag_drop: config.sharing.real_file_drag_drop,
        bulk_port: config.sharing.bulk_transfer_port as i32,
        cache_directory: config.sharing.incoming_cache_dir.clone(),
        max_clipboard_bytes: number(config.sharing.max_clipboard_bytes),
        max_file_bytes: number(config.sharing.max_file_transfer_bytes),
        edge_trigger_px: config.edge_trigger_px,
        debug_logging: config.debug_logging,
    }
}

/// A number that can be a port.
pub open spec fn port_in_range(port: i32) -> bool {
    0 <= port <= u16::MAX
}

/// The draft that the fields of the window make, or why they make none.
pub open spec fn draft_of(settings: WindowSettings) -> Result<ConfigDraft, Seq<char>> {
    if !port_in_range(settings.target_port) {
        Err("目标 TCP 端口超出范围"@)
    } else if !port_in_range(settings.listen_port) {
        Err("监听 TCP 端口超出范围"@)
    } else {
        Ok(
            ConfigDraft {
                role: if settings.controller_role { Role::Controller } else { Role::Agent },
                target_host: settings.target_host,
                target_port: settings.target_port as u16,
                listen_host: settings.listen_host,
                listen_port: settings.listen_port as u16,
                remote_position: position_at(settings.remote_position_index),
                clipboard_text: settings.clipboard_text,
                clipboard_html: settings.clipboard_html,
                clipboard_images: settings.clipboard_images,
                file_copy_paste: settings.file_copy_paste,
                file_drag_drop: settings.file_drag_drop,
            },
        )
    }
}

pub fn draft_from_window(settings: &WindowSettings) -> (r: Result<ConfigDraft, String>)
    ensures
        match draft_of(*settings) {
            Ok(draft) => r == Ok::<ConfigDraft, String>(draft),
            Err(message) => (r matches Err(error) && error@ == message),
        },
{
    if settings.target_port < 0 || settings.target_port > u16::MAX as i32 {
        return Err("目标 TCP 端口超出范围".to_string());
    }
    if settings.listen_port < 0 || settings.listen_port > u16::MAX as i32 {
        return Err("监听 TCP 端口超出范围".to_string());
    }
    Ok(
        ConfigDraft {
            role: if settings.controller_role { Role::Controller } else { Role::Agent },
            target_host: settings.target_host.clone(),
            target_port: settings.target_port as u16,
            listen_host: settings.listen_host.clone(),
            listen_port: settings.listen_port as u16,
            remote_position: position_from_index(settings.remote_position_index),
            clipboard_text: settings.clipboard_text,
            clipboard_html: settings.clipboard_html,
            clipboard_images: settings.clipboard_images,
            file_copy_paste: settings.file_copy_paste,
            file_drag_drop: settings.file_drag_drop,
        },
    )
}

/// A configuration with the advanced settings of the window, or why they cannot be
/// used. `listen_host_is_ip` tells whether its listen host is the text of an IP
/// address.
pub open spec fn advanced(
    config: AppConfig,
    settings: WindowSettings,
    listen_host_is_ip: bool,
) -> Result<AppConfig, Seq<char>> {
    if !port_in_range(settings.bulk_port) {
        Err("批量传输 TCP 端口超出范围"@)
    } else {
        match parsed_setting(settings.max_clipboard_bytes@, "最大剪贴板大小"@) {
            Err(message) => Err(message),
            Ok(max_clipboard_bytes) => match parsed_setting(
                settings.max_file_bytes@,
                "最大文件大小"@,
            ) {
                Err(message) => Err(message),
                Ok(max_file_transfer_bytes) => {
                    let next = AppConfig {
                        sharing: SharingConfig {
                            bulk_transfer_port: settings.bulk_port as u16,
                            incoming_cache_dir: settings.cache_directory,
                            max_clipboard_bytes,
                            max_file_transfer_bytes,
                            ..config.sharing
                        },
                        edge_trigger_px: settings.edge_trigger_px,
                        debug_logging: settings.debug_logging,
                        ..config
                    };
                    match first_problem(next, listen_host_is_ip) {
                        Some(message) => Err(message),
                        None => Ok(next),
                    }
                },
            },
        }
    }
}

/// What became of a configuration: the next one, or why there is none.
pub open spec fn config_result(r: Result<AppConfig, String>) -> Result<AppConfig, Seq<char>> {
    match r {
        Ok(config) => Ok(config),
        Err(error) => Err(error@),
    }
}

pub fn apply_advanced_from_window(
    settings: &WindowSettings,
    config: AppConfig,
    listen_host_is_ip: bool,
) -> (r: Result<AppConfig, String>)
    ensures
        config_result(r) == advanced(config, *settings, listen_host_is_ip),
{
    if settings.bulk_port < 0 || settings.bulk_port > u16::MAX as i32 {
        return Err("批量传输 TCP 端口超出范围".to_string());
    }
    let max_clipboard_bytes = match parse_u64_setting(
        settings.max_clipboard_bytes.as_str(),
        "最大剪贴板大小",
    ) {
        Ok(bytes) => bytes,
        Err(error) => return Err(error),
    };
    let max_file_transfer_bytes = match parse_u64_setting(
        settings.max_file_bytes.as_str(),
        "最大文件大小",
    ) {
        Ok(bytes) => bytes,
        Err(error) => return Err(error),
    };
    let mut next = config;
    next.sharing.bulk_transfer_port = settings.bulk_port as u16;
    next.sharing.incoming_cache_dir = settings.cache_directory.clone();
    next.sharing.max_clipboard_bytes = max_clipboard_bytes;
    next.sharing.max_file_transfer_bytes = max_file_transfer_bytes;
    next.edge_trigger_px = settings.edge_trigger_px;
    next.debug_logging = settings.debug_logging;
    match next.validate(listen_host_is_ip) {
        Ok(_) => Ok(next),
        Err(error) => Err(error.to_text()),
    }
}

/// Which settings of the window are saved.
#[derive(Clone, Copy, Debug, PartialEq, Eq, Structural)]
pub enum SettingsChange {
    Draft,
    Advanced,
    All,
}

/// The configuration that is saved, or why none is. `listen_host_is_ip` tells whether
/// its listen host is the text of an IP address.
pub open spec fn next_config_of(
    config: AppConfig,
    settings: WindowSettings,
    change: SettingsChange,
    listen_host_is_ip: bool,
) -> Result<AppConfig, Seq<char>> {
    match change {
        SettingsChange::Advanced => advanced(config, settings, listen_host_is_ip),
        SettingsChange::Draft => match draft_of(settings) {
            Err(message) => Err(message),
            Ok(draft) => match first_problem(drafted(config, draft), listen_host_is_ip) {
                Some(message) => Err(message),
                None => Ok(drafted(config, draft)),
            },
        },
        SettingsChange::All => match draft_of(settings) {
            Err(message) => Err(message),
            Ok(draft) => advanced(drafted(config, draft), settings, listen_host_is_ip),
        },
    }
}

pub fn save_next_config(
    config: &AppConfig,
    settings: &WindowSettings,
    change: SettingsChange,
    listen_host_is_ip: bool,
) -> (r: Result<AppConfig, String>)
    ensures
        config_result(r) == next_config_of(*config, *settings, change, listen_host_is_ip),
{
    let mut next = config.clone();
    match change {
        SettingsChange::Advanced => {},
        _ => match draft_from_window(settings) {
            Ok(draft) => draft.apply_to(&mut next),
            Err(error) => return Err(error),
        },
    }
    match change {
        SettingsChange::Draft => match next.validate(listen_host_is_ip) {
            Ok(_) => Ok(next),
            Err(error) => Err(error.to_text()),
        },
        _ => apply_advanced_from_window(settings, next, listen_host_is_ip),
    }
}

proof fn lemma_decimal_digits(n: nat)
    ensures
        decimal(n).len() > 0,
        all_digits(decimal(n)),
        digits_value(decimal(n)) == n,
    decreases n,
{
    let text = decimal(n);
    assert(text.last() == digit_char(n % 10));
    assert(text.last() as u32 - '0' as u32 == n % 10);
    if n < 10 {
        assert(text.drop_last() =~= Seq::<char>::empty());
        assert(digits_value(text.drop_last()) == 0);
    } else {
        lemma_decimal_digits(n / 10);
        assert(text.drop_last() =~= decimal(n / 10));
    }
}

proof fn lemma_parsed_decimal(n: u64, label: Seq<char>)
    ensures
        parsed_setting(decimal(n as nat), label) == Ok::<u64, Seq<char>>(n),
{
    lemma_decimal_digits(n as nat);
    let text = decimal(n as nat);
    assert(is_digit(text[0]));
    assert(is_digit(text.last()));
    assert(trimmed_start(text) == text);
    assert(trimmed(text) == text);
    assert(digits_of(text) == text);
}

/// A setting that shows a number is read as that number.
pub proof fn law_shown_numbers_are_read_back(n: u64, label: Seq<char>)
    ensures
        parsed_setting(decimal(n as nat), label) == Ok::<u64, Seq<char>>(n),
{
    lemma_parsed_decimal(n, label);
}

/// A position is found again by its entry in the list.
pub proof fn law_positions_round_trip(position: RemotePosition)
    ensures
        position_at(index_of_position(position)) == position,
{
}

/// Saving a window that shows a valid configuration changes nothing.
pub proof fn law_unchanged_settings_save_the_same_config(
    settings: WindowSettings,
    config: AppConfig,
    change: SettingsChange,
)
    requires
        shows(settings, config),
        first_problem(config, true) is None,
    ensures
        next_config_of(config, settings, change, true) == Ok::<AppConfig, Seq<char>>(config),
{
    lemma_parsed_decimal(config.sharing.max_clipboard_bytes, "最大剪贴板大小"@);
    lemma_parsed_decimal(config.sharing.max_file_transfer_bytes, "最大文件大小"@);
    law_positions_round_trip(config.controller.remote_position);
    assert(draft_of(settings) is Ok);
    assert(drafted(config, draft_of(settings)->Ok_0) == config);
}

/// What is saved is valid.
pub proof fn law_saved_configs_are_valid(
    config: AppConfig,
    settings: WindowSettings,
    change: SettingsChange,
    listen_host_is_ip: bool,
)
    ensures
        next_config_of(config, settings, change, listen_host_is_ip) matches Ok(next)
            ==> first_problem(next, listen_host_is_ip) is None,
{
}

/// The window shows every setting in its own field.
pub proof fn law_settings_are_shown_in_their_fields(config: AppConfig, settings: WindowSettings)
    requires
        call_ensures(apply_config_to_window, (&config,), settings),
    ensures
        settings.controller_role <==> config.role == Role::Controller,
        settings.target_host@ == config.controller.agent_host@,
        settings.target_port == config.controller.agent_port,
        settings.listen_host@ == config.agent.listen_host@,
        settings.listen_port == config.agent.listen_port,
        settings.clipboard_text == config.sharing.clipboard_text,
        settings.clipboard_html == config.sharing.clipboard_html,
        settings.clipboard_images == config.sharing.clipboard_images,
        settings.file_copy_paste == config.sharing.file_copy_paste,
        settings.file_drag_drop == config.sharing.real_file_drag_drop,
        settings.bulk_port == config.sharing.bulk_transfer_port,
        settings.cache_directory@ == config.sharing.incoming_cache_dir@,
        settings.max_clipboard_bytes@ == decimal(config.sharing.max_clipboard_bytes as nat),
        settings.max_file_bytes@ == decimal(config.sharing.max_file_transfer_bytes as nat),
        settings.edge_trigger_px == config.edge_trigger_px,
        settings.debug_logging == config.debug_logging,
        settings.remote_position_index == 0 <==> config.controller.remote_position
            == RemotePosition::Left,
        settings.remote_position_index == 1 <==> config.controller.remote_position
            == RemotePosition::Right,
        settings.remote_position_index == 2 <==> config.controller.remote_position
            == RemotePosition::Top,
        settings.remote_position_index == 3 <==> config.controller.remote_position
            == RemotePosition::Bottom,
{
}

/// What is saved is what the fields hold: the draft saves the settings that can be changed
/// at a glance, the advanced settings are saved with the others or alone, and what was not
/// to be saved stays as it was.
pub proof fn law_fields_are_saved_in_their_settings(
    config: AppConfig,
    settings: WindowSettings,
    change: SettingsChange,
    listen_host_is_ip: bool,
)
    ensures
        next_config_of(config, settings, change, listen_host_is_ip) matches Ok(next) ==> {
            &&& change != SettingsChange::Advanced ==> {
                &&& next.role == (if settings.controller_role {
                    Role::Controller
                } else {
                    Role::Agent
                })
                &&& next.controller.agent_host == settings.target_host
                &&& next.controller.agent_port == settings.target_port
                &&& next.agent.listen_host == settings.listen_host
                &&& next.agent.listen_port == settings.listen_port
                &&& next.sharing.clipboard_text == settings.clipboard_text
                &&& next.sharing.clipboard_html == settings.clipboard_html
                &&& next.sharing.clipboard_images == settings.clipboard_images
                &&& next.sharing.file_copy_paste == settings.file_copy_paste
                &&& next.sharing.real_file_drag_drop == settings.file_drag_drop
                &&& settings.remote_position_index == 0 <==> next.controller.remote_position
                    == RemotePosition::Left
                &&& settings.remote_position_index == 2 <==> next.controller.remote_position
                    == RemotePosition::Top
                &&& settings.remote_position_index == 3 <==> next.controller.remote_position
                    == RemotePosition::Bottom
            }
            &&& change == SettingsChange::Advanced ==> {
                &&& next.role == config.role
                &&& next.controller == config.controller
                &&& next.agent == config.agent
                &&& next.sharing.clipboard_text == config.sharing.clipboard_text
                &&& next.sharing.clipboard_html == config.sharing.clipboard_html
                &&& next.sharing.clipboard_images == config.sharing.clipboard_images
                &&& next.sharing.file_copy_paste == config.sharing.file_copy_paste
                &&& next.sharing.real_file_drag_drop == config.sharing.real_file_drag_drop
            }
            &&& change != SettingsChange::Draft ==> {
                &&& next.sharing.bulk_transfer_port == settings.bulk_port
                &&& next.sharing.incoming_cache_dir == settings.cache_directory
                &&& parsed(trimmed(settings.max_clipboard_bytes@)) == Some(
                    next.sharing.max_clipboard_bytes,
                )
                &&& parsed(trimmed(settings.max_file_bytes@)) == Some(
                    next.sharing.max_file_transfer_bytes,
                )
                &&& next.edge_trigger_px == settings.edge_trigger_px
                &&& next.debug_logging == settings.debug_logging
            }
            &&& change == SettingsChange::Draft ==> {
                &&& next.sharing.bulk_transfer_port == config.sharing.bulk_transfer_port
                &&& next.sharing.incoming_cache_dir == config.sharing.incoming_cache_dir
                &&& next.sharing.max_clipboard_bytes == config.sharing.max_clipboard_bytes
                &&& next.sharing.max_file_transfer_bytes == config.sharing.max_file_transfer_bytes
                &&& next.edge_trigger_px == config.edge_trigger_px
                &&& next.debug_logging == config.debug_logging
            }
        },
{
}

/// A port that is none is refused by name, and nothing is saved; so is a size that is
/// empty or no number.
pub proof fn law_bad_fields_are_named(
    config: AppConfig,
    settings: WindowSettings,
    listen_host_is_ip: bool,
)
    ensures
        !(0 <= settings.target_port <= 65535) ==> next_config_of(
            config,
            settings,
            SettingsChange::Draft,
            listen_host_is_ip,
        ) == Err::<AppConfig, Seq<char>>("目标 TCP 端口超出范围"@),
        0 <= settings.target_port <= 65535 && !(0 <= settings.listen_port <= 65535)
            ==> next_config_of(config, settings, SettingsChange::All, listen_host_is_ip) == Err::<
            AppConfig,
            Seq<char>,
        >("监听 TCP 端口超出范围"@),
        !(0 <= settings.bulk_port <= 65535) ==> next_config_of(
            config,
            settings,
            SettingsChange::Advanced,
            listen_host_is_ip,
        ) == Err::<AppConfig, Seq<char>>("批量传输 TCP 端口超出范围"@),
        0 <= settings.bulk_port <= 65535 && trimmed(settings.max_clipboard_bytes@).len() == 0
            ==> next_config_of(config, settings, SettingsChange::Advanced, listen_host_is_ip)
            == Err::<AppConfig, Seq<char>>("最大剪贴板大小"@ + "不能为空"@),
        0 <= settings.bulk_port <= 65535 && parsed(trimmed(settings.max_clipboard_bytes@)) is Some
            && trimmed(settings.max_clipboard_bytes@).len() > 0 && trimmed(
            settings.max_file_bytes@,
        ).len() > 0 && parsed(trimmed(settings.max_file_bytes@)) is None ==> next_config_of(
            config,
            settings,
            SettingsChange::Advanced,
            listen_host_is_ip,
        ) == Err::<AppConfig, Seq<char>>("最大文件大小"@ + "必须是正整数"@),
{
}

/// White space around a text is left out, all of it, and nothing else.
pub proof fn law_trimmed_texts_have_no_space_around(text: Seq<char>)
    ensures
        ({
            let t = trimmed(text);
            &&& t.len() > 0 ==> !white_space(t[0]) && !white_space(t.last())
            &&& exists|i: int, j: int|
                0 <= i <= j <= text.len() && t == #[trigger] text.subrange(i, j) && (forall|k: int|
                    (0 <= k < i || j <= k < text.len()) ==> white_space(#[trigger] text[k]))
        }),
{
    let i = lemma_trimmed_start(text);
    let start = trimmed_start(text);
    let j = lemma_trimmed_end(start);
    assert(trimmed(text) =~= text.subrange(i, i + j));
    assert forall|k: int| (0 <= k < i || i + j <= k < text.len()) implies white_space(
        #[trigger] text[k],
    ) by {
        if k >= i + j {
            assert(text[k] == start[k - i]);
        }
    }
    if trimmed(text).len() > 0 {
        assert(trimmed(text)[0] == start[0]);
    }
}

proof fn lemma_trimmed_start(text: Seq<char>) -> (i: int)
    ensures
        0 <= i <= text.len(),
        trimmed_start(text) == text.skip(i),
        forall|k: int| 0 <= k < i ==> white_space(#[trigger] text[k]),
        i < text.len() ==> !white_space(text[i]),
    decreases text.len(),
{
    if text.len() > 0 && white_space(text[0]) {
        let i = lemma_trimmed_start(text.skip(1));
        assert(text.skip(1).skip(i) =~= text.skip(i + 1));
        assert forall|k: int| 0 <= k < i + 1 implies white_space(#[trigger] text[k]) by {
            if k > 0 {
                assert(text[k] == text.skip(1)[k - 1]);
            }
        }
        i + 1
    } else {
        assert(text.skip(0) =~= text);
        0
    }
}

proof fn lemma_trimmed_end(text: Seq<char>) -> (j: int)
    ensures
        0 <= j <= text.len(),
        trimmed_end(text) == text.take(j),
        forall|k: int| j <= k < text.len() ==> white_space(#[trigger] text[k]),
        j > 0 ==> !white_space(text[j - 1]),
    decreases text.len(),
{
    if text.len() > 0 && white_space(text.last()) {
        let j = lemma_trimmed_end(text.drop_last());
        assert(text.drop_last().take(j) =~= text.take(j));
        assert forall|k: int| j <= k < text.len() implies white_space(#[trigger] text[k]) by {
            if k < text.len() - 1 {
                assert(text[k] == text.drop_last()[k]);
            }
        }
        if j > 0 {
            assert(text[j - 1] == text.drop_last()[j - 1]);
        }
        j
    } else {
        assert(text.take(text.len() as int) =~= text);
        text.len() as int
    }
}

/// A number is read digit by digit, a plus sign before it is passed over, and a text with
/// anything but digits is no number.
pub proof fn law_numbers_are_read_digit_by_digit(text: Seq<char>, digit: char)
    ensures
        is_digit(digit) ==> digits_value(text.push(digit)) == 10 * digits_value(text) + (
        digit as u32 - 48),
        digits_value(Seq::<char>::empty()) == 0,
        text.len() > 0 && text[0] != '+' ==> parsed(seq!['+'] + text) == parsed(text),
        (exists|i: int| 0 < i < text.len() && !is_digit(#[trigger] text[i])) ==> parsed(text)
            is None,
        parsed(Seq::<char>::empty()) is None,
{
    assert(text.push(digit).drop_last() =~= text);
    if text.len() > 0 && text[0] != '+' {
        assert((seq!['+'] + text).skip(1) =~= text);
    }
    if exists|i: int| 0 < i < text.len() && !is_digit(#[trigger] text[i]) {
        let i = choose|i: int| 0 < i < text.len() && !is_digit(#[trigger] text[i]);
        if text[0] == '+' {
            assert(text.skip(1)[i - 1] == text[i]);
        }
    }
}

} // verus!
