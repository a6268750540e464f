//! What the window shows of the state of the program, and which buttons it offers.
use crate::config::TransportMode;
use crate::session::{RuntimeEvent, RuntimeEventView};
use crate::status::{AppStatus, RunState, StatusView};
use crate::text::{decimal, join2, join4, number, opt_view, quote, quoted, views};
use vstd::prelude::*;
use vstd::string::StrSliceExecFns;

verus! {

/// What the window shows. The progress of a transfer is the first number of
/// `transfer_progress` out of the second.
#[derive(Debug, PartialEq, Eq)]
pub struct UiSnapshot {
    pub connection_label: String,
    pub control_label: String,
    pub latency_label: String,
    pub connected: bool,
    pub running: bool,
    pub transfer_active: bool,
    pub transfer_progress: (u64, u64),
    pub transfer_file: String,
    pub transfer_detail: String,
    pub transfer_destination: String,
    pub last_error: String,
}

#[verifier::ext_equal]
pub struct SnapshotView {
    pub connection_label: Seq<char>,
    pub control_label: Seq<char>,
    pub latency_label: Seq<char>,
    pub connected: bool,
    pub running: bool,
    pub transfer_active: bool,
    pub transfer_progress: (u64, u64),
    pub transfer_file: Seq<char>,
    pub transfer_detail: Seq<char>,
    pub transfer_destination: Seq<char>,
    pub last_error: Seq<char>,
}

impl View for UiSnapshot {
    type V = SnapshotView;

    open spec fn view(&self) -> SnapshotView {
        SnapshotView {
            connection_label: self.connection_label@,
            control_label: self.control_label@,
            latency_label: self.latency_label@,
            connected: self.connected,
            running: self.running,
            transfer_active: self.transfer_active,
            transfer_progress: self.transfer_progress,
            transfer_file: self.transfer_file@,
            transfer_detail: self.transfer_detail@,
            transfer_destination: self.transfer_destination@,
            last_error: self.last_error@,
        }
    }
}

/// The two computers are connected.
pub open spec fn is_connected(state: RunState) -> bool {
    state == RunState::Connected || state == RunState::LocalControl || state
        == RunState::RemoteControl
}

/// The name of a state.
pub open spec fn connection_name(state: RunState) -> Seq<char> {
    match state {
        RunState::Stopped => "已停止"@,
        RunState::Waiting => "等待连接"@,
        RunState::Connecting => "正在连接"@,
        RunState::Connected => "已连接"@,
        RunState::LocalControl => "已连接"@,
        RunState::RemoteControl => "已连接"@,
        RunState::Reconnecting => "正在重连"@,
        RunState::Error => "连接错误"@,
    }
}

/// A time in milliseconds, or a dash.
pub open spec fn ms_text(value: Option<u64>) -> Seq<char> {
    match value {
        Some(value) => decimal(value as nat) + " ms"@,
        None => "-"@,
    }
}

/// A text, or nothing.
pub open spec fn text_or_nothing(value: Option<Seq<char>>) -> Seq<char> {
    match value {
        Some(text) => text,
        None => ""@,
    }
}

/// What part of a transfer is done: never more than all of it.
pub open spec fn progress(done: u64, total: u64) -> (u64, u64) {
    (if done < total { done } else { total }, total)
}

/// What the window shows of a status.
pub open spec fn snapshot(status: StatusView) -> SnapshotView {
    SnapshotView {
        connection_label: connection_name(status.run_state),
        control_label: if status.run_state == RunState::RemoteControl {
            "远程电脑"@
        } else {
            "本机"@
        },
        latency_label: ms_text(status.recent_rtt_ms),
        connected: is_connected(status.run_state),
        running: status.run_state != RunState::Stopped,
        transfer_active: status.transfer_active,
        transfer_progress: progress(status.transfer_bytes_done, status.transfer_bytes_total),
        transfer_file: text_or_nothing(status.transfer_current_file),
        transfer_detail: decimal(status.transfer_bytes_done as nat) + " / "@ + decimal(
            status.transfer_bytes_total as nat,
        ) + " bytes"@,
        transfer_destination: text_or_nothing(status.drag_drop_destination),
        last_error: text_or_nothing(status.last_error),
    }
}

/// A time in milliseconds, or a dash.
pub fn option_ms(value: Option<u64>) -> (r: String)
    ensures
        r@ == ms_text(value),
{
    match value {
        Some(value) => {
            let text = number(value);
            join2(text.as_str(), " ms")
        },
        None => "-".to_string(),
    }
}

/// A number, or a dash.
pub fn option_number(value: Option<u64>) -> (r: String)
    ensures
        r@ == number_text(value),
{
    match value {
        Some(value) => number(value),
        None => "-".to_string(),
    }
}

fn or_nothing(value: &Option<String>) -> (r: String)
    ensures
        r@ == text_or_nothing(opt_view(*value)),
{
    match value {
        Some(text) => text.clone(),
        None => "".to_string(),
    }
}

impl UiSnapshot {
    pub fn from_status(status: &AppStatus) -> (r: Self)
        ensures
            r@ == snapshot(status@),
    {
        let connection_label = match status.run_state {
            RunState::Stopped => "已停止",
            RunState::Waiting => "等待连接",
            RunState::Connecting => "正在连接",
            RunState::Connected => "已连接",
            RunState::LocalControl => "已连接",
            RunState::RemoteControl => "已连接",
            RunState::Reconnecting => "正在重连",
            RunState::Error => "连接错误",
        };
        let control_label = if status.run_state == RunState::RemoteControl {
            "远程电脑"
        } else {
            "本机"
        };
        let done = number(status.transfer_bytes_done);
        let total = number(status.transfer_bytes_total);
        let shown: u64 = if status.transfer_bytes_done < status.transfer_bytes_total {
            status.transfer_bytes_done
        } else {
            status.transfer_bytes_total
        };
        UiSnapshot {
            connection_label: connection_label.to_string(),
            control_label: control_label.to_string(),
            latency_label: option_ms(status.recent_rtt_ms),
            connected: status.run_state == RunState::Connected || status.run_state
                == RunState::LocalControl || status.run_state == RunState::RemoteControl,
            running: status.run_state != RunState::Stopped,
            transfer_active: status.transfer_active,
            transfer_progress: (shown, status.transfer_bytes_total),
            transfer_file: or_nothing(&status.transfer_current_file),
            transfer_detail: join4(done.as_str(), " / ", total.as_str(), " bytes"),
            transfer_destination: or_nothing(&status.drag_drop_destination),
            last_error: or_nothing(&status.last_error),
        }
    }
}

/// A line of the status table: what it is about, and what it says.
#[derive(Debug, PartialEq, Eq)]
pub struct StatusRow {
    pub label: String,
    pub value: String,
}

pub struct StatusRowView {
    pub label: Seq<char>,
    pub value: Seq<char>,
}

impl View for StatusRow {
    type V = StatusRowView;

    open spec fn view(&self) -> StatusRowView {
        StatusRowView { label: self.label@, value: self.value@ }
    }
}

/// The name of a state in the table.
pub open spec fn state_name(state: RunState) -> Seq<char> {
    match state {
        RunState::Stopped => "Stopped"@,
        RunState::Waiting => "Waiting"@,
        RunState::Connecting => "Connecting"@,
        RunState::Connected => "Connected"@,
        RunState::LocalControl => "LocalControl"@,
        RunState::RemoteControl => "RemoteControl"@,
        RunState::Reconnecting => "Reconnecting"@,
        RunState::Error => "Error"@,
    }
}

/// The name of a transport, or a dash.
pub open spec fn mode_name(mode: Option<TransportMode>) -> Seq<char> {
    match mode {
        Some(TransportMode::Tcp) => "Tcp"@,
        Some(TransportMode::Kcp) => "Kcp"@,
        None => "-"@,
    }
}

/// A number, or a dash.
pub open spec fn number_text(value: Option<u64>) -> Seq<char> {
    match value {
        Some(value) => decimal(value as nat),
        None => "-"@,
    }
}

/// A text in quotes, or a dash.
pub open spec fn quoted_text(value: Option<Seq<char>>) -> Seq<char> {
    match value {
        Some(text) => quoted(text),
        None => "-"@,
    }
}

pub open spec fn yes_or_no(value: bool) -> Seq<char> {
    if value { "yes"@ } else { "no"@ }
}

/// How far a transfer has come, or a dash.
pub open spec fn transfer_text(status: StatusView) -> Seq<char> {
    if status.transfer_active {
        decimal(status.transfer_bytes_done as nat) + "/"@ + decimal(
            status.transfer_bytes_total as nat,
        ) + " bytes"@
    } else {
        "-"@
    }
}

/// A line of the status table.
pub open spec fn row(label: Seq<char>, value: Seq<char>) -> StatusRowView {
    StatusRowView { label, value }
}

/// The status table.
pub open spec fn status_table(status: StatusView) -> Seq<StatusRowView> {
    seq![
        row("State"@, state_name(status.run_state)),
        row("Transport"@, mode_name(status.transport_mode)),
        row("RTT"@, ms_text(status.recent_rtt_ms)),
        row("Average RTT"@, ms_text(status.average_rtt_ms)),
        row("Latest pointer sequence"@, number_text(status.latest_pointer_sequence)),
        row("Stale pointer packets"@, decimal(status.stale_pointer_packets as nat)),
        row("Clipboard enabled"@, yes_or_no(status.clipboard_enabled)),
        row("Clipboard format"@, quoted_text(status.last_clipboard_format)),
        row("Clipboard bytes"@, number_text(status.last_clipboard_bytes)),
        row("Clipboard ignored"@, quoted_text(status.clipboard_ignored_reason)),
        row("Transfer"@, transfer_text(status)),
        row("Transfer file"@, quoted_text(status.transfer_current_file)),
        row("Drag/drop enabled"@, yes_or_no(status.drag_drop_enabled)),
        row("Drag/drop state"@, quoted_text(status.drag_drop_state)),
        row("Mouse diagnostics"@, quoted_text(status.mouse_diagnostics)),
    ]
}

fn option_text(value: &Option<String>) -> (r: String)
    ensures
        r@ == quoted_text(opt_view(*value)),
{
    match value {
        Some(text) => quote(text.as_str()),
        None => "-".to_string(),
    }
}

fn state_text(state: RunState) -> (r: String)
    ensures
        r@ == state_name(state),
{
    let name = match state {
        RunState::Stopped => "Stopped",
        RunState::Waiting => "Waiting",
        RunState::Connecting => "Connecting",
        RunState::Connected => "Connected",
        RunState::LocalControl => "LocalControl",
        RunState::RemoteControl => "RemoteControl",
        RunState::Reconnecting => "Reconnecting",
        RunState::Error => "Error",
    };
    name.to_string()
}

fn mode_text(mode: Option<TransportMode>) -> (r: String)
    ensures
        r@ == mode_name(mode),
{
    let name = match mode {
        Some(TransportMode::Tcp) => "Tcp",
        Some(TransportMode::Kcp) => "Kcp",
        None => "-",
    };
    name.to_string()
}

fn flag_text(value: bool) -> (r: String)
    ensures
        r@ == yes_or_no(value),
{
    if value {
        "yes".to_string()
    } else {
        "no".to_string()
    }
}

fn progress_text(status: &AppStatus) -> (r: String)
    ensures
        r@ == transfer_text(status@),
{
    if status.transfer_active {
        let done = number(status.transfer_bytes_done);
        let total = number(status.transfer_bytes_total);
        join4(done.as_str(), "/", total.as_str(), " bytes")
    } else {
        "-".to_string()
    }
}

fn push_row(rows: &mut Vec<StatusRow>, label: &str, value: String)
    ensures
        views(final(rows)@) == views(old(rows)@).push(row(label@, value@)),
{
    rows.push(StatusRow { label: label.to_string(), value });
    assert(views(rows@) =~= views(old(rows)@).push(row(label@, value@)));
}

/// The lines of the status table.
pub fn show_status(status: &AppStatus) -> (r: Vec<StatusRow>)
    ensures
        views(r@) == status_table(status@),
{
    let mut rows: Vec<StatusRow> = Vec::new();
    push_row(&mut rows, "State", state_text(status.run_state));
    push_row(&mut rows, "Transport", mode_text(status.transport_mode));
    push_row(&mut rows, "RTT", option_ms(status.recent_rtt_ms));
    push_row(&mut rows, "Average RTT", option_ms(status.average_rtt_ms));
    push_row(
        &mut rows,
        "Latest pointer sequence",
        option_number(status.latest_pointer_sequence),
    );
    push_row(&mut rows, "Stale pointer packets", number(status.stale_pointer_packets));
    push_row(&mut rows, "Clipboard enabled", flag_text(status.clipboard_enabled));
    push_row(&mut rows, "Clipboard format", option_text(&status.last_clipboard_format));
    push_row(&mut rows, "Clipboard bytes", option_number(status.last_clipboard_bytes));
    push_row(&mut rows, "Clipboard ignored", option_text(&status.clipboard_ignored_reason));
    push_row(&mut rows, "Transfer", progress_text(status));
    push_row(&mut rows, "Transfer file", option_text(&status.transfer_current_file));
    push_row(&mut rows, "Drag/drop enabled", flag_text(status.drag_drop_enabled));
    push_row(&mut rows, "Drag/drop state", option_text(&status.drag_drop_state));
    push_row(&mut rows, "Mouse diagnostics", option_text(&status.mouse_diagnostics));
    assert(views(rows@) =~= status_table(status@));
    rows
}

/// The transfer that the window offers to call off.
pub fn transfer_to_cancel(status: &AppStatus) -> (r: Option<u128>)
    ensures
        r == (if status@.transfer_active { status@.transfer_id } else { None }),
{
    if status.transfer_active {
        status.transfer_id
    } else {
        None
    }
}

/// The drag that the window offers to call off.
pub fn drag_to_cancel(status: &AppStatus) -> (r: Option<u128>)
    ensures
        r == status@.active_drag_session,
{
    status.active_drag_session
}

/// The colour that a state is shown in.
#[derive(Clone, Copy, Debug, PartialEq, Eq, Structural)]
pub enum StateColor {
    Gray,
    Yellow,
    Green,
    LightBlue,
    Red,
}

pub fn state_color(state: RunState) -> (r: StateColor)
    ensures
        r == (match state {
            RunState::Stopped => StateColor::Gray,
            RunState::Waiting => StateColor::Yellow,
            RunState::Connecting => StateColor::Yellow,
            RunState::Reconnecting => StateColor::Yellow,
            RunState::Connected => StateColor::Green,
            RunState::LocalControl => StateColor::Green,
            RunState::RemoteControl => StateColor::LightBlue,
            RunState::Error => StateColor::Red,
        }),
{
    match state {
        RunState::Stopped => StateColor::Gray,
        RunState::Waiting => StateColor::Yellow,
        RunState::Connecting => StateColor::Yellow,
        RunState::Reconnecting => StateColor::Yellow,
        RunState::Connected => StateColor::Green,
        RunState::LocalControl => StateColor::Green,
        RunState::RemoteControl => StateColor::LightBlue,
        RunState::Error => StateColor::Red,
    }
}

pub fn can_start(state: RunState) -> (r: bool)
    ensures
        r == (state == RunState::Stopped || state == RunState::Error),
{
    state == RunState::Stopped || state == RunState::Error
}

pub fn can_stop(state: RunState) -> (r: bool)
    ensures
        r == (state != RunState::Stopped),
{
    state != RunState::Stopped
}

pub fn can_reconnect(state: RunState) -> (r: bool)
    ensures
        r == (state != RunState::Stopped),
{
    state != RunState::Stopped
}

/// A character in lower case, if it is an ASCII letter.
pub open spec fn ascii_lower(c: char) -> char {
    if 'A' <= c <= 'Z' { (c as u32 + 32) as char } else { c }
}

/// A text with its ASCII letters in lower case.
pub open spec fn lower(text: Seq<char>) -> Seq<char> {
    text.map_values(|c: char| ascii_lower(c))
}

/// A text stands in another one at a place.
pub open spec fn stands_at(text: Seq<char>, part: Seq<char>, i: int) -> bool {
    0 <= i && i + part.len() <= text.len() && text.subrange(i, i + part.len()) == part
}

/// A text stands somewhere in another one.
pub open spec fn holds_text(text: Seq<char>, part: Seq<char>) -> bool {
    exists|i: int| stands_at(text, part, i)
}

/// The error may come from missing rights.
pub open spec fn permission_sensitive(message: Seq<char>) -> bool {
    ||| holds_text(lower(message), "hook"@)
    ||| holds_text(lower(message), "input injection"@)
    ||| holds_text(lower(message), "sendinput"@)
}

fn lower_case(c: char) -> (r: char)
    ensures
        r == ascii_lower(c),
{
    if 'A' <= c && c <= 'Z' {
        (c as u8 + 32) as char
    } else {
        c
    }
}

fn holds_at(text: &str, part: &str, place: usize) -> (r: bool)
    requires
        place + part@.len() <= text@.len(),
    ensures
        r == stands_at(lower(text@), part@, place as int),
{
    let text_len = text.unicode_len();
    let len = part.unicode_len();
    let mut i: usize = 0;
    while i < len
        invariant
            i <= len,
            len == part@.len(),
            text_len == text@.len(),
            place + part@.len() <= text@.len(),
            forall|j: int| 0 <= j < i ==> ascii_lower(#[trigger] text@[place + j]) == part@[j],
        decreases len - i,
    {
        if lower_case(text.get_char(place + i)) != part.get_char(i) {
            assert(lower(text@).subrange(place as int, place + part@.len())[i as int]
                != part@[i as int]);
            return false;
        }
        i = i + 1;
    }
    proof {
        let found = lower(text@).subrange(place as int, place + part@.len());
        assert forall|j: int| 0 <= j < found.len() implies found[j] == part@[j] by {
            assert(found[j] == ascii_lower(text@[place + j]));
        }
        assert(found =~= part@);
    }
    true
}

fn holds_in_lower_case(text: &str, part: &str) -> (r: bool)
    ensures
        r == holds_text(lower(text@), part@),
{
    let text_len = text.unicode_len();
    let part_len = part.unicode_len();
    if part_len > text_len {
        return false;
    }
    let last: usize = text_len - part_len;
    let mut place: usize = 0;
    while place <= last
        invariant
            text_len == text@.len(),
            part_len == part@.len(),
            last == text_len - part_len,
            place <= last + 1,
            forall|i: int| 0 <= i < place ==> !stands_at(lower(text@), part@, i),
        decreases last + 1 - place,
    {
        if holds_at(text, part, place) {
            return true;
        }
        if place == last {
            return false;
        }
        place = place + 1;
    }
    false
}

/// Whether an error may come from missing rights.
pub fn is_permission_sensitive_error(message: &str) -> (r: bool)
    ensures
        r == permission_sensitive(message@),
{
    holds_in_lower_case(message, "hook") || holds_in_lower_case(message, "input injection")
        || holds_in_lower_case(message, "sendinput")
}

/// Whether the window advises to run the program with more rights.
pub fn should_show_permission_guidance(status: &AppStatus) -> (r: bool)
    ensures
        r == (opt_view(status.last_error) matches Some(message) && permission_sensitive(message)),
{
    match &status.last_error {
        Some(message) => is_permission_sensitive_error(message.as_str()),
        None => false,
    }
}

/// What the window keeps of an event: a status replaces the one before but for the
/// log, which the window keeps itself.
pub open spec fn after_event(shown: StatusView, event: RuntimeEventView) -> StatusView {
    match event {
        RuntimeEventView::Status(status) => StatusView { events: shown.events, ..status },
        RuntimeEventView::Log(line) => shown.with_log(line),
    }
}

pub fn handle_runtime_event(shown: &mut AppStatus, event: RuntimeEvent)
    ensures
        final(shown)@ == after_event(old(shown)@, event@),
{
    match event {
        RuntimeEvent::Status(status) => {
            let mut next = status;
            std::mem::swap(&mut next.events, &mut shown.events);
            *shown = next;
        },
        RuntimeEvent::Log(line) => {
            shown.push_log(line);
        },
    }
}

/// A log line of the window outlives every new status.
pub proof fn law_log_outlives_status(shown: StatusView, status: StatusView)
    ensures
        after_event(shown, RuntimeEventView::Status(status)).events == shown.events,
{
}

/// The progress of a transfer is never more than the whole.
pub proof fn law_progress_is_bounded(status: StatusView)
    ensures
        snapshot(status).transfer_progress.0 <= snapshot(status).transfer_progress.1,
{
}

/// The window shows what the status says: that the computers are connected in exactly the
/// states in which they are, that something runs unless it was stopped, and who is
/// controlled; numbers, files, destinations and errors as they are.
pub proof fn law_window_shows_the_status(a: StatusView, b: StatusView)
    ensures
        ({
            let shown = snapshot(a);
            &&& shown.connected <==> a.run_state == RunState::Connected || a.run_state
                == RunState::LocalControl || a.run_state == RunState::RemoteControl
            &&& shown.running <==> a.run_state != RunState::Stopped
            &&& shown.connected ==> shown.running
            &&& shown.transfer_active == a.transfer_active
            &&& shown.transfer_progress.1 == a.transfer_bytes_total
            &&& a.transfer_bytes_done <= a.transfer_bytes_total ==> shown.transfer_progress.0
                == a.transfer_bytes_done
            &&& a.transfer_current_file matches Some(name) ==> shown.transfer_file == name
            &&& a.drag_drop_destination matches Some(place) ==> shown.transfer_destination == place
            &&& a.last_error matches Some(error) ==> shown.last_error == error
            &&& a.last_error is None ==> shown.last_error == ""@
            &&& a.transfer_current_file is None ==> shown.transfer_file == ""@
            &&& a.drag_drop_destination is None ==> shown.transfer_destination == ""@
            &&& a.recent_rtt_ms matches Some(rtt) ==> shown.latency_label == decimal(rtt as nat)
                + " ms"@
            &&& a.recent_rtt_ms is None ==> shown.latency_label == "-"@
            &&& shown.control_label == snapshot(b).control_label <==> (a.run_state
                == RunState::RemoteControl <==> b.run_state == RunState::RemoteControl)
            &&& is_connected(a.run_state) ==> shown.connection_label == "已连接"@
            &&& shown.connection_label == snapshot(b).connection_label <== a.run_state
                == b.run_state
            &&& a.run_state == RunState::Stopped ==> shown.connection_label == "已停止"@
            &&& a.run_state == RunState::Waiting ==> shown.connection_label == "等待连接"@
            &&& a.run_state == RunState::Connecting ==> shown.connection_label == "正在连接"@
            &&& a.run_state == RunState::Reconnecting ==> shown.connection_label == "正在重连"@
            &&& a.run_state == RunState::Error ==> shown.connection_label == "连接错误"@
        }),
{
    reveal_strlit("远程电脑");
    reveal_strlit("本机");
    assert("远程电脑"@.len() == 4 && "本机"@.len() == 2);
}

/// The rows of the status table: each says under its own label what its own field holds.
pub proof fn law_rows_tell_their_own_field(status: StatusView)
    ensures
        ({
            let table = status_table(status);
            let flag = |on: bool| if on { "yes"@ } else { "no"@ };
            let time = |t: Option<u64>| if t is Some { decimal(t->0 as nat) + " ms"@ } else { "-"@ };
            let count = |n: Option<u64>| if n is Some { decimal(n->0 as nat) } else { "-"@ };
            let text = |t: Option<Seq<char>>| if t is Some { quoted(t->0) } else { "-"@ };
            &&& table.len() == 15
            &&& table[0].label == "State"@
            &&& table[1].label == "Transport"@
            &&& table[2] == row("RTT"@, time(status.recent_rtt_ms))
            &&& table[3] == row("Average RTT"@, time(status.average_rtt_ms))
            &&& table[4] == row("Latest pointer sequence"@, count(status.latest_pointer_sequence))
            &&& table[5] == row(
                "Stale pointer packets"@,
                decimal(status.stale_pointer_packets as nat),
            )
            &&& table[6] == row("Clipboard enabled"@, flag(status.clipboard_enabled))
            &&& table[7] == row("Clipboard format"@, text(status.last_clipboard_format))
            &&& table[8] == row("Clipboard bytes"@, count(status.last_clipboard_bytes))
            &&& table[9] == row("Clipboard ignored"@, text(status.clipboard_ignored_reason))
            &&& table[10].label == "Transfer"@
            &&& !status.transfer_active ==> table[10].value == "-"@
            &&& status.transfer_active ==> table[10].value == decimal(
                status.transfer_bytes_done as nat,
            ) + "/"@ + decimal(status.transfer_bytes_total as nat) + " bytes"@
            &&& table[11] == row("Transfer file"@, text(status.transfer_current_file))
            &&& table[12] == row("Drag/drop enabled"@, flag(status.drag_drop_enabled))
            &&& table[13] == row("Drag/drop state"@, text(status.drag_drop_state))
            &&& table[14] == row("Mouse diagnostics"@, text(status.mouse_diagnostics))
            &&& status.transport_mode == Some(TransportMode::Tcp) ==> table[1].value == "Tcp"@
            &&& status.transport_mode == Some(TransportMode::Kcp) ==> table[1].value == "Kcp"@
            &&& status.transport_mode is None ==> table[1].value == "-"@
            &&& status.run_state == RunState::Stopped ==> table[0].value == "Stopped"@
            &&& status.run_state == RunState::Waiting ==> table[0].value == "Waiting"@
            &&& status.run_state == RunState::Connecting ==> table[0].value == "Connecting"@
            &&& status.run_state == RunState::Connected ==> table[0].value == "Connected"@
            &&& status.run_state == RunState::LocalControl ==> table[0].value == "LocalControl"@
            &&& status.run_state == RunState::RemoteControl ==> table[0].value == "RemoteControl"@
            &&& status.run_state == RunState::Reconnecting ==> table[0].value == "Reconnecting"@
            &&& status.run_state == RunState::Error ==> table[0].value == "Error"@
        }),
{
}

/// The window offers what makes sense: a program that is stopped or failed can be started,
/// any other can be stopped and reconnected; a transfer can be called off while it runs,
/// and the drag that is shown.
pub proof fn law_window_offers_what_makes_sense(
    status: &AppStatus,
    state: RunState,
    start: bool,
    stop: bool,
    reconnect: bool,
    transfer: Option<u128>,
    drag: Option<u128>,
)
    requires
        call_ensures(can_start, (state,), start),
        call_ensures(can_stop, (state,), stop),
        call_ensures(can_reconnect, (state,), reconnect),
        call_ensures(transfer_to_cancel, (status,), transfer),
        call_ensures(drag_to_cancel, (status,), drag),
    ensures
        start || stop,
        start && stop <==> state == RunState::Error,
        stop <==> reconnect,
        !stop <==> state == RunState::Stopped,
        transfer is Some ==> status@.transfer_active && transfer == status@.transfer_id,
        status@.transfer_active ==> transfer == status@.transfer_id,
        drag == status@.active_drag_session,
{
}

/// The colours tell apart what the user should tell apart: that nothing runs, that
/// something is waited for, that it works here or there, and that it failed.
pub proof fn law_colours_tell_states_apart(
    a: RunState,
    b: RunState,
    of_a: StateColor,
    of_b: StateColor,
)
    requires
        call_ensures(state_color, (a,), of_a),
        call_ensures(state_color, (b,), of_b),
    ensures
        of_a == StateColor::Gray <==> a == RunState::Stopped,
        of_a == StateColor::Red <==> a == RunState::Error,
        of_a == StateColor::LightBlue <==> a == RunState::RemoteControl,
        of_a == StateColor::Green <==> a == RunState::Connected || a == RunState::LocalControl,
        of_a == of_b && of_a != StateColor::Yellow ==> is_connected(a) == is_connected(b),
{
}

/// An error may come from missing rights exactly if it speaks of hooks or of injected
/// input, wherever in the text and in whatever case.
pub proof fn law_guidance_follows_the_words(
    before: Seq<char>,
    word: Seq<char>,
    after: Seq<char>,
)
    requires
        lower(word) == "hook"@ || lower(word) == "input injection"@ || lower(word)
            == "sendinput"@,
    ensures
        permission_sensitive(before + word + after),
{
    let text = lower(before + word + after);
    let i = before.len() as int;
    assert(text.subrange(i, i + word.len()) =~= lower(word));
    assert(lower(word).len() == word.len());
    assert(stands_at(text, lower(word), i));
}

/// A status replaces all that the window shows but its log, and a line goes to the log and
/// changes nothing else.
pub proof fn law_events_change_the_window(
    shown: StatusView,
    status: StatusView,
    line: Seq<char>,
)
    ensures
        ({
            let after = after_event(shown, RuntimeEventView::Status(status));
            status == (StatusView { events: status.events, ..after })
        }),
        ({
            let after = after_event(shown, RuntimeEventView::Log(line));
            &&& shown == (StatusView { events: shown.events, ..after })
            &&& after.events.last() == line
        }),
{
}

} // verus!
