//! What the program shows of its state.
use crate::config::TransportMode;
use crate::file_transfer::clone_text;
use crate::text::{opt_view, views};
use std::collections::VecDeque;
use vstd::prelude::*;

verus! {

#[derive(Clone, Copy, Debug, PartialEq, Eq, Structural)]
pub enum RunState {
    Stopped,
    Waiting,
    Connecting,
    Connected,
    LocalControl,
    RemoteControl,
    Reconnecting,
    Error,
}

/// The number of log lines that are kept.
pub const MAX_LOG_LINES: usize = 100;

#[derive(Debug, PartialEq, Eq)]
pub struct AppStatus {
    pub run_state: RunState,
    pub transport_mode: Option<TransportMode>,
    pub last_error: Option<String>,
    pub recent_rtt_ms: Option<u64>,
    pub average_rtt_ms: Option<u64>,
    pub stale_pointer_packets: u64,
    pub latest_pointer_sequence: Option<u64>,
    pub clipboard_enabled: bool,
    pub last_clipboard_format: Option<String>,
    pub last_clipboard_bytes: Option<u64>,
    pub clipboard_ignored_reason: Option<String>,
    pub transfer_active: bool,
    pub transfer_id: Option<u128>,
    pub transfer_bytes_done: u64,
    pub transfer_bytes_total: u64,
    pub transfer_current_file: Option<String>,
    pub drag_drop_enabled: bool,
    pub drag_drop_state: Option<String>,
    pub active_drag_session: Option<u128>,
    pub drag_drop_destination: Option<String>,
    pub mouse_diagnostics: Option<String>,
    pub events: VecDeque<String>,
}

#[verifier::ext_equal]
pub struct StatusView {
    pub run_state: RunState,
    pub transport_mode: Option<TransportMode>,
    pub last_error: Option<Seq<char>>,
    pub recent_rtt_ms: Option<u64>,
    pub average_rtt_ms: Option<u64>,
    pub stale_pointer_packets: u64,
    pub latest_pointer_sequence: Option<u64>,
    pub clipboard_enabled: bool,
    pub last_clipboard_format: Option<Seq<char>>,
    pub last_clipboard_bytes: Option<u64>,
    pub clipboard_ignored_reason: Option<Seq<char>>,
    pub transfer_active: bool,
    pub transfer_id: Option<u128>,
    pub transfer_bytes_done: u64,
    pub transfer_bytes_total: u64,
    pub transfer_current_file: Option<Seq<char>>,
    pub drag_drop_enabled: bool,
    pub drag_drop_state: Option<Seq<char>>,
    pub active_drag_session: Option<u128>,
    pub drag_drop_destination: Option<Seq<char>>,
    pub mouse_diagnostics: Option<Seq<char>>,
    pub events: Seq<Seq<char>>,
}

impl View for AppStatus {
    type V = StatusView;

    open spec fn view(&self) -> StatusView {
        StatusView {
            run_state: self.run_state,
            transport_mode: self.transport_mode,
            last_error: opt_view(self.last_error),
            recent_rtt_ms: self.recent_rtt_ms,
            average_rtt_ms: self.average_rtt_ms,
            stale_pointer_packets: self.stale_pointer_packets,
            latest_pointer_sequence: self.latest_pointer_sequence,
            clipboard_enabled: self.clipboard_enabled,
            last_clipboard_format: opt_view(self.last_clipboard_format),
            last_clipboard_bytes: self.last_clipboard_bytes,
            clipboard_ignored_reason: opt_view(self.clipboard_ignored_reason),
            transfer_active: self.transfer_active,
            transfer_id: self.transfer_id,
            transfer_bytes_done: self.transfer_bytes_done,
            transfer_bytes_total: self.transfer_bytes_total,
            transfer_current_file: opt_view(self.transfer_current_file),
            drag_drop_enabled: self.drag_drop_enabled,
            drag_drop_state: opt_view(self.drag_drop_state),
            active_drag_session: self.active_drag_session,
            drag_drop_destination: opt_view(self.drag_drop_destination),
            mouse_diagnostics: opt_view(self.mouse_diagnostics),
            events: views(self.events@),
        }
    }
}

/// The log after a line was added: the oldest line goes when the log is full.
pub open spec fn logged(events: Seq<Seq<char>>, line: Seq<char>) -> Seq<Seq<char>> {
    (if events.len() == MAX_LOG_LINES {
        events.skip(1)
    } else {
        events
    }).push(line)
}

/// The weighted average that a new round trip time leads to: three parts of the
/// old average, one part of the new value.
pub open spec fn averaged(average: Option<u64>, rtt: u64) -> u64 {
    match average {
        Some(old) => {
            let tripled = if 3 * old <= u64::MAX { 3 * old } else { u64::MAX as int };
            let sum = if tripled + rtt <= u64::MAX { tripled + rtt } else { u64::MAX as int };
            (sum / 4) as u64
        },
        None => rtt,
    }
}

impl StatusView {
    /// The status of a program that has not been started.
    pub open spec fn initial() -> StatusView {
        StatusView {
            run_state: RunState::Stopped,
            transport_mode: None,
            last_error: None,
            recent_rtt_ms: None,
            average_rtt_ms: None,
            stale_pointer_packets: 0,
            latest_pointer_sequence: None,
            clipboard_enabled: false,
            last_clipboard_format: None,
            last_clipboard_bytes: None,
            clipboard_ignored_reason: None,
            transfer_active: false,
            transfer_id: None,
            transfer_bytes_done: 0,
            transfer_bytes_total: 0,
            transfer_current_file: None,
            drag_drop_enabled: false,
            drag_drop_state: None,
            active_drag_session: None,
            drag_drop_destination: None,
            mouse_diagnostics: None,
            events: Seq::empty(),
        }
    }

    /// The status without everything that a session showed; state and log stay.
    pub open spec fn reset(self) -> StatusView {
        StatusView { run_state: self.run_state, events: self.events, ..StatusView::initial() }
    }

    /// The status with one more log line.
    pub open spec fn with_log(self, line: Seq<char>) -> StatusView {
        StatusView { events: logged(self.events, line), ..self }
    }
}

impl Default for AppStatus {
    fn default() -> (r: Self)
        ensures
            r@ == StatusView::initial(),
    {
        let r = AppStatus {
            run_state: RunState::Stopped,
            transport_mode: None,
            last_error: None,
            recent_rtt_ms: None,
            average_rtt_ms: None,
            stale_pointer_packets: 0,
            latest_pointer_sequence: None,
            clipboard_enabled: false,
            last_clipboard_format: None,
            last_clipboard_bytes: None,
            clipboard_ignored_reason: None,
            transfer_active: false,
            transfer_id: None,
            transfer_bytes_done: 0,
            transfer_bytes_total: 0,
            transfer_current_file: None,
            drag_drop_enabled: false,
            drag_drop_state: None,
            active_drag_session: None,
            drag_drop_destination: None,
            mouse_diagnostics: None,
            events: VecDeque::new(),
        };
        assert(views(r.events@) =~= Seq::<Seq<char>>::empty());
        r
    }
}

fn clone_lines(lines: &VecDeque<String>) -> (r: VecDeque<String>)
    ensures
        r@ == lines@,
{
    let mut out: VecDeque<String> = VecDeque::new();
    let mut i: usize = 0;
    while i < lines.len()
        invariant
            i <= lines@.len(),
            out@ == lines@.take(i as int),
        decreases lines@.len() - i,
    {
        out.push_back(lines[i].clone());
        assert(lines@.take(i as int + 1) =~= lines@.take(i as int).push(lines@[i as int]));
        i = i + 1;
    }
    assert(lines@.take(lines@.len() as int) =~= lines@);
    out
}

impl Clone for AppStatus {
    fn clone(&self) -> (r: Self)
        ensures
            r@ == self@,
    {
        AppStatus {
            run_state: self.run_state,
            transport_mode: self.transport_mode,
            last_error: clone_text(&self.last_error),
            recent_rtt_ms: self.recent_rtt_ms,
            average_rtt_ms: self.average_rtt_ms,
            stale_pointer_packets: self.stale_pointer_packets,
            latest_pointer_sequence: self.latest_pointer_sequence,
            clipboard_enabled: self.clipboard_enabled,
            last_clipboard_format: clone_text(&self.last_clipboard_format),
            last_clipboard_bytes: self.last_clipboard_bytes,
            clipboard_ignored_reason: clone_text(&self.clipboard_ignored_reason),
            transfer_active: self.transfer_active,
            transfer_id: self.transfer_id,
            transfer_bytes_done: self.transfer_bytes_done,
            transfer_bytes_total: self.transfer_bytes_total,
            transfer_current_file: clone_text(&self.transfer_current_file),
            drag_drop_enabled: self.drag_drop_enabled,
            drag_drop_state: clone_text(&self.drag_drop_state),
            active_drag_session: self.active_drag_session,
            drag_drop_destination: clone_text(&self.drag_drop_destination),
            mouse_diagnostics: clone_text(&self.mouse_diagnostics),
            events: clone_lines(&self.events),
        }
    }
}

impl AppStatus {
    /// Clears everything that a session showed, except its state and the log.
    pub fn reset_runtime_fields(&mut self)
        ensures
            final(self)@ == old(self)@.reset(),
    {
        self.transport_mode = None;
        self.last_error = None;
        self.recent_rtt_ms = None;
        self.average_rtt_ms = None;
        self.stale_pointer_packets = 0;
        self.latest_pointer_sequence = None;
        self.clipboard_enabled = false;
        self.last_clipboard_format = None;
        self.last_clipboard_bytes = None;
        self.clipboard_ignored_reason = None;
        self.transfer_active = false;
        self.transfer_id = None;
        self.transfer_bytes_done = 0;
        self.transfer_bytes_total = 0;
        self.transfer_current_file = None;
        self.drag_drop_enabled = false;
        self.drag_drop_state = None;
        self.active_drag_session = None;
        self.drag_drop_destination = None;
        self.mouse_diagnostics = None;
    }

    /// Takes note of a round trip time.
    pub fn record_rtt(&mut self, rtt_ms: u64)
        ensures
            final(self)@ == (StatusView {
                recent_rtt_ms: Some(rtt_ms),
                average_rtt_ms: Some(averaged(old(self)@.average_rtt_ms, rtt_ms)),
                ..old(self)@
            }),
    {
        self.recent_rtt_ms = Some(rtt_ms);
        let average: u64 = match self.average_rtt_ms {
            Some(old_average) => {
                let tripled: u64 = if old_average <= u64::MAX / 3 {
                    3 * old_average
                } else {
                    u64::MAX
                };
                tripled.saturating_add(rtt_ms) / 4
            },
            None => rtt_ms,
        };
        self.average_rtt_ms = Some(average);
    }

    /// Adds a line to the log.
    pub fn push_log(&mut self, message: String)
        ensures
            final(self)@ == old(self)@.with_log(message@),
    {
        if self.events.len() == MAX_LOG_LINES {
            let _ = self.events.pop_front();
        }
        let ghost kept = self.events@;
        self.events.push_back(message);
        proof {
            assert(views(kept) =~= if old(self)@.events.len() == MAX_LOG_LINES {
                old(self)@.events.skip(1)
            } else {
                old(self)@.events
            });
            assert(views(kept.push(message)) =~= views(kept).push(message@));
        }
    }
}

/// The log never grows beyond its limit, and keeps the lines that were added last.
pub proof fn law_log_keeps_recent_lines(events: Seq<Seq<char>>, line: Seq<char>)
    requires
        events.len() <= MAX_LOG_LINES,
    ensures
        logged(events, line).len() <= MAX_LOG_LINES,
        logged(events, line).last() == line,
        logged(events, line).drop_last().is_suffix_of(events),
        events.len() < MAX_LOG_LINES ==> logged(events, line) == events.push(line),
{
    assert(logged(events, line).drop_last() =~= if events.len() == MAX_LOG_LINES {
        events.skip(1)
    } else {
        events
    });
}

/// The average lies between what it was and the new time, a quarter of the way: the first
/// time is the average, and an equal time leaves it.
pub proof fn law_average_moves_a_quarter(average: u64, rtt: u64)
    requires
        3 * average + rtt <= u64::MAX,
    ensures
        averaged(None, rtt) == rtt,
        4 * average <= u64::MAX ==> averaged(Some(average), average) == average,
        4 * averaged(Some(average), rtt) <= 3 * average + rtt < 4 * averaged(Some(average), rtt)
            + 4,
        average <= rtt ==> average <= averaged(Some(average), rtt) <= rtt,
        rtt <= average ==> rtt <= averaged(Some(average), rtt) <= average,
{
}

/// A line changes nothing of the status but the log, and a reset clears everything that a
/// session showed but its state and the log.
pub proof fn law_reset_keeps_state_and_log(status: StatusView, line: Seq<char>)
    ensures
        status.with_log(line) == (StatusView { events: status.with_log(line).events, ..status }),
        status.with_log(line).events.last() == line,
        status.reset().run_state == status.run_state,
        status.reset().events == status.events,
        status.reset().reset() == status.reset(),
        status.reset() == (StatusView {
            run_state: status.run_state,
            events: status.events,
            ..StatusView::initial()
        }),
        ({
            let cleared = status.reset();
            &&& cleared.transport_mode is None && cleared.last_error is None
            &&& cleared.recent_rtt_ms is None && cleared.average_rtt_ms is None
            &&& cleared.stale_pointer_packets == 0 && cleared.latest_pointer_sequence is None
            &&& !cleared.clipboard_enabled && cleared.last_clipboard_format is None
            &&& cleared.last_clipboard_bytes is None && cleared.clipboard_ignored_reason is None
            &&& !cleared.transfer_active && cleared.transfer_id is None
            &&& cleared.transfer_bytes_done == 0 && cleared.transfer_bytes_total == 0
            &&& cleared.transfer_current_file is None && !cleared.drag_drop_enabled
            &&& cleared.drag_drop_state is None && cleared.active_drag_session is None
            &&& cleared.drag_drop_destination is None && cleared.mouse_diagnostics is None
        }),
        StatusView::initial().run_state == RunState::Stopped,
        StatusView::initial().events.len() == 0,
{
}

} // verus!
