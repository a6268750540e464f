//! Counts of mouse events, for the status.
use crate::geometry::Point;
use crate::text::{decimal, join2, join3, join4, number, signed_decimal, signed_number};
use vstd::prelude::*;

verus! {

pub const RAW_DELTA_RECENT_MILLIS: u64 = 50;

pub const MOUSE_DIAGNOSTICS_EMIT_INTERVAL_MILLIS: u64 = 500;

#[derive(Clone, Copy, Debug, PartialEq, Eq, Structural)]
pub struct MouseDiagnostics {
    pub hook_positions_local: u64,
    pub hook_positions_remote: u64,
    pub raw_deltas: u64,
    pub remote_moves: u64,
    pub pointer_park_attempts: u64,
    pub pointer_park_consumed: u64,
    pub pointer_park_missed: u64,
    pub return_local: u64,
    pub last_raw_delta: Option<Point>,
    pub last_raw_delta_millis: Option<u64>,
    pub last_local_pointer: Option<Point>,
    pub last_remote_pointer: Option<Point>,
    pub last_emit_millis: Option<u64>,
}

/// A count with one more; it stops at the largest number.
pub open spec fn one_more(n: u64) -> u64 {
    if n < u64::MAX { (n + 1) as u64 } else { n }
}

/// A pair of coordinates, or a dash.
pub open spec fn pair_text(pair: Option<Point>) -> Seq<char> {
    match pair {
        Some(p) => signed_decimal(p.x as int) + ","@ + signed_decimal(p.y as int),
        None => "-"@,
    }
}

/// A pair of coordinates, or a dash.
pub fn format_point(point: Option<Point>) -> (r: String)
    ensures
        r@ == pair_text(point),
{
    match point {
        Some(p) => {
            let x_text = signed_number(p.x as i64);
            let y_text = signed_number(p.y as i64);
            join3(x_text.as_str(), ",", y_text.as_str())
        },
        None => "-".to_owned(),
    }
}

impl Default for MouseDiagnostics {
    fn default() -> (r: Self)
        ensures
            r == MouseDiagnostics::zero(),
    {
        MouseDiagnostics {
            hook_positions_local: 0,
            hook_positions_remote: 0,
            raw_deltas: 0,
            remote_moves: 0,
            pointer_park_attempts: 0,
            pointer_park_consumed: 0,
            pointer_park_missed: 0,
            return_local: 0,
            last_raw_delta: None,
            last_raw_delta_millis: None,
            last_local_pointer: None,
            last_remote_pointer: None,
            last_emit_millis: None,
        }
    }
}

impl MouseDiagnostics {
    /// Nothing happened yet.
    pub open spec fn zero() -> MouseDiagnostics {
        MouseDiagnostics {
            hook_positions_local: 0,
            hook_positions_remote: 0,
            raw_deltas: 0,
            remote_moves: 0,
            pointer_park_attempts: 0,
            pointer_park_consumed: 0,
            pointer_park_missed: 0,
            return_local: 0,
            last_raw_delta: None,
            last_raw_delta_millis: None,
            last_local_pointer: None,
            last_remote_pointer: None,
            last_emit_millis: None,
        }
    }

    pub open spec fn with_position(self, point: Point, remote_mode: bool) -> MouseDiagnostics {
        if remote_mode {
            MouseDiagnostics {
                hook_positions_remote: one_more(self.hook_positions_remote),
                last_local_pointer: Some(point),
                ..self
            }
        } else {
            MouseDiagnostics {
                hook_positions_local: one_more(self.hook_positions_local),
                last_local_pointer: Some(point),
                ..self
            }
        }
    }

    pub open spec fn with_raw_delta(self, dx: i32, dy: i32, now_millis: u64) -> MouseDiagnostics {
        MouseDiagnostics {
            raw_deltas: one_more(self.raw_deltas),
            last_raw_delta: Some(Point { x: dx, y: dy }),
            last_raw_delta_millis: Some(now_millis),
            ..self
        }
    }

    pub open spec fn with_remote_move(self, point: Point) -> MouseDiagnostics {
        MouseDiagnostics {
            remote_moves: one_more(self.remote_moves),
            last_remote_pointer: Some(point),
            ..self
        }
    }

    pub open spec fn with_park_attempt(self) -> MouseDiagnostics {
        MouseDiagnostics { pointer_park_attempts: one_more(self.pointer_park_attempts), ..self }
    }

    pub open spec fn with_park_consumed(self) -> MouseDiagnostics {
        MouseDiagnostics { pointer_park_consumed: one_more(self.pointer_park_consumed), ..self }
    }

    pub open spec fn with_park_missed(self) -> MouseDiagnostics {
        MouseDiagnostics { pointer_park_missed: one_more(self.pointer_park_missed), ..self }
    }

    pub open spec fn with_return(self) -> MouseDiagnostics {
        MouseDiagnostics { return_local: one_more(self.return_local), ..self }
    }

    /// A raw movement came not long ago.
    pub open spec fn raw_recent(self, now_millis: u64) -> bool {
        match self.last_raw_delta_millis {
            Some(last) => now_millis - last <= RAW_DELTA_RECENT_MILLIS,
            None => false,
        }
    }

    /// The counts may be shown again.
    pub open spec fn due(self, now_millis: u64) -> bool {
        match self.last_emit_millis {
            Some(last) => now_millis - last >= MOUSE_DIAGNOSTICS_EMIT_INTERVAL_MILLIS,
            None => true,
        }
    }

    /// The counts as text.
    pub open spec fn summary_text(self) -> Seq<char> {
        "hook local="@ + decimal(self.hook_positions_local as nat) + ", hook remote="@ + decimal(
            self.hook_positions_remote as nat,
        ) + ", raw="@ + decimal(self.raw_deltas as nat) + ", sent="@ + decimal(
            self.remote_moves as nat,
        ) + ", parks="@ + decimal(self.pointer_park_attempts as nat) + "/"@ + decimal(
            self.pointer_park_consumed as nat,
        ) + "/"@ + decimal(self.pointer_park_missed as nat) + ", returns="@ + decimal(
            self.return_local as nat,
        ) + ", last delta="@ + pair_text(self.last_raw_delta) + ", local="@ + pair_text(
            self.last_local_pointer,
        ) + ", remote="@ + pair_text(self.last_remote_pointer)
    }

    pub fn record_hook_position(&mut self, point: Point, remote_mode: bool)
        ensures
            *final(self) == old(self).with_position(point, remote_mode),
    {
        if remote_mode {
            self.hook_positions_remote = self.hook_positions_remote.saturating_add(1);
        } else {
            self.hook_positions_local = self.hook_positions_local.saturating_add(1);
        }
        self.last_local_pointer = Some(point);
    }

    pub fn record_raw_delta(&mut self, dx: i32, dy: i32, now_millis: u64)
        ensures
            *final(self) == old(self).with_raw_delta(dx, dy, now_millis),
    {
        self.raw_deltas = self.raw_deltas.saturating_add(1);
        self.last_raw_delta = Some(Point::new(dx, dy));
        self.last_raw_delta_millis = Some(now_millis);
    }

    pub fn record_remote_move(&mut self, point: Point)
        ensures
            *final(self) == old(self).with_remote_move(point),
    {
        self.remote_moves = self.remote_moves.saturating_add(1);
        self.last_remote_pointer = Some(point);
    }

    pub fn record_pointer_park_attempt(&mut self)
        ensures
            *final(self) == old(self).with_park_attempt(),
    {
        self.pointer_park_attempts = self.pointer_park_attempts.saturating_add(1);
    }

    pub fn record_pointer_park_consumed(&mut self)
        ensures
            *final(self) == old(self).with_park_consumed(),
    {
        self.pointer_park_consumed = self.pointer_park_consumed.saturating_add(1);
    }

    pub fn record_pointer_park_missed(&mut self)
        ensures
            *final(self) == old(self).with_park_missed(),
    {
        self.pointer_park_missed = self.pointer_park_missed.saturating_add(1);
    }

    pub fn record_return_local(&mut self)
        ensures
            *final(self) == old(self).with_return(),
    {
        self.return_local = self.return_local.saturating_add(1);
    }

    pub fn raw_delta_recent(&self, now_millis: u64) -> (r: bool)
        ensures
            r == self.raw_recent(now_millis),
    {
        match self.last_raw_delta_millis {
            Some(last) => now_millis.saturating_sub(last) <= RAW_DELTA_RECENT_MILLIS,
            None => false,
        }
    }

    /// The counts as text, if they may be shown again.
    pub fn summary_if_due(&mut self, now_millis: u64) -> (r: Option<String>)
        ensures
            old(self).due(now_millis) ==> {
                &&& *final(self) == (MouseDiagnostics {
                    last_emit_millis: Some(now_millis),
                    ..*old(self)
                })
                &&& r matches Some(text)
                &&& text@ == old(self).summary_text()
            },
            !old(self).due(now_millis) ==> *final(self) == *old(self) && r is None,
    {
        match self.last_emit_millis {
            Some(last) => {
                if now_millis.saturating_sub(last) < MOUSE_DIAGNOSTICS_EMIT_INTERVAL_MILLIS {
                    return None;
                }
            },
            None => {},
        }
        self.last_emit_millis = Some(now_millis);
        Some(self.summary())
    }

    pub fn summary(&self) -> (r: String)
        ensures
            r@ == self.summary_text(),
    {
        let local = number(self.hook_positions_local);
        let remote = number(self.hook_positions_remote);
        let raw = number(self.raw_deltas);
        let sent = number(self.remote_moves);
        let attempts = number(self.pointer_park_attempts);
        let consumed = number(self.pointer_park_consumed);
        let missed = number(self.pointer_park_missed);
        let came_back = number(self.return_local);
        let delta = format_point(self.last_raw_delta);
        let local_point = format_point(self.last_local_pointer);
        let remote_point = format_point(self.last_remote_pointer);
        let s = join4("hook local=", local.as_str(), ", hook remote=", remote.as_str());
        let s = join3(s.as_str(), ", raw=", raw.as_str());
        let s = join3(s.as_str(), ", sent=", sent.as_str());
        let s = join3(s.as_str(), ", parks=", attempts.as_str());
        let s = join3(s.as_str(), "/", consumed.as_str());
        let s = join3(s.as_str(), "/", missed.as_str());
        let s = join3(s.as_str(), ", returns=", came_back.as_str());
        let s = join3(s.as_str(), ", last delta=", delta.as_str());
        let s = join3(s.as_str(), ", local=", local_point.as_str());
        let s = join2(s.as_str(), ", remote=");
        join2(s.as_str(), remote_point.as_str())
    }
}

/// Every event is counted by its own count and by no other, and what was seen last is
/// remembered.
pub proof fn law_events_are_counted_once(
    d: MouseDiagnostics,
    point: Point,
    remote_mode: bool,
    dx: i32,
    dy: i32,
    now_millis: u64,
)
    ensures
        ({
            let total = |m: MouseDiagnostics|
                m.hook_positions_local + m.hook_positions_remote + m.raw_deltas + m.remote_moves
                    + m.pointer_park_attempts + m.pointer_park_consumed + m.pointer_park_missed
                    + m.return_local;
            let room = |n: u64| n < u64::MAX;
            let position = d.with_position(point, remote_mode);
            let raw = d.with_raw_delta(dx, dy, now_millis);
            let moved = d.with_remote_move(point);
            &&& position.last_local_pointer == Some(point)
            &&& remote_mode && room(d.hook_positions_remote) ==> position.hook_positions_remote
                == d.hook_positions_remote + 1 && total(position) == total(d) + 1
            &&& !remote_mode && room(d.hook_positions_local) ==> position.hook_positions_local
                == d.hook_positions_local + 1 && total(position) == total(d) + 1
            &&& raw.last_raw_delta == Some(Point { x: dx, y: dy })
            &&& raw.last_raw_delta_millis == Some(now_millis)
            &&& room(d.raw_deltas) ==> raw.raw_deltas == d.raw_deltas + 1 && total(raw) == total(d)
                + 1
            &&& moved.last_remote_pointer == Some(point)
            &&& room(d.remote_moves) ==> moved.remote_moves == d.remote_moves + 1 && total(moved)
                == total(d) + 1
            &&& room(d.pointer_park_attempts) ==> d.with_park_attempt().pointer_park_attempts
                == d.pointer_park_attempts + 1 && total(d.with_park_attempt()) == total(d) + 1
            &&& room(d.pointer_park_consumed) ==> d.with_park_consumed().pointer_park_consumed
                == d.pointer_park_consumed + 1 && total(d.with_park_consumed()) == total(d) + 1
            &&& room(d.pointer_park_missed) ==> d.with_park_missed().pointer_park_missed
                == d.pointer_park_missed + 1 && total(d.with_park_missed()) == total(d) + 1
            &&& room(d.return_local) ==> d.with_return().return_local == d.return_local + 1
                && total(d.with_return()) == total(d) + 1
            &&& total(MouseDiagnostics::zero()) == 0
        }),
{
}

/// A raw movement counts as recent for fifty milliseconds, and the counts are shown again
/// after half a second.
pub proof fn law_raw_movements_are_recent_for_a_while(
    d: MouseDiagnostics,
    dx: i32,
    dy: i32,
    at: u64,
    now_millis: u64,
)
    ensures
        d.with_raw_delta(dx, dy, at).raw_recent(now_millis) <==> now_millis <= at + 50,
        d.last_raw_delta_millis is None ==> !d.raw_recent(now_millis),
        d.last_emit_millis is None ==> d.due(now_millis),
        d.last_emit_millis matches Some(last) ==> (d.due(now_millis) <==> now_millis >= last + 500),
{
}

/// The summary tells every count under its own name, and the last positions with x before y.
pub proof fn law_the_summary_names_the_counts(d: MouseDiagnostics, point: Point)
    ensures
        d.summary_text() == "hook local="@ + decimal(d.hook_positions_local as nat)
            + ", hook remote="@ + decimal(d.hook_positions_remote as nat) + ", raw="@ + decimal(
            d.raw_deltas as nat,
        ) + ", sent="@ + decimal(d.remote_moves as nat) + ", parks="@ + decimal(
            d.pointer_park_attempts as nat,
        ) + "/"@ + decimal(d.pointer_park_consumed as nat) + "/"@ + decimal(
            d.pointer_park_missed as nat,
        ) + ", returns="@ + decimal(d.return_local as nat) + ", last delta="@ + pair_text(
            d.last_raw_delta,
        ) + ", local="@ + pair_text(d.last_local_pointer) + ", remote="@ + pair_text(
            d.last_remote_pointer,
        ),
        pair_text(Some(point)) == signed_decimal(point.x as int) + ","@ + signed_decimal(
            point.y as int,
        ),
        pair_text(None) == "-"@,
{
}

} // verus!
