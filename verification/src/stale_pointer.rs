//! How often outdated pointer packets are reported.
use crate::status::{AppStatus, StatusView};
use crate::text::{decimal, join2, number};
use vstd::prelude::*;

verus! {

/// The time between two reports.
pub const STALE_POINTER_EMIT_INTERVAL_MILLIS: u64 = 1_000;

/// A report of the number of outdated packets.
#[derive(Clone, Copy, Debug, PartialEq, Eq, Structural)]
pub struct StalePointerPacketEmission {
    pub count: u64,
}

impl StalePointerPacketEmission {
    pub fn log_message(&self) -> (r: String)
        ensures
            r@ == "KCP UDP stale pointer packets: "@ + decimal(self.count as nat),
    {
        let count_text = number(self.count);
        join2("KCP UDP stale pointer packets: ", count_text.as_str())
    }
}

/// What was reported last, and when.
#[derive(Clone, Copy, Debug, PartialEq, Eq, Structural)]
pub struct StalePointerPacketGate {
    pub last_emitted_count: u64,
    pub last_emitted_at_millis: Option<u64>,
}

/// Nothing was reported yet.
pub open spec fn fresh_gate() -> StalePointerPacketGate {
    StalePointerPacketGate { last_emitted_count: 0, last_emitted_at_millis: None }
}

impl Default for StalePointerPacketGate {
    fn default() -> (r: Self)
        ensures
            r == fresh_gate(),
    {
        StalePointerPacketGate { last_emitted_count: 0, last_emitted_at_millis: None }
    }
}

impl StalePointerPacketGate {
    /// Whether a count is reported now: the first is, and then each other count once
    /// the interval has passed.
    pub open spec fn opens(self, count: u64, now_millis: u64) -> bool {
        match self.last_emitted_at_millis {
            None => true,
            Some(last) => count != self.last_emitted_count && now_millis - last
                >= STALE_POINTER_EMIT_INTERVAL_MILLIS,
        }
    }

    /// The state after it was asked.
    pub open spec fn after(self, count: u64, now_millis: u64) -> StalePointerPacketGate {
        if self.opens(count, now_millis) {
            StalePointerPacketGate {
                last_emitted_count: count,
                last_emitted_at_millis: Some(now_millis),
            }
        } else {
            self
        }
    }

    pub fn reset(&mut self)
        ensures
            *final(self) == fresh_gate(),
    {
        self.last_emitted_count = 0;
        self.last_emitted_at_millis = None;
    }

    pub fn maybe_emit(&mut self, count: u64, now_millis: u64) -> (r: Option<
        StalePointerPacketEmission,
    >)
        ensures
            *final(self) == old(self).after(count, now_millis),
            r == (if old(self).opens(count, now_millis) {
                Some(StalePointerPacketEmission { count })
            } else {
                None
            }),
    {
        match self.last_emitted_at_millis {
            Some(last) => {
                if count == self.last_emitted_count {
                    return None;
                }
                let elapsed: u64 = now_millis.saturating_sub(last);
                if elapsed < STALE_POINTER_EMIT_INTERVAL_MILLIS {
                    return None;
                }
            },
            None => {},
        }
        self.last_emitted_count = count;
        self.last_emitted_at_millis = Some(now_millis);
        Some(StalePointerPacketEmission { count })
    }
}

/// The status shows every count; a report is made when one is due.
pub fn apply_stale_pointer_packet_update(
    status: &mut AppStatus,
    gate: &mut StalePointerPacketGate,
    count: u64,
    now_millis: u64,
) -> (r: Option<StalePointerPacketEmission>)
    ensures
        final(status)@ == (StatusView { stale_pointer_packets: count, ..old(status)@ }),
        *final(gate) == old(gate).after(count, now_millis),
        r == (if old(gate).opens(count, now_millis) {
            Some(StalePointerPacketEmission { count })
        } else {
            None
        }),
{
    status.stale_pointer_packets = count;
    gate.maybe_emit(count, now_millis)
}

/// Two reports are at least an interval apart.
pub proof fn law_reports_are_spaced(
    gate: StalePointerPacketGate,
    first: u64,
    first_at: u64,
    second: u64,
    second_at: u64,
)
    requires
        gate.opens(first, first_at),
        gate.after(first, first_at).opens(second, second_at),
    ensures
        second != first,
        second_at - first_at >= STALE_POINTER_EMIT_INTERVAL_MILLIS,
{
}

/// The first count is reported at once, a count that was reported is not reported again,
/// and another one is as soon as a second has passed. What was reported is remembered.
pub proof fn law_new_counts_are_reported(
    gate: StalePointerPacketGate,
    count: u64,
    now_millis: u64,
)
    ensures
        gate.last_emitted_at_millis is None ==> gate.opens(count, now_millis),
        gate.last_emitted_at_millis matches Some(last) ==> (gate.opens(count, now_millis) <==> count
            != gate.last_emitted_count && now_millis >= last + 1_000),
        !gate.opens(count, now_millis) ==> gate.after(count, now_millis) == gate,
        gate.opens(count, now_millis) ==> !gate.after(count, now_millis).opens(count, now_millis),
        gate.opens(count, now_millis) ==> gate.after(count, now_millis).last_emitted_at_millis
            == Some(now_millis),
        fresh_gate().opens(count, now_millis),
{
}

} // verus!
