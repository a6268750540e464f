//! Heartbeats that wait for their echo, and the round trip times they give.
use crate::protocol::{Heartbeat, MessageView, WireMessage};
use crate::session::{one_action, ActionView, PumpAction, SessionUpdate, UpdateView};
use crate::text::views;
use crate::transport::{CommandView, ConnectionCommand};
use std::collections::VecDeque;
use vstd::prelude::*;

verus! {

/// The number of heartbeats that are waited for.
pub const MAX_OUTSTANDING_HEARTBEATS: usize = 8;

/// The heartbeats that wait, after one more was sent: the oldest are given up.
pub open spec fn with_sent(outstanding: Seq<u64>, sent_millis: u64) -> Seq<u64> {
    let all = outstanding.push(sent_millis);
    if all.len() > MAX_OUTSTANDING_HEARTBEATS {
        all.skip(all.len() - MAX_OUTSTANDING_HEARTBEATS)
    } else {
        all
    }
}

/// The heartbeats that wait, after an echo came.
pub open spec fn with_received(outstanding: Seq<u64>, sent_millis: u64) -> Seq<u64> {
    if outstanding.contains(sent_millis) {
        outstanding.remove(outstanding.index_of_first(sent_millis)->0)
    } else {
        outstanding
    }
}

/// The round trip time that an echo gives, if it is the echo of a waiting heartbeat
/// and the clock has not gone back.
pub open spec fn round_trip(outstanding: Seq<u64>, sent_millis: u64, now_millis: u64) -> Option<
    u64,
> {
    if outstanding.contains(sent_millis) && sent_millis <= now_millis {
        Some((now_millis - sent_millis) as u64)
    } else {
        None
    }
}

/// The heartbeats that wait for their echo, by the time they were sent.
#[derive(Debug, PartialEq, Eq)]
pub struct HeartbeatTracker {
    outstanding: VecDeque<u64>,
}

impl View for HeartbeatTracker {
    type V = Seq<u64>;

    closed spec fn view(&self) -> Seq<u64> {
        self.outstanding@
    }
}

impl Default for HeartbeatTracker {
    fn default() -> (r: Self)
        ensures
            r@ == Seq::<u64>::empty(),
    {
        HeartbeatTracker { outstanding: VecDeque::new() }
    }
}

impl HeartbeatTracker {
    /// A heartbeat was sent.
    pub fn sent(&mut self, sent_millis: u64)
        ensures
            final(self)@ == with_sent(old(self)@, sent_millis),
    {
        let ghost all = self.outstanding@.push(sent_millis);
        self.outstanding.push_back(sent_millis);
        while self.outstanding.len() > MAX_OUTSTANDING_HEARTBEATS
            invariant
                self.outstanding@.len() <= all.len(),
                self.outstanding@ == all.skip(all.len() - self.outstanding@.len()),
                self.outstanding@.len() < all.len() ==> self.outstanding@.len()
                    >= MAX_OUTSTANDING_HEARTBEATS,
            decreases self.outstanding@.len(),
        {
            let ghost before = self.outstanding@;
            let _ = self.outstanding.pop_front();
            assert(self.outstanding@ =~= all.skip(all.len() - self.outstanding@.len()));
        }
        assert(all.skip(0) =~= all);
    }

    /// An echo came. The round trip time is returned, if there is one.
    pub fn receive(&mut self, sent_millis: u64, now_millis: u64) -> (r: Option<u64>)
        ensures
            final(self)@ == with_received(old(self)@, sent_millis),
            r == round_trip(old(self)@, sent_millis, now_millis),
    {
        let ghost waiting = self.outstanding@;
        let mut i: usize = 0;
        while i < self.outstanding.len()
            invariant
                i <= self.outstanding@.len(),
                self.outstanding@ == waiting,
                waiting == old(self)@,
                forall|j: int| 0 <= j < i ==> waiting[j] != sent_millis,
            decreases self.outstanding@.len() - i,
        {
            if self.outstanding[i] == sent_millis {
                proof {
                    waiting.index_of_first_ensures(sent_millis);
                    assert(waiting.contains(sent_millis));
                    assert(waiting.index_of_first(sent_millis) == Some(i as int));
                }
                let _ = self.outstanding.remove(i);
                return now_millis.checked_sub(sent_millis);
            }
            i = i + 1;
        }
        None
    }
}

/// What a heartbeat of the peer leads to: an echo gives a round trip time, any
/// other heartbeat is sent back.
pub fn handle_heartbeat_message(
    message: Heartbeat,
    heartbeat: &mut HeartbeatTracker,
    now_millis: u64,
) -> (r: Vec<PumpAction>)
    ensures
        final(heartbeat)@ == with_received(old(heartbeat)@, message.sent_millis),
        views(r@) == heartbeat_actions(old(heartbeat)@, message, now_millis),
{
    match heartbeat.receive(message.sent_millis, now_millis) {
        Some(rtt) => one_action(PumpAction::Update(SessionUpdate::Rtt(rtt))),
        None => one_action(
            PumpAction::Connection(ConnectionCommand::SendReliable(WireMessage::Heartbeat(message))),
        ),
    }
}

/// What a heartbeat of the peer leads to.
pub open spec fn heartbeat_actions(
    outstanding: Seq<u64>,
    message: Heartbeat,
    now_millis: u64,
) -> Seq<ActionView> {
    match round_trip(outstanding, message.sent_millis, now_millis) {
        Some(rtt) => seq![ActionView::Update(UpdateView::Rtt(rtt))],
        None => seq![
            ActionView::Connection(CommandView::SendReliable(MessageView::Heartbeat(message))),
        ],
    }
}

/// Sends a heartbeat.
pub fn send_heartbeat(heartbeat: &mut HeartbeatTracker, now_millis: u64) -> (r: PumpAction)
    ensures
        final(heartbeat)@ == with_sent(old(heartbeat)@, now_millis),
        r@ == ActionView::Connection(
            CommandView::SendReliable(
                MessageView::Heartbeat((Heartbeat { sent_millis: now_millis })),
            ),
        ),
{
    heartbeat.sent(now_millis);
    PumpAction::Connection(
        ConnectionCommand::SendReliable(
            WireMessage::Heartbeat(Heartbeat { sent_millis: now_millis }),
        ),
    )
}

/// However many heartbeats are sent, only a few are waited for, and the latest one
/// is always among them.
pub proof fn law_outstanding_heartbeats_are_bounded(
    outstanding: Seq<u64>,
    sent_millis: u64,
    echo: u64,
)
    ensures
        with_sent(outstanding, sent_millis).len() <= MAX_OUTSTANDING_HEARTBEATS,
        with_sent(outstanding, sent_millis).last() == sent_millis,
        with_received(outstanding, echo).len() <= outstanding.len(),
{
    if outstanding.contains(echo) {
        outstanding.index_of_first_ensures(echo);
    }
}

/// The echo of a heartbeat gives the time since it was sent.
pub proof fn law_echo_gives_round_trip(outstanding: Seq<u64>, sent_millis: u64, now_millis: u64)
    requires
        sent_millis <= now_millis,
    ensures
        round_trip(with_sent(outstanding, sent_millis), sent_millis, now_millis) == Some(
            (now_millis - sent_millis) as u64,
        ),
{
    let waiting = with_sent(outstanding, sent_millis);
    assert(waiting[waiting.len() - 1] == sent_millis);
}

/// A heartbeat of the peer is sent back unchanged unless it is the echo of one that waits;
/// an echo gives the time since it was sent and is used once.
pub proof fn law_heartbeats_are_echoed_or_timed(
    outstanding: Seq<u64>,
    message: Heartbeat,
    now_millis: u64,
)
    requires
        message.sent_millis <= now_millis,
    ensures
        ({
            let actions = heartbeat_actions(outstanding, message, now_millis);
            &&& actions.len() == 1
            &&& outstanding.contains(message.sent_millis) ==> actions[0] == ActionView::Update(
                UpdateView::Rtt((now_millis - message.sent_millis) as u64),
            )
            &&& !outstanding.contains(message.sent_millis) ==> actions[0] == ActionView::Connection(
                CommandView::SendReliable(MessageView::Heartbeat(message)),
            )
        }),
        outstanding.no_duplicates() ==> !with_received(outstanding, message.sent_millis).contains(
            message.sent_millis,
        ),
        outstanding.contains(message.sent_millis) ==> with_received(
            outstanding,
            message.sent_millis,
        ).len() + 1 == outstanding.len(),
        !outstanding.contains(message.sent_millis) ==> with_received(
            outstanding,
            message.sent_millis,
        ) == outstanding,
{
    if outstanding.contains(message.sent_millis) {
        outstanding.index_of_first_ensures(message.sent_millis);
        let k = outstanding.index_of_first(message.sent_millis)->0;
        let rest = outstanding.remove(k);
        if outstanding.no_duplicates() && rest.contains(message.sent_millis) {
            let j = choose|j: int| 0 <= j < rest.len() && rest[j] == message.sent_millis;
            let at = if j < k { j } else { j + 1 };
            assert(outstanding[at] == message.sent_millis);
            assert(outstanding[k] == message.sent_millis);
        }
    }
}

/// The eight latest heartbeats are waited for, in the order in which they were sent.
pub proof fn law_latest_heartbeats_wait(outstanding: Seq<u64>, sent_millis: u64)
    ensures
        outstanding.len() < 8 ==> with_sent(outstanding, sent_millis) == outstanding.push(
            sent_millis,
        ),
        outstanding.len() >= 8 ==> with_sent(outstanding, sent_millis).len() == 8,
        outstanding.len() == 8 ==> forall|i: int|
            0 <= i < 7 ==> #[trigger] with_sent(outstanding, sent_millis)[i] == outstanding[i + 1],
{
}

} // verus!
