//! Input on its way to the other computer: pointer movements are merged, the order
//! of everything else is kept.
use crate::config::TransportMode;
use crate::geometry::Point;
use crate::input_event::InputEvent;
use crate::protocol::{MessageView, WireMessage};
use crate::session::{ActionView, PumpAction, SessionUpdate, UpdateView};
use crate::text::{decimal, join3, number, views};
use crate::transport::{CommandView, ConnectionCommand};
use vstd::prelude::*;

verus! {

broadcast use crate::text::lemma_views_push;

/// More merged movements than this within a window are worth a log line.
pub const REMOTE_MOVE_COALESCE_LOG_THRESHOLD: u64 = 100;

pub const REMOTE_MOVE_COALESCE_LOG_WINDOW_MILLIS: u64 = 1_000;

/// What is done to send input.
#[derive(Debug, PartialEq, Eq)]
pub enum RemoteSendAction {
    Command(ConnectionCommand),
    Log(String),
}

pub enum SendView {
    Command(CommandView),
    Log(Seq<char>),
}

impl View for RemoteSendAction {
    type V = SendView;

    open spec fn view(&self) -> SendView {
        match self {
            RemoteSendAction::Command(command) => SendView::Command(command@),
            RemoteSendAction::Log(message) => SendView::Log(message@),
        }
    }
}

/// Tells of merged movements, once per window.
#[derive(Clone, Copy, Debug, PartialEq, Eq, Structural)]
pub struct RemoteMoveCoalescingLogGate {
    pub window_start_millis: Option<u64>,
    pub coalesced_in_window: u64,
    pub emitted_in_window: bool,
}

/// How many movements were merged.
#[derive(Clone, Copy, Debug, PartialEq, Eq, Structural)]
pub struct RemoteMoveCoalescingEmission {
    pub count: u64,
}

/// The log line for merged movements.
pub open spec fn merged_line(count: u64) -> Seq<char> {
    "coalesced remote mouse moves: "@ + decimal(count as nat) + " in the last second"@
}

impl RemoteMoveCoalescingEmission {
    pub fn log_message(&self) -> (r: String)
        ensures
            r@ == merged_line(self.count),
    {
        let count_text = number(self.count);
        join3("coalesced remote mouse moves: ", count_text.as_str(), " in the last second")
    }
}

impl RemoteMoveCoalescingLogGate {
    /// Nothing was merged yet.
    pub open spec fn closed() -> RemoteMoveCoalescingLogGate {
        RemoteMoveCoalescingLogGate {
            window_start_millis: None,
            coalesced_in_window: 0,
            emitted_in_window: false,
        }
    }

    /// The state with a window that holds the time: the old one, or one that begins.
    pub open spec fn in_window(self, now_millis: u64) -> RemoteMoveCoalescingLogGate {
        match self.window_start_millis {
            Some(start) => if now_millis - start >= REMOTE_MOVE_COALESCE_LOG_WINDOW_MILLIS {
                RemoteMoveCoalescingLogGate {
                    window_start_millis: Some(now_millis),
                    ..RemoteMoveCoalescingLogGate::closed()
                }
            } else {
                self
            },
            None => RemoteMoveCoalescingLogGate {
                window_start_millis: Some(now_millis),
                ..RemoteMoveCoalescingLogGate::closed()
            },
        }
    }

    /// The number of merged movements, with one more.
    pub open spec fn counted(self) -> u64 {
        if self.coalesced_in_window < u64::MAX {
            (self.coalesced_in_window + 1) as u64
        } else {
            u64::MAX
        }
    }

    /// The state after a movement was merged, and the number to tell.
    pub open spec fn recorded(self, now_millis: u64) -> (RemoteMoveCoalescingLogGate, Option<u64>) {
        let window = self.in_window(now_millis);
        if window.counted() > REMOTE_MOVE_COALESCE_LOG_THRESHOLD && !window.emitted_in_window {
            (
                RemoteMoveCoalescingLogGate {
                    coalesced_in_window: window.counted(),
                    emitted_in_window: true,
                    ..window
                },
                Some(window.counted()),
            )
        } else {
            (
                RemoteMoveCoalescingLogGate { coalesced_in_window: window.counted(), ..window },
                None,
            )
        }
    }

    pub fn record(&mut self, now_millis: u64) -> (r: Option<RemoteMoveCoalescingEmission>)
        ensures
            *final(self) == old(self).recorded(now_millis).0,
            r == (match old(self).recorded(now_millis).1 {
                Some(count) => Some(RemoteMoveCoalescingEmission { count }),
                None => None,
            }),
    {
        let fresh = match self.window_start_millis {
            Some(start) => now_millis.saturating_sub(start)
                >= REMOTE_MOVE_COALESCE_LOG_WINDOW_MILLIS,
            None => true,
        };
        if fresh {
            self.window_start_millis = Some(now_millis);
            self.coalesced_in_window = 0;
            self.emitted_in_window = false;
        }
        self.coalesced_in_window = self.coalesced_in_window.saturating_add(1);
        if self.coalesced_in_window > REMOTE_MOVE_COALESCE_LOG_THRESHOLD && !self.emitted_in_window
        {
            self.emitted_in_window = true;
            Some(RemoteMoveCoalescingEmission { count: self.coalesced_in_window })
        } else {
            None
        }
    }
}

impl Default for RemoteMoveCoalescingLogGate {
    fn default() -> (r: Self)
        ensures
            r == RemoteMoveCoalescingLogGate::closed(),
    {
        RemoteMoveCoalescingLogGate {
            window_start_millis: None,
            coalesced_in_window: 0,
            emitted_in_window: false,
        }
    }
}

/// The command that sends a pointer position.
pub open spec fn pointer_command(point: Point) -> CommandView {
    CommandView::SendLatestPointer { x: point.x, y: point.y }
}

pub fn latest_pointer_command(point: Point) -> (r: ConnectionCommand)
    ensures
        r@ == pointer_command(point),
{
    ConnectionCommand::SendLatestPointer { x: point.x, y: point.y }
}

/// Input that waits to be sent. Over TCP the latest pointer position waits, so that
/// it can be replaced by a later one.
#[derive(Clone, Copy, Debug, PartialEq, Eq, Structural)]
pub struct RemoteInputSendBuffer {
    pub transport_mode: TransportMode,
    pub pending_tcp_move: Option<Point>,
    pub coalescing_log_gate: RemoteMoveCoalescingLogGate,
}

impl RemoteInputSendBuffer {
    /// A buffer in which nothing waits.
    pub open spec fn empty(transport_mode: TransportMode) -> RemoteInputSendBuffer {
        RemoteInputSendBuffer {
            transport_mode,
            pending_tcp_move: None,
            coalescing_log_gate: RemoteMoveCoalescingLogGate::closed(),
        }
    }

    /// What sending a pointer position leads to.
    pub open spec fn pointed(self, point: Point, now_millis: u64) -> (
        RemoteInputSendBuffer,
        Seq<SendView>,
    ) {
        match self.transport_mode {
            TransportMode::Kcp => (self, seq![SendView::Command(pointer_command(point))]),
            TransportMode::Tcp => {
                let holding = RemoteInputSendBuffer { pending_tcp_move: Some(point), ..self };
                if self.pending_tcp_move is Some {
                    let (gate, count) = self.coalescing_log_gate.recorded(now_millis);
                    (
                        RemoteInputSendBuffer { coalescing_log_gate: gate, ..holding },
                        match count {
                            Some(n) => seq![SendView::Log(merged_line(n))],
                            None => Seq::empty(),
                        },
                    )
                } else {
                    (holding, Seq::empty())
                }
            },
        }
    }

    /// The buffer once the waiting position was sent.
    pub open spec fn flushed(self) -> RemoteInputSendBuffer {
        RemoteInputSendBuffer { pending_tcp_move: None, ..self }
    }

    /// What sends the waiting position.
    pub open spec fn waiting(self) -> Seq<SendView> {
        match self.pending_tcp_move {
            Some(point) => seq![SendView::Command(pointer_command(point))],
            None => Seq::empty(),
        }
    }

    /// What sends a message: a waiting position goes first.
    pub open spec fn followed_by(self, message: MessageView) -> Seq<SendView> {
        self.waiting().push(SendView::Command(CommandView::SendReliable(message)))
    }

    pub fn new(transport_mode: TransportMode) -> (r: Self)
        ensures
            r == RemoteInputSendBuffer::empty(transport_mode),
    {
        RemoteInputSendBuffer {
            transport_mode,
            pending_tcp_move: None,
            coalescing_log_gate: RemoteMoveCoalescingLogGate::default(),
        }
    }

    pub fn send_pointer(&mut self, point: Point, now_millis: u64) -> (r: Vec<RemoteSendAction>)
        ensures
            (*final(self), views(r@)) == old(self).pointed(point, now_millis),
    {
        let mut actions: Vec<RemoteSendAction> = Vec::new();
        match self.transport_mode {
            TransportMode::Kcp => {
                actions.push(RemoteSendAction::Command(latest_pointer_command(point)));
            },
            TransportMode::Tcp => {
                let replaced = self.pending_tcp_move.is_some();
                self.pending_tcp_move = Some(point);
                if replaced {
                    match self.coalescing_log_gate.record(now_millis) {
                        Some(emission) => {
                            actions.push(RemoteSendAction::Log(emission.log_message()));
                        },
                        None => {},
                    }
                }
            },
        }
        assert(views(actions@) =~= old(self).pointed(point, now_millis).1);
        actions
    }

    pub fn send_reliable_input(&mut self, event: InputEvent) -> (r: Vec<RemoteSendAction>)
        ensures
            *final(self) == old(self).flushed(),
            views(r@) == old(self).followed_by(MessageView::Input(event)),
    {
        let mut actions = self.flush_pending_move();
        actions.push(
            RemoteSendAction::Command(ConnectionCommand::SendReliable(WireMessage::Input(event))),
        );
        actions
    }

    pub fn send_release_all(&mut self) -> (r: Vec<RemoteSendAction>)
        ensures
            *final(self) == old(self).flushed(),
            views(r@) == old(self).followed_by(MessageView::ReleaseAll),
    {
        let mut actions = self.flush_pending_move();
        actions.push(
            RemoteSendAction::Command(ConnectionCommand::SendReliable(WireMessage::ReleaseAll)),
        );
        actions
    }

    pub fn flush_pending_move(&mut self) -> (r: Vec<RemoteSendAction>)
        ensures
            *final(self) == old(self).flushed(),
            views(r@) == old(self).waiting(),
    {
        let mut actions: Vec<RemoteSendAction> = Vec::new();
        match self.pending_tcp_move.take() {
            Some(point) => {
                actions.push(RemoteSendAction::Command(latest_pointer_command(point)));
            },
            None => {},
        }
        assert(views(actions@) =~= old(self).waiting());
        actions
    }
}

/// What the session does to send input.
pub open spec fn send_action(action: SendView) -> ActionView {
    match action {
        SendView::Command(command) => ActionView::Connection(command),
        SendView::Log(message) => ActionView::Update(UpdateView::Log(message)),
    }
}

pub open spec fn send_actions(actions: Seq<SendView>) -> Seq<ActionView> {
    actions.map_values(|a: SendView| send_action(a))
}

pub fn emit_remote_send_actions(actions: Vec<RemoteSendAction>, out: &mut Vec<PumpAction>)
    ensures
        views(final(out)@) == views(old(out)@) + send_actions(views(actions@)),
{
    let ghost before = views(out@);
    let ghost given = actions@;
    let ghost all = send_actions(views(given));
    let mut actions = actions;
    let ghost mut done: int = 0;
    assert(before + all.take(0) =~= before);
    assert(given.skip(0) =~= given);
    while actions.len() > 0
        invariant
            0 <= done <= given.len(),
            all == send_actions(views(given)),
            actions@ == given.skip(done),
            views(out@) == before + all.take(done),
        decreases actions@.len(),
    {
        let action = actions.remove(0);
        assert(action == given[done]);
        assert(actions@ =~= given.skip(done + 1));
        let ghost sent = out@;
        match action {
            RemoteSendAction::Command(command) => {
                out.push(PumpAction::Connection(command));
            },
            RemoteSendAction::Log(message) => {
                out.push(PumpAction::Update(SessionUpdate::Log(message)));
            },
        }
        proof {
            assert(out@.last()@ == send_action(views(given)[done]));
            assert(all[done] == send_action(views(given)[done]));
            assert(views(out@) =~= views(sent).push(all[done]));
            assert(views(out@) =~= before + all.take(done + 1));
            done = done + 1;
        }
    }
    assert(all.take(done) =~= all);
}

/// A pointer position that waits is sent before any reliable input, so the other
/// computer clicks where the pointer is; and it is sent only once.
pub proof fn law_waiting_position_goes_first(buffer: RemoteInputSendBuffer, message: MessageView)
    requires
        buffer.pending_tcp_move is Some,
    ensures
        buffer.followed_by(message) == seq![
            SendView::Command(pointer_command(buffer.pending_tcp_move->0)),
            SendView::Command(CommandView::SendReliable(message)),
        ],
        buffer.flushed().waiting() == Seq::<SendView>::empty(),
{
    assert(buffer.followed_by(message) =~= seq![
        SendView::Command(pointer_command(buffer.pending_tcp_move->0)),
        SendView::Command(CommandView::SendReliable(message)),
    ]);
}

/// Over TCP any number of movements before the next flush is sent as one: the last.
pub proof fn law_last_position_wins(
    buffer: RemoteInputSendBuffer,
    first: Point,
    first_at: u64,
    second: Point,
    second_at: u64,
)
    requires
        buffer.transport_mode == TransportMode::Tcp,
    ensures
        buffer.pointed(first, first_at).0.pointed(second, second_at).0.waiting() == seq![
            SendView::Command(pointer_command(second)),
        ],
{
}

/// Merged movements are told at most once while a window lasts.
pub proof fn law_merging_is_told_once_per_window(
    gate: RemoteMoveCoalescingLogGate,
    first_at: u64,
    second_at: u64,
)
    requires
        gate.recorded(first_at).1 is Some,
        second_at - gate.recorded(first_at).0.window_start_millis->0
            < REMOTE_MOVE_COALESCE_LOG_WINDOW_MILLIS,
    ensures
        gate.recorded(first_at).0.recorded(second_at).1 is None,
{
}

/// A pointer position is never lost and never changed: over KCP it is sent at once, over
/// TCP it waits and is the one that the next flush sends.
pub proof fn law_positions_are_sent_as_they_are(
    buffer: RemoteInputSendBuffer,
    point: Point,
    now_millis: u64,
)
    ensures
        ({
            let (after, sent) = buffer.pointed(point, now_millis);
            let command = SendView::Command(
                CommandView::SendLatestPointer { x: point.x, y: point.y },
            );
            &&& after.transport_mode == buffer.transport_mode
            &&& buffer.transport_mode == TransportMode::Kcp ==> after == buffer && sent.len() == 1
                && sent[0] == command
            &&& buffer.transport_mode == TransportMode::Tcp ==> {
                &&& forall|i: int| 0 <= i < sent.len() ==> (#[trigger] sent[i]) is Log
                &&& after.waiting().len() == 1
                &&& after.waiting()[0] == command
            }
        }),
{
}

/// A message is sent exactly once and last, and nothing but a waiting position before it;
/// nothing waits any more.
pub proof fn law_messages_are_sent_once(buffer: RemoteInputSendBuffer, message: MessageView)
    ensures
        buffer.followed_by(message).last() == SendView::Command(
            CommandView::SendReliable(message),
        ),
        buffer.followed_by(message).len() == if buffer.pending_tcp_move is Some {
            2int
        } else {
            1
        },
        buffer.pending_tcp_move matches Some(point) ==> buffer.followed_by(message)[0]
            == SendView::Command(CommandView::SendLatestPointer { x: point.x, y: point.y }),
        buffer.flushed().pending_tcp_move is None,
        buffer.flushed().transport_mode == buffer.transport_mode,
        buffer.waiting().len() == if buffer.pending_tcp_move is Some {
            1int
        } else {
            0
        },
        buffer.pending_tcp_move matches Some(point) ==> buffer.waiting()[0] == SendView::Command(
            CommandView::SendLatestPointer { x: point.x, y: point.y },
        ),
{
}

/// What is sent becomes one action each, in order: a command goes to the connection as it
/// is, a line to the log.
pub proof fn law_sends_become_actions(actions: Seq<SendView>)
    ensures
        send_actions(actions).len() == actions.len(),
        forall|i: int|
            0 <= i < actions.len() ==> match #[trigger] actions[i] {
                SendView::Command(command) => send_actions(actions)[i] == ActionView::Connection(
                    command,
                ),
                SendView::Log(line) => send_actions(actions)[i] == ActionView::Update(
                    UpdateView::Log(line),
                ),
            },
{
}

/// Merged movements are told once in a window of a second, as soon as there are more than
/// a hundred, with their number; a window that is over begins to count anew.
pub proof fn law_merged_movements_are_told_once(
    gate: RemoteMoveCoalescingLogGate,
    start: u64,
    now_millis: u64,
)
    requires
        gate.coalesced_in_window < u64::MAX,
        start <= now_millis,
    ensures
        ({
            let (after, told) = gate.recorded(now_millis);
            let same = gate.window_start_millis == Some(start) && now_millis < start + 1_000;
            let over = gate.window_start_millis is None || (gate.window_start_millis == Some(start)
                && now_millis >= start + 1_000);
            &&& same ==> after.coalesced_in_window == gate.coalesced_in_window + 1
                && after.window_start_millis == Some(start)
            &&& over ==> after.coalesced_in_window == 1 && after.window_start_millis == Some(
                now_millis,
            ) && told is None && !after.emitted_in_window
            &&& same ==> (told is Some <==> !gate.emitted_in_window && gate.coalesced_in_window + 1
                > 100)
            &&& told matches Some(count) ==> count == after.coalesced_in_window
                && after.emitted_in_window
            &&& same && gate.emitted_in_window ==> after.emitted_in_window
        }),
        RemoteMoveCoalescingLogGate::closed().coalesced_in_window == 0,
        RemoteMoveCoalescingLogGate::closed().window_start_millis is None,
        !RemoteMoveCoalescingLogGate::closed().emitted_in_window,
        merged_line(start) == "coalesced remote mouse moves: "@ + decimal(start as nat)
            + " in the last second"@,
{
}

} // verus!
