//! The control connection: when it is opened, lost and opened again, and its frames.
use crate::config::TransportMode;
use crate::input_event::{InputEvent, MouseMoveAbsEvent};
use crate::octets::{
    be_bytes, buffer_to_vec, buffer_with_capacity, lemma_be_len, put_slice, put_u32,
};
use crate::protocol::{
    encode_frame, frame_bytes, law_frames_are_bounded, message_bytes, MessageView, ProtocolError,
    WireMessage, MAX_FRAME_LEN, MAX_PAYLOAD_LEN,
};
use crate::text::{decimal, join3, join4, join2, number, views};
use crate::transport::{CommandView, ConnectionCommand, ConnectionEvent, ConnectionEventView};
use vstd::prelude::*;

verus! {

broadcast use crate::text::lemma_views_push;

/// A connection on which nothing arrives for so long is lost.
pub const RELIABLE_READ_TIMEOUT_MILLIS: u64 = 5_000;

/// The time before a connection is opened again.
pub const RECONNECT_DELAY_MILLIS: u64 = 500;

/// What is reported when nothing arrives in time.
pub fn read_timeout_message() -> (r: String)
    ensures
        r@ == "reliable read timed out after "@ + decimal(RELIABLE_READ_TIMEOUT_MILLIS as nat)
            + "ms"@,
{
    let millis = number(RELIABLE_READ_TIMEOUT_MILLIS);
    join3("reliable read timed out after ", millis.as_str(), "ms")
}

/// What is reported when a connection cannot be opened.
pub open spec fn failure_text(peer: Seq<char>, error: Seq<char>) -> Seq<char> {
    "connection to "@ + peer + " failed: "@ + error
        + ". Check that Borderless is running as Agent on the target computer, the IP/port match, and Windows firewall allows the configured port."@
}

pub fn connection_failure_message(peer: &str, error: &str) -> (r: String)
    ensures
        r@ == failure_text(peer@, error@),
{
    let start = join4("connection to ", peer, " failed: ", error);
    join2(
        start.as_str(),
        ". Check that Borderless is running as Agent on the target computer, the IP/port match, and Windows firewall allows the configured port.",
    )
}

/// Where a connection stands.
#[derive(Clone, Copy, Debug, PartialEq, Eq, Structural)]
pub enum LinkPhase {
    /// It is being opened or waited for.
    Opening,
    Open,
    /// It could not be opened; it is tried again after a delay.
    Failed,
    /// It was lost; it is opened again after a delay.
    Lost,
    Stopped,
}

/// What happens to a connection.
#[derive(Debug, PartialEq, Eq)]
pub enum LinkInput {
    /// It is open, with a peer.
    Opened(String),
    OpenFailed(String),
    Command(ConnectionCommand),
    /// No more commands will come.
    CommandsClosed,
    Message(WireMessage),
    /// Reading or writing failed.
    Broken(String),
    /// The other side closed it.
    Closed,
    /// A message could not be handed over for sending.
    SendRefused,
    DelayOver,
}

pub enum LinkInputView {
    Opened(Seq<char>),
    OpenFailed(Seq<char>),
    Command(CommandView),
    CommandsClosed,
    Message(MessageView),
    Broken(Seq<char>),
    Closed,
    SendRefused,
    DelayOver,
}

impl View for LinkInput {
    type V = LinkInputView;

    open spec fn view(&self) -> LinkInputView {
        match self {
            LinkInput::Opened(peer) => LinkInputView::Opened(peer@),
            LinkInput::OpenFailed(error) => LinkInputView::OpenFailed(error@),
            LinkInput::Command(command) => LinkInputView::Command(command@),
            LinkInput::CommandsClosed => LinkInputView::CommandsClosed,
            LinkInput::Message(message) => LinkInputView::Message(message@),
            LinkInput::Broken(error) => LinkInputView::Broken(error@),
            LinkInput::Closed => LinkInputView::Closed,
            LinkInput::SendRefused => LinkInputView::SendRefused,
            LinkInput::DelayOver => LinkInputView::DelayOver,
        }
    }
}

/// What a connection asks for.
#[derive(Debug, PartialEq, Eq)]
pub enum LinkAction {
    Emit(ConnectionEvent),
    /// Open the connection, or wait for one.
    Open,
    Send(WireMessage),
    /// Stop reading and writing.
    Close,
    /// Wait before the connection is opened again.
    Delay,
}

pub enum LinkActionView {
    Emit(ConnectionEventView),
    Open,
    Send(MessageView),
    Close,
    Delay,
}

impl View for LinkAction {
    type V = LinkActionView;

    open spec fn view(&self) -> LinkActionView {
        match self {
            LinkAction::Emit(event) => LinkActionView::Emit(event@),
            LinkAction::Open => LinkActionView::Open,
            LinkAction::Send(message) => LinkActionView::Send(message@),
            LinkAction::Close => LinkActionView::Close,
            LinkAction::Delay => LinkActionView::Delay,
        }
    }
}

/// A control connection. The controller opens it; the agent listens for it.
#[derive(Debug, PartialEq, Eq)]
pub struct Link {
    listens: bool,
    address: String,
    mode: TransportMode,
    phase: LinkPhase,
    peer: String,
}

#[verifier::ext_equal]
pub struct LinkView {
    pub listens: bool,
    pub address: Seq<char>,
    pub mode: TransportMode,
    pub phase: LinkPhase,
    pub peer: Seq<char>,
}

impl View for Link {
    type V = LinkView;

    closed spec fn view(&self) -> LinkView {
        LinkView {
            listens: self.listens,
            address: self.address@,
            mode: self.mode,
            phase: self.phase,
            peer: self.peer@,
        }
    }
}

/// The message that a command sends over the control connection. A pointer position
/// travels as an absolute movement.
pub open spec fn message_of(command: CommandView) -> Option<MessageView> {
    match command {
        CommandView::SendReliable(message) => Some(message),
        CommandView::SendLatestPointer { x, y } => Some(
            MessageView::Input(InputEvent::MouseMoveAbs(MouseMoveAbsEvent { x, y })),
        ),
        CommandView::Stop => None,
    }
}

/// Reports an event.
pub open spec fn emits(event: ConnectionEventView) -> LinkActionView {
    LinkActionView::Emit(event)
}

impl LinkView {
    pub open spec fn at(self, phase: LinkPhase) -> LinkView {
        LinkView { phase, ..self }
    }

    /// What opens the connection once more.
    pub open spec fn reopening(self) -> Seq<LinkActionView> {
        seq![emits(ConnectionEventView::Connecting(self.address)), LinkActionView::Open]
    }

    /// What a connection does when it begins.
    pub open spec fn beginning(self) -> Seq<LinkActionView> {
        seq![emits(ConnectionEventView::Waiting)] + self.reopening()
    }

    /// What a connection does when it is lost.
    pub open spec fn losing(self) -> Seq<LinkActionView> {
        seq![emits(ConnectionEventView::Disconnected(self.peer)), LinkActionView::Delay]
    }

    /// What something that happens leads to.
    pub open spec fn step(self, input: LinkInputView) -> (LinkView, Seq<LinkActionView>) {
        let nothing = (self, Seq::<LinkActionView>::empty());
        match input {
            LinkInputView::Opened(peer) => if self.phase == LinkPhase::Opening {
                (
                    LinkView { phase: LinkPhase::Open, peer, ..self },
                    seq![emits(ConnectionEventView::Connected { peer, mode: self.mode })],
                )
            } else {
                nothing
            },
            LinkInputView::OpenFailed(error) => if self.phase == LinkPhase::Opening
                && !self.listens {
                (
                    self.at(LinkPhase::Failed),
                    seq![
                        emits(ConnectionEventView::Error(failure_text(self.address, error))),
                        LinkActionView::Delay,
                    ],
                )
            } else {
                nothing
            },
            LinkInputView::Command(command) => match message_of(command) {
                None => self.stopping(),
                Some(message) => if self.phase == LinkPhase::Open {
                    (self, seq![LinkActionView::Send(message)])
                } else {
                    nothing
                },
            },
            LinkInputView::CommandsClosed => self.stopping(),
            LinkInputView::Message(message) => if self.phase == LinkPhase::Open {
                (self, seq![emits(ConnectionEventView::Message(message))])
            } else {
                nothing
            },
            LinkInputView::Broken(error) => if self.phase == LinkPhase::Open {
                (
                    self.at(LinkPhase::Lost),
                    seq![emits(ConnectionEventView::Error(error)), LinkActionView::Close]
                        + self.losing(),
                )
            } else {
                nothing
            },
            LinkInputView::Closed => if self.phase == LinkPhase::Open {
                (self.at(LinkPhase::Lost), self.losing())
            } else {
                nothing
            },
            LinkInputView::SendRefused => if self.phase == LinkPhase::Open {
                (
                    self.at(LinkPhase::Lost),
                    seq![emits(ConnectionEventView::Error("TCP control channel closed"@))]
                        + self.losing(),
                )
            } else {
                nothing
            },
            LinkInputView::DelayOver => if self.phase == LinkPhase::Failed {
                (
                    self.at(LinkPhase::Opening),
                    seq![emits(ConnectionEventView::Disconnected(self.address))] + self.reopening(),
                )
            } else if self.phase == LinkPhase::Lost {
                (
                    self.at(LinkPhase::Opening),
                    if self.listens {
                        self.beginning()
                    } else {
                        self.reopening()
                    },
                )
            } else {
                nothing
            },
        }
    }

    /// The connection is not wanted any more.
    pub open spec fn stopping(self) -> (LinkView, Seq<LinkActionView>) {
        (
            self.at(LinkPhase::Stopped),
            if self.phase == LinkPhase::Open {
                seq![LinkActionView::Close]
            } else {
                Seq::empty()
            },
        )
    }
}

impl Link {
    /// A connection that begins.
    pub fn start(listens: bool, address: String, mode: TransportMode) -> (r: (Self, Vec<LinkAction>))
        ensures
            r.0@ == (LinkView {
                listens,
                address: address@,
                mode,
                phase: LinkPhase::Opening,
                peer: address@,
            }),
            views(r.1@) == r.0@.beginning(),
    {
        let link = Link {
            listens,
            peer: address.clone(),
            address,
            mode,
            phase: LinkPhase::Opening,
        };
        let mut actions: Vec<LinkAction> = Vec::new();
        actions.push(LinkAction::Emit(ConnectionEvent::Waiting));
        link.reopen(&mut actions);
        assert(views(actions@) =~= link@.beginning());
        (link, actions)
    }

    /// Whether the connection is not wanted any more.
    pub fn is_stopped(&self) -> (r: bool)
        ensures
            r == (self@.phase == LinkPhase::Stopped),
    {
        self.phase == LinkPhase::Stopped
    }

    fn reopen(&self, actions: &mut Vec<LinkAction>)
        ensures
            views(final(actions)@) == views(old(actions)@) + self@.reopening(),
    {
        actions.push(LinkAction::Emit(ConnectionEvent::Connecting(self.address.clone())));
        actions.push(LinkAction::Open);
        assert(views(actions@) =~= views(old(actions)@) + self@.reopening());
    }

    fn lose(&mut self, actions: &mut Vec<LinkAction>)
        ensures
            final(self)@ == old(self)@.at(LinkPhase::Lost),
            views(final(actions)@) == views(old(actions)@) + old(self)@.losing(),
    {
        self.phase = LinkPhase::Lost;
        actions.push(LinkAction::Emit(ConnectionEvent::Disconnected(self.peer.clone())));
        actions.push(LinkAction::Delay);
        assert(views(actions@) =~= views(old(actions)@) + old(self)@.losing());
    }

    fn stop(&mut self, actions: &mut Vec<LinkAction>)
        ensures
            final(self)@ == old(self)@.stopping().0,
            views(final(actions)@) == views(old(actions)@) + old(self)@.stopping().1,
    {
        if self.phase == LinkPhase::Open {
            actions.push(LinkAction::Close);
        }
        self.phase = LinkPhase::Stopped;
        assert(views(actions@) =~= views(old(actions)@) + old(self)@.stopping().1);
    }

    fn delay_over(&mut self, actions: &mut Vec<LinkAction>)
        ensures
            final(self)@ == old(self)@.step(LinkInputView::DelayOver).0,
            views(final(actions)@) == views(old(actions)@) + old(self)@.step(
                LinkInputView::DelayOver,
            ).1,
    {
        match self.phase {
            LinkPhase::Failed => {
                self.phase = LinkPhase::Opening;
                actions.push(LinkAction::Emit(ConnectionEvent::Disconnected(self.address.clone())));
                self.reopen(actions);
            },
            LinkPhase::Lost => {
                self.phase = LinkPhase::Opening;
                if self.listens {
                    actions.push(LinkAction::Emit(ConnectionEvent::Waiting));
                }
                self.reopen(actions);
            },
            _ => {},
        }
        assert(views(actions@) =~= views(old(actions)@) + old(self)@.step(
            LinkInputView::DelayOver,
        ).1);
    }

    /// Something happens to the connection.
    pub fn on_input(&mut self, input: LinkInput) -> (r: Vec<LinkAction>)
        ensures
            (final(self)@, views(r@)) == old(self)@.step(input@),
    {
        let mut actions: Vec<LinkAction> = Vec::new();
        let ghost empty = views(actions@);
        assert(empty =~= Seq::<LinkActionView>::empty());
        let open = self.phase == LinkPhase::Open;
        match input {
            LinkInput::Opened(peer) => {
                if self.phase == LinkPhase::Opening {
                    self.phase = LinkPhase::Open;
                    self.peer = peer.clone();
                    actions.push(
                        LinkAction::Emit(ConnectionEvent::Connected { peer, mode: self.mode }),
                    );
                }
            },
            LinkInput::OpenFailed(error) => {
                if self.phase == LinkPhase::Opening && !self.listens {
                    self.phase = LinkPhase::Failed;
                    let text = connection_failure_message(self.address.as_str(), error.as_str());
                    actions.push(LinkAction::Emit(ConnectionEvent::Error(text)));
                    actions.push(LinkAction::Delay);
                }
            },
            LinkInput::Command(command) => match command {
                ConnectionCommand::Stop => {
                    self.stop(&mut actions);
                },
                ConnectionCommand::SendReliable(message) => {
                    if open {
                        actions.push(LinkAction::Send(message));
                    }
                },
                ConnectionCommand::SendLatestPointer { x, y } => {
                    if open {
                        actions.push(
                            LinkAction::Send(
                                WireMessage::Input(
                                    InputEvent::MouseMoveAbs(MouseMoveAbsEvent { x, y }),
                                ),
                            ),
                        );
                    }
                },
            },
            LinkInput::CommandsClosed => {
                self.stop(&mut actions);
            },
            LinkInput::Message(message) => {
                if open {
                    actions.push(LinkAction::Emit(ConnectionEvent::Message(message)));
                }
            },
            LinkInput::Broken(error) => {
                if open {
                    actions.push(LinkAction::Emit(ConnectionEvent::Error(error)));
                    actions.push(LinkAction::Close);
                    self.lose(&mut actions);
                }
            },
            LinkInput::Closed => {
                if open {
                    self.lose(&mut actions);
                }
            },
            LinkInput::SendRefused => {
                if open {
                    actions.push(
                        LinkAction::Emit(
                            ConnectionEvent::Error("TCP control channel closed".to_owned()),
                        ),
                    );
                    self.lose(&mut actions);
                }
            },
            LinkInput::DelayOver => {
                self.delay_over(&mut actions);
            },
        }
        assert(views(actions@) =~= old(self)@.step(input@).1);
        actions
    }
}

/// The frames that are written on a connection, numbered from one.
#[derive(Debug, PartialEq, Eq)]
pub struct FrameWriter {
    pub next_sequence: u64,
}

/// A frame on the connection: its length in four bytes, then the frame.
pub open spec fn framed(sequence: u64, message: MessageView) -> Seq<u8> {
    be_bytes(frame_bytes(sequence, message).len(), 4) + frame_bytes(sequence, message)
}

impl FrameWriter {
    pub fn new() -> (r: Self)
        ensures
            r.next_sequence == 1,
    {
        FrameWriter { next_sequence: 1 }
    }

    /// The bytes that send a message, or why it cannot be sent.
    pub fn next_frame(&mut self, message: &WireMessage) -> (r: Result<Vec<u8>, ProtocolError>)
        requires
            old(self).next_sequence < u64::MAX,
        ensures
            match r {
                Ok(bytes) => {
                    &&& message_bytes(message@).len() <= MAX_PAYLOAD_LEN
                    &&& bytes@ == framed(old(self).next_sequence, message@)
                    &&& final(self).next_sequence == old(self).next_sequence + 1
                },
                Err(error) => {
                    &&& message_bytes(message@).len() > MAX_PAYLOAD_LEN
                    &&& *final(self) == *old(self)
                    &&& error matches ProtocolError::PayloadTooLarge { max, actual }
                    &&& max == MAX_PAYLOAD_LEN
                    &&& actual == message_bytes(message@).len()
                },
            },
    {
        match encode_frame(self.next_sequence, message) {
            Ok(frame) => {
                proof {
                    law_frames_are_bounded(self.next_sequence, message@);
                    lemma_be_len(frame@.len(), 4);
                }
                self.next_sequence = self.next_sequence + 1;
                let mut buf = buffer_with_capacity(4 + frame.len());
                put_u32(&mut buf, frame.len() as u32);
                put_slice(&mut buf, frame.as_slice());
                let bytes = buffer_to_vec(&buf);
                assert(bytes@ =~= framed(old(self).next_sequence, message@));
                Ok(bytes)
            },
            Err(error) => Err(error),
        }
    }
}

/// The length that a frame announces, if a frame may be so long.
pub fn incoming_frame_len(announced: u32) -> (r: Result<usize, String>)
    ensures
        match r {
            Ok(n) => n == announced && announced <= MAX_FRAME_LEN,
            Err(error) => announced > MAX_FRAME_LEN && error@ == "incoming frame too large: max "@
                + decimal(MAX_FRAME_LEN as nat) + ", got "@ + decimal(announced as nat),
        },
{
    let n: usize = announced as usize;
    if n > MAX_FRAME_LEN {
        let max_text = number(MAX_FRAME_LEN as u64);
        let got_text = number(announced as u64);
        return Err(
            join4(
                "incoming frame too large: max ",
                max_text.as_str(),
                ", got ",
                got_text.as_str(),
            ),
        );
    }
    Ok(n)
}

/// Whatever happens, messages are sent and delivered only while the connection is
/// open.
pub proof fn law_messages_need_an_open_connection(link: LinkView, input: LinkInputView, i: int)
    requires
        0 <= i < link.step(input).1.len(),
        link.step(input).1[i] is Send || (link.step(input).1[i] matches LinkActionView::Emit(event)
            && event is Message),
    ensures
        link.phase == LinkPhase::Open,
{
}

/// A connection is opened again only after a delay.
pub proof fn law_reopening_waits(link: LinkView, input: LinkInputView, i: int)
    requires
        0 <= i < link.step(input).1.len(),
        link.step(input).1[i] is Open,
    ensures
        input is DelayOver,
        link.phase == LinkPhase::Failed || link.phase == LinkPhase::Lost,
{
}

/// Once stopped, a connection stays stopped and does nothing.
pub proof fn law_stop_is_final(link: LinkView, input: LinkInputView)
    requires
        link.phase == LinkPhase::Stopped,
    ensures
        link.step(input).0.phase == LinkPhase::Stopped,
        link.step(input).1.len() == 0,
{
}

/// A lost connection is reported as disconnected exactly when it had been open.
pub proof fn law_loss_is_reported(link: LinkView, input: LinkInputView)
    requires
        link.step(input).0.phase == LinkPhase::Lost,
        link.phase != LinkPhase::Lost,
    ensures
        link.phase == LinkPhase::Open,
        link.step(input).1.contains(emits(ConnectionEventView::Disconnected(link.peer))),
{
    let out = link.step(input).1;
    assert(out[out.len() - 2] == emits(ConnectionEventView::Disconnected(link.peer)));
}

/// A frame that was written is announced with a length that the reader accepts.
pub proof fn law_written_frames_are_accepted(sequence: u64, message: MessageView)
    requires
        message_bytes(message).len() <= MAX_PAYLOAD_LEN,
    ensures
        frame_bytes(sequence, message).len() <= MAX_FRAME_LEN,
{
    law_frames_are_bounded(sequence, message);
}

/// An open connection hands everything on unchanged: what is to be sent is sent, a pointer
/// position as an absolute movement to its place, and what arrives is reported. A
/// connection that is not open sends and reports no messages.
pub proof fn law_open_connections_carry_messages(
    link: LinkView,
    message: MessageView,
    x: i32,
    y: i32,
)
    ensures
        ({
            let sent = link.step(LinkInputView::Command(CommandView::SendReliable(message)));
            let moved = link.step(LinkInputView::Command(CommandView::SendLatestPointer { x, y }));
            let read = link.step(LinkInputView::Message(message));
            &&& sent.0 == link && moved.0 == link && read.0 == link
            &&& link.phase == LinkPhase::Open ==> {
                &&& sent.1 == seq![LinkActionView::Send(message)]
                &&& moved.1 == seq![
                    LinkActionView::Send(
                        MessageView::Input(InputEvent::MouseMoveAbs(MouseMoveAbsEvent { x, y })),
                    ),
                ]
                &&& read.1 == seq![LinkActionView::Emit(ConnectionEventView::Message(message))]
            }
            &&& link.phase != LinkPhase::Open ==> sent.1.len() == 0 && moved.1.len() == 0
                && read.1.len() == 0
        }),
{
}

/// A connection that opens is reported with its peer; one that fails to open or breaks is
/// reported with the reason, and with the peer that was lost. In both cases it is opened
/// again, after a delay.
pub proof fn law_lost_connections_are_opened_again(
    link: LinkView,
    peer: Seq<char>,
    error: Seq<char>,
)
    ensures
        link.phase == LinkPhase::Opening ==> ({
            let (open, told) = link.step(LinkInputView::Opened(peer));
            &&& open.phase == LinkPhase::Open
            &&& open.peer == peer
            &&& told == seq![
                LinkActionView::Emit(ConnectionEventView::Connected { peer, mode: link.mode }),
            ]
        }),
        link.phase == LinkPhase::Opening && !link.listens ==> ({
            let (failed, told) = link.step(LinkInputView::OpenFailed(error));
            let (again, retried) = failed.step(LinkInputView::DelayOver);
            &&& told[0] matches LinkActionView::Emit(ConnectionEventView::Error(text))
            &&& text == failure_text(link.address, error)
            &&& told.last() == LinkActionView::Delay
            &&& again.phase == LinkPhase::Opening
            &&& retried[0] == LinkActionView::Emit(
                ConnectionEventView::Disconnected(link.address),
            )
            &&& retried.last() == LinkActionView::Open
        }),
        link.phase == LinkPhase::Open ==> ({
            let (broken, told) = link.step(LinkInputView::Broken(error));
            let (closed, left) = link.step(LinkInputView::Closed);
            let (again, retried) = broken.step(LinkInputView::DelayOver);
            &&& broken.phase == LinkPhase::Lost && closed == broken
            &&& told[0] == LinkActionView::Emit(ConnectionEventView::Error(error))
            &&& told[1] == LinkActionView::Close
            &&& told[2] == LinkActionView::Emit(ConnectionEventView::Disconnected(link.peer))
            &&& told[3] == LinkActionView::Delay
            &&& left == seq![
                LinkActionView::Emit(ConnectionEventView::Disconnected(link.peer)),
                LinkActionView::Delay,
            ]
            &&& again.phase == LinkPhase::Opening
            &&& retried.last() == LinkActionView::Open
            &&& retried[retried.len() - 2] == LinkActionView::Emit(
                ConnectionEventView::Connecting(link.address),
            )
            &&& link.listens <==> retried[0] == LinkActionView::Emit(ConnectionEventView::Waiting)
        }),
{
}

/// A connection that is stopped does nothing any more, whatever happens; one that was open
/// is closed first.
pub proof fn law_stopped_connections_rest(link: LinkView, input: LinkInputView)
    ensures
        ({
            let (stopped, last) = link.step(LinkInputView::Command(CommandView::Stop));
            &&& link.step(LinkInputView::CommandsClosed) == (stopped, last)
            &&& stopped.phase == LinkPhase::Stopped
            &&& link.phase == LinkPhase::Open ==> last == seq![LinkActionView::Close]
            &&& link.phase != LinkPhase::Open ==> last.len() == 0
            &&& stopped.step(input) == (stopped, Seq::<LinkActionView>::empty())
        }),
{
}

/// What is written to the connection is the length of the frame in four bytes, most
/// significant first, and then the frame.
pub proof fn law_frames_are_written_behind_their_length(
    sequence: u64,
    message: MessageView,
    i: int,
)
    ensures
        ({
            let raw = framed(sequence, message);
            let frame = frame_bytes(sequence, message);
            &&& raw.len() == 4 + frame.len()
            &&& raw.skip(4) == frame
            &&& 0 <= i < 4 ==> raw[i] == (frame.len() / crate::octets::pow256((3 - i) as nat))
                % 256
        }),
{
    let raw = framed(sequence, message);
    let frame = frame_bytes(sequence, message);
    lemma_be_len(frame.len(), 4);
    assert(raw.skip(4) =~= frame);
    if 0 <= i < 4 {
        crate::octets::law_bytes_stand_in_order(frame.len(), 4, i);
        assert(raw[i] == be_bytes(frame.len(), 4)[i]);
    }
}

} // verus!
