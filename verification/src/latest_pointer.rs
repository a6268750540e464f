//! Pointer positions sent as datagrams, of which only the latest one counts.
use crate::ids::fresh_id;
use crate::octets::{
    be_bytes, be_value, bits32, buffer_to_vec, buffer_with_capacity, get_i32, get_u128, get_u32,
    get_u64, lemma_be_len, lemma_be_round_trip, lemma_pow256_values, put_i32, put_u128, put_u32,
    put_u64, signed32,
};
use crate::text::{decimal, join2, join3, number};
use std::collections::BTreeSet;
use vstd::prelude::*;
use vstd::slice::slice_subrange;

verus! {

broadcast use {vstd::std_specs::btree::group_btree_axioms, vstd::laws_cmp::group_laws_cmp};

pub const POINTER_MAGIC: u32 = 0x4250_5452;

pub const POINTER_LEN: usize = 36;

/// A pointer position with its place in the stream of positions.
#[derive(Clone, Copy, Debug, PartialEq, Eq, Structural)]
pub struct PointerPacket {
    pub session_id: u128,
    pub sequence: u64,
    pub x: i32,
    pub y: i32,
}

/// Why bytes are not a pointer packet.
#[derive(Clone, Copy, Debug, PartialEq, Eq, Structural)]
pub enum PointerPacketError {
    Length { actual: usize },
    Magic { magic: u32 },
}

/// The last eight hexadecimal digits of a number.
pub open spec fn hex8(n: nat) -> Seq<char> {
    Seq::new(
        8,
        |i: int|
            crate::ids::hex_char(
                (n as int / vstd::arithmetic::power::pow(16, (7 - i) as nat)) % 16,
            ),
    )
}

fn hex_digit_text(d: u32) -> (r: String)
    requires
        d < 16,
    ensures
        r@ == seq![crate::ids::hex_char(d as int)],
{
    proof {
        reveal_strlit("0"); reveal_strlit("1"); reveal_strlit("2"); reveal_strlit("3");
        reveal_strlit("4"); reveal_strlit("5"); reveal_strlit("6"); reveal_strlit("7");
        reveal_strlit("8"); reveal_strlit("9"); reveal_strlit("a"); reveal_strlit("b");
        reveal_strlit("c"); reveal_strlit("d"); reveal_strlit("e"); reveal_strlit("f");
    }
    let s = if d == 0 { "0" } else if d == 1 { "1" } else if d == 2 { "2" } else if d == 3 { "3" }
        else if d == 4 { "4" } else if d == 5 { "5" } else if d == 6 { "6" } else if d == 7 { "7" }
        else if d == 8 { "8" } else if d == 9 { "9" } else if d == 10 { "a" } else if d == 11 { "b" }
        else if d == 12 { "c" } else if d == 13 { "d" } else if d == 14 { "e" } else { "f" };
    assert(s@ =~= seq![crate::ids::hex_char(d as int)]);
    s.to_owned()
}

fn hex8_text(n: u32) -> (r: String)
    ensures
        r@ == hex8(n as nat),
{
    let mut out = String::new();
    let mut place: u32 = 0x1000_0000;
    let mut i: usize = 0;
    proof {
        reveal(vstd::arithmetic::power::pow);
        reveal_with_fuel(vstd::arithmetic::power::pow, 9);
    }
    while i < 8
        invariant
            i <= 8,
            i < 8 ==> place == vstd::arithmetic::power::pow(16, (7 - i) as nat),
            i < 8 ==> place > 0,
            out@ == hex8(n as nat).take(i as int),
        decreases 8 - i,
    {
        let d = hex_digit_text((n / place) % 16);
        out.append(d.as_str());
        proof {
            reveal(vstd::arithmetic::power::pow);
            reveal_with_fuel(vstd::arithmetic::power::pow, 2);
            assert(out@ =~= hex8(n as nat).take(i as int + 1));
            if i < 7 {
                assert(place == 16 * vstd::arithmetic::power::pow(16, (6 - i) as nat));
            }
        }
        if i < 7 {
            proof {
                lemma_pow16_positive((6 - i) as nat);
            }
        }
        place = place / 16;
        i = i + 1;
    }
    assert(out@ =~= hex8(n as nat));
    out
}

proof fn lemma_pow16_positive(n: nat)
    ensures
        vstd::arithmetic::power::pow(16, n) > 0,
{
    vstd::arithmetic::power::lemma_pow_positive(16, n);
}

impl PointerPacketError {
    /// The error as a message.
    pub fn to_text(&self) -> (r: String)
        ensures
            r@ == match *self {
                PointerPacketError::Length { actual } => {
                    "pointer packet length mismatch: expected "@ + decimal(POINTER_LEN as nat)
                        + ", got "@ + decimal(actual as nat)
                },
                PointerPacketError::Magic { magic } => {
                    "invalid pointer packet magic: 0x"@ + hex8(magic as nat)
                },
            },
    {
        match *self {
            PointerPacketError::Length { actual } => {
                let mut text = join3(
                    "pointer packet length mismatch: expected ",
                    number(POINTER_LEN as u64).as_str(),
                    ", got ",
                );
                text.append(number(actual as u64).as_str());
                text
            },
            PointerPacketError::Magic { magic } => {
                join2("invalid pointer packet magic: 0x", hex8_text(magic).as_str())
            },
        }
    }
}

/// A packet on the wire: magic number, session, sequence number and position,
/// all in big-endian order.
pub open spec fn packet_bytes(packet: PointerPacket) -> Seq<u8> {
    be_bytes(POINTER_MAGIC as nat, 4) + be_bytes(packet.session_id as nat, 16) + be_bytes(
        packet.sequence as nat,
        8,
    ) + be_bytes(bits32(packet.x), 4) + be_bytes(bits32(packet.y), 4)
}

/// What bytes from the wire mean.
pub open spec fn packet_of(raw: Seq<u8>) -> Result<PointerPacket, PointerPacketError> {
    if raw.len() != POINTER_LEN {
        Err(PointerPacketError::Length { actual: raw.len() as usize })
    } else if be_value(raw.subrange(0, 4)) != POINTER_MAGIC {
        Err(PointerPacketError::Magic { magic: be_value(raw.subrange(0, 4)) as u32 })
    } else {
        Ok(
            PointerPacket {
                session_id: be_value(raw.subrange(4, 20)) as u128,
                sequence: be_value(raw.subrange(20, 28)) as u64,
                x: signed32(be_value(raw.subrange(28, 32))) as i32,
                y: signed32(be_value(raw.subrange(32, 36))) as i32,
            },
        )
    }
}

impl PointerPacket {
    pub fn encode(self) -> (r: Vec<u8>)
        ensures
            r@ == packet_bytes(self),
            r@.len() == POINTER_LEN,
    {
        proof {
            lemma_be_len(POINTER_MAGIC as nat, 4);
            lemma_be_len(self.session_id as nat, 16);
            lemma_be_len(self.sequence as nat, 8);
            lemma_be_len(bits32(self.x), 4);
            lemma_be_len(bits32(self.y), 4);
        }
        let mut buf = buffer_with_capacity(POINTER_LEN);
        put_u32(&mut buf, POINTER_MAGIC);
        put_u128(&mut buf, self.session_id);
        put_u64(&mut buf, self.sequence);
        put_i32(&mut buf, self.x);
        put_i32(&mut buf, self.y);
        let r = buffer_to_vec(&buf);
        assert(r@ =~= packet_bytes(self));
        r
    }

    pub fn decode(raw: &[u8]) -> (r: Result<Self, PointerPacketError>)
        ensures
            r == packet_of(raw@),
    {
        if raw.len() != POINTER_LEN {
            return Err(PointerPacketError::Length { actual: raw.len() });
        }
        let magic: u32 = get_u32(raw);
        assert(raw@.take(4) =~= raw@.subrange(0, 4));
        if magic != POINTER_MAGIC {
            return Err(PointerPacketError::Magic { magic });
        }
        let session: &[u8] = slice_subrange(raw, 4, POINTER_LEN);
        let sequence: &[u8] = slice_subrange(raw, 20, POINTER_LEN);
        let x: &[u8] = slice_subrange(raw, 28, POINTER_LEN);
        let y: &[u8] = slice_subrange(raw, 32, POINTER_LEN);
        assert(session@.take(16) =~= raw@.subrange(4, 20));
        assert(sequence@.take(8) =~= raw@.subrange(20, 28));
        assert(x@.take(4) =~= raw@.subrange(28, 32));
        assert(y@.take(4) =~= raw@.subrange(32, 36));
        Ok(
            Self {
                session_id: get_u128(session),
                sequence: get_u64(sequence),
                x: get_i32(x),
                y: get_i32(y),
            },
        )
    }
}

/// A packet that was encoded decodes to itself.
pub proof fn law_pointer_packet_round_trips(packet: PointerPacket)
    ensures
        packet_of(packet_bytes(packet)) == Ok::<PointerPacket, PointerPacketError>(packet),
{
    lemma_pow256_values();
    lemma_be_round_trip(POINTER_MAGIC as nat, 4);
    lemma_be_round_trip(packet.session_id as nat, 16);
    lemma_be_round_trip(packet.sequence as nat, 8);
    lemma_be_round_trip(bits32(packet.x), 4);
    lemma_be_round_trip(bits32(packet.y), 4);
    let raw = packet_bytes(packet);
    assert(raw.len() == 36);
    assert(raw.subrange(0, 4) =~= be_bytes(POINTER_MAGIC as nat, 4));
    assert(raw.subrange(4, 20) =~= be_bytes(packet.session_id as nat, 16));
    assert(raw.subrange(20, 28) =~= be_bytes(packet.sequence as nat, 8));
    assert(raw.subrange(28, 32) =~= be_bytes(bits32(packet.x), 4));
    assert(raw.subrange(32, 36) =~= be_bytes(bits32(packet.y), 4));
}

/// The receiving side of the pointer stream.
#[derive(Debug)]
pub struct LatestPointerState {
    current_session_id: Option<u128>,
    retired_session_ids: BTreeSet<u128>,
    latest_sequence: u64,
    stale_pointer_packets: u64,
}

#[verifier::ext_equal]
pub struct PointerView {
    pub current: Option<u128>,
    pub retired: Set<u128>,
    pub latest: u64,
    pub stale: u64,
}

impl View for LatestPointerState {
    type V = PointerView;

    closed spec fn view(&self) -> PointerView {
        PointerView {
            current: self.current_session_id,
            retired: self.retired_session_ids@,
            latest: self.latest_sequence,
            stale: self.stale_pointer_packets,
        }
    }
}

impl PointerView {
    /// The state before any packet.
    pub open spec fn fresh() -> PointerView {
        PointerView { current: None, retired: Set::empty(), latest: 0, stale: 0 }
    }

    /// Whether a packet is newer than everything that counts against it: its
    /// session was not retired, and its sequence number is above those accepted
    /// in its session.
    pub open spec fn accepts(self, packet: PointerPacket) -> bool {
        &&& !self.retired.contains(packet.session_id)
        &&& packet.sequence > (if self.current == Some(packet.session_id) {
            self.latest
        } else {
            0
        })
    }

    /// One more stale packet, as far as the counter goes.
    pub open spec fn one_more_stale(self) -> PointerView {
        PointerView {
            stale: if self.stale < u64::MAX { (self.stale + 1) as u64 } else { u64::MAX },
            ..self
        }
    }

    /// The current session is over.
    pub open spec fn retire_current(self) -> PointerView {
        PointerView {
            current: None,
            retired: match self.current {
                Some(id) => self.retired.insert(id),
                None => self.retired,
            },
            latest: 0,
            ..self
        }
    }

    /// The state after a packet.
    pub open spec fn after(self, packet: PointerPacket) -> PointerView {
        if self.retired.contains(packet.session_id) {
            self.one_more_stale()
        } else {
            let switched = if self.current == Some(packet.session_id) {
                self
            } else {
                PointerView { current: Some(packet.session_id), ..self.retire_current() }
            };
            if packet.sequence <= switched.latest {
                switched.one_more_stale()
            } else {
                PointerView { latest: packet.sequence, ..switched }
            }
        }
    }
}

impl Default for LatestPointerState {
    fn default() -> (r: Self)
        ensures
            r@ == PointerView::fresh(),
    {
        LatestPointerState {
            current_session_id: None,
            retired_session_ids: BTreeSet::new(),
            latest_sequence: 0,
            stale_pointer_packets: 0,
        }
    }
}

impl LatestPointerState {
    /// Takes a packet and gives its position if the packet is not stale.
    pub fn accept(&mut self, packet: PointerPacket) -> (r: Option<(i32, i32)>)
        ensures
            final(self)@ == old(self)@.after(packet),
            r == (if old(self)@.accepts(packet) { Some((packet.x, packet.y)) } else { None }),
    {
        if self.retired_session_ids.contains(&packet.session_id) {
            self.record_stale_packet();
            return None;
        }
        let same = match self.current_session_id {
            Some(current) => current == packet.session_id,
            None => false,
        };
        if !same {
            if let Some(current_session_id) = self.current_session_id {
                self.retired_session_ids.insert(current_session_id);
            }
            self.current_session_id = Some(packet.session_id);
            self.latest_sequence = 0;
        }
        if packet.sequence <= self.latest_sequence {
            self.record_stale_packet();
            return None;
        }
        self.latest_sequence = packet.sequence;
        Some((packet.x, packet.y))
    }

    pub fn stale_pointer_packets(&self) -> (r: u64)
        ensures
            r == self@.stale,
    {
        self.stale_pointer_packets
    }

    fn record_stale_packet(&mut self)
        ensures
            final(self)@ == old(self)@.one_more_stale(),
    {
        self.stale_pointer_packets = self.stale_pointer_packets.saturating_add(1);
    }

    fn retire_current_session(&mut self)
        ensures
            final(self)@ == old(self)@.retire_current(),
    {
        if let Some(current_session_id) = self.current_session_id {
            self.retired_session_ids.insert(current_session_id);
        }
        self.current_session_id = None;
        self.latest_sequence = 0;
    }
}

/// Both directions of the pointer stream.
#[derive(Debug)]
pub struct LatestPointerSession {
    inbound: LatestPointerState,
    outbound_session_id: u128,
    next_sequence: u64,
}

#[verifier::ext_equal]
pub struct PointerSessionView {
    pub inbound: PointerView,
    pub outbound: u128,
    pub next_sequence: u64,
}

impl View for LatestPointerSession {
    type V = PointerSessionView;

    closed spec fn view(&self) -> PointerSessionView {
        PointerSessionView {
            inbound: self.inbound@,
            outbound: self.outbound_session_id,
            next_sequence: self.next_sequence,
        }
    }
}

impl PointerSessionView {
    /// A stream that sends under the given session.
    pub open spec fn opened(id: u128) -> PointerSessionView {
        PointerSessionView { inbound: PointerView::fresh(), outbound: id, next_sequence: 1 }
    }

    /// The stream after a reconnection, sending under the given session.
    pub open spec fn begun(self, id: u128) -> PointerSessionView {
        PointerSessionView {
            inbound: self.inbound.retire_current(),
            outbound: id,
            next_sequence: 1,
        }
    }
}

impl Default for LatestPointerSession {
    fn default() -> (r: Self)
        ensures
            r@ == PointerSessionView::opened(r@.outbound),
    {
        LatestPointerSession::with_session(fresh_id())
    }
}

impl LatestPointerSession {
    /// A stream that sends under the given session.
    pub fn with_session(id: u128) -> (r: Self)
        ensures
            r@ == PointerSessionView::opened(id),
    {
        Self {
            inbound: LatestPointerState::default(),
            outbound_session_id: id,
            next_sequence: 1,
        }
    }

    /// Starts over after the reliable connection was made anew, under a session
    /// drawn at random.
    pub fn begin_reliable_session(&mut self)
        ensures
            final(self)@ == old(self)@.begun(final(self)@.outbound),
    {
        self.begin_session(fresh_id());
    }

    /// Starts over under the given session.
    pub fn begin_session(&mut self, id: u128)
        ensures
            final(self)@ == old(self)@.begun(id),
    {
        self.outbound_session_id = id;
        self.next_sequence = 1;
        self.inbound.retire_current_session();
    }

    /// The packet that tells the peer a position.
    pub fn next_packet(&mut self, x: i32, y: i32) -> (r: PointerPacket)
        requires
            old(self)@.next_sequence < u64::MAX,
        ensures
            r == (PointerPacket {
                session_id: old(self)@.outbound,
                sequence: old(self)@.next_sequence,
                x,
                y,
            }),
            final(self)@ == (PointerSessionView {
                next_sequence: (old(self)@.next_sequence + 1) as u64,
                ..old(self)@
            }),
    {
        let packet = PointerPacket {
            session_id: self.outbound_session_id,
            sequence: self.next_sequence,
            x,
            y,
        };
        self.next_sequence = self.next_sequence + 1;
        packet
    }

    pub fn accept(&mut self, packet: PointerPacket) -> (r: Option<(i32, i32)>)
        ensures
            final(self)@ == (PointerSessionView {
                inbound: old(self)@.inbound.after(packet),
                ..old(self)@
            }),
            r == (if old(self)@.inbound.accepts(packet) {
                Some((packet.x, packet.y))
            } else {
                None
            }),
    {
        self.inbound.accept(packet)
    }

    pub fn stale_pointer_packets(&self) -> (r: u64)
        ensures
            r == self@.inbound.stale,
    {
        self.inbound.stale_pointer_packets()
    }
}

/// The state after a sequence of packets.
pub open spec fn after_all(s: PointerView, packets: Seq<PointerPacket>) -> PointerView
    decreases packets.len(),
{
    if packets.len() == 0 {
        s
    } else {
        after_all(s, packets.drop_last()).after(packets.last())
    }
}

/// Whether the packet at `i` of a sequence is accepted.
pub open spec fn accepted_at(s: PointerView, packets: Seq<PointerPacket>, i: int) -> bool {
    after_all(s, packets.take(i)).accepts(packets[i])
}

/// Once a session is retired it stays retired, and none of its packets is accepted.
pub proof fn law_retired_sessions_stay_retired(
    s: PointerView,
    packets: Seq<PointerPacket>,
    id: u128,
)
    requires
        s.retired.contains(id),
    ensures
        after_all(s, packets).retired.contains(id),
        forall|p: PointerPacket|
            p.session_id == id ==> !#[trigger] after_all(s, packets).accepts(p),
    decreases packets.len(),
{
    if packets.len() > 0 {
        law_retired_sessions_stay_retired(s, packets.drop_last(), id);
    }
}

/// A session that was accepted is later either retired, or current with a latest
/// sequence number that is no lower.
proof fn lemma_progress(s: PointerView, packets: Seq<PointerPacket>, id: u128, sequence: u64)
    requires
        s.retired.contains(id) || s.current == Some(id) && s.latest >= sequence,
    ensures
        ({
            let t = after_all(s, packets);
            t.retired.contains(id) || t.current == Some(id) && t.latest >= sequence
        }),
    decreases packets.len(),
{
    if packets.len() > 0 {
        lemma_progress(s, packets.drop_last(), id, sequence);
    }
}

proof fn lemma_after_all_split(s: PointerView, a: Seq<PointerPacket>, b: Seq<PointerPacket>)
    ensures
        after_all(s, a + b) == after_all(after_all(s, a), b),
    decreases b.len(),
{
    if b.len() > 0 {
        assert((a + b).drop_last() =~= a + b.drop_last());
        lemma_after_all_split(s, a, b.drop_last());
    } else {
        assert(a + b =~= a);
    }
}

/// Within a session the accepted sequence numbers strictly increase, whatever
/// packets arrive in between.
pub proof fn law_accepted_sequences_increase(
    s: PointerView,
    packets: Seq<PointerPacket>,
    i: int,
    j: int,
)
    requires
        0 <= i < j < packets.len(),
        accepted_at(s, packets, i),
        accepted_at(s, packets, j),
        packets[i].session_id == packets[j].session_id,
    ensures
        packets[i].sequence < packets[j].sequence,
{
    let before = after_all(s, packets.take(i));
    let mid = after_all(s, packets.take(i + 1));
    assert(packets.take(i + 1).drop_last() =~= packets.take(i));
    assert(mid == before.after(packets[i]));
    let rest = packets.subrange(i + 1, j);
    assert(packets.take(j) =~= packets.take(i + 1) + rest);
    lemma_after_all_split(s, packets.take(i + 1), rest);
    lemma_progress(mid, rest, packets[i].session_id, packets[i].sequence);
}

/// The counter grows by one with every packet that is not accepted, until it
/// reaches its limit, and stays as it is with every accepted one.
pub proof fn law_stale_packets_are_counted(s: PointerView, packet: PointerPacket)
    ensures
        s.after(packet).stale == (if s.accepts(packet) {
            s.stale as int
        } else if s.stale < u64::MAX {
            s.stale + 1
        } else {
            u64::MAX as int
        }),
{
}

/// A reconnection retires the session that packets came from, so packets still
/// under way are not accepted afterwards.
pub proof fn law_reconnection_retires_inbound_session(
    s: PointerSessionView,
    id: u128,
    late: PointerPacket,
)
    requires
        s.inbound.current == Some(late.session_id),
    ensures
        !s.begun(id).inbound.accepts(late),
{
}

/// A packet byte by byte: the letters of the magic number, the session, the sequence number
/// and the two coordinates, each with its most significant byte first.
pub proof fn law_pointer_packets_have_their_layout(packet: PointerPacket, i: int)
    ensures
        ({
            let raw = packet_bytes(packet);
            &&& raw.len() == 36
            &&& raw[0] == 0x42 && raw[1] == 0x50 && raw[2] == 0x54 && raw[3] == 0x52
            &&& 0 <= i < 16 ==> raw[4 + i] == (packet.session_id as nat / crate::octets::pow256(
                (15 - i) as nat,
            )) % 256
            &&& 0 <= i < 8 ==> raw[20 + i] == (packet.sequence as nat / crate::octets::pow256(
                (7 - i) as nat,
            )) % 256
            &&& 0 <= i < 4 ==> raw[28 + i] == (bits32(packet.x) / crate::octets::pow256(
                (3 - i) as nat,
            )) % 256
            &&& 0 <= i < 4 ==> raw[32 + i] == (bits32(packet.y) / crate::octets::pow256(
                (3 - i) as nat,
            )) % 256
        }),
{
    let raw = packet_bytes(packet);
    lemma_be_len(POINTER_MAGIC as nat, 4);
    lemma_be_len(packet.session_id as nat, 16);
    lemma_be_len(packet.sequence as nat, 8);
    lemma_be_len(bits32(packet.x), 4);
    lemma_be_len(bits32(packet.y), 4);
    let head = be_bytes(POINTER_MAGIC as nat, 4);
    reveal_with_fuel(be_bytes, 5);
    assert(raw[0] == head[0] && raw[1] == head[1] && raw[2] == head[2] && raw[3] == head[3]);
    if 0 <= i < 16 {
        crate::octets::law_bytes_stand_in_order(packet.session_id as nat, 16, i);
        assert(raw[4 + i] == be_bytes(packet.session_id as nat, 16)[i]);
    }
    if 0 <= i < 8 {
        crate::octets::law_bytes_stand_in_order(packet.sequence as nat, 8, i);
        assert(raw[20 + i] == be_bytes(packet.sequence as nat, 8)[i]);
    }
    if 0 <= i < 4 {
        crate::octets::law_bytes_stand_in_order(bits32(packet.x), 4, i);
        crate::octets::law_bytes_stand_in_order(bits32(packet.y), 4, i);
        assert(raw[28 + i] == be_bytes(bits32(packet.x), 4)[i]);
        assert(raw[32 + i] == be_bytes(bits32(packet.y), 4)[i]);
    }
}

/// Packets that are sent one after the other are accepted one after the other, also behind
/// gaps; one that is late or comes twice is not. A stream begins with the first sequence
/// number, which a peer that knows nothing accepts.
pub proof fn law_newer_packets_are_accepted(
    peer: PointerView,
    id: u128,
    sequence: u64,
    x: i32,
    y: i32,
    later: u64,
)
    requires
        !peer.retired.contains(id),
        peer.current != Some(id) || peer.latest < sequence,
        0 < sequence,
    ensures
        ({
            let first = PointerPacket { session_id: id, sequence, x, y };
            let second = PointerPacket { session_id: id, sequence: later, x, y };
            let after = peer.after(first);
            &&& peer.accepts(first)
            &&& after.current == Some(id)
            &&& !after.accepts(first)
            &&& after.accepts(second) <==> sequence < later
            &&& peer.current matches Some(old_id) ==> (old_id != id ==> after.retired.contains(
                old_id,
            ))
        }),
        PointerView::fresh().accepts(
            PointerPacket {
                session_id: PointerSessionView::opened(id).outbound,
                sequence: PointerSessionView::opened(id).next_sequence,
                x,
                y,
            },
        ),
        PointerSessionView::opened(id).outbound == id,
        forall|s: PointerSessionView| (#[trigger] s.begun(id)).outbound == id
            && s.begun(id).next_sequence == 1,
{
}

/// A position is sent as it is, under the session of the stream, with a number that is one
/// above the one before; a packet that is accepted gives the position that it carries.
pub proof fn law_positions_travel_unchanged(
    stream: &mut LatestPointerSession,
    x: i32,
    y: i32,
    packet: PointerPacket,
    peer: &mut LatestPointerState,
    r: Option<(i32, i32)>,
)
    requires
        old(stream)@.next_sequence < u64::MAX,
        call_ensures(LatestPointerSession::next_packet, (stream, x, y), packet),
        call_ensures(LatestPointerState::accept, (peer, packet), r),
    ensures
        packet.session_id == old(stream)@.outbound,
        packet.sequence == old(stream)@.next_sequence,
        final(stream)@.next_sequence == packet.sequence + 1,
        final(stream)@.outbound == old(stream)@.outbound,
        r is Some <==> old(peer)@.accepts(packet),
        r matches Some(point) ==> point == (x, y),
        r is Some ==> final(peer)@.latest == packet.sequence,
{
}

} // verus!
