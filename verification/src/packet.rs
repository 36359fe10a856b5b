//! Packets, their metadata and what the PTP header says about them.

use vstd::prelude::*;

use crate::time::Timestamp;

verus! {

/// Length of the PTP message header in bytes.
pub const HEADER_LEN: usize = 34;

/// Largest packet that is handed to the protocol, in bytes.
pub const MAX_PACKET_LEN: usize = 256;

/// PTP message type of a delay request.
pub const MSG_DELAY_REQ: u8 = 0x1;

/// PTP message type of a peer delay request.
pub const MSG_PDELAY_REQ: u8 = 0x2;

/// PTP message type of a peer delay response.
pub const MSG_PDELAY_RESP: u8 = 0x3;

/// Metadata that travels with a UDP packet.
#[derive(Clone, Copy, Debug, PartialEq, Eq)]
pub struct PacketMeta {
    /// Identifier that ties a packet to its transmit timestamp.
    pub id: u32,
    /// Receive timestamp of the packet, if the hardware took one.
    pub timestamp: Option<Timestamp>,
    /// Whether a transmit timestamp is wanted.
    pub request_timestamp: bool,
}

impl Default for PacketMeta {
    /// Metadata of a packet that needs no timestamp.
    fn default() -> (r: Self)
        ensures
            r == (PacketMeta { id: 0, timestamp: None, request_timestamp: false }),
    {
        PacketMeta { id: 0, timestamp: None, request_timestamp: false }
    }
}

/// A packet that came from a socket.
#[derive(Debug)]
pub struct RecvPacket {
    /// UDP payload.
    pub payload: Vec<u8>,
    /// Metadata of the packet.
    pub meta: PacketMeta,
}

/// The message type in the header of `packet`: the low four bits of its first
/// byte, or nothing for a packet shorter than a header.
pub open spec fn spec_ptp_message_type(packet: Seq<u8>) -> Option<u8> {
    if packet.len() >= HEADER_LEN {
        Some((packet[0] % 16) as u8)
    } else {
        None
    }
}

/// The message type of a PTP packet, or `None` if it is too short to have a header.
pub fn ptp_message_type(packet: &[u8]) -> (r: Option<u8>)
    ensures
        r == spec_ptp_message_type(packet@),
{
    if packet.len() < HEADER_LEN {
        return None;
    }
    let first: u8 = packet[0];
    assert(first & 0x0f == first % 16) by (bit_vector);
    Some(first & 0x0f)
}

/// Whether a port takes event messages of this type. Peer delay messages belong to
/// a delay mechanism that is not in use; delay requests are for a master to answer.
pub open spec fn takes_event_message(message_type: u8, receive_delay_requests: bool) -> bool {
    &&& message_type != MSG_PDELAY_REQ
    &&& message_type != MSG_PDELAY_RESP
    &&& message_type == MSG_DELAY_REQ ==> receive_delay_requests
}

/// The receive timestamp with which an event packet goes to the protocol, or
/// nothing if the packet is to be ignored.
pub open spec fn spec_rx_event_timestamp(
    packet: Seq<u8>,
    meta: PacketMeta,
    receive_delay_requests: bool,
) -> Option<Timestamp> {
    match spec_ptp_message_type(packet) {
        Some(message_type) => if takes_event_message(message_type, receive_delay_requests) {
            meta.timestamp
        } else {
            None
        },
        None => None,
    }
}

/// The receive timestamp with which an event packet goes to the protocol.
///
/// `None` for a packet without a PTP header, for peer delay messages, for delay
/// requests unless `receive_delay_requests`, and for a packet that the hardware did
/// not timestamp.
pub fn rx_event_timestamp(
    packet: &[u8],
    meta: PacketMeta,
    receive_delay_requests: bool,
) -> (r: Option<Timestamp>)
    ensures
        r == spec_rx_event_timestamp(packet@, meta, receive_delay_requests),
{
    match ptp_message_type(packet) {
        None => None,
        Some(message_type) => {
            if message_type == MSG_PDELAY_REQ || message_type == MSG_PDELAY_RESP || (message_type
                == MSG_DELAY_REQ && !receive_delay_requests) {
                None
            } else {
                meta.timestamp
            }
        },
    }
}

/// The message type of an event packet that the port would take, but for which the
/// hardware took no receive timestamp; nothing for any other packet.
pub open spec fn spec_missing_rx_timestamp(
    packet: Seq<u8>,
    meta: PacketMeta,
    receive_delay_requests: bool,
) -> Option<u8> {
    match spec_ptp_message_type(packet) {
        Some(message_type) => if takes_event_message(message_type, receive_delay_requests)
            && meta.timestamp is None {
            Some(message_type)
        } else {
            None
        },
        None => None,
    }
}

/// The message type of an event packet that is ignored only because it has no
/// receive timestamp.
pub fn missing_rx_timestamp(
    packet: &[u8],
    meta: PacketMeta,
    receive_delay_requests: bool,
) -> (r: Option<u8>)
    ensures
        r == spec_missing_rx_timestamp(packet@, meta, receive_delay_requests),
{
    match ptp_message_type(packet) {
        None => None,
        Some(message_type) => {
            if message_type == MSG_PDELAY_REQ || message_type == MSG_PDELAY_RESP || (message_type
                == MSG_DELAY_REQ && !receive_delay_requests) || meta.timestamp.is_some() {
                None
            } else {
                Some(message_type)
            }
        },
    }
}

/// Hands out the identifiers that tie event packets to their transmit timestamps.
///
/// Identifiers are never zero: zero marks a packet without one.
#[derive(Debug)]
pub struct PacketIdGenerator {
    next: u32,
}

/// The identifier after `id`: counting starts over at one.
pub open spec fn succ_id(id: u32) -> u32 {
    if id == u32::MAX {
        1
    } else {
        (id + 1) as u32
    }
}

/// The identifier `n` places after `id`.
pub open spec fn nth_id(id: u32, n: nat) -> u32 {
    ((id - 1 + n) % (u32::MAX as int) + 1) as u32
}

impl PacketIdGenerator {
    #[verifier::type_invariant]
    spec fn nonzero(self) -> bool {
        self.next != 0
    }

    /// The identifier that the next packet gets.
    pub closed spec fn next_id(self) -> u32 {
        self.next
    }

    /// A generator that starts at one.
    pub fn new() -> (r: Self)
        ensures
            r.next_id() == 1,
    {
        PacketIdGenerator { next: 1 }
    }

    /// Metadata for the next event packet: a fresh identifier, and a request for a
    /// transmit timestamp.
    pub fn next(&mut self) -> (meta: PacketMeta)
        ensures
            meta == (PacketMeta {
                id: old(self).next_id(),
                timestamp: None,
                request_timestamp: true,
            }),
            meta.id != 0,
            final(self).next_id() == succ_id(old(self).next_id()),
    {
        proof {
            use_type_invariant(&*self);
        }
        let id: u32 = self.next;
        self.next = match id.checked_add(1) {
            Some(next) => next,
            None => 1,
        };
        let mut meta = PacketMeta::default();
        meta.id = id;
        meta.request_timestamp = true;
        meta
    }
}

/// Handing out an identifier moves the generator one place on, so the `n`-th
/// identifier from a generator that is about to give `id` is `nth_id(id, n)`.
pub proof fn nth_id_counts_calls(id: u32, n: nat)
    requires
        id != 0,
    ensures
        nth_id(id, 0) == id,
        nth_id(succ_id(id), n) == nth_id(id, n + 1),
        succ_id(nth_id(id, n)) == nth_id(id, n + 1),
{
    let m = u32::MAX as int;
    if id == u32::MAX {
        assert((m - 1 + (n + 1)) % m == (n as int) % m) by (nonlinear_arith)
            requires
                m > 0,
        ;
    }
    let k = id - 1 + n;
    assert((k + 1) % m == if k % m == m - 1 { 0 } else { k % m + 1 }) by {
        vstd::arithmetic::div_mod::lemma_fundamental_div_mod(k, m);
        let q = k / m;
        let r = k % m;
        assert(k + 1 == q * m + (r + 1)) by (nonlinear_arith)
            requires
                k == m * q + r,
        ;
        if r == m - 1 {
            assert(k + 1 == (q + 1) * m) by (nonlinear_arith)
                requires
                    k + 1 == q * m + (r + 1),
                    r == m - 1,
            ;
            vstd::arithmetic::div_mod::lemma_mod_multiples_basic(q + 1, m);
        } else {
            vstd::arithmetic::div_mod::lemma_fundamental_div_mod_converse(k + 1, m, q, r + 1);
        }
    }
}

/// Identifiers are never zero and do not repeat until all the others have been
/// handed out: any two of them less than a full cycle apart differ.
pub proof fn packet_ids_are_distinct(id: u32, i: nat, j: nat)
    requires
        id != 0,
        i < j < i + u32::MAX,
    ensures
        nth_id(id, i) != 0,
        nth_id(id, j) != 0,
        nth_id(id, i) != nth_id(id, j),
{
    let m = u32::MAX as int;
    let a = id - 1 + i;
    let b = id - 1 + j;
    if a % m == b % m {
        vstd::arithmetic::div_mod::lemma_fundamental_div_mod(a, m);
        vstd::arithmetic::div_mod::lemma_fundamental_div_mod(b, m);
        assert((b / m - a / m) * m == b - a) by (nonlinear_arith)
            requires
                a == m * (a / m) + a % m,
                b == m * (b / m) + b % m,
                a % m == b % m,
        ;
        assert(false) by (nonlinear_arith)
            requires
                (b / m - a / m) * m == b - a,
                0 < b - a < m,
        ;
    }
}

/// A packet has a message type exactly if it is as long as a header, and the type is
/// what its first byte leaves over sixteen.
pub proof fn message_type_is_the_low_nibble(packet: &[u8], r: Option<u8>)
    requires
        call_ensures(ptp_message_type, (packet,), r),
    ensures
        r is Some <==> packet@.len() >= 34,
        r matches Some(message_type) ==> message_type < 16 && (packet@[0] - message_type) % 16 == 0,
{
}

/// An event packet goes to the protocol exactly if it has a header, is no peer delay
/// message, is a delay request only if those are wanted, and was timestamped; and its
/// timestamp is the one that it was received with.
pub proof fn wanted_packets_keep_their_timestamp(
    packet: &[u8],
    meta: PacketMeta,
    receive_delay_requests: bool,
    r: Option<Timestamp>,
)
    requires
        call_ensures(rx_event_timestamp, (packet, meta, receive_delay_requests), r),
    ensures
        ({
            let kind = packet@[0] as int % 16;
            let wanted = packet@.len() >= 34 && kind != 2 && kind != 3 && (kind != 1
                || receive_delay_requests);
            &&& wanted ==> r == meta.timestamp
            &&& !wanted ==> r is None
        }),
{
}

/// A timestamp is missing exactly where the packet would go to the protocol if it had
/// one.
pub proof fn only_wanted_packets_miss_a_timestamp(
    packet: &[u8],
    meta: PacketMeta,
    receive_delay_requests: bool,
    r: Option<u8>,
)
    requires
        call_ensures(missing_rx_timestamp, (packet, meta, receive_delay_requests), r),
    ensures
        ({
            let kind = packet@[0] as int % 16;
            let wanted = packet@.len() >= 34 && kind != 2 && kind != 3 && (kind != 1
                || receive_delay_requests);
            &&& r is Some <==> wanted && meta.timestamp is None
            &&& r matches Some(message_type) ==> message_type == kind
        }),
{
}

/// Metadata by default carries no identifier and asks for no timestamp.
pub proof fn default_metadata_is_blank(r: PacketMeta)
    requires
        call_ensures(<PacketMeta as Default>::default, (), r),
    ensures
        r.id == 0,
        r.timestamp is None,
        !r.request_timestamp,
{
}

/// A generator counts: the first packet gets identifier one, each packet gets the one
/// after that of the packet before it, one again after the largest, and each asks for
/// its transmit timestamp.
pub proof fn generators_count(
    new: PacketIdGenerator,
    first: &mut PacketIdGenerator,
    second: &mut PacketIdGenerator,
    metas: (PacketMeta, PacketMeta),
)
    requires
        call_ensures(PacketIdGenerator::new, (), new),
        call_ensures(PacketIdGenerator::next, (first,), metas.0),
        call_ensures(PacketIdGenerator::next, (second,), metas.1),
        *final(first) == *old(second),
    ensures
        *old(first) == new ==> metas.0.id == 1,
        metas.0.id != 0,
        metas.0.id < 0xffff_ffff ==> metas.1.id == metas.0.id + 1,
        metas.0.id == 0xffff_ffff ==> metas.1.id == 1,
        metas.0.request_timestamp,
        metas.0.timestamp is None,
{
}

/// Successive identifiers differ by one place in the count, and the count has all
/// identifiers but zero.
pub proof fn ids_step_by_one(id: u32, n: nat)
    requires
        id != 0,
    ensures
        succ_id(id) as int == id as int % 0xffff_ffff + 1,
        (nth_id(id, n) - (id + n)) % 0xffff_ffff == 0,
        0 < nth_id(id, n),
{
    let m = 0xffff_ffffint;
    let k = id - 1 + n;
    vstd::arithmetic::div_mod::lemma_fundamental_div_mod(k, m);
    let q = k / m;
    assert(nth_id(id, n) - (id + n) == (0 - q) * m) by (nonlinear_arith)
        requires
            nth_id(id, n) == k % m + 1,
            k == id - 1 + n,
            k == m * q + k % m,
    ;
    vstd::arithmetic::div_mod::lemma_mod_multiples_basic(0 - q, m);
}

} // verus!
