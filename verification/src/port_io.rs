//! The state behind a port's sockets: running timers and packets that wait for
//! their transmit timestamp. Turns the protocol's actions into what is to be sent,
//! and received packets into what the protocol is given.

use vstd::prelude::*;

use statime::port::TimestampContext;

use crate::error::RecvError;
use crate::monitor::MonitorUpdate;
use crate::net::{
    multicast_endpoint, spec_multicast_endpoint, Group, Ipv4Addr, UdpMetadata, EVENT_PORT,
    GENERAL_PORT,
};
use crate::packet::{
    missing_rx_timestamp, ptp_message_type, rx_event_timestamp, spec_missing_rx_timestamp,
    spec_ptp_message_type, spec_rx_event_timestamp, succ_id, PacketIdGenerator, PacketMeta,
    RecvPacket, HEADER_LEN, MAX_PACKET_LEN, MSG_DELAY_REQ, MSG_PDELAY_REQ, MSG_PDELAY_RESP,
};
use crate::pending::{
    distinct_ids, expiry_and_restart_keep_ids_distinct, first_free, first_free_is_a_free_slot,
    first_free_is_the_first, found_packet_is_the_first, full_means_every_slot_waits, holds_id,
    is_full, is_pending, pending_means_a_slot_holds_it, pending_with_id, push_keeps_the_others, restart_keeps_the_packet,
    take_gives_back_what_was_pushed, take_keeps_the_others, taken_packet_is_gone,
    timeout_deadlines, timeouts_fit, timeouts_stay_representable, PendingTx, PendingTxQueue,
    TX_PENDING,
};
use crate::setup::{JoinedGroups, Setup, SocketKind};
use crate::time::{
    read_clock, read_from_clock, ClockError, CoreDuration, EmbassyDuration, Instant,
    Timestamp,
};
use crate::timers::{
    earlier, earlier_deadline, earliest, earliest_is_the_minimum, StatimeTimer, Timers,
    TIMER_COUNT,
};

verus! {

/// An action that the protocol asks for.
#[derive(Debug)]
pub enum PortAction<'a> {
    /// Send a packet whose transmit timestamp the protocol needs.
    SendEvent {
        /// What the protocol needs back together with the timestamp.
        context: TimestampContext,
        /// The packet.
        data: &'a [u8],
        /// Whether the packet stays on the link.
        link_local: bool,
    },
    /// Send a packet that needs no timestamp.
    SendGeneral {
        /// The packet.
        data: &'a [u8],
        /// Whether the packet stays on the link.
        link_local: bool,
    },
    /// Start the announce timer anew.
    ResetAnnounceTimer {
        /// How long it runs.
        duration: CoreDuration,
    },
    /// Start the sync timer anew.
    ResetSyncTimer {
        /// How long it runs.
        duration: CoreDuration,
    },
    /// Start the delay request timer anew.
    ResetDelayRequestTimer {
        /// How long it runs.
        duration: CoreDuration,
    },
    /// Start the announce receipt timer anew.
    ResetAnnounceReceiptTimer {
        /// How long it runs.
        duration: CoreDuration,
    },
    /// Start the filter update timer anew.
    ResetFilterUpdateTimer {
        /// How long it runs.
        duration: CoreDuration,
    },
    /// Forward a TLV to the other ports, of which there are none.
    ForwardTLV,
}

/// What is left to be done for an action.
#[derive(Debug)]
pub enum IoRequest<'a> {
    /// Send a packet from the socket of event messages.
    SendEvent {
        /// The packet.
        data: &'a [u8],
        /// Destination and identifier of the packet.
        metadata: UdpMetadata,
        /// When to give up.
        deadline: Instant,
    },
    /// Send a packet from the socket of general messages.
    SendGeneral {
        /// The packet.
        data: &'a [u8],
        /// Destination of the packet.
        metadata: UdpMetadata,
        /// When to give up.
        deadline: Instant,
    },
    /// Report that an event packet is not sent: too many packets wait for their
    /// transmit timestamp.
    QueueFull {
        /// Identifier of the packet.
        packet_id: u32,
    },
    /// Tell the monitor.
    Notify(MonitorUpdate),
    /// Nothing.
    Nothing,
}

/// What a socket gave when it was asked for a packet.
#[derive(Debug)]
pub enum Polled {
    /// A packet.
    Packet(RecvPacket),
    /// An error.
    Failed(RecvError),
    /// Nothing yet.
    WouldBlock,
}

/// Why nothing came in for the protocol where something should have.
#[derive(Clone, Copy, Debug, PartialEq, Eq, Structural)]
pub enum ReceiveProblem {
    /// An event packet is longer than the largest packet.
    Oversized,
    /// A socket gave an error.
    Failed {
        /// The socket.
        socket: SocketKind,
        /// The error.
        error: RecvError,
    },
    /// An event packet has no receive timestamp.
    MissingTimestamp {
        /// Identifier of the packet.
        packet_id: u32,
        /// Message type in the packet's header.
        message_type: u8,
    },
}

/// What came in for the protocol.
#[derive(Debug)]
pub enum Incoming {
    /// An event message and when it was received.
    Event(RecvPacket, Timestamp),
    /// A general message.
    General(RecvPacket),
    /// Nothing, for a reason to report.
    Problem(ReceiveProblem),
    /// Nothing.
    Nothing,
}

/// What the socket of event messages leads to.
#[derive(Debug)]
pub enum ReceiveStep {
    /// The outcome.
    Done(Incoming),
    /// The socket of general messages is to be asked.
    PollGeneral,
}

/// The state behind a port's sockets.
#[derive(Debug)]
pub struct PortIo {
    /// The groups to leave in the end.
    pub joined: JoinedGroups,
    /// The protocol timers.
    pub timers: Timers,
    /// Event packets that wait for their transmit timestamp.
    pub pending_tx: PendingTxQueue,
}

/// The timer that an action starts, and for how long.
pub open spec fn timer_of(action: PortAction) -> Option<(StatimeTimer, CoreDuration)> {
    match action {
        PortAction::ResetAnnounceTimer { duration } => Some((StatimeTimer::Announce, duration)),
        PortAction::ResetSyncTimer { duration } => Some((StatimeTimer::Sync, duration)),
        PortAction::ResetDelayRequestTimer { duration } => Some(
            (StatimeTimer::DelayRequest, duration),
        ),
        PortAction::ResetAnnounceReceiptTimer { duration } => Some(
            (StatimeTimer::AnnounceReceipt, duration),
        ),
        PortAction::ResetFilterUpdateTimer { duration } => Some(
            (StatimeTimer::FilterUpdate, duration),
        ),
        _ => None,
    }
}

/// Where an event packet goes: to the event port, under the identifier `id`, with a
/// request for its transmit timestamp.
pub open spec fn event_metadata(id: u32, link_local: bool) -> UdpMetadata {
    UdpMetadata {
        remote_addr: spec_multicast_endpoint(EVENT_PORT, link_local),
        local_addr: None,
        meta: PacketMeta { id, timestamp: None, request_timestamp: true },
    }
}

/// Where a general packet goes: to the general port, without an identifier.
pub open spec fn general_metadata(link_local: bool) -> UdpMetadata {
    UdpMetadata {
        remote_addr: spec_multicast_endpoint(GENERAL_PORT, link_local),
        local_addr: None,
        meta: PacketMeta { id: 0, timestamp: None, request_timestamp: false },
    }
}

/// What a packet from the socket of event messages is to the protocol: an event
/// message if it is not too long, of a type that the port takes, and timestamped. A
/// packet that is too long, or is only short of its timestamp, is reported.
pub open spec fn event_incoming(packet: RecvPacket, receive_delay_requests: bool) -> Incoming {
    if packet.payload@.len() > MAX_PACKET_LEN {
        Incoming::Problem(ReceiveProblem::Oversized)
    } else {
        match spec_rx_event_timestamp(packet.payload@, packet.meta, receive_delay_requests) {
            Some(timestamp) => Incoming::Event(packet, timestamp),
            None => match spec_missing_rx_timestamp(
                packet.payload@,
                packet.meta,
                receive_delay_requests,
            ) {
                Some(message_type) => Incoming::Problem(
                    ReceiveProblem::MissingTimestamp { packet_id: packet.meta.id, message_type },
                ),
                None => Incoming::Nothing,
            },
        }
    }
}

/// What a packet from the socket of general messages is to the protocol: a general
/// message if it is not too long and has a PTP header.
pub open spec fn general_incoming(packet: RecvPacket) -> Incoming {
    if packet.payload@.len() <= MAX_PACKET_LEN && spec_ptp_message_type(packet.payload@) is Some {
        Incoming::General(packet)
    } else {
        Incoming::Nothing
    }
}

/// What the socket of event messages leads to. The socket of general messages is asked
/// only if this one has nothing.
pub open spec fn spec_receive_event(polled: Polled, receive_delay_requests: bool) -> ReceiveStep {
    match polled {
        Polled::Packet(packet) => ReceiveStep::Done(event_incoming(packet, receive_delay_requests)),
        Polled::Failed(error) => ReceiveStep::Done(
            Incoming::Problem(ReceiveProblem::Failed { socket: SocketKind::Event, error }),
        ),
        Polled::WouldBlock => ReceiveStep::PollGeneral,
    }
}

/// What the socket of general messages leads to.
pub open spec fn spec_receive_general(polled: Polled) -> Incoming {
    match polled {
        Polled::Packet(packet) => general_incoming(packet),
        Polled::Failed(error) => Incoming::Problem(
            ReceiveProblem::Failed { socket: SocketKind::General, error },
        ),
        Polled::WouldBlock => Incoming::Nothing,
    }
}

impl PortIo {
    /// Whether the end of every wait for a transmit timestamp can be represented.
    pub open spec fn wf(self) -> bool {
        timeouts_fit(self.pending_tx.slots@, self.pending_tx.timeout)
    }

    /// Whether no timer runs and no packet waits.
    pub open spec fn is_fresh(self, joined: JoinedGroups, timeout: EmbassyDuration) -> bool {
        &&& self.joined == joined
        &&& self.timers.deadlines@ == Seq::new(TIMER_COUNT as nat, |i: int| None::<Instant>)
        &&& self.pending_tx.slots@ == Seq::new(TX_PENDING as nat, |i: int| None::<PendingTx>)
        &&& self.pending_tx.timeout == timeout
    }

    /// The state after a setup that went through: no timer runs and no packet waits.
    pub fn new(setup: Setup, tx_timestamp_timeout: EmbassyDuration) -> (r: PortIo)
        requires
            setup.step is Finished,
        ensures
            r.wf(),
            r.is_fresh(setup.joined, tx_timestamp_timeout),
    {
        PortIo {
            joined: setup.joined,
            timers: Timers::default(),
            pending_tx: PendingTxQueue::new(tx_timestamp_timeout),
        }
    }

    /// The earliest of `deadline`, the deadlines of the running timers and the ends
    /// of the waits for transmit timestamps.
    pub open spec fn spec_next_deadline(self, deadline: Instant) -> Instant {
        match earlier(
            earliest(self.timers.deadlines@),
            earliest(timeout_deadlines(self.pending_tx.slots@, self.pending_tx.timeout)),
        ) {
            Some(own) => deadline.spec_min(own),
            None => deadline,
        }
    }

    /// The earliest of `deadline`, the deadlines of the running timers and the ends
    /// of the waits for transmit timestamps.
    pub fn next_deadline(&self, deadline: Instant) -> (r: Instant)
        requires
            self.wf(),
        ensures
            r == self.spec_next_deadline(deadline),
    {
        match earlier_deadline(
            self.timers.next_deadline(),
            self.pending_tx.next_timeout_deadline(),
        ) {
            Some(own) => deadline.min(own),
            None => deadline,
        }
    }

    /// What handling an event packet at `now` gives. The packet gets the next
    /// identifier. If the queue has room, the packet waits there for its timestamp
    /// and is to be sent before anything else is due; if not, it is not sent, which is
    /// to be reported.
    pub open spec fn is_event_of<'a>(
        self,
        before: Self,
        ids: (u32, u32),
        now: Instant,
        packet: (TimestampContext, &'a [u8], bool),
        deadline: Instant,
        r: Result<IoRequest<'a>, ClockError>,
    ) -> bool {
        if is_full(before.pending_tx.slots@) {
            &&& self == before
            &&& ids.1 == succ_id(ids.0)
            &&& r == Ok::<IoRequest<'a>, ClockError>(IoRequest::QueueFull { packet_id: ids.0 })
        } else if now.spec_checked_add(before.pending_tx.timeout) is None {
            &&& self == before
            &&& ids.1 == ids.0
            &&& r == Err::<IoRequest<'a>, ClockError>(ClockError::Overflow)
        } else {
            &&& self.joined == before.joined
            &&& self.timers == before.timers
            &&& self.pending_tx.is_push_of(before.pending_tx, now, packet.0, ids.0, true)
            &&& ids.1 == succ_id(ids.0)
            &&& r == Ok::<IoRequest<'a>, ClockError>(
                IoRequest::SendEvent {
                    data: packet.1,
                    metadata: event_metadata(ids.0, packet.2),
                    deadline: self.spec_next_deadline(deadline),
                },
            )
        }
    }

    /// What handling an action at `now` gives: `self` is the state afterwards,
    /// `before` the one before, `ids` the next packet identifier before and
    /// afterwards, and `r` what is left to be done. If something that has to be
    /// computed cannot be represented, `r` is an error and nothing changes.
    pub open spec fn is_handle_of<'a>(
        self,
        before: Self,
        ids: (u32, u32),
        now: Instant,
        action: PortAction<'a>,
        deadline: Instant,
        monitored: bool,
        r: Result<IoRequest<'a>, ClockError>,
    ) -> bool {
        match action {
            PortAction::SendEvent { context, data, link_local } => {
                self.is_event_of(before, ids, now, (context, data, link_local), deadline, r)
            },
            PortAction::SendGeneral { data, link_local } => {
                &&& self == before
                &&& ids.1 == ids.0
                &&& r == match now.spec_checked_add(before.pending_tx.timeout) {
                    Some(limit) => Ok::<IoRequest<'a>, ClockError>(
                        IoRequest::SendGeneral {
                            data,
                            metadata: general_metadata(link_local),
                            deadline: before.spec_next_deadline(deadline).spec_min(limit),
                        },
                    ),
                    None => Err(ClockError::Overflow),
                }
            },
            PortAction::ForwardTLV => {
                &&& self == before
                &&& ids.1 == ids.0
                &&& r == Ok::<IoRequest<'a>, ClockError>(IoRequest::Nothing)
            },
            _ => {
                let (timer, duration) = timer_of(action)->0;
                &&& self.joined == before.joined
                &&& self.pending_tx == before.pending_tx
                &&& ids.1 == ids.0
                &&& self.timers.is_reset_of(
                    before.timers,
                    now,
                    timer,
                    duration,
                    match r {
                        Ok(_) => Ok(()),
                        Err(error) => Err(error),
                    },
                )
                &&& r matches Ok(request) ==> request == if timer is FilterUpdate && monitored {
                    IoRequest::<'a>::Notify(MonitorUpdate::Tracking)
                } else {
                    IoRequest::<'a>::Nothing
                }
            },
        }
    }

    /// Handles an action of the protocol at the clock reading `now`, up to what the
    /// caller has to send or report. `deadline` is when the caller has something
    /// else to do.
    pub fn handle_at<'a>(
        &mut self,
        now: Instant,
        action: PortAction<'a>,
        deadline: Instant,
        packet_id: &mut PacketIdGenerator,
        monitored: bool,
    ) -> (r: Result<IoRequest<'a>, ClockError>)
        requires
            old(self).wf(),
        ensures
            final(self).wf(),
            final(self).is_handle_of(
                *old(self),
                (old(packet_id).next_id(), final(packet_id).next_id()),
                now,
                action,
                deadline,
                monitored,
                r,
            ),
    {
        match action {
            PortAction::SendEvent { context, data, link_local } => self.handle_event_at(
                now,
                context,
                data,
                link_local,
                deadline,
                packet_id,
            ),
            PortAction::SendGeneral { data, link_local } => match now.checked_add(
                self.pending_tx.timeout,
            ) {
                Some(limit) => {
                    let metadata = UdpMetadata {
                        remote_addr: multicast_endpoint(GENERAL_PORT, link_local),
                        local_addr: None,
                        meta: PacketMeta::default(),
                    };
                    let deadline = self.next_deadline(deadline).min(limit);
                    Ok(IoRequest::SendGeneral { data, metadata, deadline })
                },
                None => Err(ClockError::Overflow),
            },
            PortAction::ResetAnnounceTimer { duration } => self.start_timer(
                now,
                StatimeTimer::Announce,
                duration,
            ),
            PortAction::ResetSyncTimer { duration } => self.start_timer(
                now,
                StatimeTimer::Sync,
                duration,
            ),
            PortAction::ResetDelayRequestTimer { duration } => self.start_timer(
                now,
                StatimeTimer::DelayRequest,
                duration,
            ),
            PortAction::ResetAnnounceReceiptTimer { duration } => self.start_timer(
                now,
                StatimeTimer::AnnounceReceipt,
                duration,
            ),
            PortAction::ResetFilterUpdateTimer { duration } => {
                match self.start_timer(now, StatimeTimer::FilterUpdate, duration) {
                    Ok(_) => if monitored {
                        Ok(IoRequest::Notify(MonitorUpdate::Tracking))
                    } else {
                        Ok(IoRequest::Nothing)
                    },
                    Err(error) => Err(error),
                }
            },
            PortAction::ForwardTLV => Ok(IoRequest::Nothing),
        }
    }

    /// Handles an event packet at the clock reading `now`.
    fn handle_event_at<'a>(
        &mut self,
        now: Instant,
        context: TimestampContext,
        data: &'a [u8],
        link_local: bool,
        deadline: Instant,
        packet_id: &mut PacketIdGenerator,
    ) -> (r: Result<IoRequest<'a>, ClockError>)
        requires
            old(self).wf(),
        ensures
            final(self).wf(),
            final(self).is_event_of(
                *old(self),
                (old(packet_id).next_id(), final(packet_id).next_id()),
                now,
                (context, data, link_local),
                deadline,
                r,
            ),
    {
        if self.pending_tx.full() {
            return Ok(IoRequest::QueueFull { packet_id: packet_id.next().id });
        }
        if now.checked_add(self.pending_tx.timeout).is_none() {
            return Err(ClockError::Overflow);
        }
        let metadata = UdpMetadata {
            remote_addr: multicast_endpoint(EVENT_PORT, link_local),
            local_addr: None,
            meta: packet_id.next(),
        };
        proof {
            timeouts_stay_representable(
                self.pending_tx.slots@,
                self.pending_tx.timeout,
                now,
                PendingTx { context, packet_id: metadata.meta.id, started: now },
                metadata.meta.id,
            );
        }
        self.pending_tx.push_at(now, context, metadata.meta.id);
        Ok(IoRequest::SendEvent { data, metadata, deadline: self.next_deadline(deadline) })
    }

    /// Starts a timer at the clock reading `now`.
    fn start_timer<'a>(&mut self, now: Instant, timer: StatimeTimer, duration: CoreDuration) -> (r:
        Result<IoRequest<'a>, ClockError>)
        ensures
            final(self).joined == old(self).joined,
            final(self).pending_tx == old(self).pending_tx,
            final(self).timers.is_reset_of(
                old(self).timers,
                now,
                timer,
                duration,
                match r {
                    Ok(_) => Ok(()),
                    Err(error) => Err(error),
                },
            ),
            r matches Ok(request) ==> request is Nothing,
    {
        match self.timers.reset_at(now, timer, duration) {
            Ok(()) => Ok(IoRequest::Nothing),
            Err(error) => Err(error),
        }
    }

    /// Handles an action of the protocol at the moment of the call, up to what the
    /// caller has to send or report.
    pub fn handle<'a>(
        &mut self,
        action: PortAction<'a>,
        deadline: Instant,
        packet_id: &mut PacketIdGenerator,
        monitored: bool,
    ) -> (r: Result<IoRequest<'a>, ClockError>)
        requires
            old(self).wf(),
        ensures
            final(self).wf(),
            exists|now: Instant|
                read_from_clock(now) && #[trigger]
                final(self).is_handle_of(
                    *old(self),
                    (old(packet_id).next_id(), final(packet_id).next_id()),
                    now,
                    action,
                    deadline,
                    monitored,
                    r,
                ),
    {
        let now = read_clock();
        self.handle_at(now, action, deadline, packet_id, monitored)
    }

    /// What the outcome of sending an event packet gives at `now`: the wait for its
    /// timestamp begins anew if it was sent, and ends if it was not.
    pub open spec fn is_event_sent_of(
        self,
        before: Self,
        now: Instant,
        packet_id: u32,
        sent: bool,
        r: Result<(), ClockError>,
    ) -> bool {
        if sent && is_pending(before.pending_tx.slots@, packet_id) && now.spec_checked_add(
            before.pending_tx.timeout,
        ) is None {
            &&& self == before
            &&& r == Err::<(), ClockError>(ClockError::Overflow)
        } else {
            &&& self.joined == before.joined
            &&& self.timers == before.timers
            &&& if sent {
                self.pending_tx.is_sent_of(before.pending_tx, now, packet_id)
            } else {
                self.pending_tx.is_without(before.pending_tx, packet_id)
            }
            &&& r is Ok
        }
    }

    /// Takes note at the clock reading `now` of whether an event packet was sent.
    pub fn event_sent_at(&mut self, now: Instant, packet_id: u32, sent: bool) -> (r: Result<
        (),
        ClockError,
    >)
        requires
            old(self).wf(),
        ensures
            final(self).wf(),
            final(self).is_event_sent_of(*old(self), now, packet_id, sent, r),
    {
        proof {
            let slots = self.pending_tx.slots@;
            timeouts_stay_representable(
                slots,
                self.pending_tx.timeout,
                now,
                PendingTx { started: now, ..pending_with_id(slots, packet_id) },
                packet_id,
            );
        }
        if sent {
            let found: usize = self.pending_tx.find(packet_id);
            if found < TX_PENDING && now.checked_add(self.pending_tx.timeout).is_none() {
                return Err(ClockError::Overflow);
            }
            self.pending_tx.sent_at(now, packet_id);
        } else {
            self.pending_tx.take(packet_id);
        }
        Ok(())
    }

    /// Takes note at the moment of the call of whether an event packet was sent.
    pub fn event_sent(&mut self, packet_id: u32, sent: bool) -> (r: Result<(), ClockError>)
        requires
            old(self).wf(),
        ensures
            final(self).wf(),
            exists|now: Instant|
                read_from_clock(now) && #[trigger]
                final(self).is_event_sent_of(*old(self), now, packet_id, sent, r),
    {
        let now = read_clock();
        self.event_sent_at(now, packet_id, sent)
    }

    /// What the socket of event messages gave for the protocol. The socket of general
    /// messages is asked only if this one has nothing.
    pub fn receive_event(polled: Polled, receive_delay_requests: bool) -> (r: ReceiveStep)
        ensures
            r == spec_receive_event(polled, receive_delay_requests),
    {
        match polled {
            Polled::Packet(packet) => {
                if packet.payload.len() > MAX_PACKET_LEN {
                    return ReceiveStep::Done(Incoming::Problem(ReceiveProblem::Oversized));
                }
                let payload = packet.payload.as_slice();
                let timestamp = rx_event_timestamp(payload, packet.meta, receive_delay_requests);
                let missing = missing_rx_timestamp(payload, packet.meta, receive_delay_requests);
                let packet_id: u32 = packet.meta.id;
                ReceiveStep::Done(
                    match (timestamp, missing) {
                        (Some(timestamp), _) => Incoming::Event(packet, timestamp),
                        (None, Some(message_type)) => Incoming::Problem(
                            ReceiveProblem::MissingTimestamp { packet_id, message_type },
                        ),
                        (None, None) => Incoming::Nothing,
                    },
                )
            },
            Polled::Failed(error) => ReceiveStep::Done(
                Incoming::Problem(ReceiveProblem::Failed { socket: SocketKind::Event, error }),
            ),
            Polled::WouldBlock => ReceiveStep::PollGeneral,
        }
    }

    /// What the socket of general messages gave for the protocol.
    pub fn receive_general(polled: Polled) -> (r: Incoming)
        ensures
            r == spec_receive_general(polled),
    {
        match polled {
            Polled::Packet(packet) => {
                if packet.payload.len() <= MAX_PACKET_LEN && ptp_message_type(
                    packet.payload.as_slice(),
                ).is_some() {
                    Incoming::General(packet)
                } else {
                    Incoming::Nothing
                }
            },
            Polled::Failed(error) => Incoming::Problem(
                ReceiveProblem::Failed { socket: SocketKind::General, error },
            ),
            Polled::WouldBlock => Incoming::Nothing,
        }
    }

    /// The addresses of the groups to leave when the sockets are given up.
    pub fn groups_to_leave(&self) -> (r: Vec<Ipv4Addr>)
        ensures
            r@ == self.joined.groups().map_values(|group: Group| group.spec_address()),
    {
        self.joined.addresses()
    }
}

/// The next deadline is the earliest of them all: it is not after `deadline`, the
/// deadline of any running timer or the end of any wait, and it is one of these.
pub proof fn next_deadline_is_the_earliest(io: PortIo, deadline: Instant)
    requires
        io.wf(),
    ensures
        ({
            let next = io.spec_next_deadline(deadline);
            let slots = io.pending_tx.slots@;
            let timeout = io.pending_tx.timeout;
            &&& next.ticks <= deadline.ticks
            &&& forall|timer: StatimeTimer|
                #[trigger] io.timers.deadline(timer) matches Some(due) ==> next.ticks <= due.ticks
            &&& forall|i: int|
                0 <= i < slots.len() ==> (#[trigger] slots[i] matches Some(pending) ==> next.ticks
                    <= pending.started.ticks + timeout.ticks)
            &&& next == deadline || (exists|timer: StatimeTimer| #[trigger]
                io.timers.deadline(timer) == Some(next)) || (exists|i: int|
                0 <= i < slots.len() && (#[trigger] slots[i] matches Some(pending)
                    && pending.started.ticks + timeout.ticks == next.ticks))
        }),
{
    let next = io.spec_next_deadline(deadline);
    let slots = io.pending_tx.slots@;
    let timeout = io.pending_tx.timeout;
    let timers = io.timers.deadlines@;
    let waits = timeout_deadlines(slots, timeout);
    earliest_is_the_minimum(timers);
    earliest_is_the_minimum(waits);
    assert forall|timer: StatimeTimer| #[trigger] io.timers.deadline(timer) is Some implies next.ticks
        <= io.timers.deadline(timer)->0.ticks by {
        assert(timers[timer.slot()] is Some);
    }
    assert forall|i: int| 0 <= i < slots.len() && #[trigger] slots[i] is Some implies next.ticks
        <= slots[i]->0.started.ticks + timeout.ticks by {
        assert(waits[i] is Some);
    }
    if next != deadline {
        if earliest(timers) == Some(next) {
            let i = choose|i: int| 0 <= i < timers.len() && timers[i] == Some(next);
            assert(io.timers.deadline(StatimeTimer::at_slot(i)) == Some(next));
        } else {
            assert(earliest(waits) == Some(next));
            let i = choose|i: int| 0 <= i < waits.len() && waits[i] == Some(next);
            assert(slots[i] is Some);
        }
    }
}

/// No send waits for long: the deadline of a packet that is to be sent is not after
/// the time at which the caller has something else to do, nor after the transmit
/// timestamp timeout.
pub proof fn sends_are_bounded<'a>(
    before: PortIo,
    after: PortIo,
    ids: (u32, u32),
    now: Instant,
    action: PortAction<'a>,
    deadline: Instant,
    monitored: bool,
    request: IoRequest<'a>,
)
    requires
        before.wf(),
        after.wf(),
        after.is_handle_of(before, ids, now, action, deadline, monitored, Ok(request)),
    ensures
        request matches IoRequest::SendEvent { data, metadata, deadline: limit } ==> limit.ticks
            <= deadline.ticks && limit.ticks <= now.ticks + before.pending_tx.timeout.ticks,
        request matches IoRequest::SendGeneral { data, metadata, deadline: limit } ==> limit.ticks
            <= deadline.ticks && limit.ticks <= now.ticks + before.pending_tx.timeout.ticks,
{
    next_deadline_is_the_earliest(before, deadline);
    next_deadline_is_the_earliest(after, deadline);
    if action is SendEvent {
        if !is_full(before.pending_tx.slots@) {
            let free = first_free(before.pending_tx.slots@, 0);
            first_free_is_a_free_slot(before.pending_tx.slots@);
            if request is SendEvent {
                assert(after.pending_tx.slots@[free] is Some);
            }
        }
    }
}

/// An event packet that is to be sent waits for its timestamp under the identifier
/// in its metadata, with the context that came with it, if no packet waited under
/// that identifier before; and if the send fails, the queue is as before.
pub proof fn event_packet_waits_under_its_id<'a>(
    before: PortIo,
    after: PortIo,
    given_up: PortIo,
    ids: (u32, u32),
    now: Instant,
    later: Instant,
    packet: (TimestampContext, &'a [u8], bool),
    deadline: Instant,
    request: IoRequest<'a>,
)
    requires
        after.is_event_of(before, ids, now, packet, deadline, Ok(request)),
        request is SendEvent,
        !is_pending(before.pending_tx.slots@, ids.0),
        given_up.is_event_sent_of(after, later, ids.0, false, Ok(())),
    ensures
        request->SendEvent_metadata.meta.id == ids.0,
        after.pending_tx.context_of(ids.0) == Some(packet.0),
        given_up.pending_tx.slots@ == before.pending_tx.slots@,
{
    take_gives_back_what_was_pushed(
        before.pending_tx.slots@,
        PendingTx { context: packet.0, packet_id: ids.0, started: now },
    );
}

/// What goes to the protocol from the socket of event messages is no longer than the
/// largest packet, has a header, is not a peer delay message, is a delay request only
/// if those are wanted, and comes unchanged with the timestamp that it was received
/// with.
pub proof fn event_messages_are_fit_for_the_protocol(
    packet: RecvPacket,
    receive_delay_requests: bool,
    taken: RecvPacket,
    timestamp: Timestamp,
)
    requires
        event_incoming(packet, receive_delay_requests) == Incoming::Event(taken, timestamp),
    ensures
        taken == packet,
        packet.meta.timestamp == Some(timestamp),
        HEADER_LEN <= packet.payload@.len() <= MAX_PACKET_LEN,
        packet.payload@[0] % 16 != MSG_PDELAY_REQ,
        packet.payload@[0] % 16 != MSG_PDELAY_RESP,
        packet.payload@[0] % 16 == MSG_DELAY_REQ ==> receive_delay_requests,
{
}

/// Handling an action keeps the identifiers of waiting packets distinct, if no packet
/// waits under the next identifier.
pub proof fn handle_keeps_ids_distinct<'a>(
    before: PortIo,
    after: PortIo,
    ids: (u32, u32),
    now: Instant,
    action: PortAction<'a>,
    deadline: Instant,
    monitored: bool,
    r: Result<IoRequest<'a>, ClockError>,
)
    requires
        distinct_ids(before.pending_tx.slots@),
        !is_pending(before.pending_tx.slots@, ids.0),
        after.is_handle_of(before, ids, now, action, deadline, monitored, r),
    ensures
        distinct_ids(after.pending_tx.slots@),
{
    let slots = before.pending_tx.slots@;
    if let PortAction::SendEvent { context, data, link_local } = action {
        if !is_full(slots) {
            let pending = PendingTx { context, packet_id: ids.0, started: now };
            push_keeps_the_others(slots, pending, succ_id(ids.0));
        }
    }
}

/// Taking note of how a send went keeps the identifiers of waiting packets distinct.
pub proof fn event_sent_keeps_ids_distinct(
    before: PortIo,
    after: PortIo,
    now: Instant,
    packet_id: u32,
    sent: bool,
    r: Result<(), ClockError>,
)
    requires
        distinct_ids(before.pending_tx.slots@),
        after.is_event_sent_of(before, now, packet_id, sent, r),
    ensures
        distinct_ids(after.pending_tx.slots@),
{
    let slots = before.pending_tx.slots@;
    expiry_and_restart_keep_ids_distinct(slots, before.pending_tx.timeout, packet_id, now);
    if is_pending(slots, packet_id) {
        taken_packet_is_gone(slots, packet_id);
    }
}

/// A packet goes on waiting, with its context, while actions are handled that do not
/// use its identifier, and while other packets are sent or given up.
pub proof fn packets_wait_through_other_actions<'a>(
    before: PortIo,
    handled: PortIo,
    noted: PortIo,
    ids: (u32, u32),
    now: Instant,
    action: PortAction<'a>,
    deadline: Instant,
    monitored: bool,
    r: Result<IoRequest<'a>, ClockError>,
    other: (u32, bool, Result<(), ClockError>),
    packet_id: u32,
)
    requires
        is_pending(before.pending_tx.slots@, packet_id),
        packet_id != ids.0,
        packet_id != other.0,
        handled.is_handle_of(before, ids, now, action, deadline, monitored, r),
        noted.is_event_sent_of(before, now, other.0, other.1, other.2),
    ensures
        is_pending(handled.pending_tx.slots@, packet_id),
        pending_with_id(handled.pending_tx.slots@, packet_id) == pending_with_id(
            before.pending_tx.slots@,
            packet_id,
        ),
        is_pending(noted.pending_tx.slots@, packet_id),
        pending_with_id(noted.pending_tx.slots@, packet_id) == pending_with_id(
            before.pending_tx.slots@,
            packet_id,
        ),
{
    let slots = before.pending_tx.slots@;
    if let PortAction::SendEvent { context, data, link_local } = action {
        if !is_full(slots) {
            let pending = PendingTx { context, packet_id: ids.0, started: now };
            push_keeps_the_others(slots, pending, packet_id);
        }
    }
    if is_pending(slots, other.0) {
        take_keeps_the_others(slots, other.0, packet_id);
        restart_keeps_the_packet(slots, other.0, now, packet_id);
    }
}

/// After a setup no timer runs and no packet waits; the joined groups and the timeout
/// are kept.
pub proof fn new_port_is_idle(setup: Setup, timeout: EmbassyDuration, r: PortIo, i: int)
    requires
        call_ensures(PortIo::new, (setup, timeout), r),
    ensures
        r.joined.primary == setup.joined.primary,
        r.joined.link_local == setup.joined.link_local,
        r.pending_tx.timeout == timeout,
        0 <= i < 5 ==> r.timers.deadlines@[i] is None,
        0 <= i < 4 ==> r.pending_tx.slots@[i] is None,
{
}

/// The next deadline is after none of `deadline`, the deadlines of the timers and the
/// ends of the waits, and is one of them.
pub proof fn next_deadline_is_due_first(io: PortIo, deadline: Instant, r: Instant, i: int)
    requires
        io.wf(),
        call_ensures(PortIo::next_deadline, (&io, deadline), r),
    ensures
        r.ticks <= deadline.ticks,
        0 <= i < 5 && io.timers.deadlines@[i] is Some ==> r.ticks
            <= io.timers.deadlines@[i]->0.ticks,
        0 <= i < 4 && io.pending_tx.slots@[i] is Some ==> r.ticks
            <= io.pending_tx.slots@[i]->0.started.ticks + io.pending_tx.timeout.ticks,
        r == deadline || (exists|j: int| 0 <= j < 5 && #[trigger] io.timers.deadlines@[j] == Some(r))
            || (exists|j: int|
            0 <= j < 4 && #[trigger] io.pending_tx.slots@[j] is Some && r.ticks
                == io.pending_tx.slots@[j]->0.started.ticks + io.pending_tx.timeout.ticks),
{
    next_deadline_is_one_of_them(io, deadline, i);
}

/// [`PortIo::spec_next_deadline`] is after none of the deadlines, and is one of them.
pub proof fn next_deadline_is_one_of_them(io: PortIo, deadline: Instant, i: int)
    requires
        io.wf(),
    ensures
        ({
            let r = io.spec_next_deadline(deadline);
            &&& r.ticks <= deadline.ticks
            &&& 0 <= i < 5 && io.timers.deadlines@[i] is Some ==> r.ticks
                <= io.timers.deadlines@[i]->0.ticks
            &&& 0 <= i < 4 && io.pending_tx.slots@[i] is Some ==> r.ticks
                <= io.pending_tx.slots@[i]->0.started.ticks + io.pending_tx.timeout.ticks
            &&& r == deadline || (exists|j: int|
                0 <= j < 5 && #[trigger] io.timers.deadlines@[j] == Some(r)) || (exists|j: int|
                0 <= j < 4 && #[trigger] io.pending_tx.slots@[j] is Some && r.ticks
                    == io.pending_tx.slots@[j]->0.started.ticks + io.pending_tx.timeout.ticks)
        }),
{
    let next = io.spec_next_deadline(deadline);
    let timers = io.timers.deadlines@;
    let slots = io.pending_tx.slots@;
    let waits = timeout_deadlines(slots, io.pending_tx.timeout);
    earliest_is_the_minimum(timers);
    earliest_is_the_minimum(waits);
    if 0 <= i < 4 && slots[i] is Some {
        assert(waits[i] is Some);
    }
    if next != deadline {
        if earliest(timers) == Some(next) {
            let j = choose|j: int| 0 <= j < timers.len() && timers[j] == Some(next);
            assert(timers[j] == Some(next));
        } else {
            let j = choose|j: int| 0 <= j < waits.len() && waits[j] == Some(next);
            assert(slots[j] is Some);
        }
    }
}

/// Handling an action at a clock reading is what [`PortIo::is_handle_of`] says.
pub proof fn actions_are_handled_at_a_reading<'a>(
    io: &mut PortIo,
    now: Instant,
    action: PortAction<'a>,
    deadline: Instant,
    packet_id: &mut PacketIdGenerator,
    monitored: bool,
    r: Result<IoRequest<'a>, ClockError>,
)
    requires
        call_ensures(PortIo::handle_at, (io, now, action, deadline, packet_id, monitored), r),
    ensures
        final(io).wf(),
        final(io).is_handle_of(
            *old(io),
            (old(packet_id).next_id(), final(packet_id).next_id()),
            now,
            action,
            deadline,
            monitored,
            r,
        ),
{
}

/// Handling an action at the moment of the call does so at a reading of the system
/// clock.
pub proof fn actions_are_handled_now<'a>(
    io: &mut PortIo,
    action: PortAction<'a>,
    deadline: Instant,
    packet_id: &mut PacketIdGenerator,
    monitored: bool,
    r: Result<IoRequest<'a>, ClockError>,
)
    requires
        call_ensures(PortIo::handle, (io, action, deadline, packet_id, monitored), r),
    ensures
        final(io).wf(),
        exists|now: Instant|
            read_from_clock(now) && #[trigger] final(io).is_handle_of(
                *old(io),
                (old(packet_id).next_id(), final(packet_id).next_id()),
                now,
                action,
                deadline,
                monitored,
                r,
            ),
{
}

/// Handling an event packet while there is room: it is to be sent unchanged to UDP port
/// 319 of 224.0.0.107 if it stays on the link and of 224.0.1.129 if not, under the next
/// identifier and with a request for its timestamp. It waits from `now` on, with its
/// context, in the first free slot, and the next packet gets another identifier. The
/// send is given up as soon as anything else is due, this wait among it. Nothing else
/// changes.
pub proof fn event_packet_is_sent_to_port_319<'a>(
    before: PortIo,
    after: PortIo,
    ids: (u32, u32),
    now: Instant,
    packet: (TimestampContext, &'a [u8], bool),
    deadline: Instant,
    monitored: bool,
    r: Result<IoRequest<'a>, ClockError>,
    i: int,
)
    requires
        before.wf(),
        after.wf(),
        ids.0 != 0,
        after.is_handle_of(
            before,
            ids,
            now,
            PortAction::SendEvent { context: packet.0, data: packet.1, link_local: packet.2 },
            deadline,
            monitored,
            r,
        ),
        exists|j: int| 0 <= j < 4 && #[trigger] before.pending_tx.slots@[j] is None,
        now.ticks + before.pending_tx.timeout.ticks <= 0xffff_ffff_ffff_ffff,
    ensures
        after.joined == before.joined,
        after.timers == before.timers,
        after.pending_tx.timeout == before.pending_tx.timeout,
        ids.1 == ids.0 as int % 0xffff_ffff + 1,
        exists|j: int|
            {
                &&& 0 <= j < 4
                &&& #[trigger] before.pending_tx.slots@[j] is None
                &&& after.pending_tx.slots@[j] is Some
                &&& after.pending_tx.slots@[j]->0.context == packet.0
                &&& after.pending_tx.slots@[j]->0.packet_id == ids.0
                &&& after.pending_tx.slots@[j]->0.started == now
                &&& forall|k: int| 0 <= k < j ==> #[trigger] before.pending_tx.slots@[k] is Some
                &&& forall|k: int|
                    0 <= k < 4 && k != j ==> #[trigger] after.pending_tx.slots@[k]
                        == before.pending_tx.slots@[k]
            },
        r is Ok && r->Ok_0 is SendEvent,
        r->Ok_0->SendEvent_data == packet.1,
        ({
            let metadata = r->Ok_0->SendEvent_metadata;
            let address = metadata.remote_addr.address;
            &&& metadata.remote_addr.port == 319
            &&& address.a == 224 && address.b == 0
            &&& packet.2 ==> address.c == 0 && address.d == 107
            &&& !packet.2 ==> address.c == 1 && address.d == 129
            &&& metadata.local_addr is None
            &&& metadata.meta.id == ids.0
            &&& metadata.meta.request_timestamp
            &&& metadata.meta.timestamp is None
        }),
        ({
            let limit = r->Ok_0->SendEvent_deadline;
            &&& limit.ticks <= deadline.ticks
            &&& limit.ticks <= now.ticks + before.pending_tx.timeout.ticks
            &&& 0 <= i < 5 && before.timers.deadlines@[i] is Some ==> limit.ticks
                <= before.timers.deadlines@[i]->0.ticks
            &&& 0 <= i < 4 && before.pending_tx.slots@[i] is Some ==> limit.ticks
                <= before.pending_tx.slots@[i]->0.started.ticks + before.pending_tx.timeout.ticks
            &&& limit == deadline || limit.ticks == now.ticks + before.pending_tx.timeout.ticks || (
            exists|j: int| 0 <= j < 5 && #[trigger] before.timers.deadlines@[j] == Some(limit)) || (
            exists|j: int|
                0 <= j < 4 && #[trigger] before.pending_tx.slots@[j] is Some && limit.ticks
                    == before.pending_tx.slots@[j]->0.started.ticks
                    + before.pending_tx.timeout.ticks)
        }),
{
    let slots = before.pending_tx.slots@;
    full_means_every_slot_waits(slots);
    first_free_is_a_free_slot(slots);
    first_free_is_the_first(slots);
    let free = first_free(slots, 0);
    assert(slots[free] is None);
    assert(after.pending_tx.slots@[free] is Some);
    next_deadline_is_one_of_them(after, deadline, i);
    next_deadline_is_one_of_them(after, deadline, free);
    let limit = after.spec_next_deadline(deadline);
    if 0 <= i < 4 && slots[i] is Some {
        assert(after.pending_tx.slots@[i] == slots[i]);
    }
    if exists|j: int|
        0 <= j < 4 && #[trigger] after.pending_tx.slots@[j] is Some && limit.ticks
            == after.pending_tx.slots@[j]->0.started.ticks + after.pending_tx.timeout.ticks {
        let j = choose|j: int|
            0 <= j < 4 && #[trigger] after.pending_tx.slots@[j] is Some && limit.ticks
                == after.pending_tx.slots@[j]->0.started.ticks + after.pending_tx.timeout.ticks;
        if j != free {
            assert(slots[j] == after.pending_tx.slots@[j]);
        }
    }
}

/// Handling an event packet while four packets wait: it is not sent, and the report has
/// the identifier that it used up. Nothing else changes.
pub proof fn event_packet_without_room_is_reported<'a>(
    before: PortIo,
    after: PortIo,
    ids: (u32, u32),
    now: Instant,
    packet: (TimestampContext, &'a [u8], bool),
    deadline: Instant,
    monitored: bool,
    r: Result<IoRequest<'a>, ClockError>,
)
    requires
        ids.0 != 0,
        after.is_handle_of(
            before,
            ids,
            now,
            PortAction::SendEvent { context: packet.0, data: packet.1, link_local: packet.2 },
            deadline,
            monitored,
            r,
        ),
        forall|j: int| 0 <= j < 4 ==> #[trigger] before.pending_tx.slots@[j] is Some,
    ensures
        after == before,
        ids.1 == ids.0 as int % 0xffff_ffff + 1,
        r is Ok && r->Ok_0 is QueueFull,
        r->Ok_0->packet_id == ids.0,
{
    full_means_every_slot_waits(before.pending_tx.slots@);
}

/// Handling a packet to send whose wait would end past the last instant fails and
/// changes nothing.
pub proof fn packet_past_the_last_instant_is_refused<'a>(
    before: PortIo,
    after: PortIo,
    ids: (u32, u32),
    now: Instant,
    action: PortAction<'a>,
    deadline: Instant,
    monitored: bool,
    r: Result<IoRequest<'a>, ClockError>,
)
    requires
        after.is_handle_of(before, ids, now, action, deadline, monitored, r),
        action is SendGeneral || action is SendEvent && exists|j: int|
            0 <= j < 4 && #[trigger] before.pending_tx.slots@[j] is None,
        now.ticks + before.pending_tx.timeout.ticks > 0xffff_ffff_ffff_ffff,
    ensures
        after == before,
        ids.1 == ids.0,
        r matches Err(error) && error is Overflow,
{
    full_means_every_slot_waits(before.pending_tx.slots@);
}

/// Handling a general packet: it is to be sent unchanged to UDP port 320 of 224.0.0.107
/// if it stays on the link and of 224.0.1.129 if not, without an identifier or a request
/// for a timestamp. The send is given up as soon as anything else is due, and after the
/// timeout at the latest. Nothing changes.
pub proof fn general_packet_is_sent_to_port_320<'a>(
    before: PortIo,
    after: PortIo,
    ids: (u32, u32),
    now: Instant,
    data: &'a [u8],
    link_local: bool,
    deadline: Instant,
    monitored: bool,
    r: Result<IoRequest<'a>, ClockError>,
    i: int,
)
    requires
        before.wf(),
        after.is_handle_of(
            before,
            ids,
            now,
            PortAction::SendGeneral { data, link_local },
            deadline,
            monitored,
            r,
        ),
        now.ticks + before.pending_tx.timeout.ticks <= 0xffff_ffff_ffff_ffff,
    ensures
        after == before,
        ids.1 == ids.0,
        r is Ok && r->Ok_0 is SendGeneral,
        r->Ok_0->SendGeneral_data == data,
        ({
            let metadata = r->Ok_0->SendGeneral_metadata;
            let address = metadata.remote_addr.address;
            &&& metadata.remote_addr.port == 320
            &&& address.a == 224 && address.b == 0
            &&& link_local ==> address.c == 0 && address.d == 107
            &&& !link_local ==> address.c == 1 && address.d == 129
            &&& metadata.local_addr is None
            &&& metadata.meta.id == 0
            &&& !metadata.meta.request_timestamp
            &&& metadata.meta.timestamp is None
        }),
        ({
            let limit = r->Ok_0->SendGeneral_deadline;
            &&& limit.ticks <= deadline.ticks
            &&& limit.ticks <= now.ticks + before.pending_tx.timeout.ticks
            &&& 0 <= i < 5 && before.timers.deadlines@[i] is Some ==> limit.ticks
                <= before.timers.deadlines@[i]->0.ticks
            &&& 0 <= i < 4 && before.pending_tx.slots@[i] is Some ==> limit.ticks
                <= before.pending_tx.slots@[i]->0.started.ticks + before.pending_tx.timeout.ticks
            &&& limit == deadline || limit.ticks == now.ticks + before.pending_tx.timeout.ticks || (
            exists|j: int| 0 <= j < 5 && #[trigger] before.timers.deadlines@[j] == Some(limit)) || (
            exists|j: int|
                0 <= j < 4 && #[trigger] before.pending_tx.slots@[j] is Some && limit.ticks
                    == before.pending_tx.slots@[j]->0.started.ticks
                    + before.pending_tx.timeout.ticks)
        }),
{
    next_deadline_is_one_of_them(before, deadline, i);
}

/// Handling an action that starts a timer: that timer, and no other, is due the whole
/// duration after `now` and less than a tick more. A monitor, if there is one, is told
/// that the clock is tracking exactly if it is the timer of the filter. An error comes
/// only if no instant is late enough, and changes nothing.
pub proof fn timer_action_starts_its_timer<'a>(
    before: PortIo,
    after: PortIo,
    ids: (u32, u32),
    now: Instant,
    action: PortAction<'a>,
    duration: CoreDuration,
    deadline: Instant,
    monitored: bool,
    r: Result<IoRequest<'a>, ClockError>,
    i: int,
)
    requires
        after.is_handle_of(before, ids, now, action, deadline, monitored, r),
        ({
            ||| action == (PortAction::ResetAnnounceTimer { duration })
            ||| action == (PortAction::ResetSyncTimer { duration })
            ||| action == (PortAction::ResetDelayRequestTimer { duration })
            ||| action == (PortAction::ResetAnnounceReceiptTimer { duration })
            ||| action == (PortAction::ResetFilterUpdateTimer { duration })
        }),
        0 <= i < 5,
    ensures
        after.joined == before.joined,
        after.pending_tx == before.pending_tx,
        ids.1 == ids.0,
        ({
            let timer: int = if action is ResetAnnounceTimer {
                0
            } else if action is ResetSyncTimer {
                1
            } else if action is ResetDelayRequestTimer {
                2
            } else if action is ResetAnnounceReceiptTimer {
                3
            } else {
                4
            };
            let nanos = duration.secs * 1_000_000_000 + duration.nanos;
            let length = if nanos <= 0xffff_ffff_ffff_ffff {
                nanos
            } else {
                0xffff_ffff_ffff_ffff
            };
            let due = after.timers.deadlines@[timer];
            &&& i != timer ==> after.timers.deadlines@[i] == before.timers.deadlines@[i]
            &&& r is Ok ==> due is Some && length <= (due->0.ticks - now.ticks) * 1_000 < length
                + 1_000
            &&& r matches Err(error) ==> error is Overflow && (0xffff_ffff_ffff_ffff - now.ticks)
                * 1_000 < length && due == before.timers.deadlines@[timer]
        }),
        r matches Ok(request) ==> if action is ResetFilterUpdateTimer && monitored {
            request == IoRequest::<'a>::Notify(MonitorUpdate::Tracking)
        } else {
            request is Nothing
        },
{
}

/// There is no other port to forward anything to.
pub proof fn nothing_is_forwarded<'a>(
    before: PortIo,
    after: PortIo,
    ids: (u32, u32),
    now: Instant,
    deadline: Instant,
    monitored: bool,
    r: Result<IoRequest<'a>, ClockError>,
)
    requires
        after.is_handle_of(before, ids, now, PortAction::ForwardTLV, deadline, monitored, r),
    ensures
        after == before,
        ids.1 == ids.0,
        r is Ok && r->Ok_0 is Nothing,
{
}

/// Taking note at a clock reading of how a send went is what
/// [`PortIo::is_event_sent_of`] says.
pub proof fn sends_are_noted_at_a_reading(
    io: &mut PortIo,
    now: Instant,
    packet_id: u32,
    sent: bool,
    r: Result<(), ClockError>,
)
    requires
        call_ensures(PortIo::event_sent_at, (io, now, packet_id, sent), r),
    ensures
        final(io).wf(),
        final(io).is_event_sent_of(*old(io), now, packet_id, sent, r),
{
}

/// Taking note of how a send went changes no more than the first packet with that
/// identifier: its wait begins anew at `now` if it was sent, and ends if it was not. An
/// error comes only if the new wait would end past the last instant, and changes nothing.
pub proof fn noted_send_concerns_its_packet(
    before: PortIo,
    after: PortIo,
    now: Instant,
    packet_id: u32,
    sent: bool,
    r: Result<(), ClockError>,
    slot: int,
)
    requires
        after.is_event_sent_of(before, now, packet_id, sent, r),
        0 <= slot < 4,
    ensures
        after.joined == before.joined,
        after.timers == before.timers,
        after.pending_tx.timeout == before.pending_tx.timeout,
        r is Err <==> sent && now.ticks + before.pending_tx.timeout.ticks > 0xffff_ffff_ffff_ffff
            && exists|j: int|
            0 <= j < 4 && #[trigger] before.pending_tx.slots@[j] is Some
                && before.pending_tx.slots@[j]->0.packet_id == packet_id,
        r matches Err(error) ==> error is Overflow && after == before,
        r is Ok ==> {
            let was = before.pending_tx.slots@[slot];
            let is = after.pending_tx.slots@[slot];
            let found = was is Some && was->0.packet_id == packet_id && forall|j: int|
                0 <= j < slot && #[trigger] before.pending_tx.slots@[j] is Some
                    ==> before.pending_tx.slots@[j]->0.packet_id != packet_id;
            &&& found && sent ==> is is Some && is->0.started == now && is->0.packet_id == packet_id
                && is->0.context == was->0.context
            &&& found && !sent ==> is is None
            &&& !found ==> is == was
        },
{
    let slots = before.pending_tx.slots@;
    found_packet_is_the_first(slots, packet_id, slot);
    pending_means_a_slot_holds_it(slots, packet_id);
    if is_pending(slots, packet_id) {
        let j = choose|j: int|
            0 <= j < slots.len() && holds_id(#[trigger] slots[j], packet_id);
        assert(slots[j] is Some);
    }
    if exists|j: int| 0 <= j < 4 && #[trigger] slots[j] is Some && slots[j]->0.packet_id == packet_id {
        let j = choose|j: int|
            0 <= j < 4 && #[trigger] slots[j] is Some && slots[j]->0.packet_id == packet_id;
        assert(holds_id(slots[j], packet_id));
    }
}

/// A wait is restarted at a reading of the system clock: whatever beginning of a wait is
/// new after taking note of a send at the moment of the call, the system clock gave it.
pub proof fn restarted_wait_begins_now(
    io: &mut PortIo,
    packet_id: u32,
    sent: bool,
    r: Result<(), ClockError>,
    slot: int,
)
    requires
        call_ensures(PortIo::event_sent, (io, packet_id, sent), r),
        0 <= slot < 4,
    ensures
        final(io).wf(),
        exists|now: Instant|
            read_from_clock(now) && #[trigger] final(io).is_event_sent_of(
                *old(io),
                now,
                packet_id,
                sent,
                r,
            ),
        ({
            let was = old(io).pending_tx.slots@[slot];
            let is = final(io).pending_tx.slots@[slot];
            let found = was is Some && was->0.packet_id == packet_id && forall|j: int|
                0 <= j < slot && #[trigger] old(io).pending_tx.slots@[j] is Some
                    ==> old(io).pending_tx.slots@[j]->0.packet_id != packet_id;
            &&& r is Ok && found && sent ==> is is Some && read_from_clock(is->0.started)
                && is->0.packet_id == packet_id && is->0.context == was->0.context
            &&& r is Ok && found && !sent ==> is is None
            &&& !found || r is Err ==> is == was
        }),
{
    let now = choose|now: Instant|
        read_from_clock(now) && #[trigger] final(io).is_event_sent_of(
            *old(io),
            now,
            packet_id,
            sent,
            r,
        );
    noted_send_concerns_its_packet(*old(io), *final(io), now, packet_id, sent, r, slot);
}

/// What the socket of event messages gives is told apart completely. A packet of 34 to
/// 256 bytes that is no peer delay message, and is a delay request only if those are
/// wanted, goes to the protocol as it is, with the timestamp that it was received with;
/// without one it is reported. Longer packets and errors of the socket are reported, all
/// other packets are ignored, and the other socket is asked only if this one has nothing.
pub proof fn event_packets_are_told_apart(
    polled: Polled,
    receive_delay_requests: bool,
    r: ReceiveStep,
)
    requires
        call_ensures(PortIo::receive_event, (polled, receive_delay_requests), r),
    ensures
        polled is WouldBlock <==> r is PollGeneral,
        polled matches Polled::Failed(error) ==> r == ReceiveStep::Done(
            Incoming::Problem(ReceiveProblem::Failed { socket: SocketKind::Event, error }),
        ),
        polled matches Polled::Packet(packet) ==> {
            let kind = packet.payload@[0] as int % 16;
            let len = packet.payload@.len();
            let wanted = 34 <= len <= 256 && kind != 2 && kind != 3 && (kind != 1
                || receive_delay_requests);
            &&& len > 256 ==> r == ReceiveStep::Done(Incoming::Problem(ReceiveProblem::Oversized))
            &&& wanted && packet.meta.timestamp is Some ==> r == ReceiveStep::Done(
                Incoming::Event(packet, packet.meta.timestamp->0),
            )
            &&& wanted && packet.meta.timestamp is None ==> r == ReceiveStep::Done(
                Incoming::Problem(
                    ReceiveProblem::MissingTimestamp {
                        packet_id: packet.meta.id,
                        message_type: kind as u8,
                    },
                ),
            )
            &&& len <= 256 && !wanted ==> r == ReceiveStep::Done(Incoming::Nothing)
        },
{
}

/// What the socket of general messages gives is told apart completely: a packet of 34 to
/// 256 bytes goes to the protocol as it is, other packets are ignored, and errors of the
/// socket are reported.
pub proof fn general_packets_are_told_apart(polled: Polled, r: Incoming)
    requires
        call_ensures(PortIo::receive_general, (polled,), r),
    ensures
        polled is WouldBlock ==> r is Nothing,
        polled matches Polled::Failed(error) ==> r == Incoming::Problem(
            ReceiveProblem::Failed { socket: SocketKind::General, error },
        ),
        polled matches Polled::Packet(packet) ==> if 34 <= packet.payload@.len() <= 256 {
            r == Incoming::General(packet)
        } else {
            r is Nothing
        },
{
}

/// In the end 224.0.1.129 is left if the primary group was joined, and then 224.0.0.107
/// if the link-local group was.
pub proof fn groups_are_left_in_the_end(io: PortIo, r: Vec<Ipv4Addr>)
    requires
        call_ensures(PortIo::groups_to_leave, (&io,), r),
    ensures
        r@.len() == (if io.joined.primary {
            1int
        } else {
            0
        }) + (if io.joined.link_local {
            1int
        } else {
            0
        }),
        io.joined.primary ==> r@[0] == (Ipv4Addr { a: 224, b: 0, c: 1, d: 129 }),
        io.joined.link_local ==> r@[r@.len() - 1] == (Ipv4Addr { a: 224, b: 0, c: 0, d: 107 }),
{
}

/// A port's state is well-formed exactly if no wait ends past the last instant.
pub proof fn waits_end_in_time(io: PortIo)
    ensures
        io.wf() <==> forall|i: int|
            0 <= i < 4 && #[trigger] io.pending_tx.slots@[i] is Some
                ==> io.pending_tx.slots@[i]->0.started.ticks + io.pending_tx.timeout.ticks
                <= 0xffff_ffff_ffff_ffff,
{
}

} // verus!
