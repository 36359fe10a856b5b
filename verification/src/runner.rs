//! The decisions of the service loop.
//!
//! The caller owns the sockets, the clock and the protocol port. It asks
//! [`Runner::decide`] what is due, does it, hands the protocol's actions to
//! [`Runner::handle`], asks [`Run::afterwards`] whether to wait and reports with
//! [`Run::woken`] what ended the wait.

use vstd::prelude::*;

use statime::port::TimestampContext;

use crate::config::Config;
use crate::monitor::{told, MonitorUpdate};
use crate::packet::{
    spec_ptp_message_type, spec_rx_event_timestamp, succ_id, PacketIdGenerator, PacketMeta,
    MSG_DELAY_REQ,
};
use crate::pending::{
    distinct_ids, expired_ids, expired_ids_are_those_of_the_overdue,
    expiry_and_restart_keep_ids_distinct, expiry_keeps_a_packet_in_time, first_with_id,
    found_packet_is_the_first, is_expired, is_pending, pending_means_a_slot_holds_it,
    pending_with_id, reported_ids_are_in_slot_order, restart_keeps_the_packet, started_by, take_gives_back_what_was_pushed,
    take_keeps_the_others, taken, taken_packet_is_gone, timeouts_stay_representable, unexpired, PendingTx,
};
use crate::port_io::{
    next_deadline_is_one_of_them, next_deadline_is_the_earliest, IoRequest, PortAction, PortIo,
};
use crate::setup::Setup;
use crate::state::{spec_state_name, state_name, PortState};
use crate::time::{
    deadline_after, deadline_from, read_clock, read_from_clock, spec_time_from, time_from,
    ClockError, CoreDuration, Instant, Time, Timestamp, TxTimestamp,
};
use crate::timers::StatimeTimer;

verus! {

/// Single-port PTP ordinary-clock service.
///
/// Keep one runner per Ethernet port for the lifetime of the network stack: packet
/// identifiers go on where they were when the service is started again.
#[derive(Debug)]
pub struct Runner {
    /// Configuration of the service.
    pub config: Config,
    /// Source of packet identifiers.
    pub packet_id: PacketIdGenerator,
    /// Whether a monitor is told of the clock's tracking state.
    pub monitored: bool,
}

/// A service that has been started.
#[derive(Debug)]
pub struct Run {
    /// The state behind the sockets.
    pub io: PortIo,
    /// When the best master clock algorithm is next due.
    pub bmca: Instant,
    /// A transmit timestamp that has come in and was not handed on yet.
    pub tx_timestamp: Option<TxTimestamp>,
}

/// What is due.
#[derive(Debug)]
pub enum Decision {
    /// Run the best master clock algorithm, handle the actions that come of it and
    /// ask again without waiting.
    RunBmca,
    /// Give the protocol the transmit timestamp of an event packet.
    SendTimestamp {
        /// What came with the packet.
        context: TimestampContext,
        /// When the packet was sent.
        time: Time,
    },
    /// Tell the protocol that a timer is due.
    Timer {
        /// The timer.
        timer: StatimeTimer,
        /// What the monitor is told first.
        notify: Option<MonitorUpdate>,
    },
    /// Ask the sockets for a packet.
    Receive {
        /// Whether delay requests are wanted.
        receive_delay_requests: bool,
    },
    /// Nothing: a transmit timestamp came in for a packet that does not wait.
    Nothing,
}

/// What is due, and which packets have waited in vain for a transmit timestamp.
#[derive(Debug)]
pub struct Turn {
    /// What is due.
    pub decision: Decision,
    /// Identifiers of the packets that no longer wait.
    pub expired: Vec<u32>,
}

/// What ended a wait.
#[derive(Clone, Copy, Debug, PartialEq, Eq, Structural)]
pub enum WaitOutcome {
    /// A transmit timestamp came in.
    TxTimestamp(TxTimestamp),
    /// The socket of event messages has something.
    EventReady,
    /// The socket of general messages has something.
    GeneralReady,
    /// The deadline was reached.
    DeadlineReached,
}

/// What follows once the actions of a decision are handled.
#[derive(Clone, Copy, Debug, PartialEq, Eq, Structural)]
pub enum Afterwards {
    /// Decide again at once.
    DecideAgain,
    /// Wait for a transmit timestamp or a packet, until this deadline at most.
    WaitUntil(Instant),
}

/// What running the best master clock algorithm leads to.
#[derive(Clone, Copy, Debug)]
pub struct BmcaReport {
    /// What the monitor is told.
    pub notify: Option<MonitorUpdate>,
    /// Names of the old and the new port state, if the state has changed.
    pub state_change: Option<(&'static str, &'static str)>,
}

impl Runner {
    /// A service with this configuration, not yet started.
    pub fn new(config: Config) -> (r: Self)
        ensures
            r.config == config,
            r.packet_id.next_id() == 1,
            !r.monitored,
    {
        Runner { config, packet_id: PacketIdGenerator::new(), monitored: false }
    }

    /// Report clock tracking state through a monitor.
    pub fn with_monitor(self) -> (r: Self)
        ensures
            r.config == self.config,
            r.packet_id == self.packet_id,
            r.monitored,
    {
        Runner { config: self.config, packet_id: self.packet_id, monitored: true }
    }

    /// What starting the service at `now` gives: nothing runs or waits, the best
    /// master clock algorithm is due after its interval, and no transmit timestamp
    /// has come in.
    pub open spec fn is_start(
        self,
        now: Instant,
        setup: Setup,
        bmca_interval: CoreDuration,
        r: Result<Run, ClockError>,
    ) -> bool {
        match deadline_after(now, bmca_interval) {
            Ok(bmca) => {
                &&& r is Ok
                &&& r->Ok_0.io.wf()
                &&& r->Ok_0.io.is_fresh(setup.joined, self.config.tx_timestamp_timeout)
                &&& r->Ok_0.bmca == bmca
                &&& r->Ok_0.tx_timestamp is None
            },
            Err(error) => r == Err::<Run, ClockError>(error),
        }
    }

    /// Starts the service at the clock reading `now`, with sockets that are set up.
    pub fn start_at(&self, now: Instant, setup: Setup, bmca_interval: CoreDuration) -> (r: Result<
        Run,
        ClockError,
    >)
        requires
            setup.step is Finished,
        ensures
            self.is_start(now, setup, bmca_interval, r),
    {
        match deadline_from(now, bmca_interval) {
            Ok(bmca) => {
                let io = PortIo::new(setup, self.config.tx_timestamp_timeout);
                Ok(Run { io, bmca, tx_timestamp: None })
            },
            Err(error) => Err(error),
        }
    }

    /// Starts the service at the moment of the call, with sockets that are set up.
    pub fn start(&self, setup: Setup, bmca_interval: CoreDuration) -> (r: Result<Run, ClockError>)
        requires
            setup.step is Finished,
        ensures
            exists|now: Instant|
                read_from_clock(now) && #[trigger] self.is_start(now, setup, bmca_interval, r),
    {
        let now = read_clock();
        self.start_at(now, setup, bmca_interval)
    }

    /// Decides at the moment of the call what is due, for a port in `port_state`.
    pub fn decide(&self, run: &mut Run, port_state: PortState, bmca_interval: CoreDuration) -> (r:
        Result<Turn, ClockError>)
        requires
            old(run).io.wf(),
        ensures
            final(run).io.wf(),
            exists|now: Instant|
                read_from_clock(now) && #[trigger]
                final(run).is_turn_of(
                    *old(run),
                    now,
                    port_state,
                    bmca_interval,
                    self.monitored,
                    r,
                ),
    {
        let now = read_clock();
        run.decide_at(now, port_state, bmca_interval, self.monitored)
    }

    /// Handles an action of the protocol at the clock reading `now`, up to what the
    /// caller has to send or report.
    pub fn handle_at<'a>(&mut self, run: &mut Run, now: Instant, action: PortAction<'a>) -> (r:
        Result<IoRequest<'a>, ClockError>)
        requires
            old(run).io.wf(),
        ensures
            final(run).io.wf(),
            final(self).config == old(self).config,
            final(self).monitored == old(self).monitored,
            final(run).bmca == old(run).bmca,
            final(run).tx_timestamp == old(run).tx_timestamp,
            final(run).io.is_handle_of(
                old(run).io,
                (old(self).packet_id.next_id(), final(self).packet_id.next_id()),
                now,
                action,
                old(run).bmca,
                old(self).monitored,
                r,
            ),
    {
        run.io.handle_at(now, action, run.bmca, &mut self.packet_id, self.monitored)
    }

    /// Handles an action of the protocol at the moment of the call, up to what the
    /// caller has to send or report.
    pub fn handle<'a>(&mut self, run: &mut Run, action: PortAction<'a>) -> (r: Result<
        IoRequest<'a>,
        ClockError,
    >)
        requires
            old(run).io.wf(),
        ensures
            final(run).io.wf(),
            final(self).config == old(self).config,
            final(self).monitored == old(self).monitored,
            final(run).bmca == old(run).bmca,
            final(run).tx_timestamp == old(run).tx_timestamp,
            exists|now: Instant|
                read_from_clock(now) && #[trigger]
                final(run).io.is_handle_of(
                    old(run).io,
                    (old(self).packet_id.next_id(), final(self).packet_id.next_id()),
                    now,
                    action,
                    old(run).bmca,
                    old(self).monitored,
                    r,
                ),
    {
        let now = read_clock();
        self.handle_at(run, now, action)
    }

    /// What follows a run of the best master clock algorithm that took the port from
    /// one state to another: a clock that does not follow a master is in holdover.
    pub fn bmca_finished(&self, old_state: PortState, new_state: PortState) -> (r: BmcaReport)
        ensures
            r.notify == if new_state is Slave {
                None
            } else {
                told(self.monitored, MonitorUpdate::Holdover)
            },
            r.state_change is Some <==> old_state != new_state,
            r.state_change matches Some((before, after)) ==> before@ == spec_state_name(old_state)
                && after@ == spec_state_name(new_state),
    {
        let notify = if new_state != PortState::Slave && self.monitored {
            Some(MonitorUpdate::Holdover)
        } else {
            None
        };
        let state_change = if old_state != new_state {
            Some((state_name(old_state), state_name(new_state)))
        } else {
            None
        };
        BmcaReport { notify, state_change }
    }
}

impl Run {
    /// What deciding at `now` gives while the best master clock algorithm is not due,
    /// with `waiting` the packets that still wait. A transmit timestamp that has come
    /// in goes first, to the packet that it belongs to; then the first timer that is
    /// due; and only if there is none, a packet from the sockets.
    pub open spec fn is_service_of(
        self,
        before: Self,
        waiting: Seq<Option<PendingTx>>,
        now: Instant,
        port_state: PortState,
        monitored: bool,
        decision: Decision,
    ) -> bool {
        match before.tx_timestamp {
            Some(tx) => {
                &&& self.io.timers == before.io.timers
                &&& if is_pending(waiting, tx.id) {
                    &&& self.io.pending_tx.slots@ == taken(waiting, tx.id)
                    &&& decision == Decision::SendTimestamp {
                        context: pending_with_id(waiting, tx.id).context,
                        time: spec_time_from(tx.timestamp),
                    }
                } else {
                    &&& self.io.pending_tx.slots@ == waiting
                    &&& decision == Decision::Nothing
                }
            },
            None => {
                let due = before.io.timers.first_due(now);
                &&& self.io.pending_tx.slots@ == waiting
                &&& self.io.timers.is_take_due_of(before.io.timers, now, due)
                &&& decision == match due {
                    Some(timer) => Decision::Timer {
                        timer,
                        notify: if timer is FilterUpdate {
                            told(monitored, MonitorUpdate::Holdover)
                        } else {
                            None
                        },
                    },
                    None => Decision::Receive { receive_delay_requests: port_state is Master },
                }
            },
        }
    }

    /// What deciding at `now` gives. The best master clock algorithm goes before all
    /// else, and leaves all else as it is. Otherwise packets that have waited too
    /// long are dropped, and one thing that is due is picked. An error changes
    /// nothing.
    pub open spec fn is_turn_of(
        self,
        before: Self,
        now: Instant,
        port_state: PortState,
        bmca_interval: CoreDuration,
        monitored: bool,
        r: Result<Turn, ClockError>,
    ) -> bool {
        let slots = before.io.pending_tx.slots@;
        let timeout = before.io.pending_tx.timeout;
        if now.ticks >= before.bmca.ticks {
            match deadline_after(now, bmca_interval) {
                Ok(bmca) => {
                    &&& self == (Run { bmca, ..before })
                    &&& r matches Ok(turn) && turn.decision == Decision::RunBmca
                        && turn.expired@.len() == 0
                },
                Err(error) => self == before && r == Err::<Turn, ClockError>(error),
            }
        } else if !started_by(slots, now) {
            self == before && r == Err::<Turn, ClockError>(ClockError::Backwards)
        } else {
            &&& self.bmca == before.bmca
            &&& self.tx_timestamp is None
            &&& self.io.joined == before.io.joined
            &&& self.io.pending_tx.timeout == timeout
            &&& r matches Ok(turn) && turn.expired@ == expired_ids(slots, timeout, now)
                && self.is_service_of(
                before,
                unexpired(slots, timeout, now),
                now,
                port_state,
                monitored,
                turn.decision,
            )
        }
    }

    /// Decides at the clock reading `now` what is due, for a port in `port_state`.
    pub fn decide_at(
        &mut self,
        now: Instant,
        port_state: PortState,
        bmca_interval: CoreDuration,
        monitored: bool,
    ) -> (r: Result<Turn, ClockError>)
        requires
            old(self).io.wf(),
        ensures
            final(self).io.wf(),
            final(self).is_turn_of(*old(self), now, port_state, bmca_interval, monitored, r),
    {
        if now.ticks >= self.bmca.ticks {
            return match deadline_from(now, bmca_interval) {
                Ok(bmca) => {
                    self.bmca = bmca;
                    Ok(Turn { decision: Decision::RunBmca, expired: Vec::new() })
                },
                Err(error) => Err(error),
            };
        }
        proof {
            lemma_expiry_fits(self.io, now);
        }
        let expired = match self.io.pending_tx.expire_at(now) {
            Ok(expired) => expired,
            Err(error) => {
                return Err(error);
            },
        };
        let decision = match self.tx_timestamp.take() {
            Some(tx) => {
                proof {
                    lemma_take_fits(self.io, tx.id);
                }
                match self.io.pending_tx.take(tx.id) {
                    Some(context) => Decision::SendTimestamp {
                        context,
                        time: time_from(tx.timestamp),
                    },
                    None => Decision::Nothing,
                }
            },
            None => match self.io.timers.take_due_at(now) {
                Some(timer) => {
                    let notify = if timer == StatimeTimer::FilterUpdate && monitored {
                        Some(MonitorUpdate::Holdover)
                    } else {
                        None
                    };
                    Decision::Timer { timer, notify }
                },
                None => Decision::Receive {
                    receive_delay_requests: port_state == PortState::Master,
                },
            },
        };
        Ok(Turn { decision, expired })
    }

    /// Until when to wait: until the best master clock algorithm, a timer or the end
    /// of a wait for a transmit timestamp is due.
    pub fn next_deadline(&self) -> (r: Instant)
        requires
            self.io.wf(),
        ensures
            r == self.io.spec_next_deadline(self.bmca),
    {
        self.io.next_deadline(self.bmca)
    }

    /// What follows once the actions of a decision are handled: a run of the best
    /// master clock algorithm is followed by the next decision, anything else by a
    /// wait.
    pub fn afterwards(&self, ran_bmca: bool) -> (r: Afterwards)
        requires
            self.io.wf(),
        ensures
            r == if ran_bmca {
                Afterwards::DecideAgain
            } else {
                Afterwards::WaitUntil(self.io.spec_next_deadline(self.bmca))
            },
    {
        if ran_bmca {
            Afterwards::DecideAgain
        } else {
            Afterwards::WaitUntil(self.next_deadline())
        }
    }

    /// Takes note of what ended a wait: a transmit timestamp is kept for the next
    /// decision.
    pub fn woken(&mut self, outcome: WaitOutcome)
        ensures
            final(self).io == old(self).io,
            final(self).bmca == old(self).bmca,
            final(self).tx_timestamp == match outcome {
                WaitOutcome::TxTimestamp(timestamp) => Some(timestamp),
                _ => None,
            },
    {
        self.tx_timestamp = match outcome {
            WaitOutcome::TxTimestamp(timestamp) => Some(timestamp),
            _ => None,
        };
    }
}

/// Dropping overdue packets keeps the ends of the other waits representable.
proof fn lemma_expiry_fits(io: PortIo, now: Instant)
    requires
        io.wf(),
    ensures
        crate::pending::timeouts_fit(
            unexpired(io.pending_tx.slots@, io.pending_tx.timeout, now),
            io.pending_tx.timeout,
        ),
{
    let slots = io.pending_tx.slots@;
    let pending = PendingTx { started: now, ..pending_with_id(slots, 0) };
    timeouts_stay_representable(slots, io.pending_tx.timeout, now, pending, 0);
}

/// Taking a packet out keeps the ends of the other waits representable.
proof fn lemma_take_fits(io: PortIo, packet_id: u32)
    requires
        io.wf(),
    ensures
        is_pending(io.pending_tx.slots@, packet_id) ==> crate::pending::timeouts_fit(
            taken(io.pending_tx.slots@, packet_id),
            io.pending_tx.timeout,
        ),
{
    let slots = io.pending_tx.slots@;
    let pending = pending_with_id(slots, packet_id);
    timeouts_stay_representable(slots, io.pending_tx.timeout, pending.started, pending, packet_id);
}

/// Running the best master clock algorithm loses nothing: a transmit timestamp that
/// has come in, the running timers and the waiting packets are still there for the
/// decision after it.
pub proof fn bmca_keeps_what_is_due(
    before: Run,
    after: Run,
    now: Instant,
    port_state: PortState,
    bmca_interval: CoreDuration,
    monitored: bool,
    turn: Turn,
)
    requires
        after.is_turn_of(before, now, port_state, bmca_interval, monitored, Ok(turn)),
        turn.decision is RunBmca,
    ensures
        now.ticks >= before.bmca.ticks,
        after.tx_timestamp == before.tx_timestamp,
        after.io == before.io,
        after.bmca.ticks >= now.ticks,
{
}

/// A wait ends when there is work, and not before: a decision without a transmit
/// timestamp finds only the sockets to ask, and no overdue packet, exactly if the
/// deadline of the wait has not been reached.
pub proof fn deadline_is_when_work_is_due(
    before: Run,
    after: Run,
    now: Instant,
    port_state: PortState,
    bmca_interval: CoreDuration,
    monitored: bool,
    turn: Turn,
)
    requires
        before.io.wf(),
        before.tx_timestamp is None,
        after.is_turn_of(before, now, port_state, bmca_interval, monitored, Ok(turn)),
    ensures
        now.ticks < before.io.spec_next_deadline(before.bmca).ticks <==> turn.decision is Receive
            && turn.expired@.len() == 0,
{
    let next = before.io.spec_next_deadline(before.bmca);
    let slots = before.io.pending_tx.slots@;
    let timeout = before.io.pending_tx.timeout;
    next_deadline_is_the_earliest(before.io, before.bmca);
    if turn.expired@.len() > 0 {
        let id = expired_ids(slots, timeout, now)[0];
        assert(expired_ids(slots, timeout, now).contains(id));
        expired_ids_are_those_of_the_overdue(slots, timeout, now, id);
    }
    if now.ticks >= next.ticks && next != before.bmca {
        if exists|timer: StatimeTimer| #[trigger] before.io.timers.deadline(timer) == Some(next) {
            let timer = choose|timer: StatimeTimer| #[trigger]
                before.io.timers.deadline(timer) == Some(next);
            assert(before.io.timers.is_due(timer, now));
        } else {
            let i = choose|i: int|
                0 <= i < slots.len() && (#[trigger] slots[i] matches Some(pending)
                    && pending.started.ticks + timeout.ticks == next.ticks);
            assert(is_expired(slots[i], timeout, now));
            expired_ids_are_those_of_the_overdue(slots, timeout, now, slots[i]->0.packet_id);
        }
    }
}

/// A wait does not end at once: after a decision at `now` that found nothing due but
/// to ask the sockets, the next deadline lies after `now`.
pub proof fn wait_lasts_beyond_the_decision(
    before: Run,
    after: Run,
    now: Instant,
    port_state: PortState,
    bmca_interval: CoreDuration,
    monitored: bool,
    turn: Turn,
)
    requires
        before.io.wf(),
        after.is_turn_of(before, now, port_state, bmca_interval, monitored, Ok(turn)),
        turn.decision is Receive,
    ensures
        now.ticks < after.io.spec_next_deadline(after.bmca).ticks,
{
    let next = after.io.spec_next_deadline(after.bmca);
    let slots = before.io.pending_tx.slots@;
    let timeout = before.io.pending_tx.timeout;
    lemma_expiry_fits(before.io, now);
    next_deadline_is_the_earliest(after.io, after.bmca);
    if next != after.bmca {
        if exists|timer: StatimeTimer| #[trigger] after.io.timers.deadline(timer) == Some(next) {
            let timer = choose|timer: StatimeTimer| #[trigger]
                after.io.timers.deadline(timer) == Some(next);
            assert(!before.io.timers.is_due(timer, now));
        } else {
            let waiting = after.io.pending_tx.slots@;
            let i = choose|i: int|
                0 <= i < waiting.len() && (#[trigger] waiting[i] matches Some(pending)
                    && pending.started.ticks + timeout.ticks == next.ticks);
            assert(!is_expired(slots[i], timeout, now));
        }
    }
}

/// A timer is reported only when it is due, once, and before any timer that comes
/// after it in order; the other timers keep running.
pub proof fn timers_are_served_in_order(
    before: Run,
    after: Run,
    now: Instant,
    port_state: PortState,
    bmca_interval: CoreDuration,
    monitored: bool,
    turn: Turn,
    other: StatimeTimer,
)
    requires
        after.is_turn_of(before, now, port_state, bmca_interval, monitored, Ok(turn)),
        turn.decision is Timer,
        other != turn.decision->timer,
    ensures
        before.io.timers.is_due(turn.decision->timer, now),
        after.io.timers.deadline(turn.decision->timer) is None,
        after.io.timers.deadline(other) == before.io.timers.deadline(other),
        before.io.timers.is_due(other, now) ==> turn.decision->timer.slot() < other.slot(),
{
}

/// A waiting packet gets its timestamp: one that comes in before the wait is over
/// goes to the protocol with the context of the packet that waits under its
/// identifier, unless the best master clock algorithm goes first.
pub proof fn waiting_packet_gets_its_timestamp(
    before: Run,
    after: Run,
    now: Instant,
    port_state: PortState,
    bmca_interval: CoreDuration,
    monitored: bool,
    turn: Turn,
    tx: TxTimestamp,
)
    requires
        before.tx_timestamp == Some(tx),
        is_pending(before.io.pending_tx.slots@, tx.id),
        !is_expired(
            Some(pending_with_id(before.io.pending_tx.slots@, tx.id)),
            before.io.pending_tx.timeout,
            now,
        ),
        now.ticks < before.bmca.ticks,
        after.is_turn_of(before, now, port_state, bmca_interval, monitored, Ok(turn)),
    ensures
        turn.decision == (Decision::SendTimestamp {
            context: pending_with_id(before.io.pending_tx.slots@, tx.id).context,
            time: spec_time_from(tx.timestamp),
        }),
{
    expiry_keeps_a_packet_in_time(
        before.io.pending_tx.slots@,
        before.io.pending_tx.timeout,
        now,
        tx.id,
    );
}

/// A packet goes on waiting, with its context, through decisions before its wait is
/// over that do not concern its own timestamp.
pub proof fn packets_wait_through_other_decisions(
    before: Run,
    after: Run,
    now: Instant,
    port_state: PortState,
    bmca_interval: CoreDuration,
    monitored: bool,
    r: Result<Turn, ClockError>,
    packet_id: u32,
)
    requires
        is_pending(before.io.pending_tx.slots@, packet_id),
        !is_expired(
            Some(pending_with_id(before.io.pending_tx.slots@, packet_id)),
            before.io.pending_tx.timeout,
            now,
        ),
        before.tx_timestamp matches Some(tx) ==> tx.id != packet_id,
        after.is_turn_of(before, now, port_state, bmca_interval, monitored, r),
    ensures
        is_pending(after.io.pending_tx.slots@, packet_id),
        pending_with_id(after.io.pending_tx.slots@, packet_id) == pending_with_id(
            before.io.pending_tx.slots@,
            packet_id,
        ),
{
    let slots = before.io.pending_tx.slots@;
    let timeout = before.io.pending_tx.timeout;
    expiry_keeps_a_packet_in_time(slots, timeout, now, packet_id);
    if let Some(tx) = before.tx_timestamp {
        let waiting = unexpired(slots, timeout, now);
        if is_pending(waiting, tx.id) {
            take_keeps_the_others(waiting, tx.id, packet_id);
        }
    }
}

/// A transmit timestamp comes back to the protocol with its packet: an event packet
/// was queued under a fresh identifier and sent, and its timestamp came in before the
/// wait was over. The next decision gives the protocol that packet's context and that
/// moment, unless the best master clock algorithm goes first.
pub proof fn timestamp_returns_with_its_context<'a>(
    queued: (PortIo, PortIo, PortIo),
    ids: (u32, u32),
    moments: (Instant, Instant, Instant),
    packet: (TimestampContext, &'a [u8], bool),
    deadline: Instant,
    request: IoRequest<'a>,
    before: Run,
    after: Run,
    timestamp: Timestamp,
    port_state: PortState,
    bmca_interval: CoreDuration,
    monitored: bool,
    turn: Turn,
)
    requires
        queued.1.is_event_of(queued.0, ids, moments.0, packet, deadline, Ok(request)),
        request is SendEvent,
        !is_pending(queued.0.pending_tx.slots@, ids.0),
        queued.2.is_event_sent_of(queued.1, moments.1, ids.0, true, Ok(())),
        before.io == queued.2,
        before.tx_timestamp == Some(TxTimestamp { id: ids.0, timestamp }),
        moments.2.ticks < before.bmca.ticks,
        moments.2.ticks - moments.1.ticks < before.io.pending_tx.timeout.ticks,
        after.is_turn_of(before, moments.2, port_state, bmca_interval, monitored, Ok(turn)),
    ensures
        turn.decision == (Decision::SendTimestamp {
            context: packet.0,
            time: spec_time_from(timestamp),
        }),
{
    let pending = PendingTx { context: packet.0, packet_id: ids.0, started: moments.0 };
    take_gives_back_what_was_pushed(queued.0.pending_tx.slots@, pending);
    restart_keeps_the_packet(
        queued.1.pending_tx.slots@,
        ids.0,
        moments.1,
        succ_id(ids.0),
    );
    waiting_packet_gets_its_timestamp(
        before,
        after,
        moments.2,
        port_state,
        bmca_interval,
        monitored,
        turn,
        TxTimestamp { id: ids.0, timestamp },
    );
}

/// A transmit timestamp for which no packet waits is dropped and disturbs nothing.
pub proof fn stray_timestamp_is_dropped(
    before: Run,
    after: Run,
    now: Instant,
    port_state: PortState,
    bmca_interval: CoreDuration,
    monitored: bool,
    turn: Turn,
)
    requires
        before.tx_timestamp is Some,
        after.is_turn_of(before, now, port_state, bmca_interval, monitored, Ok(turn)),
        now.ticks < before.bmca.ticks,
        !is_pending(
            unexpired(before.io.pending_tx.slots@, before.io.pending_tx.timeout, now),
            before.tx_timestamp->0.id,
        ),
    ensures
        turn.decision is Nothing,
        after.tx_timestamp is None,
        after.io.timers == before.io.timers,
        after.io.pending_tx.slots@ == unexpired(
            before.io.pending_tx.slots@,
            before.io.pending_tx.timeout,
            now,
        ),
{
}

/// Decisions keep the identifiers of waiting packets distinct.
pub proof fn turn_keeps_ids_distinct(
    before: Run,
    after: Run,
    now: Instant,
    port_state: PortState,
    bmca_interval: CoreDuration,
    monitored: bool,
    r: Result<Turn, ClockError>,
)
    requires
        distinct_ids(before.io.pending_tx.slots@),
        after.is_turn_of(before, now, port_state, bmca_interval, monitored, r),
    ensures
        distinct_ids(after.io.pending_tx.slots@),
{
    let slots = before.io.pending_tx.slots@;
    let timeout = before.io.pending_tx.timeout;
    let waiting = unexpired(slots, timeout, now);
    expiry_and_restart_keep_ids_distinct(slots, timeout, 0, now);
    if let Some(tx) = before.tx_timestamp {
        if is_pending(waiting, tx.id) {
            taken_packet_is_gone(waiting, tx.id);
        }
    }
}

/// Delay requests are asked for by a master only, and are the only event messages
/// whose reception depends on the port's state.
pub proof fn delay_requests_are_for_a_master(
    before: Run,
    after: Run,
    now: Instant,
    port_state: PortState,
    bmca_interval: CoreDuration,
    monitored: bool,
    turn: Turn,
    packet: Seq<u8>,
    meta: PacketMeta,
)
    requires
        after.is_turn_of(before, now, port_state, bmca_interval, monitored, Ok(turn)),
        turn.decision is Receive,
    ensures
        spec_ptp_message_type(packet) == Some(MSG_DELAY_REQ) && port_state !is Master
            ==> spec_rx_event_timestamp(
            packet,
            meta,
            turn.decision->receive_delay_requests,
        ) is None,
        spec_ptp_message_type(packet) == Some(MSG_DELAY_REQ) && port_state is Master
            ==> spec_rx_event_timestamp(packet, meta, turn.decision->receive_delay_requests)
            == meta.timestamp,
        spec_ptp_message_type(packet) != Some(MSG_DELAY_REQ) ==> spec_rx_event_timestamp(
            packet,
            meta,
            true,
        ) == spec_rx_event_timestamp(packet, meta, false),
{
}

/// A new runner has its configuration, hands out identifiers from one on and has no
/// monitor.
pub proof fn new_runner_starts_at_id_one(config: Config, r: Runner)
    requires
        call_ensures(Runner::new, (config,), r),
    ensures
        r.config == config,
        r.packet_id.next_id() == 1,
        !r.monitored,
{
}

/// Giving a runner a monitor changes nothing else of it.
pub proof fn monitor_is_all_that_is_added(runner: Runner, r: Runner)
    requires
        call_ensures(Runner::with_monitor, (runner,), r),
    ensures
        r.monitored,
        r.config == runner.config,
        r.packet_id.next_id() == runner.packet_id.next_id(),
{
}

/// Starting the service at a clock reading is what [`Runner::is_start`] says.
pub proof fn service_starts_at_a_reading(
    runner: Runner,
    now: Instant,
    setup: Setup,
    bmca_interval: CoreDuration,
    r: Result<Run, ClockError>,
)
    requires
        call_ensures(Runner::start_at, (&runner, now, setup, bmca_interval), r),
    ensures
        runner.is_start(now, setup, bmca_interval, r),
{
}

/// Starting the service at the moment of the call does so at a reading of the system
/// clock.
pub proof fn service_starts_now(
    runner: Runner,
    setup: Setup,
    bmca_interval: CoreDuration,
    r: Result<Run, ClockError>,
)
    requires
        call_ensures(Runner::start, (&runner, setup, bmca_interval), r),
    ensures
        exists|now: Instant|
            read_from_clock(now) && #[trigger] runner.is_start(now, setup, bmca_interval, r),
{
}

/// A service starts with no timer running, no packet waiting and no transmit timestamp,
/// with the groups that the setup joined and the configured timeout. The best master
/// clock algorithm is due a whole interval after the start, and less than a tick more.
/// The start fails only if no instant is late enough.
pub proof fn service_starts_idle(
    runner: Runner,
    now: Instant,
    setup: Setup,
    bmca_interval: CoreDuration,
    r: Result<Run, ClockError>,
    i: int,
)
    requires
        runner.is_start(now, setup, bmca_interval, r),
    ensures
        ({
            let nanos = bmca_interval.secs * 1_000_000_000 + bmca_interval.nanos;
            let length = if nanos <= 0xffff_ffff_ffff_ffff {
                nanos
            } else {
                0xffff_ffff_ffff_ffff
            };
            match r {
                Ok(run) => {
                    &&& length <= (run.bmca.ticks - now.ticks) * 1_000 < length + 1_000
                    &&& run.tx_timestamp is None
                    &&& run.io.joined.primary == setup.joined.primary
                    &&& run.io.joined.link_local == setup.joined.link_local
                    &&& run.io.pending_tx.timeout == runner.config.tx_timestamp_timeout
                    &&& 0 <= i < 5 ==> run.io.timers.deadlines@[i] is None
                    &&& 0 <= i < 4 ==> run.io.pending_tx.slots@[i] is None
                },
                Err(error) => error is Overflow && (0xffff_ffff_ffff_ffff - now.ticks) * 1_000
                    < length,
            }
        }),
{
}

/// Deciding at a clock reading is what [`Run::is_turn_of`] says.
pub proof fn decisions_are_made_at_a_reading(
    run: &mut Run,
    now: Instant,
    port_state: PortState,
    bmca_interval: CoreDuration,
    monitored: bool,
    r: Result<Turn, ClockError>,
)
    requires
        call_ensures(Run::decide_at, (run, now, port_state, bmca_interval, monitored), r),
    ensures
        final(run).io.wf(),
        final(run).is_turn_of(*old(run), now, port_state, bmca_interval, monitored, r),
{
}

/// Deciding at the moment of the call does so at a reading of the system clock.
pub proof fn decisions_are_made_now(
    runner: Runner,
    run: &mut Run,
    port_state: PortState,
    bmca_interval: CoreDuration,
    r: Result<Turn, ClockError>,
)
    requires
        call_ensures(Runner::decide, (&runner, run, port_state, bmca_interval), r),
    ensures
        final(run).io.wf(),
        exists|now: Instant|
            read_from_clock(now) && #[trigger] final(run).is_turn_of(
                *old(run),
                now,
                port_state,
                bmca_interval,
                runner.monitored,
                r,
            ),
{
}

/// The best master clock algorithm is run exactly when its deadline has been reached,
/// and is then due again a whole interval after `now`, and less than a tick more; until
/// its deadline that stays as it is. If no instant is late enough for the next deadline,
/// the decision fails and changes nothing.
pub proof fn bmca_is_due_an_interval_later(
    before: Run,
    after: Run,
    now: Instant,
    port_state: PortState,
    bmca_interval: CoreDuration,
    monitored: bool,
    r: Result<Turn, ClockError>,
)
    requires
        after.is_turn_of(before, now, port_state, bmca_interval, monitored, r),
    ensures
        r matches Ok(turn) ==> (turn.decision is RunBmca <==> before.bmca.ticks <= now.ticks),
        now.ticks < before.bmca.ticks ==> after.bmca == before.bmca,
        before.bmca.ticks <= now.ticks ==> {
            let nanos = bmca_interval.secs * 1_000_000_000 + bmca_interval.nanos;
            let length = if nanos <= 0xffff_ffff_ffff_ffff {
                nanos
            } else {
                0xffff_ffff_ffff_ffff
            };
            &&& after.io == before.io
            &&& after.tx_timestamp == before.tx_timestamp
            &&& match r {
                Ok(turn) => length <= (after.bmca.ticks - now.ticks) * 1_000 < length + 1_000
                    && turn.expired@.len() == 0,
                Err(error) => error is Overflow && (0xffff_ffff_ffff_ffff - now.ticks) * 1_000
                    < length && after.bmca == before.bmca,
            }
        },
{
}

/// The best master clock algorithm is not run twice within its interval: a decision less
/// than the interval after one that ran it does something else.
pub proof fn bmca_lets_the_rest_be_served(
    before: Run,
    between: Run,
    after: Run,
    moments: (Instant, Instant),
    port_states: (PortState, PortState),
    bmca_intervals: (CoreDuration, CoreDuration),
    monitored: bool,
    turns: (Turn, Turn),
)
    requires
        between.is_turn_of(
            before,
            moments.0,
            port_states.0,
            bmca_intervals.0,
            monitored,
            Ok(turns.0),
        ),
        after.is_turn_of(
            between,
            moments.1,
            port_states.1,
            bmca_intervals.1,
            monitored,
            Ok(turns.1),
        ),
        turns.0.decision is RunBmca,
        (moments.1.ticks - moments.0.ticks) * 1_000 < bmca_intervals.0.secs * 1_000_000_000
            + bmca_intervals.0.nanos,
        (moments.1.ticks - moments.0.ticks) * 1_000 < 0xffff_ffff_ffff_ffff,
    ensures
        turns.1.decision !is RunBmca,
{
}

/// While the best master clock algorithm is not due, a decision fails exactly if the
/// clock reads earlier than the start of a wait, and then changes nothing. It keeps the
/// groups and the timeout, and uses up a transmit timestamp that has come in.
pub proof fn decision_fails_only_if_the_clock_ran_backwards(
    before: Run,
    after: Run,
    now: Instant,
    port_state: PortState,
    bmca_interval: CoreDuration,
    monitored: bool,
    r: Result<Turn, ClockError>,
)
    requires
        after.is_turn_of(before, now, port_state, bmca_interval, monitored, r),
        now.ticks < before.bmca.ticks,
    ensures
        r is Err <==> exists|i: int|
            0 <= i < 4 && #[trigger] before.io.pending_tx.slots@[i] is Some && now.ticks
                < before.io.pending_tx.slots@[i]->0.started.ticks,
        r matches Err(error) ==> error is Backwards && after == before,
        r is Ok ==> after.tx_timestamp is None,
        after.io.joined == before.io.joined,
        after.io.pending_tx.timeout == before.io.pending_tx.timeout,
{
}

/// A decision drops the packets that have waited for the whole timeout, and reports their
/// identifiers in the order of their slots.
pub proof fn decision_reports_overdue_packets(
    before: Run,
    after: Run,
    now: Instant,
    port_state: PortState,
    bmca_interval: CoreDuration,
    monitored: bool,
    turn: Turn,
    slot: int,
)
    requires
        after.is_turn_of(before, now, port_state, bmca_interval, monitored, Ok(turn)),
        now.ticks < before.bmca.ticks,
        0 <= slot < 4,
    ensures
        ({
            let timeout = before.io.pending_tx.timeout.ticks;
            let over = |i: int|
                before.io.pending_tx.slots@[i] is Some
                    && before.io.pending_tx.slots@[i]->0.started.ticks + timeout <= now.ticks;
            let id = |i: int|
                if over(i) {
                    seq![before.io.pending_tx.slots@[i]->0.packet_id]
                } else {
                    Seq::empty()
                };
            &&& turn.expired@ == id(0) + id(1) + id(2) + id(3)
            &&& over(slot) ==> after.io.pending_tx.slots@[slot] is None
        }),
{
    let slots = before.io.pending_tx.slots@;
    let timeout = before.io.pending_tx.timeout;
    reported_ids_are_in_slot_order(slots, timeout, now);
    let waiting = unexpired(slots, timeout, now);
    if let Some(tx) = before.tx_timestamp {
        found_packet_is_the_first(waiting, tx.id, slot);
    }
}

/// A transmit timestamp that has come in goes to the protocol with the context of the
/// first packet that still waits under its identifier, and with its own moment, of which
/// a quarter nanosecond is 2^30 units. That packet waits no longer; the others do, and
/// the timers run on. A timestamp for which no packet waits leads to nothing.
pub proof fn timestamp_goes_to_the_packet_that_waits(
    before: Run,
    after: Run,
    now: Instant,
    port_state: PortState,
    bmca_interval: CoreDuration,
    monitored: bool,
    turn: Turn,
    tx: TxTimestamp,
    slot: int,
)
    requires
        after.is_turn_of(before, now, port_state, bmca_interval, monitored, Ok(turn)),
        now.ticks < before.bmca.ticks,
        before.tx_timestamp == Some(tx),
        0 <= slot < 4,
    ensures
        after.io.timers == before.io.timers,
        ({
            let slots = before.io.pending_tx.slots@;
            let timeout = before.io.pending_tx.timeout.ticks;
            let candidate = |i: int|
                slots[i] is Some && slots[i]->0.packet_id == tx.id && now.ticks
                    < slots[i]->0.started.ticks + timeout;
            let none_before = |i: int|
                (0 < i ==> !candidate(0)) && (1 < i ==> !candidate(1)) && (2 < i ==> !candidate(2))
                    && (3 < i ==> !candidate(3));
            let found = candidate(slot) && none_before(slot);
            &&& found ==> {
                &&& turn.decision is SendTimestamp
                &&& turn.decision->context == slots[slot]->0.context
                &&& turn.decision->time.bits == 0x4000_0000 * (tx.timestamp.seconds * 4_000_000_000
                    + tx.timestamp.quarter_nanos)
                &&& after.io.pending_tx.slots@[slot] is None
            }
            &&& none_before(4) ==> turn.decision is Nothing
            &&& !found && slots[slot] is Some && now.ticks < slots[slot]->0.started.ticks + timeout
                ==> after.io.pending_tx.slots@[slot] == slots[slot]
            &&& slots[slot] is None ==> after.io.pending_tx.slots@[slot] is None
        }),
{
    let slots = before.io.pending_tx.slots@;
    let timeout = before.io.pending_tx.timeout;
    let waiting = unexpired(slots, timeout, now);
    found_packet_is_the_first(waiting, tx.id, 0);
    found_packet_is_the_first(waiting, tx.id, 1);
    found_packet_is_the_first(waiting, tx.id, 2);
    found_packet_is_the_first(waiting, tx.id, 3);
    found_packet_is_the_first(waiting, tx.id, slot);
    assert(waiting.len() == 4);
    if first_with_id(waiting, tx.id, 0) < 4 {
        pending_means_a_slot_holds_it(waiting, tx.id);
        assert(is_pending(waiting, tx.id));
    }
}

/// Without a transmit timestamp, the first timer in order that is due is served and
/// stopped, and the others run on; a monitor, if there is one, is told of holdover
/// exactly if it is the timer of the filter. If none is due, the sockets are asked, for
/// delay requests too exactly if the port is master. Packets whose wait is not over go on
/// waiting.
pub proof fn due_timer_goes_before_the_sockets(
    before: Run,
    after: Run,
    now: Instant,
    port_state: PortState,
    bmca_interval: CoreDuration,
    monitored: bool,
    turn: Turn,
    i: int,
)
    requires
        after.is_turn_of(before, now, port_state, bmca_interval, monitored, Ok(turn)),
        now.ticks < before.bmca.ticks,
        before.tx_timestamp is None,
        0 <= i < 5,
    ensures
        turn.decision is Timer || turn.decision is Receive,
        ({
            let due = |j: int|
                before.io.timers.deadlines@[j] is Some && before.io.timers.deadlines@[j]->0.ticks
                    <= now.ticks;
            let timer: int = if turn.decision->timer is Announce {
                0
            } else if turn.decision->timer is Sync {
                1
            } else if turn.decision->timer is DelayRequest {
                2
            } else if turn.decision->timer is AnnounceReceipt {
                3
            } else {
                4
            };
            &&& turn.decision is Timer ==> {
                &&& due(timer)
                &&& i < timer ==> !due(i)
                &&& after.io.timers.deadlines@[timer] is None
                &&& i != timer ==> after.io.timers.deadlines@[i] == before.io.timers.deadlines@[i]
                &&& turn.decision->notify is Some <==> monitored && timer == 4
                &&& turn.decision->notify matches Some(update) ==> update is Holdover
            }
            &&& turn.decision is Receive ==> {
                &&& !due(i)
                &&& after.io.timers.deadlines@[i] == before.io.timers.deadlines@[i]
                &&& turn.decision->receive_delay_requests <==> port_state is Master
            }
        }),
        i < 4 ==> {
            let was = before.io.pending_tx.slots@[i];
            was is None || now.ticks < was->0.started.ticks + before.io.pending_tx.timeout.ticks
                ==> after.io.pending_tx.slots@[i] == was
        },
{
    assert(before.io.timers.deadlines@[i] == before.io.timers.deadline(StatimeTimer::at_slot(i)));
}

/// Handling an action leaves the deadline of the best master clock algorithm, a transmit
/// timestamp that has come in and the configuration alone; the sends that it leads to are
/// given up by that deadline. [`PortIo::is_handle_of`] says what else it does.
pub proof fn actions_of_a_run_are_handled_at_a_reading<'a>(
    runner: &mut Runner,
    run: &mut Run,
    now: Instant,
    action: PortAction<'a>,
    r: Result<IoRequest<'a>, ClockError>,
)
    requires
        call_ensures(Runner::handle_at, (runner, run, now, action), r),
    ensures
        final(run).io.wf(),
        final(run).bmca == old(run).bmca,
        final(run).tx_timestamp == old(run).tx_timestamp,
        final(runner).config == old(runner).config,
        final(runner).monitored == old(runner).monitored,
        final(run).io.is_handle_of(
            old(run).io,
            (old(runner).packet_id.next_id(), final(runner).packet_id.next_id()),
            now,
            action,
            old(run).bmca,
            old(runner).monitored,
            r,
        ),
{
}

/// Handling an action at the moment of the call does so at a reading of the system
/// clock.
pub proof fn actions_of_a_run_are_handled_now<'a>(
    runner: &mut Runner,
    run: &mut Run,
    action: PortAction<'a>,
    r: Result<IoRequest<'a>, ClockError>,
)
    requires
        call_ensures(Runner::handle, (runner, run, action), r),
    ensures
        final(run).io.wf(),
        final(run).bmca == old(run).bmca,
        final(run).tx_timestamp == old(run).tx_timestamp,
        final(runner).config == old(runner).config,
        final(runner).monitored == old(runner).monitored,
        exists|now: Instant|
            read_from_clock(now) && #[trigger] final(run).io.is_handle_of(
                old(run).io,
                (old(runner).packet_id.next_id(), final(runner).packet_id.next_id()),
                now,
                action,
                old(run).bmca,
                old(runner).monitored,
                r,
            ),
{
}

/// A monitor, if there is one, is told of holdover after every run of the best master
/// clock algorithm that does not make the port slave. A change of state is reported,
/// with the names of both states, exactly if there was one.
pub proof fn bmca_is_reported(
    runner: Runner,
    old_state: PortState,
    new_state: PortState,
    r: BmcaReport,
    names: (&'static str, &'static str),
)
    requires
        call_ensures(Runner::bmca_finished, (&runner, old_state, new_state), r),
        call_ensures(state_name, (old_state,), names.0),
        call_ensures(state_name, (new_state,), names.1),
    ensures
        r.notify is Some <==> runner.monitored && new_state != PortState::Slave,
        r.notify matches Some(update) ==> update is Holdover,
        r.state_change is Some <==> old_state != new_state,
        r.state_change matches Some(change) ==> change.0@ == names.0@ && change.1@ == names.1@,
{
}

/// A wait lasts until the first of what is due next: the best master clock algorithm, a
/// timer or the end of a wait for a transmit timestamp. After the best master clock
/// algorithm there is no wait.
pub proof fn wait_lasts_until_work_is_due(
    run: Run,
    ran_bmca: bool,
    afterwards: Afterwards,
    next: Instant,
    i: int,
)
    requires
        run.io.wf(),
        call_ensures(Run::afterwards, (&run, ran_bmca), afterwards),
        call_ensures(Run::next_deadline, (&run,), next),
    ensures
        ran_bmca ==> afterwards is DecideAgain,
        !ran_bmca ==> afterwards == Afterwards::WaitUntil(next),
        next.ticks <= run.bmca.ticks,
        0 <= i < 5 && run.io.timers.deadlines@[i] is Some ==> next.ticks
            <= run.io.timers.deadlines@[i]->0.ticks,
        0 <= i < 4 && run.io.pending_tx.slots@[i] is Some ==> next.ticks
            <= run.io.pending_tx.slots@[i]->0.started.ticks + run.io.pending_tx.timeout.ticks,
        next == run.bmca || (exists|j: int|
            0 <= j < 5 && #[trigger] run.io.timers.deadlines@[j] == Some(next)) || (exists|j: int|
            0 <= j < 4 && #[trigger] run.io.pending_tx.slots@[j] is Some && next.ticks
                == run.io.pending_tx.slots@[j]->0.started.ticks + run.io.pending_tx.timeout.ticks),
{
    next_deadline_is_one_of_them(run.io, run.bmca, i);
}

/// A transmit timestamp that ends a wait is kept as it is, and nothing else is; the rest
/// of the service is as before the wait.
pub proof fn timestamp_that_ends_a_wait_is_kept(run: &mut Run, outcome: WaitOutcome)
    requires
        call_ensures(Run::woken, (run, outcome), ()),
    ensures
        final(run).io == old(run).io,
        final(run).bmca == old(run).bmca,
        outcome matches WaitOutcome::TxTimestamp(tx) ==> final(run).tx_timestamp == Some(tx),
        outcome !is TxTimestamp ==> final(run).tx_timestamp is None,
{
}

} // verus!
