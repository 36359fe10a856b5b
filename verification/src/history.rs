//! What holds over everything that happens to a service, however its sends and polls
//! turn out and however often it is started again.

use vstd::prelude::*;

use crate::packet::{nth_id, nth_id_counts_calls, RecvPacket};
use crate::pending::{
    expiry_keeps_what_it_does_not_report, is_full, is_pending, pending_with_id,
    push_keeps_the_others, restart_keeps_the_packet, started_by, take_keeps_the_others, unexpired,
    PendingTx,
};
use crate::port_io::{
    event_incoming, general_incoming, spec_receive_event, spec_receive_general, timer_of, Incoming,
    IoRequest, Polled, PortAction, PortIo, ReceiveProblem, ReceiveStep,
};
use crate::runner::{
    deadline_is_when_work_is_due, Decision, Run, Runner, Turn, WaitOutcome,
};
use crate::setup::{Setup, SocketKind};
use crate::state::PortState;
use crate::time::{deadline_after, ClockError, CoreDuration, Instant};
use crate::timers::StatimeTimer;

verus! {

/// Something that happens to a service.
#[derive(Debug)]
pub enum Step<'a> {
    /// The service is started; an earlier one of the same runner is over.
    Started {
        /// Reading of the system clock.
        now: Instant,
        /// How the sockets were set up.
        setup: Setup,
        /// Interval of the best master clock algorithm.
        bmca_interval: CoreDuration,
    },
    /// It is decided what is due.
    Decided {
        /// Reading of the system clock.
        now: Instant,
        /// State of the protocol port.
        port_state: PortState,
        /// Interval of the best master clock algorithm.
        bmca_interval: CoreDuration,
        /// What is due.
        turn: Result<Turn, ClockError>,
    },
    /// An action of the protocol is handled.
    Handled {
        /// Reading of the system clock.
        now: Instant,
        /// The action.
        action: PortAction<'a>,
        /// What is left to be done for it.
        request: Result<IoRequest<'a>, ClockError>,
    },
    /// An event packet was sent, or could not be sent.
    EventSent {
        /// Reading of the system clock.
        now: Instant,
        /// Identifier of the packet.
        packet_id: u32,
        /// Whether it was sent.
        sent: bool,
        /// Whether this could be taken note of.
        noted: Result<(), ClockError>,
    },
    /// A general packet was sent, or could not be sent. The service is not told.
    GeneralSent {
        /// Whether it was sent.
        sent: bool,
    },
    /// A socket was asked for a packet. What it gave is for the protocol alone.
    Asked {
        /// The socket.
        socket: SocketKind,
        /// What it gave.
        polled: Polled,
    },
    /// A wait has ended.
    Woken {
        /// What ended it.
        outcome: WaitOutcome,
    },
}

/// Whether `step` takes a runner and its service from `before` to `after`.
pub open spec fn is_step(before: (Runner, Run), step: Step, after: (Runner, Run)) -> bool {
    match step {
        Step::Started { now, setup, bmca_interval } => {
            &&& after.0 == before.0
            &&& before.0.is_start(now, setup, bmca_interval, Ok(after.1))
        },
        Step::Decided { now, port_state, bmca_interval, turn } => {
            &&& after.0 == before.0
            &&& after.1.is_turn_of(
                before.1,
                now,
                port_state,
                bmca_interval,
                before.0.monitored,
                turn,
            )
        },
        Step::Handled { now, action, request } => {
            &&& after.0.config == before.0.config
            &&& after.0.monitored == before.0.monitored
            &&& after.1.bmca == before.1.bmca
            &&& after.1.tx_timestamp == before.1.tx_timestamp
            &&& after.1.io.is_handle_of(
                before.1.io,
                (before.0.packet_id.next_id(), after.0.packet_id.next_id()),
                now,
                action,
                before.1.bmca,
                before.0.monitored,
                request,
            )
        },
        Step::EventSent { now, packet_id, sent, noted } => {
            &&& after.0 == before.0
            &&& after.1.bmca == before.1.bmca
            &&& after.1.tx_timestamp == before.1.tx_timestamp
            &&& after.1.io.is_event_sent_of(before.1.io, now, packet_id, sent, noted)
        },
        Step::GeneralSent { sent } => after == before,
        Step::Asked { socket, polled } => after == before,
        Step::Woken { outcome } => {
            &&& after.0 == before.0
            &&& after.1.io == before.1.io
            &&& after.1.bmca == before.1.bmca
            &&& after.1.tx_timestamp == match outcome {
                WaitOutcome::TxTimestamp(timestamp) => Some(timestamp),
                _ => None,
            }
        },
    }
}

/// Whether `steps` take a runner and its service through `states`, one after another.
pub open spec fn is_history(states: Seq<(Runner, Run)>, steps: Seq<Step>) -> bool {
    &&& states.len() == steps.len() + 1
    &&& forall|i: int|
        0 <= i < steps.len() ==> is_step(states[i], #[trigger] steps[i], states[i + 1])
}

/// A history without its last step is a history.
proof fn lemma_shorter(states: Seq<(Runner, Run)>, steps: Seq<Step>)
    requires
        is_history(states, steps),
        steps.len() > 0,
    ensures
        is_history(states.drop_last(), steps.drop_last()),
        is_step(states.drop_last().last(), steps.last(), states.last()),
        states.drop_last().first() == states.first(),
{
    let earlier = steps.drop_last();
    assert forall|i: int| 0 <= i < earlier.len() implies is_step(
        states.drop_last()[i],
        #[trigger] earlier[i],
        states.drop_last()[i + 1],
    ) by {
        assert(earlier[i] == steps[i]);
    }
    assert(steps[steps.len() - 1] == steps.last());
}

/// Whether a step hands an event packet on, which takes an identifier.
pub open spec fn takes_id(step: Step) -> bool {
    step matches Step::Handled { now, action, request } && action is SendEvent && request is Ok
}

/// Number of steps that take an identifier.
pub open spec fn ids_taken(steps: Seq<Step>) -> nat
    decreases steps.len(),
{
    if steps.len() == 0 {
        0
    } else {
        ids_taken(steps.drop_last()) + if takes_id(steps.last()) {
            1nat
        } else {
            0nat
        }
    }
}

/// Packet identifiers go on through everything that happens to one runner, restarts
/// of its service among it: the next identifier is the one that many places on as
/// there were event packets to send.
pub proof fn ids_go_on_through_restarts(states: Seq<(Runner, Run)>, steps: Seq<Step>)
    requires
        is_history(states, steps),
        states.first().0.packet_id.next_id() != 0,
    ensures
        states.last().0.packet_id.next_id() == nth_id(
            states.first().0.packet_id.next_id(),
            ids_taken(steps),
        ),
    decreases steps.len(),
{
    let first = states.first().0.packet_id.next_id();
    if steps.len() == 0 {
        nth_id_counts_calls(first, 0);
    } else {
        lemma_shorter(states, steps);
        ids_go_on_through_restarts(states.drop_last(), steps.drop_last());
        nth_id_counts_calls(first, ids_taken(steps.drop_last()));
    }
}

/// Whether a step starts a timer anew, or stops it because it is due.
pub open spec fn serves_timer(step: Step, timer: StatimeTimer) -> bool {
    match step {
        Step::Started { .. } => true,
        Step::Decided { now, port_state, bmca_interval, turn } => {
            turn matches Ok(turn) && turn.decision is Timer && turn.decision->timer == timer
        },
        Step::Handled { now, action, request } => {
            request is Ok && (timer_of(action) matches Some((started, duration)) && started == timer)
        },
        _ => false,
    }
}

/// Whether a step sets the deadline of the best master clock algorithm.
pub open spec fn sets_bmca(step: Step) -> bool {
    match step {
        Step::Started { .. } => true,
        Step::Decided { now, port_state, bmca_interval, turn } => {
            turn matches Ok(turn) && turn.decision is RunBmca
        },
        _ => false,
    }
}

/// Whether a step concerns the packet with this identifier: its wait is over, its
/// transmit timestamp is handed on, it was sent or could not be sent, or another
/// packet gets the same identifier.
pub open spec fn concerns_packet(before: (Runner, Run), step: Step, packet_id: u32) -> bool {
    match step {
        Step::Started { .. } => true,
        Step::Decided { now, port_state, bmca_interval, turn } => {
            turn matches Ok(turn) && turn.decision !is RunBmca && (turn.expired@.contains(packet_id)
                || (before.1.tx_timestamp matches Some(tx) && tx.id == packet_id))
        },
        Step::Handled { .. } => takes_id(step) && before.0.packet_id.next_id() == packet_id,
        Step::EventSent { now, packet_id: noted_id, sent, noted } => noted_id == packet_id,
        _ => false,
    }
}

/// What a service still has of what it had: the same groups, the same timeout and
/// the same configuration.
pub open spec fn same_service(before: (Runner, Run), after: (Runner, Run)) -> bool {
    &&& after.0.config == before.0.config
    &&& after.0.monitored == before.0.monitored
    &&& after.1.io.joined == before.1.io.joined
    &&& after.1.io.pending_tx.timeout == before.1.io.pending_tx.timeout
}

/// Whether the packet with this identifier waits as before.
pub open spec fn same_wait(before: Run, after: Run, packet_id: u32) -> bool {
    &&& is_pending(after.io.pending_tx.slots@, packet_id) == is_pending(
        before.io.pending_tx.slots@,
        packet_id,
    )
    &&& is_pending(before.io.pending_tx.slots@, packet_id) ==> pending_with_id(
        after.io.pending_tx.slots@,
        packet_id,
    ) == pending_with_id(before.io.pending_tx.slots@, packet_id)
}

/// What one step leaves alone.
proof fn lemma_step(
    before: (Runner, Run),
    step: Step,
    after: (Runner, Run),
    timer: StatimeTimer,
    packet_id: u32,
)
    requires
        is_step(before, step, after),
    ensures
        step !is Started ==> same_service(before, after),
        !serves_timer(step, timer) ==> after.1.io.timers.deadline(timer)
            == before.1.io.timers.deadline(timer),
        !sets_bmca(step) ==> after.1.bmca == before.1.bmca,
        !concerns_packet(before, step, packet_id) ==> same_wait(before.1, after.1, packet_id),
{
    let slots = before.1.io.pending_tx.slots@;
    let timeout = before.1.io.pending_tx.timeout;
    match step {
        Step::Decided { now, port_state, bmca_interval, turn } => {
            if turn is Ok && turn->Ok_0.decision !is RunBmca && !concerns_packet(
                before,
                step,
                packet_id,
            ) {
                expiry_keeps_what_it_does_not_report(slots, timeout, now, packet_id);
                if let Some(tx) = before.1.tx_timestamp {
                    let waiting = unexpired(slots, timeout, now);
                    if is_pending(waiting, tx.id) {
                        take_keeps_the_others(waiting, tx.id, packet_id);
                    }
                }
            }
        },
        Step::Handled { now, action, request } => {
            if let PortAction::SendEvent { context, data, link_local } = action {
                if request is Ok && !is_full(slots) && !concerns_packet(before, step, packet_id) {
                    let id = before.0.packet_id.next_id();
                    push_keeps_the_others(
                        slots,
                        PendingTx { context, packet_id: id, started: now },
                        packet_id,
                    );
                }
            }
        },
        Step::EventSent { now, packet_id: noted_id, sent, noted } => {
            if noted_id != packet_id && is_pending(slots, noted_id) {
                take_keeps_the_others(slots, noted_id, packet_id);
                restart_keeps_the_packet(slots, noted_id, now, packet_id);
            }
        },
        _ => {},
    }
}

/// A service that was started goes on with what it has, whatever becomes of its sends
/// and polls, for instance because the link is lost: it keeps its groups, its timeout
/// and its configuration; a timer runs on until it is due or started anew; the best
/// master clock algorithm stays due when it was until it is run; and a packet waits
/// on until its wait is over, its timestamp comes in or its own send has ended.
pub proof fn service_goes_on_with_what_it_has(
    states: Seq<(Runner, Run)>,
    steps: Seq<Step>,
    timer: StatimeTimer,
    packet_id: u32,
)
    requires
        is_history(states, steps),
        forall|i: int| 0 <= i < steps.len() ==> #[trigger] steps[i] !is Started,
    ensures
        same_service(states.first(), states.last()),
        (forall|i: int| 0 <= i < steps.len() ==> !serves_timer(#[trigger] steps[i], timer))
            ==> states.last().1.io.timers.deadline(timer) == states.first().1.io.timers.deadline(
            timer,
        ),
        (forall|i: int| 0 <= i < steps.len() ==> !sets_bmca(#[trigger] steps[i]))
            ==> states.last().1.bmca == states.first().1.bmca,
        (forall|i: int|
            0 <= i < steps.len() ==> !concerns_packet(states[i], #[trigger] steps[i], packet_id))
            ==> same_wait(states.first().1, states.last().1, packet_id),
    decreases steps.len(),
{
    if steps.len() > 0 {
        let earlier = steps.drop_last();
        lemma_shorter(states, steps);
        assert forall|i: int| 0 <= i < earlier.len() implies #[trigger] earlier[i] == steps[i]
            && states.drop_last()[i] == states[i] by {}
        service_goes_on_with_what_it_has(states.drop_last(), earlier, timer, packet_id);
        let last = steps[steps.len() - 1];
        assert(states.drop_last().last() == states[steps.len() - 1]);
        lemma_step(states.drop_last().last(), last, states.last(), timer, packet_id);
    }
}

/// Whether a step is a failure of the network: a packet could not be sent, or a socket
/// gave an error or nothing.
pub open spec fn is_network_failure(step: Step) -> bool {
    match step {
        Step::EventSent { now, packet_id, sent, noted } => !sent,
        Step::GeneralSent { sent } => !sent,
        Step::Asked { socket, polled } => polled !is Packet,
        _ => false,
    }
}

/// A failure of the network is no error and resets nothing: all timers, the deadline of
/// the best master clock algorithm, the joined groups, the next identifier, a transmit
/// timestamp that has come in and every packet but the one that could not be sent stay
/// as they are, and the protocol is given no packet.
pub proof fn network_failure_resets_nothing(
    before: (Runner, Run),
    step: Step,
    after: (Runner, Run),
    packet_id: u32,
    receive_delay_requests: bool,
)
    requires
        is_step(before, step, after),
        is_network_failure(step),
    ensures
        after.0 == before.0,
        after.1.bmca == before.1.bmca,
        after.1.tx_timestamp == before.1.tx_timestamp,
        after.1.io.joined == before.1.io.joined,
        after.1.io.timers == before.1.io.timers,
        after.1.io.pending_tx.timeout == before.1.io.pending_tx.timeout,
        step is EventSent ==> step->noted is Ok,
        step !is EventSent ==> after == before,
        !(step is EventSent && step->EventSent_packet_id == packet_id) ==> same_wait(
            before.1,
            after.1,
            packet_id,
        ),
        step matches Step::Asked { socket, polled } ==> match polled {
            Polled::Failed(error) => {
                &&& spec_receive_event(polled, receive_delay_requests) == ReceiveStep::Done(
                    Incoming::Problem(ReceiveProblem::Failed { socket: SocketKind::Event, error }),
                )
                &&& spec_receive_general(polled) == Incoming::Problem(
                    ReceiveProblem::Failed { socket: SocketKind::General, error },
                )
            },
            _ => {
                &&& spec_receive_event(polled, receive_delay_requests) is PollGeneral
                &&& spec_receive_general(polled) is Nothing
            },
        },
{
    lemma_step(before, step, after, StatimeTimer::Announce, packet_id);
}

/// Packets are handled again as soon as they come in again, whatever happened before: a
/// decision that finds nothing else due asks the sockets, and what a socket then gives
/// goes to the protocol by the packet alone.
pub proof fn packets_are_handled_again(
    states: Seq<(Runner, Run)>,
    steps: Seq<Step>,
    now: Instant,
    port_state: PortState,
    bmca_interval: CoreDuration,
    turn: Turn,
    packet: RecvPacket,
)
    requires
        is_history(states, steps),
        steps.len() > 0,
        steps.last() == (Step::Decided { now, port_state, bmca_interval, turn: Ok(turn) }),
        ({
            let run = states[steps.len() - 1].1;
            &&& run.io.wf()
            &&& run.tx_timestamp is None
            &&& now.ticks < run.io.spec_next_deadline(run.bmca).ticks
        }),
    ensures
        turn.decision == (Decision::Receive { receive_delay_requests: port_state is Master }),
        spec_receive_event(Polled::Packet(packet), port_state is Master) == ReceiveStep::Done(
            event_incoming(packet, port_state is Master),
        ),
        spec_receive_general(Polled::Packet(packet)) == general_incoming(packet),
{
    lemma_shorter(states, steps);
    let before = states[steps.len() - 1];
    assert(states.drop_last().last() == before);
    deadline_is_when_work_is_due(
        before.1,
        states.last().1,
        now,
        port_state,
        bmca_interval,
        before.0.monitored,
        turn,
    );
}

/// Whether the system clock makes a step impossible: it reads earlier than the start of
/// a wait, or a deadline that the step needs is past its last instant.
pub open spec fn clock_fails(before: (Runner, Run), step: Step) -> bool {
    let timeout = before.1.io.pending_tx.timeout;
    match step {
        Step::Decided { now, port_state, bmca_interval, turn } => {
            if now.ticks >= before.1.bmca.ticks {
                deadline_after(now, bmca_interval) is Err
            } else {
                !started_by(before.1.io.pending_tx.slots@, now)
            }
        },
        Step::Handled { now, action, request } => match timer_of(action) {
            Some((timer, duration)) => deadline_after(now, duration) is Err,
            None => now.spec_checked_add(timeout) is None,
        },
        Step::EventSent { now, packet_id, sent, noted } => {
            sent && now.spec_checked_add(timeout) is None
        },
        _ => false,
    }
}

/// Whether a step ended in an error.
pub open spec fn is_error(step: Step) -> bool {
    match step {
        Step::Decided { now, port_state, bmca_interval, turn } => turn is Err,
        Step::Handled { now, action, request } => request is Err,
        Step::EventSent { now, packet_id, sent, noted } => noted is Err,
        _ => false,
    }
}

/// Only the system clock can stop a service: a step ends in an error only if the clock
/// fails it, and then the service is as before.
pub proof fn only_the_clock_can_fail(before: (Runner, Run), step: Step, after: (Runner, Run))
    requires
        is_step(before, step, after),
        is_error(step),
    ensures
        clock_fails(before, step),
        after.0.packet_id.next_id() == before.0.packet_id.next_id(),
        after.1 == before.1,
{
}

/// Starting a service is a step.
pub proof fn starting_is_a_step(
    before: (Runner, Run),
    after: Run,
    now: Instant,
    setup: Setup,
    bmca_interval: CoreDuration,
)
    requires
        call_ensures(Runner::start_at, (&before.0, now, setup, bmca_interval), Ok(after)),
    ensures
        is_step(before, Step::Started { now, setup, bmca_interval }, (before.0, after)),
{
}

/// Deciding is a step.
pub proof fn deciding_is_a_step(
    runner: Runner,
    run: &mut Run,
    now: Instant,
    port_state: PortState,
    bmca_interval: CoreDuration,
    turn: Result<Turn, ClockError>,
)
    requires
        call_ensures(
            Run::decide_at,
            (run, now, port_state, bmca_interval, runner.monitored),
            turn,
        ),
    ensures
        is_step(
            (runner, *old(run)),
            Step::Decided { now, port_state, bmca_interval, turn },
            (runner, *final(run)),
        ),
{
}

/// Handling an action is a step.
pub proof fn handling_is_a_step<'a>(
    runner: &mut Runner,
    run: &mut Run,
    now: Instant,
    action: PortAction<'a>,
    request: Result<IoRequest<'a>, ClockError>,
)
    requires
        call_ensures(Runner::handle_at, (runner, run, now, action), request),
    ensures
        is_step(
            (*old(runner), *old(run)),
            Step::Handled { now, action, request },
            (*final(runner), *final(run)),
        ),
{
}

/// Taking note of the end of a wait is a step.
pub proof fn waking_is_a_step(runner: Runner, run: &mut Run, outcome: WaitOutcome)
    requires
        call_ensures(Run::woken, (run, outcome), ()),
    ensures
        is_step((runner, *old(run)), Step::Woken { outcome }, (runner, *final(run))),
{
}

/// Taking note of how a send went is a step, the rest of the service staying as it is.
pub proof fn noting_a_send_is_a_step(
    runner: Runner,
    before: Run,
    after: Run,
    io: &mut PortIo,
    now: Instant,
    packet_id: u32,
    sent: bool,
    noted: Result<(), ClockError>,
)
    requires
        call_ensures(PortIo::event_sent_at, (io, now, packet_id, sent), noted),
        before.io == *old(io),
        after == (Run { io: *final(io), ..before }),
    ensures
        is_step(
            (runner, before),
            Step::EventSent { now, packet_id, sent, noted },
            (runner, after),
        ),
{
}

} // verus!
