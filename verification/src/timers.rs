//! The protocol timers of a port.

use vstd::prelude::*;

use crate::time::{
    deadline_after, deadline_from, read_clock, read_from_clock, ClockError, CoreDuration,
    Instant, NANOS_PER_TICK,
};

verus! {

/// Number of protocol timers.
pub const TIMER_COUNT: usize = 5;

/// A protocol timer.
#[derive(Clone, Copy, Debug, PartialEq, Eq, Structural)]
pub enum StatimeTimer {
    /// Send an announce message.
    Announce,
    /// Send a sync message.
    Sync,
    /// Send a delay request.
    DelayRequest,
    /// No announce message came from the master in time.
    AnnounceReceipt,
    /// Update the clock filter without a new measurement.
    FilterUpdate,
}

impl StatimeTimer {
    /// Place of the timer in the order in which due timers are served.
    pub open spec fn slot(self) -> int {
        match self {
            StatimeTimer::Announce => 0,
            StatimeTimer::Sync => 1,
            StatimeTimer::DelayRequest => 2,
            StatimeTimer::AnnounceReceipt => 3,
            StatimeTimer::FilterUpdate => 4,
        }
    }

    /// The timer at a place in the order.
    pub open spec fn at_slot(slot: int) -> StatimeTimer {
        if slot == 0 {
            StatimeTimer::Announce
        } else if slot == 1 {
            StatimeTimer::Sync
        } else if slot == 2 {
            StatimeTimer::DelayRequest
        } else if slot == 3 {
            StatimeTimer::AnnounceReceipt
        } else {
            StatimeTimer::FilterUpdate
        }
    }

    /// Place of the timer in the order in which due timers are served.
    pub fn index(self) -> (r: usize)
        ensures
            r == self.slot(),
            r < TIMER_COUNT,
    {
        match self {
            StatimeTimer::Announce => 0,
            StatimeTimer::Sync => 1,
            StatimeTimer::DelayRequest => 2,
            StatimeTimer::AnnounceReceipt => 3,
            StatimeTimer::FilterUpdate => 4,
        }
    }

    /// The timer at a place in the order.
    pub fn from_index(index: usize) -> (r: StatimeTimer)
        requires
            index < TIMER_COUNT,
        ensures
            r == Self::at_slot(index as int),
            r.slot() == index,
    {
        if index == 0 {
            StatimeTimer::Announce
        } else if index == 1 {
            StatimeTimer::Sync
        } else if index == 2 {
            StatimeTimer::DelayRequest
        } else if index == 3 {
            StatimeTimer::AnnounceReceipt
        } else {
            StatimeTimer::FilterUpdate
        }
    }
}

/// The earlier of two optional deadlines; an absent one does not count.
pub open spec fn earlier(a: Option<Instant>, b: Option<Instant>) -> Option<Instant> {
    match (a, b) {
        (Some(x), Some(y)) => Some(x.spec_min(y)),
        (Some(x), None) => Some(x),
        (None, _) => b,
    }
}

/// The earliest of the deadlines that are set.
pub open spec fn earliest(deadlines: Seq<Option<Instant>>) -> Option<Instant>
    decreases deadlines.len(),
{
    if deadlines.len() == 0 {
        None
    } else {
        earlier(earliest(deadlines.drop_last()), deadlines.last())
    }
}

/// The earlier of two optional deadlines; an absent one does not count.
pub fn earlier_deadline(a: Option<Instant>, b: Option<Instant>) -> (r: Option<Instant>)
    ensures
        r == earlier(a, b),
{
    match a {
        Some(x) => match b {
            Some(y) => Some(x.min(y)),
            None => Some(x),
        },
        None => b,
    }
}

/// [`earliest`] is the minimum: it is one of the deadlines, none of the others is
/// before it, and there is none exactly if no deadline is set.
pub proof fn earliest_is_the_minimum(deadlines: Seq<Option<Instant>>)
    ensures
        earliest(deadlines) is None <==> forall|i: int|
            0 <= i < deadlines.len() ==> #[trigger] deadlines[i] is None,
        earliest(deadlines) is Some ==> deadlines.contains(earliest(deadlines)),
        forall|i: int|
            0 <= i < deadlines.len() && #[trigger] deadlines[i] is Some ==> earliest(deadlines)
                is Some && earliest(deadlines)->0.ticks <= deadlines[i]->0.ticks,
    decreases deadlines.len(),
{
    if deadlines.len() > 0 {
        let rest = deadlines.drop_last();
        earliest_is_the_minimum(rest);
        assert forall|i: int| 0 <= i < deadlines.len() && #[trigger] deadlines[i] is Some implies
            earliest(deadlines) is Some && earliest(deadlines)->0.ticks
            <= deadlines[i]->0.ticks by {
            if i < rest.len() {
                assert(rest[i] == deadlines[i]);
            }
        }
        if earliest(deadlines) is None {
            assert forall|i: int| 0 <= i < deadlines.len() implies #[trigger] deadlines[i]
                is None by {
                if i < rest.len() {
                    assert(rest[i] == deadlines[i]);
                }
            }
        } else {
            assert(deadlines[deadlines.len() - 1] == deadlines.last());
            if earliest(deadlines) == deadlines.last() {
            } else {
                let i = choose|i: int| 0 <= i < rest.len() && rest[i] == earliest(rest);
                assert(deadlines[i] == earliest(rest));
            }
        }
    }
}

/// The deadlines of the protocol timers that are running.
#[derive(Clone, Copy, Debug, PartialEq, Eq)]
pub struct Timers {
    /// Deadline of each timer, in the order of [`StatimeTimer::slot`]; nothing for a
    /// timer that is not running.
    pub deadlines: [Option<Instant>; TIMER_COUNT],
}

impl Default for Timers {
    /// No timer is running.
    fn default() -> (r: Self)
        ensures
            r.deadlines@ == Seq::new(TIMER_COUNT as nat, |i: int| None::<Instant>),
    {
        let r = Timers { deadlines: [None, None, None, None, None] };
        assert(r.deadlines@ =~= Seq::new(TIMER_COUNT as nat, |i: int| None::<Instant>));
        r
    }
}

impl Timers {
    /// When a timer is due, if it is running.
    pub open spec fn deadline(self, timer: StatimeTimer) -> Option<Instant> {
        self.deadlines@[timer.slot()]
    }

    /// Whether a timer is running and its deadline has been reached.
    pub open spec fn is_due(self, timer: StatimeTimer, now: Instant) -> bool {
        self.deadline(timer) matches Some(deadline) && now.ticks >= deadline.ticks
    }

    /// The timer to serve: the first in order that is due.
    pub open spec fn first_due(self, now: Instant) -> Option<StatimeTimer> {
        if self.is_due(StatimeTimer::Announce, now) {
            Some(StatimeTimer::Announce)
        } else if self.is_due(StatimeTimer::Sync, now) {
            Some(StatimeTimer::Sync)
        } else if self.is_due(StatimeTimer::DelayRequest, now) {
            Some(StatimeTimer::DelayRequest)
        } else if self.is_due(StatimeTimer::AnnounceReceipt, now) {
            Some(StatimeTimer::AnnounceReceipt)
        } else if self.is_due(StatimeTimer::FilterUpdate, now) {
            Some(StatimeTimer::FilterUpdate)
        } else {
            None
        }
    }

    /// `self` is `before` with the deadline of `timer` replaced.
    pub open spec fn is_update_of(
        self,
        before: Timers,
        timer: StatimeTimer,
        deadline: Option<Instant>,
    ) -> bool {
        self.deadlines@ == before.deadlines@.update(timer.slot(), deadline)
    }

    /// What starting `timer` for `duration` at `now` gives: `self` is `before` with
    /// the timer running towards its deadline, or is unchanged where the deadline
    /// cannot be represented.
    pub open spec fn is_reset_of(
        self,
        before: Timers,
        now: Instant,
        timer: StatimeTimer,
        duration: CoreDuration,
        r: Result<(), ClockError>,
    ) -> bool {
        match deadline_after(now, duration) {
            Ok(deadline) => r is Ok && self.is_update_of(before, timer, Some(deadline)),
            Err(error) => r == Err::<(), ClockError>(error) && self == before,
        }
    }

    /// What serving the timers at `now` gives: the first due timer is stopped and
    /// returned, the others keep running.
    pub open spec fn is_take_due_of(
        self,
        before: Timers,
        now: Instant,
        r: Option<StatimeTimer>,
    ) -> bool {
        &&& r == before.first_due(now)
        &&& match r {
            Some(timer) => self.is_update_of(before, timer, None),
            None => self == before,
        }
    }

    /// Starts `timer` anew, due `duration` after the clock reading `now`.
    pub fn reset_at(&mut self, now: Instant, timer: StatimeTimer, duration: CoreDuration) -> (r:
        Result<(), ClockError>)
        ensures
            final(self).is_reset_of(*old(self), now, timer, duration, r),
    {
        match deadline_from(now, duration) {
            Ok(deadline) => {
                let index: usize = timer.index();
                self.deadlines[index] = Some(deadline);
                Ok(())
            },
            Err(error) => Err(error),
        }
    }

    /// Starts `timer` anew, due `duration` after the moment of the call.
    pub fn reset(&mut self, timer: StatimeTimer, duration: CoreDuration) -> (r: Result<
        (),
        ClockError,
    >)
        ensures
            exists|now: Instant|
                read_from_clock(now) && #[trigger]
                final(self).is_reset_of(*old(self), now, timer, duration, r),
    {
        let now = read_clock();
        self.reset_at(now, timer, duration)
    }

    /// Stops and returns the first timer in order that is due at `now`.
    pub fn take_due_at(&mut self, now: Instant) -> (r: Option<StatimeTimer>)
        ensures
            final(self).is_take_due_of(*old(self), now, r),
    {
        let mut index: usize = 0;
        while index < TIMER_COUNT
            invariant
                index <= TIMER_COUNT,
                *self == *old(self),
                forall|i: int|
                    0 <= i < index ==> !self.is_due(#[trigger] StatimeTimer::at_slot(i), now),
            decreases TIMER_COUNT - index,
        {
            let timer = StatimeTimer::from_index(index);
            if let Some(deadline) = self.deadlines[index] {
                if now.ticks >= deadline.ticks {
                    proof {
                        self.lemma_first_due(now, index as int);
                    }
                    self.deadlines[index] = None;
                    return Some(timer);
                }
            }
            index += 1;
        }
        proof {
            self.lemma_first_due(now, TIMER_COUNT as int);
        }
        None
    }

    /// If no timer before `slot` is due, the first due timer is the one at `slot` or
    /// a later one.
    proof fn lemma_first_due(self, now: Instant, slot: int)
        requires
            0 <= slot <= TIMER_COUNT,
            forall|i: int| 0 <= i < slot ==> !self.is_due(#[trigger] StatimeTimer::at_slot(i), now),
            slot < TIMER_COUNT ==> self.is_due(StatimeTimer::at_slot(slot), now),
        ensures
            slot < TIMER_COUNT ==> self.first_due(now) == Some(StatimeTimer::at_slot(slot)),
            slot == TIMER_COUNT ==> self.first_due(now) is None,
    {
        assert(0 < slot ==> !self.is_due(StatimeTimer::at_slot(0), now));
        assert(1 < slot ==> !self.is_due(StatimeTimer::at_slot(1), now));
        assert(2 < slot ==> !self.is_due(StatimeTimer::at_slot(2), now));
        assert(3 < slot ==> !self.is_due(StatimeTimer::at_slot(3), now));
        assert(4 < slot ==> !self.is_due(StatimeTimer::at_slot(4), now));
    }

    /// Stops and returns the first timer in order that is due at the moment of the
    /// call.
    pub fn take_due(&mut self) -> (r: Option<StatimeTimer>)
        ensures
            exists|now: Instant|
                read_from_clock(now) && #[trigger] final(self).is_take_due_of(*old(self), now, r),
    {
        let now = read_clock();
        self.take_due_at(now)
    }

    /// When the next running timer is due.
    pub fn next_deadline(&self) -> (r: Option<Instant>)
        ensures
            r == earliest(self.deadlines@),
    {
        let mut r: Option<Instant> = None;
        let mut index: usize = 0;
        while index < TIMER_COUNT
            invariant
                index <= TIMER_COUNT,
                r == earliest(self.deadlines@.take(index as int)),
            decreases TIMER_COUNT - index,
        {
            assert(self.deadlines@.take(index + 1).drop_last() =~= self.deadlines@.take(
                index as int,
            ));
            r = earlier_deadline(r, self.deadlines[index]);
            index += 1;
        }
        assert(self.deadlines@.take(TIMER_COUNT as int) =~= self.deadlines@);
        r
    }
}

/// A timer is due once its duration is over, neither earlier nor later, and starting
/// it does not touch the other timers.
pub proof fn timer_is_due_after_its_duration(
    before: Timers,
    after: Timers,
    now: Instant,
    timer: StatimeTimer,
    duration: CoreDuration,
    later: Instant,
    other: StatimeTimer,
)
    requires
        after.is_reset_of(before, now, timer, duration, Ok(())),
        other != timer,
    ensures
        after.is_due(timer, later) <==> (later.ticks - now.ticks) * NANOS_PER_TICK
            >= duration.clamped_nanos(),
        after.deadline(other) == before.deadline(other),
{
}

/// The order in which due timers are served: announce, sync, delay request, announce
/// receipt, filter update.
pub proof fn order_of_timers(timer: StatimeTimer, index: usize)
    requires
        call_ensures(StatimeTimer::index, (timer,), index),
    ensures
        index == 0 <==> timer is Announce,
        index == 1 <==> timer is Sync,
        index == 2 <==> timer is DelayRequest,
        index == 3 <==> timer is AnnounceReceipt,
        index == 4 <==> timer is FilterUpdate,
{
}

/// A timer is found again at its own place in the order.
pub proof fn timer_is_found_at_its_place(timer: StatimeTimer, index: usize, r: StatimeTimer)
    requires
        call_ensures(StatimeTimer::index, (timer,), index),
        call_ensures(StatimeTimer::from_index, (index,), r),
    ensures
        r == timer,
{
}

/// The earlier of two deadlines is one of those that are set and after neither, and is
/// there if one of them is.
pub proof fn earlier_deadline_is_the_minimum(
    a: Option<Instant>,
    b: Option<Instant>,
    r: Option<Instant>,
)
    requires
        call_ensures(earlier_deadline, (a, b), r),
    ensures
        r is None <==> a is None && b is None,
        r is Some ==> r == a || r == b,
        r is Some && a is Some ==> r->0.ticks <= a->0.ticks,
        r is Some && b is Some ==> r->0.ticks <= b->0.ticks,
{
}

/// At first no timer runs.
pub proof fn no_timer_runs_at_first(timers: Timers, timer: int)
    requires
        call_ensures(<Timers as Default>::default, (), timers),
        0 <= timer < 5,
    ensures
        timers.deadlines@[timer] is None,
{
}

/// Starting a timer sets its deadline the whole duration after the clock reading, and
/// less than a tick more, and touches no other timer; an error changes nothing, and comes
/// only if no instant is late enough.
pub proof fn started_timer_has_its_deadline(
    timers: &mut Timers,
    now: Instant,
    timer: StatimeTimer,
    duration: CoreDuration,
    r: Result<(), ClockError>,
    index: usize,
    other: int,
)
    requires
        call_ensures(Timers::reset_at, (timers, now, timer, duration), r),
        call_ensures(StatimeTimer::index, (timer,), index),
        0 <= other < 5,
    ensures
        ({
            let nanos = duration.secs * 1_000_000_000 + duration.nanos;
            let length = if nanos <= 0xffff_ffff_ffff_ffff {
                nanos
            } else {
                0xffff_ffff_ffff_ffff
            };
            let deadline = final(timers).deadlines@[index as int];
            match r {
                Ok(_) => deadline is Some && length <= (deadline->0.ticks - now.ticks) * 1_000
                    < length + 1_000,
                Err(error) => error is Overflow && (0xffff_ffff_ffff_ffff - now.ticks) * 1_000
                    < length && deadline == old(timers).deadlines@[index as int],
            }
        }),
        other != index ==> final(timers).deadlines@[other] == old(timers).deadlines@[other],
{
}

/// Starting a timer at the moment of the call does so at a reading of the system clock.
pub proof fn started_timer_follows_the_clock(
    timers: &mut Timers,
    timer: StatimeTimer,
    duration: CoreDuration,
    r: Result<(), ClockError>,
    index: usize,
    other: int,
)
    requires
        call_ensures(Timers::reset, (timers, timer, duration), r),
        call_ensures(StatimeTimer::index, (timer,), index),
        0 <= other < 5,
    ensures
        ({
            let nanos = duration.secs * 1_000_000_000 + duration.nanos;
            let length = if nanos <= 0xffff_ffff_ffff_ffff {
                nanos
            } else {
                0xffff_ffff_ffff_ffff
            };
            let deadline = final(timers).deadlines@[index as int];
            exists|now: Instant| #[trigger]
                read_from_clock(now) && match r {
                    Ok(_) => deadline is Some && length <= (deadline->0.ticks - now.ticks) * 1_000
                        < length + 1_000,
                    Err(error) => error is Overflow && (0xffff_ffff_ffff_ffff - now.ticks) * 1_000
                        < length && deadline == old(timers).deadlines@[index as int],
                }
        }),
        other != index ==> final(timers).deadlines@[other] == old(timers).deadlines@[other],
{
    let now = choose|now: Instant|
        read_from_clock(now) && #[trigger] final(timers).is_reset_of(
            *old(timers),
            now,
            timer,
            duration,
            r,
        );
    assert(read_from_clock(now));
}

/// Serving the timers gives a timer that is due and stops it; no timer before it in
/// order is due, and the others run on. There is none only if no timer is due.
pub proof fn served_timer_is_the_first_due(
    timers: &mut Timers,
    now: Instant,
    r: Option<StatimeTimer>,
    index: usize,
    other: int,
)
    requires
        call_ensures(Timers::take_due_at, (timers, now), r),
        r is Some ==> call_ensures(StatimeTimer::index, (r->0,), index),
        0 <= other < 5,
    ensures
        r is Some ==> {
            let deadline = old(timers).deadlines@[index as int];
            &&& deadline is Some && deadline->0.ticks <= now.ticks
            &&& final(timers).deadlines@[index as int] is None
        },
        r is None || other < index ==> {
            let deadline = old(timers).deadlines@[other];
            deadline is Some ==> now.ticks < deadline->0.ticks
        },
        r is None || other != index ==> final(timers).deadlines@[other]
            == old(timers).deadlines@[other],
{
    if r is None || other < index {
        assert(!old(timers).is_due(StatimeTimer::at_slot(other), now));
    }
}

/// Serving the timers at the moment of the call does so at a reading of the system
/// clock.
pub proof fn served_timer_follows_the_clock(
    timers: &mut Timers,
    r: Option<StatimeTimer>,
    index: usize,
)
    requires
        call_ensures(Timers::take_due, (timers,), r),
        r is Some ==> call_ensures(StatimeTimer::index, (r->0,), index),
    ensures
        exists|now: Instant| #[trigger]
            read_from_clock(now) && (forall|other: int|
                0 <= other < 5 && (r is None || other < index) ==> {
                    let deadline = #[trigger] old(timers).deadlines@[other];
                    deadline is Some ==> now.ticks < deadline->0.ticks
                }) && (r is Some ==> {
                let deadline = old(timers).deadlines@[index as int];
                &&& deadline is Some && deadline->0.ticks <= now.ticks
                &&& final(timers).deadlines@[index as int] is None
            }),
        forall|other: int|
            0 <= other < 5 && (r is None || other != index) ==> #[trigger] final(timers).deadlines@[other]
                == old(timers).deadlines@[other],
{
    let now = choose|now: Instant|
        read_from_clock(now) && #[trigger] final(timers).is_take_due_of(*old(timers), now, r);
    assert(read_from_clock(now));
    assert forall|other: int| 0 <= other < 5 && (r is None || other < index) implies {
        let deadline = #[trigger] old(timers).deadlines@[other];
        deadline is Some ==> now.ticks < deadline->0.ticks
    } by {
        assert(!old(timers).is_due(StatimeTimer::at_slot(other), now));
    }
}

/// The next deadline is the earliest of the running timers: it is that of one of them,
/// after none of them, and absent only if no timer runs.
pub proof fn next_deadline_of_timers_is_the_earliest(
    timers: Timers,
    r: Option<Instant>,
    timer: int,
)
    requires
        call_ensures(Timers::next_deadline, (&timers,), r),
        0 <= timer < 5,
    ensures
        r is Some ==> exists|i: int| 0 <= i < 5 && #[trigger] timers.deadlines@[i] == r,
        timers.deadlines@[timer] is Some ==> r is Some && r->0.ticks
            <= timers.deadlines@[timer]->0.ticks,
{
    earliest_is_the_minimum(timers.deadlines@);
}

} // verus!
