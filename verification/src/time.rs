//! Instants, spans and hardware timestamps.

use vstd::prelude::*;

verus! {

/// Ticks per second of the `embassy-time` clock: its `std` driver selects
/// `tick-hz-1_000_000`.
pub const TICK_HZ: u64 = 1_000_000;

/// Nanoseconds in one tick of the `embassy-time` clock.
pub const NANOS_PER_TICK: u64 = 1_000;

/// Nanoseconds in one second.
pub const NANOS_PER_SEC: u64 = 1_000_000_000;

/// Why a deadline could not be computed from the system clock.
#[derive(Clone, Copy, Debug, PartialEq, Eq, Structural)]
pub enum ClockError {
    /// The deadline or span is past the largest value that can be represented.
    Overflow,
    /// The clock reads earlier than a moment that was already recorded.
    Backwards,
}

/// A reading of the system clock, in `embassy-time` ticks since startup.
#[derive(Clone, Copy, Debug, PartialEq, Eq, Structural)]
pub struct Instant {
    /// Ticks since startup.
    pub ticks: u64,
}

/// A span between two [`Instant`]s, in `embassy-time` ticks.
#[derive(Clone, Copy, Debug, PartialEq, Eq, Structural)]
pub struct EmbassyDuration {
    /// Length in ticks.
    pub ticks: u64,
}

/// A span of wall time as `core::time::Duration` holds it: whole seconds and the
/// nanoseconds on top of them.
#[derive(Clone, Copy, Debug, PartialEq, Eq, Structural)]
pub struct CoreDuration {
    /// Whole seconds.
    pub secs: u64,
    /// Nanoseconds beyond the whole seconds.
    pub nanos: u32,
}

/// A packet timestamp taken by the network hardware.
#[derive(Clone, Copy, Debug, PartialEq, Eq, Structural)]
pub struct Timestamp {
    /// Whole seconds of the hardware clock.
    pub seconds: u32,
    /// Quarter nanoseconds beyond the whole seconds.
    pub quarter_nanos: u32,
}

/// The timestamp of a packet that was sent.
#[derive(Clone, Copy, Debug, PartialEq, Eq, Structural)]
pub struct TxTimestamp {
    /// Identifier that was attached to the packet.
    pub id: u32,
    /// When the packet left.
    pub timestamp: Timestamp,
}

/// A moment on the PTP timescale, in units of 2^-32 nanoseconds.
#[derive(Clone, Copy, Debug, PartialEq, Eq, Structural)]
pub struct Time {
    /// Fixed-point nanoseconds: the low 32 bits are the fraction.
    pub bits: u128,
}

/// A signed span on the PTP timescale, in units of 2^-32 nanoseconds.
#[derive(Clone, Copy, Debug, PartialEq, Eq, Structural)]
pub struct Duration {
    /// Fixed-point nanoseconds: the low 32 bits are the fraction.
    pub bits: i128,
}

/// The pacing of a protocol event, as the binary logarithm of seconds.
#[derive(Clone, Copy, Debug, PartialEq, Eq, Structural)]
pub struct Interval {
    /// Binary logarithm of the interval in seconds.
    pub log_2: i8,
}

impl Instant {
    /// The system clock's current reading.
    ///
    /// Calls `embassy_time::Instant::now`. The reading depends on when the call is
    /// made, so nothing is claimed of it.
    #[verifier::external_body]
    pub(crate) fn now() -> (now: Instant) {
        Instant { ticks: embassy_time::Instant::now().as_ticks() }
    }

    /// The moment `span` after this one, if it can be represented.
    pub open spec fn spec_checked_add(self, span: EmbassyDuration) -> Option<Instant> {
        if self.ticks + span.ticks <= u64::MAX {
            Some(Instant { ticks: (self.ticks + span.ticks) as u64 })
        } else {
            None
        }
    }

    /// The moment `span` after this one, or `None` past the largest instant.
    pub fn checked_add(self, span: EmbassyDuration) -> (r: Option<Instant>)
        ensures
            r == self.spec_checked_add(span),
    {
        match self.ticks.checked_add(span.ticks) {
            Some(ticks) => Some(Instant { ticks }),
            None => None,
        }
    }

    /// The earlier of two instants.
    pub open spec fn spec_min(self, other: Instant) -> Instant {
        if other.ticks < self.ticks { other } else { self }
    }

    /// The earlier of two instants.
    pub fn min(self, other: Instant) -> (r: Instant)
        ensures
            r == self.spec_min(other),
    {
        if other.ticks < self.ticks { other } else { self }
    }
}

/// Whether this reading was given by the system clock: it is what a call of
/// [`Instant::now`] returned.
pub closed spec fn read_from_clock(now: Instant) -> bool {
    call_ensures(Instant::now, (), now)
}

/// The system clock's current reading.
pub(crate) fn read_clock() -> (now: Instant)
    ensures
        read_from_clock(now),
{
    Instant::now()
}

impl EmbassyDuration {
    /// The least number of ticks that is not shorter than `nanos`.
    pub open spec fn ticks_for_nanos(nanos: int) -> int {
        (nanos + NANOS_PER_TICK - 1) / (NANOS_PER_TICK as int)
    }

    /// The span of `nanos` nanoseconds, rounded up to whole ticks.
    ///
    /// Calls `embassy_time::Duration::from_nanos`, which rounds up at the tick rate
    /// [`TICK_HZ`]. It adds the nanoseconds of a tick before it divides, so the largest
    /// arguments overflow there and are left out.
    #[verifier::external_body]
    fn from_nanos(nanos: u64) -> (span: EmbassyDuration)
        requires
            nanos + NANOS_PER_TICK <= u64::MAX,
        ensures
            span.ticks == Self::ticks_for_nanos(nanos as int),
    {
        EmbassyDuration { ticks: embassy_time::Duration::from_nanos(nanos).as_ticks() }
    }

    /// The span of `millis` milliseconds.
    ///
    /// Calls `embassy_time::Duration::from_millis`, which at the tick rate
    /// [`TICK_HZ`] multiplies by a thousand.
    #[verifier::external_body]
    pub(crate) fn from_millis(millis: u64) -> (span: EmbassyDuration)
        requires
            millis * 1_000 <= u64::MAX,
        ensures
            span.ticks == millis * 1_000,
    {
        EmbassyDuration { ticks: embassy_time::Duration::from_millis(millis).as_ticks() }
    }
}

impl CoreDuration {
    /// Length in nanoseconds.
    pub open spec fn spec_as_nanos(self) -> int {
        self.secs * NANOS_PER_SEC + self.nanos
    }

    /// Length in nanoseconds.
    pub fn as_nanos(self) -> (r: u128)
        ensures
            r == self.spec_as_nanos(),
    {
        let per_sec: u128 = NANOS_PER_SEC as u128;
        let whole: u128 = (self.secs as u128) * per_sec;
        assert(whole == self.secs * 1_000_000_000);
        whole + (self.nanos as u128)
    }

    /// Length in nanoseconds, or the largest number of nanoseconds that 64 bits hold
    /// for a longer span.
    pub open spec fn clamped_nanos(self) -> int {
        if self.spec_as_nanos() <= u64::MAX {
            self.spec_as_nanos()
        } else {
            u64::MAX as int
        }
    }

    /// The span in ticks, rounded up; a span of more nanoseconds than 64 bits hold
    /// counts as one of the most that they hold.
    pub open spec fn spec_to_ticks(self) -> EmbassyDuration {
        EmbassyDuration { ticks: EmbassyDuration::ticks_for_nanos(self.clamped_nanos()) as u64 }
    }

    /// The span in ticks, rounded up; a span of more nanoseconds than 64 bits hold
    /// counts as one of the most that they hold.
    pub fn to_ticks(self) -> (r: EmbassyDuration)
        ensures
            r == self.spec_to_ticks(),
    {
        let length: u128 = self.as_nanos();
        let nanos: u64 = if length <= u64::MAX as u128 {
            length as u64
        } else {
            u64::MAX
        };
        if nanos <= u64::MAX - NANOS_PER_TICK {
            EmbassyDuration::from_nanos(nanos)
        } else {
            // One tick is left out of the division, where it would overflow.
            let span = EmbassyDuration::from_nanos(nanos - NANOS_PER_TICK);
            EmbassyDuration { ticks: span.ticks + 1 }
        }
    }
}

/// The deadline that lies `duration` after `now`, rounded up to whole ticks, if it
/// can be represented.
pub open spec fn deadline_after(now: Instant, duration: CoreDuration) -> Result<Instant, ClockError> {
    match now.spec_checked_add(duration.spec_to_ticks()) {
        Some(deadline) => Ok(deadline),
        None => Err(ClockError::Overflow),
    }
}

/// The deadline `duration` after the clock reading `now`.
pub fn deadline_from(now: Instant, duration: CoreDuration) -> (r: Result<Instant, ClockError>)
    ensures
        r == deadline_after(now, duration),
{
    match now.checked_add(duration.to_ticks()) {
        Some(deadline) => Ok(deadline),
        None => Err(ClockError::Overflow),
    }
}

/// The deadline `duration` after the moment of the call.
pub fn deadline_from_now(duration: CoreDuration) -> (r: Result<Instant, ClockError>)
    ensures
        exists|now: Instant|
            read_from_clock(now) && r == #[trigger] deadline_after(now, duration),
{
    let now = read_clock();
    deadline_from(now, duration)
}

impl Time {
    /// The moment `nanos` nanoseconds and `subnanos` 2^-32 nanoseconds after the
    /// origin, as fixed-point bits.
    ///
    /// Calls `statime::time::Time::from_nanos_subnanos`, which puts `subnanos` below
    /// the binary point of `nanos`.
    #[verifier::external_body]
    fn fixed_point(nanos: u64, subnanos: u32) -> (bits: u128)
        ensures
            bits == nanos * 0x1_0000_0000 + subnanos,
    {
        statime::time::Time::from_nanos_subnanos(nanos, subnanos).nanos().to_bits()
    }

    /// The moment `nanos` nanoseconds and `subnanos` 2^-32 nanoseconds after the
    /// origin.
    pub fn from_nanos_subnanos(nanos: u64, subnanos: u32) -> (r: Time)
        ensures
            r.bits == nanos * 0x1_0000_0000 + subnanos,
    {
        Time { bits: Self::fixed_point(nanos, subnanos) }
    }
}

/// The moment that lies `seconds` and `quarter_nanos` quarter nanoseconds after
/// the origin: a quarter nanosecond is 2^30 units of [`Time`].
pub open spec fn spec_time_from_parts(seconds: u32, quarter_nanos: u32) -> Time {
    Time { bits: ((seconds * 4 * NANOS_PER_SEC + quarter_nanos) * 0x4000_0000) as u128 }
}

/// The moment of a packet timestamp.
pub open spec fn spec_time_from(timestamp: Timestamp) -> Time {
    spec_time_from_parts(timestamp.seconds, timestamp.quarter_nanos)
}

/// The protocol time of a packet timestamp.
pub fn time_from(timestamp: Timestamp) -> (r: Time)
    ensures
        r == spec_time_from(timestamp),
{
    time_from_parts(timestamp.seconds, timestamp.quarter_nanos)
}

/// The protocol time `seconds` and `quarter_nanos` after the origin.
///
/// Packet timestamps and clock readings share this representation.
pub fn time_from_parts(seconds: u32, quarter_nanos: u32) -> (r: Time)
    ensures
        r == spec_time_from_parts(seconds, quarter_nanos),
{
    let whole: u32 = quarter_nanos >> 2;
    let part: u32 = quarter_nanos & 3;
    assert(quarter_nanos == 4 * (quarter_nanos >> 2) + (quarter_nanos & 3)) by (bit_vector);
    assert((quarter_nanos & 3) << 30 == (quarter_nanos & 3) * 0x4000_0000) by (bit_vector);
    let nanos: u64 = (seconds as u64) * NANOS_PER_SEC + (whole as u64);
    Time::from_nanos_subnanos(nanos, part << 30)
}

/// Quarter nanoseconds survive the conversion: two timestamps with less than a
/// second of quarter nanoseconds each give the same protocol time only if they are
/// the same timestamp, and the later timestamp gives the later time.
pub proof fn time_from_keeps_quarter_nanos(a: Timestamp, b: Timestamp)
    requires
        a.quarter_nanos < 4 * NANOS_PER_SEC,
        b.quarter_nanos < 4 * NANOS_PER_SEC,
    ensures
        spec_time_from(a) == spec_time_from(b) ==> a == b,
        spec_time_from(a).bits < spec_time_from(b).bits <==> (a.seconds < b.seconds || a.seconds
            == b.seconds && a.quarter_nanos < b.quarter_nanos),
{
}

/// A deadline never falls before its duration is over, and falls less than one
/// tick after it. A duration of more nanoseconds than 64 bits hold is cut to the most
/// that they hold.
pub proof fn deadline_is_on_time(now: Instant, duration: CoreDuration)
    requires
        deadline_after(now, duration) is Ok,
    ensures
        ({
            let span = (deadline_after(now, duration)->Ok_0.ticks - now.ticks) * NANOS_PER_TICK;
            duration.clamped_nanos() <= span < duration.clamped_nanos() + NANOS_PER_TICK
        }),
{
}

/// A reading counts as given by the system clock only if a call of [`Instant::now`]
/// returned it, as it is.
pub(crate) proof fn readings_come_from_the_clock(now: Instant)
    ensures
        read_from_clock(now) == call_ensures(Instant::now, (), now),
{
}

/// Adding a span to an instant gives the instant that lies exactly that span later,
/// and gives one whenever it can be represented.
pub proof fn instants_add_up(start: Instant, span: EmbassyDuration, r: Option<Instant>)
    requires
        call_ensures(Instant::checked_add, (start, span), r),
    ensures
        r is Some <==> start.ticks + span.ticks <= 0xffff_ffff_ffff_ffff,
        r matches Some(later) ==> later.ticks - start.ticks == span.ticks,
{
}

/// The earlier of two instants is one of them and after neither.
pub proof fn min_is_the_earlier(a: Instant, b: Instant, r: Instant)
    requires
        call_ensures(Instant::min, (a, b), r),
    ensures
        r == a || r == b,
        r.ticks <= a.ticks,
        r.ticks <= b.ticks,
{
}

/// A duration has a billion nanoseconds for each of its seconds, and its nanoseconds
/// on top.
pub proof fn seconds_are_a_billion_nanoseconds(duration: CoreDuration, r: u128)
    requires
        call_ensures(CoreDuration::as_nanos, (duration,), r),
    ensures
        r - duration.nanos == duration.secs * 1_000_000_000,
{
}

/// The ticks of a duration are the fewest that cover its nanoseconds, at a thousand
/// nanoseconds each. A duration of more nanoseconds than 64 bits hold has as many ticks
/// as one of the most that they hold.
pub proof fn ticks_cover_the_duration(duration: CoreDuration, r: EmbassyDuration)
    requires
        call_ensures(CoreDuration::to_ticks, (duration,), r),
    ensures
        ({
            let length = duration.secs * 1_000_000_000 + duration.nanos;
            let most = 0xffff_ffff_ffff_ffffint;
            &&& length <= most ==> length <= r.ticks * 1_000 < length + 1_000
            &&& length > most ==> most <= r.ticks * 1_000 < most + 1_000
        }),
{
}

/// A deadline lies the whole duration after the clock reading that it was computed
/// from, and less than a tick more; the duration counts for at most as many nanoseconds
/// as 64 bits hold. There is no deadline, and an error, only if no instant is late
/// enough.
pub proof fn deadlines_are_a_duration_away(
    now: Instant,
    duration: CoreDuration,
    r: Result<Instant, ClockError>,
)
    requires
        call_ensures(deadline_from, (now, duration), r),
    ensures
        ({
            let nanos = duration.secs * 1_000_000_000 + duration.nanos;
            let length = if nanos <= 0xffff_ffff_ffff_ffff {
                nanos
            } else {
                0xffff_ffff_ffff_ffff
            };
            match r {
                Ok(deadline) => length <= (deadline.ticks - now.ticks) * 1_000 < length + 1_000,
                Err(error) => error is Overflow && (0xffff_ffff_ffff_ffff - now.ticks) * 1_000
                    < length,
            }
        }),
{
}

/// A deadline that is computed at the moment of the call lies the whole duration after
/// a reading of the system clock, and less than a tick more.
pub proof fn deadlines_from_now_are_a_duration_away(
    duration: CoreDuration,
    r: Result<Instant, ClockError>,
)
    requires
        call_ensures(deadline_from_now, (duration,), r),
    ensures
        ({
            let nanos = duration.secs * 1_000_000_000 + duration.nanos;
            let length = if nanos <= 0xffff_ffff_ffff_ffff {
                nanos
            } else {
                0xffff_ffff_ffff_ffff
            };
            exists|now: Instant| #[trigger]
                read_from_clock(now) && match r {
                    Ok(deadline) => length <= (deadline.ticks - now.ticks) * 1_000 < length + 1_000,
                    Err(error) => error is Overflow && (0xffff_ffff_ffff_ffff - now.ticks) * 1_000
                        < length,
                }
        }),
{
    let now = choose|now: Instant|
        read_from_clock(now) && r == #[trigger] deadline_after(now, duration);
    assert(read_from_clock(now));
}

/// A protocol time is its nanoseconds and the fraction below them: neither disturbs
/// the other.
pub proof fn nanoseconds_stand_above_the_fraction(nanos: u64, subnanos: u32, r: Time)
    requires
        call_ensures(Time::from_nanos_subnanos, (nanos, subnanos), r),
    ensures
        r.bits as int / 0x1_0000_0000 == nanos,
        r.bits as int % 0x1_0000_0000 == subnanos,
{
}

/// Differences are kept: two packet timestamps are as far apart in protocol time as they
/// are in quarter nanoseconds, of which each is 2^30 units of protocol time, and the
/// timestamp of zero is the origin.
pub proof fn time_differences_are_kept(a: Timestamp, b: Timestamp, time_a: Time, time_b: Time)
    requires
        call_ensures(time_from, (a,), time_a),
        call_ensures(time_from, (b,), time_b),
    ensures
        time_b.bits - time_a.bits == 0x4000_0000 * ((b.seconds - a.seconds) * 4_000_000_000 + (
        b.quarter_nanos - a.quarter_nanos)),
        a.seconds == 0 && a.quarter_nanos == 0 ==> time_a.bits == 0,
{
}

/// Clock readings are converted as packet timestamps are: differences are kept, and
/// zero is the origin.
pub proof fn clock_reading_differences_are_kept(
    a: (u32, u32),
    b: (u32, u32),
    time_a: Time,
    time_b: Time,
)
    requires
        call_ensures(time_from_parts, a, time_a),
        call_ensures(time_from_parts, b, time_b),
    ensures
        time_b.bits - time_a.bits == 0x4000_0000 * ((b.0 - a.0) * 4_000_000_000 + (b.1 - a.1)),
        a.0 == 0 && a.1 == 0 ==> time_a.bits == 0,
{
}

} // verus!
