//! Configuration of an ordinary clock, and what the protocol is configured with.

use vstd::prelude::*;

use crate::time::{Duration, EmbassyDuration, Interval};

verus! {

/// How long to wait for a transmit timestamp by default, in milliseconds.
pub const TX_TIMESTAMP_TIMEOUT_MILLIS: u64 = 100;

/// Accuracy and stability of a clock.
#[derive(Clone, Copy, Debug, PartialEq, Eq, Structural)]
pub struct ClockQuality {
    /// PTP clock class.
    pub clock_class: u8,
    /// Clock accuracy, as the number that PTP messages carry.
    pub clock_accuracy: u8,
    /// Scaled logarithm of the clock's variance.
    pub offset_scaled_log_variance: u16,
}

impl ClockQuality {
    /// Quality of a clock about which nothing is known: the PTP default class,
    /// unknown accuracy and a variance of 2^-23 square seconds.
    pub open spec fn unknown() -> ClockQuality {
        ClockQuality {
            clock_class: 248,
            clock_accuracy: 0xfe,
            offset_scaled_log_variance: (0x8000 - 23 * 256) as u16,
        }
    }

    /// The quality that `statime` assumes of a clock about which nothing is known.
    ///
    /// Calls `statime::config::ClockQuality::default`, which is
    /// [`unknown`](Self::unknown), and turns the accuracy into its number with
    /// `ClockAccuracy::to_primitive`.
    #[verifier::external_body]
    fn statime_default() -> (r: ClockQuality)
        ensures
            r == Self::unknown(),
    {
        let quality = statime::config::ClockQuality::default();
        ClockQuality {
            clock_class: quality.clock_class,
            clock_accuracy: quality.clock_accuracy.to_primitive(),
            offset_scaled_log_variance: quality.offset_scaled_log_variance,
        }
    }
}

impl Default for ClockQuality {
    /// Quality of a clock about which nothing is known.
    fn default() -> (r: Self)
        ensures
            r == Self::unknown(),
    {
        Self::statime_default()
    }
}

/// Upcoming leap seconds.
#[derive(Clone, Copy, Debug, PartialEq, Eq, Structural)]
pub enum LeapIndicator {
    /// None on this UTC day.
    NoLeap,
    /// The last minute of this UTC day has 61 seconds.
    Leap61,
    /// The last minute of this UTC day has 59 seconds.
    Leap59,
}

/// Where a clock has its time from.
#[derive(Clone, Copy, Debug, PartialEq, Eq, Structural)]
pub enum TimeSource {
    /// An atomic clock.
    AtomicClock,
    /// Satellite navigation.
    Gnss,
    /// Radio.
    TerrestrialRadio,
    /// A serial time code.
    SerialTimeCode,
    /// PTP.
    Ptp,
    /// NTP.
    Ntp,
    /// Set by hand.
    HandSet,
    /// Another source.
    Other,
    /// The clock's own oscillator.
    InternalOscillator,
    /// Specific to a profile.
    ProfileSpecific(u8),
    /// Reserved.
    Reserved,
    /// Not known.
    Unknown(u8),
}

/// Properties of a clock's timescale.
#[derive(Clone, Copy, Debug, PartialEq, Eq)]
pub struct TimePropertiesDS {
    /// Offset between UTC and TAI in seconds.
    pub current_utc_offset: Option<i16>,
    /// Upcoming leap seconds.
    pub leap_indicator: LeapIndicator,
    /// Whether the time is traceable to a primary reference.
    pub time_traceable: bool,
    /// Whether the frequency is traceable to a primary reference.
    pub frequency_traceable: bool,
    /// Whether the timescale is that of PTP.
    pub ptp_timescale: bool,
    /// Where the time comes from.
    pub time_source: TimeSource,
}

impl TimePropertiesDS {
    /// Properties of a timescale that has nothing to do with UTC.
    pub open spec fn arbitrary(
        time_traceable: bool,
        frequency_traceable: bool,
        time_source: TimeSource,
    ) -> TimePropertiesDS {
        TimePropertiesDS {
            current_utc_offset: None,
            leap_indicator: LeapIndicator::NoLeap,
            time_traceable,
            frequency_traceable,
            ptp_timescale: false,
            time_source,
        }
    }

    /// Properties of a timescale that has nothing to do with UTC.
    pub fn new_arbitrary_time(
        time_traceable: bool,
        frequency_traceable: bool,
        time_source: TimeSource,
    ) -> (r: Self)
        ensures
            r == Self::arbitrary(time_traceable, frequency_traceable, time_source),
    {
        TimePropertiesDS {
            current_utc_offset: None,
            leap_indicator: LeapIndicator::NoLeap,
            time_traceable,
            frequency_traceable,
            ptp_timescale: false,
            time_source,
        }
    }
}

/// Minor version of PTP version 2.
#[derive(Clone, Copy, Debug, PartialEq, Eq, Structural)]
pub enum PtpMinorVersion {
    /// Version 2.0.
    Zero,
    /// Version 2.1.
    One,
}

/// Configuration for one PTP ordinary-clock runner.
#[non_exhaustive]
#[derive(Clone, Copy, Debug, PartialEq, Eq)]
pub struct Config {
    /// Ethernet MAC address used to derive the PTP clock identity.
    pub mac_address: [u8; 6],
    /// Seed for statime's per-port random number generator.
    pub rng_seed: u64,
    /// PTP domain number accepted and transmitted by this ordinary clock.
    pub domain_number: u8,
    /// Best master clock algorithm priority1 value.
    pub priority_1: u8,
    /// Best master clock algorithm priority2 value.
    pub priority_2: u8,
    /// Keep this clock out of master state.
    pub slave_only: bool,
    /// Accuracy and stability advertised when this clock becomes master.
    pub clock_quality: ClockQuality,
    /// Logarithmic E2E delay request interval.
    pub delay_request_interval: Interval,
    /// Logarithmic announce interval.
    pub announce_interval: Interval,
    /// Logarithmic sync interval.
    pub sync_interval: Interval,
    /// Number of missed announces before announce receipt timeout.
    pub announce_receipt_timeout: u8,
    /// Static path delay asymmetry correction.
    pub delay_asymmetry: Duration,
    /// PTP v2 minor version used by the statime port.
    pub minor_ptp_version: PtpMinorVersion,
    /// Time properties advertised by this clock when it becomes master.
    pub time_properties: TimePropertiesDS,
    /// Maximum time to wait for a hardware transmit timestamp.
    /// Also bounds waiting for send capacity; protocol deadlines may shorten it.
    pub tx_timestamp_timeout: EmbassyDuration,
}

/// The identity of a PTP clock.
#[derive(Clone, Copy, Debug, PartialEq, Eq)]
pub struct ClockIdentity(pub [u8; 8]);

/// What a PTP instance is configured with.
#[derive(Clone, Copy, Debug, PartialEq, Eq)]
pub struct InstanceConfig {
    /// Identity of the clock.
    pub clock_identity: ClockIdentity,
    /// Best master clock algorithm priority1 value.
    pub priority_1: u8,
    /// Best master clock algorithm priority2 value.
    pub priority_2: u8,
    /// PTP domain number.
    pub domain_number: u8,
    /// PTP standards organisation identifier.
    pub sdo_id: u16,
    /// Whether the clock never becomes master.
    pub slave_only: bool,
    /// Whether announce messages record the path that they took.
    pub path_trace: bool,
    /// Accuracy and stability of the clock.
    pub clock_quality: ClockQuality,
}

/// How the delay to the master is measured.
#[derive(Clone, Copy, Debug, PartialEq, Eq, Structural)]
pub enum DelayMechanism {
    /// End to end.
    E2E {
        /// Time between two delay requests.
        interval: Interval,
    },
    /// Peer to peer.
    P2P {
        /// Time between two peer delay requests.
        interval: Interval,
    },
}

/// What a PTP port is configured with. The port accepts any master.
#[derive(Clone, Copy, Debug, PartialEq, Eq, Structural)]
pub struct PortConfig {
    /// How the delay to the master is measured.
    pub delay_mechanism: DelayMechanism,
    /// Time between two announce messages.
    pub announce_interval: Interval,
    /// Number of missed announces before announce receipt timeout.
    pub announce_receipt_timeout: u8,
    /// Time between two sync messages.
    pub sync_interval: Interval,
    /// Whether the port never becomes slave.
    pub master_only: bool,
    /// Static path delay asymmetry correction.
    pub delay_asymmetry: Duration,
    /// PTP v2 minor version.
    pub minor_ptp_version: PtpMinorVersion,
}

impl Config {
    /// Create a slave-only ordinary-clock configuration for `mac_address`.
    ///
    /// The MAC address defines the clock identity and `rng_seed` seeds
    /// statime's per-port random scheduling.
    pub fn new(mac_address: [u8; 6], rng_seed: u64) -> (r: Self)
        ensures
            r.mac_address == mac_address,
            r.rng_seed == rng_seed,
            r.domain_number == 0,
            r.priority_1 == 128,
            r.priority_2 == 128,
            r.slave_only,
            r.clock_quality == ClockQuality::unknown(),
            r.delay_request_interval == (Interval { log_2: 0 }),
            r.announce_interval == (Interval { log_2: 0 }),
            r.sync_interval == (Interval { log_2: 0 }),
            r.announce_receipt_timeout == 3,
            r.delay_asymmetry == (Duration { bits: 0 }),
            r.minor_ptp_version == PtpMinorVersion::Zero,
            r.time_properties == TimePropertiesDS::arbitrary(
                false,
                false,
                TimeSource::InternalOscillator,
            ),
            r.tx_timestamp_timeout == (EmbassyDuration { ticks: 100_000 }),
    {
        Config {
            mac_address,
            rng_seed,
            domain_number: 0,
            priority_1: 128,
            priority_2: 128,
            slave_only: true,
            clock_quality: ClockQuality::default(),
            delay_request_interval: Interval { log_2: 0 },
            announce_interval: Interval { log_2: 0 },
            sync_interval: Interval { log_2: 0 },
            announce_receipt_timeout: 3,
            delay_asymmetry: Duration { bits: 0 },
            minor_ptp_version: PtpMinorVersion::Zero,
            time_properties: TimePropertiesDS::new_arbitrary_time(
                false,
                false,
                TimeSource::InternalOscillator,
            ),
            tx_timestamp_timeout: EmbassyDuration::from_millis(TX_TIMESTAMP_TIMEOUT_MILLIS),
        }
    }

    /// What the PTP instance is configured with: the identity comes from the MAC
    /// address, the standards organisation is none in particular and the path is not
    /// traced; all else is as configured.
    pub fn instance_config(&self) -> (r: InstanceConfig)
        ensures
            r.clock_identity.0@ == eui64(self.mac_address@),
            r.priority_1 == self.priority_1,
            r.priority_2 == self.priority_2,
            r.domain_number == self.domain_number,
            r.sdo_id == 0,
            r.slave_only == self.slave_only,
            !r.path_trace,
            r.clock_quality == self.clock_quality,
    {
        InstanceConfig {
            clock_identity: clock_identity_from_mac(self.mac_address),
            priority_1: self.priority_1,
            priority_2: self.priority_2,
            domain_number: self.domain_number,
            sdo_id: 0,
            slave_only: self.slave_only,
            path_trace: false,
            clock_quality: self.clock_quality,
        }
    }

    /// What the PTP port is configured with: delays are measured end to end and the
    /// port may become slave; all else is as configured.
    pub fn port_config(&self) -> (r: PortConfig)
        ensures
            r == (PortConfig {
                delay_mechanism: DelayMechanism::E2E { interval: self.delay_request_interval },
                announce_interval: self.announce_interval,
                announce_receipt_timeout: self.announce_receipt_timeout,
                sync_interval: self.sync_interval,
                master_only: false,
                delay_asymmetry: self.delay_asymmetry,
                minor_ptp_version: self.minor_ptp_version,
            }),
    {
        PortConfig {
            delay_mechanism: DelayMechanism::E2E { interval: self.delay_request_interval },
            announce_interval: self.announce_interval,
            announce_receipt_timeout: self.announce_receipt_timeout,
            sync_interval: self.sync_interval,
            master_only: false,
            delay_asymmetry: self.delay_asymmetry,
            minor_ptp_version: self.minor_ptp_version,
        }
    }
}

/// The IEEE EUI-64 expansion of a MAC address: `ff:fe` between its two halves.
pub open spec fn eui64(mac: Seq<u8>) -> Seq<u8> {
    mac.subrange(0, 3) + seq![0xffu8, 0xfeu8] + mac.subrange(3, 6)
}

/// The identity of the clock with this MAC address: its IEEE EUI-64 expansion.
pub fn clock_identity_from_mac(mac: [u8; 6]) -> (r: ClockIdentity)
    ensures
        r.0@ == eui64(mac@),
{
    let r = ClockIdentity([mac[0], mac[1], mac[2], 0xff, 0xfe, mac[3], mac[4], mac[5]]);
    assert(r.0@ =~= eui64(mac@));
    r
}

/// Clocks with different MAC addresses have different identities.
pub proof fn clock_identities_are_distinct(a: Seq<u8>, b: Seq<u8>)
    requires
        a.len() == 6,
        b.len() == 6,
        eui64(a) == eui64(b),
    ensures
        a == b,
{
    assert forall|i: int| 0 <= i < 6 implies a[i] == b[i] by {
        let j = if i < 3 {
            i
        } else {
            i + 2
        };
        assert(eui64(a)[j] == a[i]);
        assert(eui64(b)[j] == b[i]);
    }
    assert(a =~= b);
}

/// A clock of unknown quality has class 248, accuracy 0xfe and a scaled logarithm of its
/// variance that is 23 steps of 256 below 0x8000.
pub proof fn unknown_quality_is_that_of_ptp(r: ClockQuality)
    requires
        call_ensures(<ClockQuality as Default>::default, (), r),
    ensures
        r.clock_class == 248,
        r.clock_accuracy == 254,
        r.offset_scaled_log_variance == 26_880,
{
}

/// A timescale that has nothing to do with UTC has no offset to it, no leap seconds and
/// is not that of PTP; the rest is as given.
pub proof fn arbitrary_timescale_is_not_utc(
    time_traceable: bool,
    frequency_traceable: bool,
    time_source: TimeSource,
    r: TimePropertiesDS,
)
    requires
        call_ensures(
            TimePropertiesDS::new_arbitrary_time,
            (time_traceable, frequency_traceable, time_source),
            r,
        ),
    ensures
        r.current_utc_offset is None,
        r.leap_indicator is NoLeap,
        !r.ptp_timescale,
        r.time_traceable == time_traceable,
        r.frequency_traceable == frequency_traceable,
        r.time_source == time_source,
{
}

/// A new configuration keeps its address and its seed, is that of a slave of unknown
/// quality in domain zero with middle priorities, paces every message at one second, and
/// gives a transmit timestamp a tenth of a second, at a million ticks each second.
pub proof fn new_configuration_is_slave_only(mac_address: [u8; 6], rng_seed: u64, r: Config)
    requires
        call_ensures(Config::new, (mac_address, rng_seed), r),
    ensures
        r.mac_address == mac_address,
        r.rng_seed == rng_seed,
        r.slave_only,
        r.domain_number == 0,
        r.priority_1 == 128 && r.priority_2 == 128,
        r.delay_request_interval.log_2 == 0,
        r.announce_interval.log_2 == 0,
        r.sync_interval.log_2 == 0,
        r.announce_receipt_timeout == 3,
        r.delay_asymmetry.bits == 0,
        r.minor_ptp_version is Zero,
        r.clock_quality.clock_class == 248,
        r.clock_quality.clock_accuracy == 254,
        r.clock_quality.offset_scaled_log_variance == 26_880,
        r.time_properties.current_utc_offset is None,
        r.time_properties.leap_indicator is NoLeap,
        !r.time_properties.time_traceable,
        !r.time_properties.frequency_traceable,
        !r.time_properties.ptp_timescale,
        r.time_properties.time_source is InternalOscillator,
        r.tx_timestamp_timeout.ticks * 10 == 1_000_000,
{
}

/// The PTP instance takes over what is configured: its identity is the MAC address with
/// ff:fe between its halves, and it belongs to no organisation and traces no path.
pub proof fn instance_takes_over_the_configuration(config: Config, r: InstanceConfig)
    requires
        call_ensures(Config::instance_config, (&config,), r),
    ensures
        forall|i: int| 0 <= i < 3 ==> #[trigger] r.clock_identity.0@[i] == config.mac_address@[i],
        r.clock_identity.0@[3] == 0xff && r.clock_identity.0@[4] == 0xfe,
        forall|i: int|
            3 <= i < 6 ==> r.clock_identity.0@[i + 2] == #[trigger] config.mac_address@[i],
        r.priority_1 == config.priority_1,
        r.priority_2 == config.priority_2,
        r.domain_number == config.domain_number,
        r.slave_only == config.slave_only,
        r.clock_quality == config.clock_quality,
        r.sdo_id == 0,
        !r.path_trace,
{
}

/// The PTP port takes over what is configured, measures delays end to end and may become
/// slave.
pub proof fn port_takes_over_the_configuration(config: Config, r: PortConfig)
    requires
        call_ensures(Config::port_config, (&config,), r),
    ensures
        r.delay_mechanism is E2E,
        r.delay_mechanism->E2E_interval == config.delay_request_interval,
        r.announce_interval == config.announce_interval,
        r.announce_receipt_timeout == config.announce_receipt_timeout,
        r.sync_interval == config.sync_interval,
        !r.master_only,
        r.delay_asymmetry == config.delay_asymmetry,
        r.minor_ptp_version == config.minor_ptp_version,
{
}

/// The identity of a clock has the first half of its MAC address before ff:fe and the
/// second half behind it, so that clocks with different addresses differ.
pub proof fn identity_holds_the_whole_address(
    a: [u8; 6],
    b: [u8; 6],
    identity_a: ClockIdentity,
    identity_b: ClockIdentity,
)
    requires
        call_ensures(clock_identity_from_mac, (a,), identity_a),
        call_ensures(clock_identity_from_mac, (b,), identity_b),
    ensures
        forall|i: int| 0 <= i < 3 ==> #[trigger] identity_a.0@[i] == a@[i],
        identity_a.0@[3] == 0xff && identity_a.0@[4] == 0xfe,
        forall|i: int| 3 <= i < 6 ==> identity_a.0@[i + 2] == #[trigger] a@[i],
        identity_a.0@ == identity_b.0@ ==> a@ == b@,
{
    if identity_a.0@ == identity_b.0@ {
        clock_identities_are_distinct(a@, b@);
    }
}

} // verus!
