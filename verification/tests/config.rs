use statime_embassy_net::config::{
    clock_identity_from_mac, ClockIdentity, ClockQuality, Config, DelayMechanism, LeapIndicator,
    PtpMinorVersion, TimePropertiesDS, TimeSource,
};
use statime_embassy_net::error::{BindError, MulticastError, RunError};
use statime_embassy_net::monitor::{after_set_properties, after_step_clock, MonitorUpdate};
use statime_embassy_net::net::{multicast_endpoint, Group, Ipv4Addr, SocketAddr};
use statime_embassy_net::state::{state_name, PortState};
use statime_embassy_net::time::{Duration, EmbassyDuration, Interval};

const MAC: [u8; 6] = [0x02, 0x11, 0x22, 0x33, 0x44, 0x55];

#[test]
fn default_configuration_is_slave_only() {
    let config = Config::new(MAC, 42);
    assert_eq!(config.mac_address, MAC);
    assert_eq!(config.rng_seed, 42);
    assert_eq!(config.domain_number, 0);
    assert_eq!((config.priority_1, config.priority_2), (128, 128));
    assert!(config.slave_only);
    for interval in [config.delay_request_interval, config.announce_interval, config.sync_interval] {
        assert_eq!(interval, Interval { log_2: 0 });
    }
    assert_eq!(config.announce_receipt_timeout, 3);
    assert_eq!(config.delay_asymmetry, Duration { bits: 0 });
    assert_eq!(
        statime::time::Duration::ZERO.nanos().to_bits(),
        config.delay_asymmetry.bits
    );
    assert_eq!(config.minor_ptp_version, PtpMinorVersion::Zero);
    assert_eq!(config.tx_timestamp_timeout, EmbassyDuration { ticks: 100_000 });
}

#[test]
fn default_quality_is_that_of_statime() {
    let quality = ClockQuality::default();
    assert_eq!(quality.clock_class, 248);
    assert_eq!(quality.clock_accuracy, 0xfe);
    assert_eq!(quality.offset_scaled_log_variance, 26_880);
    assert_eq!(Config::new(MAC, 1).clock_quality, quality);
}

#[test]
fn default_timescale_is_arbitrary() {
    let properties = Config::new(MAC, 1).time_properties;
    assert_eq!(
        properties,
        TimePropertiesDS {
            current_utc_offset: None,
            leap_indicator: LeapIndicator::NoLeap,
            time_traceable: false,
            frequency_traceable: false,
            ptp_timescale: false,
            time_source: TimeSource::InternalOscillator,
        }
    );
    assert_eq!(
        TimePropertiesDS::new_arbitrary_time(true, false, TimeSource::Gnss).time_source,
        TimeSource::Gnss
    );
}

#[test]
fn identity_is_the_eui64_expansion() {
    assert_eq!(
        clock_identity_from_mac(MAC),
        ClockIdentity([0x02, 0x11, 0x22, 0xff, 0xfe, 0x33, 0x44, 0x55])
    );
    assert_ne!(
        clock_identity_from_mac(MAC).0,
        statime::config::ClockIdentity::from_mac_address(MAC).0
    );
}

#[test]
fn identities_differ_where_addresses_do() {
    for place in 0..6 {
        let mut other = MAC;
        other[place] ^= 1;
        assert_ne!(clock_identity_from_mac(MAC), clock_identity_from_mac(other));
    }
}

#[test]
fn instance_and_port_follow_the_configuration() {
    let mut config = Config::new(MAC, 1);
    config.domain_number = 5;
    config.priority_1 = 10;
    config.priority_2 = 20;
    config.slave_only = false;
    config.delay_request_interval = Interval { log_2: -2 };
    config.announce_interval = Interval { log_2: 1 };
    config.sync_interval = Interval { log_2: -3 };
    config.announce_receipt_timeout = 4;
    config.delay_asymmetry = Duration { bits: -7 };
    config.minor_ptp_version = PtpMinorVersion::One;
    let instance = config.instance_config();
    assert_eq!(instance.clock_identity, clock_identity_from_mac(MAC));
    assert_eq!(instance.domain_number, 5);
    assert_eq!((instance.priority_1, instance.priority_2), (10, 20));
    assert_eq!(instance.sdo_id, 0);
    assert!(!instance.slave_only);
    assert!(!instance.path_trace);
    assert_eq!(instance.clock_quality, config.clock_quality);
    let port = config.port_config();
    assert_eq!(
        port.delay_mechanism,
        DelayMechanism::E2E {
            interval: Interval { log_2: -2 },
        }
    );
    assert_eq!(port.announce_interval, Interval { log_2: 1 });
    assert_eq!(port.sync_interval, Interval { log_2: -3 });
    assert_eq!(port.announce_receipt_timeout, 4);
    assert!(!port.master_only);
    assert_eq!(port.delay_asymmetry, Duration { bits: -7 });
    assert_eq!(port.minor_ptp_version, PtpMinorVersion::One);
}

#[test]
fn errors_read_well() {
    assert_eq!(
        RunError::Socket { port: 319 }.message(),
        "no UDP socket available for PTP port 319"
    );
    assert_eq!(
        RunError::Multicast {
            address: Ipv4Addr { a: 224, b: 0, c: 1, d: 129 },
            source: MulticastError::GroupTableFull,
        }
        .message(),
        "joining PTP multicast group 224.0.1.129: GroupTableFull"
    );
    assert_eq!(
        RunError::Bind {
            port: 320,
            source: BindError::InvalidState,
        }
        .message(),
        "binding PTP UDP port 320: InvalidState"
    );
    assert_eq!(
        RunError::Bind {
            port: 65_535,
            source: BindError::NoRoute,
        }
        .message(),
        "binding PTP UDP port 65535: NoRoute"
    );
}

#[test]
fn error_names_are_those_of_the_stack() {
    assert_eq!(
        MulticastError::Unaddressable.name(),
        embassy_net::MulticastError::Unaddressable.to_string()
    );
    assert_eq!(
        BindError::NoRoute.name(),
        format!("{:?}", embassy_net::udp::BindError::NoRoute)
    );
}

#[test]
fn only_a_failed_join_has_a_source() {
    let join = RunError::Multicast {
        address: Ipv4Addr { a: 224, b: 0, c: 0, d: 107 },
        source: MulticastError::Unaddressable,
    };
    assert_eq!(join.source(), Some(MulticastError::Unaddressable));
    assert_eq!(RunError::Socket { port: 319 }.source(), None);
    let bind = RunError::Bind {
        port: 319,
        source: BindError::NoRoute,
    };
    assert_eq!(bind.source(), None);
}

#[test]
fn endpoints_follow_the_scope() {
    assert_eq!(
        multicast_endpoint(319, false),
        SocketAddr {
            address: Ipv4Addr { a: 224, b: 0, c: 1, d: 129 },
            port: 319,
        }
    );
    assert_eq!(
        multicast_endpoint(320, true),
        SocketAddr {
            address: Group::LinkLocal.address(),
            port: 320,
        }
    );
}

#[test]
fn states_have_names() {
    for (state, name) in [
        (PortState::Initializing, "initializing"),
        (PortState::Faulty, "faulty"),
        (PortState::Disabled, "disabled"),
        (PortState::Listening, "listening"),
        (PortState::PreMaster, "pre_master"),
        (PortState::Master, "master"),
        (PortState::Passive, "passive"),
        (PortState::Uncalibrated, "uncalibrated"),
        (PortState::Slave, "slave"),
    ] {
        assert_eq!(state_name(state), name);
    }
}

#[test]
fn monitor_hears_of_what_went_through() {
    assert_eq!(after_step_clock(true, true), Some(MonitorUpdate::Unavailable));
    assert_eq!(after_step_clock(true, false), None);
    assert_eq!(after_step_clock(false, true), None);
    assert_eq!(
        after_set_properties(true, true, true),
        Some(MonitorUpdate::PtpTimescale(true))
    );
    assert_eq!(after_set_properties(true, false, true), None);
    assert_eq!(after_set_properties(false, true, true), None);
}
