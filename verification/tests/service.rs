use rand_core::SeedableRng;
use rand_xorshift::XorShiftRng;
use statime::config::{
    AcceptAnyMaster, ClockIdentity, DelayMechanism, InstanceConfig, PortConfig, PtpMinorVersion,
    TimePropertiesDS, TimeSource,
};
use statime::filters::BasicFilter;
use statime::port::TimestampContext;
use statime::time::{Duration, Interval, Time};
use statime::PtpInstance;
use statime_embassy_net::config::Config;
use statime_embassy_net::error::RecvError;
use statime_embassy_net::monitor::MonitorUpdate;
use statime_embassy_net::net::{Ipv4Addr, SocketAddr, UdpMetadata};
use statime_embassy_net::packet::{PacketIdGenerator, PacketMeta, RecvPacket};
use statime_embassy_net::pending::PendingTxQueue;
use statime_embassy_net::port_io::{
    Incoming, IoRequest, Polled, PortAction, PortIo, ReceiveProblem, ReceiveStep,
};
use statime_embassy_net::runner::{Afterwards, Decision, Run, Runner, WaitOutcome};
use statime_embassy_net::setup::{JoinedGroups, Setup, SetupStep, SocketKind};
use statime_embassy_net::state::PortState;
use statime_embassy_net::time::{
    time_from, ClockError, CoreDuration, EmbassyDuration, Instant, Timestamp, TxTimestamp,
};
use statime_embassy_net::timers::StatimeTimer;

struct StoppedClock;

impl statime::Clock for StoppedClock {
    type Error = ();

    fn now(&self) -> Time {
        Time::from_nanos(0)
    }

    fn step_clock(&mut self, _offset: Duration) -> Result<Time, ()> {
        Ok(self.now())
    }

    fn set_frequency(&mut self, _ppm: f64) -> Result<Time, ()> {
        Ok(self.now())
    }

    fn set_properties(&mut self, _properties: &TimePropertiesDS) -> Result<(), ()> {
        Ok(())
    }
}

/// Contexts of the first sync messages that a master port sends.
fn contexts(count: usize) -> Vec<TimestampContext> {
    let instance = PtpInstance::<BasicFilter>::new(
        InstanceConfig {
            clock_identity: ClockIdentity([1; 8]),
            priority_1: 128,
            priority_2: 128,
            domain_number: 0,
            sdo_id: Default::default(),
            slave_only: false,
            path_trace: false,
        },
        TimePropertiesDS::new_arbitrary_time(false, false, TimeSource::InternalOscillator),
    );
    let port = instance.add_port(
        PortConfig {
            acceptable_master_list: AcceptAnyMaster,
            delay_mechanism: DelayMechanism::E2E {
                interval: Interval::from_log_2(0),
            },
            announce_interval: Interval::from_log_2(0),
            announce_receipt_timeout: 3,
            sync_interval: Interval::from_log_2(0),
            master_only: false,
            delay_asymmetry: Duration::ZERO,
            minor_ptp_version: PtpMinorVersion::Zero,
        },
        0.1,
        StoppedClock,
        XorShiftRng::seed_from_u64(1),
    );
    let (mut port, _) = port.end_bmca();
    let _ = port.handle_announce_receipt_timer().count();
    let mut found = Vec::new();
    while found.len() < count {
        for action in port.handle_sync_timer() {
            if let statime::port::PortAction::SendEvent { context, .. } = action {
                found.push(context);
            }
        }
    }
    found
}

fn context() -> TimestampContext {
    contexts(1).pop().unwrap()
}

fn at(ticks: u64) -> Instant {
    Instant { ticks }
}

fn micros(count: u32) -> CoreDuration {
    CoreDuration {
        secs: 0,
        nanos: count * 1_000,
    }
}

const SECOND: CoreDuration = CoreDuration { secs: 1, nanos: 0 };

fn finished() -> Setup {
    Setup {
        step: SetupStep::Finished,
        joined: JoinedGroups {
            primary: false,
            link_local: false,
        },
    }
}

fn idle_io(timeout: u64) -> PortIo {
    PortIo::new(finished(), EmbassyDuration { ticks: timeout })
}

fn event(data: &[u8]) -> PortAction<'_> {
    PortAction::SendEvent {
        context: context(),
        data,
        link_local: false,
    }
}

fn shown(context: &Option<TimestampContext>) -> String {
    format!("{context:?}")
}

#[test]
fn timestamps_find_their_packets() {
    let mut queue = PendingTxQueue::new(EmbassyDuration { ticks: 10 });
    let expected: Vec<String> = contexts(3).into_iter().map(|c| shown(&Some(c))).collect();
    assert_ne!(expected[0], expected[1]);
    for (index, context) in contexts(3).into_iter().enumerate() {
        assert!(queue.push_at(at(0), context, 7 + index as u32));
    }
    assert_eq!(shown(&queue.take(8)), expected[1]);
    assert_eq!(shown(&queue.take(8)), "None");
    assert_eq!(shown(&queue.take(7)), expected[0]);
    assert_eq!(shown(&queue.take(9)), expected[2]);
    assert_eq!(queue.next_timeout_deadline(), None);
}

#[test]
fn first_of_equal_ids_is_found() {
    let mut queue = PendingTxQueue::new(EmbassyDuration { ticks: 10 });
    let expected: Vec<String> = contexts(2).into_iter().map(|c| shown(&Some(c))).collect();
    for context in contexts(2) {
        assert!(queue.push_at(at(0), context, 5));
    }
    assert_eq!(shown(&queue.take(5)), expected[0]);
    assert_eq!(shown(&queue.take(5)), expected[1]);
}

#[test]
fn full_queue_refuses_packets() {
    let mut queue = PendingTxQueue::new(EmbassyDuration { ticks: 10 });
    for id in 1..5 {
        assert!(!queue.full());
        assert!(queue.push_at(at(id), context(), id as u32));
    }
    assert!(queue.full());
    assert!(!queue.push_at(at(5), context(), 5));
    assert_eq!(shown(&queue.take(5)), "None");
    assert!(queue.take(2).is_some());
    assert!(queue.push_at(at(6), context(), 6));
    assert_eq!(queue.next_timeout_deadline(), Some(at(11)));
}

#[test]
fn waits_end_after_the_timeout() {
    let mut queue = PendingTxQueue::new(EmbassyDuration { ticks: 10 });
    assert!(queue.push_at(at(100), context(), 1));
    assert!(queue.push_at(at(103), context(), 2));
    assert_eq!(queue.next_timeout_deadline(), Some(at(110)));
    assert_eq!(queue.expire_at(at(109)), Ok(vec![]));
    assert_eq!(queue.expire_at(at(110)), Ok(vec![1]));
    assert_eq!(queue.next_timeout_deadline(), Some(at(113)));
    queue.sent_at(at(108), 2);
    queue.sent_at(at(500), 9);
    assert_eq!(queue.next_timeout_deadline(), Some(at(118)));
    assert!(queue.push_at(at(105), context(), 3));
    assert_eq!(queue.expire_at(at(200)), Ok(vec![3, 2]));
    assert_eq!(queue.next_timeout_deadline(), None);
}

#[test]
fn backward_clock_changes_nothing() {
    let mut queue = PendingTxQueue::new(EmbassyDuration { ticks: 10 });
    assert!(queue.push_at(at(100), context(), 1));
    assert_eq!(queue.expire_at(at(99)), Err(ClockError::Backwards));
    assert!(queue.take(1).is_some());
}

#[test]
fn queue_follows_the_clock() {
    let mut queue = PendingTxQueue::new(EmbassyDuration { ticks: 1_000_000_000 });
    let start = embassy_time::Instant::now().as_ticks();
    assert!(queue.push(context(), 1));
    assert!(queue.next_timeout_deadline().unwrap().ticks >= start + 1_000_000_000);
    assert_eq!(queue.expire(), Ok(vec![]));
    queue.sent(1);
    assert!(queue.next_timeout_deadline().unwrap().ticks >= start + 1_000_000_000);
    assert!(queue.take(1).is_some());
    let mut hasty = PendingTxQueue::new(EmbassyDuration { ticks: 0 });
    assert!(hasty.push(context(), 4));
    assert_eq!(hasty.expire(), Ok(vec![4]));
}

#[test]
fn event_packets_are_sent_and_wait() {
    let mut io = idle_io(50);
    let mut ids = PacketIdGenerator::new();
    let data = [1, 2, 3];
    match io.handle_at(at(100), event(&data), at(1_000), &mut ids, false) {
        Ok(IoRequest::SendEvent {
            data: sent,
            metadata,
            deadline,
        }) => {
            assert_eq!(sent, data);
            assert_eq!(deadline, at(150));
            assert_eq!(
                metadata,
                UdpMetadata {
                    remote_addr: SocketAddr {
                        address: Ipv4Addr { a: 224, b: 0, c: 1, d: 129 },
                        port: 319,
                    },
                    local_addr: None,
                    meta: PacketMeta {
                        id: 1,
                        timestamp: None,
                        request_timestamp: true,
                    },
                }
            );
        }
        other => panic!("{other:?}"),
    }
    assert_eq!(io.event_sent_at(at(120), 1, true), Ok(()));
    assert_eq!(io.next_deadline(at(1_000)), at(170));
    assert_eq!(io.event_sent_at(at(121), 1, false), Ok(()));
    assert_eq!(io.next_deadline(at(1_000)), at(1_000));
}

#[test]
fn full_queue_uses_up_an_id_and_sends_nothing() {
    let mut io = idle_io(50);
    let mut ids = PacketIdGenerator::new();
    for _ in 0..4 {
        assert!(matches!(
            io.handle_at(at(1), event(&[0]), at(9), &mut ids, false),
            Ok(IoRequest::SendEvent { .. })
        ));
    }
    assert!(matches!(
        io.handle_at(at(1), event(&[0]), at(9), &mut ids, false),
        Ok(IoRequest::QueueFull { packet_id: 5 })
    ));
    assert_eq!(ids.next().id, 6);
}

#[test]
fn general_packets_are_sent_without_an_id() {
    let mut io = idle_io(50);
    let mut ids = PacketIdGenerator::new();
    let action = PortAction::SendGeneral {
        data: &[9],
        link_local: true,
    };
    match io.handle_at(at(100), action, at(120), &mut ids, false) {
        Ok(IoRequest::SendGeneral {
            data,
            metadata,
            deadline,
        }) => {
            assert_eq!(data, [9]);
            assert_eq!(deadline, at(120));
            assert_eq!(metadata.meta, PacketMeta::default());
            assert_eq!(metadata.remote_addr.port, 320);
            assert_eq!(
                metadata.remote_addr.address,
                Ipv4Addr { a: 224, b: 0, c: 0, d: 107 }
            );
        }
        other => panic!("{other:?}"),
    }
    let action = PortAction::SendGeneral {
        data: &[9],
        link_local: false,
    };
    assert!(matches!(
        io.handle_at(at(100), action, at(1_000), &mut ids, false),
        Ok(IoRequest::SendGeneral { deadline, .. }) if deadline == at(150)
    ));
    assert_eq!(ids.next().id, 1);
}

#[test]
fn send_that_could_not_time_out_is_refused() {
    let mut io = idle_io(50);
    let mut ids = PacketIdGenerator::new();
    let late = at(u64::MAX - 49);
    assert!(matches!(
        io.handle_at(late, event(&[0]), late, &mut ids, false),
        Err(ClockError::Overflow)
    ));
    let action = PortAction::SendGeneral {
        data: &[],
        link_local: false,
    };
    assert!(matches!(
        io.handle_at(late, action, late, &mut ids, false),
        Err(ClockError::Overflow)
    ));
    assert!(matches!(
        io.handle_at(at(u64::MAX - 50), event(&[0]), late, &mut ids, false),
        Ok(IoRequest::SendEvent { .. })
    ));
    assert_eq!(io.event_sent_at(late, 1, true), Err(ClockError::Overflow));
    assert_eq!(io.event_sent_at(late, 2, true), Ok(()));
    assert_eq!(ids.next().id, 2);
}

#[test]
fn actions_start_their_timers() {
    let mut io = idle_io(50);
    let mut ids = PacketIdGenerator::new();
    let actions = [
        PortAction::ResetAnnounceTimer { duration: micros(5) },
        PortAction::ResetSyncTimer { duration: micros(4) },
        PortAction::ResetDelayRequestTimer { duration: micros(3) },
        PortAction::ResetAnnounceReceiptTimer { duration: micros(2) },
        PortAction::ResetFilterUpdateTimer { duration: micros(1) },
        PortAction::ForwardTLV,
    ];
    for action in actions {
        assert!(matches!(
            io.handle_at(at(10), action, at(90), &mut ids, false),
            Ok(IoRequest::Nothing)
        ));
    }
    for (ticks, timer) in [
        (11, StatimeTimer::FilterUpdate),
        (12, StatimeTimer::AnnounceReceipt),
        (13, StatimeTimer::DelayRequest),
        (14, StatimeTimer::Sync),
        (15, StatimeTimer::Announce),
    ] {
        assert_eq!(io.next_deadline(at(90)), at(ticks));
        assert_eq!(io.timers.take_due_at(at(ticks)), Some(timer));
    }
    assert_eq!(io.next_deadline(at(90)), at(90));
}

#[test]
fn filter_measurement_is_tracking() {
    let mut io = idle_io(50);
    let mut ids = PacketIdGenerator::new();
    let action = PortAction::ResetFilterUpdateTimer { duration: micros(1) };
    assert!(matches!(
        io.handle(action, at(90), &mut ids, true),
        Ok(IoRequest::Notify(MonitorUpdate::Tracking))
    ));
}

#[test]
fn sends_follow_the_clock() {
    let mut io = idle_io(1_000_000_000);
    let mut ids = PacketIdGenerator::new();
    let start = embassy_time::Instant::now().as_ticks();
    match io.handle(event(&[1]), at(u64::MAX), &mut ids, false) {
        Ok(IoRequest::SendEvent { deadline, .. }) => {
            assert!(deadline.ticks >= start + 1_000_000_000)
        }
        other => panic!("{other:?}"),
    }
    assert_eq!(io.event_sent(1, true), Ok(()));
    assert!(io.next_deadline(at(u64::MAX)).ticks >= start + 1_000_000_000);
}

fn packet(len: usize, first: u8, timestamp: Option<Timestamp>) -> Polled {
    let mut payload = vec![0; len];
    if let Some(byte) = payload.first_mut() {
        *byte = first;
    }
    let mut meta = PacketMeta::default();
    meta.timestamp = timestamp;
    Polled::Packet(RecvPacket { payload, meta })
}

#[test]
fn event_socket_goes_first() {
    let stamp = Timestamp {
        seconds: 1,
        quarter_nanos: 2,
    };
    match PortIo::receive_event(packet(256, 0, Some(stamp)), false) {
        ReceiveStep::Done(Incoming::Event(packet, timestamp)) => {
            assert_eq!(packet.payload, vec![0; 256]);
            assert_eq!(timestamp, stamp);
        }
        other => panic!("{other:?}"),
    }
    for polled in [
        packet(33, 0, Some(stamp)),
        packet(33, 0, None),
        packet(44, 1, Some(stamp)),
        packet(44, 1, None),
        packet(44, 2, Some(stamp)),
        packet(44, 3, None),
    ] {
        assert!(matches!(
            PortIo::receive_event(polled, false),
            ReceiveStep::Done(Incoming::Nothing)
        ));
    }
    assert!(matches!(
        PortIo::receive_event(Polled::WouldBlock, false),
        ReceiveStep::PollGeneral
    ));
}

#[test]
fn reception_problems_are_told_apart() {
    let problem = |polled, receive_delay_requests| {
        match PortIo::receive_event(polled, receive_delay_requests) {
            ReceiveStep::Done(Incoming::Problem(problem)) => problem,
            other => panic!("{other:?}"),
        }
    };
    assert_eq!(problem(packet(257, 0, None), false), ReceiveProblem::Oversized);
    assert_eq!(
        problem(Polled::Failed(RecvError::Truncated), false),
        ReceiveProblem::Failed {
            socket: SocketKind::Event,
            error: RecvError::Truncated,
        }
    );
    let mut meta = PacketMeta::default();
    meta.id = 7;
    let unstamped = RecvPacket {
        payload: vec![0x31; 44],
        meta,
    };
    assert_eq!(
        problem(Polled::Packet(unstamped), true),
        ReceiveProblem::MissingTimestamp {
            packet_id: 7,
            message_type: 1,
        }
    );
    assert!(matches!(
        PortIo::receive_general(Polled::Failed(RecvError::Truncated)),
        Incoming::Problem(ReceiveProblem::Failed {
            socket: SocketKind::General,
            error: RecvError::Truncated,
        })
    ));
}

#[test]
fn general_packets_need_a_header() {
    assert!(matches!(
        PortIo::receive_general(packet(64, 0xb, None)),
        Incoming::General(packet) if packet.payload.len() == 64
    ));
    for polled in [
        packet(33, 0xb, None),
        packet(257, 0xb, None),
        Polled::WouldBlock,
    ] {
        assert!(matches!(PortIo::receive_general(polled), Incoming::Nothing));
    }
}

fn runner_with_timeout(timeout: u64) -> Runner {
    let mut config = Config::new([1; 6], 1);
    config.tx_timestamp_timeout = EmbassyDuration { ticks: timeout };
    Runner::new(config)
}

fn started(timeout: u64) -> Run {
    match runner_with_timeout(timeout).start_at(at(0), finished(), SECOND) {
        Ok(run) => run,
        Err(error) => panic!("{error:?}"),
    }
}

#[test]
fn bmca_comes_first_and_keeps_the_timestamp() {
    let mut run = started(50);
    let tx = TxTimestamp {
        id: 1,
        timestamp: Timestamp {
            seconds: 3,
            quarter_nanos: 4,
        },
    };
    run.woken(WaitOutcome::TxTimestamp(tx));
    let turn = run.decide_at(at(1_000_000), PortState::Slave, SECOND, true).unwrap();
    assert!(matches!(turn.decision, Decision::RunBmca));
    assert_eq!(run.tx_timestamp, Some(tx));
    assert_eq!(run.afterwards(true), Afterwards::DecideAgain);
    assert_eq!(run.afterwards(false), Afterwards::WaitUntil(at(2_000_000)));
    let turn = run.decide_at(at(1_000_000), PortState::Slave, SECOND, true).unwrap();
    assert!(matches!(turn.decision, Decision::Nothing));
    assert_eq!(run.tx_timestamp, None);
}

#[test]
fn timestamp_comes_back_with_its_context() {
    let mut runner = Runner::new(Config::new([1; 6], 1));
    let mut run = started(50);
    assert!(matches!(
        runner.handle_at(&mut run, at(10), event(&[1])),
        Ok(IoRequest::SendEvent { .. })
    ));
    assert_eq!(run.io.event_sent_at(at(20), 1, true), Ok(()));
    let stamp = Timestamp {
        seconds: 3,
        quarter_nanos: 4,
    };
    run.woken(WaitOutcome::TxTimestamp(TxTimestamp {
        id: 1,
        timestamp: stamp,
    }));
    let turn = run.decide_at(at(69), PortState::Master, SECOND, false).unwrap();
    match turn.decision {
        Decision::SendTimestamp { context: back, time } => {
            assert_eq!(shown(&Some(back)), shown(&Some(context())));
            assert_eq!(time, time_from(stamp));
        }
        other => panic!("{other:?}"),
    }
    assert!(turn.expired.is_empty());
    run.woken(WaitOutcome::TxTimestamp(TxTimestamp {
        id: 1,
        timestamp: stamp,
    }));
    let turn = run.decide_at(at(69), PortState::Master, SECOND, false).unwrap();
    assert!(matches!(turn.decision, Decision::Nothing));
}

#[test]
fn packets_wait_through_other_work() {
    let mut runner = runner_with_timeout(50);
    let mut run = started(50);
    let contexts = contexts(2);
    let first = format!("{:?}", contexts[0]);
    for context in contexts {
        let action = PortAction::SendEvent {
            context,
            data: &[1],
            link_local: false,
        };
        assert!(runner.handle_at(&mut run, at(10), action).is_ok());
    }
    let action = PortAction::ResetSyncTimer { duration: micros(1) };
    assert!(runner.handle_at(&mut run, at(10), action).is_ok());
    assert_eq!(run.io.event_sent_at(at(11), 1, true), Ok(()));
    assert_eq!(run.io.event_sent_at(at(12), 2, false), Ok(()));
    let stamp = Timestamp {
        seconds: 1,
        quarter_nanos: 1,
    };
    for id in [2, 3] {
        run.woken(WaitOutcome::TxTimestamp(TxTimestamp {
            id,
            timestamp: stamp,
        }));
        let turn = run.decide_at(at(13), PortState::Master, SECOND, false).unwrap();
        assert!(matches!(turn.decision, Decision::Nothing));
    }
    let turn = run.decide_at(at(14), PortState::Master, SECOND, false).unwrap();
    assert!(matches!(turn.decision, Decision::Timer { .. }));
    run.woken(WaitOutcome::TxTimestamp(TxTimestamp {
        id: 1,
        timestamp: stamp,
    }));
    let turn = run.decide_at(at(60), PortState::Master, SECOND, false).unwrap();
    match turn.decision {
        Decision::SendTimestamp { context, .. } => assert_eq!(format!("{context:?}"), first),
        other => panic!("{other:?}"),
    }
}

#[test]
fn late_timestamp_is_dropped() {
    let mut runner = Runner::new(Config::new([1; 6], 1));
    let mut run = started(50);
    assert!(runner.handle_at(&mut run, at(10), event(&[1])).is_ok());
    run.woken(WaitOutcome::TxTimestamp(TxTimestamp {
        id: 1,
        timestamp: Timestamp {
            seconds: 0,
            quarter_nanos: 0,
        },
    }));
    let turn = run.decide_at(at(60), PortState::Master, SECOND, false).unwrap();
    assert!(matches!(turn.decision, Decision::Nothing));
    assert_eq!(turn.expired, vec![1]);
}

#[test]
fn timers_come_before_the_sockets() {
    let mut runner = Runner::new(Config::new([1; 6], 1)).with_monitor();
    let mut run = started(50);
    for action in [
        PortAction::ResetFilterUpdateTimer { duration: micros(5) },
        PortAction::ResetSyncTimer { duration: micros(5) },
    ] {
        assert!(runner.handle_at(&mut run, at(0), action).is_ok());
    }
    assert_eq!(run.next_deadline(), at(5));
    let turn = run.decide_at(at(4), PortState::Master, SECOND, true).unwrap();
    assert!(matches!(
        turn.decision,
        Decision::Receive {
            receive_delay_requests: true
        }
    ));
    let turn = run.decide_at(at(5), PortState::Master, SECOND, true).unwrap();
    assert!(matches!(
        turn.decision,
        Decision::Timer {
            timer: StatimeTimer::Sync,
            notify: None
        }
    ));
    let turn = run.decide_at(at(5), PortState::Slave, SECOND, true).unwrap();
    assert!(matches!(
        turn.decision,
        Decision::Timer {
            timer: StatimeTimer::FilterUpdate,
            notify: Some(MonitorUpdate::Holdover)
        }
    ));
    let turn = run.decide_at(at(5), PortState::Slave, SECOND, true).unwrap();
    assert!(matches!(
        turn.decision,
        Decision::Receive {
            receive_delay_requests: false
        }
    ));
}

#[test]
fn clock_errors_stop_the_decision() {
    let mut runner = Runner::new(Config::new([1; 6], 1));
    let mut run = started(50);
    assert!(runner.handle_at(&mut run, at(10), event(&[1])).is_ok());
    assert!(matches!(
        run.decide_at(at(9), PortState::Slave, SECOND, false),
        Err(ClockError::Backwards)
    ));
    assert!(matches!(
        run.decide_at(at(u64::MAX), PortState::Slave, SECOND, false),
        Err(ClockError::Overflow)
    ));
    assert!(matches!(
        runner.start_at(at(u64::MAX), finished(), SECOND),
        Err(ClockError::Overflow)
    ));
}

#[test]
fn restarted_service_goes_on_with_its_ids() {
    let mut runner = Runner::new(Config::new([1; 6], 1));
    for round in 0..3 {
        let mut run = started(50);
        match runner.handle_at(&mut run, at(10), event(&[1])) {
            Ok(IoRequest::SendEvent { metadata, .. }) => assert_eq!(metadata.meta.id, round + 1),
            other => panic!("{other:?}"),
        }
    }
}

#[test]
fn failed_sends_disturb_nothing_else() {
    let mut runner = runner_with_timeout(50);
    let mut run = started(50);
    let timer = PortAction::ResetSyncTimer { duration: micros(30) };
    assert!(runner.handle_at(&mut run, at(0), timer).is_ok());
    assert!(runner.handle_at(&mut run, at(5), event(&[1])).is_ok());
    assert_eq!(run.io.event_sent_at(at(6), 1, true), Ok(()));
    for round in 0..10 {
        match runner.handle_at(&mut run, at(7 + round), event(&[1])) {
            Ok(IoRequest::SendEvent { metadata, .. }) => {
                assert_eq!(run.io.event_sent_at(at(7 + round), metadata.meta.id, false), Ok(()));
            }
            other => panic!("{other:?}"),
        }
        assert_eq!(run.next_deadline(), at(30));
        assert_eq!(run.bmca, at(1_000_000));
    }
    assert_eq!(run.io.joined, finished().joined);
    let turn = run.decide_at(at(20), PortState::Master, SECOND, false).unwrap();
    assert!(matches!(turn.decision, Decision::Receive { .. }));
    assert!(run.next_deadline().ticks > 20);
    assert!(run.io.pending_tx.take(1).is_some());
}

#[test]
fn wait_lasts_beyond_a_decision_that_found_nothing() {
    let mut runner = runner_with_timeout(50);
    let mut run = started(50);
    assert!(runner.handle_at(&mut run, at(10), event(&[1])).is_ok());
    let turn = run.decide_at(at(60), PortState::Slave, SECOND, false).unwrap();
    assert!(matches!(turn.decision, Decision::Receive { .. }));
    assert_eq!(turn.expired, vec![1]);
    assert_eq!(run.next_deadline(), at(1_000_000));
}

#[test]
fn other_wakeups_bring_no_timestamp() {
    let mut run = started(50);
    for outcome in [
        WaitOutcome::EventReady,
        WaitOutcome::GeneralReady,
        WaitOutcome::DeadlineReached,
    ] {
        run.woken(outcome);
        assert_eq!(run.tx_timestamp, None);
    }
}

#[test]
fn bmca_report_tells_of_changes() {
    let runner = Runner::new(Config::new([1; 6], 1)).with_monitor();
    let report = runner.bmca_finished(PortState::Listening, PortState::Master);
    assert_eq!(report.notify, Some(MonitorUpdate::Holdover));
    assert_eq!(report.state_change, Some(("listening", "master")));
    let report = runner.bmca_finished(PortState::Slave, PortState::Slave);
    assert_eq!(report.notify, None);
    assert_eq!(report.state_change, None);
    let silent = Runner::new(Config::new([1; 6], 1));
    let report = silent.bmca_finished(PortState::Slave, PortState::Passive);
    assert_eq!(report.notify, None);
    assert_eq!(report.state_change, Some(("slave", "passive")));
}

#[test]
fn service_follows_the_clock() {
    let mut runner = runner_with_timeout(1_000_000_000);
    let mut run = match runner.start(finished(), CoreDuration { secs: 1000, nanos: 0 }) {
        Ok(run) => run,
        Err(error) => panic!("{error:?}"),
    };
    assert!(runner.handle(&mut run, event(&[1])).is_ok());
    let turn = runner.decide(&mut run, PortState::Slave, SECOND).unwrap();
    assert!(matches!(turn.decision, Decision::Receive { .. }));
    let action = PortAction::ResetSyncTimer { duration: micros(0) };
    assert!(runner.handle(&mut run, action).is_ok());
    let turn = runner.decide(&mut run, PortState::Slave, SECOND).unwrap();
    assert!(matches!(
        turn.decision,
        Decision::Timer {
            timer: StatimeTimer::Sync,
            ..
        }
    ));
}
