use statime_embassy_net::packet::{
    missing_rx_timestamp, ptp_message_type, rx_event_timestamp, PacketIdGenerator, PacketMeta,
    MSG_DELAY_REQ, MSG_PDELAY_REQ, MSG_PDELAY_RESP,
};
use statime_embassy_net::time::Timestamp;

const TIMESTAMP: Timestamp = Timestamp {
    seconds: 2,
    quarter_nanos: 40,
};

#[test]
fn accepts_delay_requests_only_for_a_master() {
    let mut packet = [0; 34];
    packet[0] = MSG_DELAY_REQ;
    let timestamp = TIMESTAMP;
    let mut meta = PacketMeta::default();
    meta.timestamp = Some(timestamp);

    assert_eq!(rx_event_timestamp(&packet, meta, false), None);
    assert_eq!(rx_event_timestamp(&packet, meta, true), Some(timestamp));
}

#[test]
fn ignores_peer_delay_messages() {
    let timestamp = TIMESTAMP;
    let mut meta = PacketMeta::default();
    meta.timestamp = Some(timestamp);

    for message_type in [MSG_PDELAY_REQ, MSG_PDELAY_RESP] {
        let mut packet = [0; 34];
        packet[0] = message_type;
        assert_eq!(rx_event_timestamp(&packet, meta, true), None);
    }
}

#[test]
fn message_type_needs_a_whole_header() {
    assert_eq!(ptp_message_type(&[]), None);
    assert_eq!(ptp_message_type(&[0x12; 33]), None);
    assert_eq!(ptp_message_type(&[0x12; 34]), Some(2));
    assert_eq!(ptp_message_type(&[0xfb; 44]), Some(0xb));
}

#[test]
fn sync_messages_keep_their_timestamp() {
    let packet = [0; 34];
    let mut meta = PacketMeta::default();
    assert_eq!(rx_event_timestamp(&packet, meta, false), None);
    meta.timestamp = Some(TIMESTAMP);
    assert_eq!(rx_event_timestamp(&packet, meta, false), Some(TIMESTAMP));
    assert_eq!(rx_event_timestamp(&packet, meta, true), Some(TIMESTAMP));
    assert_eq!(rx_event_timestamp(&packet[..33], meta, true), None);
}

#[test]
fn missing_timestamp_matters_for_wanted_packets() {
    let mut meta = PacketMeta::default();
    let mut packet = [0x20; 34];
    packet[0] = 0xf0 | MSG_DELAY_REQ;
    assert_eq!(missing_rx_timestamp(&packet, meta, true), Some(MSG_DELAY_REQ));
    assert_eq!(missing_rx_timestamp(&packet, meta, false), None);
    assert_eq!(missing_rx_timestamp(&packet[..33], meta, true), None);
    packet[0] = MSG_PDELAY_REQ;
    assert_eq!(missing_rx_timestamp(&packet, meta, true), None);
    packet[0] = 0;
    assert_eq!(missing_rx_timestamp(&packet, meta, false), Some(0));
    meta.timestamp = Some(TIMESTAMP);
    assert_eq!(missing_rx_timestamp(&packet, meta, false), None);
}

#[test]
fn default_metadata_asks_for_nothing() {
    assert_eq!(
        PacketMeta::default(),
        PacketMeta {
            id: 0,
            timestamp: None,
            request_timestamp: false,
        }
    );
}

#[test]
fn packet_ids_count_from_one_and_request_timestamps() {
    let mut generator = PacketIdGenerator::new();
    for id in 1..1000 {
        assert_eq!(
            generator.next(),
            PacketMeta {
                id,
                timestamp: None,
                request_timestamp: true,
            }
        );
    }
}
