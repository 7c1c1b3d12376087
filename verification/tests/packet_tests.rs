use micap_server::math::{Quat, Vec3};
use micap_server::tracker::TrackerStatus;
use micap_server::udp::packet::{
    u32_to_le, ByteReader, ParseError, UdpPacket, UdpPacketBatteryLevel, UdpPacketHandshake,
    UdpPacketPingPong, UdpPacketTrackerData, UdpPacketTrackerStatus, UdpTrackerData,
};

fn sample(index: u8, q: [f32; 4], a: [f32; 3]) -> UdpTrackerData {
    UdpTrackerData {
        tracker_index: index,
        orientation: Quat::from_xyzw(q[0].to_bits(), q[1].to_bits(), q[2].to_bits(), q[3].to_bits()),
        acceleration: Vec3::new(a[0].to_bits(), a[1].to_bits(), a[2].to_bits()),
    }
}

fn wire_sample(index: u8, q: [f32; 4], a: [f32; 3]) -> Vec<u8> {
    let mut bytes = vec![index];
    for v in q {
        bytes.extend(v.to_le_bytes());
    }
    for v in a {
        bytes.extend(v.to_le_bytes());
    }
    bytes
}

#[test]
fn reader_reads_little_endian() {
    let bytes = [0x01, 0x02, 0x03, 0x04, 0x05];
    let mut reader = ByteReader::new(&bytes);
    assert_eq!(reader.remaining(), 5);
    assert_eq!(reader.read_u32(), Ok(0x0403_0201));
    assert_eq!(reader.remaining(), 1);
    assert_eq!(reader.read_u32(), Err(ParseError::Truncated));
    assert_eq!(reader.peek_u8(), Some(5));
    assert_eq!(reader.read_u8(), Ok(5));
    assert_eq!(reader.read_u8(), Err(ParseError::Truncated));
    assert_eq!(reader.peek_u8(), None);
}

#[test]
fn reader_compares_prefixes() {
    let bytes = *b"MCDEVxy";
    let mut reader = ByteReader::new(&bytes);
    assert!(!reader.bytes_equal(b"MCSVR"));
    assert_eq!(reader.remaining(), 7);
    assert!(reader.bytes_equal(b"MCDEV"));
    assert_eq!(reader.remaining(), 2);
    assert!(!reader.bytes_equal(b"xyz"));
    assert!(reader.bytes_equal(b""));
    assert!(reader.bytes_equal(b"xy"));
    assert_eq!(reader.remaining(), 0);
}

#[test]
fn u32_to_le_spells_least_significant_first() {
    assert_eq!(u32_to_le(0x0403_0201), [1, 2, 3, 4]);
    assert_eq!(u32_to_le(u32::MAX), [255, 255, 255, 255]);
    assert_eq!(u32_to_le(256), [0, 1, 0, 0]);
}

#[test]
fn parses_handshake() {
    let bytes = [0x01, b'M', b'C', b'D', b'E', b'V', 0x42, 0x42, 0, 0, 0, 0];
    match UdpPacket::parse(&bytes) {
        Ok((UdpPacket::Handshake(packet), number)) => {
            assert_eq!(packet.mac, [0x42, 0x42, 0, 0, 0, 0]);
            assert_eq!(number, 0);
        }
        _ => panic!("not a handshake"),
    }
    assert_eq!(UdpPacketHandshake::server_response(), [0x01, b'M', b'C', b'S', b'V', b'R']);
}

#[test]
fn rejects_bad_magic() {
    let bytes = [0x01, b'M', b'C', b'S', b'V', b'R', 1, 2, 3, 4, 5, 6];
    assert!(matches!(UdpPacket::parse(&bytes), Err(ParseError::BadMagic)));
    let short = [0x01, b'M', b'C'];
    assert!(matches!(UdpPacket::parse(&short), Err(ParseError::BadMagic)));
}

#[test]
fn rejects_truncated() {
    let empty: [u8; 0] = [];
    assert!(matches!(UdpPacket::parse(&empty), Err(ParseError::Truncated)));
    let handshake = [0x01, b'M', b'C', b'D', b'E', b'V', 1, 2, 3];
    assert!(matches!(UdpPacket::parse(&handshake), Err(ParseError::Truncated)));
    let no_number = [0x00, 1, 0];
    assert!(matches!(UdpPacket::parse(&no_number), Err(ParseError::Truncated)));
    let no_id = [0x00, 1, 0, 0, 0];
    assert!(matches!(UdpPacket::parse(&no_id), Err(ParseError::Truncated)));
    let half_status = [0x02, 1, 0, 0, 0, 3];
    assert!(matches!(UdpPacket::parse(&half_status), Err(ParseError::Truncated)));
    let half_battery = [0x04, 1, 0, 0, 0, 0, 0, 0];
    assert!(matches!(UdpPacket::parse(&half_battery), Err(ParseError::Truncated)));
    let unknown_without_number = [0x09];
    assert!(matches!(UdpPacket::parse(&unknown_without_number), Err(ParseError::Truncated)));
}

#[test]
fn rejects_unknown_kind() {
    let bytes = [0x05, 1, 0, 0, 0, 9, 9];
    assert!(matches!(UdpPacket::parse(&bytes), Err(ParseError::UnknownKind)));
    let bytes = [0xff, 0, 0, 0, 0];
    assert!(matches!(UdpPacket::parse(&bytes), Err(ParseError::UnknownKind)));
}

#[test]
fn rejects_bad_status() {
    let bytes = [0x02, 1, 0, 0, 0, 3, 3];
    assert!(matches!(UdpPacket::parse(&bytes), Err(ParseError::BadStatus)));
    let bytes = [0x02, 1, 0, 0, 0, 3, 0xff];
    assert!(matches!(UdpPacket::parse(&bytes), Err(ParseError::BadStatus)));
}

#[test]
fn parses_status_and_echoes_it() {
    let bytes = [0x02, 1, 0, 0, 0, 3, 0];
    match UdpPacket::parse(&bytes) {
        Ok((UdpPacket::TrackerStatus(packet), number)) => {
            assert_eq!(number, 1);
            assert_eq!(packet.tracker_index, 3);
            assert_eq!(packet.tracker_status, TrackerStatus::Okay);
            assert_eq!(packet.to_response(), [0x02, 0x03, 0x00]);
        }
        _ => panic!("not a status packet"),
    }
    let error = UdpPacketTrackerStatus { tracker_index: 7, tracker_status: TrackerStatus::Error };
    assert_eq!(error.to_response(), [0x02, 7, 1]);
    let off = UdpPacketTrackerStatus { tracker_index: 0, tracker_status: TrackerStatus::Off };
    assert_eq!(off.to_response(), [0x02, 0, 2]);
}

#[test]
fn parses_pong_with_its_number() {
    let bytes = [0x00, 0x78, 0x56, 0x34, 0x12, 9];
    match UdpPacket::parse(&bytes) {
        Ok((UdpPacket::PingPong(packet), number)) => {
            assert_eq!(number, 0x1234_5678);
            assert_eq!(packet.id, 9);
        }
        _ => panic!("not a pong"),
    }
    assert_eq!(UdpPacketPingPong::new(9).to_response(), [0x00, 9]);
}

#[test]
fn parses_battery_level() {
    let mut bytes = vec![0x04, 5, 0, 0, 0];
    bytes.extend(0.2f32.to_le_bytes());
    match UdpPacket::parse(&bytes) {
        Ok((UdpPacket::BatteryLevel(packet), number)) => {
            assert_eq!(number, 5);
            assert_eq!(f32::from_bits(packet.battery_level), 0.2);
        }
        _ => panic!("not a battery packet"),
    }
}

#[test]
fn data_is_handed_out_in_the_server_frame() {
    let mut bytes = vec![0x03, 2, 0, 0, 0];
    bytes.extend(wire_sample(3, [1., 2., 3., 4.], [1., 2., 3.]));
    bytes.push(0xff);
    match UdpPacket::parse(&bytes) {
        Ok((UdpPacket::TrackerData(mut packet), number)) => {
            assert_eq!(number, 2);
            let data = packet.next_data().unwrap().unwrap();
            assert_eq!(data, sample(3, [-1., 2., 3., -4.], [1., 3., 2.]));
            assert_eq!(packet.next_data(), Ok(None));
        }
        _ => panic!("not a data packet"),
    }
}

#[test]
fn data_ends_at_the_end_mark() {
    let mut bytes = vec![0x03, 2, 0, 0, 0, 0xff];
    bytes.extend(wire_sample(3, [1., 2., 3., 4.], [1., 2., 3.]));
    match UdpPacket::parse(&bytes) {
        Ok((UdpPacket::TrackerData(mut packet), _)) => {
            assert_eq!(packet.next_data(), Ok(None));
        }
        _ => panic!("not a data packet"),
    }
}

#[test]
fn data_that_breaks_off_is_truncated() {
    let mut bytes = vec![0x03, 2, 0, 0, 0];
    bytes.extend(wire_sample(1, [0., 0., 0., 1.], [0., 0., 0.]));
    assert!(matches!(UdpPacket::parse(&bytes), Err(ParseError::Truncated)));
    bytes.extend(&wire_sample(2, [0., 0., 0., 1.], [0., 0., 0.])[..20]);
    assert!(matches!(UdpPacket::parse(&bytes), Err(ParseError::Truncated)));
    let no_mark = [0x03, 2, 0, 0, 0];
    assert!(matches!(UdpPacket::parse(&no_mark), Err(ParseError::Truncated)));
    let closed = [0x03, 2, 0, 0, 0, 0xff];
    assert!(UdpPacket::parse(&closed).is_ok());
}

#[test]
fn samples_are_read_up_to_where_a_payload_breaks_off() {
    let mut payload = wire_sample(1, [0., 0., 0., 1.], [0., 0., 0.]);
    payload.extend(&wire_sample(2, [0., 0., 0., 1.], [0., 0., 0.])[..20]);
    let mut packet = UdpPacketTrackerData::from_bytes(ByteReader::new(&payload));
    assert!(!packet.ends_with_mark());
    assert_eq!(packet.next_data().unwrap().unwrap().tracker_index, 1);
    assert_eq!(packet.next_data(), Err(ParseError::Truncated));
    assert_eq!(packet.next_data(), Err(ParseError::Truncated));

    let mut payload = wire_sample(1, [0., 0., 0., 1.], [0., 0., 0.]);
    payload.push(0xff);
    payload.push(7);
    let mut packet = UdpPacketTrackerData::from_bytes(ByteReader::new(&payload));
    assert!(packet.ends_with_mark());
    assert!(packet.next_data().unwrap().is_some());
    assert!(packet.ends_with_mark());
    assert_eq!(packet.next_data(), Ok(None));
}

#[test]
fn reader_forks_and_skips() {
    let bytes = [1, 2, 3, 4];
    let mut reader = ByteReader::new(&bytes);
    assert!(reader.advance(1));
    let mut second = reader.fork();
    assert!(!reader.advance(4));
    assert_eq!(reader.remaining(), 3);
    assert!(reader.advance(3));
    assert!(reader.advance(0));
    assert_eq!(reader.remaining(), 0);
    assert_eq!(second.read_u8(), Ok(2));
    assert_eq!(second.remaining(), 2);
}

#[test]
fn negation_flips_zero_and_nan_too() {
    let mut bytes = vec![0x03, 2, 0, 0, 0];
    bytes.extend(wire_sample(0, [0., -0., f32::NAN, f32::INFINITY], [0., 0., 0.]));
    bytes.push(0xff);
    match UdpPacket::parse(&bytes) {
        Ok((UdpPacket::TrackerData(mut packet), _)) => {
            let data = packet.next_data().unwrap().unwrap();
            assert_eq!(data.orientation.x, (-0.0f32).to_bits());
            assert_eq!(data.orientation.y, (-0.0f32).to_bits());
            assert_eq!(data.orientation.z, f32::NAN.to_bits());
            assert_eq!(data.orientation.w, f32::NEG_INFINITY.to_bits());
        }
        _ => panic!("not a data packet"),
    }
}

#[test]
fn handshake_round_trip() {
    let packet = UdpPacketHandshake { mac: [1, 2, 3, 4, 5, 6] };
    let bytes = packet.to_packet();
    assert_eq!(bytes, [0x01, b'M', b'C', b'D', b'E', b'V', 1, 2, 3, 4, 5, 6]);
    match UdpPacket::parse(&bytes) {
        Ok((UdpPacket::Handshake(parsed), 0)) => assert_eq!(parsed.mac, packet.mac),
        _ => panic!("not the handshake"),
    }
}

#[test]
fn ping_pong_round_trip() {
    let packet = UdpPacketPingPong::new(200);
    let bytes = packet.to_packet(u32::MAX);
    assert_eq!(bytes, [0x00, 0xff, 0xff, 0xff, 0xff, 200]);
    match UdpPacket::parse(&bytes) {
        Ok((UdpPacket::PingPong(parsed), number)) => {
            assert_eq!(parsed, packet);
            assert_eq!(number, u32::MAX);
        }
        _ => panic!("not the pong"),
    }
}

#[test]
fn status_round_trip() {
    for status in [TrackerStatus::Okay, TrackerStatus::Error, TrackerStatus::Off] {
        let packet = UdpPacketTrackerStatus { tracker_index: 254, tracker_status: status };
        let bytes = packet.to_packet(77);
        match UdpPacket::parse(&bytes) {
            Ok((UdpPacket::TrackerStatus(parsed), 77)) => assert_eq!(parsed, packet),
            _ => panic!("not the status packet"),
        }
    }
    let timed_out =
        UdpPacketTrackerStatus { tracker_index: 1, tracker_status: TrackerStatus::TimedOut };
    assert!(matches!(UdpPacket::parse(&timed_out.to_packet(1)), Err(ParseError::BadStatus)));
}

#[test]
fn battery_round_trip() {
    let packet = UdpPacketBatteryLevel { battery_level: 0.75f32.to_bits() };
    let bytes = packet.to_packet(0x0102_0304);
    match UdpPacket::parse(&bytes) {
        Ok((UdpPacket::BatteryLevel(parsed), number)) => {
            assert_eq!(parsed, packet);
            assert_eq!(number, 0x0102_0304);
        }
        _ => panic!("not the battery packet"),
    }
}

#[test]
fn data_round_trip() {
    let samples = vec![
        sample(0, [0.1, 0.2, 0.3, 0.4], [9., 8., 7.]),
        sample(3, [-1., 2., 3., -4.], [1., 3., 2.]),
        sample(254, [0., 0., 0., 1.], [0., -9.81, 0.]),
    ];
    let bytes = UdpPacketTrackerData::to_packet(12, &samples);
    assert_eq!(bytes.len(), 5 + 3 * 29 + 1);
    assert_eq!(&bytes[5..34], &wire_sample(0, [-0.1, 0.2, 0.3, -0.4], [9., 7., 8.])[..]);
    match UdpPacket::parse(&bytes) {
        Ok((UdpPacket::TrackerData(mut packet), 12)) => {
            for expected in &samples {
                assert_eq!(packet.next_data(), Ok(Some(*expected)));
            }
            assert_eq!(packet.next_data(), Ok(None));
        }
        _ => panic!("not the data packet"),
    }
}

#[test]
fn empty_data_round_trip() {
    let bytes = UdpPacketTrackerData::to_packet(1, &Vec::new());
    assert_eq!(bytes, [0x03, 1, 0, 0, 0, 0xff]);
}
