use micap_server::address::PeerAddress;
use micap_server::math::{Quat, Vec3};
use micap_server::registry::TrackerRegistry;
use micap_server::tracker::{Tracker, TrackerData, TrackerMotion, TrackerStatus};
use micap_server::udp::device::{elapsed, UdpDevice};
use micap_server::udp::packet::{
    UdpPacketBatteryLevel, UdpPacketPingPong, UdpPacketTrackerStatus, UdpTrackerData,
};

const MS: u64 = 1_000_000;

fn peer() -> PeerAddress {
    PeerAddress::new(0x7f00_0001, 4000)
}

fn device() -> UdpDevice {
    UdpDevice::new(peer(), [0x42, 0x42, 0, 0, 0, 0], 0)
}

fn status(index: u8, status: TrackerStatus) -> UdpPacketTrackerStatus {
    UdpPacketTrackerStatus { tracker_index: index, tracker_status: status }
}

fn tracker<'a>(registry: &'a TrackerRegistry, id: &str) -> &'a Tracker {
    registry.get(&id.to_string()).unwrap()
}

#[test]
fn new_session_has_nothing_yet() {
    let d = UdpDevice::new(peer(), [1, 2, 3, 4, 5, 6], 77);
    assert_eq!(d.address, peer());
    assert_eq!(d.mac, [1, 2, 3, 4, 5, 6]);
    assert_eq!(d.last_packet_received_time, 77);
    assert_eq!(d.last_packet_number, 0);
    assert!(d.global_trackers.is_empty());
    assert_eq!(d.current_ping_id, 0);
    assert_eq!(d.current_ping_start_time, None);
}

#[test]
fn accepted_packet_numbers_rise() {
    let mut d = device();
    assert!(d.check_latest_packet_number(1));
    assert!(d.check_latest_packet_number(2));
    assert!(!d.check_latest_packet_number(2));
    assert!(!d.check_latest_packet_number(1));
    assert!(d.check_latest_packet_number(10));
    assert!(!d.check_latest_packet_number(9));
    assert_eq!(d.last_packet_number, 10);
}

#[test]
fn packet_number_zero_always_passes() {
    let mut d = device();
    assert!(d.check_latest_packet_number(0));
    assert!(d.check_latest_packet_number(5));
    assert!(d.check_latest_packet_number(0));
    assert_eq!(d.last_packet_number, 5);
}

#[test]
fn packet_numbers_run_out_at_the_maximum() {
    let mut d = device();
    assert!(d.check_latest_packet_number(u32::MAX));
    assert!(!d.check_latest_packet_number(1));
    assert!(!d.check_latest_packet_number(u32::MAX));
    assert!(d.check_latest_packet_number(0));
    assert_eq!(d.last_packet_number, u32::MAX);
}

#[test]
fn handshake_starts_packet_numbers_again() {
    let mut d = device();
    assert!(d.check_latest_packet_number(100));
    let moved = PeerAddress::new(0x7f00_0001, 4001);
    d.on_handshake(moved);
    assert_eq!(d.last_packet_number, 0);
    assert_eq!(d.address, moved);
    assert!(d.check_latest_packet_number(1));
}

#[test]
fn handshake_frees_the_way_for_the_next_ping() {
    let mut d = device();
    assert_eq!(d.check_get_ping_packet(10), Some(UdpPacketPingPong::new(1)));
    assert_eq!(d.check_get_ping_packet(20), None);
    d.on_handshake(peer());
    assert_eq!(d.current_ping_start_time, None);
    assert_eq!(d.check_get_ping_packet(30), Some(UdpPacketPingPong::new(1)));
    assert_eq!(d.current_ping_start_time, Some(30));
}

#[test]
fn times_out_after_two_seconds() {
    let d = UdpDevice::new(peer(), [0; 6], 1000 * MS);
    assert!(!d.is_timed_out(1000 * MS));
    assert!(!d.is_timed_out(3000 * MS));
    assert!(d.is_timed_out(3000 * MS + 1));
    assert!(d.is_timed_out(3100 * MS));
    assert!(!d.is_timed_out(0));
    assert_eq!(elapsed(5, 7), 0);
    assert_eq!(elapsed(7, 5), 2);
}

#[test]
fn status_creates_the_tracker_with_its_id() {
    let mut registry = TrackerRegistry::new();
    let mut d = device();
    d.update_tracker_status(&mut registry, status(3, TrackerStatus::Okay), 5);
    assert_eq!(registry.len(), 1);
    assert_eq!(registry.id_at(0), "42:42:00:00:00:00/3");
    assert_eq!(d.global_trackers.len(), 4);
    assert_eq!(d.global_trackers[0], None);
    assert_eq!(d.global_trackers[3], Some("42:42:00:00:00:00/3".to_string()));
    let t = tracker(&registry, "42:42:00:00:00:00/3");
    assert_eq!(t.info().status, TrackerStatus::Okay);
    assert_eq!(t.info().address, Some(peer()));
    assert!(t.internal().was_updated);
    assert_eq!(t.internal().time_data_last_updated, 5);
    assert_eq!(*t.data(), TrackerData::default());
}

#[test]
fn status_for_a_known_tracker_resets_its_data() {
    let mut registry = TrackerRegistry::new();
    let mut d = device();
    d.update_tracker_status(&mut registry, status(0, TrackerStatus::Okay), 0);
    let motion = TrackerMotion {
        mounted_orientation: Quat::from_xyzw(1, 2, 3, 4),
        orientation: Quat::from_xyzw(5, 6, 7, 8),
        acceleration: Vec3::new(9, 10, 11),
        velocity: Vec3::new(12, 13, 14),
        position: Vec3::new(15, 16, 17),
    };
    registry.value_at_mut(0).update_data(motion, 9);
    assert_eq!(registry.value_at(0).data().orientation, Quat::from_xyzw(5, 6, 7, 8));
    d.update_tracker_status(&mut registry, status(0, TrackerStatus::Error), 10);
    assert_eq!(registry.len(), 1);
    let t = registry.value_at(0);
    assert_eq!(*t.data(), TrackerData::default());
    assert_eq!(t.info().status, TrackerStatus::Error);
    assert_eq!(t.internal().velocity, Vec3::new(12, 13, 14));
    assert_eq!(t.internal().time_data_last_updated, 9);
}

#[test]
fn status_at_the_highest_index_fits() {
    let mut registry = TrackerRegistry::new();
    let mut d = device();
    d.update_tracker_status(&mut registry, status(255, TrackerStatus::Off), 0);
    assert_eq!(d.global_trackers.len(), 256);
    assert_eq!(registry.id_at(0), "42:42:00:00:00:00/255");
}

#[test]
fn data_finds_its_tracker_and_creates_none() {
    let mut registry = TrackerRegistry::new();
    let mut d = device();
    d.update_tracker_status(&mut registry, status(2, TrackerStatus::Okay), 0);
    let data = |index| UdpTrackerData {
        tracker_index: index,
        orientation: Quat::identity(),
        acceleration: Vec3::zero(),
    };
    assert_eq!(d.update_tracker_data(&registry, &data(2)), Some(0));
    assert_eq!(d.update_tracker_data(&registry, &data(1)), None);
    assert_eq!(d.update_tracker_data(&registry, &data(3)), None);
    assert_eq!(d.update_tracker_data(&registry, &data(255)), None);
    assert_eq!(registry.len(), 1);
}

#[test]
fn ping_ids_count_up_and_wrap() {
    let mut d = device();
    assert_eq!(d.check_get_ping_packet(10), Some(UdpPacketPingPong::new(1)));
    assert_eq!(d.current_ping_start_time, Some(10));
    assert_eq!(d.check_get_ping_packet(20), None);
    assert_eq!(d.current_ping_start_time, Some(10));
    let mut registry = TrackerRegistry::new();
    for expected in 2..=300u32 {
        let id = d.current_ping_id;
        d.handle_pong(&mut registry, UdpPacketPingPong::new(id), 30);
        let packet = d.check_get_ping_packet(40).unwrap();
        assert_eq!(packet.id as u32, expected % 256);
    }
    d.current_ping_id = 255;
    d.current_ping_start_time = None;
    assert_eq!(d.check_get_ping_packet(0), Some(UdpPacketPingPong::new(0)));
}

#[test]
fn pong_after_half_a_second_shows_250_ms() {
    let mut registry = TrackerRegistry::new();
    let mut d = device();
    d.update_tracker_status(&mut registry, status(0, TrackerStatus::Okay), 0);
    d.update_tracker_status(&mut registry, status(1, TrackerStatus::Off), 0);
    let other = registry.add(&"someone-else".to_string(), 0);
    let ping = d.check_get_ping_packet(1000 * MS).unwrap();
    assert_eq!(ping.id, 1);
    assert_eq!(ping.to_response(), [0x00, 0x01]);
    d.handle_pong(&mut registry, UdpPacketPingPong::new(1), 1500 * MS);
    assert_eq!(registry.value_at(0).info().latency_ms, Some(250));
    assert_eq!(registry.value_at(1).info().latency_ms, Some(250));
    assert_eq!(registry.value_at(other).info().latency_ms, None);
    assert_eq!(d.current_ping_start_time, None);
}

#[test]
fn latency_is_cut_to_whole_milliseconds() {
    let mut registry = TrackerRegistry::new();
    let mut d = device();
    d.update_tracker_status(&mut registry, status(0, TrackerStatus::Okay), 0);
    d.check_get_ping_packet(0);
    d.handle_pong(&mut registry, UdpPacketPingPong::new(1), 503 * MS + 999_999);
    assert_eq!(registry.value_at(0).info().latency_ms, Some(251));
}

#[test]
fn pong_with_another_id_changes_nothing() {
    let mut registry = TrackerRegistry::new();
    let mut d = device();
    d.update_tracker_status(&mut registry, status(0, TrackerStatus::Okay), 0);
    d.check_get_ping_packet(1000 * MS);
    d.handle_pong(&mut registry, UdpPacketPingPong::new(2), 1500 * MS);
    assert_eq!(registry.value_at(0).info().latency_ms, None);
    assert_eq!(d.current_ping_start_time, Some(1000 * MS));
    d.handle_pong(&mut registry, UdpPacketPingPong::new(1), 1600 * MS);
    assert_eq!(registry.value_at(0).info().latency_ms, Some(300));
    d.handle_pong(&mut registry, UdpPacketPingPong::new(1), 9000 * MS);
    assert_eq!(registry.value_at(0).info().latency_ms, Some(300));
}

#[test]
fn timeout_moves_ok_to_timed_out_and_back() {
    let mut registry = TrackerRegistry::new();
    let mut d = device();
    d.update_tracker_status(&mut registry, status(0, TrackerStatus::Okay), 0);
    d.update_tracker_status(&mut registry, status(1, TrackerStatus::Error), 0);
    d.update_tracker_status(&mut registry, status(2, TrackerStatus::Off), 0);
    d.update_timed_out(&mut registry, true);
    assert_eq!(registry.value_at(0).info().status, TrackerStatus::TimedOut);
    assert_eq!(registry.value_at(1).info().status, TrackerStatus::Error);
    assert_eq!(registry.value_at(2).info().status, TrackerStatus::Off);
    d.update_timed_out(&mut registry, true);
    assert_eq!(registry.value_at(0).info().status, TrackerStatus::TimedOut);
    d.update_timed_out(&mut registry, false);
    assert_eq!(registry.value_at(0).info().status, TrackerStatus::Okay);
    assert_eq!(registry.value_at(1).info().status, TrackerStatus::Error);
    assert_eq!(registry.value_at(2).info().status, TrackerStatus::Off);
}

#[test]
fn battery_level_reaches_every_tracker_of_the_session() {
    let mut registry = TrackerRegistry::new();
    let mut d = device();
    let stranger = registry.add(&"stranger".to_string(), 0);
    d.update_tracker_status(&mut registry, status(0, TrackerStatus::Okay), 0);
    d.update_tracker_status(&mut registry, status(4, TrackerStatus::Okay), 0);
    d.update_battery_level(&mut registry, UdpPacketBatteryLevel { battery_level: 0.2f32.to_bits() });
    assert_eq!(f32::from_bits(tracker(&registry, "42:42:00:00:00:00/0").info().battery_level), 0.2);
    assert_eq!(f32::from_bits(tracker(&registry, "42:42:00:00:00:00/4").info().battery_level), 0.2);
    assert_eq!(registry.value_at(stranger).info().battery_level, 0);
    assert!(!registry.value_at(stranger).internal().was_updated);
}

#[test]
fn session_is_removed_once_all_its_trackers_are() {
    let mut registry = TrackerRegistry::new();
    let mut d = device();
    assert!(!d.all_trackers_removed(&registry));
    d.update_tracker_status(&mut registry, status(0, TrackerStatus::Okay), 0);
    d.update_tracker_status(&mut registry, status(1, TrackerStatus::Okay), 0);
    assert!(!d.all_trackers_removed(&registry));
    registry.value_at_mut(0).update_info().to_be_removed = true;
    assert!(!d.all_trackers_removed(&registry));
    registry.value_at_mut(1).update_info().to_be_removed = true;
    assert!(d.all_trackers_removed(&registry));
    registry.remove(&"42:42:00:00:00:00/0".to_string());
    registry.remove(&"42:42:00:00:00:00/1".to_string());
    assert!(d.all_trackers_removed(&registry));
}

#[test]
fn removed_tracker_is_not_created_again() {
    let mut registry = TrackerRegistry::new();
    let mut d = device();
    d.update_tracker_status(&mut registry, status(0, TrackerStatus::Okay), 0);
    registry.remove(&"42:42:00:00:00:00/0".to_string());
    d.update_tracker_status(&mut registry, status(0, TrackerStatus::Okay), 1);
    assert_eq!(registry.len(), 0);
    assert!(d.owns(&"42:42:00:00:00:00/0".to_string()));
    assert!(!d.owns(&"42:42:00:00:00:00/1".to_string()));
}
