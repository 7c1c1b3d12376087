use micap_server::address::PeerAddress;
use micap_server::config::{GlobalConfig, InterfaceConfig};
use micap_server::looper::{LoopEnd, Looper, TARGET_LOOP_DELTA_NANOS};
use micap_server::main_server::MainServer;
use micap_server::skeleton::bone::BoneLocation;
use micap_server::tracker::{MountOffset, TrackerConfig, TrackerStatus};
use micap_server::udp::packet::{UdpPacketHandshake, UdpPacketTrackerStatus};
use micap_server::udp::server::UdpServer;
use micap_server::websocket::{
    handle_ws_message, send_ws_messages, WebsocketClientMessage, WebsocketServerMessage,
    WEBSOCKET_PORT,
};

fn id(text: &str) -> String {
    text.to_string()
}

#[test]
fn default_config() {
    let config = GlobalConfig::default();
    assert_eq!(config.trackers.len(), 0);
    assert!(!config.vmc.enabled);
    assert!(!config.vrchat.enabled);
    assert_eq!(config.interface, InterfaceConfig { hide_in_system_tray: false });
    assert_eq!(WEBSOCKET_PORT, 8298);
}

#[test]
fn add_tracker_is_idempotent() {
    let mut main = MainServer::new();
    assert_eq!(main.add_tracker(&id("a"), 1), 0);
    assert_eq!(main.add_tracker(&id("b"), 2), 1);
    assert_eq!(main.add_tracker(&id("a"), 3), 0);
    assert_eq!(main.trackers.len(), 2);
    assert_eq!(main.config.trackers.len(), 0);
}

#[test]
fn applying_the_config_creates_and_mounts_trackers() {
    let mut main = MainServer::new();
    main.add_tracker(&id("known"), 0);
    let mut config = GlobalConfig::default();
    config.trackers.insert(
        &id("test"),
        TrackerConfig { name: Some(id("hello")), location: Some(BoneLocation::Hip) },
    );
    config.trackers.insert(
        &id("known"),
        TrackerConfig { name: None, location: Some(BoneLocation::LeftHand) },
    );
    config.trackers.insert(&id("loose"), TrackerConfig::default());
    assert_eq!(handle_ws_message(&mut main, WebsocketClientMessage::UpdateConfig { config }), None);
    assert_eq!(main.config.trackers.len(), 0);
    assert_eq!(main.trackers.len(), 1);

    assert!(main.take_config_update());
    assert!(!main.take_config_update());
    main.apply_config(7);
    assert_eq!(main.config.trackers.len(), 3);
    assert_eq!(main.trackers.len(), 3);
    assert_eq!(main.trackers.id_at(0), "known");
    assert_eq!(main.trackers.id_at(1), "test");
    assert_eq!(main.trackers.id_at(2), "loose");
    assert_eq!(main.trackers.value_at(0).internal().mount_offset, MountOffset::LeftArm);
    assert_eq!(main.trackers.value_at(1).internal().mount_offset, MountOffset::Body);
    assert_eq!(main.trackers.value_at(2).internal().mount_offset, MountOffset::Identity);
    assert_eq!(main.trackers.value_at(1).internal().time_data_last_updated, 7);
    assert_eq!(main.skeleton_manager.trackers[BoneLocation::Hip.ordinal()], Some(id("test")));
    assert_eq!(main.skeleton_manager.trackers[BoneLocation::LeftHand.ordinal()], Some(id("known")));
    assert_eq!(main.skeleton_manager.trackers[BoneLocation::Head.ordinal()], None);

    main.apply_config(8);
    assert_eq!(main.trackers.len(), 3);
}

#[test]
fn tracker_removal() {
    let mut main = MainServer::new();
    let mut server = UdpServer::new(0);
    let peer = PeerAddress::new(1, 2);
    let mac = [0x42, 0x42, 0, 0, 0, 0];
    server.handle_datagram(&mut main.trackers, &UdpPacketHandshake { mac }.to_packet(), peer, 0);
    let status = UdpPacketTrackerStatus { tracker_index: 3, tracker_status: TrackerStatus::Okay };
    server.handle_datagram(&mut main.trackers, &status.to_packet(1), peer, 0);
    main.add_tracker(&id("other"), 0);
    let tracker = id("42:42:00:00:00:00/3");
    main.config.trackers.insert(
        &tracker,
        TrackerConfig { name: None, location: Some(BoneLocation::Chest) },
    );
    main.config.trackers.insert(&id("other"), TrackerConfig::default());
    main.apply_config(0);
    assert_eq!(main.skeleton_manager.trackers[BoneLocation::Chest.ordinal()], Some(tracker.clone()));

    let message = WebsocketClientMessage::RemoveTracker { id: tracker.clone() };
    assert_eq!(handle_ws_message(&mut main, message), None);
    assert!(main.trackers.contains_key(&tracker));
    assert!(main.trackers.get(&tracker).unwrap().info().to_be_removed);
    assert!(main.trackers.get(&tracker).unwrap().internal().was_updated);
    assert!(server.devices[0].all_trackers_removed(&main.trackers));

    let cleanup = main.upkeep_trackers();
    assert_eq!(cleanup.removed, vec![tracker.clone()]);
    assert!(cleanup.config_changed);
    assert!(!main.trackers.contains_key(&tracker));
    assert!(!main.config.trackers.contains_key(&tracker));
    assert!(main.trackers.contains_key(&id("other")));
    assert!(main.config.trackers.contains_key(&id("other")));
    assert!(server.devices[0].all_trackers_removed(&main.trackers));
    main.apply_config(1);
    assert_eq!(main.skeleton_manager.trackers[BoneLocation::Chest.ordinal()], None);

    server.upkeep(&mut main.trackers, 10);
    assert!(server.devices.is_empty());
    assert!(server.is_blacklisted(peer));
}

#[test]
fn removing_an_unknown_tracker_changes_nothing() {
    let mut main = MainServer::new();
    main.add_tracker(&id("a"), 0);
    handle_ws_message(&mut main, WebsocketClientMessage::RemoveTracker { id: id("b") });
    assert!(!main.trackers.value_at(0).info().to_be_removed);
    let cleanup = main.upkeep_trackers();
    assert!(cleanup.removed.is_empty());
    assert!(!cleanup.config_changed);
    assert_eq!(main.trackers.len(), 1);
}

#[test]
fn end_of_tick_clears_update_flags_and_removes_all_marked() {
    let mut main = MainServer::new();
    for name in ["a", "b", "c", "d"] {
        main.add_tracker(&id(name), 0);
    }
    main.trackers.value_at_mut(0).update_info().status = TrackerStatus::Okay;
    main.trackers.value_at_mut(1).update_info().to_be_removed = true;
    main.trackers.value_at_mut(3).update_info().to_be_removed = true;
    main.config.trackers.insert(&id("d"), TrackerConfig::default());
    let cleanup = main.upkeep_trackers();
    assert_eq!(cleanup.removed, vec![id("b"), id("d")]);
    assert!(cleanup.config_changed);
    assert_eq!(main.trackers.len(), 2);
    assert_eq!(main.trackers.id_at(0), "a");
    assert_eq!(main.trackers.id_at(1), "c");
    assert!(!main.trackers.value_at(0).internal().was_updated);
    assert_eq!(main.trackers.value_at(0).info().status, TrackerStatus::Okay);
    assert_eq!(main.config.trackers.len(), 0);

    main.trackers.value_at_mut(1).update_info().to_be_removed = true;
    let cleanup = main.upkeep_trackers();
    assert_eq!(cleanup.removed, vec![id("c")]);
    assert!(!cleanup.config_changed);
}

#[test]
fn serial_send_hands_the_text_back() {
    let mut main = MainServer::new();
    let message = WebsocketClientMessage::SerialSend { data: id("WIFI\n") };
    assert_eq!(handle_ws_message(&mut main, message), Some(id("WIFI\n")));
    assert_eq!(main.trackers.len(), 0);
    assert!(main.updates.config.is_none());
}

#[test]
fn burst_lists_updated_trackers_then_the_skeleton() {
    let mut main = MainServer::new();
    for name in ["a", "b", "c"] {
        main.add_tracker(&id(name), 0);
    }
    main.trackers.value_at_mut(0).update_info().status = TrackerStatus::Okay;
    main.trackers.value_at_mut(2).update_info().status = TrackerStatus::Okay;
    assert_eq!(
        send_ws_messages(&main, false, false),
        vec![
            WebsocketServerMessage::TrackerUpdate { trackers: vec![0, 2] },
            WebsocketServerMessage::SkeletonUpdate,
        ]
    );
    main.updates.error = Some(id("socket closed"));
    assert_eq!(
        send_ws_messages(&main, true, true),
        vec![
            WebsocketServerMessage::TrackerUpdate { trackers: vec![0, 2] },
            WebsocketServerMessage::SkeletonUpdate,
            WebsocketServerMessage::SerialPortChanged,
            WebsocketServerMessage::SerialLog,
            WebsocketServerMessage::Error,
        ]
    );
    main.upkeep_trackers();
    assert_eq!(
        send_ws_messages(&main, false, true),
        vec![
            WebsocketServerMessage::TrackerUpdate { trackers: vec![] },
            WebsocketServerMessage::SkeletonUpdate,
            WebsocketServerMessage::SerialLog,
            WebsocketServerMessage::Error,
        ]
    );
}

#[test]
fn looper_sleeps_out_the_period() {
    assert_eq!(TARGET_LOOP_DELTA_NANOS, 1_000_000_000 / 60);
    let mut looper = Looper::new(0, 0);
    looper.start_loop(1_000);
    assert_eq!(
        looper.loop_end_wait(1_000 + 6_000_000),
        LoopEnd { loop_delta: 6_000_000, sleep: Some(10_666_666), average: None }
    );
    looper.start_loop(50_000_000);
    assert_eq!(looper.loop_end_wait(50_000_000 + TARGET_LOOP_DELTA_NANOS).sleep, Some(0));
    assert_eq!(looper.loop_end_wait(50_000_000 + TARGET_LOOP_DELTA_NANOS + 1).sleep, None);
    assert_eq!(
        looper.loop_end_wait(40_000_000),
        LoopEnd { loop_delta: 0, sleep: Some(TARGET_LOOP_DELTA_NANOS), average: None }
    );
    assert_eq!(looper.loop_count, 0);
}

#[test]
fn looper_reports_the_mean_every_so_many_ticks() {
    let mut looper = Looper::new(0, 3);
    looper.start_loop(0);
    assert_eq!(looper.loop_end_wait(3_000_000).average, None);
    looper.start_loop(100);
    assert_eq!(looper.loop_end_wait(100 + 4_000_000).average, None);
    looper.start_loop(200);
    assert_eq!(looper.loop_end_wait(200 + 8_000_000).average, Some(5_000_000));
    assert_eq!(looper.loop_count, 0);
    assert_eq!(looper.delta_total, 0);
    looper.start_loop(300);
    assert_eq!(looper.loop_end_wait(300 + 30_000_000).average, None);
    assert_eq!(looper.loop_count, 1);
    assert_eq!(looper.delta_total, 30_000_000);
}
