use micap_server::id_map::IdMap;
use micap_server::math::{negate, Quat, Vec3};
use micap_server::registry::TrackerRegistry;
use micap_server::skeleton::bone::BoneLocation;
use micap_server::tracker::{
    MountOffset, Tracker, TrackerConfig, TrackerData, TrackerInfo, TrackerMotion, TrackerStatus,
};

fn quat(x: f32, y: f32, z: f32, w: f32) -> Quat {
    Quat::from_xyzw(x.to_bits(), y.to_bits(), z.to_bits(), w.to_bits())
}

#[test]
fn new_tracker_is_off_and_at_rest() {
    let t = Tracker::new(42);
    assert_eq!(*t.info(), TrackerInfo::default());
    assert_eq!(t.info().status, TrackerStatus::Off);
    assert_eq!(t.info().latency_ms, None);
    assert!(!t.info().to_be_removed);
    assert_eq!(*t.data(), TrackerData::default());
    assert_eq!(t.data().orientation, quat(0., 0., 0., 1.));
    assert_eq!(t.internal().time_data_last_updated, 42);
    assert!(!t.internal().was_updated);
    assert_eq!(t.internal().mount_offset, MountOffset::Identity);
    assert_eq!(TrackerStatus::default(), TrackerStatus::Off);
}

#[test]
fn status_wire_codes() {
    assert_eq!(TrackerStatus::Okay.wire_code(), 0);
    assert_eq!(TrackerStatus::Error.wire_code(), 1);
    assert_eq!(TrackerStatus::Off.wire_code(), 2);
    assert_eq!(TrackerStatus::TimedOut.wire_code(), 3);
}

#[test]
fn update_data_stores_and_stamps() {
    let mut t = Tracker::new(0);
    let motion = TrackerMotion {
        mounted_orientation: quat(1., 0., 0., 0.),
        orientation: quat(0., 1., 0., 0.),
        acceleration: Vec3::new(1, 2, 3),
        velocity: Vec3::new(4, 5, 6),
        position: Vec3::new(7, 8, 9),
    };
    assert_eq!(t.elapsed_since_data(1000), 1000);
    t.update_data(motion, 1000);
    assert_eq!(t.data().orientation, quat(0., 1., 0., 0.));
    assert_eq!(t.data().acceleration, Vec3::new(1, 2, 3));
    assert_eq!(t.data().position, Vec3::new(7, 8, 9));
    assert_eq!(t.internal().mounted_orientation, quat(1., 0., 0., 0.));
    assert_eq!(t.internal().velocity, Vec3::new(4, 5, 6));
    assert_eq!(t.internal().time_data_last_updated, 1000);
    assert!(t.internal().was_updated);
    assert_eq!(t.elapsed_since_data(1500), 500);
    assert_eq!(t.elapsed_since_data(500), 0);
    t.clear_was_updated();
    assert!(!t.internal().was_updated);
    t.reset_data();
    assert_eq!(*t.data(), TrackerData::default());
    assert!(t.internal().was_updated);
}

#[test]
fn reset_orientation_captures_the_conjugate() {
    let mut t = Tracker::new(0);
    let mounted = quat(0.5, -0.5, 0.5, 0.5);
    let motion = TrackerMotion {
        mounted_orientation: mounted,
        orientation: mounted,
        acceleration: Vec3::zero(),
        velocity: Vec3::zero(),
        position: Vec3::zero(),
    };
    t.update_data(motion, 1);
    t.reset_orientation();
    assert_eq!(t.internal().orientation_offset, quat(-0.5, 0.5, -0.5, 0.5));
    t.reset_orientation();
    assert_eq!(t.internal().orientation_offset, quat(-0.5, 0.5, -0.5, 0.5));
    assert_eq!(mounted.conjugate().conjugate(), mounted);
    assert_eq!(negate(1.5f32.to_bits()), (-1.5f32).to_bits());
}

#[test]
fn mount_offset_depends_on_the_limb() {
    for location in [BoneLocation::LeftUpperArm, BoneLocation::LeftLowerArm, BoneLocation::LeftHand] {
        assert_eq!(MountOffset::for_location(location), MountOffset::LeftArm);
    }
    for location in
        [BoneLocation::RightUpperArm, BoneLocation::RightLowerArm, BoneLocation::RightHand]
    {
        assert_eq!(MountOffset::for_location(location), MountOffset::RightArm);
    }
    for location in [
        BoneLocation::Hip,
        BoneLocation::Head,
        BoneLocation::LeftShoulder,
        BoneLocation::RightFoot,
        BoneLocation::LeftHip,
    ] {
        assert_eq!(MountOffset::for_location(location), MountOffset::Body);
    }
    let mut t = Tracker::new(0);
    t.set_mount_offset(BoneLocation::RightHand);
    assert_eq!(t.internal().mount_offset, MountOffset::RightArm);
    assert!(!t.internal().was_updated);
}

#[test]
fn set_timed_out_touches_ok_and_timed_out_only() {
    let mut t = Tracker::new(0);
    t.set_timed_out(true);
    assert_eq!(t.info().status, TrackerStatus::Off);
    assert!(!t.internal().was_updated);
    t.update_info().status = TrackerStatus::Error;
    t.clear_was_updated();
    t.set_timed_out(true);
    assert_eq!(t.info().status, TrackerStatus::Error);
    assert!(!t.internal().was_updated);
    t.update_info().status = TrackerStatus::Okay;
    t.clear_was_updated();
    t.set_timed_out(false);
    assert_eq!(t.info().status, TrackerStatus::Okay);
    assert!(t.internal().was_updated);
    t.set_timed_out(true);
    assert_eq!(t.info().status, TrackerStatus::TimedOut);
    t.set_timed_out(false);
    assert_eq!(t.info().status, TrackerStatus::Okay);
}

#[test]
fn registry_keeps_insertion_order() {
    let mut registry = TrackerRegistry::new();
    assert_eq!(registry.len(), 0);
    let a = "a".to_string();
    let b = "b".to_string();
    let c = "c".to_string();
    assert_eq!(registry.add(&a, 1), 0);
    assert_eq!(registry.add(&b, 2), 1);
    assert_eq!(registry.add(&c, 3), 2);
    assert_eq!(registry.add(&b, 9), 1);
    assert_eq!(registry.len(), 3);
    assert_eq!(registry.value_at(1).internal().time_data_last_updated, 2);
    assert_eq!(registry.index_of(&c), Some(2));
    assert!(registry.contains_key(&a));
    assert!(registry.remove(&a).is_some());
    assert!(registry.remove(&a).is_none());
    assert!(!registry.contains_key(&a));
    assert_eq!(registry.len(), 2);
    assert_eq!(registry.id_at(0), "b");
    assert_eq!(registry.id_at(1), "c");
    assert_eq!(registry.index_of(&a), None);
    assert!(registry.get(&a).is_none());
    assert_eq!(registry.get(&c).unwrap().internal().time_data_last_updated, 3);
}

#[test]
fn id_map_insert_replaces_in_place() {
    let mut map: IdMap<TrackerConfig> = IdMap::new();
    let hip = TrackerConfig { name: Some("hello".to_string()), location: Some(BoneLocation::Hip) };
    let head = TrackerConfig { name: None, location: Some(BoneLocation::Head) };
    assert_eq!(map.insert(&"test".to_string(), hip), 0);
    assert_eq!(map.insert(&"other".to_string(), TrackerConfig::default()), 1);
    assert_eq!(map.insert(&"test".to_string(), head), 0);
    assert_eq!(map.len(), 2);
    assert_eq!(map.value_at(0).location, Some(BoneLocation::Head));
    assert_eq!(map.value_at(0).name, None);
    assert_eq!(map.value_at(1).location, None);
    map.value_at_mut(1).location = Some(BoneLocation::Neck);
    assert_eq!(map.get(&"other".to_string()).unwrap().location, Some(BoneLocation::Neck));
}
