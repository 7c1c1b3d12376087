use micap_server::id_map::IdMap;
use micap_server::math::{Quat, Vec3};
use micap_server::registry::TrackerRegistry;
use micap_server::skeleton::bone::BoneLocation;
use micap_server::skeleton::skeleton_manager::{OrientationSource, SkeletonManager};
use micap_server::tracker::{Tracker, TrackerConfig, TrackerMotion, TrackerStatus};

fn to_bits(q: glam::Quat) -> Quat {
    Quat::from_xyzw(q.x.to_bits(), q.y.to_bits(), q.z.to_bits(), q.w.to_bits())
}

fn from_bits(q: Quat) -> glam::Quat {
    glam::Quat::from_xyzw(
        f32::from_bits(q.x),
        f32::from_bits(q.y),
        f32::from_bits(q.z),
        f32::from_bits(q.w),
    )
}

fn locked_with_yaw(quat: glam::Quat) -> glam::Quat {
    let xyz = quat.xyz().dot(glam::Vec3::Y) * glam::Vec3::Y;
    glam::Quat::from_vec4(xyz.extend(quat.w)).normalize()
}

fn motion(q: glam::Quat) -> TrackerMotion {
    TrackerMotion {
        mounted_orientation: to_bits(q),
        orientation: to_bits(q),
        acceleration: Vec3::zero(),
        velocity: Vec3::zero(),
        position: Vec3::zero(),
    }
}

#[test]
fn skeleton_yaw_lock() {
    let reported = glam::Quat::from_rotation_y(30f32.to_radians())
        * glam::Quat::from_rotation_x(45f32.to_radians());
    let mut registry = TrackerRegistry::new();
    let id = "42:42:00:00:00:00/0".to_string();
    let k = registry.add(&id, 0);
    registry.value_at_mut(k).update_info().status = TrackerStatus::Okay;
    registry.value_at_mut(k).update_data(motion(reported), 0);
    let mut configs: IdMap<TrackerConfig> = IdMap::new();
    configs.insert(&id, TrackerConfig { name: None, location: Some(BoneLocation::Hip) });
    let mut skeleton = SkeletonManager::new();
    skeleton.apply_tracker_config(&configs);

    let rules = skeleton.update(&registry);
    let rule = rules.iter().find(|r| r.bone == BoneLocation::root()).unwrap();
    assert!(rule.yaw_only);
    let given = match rule.source {
        OrientationSource::Value(q) => from_bits(q),
        OrientationSource::Bone(_) => panic!("the root follows no bone"),
    };
    assert_eq!(given, reported);
    let world = locked_with_yaw(given);
    let (yaw, pitch, roll) = world.to_euler(glam::EulerRot::YXZ);
    assert!(roll.to_degrees().abs() < 1e-3);
    assert!(pitch.to_degrees().abs() < 1e-3);
    assert!(yaw > 0.);
    assert!(world.x.abs() < 1e-6 && world.z.abs() < 1e-6);
    let unlocked_yaw = reported.to_euler(glam::EulerRot::YXZ).0;
    assert!((unlocked_yaw.to_degrees() - 30.).abs() < 1e-3);
}

#[test]
fn reset_orientation_reads_the_same_pose_as_identity() {
    let mounted = (glam::Quat::from_rotation_x(0.3) * glam::Quat::from_rotation_z(-1.1)).normalize();
    let mut tracker = Tracker::new(0);
    tracker.update_data(motion(mounted), 1);
    tracker.reset_orientation();
    tracker.reset_orientation();
    let offset = from_bits(tracker.internal().orientation_offset);
    assert_eq!(offset, mounted.inverse());
    let exposed = offset * mounted;
    assert!(exposed.abs_diff_eq(glam::Quat::IDENTITY, 1e-6));
}
