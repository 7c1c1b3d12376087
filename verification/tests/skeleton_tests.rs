use micap_server::id_map::IdMap;
use micap_server::math::{Quat, Vec3};
use micap_server::registry::TrackerRegistry;
use micap_server::skeleton::bone::{Bone, BoneLocation, BONE_COUNT};
use micap_server::skeleton::skeleton_config::{
    BoneOffsetKind, SkeletonConfig, DEFAULT_USER_HEIGHT, OFFSET_KIND_COUNT,
};
use micap_server::skeleton::skeleton_manager::{
    OrientationRule, OrientationSource, SkeletonManager,
};
use micap_server::tracker::{TrackerConfig, TrackerMotion, TrackerStatus};

fn total_height(config: &SkeletonConfig) -> f32 {
    config.get_total_height().iter().map(|bits| f32::from_bits(*bits)).sum()
}

fn quat(x: f32, y: f32, z: f32, w: f32) -> Quat {
    Quat::from_xyzw(x.to_bits(), y.to_bits(), z.to_bits(), w.to_bits())
}

fn identity() -> OrientationSource {
    OrientationSource::Value(Quat::identity())
}

/// A registry and a skeleton with one tracker at each of `worn`, in that
/// order, the tracker at position `i` reporting `(i, 0, 0, 1)`.
fn setup(worn: &[(BoneLocation, TrackerStatus)]) -> (TrackerRegistry, SkeletonManager) {
    let mut registry = TrackerRegistry::new();
    let mut configs: IdMap<TrackerConfig> = IdMap::new();
    for (i, (location, status)) in worn.iter().enumerate() {
        let id = format!("t{i}");
        let k = registry.add(&id, 0);
        let tracker = registry.value_at_mut(k);
        tracker.update_info().status = *status;
        let orientation = quat(i as f32, 0., 0., 1.);
        tracker.update_data(
            TrackerMotion {
                mounted_orientation: orientation,
                orientation,
                acceleration: Vec3::zero(),
                velocity: Vec3::zero(),
                position: Vec3::zero(),
            },
            0,
        );
        configs.insert(&id, TrackerConfig { name: None, location: Some(*location) });
    }
    let mut skeleton = SkeletonManager::new();
    skeleton.apply_tracker_config(&configs);
    (registry, skeleton)
}

fn rule_for(rules: &[OrientationRule], bone: BoneLocation) -> OrientationRule {
    let found: Vec<&OrientationRule> = rules.iter().filter(|r| r.bone == bone).collect();
    assert_eq!(found.len(), 1);
    *found[0]
}

#[test]
fn height_update_correct() {
    let mut skel_conf = SkeletonConfig { user_height: 1.2f32.to_bits(), ..Default::default() };
    let scale = f32::from_bits(skel_conf.user_height) / total_height(&skel_conf);
    let scaled = skel_conf.offsets.map(|bits| (f32::from_bits(bits) * scale).to_bits());
    skel_conf.update_height(scaled);
    let user_height = f32::from_bits(skel_conf.user_height);
    assert!(
        total_height(&skel_conf) > user_height - 0.001
            && total_height(&skel_conf) < user_height + 0.001
    );
}

#[test]
fn default_measurements() {
    let config = SkeletonConfig::default();
    let expected = [
        (BoneOffsetKind::HeadLength, 0.24f32),
        (BoneOffsetKind::NeckLength, 0.10),
        (BoneOffsetKind::WaistLength, 0.20),
        (BoneOffsetKind::ChestLength, 0.18),
        (BoneOffsetKind::UpperChestLength, 0.12),
        (BoneOffsetKind::HipsWidth, 0.36),
        (BoneOffsetKind::UpperLegLength, 0.45),
        (BoneOffsetKind::LowerLegLength, 0.44),
        (BoneOffsetKind::ShouldersWidth, 0.40),
        (BoneOffsetKind::ShoulderOffset, 0.08),
        (BoneOffsetKind::UpperArmLength, 0.30),
        (BoneOffsetKind::LowerArmLength, 0.26),
        (BoneOffsetKind::FootLength, 0.26),
        (BoneOffsetKind::HandLength, 0.18),
    ];
    assert_eq!(expected.len(), OFFSET_KIND_COUNT);
    for (i, (kind, metres)) in expected.iter().enumerate() {
        assert_eq!(kind.ordinal(), i);
        assert_eq!(f32::from_bits(config.offset(*kind)), *metres);
    }
    assert_eq!(config.user_height, DEFAULT_USER_HEIGHT);
    assert_eq!(f32::from_bits(config.user_height), total_height(&config));
    assert!((total_height(&config) - 1.53).abs() < 1e-6);
}

#[test]
fn height_and_leg_length_add_the_right_measurements() {
    let mut config = SkeletonConfig::default();
    for i in 0..OFFSET_KIND_COUNT {
        config.offsets[i] = i as u32;
    }
    assert_eq!(config.get_leg_length(), vec![6, 7]);
    assert_eq!(config.get_total_height(), vec![7, 6, 3, 4, 1, 0]);
}

#[test]
fn new_skeleton_is_in_rest_pose() {
    let skeleton = SkeletonManager::new();
    assert_eq!(skeleton.bones.len(), BONE_COUNT);
    assert_eq!(skeleton.root_position, Vec3::zero());
    for i in 0..BONE_COUNT {
        let location = BoneLocation::from_ordinal(i);
        assert_eq!(*skeleton.bone(location), Bone::new(location.parent()));
        assert_eq!(skeleton.trackers[i], None);
    }
}

#[test]
fn without_trackers_everything_follows_the_identity() {
    let (registry, skeleton) = setup(&[]);
    let rules = skeleton.update(&registry);
    assert_eq!(rules.len(), 22);
    let head = OrientationSource::Bone(BoneLocation::Head);
    assert_eq!(
        &rules[..6],
        &[
            OrientationRule { bone: BoneLocation::Head, source: identity(), yaw_only: false },
            OrientationRule { bone: BoneLocation::Neck, source: identity(), yaw_only: false },
            OrientationRule { bone: BoneLocation::Waist, source: head, yaw_only: true },
            OrientationRule { bone: BoneLocation::UpperChest, source: head, yaw_only: true },
            OrientationRule { bone: BoneLocation::Chest, source: head, yaw_only: true },
            OrientationRule { bone: BoneLocation::Hip, source: head, yaw_only: true },
        ]
    );
    for i in 0..BONE_COUNT {
        rule_for(&rules, BoneLocation::from_ordinal(i));
    }
}

#[test]
fn rules_only_refer_to_bones_resolved_before() {
    for worn in [
        vec![],
        vec![(BoneLocation::Hip, TrackerStatus::Okay)],
        vec![(BoneLocation::Head, TrackerStatus::Okay), (BoneLocation::LeftFoot, TrackerStatus::Okay)],
    ] {
        let (registry, skeleton) = setup(&worn);
        let rules = skeleton.update(&registry);
        let mut resolved: Vec<BoneLocation> = Vec::new();
        for rule in &rules {
            if let OrientationSource::Bone(other) = rule.source {
                assert!(resolved.contains(&other));
            }
            assert!(!resolved.contains(&rule.bone));
            resolved.push(rule.bone);
        }
        assert_eq!(resolved.len(), 22);
    }
}

#[test]
fn hip_tracker_alone_drives_the_spine_and_only_yaws_the_root() {
    let (registry, skeleton) = setup(&[(BoneLocation::Hip, TrackerStatus::Okay)]);
    let rules = skeleton.update(&registry);
    let tracker = OrientationSource::Value(quat(0., 0., 0., 1.));
    assert_eq!(
        rule_for(&rules, BoneLocation::Hip),
        OrientationRule { bone: BoneLocation::Hip, source: tracker, yaw_only: true }
    );
    for bone in [
        BoneLocation::Head,
        BoneLocation::Neck,
        BoneLocation::UpperChest,
        BoneLocation::Chest,
        BoneLocation::Waist,
    ] {
        assert_eq!(
            rule_for(&rules, bone),
            OrientationRule { bone, source: tracker, yaw_only: false }
        );
    }
    assert_eq!(
        rule_for(&rules, BoneLocation::LeftHip).source,
        OrientationSource::Bone(BoneLocation::Hip)
    );
    assert_eq!(
        rule_for(&rules, BoneLocation::LeftUpperLeg).source,
        OrientationSource::Bone(BoneLocation::Hip)
    );
    assert_eq!(
        rule_for(&rules, BoneLocation::RightFoot).source,
        OrientationSource::Bone(BoneLocation::RightLowerLeg)
    );
    assert_eq!(
        rule_for(&rules, BoneLocation::LeftShoulder).source,
        OrientationSource::Bone(BoneLocation::UpperChest)
    );
}

#[test]
fn spine_fallback_orders() {
    let (registry, skeleton) = setup(&[
        (BoneLocation::Waist, TrackerStatus::Okay),
        (BoneLocation::Chest, TrackerStatus::Okay),
    ]);
    let rules = skeleton.update(&registry);
    let waist = OrientationSource::Value(quat(0., 0., 0., 1.));
    let chest = OrientationSource::Value(quat(1., 0., 0., 1.));
    assert_eq!(rule_for(&rules, BoneLocation::Hip).source, waist);
    assert!(rule_for(&rules, BoneLocation::Hip).yaw_only);
    assert_eq!(rule_for(&rules, BoneLocation::UpperChest).source, chest);
    assert_eq!(rule_for(&rules, BoneLocation::Chest).source, chest);
    assert_eq!(rule_for(&rules, BoneLocation::Waist).source, waist);
    assert_eq!(rule_for(&rules, BoneLocation::Head).source, chest);
    assert_eq!(rule_for(&rules, BoneLocation::Neck).source, chest);
}

#[test]
fn tracker_that_is_not_ok_is_passed_over() {
    let (registry, skeleton) = setup(&[
        (BoneLocation::Head, TrackerStatus::TimedOut),
        (BoneLocation::Neck, TrackerStatus::Okay),
        (BoneLocation::Chest, TrackerStatus::Error),
    ]);
    let rules = skeleton.update(&registry);
    let neck = OrientationSource::Value(quat(1., 0., 0., 1.));
    assert_eq!(rule_for(&rules, BoneLocation::Head).source, neck);
    // A tracker is assigned to the torso, so the spine does not follow the head,
    // but none on the torso has an orientation to give.
    assert_eq!(rule_for(&rules, BoneLocation::Chest).source, identity());
    assert_eq!(rule_for(&rules, BoneLocation::Hip).source, identity());
    assert!(rule_for(&rules, BoneLocation::Hip).yaw_only);
    assert!(!rule_for(&rules, BoneLocation::Chest).yaw_only);
}

#[test]
fn tracker_gone_from_the_registry_is_passed_over() {
    let (mut registry, skeleton) = setup(&[(BoneLocation::LeftLowerArm, TrackerStatus::Okay)]);
    let own = OrientationSource::Value(quat(0., 0., 0., 1.));
    assert_eq!(rule_for(&skeleton.update(&registry), BoneLocation::LeftLowerArm).source, own);
    assert_eq!(
        rule_for(&skeleton.update(&registry), BoneLocation::LeftHand).source,
        OrientationSource::Bone(BoneLocation::LeftLowerArm)
    );
    registry.remove(&"t0".to_string());
    assert_eq!(
        rule_for(&skeleton.update(&registry), BoneLocation::LeftLowerArm).source,
        OrientationSource::Bone(BoneLocation::LeftUpperArm)
    );
}

#[test]
fn limbs_follow_their_own_trackers() {
    let (registry, skeleton) = setup(&[
        (BoneLocation::RightShoulder, TrackerStatus::Okay),
        (BoneLocation::RightHand, TrackerStatus::Okay),
        (BoneLocation::LeftUpperLeg, TrackerStatus::Okay),
        (BoneLocation::LeftHip, TrackerStatus::Okay),
    ]);
    let rules = skeleton.update(&registry);
    assert_eq!(
        rule_for(&rules, BoneLocation::RightShoulder).source,
        OrientationSource::Value(quat(0., 0., 0., 1.))
    );
    assert_eq!(
        rule_for(&rules, BoneLocation::RightUpperArm).source,
        OrientationSource::Bone(BoneLocation::RightShoulder)
    );
    assert_eq!(
        rule_for(&rules, BoneLocation::RightHand).source,
        OrientationSource::Value(quat(1., 0., 0., 1.))
    );
    assert_eq!(
        rule_for(&rules, BoneLocation::LeftUpperLeg).source,
        OrientationSource::Value(quat(2., 0., 0., 1.))
    );
    // The hinge between hip and leg always follows the hip.
    assert_eq!(
        rule_for(&rules, BoneLocation::LeftHip).source,
        OrientationSource::Bone(BoneLocation::Hip)
    );
}

#[test]
fn get_tracker_orientation_takes_the_first_that_is_ok() {
    let (registry, skeleton) = setup(&[
        (BoneLocation::Chest, TrackerStatus::Okay),
        (BoneLocation::Waist, TrackerStatus::Okay),
    ]);
    let waist = OrientationSource::Value(quat(1., 0., 0., 1.));
    let chest = OrientationSource::Value(quat(0., 0., 0., 1.));
    assert_eq!(
        skeleton.get_tracker_orientation(&registry, &[BoneLocation::Waist, BoneLocation::Chest]),
        waist
    );
    assert_eq!(
        skeleton.get_tracker_orientation(
            &registry,
            &[BoneLocation::Hip, BoneLocation::Chest, BoneLocation::Waist]
        ),
        chest
    );
    assert_eq!(skeleton.get_tracker_orientation(&registry, &[BoneLocation::Hip]), identity());
    assert_eq!(skeleton.get_tracker_orientation(&registry, &[]), identity());
    let fallback = OrientationSource::Bone(BoneLocation::Neck);
    assert_eq!(
        skeleton.get_tracker_orientation_or_default(&registry, &[BoneLocation::Head], fallback),
        fallback
    );
}

#[test]
fn last_configured_tracker_wins_a_bone() {
    let mut configs: IdMap<TrackerConfig> = IdMap::new();
    let at = |location| TrackerConfig { name: None, location };
    configs.insert(&"a".to_string(), at(Some(BoneLocation::Hip)));
    configs.insert(&"b".to_string(), at(None));
    configs.insert(&"c".to_string(), at(Some(BoneLocation::Hip)));
    configs.insert(&"d".to_string(), at(Some(BoneLocation::Head)));
    let mut skeleton = SkeletonManager::new();
    skeleton.apply_tracker_config(&configs);
    assert_eq!(skeleton.trackers[BoneLocation::Hip.ordinal()], Some("c".to_string()));
    assert_eq!(skeleton.trackers[BoneLocation::Head.ordinal()], Some("d".to_string()));
    assert_eq!(skeleton.trackers.iter().filter(|t| t.is_some()).count(), 2);
    skeleton.apply_tracker_config(&IdMap::new());
    assert_eq!(skeleton.trackers.iter().filter(|t| t.is_some()).count(), 0);
}

#[test]
fn skeleton_config_sets_lengths_and_root() {
    let mut skeleton = SkeletonManager::new();
    let mut offsets = [Vec3::zero(); 22];
    for (i, offset) in offsets.iter_mut().enumerate() {
        *offset = Vec3::new(i as u32, 2 * i as u32, 3 * i as u32);
    }
    skeleton.apply_skeleton_config(0.89f32.to_bits(), &offsets);
    assert_eq!(skeleton.root_position, Vec3::new(0, 0.89f32.to_bits(), 0));
    for i in 0..BONE_COUNT {
        let location = BoneLocation::from_ordinal(i);
        assert_eq!(skeleton.bone(location).tail_offset, offsets[i]);
        assert_eq!(skeleton.bone(location).parent, location.parent());
    }
}

#[test]
fn poses_are_recorded_per_bone() {
    let mut skeleton = SkeletonManager::new();
    let q = quat(0., 1., 0., 0.);
    skeleton.set_bone_orientation(&[BoneLocation::Head, BoneLocation::Neck], q);
    skeleton.set_bone_pose(BoneLocation::Neck, quat(1., 0., 0., 0.), Vec3::new(1, 2, 3));
    assert_eq!(skeleton.bone(BoneLocation::Head).world_orientation, q);
    assert_eq!(skeleton.bone(BoneLocation::Head).local_orientation, Quat::identity());
    assert_eq!(skeleton.bone(BoneLocation::Neck).world_orientation, q);
    assert_eq!(skeleton.bone(BoneLocation::Neck).local_orientation, quat(1., 0., 0., 0.));
    assert_eq!(skeleton.bone(BoneLocation::Neck).tail_world_position, Vec3::new(1, 2, 3));
    assert_eq!(skeleton.bone(BoneLocation::Chest).world_orientation, Quat::identity());
}
