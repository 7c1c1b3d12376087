use micap_server::math::{Quat, Vec3};
use micap_server::osc::vmc_connector::{VmcConfig, VmcConnector};
use micap_server::osc::vrchat_connector::{make_pos_message, VrChatConfig, VrChatConnector};
use micap_server::osc::{OscArg, OscConnector, OscMessage};
use micap_server::skeleton::bone::BoneLocation;
use micap_server::skeleton::skeleton_manager::SkeletonManager;

fn floats(message: &OscMessage, from: usize) -> Vec<f32> {
    message.args[from..]
        .iter()
        .map(|arg| match arg {
            OscArg::Float(bits) => f32::from_bits(*bits),
            other => panic!("not a float: {:?}", other),
        })
        .collect()
}

fn posed_skeleton() -> SkeletonManager {
    let mut skeleton = SkeletonManager::new();
    let mut offsets = [Vec3::zero(); 22];
    offsets[BoneLocation::Waist.ordinal()] = Vec3::new(0, 0.2f32.to_bits(), 0);
    skeleton.apply_skeleton_config(0.89f32.to_bits(), &offsets);
    skeleton.set_bone_pose(
        BoneLocation::Chest,
        Quat::from_xyzw(0.1f32.to_bits(), 0.2f32.to_bits(), 0.3f32.to_bits(), 0.4f32.to_bits()),
        Vec3::new(1f32.to_bits(), 2f32.to_bits(), 3f32.to_bits()),
    );
    skeleton.set_bone_orientation(
        &[BoneLocation::Chest],
        Quat::from_xyzw(0, 0, 1f32.to_bits(), 0),
    );
    skeleton
}

#[test]
fn vmc_config_defaults() {
    let config = VmcConfig::default();
    assert!(!config.enabled);
    assert_eq!(config.send_port, 39539);
    assert_eq!(config.receive_port, 39540);
}

#[test]
fn vrchat_config_defaults() {
    let config = VrChatConfig::default();
    assert!(!config.enabled);
    assert_eq!(config.send_port, 9000);
    assert_eq!(
        config.bones_to_send,
        vec![
            BoneLocation::Hip,
            BoneLocation::Chest,
            BoneLocation::LeftFoot,
            BoneLocation::RightFoot,
            BoneLocation::RightLowerLeg,
            BoneLocation::LeftLowerLeg,
            BoneLocation::LeftUpperArm,
            BoneLocation::RightUpperArm,
        ]
    );
}

#[test]
fn nothing_is_published_while_disabled() {
    let skeleton = SkeletonManager::new();
    assert!(VmcConnector::new().update(&VmcConfig::default(), &skeleton).is_none());
    let rotations = vec![Vec3::zero(); 8];
    assert!(VrChatConnector::new()
        .update(&VrChatConfig::default(), &skeleton, &rotations)
        .is_none());
}

#[test]
fn vmc_bundle_shape() {
    let config = VmcConfig { enabled: true, ..VmcConfig::default() };
    let bundle = VmcConnector::new().update(&config, &posed_skeleton()).unwrap();
    assert_eq!(bundle[0].addr, "/VMC/Ext/OK");
    assert!(matches!(bundle[0].args[..], [OscArg::Int(1)]));
    let transforms = &bundle[1..];
    assert_eq!(transforms.len(), 20);
    let mut names = Vec::new();
    for message in transforms {
        assert_eq!(message.addr, "/VMC/Ext/Bone/Pos");
        assert_eq!(message.args.len(), 8);
        match &message.args[0] {
            OscArg::Str(name) => names.push(name.clone()),
            other => panic!("not a name: {:?}", other),
        }
        assert_eq!(floats(message, 1).len(), 7);
    }
    assert_eq!(names[0], "Hips");
    assert_eq!(names[1], "Spine");
    assert!(!names.contains(&"LeftHip".to_string()));
    assert!(!names.contains(&"RightHip".to_string()));
    let mut unique = names.clone();
    unique.sort();
    unique.dedup();
    assert_eq!(unique.len(), 20);
}

#[test]
fn vmc_transform_holds_head_offset_and_flipped_orientation() {
    let config = VmcConfig { enabled: true, ..VmcConfig::default() };
    let bundle = VmcConnector::new().update(&config, &posed_skeleton()).unwrap();
    let chest = bundle
        .iter()
        .find(|m| matches!(m.args.first(), Some(OscArg::Str(name)) if name == "Chest"))
        .unwrap();
    // The chest hangs from the waist, whose tail lies 0.2 above its head.
    assert_eq!(floats(chest, 1), vec![0., 0.2, 0., 0.1, 0.2, -0.3, -0.4]);
    let hips = &bundle[1];
    assert_eq!(floats(hips, 1), vec![0., 0., 0., 0., 0., -0., -1.]);
}

#[test]
fn vrchat_sends_position_and_rotation_per_bone() {
    let config = VrChatConfig {
        enabled: true,
        send_port: 9000,
        bones_to_send: vec![BoneLocation::Hip, BoneLocation::Chest],
    };
    let skeleton = posed_skeleton();
    let orientations = VrChatConnector::orientations_to_send(&config, &skeleton);
    assert_eq!(
        orientations,
        vec![Quat::identity(), Quat::from_xyzw(0, 0, 1f32.to_bits(), 0)]
    );
    let rotations = vec![
        Vec3::new(10f32.to_bits(), 20f32.to_bits(), 30f32.to_bits()),
        Vec3::new(40f32.to_bits(), 50f32.to_bits(), 60f32.to_bits()),
    ];
    let messages = VrChatConnector::new().update(&config, &skeleton, &rotations).unwrap();
    assert_eq!(messages.len(), 4);
    assert_eq!(messages[0].addr, "/tracking/trackers/0/position");
    assert_eq!(floats(&messages[0], 0), vec![0., 0., 0.]);
    assert_eq!(messages[1].addr, "/tracking/trackers/0/rotation");
    assert_eq!(floats(&messages[1], 0), vec![10., 20., 30.]);
    assert_eq!(messages[2].addr, "/tracking/trackers/1/position");
    assert_eq!(floats(&messages[2], 0), vec![1., 2., 3.]);
    assert_eq!(messages[3].addr, "/tracking/trackers/1/rotation");
    assert_eq!(floats(&messages[3], 0), vec![40., 50., 60.]);
}

#[test]
fn vrchat_publishes_no_bone_without_its_rotation() {
    let config = VrChatConfig { enabled: true, ..VrChatConfig::default() };
    let skeleton = SkeletonManager::new();
    let rotations = vec![Vec3::zero(); 3];
    let messages = VrChatConnector::new().update(&config, &skeleton, &rotations).unwrap();
    assert_eq!(messages.len(), 6);
    let rotations = vec![Vec3::zero(); 12];
    let messages = VrChatConnector::new().update(&config, &skeleton, &rotations).unwrap();
    assert_eq!(messages.len(), 16);
    assert_eq!(messages[15].addr, "/tracking/trackers/7/rotation");
}

#[test]
fn tracker_numbers_are_decimal() {
    let config = VrChatConfig {
        enabled: true,
        send_port: 9000,
        bones_to_send: vec![BoneLocation::Head; 12],
    };
    let rotations = vec![Vec3::zero(); 12];
    let messages =
        VrChatConnector::new().update(&config, &SkeletonManager::new(), &rotations).unwrap();
    assert_eq!(messages[20].addr, "/tracking/trackers/10/position");
    assert_eq!(messages[23].addr, "/tracking/trackers/11/rotation");
}

#[test]
fn pos_message_carries_three_floats() {
    let message = make_pos_message("/x".to_string(), Vec3::new(1, 2, 3));
    assert_eq!(message.addr, "/x");
    assert!(matches!(message.args[..], [OscArg::Float(1), OscArg::Float(2), OscArg::Float(3)]));
}

#[test]
fn socket_is_connected_when_the_port_changes() {
    let mut osc = OscConnector::new();
    assert!(!osc.needs_connect(false, 9000));
    assert!(osc.needs_connect(true, 9000));
    osc.connect(9000);
    assert!(!osc.needs_connect(true, 9000));
    assert!(osc.needs_connect(true, 9001));
    assert!(!osc.needs_connect(false, 9001));

    let mut vmc = VmcConnector::new();
    let enabled = VmcConfig { enabled: true, ..VmcConfig::default() };
    assert!(!vmc.apply_config(&VmcConfig::default()));
    assert!(vmc.apply_config(&enabled));
    vmc.osc.connect(39539);
    assert!(!vmc.apply_config(&enabled));

    let mut vrchat = VrChatConnector::new();
    let enabled = VrChatConfig { enabled: true, ..VrChatConfig::default() };
    assert!(vrchat.apply_config(&enabled));
    vrchat.osc.connect(9000);
    assert!(!vrchat.apply_config(&enabled));
}
