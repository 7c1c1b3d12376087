use micap_server::skeleton::bone::BoneLocation::{
    Chest, Head, Hip, LeftFoot, LeftHand, LeftHip, LeftLowerArm, LeftLowerLeg, LeftShoulder,
    LeftUpperArm, LeftUpperLeg, Neck, RightFoot, RightHand, RightHip, RightLowerArm,
    RightLowerLeg, RightShoulder, RightUpperArm, RightUpperLeg, UpperChest, Waist,
};
use micap_server::skeleton::bone::{Bone, BoneLocation, OffsetTerm, TailOffset, BONE_COUNT};
use micap_server::skeleton::skeleton_config::BoneOffsetKind;
use micap_server::skeleton::skeleton_manager::update_bone_recursive;

#[test]
fn ok_children() {
    assert_eq!(Hip.get_children(), &[Waist, LeftHip, RightHip]);
    assert_eq!(Waist.get_children(), &[Chest]);
    let none: [BoneLocation; 0] = [];
    assert_eq!(LeftFoot.get_children(), &none);
}

#[test]
fn upper_chest_carries_arms_and_neck() {
    assert_eq!(UpperChest.get_children(), &[LeftShoulder, RightShoulder, Neck]);
    assert_eq!(Neck.get_children(), &[Head]);
}

#[test]
fn every_bone_but_the_root_has_a_parent() {
    assert_eq!(BoneLocation::root(), Hip);
    assert_eq!(Hip.parent(), None);
    for i in 0..BONE_COUNT {
        let bone = BoneLocation::from_ordinal(i);
        assert_eq!(bone.ordinal(), i);
        if bone != Hip {
            let parent = bone.parent().unwrap();
            assert!(parent.get_children().contains(&bone));
        }
    }
}

#[test]
fn table_lists_parents_first() {
    let mut seen: Vec<BoneLocation> = Vec::new();
    for row in 0..BONE_COUNT {
        let bone = BoneLocation::table_row(row);
        assert!(!seen.contains(&bone));
        if let Some(parent) = bone.parent() {
            assert!(seen.contains(&parent));
        }
        seen.push(bone);
    }
    assert_eq!(seen.len(), 22);
}

#[test]
fn unity_names() {
    assert_eq!(Hip.as_unity_name(), Some("Hips".to_string()));
    assert_eq!(Waist.as_unity_name(), Some("Spine".to_string()));
    assert_eq!(LeftHip.as_unity_name(), None);
    assert_eq!(RightHip.as_unity_name(), None);
    assert_eq!(LeftUpperLeg.as_unity_name(), Some("LeftUpperLeg".to_string()));
    assert_eq!(RightLowerArm.as_unity_name(), Some("RightLowerArm".to_string()));
    for i in 0..BONE_COUNT {
        let bone = BoneLocation::from_ordinal(i);
        if bone != Hip && bone != Waist && bone != LeftHip && bone != RightHip {
            assert_eq!(bone.as_unity_name(), Some(format!("{:?}", bone)));
        }
    }
}

#[test]
fn tail_offsets_follow_the_body() {
    let zero = OffsetTerm::Zero;
    assert_eq!(Hip.get_tail_offset(), TailOffset { x: zero, y: zero, z: zero });
    assert_eq!(
        LeftHip.get_tail_offset(),
        TailOffset { x: OffsetTerm::MinusHalf(BoneOffsetKind::HipsWidth), y: zero, z: zero }
    );
    assert_eq!(
        RightShoulder.get_tail_offset(),
        TailOffset {
            x: OffsetTerm::PlusHalf(BoneOffsetKind::ShouldersWidth),
            y: OffsetTerm::Plus(BoneOffsetKind::ShoulderOffset),
            z: zero
        }
    );
    assert_eq!(
        RightLowerLeg.get_tail_offset(),
        TailOffset { x: zero, y: OffsetTerm::Minus(BoneOffsetKind::LowerLegLength), z: zero }
    );
    assert_eq!(
        LeftFoot.get_tail_offset(),
        TailOffset { x: zero, y: zero, z: OffsetTerm::Plus(BoneOffsetKind::FootLength) }
    );
    assert_eq!(
        LeftHand.get_tail_offset(),
        TailOffset { x: OffsetTerm::Minus(BoneOffsetKind::HandLength), y: zero, z: zero }
    );
    assert_eq!(
        RightHand.get_tail_offset(),
        TailOffset { x: OffsetTerm::Plus(BoneOffsetKind::HandLength), y: zero, z: zero }
    );
    assert_eq!(Head.get_tail_offset(), TailOffset { x: zero, y: OffsetTerm::HeadTip, z: zero });
}

#[test]
fn walk_from_the_root_is_depth_first() {
    let mut order = Vec::new();
    update_bone_recursive(Hip, &mut order);
    assert_eq!(
        order,
        vec![
            Hip,
            Waist,
            Chest,
            UpperChest,
            LeftShoulder,
            LeftUpperArm,
            LeftLowerArm,
            LeftHand,
            RightShoulder,
            RightUpperArm,
            RightLowerArm,
            RightHand,
            Neck,
            Head,
            LeftHip,
            LeftUpperLeg,
            LeftLowerLeg,
            LeftFoot,
            RightHip,
            RightUpperLeg,
            RightLowerLeg,
            RightFoot,
        ]
    );
}

#[test]
fn walk_from_a_limb_stays_in_it() {
    let mut order = vec![Hip];
    update_bone_recursive(LeftUpperLeg, &mut order);
    assert_eq!(order, vec![Hip, LeftUpperLeg, LeftLowerLeg, LeftFoot]);
}

#[test]
fn head_of_a_bone_lies_at_the_tail_of_its_parent() {
    let mut bones: Vec<Bone> = Vec::new();
    for i in 0..BONE_COUNT {
        let mut bone = Bone::new(BoneLocation::from_ordinal(i).parent());
        bone.tail_offset.y = 100 + i as u32;
        bones.push(bone);
    }
    let chest = bones[Chest.ordinal()];
    assert_eq!(chest.get_head_offset(&bones).y, 100 + Waist.ordinal() as u32);
    let hip = bones[Hip.ordinal()];
    assert_eq!(hip.get_head_offset(&bones).y, 0);
}
