//! The fixed tree of twenty-two bones.

use vstd::prelude::*;
use crate::math::{Quat, Vec3};
use crate::skeleton::skeleton_config::BoneOffsetKind;

verus! {

/// One component of the vector from the head of a bone to its tail in rest
/// pose, in terms of the body measurements.
#[derive(Debug, Clone, Copy, PartialEq, Eq, Structural)]
pub enum OffsetTerm {
    Zero,
    /// The length of the measurement.
    Plus(BoneOffsetKind),
    /// The negated length of the measurement.
    Minus(BoneOffsetKind),
    /// Half the length of the measurement.
    PlusHalf(BoneOffsetKind),
    /// Half the negated length of the measurement.
    MinusHalf(BoneOffsetKind),
    /// The fixed 0.05 metres from the base of the head to its tail.
    HeadTip,
}

/// The vector from the head of a bone to its tail in rest pose, in terms of
/// the body measurements.
#[derive(Debug, Clone, Copy, PartialEq, Eq, Structural)]
pub struct TailOffset {
    pub x: OffsetTerm,
    pub y: OffsetTerm,
    pub z: OffsetTerm,
}

/// A bone of the humanoid rig, which is also a place a tracker can be worn.
#[derive(Debug, Hash, Clone, Copy, PartialEq, Eq, Structural)]
pub enum BoneLocation {
    /// Also acts as the root joint
    Hip,
    LeftUpperLeg,
    RightUpperLeg,
    LeftLowerLeg,
    RightLowerLeg,
    LeftFoot,
    RightFoot,
    Waist,
    Chest,
    UpperChest,
    Neck,
    Head,
    LeftShoulder,
    RightShoulder,
    LeftUpperArm,
    RightUpperArm,
    LeftLowerArm,
    RightLowerArm,
    LeftHand,
    RightHand,
    /// Connects the hip to the left upper leg
    LeftHip,
    /// Connects the hip to the right upper leg
    RightHip,
}

/// Number of bones.
pub const BONE_COUNT: usize = 22;

impl BoneLocation {
    /// The root of the tree.
    pub open spec fn spec_root() -> BoneLocation {
        BoneLocation::Hip
    }

    /// The root of the tree.
    pub fn root() -> (r: BoneLocation)
        ensures
            r == BoneLocation::spec_root(),
    {
        BoneLocation::Hip
    }

    /// Position of the bone in declaration order, below [`BONE_COUNT`].
    pub open spec fn spec_ordinal(self) -> nat {
        match self {
            BoneLocation::Hip => 0,
            BoneLocation::LeftUpperLeg => 1,
            BoneLocation::RightUpperLeg => 2,
            BoneLocation::LeftLowerLeg => 3,
            BoneLocation::RightLowerLeg => 4,
            BoneLocation::LeftFoot => 5,
            BoneLocation::RightFoot => 6,
            BoneLocation::Waist => 7,
            BoneLocation::Chest => 8,
            BoneLocation::UpperChest => 9,
            BoneLocation::Neck => 10,
            BoneLocation::Head => 11,
            BoneLocation::LeftShoulder => 12,
            BoneLocation::RightShoulder => 13,
            BoneLocation::LeftUpperArm => 14,
            BoneLocation::RightUpperArm => 15,
            BoneLocation::LeftLowerArm => 16,
            BoneLocation::RightLowerArm => 17,
            BoneLocation::LeftHand => 18,
            BoneLocation::RightHand => 19,
            BoneLocation::LeftHip => 20,
            BoneLocation::RightHip => 21,
        }
    }

    /// Position of the bone in declaration order; distinct bones have
    /// distinct positions.
    pub fn ordinal(self) -> (r: usize)
        ensures
            r == self.spec_ordinal(),
            r < BONE_COUNT,
    {
        match self {
            BoneLocation::Hip => 0,
            BoneLocation::LeftUpperLeg => 1,
            BoneLocation::RightUpperLeg => 2,
            BoneLocation::LeftLowerLeg => 3,
            BoneLocation::RightLowerLeg => 4,
            BoneLocation::LeftFoot => 5,
            BoneLocation::RightFoot => 6,
            BoneLocation::Waist => 7,
            BoneLocation::Chest => 8,
            BoneLocation::UpperChest => 9,
            BoneLocation::Neck => 10,
            BoneLocation::Head => 11,
            BoneLocation::LeftShoulder => 12,
            BoneLocation::RightShoulder => 13,
            BoneLocation::LeftUpperArm => 14,
            BoneLocation::RightUpperArm => 15,
            BoneLocation::LeftLowerArm => 16,
            BoneLocation::RightLowerArm => 17,
            BoneLocation::LeftHand => 18,
            BoneLocation::RightHand => 19,
            BoneLocation::LeftHip => 20,
            BoneLocation::RightHip => 21,
        }
    }

    /// The bone at position `i` of declaration order.
    pub open spec fn spec_from_ordinal(i: int) -> BoneLocation {
        if i == 0 {
            BoneLocation::Hip
        } else if i == 1 {
            BoneLocation::LeftUpperLeg
        } else if i == 2 {
            BoneLocation::RightUpperLeg
        } else if i == 3 {
            BoneLocation::LeftLowerLeg
        } else if i == 4 {
            BoneLocation::RightLowerLeg
        } else if i == 5 {
            BoneLocation::LeftFoot
        } else if i == 6 {
            BoneLocation::RightFoot
        } else if i == 7 {
            BoneLocation::Waist
        } else if i == 8 {
            BoneLocation::Chest
        } else if i == 9 {
            BoneLocation::UpperChest
        } else if i == 10 {
            BoneLocation::Neck
        } else if i == 11 {
            BoneLocation::Head
        } else if i == 12 {
            BoneLocation::LeftShoulder
        } else if i == 13 {
            BoneLocation::RightShoulder
        } else if i == 14 {
            BoneLocation::LeftUpperArm
        } else if i == 15 {
            BoneLocation::RightUpperArm
        } else if i == 16 {
            BoneLocation::LeftLowerArm
        } else if i == 17 {
            BoneLocation::RightLowerArm
        } else if i == 18 {
            BoneLocation::LeftHand
        } else if i == 19 {
            BoneLocation::RightHand
        } else if i == 20 {
            BoneLocation::LeftHip
        } else {
            BoneLocation::RightHip
        }
    }

    /// The bone at position `i` of declaration order.
    pub fn from_ordinal(i: usize) -> (r: BoneLocation)
        requires
            i < BONE_COUNT,
        ensures
            r == BoneLocation::spec_from_ordinal(i as int),
            r.spec_ordinal() == i,
    {
        if i == 0 {
            BoneLocation::Hip
        } else if i == 1 {
            BoneLocation::LeftUpperLeg
        } else if i == 2 {
            BoneLocation::RightUpperLeg
        } else if i == 3 {
            BoneLocation::LeftLowerLeg
        } else if i == 4 {
            BoneLocation::RightLowerLeg
        } else if i == 5 {
            BoneLocation::LeftFoot
        } else if i == 6 {
            BoneLocation::RightFoot
        } else if i == 7 {
            BoneLocation::Waist
        } else if i == 8 {
            BoneLocation::Chest
        } else if i == 9 {
            BoneLocation::UpperChest
        } else if i == 10 {
            BoneLocation::Neck
        } else if i == 11 {
            BoneLocation::Head
        } else if i == 12 {
            BoneLocation::LeftShoulder
        } else if i == 13 {
            BoneLocation::RightShoulder
        } else if i == 14 {
            BoneLocation::LeftUpperArm
        } else if i == 15 {
            BoneLocation::RightUpperArm
        } else if i == 16 {
            BoneLocation::LeftLowerArm
        } else if i == 17 {
            BoneLocation::RightLowerArm
        } else if i == 18 {
            BoneLocation::LeftHand
        } else if i == 19 {
            BoneLocation::RightHand
        } else if i == 20 {
            BoneLocation::LeftHip
        } else {
            BoneLocation::RightHip
        }
    }

    /// The bone listed at row `i` of the hierarchy table. Rows run root
    /// first, and every bone stands below its parent.
    pub open spec fn spec_table_row(i: int) -> BoneLocation {
        if i == 0 {
            BoneLocation::Hip
        } else if i == 1 {
            BoneLocation::Waist
        } else if i == 2 {
            BoneLocation::LeftHip
        } else if i == 3 {
            BoneLocation::LeftUpperLeg
        } else if i == 4 {
            BoneLocation::LeftLowerLeg
        } else if i == 5 {
            BoneLocation::LeftFoot
        } else if i == 6 {
            BoneLocation::RightHip
        } else if i == 7 {
            BoneLocation::RightUpperLeg
        } else if i == 8 {
            BoneLocation::RightLowerLeg
        } else if i == 9 {
            BoneLocation::RightFoot
        } else if i == 10 {
            BoneLocation::Chest
        } else if i == 11 {
            BoneLocation::UpperChest
        } else if i == 12 {
            BoneLocation::LeftShoulder
        } else if i == 13 {
            BoneLocation::LeftUpperArm
        } else if i == 14 {
            BoneLocation::LeftLowerArm
        } else if i == 15 {
            BoneLocation::LeftHand
        } else if i == 16 {
            BoneLocation::RightShoulder
        } else if i == 17 {
            BoneLocation::RightUpperArm
        } else if i == 18 {
            BoneLocation::RightLowerArm
        } else if i == 19 {
            BoneLocation::RightHand
        } else if i == 20 {
            BoneLocation::Neck
        } else {
            BoneLocation::Head
        }
    }

    /// The bone at row `i` of the hierarchy table.
    pub fn table_row(i: usize) -> (r: BoneLocation)
        requires
            i < BONE_COUNT,
        ensures
            r == BoneLocation::spec_table_row(i as int),
    {
        if i == 0 {
            BoneLocation::Hip
        } else if i == 1 {
            BoneLocation::Waist
        } else if i == 2 {
            BoneLocation::LeftHip
        } else if i == 3 {
            BoneLocation::LeftUpperLeg
        } else if i == 4 {
            BoneLocation::LeftLowerLeg
        } else if i == 5 {
            BoneLocation::LeftFoot
        } else if i == 6 {
            BoneLocation::RightHip
        } else if i == 7 {
            BoneLocation::RightUpperLeg
        } else if i == 8 {
            BoneLocation::RightLowerLeg
        } else if i == 9 {
            BoneLocation::RightFoot
        } else if i == 10 {
            BoneLocation::Chest
        } else if i == 11 {
            BoneLocation::UpperChest
        } else if i == 12 {
            BoneLocation::LeftShoulder
        } else if i == 13 {
            BoneLocation::LeftUpperArm
        } else if i == 14 {
            BoneLocation::LeftLowerArm
        } else if i == 15 {
            BoneLocation::LeftHand
        } else if i == 16 {
            BoneLocation::RightShoulder
        } else if i == 17 {
            BoneLocation::RightUpperArm
        } else if i == 18 {
            BoneLocation::RightLowerArm
        } else if i == 19 {
            BoneLocation::RightHand
        } else if i == 20 {
            BoneLocation::Neck
        } else {
            BoneLocation::Head
        }
    }

    /// The row of the hierarchy table at which the bone stands.
    pub open spec fn spec_row(self) -> int {
        match self {
            BoneLocation::Hip => 0,
            BoneLocation::Waist => 1,
            BoneLocation::LeftHip => 2,
            BoneLocation::LeftUpperLeg => 3,
            BoneLocation::LeftLowerLeg => 4,
            BoneLocation::LeftFoot => 5,
            BoneLocation::RightHip => 6,
            BoneLocation::RightUpperLeg => 7,
            BoneLocation::RightLowerLeg => 8,
            BoneLocation::RightFoot => 9,
            BoneLocation::Chest => 10,
            BoneLocation::UpperChest => 11,
            BoneLocation::LeftShoulder => 12,
            BoneLocation::LeftUpperArm => 13,
            BoneLocation::LeftLowerArm => 14,
            BoneLocation::LeftHand => 15,
            BoneLocation::RightShoulder => 16,
            BoneLocation::RightUpperArm => 17,
            BoneLocation::RightLowerArm => 18,
            BoneLocation::RightHand => 19,
            BoneLocation::Neck => 20,
            BoneLocation::Head => 21,
        }
    }

    /// The bone this one hangs from; the root has none.
    pub open spec fn spec_parent(self) -> Option<BoneLocation> {
        match self {
            BoneLocation::Hip => None,
            BoneLocation::Waist => Some(BoneLocation::Hip),
            BoneLocation::LeftHip => Some(BoneLocation::Hip),
            BoneLocation::LeftUpperLeg => Some(BoneLocation::LeftHip),
            BoneLocation::LeftLowerLeg => Some(BoneLocation::LeftUpperLeg),
            BoneLocation::LeftFoot => Some(BoneLocation::LeftLowerLeg),
            BoneLocation::RightHip => Some(BoneLocation::Hip),
            BoneLocation::RightUpperLeg => Some(BoneLocation::RightHip),
            BoneLocation::RightLowerLeg => Some(BoneLocation::RightUpperLeg),
            BoneLocation::RightFoot => Some(BoneLocation::RightLowerLeg),
            BoneLocation::Chest => Some(BoneLocation::Waist),
            BoneLocation::UpperChest => Some(BoneLocation::Chest),
            BoneLocation::LeftShoulder => Some(BoneLocation::UpperChest),
            BoneLocation::LeftUpperArm => Some(BoneLocation::LeftShoulder),
            BoneLocation::LeftLowerArm => Some(BoneLocation::LeftUpperArm),
            BoneLocation::LeftHand => Some(BoneLocation::LeftLowerArm),
            BoneLocation::RightShoulder => Some(BoneLocation::UpperChest),
            BoneLocation::RightUpperArm => Some(BoneLocation::RightShoulder),
            BoneLocation::RightLowerArm => Some(BoneLocation::RightUpperArm),
            BoneLocation::RightHand => Some(BoneLocation::RightLowerArm),
            BoneLocation::Neck => Some(BoneLocation::UpperChest),
            BoneLocation::Head => Some(BoneLocation::Neck),
        }
    }

    /// The bone this one hangs from; the root has none.
    pub fn parent(self) -> (r: Option<BoneLocation>)
        ensures
            r == self.spec_parent(),
    {
        match self {
            BoneLocation::Hip => None,
            BoneLocation::Waist => Some(BoneLocation::Hip),
            BoneLocation::LeftHip => Some(BoneLocation::Hip),
            BoneLocation::LeftUpperLeg => Some(BoneLocation::LeftHip),
            BoneLocation::LeftLowerLeg => Some(BoneLocation::LeftUpperLeg),
            BoneLocation::LeftFoot => Some(BoneLocation::LeftLowerLeg),
            BoneLocation::RightHip => Some(BoneLocation::Hip),
            BoneLocation::RightUpperLeg => Some(BoneLocation::RightHip),
            BoneLocation::RightLowerLeg => Some(BoneLocation::RightUpperLeg),
            BoneLocation::RightFoot => Some(BoneLocation::RightLowerLeg),
            BoneLocation::Chest => Some(BoneLocation::Waist),
            BoneLocation::UpperChest => Some(BoneLocation::Chest),
            BoneLocation::LeftShoulder => Some(BoneLocation::UpperChest),
            BoneLocation::LeftUpperArm => Some(BoneLocation::LeftShoulder),
            BoneLocation::LeftLowerArm => Some(BoneLocation::LeftUpperArm),
            BoneLocation::LeftHand => Some(BoneLocation::LeftLowerArm),
            BoneLocation::RightShoulder => Some(BoneLocation::UpperChest),
            BoneLocation::RightUpperArm => Some(BoneLocation::RightShoulder),
            BoneLocation::RightLowerArm => Some(BoneLocation::RightUpperArm),
            BoneLocation::RightHand => Some(BoneLocation::RightLowerArm),
            BoneLocation::Neck => Some(BoneLocation::UpperChest),
            BoneLocation::Head => Some(BoneLocation::Neck),
        }
    }

    /// The vector from the head of the bone to its tail in rest pose. The
    /// spine runs up, the legs run down, the feet point forward, and the
    /// arms run outward: to negative X on the left, positive X on the right.
    pub open spec fn spec_tail_offset(self) -> TailOffset {
        let zero = OffsetTerm::Zero;
        match self {
            // The hip acts like a point.
            BoneLocation::Hip => TailOffset { x: zero, y: zero, z: zero },
            BoneLocation::Waist => TailOffset {
                x: zero,
                y: OffsetTerm::Plus(BoneOffsetKind::WaistLength),
                z: zero,
            },
            BoneLocation::LeftHip => TailOffset {
                x: OffsetTerm::MinusHalf(BoneOffsetKind::HipsWidth),
                y: zero,
                z: zero,
            },
            BoneLocation::RightHip => TailOffset {
                x: OffsetTerm::PlusHalf(BoneOffsetKind::HipsWidth),
                y: zero,
                z: zero,
            },
            BoneLocation::LeftUpperLeg | BoneLocation::RightUpperLeg => TailOffset {
                x: zero,
                y: OffsetTerm::Minus(BoneOffsetKind::UpperLegLength),
                z: zero,
            },
            BoneLocation::LeftLowerLeg | BoneLocation::RightLowerLeg => TailOffset {
                x: zero,
                y: OffsetTerm::Minus(BoneOffsetKind::LowerLegLength),
                z: zero,
            },
            BoneLocation::LeftFoot | BoneLocation::RightFoot => TailOffset {
                x: zero,
                y: zero,
                z: OffsetTerm::Plus(BoneOffsetKind::FootLength),
            },
            BoneLocation::Chest => TailOffset {
                x: zero,
                y: OffsetTerm::Plus(BoneOffsetKind::ChestLength),
                z: zero,
            },
            BoneLocation::UpperChest => TailOffset {
                x: zero,
                y: OffsetTerm::Plus(BoneOffsetKind::UpperChestLength),
                z: zero,
            },
            BoneLocation::LeftShoulder => TailOffset {
                x: OffsetTerm::MinusHalf(BoneOffsetKind::ShouldersWidth),
                y: OffsetTerm::Plus(BoneOffsetKind::ShoulderOffset),
                z: zero,
            },
            BoneLocation::RightShoulder => TailOffset {
                x: OffsetTerm::PlusHalf(BoneOffsetKind::ShouldersWidth),
                y: OffsetTerm::Plus(BoneOffsetKind::ShoulderOffset),
                z: zero,
            },
            BoneLocation::LeftUpperArm => TailOffset {
                x: OffsetTerm::Minus(BoneOffsetKind::UpperArmLength),
                y: zero,
                z: zero,
            },
            BoneLocation::RightUpperArm => TailOffset {
                x: OffsetTerm::Plus(BoneOffsetKind::UpperArmLength),
                y: zero,
                z: zero,
            },
            BoneLocation::LeftLowerArm => TailOffset {
                x: OffsetTerm::Minus(BoneOffsetKind::LowerArmLength),
                y: zero,
                z: zero,
            },
            BoneLocation::RightLowerArm => TailOffset {
                x: OffsetTerm::Plus(BoneOffsetKind::LowerArmLength),
                y: zero,
                z: zero,
            },
            BoneLocation::LeftHand => TailOffset {
                x: OffsetTerm::Minus(BoneOffsetKind::HandLength),
                y: zero,
                z: zero,
            },
            BoneLocation::RightHand => TailOffset {
                x: OffsetTerm::Plus(BoneOffsetKind::HandLength),
                y: zero,
                z: zero,
            },
            BoneLocation::Neck => TailOffset {
                x: zero,
                y: OffsetTerm::Plus(BoneOffsetKind::NeckLength),
                z: zero,
            },
            BoneLocation::Head => TailOffset { x: zero, y: OffsetTerm::HeadTip, z: zero },
        }
    }

    /// The vector from the head of the bone to its tail if the head is at
    /// the origin, in terms of the body measurements.
    pub fn get_tail_offset(&self) -> (r: TailOffset)
        ensures
            r == self.spec_tail_offset(),
    {
        let zero = OffsetTerm::Zero;
        match self {
            BoneLocation::Hip => TailOffset { x: zero, y: zero, z: zero },
            BoneLocation::Waist => TailOffset {
                x: zero,
                y: OffsetTerm::Plus(BoneOffsetKind::WaistLength),
                z: zero,
            },
            BoneLocation::LeftHip => TailOffset {
                x: OffsetTerm::MinusHalf(BoneOffsetKind::HipsWidth),
                y: zero,
                z: zero,
            },
            BoneLocation::RightHip => TailOffset {
                x: OffsetTerm::PlusHalf(BoneOffsetKind::HipsWidth),
                y: zero,
                z: zero,
            },
            BoneLocation::LeftUpperLeg | BoneLocation::RightUpperLeg => TailOffset {
                x: zero,
                y: OffsetTerm::Minus(BoneOffsetKind::UpperLegLength),
                z: zero,
            },
            BoneLocation::LeftLowerLeg | BoneLocation::RightLowerLeg => TailOffset {
                x: zero,
                y: OffsetTerm::Minus(BoneOffsetKind::LowerLegLength),
                z: zero,
            },
            BoneLocation::LeftFoot | BoneLocation::RightFoot => TailOffset {
                x: zero,
                y: zero,
                z: OffsetTerm::Plus(BoneOffsetKind::FootLength),
            },
            BoneLocation::Chest => TailOffset {
                x: zero,
                y: OffsetTerm::Plus(BoneOffsetKind::ChestLength),
                z: zero,
            },
            BoneLocation::UpperChest => TailOffset {
                x: zero,
                y: OffsetTerm::Plus(BoneOffsetKind::UpperChestLength),
                z: zero,
            },
            BoneLocation::LeftShoulder => TailOffset {
                x: OffsetTerm::MinusHalf(BoneOffsetKind::ShouldersWidth),
                y: OffsetTerm::Plus(BoneOffsetKind::ShoulderOffset),
                z: zero,
            },
            BoneLocation::RightShoulder => TailOffset {
                x: OffsetTerm::PlusHalf(BoneOffsetKind::ShouldersWidth),
                y: OffsetTerm::Plus(BoneOffsetKind::ShoulderOffset),
                z: zero,
            },
            BoneLocation::LeftUpperArm => TailOffset {
                x: OffsetTerm::Minus(BoneOffsetKind::UpperArmLength),
                y: zero,
                z: zero,
            },
            BoneLocation::RightUpperArm => TailOffset {
                x: OffsetTerm::Plus(BoneOffsetKind::UpperArmLength),
                y: zero,
                z: zero,
            },
            BoneLocation::LeftLowerArm => TailOffset {
                x: OffsetTerm::Minus(BoneOffsetKind::LowerArmLength),
                y: zero,
                z: zero,
            },
            BoneLocation::RightLowerArm => TailOffset {
                x: OffsetTerm::Plus(BoneOffsetKind::LowerArmLength),
                y: zero,
                z: zero,
            },
            BoneLocation::LeftHand => TailOffset {
                x: OffsetTerm::Minus(BoneOffsetKind::HandLength),
                y: zero,
                z: zero,
            },
            BoneLocation::RightHand => TailOffset {
                x: OffsetTerm::Plus(BoneOffsetKind::HandLength),
                y: zero,
                z: zero,
            },
            BoneLocation::Neck => TailOffset {
                x: zero,
                y: OffsetTerm::Plus(BoneOffsetKind::NeckLength),
                z: zero,
            },
            BoneLocation::Head => TailOffset { x: zero, y: OffsetTerm::HeadTip, z: zero },
        }
    }

    /// The children of `self` among the first `n` rows of the hierarchy
    /// table, in table order.
    pub open spec fn spec_children_within(self, n: nat) -> Seq<BoneLocation>
        decreases n,
    {
        if n == 0 {
            Seq::empty()
        } else {
            let earlier = self.spec_children_within((n - 1) as nat);
            let row = BoneLocation::spec_table_row(n - 1);
            if row.spec_parent() == Some(self) {
                earlier.push(row)
            } else {
                earlier
            }
        }
    }

    /// The bones whose parent is `self`, in table order.
    pub open spec fn spec_children(self) -> Seq<BoneLocation> {
        self.spec_children_within(BONE_COUNT as nat)
    }

    /// The bones that hang from `self`, in the order of the hierarchy table.
    pub fn get_children(&self) -> (r: Vec<BoneLocation>)
        ensures
            r@ == self.spec_children(),
    {
        let mut children: Vec<BoneLocation> = Vec::new();
        let mut i: usize = 0;
        while i < BONE_COUNT
            invariant
                i <= BONE_COUNT,
                children@ == self.spec_children_within(i as nat),
            decreases BONE_COUNT - i,
        {
            let row = BoneLocation::table_row(i);
            let is_child = match row.parent() {
                Some(p) => p == *self,
                None => false,
            };
            if is_child {
                children.push(row);
            }
            i += 1;
        }
        children
    }

    /// The name the bone has in Unity's humanoid rig, which the VRM avatar
    /// format shares. The two hinges between the hip and the legs have none.
    pub open spec fn spec_unity_name(self) -> Option<Seq<char>> {
        match self {
            BoneLocation::Hip => Some("Hips"@),
            BoneLocation::Waist => Some("Spine"@),
            BoneLocation::LeftHip => None,
            BoneLocation::RightHip => None,
            BoneLocation::LeftUpperLeg => Some("LeftUpperLeg"@),
            BoneLocation::RightUpperLeg => Some("RightUpperLeg"@),
            BoneLocation::LeftLowerLeg => Some("LeftLowerLeg"@),
            BoneLocation::RightLowerLeg => Some("RightLowerLeg"@),
            BoneLocation::LeftFoot => Some("LeftFoot"@),
            BoneLocation::RightFoot => Some("RightFoot"@),
            BoneLocation::Chest => Some("Chest"@),
            BoneLocation::UpperChest => Some("UpperChest"@),
            BoneLocation::Neck => Some("Neck"@),
            BoneLocation::Head => Some("Head"@),
            BoneLocation::LeftShoulder => Some("LeftShoulder"@),
            BoneLocation::RightShoulder => Some("RightShoulder"@),
            BoneLocation::LeftUpperArm => Some("LeftUpperArm"@),
            BoneLocation::RightUpperArm => Some("RightUpperArm"@),
            BoneLocation::LeftLowerArm => Some("LeftLowerArm"@),
            BoneLocation::RightLowerArm => Some("RightLowerArm"@),
            BoneLocation::LeftHand => Some("LeftHand"@),
            BoneLocation::RightHand => Some("RightHand"@),
        }
    }

    /// The name the bone has in Unity's humanoid rig, or `None` for the two
    /// hinges between the hip and the legs.
    pub fn as_unity_name(&self) -> (r: Option<String>)
        ensures
            r.is_some() == self.spec_unity_name().is_some(),
            r.is_some() ==> r.unwrap()@ == self.spec_unity_name().unwrap(),
    {
        match self {
            BoneLocation::Hip => Some("Hips".to_owned()),
            BoneLocation::Waist => Some("Spine".to_owned()),
            BoneLocation::LeftHip => None,
            BoneLocation::RightHip => None,
            BoneLocation::LeftUpperLeg => Some("LeftUpperLeg".to_owned()),
            BoneLocation::RightUpperLeg => Some("RightUpperLeg".to_owned()),
            BoneLocation::LeftLowerLeg => Some("LeftLowerLeg".to_owned()),
            BoneLocation::RightLowerLeg => Some("RightLowerLeg".to_owned()),
            BoneLocation::LeftFoot => Some("LeftFoot".to_owned()),
            BoneLocation::RightFoot => Some("RightFoot".to_owned()),
            BoneLocation::Chest => Some("Chest".to_owned()),
            BoneLocation::UpperChest => Some("UpperChest".to_owned()),
            BoneLocation::Neck => Some("Neck".to_owned()),
            BoneLocation::Head => Some("Head".to_owned()),
            BoneLocation::LeftShoulder => Some("LeftShoulder".to_owned()),
            BoneLocation::RightShoulder => Some("RightShoulder".to_owned()),
            BoneLocation::LeftUpperArm => Some("LeftUpperArm".to_owned()),
            BoneLocation::RightUpperArm => Some("RightUpperArm".to_owned()),
            BoneLocation::LeftLowerArm => Some("LeftLowerArm".to_owned()),
            BoneLocation::RightLowerArm => Some("RightLowerArm".to_owned()),
            BoneLocation::LeftHand => Some("LeftHand".to_owned()),
            BoneLocation::RightHand => Some("RightHand".to_owned()),
        }
    }
}

/// Row and bone determine each other: the table lists every bone once.
pub proof fn lemma_table_lists_every_bone(b: BoneLocation)
    ensures
        0 <= b.spec_row() < BONE_COUNT,
        BoneLocation::spec_table_row(b.spec_row()) == b,
{
}

/// The children of every bone, as the hierarchy table lists them.
pub open spec fn spec_children_table(b: BoneLocation) -> Seq<BoneLocation> {
    match b {
        BoneLocation::Hip => seq![BoneLocation::Waist, BoneLocation::LeftHip, BoneLocation::RightHip],
        BoneLocation::Waist => seq![BoneLocation::Chest],
        BoneLocation::Chest => seq![BoneLocation::UpperChest],
        BoneLocation::UpperChest => seq![
            BoneLocation::LeftShoulder,
            BoneLocation::RightShoulder,
            BoneLocation::Neck,
        ],
        BoneLocation::Neck => seq![BoneLocation::Head],
        BoneLocation::LeftHip => seq![BoneLocation::LeftUpperLeg],
        BoneLocation::LeftUpperLeg => seq![BoneLocation::LeftLowerLeg],
        BoneLocation::LeftLowerLeg => seq![BoneLocation::LeftFoot],
        BoneLocation::RightHip => seq![BoneLocation::RightUpperLeg],
        BoneLocation::RightUpperLeg => seq![BoneLocation::RightLowerLeg],
        BoneLocation::RightLowerLeg => seq![BoneLocation::RightFoot],
        BoneLocation::LeftShoulder => seq![BoneLocation::LeftUpperArm],
        BoneLocation::LeftUpperArm => seq![BoneLocation::LeftLowerArm],
        BoneLocation::LeftLowerArm => seq![BoneLocation::LeftHand],
        BoneLocation::RightShoulder => seq![BoneLocation::RightUpperArm],
        BoneLocation::RightUpperArm => seq![BoneLocation::RightLowerArm],
        BoneLocation::RightLowerArm => seq![BoneLocation::RightHand],
        _ => Seq::empty(),
    }
}

/// The bones whose parent a bone is are its children in the table above.
pub proof fn lemma_children(b: BoneLocation)
    ensures
        b.spec_children() == spec_children_table(b),
{
    reveal_with_fuel(BoneLocation::spec_children_within, 23);
    assert(b.spec_children() =~= spec_children_table(b));
}

/// Ordinal and bone determine each other.
pub proof fn lemma_ordinal_names_bone(b: BoneLocation)
    ensures
        b.spec_ordinal() < BONE_COUNT,
        BoneLocation::spec_from_ordinal(b.spec_ordinal() as int) == b,
{
}

/// How many bones lie between the bone and the root.
pub open spec fn spec_depth(b: BoneLocation) -> nat {
    match b {
        BoneLocation::Hip => 0,
        BoneLocation::Waist | BoneLocation::LeftHip | BoneLocation::RightHip => 1,
        BoneLocation::Chest | BoneLocation::LeftUpperLeg | BoneLocation::RightUpperLeg => 2,
        BoneLocation::UpperChest | BoneLocation::LeftLowerLeg | BoneLocation::RightLowerLeg => 3,
        BoneLocation::Neck
        | BoneLocation::LeftShoulder
        | BoneLocation::RightShoulder
        | BoneLocation::LeftFoot
        | BoneLocation::RightFoot => 4,
        BoneLocation::Head | BoneLocation::LeftUpperArm | BoneLocation::RightUpperArm => 5,
        BoneLocation::LeftLowerArm | BoneLocation::RightLowerArm => 6,
        BoneLocation::LeftHand | BoneLocation::RightHand => 7,
    }
}

/// The deepest bones lie seven below the root.
pub const MAX_DEPTH: usize = 7;

/// A bone lies one deeper than its parent.
pub proof fn lemma_depth_of_child(b: BoneLocation)
    ensures
        spec_depth(b) <= MAX_DEPTH,
        b.spec_parent() matches Some(p) ==> spec_depth(b) == spec_depth(p) + 1,
{
}

/// Every bone listed among the children of `parent` has `parent` as its
/// parent.
pub proof fn lemma_children_have_parent(parent: BoneLocation, n: nat, i: int)
    requires
        0 <= i < parent.spec_children_within(n).len(),
    ensures
        parent.spec_children_within(n)[i].spec_parent() == Some(parent),
    decreases n,
{
    if n > 0 {
        let earlier = parent.spec_children_within((n - 1) as nat);
        if i < earlier.len() {
            lemma_children_have_parent(parent, (n - 1) as nat, i);
        }
    }
}

/// Every bone but the root stands in the table below its parent.
pub proof fn lemma_parent_stands_first(b: BoneLocation)
    ensures
        b.spec_parent().is_some() ==> b.spec_parent().unwrap().spec_row() < b.spec_row(),
        b.spec_parent().is_none() <==> b == BoneLocation::spec_root(),
{
}

/// A bone of the skeleton: where it hangs, how long it is, and how it is
/// posed.
#[derive(Debug, Clone, Copy, PartialEq, Eq, Structural)]
pub struct Bone {
    /// The vector from head to tail in rest pose.
    pub tail_offset: Vec3,
    /// Orientation relative to the parent.
    pub local_orientation: Quat,
    pub tail_world_position: Vec3,
    pub world_orientation: Quat,
    pub parent: Option<BoneLocation>,
}

impl Bone {
    /// A bone of no length in rest pose.
    pub open spec fn spec_new(parent: Option<BoneLocation>) -> Bone {
        Bone {
            tail_offset: Vec3::spec_zero(),
            local_orientation: Quat::spec_identity(),
            tail_world_position: Vec3::spec_zero(),
            world_orientation: Quat::spec_identity(),
            parent,
        }
    }

    pub fn new(parent: Option<BoneLocation>) -> (r: Bone)
        ensures
            r == Bone::spec_new(parent),
    {
        Bone {
            tail_offset: Vec3::zero(),
            local_orientation: Quat::identity(),
            tail_world_position: Vec3::zero(),
            world_orientation: Quat::identity(),
            parent,
        }
    }

    /// Where the head of the bone lies relative to the head of its parent:
    /// at the parent's tail. `bones` holds every bone at its ordinal.
    pub open spec fn spec_head_offset(self, bones: Seq<Bone>) -> Vec3 {
        match self.parent {
            Some(location) => bones[location.spec_ordinal() as int].tail_offset,
            None => Vec3::spec_zero(),
        }
    }

    /// Where the head of the bone lies relative to the head of its parent.
    pub fn get_head_offset(&self, bones: &Vec<Bone>) -> (r: Vec3)
        requires
            bones@.len() == BONE_COUNT,
        ensures
            r == self.spec_head_offset(bones@),
    {
        match self.parent {
            Some(location) => bones[location.ordinal()].tail_offset,
            None => Vec3::zero(),
        }
    }
}

} // verus!
