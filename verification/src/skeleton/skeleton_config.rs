//! The body measurements that size the skeleton.
//!
//! Lengths are in metres, as binary32 bits. Sums and scaling are real
//! arithmetic and are left to the caller; what is fixed here is which
//! lengths there are and which of them add up to what.

use vstd::prelude::*;

verus! {

/// A measurement of the body that places one or more bones.
#[derive(Clone, Debug, Copy, PartialEq, Eq, Hash, Structural)]
pub enum BoneOffsetKind {
    /// Y distance from base of head to top of head
    HeadLength,
    /// Y distance from base of neck to base of head
    NeckLength,
    /// Y distance from top of hip to base of chest
    WaistLength,
    /// Y distance from base of chest to base of upper chest
    ChestLength,
    /// Y distance from upper chest to base of neck
    UpperChestLength,
    HipsWidth,
    /// Y distance from upper leg to lower leg
    UpperLegLength,
    /// Y distance from lower leg to foot
    LowerLegLength,
    ShouldersWidth,
    /// Y distance from upper chest to shoulders
    ShoulderOffset,
    /// Y distance from upper arm to lower arm
    UpperArmLength,
    /// Y distance from lower arm to wrist
    LowerArmLength,
    FootLength,
    HandLength,
}

/// Number of measurements.
pub const OFFSET_KIND_COUNT: usize = 14;

impl BoneOffsetKind {
    /// Position of the measurement in declaration order.
    pub open spec fn spec_ordinal(self) -> nat {
        match self {
            BoneOffsetKind::HeadLength => 0,
            BoneOffsetKind::NeckLength => 1,
            BoneOffsetKind::WaistLength => 2,
            BoneOffsetKind::ChestLength => 3,
            BoneOffsetKind::UpperChestLength => 4,
            BoneOffsetKind::HipsWidth => 5,
            BoneOffsetKind::UpperLegLength => 6,
            BoneOffsetKind::LowerLegLength => 7,
            BoneOffsetKind::ShouldersWidth => 8,
            BoneOffsetKind::ShoulderOffset => 9,
            BoneOffsetKind::UpperArmLength => 10,
            BoneOffsetKind::LowerArmLength => 11,
            BoneOffsetKind::FootLength => 12,
            BoneOffsetKind::HandLength => 13,
        }
    }

    /// Position of the measurement in declaration order.
    pub fn ordinal(self) -> (r: usize)
        ensures
            r == self.spec_ordinal(),
            r < OFFSET_KIND_COUNT,
    {
        match self {
            BoneOffsetKind::HeadLength => 0,
            BoneOffsetKind::NeckLength => 1,
            BoneOffsetKind::WaistLength => 2,
            BoneOffsetKind::ChestLength => 3,
            BoneOffsetKind::UpperChestLength => 4,
            BoneOffsetKind::HipsWidth => 5,
            BoneOffsetKind::UpperLegLength => 6,
            BoneOffsetKind::LowerLegLength => 7,
            BoneOffsetKind::ShouldersWidth => 8,
            BoneOffsetKind::ShoulderOffset => 9,
            BoneOffsetKind::UpperArmLength => 10,
            BoneOffsetKind::LowerArmLength => 11,
            BoneOffsetKind::FootLength => 12,
            BoneOffsetKind::HandLength => 13,
        }
    }
}

/// The measurements of an average body, by ordinal: 0.24, 0.10, 0.20, 0.18,
/// 0.12, 0.36, 0.45, 0.44, 0.40, 0.08, 0.30, 0.26, 0.26 and 0.18 metres.
pub open spec fn spec_default_offsets() -> Seq<u32> {
    seq![
        0x3e75_c28fu32,
        0x3dcc_cccdu32,
        0x3e4c_cccdu32,
        0x3e38_51ecu32,
        0x3df5_c28fu32,
        0x3eb8_51ecu32,
        0x3ee6_6666u32,
        0x3ee1_47aeu32,
        0x3ecc_cccdu32,
        0x3da3_d70au32,
        0x3e99_999au32,
        0x3e85_1eb8u32,
        0x3e85_1eb8u32,
        0x3e38_51ecu32,
    ]
}

/// The height that the measurements of an average body add up to: the
/// binary32 sum 0.44 + 0.45 + 0.18 + 0.12 + 0.10 + 0.24, which is 1.53.
pub const DEFAULT_USER_HEIGHT: u32 = 0x3fc3_d70a;

/// The measurements that add up to the height of the body, in the order in
/// which they are added.
pub open spec fn spec_total_height_kinds() -> Seq<BoneOffsetKind> {
    seq![
        BoneOffsetKind::LowerLegLength,
        BoneOffsetKind::UpperLegLength,
        BoneOffsetKind::ChestLength,
        BoneOffsetKind::UpperChestLength,
        BoneOffsetKind::NeckLength,
        BoneOffsetKind::HeadLength,
    ]
}

/// The measurements that add up to the length of a leg, in the order in
/// which they are added.
pub open spec fn spec_leg_length_kinds() -> Seq<BoneOffsetKind> {
    seq![BoneOffsetKind::UpperLegLength, BoneOffsetKind::LowerLegLength]
}

#[derive(Debug, Clone, Copy)]
pub struct SkeletonConfig {
    /// The length of each measurement, by ordinal.
    pub offsets: [u32; 14],
    /// The height the user gave. Applying the configuration scales all
    /// measurements so that they add up to it.
    pub user_height: u32,
}

impl Default for SkeletonConfig {
    fn default() -> (r: SkeletonConfig)
        ensures
            r.offsets@ == spec_default_offsets(),
            r.user_height == DEFAULT_USER_HEIGHT,
    {
        let offsets: [u32; 14] = [
            0x3e75_c28f,
            0x3dcc_cccd,
            0x3e4c_cccd,
            0x3e38_51ec,
            0x3df5_c28f,
            0x3eb8_51ec,
            0x3ee6_6666,
            0x3ee1_47ae,
            0x3ecc_cccd,
            0x3da3_d70a,
            0x3e99_999a,
            0x3e85_1eb8,
            0x3e85_1eb8,
            0x3e38_51ec,
        ];
        assert(offsets@ =~= spec_default_offsets());
        SkeletonConfig { offsets, user_height: DEFAULT_USER_HEIGHT }
    }
}

impl SkeletonConfig {
    /// The length of one measurement.
    pub fn offset(&self, kind: BoneOffsetKind) -> (r: u32)
        ensures
            r == self.offsets@[kind.spec_ordinal() as int],
    {
        self.offsets[kind.ordinal()]
    }

    /// The lengths of `kinds`, in their order.
    pub open spec fn spec_offsets_of(self, kinds: Seq<BoneOffsetKind>) -> Seq<u32> {
        Seq::new(kinds.len(), |i: int| self.offsets@[kinds[i].spec_ordinal() as int])
    }

    fn get_offsets(&self, kinds: &[BoneOffsetKind]) -> (r: Vec<u32>)
        ensures
            r@ == self.spec_offsets_of(kinds@),
    {
        let mut out: Vec<u32> = Vec::new();
        let mut i: usize = 0;
        while i < kinds.len()
            invariant
                i <= kinds@.len(),
                out@ == self.spec_offsets_of(kinds@.subrange(0, i as int)),
            decreases kinds@.len() - i,
        {
            out.push(self.offset(kinds[i]));
            assert(out@ =~= self.spec_offsets_of(kinds@.subrange(0, i + 1)));
            i += 1;
        }
        assert(kinds@.subrange(0, kinds@.len() as int) =~= kinds@);
        out
    }

    /// The two lengths whose sum is the length of a leg: upper leg, lower
    /// leg.
    pub fn get_leg_length(&self) -> (r: Vec<u32>)
        ensures
            r@ == self.spec_offsets_of(spec_leg_length_kinds()),
    {
        let kinds = [BoneOffsetKind::UpperLegLength, BoneOffsetKind::LowerLegLength];
        assert(kinds@ =~= spec_leg_length_kinds());
        self.get_offsets(kinds.as_slice())
    }

    /// The six lengths whose sum is the height of the body, in the order in
    /// which they are added: lower leg, upper leg, chest, upper chest, neck,
    /// head.
    pub fn get_total_height(&self) -> (r: Vec<u32>)
        ensures
            r@ == self.spec_offsets_of(spec_total_height_kinds()),
    {
        let kinds = [
            BoneOffsetKind::LowerLegLength,
            BoneOffsetKind::UpperLegLength,
            BoneOffsetKind::ChestLength,
            BoneOffsetKind::UpperChestLength,
            BoneOffsetKind::NeckLength,
            BoneOffsetKind::HeadLength,
        ];
        assert(kinds@ =~= spec_total_height_kinds());
        self.get_offsets(kinds.as_slice())
    }

    /// Takes over the measurements as the caller scaled them to the height
    /// the user gave.
    pub fn update_height(&mut self, scaled: [u32; 14])
        ensures
            final(self).offsets == scaled,
            final(self).user_height == old(self).user_height,
    {
        self.offsets = scaled;
    }
}

} // verus!
