//! Which orientation each bone takes, and from where.
//!
//! Trackers give world orientations. A bone without a tracker of its own
//! follows a fallback chain: another tracker of the same region, or the
//! bone it hangs from. The manager works these rules out; evaluating them,
//! which needs rotations to be multiplied, is the caller's part, as is the
//! walk from the root that turns world orientations into positions.

use vstd::prelude::*;
use crate::id_map::{spec_position, IdMap};
use crate::math::{Quat, Vec3};
use crate::registry::TrackerRegistry;
use crate::skeleton::bone::{
    lemma_children,
    lemma_children_have_parent,
    lemma_depth_of_child,
    spec_children_table,
    spec_depth,
    Bone,
    BoneLocation,
    BONE_COUNT,
    MAX_DEPTH,
};
use crate::tracker::{Tracker, TrackerConfig, TrackerStatus};

verus! {

/// Where the world orientation of a bone comes from.
#[derive(Debug, Clone, Copy, PartialEq, Eq, Structural)]
pub enum OrientationSource {
    /// A given rotation: that of a tracker, or the identity.
    Value(Quat),
    /// The world orientation worked out for another bone, earlier in the
    /// same list of rules.
    Bone(BoneLocation),
}

/// How one bone gets its world orientation.
#[derive(Debug, Clone, Copy, PartialEq, Eq, Structural)]
pub struct OrientationRule {
    pub bone: BoneLocation,
    pub source: OrientationSource,
    /// Whether only the turn about the vertical axis is taken over.
    pub yaw_only: bool,
}

/// The orientation of the tracker worn at `location`, if one is assigned
/// there, the registry holds it and its status is `Okay`.
pub open spec fn spec_ok_orientation(
    assigned: Seq<Option<Seq<char>>>,
    entries: Seq<(Seq<char>, Tracker)>,
    location: BoneLocation,
) -> Option<Quat> {
    match assigned[location.spec_ordinal() as int] {
        Some(id) => match spec_position(entries, id) {
            Some(k) => if entries[k].1.info.status == TrackerStatus::Okay {
                Some(entries[k].1.data.orientation)
            } else {
                None
            },
            None => None,
        },
        None => None,
    }
}

/// The orientation of the first tracker along `locations` that has one to
/// give.
pub open spec fn spec_tracker_orientation(
    assigned: Seq<Option<Seq<char>>>,
    entries: Seq<(Seq<char>, Tracker)>,
    locations: Seq<BoneLocation>,
) -> Option<Quat>
    decreases locations.len(),
{
    if locations.len() == 0 {
        None
    } else {
        match spec_ok_orientation(assigned, entries, locations[0]) {
            Some(q) => Some(q),
            None => spec_tracker_orientation(assigned, entries, locations.skip(1)),
        }
    }
}

/// The source that a fallback chain comes to: the first tracker along
/// `locations`, or else `fallback`.
pub open spec fn spec_source(
    assigned: Seq<Option<Seq<char>>>,
    entries: Seq<(Seq<char>, Tracker)>,
    locations: Seq<BoneLocation>,
    fallback: OrientationSource,
) -> OrientationSource {
    match spec_tracker_orientation(assigned, entries, locations) {
        Some(q) => OrientationSource::Value(q),
        None => fallback,
    }
}

/// Whether a tracker is assigned to one of `locations`, whatever its state.
pub open spec fn spec_any_assigned(
    assigned: Seq<Option<Seq<char>>>,
    locations: Seq<BoneLocation>,
) -> bool {
    exists|i: int|
        0 <= i < locations.len() && assigned[(#[trigger] locations[i]).spec_ordinal() as int].is_some()
}

/// The id of the last tracker among the first `n` of `configs` that is
/// configured for `location`.
pub open spec fn spec_assignment(
    configs: Seq<(Seq<char>, TrackerConfig)>,
    location: BoneLocation,
    n: nat,
) -> Option<Seq<char>>
    decreases n,
{
    if n == 0 {
        None
    } else if configs[n - 1].1.location == Some(location) {
        Some(configs[n - 1].0)
    } else {
        spec_assignment(configs, location, (n - 1) as nat)
    }
}

pub open spec fn spec_identity_source() -> OrientationSource {
    OrientationSource::Value(Quat::spec_identity())
}

/// Head and neck follow the first tracker from the head down the spine.
pub open spec fn spec_head_rules(
    assigned: Seq<Option<Seq<char>>>,
    entries: Seq<(Seq<char>, Tracker)>,
) -> Seq<OrientationRule> {
    let source = spec_source(
        assigned,
        entries,
        seq![
            BoneLocation::Head,
            BoneLocation::Neck,
            BoneLocation::UpperChest,
            BoneLocation::Chest,
            BoneLocation::Waist,
            BoneLocation::Hip,
        ],
        spec_identity_source(),
    );
    seq![
        OrientationRule { bone: BoneLocation::Head, source, yaw_only: false },
        OrientationRule { bone: BoneLocation::Neck, source, yaw_only: false },
    ]
}

/// The four bones of the spine. With a tracker assigned anywhere on the
/// torso each follows its own fallback chain, the hip taking the yaw alone,
/// so that the root neither pitches nor rolls. With none, all four take the
/// yaw of the head.
pub open spec fn spec_spine_rules(
    assigned: Seq<Option<Seq<char>>>,
    entries: Seq<(Seq<char>, Tracker)>,
) -> Seq<OrientationRule> {
    let hip = BoneLocation::Hip;
    let waist = BoneLocation::Waist;
    let chest = BoneLocation::Chest;
    let upper = BoneLocation::UpperChest;
    if spec_any_assigned(assigned, seq![upper, chest, waist, hip]) {
        seq![
            OrientationRule {
                bone: hip,
                source: spec_source(
                    assigned,
                    entries,
                    seq![hip, upper, waist, chest],
                    spec_identity_source(),
                ),
                yaw_only: true,
            },
            OrientationRule {
                bone: upper,
                source: spec_source(
                    assigned,
                    entries,
                    seq![upper, chest, waist, hip],
                    spec_identity_source(),
                ),
                yaw_only: false,
            },
            OrientationRule {
                bone: chest,
                source: spec_source(
                    assigned,
                    entries,
                    seq![chest, upper, waist, hip],
                    spec_identity_source(),
                ),
                yaw_only: false,
            },
            OrientationRule {
                bone: waist,
                source: spec_source(
                    assigned,
                    entries,
                    seq![waist, hip, chest, upper],
                    spec_identity_source(),
                ),
                yaw_only: false,
            },
        ]
    } else {
        let head = OrientationSource::Bone(BoneLocation::Head);
        seq![
            OrientationRule { bone: waist, source: head, yaw_only: true },
            OrientationRule { bone: upper, source: head, yaw_only: true },
            OrientationRule { bone: chest, source: head, yaw_only: true },
            OrientationRule { bone: hip, source: head, yaw_only: true },
        ]
    }
}

/// A chain of four bones, each following its own tracker or else the bone
/// before it; the first follows `anchor`. `own_first` says whether the first
/// bone may have a tracker of its own: a shoulder may, the hinge between hip
/// and leg may not.
pub open spec fn spec_limb_rules(
    assigned: Seq<Option<Seq<char>>>,
    entries: Seq<(Seq<char>, Tracker)>,
    anchor: BoneLocation,
    limb: Seq<BoneLocation>,
    own_first: bool,
) -> Seq<OrientationRule>
    recommends
        limb.len() == 4,
{
    seq![
        OrientationRule {
            bone: limb[0],
            source: if own_first {
                spec_source(assigned, entries, seq![limb[0]], OrientationSource::Bone(anchor))
            } else {
                OrientationSource::Bone(anchor)
            },
            yaw_only: false,
        },
        OrientationRule {
            bone: limb[1],
            source: spec_source(
                assigned,
                entries,
                seq![limb[1]],
                OrientationSource::Bone(if own_first {
                    limb[0]
                } else {
                    anchor
                }),
            ),
            yaw_only: false,
        },
        OrientationRule {
            bone: limb[2],
            source: spec_source(assigned, entries, seq![limb[2]], OrientationSource::Bone(limb[1])),
            yaw_only: false,
        },
        OrientationRule {
            bone: limb[3],
            source: spec_source(assigned, entries, seq![limb[3]], OrientationSource::Bone(limb[2])),
            yaw_only: false,
        },
    ]
}

pub open spec fn spec_left_leg() -> Seq<BoneLocation> {
    seq![
        BoneLocation::LeftHip,
        BoneLocation::LeftUpperLeg,
        BoneLocation::LeftLowerLeg,
        BoneLocation::LeftFoot,
    ]
}

pub open spec fn spec_right_leg() -> Seq<BoneLocation> {
    seq![
        BoneLocation::RightHip,
        BoneLocation::RightUpperLeg,
        BoneLocation::RightLowerLeg,
        BoneLocation::RightFoot,
    ]
}

pub open spec fn spec_left_arm() -> Seq<BoneLocation> {
    seq![
        BoneLocation::LeftShoulder,
        BoneLocation::LeftUpperArm,
        BoneLocation::LeftLowerArm,
        BoneLocation::LeftHand,
    ]
}

pub open spec fn spec_right_arm() -> Seq<BoneLocation> {
    seq![
        BoneLocation::RightShoulder,
        BoneLocation::RightUpperArm,
        BoneLocation::RightLowerArm,
        BoneLocation::RightHand,
    ]
}

/// The rules for all twenty-two bones, in the order in which they are to be
/// evaluated: head, spine, legs, arms. The legs hang from the hip, the arms
/// from the upper chest.
pub open spec fn spec_rules(
    assigned: Seq<Option<Seq<char>>>,
    entries: Seq<(Seq<char>, Tracker)>,
) -> Seq<OrientationRule> {
    spec_head_rules(assigned, entries) + spec_spine_rules(assigned, entries) + spec_limb_rules(
        assigned,
        entries,
        BoneLocation::Hip,
        spec_left_leg(),
        false,
    ) + spec_limb_rules(assigned, entries, BoneLocation::Hip, spec_right_leg(), false)
        + spec_limb_rules(assigned, entries, BoneLocation::UpperChest, spec_left_arm(), true)
        + spec_limb_rules(assigned, entries, BoneLocation::UpperChest, spec_right_arm(), true)
}

pub struct SkeletonManager {
    /// Every bone, at its ordinal.
    pub bones: Vec<Bone>,
    /// The id of the tracker assigned to each bone, at the bone's ordinal.
    pub trackers: Vec<Option<String>>,
    /// Where the root of the skeleton stands: a leg's length above the
    /// ground.
    pub root_position: Vec3,
}

impl SkeletonManager {
    /// The id of the tracker assigned to each bone, at the bone's ordinal.
    pub open spec fn spec_assigned(self) -> Seq<Option<Seq<char>>> {
        Seq::new(
            self.trackers@.len(),
            |i: int|
                match self.trackers@[i] {
                    Some(id) => Some(id@),
                    None => None,
                },
        )
    }

    /// Holds of every skeleton: it has all twenty-two bones, each hanging
    /// from its parent.
    pub open spec fn wf(self) -> bool {
        &&& self.bones@.len() == BONE_COUNT
        &&& self.trackers@.len() == BONE_COUNT
        &&& forall|i: int|
            0 <= i < BONE_COUNT ==> (#[trigger] self.bones@[i]).parent
                == BoneLocation::spec_from_ordinal(i).spec_parent()
    }

    /// A skeleton in rest pose, of no size, with no tracker assigned.
    pub fn new() -> (r: SkeletonManager)
        ensures
            r.wf(),
            r.root_position == Vec3::spec_zero(),
            forall|i: int|
                0 <= i < BONE_COUNT ==> #[trigger] r.bones@[i] == Bone::spec_new(
                    BoneLocation::spec_from_ordinal(i).spec_parent(),
                ),
            forall|i: int| 0 <= i < BONE_COUNT ==> (#[trigger] r.spec_assigned()[i]).is_none(),
    {
        let mut bones: Vec<Bone> = Vec::new();
        let mut trackers: Vec<Option<String>> = Vec::new();
        let mut i: usize = 0;
        while i < BONE_COUNT
            invariant
                i <= BONE_COUNT,
                bones@.len() == i,
                trackers@.len() == i,
                forall|k: int|
                    0 <= k < i ==> #[trigger] bones@[k] == Bone::spec_new(
                        BoneLocation::spec_from_ordinal(k).spec_parent(),
                    ),
                forall|k: int| 0 <= k < i ==> (#[trigger] trackers@[k]).is_none(),
            decreases BONE_COUNT - i,
        {
            bones.push(Bone::new(BoneLocation::from_ordinal(i).parent()));
            trackers.push(None);
            i += 1;
        }
        SkeletonManager { bones, trackers, root_position: Vec3::zero() }
    }

    /// Assigns to every bone the tracker configured for it: where several
    /// are, the last in the configuration.
    pub fn apply_tracker_config(&mut self, tracker_configs: &IdMap<TrackerConfig>)
        requires
            old(self).wf(),
            tracker_configs.wf(),
        ensures
            final(self).wf(),
            final(self).bones == old(self).bones,
            final(self).root_position == old(self).root_position,
            forall|b: BoneLocation|
                #[trigger] final(self).spec_assigned()[b.spec_ordinal() as int] == spec_assignment(
                    tracker_configs@,
                    b,
                    tracker_configs@.len(),
                ),
    {
        let mut k: usize = 0;
        while k < BONE_COUNT
            invariant
                k <= BONE_COUNT,
                self.wf(),
                self.bones == old(self).bones,
                self.root_position == old(self).root_position,
                forall|j: int| 0 <= j < k ==> (#[trigger] self.trackers@[j]).is_none(),
            decreases BONE_COUNT - k,
        {
            self.trackers[k] = None;
            k += 1;
        }
        let n = tracker_configs.len();
        let mut i: usize = 0;
        while i < n
            invariant
                i <= n,
                n == tracker_configs@.len(),
                tracker_configs.wf(),
                self.wf(),
                self.bones == old(self).bones,
                self.root_position == old(self).root_position,
                forall|b: BoneLocation|
                    #[trigger] self.spec_assigned()[b.spec_ordinal() as int] == spec_assignment(
                        tracker_configs@,
                        b,
                        i as nat,
                    ),
            decreases n - i,
        {
            let ghost before = self.spec_assigned();
            if let Some(location) = tracker_configs.value_at(i).location {
                self.trackers[location.ordinal()] = Some(tracker_configs.id_at(i).clone());
                assert forall|b: BoneLocation| #[trigger]
                    self.spec_assigned()[b.spec_ordinal() as int] == spec_assignment(
                        tracker_configs@,
                        b,
                        (i + 1) as nat,
                    ) by {
                    if b != location {
                        assert(self.spec_assigned()[b.spec_ordinal() as int]
                            == before[b.spec_ordinal() as int]);
                    }
                }
            }
            i += 1;
        }
    }

    /// Takes over where the root stands and how long each bone is, as the
    /// caller worked them out from the body measurements: the root a leg's
    /// length above the ground, each tail offset at its bone's ordinal.
    pub fn apply_skeleton_config(&mut self, leg_length: u32, tail_offsets: &[Vec3; 22])
        requires
            old(self).wf(),
        ensures
            final(self).wf(),
            final(self).trackers == old(self).trackers,
            final(self).root_position == (Vec3 { y: leg_length, ..old(self).root_position }),
            forall|i: int|
                0 <= i < BONE_COUNT ==> #[trigger] final(self).bones@[i] == (Bone {
                    tail_offset: tail_offsets@[i],
                    ..old(self).bones@[i]
                }),
    {
        self.root_position.y = leg_length;
        let mut i: usize = 0;
        while i < BONE_COUNT
            invariant
                i <= BONE_COUNT,
                self.wf(),
                self.trackers == old(self).trackers,
                self.root_position == (Vec3 { y: leg_length, ..old(self).root_position }),
                forall|k: int|
                    0 <= k < i ==> #[trigger] self.bones@[k] == (Bone {
                        tail_offset: tail_offsets@[k],
                        ..old(self).bones@[k]
                    }),
                forall|k: int| i <= k < BONE_COUNT ==> #[trigger] self.bones@[k] == old(self).bones@[k],
            decreases BONE_COUNT - i,
        {
            self.bones[i].tail_offset = tail_offsets[i];
            i += 1;
        }
    }

    fn check_any_trackers_exist(&self, locations: &[BoneLocation]) -> (r: bool)
        requires
            self.wf(),
        ensures
            r == spec_any_assigned(self.spec_assigned(), locations@),
    {
        let mut i: usize = 0;
        while i < locations.len()
            invariant
                i <= locations@.len(),
                self.wf(),
                forall|k: int|
                    0 <= k < i ==> self.spec_assigned()[(#[trigger] locations@[k]).spec_ordinal() as int].is_none(),
            decreases locations@.len() - i,
        {
            if self.trackers[locations[i].ordinal()].is_some() {
                assert(self.spec_assigned()[locations@[i as int].spec_ordinal() as int].is_some());
                return true;
            }
            i += 1;
        }
        false
    }

    /// Records the world orientation worked out for each of `locations`.
    pub fn set_bone_orientation(&mut self, locations: &[BoneLocation], orientation: Quat)
        requires
            old(self).wf(),
        ensures
            final(self).wf(),
            final(self).trackers == old(self).trackers,
            final(self).root_position == old(self).root_position,
            forall|i: int|
                0 <= i < BONE_COUNT ==> #[trigger] final(self).bones@[i] == if locations@.contains(
                    BoneLocation::spec_from_ordinal(i),
                ) {
                    Bone { world_orientation: orientation, ..old(self).bones@[i] }
                } else {
                    old(self).bones@[i]
                },
    {
        let mut k: usize = 0;
        while k < locations.len()
            invariant
                k <= locations@.len(),
                self.wf(),
                self.trackers == old(self).trackers,
                self.root_position == old(self).root_position,
                forall|i: int|
                    0 <= i < BONE_COUNT ==> #[trigger] self.bones@[i] == if locations@.subrange(
                        0,
                        k as int,
                    ).contains(BoneLocation::spec_from_ordinal(i)) {
                        Bone { world_orientation: orientation, ..old(self).bones@[i] }
                    } else {
                        old(self).bones@[i]
                    },
            decreases locations@.len() - k,
        {
            let location = locations[k];
            let ghost done = locations@.subrange(0, k as int);
            let ghost next = locations@.subrange(0, k + 1);
            self.bones[location.ordinal()].world_orientation = orientation;
            proof {
                crate::skeleton::bone::lemma_ordinal_names_bone(location);
                assert(next =~= done.push(location));
                assert forall|i: int| 0 <= i < BONE_COUNT implies #[trigger] self.bones@[i] == if next.contains(
                    BoneLocation::spec_from_ordinal(i),
                ) {
                    Bone { world_orientation: orientation, ..old(self).bones@[i] }
                } else {
                    old(self).bones@[i]
                } by {
                    let b = BoneLocation::spec_from_ordinal(i);
                    if done.contains(b) {
                        let j = choose|j: int| 0 <= j < done.len() && done[j] == b;
                        assert(next[j] == b);
                    }
                    if b == location {
                        assert(next[k as int] == b);
                    }
                    if next.contains(b) && b != location {
                        let j = choose|j: int| 0 <= j < next.len() && next[j] == b;
                        assert(done[j] == b);
                    }
                }
            }
            k += 1;
        }
        assert(locations@.subrange(0, locations@.len() as int) =~= locations@);
    }

    /// Records the pose that the walk from the root worked out for a bone:
    /// its orientation relative to its parent and where its tail lies.
    pub fn set_bone_pose(
        &mut self,
        location: BoneLocation,
        local_orientation: Quat,
        tail_world_position: Vec3,
    )
        requires
            old(self).wf(),
        ensures
            final(self).wf(),
            final(self).trackers == old(self).trackers,
            final(self).root_position == old(self).root_position,
            final(self).bones@ == old(self).bones@.update(
                location.spec_ordinal() as int,
                Bone {
                    local_orientation,
                    tail_world_position,
                    ..old(self).bones@[location.spec_ordinal() as int]
                },
            ),
    {
        let i = location.ordinal();
        self.bones[i].local_orientation = local_orientation;
        self.bones[i].tail_world_position = tail_world_position;
        assert(self.bones@ =~= old(self).bones@.update(
            location.spec_ordinal() as int,
            Bone {
                local_orientation,
                tail_world_position,
                ..old(self).bones@[location.spec_ordinal() as int]
            },
        ));
    }

    /// The bone at `location`.
    pub fn bone(&self, location: BoneLocation) -> (r: &Bone)
        requires
            self.wf(),
        ensures
            *r == self.bones@[location.spec_ordinal() as int],
    {
        &self.bones[location.ordinal()]
    }

    /// The orientation of the tracker worn at `location`, if one is assigned
    /// there, the registry holds it and its status is `Okay`.
    fn ok_orientation(&self, registry: &TrackerRegistry, location: BoneLocation) -> (r: Option<Quat>)
        requires
            self.wf(),
            registry.wf(),
        ensures
            r == spec_ok_orientation(self.spec_assigned(), registry@, location),
    {
        match &self.trackers[location.ordinal()] {
            Some(id) => {
                assert(self.spec_assigned()[location.spec_ordinal() as int] == Some(id@));
                match registry.index_of(id) {
                    Some(k) => {
                        let tracker = registry.value_at(k);
                        if tracker.info().status == TrackerStatus::Okay {
                            Some(tracker.data().orientation)
                        } else {
                            None
                        }
                    },
                    None => None,
                }
            },
            None => {
                assert(self.spec_assigned()[location.spec_ordinal() as int].is_none());
                None
            },
        }
    }

    /// The source that a fallback chain comes to: the orientation of the
    /// first tracker along `locations` that is assigned, held by the
    /// registry and `Okay`, or else `fallback`.
    pub fn get_tracker_orientation_or_default(
        &self,
        registry: &TrackerRegistry,
        locations: &[BoneLocation],
        fallback: OrientationSource,
    ) -> (r: OrientationSource)
        requires
            self.wf(),
            registry.wf(),
        ensures
            r == spec_source(self.spec_assigned(), registry@, locations@, fallback),
    {
        assert(locations@.skip(0) =~= locations@);
        let mut i: usize = 0;
        while i < locations.len()
            invariant
                i <= locations@.len(),
                self.wf(),
                registry.wf(),
                spec_tracker_orientation(self.spec_assigned(), registry@, locations@)
                    == spec_tracker_orientation(
                    self.spec_assigned(),
                    registry@,
                    locations@.skip(i as int),
                ),
            decreases locations@.len() - i,
        {
            let ghost rest = locations@.skip(i as int);
            assert(rest[0] == locations@[i as int]);
            assert(rest.skip(1) =~= locations@.skip(i + 1));
            if let Some(q) = self.ok_orientation(registry, locations[i]) {
                return OrientationSource::Value(q);
            }
            i += 1;
        }
        fallback
    }

    /// The source that a fallback chain comes to, the identity if no
    /// tracker along it has an orientation to give.
    pub fn get_tracker_orientation(&self, registry: &TrackerRegistry, locations: &[BoneLocation]) -> (r:
        OrientationSource)
        requires
            self.wf(),
            registry.wf(),
        ensures
            r == spec_source(
                self.spec_assigned(),
                registry@,
                locations@,
                spec_identity_source(),
            ),
    {
        self.get_tracker_orientation_or_default(
            registry,
            locations,
            OrientationSource::Value(Quat::identity()),
        )
    }

    fn update_head(&self, registry: &TrackerRegistry, rules: &mut Vec<OrientationRule>)
        requires
            self.wf(),
            registry.wf(),
        ensures
            final(rules)@ == old(rules)@ + spec_head_rules(self.spec_assigned(), registry@),
    {
        let chain = [
            BoneLocation::Head,
            BoneLocation::Neck,
            BoneLocation::UpperChest,
            BoneLocation::Chest,
            BoneLocation::Waist,
            BoneLocation::Hip,
        ];
        assert(chain@ =~= seq![
            BoneLocation::Head,
            BoneLocation::Neck,
            BoneLocation::UpperChest,
            BoneLocation::Chest,
            BoneLocation::Waist,
            BoneLocation::Hip,
        ]);
        let source = self.get_tracker_orientation(registry, chain.as_slice());
        rules.push(OrientationRule { bone: BoneLocation::Head, source, yaw_only: false });
        rules.push(OrientationRule { bone: BoneLocation::Neck, source, yaw_only: false });
        assert(rules@ =~= old(rules)@ + spec_head_rules(self.spec_assigned(), registry@));
    }

    fn chain_source(
        &self,
        registry: &TrackerRegistry,
        a: BoneLocation,
        b: BoneLocation,
        c: BoneLocation,
        d: BoneLocation,
    ) -> (r: OrientationSource)
        requires
            self.wf(),
            registry.wf(),
        ensures
            r == spec_source(
                self.spec_assigned(),
                registry@,
                seq![a, b, c, d],
                spec_identity_source(),
            ),
    {
        let chain = [a, b, c, d];
        assert(chain@ =~= seq![a, b, c, d]);
        self.get_tracker_orientation(registry, chain.as_slice())
    }

    fn update_spine(&self, registry: &TrackerRegistry, rules: &mut Vec<OrientationRule>)
        requires
            self.wf(),
            registry.wf(),
        ensures
            final(rules)@ == old(rules)@ + spec_spine_rules(self.spec_assigned(), registry@),
    {
        let hip = BoneLocation::Hip;
        let waist = BoneLocation::Waist;
        let chest = BoneLocation::Chest;
        let upper = BoneLocation::UpperChest;
        let torso = [upper, chest, waist, hip];
        assert(torso@ =~= seq![upper, chest, waist, hip]);
        if self.check_any_trackers_exist(torso.as_slice()) {
            let source = self.chain_source(registry, hip, upper, waist, chest);
            rules.push(OrientationRule { bone: hip, source, yaw_only: true });
            let source = self.chain_source(registry, upper, chest, waist, hip);
            rules.push(OrientationRule { bone: upper, source, yaw_only: false });
            let source = self.chain_source(registry, chest, upper, waist, hip);
            rules.push(OrientationRule { bone: chest, source, yaw_only: false });
            let source = self.chain_source(registry, waist, hip, chest, upper);
            rules.push(OrientationRule { bone: waist, source, yaw_only: false });
        } else {
            // Use the head yaw instead.
            let head = OrientationSource::Bone(BoneLocation::Head);
            rules.push(OrientationRule { bone: waist, source: head, yaw_only: true });
            rules.push(OrientationRule { bone: upper, source: head, yaw_only: true });
            rules.push(OrientationRule { bone: chest, source: head, yaw_only: true });
            rules.push(OrientationRule { bone: hip, source: head, yaw_only: true });
        }
        assert(rules@ =~= old(rules)@ + spec_spine_rules(self.spec_assigned(), registry@));
    }

    fn own_source(&self, registry: &TrackerRegistry, bone: BoneLocation, before: BoneLocation) -> (r:
        OrientationSource)
        requires
            self.wf(),
            registry.wf(),
        ensures
            r == spec_source(
                self.spec_assigned(),
                registry@,
                seq![bone],
                OrientationSource::Bone(before),
            ),
    {
        let chain = [bone];
        assert(chain@ =~= seq![bone]);
        self.get_tracker_orientation_or_default(
            registry,
            chain.as_slice(),
            OrientationSource::Bone(before),
        )
    }

    fn update_leg(
        &self,
        registry: &TrackerRegistry,
        rules: &mut Vec<OrientationRule>,
        side_hip: BoneLocation,
        upper_leg: BoneLocation,
        lower_leg: BoneLocation,
        foot: BoneLocation,
    )
        requires
            self.wf(),
            registry.wf(),
        ensures
            final(rules)@ == old(rules)@ + spec_limb_rules(
                self.spec_assigned(),
                registry@,
                BoneLocation::Hip,
                seq![side_hip, upper_leg, lower_leg, foot],
                false,
            ),
    {
        let hip = BoneLocation::Hip;
        rules.push(
            OrientationRule { bone: side_hip, source: OrientationSource::Bone(hip), yaw_only: false },
        );
        let source = self.own_source(registry, upper_leg, hip);
        rules.push(OrientationRule { bone: upper_leg, source, yaw_only: false });
        let source = self.own_source(registry, lower_leg, upper_leg);
        rules.push(OrientationRule { bone: lower_leg, source, yaw_only: false });
        let source = self.own_source(registry, foot, lower_leg);
        rules.push(OrientationRule { bone: foot, source, yaw_only: false });
        assert(rules@ =~= old(rules)@ + spec_limb_rules(
            self.spec_assigned(),
            registry@,
            BoneLocation::Hip,
            seq![side_hip, upper_leg, lower_leg, foot],
            false,
        ));
    }

    fn update_arm(
        &self,
        registry: &TrackerRegistry,
        rules: &mut Vec<OrientationRule>,
        shoulder: BoneLocation,
        upper_arm: BoneLocation,
        lower_arm: BoneLocation,
        hand: BoneLocation,
    )
        requires
            self.wf(),
            registry.wf(),
        ensures
            final(rules)@ == old(rules)@ + spec_limb_rules(
                self.spec_assigned(),
                registry@,
                BoneLocation::UpperChest,
                seq![shoulder, upper_arm, lower_arm, hand],
                true,
            ),
    {
        let source = self.own_source(registry, shoulder, BoneLocation::UpperChest);
        rules.push(OrientationRule { bone: shoulder, source, yaw_only: false });
        let source = self.own_source(registry, upper_arm, shoulder);
        rules.push(OrientationRule { bone: upper_arm, source, yaw_only: false });
        let source = self.own_source(registry, lower_arm, upper_arm);
        rules.push(OrientationRule { bone: lower_arm, source, yaw_only: false });
        let source = self.own_source(registry, hand, lower_arm);
        rules.push(OrientationRule { bone: hand, source, yaw_only: false });
        assert(rules@ =~= old(rules)@ + spec_limb_rules(
            self.spec_assigned(),
            registry@,
            BoneLocation::UpperChest,
            seq![shoulder, upper_arm, lower_arm, hand],
            true,
        ));
    }

    /// Works out, for every bone, where its world orientation comes from
    /// this tick. The rules come in the order in which they are to be
    /// evaluated.
    pub fn update(&self, registry: &TrackerRegistry) -> (rules: Vec<OrientationRule>)
        requires
            self.wf(),
            registry.wf(),
        ensures
            rules@ == spec_rules(self.spec_assigned(), registry@),
            rules@.len() == BONE_COUNT,
    {
        let mut rules: Vec<OrientationRule> = Vec::new();
        self.update_head(registry, &mut rules);
        self.update_spine(registry, &mut rules);
        self.update_leg(
            registry,
            &mut rules,
            BoneLocation::LeftHip,
            BoneLocation::LeftUpperLeg,
            BoneLocation::LeftLowerLeg,
            BoneLocation::LeftFoot,
        );
        self.update_leg(
            registry,
            &mut rules,
            BoneLocation::RightHip,
            BoneLocation::RightUpperLeg,
            BoneLocation::RightLowerLeg,
            BoneLocation::RightFoot,
        );
        self.update_arm(
            registry,
            &mut rules,
            BoneLocation::LeftShoulder,
            BoneLocation::LeftUpperArm,
            BoneLocation::LeftLowerArm,
            BoneLocation::LeftHand,
        );
        self.update_arm(
            registry,
            &mut rules,
            BoneLocation::RightShoulder,
            BoneLocation::RightUpperArm,
            BoneLocation::RightLowerArm,
            BoneLocation::RightHand,
        );
        assert(rules@ =~= spec_rules(self.spec_assigned(), registry@));
        rules
    }
}

/// The bones of the subtree below and with `location`, each before its
/// children, the children in the order of the hierarchy table: the order in
/// which a walk from `location` comes to them. `fuel` bounds the depth.
pub open spec fn spec_walk(location: BoneLocation, fuel: nat) -> Seq<BoneLocation>
    decreases fuel, BONE_COUNT + 1,
{
    seq![location] + spec_walk_children(location.spec_children(), fuel, 0)
}

/// The walks from each of `children` from position `from` on, one after the
/// other.
pub open spec fn spec_walk_children(children: Seq<BoneLocation>, fuel: nat, from: nat) -> Seq<
    BoneLocation,
>
    decreases fuel, BONE_COUNT - from,
{
    if fuel == 0 || from >= children.len() || from >= BONE_COUNT {
        Seq::empty()
    } else {
        spec_walk(children[from as int], (fuel - 1) as nat) + spec_walk_children(
            children,
            fuel,
            from + 1,
        )
    }
}

/// Appends the order in which a walk from `location` comes to the bones
/// below it: a bone first, then the subtree of each child in turn.
pub fn update_bone_recursive(location: BoneLocation, order: &mut Vec<BoneLocation>)
    ensures
        final(order)@ == old(order)@ + spec_walk(
            location,
            (MAX_DEPTH - spec_depth(location)) as nat,
        ),
    decreases MAX_DEPTH - spec_depth(location),
{
    proof {
        lemma_depth_of_child(location);
    }
    let ghost fuel = (MAX_DEPTH - spec_depth(location)) as nat;
    order.push(location);
    let children = location.get_children();
    let mut i: usize = 0;
    assert(children@.len() <= BONE_COUNT) by {
        lemma_children_bounded(location, BONE_COUNT as nat);
    }
    while i < children.len()
        invariant
            i <= children@.len(),
            children@.len() <= BONE_COUNT,
            children@ == location.spec_children(),
            fuel == (MAX_DEPTH - spec_depth(location)) as nat,
            spec_depth(location) <= MAX_DEPTH,
            order@ + spec_walk_children(children@, fuel, i as nat) == old(order)@ + spec_walk(
                location,
                fuel,
            ),
        decreases children@.len() - i,
    {
        let child = children[i];
        let ghost before = order@;
        proof {
            lemma_children_have_parent(location, BONE_COUNT as nat, i as int);
            lemma_depth_of_child(child);
        }
        update_bone_recursive(child, order);
        proof {
            assert(fuel > 0);
            let walked = spec_walk(child, (fuel - 1) as nat);
            let rest = spec_walk_children(children@, fuel, (i + 1) as nat);
            assert(spec_walk_children(children@, fuel, i as nat) == walked + rest);
            assert((before + walked) + rest =~= before + (walked + rest));
        }
        i += 1;
    }
    proof {
        assert(spec_walk_children(children@, fuel, i as nat) =~= Seq::<BoneLocation>::empty());
        assert(order@ + Seq::<BoneLocation>::empty() =~= order@);
    }
}

/// A bone has at most as many children as rows were looked at.
pub proof fn lemma_children_bounded(parent: BoneLocation, n: nat)
    ensures
        parent.spec_children_within(n).len() <= n,
    decreases n,
{
    if n > 0 {
        lemma_children_bounded(parent, (n - 1) as nat);
    }
}

/// A walk comes to a bone and then, in turn, to all that hangs from each of
/// its children. No bone has more than three children.
pub proof fn lemma_walk_unfolds(b: BoneLocation, fuel: nat)
    ensures
        spec_walk(b, fuel) == seq![b] + if fuel == 0 || spec_children_table(b).len() == 0 {
            Seq::<BoneLocation>::empty()
        } else if spec_children_table(b).len() == 1 {
            spec_walk(spec_children_table(b)[0], (fuel - 1) as nat)
        } else {
            spec_walk(spec_children_table(b)[0], (fuel - 1) as nat) + spec_walk(
                spec_children_table(b)[1],
                (fuel - 1) as nat,
            ) + spec_walk(spec_children_table(b)[2], (fuel - 1) as nat)
        },
{
    lemma_children(b);
    let children = spec_children_table(b);
    reveal_with_fuel(spec_walk_children, 5);
    if fuel > 0 {
        if children.len() == 1 {
            assert(spec_walk_children(children, fuel, 0) =~= spec_walk(
                children[0],
                (fuel - 1) as nat,
            ));
        } else if children.len() == 3 {
            assert(spec_walk_children(children, fuel, 0) =~= spec_walk(
                children[0],
                (fuel - 1) as nat,
            ) + spec_walk(children[1], (fuel - 1) as nat) + spec_walk(
                children[2],
                (fuel - 1) as nat,
            ));
        }
    }
}

/// The order in which a walk from the root comes to the bones: the spine
/// up to the upper chest, the left arm, the right arm, neck and head, then
/// the left leg and the right leg.
pub open spec fn spec_walk_from_root() -> Seq<BoneLocation> {
    seq![
        BoneLocation::Hip,
        BoneLocation::Waist,
        BoneLocation::Chest,
        BoneLocation::UpperChest,
        BoneLocation::LeftShoulder,
        BoneLocation::LeftUpperArm,
        BoneLocation::LeftLowerArm,
        BoneLocation::LeftHand,
        BoneLocation::RightShoulder,
        BoneLocation::RightUpperArm,
        BoneLocation::RightLowerArm,
        BoneLocation::RightHand,
        BoneLocation::Neck,
        BoneLocation::Head,
        BoneLocation::LeftHip,
        BoneLocation::LeftUpperLeg,
        BoneLocation::LeftLowerLeg,
        BoneLocation::LeftFoot,
        BoneLocation::RightHip,
        BoneLocation::RightUpperLeg,
        BoneLocation::RightLowerLeg,
        BoneLocation::RightFoot,
    ]
}

/// A chain of four bones, each the only child of the one before and the
/// last without children, is walked in its order.
proof fn lemma_walk_chain(
    a: BoneLocation,
    b: BoneLocation,
    c: BoneLocation,
    d: BoneLocation,
    fuel: nat,
)
    requires
        fuel >= 3,
        spec_children_table(a) == seq![b],
        spec_children_table(b) == seq![c],
        spec_children_table(c) == seq![d],
        spec_children_table(d).len() == 0,
    ensures
        spec_walk(a, fuel) == seq![a, b, c, d],
{
    lemma_walk_unfolds(a, fuel);
    lemma_walk_unfolds(b, (fuel - 1) as nat);
    lemma_walk_unfolds(c, (fuel - 2) as nat);
    lemma_walk_unfolds(d, (fuel - 3) as nat);
    assert(spec_walk(d, (fuel - 3) as nat) =~= seq![d]);
    assert(spec_walk(c, (fuel - 2) as nat) =~= seq![c, d]);
    assert(spec_walk(b, (fuel - 1) as nat) =~= seq![b, c, d]);
    assert(spec_walk(a, fuel) =~= seq![a, b, c, d]);
}

/// Where a walk from the root comes to a bone.
pub open spec fn spec_walk_position(b: BoneLocation) -> int {
    match b {
        BoneLocation::Hip => 0,
        BoneLocation::Waist => 1,
        BoneLocation::Chest => 2,
        BoneLocation::UpperChest => 3,
        BoneLocation::LeftShoulder => 4,
        BoneLocation::LeftUpperArm => 5,
        BoneLocation::LeftLowerArm => 6,
        BoneLocation::LeftHand => 7,
        BoneLocation::RightShoulder => 8,
        BoneLocation::RightUpperArm => 9,
        BoneLocation::RightLowerArm => 10,
        BoneLocation::RightHand => 11,
        BoneLocation::Neck => 12,
        BoneLocation::Head => 13,
        BoneLocation::LeftHip => 14,
        BoneLocation::LeftUpperLeg => 15,
        BoneLocation::LeftLowerLeg => 16,
        BoneLocation::LeftFoot => 17,
        BoneLocation::RightHip => 18,
        BoneLocation::RightUpperLeg => 19,
        BoneLocation::RightLowerLeg => 20,
        BoneLocation::RightFoot => 21,
    }
}

proof fn lemma_walk_upper_chest()
    ensures
        spec_walk(BoneLocation::UpperChest, 4) == seq![
            BoneLocation::UpperChest,
            BoneLocation::LeftShoulder,
            BoneLocation::LeftUpperArm,
            BoneLocation::LeftLowerArm,
            BoneLocation::LeftHand,
            BoneLocation::RightShoulder,
            BoneLocation::RightUpperArm,
            BoneLocation::RightLowerArm,
            BoneLocation::RightHand,
            BoneLocation::Neck,
            BoneLocation::Head,
        ],
{
    lemma_walk_chain(
        BoneLocation::LeftShoulder,
        BoneLocation::LeftUpperArm,
        BoneLocation::LeftLowerArm,
        BoneLocation::LeftHand,
        3,
    );
    lemma_walk_chain(
        BoneLocation::RightShoulder,
        BoneLocation::RightUpperArm,
        BoneLocation::RightLowerArm,
        BoneLocation::RightHand,
        3,
    );
    lemma_walk_unfolds(BoneLocation::Head, 2);
    lemma_walk_unfolds(BoneLocation::Neck, 3);
    assert(spec_walk(BoneLocation::Neck, 3) =~= seq![BoneLocation::Neck, BoneLocation::Head]);
    lemma_walk_unfolds(BoneLocation::UpperChest, 4);
    assert(spec_walk(BoneLocation::UpperChest, 4) =~= seq![
        BoneLocation::UpperChest,
        BoneLocation::LeftShoulder,
        BoneLocation::LeftUpperArm,
        BoneLocation::LeftLowerArm,
        BoneLocation::LeftHand,
        BoneLocation::RightShoulder,
        BoneLocation::RightUpperArm,
        BoneLocation::RightLowerArm,
        BoneLocation::RightHand,
        BoneLocation::Neck,
        BoneLocation::Head,
    ]);
}

proof fn lemma_walk_waist()
    ensures
        spec_walk(BoneLocation::Waist, 6) == spec_walk_from_root().subrange(1, 14),
{
    lemma_walk_upper_chest();
    lemma_walk_unfolds(BoneLocation::Chest, 5);
    lemma_walk_unfolds(BoneLocation::Waist, 6);
    assert(spec_walk(BoneLocation::Chest, 5) =~= seq![BoneLocation::Chest] + spec_walk(
        BoneLocation::UpperChest,
        4,
    ));
    assert(spec_walk(BoneLocation::Waist, 6) =~= spec_walk_from_root().subrange(1, 14));
}

/// A walk from the root comes to the bones in the order listed above.
pub proof fn lemma_walk_from_root()
    ensures
        spec_walk(BoneLocation::Hip, MAX_DEPTH as nat) == spec_walk_from_root(),
{
    lemma_walk_waist();
    lemma_walk_chain(
        BoneLocation::LeftHip,
        BoneLocation::LeftUpperLeg,
        BoneLocation::LeftLowerLeg,
        BoneLocation::LeftFoot,
        6,
    );
    lemma_walk_chain(
        BoneLocation::RightHip,
        BoneLocation::RightUpperLeg,
        BoneLocation::RightLowerLeg,
        BoneLocation::RightFoot,
        6,
    );
    lemma_walk_unfolds(BoneLocation::Hip, 7);
    let order = spec_walk_from_root();
    assert(order.subrange(14, 18) =~= spec_walk(BoneLocation::LeftHip, 6));
    assert(order.subrange(18, 22) =~= spec_walk(BoneLocation::RightHip, 6));
    assert(order =~= seq![BoneLocation::Hip] + order.subrange(1, 14) + order.subrange(14, 18)
        + order.subrange(18, 22));
}

/// A walk from the root comes to every bone exactly once, and to every
/// bone but the root after its parent.
pub proof fn lemma_walk_is_complete()
    ensures
        spec_walk_from_root().len() == BONE_COUNT,
        forall|b: BoneLocation|
            0 <= #[trigger] spec_walk_position(b) < BONE_COUNT && spec_walk_from_root()[spec_walk_position(
                b,
            )] == b,
        forall|i: int|
            0 <= i < BONE_COUNT ==> spec_walk_position(#[trigger] spec_walk_from_root()[i]) == i,
        forall|b: BoneLocation|
            b.spec_parent() matches Some(p) ==> spec_walk_position(p) < #[trigger] spec_walk_position(
                b,
            ),
{
}

} // verus!
