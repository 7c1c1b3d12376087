//! Tracker poses for VRChat.

use vstd::prelude::*;
use crate::math::{Quat, Vec3};
use crate::osc::{spec_vector_args, spec_views, OscArg, OscConnector, OscMessage, OscMessageView};
use crate::skeleton::bone::{Bone, BoneLocation};
use crate::skeleton::skeleton_manager::SkeletonManager;
use crate::text::{push_decimal, spec_decimal};

verus! {

#[derive(Debug)]
pub struct VrChatConfig {
    pub enabled: bool,
    pub send_port: u16,
    /// The bones published as trackers; the position in the list is the
    /// number of the tracker.
    pub bones_to_send: Vec<BoneLocation>,
}

/// The bones published unless the user chooses others.
pub open spec fn spec_default_bones_to_send() -> Seq<BoneLocation> {
    seq![
        BoneLocation::Hip,
        BoneLocation::Chest,
        BoneLocation::LeftFoot,
        BoneLocation::RightFoot,
        BoneLocation::RightLowerLeg,
        BoneLocation::LeftLowerLeg,
        BoneLocation::LeftUpperArm,
        BoneLocation::RightUpperArm,
    ]
}

impl Default for VrChatConfig {
    fn default() -> (r: VrChatConfig)
        ensures
            !r.enabled,
            r.send_port == 9000,
            r.bones_to_send@ == spec_default_bones_to_send(),
    {
        let mut bones_to_send: Vec<BoneLocation> = Vec::new();
        bones_to_send.push(BoneLocation::Hip);
        bones_to_send.push(BoneLocation::Chest);
        bones_to_send.push(BoneLocation::LeftFoot);
        bones_to_send.push(BoneLocation::RightFoot);
        bones_to_send.push(BoneLocation::RightLowerLeg);
        bones_to_send.push(BoneLocation::LeftLowerLeg);
        bones_to_send.push(BoneLocation::LeftUpperArm);
        bones_to_send.push(BoneLocation::RightUpperArm);
        assert(bones_to_send@ =~= spec_default_bones_to_send());
        VrChatConfig { enabled: false, send_port: 9000, bones_to_send }
    }
}

/// The address for one property of tracker `i`, as in
/// `/tracking/trackers/3/position`.
pub open spec fn spec_tracker_address(i: nat, property: Seq<char>) -> Seq<char> {
    "/tracking/trackers/"@ + spec_decimal(i) + seq!['/'] + property
}

/// A message that carries one vector.
pub open spec fn spec_pos_message(addr: Seq<char>, vector: Vec3) -> OscMessageView {
    OscMessageView { addr, args: spec_vector_args(vector.x, vector.y, vector.z) }
}

/// How many trackers one tick publishes: one for each listed bone that a
/// rotation was handed in for.
pub open spec fn spec_tracker_count(bones_to_send: Seq<BoneLocation>, rotations: Seq<Vec3>) -> nat {
    if bones_to_send.len() <= rotations.len() {
        bones_to_send.len()
    } else {
        rotations.len()
    }
}

/// The messages for the first `n` listed bones: for each its world tail
/// position, then its rotation.
pub open spec fn spec_tracker_messages(
    bones: Seq<Bone>,
    bones_to_send: Seq<BoneLocation>,
    rotations: Seq<Vec3>,
    n: nat,
) -> Seq<OscMessageView>
    decreases n,
{
    if n == 0 {
        Seq::empty()
    } else {
        let i = (n - 1) as nat;
        let bone = bones[bones_to_send[i as int].spec_ordinal() as int];
        spec_tracker_messages(bones, bones_to_send, rotations, i).push(
            spec_pos_message(spec_tracker_address(i, "position"@), bone.tail_world_position),
        ).push(spec_pos_message(spec_tracker_address(i, "rotation"@), rotations[i as int]))
    }
}

/// Each tracker makes two messages.
pub proof fn lemma_tracker_message_count(
    bones: Seq<Bone>,
    bones_to_send: Seq<BoneLocation>,
    rotations: Seq<Vec3>,
    n: nat,
)
    ensures
        spec_tracker_messages(bones, bones_to_send, rotations, n).len() == 2 * n,
    decreases n,
{
    if n > 0 {
        lemma_tracker_message_count(bones, bones_to_send, rotations, (n - 1) as nat);
    }
}

fn tracker_address(i: usize, property: &str) -> (r: String)
    ensures
        r@ == spec_tracker_address(i as nat, property@),
{
    let mut addr = String::new();
    addr.push_str("/tracking/trackers/");
    push_decimal(&mut addr, i as u64);
    addr.push('/');
    addr.push_str(property);
    assert(addr@ =~= spec_tracker_address(i as nat, property@));
    addr
}

/// A message that carries one vector.
pub fn make_pos_message(addr: String, vector: Vec3) -> (r: OscMessage)
    ensures
        r@ == spec_pos_message(addr@, vector),
{
    let mut args: Vec<OscArg> = Vec::new();
    args.push(OscArg::Float(vector.x));
    args.push(OscArg::Float(vector.y));
    args.push(OscArg::Float(vector.z));
    let message = OscMessage { addr, args };
    assert(message@.args =~= spec_vector_args(vector.x, vector.y, vector.z));
    message
}

pub struct VrChatConnector {
    pub osc: OscConnector,
}

impl VrChatConnector {
    pub fn new() -> (r: VrChatConnector)
        ensures
            r.osc.peer_port.is_none(),
    {
        VrChatConnector { osc: OscConnector::new() }
    }

    /// The world orientation of each listed bone, for the caller to turn
    /// into the rotations that [`VrChatConnector::update`] takes: Euler
    /// angles in degrees, in the order Z, X, Y.
    pub fn orientations_to_send(config: &VrChatConfig, skeleton: &SkeletonManager) -> (r: Vec<Quat>)
        requires
            skeleton.wf(),
        ensures
            r@.len() == config.bones_to_send@.len(),
            forall|i: int|
                0 <= i < r@.len() ==> #[trigger] r@[i] == skeleton.bones@[config.bones_to_send@[i].spec_ordinal() as int].world_orientation,
    {
        let mut out: Vec<Quat> = Vec::new();
        let mut i: usize = 0;
        while i < config.bones_to_send.len()
            invariant
                i <= config.bones_to_send@.len(),
                skeleton.wf(),
                out@.len() == i,
                forall|k: int|
                    0 <= k < i ==> #[trigger] out@[k] == skeleton.bones@[config.bones_to_send@[k].spec_ordinal() as int].world_orientation,
            decreases config.bones_to_send@.len() - i,
        {
            out.push(skeleton.bone(config.bones_to_send[i]).world_orientation);
            i += 1;
        }
        out
    }

    /// The messages of this tick, or `None` while publishing is disabled:
    /// for every listed bone, in turn, its position and its rotation.
    /// `rotations` holds the rotation of each listed bone.
    pub fn update(
        &self,
        config: &VrChatConfig,
        skeleton: &SkeletonManager,
        rotations: &Vec<Vec3>,
    ) -> (r: Option<Vec<OscMessage>>)
        requires
            skeleton.wf(),
        ensures
            r.is_some() == config.enabled,
            r.is_some() ==> spec_views(r.unwrap()@) == spec_tracker_messages(
                skeleton.bones@,
                config.bones_to_send@,
                rotations@,
                spec_tracker_count(config.bones_to_send@, rotations@),
            ),
            r.is_some() ==> r.unwrap()@.len() == 2 * spec_tracker_count(
                config.bones_to_send@,
                rotations@,
            ),
    {
        if !config.enabled {
            return None;
        }
        let count = if config.bones_to_send.len() <= rotations.len() {
            config.bones_to_send.len()
        } else {
            rotations.len()
        };
        let mut messages: Vec<OscMessage> = Vec::new();
        let mut i: usize = 0;
        assert(spec_views(messages@) =~= spec_tracker_messages(
            skeleton.bones@,
            config.bones_to_send@,
            rotations@,
            0,
        ));
        while i < count
            invariant
                i <= count,
                count == spec_tracker_count(config.bones_to_send@, rotations@),
                skeleton.wf(),
                spec_views(messages@) == spec_tracker_messages(
                    skeleton.bones@,
                    config.bones_to_send@,
                    rotations@,
                    i as nat,
                ),
            decreases count - i,
        {
            let ghost before = spec_views(messages@);
            let bone = skeleton.bone(config.bones_to_send[i]);
            let position = make_pos_message(tracker_address(i, "position"), bone.tail_world_position);
            let ghost position_view = position@;
            messages.push(position);
            let rotation = make_pos_message(tracker_address(i, "rotation"), rotations[i]);
            let ghost rotation_view = rotation@;
            messages.push(rotation);
            assert(spec_views(messages@) =~= before.push(position_view).push(rotation_view));
            i += 1;
        }
        proof {
            lemma_tracker_message_count(
                skeleton.bones@,
                config.bones_to_send@,
                rotations@,
                count as nat,
            );
            assert(spec_views(messages@).len() == messages@.len());
        }
        Some(messages)
    }

    /// Whether applying `config` calls for the socket to be connected to
    /// its send port.
    pub fn apply_config(&self, config: &VrChatConfig) -> (r: bool)
        ensures
            r == (config.enabled && self.osc.peer_port != Some(config.send_port)),
    {
        self.osc.needs_connect(config.enabled, config.send_port)
    }
}

} // verus!
