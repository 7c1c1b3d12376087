//! Bone transforms for avatar engines that speak the VMC protocol.

use vstd::prelude::*;
use crate::math::{negate, spec_negate, Quat, Vec3};
use crate::osc::{spec_views, OscArg, OscArgView, OscConnector, OscMessage, OscMessageView};
use crate::skeleton::bone::{Bone, BoneLocation, BONE_COUNT};
use crate::skeleton::skeleton_manager::SkeletonManager;

verus! {

#[derive(Debug, Clone, Copy, PartialEq, Eq, Structural)]
pub struct VmcConfig {
    pub enabled: bool,
    pub send_port: u16,
    pub receive_port: u16,
}

impl Default for VmcConfig {
    fn default() -> (r: VmcConfig)
        ensures
            r == (VmcConfig { enabled: false, send_port: 39539, receive_port: 39540 }),
    {
        VmcConfig { enabled: false, send_port: 39539, receive_port: 39540 }
    }
}

/// The message that opens every bundle: the model is loaded.
pub open spec fn spec_ok_message() -> OscMessageView {
    OscMessageView { addr: "/VMC/Ext/OK"@, args: seq![OscArgView::Int(1)] }
}

/// The transform of one bone: its name, where its head lies relative to the
/// head of its parent, and its orientation relative to its parent as
/// `(x, y, -z, -w)`, which is the handedness the receiver expects.
pub open spec fn spec_bone_message(bones: Seq<Bone>, name: Seq<char>, bone: Bone) -> OscMessageView {
    let p = bone.spec_head_offset(bones);
    let q = bone.local_orientation;
    OscMessageView {
        addr: "/VMC/Ext/Bone/Pos"@,
        args: seq![
            OscArgView::Str(name),
            OscArgView::Float(p.x),
            OscArgView::Float(p.y),
            OscArgView::Float(p.z),
            OscArgView::Float(q.x),
            OscArgView::Float(q.y),
            OscArgView::Float(spec_negate(q.z)),
            OscArgView::Float(spec_negate(q.w)),
        ],
    }
}

/// The transforms of the bones on the first `n` rows of the hierarchy
/// table, in table order. A bone without a name in the receiver's rig has
/// none.
pub open spec fn spec_bone_messages(bones: Seq<Bone>, n: nat) -> Seq<OscMessageView>
    decreases n,
{
    if n == 0 {
        Seq::empty()
    } else {
        let earlier = spec_bone_messages(bones, (n - 1) as nat);
        let location = BoneLocation::spec_table_row(n - 1);
        match location.spec_unity_name() {
            Some(name) => earlier.push(
                spec_bone_message(bones, name, bones[location.spec_ordinal() as int]),
            ),
            None => earlier,
        }
    }
}

/// The bundle of one tick: the opening message, then the transform of
/// every named bone.
pub open spec fn spec_bundle(bones: Seq<Bone>) -> Seq<OscMessageView> {
    seq![spec_ok_message()] + spec_bone_messages(bones, BONE_COUNT as nat)
}

/// How many of the first `n` rows of the hierarchy table hold a bone with a
/// name: all but the two hinges between hip and legs, on rows 2 and 6.
pub open spec fn spec_named_rows(n: nat) -> nat {
    if n <= 2 {
        n
    } else if n <= 6 {
        (n - 1) as nat
    } else {
        (n - 2) as nat
    }
}

/// The first `n` rows make one transform for each named bone on them.
pub proof fn lemma_bone_message_count(bones: Seq<Bone>, n: nat)
    requires
        n <= BONE_COUNT,
    ensures
        spec_bone_messages(bones, n).len() == spec_named_rows(n),
    decreases n,
{
    if n > 0 {
        lemma_bone_message_count(bones, (n - 1) as nat);
    }
}

/// A bundle opens with the message that the model is loaded and holds,
/// after it, exactly twenty bone transforms: one for each of the twenty-two
/// bones but the two hinges between hip and legs.
pub proof fn lemma_bundle_shape(bones: Seq<Bone>)
    ensures
        spec_bundle(bones).len() == 21,
        spec_bundle(bones)[0] == spec_ok_message(),
        forall|i: int|
            1 <= i < 21 ==> (#[trigger] spec_bundle(bones)[i]).addr == "/VMC/Ext/Bone/Pos"@,
{
    lemma_bone_message_count(bones, BONE_COUNT as nat);
    assert forall|i: int| 1 <= i < 21 implies (#[trigger] spec_bundle(bones)[i]).addr
        == "/VMC/Ext/Bone/Pos"@ by {
        lemma_bone_message_address(bones, BONE_COUNT as nat, i - 1);
    }
}

/// Every bone transform goes to the same address.
pub proof fn lemma_bone_message_address(bones: Seq<Bone>, n: nat, i: int)
    requires
        0 <= i < spec_bone_messages(bones, n).len(),
    ensures
        spec_bone_messages(bones, n)[i].addr == "/VMC/Ext/Bone/Pos"@,
    decreases n,
{
    if n > 0 {
        let earlier = spec_bone_messages(bones, (n - 1) as nat);
        if i < earlier.len() {
            lemma_bone_message_address(bones, (n - 1) as nat, i);
        }
    }
}

pub struct VmcConnector {
    pub osc: OscConnector,
}

fn float_args(args: &mut Vec<OscArg>, x: u32, y: u32, z: u32)
    ensures
        final(args)@ == old(args)@.push(OscArg::Float(x)).push(OscArg::Float(y)).push(
            OscArg::Float(z),
        ),
{
    args.push(OscArg::Float(x));
    args.push(OscArg::Float(y));
    args.push(OscArg::Float(z));
}

/// Appends position and orientation to the arguments of a bone transform.
fn add_osc_transform_args(args: &mut Vec<OscArg>, position: Vec3, orientation: Quat)
    ensures
        final(args)@ == old(args)@ + seq![
            OscArg::Float(position.x),
            OscArg::Float(position.y),
            OscArg::Float(position.z),
            OscArg::Float(orientation.x),
            OscArg::Float(orientation.y),
            OscArg::Float(orientation.z),
            OscArg::Float(orientation.w),
        ],
{
    float_args(args, position.x, position.y, position.z);
    float_args(args, orientation.x, orientation.y, orientation.z);
    args.push(OscArg::Float(orientation.w));
    assert(args@ =~= old(args)@ + seq![
        OscArg::Float(position.x),
        OscArg::Float(position.y),
        OscArg::Float(position.z),
        OscArg::Float(orientation.x),
        OscArg::Float(orientation.y),
        OscArg::Float(orientation.z),
        OscArg::Float(orientation.w),
    ]);
}

impl VmcConnector {
    pub fn new() -> (r: VmcConnector)
        ensures
            r.osc.peer_port.is_none(),
    {
        VmcConnector { osc: OscConnector::new() }
    }

    /// The bundle of this tick, or `None` while publishing is disabled.
    pub fn update(&self, config: &VmcConfig, skeleton: &SkeletonManager) -> (r: Option<
        Vec<OscMessage>,
    >)
        requires
            skeleton.wf(),
        ensures
            r.is_some() == config.enabled,
            r.is_some() ==> spec_views(r.unwrap()@) == spec_bundle(skeleton.bones@),
            r.is_some() ==> r.unwrap()@.len() == 21,
    {
        if !config.enabled {
            return None;
        }
        let bones = &skeleton.bones;
        let mut messages: Vec<OscMessage> = Vec::new();
        let mut ok_args: Vec<OscArg> = Vec::new();
        ok_args.push(OscArg::Int(1));
        let ok = OscMessage { addr: "/VMC/Ext/OK".to_owned(), args: ok_args };
        assert(ok@.args =~= spec_ok_message().args);
        messages.push(ok);
        let mut i: usize = 0;
        while i < BONE_COUNT
            invariant
                i <= BONE_COUNT,
                skeleton.wf(),
                bones == &skeleton.bones,
                spec_views(messages@) == seq![spec_ok_message()] + spec_bone_messages(
                    bones@,
                    i as nat,
                ),
            decreases BONE_COUNT - i,
        {
            let location = BoneLocation::table_row(i);
            let ghost before = spec_views(messages@);
            if let Some(name) = location.as_unity_name() {
                let bone = &bones[location.ordinal()];
                let ghost name_text = name@;
                let mut args: Vec<OscArg> = Vec::new();
                args.push(OscArg::Str(name));
                // Flip parts of the quaternion to the handedness of the receiver.
                let q = bone.local_orientation;
                let orientation = Quat::from_xyzw(q.x, q.y, negate(q.z), negate(q.w));
                add_osc_transform_args(&mut args, bone.get_head_offset(bones), orientation);
                let message = OscMessage { addr: "/VMC/Ext/Bone/Pos".to_owned(), args };
                assert(message@.args =~= spec_bone_message(bones@, name_text, *bone).args);
                messages.push(message);
                assert(spec_views(messages@) =~= before.push(
                    spec_bone_message(bones@, name_text, *bone),
                ));
            }
            assert(spec_views(messages@) =~= seq![spec_ok_message()] + spec_bone_messages(
                bones@,
                (i + 1) as nat,
            ));
            i += 1;
        }
        proof {
            lemma_bundle_shape(bones@);
            assert(spec_views(messages@).len() == messages@.len());
        }
        Some(messages)
    }

    /// Whether applying `config` calls for the socket to be connected to
    /// its send port.
    pub fn apply_config(&self, config: &VmcConfig) -> (r: bool)
        ensures
            r == (config.enabled && self.osc.peer_port != Some(config.send_port)),
    {
        self.osc.needs_connect(config.enabled, config.send_port)
    }
}

} // verus!
