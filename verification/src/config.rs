//! Everything the user can configure.

use vstd::prelude::*;
use crate::id_map::IdMap;
use crate::osc::vmc_connector::VmcConfig;
use crate::osc::vrchat_connector::{spec_default_bones_to_send, VrChatConfig};
use crate::skeleton::skeleton_config::{spec_default_offsets, SkeletonConfig, DEFAULT_USER_HEIGHT};
use crate::tracker::TrackerConfig;

verus! {

#[derive(Debug, Clone, Copy, PartialEq, Eq, Structural)]
pub struct InterfaceConfig {
    pub hide_in_system_tray: bool,
}

impl Default for InterfaceConfig {
    fn default() -> (r: InterfaceConfig)
        ensures
            !r.hide_in_system_tray,
    {
        InterfaceConfig { hide_in_system_tray: false }
    }
}

pub struct GlobalConfig {
    /// What the user chose for each tracker, by tracker id.
    pub trackers: IdMap<TrackerConfig>,
    pub vmc: VmcConfig,
    pub vrchat: VrChatConfig,
    pub skeleton: SkeletonConfig,
    pub interface: InterfaceConfig,
}

impl GlobalConfig {
    /// Holds of every configuration: no tracker id occurs twice.
    pub open spec fn wf(self) -> bool {
        self.trackers.wf()
    }
}

impl Default for GlobalConfig {
    fn default() -> (r: GlobalConfig)
        ensures
            r.wf(),
            r.trackers@.len() == 0,
            r.vmc == (VmcConfig { enabled: false, send_port: 39539, receive_port: 39540 }),
            !r.vrchat.enabled,
            r.vrchat.send_port == 9000,
            r.vrchat.bones_to_send@ == spec_default_bones_to_send(),
            r.skeleton.offsets@ == spec_default_offsets(),
            r.skeleton.user_height == DEFAULT_USER_HEIGHT,
            !r.interface.hide_in_system_tray,
    {
        GlobalConfig {
            trackers: IdMap::new(),
            vmc: VmcConfig::default(),
            vrchat: VrChatConfig::default(),
            skeleton: SkeletonConfig::default(),
            interface: InterfaceConfig::default(),
        }
    }
}

} // verus!
