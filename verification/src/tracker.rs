//! One tracker: what it reports, what is derived from that, and the
//! bookkeeping around it.

use vstd::prelude::*;
use crate::address::PeerAddress;
use crate::math::{Quat, Vec3, ZERO_BITS};
use crate::skeleton::bone::BoneLocation;

verus! {

#[derive(Clone, Copy, Debug, PartialEq, Eq, Structural)]
pub enum TrackerStatus {
    Okay,
    Error,
    Off,
    /// Set by the server when the owning device falls silent; never sent by
    /// a device.
    TimedOut,
}

impl TrackerStatus {
    /// The byte that stands for the status on the wire.
    pub open spec fn spec_wire_code(self) -> u8 {
        match self {
            TrackerStatus::Okay => 0,
            TrackerStatus::Error => 1,
            TrackerStatus::Off => 2,
            TrackerStatus::TimedOut => 3,
        }
    }

    /// The byte that stands for the status on the wire.
    pub fn wire_code(self) -> (r: u8)
        ensures
            r == self.spec_wire_code(),
    {
        match self {
            TrackerStatus::Okay => 0,
            TrackerStatus::Error => 1,
            TrackerStatus::Off => 2,
            TrackerStatus::TimedOut => 3,
        }
    }
}

impl Default for TrackerStatus {
    fn default() -> (r: TrackerStatus)
        ensures
            r == TrackerStatus::Off,
    {
        TrackerStatus::Off
    }
}

/// What the rest of the system is told about a tracker.
#[derive(Clone, Copy, Debug, PartialEq, Eq, Structural)]
pub struct TrackerInfo {
    pub to_be_removed: bool,
    pub status: TrackerStatus,
    /// Half the round trip of the last answered ping, in milliseconds.
    pub latency_ms: Option<u32>,
    /// Charge between 0 and 1, as binary32 bits.
    pub battery_level: u32,
    pub address: Option<PeerAddress>,
}

impl TrackerInfo {
    pub open spec fn spec_default() -> TrackerInfo {
        TrackerInfo {
            to_be_removed: false,
            status: TrackerStatus::Off,
            latency_ms: None,
            battery_level: ZERO_BITS,
            address: None,
        }
    }
}

impl Default for TrackerInfo {
    fn default() -> (r: TrackerInfo)
        ensures
            r == TrackerInfo::spec_default(),
    {
        TrackerInfo {
            to_be_removed: false,
            status: TrackerStatus::Off,
            latency_ms: None,
            battery_level: ZERO_BITS,
            address: None,
        }
    }
}

/// The latest sample of a tracker and the position integrated from it.
#[derive(Clone, Copy, Debug, PartialEq, Eq, Structural)]
pub struct TrackerData {
    pub orientation: Quat,
    pub acceleration: Vec3,
    pub position: Vec3,
}

impl TrackerData {
    pub open spec fn spec_default() -> TrackerData {
        TrackerData {
            orientation: Quat::spec_identity(),
            acceleration: Vec3::spec_zero(),
            position: Vec3::spec_zero(),
        }
    }
}

impl Default for TrackerData {
    fn default() -> (r: TrackerData)
        ensures
            r == TrackerData::spec_default(),
    {
        TrackerData {
            orientation: Quat::identity(),
            acceleration: Vec3::zero(),
            position: Vec3::zero(),
        }
    }
}

/// The fixed rotation that undoes how a tracker is strapped on. The raw
/// orientation is multiplied by it from the right.
#[derive(Clone, Copy, Debug, PartialEq, Eq, Structural)]
pub enum MountOffset {
    /// No rotation: the state of a tracker that no bone was chosen for.
    Identity,
    /// -90 degrees about X.
    LeftArm,
    /// +90 degrees about X, then 180 degrees about Z.
    RightArm,
    /// 270 degrees about Z.
    Body,
}

impl MountOffset {
    /// The mount rotation of a tracker worn at `location`.
    pub open spec fn spec_for_location(location: BoneLocation) -> MountOffset {
        match location {
            BoneLocation::LeftUpperArm | BoneLocation::LeftLowerArm | BoneLocation::LeftHand => {
                MountOffset::LeftArm
            },
            BoneLocation::RightUpperArm | BoneLocation::RightLowerArm | BoneLocation::RightHand => {
                MountOffset::RightArm
            },
            _ => MountOffset::Body,
        }
    }

    /// The mount rotation of a tracker worn at `location`.
    pub fn for_location(location: BoneLocation) -> (r: MountOffset)
        ensures
            r == MountOffset::spec_for_location(location),
    {
        match location {
            BoneLocation::LeftUpperArm | BoneLocation::LeftLowerArm | BoneLocation::LeftHand => {
                MountOffset::LeftArm
            },
            BoneLocation::RightUpperArm | BoneLocation::RightLowerArm | BoneLocation::RightHand => {
                MountOffset::RightArm
            },
            _ => MountOffset::Body,
        }
    }
}

/// State of a tracker that is not shown to clients.
#[derive(Clone, Copy, Debug, PartialEq, Eq, Structural)]
pub struct TrackerInternal {
    /// When the last sample was stored, in nanoseconds.
    pub time_data_last_updated: u64,
    pub velocity: Vec3,
    /// Set by every change to info or data; cleared at the end of a tick.
    pub was_updated: bool,
    /// Rotation captured by the last orientation reset, applied from the
    /// left to the mounted orientation.
    pub orientation_offset: Quat,
    pub mounted_orientation: Quat,
    pub mount_offset: MountOffset,
}

impl TrackerInternal {
    pub open spec fn spec_new(now: u64) -> TrackerInternal {
        TrackerInternal {
            time_data_last_updated: now,
            velocity: Vec3::spec_zero(),
            was_updated: false,
            orientation_offset: Quat::spec_identity(),
            mounted_orientation: Quat::spec_identity(),
            mount_offset: MountOffset::Identity,
        }
    }

    pub fn new(now: u64) -> (r: TrackerInternal)
        ensures
            r == TrackerInternal::spec_new(now),
    {
        TrackerInternal {
            time_data_last_updated: now,
            velocity: Vec3::zero(),
            was_updated: false,
            orientation_offset: Quat::identity(),
            mounted_orientation: Quat::identity(),
            mount_offset: MountOffset::Identity,
        }
    }
}

/// What one sample makes of a tracker, worked out by the caller in real
/// arithmetic from the raw sample, the tracker's offsets and the time since
/// the sample before:
/// `mounted = raw * mount_offset`, `orientation = orientation_offset * mounted`,
/// `velocity += acceleration * dt`, `position += velocity * dt`.
#[derive(Clone, Copy, Debug, PartialEq, Eq, Structural)]
pub struct TrackerMotion {
    pub mounted_orientation: Quat,
    pub orientation: Quat,
    pub acceleration: Vec3,
    pub velocity: Vec3,
    pub position: Vec3,
}

#[derive(Clone, Copy, Debug, PartialEq, Eq, Structural)]
pub struct Tracker {
    pub info: TrackerInfo,
    pub data: TrackerData,
    pub internal: TrackerInternal,
}

impl Tracker {
    /// A tracker nothing is known of yet: status off, identity orientation,
    /// at rest at the origin, its clock started at `now`.
    pub open spec fn spec_new(now: u64) -> Tracker {
        Tracker {
            info: TrackerInfo::spec_default(),
            data: TrackerData::spec_default(),
            internal: TrackerInternal::spec_new(now),
        }
    }

    /// A tracker nothing is known of yet: status off, identity orientation,
    /// at rest at the origin.
    pub fn new(now: u64) -> (r: Tracker)
        ensures
            r == Tracker::spec_new(now),
    {
        Tracker {
            info: TrackerInfo::default(),
            data: TrackerData::default(),
            internal: TrackerInternal::new(now),
        }
    }

    /// Nanoseconds from the last stored sample to `now`; zero if `now` lies
    /// before it.
    pub fn elapsed_since_data(&self, now: u64) -> (r: u64)
        ensures
            r == if now >= self.internal.time_data_last_updated {
                now - self.internal.time_data_last_updated
            } else {
                0
            },
    {
        if now >= self.internal.time_data_last_updated {
            now - self.internal.time_data_last_updated
        } else {
            0
        }
    }

    /// Stores what a sample made of the tracker and stamps it with `now`.
    pub fn update_data(&mut self, motion: TrackerMotion, now: u64)
        ensures
            final(self).data == (TrackerData {
                orientation: motion.orientation,
                acceleration: motion.acceleration,
                position: motion.position,
            }),
            final(self).internal == (TrackerInternal {
                mounted_orientation: motion.mounted_orientation,
                velocity: motion.velocity,
                time_data_last_updated: now,
                was_updated: true,
                ..old(self).internal
            }),
            final(self).info == old(self).info,
    {
        self.internal.mounted_orientation = motion.mounted_orientation;
        self.data.orientation = motion.orientation;
        self.data.acceleration = motion.acceleration;
        self.internal.velocity = motion.velocity;
        self.data.position = motion.position;
        self.internal.time_data_last_updated = now;
        self.internal.was_updated = true;
    }

    /// Puts the data back to identity orientation, at rest at the origin.
    pub fn reset_data(&mut self)
        ensures
            final(self).data == TrackerData::spec_default(),
            final(self).info == old(self).info,
            final(self).internal == (TrackerInternal { was_updated: true, ..old(self).internal }),
    {
        self.data = TrackerData::default();
        self.internal.was_updated = true;
    }

    /// Captures the inverse of the current mounted orientation, so that the
    /// same pose reads as identity from now on.
    pub fn reset_orientation(&mut self)
        ensures
            final(self).internal == (TrackerInternal {
                orientation_offset: old(self).internal.mounted_orientation.spec_conjugate(),
                ..old(self).internal
            }),
            final(self).info == old(self).info,
            final(self).data == old(self).data,
    {
        self.internal.orientation_offset = self.internal.mounted_orientation.conjugate();
    }

    /// Chooses the mount rotation that belongs to `location`.
    pub fn set_mount_offset(&mut self, location: BoneLocation)
        ensures
            final(self).internal == (TrackerInternal {
                mount_offset: MountOffset::spec_for_location(location),
                ..old(self).internal
            }),
            final(self).info == old(self).info,
            final(self).data == old(self).data,
    {
        self.internal.mount_offset = MountOffset::for_location(location);
    }

    /// Hands out the info for a change and marks the tracker as updated.
    pub fn update_info(&mut self) -> (r: &mut TrackerInfo)
        ensures
            *r == old(self).info,
            final(self).info == *final(r),
            final(self).data == old(self).data,
            final(self).internal == (TrackerInternal { was_updated: true, ..old(self).internal }),
    {
        self.internal.was_updated = true;
        &mut self.info
    }

    pub fn info(&self) -> (r: &TrackerInfo)
        ensures
            *r == self.info,
    {
        &self.info
    }

    pub fn data(&self) -> (r: &TrackerData)
        ensures
            *r == self.data,
    {
        &self.data
    }

    pub fn internal(&self) -> (r: &TrackerInternal)
        ensures
            *r == self.internal,
    {
        &self.internal
    }

    /// Forgets that the tracker changed; done once per tick, after the
    /// changes were reported.
    pub fn clear_was_updated(&mut self)
        ensures
            final(self).internal == (TrackerInternal {
                was_updated: false,
                ..old(self).internal
            }),
            final(self).info == old(self).info,
            final(self).data == old(self).data,
    {
        self.internal.was_updated = false;
    }

    /// What a timeout check makes of a status: `Okay` becomes `TimedOut`
    /// while the device is silent, `TimedOut` becomes `Okay` once it is heard
    /// again, and `Error` and `Off` stay.
    pub open spec fn spec_status_after_timeout(status: TrackerStatus, timed_out: bool)
        -> TrackerStatus {
        if status == TrackerStatus::Okay || status == TrackerStatus::TimedOut {
            if timed_out {
                TrackerStatus::TimedOut
            } else {
                TrackerStatus::Okay
            }
        } else {
            status
        }
    }

    /// The tracker after a timeout check on the owning device. A status
    /// that changes, or stays `Okay` or `TimedOut`, counts as an update.
    pub open spec fn spec_set_timed_out(self, timed_out: bool) -> Tracker {
        Tracker {
            info: TrackerInfo {
                status: Tracker::spec_status_after_timeout(self.info.status, timed_out),
                ..self.info
            },
            internal: TrackerInternal {
                was_updated: self.internal.was_updated || self.info.status == TrackerStatus::Okay
                    || self.info.status == TrackerStatus::TimedOut,
                ..self.internal
            },
            ..self
        }
    }

    /// Applies the outcome of a timeout check on the owning device.
    pub fn set_timed_out(&mut self, timed_out: bool)
        ensures
            *final(self) == old(self).spec_set_timed_out(timed_out),
            final(self).info == (TrackerInfo {
                status: Tracker::spec_status_after_timeout(old(self).info.status, timed_out),
                ..old(self).info
            }),
            final(self).data == old(self).data,
            final(self).internal == (TrackerInternal {
                was_updated: old(self).internal.was_updated
                    || old(self).info.status == TrackerStatus::Okay
                    || old(self).info.status == TrackerStatus::TimedOut,
                ..old(self).internal
            }),
    {
        if self.info.status == TrackerStatus::Okay || self.info.status == TrackerStatus::TimedOut {
            self.update_info().status = if timed_out {
                TrackerStatus::TimedOut
            } else {
                TrackerStatus::Okay
            };
        }
    }
}

/// What the user chose for a tracker; kept in the configuration.
#[derive(Debug)]
pub struct TrackerConfig {
    pub name: Option<String>,
    pub location: Option<BoneLocation>,
}

impl Default for TrackerConfig {
    fn default() -> (r: TrackerConfig)
        ensures
            r.name.is_none(),
            r.location.is_none(),
    {
        TrackerConfig { name: None, location: None }
    }
}

} // verus!
