//! One device session: the state the server keeps per network peer.
//!
//! A session refers to its trackers by id. Whether a tracker still exists is
//! for the registry to say; a tracker that was taken out of the registry
//! counts as removed and is never created again by its session.

use vstd::prelude::*;
use crate::address::PeerAddress;
use crate::id_map::{spec_contains, spec_position};
use crate::registry::TrackerRegistry;
use crate::text::{spec_tracker_id, tracker_id};
use crate::tracker::{Tracker, TrackerData, TrackerInfo, TrackerInternal, TrackerStatus};
use crate::udp::packet::{
    UdpPacketBatteryLevel,
    UdpPacketPingPong,
    UdpPacketTrackerStatus,
    UdpTrackerData,
};

verus! {

/// A device that was not heard for longer than this is timed out.
pub const TIMEOUT_NANOS: u64 = 2_000_000_000;

pub const NANOS_PER_MILLI: u64 = 1_000_000;

/// Nanoseconds from `since` to `now`; zero if `now` lies before `since`.
pub open spec fn spec_elapsed(now: u64, since: u64) -> u64 {
    if now >= since {
        (now - since) as u64
    } else {
        0
    }
}

/// Nanoseconds from `since` to `now`; zero if `now` lies before `since`.
pub fn elapsed(now: u64, since: u64) -> (r: u64)
    ensures
        r == spec_elapsed(now, since),
{
    if now >= since {
        now - since
    } else {
        0
    }
}

/// The latency that a pong at `now` shows for a ping sent at `start`: half
/// the round trip in whole milliseconds, cut to 32 bits.
pub open spec fn spec_latency_ms(now: u64, start: u64) -> u32 {
    ((spec_elapsed(now, start) / 2 / NANOS_PER_MILLI) % 0x1_0000_0000) as u32
}

/// What one change does to one tracker.
pub enum TrackerChange {
    /// The outcome of a timeout check on the device.
    TimedOut(bool),
    /// A measured latency in milliseconds.
    Latency(u32),
    /// A reported charge, as binary32 bits.
    Battery(u32),
}

impl TrackerChange {
    /// The tracker after the change. A latency or a charge counts as an
    /// update even if the value stays.
    pub open spec fn spec_apply(self, tracker: Tracker) -> Tracker {
        match self {
            TrackerChange::TimedOut(timed_out) => tracker.spec_set_timed_out(timed_out),
            TrackerChange::Latency(ms) => Tracker {
                info: TrackerInfo { latency_ms: Some(ms), ..tracker.info },
                internal: TrackerInternal { was_updated: true, ..tracker.internal },
                ..tracker
            },
            TrackerChange::Battery(level) => Tracker {
                info: TrackerInfo { battery_level: level, ..tracker.info },
                internal: TrackerInternal { was_updated: true, ..tracker.internal },
                ..tracker
            },
        }
    }

    fn apply(&self, tracker: &mut Tracker)
        ensures
            *final(tracker) == self.spec_apply(*old(tracker)),
    {
        match self {
            TrackerChange::TimedOut(timed_out) => {
                tracker.set_timed_out(*timed_out);
            },
            TrackerChange::Latency(ms) => {
                tracker.update_info().latency_ms = Some(*ms);
            },
            TrackerChange::Battery(level) => {
                tracker.update_info().battery_level = *level;
            },
        }
    }
}

/// Whether some slot holds `id`.
pub open spec fn spec_slots_own(slots: Seq<Option<Seq<char>>>, id: Seq<char>) -> bool {
    exists|i: int| 0 <= i < slots.len() && #[trigger] slots[i] == Some(id)
}

/// `entries` with `change` applied to every tracker whose id a slot holds.
pub open spec fn spec_change_owned(
    entries: Seq<(Seq<char>, Tracker)>,
    slots: Seq<Option<Seq<char>>>,
    change: TrackerChange,
) -> Seq<(Seq<char>, Tracker)> {
    Seq::new(
        entries.len(),
        |k: int|
            if spec_slots_own(slots, entries[k].0) {
                (entries[k].0, change.spec_apply(entries[k].1))
            } else {
                entries[k]
            },
    )
}

/// The tracker after a status packet: its data reset, the reported status
/// and the address of the device taken over.
pub open spec fn spec_after_status(
    tracker: Tracker,
    status: TrackerStatus,
    address: PeerAddress,
) -> Tracker {
    Tracker {
        info: TrackerInfo { status, address: Some(address), ..tracker.info },
        data: TrackerData::spec_default(),
        internal: TrackerInternal { was_updated: true, ..tracker.internal },
    }
}

/// `entries` with `change` applied to the tracker with `id`, if there is one.
pub open spec fn spec_status_applied(
    entries: Seq<(Seq<char>, Tracker)>,
    id: Seq<char>,
    status: TrackerStatus,
    address: PeerAddress,
) -> Seq<(Seq<char>, Tracker)> {
    Seq::new(
        entries.len(),
        |k: int|
            if entries[k].0 == id {
                (id, spec_after_status(entries[k].1, status, address))
            } else {
                entries[k]
            },
    )
}

/// Whether the slots hold at least one id and every tracker they hold is
/// gone from `entries` or marked for removal.
pub open spec fn spec_all_removed(
    slots: Seq<Option<Seq<char>>>,
    entries: Seq<(Seq<char>, Tracker)>,
) -> bool {
    &&& exists|i: int| 0 <= i < slots.len() && (#[trigger] slots[i]).is_some()
    &&& forall|k: int|
        0 <= k < entries.len() && spec_slots_own(slots, (#[trigger] entries[k]).0)
            ==> entries[k].1.info.to_be_removed
}

/// The registry position of the tracker that a sample for local index
/// `index` is for, if the slots hold an id there and the registry holds a
/// tracker under it.
pub open spec fn spec_sample_target(
    slots: Seq<Option<Seq<char>>>,
    entries: Seq<(Seq<char>, Tracker)>,
    index: u8,
) -> Option<usize> {
    if index < slots.len() {
        match slots[index as int] {
            Some(id) => match spec_position(entries, id) {
                Some(k) => Some(k as usize),
                None => None,
            },
            None => None,
        }
    } else {
        None
    }
}

pub struct UdpDevice {
    /// When the last packet arrived, in nanoseconds.
    pub last_packet_received_time: u64,
    /// The highest packet number accepted since the last handshake.
    pub last_packet_number: u32,
    /// The id of the tracker at each local index seen so far.
    pub global_trackers: Vec<Option<String>>,
    pub mac: [u8; 6],
    pub address: PeerAddress,
    /// When the ping in flight was sent, if one is.
    pub current_ping_start_time: Option<u64>,
    pub current_ping_id: u8,
}

impl UdpDevice {
    /// The id held at each local index.
    pub open spec fn spec_slots(self) -> Seq<Option<Seq<char>>> {
        Seq::new(
            self.global_trackers@.len(),
            |i: int|
                match self.global_trackers@[i] {
                    Some(id) => Some(id@),
                    None => None,
                },
        )
    }

    /// Holds of every session: a tracker at local index `i` has the id
    /// `<mac>/<i>`, there are at most 256 slots, and the last slot is in use.
    pub open spec fn wf(self) -> bool {
        &&& self.global_trackers@.len() <= 256
        &&& forall|i: int|
            0 <= i < self.global_trackers@.len() ==> (#[trigger] self.spec_slots()[i] matches Some(
                id,
            ) ==> id == spec_tracker_id(self.mac@, i as u8))
        &&& self.global_trackers@.len() > 0 ==> self.spec_slots().last().is_some()
    }

    /// Whether the session owns the tracker with `id`.
    pub open spec fn spec_owns(self, id: Seq<char>) -> bool {
        spec_slots_own(self.spec_slots(), id)
    }

    /// A session for a device that just shook hands.
    pub fn new(address: PeerAddress, mac: [u8; 6], now: u64) -> (r: UdpDevice)
        ensures
            r.wf(),
            r.spec_is_new(address, mac@, now),
    {
        UdpDevice {
            global_trackers: Vec::new(),
            address,
            mac,
            last_packet_received_time: now,
            last_packet_number: 0,
            current_ping_id: 0,
            current_ping_start_time: None,
        }
    }

    /// Whether `self` is a session as a handshake from `mac` at `address`
    /// starts it: nothing received yet but the handshake, no tracker, no
    /// ping sent.
    pub open spec fn spec_is_new(self, address: PeerAddress, mac: Seq<u8>, now: u64) -> bool {
        &&& self.last_packet_received_time == now
        &&& self.last_packet_number == 0
        &&& self.global_trackers@.len() == 0
        &&& self.mac@ == mac
        &&& self.address == address
        &&& self.current_ping_start_time.is_none()
        &&& self.current_ping_id == 0
    }

    /// The session after a packet with `packet_number` arrived at `now`,
    /// whether the packet is then let through or not.
    pub open spec fn spec_heard(self, now: u64, packet_number: u32) -> UdpDevice {
        UdpDevice {
            last_packet_received_time: now,
            last_packet_number: UdpDevice::spec_last_after(self.last_packet_number, packet_number),
            ..self
        }
    }

    /// The session after a handshake from `address`: the address taken
    /// over, the packet numbers and the pings started again. The trackers
    /// stay.
    pub open spec fn spec_reconnected(self, address: PeerAddress) -> UdpDevice {
        UdpDevice {
            last_packet_number: 0,
            address,
            current_ping_start_time: None,
            current_ping_id: 0,
            ..self
        }
    }

    /// Takes a handshake of the device, sent from `address`. A ping that
    /// was never answered no longer keeps the next one from being sent.
    pub fn on_handshake(&mut self, address: PeerAddress)
        ensures
            *final(self) == old(self).spec_reconnected(address),
    {
        self.last_packet_number = 0;
        self.address = address;
        self.current_ping_start_time = None;
        self.current_ping_id = 0;
    }

    /// Whether a packet with `packet_number` is let through after one with
    /// `last`: zero always is, any other number only if it is higher.
    pub open spec fn spec_accepts(last: u32, packet_number: u32) -> bool {
        packet_number == 0 || packet_number > last
    }

    /// The highest packet number accepted once `packet_number` was seen.
    pub open spec fn spec_last_after(last: u32, packet_number: u32) -> u32 {
        if packet_number > last {
            packet_number
        } else {
            last
        }
    }

    /// Decides whether a packet is let through, and remembers its number if
    /// it is the highest so far.
    pub fn check_latest_packet_number(&mut self, packet_number: u32) -> (r: bool)
        ensures
            r == UdpDevice::spec_accepts(old(self).last_packet_number, packet_number),
            *final(self) == (UdpDevice {
                last_packet_number: UdpDevice::spec_last_after(
                    old(self).last_packet_number,
                    packet_number,
                ),
                ..*old(self)
            }),
            r && packet_number != 0 ==> packet_number > old(self).last_packet_number,
            r && packet_number != 0 ==> final(self).last_packet_number == packet_number,
    {
        // Pass through packet number 0, which handshakes carry.
        if packet_number == 0 {
            return true;
        }
        if packet_number <= self.last_packet_number {
            false
        } else {
            self.last_packet_number = packet_number;
            true
        }
    }

    pub open spec fn spec_is_timed_out(self, now: u64) -> bool {
        spec_elapsed(now, self.last_packet_received_time) > TIMEOUT_NANOS
    }

    /// Whether the device was silent for more than two seconds.
    pub fn is_timed_out(&self, now: u64) -> (r: bool)
        ensures
            r == self.spec_is_timed_out(now),
    {
        elapsed(now, self.last_packet_received_time) > TIMEOUT_NANOS
    }

    /// Whether the session owns the tracker with `id`.
    pub fn owns(&self, id: &String) -> (r: bool)
        ensures
            r == self.spec_owns(id@),
    {
        let mut i: usize = 0;
        while i < self.global_trackers.len()
            invariant
                i <= self.global_trackers@.len(),
                forall|j: int| 0 <= j < i ==> #[trigger] self.spec_slots()[j] != Some(id@),
            decreases self.global_trackers@.len() - i,
        {
            let held = match &self.global_trackers[i] {
                Some(slot_id) => *slot_id == *id,
                None => false,
            };
            if held {
                assert(self.spec_slots()[i as int] == Some(id@));
                return true;
            }
            i += 1;
        }
        false
    }

    /// Applies `change` to every tracker of the session that the registry
    /// still holds.
    fn change_owned(&self, registry: &mut TrackerRegistry, change: TrackerChange)
        requires
            old(registry).wf(),
        ensures
            final(registry).wf(),
            final(registry)@ == spec_change_owned(old(registry)@, self.spec_slots(), change),
    {
        let ghost before = registry@;
        let ghost slots = self.spec_slots();
        let n = registry.len();
        let mut k: usize = 0;
        while k < n
            invariant
                k <= n,
                n == before.len(),
                slots == self.spec_slots(),
                registry.wf(),
                registry@.len() == before.len(),
                forall|j: int|
                    0 <= j < k ==> #[trigger] registry@[j] == spec_change_owned(
                        before,
                        slots,
                        change,
                    )[j],
                forall|j: int| k <= j < before.len() ==> #[trigger] registry@[j] == before[j],
            decreases n - k,
        {
            if self.owns(registry.id_at(k)) {
                let tracker = registry.value_at_mut(k);
                change.apply(tracker);
            }
            k += 1;
        }
        assert(registry@ =~= spec_change_owned(before, slots, change));
    }

    /// Passes the outcome of a timeout check on to the trackers of the
    /// session: `Okay` becomes `TimedOut` while the device is silent and
    /// `Okay` again when it is heard; `Error` and `Off` stay.
    pub fn update_timed_out(&self, registry: &mut TrackerRegistry, timed_out: bool)
        requires
            old(registry).wf(),
        ensures
            final(registry).wf(),
            final(registry)@ == spec_change_owned(
                old(registry)@,
                self.spec_slots(),
                TrackerChange::TimedOut(timed_out),
            ),
    {
        self.change_owned(registry, TrackerChange::TimedOut(timed_out));
    }

    /// The ping id that follows `id`; after 255 comes 0.
    pub open spec fn spec_next_ping_id(id: u8) -> u8 {
        if id == 255 {
            0
        } else {
            (id + 1) as u8
        }
    }

    /// Starts a ping if none is in flight: takes the next ping id, notes
    /// `now` as its send time and returns the ping to send. While a ping is
    /// in flight nothing changes and nothing is to be sent.
    pub fn check_get_ping_packet(&mut self, now: u64) -> (r: Option<UdpPacketPingPong>)
        ensures
            old(self).current_ping_start_time.is_none() ==> {
                &&& r == Some(
                    UdpPacketPingPong {
                        id: UdpDevice::spec_next_ping_id(old(self).current_ping_id),
                    },
                )
                &&& *final(self) == (UdpDevice {
                    current_ping_start_time: Some(now),
                    current_ping_id: UdpDevice::spec_next_ping_id(old(self).current_ping_id),
                    ..*old(self)
                })
            },
            old(self).current_ping_start_time.is_some() ==> r.is_none(),
            old(self).current_ping_start_time.is_some() ==> *final(self) == *old(self),
    {
        if self.current_ping_start_time.is_none() {
            self.current_ping_start_time = Some(now);
            self.current_ping_id = self.current_ping_id.wrapping_add(1);
            Some(UdpPacketPingPong::new(self.current_ping_id))
        } else {
            None
        }
    }

    /// Whether a pong with `id` answers the ping in flight.
    pub open spec fn spec_pong_matches(self, id: u8) -> bool {
        id == self.current_ping_id && self.current_ping_start_time.is_some()
    }

    /// Takes a pong. One that answers the ping in flight ends it and gives
    /// every tracker of the session the latency it shows; any other changes
    /// nothing, except that a pong with the current id always leaves no ping
    /// in flight.
    pub fn handle_pong(&mut self, registry: &mut TrackerRegistry, packet: UdpPacketPingPong, now: u64)
        requires
            old(registry).wf(),
        ensures
            final(registry).wf(),
            *final(self) == (UdpDevice {
                current_ping_start_time: if packet.id == old(self).current_ping_id {
                    None
                } else {
                    old(self).current_ping_start_time
                },
                ..*old(self)
            }),
            final(registry)@ == if old(self).spec_pong_matches(packet.id) {
                spec_change_owned(
                    old(registry)@,
                    old(self).spec_slots(),
                    TrackerChange::Latency(
                        spec_latency_ms(now, old(self).current_ping_start_time.unwrap()),
                    ),
                )
            } else {
                old(registry)@
            },
    {
        if packet.id != self.current_ping_id {
            return ;
        }
        let started = self.current_ping_start_time;
        self.current_ping_start_time = None;
        if let Some(start_time) = started {
            let half = elapsed(now, start_time) / 2;
            let latency = ((half / NANOS_PER_MILLI) % 0x1_0000_0000) as u32;
            self.change_owned(registry, TrackerChange::Latency(latency));
        }
    }

    /// The registry position of the tracker that a sample is for, if the
    /// session has a tracker at the sample's index and the registry still
    /// holds it. A sample never creates a tracker.
    pub fn update_tracker_data(&self, registry: &TrackerRegistry, data: &UdpTrackerData) -> (r:
        Option<usize>)
        requires
            registry.wf(),
        ensures
            r == spec_sample_target(self.spec_slots(), registry@, data.tracker_index),
            r.is_some() ==> r.unwrap() < registry@.len(),
    {
        let index = data.tracker_index as usize;
        if index >= self.global_trackers.len() {
            return None;
        }
        match &self.global_trackers[index] {
            Some(id) => {
                assert(self.spec_slots()[index as int] == Some(id@));
                registry.index_of(id)
            },
            None => {
                assert(self.spec_slots()[index as int].is_none());
                None
            },
        }
    }

    /// The slots once the tracker at `index` has its id: grown with empty
    /// slots up to `index` if need be.
    pub open spec fn spec_slots_with(self, index: u8) -> Seq<Option<Seq<char>>> {
        let slots = self.spec_slots();
        let id = spec_tracker_id(self.mac@, index);
        Seq::new(
            if index < slots.len() {
                slots.len()
            } else {
                (index + 1) as nat
            },
            |i: int|
                if i == index {
                    Some(id)
                } else if i < slots.len() {
                    slots[i]
                } else {
                    None
                },
        )
    }

    /// Whether a tracker was seen at `index` before.
    pub open spec fn spec_has_slot(self, index: u8) -> bool {
        index < self.spec_slots().len() && self.spec_slots()[index as int].is_some()
    }

    /// Takes a status packet. A tracker index not seen before gets the id
    /// `<mac>/<index>` and, unless the registry holds that id already, a new
    /// tracker. Then the tracker, if the registry holds it, has its data
    /// reset and takes over the reported status and the device's address.
    pub fn update_tracker_status(
        &mut self,
        registry: &mut TrackerRegistry,
        packet: UdpPacketTrackerStatus,
        now: u64,
    )
        requires
            old(self).wf(),
            old(registry).wf(),
        ensures
            final(self).wf(),
            final(registry).wf(),
            final(self).spec_slots() == if old(self).spec_has_slot(packet.tracker_index) {
                old(self).spec_slots()
            } else {
                old(self).spec_slots_with(packet.tracker_index)
            },
            final(self).last_packet_received_time == old(self).last_packet_received_time,
            final(self).last_packet_number == old(self).last_packet_number,
            final(self).mac == old(self).mac,
            final(self).address == old(self).address,
            final(self).current_ping_start_time == old(self).current_ping_start_time,
            final(self).current_ping_id == old(self).current_ping_id,
            final(registry)@ == spec_status_applied(
                if old(self).spec_has_slot(packet.tracker_index) || spec_contains(
                    old(registry)@,
                    spec_tracker_id(old(self).mac@, packet.tracker_index),
                ) {
                    old(registry)@
                } else {
                    old(registry)@.push(
                        (
                            spec_tracker_id(old(self).mac@, packet.tracker_index),
                            Tracker::spec_new(now),
                        ),
                    )
                },
                spec_tracker_id(old(self).mac@, packet.tracker_index),
                packet.tracker_status,
                old(self).address,
            ),
    {
        let index = packet.tracker_index as usize;
        let ghost id_text = spec_tracker_id(self.mac@, packet.tracker_index);
        let seen = index < self.global_trackers.len() && self.global_trackers[index].is_some();
        assert(seen == old(self).spec_has_slot(packet.tracker_index));
        if !seen {
            self.add_global_tracker(packet.tracker_index, registry, now);
        }
        let ghost base = registry@;
        assert(self.spec_slots()[index as int] == Some(id_text));
        let address = self.address;
        let found = match &self.global_trackers[index] {
            Some(id) => registry.index_of(id),
            None => None,
        };
        if let Some(k) = found {
            let tracker = registry.value_at_mut(k);
            tracker.reset_data();
            tracker.update_info().status = packet.tracker_status;
            tracker.update_info().address = Some(address);
        }
        assert(registry@ =~= spec_status_applied(
            base,
            id_text,
            packet.tracker_status,
            old(self).address,
        ));
    }

    /// Gives the tracker at `local_index` its id and makes sure the registry
    /// holds a tracker under it.
    fn add_global_tracker(&mut self, local_index: u8, registry: &mut TrackerRegistry, now: u64)
        requires
            old(self).wf(),
            old(registry).wf(),
            !old(self).spec_has_slot(local_index),
        ensures
            final(self).wf(),
            final(registry).wf(),
            final(self).spec_slots() == old(self).spec_slots_with(local_index),
            *final(self) == (UdpDevice {
                global_trackers: final(self).global_trackers,
                ..*old(self)
            }),
            final(registry)@ == if spec_contains(
                old(registry)@,
                spec_tracker_id(old(self).mac@, local_index),
            ) {
                old(registry)@
            } else {
                old(registry)@.push(
                    (spec_tracker_id(old(self).mac@, local_index), Tracker::spec_new(now)),
                )
            },
    {
        let index = local_index as usize;
        while self.global_trackers.len() <= index
            invariant
                index == local_index,
                old(self).spec_slots().len() <= self.global_trackers@.len() <= 256,
                self.global_trackers@.len() <= index + 1 || self.global_trackers@.len() == old(
                    self,
                ).global_trackers@.len(),
                *self == (UdpDevice { global_trackers: self.global_trackers, ..*old(self) }),
                forall|i: int|
                    0 <= i < old(self).global_trackers@.len() ==> #[trigger] self.global_trackers@[i]
                        == old(self).global_trackers@[i],
                forall|i: int|
                    old(self).global_trackers@.len() <= i < self.global_trackers@.len()
                        ==> (#[trigger] self.global_trackers@[i]).is_none(),
            decreases index + 1 - self.global_trackers@.len(),
        {
            self.global_trackers.push(None);
        }
        // Register the tracker and note its id at the local index.
        let id = tracker_id(&self.mac, local_index);
        let _ = registry.add(&id, now);
        self.global_trackers[index] = Some(id);
        assert(self.spec_slots() =~= old(self).spec_slots_with(local_index));
    }

    /// Passes a reported charge on to every tracker of the session.
    pub fn update_battery_level(&self, registry: &mut TrackerRegistry, packet: UdpPacketBatteryLevel)
        requires
            old(registry).wf(),
        ensures
            final(registry).wf(),
            final(registry)@ == spec_change_owned(
                old(registry)@,
                self.spec_slots(),
                TrackerChange::Battery(packet.battery_level),
            ),
    {
        self.change_owned(registry, TrackerChange::Battery(packet.battery_level));
    }

    /// Whether the session has trackers and all of them are gone: taken out
    /// of the registry or marked for removal.
    pub fn all_trackers_removed(&self, registry: &TrackerRegistry) -> (r: bool)
        requires
            registry.wf(),
        ensures
            r == spec_all_removed(self.spec_slots(), registry@),
    {
        let mut count: usize = 0;
        let mut i: usize = 0;
        while i < self.global_trackers.len()
            invariant
                i <= self.global_trackers@.len(),
                registry.wf(),
                count <= i,
                count > 0 <==> exists|j: int| 0 <= j < i && (#[trigger] self.spec_slots()[j]).is_some(),
                forall|j: int, k: int|
                    0 <= j < i && 0 <= k < registry@.len() && #[trigger] self.spec_slots()[j]
                        == Some((#[trigger] registry@[k]).0) ==> registry@[k].1.info.to_be_removed,
            decreases self.global_trackers@.len() - i,
        {
            match &self.global_trackers[i] {
                Some(id) => {
                    assert(self.spec_slots()[i as int] == Some(id@));
                    count += 1;
                    match registry.index_of(id) {
                        Some(k) => {
                            if !registry.value_at(k).info().to_be_removed {
                                assert(spec_slots_own(self.spec_slots(), registry@[k as int].0));
                                return false;
                            }
                            assert forall|j: int, k2: int|
                                0 <= j < i + 1 && 0 <= k2 < registry@.len()
                                    && #[trigger] self.spec_slots()[j] == Some(
                                    (#[trigger] registry@[k2]).0,
                                ) implies registry@[k2].1.info.to_be_removed by {
                                if j == i {
                                    assert(registry@[k2].0 == registry@[k as int].0);
                                    assert(k2 == k);
                                }
                            }
                        },
                        None => {},
                    }
                },
                None => {
                    assert(self.spec_slots()[i as int].is_none());
                },
            }
            i += 1;
        }
        count != 0
    }
}

/// The highest packet number accepted once the packets with `numbers` were
/// seen in turn, starting from `last`.
pub open spec fn spec_last_after_run(last: u32, numbers: Seq<u32>) -> u32
    decreases numbers.len(),
{
    if numbers.len() == 0 {
        last
    } else {
        UdpDevice::spec_last_after(
            spec_last_after_run(last, numbers.drop_last()),
            numbers.last(),
        )
    }
}

/// Whether the packet at position `j` of a run is let through.
pub open spec fn spec_accepted_in_run(last: u32, numbers: Seq<u32>, j: int) -> bool
    recommends
        0 <= j < numbers.len(),
{
    UdpDevice::spec_accepts(spec_last_after_run(last, numbers.take(j)), numbers[j])
}

/// The highest number accepted never falls, and it is at least every number
/// seen.
pub proof fn lemma_last_after_run_bounds(last: u32, numbers: Seq<u32>, i: int)
    requires
        0 <= i < numbers.len(),
    ensures
        spec_last_after_run(last, numbers) >= numbers[i],
        spec_last_after_run(last, numbers) >= last,
    decreases numbers.len(),
{
    if numbers.len() > 1 {
        if i < numbers.len() - 1 {
            lemma_last_after_run_bounds(last, numbers.drop_last(), i);
        } else {
            lemma_last_after_run_bounds(last, numbers.drop_last(), 0);
        }
    } else {
        assert(spec_last_after_run(last, numbers.drop_last()) == last);
    }
}

/// Between two handshakes a session lets packets through in strictly rising
/// order of their numbers: of two accepted packets, neither with the number
/// zero that handshakes carry, the later has the higher number.
pub proof fn lemma_accepted_numbers_rise(last: u32, numbers: Seq<u32>, i: int, j: int)
    requires
        0 <= i < j < numbers.len(),
        numbers[i] != 0,
        numbers[j] != 0,
        spec_accepted_in_run(last, numbers, i),
        spec_accepted_in_run(last, numbers, j),
    ensures
        numbers[j] > numbers[i],
{
    let before_j = numbers.take(j);
    assert(before_j[i] == numbers[i]);
    lemma_last_after_run_bounds(last, before_j, i);
}

/// Once the highest packet number there is was accepted, every packet is
/// turned away but those with the number zero, which are let through
/// whatever came before and leave the highest number as it is.
pub proof fn lemma_packet_numbers_exhausted(packet_number: u32)
    ensures
        UdpDevice::spec_accepts(u32::MAX, packet_number) == (packet_number == 0),
        UdpDevice::spec_last_after(u32::MAX, packet_number) == u32::MAX,
{
}

} // verus!
