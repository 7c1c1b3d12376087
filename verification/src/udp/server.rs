//! The server side of the tracker protocol, without the socket.
//!
//! The caller owns the socket and the clock. It hands every datagram to
//! [`UdpServer::handle_datagram`] and sends the reply it gets back; it calls
//! [`UdpServer::upkeep`] when [`UdpServer::upkeep_due`] says so and sends the
//! pings it gets back.

use vstd::prelude::*;
use vstd::slice::slice_to_vec;
use crate::address::PeerAddress;
use crate::id_map::spec_contains;
use crate::registry::TrackerRegistry;
use crate::text::spec_tracker_id;
use crate::tracker::{Tracker, TrackerStatus};
use crate::udp::device::{
    spec_all_removed,
    spec_change_owned,
    spec_latency_ms,
    spec_sample_target,
    spec_status_applied,
    TrackerChange,
    UdpDevice,
};
use crate::udp::packet::{
    spec_ends_with_mark,
    spec_next_data,
    spec_parse,
    spec_server_response,
    PacketView,
    ParseError,
    UdpPacket,
    UdpPacketHandshake,
    UdpPacketPingPong,
    UdpPacketTrackerData,
    UdpTrackerData,
    PACKET_TRACKER_DATA,
    PACKET_TRACKER_STATUS,
    SAMPLE_LEN,
};

verus! {

/// The port the server listens on.
pub const UDP_PORT: u16 = 5828;

/// The multicast group the server joins: 239.255.0.123.
pub const MULTICAST_IP: u32 = 0xEFFF_007B;

/// Upkeep runs when more than this has passed since it last ran.
pub const UPKEEP_INTERVAL_NANOS: u64 = 1_000_000_000;

/// Where the session at `address` stands in `devices`, if there is one.
pub open spec fn spec_find_address(devices: Seq<UdpDevice>, address: PeerAddress) -> Option<int> {
    if exists|i: int| 0 <= i < devices.len() && (#[trigger] devices[i]).address == address {
        Some(choose|i: int| 0 <= i < devices.len() && (#[trigger] devices[i]).address == address)
    } else {
        None
    }
}

/// Where the session of the device with `mac` stands in `devices`, if there
/// is one.
pub open spec fn spec_find_mac(devices: Seq<UdpDevice>, mac: Seq<u8>) -> Option<int> {
    if exists|i: int| 0 <= i < devices.len() && (#[trigger] devices[i]).mac@ == mac {
        Some(choose|i: int| 0 <= i < devices.len() && (#[trigger] devices[i]).mac@ == mac)
    } else {
        None
    }
}

/// Whether no two sessions share an address or a hardware address.
pub open spec fn spec_distinct_devices(devices: Seq<UdpDevice>) -> bool {
    forall|i: int, j: int|
        0 <= i < devices.len() && 0 <= j < devices.len() && i != j ==> {
            &&& (#[trigger] devices[i]).address != (#[trigger] devices[j]).address
            &&& devices[i].mac@ != devices[j].mac@
        }
}

/// Among distinct sessions, the one at an address is the one found there.
pub proof fn lemma_address_found(devices: Seq<UdpDevice>, address: PeerAddress, i: int)
    requires
        spec_distinct_devices(devices),
        0 <= i < devices.len(),
        devices[i].address == address,
    ensures
        spec_find_address(devices, address) == Some(i),
{
    let c = choose|c: int| 0 <= c < devices.len() && (#[trigger] devices[c]).address == address;
    if c != i {
        assert(devices[c].address != devices[i].address);
    }
}

/// Among distinct sessions, the one of a device is the one found for it.
pub proof fn lemma_mac_found(devices: Seq<UdpDevice>, mac: Seq<u8>, i: int)
    requires
        spec_distinct_devices(devices),
        0 <= i < devices.len(),
        devices[i].mac@ == mac,
    ensures
        spec_find_mac(devices, mac) == Some(i),
{
    let c = choose|c: int| 0 <= c < devices.len() && (#[trigger] devices[c]).mac@ == mac;
    if c != i {
        assert(devices[c].mac@ != devices[i].mac@);
    }
}

/// `devices` without the session at `address`, if there is one.
pub open spec fn spec_without_address(devices: Seq<UdpDevice>, address: PeerAddress) -> Seq<
    UdpDevice,
> {
    match spec_find_address(devices, address) {
        Some(i) => devices.remove(i),
        None => devices,
    }
}

/// The sessions after a handshake from `peer` by the device whose session
/// stands at `j`: that session moves to `peer` and starts its packet numbers
/// again, and another session that was at `peer` gives way.
pub open spec fn spec_handshake_known(devices: Seq<UdpDevice>, j: int, peer: PeerAddress) -> Seq<
    UdpDevice,
> {
    let moved = devices.update(j, devices[j].spec_reconnected(peer));
    match spec_find_address(devices, peer) {
        Some(i) => if i != j {
            moved.remove(i)
        } else {
            moved
        },
        None => moved,
    }
}

/// Whether `after` are the sessions that a handshake of the device `mac`
/// from `peer` at `now` makes of `before`. A device that has a session keeps
/// it; a device that has none gets a new one at the end of the list.
pub open spec fn spec_handshake_result(
    before: Seq<UdpDevice>,
    after: Seq<UdpDevice>,
    mac: Seq<u8>,
    peer: PeerAddress,
    now: u64,
) -> bool {
    match spec_find_mac(before, mac) {
        Some(j) => after == spec_handshake_known(before, j, peer),
        None => {
            &&& after.len() == spec_without_address(before, peer).len() + 1
            &&& after.drop_last() == spec_without_address(before, peer)
            &&& after.last().spec_is_new(peer, mac, now)
        },
    }
}

/// Why a datagram was dropped, in part or as a whole.
#[derive(Clone, Copy, Debug, PartialEq, Eq, Structural)]
pub enum DropReason {
    /// The peer is on the blacklist.
    Ignored,
    /// The datagram is no packet.
    Malformed(ParseError),
    /// The packet number is not above the last one accepted.
    OutOfOrder,
    /// Only a handshake is taken from a peer without a session.
    UnknownDevice,
}

/// A sample that waits for the caller to work out, in real arithmetic, what
/// it makes of the tracker at position `tracker` of the registry.
#[derive(Clone, Copy, Debug, PartialEq, Eq, Structural)]
pub struct PendingSample {
    pub tracker: usize,
    pub data: UdpTrackerData,
}

/// What the server made of one datagram.
pub struct PacketOutcome {
    /// What to send back to the peer.
    pub reply: Option<Vec<u8>>,
    /// The samples taken from a data packet, in the order they came.
    pub samples: Vec<PendingSample>,
    /// Why the datagram was dropped. A dropped datagram changes nothing
    /// but, where it is out of order, the time its session was last heard.
    pub dropped: Option<DropReason>,
    /// What the datagram meant for the sessions, if it was a handshake.
    pub handshake: Option<HandshakeKind>,
}

/// What a handshake means for the sessions.
#[derive(Clone, Copy, Debug, PartialEq, Eq, Structural)]
pub enum HandshakeKind {
    /// A device without a session gets one.
    NewDevice,
    /// A device comes back from another address than before.
    Moved { from: PeerAddress },
    /// A device that had fallen silent comes back from its address.
    Reconnected,
    /// A device shakes hands again though it is connected.
    AlreadyConnected,
}

/// What a handshake of the device `mac` from `peer` at `now` means for
/// `devices`.
pub open spec fn spec_handshake_kind(
    devices: Seq<UdpDevice>,
    mac: Seq<u8>,
    peer: PeerAddress,
    now: u64,
) -> HandshakeKind {
    match spec_find_mac(devices, mac) {
        None => HandshakeKind::NewDevice,
        Some(j) => if devices[j].address != peer {
            HandshakeKind::Moved { from: devices[j].address }
        } else if devices[j].spec_is_timed_out(now) {
            HandshakeKind::Reconnected
        } else {
            HandshakeKind::AlreadyConnected
        },
    }
}

/// What a datagram means for the sessions, if it is a handshake.
pub open spec fn spec_outcome_handshake(
    devices: Seq<UdpDevice>,
    bytes: Seq<u8>,
    peer: PeerAddress,
    now: u64,
) -> Option<HandshakeKind> {
    match spec_parse(bytes) {
        Ok((PacketView::Handshake { mac }, packet_number)) => Some(
            spec_handshake_kind(devices, mac, peer, now),
        ),
        _ => None,
    }
}

/// The samples that a data packet with `payload` leaves pending: every
/// sample up to the end mark that is for a tracker the session has and the
/// registry holds.
pub open spec fn spec_pending(
    slots: Seq<Option<Seq<char>>>,
    entries: Seq<(Seq<char>, Tracker)>,
    payload: Seq<u8>,
) -> Seq<PendingSample>
    decreases payload.len(),
{
    match spec_next_data(payload) {
        Ok(Some(data)) => {
            let rest = spec_pending(slots, entries, payload.skip(SAMPLE_LEN as int));
            match spec_sample_target(slots, entries, data.tracker_index) {
                Some(tracker) => seq![PendingSample { tracker, data }] + rest,
                None => rest,
            }
        },
        _ => Seq::empty(),
    }
}

/// The sessions once the one at `peer`, if there is one, has noted a packet
/// with `packet_number` at `now`.
pub open spec fn spec_stamped(
    devices: Seq<UdpDevice>,
    peer: PeerAddress,
    now: u64,
    packet_number: u32,
) -> Seq<UdpDevice> {
    match spec_find_address(devices, peer) {
        Some(i) => devices.update(i, devices[i].spec_heard(now, packet_number)),
        None => devices,
    }
}

/// Whether the session at `peer` turns a packet with `packet_number` away.
pub open spec fn spec_out_of_order(
    devices: Seq<UdpDevice>,
    peer: PeerAddress,
    packet_number: u32,
) -> bool {
    match spec_find_address(devices, peer) {
        Some(i) => !UdpDevice::spec_accepts(devices[i].last_packet_number, packet_number),
        None => false,
    }
}

/// What is sent back for a datagram: the fixed answer to a handshake, the
/// echo of a status packet from a peer that has a session, nothing for
/// anything else and for what is malformed, out of order or from a peer
/// without a session.
pub open spec fn spec_reply(devices: Seq<UdpDevice>, bytes: Seq<u8>, peer: PeerAddress) -> Option<
    Seq<u8>,
> {
    match spec_parse(bytes) {
        Err(_) => None,
        Ok((packet, packet_number)) => if spec_out_of_order(devices, peer, packet_number) {
            None
        } else {
            match packet {
                PacketView::Handshake { mac } => Some(spec_server_response()),
                PacketView::TrackerStatus { tracker_index, tracker_status } => if spec_find_address(
                    devices,
                    peer,
                ).is_some() {
                    Some(
                        seq![PACKET_TRACKER_STATUS, tracker_index, tracker_status.spec_wire_code()],
                    )
                } else {
                    None
                },
                _ => None,
            }
        },
    }
}

/// Why a datagram is dropped, if it is.
pub open spec fn spec_dropped(devices: Seq<UdpDevice>, bytes: Seq<u8>, peer: PeerAddress) -> Option<
    DropReason,
> {
    match spec_parse(bytes) {
        Err(e) => Some(DropReason::Malformed(e)),
        Ok((packet, packet_number)) => if spec_out_of_order(devices, peer, packet_number) {
            Some(DropReason::OutOfOrder)
        } else {
            match packet {
                PacketView::Handshake { mac } => None,
                _ => if spec_find_address(devices, peer).is_none() {
                    Some(DropReason::UnknownDevice)
                } else {
                    None
                },
            }
        },
    }
}

/// Whether `after` is what an accepted packet makes of the session `heard`,
/// which has noted the packet already.
pub open spec fn spec_device_after(heard: UdpDevice, after: UdpDevice, packet: PacketView) -> bool {
    match packet {
        PacketView::PingPong { id } => after == (UdpDevice {
            current_ping_start_time: if id == heard.current_ping_id {
                None
            } else {
                heard.current_ping_start_time
            },
            ..heard
        }),
        PacketView::TrackerStatus { tracker_index, tracker_status } => {
            &&& after == (UdpDevice { global_trackers: after.global_trackers, ..heard })
            &&& after.spec_slots() == if heard.spec_has_slot(tracker_index) {
                heard.spec_slots()
            } else {
                heard.spec_slots_with(tracker_index)
            }
        },
        _ => after == heard,
    }
}

/// What an accepted packet makes of the registry, for the session `heard`
/// that it came to.
pub open spec fn spec_entries_after(
    heard: UdpDevice,
    entries: Seq<(Seq<char>, Tracker)>,
    packet: PacketView,
    now: u64,
) -> Seq<(Seq<char>, Tracker)> {
    match packet {
        PacketView::PingPong { id } => if heard.spec_pong_matches(id) {
            spec_change_owned(
                entries,
                heard.spec_slots(),
                TrackerChange::Latency(
                    spec_latency_ms(now, heard.current_ping_start_time.unwrap()),
                ),
            )
        } else {
            entries
        },
        PacketView::TrackerStatus { tracker_index, tracker_status } => {
            let id = spec_tracker_id(heard.mac@, tracker_index);
            spec_status_applied(
                if heard.spec_has_slot(tracker_index) || spec_contains(entries, id) {
                    entries
                } else {
                    entries.push((id, Tracker::spec_new(now)))
                },
                id,
                tracker_status,
                heard.address,
            )
        },
        PacketView::BatteryLevel { battery_level } => spec_change_owned(
            entries,
            heard.spec_slots(),
            TrackerChange::Battery(battery_level),
        ),
        _ => entries,
    }
}

/// Whether sessions, registry and pending samples after a datagram are what
/// the datagram makes of those before.
///
/// A malformed datagram changes nothing, and so does a data packet that
/// breaks off before its end mark. Any packet is noted by the session
/// at `peer`, if there is one; one that the session turns away changes no
/// more. A handshake changes the sessions alone. Any other packet needs a
/// session at `peer` and changes that session and the registry alone.
pub open spec fn spec_handled(
    devices: Seq<UdpDevice>,
    entries: Seq<(Seq<char>, Tracker)>,
    devices_after: Seq<UdpDevice>,
    entries_after: Seq<(Seq<char>, Tracker)>,
    samples: Seq<PendingSample>,
    bytes: Seq<u8>,
    peer: PeerAddress,
    now: u64,
) -> bool {
    match spec_parse(bytes) {
        Err(_) => devices_after == devices && entries_after == entries && samples.len() == 0,
        Ok((packet, packet_number)) => {
            let stamped = spec_stamped(devices, peer, now, packet_number);
            if spec_out_of_order(devices, peer, packet_number) {
                devices_after == stamped && entries_after == entries && samples.len() == 0
            } else {
                match packet {
                    PacketView::Handshake { mac } => {
                        &&& spec_handshake_result(stamped, devices_after, mac, peer, now)
                        &&& entries_after == entries
                        &&& samples.len() == 0
                    },
                    _ => match spec_find_address(devices, peer) {
                        None => devices_after == devices && entries_after == entries
                            && samples.len() == 0,
                        Some(i) => {
                            &&& devices_after.len() == devices.len()
                            &&& devices_after == stamped.update(i, devices_after[i])
                            &&& spec_device_after(stamped[i], devices_after[i], packet)
                            &&& entries_after == spec_entries_after(stamped[i], entries, packet, now)
                            &&& samples == match packet {
                                PacketView::TrackerData { payload } => spec_pending(
                                    stamped[i].spec_slots(),
                                    entries,
                                    payload,
                                ),
                                _ => Seq::empty(),
                            }
                        },
                    },
                }
            }
        },
    }
}

/// Putting a session with the same address and hardware address in the
/// place of another leaves the sessions distinct.
pub proof fn lemma_replace_keeps_distinct(devices: Seq<UdpDevice>, i: int, device: UdpDevice)
    requires
        spec_distinct_devices(devices),
        0 <= i < devices.len(),
        device.address == devices[i].address,
        device.mac@ == devices[i].mac@,
    ensures
        spec_distinct_devices(devices.update(i, device)),
{
    let after = devices.update(i, device);
    assert forall|a: int, b: int|
        0 <= a < after.len() && 0 <= b < after.len() && a != b implies {
        &&& (#[trigger] after[a]).address != (#[trigger] after[b]).address
        &&& after[a].mac@ != after[b].mac@
    } by {
        assert(devices[a].address != devices[b].address);
        assert(devices[a].mac@ != devices[b].mac@);
    }
}

/// Reads a data packet to its end and lists the samples that are for
/// trackers the session has and the registry holds.
fn take_samples(device: &UdpDevice, registry: &TrackerRegistry, packet: UdpPacketTrackerData) -> (r:
    Vec<PendingSample>)
    requires
        registry.wf(),
    ensures
        r@ == spec_pending(device.spec_slots(), registry@, packet@),
{
    let ghost slots = device.spec_slots();
    let ghost entries = registry@;
    let ghost payload = packet@;
    let mut reader = packet;
    let mut samples: Vec<PendingSample> = Vec::new();
    loop
        invariant
            registry.wf(),
            slots == device.spec_slots(),
            entries == registry@,
            payload == packet@,
            samples@ + spec_pending(slots, entries, reader@) == spec_pending(
                slots,
                entries,
                payload,
            ),
        decreases reader@.len(),
    {
        let ghost before = reader@;
        let ghost collected = samples@;
        match reader.next_data() {
            Ok(Some(data)) => {
                if let Some(tracker) = device.update_tracker_data(registry, &data) {
                    samples.push(PendingSample { tracker, data });
                }
                proof {
                    let rest = spec_pending(slots, entries, before.skip(SAMPLE_LEN as int));
                    assert(reader@ == before.skip(SAMPLE_LEN as int));
                    assert(samples@ + rest =~= collected + spec_pending(slots, entries, before));
                }
            },
            Ok(None) => {
                assert(samples@ + Seq::<PendingSample>::empty() =~= samples@);
                return samples;
            },
            Err(_) => {
                assert(samples@ + Seq::<PendingSample>::empty() =~= samples@);
                return samples;
            },
        }
    }
}

/// A ping for the caller to send.
#[derive(Clone, Copy, Debug, PartialEq, Eq, Structural)]
pub struct PingOrder {
    pub address: PeerAddress,
    pub packet: UdpPacketPingPong,
}

/// The session after upkeep offered it to start a ping at `now`.
pub open spec fn spec_pinged(device: UdpDevice, now: u64) -> UdpDevice {
    if device.current_ping_start_time.is_none() {
        UdpDevice {
            current_ping_start_time: Some(now),
            current_ping_id: UdpDevice::spec_next_ping_id(device.current_ping_id),
            ..device
        }
    } else {
        device
    }
}

/// The registry after upkeep went over the first `t` sessions: each session
/// in turn told its trackers whether it is timed out.
pub open spec fn spec_upkeep_entries(
    devices: Seq<UdpDevice>,
    entries: Seq<(Seq<char>, Tracker)>,
    now: u64,
    t: nat,
) -> Seq<(Seq<char>, Tracker)>
    decreases t,
{
    if t == 0 {
        entries
    } else {
        spec_change_owned(
            spec_upkeep_entries(devices, entries, now, (t - 1) as nat),
            devices[t - 1].spec_slots(),
            TrackerChange::TimedOut(devices[t - 1].spec_is_timed_out(now)),
        )
    }
}

/// The sessions that upkeep keeps of the first `t`: those that still have a
/// tracker or never had one, each after the offer to start a ping.
pub open spec fn spec_upkeep_devices(
    devices: Seq<UdpDevice>,
    entries: Seq<(Seq<char>, Tracker)>,
    now: u64,
    t: nat,
) -> Seq<UdpDevice>
    decreases t,
{
    if t == 0 {
        Seq::empty()
    } else {
        let earlier = spec_upkeep_devices(devices, entries, now, (t - 1) as nat);
        if spec_all_removed(devices[t - 1].spec_slots(), entries) {
            earlier
        } else {
            earlier.push(spec_pinged(devices[t - 1], now))
        }
    }
}

/// The pings that upkeep orders for the first `t` sessions: one for every
/// session without a ping in flight, with the session's next ping id.
pub open spec fn spec_upkeep_pings(devices: Seq<UdpDevice>, t: nat) -> Seq<PingOrder>
    decreases t,
{
    if t == 0 {
        Seq::empty()
    } else {
        let earlier = spec_upkeep_pings(devices, (t - 1) as nat);
        let device = devices[t - 1];
        if device.current_ping_start_time.is_none() {
            earlier.push(
                PingOrder {
                    address: device.address,
                    packet: UdpPacketPingPong {
                        id: UdpDevice::spec_next_ping_id(device.current_ping_id),
                    },
                },
            )
        } else {
            earlier
        }
    }
}

/// The blacklist after upkeep went over the first `t` sessions: the address
/// of every session it let go is on it, once.
pub open spec fn spec_upkeep_blacklist(
    devices: Seq<UdpDevice>,
    entries: Seq<(Seq<char>, Tracker)>,
    blacklist: Seq<PeerAddress>,
    t: nat,
) -> Seq<PeerAddress>
    decreases t,
{
    if t == 0 {
        blacklist
    } else {
        let earlier = spec_upkeep_blacklist(devices, entries, blacklist, (t - 1) as nat);
        let device = devices[t - 1];
        if spec_all_removed(device.spec_slots(), entries) && !earlier.contains(device.address) {
            earlier.push(device.address)
        } else {
            earlier
        }
    }
}

/// Upkeep changes no id and no order.
pub proof fn lemma_upkeep_keeps_ids(
    devices: Seq<UdpDevice>,
    entries: Seq<(Seq<char>, Tracker)>,
    now: u64,
    t: nat,
)
    ensures
        spec_upkeep_entries(devices, entries, now, t).len() == entries.len(),
        forall|k: int|
            0 <= k < entries.len() ==> (#[trigger] spec_upkeep_entries(devices, entries, now, t)[k]).0
                == entries[k].0,
    decreases t,
{
    if t > 0 {
        lemma_upkeep_keeps_ids(devices, entries, now, (t - 1) as nat);
    }
}

/// Upkeep times a tracker out only for a session that owns it and was
/// silent for more than two seconds.
pub proof fn lemma_upkeep_times_out_silent_sessions(
    devices: Seq<UdpDevice>,
    entries: Seq<(Seq<char>, Tracker)>,
    now: u64,
    t: nat,
    k: int,
)
    requires
        t <= devices.len(),
        0 <= k < entries.len(),
        entries[k].1.info.status != TrackerStatus::TimedOut,
        spec_upkeep_entries(devices, entries, now, t)[k].1.info.status == TrackerStatus::TimedOut,
    ensures
        entries[k].1.info.status == TrackerStatus::Okay,
        exists|i: int|
            0 <= i < t && (#[trigger] devices[i]).spec_owns(entries[k].0)
                && devices[i].spec_is_timed_out(now),
    decreases t,
{
    if t > 0 {
        let earlier = spec_upkeep_entries(devices, entries, now, (t - 1) as nat);
        lemma_upkeep_keeps_ids(devices, entries, now, (t - 1) as nat);
        if earlier[k].1.info.status == TrackerStatus::TimedOut {
            lemma_upkeep_times_out_silent_sessions(devices, entries, now, (t - 1) as nat, k);
            let i = choose|i: int|
                0 <= i < t - 1 && (#[trigger] devices[i]).spec_owns(entries[k].0)
                    && devices[i].spec_is_timed_out(now);
            assert(devices[i].spec_owns(entries[k].0));
        } else {
            lemma_upkeep_keeps_status_kind(devices, entries, now, (t - 1) as nat, k);
            assert(devices[t - 1].spec_owns(entries[k].0));
            assert(devices[t - 1].spec_is_timed_out(now));
        }
    }
}

/// Upkeep leaves the statuses `Error` and `Off` alone.
pub proof fn lemma_upkeep_keeps_status_kind(
    devices: Seq<UdpDevice>,
    entries: Seq<(Seq<char>, Tracker)>,
    now: u64,
    t: nat,
    k: int,
)
    requires
        0 <= k < entries.len(),
    ensures
        ({
            let before = entries[k].1.info.status;
            let after = spec_upkeep_entries(devices, entries, now, t)[k].1.info.status;
            if before == TrackerStatus::Okay || before == TrackerStatus::TimedOut {
                after == TrackerStatus::Okay || after == TrackerStatus::TimedOut
            } else {
                after == before
            }
        }),
    decreases t,
{
    if t > 0 {
        lemma_upkeep_keeps_status_kind(devices, entries, now, (t - 1) as nat, k);
        lemma_upkeep_keeps_ids(devices, entries, now, (t - 1) as nat);
    }
}

/// Whether two registries hold the same ids in the same order, with the
/// same marks for removal.
pub open spec fn spec_same_marks(
    a: Seq<(Seq<char>, Tracker)>,
    b: Seq<(Seq<char>, Tracker)>,
) -> bool {
    &&& a.len() == b.len()
    &&& forall|k: int|
        0 <= k < a.len() ==> (#[trigger] a[k]).0 == b[k].0 && a[k].1.info.to_be_removed
            == b[k].1.info.to_be_removed
}

/// Whether a session counts as removed depends on ids and marks alone.
pub proof fn lemma_all_removed_by_marks(
    slots: Seq<Option<Seq<char>>>,
    a: Seq<(Seq<char>, Tracker)>,
    b: Seq<(Seq<char>, Tracker)>,
)
    requires
        spec_same_marks(a, b),
    ensures
        spec_all_removed(slots, a) == spec_all_removed(slots, b),
{
    if spec_all_removed(slots, a) {
        assert forall|k: int|
            0 <= k < b.len() && crate::udp::device::spec_slots_own(
                slots,
                (#[trigger] b[k]).0,
            ) implies b[k].1.info.to_be_removed by {
            assert(a[k].0 == b[k].0);
        }
    }
    if spec_all_removed(slots, b) {
        assert forall|k: int|
            0 <= k < a.len() && crate::udp::device::spec_slots_own(
                slots,
                (#[trigger] a[k]).0,
            ) implies a[k].1.info.to_be_removed by {
            assert(a[k].0 == b[k].0);
            assert(crate::udp::device::spec_slots_own(slots, b[k].0));
        }
    }
}

/// No packet times a tracker out: a tracker that has the status `TimedOut`
/// after a datagram had it before. That status comes from upkeep alone.
pub proof fn lemma_packets_never_time_out(
    devices: Seq<UdpDevice>,
    entries: Seq<(Seq<char>, Tracker)>,
    devices_after: Seq<UdpDevice>,
    entries_after: Seq<(Seq<char>, Tracker)>,
    samples: Seq<PendingSample>,
    bytes: Seq<u8>,
    peer: PeerAddress,
    now: u64,
    k: int,
)
    requires
        spec_handled(devices, entries, devices_after, entries_after, samples, bytes, peer, now),
        0 <= k < entries_after.len(),
        entries_after[k].1.info.status == TrackerStatus::TimedOut,
    ensures
        k < entries.len(),
        entries[k].0 == entries_after[k].0,
        entries[k].1.info.status == TrackerStatus::TimedOut,
{
}

/// No packet takes a tracker out of the registry or gives one another id:
/// every tracker is found after a datagram where it stood before.
pub proof fn lemma_packets_remove_no_tracker(
    devices: Seq<UdpDevice>,
    entries: Seq<(Seq<char>, Tracker)>,
    devices_after: Seq<UdpDevice>,
    entries_after: Seq<(Seq<char>, Tracker)>,
    samples: Seq<PendingSample>,
    bytes: Seq<u8>,
    peer: PeerAddress,
    now: u64,
    k: int,
)
    requires
        spec_handled(devices, entries, devices_after, entries_after, samples, bytes, peer, now),
        0 <= k < entries.len(),
    ensures
        k < entries_after.len(),
        entries_after[k].0 == entries[k].0,
        entries_after[k].1.info.to_be_removed == entries[k].1.info.to_be_removed,
{
}

/// Only a handshake is taken from a peer without a session: any other
/// packet from such a peer is dropped unanswered and changes nothing.
pub proof fn lemma_unknown_peer_changes_nothing(
    devices: Seq<UdpDevice>,
    entries: Seq<(Seq<char>, Tracker)>,
    devices_after: Seq<UdpDevice>,
    entries_after: Seq<(Seq<char>, Tracker)>,
    samples: Seq<PendingSample>,
    bytes: Seq<u8>,
    peer: PeerAddress,
    now: u64,
)
    requires
        spec_handled(devices, entries, devices_after, entries_after, samples, bytes, peer, now),
        spec_find_address(devices, peer).is_none(),
        spec_parse(bytes) matches Ok((packet, n)) && !(packet is Handshake),
    ensures
        spec_reply(devices, bytes, peer).is_none(),
        spec_dropped(devices, bytes, peer) == Some(DropReason::UnknownDevice),
        spec_outcome_handshake(devices, bytes, peer, now).is_none(),
        devices_after == devices,
        entries_after == entries,
        samples.len() == 0,
{
}

/// A data packet that breaks off before its end mark is no packet: it is
/// dropped as truncated, unanswered, and leaves its session and every
/// tracker as they were, the packet number of the session included.
pub proof fn lemma_broken_data_changes_nothing(
    devices: Seq<UdpDevice>,
    entries: Seq<(Seq<char>, Tracker)>,
    devices_after: Seq<UdpDevice>,
    entries_after: Seq<(Seq<char>, Tracker)>,
    samples: Seq<PendingSample>,
    bytes: Seq<u8>,
    peer: PeerAddress,
    now: u64,
)
    requires
        spec_handled(devices, entries, devices_after, entries_after, samples, bytes, peer, now),
        bytes.len() >= 5,
        bytes[0] == PACKET_TRACKER_DATA,
        !spec_ends_with_mark(bytes.skip(5)),
    ensures
        spec_reply(devices, bytes, peer).is_none(),
        spec_dropped(devices, bytes, peer) == Some(DropReason::Malformed(ParseError::Truncated)),
        devices_after == devices,
        entries_after == entries,
        samples.len() == 0,
{
}

/// A data packet creates no tracker and changes none, whatever index its
/// samples name; the index `0xff` ends it.
pub proof fn lemma_data_creates_no_tracker(
    devices: Seq<UdpDevice>,
    entries: Seq<(Seq<char>, Tracker)>,
    devices_after: Seq<UdpDevice>,
    entries_after: Seq<(Seq<char>, Tracker)>,
    samples: Seq<PendingSample>,
    bytes: Seq<u8>,
    peer: PeerAddress,
    now: u64,
)
    requires
        spec_handled(devices, entries, devices_after, entries_after, samples, bytes, peer, now),
        spec_parse(bytes) matches Ok((PacketView::TrackerData { payload }, n)),
    ensures
        entries_after == entries,
{
}

/// A tracker that a datagram adds to the registry has the id
/// `<mac>/<index>` of the session the datagram came to, and that session
/// holds it at that index.
pub proof fn lemma_new_tracker_belongs_to_session(
    devices: Seq<UdpDevice>,
    entries: Seq<(Seq<char>, Tracker)>,
    devices_after: Seq<UdpDevice>,
    entries_after: Seq<(Seq<char>, Tracker)>,
    samples: Seq<PendingSample>,
    bytes: Seq<u8>,
    peer: PeerAddress,
    now: u64,
    k: int,
)
    requires
        spec_handled(devices, entries, devices_after, entries_after, samples, bytes, peer, now),
        entries.len() <= k < entries_after.len(),
    ensures
        spec_parse(bytes) matches Ok((PacketView::TrackerStatus { tracker_index, tracker_status }, n))
            && spec_find_address(devices, peer) matches Some(i) && {
            &&& 0 <= i < devices_after.len()
            &&& devices_after[i].mac@ == devices[i].mac@
            &&& devices_after[i].address == peer
            &&& entries_after[k].0 == spec_tracker_id(devices[i].mac@, tracker_index)
            &&& tracker_index < devices_after[i].spec_slots().len()
            &&& devices_after[i].spec_slots()[tracker_index as int] == Some(entries_after[k].0)
        },
{
}

pub struct UdpServer {
    /// The sessions, oldest first.
    pub devices: Vec<UdpDevice>,
    /// Peers whose packets are dropped unread: the devices all of whose
    /// trackers the user removed.
    pub address_blacklist: Vec<PeerAddress>,
    /// When upkeep last ran, in nanoseconds.
    pub last_upkeep_time: u64,
}

fn mac_equal(a: &[u8; 6], b: &[u8; 6]) -> (r: bool)
    ensures
        r == (a@ == b@),
{
    let mut i: usize = 0;
    while i < 6
        invariant
            i <= 6,
            forall|k: int| 0 <= k < i ==> a@[k] == b@[k],
        decreases 6 - i,
    {
        if a[i] != b[i] {
            return false;
        }
        i += 1;
    }
    assert(a@ =~= b@);
    true
}

impl UdpServer {
    /// Holds of every server: every session is well formed, and no two
    /// sessions share an address or a hardware address.
    pub open spec fn wf(self) -> bool {
        &&& forall|i: int| 0 <= i < self.devices@.len() ==> (#[trigger] self.devices@[i]).wf()
        &&& spec_distinct_devices(self.devices@)
    }

    pub fn new(now: u64) -> (r: UdpServer)
        ensures
            r.wf(),
            r.devices@.len() == 0,
            r.address_blacklist@.len() == 0,
            r.last_upkeep_time == now,
    {
        UdpServer { devices: Vec::new(), address_blacklist: Vec::new(), last_upkeep_time: now }
    }

    /// Where the session at `address` stands.
    pub fn find_device(&self, address: PeerAddress) -> (r: Option<usize>)
        requires
            self.wf(),
        ensures
            match r {
                Some(i) => i < self.devices@.len() && spec_find_address(self.devices@, address)
                    == Some(i as int) && self.devices@[i as int].address == address,
                None => spec_find_address(self.devices@, address).is_none(),
            },
    {
        let mut i: usize = 0;
        while i < self.devices.len()
            invariant
                self.wf(),
                i <= self.devices@.len(),
                forall|k: int| 0 <= k < i ==> (#[trigger] self.devices@[k]).address != address,
            decreases self.devices@.len() - i,
        {
            if self.devices[i].address == address {
                proof {
                    lemma_address_found(self.devices@, address, i as int);
                }
                return Some(i);
            }
            i += 1;
        }
        None
    }

    /// Where the session of the device with `mac` stands.
    pub fn find_mac(&self, mac: &[u8; 6]) -> (r: Option<usize>)
        requires
            self.wf(),
        ensures
            match r {
                Some(i) => i < self.devices@.len() && spec_find_mac(self.devices@, mac@) == Some(
                    i as int,
                ) && self.devices@[i as int].mac@ == mac@,
                None => spec_find_mac(self.devices@, mac@).is_none(),
            },
    {
        let mut i: usize = 0;
        while i < self.devices.len()
            invariant
                self.wf(),
                i <= self.devices@.len(),
                forall|k: int| 0 <= k < i ==> (#[trigger] self.devices@[k]).mac@ != mac@,
            decreases self.devices@.len() - i,
        {
            if mac_equal(&self.devices[i].mac, mac) {
                proof {
                    lemma_mac_found(self.devices@, mac@, i as int);
                }
                return Some(i);
            }
            i += 1;
        }
        None
    }

    /// Whether packets from `address` are dropped unread.
    pub fn is_blacklisted(&self, address: PeerAddress) -> (r: bool)
        ensures
            r == self.address_blacklist@.contains(address),
    {
        let mut i: usize = 0;
        while i < self.address_blacklist.len()
            invariant
                i <= self.address_blacklist@.len(),
                forall|k: int| 0 <= k < i ==> self.address_blacklist@[k] != address,
            decreases self.address_blacklist@.len() - i,
        {
            if self.address_blacklist[i] == address {
                return true;
            }
            i += 1;
        }
        false
    }

    /// What a handshake of the device `mac` from `peer` at `now` would mean
    /// for the sessions.
    pub fn handshake_kind(&self, mac: &[u8; 6], peer: PeerAddress, now: u64) -> (r: HandshakeKind)
        requires
            self.wf(),
        ensures
            r == spec_handshake_kind(self.devices@, mac@, peer, now),
    {
        match self.find_mac(mac) {
            None => HandshakeKind::NewDevice,
            Some(j) => {
                let device = &self.devices[j];
                if device.address != peer {
                    HandshakeKind::Moved { from: device.address }
                } else if device.is_timed_out(now) {
                    HandshakeKind::Reconnected
                } else {
                    HandshakeKind::AlreadyConnected
                }
            },
        }
    }

    /// Takes a handshake from `peer`. A device that has a session keeps it:
    /// the session moves to `peer` and starts its packet numbers again. A
    /// device that has none gets a new one. Either way a session of another
    /// device at `peer` gives way.
    pub fn handle_handshake(&mut self, packet: UdpPacketHandshake, peer: PeerAddress, now: u64)
        requires
            old(self).wf(),
        ensures
            final(self).wf(),
            final(self).address_blacklist == old(self).address_blacklist,
            final(self).last_upkeep_time == old(self).last_upkeep_time,
            spec_handshake_result(
                old(self).devices@,
                final(self).devices@,
                packet.mac@,
                peer,
                now,
            ),
    {
        let ghost before = self.devices@;
        let at = self.find_device(peer);
        match self.find_mac(&packet.mac) {
            Some(j) => {
                // The device is known: it reconnects, maybe from a new address.
                self.devices[j].on_handshake(peer);
                let ghost moved = self.devices@;
                assert(moved =~= before.update(j as int, before[j as int].spec_reconnected(peer)));
                match at {
                    Some(i) => {
                        if i != j {
                            let _ = self.devices.remove(i);
                            proof {
                                lemma_remove_keeps_distinct(before, i as int);
                                let after = self.devices@;
                                let jj: int = if j < i {
                                    j as int
                                } else {
                                    j - 1
                                };
                                assert(after =~= before.remove(i as int).update(
                                    jj,
                                    before[j as int].spec_reconnected(peer),
                                ));
                                assert forall|a: int, b: int|
                                    0 <= a < after.len() && 0 <= b < after.len() && a != b implies {
                                    &&& (#[trigger] after[a]).address != (#[trigger] after[b]).address
                                    &&& after[a].mac@ != after[b].mac@
                                } by {
                                    let oa: int = if a < i {
                                        a
                                    } else {
                                        a + 1
                                    };
                                    let ob: int = if b < i {
                                        b
                                    } else {
                                        b + 1
                                    };
                                    assert(before[oa].address != before[ob].address);
                                    assert(before[oa].mac@ != before[ob].mac@);
                                    assert(before[oa].address != before[i as int].address);
                                    assert(before[ob].address != before[i as int].address);
                                }
                            }
                        }
                    },
                    None => {
                        proof {
                            let after = self.devices@;
                            assert forall|a: int, b: int|
                                0 <= a < after.len() && 0 <= b < after.len() && a != b implies {
                                &&& (#[trigger] after[a]).address != (#[trigger] after[b]).address
                                &&& after[a].mac@ != after[b].mac@
                            } by {
                                assert(before[a].address != before[b].address);
                                assert(before[a].mac@ != before[b].mac@);
                            }
                        }
                    },
                }
            },
            None => {
                if let Some(i) = at {
                    let _ = self.devices.remove(i);
                    proof {
                        lemma_remove_keeps_distinct(before, i as int);
                    }
                }
                let ghost kept = self.devices@;
                assert(kept == spec_without_address(before, peer));
                assert forall|k: int| 0 <= k < kept.len() implies (#[trigger] kept[k]).address
                    != peer && kept[k].mac@ != packet.mac@ by {
                    let ok: int = if at.is_some() && k >= at.unwrap() {
                        k + 1
                    } else {
                        k
                    };
                    assert(kept[k] == before[ok]);
                    if at.is_some() {
                        assert(before[ok].address != before[at.unwrap() as int].address);
                    }
                }
                let device = UdpDevice::new(peer, packet.mac, now);
                self.devices.push(device);
                assert(self.devices@.drop_last() =~= kept);
            },
        }
    }

    /// Notes at the session at `index` that a packet with `packet_number`
    /// arrived at `now`, and says whether the session lets it through.
    fn stamp(&mut self, index: usize, now: u64, packet_number: u32) -> (r: bool)
        requires
            old(self).wf(),
            index < old(self).devices@.len(),
        ensures
            final(self).wf(),
            final(self).devices@ == old(self).devices@.update(
                index as int,
                old(self).devices@[index as int].spec_heard(now, packet_number),
            ),
            final(self).address_blacklist == old(self).address_blacklist,
            final(self).last_upkeep_time == old(self).last_upkeep_time,
            r == UdpDevice::spec_accepts(
                old(self).devices@[index as int].last_packet_number,
                packet_number,
            ),
    {
        let device = &mut self.devices[index];
        device.last_packet_received_time = now;
        let accepted = device.check_latest_packet_number(packet_number);
        proof {
            lemma_replace_keeps_distinct(
                old(self).devices@,
                index as int,
                old(self).devices@[index as int].spec_heard(now, packet_number),
            );
        }
        accepted
    }

    /// Takes one datagram from `peer` that arrived at `now`.
    pub fn handle_packet(
        &mut self,
        registry: &mut TrackerRegistry,
        bytes: &[u8],
        peer: PeerAddress,
        now: u64,
    ) -> (out: PacketOutcome)
        requires
            old(self).wf(),
            old(registry).wf(),
        ensures
            final(self).wf(),
            final(registry).wf(),
            final(self).address_blacklist == old(self).address_blacklist,
            final(self).last_upkeep_time == old(self).last_upkeep_time,
            out.dropped == spec_dropped(old(self).devices@, bytes@, peer),
            out.handshake == spec_outcome_handshake(old(self).devices@, bytes@, peer, now),
            match spec_reply(old(self).devices@, bytes@, peer) {
                Some(reply) => out.reply.is_some() && out.reply.unwrap()@ == reply,
                None => out.reply.is_none(),
            },
            spec_handled(
                old(self).devices@,
                old(registry)@,
                final(self).devices@,
                final(registry)@,
                out.samples@,
                bytes@,
                peer,
                now,
            ),
    {
        let found = self.find_device(peer);
        let (packet, packet_number) = match UdpPacket::parse(bytes) {
            Ok(parsed) => parsed,
            Err(e) => {
                return PacketOutcome {
                    reply: None,
                    samples: Vec::new(),
                    dropped: Some(DropReason::Malformed(e)),
                    handshake: None,
                };
            },
        };
        let kind = match &packet {
            UdpPacket::Handshake(handshake) => Some(self.handshake_kind(&handshake.mac, peer, now)),
            _ => None,
        };
        if let Some(i) = found {
            // Discard the packet if it is not the latest.
            if !self.stamp(i, now, packet_number) {
                return PacketOutcome {
                    reply: None,
                    samples: Vec::new(),
                    dropped: Some(DropReason::OutOfOrder),
                    handshake: None,
                };
            }
        }
        let ghost stamped = self.devices@;
        assert(stamped == spec_stamped(old(self).devices@, peer, now, packet_number));
        match packet {
            UdpPacket::Handshake(handshake) => {
                self.handle_handshake(handshake, peer, now);
                PacketOutcome {
                    reply: Some(slice_to_vec(UdpPacketHandshake::server_response().as_slice())),
                    samples: Vec::new(),
                    dropped: None,
                    handshake: kind,
                }
            },
            UdpPacket::PingPong(pong) => {
                match found {
                    Some(i) => {
                        self.devices[i].handle_pong(registry, pong, now);
                        proof {
                            lemma_replace_keeps_distinct(stamped, i as int, self.devices@[i as int]);
                            assert(self.devices@ =~= stamped.update(i as int, self.devices@[i as int]));
                        }
                        PacketOutcome { reply: None, samples: Vec::new(), dropped: None, handshake: None }
                    },
                    None => PacketOutcome {
                        reply: None,
                        samples: Vec::new(),
                        dropped: Some(DropReason::UnknownDevice),
                        handshake: None,
                    },
                }
            },
            UdpPacket::TrackerData(data) => {
                match found {
                    Some(i) => {
                        let samples = take_samples(&self.devices[i], registry, data);
                        proof {
                            assert(self.devices@ =~= stamped.update(i as int, self.devices@[i as int]));
                        }
                        PacketOutcome { reply: None, samples, dropped: None, handshake: None }
                    },
                    None => PacketOutcome {
                        reply: None,
                        samples: Vec::new(),
                        dropped: Some(DropReason::UnknownDevice),
                        handshake: None,
                    },
                }
            },
            UdpPacket::TrackerStatus(status) => {
                match found {
                    Some(i) => {
                        let reply = slice_to_vec(status.to_response().as_slice());
                        self.devices[i].update_tracker_status(registry, status, now);
                        proof {
                            lemma_replace_keeps_distinct(stamped, i as int, self.devices@[i as int]);
                            assert(self.devices@ =~= stamped.update(i as int, self.devices@[i as int]));
                        }
                        PacketOutcome { reply: Some(reply), samples: Vec::new(), dropped: None, handshake: None }
                    },
                    None => PacketOutcome {
                        reply: None,
                        samples: Vec::new(),
                        dropped: Some(DropReason::UnknownDevice),
                        handshake: None,
                    },
                }
            },
            UdpPacket::BatteryLevel(battery) => {
                match found {
                    Some(i) => {
                        self.devices[i].update_battery_level(registry, battery);
                        proof {
                            assert(self.devices@ =~= stamped.update(i as int, self.devices@[i as int]));
                        }
                        PacketOutcome { reply: None, samples: Vec::new(), dropped: None, handshake: None }
                    },
                    None => PacketOutcome {
                        reply: None,
                        samples: Vec::new(),
                        dropped: Some(DropReason::UnknownDevice),
                        handshake: None,
                    },
                }
            },
        }
    }

    /// Takes one datagram from `peer` that arrived at `now`, unless the peer
    /// is on the blacklist: then the datagram is dropped unread.
    pub fn handle_datagram(
        &mut self,
        registry: &mut TrackerRegistry,
        bytes: &[u8],
        peer: PeerAddress,
        now: u64,
    ) -> (out: PacketOutcome)
        requires
            old(self).wf(),
            old(registry).wf(),
        ensures
            final(self).wf(),
            final(registry).wf(),
            final(self).address_blacklist == old(self).address_blacklist,
            final(self).last_upkeep_time == old(self).last_upkeep_time,
            old(self).address_blacklist@.contains(peer) ==> {
                &&& out.dropped == Some(DropReason::Ignored)
                &&& out.handshake.is_none()
                &&& out.reply.is_none()
                &&& out.samples@.len() == 0
                &&& final(self).devices@ == old(self).devices@
                &&& final(registry)@ == old(registry)@
            },
            !old(self).address_blacklist@.contains(peer) ==> {
                &&& out.dropped == spec_dropped(old(self).devices@, bytes@, peer)
                &&& out.handshake == spec_outcome_handshake(old(self).devices@, bytes@, peer, now)
                &&& match spec_reply(old(self).devices@, bytes@, peer) {
                    Some(reply) => out.reply.is_some() && out.reply.unwrap()@ == reply,
                    None => out.reply.is_none(),
                }
                &&& spec_handled(
                    old(self).devices@,
                    old(registry)@,
                    final(self).devices@,
                    final(registry)@,
                    out.samples@,
                    bytes@,
                    peer,
                    now,
                )
            },
    {
        if self.is_blacklisted(peer) {
            return PacketOutcome {
                reply: None,
                samples: Vec::new(),
                dropped: Some(DropReason::Ignored),
                handshake: None,
            };
        }
        self.handle_packet(registry, bytes, peer, now)
    }

    /// Whether more than a second has passed since upkeep last ran.
    pub fn upkeep_due(&self, now: u64) -> (r: bool)
        ensures
            r == (crate::udp::device::spec_elapsed(now, self.last_upkeep_time)
                > UPKEEP_INTERVAL_NANOS),
    {
        crate::udp::device::elapsed(now, self.last_upkeep_time) > UPKEEP_INTERVAL_NANOS
    }

    /// Looks after every session: tells its trackers whether it is timed
    /// out, starts a ping unless one is in flight, and lets the session go,
    /// with its address put on the blacklist, once all its trackers are
    /// removed. Returns the pings to send.
    pub fn upkeep(&mut self, registry: &mut TrackerRegistry, now: u64) -> (pings: Vec<PingOrder>)
        requires
            old(self).wf(),
            old(registry).wf(),
        ensures
            final(self).wf(),
            final(registry).wf(),
            final(self).last_upkeep_time == now,
            final(registry)@ == spec_upkeep_entries(
                old(self).devices@,
                old(registry)@,
                now,
                old(self).devices@.len(),
            ),
            final(self).devices@ == spec_upkeep_devices(
                old(self).devices@,
                old(registry)@,
                now,
                old(self).devices@.len(),
            ),
            pings@ == spec_upkeep_pings(old(self).devices@, old(self).devices@.len()),
            final(self).address_blacklist@ == spec_upkeep_blacklist(
                old(self).devices@,
                old(registry)@,
                old(self).address_blacklist@,
                old(self).devices@.len(),
            ),
    {
        let ghost all = self.devices@;
        let ghost entries = registry@;
        let ghost blacklist = self.address_blacklist@;
        let mut pings: Vec<PingOrder> = Vec::new();
        let mut i: usize = 0;
        let ghost mut t: nat = 0;
        assert(self.devices@ =~= spec_upkeep_devices(all, entries, now, 0) + all.skip(0));
        while i < self.devices.len()
            invariant
                self.wf(),
                registry.wf(),
                t <= all.len(),
                i == spec_upkeep_devices(all, entries, now, t).len(),
                self.devices@ == spec_upkeep_devices(all, entries, now, t) + all.skip(t as int),
                registry@ == spec_upkeep_entries(all, entries, now, t),
                spec_same_marks(registry@, entries),
                pings@ == spec_upkeep_pings(all, t),
                self.address_blacklist@ == spec_upkeep_blacklist(all, entries, blacklist, t),
                self.last_upkeep_time == old(self).last_upkeep_time,
            decreases all.len() - t,
        {
            let ghost kept = spec_upkeep_devices(all, entries, now, t);
            let ghost current = self.devices@;
            assert(current[i as int] == all[t as int]);
            assert(t < all.len());
            let timed_out = self.devices[i].is_timed_out(now);
            self.devices[i].update_timed_out(registry, timed_out);
            let address = self.devices[i].address;
            if let Some(packet) = self.devices[i].check_get_ping_packet(now) {
                pings.push(PingOrder { address, packet });
            }
            proof {
                lemma_replace_keeps_distinct(current, i as int, spec_pinged(all[t as int], now));
                assert(self.devices@ =~= current.update(i as int, spec_pinged(all[t as int], now)));
                lemma_all_removed_by_marks(all[t as int].spec_slots(), registry@, entries);
            }
            // When the user has removed every tracker of the device, keep it
            // from connecting again.
            if self.devices[i].all_trackers_removed(registry) {
                if !self.is_blacklisted(address) {
                    self.address_blacklist.push(address);
                }
                let ghost pinged = self.devices@;
                let _ = self.devices.remove(i);
                proof {
                    lemma_remove_keeps_distinct(pinged, i as int);
                    assert(self.devices@ =~= kept + all.skip(t as int + 1));
                }
            } else {
                proof {
                    assert(self.devices@ =~= kept.push(spec_pinged(all[t as int], now)) + all.skip(
                        t as int + 1,
                    ));
                }
                i += 1;
            }
            proof {
                t = t + 1;
            }
        }
        proof {
            assert(all.skip(t as int).len() == 0);
            assert(t == all.len());
            assert(self.devices@ =~= spec_upkeep_devices(all, entries, now, t));
        }
        self.last_upkeep_time = now;
        pings
    }
}

/// Taking a session out leaves the others distinct and well formed.
pub proof fn lemma_remove_keeps_distinct(devices: Seq<UdpDevice>, i: int)
    requires
        spec_distinct_devices(devices),
        0 <= i < devices.len(),
    ensures
        spec_distinct_devices(devices.remove(i)),
        forall|k: int|
            0 <= k < devices.remove(i).len() ==> #[trigger] devices.remove(i)[k] == devices[if k
                < i {
                k
            } else {
                k + 1
            }],
{
    let after = devices.remove(i);
    assert forall|a: int, b: int|
        0 <= a < after.len() && 0 <= b < after.len() && a != b implies {
        &&& (#[trigger] after[a]).address != (#[trigger] after[b]).address
        &&& after[a].mac@ != after[b].mac@
    } by {
        let oa: int = if a < i {
            a
        } else {
            a + 1
        };
        let ob: int = if b < i {
            b
        } else {
            b + 1
        };
        assert(devices[oa].address != devices[ob].address);
        assert(devices[oa].mac@ != devices[ob].mac@);
    }
}

} // verus!
