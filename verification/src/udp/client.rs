//! The device side of the protocol: what a tracker device puts on the
//! wire. Useful for trying a server out without hardware.

use vstd::prelude::*;
use crate::tracker::TrackerStatus;
use crate::udp::packet::{
    spec_data_payload,
    spec_serialize,
    PacketView,
    UdpPacketBatteryLevel,
    UdpPacketHandshake,
    UdpPacketPingPong,
    UdpPacketTrackerData,
    UdpPacketTrackerStatus,
    UdpTrackerData,
};

verus! {

/// Builds the datagrams of one device and numbers them.
pub struct UdpTrackerClient {
    /// The number of the last packet built since the last handshake.
    pub packet_number: u32,
}

impl UdpTrackerClient {
    pub fn new() -> (r: UdpTrackerClient)
        ensures
            r.packet_number == 0,
    {
        UdpTrackerClient { packet_number: 0 }
    }

    /// The number the packet after number `n` gets: one more, until the
    /// numbers run out.
    pub open spec fn spec_next_number(n: u32) -> u32 {
        if n == u32::MAX {
            n
        } else {
            (n + 1) as u32
        }
    }

    fn next_number(&mut self) -> (r: u32)
        ensures
            r == UdpTrackerClient::spec_next_number(old(self).packet_number),
            final(self).packet_number == r,
    {
        if self.packet_number < u32::MAX {
            self.packet_number += 1;
        }
        self.packet_number
    }

    /// The handshake to send for the device with address `mac`. The packet
    /// numbers start again after it, as they do at the server.
    pub fn send_handshake(&mut self, mac: [u8; 6]) -> (r: Vec<u8>)
        ensures
            r@ == spec_serialize(PacketView::Handshake { mac: mac@ }, 0),
            final(self).packet_number == 0,
    {
        self.packet_number = 0;
        UdpPacketHandshake { mac }.to_packet()
    }

    /// The packet to send to report a charge, given as binary32 bits.
    pub fn send_battery_level(&mut self, level: u32) -> (r: Vec<u8>)
        ensures
            final(self).packet_number == UdpTrackerClient::spec_next_number(
                old(self).packet_number,
            ),
            r@ == spec_serialize(
                PacketView::BatteryLevel { battery_level: level },
                final(self).packet_number,
            ),
    {
        let number = self.next_number();
        UdpPacketBatteryLevel { battery_level: level }.to_packet(number)
    }

    /// The pong to send in answer to the ping with `id`.
    pub fn send_ping(&mut self, id: u8) -> (r: Vec<u8>)
        ensures
            final(self).packet_number == UdpTrackerClient::spec_next_number(
                old(self).packet_number,
            ),
            r@ == spec_serialize(PacketView::PingPong { id }, final(self).packet_number),
    {
        let number = self.next_number();
        UdpPacketPingPong::new(id).to_packet(number)
    }

    /// The packet to send to report the status of the tracker at `index`.
    pub fn send_tracker_status(&mut self, index: u8, status: TrackerStatus) -> (r: Vec<u8>)
        ensures
            final(self).packet_number == UdpTrackerClient::spec_next_number(
                old(self).packet_number,
            ),
            r@ == spec_serialize(
                PacketView::TrackerStatus { tracker_index: index, tracker_status: status },
                final(self).packet_number,
            ),
    {
        let number = self.next_number();
        UdpPacketTrackerStatus { tracker_index: index, tracker_status: status }.to_packet(number)
    }

    /// The packet to send to report samples, given in the server's frame.
    pub fn send_tracker_data(&mut self, datas: &Vec<UdpTrackerData>) -> (r: Vec<u8>)
        ensures
            final(self).packet_number == UdpTrackerClient::spec_next_number(
                old(self).packet_number,
            ),
            r@ == spec_serialize(
                PacketView::TrackerData { payload: spec_data_payload(datas@) },
                final(self).packet_number,
            ),
    {
        let number = self.next_number();
        UdpPacketTrackerData::to_packet(number, datas)
    }
}

/// A session lets every packet of a client through until the numbers run
/// out: the number a client gives a packet is above the one before.
pub proof fn lemma_client_numbers_are_accepted(last: u32)
    requires
        last < u32::MAX,
    ensures
        crate::udp::device::UdpDevice::spec_accepts(
            last,
            UdpTrackerClient::spec_next_number(last),
        ),
        UdpTrackerClient::spec_next_number(last) != 0,
{
}

} // verus!
