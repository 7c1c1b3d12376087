//! The wire format of the tracker protocol.
//!
//! One packet per datagram, integers little-endian. A packet starts with a
//! tag byte. A handshake continues with the magic `MCDEV` and six bytes of
//! hardware address; every other packet continues with a four-byte packet
//! number and then its payload. Bytes after the payload are ignored.
//!
//! Devices report quaternions as `(x, y, z, w)` and accelerations as
//! `(x, y, z)` in their own frame. The codec hands them out in the server's
//! frame: `(-x, y, z, -w)` and `(x, z, y)`.

use vstd::prelude::*;
use byteorder::{ByteOrder, LittleEndian};
use crate::math::{negate, spec_negate, Quat, Vec3};
use crate::tracker::TrackerStatus;

verus! {

pub const PACKET_PING_PONG: u8 = 0x00;

pub const PACKET_HANDSHAKE: u8 = 0x01;

pub const PACKET_TRACKER_STATUS: u8 = 0x02;

pub const PACKET_TRACKER_DATA: u8 = 0x03;

pub const PACKET_BATTERY_LEVEL: u8 = 0x04;

/// The index byte that closes the list of samples in a data packet.
pub const END_OF_DATA: u8 = 0xff;

/// Bytes one sample takes in a data packet: index, four quaternion
/// components, three acceleration components.
pub const SAMPLE_LEN: usize = 29;

/// Why a datagram is not a packet.
#[derive(Clone, Copy, Debug, PartialEq, Eq, Structural)]
pub enum ParseError {
    /// The datagram ends before the packet does.
    Truncated,
    /// A handshake does not carry the magic `MCDEV`.
    BadMagic,
    /// A status packet carries a status byte other than 0, 1 or 2.
    BadStatus,
    /// The tag byte names no packet kind.
    UnknownKind,
}

/// The number that four bytes spell, least significant byte first.
pub open spec fn spec_u32_le(b: Seq<u8>) -> u32
    recommends
        b.len() >= 4,
{
    (b[0] as int + 256 * (b[1] as int) + 65536 * (b[2] as int) + 16777216 * (b[3] as int)) as u32
}

/// The four bytes that spell `x`, least significant byte first.
pub open spec fn spec_u32_to_le(x: u32) -> Seq<u8> {
    seq![
        (x as int % 256) as u8,
        (x as int / 256 % 256) as u8,
        (x as int / 65536 % 256) as u8,
        (x as int / 16777216 % 256) as u8,
    ]
}

/// Reading back what was written gives the number written.
pub proof fn lemma_u32_le_round_trip(x: u32)
    ensures
        spec_u32_to_le(x).len() == 4,
        spec_u32_le(spec_u32_to_le(x)) == x,
{
}

/// `byteorder::ByteOrder::read_u32` for `byteorder::LittleEndian`: the number
/// spelled by the first four bytes of `buf`, least significant byte first.
/// The outside function panics on a shorter slice, which `requires` leaves
/// out.
#[verifier::external_body]
fn read_u32_le(buf: &[u8]) -> (r: u32)
    requires
        buf@.len() >= 4,
    ensures
        r == spec_u32_le(buf@),
{
    LittleEndian::read_u32(buf)
}

/// The four bytes that spell `x`, least significant byte first.
pub fn u32_to_le(x: u32) -> (r: [u8; 4])
    ensures
        r@ == spec_u32_to_le(x),
{
    [
        (x % 256) as u8,
        (x / 256 % 256) as u8,
        (x / 65536 % 256) as u8,
        (x / 16777216 % 256) as u8,
    ]
}

/// A cursor over the bytes of one datagram.
pub struct ByteReader<'a> {
    bytes: &'a [u8],
    position: usize,
}

impl<'a> View for ByteReader<'a> {
    type V = Seq<u8>;

    /// The bytes not read yet.
    closed spec fn view(&self) -> Seq<u8> {
        self.bytes@.skip(self.position as int)
    }
}

impl<'a> ByteReader<'a> {
    #[verifier::type_invariant]
    spec fn within_bounds(self) -> bool {
        self.position <= self.bytes@.len()
    }

    pub fn new(bytes: &'a [u8]) -> (r: ByteReader<'a>)
        ensures
            r@ == bytes@,
    {
        ByteReader { bytes, position: 0 }
    }

    /// Number of bytes not read yet.
    pub fn remaining(&self) -> (r: usize)
        ensures
            r == self@.len(),
    {
        proof {
            use_type_invariant(self);
        }
        self.bytes.len() - self.position
    }

    /// Reads one byte, or fails at the end and leaves the cursor in place.
    pub fn read_u8(&mut self) -> (r: Result<u8, ParseError>)
        ensures
            r == if old(self)@.len() >= 1 {
                Ok::<u8, ParseError>(old(self)@[0])
            } else {
                Err::<u8, ParseError>(ParseError::Truncated)
            },
            final(self)@ == if old(self)@.len() >= 1 {
                old(self)@.skip(1)
            } else {
                old(self)@
            },
    {
        proof {
            use_type_invariant(&*self);
        }
        if self.bytes.len() - self.position < 1 {
            return Err(ParseError::Truncated);
        }
        let b = self.bytes[self.position];
        self.position += 1;
        Ok(b)
    }

    /// A second cursor at the same place. Reading from one does not move
    /// the other.
    pub fn fork(&self) -> (r: ByteReader<'a>)
        ensures
            r@ == self@,
    {
        proof {
            use_type_invariant(self);
        }
        ByteReader { bytes: self.bytes, position: self.position }
    }

    /// Skips `count` bytes, or none if fewer are left; says whether it
    /// skipped.
    pub fn advance(&mut self, count: usize) -> (r: bool)
        ensures
            r == (count <= old(self)@.len()),
            final(self)@ == if r {
                old(self)@.skip(count as int)
            } else {
                old(self)@
            },
    {
        proof {
            use_type_invariant(&*self);
        }
        if self.bytes.len() - self.position < count {
            return false;
        }
        self.position += count;
        true
    }

    /// The next byte, without reading it.
    pub fn peek_u8(&self) -> (r: Option<u8>)
        ensures
            r == if self@.len() >= 1 {
                Some(self@[0])
            } else {
                None
            },
    {
        proof {
            use_type_invariant(self);
        }
        if self.bytes.len() - self.position < 1 {
            None
        } else {
            Some(self.bytes[self.position])
        }
    }

    /// Reads a little-endian `u32`, or fails with fewer than four bytes left
    /// and leaves the cursor in place.
    pub fn read_u32(&mut self) -> (r: Result<u32, ParseError>)
        ensures
            r == if old(self)@.len() >= 4 {
                Ok::<u32, ParseError>(spec_u32_le(old(self)@))
            } else {
                Err::<u32, ParseError>(ParseError::Truncated)
            },
            final(self)@ == if old(self)@.len() >= 4 {
                old(self)@.skip(4)
            } else {
                old(self)@
            },
    {
        proof {
            use_type_invariant(&*self);
        }
        if self.bytes.len() - self.position < 4 {
            return Err(ParseError::Truncated);
        }
        let start = self.position;
        let word = &self.bytes[start..start + 4];
        let value = read_u32_le(word);
        proof {
            let rest = self.bytes@.skip(start as int);
            assert(word@[0] == rest[0]);
            assert(word@[1] == rest[1]);
            assert(word@[2] == rest[2]);
            assert(word@[3] == rest[3]);
        }
        self.position += 4;
        Ok(value)
    }

    /// Tells whether the unread bytes start with `expected`, and skips them
    /// if they do. Otherwise the cursor stays in place.
    pub fn bytes_equal(&mut self, expected: &[u8]) -> (r: bool)
        ensures
            r == expected@.is_prefix_of(old(self)@),
            r ==> final(self)@ == old(self)@.skip(expected@.len() as int),
            !r ==> final(self)@ == old(self)@,
    {
        proof {
            use_type_invariant(&*self);
        }
        let len = self.bytes.len();
        if len - self.position < expected.len() {
            return false;
        }
        let mut i: usize = 0;
        while i < expected.len()
            invariant
                i <= expected@.len(),
                len == self.bytes@.len(),
                self.position + expected@.len() <= self.bytes@.len(),
                *self == *old(self),
                forall|k: int| 0 <= k < i ==> expected@[k] == #[trigger] self@[k],
            decreases expected@.len() - i,
        {
            if self.bytes[self.position + i] != expected[i] {
                assert(self@[i as int] != expected@[i as int]);
                return false;
            }
            i += 1;
        }
        assert(expected@ =~= self@.subrange(0, expected@.len() as int));
        self.position += expected.len();
        true
    }
}

/// The six bytes the server answers a handshake with: the handshake tag and
/// the magic `MCSVR`.
pub open spec fn spec_server_response() -> Seq<u8> {
    seq![PACKET_HANDSHAKE, 0x4d, 0x43, 0x53, 0x56, 0x52]
}

/// The magic that opens a handshake: `MCDEV`.
pub open spec fn spec_device_magic() -> Seq<u8> {
    seq![0x4d, 0x43, 0x44, 0x45, 0x56]
}

/// A device announces itself by its hardware address.
#[derive(Clone, Copy, Debug)]
pub struct UdpPacketHandshake {
    pub mac: [u8; 6],
}

impl UdpPacketHandshake {
    /// What the server answers a handshake with.
    pub fn server_response() -> (r: [u8; 6])
        ensures
            r@ == spec_server_response(),
    {
        [PACKET_HANDSHAKE, 0x4d, 0x43, 0x53, 0x56, 0x52]
    }

    /// What follows the tag of a handshake: the magic, then the address.
    pub open spec fn spec_from_bytes(payload: Seq<u8>) -> Result<Seq<u8>, ParseError> {
        if !spec_device_magic().is_prefix_of(payload) {
            Err(ParseError::BadMagic)
        } else if payload.len() < 11 {
            Err(ParseError::Truncated)
        } else {
            Ok(payload.subrange(5, 11))
        }
    }

    /// Reads what follows the tag of a handshake.
    pub fn from_bytes(bytes: &mut ByteReader) -> (r: Result<UdpPacketHandshake, ParseError>)
        ensures
            match r {
                Ok(packet) => UdpPacketHandshake::spec_from_bytes(old(bytes)@) == Ok::<
                    Seq<u8>,
                    ParseError,
                >(packet.mac@),
                Err(e) => UdpPacketHandshake::spec_from_bytes(old(bytes)@) == Err::<
                    Seq<u8>,
                    ParseError,
                >(e),
            },
            final(bytes)@ == match r {
                Ok(_) => old(bytes)@.skip(11),
                Err(ParseError::BadMagic) => old(bytes)@,
                Err(_) => old(bytes)@.skip(5),
            },
    {
        let magic: [u8; 5] = [0x4d, 0x43, 0x44, 0x45, 0x56];
        assert(magic@ =~= spec_device_magic());
        if !bytes.bytes_equal(magic.as_slice()) {
            return Err(ParseError::BadMagic);
        }
        if bytes.remaining() < 6 {
            return Err(ParseError::Truncated);
        }
        let mut mac: [u8; 6] = [0, 0, 0, 0, 0, 0];
        let mut i: usize = 0;
        while i < 6
            invariant
                i <= 6,
                bytes@ == old(bytes)@.skip(5 + i),
                old(bytes)@.len() >= 11,
                forall|k: int| 0 <= k < i ==> mac@[k] == old(bytes)@[5 + k],
            decreases 6 - i,
        {
            let b = bytes.read_u8();
            assert(bytes@ =~= old(bytes)@.skip(5 + i + 1));
            match b {
                Ok(v) => {
                    mac[i] = v;
                },
                Err(_) => {
                    assert(false);
                },
            }
            i += 1;
        }
        assert(mac@ =~= old(bytes)@.subrange(5, 11));
        Ok(UdpPacketHandshake { mac })
    }

    /// The handshake as a device sends it.
    pub fn to_packet(&self) -> (r: Vec<u8>)
        ensures
            r@ == spec_serialize(PacketView::Handshake { mac: self.mac@ }, 0),
    {
        let mut out: Vec<u8> = Vec::new();
        out.push(PACKET_HANDSHAKE);
        out.push(0x4d);
        out.push(0x43);
        out.push(0x44);
        out.push(0x45);
        out.push(0x56);
        let mut i: usize = 0;
        while i < 6
            invariant
                i <= 6,
                out@ == (seq![PACKET_HANDSHAKE] + spec_device_magic()) + self.mac@.subrange(
                    0,
                    i as int,
                ),
            decreases 6 - i,
        {
            out.push(self.mac[i]);
            assert(self.mac@.subrange(0, i as int).push(self.mac@[i as int])
                =~= self.mac@.subrange(0, i + 1));
            i += 1;
        }
        assert(self.mac@.subrange(0, 6) =~= self.mac@);
        out
    }
}

/// A ping from the server, or the pong a device answers it with.
#[derive(Clone, Copy, Debug, PartialEq, Eq, Structural)]
pub struct UdpPacketPingPong {
    pub id: u8,
}

impl UdpPacketPingPong {
    pub fn new(id: u8) -> (r: UdpPacketPingPong)
        ensures
            r.id == id,
    {
        UdpPacketPingPong { id }
    }

    /// Reads what follows the packet number of a pong: the id.
    pub fn from_bytes(bytes: &mut ByteReader) -> (r: Result<UdpPacketPingPong, ParseError>)
        ensures
            r == if old(bytes)@.len() >= 1 {
                Ok::<UdpPacketPingPong, ParseError>(UdpPacketPingPong { id: old(bytes)@[0] })
            } else {
                Err::<UdpPacketPingPong, ParseError>(ParseError::Truncated)
            },
            final(bytes)@ == if r.is_ok() {
                old(bytes)@.skip(1)
            } else {
                old(bytes)@
            },
    {
        match bytes.read_u8() {
            Ok(id) => Ok(UdpPacketPingPong { id }),
            Err(e) => Err(e),
        }
    }

    /// The ping as the server sends it: tag and id, no packet number.
    pub fn to_response(self) -> (r: [u8; 2])
        ensures
            r@ == seq![PACKET_PING_PONG, self.id],
    {
        let r = [PACKET_PING_PONG, self.id];
        assert(r@ =~= seq![PACKET_PING_PONG, self.id]);
        r
    }

    /// The pong as a device sends it.
    pub fn to_packet(&self, packet_number: u32) -> (r: Vec<u8>)
        ensures
            r@ == spec_serialize(PacketView::PingPong { id: self.id }, packet_number),
    {
        let mut out = begin_packet(PACKET_PING_PONG, packet_number);
        out.push(self.id);
        out
    }
}

/// A device reports the state of one of its trackers.
#[derive(Clone, Copy, Debug, PartialEq, Eq, Structural)]
pub struct UdpPacketTrackerStatus {
    pub tracker_index: u8,
    pub tracker_status: TrackerStatus,
}

impl UdpPacketTrackerStatus {
    /// The status a byte stands for on the wire, if any.
    pub open spec fn spec_status_of(code: u8) -> Option<TrackerStatus> {
        if code == 0 {
            Some(TrackerStatus::Okay)
        } else if code == 1 {
            Some(TrackerStatus::Error)
        } else if code == 2 {
            Some(TrackerStatus::Off)
        } else {
            None
        }
    }

    /// What follows the packet number of a status packet: index and status.
    pub open spec fn spec_from_bytes(payload: Seq<u8>) -> Result<
        UdpPacketTrackerStatus,
        ParseError,
    > {
        if payload.len() < 2 {
            Err(ParseError::Truncated)
        } else {
            match UdpPacketTrackerStatus::spec_status_of(payload[1]) {
                Some(status) => Ok(
                    UdpPacketTrackerStatus { tracker_index: payload[0], tracker_status: status },
                ),
                None => Err(ParseError::BadStatus),
            }
        }
    }

    /// Reads what follows the packet number of a status packet. A status a
    /// device can report is never `TimedOut`.
    pub fn from_bytes(bytes: &mut ByteReader) -> (r: Result<UdpPacketTrackerStatus, ParseError>)
        ensures
            r == UdpPacketTrackerStatus::spec_from_bytes(old(bytes)@),
            r.is_ok() ==> r.unwrap().tracker_status != TrackerStatus::TimedOut,
            final(bytes)@ == if old(bytes)@.len() >= 2 {
                old(bytes)@.skip(2)
            } else {
                old(bytes)@.skip(old(bytes)@.len() as int)
            },
    {
        let tracker_index = match bytes.read_u8() {
            Ok(v) => v,
            Err(e) => {
                return Err(e);
            },
        };
        let code = match bytes.read_u8() {
            Ok(v) => v,
            Err(e) => {
                return Err(e);
            },
        };
        let tracker_status = if code == 0 {
            TrackerStatus::Okay
        } else if code == 1 {
            TrackerStatus::Error
        } else if code == 2 {
            TrackerStatus::Off
        } else {
            return Err(ParseError::BadStatus);
        };
        Ok(UdpPacketTrackerStatus { tracker_index, tracker_status })
    }

    /// The acknowledgement the server echoes: tag, index and status, no
    /// packet number.
    pub fn to_response(&self) -> (r: [u8; 3])
        ensures
            r@ == seq![
                PACKET_TRACKER_STATUS,
                self.tracker_index,
                self.tracker_status.spec_wire_code(),
            ],
    {
        let r = [PACKET_TRACKER_STATUS, self.tracker_index, self.tracker_status.wire_code()];
        assert(r@ =~= seq![
            PACKET_TRACKER_STATUS,
            self.tracker_index,
            self.tracker_status.spec_wire_code(),
        ]);
        r
    }

    /// The status packet as a device sends it.
    pub fn to_packet(&self, packet_number: u32) -> (r: Vec<u8>)
        ensures
            r@ == spec_serialize(
                PacketView::TrackerStatus {
                    tracker_index: self.tracker_index,
                    tracker_status: self.tracker_status,
                },
                packet_number,
            ),
    {
        let mut out = begin_packet(PACKET_TRACKER_STATUS, packet_number);
        out.push(self.tracker_index);
        out.push(self.tracker_status.wire_code());
        out
    }
}

/// A device reports its charge.
#[derive(Clone, Copy, Debug, PartialEq, Eq, Structural)]
pub struct UdpPacketBatteryLevel {
    /// Charge between 0 and 1, as binary32 bits.
    pub battery_level: u32,
}

impl UdpPacketBatteryLevel {
    /// Reads what follows the packet number of a battery packet.
    pub fn from_bytes(bytes: &mut ByteReader) -> (r: Result<UdpPacketBatteryLevel, ParseError>)
        ensures
            r == if old(bytes)@.len() >= 4 {
                Ok::<UdpPacketBatteryLevel, ParseError>(
                    UdpPacketBatteryLevel { battery_level: spec_u32_le(old(bytes)@) },
                )
            } else {
                Err::<UdpPacketBatteryLevel, ParseError>(ParseError::Truncated)
            },
            final(bytes)@ == if r.is_ok() {
                old(bytes)@.skip(4)
            } else {
                old(bytes)@
            },
    {
        match bytes.read_u32() {
            Ok(battery_level) => Ok(UdpPacketBatteryLevel { battery_level }),
            Err(e) => Err(e),
        }
    }

    /// The battery packet as a device sends it.
    pub fn to_packet(&self, packet_number: u32) -> (r: Vec<u8>)
        ensures
            r@ == spec_serialize(
                PacketView::BatteryLevel { battery_level: self.battery_level },
                packet_number,
            ),
    {
        let mut out = begin_packet(PACKET_BATTERY_LEVEL, packet_number);
        push_u32(&mut out, self.battery_level);
        out
    }
}

/// Tag and packet number: how every packet but the handshake starts.
pub open spec fn spec_header(tag: u8, packet_number: u32) -> Seq<u8> {
    seq![tag] + spec_u32_to_le(packet_number)
}

fn begin_packet(tag: u8, packet_number: u32) -> (r: Vec<u8>)
    ensures
        r@ == spec_header(tag, packet_number),
{
    let mut out: Vec<u8> = Vec::new();
    out.push(tag);
    push_u32(&mut out, packet_number);
    out
}

fn push_u32(out: &mut Vec<u8>, x: u32)
    ensures
        final(out)@ == old(out)@ + spec_u32_to_le(x),
{
    let b = u32_to_le(x);
    out.push(b[0]);
    out.push(b[1]);
    out.push(b[2]);
    out.push(b[3]);
    assert(out@ =~= old(out)@ + spec_u32_to_le(x));
}

/// What a packet is, apart from how it is held in memory.
pub enum PacketView {
    Handshake { mac: Seq<u8> },
    /// A data packet is held unread: `payload` is what follows the packet
    /// number.
    TrackerData { payload: Seq<u8> },
    TrackerStatus { tracker_index: u8, tracker_status: TrackerStatus },
    BatteryLevel { battery_level: u32 },
    PingPong { id: u8 },
}

/// The bytes a device sends for `packet` under `packet_number`. A handshake
/// carries no packet number.
pub open spec fn spec_serialize(packet: PacketView, packet_number: u32) -> Seq<u8> {
    match packet {
        PacketView::Handshake { mac } => (seq![PACKET_HANDSHAKE] + spec_device_magic()) + mac,
        PacketView::TrackerData { payload } => spec_header(PACKET_TRACKER_DATA, packet_number)
            + payload,
        PacketView::TrackerStatus { tracker_index, tracker_status } => spec_header(
            PACKET_TRACKER_STATUS,
            packet_number,
        ) + seq![tracker_index, tracker_status.spec_wire_code()],
        PacketView::BatteryLevel { battery_level } => spec_header(
            PACKET_BATTERY_LEVEL,
            packet_number,
        ) + spec_u32_to_le(battery_level),
        PacketView::PingPong { id } => spec_header(PACKET_PING_PONG, packet_number) + seq![id],
    }
}

/// One sample of one tracker, in the server's frame.
#[derive(Clone, Copy, Debug, PartialEq, Eq, Structural)]
pub struct UdpTrackerData {
    pub tracker_index: u8,
    pub orientation: Quat,
    pub acceleration: Vec3,
}

/// The number spelled by the four bytes of `b` from `at` on.
pub open spec fn spec_u32_at(b: Seq<u8>, at: int) -> u32 {
    spec_u32_le(b.skip(at))
}

impl UdpTrackerData {
    /// The sample that the first [`SAMPLE_LEN`] bytes of `payload` spell:
    /// the quaternion with `x` and `w` negated, the acceleration with `y`
    /// and `z` swapped.
    pub open spec fn spec_from_bytes(payload: Seq<u8>) -> UdpTrackerData
        recommends
            payload.len() >= SAMPLE_LEN,
    {
        UdpTrackerData {
            tracker_index: payload[0],
            orientation: Quat {
                x: spec_negate(spec_u32_at(payload, 1)),
                y: spec_u32_at(payload, 5),
                z: spec_u32_at(payload, 9),
                w: spec_negate(spec_u32_at(payload, 13)),
            },
            acceleration: Vec3 {
                x: spec_u32_at(payload, 17),
                y: spec_u32_at(payload, 25),
                z: spec_u32_at(payload, 21),
            },
        }
    }

    /// The bytes that spell the sample: the inverse of
    /// [`UdpTrackerData::spec_from_bytes`].
    #[verifier::opaque]
    pub open spec fn spec_to_bytes(self) -> Seq<u8> {
        seq![self.tracker_index] + spec_u32_to_le(spec_negate(self.orientation.x))
            + spec_u32_to_le(self.orientation.y) + spec_u32_to_le(self.orientation.z)
            + spec_u32_to_le(spec_negate(self.orientation.w)) + spec_u32_to_le(
            self.acceleration.x,
        ) + spec_u32_to_le(self.acceleration.z) + spec_u32_to_le(self.acceleration.y)
    }

    /// Appends the bytes that spell the sample.
    pub fn write_to(&self, out: &mut Vec<u8>)
        ensures
            final(out)@ == old(out)@ + self.spec_to_bytes(),
    {
        out.push(self.tracker_index);
        push_u32(out, negate(self.orientation.x));
        push_u32(out, self.orientation.y);
        push_u32(out, self.orientation.z);
        push_u32(out, negate(self.orientation.w));
        push_u32(out, self.acceleration.x);
        push_u32(out, self.acceleration.z);
        push_u32(out, self.acceleration.y);
        proof {
            reveal(UdpTrackerData::spec_to_bytes);
            assert(out@ =~= old(out)@ + self.spec_to_bytes());
        }
    }
}

/// What reading one sample from `payload` gives: a sample, the end of the
/// list, or an error where the payload breaks off.
pub open spec fn spec_next_data(payload: Seq<u8>) -> Result<Option<UdpTrackerData>, ParseError> {
    if payload.len() < 1 {
        Err(ParseError::Truncated)
    } else if payload[0] == END_OF_DATA {
        Ok(None)
    } else if payload.len() < SAMPLE_LEN {
        Err(ParseError::Truncated)
    } else {
        Ok(Some(UdpTrackerData::spec_from_bytes(payload)))
    }
}

/// What is left of `payload` after reading one sample from it.
pub open spec fn spec_after_next_data(payload: Seq<u8>) -> Seq<u8> {
    match spec_next_data(payload) {
        Ok(Some(_)) => payload.skip(SAMPLE_LEN as int),
        Ok(None) => payload.skip(1),
        Err(_) => payload,
    }
}

/// The samples of a data packet, read one at a time.
pub struct UdpPacketTrackerData<'a> {
    bytes: ByteReader<'a>,
}

impl<'a> View for UdpPacketTrackerData<'a> {
    type V = Seq<u8>;

    /// The payload not read yet.
    closed spec fn view(&self) -> Seq<u8> {
        self.bytes@
    }
}

impl<'a> UdpPacketTrackerData<'a> {
    /// Takes what follows the packet number of a data packet.
    pub fn from_bytes(bytes: ByteReader<'a>) -> (r: UdpPacketTrackerData<'a>)
        ensures
            r@ == bytes@,
    {
        UdpPacketTrackerData { bytes }
    }

    /// Whether the samples not read yet are whole and followed by the end
    /// mark. Nothing is read.
    pub fn ends_with_mark(&self) -> (r: bool)
        ensures
            r == spec_ends_with_mark(self@),
    {
        let mut rest = self.bytes.fork();
        loop
            invariant
                spec_ends_with_mark(rest@) == spec_ends_with_mark(self@),
            decreases rest@.len(),
        {
            match rest.peek_u8() {
                None => {
                    return false;
                },
                Some(index) => {
                    if index == END_OF_DATA {
                        return true;
                    }
                    if !rest.advance(SAMPLE_LEN) {
                        return false;
                    }
                },
            }
        }
    }

    /// Reads the next sample. `Ok(None)` marks the end of the list: the
    /// index byte `0xff` stands for no tracker.
    pub fn next_data(&mut self) -> (r: Result<Option<UdpTrackerData>, ParseError>)
        ensures
            r == spec_next_data(old(self)@),
            final(self)@ == spec_after_next_data(old(self)@),
    {
        let ghost payload = self@;
        let tracker_index = match self.bytes.peek_u8() {
            Some(v) => v,
            None => {
                return Err(ParseError::Truncated);
            },
        };
        if tracker_index != END_OF_DATA && self.bytes.remaining() < SAMPLE_LEN {
            return Err(ParseError::Truncated);
        }
        let _ = self.bytes.read_u8();
        if tracker_index == END_OF_DATA {
            return Ok(None);
        }
        let qx = self.read_word(Ghost(payload), Ghost(1));
        let qy = self.read_word(Ghost(payload), Ghost(5));
        let qz = self.read_word(Ghost(payload), Ghost(9));
        let qw = self.read_word(Ghost(payload), Ghost(13));
        let ax = self.read_word(Ghost(payload), Ghost(17));
        let az = self.read_word(Ghost(payload), Ghost(21));
        let ay = self.read_word(Ghost(payload), Ghost(25));
        Ok(
            Some(
                UdpTrackerData {
                    tracker_index,
                    orientation: Quat { x: negate(qx), y: qy, z: qz, w: negate(qw) },
                    acceleration: Vec3 { x: ax, y: ay, z: az },
                },
            ),
        )
    }

    fn read_word(&mut self, Ghost(payload): Ghost<Seq<u8>>, Ghost(at): Ghost<int>) -> (r: u32)
        requires
            0 <= at,
            at + 4 <= payload.len(),
            old(self)@ == payload.skip(at),
        ensures
            r == spec_u32_at(payload, at),
            final(self)@ == payload.skip(at + 4),
    {
        let r = self.bytes.read_u32();
        assert(payload.skip(at).skip(4) =~= payload.skip(at + 4));
        match r {
            Ok(v) => v,
            Err(_) => 0,
        }
    }
}

/// A packet from a device.
pub enum UdpPacket<'a> {
    Handshake(UdpPacketHandshake),
    TrackerData(UdpPacketTrackerData<'a>),
    TrackerStatus(UdpPacketTrackerStatus),
    BatteryLevel(UdpPacketBatteryLevel),
    PingPong(UdpPacketPingPong),
}

impl<'a> View for UdpPacket<'a> {
    type V = PacketView;

    open spec fn view(&self) -> PacketView {
        match self {
            UdpPacket::Handshake(p) => PacketView::Handshake { mac: p.mac@ },
            UdpPacket::TrackerData(p) => PacketView::TrackerData { payload: p@ },
            UdpPacket::TrackerStatus(p) => PacketView::TrackerStatus {
                tracker_index: p.tracker_index,
                tracker_status: p.tracker_status,
            },
            UdpPacket::BatteryLevel(p) => PacketView::BatteryLevel {
                battery_level: p.battery_level,
            },
            UdpPacket::PingPong(p) => PacketView::PingPong { id: p.id },
        }
    }
}

/// What a datagram holds: a packet and its packet number, or the reason why
/// it is none. A handshake has packet number 0. For every other tag the
/// packet number is read before the tag is judged. A data packet is a packet
/// only if every sample in it is whole and the end mark follows the last.
pub open spec fn spec_parse(bytes: Seq<u8>) -> Result<(PacketView, u32), ParseError> {
    if bytes.len() < 1 {
        Err(ParseError::Truncated)
    } else if bytes[0] == PACKET_HANDSHAKE {
        match UdpPacketHandshake::spec_from_bytes(bytes.skip(1)) {
            Ok(mac) => Ok((PacketView::Handshake { mac }, 0u32)),
            Err(e) => Err(e),
        }
    } else if bytes.len() < 5 {
        Err(ParseError::Truncated)
    } else {
        let packet_number = spec_u32_at(bytes, 1);
        let payload = bytes.skip(5);
        if bytes[0] == PACKET_PING_PONG {
            if payload.len() < 1 {
                Err(ParseError::Truncated)
            } else {
                Ok((PacketView::PingPong { id: payload[0] }, packet_number))
            }
        } else if bytes[0] == PACKET_TRACKER_DATA {
            if spec_ends_with_mark(payload) {
                Ok((PacketView::TrackerData { payload }, packet_number))
            } else {
                Err(ParseError::Truncated)
            }
        } else if bytes[0] == PACKET_TRACKER_STATUS {
            match UdpPacketTrackerStatus::spec_from_bytes(payload) {
                Ok(p) => Ok(
                    (
                        PacketView::TrackerStatus {
                            tracker_index: p.tracker_index,
                            tracker_status: p.tracker_status,
                        },
                        packet_number,
                    ),
                ),
                Err(e) => Err(e),
            }
        } else if bytes[0] == PACKET_BATTERY_LEVEL {
            if payload.len() < 4 {
                Err(ParseError::Truncated)
            } else {
                Ok((PacketView::BatteryLevel { battery_level: spec_u32_le(payload) }, packet_number))
            }
        } else {
            Err(ParseError::UnknownKind)
        }
    }
}

impl<'a> UdpPacket<'a> {
    /// Reads one datagram. Returns the packet and its packet number.
    pub fn parse(bytes: &'a [u8]) -> (r: Result<(UdpPacket<'a>, u32), ParseError>)
        ensures
            match r {
                Ok((packet, packet_number)) => spec_parse(bytes@) == Ok::<
                    (PacketView, u32),
                    ParseError,
                >((packet@, packet_number)),
                Err(e) => spec_parse(bytes@) == Err::<(PacketView, u32), ParseError>(e),
            },
            r.is_ok() ==> (r.unwrap().0 matches UdpPacket::TrackerStatus(p)
                ==> p.tracker_status != TrackerStatus::TimedOut),
            r.is_ok() ==> (r.unwrap().0 matches UdpPacket::TrackerData(p) ==> spec_ends_with_mark(
                p@,
            )),
    {
        let mut reader = ByteReader::new(bytes);
        let packet_type = match reader.read_u8() {
            Ok(v) => v,
            Err(e) => {
                return Err(e);
            },
        };
        if packet_type == PACKET_HANDSHAKE {
            return match UdpPacketHandshake::from_bytes(&mut reader) {
                Ok(p) => Ok((UdpPacket::Handshake(p), 0)),
                Err(e) => Err(e),
            };
        }
        let packet_number = match reader.read_u32() {
            Ok(v) => v,
            Err(e) => {
                return Err(e);
            },
        };
        assert(reader@ =~= bytes@.skip(5));
        if packet_type == PACKET_PING_PONG {
            match UdpPacketPingPong::from_bytes(&mut reader) {
                Ok(p) => Ok((UdpPacket::PingPong(p), packet_number)),
                Err(e) => Err(e),
            }
        } else if packet_type == PACKET_TRACKER_DATA {
            let data = UdpPacketTrackerData::from_bytes(reader);
            if data.ends_with_mark() {
                Ok((UdpPacket::TrackerData(data), packet_number))
            } else {
                Err(ParseError::Truncated)
            }
        } else if packet_type == PACKET_TRACKER_STATUS {
            match UdpPacketTrackerStatus::from_bytes(&mut reader) {
                Ok(p) => Ok((UdpPacket::TrackerStatus(p), packet_number)),
                Err(e) => Err(e),
            }
        } else if packet_type == PACKET_BATTERY_LEVEL {
            match UdpPacketBatteryLevel::from_bytes(&mut reader) {
                Ok(p) => Ok((UdpPacket::BatteryLevel(p), packet_number)),
                Err(e) => Err(e),
            }
        } else {
            Err(ParseError::UnknownKind)
        }
    }
}

/// The payload of a data packet that lists `samples`: each sample in turn,
/// then the end mark.
pub open spec fn spec_data_payload(samples: Seq<UdpTrackerData>) -> Seq<u8>
    decreases samples.len(),
{
    if samples.len() == 0 {
        seq![END_OF_DATA]
    } else {
        samples[0].spec_to_bytes() + spec_data_payload(samples.skip(1))
    }
}

/// The samples that reading `payload` to its end mark, or to where it breaks
/// off, hands out.
pub open spec fn spec_samples(payload: Seq<u8>) -> Seq<UdpTrackerData>
    decreases payload.len(),
{
    match spec_next_data(payload) {
        Ok(Some(sample)) => seq![sample] + spec_samples(payload.skip(SAMPLE_LEN as int)),
        _ => Seq::empty(),
    }
}

/// Whether reading `payload` arrives at an end mark before it breaks off.
pub open spec fn spec_ends_with_mark(payload: Seq<u8>) -> bool
    decreases payload.len(),
{
    match spec_next_data(payload) {
        Ok(Some(_)) => spec_ends_with_mark(payload.skip(SAMPLE_LEN as int)),
        Ok(None) => true,
        Err(_) => false,
    }
}

impl<'a> UdpPacketTrackerData<'a> {
    /// The data packet as a device sends it.
    pub fn to_packet(packet_number: u32, samples: &Vec<UdpTrackerData>) -> (r: Vec<u8>)
        ensures
            r@ == spec_serialize(
                PacketView::TrackerData { payload: spec_data_payload(samples@) },
                packet_number,
            ),
    {
        let mut out = begin_packet(PACKET_TRACKER_DATA, packet_number);
        let ghost header = out@;
        assert(samples@.skip(0) =~= samples@);
        let mut i: usize = 0;
        while i < samples.len()
            invariant
                i <= samples@.len(),
                out@ + spec_data_payload(samples@.skip(i as int)) == header + spec_data_payload(
                    samples@,
                ),
            decreases samples@.len() - i,
        {
            let ghost before = out@;
            samples[i].write_to(&mut out);
            proof {
                let rest = samples@.skip(i as int);
                let head = samples@[i as int].spec_to_bytes();
                let tail = spec_data_payload(samples@.skip(i + 1));
                assert(rest[0] == samples@[i as int]);
                assert(rest.skip(1) =~= samples@.skip(i + 1));
                assert(spec_data_payload(rest) == head + tail);
                assert((before + head) + tail =~= before + (head + tail));
            }
            i += 1;
        }
        out.push(END_OF_DATA);
        proof {
            assert(samples@.skip(i as int).len() == 0);
            assert(out@ =~= header + spec_data_payload(samples@));
        }
        out
    }
}

/// Four written bytes, whatever follows them, read back as the number
/// written.
pub proof fn lemma_u32_at_written(before: Seq<u8>, x: u32, after: Seq<u8>)
    ensures
        spec_u32_at(before + spec_u32_to_le(x) + after, before.len() as int) == x,
{
    let all = before + spec_u32_to_le(x) + after;
    let tail = all.skip(before.len() as int);
    let w = spec_u32_to_le(x);
    assert(tail[0] == w[0]);
    assert(tail[1] == w[1]);
    assert(tail[2] == w[2]);
    assert(tail[3] == w[3]);
}

/// A written sample, whatever follows it, reads back as itself, and the
/// reader is left at what follows. The index `0xff` is left out: it reads as
/// the end mark.
pub proof fn lemma_sample_round_trip(sample: UdpTrackerData, rest: Seq<u8>)
    requires
        sample.tracker_index != END_OF_DATA,
    ensures
        sample.spec_to_bytes().len() == SAMPLE_LEN,
        spec_next_data(sample.spec_to_bytes() + rest) == Ok::<Option<UdpTrackerData>, ParseError>(
            Some(sample),
        ),
        spec_after_next_data(sample.spec_to_bytes() + rest) == rest,
{
    reveal(UdpTrackerData::spec_to_bytes);
    let b = sample.spec_to_bytes() + rest;
    let q = sample.orientation;
    let a = sample.acceleration;
    let upto0 = seq![sample.tracker_index];
    let upto1 = upto0 + spec_u32_to_le(spec_negate(q.x));
    let upto2 = upto1 + spec_u32_to_le(q.y);
    let upto3 = upto2 + spec_u32_to_le(q.z);
    let upto4 = upto3 + spec_u32_to_le(spec_negate(q.w));
    let upto5 = upto4 + spec_u32_to_le(a.x);
    let upto6 = upto5 + spec_u32_to_le(a.z);
    let upto7 = upto6 + spec_u32_to_le(a.y);
    assert(upto7 == sample.spec_to_bytes());
    assert(upto1.len() == 5 && upto2.len() == 9 && upto3.len() == 13 && upto4.len() == 17 && upto5.len() == 21
        && upto6.len() == 25 && upto7.len() == 29);
    assert(upto1.is_prefix_of(b) && upto2.is_prefix_of(b) && upto3.is_prefix_of(b) && upto4.is_prefix_of(b)
        && upto5.is_prefix_of(b) && upto6.is_prefix_of(b) && upto7.is_prefix_of(b)) by {
        assert(upto7.is_prefix_of(b));
        assert(upto6.is_prefix_of(upto7));
        assert(upto5.is_prefix_of(upto6));
        assert(upto4.is_prefix_of(upto5));
        assert(upto3.is_prefix_of(upto4));
        assert(upto2.is_prefix_of(upto3));
        assert(upto1.is_prefix_of(upto2));
    }
    assert(spec_u32_at(b, 1) == spec_negate(q.x)) by {
        lemma_word_written_last(upto0, spec_negate(q.x));
        lemma_word_survives(upto1, 1, b);
    }
    assert(spec_u32_at(b, 5) == q.y) by {
        lemma_word_written_last(upto1, q.y);
        lemma_word_survives(upto2, 5, b);
    }
    assert(spec_u32_at(b, 9) == q.z) by {
        lemma_word_written_last(upto2, q.z);
        lemma_word_survives(upto3, 9, b);
    }
    assert(spec_u32_at(b, 13) == spec_negate(q.w)) by {
        lemma_word_written_last(upto3, spec_negate(q.w));
        lemma_word_survives(upto4, 13, b);
    }
    assert(spec_u32_at(b, 17) == a.x) by {
        lemma_word_written_last(upto4, a.x);
        lemma_word_survives(upto5, 17, b);
    }
    assert(spec_u32_at(b, 21) == a.z) by {
        lemma_word_written_last(upto5, a.z);
        lemma_word_survives(upto6, 21, b);
    }
    assert(spec_u32_at(b, 25) == a.y) by {
        lemma_word_written_last(upto6, a.y);
        lemma_word_survives(upto7, 25, b);
    }
    crate::math::lemma_negate_involution(q.x);
    crate::math::lemma_negate_involution(q.w);
    assert(b[0] == sample.tracker_index) by {
        assert(upto0.is_prefix_of(upto1));
        assert(upto1[0] == sample.tracker_index);
        assert(b[0] == upto1[0]);
    }
    assert(b.skip(SAMPLE_LEN as int) =~= rest);
    assert(UdpTrackerData::spec_from_bytes(b) == sample);
}

/// Four bytes written at the end read back as the number written.
proof fn lemma_word_written_last(before: Seq<u8>, x: u32)
    ensures
        spec_u32_at(before + spec_u32_to_le(x), before.len() as int) == x,
        (before + spec_u32_to_le(x)).len() == before.len() + 4,
{
    lemma_u32_at_written(before, x, Seq::empty());
    assert(before + spec_u32_to_le(x) + Seq::<u8>::empty() =~= before + spec_u32_to_le(x));
}

/// A word read inside a prefix reads the same in any sequence that starts
/// with the prefix.
proof fn lemma_word_survives(prefix: Seq<u8>, at: int, all: Seq<u8>)
    requires
        0 <= at,
        at + 4 <= prefix.len(),
        prefix.is_prefix_of(all),
    ensures
        spec_u32_at(all, at) == spec_u32_at(prefix, at),
{
    assert(all.skip(at)[0] == prefix.skip(at)[0]);
    assert(all.skip(at)[1] == prefix.skip(at)[1]);
    assert(all.skip(at)[2] == prefix.skip(at)[2]);
    assert(all.skip(at)[3] == prefix.skip(at)[3]);
}

/// Reading a written list of samples hands out the samples written and
/// arrives at the end mark. No sample may carry the index `0xff`.
pub proof fn lemma_samples_round_trip(samples: Seq<UdpTrackerData>, trailing: Seq<u8>)
    requires
        forall|i: int| 0 <= i < samples.len() ==> (#[trigger] samples[i]).tracker_index
            != END_OF_DATA,
    ensures
        spec_samples(spec_data_payload(samples) + trailing) == samples,
        spec_ends_with_mark(spec_data_payload(samples) + trailing),
    decreases samples.len(),
{
    let payload = spec_data_payload(samples) + trailing;
    if samples.len() == 0 {
        assert(payload[0] == END_OF_DATA);
        assert(spec_samples(payload) =~= samples);
    } else {
        let rest = spec_data_payload(samples.skip(1)) + trailing;
        assert(payload =~= samples[0].spec_to_bytes() + rest);
        lemma_sample_round_trip(samples[0], rest);
        assert forall|i: int| 0 <= i < samples.skip(1).len() implies (#[trigger] samples.skip(
            1,
        )[i]).tracker_index != END_OF_DATA by {
            assert(samples.skip(1)[i] == samples[i + 1]);
        }
        lemma_samples_round_trip(samples.skip(1), trailing);
        assert(seq![samples[0]] + samples.skip(1) =~= samples);
    }
}

/// Whether a device can send `packet` under `packet_number`: a handshake has
/// six address bytes and no packet number, no device reports the status
/// `TimedOut`, and the samples of a data packet are whole and closed by the
/// end mark.
pub open spec fn spec_encodable(packet: PacketView, packet_number: u32) -> bool {
    match packet {
        PacketView::Handshake { mac } => mac.len() == 6 && packet_number == 0,
        PacketView::TrackerStatus { tracker_index, tracker_status } => tracker_status
            != TrackerStatus::TimedOut,
        PacketView::TrackerData { payload } => spec_ends_with_mark(payload),
        _ => true,
    }
}

/// A data packet built from a list of samples parses as itself, and reading
/// it hands out the samples it was built from. No sample may carry the
/// index `0xff`.
pub proof fn lemma_parse_serialize_samples(samples: Seq<UdpTrackerData>, packet_number: u32)
    requires
        forall|i: int| 0 <= i < samples.len() ==> (#[trigger] samples[i]).tracker_index
            != END_OF_DATA,
    ensures
        spec_parse(
            spec_serialize(
                PacketView::TrackerData { payload: spec_data_payload(samples) },
                packet_number,
            ),
        ) == Ok::<(PacketView, u32), ParseError>(
            (PacketView::TrackerData { payload: spec_data_payload(samples) }, packet_number),
        ),
        spec_samples(spec_data_payload(samples)) == samples,
{
    lemma_samples_round_trip(samples, Seq::empty());
    assert(spec_data_payload(samples) + Seq::<u8>::empty() =~= spec_data_payload(samples));
    lemma_parse_serialize(
        PacketView::TrackerData { payload: spec_data_payload(samples) },
        packet_number,
    );
}

/// Parsing what was serialized gives back the packet and its packet number,
/// for every kind of packet.
pub proof fn lemma_parse_serialize(packet: PacketView, packet_number: u32)
    requires
        spec_encodable(packet, packet_number),
    ensures
        spec_parse(spec_serialize(packet, packet_number)) == Ok::<(PacketView, u32), ParseError>(
            (packet, packet_number),
        ),
{
    let bytes = spec_serialize(packet, packet_number);
    match packet {
        PacketView::Handshake { mac } => {
            let payload = bytes.skip(1);
            assert(payload =~= spec_device_magic() + mac);
            assert(spec_device_magic().is_prefix_of(payload));
            assert(payload.subrange(5, 11) =~= mac);
        },
        PacketView::TrackerData { payload } => {
            lemma_header_reads_back(PACKET_TRACKER_DATA, packet_number, payload);
        },
        PacketView::TrackerStatus { tracker_index, tracker_status } => {
            let payload = seq![tracker_index, tracker_status.spec_wire_code()];
            lemma_header_reads_back(PACKET_TRACKER_STATUS, packet_number, payload);
        },
        PacketView::BatteryLevel { battery_level } => {
            let payload = spec_u32_to_le(battery_level);
            lemma_header_reads_back(PACKET_BATTERY_LEVEL, packet_number, payload);
            lemma_u32_le_round_trip(battery_level);
        },
        PacketView::PingPong { id } => {
            lemma_header_reads_back(PACKET_PING_PONG, packet_number, seq![id]);
        },
    }
}

/// Behind a written header stand the tag, the packet number and the payload.
proof fn lemma_header_reads_back(tag: u8, packet_number: u32, payload: Seq<u8>)
    ensures
        (spec_header(tag, packet_number) + payload).len() == 5 + payload.len(),
        (spec_header(tag, packet_number) + payload)[0] == tag,
        spec_u32_at(spec_header(tag, packet_number) + payload, 1) == packet_number,
        (spec_header(tag, packet_number) + payload).skip(5) == payload,
{
    let bytes = spec_header(tag, packet_number) + payload;
    lemma_u32_at_written(seq![tag], packet_number, payload);
    assert(bytes.skip(5) =~= payload);
}

} // verus!
