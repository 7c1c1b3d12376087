//! Real-valued quantities as IEEE-754 binary32 bit patterns.
//!
//! The library never computes with these values; it moves them around and
//! flips their signs, which on a binary32 value is a flip of the top bit.

use vstd::prelude::*;

verus! {

/// The sign bit of a binary32 value.
pub const SIGN_BIT: u32 = 0x8000_0000;

/// Bits of `0.0`.
pub const ZERO_BITS: u32 = 0;

/// Bits of `1.0`.
pub const ONE_BITS: u32 = 0x3F80_0000;

/// The bits of `-v`, where `bits` are those of `v`.
pub open spec fn spec_negate(bits: u32) -> u32 {
    bits ^ SIGN_BIT
}

/// Negates a binary32 value given by its bits.
pub fn negate(bits: u32) -> (r: u32)
    ensures
        r == spec_negate(bits),
{
    bits ^ SIGN_BIT
}

/// Negating twice gives the value back.
pub proof fn lemma_negate_involution(bits: u32)
    ensures
        spec_negate(spec_negate(bits)) == bits,
{
    assert((bits ^ 0x8000_0000u32) ^ 0x8000_0000u32 == bits) by (bit_vector);
}

/// A three-component vector, each component a binary32 bit pattern.
#[derive(Clone, Copy, Debug, PartialEq, Eq, Structural)]
pub struct Vec3 {
    pub x: u32,
    pub y: u32,
    pub z: u32,
}

impl Vec3 {
    pub open spec fn spec_zero() -> Vec3 {
        Vec3 { x: ZERO_BITS, y: ZERO_BITS, z: ZERO_BITS }
    }

    /// The zero vector.
    pub fn zero() -> (r: Vec3)
        ensures
            r == Vec3::spec_zero(),
    {
        Vec3 { x: ZERO_BITS, y: ZERO_BITS, z: ZERO_BITS }
    }

    pub fn new(x: u32, y: u32, z: u32) -> (r: Vec3)
        ensures
            r == (Vec3 { x, y, z }),
    {
        Vec3 { x, y, z }
    }
}

/// A quaternion `(x, y, z, w)`, each component a binary32 bit pattern.
#[derive(Clone, Copy, Debug, PartialEq, Eq, Structural)]
pub struct Quat {
    pub x: u32,
    pub y: u32,
    pub z: u32,
    pub w: u32,
}

impl Quat {
    pub open spec fn spec_identity() -> Quat {
        Quat { x: ZERO_BITS, y: ZERO_BITS, z: ZERO_BITS, w: ONE_BITS }
    }

    /// The identity rotation `(0, 0, 0, 1)`.
    pub fn identity() -> (r: Quat)
        ensures
            r == Quat::spec_identity(),
    {
        Quat { x: ZERO_BITS, y: ZERO_BITS, z: ZERO_BITS, w: ONE_BITS }
    }

    pub fn from_xyzw(x: u32, y: u32, z: u32, w: u32) -> (r: Quat)
        ensures
            r == (Quat { x, y, z, w }),
    {
        Quat { x, y, z, w }
    }

    /// `(-x, -y, -z, w)`: the inverse of a rotation of unit length.
    pub open spec fn spec_conjugate(self) -> Quat {
        Quat {
            x: spec_negate(self.x),
            y: spec_negate(self.y),
            z: spec_negate(self.z),
            w: self.w,
        }
    }

    /// The conjugate, which for a unit quaternion is its inverse.
    pub fn conjugate(self) -> (r: Quat)
        ensures
            r == self.spec_conjugate(),
    {
        Quat { x: negate(self.x), y: negate(self.y), z: negate(self.z), w: self.w }
    }
}

/// Conjugating twice gives the quaternion back.
pub proof fn lemma_conjugate_involution(q: Quat)
    ensures
        q.spec_conjugate().spec_conjugate() == q,
{
    lemma_negate_involution(q.x);
    lemma_negate_involution(q.y);
    lemma_negate_involution(q.z);
}

} // verus!
