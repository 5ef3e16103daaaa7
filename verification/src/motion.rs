use vstd::prelude::*;

verus! {

/// The motion type bits of a bone controller.
#[derive(Clone, Copy, Debug)]
pub struct Motion(u32);

impl Motion {
    pub const X: u32 = 1 << 0;
    pub const Y: u32 = 1 << 1;
    pub const Z: u32 = 1 << 2;
    pub const XR: u32 = 1 << 3;
    pub const YR: u32 = 1 << 4;
    pub const ZR: u32 = 1 << 5;
    pub const LX: u32 = 1 << 6;
    pub const LY: u32 = 1 << 7;
    pub const LZ: u32 = 1 << 8;
    pub const AX: u32 = 1 << 9;
    pub const AY: u32 = 1 << 10;
    pub const AZ: u32 = 1 << 11;
    pub const AXR: u32 = 1 << 12;
    pub const AYR: u32 = 1 << 13;
    pub const AZR: u32 = 1 << 14;
    pub const TYPES: u32 = 0x7fff;
    pub const RLOOP: u32 = 1 << 15;

    /// The bits of this motion type.
    pub closed spec fn spec_bits(self) -> u32 {
        self.0
    }

    /// The motion type with exactly the given bits, known or not.
    pub fn from_bits_retain(bits: u32) -> (r: Self)
        ensures
            r.spec_bits() == bits,
    {
        Motion(bits)
    }

    pub fn bits(&self) -> (r: u32)
        ensures
            r == self.spec_bits(),
    {
        self.0
    }

    /// Whether the two motion types share at least one bit.
    pub fn intersects(&self, other: Motion) -> (r: bool)
        ensures
            r == (self.spec_bits() & other.spec_bits() != 0),
    {
        self.0 & other.0 != 0
    }

    /// The motion type with the bits of both.
    pub fn union(&self, other: Motion) -> (r: Motion)
        ensures
            r.spec_bits() == self.spec_bits() | other.spec_bits(),
    {
        Motion(self.0 | other.0)
    }
}

impl Default for Motion {
    fn default() -> (r: Self)
        ensures
            r.spec_bits() == 0,
    {
        Motion(0)
    }
}

/// `TYPES` holds the fifteen axis bits from `X` to `AZR` and nothing else; `RLOOP` is not
/// among them.
pub proof fn law_motion_types()
    ensures
        Motion::TYPES == Motion::X | Motion::Y | Motion::Z | Motion::XR | Motion::YR | Motion::ZR
            | Motion::LX | Motion::LY | Motion::LZ | Motion::AX | Motion::AY | Motion::AZ
            | Motion::AXR | Motion::AYR | Motion::AZR,
        Motion::TYPES & Motion::RLOOP == 0,
        Motion::X == 1 && Motion::Y == 2 && Motion::Z == 4 && Motion::XR == 8 && Motion::YR == 16
            && Motion::ZR == 32,
        Motion::LX == 64 && Motion::LY == 128 && Motion::LZ == 256 && Motion::AX == 512 && Motion::AY
            == 1024 && Motion::AZ == 2048,
        Motion::AXR == 4096 && Motion::AYR == 8192 && Motion::AZR == 16384,
        Motion::TYPES == 0x7fff && Motion::RLOOP == 0x8000,
{
    assert(0x7fffu32 == 1u32 | 2u32 | 4u32 | 8u32 | 16u32 | 32u32 | 64u32 | 128u32 | 256u32 | 512u32
        | 1024u32 | 2048u32 | 4096u32 | 8192u32 | 16384u32) by (bit_vector);
    assert(0x7fffu32 & 32768u32 == 0) by (bit_vector);
    assert((1u32 << 0u32) == 1u32 && (1u32 << 1u32) == 2u32 && (1u32 << 2u32) == 4u32 && (1u32 << 3u32)
        == 8u32 && (1u32 << 4u32) == 16u32 && (1u32 << 5u32) == 32u32 && (1u32 << 6u32) == 64u32 && (1u32
        << 7u32) == 128u32) by (bit_vector);
    assert((1u32 << 8u32) == 256u32 && (1u32 << 9u32) == 512u32 && (1u32 << 10u32) == 1024u32 && (1u32
        << 11u32) == 2048u32 && (1u32 << 12u32) == 4096u32 && (1u32 << 13u32) == 8192u32 && (1u32
        << 14u32) == 16384u32 && (1u32 << 15u32) == 32768u32) by (bit_vector);
}

} // verus!
