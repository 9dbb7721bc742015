use vstd::prelude::*;

verus! {

/// The processor status register P, kept as named flags. Bits 0 through 7
/// are carry, zero, interrupt-disable, decimal, break, unused, overflow and
/// negative; `bits`/`of_bits` convert to and from the packed byte that the
/// stack sees.
#[derive(Clone, Copy, PartialEq, Eq, Structural, Debug)]
pub struct CpuFlags {
    pub c: bool,
    pub z: bool,
    pub i: bool,
    pub d: bool,
    pub b: bool,
    pub u: bool,
    pub v: bool,
    pub n: bool,
}

impl CpuFlags {
    /// The reset value $24: interrupt-disable and the unused bit.
    pub open spec fn spec_reset() -> CpuFlags {
        CpuFlags { c: false, z: false, i: true, d: false, b: false, u: true, v: false, n: false }
    }

    /// The packed status byte, flag k at bit k.
    pub open spec fn bits(self) -> u8 {
        (
        (if self.c { 1int } else { 0int }) +
        (if self.z { 2int } else { 0int }) +
        (if self.i { 4int } else { 0int }) +
        (if self.d { 8int } else { 0int }) +
        (if self.b { 16int } else { 0int }) +
        (if self.u { 32int } else { 0int }) +
        (if self.v { 64int } else { 0int }) +
        (if self.n { 128int } else { 0int })
        ) as u8
    }

    /// The flags encoded by a packed status byte.
    pub open spec fn of_bits(x: u8) -> CpuFlags {
        CpuFlags {
            c: x % 2 == 1,
            z: x / 2 % 2 == 1,
            i: x / 4 % 2 == 1,
            d: x / 8 % 2 == 1,
            b: x / 16 % 2 == 1,
            u: x / 32 % 2 == 1,
            v: x / 64 % 2 == 1,
            n: x / 128 % 2 == 1,
        }
    }

    pub fn new() -> (r: CpuFlags)
        ensures
            r == CpuFlags::spec_reset(),
    {
        CpuFlags { c: false, z: false, i: true, d: false, b: false, u: true, v: false, n: false }
    }

    pub fn to_bits(&self) -> (r: u8)
        ensures
            r == self.bits(),
    {
        let mut r: u8 = 0;
        if self.c {
            r = r + 1;
        }
        if self.z {
            r = r + 2;
        }
        if self.i {
            r = r + 4;
        }
        if self.d {
            r = r + 8;
        }
        if self.b {
            r = r + 16;
        }
        if self.u {
            r = r + 32;
        }
        if self.v {
            r = r + 64;
        }
        if self.n {
            r = r + 128;
        }
        r
    }

    pub fn from_bits(x: u8) -> (r: CpuFlags)
        ensures
            r == CpuFlags::of_bits(x),
    {
        CpuFlags {
            c: x % 2 == 1,
            z: x / 2 % 2 == 1,
            i: x / 4 % 2 == 1,
            d: x / 8 % 2 == 1,
            b: x / 16 % 2 == 1,
            u: x / 32 % 2 == 1,
            v: x / 64 % 2 == 1,
            n: x / 128 % 2 == 1,
        }
    }
}

/// Packing the flags into a byte and unpacking it again loses nothing.
pub proof fn lemma_flag_bits_roundtrip(f: CpuFlags)
    ensures
        CpuFlags::of_bits(f.bits()) == f,
{
}

/// Unpacking a byte and packing the flags again gives the byte back.
pub proof fn lemma_flag_of_bits_roundtrip(x: u8)
    ensures
        CpuFlags::of_bits(x).bits() == x,
{
    assert(x == x % 2 + 2 * (x / 2 % 2) + 4 * (x / 4 % 2) + 8 * (x / 8 % 2) + 16 * (x / 16 % 2)
        + 32 * (x / 32 % 2) + 64 * (x / 64 % 2) + 128 * ((x / 128) as int % 2)) by (bit_vector);
}

} // verus!
