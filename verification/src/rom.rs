use vstd::prelude::*;

verus! {

/// Nametable mirroring declared by the cartridge.
#[derive(Clone, Copy, PartialEq, Eq, Structural, Debug)]
pub enum Mirroring {
    Horizontal,
    Vertical,
    FourScreen,
    SingleScreen,
}

/// Why an iNES image was rejected.
#[derive(Clone, Copy, PartialEq, Eq, Structural, Debug)]
pub enum RomError {
    /// Missing magic, truncated data, a trainer segment, or no PRG banks.
    InvalidHeader,
    /// A mapper other than NROM.
    UnsupportedMapper(u8),
}

impl RomError {
    pub fn message(&self) -> (r: String)
        ensures
            *self is InvalidHeader ==> r@ == "Invalid NES header"@,
            *self is UnsupportedMapper ==> r@ == "Unsupported mapper"@,
    {
        match self {
            RomError::InvalidHeader => "Invalid NES header".to_string(),
            RomError::UnsupportedMapper(_) => "Unsupported mapper".to_string(),
        }
    }
}

/// A cartridge: immutable PRG and CHR ROM, 8 KiB of save RAM usable when the
/// battery bit is set, an expansion area, and the mapper id. Only NROM
/// (mapper 0) is decoded.
#[derive(Debug)]
pub struct ROM {
    pub prg_rom: Vec<u8>,
    pub chr_rom: Vec<u8>,
    pub sram: Vec<u8>,
    pub expansion: Vec<u8>,
    pub mapper: u8,
    pub mirroring: Mirroring,
    pub battery: bool,
}

/// The mapper id encoded across header bytes 6 and 7.
pub open spec fn spec_mapper_of(d: Seq<u8>) -> u8 {
    (d[7] & 0xf0) | (d[6] >> 4)
}

/// What a well-formed, loadable iNES 1.0 image looks like: the magic bytes,
/// no trainer, at least one PRG bank, an NROM mapper, and enough data to
/// cover the declared PRG and CHR sizes.
pub open spec fn spec_ines_loadable(d: Seq<u8>) -> bool {
    &&& d.len() >= 16
    &&& d[0] == 0x4eu8
    &&& d[1] == 0x45u8
    &&& d[2] == 0x53u8
    &&& d[3] == 0x1au8
    &&& d[6] & 0x04 == 0
    &&& d[4] != 0
    &&& 16 + d[4] * 16384 + d[5] * 8192 <= d.len()
    &&& spec_mapper_of(d) == 0
}

/// Whether the header fields themselves are acceptable, before the mapper is
/// looked at; an image that passes this but names a non-zero mapper is
/// rejected as unsupported rather than invalid.
pub open spec fn spec_ines_header_ok(d: Seq<u8>) -> bool {
    &&& d.len() >= 16
    &&& d[0] == 0x4eu8
    &&& d[1] == 0x45u8
    &&& d[2] == 0x53u8
    &&& d[3] == 0x1au8
    &&& d[6] & 0x04 == 0
    &&& d[4] != 0
    &&& 16 + d[4] * 16384 + d[5] * 8192 <= d.len()
}

/// The mirroring named by header byte 6.
pub open spec fn spec_mirroring_of(d: Seq<u8>) -> Mirroring {
    if d[6] & 0x08 != 0 {
        Mirroring::FourScreen
    } else if d[6] & 0x01 != 0 {
        Mirroring::Vertical
    } else {
        Mirroring::Horizontal
    }
}

/// Copy `len` bytes of `data` starting at `start` into a fresh vector.
fn copy_range(data: &[u8], start: usize, len: usize) -> (r: Vec<u8>)
    requires
        start + len <= data@.len(),
    ensures
        r@ == data@.subrange(start as int, start + len),
{
    let data_len: usize = data.len();
    let mut r: Vec<u8> = Vec::new();
    let mut i: usize = 0;
    while i < len
        invariant
            start + len <= data_len,
            data_len == data@.len(),
            i <= len,
            r@ == data@.subrange(start as int, start + i),
        decreases len - i,
    {
        let idx: usize = start + i;
        r.push(data[idx]);
        proof {
            assert(r@ =~= data@.subrange(start as int, start + i + 1));
        }
        i = i + 1;
    }
    r
}

impl ROM {
    /// Structural well-formedness: the save RAM is its full 8 KiB and the
    /// ROM banks have their declared granularity.
    pub open spec fn inv(&self) -> bool {
        &&& self.sram@.len() == 8192
        &&& self.prg_rom@.len() % 16384 == 0
        &&& self.chr_rom@.len() % 8192 == 0
    }

    /// The cartridge is an NROM one the bus can decode.
    pub open spec fn nrom(&self) -> bool {
        &&& self.mapper == 0
        &&& self.prg_rom@.len() > 0
    }

    /// The PRG byte visible at CPU address `addr`: a single 16 KiB bank is
    /// mirrored across both halves of $8000-$FFFF, larger ROMs are indexed
    /// directly (modulo their size).
    pub open spec fn spec_prg_byte(&self, addr: u16) -> u8 {
        let pa = addr - 0x8000;
        if self.prg_rom@.len() == 16384 && pa >= 16384 {
            self.prg_rom@[pa % 16384]
        } else {
            self.prg_rom@[pa % (self.prg_rom@.len() as int)]
        }
    }

    pub fn new(prg_rom: Vec<u8>, chr_rom: Vec<u8>, mapper: u8, mirroring: Mirroring, battery: bool)
        -> (r: ROM)
        ensures
            r.prg_rom == prg_rom,
            r.chr_rom == chr_rom,
            r.mapper == mapper,
            r.mirroring == mirroring,
            r.battery == battery,
            r.sram@.len() == 8192,
            forall|i: int| 0 <= i < 8192 ==> r.sram@[i] == 0u8,
            r.expansion@.len() == 0,
    {
        ROM {
            prg_rom,
            chr_rom,
            sram: vec![0u8; 8192],
            expansion: Vec::new(),
            mapper,
            mirroring,
            battery,
        }
    }

    pub fn read_prg(&self, addr: u16) -> (r: u8)
        requires
            self.inv(),
            self.nrom(),
            addr >= 0x8000,
        ensures
            r == self.spec_prg_byte(addr),
    {
        let prg_addr = (addr - 0x8000) as usize;
        if self.prg_rom.len() == 16384 && prg_addr >= 16384 {
            self.prg_rom[prg_addr % 16384]
        } else {
            self.prg_rom[prg_addr % self.prg_rom.len()]
        }
    }

    /// NROM PRG space is read-only; writes are dropped.
    pub fn write_prg(&mut self, address: u16, data: u8)
        requires
            old(self).mapper == 0,
        ensures
            *final(self) == *old(self),
    {
    }

    pub fn read_sram(&self, addr: u16) -> (r: u8)
        requires
            self.inv(),
            0x6000 <= addr < 0x8000,
        ensures
            r == (if self.battery {
                self.sram@[addr - 0x6000]
            } else {
                0u8
            }),
    {
        if self.battery {
            self.sram[(addr - 0x6000) as usize]
        } else {
            0
        }
    }

    pub fn write_sram(&mut self, addr: u16, data: u8)
        requires
            old(self).inv(),
            0x6000 <= addr < 0x8000,
        ensures
            final(self).inv(),
            final(self).sram@ == (if old(self).battery {
                old(self).sram@.update(addr - 0x6000, data)
            } else {
                old(self).sram@
            }),
            final(self).prg_rom == old(self).prg_rom,
            final(self).chr_rom == old(self).chr_rom,
            final(self).expansion == old(self).expansion,
            final(self).mapper == old(self).mapper,
            final(self).mirroring == old(self).mirroring,
            final(self).battery == old(self).battery,
    {
        if self.battery {
            self.sram[(addr - 0x6000) as usize] = data;
        }
    }

    pub fn read_expansion(&self, addr: u16) -> (r: u8)
        requires
            0x4020 <= addr < 0x6000,
        ensures
            r == (if addr - 0x4020 < self.expansion@.len() {
                self.expansion@[addr - 0x4020]
            } else {
                0u8
            }),
    {
        let off = (addr - 0x4020) as usize;
        if off < self.expansion.len() {
            self.expansion[off]
        } else {
            0
        }
    }

    pub fn write_expansion(&mut self, addr: u16, data: u8)
        requires
            0x4020 <= addr < 0x6000,
        ensures
            final(self).expansion@ == (if addr - 0x4020 < old(self).expansion@.len() {
                old(self).expansion@.update(addr - 0x4020, data)
            } else {
                old(self).expansion@
            }),
            final(self).prg_rom == old(self).prg_rom,
            final(self).chr_rom == old(self).chr_rom,
            final(self).sram == old(self).sram,
            final(self).mapper == old(self).mapper,
            final(self).mirroring == old(self).mirroring,
            final(self).battery == old(self).battery,
    {
        let off = (addr - 0x4020) as usize;
        if off < self.expansion.len() {
            self.expansion[off] = data;
        }
    }

    /// Parse an iNES 1.0 image: validate the magic, reject trainers, empty
    /// PRG, truncated data and non-NROM mappers, then slice out the PRG and
    /// CHR banks.
    pub fn from_nes_file(data: &[u8]) -> (r: Result<ROM, RomError>)
        ensures
            r is Ok <==> spec_ines_loadable(data@),
            r matches Ok(rom) ==> {
                &&& rom.inv()
                &&& rom.nrom()
                &&& rom.prg_rom@ == data@.subrange(16, 16 + data@[4] * 16384)
                &&& rom.chr_rom@ == data@.subrange(
                    16 + data@[4] * 16384,
                    16 + data@[4] * 16384 + data@[5] * 8192,
                )
                &&& rom.mapper == 0
                &&& rom.mirroring == spec_mirroring_of(data@)
                &&& rom.battery == (data@[6] & 0x02 != 0)
                &&& forall|i: int| 0 <= i < 8192 ==> rom.sram@[i] == 0u8
                &&& rom.expansion@.len() == 0
            },
            r matches Err(e) ==> e == (if spec_ines_header_ok(data@) {
                RomError::UnsupportedMapper(spec_mapper_of(data@))
            } else {
                RomError::InvalidHeader
            }),
    {
        if data.len() < 16 {
            return Err(RomError::InvalidHeader);
        }
        if !(data[0] == 0x4e && data[1] == 0x45 && data[2] == 0x53 && data[3] == 0x1a) {
            return Err(RomError::InvalidHeader);
        }
        let flags6 = data[6];
        let flags7 = data[7];
        if flags6 & 0x04 != 0 {
            // a trainer segment is not supported in this core
            return Err(RomError::InvalidHeader);
        }
        if data[4] == 0 {
            return Err(RomError::InvalidHeader);
        }
        let prg_rom_size: usize = data[4] as usize * 16384;
        let chr_rom_size: usize = data[5] as usize * 8192;
        if data.len() < 16 + prg_rom_size + chr_rom_size {
            return Err(RomError::InvalidHeader);
        }
        let mapper = (flags7 & 0xf0) | (flags6 >> 4);
        if mapper != 0 {
            return Err(RomError::UnsupportedMapper(mapper));
        }
        let mirroring = if flags6 & 0x08 != 0 {
            Mirroring::FourScreen
        } else if flags6 & 0x01 != 0 {
            Mirroring::Vertical
        } else {
            Mirroring::Horizontal
        };
        let battery = flags6 & 0x02 != 0;
        let prg_rom = copy_range(data, 16, prg_rom_size);
        let chr_rom = copy_range(data, 16 + prg_rom_size, chr_rom_size);
        Ok(ROM::new(prg_rom, chr_rom, mapper, mirroring, battery))
    }
}


/// Writing save RAM with the battery bit set and reading the same address
/// back returns the written byte.
pub proof fn lemma_sram_roundtrip(pre: ROM, post: ROM, addr: u16, data: u8)
    requires
        pre.inv(),
        pre.battery,
        0x6000 <= addr < 0x8000,
        post.battery == pre.battery,
        post.sram@ == pre.sram@.update(addr - 0x6000, data),
    ensures
        post.sram@[addr - 0x6000] == data,
{
}

} // verus!
