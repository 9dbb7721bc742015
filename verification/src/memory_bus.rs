use vstd::prelude::*;

verus! {

/// A plain 64 KiB memory with byte and little-endian word access, for
/// driving code that does not need the decoder.
pub struct MemoryBus {
    pub memory: Vec<u8>,
}

impl MemoryBus {
    pub open spec fn inv(&self) -> bool {
        self.memory@.len() == 0x10000
    }

    pub fn new() -> (r: MemoryBus)
        ensures
            r.inv(),
            forall|i: int| 0 <= i < 0x10000 ==> r.memory@[i] == 0u8,
    {
        MemoryBus { memory: vec![0u8; 0x10000] }
    }

    /// Copy `rom` into memory starting at `start_address`.
    pub fn load_rom(&mut self, rom: &[u8], start_address: u16)
        requires
            old(self).inv(),
            start_address + rom@.len() <= 0x10000,
        ensures
            final(self).inv(),
            forall|a: int|
                0 <= a < 0x10000 ==> final(self).memory@[a] == (if start_address <= a
                    < start_address + rom@.len() {
                    rom@[a - start_address]
                } else {
                    old(self).memory@[a]
                }),
    {
        let ghost m0 = self.memory@;
        let mut i: usize = 0;
        while i < rom.len()
            invariant
                self.memory@.len() == 0x10000,
                i <= rom@.len(),
                start_address + rom@.len() <= 0x10000,
                m0.len() == 0x10000,
                forall|a: int|
                    0 <= a < 0x10000 ==> self.memory@[a] == (if start_address <= a < start_address
                        + i {
                        rom@[a - start_address]
                    } else {
                        m0[a]
                    }),
            decreases rom@.len() - i,
        {
            let addr: usize = start_address as usize + i;
            let ghost pre = self.memory@;
            self.memory[addr] = rom[i];
            proof {
                assert(self.memory@ == pre.update(addr as int, rom@[i as int]));
            }
            i = i + 1;
        }
    }

    pub fn read(&self, addr: u16) -> (r: u8)
        requires
            self.inv(),
        ensures
            r == self.memory@[addr as int],
    {
        self.memory[addr as usize]
    }

    pub fn write(&mut self, addr: u16, value: u8)
        requires
            old(self).inv(),
        ensures
            final(self).inv(),
            final(self).memory@ == old(self).memory@.update(addr as int, value),
    {
        self.memory[addr as usize] = value;
    }

    /// Little-endian word read; the high byte's address wraps.
    pub fn read_u16(&self, addr: u16) -> (r: u16)
        requires
            self.inv(),
        ensures
            r == self.memory@[addr as int] + 256 * self.memory@[addr.wrapping_add(1) as int],
    {
        let low = self.memory[addr as usize] as u16;
        let high = self.memory[addr.wrapping_add(1) as usize] as u16;
        high * 256 + low
    }

    /// Little-endian word write; the high byte's address wraps.
    pub fn write_u16(&mut self, addr: u16, value: u16)
        requires
            old(self).inv(),
        ensures
            final(self).inv(),
            final(self).memory@ == old(self).memory@.update(addr as int, (value % 256) as u8)
                .update(addr.wrapping_add(1) as int, (value / 256) as u8),
    {
        let low = (value % 256) as u8;
        let high = (value / 256) as u8;
        self.memory[addr as usize] = low;
        self.memory[addr.wrapping_add(1) as usize] = high;
    }
}

/// The CPU-visible memory pair of an earlier, flat machine model: 2 KiB of
/// work RAM and the program ROM image.
pub struct Memory {
    pub w_ram: Vec<u8>,
    pub prg_rom: Vec<u8>,
}

impl Memory {
    pub open spec fn inv(&self) -> bool {
        self.w_ram@.len() == 0x800
    }

    pub fn new() -> (r: Memory)
        ensures
            r.inv(),
            forall|i: int| 0 <= i < 0x800 ==> r.w_ram@[i] == 0u8,
            r.prg_rom@.len() == 0,
    {
        Memory { w_ram: vec![0u8; 0x800], prg_rom: Vec::new() }
    }

    pub fn load_rom(&mut self, rom_data: Vec<u8>)
        ensures
            final(self).w_ram == old(self).w_ram,
            final(self).prg_rom == rom_data,
    {
        self.prg_rom = rom_data;
    }
}

} // verus!
