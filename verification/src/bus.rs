use vstd::prelude::*;

use crate::cpu_bus::CpuBus;
use crate::ppu::{DOTS_PER_FRAME, NMI_EDGE_DOT, PPU};
use crate::ram::{lemma_ram_mask_bound, RAM};
use crate::rom::ROM;

verus! {

/// The CPU-side address decoder. It owns the work RAM, the PPU timing
/// driver and the cartridge, folds mirrored regions, and latches the PPU's
/// NMI edge for the CPU to take between instructions.
pub struct Bus {
    pub ram: RAM,
    pub ppu: PPU,
    pub rom: ROM,
    pub nmi_interrupt: Option<u8>,
    pub cycles: u64,
}

/// Whether one of the `k` dots after clock position `c0` lands on `edge`.
pub open spec fn spec_clock_crosses(c0: int, k: int, edge: int) -> bool {
    exists|j: int| 1 <= j <= k && #[trigger] ((c0 + j) % (DOTS_PER_FRAME as int)) == edge
}

impl Bus {
    pub fn new(rom: ROM) -> (r: Bus)
        requires
            rom.inv(),
            rom.nrom(),
        ensures
            r.inv(),
            r.rom == rom,
            r.cycles == 0,
            r.nmi_interrupt is None,
            r.ppu.clock() == 0,
            !r.ppu.frame_complete,
            forall|i: int| 0 <= i < 0x800 ==> r.ram.memory@[i] == 0u8,
            forall|i: int| 0 <= i < 2048 ==> r.ppu.vram@[i] == 0u8,
    {
        Bus { ram: RAM::new(), ppu: PPU::new(), rom, nmi_interrupt: None, cycles: 0 }
    }

    pub fn get_rom_data(&self) -> (r: &[u8])
        ensures
            r@ == self.rom.prg_rom@,
    {
        self.rom.prg_rom.as_slice()
    }

    /// Charge `cycles` CPU cycles and advance the PPU clock three dots for
    /// each of them, latching the NMI edge if any dot lands on it.
    pub fn tick(&mut self, cycles: u16)
        requires
            old(self).inv(),
        ensures
            final(self).inv(),
            final(self).cycles == old(self).cycles.wrapping_add(cycles as u64),
            final(self).ppu.clock() == (old(self).ppu.clock() + 3 * cycles) % (
            DOTS_PER_FRAME as int),
            final(self).ram == old(self).ram,
            final(self).rom == old(self).rom,
            final(self).ppu.vram == old(self).ppu.vram,
            final(self).ppu.oam == old(self).ppu.oam,
            final(self).ppu.palette == old(self).ppu.palette,
            final(self).nmi_interrupt == (if spec_clock_crosses(
                old(self).ppu.clock(),
                3 * cycles,
                NMI_EDGE_DOT as int,
            ) {
                Some(0xffu8)
            } else {
                old(self).nmi_interrupt
            }),
            final(self).ppu.frame_complete == (old(self).ppu.frame_complete
                || spec_clock_crosses(old(self).ppu.clock(), 3 * cycles, 0)),
    {
        self.cycles = self.cycles.wrapping_add(cycles as u64);
        let total: u32 = cycles as u32 * 3;
        let ghost c0 = self.ppu.clock();
        let ghost nmi0 = self.nmi_interrupt;
        let ghost frame0 = self.ppu.frame_complete;
        let ghost ram0 = self.ram;
        let ghost rom0 = self.rom;
        let ghost vram0 = self.ppu.vram;
        let ghost oam0 = self.ppu.oam;
        let ghost palette0 = self.ppu.palette;
        let ghost cyc1 = self.cycles;
        let ghost m = DOTS_PER_FRAME as int;
        let mut i: u32 = 0;
        while i < total
            invariant
                self.ram.inv(),
                self.ppu.inv(),
                self.rom.inv(),
                self.rom.nrom(),
                !self.ppu.nmi_flag,
                i <= total,
                self.cycles == cyc1,
                self.ram == ram0,
                self.rom == rom0,
                self.ppu.vram == vram0,
                self.ppu.oam == oam0,
                self.ppu.palette == palette0,
                0 <= c0 < m,
                m == DOTS_PER_FRAME as int,
                self.ppu.clock() == (c0 + i) % m,
                self.nmi_interrupt == (if spec_clock_crosses(c0, i as int, NMI_EDGE_DOT as int) {
                    Some(0xffu8)
                } else {
                    nmi0
                }),
                self.ppu.frame_complete == (frame0 || spec_clock_crosses(c0, i as int, 0)),
            decreases total - i,
        {
            proof {
                vstd::arithmetic::div_mod::lemma_add_mod_noop(c0 + i, 1, m);
                assert((c0 + i) % m + 1 == (c0 + i) % m + 1int % m);
            }
            self.ppu.tick();
            let got = self.ppu.fetch_nmi();
            if got {
                self.nmi_interrupt = Some(0xff);
            }
            proof {
                let j = i + 1;
                assert(self.ppu.clock() == (c0 + j) % m);
                if got {
                    assert((c0 + j) % m == NMI_EDGE_DOT as int);
                    assert(spec_clock_crosses(c0, j as int, NMI_EDGE_DOT as int));
                } else {
                    assert(!spec_clock_crosses(c0, j as int, NMI_EDGE_DOT as int) <==> !spec_clock_crosses(c0, i as int, NMI_EDGE_DOT as int)) by {
                        assert forall|k: int|
                            1 <= k <= j && #[trigger] ((c0 + k) % m) == NMI_EDGE_DOT as int implies 1
                            <= k <= i || k == j by {}
                    }
                }
                if (c0 + j) % m == 0 {
                    assert(spec_clock_crosses(c0, j as int, 0));
                } else {
                    assert forall|k: int|
                        1 <= k <= j && #[trigger] ((c0 + k) % m) == 0 implies 1 <= k <= i by {}
                }
            }
            i = i + 1;
        }
    }
}

impl CpuBus for Bus {
    open spec fn inv(&self) -> bool {
        &&& self.ram.inv()
        &&& self.ppu.inv()
        &&& self.rom.inv()
        &&& self.rom.nrom()
        &&& !self.ppu.nmi_flag
    }

    open spec fn byte_at(&self, addr: u16) -> u8 {
        if addr < 0x2000 {
            self.ram.memory@[(addr & 0x7ff) as int]
        } else if addr < 0x4000 {
            self.ppu.vram@[(addr & 7) as int]
        } else if addr < 0x4020 {
            0u8
        } else if addr < 0x6000 {
            if addr - 0x4020 < self.rom.expansion@.len() {
                self.rom.expansion@[addr - 0x4020]
            } else {
                0u8
            }
        } else if addr < 0x8000 {
            if self.rom.battery {
                self.rom.sram@[addr - 0x6000]
            } else {
                0u8
            }
        } else {
            self.rom.spec_prg_byte(addr)
        }
    }

    open spec fn writes_to(&self, addr: u16, at: u16) -> bool {
        ||| (addr < 0x2000 && at < 0x2000 && addr & 0x7ff == at & 0x7ff)
        ||| (0x2000 <= addr < 0x4000 && 0x2000 <= at < 0x4000 && addr & 7 == at & 7)
        ||| (0x4020 <= addr < 0x6000 && at == addr && addr - 0x4020 < self.rom.expansion@.len())
        ||| (0x6000 <= addr < 0x8000 && at == addr && self.rom.battery)
    }

    open spec fn cpu_cycles(&self) -> u64 {
        self.cycles
    }

    open spec fn nmi_pending(&self) -> bool {
        self.nmi_interrupt is Some
    }

    proof fn ram_stores(&self, addr: u16) {
    }

    fn read(&self, addr: u16) -> (r: u8) {
        if addr < 0x2000 {
            // internal RAM, mirrored four times
            self.ram.read(addr)
        } else if addr < 0x4000 {
            // PPU register window
            self.ppu.read(addr)
        } else if addr < 0x4020 {
            // APU, IO and controller stubs read as zero
            0
        } else if addr < 0x6000 {
            self.rom.read_expansion(addr)
        } else if addr < 0x8000 {
            self.rom.read_sram(addr)
        } else {
            self.rom.read_prg(addr)
        }
    }

    fn write(&mut self, addr: u16, data: u8) {
        proof {
            lemma_ram_mask_bound();
            assert(forall|x: u16| #[trigger] (x & 7) < 8) by (bit_vector);
        }
        if addr < 0x2000 {
            self.ram.write(addr, data);
        } else if addr < 0x4000 {
            self.ppu.write(addr, data);
        } else if addr < 0x4020 {
            // APU, IO and controller stubs drop writes
        } else if addr < 0x6000 {
            self.rom.write_expansion(addr, data);
        } else if addr < 0x8000 {
            self.rom.write_sram(addr, data);
        } else {
            self.rom.write_prg(addr, data);
        }
    }

    fn tick(&mut self, cycles: u8) {
        Bus::tick(self, cycles as u16)
    }

    fn cycles(&self) -> (r: u64) {
        self.cycles
    }

    fn fetch_nmi(&mut self) -> (r: Option<u8>) {
        let r = self.nmi_interrupt;
        self.nmi_interrupt = None;
        r
    }

    fn read_u16(&self, addr: u16) -> (r: u16) {
        let low = <Bus as CpuBus>::read(self, addr) as u16;
        let high = <Bus as CpuBus>::read(self, addr.wrapping_add(1)) as u16;
        high * 256 + low
    }

    fn write_u16(&mut self, addr: u16, data: u16) {
        let low = (data % 256) as u8;
        let high = (data / 256) as u8;
        <Bus as CpuBus>::write(self, addr, low);
        <Bus as CpuBus>::write(self, addr.wrapping_add(1), high);
    }
}


/// Reads and writes anywhere in $0000-$1FFF behave exactly as at
/// `addr & $07FF`: the observed byte is the same, and a write lands on the
/// same cells.
pub proof fn lemma_ram_mirroring(bus: Bus, addr: u16)
    requires
        bus.inv(),
        addr < 0x2000,
    ensures
        bus.byte_at(addr) == bus.byte_at(addr & 0x7ff),
        forall|at: u16| bus.writes_to(addr, at) == bus.writes_to((addr & 0x7ff) as u16, at),
{
    crate::ram::lemma_ram_mask_bound();
    assert(forall|x: u16| #[trigger] ((x & 0x7ff) & 0x7ff) == x & 0x7ff) by (bit_vector);
}

} // verus!
