use vstd::prelude::*;

verus! {

/// Dots per scanline.
pub const DOTS_PER_LINE: u16 = 341;

/// Scanlines per frame, counting the pre-render line.
pub const LINES_PER_FRAME: u16 = 262;

/// Dots per frame: 341 * 262.
pub const DOTS_PER_FRAME: u32 = 89342;

/// The dot position at which the vertical-blank NMI edge fires:
/// scanline 241, dot 1.
pub const NMI_EDGE_DOT: u32 = 82523;

/// Picture Processing Unit, reduced to what the CPU can observe: the
/// dot/scanline clock running at three times the CPU rate, the register
/// window backed by `vram`, and the vertical-blank NMI edge.
pub struct PPU {
    pub vram: Vec<u8>,
    pub oam: Vec<u8>,
    pub palette: Vec<u8>,
    /// Current scanline, from -1 (pre-render) through 260.
    pub scanline: i16,
    /// Current dot within the scanline, 0 through 340.
    pub cycles: u16,
    pub frame_complete: bool,
    pub nmi_flag: bool,
}

impl PPU {
    pub open spec fn inv(&self) -> bool {
        &&& self.vram@.len() == 2048
        &&& self.oam@.len() == 256
        &&& self.palette@.len() == 32
        &&& -1 <= self.scanline <= 260
        &&& self.cycles <= 340
    }

    /// Total dot position within the frame, 0 through 89341; the clock the
    /// bus advances three steps per CPU cycle.
    pub open spec fn clock(&self) -> int {
        (self.scanline + 1) * 341 + self.cycles
    }

    pub fn new() -> (r: PPU)
        ensures
            r.inv(),
            forall|i: int| 0 <= i < 2048 ==> r.vram@[i] == 0u8,
            r.scanline == -1,
            r.cycles == 0,
            r.clock() == 0,
            !r.frame_complete,
            !r.nmi_flag,
    {
        PPU {
            vram: vec![0u8; 2048],
            oam: vec![0u8; 256],
            palette: vec![0u8; 32],
            scanline: -1i16,
            cycles: 0,
            frame_complete: false,
            nmi_flag: false,
        }
    }

    /// Read one of the eight register bytes; the whole $2000-$3FFF window
    /// mirrors them.
    pub fn read(&self, address: u16) -> (r: u8)
        requires
            self.inv(),
            0x2000 <= address < 0x4000,
        ensures
            r == self.vram@[(address & 7) as int],
    {
        proof {
            assert(forall|x: u16| #[trigger] (x & 7) < 8) by (bit_vector);
        }
        self.vram[(address & 7) as usize]
    }

    pub fn write(&mut self, address: u16, data: u8)
        requires
            old(self).inv(),
            0x2000 <= address < 0x4000,
        ensures
            final(self).inv(),
            final(self).vram@ == old(self).vram@.update((address & 7) as int, data),
            final(self).oam == old(self).oam,
            final(self).palette == old(self).palette,
            final(self).scanline == old(self).scanline,
            final(self).cycles == old(self).cycles,
            final(self).frame_complete == old(self).frame_complete,
            final(self).nmi_flag == old(self).nmi_flag,
    {
        proof {
            assert(forall|x: u16| #[trigger] (x & 7) < 8) by (bit_vector);
        }
        self.vram[(address & 7) as usize] = data;
    }

    /// Advance the clock by one dot. The NMI flag rises when the clock
    /// reaches scanline 241 dot 1; the frame flag rises when the clock wraps
    /// to the pre-render line.
    pub fn tick(&mut self)
        requires
            old(self).inv(),
        ensures
            final(self).inv(),
            final(self).vram == old(self).vram,
            final(self).oam == old(self).oam,
            final(self).palette == old(self).palette,
            final(self).clock() == (old(self).clock() + 1) % (DOTS_PER_FRAME as int),
            final(self).nmi_flag == (old(self).nmi_flag || final(self).clock()
                == NMI_EDGE_DOT as int),
            final(self).frame_complete == (old(self).frame_complete || final(self).clock() == 0),
    {
        if self.cycles >= 340 {
            self.cycles = 0;
            if self.scanline >= 260 {
                self.scanline = -1;
                self.frame_complete = true;
            } else {
                self.scanline = self.scanline + 1;
            }
        } else {
            self.cycles = self.cycles + 1;
            if self.scanline == 241 && self.cycles == 1 {
                self.nmi_flag = true;
            }
        }
    }

    /// Report and clear the frame-ready edge.
    pub fn is_frame_complete(&mut self) -> (r: bool)
        requires
            old(self).inv(),
        ensures
            final(self).inv(),
            r == old(self).frame_complete,
            !final(self).frame_complete,
            final(self).vram == old(self).vram,
            final(self).oam == old(self).oam,
            final(self).palette == old(self).palette,
            final(self).scanline == old(self).scanline,
            final(self).cycles == old(self).cycles,
            final(self).nmi_flag == old(self).nmi_flag,
    {
        if self.frame_complete {
            self.frame_complete = false;
            true
        } else {
            false
        }
    }

    /// Report and clear the NMI edge.
    pub fn fetch_nmi(&mut self) -> (r: bool)
        requires
            old(self).inv(),
        ensures
            final(self).inv(),
            r == old(self).nmi_flag,
            !final(self).nmi_flag,
            final(self).vram == old(self).vram,
            final(self).oam == old(self).oam,
            final(self).palette == old(self).palette,
            final(self).scanline == old(self).scanline,
            final(self).cycles == old(self).cycles,
            final(self).frame_complete == old(self).frame_complete,
    {
        if self.nmi_flag {
            self.nmi_flag = false;
            true
        } else {
            false
        }
    }
}

} // verus!
