use vstd::prelude::*;

use crate::cpu_bus::CpuBus;

verus! {

/// A flat 64 KiB bus with no decoding: every address is its own byte.
/// Used to drive the CPU in tests and to exercise programs in isolation.
pub struct MockBus {
    pub memory: Vec<u8>,
    pub nmi_interrupt: Option<u8>,
    pub cycles: u64,
}

impl MockBus {
    pub fn new() -> (r: MockBus)
        ensures
            r.inv(),
            forall|a: u16| r.byte_at(a) == 0u8,
            r.cpu_cycles() == 0,
            !r.nmi_pending(),
    {
        MockBus { memory: vec![0u8; 0x10000], nmi_interrupt: None, cycles: 0 }
    }

    /// Copy `program` into memory starting at `start_address`; everything
    /// else is untouched.
    pub fn load_program(&mut self, program: &[u8], start_address: u16)
        requires
            old(self).inv(),
            start_address + program@.len() <= 0x10000,
        ensures
            final(self).inv(),
            forall|a: u16|
                final(self).byte_at(a) == (if start_address <= a < start_address
                    + program@.len() {
                    program@[a - start_address]
                } else {
                    old(self).byte_at(a)
                }),
            final(self).cpu_cycles() == old(self).cpu_cycles(),
            final(self).nmi_pending() == old(self).nmi_pending(),
    {
        let ghost m0 = self.memory@;
        let ghost nmi0 = self.nmi_interrupt;
        let ghost cyc0 = self.cycles;
        let mut i: usize = 0;
        while i < program.len()
            invariant
                self.memory@.len() == 0x10000,
                i <= program@.len(),
                start_address + program@.len() <= 0x10000,
                self.cycles == cyc0,
                self.nmi_interrupt == nmi0,
                m0.len() == 0x10000,
                forall|a: int|
                    0 <= a < 0x10000 ==> self.memory@[a] == (if start_address <= a
                        < start_address + i {
                        program@[a - start_address]
                    } else {
                        m0[a]
                    }),
            decreases program@.len() - i,
        {
            let addr: usize = start_address as usize + i;
            let ghost pre = self.memory@;
            self.memory[addr] = program[i];
            proof {
                assert(self.memory@ == pre.update(addr as int, program@[i as int]));
            }
            i = i + 1;
        }
    }
}

impl CpuBus for MockBus {
    open spec fn inv(&self) -> bool {
        self.memory@.len() == 0x10000
    }

    open spec fn byte_at(&self, addr: u16) -> u8 {
        self.memory@[addr as int]
    }

    open spec fn writes_to(&self, addr: u16, at: u16) -> bool {
        at == addr
    }

    open spec fn cpu_cycles(&self) -> u64 {
        self.cycles
    }

    open spec fn nmi_pending(&self) -> bool {
        self.nmi_interrupt is Some
    }

    proof fn ram_stores(&self, addr: u16) {
    }

    fn read(&self, addr: u16) -> (r: u8) {
        self.memory[addr as usize]
    }

    fn write(&mut self, addr: u16, data: u8) {
        self.memory[addr as usize] = data;
    }

    fn tick(&mut self, cycles: u8) {
        self.cycles = self.cycles.wrapping_add(cycles as u64);
    }

    fn cycles(&self) -> (r: u64) {
        self.cycles
    }

    fn fetch_nmi(&mut self) -> (r: Option<u8>) {
        let r = self.nmi_interrupt;
        self.nmi_interrupt = None;
        r
    }

    fn read_u16(&self, addr: u16) -> (r: u16) {
        let low = self.memory[addr as usize] as u16;
        let high = self.memory[addr.wrapping_add(1) as usize] as u16;
        high * 256 + low
    }

    fn write_u16(&mut self, addr: u16, data: u16) {
        let low = (data % 256) as u8;
        let high = (data / 256) as u8;
        self.memory[addr as usize] = low;
        self.memory[addr.wrapping_add(1) as usize] = high;
    }
}

} // verus!
