use vstd::prelude::*;

use crate::cpu::{Regs, CPU};
use crate::cpu_bus::CpuBus;

verus! {

impl<B: CpuBus> CPU<B> {
    /// Push a byte to page $01 at the stack pointer, then decrement it.
    pub fn push_stack(&mut self, value: u8)
        requires
            old(self).wf(),
        ensures
            final(self).wf(),
            final(self).regs() == (Regs {
                sp: old(self).stack_pointer.wrapping_sub(1),
                ..old(self).regs()
            }),
            forall|a: u16|
                final(self).bus.byte_at(a) == (if old(self).bus.writes_to(
                    (0x100 + old(self).stack_pointer as u16) as u16,
                    a,
                ) {
                    value
                } else {
                    old(self).bus.byte_at(a)
                }),
            forall|x: u16, a: u16|
                final(self).bus.writes_to(x, a) == old(self).bus.writes_to(x, a),
            final(self).bus.cpu_cycles() == old(self).bus.cpu_cycles(),
            final(self).bus.nmi_pending() == old(self).bus.nmi_pending(),
    {
        let addr: u16 = 0x100 + self.stack_pointer as u16;
        self.mem_write(addr, value);
        self.stack_pointer = self.stack_pointer.wrapping_sub(1);
    }

    /// Push a word: high byte first, so it reads back little-endian.
    pub fn push_stack_u16(&mut self, value: u16)
        requires
            old(self).wf(),
        ensures
            final(self).wf(),
            final(self).regs() == (Regs {
                sp: old(self).stack_pointer.wrapping_sub(2),
                ..old(self).regs()
            }),
            forall|a: u16|
                final(self).bus.byte_at(a) == (if old(self).bus.writes_to(
                    (0x100 + old(self).stack_pointer.wrapping_sub(1) as u16) as u16,
                    a,
                ) {
                    (value & 0xff) as u8
                } else if old(self).bus.writes_to((0x100 + old(self).stack_pointer as u16) as u16, a) {
                    (value >> 8) as u8
                } else {
                    old(self).bus.byte_at(a)
                }),
            forall|x: u16, a: u16|
                final(self).bus.writes_to(x, a) == old(self).bus.writes_to(x, a),
            final(self).bus.cpu_cycles() == old(self).bus.cpu_cycles(),
            final(self).bus.nmi_pending() == old(self).bus.nmi_pending(),
    {
        self.push_stack((value >> 8) as u8);
        self.push_stack((value & 0xff) as u8);
    }

    /// Increment the stack pointer, then read the byte it points to.
    pub fn pop_stack(&mut self) -> (r: u8)
        requires
            old(self).wf(),
        ensures
            final(self).wf(),
            final(self).bus == old(self).bus,
            final(self).regs() == (Regs {
                sp: old(self).stack_pointer.wrapping_add(1),
                ..old(self).regs()
            }),
            r == old(self).bus.byte_at((0x100 + old(self).stack_pointer.wrapping_add(1) as u16) as u16),
    {
        self.stack_pointer = self.stack_pointer.wrapping_add(1);
        let addr: u16 = 0x100 + self.stack_pointer as u16;
        self.mem_read(addr)
    }
}

/// Pushing a byte and popping it again returns the same byte and leaves the
/// stack pointer where it started: `post` is any bus in which the push has
/// landed, and the byte a pop then reads is the one pushed, because the
/// stack page is RAM.
pub proof fn lemma_push_pop_roundtrip<B: CpuBus>(pre: B, post: B, sp: u8, value: u8)
    requires
        pre.inv(),
        forall|a: u16|
            post.byte_at(a) == (if pre.writes_to((0x100 + sp as u16) as u16, a) {
                value
            } else {
                pre.byte_at(a)
            }),
    ensures
        sp.wrapping_sub(1).wrapping_add(1) == sp,
        post.byte_at((0x100 + sp.wrapping_sub(1).wrapping_add(1) as u16) as u16) == value,
{
    pre.ram_stores((0x100 + sp as u16) as u16);
}

} // verus!
