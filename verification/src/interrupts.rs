use vstd::prelude::*;

use crate::cpu::{Regs, CPU};
use crate::cpu_bus::CpuBus;
use crate::flags::CpuFlags;

verus! {

/// The interrupt sources the dispatcher can service. Each carries a fixed
/// vector address, a choice of pushed B flag, and a seven-cycle cost.
#[derive(Clone, Copy, PartialEq, Eq, Structural, Debug)]
pub enum InterruptType {
    BRK,
    IRQ,
    NMI,
}

/// The vector address an interrupt loads the program counter from.
pub open spec fn spec_interrupt_vector(kind: InterruptType) -> u16 {
    match kind {
        InterruptType::BRK => 0xfffeu16,
        InterruptType::IRQ => 0xfffeu16,
        InterruptType::NMI => 0xfffau16,
    }
}

/// Whether the pushed status byte carries B set; only BRK does. The pushed
/// byte always carries U set.
pub open spec fn spec_interrupt_pushes_b(kind: InterruptType) -> bool {
    kind is BRK
}

/// The status byte an interrupt pushes: the live flags with U forced on and
/// B per the interrupt kind.
pub open spec fn spec_interrupt_status(f: CpuFlags, kind: InterruptType) -> u8 {
    CpuFlags { b: spec_interrupt_pushes_b(kind), u: true, ..f }.bits()
}

impl InterruptType {
    pub fn vector_addr(&self) -> (r: u16)
        ensures
            r == spec_interrupt_vector(*self),
    {
        match self {
            InterruptType::BRK => 0xfffe,
            InterruptType::IRQ => 0xfffe,
            InterruptType::NMI => 0xfffa,
        }
    }

    pub fn pushes_b(&self) -> (r: bool)
        ensures
            r == spec_interrupt_pushes_b(*self),
    {
        match self {
            InterruptType::BRK => true,
            InterruptType::IRQ => false,
            InterruptType::NMI => false,
        }
    }
}

impl<B: CpuBus> CPU<B> {
    /// What servicing an interrupt does: the return address pushed high
    /// byte first, then the status byte with the kind's B mask and U set,
    /// the interrupt-disable flag raised, seven cycles charged, and the
    /// program counter loaded from the kind's vector.
    pub open spec fn spec_interrupt_post(pre: CPU<B>, post: CPU<B>, interrupt: InterruptType) -> bool {
        &&& post.regs() == (Regs {
            sp: pre.stack_pointer.wrapping_sub(3),
            pc: post.program_counter,
            flags: CpuFlags { i: true, ..pre.flags },
            ..pre.regs()
        })
        &&& post.program_counter == post.spec_mem16(spec_interrupt_vector(interrupt))
        &&& forall|a: u16|
            post.bus.byte_at(a) == (if pre.bus.writes_to(
                (0x100 + pre.stack_pointer.wrapping_sub(2) as u16) as u16,
                a,
            ) {
                spec_interrupt_status(pre.flags, interrupt)
            } else if pre.bus.writes_to(
                (0x100 + pre.stack_pointer.wrapping_sub(1) as u16) as u16,
                a,
            ) {
                (pre.program_counter & 0xff) as u8
            } else if pre.bus.writes_to((0x100 + pre.stack_pointer as u16) as u16, a) {
                (pre.program_counter >> 8) as u8
            } else {
                pre.bus.byte_at(a)
            })
        &&& forall|x: u16, a: u16| post.bus.writes_to(x, a) == pre.bus.writes_to(x, a)
        &&& post.bus.cpu_cycles() == pre.bus.cpu_cycles().wrapping_add(7)
        &&& (pre.bus.nmi_pending() ==> post.bus.nmi_pending())
    }

    /// Service an interrupt: push the program counter high byte then low
    /// byte, push the status byte with the kind's B mask and U set, raise
    /// the interrupt-disable flag, charge seven cycles, and load the
    /// program counter from the kind's vector.
    pub fn handle_interrupt(&mut self, interrupt: InterruptType)
        requires
            old(self).wf(),
        ensures
            final(self).wf(),
            Self::spec_interrupt_post(*old(self), *final(self), interrupt),
    {
        self.push_stack_u16(self.program_counter);
        let mut pushed = self.flags;
        pushed.b = interrupt.pushes_b();
        pushed.u = true;
        let status = pushed.to_bits();
        self.push_stack(status);
        self.flags.i = true;
        self.bus.tick(7);
        let vector = interrupt.vector_addr();
        let target = self.bus.read_u16(vector);
        self.program_counter = target;
    }

    /// The power-on and reset sequence: no pushes, S becomes $FD, P becomes
    /// $24, the program counter is loaded from $FFFC, and seven cycles are
    /// charged.
    pub fn reset(&mut self)
        requires
            old(self).wf(),
        ensures
            final(self).wf(),
            final(self).regs() == (Regs {
                sp: 0xfdu8,
                pc: final(self).program_counter,
                flags: CpuFlags::spec_reset(),
                ..old(self).regs()
            }),
            final(self).program_counter == old(self).spec_mem16(0xfffc),
            forall|a: u16| final(self).bus.byte_at(a) == old(self).bus.byte_at(a),
            forall|x: u16, a: u16|
                final(self).bus.writes_to(x, a) == old(self).bus.writes_to(x, a),
            final(self).bus.cpu_cycles() == old(self).bus.cpu_cycles().wrapping_add(7),
            old(self).bus.nmi_pending() ==> final(self).bus.nmi_pending(),
    {
        self.stack_pointer = 0xfd;
        self.flags = CpuFlags::new();
        let target = self.bus.read_u16(0xfffc);
        self.program_counter = target;
        self.bus.tick(7);
    }
}

} // verus!
