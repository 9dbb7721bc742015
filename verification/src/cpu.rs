use vstd::prelude::*;

use crate::addressing::AddressingMode;
use crate::cpu_bus::CpuBus;
use crate::flags::CpuFlags;
use crate::instructions::{
    spec_adc, spec_asl, spec_bit, spec_branch_crosses, spec_branch_target, spec_compare, spec_lsr,
    spec_php_bits, spec_plp, spec_rol, spec_ror, spec_sbc,
};
use crate::interrupts::InterruptType;
use crate::operation_codes::{
    is_penalized_op, opcode_lookup, spec_branch_cond, spec_decode, spec_is_branch_op,
    spec_is_jump_op, spec_penalized_op, OperationCode,
};

verus! {

/// The 2A03 register file, used by contracts to describe how an instruction
/// moves the CPU while leaving the bus to its own clauses.
pub struct Regs {
    pub a: u8,
    pub x: u8,
    pub y: u8,
    pub sp: u8,
    pub pc: u16,
    pub flags: CpuFlags,
}

/// The CPU: accumulator, index registers, stack pointer, program counter,
/// status flags, and the bus it drives. It is generic over the bus so the
/// same verified interpreter runs against the real decoder and the flat
/// test bus.
pub struct CPU<B: CpuBus> {
    pub register_a: u8,
    pub register_x: u8,
    pub register_y: u8,
    pub stack_pointer: u8,
    pub program_counter: u16,
    pub flags: CpuFlags,
    pub bus: B,
}

impl<B: CpuBus> CPU<B> {
    pub open spec fn wf(self) -> bool {
        self.bus.inv()
    }

    pub open spec fn regs(self) -> Regs {
        Regs {
            a: self.register_a,
            x: self.register_x,
            y: self.register_y,
            sp: self.stack_pointer,
            pc: self.program_counter,
            flags: self.flags,
        }
    }

    /// Little-endian word at `p`, the high byte taken from `p + 1` with
    /// wrap-around.
    pub open spec fn spec_mem16(self, p: u16) -> u16 {
        (self.bus.byte_at(p) + 256 * self.bus.byte_at(p.wrapping_add(1))) as u16
    }

    /// The effective address an addressing mode resolves to, with the
    /// program counter at the first operand byte. Immediate and relative
    /// modes have no address; implicit and accumulator modes resolve to 0
    /// as a placeholder.
    pub open spec fn spec_operand_addr(self, mode: AddressingMode) -> u16 {
        match mode {
            AddressingMode::Implicit => 0u16,
            AddressingMode::Accumulator => 0u16,
            AddressingMode::Immediate => self.program_counter,
            AddressingMode::Relative => self.program_counter,
            AddressingMode::ZeroPage => self.bus.byte_at(self.program_counter) as u16,
            AddressingMode::ZeroPageX => self.bus.byte_at(self.program_counter).wrapping_add(
                self.register_x,
            ) as u16,
            AddressingMode::ZeroPageY => self.bus.byte_at(self.program_counter).wrapping_add(
                self.register_y,
            ) as u16,
            AddressingMode::Absolute => self.spec_mem16(self.program_counter),
            AddressingMode::AbsoluteX => self.spec_mem16(self.program_counter).wrapping_add(
                self.register_x as u16,
            ),
            AddressingMode::AbsoluteY => self.spec_mem16(self.program_counter).wrapping_add(
                self.register_y as u16,
            ),
            AddressingMode::Indirect => self.spec_mem16(self.spec_mem16(self.program_counter)),
            AddressingMode::IndirectX => self.spec_zp_pointer(
                self.bus.byte_at(self.program_counter).wrapping_add(self.register_x),
            ),
            AddressingMode::IndirectY => self.spec_zp_pointer(
                self.bus.byte_at(self.program_counter),
            ).wrapping_add(self.register_y as u16),
        }
    }

    /// A 16-bit pointer read from page zero, whose second byte wraps within
    /// the page.
    pub open spec fn spec_zp_pointer(self, zp: u8) -> u16 {
        (self.bus.byte_at(zp as u16) + 256 * self.bus.byte_at(
            zp.wrapping_add(1) as u16,
        )) as u16
    }

    /// The operand value an addressing mode yields: the immediate byte, the
    /// accumulator, or the byte at the effective address.
    pub open spec fn spec_operand(self, mode: AddressingMode) -> u8 {
        match mode {
            AddressingMode::Implicit => 0u8,
            AddressingMode::Accumulator => self.register_a,
            AddressingMode::Immediate => self.bus.byte_at(self.program_counter),
            AddressingMode::Relative => self.bus.byte_at(self.program_counter),
            _ => self.bus.byte_at(self.spec_operand_addr(mode)),
        }
    }

    /// Zero and negative recomputed from `v`, the other flags kept.
    pub open spec fn spec_zn(f: CpuFlags, v: u8) -> CpuFlags {
        CpuFlags { z: v == 0, n: v & 0x80 != 0, ..f }
    }

    /// Construct the CPU on `bus` and run the reset sequence once: S
    /// becomes $FD, P becomes $24, the program counter is loaded from the
    /// vector at $FFFC, and seven cycles are charged.
    pub fn new(bus: B) -> (r: CPU<B>)
        requires
            bus.inv(),
        ensures
            r.wf(),
            r.register_a == 0,
            r.register_x == 0,
            r.register_y == 0,
            r.stack_pointer == 0xfd,
            r.flags == CpuFlags::spec_reset(),
            r.program_counter == (bus.byte_at(0xfffc) + 256 * bus.byte_at(0xfffd)) as u16,
            forall|a: u16| r.bus.byte_at(a) == bus.byte_at(a),
            forall|x: u16, a: u16| r.bus.writes_to(x, a) == bus.writes_to(x, a),
            r.bus.cpu_cycles() == bus.cpu_cycles().wrapping_add(7),
            bus.nmi_pending() ==> r.bus.nmi_pending(),
    {
        let mut cpu = CPU {
            register_a: 0,
            register_x: 0,
            register_y: 0,
            stack_pointer: 0xfd,
            program_counter: 0,
            flags: CpuFlags::new(),
            bus,
        };
        cpu.reset();
        cpu
    }

    pub fn mem_read(&self, pos: u16) -> (r: u8)
        requires
            self.wf(),
        ensures
            r == self.bus.byte_at(pos),
    {
        self.bus.read(pos)
    }

    pub fn mem_read_u16(&self, pos: u16) -> (r: u16)
        requires
            self.wf(),
        ensures
            r == self.spec_mem16(pos),
    {
        self.bus.read_u16(pos)
    }

    pub fn mem_write(&mut self, pos: u16, data: u8)
        requires
            old(self).wf(),
        ensures
            final(self).wf(),
            final(self).regs() == old(self).regs(),
            forall|a: u16|
                final(self).bus.byte_at(a) == (if old(self).bus.writes_to(pos, a) {
                    data
                } else {
                    old(self).bus.byte_at(a)
                }),
            forall|x: u16, a: u16|
                final(self).bus.writes_to(x, a) == old(self).bus.writes_to(x, a),
            final(self).bus.cpu_cycles() == old(self).bus.cpu_cycles(),
            final(self).bus.nmi_pending() == old(self).bus.nmi_pending(),
    {
        self.bus.write(pos, data);
    }

    pub fn set_register_a(&mut self, data: u8)
        requires
            old(self).wf(),
        ensures
            final(self).wf(),
            final(self).bus == old(self).bus,
            final(self).regs() == (Regs {
                a: data,
                flags: Self::spec_zn(old(self).flags, data),
                ..old(self).regs()
            }),
    {
        self.register_a = data;
        self.update_zero_and_negative_flags(data);
    }

    pub fn set_register_x(&mut self, data: u8)
        requires
            old(self).wf(),
        ensures
            final(self).wf(),
            final(self).bus == old(self).bus,
            final(self).regs() == (Regs {
                x: data,
                flags: Self::spec_zn(old(self).flags, data),
                ..old(self).regs()
            }),
    {
        self.register_x = data;
        self.update_zero_and_negative_flags(data);
    }

    pub fn set_register_y(&mut self, data: u8)
        requires
            old(self).wf(),
        ensures
            final(self).wf(),
            final(self).bus == old(self).bus,
            final(self).regs() == (Regs {
                y: data,
                flags: Self::spec_zn(old(self).flags, data),
                ..old(self).regs()
            }),
    {
        self.register_y = data;
        self.update_zero_and_negative_flags(data);
    }

    /// Set Z from `result == 0` and N from bit 7 of `result`.
    pub fn update_zero_and_negative_flags(&mut self, result: u8)
        requires
            old(self).wf(),
        ensures
            final(self).wf(),
            final(self).bus == old(self).bus,
            final(self).regs() == (Regs {
                flags: Self::spec_zn(old(self).flags, result),
                ..old(self).regs()
            }),
    {
        self.flags.z = result == 0;
        self.flags.n = result & 0x80 != 0;
    }

    /// The packed status byte P.
    pub fn get_status_register(&self) -> (r: u8)
        ensures
            r == self.flags.bits(),
    {
        self.flags.to_bits()
    }
}


/// One extra cycle when adding the index to `base` carries into the
/// address's high byte.
pub open spec fn spec_cross_penalty(base: u16, idx: u8) -> u8 {
    if base & 0xff00 != base.wrapping_add(idx as u16) & 0xff00 {
        1u8
    } else {
        0u8
    }
}


/// The opcodes whose instruction resolves an operand through the
/// addressing unit.
pub open spec fn spec_operand_instruction(op: u8) -> bool {
    op == 0x69 || op == 0x65 || op == 0x75 || op == 0x6d || op == 0x7d || op == 0x79 || op == 0x61 || op == 0x71 || op == 0x29 || op == 0x25 || op == 0x35 || op == 0x2d || op == 0x3d || op == 0x39 || op == 0x21 || op == 0x31 || op == 0x0a || op == 0x06 || op == 0x16 || op == 0x0e || op == 0x1e || op == 0x24 || op == 0x2c || op == 0xc9 || op == 0xc5 || op == 0xd5 || op == 0xcd || op == 0xdd || op == 0xd9 || op == 0xc1 || op == 0xd1 || op == 0xe0 || op == 0xe4 || op == 0xec || op == 0xc0 || op == 0xc4 || op == 0xcc || op == 0xc6 || op == 0xd6 || op == 0xce || op == 0xde || op == 0x49 || op == 0x45 || op == 0x55 || op == 0x4d || op == 0x5d || op == 0x59 || op == 0x41 || op == 0x51 || op == 0xe6 || op == 0xf6 || op == 0xee || op == 0xfe || op == 0xa9 || op == 0xa5 || op == 0xb5 || op == 0xad || op == 0xbd || op == 0xb9 || op == 0xa1 || op == 0xb1 || op == 0xa2 || op == 0xa6 || op == 0xb6 || op == 0xae || op == 0xbe || op == 0xa0 || op == 0xa4 || op == 0xb4 || op == 0xac || op == 0xbc || op == 0x4a || op == 0x46 || op == 0x56 || op == 0x4e || op == 0x5e || op == 0x09 || op == 0x05 || op == 0x15 || op == 0x0d || op == 0x1d || op == 0x19 || op == 0x01 || op == 0x11 || op == 0x2a || op == 0x26 || op == 0x36 || op == 0x2e || op == 0x3e || op == 0x6a || op == 0x66 || op == 0x76 || op == 0x6e || op == 0x7e || op == 0xe9 || op == 0xe5 || op == 0xf5 || op == 0xed || op == 0xfd || op == 0xf9 || op == 0xe1 || op == 0xf1 || op == 0x85 || op == 0x95 || op == 0x8d || op == 0x9d || op == 0x99 || op == 0x81 || op == 0x91 || op == 0x86 || op == 0x96 || op == 0x8e || op == 0x84 || op == 0x94 || op == 0x8c
}

/// Chained 64-bit wrapping additions collapse into one.
pub proof fn lemma_wrapping_add_u64_assoc(c: u64, x: u64, y: u64)
    requires
        x + y <= u64::MAX,
    ensures
        c.wrapping_add(x).wrapping_add(y) == c.wrapping_add((x + y) as u64),
{
}

/// Chained 16-bit wrapping additions collapse into one.
pub proof fn lemma_wrapping_add_u16_assoc(c: u16, x: u16, y: u16)
    requires
        x + y <= u16::MAX,
    ensures
        c.wrapping_add(x).wrapping_add(y) == c.wrapping_add((x + y) as u16),
{
}


impl<B: CpuBus> CPU<B> {
    /// The state an instruction body sees: the program counter moved past
    /// the opcode byte, everything else as it was.
    pub open spec fn at_operand(self) -> CPU<B> {
        CPU { program_counter: self.program_counter.wrapping_add(1), ..self }
    }

    /// The bus observes the same byte everywhere in `post` as in `pre`.
    pub open spec fn same_mem(pre: CPU<B>, post: CPU<B>) -> bool {
        forall|a: u16| post.bus.byte_at(a) == pre.bus.byte_at(a)
    }

    /// `post` observes `pre` with one write of `val` to `addr` applied.
    pub open spec fn mem_written(pre: CPU<B>, post: CPU<B>, addr: u16, val: u8) -> bool {
        forall|a: u16|
            post.bus.byte_at(a) == (if pre.bus.writes_to(addr, a) {
                val
            } else {
                pre.bus.byte_at(a)
            })
    }

    /// `post` observes `pre` with a write of `v1` to `a1` followed by one
    /// of `v2` to `a2`.
    pub open spec fn mem_written2(
        pre: CPU<B>,
        post: CPU<B>,
        a1: u16,
        v1: u8,
        a2: u16,
        v2: u8,
    ) -> bool {
        forall|a: u16|
            post.bus.byte_at(a) == (if pre.bus.writes_to(a2, a) {
                v2
            } else if pre.bus.writes_to(a1, a) {
                v1
            } else {
                pre.bus.byte_at(a)
            })
    }

    /// `post` observes `pre` with writes of `v1` to `a1`, `v2` to `a2` and
    /// `v3` to `a3`, in that order.
    pub open spec fn mem_written3(
        pre: CPU<B>,
        post: CPU<B>,
        a1: u16,
        v1: u8,
        a2: u16,
        v2: u8,
        a3: u16,
        v3: u8,
    ) -> bool {
        forall|a: u16|
            post.bus.byte_at(a) == (if pre.bus.writes_to(a3, a) {
                v3
            } else if pre.bus.writes_to(a2, a) {
                v2
            } else if pre.bus.writes_to(a1, a) {
                v1
            } else {
                pre.bus.byte_at(a)
            })
    }

    /// What each defined instruction does to the registers, flags and
    /// memory. `pre` is the state with the program counter at the first
    /// operand byte; `post` is the state the dispatcher leaves behind. The
    /// program counter and the cycle counter have their own clauses, so
    /// they are left open here except where the instruction itself ends the
    /// story (RTS and RTI).
    pub open spec fn spec_instruction_effect(pre: CPU<B>, post: CPU<B>, op: u8) -> bool {
        match spec_decode(op) {
            None => true,
            Some(info) => {
                let mode = info.0;
                let m = pre.spec_operand(mode);
                let ea = pre.spec_operand_addr(mode);
                let s0 = (0x100 + pre.stack_pointer as u16) as u16;
                let s1 = (0x100 + pre.stack_pointer.wrapping_sub(1) as u16) as u16;
                let s2 = (0x100 + pre.stack_pointer.wrapping_sub(2) as u16) as u16;
                let p1 = (0x100 + pre.stack_pointer.wrapping_add(1) as u16) as u16;
                let p2 = (0x100 + pre.stack_pointer.wrapping_add(2) as u16) as u16;
                let p3 = (0x100 + pre.stack_pointer.wrapping_add(3) as u16) as u16;
                let keep = pre.regs();
                if op == 0x69 || op == 0x65 || op == 0x75 || op == 0x6d || op == 0x7d || op == 0x79
                    || op == 0x61 || op == 0x71 {
                    // ADC
                    let rf = spec_adc(pre.flags, pre.register_a, m);
                    &&& post.regs() == (Regs {
                        pc: post.program_counter,
                        a: rf.0,
                        flags: rf.1,
                        ..keep
                    })
                    &&& Self::same_mem(pre, post)
                } else if op == 0xe9 || op == 0xe5 || op == 0xf5 || op == 0xed || op == 0xfd || op
                    == 0xf9 || op == 0xe1 || op == 0xf1 {
                    // SBC
                    let rf = spec_sbc(pre.flags, pre.register_a, m);
                    &&& post.regs() == (Regs {
                        pc: post.program_counter,
                        a: rf.0,
                        flags: rf.1,
                        ..keep
                    })
                    &&& Self::same_mem(pre, post)
                } else if op == 0x29 || op == 0x25 || op == 0x35 || op == 0x2d || op == 0x3d || op
                    == 0x39 || op == 0x21 || op == 0x31 {
                    // AND
                    &&& post.regs() == (Regs {
                        pc: post.program_counter,
                        a: pre.register_a & m,
                        flags: Self::spec_zn(pre.flags, pre.register_a & m),
                        ..keep
                    })
                    &&& Self::same_mem(pre, post)
                } else if op == 0x49 || op == 0x45 || op == 0x55 || op == 0x4d || op == 0x5d || op
                    == 0x59 || op == 0x41 || op == 0x51 {
                    // EOR
                    &&& post.regs() == (Regs {
                        pc: post.program_counter,
                        a: pre.register_a ^ m,
                        flags: Self::spec_zn(pre.flags, pre.register_a ^ m),
                        ..keep
                    })
                    &&& Self::same_mem(pre, post)
                } else if op == 0x09 || op == 0x05 || op == 0x15 || op == 0x0d || op == 0x1d || op
                    == 0x19 || op == 0x01 || op == 0x11 {
                    // ORA
                    &&& post.regs() == (Regs {
                        pc: post.program_counter,
                        a: pre.register_a | m,
                        flags: Self::spec_zn(pre.flags, pre.register_a | m),
                        ..keep
                    })
                    &&& Self::same_mem(pre, post)
                } else if op == 0x0a || op == 0x06 || op == 0x16 || op == 0x0e || op == 0x1e {
                    // ASL
                    let rf = spec_asl(pre.flags, m);
                    &&& post.regs() == (Regs {
                        pc: post.program_counter,
                        a: if mode is Accumulator {
                            rf.0
                        } else {
                            pre.register_a
                        },
                        flags: rf.1,
                        ..keep
                    })
                    &&& if mode is Accumulator {
                        Self::same_mem(pre, post)
                    } else {
                        Self::mem_written(pre, post, ea, rf.0)
                    }
                } else if op == 0x4a || op == 0x46 || op == 0x56 || op == 0x4e || op == 0x5e {
                    // LSR
                    let rf = spec_lsr(pre.flags, m);
                    &&& post.regs() == (Regs {
                        pc: post.program_counter,
                        a: if mode is Accumulator {
                            rf.0
                        } else {
                            pre.register_a
                        },
                        flags: rf.1,
                        ..keep
                    })
                    &&& if mode is Accumulator {
                        Self::same_mem(pre, post)
                    } else {
                        Self::mem_written(pre, post, ea, rf.0)
                    }
                } else if op == 0x2a || op == 0x26 || op == 0x36 || op == 0x2e || op == 0x3e {
                    // ROL
                    let rf = spec_rol(pre.flags, m);
                    &&& post.regs() == (Regs {
                        pc: post.program_counter,
                        a: if mode is Accumulator {
                            rf.0
                        } else {
                            pre.register_a
                        },
                        flags: rf.1,
                        ..keep
                    })
                    &&& if mode is Accumulator {
                        Self::same_mem(pre, post)
                    } else {
                        Self::mem_written(pre, post, ea, rf.0)
                    }
                } else if op == 0x6a || op == 0x66 || op == 0x76 || op == 0x6e || op == 0x7e {
                    // ROR
                    let rf = spec_ror(pre.flags, m);
                    &&& post.regs() == (Regs {
                        pc: post.program_counter,
                        a: if mode is Accumulator {
                            rf.0
                        } else {
                            pre.register_a
                        },
                        flags: rf.1,
                        ..keep
                    })
                    &&& if mode is Accumulator {
                        Self::same_mem(pre, post)
                    } else {
                        Self::mem_written(pre, post, ea, rf.0)
                    }
                } else if op == 0x24 || op == 0x2c {
                    // BIT
                    &&& post.regs() == (Regs {
                        pc: post.program_counter,
                        flags: spec_bit(pre.flags, pre.register_a, m),
                        ..keep
                    })
                    &&& Self::same_mem(pre, post)
                } else if spec_is_branch_op(op) {
                    // branches move only the program counter and the clock
                    &&& post.regs() == (Regs { pc: post.program_counter, ..keep })
                    &&& Self::same_mem(pre, post)
                } else if op == 0x18 {
                    // CLC
                    &&& post.regs() == (Regs {
                        pc: post.program_counter,
                        flags: CpuFlags { c: false, ..pre.flags },
                        ..keep
                    })
                    &&& Self::same_mem(pre, post)
                } else if op == 0xd8 {
                    // CLD
                    &&& post.regs() == (Regs {
                        pc: post.program_counter,
                        flags: CpuFlags { d: false, ..pre.flags },
                        ..keep
                    })
                    &&& Self::same_mem(pre, post)
                } else if op == 0x58 {
                    // CLI
                    &&& post.regs() == (Regs {
                        pc: post.program_counter,
                        flags: CpuFlags { i: false, ..pre.flags },
                        ..keep
                    })
                    &&& Self::same_mem(pre, post)
                } else if op == 0xb8 {
                    // CLV
                    &&& post.regs() == (Regs {
                        pc: post.program_counter,
                        flags: CpuFlags { v: false, ..pre.flags },
                        ..keep
                    })
                    &&& Self::same_mem(pre, post)
                } else if op == 0x38 {
                    // SEC
                    &&& post.regs() == (Regs {
                        pc: post.program_counter,
                        flags: CpuFlags { c: true, ..pre.flags },
                        ..keep
                    })
                    &&& Self::same_mem(pre, post)
                } else if op == 0xf8 {
                    // SED
                    &&& post.regs() == (Regs {
                        pc: post.program_counter,
                        flags: CpuFlags { d: true, ..pre.flags },
                        ..keep
                    })
                    &&& Self::same_mem(pre, post)
                } else if op == 0x78 {
                    // SEI
                    &&& post.regs() == (Regs {
                        pc: post.program_counter,
                        flags: CpuFlags { i: true, ..pre.flags },
                        ..keep
                    })
                    &&& Self::same_mem(pre, post)
                } else if op == 0xc9 || op == 0xc5 || op == 0xd5 || op == 0xcd || op == 0xdd || op
                    == 0xd9 || op == 0xc1 || op == 0xd1 {
                    // CMP
                    &&& post.regs() == (Regs {
                        pc: post.program_counter,
                        flags: spec_compare(pre.flags, pre.register_a, m),
                        ..keep
                    })
                    &&& Self::same_mem(pre, post)
                } else if op == 0xe0 || op == 0xe4 || op == 0xec {
                    // CPX
                    &&& post.regs() == (Regs {
                        pc: post.program_counter,
                        flags: spec_compare(pre.flags, pre.register_x, m),
                        ..keep
                    })
                    &&& Self::same_mem(pre, post)
                } else if op == 0xc0 || op == 0xc4 || op == 0xcc {
                    // CPY
                    &&& post.regs() == (Regs {
                        pc: post.program_counter,
                        flags: spec_compare(pre.flags, pre.register_y, m),
                        ..keep
                    })
                    &&& Self::same_mem(pre, post)
                } else if op == 0xc6 || op == 0xd6 || op == 0xce || op == 0xde {
                    // DEC
                    let r = pre.bus.byte_at(ea).wrapping_sub(1);
                    &&& post.regs() == (Regs {
                        pc: post.program_counter,
                        flags: Self::spec_zn(pre.flags, r),
                        ..keep
                    })
                    &&& Self::mem_written(pre, post, ea, r)
                } else if op == 0xe6 || op == 0xf6 || op == 0xee || op == 0xfe {
                    // INC
                    let r = pre.bus.byte_at(ea).wrapping_add(1);
                    &&& post.regs() == (Regs {
                        pc: post.program_counter,
                        flags: Self::spec_zn(pre.flags, r),
                        ..keep
                    })
                    &&& Self::mem_written(pre, post, ea, r)
                } else if op == 0xca {
                    // DEX
                    let r = pre.register_x.wrapping_sub(1);
                    &&& post.regs() == (Regs {
                        pc: post.program_counter,
                        x: r,
                        flags: Self::spec_zn(pre.flags, r),
                        ..keep
                    })
                    &&& Self::same_mem(pre, post)
                } else if op == 0x88 {
                    // DEY
                    let r = pre.register_y.wrapping_sub(1);
                    &&& post.regs() == (Regs {
                        pc: post.program_counter,
                        y: r,
                        flags: Self::spec_zn(pre.flags, r),
                        ..keep
                    })
                    &&& Self::same_mem(pre, post)
                } else if op == 0xe8 {
                    // INX
                    let r = pre.register_x.wrapping_add(1);
                    &&& post.regs() == (Regs {
                        pc: post.program_counter,
                        x: r,
                        flags: Self::spec_zn(pre.flags, r),
                        ..keep
                    })
                    &&& Self::same_mem(pre, post)
                } else if op == 0xc8 {
                    // INY
                    let r = pre.register_y.wrapping_add(1);
                    &&& post.regs() == (Regs {
                        pc: post.program_counter,
                        y: r,
                        flags: Self::spec_zn(pre.flags, r),
                        ..keep
                    })
                    &&& Self::same_mem(pre, post)
                } else if op == 0x4c || op == 0x6c || op == 0xea {
                    // JMP and NOP leave registers and memory alone
                    &&& post.regs() == (Regs { pc: post.program_counter, ..keep })
                    &&& Self::same_mem(pre, post)
                } else if op == 0x20 {
                    // JSR
                    let ret = pre.program_counter.wrapping_add(1);
                    &&& post.regs() == (Regs {
                        pc: post.program_counter,
                        sp: pre.stack_pointer.wrapping_sub(2),
                        ..keep
                    })
                    &&& Self::mem_written2(pre, post, s0, (ret >> 8) as u8, s1, (ret & 0xff) as u8)
                } else if op == 0xa9 || op == 0xa5 || op == 0xb5 || op == 0xad || op == 0xbd || op
                    == 0xb9 || op == 0xa1 || op == 0xb1 {
                    // LDA
                    &&& post.regs() == (Regs {
                        pc: post.program_counter,
                        a: m,
                        flags: Self::spec_zn(pre.flags, m),
                        ..keep
                    })
                    &&& Self::same_mem(pre, post)
                } else if op == 0xa2 || op == 0xa6 || op == 0xb6 || op == 0xae || op == 0xbe {
                    // LDX
                    &&& post.regs() == (Regs {
                        pc: post.program_counter,
                        x: m,
                        flags: Self::spec_zn(pre.flags, m),
                        ..keep
                    })
                    &&& Self::same_mem(pre, post)
                } else if op == 0xa0 || op == 0xa4 || op == 0xb4 || op == 0xac || op == 0xbc {
                    // LDY
                    &&& post.regs() == (Regs {
                        pc: post.program_counter,
                        y: m,
                        flags: Self::spec_zn(pre.flags, m),
                        ..keep
                    })
                    &&& Self::same_mem(pre, post)
                } else if op == 0x85 || op == 0x95 || op == 0x8d || op == 0x9d || op == 0x99 || op
                    == 0x81 || op == 0x91 {
                    // STA
                    &&& post.regs() == (Regs { pc: post.program_counter, ..keep })
                    &&& Self::mem_written(pre, post, ea, pre.register_a)
                } else if op == 0x86 || op == 0x96 || op == 0x8e {
                    // STX
                    &&& post.regs() == (Regs { pc: post.program_counter, ..keep })
                    &&& Self::mem_written(pre, post, ea, pre.register_x)
                } else if op == 0x84 || op == 0x94 || op == 0x8c {
                    // STY
                    &&& post.regs() == (Regs { pc: post.program_counter, ..keep })
                    &&& Self::mem_written(pre, post, ea, pre.register_y)
                } else if op == 0x48 {
                    // PHA
                    &&& post.regs() == (Regs {
                        pc: post.program_counter,
                        sp: pre.stack_pointer.wrapping_sub(1),
                        ..keep
                    })
                    &&& Self::mem_written(pre, post, s0, pre.register_a)
                } else if op == 0x08 {
                    // PHP
                    &&& post.regs() == (Regs {
                        pc: post.program_counter,
                        sp: pre.stack_pointer.wrapping_sub(1),
                        ..keep
                    })
                    &&& Self::mem_written(pre, post, s0, spec_php_bits(pre.flags))
                } else if op == 0x68 {
                    // PLA
                    let v = pre.bus.byte_at(p1);
                    &&& post.regs() == (Regs {
                        pc: post.program_counter,
                        a: v,
                        sp: pre.stack_pointer.wrapping_add(1),
                        flags: Self::spec_zn(pre.flags, v),
                        ..keep
                    })
                    &&& Self::same_mem(pre, post)
                } else if op == 0x28 {
                    // PLP
                    &&& post.regs() == (Regs {
                        pc: post.program_counter,
                        sp: pre.stack_pointer.wrapping_add(1),
                        flags: spec_plp(pre.flags, pre.bus.byte_at(p1)),
                        ..keep
                    })
                    &&& Self::same_mem(pre, post)
                } else if op == 0x60 {
                    // RTS, including where it resumes
                    let lo = pre.bus.byte_at(p1);
                    let hi = pre.bus.byte_at(p2);
                    &&& post.regs() == (Regs {
                        pc: ((hi * 256 + lo) as u16).wrapping_add(1),
                        sp: pre.stack_pointer.wrapping_add(2),
                        ..keep
                    })
                    &&& Self::same_mem(pre, post)
                } else if op == 0x40 {
                    // RTI, including the restored program counter and flags
                    let status = pre.bus.byte_at(p1);
                    let lo = pre.bus.byte_at(p2);
                    let hi = pre.bus.byte_at(p3);
                    &&& post.regs() == (Regs {
                        pc: (hi * 256 + lo) as u16,
                        sp: pre.stack_pointer.wrapping_add(3),
                        flags: spec_plp(pre.flags, status),
                        ..keep
                    })
                    &&& Self::same_mem(pre, post)
                } else if op == 0xaa {
                    // TAX
                    &&& post.regs() == (Regs {
                        pc: post.program_counter,
                        x: pre.register_a,
                        flags: Self::spec_zn(pre.flags, pre.register_a),
                        ..keep
                    })
                    &&& Self::same_mem(pre, post)
                } else if op == 0xa8 {
                    // TAY
                    &&& post.regs() == (Regs {
                        pc: post.program_counter,
                        y: pre.register_a,
                        flags: Self::spec_zn(pre.flags, pre.register_a),
                        ..keep
                    })
                    &&& Self::same_mem(pre, post)
                } else if op == 0xba {
                    // TSX
                    &&& post.regs() == (Regs {
                        pc: post.program_counter,
                        x: pre.stack_pointer,
                        flags: Self::spec_zn(pre.flags, pre.stack_pointer),
                        ..keep
                    })
                    &&& Self::same_mem(pre, post)
                } else if op == 0x8a {
                    // TXA
                    &&& post.regs() == (Regs {
                        pc: post.program_counter,
                        a: pre.register_x,
                        flags: Self::spec_zn(pre.flags, pre.register_x),
                        ..keep
                    })
                    &&& Self::same_mem(pre, post)
                } else if op == 0x98 {
                    // TYA
                    &&& post.regs() == (Regs {
                        pc: post.program_counter,
                        a: pre.register_y,
                        flags: Self::spec_zn(pre.flags, pre.register_y),
                        ..keep
                    })
                    &&& Self::same_mem(pre, post)
                } else if op == 0x9a {
                    // TXS
                    &&& post.regs() == (Regs {
                        pc: post.program_counter,
                        sp: pre.register_x,
                        ..keep
                    })
                    &&& Self::same_mem(pre, post)
                } else if op == 0x00 {
                    // BRK
                    let ret = pre.program_counter.wrapping_add(1);
                    &&& post.regs() == (Regs {
                        pc: post.program_counter,
                        sp: pre.stack_pointer.wrapping_sub(3),
                        flags: CpuFlags { i: true, ..pre.flags },
                        ..keep
                    })
                    &&& Self::mem_written3(
                        pre,
                        post,
                        s0,
                        (ret >> 8) as u8,
                        s1,
                        (ret & 0xff) as u8,
                        s2,
                        spec_php_bits(pre.flags),
                    )
                } else {
                    true
                }
            },
        }
    }

    /// An instruction's register and memory effect is untouched by the
    /// dispatcher's own bookkeeping: advancing the program counter and
    /// ticking the clock change neither the register file (beyond the
    /// program counter) nor a single observable byte.
    #[verifier::rlimit(100)]
    #[verifier::spinoff_prover]
    pub proof fn lemma_instruction_effect_frame(pre: CPU<B>, mid: CPU<B>, post: CPU<B>, op: u8)
        requires
            Self::spec_instruction_effect(pre, mid, op),
            post.register_a == mid.register_a,
            post.register_x == mid.register_x,
            post.register_y == mid.register_y,
            post.stack_pointer == mid.stack_pointer,
            post.flags == mid.flags,
            op == 0x60 || op == 0x40 || op == 0x00 ==> post.program_counter
                == mid.program_counter,
            forall|a: u16| post.bus.byte_at(a) == mid.bus.byte_at(a),
        ensures
            Self::spec_instruction_effect(pre, post, op),
    {
    }
}

impl<B: CpuBus> CPU<B> {
    /// The page-cross cycle a read-class indexed instruction pays; `pre`
    /// has the program counter at the first operand byte.
    pub open spec fn spec_read_penalty(pre: CPU<B>, op: u8) -> u8 {
        if !spec_penalized_op(op) {
            0u8
        } else {
            let pc1 = pre.program_counter;
            match spec_decode(op) {
                Some(info) => match info.0 {
                    AddressingMode::AbsoluteX => spec_cross_penalty(
                        pre.spec_mem16(pc1),
                        pre.register_x,
                    ),
                    AddressingMode::AbsoluteY => spec_cross_penalty(
                        pre.spec_mem16(pc1),
                        pre.register_y,
                    ),
                    AddressingMode::IndirectY => spec_cross_penalty(
                        pre.spec_zp_pointer(pre.bus.byte_at(pc1)),
                        pre.register_y,
                    ),
                    _ => 0u8,
                },
                None => 0u8,
            }
        }
    }

    /// The extra cycles a branch charges: one when taken, one more when the
    /// target sits on another page than the byte after the operand. `pre`
    /// has the program counter at the operand byte.
    pub open spec fn spec_branch_extra(pre: CPU<B>, op: u8) -> u8 {
        if spec_is_branch_op(op) && spec_branch_cond(pre.flags, op) {
            let pc_after = pre.program_counter.wrapping_add(1);
            let offset = pre.bus.byte_at(pre.program_counter);
            let target = spec_branch_target(pc_after, offset);
            if spec_branch_crosses(pc_after, target) {
                2u8
            } else {
                1u8
            }
        } else {
            0u8
        }
    }

    /// Everything one defined instruction charges: the descriptor's base
    /// cycles, the indexed-read page-cross penalty, and the branch
    /// penalties. `pre` has the program counter at the opcode byte.
    pub open spec fn spec_cycle_charge(pre: CPU<B>, op: u8) -> u8 {
        match spec_decode(op) {
            Some(info) => (info.2 + Self::spec_read_penalty(pre.at_operand(), op)
                + Self::spec_branch_extra(pre.at_operand(), op)) as u8,
            None => 0u8,
        }
    }


    /// The instructions that resolve an operand through the addressing
    /// unit: loads, stores, arithmetic, logic, compares, bit test,
    /// shifts, rotates and the memory steps. None of them places the
    /// program counter or charges cycles on its own.
    #[verifier::rlimit(100)]
    #[verifier::spinoff_prover]
    fn execute_with_operand(&mut self, operation_code: u8, op_code_info: &OperationCode)
        requires
            old(self).wf(),
            spec_operand_instruction(operation_code),
            spec_decode(operation_code) matches Some(info) && info.0
                == op_code_info.addressing_mode,
        ensures
            final(self).wf(),
            Self::spec_instruction_effect(*old(self), *final(self), operation_code),
            final(self).program_counter == old(self).program_counter,
            final(self).bus.cpu_cycles() == old(self).bus.cpu_cycles(),
            final(self).bus.nmi_pending() == old(self).bus.nmi_pending(),
    {
        match operation_code {
            // ADC - add with carry
            0x69 | 0x65 | 0x75 | 0x6d | 0x7d | 0x79 | 0x61 | 0x71 => self.adc(
                &op_code_info.addressing_mode,
            ),
            // AND - logical and
            0x29 | 0x25 | 0x35 | 0x2d | 0x3d | 0x39 | 0x21 | 0x31 => self.and(
                &op_code_info.addressing_mode,
            ),
            // ASL - arithmetic shift left
            0x0a | 0x06 | 0x16 | 0x0e | 0x1e => self.asl(&op_code_info.addressing_mode),
            // BIT - bit test
            0x24 | 0x2c => self.bit(&op_code_info.addressing_mode),
            // compares
            0xc9 | 0xc5 | 0xd5 | 0xcd | 0xdd | 0xd9 | 0xc1 | 0xd1 => self.cmp(
                &op_code_info.addressing_mode,
            ),
            0xe0 | 0xe4 | 0xec => self.cpx(&op_code_info.addressing_mode),
            0xc0 | 0xc4 | 0xcc => self.cpy(&op_code_info.addressing_mode),
            // memory and register steps
            0xc6 | 0xd6 | 0xce | 0xde => self.dec(&op_code_info.addressing_mode),
            0x49 | 0x45 | 0x55 | 0x4d | 0x5d | 0x59 | 0x41 | 0x51 => self.eor(
                &op_code_info.addressing_mode,
            ),
            0xe6 | 0xf6 | 0xee | 0xfe => self.inc(&op_code_info.addressing_mode),
            // loads
            0xa9 | 0xa5 | 0xb5 | 0xad | 0xbd | 0xb9 | 0xa1 | 0xb1 => self.lda(
                &op_code_info.addressing_mode,
            ),
            0xa2 | 0xa6 | 0xb6 | 0xae | 0xbe => self.ldx(&op_code_info.addressing_mode),
            0xa0 | 0xa4 | 0xb4 | 0xac | 0xbc => self.ldy(&op_code_info.addressing_mode),
            // LSR - logical shift right
            0x4a | 0x46 | 0x56 | 0x4e | 0x5e => self.lsr(&op_code_info.addressing_mode),
            // ORA - logical inclusive or
            0x09 | 0x05 | 0x15 | 0x0d | 0x1d | 0x19 | 0x01 | 0x11 => self.ora(
                &op_code_info.addressing_mode,
            ),
            // rotates
            0x2a | 0x26 | 0x36 | 0x2e | 0x3e => self.rol(&op_code_info.addressing_mode),
            0x6a | 0x66 | 0x76 | 0x6e | 0x7e => self.ror(&op_code_info.addressing_mode),
            // SBC - subtract with carry
            0xe9 | 0xe5 | 0xf5 | 0xed | 0xfd | 0xf9 | 0xe1 | 0xf1 => self.sbc(
                &op_code_info.addressing_mode,
            ),
            // stores
            0x85 | 0x95 | 0x8d | 0x9d | 0x99 | 0x81 | 0x91 => self.sta(
                &op_code_info.addressing_mode,
            ),
            0x86 | 0x96 | 0x8e => self.stx(&op_code_info.addressing_mode),
            0x84 | 0x94 | 0x8c => self.sty(&op_code_info.addressing_mode),
            _ => {
                proof {
                    assert(!spec_operand_instruction(operation_code));
                }
            },
        }
    }

    /// Execute one decoded instruction, with the program counter already at
    /// the operand. Returns whether the instruction placed the program
    /// counter itself (a jump, a call or a taken branch). Branches charge
    /// their own extra cycles here; everything else is charged by the
    /// caller.
    #[verifier::rlimit(100)]
    #[verifier::spinoff_prover]
    fn execute_instruction(&mut self, operation_code: u8, op_code_info: &OperationCode) -> (jumped:
        bool)
        requires
            old(self).wf(),
            operation_code != 0x00,
            spec_decode(operation_code) matches Some(info) && info.0
                == op_code_info.addressing_mode,
        ensures
            final(self).wf(),
            jumped == (spec_is_jump_op(operation_code) || (spec_is_branch_op(operation_code)
                && spec_branch_cond(old(self).flags, operation_code))),
            Self::spec_instruction_effect(*old(self), *final(self), operation_code),
            (!jumped && operation_code != 0x60 && operation_code != 0x40)
                ==> final(self).program_counter == old(self).program_counter,
            final(self).bus.cpu_cycles() == old(self).bus.cpu_cycles().wrapping_add(
                Self::spec_branch_extra(*old(self), operation_code) as u64,
            ),
            old(self).bus.nmi_pending() ==> final(self).bus.nmi_pending(),
            (spec_is_branch_op(operation_code) && spec_branch_cond(
                old(self).flags,
                operation_code,
            )) ==> final(self).program_counter == spec_branch_target(
                old(self).program_counter.wrapping_add(1),
                old(self).bus.byte_at(old(self).program_counter),
            ),
            operation_code == 0x4c || operation_code == 0x20 ==> final(self).program_counter == old(
                self,
            ).spec_mem16(old(self).program_counter),
            operation_code == 0x6c ==> ({
                let ptr = old(self).spec_mem16(old(self).program_counter);
                final(self).program_counter == (if ptr & 0x00ff == 0x00ff {
                    (old(self).bus.byte_at((ptr & 0xff00) as u16) * 256 + old(self).bus.byte_at(
                        ptr,
                    )) as u16
                } else {
                    old(self).spec_mem16(ptr)
                })
            }),
    {
        let mut is_jump = false;
        match operation_code {
            0x69 | 0x65 | 0x75 | 0x6d | 0x7d | 0x79 | 0x61 | 0x71 | 0x29 | 0x25 | 0x35 | 0x2d | 0x3d | 0x39 | 0x21 | 0x31 | 0x0a | 0x06 | 0x16 | 0x0e | 0x1e | 0x24 | 0x2c | 0xc9 | 0xc5 | 0xd5 | 0xcd | 0xdd | 0xd9 | 0xc1 | 0xd1 | 0xe0 | 0xe4 | 0xec | 0xc0 | 0xc4 | 0xcc | 0xc6 | 0xd6 | 0xce | 0xde | 0x49 | 0x45 | 0x55 | 0x4d | 0x5d | 0x59 | 0x41 | 0x51 | 0xe6 | 0xf6 | 0xee | 0xfe | 0xa9 | 0xa5 | 0xb5 | 0xad | 0xbd | 0xb9 | 0xa1 | 0xb1 | 0xa2 | 0xa6 | 0xb6 | 0xae | 0xbe | 0xa0 | 0xa4 | 0xb4 | 0xac | 0xbc | 0x4a | 0x46 | 0x56 | 0x4e | 0x5e | 0x09 | 0x05 | 0x15 | 0x0d | 0x1d | 0x19 | 0x01 | 0x11 | 0x2a | 0x26 | 0x36 | 0x2e | 0x3e | 0x6a | 0x66 | 0x76 | 0x6e | 0x7e | 0xe9 | 0xe5 | 0xf5 | 0xed | 0xfd | 0xf9 | 0xe1 | 0xf1 | 0x85 | 0x95 | 0x8d | 0x9d | 0x99 | 0x81 | 0x91 | 0x86 | 0x96 | 0x8e | 0x84 | 0x94 | 0x8c => self.execute_with_operand(
                operation_code,
                op_code_info,
            ),
            // branches
            0x90 => {
                is_jump = self.bcc();
            },
            0xb0 => {
                is_jump = self.bcs();
            },
            0xf0 => {
                is_jump = self.beq();
            },
            0x30 => {
                is_jump = self.bmi();
            },
            0xd0 => {
                is_jump = self.bne();
            },
            0x10 => {
                is_jump = self.bpl();
            },
            0x50 => {
                is_jump = self.bvc();
            },
            0x70 => {
                is_jump = self.bvs();
            },
            // flag clears and sets
            0x18 => self.clc(),
            0xd8 => self.cld(),
            0x58 => self.cli(),
            0xb8 => self.clv(),
            0x38 => self.sec(),
            0xf8 => self.sed(),
            0x78 => self.sei(),
            0xca => self.dex(),
            0x88 => self.dey(),
            0xe8 => self.inx(),
            0xc8 => self.iny(),
            // jumps
            0x4c | 0x6c => {
                self.jmp(&op_code_info.addressing_mode);
                is_jump = true;
            },
            0x20 => {
                self.jsr();
                is_jump = true;
            },
            // NOP
            0xea => self.nop(),
            // stack
            0x48 => self.pha(),
            0x08 => self.php(),
            0x68 => self.pla(),
            0x28 => self.plp(),
            // returns
            0x40 => self.rti(),
            0x60 => self.rts(),
            // transfers
            0xaa => self.tax(),
            0xa8 => self.tay(),
            0xba => self.tsx(),
            0x8a => self.txa(),
            0x9a => self.txs(),
            0x98 => self.tya(),
            _ => {
                proof {
                    assert(spec_decode(operation_code) is None);
                }
            },
        }
        is_jump
    }

    /// Everything one dispatched opcode does, as the dispatch loop sees
    /// it: how the program counter advances, what is charged, where jumps
    /// and interrupts land, and the per-opcode register and memory effect.
    pub open spec fn spec_dispatch_post(pre: CPU<B>, post: CPU<B>, op: u8) -> bool {
        // an undefined opcode only moves past itself
        &&& (spec_decode(op) is None ==> post.bus == pre.bus && post.regs() == (Regs {
            pc: pre.program_counter.wrapping_add(1),
            ..pre.regs()
        }))
        // for every defined opcode the program counter advances by the
        // descriptor's byte length, unless the instruction is a taken
        // branch, JMP, JSR, RTS, RTI or BRK
        &&& (spec_decode(op) matches Some(info) ==> ((op != 0x00 && op != 0x60 && op != 0x40
            && !spec_is_jump_op(op) && !(spec_is_branch_op(op) && spec_branch_cond(
            pre.flags,
            op,
        ))) ==> post.program_counter == pre.program_counter.wrapping_add(info.1 as u16)))
        // a defined opcode charges its base cycles plus penalties
        &&& (spec_decode(op) is Some ==> post.bus.cpu_cycles() == pre.bus.cpu_cycles().wrapping_add(
            Self::spec_cycle_charge(pre, op) as u64,
        ))
        // taken branches land on the relative target
        &&& ((spec_is_branch_op(op) && spec_branch_cond(pre.flags, op))
            ==> post.program_counter == spec_branch_target(
            pre.program_counter.wrapping_add(2),
            pre.bus.byte_at(pre.program_counter.wrapping_add(1)),
        ))
        // JMP and JSR land on their operand target
        &&& (op == 0x4c || op == 0x20 ==> post.program_counter == pre.spec_mem16(
            pre.program_counter.wrapping_add(1),
        ))
        &&& (op == 0x6c ==> ({
            let ptr = pre.spec_mem16(pre.program_counter.wrapping_add(1));
            post.program_counter == (if ptr & 0x00ff == 0x00ff {
                (pre.bus.byte_at((ptr & 0xff00) as u16) * 256 + pre.bus.byte_at(ptr)) as u16
            } else {
                pre.spec_mem16(ptr)
            })
        }))
        // BRK pushes and vectors through $FFFE with I raised
        &&& (op == 0x00 ==> post.program_counter == post.spec_mem16(0xfffe) && post.flags == (
        CpuFlags { i: true, ..pre.flags }) && post.stack_pointer == pre.stack_pointer.wrapping_sub(
            3,
        ))
        // what each instruction does to registers, flags and memory
        &&& Self::spec_instruction_effect(pre.at_operand(), post, op)
    }

    /// Decode and execute the instruction whose opcode byte was just
    /// fetched, advance the program counter past the instruction, and
    /// charge its cycles. Returns false on BRK and on an undefined opcode,
    /// which halt the dispatch loop.
    #[verifier::rlimit(100)]
    #[verifier::spinoff_prover]
    pub fn process_operation(&mut self, operation_code: u8) -> (r: bool)
        requires
            old(self).wf(),
        ensures
            final(self).wf(),
            r == (spec_decode(operation_code) is Some && operation_code != 0x00),
            Self::spec_dispatch_post(*old(self), *final(self), operation_code),
    {
        self.program_counter = self.program_counter.wrapping_add(1);
        let looked_up = opcode_lookup(operation_code);
        match looked_up {
            None => false,
            Some(op_code_info) => {
                if operation_code == 0x00 {
                    let ghost pre_exec = *self;
                    self.brk();
                    let ghost mid = *self;
                    self.bus.tick(7);
                    proof {
                        assert(pre_exec == old(self).at_operand());
                        Self::lemma_instruction_effect_frame(pre_exec, mid, *self, operation_code);
                    }
                    return false;
                }
                let penalty: u8 = if is_penalized_op(operation_code) {
                    match op_code_info.addressing_mode {
                        AddressingMode::AbsoluteX => {
                            let base = self.get_absolute_address();
                            let t = base.wrapping_add(self.register_x as u16);
                            if base & 0xff00 != t & 0xff00 {
                                1
                            } else {
                                0
                            }
                        },
                        AddressingMode::AbsoluteY => {
                            let base = self.get_absolute_address();
                            let t = base.wrapping_add(self.register_y as u16);
                            if base & 0xff00 != t & 0xff00 {
                                1
                            } else {
                                0
                            }
                        },
                        AddressingMode::IndirectY => {
                            let zp = self.mem_read(self.program_counter);
                            let lo = self.mem_read(zp as u16) as u16;
                            let hi = self.mem_read(zp.wrapping_add(1) as u16) as u16;
                            let base = hi * 256 + lo;
                            let t = base.wrapping_add(self.register_y as u16);
                            if base & 0xff00 != t & 0xff00 {
                                1
                            } else {
                                0
                            }
                        },
                        _ => 0,
                    }
                } else {
                    0
                };
                let ghost pre_exec = *self;
                let jumped = self.execute_instruction(operation_code, &op_code_info);
                let ghost mid = *self;
                if !jumped {
                    let advance: u16 = (op_code_info.bytes - 1) as u16;
                    self.program_counter = self.program_counter.wrapping_add(advance);
                    proof {
                        lemma_wrapping_add_u16_assoc(
                            old(self).program_counter,
                            1,
                            (op_code_info.bytes - 1) as u16,
                        );
                    }
                }
                self.bus.tick(op_code_info.cycles + penalty);
                proof {
                    assert(pre_exec == old(self).at_operand());
                    Self::lemma_instruction_effect_frame(pre_exec, mid, *self, operation_code);
                    lemma_wrapping_add_u16_assoc(old(self).program_counter, 1, 1);
                    lemma_wrapping_add_u64_assoc(
                        old(self).bus.cpu_cycles(),
                        Self::spec_branch_extra(old(self).at_operand(), operation_code) as u64,
                        (op_code_info.cycles + penalty) as u64,
                    );
                }
                true
            },
        }
    }
}


impl<B: CpuBus> CPU<B> {
    /// The latch-clearing read a dispatch loop makes between instructions:
    /// `post` is `pre` with the pending-NMI latch taken and nothing else
    /// changed.
    pub open spec fn spec_nmi_taken(pre: CPU<B>, post: CPU<B>) -> bool {
        &&& post.regs() == pre.regs()
        &&& !post.bus.nmi_pending()
        &&& forall|a: u16| post.bus.byte_at(a) == pre.bus.byte_at(a)
        &&& forall|x: u16, a: u16| post.bus.writes_to(x, a) == pre.bus.writes_to(x, a)
        &&& post.bus.cpu_cycles() == pre.bus.cpu_cycles()
    }

    /// One pass of a dispatch loop. With `with_nmi`, the pass first takes
    /// the NMI latch and services the interrupt if one was pending; either
    /// way it then fetches the opcode at the program counter and
    /// dispatches it. `cont` says whether the dispatcher asked to
    /// continue (false on BRK and on an undefined opcode).
    pub open spec fn spec_step(pre: CPU<B>, post: CPU<B>, cont: bool, with_nmi: bool) -> bool {
        if with_nmi {
            exists|mid1: CPU<B>, mid2: CPU<B>|
                {
                    &&& #[trigger] Self::spec_nmi_taken(pre, mid1)
                    &&& (if pre.bus.nmi_pending() {
                        Self::spec_interrupt_post(mid1, mid2, InterruptType::NMI)
                    } else {
                        mid2 == mid1
                    })
                    &&& #[trigger] Self::spec_dispatch_post(
                        mid2,
                        post,
                        mid2.bus.byte_at(mid2.program_counter),
                    )
                    &&& cont == (spec_decode(mid2.bus.byte_at(mid2.program_counter)) is Some
                        && mid2.bus.byte_at(mid2.program_counter) != 0x00)
                }
        } else {
            &&& Self::spec_dispatch_post(pre, post, pre.bus.byte_at(pre.program_counter))
            &&& cont == (spec_decode(pre.bus.byte_at(pre.program_counter)) is Some
                && pre.bus.byte_at(pre.program_counter) != 0x00)
        }
    }

    /// `n` passes of a dispatch loop from `pre` to `post`. Every pass but
    /// the last asked to continue; `halted` says the last one asked to
    /// stop.
    pub open spec fn spec_run(pre: CPU<B>, post: CPU<B>, n: nat, halted: bool, with_nmi: bool) -> bool
        decreases n,
    {
        if n == 0 {
            post == pre && !halted
        } else {
            exists|mid: CPU<B>, cont: bool|
                {
                    &&& #[trigger] Self::spec_step(pre, mid, cont, with_nmi)
                    &&& (if cont {
                        Self::spec_run(mid, post, (n - 1) as nat, halted, with_nmi)
                    } else {
                        post == mid && halted && n == 1
                    })
                }
        }
    }

    /// A run of `k` continuing passes followed by one more pass is a run of
    /// `k + 1` passes, halted exactly when the appended pass asked to stop.
    pub proof fn lemma_run_snoc(
        pre: CPU<B>,
        mid: CPU<B>,
        post: CPU<B>,
        k: nat,
        cont: bool,
        with_nmi: bool,
    )
        requires
            Self::spec_run(pre, mid, k, false, with_nmi),
            Self::spec_step(mid, post, cont, with_nmi),
        ensures
            Self::spec_run(pre, post, (k + 1) as nat, !cont, with_nmi),
        decreases k,
    {
        if k == 0 {
            assert(mid == pre);
            if cont {
                assert(Self::spec_run(post, post, 0nat, false, with_nmi));
            }
            assert(Self::spec_run(pre, post, 1nat, !cont, with_nmi));
        } else {
            let (m1, c1): (CPU<B>, bool) = choose|m1: CPU<B>, c1: bool|
                {
                    &&& #[trigger] Self::spec_step(pre, m1, c1, with_nmi)
                    &&& (if c1 {
                        Self::spec_run(m1, mid, (k - 1) as nat, false, with_nmi)
                    } else {
                        mid == m1 && false && k == 1
                    })
                };
            assert(c1);
            Self::lemma_run_snoc(m1, mid, post, (k - 1) as nat, cont, with_nmi);
            assert(Self::spec_run(pre, post, (k + 1) as nat, !cont, with_nmi));
        }
    }

    /// Run the fetch-decode-execute loop until the program counter reaches
    /// `program_end`, a halt condition (BRK or an undefined opcode) is hit,
    /// or the step budget of 2^32 - 1 instructions runs out. A pending NMI
    /// is serviced between instructions.
    pub fn interpret(&mut self, program_end: usize)
        requires
            old(self).wf(),
        ensures
            final(self).wf(),
            exists|n: nat, halted: bool|
                #![trigger Self::spec_run(*old(self), *final(self), n, halted, true)]
                {
                    &&& Self::spec_run(*old(self), *final(self), n, halted, true)
                    &&& n <= 0xffff_ffff
                    &&& (halted || n == 0xffff_ffff || final(self).program_counter >= program_end)
                },
    {
        let ghost init = *self;
        let mut fuel: u64 = 0xffff_ffff;
        while fuel > 0 && (self.program_counter as usize) < program_end
            invariant_except_break
                Self::spec_run(init, *self, (0xffff_ffff - fuel) as nat, false, true),
            invariant
                self.wf(),
                fuel <= 0xffff_ffff,
            ensures
                self.wf(),
                exists|n: nat, halted: bool|
                    #![trigger Self::spec_run(init, *self, n, halted, true)]
                    {
                        &&& Self::spec_run(init, *self, n, halted, true)
                        &&& n <= 0xffff_ffff
                        &&& (halted || n == 0xffff_ffff || self.program_counter >= program_end)
                    },
            decreases fuel,
        {
            let ghost k = (0xffff_ffff - fuel) as nat;
            let ghost pre_step = *self;
            let nmi = self.bus.fetch_nmi();
            let ghost mid1 = *self;
            if nmi.is_some() {
                self.handle_interrupt(InterruptType::NMI);
            }
            let ghost mid2 = *self;
            let operation_code = self.mem_read(self.program_counter);
            let cont = self.process_operation(operation_code);
            proof {
                assert(Self::spec_nmi_taken(pre_step, mid1));
                assert(Self::spec_dispatch_post(
                    mid2,
                    *self,
                    mid2.bus.byte_at(mid2.program_counter),
                ));
                assert(Self::spec_step(pre_step, *self, cont, true));
                Self::lemma_run_snoc(init, pre_step, *self, k, cont, true);
            }
            if !cont {
                break;
            }
            fuel = fuel - 1;
        }
    }

    /// Like `interpret`, but inclusive of `program_end`, without NMI
    /// servicing, and able to stop before executing a BRK byte, so a single
    /// instruction can be tested without falling into the interrupt
    /// sequence.
    pub fn interpret_for_test(&mut self, program_end: usize, skip_brk: bool)
        requires
            old(self).wf(),
        ensures
            final(self).wf(),
            exists|n: nat, halted: bool|
                #![trigger Self::spec_run(*old(self), *final(self), n, halted, false)]
                {
                    &&& Self::spec_run(*old(self), *final(self), n, halted, false)
                    &&& n <= 0xffff_ffff
                    &&& (halted || n == 0xffff_ffff || final(self).program_counter > program_end
                        || (skip_brk && final(self).bus.byte_at(final(self).program_counter)
                        == 0x00))
                },
    {
        let ghost init = *self;
        let mut fuel: u64 = 0xffff_ffff;
        while fuel > 0 && (self.program_counter as usize) <= program_end
            invariant_except_break
                Self::spec_run(init, *self, (0xffff_ffff - fuel) as nat, false, false),
            invariant
                self.wf(),
                fuel <= 0xffff_ffff,
            ensures
                self.wf(),
                exists|n: nat, halted: bool|
                    #![trigger Self::spec_run(init, *self, n, halted, false)]
                    {
                        &&& Self::spec_run(init, *self, n, halted, false)
                        &&& n <= 0xffff_ffff
                        &&& (halted || n == 0xffff_ffff || self.program_counter > program_end
                            || (skip_brk && self.bus.byte_at(self.program_counter) == 0x00))
                    },
            decreases fuel,
        {
            let ghost k = (0xffff_ffff - fuel) as nat;
            let ghost pre_step = *self;
            let operation_code = self.mem_read(self.program_counter);
            if operation_code == 0x00 && skip_brk {
                break;
            }
            let cont = self.process_operation(operation_code);
            proof {
                assert(Self::spec_step(pre_step, *self, cont, false));
                Self::lemma_run_snoc(init, pre_step, *self, k, cont, false);
            }
            if !cont {
                break;
            }
            fuel = fuel - 1;
        }
    }

    /// Service a pending NMI if one is latched, then execute one
    /// instruction. Returns the cycles the step consumed, and 0 only if
    /// nothing was charged (an undefined opcode).
    pub fn step_instruction(&mut self) -> (r: u64)
        requires
            old(self).wf(),
        ensures
            final(self).wf(),
            r == final(self).bus.cpu_cycles().wrapping_sub(old(self).bus.cpu_cycles()),
            exists|cont: bool|
                #![trigger Self::spec_step(*old(self), *final(self), cont, true)]
                Self::spec_step(*old(self), *final(self), cont, true),
    {
        let before = self.bus.cycles();
        let ghost pre_step = *self;
        let nmi = self.bus.fetch_nmi();
        let ghost mid1 = *self;
        if nmi.is_some() {
            self.handle_interrupt(InterruptType::NMI);
        }
        let ghost mid2 = *self;
        let operation_code = self.mem_read(self.program_counter);
        let cont = self.process_operation(operation_code);
        proof {
            assert(Self::spec_nmi_taken(pre_step, mid1));
            assert(Self::spec_dispatch_post(mid2, *self, mid2.bus.byte_at(mid2.program_counter)));
            assert(Self::spec_step(pre_step, *self, cont, true));
        }
        let after = self.bus.cycles();
        after.wrapping_sub(before)
    }

    /// Step instructions, servicing pending NMIs, until the cycle counter
    /// reaches `cycle_budget` or a halt condition is hit; at most
    /// `cycle_budget` instructions run.
    pub fn run_until(&mut self, cycle_budget: u64)
        requires
            old(self).wf(),
        ensures
            final(self).wf(),
            exists|n: nat, halted: bool|
                #![trigger Self::spec_run(*old(self), *final(self), n, halted, true)]
                {
                    &&& Self::spec_run(*old(self), *final(self), n, halted, true)
                    &&& n <= cycle_budget
                    &&& (halted || n == cycle_budget || final(self).bus.cpu_cycles()
                        >= cycle_budget)
                },
    {
        let ghost init = *self;
        let mut fuel: u64 = cycle_budget;
        while fuel > 0 && self.bus.cycles() < cycle_budget
            invariant_except_break
                Self::spec_run(init, *self, (cycle_budget - fuel) as nat, false, true),
            invariant
                self.wf(),
                fuel <= cycle_budget,
            ensures
                self.wf(),
                exists|n: nat, halted: bool|
                    #![trigger Self::spec_run(init, *self, n, halted, true)]
                    {
                        &&& Self::spec_run(init, *self, n, halted, true)
                        &&& n <= cycle_budget
                        &&& (halted || n == cycle_budget || self.bus.cpu_cycles() >= cycle_budget)
                    },
            decreases fuel,
        {
            let ghost k = (cycle_budget - fuel) as nat;
            let ghost pre_step = *self;
            let nmi = self.bus.fetch_nmi();
            let ghost mid1 = *self;
            if nmi.is_some() {
                self.handle_interrupt(InterruptType::NMI);
            }
            let ghost mid2 = *self;
            let operation_code = self.mem_read(self.program_counter);
            let cont = self.process_operation(operation_code);
            proof {
                assert(Self::spec_nmi_taken(pre_step, mid1));
                assert(Self::spec_dispatch_post(
                    mid2,
                    *self,
                    mid2.bus.byte_at(mid2.program_counter),
                ));
                assert(Self::spec_step(pre_step, *self, cont, true));
                Self::lemma_run_snoc(init, pre_step, *self, k, cont, true);
            }
            if !cont {
                break;
            }
            fuel = fuel - 1;
        }
    }
}

} // verus!
