use vstd::prelude::*;

use crate::addressing::AddressingMode;
use crate::cpu::{Regs, CPU};
use crate::cpu_bus::CpuBus;
use crate::flags::CpuFlags;

verus! {

/// ADC: result and flags for `A + M + C`. Carry out of bit 7 sets C;
/// V is set when the operands agree in sign and the result does not.
pub open spec fn spec_adc(f: CpuFlags, a: u8, m: u8) -> (u8, CpuFlags) {
    let sum = a + m + (if f.c {
        1int
    } else {
        0int
    });
    let r = (sum % 256) as u8;
    (
        r,
        CpuFlags {
            c: sum > 0xff,
            v: (!(a ^ m) & (a ^ r) & 0x80) != 0,
            z: r == 0,
            n: r & 0x80 != 0,
            ..f
        },
    )
}

/// SBC is ADC of the operand's complement; C comes out as the inverted
/// borrow.
pub open spec fn spec_sbc(f: CpuFlags, a: u8, m: u8) -> (u8, CpuFlags) {
    spec_adc(f, a, !m)
}

/// CMP/CPX/CPY: C when the register is at least the operand, Z on
/// equality, N from bit 7 of the difference.
pub open spec fn spec_compare(f: CpuFlags, reg: u8, m: u8) -> CpuFlags {
    CpuFlags { c: reg >= m, z: reg == m, n: reg.wrapping_sub(m) & 0x80 != 0, ..f }
}

/// ASL: shift left, C catches the old bit 7.
pub open spec fn spec_asl(f: CpuFlags, v: u8) -> (u8, CpuFlags) {
    let r = v << 1;
    (r, CpuFlags { c: v & 0x80 != 0, z: r == 0, n: r & 0x80 != 0, ..f })
}

/// LSR: shift right, C catches the old bit 0.
pub open spec fn spec_lsr(f: CpuFlags, v: u8) -> (u8, CpuFlags) {
    let r = v >> 1;
    (r, CpuFlags { c: v & 0x01 != 0, z: r == 0, n: r & 0x80 != 0, ..f })
}

/// ROL: rotate left through C.
pub open spec fn spec_rol(f: CpuFlags, v: u8) -> (u8, CpuFlags) {
    let r = (v << 1) | (if f.c {
        1u8
    } else {
        0u8
    });
    (r, CpuFlags { c: v & 0x80 != 0, z: r == 0, n: r & 0x80 != 0, ..f })
}

/// ROR: rotate right through C.
pub open spec fn spec_ror(f: CpuFlags, v: u8) -> (u8, CpuFlags) {
    let r = (v >> 1) | (if f.c {
        0x80u8
    } else {
        0u8
    });
    (r, CpuFlags { c: v & 0x01 != 0, z: r == 0, n: r & 0x80 != 0, ..f })
}

/// BIT: Z from `A & M`, N and V copied from bits 7 and 6 of the operand;
/// the accumulator is left alone.
pub open spec fn spec_bit(f: CpuFlags, a: u8, m: u8) -> CpuFlags {
    CpuFlags { z: a & m == 0, n: m & 0x80 != 0, v: m & 0x40 != 0, ..f }
}

/// The byte PHP pushes: the live flags with B and U forced on.
pub open spec fn spec_php_bits(f: CpuFlags) -> u8 {
    CpuFlags { b: true, u: true, ..f }.bits()
}

/// The flags PLP restores from a popped byte: everything but B and U,
/// which keep their live values.
pub open spec fn spec_plp(live: CpuFlags, x: u8) -> CpuFlags {
    CpuFlags { b: live.b, u: live.u, ..CpuFlags::of_bits(x) }
}

/// A branch target: the address after the operand plus the sign-extended
/// offset, wrapping around the address space.
pub open spec fn spec_branch_target(pc_after: u16, offset: u8) -> u16 {
    pc_after.wrapping_add(
        if offset < 0x80 {
            offset as u16
        } else {
            ((offset as u16) + 0xff00) as u16
        },
    )
}

/// Whether a taken branch lands on a different page than the byte after
/// its operand, which costs one extra cycle.
pub open spec fn spec_branch_crosses(pc_after: u16, target: u16) -> bool {
    pc_after & 0xff00 != target & 0xff00
}

impl<B: CpuBus> CPU<B> {
    /// What a branch instruction does given whether its condition held:
    /// nothing when not taken; when taken, the program counter moves to the
    /// relative target and one cycle is charged, two if the target sits on
    /// another page.
    pub open spec fn branch_post(pre: CPU<B>, post: CPU<B>, cond: bool) -> bool {
        if !cond {
            post == pre
        } else {
            let offset = pre.bus.byte_at(pre.program_counter);
            let pc_after = pre.program_counter.wrapping_add(1);
            let target = spec_branch_target(pc_after, offset);
            &&& post.regs() == (Regs { pc: target, ..pre.regs() })
            &&& forall|a: u16| post.bus.byte_at(a) == pre.bus.byte_at(a)
            &&& forall|x: u16, a: u16| post.bus.writes_to(x, a) == pre.bus.writes_to(x, a)
            &&& post.bus.cpu_cycles() == pre.bus.cpu_cycles().wrapping_add(
                if spec_branch_crosses(pc_after, target) {
                    2u64
                } else {
                    1u64
                },
            )
            &&& (pre.bus.nmi_pending() ==> post.bus.nmi_pending())
        }
    }

    /// Take the branch if `condition` holds: charge the taken cycle (and
    /// the page-cross cycle), then move the program counter.
    pub fn branch_helper(&mut self, condition: bool) -> (taken: bool)
        requires
            old(self).wf(),
        ensures
            final(self).wf(),
            taken == condition,
            Self::branch_post(*old(self), *final(self), condition),
    {
        if condition {
            let offset = self.get_relative();
            let pc_after = self.program_counter.wrapping_add(1);
            let delta: u16 = if offset < 0x80 {
                offset as u16
            } else {
                offset as u16 + 0xff00
            };
            let target = pc_after.wrapping_add(delta);
            let penalty: u8 = if (pc_after & 0xff00) != (target & 0xff00) {
                2
            } else {
                1
            };
            self.bus.tick(penalty);
            self.program_counter = target;
        }
        condition
    }

    pub fn adc(&mut self, mode: &AddressingMode)
        requires
            old(self).wf(),
        ensures
            final(self).wf(),
            final(self).bus == old(self).bus,
            final(self).regs() == (Regs {
                a: spec_adc(old(self).flags, old(self).register_a, old(self).spec_operand(*mode)).0,
                flags: spec_adc(
                    old(self).flags,
                    old(self).register_a,
                    old(self).spec_operand(*mode),
                ).1,
                ..old(self).regs()
            }),
    {
        let operand = self.get_operand(mode);
        let carry: u16 = if self.flags.c {
            1
        } else {
            0
        };
        let sum: u16 = self.register_a as u16 + operand as u16 + carry;
        let result: u8 = (sum % 256) as u8;
        let overflow = (!(self.register_a ^ operand) & (self.register_a ^ result) & 0x80) != 0;
        self.flags.c = sum > 0xff;
        self.flags.v = overflow;
        self.register_a = result;
        self.update_zero_and_negative_flags(result);
    }

    pub fn sbc(&mut self, mode: &AddressingMode)
        requires
            old(self).wf(),
        ensures
            final(self).wf(),
            final(self).bus == old(self).bus,
            final(self).regs() == (Regs {
                a: spec_sbc(old(self).flags, old(self).register_a, old(self).spec_operand(*mode)).0,
                flags: spec_sbc(
                    old(self).flags,
                    old(self).register_a,
                    old(self).spec_operand(*mode),
                ).1,
                ..old(self).regs()
            }),
    {
        let operand = self.get_operand(mode);
        let value = !operand;
        let carry: u16 = if self.flags.c {
            1
        } else {
            0
        };
        let sum: u16 = self.register_a as u16 + value as u16 + carry;
        let result: u8 = (sum % 256) as u8;
        let overflow = (!(self.register_a ^ value) & (self.register_a ^ result) & 0x80) != 0;
        self.flags.c = sum > 0xff;
        self.flags.v = overflow;
        self.register_a = result;
        self.update_zero_and_negative_flags(result);
    }

    pub fn and(&mut self, mode: &AddressingMode)
        requires
            old(self).wf(),
        ensures
            final(self).wf(),
            final(self).bus == old(self).bus,
            final(self).regs() == (Regs {
                a: old(self).register_a & old(self).spec_operand(*mode),
                flags: Self::spec_zn(
                    old(self).flags,
                    old(self).register_a & old(self).spec_operand(*mode),
                ),
                ..old(self).regs()
            }),
    {
        let operand = self.get_operand(mode);
        let value = self.register_a & operand;
        self.set_register_a(value);
    }

    pub fn eor(&mut self, mode: &AddressingMode)
        requires
            old(self).wf(),
        ensures
            final(self).wf(),
            final(self).bus == old(self).bus,
            final(self).regs() == (Regs {
                a: old(self).register_a ^ old(self).spec_operand(*mode),
                flags: Self::spec_zn(
                    old(self).flags,
                    old(self).register_a ^ old(self).spec_operand(*mode),
                ),
                ..old(self).regs()
            }),
    {
        let operand = self.get_operand(mode);
        let value = self.register_a ^ operand;
        self.set_register_a(value);
    }

    pub fn ora(&mut self, mode: &AddressingMode)
        requires
            old(self).wf(),
        ensures
            final(self).wf(),
            final(self).bus == old(self).bus,
            final(self).regs() == (Regs {
                a: old(self).register_a | old(self).spec_operand(*mode),
                flags: Self::spec_zn(
                    old(self).flags,
                    old(self).register_a | old(self).spec_operand(*mode),
                ),
                ..old(self).regs()
            }),
    {
        let operand = self.get_operand(mode);
        let value = self.register_a | operand;
        self.set_register_a(value);
    }

    pub fn asl(&mut self, mode: &AddressingMode)
        requires
            old(self).wf(),
            mode.has_address(),
            !(*mode is Implicit),
        ensures
            final(self).wf(),
            ({
                let v = old(self).spec_operand(*mode);
                let rf = spec_asl(old(self).flags, v);
                &&& final(self).regs() == (Regs {
                    a: if *mode is Accumulator {
                        rf.0
                    } else {
                        old(self).register_a
                    },
                    flags: rf.1,
                    ..old(self).regs()
                })
                &&& if *mode is Accumulator {
                    final(self).bus == old(self).bus
                } else {
                    let addr = old(self).spec_operand_addr(*mode);
                    &&& forall|a: u16|
                        final(self).bus.byte_at(a) == (if old(self).bus.writes_to(addr, a) {
                            rf.0
                        } else {
                            old(self).bus.byte_at(a)
                        })
                    &&& forall|x: u16, a: u16|
                        final(self).bus.writes_to(x, a) == old(self).bus.writes_to(x, a)
                    &&& final(self).bus.cpu_cycles() == old(self).bus.cpu_cycles()
                    &&& final(self).bus.nmi_pending() == old(self).bus.nmi_pending()
                }
            }),
    {
        match mode {
            AddressingMode::Accumulator => {
                let value = self.get_accumulator();
                self.flags.c = value & 0x80 != 0;
                let result = value << 1;
                self.register_a = result;
                self.update_zero_and_negative_flags(result);
            },
            _ => {
                let addr = self.get_address(mode);
                let value = self.mem_read(addr);
                self.flags.c = value & 0x80 != 0;
                let result = value << 1;
                self.mem_write(addr, result);
                self.update_zero_and_negative_flags(result);
            },
        }
    }

    pub fn lsr(&mut self, mode: &AddressingMode)
        requires
            old(self).wf(),
            mode.has_address(),
            !(*mode is Implicit),
        ensures
            final(self).wf(),
            ({
                let v = old(self).spec_operand(*mode);
                let rf = spec_lsr(old(self).flags, v);
                &&& final(self).regs() == (Regs {
                    a: if *mode is Accumulator {
                        rf.0
                    } else {
                        old(self).register_a
                    },
                    flags: rf.1,
                    ..old(self).regs()
                })
                &&& if *mode is Accumulator {
                    final(self).bus == old(self).bus
                } else {
                    let addr = old(self).spec_operand_addr(*mode);
                    &&& forall|a: u16|
                        final(self).bus.byte_at(a) == (if old(self).bus.writes_to(addr, a) {
                            rf.0
                        } else {
                            old(self).bus.byte_at(a)
                        })
                    &&& forall|x: u16, a: u16|
                        final(self).bus.writes_to(x, a) == old(self).bus.writes_to(x, a)
                    &&& final(self).bus.cpu_cycles() == old(self).bus.cpu_cycles()
                    &&& final(self).bus.nmi_pending() == old(self).bus.nmi_pending()
                }
            }),
    {
        match mode {
            AddressingMode::Accumulator => {
                let value = self.register_a;
                self.flags.c = value & 0x01 != 0;
                let result = value >> 1;
                self.register_a = result;
                self.update_zero_and_negative_flags(result);
            },
            _ => {
                let addr = self.get_address(mode);
                let value = self.mem_read(addr);
                self.flags.c = value & 0x01 != 0;
                let result = value >> 1;
                self.mem_write(addr, result);
                self.update_zero_and_negative_flags(result);
            },
        }
    }

    pub fn rol(&mut self, mode: &AddressingMode)
        requires
            old(self).wf(),
            mode.has_address(),
            !(*mode is Implicit),
        ensures
            final(self).wf(),
            ({
                let v = old(self).spec_operand(*mode);
                let rf = spec_rol(old(self).flags, v);
                &&& final(self).regs() == (Regs {
                    a: if *mode is Accumulator {
                        rf.0
                    } else {
                        old(self).register_a
                    },
                    flags: rf.1,
                    ..old(self).regs()
                })
                &&& if *mode is Accumulator {
                    final(self).bus == old(self).bus
                } else {
                    let addr = old(self).spec_operand_addr(*mode);
                    &&& forall|a: u16|
                        final(self).bus.byte_at(a) == (if old(self).bus.writes_to(addr, a) {
                            rf.0
                        } else {
                            old(self).bus.byte_at(a)
                        })
                    &&& forall|x: u16, a: u16|
                        final(self).bus.writes_to(x, a) == old(self).bus.writes_to(x, a)
                    &&& final(self).bus.cpu_cycles() == old(self).bus.cpu_cycles()
                    &&& final(self).bus.nmi_pending() == old(self).bus.nmi_pending()
                }
            }),
    {
        let carry: u8 = if self.flags.c {
            1
        } else {
            0
        };
        match mode {
            AddressingMode::Accumulator => {
                let value = self.register_a;
                let result = (value << 1) | carry;
                self.flags.c = value & 0x80 != 0;
                self.register_a = result;
                self.update_zero_and_negative_flags(result);
            },
            _ => {
                let addr = self.get_address(mode);
                let value = self.mem_read(addr);
                let result = (value << 1) | carry;
                self.flags.c = value & 0x80 != 0;
                self.mem_write(addr, result);
                self.update_zero_and_negative_flags(result);
            },
        }
    }

    pub fn ror(&mut self, mode: &AddressingMode)
        requires
            old(self).wf(),
            mode.has_address(),
            !(*mode is Implicit),
        ensures
            final(self).wf(),
            ({
                let v = old(self).spec_operand(*mode);
                let rf = spec_ror(old(self).flags, v);
                &&& final(self).regs() == (Regs {
                    a: if *mode is Accumulator {
                        rf.0
                    } else {
                        old(self).register_a
                    },
                    flags: rf.1,
                    ..old(self).regs()
                })
                &&& if *mode is Accumulator {
                    final(self).bus == old(self).bus
                } else {
                    let addr = old(self).spec_operand_addr(*mode);
                    &&& forall|a: u16|
                        final(self).bus.byte_at(a) == (if old(self).bus.writes_to(addr, a) {
                            rf.0
                        } else {
                            old(self).bus.byte_at(a)
                        })
                    &&& forall|x: u16, a: u16|
                        final(self).bus.writes_to(x, a) == old(self).bus.writes_to(x, a)
                    &&& final(self).bus.cpu_cycles() == old(self).bus.cpu_cycles()
                    &&& final(self).bus.nmi_pending() == old(self).bus.nmi_pending()
                }
            }),
    {
        let carry: u8 = if self.flags.c {
            0x80
        } else {
            0
        };
        match mode {
            AddressingMode::Accumulator => {
                let value = self.register_a;
                let result = (value >> 1) | carry;
                self.flags.c = value & 0x01 != 0;
                self.register_a = result;
                self.update_zero_and_negative_flags(result);
            },
            _ => {
                let addr = self.get_address(mode);
                let value = self.mem_read(addr);
                let result = (value >> 1) | carry;
                self.flags.c = value & 0x01 != 0;
                self.mem_write(addr, result);
                self.update_zero_and_negative_flags(result);
            },
        }
    }

    pub fn dec(&mut self, mode: &AddressingMode)
        requires
            old(self).wf(),
            mode.has_address(),
        ensures
            final(self).wf(),
            ({
                let addr = old(self).spec_operand_addr(*mode);
                let r = old(self).bus.byte_at(addr).wrapping_sub(1);
                &&& final(self).regs() == (Regs {
                    flags: Self::spec_zn(old(self).flags, r),
                    ..old(self).regs()
                })
                &&& forall|a: u16|
                    final(self).bus.byte_at(a) == (if old(self).bus.writes_to(addr, a) {
                        r
                    } else {
                        old(self).bus.byte_at(a)
                    })
                &&& forall|x: u16, a: u16|
                    final(self).bus.writes_to(x, a) == old(self).bus.writes_to(x, a)
                &&& final(self).bus.cpu_cycles() == old(self).bus.cpu_cycles()
                &&& final(self).bus.nmi_pending() == old(self).bus.nmi_pending()
            }),
    {
        let address = self.get_address(mode);
        let value = self.mem_read(address);
        let result = value.wrapping_sub(1);
        self.mem_write(address, result);
        self.update_zero_and_negative_flags(result);
    }

    pub fn inc(&mut self, mode: &AddressingMode)
        requires
            old(self).wf(),
            mode.has_address(),
        ensures
            final(self).wf(),
            ({
                let addr = old(self).spec_operand_addr(*mode);
                let r = old(self).bus.byte_at(addr).wrapping_add(1);
                &&& final(self).regs() == (Regs {
                    flags: Self::spec_zn(old(self).flags, r),
                    ..old(self).regs()
                })
                &&& forall|a: u16|
                    final(self).bus.byte_at(a) == (if old(self).bus.writes_to(addr, a) {
                        r
                    } else {
                        old(self).bus.byte_at(a)
                    })
                &&& forall|x: u16, a: u16|
                    final(self).bus.writes_to(x, a) == old(self).bus.writes_to(x, a)
                &&& final(self).bus.cpu_cycles() == old(self).bus.cpu_cycles()
                &&& final(self).bus.nmi_pending() == old(self).bus.nmi_pending()
            }),
    {
        let address = self.get_address(mode);
        let value = self.mem_read(address);
        let result = value.wrapping_add(1);
        self.mem_write(address, result);
        self.update_zero_and_negative_flags(result);
    }

    pub fn cmp(&mut self, mode: &AddressingMode)
        requires
            old(self).wf(),
        ensures
            final(self).wf(),
            final(self).bus == old(self).bus,
            final(self).regs() == (Regs {
                flags: spec_compare(
                    old(self).flags,
                    old(self).register_a,
                    old(self).spec_operand(*mode),
                ),
                ..old(self).regs()
            }),
    {
        let value = self.get_operand(mode);
        let result = self.register_a.wrapping_sub(value);
        self.flags.c = self.register_a >= value;
        self.flags.z = self.register_a == value;
        self.flags.n = result & 0x80 != 0;
    }

    pub fn cpx(&mut self, mode: &AddressingMode)
        requires
            old(self).wf(),
        ensures
            final(self).wf(),
            final(self).bus == old(self).bus,
            final(self).regs() == (Regs {
                flags: spec_compare(
                    old(self).flags,
                    old(self).register_x,
                    old(self).spec_operand(*mode),
                ),
                ..old(self).regs()
            }),
    {
        let value = self.get_operand(mode);
        let result = self.register_x.wrapping_sub(value);
        self.flags.c = self.register_x >= value;
        self.flags.z = self.register_x == value;
        self.flags.n = result & 0x80 != 0;
    }

    pub fn cpy(&mut self, mode: &AddressingMode)
        requires
            old(self).wf(),
        ensures
            final(self).wf(),
            final(self).bus == old(self).bus,
            final(self).regs() == (Regs {
                flags: spec_compare(
                    old(self).flags,
                    old(self).register_y,
                    old(self).spec_operand(*mode),
                ),
                ..old(self).regs()
            }),
    {
        let value = self.get_operand(mode);
        let result = self.register_y.wrapping_sub(value);
        self.flags.c = self.register_y >= value;
        self.flags.z = self.register_y == value;
        self.flags.n = result & 0x80 != 0;
    }

    pub fn bit(&mut self, mode: &AddressingMode)
        requires
            old(self).wf(),
        ensures
            final(self).wf(),
            final(self).bus == old(self).bus,
            final(self).regs() == (Regs {
                flags: spec_bit(old(self).flags, old(self).register_a, old(self).spec_operand(*mode)),
                ..old(self).regs()
            }),
    {
        let value = self.get_operand(mode);
        self.flags.n = value & 0x80 != 0;
        self.flags.v = value & 0x40 != 0;
        self.flags.z = self.register_a & value == 0;
    }

    pub fn bcc(&mut self) -> (taken: bool)
        requires
            old(self).wf(),
        ensures
            final(self).wf(),
            taken == !old(self).flags.c,
            Self::branch_post(*old(self), *final(self), !old(self).flags.c),
    {
        let cond = !self.flags.c;
        self.branch_helper(cond)
    }

    pub fn bcs(&mut self) -> (taken: bool)
        requires
            old(self).wf(),
        ensures
            final(self).wf(),
            taken == old(self).flags.c,
            Self::branch_post(*old(self), *final(self), old(self).flags.c),
    {
        let cond = self.flags.c;
        self.branch_helper(cond)
    }

    pub fn beq(&mut self) -> (taken: bool)
        requires
            old(self).wf(),
        ensures
            final(self).wf(),
            taken == old(self).flags.z,
            Self::branch_post(*old(self), *final(self), old(self).flags.z),
    {
        let cond = self.flags.z;
        self.branch_helper(cond)
    }

    pub fn bne(&mut self) -> (taken: bool)
        requires
            old(self).wf(),
        ensures
            final(self).wf(),
            taken == !old(self).flags.z,
            Self::branch_post(*old(self), *final(self), !old(self).flags.z),
    {
        let cond = !self.flags.z;
        self.branch_helper(cond)
    }

    pub fn bmi(&mut self) -> (taken: bool)
        requires
            old(self).wf(),
        ensures
            final(self).wf(),
            taken == old(self).flags.n,
            Self::branch_post(*old(self), *final(self), old(self).flags.n),
    {
        let cond = self.flags.n;
        self.branch_helper(cond)
    }

    pub fn bpl(&mut self) -> (taken: bool)
        requires
            old(self).wf(),
        ensures
            final(self).wf(),
            taken == !old(self).flags.n,
            Self::branch_post(*old(self), *final(self), !old(self).flags.n),
    {
        let cond = !self.flags.n;
        self.branch_helper(cond)
    }

    pub fn bvs(&mut self) -> (taken: bool)
        requires
            old(self).wf(),
        ensures
            final(self).wf(),
            taken == old(self).flags.v,
            Self::branch_post(*old(self), *final(self), old(self).flags.v),
    {
        let cond = self.flags.v;
        self.branch_helper(cond)
    }

    pub fn bvc(&mut self) -> (taken: bool)
        requires
            old(self).wf(),
        ensures
            final(self).wf(),
            taken == !old(self).flags.v,
            Self::branch_post(*old(self), *final(self), !old(self).flags.v),
    {
        let cond = !self.flags.v;
        self.branch_helper(cond)
    }

    pub fn clc(&mut self)
        requires
            old(self).wf(),
        ensures
            final(self).wf(),
            final(self).bus == old(self).bus,
            final(self).regs() == (Regs {
                flags: CpuFlags { c: false, ..old(self).flags },
                ..old(self).regs()
            }),
    {
        self.flags.c = false;
    }

    pub fn cld(&mut self)
        requires
            old(self).wf(),
        ensures
            final(self).wf(),
            final(self).bus == old(self).bus,
            final(self).regs() == (Regs {
                flags: CpuFlags { d: false, ..old(self).flags },
                ..old(self).regs()
            }),
    {
        self.flags.d = false;
    }

    pub fn cli(&mut self)
        requires
            old(self).wf(),
        ensures
            final(self).wf(),
            final(self).bus == old(self).bus,
            final(self).regs() == (Regs {
                flags: CpuFlags { i: false, ..old(self).flags },
                ..old(self).regs()
            }),
    {
        self.flags.i = false;
    }

    pub fn clv(&mut self)
        requires
            old(self).wf(),
        ensures
            final(self).wf(),
            final(self).bus == old(self).bus,
            final(self).regs() == (Regs {
                flags: CpuFlags { v: false, ..old(self).flags },
                ..old(self).regs()
            }),
    {
        self.flags.v = false;
    }

    pub fn sec(&mut self)
        requires
            old(self).wf(),
        ensures
            final(self).wf(),
            final(self).bus == old(self).bus,
            final(self).regs() == (Regs {
                flags: CpuFlags { c: true, ..old(self).flags },
                ..old(self).regs()
            }),
    {
        self.flags.c = true;
    }

    pub fn sed(&mut self)
        requires
            old(self).wf(),
        ensures
            final(self).wf(),
            final(self).bus == old(self).bus,
            final(self).regs() == (Regs {
                flags: CpuFlags { d: true, ..old(self).flags },
                ..old(self).regs()
            }),
    {
        self.flags.d = true;
    }

    pub fn sei(&mut self)
        requires
            old(self).wf(),
        ensures
            final(self).wf(),
            final(self).bus == old(self).bus,
            final(self).regs() == (Regs {
                flags: CpuFlags { i: true, ..old(self).flags },
                ..old(self).regs()
            }),
    {
        self.flags.i = true;
    }

    pub fn lda(&mut self, mode: &AddressingMode)
        requires
            old(self).wf(),
        ensures
            final(self).wf(),
            final(self).bus == old(self).bus,
            final(self).regs() == (Regs {
                a: old(self).spec_operand(*mode),
                flags: Self::spec_zn(old(self).flags, old(self).spec_operand(*mode)),
                ..old(self).regs()
            }),
    {
        let value = self.get_operand(mode);
        self.set_register_a(value);
    }

    pub fn ldx(&mut self, mode: &AddressingMode)
        requires
            old(self).wf(),
        ensures
            final(self).wf(),
            final(self).bus == old(self).bus,
            final(self).regs() == (Regs {
                x: old(self).spec_operand(*mode),
                flags: Self::spec_zn(old(self).flags, old(self).spec_operand(*mode)),
                ..old(self).regs()
            }),
    {
        let value = self.get_operand(mode);
        self.set_register_x(value);
    }

    pub fn ldy(&mut self, mode: &AddressingMode)
        requires
            old(self).wf(),
        ensures
            final(self).wf(),
            final(self).bus == old(self).bus,
            final(self).regs() == (Regs {
                y: old(self).spec_operand(*mode),
                flags: Self::spec_zn(old(self).flags, old(self).spec_operand(*mode)),
                ..old(self).regs()
            }),
    {
        let value = self.get_operand(mode);
        self.set_register_y(value);
    }

    pub fn sta(&mut self, mode: &AddressingMode)
        requires
            old(self).wf(),
            mode.has_address(),
        ensures
            final(self).wf(),
            final(self).regs() == old(self).regs(),
            forall|a: u16|
                final(self).bus.byte_at(a) == (if old(self).bus.writes_to(
                    old(self).spec_operand_addr(*mode),
                    a,
                ) {
                    old(self).register_a
                } else {
                    old(self).bus.byte_at(a)
                }),
            forall|x: u16, a: u16|
                final(self).bus.writes_to(x, a) == old(self).bus.writes_to(x, a),
            final(self).bus.cpu_cycles() == old(self).bus.cpu_cycles(),
            final(self).bus.nmi_pending() == old(self).bus.nmi_pending(),
    {
        let addr = self.get_address(mode);
        let value = self.register_a;
        self.mem_write(addr, value);
    }

    pub fn stx(&mut self, mode: &AddressingMode)
        requires
            old(self).wf(),
            mode.has_address(),
        ensures
            final(self).wf(),
            final(self).regs() == old(self).regs(),
            forall|a: u16|
                final(self).bus.byte_at(a) == (if old(self).bus.writes_to(
                    old(self).spec_operand_addr(*mode),
                    a,
                ) {
                    old(self).register_x
                } else {
                    old(self).bus.byte_at(a)
                }),
            forall|x: u16, a: u16|
                final(self).bus.writes_to(x, a) == old(self).bus.writes_to(x, a),
            final(self).bus.cpu_cycles() == old(self).bus.cpu_cycles(),
            final(self).bus.nmi_pending() == old(self).bus.nmi_pending(),
    {
        let addr = self.get_address(mode);
        let value = self.register_x;
        self.mem_write(addr, value);
    }

    pub fn sty(&mut self, mode: &AddressingMode)
        requires
            old(self).wf(),
            mode.has_address(),
        ensures
            final(self).wf(),
            final(self).regs() == old(self).regs(),
            forall|a: u16|
                final(self).bus.byte_at(a) == (if old(self).bus.writes_to(
                    old(self).spec_operand_addr(*mode),
                    a,
                ) {
                    old(self).register_y
                } else {
                    old(self).bus.byte_at(a)
                }),
            forall|x: u16, a: u16|
                final(self).bus.writes_to(x, a) == old(self).bus.writes_to(x, a),
            final(self).bus.cpu_cycles() == old(self).bus.cpu_cycles(),
            final(self).bus.nmi_pending() == old(self).bus.nmi_pending(),
    {
        let addr = self.get_address(mode);
        let value = self.register_y;
        self.mem_write(addr, value);
    }

    pub fn dex(&mut self)
        requires
            old(self).wf(),
        ensures
            final(self).wf(),
            final(self).bus == old(self).bus,
            final(self).regs() == (Regs {
                x: old(self).register_x.wrapping_sub(1),
                flags: Self::spec_zn(old(self).flags, old(self).register_x.wrapping_sub(1)),
                ..old(self).regs()
            }),
    {
        let value = self.register_x.wrapping_sub(1);
        self.set_register_x(value);
    }

    pub fn dey(&mut self)
        requires
            old(self).wf(),
        ensures
            final(self).wf(),
            final(self).bus == old(self).bus,
            final(self).regs() == (Regs {
                y: old(self).register_y.wrapping_sub(1),
                flags: Self::spec_zn(old(self).flags, old(self).register_y.wrapping_sub(1)),
                ..old(self).regs()
            }),
    {
        let value = self.register_y.wrapping_sub(1);
        self.set_register_y(value);
    }

    pub fn inx(&mut self)
        requires
            old(self).wf(),
        ensures
            final(self).wf(),
            final(self).bus == old(self).bus,
            final(self).regs() == (Regs {
                x: old(self).register_x.wrapping_add(1),
                flags: Self::spec_zn(old(self).flags, old(self).register_x.wrapping_add(1)),
                ..old(self).regs()
            }),
    {
        let value = self.register_x.wrapping_add(1);
        self.set_register_x(value);
    }

    pub fn iny(&mut self)
        requires
            old(self).wf(),
        ensures
            final(self).wf(),
            final(self).bus == old(self).bus,
            final(self).regs() == (Regs {
                y: old(self).register_y.wrapping_add(1),
                flags: Self::spec_zn(old(self).flags, old(self).register_y.wrapping_add(1)),
                ..old(self).regs()
            }),
    {
        let value = self.register_y.wrapping_add(1);
        self.set_register_y(value);
    }

    pub fn tax(&mut self)
        requires
            old(self).wf(),
        ensures
            final(self).wf(),
            final(self).bus == old(self).bus,
            final(self).regs() == (Regs {
                x: old(self).register_a,
                flags: Self::spec_zn(old(self).flags, old(self).register_a),
                ..old(self).regs()
            }),
    {
        let value = self.register_a;
        self.set_register_x(value);
    }

    pub fn tay(&mut self)
        requires
            old(self).wf(),
        ensures
            final(self).wf(),
            final(self).bus == old(self).bus,
            final(self).regs() == (Regs {
                y: old(self).register_a,
                flags: Self::spec_zn(old(self).flags, old(self).register_a),
                ..old(self).regs()
            }),
    {
        let value = self.register_a;
        self.set_register_y(value);
    }

    pub fn tsx(&mut self)
        requires
            old(self).wf(),
        ensures
            final(self).wf(),
            final(self).bus == old(self).bus,
            final(self).regs() == (Regs {
                x: old(self).stack_pointer,
                flags: Self::spec_zn(old(self).flags, old(self).stack_pointer),
                ..old(self).regs()
            }),
    {
        let value = self.stack_pointer;
        self.set_register_x(value);
    }

    pub fn txa(&mut self)
        requires
            old(self).wf(),
        ensures
            final(self).wf(),
            final(self).bus == old(self).bus,
            final(self).regs() == (Regs {
                a: old(self).register_x,
                flags: Self::spec_zn(old(self).flags, old(self).register_x),
                ..old(self).regs()
            }),
    {
        let value = self.register_x;
        self.set_register_a(value);
    }

    pub fn tya(&mut self)
        requires
            old(self).wf(),
        ensures
            final(self).wf(),
            final(self).bus == old(self).bus,
            final(self).regs() == (Regs {
                a: old(self).register_y,
                flags: Self::spec_zn(old(self).flags, old(self).register_y),
                ..old(self).regs()
            }),
    {
        let value = self.register_y;
        self.set_register_a(value);
    }

    /// TXS moves X into the stack pointer without touching any flag.
    pub fn txs(&mut self)
        requires
            old(self).wf(),
        ensures
            final(self).wf(),
            final(self).bus == old(self).bus,
            final(self).regs() == (Regs { sp: old(self).register_x, ..old(self).regs() }),
    {
        self.stack_pointer = self.register_x;
    }

    pub fn nop(&mut self)
        requires
            old(self).wf(),
        ensures
            final(self).wf(),
            *final(self) == *old(self),
    {
    }

    pub fn pha(&mut self)
        requires
            old(self).wf(),
        ensures
            final(self).wf(),
            final(self).regs() == (Regs {
                sp: old(self).stack_pointer.wrapping_sub(1),
                ..old(self).regs()
            }),
            forall|a: u16|
                final(self).bus.byte_at(a) == (if old(self).bus.writes_to(
                    (0x100 + old(self).stack_pointer as u16) as u16,
                    a,
                ) {
                    old(self).register_a
                } else {
                    old(self).bus.byte_at(a)
                }),
            forall|x: u16, a: u16|
                final(self).bus.writes_to(x, a) == old(self).bus.writes_to(x, a),
            final(self).bus.cpu_cycles() == old(self).bus.cpu_cycles(),
            final(self).bus.nmi_pending() == old(self).bus.nmi_pending(),
    {
        let value = self.register_a;
        self.push_stack(value);
    }

    /// PHP pushes P with B and U forced on; the live flags are untouched.
    pub fn php(&mut self)
        requires
            old(self).wf(),
        ensures
            final(self).wf(),
            final(self).regs() == (Regs {
                sp: old(self).stack_pointer.wrapping_sub(1),
                ..old(self).regs()
            }),
            forall|a: u16|
                final(self).bus.byte_at(a) == (if old(self).bus.writes_to(
                    (0x100 + old(self).stack_pointer as u16) as u16,
                    a,
                ) {
                    spec_php_bits(old(self).flags)
                } else {
                    old(self).bus.byte_at(a)
                }),
            forall|x: u16, a: u16|
                final(self).bus.writes_to(x, a) == old(self).bus.writes_to(x, a),
            final(self).bus.cpu_cycles() == old(self).bus.cpu_cycles(),
            final(self).bus.nmi_pending() == old(self).bus.nmi_pending(),
    {
        let mut pushed = self.flags;
        pushed.b = true;
        pushed.u = true;
        let value = pushed.to_bits();
        self.push_stack(value);
    }

    pub fn pla(&mut self)
        requires
            old(self).wf(),
        ensures
            final(self).wf(),
            final(self).bus == old(self).bus,
            ({
                let v = old(self).bus.byte_at(
                    (0x100 + old(self).stack_pointer.wrapping_add(1) as u16) as u16,
                );
                final(self).regs() == (Regs {
                    a: v,
                    sp: old(self).stack_pointer.wrapping_add(1),
                    flags: Self::spec_zn(old(self).flags, v),
                    ..old(self).regs()
                })
            }),
    {
        let value = self.pop_stack();
        self.set_register_a(value);
    }

    /// PLP restores P from the stack but keeps the live B and U bits.
    pub fn plp(&mut self)
        requires
            old(self).wf(),
        ensures
            final(self).wf(),
            final(self).bus == old(self).bus,
            ({
                let v = old(self).bus.byte_at(
                    (0x100 + old(self).stack_pointer.wrapping_add(1) as u16) as u16,
                );
                final(self).regs() == (Regs {
                    sp: old(self).stack_pointer.wrapping_add(1),
                    flags: spec_plp(old(self).flags, v),
                    ..old(self).regs()
                })
            }),
    {
        let value = self.pop_stack();
        let restored = CpuFlags::from_bits(value);
        self.flags = CpuFlags {
            b: self.flags.b,
            u: self.flags.u,
            ..restored
        };
    }

    /// JMP: absolute, or indirect with the 6502's page-wrap quirk, where a
    /// pointer ending in $FF fetches its high byte from the start of the
    /// same page.
    pub fn jmp(&mut self, mode: &AddressingMode)
        requires
            old(self).wf(),
            *mode is Absolute || *mode is Indirect,
        ensures
            final(self).wf(),
            final(self).bus == old(self).bus,
            final(self).regs() == (Regs {
                pc: Self::spec_jmp_target(*old(self), *mode),
                ..old(self).regs()
            }),
    {
        let address = self.get_absolute_address();
        match mode {
            AddressingMode::Absolute => {
                self.program_counter = address;
            },
            _ => {
                let target = if address & 0x00ff == 0x00ff {
                    let lo = self.mem_read(address);
                    let hi = self.mem_read(address & 0xff00);
                    hi as u16 * 256 + lo as u16
                } else {
                    self.mem_read_u16(address)
                };
                self.program_counter = target;
            },
        }
    }

    /// Where JMP goes: the absolute operand, or the word it points at, with
    /// the indirect page-wrap bug.
    pub open spec fn spec_jmp_target(pre: CPU<B>, mode: AddressingMode) -> u16 {
        let address = pre.spec_mem16(pre.program_counter);
        if mode is Absolute {
            address
        } else {
            if address & 0x00ff == 0x00ff {
                (pre.bus.byte_at(address & 0xff00) * 256 + pre.bus.byte_at(address)) as u16
            } else {
                pre.spec_mem16(address)
            }
        }
    }

    /// JSR pushes the address of its own last byte, high byte first, then
    /// jumps.
    pub fn jsr(&mut self)
        requires
            old(self).wf(),
        ensures
            final(self).wf(),
            ({
                let ret = old(self).program_counter.wrapping_add(1);
                &&& final(self).regs() == (Regs {
                    sp: old(self).stack_pointer.wrapping_sub(2),
                    pc: old(self).spec_mem16(old(self).program_counter),
                    ..old(self).regs()
                })
                &&& forall|a: u16|
                    final(self).bus.byte_at(a) == (if old(self).bus.writes_to(
                        (0x100 + old(self).stack_pointer.wrapping_sub(1) as u16) as u16,
                        a,
                    ) {
                        (ret & 0xff) as u8
                    } else if old(self).bus.writes_to(
                        (0x100 + old(self).stack_pointer as u16) as u16,
                        a,
                    ) {
                        (ret >> 8) as u8
                    } else {
                        old(self).bus.byte_at(a)
                    })
                &&& forall|x: u16, a: u16|
                    final(self).bus.writes_to(x, a) == old(self).bus.writes_to(x, a)
                &&& final(self).bus.cpu_cycles() == old(self).bus.cpu_cycles()
                &&& final(self).bus.nmi_pending() == old(self).bus.nmi_pending()
            }),
    {
        let target_address = self.get_absolute_address();
        let return_address = self.program_counter.wrapping_add(1);
        self.push_stack((return_address >> 8) as u8);
        self.push_stack((return_address & 0xff) as u8);
        self.program_counter = target_address;
    }

    /// RTS pops the return address and resumes one past it.
    pub fn rts(&mut self)
        requires
            old(self).wf(),
        ensures
            final(self).wf(),
            final(self).bus == old(self).bus,
            ({
                let lo = old(self).bus.byte_at(
                    (0x100 + old(self).stack_pointer.wrapping_add(1) as u16) as u16,
                );
                let hi = old(self).bus.byte_at(
                    (0x100 + old(self).stack_pointer.wrapping_add(2) as u16) as u16,
                );
                final(self).regs() == (Regs {
                    sp: old(self).stack_pointer.wrapping_add(2),
                    pc: ((hi * 256 + lo) as u16).wrapping_add(1),
                    ..old(self).regs()
                })
            }),
    {
        let pc_low = self.pop_stack() as u16;
        let pc_high = self.pop_stack() as u16;
        self.program_counter = (pc_high * 256 + pc_low).wrapping_add(1);
    }

    /// RTI pops P (leaving the live B and U alone), then the return
    /// address, without the RTS increment.
    pub fn rti(&mut self)
        requires
            old(self).wf(),
        ensures
            final(self).wf(),
            final(self).bus == old(self).bus,
            ({
                let status = old(self).bus.byte_at(
                    (0x100 + old(self).stack_pointer.wrapping_add(1) as u16) as u16,
                );
                let lo = old(self).bus.byte_at(
                    (0x100 + old(self).stack_pointer.wrapping_add(2) as u16) as u16,
                );
                let hi = old(self).bus.byte_at(
                    (0x100 + old(self).stack_pointer.wrapping_add(3) as u16) as u16,
                );
                final(self).regs() == (Regs {
                    sp: old(self).stack_pointer.wrapping_add(3),
                    pc: (hi * 256 + lo) as u16,
                    flags: spec_plp(old(self).flags, status),
                    ..old(self).regs()
                })
            }),
    {
        let status = self.pop_stack();
        let pc_low = self.pop_stack() as u16;
        let pc_high = self.pop_stack() as u16;
        let restored = CpuFlags::from_bits(status);
        self.flags = CpuFlags {
            b: self.flags.b,
            u: self.flags.u,
            ..restored
        };
        self.program_counter = pc_high * 256 + pc_low;
    }

    /// BRK: push the address two past the opcode, push P with B and U set,
    /// raise I, and vector through $FFFE.
    pub fn brk(&mut self)
        requires
            old(self).wf(),
        ensures
            final(self).wf(),
            ({
                let ret = old(self).program_counter.wrapping_add(1);
                &&& final(self).regs() == (Regs {
                    sp: old(self).stack_pointer.wrapping_sub(3),
                    pc: final(self).program_counter,
                    flags: CpuFlags { i: true, ..old(self).flags },
                    ..old(self).regs()
                })
                &&& final(self).program_counter == final(self).spec_mem16(0xfffe)
                &&& forall|a: u16|
                    final(self).bus.byte_at(a) == (if old(self).bus.writes_to(
                        (0x100 + old(self).stack_pointer.wrapping_sub(2) as u16) as u16,
                        a,
                    ) {
                        spec_php_bits(old(self).flags)
                    } else if old(self).bus.writes_to(
                        (0x100 + old(self).stack_pointer.wrapping_sub(1) as u16) as u16,
                        a,
                    ) {
                        (ret & 0xff) as u8
                    } else if old(self).bus.writes_to(
                        (0x100 + old(self).stack_pointer as u16) as u16,
                        a,
                    ) {
                        (ret >> 8) as u8
                    } else {
                        old(self).bus.byte_at(a)
                    })
                &&& forall|x: u16, a: u16|
                    final(self).bus.writes_to(x, a) == old(self).bus.writes_to(x, a)
                &&& final(self).bus.cpu_cycles() == old(self).bus.cpu_cycles()
                &&& final(self).bus.nmi_pending() == old(self).bus.nmi_pending()
            }),
    {
        let ret = self.program_counter.wrapping_add(1);
        self.push_stack((ret >> 8) as u8);
        self.push_stack((ret & 0xff) as u8);
        let mut pushed = self.flags;
        pushed.b = true;
        pushed.u = true;
        let status = pushed.to_bits();
        self.push_stack(status);
        self.flags.i = true;
        let target = self.mem_read_u16(0xfffe);
        self.program_counter = target;
    }
}


/// After any instruction, the U bit of P reads as 1 when inspected through
/// PHP: the pushed status byte always has bit 5 set, whatever the live
/// flags are.
pub proof fn lemma_php_pushes_unused_set(f: CpuFlags)
    ensures
        CpuFlags::of_bits(spec_php_bits(f)).u,
        CpuFlags::of_bits(spec_php_bits(f)).b,
{
    crate::flags::lemma_flag_bits_roundtrip(CpuFlags { b: true, u: true, ..f });
}

/// A PHP followed by PLP restores C, Z, I, D, V and N exactly; B and U are
/// masked on the way through and keep their live values.
pub proof fn lemma_php_plp_roundtrip(f: CpuFlags)
    ensures
        spec_plp(f, spec_php_bits(f)) == f,
{
    crate::flags::lemma_flag_bits_roundtrip(CpuFlags { b: true, u: true, ..f });
}

} // verus!
