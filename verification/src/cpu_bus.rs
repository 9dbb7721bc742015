use vstd::prelude::*;

verus! {

/// The capability set the CPU needs from a bus: byte reads and writes, cycle
/// ticking, and the pending-NMI latch. The real bus and the flat test bus
/// both implement it, so the CPU is verified once for every bus.
pub trait CpuBus: Sized {
    /// Well-formedness of the bus state.
    spec fn inv(&self) -> bool;

    /// The byte the CPU observes at `addr`.
    spec fn byte_at(&self, addr: u16) -> u8;

    /// Whether a write to `addr` lands on the cell observed at `at`
    /// (mirroring makes this a many-to-many relation).
    spec fn writes_to(&self, addr: u16, at: u16) -> bool;

    /// CPU cycles charged so far (a wrapping 64-bit counter).
    spec fn cpu_cycles(&self) -> u64;

    /// Whether an NMI is latched and waiting to be taken.
    spec fn nmi_pending(&self) -> bool;

    /// Addresses below $2000 decode to RAM, which stores every byte written;
    /// the CPU's stack lives there.
    proof fn ram_stores(&self, addr: u16)
        requires
            self.inv(),
            addr < 0x2000,
        ensures
            self.writes_to(addr, addr),
    ;

    fn read(&self, addr: u16) -> (r: u8)
        requires
            self.inv(),
        ensures
            r == self.byte_at(addr),
    ;

    /// The cycle counter's current value.
    fn cycles(&self) -> (r: u64)
        requires
            self.inv(),
        ensures
            r == self.cpu_cycles(),
    ;

    fn write(&mut self, addr: u16, data: u8)
        requires
            old(self).inv(),
        ensures
            final(self).inv(),
            forall|a: u16|
                final(self).byte_at(a) == (if old(self).writes_to(addr, a) {
                    data
                } else {
                    old(self).byte_at(a)
                }),
            forall|x: u16, a: u16|
                final(self).writes_to(x, a) == old(self).writes_to(x, a),
            final(self).cpu_cycles() == old(self).cpu_cycles(),
            final(self).nmi_pending() == old(self).nmi_pending(),
    ;

    /// Charge `cycles` CPU cycles. Memory is unaffected; a latched NMI stays
    /// latched (ticking may additionally latch one).
    fn tick(&mut self, cycles: u8)
        requires
            old(self).inv(),
        ensures
            final(self).inv(),
            final(self).cpu_cycles() == old(self).cpu_cycles().wrapping_add(cycles as u64),
            forall|a: u16| final(self).byte_at(a) == old(self).byte_at(a),
            forall|x: u16, a: u16|
                final(self).writes_to(x, a) == old(self).writes_to(x, a),
            old(self).nmi_pending() ==> final(self).nmi_pending(),
    ;

    /// Atomically take the pending-NMI latch: report whether it was set and
    /// clear it.
    fn fetch_nmi(&mut self) -> (r: Option<u8>)
        requires
            old(self).inv(),
        ensures
            final(self).inv(),
            r is Some <==> old(self).nmi_pending(),
            !final(self).nmi_pending(),
            forall|a: u16| final(self).byte_at(a) == old(self).byte_at(a),
            forall|x: u16, a: u16|
                final(self).writes_to(x, a) == old(self).writes_to(x, a),
            final(self).cpu_cycles() == old(self).cpu_cycles(),
    ;

    fn read_u16(&self, addr: u16) -> (r: u16)
        requires
            self.inv(),
        ensures
            r == self.byte_at(addr) + 256 * self.byte_at(addr.wrapping_add(1)),
    ;

    fn write_u16(&mut self, addr: u16, data: u16)
        requires
            old(self).inv(),
        ensures
            final(self).inv(),
            forall|a: u16|
                final(self).byte_at(a) == (if old(self).writes_to(
                    addr.wrapping_add(1),
                    a,
                ) {
                    (data / 256) as u8
                } else if old(self).writes_to(addr, a) {
                    (data % 256) as u8
                } else {
                    old(self).byte_at(a)
                }),
            forall|x: u16, a: u16|
                final(self).writes_to(x, a) == old(self).writes_to(x, a),
            final(self).cpu_cycles() == old(self).cpu_cycles(),
            final(self).nmi_pending() == old(self).nmi_pending(),
    ;
}

/// Little-endian 16-bit read: low byte at `addr`, high byte at `addr + 1`,
/// with the pointer increment wrapping at the top of the address space.
pub fn read_u16_core<B: CpuBus>(bus: &B, addr: u16) -> (r: u16)
    requires
        bus.inv(),
    ensures
        r == bus.byte_at(addr) + 256 * bus.byte_at(addr.wrapping_add(1)),
{
    let low = bus.read(addr) as u16;
    let high = bus.read(addr.wrapping_add(1)) as u16;
    high * 256 + low
}

/// Little-endian 16-bit write: low byte to `addr`, then high byte to
/// `addr + 1` (wrapping), so on overlapping mirrors the high byte wins.
pub fn write_u16_core<B: CpuBus>(bus: &mut B, addr: u16, value: u16)
    requires
        old(bus).inv(),
    ensures
        final(bus).inv(),
        forall|a: u16|
            final(bus).byte_at(a) == (if old(bus).writes_to(addr.wrapping_add(1), a) {
                (value / 256) as u8
            } else if old(bus).writes_to(addr, a) {
                (value % 256) as u8
            } else {
                old(bus).byte_at(a)
            }),
        forall|x: u16, a: u16| final(bus).writes_to(x, a) == old(bus).writes_to(x, a),
        final(bus).cpu_cycles() == old(bus).cpu_cycles(),
        final(bus).nmi_pending() == old(bus).nmi_pending(),
{
    let low = (value % 256) as u8;
    let high = (value / 256) as u8;
    bus.write(addr, low);
    bus.write(addr.wrapping_add(1), high);
}

} // verus!
