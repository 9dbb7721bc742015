use vstd::prelude::*;

verus! {

/// The console's 2 KiB of internal work RAM. Addresses are folded into the
/// array by keeping their low eleven bits, which is what gives the
/// $0000-$1FFF region its four-fold mirroring.
pub struct RAM {
    pub memory: Vec<u8>,
}

/// Any value masked with $07FF fits the 2 KiB RAM array.
pub proof fn lemma_ram_mask_bound()
    ensures
        forall|x: u16| #[trigger] (x & 0x7ff) < 0x800,
{
    assert(forall|x: u16| #[trigger] (x & 0x7ff) < 0x800) by (bit_vector);
}

impl RAM {
    pub open spec fn inv(&self) -> bool {
        self.memory@.len() == 0x800
    }

    pub fn new() -> (r: RAM)
        ensures
            r.inv(),
            forall|i: int| 0 <= i < 0x800 ==> r.memory@[i] == 0u8,
    {
        RAM { memory: vec![0u8; 0x800] }
    }

    pub fn read(&self, address: u16) -> (r: u8)
        requires
            self.inv(),
        ensures
            r == self.memory@[(address & 0x7ff) as int],
    {
        proof {
            lemma_ram_mask_bound();
        }
        self.memory[(address & 0x7ff) as usize]
    }

    pub fn write(&mut self, address: u16, data: u8)
        requires
            old(self).inv(),
        ensures
            final(self).inv(),
            final(self).memory@ == old(self).memory@.update((address & 0x7ff) as int, data),
    {
        proof {
            lemma_ram_mask_bound();
        }
        self.memory[(address & 0x7ff) as usize] = data;
    }
}

} // verus!
