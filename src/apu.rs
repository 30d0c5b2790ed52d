//! The register window of the APU at $4000-$4017, as the CPU sees it.
use vstd::prelude::*;
use crate::ram::zeroed;

verus! {

/// Number of register bytes from $4000.
pub const APU_REGS: usize = 0x18;

/// The last byte written to each APU register. Only $4015 (status) reads
/// back; the others are write-only.
pub struct Apu {
    regs: Vec<u8>,
}

impl View for Apu {
    type V = Seq<u8>;

    closed spec fn view(&self) -> Seq<u8> {
        self.regs@
    }
}

/// Whether `addr` is an APU register that the CPU writes.
pub open spec fn is_apu_reg(addr: u16) -> bool {
    0x4000 <= addr < 0x4018
}

impl Apu {
    pub open spec fn wf(&self) -> bool {
        self@.len() == APU_REGS
    }

    /// What a read of `addr` returns: the status byte at $4015, else 0.
    pub open spec fn peek(regs: Seq<u8>, addr: u16) -> u8 {
        if addr == 0x4015 {
            regs[0x15]
        } else {
            0
        }
    }

    /// All registers zeroed.
    pub fn new() -> (r: Apu)
        ensures
            r.wf(),
            r@ == Seq::new(APU_REGS as nat, |i: int| 0u8),
    {
        Apu { regs: zeroed(APU_REGS) }
    }

    pub fn load_u8(&self, addr: u16) -> (r: u8)
        requires
            self.wf(),
        ensures
            r == Apu::peek(self@, addr),
    {
        if addr == 0x4015 {
            self.regs[0x15]
        } else {
            0
        }
    }

    pub fn store_u8(&mut self, addr: u16, v: u8)
        requires
            old(self).wf(),
            is_apu_reg(addr),
        ensures
            final(self).wf(),
            final(self)@ == old(self)@.update(addr - 0x4000, v),
    {
        self.regs.set((addr - 0x4000) as usize, v);
    }
}

} // verus!
