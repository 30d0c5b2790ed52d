//! The CPU-side surface of the PPU: eight registers and the sprite memory
//! that OAM-DMA fills.
use vstd::prelude::*;
use crate::ram::zeroed;

verus! {

/// Number of PPU registers.
pub const PPU_REGS: usize = 8;
/// Bytes of object-attribute (sprite) memory.
pub const OAM_SIZE: usize = 256;

/// What the CPU can see of the PPU.
pub struct PpuState {
    /// The last byte written to each of $2000-$2007.
    pub regs: Seq<u8>,
    pub oam: Seq<u8>,
}

/// PPU registers: PPUCTRL, PPUMASK, PPUSTATUS, OAMADDR, OAMDATA, PPUSCROLL,
/// PPUADDR, PPUDATA.
pub struct Ppu {
    regs: Vec<u8>,
    oam: Vec<u8>,
}

/// Whether register `reg` (0 to 7) can be read: PPUSTATUS, OAMDATA, PPUDATA.
pub open spec fn readable(reg: int) -> bool {
    reg == 2 || reg == 4 || reg == 7
}

impl PpuState {
    pub open spec fn wf(self) -> bool {
        self.regs.len() == PPU_REGS && self.oam.len() == OAM_SIZE
    }

    /// The registers after `v` is written to `addr`: PPUSTATUS is read-only.
    pub open spec fn write(self, addr: u16, v: u8) -> PpuState {
        if addr as int % 8 == 2 {
            self
        } else {
            PpuState { regs: self.regs.update(addr as int % 8, v), ..self }
        }
    }

    /// What a read of `addr` returns; a write-only register gives `open_bus`.
    pub open spec fn peek(self, addr: u16, open_bus: u8) -> u8 {
        let reg = addr as int % 8;
        if readable(reg) {
            self.regs[reg]
        } else {
            open_bus
        }
    }
}

impl View for Ppu {
    type V = PpuState;

    closed spec fn view(&self) -> PpuState {
        PpuState { regs: self.regs@, oam: self.oam@ }
    }
}

impl Ppu {
    pub open spec fn wf(&self) -> bool {
        self@.wf()
    }

    /// All registers and sprite memory zeroed.
    pub fn new() -> (r: Ppu)
        ensures
            r.wf(),
            r@.regs == Seq::new(PPU_REGS as nat, |i: int| 0u8),
            r@.oam == Seq::new(OAM_SIZE as nat, |i: int| 0u8),
    {
        Ppu { regs: zeroed(PPU_REGS), oam: zeroed(OAM_SIZE) }
    }

    /// Reads the register that `addr` selects (`addr & 7`).
    pub fn load_u8(&self, addr: u16, open_bus: u8) -> (r: u8)
        requires
            self.wf(),
        ensures
            r == self@.peek(addr, open_bus),
    {
        let reg = (addr % 8) as usize;
        if reg == 2 || reg == 4 || reg == 7 {
            self.regs[reg]
        } else {
            open_bus
        }
    }

    /// Writes the register that `addr` selects (`addr & 7`); a write to
    /// the read-only PPUSTATUS is dropped.
    pub fn store_u8(&mut self, addr: u16, v: u8)
        requires
            old(self).wf(),
        ensures
            final(self).wf(),
            final(self)@ == old(self)@.write(addr, v),
    {
        if addr % 8 != 2 {
            self.regs.set((addr % 8) as usize, v);
        }
    }

    /// Writes byte `i` of sprite memory.
    pub fn store_oam(&mut self, i: usize, v: u8)
        requires
            old(self).wf(),
            i < OAM_SIZE,
        ensures
            final(self).wf(),
            final(self)@ == (PpuState { oam: old(self)@.oam.update(i as int, v), ..old(self)@ }),
    {
        self.oam.set(i, v);
    }

    /// Byte `i` of sprite memory.
    pub fn load_oam(&self, i: usize) -> (r: u8)
        requires
            self.wf(),
            i < OAM_SIZE,
        ensures
            r == self@.oam[i as int],
    {
        self.oam[i]
    }
}

} // verus!
