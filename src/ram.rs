//! The 2 KiB of internal CPU RAM.
use vstd::prelude::*;

verus! {

/// Number of bytes of internal RAM.
pub const RAM_SIZE: usize = 0x800;

/// `n` zero bytes.
pub fn zeroed(n: usize) -> (r: Vec<u8>)
    ensures
        r@ == Seq::new(n as nat, |i: int| 0u8),
{
    let mut v: Vec<u8> = Vec::new();
    let mut i: usize = 0;
    while i < n
        invariant
            i <= n,
            v@ == Seq::new(i as nat, |k: int| 0u8),
        decreases n - i,
    {
        v.push(0);
        i = i + 1;
        assert(v@ =~= Seq::new(i as nat, |k: int| 0u8));
    }
    v
}

/// Internal SRAM; every address is taken modulo its size.
pub struct Ram {
    cont: Vec<u8>,
}

impl View for Ram {
    type V = Seq<u8>;

    closed spec fn view(&self) -> Seq<u8> {
        self.cont@
    }
}

impl Ram {
    pub open spec fn wf(&self) -> bool {
        self@.len() == RAM_SIZE
    }

    /// Zero-filled RAM.
    pub fn new() -> (r: Ram)
        ensures
            r.wf(),
            r@ == Seq::new(RAM_SIZE as nat, |i: int| 0u8),
    {
        Ram { cont: zeroed(RAM_SIZE) }
    }

    /// The byte at `addr & 0x7FF`.
    pub fn load_u8(&self, addr: u16) -> (r: u8)
        requires
            self.wf(),
        ensures
            r == self@[addr as int % 0x800],
    {
        self.cont[(addr % 0x800) as usize]
    }

    /// Writes the byte at `addr & 0x7FF`.
    pub fn store_u8(&mut self, addr: u16, v: u8)
        requires
            old(self).wf(),
        ensures
            final(self).wf(),
            final(self)@ == old(self)@.update(addr as int % 0x800, v),
    {
        self.cont.set((addr % 0x800) as usize, v);
    }
}

} // verus!
