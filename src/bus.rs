//! The CPU's address decoder: routes every load and store to exactly one
//! device and owns all mirroring rules.
use vstd::prelude::*;
use crate::apu::{Apu, APU_REGS};
use crate::ctrl::Joypad;
use crate::ppu::{Ppu, PpuState, OAM_SIZE};
use crate::ram::{zeroed, Ram, RAM_SIZE};

verus! {

/// First address of cartridge space.
pub const CART_START: u16 = 0x4020;
/// Number of bytes from $4020 to $FFFF.
pub const CART_SIZE: usize = 0xBFE0;

/// Everything that a bus access can observe or change.
pub struct BusState {
    pub ram: Seq<u8>,
    pub ppu: PpuState,
    pub apu: Seq<u8>,
    pub joy1: Joypad,
    pub joy2: Joypad,
    /// Cartridge space, $4020-$FFFF, as one byte-addressable device.
    pub cart: Seq<u8>,
    /// The last value the CPU placed on the bus; write-only PPU registers
    /// read back as this.
    pub latch: u8,
    /// An OAM-DMA was started and its stall is not yet accounted for.
    pub dma: bool,
}

impl BusState {
    pub open spec fn wf(self) -> bool {
        &&& self.ram.len() == RAM_SIZE
        &&& self.ppu.wf()
        &&& self.apu.len() == APU_REGS
        &&& self.cart.len() == CART_SIZE
    }

    /// The byte that a read of `addr` returns in this state.
    pub open spec fn peek(self, addr: u16) -> u8 {
        if addr < 0x2000 {
            self.ram[addr as int % 0x800]
        } else if addr < 0x4000 {
            self.ppu.peek(addr, self.latch)
        } else if addr == 0x4016 {
            self.joy1.peek()
        } else if addr == 0x4017 {
            self.joy2.peek()
        } else if addr < 0x4020 {
            Apu::peek(self.apu, addr)
        } else {
            self.cart[addr - 0x4020]
        }
    }

    /// The state after a read of `addr`: only the controllers change.
    pub open spec fn after_read(self, addr: u16) -> BusState {
        if addr == 0x4016 {
            BusState { joy1: self.joy1.after_read(), ..self }
        } else if addr == 0x4017 {
            BusState { joy2: self.joy2.after_read(), ..self }
        } else {
            self
        }
    }

    /// A read of `addr`: the new state and the byte.
    pub open spec fn read(self, addr: u16) -> (BusState, u8) {
        (self.after_read(addr), self.peek(addr))
    }

    /// Sprite memory after an OAM-DMA from page `page`.
    pub open spec fn dma_copy(self, page: u8) -> Seq<u8> {
        Seq::new(OAM_SIZE as nat, |i: int| self.peek((page as int * 256 + i) as u16))
    }

    /// The state after `v` is written to `addr`.
    pub open spec fn write(self, addr: u16, v: u8) -> BusState {
        let s = BusState { latch: v, ..self };
        if addr < 0x2000 {
            BusState { ram: self.ram.update(addr as int % 0x800, v), ..s }
        } else if addr < 0x4000 {
            BusState { ppu: self.ppu.write(addr, v), ..s }
        } else if addr == 0x4014 {
            BusState { ppu: PpuState { oam: self.dma_copy(v), ..self.ppu }, dma: true, ..s }
        } else if addr == 0x4016 {
            BusState { joy1: self.joy1.after_write(v), joy2: self.joy2.after_write(v), ..s }
        } else if addr < 0x4018 {
            BusState { apu: self.apu.update(addr - 0x4000, v), ..s }
        } else if addr < 0x4020 {
            s
        } else {
            BusState { cart: self.cart.update(addr - 0x4020, v), ..s }
        }
    }
}

/// Offset in cartridge space of $8000, where NROM maps PRG-ROM.
pub const PRG_OFFSET: usize = 0x3FE0;

/// Cartridge space once `prg` is mapped as NROM maps it: $8000-$FFFF hold
/// `prg`, repeated when it is 16 KiB; $4020-$7FFF are kept.
pub open spec fn with_prg(cart: Seq<u8>, prg: Seq<u8>) -> Seq<u8> {
    Seq::new(
        CART_SIZE as nat,
        |j: int|
            if j >= PRG_OFFSET {
                prg[(j - PRG_OFFSET) % (prg.len() as int)]
            } else {
                cart[j]
            },
    )
}

/// The data bus with every device behind it.
pub struct DataBus {
    ram: Ram,
    ppu: Ppu,
    apu: Apu,
    joy1: Joypad,
    joy2: Joypad,
    cart: Vec<u8>,
    latch: u8,
    dma: bool,
}

impl View for DataBus {
    type V = BusState;

    closed spec fn view(&self) -> BusState {
        BusState {
            ram: self.ram@,
            ppu: self.ppu@,
            apu: self.apu@,
            joy1: self.joy1,
            joy2: self.joy2,
            cart: self.cart@,
            latch: self.latch,
            dma: self.dma,
        }
    }
}

impl DataBus {
    pub open spec fn wf(&self) -> bool {
        self@.wf()
    }

    /// A bus whose memories are all zero and whose controllers are idle.
    pub fn new() -> (r: DataBus)
        ensures
            r.wf(),
            r@.ram == Seq::new(RAM_SIZE as nat, |i: int| 0u8),
            r@.cart == Seq::new(CART_SIZE as nat, |i: int| 0u8),
            r@.latch == 0,
            !r@.dma,
    {
        DataBus {
            ram: Ram::new(),
            ppu: Ppu::new(),
            apu: Apu::new(),
            joy1: Joypad::new(),
            joy2: Joypad::new(),
            cart: zeroed(CART_SIZE),
            latch: 0,
            dma: false,
        }
    }

    /// Drives `v` onto the data lines: later reads of write-only registers
    /// return it.
    pub fn set(&mut self, v: u8)
        requires
            old(self).wf(),
        ensures
            final(self).wf(),
            final(self)@ == (BusState { latch: v, ..old(self)@ }),
    {
        self.latch = v;
    }

    /// The byte that a read of `addr` would return, without its side effects.
    pub fn peek_u8(&self, addr: u16) -> (r: u8)
        requires
            self.wf(),
        ensures
            r == self@.peek(addr),
    {
        if addr < 0x2000 {
            self.ram.load_u8(addr)
        } else if addr < 0x4000 {
            self.ppu.load_u8(addr, self.latch)
        } else if addr == 0x4016 {
            if self.joy1.index > 7 {
                1
            } else {
                (self.joy1.buttons >> self.joy1.index) & 1
            }
        } else if addr == 0x4017 {
            if self.joy2.index > 7 {
                1
            } else {
                (self.joy2.buttons >> self.joy2.index) & 1
            }
        } else if addr < 0x4020 {
            self.apu.load_u8(addr)
        } else {
            self.cart[(addr - CART_START) as usize]
        }
    }

    /// Reads `addr` through the device that owns it.
    pub fn load_u8(&mut self, addr: u16) -> (r: u8)
        requires
            old(self).wf(),
        ensures
            final(self).wf(),
            (final(self)@, r) == old(self)@.read(addr),
    {
        if addr == 0x4016 {
            self.joy1.load_u8()
        } else if addr == 0x4017 {
            self.joy2.load_u8()
        } else {
            self.peek_u8(addr)
        }
    }

    /// Copies page `page` into sprite memory.
    fn oam_dma(&mut self, page: u8)
        requires
            old(self).wf(),
        ensures
            final(self).wf(),
            final(self)@ == (BusState {
                ppu: PpuState { oam: old(self)@.dma_copy(page), ..old(self)@.ppu },
                ..old(self)@
            }),
    {
        let base: u16 = page as u16 * 256;
        let mut i: usize = 0;
        while i < OAM_SIZE
            invariant
                i <= OAM_SIZE,
                base == page as int * 256,
                self.wf(),
                self@ == (BusState { ppu: PpuState { oam: self@.ppu.oam, ..old(self)@.ppu }, ..old(self)@ }),
                forall|k: int| 0 <= k < i ==> self@.ppu.oam[k] == old(self)@.dma_copy(page)[k],
            decreases OAM_SIZE - i,
        {
            let v = self.peek_u8(base + i as u16);
            assert(self@.peek((base + i) as u16) == old(self)@.peek((base + i) as u16));
            self.ppu.store_oam(i, v);
            i = i + 1;
        }
        assert(self@.ppu.oam =~= old(self)@.dma_copy(page));
    }

    /// Writes `v` to `addr` through the device that owns it.
    pub fn store_u8(&mut self, addr: u16, v: u8)
        requires
            old(self).wf(),
        ensures
            final(self).wf(),
            final(self)@ == old(self)@.write(addr, v),
    {
        if addr < 0x2000 {
            self.ram.store_u8(addr, v);
        } else if addr < 0x4000 {
            self.ppu.store_u8(addr, v);
        } else if addr == 0x4014 {
            self.oam_dma(v);
            self.dma = true;
        } else if addr == 0x4016 {
            self.joy1.store_u8(v);
            self.joy2.store_u8(v);
        } else if addr < 0x4018 {
            self.apu.store_u8(addr, v);
        } else if addr >= 0x4020 {
            self.cart.set((addr - CART_START) as usize, v);
        }
        self.latch = v;
    }

    /// Maps an NROM PRG-ROM of 16 KiB or 32 KiB into $8000-$FFFF.
    pub fn insert_prg(&mut self, prg: &[u8])
        requires
            old(self).wf(),
            prg@.len() == 0x4000 || prg@.len() == 0x8000,
        ensures
            final(self).wf(),
            final(self)@ == (BusState { cart: with_prg(old(self)@.cart, prg@), ..old(self)@ }),
    {
        let n = prg.len();
        let mut j: usize = PRG_OFFSET;
        while j < CART_SIZE
            invariant
                n == prg@.len(),
                n == 0x4000 || n == 0x8000,
                PRG_OFFSET <= j <= CART_SIZE,
                self.wf(),
                self@ == (BusState { cart: self@.cart, ..old(self)@ }),
                forall|k: int| 0 <= k < CART_SIZE && !(PRG_OFFSET <= k < j) ==> self@.cart[k] == old(self)@.cart[k],
                forall|k: int| PRG_OFFSET <= k < j ==> self@.cart[k] == with_prg(old(self)@.cart, prg@)[k],
            decreases CART_SIZE - j,
        {
            self.cart.set(j, prg[(j - PRG_OFFSET) % n]);
            j = j + 1;
        }
        assert(self@.cart =~= with_prg(old(self)@.cart, prg@));
    }

    /// Whether an OAM-DMA stall is pending; clears it.
    pub fn take_dma(&mut self) -> (r: bool)
        requires
            old(self).wf(),
        ensures
            final(self).wf(),
            r == old(self)@.dma,
            final(self)@ == (BusState { dma: false, ..old(self)@ }),
    {
        let r = self.dma;
        self.dma = false;
        r
    }
}

} // verus!

verus! {

/// Internal RAM is mirrored four times: the same byte is read at `k`,
/// `k + $800`, `k + $1000` and `k + $1800`.
pub proof fn lemma_ram_mirrors(b: BusState, k: u16)
    requires
        k < 0x800,
    ensures
        b.peek(k) == b.peek((k + 0x800) as u16),
        b.peek(k) == b.peek((k + 0x1000) as u16),
        b.peek(k) == b.peek((k + 0x1800) as u16),
{
}

/// The eight PPU registers repeat every eight bytes up to $3FFF.
pub proof fn lemma_ppu_mirrors(b: BusState, k: u16, n: u16)
    requires
        0x2000 + k < 0x4000,
        0x2000 + k % 8 + n * 8 < 0x4000,
    ensures
        b.peek((0x2000 + k) as u16) == b.peek((0x2000 + k % 8 + n * 8) as u16),
{
    assert((0x2000 + k as int) % 8 == (0x2000 + k as int % 8 + n as int * 8) % 8) by (nonlinear_arith);
}

} // verus!
