//! The 6502 interpreter: fetch, decode, resolve the operand, execute, and
//! account the cycles.
use vstd::prelude::*;
use crate::bus::{with_prg, BusState, DataBus};
use crate::flags::{assign, assign_flag, is_set, update_zn, with_zn, CARRY, BREAK, DECIMAL, IRQ, NEGATIVE, OVERFLOW, UNUSED, ZERO};
use crate::laws::{lemma_execute_keeps_cycles, lemma_step_cycles};
use crate::opcodes::{op_table, AddressingMode, Op, OpCode};
use crate::rom::{Rom, RomError};
use crate::state::{
    add_with_carry, bit_of, compared, indirect_hi, pulled_status, rel_target, shifted, word, CpuState,
    IRQ_VECTOR, NMI_VECTOR, RESET_VECTOR, STACK_BASE,
};

verus! {

/// The interrupt inputs sampled at each instruction boundary.
pub struct Interrupt {
    /// An NMI edge is latched and not yet serviced.
    pub nmi: bool,
    /// The IRQ line is held asserted by some device.
    pub irq: bool,
}

impl Interrupt {
    /// No interrupt pending.
    pub fn new() -> (r: Interrupt)
        ensures
            !r.nmi,
            !r.irq,
    {
        Interrupt { nmi: false, irq: false }
    }
}

/// Why `step` stopped without running an instruction.
#[derive(Clone, Copy, Debug, PartialEq, Eq, Structural)]
pub enum Fault {
    /// The byte at `pc` is not a documented opcode.
    IllegalOpcode { opcode: u8, pc: u16 },
}

/// The CPU: registers, cycle counter, interrupt inputs and the bus it drives.
pub struct Six502 {
    pub a: u8,
    pub x: u8,
    pub y: u8,
    pub pc: u16,
    pub s: u8,
    /// Processor status, `N V _ B D I Z C`.
    pub p: u8,
    /// Cycles elapsed since power-on.
    pub cy: u64,
    pub interrupt: Interrupt,
    pub bus: DataBus,
}

/// The result of `check_overflow`.
pub open spec fn overflows(a: u8, b: u8, res: u8) -> bool {
    (a ^ res) & (b ^ res) & 0x80 != 0
}

/// Whether adding `a` and `b` into `res` overflowed as signed bytes.
pub fn check_overflow(a: u8, b: u8, res: u8) -> (r: bool)
    ensures
        r == overflows(a, b, res),
{
    (a ^ res) & (b ^ res) & 0x80 != 0
}

fn adc_exec(a: u8, m: u8, p: u8) -> (r: (u8, u8))
    ensures
        r == add_with_carry(a, m, p),
{
    let carry: u16 = if p & CARRY != 0 {
        1
    } else {
        0
    };
    let sum: u16 = a as u16 + m as u16 + carry;
    let res = (sum % 256) as u8;
    let q = assign_flag(p, CARRY, sum > 0xFF);
    let q = assign_flag(q, OVERFLOW, check_overflow(a, m, res));
    (res, update_zn(q, res))
}

fn shift_exec(m: OpCode, v: u8, c: bool) -> (r: (u8, bool))
    ensures
        r == shifted(m, v, c),
{
    match m {
        OpCode::ASL => (v << 1u8, v & 0x80 != 0),
        OpCode::ROL => ((v << 1u8) | (if c { 1u8 } else { 0u8 }), v & 0x80 != 0),
        OpCode::LSR => (v >> 1u8, v & 1 != 0),
        _ => ((v >> 1u8) | (if c { 0x80u8 } else { 0u8 }), v & 1 != 0),
    }
}

fn rel_exec(pc: u16, off: u8) -> (r: u16)
    ensures
        r == rel_target(pc, off),
{
    if off < 0x80 {
        pc.wrapping_add(off as u16)
    } else {
        pc.wrapping_sub(256 - off as u16)
    }
}

fn word_exec(lo: u8, hi: u8) -> (r: u16)
    ensures
        r == word(lo, hi),
{
    hi as u16 * 256 + lo as u16
}

impl View for Six502 {
    type V = CpuState;

    open spec fn view(&self) -> CpuState {
        CpuState {
            a: self.a,
            x: self.x,
            y: self.y,
            pc: self.pc,
            s: self.s,
            p: self.p,
            cy: self.cy,
            nmi: self.interrupt.nmi,
            irq: self.interrupt.irq,
            bus: self.bus@,
        }
    }
}

impl Six502 {
    pub open spec fn wf(&self) -> bool {
        self.bus.wf()
    }

    /// A CPU in its post-RESET state on a zeroed bus: `A = X = Y = 0`,
    /// `S = $FD`, `P = $24`, `PC` from the (zero) RESET vector, 7 cycles.
    pub fn new() -> (r: Six502)
        ensures
            r.wf(),
            r.a == 0 && r.x == 0 && r.y == 0,
            r.s == 0xFD && r.p == 0x24 && r.pc == 0 && r.cy == 7,
            !r.interrupt.nmi && !r.interrupt.irq,
            r@.bus.ram == Seq::new(0x800, |i: int| 0u8),
            r@.bus.cart == Seq::new(0xBFE0, |i: int| 0u8),
            !r@.bus.dma,
    {
        let bus = DataBus::new();
        Six502 { a: 0, x: 0, y: 0, pc: 0, s: 0xFD, p: 0x24, cy: 7, interrupt: Interrupt::new(), bus }
    }

    /// Cycles elapsed since power-on.
    pub fn cycles(&self) -> (r: u64)
        ensures
            r == self.cy,
    {
        self.cy
    }

    // ----- bus access -----

    /// Reads `addr` through the bus.
    pub fn load_u8(&mut self, addr: u16) -> (r: u8)
        requires
            old(self).wf(),
        ensures
            final(self).wf(),
            (final(self)@, r) == old(self)@.read(addr),
    {
        self.bus.load_u8(addr)
    }

    /// Writes `v` to `addr` through the bus.
    pub fn store_u8(&mut self, addr: u16, v: u8)
        requires
            old(self).wf(),
        ensures
            final(self).wf(),
            final(self)@ == old(self)@.write(addr, v),
    {
        self.bus.store_u8(addr, v);
    }

    /// Reads a word from `lo_addr` (low byte) and `hi_addr` (high byte).
    pub fn load_u16(&mut self, lo_addr: u16, hi_addr: u16) -> (r: u16)
        requires
            old(self).wf(),
        ensures
            final(self).wf(),
            (final(self)@, r) == old(self)@.read_word(lo_addr, hi_addr),
    {
        let lo = self.load_u8(lo_addr);
        let hi = self.load_u8(hi_addr);
        word_exec(lo, hi)
    }

    /// Reads the byte at `PC` and advances `PC`.
    pub fn load_u8_bump_pc(&mut self) -> (r: u8)
        requires
            old(self).wf(),
        ensures
            final(self).wf(),
            (final(self)@, r) == old(self)@.fetch(),
    {
        let v = self.load_u8(self.pc);
        self.pc = self.pc.wrapping_add(1);
        v
    }

    /// Reads the word at `PC` and advances `PC` by two.
    pub fn load_u16_bump_pc(&mut self) -> (r: u16)
        requires
            old(self).wf(),
        ensures
            final(self).wf(),
            (final(self)@, r) == old(self)@.fetch_word(),
    {
        let lo = self.load_u8_bump_pc();
        let hi = self.load_u8_bump_pc();
        word_exec(lo, hi)
    }

    // ----- stack -----

    /// Stores `v` at `$0100 | S` and decrements `S` (wrapping).
    pub fn push_u8(&mut self, v: u8)
        requires
            old(self).wf(),
        ensures
            final(self).wf(),
            final(self)@ == old(self)@.push(v),
            final(self).s == old(self).s.wrapping_sub(1),
    {
        self.store_u8(STACK_BASE + self.s as u16, v);
        self.s = self.s.wrapping_sub(1);
    }

    /// Increments `S` (wrapping) and loads from `$0100 | S`.
    pub fn pull_u8(&mut self) -> (r: u8)
        requires
            old(self).wf(),
        ensures
            final(self).wf(),
            (final(self)@, r) == old(self)@.pull(),
            final(self).s == old(self).s.wrapping_add(1),
    {
        self.s = self.s.wrapping_add(1);
        self.load_u8(STACK_BASE + self.s as u16)
    }

    /// Pushes the high byte of `w`, then the low byte.
    pub fn push_u16(&mut self, w: u16)
        requires
            old(self).wf(),
        ensures
            final(self).wf(),
            final(self)@ == old(self)@.push_word(w),
    {
        self.push_u8((w / 256) as u8);
        self.push_u8((w % 256) as u8);
    }

    /// Pulls the low byte, then the high byte.
    pub fn pull_u16(&mut self) -> (r: u16)
        requires
            old(self).wf(),
        ensures
            final(self).wf(),
            (final(self)@, r) == old(self)@.pull_word(),
    {
        let lo = self.pull_u8();
        let hi = self.pull_u8();
        word_exec(lo, hi)
    }

    // ----- flags -----

    /// Sets the bits of `flag` in `P`.
    pub fn set_flag(&mut self, flag: u8)
        ensures
            *final(self) == (Six502 { p: old(self).p | flag, ..*old(self) }),
    {
        self.p = self.p | flag;
    }

    /// Clears the bits of `flag` in `P`.
    pub fn clear_flag(&mut self, flag: u8)
        ensures
            *final(self) == (Six502 { p: old(self).p & !flag, ..*old(self) }),
    {
        self.p = self.p & !flag;
    }

    /// Sets `flag` when `cond` holds, clears it otherwise.
    pub fn assert_flag(&mut self, flag: u8, cond: bool)
        ensures
            *final(self) == (Six502 { p: assign(old(self).p, flag, cond), ..*old(self) }),
    {
        self.p = assign_flag(self.p, flag, cond);
    }

    /// Whether any bit of `flag` is set in `P`.
    pub fn is_flag_set(&self, flag: u8) -> (r: bool)
        ensures
            r == is_set(self.p, flag),
    {
        self.p & flag != 0
    }

    /// `Z := v == 0`, `N := bit 7 of v`.
    pub fn update_zn_flags(&mut self, v: u8)
        ensures
            *final(self) == (Six502 { p: with_zn(old(self).p, v), ..*old(self) }),
    {
        self.p = update_zn(self.p, v);
    }

    // ----- addressing -----

    /// Consumes the operand bytes of a memory mode and gives the effective
    /// address and whether an indexed access crossed a page.
    pub fn resolve(&mut self, mode: AddressingMode) -> (r: (u16, bool))
        requires
            old(self).wf(),
        ensures
            final(self).wf(),
            (final(self)@, r.0, r.1) == old(self)@.resolve(mode),
    {
        let x = self.x;
        let y = self.y;
        match mode {
            AddressingMode::ZeroPage => {
                let ll = self.load_u8_bump_pc();
                (ll as u16, false)
            },
            AddressingMode::ZeroPageX => {
                let ll = self.load_u8_bump_pc();
                (ll.wrapping_add(x) as u16, false)
            },
            AddressingMode::ZeroPageY => {
                let ll = self.load_u8_bump_pc();
                (ll.wrapping_add(y) as u16, false)
            },
            AddressingMode::Absolute => {
                let w = self.load_u16_bump_pc();
                (w, false)
            },
            AddressingMode::AbsoluteX => {
                let w = self.load_u16_bump_pc();
                (w.wrapping_add(x as u16), w % 256 + x as u16 > 0xFF)
            },
            AddressingMode::AbsoluteY => {
                let w = self.load_u16_bump_pc();
                (w.wrapping_add(y as u16), w % 256 + y as u16 > 0xFF)
            },
            AddressingMode::Indirect => {
                let ptr = self.load_u16_bump_pc();
                let hi_addr = ptr - ptr % 256 + (ptr % 256 + 1) % 256;
                assert(hi_addr == indirect_hi(ptr));
                let w = self.load_u16(ptr, hi_addr);
                (w, false)
            },
            AddressingMode::IndexedIndirect => {
                let ll = self.load_u8_bump_pc();
                let zp = ll.wrapping_add(x);
                let w = self.load_u16(zp as u16, zp.wrapping_add(1) as u16);
                (w, false)
            },
            AddressingMode::IndirectIndexed => {
                let ll = self.load_u8_bump_pc();
                let w = self.load_u16(ll as u16, ll.wrapping_add(1) as u16);
                (w.wrapping_add(y as u16), w % 256 + y as u16 > 0xFF)
            },
            _ => (0, false),
        }
    }

    /// The operand byte of a read-style instruction, and the page cross.
    pub fn load_operand(&mut self, mode: AddressingMode) -> (r: (u8, bool))
        requires
            old(self).wf(),
        ensures
            final(self).wf(),
            (final(self)@, r.0, r.1) == old(self)@.load_operand(mode),
    {
        match mode {
            AddressingMode::Accumulator => (self.a, false),
            AddressingMode::Immediate => (self.load_u8_bump_pc(), false),
            _ => {
                let (ea, cross) = self.resolve(mode);
                (self.load_u8(ea), cross)
            },
        }
    }

    // ----- loads and stores -----

    /// LDA: `A := M`; updates Z, N. Returns the page-cross penalty.
    pub fn lda(&mut self, mode: AddressingMode) -> (r: u8)
        requires
            old(self).wf(),
        ensures
            final(self).wf(),
            (final(self)@, r) == old(self)@.load(OpCode::LDA, mode),
    {
        let (v, cross) = self.load_operand(mode);
        self.a = v;
        self.update_zn_flags(v);
        if cross { 1 } else { 0 }
    }

    /// LDX: `X := M`; updates Z, N. Returns the page-cross penalty.
    pub fn ldx(&mut self, mode: AddressingMode) -> (r: u8)
        requires
            old(self).wf(),
        ensures
            final(self).wf(),
            (final(self)@, r) == old(self)@.load(OpCode::LDX, mode),
    {
        let (v, cross) = self.load_operand(mode);
        self.x = v;
        self.update_zn_flags(v);
        if cross { 1 } else { 0 }
    }

    /// LDY: `Y := M`; updates Z, N. Returns the page-cross penalty.
    pub fn ldy(&mut self, mode: AddressingMode) -> (r: u8)
        requires
            old(self).wf(),
        ensures
            final(self).wf(),
            (final(self)@, r) == old(self)@.load(OpCode::LDY, mode),
    {
        let (v, cross) = self.load_operand(mode);
        self.y = v;
        self.update_zn_flags(v);
        if cross { 1 } else { 0 }
    }

    fn store_reg(&mut self, v: u8, mode: AddressingMode)
        requires
            old(self).wf(),
        ensures
            final(self).wf(),
            final(self)@ == old(self)@.store(v, mode),
    {
        let (ea, _cross) = self.resolve(mode);
        self.store_u8(ea, v);
    }

    /// STA: `M[EA] := A`.
    pub fn sta(&mut self, mode: AddressingMode)
        requires
            old(self).wf(),
        ensures
            final(self).wf(),
            final(self)@ == old(self)@.store(old(self).a, mode),
    {
        self.store_reg(self.a, mode);
    }

    /// STX: `M[EA] := X`.
    pub fn stx(&mut self, mode: AddressingMode)
        requires
            old(self).wf(),
        ensures
            final(self).wf(),
            final(self)@ == old(self)@.store(old(self).x, mode),
    {
        self.store_reg(self.x, mode);
    }

    /// STY: `M[EA] := Y`.
    pub fn sty(&mut self, mode: AddressingMode)
        requires
            old(self).wf(),
        ensures
            final(self).wf(),
            final(self)@ == old(self)@.store(old(self).y, mode),
    {
        self.store_reg(self.y, mode);
    }

    // ----- logic and arithmetic -----

    /// AND: `A := A & M`; updates Z, N.
    pub fn and(&mut self, mode: AddressingMode) -> (r: u8)
        requires
            old(self).wf(),
        ensures
            final(self).wf(),
            (final(self)@, r) == old(self)@.logic(OpCode::AND, mode),
    {
        let (v, cross) = self.load_operand(mode);
        self.a = self.a & v;
        self.update_zn_flags(self.a);
        if cross { 1 } else { 0 }
    }

    /// ORA: `A := A | M`; updates Z, N.
    pub fn ora(&mut self, mode: AddressingMode) -> (r: u8)
        requires
            old(self).wf(),
        ensures
            final(self).wf(),
            (final(self)@, r) == old(self)@.logic(OpCode::ORA, mode),
    {
        let (v, cross) = self.load_operand(mode);
        self.a = self.a | v;
        self.update_zn_flags(self.a);
        if cross { 1 } else { 0 }
    }

    /// EOR: `A := A ^ M`; updates Z, N.
    pub fn eor(&mut self, mode: AddressingMode) -> (r: u8)
        requires
            old(self).wf(),
        ensures
            final(self).wf(),
            (final(self)@, r) == old(self)@.logic(OpCode::EOR, mode),
    {
        let (v, cross) = self.load_operand(mode);
        self.a = self.a ^ v;
        self.update_zn_flags(self.a);
        if cross { 1 } else { 0 }
    }

    /// ADC: `A := A + M + C`; sets C, V, Z, N.
    pub fn adc(&mut self, mode: AddressingMode) -> (r: u8)
        requires
            old(self).wf(),
        ensures
            final(self).wf(),
            (final(self)@, r) == old(self)@.arith(false, mode),
    {
        let (v, cross) = self.load_operand(mode);
        let (res, p) = adc_exec(self.a, v, self.p);
        self.a = res;
        self.p = p;
        if cross { 1 } else { 0 }
    }

    /// SBC: ADC of `M ^ 0xFF`; C set before means no borrow.
    pub fn sbc(&mut self, mode: AddressingMode) -> (r: u8)
        requires
            old(self).wf(),
        ensures
            final(self).wf(),
            (final(self)@, r) == old(self)@.arith(true, mode),
    {
        let (v, cross) = self.load_operand(mode);
        let (res, p) = adc_exec(self.a, v ^ 0xFF, self.p);
        self.a = res;
        self.p = p;
        if cross { 1 } else { 0 }
    }

    /// Sets C to `reg >= v` and Z, N from `reg - v`.
    pub fn compare(&mut self, reg: u8, v: u8)
        ensures
            *final(self) == (Six502 { p: compared(old(self).p, reg, v), ..*old(self) }),
    {
        self.assert_flag(CARRY, reg >= v);
        self.update_zn_flags(reg.wrapping_sub(v));
    }

    /// CMP: compares `A` with `M`.
    pub fn cmp(&mut self, mode: AddressingMode) -> (r: u8)
        requires
            old(self).wf(),
        ensures
            final(self).wf(),
            (final(self)@, r) == old(self)@.compare(old(self).a, mode),
    {
        let (v, cross) = self.load_operand(mode);
        self.compare(self.a, v);
        if cross { 1 } else { 0 }
    }

    /// CPX: compares `X` with `M`.
    pub fn cpx(&mut self, mode: AddressingMode)
        requires
            old(self).wf(),
        ensures
            final(self).wf(),
            final(self)@ == old(self)@.compare(old(self).x, mode).0,
    {
        let (v, _cross) = self.load_operand(mode);
        self.compare(self.x, v);
    }

    /// CPY: compares `Y` with `M`.
    pub fn cpy(&mut self, mode: AddressingMode)
        requires
            old(self).wf(),
        ensures
            final(self).wf(),
            final(self)@ == old(self)@.compare(old(self).y, mode).0,
    {
        let (v, _cross) = self.load_operand(mode);
        self.compare(self.y, v);
    }

    /// BIT: Z from `A & M`, N from bit 7 and V from bit 6 of `M`.
    pub fn bit(&mut self, mode: AddressingMode)
        requires
            old(self).wf(),
        ensures
            final(self).wf(),
            final(self)@ == old(self)@.bit_test(mode),
    {
        let (v, _cross) = self.load_operand(mode);
        self.assert_flag(ZERO, self.a & v == 0);
        self.assert_flag(NEGATIVE, v & 0x80 != 0);
        self.assert_flag(OVERFLOW, v & 0x40 != 0);
    }

    // ----- increments and decrements -----

    fn step_memory(&mut self, up: bool, mode: AddressingMode)
        requires
            old(self).wf(),
        ensures
            final(self).wf(),
            final(self)@ == old(self)@.step_memory(up, mode),
    {
        let (ea, _cross) = self.resolve(mode);
        let v = self.load_u8(ea);
        let r = if up {
            v.wrapping_add(1)
        } else {
            v.wrapping_sub(1)
        };
        self.store_u8(ea, r);
        self.update_zn_flags(r);
    }

    /// INC: `M := M + 1` (wrapping); updates Z, N.
    pub fn inc(&mut self, mode: AddressingMode)
        requires
            old(self).wf(),
        ensures
            final(self).wf(),
            final(self)@ == old(self)@.step_memory(true, mode),
    {
        self.step_memory(true, mode);
    }

    /// DEC: `M := M - 1` (wrapping); updates Z, N.
    pub fn dec(&mut self, mode: AddressingMode)
        requires
            old(self).wf(),
        ensures
            final(self).wf(),
            final(self)@ == old(self)@.step_memory(false, mode),
    {
        self.step_memory(false, mode);
    }

    /// INX.
    pub fn inx(&mut self)
        ensures
            *final(self) == (Six502 {
                x: old(self).x.wrapping_add(1),
                p: with_zn(old(self).p, old(self).x.wrapping_add(1)),
                ..*old(self)
            }),
    {
        let x = self.x.wrapping_add(1);
        self.update_zn_flags(x);
        self.x = x;
    }

    /// DEX.
    pub fn dex(&mut self)
        ensures
            *final(self) == (Six502 {
                x: old(self).x.wrapping_sub(1),
                p: with_zn(old(self).p, old(self).x.wrapping_sub(1)),
                ..*old(self)
            }),
    {
        let x = self.x.wrapping_sub(1);
        self.update_zn_flags(x);
        self.x = x;
    }

    /// INY.
    pub fn iny(&mut self)
        ensures
            *final(self) == (Six502 {
                y: old(self).y.wrapping_add(1),
                p: with_zn(old(self).p, old(self).y.wrapping_add(1)),
                ..*old(self)
            }),
    {
        let y = self.y.wrapping_add(1);
        self.update_zn_flags(y);
        self.y = y;
    }

    /// DEY.
    pub fn dey(&mut self)
        ensures
            *final(self) == (Six502 {
                y: old(self).y.wrapping_sub(1),
                p: with_zn(old(self).p, old(self).y.wrapping_sub(1)),
                ..*old(self)
            }),
    {
        let y = self.y.wrapping_sub(1);
        self.update_zn_flags(y);
        self.y = y;
    }

    // ----- shifts -----

    fn shift(&mut self, m: OpCode, mode: AddressingMode)
        requires
            old(self).wf(),
        ensures
            final(self).wf(),
            final(self)@ == old(self)@.shift(m, mode),
    {
        if mode == AddressingMode::Accumulator {
            let (r, c) = shift_exec(m, self.a, self.is_flag_set(CARRY));
            self.a = r;
            self.assert_flag(CARRY, c);
            self.update_zn_flags(r);
        } else {
            let (ea, _cross) = self.resolve(mode);
            let v = self.load_u8(ea);
            let (r, c) = shift_exec(m, v, self.is_flag_set(CARRY));
            self.store_u8(ea, r);
            self.assert_flag(CARRY, c);
            self.update_zn_flags(r);
        }
    }

    /// ASL: `C := bit 7; M := M << 1`.
    pub fn asl(&mut self, mode: AddressingMode)
        requires
            old(self).wf(),
        ensures
            final(self).wf(),
            final(self)@ == old(self)@.shift(OpCode::ASL, mode),
    {
        self.shift(OpCode::ASL, mode);
    }

    /// LSR: `C := bit 0; M := M >> 1`.
    pub fn lsr(&mut self, mode: AddressingMode)
        requires
            old(self).wf(),
        ensures
            final(self).wf(),
            final(self)@ == old(self)@.shift(OpCode::LSR, mode),
    {
        self.shift(OpCode::LSR, mode);
    }

    /// ROL: `M := (M << 1) | C; C := old bit 7`.
    pub fn rol(&mut self, mode: AddressingMode)
        requires
            old(self).wf(),
        ensures
            final(self).wf(),
            final(self)@ == old(self)@.shift(OpCode::ROL, mode),
    {
        self.shift(OpCode::ROL, mode);
    }

    /// ROR: `M := (M >> 1) | (C << 7); C := old bit 0`.
    pub fn ror(&mut self, mode: AddressingMode)
        requires
            old(self).wf(),
        ensures
            final(self).wf(),
            final(self)@ == old(self)@.shift(OpCode::ROR, mode),
    {
        self.shift(OpCode::ROR, mode);
    }

    // ----- transfers -----

    /// TAX.
    pub fn tax(&mut self)
        ensures
            *final(self) == (Six502 { x: old(self).a, p: with_zn(old(self).p, old(self).a), ..*old(self) }),
    {
        self.x = self.a;
        self.update_zn_flags(self.a);
    }

    /// TAY.
    pub fn tay(&mut self)
        ensures
            *final(self) == (Six502 { y: old(self).a, p: with_zn(old(self).p, old(self).a), ..*old(self) }),
    {
        self.y = self.a;
        self.update_zn_flags(self.a);
    }

    /// TXA.
    pub fn txa(&mut self)
        ensures
            *final(self) == (Six502 { a: old(self).x, p: with_zn(old(self).p, old(self).x), ..*old(self) }),
    {
        self.a = self.x;
        self.update_zn_flags(self.x);
    }

    /// TYA.
    pub fn tya(&mut self)
        ensures
            *final(self) == (Six502 { a: old(self).y, p: with_zn(old(self).p, old(self).y), ..*old(self) }),
    {
        self.a = self.y;
        self.update_zn_flags(self.y);
    }

    /// TSX.
    pub fn tsx(&mut self)
        ensures
            *final(self) == (Six502 { x: old(self).s, p: with_zn(old(self).p, old(self).s), ..*old(self) }),
    {
        self.x = self.s;
        self.update_zn_flags(self.s);
    }

    /// TXS: `S := X`; no flag changes.
    pub fn txs(&mut self)
        ensures
            *final(self) == (Six502 { s: old(self).x, ..*old(self) }),
    {
        self.s = self.x;
    }

    // ----- stack instructions -----

    /// PHA.
    pub fn pha(&mut self)
        requires
            old(self).wf(),
        ensures
            final(self).wf(),
            final(self)@ == old(self)@.push(old(self).a),
    {
        self.push_u8(self.a);
    }

    /// PLA: pulls into `A`; updates Z, N.
    pub fn pla(&mut self)
        requires
            old(self).wf(),
        ensures
            final(self).wf(),
            final(self)@ == ({
                let (s, v) = old(self)@.pull();
                CpuState { a: v, p: with_zn(s.p, v), ..s }
            }),
    {
        let v = self.pull_u8();
        self.a = v;
        self.update_zn_flags(v);
    }

    /// PHP: pushes `P | $30`.
    pub fn php(&mut self)
        requires
            old(self).wf(),
        ensures
            final(self).wf(),
            final(self)@ == old(self)@.push(old(self).p | BREAK | UNUSED),
    {
        self.push_u8(self.p | BREAK | UNUSED);
    }

    /// PLP: pulls `P`, dropping B and forcing bit 5.
    pub fn plp(&mut self)
        requires
            old(self).wf(),
        ensures
            final(self).wf(),
            final(self)@ == ({
                let (s, v) = old(self)@.pull();
                CpuState { p: pulled_status(v), ..s }
            }),
    {
        let v = self.pull_u8();
        self.p = (v & !BREAK) | UNUSED;
    }

    // ----- jumps, calls, interrupts -----

    /// JMP absolute or indirect.
    pub fn jmp(&mut self, mode: AddressingMode)
        requires
            old(self).wf(),
        ensures
            final(self).wf(),
            final(self)@ == ({
                let (s, target, _cross) = old(self)@.resolve(mode);
                CpuState { pc: target, ..s }
            }),
    {
        let (target, _cross) = self.resolve(mode);
        self.pc = target;
    }

    /// JSR: pushes `PC - 1` after the operand, then jumps.
    pub fn jsr(&mut self)
        requires
            old(self).wf(),
        ensures
            final(self).wf(),
            final(self)@ == old(self)@.jsr(),
    {
        let target = self.load_u16_bump_pc();
        self.push_u16(self.pc.wrapping_sub(1));
        self.pc = target;
    }

    /// RTS: pulls `PC` and adds one.
    pub fn rts(&mut self)
        requires
            old(self).wf(),
        ensures
            final(self).wf(),
            final(self)@ == old(self)@.rts(),
    {
        let w = self.pull_u16();
        self.pc = w.wrapping_add(1);
    }

    fn enter(&mut self, ret: u16, status: u8, vector: u16)
        requires
            old(self).wf(),
        ensures
            final(self).wf(),
            final(self)@ == old(self)@.enter(ret, status, vector),
    {
        self.push_u16(ret);
        self.push_u8(status);
        self.set_flag(IRQ);
        self.pc = self.load_u16(vector, vector.wrapping_add(1));
    }

    /// BRK: pushes `PC + 1` and `P | $30`, sets I, jumps through $FFFE.
    pub fn brk(&mut self)
        requires
            old(self).wf(),
        ensures
            final(self).wf(),
            final(self)@ == old(self)@.brk(),
    {
        self.enter(self.pc.wrapping_add(1), self.p | BREAK | UNUSED, IRQ_VECTOR);
    }

    /// RTI: pulls `P` (B dropped, bit 5 on), then `PC`.
    pub fn rti(&mut self)
        requires
            old(self).wf(),
        ensures
            final(self).wf(),
            final(self)@ == old(self)@.rti(),
    {
        let v = self.pull_u8();
        self.p = (v & !BREAK) | UNUSED;
        self.pc = self.pull_u16();
    }

    /// Services a hardware interrupt through `vector`: pushes `PC` and `P`
    /// with B clear, sets I, loads the vector.
    pub fn service(&mut self, vector: u16)
        requires
            old(self).wf(),
        ensures
            final(self).wf(),
            final(self)@ == old(self)@.interrupt(vector),
    {
        self.enter(self.pc, (self.p & !BREAK) | UNUSED, vector);
    }

    /// Latches an NMI; it is taken at the next instruction boundary.
    pub fn nmi(&mut self)
        ensures
            *final(self) == (Six502 { interrupt: Interrupt { nmi: true, irq: old(self).interrupt.irq }, ..*old(self) }),
    {
        self.interrupt.nmi = true;
    }

    /// Sets the level of the IRQ line.
    pub fn irq(&mut self, asserted: bool)
        ensures
            *final(self) == (Six502 { interrupt: Interrupt { nmi: old(self).interrupt.nmi, irq: asserted }, ..*old(self) }),
    {
        self.interrupt.irq = asserted;
    }

    /// RESET: `S := $FD`, `P := $24`, `PC` from $FFFC, 7 cycles.
    pub fn reset(&mut self)
        requires
            old(self).wf(),
        ensures
            final(self).wf(),
            final(self)@ == old(self)@.reset(),
    {
        self.pc = self.load_u16(RESET_VECTOR, 0xFFFD);
        self.s = 0xFD;
        self.p = 0x24;
        self.cy = self.cy.saturating_add(7);
    }

    // ----- branches -----

    /// Takes the relative branch when flag `flag` is set (`cond`) or clear
    /// (`!cond`). Returns the extra cycles: one if taken, one more if the
    /// target lies on another page than the next instruction.
    pub fn branch(&mut self, flag: u8, cond: bool) -> (r: u8)
        requires
            old(self).wf(),
        ensures
            final(self).wf(),
            (final(self)@, r) == old(self)@.branch(flag, cond),
    {
        let off = self.load_u8_bump_pc();
        let next = self.pc;
        let target = rel_exec(next, off);
        if self.is_flag_set(flag) == cond {
            self.pc = target;
            if next / 256 != target / 256 {
                2
            } else {
                1
            }
        } else {
            0
        }
    }

    /// BPL: branch if N clear.
    pub fn bpl(&mut self) -> (r: u8)
        requires
            old(self).wf(),
        ensures
            final(self).wf(),
            (final(self)@, r) == old(self)@.branch(NEGATIVE, false),
    {
        self.branch(NEGATIVE, false)
    }

    /// BMI: branch if N set.
    pub fn bmi(&mut self) -> (r: u8)
        requires
            old(self).wf(),
        ensures
            final(self).wf(),
            (final(self)@, r) == old(self)@.branch(NEGATIVE, true),
    {
        self.branch(NEGATIVE, true)
    }

    /// BVC: branch if V clear.
    pub fn bvc(&mut self) -> (r: u8)
        requires
            old(self).wf(),
        ensures
            final(self).wf(),
            (final(self)@, r) == old(self)@.branch(OVERFLOW, false),
    {
        self.branch(OVERFLOW, false)
    }

    /// BVS: branch if V set.
    pub fn bvs(&mut self) -> (r: u8)
        requires
            old(self).wf(),
        ensures
            final(self).wf(),
            (final(self)@, r) == old(self)@.branch(OVERFLOW, true),
    {
        self.branch(OVERFLOW, true)
    }

    /// BCC: branch if C clear.
    pub fn bcc(&mut self) -> (r: u8)
        requires
            old(self).wf(),
        ensures
            final(self).wf(),
            (final(self)@, r) == old(self)@.branch(CARRY, false),
    {
        self.branch(CARRY, false)
    }

    /// BCS: branch if C set.
    pub fn bcs(&mut self) -> (r: u8)
        requires
            old(self).wf(),
        ensures
            final(self).wf(),
            (final(self)@, r) == old(self)@.branch(CARRY, true),
    {
        self.branch(CARRY, true)
    }

    /// BNE: branch if Z clear.
    pub fn bne(&mut self) -> (r: u8)
        requires
            old(self).wf(),
        ensures
            final(self).wf(),
            (final(self)@, r) == old(self)@.branch(ZERO, false),
    {
        self.branch(ZERO, false)
    }

    /// BEQ: branch if Z set.
    pub fn beq(&mut self) -> (r: u8)
        requires
            old(self).wf(),
        ensures
            final(self).wf(),
            (final(self)@, r) == old(self)@.branch(ZERO, true),
    {
        self.branch(ZERO, true)
    }

    // ----- flag instructions -----

    /// CLC.
    pub fn clc(&mut self)
        ensures
            *final(self) == (Six502 { p: old(self).p & !CARRY, ..*old(self) }),
    {
        self.clear_flag(CARRY);
    }

    /// SEC.
    pub fn sec(&mut self)
        ensures
            *final(self) == (Six502 { p: old(self).p | CARRY, ..*old(self) }),
    {
        self.set_flag(CARRY);
    }

    /// CLI.
    pub fn cli(&mut self)
        ensures
            *final(self) == (Six502 { p: old(self).p & !IRQ, ..*old(self) }),
    {
        self.clear_flag(IRQ);
    }

    /// SEI.
    pub fn sei(&mut self)
        ensures
            *final(self) == (Six502 { p: old(self).p | IRQ, ..*old(self) }),
    {
        self.set_flag(IRQ);
    }

    /// CLV.
    pub fn clv(&mut self)
        ensures
            *final(self) == (Six502 { p: old(self).p & !OVERFLOW, ..*old(self) }),
    {
        self.clear_flag(OVERFLOW);
    }

    /// CLD.
    pub fn cld(&mut self)
        ensures
            *final(self) == (Six502 { p: old(self).p & !DECIMAL, ..*old(self) }),
    {
        self.clear_flag(DECIMAL);
    }

    /// SED.
    pub fn sed(&mut self)
        ensures
            *final(self) == (Six502 { p: old(self).p | DECIMAL, ..*old(self) }),
    {
        self.set_flag(DECIMAL);
    }
}


impl Six502 {
    /// Executes loads and stores.
    fn execute_load_store(&mut self, op: Op) -> (r: u8)
        requires
            old(self).wf(),
        ensures
            final(self).wf(),
            (final(self)@, r) == old(self)@.execute_load_store(op),
    {
        proof {
            reveal(CpuState::execute_load_store);
        }
        let mode = op.mode;
        match op.mnemonic {
            OpCode::LDA => self.lda(mode),
            OpCode::LDX => self.ldx(mode),
            OpCode::LDY => self.ldy(mode),
            OpCode::STA => {
                self.sta(mode);
                0
            },
            OpCode::STX => {
                self.stx(mode);
                0
            },
            OpCode::STY => {
                self.sty(mode);
                0
            },
            _ => 0,
        }
    }

    /// Executes logic, arithmetic, compares and BIT.
    fn execute_alu(&mut self, op: Op) -> (r: u8)
        requires
            old(self).wf(),
        ensures
            final(self).wf(),
            (final(self)@, r) == old(self)@.execute_alu(op),
    {
        proof {
            reveal(CpuState::execute_alu);
        }
        let mode = op.mode;
        match op.mnemonic {
            OpCode::AND => self.and(mode),
            OpCode::ORA => self.ora(mode),
            OpCode::EOR => self.eor(mode),
            OpCode::ADC => self.adc(mode),
            OpCode::SBC => self.sbc(mode),
            OpCode::CMP => self.cmp(mode),
            OpCode::CPX => {
                self.cpx(mode);
                0
            },
            OpCode::CPY => {
                self.cpy(mode);
                0
            },
            OpCode::BIT => {
                self.bit(mode);
                0
            },
            _ => 0,
        }
    }

    /// Executes increments, decrements, shifts and rotates.
    fn execute_modify(&mut self, op: Op) -> (r: u8)
        requires
            old(self).wf(),
        ensures
            final(self).wf(),
            (final(self)@, r) == old(self)@.execute_modify(op),
    {
        proof {
            reveal(CpuState::execute_modify);
        }
        let mode = op.mode;
        match op.mnemonic {
            OpCode::INC => {
                self.inc(mode);
                0
            },
            OpCode::DEC => {
                self.dec(mode);
                0
            },
            OpCode::INX => {
                self.inx();
                0
            },
            OpCode::DEX => {
                self.dex();
                0
            },
            OpCode::INY => {
                self.iny();
                0
            },
            OpCode::DEY => {
                self.dey();
                0
            },
            OpCode::ASL => {
                self.asl(mode);
                0
            },
            OpCode::LSR => {
                self.lsr(mode);
                0
            },
            OpCode::ROL => {
                self.rol(mode);
                0
            },
            OpCode::ROR => {
                self.ror(mode);
                0
            },
            _ => 0,
        }
    }

    /// Executes register transfers and stack instructions.
    fn execute_transfer(&mut self, op: Op) -> (r: u8)
        requires
            old(self).wf(),
        ensures
            final(self).wf(),
            (final(self)@, r) == old(self)@.execute_transfer(op),
    {
        proof {
            reveal(CpuState::execute_transfer);
        }
        let mode = op.mode;
        match op.mnemonic {
            OpCode::TAX => {
                self.tax();
                0
            },
            OpCode::TAY => {
                self.tay();
                0
            },
            OpCode::TXA => {
                self.txa();
                0
            },
            OpCode::TYA => {
                self.tya();
                0
            },
            OpCode::TSX => {
                self.tsx();
                0
            },
            OpCode::TXS => {
                self.txs();
                0
            },
            OpCode::PHA => {
                self.pha();
                0
            },
            OpCode::PHP => {
                self.php();
                0
            },
            OpCode::PLA => {
                self.pla();
                0
            },
            OpCode::PLP => {
                self.plp();
                0
            },
            _ => 0,
        }
    }

    /// Executes jumps, calls, returns and branches.
    fn execute_flow(&mut self, op: Op) -> (r: u8)
        requires
            old(self).wf(),
        ensures
            final(self).wf(),
            (final(self)@, r) == old(self)@.execute_flow(op),
    {
        proof {
            reveal(CpuState::execute_flow);
        }
        let mode = op.mode;
        match op.mnemonic {
            OpCode::JMP => {
                self.jmp(mode);
                0
            },
            OpCode::JSR => {
                self.jsr();
                0
            },
            OpCode::RTS => {
                self.rts();
                0
            },
            OpCode::BRK => {
                self.brk();
                0
            },
            OpCode::RTI => {
                self.rti();
                0
            },
            OpCode::BPL => self.bpl(),
            OpCode::BMI => self.bmi(),
            OpCode::BVC => self.bvc(),
            OpCode::BVS => self.bvs(),
            OpCode::BCC => self.bcc(),
            OpCode::BCS => self.bcs(),
            OpCode::BNE => self.bne(),
            OpCode::BEQ => self.beq(),
            _ => 0,
        }
    }

    /// Executes flag instructions and NOP.
    fn execute_status(&mut self, op: Op) -> (r: u8)
        requires
            old(self).wf(),
        ensures
            final(self).wf(),
            (final(self)@, r) == old(self)@.execute_status(op),
    {
        proof {
            reveal(CpuState::execute_status);
        }
        let mode = op.mode;
        match op.mnemonic {
            OpCode::CLC => {
                self.clc();
                0
            },
            OpCode::SEC => {
                self.sec();
                0
            },
            OpCode::CLI => {
                self.cli();
                0
            },
            OpCode::SEI => {
                self.sei();
                0
            },
            OpCode::CLV => {
                self.clv();
                0
            },
            OpCode::CLD => {
                self.cld();
                0
            },
            OpCode::SED => {
                self.sed();
                0
            },
            OpCode::NOP => 0,

            _ => 0,
        }
    }

    /// Runs the instruction `op`, whose opcode byte was already fetched.
    /// Returns the page-cross or branch penalty.
    pub fn execute(&mut self, op: Op) -> (r: u8)
        requires
            old(self).wf(),
        ensures
            final(self).wf(),
            (final(self)@, r) == old(self)@.execute(op),
    {
        match op.mnemonic {
            OpCode::LDA | OpCode::LDX | OpCode::LDY | OpCode::STA | OpCode::STX | OpCode::STY => self.execute_load_store(op),
            OpCode::AND | OpCode::ORA | OpCode::EOR | OpCode::ADC | OpCode::SBC | OpCode::CMP | OpCode::CPX | OpCode::CPY | OpCode::BIT => self.execute_alu(op),
            OpCode::INC | OpCode::DEC | OpCode::INX | OpCode::DEX | OpCode::INY | OpCode::DEY | OpCode::ASL | OpCode::LSR | OpCode::ROL | OpCode::ROR => self.execute_modify(op),
            OpCode::TAX | OpCode::TAY | OpCode::TXA | OpCode::TYA | OpCode::TSX | OpCode::TXS | OpCode::PHA | OpCode::PHP | OpCode::PLA | OpCode::PLP => self.execute_transfer(op),
            OpCode::JMP | OpCode::JSR | OpCode::RTS | OpCode::BRK | OpCode::RTI | OpCode::BPL | OpCode::BMI | OpCode::BVC | OpCode::BVS | OpCode::BCC | OpCode::BCS | OpCode::BNE | OpCode::BEQ => self.execute_flow(op),
            OpCode::CLC | OpCode::SEC | OpCode::CLI | OpCode::SEI | OpCode::CLV | OpCode::CLD | OpCode::SED | OpCode::NOP => self.execute_status(op),
        }
    }

    /// Adds `c` cycles to the counter (saturating) and retires a pending DMA.
    fn commit(&mut self, c: u64)
        requires
            old(self).wf(),
        ensures
            final(self).wf(),
            final(self)@ == old(self)@.commit(c),
    {
        let _ = self.bus.take_dma();
        self.cy = self.cy.saturating_add(c);
    }

    /// Whether `step` would service an interrupt: an NMI is latched, or the
    /// IRQ line is asserted while I is clear.
    pub fn interrupt_due(&self) -> (r: bool)
        ensures
            r == self@.interrupt_due(),
    {
        self.interrupt.nmi || (self.interrupt.irq && !self.is_flag_set(IRQ))
    }

    /// Runs one step: services a pending NMI (or an IRQ, when I is clear),
    /// or else fetches, decodes and executes the instruction at `PC`, whose
    /// byte must be a documented opcode (see `Op::is_documented`). Returns
    /// the cycles it took: 2 to 8 of its own, plus 513 or 514 when it
    /// started an OAM-DMA.
    pub fn step(&mut self) -> (r: u64)
        requires
            old(self).wf(),
            old(self)@.interrupt_due() || op_table(old(self)@.bus.peek(old(self).pc)) is Some,
        ensures
            final(self).wf(),
            old(self)@.step() matches Some((s, base, stall)) && {
                &&& final(self)@ == s
                &&& r == base + stall
                &&& 2 <= base <= 8
                &&& stall == 0 || stall == 513 || stall == 514
            },
            final(self).cy == old(self).cy.saturating_add(r),
    {
        proof {
            lemma_step_cycles(old(self)@);
        }
        if self.interrupt.nmi {
            self.interrupt.nmi = false;
            self.service(NMI_VECTOR);
            self.commit(7);
            return 7;
        }
        if self.interrupt.irq && !self.is_flag_set(IRQ) {
            self.service(IRQ_VECTOR);
            self.commit(7);
            return 7;
        }
        let started = self.cy;
        let code = self.bus.peek_u8(self.pc);
        let op = Op::decode_op(code);
        let _ = self.load_u8_bump_pc();
        proof {
            lemma_execute_keeps_cycles(self@, op);
        }
        let extra = self.execute(op);
        let base: u64 = op.cycles as u64 + extra as u64;
        let stall: u64 = if self.bus.take_dma() {
            if started % 2 == 1 {
                514
            } else {
                513
            }
        } else {
            0
        };
        self.cy = self.cy.saturating_add(base + stall);
        base + stall
    }
}


/// Where `interpret` places a program.
pub const PROGRAM_START: u16 = 0x0200;
/// The most steps that `interpret` runs.
pub const INTERPRET_LIMIT: u64 = 0x10000;

impl Six502 {
    /// Writes `prog` to memory from `at` upwards, through the bus.
    pub fn load(&mut self, prog: &[u8], at: u16)
        requires
            old(self).wf(),
            at + prog@.len() <= 0x10000,
        ensures
            final(self).wf(),
            final(self)@ == old(self)@.write_bytes(at, prog@),
    {
        let mut i: usize = 0;
        while i < prog.len()
            invariant
                self.wf(),
                i <= prog@.len(),
                at + prog@.len() <= 0x10000,
                self@ == old(self)@.write_bytes(at, prog@.take(i as int)),
            decreases prog@.len() - i,
        {
            self.store_u8(at + i as u16, prog[i]);
            i = i + 1;
            assert(prog@.take(i as int).drop_last() =~= prog@.take(i - 1));
        }
        assert(prog@.take(i as int) =~= prog@);
    }

    /// Steps until the next opcode is BRK, for at most `max_steps` steps,
    /// stopping early at an undocumented opcode.
    pub fn run(&mut self, max_steps: u64) -> (r: Result<(), Fault>)
        requires
            old(self).wf(),
        ensures
            final(self).wf(),
            match old(self)@.run(max_steps as nat) {
                Ok(s) => final(self)@ == s && r == Ok::<(), Fault>(()),
                Err(s) => final(self)@ == s && r == Err::<(), Fault>(
                    Fault::IllegalOpcode { opcode: s.bus.peek(s.pc), pc: s.pc },
                ),
            },
    {
        let mut n: u64 = max_steps;
        while n > 0
            invariant
                self.wf(),
                old(self)@.run(max_steps as nat) == self@.run(n as nat),
            decreases n,
        {
            if self.bus.peek_u8(self.pc) == 0 {
                return Ok(());
            }
            let code = self.bus.peek_u8(self.pc);
            if !self.interrupt_due() && !Op::is_documented(code) {
                return Err(Fault::IllegalOpcode { opcode: code, pc: self.pc });
            }
            let _ = self.step();
            n = n - 1;
        }
        Ok(())
    }

    /// Writes `prog` at $0200, points `PC` there, and runs it up to its
    /// first BRK (at most `INTERPRET_LIMIT` steps).
    pub fn interpret(&mut self, prog: Vec<u8>) -> (r: Result<(), Fault>)
        requires
            old(self).wf(),
            prog@.len() <= 0x10000 - PROGRAM_START,
        ensures
            final(self).wf(),
            ({
                let loaded = old(self)@.write_bytes(PROGRAM_START, prog@);
                match (CpuState { pc: PROGRAM_START, ..loaded }).run(INTERPRET_LIMIT as nat) {
                    Ok(s) => final(self)@ == s && r == Ok::<(), Fault>(()),
                    Err(s) => final(self)@ == s && r == Err::<(), Fault>(
                        Fault::IllegalOpcode { opcode: s.bus.peek(s.pc), pc: s.pc },
                    ),
                }
            }),
    {
        self.load(prog.as_slice(), PROGRAM_START);
        self.pc = PROGRAM_START;
        self.run(INTERPRET_LIMIT)
    }
}

impl Six502 {
    /// Plugs in an NROM (mapper 0) cartridge: its PRG-ROM appears at
    /// $8000-$FFFF. Any other mapper, or a PRG-ROM that is not 16 or 32 KiB,
    /// is refused and nothing changes. `reset` then starts the program.
    pub fn insert_cartridge(&mut self, rom: &Rom) -> (r: Result<(), RomError>)
        requires
            old(self).wf(),
        ensures
            final(self).wf(),
            rom.hdr.mapper != 0 ==> r == Err::<(), RomError>(RomError::UnsupportedMapper) && final(self)@ == old(self)@,
            rom.hdr.mapper == 0 && !(rom.prg_rom@.len() == 0x4000 || rom.prg_rom@.len() == 0x8000) ==> r == Err::<(), RomError>(RomError::BadPrgSize) && final(self)@ == old(self)@,
            rom.hdr.mapper == 0 && (rom.prg_rom@.len() == 0x4000 || rom.prg_rom@.len() == 0x8000) ==> r == Ok::<(), RomError>(()) && final(self)@ == (CpuState {
                bus: BusState { cart: with_prg(old(self)@.bus.cart, rom.prg_rom@), ..old(self)@.bus },
                ..old(self)@
            }),
    {
        if rom.hdr.mapper != 0 {
            return Err(RomError::UnsupportedMapper);
        }
        if !(rom.prg_rom.len() == 0x4000 || rom.prg_rom.len() == 0x8000) {
            return Err(RomError::BadPrgSize);
        }
        self.bus.insert_prg(rom.prg_rom.as_slice());
        Ok(())
    }
}

} // verus!
