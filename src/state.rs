//! The mathematical model of the CPU: its state, and what each bus access,
//! addressing mode, instruction and step does to it.
use vstd::prelude::*;
use crate::bus::BusState;
use crate::flags::{assign, is_set, with_zn, CARRY, BREAK, DECIMAL, IRQ, NEGATIVE, OVERFLOW, UNUSED, ZERO};
use crate::opcodes::{op_table, AddressingMode, Op, OpCode};

verus! {

/// NMI vector.
pub const NMI_VECTOR: u16 = 0xFFFA;
/// RESET vector.
pub const RESET_VECTOR: u16 = 0xFFFC;
/// IRQ / BRK vector.
pub const IRQ_VECTOR: u16 = 0xFFFE;
/// Base of the stack page.
pub const STACK_BASE: u16 = 0x0100;

/// The register file, the interrupt lines and everything behind the bus.
pub struct CpuState {
    pub a: u8,
    pub x: u8,
    pub y: u8,
    pub pc: u16,
    pub s: u8,
    pub p: u8,
    pub cy: u64,
    /// An NMI edge is latched.
    pub nmi: bool,
    /// The IRQ line is asserted.
    pub irq: bool,
    pub bus: BusState,
}

/// The little-endian word `hi:lo`.
pub open spec fn word(lo: u8, hi: u8) -> u16 {
    (hi as int * 256 + lo as int) as u16
}

/// 1 when `b` holds, else 0.
pub open spec fn bit_of(b: bool) -> u8 {
    if b {
        1
    } else {
        0
    }
}

/// The target of a relative branch with offset byte `off` taken from `pc`.
pub open spec fn rel_target(pc: u16, off: u8) -> u16 {
    if off < 0x80 {
        pc.wrapping_add(off as u16)
    } else {
        pc.wrapping_sub((256 - off) as u16)
    }
}

/// The address of the high byte of an indirect JMP pointer: the low byte
/// of the pointer wraps without carrying into the page.
pub open spec fn indirect_hi(ptr: u16) -> u16 {
    (ptr as int - ptr as int % 256 + (ptr as int % 256 + 1) % 256) as u16
}

/// `P` as PLP and RTI restore it: B dropped, bit 5 forced on.
pub open spec fn pulled_status(v: u8) -> u8 {
    (v & !BREAK) | UNUSED
}

/// The result and carry-out of a shift or rotate of `v` with carry-in `c`.
pub open spec fn shifted(m: OpCode, v: u8, c: bool) -> (u8, bool) {
    match m {
        OpCode::ASL => (v << 1u8, v & 0x80 != 0),
        OpCode::ROL => ((v << 1u8) | bit_of(c), v & 0x80 != 0),
        OpCode::LSR => (v >> 1u8, v & 1 != 0),
        _ => ((v >> 1u8) | (if c { 0x80u8 } else { 0u8 }), v & 1 != 0),
    }
}

/// `A + M + C` on the flags and accumulator `a`, `p`: the new `A` and `P`.
pub open spec fn add_with_carry(a: u8, m: u8, p: u8) -> (u8, u8) {
    let sum = a as int + m as int + bit_of(is_set(p, CARRY)) as int;
    let r = (sum % 256) as u8;
    let q = assign(p, CARRY, sum > 0xFF);
    let q = assign(q, OVERFLOW, (a ^ r) & (m ^ r) & 0x80 != 0);
    (r, with_zn(q, r))
}

/// The flags after comparing register value `reg` with `m`.
pub open spec fn compared(p: u8, reg: u8, m: u8) -> u8 {
    with_zn(assign(p, CARRY, reg >= m), reg.wrapping_sub(m))
}

impl CpuState {
    pub open spec fn wf(self) -> bool {
        self.bus.wf()
    }

    /// A read of `addr` through the bus.
    pub open spec fn read(self, addr: u16) -> (CpuState, u8) {
        let (b, v) = self.bus.read(addr);
        (CpuState { bus: b, ..self }, v)
    }

    /// A write of `v` to `addr` through the bus.
    pub open spec fn write(self, addr: u16, v: u8) -> CpuState {
        CpuState { bus: self.bus.write(addr, v), ..self }
    }

    /// Reads the byte at `PC` and advances `PC`.
    pub open spec fn fetch(self) -> (CpuState, u8) {
        let (s, v) = self.read(self.pc);
        (CpuState { pc: self.pc.wrapping_add(1), ..s }, v)
    }

    /// Reads the little-endian word at `PC` and advances `PC` by two.
    pub open spec fn fetch_word(self) -> (CpuState, u16) {
        let (s, lo) = self.fetch();
        let (t, hi) = s.fetch();
        (t, word(lo, hi))
    }

    /// Reads a word whose low byte is at `lo_addr` and high byte at `hi_addr`.
    pub open spec fn read_word(self, lo_addr: u16, hi_addr: u16) -> (CpuState, u16) {
        let (s, lo) = self.read(lo_addr);
        let (t, hi) = s.read(hi_addr);
        (t, word(lo, hi))
    }

    /// Stores `v` at `$0100 | S`, then decrements `S`.
    pub open spec fn push(self, v: u8) -> CpuState {
        let t = self.write((STACK_BASE + self.s) as u16, v);
        CpuState { s: self.s.wrapping_sub(1), ..t }
    }

    /// Increments `S`, then loads from `$0100 | S`.
    pub open spec fn pull(self) -> (CpuState, u8) {
        let s = CpuState { s: self.s.wrapping_add(1), ..self };
        s.read((STACK_BASE + s.s) as u16)
    }

    /// Pushes the high byte of `w`, then the low byte.
    pub open spec fn push_word(self, w: u16) -> CpuState {
        self.push((w / 256) as u8).push((w % 256) as u8)
    }

    /// Pulls the low byte, then the high byte.
    pub open spec fn pull_word(self) -> (CpuState, u16) {
        let (s, lo) = self.pull();
        let (t, hi) = s.pull();
        (t, word(lo, hi))
    }

    /// The effective address of a memory mode, whether an indexed read there
    /// crosses a page, and the state after the operand bytes are consumed.
    pub open spec fn resolve(self, mode: AddressingMode) -> (CpuState, u16, bool) {
        match mode {
            AddressingMode::ZeroPage => {
                let (s, ll) = self.fetch();
                (s, ll as u16, false)
            },
            AddressingMode::ZeroPageX => {
                let (s, ll) = self.fetch();
                (s, ll.wrapping_add(self.x) as u16, false)
            },
            AddressingMode::ZeroPageY => {
                let (s, ll) = self.fetch();
                (s, ll.wrapping_add(self.y) as u16, false)
            },
            AddressingMode::Absolute => {
                let (s, w) = self.fetch_word();
                (s, w, false)
            },
            AddressingMode::AbsoluteX => {
                let (s, w) = self.fetch_word();
                (s, w.wrapping_add(self.x as u16), w % 256 + self.x > 0xFF)
            },
            AddressingMode::AbsoluteY => {
                let (s, w) = self.fetch_word();
                (s, w.wrapping_add(self.y as u16), w % 256 + self.y > 0xFF)
            },
            AddressingMode::Indirect => {
                let (s, ptr) = self.fetch_word();
                let (t, w) = s.read_word(ptr, indirect_hi(ptr));
                (t, w, false)
            },
            AddressingMode::IndexedIndirect => {
                let (s, ll) = self.fetch();
                let zp = ll.wrapping_add(self.x);
                let (t, w) = s.read_word(zp as u16, zp.wrapping_add(1) as u16);
                (t, w, false)
            },
            AddressingMode::IndirectIndexed => {
                let (s, ll) = self.fetch();
                let (t, w) = s.read_word(ll as u16, ll.wrapping_add(1) as u16);
                (t, w.wrapping_add(self.y as u16), w % 256 + self.y > 0xFF)
            },
            _ => (self, 0, false),
        }
    }

    /// The operand byte of a read-style instruction, and the page cross.
    pub open spec fn load_operand(self, mode: AddressingMode) -> (CpuState, u8, bool) {
        match mode {
            AddressingMode::Accumulator => (self, self.a, false),
            AddressingMode::Immediate => {
                let (s, v) = self.fetch();
                (s, v, false)
            },
            _ => {
                let (s, ea, cross) = self.resolve(mode);
                let (t, v) = s.read(ea);
                (t, v, cross)
            },
        }
    }

    /// Loads the operand into a register chosen by `m` (LDA, LDX, LDY).
    pub open spec fn load(self, m: OpCode, mode: AddressingMode) -> (CpuState, u8) {
        let (s, v, cross) = self.load_operand(mode);
        let p = with_zn(s.p, v);
        let t = match m {
            OpCode::LDX => CpuState { x: v, p, ..s },
            OpCode::LDY => CpuState { y: v, p, ..s },
            _ => CpuState { a: v, p, ..s },
        };
        (t, bit_of(cross))
    }

    /// Stores `v` at the effective address of `mode` (STA, STX, STY).
    pub open spec fn store(self, v: u8, mode: AddressingMode) -> CpuState {
        let (s, ea, _cross) = self.resolve(mode);
        s.write(ea, v)
    }

    /// AND, ORA, EOR.
    pub open spec fn logic(self, m: OpCode, mode: AddressingMode) -> (CpuState, u8) {
        let (s, v, cross) = self.load_operand(mode);
        let r = match m {
            OpCode::AND => s.a & v,
            OpCode::ORA => s.a | v,
            _ => s.a ^ v,
        };
        (CpuState { a: r, p: with_zn(s.p, r), ..s }, bit_of(cross))
    }

    /// ADC, and SBC as ADC of the complemented operand.
    pub open spec fn arith(self, subtract: bool, mode: AddressingMode) -> (CpuState, u8) {
        let (s, v, cross) = self.load_operand(mode);
        let m = if subtract { v ^ 0xFF } else { v };
        let (r, p) = add_with_carry(s.a, m, s.p);
        (CpuState { a: r, p, ..s }, bit_of(cross))
    }

    /// CMP, CPX, CPY against register value `reg`.
    pub open spec fn compare(self, reg: u8, mode: AddressingMode) -> (CpuState, u8) {
        let (s, v, cross) = self.load_operand(mode);
        (CpuState { p: compared(s.p, reg, v), ..s }, bit_of(cross))
    }

    /// BIT: Z from `A & M`, N and V from bits 7 and 6 of `M`.
    pub open spec fn bit_test(self, mode: AddressingMode) -> CpuState {
        let (s, v, _cross) = self.load_operand(mode);
        let p = assign(s.p, ZERO, s.a & v == 0);
        let p = assign(p, NEGATIVE, v & 0x80 != 0);
        CpuState { p: assign(p, OVERFLOW, v & 0x40 != 0), ..s }
    }

    /// INC and DEC: read, modify, write back.
    pub open spec fn step_memory(self, up: bool, mode: AddressingMode) -> CpuState {
        let (s, ea, _cross) = self.resolve(mode);
        let (t, v) = s.read(ea);
        let r = if up { v.wrapping_add(1) } else { v.wrapping_sub(1) };
        CpuState { p: with_zn(t.p, r), ..t.write(ea, r) }
    }

    /// ASL, LSR, ROL, ROR on `A` or on memory.
    pub open spec fn shift(self, m: OpCode, mode: AddressingMode) -> CpuState {
        if mode == AddressingMode::Accumulator {
            let (r, c) = shifted(m, self.a, is_set(self.p, CARRY));
            CpuState { a: r, p: with_zn(assign(self.p, CARRY, c), r), ..self }
        } else {
            let (s, ea, _cross) = self.resolve(mode);
            let (t, v) = s.read(ea);
            let (r, c) = shifted(m, v, is_set(t.p, CARRY));
            CpuState { p: with_zn(assign(t.p, CARRY, c), r), ..t.write(ea, r) }
        }
    }

    /// A conditional branch on whether flag `flag` equals `cond`: the state
    /// and the extra cycles (one if taken, one more if the target is on
    /// another page than the next instruction).
    pub open spec fn branch(self, flag: u8, cond: bool) -> (CpuState, u8) {
        let (s, off) = self.fetch();
        let target = rel_target(s.pc, off);
        if is_set(s.p, flag) == cond {
            (CpuState { pc: target, ..s }, if s.pc / 256 != target / 256 { 2 } else { 1 })
        } else {
            (s, 0)
        }
    }

    /// JSR: push the address of its last byte, jump to the operand.
    pub open spec fn jsr(self) -> CpuState {
        let (s, target) = self.fetch_word();
        CpuState { pc: target, ..s.push_word(s.pc.wrapping_sub(1)) }
    }

    /// RTS: pull the return address and add one.
    pub open spec fn rts(self) -> CpuState {
        let (s, w) = self.pull_word();
        CpuState { pc: w.wrapping_add(1), ..s }
    }

    /// The common interrupt entry: push `ret` and `status`, set I, load the vector.
    pub open spec fn enter(self, ret: u16, status: u8, vector: u16) -> CpuState {
        let s = self.push_word(ret).push(status);
        let s = CpuState { p: s.p | IRQ, ..s };
        let (t, target) = s.read_word(vector, vector.wrapping_add(1));
        CpuState { pc: target, ..t }
    }

    /// BRK, after its opcode was fetched: skips the padding byte, pushes `P | 0x30`.
    pub open spec fn brk(self) -> CpuState {
        self.enter(self.pc.wrapping_add(1), self.p | BREAK | UNUSED, IRQ_VECTOR)
    }

    /// RTI: pull `P` (B dropped, bit 5 on), then `PC`.
    pub open spec fn rti(self) -> CpuState {
        let (s, v) = self.pull();
        let s = CpuState { p: pulled_status(v), ..s };
        let (t, w) = s.pull_word();
        CpuState { pc: w, ..t }
    }

    /// A hardware interrupt through `vector`: pushes `P` with B clear and bit 5 set.
    pub open spec fn interrupt(self, vector: u16) -> CpuState {
        self.enter(self.pc, (self.p & !BREAK) | UNUSED, vector)
    }

    /// Loads and stores.
    #[verifier::opaque]
    pub open spec fn execute_load_store(self, op: Op) -> (CpuState, u8) {
        let mode = op.mode;
        match op.mnemonic {
            OpCode::LDA | OpCode::LDX | OpCode::LDY => self.load(op.mnemonic, mode),
            OpCode::STA => (self.store(self.a, mode), 0),
            OpCode::STX => (self.store(self.x, mode), 0),
            OpCode::STY => (self.store(self.y, mode), 0),
            _ => (self, 0),
        }
    }

    /// Logic, arithmetic, compares and BIT.
    #[verifier::opaque]
    pub open spec fn execute_alu(self, op: Op) -> (CpuState, u8) {
        let mode = op.mode;
        match op.mnemonic {
            OpCode::AND | OpCode::ORA | OpCode::EOR => self.logic(op.mnemonic, mode),
            OpCode::ADC => self.arith(false, mode),
            OpCode::SBC => self.arith(true, mode),
            OpCode::CMP => self.compare(self.a, mode),
            OpCode::CPX => (self.compare(self.x, mode).0, 0),
            OpCode::CPY => (self.compare(self.y, mode).0, 0),
            OpCode::BIT => (self.bit_test(mode), 0),
            _ => (self, 0),
        }
    }

    /// Increments, decrements, shifts and rotates.
    #[verifier::opaque]
    pub open spec fn execute_modify(self, op: Op) -> (CpuState, u8) {
        let mode = op.mode;
        match op.mnemonic {
            OpCode::INC => (self.step_memory(true, mode), 0),
            OpCode::DEC => (self.step_memory(false, mode), 0),
            OpCode::INX => {
                let r = self.x.wrapping_add(1);
                (CpuState { x: r, p: with_zn(self.p, r), ..self }, 0)
            },
            OpCode::DEX => {
                let r = self.x.wrapping_sub(1);
                (CpuState { x: r, p: with_zn(self.p, r), ..self }, 0)
            },
            OpCode::INY => {
                let r = self.y.wrapping_add(1);
                (CpuState { y: r, p: with_zn(self.p, r), ..self }, 0)
            },
            OpCode::DEY => {
                let r = self.y.wrapping_sub(1);
                (CpuState { y: r, p: with_zn(self.p, r), ..self }, 0)
            },
            OpCode::ASL | OpCode::LSR | OpCode::ROL | OpCode::ROR => (self.shift(op.mnemonic, mode), 0),
            _ => (self, 0),
        }
    }

    /// Register transfers and stack instructions.
    #[verifier::opaque]
    pub open spec fn execute_transfer(self, op: Op) -> (CpuState, u8) {
        let mode = op.mode;
        match op.mnemonic {
            OpCode::TAX => (CpuState { x: self.a, p: with_zn(self.p, self.a), ..self }, 0),
            OpCode::TAY => (CpuState { y: self.a, p: with_zn(self.p, self.a), ..self }, 0),
            OpCode::TXA => (CpuState { a: self.x, p: with_zn(self.p, self.x), ..self }, 0),
            OpCode::TYA => (CpuState { a: self.y, p: with_zn(self.p, self.y), ..self }, 0),
            OpCode::TSX => (CpuState { x: self.s, p: with_zn(self.p, self.s), ..self }, 0),
            OpCode::TXS => (CpuState { s: self.x, ..self }, 0),
            OpCode::PHA => (self.push(self.a), 0),
            OpCode::PHP => (self.push(self.p | BREAK | UNUSED), 0),
            OpCode::PLA => {
                let (s, v) = self.pull();
                (CpuState { a: v, p: with_zn(s.p, v), ..s }, 0)
            },
            OpCode::PLP => {
                let (s, v) = self.pull();
                (CpuState { p: pulled_status(v), ..s }, 0)
            },
            _ => (self, 0),
        }
    }

    /// Jumps, calls, returns and branches.
    #[verifier::opaque]
    pub open spec fn execute_flow(self, op: Op) -> (CpuState, u8) {
        let mode = op.mode;
        match op.mnemonic {
            OpCode::JMP => {
                let (s, target, _cross) = self.resolve(mode);
                (CpuState { pc: target, ..s }, 0)
            },
            OpCode::JSR => (self.jsr(), 0),
            OpCode::RTS => (self.rts(), 0),
            OpCode::BRK => (self.brk(), 0),
            OpCode::RTI => (self.rti(), 0),
            OpCode::BPL => self.branch(NEGATIVE, false),
            OpCode::BMI => self.branch(NEGATIVE, true),
            OpCode::BVC => self.branch(OVERFLOW, false),
            OpCode::BVS => self.branch(OVERFLOW, true),
            OpCode::BCC => self.branch(CARRY, false),
            OpCode::BCS => self.branch(CARRY, true),
            OpCode::BNE => self.branch(ZERO, false),
            OpCode::BEQ => self.branch(ZERO, true),
            _ => (self, 0),
        }
    }

    /// Flag instructions and NOP.
    #[verifier::opaque]
    pub open spec fn execute_status(self, op: Op) -> (CpuState, u8) {
        let mode = op.mode;
        match op.mnemonic {
            OpCode::CLC => (CpuState { p: self.p & !CARRY, ..self }, 0),
            OpCode::SEC => (CpuState { p: self.p | CARRY, ..self }, 0),
            OpCode::CLI => (CpuState { p: self.p & !IRQ, ..self }, 0),
            OpCode::SEI => (CpuState { p: self.p | IRQ, ..self }, 0),
            OpCode::CLV => (CpuState { p: self.p & !OVERFLOW, ..self }, 0),
            OpCode::CLD => (CpuState { p: self.p & !DECIMAL, ..self }, 0),
            OpCode::SED => (CpuState { p: self.p | DECIMAL, ..self }, 0),
            OpCode::NOP => (self, 0),

            _ => (self, 0),
        }
    }

    /// The effect of `op`, whose opcode byte was already fetched, and its
    /// extra cycles.
    pub open spec fn execute(self, op: Op) -> (CpuState, u8) {
        match op.mnemonic {
            OpCode::LDA | OpCode::LDX | OpCode::LDY | OpCode::STA | OpCode::STX | OpCode::STY => self.execute_load_store(op),
            OpCode::AND | OpCode::ORA | OpCode::EOR | OpCode::ADC | OpCode::SBC | OpCode::CMP | OpCode::CPX | OpCode::CPY | OpCode::BIT => self.execute_alu(op),
            OpCode::INC | OpCode::DEC | OpCode::INX | OpCode::DEX | OpCode::INY | OpCode::DEY | OpCode::ASL | OpCode::LSR | OpCode::ROL | OpCode::ROR => self.execute_modify(op),
            OpCode::TAX | OpCode::TAY | OpCode::TXA | OpCode::TYA | OpCode::TSX | OpCode::TXS | OpCode::PHA | OpCode::PHP | OpCode::PLA | OpCode::PLP => self.execute_transfer(op),
            OpCode::JMP | OpCode::JSR | OpCode::RTS | OpCode::BRK | OpCode::RTI | OpCode::BPL | OpCode::BMI | OpCode::BVC | OpCode::BVS | OpCode::BCC | OpCode::BCS | OpCode::BNE | OpCode::BEQ => self.execute_flow(op),
            OpCode::CLC | OpCode::SEC | OpCode::CLI | OpCode::SEI | OpCode::CLV | OpCode::CLD | OpCode::SED | OpCode::NOP => self.execute_status(op),
        }
    }

    /// Cycles of the OAM-DMA stall, when one is pending: 513, plus one when
    /// it starts on an odd cycle.
    pub open spec fn dma_stall(self, started: u64) -> u64 {
        if self.bus.dma {
            if started % 2 == 1 {
                514
            } else {
                513
            }
        } else {
            0
        }
    }

    /// Adds `c` cycles (saturating) and retires a pending DMA.
    pub open spec fn commit(self, c: u64) -> CpuState {
        CpuState { cy: self.cy.saturating_add(c), bus: BusState { dma: false, ..self.bus }, ..self }
    }

    /// An interrupt will be taken at this boundary: NMI latched, or IRQ
    /// asserted with I clear.
    pub open spec fn interrupt_due(self) -> bool {
        self.nmi || (self.irq && !is_set(self.p, IRQ))
    }

    /// One `step()`: service a pending interrupt, or run the instruction at
    /// `PC`. Gives the new state, the base and penalty cycles, and the DMA
    /// stall; `None` when the byte at `PC` is not a legal opcode.
    pub open spec fn step(self) -> Option<(CpuState, u64, u64)> {
        if self.nmi {
            let s = CpuState { nmi: false, ..self }.interrupt(NMI_VECTOR);
            Some((s.commit(7), 7, 0))
        } else if self.irq && !is_set(self.p, IRQ) {
            let s = self.interrupt(IRQ_VECTOR);
            Some((s.commit(7), 7, 0))
        } else {
            match op_table(self.bus.peek(self.pc)) {
                None => None,
                Some(op) => {
                    let (s, _code) = self.fetch();
                    let (t, extra) = s.execute(op);
                    let base = (op.cycles + extra) as u64;
                    let stall = t.dma_stall(self.cy);
                    Some((t.commit((base + stall) as u64), base, stall))
                },
            }
        }
    }

    /// The state after `bytes` are written one by one from `at` upwards.
    pub open spec fn write_bytes(self, at: u16, bytes: Seq<u8>) -> CpuState
        decreases bytes.len(),
    {
        if bytes.len() == 0 {
            self
        } else {
            self.write_bytes(at, bytes.drop_last()).write((at + bytes.len() - 1) as u16, bytes.last())
        }
    }

    /// Steps until the opcode at `PC` is BRK ($00), for at most `fuel`
    /// steps: `Ok` with the state reached, or `Err` with the state whose
    /// opcode is undocumented.
    pub open spec fn run(self, fuel: nat) -> Result<CpuState, CpuState>
        decreases fuel,
    {
        if fuel == 0 || self.bus.peek(self.pc) == 0 {
            Ok(self)
        } else {
            match self.step() {
                Some((t, _base, _stall)) => t.run((fuel - 1) as nat),
                None => Err(self),
            }
        }
    }

    /// RESET: `S := $FD`, `P := $24`, `PC` from the RESET vector, 7 cycles.
    pub open spec fn reset(self) -> CpuState {
        let (t, target) = self.read_word(RESET_VECTOR, 0xFFFD);
        CpuState { s: 0xFD, p: 0x24, pc: target, cy: self.cy.saturating_add(7), ..t }
    }
}

} // verus!
