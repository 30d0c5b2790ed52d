//! Properties that hold of every execution: flag discipline, stack round
//! trips and cycle bounds.
use vstd::prelude::*;
use crate::bus::BusState;
use crate::cpu::overflows;
use crate::flags::{assign, is_set, lemma_assign, with_zn, CARRY, BREAK, NEGATIVE, OVERFLOW, UNUSED, ZERO};
use crate::opcodes::{has_page_penalty, is_branch, lemma_base_cycles, op_table, AddressingMode, Op, OpCode};
use crate::state::{add_with_carry, bit_of, pulled_status, CpuState, STACK_BASE};

verus! {

/// The opcode of one implied-mode instruction.
pub open spec fn implied(code: u8, mnemonic: OpCode, cycles: u8) -> Op {
    Op { code, mnemonic, mode: AddressingMode::Implied, cycles }
}

/// `Z` and `N` of `with_zn(p, v)` describe `v`; `C` and `V` are kept.
pub proof fn lemma_with_zn(p: u8, v: u8)
    ensures
        is_set(with_zn(p, v), ZERO) == (v == 0),
        is_set(with_zn(p, v), NEGATIVE) == (v >= 0x80),
        is_set(with_zn(p, v), CARRY) == is_set(p, CARRY),
        is_set(with_zn(p, v), OVERFLOW) == is_set(p, OVERFLOW),
{
    let q = assign(p, ZERO, v == 0);
    lemma_assign(p, ZERO, v == 0);
    lemma_assign(q, NEGATIVE, v & 0x80 != 0);
    assert(is_set(q, CARRY) == is_set(p, CARRY));
    assert(is_set(q, OVERFLOW) == is_set(p, OVERFLOW));
    assert(is_set(assign(q, NEGATIVE, v & 0x80 != 0), CARRY) == is_set(q, CARRY));
    assert(is_set(assign(q, NEGATIVE, v & 0x80 != 0), OVERFLOW) == is_set(q, OVERFLOW));
    assert(is_set(assign(q, NEGATIVE, v & 0x80 != 0), ZERO) == is_set(q, ZERO));
    assert((v & 0x80 != 0) == (v >= 0x80)) by (bit_vector);
}

/// A copy of `P` pushed by PHP or BRK has B and bit 5 set; one pushed by
/// an interrupt has B clear and bit 5 set; PLP and RTI leave B clear and
/// bit 5 set.
pub proof fn lemma_pushed_status(p: u8)
    ensures
        is_set(p | BREAK | UNUSED, BREAK) && is_set(p | BREAK | UNUSED, UNUSED),
        !is_set((p & !BREAK) | UNUSED, BREAK) && is_set((p & !BREAK) | UNUSED, UNUSED),
        !is_set(pulled_status(p), BREAK) && is_set(pulled_status(p), UNUSED),
{
    assert((p | 0x10 | 0x20) & 0x10 != 0 && (p | 0x10 | 0x20) & 0x20 != 0) by (bit_vector);
    assert((p & !0x10u8 | 0x20) & 0x10 == 0 && (p & !0x10u8 | 0x20) & 0x20 != 0) by (bit_vector);
}

/// The copies of `P` that reach the stack: PHP and BRK push one with B and
/// bit 5 set, a hardware interrupt one with B clear and bit 5 set; each is
/// found at `$0100 | S` of the state before.
pub proof fn lemma_pushed_copies(s: CpuState, vector: u16)
    requires
        s.wf(),
    ensures
        ({
            let at = (STACK_BASE + s.s) as u16;
            let php = s.execute(implied(0x08, OpCode::PHP, 3)).0.bus.peek(at);
            &&& php == s.p | BREAK | UNUSED
            &&& is_set(php, BREAK) && is_set(php, UNUSED)
        }),
        ({
            let at = (STACK_BASE + s.s.wrapping_sub(2)) as u16;
            let brk = s.execute(implied(0x00, OpCode::BRK, 7)).0.bus.peek(at);
            let irq = s.interrupt(vector).bus.peek(at);
            &&& brk == s.p | BREAK | UNUSED
            &&& is_set(brk, BREAK) && is_set(brk, UNUSED)
            &&& irq == (s.p & !BREAK) | UNUSED
            &&& !is_set(irq, BREAK) && is_set(irq, UNUSED)
        }),
{
    reveal(CpuState::execute_transfer);
    reveal(CpuState::execute_flow);
    lemma_pushed_status(s.p);
}

/// ADC with C clear: the carry out is `A + M > $FF`, `V` is the signed
/// overflow `((A ^ R) & (M ^ R) & $80) != 0`, and `R = (A + M) mod 256`.
pub proof fn lemma_adc_flags(a: u8, m: u8, p: u8)
    requires
        !is_set(p, CARRY),
    ensures
        ({
            let (r, q) = add_with_carry(a, m, p);
            &&& r == (a + m) % 256
            &&& is_set(q, CARRY) == (a + m > 0xFF)
            &&& is_set(q, OVERFLOW) == overflows(a, m, r)
        }),
{
    let sum = a as int + m as int + bit_of(is_set(p, CARRY)) as int;
    let r = (sum % 256) as u8;
    let q1 = assign(p, CARRY, sum > 0xFF);
    let q2 = assign(q1, OVERFLOW, (a ^ r) & (m ^ r) & 0x80 != 0);
    lemma_assign(p, CARRY, sum > 0xFF);
    lemma_assign(q1, OVERFLOW, (a ^ r) & (m ^ r) & 0x80 != 0);
    assert(is_set(q2, CARRY) == is_set(q1, CARRY));
    lemma_with_zn(q2, r);
}

/// The ADC instruction takes its flags from `add_with_carry` on the operand.
pub proof fn lemma_adc_instruction(s: CpuState, mode: AddressingMode)
    requires
        !is_set(s.p, CARRY),
    ensures
        ({
            let (t, m, _cross) = s.load_operand(mode);
            let (u, _extra) = s.arith(false, mode);
            &&& u.a == (s.a + m) % 256
            &&& is_set(u.p, CARRY) == (s.a + m > 0xFF)
            &&& is_set(u.p, OVERFLOW) == overflows(s.a, m, u.a)
        }),
{
    let (t, m, _cross) = s.load_operand(mode);
    assert(t.a == s.a && t.p == s.p) by {
        let (r, _ea, _c) = s.resolve(mode);
        assert(r.a == s.a && r.p == s.p);
    }
    lemma_adc_flags(s.a, m, s.p);
}

/// A write to the stack page followed by a read of the same address gives
/// back the byte written.
pub proof fn lemma_stack_round_trip(b: BusState, s: u8, v: u8)
    requires
        b.wf(),
    ensures
        b.write((STACK_BASE + s) as u16, v).read((STACK_BASE + s) as u16).1 == v,
        b.write((STACK_BASE + s) as u16, v).read((STACK_BASE + s) as u16).0 == b.write(
            (STACK_BASE + s) as u16,
            v,
        ),
        b.write((STACK_BASE + s) as u16, v).wf(),
{
}

/// PHA then PLA: `A` and `S` come back unchanged, and `Z`, `N` describe `A`.
pub proof fn lemma_pha_pla(s: CpuState)
    requires
        s.wf(),
    ensures
        ({
            let (t, _e1) = s.execute(implied(0x48, OpCode::PHA, 3));
            let (u, _e2) = t.execute(implied(0x68, OpCode::PLA, 4));
            &&& u.a == s.a
            &&& u.s == s.s
            &&& is_set(u.p, ZERO) == (s.a == 0)
            &&& is_set(u.p, NEGATIVE) == (s.a >= 0x80)
        }),
{
    reveal(CpuState::execute_transfer);
    lemma_stack_round_trip(s.bus, s.s, s.a);
    let t = s.push(s.a);
    assert(t.s.wrapping_add(1) == s.s);
    let (u, v) = t.pull();
    assert(v == s.a);
    lemma_with_zn(u.p, v);
}

/// PHP then PLP: `P` comes back with B cleared and bit 5 set, and `S`
/// unchanged.
pub proof fn lemma_php_plp(s: CpuState)
    requires
        s.wf(),
    ensures
        ({
            let (t, _e1) = s.execute(implied(0x08, OpCode::PHP, 3));
            let (u, _e2) = t.execute(implied(0x28, OpCode::PLP, 4));
            &&& u.p == (s.p & !BREAK) | UNUSED
            &&& u.s == s.s
        }),
{
    reveal(CpuState::execute_transfer);
    let v = s.p | BREAK | UNUSED;
    lemma_stack_round_trip(s.bus, s.s, v);
    let t = s.push(v);
    assert(t.s.wrapping_add(1) == s.s);
    let p = s.p;
    assert(((p | 0x10u8 | 0x20u8) & !0x10u8) | 0x20u8 == (p & !0x10u8) | 0x20u8) by (bit_vector);
}


/// JSR then RTS: with `PC` on the operand of a JSR (its opcode fetched),
/// the RTS at the target returns to the byte after the JSR's three bytes,
/// and `S` is back where it was.
pub proof fn lemma_jsr_rts(s: CpuState)
    requires
        s.wf(),
    ensures
        ({
            let jsr = Op { code: 0x20, mnemonic: OpCode::JSR, mode: AddressingMode::Absolute, cycles: 6 };
            let (t, _e1) = s.execute(jsr);
            let (u, _e2) = t.execute(implied(0x60, OpCode::RTS, 6));
            &&& u.pc == s.pc.wrapping_add(2)
            &&& u.s == s.s
        }),
{
    reveal(CpuState::execute_flow);
    let (s1, target) = s.fetch_word();
    let ret = s1.pc.wrapping_sub(1);
    let hi = (ret / 256) as u8;
    let lo = (ret % 256) as u8;
    let a1 = (STACK_BASE + s.s) as u16;
    let a2 = (STACK_BASE + s.s.wrapping_sub(1)) as u16;
    assert(s1.bus.wf());
    let b1 = s1.bus.write(a1, hi);
    let b2 = b1.write(a2, lo);
    assert(b2.read(a2).1 == lo);
    assert(b2.read(a2).0 == b2);
    assert(b2.read(a1).1 == hi);
    assert(s.s.wrapping_sub(1).wrapping_sub(1).wrapping_add(1) == s.s.wrapping_sub(1));
    assert(s.s.wrapping_sub(1).wrapping_add(1) == s.s);
    assert(hi as int * 256 + lo as int == ret);
}

/// The extra cycles of an instruction: at most one, or at most two for a
/// branch; only page-penalty mnemonics and branches have any.
pub proof fn lemma_execute_extra(s: CpuState, op: Op)
    ensures
        ({
            let (_t, extra) = s.execute(op);
            &&& extra <= 2
            &&& !is_branch(op.mnemonic) ==> extra <= 1
            &&& !is_branch(op.mnemonic) && !has_page_penalty(op.mnemonic) ==> extra == 0
        }),
{
    lemma_extra_load_store(s, op);
    lemma_extra_alu(s, op);
    lemma_extra_modify(s, op);
    lemma_extra_transfer(s, op);
    lemma_extra_flow(s, op);
    lemma_extra_status(s, op);
}

proof fn lemma_extra_load_store(s: CpuState, op: Op)
    ensures
        ({
            let (_t, extra) = s.execute_load_store(op);
            &&& extra <= 2
            &&& !is_branch(op.mnemonic) ==> extra <= 1
            &&& !is_branch(op.mnemonic) && !has_page_penalty(op.mnemonic) ==> extra == 0
        }),
{
    reveal(CpuState::execute_load_store);
}

proof fn lemma_extra_alu(s: CpuState, op: Op)
    ensures
        ({
            let (_t, extra) = s.execute_alu(op);
            &&& extra <= 2
            &&& !is_branch(op.mnemonic) ==> extra <= 1
            &&& !is_branch(op.mnemonic) && !has_page_penalty(op.mnemonic) ==> extra == 0
        }),
{
    reveal(CpuState::execute_alu);
}

proof fn lemma_extra_modify(s: CpuState, op: Op)
    ensures
        ({
            let (_t, extra) = s.execute_modify(op);
            &&& extra <= 2
            &&& !is_branch(op.mnemonic) ==> extra <= 1
            &&& !is_branch(op.mnemonic) && !has_page_penalty(op.mnemonic) ==> extra == 0
        }),
{
    reveal(CpuState::execute_modify);
}

proof fn lemma_extra_transfer(s: CpuState, op: Op)
    ensures
        ({
            let (_t, extra) = s.execute_transfer(op);
            &&& extra <= 2
            &&& !is_branch(op.mnemonic) ==> extra <= 1
            &&& !is_branch(op.mnemonic) && !has_page_penalty(op.mnemonic) ==> extra == 0
        }),
{
    reveal(CpuState::execute_transfer);
}

proof fn lemma_extra_flow(s: CpuState, op: Op)
    ensures
        ({
            let (_t, extra) = s.execute_flow(op);
            &&& extra <= 2
            &&& !is_branch(op.mnemonic) ==> extra <= 1
            &&& !is_branch(op.mnemonic) && !has_page_penalty(op.mnemonic) ==> extra == 0
        }),
{
    reveal(CpuState::execute_flow);
}

proof fn lemma_extra_status(s: CpuState, op: Op)
    ensures
        ({
            let (_t, extra) = s.execute_status(op);
            &&& extra <= 2
            &&& !is_branch(op.mnemonic) ==> extra <= 1
            &&& !is_branch(op.mnemonic) && !has_page_penalty(op.mnemonic) ==> extra == 0
        }),
{
    reveal(CpuState::execute_status);
}

/// No instruction touches the cycle counter; `step` alone accounts cycles.
pub proof fn lemma_execute_keeps_cycles(s: CpuState, op: Op)
    ensures
        s.execute(op).0.cy == s.cy,
{
    lemma_cycles_load_store(s, op);
    lemma_cycles_alu(s, op);
    lemma_cycles_modify(s, op);
    lemma_cycles_transfer(s, op);
    lemma_cycles_flow(s, op);
    lemma_cycles_status(s, op);
}

proof fn lemma_cycles_load_store(s: CpuState, op: Op)
    ensures
        s.execute_load_store(op).0.cy == s.cy,
{
    reveal(CpuState::execute_load_store);
}

proof fn lemma_cycles_alu(s: CpuState, op: Op)
    ensures
        s.execute_alu(op).0.cy == s.cy,
{
    reveal(CpuState::execute_alu);
}

proof fn lemma_cycles_modify(s: CpuState, op: Op)
    ensures
        s.execute_modify(op).0.cy == s.cy,
{
    reveal(CpuState::execute_modify);
}

proof fn lemma_cycles_transfer(s: CpuState, op: Op)
    ensures
        s.execute_transfer(op).0.cy == s.cy,
{
    reveal(CpuState::execute_transfer);
}

proof fn lemma_cycles_flow(s: CpuState, op: Op)
    ensures
        s.execute_flow(op).0.cy == s.cy,
{
    reveal(CpuState::execute_flow);
}

proof fn lemma_cycles_status(s: CpuState, op: Op)
    ensures
        s.execute_status(op).0.cy == s.cy,
{
    reveal(CpuState::execute_status);
}

/// Every step takes 2 to 8 cycles of its own (7 for an interrupt), to which
/// an OAM-DMA adds a stall of 513 or 514.
pub proof fn lemma_step_cycles(s: CpuState)
    ensures
        match s.step() {
            Some((_t, base, stall)) => 2 <= base <= 8 && (stall == 0 || stall == 513 || stall == 514),
            None => true,
        },
{
    if !s.nmi && !(s.irq && !is_set(s.p, crate::flags::IRQ)) {
        let code = s.bus.peek(s.pc);
        lemma_base_cycles(code);
        if let Some(op) = op_table(code) {
            let (s1, _c) = s.fetch();
            lemma_execute_extra(s1, op);
        }
    }
}


/// `P` holds B clear and bit 5 set, as every pull and reset leaves it.
pub open spec fn status_ok(p: u8) -> bool {
    p & 0x30 == 0x20
}

proof fn lemma_status_bits(p: u8, m: u8)
    requires
        status_ok(p),
        m == 0x01 || m == 0x02 || m == 0x04 || m == 0x08 || m == 0x40 || m == 0x80,
    ensures
        status_ok(p | m),
        status_ok(p & !m),
        status_ok(assign(p, m, true)),
        status_ok(assign(p, m, false)),
{
    assert((p & 0x30 == 0x20) && (m == 0x01 || m == 0x02 || m == 0x04 || m == 0x08 || m == 0x40 || m == 0x80) ==> ((p | m) & 0x30 == 0x20 && (p & !m) & 0x30 == 0x20)) by (bit_vector);
}

proof fn lemma_pulled_ok(v: u8)
    ensures
        status_ok(pulled_status(v)),
{
    assert(((v & !0x10u8) | 0x20u8) & 0x30 == 0x20) by (bit_vector);
}

/// The flag updates of the instruction set keep B clear and bit 5 set.
pub proof fn lemma_status_rules()
    ensures
        forall|p: u8, m: u8, c: bool|
            status_ok(p) && (m == CARRY || m == ZERO || m == crate::flags::IRQ || m == crate::flags::DECIMAL || m == OVERFLOW || m == NEGATIVE)
                ==> #[trigger] status_ok(assign(p, m, c)),
        forall|p: u8, m: u8|
            status_ok(p) && (m == CARRY || m == ZERO || m == crate::flags::IRQ || m == crate::flags::DECIMAL || m == OVERFLOW || m == NEGATIVE)
                ==> #[trigger] status_ok(p | m),
        forall|p: u8, m: u8|
            status_ok(p) && (m == CARRY || m == ZERO || m == crate::flags::IRQ || m == crate::flags::DECIMAL || m == OVERFLOW || m == NEGATIVE)
                ==> #[trigger] status_ok(p & !m),
        forall|p: u8, v: u8| status_ok(p) ==> #[trigger] status_ok(with_zn(p, v)),
        forall|v: u8| #[trigger] status_ok(pulled_status(v)),
        forall|a: u8, m: u8, p: u8| status_ok(p) ==> #[trigger] status_ok(add_with_carry(a, m, p).1),
        forall|p: u8, r: u8, m: u8| status_ok(p) ==> #[trigger] status_ok(crate::state::compared(p, r, m)),
{
    assert forall|p: u8, m: u8, c: bool|
        status_ok(p) && (m == CARRY || m == ZERO || m == crate::flags::IRQ || m == crate::flags::DECIMAL || m == OVERFLOW || m == NEGATIVE)
            implies #[trigger] status_ok(assign(p, m, c)) by {
        lemma_status_bits(p, m);
    }
    assert forall|p: u8, m: u8|
        status_ok(p) && (m == CARRY || m == ZERO || m == crate::flags::IRQ || m == crate::flags::DECIMAL || m == OVERFLOW || m == NEGATIVE)
            implies #[trigger] status_ok(p | m) by {
        lemma_status_bits(p, m);
    }
    assert forall|p: u8, m: u8|
        status_ok(p) && (m == CARRY || m == ZERO || m == crate::flags::IRQ || m == crate::flags::DECIMAL || m == OVERFLOW || m == NEGATIVE)
            implies #[trigger] status_ok(p & !m) by {
        lemma_status_bits(p, m);
    }
    assert forall|p: u8, v: u8| status_ok(p) implies #[trigger] status_ok(with_zn(p, v)) by {
        lemma_status_bits(p, ZERO);
        lemma_status_bits(assign(p, ZERO, v == 0), NEGATIVE);
    }
    assert forall|v: u8| #[trigger] status_ok(pulled_status(v)) by {
        lemma_pulled_ok(v);
    }
    assert forall|a: u8, m: u8, p: u8| status_ok(p) implies #[trigger] status_ok(add_with_carry(a, m, p).1) by {
        let sum = a as int + m as int + bit_of(is_set(p, CARRY)) as int;
        let r = (sum % 256) as u8;
        let q1 = assign(p, CARRY, sum > 0xFF);
        lemma_status_bits(p, CARRY);
        lemma_status_bits(q1, OVERFLOW);
        let q2 = assign(q1, OVERFLOW, (a ^ r) & (m ^ r) & 0x80 != 0);
        lemma_status_bits(q2, ZERO);
        lemma_status_bits(assign(q2, ZERO, r == 0), NEGATIVE);
    }
    assert forall|p: u8, r: u8, m: u8| status_ok(p) implies #[trigger] status_ok(crate::state::compared(p, r, m)) by {
        let q = assign(p, CARRY, r >= m);
        let v = r.wrapping_sub(m);
        lemma_status_bits(p, CARRY);
        lemma_status_bits(q, ZERO);
        lemma_status_bits(assign(q, ZERO, v == 0), NEGATIVE);
    }
}

proof fn lemma_status_load_store(s: CpuState, op: Op)
    requires
        status_ok(s.p),
    ensures
        status_ok(s.execute_load_store(op).0.p),
{
    reveal(CpuState::execute_load_store);
    lemma_status_rules();
}

proof fn lemma_status_alu(s: CpuState, op: Op)
    requires
        status_ok(s.p),
    ensures
        status_ok(s.execute_alu(op).0.p),
{
    reveal(CpuState::execute_alu);
    lemma_status_rules();
}

proof fn lemma_status_modify(s: CpuState, op: Op)
    requires
        status_ok(s.p),
    ensures
        status_ok(s.execute_modify(op).0.p),
{
    reveal(CpuState::execute_modify);
    lemma_status_rules();
}

proof fn lemma_status_transfer(s: CpuState, op: Op)
    requires
        status_ok(s.p),
    ensures
        status_ok(s.execute_transfer(op).0.p),
{
    reveal(CpuState::execute_transfer);
    lemma_status_rules();
}

proof fn lemma_status_flow(s: CpuState, op: Op)
    requires
        status_ok(s.p),
    ensures
        status_ok(s.execute_flow(op).0.p),
{
    reveal(CpuState::execute_flow);
    lemma_status_rules();
}

proof fn lemma_status_status(s: CpuState, op: Op)
    requires
        status_ok(s.p),
    ensures
        status_ok(s.execute_status(op).0.p),
{
    reveal(CpuState::execute_status);
    lemma_status_rules();
}

/// RESET (and power-on, which has the same `P`) starts with B clear and
/// bit 5 set.
pub proof fn lemma_reset_status(s: CpuState)
    ensures
        status_ok(s.reset().p),
{
    assert(0x24u8 & 0x30 == 0x20) by (bit_vector);
}

/// Every step keeps B clear and bit 5 set in `P`, so pushed copies show
/// bit 5 as 1 and B only where PHP or BRK set it.
pub proof fn lemma_step_keeps_status(s: CpuState)
    requires
        status_ok(s.p),
    ensures
        match s.step() {
            Some((t, _base, _stall)) => status_ok(t.p),
            None => true,
        },
{
    lemma_status_rules();
    if !s.nmi && !(s.irq && !is_set(s.p, crate::flags::IRQ)) {
        if let Some(op) = op_table(s.bus.peek(s.pc)) {
            let (s1, _c) = s.fetch();
            lemma_status_load_store(s1, op);
            lemma_status_alu(s1, op);
            lemma_status_modify(s1, op);
            lemma_status_transfer(s1, op);
            lemma_status_flow(s1, op);
            lemma_status_status(s1, op);
        }
    }
}


/// Taking an NMI or IRQ: `PC` high, `PC` low and `P` (B clear, bit 5 set)
/// are pushed, `S` drops by three, I is set, `PC` comes from the vector
/// ($FFFA for NMI, which goes first, else $FFFE), and 7 cycles pass.
pub proof fn lemma_interrupt_entry(s: CpuState)
    requires
        s.wf(),
        s.interrupt_due(),
    ensures
        s.step() matches Some((t, base, stall)) && {
            let vector: u16 = if s.nmi { crate::state::NMI_VECTOR } else { crate::state::IRQ_VECTOR };
            &&& t.bus.peek((STACK_BASE + s.s) as u16) == (s.pc / 256) as u8
            &&& t.bus.peek((STACK_BASE + s.s.wrapping_sub(1)) as u16) == (s.pc % 256) as u8
            &&& t.bus.peek((STACK_BASE + s.s.wrapping_sub(2)) as u16) == (s.p & !BREAK) | UNUSED
            &&& t.s == s.s.wrapping_sub(3)
            &&& t.p == s.p | crate::flags::IRQ
            &&& t.pc == crate::state::word(s.bus.peek(vector), s.bus.peek((vector + 1) as u16))
            &&& base == 7 && stall == 0
            &&& t.cy == s.cy.saturating_add(7)
            &&& !t.nmi
        },
{
    assert(s.s.wrapping_sub(1).wrapping_sub(1) == s.s.wrapping_sub(2));
    assert(s.s.wrapping_sub(2).wrapping_sub(1) == s.s.wrapping_sub(3));
}

} // verus!
