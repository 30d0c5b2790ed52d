//! The processor-status register `P`, bit-packed as `N V _ B D I Z C`.
use vstd::prelude::*;

verus! {

/// Carry / borrow.
pub const CARRY: u8 = 0x01;
/// The last result was zero.
pub const ZERO: u8 = 0x02;
/// Maskable interrupts are disabled.
pub const IRQ: u8 = 0x04;
/// Decimal mode: settable, but without effect on this CPU.
pub const DECIMAL: u8 = 0x08;
/// Break: only ever seen in copies of `P` pushed by BRK or PHP.
pub const BREAK: u8 = 0x10;
/// Reserved bit, always read as one.
pub const UNUSED: u8 = 0x20;
/// Signed overflow.
pub const OVERFLOW: u8 = 0x40;
/// Bit 7 of the last result.
pub const NEGATIVE: u8 = 0x80;

/// `p` with the bits of `mask` set when `cond` holds and cleared otherwise.
pub open spec fn assign(p: u8, mask: u8, cond: bool) -> u8 {
    if cond {
        p | mask
    } else {
        p & !mask
    }
}

/// `p` with `Z := v == 0` and `N := bit 7 of v`.
pub open spec fn with_zn(p: u8, v: u8) -> u8 {
    assign(assign(p, ZERO, v == 0), NEGATIVE, v & 0x80 != 0)
}

/// Whether any bit of `mask` is set in `p`.
pub open spec fn is_set(p: u8, mask: u8) -> bool {
    p & mask != 0
}

/// Sets or clears the bits of `mask` in `p`.
pub fn assign_flag(p: u8, mask: u8, cond: bool) -> (r: u8)
    ensures
        r == assign(p, mask, cond),
{
    if cond {
        p | mask
    } else {
        p & !mask
    }
}

/// Updates `Z` and `N` of `p` from the result `v`.
pub fn update_zn(p: u8, v: u8) -> (r: u8)
    ensures
        r == with_zn(p, v),
{
    let q = assign_flag(p, ZERO, v == 0);
    assign_flag(q, NEGATIVE, v & 0x80 != 0)
}

/// What `assign` does to each single flag bit.
pub proof fn lemma_assign(p: u8, mask: u8, cond: bool)
    requires
        mask == CARRY || mask == ZERO || mask == IRQ || mask == DECIMAL || mask == BREAK
            || mask == UNUSED || mask == OVERFLOW || mask == NEGATIVE,
    ensures
        is_set(assign(p, mask, cond), mask) == cond,
        forall|m: u8|
            #![trigger is_set(assign(p, mask, cond), m)]
            (m == CARRY || m == ZERO || m == IRQ || m == DECIMAL || m == BREAK || m == UNUSED
                || m == OVERFLOW || m == NEGATIVE) && m != mask ==> is_set(assign(p, mask, cond), m)
                == is_set(p, m),
{
    let q = assign(p, mask, cond);
    if cond {
        assert(q == p | mask);
        assert((p | mask) & mask != 0) by (bit_vector)
            requires
                mask != 0,
        ;
    } else {
        assert(q == p & !mask);
        assert((p & !mask) & mask == 0) by (bit_vector);
    }
    assert forall|m: u8|
        (m == CARRY || m == ZERO || m == IRQ || m == DECIMAL || m == BREAK || m == UNUSED
            || m == OVERFLOW || m == NEGATIVE) && m != mask implies #[trigger] is_set(
        assign(p, mask, cond),
        m,
    ) == is_set(p, m) by {
        assert(m & mask == 0) by (bit_vector)
            requires
                m != mask,
                m == 1u8 || m == 2u8 || m == 4u8 || m == 8u8 || m == 16u8 || m == 32u8 || m == 64u8 || m == 128u8,
                mask == 1u8 || mask == 2u8 || mask == 4u8 || mask == 8u8 || mask == 16u8 || mask == 32u8 || mask == 64u8 || mask == 128u8,
        ;
        assert(((p | mask) & m != 0) == (p & m != 0)) by (bit_vector)
            requires
                m & mask == 0,
        ;
        assert(((p & !mask) & m != 0) == (p & m != 0)) by (bit_vector)
            requires
                m & mask == 0,
        ;
    }
}

} // verus!
