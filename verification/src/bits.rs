//! Word-level arithmetic of the machine: 16-bit wrapping addition and
//! subtraction, sign extension, and the condition-code flag of a value.

use vstd::prelude::*;

verus! {

/// The positive condition-code flag.
pub const FLAG_POS: u16 = 1;

/// The zero condition-code flag.
pub const FLAG_ZRO: u16 = 2;

/// The negative condition-code flag.
pub const FLAG_NEG: u16 = 4;

/// Condition-code flag encoding the signed sign of `value`:
/// zero gives `Z`, a set high bit gives `N`, anything else gives `P`.
pub open spec fn flag_for(value: u16) -> u16 {
    if value == 0 {
        FLAG_ZRO
    } else if value >= 0x8000 {
        FLAG_NEG
    } else {
        FLAG_POS
    }
}

/// 16-bit wrapping addition, the arithmetic of every `ADD` and of all
/// address computations.
pub open spec fn wadd(a: u16, b: u16) -> u16 {
    if a + b > 0xFFFF {
        (a + b - 0x10000) as u16
    } else {
        (a + b) as u16
    }
}

/// 16-bit wrapping subtraction, used to roll the program counter back one
/// instruction when a trap suspends.
pub open spec fn wsub(a: u16, b: u16) -> u16 {
    if a - b < 0 {
        (a - b + 0x10000) as u16
    } else {
        (a - b) as u16
    }
}

/// The low `n` bits of `x` read as a two's-complement number and extended
/// to 16 bits.  Callers hand in `x` with all bits above the low `n` clear.
pub open spec fn sext(x: u16, n: u16) -> u16 {
    if n < 16 && ((x >> ((n - 1) as u16)) & 1) == 1 {
        x | ((0xFFFF as u16) << n)
    } else {
        x
    }
}

/// Treat the low `bit_count` bits of `orig` as a two's-complement number
/// and extend it to 16 bits.
pub fn sign_extend(orig: u16, bit_count: u8) -> (r: u16)
    requires
        1 <= bit_count <= 16,
    ensures
        r == sext(orig, bit_count as u16),
{
    if bit_count < 16 && ((orig >> (bit_count as u16 - 1)) & 1) == 1 {
        orig | ((0xFFFF as u16) << (bit_count as u16))
    } else {
        orig
    }
}

/// Exactly one condition-code flag describes any value, and it matches the
/// signed sign of that value.
pub proof fn lemma_flag_one_hot(value: u16)
    ensures
        flag_for(value) == FLAG_POS || flag_for(value) == FLAG_ZRO || flag_for(value)
            == FLAG_NEG,
        flag_for(value) == FLAG_ZRO <==> value == 0,
        flag_for(value) == FLAG_NEG <==> value >= 0x8000,
        flag_for(value) == FLAG_POS <==> 0 < value < 0x8000,
{
}

/// Sign extension over all 16 bits changes nothing.
pub proof fn lemma_sext_identity(x: u16)
    ensures
        sext(x, 16) == x,
{
}

/// Sign extension is idempotent: extending an already extended value a
/// second time with the same width changes nothing.
pub proof fn lemma_sext_idempotent(x: u16, n: u16)
    requires
        1 <= n <= 16,
    ensures
        sext(sext(x, n), n) == sext(x, n),
{
    if n < 16 {
        assert(sext(sext(x, n), n) == sext(x, n)) by (bit_vector)
            requires
                1 <= n < 16,
        ;
    }
}

/// Wrapping addition is commutative.
pub proof fn lemma_wadd_commutative(a: u16, b: u16)
    ensures
        wadd(a, b) == wadd(b, a),
{
}

/// Wrapping addition is associative.
pub proof fn lemma_wadd_associative(a: u16, b: u16, c: u16)
    ensures
        wadd(wadd(a, b), c) == wadd(a, wadd(b, c)),
{
}

/// Complementing a word twice restores it.
pub proof fn lemma_not_involution(x: u16)
    ensures
        !(!x) == x,
{
    assert(!(!x) == x) by (bit_vector);
}

/// A 3-bit register selector is an index below 8.
pub proof fn lemma_mask7(r: u16)
    ensures
        (r & 7) < 8,
{
    assert((r & 7) < 8) by (bit_vector);
}

/// Masking to three bits twice is the same as masking once.
pub proof fn lemma_mask7_idempotent(r: u16)
    ensures
        ((r & 7) & 7) == (r & 7),
{
    assert(((r & 7) & 7) == (r & 7)) by (bit_vector);
}

} // verus!
