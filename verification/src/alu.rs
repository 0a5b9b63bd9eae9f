//! The arithmetic of the interpreter, stated over the integers.

use vstd::prelude::*;
use vstd::arithmetic::power2::pow2;

verus! {

/// A register value read as a signed number.
pub open spec fn signed(value: u32) -> int {
    if value < 0x8000_0000 {
        value as int
    } else {
        value as int - 0x1_0000_0000
    }
}

/// The register value that stands for an integer: its residue modulo 2^32.
pub open spec fn wrap(value: int) -> u32 {
    (value % 0x1_0000_0000) as u32
}

/// Whether an integer is a signed 32-bit value.
pub open spec fn fits(value: int) -> bool {
    -0x8000_0000 <= value < 0x8000_0000
}

/// A 16-bit immediate read as a signed number.
pub open spec fn sign_extend(imm: u16) -> int {
    if imm < 0x8000 {
        imm as int
    } else {
        imm as int - 0x1_0000
    }
}

/// A byte read as a signed number.
pub open spec fn sign_extend_byte(byte: u8) -> int {
    if byte < 0x80 {
        byte as int
    } else {
        byte as int - 0x100
    }
}

/// The absolute value.
pub open spec fn magnitude(value: int) -> int {
    if value < 0 {
        -value
    } else {
        value
    }
}

/// The quotient of a division that rounds toward zero.
pub open spec fn quotient(a: int, b: int) -> int {
    if (a < 0) != (b < 0) {
        -(magnitude(a) / magnitude(b))
    } else {
        magnitude(a) / magnitude(b)
    }
}

/// The remainder of a division that rounds toward zero: it has the sign of
/// the dividend.
pub open spec fn remainder(a: int, b: int) -> int {
    if a < 0 {
        -(magnitude(a) % magnitude(b))
    } else {
        magnitude(a) % magnitude(b)
    }
}

/// A right shift that fills with copies of the sign bit.
pub open spec fn shift_arithmetic(value: u32, amount: u32) -> u32 {
    if value < 0x8000_0000 {
        value >> amount
    } else {
        !((!value) >> amount)
    }
}

/// The immediate in the high half, over the low half of `value`.
pub open spec fn merge_high(value: u32, imm: u16) -> u32 {
    (value % 0x1_0000 + 0x1_0000 * imm) as u32
}

/// The immediate in the low half, under the high half of `value`.
pub open spec fn merge_low(value: u32, imm: u16) -> u32 {
    (value / 0x1_0000 * 0x1_0000 + imm) as u32
}

/// A register value as a signed number.
pub fn to_signed(value: u32) -> (number: i64)
    ensures
        number == signed(value),
{
    if value < 0x8000_0000 {
        value as i64
    } else {
        value as i64 - 0x1_0000_0000
    }
}

/// A 16-bit immediate as a signed number.
pub fn extend(imm: u16) -> (number: i64)
    ensures
        number == sign_extend(imm),
{
    if imm < 0x8000 {
        imm as i64
    } else {
        imm as i64 - 0x1_0000
    }
}

/// The register value that stands for a number near the 32-bit range.
pub fn wrap_near(number: i64) -> (value: u32)
    requires
        -0x1_0000_0000 <= number < 0x2_0000_0000,
    ensures
        value == wrap(number as int),
{
    if number < 0 {
        (number + 0x1_0000_0000) as u32
    } else if number >= 0x1_0000_0000 {
        (number - 0x1_0000_0000) as u32
    } else {
        number as u32
    }
}

/// The negation of a register value, modulo 2^32.
pub fn negate(value: u32) -> (negated: u32)
    ensures
        negated == wrap(-(value as int)),
{
    if value == 0 {
        0
    } else {
        (0x1_0000_0000u64 - value as u64) as u32
    }
}

/// The absolute value of a register value read as a signed number.
pub fn magnitude_of(value: u32) -> (size: u32)
    ensures
        size == magnitude(signed(value)),
{
    if value < 0x8000_0000 {
        value
    } else {
        (0x1_0000_0000u64 - value as u64) as u32
    }
}

/// Computes an arithmetic right shift.
pub fn shift_right_arithmetic(value: u32, amount: u32) -> (shifted: u32)
    requires
        amount < 32,
    ensures
        shifted == shift_arithmetic(value, amount),
{
    if value < 0x8000_0000 {
        value >> amount
    } else {
        !((!value) >> amount)
    }
}

/// The high and the low word of the product of two signed register values.
pub fn multiply_signed(a: u32, b: u32) -> (product: (u32, u32))
    ensures
        product.0 == wrap(signed(a) * signed(b) / 0x1_0000_0000),
        product.1 == wrap(signed(a) * signed(b)),
{
    let x: i64 = to_signed(a);
    let y: i64 = to_signed(b);
    assert(-0x4000_0000_0000_0000 <= x * y <= 0x4000_0000_0000_0000) by (nonlinear_arith)
        requires
            -0x8000_0000 <= x < 0x8000_0000,
            -0x8000_0000 <= y < 0x8000_0000,
    ;
    let wide: i64 = x * y;
    let bits: u64 = if wide >= 0 {
        wide as u64
    } else {
        (wide + 0x4000_0000_0000_0000) as u64 + 0xC000_0000_0000_0000
    };
    ((bits / 0x1_0000_0000) as u32, (bits % 0x1_0000_0000) as u32)
}

/// The high and the low word of the product of two unsigned register values.
pub fn multiply_unsigned(a: u32, b: u32) -> (product: (u32, u32))
    ensures
        product.0 == wrap(a as int * b as int / 0x1_0000_0000),
        product.1 == wrap(a as int * b as int),
{
    assert(0 <= a as int * b as int <= 0xFFFF_FFFF * 0xFFFF_FFFF) by (nonlinear_arith)
        requires
            0 <= a as int <= 0xFFFF_FFFF,
            0 <= b as int <= 0xFFFF_FFFF,
    ;
    let bits: u64 = a as u64 * b as u64;
    ((bits / 0x1_0000_0000) as u32, (bits % 0x1_0000_0000) as u32)
}

/// The remainder and the quotient of two signed register values, rounding
/// toward zero; both are 0 where the divisor is 0.
pub fn divide_signed(a: u32, b: u32) -> (result: (u32, u32))
    ensures
        b == 0 ==> result == (0u32, 0u32),
        b != 0 ==> result.0 == wrap(remainder(signed(a), signed(b))),
        b != 0 ==> result.1 == wrap(quotient(signed(a), signed(b))),
{
    if b == 0 {
        return (0, 0);
    }
    let x: u32 = magnitude_of(a);
    let y: u32 = magnitude_of(b);
    let q: u32 = x / y;
    let r: u32 = x % y;
    let lo: u32 = if (a >= 0x8000_0000) != (b >= 0x8000_0000) {
        negate(q)
    } else {
        q
    };
    let hi: u32 = if a >= 0x8000_0000 {
        negate(r)
    } else {
        r
    };
    (hi, lo)
}

/// The remainder and the quotient of two unsigned register values; both are 0
/// where the divisor is 0.
pub fn divide_unsigned(a: u32, b: u32) -> (result: (u32, u32))
    ensures
        b == 0 ==> result == (0u32, 0u32),
        b != 0 ==> result.0 == a % b,
        b != 0 ==> result.1 == a / b,
{
    if b == 0 {
        (0, 0)
    } else {
        (a % b, a / b)
    }
}

/// An arithmetic right shift divides the signed value by a power of two and
/// rounds down.
pub proof fn lemma_shift_arithmetic_divides(value: u32, amount: u32)
    requires
        amount < 32,
    ensures
        shift_arithmetic(value, amount) == wrap(signed(value) / (pow2(amount as nat) as int)),
{
    let divisor = pow2(amount as nat) as int;
    vstd::arithmetic::power2::lemma_pow2_pos(amount as nat);
    if value < 0x8000_0000 {
        vstd::bits::lemma_u32_shr_is_div(value, amount);
        assert(0 <= value as int / divisor <= value) by (nonlinear_arith)
            requires
                0 <= value as int,
                divisor > 0,
        ;
    } else {
        let flipped: u32 = !value;
        assert(flipped == 0xFFFF_FFFFu32 - value) by (bit_vector)
            requires
                flipped == !value,
        ;
        let shifted: u32 = flipped >> amount;
        vstd::bits::lemma_u32_shr_is_div(flipped, amount);
        let back: u32 = !shifted;
        assert(back == 0xFFFF_FFFFu32 - shifted) by (bit_vector)
            requires
                back == !shifted,
        ;
        let quotient = flipped as int / divisor;
        let rest = flipped as int % divisor;
        vstd::arithmetic::div_mod::lemma_fundamental_div_mod(flipped as int, divisor);
        vstd::arithmetic::div_mod::lemma_mod_bound(flipped as int, divisor);
        assert(signed(value) == (-quotient - 1) * divisor + (divisor - rest - 1)) by (nonlinear_arith)
            requires
                signed(value) == -(flipped as int) - 1,
                flipped as int == divisor * quotient + rest,
        ;
        vstd::arithmetic::div_mod::lemma_fundamental_div_mod_converse(
            signed(value),
            divisor,
            -quotient - 1,
            divisor - rest - 1,
        );
        assert(0 <= quotient <= flipped) by (nonlinear_arith)
            requires
                0 <= flipped as int,
                divisor > 0,
                quotient == flipped as int / divisor,
        ;
    }
}

/// A left shift multiplies by a power of two, modulo 2^32.
pub proof fn lemma_shift_left_multiplies(value: u32, amount: u32)
    requires
        amount < 32,
    ensures
        value << amount == wrap(value * pow2(amount as nat)),
{
    let wide: u64 = value as u64;
    let count: u64 = amount as u64;
    let shifted: u64 = wide << count;
    vstd::arithmetic::power2::lemma2_to64();
    vstd::arithmetic::power2::lemma_pow2_pos(amount as nat);
    vstd::arithmetic::power2::lemma_pow2_strictly_increases(amount as nat, 32);
    assert(0 <= wide * pow2(amount as nat) < 0x1_0000_0000 * 0x1_0000_0000)
        by (nonlinear_arith)
        requires
            0 <= wide,
            wide < 0x1_0000_0000,
            pow2(amount as nat) > 0,
            pow2(amount as nat) < 0x1_0000_0000,
    ;
    vstd::bits::lemma_u64_shl_is_mul(wide, count);
    assert((value << amount) == (shifted & 0xFFFF_FFFF) as u32) by (bit_vector)
        requires
            wide == value as u64,
            count == amount as u64,
            shifted == wide << count,
            amount < 32,
    ;
    assert((shifted & 0xFFFF_FFFF) == shifted % 0x1_0000_0000) by (bit_vector);
}

/// A logical right shift divides by a power of two and rounds down.
pub proof fn lemma_shift_right_divides(value: u32, amount: u32)
    requires
        amount < 32,
    ensures
        value >> amount == value as int / (pow2(amount as nat) as int),
{
    vstd::bits::lemma_u32_shr_is_div(value, amount);
}

} // verus!
