//! The arithmetic, logic, rotate, shift and bit operations of the processor, and the
//! flags that each leaves.
use vstd::prelude::*;
use crate::soc::cpu::{Cpu, CarryOp};
use crate::soc::cpu::instruction::Direction;
use crate::soc::cpu::register::{FlagRegister, Registers};

verus! {

/// The carry flag as a number.
pub open spec fn carry_in(f: FlagRegister) -> int {
    if f.carry {
        1
    } else {
        0
    }
}

/// The flags of an 8-bit result: Z from the result, N, H and C as given.
pub open spec fn flags(result: u8, substraction: bool, half_carry: bool, carry: bool) -> FlagRegister {
    FlagRegister { zero: result == 0, substraction, half_carry, carry }
}

/// A + value: H on a carry out of bit 3, C on a carry out of bit 7.
pub open spec fn add_spec(a: u8, value: u8) -> (u8, FlagRegister) {
    let sum = a + value;
    let result = (sum % 256) as u8;
    (result, flags(result, false, a % 16 + value % 16 > 15, sum > 255))
}

/// A + value + C.
pub open spec fn addc_spec(a: u8, f: FlagRegister, value: u8) -> (u8, FlagRegister) {
    let sum = a + value + carry_in(f);
    let result = (sum % 256) as u8;
    (result, flags(result, false, a % 16 + value % 16 + carry_in(f) > 15, sum > 255))
}

/// A - value: H on a borrow from bit 4, C on a borrow.
pub open spec fn sub_spec(a: u8, value: u8) -> (u8, FlagRegister) {
    let difference = a - value;
    let result = (difference % 256) as u8;
    (result, flags(result, true, a % 16 < value % 16, difference < 0))
}

/// SBC: A - (value - C), the carry taken off the operand first (value - C wraps when
/// the operand is 0). C is set when either subtraction borrows.
pub open spec fn subc_spec(a: u8, f: FlagRegister, value: u8) -> (u8, FlagRegister) {
    let operand = (value - carry_in(f)) % 256;
    let result = ((a - operand) % 256) as u8;
    (result, flags(result, true, a % 16 < value % 16 + carry_in(f), value < carry_in(f) || a < operand))
}

pub open spec fn and_spec(a: u8, value: u8) -> (u8, FlagRegister) {
    (a & value, flags(a & value, false, true, false))
}

pub open spec fn xor_spec(a: u8, value: u8) -> (u8, FlagRegister) {
    (a ^ value, flags(a ^ value, false, false, false))
}

pub open spec fn or_spec(a: u8, value: u8) -> (u8, FlagRegister) {
    (a | value, flags(a | value, false, false, false))
}

/// The flags of A - value; A itself is kept.
pub open spec fn cp_spec(a: u8, value: u8) -> (u8, FlagRegister) {
    (a, FlagRegister { zero: a == value, substraction: true, half_carry: a % 16 < value % 16, carry: a < value })
}

/// value + 1: C is kept.
pub open spec fn inc_spec(f: FlagRegister, value: u8) -> (u8, FlagRegister) {
    let result = ((value + 1) % 256) as u8;
    (result, flags(result, false, value % 16 == 15, f.carry))
}

/// value - 1: C is kept.
pub open spec fn dec_spec(f: FlagRegister, value: u8) -> (u8, FlagRegister) {
    let result = ((value - 1) % 256) as u8;
    (result, flags(result, true, value % 16 == 0, f.carry))
}

/// HL + value: Z is kept, H on a carry out of bit 11, C on a carry out of bit 15.
pub open spec fn add16_spec(hl: u16, f: FlagRegister, value: u16) -> (u16, FlagRegister) {
    let sum = hl + value;
    (
        (sum % 0x10000) as u16,
        FlagRegister {
            zero: f.zero,
            substraction: false,
            half_carry: hl % 0x800 + value % 0x800 > 0x7FF,
            carry: sum > 0xFFFF,
        },
    )
}

/// The zero flag left by a rotation: from the result when asked, else cleared.
pub open spec fn rotate_zero(result: u8, zero: bool) -> bool {
    zero && result == 0
}

/// Rotation by one bit; the bit that leaves goes to C and comes back on the other side.
/// N and H are kept.
pub open spec fn rotate_spec(f: FlagRegister, value: u8, direction: Direction, zero: bool) -> (u8, FlagRegister) {
    match direction {
        Direction::LEFT => {
            let result = ((value % 128) * 2 + value / 128) as u8;
            (result, FlagRegister { zero: rotate_zero(result, zero), carry: value >= 128, ..f })
        },
        Direction::RIGHT => {
            let result = (value / 2 + (value % 2) * 128) as u8;
            (result, FlagRegister { zero: rotate_zero(result, zero), carry: value % 2 == 1, ..f })
        },
    }
}

/// Rotation by one bit through C: C comes in, the bit that leaves goes to C.
pub open spec fn rotate_through_carry_spec(f: FlagRegister, value: u8, direction: Direction, zero: bool) -> (u8, FlagRegister) {
    match direction {
        Direction::LEFT => {
            let result = ((value % 128) * 2 + carry_in(f)) as u8;
            (result, FlagRegister { zero: rotate_zero(result, zero), carry: value >= 128, ..f })
        },
        Direction::RIGHT => {
            let result = (value / 2 + carry_in(f) * 128) as u8;
            (result, FlagRegister { zero: rotate_zero(result, zero), carry: value % 2 == 1, ..f })
        },
    }
}

/// Shift left, bit 0 cleared, bit 7 to C.
pub open spec fn shift_left_and_reset_spec(value: u8) -> (u8, FlagRegister) {
    let result = ((value % 128) * 2) as u8;
    (result, flags(result, false, false, value >= 128))
}

/// Shift right, bit 7 cleared, bit 0 to C.
pub open spec fn shift_right_and_reset_spec(value: u8) -> (u8, FlagRegister) {
    let result = value / 2;
    (result, flags(result, false, false, value % 2 == 1))
}

/// Shift right keeping bit 7, bit 0 to C.
pub open spec fn shift_right_spec(value: u8) -> (u8, FlagRegister) {
    let result = (value / 2 + (value / 128) * 128) as u8;
    (result, flags(result, false, false, value % 2 == 1))
}

/// The two nibbles exchanged.
pub open spec fn swap_spec(value: u8) -> (u8, FlagRegister) {
    let result = ((value % 16) * 16 + value / 16) as u8;
    (result, flags(result, false, false, false))
}

/// The flags of a bit test: Z when bit `bit` of value is 0, H set, N cleared, C kept.
pub open spec fn complement_bit_spec(f: FlagRegister, bit: u8, value: u8) -> FlagRegister {
    FlagRegister { zero: (value >> bit) & 1 == 0, substraction: false, half_carry: true, carry: f.carry }
}

/// Bit `bit` of value set or cleared.
pub open spec fn set_bit_spec(enable: bool, bit: u8, value: u8) -> u8 {
    if enable {
        value | (1u8 << bit)
    } else {
        value & !(1u8 << bit)
    }
}

/// The decimal correction of A after a BCD addition or subtraction, as the flags left
/// by that operation tell it, with the carry that it leaves.
pub open spec fn decimal_adjust_spec(a: u8, f: FlagRegister) -> (u8, bool) {
    if !f.substraction {
        let high = f.carry || a > 0x99;
        let r1 = if high {
            ((a + 0x60) % 256) as u8
        } else {
            a
        };
        let r2 = if f.half_carry || a % 16 > 9 {
            ((r1 + 0x06) % 256) as u8
        } else {
            r1
        };
        (r2, high)
    } else if f.carry {
        (((a + if f.half_carry { 0x9Aint } else { 0xA0int }) % 256) as u8, true)
    } else if f.half_carry {
        (((a + 0xFA) % 256) as u8, false)
    } else {
        (a, false)
    }
}

/// CP sets the flags that SUB would, and leaves A alone.
pub proof fn lemma_compare_is_subtraction(a: u8, value: u8)
    ensures
        cp_spec(a, value).0 == a,
        cp_spec(a, value).1 == sub_spec(a, value).1,
{
}

/// DEC undoes INC, and INC undoes DEC, whatever the flags.
pub proof fn lemma_inc_dec_inverse(f: FlagRegister, g: FlagRegister, value: u8)
    ensures
        dec_spec(g, inc_spec(f, value).0).0 == value,
        inc_spec(g, dec_spec(f, value).0).0 == value,
{
}

/// A rotation to the right undoes a rotation to the left, and the other way round.
#[verifier::spinoff_prover]
pub proof fn lemma_rotate_inverse(f: FlagRegister, g: FlagRegister, value: u8, zero: bool)
    ensures
        rotate_spec(g, rotate_spec(f, value, Direction::LEFT, zero).0, Direction::RIGHT, zero).0 == value,
        rotate_spec(g, rotate_spec(f, value, Direction::RIGHT, zero).0, Direction::LEFT, zero).0 == value,
{
}

/// Rotating through the carry one way and back restores both the value and the carry.
#[verifier::spinoff_prover]
pub proof fn lemma_rotate_through_carry_inverse(f: FlagRegister, value: u8, zero: bool)
    ensures
        ({
            let (r1, f1) = rotate_through_carry_spec(f, value, Direction::LEFT, zero);
            let (r2, f2) = rotate_through_carry_spec(f1, r1, Direction::RIGHT, zero);
            r2 == value && f2.carry == f.carry
        }),
{
}

/// Swapping the nibbles twice gives the value back.
#[verifier::spinoff_prover]
pub proof fn lemma_swap_involution(value: u8)
    ensures
        swap_spec(swap_spec(value).0).0 == value,
{
}

/// After SET b the bit tests as set (Z clear); after RES b it tests as clear (Z set).
pub proof fn lemma_set_then_test_bit(f: FlagRegister, bit: u8, value: u8)
    requires
        bit < 8,
    ensures
        !complement_bit_spec(f, bit, set_bit_spec(true, bit, value)).zero,
        complement_bit_spec(f, bit, set_bit_spec(false, bit, value)).zero,
{
    assert(((value | (1u8 << bit)) >> bit) & 1 != 0) by (bit_vector)
        requires
            bit < 8,
    ;
    assert(((value & !(1u8 << bit)) >> bit) & 1 == 0) by (bit_vector)
        requires
            bit < 8,
    ;
}

/// An 8-bit addition and the subtraction of the same value cancel out.
pub proof fn lemma_add_then_sub(a: u8, value: u8)
    ensures
        sub_spec(add_spec(a, value).0, value).0 == a,
{
}

/// A flag as a number.
pub open spec fn flag_value(flag: bool) -> int {
    if flag {
        1
    } else {
        0
    }
}

/// ADD and ADC are additions with carry out: A + value + carry in equals the result plus
/// 256 times C, and in the low nibbles the same sum equals the result's low nibble plus
/// 16 times H. Z tells a zero result and N is cleared.
pub proof fn lemma_addition_carries(a: u8, value: u8, f: FlagRegister)
    ensures
        ({
            let (r, g) = addc_spec(a, f, value);
            &&& a + value + carry_in(f) == r + 256 * flag_value(g.carry)
            &&& a % 16 + value % 16 + carry_in(f) == r % 16 + 16 * flag_value(g.half_carry)
            &&& g.zero == (r == 0)
            &&& !g.substraction
        }),
        ({
            let (r, g) = add_spec(a, value);
            &&& a + value == r + 256 * flag_value(g.carry)
            &&& a % 16 + value % 16 == r % 16 + 16 * flag_value(g.half_carry)
            &&& g.zero == (r == 0)
            &&& !g.substraction
        }),
{
    let c: u8 = if f.carry { 1 } else { 0 };
    lemma_sum_digits(a, value, c);
    lemma_sum_digits(a, value, 0);
}

proof fn lemma_sum_digits(a: u8, value: u8, c: u8)
    requires
        c <= 1,
    ensures
        (a + value + c) % 256 + 256 * (if a + value + c > 255 { 1int } else { 0int }) == a + value + c,
        ((a + value + c) % 256) % 16 + 16 * (if a % 16 + value % 16 + c > 15 { 1int } else { 0int })
            == a % 16 + value % 16 + c,
{
    assert(((a + value + c) % 256) % 16 + 16 * (if a % 16 + value % 16 + c > 15 { 1u8 } else { 0u8 })
        == a % 16 + value % 16 + c) by (bit_vector)
        requires
            c <= 1,
    ;
}

/// SUB is a subtraction with borrow: A - value equals the result minus 256 times C, and
/// in the low nibbles the same difference equals the result's low nibble minus 16 times
/// H. Z tells a zero result and N is set. CP leaves the same flags and keeps A.
pub proof fn lemma_subtraction_borrows(a: u8, value: u8)
    ensures
        ({
            let (r, g) = sub_spec(a, value);
            &&& a - value == r - 256 * flag_value(g.carry)
            &&& a % 16 - value % 16 == r % 16 - 16 * flag_value(g.half_carry)
            &&& g.zero == (r == 0)
            &&& g.substraction
        }),
        cp_spec(a, value).1 == sub_spec(a, value).1,
        cp_spec(a, value).0 == a,
{
    assert(((a - value) % 256) as u8 % 16 - 16 * (if a % 16 < value % 16 { 1u8 } else { 0u8 })
        == a % 16 - value % 16) by (bit_vector);
}

/// SBC leaves A - value + C modulo 256 in A, sets N, and Z on a zero result.
pub proof fn lemma_subtraction_with_carry(a: u8, value: u8, f: FlagRegister)
    ensures
        ({
            let (r, g) = subc_spec(a, f, value);
            &&& (a - value + carry_in(f) - r) % 256 == 0
            &&& g.zero == (r == 0)
            &&& g.substraction
        }),
{
}

/// AND, OR and XOR work bit by bit: each bit of the result is the AND, OR or XOR of that
/// bit of A and of the value. AND sets H, OR and XOR clear it; all clear C and N and set
/// Z on a zero result.
pub proof fn lemma_logic_bits(a: u8, value: u8, k: u8)
    requires
        k < 8,
    ensures
        (and_spec(a, value).0 >> k) & 1 == ((a >> k) & 1) & ((value >> k) & 1),
        (or_spec(a, value).0 >> k) & 1 == ((a >> k) & 1) | ((value >> k) & 1),
        (xor_spec(a, value).0 >> k) & 1 == ((a >> k) & 1) ^ ((value >> k) & 1),
        and_spec(a, value).1 == (FlagRegister {
            zero: and_spec(a, value).0 == 0,
            substraction: false,
            half_carry: true,
            carry: false,
        }),
        or_spec(a, value).1 == (FlagRegister {
            zero: or_spec(a, value).0 == 0,
            substraction: false,
            half_carry: false,
            carry: false,
        }),
        xor_spec(a, value).1 == (FlagRegister {
            zero: xor_spec(a, value).0 == 0,
            substraction: false,
            half_carry: false,
            carry: false,
        }),
{
    assert(((a & value) >> k) & 1 == ((a >> k) & 1) & ((value >> k) & 1) && ((a | value) >> k) & 1
        == ((a >> k) & 1) | ((value >> k) & 1) && ((a ^ value) >> k) & 1 == ((a >> k) & 1) ^ ((value
        >> k) & 1)) by (bit_vector);
}

/// INC and DEC move the value by one, wrapping around; INC sets H exactly when the low
/// nibble of the result is 0 (a carry out of bit 3), DEC exactly when it is 0xF (a
/// borrow into bit 3); both keep C, set Z on a zero result, and N tells DEC.
pub proof fn lemma_increment_decrement(f: FlagRegister, value: u8)
    ensures
        ({
            let (r, g) = inc_spec(f, value);
            &&& r == if value == 255 { 0int } else { value + 1 }
            &&& g.half_carry == (r % 16 == 0)
            &&& g.carry == f.carry
            &&& g.zero == (r == 0)
            &&& !g.substraction
        }),
        ({
            let (r, g) = dec_spec(f, value);
            &&& r == if value == 0 { 255int } else { value - 1 }
            &&& g.half_carry == (r % 16 == 15)
            &&& g.carry == f.carry
            &&& g.zero == (r == 0)
            &&& g.substraction
        }),
{
}

/// ADD HL, rr: HL + value equals the result plus 65536 times C, and in the low 11 bits
/// the same sum equals the result's low 11 bits plus 2048 times H; Z is kept, N cleared.
pub proof fn lemma_add16_carries(hl: u16, f: FlagRegister, value: u16)
    ensures
        ({
            let (r, g) = add16_spec(hl, f, value);
            &&& hl + value == r + 65536 * flag_value(g.carry)
            &&& hl % 2048 + value % 2048 == r % 2048 + 2048 * flag_value(g.half_carry)
            &&& g.zero == f.zero
            &&& !g.substraction
        }),
{
    assert(((hl + value) % 0x10000) as u16 % 2048 + 2048 * (if hl % 0x800 + value % 0x800 > 0x7FF {
        1u16
    } else {
        0u16
    }) == hl % 2048 + value % 2048) by (bit_vector);
}

/// The rotations and shifts as bit moves: RLC moves bit 7 round to bit 0, RRC bit 0
/// round to bit 7, RL and RR pass through C, SLA shifts in a 0, SRA keeps bit 7, SRL
/// shifts in a 0, SWAP exchanges the nibbles. The bit that leaves goes to C.
pub proof fn lemma_rotations_move_bits(f: FlagRegister, value: u8, zero: bool)
    ensures
        rotate_spec(f, value, Direction::LEFT, zero).0 == (value << 1u8) | (value >> 7u8),
        rotate_spec(f, value, Direction::RIGHT, zero).0 == (value >> 1u8) | (value << 7u8),
        rotate_spec(f, value, Direction::LEFT, zero).1.carry == ((value >> 7u8) == 1),
        rotate_spec(f, value, Direction::RIGHT, zero).1.carry == (value & 1 == 1),
        rotate_through_carry_spec(f, value, Direction::LEFT, zero).0 == (value << 1u8) | (if f.carry {
            1u8
        } else {
            0u8
        }),
        rotate_through_carry_spec(f, value, Direction::RIGHT, zero).0 == (value >> 1u8) | (if f.carry {
            0x80u8
        } else {
            0u8
        }),
        rotate_through_carry_spec(f, value, Direction::LEFT, zero).1.carry == ((value >> 7u8) == 1),
        rotate_through_carry_spec(f, value, Direction::RIGHT, zero).1.carry == (value & 1 == 1),
        shift_left_and_reset_spec(value).0 == value << 1u8,
        shift_left_and_reset_spec(value).1.carry == ((value >> 7u8) == 1),
        shift_right_spec(value).0 == (value >> 1u8) | (value & 0x80),
        shift_right_spec(value).1.carry == (value & 1 == 1),
        shift_right_and_reset_spec(value).0 == value >> 1u8,
        shift_right_and_reset_spec(value).1.carry == (value & 1 == 1),
        swap_spec(value).0 == (value << 4u8) | (value >> 4u8),
        !swap_spec(value).1.carry,
{
    assert(((value % 128) * 2 + value / 128) as u8 == (value << 1u8) | (value >> 7u8)
        && (value / 2 + (value % 2) * 128) as u8 == (value >> 1u8) | (value << 7u8)
        && (value >= 128) == ((value >> 7u8) == 1) && (value % 2 == 1) == (value & 1 == 1)
        && ((value % 128) * 2 + 1) as u8 == (value << 1u8) | 1u8
        && ((value % 128) * 2 + 0) as u8 == (value << 1u8) | 0u8
        && (value / 2 + 1 * 128) as u8 == (value >> 1u8) | 0x80u8
        && (value / 2 + 0 * 128) as u8 == (value >> 1u8) | 0u8
        && ((value % 128) * 2) as u8 == value << 1u8
        && (value / 2 + (value / 128) * 128) as u8 == (value >> 1u8) | (value & 0x80)
        && value / 2 == value >> 1u8
        && ((value % 16) * 16 + value / 16) as u8 == (value << 4u8) | (value >> 4u8)) by (bit_vector);
}

/// BIT tests one bit: Z is set exactly when that bit of the value is clear. SET and RES
/// change that bit only.
pub proof fn lemma_bit_operations(f: FlagRegister, bit: u8, value: u8, k: u8)
    requires
        bit < 8,
        k < 8,
    ensures
        complement_bit_spec(f, bit, value).zero == (value & (1u8 << bit) == 0),
        (set_bit_spec(true, bit, value) >> k) & 1 == if k == bit { 1u8 } else { (value >> k) & 1 },
        (set_bit_spec(false, bit, value) >> k) & 1 == if k == bit { 0u8 } else { (value >> k) & 1 },
{
    assert(((value >> bit) & 1 == 0) == (value & (1u8 << bit) == 0)) by (bit_vector)
        requires
            bit < 8,
    ;
    assert(((value | (1u8 << bit)) >> k) & 1 == if k == bit { 1u8 } else { (value >> k) & 1 })
        by (bit_vector)
        requires
            bit < 8,
            k < 8,
    ;
    assert(((value & !(1u8 << bit)) >> k) & 1 == if k == bit { 0u8 } else { (value >> k) & 1 })
        by (bit_vector)
        requires
            bit < 8,
            k < 8,
    ;
}

/// A byte in packed BCD: two decimal digits, one per nibble.
pub open spec fn is_bcd(x: u8) -> bool {
    x / 16 <= 9 && x % 16 <= 9
}

/// The number that a packed-BCD byte stands for.
pub open spec fn bcd_value(x: u8) -> int {
    (x / 16) * 10 + x % 16
}

/// The packed-BCD byte of a number below 100.
pub open spec fn bcd_byte(n: int) -> int {
    (n / 10) * 16 + n % 10
}

/// DAA after ADD or ADC of two packed-BCD bytes: A holds the packed-BCD form of the
/// decimal sum (carry in included) modulo 100, and C is set exactly when that sum
/// reaches 100.
pub proof fn lemma_decimal_adjust_after_addition(a: u8, b: u8, f: FlagRegister)
    requires
        is_bcd(a),
        is_bcd(b),
    ensures
        ({
            let total = bcd_value(a) + bcd_value(b) + carry_in(f);
            let (sum, g) = addc_spec(a, f, b);
            let (adjusted, carry) = decimal_adjust_spec(sum, g);
            &&& adjusted == bcd_byte(total % 100)
            &&& carry == (total >= 100)
        }),
        ({
            let total = bcd_value(a) + bcd_value(b);
            let (sum, g) = add_spec(a, b);
            let (adjusted, carry) = decimal_adjust_spec(sum, g);
            &&& adjusted == bcd_byte(total % 100)
            &&& carry == (total >= 100)
        }),
{
    let c: u8 = if f.carry { 1 } else { 0 };
    lemma_bcd_addition_digits(a, b, c);
    lemma_bcd_addition_digits(a, b, 0);
}

/// The byte arithmetic of DAA after a BCD addition with carry in `c`.
proof fn lemma_bcd_addition_digits(a: u8, b: u8, c: u8)
    requires
        a / 16 <= 9,
        a % 16 <= 9,
        b / 16 <= 9,
        b % 16 <= 9,
        c <= 1,
    ensures
        ({
            let s = a + b + c;
            let r = (s % 256) as u8;
            let hc = a % 16 + b % 16 + c > 15;
            let high = s > 255 || r > 0x99;
            let r1: u8 = if high { ((r + 0x60) % 256) as u8 } else { r };
            let r2: u8 = if hc || r % 16 > 9 { ((r1 + 0x06) % 256) as u8 } else { r1 };
            let total = (a / 16) * 10 + a % 16 + (b / 16) * 10 + b % 16 + c;
            &&& r2 == ((total % 100) / 10) * 16 + (total % 100) % 10
            &&& high == (total >= 100)
        }),
{
    assert({
        let s = a + b + c;
        let r = (s % 256) as u8;
        let hc = a % 16 + b % 16 + c > 15;
        let high = s > 255 || r > 0x99;
        let r1: u8 = if high { ((r + 0x60) % 256) as u8 } else { r };
        let r2: u8 = if hc || r % 16 > 9 { ((r1 + 0x06) % 256) as u8 } else { r1 };
        let total = (a / 16) * 10 + a % 16 + (b / 16) * 10 + b % 16 + c;
        &&& r2 == ((total % 100) / 10) * 16 + (total % 100) % 10
        &&& high == (total >= 100)
    }) by (bit_vector)
        requires
            a / 16 <= 9,
            a % 16 <= 9,
            b / 16 <= 9,
            b % 16 <= 9,
            c <= 1,
    ;
}

/// DAA after SUB of two packed-BCD bytes: A holds the packed-BCD form of the decimal
/// difference modulo 100, and C is set exactly when the difference is negative.
pub proof fn lemma_decimal_adjust_after_subtraction(a: u8, b: u8)
    requires
        is_bcd(a),
        is_bcd(b),
    ensures
        ({
            let difference = bcd_value(a) - bcd_value(b);
            let (result, g) = sub_spec(a, b);
            let (adjusted, carry) = decimal_adjust_spec(result, g);
            &&& adjusted == bcd_byte(if difference < 0 { difference + 100 } else { difference })
            &&& carry == (difference < 0)
        }),
{
    assert({
        let d = a - b;
        let r = (d % 256) as u8;
        let hc = a % 16 < b % 16;
        let cy = d < 0;
        let adjusted: u8 = if cy {
            ((r + if hc { 0x9Aint } else { 0xA0int }) % 256) as u8
        } else if hc {
            ((r + 0xFA) % 256) as u8
        } else {
            r
        };
        let difference = (a / 16) * 10 + a % 16 - ((b / 16) * 10 + b % 16);
        let n = if difference < 0 { difference + 100 } else { difference };
        &&& adjusted == (n / 10) * 16 + n % 10
        &&& cy == (difference < 0)
    }) by (bit_vector)
        requires
            a / 16 <= 9,
            a % 16 <= 9,
            b / 16 <= 9,
            b % 16 <= 9,
    ;
}

impl Cpu {
    /// The processor with other flags.
    pub open spec fn with_flags(self, f: FlagRegister) -> Cpu {
        Cpu { registers: Registers { f, ..self.registers }, ..self }
    }

    pub(crate) fn add(&mut self, value: u8) -> (new_value: u8)
        ensures
            (new_value, final(self).registers.f) == add_spec(old(self).registers.a, value),
            *final(self) == old(self).with_flags(final(self).registers.f),
    {
        let a = self.registers.a;
        let sum: u16 = a as u16 + value as u16;
        let new_value = (sum % 256) as u8;
        self.registers.f.zero = new_value == 0;
        self.registers.f.substraction = false;
        self.registers.f.carry = sum > 255;
        self.registers.f.half_carry = a % 16 + value % 16 > 15;
        new_value
    }

    pub(crate) fn add16(&mut self, value: u16) -> (new_value: u16)
        ensures
            (new_value, final(self).registers.f) == add16_spec(old(self).registers.hl(), old(self).registers.f, value),
            *final(self) == old(self).with_flags(final(self).registers.f),
    {
        let hl_value = self.registers.read_hl();
        let sum: u32 = hl_value as u32 + value as u32;
        self.registers.f.substraction = false;
        self.registers.f.carry = sum > 0xFFFF;
        self.registers.f.half_carry = value % 0x800 + hl_value % 0x800 > 0x7FF;
        (sum % 0x10000) as u16
    }

    pub(crate) fn addc(&mut self, value: u8) -> (new_value: u8)
        ensures
            (new_value, final(self).registers.f) == addc_spec(old(self).registers.a, old(self).registers.f, value),
            *final(self) == old(self).with_flags(final(self).registers.f),
    {
        let a = self.registers.a;
        let carry: u8 = if self.registers.f.carry {
            1
        } else {
            0
        };
        let sum: u16 = a as u16 + value as u16 + carry as u16;
        let new_value = (sum % 256) as u8;
        self.registers.f.zero = new_value == 0;
        self.registers.f.substraction = false;
        self.registers.f.carry = sum > 255;
        self.registers.f.half_carry = a % 16 + value % 16 + carry > 15;
        new_value
    }

    pub(crate) fn sub(&mut self, value: u8) -> (new_value: u8)
        ensures
            (new_value, final(self).registers.f) == sub_spec(old(self).registers.a, value),
            *final(self) == old(self).with_flags(final(self).registers.f),
    {
        let a = self.registers.a;
        let new_value = a.wrapping_sub(value);
        self.registers.f.zero = new_value == 0;
        self.registers.f.substraction = true;
        self.registers.f.carry = a < value;
        self.registers.f.half_carry = a % 16 < value % 16;
        new_value
    }

    pub(crate) fn subc(&mut self, value: u8) -> (new_value: u8)
        ensures
            (new_value, final(self).registers.f) == subc_spec(old(self).registers.a, old(self).registers.f, value),
            *final(self) == old(self).with_flags(final(self).registers.f),
    {
        let a = self.registers.a;
        let carry: u8 = if self.registers.f.carry {
            1
        } else {
            0
        };
        let intermediate_value = value.wrapping_sub(carry);
        let new_value = a.wrapping_sub(intermediate_value);
        self.registers.f.zero = new_value == 0;
        self.registers.f.substraction = true;
        self.registers.f.carry = value < carry || a < intermediate_value;
        self.registers.f.half_carry = a % 16 < value % 16 + carry;
        new_value
    }

    pub(crate) fn and(&mut self, value: u8) -> (new_value: u8)
        ensures
            (new_value, final(self).registers.f) == and_spec(old(self).registers.a, value),
            *final(self) == old(self).with_flags(final(self).registers.f),
    {
        let new_value = self.registers.a & value;
        self.registers.f.zero = new_value == 0;
        self.registers.f.substraction = false;
        self.registers.f.half_carry = true;
        self.registers.f.carry = false;
        new_value
    }

    pub(crate) fn xor(&mut self, value: u8) -> (new_value: u8)
        ensures
            (new_value, final(self).registers.f) == xor_spec(old(self).registers.a, value),
            *final(self) == old(self).with_flags(final(self).registers.f),
    {
        let new_value = self.registers.a ^ value;
        self.registers.f.zero = new_value == 0;
        self.registers.f.substraction = false;
        self.registers.f.half_carry = false;
        self.registers.f.carry = false;
        new_value
    }

    pub(crate) fn or(&mut self, value: u8) -> (new_value: u8)
        ensures
            (new_value, final(self).registers.f) == or_spec(old(self).registers.a, value),
            *final(self) == old(self).with_flags(final(self).registers.f),
    {
        let new_value = self.registers.a | value;
        self.registers.f.zero = new_value == 0;
        self.registers.f.substraction = false;
        self.registers.f.half_carry = false;
        self.registers.f.carry = false;
        new_value
    }

    pub(crate) fn cp(&mut self, value: u8) -> (new_value: u8)
        ensures
            (new_value, final(self).registers.f) == cp_spec(old(self).registers.a, value),
            *final(self) == old(self).with_flags(final(self).registers.f),
    {
        let new_value = self.registers.a;
        self.registers.f.zero = self.registers.a == value;
        self.registers.f.substraction = true;
        self.registers.f.half_carry = self.registers.a % 16 < value % 16;
        self.registers.f.carry = self.registers.a < value;
        new_value
    }

    pub(crate) fn inc(&mut self, value: u8) -> (new_value: u8)
        ensures
            (new_value, final(self).registers.f) == inc_spec(old(self).registers.f, value),
            *final(self) == old(self).with_flags(final(self).registers.f),
    {
        let new_value = value.wrapping_add(1);
        self.registers.f.zero = new_value == 0;
        self.registers.f.substraction = false;
        self.registers.f.half_carry = value % 16 == 15;
        new_value
    }

    pub(crate) fn inc16(&self, value: u16) -> (new_value: u16)
        ensures
            new_value == (value + 1) % 0x10000,
    {
        value.wrapping_add(1)
    }

    pub(crate) fn dec(&mut self, value: u8) -> (new_value: u8)
        ensures
            (new_value, final(self).registers.f) == dec_spec(old(self).registers.f, value),
            *final(self) == old(self).with_flags(final(self).registers.f),
    {
        let new_value = value.wrapping_sub(1);
        self.registers.f.zero = new_value == 0;
        self.registers.f.substraction = true;
        self.registers.f.half_carry = value % 16 == 0;
        new_value
    }

    pub(crate) fn dec16(&self, value: u16) -> (new_value: u16)
        ensures
            new_value == (value - 1) % 0x10000,
    {
        value.wrapping_sub(1)
    }

    pub(crate) fn rotate(&mut self, value: u8, direction: Direction, zero: bool) -> (output_value: u8)
        ensures
            (output_value, final(self).registers.f) == rotate_spec(old(self).registers.f, value, direction, zero),
            *final(self) == old(self).with_flags(final(self).registers.f),
    {
        match direction {
            Direction::LEFT => {
                let last_bit = value / 128;
                let output_value = (value % 128) * 2 + last_bit;
                self.registers.f.zero = zero && output_value == 0;
                self.registers.f.carry = last_bit != 0;
                output_value
            },
            Direction::RIGHT => {
                let first_bit = value % 2;
                let output_value = value / 2 + first_bit * 128;
                self.registers.f.zero = zero && output_value == 0;
                self.registers.f.carry = first_bit != 0;
                output_value
            },
        }
    }

    pub(crate) fn rotate_through_carry(&mut self, value: u8, direction: Direction, zero: bool) -> (output_value: u8)
        ensures
            (output_value, final(self).registers.f) == rotate_through_carry_spec(old(self).registers.f, value, direction, zero),
            *final(self) == old(self).with_flags(final(self).registers.f),
    {
        let carry: u8 = if self.registers.f.carry {
            1
        } else {
            0
        };
        match direction {
            Direction::LEFT => {
                let output_value = (value % 128) * 2 + carry;
                self.registers.f.zero = zero && output_value == 0;
                self.registers.f.carry = value >= 128;
                output_value
            },
            Direction::RIGHT => {
                let output_value = value / 2 + carry * 128;
                self.registers.f.zero = zero && output_value == 0;
                self.registers.f.carry = value % 2 == 1;
                output_value
            },
        }
    }

    pub(crate) fn shift_left_and_reset(&mut self, value: u8) -> (output_value: u8)
        ensures
            (output_value, final(self).registers.f) == shift_left_and_reset_spec(value),
            *final(self) == old(self).with_flags(final(self).registers.f),
    {
        let output_value = (value % 128) * 2;
        self.registers.f = FlagRegister {
            zero: output_value == 0,
            substraction: false,
            half_carry: false,
            carry: value >= 128,
        };
        output_value
    }

    pub(crate) fn shift_right_and_reset(&mut self, value: u8) -> (output_value: u8)
        ensures
            (output_value, final(self).registers.f) == shift_right_and_reset_spec(value),
            *final(self) == old(self).with_flags(final(self).registers.f),
    {
        let output_value = value / 2;
        self.registers.f = FlagRegister {
            zero: output_value == 0,
            substraction: false,
            half_carry: false,
            carry: value % 2 == 1,
        };
        output_value
    }

    pub(crate) fn shift_right(&mut self, value: u8) -> (output_value: u8)
        ensures
            (output_value, final(self).registers.f) == shift_right_spec(value),
            *final(self) == old(self).with_flags(final(self).registers.f),
    {
        let output_value = value / 2 + (value / 128) * 128;
        self.registers.f = FlagRegister {
            zero: output_value == 0,
            substraction: false,
            half_carry: false,
            carry: value % 2 == 1,
        };
        output_value
    }

    pub(crate) fn swap(&mut self, value: u8) -> (output_value: u8)
        ensures
            (output_value, final(self).registers.f) == swap_spec(value),
            *final(self) == old(self).with_flags(final(self).registers.f),
    {
        let output_value = (value % 16) * 16 + value / 16;
        self.registers.f = FlagRegister {
            zero: output_value == 0,
            substraction: false,
            half_carry: false,
            carry: false,
        };
        output_value
    }

    /// Tests bit `bit` of value; returns the address of the next instruction.
    pub(crate) fn complement_bit(&mut self, bit: u8, value: u8) -> (next_pc: u16)
        requires
            bit < 8,
        ensures
            final(self).registers.f == complement_bit_spec(old(self).registers.f, bit, value),
            *final(self) == old(self).with_flags(final(self).registers.f),
            next_pc == (old(self).pc + 2) % 0x10000,
    {
        let bit_value = (value >> bit) & 0x01;
        self.registers.f.substraction = false;
        self.registers.f.half_carry = true;
        self.registers.f.zero = bit_value == 0;
        self.pc.wrapping_add(2)
    }

    pub(crate) fn set_bit(&self, enable: bool, bit: u8, value: u8) -> (new_value: u8)
        requires
            bit < 8,
        ensures
            new_value == set_bit_spec(enable, bit, value),
    {
        if enable {
            value | (1u8 << bit)
        } else {
            value & !(1u8 << bit)
        }
    }

    /// CPL: A is complemented, N and H are set.
    pub(crate) fn flip_register_a(&mut self) -> (next_pc: u16)
        ensures
            *final(self) == (Cpu {
                registers: Registers {
                    a: !old(self).registers.a,
                    f: FlagRegister { substraction: true, half_carry: true, ..old(self).registers.f },
                    ..old(self).registers
                },
                ..*old(self)
            }),
            next_pc == (old(self).pc + 1) % 0x10000,
    {
        self.registers.a = !self.registers.a;
        self.registers.f.substraction = true;
        self.registers.f.half_carry = true;
        self.pc.wrapping_add(1)
    }

    /// SCF / CCF: C is set or complemented, Z and H are cleared.
    pub(crate) fn set_carry(&mut self, operation: CarryOp) -> (next_pc: u16)
        ensures
            *final(self) == old(self).with_flags(FlagRegister {
                zero: false,
                half_carry: false,
                carry: match operation {
                    CarryOp::SET => true,
                    CarryOp::FLIP => !old(self).registers.f.carry,
                },
                ..old(self).registers.f
            }),
            next_pc == (old(self).pc + 1) % 0x10000,
    {
        match operation {
            CarryOp::SET => self.registers.f.carry = true,
            CarryOp::FLIP => self.registers.f.carry = !self.registers.f.carry,
        }
        self.registers.f.zero = false;
        self.registers.f.half_carry = false;
        self.pc.wrapping_add(1)
    }

    /// DAA: A corrected to packed BCD; Z from the result, H cleared, N kept.
    pub(crate) fn decimal_adjust(&mut self) -> (next_pc: u16)
        ensures
            *final(self) == (Cpu {
                registers: Registers {
                    a: decimal_adjust_spec(old(self).registers.a, old(self).registers.f).0,
                    f: FlagRegister {
                        zero: decimal_adjust_spec(old(self).registers.a, old(self).registers.f).0 == 0,
                        half_carry: false,
                        carry: decimal_adjust_spec(old(self).registers.a, old(self).registers.f).1,
                        ..old(self).registers.f
                    },
                    ..old(self).registers
                },
                ..*old(self)
            }),
            next_pc == (old(self).pc + 1) % 0x10000,
    {
        let flags = self.registers.f;
        let a = self.registers.a;
        let mut carry = false;
        let result = if !flags.substraction {
            let mut result = a;
            if flags.carry || a > 0x99 {
                carry = true;
                result = result.wrapping_add(0x60);
            }
            if flags.half_carry || a % 16 > 0x09 {
                result = result.wrapping_add(0x06);
            }
            result
        } else if flags.carry {
            carry = true;
            let add: u8 = if flags.half_carry {
                0x9A
            } else {
                0xA0
            };
            a.wrapping_add(add)
        } else if flags.half_carry {
            a.wrapping_add(0xFA)
        } else {
            a
        };
        self.registers.a = result;
        self.registers.f.zero = result == 0;
        self.registers.f.carry = carry;
        self.registers.f.half_carry = false;
        self.pc.wrapping_add(1)
    }
}

} // verus!
