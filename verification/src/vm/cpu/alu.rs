//! The arithmetic unit: pure functions on octets and words.

use vstd::prelude::*;

verus! {

/// What the adder reports of one addition.
#[derive(Copy, Debug)]
pub struct AdderResult<T: Copy + Clone> {
    /// The sum, reduced to the operand width.
    pub value: T,
    /// Carry out of the low nibble (bit 3) of an octet, or out of bit 11 of a word.
    pub half_carry: bool,
    /// Carry out of the top bit.
    pub carry: bool,
    /// The sum of the operands, read as two's-complement numbers, does not fit.
    pub overflow: bool,
}

impl<T: Copy + Clone> Clone for AdderResult<T> {
    fn clone(&self) -> (copy: Self)
        ensures
            copy == *self,
    {
        *self
    }
}

/// An octet read as a two's-complement number.
pub open spec fn signed_octet(a: u8) -> int {
    if a < 0x80 {
        a as int
    } else {
        a - 0x100
    }
}

/// A word read as a two's-complement number.
pub open spec fn signed_word(a: u16) -> int {
    if a < 0x8000 {
        a as int
    } else {
        a - 0x1_0000
    }
}

/// The (high, low) octets of a word.
pub open spec fn octets_of(value: u16) -> (u8, u8) {
    ((value / 0x100) as u8, (value % 0x100) as u8)
}

/// The word made of a high and a low octet.
pub open spec fn word_of(value: (u8, u8)) -> u16 {
    (value.0 * 0x100 + value.1) as u16
}

/// The two's complement of an octet: the octet that adds up with it to zero.
pub open spec fn negated_octet(value: u8) -> u8 {
    ((0x100 - value) % 0x100) as u8
}

/// The two's complement of a word.
pub open spec fn negated_word(value: u16) -> u16 {
    ((0x1_0000 - value) % 0x1_0000) as u16
}

/// The octet with every bit inverted.
pub open spec fn complemented(value: u8) -> u8 {
    (0xFF - value) as u8
}

/// An octet widened to a word that reads as the same two's-complement number.
pub open spec fn sign_extended(value: u8) -> u16 {
    if value > 0x7F {
        (0xFF00 + value) as u16
    } else {
        value as u16
    }
}

/// The number of set bits of an octet.
pub open spec fn popcount(value: u8) -> nat
    decreases value,
{
    if value == 0 {
        0
    } else {
        (value % 2) as nat + popcount(value / 2)
    }
}

/// Whether an octet has an even number of set bits.
pub open spec fn even_parity(value: u8) -> bool {
    popcount(value) % 2 == 0
}

/// The sum of two octets with the three signals of the adder.
pub open spec fn sum_octets(a: u8, b: u8) -> AdderResult<u8> {
    AdderResult {
        value: ((a + b) % 0x100) as u8,
        half_carry: a % 0x10 + b % 0x10 > 0x0F,
        carry: a + b > 0xFF,
        overflow: !(-0x80 <= signed_octet(a) + signed_octet(b) <= 0x7F),
    }
}

/// The sum of two words with the three signals of the adder.
pub open spec fn sum_words(a: u16, b: u16) -> AdderResult<u16> {
    AdderResult {
        value: ((a + b) % 0x1_0000) as u16,
        half_carry: a % 0x1000 + b % 0x1000 > 0x0FFF,
        carry: a + b > 0xFFFF,
        overflow: !(-0x8000 <= signed_word(a) + signed_word(b) <= 0x7FFF),
    }
}

/// `num::one` at `u8`: the multiplicative identity of the octets, which is 1.
#[verifier::external_body]
fn one_octet() -> (r: u8)
    ensures
        r == 1,
{
    num::one()
}

/// `num::zero` at `u8`: the additive identity of the octets, which is 0.
#[verifier::external_body]
fn zero_octet() -> (r: u8)
    ensures
        r == 0,
{
    num::zero()
}

/// `num::one` at `u16`: the multiplicative identity of the words, which is 1.
#[verifier::external_body]
fn one_word() -> (r: u16)
    ensures
        r == 1,
{
    num::one()
}

/// Masking and shifting a word splits it like division by 256.
proof fn lemma_octet_masks(value: u16)
    by (bit_vector)
    ensures
        (value & 0xFF00) >> 8 == value / 0x100,
        value & 0xFF == value % 0x100,
{
}

/// Shifting the high octet up and joining the low one in is 256 times the
/// high octet plus the low one.
proof fn lemma_word_join(high: u8, low: u8)
    by (bit_vector)
    ensures
        ((high as u16) << 8) | (low as u16) == (high as u16) * 0x100 + (low as u16),
{
}

/// Inverting every bit subtracts from the value with all bits set.
proof fn lemma_complement(value: u8, word: u16)
    by (bit_vector)
    ensures
        !value == 0xFF - value,
        !word == 0xFFFF - word,
{
}

/// The low nibble of an octet is its remainder modulo 16, the high nibble
/// its quotient.
pub proof fn lemma_nibbles(a: u8)
    by (bit_vector)
    ensures
        a & 0x0F == a % 0x10,
        a >> 4 == a / 0x10,
{
}

/// Splits a word into its (high, low) octets.
pub fn get_octets(value: u16) -> (octets: (u8, u8))
    ensures
        octets == octets_of(value),
{
    proof {
        lemma_octet_masks(value);
    }
    let high: u8 = ((value & 0xFF00) >> 8) as u8;
    let low: u8 = (value & 0xFF) as u8;
    (high, low)
}

/// Joins a (high, low) pair of octets into a word.
pub fn get_word(value: (u8, u8)) -> (word: u16)
    ensures
        word == word_of(value),
{
    let (high, low) = value;
    proof {
        lemma_word_join(high, low);
    }
    ((high as u16) << 8) | low as u16
}

/// The octet 1 for `true` and 0 for `false`.
pub fn get_bit(value: bool) -> (bit: u8)
    ensures
        bit == if value { 1u8 } else { 0u8 },
{
    if value {
        one_octet()
    } else {
        zero_octet()
    }
}

/// Inverts every bit of an octet.
pub fn complement(value: u8) -> (inverted: u8)
    ensures
        inverted == complemented(value),
{
    proof {
        lemma_complement(value, 0);
    }
    !value
}

/// The two's complement of an octet.
pub fn negate(value: u8) -> (negated: u8)
    ensures
        negated == negated_octet(value),
{
    proof {
        lemma_complement(value, 0);
    }
    (!value).wrapping_add(one_octet())
}

/// The two's complement of a word.
pub fn negate_word(value: u16) -> (negated: u16)
    ensures
        negated == negated_word(value),
{
    proof {
        lemma_complement(0, value);
    }
    (!value).wrapping_add(one_word())
}

/// Widens an octet to a word, copying bit 7 into the top eight bits.
pub fn sign_extend(value: u8) -> (word: u16)
    ensures
        word == sign_extended(value),
        signed_word(word) == signed_octet(value),
{
    if value > 0x7F {
        negate_word(negate(value) as u16)
    } else {
        value as u16
    }
}

/// Whether an octet has an even number of set bits.
pub fn parity(value: u8) -> (even: bool)
    ensures
        even <==> popcount(value) % 2 == 0,
{
    let mut rest: u8 = value;
    let mut even: bool = true;
    while rest != 0
        invariant
            even_parity(value) == (even == even_parity(rest)),
        decreases rest,
    {
        if rest % 2 == 1 {
            even = !even;
        }
        rest = rest / 2;
    }
    even
}

/// The nibble-wise adder computes the sum modulo 256 and its two carries.
proof fn lemma_nibble_adder(a: u8, b: u8)
    by (bit_vector)
    ensures
        ({
            let low_sum = ((a & 0x0F) + (b & 0x0F)) as u8;
            let high_sum = ((a >> 4) + (b >> 4)) as u8;
            let half: u8 = if low_sum > 0x0F { 1 } else { 0 };
            let high_next = ((high_sum & 0x0F) + half) as u8;
            let value = ((high_next & 0x0F) << 4) | (low_sum & 0x0F);
            &&& (a & 0x0F) + (b & 0x0F) <= 0x1E
            &&& (a >> 4) + (b >> 4) <= 0x1E
            &&& (high_sum & 0x0F) + half <= 0x10
            &&& low_sum > 0x0F <==> a % 0x10 + b % 0x10 > 0x0F
            &&& (high_sum > 0x0F || high_next > 0x0F) <==> a + b > 0xFF
            &&& a + b <= 0xFF ==> value == a + b
            &&& a + b > 0xFF ==> value == a + b - 0x100
        }),
{
}

/// Adds two octets nibble by nibble, as the hardware does. The value is the
/// sum modulo 256; `half_carry` is the carry out of bit 3, `carry` the carry
/// out of bit 7; `overflow` says that the operands have the same sign bit
/// and the value has the other one.
pub fn add_octets(a: u8, b: u8) -> (result: AdderResult<u8>)
    ensures
        result == sum_octets(a, b),
        result.value == (a + b) % 256,
        result.half_carry <==> a % 16 + b % 16 > 15,
        result.carry <==> a + b > 255,
        result.overflow <==> (a >= 0x80 <==> b >= 0x80) && !(a >= 0x80 <==> result.value >= 0x80),
{
    proof {
        lemma_nibble_adder(a, b);
    }
    let low_sum: u8 = (a & 0x0F) + (b & 0x0F);
    let half_carry: bool = low_sum > 0x0F;
    let high_sum: u8 = (a >> 4) + (b >> 4);
    let carry_temp_1: bool = high_sum > 0x0F;
    let high_next: u8 = (high_sum & 0x0F) + get_bit(half_carry);
    let carry_temp_2: bool = high_next > 0x0F;
    let carry: bool = carry_temp_1 || carry_temp_2;
    let result: u8 = ((high_next & 0x0F) << 4) | (low_sum & 0x0F);
    let overflow: bool = if a < 0x80 && b < 0x80 {
        result > 0x7F
    } else if a > 0x7F && b > 0x7F {
        result < 0x80
    } else {
        false
    };
    AdderResult { value: result, half_carry, carry, overflow }
}

/// The sum of two words, put together from the sums of their octets: the low
/// octets first, then the high octets, then the carry of the low ones into
/// the high sum.
proof fn lemma_octet_wise_adder(a: u16, b: u16)
    by (bit_vector)
    ensures
        ({
            let a_high = (a / 0x100) as u8;
            let a_low = (a % 0x100) as u8;
            let b_high = (b / 0x100) as u8;
            let b_low = (b % 0x100) as u8;
            let low = ((a_low + b_low) % 0x100) as u8;
            let carry_in: u8 = if a_low + b_low > 0xFF { 1 } else { 0 };
            let high_temp = ((a_high + b_high) % 0x100) as u8;
            let high = ((high_temp + carry_in) % 0x100) as u8;
            &&& a + b <= 0xFFFF ==> high * 0x100 + low == a + b
            &&& a + b > 0xFFFF ==> high * 0x100 + low == a + b - 0x1_0000
            &&& (high_temp % 0x10 + carry_in % 0x10 > 0x0F || a_high % 0x10 + b_high % 0x10 > 0x0F)
                <==> a % 0x1000 + b % 0x1000 > 0x0FFF
            &&& (high_temp + carry_in > 0xFF || a_high + b_high > 0xFF) <==> a + b > 0xFFFF
        }),
{
}

/// The word adder's value and carries, in terms of the octet adder's.
proof fn lemma_sum_words_by_octets(a: u16, b: u16)
    ensures
        ({
            let (a_high, a_low) = octets_of(a);
            let (b_high, b_low) = octets_of(b);
            let low = sum_octets(a_low, b_low);
            let high_temp = sum_octets(a_high, b_high);
            let carry_in: u8 = if low.carry { 1 } else { 0 };
            let high_sum = sum_octets(high_temp.value, carry_in);
            &&& sum_words(a, b).value == word_of((high_sum.value, low.value))
            &&& sum_words(a, b).half_carry == (high_sum.half_carry || high_temp.half_carry)
            &&& sum_words(a, b).carry == (high_sum.carry || high_temp.carry)
        }),
{
    lemma_octet_wise_adder(a, b);
    let a_high = (a / 0x100) as u8;
    let a_low = (a % 0x100) as u8;
    let b_high = (b / 0x100) as u8;
    let b_low = (b % 0x100) as u8;
    let low = ((a_low + b_low) % 0x100) as u8;
    let carry_in: u8 = if a_low + b_low > 0xFF { 1 } else { 0 };
    let high_temp = ((a_high + b_high) % 0x100) as u8;
    let high = ((high_temp + carry_in) % 0x100) as u8;
    assert(carry_in % 0x10 == carry_in);
    assert(sum_octets(a_low, b_low).value == low);
    assert(sum_octets(a_high, b_high).value == high_temp);
    assert(sum_octets(high_temp, carry_in).value == high);
    assert(word_of((high, low)) == high * 0x100 + low);
    if a + b <= 0xFFFF {
        assert((a + b) % 0x1_0000 == a + b);
    } else {
        assert((a + b) % 0x1_0000 == a + b - 0x1_0000);
    }
}

/// The word adder overflows exactly when both operands have the same sign
/// bit and the sum has the other one.
proof fn lemma_word_overflow(a: u16, b: u16)
    ensures
        sum_words(a, b).overflow == (if a < 0x8000 && b < 0x8000 {
            sum_words(a, b).value > 0x7FFF
        } else if a > 0x7FFF && b > 0x7FFF {
            sum_words(a, b).value < 0x8000
        } else {
            false
        }),
{
    if a + b <= 0xFFFF {
        assert((a + b) % 0x1_0000 == a + b);
    } else {
        assert((a + b) % 0x1_0000 == a + b - 0x1_0000);
    }
}

/// Adds two words octet by octet, the carry of the low octets going into the
/// high ones. The value is the sum modulo 65 536; `half_carry` is the carry
/// out of bit 11, `carry` the carry out of bit 15; `overflow` says that the
/// operands have the same sign bit and the value has the other one.
pub fn add_words(a: u16, b: u16) -> (result: AdderResult<u16>)
    ensures
        result == sum_words(a, b),
        result.value == (a + b) % 65536,
        result.half_carry <==> a % 4096 + b % 4096 > 4095,
        result.carry <==> a + b > 65535,
        result.overflow <==> (a >= 0x8000 <==> b >= 0x8000) && !(a >= 0x8000 <==> result.value
            >= 0x8000),
{
    let (a_high, a_low) = get_octets(a);
    let (b_high, b_low) = get_octets(b);
    let low = add_octets(a_low, b_low);
    let high_temp = add_octets(a_high, b_high);
    let high_sum = add_octets(high_temp.value, get_bit(low.carry));
    let half_carry: bool = high_sum.half_carry || high_temp.half_carry;
    let carry: bool = high_sum.carry || high_temp.carry;
    let result: u16 = get_word((high_sum.value, low.value));
    proof {
        lemma_sum_words_by_octets(a, b);
        lemma_word_overflow(a, b);
    }
    let overflow: bool = if a < 0x8000 && b < 0x8000 {
        result > 0x7FFF
    } else if a > 0x7FFF && b > 0x7FFF {
        result < 0x8000
    } else {
        false
    };
    AdderResult { value: result, half_carry, carry, overflow }
}

/// Adding one to an octet: the sum wraps at 0xFF, which alone carries; the
/// low nibble carries exactly when it is 0xF; and only 0x7F overflows.
pub proof fn lemma_increment_octet(a: u8)
    ensures
        sum_octets(a, 1).value == (a + 1) % 256,
        sum_octets(a, 1).carry <==> a == 0xFF,
        sum_octets(a, 1).half_carry <==> (a & 0x0F) == 0x0F,
        sum_octets(a, 1).overflow <==> a == 0x7F,
{
    lemma_nibbles(a);
}

/// Adding one to a word: the sum wraps at 0xFFFF, which alone carries; bit 11
/// carries exactly when the low twelve bits are all set; and only 0x7FFF
/// overflows.
pub proof fn lemma_increment_word(a: u16)
    ensures
        sum_words(a, 1).value == (a + 1) % 65536,
        sum_words(a, 1).carry <==> a == 0xFFFF,
        sum_words(a, 1).half_carry <==> (a & 0x0FFF) == 0x0FFF,
        sum_words(a, 1).overflow <==> a == 0x7FFF,
{
    assert(a & 0x0FFF == a % 0x1000) by (bit_vector);
}

/// The adder overflows exactly when both operands have the same sign bit and
/// the sum has the other one.
pub proof fn lemma_overflow_is_sign_change(a: u8, b: u8)
    ensures
        sum_octets(a, b).value == (a + b) % 256,
        sum_octets(a, b).overflow <==> (a >= 0x80 <==> b >= 0x80) && !(a >= 0x80 <==> sum_octets(
            a,
            b,
        ).value >= 0x80),
{
}

/// The same for words, with bit 15 as the sign.
pub proof fn lemma_word_overflow_is_sign_change(a: u16, b: u16)
    ensures
        sum_words(a, b).overflow <==> (a >= 0x8000 <==> b >= 0x8000) && !(a >= 0x8000
            <==> sum_words(a, b).value >= 0x8000),
{
}

/// Splitting a word and joining the octets again gives the word back, and
/// joining two octets and splitting the word gives the octets back.
pub proof fn lemma_octets_round_trip(high: u8, low: u8, word: u16)
    ensures
        octets_of(word_of((high, low))) == (high, low),
        word_of(octets_of(word)) == word,
{
}

/// Adding the two's complement subtracts: the sum of `a` and the negated
/// `b` is their difference modulo 256, or modulo 65 536 for words.
pub proof fn lemma_sum_with_negated(a: u8, b: u8, c: u16, d: u16)
    ensures
        sum_octets(a, negated_octet(b)).value == (a - b) % 0x100,
        sum_words(c, negated_word(d)).value == (c - d) % 0x1_0000,
{
}

/// Negating twice gives the value back, and a value and its negation add up
/// to zero.
pub proof fn lemma_negate_twice(value: u8, word: u16)
    ensures
        negated_octet(negated_octet(value)) == value,
        negated_word(negated_word(word)) == word,
        sum_octets(value, negated_octet(value)).value == 0,
        sum_words(word, negated_word(word)).value == 0,
{
}

} // verus!
