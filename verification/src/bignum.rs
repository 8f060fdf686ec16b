//! Integers of arbitrary size, held as bytes in two's complement, and the
//! arithmetic on them.

use num::bigint::BigInt;
use num::ToPrimitive;
use num::Zero;
use vstd::arithmetic::power2::pow2;
use vstd::prelude::*;

verus! {

/// The integer that bytes in two's complement stand for, least significant
/// byte first. No bytes stand for zero.
pub open spec fn signed_le(bytes: Seq<u8>) -> int
    decreases bytes.len(),
{
    if bytes.len() == 0 {
        0
    } else if bytes.len() == 1 {
        if bytes[0] >= 128 {
            bytes[0] as int - 256
        } else {
            bytes[0] as int
        }
    } else {
        bytes[0] as int + 256 * signed_le(bytes.drop_first())
    }
}

/// The natural number that bytes stand for, least significant byte first.
pub open spec fn unsigned_le(bytes: Seq<u8>) -> nat
    decreases bytes.len(),
{
    if bytes.len() == 0 {
        0
    } else {
        bytes[0] as nat + 256 * unsigned_le(bytes.drop_first())
    }
}

/// The absolute value of an integer.
pub open spec fn magnitude(a: int) -> nat {
    if a < 0 {
        (-a) as nat
    } else {
        a as nat
    }
}

/// The quotient of a division that rounds toward zero.
pub open spec fn trunc_div(a: int, b: int) -> int
    recommends
        b != 0,
{
    if a >= 0 {
        if b > 0 {
            a / b
        } else {
            -(a / (-b))
        }
    } else {
        if b > 0 {
            -((-a) / b)
        } else {
            (-a) / (-b)
        }
    }
}

/// The remainder of a division that rounds toward zero: it has the sign of
/// the dividend, and its absolute value is the remainder of the absolute
/// values.
pub open spec fn trunc_rem(a: int, b: int) -> int
    recommends
        b != 0,
{
    if a >= 0 {
        a % (magnitude(b) as int)
    } else {
        -((-a) % (magnitude(b) as int))
    }
}

/// A bitwise operation on two bits.
#[derive(Clone, Copy, Debug, PartialEq, Eq, Structural)]
pub enum BinaryBitwiseOp {
    And,
    Or,
    Xor,
}

/// What a bitwise operation gives on two bits.
pub open spec fn bit_op(op: BinaryBitwiseOp, a: bool, b: bool) -> bool {
    match op {
        BinaryBitwiseOp::And => a && b,
        BinaryBitwiseOp::Or => a || b,
        BinaryBitwiseOp::Xor => a != b,
    }
}

/// A bitwise operation on two integers in two's complement of unbounded
/// width: a negative integer has ones in all high positions.
pub open spec fn bitwise(op: BinaryBitwiseOp, a: int, b: int) -> int
    decreases magnitude(a) + magnitude(b),
{
    if (a == 0 || a == -1) && (b == 0 || b == -1) {
        if bit_op(op, a == -1, b == -1) {
            -1
        } else {
            0
        }
    } else {
        2 * bitwise(op, a / 2, b / 2) + if bit_op(op, a % 2 == 1, b % 2 == 1) {
            1int
        } else {
            0int
        }
    }
}

/// The number of ones in the binary form of a natural number.
pub open spec fn ones(n: nat) -> nat
    decreases n,
{
    if n == 0 {
        0
    } else {
        (n % 2) + ones(n / 2)
    }
}

/// The character of a decimal digit.
pub open spec fn digit_char(d: nat) -> char {
    if d == 0 {
        '0'
    } else if d == 1 {
        '1'
    } else if d == 2 {
        '2'
    } else if d == 3 {
        '3'
    } else if d == 4 {
        '4'
    } else if d == 5 {
        '5'
    } else if d == 6 {
        '6'
    } else if d == 7 {
        '7'
    } else if d == 8 {
        '8'
    } else {
        '9'
    }
}

/// A natural number in decimal digits, without leading zeros.
pub open spec fn decimal(n: nat) -> Seq<char>
    decreases n,
{
    if n < 10 {
        seq![digit_char(n)]
    } else {
        decimal(n / 10).push(digit_char(n % 10))
    }
}

/// An integer in decimal digits, with a minus sign before a negative one.
pub open spec fn decimal_text(a: int) -> Seq<char> {
    if a < 0 {
        seq!['-'] + decimal((-a) as nat)
    } else {
        decimal(a as nat)
    }
}

/// An integer of arbitrary size. Its bytes are always those that
/// `BigInt::to_signed_bytes_le` gives for it.
#[derive(Debug, Clone, PartialEq, Eq, Hash)]
pub struct BigNum {
    bytes: Vec<u8>,
}

impl View for BigNum {
    type V = int;

    closed spec fn view(&self) -> int {
        signed_le(self.bytes@)
    }
}

/// Calls `BigInt::from_signed_bytes_le`, which gives the integer that the
/// bytes stand for in two's complement, least significant byte first.
#[verifier::external_body]
fn big_from_bytes(bytes: &Vec<u8>) -> (r: BigNum)
    ensures
        r@ == signed_le(bytes@),
{
    BigNum { bytes: BigInt::from_signed_bytes_le(bytes).to_signed_bytes_le() }
}

/// Calls `BigInt::from` on an `i64`, which gives the integer of that value.
#[verifier::external_body]
fn big_from_i64(v: i64) -> (r: BigNum)
    ensures
        r@ == v,
{
    BigNum { bytes: BigInt::from(v).to_signed_bytes_le() }
}

/// Calls `BigInt::from` on a `usize`, which gives the integer of that value.
#[verifier::external_body]
fn big_from_usize(v: usize) -> (r: BigNum)
    ensures
        r@ == v,
{
    BigNum { bytes: BigInt::from(v).to_signed_bytes_le() }
}

/// Calls `ToPrimitive::to_isize` on a `BigInt`, which gives the value if it
/// fits the type and nothing otherwise.
#[verifier::external_body]
fn big_to_isize(a: &BigNum) -> (r: Option<isize>)
    ensures
        r is Some <==> isize::MIN <= a@ <= isize::MAX,
        r is Some ==> r->0 == a@,
{
    BigInt::from_signed_bytes_le(&a.bytes).to_isize()
}

/// Calls `Zero::is_zero` on a `BigInt`.
#[verifier::external_body]
fn big_is_zero(a: &BigNum) -> (r: bool)
    ensures
        r == (a@ == 0),
{
    BigInt::from_signed_bytes_le(&a.bytes).is_zero()
}

/// Calls `+` on two `BigInt`s, which adds without loss.
#[verifier::external_body]
fn big_add(a: &BigNum, b: &BigNum) -> (r: BigNum)
    ensures
        r@ == a@ + b@,
{
    let x = BigInt::from_signed_bytes_le(&a.bytes);
    let y = BigInt::from_signed_bytes_le(&b.bytes);
    BigNum { bytes: (x + y).to_signed_bytes_le() }
}

/// Calls `-` on two `BigInt`s, which subtracts without loss.
#[verifier::external_body]
fn big_sub(a: &BigNum, b: &BigNum) -> (r: BigNum)
    ensures
        r@ == a@ - b@,
{
    let x = BigInt::from_signed_bytes_le(&a.bytes);
    let y = BigInt::from_signed_bytes_le(&b.bytes);
    BigNum { bytes: (x - y).to_signed_bytes_le() }
}

/// Calls `*` on two `BigInt`s, which multiplies without loss.
#[verifier::external_body]
fn big_mul(a: &BigNum, b: &BigNum) -> (r: BigNum)
    ensures
        r@ == a@ * b@,
{
    let x = BigInt::from_signed_bytes_le(&a.bytes);
    let y = BigInt::from_signed_bytes_le(&b.bytes);
    BigNum { bytes: (x * y).to_signed_bytes_le() }
}

/// Calls `/` on two `BigInt`s, which divides rounding toward zero and
/// panics on a zero divisor.
#[verifier::external_body]
fn big_div(a: &BigNum, b: &BigNum) -> (r: BigNum)
    requires
        b@ != 0,
    ensures
        r@ == trunc_div(a@, b@),
{
    let x = BigInt::from_signed_bytes_le(&a.bytes);
    let y = BigInt::from_signed_bytes_le(&b.bytes);
    BigNum { bytes: (x / y).to_signed_bytes_le() }
}

/// Calls `%` on two `BigInt`s, which gives the remainder of the division
/// that rounds toward zero and panics on a zero divisor.
#[verifier::external_body]
fn big_rem(a: &BigNum, b: &BigNum) -> (r: BigNum)
    requires
        b@ != 0,
    ensures
        r@ == trunc_rem(a@, b@),
{
    let x = BigInt::from_signed_bytes_le(&a.bytes);
    let y = BigInt::from_signed_bytes_le(&b.bytes);
    BigNum { bytes: (x % y).to_signed_bytes_le() }
}

/// Calls unary `-` on a `BigInt`.
#[verifier::external_body]
fn big_neg(a: &BigNum) -> (r: BigNum)
    ensures
        r@ == -a@,
{
    BigNum { bytes: (-BigInt::from_signed_bytes_le(&a.bytes)).to_signed_bytes_le() }
}

/// Calls `<<` on a `BigInt` and a `usize`, which multiplies by a power of
/// two.
#[verifier::external_body]
fn big_shl(a: &BigNum, n: usize) -> (r: BigNum)
    ensures
        r@ == a@ * pow2(n as nat),
{
    BigNum { bytes: (BigInt::from_signed_bytes_le(&a.bytes) << n).to_signed_bytes_le() }
}

/// Calls `>>` on a `BigInt` and a `usize`, which divides by a power of two
/// and rounds toward negative infinity.
#[verifier::external_body]
fn big_shr(a: &BigNum, n: usize) -> (r: BigNum)
    ensures
        r@ == a@ / (pow2(n as nat) as int),
{
    BigNum { bytes: (BigInt::from_signed_bytes_le(&a.bytes) >> n).to_signed_bytes_le() }
}

/// Calls `&` on two `BigInt`s, which works on their two's complement forms.
#[verifier::external_body]
fn big_and(a: &BigNum, b: &BigNum) -> (r: BigNum)
    ensures
        r@ == bitwise(BinaryBitwiseOp::And, a@, b@),
{
    let x = BigInt::from_signed_bytes_le(&a.bytes);
    let y = BigInt::from_signed_bytes_le(&b.bytes);
    BigNum { bytes: (x & y).to_signed_bytes_le() }
}

/// Calls `|` on two `BigInt`s, which works on their two's complement forms.
#[verifier::external_body]
fn big_or(a: &BigNum, b: &BigNum) -> (r: BigNum)
    ensures
        r@ == bitwise(BinaryBitwiseOp::Or, a@, b@),
{
    let x = BigInt::from_signed_bytes_le(&a.bytes);
    let y = BigInt::from_signed_bytes_le(&b.bytes);
    BigNum { bytes: (x | y).to_signed_bytes_le() }
}

/// Calls `^` on two `BigInt`s, which works on their two's complement forms.
#[verifier::external_body]
fn big_xor(a: &BigNum, b: &BigNum) -> (r: BigNum)
    ensures
        r@ == bitwise(BinaryBitwiseOp::Xor, a@, b@),
{
    let x = BigInt::from_signed_bytes_le(&a.bytes);
    let y = BigInt::from_signed_bytes_le(&b.bytes);
    BigNum { bytes: (x ^ y).to_signed_bytes_le() }
}

/// Calls `<` on two `BigInt`s.
#[verifier::external_body]
fn big_lt(a: &BigNum, b: &BigNum) -> (r: bool)
    ensures
        r == (a@ < b@),
{
    BigInt::from_signed_bytes_le(&a.bytes) < BigInt::from_signed_bytes_le(&b.bytes)
}

/// Calls `==` on two `BigInt`s.
#[verifier::external_body]
fn big_eq(a: &BigNum, b: &BigNum) -> (r: bool)
    ensures
        r == (a@ == b@),
{
    BigInt::from_signed_bytes_le(&a.bytes) == BigInt::from_signed_bytes_le(&b.bytes)
}

/// Calls `BigInt::to_bytes_le` and keeps the bytes, which stand for the
/// absolute value, least significant byte first.
#[verifier::external_body]
fn big_magnitude_bytes(a: &BigNum) -> (r: Vec<u8>)
    ensures
        unsigned_le(r@) == magnitude(a@),
{
    BigInt::from_signed_bytes_le(&a.bytes).to_bytes_le().1
}

/// Calls `to_string` on a `BigInt`, which writes it in decimal digits, with
/// a minus sign before a negative number.
#[verifier::external_body]
fn big_to_text(a: &BigNum) -> (r: Vec<char>)
    ensures
        r@ == decimal_text(a@),
{
    BigInt::from_signed_bytes_le(&a.bytes).to_string().chars().collect()
}

/// Calls `u8::count_ones`, which counts the ones in the binary form.
#[verifier::external_body]
fn byte_ones(b: u8) -> (r: u32)
    ensures
        r == ones(b as nat),
{
    b.count_ones()
}

/// The number of ones in the binary form of a byte.
pub fn count_ones(b: u8) -> (r: u32)
    ensures
        r == ones(b as nat),
{
    byte_ones(b)
}

impl BigNum {
    /// The integer that the bytes stand for in two's complement, least
    /// significant byte first.
    pub fn from_signed_bytes_le(bytes: Vec<u8>) -> (r: BigNum)
        ensures
            r@ == signed_le(bytes@),
    {
        big_from_bytes(&bytes)
    }

    /// Bytes that stand for this integer in two's complement, least
    /// significant byte first.
    pub fn to_signed_bytes_le(&self) -> (r: Vec<u8>)
        ensures
            signed_le(r@) == self@,
    {
        let mut out: Vec<u8> = Vec::new();
        let mut i: usize = 0;
        while i < self.bytes.len()
            invariant
                i <= self.bytes.len(),
                out@ == self.bytes@.subrange(0, i as int),
            decreases self.bytes.len() - i,
        {
            out.push(self.bytes[i]);
            i += 1;
        }
        proof {
            assert(self.bytes@.subrange(0, self.bytes.len() as int) == self.bytes@);
        }
        out
    }

    /// A copy of this integer.
    pub fn duplicate(&self) -> (r: BigNum)
        ensures
            r@ == self@,
    {
        BigNum { bytes: self.to_signed_bytes_le() }
    }

    /// The integer of a machine value.
    pub fn from_i64(v: i64) -> (r: BigNum)
        ensures
            r@ == v,
    {
        big_from_i64(v)
    }

    /// The integer of a machine value.
    pub fn from_usize(v: usize) -> (r: BigNum)
        ensures
            r@ == v,
    {
        big_from_usize(v)
    }

    /// Zero.
    pub fn zero() -> (r: BigNum)
        ensures
            r@ == 0,
    {
        big_from_usize(0)
    }

    /// The value as a machine integer, if it fits.
    pub fn to_isize(&self) -> (r: Option<isize>)
        ensures
            r is Some <==> isize::MIN <= self@ <= isize::MAX,
            r is Some ==> r->0 == self@,
    {
        big_to_isize(self)
    }

    /// Whether this is zero.
    pub fn is_zero(&self) -> (r: bool)
        ensures
            r == (self@ == 0),
    {
        big_is_zero(self)
    }

    /// The sum.
    pub fn plus(&self, other: &BigNum) -> (r: BigNum)
        ensures
            r@ == self@ + other@,
    {
        big_add(self, other)
    }

    /// The difference.
    pub fn minus(&self, other: &BigNum) -> (r: BigNum)
        ensures
            r@ == self@ - other@,
    {
        big_sub(self, other)
    }

    /// The product.
    pub fn times(&self, other: &BigNum) -> (r: BigNum)
        ensures
            r@ == self@ * other@,
    {
        big_mul(self, other)
    }

    /// The quotient, rounded toward zero, or nothing for a zero divisor.
    pub fn checked_div(&self, other: &BigNum) -> (r: Option<BigNum>)
        ensures
            r is Some <==> other@ != 0,
            r is Some ==> r->0@ == trunc_div(self@, other@),
    {
        if big_is_zero(other) {
            None
        } else {
            Some(big_div(self, other))
        }
    }

    /// The remainder of the division that rounds toward zero, or nothing
    /// for a zero divisor.
    pub fn checked_rem(&self, other: &BigNum) -> (r: Option<BigNum>)
        ensures
            r is Some <==> other@ != 0,
            r is Some ==> r->0@ == trunc_rem(self@, other@),
    {
        if big_is_zero(other) {
            None
        } else {
            Some(big_rem(self, other))
        }
    }

    /// The remainder of the division by a power of two that rounds toward
    /// zero.
    pub fn rem_pow2(&self, width: usize) -> (r: BigNum)
        ensures
            r@ == trunc_rem(self@, pow2(width as nat) as int),
    {
        let modulus = big_shl(&big_from_usize(1), width);
        proof {
            vstd::arithmetic::power2::lemma_pow2_pos(width as nat);
        }
        big_rem(self, &modulus)
    }

    /// The negation.
    pub fn negated(&self) -> (r: BigNum)
        ensures
            r@ == -self@,
    {
        big_neg(self)
    }

    /// This integer times two to the power `n`.
    pub fn shifted_left(&self, n: usize) -> (r: BigNum)
        ensures
            r@ == self@ * pow2(n as nat),
    {
        big_shl(self, n)
    }

    /// This integer divided by two to the power `n`, rounded toward
    /// negative infinity.
    pub fn shifted_right(&self, n: usize) -> (r: BigNum)
        ensures
            r@ == self@ / (pow2(n as nat) as int),
    {
        big_shr(self, n)
    }

    /// A bitwise operation with another integer.
    pub fn bitwise_with(&self, op: BinaryBitwiseOp, other: &BigNum) -> (r: BigNum)
        ensures
            r@ == bitwise(op, self@, other@),
    {
        match op {
            BinaryBitwiseOp::And => big_and(self, other),
            BinaryBitwiseOp::Or => big_or(self, other),
            BinaryBitwiseOp::Xor => big_xor(self, other),
        }
    }

    /// Whether this integer is less than another.
    pub fn less_than(&self, other: &BigNum) -> (r: bool)
        ensures
            r == (self@ < other@),
    {
        big_lt(self, other)
    }

    /// The bytes of the absolute value, least significant byte first.
    pub fn magnitude_bytes(&self) -> (r: Vec<u8>)
        ensures
            unsigned_le(r@) == magnitude(self@),
    {
        big_magnitude_bytes(self)
    }

    /// This integer in decimal digits.
    pub fn to_text(&self) -> (r: Vec<char>)
        ensures
            r@ == decimal_text(self@),
    {
        big_to_text(self)
    }

    /// Whether this integer equals another.
    pub fn equals(&self, other: &BigNum) -> (r: bool)
        ensures
            r == (self@ == other@),
    {
        big_eq(self, other)
    }
}

} // verus!
