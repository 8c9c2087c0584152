//! A 256-bit unsigned integer held as four 64-bit words, with a `nat` view.
//!
//! Comparison and conversion are verified here. Multi-word arithmetic and the
//! decimal notation are delegated to `primitive_types::U256`; the functions
//! that make those calls carry the contracts that the rest of the crate
//! relies on.

use vstd::prelude::*;

verus! {

/// 2^64.
pub open spec fn pow64() -> nat {
    0x1_0000_0000_0000_0000
}

/// 2^128.
pub open spec fn pow128() -> nat {
    0x1_0000_0000_0000_0000_0000_0000_0000_0000nat
}

/// 2^192.
pub open spec fn pow192() -> nat {
    0x1_0000_0000_0000_0000_0000_0000_0000_0000_0000_0000_0000_0000nat
}

/// The greatest value of a `U256`: 2^256 - 1.
pub open spec fn u256_max() -> nat {
    0xffff_ffff_ffff_ffff_ffff_ffff_ffff_ffff_ffff_ffff_ffff_ffff_ffff_ffff_ffff_ffffnat
}

/// A 256-bit unsigned integer. The words are declared from the most
/// significant to the least, so that the derived ordering is the numeric one.
#[derive(Clone, Copy, Debug, PartialEq, Eq, PartialOrd, Ord, Hash, Structural)]
pub struct U256 {
    w3: u64,
    w2: u64,
    w1: u64,
    w0: u64,
}

impl View for U256 {
    type V = nat;

    closed spec fn view(&self) -> nat {
        self.w0 as nat + self.w1 as nat * pow64() + self.w2 as nat * pow128() + self.w3 as nat
            * pow192()
    }
}

/// The character that stands for the digit `d`.
pub open spec fn decimal_digit(d: nat) -> char {
    if d == 0 {
        '0'
    } else if d == 1 {
        '1'
    } else if d == 2 {
        '2'
    } else if d == 3 {
        '3'
    } else if d == 4 {
        '4'
    } else if d == 5 {
        '5'
    } else if d == 6 {
        '6'
    } else if d == 7 {
        '7'
    } else if d == 8 {
        '8'
    } else {
        '9'
    }
}

/// The decimal notation of `n`, without leading zeros (`"0"` for zero).
pub open spec fn decimal_digits(n: nat) -> Seq<char>
    decreases n,
{
    if n < 10 {
        seq![decimal_digit(n)]
    } else {
        decimal_digits(n / 10).push(decimal_digit(n % 10))
    }
}

/// Whether `c` is one of `0`..`9`.
pub open spec fn is_decimal_digit(c: char) -> bool {
    '0' <= c && c <= '9'
}

/// The value of the digit character `c`.
pub open spec fn decimal_value(c: char) -> nat {
    (c as nat - '0' as nat) as nat
}

/// The number that `s` denotes in decimal notation: `None` where a character
/// is not a digit or the number exceeds 2^256 - 1. The empty text denotes
/// zero, and leading zeros are allowed.
pub open spec fn parse_decimal(s: Seq<char>) -> Option<nat>
    decreases s.len(),
{
    if s.len() == 0 {
        Some(0)
    } else {
        match parse_decimal(s.drop_last()) {
            None => None,
            Some(v) => if is_decimal_digit(s.last()) && v * 10 + decimal_value(s.last())
                <= u256_max() {
                Some(v * 10 + decimal_value(s.last()))
            } else {
                None
            },
        }
    }
}

/// The number held by an optional value.
pub open spec fn option_view(r: Option<U256>) -> Option<nat> {
    match r {
        Some(v) => Some(v@),
        None => None,
    }
}

/// Every value lies in `0 ..= 2^256 - 1`.
pub broadcast proof fn lemma_u256_bounded(x: U256)
    ensures
        #[trigger] x@ <= u256_max(),
{
    assert(x.w1 as nat * pow64() <= 0xffff_ffff_ffff_ffff * pow64());
    assert(x.w2 as nat * pow128() <= 0xffff_ffff_ffff_ffff * pow128());
    assert(x.w3 as nat * pow192() <= 0xffff_ffff_ffff_ffff * pow192());
}

/// Two values are the same exactly when they stand for the same number.
pub broadcast proof fn lemma_u256_injective(a: U256, b: U256)
    ensures
        (#[trigger] a@ == #[trigger] b@) <==> a == b,
{
    if a@ == b@ {
        let lo_a = a.w0 as nat + a.w1 as nat * pow64();
        let lo_b = b.w0 as nat + b.w1 as nat * pow64();
        let hi_a = a.w2 as nat + a.w3 as nat * pow64();
        let hi_b = b.w2 as nat + b.w3 as nat * pow64();
        assert(a.w3 as nat * pow192() == (a.w3 as nat * pow64()) * pow128());
        assert(b.w3 as nat * pow192() == (b.w3 as nat * pow64()) * pow128());
        assert(a@ == lo_a + hi_a * pow128());
        assert(b@ == lo_b + hi_b * pow128());
        assert(lo_a < pow128());
        assert(lo_b < pow128());
        assert(hi_a == hi_b);
        assert(lo_a == lo_b);
    }
}

impl U256 {
    /// The value whose view is `n`, for `n` up to 2^256 - 1.
    pub closed spec fn from_nat(n: nat) -> U256 {
        let q1 = n / pow64();
        let q2 = q1 / pow64();
        let q3 = q2 / pow64();
        U256 {
            w3: (q3 % pow64()) as u64,
            w2: (q2 % pow64()) as u64,
            w1: (q1 % pow64()) as u64,
            w0: (n % pow64()) as u64,
        }
    }

    /// `from_nat` is the inverse of the view.
    pub broadcast proof fn lemma_from_nat(n: nat)
        requires
            n <= u256_max(),
        ensures
            (#[trigger] Self::from_nat(n))@ == n,
    {
        let q1 = n / pow64();
        let q2 = q1 / pow64();
        let q3 = q2 / pow64();
        let d0 = n % pow64();
        let d1 = q1 % pow64();
        let d2 = q2 % pow64();
        assert(n == q1 * pow64() + d0);
        assert(q1 == q2 * pow64() + d1);
        assert(q2 == q3 * pow64() + d2);
        assert(q1 < pow192());
        assert(q2 < pow128());
        assert(q3 < pow64());
        assert(q3 % pow64() == q3);
        assert(d2 * pow128() == (d2 * pow64()) * pow64());
        assert(q3 * pow192() == ((q3 * pow64()) * pow64()) * pow64());
        assert(q2 * pow64() == (q3 * pow64()) * pow64() + d2 * pow64());
        assert(q1 * pow64() == (q2 * pow64()) * pow64() + d1 * pow64());
        let r = Self::from_nat(n);
        assert(r.w0 as nat == d0 && r.w1 as nat == d1 && r.w2 as nat == d2 && r.w3 as nat == q3);
    }

    /// A value is `from_nat` of its view.
    pub proof fn lemma_from_nat_of_view(x: U256)
        ensures
            Self::from_nat(x@) == x,
    {
        lemma_u256_bounded(x);
        Self::lemma_from_nat(x@);
        lemma_u256_injective(Self::from_nat(x@), x);
    }

    /// Zero.
    pub fn zero() -> (r: U256)
        ensures
            r@ == 0,
    {
        U256 { w3: 0, w2: 0, w1: 0, w0: 0 }
    }

    /// One.
    pub fn one() -> (r: U256)
        ensures
            r@ == 1,
    {
        U256 { w3: 0, w2: 0, w1: 0, w0: 1 }
    }

    /// The greatest value, 2^256 - 1.
    pub fn max_value() -> (r: U256)
        ensures
            r@ == u256_max(),
    {
        U256 {
            w3: 0xffff_ffff_ffff_ffff,
            w2: 0xffff_ffff_ffff_ffff,
            w1: 0xffff_ffff_ffff_ffff,
            w0: 0xffff_ffff_ffff_ffff,
        }
    }

    /// The value made of four 64-bit words, least significant first.
    pub fn from_words(words: [u64; 4]) -> (r: U256)
        ensures
            r@ == words[0] as nat + words[1] as nat * pow64() + words[2] as nat * pow128()
                + words[3] as nat * pow192(),
    {
        U256 { w3: words[3], w2: words[2], w1: words[1], w0: words[0] }
    }

    /// The four 64-bit words of the value, least significant first.
    pub fn to_words(&self) -> (words: [u64; 4])
        ensures
            self@ == words[0] as nat + words[1] as nat * pow64() + words[2] as nat * pow128()
                + words[3] as nat * pow192(),
    {
        [self.w0, self.w1, self.w2, self.w3]
    }

    /// Whether the value is zero.
    pub fn is_zero(&self) -> (r: bool)
        ensures
            r == (self@ == 0),
    {
        self.w0 == 0 && self.w1 == 0 && self.w2 == 0 && self.w3 == 0
    }

    /// Whether `self` is strictly less than `other`.
    pub fn lt(&self, other: &U256) -> (r: bool)
        ensures
            r == (self@ < other@),
    {
        proof {
            let lo_a = self.w0 as nat + self.w1 as nat * pow64();
            let lo_b = other.w0 as nat + other.w1 as nat * pow64();
            let hi_a = self.w2 as nat + self.w3 as nat * pow64();
            let hi_b = other.w2 as nat + other.w3 as nat * pow64();
            assert(self.w3 as nat * pow192() == (self.w3 as nat * pow64()) * pow128());
            assert(other.w3 as nat * pow192() == (other.w3 as nat * pow64()) * pow128());
            assert(self@ == lo_a + hi_a * pow128());
            assert(other@ == lo_b + hi_b * pow128());
            assert(lo_a < pow128());
            assert(lo_b < pow128());
        }
        if self.w3 != other.w3 {
            self.w3 < other.w3
        } else if self.w2 != other.w2 {
            self.w2 < other.w2
        } else if self.w1 != other.w1 {
            self.w1 < other.w1
        } else {
            self.w0 < other.w0
        }
    }

    /// Whether `self` is at most `other`.
    pub fn le(&self, other: &U256) -> (r: bool)
        ensures
            r == (self@ <= other@),
    {
        !other.lt(self)
    }

    /// Whether `self` is strictly greater than `other`.
    pub fn gt(&self, other: &U256) -> (r: bool)
        ensures
            r == (self@ > other@),
    {
        other.lt(self)
    }

    /// Whether `self` is at least `other`.
    pub fn ge(&self, other: &U256) -> (r: bool)
        ensures
            r == (self@ >= other@),
    {
        !self.lt(other)
    }

    /// Whether the value fits in 128 bits.
    pub fn fits_u128(&self) -> (r: bool)
        ensures
            r == (self@ <= u128::MAX),
    {
        proof {
            assert(self.w3 as nat * pow192() == (self.w3 as nat * pow64()) * pow128());
        }
        self.w2 == 0 && self.w3 == 0
    }

    /// The low 128 bits of the value.
    pub fn low_u128(&self) -> (r: u128)
        ensures
            r as nat == self@ % pow128(),
    {
        let lo: u128 = self.w0 as u128;
        let hi: u128 = self.w1 as u128;
        proof {
            assert(self.w3 as nat * pow192() == (self.w3 as nat * pow64()) * pow128());
            let top = self.w2 as nat + self.w3 as nat * pow64();
            let low = self.w0 as nat + self.w1 as nat * pow64();
            assert(self@ == low + top * pow128());
            assert(low < pow128());
            vstd::arithmetic::div_mod::lemma_fundamental_div_mod_converse(
                self@ as int,
                pow128() as int,
                top as int,
                low as int,
            );
            assert(hi << 64 == hi * 0x1_0000_0000_0000_0000) by (bit_vector)
                requires
                    hi <= 0xffff_ffff_ffff_ffff,
            ;
        }
        (hi << 64) + lo
    }

    /// The value as a `u128`.
    pub fn as_u128(&self) -> (r: u128)
        requires
            self@ <= u128::MAX,
        ensures
            r as nat == self@,
    {
        let r = self.low_u128();
        proof {
            vstd::arithmetic::div_mod::lemma_small_mod(self@, pow128());
        }
        r
    }

    /// The value of a `u64`.
    pub fn from_u64(v: u64) -> (r: U256)
        ensures
            r@ == v,
    {
        U256 { w3: 0, w2: 0, w1: 0, w0: v }
    }

    /// The value of a `u128`.
    pub fn from_u128(v: u128) -> (r: U256)
        ensures
            r@ == v,
    {
        let lo: u64 = (v & 0xffff_ffff_ffff_ffff) as u64;
        let hi: u64 = (v >> 64) as u64;
        proof {
            assert((v & 0xffff_ffff_ffff_ffff) + (v >> 64) * 0x1_0000_0000_0000_0000 == v
                && (v & 0xffff_ffff_ffff_ffff) <= 0xffff_ffff_ffff_ffff
                && (v >> 64) <= 0xffff_ffff_ffff_ffff) by (bit_vector);
        }
        U256 { w3: 0, w2: 0, w1: hi, w0: lo }
    }
}

/// Calls `primitive_types::U256::checked_add`: the sum, or `None` when it
/// does not fit in 256 bits.
#[verifier::external_body]
fn outside_checked_add(a: U256, b: U256) -> (r: Option<U256>)
    ensures
        r is Some <==> a@ + b@ <= u256_max(),
        r matches Some(v) ==> v@ == a@ + b@,
{
    let x = primitive_types::U256([a.w0, a.w1, a.w2, a.w3]);
    let y = primitive_types::U256([b.w0, b.w1, b.w2, b.w3]);
    match x.checked_add(y) {
        Some(v) => Some(U256 { w3: v.0[3], w2: v.0[2], w1: v.0[1], w0: v.0[0] }),
        None => None,
    }
}

/// Calls `primitive_types::U256::checked_sub`: the difference, or `None`
/// when the second value is the greater.
#[verifier::external_body]
fn outside_checked_sub(a: U256, b: U256) -> (r: Option<U256>)
    ensures
        r is Some <==> b@ <= a@,
        r matches Some(v) ==> v@ == a@ - b@,
{
    let x = primitive_types::U256([a.w0, a.w1, a.w2, a.w3]);
    let y = primitive_types::U256([b.w0, b.w1, b.w2, b.w3]);
    match x.checked_sub(y) {
        Some(v) => Some(U256 { w3: v.0[3], w2: v.0[2], w1: v.0[1], w0: v.0[0] }),
        None => None,
    }
}

/// Calls `primitive_types::U256::checked_mul`: the product, or `None` when
/// it does not fit in 256 bits.
#[verifier::external_body]
fn outside_checked_mul(a: U256, b: U256) -> (r: Option<U256>)
    ensures
        r is Some <==> a@ * b@ <= u256_max(),
        r matches Some(v) ==> v@ == a@ * b@,
{
    let x = primitive_types::U256([a.w0, a.w1, a.w2, a.w3]);
    let y = primitive_types::U256([b.w0, b.w1, b.w2, b.w3]);
    match x.checked_mul(y) {
        Some(v) => Some(U256 { w3: v.0[3], w2: v.0[2], w1: v.0[1], w0: v.0[0] }),
        None => None,
    }
}

/// Calls `primitive_types::U256::checked_div`: the quotient rounded down, or
/// `None` when the divisor is zero.
#[verifier::external_body]
fn outside_checked_div(a: U256, b: U256) -> (r: Option<U256>)
    ensures
        r is Some <==> b@ != 0,
        r matches Some(v) ==> v@ == a@ / b@,
{
    let x = primitive_types::U256([a.w0, a.w1, a.w2, a.w3]);
    let y = primitive_types::U256([b.w0, b.w1, b.w2, b.w3]);
    match x.checked_div(y) {
        Some(v) => Some(U256 { w3: v.0[3], w2: v.0[2], w1: v.0[1], w0: v.0[0] }),
        None => None,
    }
}

/// Calls the `Display` of `primitive_types::U256` through `to_string`: the
/// decimal notation of the value.
#[verifier::external_body]
fn outside_to_decimal(a: U256) -> (s: String)
    ensures
        s@ == decimal_digits(a@),
{
    primitive_types::U256([a.w0, a.w1, a.w2, a.w3]).to_string()
}

/// Calls `primitive_types::U256::from_dec_str`: the number that the text
/// denotes, or `None` where that function reports an error (a character that
/// is no digit, or a number beyond 256 bits).
#[verifier::external_body]
fn outside_from_decimal(text: &str) -> (r: Option<U256>)
    ensures
        option_view(r) == parse_decimal(text@),
{
    match primitive_types::U256::from_dec_str(text) {
        Ok(v) => Some(U256 { w3: v.0[3], w2: v.0[2], w1: v.0[1], w0: v.0[0] }),
        Err(_) => None,
    }
}

impl U256 {
    /// The sum, or `None` when it exceeds 2^256 - 1.
    pub fn checked_add(self, other: U256) -> (r: Option<U256>)
        ensures
            r is Some <==> self@ + other@ <= u256_max(),
            r matches Some(v) ==> v@ == self@ + other@,
    {
        outside_checked_add(self, other)
    }

    /// The difference, or `None` when `other` is the greater.
    pub fn checked_sub(self, other: U256) -> (r: Option<U256>)
        ensures
            r is Some <==> other@ <= self@,
            r matches Some(v) ==> v@ == self@ - other@,
    {
        outside_checked_sub(self, other)
    }

    /// The product, or `None` when it exceeds 2^256 - 1.
    pub fn checked_mul(self, other: U256) -> (r: Option<U256>)
        ensures
            r is Some <==> self@ * other@ <= u256_max(),
            r matches Some(v) ==> v@ == self@ * other@,
    {
        outside_checked_mul(self, other)
    }

    /// The quotient rounded down, or `None` when `other` is zero.
    pub fn checked_div(self, other: U256) -> (r: Option<U256>)
        ensures
            r is Some <==> other@ != 0,
            r matches Some(v) ==> v@ == self@ / other@,
    {
        outside_checked_div(self, other)
    }

    /// The difference, or zero when `other` is the greater.
    pub fn saturating_sub(self, other: U256) -> (r: U256)
        ensures
            r@ == if other@ <= self@ {
                self@ - other@
            } else {
                0
            },
    {
        match outside_checked_sub(self, other) {
            Some(v) => v,
            None => U256::zero(),
        }
    }

    /// The decimal notation of the value.
    pub fn to_string(&self) -> (s: String)
        ensures
            s@ == decimal_digits(self@),
    {
        outside_to_decimal(*self)
    }

    /// Reads decimal text. The empty text reads as zero.
    pub fn from_dec_str(text: &str) -> (r: Option<U256>)
        ensures
            option_view(r) == parse_decimal(text@),
    {
        outside_from_decimal(text)
    }
}

impl core::ops::Add for U256 {
    type Output = U256;

    fn add(self, rhs: U256) -> (r: U256) {
        match outside_checked_add(self, rhs) {
            Some(v) => {
                proof {
                    U256::lemma_from_nat_of_view(v);
                }
                v
            },
            None => vstd::pervasive::unreached(),
        }
    }
}

impl vstd::std_specs::ops::AddSpecImpl for U256 {
    open spec fn obeys_add_spec() -> bool {
        true
    }

    open spec fn add_req(self, rhs: U256) -> bool {
        self@ + rhs@ <= u256_max()
    }

    open spec fn add_spec(self, rhs: U256) -> U256 {
        U256::from_nat(self@ + rhs@)
    }
}

impl core::ops::Sub for U256 {
    type Output = U256;

    fn sub(self, rhs: U256) -> (r: U256) {
        match outside_checked_sub(self, rhs) {
            Some(v) => {
                proof {
                    U256::lemma_from_nat_of_view(v);
                }
                v
            },
            None => vstd::pervasive::unreached(),
        }
    }
}

impl vstd::std_specs::ops::SubSpecImpl for U256 {
    open spec fn obeys_sub_spec() -> bool {
        true
    }

    open spec fn sub_req(self, rhs: U256) -> bool {
        rhs@ <= self@
    }

    open spec fn sub_spec(self, rhs: U256) -> U256 {
        U256::from_nat((self@ - rhs@) as nat)
    }
}

impl core::ops::Mul for U256 {
    type Output = U256;

    fn mul(self, rhs: U256) -> (r: U256) {
        match outside_checked_mul(self, rhs) {
            Some(v) => {
                proof {
                    U256::lemma_from_nat_of_view(v);
                }
                v
            },
            None => vstd::pervasive::unreached(),
        }
    }
}

impl vstd::std_specs::ops::MulSpecImpl for U256 {
    open spec fn obeys_mul_spec() -> bool {
        true
    }

    open spec fn mul_req(self, rhs: U256) -> bool {
        self@ * rhs@ <= u256_max()
    }

    open spec fn mul_spec(self, rhs: U256) -> U256 {
        U256::from_nat(self@ * rhs@)
    }
}

impl core::ops::Div for U256 {
    type Output = U256;

    fn div(self, rhs: U256) -> (r: U256) {
        match outside_checked_div(self, rhs) {
            Some(v) => {
                proof {
                    U256::lemma_from_nat_of_view(v);
                }
                v
            },
            None => vstd::pervasive::unreached(),
        }
    }
}

impl vstd::std_specs::ops::DivSpecImpl for U256 {
    open spec fn obeys_div_spec() -> bool {
        true
    }

    open spec fn div_req(self, rhs: U256) -> bool {
        rhs@ != 0
    }

    open spec fn div_spec(self, rhs: U256) -> U256 {
        U256::from_nat(self@ / rhs@)
    }
}

impl From<u64> for U256 {
    fn from(v: u64) -> (r: U256) {
        let r = U256::from_u64(v);
        proof {
            U256::lemma_from_nat_of_view(r);
        }
        r
    }
}

impl vstd::std_specs::convert::FromSpecImpl<u64> for U256 {
    open spec fn obeys_from_spec() -> bool {
        true
    }

    open spec fn from_spec(v: u64) -> U256 {
        U256::from_nat(v as nat)
    }
}

impl From<u128> for U256 {
    fn from(v: u128) -> (r: U256) {
        let r = U256::from_u128(v);
        proof {
            U256::lemma_from_nat_of_view(r);
        }
        r
    }
}

impl vstd::std_specs::convert::FromSpecImpl<u128> for U256 {
    open spec fn obeys_from_spec() -> bool {
        true
    }

    open spec fn from_spec(v: u128) -> U256 {
        U256::from_nat(v as nat)
    }
}

impl From<u16> for U256 {
    fn from(v: u16) -> (r: U256) {
        let r = U256::from_u64(v as u64);
        proof {
            U256::lemma_from_nat_of_view(r);
        }
        r
    }
}

impl vstd::std_specs::convert::FromSpecImpl<u16> for U256 {
    open spec fn obeys_from_spec() -> bool {
        true
    }

    open spec fn from_spec(v: u16) -> U256 {
        U256::from_nat(v as nat)
    }
}

} // verus!
