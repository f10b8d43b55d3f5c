//! Field elements: integers below the prime `2^251 + 17 * 2^192 + 1`.

use vstd::prelude::*;

verus! {

/// The upper 128 bits of the prime modulus.
pub const FIELD_HIGH: u128 = 0x0800_0000_0000_0011_0000_0000_0000_0000;

/// The lower 128 bits of the prime modulus.
pub const FIELD_LOW: u128 = 1;

/// The weight of the upper half of a field element: two to the power 128.
pub open spec fn limb_base() -> nat {
    0x1_0000_0000_0000_0000_0000_0000_0000_0000nat
}

/// The integer whose upper 128 bits are `high` and whose lower 128 bits are `low`.
pub open spec fn limbs_value(high: u128, low: u128) -> nat {
    (high as nat) * limb_base() + (low as nat)
}

/// The prime modulus of the field.
pub open spec fn prime() -> nat {
    limbs_value(FIELD_HIGH, FIELD_LOW)
}

/// A field element, held as the two 128-bit halves of its canonical
/// representative. Every value of the type is below the prime.
#[derive(Clone, Copy, Debug, PartialEq, Eq, Hash, Structural)]
pub struct Felt252 {
    high: u128,
    low: u128,
}

impl View for Felt252 {
    type V = nat;

    closed spec fn view(&self) -> nat {
        limbs_value(self.high, self.low)
    }
}

impl Felt252 {
    #[verifier::type_invariant]
    closed spec fn canonical(self) -> bool {
        limbs_value(self.high, self.low) < prime()
    }

    /// The field element with the given halves, if they denote an integer
    /// below the prime.
    pub fn new(high: u128, low: u128) -> (felt: Option<Felt252>)
        ensures
            felt is Some <==> limbs_value(high, low) < prime(),
            felt matches Some(f) ==> f@ == limbs_value(high, low),
    {
        if high < FIELD_HIGH || (high == FIELD_HIGH && low < FIELD_LOW) {
            Some(Felt252 { high, low })
        } else {
            None
        }
    }

    /// The field element of a small integer.
    pub fn from_u128(value: u128) -> (felt: Felt252)
        ensures
            felt@ == value,
    {
        Felt252 { high: 0, low: value }
    }

    /// The upper 128 bits of the element.
    pub fn high(&self) -> (high: u128)
        ensures
            high == self@ / limb_base(),
    {
        self.high
    }

    /// The lower 128 bits of the element.
    pub fn low(&self) -> (low: u128)
        ensures
            low == self@ % limb_base(),
    {
        self.low
    }

    /// Two field elements with the same value are the same element.
    pub proof fn lemma_view_injective(self, other: Felt252)
        ensures
            self@ == other@ <==> self == other,
    {
    }
}

/// The big-endian base-256 digits of `n`, without leading zeros; none for zero.
pub open spec fn be_digits(n: nat) -> Seq<u8>
    decreases n,
{
    if n == 0 {
        Seq::empty()
    } else {
        be_digits(n / 256).push((n % 256) as u8)
    }
}

/// The shortest big-endian byte string that denotes `n`; zero is the single
/// byte zero.
pub open spec fn be_bytes(n: nat) -> Seq<u8> {
    if n == 0 {
        seq![0u8]
    } else {
        be_digits(n)
    }
}

/// The character of a decimal digit.
pub open spec fn digit_char(digit: nat) -> char {
    (48 + digit) as u8 as char
}

/// `n` in decimal, without leading zeros.
pub open spec fn decimal_digits(n: nat) -> Seq<char>
    decreases n,
{
    if n < 10 {
        seq![digit_char(n)]
    } else {
        decimal_digits(n / 10).push(digit_char(n % 10))
    }
}

/// Whether a byte may stand in a short string: a visible ASCII character, a
/// space, a tab, a line feed, a form feed or a carriage return.
pub open spec fn is_short_string_byte(byte: u8) -> bool {
    33 <= byte <= 126 || byte == 32 || byte == 9 || byte == 10 || byte == 12 || byte == 13
}

/// The number of bytes before the first zero byte.
pub open spec fn text_len(bytes: Seq<u8>) -> nat
    decreases bytes.len(),
{
    if bytes.len() == 0 || bytes[0] == 0 {
        0
    } else {
        1 + text_len(bytes.drop_first())
    }
}

/// The short string that a byte string spells: the bytes before the first
/// zero byte, as characters. There is none where one of them may not stand in
/// a short string, or where a byte other than zero follows a zero byte.
pub open spec fn short_string_of(bytes: Seq<u8>) -> Option<Seq<char>> {
    let n = text_len(bytes);
    if (forall|i: int| 0 <= i < n ==> is_short_string_byte(#[trigger] bytes[i])) && (forall|i: int|
        n <= i < bytes.len() ==> #[trigger] bytes[i] == 0) {
        Some(Seq::new(n, |i: int| bytes[i] as char))
    } else {
        None
    }
}

/// The characters of an optional string.
pub open spec fn text_of(text: Option<String>) -> Option<Seq<char>> {
    match text {
        Some(s) => Some(s@),
        None => None,
    }
}

/// The element's bytes in big-endian order, as `Felt252::to_bytes_be` of
/// `cairo_felt` returns them: the shortest byte string that denotes the value,
/// a single zero byte for zero.
#[verifier::external_body]
pub(crate) fn to_bytes_be(value: &Felt252) -> (bytes: Vec<u8>)
    ensures
        bytes@ == be_bytes(value@),
{
    let limbs = [value.high.to_be_bytes(), value.low.to_be_bytes()].concat();
    cairo_felt::Felt252::from_bytes_be(&limbs).to_bytes_be()
}

/// The element as `cairo_felt` displays it: its value in decimal.
#[verifier::external_body]
pub(crate) fn to_decimal(value: &Felt252) -> (text: String)
    ensures
        text@ == decimal_digits(value@),
{
    let limbs = [value.high.to_be_bytes(), value.low.to_be_bytes()].concat();
    format!("{}", cairo_felt::Felt252::from_bytes_be(&limbs))
}

/// The element as a short string, by `as_cairo_short_string` of
/// `cairo_lang_runner`: the function walks the shortest big-endian bytes of
/// the value, collects the bytes before the first zero byte and gives up on a
/// byte that may not stand in a short string or that follows a zero byte.
#[verifier::external_body]
pub(crate) fn as_cairo_short_string(value: &Felt252) -> (text: Option<String>)
    ensures
        text_of(text) == short_string_of(be_bytes(value@)),
{
    let limbs = [value.high.to_be_bytes(), value.low.to_be_bytes()].concat();
    cairo_lang_runner::short_string::as_cairo_short_string(
        &cairo_vm::Felt252::from_bytes_be_slice(&limbs),
    )
}

} // verus!
