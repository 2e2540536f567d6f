//! Identifiers: tokens, markets and wallet addresses.
use vstd::prelude::*;

use crate::text;

verus! {

/// A 256-bit token id, as two halves.
#[derive(Clone, Copy, Debug, PartialEq, Eq, Structural)]
pub struct U256 {
    pub hi: u128,
    pub lo: u128,
}

/// A 256-bit market (condition) id, as two big-endian halves.
#[derive(Clone, Copy, Debug, PartialEq, Eq, Structural)]
pub struct B256 {
    pub hi: u128,
    pub lo: u128,
}

/// A 160-bit wallet address, as its first four and its last sixteen bytes.
#[derive(Clone, Copy, Debug, PartialEq, Eq, Structural)]
pub struct Address {
    pub hi: u32,
    pub lo: u128,
}

/// `2^128`.
pub open spec fn half_range() -> int {
    0x1_0000_0000_0000_0000_0000_0000_0000_0000int
}

impl U256 {
    /// The number that the two halves make.
    pub open spec fn value(self) -> int {
        self.hi * half_range() + self.lo
    }
}

/// The lower-case hexadecimal digit of a number below 16.
pub open spec fn hex_char(d: int) -> char {
    if d < 10 {
        text::digit_char(d)
    } else {
        (87 + d) as char
    }
}

/// The last `width` hexadecimal digits of a number, in lower case, with leading zeros.
pub open spec fn hex_digits(n: int, width: int) -> Seq<char>
    decreases width,
{
    if width <= 0 {
        Seq::empty()
    } else {
        hex_digits(n / 16, width - 1).push(hex_char(n % 16))
    }
}

/// The value of a hexadecimal digit of either case.
pub open spec fn hex_value(c: char) -> Option<int> {
    if '0' <= c && c <= '9' {
        Some(c as int - 48)
    } else if 'a' <= c && c <= 'f' {
        Some(c as int - 87)
    } else if 'A' <= c && c <= 'F' {
        Some(c as int - 55)
    } else {
        None
    }
}

/// The number that hexadecimal digits write; `None` where another character stands among them.
pub open spec fn hex_number(s: Seq<char>) -> Option<int>
    decreases s.len(),
{
    if s.len() == 0 {
        Some(0)
    } else {
        match (hex_number(s.drop_last()), hex_value(s.last())) {
            (Some(n), Some(d)) => Some(16 * n + d),
            _ => None,
        }
    }
}

/// The address that a text writes: forty hexadecimal digits of either case, behind an optional `0x`
/// or `0X`.
pub open spec fn address_of(s: Seq<char>) -> Option<Address> {
    let rest = if s.len() >= 2 && s[0] == '0' && (s[1] == 'x' || s[1] == 'X') {
        s.skip(2)
    } else {
        s
    };
    match hex_number(rest) {
        Some(n) if rest.len() == 40 => Some(
            Address { hi: (n / half_range()) as u32, lo: (n % half_range()) as u128 },
        ),
        _ => None,
    }
}

/// `alloy::primitives::U256`'s `Display`: the number in decimal.
#[verifier::external_body]
pub(crate) fn token_text(token: U256) -> (r: String)
    ensures
        r@ == text::digits(token.value() as nat),
{
    let mut bytes = [0u8; 32];
    bytes[..16].copy_from_slice(&token.hi.to_be_bytes());
    bytes[16..].copy_from_slice(&token.lo.to_be_bytes());
    format!("{}", alloy::primitives::U256::from_be_bytes(bytes))
}

/// `0x` and the 64 lower-case hexadecimal digits of a market id.
pub open spec fn market_words(market: B256) -> Seq<char> {
    "0x"@ + hex_digits(market.hi as int, 32) + hex_digits(market.lo as int, 32)
}

/// `alloy::primitives::B256`'s `Debug`: `0x` and 64 lower-case hexadecimal digits.
#[verifier::external_body]
pub(crate) fn market_text(market: B256) -> (r: String)
    ensures
        r@ == market_words(market),
{
    let mut bytes = [0u8; 32];
    bytes[..16].copy_from_slice(&market.hi.to_be_bytes());
    bytes[16..].copy_from_slice(&market.lo.to_be_bytes());
    format!("{:?}", alloy::primitives::B256::from(bytes))
}

/// `alloy::primitives::Address`'s `FromStr`: reads forty hexadecimal digits behind an optional prefix,
/// and nothing else.
#[verifier::external_body]
pub(crate) fn parse_address(s: &str) -> (r: Option<Address>)
    ensures
        r == address_of(s@),
{
    let a: alloy::primitives::Address = s.parse().ok()?;
    let mut hi = [0u8; 4];
    let mut lo = [0u8; 16];
    hi.copy_from_slice(&a.as_slice()[..4]);
    lo.copy_from_slice(&a.as_slice()[4..]);
    Some(Address { hi: u32::from_be_bytes(hi), lo: u128::from_be_bytes(lo) })
}

/// `0x` and the forty lower-case hexadecimal digits of an address.
pub open spec fn address_words(a: Address) -> Seq<char> {
    "0x"@ + hex_digits(a.hi as int, 8) + hex_digits(a.lo as int, 32)
}

/// `alloy::primitives::Address`'s `Debug`: `0x` and forty lower-case hexadecimal digits.
#[verifier::external_body]
pub(crate) fn address_text(a: Address) -> (r: String)
    ensures
        r@ == address_words(a),
{
    let mut bytes = [0u8; 20];
    bytes[..4].copy_from_slice(&a.hi.to_be_bytes());
    bytes[4..].copy_from_slice(&a.lo.to_be_bytes());
    format!("{:?}", alloy::primitives::Address::from(bytes))
}

/// How `alloy` writes an address with its checksum (EIP-55).
pub uninterp spec fn checksummed(hi: int, lo: int) -> Seq<char>;

/// `alloy::primitives::Address`'s `Display`: the address with its checksum.
#[verifier::external_body]
pub(crate) fn checksum_text(a: Address) -> (r: String)
    ensures
        r@ == checksummed(a.hi as int, a.lo as int),
{
    let mut bytes = [0u8; 20];
    bytes[..4].copy_from_slice(&a.hi.to_be_bytes());
    bytes[4..].copy_from_slice(&a.lo.to_be_bytes());
    format!("{}", alloy::primitives::Address::from(bytes))
}

/// A number has as many hexadecimal digits as are asked for.
pub proof fn lemma_hex_digits_len(n: int, width: int)
    requires
        width >= 0,
    ensures
        hex_digits(n, width).len() == width,
    decreases width,
{
    if width > 0 {
        lemma_hex_digits_len(n / 16, width - 1);
    }
}

} // verus!
