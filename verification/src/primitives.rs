//! Fixed-width values that travel through a transaction: 256-bit unsigned
//! integers and 20-byte account addresses, both held as big-endian bytes.

use vstd::prelude::*;

verus! {

/// The number that a big-endian byte string denotes.
pub open spec fn be_value(bytes: Seq<u8>) -> nat
    decreases bytes.len(),
{
    if bytes.len() == 0 {
        0
    } else {
        be_value(bytes.drop_last()) * 256 + bytes.last() as nat
    }
}

/// The shortest big-endian byte string that denotes `n`; empty for zero.
pub open spec fn be_bytes(n: nat) -> Seq<u8>
    decreases n,
{
    if n == 0 {
        Seq::empty()
    } else {
        be_bytes(n / 256).push((n % 256) as u8)
    }
}

/// `n` can be written in at most `width` bytes.
pub open spec fn fits_in_bytes(n: nat, width: nat) -> bool
    decreases width,
{
    if width == 0 {
        n == 0
    } else {
        fits_in_bytes(n / 256, (width - 1) as nat)
    }
}

/// A number that fits in `width` bytes has a shortest form of at most `width` bytes.
pub proof fn lemma_be_bytes_len(n: nat, width: nat)
    requires
        fits_in_bytes(n, width),
    ensures
        be_bytes(n).len() <= width,
    decreases width,
{
    if width == 0 || n == 0 {
    } else {
        lemma_be_bytes_len(n / 256, (width - 1) as nat);
    }
}

/// What a byte string denotes fits in as many bytes as the string has.
pub proof fn lemma_be_value_fits(bytes: Seq<u8>)
    ensures
        fits_in_bytes(be_value(bytes), bytes.len()),
    decreases bytes.len(),
{
    if bytes.len() == 0 {
    } else {
        lemma_be_value_fits(bytes.drop_last());
        let high = be_value(bytes.drop_last());
        let low = bytes.last() as nat;
        assert((high * 256 + low) / 256 == high) by (nonlinear_arith)
            requires
                low < 256,
        ;
    }
}

/// The big-endian form of `n` in exactly `width` bytes: its low `width` bytes.
pub open spec fn be_word(n: nat, width: nat) -> Seq<u8>
    decreases width,
{
    if width == 0 {
        Seq::empty()
    } else {
        be_word(n / 256, (width - 1) as nat).push((n % 256) as u8)
    }
}

/// A byte string is the big-endian form, in its own width, of what it denotes.
pub proof fn lemma_be_word_of_value(bytes: Seq<u8>)
    ensures
        be_word(be_value(bytes), bytes.len()) == bytes,
    decreases bytes.len(),
{
    if bytes.len() == 0 {
    } else {
        lemma_be_word_of_value(bytes.drop_last());
        let high = be_value(bytes.drop_last());
        let low = bytes.last() as nat;
        assert((high * 256 + low) / 256 == high && (high * 256 + low) % 256 == low)
            by (nonlinear_arith)
            requires
                low < 256,
        ;
        assert(be_word(be_value(bytes), bytes.len()) =~= bytes);
    }
}

/// An unsigned 256-bit integer, most significant byte first.
#[derive(Clone, Copy, Debug)]
pub struct U256 {
    pub bytes: [u8; 32],
}

impl View for U256 {
    type V = nat;

    open spec fn view(&self) -> nat {
        be_value(self.bytes@)
    }
}

/// A 20-byte account address.
#[derive(Clone, Copy, Debug)]
pub struct Address {
    pub bytes: [u8; 20],
}

impl View for Address {
    type V = Seq<u8>;

    open spec fn view(&self) -> Seq<u8> {
        self.bytes@
    }
}

/// Whether a character is one of the ten decimal digits.
pub open spec fn is_digit(c: char) -> bool {
    '0' as u32 <= c as u32 <= '9' as u32
}

/// Whether a text consists of decimal digits only. The empty text does.
pub open spec fn is_decimal(text: Seq<char>) -> bool {
    forall|i: int| 0 <= i < text.len() ==> is_digit(#[trigger] text[i])
}

/// The number that a text of decimal digits denotes; zero for the empty text.
pub open spec fn decimal_value(text: Seq<char>) -> nat
    decreases text.len(),
{
    if text.len() == 0 {
        0
    } else {
        decimal_value(text.drop_last()) * 10 + (text.last() as u32 - '0' as u32) as nat
    }
}

/// Whether a text is a decimal number that fits in 256 bits.
pub open spec fn is_u256_text(text: Seq<char>) -> bool {
    is_decimal(text) && fits_in_bytes(decimal_value(text), 32)
}

/// The digits of a decimal number that may begin with a plus sign.
pub open spec fn unsigned_digits(text: Seq<char>) -> Seq<char> {
    if text.len() > 0 && text[0] == '+' {
        text.skip(1)
    } else {
        text
    }
}

/// The `u64` that a text denotes: one or more decimal digits, a plus sign in
/// front of them or not, and a value that fits in 64 bits.
pub open spec fn u64_from_text(text: Seq<char>) -> Option<u64> {
    let digits = unsigned_digits(text);
    if digits.len() > 0 && is_decimal(digits) && decimal_value(digits) <= u64::MAX {
        Some(decimal_value(digits) as u64)
    } else {
        None
    }
}

/// The address that a text of 40 hexadecimal digits denotes, if it denotes one.
pub uninterp spec fn address_from_text(text: Seq<char>) -> Option<Address>;

/// A byte string of zeros denotes zero.
pub proof fn lemma_zero_bytes(bytes: Seq<u8>)
    requires
        forall|i: int| 0 <= i < bytes.len() ==> bytes[i] == 0,
    ensures
        be_value(bytes) == 0,
    decreases bytes.len(),
{
    if bytes.len() > 0 {
        lemma_zero_bytes(bytes.drop_last());
    }
}

/// `from_dec_str` and `to_big_endian` of `web3::types::U256`. The text is
/// read digit by digit; any other character, and a value that does not fit
/// in 256 bits, is refused. The empty text gives zero.
#[verifier::external_body]
fn u256_from_dec_str(text: &str) -> (out: Option<U256>)
    ensures
        match out {
            Some(number) => is_u256_text(text@) && number@ == decimal_value(text@),
            None => !is_u256_text(text@),
        },
{
    let number = web3::types::U256::from_dec_str(text).ok()?;
    let mut bytes = [0u8; 32];
    number.to_big_endian(&mut bytes);
    Some(U256 { bytes })
}

/// `str::parse` for `u64`: decimal digits, at least one, with or without a
/// plus sign in front; nothing else, and no value beyond 64 bits.
#[verifier::external_body]
fn u64_from_str(text: &str) -> (out: Option<u64>)
    ensures
        out == u64_from_text(text@),
{
    text.parse::<u64>().ok()
}

/// `from_str` of `web3::types::H160`, which reads 20 bytes from 40
/// hexadecimal digits, with or without `0x` in front, and passes over blanks
/// among them. The outcome depends on the text alone.
#[verifier::external_body]
fn address_from_str(text: &str) -> (out: Option<Address>)
    ensures
        out == address_from_text(text@),
{
    text.parse::<web3::types::H160>().ok().map(|address| Address { bytes: address.0 })
}

impl U256 {
    /// Zero.
    pub fn zero() -> (out: U256)
        ensures
            out@ == 0,
    {
        let out = U256 { bytes: [0u8; 32] };
        proof {
            lemma_zero_bytes(out.bytes@);
        }
        out
    }

    /// Reads a decimal number. Every character must be a digit and the value
    /// must fit in 256 bits.
    pub fn from_dec_str(text: &str) -> (out: Option<U256>)
        ensures
            match out {
                Some(number) => is_u256_text(text@) && number@ == decimal_value(text@),
                None => !is_u256_text(text@),
            },
    {
        u256_from_dec_str(text)
    }
}

impl Address {
    /// Reads an address from hexadecimal text.
    pub fn from_str(text: &str) -> (out: Option<Address>)
        ensures
            out == address_from_text(text@),
    {
        address_from_str(text)
    }
}

/// Reads a `u64` from decimal text.
pub fn parse_u64(text: &str) -> (out: Option<u64>)
    ensures
        out == u64_from_text(text@),
{
    u64_from_str(text)
}

} // verus!
