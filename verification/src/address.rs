//! Algorand account addresses: the 32 bytes of a public key, written as the
//! base32 text (without padding) of those bytes and a 4-byte checksum.
//! The text is encoded and decoded by `algonaut`.

use std::str::FromStr;
use vstd::prelude::*;

verus! {

/// What `algonaut::core::Address::from_str` returns for the text `s`: the 32
/// bytes of the address, or the text of the error.
pub uninterp spec fn address_from_text(s: Seq<char>) -> Result<Seq<u8>, Seq<char>>;

/// What `Display` for `algonaut::core::Address` shows for the given bytes.
pub uninterp spec fn address_text(bytes: Seq<u8>) -> Seq<char>;

/// The letters of the base32 alphabet (`A` to `Z`, `2` to `7`).
pub open spec fn is_base32_char(c: char) -> bool {
    ('A' <= c <= 'Z') || ('2' <= c <= '7')
}

/// Whether every character of `s` is a base32 letter.
pub open spec fn all_base32(s: Seq<char>) -> bool {
    forall|i: int| 0 <= i < s.len() ==> is_base32_char(#[trigger] s[i])
}

/// The bytes of a decoded address, or the error text.
pub open spec fn bytes_result_view(r: Result<[u8; 32], String>) -> Result<Seq<u8>, Seq<char>> {
    match r {
        Ok(b) => Ok(b@),
        Err(e) => Err(e@),
    }
}

/// The bytes of a parsed address, or the error text.
pub open spec fn address_result_view(r: Result<Address, String>) -> Result<Seq<u8>, Seq<char>> {
    match r {
        Ok(a) => Ok(a.bytes@),
        Err(e) => Err(e@),
    }
}

/// An Algorand address: the 32 bytes of a public key.
#[derive(Debug, Clone, Copy, PartialEq, Eq)]
pub struct Address {
    pub bytes: [u8; 32],
}

/// Decodes an address text with `algonaut::core::Address::from_str`.
/// The contract gives the result the name `address_from_text`; it states
/// nothing more of the base32 decoding and the checksum test.
#[verifier::external_body]
fn decode_address(s: &str) -> (r: Result<[u8; 32], String>)
    ensures
        bytes_result_view(r) == address_from_text(s@),
{
    match algonaut::core::Address::from_str(s) {
        Ok(a) => Ok(a.0),
        Err(e) => Err(e),
    }
}

/// The text of an address, with `Display` for `algonaut::core::Address`.
/// The contract names the text `address_text` and states what the source
/// shows of it: it is the base32 encoding without padding of 36 bytes (the
/// key and its checksum), so 58 letters of the base32 alphabet, and decoding
/// it gives the key back, since the checksum is the one that decoding tests.
#[verifier::external_body]
fn encode_address(bytes: &[u8; 32]) -> (s: String)
    ensures
        s@ == address_text(bytes@),
        s@.len() == 58,
        all_base32(s@),
        address_from_text(s@) is Ok,
        address_from_text(s@)->Ok_0 == bytes@,
{
    algonaut::core::Address(*bytes).to_string()
}

impl Address {
    /// Parses an address text (`str::parse::<Address>`); the error is the
    /// text that `algonaut` gives.
    pub fn parse(s: &str) -> (r: Result<Address, String>)
        ensures
            address_result_view(r) == address_from_text(s@),
    {
        match decode_address(s) {
            Ok(bytes) => Ok(Address { bytes }),
            Err(e) => Err(e),
        }
    }

    /// The text of the address (`address.to_string()`).
    pub fn to_text(&self) -> (s: String)
        ensures
            s@ == address_text(self.bytes@),
            s@.len() == 58,
            all_base32(s@),
            address_from_text(s@) is Ok,
            address_from_text(s@)->Ok_0 == self.bytes@,
    {
        encode_address(&self.bytes)
    }
}

} // verus!
