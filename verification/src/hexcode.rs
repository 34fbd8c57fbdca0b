//! Lowercase hexadecimal rendering of byte strings. Session identifiers
//! are hex-encoded wherever they key a map, appear in a revocation message
//! or name a repository entry.

use vstd::prelude::*;

verus! {

/// The sixteen lowercase hexadecimal digit characters, in value order.
pub open spec fn hex_digits() -> Seq<char> {
    seq!['0', '1', '2', '3', '4', '5', '6', '7', '8', '9', 'a', 'b', 'c', 'd', 'e', 'f']
}

/// The digit character for a nibble value.
pub open spec fn hex_digit(n: u8) -> char
    recommends
        n < 16,
{
    hex_digits()[n as int]
}

/// Lowercase hexadecimal rendering of `s`: two digits per byte, high
/// nibble first.
pub open spec fn spec_hex_of(s: Seq<u8>) -> Seq<char>
    decreases s.len(),
{
    if s.len() == 0 {
        Seq::empty()
    } else {
        seq![hex_digit(s[0] / 16), hex_digit(s[0] % 16)] + spec_hex_of(s.drop_first())
    }
}

/// Relies on `hex::encode`: lowercase hexadecimal, two digits per byte,
/// high nibble first.
#[verifier::external_body]
pub(crate) fn hex_encode(data: &[u8]) -> (r: String)
    ensures
        r@ == spec_hex_of(data@),
{
    hex::encode(data)
}

/// The lowercase hexadecimal form of a session identifier, as used to key
/// the context store, the revocation set and the token repository.
pub fn session_id_hex(session_id: &Vec<u8>) -> (r: String)
    ensures
        r@ == spec_hex_of(session_id@),
{
    hex_encode(session_id.as_slice())
}

} // verus!
