//! Upper-case hexadecimal text.

use vstd::prelude::*;
use vstd::string::*;

verus! {

/// The upper-case hexadecimal digit for a value below sixteen.
pub open spec fn upper_digit(n: int) -> char {
    if n < 10 {
        ('0' as int + n) as char
    } else {
        ('A' as int + n - 10) as char
    }
}

/// Two upper-case hexadecimal digits for each byte, the high four bits first.
pub open spec fn upper_hex(bytes: Seq<u8>) -> Seq<char> {
    Seq::new(
        2 * bytes.len(),
        |i: int|
            if i % 2 == 0 {
                upper_digit(bytes[i / 2] as int / 16)
            } else {
                upper_digit(bytes[i / 2] as int % 16)
            },
    )
}

/// Calls `hex::encode_upper` on the bytes of `text`.
///
/// Trusted: that function writes, for each byte in order, the digit of its
/// high four bits and then the digit of its low four bits, taken from
/// `0123456789ABCDEF`.
#[verifier::external_body]
pub(crate) fn encode_upper(text: &str) -> (encoded: String)
    ensures
        encoded@ == upper_hex(text.spec_bytes()),
{
    hex::encode_upper(text)
}

} // verus!
