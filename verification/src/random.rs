//! Random texts.

use crate::failure::{plain, under, Failure};
use crate::text::{hex, hex_text};
use vstd::prelude::*;

verus! {

/// `getrandom::fill` on a buffer of the given length: that many bytes, or the
/// system's complaint. Which bytes come is left to chance.
#[verifier::external_body]
fn random_bytes(byte_len: usize) -> (r: Result<Vec<u8>, String>)
    requires
        byte_len <= isize::MAX,
    ensures
        r matches Ok(bytes) ==> bytes@.len() == byte_len,
{
    let mut bytes = vec![0_u8; byte_len];
    match getrandom::fill(&mut bytes) {
        Ok(()) => Ok(bytes),
        Err(error) => Err(error.to_string()),
    }
}

/// Whether a text consists of lower-case hexadecimal digits.
pub open spec fn is_lower_hex(s: Seq<char>) -> bool {
    forall|i: int|
        0 <= i < s.len() ==> ('0' <= #[trigger] s[i] && s[i] <= '9') || ('a' <= s[i] && s[i] <= 'f')
}

/// Two digits stand for each byte, and each is a lower-case hexadecimal digit.
pub proof fn hex_is_lower_hex(bytes: Seq<u8>)
    ensures
        is_lower_hex(hex(bytes)),
        hex(bytes).len() == 2 * bytes.len(),
    decreases bytes.len(),
{
    if bytes.len() > 0 {
        hex_is_lower_hex(bytes.drop_last());
    }
}

/// Different bytes have different digits.
pub proof fn hex_is_injective(a: Seq<u8>, b: Seq<u8>)
    requires
        hex(a) == hex(b),
    ensures
        a == b,
    decreases a.len(),
{
    hex_is_lower_hex(a);
    hex_is_lower_hex(b);
    if a.len() == 0 {
        assert(a =~= b);
    } else {
        let (p, q) = (hex(a), hex(b));
        let n = p.len();
        let (h, l) = (a.last() as int / 16, a.last() as int % 16);
        let (i, m) = (b.last() as int / 16, b.last() as int % 16);
        assert(p[n - 2] == crate::text::hex_char(h) && p[n - 1] == crate::text::hex_char(l));
        assert(q[n - 2] == crate::text::hex_char(i) && q[n - 1] == crate::text::hex_char(m));
        assert(h == i && l == m);
        assert(a.last() == b.last());
        assert(p.take(n - 2) =~= hex(a.drop_last()));
        assert(q.take(n - 2) =~= hex(b.drop_last()));
        hex_is_injective(a.drop_last(), b.drop_last());
        assert(a =~= a.drop_last().push(a.last()));
        assert(b =~= b.drop_last().push(b.last()));
    }
}

/// A random text of two hexadecimal digits for each byte asked for. No text is
/// longer than `isize::MAX` bytes.
pub fn random_hex(byte_len: usize) -> (r: Result<String, Failure>)
    requires
        2 * byte_len <= isize::MAX,
    ensures
        r matches Ok(text) ==> text@.len() == 2 * byte_len && is_lower_hex(text@) && exists|
            bytes: Seq<u8>,
        |
            #[trigger] hex(bytes) == text@,
        r matches Err(failure) ==> exists|complaint: Seq<char>|
            failure@ == #[trigger] under("get random bytes"@, plain(complaint)),
{
    match random_bytes(byte_len) {
        Ok(bytes) => {
            proof {
                hex_is_lower_hex(bytes@);
            }
            Ok(hex_text(bytes.as_slice()))
        },
        Err(complaint) => Err(Failure::msg(complaint.as_str()).context("get random bytes")),
    }
}

/// A token of 64 random hexadecimal digits.
pub fn random_hex_token() -> (r: Result<String, Failure>)
    ensures
        r matches Ok(text) ==> text@.len() == 64 && is_lower_hex(text@),
        r matches Err(failure) ==> exists|complaint: Seq<char>|
            failure@ == #[trigger] under("get random bytes"@, plain(complaint)),
{
    random_hex(32)
}

} // verus!
