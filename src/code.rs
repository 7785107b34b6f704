//! Short codes: fixed-length random tokens over a URL-safe alphabet.
use vstd::prelude::*;

verus! {

/// Number of characters in a generated short code.
pub const CODE_LEN: usize = 8;

/// The URL-safe alphabet: ASCII letters, digits, `_` and `-`.
pub open spec fn is_code_char(c: char) -> bool {
    ('a' <= c && c <= 'z') || ('A' <= c && c <= 'Z') || ('0' <= c && c <= '9') || c == '_'
        || c == '-'
}

/// A well-formed generated code: `CODE_LEN` characters of the URL-safe alphabet.
pub open spec fn is_short_code(s: Seq<char>) -> bool {
    &&& s.len() == CODE_LEN
    &&& forall|i: int| 0 <= i < s.len() ==> is_code_char(#[trigger] s[i])
}

/// Relies on `nanoid::format` with `nanoid::rngs::default` and the alphabet
/// `nanoid::alphabet::SAFE` (`_`, `-`, digits, lower and upper case letters):
/// it pushes alphabet symbols until the id holds `size` of them. Its loop never
/// ends for `size == 0`, and `8 * size` must not overflow.
#[verifier::external_body]
fn nanoid_safe(size: usize) -> (r: String)
    requires
        0 < size <= 4096,
    ensures
        r@.len() == size,
        forall|i: int| 0 <= i < r@.len() ==> is_code_char(#[trigger] r@[i]),
{
    nanoid::format(nanoid::rngs::default, &nanoid::alphabet::SAFE, size)
}

/// A fresh random short code. Each call draws independently; uniqueness is
/// left to the store's constraint on codes.
pub fn generate() -> (r: String)
    ensures
        is_short_code(r@),
{
    nanoid_safe(CODE_LEN)
}

} // verus!
