//! Fresh identifiers, drawn from outside sources of randomness.
use vstd::prelude::*;

verus! {

/// Whether `c` is a lower-case hexadecimal digit.
pub open spec fn is_lower_hex(c: char) -> bool {
    ('0' <= c && c <= '9') || ('a' <= c && c <= 'f')
}

/// Whether `s` is the lower-case hyphenated text of a random (version 4,
/// RFC 4122 variant) UUID, such as `67e55044-10b1-426f-9247-bb680e5fe0c8`.
pub open spec fn is_uuid_v4_text(s: Seq<char>) -> bool {
    &&& s.len() == 36
    &&& forall|i: int|
        0 <= i < 36 ==> if i == 8 || i == 13 || i == 18 || i == 23 {
            #[trigger] s[i] == '-'
        } else {
            is_lower_hex(s[i])
        }
    &&& s[14] == '4'
    &&& (s[19] == '8' || s[19] == '9' || s[19] == 'a' || s[19] == 'b')
}

/// Calls `uuid::Uuid::new_v4` and writes the result with `to_string`.
/// The UUID's bits come from the operating system's random source; what is
/// claimed holds of every outcome: the text is hyphenated lower-case hex with
/// the version digit `4` and a variant digit among `8`, `9`, `a`, `b`.
/// Nothing is claimed about uniqueness.
#[verifier::external_body]
pub(crate) fn new_uuid_v4_string() -> (s: String)
    ensures
        is_uuid_v4_text(s@),
{
    uuid::Uuid::new_v4().to_string()
}

/// Calls `rand::Rng::gen_range(0..upper)` on `rand::thread_rng()`.
/// The number is random; what is claimed holds of every outcome: it lies in
/// `0..upper`. `gen_range` panics on an empty range, so `upper` must be positive.
#[verifier::external_body]
pub(crate) fn random_below(upper: u32) -> (r: u32)
    requires
        0 < upper,
    ensures
        r < upper,
{
    rand::Rng::gen_range(&mut rand::thread_rng(), 0..upper)
}

} // verus!
