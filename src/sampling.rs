//! Random draws used to attach confidences and identifiers to results.
use vstd::prelude::*;
use rand::Rng;

verus! {

/// Relies on `rand::Rng::gen_range` on the thread-local generator: the value lies
/// in `low..high`; the call panics on an empty range, which `requires` excludes.
#[verifier::external_body]
pub(crate) fn sample_in_range(low: u64, high: u64) -> (r: u64)
    requires
        low < high,
    ensures
        low <= r < high,
{
    rand::thread_rng().gen_range(low..high)
}

/// Relies on `rand::Rng::gen_ratio` on the thread-local generator: true with
/// chance `numerator / denominator`, never when the numerator is zero and always
/// when it equals the denominator; it panics on a zero denominator or a numerator
/// above the denominator, which `requires` excludes.
#[verifier::external_body]
pub(crate) fn sample_ratio(numerator: u32, denominator: u32) -> (r: bool)
    requires
        0 < denominator,
        numerator <= denominator,
    ensures
        numerator == 0 ==> !r,
        numerator == denominator ==> r,
{
    rand::thread_rng().gen_ratio(numerator, denominator)
}

/// The positions of the hyphens in a hyphenated UUID.
pub open spec fn is_uuid_hyphen_position(i: int) -> bool {
    i == 8 || i == 13 || i == 18 || i == 23
}

/// `s` has the hyphenated UUID layout: 36 characters, hex digit groups of 8, 4,
/// 4, 4 and 12 in lower case, separated by hyphens.
pub open spec fn is_hyphenated_uuid(s: Seq<char>) -> bool {
    s.len() == 36 && forall|i: int|
        0 <= i < 36 ==> if is_uuid_hyphen_position(i) {
            #[trigger] s[i] == '-'
        } else {
            ('0' <= s[i] <= '9') || ('a' <= s[i] <= 'f')
        }
}

/// Relies on `uuid::Uuid::new_v4` and its `Display` form, the hyphenated
/// lower-case text of 8-4-4-4-12 hex digits.
#[verifier::external_body]
pub(crate) fn new_uuid_text() -> (r: String)
    ensures
        is_hyphenated_uuid(r@),
{
    uuid::Uuid::new_v4().to_string()
}

} // verus!
