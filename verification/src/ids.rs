use vstd::prelude::*;
use rand::Rng;

verus! {

/// Whether a character is a lowercase hexadecimal digit.
pub open spec fn is_lower_hex(c: char) -> bool {
    ('0' <= c <= '9') || ('a' <= c <= 'f')
}

/// The hyphenated lowercase text of a version-4 UUID: 36 characters, hyphens at
/// 8, 13, 18 and 23, the version digit `4` at 14, lowercase hex digits elsewhere.
pub open spec fn is_uuid_v4_text(s: Seq<char>) -> bool {
    &&& s.len() == 36
    &&& forall|i: int| 0 <= i < 36 ==> {
        if i == 8 || i == 13 || i == 18 || i == 23 {
            #[trigger] s[i] == '-'
        } else {
            is_lower_hex(s[i])
        }
    }
    &&& s[14] == '4'
}

/// Draws a number with `rand::thread_rng().gen_range(low..=high)`. Claimed: it lies
/// in the range (the range is not empty, so `gen_range` does not panic); which
/// number comes back is chance. Seeding the thread's generator panics where the
/// system's random source fails.
#[verifier::external_body]
pub(crate) fn random_between(low: u32, high: u32) -> (n: u32)
    requires
        low <= high,
    ensures
        low <= n <= high,
{
    rand::thread_rng().gen_range(low..=high)
}

/// Draws `uuid::Uuid::new_v4()` and renders it with `to_string`, which writes the
/// hyphenated lowercase form, with the version digit 4 (`new_v4` sets those bits).
/// Claimed: the shape of that text; its other hex digits are chance.
#[verifier::external_body]
pub(crate) fn new_uuid_text() -> (s: String)
    ensures
        is_uuid_v4_text(s@),
{
    uuid::Uuid::new_v4().to_string()
}

} // verus!
