//! Values that are drawn at random. These are the only places where the
//! library calls the `rand` and `uuid` crates. Their contracts are trusted:
//! each states what holds of every value that the call can return, and
//! nothing about which value comes.

use crate::text::is_alnum_byte;
use vstd::prelude::*;

verus! {

/// A lower-case hexadecimal digit.
pub open spec fn is_lower_hex(c: char) -> bool {
    ('0' <= c && c <= '9') || ('a' <= c && c <= 'f')
}

/// The shape of a version 4 identifier in hyphenated lower-case form:
/// 36 characters, hyphens after the groups of 8, 4, 4 and 4 hexadecimal
/// digits, the version digit `4` and a variant digit among `8 9 a b`.
pub open spec fn is_hyphenated_v4(s: Seq<char>) -> bool {
    &&& s.len() == 36
    &&& forall|i: int|
        0 <= i < 36 ==> if i == 8 || i == 13 || i == 18 || i == 23 {
            #[trigger] s[i] == '-'
        } else {
            is_lower_hex(s[i])
        }
    &&& s[14] == '4'
    &&& (s[19] == '8' || s[19] == '9' || s[19] == 'a' || s[19] == 'b')
}

/// `rand::Rng::gen_range` over `low..=high` on the generator of the calling
/// thread. Trusted: the value lies in the range. The call panics on an empty
/// range, which `requires` leaves out.
#[verifier::external_body]
pub(crate) fn random_between(low: u64, high: u64) -> (r: u64)
    requires
        low <= high,
    ensures
        low <= r <= high,
{
    rand::Rng::gen_range(&mut rand::thread_rng(), low..=high)
}

/// `rand::Rng::sample` of `rand::distributions::Alphanumeric` on the
/// generator of the calling thread. Trusted: the byte is an ASCII letter of
/// either case or an ASCII digit.
#[verifier::external_body]
pub(crate) fn sample_alphanumeric() -> (b: u8)
    ensures
        is_alnum_byte(b),
{
    rand::Rng::sample(&mut rand::thread_rng(), rand::distributions::Alphanumeric)
}

/// `uuid::Uuid::new_v4`, written out by `to_hyphenated().encode_lower(..)`
/// into a buffer of `Uuid::encode_buffer()`. Trusted: the text has the shape
/// of a hyphenated lower-case version 4 identifier. That two calls give
/// different texts is likely and not promised.
#[verifier::external_body]
pub(crate) fn random_uuid() -> (id: String)
    ensures
        is_hyphenated_v4(id@),
{
    let mut buffer = uuid::Uuid::encode_buffer();
    String::from(&*uuid::Uuid::new_v4().to_hyphenated().encode_lower(&mut buffer))
}

} // verus!
