//! Working ids: the random tokens that tie an install attempt to the request
//! that the secondary runtime sees for it.

use vstd::prelude::*;

verus! {

/// A lower-case hexadecimal digit.
pub open spec fn is_lower_hex(c: char) -> bool {
    ('0' <= c && c <= '9') || ('a' <= c && c <= 'f')
}

/// The textual form of a random (version 4) UUID: 36 characters, hyphens after
/// the 8th, 12th, 16th and 20th digit, lower-case hexadecimal digits
/// elsewhere, the version digit `4` and a variant digit of `8`, `9`, `a` or
/// `b`.
pub open spec fn is_working_id(id: Seq<char>) -> bool {
    &&& id.len() == 36
    &&& forall|i: int|
        0 <= i < 36 ==> if i == 8 || i == 13 || i == 18 || i == 23 {
            #[trigger] id[i] == '-'
        } else {
            is_lower_hex(id[i])
        }
    &&& id[14] == '4'
    &&& (id[19] == '8' || id[19] == '9' || id[19] == 'a' || id[19] == 'b')
}

/// `uuid::Uuid::new_v4`, printed with its `Display`: a fresh random UUID in
/// hyphenated lower-case form. Which one is up to the operating system's
/// random source, so two calls may differ; the call aborts if that source
/// cannot be read.
#[verifier::external_body]
pub(crate) fn new_working_id() -> (id: String)
    ensures
        is_working_id(id@),
{
    uuid::Uuid::new_v4().to_string()
}

} // verus!
