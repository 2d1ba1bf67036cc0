//! Fresh ids and time stamps for new records.

use vstd::prelude::*;

verus! {

/// A lower-case hexadecimal digit.
pub open spec fn is_hex_digit(c: char) -> bool {
    (48 <= c as u32 <= 57) || (97 <= c as u32 <= 102)
}

/// The shape of a fresh id: 36 characters, hyphens at the positions 8, 13, 18
/// and 23, lower-case hexadecimal digits at all others.
pub open spec fn is_hyphenated_id(s: Seq<char>) -> bool {
    &&& s.len() == 36
    &&& forall|i: int|
        0 <= i < 36 ==> if i == 8 || i == 13 || i == 18 || i == 23 {
            #[trigger] s[i] == '-'
        } else {
            is_hex_digit(s[i])
        }
}

/// None of `ids` has the shape of a fresh id, so that no fresh id is among them.
pub open spec fn none_fresh(ids: Seq<Seq<char>>) -> bool {
    forall|k: int| 0 <= k < ids.len() ==> !is_hyphenated_id(#[trigger] ids[k])
}

/// Calls `uuid::Uuid::new_v4` and renders the id by its `Display`.
///
/// Believed, not proved: the text has the hyphenated lower-case form. Which id
/// comes back is left open; two calls may give any two ids. The call panics
/// where the operating system hands out no random bytes.
#[verifier::external_body]
pub(crate) fn fresh_id() -> (r: String)
    ensures
        is_hyphenated_id(r@),
{
    uuid::Uuid::new_v4().to_string()
}

/// Calls `chrono::Utc::now` and renders the moment by `DateTime::to_rfc3339`.
///
/// Nothing is claimed of the text: it depends on the clock.
#[verifier::external_body]
pub(crate) fn time_stamp() -> (r: String) {
    chrono::Utc::now().to_rfc3339()
}

} // verus!
