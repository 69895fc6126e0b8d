//! Where a new record gets the two things the store assigns to it: its id
//! and the time it was added.

use crate::book::Timestamp;
use vstd::prelude::*;

verus! {

/// A lowercase hexadecimal digit.
pub open spec fn is_lower_hex(c: char) -> bool {
    ('0' <= c && c <= '9') || ('a' <= c && c <= 'f')
}

/// The places of the four hyphens in the textual form of a UUID.
pub open spec fn is_hyphen_place(i: int) -> bool {
    i == 8 || i == 13 || i == 18 || i == 23
}

/// The shape of a record id: a random (version 4) UUID in its hyphenated
/// lowercase form, `xxxxxxxx-xxxx-4xxx-yxxx-xxxxxxxxxxxx`, where `y` is one
/// of `8`, `9`, `a`, `b`.
pub open spec fn is_book_id(s: Seq<char>) -> bool {
    &&& s.len() == 36
    &&& forall|i: int|
        0 <= i < 36 ==> if is_hyphen_place(i) {
            #[trigger] s[i] == '-'
        } else {
            is_lower_hex(s[i])
        }
    &&& s[14] == '4'
    &&& (s[19] == '8' || s[19] == '9' || s[19] == 'a' || s[19] == 'b')
}

/// A timestamp whose nanoseconds stay within their second.
pub open spec fn is_within_second(t: Timestamp) -> bool {
    t.nanos < 1_000_000_000
}

/// A fresh record id.
///
/// Trusted: calls `uuid::Uuid::new_v4` and formats the result with the
/// `Display` impl of `uuid::Uuid`. The contract claims only the shape of the
/// text, which holds of every draw: `new_v4` fixes the version nibble to 4
/// and the two variant bits to `10`, and `Display` writes the hyphenated
/// lowercase form, 36 characters long. Nothing is claimed about which id
/// comes back; in particular two calls are not known to differ. The call
/// aborts if the operating system cannot supply random bytes.
#[verifier::external_body]
pub(crate) fn fresh_id() -> (id: String)
    ensures
        is_book_id(id@),
{
    uuid::Uuid::new_v4().to_string()
}

/// The current time.
///
/// Trusted: calls `chrono::Utc::now` and reads the result back with
/// `DateTime::timestamp` and `DateTime::timestamp_subsec_nanos`. `Utc::now`
/// builds its value from the system clock's whole seconds and sub-second
/// nanoseconds since the Unix epoch, so the nanoseconds are below one
/// billion. Nothing else is claimed: the clock may stand still or step back
/// between two calls. The call aborts if the system clock is set before 1970.
#[verifier::external_body]
pub(crate) fn now() -> (t: Timestamp)
    ensures
        is_within_second(t),
{
    let now = chrono::Utc::now();
    Timestamp { secs: now.timestamp(), nanos: now.timestamp_subsec_nanos() }
}

} // verus!
