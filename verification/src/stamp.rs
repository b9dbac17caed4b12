//! What a message is stamped with: a random id, and the time.
use crate::text::digit;
use vstd::prelude::*;

verus! {

/// Whether `c` is a hexadecimal digit in lower case.
pub open spec fn lower_hex(c: char) -> bool {
    digit(c) || ('a' <= c && c <= 'f')
}

/// Whether `s` writes a random (version 4) UUID: groups of 8, 4, 4, 4 and 12
/// hexadecimal digits in lower case with hyphens between them, the third group
/// of which starts with the version, and the fourth with the variant.
pub open spec fn random_uuid(s: Seq<char>) -> bool {
    &&& s.len() == 36
    &&& forall|i: int|
        #![trigger s[i]]
        0 <= i < 36 ==> if i == 8 || i == 13 || i == 18 || i == 23 {
            s[i] == '-'
        } else {
            lower_hex(s[i])
        }
    &&& s[14] == '4'
    &&& s[19] == '8' || s[19] == '9' || s[19] == 'a' || s[19] == 'b'
}

/// Whether `s` has the form of an RFC 3339 time stamp in UTC:
/// `YYYY-MM-DDThh:mm:ssZ`, with a fraction behind the seconds or without.
pub open spec fn utc_stamp(s: Seq<char>) -> bool {
    &&& s.len() >= 20
    &&& forall|i: int|
        #![trigger s[i]]
        0 <= i < 19 ==> if i == 4 || i == 7 {
            s[i] == '-'
        } else if i == 10 {
            s[i] == 'T'
        } else if i == 13 || i == 16 {
            s[i] == ':'
        } else {
            digit(s[i])
        }
    &&& s.len() > 20 ==> s[19] == '.' && s.len() > 21
    &&& forall|i: int| 20 <= i < s.len() - 1 ==> digit(#[trigger] s[i])
    &&& s.last() == 'Z'
}

/// `uuid::Uuid::new_v4`, written as its `Display` writes it. Which of the random
/// UUIDs comes out is up to the operating system, without which the call does not
/// return.
#[verifier::external_body]
fn draw_uuid() -> (r: String)
    ensures
        random_uuid(r@),
{
    uuid::Uuid::new_v4().to_string()
}

/// `time::OffsetDateTime::now_utc`, written by `time::OffsetDateTime::format` as
/// `Rfc3339`, which refuses a year that does not have four digits. What time it
/// is, the operating system says; it has to be one that the `time` crate can
/// represent.
#[verifier::external_body]
fn read_clock() -> (r: Option<String>)
    ensures
        r matches Some(ts) ==> utc_stamp(ts@),
{
    time::OffsetDateTime::now_utc().format(&time::format_description::well_known::Rfc3339).ok()
}

/// A message id: a random UUID.
pub fn new_id() -> (r: String)
    ensures
        random_uuid(r@),
{
    draw_uuid()
}

/// The text that stands for a time by what was written of it: that, or the empty
/// text where it could not be written.
pub fn stamp_text(written: Option<String>) -> (r: String)
    ensures
        r@ == match written {
            Some(ts) => ts@,
            None => Seq::<char>::empty(),
        },
{
    match written {
        Some(ts) => ts,
        None => String::new(),
    }
}

/// The time in UTC as an RFC 3339 time stamp, or the empty text where there is
/// none for it: [`stamp_text`] of what was written of the present time.
pub fn now_rfc3339() -> (r: String)
    ensures
        r@.len() == 0 || utc_stamp(r@),
{
    stamp_text(read_clock())
}

} // verus!
