use vstd::prelude::*;

verus! {

/// Whether `c` is a digit or a lower-case letter from `a` to `f`.
pub open spec fn is_lower_hex(c: char) -> bool {
    ('0' <= c && c <= '9') || ('a' <= c && c <= 'f')
}

/// Whether `s` is a version 7 UUID in its hyphenated lower-case form:
/// hex digits grouped 8-4-4-4-12, the version digit `7` opening the third
/// group, and the RFC 4122 variant (`8`, `9`, `a` or `b`) opening the fourth.
pub open spec fn is_uuid_v7_text(s: Seq<char>) -> bool {
    &&& s.len() == 36
    &&& forall|i: int| 0 <= i < 36 ==> if i == 8 || i == 13 || i == 18 || i == 23 {
        #[trigger] s[i] == '-'
    } else {
        is_lower_hex(s[i])
    }
    &&& s[14] == '7'
    &&& (s[19] == '8' || s[19] == '9' || s[19] == 'a' || s[19] == 'b')
}

/// Relies on chrono::Utc::now: the current wall-clock time as whole seconds
/// since the Unix epoch. It panics on a clock set before the epoch, so a
/// value it returns is not negative.
#[verifier::external_body]
pub(crate) fn now_timestamp() -> (r: i64)
    ensures
        r >= 0,
{
    chrono::Utc::now().timestamp()
}

/// Relies on uuid::Uuid::now_v7 and its `to_string`, which writes the
/// hyphenated lower-case form: a fresh time-ordered version 7 identifier.
#[verifier::external_body]
pub(crate) fn new_device_id() -> (r: String)
    ensures
        is_uuid_v7_text(r@),
{
    uuid::Uuid::now_v7().to_string()
}

/// Relies on uuid::Uuid::now_v7 and `as_u128`: a fresh time-ordered
/// identifier as its 128-bit value. Nothing is known of the value.
#[verifier::external_body]
pub(crate) fn new_message_id() -> (r: u128) {
    uuid::Uuid::now_v7().as_u128()
}

} // verus!
