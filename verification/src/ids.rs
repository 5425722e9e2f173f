use vstd::prelude::*;

verus! {

/// A decimal digit.
pub open spec fn is_digit(c: char) -> bool {
    '0' <= c && c <= '9'
}

/// A lowercase hexadecimal digit.
pub open spec fn is_lower_hex(c: char) -> bool {
    is_digit(c) || ('a' <= c && c <= 'f')
}

/// The hyphenated text of a random (version 4, RFC 4122 variant) UUID:
/// `xxxxxxxx-xxxx-4xxx-yxxx-xxxxxxxxxxxx`, in lowercase hexadecimal, where
/// `y` is one of `8`, `9`, `a`, `b`.
pub open spec fn is_uuid_v4_text(s: Seq<char>) -> bool {
    &&& s.len() == 36
    &&& forall|i: int| 0 <= i < 36 ==> (if i == 8 || i == 13 || i == 18 || i == 23 {
        #[trigger] s[i] == '-'
    } else {
        is_lower_hex(s[i])
    })
    &&& s[14] == '4'
    &&& (s[19] == '8' || s[19] == '9' || s[19] == 'a' || s[19] == 'b')
}

/// The year of an RFC 3339 date: four digits, or a sign and at least four
/// digits for a year outside 0 to 9999.
pub open spec fn is_year_text(y: Seq<char>) -> bool {
    ||| y.len() == 4 && forall|i: int| 0 <= i < 4 ==> is_digit(#[trigger] y[i])
    ||| y.len() >= 5 && (y[0] == '+' || y[0] == '-') && forall|i: int| 1 <= i < y.len() ==> is_digit(#[trigger] y[i])
}

/// An RFC 3339 time in UTC as `to_rfc3339` writes it, with a fraction of
/// `f` characters (none, or a dot and 3, 6 or 9 digits):
/// `<year>-MM-DDThh:mm:ss<fraction>+00:00`.
pub open spec fn is_utc_timestamp_with_fraction(s: Seq<char>, f: int) -> bool {
    let t = s.len() - 15 - f;
    &&& t >= 10
    &&& is_year_text(s.subrange(0, t - 6))
    &&& s[t - 6] == '-' && is_digit(s[t - 5]) && is_digit(s[t - 4])
    &&& s[t - 3] == '-' && is_digit(s[t - 2]) && is_digit(s[t - 1])
    &&& s[t] == 'T'
    &&& is_digit(s[t + 1]) && is_digit(s[t + 2]) && s[t + 3] == ':'
    &&& is_digit(s[t + 4]) && is_digit(s[t + 5]) && s[t + 6] == ':'
    &&& is_digit(s[t + 7]) && is_digit(s[t + 8])
    &&& (f > 0 ==> s[t + 9] == '.' && forall|i: int| t + 10 <= i < t + 9 + f ==> is_digit(#[trigger] s[i]))
    &&& s.subrange(s.len() - 6, s.len() as int) == "+00:00"@
}

/// An RFC 3339 time in UTC as `to_rfc3339` writes it.
pub open spec fn is_utc_timestamp(s: Seq<char>) -> bool {
    exists|f: int| (f == 0 || f == 4 || f == 7 || f == 10) && #[trigger] is_utc_timestamp_with_fraction(s, f)
}

/// The attachment ids of a message differ from one another and from the
/// message's own id.
pub open spec fn ids_distinct(id: Seq<char>, attachment_ids: Seq<Seq<char>>) -> bool {
    &&& forall|i: int| 0 <= i < attachment_ids.len() ==> #[trigger] attachment_ids[i] != id
    &&& forall|i: int, j: int| 0 <= i < j < attachment_ids.len() ==> #[trigger] attachment_ids[i] != #[trigger] attachment_ids[j]
}

/// Calls `uuid::Uuid::new_v4` and writes the id with its `Display` impl.
/// Claimed: the text is the hyphenated lowercase form of a version 4,
/// RFC 4122 variant UUID (`new_v4` sets those bits, `Display` writes that
/// form). Which id comes out is random and is not named.
#[verifier::external_body]
pub(crate) fn new_id() -> (id: String)
    ensures
        is_uuid_v4_text(id@),
{
    uuid::Uuid::new_v4().to_string()
}

/// Calls `chrono::Utc::now` and writes the time with `to_rfc3339`.
/// Claimed: the text has the shape that `to_rfc3339` writes for a UTC time
/// (offset written `+00:00`, fraction of the second only where it is not
/// zero). Which time it holds is the machine's clock and is not claimed.
#[verifier::external_body]
pub(crate) fn now_rfc3339() -> (time: String)
    ensures
        is_utc_timestamp(time@),
{
    chrono::Utc::now().to_rfc3339()
}

} // verus!
