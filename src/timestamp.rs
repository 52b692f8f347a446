use vstd::prelude::*;

verus! {

pub open spec fn is_digit(c: char) -> bool {
    '0' <= c <= '9'
}

/// `s` follows `pattern`, where each `D` of the pattern stands for one
/// decimal digit and every other character stands for itself.
pub open spec fn follows_pattern(s: Seq<char>, pattern: Seq<char>) -> bool {
    &&& s.len() == pattern.len()
    &&& forall|i: int|
        0 <= i < s.len() ==> if pattern[i] == 'D' {
            is_digit(#[trigger] s[i])
        } else {
            s[i] == pattern[i]
        }
}

/// A year as written in a date: four digits, or, outside 0 to 9999, a sign
/// followed by at least four digits.
pub open spec fn is_year_text(y: Seq<char>) -> bool {
    ||| (y.len() == 4 && forall|i: int| 0 <= i < 4 ==> is_digit(#[trigger] y[i]))
    ||| (y.len() >= 5 && (y[0] == '+' || y[0] == '-') && forall|i: int|
        1 <= i < y.len() ==> is_digit(#[trigger] y[i]))
}

/// What follows the year: month, day, time of day with six fractional
/// digits, and the zero UTC offset.
pub open spec fn utc_micros_tail() -> Seq<char> {
    seq![
        '-', 'D', 'D', '-', 'D', 'D', 'T', 'D', 'D', ':', 'D', 'D', ':', 'D', 'D', '.',
        'D', 'D', 'D', 'D', 'D', 'D', '+', '0', '0', ':', '0', '0',
    ]
}

/// An RFC 3339 date and time in UTC with microsecond precision, such as
/// `2024-05-01T12:30:45.123456+00:00`.
pub open spec fn is_utc_micros_timestamp(s: Seq<char>) -> bool {
    let n = utc_micros_tail().len();
    &&& s.len() >= n + 4
    &&& is_year_text(s.subrange(0, s.len() - n))
    &&& follows_pattern(s.subrange(s.len() - n, s.len() as int), utc_micros_tail())
}

/// Relies on chrono's `From<SystemTime> for DateTime<Utc>`, which reads
/// clocks before 1970 too, and on chrono::DateTime::to_rfc3339_opts with
/// microsecond seconds and no `Z`: the year, `-MM-DDTHH:MM:SS.ffffff` and the
/// offset `+00:00`.
#[verifier::external_body]
fn utc_now_rfc3339_micros() -> (r: String)
    ensures
        is_utc_micros_timestamp(r@),
{
    chrono::DateTime::<chrono::Utc>::from(std::time::SystemTime::now()).to_rfc3339_opts(
        chrono::SecondsFormat::Micros,
        false,
    )
}

/// The whole form of a timestamp whose year has four digits.
pub open spec fn four_digit_year_form() -> Seq<char> {
    seq!['D', 'D', 'D', 'D'] + utc_micros_tail()
}

/// A timestamp whose year is written without a sign, as it is for the years
/// 0 to 9999, is exactly `YYYY-MM-DDTHH:MM:SS.ffffff+00:00`: 32 characters,
/// always UTC, always six fractional digits.
pub proof fn lemma_four_digit_year_form(s: Seq<char>)
    requires
        is_utc_micros_timestamp(s),
        is_digit(s[0]),
    ensures
        s.len() == 32,
        follows_pattern(s, four_digit_year_form()),
{
    let n = utc_micros_tail().len();
    let y = s.subrange(0, s.len() - n);
    let t = s.subrange(s.len() - n, s.len() as int);
    assert(y[0] == s[0]);
    assert(y.len() == 4);
    let p = four_digit_year_form();
    assert forall|i: int| 0 <= i < s.len() implies if p[i] == 'D' {
        is_digit(#[trigger] s[i])
    } else {
        s[i] == p[i]
    } by {
        if i < 4 {
            assert(s[i] == y[i]);
        } else {
            assert(s[i] == t[i - 4]);
            assert(p[i] == utc_micros_tail()[i - 4]);
        }
    }
}

/// The current instant in UTC, rendered in RFC 3339 with six fractional
/// digits.
pub fn timestamp_now() -> (r: String)
    ensures
        is_utc_micros_timestamp(r@),
{
    utc_now_rfc3339_micros()
}

} // verus!
