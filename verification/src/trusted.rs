//! The calls into code that is not verified here: the `regex` and `chrono`
//! crates, and the system clock.  Every contract in
//! this file is believed, not proved.
use vstd::prelude::*;
use crate::model::Moment;
use crate::validate::{card_id_pattern, mac_pattern, user_id_pattern, is_card_id, contains_mac, is_user_id};

verus! {

/// What `regex::Regex::new(pattern)` followed by `is_match(haystack)` gives:
/// `None` when the pattern does not compile, else whether it matches.
pub uninterp spec fn regex_match_result(pattern: Seq<char>, haystack: Seq<char>) -> Option<bool>;

/// Compiles `pattern` with `regex::Regex::new` and runs `Regex::is_match` on
/// `haystack`.  The contract names the result, and for the three patterns
/// this library uses it states what the regex syntax documentation gives:
/// `^` and `$` anchor at the start and end of the haystack, a class such as
/// `[a-fA-F0-9]` matches one character from its ranges, `{n}` repeats exactly
/// `n` times and `*` any number of times, and an unanchored pattern matches
/// when it matches at some position.
#[verifier::external_body]
pub(crate) fn regex_is_match(pattern: &str, haystack: &str) -> (r: Option<bool>)
    ensures
        r == regex_match_result(pattern@, haystack@),
        pattern@ == card_id_pattern() ==> r == Some(is_card_id(haystack@)),
        pattern@ == mac_pattern() ==> r == Some(contains_mac(haystack@)),
        pattern@ == user_id_pattern() ==> r == Some(is_user_id(haystack@)),
{
    match regex::Regex::new(pattern) {
        Ok(re) => Some(re.is_match(haystack)),
        Err(_) => None,
    }
}

/// What `chrono::NaiveDateTime::parse_from_str(text, format)` gives, read as
/// the number of seconds from 1970-01-01 00:00:00 to the parsed date and time
/// (both taken without a time zone); `None` when the text does not parse.
pub uninterp spec fn parsed_timestamp(text: Seq<char>, format: Seq<char>) -> Option<i64>;

/// Parses `text` with `chrono::NaiveDateTime::parse_from_str` and the given
/// strftime-style `format`, and converts the result with
/// `NaiveDateTime::and_utc` and `DateTime::timestamp` into seconds since the
/// epoch.  The result depends on the two arguments alone; the contract names
/// it and says nothing more.
#[verifier::external_body]
pub(crate) fn parse_timestamp(text: &str, format: &str) -> (r: Option<i64>)
    ensures
        r == parsed_timestamp(text@, format@),
{
    match chrono::NaiveDateTime::parse_from_str(text, format) {
        Ok(dt) => Some(dt.and_utc().timestamp()),
        Err(_) => None,
    }
}

/// The earliest second that `chrono::DateTime<Utc>` can hold
/// (`DateTime::<Utc>::MIN_UTC`, January 1 of 262144 BCE).
pub open spec fn earliest_utc_second() -> int {
    -8_334_601_228_800
}

/// The latest second that `chrono::DateTime<Utc>` can hold
/// (`DateTime::<Utc>::MAX_UTC`, December 31 of 262142).
pub open spec fn latest_utc_second() -> int {
    8_210_266_876_799
}

/// Reads the system clock with `std::time::SystemTime::now` and converts it
/// with chrono's `From<SystemTime> for DateTime<Utc>` (which handles times
/// before the epoch), then `DateTime::timestamp` and
/// `DateTime::timestamp_subsec_nanos`.  The value depends on the time of the
/// call; what holds of every value is that the seconds lie within what a
/// `DateTime<Utc>` can hold and the nanoseconds are below one second (the
/// conversion builds the value with `Utc.timestamp_opt(sec, nsec)` from a
/// `Duration`'s whole seconds and sub-second nanoseconds, so no leap second
/// arises).
#[verifier::external_body]
pub(crate) fn utc_now() -> (t: ClockReading)
    ensures
        earliest_utc_second() <= t.moment().secs <= latest_utc_second(),
        t.moment().nanos < 1_000_000_000,
{
    let now = chrono::DateTime::<chrono::Utc>::from(std::time::SystemTime::now());
    ClockReading { moment: Moment { secs: now.timestamp(), nanos: now.timestamp_subsec_nanos() } }
}

/// A reading of the system clock (UTC).  Only `utc_now` makes one: its
/// field is private to this module, so a value of this type is always a
/// moment that the clock gave.
pub struct ClockReading {
    moment: Moment,
}

impl ClockReading {
    /// The moment read.
    pub closed spec fn moment(&self) -> Moment {
        self.moment
    }

    /// The moment read.
    pub fn get(&self) -> (m: Moment)
        ensures
            m == self.moment(),
    {
        self.moment.copy()
    }
}

/// The error type of `anyhow`, carried through opaquely.
#[verifier::external_type_specification]
#[verifier::external_body]
pub struct ExAnyhowError(anyhow::Error);

} // verus!
