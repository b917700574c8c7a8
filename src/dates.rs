//! Contest end dates: the last date written in a contest description, and
//! whether a contest is still open.
use vstd::prelude::*;
use crate::text::texts_of;

verus! {

/// An English month name, a day, a year and a 24-hour time, labelled UTC.
pub const END_DATE_PATTERN: &'static str = "\\b(January|February|March|April|May|June|July|August|September|October|November|December)\\s+\\d{1,2},\\s+\\d{4}\\s+\\d{2}:\\d{2}\\s+UTC\\b";

/// The layout in which a matched date is read.
pub const END_DATE_FORMAT: &'static str = "%B %d, %Y %H:%M %Z";

/// Whether `pattern` is accepted by `regex::Regex::new`.
pub uninterp spec fn regex_compiles(pattern: Seq<char>) -> bool;

/// The texts of the successive non-overlapping matches that
/// `regex::Regex::find_iter` reports for `pattern` in `text`.
pub uninterp spec fn regex_match_texts(pattern: Seq<char>, text: Seq<char>) -> Seq<Seq<char>>;

/// The instant, in seconds since the Unix epoch, that
/// `chrono::NaiveDateTime::parse_from_str` reads from `text` under `format`,
/// taken as UTC; `None` where it refuses the text.
pub uninterp spec fn utc_seconds_of(text: Seq<char>, format: Seq<char>) -> Option<i64>;

/// Relies on `regex::Regex::new` (whether the pattern compiles) and on
/// `regex::Regex::find_iter` (the matched texts, in order of position).
#[verifier::external_body]
fn find_matches(pattern: &str, text: &str) -> (r: Option<Vec<String>>)
    ensures
        r.is_some() == regex_compiles(pattern@),
        r.is_some() ==> texts_of(r->Some_0@) == regex_match_texts(pattern@, text@),
{
    match regex::Regex::new(pattern) {
        Ok(re) => Some(re.find_iter(text).map(|m| m.as_str().to_string()).collect()),
        Err(_) => None,
    }
}

/// Relies on `chrono::NaiveDateTime::parse_from_str`, read as a UTC instant
/// and counted in seconds by `chrono::DateTime::timestamp`.
#[verifier::external_body]
fn parse_utc_seconds(text: &str, format: &str) -> (r: Option<i64>)
    ensures
        r == utc_seconds_of(text@, format@),
{
    chrono::NaiveDateTime::parse_from_str(text, format).ok().map(|d| d.and_utc().timestamp())
}

/// The end date read from a list of matched date texts: the last one alone
/// counts.
pub open spec fn last_date_of(matches: Seq<Seq<char>>) -> Option<i64> {
    if matches.len() == 0 {
        None
    } else {
        utc_seconds_of(matches.last(), END_DATE_FORMAT@)
    }
}

/// The end date of a description, given the dates found in it in order.
pub open spec fn end_date_of(text: Seq<char>) -> Option<i64> {
    if regex_compiles(END_DATE_PATTERN@) {
        last_date_of(regex_match_texts(END_DATE_PATTERN@, text))
    } else {
        None
    }
}

/// The end date of a description when it lies strictly after `now`.
pub open spec fn upcoming_end_of(text: Seq<char>, now: i64) -> Option<i64> {
    match end_date_of(text) {
        Some(end) => if now < end { Some(end) } else { None },
        None => None,
    }
}

/// A description in which no date is found has no end date.
pub proof fn lemma_no_date_found(text: Seq<char>)
    requires
        regex_match_texts(END_DATE_PATTERN@, text).len() == 0,
    ensures
        end_date_of(text).is_none(),
{
}

/// Only the last date found counts: two descriptions whose last found dates
/// are the same text have the same end date, whatever comes before.
pub proof fn lemma_last_date_decides(a: Seq<char>, b: Seq<char>)
    requires
        regex_match_texts(END_DATE_PATTERN@, a).len() > 0,
        regex_match_texts(END_DATE_PATTERN@, b).len() > 0,
        regex_match_texts(END_DATE_PATTERN@, a).last() == regex_match_texts(END_DATE_PATTERN@, b).last(),
    ensures
        end_date_of(a) == end_date_of(b),
{
}

/// Once the pattern compiles, the end date of a description in which dates
/// are found is what the last of them reads as.
pub proof fn lemma_end_date_is_last_match(text: Seq<char>)
    requires
        regex_compiles(END_DATE_PATTERN@),
        regex_match_texts(END_DATE_PATTERN@, text).len() > 0,
    ensures
        end_date_of(text) == utc_seconds_of(regex_match_texts(END_DATE_PATTERN@, text).last(), END_DATE_FORMAT@),
{
}

/// A contest whose end date is exactly `now` is already over.
pub proof fn lemma_ending_now_is_over(text: Seq<char>, now: i64)
    requires
        end_date_of(text) == Some(now),
    ensures
        upcoming_end_of(text, now).is_none(),
{
}

/// Reads the last of the given date texts; `None` when there is none or
/// when it does not parse.
pub fn last_date(matches: &Vec<String>) -> (r: Option<i64>)
    ensures
        r == last_date_of(texts_of(matches@)),
{
    let n = matches.len();
    if n == 0 {
        None
    } else {
        let last = &matches[n - 1];
        parse_utc_seconds(last.as_str(), END_DATE_FORMAT)
    }
}

/// Finds every date in `contest_info` and reads the last one, in seconds
/// since the Unix epoch (UTC).
pub fn extract_end_date(contest_info: &str) -> (r: Option<i64>)
    ensures
        r == end_date_of(contest_info@),
        regex_match_texts(END_DATE_PATTERN@, contest_info@).len() == 0 ==> r.is_none(),
{
    match find_matches(END_DATE_PATTERN, contest_info) {
        Some(matches) => last_date(&matches),
        None => None,
    }
}

/// A contest is still open when its end lies strictly after `now`; one that
/// ends exactly now is over.
pub fn is_upcoming(end: i64, now: i64) -> (r: bool)
    ensures
        r == (now < end),
{
    now < end
}

/// The end date of a contest description when it lies strictly after `now`.
pub fn upcoming_end_date(contest_info: &str, now: i64) -> (r: Option<i64>)
    ensures
        r == upcoming_end_of(contest_info@, now),
{
    match extract_end_date(contest_info) {
        Some(end) => if is_upcoming(end, now) { Some(end) } else { None },
        None => None,
    }
}

} // verus!
