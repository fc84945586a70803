//! Calls into `chrono` for what the protocol needs of dates and times: the
//! local time of day of an instant, and the parsing of timestamps.

use vstd::prelude::*;
use chrono::{DateTime, Local, Timelike};
use crate::error::FoxError;
use crate::text::{insert_space_before_plus, space_before_plus};

verus! {

/// What `chrono::DateTime::parse_from_str(text, format)` gives for a text and a
/// format: the instant in milliseconds since the Unix epoch, or the message
/// of the parse error.
pub uninterp spec fn chrono_parse_millis(text: Seq<char>, format: Seq<char>) -> Result<i64, Seq<char>>;

/// The earliest instant, in milliseconds since the Unix epoch, that chrono's
/// `DateTime<Utc>` holds: midnight UTC on January 1 of the year -262143, the
/// first day of `NaiveDate::MIN`.
pub open spec fn min_representable_millis() -> int {
    -8_334_601_228_800_000
}

/// The latest instant, in milliseconds since the Unix epoch, that chrono's
/// `DateTime<Utc>` holds: the last millisecond of December 31 of the year
/// 262142, the day of `NaiveDate::MAX`.
pub open spec fn max_representable_millis() -> int {
    8_210_266_876_799_999
}

/// Whether chrono can represent an instant given in milliseconds since the
/// Unix epoch.
pub open spec fn representable_millis(millis: int) -> bool {
    min_representable_millis() <= millis <= max_representable_millis()
}

/// The local time of day (hour, minute) of an instant given in milliseconds
/// since the Unix epoch, as `DateTime::from_timestamp_millis` followed by
/// `with_timezone(&Local)` gives it; `None` when chrono cannot represent the
/// instant.
///
/// `from_timestamp_millis` gives `None` exactly when the day of the instant
/// falls outside `NaiveDate::MIN..=NaiveDate::MAX`, which is what
/// [`representable_millis`] states. `Timelike::hour` and `Timelike::minute`
/// give an hour below 24 and a minute below 60, and read the local time
/// without a check that could panic. Which hour and minute come back depends
/// on the time zone of the machine, so nothing more ties them to the instant;
/// left unsaid too is chrono's panic when the machine's zone data holds no
/// local time type for an instant.
#[verifier::external_body]
pub fn local_time_of_day(millis: i64) -> (r: Option<(u8, u8)>)
    ensures
        r is Some <==> representable_millis(millis as int),
        r matches Some((h, m)) ==> h < 24 && m < 60,
{
    match DateTime::from_timestamp_millis(millis) {
        Some(t) => {
            let local = t.with_timezone(&Local);
            Some((local.hour() as u8, local.minute() as u8))
        },
        None => None,
    }
}

/// The instant of the last minute that a window ending (non-inclusive) at
/// `end` covers: one minute, 60 000 milliseconds, before it; `None` when that
/// instant does not fit in an `i64`.
pub fn window_end_instant(end: i64) -> (r: Option<i64>)
    ensures
        r == (if end >= i64::MIN + 60_000 { Some((end - 60_000) as i64) } else { None::<i64> }),
{
    if end >= i64::MIN + 60_000 {
        Some(end - 60_000)
    } else {
        None
    }
}

/// Whether a text is a date and a time of day as FoxESS writes them:
/// `YYYY-MM-DD HH:MM:SS`, digits where the pattern has letters.
pub open spec fn date_time_text(d: Seq<char>) -> bool {
    &&& d.len() == 19
    &&& forall|i: int| 0 <= i < 19 && i != 4 && i != 7 && i != 10 && i != 13 && i != 16
        ==> '0' <= #[trigger] d[i] <= '9'
    &&& d[4] == '-' && d[7] == '-' && d[10] == ' ' && d[13] == ':' && d[16] == ':'
}

/// Whether a text is a time zone name: one or more ASCII letters, such as
/// `CET` or `CEST`.
pub open spec fn zone_name(z: Seq<char>) -> bool {
    &&& z.len() > 0
    &&& forall|i: int| 0 <= i < z.len() ==> ('A' <= #[trigger] z[i] <= 'Z' || 'a' <= z[i] <= 'z')
}

/// Whether a parse result is the one named.
pub open spec fn parse_result_is(r: Result<i64, String>, p: Result<i64, Seq<char>>) -> bool {
    match (r, p) {
        (Ok(ms), Ok(t)) => ms == t,
        (Err(m), Err(e)) => m@ == e,
        _ => false,
    }
}

/// Parses a date and time with `chrono::DateTime::parse_from_str` and gives the
/// instant in milliseconds since the Unix epoch, or the parse error's message.
///
/// The contract names the result [`chrono_parse_millis`] of the text and the
/// format: the parse depends on them alone. For the format
/// `%Y-%m-%d %H:%M:%S %Z %z` it states one fact more: chrono's `%Z` skips the
/// zone name, every character up to the next whitespace, and sets nothing
/// (`TimezoneName` in chrono's `format/parse.rs`). So once the date and time
/// have been read, a zone name of letters can be replaced by any other without
/// changing what the parse gives; the date and time are read alike either way,
/// and the rest of the text is the same.
#[verifier::external_body]
pub fn parse_datetime_millis(text: &str, format: &str) -> (r: Result<i64, String>)
    ensures
        parse_result_is(r, chrono_parse_millis(text@, format@)),
        format@ == "%Y-%m-%d %H:%M:%S %Z %z"@ ==> forall|d: Seq<char>, z: Seq<char>, w: Seq<char>, o: Seq<char>|
            #![trigger chrono_parse_millis(d + seq![' '] + w + o, format@), zone_name(z)]
            text@ == d + seq![' '] + z + o && date_time_text(d) && zone_name(z) && zone_name(w)
                && 0 < o.len() && o[0] == ' '
            ==> parse_result_is(r, chrono_parse_millis(d + seq![' '] + w + o, format@)),
{
    match DateTime::parse_from_str(text, format) {
        Ok(t) => Ok(t.timestamp_millis()),
        Err(e) => Err(e.to_string()),
    }
}

/// The format of the timestamps in FoxESS history data, once a space has been
/// put before the sign of the offset (`2025-12-03 00:08:51 CET +0100`).
pub open spec fn fox_time_format() -> Seq<char> {
    "%Y-%m-%d %H:%M:%S %Z %z"@
}

/// What reading a FoxESS timestamp gives: the instant in milliseconds since
/// the Unix epoch, or the message of the parse error.
pub open spec fn fox_time_millis(time: Seq<char>) -> Result<i64, Seq<char>> {
    chrono_parse_millis(space_before_plus(time), fox_time_format())
}

/// Converts a date time string in the Fox API format (e.g.
/// `"2025-12-03 00:08:51 CET+0100"`) to milliseconds since the Unix epoch.
///
/// The zone name is not read: the instant comes from the date, the time and
/// the offset, so `CET`, `CEST` or any other name of letters gives the same
/// result.
pub fn cet_to_utc(time: &str) -> (r: Result<i64, FoxError>)
    ensures
        match fox_time_millis(time@) {
            Ok(ms) => r matches Ok(t) && t == ms,
            Err(e) => r matches Err(FoxError::ChronoParseError(m)) && m@ == e,
        },
        forall|d: Seq<char>, z: Seq<char>, w: Seq<char>, o: Seq<char>|
            #![trigger fox_time_millis(d + seq![' '] + w + o), zone_name(z)]
            time@ == d + seq![' '] + z + o && date_time_text(d) && zone_name(z) && zone_name(w)
                && 0 < o.len() && o[0] == '+'
            ==> match fox_time_millis(d + seq![' '] + w + o) {
                Ok(ms) => r matches Ok(t) && t == ms,
                Err(e) => r matches Err(FoxError::ChronoParseError(m)) && m@ == e,
            },
{
    let spaced = insert_space_before_plus(time);
    let format = "%Y-%m-%d %H:%M:%S %Z %z";
    proof {
        reveal_strlit("%Y-%m-%d %H:%M:%S %Z %z");
    }
    let parsed = parse_datetime_millis(spaced.as_str(), format);
    proof {
        assert forall|d: Seq<char>, z: Seq<char>, w: Seq<char>, o: Seq<char>|
            time@ == d + seq![' '] + z + o && date_time_text(d) && zone_name(z) && zone_name(w)
                && 0 < o.len() && o[0] == '+'
            implies parse_result_is(parsed, chrono_parse_millis(
                space_before_plus(d + seq![' '] + w + o), fox_time_format())) by {
            lemma_spaced_zone_text(d, z, o);
            lemma_spaced_zone_text(d, w, o);
            // Both spaced texts are `d`, a zone name, and the same spaced
            // offset; the parse ignores which zone name stands there.
            let so = space_before_plus(o);
            let other = chrono_parse_millis(d + seq![' '] + w + so, format@);
            assert(zone_name(z) && parse_result_is(parsed, other));
        }
    }
    match parsed {
        Ok(ms) => Ok(ms),
        Err(e) => Err(FoxError::ChronoParseError(e)),
    }
}

/// Putting a space before every `+` distributes over concatenation.
proof fn lemma_space_before_plus_concat(a: Seq<char>, b: Seq<char>)
    ensures
        space_before_plus(a + b) == space_before_plus(a) + space_before_plus(b),
    decreases b.len(),
{
    if b.len() == 0 {
        assert(a + b =~= a);
        assert(space_before_plus(b) =~= Seq::<char>::empty());
        assert(space_before_plus(a) + space_before_plus(b) =~= space_before_plus(a));
    } else {
        let b0 = b.drop_last();
        lemma_space_before_plus_concat(a, b0);
        assert((a + b).drop_last() =~= a + b0);
        assert((a + b).last() == b.last());
        if b.last() == '+' {
            assert(space_before_plus(a) + space_before_plus(b)
                =~= space_before_plus(a) + space_before_plus(b0) + seq![' ', '+']);
        } else {
            assert(space_before_plus(a) + space_before_plus(b)
                =~= space_before_plus(a) + space_before_plus(b0) + seq![b.last()]);
        }
    }
}

/// A text without `+` is left as it is.
proof fn lemma_space_before_plus_none(a: Seq<char>)
    requires
        forall|i: int| 0 <= i < a.len() ==> a[i] != '+',
    ensures
        space_before_plus(a) == a,
    decreases a.len(),
{
    if a.len() > 0 {
        lemma_space_before_plus_none(a.drop_last());
        assert(a.drop_last() + seq![a.last()] =~= a);
    }
}

/// A FoxESS timestamp `d z+o`, once spaced, is `d z` followed by a spaced
/// offset that starts with a space.
proof fn lemma_spaced_zone_text(d: Seq<char>, z: Seq<char>, o: Seq<char>)
    requires
        date_time_text(d),
        zone_name(z),
        0 < o.len() && o[0] == '+',
    ensures
        space_before_plus(d + seq![' '] + z + o) == d + seq![' '] + z + space_before_plus(o),
        0 < space_before_plus(o).len() && space_before_plus(o)[0] == ' ',
{
    let head = d + seq![' '] + z;
    assert forall|i: int| 0 <= i < head.len() implies head[i] != '+' by {
        if i < 19 {
            assert(d[i] == head[i]);
        } else if i > 19 {
            assert(z[i - 20] == head[i]);
        }
    }
    lemma_space_before_plus_none(head);
    assert(d + seq![' '] + z + o =~= head + o);
    lemma_space_before_plus_concat(head, o);
    let rest = o.subrange(1, o.len() as int);
    assert(o =~= seq!['+'] + rest);
    lemma_space_before_plus_concat(seq!['+'], rest);
    let plus = seq!['+'];
    assert(plus.len() == 1 && plus.last() == '+');
    assert(plus.drop_last() =~= Seq::<char>::empty());
    assert(space_before_plus(plus.drop_last()) =~= Seq::<char>::empty());
    assert(space_before_plus(plus) =~= seq![' ', '+']);
}

} // verus!
