//! Date, time and datetime values and their text codecs.
//!
//! The host has no native temporal storage class: temporal values are
//! stored as text (in one of several historical renderings), as epoch
//! seconds, or as day numbers. Decoding text tries the canonical
//! RFC 3339 form first and then a fixed ordered list of fallback
//! formats; integer-classified datetimes are read as Unix epoch seconds.
//! (Real-classified datetimes are Julian day numbers, a floating-point
//! conversion that is handled outside this crate.) The actual calendar
//! arithmetic — parsing and formatting — is delegated to the outside
//! time library through trusted wrappers; everything around it, in
//! particular which parse attempt wins, is verified.

use vstd::prelude::*;
use vstd::string::*;

use chrono::Datelike;
use chrono::Timelike;

use crate::error::{D1Error, EncodeError};
use crate::value::{HostValue, SpecValue};

verus! {

/// A calendar date.
#[derive(Debug, Clone, Copy, PartialEq, Eq, Structural)]
pub struct DateValue {
    pub year: i32,
    pub month: u8,
    pub day: u8,
}

/// A time of day with nanosecond precision.
#[derive(Debug, Clone, Copy, PartialEq, Eq, Structural)]
pub struct TimeValue {
    pub hour: u8,
    pub minute: u8,
    pub second: u8,
    pub nanosecond: u32,
}

/// A naive timestamp: whole seconds since the Unix epoch, with the
/// subsecond nanoseconds. Decoding a leap second can yield `nanos` of a
/// full second or more; such a value cannot be re-encoded (the encoders
/// demand a fraction below one second).
#[derive(Debug, Clone, Copy, PartialEq, Eq, Structural)]
pub struct DateTimeValue {
    pub secs: i64,
    pub nanos: u32,
}

/// What the outside time library's RFC 3339 parser returns for a text:
/// the naive-local seconds and nanoseconds, or nothing.
pub uninterp spec fn rfc3339_dt_of(s: Seq<char>) -> Option<(i64, u32)>;

/// What the outside library's offset-aware format parser returns.
pub uninterp spec fn strptime_dt_tz_of(fmt: Seq<char>, s: Seq<char>) -> Option<(i64, u32)>;

/// What the outside library's naive datetime format parser returns.
pub uninterp spec fn strptime_dt_naive_of(fmt: Seq<char>, s: Seq<char>) -> Option<(i64, u32)>;

/// What the outside library's date format parser returns: year, month,
/// day.
pub uninterp spec fn date_parse_of(fmt: Seq<char>, s: Seq<char>) -> Option<(i32, u8, u8)>;

/// What the outside library's time format parser returns: hour, minute,
/// second, nanosecond.
pub uninterp spec fn time_parse_of(fmt: Seq<char>, s: Seq<char>) -> Option<(u8, u8, u8, u32)>;

/// The canonical text rendering of a naive timestamp under the
/// space-separated format.
pub uninterp spec fn dt_text_of(secs: i64, nanos: u32) -> Seq<char>;

/// Whether the outside library can represent this timestamp as a
/// datetime: its second count must land within the library's calendar
/// range. A pure function of the arguments.
pub uninterp spec fn dt_representable(secs: i64, nanos: u32) -> bool;

/// Proleptic Gregorian leap years.
pub open spec fn spec_leap_year(y: int) -> bool {
    y % 4 == 0 && (y % 100 != 0 || y % 400 == 0)
}

/// Days in a month of the proleptic Gregorian calendar.
pub open spec fn spec_days_in_month(y: int, m: int) -> int {
    if m == 2 {
        if spec_leap_year(y) {
            29
        } else {
            28
        }
    } else if m == 4 || m == 6 || m == 9 || m == 11 {
        30
    } else {
        31
    }
}

/// The calendar dates the outside library can represent: a real
/// proleptic Gregorian date within its supported year range.
pub open spec fn spec_valid_date(year: i32, month: u8, day: u8) -> bool {
    &&& -262143 <= year <= 262142
    &&& 1 <= month <= 12
    &&& 1 <= day <= spec_days_in_month(year as int, month as int)
}

/// The times of day with a sub-second fraction below one second.
pub open spec fn spec_valid_time(hour: u8, minute: u8, second: u8, nanosecond: u32) -> bool {
    hour < 24 && minute < 60 && second < 60 && nanosecond < 1_000_000_000
}

/// The canonical text rendering of a date.
pub uninterp spec fn date_text_of(year: i32, month: u8, day: u8) -> Seq<char>;

/// The canonical text rendering of a time of day.
pub uninterp spec fn time_text_of(hour: u8, minute: u8, second: u8, nanosecond: u32) -> Seq<char>;

/// Relies on chrono's `DateTime::parse_from_rfc3339`; the result depends
/// on the text alone.
#[verifier::external_body]
fn parse_rfc3339(s: &str) -> (r: Option<DateTimeValue>)
    ensures
        match r {
            Some(d) => rfc3339_dt_of(s@) == Some((d.secs, d.nanos)),
            None => rfc3339_dt_of(s@) is None,
        },
{
    match chrono::DateTime::parse_from_rfc3339(s) {
        Ok(d) => {
            let n = d.naive_local().and_utc();
            Some(DateTimeValue { secs: n.timestamp(), nanos: n.timestamp_subsec_nanos() })
        },
        Err(_) => None,
    }
}

/// Relies on chrono's `DateTime::parse_from_str`; the result depends on
/// the format and the text alone. The naive-local instant is taken,
/// matching how text-stored datetimes are read back.
#[verifier::external_body]
fn parse_datetime_tz(s: &str, fmt: &str) -> (r: Option<DateTimeValue>)
    ensures
        match r {
            Some(d) => strptime_dt_tz_of(fmt@, s@) == Some((d.secs, d.nanos)),
            None => strptime_dt_tz_of(fmt@, s@) is None,
        },
{
    match chrono::DateTime::parse_from_str(s, fmt) {
        Ok(d) => {
            let n = d.naive_local().and_utc();
            Some(DateTimeValue { secs: n.timestamp(), nanos: n.timestamp_subsec_nanos() })
        },
        Err(_) => None,
    }
}

/// Relies on chrono's `NaiveDateTime::parse_from_str`; the result
/// depends on the format and the text alone.
#[verifier::external_body]
fn parse_datetime_naive(s: &str, fmt: &str) -> (r: Option<DateTimeValue>)
    ensures
        match r {
            Some(d) => strptime_dt_naive_of(fmt@, s@) == Some((d.secs, d.nanos)),
            None => strptime_dt_naive_of(fmt@, s@) is None,
        },
{
    match chrono::NaiveDateTime::parse_from_str(s, fmt) {
        Ok(d) => {
            let n = d.and_utc();
            Some(DateTimeValue { secs: n.timestamp(), nanos: n.timestamp_subsec_nanos() })
        },
        Err(_) => None,
    }
}

/// Relies on chrono's `NaiveDate::parse_from_str`; the result depends on
/// the format and the text alone.
#[verifier::external_body]
fn parse_date_fmt(s: &str, fmt: &str) -> (r: Option<DateValue>)
    ensures
        match r {
            Some(d) => date_parse_of(fmt@, s@) == Some((d.year, d.month, d.day)),
            None => date_parse_of(fmt@, s@) is None,
        },
{
    match chrono::NaiveDate::parse_from_str(s, fmt) {
        Ok(d) => Some(
            DateValue { year: d.year(), month: d.month() as u8, day: d.day() as u8 },
        ),
        Err(_) => None,
    }
}

/// Relies on chrono's `NaiveTime::parse_from_str`; the result depends on
/// the format and the text alone.
#[verifier::external_body]
fn parse_time_fmt(s: &str, fmt: &str) -> (r: Option<TimeValue>)
    ensures
        match r {
            Some(t) => time_parse_of(fmt@, s@) == Some(
                (t.hour, t.minute, t.second, t.nanosecond),
            ),
            None => time_parse_of(fmt@, s@) is None,
        },
{
    match chrono::NaiveTime::parse_from_str(s, fmt) {
        Ok(t) => Some(
            TimeValue {
                hour: t.hour() as u8,
                minute: t.minute() as u8,
                second: t.second() as u8,
                nanosecond: t.nanosecond(),
            },
        ),
        Err(_) => None,
    }
}

/// Relies on chrono's `DateTime::from_timestamp` and datetime
/// formatting: the output is the canonical rendering under the
/// space-separated format. It carries neither a date/time separator
/// letter nor a zone offset, so `parse_from_rfc3339` (which demands
/// both) and `DateTime::parse_from_str` (which demands an offset item in
/// the format) reject it, while `NaiveDateTime::parse_from_str` under
/// the same format reads the value back.
#[verifier::external_body]
fn format_datetime_text(secs: i64, nanos: u32) -> (r: Option<String>)
    requires
        nanos < 1_000_000_000,
    ensures
        r is Some <==> dt_representable(secs, nanos),
        r matches Some(t) ==> ({
            &&& t@ == dt_text_of(secs, nanos)
            &&& rfc3339_dt_of(t@) is None
            &&& strptime_dt_tz_of("%F %T%.f"@, t@) is None
            &&& strptime_dt_naive_of("%F %T%.f"@, t@) == Some((secs, nanos))
        }),
{
    let d = chrono::DateTime::<chrono::Utc>::from_timestamp(secs, nanos)?;
    Some(d.naive_utc().format("%F %T%.f").to_string())
}

/// Relies on chrono's `NaiveDate::from_ymd_opt` and date formatting: the
/// output is the canonical `year-month-day` rendering, which
/// `NaiveDate::parse_from_str` under the same format reads back
/// unchanged.
#[verifier::external_body]
fn format_date_text(year: i32, month: u8, day: u8) -> (r: Option<String>)
    ensures
        r is Some <==> spec_valid_date(year, month, day),
        r matches Some(t) ==> ({
            &&& t@ == date_text_of(year, month, day)
            &&& date_parse_of("%F"@, t@) == Some((year, month, day))
        }),
{
    let d = chrono::NaiveDate::from_ymd_opt(year, month as u32, day as u32)?;
    Some(d.format("%F").to_string())
}

/// Relies on chrono's `NaiveTime::from_hms_nano_opt` and time
/// formatting: the output is the canonical rendering with an optional
/// fraction. The first fallback format demands a literal `.f` after the
/// seconds and so rejects it, while `NaiveTime::parse_from_str` under
/// the formatting format reads the value back.
#[verifier::external_body]
fn format_time_text(hour: u8, minute: u8, second: u8, nanosecond: u32) -> (r: Option<String>)
    requires
        nanosecond < 1_000_000_000,
    ensures
        r is Some <==> (hour < 24 && minute < 60 && second < 60),
        r matches Some(t) ==> ({
            &&& t@ == time_text_of(hour, minute, second, nanosecond)
            &&& time_parse_of("%T.f"@, t@) is None
            &&& time_parse_of("%T%.f"@, t@) == Some((hour, minute, second, nanosecond))
        }),
{
    let t = chrono::NaiveTime::from_hms_nano_opt(
        hour as u32,
        minute as u32,
        second as u32,
        nanosecond,
    )?;
    Some(t.format("%T%.f").to_string())
}

/// The fixed ordered list of fallback datetime formats.
pub open spec fn spec_datetime_formats() -> Seq<Seq<char>> {
    seq![
        "%F %T%.f"@,
        "%F %R"@,
        "%F %RZ"@,
        "%F %R%:z"@,
        "%F %T%.fZ"@,
        "%F %T%.f%:z"@,
        "%FT%R"@,
        "%FT%RZ"@,
        "%FT%R%:z"@,
        "%FT%T%.f"@,
        "%FT%T%.fZ"@,
        "%FT%T%.f%:z"@,
    ]
}

/// The fixed ordered list of time formats.
pub open spec fn spec_time_formats() -> Seq<Seq<char>> {
    seq!["%T.f"@, "%T%.f"@, "%R"@, "%RZ"@, "%T%.fZ"@, "%R%:z"@, "%T%.f%:z"@]
}

/// The first successful parse along the fallback chain: for each format
/// the offset-aware attempt comes before the naive one.
pub open spec fn spec_dt_chain(fmts: Seq<Seq<char>>, s: Seq<char>) -> Option<(i64, u32)>
    decreases fmts.len(),
{
    if fmts.len() == 0 {
        None::<(i64, u32)>
    } else if strptime_dt_tz_of(fmts.first(), s) is Some {
        strptime_dt_tz_of(fmts.first(), s)
    } else if strptime_dt_naive_of(fmts.first(), s) is Some {
        strptime_dt_naive_of(fmts.first(), s)
    } else {
        spec_dt_chain(fmts.drop_first(), s)
    }
}

/// What decoding a text-classified datetime yields: the RFC 3339 parse
/// when it succeeds, otherwise the first success along the fallback
/// chain.
pub open spec fn spec_decode_datetime_text(s: Seq<char>) -> Option<(i64, u32)> {
    if rfc3339_dt_of(s) is Some {
        rfc3339_dt_of(s)
    } else {
        spec_dt_chain(spec_datetime_formats(), s)
    }
}

/// The first successful parse along the time format chain.
pub open spec fn spec_time_chain(fmts: Seq<Seq<char>>, s: Seq<char>) -> Option<(u8, u8, u8, u32)>
    decreases fmts.len(),
{
    if fmts.len() == 0 {
        None::<(u8, u8, u8, u32)>
    } else if time_parse_of(fmts.first(), s) is Some {
        time_parse_of(fmts.first(), s)
    } else {
        spec_time_chain(fmts.drop_first(), s)
    }
}

/// What decoding a text-classified time yields.
pub open spec fn spec_decode_time_text(s: Seq<char>) -> Option<(u8, u8, u8, u32)> {
    spec_time_chain(spec_time_formats(), s)
}

/// The fallback datetime formats as they are tried.
fn datetime_formats() -> (r: Vec<&'static str>)
    ensures
        r.deep_view() == spec_datetime_formats(),
{
    let mut v: Vec<&'static str> = Vec::new();
    v.push("%F %T%.f");
    v.push("%F %R");
    v.push("%F %RZ");
    v.push("%F %R%:z");
    v.push("%F %T%.fZ");
    v.push("%F %T%.f%:z");
    v.push("%FT%R");
    v.push("%FT%RZ");
    v.push("%FT%R%:z");
    v.push("%FT%T%.f");
    v.push("%FT%T%.fZ");
    v.push("%FT%T%.f%:z");
    proof {
        assert(v.deep_view() =~~= spec_datetime_formats());
    }
    v
}

/// The time formats as they are tried.
fn time_formats() -> (r: Vec<&'static str>)
    ensures
        r.deep_view() == spec_time_formats(),
{
    let mut v: Vec<&'static str> = Vec::new();
    v.push("%T.f");
    v.push("%T%.f");
    v.push("%R");
    v.push("%RZ");
    v.push("%T%.fZ");
    v.push("%R%:z");
    v.push("%T%.f%:z");
    proof {
        assert(v.deep_view() =~~= spec_time_formats());
    }
    v
}

impl DateTimeValue {
    /// Decodes a text-stored datetime through the parse chain.
    pub fn decode_text(s: &str) -> (r: Option<DateTimeValue>)
        ensures
            match spec_decode_datetime_text(s@) {
                Some(p) => r matches Some(d) && d.secs == p.0 && d.nanos == p.1,
                None => r is None,
            },
    {
        if let Some(d) = parse_rfc3339(s) {
            return Some(d);
        }
        let fmts = datetime_formats();
        let n = fmts.len();
        let mut i: usize = 0;
        proof {
            assert(spec_datetime_formats().skip(0) =~= spec_datetime_formats());
        }
        while i < n
            invariant
                i <= n,
                n == fmts@.len(),
                fmts.deep_view() == spec_datetime_formats(),
                rfc3339_dt_of(s@) is None,
                spec_dt_chain(spec_datetime_formats(), s@) == spec_dt_chain(
                    spec_datetime_formats().skip(i as int),
                    s@,
                ),
            decreases n - i,
        {
            let f = fmts[i];
            proof {
                assert(fmts.deep_view()[i as int] == fmts@[i as int]@);
                assert(spec_datetime_formats().skip(i as int).first() == spec_datetime_formats()[
                    i as int
                ]);
            }
            if let Some(d) = parse_datetime_tz(s, f) {
                return Some(d);
            }
            if let Some(d) = parse_datetime_naive(s, f) {
                return Some(d);
            }
            proof {
                assert(spec_datetime_formats().skip(i as int).drop_first()
                    =~= spec_datetime_formats().skip(i + 1));
            }
            i = i + 1;
        }
        proof {
            assert(spec_datetime_formats().skip(n as int).len() == 0);
        }
        None
    }

    /// Decodes a datetime from one host scalar: text goes through the
    /// parse chain, an integer is Unix epoch seconds. A real-classified
    /// value (a Julian day number, a floating-point conversion) and
    /// every other payload fail with the value reported.
    pub fn decode_value(v: &HostValue) -> (r: Result<DateTimeValue, D1Error>)
        ensures
            match v@ {
                SpecValue::Text(s) => match spec_decode_datetime_text(s) {
                    Some(p) => r matches Ok(d) && d.secs == p.0 && d.nanos == p.1,
                    None => r is Err,
                },
                SpecValue::Int(i) => r matches Ok(d) && d.secs == i && d.nanos == 0,
                _ => r is Err,
            },
            r is Err ==> (r->Err_0 matches D1Error::Decode { expected, value }
                && expected@ == "datetime"@ && value@ == v@),
    {
        match v {
            HostValue::Text(s) => match Self::decode_text(s.as_str()) {
                Some(d) => Ok(d),
                None => Err(D1Error::Decode {
                    expected: String::from_str("datetime"),
                    value: v.duplicate(),
                }),
            },
            HostValue::Int(i) => Ok(DateTimeValue { secs: *i, nanos: 0 }),
            _ => Err(D1Error::Decode {
                expected: String::from_str("datetime"),
                value: v.duplicate(),
            }),
        }
    }

    /// Encodes as the canonical text rendering. Whether the value is
    /// representable is decided by the outside time library; whenever a
    /// text comes back, decoding it yields this value again.
    pub fn encode(&self) -> (r: Option<HostValue>)
        requires
            self.nanos < 1_000_000_000,
        ensures
            r is Some <==> dt_representable(self.secs, self.nanos),
            r matches Some(v) ==> ({
                &&& v@ == SpecValue::Text(dt_text_of(self.secs, self.nanos))
                &&& spec_decode_datetime_text(dt_text_of(self.secs, self.nanos)) == Some(
                    (self.secs, self.nanos),
                )
            }),
    {
        match format_datetime_text(self.secs, self.nanos) {
            Some(t) => {
                proof {
                    lemma_datetime_roundtrip_chain(t@, self.secs, self.nanos);
                }
                Some(HostValue::Text(t))
            },
            None => None,
        }
    }
}

impl DateValue {
    /// Decodes a text-stored date: only the canonical rendering is
    /// accepted.
    pub fn decode_text(s: &str) -> (r: Option<DateValue>)
        ensures
            match date_parse_of("%F"@, s@) {
                Some(p) => r matches Some(d) && d.year == p.0 && d.month == p.1 && d.day == p.2,
                None => r is None,
            },
    {
        parse_date_fmt(s, "%F")
    }

    /// Decodes a date from one host scalar: only text is accepted.
    pub fn decode_value(v: &HostValue) -> (r: Result<DateValue, D1Error>)
        ensures
            match v@ {
                SpecValue::Text(s) => match date_parse_of("%F"@, s) {
                    Some(p) => r matches Ok(d) && d.year == p.0 && d.month == p.1 && d.day == p.2,
                    None => r is Err,
                },
                _ => r is Err,
            },
            r is Err ==> (r->Err_0 matches D1Error::Decode { expected, value }
                && expected@ == "date"@ && value@ == v@),
    {
        match v {
            HostValue::Text(s) => match Self::decode_text(s.as_str()) {
                Some(d) => Ok(d),
                None => Err(D1Error::Decode {
                    expected: String::from_str("date"),
                    value: v.duplicate(),
                }),
            },
            _ => Err(D1Error::Decode {
                expected: String::from_str("date"),
                value: v.duplicate(),
            }),
        }
    }

    /// Encodes as the canonical text rendering. The outside library
    /// decides whether the calendar date exists; whenever a text comes
    /// back, decoding it yields this value again.
    pub fn encode(&self) -> (r: Option<HostValue>)
        ensures
            r is Some <==> spec_valid_date(self.year, self.month, self.day),
            r matches Some(v) ==> ({
                &&& v@ == SpecValue::Text(date_text_of(self.year, self.month, self.day))
                &&& date_parse_of("%F"@, date_text_of(self.year, self.month, self.day)) == Some(
                    (self.year, self.month, self.day),
                )
            }),
    {
        match format_date_text(self.year, self.month, self.day) {
            Some(t) => Some(HostValue::Text(t)),
            None => None,
        }
    }
}

impl TimeValue {
    /// Decodes a text-stored time through the format chain.
    pub fn decode_text(s: &str) -> (r: Option<TimeValue>)
        ensures
            match spec_decode_time_text(s@) {
                Some(p) => r matches Some(t) && t.hour == p.0 && t.minute == p.1 && t.second == p.2
                    && t.nanosecond == p.3,
                None => r is None,
            },
    {
        let fmts = time_formats();
        let n = fmts.len();
        let mut i: usize = 0;
        proof {
            assert(spec_time_formats().skip(0) =~= spec_time_formats());
        }
        while i < n
            invariant
                i <= n,
                n == fmts@.len(),
                fmts.deep_view() == spec_time_formats(),
                spec_time_chain(spec_time_formats(), s@) == spec_time_chain(
                    spec_time_formats().skip(i as int),
                    s@,
                ),
            decreases n - i,
        {
            let f = fmts[i];
            proof {
                assert(fmts.deep_view()[i as int] == fmts@[i as int]@);
                assert(spec_time_formats().skip(i as int).first() == spec_time_formats()[i as int]);
            }
            if let Some(t) = parse_time_fmt(s, f) {
                return Some(t);
            }
            proof {
                assert(spec_time_formats().skip(i as int).drop_first() =~= spec_time_formats().skip(
                    i + 1,
                ));
            }
            i = i + 1;
        }
        proof {
            assert(spec_time_formats().skip(n as int).len() == 0);
        }
        None
    }

    /// Decodes a time from one host scalar: only text is accepted.
    pub fn decode_value(v: &HostValue) -> (r: Result<TimeValue, D1Error>)
        ensures
            match v@ {
                SpecValue::Text(s) => match spec_decode_time_text(s) {
                    Some(p) => r matches Ok(t) && t.hour == p.0 && t.minute == p.1 && t.second
                        == p.2 && t.nanosecond == p.3,
                    None => r is Err,
                },
                _ => r is Err,
            },
            r is Err ==> (r->Err_0 matches D1Error::Decode { expected, value }
                && expected@ == "time"@ && value@ == v@),
    {
        match v {
            HostValue::Text(s) => match Self::decode_text(s.as_str()) {
                Some(t) => Ok(t),
                None => Err(D1Error::Decode {
                    expected: String::from_str("time"),
                    value: v.duplicate(),
                }),
            },
            _ => Err(D1Error::Decode {
                expected: String::from_str("time"),
                value: v.duplicate(),
            }),
        }
    }

    /// Encodes as the canonical text rendering. The outside library
    /// decides whether the time of day exists; whenever a text comes
    /// back, decoding it yields this value again.
    pub fn encode(&self) -> (r: Option<HostValue>)
        requires
            self.nanosecond < 1_000_000_000,
        ensures
            r is Some <==> (self.hour < 24 && self.minute < 60 && self.second < 60),
            r matches Some(v) ==> ({
                &&& v@ == SpecValue::Text(
                    time_text_of(self.hour, self.minute, self.second, self.nanosecond),
                )
                &&& spec_decode_time_text(
                    time_text_of(self.hour, self.minute, self.second, self.nanosecond),
                ) == Some((self.hour, self.minute, self.second, self.nanosecond))
            }),
    {
        match format_time_text(self.hour, self.minute, self.second, self.nanosecond) {
            Some(t) => {
                proof {
                    lemma_time_roundtrip_chain(
                        t@,
                        self.hour,
                        self.minute,
                        self.second,
                        self.nanosecond,
                    );
                }
                Some(HostValue::Text(t))
            },
            None => None,
        }
    }
}


impl crate::types::D1Encode for DateTimeValue {
    /// A timestamp encodes as its canonical text rendering while its
    /// fraction stays below one second and the outside library can
    /// represent its second count; otherwise encoding fails. (A decoded
    /// leap second carries a fraction of a full second or more and so
    /// cannot be re-encoded.)
    open spec fn spec_encode(&self) -> Option<SpecValue> {
        if self.nanos < 1_000_000_000 && dt_representable(self.secs, self.nanos) {
            Some(SpecValue::Text(dt_text_of(self.secs, self.nanos)))
        } else {
            None
        }
    }

    open spec fn spec_encode_is_null(&self) -> bool {
        false
    }

    fn encode_by_ref(&self, buf: &mut Vec<HostValue>) -> (r: Result<bool, EncodeError>) {
        if self.nanos < 1_000_000_000 {
            match self.encode() {
                Some(v) => {
                    buf.push(v);
                    Ok(false)
                },
                None => Err(EncodeError {
                    message: String::from_str("datetime outside the representable range"),
                }),
            }
        } else {
            Err(EncodeError {
                message: String::from_str("subsecond fraction of a full second or more"),
            })
        }
    }
}

impl crate::types::D1Encode for DateValue {
    /// A date encodes as its canonical text rendering when it is a real
    /// calendar date in the outside library's range; otherwise encoding
    /// fails.
    open spec fn spec_encode(&self) -> Option<SpecValue> {
        if spec_valid_date(self.year, self.month, self.day) {
            Some(SpecValue::Text(date_text_of(self.year, self.month, self.day)))
        } else {
            None
        }
    }

    open spec fn spec_encode_is_null(&self) -> bool {
        false
    }

    fn encode_by_ref(&self, buf: &mut Vec<HostValue>) -> (r: Result<bool, EncodeError>) {
        match self.encode() {
            Some(v) => {
                buf.push(v);
                Ok(false)
            },
            None => Err(EncodeError { message: String::from_str("no such calendar date") }),
        }
    }
}

impl crate::types::D1Encode for TimeValue {
    /// A time of day encodes as its canonical text rendering when its
    /// fields are in range and its fraction stays below one second;
    /// otherwise encoding fails.
    open spec fn spec_encode(&self) -> Option<SpecValue> {
        if spec_valid_time(self.hour, self.minute, self.second, self.nanosecond) {
            Some(
                SpecValue::Text(
                    time_text_of(self.hour, self.minute, self.second, self.nanosecond),
                ),
            )
        } else {
            None
        }
    }

    open spec fn spec_encode_is_null(&self) -> bool {
        false
    }

    fn encode_by_ref(&self, buf: &mut Vec<HostValue>) -> (r: Result<bool, EncodeError>) {
        if self.nanosecond < 1_000_000_000 {
            match self.encode() {
                Some(v) => {
                    buf.push(v);
                    Ok(false)
                },
                None => Err(EncodeError { message: String::from_str("no such time of day") }),
            }
        } else {
            Err(EncodeError {
                message: String::from_str("subsecond fraction of a full second or more"),
            })
        }
    }
}


impl View for DateTimeValue {
    type V = DateTimeValue;

    open spec fn view(&self) -> DateTimeValue {
        *self
    }
}

impl DeepView for DateTimeValue {
    type V = DateTimeValue;

    open spec fn deep_view(&self) -> DateTimeValue {
        *self
    }
}

impl crate::types::D1Decode for DateTimeValue {
    /// Text decodes through the parse chain; an integer is Unix epoch
    /// seconds; everything else (including the floating-point Julian
    /// form) fails.
    open spec fn spec_decode(v: SpecValue) -> Option<DateTimeValue> {
        match v {
            SpecValue::Text(s) => match spec_decode_datetime_text(s) {
                Some(p) => Some(DateTimeValue { secs: p.0, nanos: p.1 }),
                None => None,
            },
            SpecValue::Int(i) => Some(DateTimeValue { secs: i, nanos: 0 }),
            _ => None,
        }
    }

    open spec fn spec_expected() -> Seq<char> {
        "datetime"@
    }

    fn decode(v: &HostValue) -> (r: Result<DateTimeValue, D1Error>) {
        Self::decode_value(v)
    }
}

impl View for DateValue {
    type V = DateValue;

    open spec fn view(&self) -> DateValue {
        *self
    }
}

impl DeepView for DateValue {
    type V = DateValue;

    open spec fn deep_view(&self) -> DateValue {
        *self
    }
}

impl crate::types::D1Decode for DateValue {
    /// Only the canonical text rendering of a date converts.
    open spec fn spec_decode(v: SpecValue) -> Option<DateValue> {
        match v {
            SpecValue::Text(s) => match date_parse_of("%F"@, s) {
                Some(p) => Some(DateValue { year: p.0, month: p.1, day: p.2 }),
                None => None,
            },
            _ => None,
        }
    }

    open spec fn spec_expected() -> Seq<char> {
        "date"@
    }

    fn decode(v: &HostValue) -> (r: Result<DateValue, D1Error>) {
        Self::decode_value(v)
    }
}

impl View for TimeValue {
    type V = TimeValue;

    open spec fn view(&self) -> TimeValue {
        *self
    }
}

impl DeepView for TimeValue {
    type V = TimeValue;

    open spec fn deep_view(&self) -> TimeValue {
        *self
    }
}

impl crate::types::D1Decode for TimeValue {
    /// Only a text rendering of a time of day converts, through the
    /// format chain.
    open spec fn spec_decode(v: SpecValue) -> Option<TimeValue> {
        match v {
            SpecValue::Text(s) => match spec_decode_time_text(s) {
                Some(p) => Some(
                    TimeValue { hour: p.0, minute: p.1, second: p.2, nanosecond: p.3 },
                ),
                None => None,
            },
            _ => None,
        }
    }

    open spec fn spec_expected() -> Seq<char> {
        "time"@
    }

    fn decode(v: &HostValue) -> (r: Result<TimeValue, D1Error>) {
        Self::decode_value(v)
    }
}

/// When the canonical datetime rendering is rejected by the RFC 3339
/// parser and by the offset-aware parser under the first fallback
/// format, but read back by the naive parser under that format, the
/// whole decode chain returns exactly the original value: the first
/// fallback format wins.
pub proof fn lemma_datetime_roundtrip_chain(t: Seq<char>, secs: i64, nanos: u32)
    requires
        rfc3339_dt_of(t) is None,
        strptime_dt_tz_of("%F %T%.f"@, t) is None,
        strptime_dt_naive_of("%F %T%.f"@, t) == Some((secs, nanos)),
    ensures
        spec_decode_datetime_text(t) == Some((secs, nanos)),
{
    assert(spec_datetime_formats().first() == "%F %T%.f"@);
}

/// When the canonical time rendering is rejected by the first format in
/// the chain but read back by the second, the whole decode chain returns
/// exactly the original value.
pub proof fn lemma_time_roundtrip_chain(t: Seq<char>, hour: u8, minute: u8, second: u8, nano: u32)
    requires
        time_parse_of("%T.f"@, t) is None,
        time_parse_of("%T%.f"@, t) == Some((hour, minute, second, nano)),
    ensures
        spec_decode_time_text(t) == Some((hour, minute, second, nano)),
{
    let fmts = spec_time_formats();
    assert(fmts.len() == 7);
    assert(fmts.first() == "%T.f"@);
    assert(fmts.drop_first().len() == 6);
    assert(fmts.drop_first().first() == "%T%.f"@);
    assert(spec_time_chain(fmts, t) == spec_time_chain(fmts.drop_first(), t));
}

} // verus!
