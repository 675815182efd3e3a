//! Points in time, kept as plain numbers and formatted by the calendar library.

use chrono::{DateTime, FixedOffset, Local, SecondsFormat};
use vstd::prelude::*;
use vstd::string::*;

verus! {

/// Whether the calendar library can represent the instant `secs` whole seconds
/// and `nanos` nanoseconds after the Unix epoch: whether
/// `DateTime::from_timestamp` accepts the two numbers.
pub uninterp spec fn instant_valid(secs: i64, nanos: u32) -> bool;

/// The offsets from UTC that the calendar library accepts: less than a day to
/// either side, in seconds east of UTC.
pub open spec fn offset_valid(offset: i32) -> bool {
    -86_400 < offset < 86_400
}

/// The text that the calendar library writes for a representable instant in
/// a valid offset under the strftime pattern `pattern`.
pub uninterp spec fn stamp_text(secs: i64, nanos: u32, offset: i32, pattern: Seq<char>) -> Seq<
    char,
>;

/// The RFC 3339 text of a representable instant in a valid offset, or `None`
/// where its local date falls outside the calendar library's range.
pub uninterp spec fn stamp_iso(secs: i64, nanos: u32, offset: i32) -> Option<Seq<char>>;

/// The timestamp that the calendar library reads from `text`, as seconds,
/// nanoseconds and offset, or `None` where it rejects the text.
pub uninterp spec fn stamp_parsed(text: Seq<char>) -> Option<(i64, u32, i32)>;

/// Calls `DateTime::from_timestamp`.
///
/// Trusted: the answer is `true` exactly when the calendar library accepts
/// the two numbers, and that is what `instant_valid` names.
#[verifier::external_body]
fn instant_accepted(secs: i64, nanos: u32) -> (r: bool)
    ensures
        r == instant_valid(secs, nanos),
{
    DateTime::from_timestamp(secs, nanos).is_some()
}

/// Calls `Local::now`, which reads the system clock and the local time zone.
///
/// Trusted: the seconds and nanoseconds of the value that comes back are
/// accepted again by `DateTime::from_timestamp`, and its offset is less than
/// a day, as `FixedOffset::east_opt` demands of every offset. Nothing is
/// claimed about which instant it is.
#[verifier::external_body]
fn clock_parts() -> (r: (i64, u32, i32))
    ensures
        instant_valid(r.0, r.1),
        offset_valid(r.2),
{
    let now = Local::now();
    (now.timestamp(), now.timestamp_subsec_nanos(), now.offset().local_minus_utc())
}

/// Calls `DateTime::with_timezone` with `Local`, which reads the local time zone.
///
/// Trusted: the instant is unchanged and the new offset is less than a day,
/// as `FixedOffset::east_opt` demands of every offset. Nothing is claimed
/// about which offset it is.
#[verifier::external_body]
fn local_parts(secs: i64, nanos: u32, offset: i32) -> (r: (i64, u32, i32))
    requires
        instant_valid(secs, nanos),
        offset_valid(offset),
    ensures
        r.0 == secs,
        r.1 == nanos,
        offset_valid(r.2),
{
    let zone = FixedOffset::east_opt(offset).unwrap();
    let moment = DateTime::from_timestamp(secs, nanos).unwrap().with_timezone(&zone);
    let here = moment.with_timezone(&Local);
    (here.timestamp(), here.timestamp_subsec_nanos(), here.offset().local_minus_utc())
}

/// Calls `DateTime::format` on the timestamp in its own offset.
///
/// Trusted: the result is the text that the calendar library writes, a
/// function of the four arguments. The pattern is held to the one display
/// pattern, which the library accepts; nothing is claimed about the digits.
#[verifier::external_body]
fn format_parts(secs: i64, nanos: u32, offset: i32, pattern: &str) -> (r: String)
    requires
        instant_valid(secs, nanos),
        offset_valid(offset),
        pattern@ == DISPLAY_PATTERN@,
    ensures
        r@ == stamp_text(secs, nanos, offset, pattern@),
{
    let zone = FixedOffset::east_opt(offset).unwrap();
    let moment = DateTime::from_timestamp(secs, nanos).unwrap().with_timezone(&zone);
    moment.format(pattern).to_string()
}

/// Calls `DateTime::to_rfc3339_opts` with automatic sub-second digits and `Z`
/// for UTC, after `NaiveDateTime::checked_add_offset` has accepted the local date.
///
/// Trusted: the result is the text that the calendar library writes, or `None`
/// where it cannot express the local date; both depend on the arguments alone.
#[verifier::external_body]
fn iso_parts(secs: i64, nanos: u32, offset: i32) -> (r: Option<String>)
    requires
        instant_valid(secs, nanos),
        offset_valid(offset),
    ensures
        match r {
            Some(s) => stamp_iso(secs, nanos, offset) == Some(s@),
            None => stamp_iso(secs, nanos, offset) is None,
        },
{
    let zone = FixedOffset::east_opt(offset).unwrap();
    let moment = DateTime::from_timestamp(secs, nanos).unwrap().with_timezone(&zone);
    moment.naive_utc().checked_add_offset(zone)?;
    Some(moment.to_rfc3339_opts(SecondsFormat::AutoSi, true))
}

/// Calls `str::parse` for `DateTime<FixedOffset>`.
///
/// Trusted: the parts are those of the value that the calendar library reads,
/// `None` where it rejects the text; the instant that it read is one that
/// `DateTime::from_timestamp` accepts, and the offset is less than a day.
#[verifier::external_body]
fn parse_parts(text: &str) -> (r: Option<(i64, u32, i32)>)
    ensures
        r == stamp_parsed(text@),
        r matches Some(p) ==> instant_valid(p.0, p.1) && offset_valid(p.2),
{
    match text.parse::<DateTime<FixedOffset>>() {
        Ok(moment) => Some(
            (moment.timestamp(), moment.timestamp_subsec_nanos(), moment.offset().local_minus_utc()),
        ),
        Err(_) => None,
    }
}

/// The strftime pattern under which a timestamp is shown: day, month, year,
/// then hours, minutes and seconds.
pub const DISPLAY_PATTERN: &'static str = "%d-%m-%Y %H:%M:%S";

/// An instant together with the offset from UTC under which it is shown.
#[derive(Clone, Copy, Debug, PartialEq, Eq, Structural)]
pub struct Timestamp {
    secs: i64,
    nanos: u32,
    offset: i32,
}

impl Timestamp {
    #[verifier::type_invariant]
    spec fn representable(self) -> bool {
        self.wf()
    }

    /// Whole seconds since the Unix epoch.
    pub closed spec fn seconds(self) -> i64 {
        self.secs
    }

    /// Nanoseconds within the second.
    pub closed spec fn subsec(self) -> u32 {
        self.nanos
    }

    /// Seconds east of UTC.
    pub closed spec fn east(self) -> i32 {
        self.offset
    }

    /// The timestamp is the instant that `parts` hold as seconds and
    /// nanoseconds, under whatever offset.
    pub open spec fn at_instant(self, parts: (i64, u32, i32)) -> bool {
        self.seconds() == parts.0 && self.subsec() == parts.1
    }

    /// The calendar library can represent the instant, and the offset is
    /// less than a day.
    pub open spec fn wf(self) -> bool {
        instant_valid(self.seconds(), self.subsec()) && offset_valid(self.east())
    }

    /// The timestamp as it is shown.
    pub open spec fn text(self) -> Seq<char> {
        stamp_text(self.seconds(), self.subsec(), self.east(), DISPLAY_PATTERN@)
    }

    /// The timestamp as it is stored, where it can be stored.
    pub open spec fn iso(self) -> Option<Seq<char>> {
        stamp_iso(self.seconds(), self.subsec(), self.east())
    }

    /// The current instant in the local time zone.
    pub fn now() -> (r: Timestamp)
        ensures
            r.wf(),
    {
        let parts = clock_parts();
        Timestamp { secs: parts.0, nanos: parts.1, offset: parts.2 }
    }

    /// A timestamp from its parts, or `None` where the offset is a day or more
    /// or the calendar library cannot represent the instant.
    pub fn from_parts(secs: i64, nanos: u32, offset: i32) -> (r: Option<Timestamp>)
        ensures
            r is Some <==> instant_valid(secs, nanos) && offset_valid(offset),
            r matches Some(t) ==> t.seconds() == secs && t.subsec() == nanos && t.east() == offset
                && t.wf(),
    {
        if -86_400 < offset && offset < 86_400 && instant_accepted(secs, nanos) {
            Some(Timestamp { secs, nanos, offset })
        } else {
            None
        }
    }

    /// Reads a stored timestamp, keeping the offset that was written.
    pub fn parse(text: &str) -> (r: Option<Timestamp>)
        ensures
            r is Some <==> stamp_parsed(text@) is Some,
            r matches Some(t) ==> stamp_parsed(text@) == Some((t.seconds(), t.subsec(), t.east()))
                && t.wf(),
    {
        match parse_parts(text) {
            Some(parts) => Some(Timestamp { secs: parts.0, nanos: parts.1, offset: parts.2 }),
            None => None,
        }
    }

    /// The same instant under the offset of the local time zone.
    pub fn to_local(&self) -> (r: Timestamp)
        ensures
            r.seconds() == self.seconds(),
            r.subsec() == self.subsec(),
            r.wf(),
    {
        proof {
            use_type_invariant(self);
        }
        let parts = local_parts(self.secs, self.nanos, self.offset);
        Timestamp { secs: parts.0, nanos: parts.1, offset: parts.2 }
    }

    /// The timestamp as `DD-MM-YYYY HH:MM:SS` in its own offset.
    pub fn display(&self) -> (r: String)
        ensures
            r@ == self.text(),
    {
        proof {
            use_type_invariant(self);
        }
        format_parts(self.secs, self.nanos, self.offset, DISPLAY_PATTERN)
    }

    /// The timestamp in RFC 3339 form, or `None` where its local date cannot
    /// be written.
    pub fn to_iso(&self) -> (r: Option<String>)
        ensures
            match r {
                Some(s) => self.iso() == Some(s@),
                None => self.iso() is None,
            },
    {
        proof {
            use_type_invariant(self);
        }
        iso_parts(self.secs, self.nanos, self.offset)
    }

    /// Whole seconds since the Unix epoch.
    pub fn secs(&self) -> (r: i64)
        ensures
            r == self.seconds(),
    {
        self.secs
    }

    /// Nanoseconds within the second.
    pub fn nanos(&self) -> (r: u32)
        ensures
            r == self.subsec(),
    {
        self.nanos
    }

    /// Seconds east of UTC.
    pub fn offset(&self) -> (r: i32)
        ensures
            r == self.east(),
    {
        self.offset
    }
}

} // verus!
