//! Instants with a fixed UTC offset, parsed from and rendered to RFC 3339
//! text through chrono.

use vstd::prelude::*;

verus! {

/// What chrono's RFC 3339 parser yields for a given input: `None` where the
/// parser rejects the string, otherwise the triple (seconds since the Unix
/// epoch, nanoseconds past that second, local offset from UTC in seconds).
pub uninterp spec fn rfc3339_parse(s: Seq<char>) -> Option<(int, int, int)>;

/// The RFC 3339 text that chrono renders for the instant given as (seconds
/// since the Unix epoch, nanoseconds past that second, local offset from UTC
/// in seconds).
pub uninterp spec fn rfc3339_text(secs: int, nanos: int, offset_secs: int) -> Seq<char>;

/// True when the RFC 3339 parser accepts the string.
pub open spec fn parse_ok(s: Seq<char>) -> bool {
    rfc3339_parse(s) is Some
}

/// The parsed triple of an accepted string; an arbitrary fixed triple where
/// the parser rejects it.
pub open spec fn parsed_instant(s: Seq<char>) -> (int, int, int) {
    match rfc3339_parse(s) {
        Some(v) => v,
        None => (0int, 0int, 0int),
    }
}

/// Strictly-later ordering on parsed triples: by the UTC instant, that is by
/// whole seconds and then by the nanosecond part; the offset plays no part.
pub open spec fn instant_gt(a: (int, int, int), b: (int, int, int)) -> bool {
    a.0 > b.0 || (a.0 == b.0 && a.1 > b.1)
}

/// A timestamp with a fixed UTC offset: an instant (seconds since the Unix
/// epoch plus a nanosecond part) together with the local offset it was
/// written in.
#[derive(Clone, Copy, Debug, PartialEq, Eq, Structural)]
pub struct Timestamp {
    /// Whole seconds since 1970-01-01T00:00:00Z, offset already removed.
    pub secs: i64,
    /// Nanoseconds past that second; may reach 1_999_999_999 on a leap second.
    pub nanos: u32,
    /// Seconds to add to UTC to reach the local time of the source text.
    pub offset_secs: i32,
}

impl Timestamp {
    /// Bounds that every parsed timestamp meets: the parser takes four-digit
    /// years only and offsets within a day, so the instant lies well inside
    /// the range every later chrono call accepts. A nanosecond part of
    /// 1_000_000_000 or more stands for a leap second, which chrono attaches
    /// to second 59 of a minute; since offsets are whole minutes, such an
    /// instant always lands on a UTC second of 59 past a minute.
    pub open spec fn well_formed(self) -> bool {
        &&& -62_167_305_600 <= self.secs <= 253_402_387_200
        &&& self.nanos < 2_000_000_000
        &&& -86_399 <= self.offset_secs <= 86_399
        &&& self.nanos >= 1_000_000_000 ==> (self.secs as int) % 60 == 59
    }

    /// The triple this timestamp stands for.
    pub open spec fn triple(self) -> (int, int, int) {
        (self.secs as int, self.nanos as int, self.offset_secs as int)
    }

    /// True when `self` is a strictly later instant than `other`. Instants
    /// compare by their UTC moment alone; the offset plays no part.
    pub fn after(&self, other: &Timestamp) -> (r: bool)
        ensures
            r == instant_gt(self.triple(), other.triple()),
    {
        self.secs > other.secs || (self.secs == other.secs && self.nanos > other.nanos)
    }
}

/// Relies on chrono's `DateTime::parse_from_rfc3339`: it accepts exactly the
/// RFC 3339 date-times with a four-digit year and an offset within ±23:59,
/// and its result is a function of the input string alone. The accessors
/// `timestamp`, `timestamp_subsec_nanos` and `FixedOffset::local_minus_utc`
/// read the instant and offset back as plain integers. A leap second is
/// stored on second 59 with a nanosecond part of 1_000_000_000 or more, and
/// offsets are whole minutes, so the well-formedness bounds hold of every
/// accepted input.
#[verifier::external_body]
pub(crate) fn parse_timestamp(s: &str) -> (r: Option<Timestamp>)
    ensures
        r is Some <==> parse_ok(s@),
        r matches Some(t) ==> {
            &&& rfc3339_parse(s@) == Some(t.triple())
            &&& t.well_formed()
        },
{
    match chrono::DateTime::parse_from_rfc3339(s) {
        Ok(dt) => Some(
            Timestamp {
                secs: dt.timestamp(),
                nanos: dt.timestamp_subsec_nanos(),
                offset_secs: dt.offset().local_minus_utc(),
            },
        ),
        Err(_) => None,
    }
}

/// Relies on chrono's `DateTime::to_rfc3339`, whose output is a function of
/// the instant and offset alone; `FixedOffset::east_opt` and
/// `DateTime::from_timestamp` rebuild the date-time and succeed on every
/// well-formed timestamp: its bounds lie strictly inside theirs, and a
/// nanosecond part naming a leap second comes only on a second of 59 past a
/// minute, the one place `from_timestamp` accepts it.
#[verifier::external_body]
pub(crate) fn render_rfc3339(t: &Timestamp) -> (r: String)
    requires
        t.well_formed(),
    ensures
        r@ == rfc3339_text(t.secs as int, t.nanos as int, t.offset_secs as int),
{
    let offset = chrono::FixedOffset::east_opt(t.offset_secs).unwrap();
    let utc = chrono::DateTime::from_timestamp(t.secs, t.nanos).unwrap();
    utc.with_timezone(&offset).to_rfc3339()
}

} // verus!
