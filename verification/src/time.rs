//! Instants in UTC, as the update checker stores and compares them.

use vstd::prelude::*;

verus! {

/// The first and the last whole second that an instant can lie in (the years -262143 and 262142).
pub const MIN_SECS: i64 = -8334601228800;

pub const MAX_SECS: i64 = 8210266876799;

/// The first and the last whole second of the years 0 to 9999.
pub const FOUR_DIGIT_MIN_SECS: i64 = -62167219200;

pub const FOUR_DIGIT_MAX_SECS: i64 = 253402300799;

/// An instant: whole seconds since the Unix epoch and the nanoseconds after them. A leap second
/// is written as the second before it with 1,000,000,000 or more nanoseconds.
#[derive(Debug, Clone, Copy, PartialEq, Eq)]
pub struct DateTime {
    secs: i64,
    nanos: u32,
}

/// A signed span of time. Both parts have the sign of the span.
#[derive(Debug, Clone, Copy, PartialEq, Eq)]
pub struct TimeDelta {
    pub secs: i64,
    pub nanos: i32,
}

/// The pairs of seconds and nanoseconds that stand for an instant.
pub open spec fn valid_instant(secs: int, nanos: int) -> bool {
    &&& MIN_SECS <= secs <= MAX_SECS
    &&& 0 <= nanos < 2_000_000_000
    &&& nanos >= 1_000_000_000 ==> secs % 60 == 59
}

/// The position of an instant on a line of nanoseconds on which leap seconds take no room.
pub open spec fn line_nanos(t: (i64, u32)) -> int {
    t.0 * 1_000_000_000 + t.1
}

/// The leap second, if any, that lies between two instants when only the time of day is looked
/// at: one if the later time of day is `a` and `b` is in a leap second, minus one in the
/// mirrored case.
pub open spec fn leap_between(a: (i64, u32), b: (i64, u32)) -> int {
    let day_a = a.0 as int % 86_400;
    let day_b = b.0 as int % 86_400;
    if day_a > day_b && b.1 >= 1_000_000_000 {
        1
    } else if day_a < day_b && a.1 >= 1_000_000_000 {
        -1
    } else {
        0
    }
}

/// The nanoseconds from `b` to `a`.
pub open spec fn elapsed_nanos(a: (i64, u32), b: (i64, u32)) -> int {
    line_nanos(a) - line_nanos(b) + leap_between(a, b) * 1_000_000_000
}

/// The nanoseconds of a span.
pub open spec fn span_nanos(d: TimeDelta) -> int {
    d.secs * 1_000_000_000 + d.nanos
}

/// The instant that an RFC 3339 text stands for: what `chrono::DateTime::parse_from_rfc3339`
/// makes of the text, moved to UTC; `None` where it finds an error.
pub uninterp spec fn rfc3339_instant(text: Seq<char>) -> Option<(i64, u32)>;

/// The RFC 3339 text that `chrono::DateTime::<Utc>::to_rfc3339` writes for an instant.
pub uninterp spec fn rfc3339_text(secs: i64, nanos: u32) -> Seq<char>;

/// Calls `chrono::DateTime::parse_from_rfc3339` and moves the result to UTC. The result is a
/// function of the text, and a parsed instant is one that chrono can represent.
#[verifier::external_body]
fn chrono_parse(text: &str) -> (r: Option<(i64, u32)>)
    ensures
        r == rfc3339_instant(text@),
        r matches Some(t) ==> valid_instant(t.0 as int, t.1 as int),
{
    let t = chrono::DateTime::parse_from_rfc3339(text).ok()?.with_timezone(&chrono::Utc);
    Some((t.timestamp(), t.timestamp_subsec_nanos()))
}

/// Calls `chrono::DateTime::<Utc>::to_rfc3339`. The text is a function of the instant, made of
/// digits and the characters `-`, `T`, `:`, `.` and `+`. For the years 0 to 9999, which RFC 3339
/// can write, reading the text gives the instant back.
#[verifier::external_body]
fn chrono_format(secs: i64, nanos: u32) -> (r: String)
    requires
        valid_instant(secs as int, nanos as int),
    ensures
        r@ == rfc3339_text(secs, nanos),
        !r@.contains('!'),
        FOUR_DIGIT_MIN_SECS <= secs <= FOUR_DIGIT_MAX_SECS ==> rfc3339_instant(r@) == Some(
            (secs, nanos),
        ),
{
    chrono::DateTime::from_timestamp(secs, nanos).unwrap().to_rfc3339()
}

/// Calls `chrono::DateTime::<Utc>::signed_duration_since`: the difference on the line of
/// nanoseconds, corrected by the leap second that one of the two instants may stand in.
#[verifier::external_body]
fn chrono_since(a: (i64, u32), b: (i64, u32)) -> (r: TimeDelta)
    requires
        valid_instant(a.0 as int, a.1 as int),
        valid_instant(b.0 as int, b.1 as int),
    ensures
        span_nanos(r) == elapsed_nanos(a, b),
        -1_000_000_000 < r.nanos < 1_000_000_000,
        r.secs > 0 ==> r.nanos >= 0,
        r.secs < 0 ==> r.nanos <= 0,
{
    let from = chrono::DateTime::from_timestamp(b.0, b.1).unwrap();
    let d = chrono::DateTime::from_timestamp(a.0, a.1).unwrap().signed_duration_since(from);
    TimeDelta { secs: d.num_seconds(), nanos: d.subsec_nanos() }
}

/// Calls the subtraction of a `chrono::Duration::hours` from a `chrono::DateTime<Utc>`: the
/// instant that many hours earlier on the line of nanoseconds, outside any leap second.
#[verifier::external_body]
fn chrono_sub_hours(t: (i64, u32), hours: i64) -> (r: (i64, u32))
    requires
        valid_instant(t.0 as int, t.1 as int),
        0 < hours <= 1_000_000,
        MIN_SECS <= t.0 - hours * 3600,
    ensures
        line_nanos(r) == line_nanos(t) - hours * 3_600_000_000_000,
        valid_instant(r.0 as int, r.1 as int),
        r.1 < 1_000_000_000,
{
    let from = chrono::DateTime::from_timestamp(t.0, t.1).unwrap();
    let earlier = from - chrono::Duration::hours(hours);
    (earlier.timestamp(), earlier.timestamp_subsec_nanos())
}

impl View for DateTime {
    type V = (i64, u32);

    closed spec fn view(&self) -> (i64, u32) {
        (self.secs, self.nanos)
    }
}

impl DateTime {
    #[verifier::type_invariant]
    spec fn wf(self) -> bool {
        valid_instant(self.secs as int, self.nanos as int)
    }

    /// The instant with the given seconds and nanoseconds, if they stand for one.
    pub fn from_timestamp(secs: i64, nanos: u32) -> (r: Option<DateTime>)
        ensures
            r is Some <==> valid_instant(secs as int, nanos as int),
            r matches Some(t) ==> t@ == (secs, nanos),
    {
        if secs < MIN_SECS || secs > MAX_SECS || nanos >= 2_000_000_000 {
            return None;
        }
        if nanos >= 1_000_000_000 {
            let shifted: i64 = secs - MIN_SECS;
            assert(MIN_SECS as int % 60 == 0);
            assert(shifted as int % 60 == secs as int % 60);
            if shifted % 60 != 59 {
                return None;
            }
        }
        Some(DateTime { secs, nanos })
    }

    /// Whole seconds since the Unix epoch.
    pub fn timestamp(&self) -> (r: i64)
        ensures
            r == self@.0,
            valid_instant(self@.0 as int, self@.1 as int),
    {
        proof {
            use_type_invariant(self);
        }
        self.secs
    }

    /// Nanoseconds after the last whole second.
    pub fn timestamp_subsec_nanos(&self) -> (r: u32)
        ensures
            r == self@.1,
            valid_instant(self@.0 as int, self@.1 as int),
    {
        proof {
            use_type_invariant(self);
        }
        self.nanos
    }

    /// The instant that an RFC 3339 text stands for.
    pub fn parse_from_rfc3339(text: &str) -> (r: Option<DateTime>)
        ensures
            r is Some <==> rfc3339_instant(text@) is Some,
            r matches Some(t) ==> rfc3339_instant(text@) == Some(t@) && valid_instant(
                t@.0 as int,
                t@.1 as int,
            ),
    {
        match chrono_parse(text) {
            Some(t) => Some(DateTime { secs: t.0, nanos: t.1 }),
            None => None,
        }
    }

    /// The RFC 3339 text of the instant.
    pub fn to_rfc3339(&self) -> (r: String)
        ensures
            r@ == rfc3339_text(self@.0, self@.1),
            !r@.contains('!'),
            FOUR_DIGIT_MIN_SECS <= self@.0 <= FOUR_DIGIT_MAX_SECS ==> rfc3339_instant(r@) == Some(
                self@,
            ),
    {
        proof {
            use_type_invariant(self);
        }
        chrono_format(self.secs, self.nanos)
    }

    /// The span from `earlier` to this instant.
    pub fn signed_duration_since(&self, earlier: &DateTime) -> (r: TimeDelta)
        ensures
            span_nanos(r) == elapsed_nanos(self@, earlier@),
            -1_000_000_000 < r.nanos < 1_000_000_000,
            r.secs > 0 ==> r.nanos >= 0,
            r.secs < 0 ==> r.nanos <= 0,
    {
        proof {
            use_type_invariant(self);
            use_type_invariant(earlier);
        }
        chrono_since((self.secs, self.nanos), (earlier.secs, earlier.nanos))
    }

    /// The instant that many hours earlier.
    pub fn minus_hours(&self, hours: i64) -> (r: DateTime)
        requires
            0 < hours <= 1_000_000,
            MIN_SECS <= self@.0 - hours * 3600,
        ensures
            line_nanos(r@) == line_nanos(self@) - hours * 3_600_000_000_000,
            r@.1 < 1_000_000_000,
    {
        proof {
            use_type_invariant(self);
        }
        let t = chrono_sub_hours((self.secs, self.nanos), hours);
        DateTime { secs: t.0, nanos: t.1 }
    }
}

impl TimeDelta {
    /// Whether the span is longer than the given number of hours.
    pub fn exceeds_hours(&self, hours: i64) -> (r: bool)
        requires
            -1_000_000 <= hours <= 1_000_000,
        ensures
            r == (span_nanos(*self) > hours * 3_600_000_000_000),
    {
        let total: i128 = self.secs as i128 * 1_000_000_000 + self.nanos as i128;
        let limit: i128 = hours as i128 * 3_600_000_000_000;
        total > limit
    }
}

/// An instant is given back as the seconds and nanoseconds that it was made of. There is one for every number
/// of nanoseconds below a second and, in the last second of a minute, below two.
pub proof fn timestamp_is_given_back(secs: i64, nanos: u32, r: Option<DateTime>)
    requires
        call_ensures(DateTime::from_timestamp, (secs, nanos), r),
    ensures
        r matches Some(t) ==> t@ == (secs, nanos),
        -8334601228800 <= secs <= 8210266876799 && nanos < 1_000_000_000 ==> r is Some,
        -8334601228800 <= secs <= 8210266876799 && 1_000_000_000 <= nanos < 2_000_000_000 ==> (r is Some
            <==> secs as int % 60 == 59),
        nanos >= 2_000_000_000 ==> r is None,
        secs < -8334601228800 || secs > 8210266876799 ==> r is None,
{
}

/// Of instants that are in no leap second, the span between two of them turns its sign with their order, and
/// spans add up.
pub proof fn spans_add_up(a: (i64, u32), b: (i64, u32), c: (i64, u32))
    requires
        a.1 < 1_000_000_000,
        b.1 < 1_000_000_000,
        c.1 < 1_000_000_000,
    ensures
        elapsed_nanos(a, a) == 0,
        elapsed_nanos(b, a) == -elapsed_nanos(a, b),
        elapsed_nanos(c, a) == elapsed_nanos(c, b) + elapsed_nanos(b, a),
        a.0 > b.0 ==> elapsed_nanos(a, b) > 0,
{
}

/// A span exceeds a number of hours exactly where it is longer than that many times 3600 seconds.
pub proof fn hour_has_3600_seconds(span: &TimeDelta, hours: i64, r: bool)
    requires
        call_ensures(TimeDelta::exceeds_hours, (span, hours), r),
        0 <= span.nanos < 1_000_000_000,
    ensures
        span.secs > hours * 3600 ==> r,
        span.secs == hours * 3600 ==> (r <==> span.nanos > 0),
        span.secs < hours * 3600 ==> !r,
{
}

} // verus!
