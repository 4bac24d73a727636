//! Instants and durations as plain integers, with the clock, the duration
//! parser and the calendar arithmetic of the outside crates behind trusted
//! items.

use vstd::prelude::*;

use crate::text::is_digit;

verus! {

/// Nanoseconds in one second.
pub const NANOS_PER_SEC: u32 = 1_000_000_000;

/// Whole seconds of the longest `chrono::TimeDelta` (`i64::MAX` milliseconds).
pub const MAX_DELTA_SECS: i64 = 9_223_372_036_854_775;

/// Sub-second nanoseconds of the longest `chrono::TimeDelta`.
pub const MAX_DELTA_NANOS: u32 = 807_000_000;

/// Unix timestamp of the earliest `DateTime<Utc>` (`DateTime::<Utc>::MIN_UTC`).
pub const MIN_TIMESTAMP_SECS: i64 = -8_334_601_228_800;

/// Unix timestamp of the last second of the latest `DateTime<Utc>` (`MAX_UTC`,
/// in year 262142).
pub const MAX_TIMESTAMP_SECS: i64 = 8_210_266_876_799;

/// A UTC instant: whole seconds since the Unix epoch and the nanoseconds
/// within that second.
#[derive(Clone, Copy, Debug, PartialEq, Eq, Structural)]
pub struct Timestamp {
    pub secs: i64,
    pub nanos: u32,
}

/// A non-negative span of time, as `chrono::TimeDelta` holds it.
#[derive(Clone, Copy, Debug, PartialEq, Eq, Structural)]
pub struct Delta {
    pub secs: i64,
    pub nanos: u32,
}

impl Timestamp {
    /// The instant is one that `DateTime<Utc>` can represent, without a
    /// leap second.
    pub open spec fn wf(self) -> bool {
        &&& MIN_TIMESTAMP_SECS <= self.secs <= MAX_TIMESTAMP_SECS
        &&& self.nanos < NANOS_PER_SEC
    }

    /// Whole nanoseconds since the epoch.
    pub open spec fn total_nanos(self) -> int {
        self.secs * 1_000_000_000 + self.nanos
    }
}

impl Delta {
    /// The span is non-negative and no longer than `chrono::TimeDelta::MAX`.
    pub open spec fn wf(self) -> bool {
        &&& 0 <= self.secs
        &&& self.nanos < NANOS_PER_SEC
        &&& (self.secs < MAX_DELTA_SECS || (self.secs == MAX_DELTA_SECS && self.nanos <= MAX_DELTA_NANOS))
    }
}

/// `a` lies strictly before `b`.
pub open spec fn spec_is_before(a: Timestamp, b: Timestamp) -> bool {
    a.secs < b.secs || (a.secs == b.secs && a.nanos < b.nanos)
}

/// Compares two instants as `DateTime<Utc>` orders them.
pub fn is_before(a: Timestamp, b: Timestamp) -> (r: bool)
    ensures
        r == spec_is_before(a, b),
{
    a.secs < b.secs || (a.secs == b.secs && a.nanos < b.nanos)
}

/// `chrono::TimeDelta::from_std` accepts a `std::time::Duration` of `secs`
/// seconds and `nanos` nanoseconds.
pub open spec fn delta_fits(secs: u64, nanos: u32) -> bool {
    secs < MAX_DELTA_SECS || (secs == MAX_DELTA_SECS && nanos <= MAX_DELTA_NANOS)
}

/// The instant `d` after `t`, carrying nanoseconds into seconds, when
/// `DateTime<Utc>` can represent it.
pub open spec fn spec_add(t: Timestamp, d: Delta) -> Option<Timestamp> {
    let carry: int = if t.nanos + d.nanos >= 1_000_000_000 { 1 } else { 0 };
    let secs = t.secs + d.secs + carry;
    let nanos = t.nanos + d.nanos - carry * 1_000_000_000;
    if MIN_TIMESTAMP_SECS <= secs <= MAX_TIMESTAMP_SECS {
        Some(Timestamp { secs: secs as i64, nanos: nanos as u32 })
    } else {
        None
    }
}

/// Most ASCII digits a duration text is read with.
pub const MAX_DURATION_DIGITS: usize = 11;

/// How many characters of `s` are ASCII digits.
pub open spec fn digit_count(s: Seq<char>) -> nat
    decreases s.len(),
{
    if s.len() == 0 {
        0
    } else {
        digit_count(s.drop_last()) + if is_digit(s.last()) { 1nat } else { 0nat }
    }
}

/// A duration text with at most `MAX_DURATION_DIGITS` ASCII digits. Every
/// number such a text holds is below 10^11, so no sum of its parts comes
/// near `u64::MAX` seconds (at most about 3.2e18 with the longest unit, a
/// year of 31_557_600 seconds).
pub open spec fn duration_text_bounded(s: Seq<char>) -> bool {
    digit_count(s) <= MAX_DURATION_DIGITS
}

/// Tells whether a duration text is short enough to be read.
pub fn is_duration_text_bounded(text: &str) -> (r: bool)
    ensures
        r == duration_text_bounded(text@),
{
    let n = text.unicode_len();
    let mut count: usize = 0;
    let mut i: usize = 0;
    assert(text@.subrange(0, 0) =~= Seq::<char>::empty());
    while i < n
        invariant
            n == text@.len(),
            i <= n,
            count == digit_count(text@.subrange(0, i as int)),
            count <= i,
        decreases n - i,
    {
        let c = text.get_char(i);
        let ghost prev = text@.subrange(0, i as int);
        let ghost next = text@.subrange(0, i + 1);
        assert(next.drop_last() =~= prev);
        assert(next.last() == c);
        if c >= '0' && c <= '9' {
            count = count + 1;
        }
        i = i + 1;
    }
    assert(text@.subrange(0, n as int) =~= text@);
    count <= MAX_DURATION_DIGITS
}

/// What `humantime::parse_duration` yields for a text: the duration as whole
/// seconds and sub-second nanoseconds, or the text of its error.
pub uninterp spec fn humantime_parse(text: Seq<char>) -> Result<(u64, u32), Seq<char>>;

/// Calls `humantime::parse_duration`. Claimed: the outcome is the one named
/// by `humantime_parse` for the text, the nanoseconds of a duration are below
/// one second (a `std::time::Duration` invariant), and an error carries the
/// text of the crate's `Display` for it. The crate panics (in
/// `Duration::new`) when a running total reaches exactly `u64::MAX` seconds
/// with a whole second of nanoseconds left to carry; a text with at most
/// `MAX_DURATION_DIGITS` digits cannot come near that total, so only such
/// texts are admitted. Larger ones are left out rather than told apart.
#[verifier::external_body]
pub fn parse_duration(text: &str) -> (r: Result<(u64, u32), String>)
    requires
        duration_text_bounded(text@),
    ensures
        r is Ok <==> humantime_parse(text@) is Ok,
        r matches Ok(d) ==> (humantime_parse(text@) matches Ok(e) && e == d && d.1 < NANOS_PER_SEC),
        r matches Err(m) ==> (humantime_parse(text@) matches Err(f) && f == m@),
{
    match humantime::parse_duration(text) {
        Ok(d) => Ok((d.as_secs(), d.subsec_nanos())),
        Err(e) => Err(e.to_string()),
    }
}

/// Calls `chrono::TimeDelta::from_std` on the `std::time::Duration` of `secs`
/// seconds and `nanos` nanoseconds. Claimed: it succeeds
/// exactly when the duration is at most `TimeDelta::MAX`, keeps both parts
/// unchanged, and otherwise fails with the text of `OutOfRangeError`.
#[verifier::external_body]
pub fn delta_from_std(secs: u64, nanos: u32) -> (r: Result<Delta, String>)
    requires
        nanos < NANOS_PER_SEC,
    ensures
        r is Ok <==> delta_fits(secs, nanos),
        r matches Ok(d) ==> d.secs == secs && d.nanos == nanos && d.wf(),
        r matches Err(m) ==> m@ == "Source duration value is out of range for the target type"@,
{
    match chrono::TimeDelta::from_std(std::time::Duration::new(secs, nanos)) {
        Ok(d) => Ok(Delta { secs: d.num_seconds(), nanos: d.subsec_nanos() as u32 }),
        Err(e) => Err(e.to_string()),
    }
}

/// `t` is an instant the system clock reads: representable, without a leap
/// second, not before the epoch. What the definition says stays in this
/// module; elsewhere an instant is known to be a clock reading only because
/// `utc_now` (or a verifier that reads the clock) handed it out, so a
/// decision stated "at a clock reading" is taken at an instant the clock
/// gave, not at one the code picked.
pub closed spec fn clock_reading(t: Timestamp) -> bool {
    t.wf() && t.secs >= 0
}

/// A clock reading is a representable instant at or after the epoch.
pub proof fn lemma_clock_reading_is_wf(t: Timestamp)
    requires
        clock_reading(t),
    ensures
        t.wf(),
        t.secs >= 0,
{
}

/// Reads the system clock through `chrono::Utc::now`. Claimed: the instant is
/// a clock reading (at or after the epoch, as the crate panics otherwise,
/// representable, and without a leap second); its value is whatever the
/// clock says.
#[verifier::external_body]
pub fn utc_now() -> (r: Timestamp)
    ensures
        r.wf(),
        r.secs >= 0,
        clock_reading(r),
{
    let now = chrono::Utc::now();
    Timestamp { secs: now.timestamp(), nanos: now.timestamp_subsec_nanos() }
}

/// Adds `d` to `t` with `DateTime<Utc>::checked_add_signed`. Claimed, for an
/// instant without a leap second: the sum carries
/// nanoseconds into seconds, and the result is `None` exactly when the sum
/// lies outside the range of `DateTime<Utc>`.
#[verifier::external_body]
pub fn checked_add(t: Timestamp, d: Delta) -> (r: Option<Timestamp>)
    requires
        t.wf(),
        d.wf(),
    ensures
        r == spec_add(t, d),
{
    let start = chrono::DateTime::from_timestamp(t.secs, t.nanos).unwrap();
    let span = chrono::TimeDelta::new(d.secs, d.nanos).unwrap();
    match start.checked_add_signed(span) {
        Some(v) => Some(Timestamp { secs: v.timestamp(), nanos: v.timestamp_subsec_nanos() }),
        None => None,
    }
}

} // verus!
