//! Points in time and spans of time.
use std::time::Duration;
use vstd::prelude::*;

verus! {

/// The length of a `Duration` in nanoseconds.
pub uninterp spec fn duration_nanos(d: Duration) -> nat;

/// `Duration::from_millis` makes the span of exactly that many milliseconds.
pub assume_specification[ Duration::from_millis ](millis: u64) -> (d: Duration)
    ensures
        duration_nanos(d) == millis as nat * 1_000_000,
;

/// `Duration::as_millis` returns the number of whole milliseconds that a span holds.
pub assume_specification[ Duration::as_millis ](d: &Duration) -> (millis: u128)
    ensures
        millis as nat == duration_nanos(*d) / 1_000_000,
;

/// The clock reading of std.
#[verifier::external_type_specification]
#[verifier::external_body]
pub struct ExSystemTime(std::time::SystemTime);

/// `SystemTime::now` reads the system clock; nothing is known of what it shows.
pub assume_specification[ std::time::SystemTime::now ]() -> (t: std::time::SystemTime)
;

/// The span from the Unix epoch to a clock reading; `None` for a reading before it.
pub uninterp spec fn span_since_epoch(t: std::time::SystemTime) -> Option<Duration>;

/// `SystemTime::duration_since` the Unix epoch: the span since then, or nothing for a reading
/// before it.
#[verifier::external_body]
fn since_unix_epoch(t: &std::time::SystemTime) -> (r: Option<Duration>)
    ensures
        r == span_since_epoch(*t),
{
    t.duration_since(std::time::UNIX_EPOCH).ok()
}

/// Milliseconds in a span since the Unix epoch, modulo 2^64; zero for a clock before the epoch.
pub open spec fn epoch_millis(since: Option<Duration>) -> nat {
    match since {
        Some(d) => (duration_nanos(d) / 1_000_000) % 0x1_0000_0000_0000_0000,
        None => 0,
    }
}

/// Milliseconds in a span since the Unix epoch.
pub fn epoch_ms(since: Option<Duration>) -> (r: u64)
    ensures
        r as nat == epoch_millis(since),
        since is None ==> r == 0,
        since is Some ==> r as nat == (duration_nanos(since->0) / 1_000_000)
            % 0x1_0000_0000_0000_0000,
{
    match since {
        Some(d) => low_64_bits(d.as_millis()),
        None => 0,
    }
}

/// The value of a number modulo 2^64.
pub fn low_64_bits(n: u128) -> (r: u64)
    ensures
        r as nat == n as nat % 0x1_0000_0000_0000_0000,
{
    let r: u64 = #[verifier::truncate] (n as u64);
    assert(r == n % 0x1_0000_0000_0000_0000) by (bit_vector)
        requires
            r == n as u64,
    ;
    r
}

/// The current time in milliseconds since the Unix epoch.
pub fn now_ms() -> (r: u64)
    ensures
        exists|t: std::time::SystemTime| r as nat == epoch_millis(#[trigger] span_since_epoch(t)),
{
    let t = std::time::SystemTime::now();
    let since = since_unix_epoch(&t);
    epoch_ms(since)
}

/// A point in time: whole seconds since the Unix epoch, and nanoseconds after that second.
#[derive(Clone, Copy, Debug, PartialEq, Eq, Structural)]
pub struct Timestamp {
    pub secs: i64,
    pub nanos: u32,
}

impl Timestamp {
    /// Nanoseconds since the Unix epoch.
    pub open spec fn since_epoch(self) -> int {
        self.secs * 1_000_000_000 + self.nanos
    }

    /// Whether the clock can show this point: it lies in the calendar, and its nanoseconds are
    /// those of one second.
    pub open spec fn is_reading(self) -> bool {
        &&& rfc3339_text(self.secs, self.nanos) is Some
        &&& self.nanos < 1_000_000_000
    }

    /// Whether this point lies more than `minutes` after `earlier`.
    pub fn is_past(&self, earlier: &Timestamp, minutes: u32) -> (r: bool)
        ensures
            r == (self.since_epoch() > earlier.since_epoch() + minutes * 60 * 1_000_000_000),
            r == (self.secs * 1_000_000_000 + self.nanos > (earlier.secs + minutes * 60)
                * 1_000_000_000 + earlier.nanos),
    {
        let here: i128 = self.secs as i128 * 1_000_000_000 + self.nanos as i128;
        let there: i128 = earlier.secs as i128 * 1_000_000_000 + earlier.nanos as i128;
        here > there + minutes as i128 * 60_000_000_000
    }

    /// The current time.
    pub fn now() -> (r: Timestamp)
        ensures
            r.is_reading(),
    {
        let (secs, nanos) = utc_now();
        Timestamp { secs, nanos }
    }

    /// The time in RFC 3339 notation, in UTC with milliseconds and `Z`; nothing for a point
    /// outside the calendar's range.
    pub fn rfc3339(&self) -> (r: Option<String>)
        ensures
            crate::text::opt_text(r) == rfc3339_text(self.secs, self.nanos),
    {
        format_rfc3339(self.secs, self.nanos)
    }
}

/// What chrono writes for a point in time in RFC 3339 notation, in UTC with milliseconds and
/// `Z`; `None` for a point outside its calendar.
pub uninterp spec fn rfc3339_text(secs: i64, nanos: u32) -> Option<Seq<char>>;

/// `chrono::Utc::now`, as its seconds and nanoseconds. What it shows is the clock's; chrono
/// promises that these two make the same `DateTime` again, so they can be written out. The
/// nanoseconds are the part of the clock's reading below a second, never that of a leap second.
/// It panics on a clock set before the Unix epoch.
#[verifier::external_body]
fn utc_now() -> (r: (i64, u32))
    ensures
        rfc3339_text(r.0, r.1) is Some,
        r.1 < 1_000_000_000,
{
    let now = chrono::Utc::now();
    (now.timestamp(), now.timestamp_subsec_nanos())
}

/// `chrono::DateTime::to_rfc3339_opts` with milliseconds and `Z`, on the `DateTime` that
/// `from_timestamp` makes of the seconds and nanoseconds.
#[verifier::external_body]
fn format_rfc3339(secs: i64, nanos: u32) -> (r: Option<String>)
    ensures
        crate::text::opt_text(r) == rfc3339_text(secs, nanos),
{
    chrono::DateTime::from_timestamp(secs, nanos).map(
        |t| t.to_rfc3339_opts(chrono::SecondsFormat::Millis, true),
    )
}

/// Whether the clock can show this second, in seconds since the Unix epoch: it lies in the
/// calendar.
pub open spec fn clock_shows(secs: i64) -> bool {
    exists|nanos: u32| #[trigger] rfc3339_text(secs, nanos) is Some && nanos < 1_000_000_000
}

/// The current time in whole seconds since the Unix epoch.
pub fn now_seconds() -> (r: i64)
    ensures
        clock_shows(r),
{
    let (secs, nanos) = utc_now();
    assert(rfc3339_text(secs, nanos) is Some && nanos < 1_000_000_000);
    secs
}

/// Whole milliseconds are counted, and no others: a span of that many milliseconds and less than
/// one more counts as that many, as long as the count fits.
pub proof fn law_milliseconds_are_counted(d: Duration, millis: u64)
    requires
        millis * 1_000_000 <= duration_nanos(d),
        duration_nanos(d) < (millis + 1) * 1_000_000,
    ensures
        epoch_millis(Some(d)) == millis,
        epoch_millis(None) == 0,
{
    assert(duration_nanos(d) / 1_000_000 == millis);
}

/// A point in time is as many nanoseconds after another as its seconds and nanoseconds say.
pub proof fn law_points_in_time_are_apart(a: Timestamp, b: Timestamp)
    ensures
        a.since_epoch() - b.since_epoch() == (a.secs - b.secs) * 1_000_000_000 + (a.nanos
            - b.nanos),
        (Timestamp { secs: 0, nanos: 0 }).since_epoch() == 0,
{
}

/// What the clock can show is exactly what the calendar can tell, within one second.
pub proof fn law_readings_can_be_told(t: Timestamp)
    ensures
        t.is_reading() <==> rfc3339_text(t.secs, t.nanos) is Some && t.nanos < 1_000_000_000,
        t.is_reading() ==> clock_shows(t.secs),
        clock_shows(t.secs) ==> exists|nanos: u32|
            #[trigger] rfc3339_text(t.secs, nanos) is Some && nanos < 1_000_000_000,
{
}

} // verus!
