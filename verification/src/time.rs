//! Spans of time and instants, counted in whole nanoseconds.

use vstd::prelude::*;

verus! {

/// The longest span: `u64::MAX` seconds and 999 999 999 nanoseconds.
pub const MAX_SPAN_NANOS: u128 = 18_446_744_073_709_551_615_999_999_999;

/// The earliest instant, the start of the year -9999, in nanoseconds from the
/// Unix epoch.
pub const MIN_INSTANT_NANOS: i128 = -377_705_116_800_000_000_000;

/// The latest instant, the end of the year 9999, in nanoseconds from the Unix
/// epoch.
pub const MAX_INSTANT_NANOS: i128 = 253_402_300_799_999_999_999;

/// The start of the year 0, in nanoseconds from the Unix epoch.
pub const YEAR_ZERO_NANOS: i128 = -62_167_219_200_000_000_000;

/// The RFC 3339 text, in UTC, of the instant that many nanoseconds after the Unix
/// epoch; an instant before the year 0 has none.
pub uninterp spec fn rfc3339(unix_nanos: int) -> Option<Seq<char>>;

/// Calls `OffsetDateTime::format` of the `time` crate with `Rfc3339`, on the instant
/// that `OffsetDateTime::from_unix_timestamp_nanos` makes of the nanoseconds. The
/// text is a function of the instant, named by `rfc3339`; formatting fails exactly
/// when the year has no four digits, which between these bounds is before the year
/// 0.
#[verifier::external_body]
fn format_rfc3339(unix_nanos: i128) -> (r: Option<String>)
    requires
        MIN_INSTANT_NANOS <= unix_nanos <= MAX_INSTANT_NANOS,
    ensures
        match r {
            Some(t) => rfc3339(unix_nanos as int) == Some(t@),
            None => rfc3339(unix_nanos as int) is None,
        },
        r is Some <==> unix_nanos >= YEAR_ZERO_NANOS,
{
    let at = time::OffsetDateTime::from_unix_timestamp_nanos(unix_nanos).ok()?;
    at.format(&time::format_description::well_known::Rfc3339).ok()
}

/// A non-negative span of time.
#[derive(Debug, Clone, Copy, PartialEq, Eq, Hash, Structural)]
pub struct Duration {
    nanos: u128,
}

impl Duration {
    /// The span in nanoseconds.
    pub closed spec fn view(self) -> nat {
        self.nanos as nat
    }

    #[verifier::type_invariant]
    spec fn bounded(self) -> bool {
        self.nanos <= MAX_SPAN_NANOS
    }

    /// The empty span.
    pub fn zero() -> (r: Self)
        ensures
            r@ == 0,
    {
        Duration { nanos: 0 }
    }

    /// A span of whole seconds.
    pub fn from_secs(secs: u64) -> (r: Self)
        ensures
            r@ == secs * 1_000_000_000,
    {
        Duration { nanos: (secs as u128) * 1_000_000_000 }
    }

    /// A span of whole milliseconds.
    pub fn from_millis(millis: u64) -> (r: Self)
        ensures
            r@ == millis * 1_000_000,
    {
        Duration { nanos: (millis as u128) * 1_000_000 }
    }

    /// A span of whole nanoseconds, or `None` when it exceeds the longest span.
    pub fn from_nanos(nanos: u128) -> (r: Option<Self>)
        ensures
            nanos <= MAX_SPAN_NANOS ==> r is Some && r->0@ == nanos,
            nanos > MAX_SPAN_NANOS ==> r is None,
    {
        if nanos <= MAX_SPAN_NANOS {
            Some(Duration { nanos })
        } else {
            None
        }
    }

    /// The span in nanoseconds.
    pub fn as_nanos(&self) -> (r: u128)
        ensures
            r == self@,
            r <= MAX_SPAN_NANOS,
    {
        proof {
            use_type_invariant(self);
        }
        self.nanos
    }

    /// The whole seconds in the span.
    pub fn as_secs(&self) -> (r: u64)
        ensures
            r == self@ / 1_000_000_000,
    {
        proof {
            use_type_invariant(self);
        }
        (self.nanos / 1_000_000_000) as u64
    }

    /// The whole milliseconds in the span.
    pub fn as_millis(&self) -> (r: u128)
        ensures
            r == self@ / 1_000_000,
    {
        self.nanos / 1_000_000
    }

    /// Whether the span is empty.
    pub fn is_zero(&self) -> (r: bool)
        ensures
            r == (self@ == 0),
    {
        self.nanos == 0
    }

    /// What is left of the span after taking `other` away, and nothing when
    /// `other` is longer.
    pub fn saturating_sub(self, other: Self) -> (r: Self)
        ensures
            r@ == saturating_sub_spec(self@, other@),
    {
        proof {
            use_type_invariant(self);
        }
        if self.nanos <= other.nanos {
            Duration { nanos: 0 }
        } else {
            Duration { nanos: self.nanos - other.nanos }
        }
    }

    /// Both spans together, capped at the longest span.
    pub fn saturating_add(self, other: Self) -> (r: Self)
        ensures
            r@ == saturating_add_spec(self@, other@),
    {
        proof {
            use_type_invariant(self);
            use_type_invariant(other);
        }
        let sum: u128 = self.nanos + other.nanos;
        if sum <= MAX_SPAN_NANOS {
            Duration { nanos: sum }
        } else {
            Duration { nanos: MAX_SPAN_NANOS }
        }
    }
}

/// `a - b`, and zero when `b` is larger.
pub open spec fn saturating_sub_spec(a: nat, b: nat) -> nat {
    if a <= b {
        0
    } else {
        (a - b) as nat
    }
}

/// `a + b`, capped at the longest span.
pub open spec fn saturating_add_spec(a: nat, b: nat) -> nat {
    if a + b <= MAX_SPAN_NANOS {
        a + b
    } else {
        MAX_SPAN_NANOS as nat
    }
}

/// An instant on the UTC time line.
#[derive(Debug, Clone, Copy, PartialEq, Eq, Hash, Structural)]
pub struct Timestamp {
    unix_nanos: i128,
}

impl Timestamp {
    /// The nanoseconds from the Unix epoch to the instant.
    pub closed spec fn view(self) -> int {
        self.unix_nanos as int
    }

    #[verifier::type_invariant]
    spec fn bounded(self) -> bool {
        MIN_INSTANT_NANOS <= self.unix_nanos <= MAX_INSTANT_NANOS
    }

    /// The start of 1970.
    pub fn unix_epoch() -> (r: Self)
        ensures
            r@ == 0,
    {
        Timestamp { unix_nanos: 0 }
    }

    /// The instant `nanos` nanoseconds after the Unix epoch, or `None` when it
    /// lies outside the years -9999 to 9999.
    pub fn from_unix_nanos(nanos: i128) -> (r: Option<Self>)
        ensures
            MIN_INSTANT_NANOS <= nanos <= MAX_INSTANT_NANOS ==> r is Some && r->0@ == nanos,
            !(MIN_INSTANT_NANOS <= nanos <= MAX_INSTANT_NANOS) ==> r is None,
    {
        if MIN_INSTANT_NANOS <= nanos && nanos <= MAX_INSTANT_NANOS {
            Some(Timestamp { unix_nanos: nanos })
        } else {
            None
        }
    }

    /// The nanoseconds from the Unix epoch to the instant.
    pub fn unix_nanos(&self) -> (r: i128)
        ensures
            r == self@,
            MIN_INSTANT_NANOS <= r <= MAX_INSTANT_NANOS,
    {
        proof {
            use_type_invariant(self);
        }
        self.unix_nanos
    }

    /// The RFC 3339 text of the instant, in UTC, or `None` before the year 0.
    pub fn to_rfc3339(&self) -> (r: Option<String>)
        ensures
            match r {
                Some(t) => rfc3339(self@) == Some(t@),
                None => rfc3339(self@) is None,
            },
            r is Some <==> self@ >= YEAR_ZERO_NANOS,
    {
        proof {
            use_type_invariant(self);
        }
        format_rfc3339(self.unix_nanos)
    }

    /// The time from `earlier` to this instant, and nothing when this instant
    /// comes first.
    pub fn elapsed_since(&self, earlier: Timestamp) -> (r: Duration)
        ensures
            r@ == elapsed(earlier@, self@),
    {
        proof {
            use_type_invariant(self);
            use_type_invariant(earlier);
        }
        if self.unix_nanos <= earlier.unix_nanos {
            Duration::zero()
        } else {
            let span: i128 = self.unix_nanos - earlier.unix_nanos;
            Duration { nanos: span as u128 }
        }
    }

    /// The instant `span` later, or `None` past the last instant.
    pub fn checked_add(&self, span: Duration) -> (r: Option<Self>)
        ensures
            self@ + span@ <= MAX_INSTANT_NANOS ==> r is Some && r->0@ == self@ + span@,
            self@ + span@ > MAX_INSTANT_NANOS ==> r is None,
    {
        let nanos: u128 = span.as_nanos();
        proof {
            use_type_invariant(self);
        }
        let sum: i128 = self.unix_nanos + nanos as i128;
        if sum <= MAX_INSTANT_NANOS {
            Some(Timestamp { unix_nanos: sum })
        } else {
            None
        }
    }
}

/// The nanoseconds from `started` to `now`; a `now` before `started` counts as
/// no time at all.
pub open spec fn elapsed(started: int, now: int) -> nat {
    if now <= started {
        0
    } else {
        (now - started) as nat
    }
}

/// A span is its nanoseconds and an instant is its distance from the epoch: equal
/// counts mean equal values.
pub proof fn counts_tell_times_apart(a: Duration, b: Duration, s: Timestamp, t: Timestamp)
    ensures
        a == b <==> a@ == b@,
        s == t <==> s@ == t@,
{
}

/// Spans add and subtract as numbers do, except that nothing is less than no time and
/// nothing more than the longest span.
pub proof fn spans_add_and_subtract(a: Duration, b: Duration, less: Duration, more: Duration)
    requires
        call_ensures(Duration::saturating_sub, (a, b), less),
        call_ensures(Duration::saturating_add, (a, b), more),
    ensures
        b@ <= a@ ==> less@ + b@ == a@,
        a@ <= b@ ==> less@ == 0,
        a@ + b@ <= 18_446_744_073_709_551_615_999_999_999 ==> more@ == a@ + b@,
        a@ + b@ >= 18_446_744_073_709_551_615_999_999_999 ==> more@
            == 18_446_744_073_709_551_615_999_999_999,
{
}

/// Units are what they say: a second is a thousand milliseconds and a thousand million
/// nanoseconds, and counts are rounded down.
pub proof fn units_agree(
    n: u64,
    from_secs: Duration,
    from_millis: Duration,
    span: Duration,
    secs: u64,
    millis: u128,
    nanos: u128,
)
    requires
        call_ensures(Duration::from_secs, (n,), from_secs),
        call_ensures(Duration::from_millis, (n,), from_millis),
        call_ensures(Duration::as_secs, (&span,), secs),
        call_ensures(Duration::as_millis, (&span,), millis),
        call_ensures(Duration::as_nanos, (&span,), nanos),
    ensures
        from_secs@ == n * 1_000_000_000,
        from_millis@ == n * 1_000_000,
        nanos == span@,
        secs * 1_000_000_000 <= span@ < (secs + 1) * 1_000_000_000,
        millis * 1_000_000 <= span@ < (millis + 1) * 1_000_000,
{
}

/// A count of nanoseconds survives being made a span or an instant.
pub proof fn counts_survive(
    n: u128,
    span: Option<Duration>,
    i: i128,
    instant: Option<Timestamp>,
    back: u128,
    again: i128,
    empty: bool,
)
    requires
        call_ensures(Duration::from_nanos, (n,), span),
        call_ensures(Timestamp::from_unix_nanos, (i,), instant),
        span is Some ==> call_ensures(Duration::as_nanos, (&span->0,), back),
        span is Some ==> call_ensures(Duration::is_zero, (&span->0,), empty),
        instant is Some ==> call_ensures(Timestamp::unix_nanos, (&instant->0,), again),
    ensures
        span is Some <==> n <= 18_446_744_073_709_551_615_999_999_999,
        span is Some ==> back == n && (empty <==> n == 0),
        instant is Some <==> -377_705_116_800_000_000_000 <= i <= 253_402_300_799_999_999_999,
        instant is Some ==> again == i,
{
}

/// The time between two instants leads from one to the other, and no time leads back.
pub proof fn elapsed_time_leads_to_the_later_instant(
    early: Timestamp,
    late: Timestamp,
    between: Duration,
    back: Duration,
    reached: Option<Timestamp>,
)
    requires
        early@ <= late@ <= 253_402_300_799_999_999_999,
        call_ensures(Timestamp::elapsed_since, (&late, early), between),
        call_ensures(Timestamp::elapsed_since, (&early, late), back),
        call_ensures(Timestamp::checked_add, (&early, between), reached),
    ensures
        early@ + between@ == late@,
        back@ == 0,
        reached is Some && reached->0@ == late@,
{
}

/// An instant can be put off by a span exactly when the calendar reaches that far.
pub proof fn instants_move_on(at: Timestamp, span: Duration, reached: Option<Timestamp>)
    requires
        call_ensures(Timestamp::checked_add, (&at, span), reached),
    ensures
        reached is Some <==> at@ + span@ <= 253_402_300_799_999_999_999,
        reached is Some ==> reached->0@ - at@ == span@,
{
}

} // verus!
