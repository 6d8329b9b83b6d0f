use vstd::prelude::*;

verus! {

/// Nanoseconds in one second.
pub const NANOS_PER_SEC: u32 = 1_000_000_000;

/// A non-negative length of time.
#[derive(Clone, Copy, Debug, PartialEq, Eq, Structural)]
pub struct Span {
    pub secs: u64,
    pub nanos: u32,
}

/// An instant as seconds and nanoseconds since the Unix epoch (UTC).
/// `nanos` may reach past one second only while a leap second lasts.
#[derive(Clone, Copy, Debug, PartialEq, Eq, Structural)]
pub struct Timestamp {
    pub secs: i64,
    pub nanos: u32,
}

impl Span {
    /// A span of whole seconds.
    pub fn from_secs(secs: u64) -> (r: Span)
        ensures
            r == (Span { secs, nanos: 0 }),
    {
        Span { secs, nanos: 0 }
    }
}

/// `a` is at or before `b`.
pub open spec fn not_after(a: Timestamp, b: Timestamp) -> bool {
    a.secs < b.secs || (a.secs == b.secs && a.nanos <= b.nanos)
}

/// Whether `a` is at or before `b`.
pub fn is_not_after(a: Timestamp, b: Timestamp) -> (r: bool)
    ensures
        r == not_after(a, b),
{
    a.secs < b.secs || (a.secs == b.secs && a.nanos <= b.nanos)
}

/// The instant `d` after `t`, with the nanoseconds carried into whole
/// seconds; `None` where the seconds leave the range of `i64`.
pub open spec fn shifted(t: Timestamp, d: Span) -> Option<Timestamp> {
    let total_nanos = t.nanos + d.nanos;
    let secs = t.secs + d.secs + total_nanos / (NANOS_PER_SEC as int);
    if i64::MIN <= secs <= i64::MAX {
        Some(Timestamp { secs: secs as i64, nanos: (total_nanos % (NANOS_PER_SEC as int)) as u32 })
    } else {
        None
    }
}

/// `t` moved forward by `d`, if the result can be held.
pub fn checked_shift(t: Timestamp, d: Span) -> (r: Option<Timestamp>)
    ensures
        r == shifted(t, d),
{
    let total_nanos: u64 = t.nanos as u64 + d.nanos as u64;
    let carry: u64 = total_nanos / (NANOS_PER_SEC as u64);
    let rest: u64 = total_nanos % (NANOS_PER_SEC as u64);
    let secs: i128 = t.secs as i128 + d.secs as i128 + carry as i128;
    if i64::MIN as i128 <= secs && secs <= i64::MAX as i128 {
        Some(Timestamp { secs: secs as i64, nanos: rest as u32 })
    } else {
        None
    }
}

/// The span `d` lengthened by `secs` whole seconds; `None` on overflow.
pub open spec fn extended(d: Span, secs: u64) -> Option<Span> {
    if d.secs + secs <= u64::MAX {
        Some(Span { secs: (d.secs + secs) as u64, nanos: d.nanos })
    } else {
        None
    }
}

/// `d` lengthened by `secs` whole seconds, if the result can be held.
pub fn checked_extend(d: Span, secs: u64) -> (r: Option<Span>)
    ensures
        r == extended(d, secs),
{
    match d.secs.checked_add(secs) {
        Some(s) => Some(Span { secs: s, nanos: d.nanos }),
        None => None,
    }
}

/// The most decimal digits a duration text may hold to be parsed. With at
/// most this many, every duration it can name stays far below `u64::MAX`
/// seconds (even in years), which the parser needs in order to return.
pub const MAX_DURATION_DIGITS: usize = 11;

/// How many of the characters of `s` are ASCII decimal digits.
pub open spec fn digit_count(s: Seq<char>) -> nat
    decreases s.len(),
{
    if s.len() == 0 {
        0
    } else {
        digit_count(s.drop_last()) + if '0' <= s.last() && s.last() <= '9' {
            1nat
        } else {
            0nat
        }
    }
}

/// Counts the ASCII decimal digits of `s`.
pub fn count_digits(s: &str) -> (r: usize)
    ensures
        r == digit_count(s@),
{
    let n = s.unicode_len();
    let mut count: usize = 0;
    let mut i: usize = 0;
    while i < n
        invariant
            n == s@.len(),
            i <= n,
            count <= i,
            count == digit_count(s@.subrange(0, i as int)),
        decreases n - i,
    {
        assert(s@.subrange(0, i + 1).drop_last() =~= s@.subrange(0, i as int));
        let c = s.get_char(i);
        if '0' <= c && c <= '9' {
            count = count + 1;
        }
        i = i + 1;
    }
    assert(s@.subrange(0, n as int) =~= s@);
    count
}

/// The outcome of parsing a duration text, as seconds and nanoseconds.
pub uninterp spec fn duration_of_text(s: Seq<char>) -> Option<(u64, u32)>;

/// The instant that an RFC 3339 text names, as Unix seconds and nanoseconds.
pub uninterp spec fn instant_of_rfc3339(s: Seq<char>) -> Option<(i64, u32)>;

/// The RFC 3339 text of the UTC instant given as Unix seconds and nanoseconds;
/// `None` where no calendar date can hold it.
pub uninterp spec fn rfc3339_of_instant(secs: i64, nanos: u32) -> Option<Seq<char>>;

#[verifier::external_type_specification]
#[verifier::external_body]
pub struct ExDurationError(humantime::DurationError);

#[verifier::external_type_specification]
#[verifier::external_body]
pub struct ExParseError(chrono::ParseError);

/// Relies on humantime::parse_duration: its outcome depends on the text alone,
/// and the sub-second part of a std Duration stays below one second. The
/// parser panics when its running total reaches `u64::MAX` seconds with a
/// whole second still to carry; the bound on digits keeps such texts out.
#[verifier::external_body]
pub(crate) fn parse_duration_text(s: &str) -> (r: Result<Span, humantime::DurationError>)
    requires
        digit_count(s@) <= MAX_DURATION_DIGITS,
    ensures
        match r {
            Ok(d) => duration_of_text(s@) == Some((d.secs, d.nanos)) && d.nanos < NANOS_PER_SEC,
            Err(_) => duration_of_text(s@) is None,
        },
{
    match humantime::parse_duration(s) {
        Ok(d) => Ok(Span { secs: d.as_secs(), nanos: d.subsec_nanos() }),
        Err(e) => Err(e),
    }
}

/// Relies on chrono's DateTime::parse_from_rfc3339, read back through
/// `timestamp` and `timestamp_subsec_nanos`: the outcome depends on the text alone.
#[verifier::external_body]
pub(crate) fn parse_rfc3339(s: &str) -> (r: Result<Timestamp, chrono::ParseError>)
    ensures
        match r {
            Ok(t) => instant_of_rfc3339(s@) == Some((t.secs, t.nanos)),
            Err(_) => instant_of_rfc3339(s@) is None,
        },
{
    match chrono::DateTime::parse_from_rfc3339(s) {
        Ok(d) => Ok(Timestamp { secs: d.timestamp(), nanos: d.timestamp_subsec_nanos() }),
        Err(e) => Err(e),
    }
}

/// Relies on chrono's DateTime::from_timestamp, then `to_rfc3339` on the UTC
/// value: the outcome depends on the two numbers alone.
#[verifier::external_body]
pub(crate) fn format_rfc3339(t: Timestamp) -> (r: Option<String>)
    ensures
        match r {
            Some(text) => rfc3339_of_instant(t.secs, t.nanos) == Some(text@),
            None => rfc3339_of_instant(t.secs, t.nanos) is None,
        },
{
    match chrono::DateTime::from_timestamp(t.secs, t.nanos) {
        Some(d) => Some(d.to_rfc3339()),
        None => None,
    }
}

} // verus!
