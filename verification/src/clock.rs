//! The clocks that the supervisor and the launcher read.

use vstd::prelude::*;

verus! {

/// A point in time: whole seconds since the start of 1970 and the
/// nanoseconds of the second under way.
#[derive(Debug, Clone, Copy, PartialEq, Eq, Structural)]
pub struct Timespec {
    pub sec: i64,
    pub nsec: i32,
}

impl Timespec {
    /// The nanoseconds are less than one second.
    pub open spec fn valid(self) -> bool {
        0 <= self.nsec < 1_000_000_000
    }

    /// The point in time `sec` seconds and `nsec` nanoseconds after the
    /// start of 1970.
    pub fn new(sec: i64, nsec: i32) -> (r: Timespec)
        requires
            0 <= nsec < 1_000_000_000,
        ensures
            r == (Timespec { sec, nsec }),
            r.valid(),
    {
        Timespec { sec, nsec }
    }
}

/// The wall clock, from `time::get_time`. Nothing is known of the time it
/// gives but that its nanoseconds are less than a second, which
/// `time::Timespec::new` sees to.
#[verifier::external_body]
pub(crate) fn wall_clock() -> (r: Timespec)
    ensures
        r.valid(),
{
    let t = time::get_time();
    Timespec { sec: t.sec, nsec: t.nsec }
}

/// The steady clock, from `time::precise_time_ns`: nanoseconds since a
/// moment that is not specified. Nothing is claimed of the value.
#[verifier::external_body]
pub(crate) fn steady_clock() -> (r: u64)
{
    time::precise_time_ns()
}

/// The longest span of time, in seconds, that can be written as text.
pub const MAX_SPAN_SECS: i64 = 9_000_000_000_000_000;

/// Whether the span of time from `from` to `to` can be written as text:
/// both are valid times, and they are not further apart than the longest
/// span.
pub open spec fn span_in_range(from: Timespec, to: Timespec) -> bool {
    &&& from.valid()
    &&& to.valid()
    &&& -MAX_SPAN_SECS <= to.sec - from.sec <= MAX_SPAN_SECS
}

/// The span of time from one point in time to another as
/// `time::Duration` writes it, each point given by its seconds and
/// nanoseconds.
pub uninterp spec fn span_text(from_sec: int, from_nsec: int, to_sec: int, to_nsec: int) -> Seq<char>;

/// The span of time from `from` to `to`, written by the `Display` of
/// `time::Duration`: the difference of two `time::Timespec`. The text
/// depends on the two times alone. Times further apart than the longest
/// span are left out, for `time::Duration::seconds` does not take them.
#[verifier::external_body]
pub(crate) fn write_span(from: Timespec, to: Timespec) -> (r: String)
    requires
        span_in_range(from, to),
    ensures
        r@ == span_text(from.sec as int, from.nsec as int, to.sec as int, to.nsec as int),
{
    let span = time::Timespec::new(to.sec, to.nsec) - time::Timespec::new(from.sec, from.nsec);
    format!("{}", span)
}

/// Whether the span of time from `from` to `to` can be written as text.
pub fn can_write_span(from: Timespec, to: Timespec) -> (r: bool)
    ensures
        r == span_in_range(from, to),
{
    let valid = from.nsec >= 0 && from.nsec < 1_000_000_000 && to.nsec >= 0 && to.nsec
        < 1_000_000_000;
    let apart: i128 = to.sec as i128 - from.sec as i128;
    valid && apart >= -(MAX_SPAN_SECS as i128) && apart <= MAX_SPAN_SECS as i128
}

} // verus!
