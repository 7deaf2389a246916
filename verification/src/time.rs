//! Spans of time as they stand in a configuration.

use vstd::prelude::*;

verus! {

/// Nanoseconds in one second.
pub const NANOS_PER_SEC: u32 = 1_000_000_000;

/// Why a configured value is no span of time.
#[derive(Clone, Copy, Debug, PartialEq, Eq, Structural)]
pub enum TimeError {
    /// The value is not a time of day alone: it has a date or an offset,
    /// or it has no time.
    NotATime,
}

/// A span of time: whole seconds and the nanoseconds beyond them.
#[derive(Clone, Copy, Debug, PartialEq, Eq, PartialOrd, Ord)]
pub struct Time {
    secs: u64,
    nanos: u32,
}

impl Time {
    #[verifier::type_invariant]
    spec fn in_range(self) -> bool {
        self.nanos < NANOS_PER_SEC
    }

    /// The whole seconds of the span.
    pub closed spec fn spec_secs(self) -> u64 {
        self.secs
    }

    /// The nanoseconds beyond the whole seconds.
    pub closed spec fn spec_nanos(self) -> u32 {
        self.nanos
    }

    /// The span in nanoseconds.
    pub open spec fn total_nanos(self) -> nat {
        (self.spec_secs() * NANOS_PER_SEC + self.spec_nanos()) as nat
    }

    /// A span of whole seconds.
    pub fn from_secs(secs: u64) -> (t: Time)
        ensures
            t.spec_secs() == secs,
            t.spec_nanos() == 0,
    {
        Time { secs, nanos: 0 }
    }

    /// The span from midnight to a time of day. Nanoseconds beyond one
    /// second count as seconds.
    pub fn from_hms(hour: u8, minute: u8, second: u8, nanosecond: u32) -> (t: Time)
        ensures
            t.total_nanos() == (hour * 3600 + minute * 60 + second) * NANOS_PER_SEC + nanosecond,
            t.spec_nanos() == nanosecond % NANOS_PER_SEC,
    {
        let whole: u64 = hour as u64 * 3600 + minute as u64 * 60 + second as u64;
        let carry: u32 = nanosecond / NANOS_PER_SEC;
        let nanos: u32 = nanosecond % NANOS_PER_SEC;
        Time { secs: whole + carry as u64, nanos }
    }

    /// Reads a configured date-time as a span: it has to be a time of day
    /// without date and without offset.
    pub fn from_datetime(has_date: bool, time: Option<(u8, u8, u8, u32)>, has_offset: bool) -> (out:
        Result<Time, TimeError>)
        ensures
            match out {
                Err(e) => e == TimeError::NotATime && (has_date || has_offset || time is None),
                Ok(t) => !has_date && !has_offset && match time {
                    Some((hour, minute, second, nanosecond)) => t.total_nanos() == (hour * 3600
                        + minute * 60 + second) * NANOS_PER_SEC + nanosecond && t.spec_nanos()
                        == nanosecond % NANOS_PER_SEC,
                    None => false,
                },
            },
    {
        if has_date || has_offset {
            return Err(TimeError::NotATime);
        }
        match time {
            None => Err(TimeError::NotATime),
            Some((hour, minute, second, nanosecond)) => Ok(
                Time::from_hms(hour, minute, second, nanosecond),
            ),
        }
    }

    /// The whole seconds of the span.
    pub fn as_secs(&self) -> (secs: u64)
        ensures
            secs == self.spec_secs(),
    {
        self.secs
    }

    /// The nanoseconds beyond the whole seconds; fewer than a second's.
    pub fn subsec_nanos(&self) -> (nanos: u32)
        ensures
            nanos == self.spec_nanos(),
            nanos < NANOS_PER_SEC,
    {
        proof {
            use_type_invariant(self);
        }
        self.nanos
    }
}

} // verus!
