//! Instants of time, as the records of the service carry them.
//!
//! An instant is held as the number of whole seconds since the start of 1970
//! (UTC, leap seconds not counted) and the nanoseconds since that second.
//! The range and the treatment of leap seconds are those of
//! `chrono::DateTime<chrono::Utc>`, so that every `Timestamp` is one such
//! date and time, and every such date and time is one `Timestamp`.

use vstd::prelude::*;

verus! {

/// Seconds of the earliest instant: the start of the year -262143.
pub const MIN_SECONDS: i64 = -8_334_601_228_800;

/// Seconds of the last second that can be told: the end of the year 262142.
pub const MAX_SECONDS: i64 = 8_210_266_876_799;

/// Nanoseconds in a second.
pub const NANOS_PER_SECOND: u32 = 1_000_000_000;

/// `seconds` and `nanos` tell an instant: the second is in range, and the
/// nanoseconds stay below one second, or below two in the last second of a
/// minute, where the second thousand million stands for a leap second.
pub open spec fn is_instant(seconds: int, nanos: int) -> bool {
    &&& MIN_SECONDS <= seconds <= MAX_SECONDS
    &&& 0 <= nanos < 2 * NANOS_PER_SECOND
    &&& nanos >= NANOS_PER_SECOND ==> seconds % 60 == 59
}

/// An instant of time.
#[derive(Debug, Clone, Copy, PartialEq, Eq)]
pub struct Timestamp {
    seconds: i64,
    nanos: u32,
}

impl Timestamp {
    #[verifier::type_invariant]
    spec fn in_range(self) -> bool {
        is_instant(self.seconds as int, self.nanos as int)
    }

    /// Whole seconds since the start of 1970.
    pub closed spec fn spec_seconds(self) -> int {
        self.seconds as int
    }

    /// Nanoseconds since the last whole second.
    pub closed spec fn spec_nanos(self) -> int {
        self.nanos as int
    }

    /// The instant told by two numbers, where they tell one.
    pub closed spec fn spec_new(seconds: i64, nanos: u32) -> Option<Timestamp> {
        if is_instant(seconds as int, nanos as int) {
            Some(Timestamp { seconds, nanos })
        } else {
            None
        }
    }

    /// The instant `nanos` nanoseconds after the second `seconds`, or `None`
    /// where the two numbers tell no instant.
    pub fn new(seconds: i64, nanos: u32) -> (result: Option<Timestamp>)
        ensures
            result == Self::spec_new(seconds, nanos),
            result is Some <==> is_instant(seconds as int, nanos as int),
            result matches Some(t) ==> t.spec_seconds() == seconds && t.spec_nanos() == nanos,
    {
        if seconds < MIN_SECONDS || seconds > MAX_SECONDS || nanos >= 2 * NANOS_PER_SECOND {
            return None;
        }
        if nanos >= NANOS_PER_SECOND && !Self::ends_minute(seconds) {
            return None;
        }
        Some(Timestamp { seconds, nanos })
    }

    /// Whether `seconds` is the last second of a minute.
    fn ends_minute(seconds: i64) -> (last: bool)
        ensures
            last == (seconds as int % 60 == 59),
    {
        let within: i64 = seconds % 60;
        within == 59 || within == -1
    }

    /// Whole seconds since the start of 1970.
    pub fn seconds(&self) -> (seconds: i64)
        ensures
            seconds == self.spec_seconds(),
            is_instant(self.spec_seconds(), self.spec_nanos()),
    {
        proof {
            use_type_invariant(self);
        }
        self.seconds
    }

    /// Nanoseconds since the last whole second.
    pub fn nanos(&self) -> (nanos: u32)
        ensures
            nanos == self.spec_nanos(),
            is_instant(self.spec_seconds(), self.spec_nanos()),
    {
        proof {
            use_type_invariant(self);
        }
        self.nanos
    }

    /// An instant is told by its two numbers, and by them alone: putting the
    /// numbers of an instant together again gives the same instant.
    pub proof fn lemma_parts_tell_instant(t: Timestamp)
        requires
            is_instant(t.spec_seconds(), t.spec_nanos()),
        ensures
            Timestamp::spec_new(t.spec_seconds() as i64, t.spec_nanos() as u32) == Some(t),
    {
    }
}

} // verus!
