//! `builtin_interfaces`: the time stamp carried by goal messages.

use vstd::prelude::*;

verus! {

/// A point in time: whole seconds and the nanoseconds within the second.
#[derive(Clone, Copy, Debug, PartialEq, Eq, Structural, PartialOrd, Ord, Hash)]
pub struct Time {
    /// Whole seconds.
    pub sec: i32,
    /// Nanoseconds on top of `sec`.
    pub nanosec: u32,
}

impl Time {
    /// The time stamp whose two fields are zero.
    pub open spec fn spec_zero() -> Time {
        Time { sec: 0, nanosec: 0 }
    }

    /// Strictly earlier: by seconds first, by nanoseconds among equal seconds.
    pub open spec fn spec_before(self, other: Time) -> bool {
        self.sec < other.sec || (self.sec == other.sec && self.nanosec < other.nanosec)
    }

    /// The time stamp that stands for a reading of a clock which counts from
    /// the Unix epoch: the nanoseconds as they are, and the seconds as they
    /// are where they fit, else the last second that fits.
    pub open spec fn spec_from_unix(secs: u64, nanosec: u32) -> Time {
        Time {
            sec: if secs <= i32::MAX {
                secs as i32
            } else {
                i32::MAX
            },
            nanosec,
        }
    }

    /// The zero time stamp. Cancel requests use it to mean "any time".
    #[verifier::when_used_as_spec(spec_zero)]
    pub fn zero() -> (t: Time)
        ensures
            t == Time::spec_zero(),
    {
        Time { sec: 0, nanosec: 0 }
    }

    /// Makes a time stamp from its two fields.
    pub fn new(sec: i32, nanosec: u32) -> (t: Time)
        ensures
            t == (Time { sec, nanosec }),
    {
        Time { sec, nanosec }
    }

    /// The time stamp of a clock reading of `secs` seconds and `nanosec`
    /// nanoseconds since the Unix epoch. A reading too far ahead for the
    /// seconds to fit gives the last second that fits.
    #[verifier::when_used_as_spec(spec_from_unix)]
    pub fn from_unix(secs: u64, nanosec: u32) -> (t: Time)
        ensures
            t == Time::spec_from_unix(secs, nanosec),
    {
        let sec: i32 = if secs <= 0x7fff_ffff {
            secs as i32
        } else {
            i32::MAX
        };
        Time { sec, nanosec }
    }

    /// Whether this is the zero time stamp.
    pub fn is_zero(&self) -> (b: bool)
        ensures
            b == (*self == Time::spec_zero()),
    {
        self.sec == 0 && self.nanosec == 0
    }

    /// Whether `self` is strictly earlier than `other`.
    #[verifier::when_used_as_spec(spec_before)]
    pub fn before(self, other: Time) -> (b: bool)
        ensures
            b == self.spec_before(other),
    {
        self.sec < other.sec || (self.sec == other.sec && self.nanosec < other.nanosec)
    }
}

} // verus!
