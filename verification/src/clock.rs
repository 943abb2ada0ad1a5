//! Points in time, and the offset that re-bases every timestamp of one run.

use vstd::prelude::*;

verus! {

/// The largest distance from the Unix epoch, in nanoseconds, that a
/// [`Timestamp`] can hold.
pub const MAX_TIMESTAMP_NANOS: i128 = 1_000_000_000_000_000_000_000_000_000;

/// The largest magnitude, in nanoseconds, that a [`TimeOffset`] can hold.
pub const MAX_OFFSET_NANOS: i128 = 10_000_000_000_000_000_000_000_000_000;

/// The margin by which a re-based run starts before the program did: ten
/// minutes, in nanoseconds.
pub const LOOKBACK_NANOS: i128 = 600_000_000_000;

/// A point in time: nanoseconds since the Unix epoch.
#[derive(Clone, Copy, Debug)]
pub struct Timestamp {
    nanos: i128,
}

/// A signed duration in nanoseconds, added to every timestamp of one run.
#[derive(Clone, Copy, Debug)]
pub struct TimeOffset {
    nanos: i128,
}

impl View for Timestamp {
    type V = int;

    closed spec fn view(&self) -> int {
        self.nanos as int
    }
}

impl View for TimeOffset {
    type V = int;

    closed spec fn view(&self) -> int {
        self.nanos as int
    }
}

impl Timestamp {
    #[verifier::type_invariant]
    spec fn in_range(self) -> bool {
        -MAX_TIMESTAMP_NANOS <= self.nanos <= MAX_TIMESTAMP_NANOS
    }

    /// The timestamp that lies `nanos` nanoseconds after the Unix epoch, if
    /// that is within the range of the type.
    pub fn from_unix_nanos(nanos: i128) -> (out: Option<Timestamp>)
        ensures
            out is Some <==> -MAX_TIMESTAMP_NANOS <= nanos <= MAX_TIMESTAMP_NANOS,
            out is Some ==> out.unwrap()@ == nanos,
    {
        if -MAX_TIMESTAMP_NANOS <= nanos && nanos <= MAX_TIMESTAMP_NANOS {
            Some(Timestamp { nanos })
        } else {
            None
        }
    }

    /// Nanoseconds since the Unix epoch.
    pub fn unix_nanos(&self) -> (nanos: i128)
        ensures
            nanos == self@,
            -MAX_TIMESTAMP_NANOS <= nanos <= MAX_TIMESTAMP_NANOS,
    {
        proof {
            use_type_invariant(self);
        }
        self.nanos
    }

    /// This point in time moved by `offset`, in nanoseconds since the epoch.
    pub fn shifted(&self, offset: TimeOffset) -> (nanos: i128)
        ensures
            nanos == self@ + offset@,
    {
        proof {
            use_type_invariant(self);
            use_type_invariant(offset);
        }
        self.nanos + offset.nanos
    }
}

impl TimeOffset {
    #[verifier::type_invariant]
    spec fn in_range(self) -> bool {
        -MAX_OFFSET_NANOS <= self.nanos <= MAX_OFFSET_NANOS
    }

    /// The offset that changes nothing.
    pub fn zero() -> (out: TimeOffset)
        ensures
            out@ == 0,
    {
        TimeOffset { nanos: 0 }
    }

    /// The offset of `nanos` nanoseconds, if that is within the range of the
    /// type.
    pub fn from_nanos(nanos: i128) -> (out: Option<TimeOffset>)
        ensures
            out is Some <==> -MAX_OFFSET_NANOS <= nanos <= MAX_OFFSET_NANOS,
            out is Some ==> out.unwrap()@ == nanos,
    {
        if -MAX_OFFSET_NANOS <= nanos && nanos <= MAX_OFFSET_NANOS {
            Some(TimeOffset { nanos })
        } else {
            None
        }
    }

    /// The offset in nanoseconds.
    pub fn nanos(&self) -> (nanos: i128)
        ensures
            nanos == self@,
            -MAX_OFFSET_NANOS <= nanos <= MAX_OFFSET_NANOS,
    {
        proof {
            use_type_invariant(self);
        }
        self.nanos
    }
}

/// The offset of a run created at `created_at`, as a number: in development
/// mode the run is moved to start [`LOOKBACK_NANOS`] before the program did;
/// otherwise nothing moves.
pub open spec fn offset_for(devel: bool, program_start: int, created_at: int) -> int {
    if devel {
        program_start - created_at - LOOKBACK_NANOS
    } else {
        0
    }
}

/// Computes the offset of a run; see [`offset_for`].
pub fn time_offset(devel: bool, program_start: Timestamp, created_at: Timestamp) -> (out:
    TimeOffset)
    ensures
        out@ == offset_for(devel, program_start@, created_at@),
{
    if devel {
        let start = program_start.unix_nanos();
        let created = created_at.unix_nanos();
        let nanos: i128 = start - created - LOOKBACK_NANOS;
        TimeOffset::from_nanos(nanos).unwrap()
    } else {
        TimeOffset::zero()
    }
}

/// Moving two timestamps by one offset keeps the duration between them.
pub proof fn lemma_offset_keeps_durations(a: Timestamp, b: Timestamp, offset: TimeOffset)
    ensures
        (b@ + offset@) - (a@ + offset@) == b@ - a@,
{
}

/// In development mode a run starts, after the move, exactly
/// [`LOOKBACK_NANOS`] before the program did.
pub proof fn lemma_rebased_start(program_start: Timestamp, created_at: Timestamp)
    ensures
        created_at@ + offset_for(true, program_start@, created_at@) == program_start@
            - LOOKBACK_NANOS,
{
}

/// How many nanoseconds a second has.
pub const NANOS_PER_SECOND: i128 = 1_000_000_000;

/// Splits a time in nanoseconds since the Unix epoch into whole seconds and
/// the nanoseconds after them. For a time before the epoch the seconds are
/// negative and the nanoseconds still count forward.
pub fn seconds_and_nanos(nanos: i128) -> (out: (i128, u32))
    ensures
        out.0 * NANOS_PER_SECOND + out.1 == nanos,
        out.1 < NANOS_PER_SECOND,
{
    if nanos >= 0 {
        (nanos / NANOS_PER_SECOND, (nanos % NANOS_PER_SECOND) as u32)
    } else {
        let before: i128 = -(nanos + 1);
        let seconds: i128 = before / NANOS_PER_SECOND;
        let rest: i128 = before % NANOS_PER_SECOND;
        (-seconds - 1, (NANOS_PER_SECOND - 1 - rest) as u32)
    }
}

} // verus!
