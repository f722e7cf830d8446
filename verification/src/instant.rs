use vstd::prelude::*;
use crate::error::ScheduleError;

verus! {

/// Earliest local reading the engine accepts (0000-01-01 00:00:00).
pub const MIN_LOCAL_SECS: i64 = -62_167_219_200;
/// Latest local reading the engine accepts (9999-12-31 23:59:59).
pub const MAX_LOCAL_SECS: i64 = 253_402_300_799;
/// Time-zone offsets lie strictly within one day of UTC.
pub const MAX_OFFSET_SECS: i32 = 86_399;

/// An absolute instant, carried as the pair of a local wall-clock reading
/// (seconds since the Unix epoch as read on the local clock) and the
/// offset of that clock from UTC, in seconds.
///
/// Two values with different offsets can denote the same absolute instant;
/// the engine only ever looks at [`Instant::utc`], so every computation is
/// invariant under the caller's chosen representation.
#[derive(Clone, Copy, Debug, PartialEq, Eq, Structural)]
pub struct Instant {
    pub local_secs: i64,
    pub offset_secs: i32,
}

/// One local wall-clock reading resolved against a time zone: it maps to
/// zero, one, or two absolute instants (a daylight-saving gap or fold).
#[derive(Clone, Copy, Debug, PartialEq, Eq, Structural)]
pub enum LocalResolution {
    /// The reading falls in a gap: no absolute instant has it.
    NoInstant,
    /// Exactly one offset applies.
    One(i32),
    /// Two offsets apply (a fold); both candidates are reported.
    Two(i32, i32),
}

impl Instant {
    /// The reading and offset stay inside ranges where every difference the
    /// engine forms fits an `i64`.
    pub open spec fn wf(self) -> bool {
        &&& MIN_LOCAL_SECS <= self.local_secs <= MAX_LOCAL_SECS
        &&& -MAX_OFFSET_SECS <= self.offset_secs <= MAX_OFFSET_SECS
    }

    /// The absolute instant denoted, as seconds since the Unix epoch in UTC.
    pub open spec fn utc(self) -> int {
        self.local_secs - self.offset_secs
    }

    /// Builds an instant from a local reading and its offset, rejecting
    /// values outside the supported range.
    pub fn new(local_secs: i64, offset_secs: i32) -> (r: Option<Instant>)
        ensures
            r matches Some(t) ==> t == (Instant { local_secs, offset_secs }) && t.wf(),
            r is None <==> !(Instant { local_secs, offset_secs }).wf(),
    {
        if MIN_LOCAL_SECS <= local_secs && local_secs <= MAX_LOCAL_SECS
            && -MAX_OFFSET_SECS <= offset_secs && offset_secs <= MAX_OFFSET_SECS {
            Some(Instant { local_secs, offset_secs })
        } else {
            None
        }
    }

    /// Builds an instant directly from UTC seconds since the Unix epoch.
    pub fn from_utc(utc_secs: i64) -> (r: Option<Instant>)
        ensures
            r matches Some(t) ==> t.wf() && t.utc() == utc_secs && t.offset_secs == 0,
            r is None <==> !(MIN_LOCAL_SECS <= utc_secs <= MAX_LOCAL_SECS),
    {
        Instant::new(utc_secs, 0)
    }

    /// The absolute instant in seconds since the Unix epoch.
    pub fn utc_secs(&self) -> (r: i64)
        requires
            self.wf(),
        ensures
            r == self.utc(),
    {
        self.local_secs - (self.offset_secs as i64)
    }
}

/// Turns a resolved local reading into an instant. A reading that a zone
/// maps to zero or two absolute instants is rejected explicitly rather than
/// silently resolved to one candidate.
pub fn resolve_local(local_secs: i64, res: LocalResolution) -> (r: Result<Instant, ScheduleError>)
    requires
        MIN_LOCAL_SECS <= local_secs <= MAX_LOCAL_SECS,
        res matches LocalResolution::One(o) ==> -MAX_OFFSET_SECS <= o <= MAX_OFFSET_SECS,
    ensures
        match res {
            LocalResolution::One(o) => r == Ok::<Instant, ScheduleError>(Instant { local_secs, offset_secs: o }),
            _ => r == Err::<Instant, ScheduleError>(ScheduleError::AmbiguousLocalTime),
        },
{
    match res {
        LocalResolution::One(o) => Ok(Instant { local_secs, offset_secs: o }),
        _ => Err(ScheduleError::AmbiguousLocalTime),
    }
}

} // verus!
