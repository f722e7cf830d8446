use vstd::prelude::*;

verus! {

/// Failure modes of the schedule engine.
///
/// Every partial operation reports its partiality through this type; no
/// engine function panics on well-typed input.
#[derive(Clone, Copy, Debug, PartialEq, Eq, Structural)]
pub enum ScheduleError {
    /// The query instant precedes the anchor of the schedule, so no period
    /// is defined for it.
    OutOfRange,
    /// The cycle table has no reachable distinct successor entry (it is
    /// empty, has a single entry, or all its entries share one name), so
    /// "next distinct entry" would be undefined.
    CycleDegenerate,
    /// A local wall-clock reading did not resolve to exactly one absolute
    /// instant (a daylight-saving fold or gap).
    AmbiguousLocalTime,
}

} // verus!
