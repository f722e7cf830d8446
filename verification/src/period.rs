use vstd::prelude::*;
use crate::error::ScheduleError;
use crate::instant::Instant;
use crate::instant::MAX_LOCAL_SECS;
use crate::table::CycleTable;

verus! {

/// Largest duration of one period the engine accepts (366 days).
pub const MAX_GRANULARITY_SECS: u32 = 31_622_400;

/// The fixed duration of one period of a schedule.
#[derive(Clone, Copy, Debug, PartialEq, Eq, Structural)]
pub struct Granularity {
    pub secs: u32,
}

impl Granularity {
    pub open spec fn wf(self) -> bool {
        1 <= self.secs <= MAX_GRANULARITY_SECS
    }

    /// One hour per period.
    pub fn hour() -> (r: Granularity)
        ensures
            r.secs == 3600,
    {
        Granularity { secs: 3600 }
    }

    /// One day per period.
    pub fn day() -> (r: Granularity)
        ensures
            r.secs == 86_400,
    {
        Granularity { secs: 86_400 }
    }

    /// `n` days per period.
    pub fn days(n: u32) -> (r: Granularity)
        requires
            1 <= n <= 366,
        ensures
            r.secs == n * 86_400,
            r.wf(),
    {
        Granularity { secs: n * 86_400 }
    }

    /// One week per period.
    pub fn week() -> (r: Granularity)
        ensures
            r.secs == 604_800,
    {
        Granularity { secs: 604_800 }
    }
}

/// One schedule's static configuration: the anchor instant that defines
/// period 0 (as UTC seconds since the Unix epoch), the duration of one
/// period, and the periodic table of entries.
pub struct Schedule {
    pub anchor_utc: i64,
    pub granularity: Granularity,
    pub table: CycleTable,
}

impl Schedule {
    pub open spec fn wf(self) -> bool {
        &&& 0 <= self.anchor_utc <= MAX_LOCAL_SECS
        &&& self.granularity.wf()
        &&& self.table.wf()
    }
}

/// The period that the absolute instant `utc` falls in, counted from
/// `anchor` in whole units of `gsecs`: `floor((utc - anchor) / gsecs)`.
pub open spec fn period_of(anchor: int, gsecs: int, utc: int) -> int
    recommends
        gsecs >= 1,
{
    (utc - anchor) / gsecs
}

/// Converts an absolute instant into its period count relative to an
/// anchor. Instants before the anchor have no period and are rejected.
pub fn calc_period(anchor_utc: i64, g: &Granularity, t: &Instant) -> (r: Result<
    u64,
    ScheduleError,
>)
    requires
        0 <= anchor_utc <= MAX_LOCAL_SECS,
        g.wf(),
        t.wf(),
    ensures
        t.utc() < anchor_utc ==> r == Err::<u64, ScheduleError>(ScheduleError::OutOfRange),
        t.utc() >= anchor_utc ==> (r matches Ok(p) && p == period_of(
            anchor_utc as int,
            g.secs as int,
            t.utc(),
        )),
{
    let utc = t.utc_secs();
    if utc < anchor_utc {
        Err(ScheduleError::OutOfRange)
    } else {
        let diff = (utc - anchor_utc) as u64;
        Ok(diff / (g.secs as u64))
    }
}

/// The period count depends only on the absolute instant: two readings of
/// the same instant under different offsets yield the same period and the
/// same in-range verdict. (The engine's contracts are all stated over
/// `Instant::utc`, so this law extends to every engine operation.)
pub proof fn lemma_period_representation_independent(
    anchor: int,
    gsecs: int,
    t1: Instant,
    t2: Instant,
)
    requires
        t1.utc() == t2.utc(),
    ensures
        period_of(anchor, gsecs, t1.utc()) == period_of(anchor, gsecs, t2.utc()),
        (t1.utc() < anchor) <==> (t2.utc() < anchor),
{
}

/// The period count is monotonically non-decreasing in the query instant.
pub proof fn lemma_period_monotone(anchor: int, gsecs: int, u1: int, u2: int)
    requires
        gsecs >= 1,
        anchor <= u1 <= u2,
    ensures
        period_of(anchor, gsecs, u1) <= period_of(anchor, gsecs, u2),
{
    vstd::arithmetic::div_mod::lemma_div_is_ordered(u1 - anchor, u2 - anchor, gsecs);
}

/// A period count is never negative for an in-range instant.
pub proof fn lemma_period_nonneg(anchor: int, gsecs: int, utc: int)
    requires
        gsecs >= 1,
        utc >= anchor,
    ensures
        period_of(anchor, gsecs, utc) >= 0,
{
    vstd::arithmetic::div_mod::lemma_div_pos_is_pos(utc - anchor, gsecs);
}

/// An in-range instant lies inside its period: at or after the period's
/// start boundary, strictly before the next boundary.
pub proof fn lemma_period_brackets(anchor: int, gsecs: int, utc: int)
    requires
        gsecs >= 1,
        utc >= anchor,
    ensures
        ({
            let p = period_of(anchor, gsecs, utc);
            anchor + p * gsecs <= utc < anchor + (p + 1) * gsecs
        }),
{
    let d = utc - anchor;
    let p = period_of(anchor, gsecs, utc);
    vstd::arithmetic::div_mod::lemma_fundamental_div_mod(d, gsecs);
    vstd::arithmetic::div_mod::lemma_mod_bound(d, gsecs);
    assert(d == gsecs * p + d % gsecs);
    assert(gsecs * p == p * gsecs) by (nonlinear_arith);
    assert((p + 1) * gsecs == p * gsecs + gsecs) by (nonlinear_arith);
}

/// The instant at an exact period boundary belongs to the period it opens.
pub proof fn lemma_period_of_boundary(anchor: int, gsecs: int, p: int)
    requires
        gsecs >= 1,
        p >= 0,
    ensures
        period_of(anchor, gsecs, anchor + p * gsecs) == p,
{
    assert(p * gsecs == gsecs * p) by (nonlinear_arith);
    vstd::arithmetic::div_mod::lemma_div_multiples_vanish(p, gsecs);
}

} // verus!
