use vstd::prelude::*;
use crate::entry::Entry;
use crate::error::ScheduleError;
use crate::instant::Instant;
use crate::period::calc_period;
use crate::period::lemma_period_brackets;
use crate::period::lemma_period_nonneg;
use crate::period::period_of;
use crate::period::MAX_GRANULARITY_SECS;
use crate::period::Schedule;
use crate::table::CycleTable;

verus! {

/// Largest window of periods one projection may scan.
pub const MAX_WINDOW_PERIODS: usize = 1_000_000;

/// One item of a projected window: an entry together with the absolute
/// instant (UTC seconds since the Unix epoch) at which it becomes current.
pub struct ScheduleItem {
    pub entry: Entry,
    pub started_at_utc: i64,
}

/// The periods at which the items of a run-length-merged window over
/// `p0 .. p0 + n` start: `p0` itself, then every period whose entry name
/// differs from the immediately preceding period's.
pub open spec fn merged_periods(t: CycleTable, p0: int, n: int) -> Seq<int>
    recommends
        t.entries@.len() >= 1,
    decreases n,
{
    if n <= 1 {
        seq![p0]
    } else if t.name_at(p0 + n - 1) == t.name_at(p0 + n - 2) {
        merged_periods(t, p0, n - 1)
    } else {
        merged_periods(t, p0, n - 1).push(p0 + n - 1)
    }
}

/// `merged_periods`, phrased over a period-to-name function instead of a
/// table value: domain instances state their contracts through this form.
pub open spec fn merged_periods_by(name: spec_fn(int) -> Seq<char>, p0: int, n: int) -> Seq<int>
    decreases n,
{
    if n <= 1 {
        seq![p0]
    } else if name(p0 + n - 1) == name(p0 + n - 2) {
        merged_periods_by(name, p0, n - 1)
    } else {
        merged_periods_by(name, p0, n - 1).push(p0 + n - 1)
    }
}

/// On a table whose slot names agree with a period-to-name function, the
/// table's merged window is the function's.
pub proof fn lemma_merged_periods_by(
    t: CycleTable,
    name: spec_fn(int) -> Seq<char>,
    p0: int,
    n: int,
)
    requires
        forall|x: int| x >= 0 ==> #[trigger] t.name_at(x) == name(x),
        p0 >= 0,
    ensures
        merged_periods(t, p0, n) == merged_periods_by(name, p0, n),
    decreases n,
{
    if n <= 1 {
    } else {
        lemma_merged_periods_by(t, name, p0, n - 1);
    }
}

/// The item that opens period `p`.
pub open spec fn item_at(s: Schedule, p: int) -> ScheduleItem {
    ScheduleItem {
        entry: s.table.entry_at(p),
        started_at_utc: (s.anchor_utc + p * s.granularity.secs) as i64,
    }
}

/// The run-length-merged window of `n` periods starting at period `p0`.
pub open spec fn project_seq(s: Schedule, p0: int, n: int) -> Seq<ScheduleItem> {
    merged_periods(s.table, p0, n).map(|i: int, p: int| item_at(s, p))
}

/// Shape of a merged window: it has between 1 and `n` items; the first
/// starts at `p0`; start periods are strictly increasing and within the
/// window; the last item's name is the name of the window's last period;
/// and no two consecutive items share a name.
pub proof fn lemma_merged_periods_props(t: CycleTable, p0: int, n: int)
    requires
        t.entries@.len() >= 1,
        n >= 1,
    ensures
        ({
            let mp = merged_periods(t, p0, n);
            &&& 1 <= mp.len() <= n
            &&& mp[0] == p0
            &&& forall|k: int| 0 <= k < mp.len() ==> p0 <= #[trigger] mp[k] < p0 + n
            &&& forall|k: int| 0 <= k < mp.len() - 1 ==> #[trigger] mp[k] < mp[k + 1]
            &&& t.name_at(mp.last()) == t.name_at(p0 + n - 1)
            &&& forall|k: int|
                0 <= k < mp.len() - 1 ==> t.name_at(#[trigger] mp[k]) != t.name_at(mp[k + 1])
        }),
    decreases n,
{
    if n <= 1 {
    } else {
        lemma_merged_periods_props(t, p0, n - 1);
        let prev = merged_periods(t, p0, n - 1);
        let mp = merged_periods(t, p0, n);
        if t.name_at(p0 + n - 1) == t.name_at(p0 + n - 2) {
        } else {
            assert(mp == prev.push(p0 + n - 1));
            assert(mp.last() == p0 + n - 1);
            assert(forall|k: int| 0 <= k < prev.len() ==> #[trigger] mp[k] == prev[k]);
            assert(prev.last() < p0 + n - 1);
            assert(t.name_at(mp[mp.len() - 2]) != t.name_at(mp[mp.len() - 1]));
        }
    }
}

/// Produces the run-length-merged schedule over a window of `count`
/// periods beginning at the period that contains `start`. The first item
/// is anchored at the start boundary of that period (the truncation of
/// `start` down to the granularity boundary); a further item appears
/// exactly at each scanned period whose entry differs from its
/// predecessor's. Fails `OutOfRange` when `start` precedes the anchor.
pub fn project(s: &Schedule, start: &Instant, count: usize) -> (r: Result<
    Vec<ScheduleItem>,
    ScheduleError,
>)
    requires
        s.wf(),
        start.wf(),
        1 <= count <= MAX_WINDOW_PERIODS,
    ensures
        start.utc() < s.anchor_utc ==> r == Err::<Vec<ScheduleItem>, ScheduleError>(
            ScheduleError::OutOfRange,
        ),
        start.utc() >= s.anchor_utc ==> (r matches Ok(v) && {
            let p0 = period_of(s.anchor_utc as int, s.granularity.secs as int, start.utc());
            &&& v@ == project_seq(*s, p0, count as int)
            &&& 1 <= v@.len() <= count
            &&& v@[0].entry == s.table.entry_at(p0)
            &&& v@[0].started_at_utc == s.anchor_utc + p0 * s.granularity.secs
            &&& forall|k: int|
                0 <= k < v@.len() - 1 ==> (#[trigger] v@[k]).entry.name@ != v@[k + 1].entry.name@
        }),
{
    let p0 = match calc_period(s.anchor_utc, &s.granularity, start) {
        Err(e) => {
            return Err(e);
        },
        Ok(p) => p,
    };
    let gsecs = s.granularity.secs as u64;
    let ghost gi = s.granularity.secs as int;
    let ghost p0i = p0 as int;
    let ghost ni = count as int;
    let ghost utc = start.utc();
    let ghost anchor = s.anchor_utc as int;
    proof {
        lemma_period_nonneg(anchor, gi, utc);
        lemma_period_brackets(anchor, gi, utc);
        // The whole window stays far below the integer limits.
        vstd::arithmetic::mul::lemma_mul_upper_bound(
            ni,
            MAX_WINDOW_PERIODS as int,
            gi,
            MAX_GRANULARITY_SECS as int,
        );
        assert(p0i <= p0i * gi) by (nonlinear_arith)
            requires
                p0i >= 0,
                gi >= 1,
        ;
        assert((p0i + 1) * gi == p0i * gi + gi) by (nonlinear_arith);
        vstd::arithmetic::mul::lemma_mul_inequality(p0i + 1, p0i + ni, gi);
        assert((p0i + ni) * gi == p0i * gi + ni * gi) by (nonlinear_arith);
    }
    let first_start: i64 = s.anchor_utc + ((p0 * gsecs) as i64);
    let mut v: Vec<ScheduleItem> = Vec::new();
    v.push(ScheduleItem { entry: s.table.get(p0).clone(), started_at_utc: first_start });
    proof {
        assert(merged_periods(s.table, p0i, 1) =~= seq![p0i]);
        assert(v@ =~= project_seq(*s, p0i, 1));
    }
    // Start boundary of the next period to scan, maintained incrementally.
    let mut boundary: i64 = first_start + (gsecs as i64);
    let mut i: usize = 1;
    while i < count
        invariant
            s.wf(),
            1 <= i <= count <= MAX_WINDOW_PERIODS,
            gsecs == s.granularity.secs,
            gi == s.granularity.secs as int,
            p0i == p0 as int,
            p0i >= 0,
            ni == count as int,
            anchor == s.anchor_utc as int,
            p0i * gi <= utc - anchor,
            p0i <= utc - anchor,
            anchor <= utc <= crate::instant::MAX_LOCAL_SECS + crate::instant::MAX_OFFSET_SECS,
            ni * gi <= 40_000_000_000_000,
            boundary as int == anchor + (p0i + i) * gi,
            v@ == project_seq(*s, p0i, i as int),
            1 <= v@.len() <= i,
        decreases count - i,
    {
        proof {
            let q = p0i + i;
            assert((q + 1) * gi == q * gi + gi) by (nonlinear_arith);
            vstd::arithmetic::mul::lemma_mul_inequality(q + 1, p0i + ni, gi);
            assert((p0i + ni) * gi == p0i * gi + ni * gi) by (nonlinear_arith);
            assert(anchor + (q + 1) * gi <= anchor + (utc - anchor) + ni * gi);
        }
        let cur = s.table.get(p0 + (i as u64));
        let prev = s.table.get(p0 + (i as u64) - 1);
        if *cur == *prev {
            proof {
                assert(merged_periods(s.table, p0i, i + 1) == merged_periods(
                    s.table,
                    p0i,
                    i as int,
                ));
            }
        } else {
            let e = cur.clone();
            v.push(ScheduleItem { entry: e, started_at_utc: boundary });
            proof {
                let mp = merged_periods(s.table, p0i, i as int);
                assert(merged_periods(s.table, p0i, i + 1) == mp.push(p0i + i));
                assert(v@ =~= project_seq(*s, p0i, i + 1));
            }
        }
        boundary = boundary + (gsecs as i64);
        i = i + 1;
    }
    proof {
        lemma_merged_periods_props(s.table, p0i, ni);
        let mp = merged_periods(s.table, p0i, ni);
        let ps = project_seq(*s, p0i, ni);
        assert(ps.len() == mp.len());
        assert forall|k: int| 0 <= k < ps.len() implies #[trigger] ps[k] == item_at(
            *s,
            mp[k],
        ) by {}
        assert forall|k: int| 0 <= k < v@.len() - 1 implies (#[trigger] v@[k]).entry.name@ != v@[k
            + 1].entry.name@ by {
            assert(v@[k] == item_at(*s, mp[k]));
            assert(v@[k + 1] == item_at(*s, mp[k + 1]));
            assert(s.table.name_at(mp[k]) != s.table.name_at(mp[k + 1]));
        }
        assert(v@[0] == item_at(*s, p0i));
    }
    Ok(v)
}

} // verus!
