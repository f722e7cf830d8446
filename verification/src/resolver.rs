use vstd::prelude::*;
use crate::entry::Entry;
use crate::error::ScheduleError;
use crate::instant::Instant;
use crate::period::calc_period;
use crate::period::lemma_period_brackets;
use crate::period::lemma_period_nonneg;
use crate::period::lemma_period_of_boundary;
use crate::period::period_of;
use crate::period::Schedule;
use crate::period::MAX_GRANULARITY_SECS;
use crate::table::CycleTable;
use crate::table::MAX_TABLE_LEN;

verus! {

/// The resolved state at one instant: the current entry, the next distinct
/// entry, the remaining seconds of the current run, and the absolute
/// instant (UTC seconds since the Unix epoch) of the transition.
pub struct State {
    pub current: Entry,
    pub next: Entry,
    pub next_in_secs: u64,
    pub changed_at_utc: i64,
}

/// The first period at or after `q` whose name differs from `base`,
/// scanning at most `fuel` periods (and stopping at `q + fuel` if none
/// differs).
pub open spec fn next_distinct_from(t: CycleTable, base: Seq<char>, q: int, fuel: nat) -> int
    decreases fuel,
{
    if fuel == 0 {
        q
    } else if t.name_at(q) != base {
        q
    } else {
        next_distinct_from(t, base, q + 1, (fuel - 1) as nat)
    }
}

/// The first period after `p` holding an entry of a different name; one
/// table length of scanning always suffices on a non-degenerate table.
pub open spec fn next_distinct(t: CycleTable, p: int) -> int {
    next_distinct_from(t, t.name_at(p), p + 1, t.entries@.len() as nat)
}

/// `next_distinct_from`, phrased over a period-to-name function instead of
/// a table value: domain instances state their contracts through this form.
pub open spec fn next_distinct_from_by(
    name: spec_fn(int) -> Seq<char>,
    base: Seq<char>,
    q: int,
    fuel: nat,
) -> int
    decreases fuel,
{
    if fuel == 0 {
        q
    } else if name(q) != base {
        q
    } else {
        next_distinct_from_by(name, base, q + 1, (fuel - 1) as nat)
    }
}

/// `next_distinct`, phrased over a period-to-name function.
pub open spec fn next_distinct_by(name: spec_fn(int) -> Seq<char>, len: nat, p: int) -> int {
    next_distinct_from_by(name, name(p), p + 1, len)
}

proof fn lemma_ndf_by_agree(
    t: CycleTable,
    name: spec_fn(int) -> Seq<char>,
    base: Seq<char>,
    q: int,
    fuel: nat,
)
    requires
        forall|x: int| x >= 0 ==> #[trigger] t.name_at(x) == name(x),
        q >= 0,
    ensures
        next_distinct_from(t, base, q, fuel) == next_distinct_from_by(name, base, q, fuel),
    decreases fuel,
{
    if fuel == 0 {
    } else if t.name_at(q) != base {
    } else {
        lemma_ndf_by_agree(t, name, base, q + 1, (fuel - 1) as nat);
    }
}

/// On a table whose slot names agree with a period-to-name function, the
/// table's next distinct period is the function's.
pub proof fn lemma_next_distinct_by(t: CycleTable, name: spec_fn(int) -> Seq<char>, p: int)
    requires
        forall|x: int| x >= 0 ==> #[trigger] t.name_at(x) == name(x),
        p >= 0,
    ensures
        next_distinct(t, p) == next_distinct_by(name, t.entries@.len() as nat, p),
{
    lemma_ndf_by_agree(t, name, t.name_at(p), p + 1, t.entries@.len() as nat);
}

/// Some period in `a .. a + len` lands on any wanted table slot.
proof fn lemma_mod_reach(a: int, len: int, j: int)
    requires
        len >= 1,
        a >= 0,
        0 <= j < len,
    ensures
        exists|k: int| 0 <= k < len && #[trigger] ((a + k) % len) == j,
{
    let m = a % len;
    vstd::arithmetic::div_mod::lemma_mod_bound(a, len);
    vstd::arithmetic::div_mod::lemma_fundamental_div_mod(a, len);
    let q = a / len;
    let k = if j >= m { j - m } else { j + len - m };
    vstd::arithmetic::div_mod::lemma_small_mod(j as nat, len as nat);
    if j >= m {
        vstd::arithmetic::div_mod::lemma_mod_multiples_vanish(q, j, len);
        assert(len * q + j == a + k);
        assert((a + k) % len == j);
    } else {
        vstd::arithmetic::div_mod::lemma_mod_multiples_vanish(q + 1, j, len);
        assert(len * (q + 1) == len * q + len) by (nonlinear_arith);
        assert(len * (q + 1) + j == a + k);
        assert((a + k) % len == j);
    }
}

/// On a non-degenerate table, a period of a different name occurs within
/// one table length after `p`.
proof fn lemma_distinct_exists(t: CycleTable, p: int)
    requires
        t.wf(),
        !t.degenerate(),
        p >= 0,
    ensures
        exists|k: int|
            0 <= k < t.entries@.len() && #[trigger] t.name_at(p + 1 + k) != t.name_at(p),
{
    let len = t.entries@.len() as int;
    let i = choose|i: int| 0 <= i < len && #[trigger] t.entries@[i].name@ != t.entries@[0].name@;
    vstd::arithmetic::div_mod::lemma_mod_bound(p, len);
    let r = p % len;
    let j = if t.entries@[r].name@ == t.entries@[0].name@ {
        i
    } else {
        0
    };
    assert(t.entries@[j].name@ != t.entries@[r].name@);
    lemma_mod_reach(p + 1, len, j);
    let k = choose|k: int| 0 <= k < len && #[trigger] ((p + 1 + k) % len) == j;
    assert(t.name_at(p + 1 + k) == t.entries@[j].name@);
    assert(t.name_at(p + 1 + k) != t.name_at(p));
}

/// What `next_distinct_from` finds, given that a differing name exists
/// within its fuel: the least differing period, with every period before
/// it sharing the base name.
proof fn lemma_ndf_props(t: CycleTable, base: Seq<char>, q: int, fuel: nat)
    requires
        exists|k: int| 0 <= k < fuel && #[trigger] t.name_at(q + k) != base,
    ensures
        ({
            let nd = next_distinct_from(t, base, q, fuel);
            &&& q <= nd < q + fuel
            &&& t.name_at(nd) != base
            &&& forall|j: int| q <= j < nd ==> t.name_at(j) == base
        }),
    decreases fuel,
{
    let k0 = choose|k: int| 0 <= k < fuel && #[trigger] t.name_at(q + k) != base;
    if t.name_at(q) != base {
    } else {
        assert(k0 != 0);
        assert(t.name_at((q + 1) + (k0 - 1)) != base);
        lemma_ndf_props(t, base, q + 1, (fuel - 1) as nat);
    }
}

/// `next_distinct_from` lands exactly on a period known to be the first
/// differing one.
proof fn lemma_ndf_value(t: CycleTable, base: Seq<char>, q: int, fuel: nat, target: int)
    requires
        q <= target <= q + fuel,
        forall|j: int| q <= j < target ==> t.name_at(j) == base,
        target < q + fuel ==> t.name_at(target) != base,
    ensures
        next_distinct_from(t, base, q, fuel) == target,
    decreases fuel,
{
    if fuel == 0 {
    } else if target == q {
    } else {
        assert(t.name_at(q) == base);
        lemma_ndf_value(t, base, q + 1, (fuel - 1) as nat, target);
    }
}

/// The next distinct period of a non-degenerate table: strictly after
/// `p`, at most one table length away, of a different name, and every
/// period between shares `p`'s name.
pub proof fn lemma_next_distinct_props(t: CycleTable, p: int)
    requires
        t.wf(),
        !t.degenerate(),
        p >= 0,
    ensures
        ({
            let nd = next_distinct(t, p);
            &&& p < nd <= p + t.entries@.len()
            &&& t.name_at(nd) != t.name_at(p)
            &&& forall|j: int| p <= j < nd ==> t.name_at(j) == t.name_at(p)
        }),
{
    lemma_distinct_exists(t, p);
    let k = choose|k: int|
        0 <= k < t.entries@.len() && #[trigger] t.name_at(p + 1 + k) != t.name_at(p);
    assert(t.name_at((p + 1) + k) != t.name_at(p));
    lemma_ndf_props(t, t.name_at(p), p + 1, t.entries@.len() as nat);
}

/// Resolves the state at `now`: the entry current in `now`'s period, the
/// next distinct entry, the seconds remaining until it takes over, and
/// the absolute transition instant `now + next_in_secs` (always an exact
/// period boundary). Fails `OutOfRange` before the anchor; fails
/// `CycleDegenerate`, after scanning at most one table length, on a table
/// with no distinct successor.
#[verifier::loop_isolation(false)]
pub fn state(s: &Schedule, now: &Instant) -> (r: Result<State, ScheduleError>)
    requires
        s.wf(),
        now.wf(),
    ensures
        now.utc() < s.anchor_utc ==> r == Err::<State, ScheduleError>(ScheduleError::OutOfRange),
        now.utc() >= s.anchor_utc && s.table.degenerate() ==> r == Err::<State, ScheduleError>(
            ScheduleError::CycleDegenerate,
        ),
        now.utc() >= s.anchor_utc && !s.table.degenerate() ==> (r matches Ok(st) && {
            let p = period_of(s.anchor_utc as int, s.granularity.secs as int, now.utc());
            let nd = next_distinct(s.table, p);
            &&& st.current == s.table.entry_at(p)
            &&& st.next == s.table.entry_at(nd)
            &&& st.next_in_secs == s.anchor_utc + nd * s.granularity.secs - now.utc()
            &&& st.changed_at_utc == s.anchor_utc + nd * s.granularity.secs
            &&& st.changed_at_utc == now.utc() + st.next_in_secs
        }),
{
    let p = match calc_period(s.anchor_utc, &s.granularity, now) {
        Err(e) => {
            return Err(e);
        },
        Ok(p) => p,
    };
    let utc = now.utc_secs();
    let diff = (utc - s.anchor_utc) as u64;
    let gsecs = s.granularity.secs as u64;
    let len = s.table.len();
    let ghost gi = s.granularity.secs as int;
    let ghost pi = p as int;
    let ghost leni = s.table.entries@.len() as int;
    let ghost anchor = s.anchor_utc as int;
    proof {
        lemma_period_nonneg(anchor, gi, now.utc());
        lemma_period_brackets(anchor, gi, now.utc());
        assert(pi <= pi * gi) by (nonlinear_arith)
            requires
                pi >= 0,
                gi >= 1,
        ;
        vstd::arithmetic::mul::lemma_mul_upper_bound(
            leni,
            MAX_TABLE_LEN as int,
            gi,
            MAX_GRANULARITY_SECS as int,
        );
        assert((pi + leni) * gi == pi * gi + leni * gi) by (nonlinear_arith);
    }
    let mut k: usize = 1;
    while k <= len
        invariant
            s.wf(),
            1 <= k <= len + 1,
            len == s.table.entries@.len(),
            pi == p as int,
            0 <= pi <= diff,
            forall|j: int| 1 <= j < k ==> #[trigger] s.table.name_at(pi + j) == s.table.name_at(pi),
        decreases len + 1 - k,
    {
        let cur = s.table.get(p + (k as u64));
        let base = s.table.get(p);
        if !(*cur == *base) {
            // Found the first distinct successor.
            proof {
                let ki = k as int;
                assert forall|j: int| pi + 1 <= j < pi + ki implies s.table.name_at(j)
                    == s.table.name_at(pi) by {
                    assert(s.table.name_at(pi + (j - pi)) == s.table.name_at(pi));
                }
                lemma_ndf_value(
                    s.table,
                    s.table.name_at(pi),
                    pi + 1,
                    leni as nat,
                    pi + ki,
                );
                if s.table.degenerate() {
                    vstd::arithmetic::div_mod::lemma_mod_bound(pi + k, leni);
                    vstd::arithmetic::div_mod::lemma_mod_bound(pi, leni);
                }
                let nd = pi + k as int;
                vstd::arithmetic::mul::lemma_mul_inequality(pi + 1, nd, gi);
                assert((pi + 1) * gi == pi * gi + gi) by (nonlinear_arith);
                vstd::arithmetic::mul::lemma_mul_inequality(nd, pi + leni, gi);
            }
            let nd_u = p + (k as u64);
            let nd_g = nd_u * gsecs;
            let next_in = nd_g - diff;
            let changed_at = s.anchor_utc + (nd_g as i64);
            return Ok(
                State {
                    current: s.table.get(p).clone(),
                    next: s.table.get(p + (k as u64)).clone(),
                    next_in_secs: next_in,
                    changed_at_utc: changed_at,
                },
            );
        }
        k = k + 1;
    }
    // One full table length scanned without a distinct name: every slot of
    // the table shares the current name, so the table is degenerate.
    proof {
        vstd::arithmetic::div_mod::lemma_mod_bound(pi, leni);
        assert forall|idx: int| 0 <= idx < leni implies #[trigger] s.table.entries@[idx].name@
            == s.table.entries@[0].name@ by {
            lemma_mod_reach(pi + 1, leni, idx);
            let kk = choose|kk: int| 0 <= kk < leni && #[trigger] ((pi + 1 + kk) % leni) == idx;
            assert(s.table.name_at(pi + 1 + kk) == s.table.entries@[idx].name@);
            assert(1 <= kk + 1 < k);
            assert(s.table.name_at(pi + (kk + 1)) == s.table.name_at(pi));
            lemma_mod_reach(pi + 1, leni, 0);
            let k0 = choose|k0: int| 0 <= k0 < leni && #[trigger] ((pi + 1 + k0) % leni) == 0;
            assert(s.table.name_at(pi + (k0 + 1)) == s.table.name_at(pi));
            assert(s.table.entries@[0].name@ == s.table.name_at(pi));
        }
        assert(s.table.degenerate());
    }
    Err(ScheduleError::CycleDegenerate)
}

/// The resolver's current entry is the table entry at the period that the
/// period calculator assigns to `now`: anything the two functions' callers
/// combine agrees on which entry is current.
pub proof fn lemma_state_current_is_period_entry(s: Schedule, now: Instant, st: State, p: u64)
    requires
        s.wf(),
        now.wf(),
        now.utc() >= s.anchor_utc,
        !s.table.degenerate(),
        st.current == s.table.entry_at(
            period_of(s.anchor_utc as int, s.granularity.secs as int, now.utc()),
        ),
        p == period_of(s.anchor_utc as int, s.granularity.secs as int, now.utc()),
    ensures
        st.current == s.table.entry_at(p as int),
{
}

/// The transition instant lies strictly after `now`, falls in exactly the
/// period `next_distinct` names, and the entry of that period differs
/// from the current one.
pub proof fn lemma_transition_strict_and_distinct(s: Schedule, now: Instant)
    requires
        s.wf(),
        now.wf(),
        now.utc() >= s.anchor_utc,
        !s.table.degenerate(),
    ensures
        ({
            let p = period_of(s.anchor_utc as int, s.granularity.secs as int, now.utc());
            let nd = next_distinct(s.table, p);
            let changed_at = s.anchor_utc + nd * s.granularity.secs;
            &&& changed_at > now.utc()
            &&& period_of(s.anchor_utc as int, s.granularity.secs as int, changed_at) == nd
            &&& s.table.name_at(nd) != s.table.name_at(p)
        }),
{
    let gi = s.granularity.secs as int;
    let anchor = s.anchor_utc as int;
    let p = period_of(anchor, gi, now.utc());
    let nd = next_distinct(s.table, p);
    lemma_period_nonneg(anchor, gi, now.utc());
    lemma_period_brackets(anchor, gi, now.utc());
    lemma_next_distinct_props(s.table, p);
    vstd::arithmetic::mul::lemma_mul_inequality(p + 1, nd, gi);
    assert((p + 1) * gi == p * gi + gi) by (nonlinear_arith);
    lemma_period_of_boundary(anchor, gi, nd);
}

} // verus!
