use vstd::prelude::*;
use crate::entry::Entry;
use crate::instant::Instant;
use crate::period::period_of;
use crate::resolver::next_distinct_by;
use crate::resolver::lemma_next_distinct_by;
use crate::resolver::lemma_next_distinct_props;
use crate::period::lemma_period_nonneg;
use crate::period::lemma_period_brackets;
use super::troop::defence_name;
use super::troop::defence_name_fn;
use super::troop::defence_style;
use super::troop::BASE_POINT_UTC;
use super::troop::CYCLE_LEN;

verus! {

/// The rotation state at one instant: the troop on duty, the next
/// distinct troop, the whole minutes until the change (rounded up), and
/// the absolute change instant (UTC seconds since the Unix epoch).
pub struct State {
    pub troop: Entry,
    pub next_troop: Entry,
    pub next_in: u32,
    pub changed_at_utc: i64,
}

/// The first period after `p` held by a different troop.
pub open spec fn defence_next(p: int) -> int {
    next_distinct_by(defence_name_fn(), CYCLE_LEN as nat, p)
}

/// Resolves the rotation state at `t`: `None` exactly when `t` precedes
/// the anchor; otherwise the current and next distinct troop, the
/// minutes remaining (the change instant rounded up to whole minutes),
/// and the change instant itself.
pub fn get_state(t: &Instant) -> (r: Option<State>)
    requires
        t.wf(),
    ensures
        r is None <==> t.utc() < BASE_POINT_UTC,
        r matches Some(st) ==> ({
            let p = period_of(BASE_POINT_UTC as int, 3600, t.utc());
            let nd = defence_next(p);
            &&& st.troop.name@ == defence_name(p)
            &&& st.troop.style == defence_style(p)
            &&& st.next_troop.name@ == defence_name(nd)
            &&& st.next_troop.style == defence_style(nd)
            &&& st.changed_at_utc == BASE_POINT_UTC + nd * 3600
            &&& st.next_in == (BASE_POINT_UTC + nd * 3600 - t.utc() + 59) / 60
        }),
{
    let s = super::troop::schedule();
    proof {
        assert forall|x: int| x >= 0 implies #[trigger] s.table.name_at(x) == (defence_name_fn())(
            x,
        ) by {
            vstd::arithmetic::div_mod::lemma_mod_bound(x, CYCLE_LEN as int);
        }
    }
    match crate::resolver::state(&s, t) {
        Err(_) => None,
        Ok(est) => {
            proof {
                let p = period_of(BASE_POINT_UTC as int, 3600, t.utc());
                lemma_period_nonneg(BASE_POINT_UTC as int, 3600, t.utc());
                lemma_period_brackets(BASE_POINT_UTC as int, 3600, t.utc());
                lemma_next_distinct_by(s.table, defence_name_fn(), p);
                lemma_next_distinct_props(s.table, p);
                vstd::arithmetic::div_mod::lemma_mod_bound(p, CYCLE_LEN as int);
                vstd::arithmetic::div_mod::lemma_mod_bound(defence_next(p), CYCLE_LEN as int);
                let nd = crate::resolver::next_distinct(s.table, p);
                vstd::arithmetic::mul::lemma_mul_inequality(nd, p + CYCLE_LEN, 3600);
                assert((p + CYCLE_LEN) * 3600 == p * 3600 + CYCLE_LEN * 3600) by (nonlinear_arith);
            }
            let next_in_minutes = ((est.next_in_secs + 59) / 60) as u32;
            Some(
                State {
                    troop: est.current,
                    next_troop: est.next,
                    next_in: next_in_minutes,
                    changed_at_utc: est.changed_at_utc,
                },
            )
        },
    }
}

} // verus!
