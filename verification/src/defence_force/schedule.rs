use vstd::prelude::*;
use crate::entry::Entry;
use crate::instant::Instant;
use crate::instant::MAX_LOCAL_SECS;
use crate::period::period_of;
use crate::project::merged_periods_by;
use crate::project::lemma_merged_periods_by;
use crate::project::lemma_merged_periods_props;
use crate::project::MAX_WINDOW_PERIODS;
use super::troop::defence_name;
use super::troop::defence_name_fn;
use super::troop::defence_style;
use super::troop::BASE_POINT_UTC;
use super::troop::CYCLE_LEN;

verus! {

/// One event of a projected window: the instant (UTC seconds since the
/// Unix epoch) at which a troop takes over, and that troop.
pub struct Event {
    pub started_at_utc: i64,
    pub troop: Entry,
}

/// The default window: 24 periods (one day of hourly slots).
pub const DEFAULT_WINDOW: usize = 24;

/// The periods at which events start in a merged window of `n` periods
/// from period `p0`.
pub open spec fn defence_merged(p0: int, n: int) -> Seq<int> {
    merged_periods_by(defence_name_fn(), p0, n)
}

/// The merged window of `count` periods from the period containing `t`:
/// `None` exactly when `t` precedes the anchor; otherwise one event per
/// period whose troop differs from its predecessor's (the first event at
/// `t`'s own period boundary), in order.
pub fn get_schedule_in(t: &Instant, count: usize) -> (r: Option<Vec<Event>>)
    requires
        t.wf(),
        1 <= count <= MAX_WINDOW_PERIODS,
    ensures
        r is None <==> t.utc() < BASE_POINT_UTC,
        r matches Some(v) ==> ({
            let p0 = period_of(BASE_POINT_UTC as int, 3600, t.utc());
            let mp = defence_merged(p0, count as int);
            &&& v@.len() == mp.len()
            &&& 1 <= v@.len() <= count
            &&& forall|k: int|
                0 <= k < mp.len() ==> (#[trigger] v@[k]).troop.name@ == defence_name(mp[k])
                    && v@[k].troop.style == defence_style(mp[k]) && v@[k].started_at_utc
                    == BASE_POINT_UTC + mp[k] * 3600
            &&& forall|k: int|
                0 <= k < v@.len() - 1 ==> (#[trigger] v@[k]).troop.name@ != v@[k + 1].troop.name@
        }),
{
    let s = super::troop::schedule();
    proof {
        assert forall|x: int| x >= 0 implies #[trigger] s.table.name_at(x) == (defence_name_fn())(
            x,
        ) by {
            vstd::arithmetic::div_mod::lemma_mod_bound(x, CYCLE_LEN as int);
        }
    }
    match crate::project::project(&s, t, count) {
        Err(_) => None,
        Ok(items) => {
            let ghost p0 = period_of(BASE_POINT_UTC as int, 3600, t.utc());
            proof {
                crate::period::lemma_period_nonneg(BASE_POINT_UTC as int, 3600, t.utc());
                lemma_merged_periods_by(s.table, defence_name_fn(), p0, count as int);
                lemma_merged_periods_props(s.table, p0, count as int);
            }
            let ghost mp = defence_merged(p0, count as int);
            let mut v: Vec<Event> = Vec::new();
            let mut i: usize = 0;
            while i < items.len()
                invariant
                    items@.len() == mp.len(),
                    0 <= i <= items@.len(),
                    v@.len() == i,
                    forall|k: int|
                        0 <= k < items@.len() ==> #[trigger] items@[k] == crate::project::item_at(
                            s,
                            mp[k],
                        ),
                    forall|k: int|
                        0 <= k < i ==> (#[trigger] v@[k]).troop == items@[k].entry
                            && v@[k].started_at_utc == items@[k].started_at_utc,
                decreases items@.len() - i,
            {
                let it = &items[i];
                v.push(Event { started_at_utc: it.started_at_utc, troop: it.entry.clone() });
                i = i + 1;
            }
            proof {
                assert forall|k: int| 0 <= k < mp.len() implies (#[trigger] v@[k]).troop.name@
                    == defence_name(mp[k]) && v@[k].troop.style == defence_style(mp[k])
                    && v@[k].started_at_utc == BASE_POINT_UTC + mp[k] * 3600 by {
                    vstd::arithmetic::div_mod::lemma_mod_bound(mp[k], CYCLE_LEN as int);
                }
            }
            Some(v)
        },
    }
}

/// The merged default window (24 periods) from the period containing `t`.
pub fn get_schedule(t: &Instant) -> (r: Option<Vec<Event>>)
    requires
        t.wf(),
    ensures
        r is None <==> t.utc() < BASE_POINT_UTC,
        r matches Some(v) ==> ({
            let p0 = period_of(BASE_POINT_UTC as int, 3600, t.utc());
            let mp = defence_merged(p0, DEFAULT_WINDOW as int);
            &&& v@.len() == mp.len()
            &&& forall|k: int|
                0 <= k < mp.len() ==> (#[trigger] v@[k]).troop.name@ == defence_name(mp[k])
                    && v@[k].troop.style == defence_style(mp[k]) && v@[k].started_at_utc
                    == BASE_POINT_UTC + mp[k] * 3600
        }),
{
    get_schedule_in(t, DEFAULT_WINDOW)
}

/// The merged default window for an instant given as milliseconds since
/// the Unix epoch: `None` exactly when the instant precedes the anchor or
/// lies outside the supported range.
pub fn get_schedule_from_epoch_millis(epoch_millis: i64) -> (r: Option<Vec<Event>>)
    ensures
        r is Some <==> BASE_POINT_UTC * 1000 <= epoch_millis <= MAX_LOCAL_SECS * 1000,
        r matches Some(v) ==> ({
            let p0 = period_of(BASE_POINT_UTC as int, 3600, epoch_millis / 1000);
            let mp = defence_merged(p0, DEFAULT_WINDOW as int);
            &&& v@.len() == mp.len()
            &&& forall|k: int|
                0 <= k < mp.len() ==> (#[trigger] v@[k]).troop.name@ == defence_name(mp[k])
                    && v@[k].troop.style == defence_style(mp[k]) && v@[k].started_at_utc
                    == BASE_POINT_UTC + mp[k] * 3600
        }),
{
    if epoch_millis < BASE_POINT_UTC * 1000 || epoch_millis > MAX_LOCAL_SECS * 1000 {
        proof {
            if epoch_millis < BASE_POINT_UTC * 1000 {
                vstd::arithmetic::div_mod::lemma_div_is_ordered(
                    epoch_millis as int,
                    BASE_POINT_UTC * 1000 - 1,
                    1000,
                );
            }
        }
        return None;
    }
    let secs = epoch_millis / 1000;
    proof {
        vstd::arithmetic::div_mod::lemma_div_is_ordered(
            BASE_POINT_UTC * 1000,
            epoch_millis as int,
            1000,
        );
        vstd::arithmetic::div_mod::lemma_div_multiples_vanish(BASE_POINT_UTC as int, 1000);
        vstd::arithmetic::div_mod::lemma_div_is_ordered(
            epoch_millis as int,
            MAX_LOCAL_SECS * 1000,
            1000,
        );
        vstd::arithmetic::div_mod::lemma_div_multiples_vanish(MAX_LOCAL_SECS as int, 1000);
    }
    let t = Instant { local_secs: secs, offset_secs: 0 };
    get_schedule(&t)
}

} // verus!
