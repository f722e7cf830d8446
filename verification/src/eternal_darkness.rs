use vstd::prelude::*;
use crate::instant::Instant;
use crate::levels::LevelEntry;
use crate::period::Granularity;
use crate::period::period_of;
use crate::period::lemma_period_nonneg;

verus! {

/// 2016-07-06 06:00 JST (2016-07-05 21:00 UTC), the first day of the
/// rotation, as UTC seconds since the Unix epoch.
pub const BASE_POINT_UTC: i64 = 1_467_752_400;

/// The levels in force at `now`: `None` exactly when `now` precedes the
/// anchor. Three enemies cycle through levels 1 to 4 daily, each with
/// its own phase.
pub fn get_levels(now: &Instant) -> (r: Option<Vec<LevelEntry>>)
    requires
        now.wf(),
    ensures
        r is None <==> now.utc() < BASE_POINT_UTC,
        r matches Some(v) ==> ({
            let d = period_of(BASE_POINT_UTC as int, 86_400, now.utc());
            &&& v@.len() == 3
            &&& v@[0].name@ == "レグナード"@ && v@[0].level == (d + 2) % 4 + 1
            &&& v@[1].name@ == "ダークキング"@ && v@[1].level == d % 4 + 1
            &&& v@[2].name@ == "メイヴ"@ && v@[2].level == (d + 3) % 4 + 1
        }),
{
    let d = match crate::period::calc_period(BASE_POINT_UTC, &Granularity::day(), now) {
        Err(_) => {
            return None;
        },
        Ok(d) => d,
    };
    proof {
        lemma_period_nonneg(BASE_POINT_UTC as int, 86_400, now.utc());
        vstd::arithmetic::div_mod::lemma_mod_bound(d as int, 4);
        vstd::arithmetic::div_mod::lemma_add_mod_noop(d as int, 2, 4);
        vstd::arithmetic::div_mod::lemma_add_mod_noop(d as int, 3, 4);
        vstd::arithmetic::div_mod::lemma_small_mod(2nat, 4nat);
        vstd::arithmetic::div_mod::lemma_small_mod(3nat, 4nat);
        vstd::arithmetic::div_mod::lemma_mod_self_0(4);
        vstd::arithmetic::div_mod::lemma_small_mod(0nat, 4nat);
        vstd::arithmetic::div_mod::lemma_small_mod(1nat, 4nat);
    }
    let dm = (d % 4) as u8;
    let lv_regnard: u8 = if dm >= 2 { dm - 1 } else { dm + 3 };
    let lv_darkking: u8 = dm + 1;
    let lv_meave: u8 = if dm >= 1 { dm } else { 4 };
    let mut v: Vec<LevelEntry> = Vec::new();
    v.push(LevelEntry::new("レグナード", lv_regnard));
    v.push(LevelEntry::new("ダークキング", lv_darkking));
    v.push(LevelEntry::new("メイヴ", lv_meave));
    Some(v)
}

} // verus!
