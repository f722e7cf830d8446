use vstd::prelude::*;
use crate::instant::Instant;
use crate::levels::LevelEntry;
use crate::period::Granularity;
use crate::period::period_of;
use crate::period::lemma_period_nonneg;

verus! {

/// 2018-04-20 06:00 JST (2018-04-19 21:00 UTC), the first day of the
/// rotation, as UTC seconds since the Unix epoch.
pub const BASE_POINT_UTC: i64 = 1_524_171_600;

/// The levels in force at `now`: `None` exactly when `now` precedes the
/// anchor. Six enemies cycle through levels 1 to 3 daily, in three
/// phase groups.
pub fn get_levels(now: &Instant) -> (r: Option<Vec<LevelEntry>>)
    requires
        now.wf(),
    ensures
        r is None <==> now.utc() < BASE_POINT_UTC,
        r matches Some(v) ==> ({
            let d = period_of(BASE_POINT_UTC as int, 86_400, now.utc());
            let d0 = d % 3 + 1;
            let d1 = (d + 1) % 3 + 1;
            let d2 = (d + 2) % 3 + 1;
            &&& v@.len() == 6
            &&& v@[0].name@ == "レギルラッゾたち"@ && v@[0].level == d0
            &&& v@[1].name@ == "スコルパイド"@ && v@[1].level == d2
            &&& v@[2].name@ == "ジェルザーク"@ && v@[2].level == d1
            &&& v@[3].name@ == "ガルドドン"@ && v@[3].level == d1
            &&& v@[4].name@ == "デルメゼ"@ && v@[4].level == d2
            &&& v@[5].name@ == "バラシュナ"@ && v@[5].level == d0
        }),
{
    let d = match crate::period::calc_period(BASE_POINT_UTC, &Granularity::day(), now) {
        Err(_) => {
            return None;
        },
        Ok(d) => d,
    };
    proof {
        lemma_period_nonneg(BASE_POINT_UTC as int, 86_400, now.utc());
        vstd::arithmetic::div_mod::lemma_mod_bound(d as int, 3);
        vstd::arithmetic::div_mod::lemma_add_mod_noop(d as int, 1, 3);
        vstd::arithmetic::div_mod::lemma_add_mod_noop(d as int, 2, 3);
        vstd::arithmetic::div_mod::lemma_small_mod(1nat, 3nat);
        vstd::arithmetic::div_mod::lemma_small_mod(2nat, 3nat);
        vstd::arithmetic::div_mod::lemma_mod_self_0(3);
    }
    let dm = (d % 3) as u8;
    let d0: u8 = dm + 1;
    let d1: u8 = if dm == 2 { 1 } else { dm + 2 };
    let d2: u8 = if dm == 0 { 3 } else { dm };
    let mut v: Vec<LevelEntry> = Vec::new();
    v.push(LevelEntry::new("レギルラッゾたち", d0));
    v.push(LevelEntry::new("スコルパイド", d2));
    v.push(LevelEntry::new("ジェルザーク", d1));
    v.push(LevelEntry::new("ガルドドン", d1));
    v.push(LevelEntry::new("デルメゼ", d2));
    v.push(LevelEntry::new("バラシュナ", d0));
    Some(v)
}

} // verus!
