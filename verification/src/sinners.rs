use vstd::prelude::*;
use crate::instant::Instant;
use crate::levels::LevelEntry;
use crate::period::Granularity;
use crate::period::period_of;
use crate::period::lemma_period_brackets;
use crate::period::lemma_period_nonneg;

verus! {

/// 2022-05-11 06:00 JST (2022-05-10 21:00 UTC), the first day of the
/// rotation, as UTC seconds since the Unix epoch.
pub const BASE_POINT_UTC: i64 = 1_652_216_400;

/// The day's enemy levels together with the day's term: the absolute
/// window, closed on both ends, over which these levels are in force.
/// The term instants carry the caller's own offset.
pub struct Levels {
    pub levels: Vec<LevelEntry>,
    pub term_from: Instant,
    pub term_to: Instant,
}

/// The levels in force at `now`: `None` exactly when `now` precedes the
/// anchor. Two enemies alternate between level 1 and 2 daily, the other
/// two in counter-phase; the term runs from the current day boundary to
/// one second before the next.
pub fn get_levels(now: &Instant) -> (r: Option<Levels>)
    requires
        now.wf(),
    ensures
        r is None <==> now.utc() < BASE_POINT_UTC,
        r matches Some(lv) ==> ({
            let d = period_of(BASE_POINT_UTC as int, 86_400, now.utc());
            let d0 = d % 2 + 1;
            let d1 = (d + 1) % 2 + 1;
            &&& lv.levels@.len() == 4
            &&& lv.levels@[0].name@ == "厭悪のルベランギス"@ && lv.levels@[0].level == d0
            &&& lv.levels@[1].name@ == "絶念のアウルモッド"@ && lv.levels@[1].level == d1
            &&& lv.levels@[2].name@ == "狂禍のフラウソン"@ && lv.levels@[2].level == d0
            &&& lv.levels@[3].name@ == "悲愴のウィリーデ"@ && lv.levels@[3].level == d1
            &&& lv.term_from.offset_secs == now.offset_secs
            &&& lv.term_from.utc() == BASE_POINT_UTC + d * 86_400
            &&& lv.term_to.offset_secs == now.offset_secs
            &&& lv.term_to.utc() == BASE_POINT_UTC + d * 86_400 + 86_399
        }),
{
    let d = match crate::period::calc_period(BASE_POINT_UTC, &Granularity::day(), now) {
        Err(_) => {
            return None;
        },
        Ok(d) => d,
    };
    proof {
        lemma_period_nonneg(BASE_POINT_UTC as int, 86_400, now.utc());
        lemma_period_brackets(BASE_POINT_UTC as int, 86_400, now.utc());
        vstd::arithmetic::div_mod::lemma_mod_bound(d as int, 2);
        vstd::arithmetic::div_mod::lemma_add_mod_noop(d as int, 1, 2);
        vstd::arithmetic::div_mod::lemma_small_mod(1nat, 2nat);
        vstd::arithmetic::div_mod::lemma_mod_self_0(2);
    }
    let dm = (d % 2) as u8;
    let d0: u8 = dm + 1;
    let d1: u8 = 2 - dm;
    let mut levels: Vec<LevelEntry> = Vec::new();
    levels.push(LevelEntry::new("厭悪のルベランギス", d0));
    levels.push(LevelEntry::new("絶念のアウルモッド", d1));
    levels.push(LevelEntry::new("狂禍のフラウソン", d0));
    levels.push(LevelEntry::new("悲愴のウィリーデ", d1));
    let from_utc: i64 = BASE_POINT_UTC + ((d * 86_400) as i64);
    let term_from = Instant {
        local_secs: from_utc + (now.offset_secs as i64),
        offset_secs: now.offset_secs,
    };
    let term_to = Instant {
        local_secs: from_utc + 86_399 + (now.offset_secs as i64),
        offset_secs: now.offset_secs,
    };
    Some(Levels { levels, term_from, term_to })
}

} // verus!
