use vstd::prelude::*;
use crate::entry::Entry;
use crate::entry::Style;
use crate::error::ScheduleError;
use crate::instant::Instant;
use crate::period::Granularity;
use crate::period::Schedule;
use crate::period::period_of;
use crate::table::CycleTable;

verus! {

/// 2025-05-14 06:00 JST (2025-05-13 21:00 UTC), the instant that opens
/// slot 0 of the current rotation, as UTC seconds since the Unix epoch.
pub const BASE_POINT_UTC: i64 = 1_747_170_000;

/// Number of slots in one rotation.
pub const CYCLE_LEN: usize = 30;

/// The troop name of rotation slot `i`.
pub open spec fn troop_name(i: int) -> Seq<char> {
    if i == 3 { "闇朱の獣牙兵団"@ }
    else if i == 13 { "紫炎の鉄機兵団"@ }
    else if i == 23 { "深碧の造魔兵団"@ }
    else if i == 4 { "蒼怨の屍獄兵団"@ }
    else if i == 14 { "銀甲の凶蟲兵団"@ }
    else if i == 24 { "翠煙の海妖兵団"@ }
    else if i == 5 { "灰塵の竜鱗兵団"@ }
    else if i == 15 { "彩虹の粘塊兵団"@ }
    else if i == 25 { "芳墨の華烈兵団"@ }
    else if i == 6 { "白雲の冥翼軍団"@ }
    else if i == 16 { "腐緑の樹葬兵団"@ }
    else if i == 26 { "青鮮の菜果兵団"@ }
    else if i == 0 || i == 7 || i == 10 || i == 17 || i == 20 || i == 27 { "鋼塊の重滅兵団"@ }
    else if i == 1 || i == 8 || i == 11 || i == 18 || i == 21 || i == 28 { "金神の遺宝兵団"@ }
    else { "全兵団"@ }
}

/// The display style of rotation slot `i`.
pub open spec fn troop_style(i: int) -> Style {
    if i == 3 { Style::PlainColored(31) }
    else if i == 13 { Style::PlainColored(35) }
    else if i == 23 { Style::PlainColored(32) }
    else if i == 4 { Style::PlainColored(34) }
    else if i == 14 { Style::PlainColored(33) }
    else if i == 24 { Style::PlainColored(36) }
    else if i == 5 { Style::PlainColored(37) }
    else if i == 15 { Style::RainbowColored }
    else if i == 25 { Style::IndexedColored(88) }
    else if i == 6 { Style::PlainColored(0) }
    else if i == 16 { Style::IndexedColored(100) }
    else if i == 26 { Style::IndexedColored(190) }
    else if i == 0 || i == 7 || i == 10 || i == 17 || i == 20 || i == 27 {
        Style::IndexedColored(103)
    } else if i == 1 || i == 8 || i == 11 || i == 18 || i == 21 || i == 28 {
        Style::IndexedColored(220)
    } else {
        Style::PlainColored(1)
    }
}

/// The troop name of any period (slot = period modulo cycle length).
pub open spec fn defence_name(p: int) -> Seq<char> {
    troop_name(p % (CYCLE_LEN as int))
}

/// The display style of any period.
pub open spec fn defence_style(p: int) -> Style {
    troop_style(p % (CYCLE_LEN as int))
}

/// `defence_name` as a function value, shared by every contract that
/// quantifies over periods.
pub open spec fn defence_name_fn() -> spec_fn(int) -> Seq<char> {
    |p: int| defence_name(p)
}

/// The entry of rotation slot `i`.
fn troop_slot(i: usize) -> (r: Entry)
    requires
        i < CYCLE_LEN,
    ensures
        r.name@ == troop_name(i as int),
        r.style == troop_style(i as int),
{
    match i {
        3 => Entry::new("闇朱の獣牙兵団", Style::PlainColored(31)),
        13 => Entry::new("紫炎の鉄機兵団", Style::PlainColored(35)),
        23 => Entry::new("深碧の造魔兵団", Style::PlainColored(32)),
        4 => Entry::new("蒼怨の屍獄兵団", Style::PlainColored(34)),
        14 => Entry::new("銀甲の凶蟲兵団", Style::PlainColored(33)),
        24 => Entry::new("翠煙の海妖兵団", Style::PlainColored(36)),
        5 => Entry::new("灰塵の竜鱗兵団", Style::PlainColored(37)),
        15 => Entry::new("彩虹の粘塊兵団", Style::RainbowColored),
        25 => Entry::new("芳墨の華烈兵団", Style::IndexedColored(88)),
        6 => Entry::new("白雲の冥翼軍団", Style::PlainColored(0)),
        16 => Entry::new("腐緑の樹葬兵団", Style::IndexedColored(100)),
        26 => Entry::new("青鮮の菜果兵団", Style::IndexedColored(190)),
        0 | 7 | 10 | 17 | 20 | 27 => Entry::new("鋼塊の重滅兵団", Style::IndexedColored(103)),
        1 | 8 | 11 | 18 | 21 | 28 => Entry::new("金神の遺宝兵団", Style::IndexedColored(220)),
        _ => Entry::new("全兵団", Style::PlainColored(1)),
    }
}

/// The full rotation configuration: anchor, hourly granularity, and the
/// 30-slot troop table.
pub fn schedule() -> (r: Schedule)
    ensures
        r.wf(),
        !r.table.degenerate(),
        r.anchor_utc == BASE_POINT_UTC,
        r.granularity.secs == 3600,
        r.table.entries@.len() == CYCLE_LEN,
        forall|i: int|
            0 <= i < CYCLE_LEN ==> (#[trigger] r.table.entries@[i]).name@ == troop_name(i)
                && r.table.entries@[i].style == troop_style(i),
{
    let mut entries: Vec<Entry> = Vec::new();
    let mut i: usize = 0;
    while i < CYCLE_LEN
        invariant
            0 <= i <= CYCLE_LEN,
            entries@.len() == i,
            forall|j: int|
                0 <= j < i ==> (#[trigger] entries@[j]).name@ == troop_name(j)
                    && entries@[j].style == troop_style(j),
        decreases CYCLE_LEN - i,
    {
        entries.push(troop_slot(i));
        i = i + 1;
    }
    let table = CycleTable { entries };
    proof {
        reveal_strlit("鋼塊の重滅兵団");
        reveal_strlit("闇朱の獣牙兵団");
        assert("闇朱の獣牙兵団"@[0] == '闇');
        assert("鋼塊の重滅兵団"@[0] == '鋼');
        assert(table.entries@[3].name@ != table.entries@[0].name@);
    }
    Schedule { anchor_utc: BASE_POINT_UTC, granularity: Granularity::hour(), table }
}

/// The anchor of the rotation: the instant of period 0, as UTC seconds
/// since the Unix epoch.
pub fn get_base_point() -> (r: i64)
    ensures
        r == BASE_POINT_UTC,
{
    BASE_POINT_UTC
}

/// The period of an instant under this rotation; `OutOfRange` before the
/// anchor.
pub fn calc_period(t: &Instant) -> (r: Result<u64, ScheduleError>)
    requires
        t.wf(),
    ensures
        t.utc() < BASE_POINT_UTC ==> r == Err::<u64, ScheduleError>(ScheduleError::OutOfRange),
        t.utc() >= BASE_POINT_UTC ==> (r matches Ok(p) && p == period_of(
            BASE_POINT_UTC as int,
            3600,
            t.utc(),
        )),
{
    crate::period::calc_period(BASE_POINT_UTC, &Granularity::hour(), t)
}

/// The troop on duty in period `p`; total via modulo wrap.
pub fn get_troop_by_period(p: u64) -> (r: Entry)
    ensures
        r.name@ == defence_name(p as int),
        r.style == defence_style(p as int),
{
    proof {
        vstd::arithmetic::div_mod::lemma_mod_bound(p as int, CYCLE_LEN as int);
    }
    troop_slot((p % (CYCLE_LEN as u64)) as usize)
}

} // verus!
