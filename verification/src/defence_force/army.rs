use vstd::prelude::*;
use crate::entry::Entry;
use crate::entry::Style;
use crate::entry::styled_name;
use crate::instant::Instant;
use crate::period::Granularity;
use crate::period::Schedule;
use crate::period::period_of;
use crate::project::merged_periods_by;
use crate::project::lemma_merged_periods_by;
use crate::project::lemma_merged_periods_props;
use crate::resolver::next_distinct_by;
use crate::resolver::lemma_next_distinct_by;
use crate::resolver::lemma_next_distinct_props;
use crate::table::CycleTable;

verus! {

/// Sunday 1970-01-04 00:00 JST (1970-01-03 15:00 UTC), a week-start that
/// opens slot 0 of the older seven-slot rotation, as UTC seconds since
/// the Unix epoch. Any Sunday midnight would do: the table repeats every
/// seven hours, so slots depend only on the hour count modulo seven.
pub const BASE_POINT_UTC: i64 = 226_800;

/// Number of slots in one rotation.
pub const CYCLE_LEN: usize = 7;

/// An army of the older seven-slot rotation: a name and its basic ANSI
/// colour code.
pub struct Army {
    pub name: String,
    pub color: u32,
}

/// A compiled-in table row: colour code and name.
pub struct X(pub u32, pub String);

impl Army {
    /// Builds an army from a table row.
    pub fn new(data: &X) -> (r: Army)
        ensures
            r.name@ == data.1@,
            r.color == data.0,
    {
        Army { name: data.1.clone(), color: data.0 }
    }

    /// The name wrapped in the ANSI escape for this army's colour.
    pub fn colorized_name(&self) -> (r: String)
        ensures
            r@ == styled_name(self.name@, Style::PlainColored(self.color)),
    {
        Entry::new(self.name.as_str(), Style::PlainColored(self.color)).colorized_name()
    }
}

/// The army name of rotation slot `i`.
pub open spec fn slot_name(i: int) -> Seq<char> {
    if i == 0 { "紫炎の鉄機兵団"@ }
    else if i == 1 || i == 4 { "銀甲の凶蟲兵団"@ }
    else if i == 2 { "深碧の造魔兵団"@ }
    else if i == 3 { "蒼怨の屍獄兵団"@ }
    else if i == 5 { "ランダム"@ }
    else { "闇朱の獣牙兵団"@ }
}

/// The colour code of rotation slot `i`.
pub open spec fn slot_color(i: int) -> u32 {
    if i == 0 { 35 }
    else if i == 1 || i == 4 { 33 }
    else if i == 2 { 32 }
    else if i == 3 { 34 }
    else if i == 5 { 1 }
    else { 31 }
}

/// The army name of any period (slot = period modulo cycle length).
pub open spec fn army_name(p: int) -> Seq<char> {
    slot_name(p % (CYCLE_LEN as int))
}

/// The colour code of any period.
pub open spec fn army_color(p: int) -> u32 {
    slot_color(p % (CYCLE_LEN as int))
}

/// `army_name` as a function value, shared by every contract that
/// quantifies over periods.
pub open spec fn army_name_fn() -> spec_fn(int) -> Seq<char> {
    |p: int| army_name(p)
}

/// The entry of rotation slot `i`.
fn army_slot(i: usize) -> (r: Entry)
    requires
        i < CYCLE_LEN,
    ensures
        r.name@ == slot_name(i as int),
        r.style == Style::PlainColored(slot_color(i as int)),
{
    match i {
        0 => Entry::new("紫炎の鉄機兵団", Style::PlainColored(35)),
        1 | 4 => Entry::new("銀甲の凶蟲兵団", Style::PlainColored(33)),
        2 => Entry::new("深碧の造魔兵団", Style::PlainColored(32)),
        3 => Entry::new("蒼怨の屍獄兵団", Style::PlainColored(34)),
        5 => Entry::new("ランダム", Style::PlainColored(1)),
        _ => Entry::new("闇朱の獣牙兵団", Style::PlainColored(31)),
    }
}

/// The full configuration of the older rotation: anchor, hourly
/// granularity, and the seven-slot table.
pub fn schedule() -> (r: Schedule)
    ensures
        r.wf(),
        !r.table.degenerate(),
        r.anchor_utc == BASE_POINT_UTC,
        r.granularity.secs == 3600,
        r.table.entries@.len() == CYCLE_LEN,
        forall|i: int|
            0 <= i < CYCLE_LEN ==> (#[trigger] r.table.entries@[i]).name@ == slot_name(i)
                && r.table.entries@[i].style == Style::PlainColored(slot_color(i)),
{
    let mut entries: Vec<Entry> = Vec::new();
    let mut i: usize = 0;
    while i < CYCLE_LEN
        invariant
            0 <= i <= CYCLE_LEN,
            entries@.len() == i,
            forall|j: int|
                0 <= j < i ==> (#[trigger] entries@[j]).name@ == slot_name(j) && entries@[j].style
                    == Style::PlainColored(slot_color(j)),
        decreases CYCLE_LEN - i,
    {
        entries.push(army_slot(i));
        i = i + 1;
    }
    let table = CycleTable { entries };
    proof {
        reveal_strlit("紫炎の鉄機兵団");
        reveal_strlit("銀甲の凶蟲兵団");
        assert("紫炎の鉄機兵団"@[0] == '紫');
        assert("銀甲の凶蟲兵団"@[0] == '銀');
        assert(table.entries@[1].name@ != table.entries@[0].name@);
    }
    Schedule { anchor_utc: BASE_POINT_UTC, granularity: Granularity::hour(), table }
}

/// The rotation state at one instant.
pub struct State {
    pub army: Army,
    pub next_army: Army,
    pub next_in: u32,
    pub changed_at_utc: i64,
}

/// The first period after `p` held by a different army.
pub open spec fn army_next(p: int) -> int {
    next_distinct_by(army_name_fn(), CYCLE_LEN as nat, p)
}

/// Resolves the rotation state at `t`: `None` exactly when `t` precedes
/// the anchor; otherwise the current and next distinct army, the minutes
/// remaining (rounded up to whole minutes), and the change instant.
pub fn get_state(t: &Instant) -> (r: Option<State>)
    requires
        t.wf(),
    ensures
        r is None <==> t.utc() < BASE_POINT_UTC,
        r matches Some(st) ==> ({
            let p = period_of(BASE_POINT_UTC as int, 3600, t.utc());
            let nd = army_next(p);
            &&& st.army.name@ == army_name(p)
            &&& st.army.color == army_color(p)
            &&& st.next_army.name@ == army_name(nd)
            &&& st.next_army.color == army_color(nd)
            &&& st.changed_at_utc == BASE_POINT_UTC + nd * 3600
            &&& st.next_in == (BASE_POINT_UTC + nd * 3600 - t.utc() + 59) / 60
        }),
{
    let s = schedule();
    proof {
        assert forall|x: int| x >= 0 implies #[trigger] s.table.name_at(x) == (army_name_fn())(
            x,
        ) by {
            vstd::arithmetic::div_mod::lemma_mod_bound(x, CYCLE_LEN as int);
        }
    }
    match crate::resolver::state(&s, t) {
        Err(_) => None,
        Ok(est) => {
            proof {
                let p = period_of(BASE_POINT_UTC as int, 3600, t.utc());
                crate::period::lemma_period_nonneg(BASE_POINT_UTC as int, 3600, t.utc());
                crate::period::lemma_period_brackets(BASE_POINT_UTC as int, 3600, t.utc());
                lemma_next_distinct_by(s.table, army_name_fn(), p);
                lemma_next_distinct_props(s.table, p);
                vstd::arithmetic::div_mod::lemma_mod_bound(p, CYCLE_LEN as int);
                vstd::arithmetic::div_mod::lemma_mod_bound(army_next(p), CYCLE_LEN as int);
                let nd = crate::resolver::next_distinct(s.table, p);
                vstd::arithmetic::mul::lemma_mul_inequality(nd, p + CYCLE_LEN, 3600);
                assert((p + CYCLE_LEN) * 3600 == p * 3600 + CYCLE_LEN * 3600) by (nonlinear_arith);
            }
            let next_in_minutes = ((est.next_in_secs + 59) / 60) as u32;
            let army = entry_to_army(&est.current);
            let next_army = entry_to_army(&est.next);
            Some(
                State { army, next_army, next_in: next_in_minutes, changed_at_utc: est.changed_at_utc },
            )
        },
    }
}

/// One event of a projected window.
pub struct Event {
    pub started_at_utc: i64,
    pub army: Army,
}

/// The periods at which events start in a merged window of `n` periods
/// from period `p0`.
pub open spec fn army_merged(p0: int, n: int) -> Seq<int> {
    merged_periods_by(army_name_fn(), p0, n)
}

/// The merged 24-period window from the period containing `t`: `None`
/// exactly when `t` precedes the anchor; otherwise one event per period
/// whose army differs from its predecessor's, in order.
pub fn get_schedule(t: &Instant) -> (r: Option<Vec<Event>>)
    requires
        t.wf(),
    ensures
        r is None <==> t.utc() < BASE_POINT_UTC,
        r matches Some(v) ==> ({
            let p0 = period_of(BASE_POINT_UTC as int, 3600, t.utc());
            let mp = army_merged(p0, 24);
            &&& v@.len() == mp.len()
            &&& 1 <= v@.len() <= 24
            &&& forall|k: int|
                0 <= k < mp.len() ==> (#[trigger] v@[k]).army.name@ == army_name(mp[k])
                    && v@[k].army.color == army_color(mp[k]) && v@[k].started_at_utc
                    == BASE_POINT_UTC + mp[k] * 3600
        }),
{
    let s = schedule();
    proof {
        assert forall|x: int| x >= 0 implies #[trigger] s.table.name_at(x) == (army_name_fn())(
            x,
        ) by {
            vstd::arithmetic::div_mod::lemma_mod_bound(x, CYCLE_LEN as int);
        }
    }
    match crate::project::project(&s, t, 24) {
        Err(_) => None,
        Ok(items) => {
            let ghost p0 = period_of(BASE_POINT_UTC as int, 3600, t.utc());
            proof {
                crate::period::lemma_period_nonneg(BASE_POINT_UTC as int, 3600, t.utc());
                lemma_merged_periods_by(s.table, army_name_fn(), p0, 24);
                lemma_merged_periods_props(s.table, p0, 24);
            }
            let ghost mp = army_merged(p0, 24);
            let mut v: Vec<Event> = Vec::new();
            let mut i: usize = 0;
            while i < items.len()
                invariant
                    items@.len() == mp.len(),
                    0 <= i <= items@.len(),
                    v@.len() == i,
                    forall|k: int|
                        0 <= k < items@.len() ==> #[trigger] items@[k] == crate::project::item_at(
                            s,
                            mp[k],
                        ),
                    forall|k: int|
                        0 <= k < i ==> (#[trigger] v@[k]).army.name@ == items@[k].entry.name@
                            && v@[k].army.color == entry_color(items@[k].entry)
                            && v@[k].started_at_utc == items@[k].started_at_utc,
                decreases items@.len() - i,
            {
                let it = &items[i];
                v.push(Event { started_at_utc: it.started_at_utc, army: entry_to_army(&it.entry) });
                i = i + 1;
            }
            proof {
                assert forall|k: int| 0 <= k < mp.len() implies (#[trigger] v@[k]).army.name@
                    == army_name(mp[k]) && v@[k].army.color == army_color(mp[k])
                    && v@[k].started_at_utc == BASE_POINT_UTC + mp[k] * 3600 by {
                    vstd::arithmetic::div_mod::lemma_mod_bound(mp[k], CYCLE_LEN as int);
                    crate::period::lemma_period_brackets(BASE_POINT_UTC as int, 3600, t.utc());
                    vstd::arithmetic::mul::lemma_mul_inequality(0, mp[k], 3600);
                    vstd::arithmetic::mul::lemma_mul_inequality(mp[k], p0 + 24, 3600);
                    assert((p0 + 24) * 3600 == p0 * 3600 + 24 * 3600) by (nonlinear_arith);
                }
            }
            Some(v)
        },
    }
}

/// The colour code a rotation entry carries (these entries are all
/// plain-coloured).
pub open spec fn entry_color(e: Entry) -> u32 {
    match e.style {
        Style::PlainColored(c) => c,
        Style::IndexedColored(c) => c,
        Style::RainbowColored => 0,
    }
}

fn entry_to_army(e: &Entry) -> (r: Army)
    ensures
        r.name@ == e.name@,
        r.color == entry_color(*e),
{
    let color: u32 = match e.style {
        Style::PlainColored(c) => c,
        Style::IndexedColored(c) => c,
        Style::RainbowColored => 0,
    };
    Army { name: e.name.clone(), color }
}

} // verus!
