use vstd::prelude::*;
use vstd::string::StringExecFns;
use crate::error::ScheduleError;
use crate::instant::Instant;
use crate::period::Granularity;
use crate::period::period_of;
use crate::period::lemma_period_brackets;
use crate::period::lemma_period_nonneg;

verus! {

/// 2025-01-29 06:00 JST (2025-01-28 21:00 UTC), the instant that opens
/// slot 0 of the boss rotation, as UTC seconds since the Unix epoch.
pub const BASE_POINT_UTC: i64 = 1_738_098_000;

/// Number of bosses in one rotation.
pub const CYCLE_LEN: usize = 8;

/// Seconds per period: the boss changes every three days.
pub const PERIOD_SECS: u32 = 259_200;

/// A rotation boss.
pub struct Boss {
    pub name: String,
}

/// One event of the rotation: a boss and the absolute instant (UTC
/// seconds since the Unix epoch) at which its three-day period opens.
pub struct Event {
    pub boss: Boss,
    pub started_at_utc: i64,
}

/// The boss name of rotation slot `i`.
pub open spec fn boss_name(i: int) -> Seq<char> {
    if i == 0 { "源世鳥アルマナ"@ }
    else if i == 1 { "じげんりゅう"@ }
    else if i == 2 { "源世妃フォルダイナ"@ }
    else if i == 3 { "鉄巨兵ダイダルモス"@ }
    else if i == 4 { "パニガキャッチャー"@ }
    else if i == 5 { "源世果フルポティ"@ }
    else if i == 6 { "魔妖星プルタヌス"@ }
    else { "堕天使エルギオス"@ }
}

/// The boss name of any period (slot = period modulo cycle length).
pub open spec fn panigarm_name(p: int) -> Seq<char> {
    boss_name(p % (CYCLE_LEN as int))
}

/// The boss of rotation slot `i`.
fn boss_slot(i: usize) -> (r: Boss)
    requires
        i < CYCLE_LEN,
    ensures
        r.name@ == boss_name(i as int),
{
    let name: &str = match i {
        0 => "源世鳥アルマナ",
        1 => "じげんりゅう",
        2 => "源世妃フォルダイナ",
        3 => "鉄巨兵ダイダルモス",
        4 => "パニガキャッチャー",
        5 => "源世果フルポティ",
        6 => "魔妖星プルタヌス",
        _ => "堕天使エルギオス",
    };
    Boss { name: String::from_str(name) }
}

/// The event current at `t`: the boss of `t`'s period and that period's
/// opening instant. Fails `OutOfRange` before the anchor.
pub fn get_event(t: &Instant) -> (r: Result<Event, ScheduleError>)
    requires
        t.wf(),
    ensures
        t.utc() < BASE_POINT_UTC ==> r == Err::<Event, ScheduleError>(ScheduleError::OutOfRange),
        t.utc() >= BASE_POINT_UTC ==> (r matches Ok(ev) && {
            let p = period_of(BASE_POINT_UTC as int, PERIOD_SECS as int, t.utc());
            &&& ev.boss.name@ == panigarm_name(p)
            &&& ev.started_at_utc == BASE_POINT_UTC + p * PERIOD_SECS
        }),
{
    let p = match crate::period::calc_period(BASE_POINT_UTC, &Granularity::days(3), t) {
        Err(e) => {
            return Err(e);
        },
        Ok(p) => p,
    };
    proof {
        lemma_period_nonneg(BASE_POINT_UTC as int, PERIOD_SECS as int, t.utc());
        lemma_period_brackets(BASE_POINT_UTC as int, PERIOD_SECS as int, t.utc());
        vstd::arithmetic::div_mod::lemma_mod_bound(p as int, CYCLE_LEN as int);
    }
    let boss = boss_slot((p % (CYCLE_LEN as u64)) as usize);
    let started_at_utc = BASE_POINT_UTC + ((p * (PERIOD_SECS as u64)) as i64);
    Ok(Event { boss, started_at_utc })
}

/// One whole turn of the rotation seen from `t`: eight events, one per
/// period from `t`'s own onward, each with its boss and opening instant.
/// Fails `OutOfRange` before the anchor.
pub fn get_cycle(t: &Instant) -> (r: Result<Vec<Event>, ScheduleError>)
    requires
        t.wf(),
    ensures
        t.utc() < BASE_POINT_UTC ==> r == Err::<Vec<Event>, ScheduleError>(
            ScheduleError::OutOfRange,
        ),
        t.utc() >= BASE_POINT_UTC ==> (r matches Ok(v) && {
            let p = period_of(BASE_POINT_UTC as int, PERIOD_SECS as int, t.utc());
            &&& v@.len() == CYCLE_LEN
            &&& forall|i: int|
                0 <= i < CYCLE_LEN ==> (#[trigger] v@[i]).boss.name@ == panigarm_name(p + i)
                    && v@[i].started_at_utc == BASE_POINT_UTC + (p + i) * PERIOD_SECS
        }),
{
    let p = match crate::period::calc_period(BASE_POINT_UTC, &Granularity::days(3), t) {
        Err(e) => {
            return Err(e);
        },
        Ok(p) => p,
    };
    proof {
        lemma_period_nonneg(BASE_POINT_UTC as int, PERIOD_SECS as int, t.utc());
        lemma_period_brackets(BASE_POINT_UTC as int, PERIOD_SECS as int, t.utc());
        assert(p as int <= p as int * (PERIOD_SECS as int)) by (nonlinear_arith)
            requires
                p as int >= 0,
        ;
    }
    let mut v: Vec<Event> = Vec::new();
    let mut i: usize = 0;
    while i < CYCLE_LEN
        invariant
            t.wf(),
            t.utc() >= BASE_POINT_UTC,
            0 <= i <= CYCLE_LEN,
            v@.len() == i,
            p == period_of(BASE_POINT_UTC as int, PERIOD_SECS as int, t.utc()),
            p * PERIOD_SECS <= t.utc() - BASE_POINT_UTC,
            p <= t.utc() - BASE_POINT_UTC,
            forall|k: int|
                0 <= k < i ==> (#[trigger] v@[k]).boss.name@ == panigarm_name(p + k)
                    && v@[k].started_at_utc == BASE_POINT_UTC + (p + k) * PERIOD_SECS,
        decreases CYCLE_LEN - i,
    {
        proof {
            vstd::arithmetic::div_mod::lemma_mod_bound(p + i, CYCLE_LEN as int);
            assert((p + i) * PERIOD_SECS == p * PERIOD_SECS + i * PERIOD_SECS)
                by (nonlinear_arith);
            vstd::arithmetic::mul::lemma_mul_upper_bound(
                i as int,
                CYCLE_LEN as int,
                PERIOD_SECS as int,
                PERIOD_SECS as int,
            );
        }
        let q = p + (i as u64);
        let boss = boss_slot((q % (CYCLE_LEN as u64)) as usize);
        let started_at_utc = BASE_POINT_UTC + ((q * (PERIOD_SECS as u64)) as i64);
        v.push(Event { boss, started_at_utc });
        i = i + 1;
    }
    Ok(v)
}

} // verus!
