use dq10tools::defence_force::{army, troop};
use dq10tools::entry::{Entry, Style};
use dq10tools::error::ScheduleError;
use dq10tools::instant::{resolve_local, Instant, LocalResolution};
use dq10tools::period::{calc_period, Granularity, Schedule};
use dq10tools::project::project;
use dq10tools::resolver::state;
use dq10tools::table::CycleTable;

fn entry(name: &str) -> Entry {
    Entry::new(name, Style::PlainColored(1))
}

fn table(names: &[&str]) -> CycleTable {
    let mut v = Vec::new();
    for n in names {
        v.push(entry(n));
    }
    CycleTable::new(v).unwrap()
}

#[test]
fn test_same_instant_any_offset_same_period() {
    // One absolute instant written under three different offsets always
    // lands in the same period.
    let utc_secs: i64 = troop::get_base_point() + 50 * 3600 + 1234;
    let t_utc = Instant::new(utc_secs, 0).unwrap();
    let t_jst = Instant::new(utc_secs + 9 * 3600, 9 * 3600).unwrap();
    let t_neg = Instant::new(utc_secs - 5 * 3600 - 1800, -(5 * 3600 + 1800)).unwrap();
    let p1 = troop::calc_period(&t_utc).unwrap();
    let p2 = troop::calc_period(&t_jst).unwrap();
    let p3 = troop::calc_period(&t_neg).unwrap();
    assert_eq!(p1, 50);
    assert_eq!(p2, 50);
    assert_eq!(p3, 50);
}

#[test]
fn test_period_monotone() {
    let base = troop::get_base_point();
    let mut last: u64 = 0;
    for step in [0i64, 1, 59, 3599, 3600, 3601, 86400, 86401, 1_000_000] {
        let p = troop::calc_period(&Instant::from_utc(base + step).unwrap()).unwrap();
        assert!(p >= last);
        last = p;
    }
}

#[test]
fn test_scenario_hourly_seven_slots() {
    // Forty-five minutes into period 0 of the seven-slot hourly table.
    let t = Instant::from_utc(army::BASE_POINT_UTC + 45 * 60).unwrap();
    let st = army::get_state(&t).unwrap();
    assert_eq!(st.army.name, "紫炎の鉄機兵団");
    assert_eq!(st.next_army.name, "銀甲の凶蟲兵団");
    assert_eq!(st.next_in, 15);
    assert_eq!(st.changed_at_utc, army::BASE_POINT_UTC + 3600);
}

#[test]
fn test_scenario_daily_two_slots() {
    // A two-slot daily table serves its first entry on the anchor day,
    // its second the next day, and wraps on the third.
    let anchor: i64 = 19_000 * 86_400;
    let s = Schedule {
        anchor_utc: anchor,
        granularity: Granularity::day(),
        table: table(&["A", "B"]),
    };
    let day = |n: i64| Instant::from_utc(anchor + n * 86_400 + 43_200).unwrap();
    let st0 = state(&s, &day(0)).unwrap();
    let st1 = state(&s, &day(1)).unwrap();
    let st2 = state(&s, &day(2)).unwrap();
    assert_eq!(st0.current.name, "A");
    assert_eq!(st1.current.name, "B");
    assert_eq!(st2.current.name, "A");
}

#[test]
fn test_scenario_window_merges_repeats() {
    // An hourly thirteen-slot table with adjacent repeats: a 24-period
    // window merges them, and the first item starts at the query hour.
    let anchor: i64 = 444_445 * 3600;
    let s = Schedule {
        anchor_utc: anchor,
        granularity: Granularity::hour(),
        table: table(&["a", "a", "b", "c", "c", "d", "e", "e", "f", "g", "g", "h", "i"]),
    };
    let query = Instant::from_utc(anchor + 5000).unwrap();
    let v = project(&s, &query, 24).unwrap();
    assert!(v.len() < 24);
    assert_eq!(v.len(), 17);
    // The query instant truncated down to the hour.
    let query_utc = anchor + 5000;
    assert_eq!(v[0].started_at_utc, query_utc - query_utc % 3600);
    assert_eq!(v[0].entry.name, "a");
    for k in 0..v.len() - 1 {
        assert_ne!(v[k].entry.name, v[k + 1].entry.name);
    }
}

#[test]
fn test_scenario_anchor_boundary() {
    // One second before the anchor is out of range; the anchor itself is
    // period 0.
    let base = troop::get_base_point();
    let before = Instant::from_utc(base - 1).unwrap();
    let at = Instant::from_utc(base).unwrap();
    assert_eq!(troop::calc_period(&before), Err(ScheduleError::OutOfRange));
    assert_eq!(troop::calc_period(&at), Ok(0));
}

#[test]
fn test_state_current_is_period_entry() {
    // The resolver's current entry always equals the table lookup at the
    // calculated period.
    let base = troop::get_base_point();
    for step in [0i64, 1800, 3600, 7200, 100 * 3600 + 71, 30 * 3600] {
        let t = Instant::from_utc(base + step).unwrap();
        let p = troop::calc_period(&t).unwrap();
        let st = dq10tools::defence_force::state::get_state(&t).unwrap();
        assert_eq!(st.troop.name, troop::get_troop_by_period(p).name);
    }
}

#[test]
fn test_change_is_strict_and_distinct() {
    // The change instant lies strictly after the query, and the entry of
    // the period containing it differs from the current one.
    let base = troop::get_base_point();
    for step in [0i64, 1800, 3599, 9 * 3600 + 17, 29 * 3600] {
        let utc = base + step;
        let t = Instant::from_utc(utc).unwrap();
        let st = dq10tools::defence_force::state::get_state(&t).unwrap();
        assert!(st.changed_at_utc > utc);
        let p_now = troop::calc_period(&t).unwrap();
        let p_change = troop::calc_period(&Instant::from_utc(st.changed_at_utc).unwrap()).unwrap();
        assert_ne!(
            troop::get_troop_by_period(p_change).name,
            troop::get_troop_by_period(p_now).name
        );
    }
}

#[test]
fn test_table_rejects_degenerate() {
    assert!(matches!(CycleTable::new(Vec::new()), Err(ScheduleError::CycleDegenerate)));
    assert!(matches!(CycleTable::new(vec![entry("x")]), Err(ScheduleError::CycleDegenerate)));
    // All names equal counts as degenerate even when styles differ.
    let same = vec![
        Entry::new("x", Style::PlainColored(31)),
        Entry::new("x", Style::IndexedColored(100)),
        Entry::new("x", Style::RainbowColored),
    ];
    assert!(matches!(CycleTable::new(same), Err(ScheduleError::CycleDegenerate)));
    assert!(CycleTable::new(vec![entry("x"), entry("y")]).is_ok());
}

#[test]
fn test_resolver_defends_against_degenerate_table() {
    // A degenerate table built around the validating constructor still
    // cannot make the resolver loop: it fails after one table length.
    let s = Schedule {
        anchor_utc: 0,
        granularity: Granularity::hour(),
        table: CycleTable { entries: vec![entry("x"), entry("x")] },
    };
    let t = Instant::from_utc(7200).unwrap();
    assert!(matches!(state(&s, &t), Err(ScheduleError::CycleDegenerate)));
}

#[test]
fn test_resolve_local() {
    let ok = resolve_local(1_000_000, LocalResolution::One(9 * 3600));
    assert_eq!(
        ok,
        Ok(Instant { local_secs: 1_000_000, offset_secs: 9 * 3600 })
    );
    assert_eq!(
        resolve_local(1_000_000, LocalResolution::Two(3600, 7200)),
        Err(ScheduleError::AmbiguousLocalTime)
    );
    assert_eq!(
        resolve_local(1_000_000, LocalResolution::NoInstant),
        Err(ScheduleError::AmbiguousLocalTime)
    );
}

#[test]
fn test_project_before_anchor() {
    let s = Schedule {
        anchor_utc: 86_400,
        granularity: Granularity::hour(),
        table: table(&["a", "b"]),
    };
    let t = Instant::from_utc(86_399).unwrap();
    assert!(matches!(project(&s, &t, 24), Err(ScheduleError::OutOfRange)));
    assert!(matches!(state(&s, &t), Err(ScheduleError::OutOfRange)));
    assert!(matches!(
        calc_period(s.anchor_utc, &Granularity::hour(), &t),
        Err(ScheduleError::OutOfRange)
    ));
}

#[test]
fn test_week_granularity() {
    // A weekly two-slot table flips entry every seven days.
    let anchor: i64 = 1_000 * 604_800;
    let s = Schedule {
        anchor_utc: anchor,
        granularity: Granularity::week(),
        table: table(&["A", "B"]),
    };
    let st = state(&s, &Instant::from_utc(anchor + 8 * 86_400).unwrap()).unwrap();
    assert_eq!(st.current.name, "B");
    assert_eq!(st.changed_at_utc, anchor + 2 * 604_800);
}

#[test]
fn test_army_schedule_full_day() {
    // The seven-slot table has no adjacent repeats, so a 24-period window
    // keeps all 24 items, wrapping through the table three times.
    let t = Instant::from_utc(army::BASE_POINT_UTC).unwrap();
    let v = army::get_schedule(&t).unwrap();
    assert_eq!(v.len(), 24);
    assert_eq!(v[0].army.name, "紫炎の鉄機兵団");
    assert_eq!(v[1].army.name, "銀甲の凶蟲兵団");
    assert_eq!(v[7].army.name, "紫炎の鉄機兵団");
    assert_eq!(v[0].started_at_utc, army::BASE_POINT_UTC);
    assert_eq!(v[23].started_at_utc, army::BASE_POINT_UTC + 23 * 3600);
}

#[test]
fn test_schedule_in_small_window() {
    let t = Instant::from_utc(troop::get_base_point()).unwrap();
    let v = dq10tools::defence_force::schedule::get_schedule_in(&t, 5).unwrap();
    assert!(1 <= v.len() && v.len() <= 5);
    assert_eq!(v[0].troop.name, "鋼塊の重滅兵団");
}

#[test]
fn test_rainbow_render_empty_name() {
    let e = Entry::new("", Style::RainbowColored);
    assert_eq!(e.colorized_name(), "");
}

#[test]
fn test_granularity_days() {
    assert_eq!(Granularity::days(3).secs, 3 * 86_400);
    assert_eq!(Granularity::hour().secs, 3600);
    assert_eq!(Granularity::day().secs, 86_400);
    assert_eq!(Granularity::week().secs, 604_800);
}

#[test]
fn test_largest_window() {
    // The largest admissible window: an alternating two-slot table keeps
    // every scanned period as its own item.
    let anchor: i64 = 360_000;
    let s = Schedule {
        anchor_utc: anchor,
        granularity: Granularity::hour(),
        table: table(&["a", "b"]),
    };
    let t = Instant::from_utc(anchor).unwrap();
    let v = project(&s, &t, 1_000_000).unwrap();
    assert_eq!(v.len(), 1_000_000);
    assert_eq!(v[0].started_at_utc, anchor);
    assert_eq!(v[999_999].started_at_utc, anchor + 999_999 * 3600);
    assert_eq!(v[999_999].entry.name, "b");
}
