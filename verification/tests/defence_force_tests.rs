use chrono::{DateTime, Datelike, FixedOffset, TimeZone, Timelike, Utc};
use chrono_tz::Tz;
use dq10tools::defence_force::{schedule, state, troop};
use dq10tools::entry::{Entry, Style};
use dq10tools::instant::Instant;

fn jst() -> FixedOffset {
    FixedOffset::east_opt(9 * 3600).unwrap()
}

fn inst_fixed(dt: &DateTime<FixedOffset>) -> Instant {
    let off = dt.offset().local_minus_utc();
    Instant::new(dt.timestamp() + off as i64, off).unwrap()
}

fn inst_tz(dt: &DateTime<Tz>) -> Instant {
    let off = chrono::Offset::fix(dt.offset()).local_minus_utc();
    Instant::new(dt.timestamp() + off as i64, off).unwrap()
}

fn inst_utc(dt: &DateTime<Utc>) -> Instant {
    Instant::from_utc(dt.timestamp()).unwrap()
}

#[test]
fn test_eq() {
    let marine = troop::get_troop_by_period(24);
    let slime = troop::get_troop_by_period(15);
    let dragon = troop::get_troop_by_period(5);

    assert!(marine == marine);
    assert!(dragon == dragon);
    assert!(slime == slime);
    assert!(marine != slime);
    assert!(slime != dragon);
    assert!(dragon != marine);
}

#[test]
fn test_eq2() {
    let a = Entry::new("a", Style::PlainColored(1));
    let b = Entry::new("a", Style::PlainColored(2));
    let c = Entry::new("a", Style::PlainColored(3));

    // PartialEq
    assert!(a == b);
    assert!(b == c);
    assert!(c == a);
    assert!(b == a);

    // Eq
    assert!(a == a);
}

#[test]
fn test_get_state_is_none_before_basepoint() {
    let dt = jst().with_ymd_and_hms(2018, 9, 20, 15, 3, 15).single().unwrap();
    let st = state::get_state(&inst_fixed(&dt));
    assert!(st.is_none());
}

#[test]
fn test_get_schedule_none_before_basepoint() {
    let dt = jst().with_ymd_and_hms(2018, 9, 22, 23, 45, 10).single().unwrap();
    let sched = schedule::get_schedule(&inst_fixed(&dt));
    assert!(sched.is_none());
}

fn assert_first_time(t: Instant) {
    let sched = schedule::get_schedule(&t).unwrap();
    assert_eq!(sched.len(), 24);
    assert_eq!(sched[0].troop.name, "鋼塊の重滅兵団");
    assert_eq!(sched[1].troop.name, "金神の遺宝兵団");

    let started = DateTime::from_timestamp(sched[0].started_at_utc, 0).unwrap();
    let jst_time = started.with_timezone(&chrono_tz::Asia::Tokyo);
    assert_eq!(jst_time.year(), 2025);
    assert_eq!(jst_time.month(), 5);
    assert_eq!(jst_time.day(), 14);
    assert_eq!(jst_time.hour(), 6);
}

#[test]
fn test_get_schedule_east0900() {
    let dt = jst().with_ymd_and_hms(2025, 5, 14, 6, 0, 0).single().unwrap();
    assert_first_time(inst_fixed(&dt));
}

#[test]
fn test_get_schedule_jst() {
    let dt = chrono_tz::Asia::Tokyo.with_ymd_and_hms(2025, 5, 14, 6, 10, 34).single().unwrap();
    assert_first_time(inst_tz(&dt));
}

#[test]
fn test_get_schedule_utc() {
    let dt = Utc.with_ymd_and_hms(2025, 5, 13, 21, 10, 34).single().unwrap();
    assert_first_time(inst_utc(&dt));
}

#[test]
fn test_get_schedule_sst() {
    let dt = chrono_tz::Asia::Singapore.with_ymd_and_hms(2025, 5, 14, 5, 10, 34).single().unwrap();
    assert_first_time(inst_tz(&dt));
}

#[test]
fn text_get_schedule_by_epoch() {
    // 2025-05-18T15:15:34+09:00, where the slime troop hands over to the wood troop
    let epoch = 1747548934000;
    let sched = schedule::get_schedule_from_epoch_millis(epoch).unwrap();
    assert_eq!(sched[0].troop.name, "彩虹の粘塊兵団");
    assert_eq!(sched[1].troop.name, "腐緑の樹葬兵団");
}

#[test]
fn test_get_state_after_basepoint() {
    // 2025-05-14 07:04:00 JST: period 1, the gold troop, with the all-troops
    // slot due at 08:00 JST.
    let dt = jst().with_ymd_and_hms(2025, 5, 14, 7, 4, 0).single().unwrap();
    let st = state::get_state(&inst_fixed(&dt)).unwrap();
    assert_eq!(st.troop.name, "金神の遺宝兵団");
    assert_eq!(st.next_troop.name, "全兵団");
    assert_eq!(st.next_in, 56);
    assert_eq!(st.changed_at_utc, dt.timestamp() + 56 * 60);
}

#[test]
fn test_get_troop_by_period_wraps() {
    let first = troop::get_troop_by_period(0);
    let again = troop::get_troop_by_period(30);
    assert_eq!(first.name, again.name);
    assert_eq!(first.name, "鋼塊の重滅兵団");
}

#[test]
fn test_base_point_matches_calendar() {
    // The anchor constant is exactly 2025-05-14 06:00 JST.
    let dt = jst().with_ymd_and_hms(2025, 5, 14, 6, 0, 0).single().unwrap();
    assert_eq!(troop::get_base_point(), dt.timestamp());
}

#[test]
fn test_colorized_names() {
    let steel = troop::get_troop_by_period(0);
    assert_eq!(steel.colorized_name(), "\u{1b}[38;5;103m鋼塊の重滅兵団\u{1b}[0m");
    let beast = troop::get_troop_by_period(3);
    assert_eq!(beast.colorized_name(), "\u{1b}[31m闇朱の獣牙兵団\u{1b}[0m");
    let slime = troop::get_troop_by_period(15);
    let expected = "\u{1b}[37m彩\u{1b}[0m\u{1b}[31m虹\u{1b}[0m\u{1b}[32mの\u{1b}[0m\u{1b}[33m粘\u{1b}[0m\u{1b}[34m塊\u{1b}[0m\u{1b}[35m兵\u{1b}[0m\u{1b}[36m団\u{1b}[0m";
    assert_eq!(slime.colorized_name(), expected);
}
