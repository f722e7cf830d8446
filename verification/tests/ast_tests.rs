use chrono::{Datelike, FixedOffset, TimeZone, Timelike, Utc};
use dq10tools::ast;

fn jst() -> FixedOffset {
    FixedOffset::east_opt(9 * 3600).unwrap()
}

#[test]
fn test_from_datetime_jst1() {
    let dt = jst().with_ymd_and_hms(2018, 5, 31, 7, 3, 15).single().unwrap();
    let a = ast::from_timestamp(dt.timestamp()).unwrap();
    assert_eq!(a.time().hour(), 21);
    assert_eq!(a.time().minute(), 5);
}

#[test]
fn test_from_datetime_jst2() {
    let dt = jst().with_ymd_and_hms(2018, 6, 1, 0, 0, 0).single().unwrap();
    let a = ast::from_timestamp(dt.timestamp()).unwrap();
    assert_eq!(a.time().hour(), 0);
    assert_eq!(a.time().minute(), 0);
}

#[test]
fn test_from_datetime_jst3() {
    let dt = jst().with_ymd_and_hms(2018, 6, 13, 10, 22, 30).single().unwrap();
    let a = ast::from_timestamp(dt.timestamp()).unwrap();
    assert_eq!(a.time().hour(), 15);
    assert_eq!(a.time().minute(), 30);
}

#[test]
fn test_from_datetime_jst4() {
    let dt = jst().with_ymd_and_hms(2018, 6, 1, 7, 3, 15).single().unwrap();
    let a = ast::from_timestamp(dt.timestamp()).unwrap();
    assert_eq!(a.time().hour(), 21);
    assert_eq!(a.time().minute(), 5);
}

#[test]
fn test_from_datetime_jst5() {
    let dt = chrono_tz::Asia::Tokyo.with_ymd_and_hms(2018, 6, 1, 0, 0, 0).single().unwrap();
    let a = ast::from_timestamp(dt.timestamp()).unwrap();
    assert_eq!(a.time().hour(), 0);
    assert_eq!(a.time().minute(), 0);
}

#[test]
fn test_from_datetime_sst1() {
    let dt = chrono_tz::Asia::Singapore.with_ymd_and_hms(2018, 5, 30, 23, 0, 0).single().unwrap();
    let a = ast::from_timestamp(dt.timestamp()).unwrap();
    assert_eq!(a.time().hour(), 0);
    assert_eq!(a.time().minute(), 0);
}

#[test]
fn test_from_datetime_utc1() {
    let dt = Utc.with_ymd_and_hms(2018, 6, 13, 1, 22, 30).single().unwrap();
    let a = ast::from_timestamp(dt.timestamp()).unwrap();
    assert_eq!(a.time().hour(), 15);
    assert_eq!(a.time().minute(), 30);
}

#[test]
fn test_calc_minutes_to_next0() {
    let s = ast::AST::from_hms_milli(6, 0, 1, 0).unwrap();
    assert_eq!(s.state().change().name(), "夜");
    assert_eq!(s.state_change_in(), 36);
}

#[test]
fn test_calc_minutes_to_next1() {
    let s = ast::AST::from_hms_milli(12, 45, 30, 0).unwrap();
    assert_eq!(s.state().change().name(), "夜");
    assert_eq!(s.state_change_in(), 16);
}

#[test]
fn test_calc_minutes_to_next2() {
    let s = ast::AST::from_hms_milli(5, 45, 30, 1).unwrap();
    assert_eq!(s.state().change().name(), "朝");
    assert_eq!(s.state_change_in(), 1);
}

#[test]
fn test_calc_minutes_to_next3() {
    let s = ast::AST::from_hms_milli(23, 45, 30, 1).unwrap();
    assert_eq!(s.state().change().name(), "朝");
    assert_eq!(s.state_change_in(), 19);
}

#[test]
fn test_calc_minutes_to_next4() {
    let s = ast::AST::from_hms_milli(0, 0, 0, 0).unwrap();
    assert_eq!(s.state().change().name(), "朝");
    assert_eq!(s.state_change_in(), 18);
}

#[test]
fn test_calc_minutes_to_next5() {
    let s = ast::AST::from_hms_milli(6, 0, 0, 0).unwrap();
    assert_eq!(s.state().change().name(), "夜");
    assert_eq!(s.state_change_in(), 36);
}

#[test]
fn test_calc_minutes_to_next6() {
    let s = ast::AST::from_hms_milli(18, 0, 0, 0).unwrap();
    assert_eq!(s.state().change().name(), "朝");
    assert_eq!(s.state_change_in(), 36);
}

#[test]
fn test_from_timestamp() {
    let epoch: i64 = 1656735654; // 2022-07-02 13:20:54 JST
    let a = ast::from_timestamp(epoch).unwrap();
    assert_eq!(a.time().hour(), 2);
    assert_eq!(a.time().minute(), 58);
}

#[test]
fn test_same_from_timestamp_and_utc_now() {
    let utc = Utc::now();
    let utc = Utc
        .with_ymd_and_hms(utc.year(), utc.month(), utc.day(), utc.hour(), utc.minute(), utc.second())
        .single()
        .unwrap();
    let epoch = utc.timestamp();
    let ast1 = ast::from_timestamp(epoch).unwrap();
    let ast2 = ast::from_timestamp_millis(utc.timestamp_millis()).unwrap();
    assert_eq!(ast1, ast2)
}

#[test]
fn test_same_from_timestamp_and_local_now() {
    let l = chrono::Local::now();
    let l = chrono::Local
        .with_ymd_and_hms(l.year(), l.month(), l.day(), l.hour(), l.minute(), l.second())
        .single()
        .unwrap();
    let e = l.timestamp();
    let ast1 = ast::from_timestamp(e).unwrap();
    let ast2 = ast::from_timestamp_millis(l.timestamp_millis()).unwrap();
    assert_eq!(ast1, ast2)
}

#[test]
fn test_same_utc_now_and_local_now() {
    // One absolute instant, read once in the local zone and once in UTC,
    // maps to one in-game reading.
    let l = chrono::Local::now();
    let u = l.with_timezone(&Utc);
    let ast1 = ast::from_timestamp(l.timestamp()).unwrap();
    let ast2 = ast::from_timestamp(u.timestamp()).unwrap();
    assert_eq!(ast1, ast2)
}

#[test]
fn test_same_from_timestamp_and_timestamp_millis() {
    let ast1 = ast::from_timestamp_millis(1678671352000).unwrap();
    let ast2 = ast::from_timestamp(1678671352).unwrap();
    assert_eq!(ast1, ast2)
}

#[test]
fn test_convert() {
    // 07:03:15 on the wall clock runs to 21:05:00 on the in-game clock.
    let t = dq10tools::ast::ClockTime { hour: 7, minute: 3, second: 15 };
    let a = ast::clock::convert(t);
    assert_eq!(a.hour(), 21);
    assert_eq!(a.minute(), 5);
    assert_eq!(a.second(), 0);
}

#[test]
fn test_clock_calc_minutes_to_next() {
    let t = dq10tools::ast::ClockTime { hour: 12, minute: 45, second: 30 };
    let n = ast::clock::calc_minutes_to_next(t);
    assert_eq!(n.state, '夜');
    assert_eq!(n.after_minutes, 15);
}

#[test]
fn test_from_hms_milli_rejects_invalid() {
    assert!(ast::AST::from_hms_milli(24, 0, 0, 0).is_none());
    assert!(ast::AST::from_hms_milli(0, 60, 0, 0).is_none());
    assert!(ast::AST::from_hms_milli(0, 0, 60, 0).is_none());
    assert!(ast::AST::from_hms_milli(0, 0, 0, 1000).is_none());
}

#[test]
fn test_from_timestamp_pre_epoch() {
    // 1969-12-31 23:00:00 UTC is 08:00 JST on the epoch day: the in-game
    // clock reads 20 times 8 hours past midnight, wrapped.
    let a = ast::from_timestamp(-3600).unwrap();
    assert_eq!(a.time().hour(), 16);
    assert_eq!(a.time().minute(), 0);
}
