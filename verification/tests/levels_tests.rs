use chrono::{DateTime, FixedOffset, TimeZone, Utc};
use chrono_tz::Tz;
use dq10tools::instant::Instant;
use dq10tools::{eternal_darkness, saint_guardians, sinners};

fn jst() -> FixedOffset {
    FixedOffset::east_opt(9 * 3600).unwrap()
}

fn inst_fixed(dt: &DateTime<FixedOffset>) -> Instant {
    let off = dt.offset().local_minus_utc();
    Instant::new(dt.timestamp() + off as i64, off).unwrap()
}

fn inst_tz(dt: &DateTime<Tz>) -> Instant {
    let off = chrono::Offset::fix(dt.offset()).local_minus_utc();
    Instant::new(dt.timestamp() + off as i64, off).unwrap()
}

fn inst_utc(dt: &DateTime<Utc>) -> Instant {
    Instant::from_utc(dt.timestamp()).unwrap()
}

fn fmt_term(t: &Instant) -> String {
    let offset = FixedOffset::east_opt(t.offset_secs).unwrap();
    let utc_secs = t.local_secs - t.offset_secs as i64;
    let dt = DateTime::from_timestamp(utc_secs, 0).unwrap().with_timezone(&offset);
    dt.format("%Y-%m-%dT%H:%M:%S%:z").to_string()
}

#[test]
fn test_get_enemy_level() {
    let dt = jst().with_ymd_and_hms(2019, 7, 7, 0, 40, 0).single().unwrap();
    let e = eternal_darkness::get_levels(&inst_fixed(&dt)).unwrap();
    assert_eq!(e[0].name, "レグナード");
    assert_eq!(e[0].level, 2);
    assert_eq!(e[1].name, "ダークキング");
    assert_eq!(e[1].level, 4);
    assert_eq!(e[2].name, "メイヴ");
    assert_eq!(e[2].level, 3);
}

#[test]
fn test_eternal_darkness_none_before_basepoint() {
    let dt = jst().with_ymd_and_hms(2016, 7, 6, 5, 59, 59).single().unwrap();
    assert!(eternal_darkness::get_levels(&inst_fixed(&dt)).is_none());
}

#[test]
fn test_get_level() {
    let e = {
        let dt = jst().with_ymd_and_hms(2019, 7, 5, 12, 0, 0).single().unwrap();
        saint_guardians::get_levels(&inst_fixed(&dt)).unwrap()
    };
    assert_eq!(e[0].name, "レギルラッゾたち");
    assert_eq!(e[0].level, 1);
    assert_eq!(e[1].name, "スコルパイド");
    assert_eq!(e[1].level, 3);
    assert_eq!(e[4].name, "デルメゼ");
    assert_eq!(e[4].level, 3);
    assert_eq!(e[2].name, "ジェルザーク");
    assert_eq!(e[2].level, 2);
    assert_eq!(e[3].name, "ガルドドン");
    assert_eq!(e[3].level, 2);

    let e = {
        let dt = jst().with_ymd_and_hms(2020, 11, 18, 6, 0, 0).single().unwrap();
        saint_guardians::get_levels(&inst_fixed(&dt)).unwrap()
    };
    assert_eq!(e[0].level, 2);
    assert_eq!(e[1].level, 1);
    assert_eq!(e[4].level, 1);
    assert_eq!(e[2].level, 3);
    assert_eq!(e[3].level, 3);
}

#[test]
fn test_saint_guardians_none_before_basepoint() {
    let dt = jst().with_ymd_and_hms(2018, 4, 20, 5, 59, 59).single().unwrap();
    assert!(saint_guardians::get_levels(&inst_fixed(&dt)).is_none());
}

#[test]
fn test_get_levels() {
    let opt = sinners::get_levels(&inst_fixed(
        &jst().with_ymd_and_hms(2022, 5, 11, 12, 0, 0).single().unwrap(),
    ));
    assert!(opt.is_some());
    let data = opt.unwrap();
    assert_eq!(data.levels[0].name, "厭悪のルベランギス");
    assert_eq!(data.levels[0].level, 1);
    assert_eq!(fmt_term(&data.term_from), "2022-05-11T06:00:00+09:00");
    assert_eq!(fmt_term(&data.term_to), "2022-05-12T05:59:59+09:00");

    let opt = sinners::get_levels(&inst_fixed(
        &jst().with_ymd_and_hms(2022, 5, 13, 5, 0, 0).single().unwrap(),
    ));
    assert!(opt.is_some());
    let data = opt.unwrap();
    assert_eq!(data.levels[0].level, 2);
    assert_eq!(fmt_term(&data.term_from), "2022-05-12T06:00:00+09:00");
    assert_eq!(fmt_term(&data.term_to), "2022-05-13T05:59:59+09:00");

    let opt = sinners::get_levels(&inst_tz(
        &chrono_tz::Asia::Tokyo.with_ymd_and_hms(2022, 5, 13, 5, 0, 0).single().unwrap(),
    ));
    assert!(opt.is_some());
    let data = opt.unwrap();
    assert_eq!(data.levels[0].level, 2);
    assert_eq!(fmt_term(&data.term_from), "2022-05-12T06:00:00+09:00");
    assert_eq!(fmt_term(&data.term_to), "2022-05-13T05:59:59+09:00");
}

#[test]
fn test_get_levels_utc() {
    // 2022-05-11 12:00:00 UTC is 21:00:00 JST the same day.
    let opt = sinners::get_levels(&inst_utc(
        &Utc.with_ymd_and_hms(2022, 5, 11, 12, 0, 0).single().unwrap(),
    ));
    assert!(opt.is_some());
    let data = opt.unwrap();
    assert_eq!(data.levels[0].level, 1);
    assert_eq!(fmt_term(&data.term_from), "2022-05-10T21:00:00+00:00");
    assert_eq!(fmt_term(&data.term_to), "2022-05-11T20:59:59+00:00");

    // 2022-05-13 05:00:00 UTC is 14:00:00 JST the same day.
    let opt = sinners::get_levels(&inst_utc(
        &Utc.with_ymd_and_hms(2022, 5, 13, 5, 0, 0).single().unwrap(),
    ));
    assert!(opt.is_some());
    let data = opt.unwrap();
    assert_eq!(data.levels[0].level, 1);
    assert_eq!(fmt_term(&data.term_from), "2022-05-12T21:00:00+00:00");
    assert_eq!(fmt_term(&data.term_to), "2022-05-13T20:59:59+00:00");
}

#[test]
fn test_sinners_none_before_basepoint() {
    let dt = jst().with_ymd_and_hms(2022, 5, 11, 5, 59, 59).single().unwrap();
    assert!(sinners::get_levels(&inst_fixed(&dt)).is_none());
}

#[test]
fn test_sinners_all_levels_and_phase() {
    let data = sinners::get_levels(&inst_fixed(
        &jst().with_ymd_and_hms(2022, 5, 12, 12, 0, 0).single().unwrap(),
    ))
    .unwrap();
    assert_eq!(data.levels.len(), 4);
    assert_eq!(data.levels[0].level, 2);
    assert_eq!(data.levels[1].name, "絶念のアウルモッド");
    assert_eq!(data.levels[1].level, 1);
    assert_eq!(data.levels[2].name, "狂禍のフラウソン");
    assert_eq!(data.levels[2].level, 2);
    assert_eq!(data.levels[3].name, "悲愴のウィリーデ");
    assert_eq!(data.levels[3].level, 1);
}
