use chrono::{Datelike, Timelike, Utc};
use mirai::announcement::{
    academy_day, announcement_time, get_random_in_str_array, morning_footer,
    setup_monokuma_announcement, ACADEMY_OPENING, EVENING_HOUR, LAST_SECOND, MORNING_HOUR,
};
use mirai::cascade::{Stage, NANOS_PER_DAY};
use mirai::clock::{leap_year, month_length, LocalInstant, UTC_OFFSET};
use mirai::log::{
    compose, french_time_of, push_decimal, Level, MiraiLog, MiraiLogger, FRENCH_TIME_FORMAT,
};
use mirai::member::on_new_member;
use mirai::target::TargetMoment;

fn now_reading() -> LocalInstant {
    let t = Utc::now();
    LocalInstant::new(t.year(), t.month(), t.day(), t.hour(), t.minute(), t.second()).unwrap()
}

fn fields(t: &TargetMoment) -> (u32, u32, u32, i32) {
    (t.hour(), t.minute(), t.day(), t.year())
}

#[test]
fn test_get_random_in_array() {
    let imgs: [&str; 3] = ["a", "b", "c"];
    println!("{}", get_random_in_str_array(Box::new(imgs)));
}

#[test]
fn a_random_pick_is_one_of_the_strings() {
    for _ in 0..200 {
        let picked = get_random_in_str_array(Box::new(["un", "deux", "trois"]));
        assert!(picked == "un" || picked == "deux" || picked == "trois");
    }
    assert_eq!(get_random_in_str_array(Box::new(["seul"])), "seul");
}

#[test]
fn test_monokuma_morning_timestamp() {
    let morning_timestamp = now_reading();
    let m_timestamp = announcement_time(&morning_timestamp, 7).unwrap();
    println!("{:?}", m_timestamp);
    assert_eq!(m_timestamp.hour(), 7);
    assert_eq!(m_timestamp.minute(), 0);
}

#[test]
fn test_locale_timestamp() {
    let time = now_reading();
    println!("{}", french_time_of(&time));
}

#[test]
fn test_local_timestamp() {
    let now = now_reading();
    println!("{:?}", now);
    println!("{}", french_time_of(&now));
    println!("HOUR:{}", now.hour());
}

#[test]
fn test_date_format() {
    let date = Utc::now();
    let formatted_date = date.format(FRENCH_TIME_FORMAT).to_string();
    let reading =
        LocalInstant::new(date.year(), date.month(), date.day(), date.hour(), date.minute(), date.second())
            .unwrap();
    let formatted_reading = french_time_of(&reading);
    println!("{}", date);
    println!("{}", date.date_naive());
    println!("{}", date.time());
    println!();
    println!("{}", formatted_date);
    println!("{}", formatted_reading);
    assert_eq!(formatted_date, formatted_reading);
}

#[test]
fn an_instant_is_written_day_first_with_zeros() {
    let at = LocalInstant::new(2024, 3, 9, 7, 0, 5).unwrap();
    assert_eq!(french_time_of(&at), "09/03/2024 à 07h00m05s");
    let early = LocalInstant::new(1, 1, 1, 0, 0, 0).unwrap();
    assert_eq!(french_time_of(&early), "01/01/0001 à 00h00m00s");
    let late = LocalInstant::new(9999, 12, 31, 23, 59, 59).unwrap();
    assert_eq!(french_time_of(&late), "31/12/9999 à 23h59m59s");
    let mid = LocalInstant::new(987, 10, 20, 13, 45, 30).unwrap();
    assert_eq!(french_time_of(&mid), "20/10/0987 à 13h45m30s");
}

#[test]
fn a_line_holds_instant_level_and_message() {
    let at = LocalInstant::new(2024, 3, 9, 7, 0, 5).unwrap();
    assert_eq!(compose(&at, Level::Info, "prêt"), "09/03/2024 à 07h00m05s INFO - prêt");
    assert_eq!(
        MiraiLogger::info(&at, "Found year interval".to_string()),
        "09/03/2024 à 07h00m05s INFO - Found year interval"
    );
    assert_eq!(MiraiLogger::error(&at, "x".to_string()), "09/03/2024 à 07h00m05s ERROR - x");
    assert_eq!(MiraiLogger::warn(&at, "y".to_string()), "09/03/2024 à 07h00m05s WARN - y");
    assert_eq!(MiraiLogger::debug(&at, String::new()), "09/03/2024 à 07h00m05s DEBUG - ");
    assert!(Level::Error.is_grave());
    assert!(Level::Warn.is_grave());
    assert!(!Level::Info.is_grave());
    assert!(!Level::Debug.is_grave());
}

#[test]
fn an_announcement_is_due_today_before_its_hour_and_tomorrow_from_it_on() {
    // 04:59 on the clock is 06:59 on the wall: 7 o'clock is still to come.
    let before = LocalInstant::new(2024, 5, 17, 4, 59, 59).unwrap();
    assert_eq!(fields(&announcement_time(&before, 7).unwrap()), (7, 0, 17, 2024));
    // 05:00 on the clock is 07:00 on the wall: the next one is tomorrow's.
    let at = LocalInstant::new(2024, 5, 17, 5, 0, 0).unwrap();
    assert_eq!(fields(&announcement_time(&at, 7).unwrap()), (7, 0, 18, 2024));
    assert_eq!(fields(&announcement_time(&at, 22).unwrap()), (22, 0, 17, 2024));
    assert_eq!(fields(&announcement_time(&at, 0).unwrap()), (0, 0, 18, 2024));
    assert_eq!(fields(&announcement_time(&at, 23).unwrap()), (23, 0, 17, 2024));
    assert!(announcement_time(&at, 24).is_none());
    assert_eq!(UTC_OFFSET, 2);
}

#[test]
fn tomorrow_rolls_over_months_and_years() {
    let late = |y, m, d| LocalInstant::new(y, m, d, 23, 0, 0).unwrap();
    assert_eq!(fields(&announcement_time(&late(2024, 1, 31), 7).unwrap()), (7, 0, 1, 2024));
    assert_eq!(fields(&announcement_time(&late(2024, 2, 28), 7).unwrap()), (7, 0, 29, 2024));
    assert_eq!(fields(&announcement_time(&late(2024, 2, 29), 7).unwrap()), (7, 0, 1, 2024));
    assert_eq!(fields(&announcement_time(&late(2023, 2, 28), 7).unwrap()), (7, 0, 1, 2023));
    assert_eq!(fields(&announcement_time(&late(1900, 2, 28), 7).unwrap()), (7, 0, 1, 1900));
    assert_eq!(fields(&announcement_time(&late(2000, 2, 28), 7).unwrap()), (7, 0, 29, 2000));
    assert_eq!(fields(&announcement_time(&late(2024, 4, 30), 7).unwrap()), (7, 0, 1, 2024));
    assert_eq!(fields(&announcement_time(&late(2024, 12, 31), 7).unwrap()), (7, 0, 1, 2025));
    assert_eq!(fields(&announcement_time(&late(9999, 12, 31), 7).unwrap()), (7, 0, 1, 10000));
    assert_eq!(fields(&announcement_time(&late(2024, 6, 15), 7).unwrap()), (7, 0, 16, 2024));
}

#[test]
fn both_announcements_recur_daily_without_deadline() {
    let now = LocalInstant::new(2024, 5, 17, 10, 0, 0).unwrap();
    let (morning, evening) = setup_monokuma_announcement(&now);
    assert_eq!(fields(&morning.target), (MORNING_HOUR, 0, 18, 2024));
    assert_eq!(fields(&evening.target), (EVENING_HOUR, 0, 17, 2024));
    assert_eq!(morning.period, Some(NANOS_PER_DAY));
    assert_eq!(evening.period, Some(60 * 60 * 24 * 1_000_000_000));
    assert_eq!(morning.time_limit, None);
    assert_eq!(evening.time_limit, None);
    assert_eq!(morning.target.wanted(Stage::Hour), 7);
    assert_eq!(morning.target.wanted(Stage::Calibration), 0);
    assert_eq!(evening.target.wanted(Stage::Minute), 0);
    assert_eq!(evening.target.wanted(Stage::Day), 17);
    assert_eq!(evening.target.wanted(Stage::Year), 2024);
}

#[test]
fn the_academy_counts_whole_days_since_its_opening() {
    assert_eq!(ACADEMY_OPENING, 1_460_282_400);
    assert_eq!(academy_day(ACADEMY_OPENING), Some(0));
    assert_eq!(academy_day(ACADEMY_OPENING + 86_399), Some(0));
    assert_eq!(academy_day(ACADEMY_OPENING + 86_400), Some(1));
    // 17 May 2024, 05:00:00 UTC.
    assert_eq!(academy_day(1_715_922_000), Some(2958));
    // Before the opening the days count backwards from it.
    assert_eq!(academy_day(ACADEMY_OPENING - 86_400), Some(1));
    assert_eq!(academy_day(0), Some(16_901));
    assert_eq!(academy_day(LAST_SECOND), Some(((LAST_SECOND - ACADEMY_OPENING) / 86_400) as u64));
    assert_eq!(academy_day(-1), None);
    assert_eq!(academy_day(LAST_SECOND + 1), None);
}

#[test]
fn a_reading_is_built_only_from_an_instant_of_the_calendar() {
    assert!(LocalInstant::new(2024, 2, 29, 0, 0, 0).is_some());
    assert!(LocalInstant::new(2023, 2, 29, 0, 0, 0).is_none());
    assert!(LocalInstant::new(2024, 4, 31, 0, 0, 0).is_none());
    assert!(LocalInstant::new(2024, 13, 1, 0, 0, 0).is_none());
    assert!(LocalInstant::new(2024, 0, 1, 0, 0, 0).is_none());
    assert!(LocalInstant::new(2024, 1, 0, 0, 0, 0).is_none());
    assert!(LocalInstant::new(2024, 1, 1, 24, 0, 0).is_none());
    assert!(LocalInstant::new(2024, 1, 1, 0, 60, 0).is_none());
    assert!(LocalInstant::new(2024, 1, 1, 0, 0, 60).is_none());
    assert!(LocalInstant::new(0, 1, 1, 0, 0, 0).is_none());
    assert!(LocalInstant::new(10_000, 1, 1, 0, 0, 0).is_none());
    let r = LocalInstant::new(2024, 12, 31, 23, 59, 59).unwrap();
    assert_eq!((r.year(), r.month(), r.day(), r.hour(), r.minute(), r.second()), (2024, 12, 31, 23, 59, 59));
    assert!(leap_year(2024) && leap_year(2000) && !leap_year(1900) && !leap_year(2023));
    assert_eq!(month_length(2024, 2), 29);
    assert_eq!(month_length(2023, 2), 28);
    assert_eq!(month_length(2023, 4), 30);
    assert_eq!(month_length(2023, 12), 31);
}

#[test]
fn a_target_is_built_only_from_fields_in_range() {
    assert!(TargetMoment::new(23, 59, 31, -5).is_some());
    assert!(TargetMoment::new(0, 0, 1, i32::MAX).is_some());
    assert!(TargetMoment::new(24, 0, 1, 2024).is_none());
    assert!(TargetMoment::new(0, 60, 1, 2024).is_none());
    assert!(TargetMoment::new(0, 0, 0, 2024).is_none());
    assert!(TargetMoment::new(0, 0, 32, 2024).is_none());
}

#[test]
fn the_morning_footer_names_the_day() {
    assert_eq!(morning_footer(2958), "Ainsi débute le jour 2958 à l'Académie du Pic de l'Espoir");
    assert_eq!(morning_footer(0), "Ainsi débute le jour 0 à l'Académie du Pic de l'Espoir");
    let day = academy_day(1_715_922_000).unwrap();
    assert_eq!(morning_footer(day), format!("Ainsi débute le jour {} à l'Académie du Pic de l'Espoir", 2958));
}

#[test]
fn numbers_are_written_in_decimal_without_padding() {
    for n in [0u64, 7, 9, 10, 11, 99, 100, 101, 1_000, 65_535, 1_234_567_890, u64::MAX] {
        let mut text = String::from("n=");
        push_decimal(&mut text, n);
        assert_eq!(text, format!("n={}", n));
    }
}

#[test]
fn a_welcome_bears_the_member_and_the_day() {
    let joined = LocalInstant::new(2024, 3, 9, 18, 5, 0).unwrap();
    let w = on_new_member("Hajime", "https://cdn.example/avatar.png", Some(joined));
    assert_eq!(w.title, "Bienvenue");
    assert_eq!(w.description, "*Viendrais-tu par hasard chercher ton bonheur avec Danganronpa 2 ?*");
    assert_eq!(w.author, "Hajime");
    assert_eq!(w.avatar.as_deref(), Some("https://cdn.example/avatar.png"));
    assert_eq!(
        w.footer.as_deref(),
        Some("Hajime nous rejoint en cette date mémorable du 09/03/2024 à 18h05m00s")
    );
    let bare = on_new_member("Nagito", "", None);
    assert_eq!(bare.author, "Nagito");
    assert_eq!(bare.avatar, None);
    assert_eq!(bare.footer, None);
    let half = on_new_member("", "", Some(joined));
    assert_eq!(half.avatar, None);
    assert_eq!(half.footer.as_deref(), Some(" nous rejoint en cette date mémorable du 09/03/2024 à 18h05m00s"));
}
