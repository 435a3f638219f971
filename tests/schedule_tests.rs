use chrono::{DateTime, Datelike, NaiveDate, Timelike};
use trmnl::clock::{MAX_INSTANT, MIN_INSTANT};
use trmnl::schedule::{
    parse_time, refresh_rate_or_fallback, weekday_from_str, DaySelector, RefreshSchedule,
    ScheduleRule, TimeOfDay, Weekday,
};

fn rule(days: DaySelector, start: &str, end: &str, rate: u32) -> ScheduleRule {
    ScheduleRule {
        days,
        start: start.to_string(),
        end: end.to_string(),
        refresh_rate: rate,
    }
}

fn time(h: u32, m: u32) -> TimeOfDay {
    TimeOfDay::new(h, m).unwrap()
}

// 2024-01-01 was a Monday.
const MONDAY_MIDNIGHT_UTC: i64 = 1_704_067_200;

#[test]
fn test_parse_time() {
    assert_eq!(parse_time("09:00"), TimeOfDay::new(9, 0));
    assert_eq!(parse_time("23:30"), TimeOfDay::new(23, 30));
    assert_eq!(parse_time("invalid"), None);
    assert_eq!(parse_time("12"), None);
}

#[test]
fn parse_time_rejects_out_of_range_and_extra_parts() {
    assert_eq!(parse_time("24:00"), None);
    assert_eq!(parse_time("12:60"), None);
    assert_eq!(parse_time("1:2:3"), None);
    assert_eq!(parse_time(":30"), None);
    assert_eq!(parse_time("7:5"), TimeOfDay::new(7, 5));
    assert_eq!(parse_time("+7:05"), TimeOfDay::new(7, 5));
    assert_eq!(parse_time("-1:00"), None);
    assert_eq!(TimeOfDay::new(24, 0), None);
}

#[test]
fn test_weekday_from_str() {
    assert_eq!(weekday_from_str("mon"), Some(Weekday::Mon));
    assert_eq!(weekday_from_str("Monday"), Some(Weekday::Mon));
    assert_eq!(weekday_from_str("MON"), Some(Weekday::Mon));
    assert_eq!(weekday_from_str("sat"), Some(Weekday::Sat));
    assert_eq!(weekday_from_str("invalid"), None);
}

#[test]
fn weekday_names_cover_the_week() {
    assert_eq!(weekday_from_str("Tuesday"), Some(Weekday::Tue));
    assert_eq!(weekday_from_str("wednesday"), Some(Weekday::Wed));
    assert_eq!(weekday_from_str("THU"), Some(Weekday::Thu));
    assert_eq!(weekday_from_str("fri"), Some(Weekday::Fri));
    assert_eq!(weekday_from_str("Sunday"), Some(Weekday::Sun));
    assert_eq!(Weekday::from_monday_index(6), Weekday::Sun);
}

#[test]
fn test_schedule_rule_day_match_named() {
    let rule = rule(DaySelector::Named("weekdays".to_string()), "09:00", "17:00", 60);
    assert!(rule.day_matches(Weekday::Mon));
    assert!(rule.day_matches(Weekday::Fri));
    assert!(!rule.day_matches(Weekday::Sat));
    assert!(!rule.day_matches(Weekday::Sun));
}

#[test]
fn named_groups_and_single_days() {
    let weekends = rule(DaySelector::Named("Weekends".to_string()), "09:00", "17:00", 60);
    assert!(weekends.day_matches(Weekday::Sun));
    assert!(!weekends.day_matches(Weekday::Wed));
    let tuesday = rule(DaySelector::Named("TUE".to_string()), "09:00", "17:00", 60);
    assert!(tuesday.day_matches(Weekday::Tue));
    assert!(!tuesday.day_matches(Weekday::Mon));
    let unknown = rule(DaySelector::Named("someday".to_string()), "00:00", "23:59", 60);
    assert!(!unknown.day_matches(Weekday::Mon));
}

#[test]
fn test_schedule_rule_day_match_list() {
    let rule = rule(
        DaySelector::List(vec!["mon".to_string(), "wed".to_string(), "fri".to_string()]),
        "09:00",
        "17:00",
        60,
    );
    assert!(rule.day_matches(Weekday::Mon));
    assert!(rule.day_matches(Weekday::Wed));
    assert!(rule.day_matches(Weekday::Fri));
    assert!(!rule.day_matches(Weekday::Tue));
    assert!(!rule.day_matches(Weekday::Sat));
}

#[test]
fn test_schedule_rule_time_match() {
    let rule = rule(DaySelector::Named("all".to_string()), "09:00", "17:00", 60);
    assert!(rule.matches(Weekday::Mon, time(10, 0)));
    assert!(!rule.matches(Weekday::Mon, time(8, 0)));
    assert!(!rule.matches(Weekday::Mon, time(18, 0)));
    assert!(!rule.matches(Weekday::Mon, time(17, 0))); // End is exclusive
}

#[test]
fn window_start_inclusive_end_exclusive() {
    let rule = rule(DaySelector::Named("all".to_string()), "09:00", "17:00", 60);
    assert!(rule.matches(Weekday::Thu, time(9, 0)));
    assert!(rule.matches(Weekday::Thu, time(16, 59)));
    assert!(!rule.matches(Weekday::Thu, time(8, 59)));
    let empty = rule_with_same_ends();
    assert!(!empty.matches(Weekday::Thu, time(9, 0)));
}

fn rule_with_same_ends() -> ScheduleRule {
    rule(DaySelector::Named("all".to_string()), "09:00", "09:00", 60)
}

#[test]
fn test_overnight_rule() {
    let rule = rule(DaySelector::Named("all".to_string()), "23:00", "06:00", 1800);
    assert!(rule.matches(Weekday::Mon, time(0, 0)));
    assert!(rule.matches(Weekday::Mon, time(3, 0)));
    assert!(rule.matches(Weekday::Mon, time(23, 30)));
    assert!(!rule.matches(Weekday::Mon, time(12, 0)));
}

#[test]
fn overnight_window_edges() {
    let rule = rule(DaySelector::Named("all".to_string()), "23:00", "06:00", 1800);
    assert!(rule.matches(Weekday::Sun, time(23, 0)));
    assert!(rule.matches(Weekday::Sun, time(5, 59)));
    assert!(!rule.matches(Weekday::Sun, time(6, 0)));
    assert!(!rule.matches(Weekday::Sun, time(22, 59)));
}

#[test]
fn unparseable_times_never_match() {
    let rule = rule(DaySelector::Named("all".to_string()), "9am", "17:00", 60);
    assert!(!rule.matches(Weekday::Mon, time(10, 0)));
}

fn example_schedule(zone: &str) -> RefreshSchedule {
    RefreshSchedule {
        timezone: zone.to_string(),
        default_refresh_rate: 300,
        schedule: vec![
            rule(DaySelector::Named("weekdays".to_string()), "09:00", "17:00", 60),
            rule(DaySelector::Named("all".to_string()), "23:00", "06:00", 1800),
        ],
    }
}

#[test]
fn test_empty_schedule_returns_default() {
    let schedule = RefreshSchedule {
        timezone: "UTC".to_string(),
        default_refresh_rate: 300,
        schedule: vec![],
    };
    assert_eq!(schedule.get_refresh_rate(), 300);
}

#[test]
fn empty_schedule_gives_default_at_any_time() {
    let schedule = RefreshSchedule {
        timezone: "Europe/Paris".to_string(),
        default_refresh_rate: 42,
        schedule: vec![],
    };
    for h in 0..24 {
        assert_eq!(schedule.get_refresh_rate_for_time(Weekday::Wed, time(h, 15)), 42);
        assert_eq!(schedule.get_refresh_rate_at(MONDAY_MIDNIGHT_UTC + (h as i64) * 3600), 42);
    }
}

#[test]
fn scenario_weekday_work_hours_and_night() {
    let schedule = example_schedule("UTC");
    // Monday 10:00 UTC
    assert_eq!(schedule.get_refresh_rate_at(MONDAY_MIDNIGHT_UTC + 10 * 3600), 60);
    // Saturday 10:00 UTC
    assert_eq!(schedule.get_refresh_rate_at(MONDAY_MIDNIGHT_UTC + 5 * 86400 + 10 * 3600), 300);
    // 23:30 UTC on every day of the week
    for d in 0..7 {
        let at = MONDAY_MIDNIGHT_UTC + d * 86400 + 23 * 3600 + 30 * 60;
        assert_eq!(schedule.get_refresh_rate_at(at), 1800);
    }
}

#[test]
fn instants_are_read_in_the_schedule_zone() {
    // Monday 15:00 UTC is 10:00 in New York (EST, UTC-5).
    let ny = example_schedule("America/New_York");
    assert_eq!(ny.get_refresh_rate_at(MONDAY_MIDNIGHT_UTC + 15 * 3600), 60);
    // Monday 03:00 UTC is Sunday 22:00 in New York: no rule applies.
    assert_eq!(ny.get_refresh_rate_at(MONDAY_MIDNIGHT_UTC + 3 * 3600), 300);
    // An unknown zone is read as New York.
    let bad = example_schedule("Not/A_Zone");
    assert_eq!(bad.get_refresh_rate_at(MONDAY_MIDNIGHT_UTC + 15 * 3600), 60);
}

#[test]
fn first_matching_rule_wins() {
    let schedule = RefreshSchedule {
        timezone: "UTC".to_string(),
        default_refresh_rate: 300,
        schedule: vec![
            rule(DaySelector::Named("all".to_string()), "08:00", "12:00", 11),
            rule(DaySelector::Named("weekdays".to_string()), "09:00", "17:00", 22),
        ],
    };
    assert_eq!(schedule.get_refresh_rate_for_time(Weekday::Tue, time(10, 0)), 11);
    assert_eq!(schedule.get_refresh_rate_for_time(Weekday::Tue, time(13, 0)), 22);
    assert_eq!(schedule.get_refresh_rate_for_time(Weekday::Sat, time(13, 0)), 300);
}

#[test]
fn fallback_rate_without_schedule() {
    assert_eq!(refresh_rate_or_fallback(None), 60);
    let schedule = RefreshSchedule {
        timezone: "UTC".to_string(),
        default_refresh_rate: 77,
        schedule: vec![],
    };
    assert_eq!(refresh_rate_or_fallback(Some(&schedule)), 77);
}

#[test]
fn calendar_range_matches_chrono() {
    let first = DateTime::from_timestamp(MIN_INSTANT, 0).unwrap();
    assert_eq!(first.date_naive(), NaiveDate::MIN);
    assert_eq!((first.year(), first.month(), first.day(), first.hour()), (-262143, 1, 1, 0));
    assert!(DateTime::from_timestamp(MIN_INSTANT - 1, 0).is_none());
    let last = DateTime::from_timestamp(MAX_INSTANT, 0).unwrap();
    assert_eq!(last.date_naive(), NaiveDate::MAX);
    assert_eq!((last.year(), last.month(), last.day(), last.second()), (262142, 12, 31, 59));
    assert!(DateTime::from_timestamp(MAX_INSTANT + 1, 0).is_none());
    // The extreme instants resolve in any zone without failing.
    let schedule = RefreshSchedule {
        timezone: "Pacific/Kiritimati".to_string(),
        default_refresh_rate: 5,
        schedule: vec![],
    };
    assert_eq!(schedule.get_refresh_rate_at(MAX_INSTANT), 5);
    assert_eq!(schedule.get_refresh_rate_at(MIN_INSTANT), 5);
}
