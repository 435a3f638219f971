//! Refresh-rate scheduling by day of week and time of day.
//!
//! A schedule is an ordered list of rules, a default rate and a time zone.
//! For an instant, the instant is read in the schedule's zone and the first
//! rule whose days and time window hold it gives the rate; when none does,
//! the default applies.

use vstd::prelude::*;

use crate::clock::{
    clock_in_range, new_york_clock, new_york_clock_of, unix_time_now, zone_clock, zone_clock_of, MAX_INSTANT,
    MIN_INSTANT,
};
use crate::decimal::{parse_u32, u32_of_text};
use crate::text::str_eq;

verus! {

/// Rate, in seconds, used where no schedule was loaded.
pub const FALLBACK_REFRESH_RATE: u32 = 60;

/// A day of the week.
#[derive(Clone, Copy, Debug, PartialEq, Eq, Structural)]
pub enum Weekday {
    Mon,
    Tue,
    Wed,
    Thu,
    Fri,
    Sat,
    Sun,
}

/// A time of day at minute granularity.
#[derive(Clone, Copy, Debug, PartialEq, Eq, Structural)]
pub struct TimeOfDay {
    pub hour: u32,
    pub minute: u32,
}

/// Which days a rule applies to.
#[derive(Clone, Debug)]
pub enum DaySelector {
    /// A list of day names, such as `["mon", "wed"]`.
    List(Vec<String>),
    /// `all`, `weekdays`, `weekends`, or a single day name.
    Named(String),
}

/// One rule: on the selected days, between `start` (inclusive) and `end`
/// (exclusive), both "HH:MM", the rate is `refresh_rate` seconds.
#[derive(Clone, Debug)]
pub struct ScheduleRule {
    pub days: DaySelector,
    pub start: String,
    pub end: String,
    pub refresh_rate: u32,
}

/// Rules in order of precedence, a default rate and an IANA zone name.
#[derive(Clone, Debug)]
pub struct RefreshSchedule {
    pub timezone: String,
    pub default_refresh_rate: u32,
    pub schedule: Vec<ScheduleRule>,
}

pub open spec fn is_weekday(w: Weekday) -> bool {
    !(w == Weekday::Sat || w == Weekday::Sun)
}

/// The day that a lower-case name denotes: three letters or the full name.
pub open spec fn weekday_named(s: Seq<char>) -> Option<Weekday> {
    if s == "mon"@ || s == "monday"@ {
        Some(Weekday::Mon)
    } else if s == "tue"@ || s == "tuesday"@ {
        Some(Weekday::Tue)
    } else if s == "wed"@ || s == "wednesday"@ {
        Some(Weekday::Wed)
    } else if s == "thu"@ || s == "thursday"@ {
        Some(Weekday::Thu)
    } else if s == "fri"@ || s == "friday"@ {
        Some(Weekday::Fri)
    } else if s == "sat"@ || s == "saturday"@ {
        Some(Weekday::Sat)
    } else if s == "sun"@ || s == "sunday"@ {
        Some(Weekday::Sun)
    } else {
        None
    }
}

/// The day `d` days after Monday (Sunday for 6 and beyond).
pub open spec fn weekday_at(d: u32) -> Weekday {
    if d == 0 {
        Weekday::Mon
    } else if d == 1 {
        Weekday::Tue
    } else if d == 2 {
        Weekday::Wed
    } else if d == 3 {
        Weekday::Thu
    } else if d == 4 {
        Weekday::Fri
    } else if d == 5 {
        Weekday::Sat
    } else {
        Weekday::Sun
    }
}

/// Day, hour and minute at an instant in a zone, New York standing in for a
/// zone name that is not recognised.
pub open spec fn local_clock_of(zone: Seq<char>, unix_secs: int) -> (u32, u32, u32) {
    match zone_clock_of(zone, unix_secs) {
        Some(c) => c,
        None => new_york_clock_of(unix_secs),
    }
}

/// Lower-case form of a text, as `str::to_lowercase` gives it.
pub uninterp spec fn lower_of(s: Seq<char>) -> Seq<char>;

/// The day that a name denotes, in any letter case.
pub open spec fn weekday_of_text(s: Seq<char>) -> Option<Weekday> {
    weekday_named(lower_of(s))
}

/// Whether a named group (already in lower case) selects the day.
pub open spec fn group_selects(lower: Seq<char>, w: Weekday) -> bool {
    if lower == "all"@ {
        true
    } else if lower == "weekdays"@ {
        is_weekday(w)
    } else if lower == "weekends"@ {
        !is_weekday(w)
    } else {
        weekday_named(lower) == Some(w)
    }
}

pub open spec fn selects(days: DaySelector, w: Weekday) -> bool {
    match days {
        DaySelector::Named(name) => group_selects(lower_of(name@), w),
        DaySelector::List(names) => exists|i: int|
            0 <= i < names@.len() && weekday_of_text(#[trigger] names@[i]@) == Some(w),
    }
}

pub open spec fn valid_time(hour: nat, minute: nat) -> bool {
    hour < 24 && minute < 60
}

/// `a` is earlier in the day than `b`.
pub open spec fn before(a: TimeOfDay, b: TimeOfDay) -> bool {
    a.hour < b.hour || (a.hour == b.hour && a.minute < b.minute)
}

pub open spec fn no_colon(s: Seq<char>) -> bool {
    forall|j: int| 0 <= j < s.len() ==> s[j] != ':'
}

/// `s` has exactly one colon, at `i`.
pub open spec fn sole_colon_at(s: Seq<char>, i: int) -> bool {
    0 <= i < s.len() && s[i] == ':' && no_colon(s.take(i)) && no_colon(s.skip(i + 1))
}

/// The time written "H:M" by two decimal numbers around a single colon.
pub open spec fn time_of_parts(h: Seq<char>, m: Seq<char>) -> Option<TimeOfDay> {
    match (u32_of_text(h), u32_of_text(m)) {
        (Some(hour), Some(minute)) => if valid_time(hour as nat, minute as nat) {
            Some(TimeOfDay { hour, minute })
        } else {
            None
        },
        _ => None,
    }
}

/// The time of day that "HH:MM" text denotes, if it denotes one.
pub open spec fn time_of_text(s: Seq<char>) -> Option<TimeOfDay> {
    if exists|i: int| sole_colon_at(s, i) {
        let i = choose|i: int| sole_colon_at(s, i);
        time_of_parts(s.take(i), s.skip(i + 1))
    } else {
        None
    }
}

/// Whether `t` lies in the window from `start` (inclusive) to `end`
/// (exclusive); a window whose start is after its end runs over midnight.
pub open spec fn in_window(start: TimeOfDay, end: TimeOfDay, t: TimeOfDay) -> bool {
    if !before(end, start) {
        !before(t, start) && before(t, end)
    } else {
        !before(t, start) || before(t, end)
    }
}

pub open spec fn rule_applies(rule: ScheduleRule, w: Weekday, t: TimeOfDay) -> bool {
    selects(rule.days, w) && match (time_of_text(rule.start@), time_of_text(rule.end@)) {
        (Some(s), Some(e)) => in_window(s, e, t),
        _ => false,
    }
}

/// The rate of the first rule that applies, or `default` when none does.
pub open spec fn first_match_rate(rules: Seq<ScheduleRule>, default: u32, w: Weekday, t: TimeOfDay) -> u32
    decreases rules.len(),
{
    if rules.len() == 0 {
        default
    } else if rule_applies(rules[0], w, t) {
        rules[0].refresh_rate
    } else {
        first_match_rate(rules.drop_first(), default, w, t)
    }
}

pub open spec fn rate_for(s: RefreshSchedule, w: Weekday, t: TimeOfDay) -> u32 {
    first_match_rate(s.schedule@, s.default_refresh_rate, w, t)
}

/// The rate at a Unix time, read in the schedule's zone.
pub open spec fn rate_at_instant(s: RefreshSchedule, unix_secs: int) -> u32 {
    let c = local_clock_of(s.timezone@, unix_secs);
    rate_for(s, weekday_at(c.0), TimeOfDay { hour: c.1, minute: c.2 })
}

/// Relies on `str::to_lowercase`, whose result depends on the text alone.
#[verifier::external_body]
fn lowercase(s: &str) -> (r: String)
    ensures
        r@ == lower_of(s@),
{
    s.to_lowercase()
}

/// The day that a lower-case name denotes, if any.
pub fn weekday_from_lowercase(s: &str) -> (r: Option<Weekday>)
    ensures
        r == weekday_named(s@),
{
    if str_eq(s, "mon") || str_eq(s, "monday") {
        Some(Weekday::Mon)
    } else if str_eq(s, "tue") || str_eq(s, "tuesday") {
        Some(Weekday::Tue)
    } else if str_eq(s, "wed") || str_eq(s, "wednesday") {
        Some(Weekday::Wed)
    } else if str_eq(s, "thu") || str_eq(s, "thursday") {
        Some(Weekday::Thu)
    } else if str_eq(s, "fri") || str_eq(s, "friday") {
        Some(Weekday::Fri)
    } else if str_eq(s, "sat") || str_eq(s, "saturday") {
        Some(Weekday::Sat)
    } else if str_eq(s, "sun") || str_eq(s, "sunday") {
        Some(Weekday::Sun)
    } else {
        None
    }
}

/// The day that a name denotes, in any letter case ("mon", "Monday").
pub fn weekday_from_str(s: &str) -> (r: Option<Weekday>)
    ensures
        r == weekday_of_text(s@),
{
    let lower = lowercase(s);
    weekday_from_lowercase(lower.as_str())
}

/// Whether a named group, given in lower case, selects the day.
pub fn group_matches(lower: &str, weekday: Weekday) -> (r: bool)
    ensures
        r == group_selects(lower@, weekday),
{
    if str_eq(lower, "all") {
        true
    } else if str_eq(lower, "weekdays") {
        !(weekday == Weekday::Sat || weekday == Weekday::Sun)
    } else if str_eq(lower, "weekends") {
        weekday == Weekday::Sat || weekday == Weekday::Sun
    } else {
        weekday_from_lowercase(lower) == Some(weekday)
    }
}

impl TimeOfDay {
    /// The time `hour:minute`, if the hour is below 24 and the minute
    /// below 60.
    pub fn new(hour: u32, minute: u32) -> (r: Option<TimeOfDay>)
        ensures
            r == (if valid_time(hour as nat, minute as nat) {
                Some(TimeOfDay { hour, minute })
            } else {
                None
            }),
    {
        if hour < 24 && minute < 60 {
            Some(TimeOfDay { hour, minute })
        } else {
            None
        }
    }

    /// Whether `self` is earlier in the day than `other`.
    pub fn is_before(&self, other: &TimeOfDay) -> (r: bool)
        ensures
            r == before(*self, *other),
    {
        self.hour < other.hour || (self.hour == other.hour && self.minute < other.minute)
    }
}

proof fn lemma_sole_colon_unique(s: Seq<char>, i: int, j: int)
    requires
        sole_colon_at(s, i),
        sole_colon_at(s, j),
    ensures
        i == j,
{
    if i < j {
        assert(s.take(j)[i] == s[i]);
    } else if j < i {
        assert(s.take(i)[j] == s[j]);
    }
}

/// Reads "HH:MM" (24-hour) into a time of day.
pub fn parse_time(s: &str) -> (r: Option<TimeOfDay>)
    ensures
        r == time_of_text(s@),
{
    let len = s.unicode_len();
    let mut i: usize = 0;
    let mut found = false;
    while i < len && !found
        invariant
            len == s@.len(),
            i <= len,
            found ==> i < len && s@[i as int] == ':',
            no_colon(s@.take(i as int)),
        decreases len - i + (if found { 0int } else { 1 }),
    {
        if s.get_char(i) == ':' {
            found = true;
        } else {
            assert(s@.take(i + 1) =~= s@.take(i as int).push(s@[i as int]));
            i = i + 1;
        }
    }
    if !found {
        proof {
            assert(s@.take(i as int) =~= s@);
            assert forall|k: int| !sole_colon_at(s@, k) by {
                if 0 <= k < s@.len() {
                    assert(s@.take(i as int)[k] == s@[k]);
                }
            }
        }
        return None;
    }
    let mut k: usize = i + 1;
    while k < len
        invariant
            len == s@.len(),
            i < k <= len,
            s@[i as int] == ':',
            no_colon(s@.subrange(i + 1, k as int)),
        decreases len - k,
    {
        if s.get_char(k) == ':' {
            proof {
                assert forall|x: int| !sole_colon_at(s@, x) by {
                    if sole_colon_at(s@, x) {
                        if x < k {
                            assert(s@.skip(x + 1)[k - x - 1] == s@[k as int]);
                        } else {
                            assert(s@.take(x)[i as int] == s@[i as int]);
                        }
                    }
                }
            }
            return None;
        }
        assert(s@.subrange(i + 1, k + 1) =~= s@.subrange(i + 1, k as int).push(s@[k as int]));
        k = k + 1;
    }
    proof {
        assert(s@.subrange(i + 1, len as int) =~= s@.skip(i + 1));
        assert(sole_colon_at(s@, i as int));
        let c = choose|x: int| sole_colon_at(s@, x);
        lemma_sole_colon_unique(s@, i as int, c);
    }
    let hour_text = s.substring_char(0, i);
    let minute_text = s.substring_char(i + 1, len);
    assert(hour_text@ =~= s@.take(i as int));
    assert(minute_text@ =~= s@.skip(i + 1));
    match (parse_u32(hour_text), parse_u32(minute_text)) {
        (Some(hour), Some(minute)) => TimeOfDay::new(hour, minute),
        _ => None,
    }
}

impl ScheduleRule {
    /// Whether this rule applies on `weekday`.
    pub fn day_matches(&self, weekday: Weekday) -> (r: bool)
        ensures
            r == selects(self.days, weekday),
    {
        match &self.days {
            DaySelector::Named(name) => {
                let lower = lowercase(name.as_str());
                group_matches(lower.as_str(), weekday)
            },
            DaySelector::List(names) => {
                let mut i: usize = 0;
                while i < names.len()
                    invariant
                        self.days == DaySelector::List(*names),
                        i <= names@.len(),
                        forall|j: int|
                            0 <= j < i ==> weekday_of_text(#[trigger] names@[j]@) != Some(weekday),
                    decreases names@.len() - i,
                {
                    if weekday_from_str(names[i].as_str()) == Some(weekday) {
                        assert(weekday_of_text(names@[i as int]@) == Some(weekday));
                        return true;
                    }
                    i = i + 1;
                }
                false
            },
        }
    }

    /// Whether this rule applies on `weekday` at `time`.
    pub fn matches(&self, weekday: Weekday, time: TimeOfDay) -> (r: bool)
        ensures
            r == rule_applies(*self, weekday, time),
    {
        if !self.day_matches(weekday) {
            return false;
        }
        match (parse_time(self.start.as_str()), parse_time(self.end.as_str())) {
            (Some(s), Some(e)) => {
                if !e.is_before(&s) {
                    !time.is_before(&s) && time.is_before(&e)
                } else {
                    !time.is_before(&s) || time.is_before(&e)
                }
            },
            _ => false,
        }
    }
}

impl Weekday {
    /// The day `index` days after Monday.
    pub fn from_monday_index(index: u32) -> (r: Weekday)
        requires
            index < 7,
        ensures
            r == weekday_at(index),
    {
        match index {
            0 => Weekday::Mon,
            1 => Weekday::Tue,
            2 => Weekday::Wed,
            3 => Weekday::Thu,
            4 => Weekday::Fri,
            5 => Weekday::Sat,
            _ => Weekday::Sun,
        }
    }
}

proof fn lemma_first_match_step(rules: Seq<ScheduleRule>, default: u32, w: Weekday, t: TimeOfDay, i: int)
    requires
        0 <= i < rules.len(),
        !rule_applies(rules[i], w, t),
    ensures
        first_match_rate(rules.skip(i), default, w, t) == first_match_rate(rules.skip(i + 1), default, w, t),
{
    assert(rules.skip(i).drop_first() =~= rules.skip(i + 1));
}

impl RefreshSchedule {
    /// The rate on `weekday` at `time` (both read in the schedule's zone):
    /// that of the first rule that applies, else the default.
    pub fn get_refresh_rate_for_time(&self, weekday: Weekday, time: TimeOfDay) -> (r: u32)
        ensures
            r == rate_for(*self, weekday, time),
    {
        let mut i: usize = 0;
        assert(self.schedule@.skip(0) =~= self.schedule@);
        while i < self.schedule.len()
            invariant
                i <= self.schedule@.len(),
                first_match_rate(self.schedule@.skip(i as int), self.default_refresh_rate, weekday, time)
                    == rate_for(*self, weekday, time),
            decreases self.schedule@.len() - i,
        {
            let rule = &self.schedule[i];
            if rule.matches(weekday, time) {
                return rule.refresh_rate;
            }
            proof {
                lemma_first_match_step(self.schedule@, self.default_refresh_rate, weekday, time, i as int);
            }
            i = i + 1;
        }
        self.default_refresh_rate
    }

    /// The rate at a Unix time in seconds, read in the schedule's zone; a
    /// zone name that is not recognised is read as America/New_York.
    pub fn get_refresh_rate_at(&self, unix_secs: i64) -> (r: u32)
        requires
            MIN_INSTANT <= unix_secs <= MAX_INSTANT,
        ensures
            r == rate_at_instant(*self, unix_secs as int),
    {
        let clock = match zone_clock(self.timezone.as_str(), unix_secs) {
            Some(c) => c,
            None => match new_york_clock(unix_secs) {
                Some(c) => c,
                None => (0, 0, 0),
            },
        };
        let (day, hour, minute) = clock;
        let weekday = Weekday::from_monday_index(day);
        self.get_refresh_rate_for_time(weekday, TimeOfDay { hour, minute })
    }

    /// The rate now; a clock set before 1970 is read as the epoch itself.
    pub fn get_refresh_rate(&self) -> (r: u32)
        ensures
            exists|secs: int| MIN_INSTANT <= secs <= MAX_INSTANT && r == rate_at_instant(*self, secs),
    {
        let now: i64 = match unix_time_now() {
            Some(secs) => if secs <= MAX_INSTANT as u64 {
                secs as i64
            } else {
                MAX_INSTANT
            },
            None => 0,
        };
        self.get_refresh_rate_at(now)
    }
}

/// Rate for the current time under an optional schedule: the schedule's
/// rate where one is loaded, else `FALLBACK_REFRESH_RATE`.
pub fn refresh_rate_or_fallback(schedule: Option<&RefreshSchedule>) -> (r: u32)
    ensures
        schedule.is_none() ==> r == FALLBACK_REFRESH_RATE,
        schedule matches Some(s) ==> exists|secs: int|
            MIN_INSTANT <= secs <= MAX_INSTANT && r == rate_at_instant(*s, secs),
{
    match schedule {
        Some(s) => s.get_refresh_rate(),
        None => FALLBACK_REFRESH_RATE,
    }
}

proof fn lemma_rate_from_skip(rules: Seq<ScheduleRule>, default: u32, w: Weekday, t: TimeOfDay, k: int)
    requires
        0 <= k <= rules.len(),
        forall|j: int| 0 <= j < k ==> !rule_applies(#[trigger] rules[j], w, t),
    ensures
        first_match_rate(rules.skip(k), default, w, t) == first_match_rate(rules, default, w, t),
    decreases k,
{
    if k == 0 {
        assert(rules.skip(0) =~= rules);
    } else {
        lemma_rate_from_skip(rules, default, w, t, k - 1);
        lemma_first_match_step(rules, default, w, t, k - 1);
    }
}

/// A window that does not run over midnight (start not after end) never
/// holds its end time, and holds its start time whenever it is not empty;
/// both on a day that the rule selects.
pub proof fn law_window_start_inclusive_end_exclusive(
    rule: ScheduleRule,
    w: Weekday,
    start: TimeOfDay,
    end: TimeOfDay,
)
    requires
        time_of_text(rule.start@) == Some(start),
        time_of_text(rule.end@) == Some(end),
        !before(end, start),
        selects(rule.days, w),
    ensures
        before(start, end) ==> rule_applies(rule, w, start),
        !rule_applies(rule, w, end),
{
}

/// A window that runs over midnight (start after end) holds every time from
/// its start to midnight and from midnight up to its end, and no time from
/// its end up to its start; on a day that the rule selects.
pub proof fn law_overnight_window(rule: ScheduleRule, w: Weekday, start: TimeOfDay, end: TimeOfDay, t: TimeOfDay)
    requires
        time_of_text(rule.start@) == Some(start),
        time_of_text(rule.end@) == Some(end),
        before(end, start),
        selects(rule.days, w),
    ensures
        !before(t, start) ==> rule_applies(rule, w, t),
        before(t, end) ==> rule_applies(rule, w, t),
        !before(t, end) && before(t, start) ==> !rule_applies(rule, w, t),
{
}

/// When two rules apply at the same moment, the schedule gives the rate of
/// the earlier one (the earlier being the first that applies at all).
pub proof fn law_first_applicable_rule_wins(s: RefreshSchedule, w: Weekday, t: TimeOfDay, i: int, j: int)
    requires
        0 <= i < j < s.schedule@.len(),
        rule_applies(s.schedule@[i], w, t),
        rule_applies(s.schedule@[j], w, t),
        forall|k: int| 0 <= k < i ==> !rule_applies(#[trigger] s.schedule@[k], w, t),
    ensures
        rate_for(s, w, t) == s.schedule@[i].refresh_rate,
{
    lemma_rate_from_skip(s.schedule@, s.default_refresh_rate, w, t, i);
    assert(s.schedule@.skip(i)[0] == s.schedule@[i]);
}

/// A schedule without rules gives its default rate at every moment.
pub proof fn law_empty_schedule_gives_default(s: RefreshSchedule, w: Weekday, t: TimeOfDay, unix_secs: int)
    requires
        s.schedule@.len() == 0,
    ensures
        rate_for(s, w, t) == s.default_refresh_rate,
        rate_at_instant(s, unix_secs) == s.default_refresh_rate,
{
}

} // verus!
