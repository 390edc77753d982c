//! Presentation-ready statistics derived from raw analytics.
//!
//! All quantities are carried as whole seconds, and every displayed
//! figure is computed by exact integer arithmetic: a tenth of an hour is
//! rounded to nearest (ties upward), a percentage change to the nearest
//! whole percent (ties away from zero), as the dashboards show them.

use vstd::prelude::*;
use vstd::arithmetic::div_mod::lemma_div_is_ordered_by_denominator;
use vstd::string::StringExecFns;

use crate::strutil::{spec_digit_char, spec_i64_str, spec_u64_digits, i64_to_string, push_char,
    u64_to_string};

verus! {

/// Seconds in an hour.
pub const SECONDS_PER_HOUR: u64 = 3600;

/// Seconds a week must hold for each average daily hour.
pub const SECONDS_PER_DAILY_HOUR: u64 = 25200;

/// One trend card: a headline figure and how it moved against last week.
#[derive(Debug)]
pub struct TrendStatistic {
    pub title: String,
    pub value: String,
    pub change: String,
    pub change_type: String,
    pub period: String,
    pub icon: String,
    pub color: String,
}

/// One insight card: a qualitative reading of the figures.
#[derive(Debug)]
pub struct Insight {
    pub title: String,
    pub description: String,
    pub value: String,
    pub trend: String,
    pub icon: String,
    pub color: String,
}

/// The programmer archetype the dashboard attributes to the user.
#[derive(Debug)]
pub struct ProgrammerClass {
    pub class_name: String,
    pub description: String,
    pub technologies: Vec<String>,
    pub level: String,
    pub color: String,
}

/// `n / d` rounded to the nearest integer, ties upward (`n, d >= 0`).
pub open spec fn spec_round_div(n: int, d: int) -> int {
    (n + d / 2) / d
}

/// Tenths of hours in `seconds`, rounded to nearest.
pub open spec fn spec_hours_tenths(seconds: int) -> int {
    spec_round_div(seconds * 10, 3600)
}

/// Tenths of average daily hours in a week of `seconds`, rounded to
/// nearest.
pub open spec fn spec_daily_tenths(seconds: int) -> int {
    spec_round_div(seconds * 10, 25200)
}

/// Whole hours in `seconds`, rounded to nearest.
pub open spec fn spec_whole_hours(seconds: int) -> int {
    spec_round_div(seconds, 3600)
}

/// A quantity of tenths rendered with one decimal place, e.g. `15`
/// becomes `1.5` followed by `suffix`.
pub open spec fn spec_tenths_str(tenths: int, suffix: Seq<char>) -> Seq<char> {
    spec_u64_digits(tenths / 10) + Seq::empty().push('.').push(spec_digit_char(tenths % 10))
        + suffix
}

/// The relative change from `prev` to `cur` in whole percent, rounded
/// to nearest with ties away from zero; all of nothing is `100`, and
/// nothing of nothing is `0`.
pub open spec fn spec_percent_change(cur: int, prev: int) -> int {
    if prev > 0 {
        let num = 100 * (cur - prev);
        if num >= 0 {
            (num + prev / 2) / prev
        } else {
            -(((-num) + prev / 2) / prev)
        }
    } else if cur > 0 {
        100
    } else {
        0
    }
}

/// `v` clamped into the `i32` range.
pub open spec fn spec_clamp_i32(v: int) -> int {
    if v > i32::MAX {
        i32::MAX as int
    } else if v < i32::MIN {
        i32::MIN as int
    } else {
        v
    }
}

/// Round `seconds * 10 / unit` to the nearest integer, ties upward.
fn tenths_value(seconds: u64, unit: u64) -> (t: u64)
    requires
        3600 <= unit <= 25200,
    ensures
        t as int == spec_round_div(seconds as int * 10, unit as int),
{
    let n: u128 = seconds as u128 * 10 + (unit / 2) as u128;
    let q: u128 = n / (unit as u128);
    proof {
        lemma_div_is_ordered_by_denominator(n as int, 3600, unit as int);
        assert(n as int / 3600 < 0x10000000000000000) by {
            assert(n <= u64::MAX as u128 * 10 + 12600);
        };
    }
    q as u64
}

/// Render a quantity of tenths with one decimal place and a suffix.
fn format_tenths(tenths: u64, suffix: &str) -> (s: String)
    ensures
        s@ == spec_tenths_str(tenths as int, suffix@),
{
    let mut s = u64_to_string(tenths / 10);
    push_char(&mut s, '.');
    let d: u64 = tenths % 10;
    push_char(&mut s, (48 + d as u8) as char);
    s.append(suffix);
    s
}

/// The whole-percent change from `previous` to `current` seconds,
/// clamped into `i32`.
pub fn percent_change(current: u64, previous: u64) -> (r: i32)
    ensures
        r as int == spec_clamp_i32(spec_percent_change(current as int, previous as int)),
{
    if previous > 0 {
        let num: i128 = 100 * (current as i128 - previous as i128);
        let prev: i128 = previous as i128;
        let q: i128 = if num >= 0 {
            (num + prev / 2) / prev
        } else {
            -(((-num) + prev / 2) / prev)
        };
        if q > i32::MAX as i128 {
            i32::MAX
        } else if q < i32::MIN as i128 {
            i32::MIN
        } else {
            q as i32
        }
    } else if current > 0 {
        100
    } else {
        0
    }
}

/// The headline figures of the dashboard, in tenths of hours and whole
/// percent, computed from whole seconds.
#[derive(Debug)]
pub struct DashboardMetrics {
    pub daily_average_tenths: u64,
    pub weekly_hours_tenths: u64,
    pub weekly_change_percent: i32,
    pub prev_week_tenths: u64,
}

/// Compute the dashboard's calculated metrics for the current week
/// against the previous one.
pub fn dashboard_metrics(weekly_seconds: u64, prev_week_seconds: u64) -> (m: DashboardMetrics)
    ensures
        m.daily_average_tenths as int == spec_daily_tenths(weekly_seconds as int),
        m.weekly_hours_tenths as int == spec_hours_tenths(weekly_seconds as int),
        m.weekly_change_percent as int == spec_clamp_i32(
            spec_percent_change(weekly_seconds as int, prev_week_seconds as int),
        ),
        m.prev_week_tenths as int == spec_hours_tenths(prev_week_seconds as int),
{
    DashboardMetrics {
        daily_average_tenths: tenths_value(weekly_seconds, SECONDS_PER_DAILY_HOUR),
        weekly_hours_tenths: tenths_value(weekly_seconds, SECONDS_PER_HOUR),
        weekly_change_percent: percent_change(weekly_seconds, prev_week_seconds),
        prev_week_tenths: tenths_value(prev_week_seconds, SECONDS_PER_HOUR),
    }
}

/// The weekly-time trend card is correctly filled in for a week of `w`
/// seconds against a previous week of `p` seconds.
pub open spec fn time_trend_ok(t: TrendStatistic, w: int, p: int) -> bool {
    let pct = spec_clamp_i32(spec_percent_change(w, p));
    &&& t.title@ == "Weekly Coding Time"@
    &&& t.value@ == spec_tenths_str(spec_hours_tenths(w), "h"@)
    &&& t.period@ == "vs last week"@
    &&& t.icon@ == ""@
    &&& pct > 0 ==> t.change@ == Seq::empty().push('+') + spec_u64_digits(pct) + "%"@
        && t.change_type@ == "increase"@ && t.color@ == "#4CAF50"@
    &&& pct < 0 ==> t.change@ == spec_i64_str(pct) + "%"@ && t.change_type@ == "decrease"@
        && t.color@ == "#F44336"@
    &&& pct == 0 ==> t.change@ == "No change"@ && t.change_type@ == "neutral"@ && t.color@
        == "#FF9800"@
}

/// The streak trend card is correctly filled in for a current streak of
/// `streak` days. A positive streak always reads one day longer than a
/// week ago; an empty one reads as maintained.
pub open spec fn streak_trend_ok(t: TrendStatistic, streak: int) -> bool {
    &&& t.title@ == "Coding Streak"@
    &&& t.value@ == spec_u64_digits(streak) + " days"@
    &&& t.period@ == "vs last week"@
    &&& t.icon@ == ""@
    &&& streak > 0 ==> t.change@ == "+1 days"@ && t.change_type@ == "increase"@ && t.color@
        == "#FF5722"@
    &&& streak == 0 ==> t.change@ == "Maintained"@ && t.change_type@ == "neutral"@ && t.color@
        == "#FF9800"@
}

/// The daily-focus trend card is correctly filled in; its percentage is
/// the same weekly ratio, its value the average day.
pub open spec fn focus_trend_ok(t: TrendStatistic, w: int, p: int) -> bool {
    let pct = spec_clamp_i32(spec_percent_change(w, p));
    &&& t.title@ == "Daily Focus Time"@
    &&& t.value@ == spec_tenths_str(spec_daily_tenths(w), "h/day"@)
    &&& t.period@ == "vs last week"@
    &&& t.icon@ == ""@
    &&& pct > 0 ==> t.change@ == Seq::empty().push('+') + spec_u64_digits(pct) + "%"@
        && t.change_type@ == "increase"@ && t.color@ == "#4CAF50"@
    &&& pct < 0 ==> t.change@ == spec_i64_str(pct) + "%"@ && t.change_type@ == "decrease"@
        && t.color@ == "#F44336"@
    &&& pct == 0 ==> t.change@ == "No change"@ && t.change_type@ == "neutral"@ && t.color@
        == "#FF9800"@
}

/// The percent-change string: `+N%`, `-N%`, or `No change`, with the
/// matching kind word and color.
fn change_strings(pct: i32) -> (r: (String, String, String))
    ensures
        pct > 0 ==> r.0@ == Seq::empty().push('+') + spec_u64_digits(pct as int) + "%"@ && r.1@
            == "increase"@ && r.2@ == "#4CAF50"@,
        pct < 0 ==> r.0@ == spec_i64_str(pct as int) + "%"@ && r.1@ == "decrease"@ && r.2@
            == "#F44336"@,
        pct == 0 ==> r.0@ == "No change"@ && r.1@ == "neutral"@ && r.2@ == "#FF9800"@,
{
    if pct > 0 {
        let mut c = String::new();
        push_char(&mut c, '+');
        let digits = u64_to_string(pct as u64);
        c.append(digits.as_str());
        c.append("%");
        (c, String::from_str("increase"), String::from_str("#4CAF50"))
    } else if pct < 0 {
        let mut c = i64_to_string(pct as i64);
        c.append("%");
        (c, String::from_str("decrease"), String::from_str("#F44336"))
    } else {
        (
            String::from_str("No change"),
            String::from_str("neutral"),
            String::from_str("#FF9800"),
        )
    }
}

/// The weekly coding-time card.
pub fn time_trend(weekly_seconds: u64, prev_week_seconds: u64) -> (t: TrendStatistic)
    ensures
        time_trend_ok(t, weekly_seconds as int, prev_week_seconds as int),
{
    let pct = percent_change(weekly_seconds, prev_week_seconds);
    let (change, change_type, color) = change_strings(pct);
    TrendStatistic {
        title: String::from_str("Weekly Coding Time"),
        value: format_tenths(tenths_value(weekly_seconds, SECONDS_PER_HOUR), "h"),
        change,
        change_type,
        period: String::from_str("vs last week"),
        icon: String::from_str(""),
        color,
    }
}

/// The coding-streak card.
pub fn streak_trend(current_streak: u64) -> (t: TrendStatistic)
    ensures
        streak_trend_ok(t, current_streak as int),
{
    let mut value = u64_to_string(current_streak);
    value.append(" days");
    if current_streak > 0 {
        TrendStatistic {
            title: String::from_str("Coding Streak"),
            value,
            change: String::from_str("+1 days"),
            change_type: String::from_str("increase"),
            period: String::from_str("vs last week"),
            icon: String::from_str(""),
            color: String::from_str("#FF5722"),
        }
    } else {
        TrendStatistic {
            title: String::from_str("Coding Streak"),
            value,
            change: String::from_str("Maintained"),
            change_type: String::from_str("neutral"),
            period: String::from_str("vs last week"),
            icon: String::from_str(""),
            color: String::from_str("#FF9800"),
        }
    }
}

/// The daily-focus card.
pub fn focus_trend(weekly_seconds: u64, prev_week_seconds: u64) -> (t: TrendStatistic)
    ensures
        focus_trend_ok(t, weekly_seconds as int, prev_week_seconds as int),
{
    let pct = percent_change(weekly_seconds, prev_week_seconds);
    let (change, change_type, color) = change_strings(pct);
    TrendStatistic {
        title: String::from_str("Daily Focus Time"),
        value: format_tenths(tenths_value(weekly_seconds, SECONDS_PER_DAILY_HOUR), "h/day"),
        change,
        change_type,
        period: String::from_str("vs last week"),
        icon: String::from_str(""),
        color,
    }
}

/// The three trend cards of the dashboard, in display order.
pub fn calculate_trends(weekly_seconds: u64, prev_week_seconds: u64, current_streak: u64) -> (r:
    Vec<TrendStatistic>)
    ensures
        r@.len() == 3,
        time_trend_ok(r@[0], weekly_seconds as int, prev_week_seconds as int),
        streak_trend_ok(r@[1], current_streak as int),
        focus_trend_ok(r@[2], weekly_seconds as int, prev_week_seconds as int),
{
    let mut trends: Vec<TrendStatistic> = Vec::new();
    trends.push(time_trend(weekly_seconds, prev_week_seconds));
    trends.push(streak_trend(current_streak));
    trends.push(focus_trend(weekly_seconds, prev_week_seconds));
    trends
}

/// The consistency insight is correctly chosen for a week of `w`
/// seconds: two average daily hours or more reads as consistent, one or
/// more as steady, anything less as room to grow.
pub open spec fn consistency_insight_ok(i: Insight, w: int) -> bool {
    &&& i.value@ == spec_tenths_str(spec_daily_tenths(w), "h/day"@)
    &&& i.icon@ == ""@
    &&& w >= 50400 ==> i.title@ == "Consistent Coder"@ && i.description@
        == "You've been coding consistently every day this week!"@ && i.trend@
        == "Great consistency"@ && i.color@ == "#4CAF50"@
    &&& 25200 <= w < 50400 ==> i.title@ == "Steady Progress"@ && i.description@
        == "You're maintaining a good coding rhythm."@ && i.trend@ == "Keep it up"@ && i.color@
        == "#FF9800"@
    &&& w < 25200 ==> i.title@ == "Room for Growth"@ && i.description@
        == "Try to code a bit more each day to build momentum."@ && i.trend@
        == "Build momentum"@ && i.color@ == "#2196F3"@
}

/// The streak insight is correctly chosen for `streak` days.
pub open spec fn streak_insight_ok(i: Insight, streak: int) -> bool {
    &&& i.value@ == spec_u64_digits(streak) + " days"@
    &&& i.icon@ == ""@
    &&& streak >= 30 ==> i.title@ == "Streak Master"@ && i.description@
        == "Incredible! You've been coding for over a month straight!"@ && i.trend@
        == "Amazing dedication"@ && i.color@ == "#FFD700"@
    &&& 7 <= streak < 30 ==> i.title@ == "Week Warrior"@ && i.description@
        == "You've been coding for a full week! Great job!"@ && i.trend@
        == "Excellent progress"@ && i.color@ == "#FF5722"@
    &&& 0 < streak < 7 ==> i.title@ == "Getting Started"@ && i.description@
        == "You're building a coding habit! Keep it going!"@ && i.trend@
        == "Building momentum"@ && i.color@ == "#4CAF50"@
    &&& streak == 0 ==> i.title@ == "Fresh Start"@ && i.description@
        == "Ready to start your coding journey? Let's begin!"@ && i.trend@ == "Start today"@
        && i.color@ == "#9C27B0"@
}

/// The all-time insight is correctly chosen for `a` seconds logged in
/// total; the tiers sit at a thousand, a hundred and ten hours.
pub open spec fn total_insight_ok(i: Insight, a: int) -> bool {
    &&& i.value@ == spec_u64_digits(spec_whole_hours(a)) + "h total"@
    &&& i.icon@ == ""@
    &&& a >= 3600000 ==> i.title@ == "Coding Veteran"@ && i.description@
        == "You've logged over 1000 hours of coding! Incredible dedication!"@ && i.trend@
        == "Expert level"@ && i.color@ == "#FFD700"@
    &&& 360000 <= a < 3600000 ==> i.title@ == "Experienced Coder"@ && i.description@
        == "You've put in serious time coding! Keep up the great work!"@ && i.trend@
        == "Strong foundation"@ && i.color@ == "#4CAF50"@
    &&& 36000 <= a < 360000 ==> i.title@ == "Learning Journey"@ && i.description@
        == "You're building your coding skills! Every hour counts."@ && i.trend@
        == "Growing skills"@ && i.color@ == "#2196F3"@
    &&& a < 36000 ==> i.title@ == "Just Getting Started"@ && i.description@
        == "Every expert was once a beginner. Keep coding!"@ && i.trend@
        == "Beginning journey"@ && i.color@ == "#9C27B0"@
}

fn consistency_insight(weekly_seconds: u64) -> (i: Insight)
    ensures
        consistency_insight_ok(i, weekly_seconds as int),
{
    let value = format_tenths(tenths_value(weekly_seconds, SECONDS_PER_DAILY_HOUR), "h/day");
    if weekly_seconds >= 50400 {
        Insight {
            title: String::from_str("Consistent Coder"),
            description: String::from_str("You've been coding consistently every day this week!"),
            value,
            trend: String::from_str("Great consistency"),
            icon: String::from_str(""),
            color: String::from_str("#4CAF50"),
        }
    } else if weekly_seconds >= 25200 {
        Insight {
            title: String::from_str("Steady Progress"),
            description: String::from_str("You're maintaining a good coding rhythm."),
            value,
            trend: String::from_str("Keep it up"),
            icon: String::from_str(""),
            color: String::from_str("#FF9800"),
        }
    } else {
        Insight {
            title: String::from_str("Room for Growth"),
            description: String::from_str("Try to code a bit more each day to build momentum."),
            value,
            trend: String::from_str("Build momentum"),
            icon: String::from_str(""),
            color: String::from_str("#2196F3"),
        }
    }
}

fn streak_insight(current_streak: u64) -> (i: Insight)
    ensures
        streak_insight_ok(i, current_streak as int),
{
    let mut value = u64_to_string(current_streak);
    value.append(" days");
    if current_streak >= 30 {
        Insight {
            title: String::from_str("Streak Master"),
            description: String::from_str(
                "Incredible! You've been coding for over a month straight!",
            ),
            value,
            trend: String::from_str("Amazing dedication"),
            icon: String::from_str(""),
            color: String::from_str("#FFD700"),
        }
    } else if current_streak >= 7 {
        Insight {
            title: String::from_str("Week Warrior"),
            description: String::from_str("You've been coding for a full week! Great job!"),
            value,
            trend: String::from_str("Excellent progress"),
            icon: String::from_str(""),
            color: String::from_str("#FF5722"),
        }
    } else if current_streak > 0 {
        Insight {
            title: String::from_str("Getting Started"),
            description: String::from_str("You're building a coding habit! Keep it going!"),
            value,
            trend: String::from_str("Building momentum"),
            icon: String::from_str(""),
            color: String::from_str("#4CAF50"),
        }
    } else {
        Insight {
            title: String::from_str("Fresh Start"),
            description: String::from_str("Ready to start your coding journey? Let's begin!"),
            value,
            trend: String::from_str("Start today"),
            icon: String::from_str(""),
            color: String::from_str("#9C27B0"),
        }
    }
}

fn total_insight(all_time_seconds: u64) -> (i: Insight)
    ensures
        total_insight_ok(i, all_time_seconds as int),
{
    let hours: u64 = (all_time_seconds / 2 + 900) / 1800;
    proof {
        assert(hours as int == spec_whole_hours(all_time_seconds as int)) by {
            vstd::arithmetic::div_mod::lemma_div_denominator(
                all_time_seconds as int + 1800,
                2,
                1800,
            );
            assert((all_time_seconds as int + 1800) / 2 == all_time_seconds as int / 2 + 900);
        };
    }
    let mut value = u64_to_string(hours);
    value.append("h total");
    if all_time_seconds >= 3600000 {
        Insight {
            title: String::from_str("Coding Veteran"),
            description: String::from_str(
                "You've logged over 1000 hours of coding! Incredible dedication!",
            ),
            value,
            trend: String::from_str("Expert level"),
            icon: String::from_str(""),
            color: String::from_str("#FFD700"),
        }
    } else if all_time_seconds >= 360000 {
        Insight {
            title: String::from_str("Experienced Coder"),
            description: String::from_str(
                "You've put in serious time coding! Keep up the great work!",
            ),
            value,
            trend: String::from_str("Strong foundation"),
            icon: String::from_str(""),
            color: String::from_str("#4CAF50"),
        }
    } else if all_time_seconds >= 36000 {
        Insight {
            title: String::from_str("Learning Journey"),
            description: String::from_str(
                "You're building your coding skills! Every hour counts.",
            ),
            value,
            trend: String::from_str("Growing skills"),
            icon: String::from_str(""),
            color: String::from_str("#2196F3"),
        }
    } else {
        Insight {
            title: String::from_str("Just Getting Started"),
            description: String::from_str("Every expert was once a beginner. Keep coding!"),
            value,
            trend: String::from_str("Beginning journey"),
            icon: String::from_str(""),
            color: String::from_str("#9C27B0"),
        }
    }
}

/// The three insight cards of the dashboard, in display order.
pub fn generate_insights(weekly_seconds: u64, all_time_seconds: u64, current_streak: u64) -> (r:
    Vec<Insight>)
    ensures
        r@.len() == 3,
        consistency_insight_ok(r@[0], weekly_seconds as int),
        streak_insight_ok(r@[1], current_streak as int),
        total_insight_ok(r@[2], all_time_seconds as int),
{
    let mut insights: Vec<Insight> = Vec::new();
    insights.push(consistency_insight(weekly_seconds));
    insights.push(streak_insight(current_streak));
    insights.push(total_insight(all_time_seconds));
    insights
}

/// The language list attributed to a profile of `total` seconds and
/// `streak` days: a hundred logged hours reads as a polyglot (plus
/// systems languages on a week-long streak), twenty as a scripter (plus
/// types on a five-day streak), anything less as a web beginner.
pub open spec fn languages_ok(r: Seq<String>, total: int, streak: int) -> bool {
    if total >= 360000 {
        if streak >= 7 {
            r.len() == 5 && r[0]@ == "JavaScript"@ && r[1]@ == "Python"@ && r[2]@ == "Java"@
                && r[3]@ == "Rust"@ && r[4]@ == "Go"@
        } else {
            r.len() == 3 && r[0]@ == "JavaScript"@ && r[1]@ == "Python"@ && r[2]@ == "Java"@
        }
    } else if total >= 72000 {
        if streak >= 5 {
            r.len() == 3 && r[0]@ == "JavaScript"@ && r[1]@ == "Python"@ && r[2]@
                == "TypeScript"@
        } else {
            r.len() == 2 && r[0]@ == "JavaScript"@ && r[1]@ == "Python"@
        }
    } else {
        r.len() == 3 && r[0]@ == "HTML"@ && r[1]@ == "CSS"@ && r[2]@ == "JavaScript"@
    }
}

/// Stand-in language analysis from coarse totals (the remote service
/// exposes no per-language breakdown here).
pub fn simulate_language_analysis(total_seconds: u64, current_streak: u64) -> (r: Vec<String>)
    ensures
        languages_ok(r@, total_seconds as int, current_streak as int),
{
    let mut languages: Vec<String> = Vec::new();
    if total_seconds >= 360000 {
        languages.push(String::from_str("JavaScript"));
        languages.push(String::from_str("Python"));
        languages.push(String::from_str("Java"));
        if current_streak >= 7 {
            languages.push(String::from_str("Rust"));
            languages.push(String::from_str("Go"));
        }
    } else if total_seconds >= 72000 {
        languages.push(String::from_str("JavaScript"));
        languages.push(String::from_str("Python"));
        if current_streak >= 5 {
            languages.push(String::from_str("TypeScript"));
        }
    } else {
        languages.push(String::from_str("HTML"));
        languages.push(String::from_str("CSS"));
        languages.push(String::from_str("JavaScript"));
    }
    languages
}

/// The thresholds a configured programmer class asks for. Hour
/// thresholds are whole hours; a profile of `s` seconds meets
/// `min_hours: h` when `s >= 3600 * h`.
#[derive(Debug)]
pub struct ClassConditions {
    pub primary_languages: Vec<String>,
    pub language_count: Option<u64>,
    pub min_hours: Option<u64>,
    pub max_hours: Option<u64>,
    pub min_streak: Option<u64>,
}

/// One configured programmer class: what it is called and what it asks
/// for.
#[derive(Debug)]
pub struct ClassDefinition {
    pub name: String,
    pub description: String,
    pub technologies: Vec<String>,
    pub level: String,
    pub color: String,
    pub conditions: ClassConditions,
}

/// `l` occurs among the user's languages.
pub open spec fn spec_lang_in(langs: Seq<String>, l: Seq<char>) -> bool {
    exists|i: int| 0 <= i < langs.len() && langs[i]@ == l
}

/// How many of the first `n` primary languages occur among the user's
/// languages.
pub open spec fn spec_primary_matches(primary: Seq<String>, langs: Seq<String>, n: int) -> int
    decreases n,
{
    if n <= 0 {
        0
    } else {
        spec_primary_matches(primary, langs, n - 1) + if spec_lang_in(langs, primary[n - 1]@) {
            1int
        } else {
            0int
        }
    }
}

/// A class's score against a profile, in half-points: four per matched
/// primary language, six for speaking enough languages, two for each
/// met hours bound and minus one for each missed, one for a long enough
/// streak.
pub open spec fn spec_class_score(
    c: ClassConditions,
    langs: Seq<String>,
    total_seconds: int,
    streak: int,
) -> int {
    4 * spec_primary_matches(c.primary_languages@, langs, c.primary_languages@.len() as int) + (
    match c.language_count {
        Some(n) => if langs.len() >= n {
            6int
        } else {
            0int
        },
        None => 0int,
    }) + (match c.min_hours {
        Some(h) => if total_seconds >= 3600 * h {
            2int
        } else {
            -1int
        },
        None => 0int,
    }) + (match c.max_hours {
        Some(h) => if total_seconds <= 3600 * h {
            2int
        } else {
            -1int
        },
        None => 0int,
    }) + (match c.min_streak {
        Some(m) => if streak >= m {
            1int
        } else {
            0int
        },
        None => 0int,
    })
}

/// Whether `l` occurs among `langs`.
fn lang_in(langs: &Vec<String>, l: &str) -> (r: bool)
    ensures
        r == spec_lang_in(langs@, l@),
{
    let mut i: usize = 0;
    while i < langs.len()
        invariant
            i <= langs.len(),
            forall|j: int| 0 <= j < i ==> langs@[j]@ != l@,
        decreases langs.len() - i,
    {
        if crate::strutil::substr_eq(langs[i].as_str(), l) {
            return true;
        }
        i = i + 1;
    }
    false
}

/// Score a class's conditions against a profile, in half-points.
pub fn calculate_class_score(
    conditions: &ClassConditions,
    languages: &Vec<String>,
    total_seconds: u64,
    current_streak: u64,
) -> (score: i128)
    ensures
        score as int == spec_class_score(
            *conditions,
            languages@,
            total_seconds as int,
            current_streak as int,
        ),
{
    let mut matched: u64 = 0;
    let mut i: usize = 0;
    let primary = &conditions.primary_languages;
    while i < primary.len()
        invariant
            i <= primary@.len(),
            matched as int == spec_primary_matches(primary@, languages@, i as int),
            matched <= i,
        decreases primary.len() - i,
    {
        if lang_in(languages, primary[i].as_str()) {
            matched = matched + 1;
        }
        i = i + 1;
    }
    let mut score: i128 = 4 * matched as i128;
    match conditions.language_count {
        Some(n) => {
            if languages.len() as u64 >= n {
                score = score + 6;
            }
        },
        None => {},
    }
    match conditions.min_hours {
        Some(h) => {
            if total_seconds as i128 >= 3600 * h as i128 {
                score = score + 2;
            } else {
                score = score - 1;
            }
        },
        None => {},
    }
    match conditions.max_hours {
        Some(h) => {
            if total_seconds as i128 <= 3600 * h as i128 {
                score = score + 2;
            } else {
                score = score - 1;
            }
        },
        None => {},
    }
    match conditions.min_streak {
        Some(m) => {
            if current_streak >= m {
                score = score + 1;
            }
        },
        None => {},
    }
    score
}

/// The score of the class at `i`, against the profile.
pub open spec fn spec_class_score_at(
    classes: Seq<ClassDefinition>,
    i: int,
    langs: Seq<String>,
    total_seconds: int,
    streak: int,
) -> int {
    spec_class_score(classes[i].conditions, langs, total_seconds, streak)
}

/// The result `r` presents the class at `k`.
pub open spec fn presents_class(r: ProgrammerClass, c: ClassDefinition) -> bool {
    &&& r.class_name@ == c.name@
    &&& r.description@ == c.description@
    &&& r.technologies@.map_values(|t: String| t@) == c.technologies@.map_values(|t: String| t@)
    &&& r.level@ == c.level@
    &&& r.color@ == c.color@
}

/// The result `r` presents the fallback archetype.
pub open spec fn presents_default_class(r: ProgrammerClass) -> bool {
    &&& r.class_name@ == "Code Explorer"@
    &&& r.description@ == "An enthusiastic learner discovering the vast world of programming."@
    &&& r.technologies@.len() == 3
    &&& r.technologies@[0]@ == "HTML"@
    &&& r.technologies@[1]@ == "CSS"@
    &&& r.technologies@[2]@ == "JavaScript"@
    &&& r.level@ == "Learning"@
    &&& r.color@ == "#9C27B0"@
}

/// A copy of a vector of strings, equal to the original.
fn clone_string_vec(v: &Vec<String>) -> (r: Vec<String>)
    ensures
        r@ == v@,
{
    let mut r: Vec<String> = Vec::new();
    let mut i: usize = 0;
    while i < v.len()
        invariant
            i <= v.len(),
            r@ =~= v@.take(i as int),
        decreases v.len() - i,
    {
        r.push(v[i].clone());
        i = i + 1;
    }
    proof {
        assert(r@ =~= v@);
    }
    r
}

/// Pick the class the profile scores best against: the first class with
/// the strictly greatest positive score wins, and with no positive
/// score at all the fallback archetype is shown.
pub fn analyze_programmer_class(
    classes: &Vec<ClassDefinition>,
    languages: &Vec<String>,
    total_seconds: u64,
    current_streak: u64,
) -> (r: ProgrammerClass)
    ensures
        (forall|i: int|
            0 <= i < classes@.len() ==> spec_class_score_at(
                classes@,
                i,
                languages@,
                total_seconds as int,
                current_streak as int,
            ) <= 0) ==> presents_default_class(r),
        (exists|i: int|
            0 <= i < classes@.len() && spec_class_score_at(
                classes@,
                i,
                languages@,
                total_seconds as int,
                current_streak as int,
            ) > 0) ==> (exists|k: int|
            {
                &&& 0 <= k < classes@.len()
                &&& spec_class_score_at(
                    classes@,
                    k,
                    languages@,
                    total_seconds as int,
                    current_streak as int,
                ) > 0
                &&& forall|j: int|
                    0 <= j < k ==> spec_class_score_at(
                        classes@,
                        j,
                        languages@,
                        total_seconds as int,
                        current_streak as int,
                    ) < spec_class_score_at(
                        classes@,
                        k,
                        languages@,
                        total_seconds as int,
                        current_streak as int,
                    )
                &&& forall|j: int|
                    k < j < classes@.len() ==> spec_class_score_at(
                        classes@,
                        j,
                        languages@,
                        total_seconds as int,
                        current_streak as int,
                    ) <= spec_class_score_at(
                        classes@,
                        k,
                        languages@,
                        total_seconds as int,
                        current_streak as int,
                    )
                &&& presents_class(r, classes@[k])
            }),
{
    let ghost total = total_seconds as int;
    let ghost streak = current_streak as int;
    let mut best_idx: Option<usize> = None;
    let mut best_score: i128 = 0;
    let mut i: usize = 0;
    while i < classes.len()
        invariant
            i <= classes@.len(),
            total == total_seconds as int,
            streak == current_streak as int,
            best_idx is None ==> best_score == 0 && forall|j: int|
                0 <= j < i ==> spec_class_score_at(classes@, j, languages@, total, streak) <= 0,
            best_idx matches Some(k) ==> {
                &&& k < i
                &&& best_score as int == spec_class_score_at(classes@, k as int, languages@, total, streak)
                &&& best_score > 0
                &&& forall|j: int|
                    0 <= j < k ==> spec_class_score_at(classes@, j, languages@, total, streak)
                        < best_score as int
                &&& forall|j: int|
                    k < j < i ==> spec_class_score_at(classes@, j, languages@, total, streak)
                        <= best_score as int
            },
        decreases classes.len() - i,
    {
        let s = calculate_class_score(&classes[i].conditions, languages, total_seconds,
            current_streak);
        proof {
            assert(s as int == spec_class_score_at(classes@, i as int, languages@, total, streak));
        }
        if s > best_score {
            best_idx = Some(i);
            best_score = s;
        }
        i = i + 1;
    }
    match best_idx {
        Some(k) => {
            let c = &classes[k];
            ProgrammerClass {
                class_name: c.name.clone(),
                description: c.description.clone(),
                technologies: clone_string_vec(&c.technologies),
                level: c.level.clone(),
                color: c.color.clone(),
            }
        },
        None => default_programmer_class(),
    }
}

/// The archetype shown when no class configuration matches or none can
/// be read.
pub fn default_programmer_class() -> (c: ProgrammerClass)
    ensures
        c.class_name@ == "Code Explorer"@,
        c.description@ == "An enthusiastic learner discovering the vast world of programming."@,
        c.technologies@.len() == 3,
        c.technologies@[0]@ == "HTML"@,
        c.technologies@[1]@ == "CSS"@,
        c.technologies@[2]@ == "JavaScript"@,
        c.level@ == "Learning"@,
        c.color@ == "#9C27B0"@,
{
    let mut technologies: Vec<String> = Vec::new();
    technologies.push(String::from_str("HTML"));
    technologies.push(String::from_str("CSS"));
    technologies.push(String::from_str("JavaScript"));
    ProgrammerClass {
        class_name: String::from_str("Code Explorer"),
        description: String::from_str(
            "An enthusiastic learner discovering the vast world of programming.",
        ),
        technologies,
        level: String::from_str("Learning"),
        color: String::from_str("#9C27B0"),
    }
}

} // verus!
