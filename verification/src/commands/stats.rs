//! Learning statistics: the practice streak and the day-by-day activity.

use vstd::prelude::*;
use crate::cli::opt_view;
use crate::text;

verus! {

/// The messages the user sent on one day.
#[derive(Debug, Clone)]
pub struct DailyActivity {
    /// The day, as `YYYY-MM-DD`.
    pub date: String,
    pub message_count: i64,
}

/// The learner's statistics.
#[derive(Debug, Clone)]
pub struct LearningStats {
    /// Messages the user ever sent.
    pub total_messages: i64,
    /// Vocabulary items saved.
    pub total_vocabulary: i64,
    /// Corrections saved.
    pub total_corrections: i64,
    /// Days with activity among the last 30.
    pub active_days_30: i64,
    /// Consecutive days of practice up to today or yesterday.
    pub streak_days: i64,
    /// Activity of the last seven days, oldest first.
    pub daily_activity: Vec<DailyActivity>,
    /// The most often corrected texts, with their counts.
    pub top_corrections: Vec<(String, i64)>,
    /// The latest saved corrections.
    pub recent_corrections: Vec<RecentCorrection>,
    /// Sessions per practice mode.
    pub mode_distribution: Vec<ModeDistribution>,
}

/// A saved correction.
#[derive(Debug, Clone)]
pub struct RecentCorrection {
    pub id: String,
    pub session_id: Option<String>,
    pub original_text: String,
    pub corrected_text: String,
    pub explanation: Option<String>,
    pub better_expression: Option<String>,
    pub created_at: String,
}

/// How many sessions were held in one practice mode.
#[derive(Debug, Clone)]
pub struct ModeDistribution {
    pub mode_id: String,
    pub mode_name: String,
    pub session_count: i64,
}

/// The day a `YYYY-MM-DD` text names, counted in days from the start of the
/// common era, when the text is such a date (as chrono reads it).
pub uninterp spec fn day_number(text: Seq<char>) -> Option<int>;

/// `chrono::NaiveDate::parse_from_str` with the format `%Y-%m-%d`, the date
/// read as its day count (`Datelike::num_days_from_ce`): the result is
/// `day_number` of the text.
#[verifier::external_body]
fn parse_day(text: &str) -> (r: Option<i64>)
    ensures
        match r {
            Some(d) => day_number(text@) == Some(d as int),
            None => day_number(text@) is None,
        },
{
    match chrono::NaiveDate::parse_from_str(text, "%Y-%m-%d") {
        Ok(date) => Some(chrono::Datelike::num_days_from_ce(&date) as i64),
        Err(_) => None,
    }
}

/// How many adjacent pairs, from position `k` on, are consecutive days
/// (each a day after the next); the run stops at the first pair that is not.
pub open spec fn run_from(days: Seq<Option<int>>, k: int) -> nat
    decreases days.len() - k,
{
    if 0 <= k && k + 1 < days.len() && days[k] is Some && days[k + 1] is Some && days[k]->Some_0
        - days[k + 1]->Some_0 == 1 {
        1 + run_from(days, k + 1)
    } else {
        0
    }
}

/// The days of a list of date texts.
pub open spec fn days_of(dates: Seq<String>) -> Seq<Option<int>> {
    dates.map_values(|d: String| day_number(d@))
}

/// The streak for dates listed newest first: none unless the newest is today
/// or yesterday, else one more than the run of consecutive days from it.
pub open spec fn streak(dates: Seq<String>, today: Seq<char>, yesterday: Seq<char>) -> int {
    if dates.len() == 0 {
        0
    } else if dates[0]@ != today && dates[0]@ != yesterday {
        0
    } else {
        1 + run_from(days_of(dates), 0) as int
    }
}

/// The streak of consecutive practice days, from the distinct active days
/// newest first; `today` and `yesterday` are the current and previous dates.
pub fn streak_since(dates: &[String], today: &str, yesterday: &str) -> (r: i64)
    requires
        dates@.len() <= i64::MAX,
    ensures
        r == streak(dates@, today@, yesterday@),
{
    if dates.len() == 0 {
        return 0;
    }
    if !text::str_eq(dates[0].as_str(), today) && !text::str_eq(dates[0].as_str(), yesterday) {
        return 0;
    }
    let ghost days = days_of(dates@);
    let n = dates.len();
    let mut k: usize = 0;
    let mut prev = parse_day(dates[0].as_str());
    let mut stop = false;
    while k + 1 < n && !stop
        invariant
            n == dates@.len(),
            n <= i64::MAX,
            days == days_of(dates@),
            k < n,
            prev matches Some(p) ==> days[k as int] == Some(p as int),
            prev is None ==> days[k as int] is None,
            1 + run_from(days, 0) == (k + 1) + run_from(days, k as int),
            stop ==> run_from(days, k as int) == 0,
        decreases 2 * (n - k) + (if stop { 0int } else { 1int }),
    {
        let next = parse_day(dates[k + 1].as_str());
        let step = match (prev, next) {
            (Some(a), Some(b)) => a as i128 - b as i128 == 1,
            _ => false,
        };
        if step {
            k = k + 1;
            prev = next;
        } else {
            stop = true;
        }
    }
    (k + 1) as i64
}

/// The activity of each of the given days, in order: the count recorded for
/// that date, or zero.
pub open spec fn count_on(existing: Seq<DailyActivity>, date: Seq<char>) -> i64 {
    if exists|i: int| 0 <= i < existing.len() && existing[i].date@ == date {
        existing[choose|i: int| 0 <= i < existing.len() && existing[i].date@ == date && forall|j: int| 0 <= j < i ==> existing[j].date@ != date].message_count
    } else {
        0
    }
}

fn find_count(existing: &[DailyActivity], date: &str) -> (r: i64)
    ensures
        r == count_on(existing@, date@),
{
    let mut i: usize = 0;
    while i < existing.len()
        invariant
            i <= existing@.len(),
            forall|j: int| 0 <= j < i ==> existing@[j].date@ != date@,
        decreases existing.len() - i,
    {
        if text::str_eq(existing[i].date.as_str(), date) {
            proof {
                let e = existing@;
                let k = choose|k: int| 0 <= k < e.len() && e[k].date@ == date@ && forall|j: int| 0 <= j < k ==> e[j].date@ != date@;
                if k < i {
                    assert(e[k].date@ != date@);
                }
                if k > i {
                    assert(e[i as int].date@ != date@);
                }
            }
            return existing[i].message_count;
        }
        i = i + 1;
    }
    0
}

/// One entry per given day (oldest first), with the count recorded for it
/// or zero, so that no day is missing.
pub fn fill_gaps(existing: &[DailyActivity], dates: &[String]) -> (r: Vec<DailyActivity>)
    ensures
        r@.len() == dates@.len(),
        forall|i: int| 0 <= i < r@.len() ==> (#[trigger] r@[i]).date@ == dates@[i]@ && r@[i].message_count
            == count_on(existing@, dates@[i]@),
{
    let mut out: Vec<DailyActivity> = Vec::new();
    let mut i: usize = 0;
    while i < dates.len()
        invariant
            i <= dates@.len(),
            out@.len() == i,
            forall|k: int| 0 <= k < i ==> (#[trigger] out@[k]).date@ == dates@[k]@ && out@[k].message_count
                == count_on(existing@, dates@[k]@),
        decreases dates.len() - i,
    {
        let count = find_count(existing, dates[i].as_str());
        out.push(DailyActivity { date: dates[i].clone(), message_count: count });
        i = i + 1;
    }
    out
}

/// The `%Y-%m-%d` text of the day with the given number (counted from the
/// start of the common era, as chrono counts), when chrono can represent it.
pub uninterp spec fn day_label(day: int) -> Option<Seq<char>>;

/// `chrono::NaiveDate::from_num_days_from_ce_opt`, written out with the
/// format `%Y-%m-%d`: the result is `day_label` of the day.
#[verifier::external_body]
fn date_of_day(day: i32) -> (r: Option<String>)
    ensures
        opt_view(r) == day_label(day as int),
{
    match chrono::NaiveDate::from_num_days_from_ce_opt(day) {
        Some(date) => Some(date.format("%Y-%m-%d").to_string()),
        None => None,
    }
}

/// `chrono::Utc::now`, read as the number of its (UTC) date
/// (`Datelike::num_days_from_ce`). It is the day of the call, so nothing is
/// stated of it.
#[verifier::external_body]
fn today_number() -> (r: i32) {
    chrono::Datelike::num_days_from_ce(&chrono::Utc::now().date_naive())
}

/// The text of a day, empty for a day that chrono cannot represent.
pub open spec fn date_text(day: int) -> Seq<char> {
    if i32::MIN <= day <= i32::MAX {
        match day_label(day) {
            Some(t) => t,
            None => Seq::<char>::empty(),
        }
    } else {
        Seq::<char>::empty()
    }
}

fn date_text_of(day: i64) -> (r: String)
    ensures
        r@ == date_text(day as int),
{
    if i32::MIN as i64 <= day && day <= i32::MAX as i64 {
        match date_of_day(day as i32) {
            Some(t) => t,
            None => String::new(),
        }
    } else {
        String::new()
    }
}

/// The streak as of the day of the call: `streak` with the dates of that day
/// and of the day before, read from the clock.
pub fn compute_streak(dates: &[String]) -> (r: i64)
    requires
        dates@.len() <= i64::MAX,
    ensures
        dates@.len() == 0 ==> r == 0,
        exists|t: int| r == #[trigger] streak(dates@, date_text(t), date_text(t - 1)),
{
    let t = today_number() as i64;
    let today = date_text_of(t);
    let yesterday = date_text_of(t - 1);
    let r = streak_since(dates, today.as_str(), yesterday.as_str());
    proof {
        assert(r == streak(dates@, date_text(t as int), date_text(t - 1)));
    }
    r
}

/// Whether `r` is the activity of the `days` days up to day `t`, oldest
/// first, each with the count recorded for its date in `existing`.
pub open spec fn activity_ending(r: Seq<DailyActivity>, existing: Seq<DailyActivity>, t: int, days: int) -> bool {
    &&& r.len() == days
    &&& forall|i: int|
        0 <= i < days ==> (#[trigger] r[i]).date@ == date_text(t - (days - 1 - i)) && r[i].message_count
            == count_on(existing, r[i].date@)
}

/// The activity of the `days` days up to the day of the call, oldest first:
/// `fill_gaps` over their dates, read from the clock.
pub fn fill_daily_gaps(existing: Vec<DailyActivity>, days: u32) -> (r: Vec<DailyActivity>)
    ensures
        r@.len() == days,
        exists|t: int| #[trigger] activity_ending(r@, existing@, t, days as int),
{
    let t = today_number() as i64;
    let mut dates: Vec<String> = Vec::new();
    let mut i: u32 = 0;
    while i < days
        invariant
            i32::MIN <= t <= i32::MAX,
            i <= days,
            dates@.len() == i,
            forall|k: int| 0 <= k < i ==> (#[trigger] dates@[k])@ == date_text(t - (days - 1 - k)),
        decreases days - i,
    {
        let back: i64 = (days - 1 - i) as i64;
        dates.push(date_text_of(t - back));
        i = i + 1;
    }
    let r = fill_gaps(existing.as_slice(), dates.as_slice());
    proof {
        assert forall|k: int| 0 <= k < days implies (#[trigger] r@[k]).date@ == date_text(t - (days - 1 - k))
            && r@[k].message_count == count_on(existing@, r@[k].date@) by {
            assert(r@[k].date@ == dates@[k]@);
        }
        assert(activity_ending(r@, existing@, t as int, days as int));
    }
    r
}

/// Whether the dates at positions `i` and `i + 1` are both dates and one
/// day apart, the first the later.
pub open spec fn one_day_apart(dates: Seq<String>, i: int) -> bool {
    &&& day_number(dates[i]@) is Some
    &&& day_number(dates[i + 1]@) is Some
    &&& day_number(dates[i]@)->Some_0 - day_number(dates[i + 1]@)->Some_0 == 1
}

proof fn lemma_run_counts(days: Seq<Option<int>>, dates: Seq<String>, k: int, j: int)
    requires
        days == days_of(dates),
        0 <= k <= j,
        j < dates.len(),
        forall|i: int| k <= i < j ==> #[trigger] one_day_apart(dates, i),
        j + 1 < dates.len() ==> !one_day_apart(dates, j),
    ensures
        run_from(days, k) == j - k,
    decreases j - k,
{
    if k < j {
        assert(one_day_apart(dates, k));
        assert(days[k] == day_number(dates[k]@));
        assert(days[k + 1] == day_number(dates[k + 1]@));
        lemma_run_counts(days, dates, k + 1, j);
    } else {
        if k + 1 < dates.len() {
            assert(days[k] == day_number(dates[k]@));
            assert(days[k + 1] == day_number(dates[k + 1]@));
        }
    }
}

/// The streak counts the days of the unbroken run that starts today or
/// yesterday: when the newest date is today's or yesterday's and the first
/// `j` adjacent pairs are one day apart while pair `j` is not (or the list
/// ends there), the streak is `j + 1`. So `n` consecutive days give `n`,
/// with no cap but the list's length.
pub proof fn lemma_streak_counts_the_run(dates: Seq<String>, today: Seq<char>, yesterday: Seq<char>, j: int)
    requires
        0 <= j < dates.len(),
        dates[0]@ == today || dates[0]@ == yesterday,
        forall|i: int| 0 <= i < j ==> #[trigger] one_day_apart(dates, i),
        j + 1 < dates.len() ==> !one_day_apart(dates, j),
    ensures
        streak(dates, today, yesterday) == j + 1,
{
    lemma_run_counts(days_of(dates), dates, 0, j);
}

/// Consecutive days all the way: a list of `n` dates, newest today or
/// yesterday, each one day after the next, gives a streak of `n`.
pub proof fn lemma_consecutive_days_all_count(dates: Seq<String>, today: Seq<char>, yesterday: Seq<char>)
    requires
        dates.len() > 0,
        dates[0]@ == today || dates[0]@ == yesterday,
        forall|i: int| 0 <= i < dates.len() - 1 ==> #[trigger] one_day_apart(dates, i),
    ensures
        streak(dates, today, yesterday) == dates.len(),
{
    lemma_streak_counts_the_run(dates, today, yesterday, dates.len() - 1);
}

/// No streak unless the newest date is today's or yesterday's.
pub proof fn lemma_stale_dates_have_no_streak(dates: Seq<String>, today: Seq<char>, yesterday: Seq<char>)
    requires
        dates.len() == 0 || (dates[0]@ != today && dates[0]@ != yesterday),
    ensures
        streak(dates, today, yesterday) == 0,
{
}

/// A streak is never negative and never longer than the list of days.
pub proof fn lemma_streak_bounded(dates: Seq<String>, today: Seq<char>, yesterday: Seq<char>)
    ensures
        0 <= streak(dates, today, yesterday) <= dates.len(),
{
    if dates.len() > 0 {
        lemma_run_bounded(days_of(dates), 0);
    }
}

proof fn lemma_run_bounded(days: Seq<Option<int>>, k: int)
    requires
        0 <= k < days.len(),
    ensures
        run_from(days, k) <= days.len() - 1 - k,
    decreases days.len() - k,
{
    if k + 1 < days.len() {
        lemma_run_bounded(days, k + 1);
    }
}

} // verus!
