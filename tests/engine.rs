use chains::{
    build_day_grid, calculate_streak, compute_streak, create_days, create_dummy_days,
    due_streak, Cadence, Chain, ChainError, Date, Link, StreakSummary,
};

fn date(y: i32, m: u32, d: u32) -> Date {
    Date::from_ymd(y, m, d).unwrap()
}

fn links(dates: &[(i32, u32, u32)]) -> Vec<Link> {
    dates
        .iter()
        .map(|&(y, m, d)| Link { chain_id: 1, date: date(y, m, d) })
        .collect()
}

fn every_day() -> Cadence {
    Cadence::every_day()
}

fn weekends() -> Cadence {
    Cadence {
        sunday: true,
        monday: false,
        tuesday: false,
        wednesday: false,
        thursday: false,
        friday: false,
        saturday: true,
    }
}

fn no_days() -> Cadence {
    Cadence {
        sunday: false,
        monday: false,
        tuesday: false,
        wednesday: false,
        thursday: false,
        friday: false,
        saturday: false,
    }
}

fn summary(current: usize, longest: usize) -> StreakSummary {
    StreakSummary { current, longest }
}

fn chain(name: &str, cadence: Cadence) -> Chain {
    Chain { id: 1, name: name.to_string(), cadence }
}

const GAPPED: [(i32, u32, u32); 6] = [
    (2024, 1, 1),
    (2024, 1, 2),
    (2024, 1, 5),
    (2024, 1, 8),
    (2024, 1, 9),
    (2024, 1, 10),
];

#[test]
fn no_links_give_zero_streaks_and_empty_grid() {
    let none: Vec<Link> = Vec::new();
    assert_eq!(compute_streak(&every_day(), &none), summary(0, 0));
    let today = date(2024, 1, 10);
    let grid = build_day_grid(&none, &today, 10);
    assert_eq!(grid.len(), 10);
    for (i, marker) in grid.iter().enumerate() {
        assert_eq!(marker.date, date(2024, 1, 1 + i as u32));
        assert!(!marker.completed);
    }
}

#[test]
fn no_links_give_zero_streaks_for_every_cadence() {
    let none: Vec<Link> = Vec::new();
    for cadence in [every_day(), weekends(), no_days()] {
        assert_eq!(compute_streak(&cadence, &none), summary(0, 0));
    }
}

#[test]
fn single_link_gives_streak_of_one_for_every_cadence() {
    let one = links(&[(2024, 1, 3)]);
    for cadence in [every_day(), weekends(), no_days()] {
        assert_eq!(compute_streak(&cadence, &one), summary(1, 1));
    }
}

#[test]
fn three_consecutive_days() {
    let l = links(&[(2024, 1, 8), (2024, 1, 9), (2024, 1, 10)]);
    assert_eq!(compute_streak(&every_day(), &l), summary(3, 3));
}

#[test]
fn gaps_break_runs_under_every_day_cadence() {
    let l = links(&GAPPED);
    assert_eq!(compute_streak(&every_day(), &l), summary(3, 3));
}

#[test]
fn weekend_cadence_breaks_on_missed_weekend() {
    // 2024-01-03/04 are weekdays and do not count; 2024-01-06/07 are a
    // weekend without links and end the run.
    let l = links(&GAPPED);
    assert_eq!(compute_streak(&weekends(), &l), summary(3, 3));
}

#[test]
fn inactive_gaps_merge_runs() {
    // Monday, Tuesday and Friday: every day without a link in the set is
    // inactive, and the Wednesday link still counts.
    let cadence = Cadence {
        sunday: false,
        monday: true,
        tuesday: true,
        wednesday: false,
        thursday: false,
        friday: true,
        saturday: false,
    };
    let l = links(&GAPPED);
    assert_eq!(compute_streak(&cadence, &l), summary(6, 6));
}

#[test]
fn cadence_without_active_days_never_breaks() {
    let l = links(&[(2023, 3, 1), (2023, 9, 17), (2024, 1, 10)]);
    assert_eq!(compute_streak(&no_days(), &l), summary(3, 3));
}

#[test]
fn longest_run_survives_a_later_break() {
    let l = links(&[
        (2024, 1, 1),
        (2024, 1, 2),
        (2024, 1, 3),
        (2024, 1, 4),
        (2024, 1, 7),
        (2024, 1, 8),
    ]);
    assert_eq!(compute_streak(&every_day(), &l), summary(2, 4));
}

#[test]
fn streak_is_same_on_second_call() {
    let l = links(&GAPPED);
    let first = compute_streak(&weekends(), &l);
    let second = compute_streak(&weekends(), &l);
    assert_eq!(first, second);
}

#[test]
fn longest_never_below_current() {
    let sets: [&[(i32, u32, u32)]; 4] = [
        &[],
        &[(2024, 1, 1)],
        &GAPPED,
        &[(2024, 1, 1), (2024, 1, 5), (2024, 1, 6), (2024, 1, 7)],
    ];
    for set in sets {
        for cadence in [every_day(), weekends(), no_days()] {
            let s = compute_streak(&cadence, &links(set));
            assert!(s.longest >= s.current);
        }
    }
}

#[test]
fn link_outside_window_counts_for_streak_only() {
    let l = links(&[(2023, 12, 1), (2024, 1, 9), (2024, 1, 10)]);
    let today = date(2024, 1, 10);
    let grid = build_day_grid(&l, &today, 10);
    assert_eq!(grid.len(), 10);
    let marked: Vec<Date> = grid.iter().filter(|m| m.completed).map(|m| m.date).collect();
    assert_eq!(marked, vec![date(2024, 1, 9), date(2024, 1, 10)]);
    assert!(grid.iter().all(|m| m.date != date(2023, 12, 1)));
    assert_eq!(compute_streak(&every_day(), &l), summary(2, 2));
    assert_eq!(compute_streak(&no_days(), &l), summary(3, 3));
}

#[test]
fn grid_has_window_size_days_ending_today() {
    let l = links(&GAPPED);
    let today = date(2024, 3, 2);
    for size in [0usize, 1, 7, 10, 40] {
        let grid = build_day_grid(&l, &today, size);
        assert_eq!(grid.len(), size);
        for pair in grid.windows(2) {
            assert_eq!(pair[0].date.day_number() + 1, pair[1].date.day_number());
        }
        if size > 0 {
            assert_eq!(grid[size - 1].date, today);
        }
    }
}

#[test]
fn grid_marks_exactly_the_links_in_window() {
    let l = links(&[(2024, 1, 2), (2024, 1, 5), (2024, 1, 10)]);
    let today = date(2024, 1, 10);
    let grid = build_day_grid(&l, &today, 10);
    let flags: Vec<bool> = grid.iter().map(|m| m.completed).collect();
    assert_eq!(
        flags,
        vec![false, true, false, false, true, false, false, false, false, true]
    );
}

#[test]
fn grid_window_crosses_month_and_year() {
    let l = links(&[(2023, 12, 31), (2024, 1, 1)]);
    let today = date(2024, 1, 3);
    let grid = build_day_grid(&l, &today, 5);
    assert_eq!(grid[0].date, date(2023, 12, 30));
    assert!(grid[1].completed && grid[2].completed);
    assert!(!grid[0].completed && !grid[3].completed && !grid[4].completed);
}

#[test]
fn days_show_day_of_month_and_done_flags() {
    let l = links(&[(2024, 2, 27), (2024, 3, 1)]);
    let today = date(2024, 3, 2);
    let days = create_days(&l, &today);
    let numbers: Vec<i32> = days.iter().map(|d| d.day).collect();
    assert_eq!(numbers, vec![22, 23, 24, 25, 26, 27, 28, 29, 1, 2]);
    let done: Vec<bool> = days.iter().map(|d| d.is_done).collect();
    assert_eq!(
        done,
        vec![false, false, false, false, false, true, false, false, true, false]
    );
}

#[test]
fn dummy_days_are_all_open() {
    let days = create_dummy_days(&date(2024, 1, 10));
    let numbers: Vec<i32> = days.iter().map(|d| d.day).collect();
    assert_eq!(numbers, vec![1, 2, 3, 4, 5, 6, 7, 8, 9, 10]);
    assert!(days.iter().all(|d| !d.is_done));
    let none: Vec<Link> = Vec::new();
    assert_eq!(create_days(&none, &date(2024, 1, 10)), days);
}

#[test]
fn calculate_streak_names_the_chain() {
    let c = chain("read", every_day());
    let s = calculate_streak(&c, &links(&GAPPED));
    assert_eq!(s.name, "read");
    assert_eq!(s.streak, 3);
    assert_eq!(s.longest_streak, 3);
}

#[test]
fn chain_without_links_is_due() {
    let c = chain("run", weekends());
    let none: Vec<Link> = Vec::new();
    let s = due_streak(&c, &none, &date(2024, 1, 10)).unwrap();
    assert_eq!((s.name.as_str(), s.streak, s.longest_streak), ("run", 0, 0));
}

#[test]
fn chain_done_today_is_not_due() {
    let c = chain("run", every_day());
    let l = links(&[(2024, 1, 9), (2024, 1, 10)]);
    assert!(due_streak(&c, &l, &date(2024, 1, 10)).is_none());
    let s = due_streak(&c, &l, &date(2024, 1, 11)).unwrap();
    assert_eq!((s.streak, s.longest_streak), (2, 2));
}

#[test]
fn cadence_follows_weekday() {
    // 2024-01-06 is a Saturday, 2024-01-07 a Sunday, 2024-01-08 a Monday.
    assert_eq!(date(2024, 1, 6).weekday(), 6);
    assert_eq!(date(2024, 1, 7).weekday(), 0);
    assert_eq!(date(2024, 1, 8).weekday(), 1);
    assert!(weekends().is_active(&date(2024, 1, 6)));
    assert!(weekends().is_active(&date(2024, 1, 7)));
    assert!(!weekends().is_active(&date(2024, 1, 8)));
    assert!(!no_days().is_active(&date(2024, 1, 8)));
    assert!(every_day().is_active(&date(2024, 1, 3)));
}

#[test]
fn dates_cover_four_digit_years() {
    assert_eq!(date(1, 1, 1).day_number(), 1);
    assert_eq!(date(9999, 12, 31).day_number(), 3652059);
    assert!(Date::from_ymd(10000, 1, 1).is_none());
    assert!(Date::from_ymd(0, 12, 31).is_none());
    assert!(Date::from_ymd(2023, 2, 29).is_none());
    assert!(Date::from_ymd(2024, 13, 1).is_none());
    assert_eq!(date(2024, 2, 29).next(), Some(date(2024, 3, 1)));
    assert!(date(9999, 12, 31).next().is_none());
    assert_eq!(Date::from_day_number(1), Some(date(1, 1, 1)));
    assert!(Date::from_day_number(0).is_none());
    assert!(Date::from_day_number(3652060).is_none());
}

#[test]
fn day_of_month_comes_from_the_calendar() {
    assert_eq!(date(2024, 1, 10).day(), 10);
    assert_eq!(date(2024, 2, 29).day(), 29);
    assert_eq!(date(2024, 2, 29).next().unwrap().day(), 1);
}

#[test]
fn iso_text_round_trips() {
    let d = date(2024, 1, 10);
    assert_eq!(d.to_iso_string(), "2024-01-10");
    assert_eq!(date(7, 3, 4).to_iso_string(), "0007-03-04");
    assert_eq!(Date::parse("2024-01-10").unwrap(), d);
    assert_eq!(Date::parse(&d.to_iso_string()).unwrap(), d);
}

#[test]
fn bad_dates_do_not_parse() {
    for text in ["foo", "2024-02-30", "2024-13-01", "", "+12345-06-07"] {
        let err = Date::parse(text).unwrap_err();
        assert_eq!(err.description(), "invalid date: expected YYYY-MM-DD");
    }
}

#[test]
fn chain_error_keeps_its_message() {
    let e = ChainError::new("no such chain");
    assert_eq!(e.description(), "no such chain");
}
