use vstd::prelude::*;

use crate::date::{day_of_month, in_date_range, Date};
use crate::structs::{Day, DayMarker, Link};

verus! {

/// The number of days of the window that the tracker displays.
pub const DAY_WINDOW: usize = 10;

/// Whether some link is dated on day `day`.
pub open spec fn has_link_on(links: Seq<Link>, day: int) -> bool {
    exists|j: int| 0 <= j < links.len() && (#[trigger] links[j]).date@ == day
}

/// Whether `grid` is the window of `window_size` consecutive days ending on
/// day `today`, oldest first, each marked with whether a link falls on it.
pub open spec fn is_day_grid(
    grid: Seq<DayMarker>,
    links: Seq<Link>,
    today: int,
    window_size: int,
) -> bool {
    &&& grid.len() == window_size
    &&& forall|i: int|
        0 <= i < window_size ==> {
            &&& (#[trigger] grid[i]).date@ == today - window_size + 1 + i
            &&& grid[i].completed == has_link_on(links, grid[i].date@)
        }
}

/// The days that `grid` marks as completed.
pub open spec fn completed_days(grid: Seq<DayMarker>) -> Set<int> {
    Set::new(
        |d: int|
            exists|i: int| 0 <= i < grid.len() && (#[trigger] grid[i]).completed && grid[i].date@ == d,
    )
}

/// The days on which some link falls.
pub open spec fn linked_days(links: Seq<Link>) -> Set<int> {
    Set::new(|d: int| has_link_on(links, d))
}

/// Whether some link is dated on `date`.
fn link_on(links: &Vec<Link>, date: &Date) -> (r: bool)
    ensures
        r == has_link_on(links@, date@),
{
    let mut j: usize = 0;
    while j < links.len()
        invariant
            j <= links@.len(),
            forall|k: int| 0 <= k < j ==> (#[trigger] links@[k]).date@ != date@,
        decreases links@.len() - j,
    {
        if links[j].date.day_number() == date.day_number() {
            return true;
        }
        j = j + 1;
    }
    false
}

/// The `window_size` consecutive days ending on `today`, oldest first, each
/// marked with whether one of `links` falls on it. Links outside the window
/// mark nothing.
pub fn build_day_grid(links: &Vec<Link>, today: &Date, window_size: usize) -> (r: Vec<DayMarker>)
    requires
        window_size <= today@,
    ensures
        is_day_grid(r@, links@, today@, window_size as int),
        window_size > 0 ==> r@.last().date@ == today@,
{
    let last = today.day_number();
    let first = last - window_size as i32 + 1;
    let mut grid: Vec<DayMarker> = Vec::new();
    let mut k: usize = 0;
    while k < window_size
        invariant
            last == today@,
            in_date_range(last as int),
            window_size <= last,
            first == today@ - window_size + 1,
            k <= window_size,
            grid@.len() == k,
            forall|i: int|
                0 <= i < k ==> {
                    &&& (#[trigger] grid@[i]).date@ == first + i
                    &&& grid@[i].completed == has_link_on(links@, grid@[i].date@)
                },
        decreases window_size - k,
    {
        let date = Date::from_day_number(first + k as i32).unwrap();
        let completed = link_on(links, &date);
        grid.push(DayMarker { date, completed });
        k = k + 1;
    }
    grid
}

/// The days of `grid`, by day of the month.
fn days_of_grid(grid: &Vec<DayMarker>) -> (r: Vec<Day>)
    ensures
        r@.len() == grid@.len(),
        forall|i: int|
            0 <= i < grid@.len() ==> {
                &&& (#[trigger] r@[i]).day == day_of_month(grid@[i].date@)
                &&& r@[i].is_done == grid@[i].completed
            },
{
    let mut days: Vec<Day> = Vec::new();
    let mut k: usize = 0;
    while k < grid.len()
        invariant
            k <= grid@.len(),
            days@.len() == k,
            forall|i: int|
                0 <= i < k ==> {
                    &&& (#[trigger] days@[i]).day == day_of_month(grid@[i].date@)
                    &&& days@[i].is_done == grid@[i].completed
                },
        decreases grid@.len() - k,
    {
        let marker = grid[k];
        days.push(Day { day: marker.date.day() as i32, is_done: marker.completed });
        k = k + 1;
    }
    days
}

/// The last `DAY_WINDOW` days up to `today`, oldest first, by day of the
/// month, each marked with whether one of `links` falls on it.
pub fn create_days(links: &Vec<Link>, today: &Date) -> (r: Vec<Day>)
    requires
        DAY_WINDOW <= today@,
    ensures
        r@.len() == DAY_WINDOW,
        forall|i: int|
            0 <= i < DAY_WINDOW ==> {
                &&& (#[trigger] r@[i]).day == day_of_month(today@ - DAY_WINDOW + 1 + i)
                &&& r@[i].is_done == has_link_on(links@, today@ - DAY_WINDOW + 1 + i)
            },
{
    let grid = build_day_grid(links, today, DAY_WINDOW);
    let days = days_of_grid(&grid);
    assert forall|i: int| 0 <= i < DAY_WINDOW implies {
        &&& (#[trigger] days@[i]).day == day_of_month(today@ - DAY_WINDOW + 1 + i)
        &&& days@[i].is_done == has_link_on(links@, today@ - DAY_WINDOW + 1 + i)
    } by {
        assert(grid@[i].date@ == today@ - DAY_WINDOW + 1 + i);
    }
    days
}

/// The last `DAY_WINDOW` days up to `today`, oldest first, by day of the
/// month, none marked done: the window of a chain without links.
pub fn create_dummy_days(today: &Date) -> (r: Vec<Day>)
    requires
        DAY_WINDOW <= today@,
    ensures
        r@.len() == DAY_WINDOW,
        forall|i: int|
            0 <= i < DAY_WINDOW ==> {
                &&& (#[trigger] r@[i]).day == day_of_month(today@ - DAY_WINDOW + 1 + i)
                &&& !r@[i].is_done
            },
{
    let none: Vec<Link> = Vec::new();
    create_days(&none, today)
}

/// A grid built from links that all fall inside its window marks exactly
/// the links' days as completed, and no other.
pub proof fn grid_marks_exactly_links_in_window(
    grid: Seq<DayMarker>,
    links: Seq<Link>,
    today: int,
    window_size: int,
)
    requires
        is_day_grid(grid, links, today, window_size),
        forall|j: int|
            0 <= j < links.len() ==> today - window_size < (#[trigger] links[j]).date@ <= today,
    ensures
        completed_days(grid) == linked_days(links),
{
    assert forall|d: int| linked_days(links).contains(d) implies completed_days(grid).contains(
        d,
    ) by {
        let j = choose|j: int| 0 <= j < links.len() && (#[trigger] links[j]).date@ == d;
        let i = d - (today - window_size + 1);
        assert(grid[i].date@ == d);
    }
    assert(completed_days(grid) =~= linked_days(links));
}

} // verus!
