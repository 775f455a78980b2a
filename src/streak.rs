use vstd::prelude::*;

use crate::cadence::Cadence;
use crate::date::{in_date_range, weekday_of, Date, LAST_DAY};
use crate::structs::{Chain, Link, Streak, StreakSummary};

verus! {

/// The day numbers of the links' dates, in the links' order.
pub open spec fn link_days(links: Seq<Link>) -> Seq<int> {
    links.map_values(|l: Link| l.date@)
}

/// Whether some active day lies strictly between days `from` and `to`.
/// Between two neighbouring links of an ascending sequence, such a day is
/// one on which a link was expected and none was recorded.
pub open spec fn missed_between(cadence: Cadence, from: int, to: int) -> bool {
    exists|d: int| from < d < to && #[trigger] cadence.active_on(d)
}

/// The length of the run that the `i`-th link closes: each link extends the
/// run of its predecessor by one, unless an active day was missed between
/// the two, in which case a new run starts with it.
pub open spec fn run_at(cadence: Cadence, days: Seq<int>, i: int) -> nat
    decreases i,
{
    if i <= 0 {
        1
    } else if missed_between(cadence, days[i - 1], days[i]) {
        1
    } else {
        run_at(cadence, days, i - 1) + 1
    }
}

/// The run in progress at the latest link; 0 without links.
pub open spec fn current_run(cadence: Cadence, days: Seq<int>) -> nat {
    if days.len() == 0 {
        0
    } else {
        run_at(cadence, days, days.len() - 1)
    }
}

/// The longest run closed by one of the first `n` links; 0 for none.
pub open spec fn longest_run(cadence: Cadence, days: Seq<int>, n: int) -> nat
    decreases n,
{
    if n <= 0 {
        0
    } else {
        let before = longest_run(cadence, days, n - 1);
        let here = run_at(cadence, days, n - 1);
        if here > before {
            here
        } else {
            before
        }
    }
}

impl StreakSummary {
    /// Whether this summary holds the current and longest streak of `links`
    /// under `cadence`.
    pub open spec fn summarizes(self, cadence: Cadence, links: Seq<Link>) -> bool {
        &&& self.current == current_run(cadence, link_days(links))
        &&& self.longest == longest_run(cadence, link_days(links), links.len() as int)
    }
}

/// Whether an active day lies strictly between `from` and `to`, found by
/// walking the days between them.
fn missed_day_between(cadence: &Cadence, from: &Date, to: &Date) -> (r: bool)
    ensures
        r == missed_between(*cadence, from@, to@),
{
    let end = to.day_number();
    let start = from.day_number();
    let mut cur: Date = *from;
    loop
        invariant
            end == to@,
            start == from@,
            in_date_range(end as int),
            from@ <= cur@ <= LAST_DAY,
            forall|d: int| from@ < d <= cur@ ==> !cadence.active_on(d),
        decreases LAST_DAY - cur@,
    {
        let c = cur.day_number();
        if c + 1 >= end {
            return false;
        }
        let nxt = cur.next().unwrap();
        if cadence.is_active(&nxt) {
            return true;
        }
        cur = nxt;
    }
}

/// The current and longest streak of a chain with this cadence whose links,
/// oldest first, are `links`.
pub fn compute_streak(cadence: &Cadence, links: &Vec<Link>) -> (r: StreakSummary)
    ensures
        r.summarizes(*cadence, links@),
        links@.len() == 0 ==> r.current == 0 && r.longest == 0,
        links@.len() == 1 ==> r.current == 1 && r.longest == 1,
        r.current <= r.longest <= links@.len(),
{
    let ghost days = link_days(links@);
    let n = links.len();
    let mut current: usize = 0;
    let mut longest: usize = 0;
    let mut i: usize = 0;
    while i < n
        invariant
            n == links@.len(),
            days == link_days(links@),
            i <= n,
            current == (if i == 0 { 0 } else { run_at(*cadence, days, i - 1) }),
            longest == longest_run(*cadence, days, i as int),
            current <= longest <= i,
        decreases n - i,
    {
        if i > 0 && missed_day_between(cadence, &links[i - 1].date, &links[i].date) {
            current = 1;
        } else {
            current = current + 1;
        }
        if current > longest {
            longest = current;
        }
        i = i + 1;
    }
    StreakSummary { current, longest }
}

/// The streaks of `chain`, whose links, oldest first, are `links`.
pub fn calculate_streak(chain: &Chain, links: &Vec<Link>) -> (r: Streak)
    requires
        links@.len() <= i32::MAX,
    ensures
        r.name@ == chain.name@,
        r.streak == current_run(chain.cadence, link_days(links@)),
        r.longest_streak == longest_run(chain.cadence, link_days(links@), links@.len() as int),
{
    let summary = compute_streak(&chain.cadence, links);
    Streak {
        name: chain.name.clone(),
        streak: summary.current as i32,
        longest_streak: summary.longest as i32,
    }
}

/// The streaks of `chain` if it is due on `today`: if it has no link yet, or
/// its latest link is older than `today`; `None` if it is done for today.
pub fn due_streak(chain: &Chain, links: &Vec<Link>, today: &Date) -> (r: Option<Streak>)
    requires
        links@.len() <= i32::MAX,
    ensures
        r is Some <==> (links@.len() == 0 || links@.last().date@ < today@),
        r is Some ==> {
            &&& r->0.name@ == chain.name@
            &&& r->0.streak == current_run(chain.cadence, link_days(links@))
            &&& r->0.longest_streak == longest_run(
                chain.cadence,
                link_days(links@),
                links@.len() as int,
            )
        },
{
    let n = links.len();
    if n > 0 && links[n - 1].date.day_number() >= today.day_number() {
        None
    } else {
        Some(calculate_streak(chain, links))
    }
}

/// Streaks are a function of the cadence and the links alone: any two
/// summaries of the same cadence and links are equal, so computing them
/// twice gives the same result.
pub proof fn streak_is_deterministic(
    cadence: Cadence,
    links: Seq<Link>,
    a: StreakSummary,
    b: StreakSummary,
)
    requires
        a.summarizes(cadence, links),
        b.summarizes(cadence, links),
    ensures
        a == b,
{
}

/// The longest streak is never shorter than the current one.
pub proof fn longest_at_least_current(cadence: Cadence, links: Seq<Link>)
    ensures
        current_run(cadence, link_days(links)) <= longest_run(
            cadence,
            link_days(links),
            links.len() as int,
        ),
{
    let days = link_days(links);
    if links.len() > 0 {
        assert(longest_run(cadence, days, links.len() as int) >= run_at(
            cadence,
            days,
            links.len() - 1,
        ));
    }
}

/// Under a cadence that expects no weekday, no day can be missed: all links
/// form one run, whatever the gaps between them.
pub proof fn inactive_cadence_never_breaks(cadence: Cadence, links: Seq<Link>)
    requires
        forall|w: int| 0 <= w < 7 ==> !cadence.expects_weekday(w),
    ensures
        current_run(cadence, link_days(links)) == links.len(),
        longest_run(cadence, link_days(links), links.len() as int) == links.len(),
{
    let days = link_days(links);
    assert forall|from: int, to: int| !missed_between(cadence, from, to) by {
        assert forall|d: int| !(#[trigger] cadence.active_on(d)) by {
            assert(0 <= weekday_of(d) < 7);
        }
    }
    lemma_unbroken_runs(cadence, days, links.len() as int);
}

proof fn lemma_unbroken_runs(cadence: Cadence, days: Seq<int>, n: int)
    requires
        0 <= n,
        forall|from: int, to: int| !#[trigger] missed_between(cadence, from, to),
    ensures
        n > 0 ==> run_at(cadence, days, n - 1) == n,
        longest_run(cadence, days, n) == n,
    decreases n,
{
    if n > 0 {
        lemma_unbroken_runs(cadence, days, n - 1);
        if n > 1 {
            assert(!missed_between(cadence, days[n - 2], days[n - 1]));
        }
    }
}

} // verus!
