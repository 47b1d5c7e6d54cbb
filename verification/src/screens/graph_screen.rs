//! The heatmap of a year: how many entries fell on each day, laid out with
//! one row for each weekday and one column for each week.

use crate::calendar::days_from_monday;
use crate::calendar::parse_timestamp_ordinal;
use crate::calendar::timestamp_ordinal;
use crate::calendar::weekday_of_date;
use crate::calendar::MAX_YEAR;
use crate::calendar::MIN_YEAR;
use crate::keys::Key;
use crate::screens::interpret;
use crate::screens::interpretation;
use crate::screens::Action;
use crate::screens::Problem;
use crate::screens::ScreenKind;
use vstd::prelude::*;

verus! {

/// The rows of the grid: one for each day of the week.
pub const WEEKDAY_ROWS: usize = 7;

/// The columns of the grid: the weeks that a year can touch.
pub const WEEK_COLUMNS: usize = 53;

/// The last day of the year that the grid shows.
pub const LAST_DAY: u32 = 365;

/// How strongly a cell is coloured.
#[derive(Clone, Copy, Debug, PartialEq, Eq, Structural)]
pub enum Tier {
    Neutral,
    Light,
    Bright,
}

/// One day of the year with the number of entries that fell on it.
#[derive(Clone, Copy, Debug, PartialEq, Eq, Structural)]
pub struct HeatmapCell {
    pub day_of_year: u32,
    pub occurrence_count: usize,
}

/// The heatmap screen: the day of the year of every entry whose timestamp
/// could be read, and the weekday on which the year begins.
#[derive(Clone, Debug, PartialEq, Eq)]
pub struct GraphScreen {
    pub days: Vec<u32>,
    pub offset: i32,
    pub current_year: i32,
}

/// The day of the year that the cell in column `week_index` and row
/// `day_of_week` stands for, in a year that begins `offset` days after a
/// Monday. The number may fall outside the year: such a cell is blank.
pub open spec fn cell_day(week_index: int, day_of_week: int, offset: int) -> int {
    week_index * 7 + day_of_week - offset + 1
}

/// Holds for the days that the grid shows.
pub open spec fn in_year(day: int) -> bool {
    1 <= day <= LAST_DAY
}

/// How many of `days` are the day `day`.
pub open spec fn occurrences(days: Seq<u32>, day: int) -> nat
    decreases days.len(),
{
    if days.len() == 0 {
        0
    } else {
        let before = occurrences(days.drop_last(), day);
        if days.last() == day {
            before + 1
        } else {
            before
        }
    }
}

/// The day of the year of each entry of `problems` whose timestamp can be
/// read, in the order of the entries. An entry with an unreadable timestamp
/// is left out.
pub open spec fn entry_days(problems: Seq<Problem>) -> Seq<u32>
    decreases problems.len(),
{
    if problems.len() == 0 {
        Seq::empty()
    } else {
        let before = entry_days(problems.drop_last());
        match timestamp_ordinal(problems.last().entry_date@) {
            Some(day) => before.push(day),
            None => before,
        }
    }
}

/// The colour of a day with `count` entries. One entry is light and two are
/// bright; a day with more than two is coloured like a day with none.
pub open spec fn tier(count: nat) -> Tier {
    if count == 1 {
        Tier::Light
    } else if count == 2 {
        Tier::Bright
    } else {
        Tier::Neutral
    }
}

/// What the grid holds in column `week_index` of row `day_of_week`: nothing
/// where the cell's day lies outside the year, else that day with the number
/// of entries on it.
pub open spec fn cell_at(days: Seq<u32>, offset: int, day_of_week: int, week_index: int) -> Option<
    HeatmapCell,
> {
    let day = cell_day(week_index, day_of_week, offset);
    if in_year(day) {
        Some(
            HeatmapCell {
                day_of_year: day as u32,
                occurrence_count: occurrences(days, day) as usize,
            },
        )
    } else {
        None
    }
}

/// The weekday of the first of January of `year`, as days after Monday.
pub fn get_offset(year: i32) -> (offset: Option<u32>)
    ensures
        offset == days_from_monday(year as int, 1, 1),
        offset matches Some(d) ==> d <= 6,
        MIN_YEAR <= year <= MAX_YEAR ==> offset is Some,
{
    weekday_of_date(year, 1, 1)
}

/// Computes [`cell_day`].
pub fn day_of_cell(week_index: i32, day_of_week: i32, offset: i32) -> (day: i64)
    ensures
        day == cell_day(week_index as int, day_of_week as int, offset as int),
{
    let week: i64 = week_index as i64;
    let weekday: i64 = day_of_week as i64;
    let shift: i64 = offset as i64;
    week * 7 + weekday - shift + 1
}

/// Computes [`tier`].
pub fn tier_of(count: usize) -> (colour: Tier)
    ensures
        colour == tier(count as nat),
{
    if count == 1 {
        Tier::Light
    } else if count == 2 {
        Tier::Bright
    } else {
        Tier::Neutral
    }
}

/// Counts the entries of `days` that fell on `day`.
pub fn count_on_day(days: &Vec<u32>, day: u32) -> (count: usize)
    ensures
        count == occurrences(days@, day as int),
{
    let mut count: usize = 0;
    let mut i: usize = 0;
    while i < days.len()
        invariant
            i <= days.len(),
            count <= i,
            count == occurrences(days@.take(i as int), day as int),
        decreases days.len() - i,
    {
        proof {
            let next = days@.take(i + 1);
            assert(next.drop_last() == days@.take(i as int));
            assert(next.last() == days@[i as int]);
        }
        if days[i] == day {
            count = count + 1;
        }
        i = i + 1;
    }
    proof {
        assert(days@.take(i as int) == days@);
    }
    count
}

/// Reads the timestamp of each entry and keeps the day of the year of those
/// that can be read.
pub fn days_of_entries(problems: &Vec<Problem>) -> (days: Vec<u32>)
    ensures
        days@ == entry_days(problems@),
        forall|k: int| 0 <= k < days@.len() ==> 1 <= #[trigger] days@[k] <= 366,
{
    let mut days: Vec<u32> = Vec::new();
    let mut i: usize = 0;
    while i < problems.len()
        invariant
            i <= problems.len(),
            days@ == entry_days(problems@.take(i as int)),
            forall|k: int| 0 <= k < days@.len() ==> 1 <= #[trigger] days@[k] <= 366,
        decreases problems.len() - i,
    {
        proof {
            let next = problems@.take(i + 1);
            assert(next.drop_last() == problems@.take(i as int));
            assert(next.last() == problems@[i as int]);
        }
        match parse_timestamp_ordinal(problems[i].entry_date.as_str()) {
            Some(day) => {
                days.push(day);
            },
            None => {},
        }
        i = i + 1;
    }
    proof {
        assert(problems@.take(i as int) == problems@);
    }
    days
}

impl HeatmapCell {
    /// The colour of this cell.
    pub fn tier(&self) -> (colour: Tier)
        ensures
            colour == tier(self.occurrence_count as nat),
    {
        tier_of(self.occurrence_count)
    }
}

impl GraphScreen {
    /// Holds when the year begins on a weekday: `offset` is 0 for a Monday
    /// and at most 6, for a Sunday.
    pub open spec fn well_formed(&self) -> bool {
        0 <= self.offset <= 6
    }

    /// Computes [`Self::well_formed`].
    pub fn is_well_formed(&self) -> (ok: bool)
        ensures
            ok == self.well_formed(),
    {
        0 <= self.offset && self.offset <= 6
    }

    /// The heatmap of `current_year` over the entries `problems`, which the
    /// caller has read from the store. There is one exactly where the
    /// calendar knows the year.
    pub fn new(problems: &Vec<Problem>, current_year: i32) -> (screen: Option<GraphScreen>)
        ensures
            screen is Some <==> days_from_monday(current_year as int, 1, 1) is Some,
            MIN_YEAR <= current_year <= MAX_YEAR ==> screen is Some,
            screen matches Some(graph) ==> {
                &&& graph.well_formed()
                &&& graph.days@ == entry_days(problems@)
                &&& Some(graph.offset as u32) == days_from_monday(current_year as int, 1, 1)
                &&& graph.current_year == current_year
            },
    {
        match get_offset(current_year) {
            Some(offset) => {
                let days = days_of_entries(problems);
                Some(GraphScreen { days, offset: offset as i32, current_year })
            },
            None => None,
        }
    }

    /// What the grid holds in column `week_index` of row `day_of_week`.
    pub fn cell(&self, day_of_week: i32, week_index: i32) -> (cell: Option<HeatmapCell>)
        ensures
            cell == cell_at(self.days@, self.offset as int, day_of_week as int, week_index as int),
    {
        let day = day_of_cell(week_index, day_of_week, self.offset);
        if day <= 0 || day > LAST_DAY as i64 {
            None
        } else {
            let day_of_year: u32 = day as u32;
            let occurrence_count = count_on_day(&self.days, day_of_year);
            Some(HeatmapCell { day_of_year, occurrence_count })
        }
    }

    /// One row of the grid: the cells of weekday `day_of_week`, week by week.
    pub fn row(&self, day_of_week: i32) -> (cells: Vec<Option<HeatmapCell>>)
        ensures
            cells@.len() == WEEK_COLUMNS,
            forall|w: int|
                0 <= w < WEEK_COLUMNS ==> #[trigger] cells@[w] == cell_at(
                    self.days@,
                    self.offset as int,
                    day_of_week as int,
                    w,
                ),
    {
        let mut cells: Vec<Option<HeatmapCell>> = Vec::new();
        let mut week: i32 = 0;
        while week < WEEK_COLUMNS as i32
            invariant
                0 <= week <= WEEK_COLUMNS,
                cells@.len() == week,
                forall|w: int|
                    0 <= w < week ==> #[trigger] cells@[w] == cell_at(
                        self.days@,
                        self.offset as int,
                        day_of_week as int,
                        w,
                    ),
            decreases WEEK_COLUMNS - week,
        {
            cells.push(self.cell(day_of_week, week));
            week = week + 1;
        }
        cells
    }

    /// The whole grid: seven rows of fifty-three cells, row `d` and column
    /// `w` holding the cell of weekday `d` in week `w`.
    pub fn grid(&self) -> (rows: Vec<Vec<Option<HeatmapCell>>>)
        ensures
            rows@.len() == WEEKDAY_ROWS,
            forall|d: int| 0 <= d < WEEKDAY_ROWS ==> (#[trigger] rows@[d])@.len() == WEEK_COLUMNS,
            forall|d: int, w: int|
                0 <= d < WEEKDAY_ROWS && 0 <= w < WEEK_COLUMNS ==> #[trigger] rows@[d]@[w]
                    == cell_at(self.days@, self.offset as int, d, w),
    {
        let mut rows: Vec<Vec<Option<HeatmapCell>>> = Vec::new();
        let mut weekday: i32 = 0;
        while weekday < WEEKDAY_ROWS as i32
            invariant
                0 <= weekday <= WEEKDAY_ROWS,
                rows@.len() == weekday,
                forall|d: int| 0 <= d < weekday ==> (#[trigger] rows@[d])@.len() == WEEK_COLUMNS,
                forall|d: int, w: int|
                    0 <= d < weekday && 0 <= w < WEEK_COLUMNS ==> #[trigger] rows@[d]@[w]
                        == cell_at(self.days@, self.offset as int, d, w),
            decreases WEEKDAY_ROWS - weekday,
        {
            rows.push(self.row(weekday));
            weekday = weekday + 1;
        }
        rows
    }

    /// `Esc` leaves the graph; no other key does anything.
    pub fn handle_key_event(&mut self, key: Key) -> (action: Action)
        ensures
            action == interpretation(ScreenKind::Graph, key),
            *final(self) == *old(self),
    {
        interpret(ScreenKind::Graph, key)
    }
}

/// In a year that begins `offset` days after a Monday, the first column
/// holds the first of January in row `offset`: where the year begins on a
/// Wednesday, in row 2.
pub proof fn lemma_first_day_cell(offset: int)
    ensures
        cell_day(0, offset, offset) == 1,
        cell_day(0, 2, 2) == 1,
{
}

/// Each day of the year stands in one cell only: two cells with the same
/// day are the same cell.
pub proof fn lemma_cells_differ(offset: int, d1: int, w1: int, d2: int, w2: int)
    requires
        0 <= d1 < 7,
        0 <= d2 < 7,
        cell_day(w1, d1, offset) == cell_day(w2, d2, offset),
    ensures
        d1 == d2,
        w1 == w2,
{
}

/// Counting over two lists of days, one after the other, adds the counts.
pub proof fn lemma_occurrences_add(first: Seq<u32>, second: Seq<u32>, day: int)
    ensures
        occurrences(first + second, day) == occurrences(first, day) + occurrences(second, day),
    decreases second.len(),
{
    if second.len() == 0 {
        assert(first + second == first);
    } else {
        lemma_occurrences_add(first, second.drop_last(), day);
        assert((first + second).drop_last() == first + second.drop_last());
        assert((first + second).last() == second.last());
    }
}

/// A day on which no entry fell has the count 0.
pub proof fn lemma_absent_day_counts_zero(days: Seq<u32>, day: int)
    requires
        forall|k: int| 0 <= k < days.len() ==> days[k] != day,
    ensures
        occurrences(days, day) == 0,
    decreases days.len(),
{
    if days.len() > 0 {
        lemma_absent_day_counts_zero(days.drop_last(), day);
    }
}

/// Where every entry fell on the day `day`, the count of that day is the
/// number of entries.
pub proof fn lemma_same_day_counts_all(days: Seq<u32>, day: int)
    requires
        forall|k: int| 0 <= k < days.len() ==> days[k] == day,
    ensures
        occurrences(days, day) == days.len(),
    decreases days.len(),
{
    if days.len() > 0 {
        lemma_same_day_counts_all(days.drop_last(), day);
    }
}

/// Entries whose timestamps can all be read give one day each.
pub proof fn lemma_entry_days_all_read(problems: Seq<Problem>)
    requires
        forall|k: int|
            0 <= k < problems.len() ==> timestamp_ordinal(
                #[trigger] problems[k].entry_date@,
            ) is Some,
    ensures
        entry_days(problems).len() == problems.len(),
        forall|k: int|
            0 <= k < problems.len() ==> Some(#[trigger] entry_days(problems)[k])
                == timestamp_ordinal(problems[k].entry_date@),
    decreases problems.len(),
{
    if problems.len() > 0 {
        lemma_entry_days_all_read(problems.drop_last());
    }
}

/// Three entries stamped on one day of the year give that day's cell the
/// count 3, and the cell of any other day of the year the count 0.
pub proof fn lemma_three_entries_on_one_day(
    problems: Seq<Problem>,
    day: u32,
    offset: int,
    day_of_week: int,
    week_index: int,
)
    requires
        problems.len() == 3,
        forall|k: int|
            0 <= k < 3 ==> timestamp_ordinal(#[trigger] problems[k].entry_date@) == Some(day),
        in_year(cell_day(week_index, day_of_week, offset)),
    ensures
        cell_day(week_index, day_of_week, offset) == day ==> cell_at(
            entry_days(problems),
            offset,
            day_of_week,
            week_index,
        ) == Some(HeatmapCell { day_of_year: day, occurrence_count: 3 }),
        cell_day(week_index, day_of_week, offset) != day ==> cell_at(
            entry_days(problems),
            offset,
            day_of_week,
            week_index,
        ) == Some(
            HeatmapCell {
                day_of_year: cell_day(week_index, day_of_week, offset) as u32,
                occurrence_count: 0,
            },
        ),
{
    lemma_entry_days_all_read(problems);
    let days = entry_days(problems);
    let here = cell_day(week_index, day_of_week, offset);
    if here == day {
        lemma_same_day_counts_all(days, day as int);
    } else {
        lemma_absent_day_counts_zero(days, here);
    }
}

} // verus!
