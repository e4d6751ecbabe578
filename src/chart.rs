use crate::calendar::{weekday, weekday_of};
use vstd::prelude::*;

verus! {

/// Days shown before the target day; the window spans twice that.
pub const HALF_WINDOW: i64 = 15;

/// Number of day columns drawn: days 0 to 30 of the window.
pub const COLUMNS: i64 = 31;

/// Every this many columns a day gets a date label.
pub const LABEL_EVERY: i64 = 5;

/// One day column of the chart.
#[derive(Clone, Copy, Debug, PartialEq, Eq, Structural)]
pub struct DayColumn {
    /// Day number of the column.
    pub day: i64,
    /// Day of the week, Monday 0 to Sunday 6.
    pub weekday: u32,
    /// The column of the target day, highlighted.
    pub is_target: bool,
    /// A Sunday, colored apart.
    pub is_sunday: bool,
    /// Whether the column carries a date label.
    pub labeled: bool,
}

/// The plain layout of the chart window around a target day.
#[derive(Clone, Debug)]
pub struct ChartPlan {
    /// Day number of `today + offset`.
    pub target_day: i64,
    /// Day number of the first column, 15 days before the target.
    pub start_day: i64,
    /// Days from the reference day to the first column.
    pub start_elapsed: i64,
    /// Columns 0 to 30.
    pub columns: Vec<DayColumn>,
}

/// The column `i` of the window starting at day `start` with target `target`.
pub open spec fn column_spec(start: int, target: int, i: int) -> DayColumn {
    DayColumn {
        day: (start + i) as i64,
        weekday: weekday_of(start + i) as u32,
        is_target: start + i == target,
        is_sunday: weekday_of(start + i) == 6,
        labeled: start + i == target || i % (LABEL_EVERY as int) == 0,
    }
}

/// `p` is the chart window for reference day `reference`, today `today` and
/// offset `offset`.
pub open spec fn is_plan(p: ChartPlan, reference: int, today: int, offset: int) -> bool {
    &&& p.target_day == today + offset
    &&& p.start_day == today + offset - HALF_WINDOW
    &&& p.start_elapsed == today + offset - HALF_WINDOW - reference
    &&& p.columns@.len() == COLUMNS
    &&& forall|i: int|
        0 <= i < COLUMNS ==> #[trigger] p.columns@[i] == column_spec(
            p.start_day as int,
            p.target_day as int,
            i,
        )
}

/// Lays out the 31 day columns of the window centred on `today + offset`.
pub fn plan_chart(reference: i32, today: i32, offset: i32) -> (r: ChartPlan)
    ensures
        is_plan(r, reference as int, today as int, offset as int),
{
    let target: i64 = today as i64 + offset as i64;
    let start: i64 = target - HALF_WINDOW;
    let mut columns: Vec<DayColumn> = Vec::new();
    let mut i: i64 = 0;
    while i < COLUMNS
        invariant
            0 <= i <= COLUMNS,
            target == today + offset,
            start == target - HALF_WINDOW,
            columns@.len() == i,
            forall|k: int|
                0 <= k < i ==> #[trigger] columns@[k] == column_spec(
                    start as int,
                    target as int,
                    k,
                ),
        decreases COLUMNS - i,
    {
        let day = start + i;
        let wd = weekday(day);
        columns.push(
            DayColumn {
                day,
                weekday: wd,
                is_target: day == target,
                is_sunday: wd == 6,
                labeled: day == target || i % LABEL_EVERY == 0,
            },
        );
        i = i + 1;
    }
    ChartPlan {
        target_day: target,
        start_day: start,
        start_elapsed: start - reference as i64,
        columns,
    }
}

} // verus!
