use crate::history::{mean_of, HistoryBuffer};
use vstd::prelude::*;

verus! {

/// The range of the chart's vertical axis, in milliwatts.
#[derive(Clone, Copy, Debug, PartialEq, Eq, Structural)]
pub struct AxisBounds {
    pub lower: i64,
    pub middle: i64,
    pub upper: i64,
}

/// The three labels under the chart, in milliwatts: the oldest value, the
/// mean of all values, and the newest value.
#[derive(Clone, Copy, Debug, PartialEq, Eq, Structural)]
pub struct AxisLabels {
    /// The oldest value held; zero while there is none.
    pub left: i64,
    /// The mean of the values held, rounded down; none while there is none.
    pub mean: Option<i64>,
    /// The newest value held; zero while there is none.
    pub right: i64,
}

/// The top of the axis: the largest value plus the clearance.
pub open spec fn upper_bound_of(max: i64, clearance: u32) -> int {
    max + clearance
}

/// The bottom of the axis: zero where even the smallest value is above zero,
/// else the smallest value less the clearance.
pub open spec fn lower_bound_of(min: i64, clearance: u32) -> int {
    if min > 0 {
        0
    } else {
        min - clearance
    }
}

/// The middle between `lower` and `upper`, rounded down.
pub open spec fn middle_of(lower: int, upper: int) -> int {
    (lower + upper) / 2
}

/// The range of the vertical axis for values between `min` and `max`. The
/// two ends must fit the integer type.
pub fn y_axis_bounds(max: i64, min: i64, clearance: u32) -> (b: AxisBounds)
    requires
        max + clearance <= i64::MAX,
        min - clearance >= i64::MIN,
    ensures
        b.upper == upper_bound_of(max, clearance),
        b.lower == lower_bound_of(min, clearance),
        b.middle == middle_of(b.lower as int, b.upper as int),
        min <= max ==> b.lower <= b.middle <= b.upper,
{
    let upper = max + clearance as i64;
    let lower = if min > 0 {
        0
    } else {
        min - clearance as i64
    };
    let sum = lower as i128 + upper as i128;
    let half = if sum >= 0 {
        sum / 2
    } else {
        (sum - 1) / 2
    };
    AxisBounds { lower, middle: half as i64, upper }
}

/// The labels under the chart for the values that `history` holds.
pub fn x_axis_labels(history: &HistoryBuffer) -> (labels: AxisLabels)
    ensures
        labels.left == if history@.len() == 0 {
            0
        } else {
            history@[0]
        },
        labels.right == if history@.len() == 0 {
            0
        } else {
            history@[history@.len() - 1]
        },
        labels.mean == if history@.len() == 0 {
            None
        } else {
            Some(mean_of(history@) as i64)
        },
{
    let left = match history.oldest() {
        Some(value) => value,
        None => 0,
    };
    let right = match history.newest() {
        Some(value) => value,
        None => 0,
    };
    AxisLabels { left, mean: history.mean(), right }
}

/// The points of the chart's zero line: one for each place of the history,
/// left to right, all at zero.
pub fn zero_line(capacity: usize) -> (line: Vec<(usize, i64)>)
    ensures
        line@.len() == capacity,
        forall|i: int| 0 <= i < capacity ==> #[trigger] line@[i] == (i as usize, 0i64),
{
    let mut line: Vec<(usize, i64)> = Vec::new();
    let mut i: usize = 0;
    while i < capacity
        invariant
            i <= capacity,
            line@.len() == i,
            forall|j: int| 0 <= j < i ==> #[trigger] line@[j] == (j as usize, 0i64),
        decreases capacity - i,
    {
        line.push((i, 0));
        i += 1;
    }
    line
}

} // verus!
