use btop::chart::{x_axis_labels, y_axis_bounds, zero_line};
use btop::{AxisBounds, AxisLabels, HistoryBuffer};

#[test]
fn bounds_add_the_clearance() {
    assert_eq!(
        y_axis_bounds(40, -20, 5),
        AxisBounds { lower: -25, middle: 10, upper: 45 }
    );
}

#[test]
fn bounds_start_at_zero_above_zero() {
    assert_eq!(
        y_axis_bounds(40, 20, 5),
        AxisBounds { lower: 0, middle: 22, upper: 45 }
    );
}

#[test]
fn bounds_of_zero_minimum_reach_below_zero() {
    assert_eq!(
        y_axis_bounds(40, 0, 5),
        AxisBounds { lower: -5, middle: 20, upper: 45 }
    );
}

#[test]
fn middle_rounds_down() {
    assert_eq!(y_axis_bounds(0, -3, 0).middle, -2);
    assert_eq!(y_axis_bounds(3, 1, 0).middle, 1);
    assert_eq!(y_axis_bounds(-1, -2, 0).middle, -2);
    assert_eq!(y_axis_bounds(-5, -5, 0).middle, -5);
}

#[test]
fn bounds_with_no_clearance_touch_the_extrema() {
    assert_eq!(
        y_axis_bounds(7, -7, 0),
        AxisBounds { lower: -7, middle: 0, upper: 7 }
    );
}

#[test]
fn labels_of_empty_history() {
    let history = HistoryBuffer::new(3).unwrap();
    assert_eq!(x_axis_labels(&history), AxisLabels { left: 0, mean: None, right: 0 });
}

#[test]
fn labels_of_history() {
    let mut history = HistoryBuffer::new(3).unwrap();
    for value in [4, -9, 6, 8] {
        history.push(value);
    }
    assert_eq!(
        x_axis_labels(&history),
        AxisLabels { left: -9, mean: Some(1), right: 8 }
    );
}

#[test]
fn labels_of_single_value() {
    let mut history = HistoryBuffer::new(3).unwrap();
    history.push(-13);
    assert_eq!(
        x_axis_labels(&history),
        AxisLabels { left: -13, mean: Some(-13), right: -13 }
    );
}

#[test]
fn zero_line_spans_the_capacity() {
    assert_eq!(zero_line(0), Vec::<(usize, i64)>::new());
    assert_eq!(zero_line(1), vec![(0, 0)]);
    assert_eq!(zero_line(4), vec![(0, 0), (1, 0), (2, 0), (3, 0)]);
}
