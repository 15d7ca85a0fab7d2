//! What the chart of a metric is drawn from: its points, the bounds of its
//! time axis, and the labels of that axis.

use crate::metrics::MetricPoint;
use crate::text::{digit_char, digit_text};
use std::collections::VecDeque;
use vstd::prelude::*;
use vstd::std_specs::vecdeque::VecDequeAdditionalSpecFns;
use vstd::string::StringExecFns;

verus! {

/// The data of one chart.
#[derive(Clone, Debug, PartialEq, Eq)]
pub struct Chart {
    /// The metric charted.
    pub name: String,
    /// Its points, in the order they arrived.
    pub points: Vec<MetricPoint>,
    /// Where the time axis begins: the time of the first point.
    pub time_min: u64,
    /// The middle tick of the time axis.
    pub time_mid: u64,
    /// Where the time axis ends: the time of the last point.
    pub time_max: u64,
}

pub struct ChartView {
    pub name: Seq<char>,
    pub points: Seq<MetricPoint>,
    pub time_min: u64,
    pub time_mid: u64,
    pub time_max: u64,
}

impl DeepView for Chart {
    type V = ChartView;

    open spec fn deep_view(&self) -> ChartView {
        ChartView {
            name: self.name@,
            points: self.points@,
            time_min: self.time_min,
            time_mid: self.time_mid,
            time_max: self.time_max,
        }
    }
}

/// The chart of a series: none for an empty one. The series is taken in the
/// order of arrival, so the axis runs from its first point to its last,
/// whichever is the later.
pub open spec fn chart_of(name: Seq<char>, points: Seq<MetricPoint>) -> Option<ChartView> {
    if points.len() == 0 {
        None
    } else {
        Some(
            ChartView {
                name,
                points,
                time_min: points.first().timestamp,
                time_mid: midpoint(points.first().timestamp, points.last().timestamp),
                time_max: points.last().timestamp,
            },
        )
    }
}

/// The point halfway between two times, rounded down.
pub open spec fn midpoint(a: u64, b: u64) -> u64 {
    ((a + b) / 2) as u64
}

/// The second of the day at `timestamp`, on a clock that is `utc_offset`
/// seconds ahead of UTC.
pub open spec fn second_of_day(timestamp: u64, utc_offset: i32) -> int {
    (timestamp + utc_offset) % 86_400
}

/// A number below a hundred in two digits.
pub open spec fn two_digits(n: int) -> Seq<char> {
    seq![digit_char((n / 10) as nat), digit_char((n % 10) as nat)]
}

/// The clock reading `HH:MM:SS` of a second of the day.
pub open spec fn clock_text(second: int) -> Seq<char> {
    two_digits(second / 3_600) + ":"@ + two_digits(second / 60 % 60) + ":"@ + two_digits(
        second % 60,
    )
}

/// Computes the point halfway between two times.
pub fn midpoint_of(a: u64, b: u64) -> (mid: u64)
    ensures
        mid == midpoint(a, b),
{
    a / 2 + b / 2 + (a % 2 + b % 2) / 2
}

fn push_two_digits(text: &mut String, n: u64)
    requires
        n < 100,
    ensures
        final(text)@ == old(text)@ + two_digits(n as int),
{
    text.append(digit_text(n / 10));
    text.append(digit_text(n % 10));
}

/// The label of a tick of the time axis: the time of day at `timestamp`, as
/// `HH:MM:SS`, on a clock that is `utc_offset` seconds ahead of UTC.
pub fn time_label(timestamp: u64, utc_offset: i32) -> (label: String)
    ensures
        label@ == clock_text(second_of_day(timestamp, utc_offset)),
{
    // A whole number of days, large enough to lift any offset above zero.
    let lifted: u64 = (utc_offset as i64 + 2_147_558_400) as u64;
    let second: u64 = (timestamp % 86_400 + lifted % 86_400) % 86_400;
    assert(second == second_of_day(timestamp, utc_offset)) by {
        assert(2_147_558_400int == 86_400 * 24_856);
    }
    let mut label = String::new();
    push_two_digits(&mut label, second / 3_600);
    label.append(":");
    push_two_digits(&mut label, second / 60 % 60);
    label.append(":");
    push_two_digits(&mut label, second % 60);
    label
}

/// Copies a series out of its buffer, oldest point first.
pub fn copy_points(points: &VecDeque<MetricPoint>) -> (copy: Vec<MetricPoint>)
    ensures
        copy@ == points@,
{
    let mut copy: Vec<MetricPoint> = Vec::new();
    let mut i: usize = 0;
    while i < points.len()
        invariant
            i <= points.len(),
            copy.len() == i,
            forall|k: int| 0 <= k < i ==> copy[k] == points[k],
        decreases points.len() - i,
    {
        copy.push(points[i]);
        i += 1;
    }
    copy
}

/// Builds the chart of the series `points` of the metric `name`: none for an
/// empty series.
pub fn chart_from(name: &String, points: &VecDeque<MetricPoint>) -> (chart: Option<Chart>)
    ensures
        chart.deep_view() == chart_of(name@, points@),
{
    if points.len() == 0 {
        None
    } else {
        let first = points[0].timestamp;
        let last = points[points.len() - 1].timestamp;
        Some(
            Chart {
                name: name.clone(),
                points: copy_points(points),
                time_min: first,
                time_mid: midpoint_of(first, last),
                time_max: last,
            },
        )
    }
}

} // verus!
