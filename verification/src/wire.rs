//! The shape of one exported metric, reduced to what the dashboard reads,
//! and the extraction of its readings.
//!
//! A numeric reading is carried as the bit pattern of an IEEE 754 double, and
//! arrives together with its printed form: the library never computes on the
//! number itself, it only passes it on.

use crate::text::{decimal, decimal_digits};
use vstd::prelude::*;
use vstd::string::StringExecFns;

verus! {

/// One point of a gauge or of a sum.
#[derive(Clone, Debug, PartialEq, Eq)]
pub struct NumberDataPoint {
    /// The reading, as the bits of a double; `None` where the point has none.
    pub value: Option<u64>,
    /// The reading as it is to be shown.
    pub rendering: String,
}

/// One point of a histogram.
#[derive(Clone, Debug, PartialEq, Eq)]
pub struct HistogramDataPoint {
    /// How many observations the point summarises.
    pub count: u64,
    /// Their sum, as the bits of a double; `None` where the point has none.
    pub sum: Option<u64>,
    /// The sum as it is to be shown.
    pub rendering: String,
}

/// What a metric carries, by kind.
#[derive(Clone, Debug, PartialEq, Eq)]
pub enum MetricData {
    Gauge(Vec<NumberDataPoint>),
    Sum(Vec<NumberDataPoint>),
    Histogram(Vec<HistogramDataPoint>),
    /// Any other kind, or no data at all: ignored.
    Other,
}

/// One metric of an exported batch.
#[derive(Clone, Debug, PartialEq, Eq)]
pub struct Metric {
    pub name: String,
    pub data: MetricData,
}

/// What extraction yields for one data point.
#[derive(Clone, Debug, PartialEq, Eq)]
pub struct Reading {
    /// The value to chart, as the bits of a double.
    pub value: Option<u64>,
    /// The text that describes the point.
    pub text: String,
}

pub struct NumberDataPointView {
    pub value: Option<u64>,
    pub rendering: Seq<char>,
}

pub struct HistogramDataPointView {
    pub count: u64,
    pub sum: Option<u64>,
    pub rendering: Seq<char>,
}

pub enum MetricDataView {
    Gauge(Seq<NumberDataPointView>),
    Sum(Seq<NumberDataPointView>),
    Histogram(Seq<HistogramDataPointView>),
    Other,
}

pub struct MetricView {
    pub name: Seq<char>,
    pub data: MetricDataView,
}

pub struct ReadingView {
    pub value: Option<u64>,
    pub text: Seq<char>,
}

impl DeepView for NumberDataPoint {
    type V = NumberDataPointView;

    open spec fn deep_view(&self) -> NumberDataPointView {
        NumberDataPointView { value: self.value, rendering: self.rendering@ }
    }
}

impl DeepView for HistogramDataPoint {
    type V = HistogramDataPointView;

    open spec fn deep_view(&self) -> HistogramDataPointView {
        HistogramDataPointView { count: self.count, sum: self.sum, rendering: self.rendering@ }
    }
}

impl DeepView for MetricData {
    type V = MetricDataView;

    open spec fn deep_view(&self) -> MetricDataView {
        match self {
            MetricData::Gauge(points) => MetricDataView::Gauge(points.deep_view()),
            MetricData::Sum(points) => MetricDataView::Sum(points.deep_view()),
            MetricData::Histogram(points) => MetricDataView::Histogram(points.deep_view()),
            MetricData::Other => MetricDataView::Other,
        }
    }
}

impl DeepView for Metric {
    type V = MetricView;

    open spec fn deep_view(&self) -> MetricView {
        MetricView { name: self.name@, data: self.data.deep_view() }
    }
}

impl DeepView for Reading {
    type V = ReadingView;

    open spec fn deep_view(&self) -> ReadingView {
        ReadingView { value: self.value, text: self.text@ }
    }
}

/// The text of a gauge or sum point: an equals sign, then the reading.
pub open spec fn number_text(rendering: Seq<char>) -> Seq<char> {
    "= "@ + rendering
}

/// The text of a histogram point: its count in decimal, then its sum.
pub open spec fn histogram_text(count: u64, rendering: Seq<char>) -> Seq<char> {
    "count: "@ + decimal_digits(count as nat) + ", sum: "@ + rendering
}

/// The reading of a gauge or sum point: the point's own value.
pub open spec fn number_reading(point: NumberDataPointView) -> ReadingView {
    ReadingView { value: point.value, text: number_text(point.rendering) }
}

/// The reading of a histogram point: the sum of its observations, not their
/// mean.
pub open spec fn histogram_reading(point: HistogramDataPointView) -> ReadingView {
    ReadingView { value: point.sum, text: histogram_text(point.count, point.rendering) }
}

/// The readings of a metric: one for each data point, in the order of the
/// points; none for a metric of another kind.
pub open spec fn readings_of(metric: MetricView) -> Seq<ReadingView> {
    match metric.data {
        MetricDataView::Gauge(points) => points.map_values(|p| number_reading(p)),
        MetricDataView::Sum(points) => points.map_values(|p| number_reading(p)),
        MetricDataView::Histogram(points) => points.map_values(|p| histogram_reading(p)),
        MetricDataView::Other => Seq::empty(),
    }
}

/// Extraction keeps one reading per data point.
pub proof fn lemma_readings_len(metric: MetricView)
    ensures
        readings_of(metric).len() == match metric.data {
            MetricDataView::Gauge(points) => points.len(),
            MetricDataView::Sum(points) => points.len(),
            MetricDataView::Histogram(points) => points.len(),
            MetricDataView::Other => 0,
        },
{
}

/// Reads one gauge or sum point.
pub fn read_number_point(point: &NumberDataPoint) -> (reading: Reading)
    ensures
        reading.deep_view() == number_reading(point.deep_view()),
{
    let mut text = String::from_str("= ");
    text.append(point.rendering.as_str());
    Reading { value: point.value, text }
}

/// Reads one histogram point.
pub fn read_histogram_point(point: &HistogramDataPoint) -> (reading: Reading)
    ensures
        reading.deep_view() == histogram_reading(point.deep_view()),
{
    let mut text = String::from_str("count: ");
    let count = decimal(point.count);
    text.append(count.as_str());
    text.append(", sum: ");
    text.append(point.rendering.as_str());
    Reading { value: point.sum, text }
}

fn read_number_points(points: &Vec<NumberDataPoint>) -> (readings: Vec<Reading>)
    ensures
        readings.deep_view() == points.deep_view().map_values(|p| number_reading(p)),
{
    let mut readings: Vec<Reading> = Vec::new();
    let mut i: usize = 0;
    while i < points.len()
        invariant
            i <= points.len(),
            readings.len() == i,
            forall|k: int|
                0 <= k < i ==> (#[trigger] readings[k]).deep_view() == number_reading(
                    points[k].deep_view(),
                ),
        decreases points.len() - i,
    {
        readings.push(read_number_point(&points[i]));
        i += 1;
    }
    readings
}

fn read_histogram_points(points: &Vec<HistogramDataPoint>) -> (readings: Vec<Reading>)
    ensures
        readings.deep_view() == points.deep_view().map_values(|p| histogram_reading(p)),
{
    let mut readings: Vec<Reading> = Vec::new();
    let mut i: usize = 0;
    while i < points.len()
        invariant
            i <= points.len(),
            readings.len() == i,
            forall|k: int|
                0 <= k < i ==> (#[trigger] readings[k]).deep_view() == histogram_reading(
                    points[k].deep_view(),
                ),
        decreases points.len() - i,
    {
        readings.push(read_histogram_point(&points[i]));
        i += 1;
    }
    readings
}

/// Extracts the readings of one metric.
pub fn extract_readings(metric: &Metric) -> (readings: Vec<Reading>)
    ensures
        readings.deep_view() == readings_of(metric.deep_view()),
{
    match &metric.data {
        MetricData::Gauge(points) => read_number_points(points),
        MetricData::Sum(points) => read_number_points(points),
        MetricData::Histogram(points) => read_histogram_points(points),
        MetricData::Other => {
            let readings: Vec<Reading> = Vec::new();
            readings
        },
    }
}

} // verus!
