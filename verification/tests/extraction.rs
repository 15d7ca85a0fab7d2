use otel_cli::wire::{
    extract_readings, read_histogram_point, read_number_point, HistogramDataPoint, Metric,
    MetricData, NumberDataPoint, Reading,
};

fn number(value: f64) -> NumberDataPoint {
    NumberDataPoint { value: Some(value.to_bits()), rendering: format!("{:?}", value) }
}

#[test]
fn a_gauge_point_reads_as_its_value() {
    let reading = read_number_point(&number(21.5));
    assert_eq!(reading, Reading { value: Some(21.5f64.to_bits()), text: "= 21.5".to_string() });
}

#[test]
fn a_point_without_a_value_still_has_its_text() {
    let point = NumberDataPoint { value: None, rendering: "None".to_string() };
    let reading = read_number_point(&point);
    assert_eq!(reading, Reading { value: None, text: "= None".to_string() });
}

#[test]
fn a_histogram_point_reads_as_its_sum() {
    let point = HistogramDataPoint {
        count: 5,
        sum: Some(12.0f64.to_bits()),
        rendering: "12.0".to_string(),
    };
    let reading = read_histogram_point(&point);
    assert_eq!(reading.value, Some(12.0f64.to_bits()));
    assert_eq!(reading.text, "count: 5, sum: 12.0");
}

#[test]
fn a_histogram_point_is_not_averaged() {
    let point = HistogramDataPoint {
        count: 4,
        sum: Some(10.0f64.to_bits()),
        rendering: "10.0".to_string(),
    };
    let reading = read_histogram_point(&point);
    assert_eq!(f64::from_bits(reading.value.unwrap()), 10.0);
    assert_ne!(f64::from_bits(reading.value.unwrap()), 2.5);
}

#[test]
fn a_gauge_yields_one_reading_per_point_in_order() {
    let metric = Metric {
        name: "temp".to_string(),
        data: MetricData::Gauge(vec![number(1.0), number(2.0), number(3.0)]),
    };
    let readings = extract_readings(&metric);
    assert_eq!(
        readings,
        vec![
            Reading { value: Some(1.0f64.to_bits()), text: "= 1.0".to_string() },
            Reading { value: Some(2.0f64.to_bits()), text: "= 2.0".to_string() },
            Reading { value: Some(3.0f64.to_bits()), text: "= 3.0".to_string() },
        ]
    );
}

#[test]
fn a_sum_reads_like_a_gauge() {
    let points = vec![number(7.0), number(-0.5)];
    let gauge = Metric { name: "m".to_string(), data: MetricData::Gauge(points.clone()) };
    let sum = Metric { name: "m".to_string(), data: MetricData::Sum(points) };
    assert_eq!(extract_readings(&gauge), extract_readings(&sum));
    assert_eq!(extract_readings(&sum).len(), 2);
}

#[test]
fn a_histogram_yields_one_reading_per_point() {
    let metric = Metric {
        name: "latency".to_string(),
        data: MetricData::Histogram(vec![
            HistogramDataPoint { count: 0, sum: None, rendering: "None".to_string() },
            HistogramDataPoint {
                count: 18446744073709551615,
                sum: Some(1.5f64.to_bits()),
                rendering: "Some(1.5)".to_string(),
            },
        ]),
    };
    let readings = extract_readings(&metric);
    assert_eq!(
        readings,
        vec![
            Reading { value: None, text: "count: 0, sum: None".to_string() },
            Reading {
                value: Some(1.5f64.to_bits()),
                text: "count: 18446744073709551615, sum: Some(1.5)".to_string(),
            },
        ]
    );
}

#[test]
fn another_kind_yields_nothing() {
    let metric = Metric { name: "summary".to_string(), data: MetricData::Other };
    assert!(extract_readings(&metric).is_empty());
}

#[test]
fn an_empty_gauge_yields_nothing() {
    let metric = Metric { name: "temp".to_string(), data: MetricData::Gauge(Vec::new()) };
    assert!(extract_readings(&metric).is_empty());
}
