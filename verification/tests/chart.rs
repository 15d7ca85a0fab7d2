use chrono::{FixedOffset, TimeZone, Timelike, Utc};
use otel_cli::chart::{chart_from, copy_points, midpoint_of, time_label, Chart};
use otel_cli::metrics::MetricPoint;
use std::collections::VecDeque;

fn point(timestamp: u64, value: f64) -> MetricPoint {
    MetricPoint { timestamp, value: value.to_bits() }
}

#[test]
fn midpoint_rounds_down() {
    assert_eq!(midpoint_of(0, 0), 0);
    assert_eq!(midpoint_of(10, 20), 15);
    assert_eq!(midpoint_of(10, 21), 15);
    assert_eq!(midpoint_of(11, 21), 16);
    assert_eq!(midpoint_of(20, 10), 15);
    assert_eq!(midpoint_of(u64::MAX, u64::MAX), u64::MAX);
    assert_eq!(midpoint_of(u64::MAX, 0), u64::MAX / 2);
}

#[test]
fn time_label_reads_the_clock_at_utc() {
    assert_eq!(time_label(0, 0), "00:00:00");
    assert_eq!(time_label(59, 0), "00:00:59");
    assert_eq!(time_label(3661, 0), "01:01:01");
    assert_eq!(time_label(86399, 0), "23:59:59");
    assert_eq!(time_label(86400, 0), "00:00:00");
    assert_eq!(time_label(1700000000, 0), "22:13:20");
}

#[test]
fn time_label_shifts_by_the_offset() {
    assert_eq!(time_label(1700000000, 3600), "23:13:20");
    assert_eq!(time_label(1700000000, 7200), "00:13:20");
    assert_eq!(time_label(1700000000, -18000), "17:13:20");
    assert_eq!(time_label(0, -1), "23:59:59");
    assert_eq!(time_label(0, 19800), "05:30:00");
}

#[test]
fn time_label_takes_every_input() {
    assert_eq!(time_label(u64::MAX, 0), "07:00:15");
    assert_eq!(time_label(u64::MAX, i32::MAX), "10:14:22");
    assert_eq!(time_label(0, i32::MIN), "20:45:52");
    assert_eq!(time_label(0, i32::MAX), "03:14:07");
}

#[test]
fn copy_points_keeps_the_order() {
    let mut points = VecDeque::new();
    points.push_back(point(3, 1.0));
    points.push_front(point(2, 0.5));
    points.push_back(point(4, 2.0));
    assert_eq!(copy_points(&points), vec![point(2, 0.5), point(3, 1.0), point(4, 2.0)]);
    assert!(copy_points(&VecDeque::new()).is_empty());
}

#[test]
fn an_empty_series_has_no_chart() {
    assert_eq!(chart_from(&"temp".to_string(), &VecDeque::new()), None);
}

#[test]
fn a_chart_runs_from_the_first_point_to_the_last() {
    let points = VecDeque::from(vec![point(100, 3.0), point(160, 1.0), point(131, 2.0)]);
    let chart = chart_from(&"temp".to_string(), &points).unwrap();
    assert_eq!(
        chart,
        Chart {
            name: "temp".to_string(),
            points: vec![point(100, 3.0), point(160, 1.0), point(131, 2.0)],
            time_min: 100,
            time_mid: 115,
            time_max: 131,
        }
    );
}

#[test]
fn a_chart_of_one_point_has_equal_bounds() {
    let points = VecDeque::from(vec![point(7, 1.0)]);
    let chart = chart_from(&"temp".to_string(), &points).unwrap();
    assert_eq!((chart.time_min, chart.time_mid, chart.time_max), (7, 7, 7));
}

#[test]
fn time_label_agrees_with_the_calendar() {
    let stamps: [i64; 8] =
        [0, 1, 86_399, 86_400, 951_782_400, 1_700_000_000, 2_147_483_647, 253_402_300_799];
    for stamp in stamps {
        let utc = Utc.timestamp_opt(stamp, 0).unwrap();
        assert_eq!(
            time_label(stamp as u64, 0),
            format!("{:02}:{:02}:{:02}", utc.hour(), utc.minute(), utc.second())
        );
        for offset in [-43_200, -18_000, -1, 0, 1, 3_600, 19_800, 50_400] {
            let local = FixedOffset::east_opt(offset).unwrap().timestamp_opt(stamp, 0).unwrap();
            assert_eq!(
                time_label(stamp as u64, offset),
                format!("{:02}:{:02}:{:02}", local.hour(), local.minute(), local.second()),
                "at {} with offset {}",
                stamp,
                offset
            );
        }
    }
}
