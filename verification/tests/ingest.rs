use otel_cli::metrics::{
    datapoint_message, reading_messages, update_message, MetricPoint, MetricsReceiver, UiMessage,
};
use otel_cli::wire::{HistogramDataPoint, Metric, MetricData, NumberDataPoint, Reading};
use std::sync::Arc;
use std::time::{SystemTime, UNIX_EPOCH};
use tokio::sync::mpsc::{unbounded_channel, UnboundedReceiver};

fn gauge(name: &str, values: &[f64]) -> Metric {
    Metric {
        name: name.to_string(),
        data: MetricData::Gauge(
            values
                .iter()
                .map(|v| NumberDataPoint {
                    value: Some(v.to_bits()),
                    rendering: format!("{:?}", v),
                })
                .collect(),
        ),
    }
}

fn drain(rx: &mut UnboundedReceiver<UiMessage>) -> Vec<UiMessage> {
    let mut received = Vec::new();
    while let Ok(message) = rx.try_recv() {
        received.push(message);
    }
    received
}

fn now() -> u64 {
    SystemTime::now().duration_since(UNIX_EPOCH).unwrap().as_secs()
}

fn announcements(messages: &[UiMessage], name: &str) -> usize {
    messages.iter().filter(|m| **m == UiMessage::NewMetric(name.to_string())).count()
}

#[test]
fn update_message_joins_name_and_details() {
    assert_eq!(
        update_message("temp", "= 21.5"),
        UiMessage::MetricUpdate("temp: = 21.5".to_string())
    );
    assert_eq!(update_message("", ""), UiMessage::MetricUpdate(": ".to_string()));
}

#[test]
fn datapoint_message_carries_time_and_value() {
    assert_eq!(
        datapoint_message("temp", 1700000000, 21.5f64.to_bits()),
        UiMessage::MetricDataPoint {
            name: "temp".to_string(),
            point: MetricPoint { timestamp: 1700000000, value: 21.5f64.to_bits() },
        }
    );
}

#[test]
fn a_reading_with_a_value_gives_point_then_update() {
    let reading = Reading { value: Some(3.0f64.to_bits()), text: "= 3.0".to_string() };
    assert_eq!(
        reading_messages("load", &reading, 42),
        vec![
            UiMessage::MetricDataPoint {
                name: "load".to_string(),
                point: MetricPoint { timestamp: 42, value: 3.0f64.to_bits() },
            },
            UiMessage::MetricUpdate("load: = 3.0".to_string()),
        ]
    );
}

#[test]
fn a_reading_without_a_value_gives_only_the_update() {
    let reading = Reading { value: None, text: "= None".to_string() };
    assert_eq!(
        reading_messages("load", &reading, 42),
        vec![UiMessage::MetricUpdate("load: = None".to_string())]
    );
}

#[test]
fn a_new_receiver_has_seen_nothing() {
    let (tx, _rx) = unbounded_channel();
    let receiver = MetricsReceiver::new(true, tx);
    assert!(receiver.debug_mode());
    assert!(!receiver.has_seen("temp"));
    let (tx, _rx) = unbounded_channel();
    assert!(!MetricsReceiver::new(false, tx).debug_mode());
}

#[test]
fn a_gauge_named_temp_yields_three_notifications_in_order() {
    let (tx, mut rx) = unbounded_channel();
    let mut receiver = MetricsReceiver::new(false, tx);
    let before = now();
    let undelivered = receiver.export(&vec![gauge("temp", &[21.5])]);
    let after = now();
    assert_eq!(undelivered, 0);
    let received = drain(&mut rx);
    assert_eq!(received.len(), 3);
    assert_eq!(received[0], UiMessage::NewMetric("temp".to_string()));
    match &received[1] {
        UiMessage::MetricDataPoint { name, point } => {
            assert_eq!(name, "temp");
            assert_eq!(f64::from_bits(point.value), 21.5);
            assert!(before <= point.timestamp && point.timestamp <= after);
        }
        other => panic!("expected a data point, got {:?}", other),
    }
    match &received[2] {
        UiMessage::MetricUpdate(text) => {
            assert!(text.contains("temp"));
            assert_eq!(text, "temp: = 21.5");
        }
        other => panic!("expected an update, got {:?}", other),
    }
    assert!(receiver.has_seen("temp"));
}

#[test]
fn a_histogram_yields_its_sum_and_a_text_with_count_and_sum() {
    let (tx, mut rx) = unbounded_channel();
    let mut receiver = MetricsReceiver::new(false, tx);
    let metric = Metric {
        name: "latency".to_string(),
        data: MetricData::Histogram(vec![HistogramDataPoint {
            count: 5,
            sum: Some(12.0f64.to_bits()),
            rendering: format!("{:?}", Some(12.0f64)),
        }]),
    };
    assert_eq!(receiver.export(&vec![metric]), 0);
    let received = drain(&mut rx);
    assert_eq!(received.len(), 3);
    assert_eq!(received[0], UiMessage::NewMetric("latency".to_string()));
    match &received[1] {
        UiMessage::MetricDataPoint { name, point } => {
            assert_eq!(name, "latency");
            assert_eq!(f64::from_bits(point.value), 12.0);
        }
        other => panic!("expected a data point, got {:?}", other),
    }
    match &received[2] {
        UiMessage::MetricUpdate(text) => {
            assert!(text.contains("5"));
            assert!(text.contains("12"));
            assert_eq!(text, "latency: count: 5, sum: Some(12.0)");
        }
        other => panic!("expected an update, got {:?}", other),
    }
}

#[test]
fn a_name_is_announced_once_within_a_batch() {
    let (tx, mut rx) = unbounded_channel();
    let mut receiver = MetricsReceiver::new(false, tx);
    let batch = vec![gauge("a", &[1.0]), gauge("b", &[2.0]), gauge("a", &[3.0])];
    assert_eq!(receiver.export(&batch), 0);
    let received = drain(&mut rx);
    assert_eq!(announcements(&received, "a"), 1);
    assert_eq!(announcements(&received, "b"), 1);
    assert_eq!(received.len(), 8);
    assert_eq!(received[0], UiMessage::NewMetric("a".to_string()));
    assert_eq!(received[2], UiMessage::MetricUpdate("a: = 1.0".to_string()));
    assert_eq!(received[3], UiMessage::NewMetric("b".to_string()));
    assert_eq!(received[5], UiMessage::MetricUpdate("b: = 2.0".to_string()));
    assert_eq!(received[7], UiMessage::MetricUpdate("a: = 3.0".to_string()));
}

#[test]
fn a_name_is_announced_once_across_batches() {
    let (tx, mut rx) = unbounded_channel();
    let mut receiver = MetricsReceiver::new(false, tx);
    receiver.export(&vec![gauge("a", &[1.0])]);
    receiver.export(&vec![gauge("a", &[2.0]), gauge("b", &[])]);
    receiver.export(&vec![gauge("b", &[3.0]), gauge("a", &[4.0])]);
    let received = drain(&mut rx);
    assert_eq!(announcements(&received, "a"), 1);
    assert_eq!(announcements(&received, "b"), 1);
    assert_eq!(received.len(), 2 + 4 * 2);
}

#[test]
fn events_of_one_metric_stand_before_those_of_the_next() {
    let (tx, mut rx) = unbounded_channel();
    let mut receiver = MetricsReceiver::new(false, tx);
    let messages = receiver.batch_messages(&vec![gauge("x", &[1.0, 2.0]), gauge("y", &[3.0])]);
    assert!(drain(&mut rx).is_empty());
    let names: Vec<String> = messages
        .iter()
        .map(|m| match m {
            UiMessage::NewMetric(name) => name.clone(),
            UiMessage::MetricDataPoint { name, .. } => name.clone(),
            UiMessage::MetricUpdate(text) => text[..1].to_string(),
        })
        .collect();
    assert_eq!(names, vec!["x", "x", "x", "x", "x", "y", "y", "y"]);
    assert_eq!(receiver.publish(messages), 0);
    assert_eq!(drain(&mut rx).len(), 8);
}

#[test]
fn a_metric_of_another_kind_is_announced_and_nothing_more() {
    let (tx, mut rx) = unbounded_channel();
    let mut receiver = MetricsReceiver::new(false, tx);
    let batch = vec![Metric { name: "s".to_string(), data: MetricData::Other }];
    assert_eq!(receiver.export(&batch), 0);
    assert_eq!(drain(&mut rx), vec![UiMessage::NewMetric("s".to_string())]);
    assert_eq!(receiver.export(&batch), 0);
    assert!(drain(&mut rx).is_empty());
}

#[test]
fn an_empty_batch_sends_nothing() {
    let (tx, mut rx) = unbounded_channel();
    let mut receiver = MetricsReceiver::new(false, tx);
    assert_eq!(receiver.export(&Vec::new()), 0);
    assert!(drain(&mut rx).is_empty());
}

#[test]
fn export_goes_on_when_the_dashboard_is_gone() {
    let (tx, rx) = unbounded_channel();
    let mut receiver = MetricsReceiver::new(false, tx);
    drop(rx);
    let undelivered = receiver.export(&vec![gauge("temp", &[1.0, 2.0])]);
    assert_eq!(undelivered, 5);
    assert!(receiver.has_seen("temp"));
    assert!(!receiver.send_metric_update("temp", "= 1".to_string()));
}

#[test]
fn send_metric_update_reaches_the_channel() {
    let (tx, mut rx) = unbounded_channel();
    let receiver = MetricsReceiver::new(false, tx);
    assert!(receiver.send_metric_update("temp", "= 21.5".to_string()));
    assert_eq!(drain(&mut rx), vec![UiMessage::MetricUpdate("temp: = 21.5".to_string())]);
}

#[test]
fn concurrent_exports_announce_each_name_once() {
    let (tx, mut rx) = unbounded_channel();
    let receiver = Arc::new(tokio::sync::Mutex::new(MetricsReceiver::new(false, tx)));
    let runtime = tokio::runtime::Builder::new_multi_thread().worker_threads(4).build().unwrap();
    runtime.block_on(async {
        let mut tasks = Vec::new();
        for task in 0..16 {
            let receiver = Arc::clone(&receiver);
            tasks.push(tokio::spawn(async move {
                for round in 0..20 {
                    let batch = vec![
                        gauge("shared", &[round as f64]),
                        gauge(&format!("task-{}", task), &[1.0]),
                        gauge("shared", &[2.0]),
                    ];
                    let mut receiver = receiver.lock().await;
                    assert_eq!(receiver.export(&batch), 0);
                }
            }));
        }
        for task in tasks {
            task.await.unwrap();
        }
    });
    let received = drain(&mut rx);
    assert_eq!(announcements(&received, "shared"), 1);
    for task in 0..16 {
        assert_eq!(announcements(&received, &format!("task-{}", task)), 1);
    }
    assert_eq!(received.len(), 17 + 16 * 20 * 3 * 2);
}
