//! Ingestion and dashboard taken together: what holds of a dashboard that
//! consumes the notifications of the ingestion handler in the order they
//! were sent.

use crate::metrics::{
    batch_events, lemma_seen_after_push, metric_events, reading_events, readings_events,
    seen_after, UiMessageView,
};
use crate::model::{lemma_add_metric_wf, lemma_step_wf, Key, TuiView};
use crate::wire::{readings_of, MetricView, ReadingView};
use vstd::prelude::*;

verus! {

/// Whether the dashboard has discovered every name that ingestion has seen.
pub open spec fn knows(s: TuiView, seen: Set<Seq<char>>) -> bool {
    forall|name: Seq<char>| seen.contains(name) ==> s.metrics.contains(name)
}

/// Whether every data point among `messages` reaches a dashboard that starts
/// in `s` when its metric is already discovered, so that none is dropped.
#[verifier::opaque]
pub open spec fn all_points_land(s: TuiView, messages: Seq<UiMessageView>) -> bool {
    forall|i: int|
        0 <= i < messages.len() ==> match #[trigger] messages[i] {
            UiMessageView::MetricDataPoint { name, point } => s.apply_all(
                messages.take(i),
            ).metrics.contains(name),
            _ => true,
        }
}

/// Consuming two runs of notifications one after the other is consuming them
/// joined.
pub proof fn lemma_apply_all_concat(s: TuiView, a: Seq<UiMessageView>, b: Seq<UiMessageView>)
    ensures
        s.apply_all(a + b) == s.apply_all(a).apply_all(b),
    decreases b.len(),
{
    if b.len() > 0 {
        assert((a + b).drop_last() =~= a + b.drop_last());
        lemma_apply_all_concat(s, a, b.drop_last());
    }
}

/// Consuming one notification is applying it.
pub proof fn lemma_apply_all_single(s: TuiView, message: UiMessageView)
    ensures
        s.apply_all(seq![message]) == s.apply(message),
{
    assert(s.apply_all(seq![message].drop_last()) == s);
}

/// Consuming notifications keeps the dashboard well-formed.
pub proof fn lemma_apply_all_wf(s: TuiView, messages: Seq<UiMessageView>)
    requires
        s.wf(),
    ensures
        s.apply_all(messages).wf(),
    decreases messages.len(),
{
    if messages.len() > 0 {
        lemma_apply_all_wf(s, messages.drop_last());
        lemma_step_wf(s.apply_all(messages.drop_last()), messages.last(), Key::Other);
    }
}

/// Data points that land in two runs taken one after the other land in the
/// two joined.
pub proof fn lemma_all_points_land_concat(
    s: TuiView,
    a: Seq<UiMessageView>,
    b: Seq<UiMessageView>,
)
    requires
        all_points_land(s, a),
        all_points_land(s.apply_all(a), b),
    ensures
        all_points_land(s, a + b),
{
    reveal(all_points_land);
    let joined = a + b;
    assert forall|i: int| 0 <= i < joined.len() implies match #[trigger] joined[i] {
        UiMessageView::MetricDataPoint { name, point } => s.apply_all(
            joined.take(i),
        ).metrics.contains(name),
        _ => true,
    } by {
        if i < a.len() {
            assert(joined.take(i) =~= a.take(i));
        } else {
            let k = i - a.len();
            assert(joined.take(i) =~= a + b.take(k));
            lemma_apply_all_concat(s, a, b.take(k));
        }
    }
}

/// The notifications of a discovered metric's readings discover nothing, and
/// none of their data points is dropped.
pub proof fn lemma_readings_land(
    s: TuiView,
    name: Seq<char>,
    readings: Seq<ReadingView>,
    stamps: Seq<u64>,
)
    requires
        s.metrics.contains(name),
    ensures
        all_points_land(s, readings_events(name, readings, stamps)),
        s.apply_all(readings_events(name, readings, stamps)).metrics == s.metrics,
    decreases readings.len(),
{
    if readings.len() > 0 {
        let earlier = readings_events(name, readings.drop_last(), stamps.drop_last());
        let latest = reading_events(name, readings.last(), stamps.last());
        lemma_readings_land(s, name, readings.drop_last(), stamps.drop_last());
        let t = s.apply_all(earlier);
        lemma_few_land(t, name, latest);
        lemma_all_points_land_concat(s, earlier, latest);
        lemma_apply_all_concat(s, earlier, latest);
    } else {
        reveal(all_points_land);
    }
}

/// One reading's notifications, consumed where the metric is discovered,
/// discover nothing and lose no data point.
proof fn lemma_few_land(t: TuiView, name: Seq<char>, few: Seq<UiMessageView>)
    requires
        t.metrics.contains(name),
        few.len() <= 2,
        forall|i: int|
            0 <= i < few.len() ==> match #[trigger] few[i] {
                UiMessageView::MetricDataPoint { name: n, point } => n == name,
                UiMessageView::MetricUpdate(text) => true,
                UiMessageView::NewMetric(n) => false,
            },
    ensures
        all_points_land(t, few),
        t.apply_all(few).metrics == t.metrics,
{
    reveal(all_points_land);
    assert(t.apply_all(few.take(0)) == t);
    if few.len() >= 1 {
        assert(few.take(1).drop_last() =~= few.take(0));
    }
    if few.len() == 1 {
        assert(few.take(1) =~= few);
    }
}

/// A metric that is announced, or whose name the dashboard has discovered,
/// loses no data point; afterwards the dashboard holds its name, and besides
/// it what it held before.
pub proof fn lemma_metric_lands(s: TuiView, first: bool, metric: MetricView, stamps: Seq<u64>)
    requires
        s.wf(),
        first || s.metrics.contains(metric.name),
    ensures
        all_points_land(s, metric_events(first, metric, stamps)),
        forall|other: Seq<char>|
            s.apply_all(metric_events(first, metric, stamps)).metrics.contains(other) <==> (other
                == metric.name || s.metrics.contains(other)),
{
    let rest = readings_events(metric.name, readings_of(metric), stamps);
    if first {
        let announce = seq![UiMessageView::NewMetric(metric.name)];
        lemma_apply_all_single(s, UiMessageView::NewMetric(metric.name));
        assert(all_points_land(s, announce)) by {
            reveal(all_points_land);
        }
        lemma_add_metric_wf(s, metric.name);
        lemma_readings_land(s.add_metric(metric.name), metric.name, readings_of(metric), stamps);
        lemma_all_points_land_concat(s, announce, rest);
        lemma_apply_all_concat(s, announce, rest);
    } else {
        lemma_readings_land(s, metric.name, readings_of(metric), stamps);
    }
}

/// No data point is dropped on the way: a dashboard that has discovered
/// every name seen so far, and consumes the notifications of a batch in
/// order, finds each data point's metric discovered when the point arrives;
/// afterwards it is well-formed and has discovered every name seen by then.
pub proof fn lemma_batch_lands(
    s: TuiView,
    seen: Set<Seq<char>>,
    batch: Seq<MetricView>,
    stamps: Seq<Seq<u64>>,
)
    requires
        s.wf(),
        knows(s, seen),
    ensures
        all_points_land(s, batch_events(seen, batch, stamps)),
        s.apply_all(batch_events(seen, batch, stamps)).wf(),
        knows(s.apply_all(batch_events(seen, batch, stamps)), seen_after(seen, batch)),
    decreases batch.len(),
{
    if batch.len() > 0 {
        let earlier = batch.drop_last();
        let before = batch_events(seen, earlier, stamps.drop_last());
        let first = !seen_after(seen, earlier).contains(batch.last().name);
        let latest = metric_events(first, batch.last(), stamps.last());
        lemma_batch_lands(s, seen, earlier, stamps.drop_last());
        let t = s.apply_all(before);
        let name = batch.last().name;
        lemma_metric_lands(t, first, batch.last(), stamps.last());
        lemma_all_points_land_concat(s, before, latest);
        lemma_apply_all_concat(s, before, latest);
        lemma_apply_all_wf(t, latest);
        assert(batch =~= earlier.push(batch.last()));
        lemma_seen_after_push(seen, earlier, batch.last());
        let u = t.apply_all(latest);
        assert forall|other: Seq<char>|
            seen_after(seen, batch).contains(other) implies u.metrics.contains(other) by {
            if other != name {
                assert(seen_after(seen, earlier).contains(other));
            }
        }
    } else {
        assert(all_points_land(s, Seq::<UiMessageView>::empty())) by {
            reveal(all_points_land);
        }
    }
}

} // verus!
