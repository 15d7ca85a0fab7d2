//! Ingestion: from exported metrics to the notifications that the dashboard
//! consumes.

use crate::channel::offer;
use crate::clock::current_timestamp;
use crate::wire::{extract_readings, readings_of, Metric, MetricView, Reading, ReadingView};
use tokio::sync::mpsc::UnboundedSender;
use vstd::hash_set::StringHashSet;
use vstd::prelude::*;
use vstd::string::StringExecFns;

verus! {

/// One point of a metric's series.
#[derive(Clone, Copy, Debug, PartialEq, Eq)]
pub struct MetricPoint {
    /// When the point was extracted, in seconds since the Unix epoch.
    pub timestamp: u64,
    /// The value, as the bits of an IEEE 754 double.
    pub value: u64,
}

/// A notification from ingestion to the dashboard.
#[derive(Clone, Debug, PartialEq, Eq)]
pub enum UiMessage {
    /// A metric name was seen for the first time.
    NewMetric(String),
    /// A line of text describing one data point.
    MetricUpdate(String),
    /// One data point of the named metric.
    MetricDataPoint { name: String, point: MetricPoint },
}

pub enum UiMessageView {
    NewMetric(Seq<char>),
    MetricUpdate(Seq<char>),
    MetricDataPoint { name: Seq<char>, point: MetricPoint },
}

impl DeepView for UiMessage {
    type V = UiMessageView;

    open spec fn deep_view(&self) -> UiMessageView {
        match self {
            UiMessage::NewMetric(name) => UiMessageView::NewMetric(name@),
            UiMessage::MetricUpdate(text) => UiMessageView::MetricUpdate(text@),
            UiMessage::MetricDataPoint { name, point } => UiMessageView::MetricDataPoint {
                name: name@,
                point: *point,
            },
        }
    }
}

/// The line shown for one data point: the metric's name, a colon, and the
/// point's text.
pub open spec fn update_text(name: Seq<char>, details: Seq<char>) -> Seq<char> {
    name + ": "@ + details
}

/// The notifications of one reading taken at `stamp`: the data point, where
/// the reading has a value, then the update line.
pub open spec fn reading_events(name: Seq<char>, reading: ReadingView, stamp: u64) -> Seq<
    UiMessageView,
> {
    let update = UiMessageView::MetricUpdate(update_text(name, reading.text));
    match reading.value {
        Some(bits) => seq![
            UiMessageView::MetricDataPoint {
                name,
                point: MetricPoint { timestamp: stamp, value: bits },
            },
            update,
        ],
        None => seq![update],
    }
}

/// The notifications of a metric's readings, in the order of the readings;
/// `stamps` gives the time at which each was taken.
pub open spec fn readings_events(
    name: Seq<char>,
    readings: Seq<ReadingView>,
    stamps: Seq<u64>,
) -> Seq<UiMessageView>
    decreases readings.len(),
{
    if readings.len() == 0 {
        Seq::empty()
    } else {
        readings_events(name, readings.drop_last(), stamps.drop_last()) + reading_events(
            name,
            readings.last(),
            stamps.last(),
        )
    }
}

/// The notifications of one metric: `NewMetric` first, where this is the
/// first time its name is seen, then those of its readings.
pub open spec fn metric_events(first: bool, metric: MetricView, stamps: Seq<u64>) -> Seq<
    UiMessageView,
> {
    let announce = if first {
        seq![UiMessageView::NewMetric(metric.name)]
    } else {
        Seq::empty()
    };
    announce + readings_events(metric.name, readings_of(metric), stamps)
}

/// The names seen once `batch` has gone through, starting from `seen`.
pub open spec fn seen_after(seen: Set<Seq<char>>, batch: Seq<MetricView>) -> Set<Seq<char>> {
    Set::new(
        |name: Seq<char>|
            seen.contains(name) || exists|i: int|
                0 <= i < batch.len() && (#[trigger] batch[i]).name == name,
    )
}

/// Whether `stamps` holds one time for each reading of each metric of `batch`.
pub open spec fn stamps_fit(batch: Seq<MetricView>, stamps: Seq<Seq<u64>>) -> bool {
    &&& stamps.len() == batch.len()
    &&& forall|i: int|
        0 <= i < batch.len() ==> (#[trigger] stamps[i]).len() == readings_of(batch[i]).len()
}

/// The notifications of a batch, metric after metric: a metric is announced
/// where its name is neither in `seen` nor borne by an earlier metric of the
/// batch.
pub open spec fn batch_events(
    seen: Set<Seq<char>>,
    batch: Seq<MetricView>,
    stamps: Seq<Seq<u64>>,
) -> Seq<UiMessageView>
    decreases batch.len(),
{
    if batch.len() == 0 {
        Seq::empty()
    } else {
        let earlier = batch.drop_last();
        batch_events(seen, earlier, stamps.drop_last()) + metric_events(
            !seen_after(seen, earlier).contains(batch.last().name),
            batch.last(),
            stamps.last(),
        )
    }
}

/// Builds the update line of a data point.
pub fn update_message(metric_name: &str, details: &str) -> (message: UiMessage)
    ensures
        message.deep_view() == UiMessageView::MetricUpdate(update_text(metric_name@, details@)),
{
    let mut text = String::from_str(metric_name);
    text.append(": ");
    text.append(details);
    UiMessage::MetricUpdate(text)
}

/// Builds the notification of a data point taken at `timestamp`.
pub fn datapoint_message(name: &str, timestamp: u64, value: u64) -> (message: UiMessage)
    ensures
        message.deep_view() == (UiMessageView::MetricDataPoint {
            name: name@,
            point: MetricPoint { timestamp, value },
        }),
{
    UiMessage::MetricDataPoint {
        name: String::from_str(name),
        point: MetricPoint { timestamp, value },
    }
}

/// Builds the notifications of one reading taken at `timestamp`.
pub fn reading_messages(name: &str, reading: &Reading, timestamp: u64) -> (messages: Vec<
    UiMessage,
>)
    ensures
        messages.deep_view() == reading_events(name@, reading.deep_view(), timestamp),
{
    let mut messages: Vec<UiMessage> = Vec::new();
    match reading.value {
        Some(bits) => {
            messages.push(datapoint_message(name, timestamp, bits));
        },
        None => {},
    }
    messages.push(update_message(name, reading.text.as_str()));
    messages
}

/// The ingestion handler: the names seen so far and the channel to the
/// dashboard.
pub struct MetricsReceiver {
    seen_metrics: StringHashSet,
    debug_mode: bool,
    ui_tx: UnboundedSender<UiMessage>,
}

impl MetricsReceiver {
    /// The metric names seen so far.
    pub closed spec fn seen(&self) -> Set<Seq<char>> {
        self.seen_metrics@
    }

    /// Whether verbose diagnostics were asked for.
    pub closed spec fn debug(&self) -> bool {
        self.debug_mode
    }

    /// A handler that has seen no metric yet and notifies through `ui_tx`.
    pub fn new(debug_mode: bool, ui_tx: UnboundedSender<UiMessage>) -> (receiver: Self)
        ensures
            receiver.seen() == Set::<Seq<char>>::empty(),
            receiver.debug() == debug_mode,
    {
        MetricsReceiver { seen_metrics: StringHashSet::new(), debug_mode, ui_tx }
    }

    /// Whether verbose diagnostics were asked for.
    pub fn debug_mode(&self) -> (on: bool)
        ensures
            on == self.debug(),
    {
        self.debug_mode
    }

    /// Whether `name` has been seen.
    pub fn has_seen(&self, name: &str) -> (known: bool)
        ensures
            known == self.seen().contains(name@),
    {
        self.seen_metrics.contains(name)
    }

    /// Offers the update line of `metric_name` with `details` to the
    /// channel, and tells whether the channel took it.
    pub fn send_metric_update(&self, metric_name: &str, details: String) -> (taken: bool) {
        offer(&self.ui_tx, update_message(metric_name, details.as_str()))
    }

    /// Notes the name of `metric` as seen and builds the notifications it
    /// gives rise to, reading the clock for each data point that has a value.
    pub fn metric_messages(&mut self, metric: &Metric) -> (messages: Vec<UiMessage>)
        ensures
            final(self).seen() == old(self).seen().insert(metric.name@),
            final(self).debug() == old(self).debug(),
            exists|stamps: Seq<u64>|
                #[trigger] stamps.len() == readings_of(metric.deep_view()).len()
                    && messages.deep_view() == metric_events(
                    !old(self).seen().contains(metric.name@),
                    metric.deep_view(),
                    stamps,
                ),
    {
        let mut messages: Vec<UiMessage> = Vec::new();
        let first = self.seen_metrics.insert(metric.name.clone());
        if first {
            messages.push(UiMessage::NewMetric(metric.name.clone()));
        }
        let ghost announce = messages.deep_view();
        let ghost name = metric.name@;
        let readings = extract_readings(metric);
        let ghost mut stamps: Seq<u64> = Seq::empty();
        let mut i: usize = 0;
        while i < readings.len()
            invariant
                i <= readings.len(),
                stamps.len() == i,
                name == metric.name@,
                messages.deep_view() == announce + readings_events(
                    name,
                    readings.deep_view().take(i as int),
                    stamps,
                ),
            decreases readings.len() - i,
        {
            let reading = &readings[i];
            let stamp = match reading.value {
                Some(_) => current_timestamp(),
                None => 0,
            };
            let mut more = reading_messages(metric.name.as_str(), reading, stamp);
            let ghost before = messages.deep_view();
            let ghost added = more.deep_view();
            messages.append(&mut more);
            proof {
                let taken = readings.deep_view().take(i + 1);
                assert(taken.drop_last() =~= readings.deep_view().take(i as int));
                assert(stamps.push(stamp).drop_last() =~= stamps);
                assert(messages.deep_view() =~= before + added);
                stamps = stamps.push(stamp);
            }
            i += 1;
        }
        proof {
            assert(readings.deep_view().take(i as int) =~= readings.deep_view());
        }
        messages
    }

    /// Goes through `batch` in order, noting each name as seen, and builds
    /// the notifications of the whole batch: those of one metric stand before
    /// those of the next.
    pub fn batch_messages(&mut self, batch: &Vec<Metric>) -> (messages: Vec<UiMessage>)
        ensures
            final(self).seen() == seen_after(old(self).seen(), batch.deep_view()),
            final(self).debug() == old(self).debug(),
            exists|stamps: Seq<Seq<u64>>|
                #[trigger] stamps_fit(batch.deep_view(), stamps) && messages.deep_view()
                    == batch_events(old(self).seen(), batch.deep_view(), stamps),
    {
        let mut messages: Vec<UiMessage> = Vec::new();
        let ghost seen = self.seen();
        let ghost mut stamps: Seq<Seq<u64>> = Seq::empty();
        let mut i: usize = 0;
        while i < batch.len()
            invariant
                i <= batch.len(),
                seen == old(self).seen(),
                self.debug() == old(self).debug(),
                self.seen() == seen_after(seen, batch.deep_view().take(i as int)),
                stamps_fit(batch.deep_view().take(i as int), stamps),
                messages.deep_view() == batch_events(
                    seen,
                    batch.deep_view().take(i as int),
                    stamps,
                ),
            decreases batch.len() - i,
        {
            let metric = &batch[i];
            let ghost known = self.seen();
            let mut more = self.metric_messages(metric);
            let ghost added = more.deep_view();
            messages.append(&mut more);
            proof {
                let earlier = batch.deep_view().take(i as int);
                let taken = batch.deep_view().take(i + 1);
                let taken_stamps = choose|s: Seq<u64>|
                    #[trigger] s.len() == readings_of(metric.deep_view()).len() && added
                        == metric_events(
                        !known.contains(metric.name@),
                        metric.deep_view(),
                        s,
                    );
                assert(taken.drop_last() =~= earlier);
                assert(stamps.push(taken_stamps).drop_last() =~= stamps);
                stamps = stamps.push(taken_stamps);
            }
            i += 1;
        }
        proof {
            assert(batch.deep_view().take(i as int) =~= batch.deep_view());
        }
        messages
    }

    /// Offers `messages` to the channel, first to last, and counts those it
    /// did not take. A refusal stops nothing: the rest is offered all the same.
    pub fn publish(&self, messages: Vec<UiMessage>) -> (undelivered: usize)
        ensures
            undelivered <= messages.len(),
    {
        let ghost total = messages.len();
        let mut undelivered: usize = 0;
        for message in queue: messages
            invariant
                queue.seq().len() == total,
                undelivered <= queue.index(),
        {
            if !offer(&self.ui_tx, message) {
                undelivered += 1;
            }
        }
        undelivered
    }

    /// Takes in one exported batch: notes its names as seen and offers its
    /// notifications to the channel in order. It never fails; the result
    /// counts the notifications that the channel did not take.
    pub fn export(&mut self, batch: &Vec<Metric>) -> (undelivered: usize)
        ensures
            final(self).seen() == seen_after(old(self).seen(), batch.deep_view()),
            final(self).debug() == old(self).debug(),
            exists|stamps: Seq<Seq<u64>>|
                #[trigger] stamps_fit(batch.deep_view(), stamps) && undelivered <= batch_events(
                    old(self).seen(),
                    batch.deep_view(),
                    stamps,
                ).len(),
    {
        let messages = self.batch_messages(batch);
        let undelivered = self.publish(messages);
        undelivered
    }
}

/// A name is seen after a batch and one more metric exactly if it was seen
/// after the batch or is that metric's name.
pub proof fn lemma_seen_after_push(seen: Set<Seq<char>>, batch: Seq<MetricView>, metric: MetricView)
    ensures
        seen_after(seen, batch.push(metric)) == seen_after(seen, batch).insert(metric.name),
{
    let longer = batch.push(metric);
    assert forall|name: Seq<char>|
        seen_after(seen, longer).contains(name) <==> seen_after(seen, batch).insert(
            metric.name,
        ).contains(name) by {
        if seen_after(seen, longer).contains(name) && !seen.contains(name) {
            let i = choose|i: int| 0 <= i < longer.len() && (#[trigger] longer[i]).name == name;
            if i < batch.len() {
                assert(batch[i].name == name);
            }
        }
        if seen_after(seen, batch).contains(name) && !seen.contains(name) {
            let i = choose|i: int| 0 <= i < batch.len() && (#[trigger] batch[i]).name == name;
            assert(longer[i].name == name);
        }
        if name == metric.name {
            assert(longer[batch.len() as int].name == name);
        }
    }
    assert(seen_after(seen, longer) =~= seen_after(seen, batch).insert(metric.name));
}

/// How many times `events` announces `name` as a new metric.
pub open spec fn announcements(events: Seq<UiMessageView>, name: Seq<char>) -> nat
    decreases events.len(),
{
    if events.len() == 0 {
        0
    } else {
        let rest = announcements(events.drop_last(), name);
        if events.last() == UiMessageView::NewMetric(name) {
            rest + 1
        } else {
            rest
        }
    }
}

/// The announcements of two runs of events add up.
pub proof fn lemma_announcements_concat(
    a: Seq<UiMessageView>,
    b: Seq<UiMessageView>,
    name: Seq<char>,
)
    ensures
        announcements(a + b, name) == announcements(a, name) + announcements(b, name),
    decreases b.len(),
{
    if b.len() > 0 {
        assert((a + b).drop_last() =~= a + b.drop_last());
        lemma_announcements_concat(a, b.drop_last(), name);
    }
}

/// A single event announces `name` exactly if it is `NewMetric` of that name.
pub proof fn lemma_announcements_single(event: UiMessageView, name: Seq<char>)
    ensures
        announcements(seq![event], name) == if event == UiMessageView::NewMetric(name) {
            1nat
        } else {
            0nat
        },
{
    assert(announcements(seq![event].drop_last(), name) == 0);
}

/// Data points and update lines announce nothing.
pub proof fn lemma_readings_announce_nothing(
    metric_name: Seq<char>,
    readings: Seq<ReadingView>,
    stamps: Seq<u64>,
    name: Seq<char>,
)
    ensures
        announcements(readings_events(metric_name, readings, stamps), name) == 0,
    decreases readings.len(),
{
    if readings.len() > 0 {
        let earlier = readings_events(metric_name, readings.drop_last(), stamps.drop_last());
        let latest = reading_events(metric_name, readings.last(), stamps.last());
        lemma_readings_announce_nothing(
            metric_name,
            readings.drop_last(),
            stamps.drop_last(),
            name,
        );
        lemma_announcements_concat(earlier, latest, name);
        if readings.last().value is Some {
            assert(latest =~= seq![latest[0]] + seq![latest[1]]);
            lemma_announcements_concat(seq![latest[0]], seq![latest[1]], name);
            lemma_announcements_single(latest[0], name);
            lemma_announcements_single(latest[1], name);
        } else {
            lemma_announcements_single(latest[0], name);
        }
    }
}

/// One metric announces its own name once, where it is the first to bear it,
/// and no other name.
pub proof fn lemma_metric_announcements(
    first: bool,
    metric: MetricView,
    stamps: Seq<u64>,
    name: Seq<char>,
)
    ensures
        announcements(metric_events(first, metric, stamps), name) == if first && metric.name
            == name {
            1nat
        } else {
            0nat
        },
{
    let announce = if first {
        seq![UiMessageView::NewMetric(metric.name)]
    } else {
        Seq::empty()
    };
    let rest = readings_events(metric.name, readings_of(metric), stamps);
    lemma_announcements_concat(announce, rest, name);
    lemma_readings_announce_nothing(metric.name, readings_of(metric), stamps, name);
    if first {
        lemma_announcements_single(UiMessageView::NewMetric(metric.name), name);
    }
}

/// Each distinct name is announced exactly once: a batch announces a name
/// once if the name was not seen before and the batch bears it, and not at
/// all otherwise, however often the batch bears it.
pub proof fn lemma_announced_once(
    seen: Set<Seq<char>>,
    batch: Seq<MetricView>,
    stamps: Seq<Seq<u64>>,
    name: Seq<char>,
)
    ensures
        announcements(batch_events(seen, batch, stamps), name) == if !seen.contains(name)
            && seen_after(seen, batch).contains(name) {
            1nat
        } else {
            0nat
        },
    decreases batch.len(),
{
    if batch.len() > 0 {
        let earlier = batch.drop_last();
        let first = !seen_after(seen, earlier).contains(batch.last().name);
        lemma_announced_once(seen, earlier, stamps.drop_last(), name);
        lemma_metric_announcements(first, batch.last(), stamps.last(), name);
        lemma_announcements_concat(
            batch_events(seen, earlier, stamps.drop_last()),
            metric_events(first, batch.last(), stamps.last()),
            name,
        );
        assert(batch =~= earlier.push(batch.last()));
        lemma_seen_after_push(seen, earlier, batch.last());
    }
}

/// Two batches taken in one after the other give the notifications of the two
/// joined into one batch, and leave the same names seen.
pub proof fn lemma_batches_compose(
    seen: Set<Seq<char>>,
    first: Seq<MetricView>,
    first_stamps: Seq<Seq<u64>>,
    second: Seq<MetricView>,
    second_stamps: Seq<Seq<u64>>,
)
    requires
        first_stamps.len() == first.len(),
        second_stamps.len() == second.len(),
    ensures
        seen_after(seen, first + second) == seen_after(seen_after(seen, first), second),
        batch_events(seen, first + second, first_stamps + second_stamps) == batch_events(
            seen,
            first,
            first_stamps,
        ) + batch_events(seen_after(seen, first), second, second_stamps),
    decreases second.len(),
{
    if second.len() == 0 {
        assert(first + second =~= first);
        assert(first_stamps + second_stamps =~= first_stamps);
        assert(seen_after(seen_after(seen, first), second) =~= seen_after(seen, first));
        assert(batch_events(seen, first, first_stamps) + Seq::<UiMessageView>::empty()
            =~= batch_events(seen, first, first_stamps));
    } else {
        let earlier = second.drop_last();
        let earlier_stamps = second_stamps.drop_last();
        lemma_batches_compose(seen, first, first_stamps, earlier, earlier_stamps);
        assert((first + second).drop_last() =~= first + earlier);
        assert((first_stamps + second_stamps).drop_last() =~= first_stamps + earlier_stamps);
        assert(first + second =~= (first + earlier).push(second.last()));
        assert(second =~= earlier.push(second.last()));
        lemma_seen_after_push(seen, first + earlier, second.last());
        lemma_seen_after_push(seen_after(seen, first), earlier, second.last());
        let latest = metric_events(
            !seen_after(seen, first + earlier).contains(second.last().name),
            second.last(),
            second_stamps.last(),
        );
        assert(batch_events(seen, first + second, first_stamps + second_stamps) =~= (
        batch_events(seen, first, first_stamps) + batch_events(
            seen_after(seen, first),
            earlier,
            earlier_stamps,
        )) + latest);
        assert(batch_events(seen_after(seen, first), second, second_stamps) =~= batch_events(
            seen_after(seen, first),
            earlier,
            earlier_stamps,
        ) + latest);
    }
}

} // verus!
