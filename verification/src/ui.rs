//! The dashboard's state, as it is held and changed while the program runs.

use crate::bounded::{
    push_back_evict, push_front_bounded, push_front_evict, MAX_POINTS, MAX_UPDATES,
};
use crate::channel::poll;
use crate::chart::{chart_from, copy_points, Chart};
use crate::metrics::{MetricPoint, UiMessage, UiMessageView};
use crate::model::{lemma_add_metric_wf, Key, PanelView, SnapshotView, TuiView};
use crate::names::{contains_name, insert_name};
use crate::text::starts_with;
use std::collections::VecDeque;
use tokio::sync::mpsc::UnboundedReceiver;
use vstd::hash_map::StringHashMap;
use vstd::prelude::*;
use vstd::std_specs::vecdeque::VecDequeAdditionalSpecFns;

verus! {

/// What the lower panel of the dashboard shows.
#[derive(Clone, Debug, PartialEq, Eq)]
pub enum Panel {
    /// The update lines, most recent first.
    Updates(Vec<String>),
    /// The chart of the filtered metric.
    Chart(Chart),
    /// Nothing: the filtered metric has no point yet.
    Blank,
}

/// What the renderer is given for one frame.
#[derive(Clone, Debug, PartialEq, Eq)]
pub struct Snapshot {
    /// The discovered metrics, in ascending order.
    pub metrics: Vec<String>,
    /// The position of the cursor among them.
    pub cursor: Option<usize>,
    /// The metric that the dashboard is filtered on.
    pub filter: Option<String>,
    /// The lower panel.
    pub panel: Panel,
}

impl DeepView for Panel {
    type V = PanelView;

    open spec fn deep_view(&self) -> PanelView {
        match self {
            Panel::Updates(lines) => PanelView::Updates(lines.deep_view()),
            Panel::Chart(chart) => PanelView::Chart(chart.deep_view()),
            Panel::Blank => PanelView::Blank,
        }
    }
}

impl DeepView for Snapshot {
    type V = SnapshotView;

    open spec fn deep_view(&self) -> SnapshotView {
        SnapshotView {
            metrics: self.metrics.deep_view(),
            cursor: match self.cursor {
                Some(i) => Some(i as int),
                None => None,
            },
            filter: match self.filter {
                Some(metric) => Some(metric@),
                None => None,
            },
            panel: self.panel.deep_view(),
        }
    }
}

/// The state of the dashboard.
pub struct TuiState {
    discovered_metrics: Vec<String>,
    recent_updates: VecDeque<String>,
    cursor: Option<usize>,
    selected_metric: Option<String>,
    metric_data: StringHashMap<VecDeque<MetricPoint>>,
    show_graph: bool,
}

impl View for TuiState {
    type V = TuiView;

    closed spec fn view(&self) -> TuiView {
        TuiView {
            metrics: self.discovered_metrics.deep_view(),
            series: self.metric_data@.map_values(|points: VecDeque<MetricPoint>| points@),
            updates: self.recent_updates.deep_view(),
            cursor: match self.cursor {
                Some(i) => Some(i as int),
                None => None,
            },
            filter: match self.selected_metric {
                Some(metric) => Some(metric@),
                None => None,
            },
            show_graph: self.show_graph,
        }
    }
}

fn copy_names(names: &Vec<String>) -> (copy: Vec<String>)
    ensures
        copy.deep_view() == names.deep_view(),
{
    let mut copy: Vec<String> = Vec::new();
    let mut i: usize = 0;
    while i < names.len()
        invariant
            i <= names.len(),
            copy.len() == i,
            forall|k: int| 0 <= k < i ==> copy[k]@ == names[k]@,
        decreases names.len() - i,
    {
        copy.push(names[i].clone());
        i += 1;
    }
    copy
}

fn copy_lines(lines: &VecDeque<String>) -> (copy: Vec<String>)
    ensures
        copy.deep_view() == lines.deep_view(),
{
    let mut copy: Vec<String> = Vec::new();
    let mut i: usize = 0;
    while i < lines.len()
        invariant
            i <= lines.len(),
            copy.len() == i,
            forall|k: int| 0 <= k < i ==> copy[k]@ == lines[k]@,
        decreases lines.len() - i,
    {
        copy.push(lines[i].clone());
        i += 1;
    }
    copy
}

impl TuiState {
    #[verifier::type_invariant]
    spec fn inv(self) -> bool {
        self@.wf()
    }

    /// The dashboard before anything was received.
    pub fn new() -> (state: Self)
        ensures
            state@ == TuiView::initial(),
    {
        let state = TuiState {
            discovered_metrics: Vec::new(),
            recent_updates: VecDeque::with_capacity(MAX_UPDATES),
            cursor: None,
            selected_metric: None,
            metric_data: StringHashMap::new(),
            show_graph: false,
        };
        assert(state@.updates =~= Seq::<Seq<char>>::empty());
        assert(state@.series =~= Map::<Seq<char>, Seq<MetricPoint>>::empty());
        state
    }

    /// Moves the state out, leaving the initial one in its place.
    fn take(&mut self) -> (taken: Self)
        ensures
            taken == *old(self),
            final(self)@ == TuiView::initial(),
    {
        let mut taken = TuiState {
            discovered_metrics: Vec::new(),
            recent_updates: VecDeque::new(),
            cursor: None,
            selected_metric: None,
            metric_data: StringHashMap::new(),
            show_graph: false,
        };
        assert(taken@.updates =~= Seq::<Seq<char>>::empty());
        assert(taken@.series =~= Map::<Seq<char>, Seq<MetricPoint>>::empty());
        std::mem::swap(self, &mut taken);
        taken
    }

    /// Takes in an update line: it goes to the front of the list if it
    /// passes the filter, and is dropped if it does not.
    pub fn add_update(&mut self, update: String)
        ensures
            final(self)@ == old(self)@.add_update(update@),
            final(self)@.wf(),
    {
        proof {
            use_type_invariant(&*self);
        }
        let accepted = match &self.selected_metric {
            Some(selected) => starts_with(update.as_str(), selected.as_str()),
            None => true,
        };
        if accepted {
            let TuiState {
                discovered_metrics,
                mut recent_updates,
                cursor,
                selected_metric,
                metric_data,
                show_graph,
            } = self.take();
            let ghost before = recent_updates.deep_view();
            push_front_evict(&mut recent_updates, update, MAX_UPDATES);
            assert(recent_updates.deep_view() =~= push_front_bounded(
                before,
                update@,
                MAX_UPDATES as nat,
            ));
            *self = TuiState {
                discovered_metrics,
                recent_updates,
                cursor,
                selected_metric,
                metric_data,
                show_graph,
            };
        }
    }

    /// Takes in a metric name: a new one is put in its place in the sorted
    /// list and gets an empty series, and the cursor, if unset, goes to the
    /// first entry; a known one changes nothing.
    pub fn add_metric(&mut self, metric: String)
        ensures
            final(self)@ == old(self)@.add_metric(metric@),
            final(self)@.wf(),
    {
        proof {
            use_type_invariant(&*self);
            lemma_add_metric_wf(self@, metric@);
        }
        if !contains_name(&self.discovered_metrics, &metric) {
            let TuiState {
                mut discovered_metrics,
                recent_updates,
                cursor,
                selected_metric,
                mut metric_data,
                show_graph,
            } = self.take();
            let ghost series = metric_data@.map_values(|points: VecDeque<MetricPoint>| points@);
            insert_name(&mut discovered_metrics, metric.clone());
            metric_data.insert(metric, VecDeque::with_capacity(MAX_POINTS));
            let cursor = match cursor {
                Some(i) => Some(i),
                None => Some(0),
            };
            assert(metric_data@.map_values(|points: VecDeque<MetricPoint>| points@)
                =~= series.insert(metric@, Seq::empty()));
            *self = TuiState {
                discovered_metrics,
                recent_updates,
                cursor,
                selected_metric,
                metric_data,
                show_graph,
            };
        }
    }

    /// Takes in a data point: it goes to the back of the series of its
    /// metric, which drops its oldest point when full; the point of a metric
    /// that was never discovered is dropped.
    pub fn add_metric_point(&mut self, name: String, point: MetricPoint)
        ensures
            final(self)@ == old(self)@.add_metric_point(name@, point),
            final(self)@.wf(),
    {
        proof {
            use_type_invariant(&*self);
        }
        let grown = match self.metric_data.get(name.as_str()) {
            Some(points) => {
                let mut points = points.clone();
                push_back_evict(&mut points, point, MAX_POINTS);
                Some(points)
            },
            None => None,
        };
        match grown {
            Some(points) => {
                let TuiState {
                    discovered_metrics,
                    recent_updates,
                    cursor,
                    selected_metric,
                    mut metric_data,
                    show_graph,
                } = self.take();
                let ghost series = metric_data@.map_values(
                    |points: VecDeque<MetricPoint>| points@,
                );
                metric_data.insert(name, points);
                assert(metric_data@.map_values(|points: VecDeque<MetricPoint>| points@)
                    =~= series.insert(name@, points@));
                *self = TuiState {
                    discovered_metrics,
                    recent_updates,
                    cursor,
                    selected_metric,
                    metric_data,
                    show_graph,
                };
            },
            None => {},
        }
    }

    /// Moves the cursor down by one, and from the last entry to the first.
    /// Nothing moves while the list is empty.
    pub fn next(&mut self)
        ensures
            final(self)@ == old(self)@.next(),
            final(self)@.wf(),
    {
        proof {
            use_type_invariant(&*self);
        }
        match self.cursor {
            Some(i) => {
                let target = if i >= self.discovered_metrics.len() - 1 {
                    0
                } else {
                    i + 1
                };
                self.cursor = Some(target);
            },
            None => {},
        }
    }

    /// Moves the cursor up by one, and from the first entry to the last.
    /// Nothing moves while the list is empty.
    pub fn previous(&mut self)
        ensures
            final(self)@ == old(self)@.previous(),
            final(self)@.wf(),
    {
        proof {
            use_type_invariant(&*self);
        }
        match self.cursor {
            Some(i) => {
                let target = if i == 0 {
                    self.discovered_metrics.len() - 1
                } else {
                    i - 1
                };
                self.cursor = Some(target);
            },
            None => {},
        }
    }

    /// Makes the metric under the cursor the filter, or lifts the filter if
    /// that metric was it; either way the update lines are cleared. Nothing
    /// changes while the list is empty.
    pub fn toggle_selected_metric(&mut self)
        ensures
            final(self)@ == old(self)@.toggle_selected_metric(),
            final(self)@.wf(),
    {
        proof {
            use_type_invariant(&*self);
        }
        match self.cursor {
            Some(index) => {
                let metric = self.discovered_metrics[index].clone();
                let lifted = match &self.selected_metric {
                    Some(selected) => *selected == metric,
                    None => false,
                };
                let TuiState {
                    discovered_metrics,
                    mut recent_updates,
                    cursor,
                    selected_metric: _,
                    metric_data,
                    show_graph: _,
                } = self.take();
                recent_updates.clear();
                assert(recent_updates.deep_view() =~= Seq::<Seq<char>>::empty());
                let selected_metric = if lifted {
                    None
                } else {
                    Some(metric)
                };
                *self = TuiState {
                    discovered_metrics,
                    recent_updates,
                    cursor,
                    selected_metric,
                    metric_data,
                    show_graph: !lifted,
                };
            },
            None => {},
        }
    }

    /// Consumes one notification.
    pub fn apply(&mut self, message: UiMessage)
        ensures
            final(self)@ == old(self)@.apply(message.deep_view()),
            final(self)@.wf(),
    {
        proof {
            use_type_invariant(&*self);
        }
        match message {
            UiMessage::NewMetric(metric) => self.add_metric(metric),
            UiMessage::MetricUpdate(update) => self.add_update(update),
            UiMessage::MetricDataPoint { name, point } => self.add_metric_point(name, point),
        }
    }

    /// Consumes the notifications that wait in the channel, in the order
    /// they were sent, until the channel has none left; it never waits for
    /// one. The result counts them, and the run ends should the count reach
    /// the largest `usize`.
    pub fn drain(&mut self, rx: &mut UnboundedReceiver<UiMessage>) -> (consumed: usize)
        ensures
            exists|messages: Seq<UiMessageView>|
                #[trigger] messages.len() == consumed && final(self)@ == old(self)@.apply_all(
                    messages,
                ),
            final(self)@.wf(),
    {
        proof {
            use_type_invariant(&*self);
        }
        let ghost mut messages: Seq<UiMessageView> = Seq::empty();
        let mut consumed: usize = 0;
        while consumed < usize::MAX
            invariant
                messages.len() == consumed,
                self@ == old(self)@.apply_all(messages),
                self@.wf(),
            decreases usize::MAX - consumed,
        {
            match poll(rx) {
                Some(message) => {
                    proof {
                        let longer = messages.push(message.deep_view());
                        assert(longer.drop_last() =~= messages);
                        messages = longer;
                    }
                    self.apply(message);
                    consumed += 1;
                },
                None => {
                    break;
                },
            }
        }
        consumed
    }

    /// Handles one key, and tells whether it asks to leave the dashboard:
    /// `q` does, `j` moves the cursor down, `k` moves it up, enter toggles the
    /// filter, and any other key does nothing.
    pub fn on_key(&mut self, key: Key) -> (quit: bool)
        ensures
            quit == TuiView::quits(key),
            final(self)@ == old(self)@.on_key(key),
            final(self)@.wf(),
    {
        proof {
            use_type_invariant(&*self);
        }
        match key {
            Key::Char(c) => {
                if c == 'q' {
                    return true;
                } else if c == 'j' {
                    self.next();
                } else if c == 'k' {
                    self.previous();
                }
                false
            },
            Key::Enter => {
                self.toggle_selected_metric();
                false
            },
            Key::Other => false,
        }
    }

    /// The position of the cursor.
    pub fn cursor(&self) -> (cursor: Option<usize>)
        ensures
            self@.wf(),
            match cursor {
                Some(i) => self@.cursor == Some(i as int),
                None => self@.cursor is None,
            },
    {
        proof {
            use_type_invariant(self);
        }
        self.cursor
    }

    /// Whether the chart is shown in place of the update lines.
    pub fn show_graph(&self) -> (shown: bool)
        ensures
            self@.wf(),
            shown == self@.show_graph,
    {
        proof {
            use_type_invariant(self);
        }
        self.show_graph
    }

    /// The discovered metrics, in ascending order.
    pub fn metrics(&self) -> (metrics: &Vec<String>)
        ensures
            self@.wf(),
            metrics.deep_view() == self@.metrics,
    {
        proof {
            use_type_invariant(self);
        }
        &self.discovered_metrics
    }

    /// The update lines kept, most recent first. They are kept while a
    /// filter is set too, though the panel then shows the chart.
    pub fn recent_updates(&self) -> (lines: &VecDeque<String>)
        ensures
            self@.wf(),
            lines.deep_view() == self@.updates,
    {
        proof {
            use_type_invariant(self);
        }
        &self.recent_updates
    }

    /// The points kept for `name`, oldest first; none for a metric that was
    /// never discovered.
    pub fn series(&self, name: &str) -> (series: Option<Vec<MetricPoint>>)
        ensures
            self@.wf(),
            match series {
                Some(points) => self@.series.dom().contains(name@) && points@
                    == self@.series[name@],
                None => !self@.series.dom().contains(name@),
            },
    {
        proof {
            use_type_invariant(self);
        }
        match self.metric_data.get(name) {
            Some(points) => Some(copy_points(points)),
            None => None,
        }
    }

    /// The chart of the filtered metric: none while no filter is set or the
    /// metric has no point yet.
    pub fn chart(&self) -> (chart: Option<Chart>)
        ensures
            self@.wf(),
            chart.deep_view() == self@.chart(),
    {
        proof {
            use_type_invariant(self);
        }
        match &self.selected_metric {
            Some(metric) => match self.metric_data.get(metric.as_str()) {
                Some(points) => chart_from(metric, points),
                None => None,
            },
            None => None,
        }
    }

    /// What the renderer is given for one frame: the metrics, the cursor,
    /// the filter, and the lower panel, which holds the update lines while
    /// no filter is set and the chart of the filtered metric otherwise.
    pub fn snapshot(&self) -> (snapshot: Snapshot)
        ensures
            self@.wf(),
            snapshot.deep_view() == self@.snapshot(),
    {
        proof {
            use_type_invariant(self);
        }
        let panel = if self.show_graph {
            match self.chart() {
                Some(chart) => Panel::Chart(chart),
                None => Panel::Blank,
            }
        } else {
            Panel::Updates(copy_lines(&self.recent_updates))
        };
        let filter = match &self.selected_metric {
            Some(metric) => Some(metric.clone()),
            None => None,
        };
        Snapshot {
            metrics: copy_names(&self.discovered_metrics),
            cursor: self.cursor,
            filter,
            panel,
        }
    }
}

} // verus!
