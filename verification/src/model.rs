//! The dashboard as a state machine over mathematical values: its states,
//! its transitions, and what holds of every state it can reach.

use crate::bounded::{
    lemma_push_all_back_keeps_newest, lemma_push_all_front_keeps_newest, newest, push_all_back,
    push_all_front, push_back_bounded, push_front_bounded, MAX_POINTS, MAX_UPDATES,
};
use crate::chart::{chart_of, ChartView};
use crate::metrics::{MetricPoint, UiMessageView};
use crate::names::{insert_sorted, lemma_insert_sorted, lemma_sorted_no_duplicates, strictly_sorted};
use vstd::prelude::*;

verus! {

/// A key of the dashboard's keyboard.
#[derive(Clone, Copy, Debug, PartialEq, Eq)]
pub enum Key {
    /// A character key.
    Char(char),
    /// The enter key.
    Enter,
    /// Any other key.
    Other,
}

/// The state of the dashboard.
pub struct TuiView {
    /// The names of the metrics discovered so far.
    pub metrics: Seq<Seq<char>>,
    /// The points kept for each metric, oldest first.
    pub series: Map<Seq<char>, Seq<MetricPoint>>,
    /// The update lines kept, most recent first.
    pub updates: Seq<Seq<char>>,
    /// The position of the cursor in `metrics`.
    pub cursor: Option<int>,
    /// The metric that the dashboard is filtered on.
    pub filter: Option<Seq<char>>,
    /// Whether the chart is shown in place of the update lines.
    pub show_graph: bool,
}

/// What the lower panel of the dashboard shows.
pub enum PanelView {
    /// The update lines, most recent first.
    Updates(Seq<Seq<char>>),
    /// The chart of the filtered metric.
    Chart(ChartView),
    /// Nothing: the filtered metric has no point yet.
    Blank,
}

/// What the renderer is given for one frame.
pub struct SnapshotView {
    pub metrics: Seq<Seq<char>>,
    pub cursor: Option<int>,
    pub filter: Option<Seq<char>>,
    pub panel: PanelView,
}

impl TuiView {
    /// What holds of every state of the dashboard: the names ascend strictly,
    /// each has its series and no series is without its name, no buffer is
    /// over its capacity, the cursor points into the list and is unset only
    /// where the list is empty, the filter names a discovered metric, and the
    /// chart is shown exactly when a filter is set.
    pub open spec fn wf(self) -> bool {
        &&& strictly_sorted(self.metrics)
        &&& forall|name: Seq<char>|
            self.series.dom().contains(name) <==> self.metrics.contains(name)
        &&& forall|name: Seq<char>|
            self.series.dom().contains(name) ==> (#[trigger] self.series[name]).len()
                <= MAX_POINTS
        &&& self.updates.len() <= MAX_UPDATES
        &&& match self.cursor {
            Some(i) => 0 <= i < self.metrics.len(),
            None => self.metrics.len() == 0,
        }
        &&& match self.filter {
            Some(metric) => self.metrics.contains(metric),
            None => true,
        }
        &&& self.show_graph == self.filter.is_some()
    }

    /// The dashboard before anything was received.
    pub open spec fn initial() -> Self {
        TuiView {
            metrics: Seq::empty(),
            series: Map::empty(),
            updates: Seq::empty(),
            cursor: None,
            filter: None,
            show_graph: false,
        }
    }

    /// A new metric is put in its place in the sorted list and gets an empty
    /// series; the cursor, if unset, goes to the first entry. A metric
    /// already discovered changes nothing.
    pub open spec fn add_metric(self, name: Seq<char>) -> Self {
        if self.metrics.contains(name) {
            self
        } else {
            TuiView {
                metrics: insert_sorted(self.metrics, name),
                series: self.series.insert(name, Seq::empty()),
                cursor: if self.cursor is None {
                    Some(0int)
                } else {
                    self.cursor
                },
                ..self
            }
        }
    }

    /// A point goes to the back of its metric's series, which drops its
    /// oldest point when full. A point of an undiscovered metric is dropped.
    pub open spec fn add_metric_point(self, name: Seq<char>, point: MetricPoint) -> Self {
        if self.series.dom().contains(name) {
            TuiView {
                series: self.series.insert(
                    name,
                    push_back_bounded(self.series[name], point, MAX_POINTS as nat),
                ),
                ..self
            }
        } else {
            self
        }
    }

    /// Whether an update line passes the filter: every line does where no
    /// filter is set, otherwise those that begin with the filter's name.
    pub open spec fn accepts(self, text: Seq<char>) -> bool {
        match self.filter {
            Some(metric) => metric.is_prefix_of(text),
            None => true,
        }
    }

    /// An accepted update line goes to the front of the list, which drops
    /// its oldest line when full. Another line is dropped.
    pub open spec fn add_update(self, text: Seq<char>) -> Self {
        if self.accepts(text) {
            TuiView { updates: push_front_bounded(self.updates, text, MAX_UPDATES as nat), ..self }
        } else {
            self
        }
    }

    /// The cursor moves down by one, and from the last entry to the first.
    pub open spec fn next(self) -> Self {
        match self.cursor {
            Some(i) => TuiView {
                cursor: Some(
                    if i >= self.metrics.len() - 1 {
                        0int
                    } else {
                        i + 1
                    },
                ),
                ..self
            },
            None => self,
        }
    }

    /// The cursor moves up by one, and from the first entry to the last.
    pub open spec fn previous(self) -> Self {
        match self.cursor {
            Some(i) => TuiView {
                cursor: Some(
                    if i == 0 {
                        self.metrics.len() - 1
                    } else {
                        i - 1
                    },
                ),
                ..self
            },
            None => self,
        }
    }

    /// The metric under the cursor becomes the filter, or stops being it if it
    /// was; either way the update lines are cleared.
    pub open spec fn toggle_selected_metric(self) -> Self {
        match self.cursor {
            Some(i) => {
                if 0 <= i < self.metrics.len() {
                    if self.filter == Some(self.metrics[i]) {
                        TuiView { filter: None, show_graph: false, updates: Seq::empty(), ..self }
                    } else {
                        TuiView {
                            filter: Some(self.metrics[i]),
                            show_graph: true,
                            updates: Seq::empty(),
                            ..self
                        }
                    }
                } else {
                    self
                }
            },
            None => self,
        }
    }

    /// The state after one notification was consumed.
    pub open spec fn apply(self, message: UiMessageView) -> Self {
        match message {
            UiMessageView::NewMetric(name) => self.add_metric(name),
            UiMessageView::MetricUpdate(text) => self.add_update(text),
            UiMessageView::MetricDataPoint { name, point } => self.add_metric_point(name, point),
        }
    }

    /// The state after `messages` were consumed, first to last.
    pub open spec fn apply_all(self, messages: Seq<UiMessageView>) -> Self
        decreases messages.len(),
    {
        if messages.len() == 0 {
            self
        } else {
            self.apply_all(messages.drop_last()).apply(messages.last())
        }
    }

    /// Whether a key asks to leave the dashboard.
    pub open spec fn quits(key: Key) -> bool {
        key == Key::Char('q')
    }

    /// The state after a key was pressed: `j` moves the cursor down, `k`
    /// moves it up, enter toggles the filter, and any other key changes
    /// nothing.
    pub open spec fn on_key(self, key: Key) -> Self {
        if key == Key::Char('j') {
            self.next()
        } else if key == Key::Char('k') {
            self.previous()
        } else if key == Key::Enter {
            self.toggle_selected_metric()
        } else {
            self
        }
    }

    /// The chart of the filtered metric: none while no filter is set or the
    /// metric's series is empty.
    pub open spec fn chart(self) -> Option<ChartView> {
        match self.filter {
            Some(metric) => {
                if self.series.dom().contains(metric) {
                    chart_of(metric, self.series[metric])
                } else {
                    None
                }
            },
            None => None,
        }
    }

    /// The lower panel: the update lines while there is no chart to show,
    /// otherwise the chart, if the filtered metric has one.
    pub open spec fn panel(self) -> PanelView {
        if self.show_graph {
            match self.chart() {
                Some(chart) => PanelView::Chart(chart),
                None => PanelView::Blank,
            }
        } else {
            PanelView::Updates(self.updates)
        }
    }

    /// What the renderer is given for one frame.
    pub open spec fn snapshot(self) -> SnapshotView {
        SnapshotView {
            metrics: self.metrics,
            cursor: self.cursor,
            filter: self.filter,
            panel: self.panel(),
        }
    }

    /// The state after each name of `names` was added in turn.
    pub open spec fn add_metrics(self, names: Seq<Seq<char>>) -> Self
        decreases names.len(),
    {
        if names.len() == 0 {
            self
        } else {
            self.add_metrics(names.drop_last()).add_metric(names.last())
        }
    }

    /// The state after each line of `texts` was added in turn.
    pub open spec fn add_updates(self, texts: Seq<Seq<char>>) -> Self
        decreases texts.len(),
    {
        if texts.len() == 0 {
            self
        } else {
            self.add_updates(texts.drop_last()).add_update(texts.last())
        }
    }

    /// The state after each point of `points` was added in turn to the series
    /// of `name`.
    pub open spec fn add_metric_points(self, name: Seq<char>, points: Seq<MetricPoint>) -> Self
        decreases points.len(),
    {
        if points.len() == 0 {
            self
        } else {
            self.add_metric_points(name, points.drop_last()).add_metric_point(name, points.last())
        }
    }
}

/// The dashboard starts in a well-formed state.
pub proof fn lemma_initial_wf()
    ensures
        TuiView::initial().wf(),
{
}

/// Discovering a metric keeps the state well-formed; afterwards the list
/// holds the name, and besides it what it held before.
pub proof fn lemma_add_metric_wf(s: TuiView, name: Seq<char>)
    requires
        s.wf(),
    ensures
        s.add_metric(name).wf(),
        s.add_metric(name).metrics.contains(name),
        forall|other: Seq<char>|
            s.add_metric(name).metrics.contains(other) <==> (other == name || s.metrics.contains(
                other,
            )),
{
    if !s.metrics.contains(name) {
        lemma_insert_sorted(s.metrics, name);
        let t = s.add_metric(name);
        assert forall|other: Seq<char>|
            t.series.dom().contains(other) <==> t.metrics.contains(other) by {
            assert(s.series.dom().contains(other) <==> s.metrics.contains(other));
        }
    }
}

/// Taking in a data point keeps the state well-formed.
pub proof fn lemma_add_metric_point_wf(s: TuiView, name: Seq<char>, point: MetricPoint)
    requires
        s.wf(),
    ensures
        s.add_metric_point(name, point).wf(),
{
    let t = s.add_metric_point(name, point);
    if s.series.dom().contains(name) {
        assert forall|other: Seq<char>| t.series.dom().contains(other) implies (
        #[trigger] t.series[other]).len() <= MAX_POINTS by {
            if other != name {
                assert(s.series.dom().contains(other));
            }
        }
    }
}

/// Taking in an update line keeps the state well-formed.
pub proof fn lemma_add_update_wf(s: TuiView, text: Seq<char>)
    requires
        s.wf(),
    ensures
        s.add_update(text).wf(),
{
}

/// Moving the cursor keeps the state well-formed.
pub proof fn lemma_move_wf(s: TuiView)
    requires
        s.wf(),
    ensures
        s.next().wf(),
        s.previous().wf(),
{
}

/// Toggling the filter keeps the state well-formed.
pub proof fn lemma_toggle_wf(s: TuiView)
    requires
        s.wf(),
    ensures
        s.toggle_selected_metric().wf(),
{
}

/// Every notification and every key leads from a well-formed state to a
/// well-formed state.
pub proof fn lemma_step_wf(s: TuiView, message: UiMessageView, key: Key)
    requires
        s.wf(),
    ensures
        s.apply(message).wf(),
        s.on_key(key).wf(),
{
    match message {
        UiMessageView::NewMetric(name) => lemma_add_metric_wf(s, name),
        UiMessageView::MetricUpdate(text) => lemma_add_update_wf(s, text),
        UiMessageView::MetricDataPoint { name, point } => lemma_add_metric_point_wf(
            s,
            name,
            point,
        ),
    }
    lemma_move_wf(s);
    lemma_toggle_wf(s);
}

/// After any sequence of discoveries the list of metrics ascends strictly,
/// names nothing twice, and holds what it held before and the names added.
pub proof fn lemma_add_metrics_sorted(s: TuiView, names: Seq<Seq<char>>)
    requires
        s.wf(),
    ensures
        s.add_metrics(names).wf(),
        strictly_sorted(s.add_metrics(names).metrics),
        s.add_metrics(names).metrics.no_duplicates(),
        forall|other: Seq<char>|
            s.add_metrics(names).metrics.contains(other) <==> (names.contains(other)
                || s.metrics.contains(other)),
    decreases names.len(),
{
    if names.len() > 0 {
        let earlier = names.drop_last();
        lemma_add_metrics_sorted(s, earlier);
        let t = s.add_metrics(earlier);
        lemma_add_metric_wf(t, names.last());
        assert forall|other: Seq<char>|
            s.add_metrics(names).metrics.contains(other) <==> (names.contains(other)
                || s.metrics.contains(other)) by {
            if names.contains(other) {
                let i = choose|i: int| 0 <= i < names.len() && names[i] == other;
                if i < earlier.len() {
                    assert(earlier[i] == other);
                }
            }
            if earlier.contains(other) {
                let i = choose|i: int| 0 <= i < earlier.len() && earlier[i] == other;
                assert(names[i] == other);
            }
        }
    }
    lemma_sorted_no_duplicates(s.add_metrics(names).metrics);
}

/// While no filter is set every line is kept until a hundred newer ones have
/// come: after any sequence of lines, an empty list holds the last hundred of
/// them, the most recent first.
pub proof fn lemma_add_updates_keeps_newest(s: TuiView, texts: Seq<Seq<char>>)
    requires
        s.filter is None,
        s.updates.len() == 0,
    ensures
        s.add_updates(texts).updates == newest(texts, MAX_UPDATES as nat).reverse(),
        s.add_updates(texts).updates.len() <= MAX_UPDATES,
        s.add_updates(texts) == (TuiView { updates: s.add_updates(texts).updates, ..s }),
{
    lemma_add_updates_pushes(s, texts);
    assert(s.updates =~= Seq::<Seq<char>>::empty());
    lemma_push_all_front_keeps_newest(texts, MAX_UPDATES as nat);
}

/// While no filter is set, adding lines in turn pushes each to the front.
pub proof fn lemma_add_updates_pushes(s: TuiView, texts: Seq<Seq<char>>)
    requires
        s.filter is None,
    ensures
        s.add_updates(texts) == (TuiView {
            updates: push_all_front(s.updates, texts, MAX_UPDATES as nat),
            ..s
        }),
    decreases texts.len(),
{
    if texts.len() > 0 {
        lemma_add_updates_pushes(s, texts.drop_last());
    }
}

/// Adding points in turn to a discovered metric pushes each to the back of
/// its series and touches nothing else.
pub proof fn lemma_add_metric_points_pushes(s: TuiView, name: Seq<char>, points: Seq<MetricPoint>)
    requires
        s.series.dom().contains(name),
    ensures
        s.add_metric_points(name, points) == (TuiView {
            series: s.series.insert(
                name,
                push_all_back(s.series[name], points, MAX_POINTS as nat),
            ),
            ..s
        }),
    decreases points.len(),
{
    if points.len() > 0 {
        let earlier = points.drop_last();
        lemma_add_metric_points_pushes(s, name, earlier);
        let t = s.add_metric_points(name, earlier);
        assert(t.series.insert(
            name,
            push_back_bounded(t.series[name], points.last(), MAX_POINTS as nat),
        ) =~= s.series.insert(name, push_all_back(s.series[name], points, MAX_POINTS as nat)));
    } else {
        assert(s.series.insert(name, s.series[name]) =~= s.series);
    }
}

/// A series drops its oldest points first: after any sequence of points, a
/// series that was empty holds the last hundred of them, in the order they
/// came.
pub proof fn lemma_add_metric_points_keeps_newest(
    s: TuiView,
    name: Seq<char>,
    points: Seq<MetricPoint>,
)
    requires
        s.series.dom().contains(name),
        s.series[name].len() == 0,
    ensures
        s.add_metric_points(name, points).series[name] == newest(points, MAX_POINTS as nat),
        s.add_metric_points(name, points).series[name].len() <= MAX_POINTS,
{
    lemma_add_metric_points_pushes(s, name, points);
    assert(s.series[name] =~= Seq::<MetricPoint>::empty());
    lemma_push_all_back_keeps_newest(points, MAX_POINTS as nat);
}

/// The cursor goes round: one step down from the last entry leads to the
/// first, one step up from the first to the last, and a step down undoes a
/// step up.
pub proof fn lemma_cursor_wraps(s: TuiView)
    requires
        s.wf(),
        s.cursor is Some,
    ensures
        s.cursor == Some(s.metrics.len() - 1) ==> s.next().cursor == Some(0int),
        s.cursor == Some(0int) ==> s.previous().cursor == Some(s.metrics.len() - 1),
        s.next().previous() == s,
        s.previous().next() == s,
{
}

/// Toggling twice under the same cursor, from a state that is not filtered on
/// the metric under the cursor, leaves the dashboard unfiltered with no update
/// lines.
pub proof fn lemma_toggle_twice(s: TuiView)
    requires
        s.wf(),
        s.cursor is Some,
        s.filter != Some(s.metrics[s.cursor->0]),
    ensures
        s.toggle_selected_metric().filter == Some(s.metrics[s.cursor->0]),
        s.toggle_selected_metric().show_graph,
        s.toggle_selected_metric().toggle_selected_metric() == (TuiView {
            filter: None,
            show_graph: false,
            updates: Seq::empty(),
            ..s
        }),
{
}

} // verus!
