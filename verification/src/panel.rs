//! The curve editor panel: one slider widget per curve point, with a
//! widget's committed change routed back into the shared curve by the
//! stable position the widget was built for.
use vstd::prelude::*;
use crate::curve::TempSpeedPoint;
use crate::curve::MAX_TEMP;
use crate::curve::MIN_TEMP;
use crate::shared::SharedCurve;
use crate::widget::widget_after_event;
use crate::widget::widget_response_for;
use crate::widget::FanCurveUnitView;
use crate::widget::WidgetEvent;
use crate::widget::WidgetResponse;
use crate::widget::DEFAULT_HEIGHT;

verus! {

/// Screens with at most this many rows are too short for the slider panel.
pub const SLIDER_PANEL_MIN_ROWS: usize = 17;

/// Whether the slider panel fits on a screen of the given height; the host
/// hides the panel on shorter screens and shows it again when room returns.
pub fn sliders_visible(screen_rows: usize) -> (r: bool)
    ensures
        r == (screen_rows > SLIDER_PANEL_MIN_ROWS),
{
    screen_rows > SLIDER_PANEL_MIN_ROWS
}

/// The widget a panel builds for one curve point.
pub open spec fn widget_for_point(p: TempSpeedPoint) -> FanCurveUnitView {
    FanCurveUnitView {
        height: DEFAULT_HEIGHT,
        fan_speed: p.speed,
        temp: p.temperature,
        min_temp: MIN_TEMP,
        max_temp: MAX_TEMP,
        dragging: false,
    }
}

/// Lays out one slider widget per point of a curve snapshot, in curve order.
pub struct CurveEditorPanel {
    widgets: Vec<FanCurveUnitView>,
}

impl View for CurveEditorPanel {
    type V = Seq<FanCurveUnitView>;

    closed spec fn view(&self) -> Seq<FanCurveUnitView> {
        self.widgets@
    }
}

impl CurveEditorPanel {
    /// Builds one fresh slider per snapshot point, each bound to the point's
    /// position in the curve.
    pub fn from_points(points: &Vec<TempSpeedPoint>) -> (p: CurveEditorPanel)
        ensures
            p@.len() == points@.len(),
            forall|i: int| 0 <= i < points@.len() ==> p@[i] == widget_for_point(#[trigger] points@[i]),
    {
        let mut widgets: Vec<FanCurveUnitView> = Vec::new();
        let n = points.len();
        let mut i: usize = 0;
        while i < n
            invariant
                i <= n,
                n == points@.len(),
                widgets@.len() == i,
                forall|k: int| 0 <= k < i ==> widgets@[k] == widget_for_point(
                    #[trigger] points@[k],
                ),
            decreases n - i,
        {
            let pt = points[i];
            widgets.push(FanCurveUnitView::new(pt.temperature, pt.speed));
            i += 1;
        }
        CurveEditorPanel { widgets }
    }

    /// How many sliders the panel holds.
    pub fn widget_count(&self) -> (n: usize)
        ensures
            n == self@.len(),
    {
        self.widgets.len()
    }

    /// A copy of the slider at a position.
    pub fn widget_at(&self, i: usize) -> (w: FanCurveUnitView)
        requires
            i < self@.len(),
        ensures
            w == self@[i as int],
    {
        self.widgets[i]
    }

    /// Routes one input event to the slider at a position, and writes a
    /// committed change back into the shared curve at that same position.
    /// Returns the widget's response; a commit the curve refuses (it would
    /// break the curve's order) changes the slider but not the curve.
    pub fn on_widget_event(
        &mut self,
        shared: &SharedCurve,
        index: usize,
        event: WidgetEvent,
    ) -> (r: WidgetResponse)
        requires
            index < old(self)@.len(),
            old(self)@[index as int].height < usize::MAX,
        ensures
            final(self)@.len() == old(self)@.len(),
            final(self)@[index as int] == widget_after_event(old(self)@[index as int], event),
            r == widget_response_for(old(self)@[index as int], event),
            forall|k: int|
                0 <= k < old(self)@.len() && k != index ==> final(self)@[k] == #[trigger] old(
                    self,
                )@[k],
    {
        let mut w = self.widgets[index];
        let r = w.on_event(event);
        self.widgets[index] = w;
        match r {
            WidgetResponse::Changed(temperature, speed) => {
                let _ = shared.update_point_at(index, temperature, speed);
            },
            _ => {},
        }
        r
    }

    /// Re-synchronizes the panel with the curve: when the point count has
    /// changed the panel is rebuilt from the snapshot, otherwise it is kept
    /// (any drag in progress stays alive).
    pub fn resync(&mut self, points: &Vec<TempSpeedPoint>)
        ensures
            old(self)@.len() == points@.len() ==> *final(self) == *old(self),
            old(self)@.len() != points@.len() ==> {
                &&& final(self)@.len() == points@.len()
                &&& forall|i: int|
                    0 <= i < points@.len() ==> final(self)@[i] == widget_for_point(
                        #[trigger] points@[i],
                    )
            },
    {
        if self.widgets.len() != points.len() {
            let rebuilt = CurveEditorPanel::from_points(points);
            self.widgets = rebuilt.widgets;
        }
    }
}

} // verus!
