use fancurve::widget::drag_speed_for_offset;
use fancurve::widget::FanCurveUnitView;
use fancurve::widget::WidgetEvent;
use fancurve::widget::WidgetResponse;

#[test]
fn new_widget_has_the_documented_defaults() {
    let w = FanCurveUnitView::new(36, 70);
    assert_eq!(w.get_temp(), 36);
    assert_eq!(w.get_speed(), 70);
    assert_eq!(w.get_height(), 10);
    assert_eq!(w.get_min_temp(), 5);
    assert_eq!(w.get_max_temp(), 95);
}

#[test]
fn chainable_builders_set_their_fields() {
    let w = FanCurveUnitView::new(36, 70)
        .with_height(12)
        .with_temp_min_max(10, 90)
        .with_temp_speed(40, 80);
    assert_eq!(w.get_height(), 12);
    assert_eq!(w.get_min_temp(), 10);
    assert_eq!(w.get_max_temp(), 90);
    assert_eq!(w.get_temp(), 40);
    assert_eq!(w.get_speed(), 80);
}

#[test]
fn set_height_changes_the_required_size() {
    let mut w = FanCurveUnitView::new(36, 70);
    w.set_height(8);
    assert_eq!(w.req_size(), (4, 9));
}

#[test]
fn up_key_steps_and_fires_the_change_callback() {
    let mut w = FanCurveUnitView::new(36, 70);
    let r = w.on_event(WidgetEvent::UpKey);
    assert_eq!(r, WidgetResponse::Changed(36, 71));
    assert_eq!(w.get_speed(), 71);
}

#[test]
fn down_key_steps_and_fires_the_change_callback() {
    let mut w = FanCurveUnitView::new(36, 70);
    let r = w.on_event(WidgetEvent::DownKey);
    assert_eq!(r, WidgetResponse::Changed(36, 69));
    assert_eq!(w.get_speed(), 69);
}

#[test]
fn up_key_at_top_speed_is_ignored() {
    let mut w = FanCurveUnitView::new(36, 100);
    let r = w.on_event(WidgetEvent::UpKey);
    assert_eq!(r, WidgetResponse::Ignored);
    assert_eq!(w.get_speed(), 100, "state must be unchanged");
}

#[test]
fn down_key_at_zero_is_ignored() {
    let mut w = FanCurveUnitView::new(36, 0);
    let r = w.on_event(WidgetEvent::DownKey);
    assert_eq!(r, WidgetResponse::Ignored);
    assert_eq!(w.get_speed(), 0, "state must be unchanged");
}

#[test]
fn enter_key_reports_the_current_pair_without_change() {
    let mut w = FanCurveUnitView::new(36, 70);
    let r = w.on_event(WidgetEvent::EnterKey);
    assert_eq!(r, WidgetResponse::Entered(36, 70));
    assert_eq!(w.get_speed(), 70);
}

#[test]
fn press_inside_bounds_starts_a_drag_and_snaps() {
    let mut w = FanCurveUnitView::new(36, 70);
    // Widget anchored at (20, 5); pointer at (21, 8): vertical offset 3.
    let r = w.on_event(WidgetEvent::MousePress { pos_x: 21, pos_y: 8, off_x: 20, off_y: 5 });
    assert_eq!(r, WidgetResponse::Changed(36, 3));
    assert_eq!(w.get_speed(), 3);
}

#[test]
fn press_outside_bounds_is_ignored() {
    let mut w = FanCurveUnitView::new(36, 70);
    // The widget is 4 wide: x offset 4 falls just outside.
    let r = w.on_event(WidgetEvent::MousePress { pos_x: 24, pos_y: 8, off_x: 20, off_y: 5 });
    assert_eq!(r, WidgetResponse::Ignored);
    assert_eq!(w.get_speed(), 70);
    // A hold without a drag in progress is ignored too.
    let r = w.on_event(WidgetEvent::MouseHold { pos_x: 21, pos_y: 8, off_x: 20, off_y: 5 });
    assert_eq!(r, WidgetResponse::Ignored);
}

#[test]
fn drag_mapping_at_the_gauge_ends() {
    // Height 10: offset 0 maps to full speed, a full-height offset to 0.
    assert_eq!(drag_speed_for_offset(0, 10), 100);
    assert_eq!(drag_speed_for_offset(10, 10), 0);
    // Beyond the gauge it stays clamped at 0, never negative.
    assert_eq!(drag_speed_for_offset(11, 10), 0);
    assert_eq!(drag_speed_for_offset(1000, 10), 0);
    // In between, each row of height 10 is worth ten percent.
    assert_eq!(drag_speed_for_offset(3, 10), 70);
}

#[test]
fn hold_recommits_the_drag_mapping_each_time() {
    let mut w = FanCurveUnitView::new(36, 70);
    let r = w.on_event(WidgetEvent::MousePress { pos_x: 20, pos_y: 5, off_x: 20, off_y: 5 });
    assert_eq!(r, WidgetResponse::Changed(36, 0));
    let r = w.on_event(WidgetEvent::MouseHold { pos_x: 20, pos_y: 5, off_x: 20, off_y: 5 });
    assert_eq!(r, WidgetResponse::Changed(36, 100));
    let r = w.on_event(WidgetEvent::MouseHold { pos_x: 20, pos_y: 15, off_x: 20, off_y: 5 });
    assert_eq!(r, WidgetResponse::Changed(36, 0));
    assert_eq!(w.get_speed(), 0);
}

#[test]
fn release_anywhere_ends_the_drag_without_a_change() {
    let mut w = FanCurveUnitView::new(36, 70);
    w.on_event(WidgetEvent::MousePress { pos_x: 20, pos_y: 8, off_x: 20, off_y: 5 });
    let speed = w.get_speed();
    let r = w.on_event(WidgetEvent::MouseRelease);
    assert_eq!(r, WidgetResponse::Ignored);
    assert_eq!(w.get_speed(), speed);
    // After the release the hold no longer drags.
    let r = w.on_event(WidgetEvent::MouseHold { pos_x: 20, pos_y: 5, off_x: 20, off_y: 5 });
    assert_eq!(r, WidgetResponse::Ignored);
}

#[test]
fn widget_always_accepts_focus() {
    let w = FanCurveUnitView::new(36, 70);
    assert!(w.accepts_focus());
}

#[test]
fn slider_row_scales_the_speed_down_the_gauge() {
    let w = FanCurveUnitView::new(36, 70);
    assert_eq!(w.slider_row(), 3);
    let w = FanCurveUnitView::new(36, 100);
    assert_eq!(w.slider_row(), 0);
    let w = FanCurveUnitView::new(36, 0);
    assert_eq!(w.slider_row(), 9);
}
