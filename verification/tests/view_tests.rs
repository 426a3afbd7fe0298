use timeline_gui::converter::{ProgressPosConverter, Rect};
use timeline_gui::progress::{DragInput, ProgressBar};

fn no_drag() -> DragInput {
    DragInput {
        drag_started_primary: false,
        drag_stopped_primary: false,
        dragged_primary: false,
        dragged_secondary: false,
        pointer_x: None,
    }
}

fn secondary_drag() -> DragInput {
    DragInput { dragged_secondary: true, ..no_drag() }
}

fn converter_for(bar: &ProgressBar) -> ProgressPosConverter {
    ProgressPosConverter {
        zoom: bar.zoom,
        widget_center_norm: bar.widget_center_norm,
        rect: Rect { left: 0, width: 1000 },
        total_runtime: 1000,
    }
}

fn view_invariant_holds(bar: &ProgressBar) -> bool {
    if bar.zoom < 1000 || bar.zoom > 1_000_000_000 {
        return false;
    }
    let lo = (1_000_000_000u64 + 2 * bar.zoom - 1) / (2 * bar.zoom);
    let lo = lo as i64;
    lo <= bar.widget_center_norm && bar.widget_center_norm <= 1_000_000 - lo
}

#[test]
fn zoom_never_drops_below_one() {
    let mut bar = ProgressBar { zoom: 1000, widget_center_norm: 500_000, pending_clip: None };
    let conv = converter_for(&bar);
    // A strong zoom-out request still floors the zoom at 1.0.
    bar.handle_zoom(&conv, true, Some(500), 1, 1000);
    assert_eq!(bar.zoom, 1000);
}

#[test]
fn zoom_is_capped() {
    let mut bar =
        ProgressBar { zoom: 999_999_999, widget_center_norm: 500_000, pending_clip: None };
    let conv = converter_for(&bar);
    bar.handle_zoom(&conv, true, Some(500), 1_000_000, 1);
    assert_eq!(bar.zoom, 1_000_000_000);
}

#[test]
fn zoom_at_cursor_keeps_the_pointed_position() {
    let mut bar = ProgressBar { zoom: 1000, widget_center_norm: 500_000, pending_clip: None };
    let conv = converter_for(&bar);
    // Doubling the zoom with the pointer at 3/4 of the widget: the distance
    // from center to the point halves.
    bar.handle_zoom(&conv, true, Some(750), 2, 1);
    assert_eq!(bar.zoom, 2000);
    assert_eq!(bar.widget_center_norm, 625_000);
    bar.clamp_widget_center();
    assert_eq!(bar.widget_center_norm, 625_000);
    assert!(view_invariant_holds(&bar));
}

#[test]
fn pan_moves_against_the_pointer_delta() {
    let mut bar = ProgressBar { zoom: 2000, widget_center_norm: 500_000, pending_clip: None };
    // delta of +100 pixels over a 1000-pixel widget at zoom 2: 5% of the
    // timeline, in normalized units 50_000.
    bar.handle_pan(&secondary_drag(), 100, 1000);
    assert_eq!(bar.widget_center_norm, 450_000);
    bar.clamp_widget_center();
    assert!(view_invariant_holds(&bar));
}

#[test]
fn pan_without_secondary_drag_does_nothing() {
    let mut bar = ProgressBar { zoom: 2000, widget_center_norm: 500_000, pending_clip: None };
    bar.handle_pan(&no_drag(), 100, 1000);
    assert_eq!(bar.widget_center_norm, 500_000);
}

#[test]
fn view_invariant_after_any_sequence_of_pans_and_zooms() {
    let mut bar = ProgressBar { zoom: 1000, widget_center_norm: 500_000, pending_clip: None };
    let deltas: [i64; 7] = [500_000, -900_000, 123, -456_789, 1_000_000, -1_000_000, 77];
    let factors: [(u64, u64); 7] = [(3, 1), (1, 2), (1001, 1000), (999, 1000), (500, 1), (1, 400), (7, 5)];
    for i in 0..7 {
        let conv = converter_for(&bar);
        bar.handle_pan(&secondary_drag(), deltas[i], 1000);
        bar.handle_zoom(&conv, true, Some((i as i64) * 150), factors[i].0, factors[i].1);
        bar.clamp_widget_center();
        assert!(view_invariant_holds(&bar));
    }
}

#[test]
fn clamp_pins_the_window_inside_the_timeline() {
    // At zoom 1.0 the window is the whole timeline: the center is pinned to
    // the middle.
    let mut bar = ProgressBar { zoom: 1000, widget_center_norm: 0, pending_clip: None };
    bar.clamp_widget_center();
    assert_eq!(bar.widget_center_norm, 500_000);
    // At zoom 2.0 the center may move within [1/4, 3/4].
    let mut bar = ProgressBar { zoom: 2000, widget_center_norm: 0, pending_clip: None };
    bar.clamp_widget_center();
    assert_eq!(bar.widget_center_norm, 250_000);
    bar.widget_center_norm = 999_999;
    bar.clamp_widget_center();
    assert_eq!(bar.widget_center_norm, 750_000);
}
