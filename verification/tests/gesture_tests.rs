use timeline_gui::converter::{ProgressPosConverter, Rect};
use timeline_gui::gui_actions::{Clip, GuiAction};
use timeline_gui::progress::{DragInput, ProgressBar, SeekState};
use timeline_gui::snapshot::AppStateSnapshot;

fn no_drag() -> DragInput {
    DragInput {
        drag_started_primary: false,
        drag_stopped_primary: false,
        dragged_primary: false,
        dragged_secondary: false,
        pointer_x: None,
    }
}

fn drag_start_at(x: i64) -> DragInput {
    DragInput { drag_started_primary: true, dragged_primary: true, pointer_x: Some(x), ..no_drag() }
}

fn drag_move_at(x: i64) -> DragInput {
    DragInput { dragged_primary: true, pointer_x: Some(x), ..no_drag() }
}

fn drag_stop() -> DragInput {
    DragInput { drag_stopped_primary: true, ..no_drag() }
}

fn identity_converter() -> ProgressPosConverter {
    ProgressPosConverter {
        zoom: 1000,
        widget_center_norm: 500_000,
        rect: Rect { left: 0, width: 1000 },
        total_runtime: 1000,
    }
}

fn snapshot(paused: bool) -> AppStateSnapshot {
    AppStateSnapshot {
        paused,
        current_position: 0,
        total_runtime: 1000,
        clips: Vec::new(),
        text: Vec::new(),
    }
}

fn bar() -> ProgressBar {
    ProgressBar { zoom: 1000, widget_center_norm: 500_000, pending_clip: None }
}

fn count_toggles(actions: &[GuiAction]) -> usize {
    actions.iter().filter(|a| matches!(a, GuiAction::TogglePause)).count()
}

#[test]
fn seek_drag_on_playing_stream_toggles_twice() {
    let conv = identity_converter();
    let state = snapshot(false);
    let mut b = bar();
    let mut seek_state = SeekState { paused_on_click: true };
    let mut out: Vec<GuiAction> = Vec::new();

    // Drag start: pause for scrubbing, then seek each frame, resume on stop.
    b.handle_seek(&conv, &drag_start_at(100), &state, &mut out, &mut seek_state);
    assert_eq!(out, vec![GuiAction::Seek { position: 100 }, GuiAction::TogglePause]);
    b.handle_seek(&conv, &drag_move_at(150), &state, &mut out, &mut seek_state);
    b.handle_seek(&conv, &drag_move_at(200), &state, &mut out, &mut seek_state);
    b.handle_seek(&conv, &drag_stop(), &state, &mut out, &mut seek_state);
    assert_eq!(
        out,
        vec![
            GuiAction::Seek { position: 100 },
            GuiAction::TogglePause,
            GuiAction::Seek { position: 150 },
            GuiAction::Seek { position: 200 },
            GuiAction::TogglePause,
        ],
    );
    assert_eq!(count_toggles(&out), 2);
}

#[test]
fn seek_drag_on_paused_stream_never_toggles() {
    let conv = identity_converter();
    let state = snapshot(true);
    let mut b = bar();
    let mut seek_state = SeekState { paused_on_click: false };
    let mut out: Vec<GuiAction> = Vec::new();

    b.handle_seek(&conv, &drag_start_at(100), &state, &mut out, &mut seek_state);
    b.handle_seek(&conv, &drag_move_at(150), &state, &mut out, &mut seek_state);
    b.handle_seek(&conv, &drag_stop(), &state, &mut out, &mut seek_state);
    assert_eq!(count_toggles(&out), 0);
    assert_eq!(
        out,
        vec![GuiAction::Seek { position: 100 }, GuiAction::Seek { position: 150 }],
    );
}

#[test]
fn clip_creation_press_move_release() {
    let conv = identity_converter();
    let mut b = bar();
    let mut out: Vec<GuiAction> = Vec::new();

    // Press at position 10 with the modifier held.
    b.handle_clip_creation(&conv, true, &drag_start_at(10), &mut out);
    assert_eq!(b.pending_clip, Some(Clip { id: 0, start: 10, end: 10 }));
    assert_eq!(out, vec![]);

    // Move to 15: the pending clip's end follows.
    b.handle_clip_creation(&conv, true, &drag_move_at(15), &mut out);
    assert_eq!(b.pending_clip, Some(Clip { id: 0, start: 10, end: 15 }));
    assert_eq!(out, vec![]);

    // Release: exactly one ClipAdd, pending cleared.
    b.handle_clip_creation(&conv, true, &drag_stop(), &mut out);
    assert_eq!(b.pending_clip, None);
    assert_eq!(out, vec![GuiAction::ClipAdd { clip: Clip { id: 0, start: 10, end: 15 } }]);
}

#[test]
fn clip_creation_needs_the_modifier() {
    let conv = identity_converter();
    let mut b = bar();
    let mut out: Vec<GuiAction> = Vec::new();
    b.handle_clip_creation(&conv, false, &drag_start_at(10), &mut out);
    assert_eq!(b.pending_clip, None);
    assert_eq!(out, vec![]);
}

#[test]
fn pending_clip_end_may_cross_its_start() {
    // Dragging leftwards past the start is forwarded uncorrected; ordering
    // is the host's validation duty.
    let conv = identity_converter();
    let mut b = bar();
    let mut out: Vec<GuiAction> = Vec::new();
    b.handle_clip_creation(&conv, true, &drag_start_at(500), &mut out);
    b.handle_clip_creation(&conv, true, &drag_move_at(300), &mut out);
    b.handle_clip_creation(&conv, true, &drag_stop(), &mut out);
    assert_eq!(out, vec![GuiAction::ClipAdd { clip: Clip { id: 0, start: 500, end: 300 } }]);
}

#[test]
fn boundary_drag_emits_the_edited_clip() {
    let conv = identity_converter();
    let state = snapshot(true);
    let mut b = bar();
    let mut seek_state = SeekState { paused_on_click: true };
    let mut out: Vec<GuiAction> = Vec::new();
    let clip = Clip { id: 7, start: 100, end: 200 };

    // The start handle is dragged to pixel 120; the end handle is idle.
    b.render_clip(&conv, &clip, &drag_move_at(120), &no_drag(), &state, &mut out, &mut seek_state);
    assert_eq!(
        out,
        vec![
            GuiAction::Seek { position: 120 },
            GuiAction::ClipEdit { clip: Clip { id: 7, start: 120, end: 200 } },
        ],
    );
}

#[test]
fn boundary_drag_may_cross_the_other_boundary() {
    let conv = identity_converter();
    let state = snapshot(true);
    let mut b = bar();
    let mut seek_state = SeekState { paused_on_click: true };
    let mut out: Vec<GuiAction> = Vec::new();
    let clip = Clip { id: 7, start: 100, end: 200 };

    // The end handle is dragged left of the start: forwarded uncorrected.
    b.render_clip(&conv, &clip, &no_drag(), &drag_move_at(50), &state, &mut out, &mut seek_state);
    assert_eq!(
        out,
        vec![
            GuiAction::Seek { position: 50 },
            GuiAction::ClipEdit { clip: Clip { id: 7, start: 100, end: 50 } },
        ],
    );
}

#[test]
fn should_toggle_pause_truth_table() {
    let state_playing = snapshot(false);
    let state_paused = snapshot(true);

    // Drag starts while playing: toggle, and remember it was playing.
    let mut s = SeekState { paused_on_click: true };
    assert!(s.should_toggle_pause(&drag_start_at(0), &state_playing));
    assert!(!s.paused_on_click);

    // Drag starts while paused: no toggle, remember it was paused.
    let mut s = SeekState { paused_on_click: false };
    assert!(!s.should_toggle_pause(&drag_start_at(0), &state_paused));
    assert!(s.paused_on_click);

    // Drag stops; it started on a playing stream: toggle back.
    let mut s = SeekState { paused_on_click: false };
    assert!(s.should_toggle_pause(&drag_stop(), &state_paused));

    // Drag stops; it started on a paused stream: stay paused.
    let mut s = SeekState { paused_on_click: true };
    assert!(!s.should_toggle_pause(&drag_stop(), &state_paused));

    // The current pause flag at drag-stop is not consulted.
    let mut s = SeekState { paused_on_click: false };
    assert!(s.should_toggle_pause(&drag_stop(), &state_playing));
}
