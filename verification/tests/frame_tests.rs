use timeline_gui::converter::Rect;
use timeline_gui::frame::{update, FrameInput, KeyCode, KeyInput};
use timeline_gui::gui_actions::{Clip, GuiAction};
use timeline_gui::progress::{DragInput, HandlePair, ProgressBar, SeekState, WidgetInput};
use timeline_gui::snapshot::AppState;

fn no_drag() -> DragInput {
    DragInput {
        drag_started_primary: false,
        drag_stopped_primary: false,
        dragged_primary: false,
        dragged_secondary: false,
        pointer_x: None,
    }
}

fn idle_widget() -> WidgetInput {
    WidgetInput {
        rect: Rect { left: 0, width: 1000 },
        response: no_drag(),
        ctrl_down: false,
        pointer_delta_x: 0,
        contains_pointer: false,
        latest_pointer_x: None,
        zoom_num: 1,
        zoom_den: 1,
        clip_inputs: Vec::new(),
    }
}

fn idle_input() -> FrameInput {
    FrameInput {
        play_clicked: false,
        delete_clicked: false,
        widget: idle_widget(),
        transcript: no_drag(),
        transcript_seek_pos: None,
        keys: Vec::new(),
    }
}

fn host() -> AppState {
    AppState {
        paused: false,
        current_position: 42,
        total_runtime: 1000,
        clips: Vec::new(),
        text: b"hello world".to_vec(),
        snapshots_acquired: 0,
        snapshots_released: 0,
    }
}

fn bar() -> ProgressBar {
    ProgressBar { zoom: 1000, widget_center_norm: 500_000, pending_clip: None }
}

#[test]
fn snapshot_release_runs_exactly_once_per_acquire() {
    let mut app = host();
    let mut b = bar();
    let mut s = SeekState { paused_on_click: false };
    let mut out: Vec<GuiAction> = Vec::new();

    // Three simulated paint passes, one of them skipped early on bad input:
    // the ledger still balances after every pass.
    update(&mut app, &mut b, &mut s, &idle_input(), &mut out);
    assert_eq!(app.snapshots_acquired, 1);
    assert_eq!(app.snapshots_released, 1);

    let mut bad = idle_input();
    bad.widget.zoom_den = 0;
    update(&mut app, &mut b, &mut s, &bad, &mut out);
    assert_eq!(app.snapshots_acquired, 2);
    assert_eq!(app.snapshots_released, 2);

    update(&mut app, &mut b, &mut s, &idle_input(), &mut out);
    assert_eq!(app.snapshots_acquired, 3);
    assert_eq!(app.snapshots_released, 3);
}

#[test]
fn idle_frame_emits_nothing() {
    let mut app = host();
    let mut b = bar();
    let mut s = SeekState { paused_on_click: false };
    let mut out: Vec<GuiAction> = Vec::new();
    update(&mut app, &mut b, &mut s, &idle_input(), &mut out);
    assert_eq!(out, vec![]);
}

#[test]
fn skipped_frame_changes_nothing_but_the_ledger() {
    let mut app = host();
    let mut b = bar();
    let mut s = SeekState { paused_on_click: false };
    let mut out: Vec<GuiAction> = Vec::new();
    let mut bad = idle_input();
    bad.widget.rect.width = 0;
    update(&mut app, &mut b, &mut s, &bad, &mut out);
    assert_eq!(out, vec![]);
    assert_eq!(b.zoom, 1000);
    assert_eq!(b.widget_center_norm, 500_000);
    assert_eq!(app.snapshots_acquired, 1);
    assert_eq!(app.snapshots_released, 1);
}

#[test]
fn control_panel_buttons_emit_their_actions() {
    let mut app = host();
    let mut b = bar();
    let mut s = SeekState { paused_on_click: false };
    let mut out: Vec<GuiAction> = Vec::new();
    let mut input = idle_input();
    input.play_clicked = true;
    input.delete_clicked = true;
    update(&mut app, &mut b, &mut s, &input, &mut out);
    assert_eq!(
        out,
        vec![GuiAction::TogglePause, GuiAction::ClipRemove { at_position: 42 }],
    );
}

#[test]
fn space_toggles_and_ctrl_s_saves() {
    let mut app = host();
    let mut b = bar();
    let mut s = SeekState { paused_on_click: false };
    let mut out: Vec<GuiAction> = Vec::new();
    let mut input = idle_input();
    input.keys = vec![
        KeyInput { key: KeyCode::Space, pressed: true, ctrl: false },
        KeyInput { key: KeyCode::Space, pressed: false, ctrl: false },
        KeyInput { key: KeyCode::KeyS, pressed: true, ctrl: true },
        KeyInput { key: KeyCode::KeyS, pressed: true, ctrl: false },
        KeyInput { key: KeyCode::Other, pressed: true, ctrl: true },
    ];
    update(&mut app, &mut b, &mut s, &input, &mut out);
    assert_eq!(out, vec![GuiAction::TogglePause, GuiAction::Save]);
}

#[test]
fn transcript_drag_seeks_to_the_resolved_time() {
    let mut app = host();
    app.paused = true;
    let mut b = bar();
    let mut s = SeekState { paused_on_click: true };
    let mut out: Vec<GuiAction> = Vec::new();
    let mut input = idle_input();
    input.transcript = DragInput { dragged_primary: true, pointer_x: Some(10), ..no_drag() };
    input.transcript_seek_pos = Some(314);
    update(&mut app, &mut b, &mut s, &input, &mut out);
    assert_eq!(out, vec![GuiAction::Seek { position: 314 }]);
}

#[test]
fn clip_handle_drag_through_a_whole_paint_pass() {
    let mut app = host();
    app.paused = true;
    app.clips = vec![Clip { id: 1, start: 100, end: 200 }];
    let mut b = bar();
    let mut s = SeekState { paused_on_click: true };
    let mut out: Vec<GuiAction> = Vec::new();
    let mut input = idle_input();
    input.widget.clip_inputs = vec![HandlePair {
        start: DragInput { dragged_primary: true, pointer_x: Some(120), ..no_drag() },
        end: no_drag(),
    }];
    update(&mut app, &mut b, &mut s, &input, &mut out);
    assert_eq!(
        out,
        vec![
            GuiAction::Seek { position: 120 },
            GuiAction::ClipEdit { clip: Clip { id: 1, start: 120, end: 200 } },
        ],
    );
}

#[test]
fn seek_drag_through_a_whole_paint_pass() {
    let mut app = host();
    let mut b = bar();
    let mut s = SeekState { paused_on_click: true };
    let mut out: Vec<GuiAction> = Vec::new();

    // Frame one: a drag starts on the timeline widget at pixel 100 while
    // the stream plays.
    let mut input = idle_input();
    input.widget.response = DragInput {
        drag_started_primary: true,
        dragged_primary: true,
        pointer_x: Some(100),
        ..no_drag()
    };
    update(&mut app, &mut b, &mut s, &input, &mut out);
    assert_eq!(
        out,
        vec![GuiAction::Seek { position: 100 }, GuiAction::TogglePause],
    );

    // Frame two: the drag stops; playback resumes.
    out.clear();
    let mut input = idle_input();
    input.widget.response = DragInput { drag_stopped_primary: true, ..no_drag() };
    update(&mut app, &mut b, &mut s, &input, &mut out);
    assert_eq!(out, vec![GuiAction::TogglePause]);
}
