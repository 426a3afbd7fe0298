use timeline_gui::bridge::{
    gui_close, gui_init, gui_is_started, gui_mark_started, gui_mark_stopped, gui_next_action,
    gui_notify_update, gui_send_action,
};
use timeline_gui::gui_actions::{
    clip_add, clip_edit, clip_remove, close, none, save, seek, toggle_pause, Clip, GuiAction,
};

#[test]
fn fresh_bridge_is_not_started() {
    let g = gui_init();
    assert!(!gui_is_started(&g));
    assert!(!gui_notify_update(&g));
    assert!(!gui_close(&g));
}

#[test]
fn handshake_sets_the_ready_handle_once() {
    let mut g = gui_init();
    gui_mark_started(&mut g, 7);
    assert!(gui_is_started(&g));
    assert!(gui_notify_update(&g));
    assert!(gui_close(&g));
    gui_mark_stopped(&mut g);
    assert!(!gui_is_started(&g));
}

#[test]
fn poll_on_running_bridge_with_empty_queue_is_noop() {
    let mut g = gui_init();
    gui_mark_started(&mut g, 1);
    assert_eq!(gui_next_action(&mut g), GuiAction::NoOp);
    assert_eq!(gui_next_action(&mut g), GuiAction::NoOp);
}

#[test]
fn poll_after_shutdown_returns_close_forever() {
    let mut g = gui_init();
    gui_mark_started(&mut g, 1);
    gui_send_action(&mut g, seek(5));
    gui_mark_stopped(&mut g);
    // The queue drains first, then Close, indefinitely.
    assert_eq!(gui_next_action(&mut g), GuiAction::Seek { position: 5 });
    for _ in 0..10 {
        assert_eq!(gui_next_action(&mut g), GuiAction::Close);
    }
}

#[test]
fn queue_is_fifo_for_any_interleaving() {
    let mut g = gui_init();
    gui_mark_started(&mut g, 1);
    gui_send_action(&mut g, toggle_pause());
    gui_send_action(&mut g, seek(42));
    assert_eq!(gui_next_action(&mut g), GuiAction::TogglePause);
    gui_send_action(&mut g, save());
    gui_send_action(&mut g, clip_remove(9));
    assert_eq!(gui_next_action(&mut g), GuiAction::Seek { position: 42 });
    assert_eq!(gui_next_action(&mut g), GuiAction::Save);
    assert_eq!(gui_next_action(&mut g), GuiAction::ClipRemove { at_position: 9 });
    assert_eq!(gui_next_action(&mut g), GuiAction::NoOp);
}

#[test]
fn constructors_build_the_exact_actions() {
    assert_eq!(none(), GuiAction::NoOp);
    assert_eq!(toggle_pause(), GuiAction::TogglePause);
    assert_eq!(close(), GuiAction::Close);
    assert_eq!(seek(3), GuiAction::Seek { position: 3 });
    let c = Clip { id: 4, start: 1, end: 2 };
    assert_eq!(clip_add(&c), GuiAction::ClipAdd { clip: c });
    assert_eq!(clip_edit(&c), GuiAction::ClipEdit { clip: c });
    assert_eq!(clip_remove(8), GuiAction::ClipRemove { at_position: 8 });
    assert_eq!(save(), GuiAction::Save);
}
