//! One paint pass of the UI: acquire a snapshot of the host state, run the
//! control panel, the timeline widget, the transcript panel's seek handling
//! and the keyboard shortcuts, and release the snapshot — exactly once, on
//! every exit path.

use vstd::prelude::*;
use crate::converter::{NORM_ONE, TOTAL_MAX, WIDTH_MAX, LEFT_MAX, ZOOM_ONE, ZOOM_MAX};
use crate::gui_actions::{GuiAction, clip_remove, save, seek, toggle_pause};
use crate::progress::{
    bar_after_show, poc_after_show, show_emits, show_input_ok, stp_new_poc, stp_result, view_wf,
    DragInput, ProgressBar, SeekState, WidgetInput, DELTA_MAX, FACTOR_MAX,
};
use crate::snapshot::{AppState, AppStateSnapshot};

verus! {

/// The keys the editor reacts to.
#[derive(Clone, Copy, PartialEq, Eq, Structural, Debug)]
pub enum KeyCode {
    Space,
    KeyS,
    Other,
}

/// One keyboard event of the frame.
#[derive(Clone, Copy, Debug)]
pub struct KeyInput {
    pub key: KeyCode,
    pub pressed: bool,
    pub ctrl: bool,
}

/// Everything one paint pass reads from the window system, reduced to plain
/// values.
pub struct FrameInput {
    pub play_clicked: bool,
    pub delete_clicked: bool,
    pub widget: WidgetInput,
    pub transcript: DragInput,
    pub transcript_seek_pos: Option<i64>,
    pub keys: Vec<KeyInput>,
}

/// The action one key event emits: space toggles pause, ctrl-s saves.
pub open spec fn key_emits(k: KeyInput) -> Seq<GuiAction> {
    if k.key is Space && k.pressed {
        seq![GuiAction::TogglePause]
    } else if k.key is KeyS && k.pressed && k.ctrl {
        seq![GuiAction::Save]
    } else {
        Seq::<GuiAction>::empty()
    }
}

/// The actions the key events `i ..` emit, in order.
pub open spec fn keys_emits_from(keys: Seq<KeyInput>, i: int) -> Seq<GuiAction>
    decreases keys.len() - i,
{
    if i < 0 || i >= keys.len() {
        Seq::<GuiAction>::empty()
    } else {
        key_emits(keys[i]) + keys_emits_from(keys, i + 1)
    }
}

/// The actions the control panel emits: a pause toggle for the play button,
/// and the removal of the clip at the playback position for the delete
/// button.
pub open spec fn controls_emits(state: AppStateSnapshot, input: FrameInput) -> Seq<GuiAction> {
    (if input.play_clicked {
        seq![GuiAction::TogglePause]
    } else {
        Seq::<GuiAction>::empty()
    }) + (if input.delete_clicked {
        seq![GuiAction::ClipRemove { at_position: state.current_position }]
    } else {
        Seq::<GuiAction>::empty()
    })
}

/// The actions the transcript panel emits: its drag takes part in the pause
/// arbitration, and while dragged it seeks to the host-resolved time of the
/// character under the pointer.
pub open spec fn transcript_emits(input: FrameInput, poc: bool, paused: bool) -> Seq<GuiAction> {
    (if stp_result(poc, input.transcript, paused) {
        seq![GuiAction::TogglePause]
    } else {
        Seq::<GuiAction>::empty()
    }) + (if input.transcript.dragged_primary {
        seq![GuiAction::Seek { position: input.transcript_seek_pos.unwrap() }]
    } else {
        Seq::<GuiAction>::empty()
    })
}

/// The whole frame's input is coherent with the snapshot and within machine
/// bounds. A frame whose input is not is skipped whole.
pub open spec fn frame_input_ok(
    state: AppStateSnapshot,
    bar: ProgressBar,
    input: FrameInput,
) -> bool {
    &&& show_input_ok(bar, state, input.widget)
    &&& (input.transcript.dragged_primary ==> input.transcript_seek_pos is Some)
}

/// Every action one paint pass emits, in panel order: controls, timeline
/// widget, transcript, keyboard.
pub open spec fn update_emits(
    state: AppStateSnapshot,
    bar0: ProgressBar,
    input: FrameInput,
    poc0: bool,
) -> Seq<GuiAction> {
    let poc1 = poc_after_show(bar0, state, input.widget, poc0);
    controls_emits(state, input) + show_emits(bar0, state, input.widget, poc0)
        + transcript_emits(input, poc1, state.paused) + keys_emits_from(input.keys@, 0)
}

/// The captured pause flag after one paint pass.
pub open spec fn poc_after_update(
    state: AppStateSnapshot,
    bar0: ProgressBar,
    input: FrameInput,
    poc0: bool,
) -> bool {
    stp_new_poc(poc_after_show(bar0, state, input.widget, poc0), input.transcript, state.paused)
}

/// Every frame-level spec function reads a snapshot only through its plain
/// fields, so two snapshots that agree on them are interchangeable. Bridges
/// the snapshot a pass copies out of the host to the host's own fields.
proof fn lemma_snapshot_equiv(
    a: AppStateSnapshot,
    b: AppStateSnapshot,
    bar: ProgressBar,
    input: FrameInput,
    poc: bool,
)
    requires
        a.paused == b.paused,
        a.current_position == b.current_position,
        a.total_runtime == b.total_runtime,
        a.clips@ == b.clips@,
        a.text@ == b.text@,
    ensures
        show_input_ok(bar, a, input.widget) == show_input_ok(bar, b, input.widget),
        show_emits(bar, a, input.widget, poc) == show_emits(bar, b, input.widget, poc),
        poc_after_show(bar, a, input.widget, poc) == poc_after_show(bar, b, input.widget, poc),
        bar_after_show(bar, a, input.widget) == bar_after_show(bar, b, input.widget),
        frame_input_ok(a, bar, input) == frame_input_ok(b, bar, input),
        controls_emits(a, input) == controls_emits(b, input),
        transcript_emits(input, poc, a.paused) == transcript_emits(input, poc, b.paused),
        update_emits(a, bar, input, poc) == update_emits(b, bar, input, poc),
        poc_after_update(a, bar, input, poc) == poc_after_update(b, bar, input, poc),
{
    let conv_a = crate::progress::make_converter(bar, input.widget.rect, a.total_runtime);
    let conv_b = crate::progress::make_converter(bar, input.widget.rect, b.total_runtime);
    assert(conv_a == conv_b);
    assert(show_input_ok(bar, a, input.widget) == show_input_ok(bar, b, input.widget)) by {
        if show_input_ok(bar, a, input.widget) {
            assert(show_input_ok(bar, b, input.widget));
        }
        if show_input_ok(bar, b, input.widget) {
            assert(show_input_ok(bar, a, input.widget));
        }
    };
}

/// Whether a pixel is within reach of the widget.
fn pointer_within(rect_left: i64, rect_width: i64, x: i64) -> (b: bool)
    requires
        1 <= rect_width <= WIDTH_MAX,
        -LEFT_MAX <= rect_left <= LEFT_MAX,
    ensures
        b == (rect_left - 100 * rect_width <= x && x <= rect_left + 100 * rect_width),
{
    rect_left - 100 * rect_width <= x && x <= rect_left + 100 * rect_width
}

/// Whether a response's pointer is present and within reach when its primary
/// drag needs it.
fn drag_ok(rect_left: i64, rect_width: i64, resp: &DragInput) -> (b: bool)
    requires
        1 <= rect_width <= WIDTH_MAX,
        -LEFT_MAX <= rect_left <= LEFT_MAX,
    ensures
        b == (resp.dragged_primary ==> (resp.pointer_x matches Some(x) && rect_left - 100
            * rect_width <= x && x <= rect_left + 100 * rect_width)),
{
    if !resp.dragged_primary {
        return true;
    }
    match resp.pointer_x {
        Some(x) => pointer_within(rect_left, rect_width, x),
        None => false,
    }
}

/// Check one frame's input against the snapshot: the paint pass runs the
/// interaction engine only on input it can stand behind, and otherwise
/// leaves the view state untouched for the frame.
pub fn check_frame_input(state: &AppStateSnapshot, bar: &ProgressBar, input: &FrameInput) -> (b:
    bool)
    ensures
        b == frame_input_ok(*state, *bar, *input),
{
    if !(1 <= state.total_runtime && state.total_runtime <= TOTAL_MAX) {
        return false;
    }
    if !(1 <= input.widget.rect.width && input.widget.rect.width <= WIDTH_MAX) {
        return false;
    }
    if !(-LEFT_MAX <= input.widget.rect.left && input.widget.rect.left <= LEFT_MAX) {
        return false;
    }
    let extra: usize = if bar.pending_clip.is_some() {
        1
    } else {
        0
    };
    if !(input.widget.clip_inputs.len() >= extra && input.widget.clip_inputs.len() - extra == state.clips.len()) {
        return false;
    }
    let mut i: usize = 0;
    while i < input.widget.clip_inputs.len()
        invariant
            i <= input.widget.clip_inputs@.len(),
            1 <= input.widget.rect.width <= WIDTH_MAX,
            -LEFT_MAX <= input.widget.rect.left <= LEFT_MAX,
            1 <= state.total_runtime <= TOTAL_MAX,
            forall|j: int|
                0 <= j < i as int ==> crate::progress::pair_pointer_ok(
                    crate::progress::make_converter(*bar, input.widget.rect, state.total_runtime),
                    #[trigger] input.widget.clip_inputs@[j],
                ),
        decreases input.widget.clip_inputs@.len() - i,
    {
        let pair = input.widget.clip_inputs[i];
        if !drag_ok(input.widget.rect.left, input.widget.rect.width, &pair.start) {
            proof {
                let conv = crate::progress::make_converter(
                    *bar,
                    input.widget.rect,
                    state.total_runtime,
                );
                assert(!crate::progress::pair_pointer_ok(conv, input.widget.clip_inputs@[i as int]));
                assert(!show_input_ok(*bar, *state, input.widget)) by {
                    if show_input_ok(*bar, *state, input.widget) {
                        assert(crate::progress::pair_pointer_ok(
                            conv,
                            input.widget.clip_inputs@[i as int],
                        ));
                    }
                };
            }
            return false;
        }
        if !drag_ok(input.widget.rect.left, input.widget.rect.width, &pair.end) {
            proof {
                let conv = crate::progress::make_converter(
                    *bar,
                    input.widget.rect,
                    state.total_runtime,
                );
                assert(!crate::progress::pair_pointer_ok(conv, input.widget.clip_inputs@[i as int]));
                assert(!show_input_ok(*bar, *state, input.widget)) by {
                    if show_input_ok(*bar, *state, input.widget) {
                        assert(crate::progress::pair_pointer_ok(
                            conv,
                            input.widget.clip_inputs@[i as int],
                        ));
                    }
                };
            }
            return false;
        }
        i = i + 1;
    }
    if !drag_ok(input.widget.rect.left, input.widget.rect.width, &input.widget.response) {
        return false;
    }
    if bar.pending_clip.is_some() && !input.widget.response.drag_stopped_primary {
        match input.widget.response.pointer_x {
            Some(x) => {
                if !pointer_within(input.widget.rect.left, input.widget.rect.width, x) {
                    return false;
                }
            },
            None => {
                return false;
            },
        }
    }
    if !(-DELTA_MAX <= input.widget.pointer_delta_x && input.widget.pointer_delta_x <= DELTA_MAX) {
        return false;
    }
    if !(1 <= input.widget.zoom_num && input.widget.zoom_num <= FACTOR_MAX) {
        return false;
    }
    if !(1 <= input.widget.zoom_den && input.widget.zoom_den <= FACTOR_MAX) {
        return false;
    }
    match input.widget.latest_pointer_x {
        Some(x) => {
            if !pointer_within(input.widget.rect.left, input.widget.rect.width, x) {
                return false;
            }
        },
        None => {},
    }
    if input.transcript.dragged_primary && !input.transcript_seek_pos.is_some() {
        return false;
    }
    true
}

/// Turn the frame's key events into actions: space toggles pause, ctrl-s
/// saves.
fn handle_key_events(keys: &Vec<KeyInput>, action_out: &mut Vec<GuiAction>)
    ensures
        final(action_out)@ == old(action_out)@ + keys_emits_from(keys@, 0),
{
    let ghost base = action_out@;
    let mut k: usize = 0;
    while k < keys.len()
        invariant
            k <= keys@.len(),
            action_out@ + keys_emits_from(keys@, k as int) == base + keys_emits_from(keys@, 0),
        decreases keys@.len() - k,
    {
        let ghost pre = action_out@;
        let key_input = keys[k];
        match key_input.key {
            KeyCode::Space => {
                if key_input.pressed {
                    action_out.push(toggle_pause());
                }
            },
            KeyCode::KeyS => {
                if key_input.pressed && key_input.ctrl {
                    action_out.push(save());
                }
            },
            KeyCode::Other => {},
        }
        proof {
            assert(action_out@ + keys_emits_from(keys@, k as int + 1) =~= pre + keys_emits_from(
                keys@,
                k as int,
            ));
        }
        k = k + 1;
    }
    proof {
        assert(keys_emits_from(keys@, keys@.len() as int) == Seq::<GuiAction>::empty());
        Seq::<GuiAction>::add_empty_right(action_out@, Seq::<GuiAction>::empty());
    }
}

/// Emit the control panel's actions: play/pause button and clip deletion.
fn handle_controls(state: &AppStateSnapshot, input: &FrameInput, action_out: &mut Vec<GuiAction>)
    ensures
        final(action_out)@ == old(action_out)@ + controls_emits(*state, *input),
{
    if input.play_clicked {
        action_out.push(toggle_pause());
    }
    if input.delete_clicked {
        action_out.push(clip_remove(state.current_position));
    }
    proof {
        assert(action_out@ =~= old(action_out)@ + controls_emits(*state, *input));
    }
}

/// Run the transcript panel's seek handling: its drag takes part in the
/// pause arbitration, and while dragged it seeks to the host-resolved time
/// of the character under the pointer.
fn handle_transcript(
    state: &AppStateSnapshot,
    input: &FrameInput,
    action_out: &mut Vec<GuiAction>,
    seek_state: &mut SeekState,
)
    requires
        input.transcript.dragged_primary ==> input.transcript_seek_pos is Some,
    ensures
        final(seek_state).paused_on_click == stp_new_poc(
            old(seek_state).paused_on_click,
            input.transcript,
            state.paused,
        ),
        final(action_out)@ == old(action_out)@ + transcript_emits(
            *input,
            old(seek_state).paused_on_click,
            state.paused,
        ),
{
    if seek_state.should_toggle_pause(&input.transcript, state) {
        action_out.push(toggle_pause());
    }
    if input.transcript.dragged_primary {
        action_out.push(seek(input.transcript_seek_pos.unwrap()));
    }
    proof {
        assert(action_out@ =~= old(action_out)@ + transcript_emits(
            *input,
            old(seek_state).paused_on_click,
            state.paused,
        ));
    }
}

/// Four stages of one paint pass, each appending its actions, add up to the
/// whole pass's actions.
proof fn lemma_update_assembly(
    out0: Seq<GuiAction>,
    out_controls: Seq<GuiAction>,
    out_show: Seq<GuiAction>,
    out_transcript: Seq<GuiAction>,
    out_final: Seq<GuiAction>,
    ce: Seq<GuiAction>,
    se: Seq<GuiAction>,
    te: Seq<GuiAction>,
    ke: Seq<GuiAction>,
)
    requires
        out_controls == out0 + ce,
        out_show == out_controls + se,
        out_transcript == out_show + te,
        out_final == out_transcript + ke,
    ensures
        out_final == out0 + (((ce + se) + te) + ke),
{
    vstd::seq_lib::lemma_concat_associative(out0, ce, se);
    vstd::seq_lib::lemma_concat_associative(out0, ce + se, te);
    vstd::seq_lib::lemma_concat_associative(out0, (ce + se) + te, ke);
}

/// Run one paint pass. The snapshot is acquired once and released exactly
/// once, on the skip path as well as on the full path; a frame whose input
/// fails `check_frame_input` changes nothing else. On the full path the
/// pass emits exactly `update_emits` and moves the view state as the
/// timeline widget says, ending within its invariant.
#[verifier::rlimit(100)]
#[verifier::spinoff_prover]
pub fn update(
    app: &mut AppState,
    progress_bar: &mut ProgressBar,
    seek_state: &mut SeekState,
    input: &FrameInput,
    action_out: &mut Vec<GuiAction>,
)
    requires
        old(app).idle(),
        old(app).snapshots_acquired < u64::MAX,
        ZOOM_ONE <= old(progress_bar).zoom <= ZOOM_MAX,
        0 <= old(progress_bar).widget_center_norm <= NORM_ONE,
    ensures
        final(app).snapshots_acquired == old(app).snapshots_acquired + 1,
        final(app).snapshots_released == final(app).snapshots_acquired,
        final(app).idle(),
        final(app).fields_unchanged(*old(app)),
        ({
            let state0 = old(app).snapshot_spec();
            let poc0 = old(seek_state).paused_on_click;
            if frame_input_ok(state0, *old(progress_bar), *input) {
                &&& final(action_out)@ == old(action_out)@ + update_emits(
                    state0,
                    *old(progress_bar),
                    *input,
                    poc0,
                )
                &&& *final(progress_bar) == bar_after_show(
                    *old(progress_bar),
                    state0,
                    input.widget,
                )
                &&& view_wf(final(progress_bar).zoom, final(progress_bar).widget_center_norm)
                &&& final(seek_state).paused_on_click == poc_after_update(
                    state0,
                    *old(progress_bar),
                    *input,
                    poc0,
                )
            } else {
                &&& final(action_out)@ == old(action_out)@
                &&& *final(progress_bar) == *old(progress_bar)
                &&& *final(seek_state) == *old(seek_state)
            }
        }),
{
    let ghost state0 = old(app).snapshot_spec();
    let ghost bar0 = *progress_bar;
    let ghost poc0 = seek_state.paused_on_click;
    let state = app.appstate_snapshot();
    proof {
        lemma_snapshot_equiv(state, state0, bar0, *input, poc0);
    }
    if !check_frame_input(&state, progress_bar, input) {
        app.appstate_deinit();
        return;
    }
    handle_controls(&state, input, action_out);
    let ghost out_controls = action_out@;
    progress_bar.show(&state, &input.widget, action_out, seek_state);
    let ghost out_show = action_out@;
    handle_transcript(&state, input, action_out, seek_state);
    let ghost out_transcript = action_out@;
    handle_key_events(&input.keys, action_out);
    app.appstate_deinit();
    proof {
        let out0 = old(action_out)@;
        let ce = controls_emits(state, *input);
        let se = show_emits(bar0, state, input.widget, poc0);
        let poc1 = poc_after_show(bar0, state, input.widget, poc0);
        let te = transcript_emits(*input, poc1, state.paused);
        let ke = keys_emits_from(input.keys@, 0);
        lemma_update_assembly(
            out0,
            out_controls,
            out_show,
            out_transcript,
            action_out@,
            ce,
            se,
            te,
            ke,
        );
        assert(update_emits(state, bar0, *input, poc0) == ((ce + se) + te) + ke);
        assert(action_out@ == out0 + update_emits(state, bar0, *input, poc0));
    }
}

} // verus!
