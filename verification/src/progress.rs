//! The timeline widget's interaction engine: seek and pause arbitration,
//! pan, zoom-at-cursor, and clip creation and boundary editing, as a
//! drag-driven state machine over plain input values.
//!
//! Pointer and keyboard state arrive already reduced to plain values (drag
//! flags and pixel positions); the engine turns them into `GuiAction`s and
//! keeps its view state within its invariant after every interaction.

use vstd::prelude::*;
use crate::converter::{
    ProgressPosConverter, Rect, NORM_ONE, WIDTH_MAX, LEFT_MAX, ZOOM_ONE, ZOOM_MAX,
};
use crate::fixed::{rdiv, clamp_spec, clamp_i64, round_div_i128, lemma_rdiv_bound};
use crate::gui_actions::{Clip, GuiAction, clip_add, seek, toggle_pause};
use crate::snapshot::AppStateSnapshot;
use vstd::arithmetic::div_mod::{lemma_div_is_ordered, lemma_fundamental_div_mod_converse_div};

verus! {

/// Largest pointer delta per frame the pan gesture accepts, in pixels.
pub const DELTA_MAX: i64 = 1_000_000;

/// Largest numerator or denominator of the zoom factor per scroll event.
pub const FACTOR_MAX: u64 = 1_000_000;

/// One widget response's drag state for the current frame, reduced to plain
/// values: which drags started, stopped or continue, and where the pointer
/// interacting with the widget is.
#[derive(Clone, Copy, Debug)]
pub struct DragInput {
    pub drag_started_primary: bool,
    pub drag_stopped_primary: bool,
    pub dragged_primary: bool,
    pub dragged_secondary: bool,
    pub pointer_x: Option<i64>,
}

/// The drag inputs of one clip's two boundary handles.
#[derive(Clone, Copy, Debug)]
pub struct HandlePair {
    pub start: DragInput,
    pub end: DragInput,
}

/// The whole timeline widget's input for one frame.
pub struct WidgetInput {
    pub rect: Rect,
    pub response: DragInput,
    pub ctrl_down: bool,
    pub pointer_delta_x: i64,
    pub contains_pointer: bool,
    pub latest_pointer_x: Option<i64>,
    pub zoom_num: u64,
    pub zoom_den: u64,
    pub clip_inputs: Vec<HandlePair>,
}

/// Pause arbitration across one seek drag: the pause flag captured at
/// drag-start decides whether the drag's end must toggle pause back.
pub struct SeekState {
    pub paused_on_click: bool,
}

/// The captured pause flag after one response is examined.
pub open spec fn stp_new_poc(old_poc: bool, resp: DragInput, paused: bool) -> bool {
    if resp.drag_started_primary {
        paused
    } else {
        old_poc
    }
}

/// Whether examining one response asks for a pause toggle: once when a drag
/// starts on a playing stream, and once when a drag stops that started on a
/// playing stream.
pub open spec fn stp_result(old_poc: bool, resp: DragInput, paused: bool) -> bool {
    (resp.drag_started_primary && !paused) || (resp.drag_stopped_primary && !stp_new_poc(
        old_poc,
        resp,
        paused,
    ))
}

impl SeekState {
    /// Decide whether this response must toggle pause. A drag that starts on
    /// a playing stream pauses it for frame-accurate scrubbing; the drag's
    /// stop resumes it only if the stream was playing when the click
    /// started. The captured pre-drag flag is consulted rather than the
    /// current one: the snapshot's pause flag may lag a just-sent toggle
    /// across the thread boundary, and re-reading it would double-toggle.
    /// Toggling pause by another control mid-drag can cost one extra toggle;
    /// that trade-off is deliberate.
    pub fn should_toggle_pause(&mut self, response: &DragInput, state: &AppStateSnapshot) -> (b:
        bool)
        ensures
            final(self).paused_on_click == stp_new_poc(
                old(self).paused_on_click,
                *response,
                state.paused,
            ),
            b == stp_result(old(self).paused_on_click, *response, state.paused),
    {
        if response.drag_started_primary {
            self.paused_on_click = state.paused;
            if !state.paused {
                return true;
            }
        }
        if response.drag_stopped_primary && !self.paused_on_click {
            return true;
        }
        false
    }
}

/// The timeline widget's persistent view state: zoom, view center, and the
/// clip being created, if one is.
#[derive(Clone, Copy, Debug)]
pub struct ProgressBar {
    pub zoom: u64,
    pub widget_center_norm: i64,
    pub pending_clip: Option<Clip>,
}

/// Lower clamp bound of the view center for a zoom: the smallest center, in
/// units of `1 / NORM_ONE`, that keeps the visible window's left edge at or
/// beyond the timeline's start. Rounded up, so the window never leaves
/// `[0, 1]`.
pub open spec fn clamp_min(zoom: u64) -> int {
    (1_000_000_000 + 2 * (zoom as int) - 1) / (2 * (zoom as int))
}

/// The view-state invariant: zoom at least one, and the view center far
/// enough from both ends that the visible window stays inside the timeline.
pub open spec fn view_wf(zoom: u64, center: i64) -> bool {
    &&& ZOOM_ONE <= zoom <= ZOOM_MAX
    &&& clamp_min(zoom) <= center <= NORM_ONE - clamp_min(zoom)
}

/// The center clamp bound is between 1 and half the timeline for every
/// accepted zoom, so the clamp interval is never empty.
pub proof fn lemma_clamp_min_bounds(zoom: u64)
    requires
        ZOOM_ONE <= zoom <= ZOOM_MAX,
    ensures
        1 <= clamp_min(zoom) <= 500_000,
{
    let d = 2 * (zoom as int);
    let x = 1_000_000_000 + d - 1;
    lemma_div_is_ordered(x, 500_000 * d + (d - 1), d);
    lemma_fundamental_div_mod_converse_div(500_000 * d + (d - 1), d, 500_000, d - 1);
    lemma_div_is_ordered(1 * d + 0, x, d);
    lemma_fundamental_div_mod_converse_div(1 * d + 0, d, 1, 0);
}

/// The pan shift of the view center, in units of `1 / NORM_ONE`, for a
/// pointer delta in pixels.
pub open spec fn pan_shift(delta: int, width: int, zoom: int) -> int {
    rdiv(delta * 1_000_000_000, width * zoom)
}

/// The view center after a pan: shifted against the pointer delta, scaled by
/// the widget width and zoom, and kept within the timeline.
pub open spec fn pan_center(center: int, delta: int, width: int, zoom: int) -> int {
    clamp_spec(center - pan_shift(delta, width, zoom), 0, NORM_ONE as int)
}

/// The zoom after applying one scroll event's rational factor, floored at
/// one and capped at the largest accepted zoom.
pub open spec fn zoom_after(zoom: u64, num: u64, den: u64) -> u64 {
    clamp_spec(rdiv((zoom as int) * (num as int), den as int), ZOOM_ONE as int, ZOOM_MAX as int)
        as u64
}

/// The normalized position the zoom centers on: the pointer's position, or
/// the middle of the window when no pointer position is available.
pub open spec fn zoom_point(conv: ProgressPosConverter, latest: Option<i64>) -> int {
    match latest {
        Some(x) => conv.pix_to_norm(x as int),
        None => 500_000,
    }
}

/// The view center after a zoom at point `p`: the distance from the center
/// to `p` shrinks by the zoom ratio, which keeps `p` visually fixed.
pub open spec fn center_after_zoom(center: int, p: int, old_zoom: int, new_zoom: int) -> int {
    center + (p - center) - rdiv((p - center) * old_zoom, new_zoom)
}

/// A response's interacting pointer is present and within reach whenever a
/// primary drag is in progress.
pub open spec fn drag_pointer_ok(conv: ProgressPosConverter, resp: DragInput) -> bool {
    resp.dragged_primary ==> (resp.pointer_x matches Some(x) && conv.pointer_in_reach(x as int))
}

/// The timeline position a drag's pointer maps to.
pub open spec fn seek_position(conv: ProgressPosConverter, resp: DragInput) -> i64 {
    conv.pix_to_pos(resp.pointer_x.unwrap() as int) as i64
}

/// The actions one seek-sensitive response emits: a seek while dragging,
/// then a pause toggle when the arbitration asks for one.
pub open spec fn seek_emits(
    conv: ProgressPosConverter,
    resp: DragInput,
    poc: bool,
    paused: bool,
) -> Seq<GuiAction> {
    (if resp.dragged_primary {
        seq![GuiAction::Seek { position: seek_position(conv, resp) }]
    } else {
        Seq::<GuiAction>::empty()
    }) + (if stp_result(poc, resp, paused) {
        seq![GuiAction::TogglePause]
    } else {
        Seq::<GuiAction>::empty()
    })
}

/// The pointer positions clip creation reads are present and within reach:
/// while a pending clip follows the pointer, and when a creation drag
/// starts.
pub open spec fn creation_pointer_ok(
    conv: ProgressPosConverter,
    pending: Option<Clip>,
    ctrl: bool,
    resp: DragInput,
) -> bool {
    &&& (pending is Some && !resp.drag_stopped_primary) ==> (resp.pointer_x matches Some(x)
        && conv.pointer_in_reach(x as int))
    &&& (pending is None && resp.dragged_primary && ctrl) ==> (resp.pointer_x matches Some(x)
        && conv.pointer_in_reach(x as int))
}

/// The pending clip after one frame of the creation gesture: created on a
/// modified primary drag, its end following the pointer, gone on release.
pub open spec fn pending_after(
    conv: ProgressPosConverter,
    pending: Option<Clip>,
    ctrl: bool,
    resp: DragInput,
) -> Option<Clip> {
    match pending {
        Some(pc) => if resp.drag_stopped_primary {
            None
        } else {
            Some(Clip { id: pc.id, start: pc.start, end: seek_position(conv, resp) })
        },
        None => if resp.dragged_primary && ctrl {
            Some(
                Clip {
                    id: 0,
                    start: seek_position(conv, resp),
                    end: seek_position(conv, resp),
                },
            )
        } else {
            None
        },
    }
}

/// The actions one frame of the creation gesture emits: exactly one
/// `ClipAdd` of the pending clip, on release.
pub open spec fn creation_emits(pending: Option<Clip>, resp: DragInput) -> Seq<GuiAction> {
    if pending is Some && resp.drag_stopped_primary {
        seq![GuiAction::ClipAdd { clip: pending.unwrap() }]
    } else {
        Seq::<GuiAction>::empty()
    }
}

/// A clip with either boundary replaced by the position its handle was
/// dragged to.
pub open spec fn edited_clip(
    conv: ProgressPosConverter,
    clip: Clip,
    start_resp: DragInput,
    end_resp: DragInput,
) -> Clip {
    Clip {
        id: clip.id,
        start: if start_resp.dragged_primary {
            seek_position(conv, start_resp)
        } else {
            clip.start
        },
        end: if end_resp.dragged_primary {
            seek_position(conv, end_resp)
        } else {
            clip.end
        },
    }
}

/// The actions one clip's frame emits: each handle acts as a seek handle,
/// and a boundary drag also emits the edited clip. Boundary crossings are
/// not corrected here; validating `start <= end` is the host's duty.
pub open spec fn render_clip_emits(
    conv: ProgressPosConverter,
    clip: Clip,
    start_resp: DragInput,
    end_resp: DragInput,
    poc: bool,
    paused: bool,
) -> Seq<GuiAction> {
    seek_emits(conv, start_resp, poc, paused) + seek_emits(
        conv,
        end_resp,
        stp_new_poc(poc, start_resp, paused),
        paused,
    ) + (if start_resp.dragged_primary || end_resp.dragged_primary {
        seq![GuiAction::ClipEdit { clip: edited_clip(conv, clip, start_resp, end_resp) }]
    } else {
        Seq::<GuiAction>::empty()
    })
}

/// The captured pause flag after both handles of one clip are examined.
pub open spec fn poc_after_pair(poc: bool, pair: HandlePair, paused: bool) -> bool {
    stp_new_poc(stp_new_poc(poc, pair.start, paused), pair.end, paused)
}

/// Both handles of a pair have their pointers where a drag needs them.
pub open spec fn pair_pointer_ok(conv: ProgressPosConverter, pair: HandlePair) -> bool {
    drag_pointer_ok(conv, pair.start) && drag_pointer_ok(conv, pair.end)
}

/// The converter one paint pass works with: the bar's view state, the rect
/// the widget was laid out in, and the snapshot's total runtime.
pub open spec fn make_converter(bar: ProgressBar, rect: Rect, total: i64) -> ProgressPosConverter {
    ProgressPosConverter {
        zoom: bar.zoom,
        widget_center_norm: bar.widget_center_norm,
        rect,
        total_runtime: total,
    }
}

/// The widget-wide input is coherent with the converter and within machine
/// bounds.
pub open spec fn widget_input_ok(
    conv: ProgressPosConverter,
    pending: Option<Clip>,
    input: WidgetInput,
) -> bool {
    &&& input.rect == conv.rect
    &&& drag_pointer_ok(conv, input.response)
    &&& creation_pointer_ok(conv, pending, input.ctrl_down, input.response)
    &&& -DELTA_MAX <= input.pointer_delta_x <= DELTA_MAX
    &&& 1 <= input.zoom_num <= FACTOR_MAX
    &&& 1 <= input.zoom_den <= FACTOR_MAX
    &&& (input.latest_pointer_x matches Some(x) ==> conv.pointer_in_reach(x as int))
}

/// The actions the widget-wide response emits: a `ClipAdd` when a creation
/// drag releases, then the seek handling of the response itself.
pub open spec fn response_emits(
    conv: ProgressPosConverter,
    pending: Option<Clip>,
    input: WidgetInput,
    poc: bool,
    paused: bool,
) -> Seq<GuiAction> {
    creation_emits(pending, input.response) + seek_emits(conv, input.response, poc, paused)
}

/// The view state after the widget-wide response: the creation gesture's
/// pending clip, the pan and zoom of the center and zoom, and the final
/// clamp.
pub open spec fn bar_after_response(
    bar0: ProgressBar,
    conv: ProgressPosConverter,
    input: WidgetInput,
) -> ProgressBar {
    let pending1 = pending_after(conv, bar0.pending_clip, input.ctrl_down, input.response);
    let center1 = if input.response.dragged_secondary {
        pan_center(
            bar0.widget_center_norm as int,
            input.pointer_delta_x as int,
            conv.rect.width as int,
            bar0.zoom as int,
        )
    } else {
        bar0.widget_center_norm as int
    };
    let zoom2 = if input.contains_pointer {
        zoom_after(bar0.zoom, input.zoom_num, input.zoom_den)
    } else {
        bar0.zoom
    };
    let center2 = if input.contains_pointer {
        center_after_zoom(
            center1,
            zoom_point(conv, input.latest_pointer_x),
            bar0.zoom as int,
            zoom2 as int,
        )
    } else {
        center1
    };
    let center3 = clamp_spec(center2, clamp_min(zoom2), NORM_ONE - clamp_min(zoom2));
    ProgressBar { zoom: zoom2, widget_center_norm: center3 as i64, pending_clip: pending1 }
}

/// The captured pause flag after the handle pairs `i .. n` are examined.
pub open spec fn poc_fold(
    pairs: Seq<HandlePair>,
    i: int,
    n: int,
    poc: bool,
    paused: bool,
) -> bool
    decreases n - i,
{
    if i < 0 || i >= n || n > pairs.len() {
        poc
    } else {
        poc_fold(pairs, i + 1, n, poc_after_pair(poc, pairs[i], paused), paused)
    }
}

/// The actions clips `i ..` emit, threading the captured pause flag through
/// each clip's two handles.
pub open spec fn clips_emits_from(
    conv: ProgressPosConverter,
    clips: Seq<Clip>,
    pairs: Seq<HandlePair>,
    i: int,
    poc: bool,
    paused: bool,
) -> Seq<GuiAction>
    decreases clips.len() - i,
{
    if i < 0 || i >= clips.len() || clips.len() > pairs.len() {
        Seq::<GuiAction>::empty()
    } else {
        render_clip_emits(conv, clips[i], pairs[i].start, pairs[i].end, poc, paused)
            + clips_emits_from(
            conv,
            clips,
            pairs,
            i + 1,
            poc_after_pair(poc, pairs[i], paused),
            paused,
        )
    }
}

/// The whole widget's input for one frame is coherent and within machine
/// bounds: one handle pair per clip, one more for the pending clip, and
/// every pointer where a drag needs it.
pub open spec fn show_input_ok(
    bar0: ProgressBar,
    state: AppStateSnapshot,
    input: WidgetInput,
) -> bool {
    let conv = make_converter(bar0, input.rect, state.total_runtime);
    &&& state.wf_spec()
    &&& 1 <= input.rect.width <= WIDTH_MAX
    &&& -LEFT_MAX <= input.rect.left <= LEFT_MAX
    &&& input.clip_inputs@.len() == state.clips@.len() + (if bar0.pending_clip is Some {
        1int
    } else {
        0int
    })
    &&& forall|i: int|
        0 <= i < input.clip_inputs@.len() ==> pair_pointer_ok(
            conv,
            #[trigger] input.clip_inputs@[i],
        )
    &&& widget_input_ok(conv, bar0.pending_clip, input)
}

/// The captured pause flag after the whole widget's frame: every clip's
/// handles, the pending clip's handles, then the widget-wide response.
pub open spec fn poc_after_show(
    bar0: ProgressBar,
    state: AppStateSnapshot,
    input: WidgetInput,
    poc0: bool,
) -> bool {
    let n = state.clips@.len() as int;
    let poc1 = poc_fold(input.clip_inputs@, 0, n, poc0, state.paused);
    let poc2 = if bar0.pending_clip is Some {
        poc_after_pair(poc1, input.clip_inputs@[n], state.paused)
    } else {
        poc1
    };
    stp_new_poc(poc2, input.response, state.paused)
}

/// Every action the widget emits in one frame, in order: per-clip seeks,
/// toggles and edits, the pending clip's, then the widget-wide response's.
pub open spec fn show_emits(
    bar0: ProgressBar,
    state: AppStateSnapshot,
    input: WidgetInput,
    poc0: bool,
) -> Seq<GuiAction> {
    let conv = make_converter(bar0, input.rect, state.total_runtime);
    let n = state.clips@.len() as int;
    let ce = clips_emits_from(conv, state.clips@, input.clip_inputs@, 0, poc0, state.paused);
    let poc1 = poc_fold(input.clip_inputs@, 0, n, poc0, state.paused);
    let pe = match bar0.pending_clip {
        Some(pc) => render_clip_emits(
            conv,
            pc,
            input.clip_inputs@[n].start,
            input.clip_inputs@[n].end,
            poc1,
            state.paused,
        ),
        None => Seq::<GuiAction>::empty(),
    };
    let poc2 = if bar0.pending_clip is Some {
        poc_after_pair(poc1, input.clip_inputs@[n], state.paused)
    } else {
        poc1
    };
    ce + pe + response_emits(conv, bar0.pending_clip, input, poc2, state.paused)
}

/// The view state after the whole widget's frame; only the widget-wide
/// response moves it.
pub open spec fn bar_after_show(
    bar0: ProgressBar,
    state: AppStateSnapshot,
    input: WidgetInput,
) -> ProgressBar {
    bar_after_response(bar0, make_converter(bar0, input.rect, state.total_runtime), input)
}

impl ProgressBar {
    /// Emit a seek while this response is dragged, and a pause toggle when
    /// the drag arbitration asks for one. Returns the position dragged to.
    pub fn handle_seek(
        &mut self,
        converter: &ProgressPosConverter,
        response: &DragInput,
        state: &AppStateSnapshot,
        action_out: &mut Vec<GuiAction>,
        seek_state: &mut SeekState,
    ) -> (ret: Option<i64>)
        requires
            converter.wf_spec(),
            drag_pointer_ok(*converter, *response),
        ensures
            *final(self) == *old(self),
            final(seek_state).paused_on_click == stp_new_poc(
                old(seek_state).paused_on_click,
                *response,
                state.paused,
            ),
            final(action_out)@ == old(action_out)@ + seek_emits(
                *converter,
                *response,
                old(seek_state).paused_on_click,
                state.paused,
            ),
            ret == if response.dragged_primary {
                Some(seek_position(*converter, *response))
            } else {
                None::<i64>
            },
    {
        let mut ret: Option<i64> = None;
        if response.dragged_primary {
            let px = response.pointer_x.unwrap();
            let duration_pos = converter.rect_to_duration(px);
            action_out.push(seek(duration_pos));
            ret = Some(duration_pos);
        }
        if seek_state.should_toggle_pause(response, state) {
            action_out.push(toggle_pause());
        }
        proof {
            assert(action_out@ =~= old(action_out)@ + seek_emits(
                *converter,
                *response,
                old(seek_state).paused_on_click,
                state.paused,
            ));
        }
        ret
    }

    /// Drive the clip-creation gesture one frame: a modified primary drag
    /// creates a pending clip at the pointer, each move drags its end along,
    /// and release emits exactly one `ClipAdd` and clears it. At most one
    /// pending clip exists at a time.
    pub fn handle_clip_creation(
        &mut self,
        converter: &ProgressPosConverter,
        ui_ctrl_down: bool,
        response: &DragInput,
        action_out: &mut Vec<GuiAction>,
    )
        requires
            converter.wf_spec(),
            creation_pointer_ok(*converter, old(self).pending_clip, ui_ctrl_down, *response),
        ensures
            final(self).zoom == old(self).zoom,
            final(self).widget_center_norm == old(self).widget_center_norm,
            final(self).pending_clip == pending_after(
                *converter,
                old(self).pending_clip,
                ui_ctrl_down,
                *response,
            ),
            final(action_out)@ == old(action_out)@ + creation_emits(
                old(self).pending_clip,
                *response,
            ),
    {
        let primary_down = response.dragged_primary;
        match self.pending_clip {
            Some(pending_clip) => {
                if response.drag_stopped_primary {
                    action_out.push(clip_add(&pending_clip));
                    self.pending_clip = None;
                } else {
                    let px = response.pointer_x.unwrap();
                    let duration_pos = converter.rect_to_duration(px);
                    self.pending_clip = Some(
                        Clip { id: pending_clip.id, start: pending_clip.start, end: duration_pos },
                    );
                }
            },
            None => {
                if primary_down && ui_ctrl_down {
                    let px = response.pointer_x.unwrap();
                    let duration_pos = converter.rect_to_duration(px);
                    self.pending_clip = Some(
                        Clip { id: 0, start: duration_pos, end: duration_pos },
                    );
                }
            },
        }
        proof {
            assert(action_out@ =~= old(action_out)@ + creation_emits(
                old(self).pending_clip,
                *response,
            ));
        }
    }

    /// Interact with one clip on the timeline: each boundary handle seeks
    /// while dragged, and a boundary drag emits the edited clip. Drawing the
    /// clip is the caller's part.
    pub fn render_clip(
        &mut self,
        converter: &ProgressPosConverter,
        clip: &Clip,
        start_response: &DragInput,
        end_response: &DragInput,
        state: &AppStateSnapshot,
        action_out: &mut Vec<GuiAction>,
        seek_state: &mut SeekState,
    )
        requires
            converter.wf_spec(),
            drag_pointer_ok(*converter, *start_response),
            drag_pointer_ok(*converter, *end_response),
        ensures
            *final(self) == *old(self),
            final(seek_state).paused_on_click == poc_after_pair(
                old(seek_state).paused_on_click,
                HandlePair { start: *start_response, end: *end_response },
                state.paused,
            ),
            final(action_out)@ == old(action_out)@ + render_clip_emits(
                *converter,
                *clip,
                *start_response,
                *end_response,
                old(seek_state).paused_on_click,
                state.paused,
            ),
    {
        let mut edited = *clip;
        let mut changed = false;
        match self.handle_seek(converter, start_response, state, action_out, seek_state) {
            Some(pos) => {
                changed = true;
                edited.start = pos;
            },
            None => {},
        }
        match self.handle_seek(converter, end_response, state, action_out, seek_state) {
            Some(pos) => {
                changed = true;
                edited.end = pos;
            },
            None => {},
        }
        if changed {
            action_out.push(crate::gui_actions::clip_edit(&edited));
        }
        proof {
            assert(action_out@ =~= old(action_out)@ + render_clip_emits(
                *converter,
                *clip,
                *start_response,
                *end_response,
                old(seek_state).paused_on_click,
                state.paused,
            ));
        }
    }

    /// Shift the view center against a secondary-button drag and keep it on
    /// the timeline.
    pub fn handle_pan(&mut self, response: &DragInput, ui_pointer_delta_x: i64, rect_width: i64)
        requires
            ZOOM_ONE <= old(self).zoom <= ZOOM_MAX,
            0 <= old(self).widget_center_norm <= NORM_ONE,
            1 <= rect_width <= WIDTH_MAX,
            -DELTA_MAX <= ui_pointer_delta_x <= DELTA_MAX,
        ensures
            final(self).zoom == old(self).zoom,
            final(self).pending_clip == old(self).pending_clip,
            final(self).widget_center_norm == if response.dragged_secondary {
                pan_center(
                    old(self).widget_center_norm as int,
                    ui_pointer_delta_x as int,
                    rect_width as int,
                    old(self).zoom as int,
                )
            } else {
                old(self).widget_center_norm as int
            },
            0 <= final(self).widget_center_norm <= NORM_ONE,
    {
        if response.dragged_secondary {
            let w = rect_width as i128;
            let zn = self.zoom as i128;
            proof {
                assert(1000 <= w * zn <= 1_000_000_000_000_000) by (nonlinear_arith)
                    requires
                        1 <= w <= 1_000_000,
                        1000 <= zn <= 1_000_000_000,
                ;
            }
            let num = (ui_pointer_delta_x as i128) * 1_000_000_000;
            let den = w * zn;
            proof {
                lemma_rdiv_bound(num as int, den as int, 1_000_000_000_000);
            }
            let shift = round_div_i128(num, den);
            let c = self.widget_center_norm - (shift as i64);
            self.widget_center_norm = clamp_i64(c, 0, NORM_ONE);
        }
    }

    /// Apply one scroll event's zoom factor at the pointer, keeping the
    /// point under the pointer visually fixed. The zoom never drops below
    /// one. When no pointer position is available the middle of the widget
    /// is used.
    pub fn handle_zoom(
        &mut self,
        converter: &ProgressPosConverter,
        contains_pointer: bool,
        latest_pointer_x: Option<i64>,
        zoom_num: u64,
        zoom_den: u64,
    )
        requires
            converter.wf_spec(),
            ZOOM_ONE <= old(self).zoom <= ZOOM_MAX,
            0 <= old(self).widget_center_norm <= NORM_ONE,
            1 <= zoom_num <= FACTOR_MAX,
            1 <= zoom_den <= FACTOR_MAX,
            latest_pointer_x matches Some(x) ==> converter.pointer_in_reach(x as int),
        ensures
            final(self).pending_clip == old(self).pending_clip,
            final(self).zoom == if contains_pointer {
                zoom_after(old(self).zoom, zoom_num, zoom_den)
            } else {
                old(self).zoom
            },
            final(self).widget_center_norm == if contains_pointer {
                center_after_zoom(
                    old(self).widget_center_norm as int,
                    zoom_point(*converter, latest_pointer_x),
                    old(self).zoom as int,
                    final(self).zoom as int,
                )
            } else {
                old(self).widget_center_norm as int
            },
            ZOOM_ONE <= final(self).zoom <= ZOOM_MAX,
    {
        if contains_pointer {
            let p_ppm: i64 = match latest_pointer_x {
                Some(x) => converter.rect_to_duration_norm(x),
                None => 500_000,
            };
            let old_zoom = self.zoom;
            proof {
                assert(old_zoom * zoom_num <= 1_000_000_000_000_000) by (nonlinear_arith)
                    requires
                        old_zoom <= 1_000_000_000,
                        zoom_num <= 1_000_000,
                ;
            }
            let raw = (2 * (old_zoom * zoom_num) + zoom_den) / (2 * zoom_den);
            let new_zoom = if raw < ZOOM_ONE {
                ZOOM_ONE
            } else if raw > ZOOM_MAX {
                ZOOM_MAX
            } else {
                raw
            };
            self.zoom = new_zoom;
            let dist: i64 = p_ppm - self.widget_center_norm;
            proof {
                assert(-(103_000_000_000_000_000) <= (dist as int) * (old_zoom as int) <= 103_000_000_000_000_000)
                    by (nonlinear_arith)
                    requires
                        -103_000_000 <= dist as int <= 103_000_000,
                        1000 <= old_zoom as int <= 1_000_000_000,
                ;
            }
            let num = (dist as i128) * (old_zoom as i128);
            proof {
                lemma_rdiv_bound(num as int, new_zoom as int, 103_000_000_000_000);
            }
            let new_dist = round_div_i128(num, new_zoom as i128) as i64;
            self.widget_center_norm = self.widget_center_norm + dist - new_dist;
        }
    }

    /// Handle the widget-wide response: clip creation, seeking, panning and
    /// zooming, in that order, then re-clamp the view center so that the
    /// view-state invariant holds whatever the gesture did.
    pub fn handle_response(
        &mut self,
        converter: &ProgressPosConverter,
        input: &WidgetInput,
        state: &AppStateSnapshot,
        action_out: &mut Vec<GuiAction>,
        seek_state: &mut SeekState,
    )
        requires
            converter.wf_spec(),
            ZOOM_ONE <= old(self).zoom <= ZOOM_MAX,
            0 <= old(self).widget_center_norm <= NORM_ONE,
            widget_input_ok(*converter, old(self).pending_clip, *input),
        ensures
            *final(self) == bar_after_response(*old(self), *converter, *input),
            view_wf(final(self).zoom, final(self).widget_center_norm),
            0 <= final(self).widget_center_norm <= NORM_ONE,
            final(seek_state).paused_on_click == stp_new_poc(
                old(seek_state).paused_on_click,
                input.response,
                state.paused,
            ),
            final(action_out)@ == old(action_out)@ + response_emits(
                *converter,
                old(self).pending_clip,
                *input,
                old(seek_state).paused_on_click,
                state.paused,
            ),
    {
        self.handle_clip_creation(converter, input.ctrl_down, &input.response, action_out);
        let _ = self.handle_seek(converter, &input.response, state, action_out, seek_state);
        self.handle_pan(&input.response, input.pointer_delta_x, input.rect.width);
        self.handle_zoom(
            converter,
            input.contains_pointer,
            input.latest_pointer_x,
            input.zoom_num,
            input.zoom_den,
        );
        self.clamp_widget_center();
        proof {
            assert(action_out@ =~= old(action_out)@ + response_emits(
                *converter,
                old(self).pending_clip,
                *input,
                old(seek_state).paused_on_click,
                state.paused,
            ));
        }
    }

    /// Run the timeline widget for one frame: each clip's handles, the
    /// pending clip's handles, then the widget-wide response. Drawing is the
    /// caller's part; the geometry comes from the same converter this
    /// builds.
    #[verifier::rlimit(100)]
    #[verifier::spinoff_prover]
    pub fn show(
        &mut self,
        state: &AppStateSnapshot,
        input: &WidgetInput,
        action_out: &mut Vec<GuiAction>,
        seek_state: &mut SeekState,
    )
        requires
            ZOOM_ONE <= old(self).zoom <= ZOOM_MAX,
            0 <= old(self).widget_center_norm <= NORM_ONE,
            show_input_ok(*old(self), *state, *input),
        ensures
            *final(self) == bar_after_show(*old(self), *state, *input),
            view_wf(final(self).zoom, final(self).widget_center_norm),
            0 <= final(self).widget_center_norm <= NORM_ONE,
            final(seek_state).paused_on_click == poc_after_show(
                *old(self),
                *state,
                *input,
                old(seek_state).paused_on_click,
            ),
            final(action_out)@ == old(action_out)@ + show_emits(
                *old(self),
                *state,
                *input,
                old(seek_state).paused_on_click,
            ),
    {
        let converter = ProgressPosConverter {
            zoom: self.zoom,
            widget_center_norm: self.widget_center_norm,
            rect: input.rect,
            total_runtime: state.total_runtime,
        };
        let ghost poc0 = seek_state.paused_on_click;
        let ghost poc1 = poc_fold(
            input.clip_inputs@,
            0,
            state.clips@.len() as int,
            poc0,
            state.paused,
        );
        let pending = self.pending_clip;
        let n = state.clips.len();
        let mut i: usize = 0;
        while i < n
            invariant
                i <= n,
                n == state.clips@.len(),
                converter == make_converter(*old(self), input.rect, state.total_runtime),
                converter.wf_spec(),
                *self == *old(self),
                show_input_ok(*old(self), *state, *input),
                pending == old(self).pending_clip,
                poc_fold(
                    input.clip_inputs@,
                    i as int,
                    n as int,
                    seek_state.paused_on_click,
                    state.paused,
                ) == poc1,
                action_out@ + clips_emits_from(
                    converter,
                    state.clips@,
                    input.clip_inputs@,
                    i as int,
                    seek_state.paused_on_click,
                    state.paused,
                ) == old(action_out)@ + clips_emits_from(
                    converter,
                    state.clips@,
                    input.clip_inputs@,
                    0,
                    poc0,
                    state.paused,
                ),
            decreases n - i,
        {
            let ghost pre_out = action_out@;
            let ghost pre_poc = seek_state.paused_on_click;
            let pair = input.clip_inputs[i];
            let clip = state.clips[i];
            proof {
                assert(pair_pointer_ok(converter, input.clip_inputs@[i as int]));
            }
            self.render_clip(
                &converter,
                &clip,
                &pair.start,
                &pair.end,
                state,
                action_out,
                seek_state,
            );
            proof {
                let pairs = input.clip_inputs@;
                let clips = state.clips@;
                let stepped = poc_after_pair(pre_poc, pairs[i as int], state.paused);
                assert(clips_emits_from(converter, clips, pairs, i as int, pre_poc, state.paused)
                    == render_clip_emits(
                    converter,
                    clips[i as int],
                    pairs[i as int].start,
                    pairs[i as int].end,
                    pre_poc,
                    state.paused,
                ) + clips_emits_from(converter, clips, pairs, i as int + 1, stepped, state.paused));
                vstd::seq_lib::lemma_concat_associative(
                    pre_out,
                    render_clip_emits(
                        converter,
                        clips[i as int],
                        pairs[i as int].start,
                        pairs[i as int].end,
                        pre_poc,
                        state.paused,
                    ),
                    clips_emits_from(converter, clips, pairs, i as int + 1, stepped, state.paused),
                );
            }
            i = i + 1;
        }
        let ghost ce = clips_emits_from(
            converter,
            state.clips@,
            input.clip_inputs@,
            0,
            poc0,
            state.paused,
        );
        proof {
            assert(clips_emits_from(
                converter,
                state.clips@,
                input.clip_inputs@,
                n as int,
                seek_state.paused_on_click,
                state.paused,
            ) == Seq::<GuiAction>::empty());
            Seq::<GuiAction>::add_empty_right(action_out@, Seq::<GuiAction>::empty());
            assert(action_out@ == old(action_out)@ + ce);
            assert(seek_state.paused_on_click == poc1);
        }
        let ghost out_ce = action_out@;
        if pending.is_some() {
            let pc = pending.unwrap();
            let pair = input.clip_inputs[n];
            proof {
                assert(pair_pointer_ok(converter, input.clip_inputs@[n as int]));
            }
            self.render_clip(
                &converter,
                &pc,
                &pair.start,
                &pair.end,
                state,
                action_out,
                seek_state,
            );
        }
        let ghost pe = match pending {
            Some(pc) => render_clip_emits(
                converter,
                pc,
                input.clip_inputs@[n as int].start,
                input.clip_inputs@[n as int].end,
                poc1,
                state.paused,
            ),
            None => Seq::<GuiAction>::empty(),
        };
        let ghost poc2 = seek_state.paused_on_click;
        proof {
            if pending is None {
                Seq::<GuiAction>::add_empty_right(action_out@, pe);
            }
            assert(action_out@ == out_ce + pe);
        }
        let ghost out_pe = action_out@;
        self.handle_response(&converter, input, state, action_out, seek_state);
        proof {
            let re = response_emits(
                converter,
                old(self).pending_clip,
                *input,
                poc2,
                state.paused,
            );
            assert(action_out@ == out_pe + re);
            assert(poc2 == if old(self).pending_clip is Some {
                poc_after_pair(poc1, input.clip_inputs@[n as int], state.paused)
            } else {
                poc1
            });
            let se = show_emits(*old(self), *state, *input, poc0);
            assert(se == (ce + pe) + re);
            vstd::seq_lib::lemma_concat_associative(old(action_out)@, ce, pe);
            vstd::seq_lib::lemma_concat_associative(old(action_out)@, ce + pe, re);
            assert(action_out@ == old(action_out)@ + se);
        }
    }

    /// Clamp the view center so that the visible window stays inside the
    /// timeline at the current zoom. Runs after every interaction.
    pub fn clamp_widget_center(&mut self)
        requires
            ZOOM_ONE <= old(self).zoom <= ZOOM_MAX,
        ensures
            final(self).zoom == old(self).zoom,
            final(self).pending_clip == old(self).pending_clip,
            final(self).widget_center_norm == clamp_spec(
                old(self).widget_center_norm as int,
                clamp_min(old(self).zoom),
                NORM_ONE - clamp_min(old(self).zoom),
            ),
            view_wf(final(self).zoom, final(self).widget_center_norm),
            0 <= final(self).widget_center_norm <= NORM_ONE,
    {
        proof {
            lemma_clamp_min_bounds(self.zoom);
        }
        let zn = self.zoom;
        let lo = ((1_000_000_000u64 + 2 * zn - 1) / (2 * zn)) as i64;
        let hi = NORM_ONE - lo;
        self.widget_center_norm = clamp_i64(self.widget_center_norm, lo, hi);
    }
}

} // verus!
