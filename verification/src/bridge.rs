//! The bridge between the host thread and the UI thread: the one-shot
//! startup handshake, the FIFO intent queue, and close signaling.
//!
//! This is the state the bridge's mutex guards. The caller owns the locking
//! and the condition variable; every transition and poll below is a plain
//! state change with an exact contract. The ready-handle goes from empty to
//! set exactly once, at UI startup, and from set back to empty exactly once,
//! at UI shutdown; it never reverts, so a drained bridge whose handle is
//! gone answers `Close` to every poll, forever.

use vstd::prelude::*;
use crate::gui_actions::GuiAction;

verus! {

/// The bridge state behind the caller's mutex: the UI's ready-handle, a
/// record that the handshake happened, and the pending intents in arrival
/// order.
pub struct GuiInner {
    pub ctx: Option<u64>,
    pub started: bool,
    pub action_queue: Vec<GuiAction>,
}

/// The synchronization object shared between the host thread and the UI
/// thread.
pub struct Gui {
    pub inner: GuiInner,
}

impl Gui {
    /// The pending intents, oldest first.
    pub open spec fn queue(self) -> Seq<GuiAction> {
        self.inner.action_queue@
    }

    /// The UI has started and not yet shut down.
    pub open spec fn ui_running(self) -> bool {
        self.inner.ctx is Some
    }

    /// A set ready-handle always records that the handshake happened.
    pub open spec fn wf_spec(self) -> bool {
        self.inner.ctx is Some ==> self.inner.started
    }
}

/// What one poll returns: the oldest queued intent; on an empty queue, a
/// no-op while the UI runs and `Close` once it is gone.
pub open spec fn next_action_spec(g: Gui) -> GuiAction {
    if g.queue().len() > 0 {
        g.queue()[0]
    } else if g.ui_running() {
        GuiAction::NoOp
    } else {
        GuiAction::Close
    }
}

/// A fresh bridge: no ready-handle, no handshake yet, an empty queue.
pub fn gui_init() -> (g: Gui)
    ensures
        !g.ui_running(),
        !g.inner.started,
        g.queue() == Seq::<GuiAction>::empty(),
        g.wf_spec(),
{
    Gui { inner: GuiInner { ctx: None, started: false, action_queue: Vec::new() } }
}

/// Store the UI's ready-handle: the startup handshake, which happens exactly
/// once per bridge. The caller wakes the threads blocked on the handshake
/// afterwards.
pub fn gui_mark_started(gui: &mut Gui, ctx: u64)
    requires
        !old(gui).inner.started,
    ensures
        final(gui).inner.ctx == Some(ctx),
        final(gui).inner.started,
        final(gui).queue() == old(gui).queue(),
        final(gui).wf_spec(),
{
    gui.inner.ctx = Some(ctx);
    gui.inner.started = true;
}

/// Clear the ready-handle at UI shutdown. The handle never reverts: with
/// `started` left set, no second startup can happen.
pub fn gui_mark_stopped(gui: &mut Gui)
    requires
        old(gui).ui_running(),
        old(gui).wf_spec(),
    ensures
        !final(gui).ui_running(),
        final(gui).inner.started,
        final(gui).queue() == old(gui).queue(),
        final(gui).wf_spec(),
{
    gui.inner.ctx = None;
}

/// Append one intent to the queue. Never blocks and never fails: the
/// producer must not stall even if nothing is polling.
pub fn gui_send_action(gui: &mut Gui, action: GuiAction)
    ensures
        final(gui).queue() == old(gui).queue().push(action),
        final(gui).inner.ctx == old(gui).inner.ctx,
        final(gui).inner.started == old(gui).inner.started,
{
    gui.inner.action_queue.push(action);
}

/// Drain one intent without blocking. On an empty queue the result says
/// whether the UI is still there: a no-op while it runs, `Close` once the
/// ready-handle is gone — and the bridge is left unchanged, so every later
/// poll of a closed, drained bridge returns `Close` as well.
pub fn gui_next_action(gui: &mut Gui) -> (action: GuiAction)
    ensures
        action == next_action_spec(*old(gui)),
        old(gui).queue().len() > 0 ==> final(gui).queue() == old(gui).queue().drop_first(),
        old(gui).queue().len() == 0 ==> *final(gui) == *old(gui),
        final(gui).inner.ctx == old(gui).inner.ctx,
        final(gui).inner.started == old(gui).inner.started,
{
    if gui.inner.action_queue.len() > 0 {
        let action = gui.inner.action_queue.remove(0);
        proof {
            assert(gui.inner.action_queue@ =~= old(gui).queue().drop_first());
        }
        return action;
    }
    if gui.inner.ctx.is_some() {
        crate::gui_actions::none()
    } else {
        crate::gui_actions::close()
    }
}

/// Whether the UI has started: the condition a thread blocked in the startup
/// handshake waits for.
pub fn gui_is_started(gui: &Gui) -> (b: bool)
    ensures
        b == gui.ui_running(),
{
    gui.inner.ctx.is_some()
}

/// Whether a repaint hint should go to the UI: only while the ready-handle
/// is set.
pub fn gui_notify_update(gui: &Gui) -> (repaint: bool)
    ensures
        repaint == gui.ui_running(),
{
    gui.inner.ctx.is_some()
}

/// Whether a close request should go to the UI: only while the ready-handle
/// is set.
pub fn gui_close(gui: &Gui) -> (request: bool)
    ensures
        request == gui.ui_running(),
{
    gui.inner.ctx.is_some()
}

/// A poll of a running bridge with an empty queue returns the no-op action
/// and nothing else.
pub proof fn lemma_poll_running_empty(g: Gui)
    requires
        g.ui_running(),
        g.queue().len() == 0,
    ensures
        next_action_spec(g) == GuiAction::NoOp,
{
}

/// Once the ready-handle is cleared and the queue drained, a poll returns
/// `Close`; since `gui_next_action` leaves an empty-queue bridge unchanged,
/// every subsequent poll returns `Close` too, indefinitely.
pub proof fn lemma_closed_bridge_polls_close(g: Gui)
    requires
        !g.ui_running(),
        g.queue().len() == 0,
    ensures
        next_action_spec(g) == GuiAction::Close,
{
}

/// The intents a consumer sees, polling one at a time until the queue is
/// empty.
pub open spec fn drain_spec(q: Seq<GuiAction>) -> Seq<GuiAction>
    decreases q.len(),
{
    if q.len() == 0 {
        Seq::<GuiAction>::empty()
    } else {
        seq![q[0]] + drain_spec(q.drop_first())
    }
}

/// Draining returns a queue's intents exactly, in order.
proof fn lemma_drain_id(q: Seq<GuiAction>)
    ensures
        drain_spec(q) == q,
    decreases q.len(),
{
    if q.len() == 0 {
        assert(drain_spec(q) =~= q);
    } else {
        lemma_drain_id(q.drop_first());
        assert(drain_spec(q) =~= q);
    }
}

/// The queue is FIFO: whatever a single producer pushes, in whatever
/// interleaving with polls, comes out in push order. Pushing appends and a
/// poll takes the front, so draining a queue holding `init + pushes` yields
/// exactly `init + pushes`.
pub proof fn lemma_queue_fifo(init: Seq<GuiAction>, pushes: Seq<GuiAction>)
    ensures
        drain_spec(init + pushes) == init + pushes,
{
    lemma_drain_id(init + pushes);
}

} // verus!
