//! User intents crossing from the UI thread to the host engine, and their
//! constructors. Every intent is an immutable value that is cheap to copy.
//!
//! Timeline positions are fixed-point integers in the host's time unit; the
//! engine never interprets the unit, it only maps between pixel space and
//! position space.

use vstd::prelude::*;

verus! {

/// A clip on the timeline. `id == 0` denotes a not-yet-persisted, pending
/// clip. `start <= end` is the host's validation duty: a drag in progress may
/// cross the boundaries, and boundary edits are forwarded uncorrected.
#[derive(Clone, Copy, PartialEq, Eq, Structural, Debug)]
pub struct Clip {
    pub id: u64,
    pub start: i64,
    pub end: i64,
}

/// A user-initiated action destined for the host engine.
#[derive(Clone, Copy, PartialEq, Eq, Structural, Debug)]
pub enum GuiAction {
    /// Nothing happened; a poll found the queue empty while the UI is up.
    NoOp,
    /// Toggle the pause flag.
    TogglePause,
    /// The UI is gone or the user asked to close it.
    Close,
    /// Move playback to this timeline position.
    Seek { position: i64 },
    /// Persist a newly created clip.
    ClipAdd { clip: Clip },
    /// Remove the clip containing this position.
    ClipRemove { at_position: i64 },
    /// Replace a persisted clip with an edited copy.
    ClipEdit { clip: Clip },
    /// Write the current project state out.
    Save,
}

/// The action a poll returns when the queue is empty and the UI is running.
pub fn none() -> (a: GuiAction)
    ensures
        a == GuiAction::NoOp,
{
    GuiAction::NoOp
}

/// The pause-toggle action.
pub fn toggle_pause() -> (a: GuiAction)
    ensures
        a == GuiAction::TogglePause,
{
    GuiAction::TogglePause
}

/// The close action.
pub fn close() -> (a: GuiAction)
    ensures
        a == GuiAction::Close,
{
    GuiAction::Close
}

/// A seek to `pos`.
pub fn seek(pos: i64) -> (a: GuiAction)
    ensures
        a == (GuiAction::Seek { position: pos }),
{
    GuiAction::Seek { position: pos }
}

/// Persist `clip`.
pub fn clip_add(clip: &Clip) -> (a: GuiAction)
    ensures
        a == (GuiAction::ClipAdd { clip: *clip }),
{
    GuiAction::ClipAdd { clip: *clip }
}

/// Remove the clip containing `current_pos`.
pub fn clip_remove(current_pos: i64) -> (a: GuiAction)
    ensures
        a == (GuiAction::ClipRemove { at_position: current_pos }),
{
    GuiAction::ClipRemove { at_position: current_pos }
}

/// Replace a clip with the edited `clip`.
pub fn clip_edit(clip: &Clip) -> (a: GuiAction)
    ensures
        a == (GuiAction::ClipEdit { clip: *clip }),
{
    GuiAction::ClipEdit { clip: *clip }
}

/// Write the project out.
pub fn save() -> (a: GuiAction)
    ensures
        a == GuiAction::Save,
{
    GuiAction::Save
}

} // verus!
