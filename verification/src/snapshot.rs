//! The host engine's state as the UI sees it: a per-paint snapshot copy,
//! acquired once at the start of a paint pass and released exactly once at
//! its end.
//!
//! The host owns the authoritative state and mutates it freely on its own
//! thread; the UI only ever reads a `AppStateSnapshot`, a plain owned copy.
//! `AppState` accounts for every acquire and release, so a paint pass can
//! state — and the verifier can check — that the release runs exactly once
//! per acquire on every exit path.

use vstd::prelude::*;
use crate::converter::TOTAL_MAX;
use crate::gui_actions::Clip;

verus! {

/// An immutable copy of the host state, valid for one paint pass.
pub struct AppStateSnapshot {
    pub paused: bool,
    pub current_position: i64,
    pub total_runtime: i64,
    pub clips: Vec<Clip>,
    pub text: Vec<u8>,
}

impl AppStateSnapshot {
    /// The machine bounds the interaction engine needs of a snapshot.
    pub open spec fn wf_spec(self) -> bool {
        1 <= self.total_runtime <= TOTAL_MAX
    }
}

/// The host-owned state, together with the snapshot ledger: how many
/// snapshots were handed out and how many were released back.
pub struct AppState {
    pub paused: bool,
    pub current_position: i64,
    pub total_runtime: i64,
    pub clips: Vec<Clip>,
    pub text: Vec<u8>,
    pub snapshots_acquired: u64,
    pub snapshots_released: u64,
}

impl AppState {
    /// No snapshot is outstanding.
    pub open spec fn idle(self) -> bool {
        self.snapshots_released == self.snapshots_acquired
    }

    /// The snapshot a paint pass acquires from this state.
    pub open spec fn snapshot_spec(self) -> AppStateSnapshot {
        AppStateSnapshot {
            paused: self.paused,
            current_position: self.current_position,
            total_runtime: self.total_runtime,
            clips: self.clips,
            text: self.text,
        }
    }

    /// The host fields, without the snapshot ledger.
    pub open spec fn fields_unchanged(self, other: AppState) -> bool {
        &&& self.paused == other.paused
        &&& self.current_position == other.current_position
        &&& self.total_runtime == other.total_runtime
        &&& self.clips@ == other.clips@
        &&& self.text@ == other.text@
    }

    /// Atomically read the host state into an owned copy. At most one
    /// snapshot is out at a time; the ledger records the acquisition.
    pub fn appstate_snapshot(&mut self) -> (s: AppStateSnapshot)
        requires
            old(self).idle(),
            old(self).snapshots_acquired < u64::MAX,
        ensures
            final(self).snapshots_acquired == old(self).snapshots_acquired + 1,
            final(self).snapshots_released == old(self).snapshots_released,
            final(self).fields_unchanged(*old(self)),
            s.paused == old(self).paused,
            s.current_position == old(self).current_position,
            s.total_runtime == old(self).total_runtime,
            s.clips@ == old(self).clips@,
            s.text@ == old(self).text@,
    {
        let mut clips: Vec<Clip> = Vec::new();
        let mut i: usize = 0;
        while i < self.clips.len()
            invariant
                i <= self.clips.len(),
                clips@ == self.clips@.subrange(0, i as int),
            decreases self.clips.len() - i,
        {
            clips.push(self.clips[i]);
            i = i + 1;
            proof {
                assert(clips@ == self.clips@.subrange(0, i as int));
            }
        }
        let mut text: Vec<u8> = Vec::new();
        let mut j: usize = 0;
        while j < self.text.len()
            invariant
                j <= self.text.len(),
                text@ == self.text@.subrange(0, j as int),
            decreases self.text.len() - j,
        {
            text.push(self.text[j]);
            j = j + 1;
            proof {
                assert(text@ == self.text@.subrange(0, j as int));
            }
        }
        proof {
            assert(clips@ == self.clips@.subrange(0, self.clips@.len() as int));
            assert(self.clips@.subrange(0, self.clips@.len() as int) == self.clips@);
            assert(text@ == self.text@.subrange(0, self.text@.len() as int));
            assert(self.text@.subrange(0, self.text@.len() as int) == self.text@);
        }
        self.snapshots_acquired = self.snapshots_acquired + 1;
        AppStateSnapshot {
            paused: self.paused,
            current_position: self.current_position,
            total_runtime: self.total_runtime,
            clips,
            text,
        }
    }

    /// Release the snapshot acquired from this state: the host may reuse the
    /// buffers it copied from. Must run exactly once per acquisition, which
    /// the ledger enforces.
    pub fn appstate_deinit(&mut self)
        requires
            old(self).snapshots_acquired == old(self).snapshots_released + 1,
        ensures
            final(self).snapshots_released == old(self).snapshots_released + 1,
            final(self).snapshots_acquired == old(self).snapshots_acquired,
            final(self).fields_unchanged(*old(self)),
            final(self).idle(),
    {
        self.snapshots_released = self.snapshots_released + 1;
    }
}

} // verus!
