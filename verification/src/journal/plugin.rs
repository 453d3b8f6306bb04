use vstd::prelude::*;

use super::action::ActionRecord;
use super::world::records_view;

verus! {

/// Queue of journal actions to be applied this frame.
/// Any system pushes actions here; the journal processes them each frame.
#[derive(Debug)]
pub struct JournalActionQueue(pub Vec<ActionRecord>);

impl JournalActionQueue {
    /// An empty queue.
    pub fn new() -> (q: JournalActionQueue)
        ensures
            q.0@.len() == 0,
    {
        JournalActionQueue(Vec::new())
    }

    /// Takes every queued action, oldest first, leaving the queue empty.
    pub fn drain(&mut self) -> (out: Vec<ActionRecord>)
        ensures
            records_view(out@) == records_view(old(self).0@),
            final(self).0@.len() == 0,
    {
        let mut out: Vec<ActionRecord> = Vec::new();
        std::mem::swap(&mut out, &mut self.0);
        out
    }
}

impl Default for JournalActionQueue {
    fn default() -> (q: JournalActionQueue)
        ensures
            q.0@.len() == 0,
    {
        JournalActionQueue::new()
    }
}

/// Pending undo and redo requests, set by input or other systems and processed each frame.
#[derive(Debug, Default, Clone, Copy)]
pub struct JournalUndoRedoQueue {
    pub undo_count: u32,
    pub redo_count: u32,
}

/// The state of the keys that undo and redo listen to in one frame.
#[derive(Debug, Clone, Copy)]
pub struct UndoRedoKeys {
    /// A control key is held.
    pub ctrl: bool,
    /// A shift key is held.
    pub shift: bool,
    /// Z was pressed this frame.
    pub z_pressed: bool,
    /// Y was pressed this frame.
    pub y_pressed: bool,
}

/// Undo requests that one frame of keys adds: Ctrl+Z without shift.
pub open spec fn undo_requests(k: UndoRedoKeys) -> int {
    if k.ctrl && k.z_pressed && !k.shift { 1 } else { 0 }
}

/// Redo requests that one frame of keys adds: Ctrl+Shift+Z and Ctrl+Y each count once.
pub open spec fn redo_requests(k: UndoRedoKeys) -> int {
    (if k.ctrl && k.z_pressed && k.shift { 1int } else { 0int }) + (if k.ctrl && k.y_pressed { 1int } else { 0int })
}

impl JournalUndoRedoQueue {
    /// Queues the undo and redo requests that one frame of keys makes.
    pub fn add_key_requests(&mut self, keys: UndoRedoKeys)
        requires
            old(self).undo_count + undo_requests(keys) <= u32::MAX,
            old(self).redo_count + redo_requests(keys) <= u32::MAX,
        ensures
            final(self).undo_count == old(self).undo_count + undo_requests(keys),
            final(self).redo_count == old(self).redo_count + redo_requests(keys),
    {
        if !keys.ctrl {
            return;
        }
        if keys.z_pressed {
            if keys.shift {
                self.redo_count = self.redo_count + 1;
            } else {
                self.undo_count = self.undo_count + 1;
            }
        }
        if keys.y_pressed {
            self.redo_count = self.redo_count + 1;
        }
    }

    /// Whether the requests that one frame of keys makes fit in the counters.
    pub fn key_requests_fit(&self, keys: UndoRedoKeys) -> (b: bool)
        ensures
            b == (self.undo_count + undo_requests(keys) <= u32::MAX
                && self.redo_count + redo_requests(keys) <= u32::MAX),
    {
        let undo: u64 = if keys.ctrl && keys.z_pressed && !keys.shift { 1 } else { 0 };
        let redo: u64 = (if keys.ctrl && keys.z_pressed && keys.shift { 1 } else { 0 })
            + (if keys.ctrl && keys.y_pressed { 1 } else { 0 });
        (self.undo_count as u64) + undo <= (u32::MAX as u64) && (self.redo_count as u64) + redo
            <= (u32::MAX as u64)
    }

    /// Takes the pending counts (undo, redo), leaving none pending.
    pub fn take_counts(&mut self) -> (counts: (u32, u32))
        ensures
            counts == (old(self).undo_count, old(self).redo_count),
            final(self).undo_count == 0,
            final(self).redo_count == 0,
    {
        let counts = (self.undo_count, self.redo_count);
        self.undo_count = 0;
        self.redo_count = 0;
        counts
    }
}

} // verus!
