//! History of item edits and the undo/redo stack.
use vstd::prelude::*;

use crate::clock::{new_id, now_millis};
use crate::domain::item::ItemContent;

verus! {

/// What created a history entry.
#[derive(Debug, Clone)]
pub enum HistoryAction {
    /// The item was created.
    Created,
    /// A field of the item was modified.
    Modified { field: String },
    /// The item was restored from an earlier entry.
    Restored { from_entry: u128 },
}

/// Description of an action.
pub open spec fn action_description(a: HistoryAction) -> Seq<char> {
    match a {
        HistoryAction::Created => "Created"@,
        HistoryAction::Modified { field } => "Modified "@ + field@,
        HistoryAction::Restored { .. } => "Restored from history"@,
    }
}

impl HistoryAction {
    /// Human-readable description.
    pub fn description(&self) -> (r: String)
        ensures
            r@ == action_description(*self),
    {
        match self {
            HistoryAction::Created => String::from_str("Created"),
            HistoryAction::Modified { field } => {
                let mut s = String::from_str("Modified ");
                s.append(field.as_str());
                s
            },
            HistoryAction::Restored { .. } => String::from_str("Restored from history"),
        }
    }
}

/// State of an item at some point in time.
#[derive(Debug, Clone)]
pub struct ItemSnapshot {
    pub title: String,
    pub content: ItemContent,
    pub notes: Option<String>,
    pub tags: Vec<u128>,
}

impl ItemSnapshot {
    /// Builds a snapshot.
    pub fn new(title: &str, content: ItemContent, notes: Option<String>, tags: Vec<u128>) -> (r: ItemSnapshot)
        ensures
            r.title@ == title@,
            r.content == content,
            r.notes == notes,
            r.tags == tags,
    {
        ItemSnapshot { title: String::from_str(title), content, notes, tags }
    }
}

/// A past state of an item.
#[derive(Debug, Clone)]
pub struct HistoryEntry {
    /// Unique identifier.
    pub id: u128,
    /// When the change happened, in milliseconds since the Unix epoch.
    pub timestamp: i64,
    /// What caused the entry.
    pub action: HistoryAction,
    /// The item at that point.
    pub snapshot: ItemSnapshot,
}

impl HistoryEntry {
    /// A new entry stamped now.
    pub fn new(action: HistoryAction, snapshot: ItemSnapshot) -> (r: HistoryEntry)
        ensures
            r.action == action,
            r.snapshot == snapshot,
    {
        HistoryEntry { id: new_id(), timestamp: now_millis(), action, snapshot }
    }

    /// Entry for a creation.
    pub fn created(snapshot: ItemSnapshot) -> (r: HistoryEntry)
        ensures
            r.action is Created,
            r.snapshot == snapshot,
    {
        HistoryEntry::new(HistoryAction::Created, snapshot)
    }

    /// Entry for a modification of `field`.
    pub fn modified(field: &str, snapshot: ItemSnapshot) -> (r: HistoryEntry)
        ensures
            r.action matches HistoryAction::Modified { field: f } && f@ == field@,
            r.snapshot == snapshot,
    {
        HistoryEntry::new(HistoryAction::Modified { field: String::from_str(field) }, snapshot)
    }

    /// Entry for a restoration from `from_entry`.
    pub fn restored(from_entry: u128, snapshot: ItemSnapshot) -> (r: HistoryEntry)
        ensures
            r.action == (HistoryAction::Restored { from_entry }),
            r.snapshot == snapshot,
    {
        HistoryEntry::new(HistoryAction::Restored { from_entry }, snapshot)
    }
}

/// An undoable change: the item's state before it.
#[derive(Debug, Clone)]
pub struct UndoEntry {
    /// What can be undone.
    pub description: String,
    /// The item that was changed.
    pub item_id: u128,
    /// The item's state before the change.
    pub previous_state: ItemSnapshot,
}

impl UndoEntry {
    /// Builds an entry.
    pub fn new(description: &str, item_id: u128, previous_state: ItemSnapshot) -> (r: UndoEntry)
        ensures
            r.description@ == description@,
            r.item_id == item_id,
            r.previous_state == previous_state,
    {
        UndoEntry { description: String::from_str(description), item_id, previous_state }
    }
}

/// Undo and redo stacks with a bound on the undo history.
#[derive(Debug)]
pub struct UndoStack {
    undo: Vec<UndoEntry>,
    redo: Vec<UndoEntry>,
    max_size: usize,
}

/// The undo history after pushing `e` onto `undo` with bound `max`: the oldest
/// entry is dropped when the bound is exceeded.
pub open spec fn pushed_bounded(undo: Seq<UndoEntry>, e: UndoEntry, max: nat) -> Seq<UndoEntry> {
    if undo.len() + 1 > max {
        undo.push(e).drop_first()
    } else {
        undo.push(e)
    }
}

impl UndoStack {
    /// Undoable entries, oldest first.
    pub closed spec fn undo_entries(&self) -> Seq<UndoEntry> {
        self.undo@
    }

    /// Redoable entries, oldest first.
    pub closed spec fn redo_entries(&self) -> Seq<UndoEntry> {
        self.redo@
    }

    /// Bound on the undo history.
    pub closed spec fn bound(&self) -> nat {
        self.max_size as nat
    }

    /// The undo history never exceeds its bound.
    pub closed spec fn wf(&self) -> bool {
        self.undo@.len() <= self.max_size
    }

    /// Empty stacks keeping at most 50 undo entries.
    pub fn new() -> (r: UndoStack)
        ensures
            r.wf(),
            r.undo_entries().len() == 0,
            r.redo_entries().len() == 0,
            r.bound() == 50,
    {
        UndoStack { undo: Vec::new(), redo: Vec::new(), max_size: 50 }
    }

    /// Empty stacks keeping at most `max_size` undo entries.
    pub fn with_max_size(max_size: usize) -> (r: UndoStack)
        ensures
            r.wf(),
            r.undo_entries().len() == 0,
            r.redo_entries().len() == 0,
            r.bound() == max_size,
    {
        UndoStack { undo: Vec::new(), redo: Vec::new(), max_size }
    }

    /// Records a new change: it goes on top of the undo history (dropping the
    /// oldest entry beyond the bound) and the redo stack is cleared.
    pub fn push(&mut self, entry: UndoEntry)
        requires
            old(self).wf(),
        ensures
            final(self).wf(),
            final(self).undo_entries() == pushed_bounded(old(self).undo_entries(), entry, old(self).bound()),
            final(self).redo_entries().len() == 0,
            final(self).bound() == old(self).bound(),
    {
        self.redo.clear();
        self.undo.push(entry);
        if self.undo.len() > self.max_size {
            self.undo.remove(0);
        }
    }

    /// Takes the most recent undoable entry.
    pub fn pop_undo(&mut self) -> (r: Option<UndoEntry>)
        requires
            old(self).wf(),
        ensures
            final(self).wf(),
            old(self).undo_entries().len() == 0 ==> r is None && final(self).undo_entries() == old(self).undo_entries(),
            old(self).undo_entries().len() > 0 ==> r == Some(old(self).undo_entries().last())
                && final(self).undo_entries() == old(self).undo_entries().drop_last(),
            final(self).redo_entries() == old(self).redo_entries(),
            final(self).bound() == old(self).bound(),
    {
        self.undo.pop()
    }

    /// Puts an undone entry on the redo stack.
    pub fn push_redo(&mut self, entry: UndoEntry)
        requires
            old(self).wf(),
        ensures
            final(self).wf(),
            final(self).redo_entries() == old(self).redo_entries().push(entry),
            final(self).undo_entries() == old(self).undo_entries(),
            final(self).bound() == old(self).bound(),
    {
        self.redo.push(entry)
    }

    /// Takes the most recent redoable entry.
    pub fn pop_redo(&mut self) -> (r: Option<UndoEntry>)
        requires
            old(self).wf(),
        ensures
            final(self).wf(),
            old(self).redo_entries().len() == 0 ==> r is None && final(self).redo_entries() == old(self).redo_entries(),
            old(self).redo_entries().len() > 0 ==> r == Some(old(self).redo_entries().last())
                && final(self).redo_entries() == old(self).redo_entries().drop_last(),
            final(self).undo_entries() == old(self).undo_entries(),
            final(self).bound() == old(self).bound(),
    {
        self.redo.pop()
    }

    /// Whether something can be undone.
    pub fn can_undo(&self) -> (r: bool)
        ensures
            r == (self.undo_entries().len() > 0),
    {
        self.undo.len() > 0
    }

    /// Whether something can be redone.
    pub fn can_redo(&self) -> (r: bool)
        ensures
            r == (self.redo_entries().len() > 0),
    {
        self.redo.len() > 0
    }

    /// Description of the next undo, if any.
    pub fn undo_description(&self) -> (r: Option<&str>)
        ensures
            match r {
                Some(d) => self.undo_entries().len() > 0 && d@ == self.undo_entries().last().description@,
                None => self.undo_entries().len() == 0,
            },
    {
        if self.undo.len() == 0 {
            None
        } else {
            Some(self.undo[self.undo.len() - 1].description.as_str())
        }
    }

    /// Description of the next redo, if any.
    pub fn redo_description(&self) -> (r: Option<&str>)
        ensures
            match r {
                Some(d) => self.redo_entries().len() > 0 && d@ == self.redo_entries().last().description@,
                None => self.redo_entries().len() == 0,
            },
    {
        if self.redo.len() == 0 {
            None
        } else {
            Some(self.redo[self.redo.len() - 1].description.as_str())
        }
    }

    /// Forgets all history.
    pub fn clear(&mut self)
        ensures
            final(self).wf(),
            final(self).undo_entries().len() == 0,
            final(self).redo_entries().len() == 0,
            final(self).bound() == old(self).bound(),
    {
        self.undo.clear();
        self.redo.clear();
    }
}

/// Pushing keeps the undo history within its bound, and when the bound is not
/// zero the entry just pushed is the next one undone.
pub proof fn lemma_push_then_undo(undo: Seq<UndoEntry>, e: UndoEntry, max: nat)
    requires
        undo.len() <= max,
    ensures
        pushed_bounded(undo, e, max).len() <= max,
        max > 0 ==> pushed_bounded(undo, e, max).len() > 0 && pushed_bounded(undo, e, max).last() == e,
{
}

} // verus!
