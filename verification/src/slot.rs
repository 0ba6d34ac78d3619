//! A single-value, take-once holding cell for a pending file path.
//!
//! The slot absorbs an OS-level "open with file" notification that may arrive
//! before any listener exists, and hands the path out exactly once to a later
//! query. It is a last-value buffer, not a queue: a new write discards any
//! unconsumed previous value, because a viewer launching on a double-clicked
//! file only ever cares about the most recent request.

use vstd::prelude::*;

verus! {

/// Model of the slot's state after `write(p)`: the slot holds `p`, and any
/// previously held value is discarded.
pub open spec fn slot_after_write(state: Option<Seq<char>>, p: Seq<char>) -> Option<Seq<char>> {
    Some(p)
}

/// Model of what `take` returns: exactly what the slot held.
pub open spec fn take_result(state: Option<Seq<char>>) -> Option<Seq<char>> {
    state
}

/// Model of the slot's state after `take`: empty, whatever it held before.
pub open spec fn slot_after_take(state: Option<Seq<char>>) -> Option<Seq<char>> {
    None
}

/// Holding cell for at most one pending file path (or opaque resource
/// locator). Its abstract state is `Option<Seq<char>>`: the held path's
/// characters, or `None` when nothing is pending.
pub struct PendingOpenSlot {
    pending: Option<String>,
}

impl View for PendingOpenSlot {
    type V = Option<Seq<char>>;

    closed spec fn view(&self) -> Option<Seq<char>> {
        match self.pending {
            Some(p) => Some(p@),
            None => None,
        }
    }
}

impl PendingOpenSlot {
    /// A fresh slot holds nothing.
    pub fn new() -> (s: Self)
        ensures
            s@ is None,
    {
        PendingOpenSlot { pending: None }
    }

    /// Unconditionally replaces the held value with `path`; any previously
    /// unconsumed value is discarded (most recent open wins). No error
    /// conditions.
    pub fn write(&mut self, path: String)
        ensures
            final(self)@ == slot_after_write(old(self)@, path@),
    {
        self.pending = Some(path);
    }

    /// Reads and clears the held value, returning it (`None` when nothing was
    /// pending, which is the ordinary steady state, not an error).
    pub fn take(&mut self) -> (r: Option<String>)
        ensures
            final(self)@ == slot_after_take(old(self)@),
            match r {
                Some(p) => take_result(old(self)@) == Some(p@),
                None => take_result(old(self)@) is None,
            },
    {
        self.pending.take()
    }
}

/// Take-once: after `write(p)`, the first `take` returns `p` and a second
/// `take` returns empty — no two reads observe the same written value.
pub proof fn lemma_take_once(state: Option<Seq<char>>, p: Seq<char>)
    ensures
        take_result(slot_after_write(state, p)) == Some(p),
        take_result(slot_after_take(slot_after_write(state, p))) is None,
{
}

/// Last-write-wins: after `write(p1); write(p2)`, `take` returns `p2` only;
/// `p1` is unrecoverable.
pub proof fn lemma_last_write_wins(state: Option<Seq<char>>, p1: Seq<char>, p2: Seq<char>)
    ensures
        take_result(slot_after_write(slot_after_write(state, p1), p2)) == Some(p2),
        p1 != p2 ==> take_result(slot_after_write(slot_after_write(state, p1), p2)) != Some(p1),
{
}

/// Empty-steady-state: a take on an empty slot (in particular, on a fresh
/// one) returns empty and leaves the slot empty.
pub proof fn lemma_empty_steady_state()
    ensures
        take_result(None::<Seq<char>>) is None,
        slot_after_take(None::<Seq<char>>) is None,
{
}

} // verus!
