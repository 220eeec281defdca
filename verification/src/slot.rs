//! The hand-off slot: a single-valued holder of at most one pending payload.

use vstd::prelude::*;

use crate::errors::EmptyError;
use crate::model::{after_clear, after_set, after_take, take_succeeds, taken_payload};

verus! {

/// Holds at most one pending credential payload, an opaque serialized string.
/// Created empty; payloads are stored with last-write-wins semantics and
/// consumed at most once.
pub struct HandoffSlot {
    payload: Option<String>,
}

impl View for HandoffSlot {
    type V = Option<Seq<char>>;

    closed spec fn view(&self) -> Option<Seq<char>> {
        match self.payload {
            Some(p) => Some(p@),
            None => None,
        }
    }
}

impl HandoffSlot {
    /// A fresh slot holds no payload.
    pub fn new() -> (s: HandoffSlot)
        ensures
            s@ is None,
    {
        HandoffSlot { payload: None }
    }

    /// Stores a payload, unconditionally overwriting any payload already
    /// pending (last-write-wins; never an error).
    pub fn set(&mut self, payload: String)
        ensures
            final(self)@ == after_set(old(self)@, payload@),
    {
        self.payload = Some(payload);
    }

    /// Reads and clears the slot in one step. Returns the payload if one is
    /// pending, so no second caller can retrieve the same value; fails with
    /// [`EmptyError`] exactly when the slot is empty.
    pub fn take(&mut self) -> (r: Result<String, EmptyError>)
        ensures
            final(self)@ == after_take(old(self)@),
            take_succeeds(old(self)@) ==> (r matches Ok(p) && p@ == taken_payload(old(self)@)),
            !take_succeeds(old(self)@) ==> r == Err::<String, EmptyError>(EmptyError),
    {
        match self.payload.take() {
            Some(payload) => Ok(payload),
            None => Err(EmptyError),
        }
    }

    /// Empties the slot, discarding any pending payload without returning it.
    /// Idempotent.
    pub fn clear(&mut self)
        ensures
            final(self)@ == after_clear(old(self)@),
    {
        self.payload = None;
    }
}

} // verus!
