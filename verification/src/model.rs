//! The mathematical model of the hand-off protocol.
//!
//! The whole state of the protocol is the content of the hand-off slot: at
//! most one pending payload, modelled as an `Option<Seq<char>>`. Each spec
//! function below gives the effect or the outcome of one protocol step; the
//! executable operations promise exactly these effects in their contracts,
//! and the laws in [`crate::laws`] are proved over them.

use vstd::prelude::*;

verus! {

/// The slot content after a payload is stored: the previous content is
/// overwritten unconditionally (last-write-wins).
pub open spec fn after_set(slot: Option<Seq<char>>, payload: Seq<char>) -> Option<Seq<char>> {
    Some(payload)
}

/// The slot content after a take: always empty, whether or not a payload was
/// pending (at-most-once delivery).
pub open spec fn after_take(slot: Option<Seq<char>>) -> Option<Seq<char>> {
    None
}

/// Whether a take succeeds: exactly when a payload is pending.
pub open spec fn take_succeeds(slot: Option<Seq<char>>) -> bool {
    slot is Some
}

/// The payload a successful take returns.
pub open spec fn taken_payload(slot: Option<Seq<char>>) -> Seq<char>
    recommends
        slot is Some,
{
    slot->0
}

/// The slot content after a clear: always empty, any pending payload is
/// discarded without being returned.
pub open spec fn after_clear(slot: Option<Seq<char>>) -> Option<Seq<char>> {
    None
}

/// Whether the Close operation succeeds, given whether an auxiliary window
/// existed and whether its destruction request succeeded. Close fails only
/// when a window existed and the host refused to destroy it.
pub open spec fn close_succeeds(window_existed: bool, destroy_ok: bool) -> bool {
    !window_existed || destroy_ok
}

/// Whether Close broadcasts the closure event: after the clear/close sequence,
/// whether or not a window existed, but not when the destruction request
/// itself failed (the operation then stops with the error).
pub open spec fn close_broadcasts(window_existed: bool, destroy_ok: bool) -> bool {
    !window_existed || destroy_ok
}

} // verus!
