//! The laws of the hand-off protocol, proved over the model in
//! [`crate::model`] — the same spec functions the executable operations
//! promise in their contracts.

use vstd::prelude::*;

use crate::model::{
    after_clear, after_set, after_take, close_broadcasts, close_succeeds, take_succeeds,
    taken_payload,
};

verus! {

/// Opening with payload `p` and then fetching yields exactly `p`, whatever
/// the slot held before.
pub proof fn open_then_fetch_yields_payload(slot: Option<Seq<char>>, p: Seq<char>)
    ensures
        take_succeeds(after_set(slot, p)),
        taken_payload(after_set(slot, p)) == p,
{
}

/// After an open, the first fetch succeeds and a second fetch fails:
/// at-most-once delivery.
pub proof fn fetch_is_at_most_once(slot: Option<Seq<char>>, p: Seq<char>)
    ensures
        take_succeeds(after_set(slot, p)),
        !take_succeeds(after_take(after_set(slot, p))),
{
}

/// With no payload ever stored, fetching fails.
pub proof fn fetch_without_open_fails()
    ensures
        !take_succeeds(None::<Seq<char>>),
{
}

/// Two opens without an intervening fetch: the fetch yields the second
/// payload, never the first (last-write-wins).
pub proof fn reopen_is_last_write_wins(slot: Option<Seq<char>>, p1: Seq<char>, p2: Seq<char>)
    ensures
        taken_payload(after_set(after_set(slot, p1), p2)) == p2,
        p1 != p2 ==> taken_payload(after_set(after_set(slot, p1), p2)) != p1,
{
}

/// A fetch after a close fails, even if a payload was pending before the
/// close.
pub proof fn fetch_after_close_fails(slot: Option<Seq<char>>)
    ensures
        !take_succeeds(after_clear(slot)),
{
}

/// With no auxiliary window present, Close succeeds and the closure broadcast
/// still goes out, whatever the host would have reported for a destruction.
pub proof fn close_without_window_succeeds_and_broadcasts(destroy_ok: bool)
    ensures
        close_succeeds(false, destroy_ok),
        close_broadcasts(false, destroy_ok),
{
}

} // verus!
