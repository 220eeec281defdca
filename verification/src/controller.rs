//! The window lifecycle controller.
//!
//! The controller owns the hand-off slot and decides every step of the
//! Open / FetchPending / Close protocol. It never touches the host windowing
//! subsystem itself: the embedding layer queries whether the auxiliary window
//! currently exists, performs the window operations the controller asks for,
//! and reports their outcomes back. Each decision is a verified function here;
//! only the host calls stand outside.

use vstd::prelude::*;

use crate::errors::{EmptyError, WindowError};
use crate::model::{
    after_clear, after_set, after_take, close_broadcasts, close_succeeds, take_succeeds,
    taken_payload,
};
use crate::slot::HandoffSlot;

verus! {

/// The fixed presentation attributes of the auxiliary window.
pub struct WindowConfig {
    /// The fixed logical identifier of the auxiliary window.
    pub label: String,
    /// The auxiliary view the window loads.
    pub view: String,
    /// The window title.
    pub title: String,
    /// Width in logical units.
    pub width: u32,
    /// Height in logical units.
    pub height: u32,
    /// Whether the user may resize the window.
    pub resizable: bool,
    /// Whether the window carries native decorations.
    pub decorations: bool,
    /// Whether the window is rendered above all other windows.
    pub always_on_top: bool,
    /// Whether the window is excluded from task-switching surfaces.
    pub skip_taskbar: bool,
}

/// What the auxiliary window's attributes must be: a fixed 320 by 400 logical
/// units, not resizable, without native decorations, always on top, excluded
/// from the task switcher, registered under the fixed identifier and loading
/// the fixed auxiliary view.
pub open spec fn is_quick_copy_config(c: WindowConfig) -> bool {
    &&& c.label@ == "quick-copy"@
    &&& c.view@ == "quick-copy.html"@
    &&& c.title@ == "Quick Copy"@
    &&& c.width == 320u32
    &&& c.height == 400u32
    &&& !c.resizable
    &&& !c.decorations
    &&& c.always_on_top
    &&& c.skip_taskbar
}

impl WindowConfig {
    /// The one configuration the auxiliary window is ever created with.
    pub fn quick_copy() -> (c: WindowConfig)
        ensures
            is_quick_copy_config(c),
    {
        WindowConfig {
            label: String::from_str("quick-copy"),
            view: String::from_str("quick-copy.html"),
            title: String::from_str("Quick Copy"),
            width: 320,
            height: 400,
            resizable: false,
            decorations: false,
            always_on_top: true,
            skip_taskbar: true,
        }
    }
}

/// The name of the payload-free closure event broadcast to every window after
/// a Close, so that pinned-state indicators can reset.
pub fn closed_event_name() -> (r: String)
    ensures
        r@ == "quick-copy-closed"@,
{
    String::from_str("quick-copy-closed")
}

/// Outcome of the Close protocol: the result handed to the caller, and whether
/// the closure broadcast goes out (a best-effort step whose own delivery
/// failure never fails the operation).
pub struct CloseOutcome {
    /// `Err` exactly when a window existed and its destruction request failed.
    pub result: Result<(), WindowError>,
    /// Whether the closure event is to be broadcast to all windows.
    pub broadcast: bool,
}

/// The window lifecycle controller. Its state is the hand-off slot; the
/// auxiliary window itself is a host-managed resource whose existence is
/// re-queried by the embedding layer at each operation and passed in.
pub struct Controller {
    slot: HandoffSlot,
}

impl View for Controller {
    type V = Option<Seq<char>>;

    closed spec fn view(&self) -> Option<Seq<char>> {
        self.slot@
    }
}

impl Controller {
    /// A fresh controller: no payload is pending.
    pub fn new() -> (c: Controller)
        ensures
            c@ is None,
    {
        Controller { slot: HandoffSlot::new() }
    }

    /// Open, second step: stores the payload (unconditionally overwriting any
    /// pending one) and fixes the attributes of the window to create.
    pub fn open_store(&mut self, payload: String) -> (config: WindowConfig)
        ensures
            final(self)@ == after_set(old(self)@, payload@),
            is_quick_copy_config(config),
    {
        self.slot.set(payload);
        WindowConfig::quick_copy()
    }

    /// FetchPending: consumes the pending payload, at most once. Returns the
    /// payload if one is pending and empties the slot either way; fails with
    /// [`EmptyError`] exactly when nothing is pending (a second fetch, or a
    /// fetch with no preceding open).
    pub fn fetch_pending(&mut self) -> (r: Result<String, EmptyError>)
        ensures
            final(self)@ == after_take(old(self)@),
            take_succeeds(old(self)@) ==> (r matches Ok(p) && p@ == taken_payload(old(self)@)),
            !take_succeeds(old(self)@) ==> r == Err::<String, EmptyError>(EmptyError),
    {
        self.slot.take()
    }

    /// Close, first step: clears the slot whether or not a window exists, so
    /// no stale payload lingers for a future Open, then says whether the host
    /// must destroy the auxiliary window.
    pub fn close_clear(&mut self, window_exists: bool) -> (close_window: bool)
        ensures
            final(self)@ == after_clear(old(self)@),
            close_window == window_exists,
    {
        self.slot.clear();
        window_exists
    }

}

/// Open, first step: whether a stale auxiliary window must be destroyed before
/// the new one is created. The destruction is best-effort: its failure does
/// not block the rest of the operation. Reads no controller state: the window
/// is a host-managed resource.
pub fn open_prepare(window_exists: bool) -> (close_stale: bool)
    ensures
        close_stale == window_exists,
{
    window_exists
}

/// Open, last step: the host reports the outcome of the creation request,
/// `None` for success and `Some` of its description for a failure. Open
/// succeeds exactly when creation was requested successfully. On failure the
/// stored payload stays pending (it is not rolled back): a later Open or Close
/// supersedes or clears it.
pub fn open_ack(create_error: Option<String>) -> (r: Result<(), WindowError>)
    ensures
        r is Ok <==> create_error is None,
        create_error matches Some(m) ==> (r matches Err(e) && e.message@ == m@),
{
    match create_error {
        None => Ok(()),
        Some(message) => Err(WindowError::new(message)),
    }
}

/// Close, last step: the host reports the outcome of the destruction request,
/// `None` for success (or when no window existed) and `Some` of its
/// description for a failure. Close fails exactly when a window existed and
/// its destruction failed; the closure broadcast goes out in every other case,
/// whether or not a window existed.
pub fn close_ack(window_existed: bool, destroy_error: Option<String>) -> (r: CloseOutcome)
    ensures
        r.result is Ok <==> close_succeeds(window_existed, destroy_error is None),
        r.broadcast == close_broadcasts(window_existed, destroy_error is None),
        r.result matches Err(e) ==> window_existed,
        r.result matches Err(e) ==> (destroy_error matches Some(m) && e.message@ == m@),
{
    match destroy_error {
        Some(message) if window_existed => CloseOutcome {
            result: Err(WindowError::new(message)),
            broadcast: false,
        },
        _ => CloseOutcome { result: Ok(()), broadcast: true },
    }
}

} // verus!
