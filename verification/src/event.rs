//! UI events flowing from the backend back into the guest.

use vstd::prelude::*;
use crate::json::Json;

verus! {

/// An event produced by the backend (a click, text change, scroll, key
/// press, 3D pick, animation completion, ...) addressed to a guest handler id
/// that the Miniapp attached to a node via its `events` map.
#[derive(Debug)]
pub struct UiEvent {
    /// The guest handler id from the node's `events` map (the guest reads it
    /// as `ev.id`).
    pub handler: String,
    /// Event kind, e.g. `"click"`, `"change"`, `"input"`, `"submit"`,
    /// `"scroll"`, `"keydown"`, `"pick"`, `"animationend"`, `"dismiss"`.
    pub kind: String,
    /// Event-specific payload (the new value for `change`/`input`, pointer
    /// coordinates for `pointerdown`, the key for `keydown`, ...).
    pub value: Json,
}

impl UiEvent {
    /// An event for a handler.
    pub fn new(handler: String, kind: String, value: Json) -> (e: UiEvent)
        ensures
            e.handler == handler,
            e.kind == kind,
            e.value == value,
    {
        UiEvent { handler, kind, value }
    }

    /// A bare click with no payload.
    pub fn click(handler: String) -> (e: UiEvent)
        ensures
            e.handler == handler,
            e.kind@ == "click"@,
            e.value == Json::Null,
    {
        UiEvent::new(handler, String::from_str("click"), Json::Null)
    }
}

} // verus!
