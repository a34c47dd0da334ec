//! Normalized global-hotkey events. The OS hook and its polling loop live in
//! the embedding application; this module turns each raw event into the
//! deduplicated Pressed/Released stream the pipeline consumes.

use vstd::prelude::*;

verus! {

/// A normalized global-hotkey transition.
#[derive(Debug, Clone, Copy, PartialEq, Eq, Structural)]
pub enum HotkeyEvent {
    Pressed,
    Released,
}

/// Normalizes one raw hotkey event: an event for another registration is
/// dropped; one for the registered hotkey becomes exactly one Pressed or
/// Released.
pub fn filter_raw_event(event_id: u32, registered_id: u32, pressed: bool) -> (r: Option<
    HotkeyEvent,
>)
    ensures
        event_id != registered_id ==> r is None,
        event_id == registered_id && pressed ==> r == Some(HotkeyEvent::Pressed),
        event_id == registered_id && !pressed ==> r == Some(HotkeyEvent::Released),
{
    if event_id == registered_id {
        if pressed {
            Some(HotkeyEvent::Pressed)
        } else {
            Some(HotkeyEvent::Released)
        }
    } else {
        None
    }
}

} // verus!
