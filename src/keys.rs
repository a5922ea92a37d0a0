//! What a key press in the editor window asks for.
use vstd::prelude::*;

verus! {

/// The key value of F11.
pub const KEY_F11: u32 = 0xffc8;

/// The key value of a lower-case `s`.
pub const KEY_S: u32 = 0x73;

/// The response to a key press.
#[derive(PartialEq, Eq, Debug, Structural)]
pub enum KeyAction {
    /// Enter full screen (`true`) or leave it (`false`).
    SetFullscreen(bool),
    /// Save the document in place (not a save-as).
    Save,
    /// Nothing to do.
    Ignore,
}

/// The response to the key `keyval`: F11 toggles full screen, Ctrl+S saves,
/// anything else is ignored. `fullscreen` tells whether the window is in full
/// screen now.
pub open spec fn key_response(keyval: u32, control: bool, fullscreen: bool) -> KeyAction {
    if keyval == KEY_F11 {
        KeyAction::SetFullscreen(!fullscreen)
    } else if keyval == KEY_S && control {
        KeyAction::Save
    } else {
        KeyAction::Ignore
    }
}

/// Decides what a key press does; `control` tells whether Ctrl was held.
pub fn key_action(keyval: u32, control: bool, fullscreen: bool) -> (r: KeyAction)
    ensures
        r == key_response(keyval, control, fullscreen),
{
    if keyval == KEY_F11 {
        KeyAction::SetFullscreen(!fullscreen)
    } else if keyval == KEY_S && control {
        KeyAction::Save
    } else {
        KeyAction::Ignore
    }
}

} // verus!
