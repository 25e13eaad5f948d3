//! Mapping of single key presses to operator commands.

use vstd::prelude::*;
use crate::events::AppEvent;

verus! {

/// `r`: hot reload.
pub const KEY_RELOAD: u8 = 0x72;

/// `R`: hot restart.
pub const KEY_RESTART: u8 = 0x52;

/// `i`: show the debug information.
pub const KEY_INFO: u8 = 0x69;

/// `q`: quit.
pub const KEY_QUIT: u8 = 0x71;

/// The byte a terminal delivers for Ctrl+C when it does not raise a signal.
pub const KEY_INTERRUPT: u8 = 0x03;

/// The command bound to a key, if any.
pub open spec fn key_binding(key: u8) -> Option<AppEvent> {
    if key == KEY_RELOAD {
        Some(AppEvent::HotReload)
    } else if key == KEY_RESTART {
        Some(AppEvent::HotRestart)
    } else if key == KEY_INFO {
        Some(AppEvent::ShowInfo)
    } else if key == KEY_QUIT || key == KEY_INTERRUPT {
        Some(AppEvent::Quit)
    } else {
        None
    }
}

/// Maps one byte read from the terminal to the event it stands for; bytes
/// without a binding are ignored.
pub fn key_event(key: u8) -> (event: Option<AppEvent>)
    ensures
        event == key_binding(key),
{
    if key == KEY_RELOAD {
        Some(AppEvent::HotReload)
    } else if key == KEY_RESTART {
        Some(AppEvent::HotRestart)
    } else if key == KEY_INFO {
        Some(AppEvent::ShowInfo)
    } else if key == KEY_QUIT || key == KEY_INTERRUPT {
        Some(AppEvent::Quit)
    } else {
        None
    }
}

} // verus!
