//! The events that the background listeners hand to the control loop.

use vstd::prelude::*;

verus! {

/// One event of the session. Each kind has exactly one producer: the file
/// watcher, the output readers, the liveness poll, or the keyboard.
#[derive(Debug)]
pub enum AppEvent {
    /// A watched source file changed; carries its path.
    FileChanged(String),
    /// The child wrote a non-empty line.
    FlutterOutput,
    /// The child exited with this code.
    FlutterExited(i32),
    /// The operator asked for a hot reload.
    HotReload,
    /// The operator asked for a hot restart.
    HotRestart,
    /// The operator asked for the debug information.
    ShowInfo,
    /// The operator asked to quit.
    Quit,
}

} // verus!
