//! The lifecycle of the application: starting up, taking commands, taking
//! text, recording a key.

use vstd::prelude::*;

verus! {

/// How the application treats the next key.
#[derive(Debug, Clone, Copy, PartialEq, Eq, Hash, Structural)]
pub enum AppStatus {
    /// Starting up; nothing has been loaded yet.
    Init,
    /// Running; a key is a command.
    Initialized,
    /// A text field is being edited; a key is text.
    UserInput,
    /// A binding is being changed; the next key is recorded.
    KeyBindMode,
}

impl Default for AppStatus {
    fn default() -> (r: AppStatus)
        ensures
            r == AppStatus::Init,
    {
        AppStatus::Init
    }
}

impl AppStatus {
    /// The status of an application that has finished starting up.
    pub fn initialized() -> (r: AppStatus)
        ensures
            r == AppStatus::Initialized,
    {
        AppStatus::Initialized
    }

    /// Whether this is the status in which keys are commands.
    pub fn is_initialized(&self) -> (r: bool)
        ensures
            r == (*self == AppStatus::Initialized),
    {
        matches!(self, AppStatus::Initialized)
    }
}

} // verus!
