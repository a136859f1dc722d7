//! What the interface is showing and where the keyboard focus rests.

pub mod focus;
pub mod keybindings;
pub mod machine;
pub mod status;
pub mod ui_mode;

pub use focus::Focus;
pub use keybindings::{KeybindConflictError, KeyBindings};
pub use machine::{AppState, Effect, IoEvent};
pub use status::AppStatus;
pub use ui_mode::UiMode;
