//! The core of the application as a state machine: the status, the screen
//! and the focus, and what each action makes of them. The machine decides;
//! the caller does what it is told to do, such as handing a command to the
//! worker that reads and writes files.

use crate::actions::Action;
use crate::inputs::Key;
use crate::state::focus::{cycle_next, cycle_prev, Focus};
use crate::state::keybindings::KeyBindings;
use crate::state::status::AppStatus;
use crate::state::ui_mode::UiMode;
use vstd::prelude::*;

verus! {

/// A command for the worker that reads and writes files. The worker runs
/// the commands one at a time, in the order in which they were handed over.
#[derive(Debug, Clone, Copy, PartialEq, Eq, Hash, Structural)]
pub enum IoEvent {
    /// Load what the application starts with.
    Initialize,
    /// Put the default configuration back.
    Reset,
    /// Save the boards.
    SaveState,
    /// Load saved boards.
    LoadSave,
}

/// What the caller has to do once the machine has taken a step.
#[derive(Debug, Clone, Copy, PartialEq, Eq, Hash, Structural)]
pub enum Effect {
    /// Nothing more.
    Continue,
    /// Leave the loop and close the application.
    Exit,
    /// Hand the command to the worker and go on without waiting for it.
    Dispatch(IoEvent),
    /// The action is about boards, cards or overlays: pass it to them.
    Delegate(Action),
    /// The key is text for the field that is being edited.
    Text(Key),
    /// The key is the one to bind.
    Record(Key),
}

/// The status, the screen and the focus of the application.
#[derive(Debug, Clone, Copy, PartialEq, Eq, Hash, Structural)]
pub struct AppState {
    pub status: AppStatus,
    pub ui_mode: UiMode,
    pub focus: Focus,
    /// The screen that the configuration asks for at startup and after a
    /// reset of the interface.
    pub default_view: UiMode,
}

impl AppStatus {
    /// The status after text entry has been asked for: it starts from the
    /// running status and from no other.
    pub open spec fn on_take_input(self) -> AppStatus {
        if self == AppStatus::Initialized {
            AppStatus::UserInput
        } else {
            self
        }
    }

    /// The status after text entry or key recording has been ended: both
    /// lead back to the running status, and nothing else changes.
    pub open spec fn on_stop_input(self) -> AppStatus {
        if self == AppStatus::UserInput || self == AppStatus::KeyBindMode {
            AppStatus::Initialized
        } else {
            self
        }
    }

    /// The status after the recording of a key has been asked for: it starts
    /// from the running status and from no other.
    pub open spec fn on_record_key(self) -> AppStatus {
        if self == AppStatus::Initialized {
            AppStatus::KeyBindMode
        } else {
            self
        }
    }

    /// The status after the worker has run `event`: the end of
    /// `Initialize` ends the startup, and nothing else changes the status.
    pub open spec fn on_completed(self, event: IoEvent) -> AppStatus {
        if self == AppStatus::Init && event == IoEvent::Initialize {
            AppStatus::Initialized
        } else {
            self
        }
    }
}

/// The screen that `action` opens, if it opens one; `default_view` is the
/// screen that a reset of the interface goes back to.
pub open spec fn opened_by(action: Action, default_view: UiMode) -> Option<UiMode> {
    match action {
        Action::OpenConfigMenu => Some(UiMode::ConfigMenu),
        Action::GoToMainMenu => Some(UiMode::MainMenu),
        Action::NewBoard => Some(UiMode::NewBoard),
        Action::NewCard => Some(UiMode::NewCard),
        Action::ResetUI => Some(default_view),
        _ => None,
    }
}

impl AppState {
    /// The state with the screen `mode` and the focus on its first region.
    pub open spec fn on_screen(self, mode: UiMode) -> AppState {
        AppState { ui_mode: mode, focus: mode.targets()[0], ..self }
    }

    /// The state with the status `status`.
    pub open spec fn with_status(self, status: AppStatus) -> AppState {
        AppState { status, ..self }
    }

    /// The focus rests on a region of the screen.
    pub open spec fn focus_on_screen(self) -> bool {
        self.ui_mode.targets().contains(self.focus)
    }

    /// What `action` makes of the state, and what the caller has to do.
    ///
    /// `Quit` always asks to leave. While the application starts up, every
    /// other action is left without effect. While text is entered or a key is
    /// recorded, only `StopUserInput` has an effect: it leads back to the
    /// running status. In the running status an action moves the focus,
    /// opens a screen with the focus on its first region, starts text entry,
    /// hands a command to the worker, or is one for the boards and cards.
    pub open spec fn step(self, action: Action) -> (AppState, Effect) {
        if action == Action::Quit {
            (self, Effect::Exit)
        } else if self.status == AppStatus::Init {
            (self, Effect::Continue)
        } else if self.status != AppStatus::Initialized {
            if action == Action::StopUserInput {
                (self.with_status(self.status.on_stop_input()), Effect::Continue)
            } else {
                (self, Effect::Continue)
            }
        } else {
            match action {
                Action::NextFocus => (
                    AppState { focus: cycle_next(self.focus, self.ui_mode.targets()), ..self },
                    Effect::Continue,
                ),
                Action::PrvFocus => (
                    AppState { focus: cycle_prev(self.focus, self.ui_mode.targets()), ..self },
                    Effect::Continue,
                ),
                Action::TakeUserInput => (
                    self.with_status(self.status.on_take_input()),
                    Effect::Continue,
                ),
                Action::StopUserInput => (self, Effect::Continue),
                Action::SaveState => (self, Effect::Dispatch(IoEvent::SaveState)),
                _ => match opened_by(action, self.default_view) {
                    Some(mode) => (self.on_screen(mode), Effect::Continue),
                    None => (self, Effect::Delegate(action)),
                },
            }
        }
    }

    /// What `key` makes of the state under the bindings `bindings`.
    ///
    /// In the running status and during startup a key stands for the action
    /// that it is bound to, and a key bound to nothing has no effect. While
    /// text is entered, the key bound to `StopUserInput` ends the entry and
    /// every other key is text. While a key is recorded, the key bound to
    /// `StopUserInput` gives the recording up and every other key is the one
    /// to bind; either way the recording is over.
    pub open spec fn step_key(self, key: Key, bindings: KeyBindings) -> (AppState, Effect) {
        let stops = bindings.resolve(key) == Some(Action::StopUserInput);
        match self.status {
            AppStatus::UserInput => if stops {
                (self.with_status(AppStatus::Initialized), Effect::Continue)
            } else {
                (self, Effect::Text(key))
            },
            AppStatus::KeyBindMode => if stops {
                (self.with_status(AppStatus::Initialized), Effect::Continue)
            } else {
                (self.with_status(AppStatus::Initialized), Effect::Record(key))
            },
            _ => match bindings.resolve(key) {
                Some(action) => self.step(action),
                None => (self, Effect::Continue),
            },
        }
    }

    /// The state after the worker has run `event`. The end of `Initialize`
    /// ends the startup and shows the default view; the end of any other
    /// command leaves status, screen and focus as they are.
    pub open spec fn completed(self, event: IoEvent) -> AppState {
        if self.status == AppStatus::Init && event == IoEvent::Initialize {
            self.on_screen(self.default_view).with_status(AppStatus::Initialized)
        } else {
            self
        }
    }

    /// A step never fails and never leads back to the startup; it changes
    /// the status only between the running status and text entry.
    pub proof fn lemma_step_status(self, action: Action)
        ensures
            self.step(action).0.status == self.status || (self.status == AppStatus::Initialized
                && action == Action::TakeUserInput && self.step(action).0.status
                == AppStatus::UserInput) || (self.status != AppStatus::Init && self.status
                != AppStatus::Initialized && action == Action::StopUserInput && self.step(
                action,
            ).0.status == AppStatus::Initialized),
            self.status == AppStatus::Init ==> self.step(action).0 == self,
            self.step(action).0.default_view == self.default_view,
    {
    }

    /// A step that changes the screen puts the focus on the first region of
    /// the new screen.
    pub proof fn lemma_new_screen_resets_focus(self, action: Action)
        ensures
            self.step(action).0.ui_mode != self.ui_mode ==> self.step(action).0.focus == self.step(
                action,
            ).0.ui_mode.targets()[0],
    {
    }

    /// A step that moves the focus or opens a screen leaves the focus on a
    /// region of the screen, wherever it was before; every other step leaves
    /// a focus that rests on the screen where it is.
    pub proof fn lemma_focus_stays_on_screen(self, action: Action)
        ensures
            self.focus_on_screen() ==> self.step(action).0.focus_on_screen(),
            self.status == AppStatus::Initialized && (action == Action::NextFocus || action
                == Action::PrvFocus || opened_by(action, self.default_view) is Some) ==> self.step(
                action,
            ).0.focus_on_screen(),
    {
        let after = self.step(action).0;
        let targets = self.ui_mode.targets();
        UiMode::lemma_targets_distinct(self.ui_mode);
        UiMode::lemma_targets_distinct(after.ui_mode);
        if self.status == AppStatus::Initialized {
            if action == Action::NextFocus || action == Action::PrvFocus {
                if targets.contains(self.focus) {
                    crate::seqs::lemma_first_place(targets, self.focus);
                }
                assert(targets.contains(targets[0]));
                assert(targets.contains(after.focus));
            } else if opened_by(action, self.default_view) is Some {
                assert(after.ui_mode.targets()[0] == after.focus);
            }
        }
    }

    /// The end of the startup is the only way out of the startup status, and
    /// it is the end of `Initialize` that brings it.
    pub proof fn lemma_startup_ends_once(self, event: IoEvent)
        ensures
            self.completed(event).status == self.status.on_completed(event),
            self.completed(event).status != self.status ==> self.status == AppStatus::Init && event
                == IoEvent::Initialize && self.completed(event).status == AppStatus::Initialized,
            self.status != AppStatus::Init ==> self.completed(event) == self,
    {
    }

    /// The state in which the application starts: the startup status, no
    /// focus, and the screen that will be shown once the startup has ended.
    pub fn new(default_view: UiMode) -> (r: AppState)
        ensures
            r == (AppState {
                status: AppStatus::Init,
                ui_mode: default_view,
                focus: Focus::NoFocus,
                default_view,
            }),
    {
        AppState { status: AppStatus::Init, ui_mode: default_view, focus: Focus::NoFocus, default_view }
    }

    /// Shows the screen `mode` with the focus on its first region.
    pub fn set_ui_mode(&mut self, mode: UiMode)
        ensures
            *final(self) == old(self).on_screen(mode),
    {
        let targets = mode.get_available_targets();
        self.ui_mode = mode;
        self.focus = targets[0];
    }

    /// Takes the action `action`: changes the state as [`AppState::step`]
    /// says and returns what the caller has to do.
    pub fn do_action(&mut self, action: Action) -> (r: Effect)
        ensures
            (*final(self), r) == old(self).step(action),
    {
        if action == Action::Quit {
            return Effect::Exit;
        }
        match self.status {
            AppStatus::Init => Effect::Continue,
            AppStatus::UserInput | AppStatus::KeyBindMode => {
                if action == Action::StopUserInput {
                    self.status = AppStatus::Initialized;
                }
                Effect::Continue
            },
            AppStatus::Initialized => {
                match action {
                    Action::NextFocus => {
                        let targets = self.ui_mode.get_available_targets();
                        self.focus = self.focus.next(&targets);
                        Effect::Continue
                    },
                    Action::PrvFocus => {
                        let targets = self.ui_mode.get_available_targets();
                        self.focus = self.focus.prev(&targets);
                        Effect::Continue
                    },
                    Action::TakeUserInput => {
                        self.status = AppStatus::UserInput;
                        Effect::Continue
                    },
                    Action::StopUserInput => Effect::Continue,
                    Action::SaveState => Effect::Dispatch(IoEvent::SaveState),
                    Action::OpenConfigMenu => {
                        self.set_ui_mode(UiMode::ConfigMenu);
                        Effect::Continue
                    },
                    Action::GoToMainMenu => {
                        self.set_ui_mode(UiMode::MainMenu);
                        Effect::Continue
                    },
                    Action::NewBoard => {
                        self.set_ui_mode(UiMode::NewBoard);
                        Effect::Continue
                    },
                    Action::NewCard => {
                        self.set_ui_mode(UiMode::NewCard);
                        Effect::Continue
                    },
                    Action::ResetUI => {
                        let view = self.default_view;
                        self.set_ui_mode(view);
                        Effect::Continue
                    },
                    _ => Effect::Delegate(action),
                }
            },
        }
    }

    /// Takes the key `key` under the bindings `bindings`: changes the state
    /// as [`AppState::step_key`] says and returns what the caller has to do.
    pub fn handle_key(&mut self, key: Key, bindings: &KeyBindings) -> (r: Effect)
        ensures
            (*final(self), r) == old(self).step_key(key, *bindings),
    {
        let action: Option<Action> = match bindings.action_for(key) {
            Some(found) => Some(*found),
            None => None,
        };
        let stops = match action {
            Some(Action::StopUserInput) => true,
            _ => false,
        };
        match self.status {
            AppStatus::UserInput => {
                if stops {
                    self.status = AppStatus::Initialized;
                    Effect::Continue
                } else {
                    Effect::Text(key)
                }
            },
            AppStatus::KeyBindMode => {
                self.status = AppStatus::Initialized;
                if stops {
                    Effect::Continue
                } else {
                    Effect::Record(key)
                }
            },
            _ => match action {
                Some(action) => self.do_action(action),
                None => Effect::Continue,
            },
        }
    }

    /// Starts the recording of a key for a binding. This has an effect in
    /// the running status only.
    pub fn record_key(&mut self)
        ensures
            *final(self) == old(self).with_status(old(self).status.on_record_key()),
    {
        if self.status.is_initialized() {
            self.status = AppStatus::KeyBindMode;
        }
    }

    /// Takes note that the worker has run `event`.
    pub fn io_completed(&mut self, event: IoEvent)
        ensures
            *final(self) == old(self).completed(event),
    {
        if self.status == AppStatus::Init && event == IoEvent::Initialize {
            let view = self.default_view;
            self.set_ui_mode(view);
            self.status = AppStatus::Initialized;
        }
    }
}

} // verus!
