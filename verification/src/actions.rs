//! The closed vocabulary of user intents, and the names under which a
//! configuration refers to them.

use vstd::prelude::*;

verus! {

/// What the user asked for, once a key has been resolved.
#[derive(Debug, Clone, Copy, PartialEq, Eq, Hash, Structural)]
pub enum Action {
    Quit,
    NextFocus,
    PrvFocus,
    OpenConfigMenu,
    Up,
    Down,
    Right,
    Left,
    TakeUserInput,
    StopUserInput,
    HideUiElement,
    SaveState,
    NewBoard,
    NewCard,
    DeleteCard,
    DeleteBoard,
    ChangeCardStatusToCompleted,
    ChangeCardStatusToActive,
    ChangeCardStatusToStale,
    ResetUI,
    GoToMainMenu,
    ToggleCommandPalette,
    ClearAllToasts,
    Undo,
    Redo,
}

/// The number of actions.
pub const ACTION_COUNT: usize = 25;

impl Action {
    /// The order in which the key bindings are declared and scanned: when a
    /// key is bound to several actions, the one that comes first here wins.
    pub open spec fn order() -> Seq<Action> {
        seq![
            Action::Quit,
            Action::NextFocus,
            Action::PrvFocus,
            Action::OpenConfigMenu,
            Action::Up,
            Action::Down,
            Action::Right,
            Action::Left,
            Action::TakeUserInput,
            Action::StopUserInput,
            Action::HideUiElement,
            Action::SaveState,
            Action::NewBoard,
            Action::NewCard,
            Action::DeleteCard,
            Action::DeleteBoard,
            Action::ChangeCardStatusToCompleted,
            Action::ChangeCardStatusToActive,
            Action::ChangeCardStatusToStale,
            Action::ResetUI,
            Action::GoToMainMenu,
            Action::ToggleCommandPalette,
            Action::ClearAllToasts,
            Action::Undo,
            Action::Redo,
        ]
    }

    /// The place of an action in [`Action::order`].
    pub open spec fn rank(self) -> int {
        match self {
            Action::Quit => 0,
            Action::NextFocus => 1,
            Action::PrvFocus => 2,
            Action::OpenConfigMenu => 3,
            Action::Up => 4,
            Action::Down => 5,
            Action::Right => 6,
            Action::Left => 7,
            Action::TakeUserInput => 8,
            Action::StopUserInput => 9,
            Action::HideUiElement => 10,
            Action::SaveState => 11,
            Action::NewBoard => 12,
            Action::NewCard => 13,
            Action::DeleteCard => 14,
            Action::DeleteBoard => 15,
            Action::ChangeCardStatusToCompleted => 16,
            Action::ChangeCardStatusToActive => 17,
            Action::ChangeCardStatusToStale => 18,
            Action::ResetUI => 19,
            Action::GoToMainMenu => 20,
            Action::ToggleCommandPalette => 21,
            Action::ClearAllToasts => 22,
            Action::Undo => 23,
            Action::Redo => 24,
        }
    }

    /// The name of an action in a configuration.
    pub open spec fn name(self) -> Seq<char> {
        match self {
            Action::Quit => "quit"@,
            Action::NextFocus => "next_focus"@,
            Action::PrvFocus => "prev_focus"@,
            Action::OpenConfigMenu => "open_config_menu"@,
            Action::Up => "up"@,
            Action::Down => "down"@,
            Action::Right => "right"@,
            Action::Left => "left"@,
            Action::TakeUserInput => "take_user_input"@,
            Action::StopUserInput => "stop_user_input"@,
            Action::HideUiElement => "hide_ui_element"@,
            Action::SaveState => "save_state"@,
            Action::NewBoard => "new_board"@,
            Action::NewCard => "new_card"@,
            Action::DeleteCard => "delete_card"@,
            Action::DeleteBoard => "delete_board"@,
            Action::ChangeCardStatusToCompleted => "change_card_status_to_completed"@,
            Action::ChangeCardStatusToActive => "change_card_status_to_active"@,
            Action::ChangeCardStatusToStale => "change_card_status_to_stale"@,
            Action::ResetUI => "reset_ui"@,
            Action::GoToMainMenu => "go_to_main_menu"@,
            Action::ToggleCommandPalette => "toggle_command_palette"@,
            Action::ClearAllToasts => "clear_all_toasts"@,
            Action::Undo => "undo"@,
            Action::Redo => "redo"@,
        }
    }

    /// The action that a configuration means by `name`, if there is one.
    pub open spec fn named(name: Seq<char>) -> Option<Action> {
        if name == "quit"@ {
            Some(Action::Quit)
        } else if name == "next_focus"@ {
            Some(Action::NextFocus)
        } else if name == "prev_focus"@ {
            Some(Action::PrvFocus)
        } else if name == "open_config_menu"@ {
            Some(Action::OpenConfigMenu)
        } else if name == "up"@ {
            Some(Action::Up)
        } else if name == "down"@ {
            Some(Action::Down)
        } else if name == "right"@ {
            Some(Action::Right)
        } else if name == "left"@ {
            Some(Action::Left)
        } else if name == "take_user_input"@ {
            Some(Action::TakeUserInput)
        } else if name == "stop_user_input"@ {
            Some(Action::StopUserInput)
        } else if name == "hide_ui_element"@ {
            Some(Action::HideUiElement)
        } else if name == "save_state"@ {
            Some(Action::SaveState)
        } else if name == "new_board"@ {
            Some(Action::NewBoard)
        } else if name == "new_card"@ {
            Some(Action::NewCard)
        } else if name == "delete_card"@ {
            Some(Action::DeleteCard)
        } else if name == "delete_board"@ {
            Some(Action::DeleteBoard)
        } else if name == "change_card_status_to_completed"@ {
            Some(Action::ChangeCardStatusToCompleted)
        } else if name == "change_card_status_to_active"@ {
            Some(Action::ChangeCardStatusToActive)
        } else if name == "change_card_status_to_stale"@ {
            Some(Action::ChangeCardStatusToStale)
        } else if name == "reset_ui"@ {
            Some(Action::ResetUI)
        } else if name == "go_to_main_menu"@ {
            Some(Action::GoToMainMenu)
        } else if name == "toggle_command_palette"@ {
            Some(Action::ToggleCommandPalette)
        } else if name == "clear_all_toasts"@ {
            Some(Action::ClearAllToasts)
        } else if name == "undo"@ {
            Some(Action::Undo)
        } else if name == "redo"@ {
            Some(Action::Redo)
        } else {
            None
        }
    }

    /// Every action stands at its rank in the declared order, and nowhere else.
    pub proof fn lemma_order_ranks(a: Action)
        ensures
            Action::order().len() == ACTION_COUNT,
            0 <= a.rank() < ACTION_COUNT,
            Action::order()[a.rank()] == a,
            forall|i: int| 0 <= i < ACTION_COUNT && Action::order()[i] == a ==> i == a.rank(),
    {
    }

    /// The name of every action leads back to that action.
    pub proof fn lemma_name_round_trip(a: Action)
        ensures
            Action::named(a.name()) == Some(a),
    {
        reveal_strlit("quit");
        reveal_strlit("next_focus");
        reveal_strlit("prev_focus");
        reveal_strlit("open_config_menu");
        reveal_strlit("up");
        reveal_strlit("down");
        reveal_strlit("right");
        reveal_strlit("left");
        reveal_strlit("take_user_input");
        reveal_strlit("stop_user_input");
        reveal_strlit("hide_ui_element");
        reveal_strlit("save_state");
        reveal_strlit("new_board");
        reveal_strlit("new_card");
        reveal_strlit("delete_card");
        reveal_strlit("delete_board");
        reveal_strlit("change_card_status_to_completed");
        reveal_strlit("change_card_status_to_active");
        reveal_strlit("change_card_status_to_stale");
        reveal_strlit("reset_ui");
        reveal_strlit("go_to_main_menu");
        reveal_strlit("toggle_command_palette");
        reveal_strlit("clear_all_toasts");
        reveal_strlit("undo");
        reveal_strlit("redo");
        // Each name is told apart from the others by its length and first letter.
        assert("quit"@.len() == 4 && "quit"@[0] == 'q');
        assert("next_focus"@.len() == 10 && "next_focus"@[0] == 'n');
        assert("prev_focus"@.len() == 10 && "prev_focus"@[0] == 'p');
        assert("open_config_menu"@.len() == 16 && "open_config_menu"@[0] == 'o');
        assert("up"@.len() == 2 && "up"@[0] == 'u');
        assert("down"@.len() == 4 && "down"@[0] == 'd');
        assert("right"@.len() == 5 && "right"@[0] == 'r');
        assert("left"@.len() == 4 && "left"@[0] == 'l');
        assert("take_user_input"@.len() == 15 && "take_user_input"@[0] == 't');
        assert("stop_user_input"@.len() == 15 && "stop_user_input"@[0] == 's');
        assert("hide_ui_element"@.len() == 15 && "hide_ui_element"@[0] == 'h');
        assert("save_state"@.len() == 10 && "save_state"@[0] == 's');
        assert("new_board"@.len() == 9 && "new_board"@[0] == 'n');
        assert("new_card"@.len() == 8 && "new_card"@[0] == 'n');
        assert("delete_card"@.len() == 11 && "delete_card"@[0] == 'd');
        assert("delete_board"@.len() == 12 && "delete_board"@[0] == 'd');
        assert("change_card_status_to_completed"@.len() == 31 && "change_card_status_to_completed"@[0] == 'c');
        assert("change_card_status_to_active"@.len() == 28 && "change_card_status_to_active"@[0] == 'c');
        assert("change_card_status_to_stale"@.len() == 27 && "change_card_status_to_stale"@[0] == 'c');
        assert("reset_ui"@.len() == 8 && "reset_ui"@[0] == 'r');
        assert("go_to_main_menu"@.len() == 15 && "go_to_main_menu"@[0] == 'g');
        assert("toggle_command_palette"@.len() == 22 && "toggle_command_palette"@[0] == 't');
        assert("clear_all_toasts"@.len() == 16 && "clear_all_toasts"@[0] == 'c');
        assert("undo"@.len() == 4 && "undo"@[0] == 'u');
        assert("redo"@.len() == 4 && "redo"@[0] == 'r');
    }

    /// The name of this action in a configuration.
    pub fn as_str(&self) -> (r: &'static str)
        ensures
            r@ == self.name(),
    {
        match self {
            Action::Quit => "quit",
            Action::NextFocus => "next_focus",
            Action::PrvFocus => "prev_focus",
            Action::OpenConfigMenu => "open_config_menu",
            Action::Up => "up",
            Action::Down => "down",
            Action::Right => "right",
            Action::Left => "left",
            Action::TakeUserInput => "take_user_input",
            Action::StopUserInput => "stop_user_input",
            Action::HideUiElement => "hide_ui_element",
            Action::SaveState => "save_state",
            Action::NewBoard => "new_board",
            Action::NewCard => "new_card",
            Action::DeleteCard => "delete_card",
            Action::DeleteBoard => "delete_board",
            Action::ChangeCardStatusToCompleted => "change_card_status_to_completed",
            Action::ChangeCardStatusToActive => "change_card_status_to_active",
            Action::ChangeCardStatusToStale => "change_card_status_to_stale",
            Action::ResetUI => "reset_ui",
            Action::GoToMainMenu => "go_to_main_menu",
            Action::ToggleCommandPalette => "toggle_command_palette",
            Action::ClearAllToasts => "clear_all_toasts",
            Action::Undo => "undo",
            Action::Redo => "redo",
        }
    }

    /// The action at place `rank` of the declared order; `None` where the
    /// order has no such place.
    pub fn at_rank(rank: usize) -> (r: Option<&'static Action>)
        ensures
            r is Some <==> rank < ACTION_COUNT,
            r matches Some(action) ==> *action == Action::order()[rank as int] && action.rank() == rank,
    {
        match rank {
            0 => Some(&Action::Quit),
            1 => Some(&Action::NextFocus),
            2 => Some(&Action::PrvFocus),
            3 => Some(&Action::OpenConfigMenu),
            4 => Some(&Action::Up),
            5 => Some(&Action::Down),
            6 => Some(&Action::Right),
            7 => Some(&Action::Left),
            8 => Some(&Action::TakeUserInput),
            9 => Some(&Action::StopUserInput),
            10 => Some(&Action::HideUiElement),
            11 => Some(&Action::SaveState),
            12 => Some(&Action::NewBoard),
            13 => Some(&Action::NewCard),
            14 => Some(&Action::DeleteCard),
            15 => Some(&Action::DeleteBoard),
            16 => Some(&Action::ChangeCardStatusToCompleted),
            17 => Some(&Action::ChangeCardStatusToActive),
            18 => Some(&Action::ChangeCardStatusToStale),
            19 => Some(&Action::ResetUI),
            20 => Some(&Action::GoToMainMenu),
            21 => Some(&Action::ToggleCommandPalette),
            22 => Some(&Action::ClearAllToasts),
            23 => Some(&Action::Undo),
            24 => Some(&Action::Redo),
            _ => None,
        }
    }

    /// Looks an action up by its name in a configuration. Names are matched
    /// exactly; any other string gives `None`.
    pub fn from_name(name: &str) -> (r: Option<&'static Action>)
        ensures
            match r {
                Some(a) => Action::named(name@) == Some(*a),
                None => Action::named(name@) is None,
            },
    {
        if name.eq("quit") {
            Some(&Action::Quit)
        } else if name.eq("next_focus") {
            Some(&Action::NextFocus)
        } else if name.eq("prev_focus") {
            Some(&Action::PrvFocus)
        } else if name.eq("open_config_menu") {
            Some(&Action::OpenConfigMenu)
        } else if name.eq("up") {
            Some(&Action::Up)
        } else if name.eq("down") {
            Some(&Action::Down)
        } else if name.eq("right") {
            Some(&Action::Right)
        } else if name.eq("left") {
            Some(&Action::Left)
        } else if name.eq("take_user_input") {
            Some(&Action::TakeUserInput)
        } else if name.eq("stop_user_input") {
            Some(&Action::StopUserInput)
        } else if name.eq("hide_ui_element") {
            Some(&Action::HideUiElement)
        } else if name.eq("save_state") {
            Some(&Action::SaveState)
        } else if name.eq("new_board") {
            Some(&Action::NewBoard)
        } else if name.eq("new_card") {
            Some(&Action::NewCard)
        } else if name.eq("delete_card") {
            Some(&Action::DeleteCard)
        } else if name.eq("delete_board") {
            Some(&Action::DeleteBoard)
        } else if name.eq("change_card_status_to_completed") {
            Some(&Action::ChangeCardStatusToCompleted)
        } else if name.eq("change_card_status_to_active") {
            Some(&Action::ChangeCardStatusToActive)
        } else if name.eq("change_card_status_to_stale") {
            Some(&Action::ChangeCardStatusToStale)
        } else if name.eq("reset_ui") {
            Some(&Action::ResetUI)
        } else if name.eq("go_to_main_menu") {
            Some(&Action::GoToMainMenu)
        } else if name.eq("toggle_command_palette") {
            Some(&Action::ToggleCommandPalette)
        } else if name.eq("clear_all_toasts") {
            Some(&Action::ClearAllToasts)
        } else if name.eq("undo") {
            Some(&Action::Undo)
        } else if name.eq("redo") {
            Some(&Action::Redo)
        } else {
            None
        }
    }
}

} // verus!
