//! The screens of the application, their names and numbers, and the
//! regions that each screen lets the focus visit.

use crate::state::focus::{advance, cycle_next, cycle_prev, lemma_full_turn, retreat, Focus};
use vstd::prelude::*;

verus! {

/// A screen that the application can show.
#[derive(Debug, Clone, Copy, PartialEq, Eq, Hash, Structural)]
pub enum UiMode {
    Zen,
    TitleBody,
    BodyHelp,
    BodyLog,
    TitleBodyHelp,
    TitleBodyLog,
    TitleBodyHelpLog,
    BodyHelpLog,
    ConfigMenu,
    EditKeybindings,
    MainMenu,
    HelpMenu,
    LogsOnly,
    NewBoard,
    NewCard,
    LoadSave,
    CreateTheme,
}

impl Default for UiMode {
    fn default() -> (r: UiMode)
        ensures
            r == UiMode::Zen,
    {
        UiMode::Zen
    }
}

/// The number of screens that have a number, counted from one.
pub const NUMBERED_MODES: u8 = 9;

impl UiMode {
    /// The screen that a number out of range falls back to.
    pub open spec fn fallback() -> UiMode {
        UiMode::TitleBody
    }

    /// The display name of a screen.
    pub open spec fn name(self) -> Seq<char> {
        match self {
            UiMode::Zen => "Zen"@,
            UiMode::TitleBody => "Title and Body"@,
            UiMode::BodyHelp => "Body and Help"@,
            UiMode::BodyLog => "Body and Log"@,
            UiMode::TitleBodyHelp => "Title, Body and Help"@,
            UiMode::TitleBodyLog => "Title, Body and Log"@,
            UiMode::TitleBodyHelpLog => "Title, Body, Help and Log"@,
            UiMode::BodyHelpLog => "Body, Help and Log"@,
            UiMode::ConfigMenu => "Config"@,
            UiMode::EditKeybindings => "Edit Keybindings"@,
            UiMode::MainMenu => "Main Menu"@,
            UiMode::HelpMenu => "Help Menu"@,
            UiMode::LogsOnly => "Logs Only"@,
            UiMode::NewBoard => "New Board"@,
            UiMode::NewCard => "New Card"@,
            UiMode::LoadSave => "Load a Save"@,
            UiMode::CreateTheme => "Create Theme"@,
        }
    }

    /// The screen that a display name stands for, if it names one.
    pub open spec fn named(s: Seq<char>) -> Option<UiMode> {
        if s == "Zen"@ {
            Some(UiMode::Zen)
        } else if s == "Title and Body"@ {
            Some(UiMode::TitleBody)
        } else if s == "Body and Help"@ {
            Some(UiMode::BodyHelp)
        } else if s == "Body and Log"@ {
            Some(UiMode::BodyLog)
        } else if s == "Title, Body and Help"@ {
            Some(UiMode::TitleBodyHelp)
        } else if s == "Title, Body and Log"@ {
            Some(UiMode::TitleBodyLog)
        } else if s == "Body, Help and Log"@ {
            Some(UiMode::BodyHelpLog)
        } else if s == "Title, Body, Help and Log"@ {
            Some(UiMode::TitleBodyHelpLog)
        } else if s == "Config"@ {
            Some(UiMode::ConfigMenu)
        } else if s == "Edit Keybindings"@ {
            Some(UiMode::EditKeybindings)
        } else if s == "Main Menu"@ {
            Some(UiMode::MainMenu)
        } else if s == "Help Menu"@ {
            Some(UiMode::HelpMenu)
        } else if s == "Logs Only"@ {
            Some(UiMode::LogsOnly)
        } else if s == "New Board"@ {
            Some(UiMode::NewBoard)
        } else if s == "New Card"@ {
            Some(UiMode::NewCard)
        } else if s == "Load a Save"@ {
            Some(UiMode::LoadSave)
        } else if s == "Create Theme"@ {
            Some(UiMode::CreateTheme)
        } else {
            None
        }
    }

    /// The screen with number `n`, for the numbers from 1 to 9.
    pub open spec fn numbered(n: int) -> Option<UiMode> {
        if n == 1 {
            Some(UiMode::Zen)
        } else if n == 2 {
            Some(UiMode::TitleBody)
        } else if n == 3 {
            Some(UiMode::BodyHelp)
        } else if n == 4 {
            Some(UiMode::BodyLog)
        } else if n == 5 {
            Some(UiMode::TitleBodyHelp)
        } else if n == 6 {
            Some(UiMode::TitleBodyLog)
        } else if n == 7 {
            Some(UiMode::BodyHelpLog)
        } else if n == 8 {
            Some(UiMode::TitleBodyHelpLog)
        } else if n == 9 {
            Some(UiMode::LogsOnly)
        } else {
            None
        }
    }

    /// The screen that number `n` selects: its own where it has one, the
    /// fallback for every other number.
    pub open spec fn selected_by(n: int) -> UiMode {
        match UiMode::numbered(n) {
            Some(mode) => mode,
            None => UiMode::fallback(),
        }
    }

    /// The screens that can be chosen as the view shown at startup.
    pub open spec fn views() -> Seq<UiMode> {
        seq![
            UiMode::Zen,
            UiMode::TitleBody,
            UiMode::BodyHelp,
            UiMode::BodyLog,
            UiMode::TitleBodyHelp,
            UiMode::TitleBodyLog,
            UiMode::BodyHelpLog,
            UiMode::TitleBodyHelpLog,
        ]
    }

    /// The regions that a screen lets the focus visit, in tab order.
    pub open spec fn targets(self) -> Seq<Focus> {
        match self {
            UiMode::Zen => seq![Focus::Body],
            UiMode::TitleBody => seq![Focus::Title, Focus::Body],
            UiMode::BodyHelp => seq![Focus::Body, Focus::Help],
            UiMode::BodyLog => seq![Focus::Body, Focus::Log],
            UiMode::TitleBodyHelp => seq![Focus::Title, Focus::Body, Focus::Help],
            UiMode::TitleBodyLog => seq![Focus::Title, Focus::Body, Focus::Log],
            UiMode::TitleBodyHelpLog => seq![Focus::Title, Focus::Body, Focus::Help, Focus::Log],
            UiMode::BodyHelpLog => seq![Focus::Body, Focus::Help, Focus::Log],
            UiMode::ConfigMenu => seq![Focus::ConfigTable, Focus::SubmitButton, Focus::ExtraFocus],
            UiMode::EditKeybindings => seq![Focus::Title, Focus::EditKeybindingsTable, Focus::SubmitButton],
            UiMode::MainMenu => seq![Focus::MainMenu, Focus::MainMenuHelp, Focus::Log],
            UiMode::HelpMenu => seq![Focus::Help, Focus::Log],
            UiMode::LogsOnly => seq![Focus::Log],
            UiMode::NewBoard => seq![Focus::NewBoardName, Focus::NewBoardDescription, Focus::SubmitButton],
            UiMode::NewCard => seq![Focus::CardName, Focus::CardDescription, Focus::CardDueDate, Focus::SubmitButton],
            UiMode::LoadSave => seq![Focus::Body],
            UiMode::CreateTheme => seq![Focus::ThemeEditor, Focus::SubmitButton, Focus::ExtraFocus],
        }
    }

    /// The display name of every screen parses back to that screen.
    pub proof fn lemma_name_round_trip(mode: UiMode)
        ensures
            UiMode::named(mode.name()) == Some(mode),
    {
        reveal_strlit("Zen");
        reveal_strlit("Title and Body");
        reveal_strlit("Body and Help");
        reveal_strlit("Body and Log");
        reveal_strlit("Title, Body and Help");
        reveal_strlit("Title, Body and Log");
        reveal_strlit("Title, Body, Help and Log");
        reveal_strlit("Body, Help and Log");
        reveal_strlit("Config");
        reveal_strlit("Edit Keybindings");
        reveal_strlit("Main Menu");
        reveal_strlit("Help Menu");
        reveal_strlit("Logs Only");
        reveal_strlit("New Board");
        reveal_strlit("New Card");
        reveal_strlit("Load a Save");
        reveal_strlit("Create Theme");
        // Each name is told apart from the others by its length and a few letters.
        assert("Zen"@.len() == 3);
        assert("Title and Body"@.len() == 14);
        assert("Body and Help"@.len() == 13);
        assert("Body and Log"@.len() == 12 && "Body and Log"@[0] == 'B');
        assert("Title, Body and Help"@.len() == 20);
        assert("Title, Body and Log"@.len() == 19);
        assert("Title, Body, Help and Log"@.len() == 25);
        assert("Body, Help and Log"@.len() == 18);
        assert("Config"@.len() == 6);
        assert("Edit Keybindings"@.len() == 16);
        assert("Main Menu"@.len() == 9 && "Main Menu"@[0] == 'M');
        assert("Help Menu"@.len() == 9 && "Help Menu"@[0] == 'H');
        assert("Logs Only"@.len() == 9 && "Logs Only"@[0] == 'L');
        assert("New Board"@.len() == 9 && "New Board"@[0] == 'N');
        assert("New Card"@.len() == 8);
        assert("Load a Save"@.len() == 11);
        assert("Create Theme"@.len() == 12 && "Create Theme"@[0] == 'C');
    }

    /// Every screen offers at least one region, and none of them twice.
    pub proof fn lemma_targets_distinct(mode: UiMode)
        ensures
            mode.targets().len() > 0,
            mode.targets().no_duplicates(),
    {
    }

    /// On every screen the tab order is a cycle: from a region of the screen,
    /// as many moves forward as the screen has regions lead back to it, and
    /// so do as many moves backward.
    pub proof fn lemma_tab_order_cycles(mode: UiMode, f: Focus)
        requires
            mode.targets().contains(f),
        ensures
            advance(f, mode.targets(), mode.targets().len()) == f,
            retreat(f, mode.targets(), mode.targets().len()) == f,
    {
        UiMode::lemma_targets_distinct(mode);
        lemma_full_turn(mode.targets(), f);
    }

    /// A focus that the screen does not offer moves to the screen's first
    /// region, forward and backward alike.
    pub proof fn lemma_foreign_focus_snaps(mode: UiMode, f: Focus)
        requires
            !mode.targets().contains(f),
        ensures
            cycle_next(f, mode.targets()) == mode.targets()[0],
            cycle_prev(f, mode.targets()) == mode.targets()[0],
    {
    }

    /// The numbers from 1 to 9 select nine different screens, the first eight
    /// of them the startup views in their order; every other number selects
    /// the fallback.
    pub proof fn lemma_numbers(n: int, m: int)
        ensures
            1 <= n <= 9 <==> UiMode::numbered(n) is Some,
            1 <= n <= 8 ==> UiMode::selected_by(n) == UiMode::views()[n - 1],
            1 <= n <= 9 && 1 <= m <= 9 && n != m ==> UiMode::selected_by(n) != UiMode::selected_by(m),
            !(1 <= n <= 9) ==> UiMode::selected_by(n) == UiMode::fallback(),
            UiMode::views().len() == 8,
    {
    }

    /// The display name of this screen.
    pub fn as_str(&self) -> (r: &'static str)
        ensures
            r@ == self.name(),
    {
        match self {
            UiMode::Zen => "Zen",
            UiMode::TitleBody => "Title and Body",
            UiMode::BodyHelp => "Body and Help",
            UiMode::BodyLog => "Body and Log",
            UiMode::TitleBodyHelp => "Title, Body and Help",
            UiMode::TitleBodyLog => "Title, Body and Log",
            UiMode::TitleBodyHelpLog => "Title, Body, Help and Log",
            UiMode::BodyHelpLog => "Body, Help and Log",
            UiMode::ConfigMenu => "Config",
            UiMode::EditKeybindings => "Edit Keybindings",
            UiMode::MainMenu => "Main Menu",
            UiMode::HelpMenu => "Help Menu",
            UiMode::LogsOnly => "Logs Only",
            UiMode::NewBoard => "New Board",
            UiMode::NewCard => "New Card",
            UiMode::LoadSave => "Load a Save",
            UiMode::CreateTheme => "Create Theme",
        }
    }

    /// The display name of this screen, as an owned string.
    pub fn to_string(&self) -> (r: String)
        ensures
            r@ == self.name(),
    {
        self.as_str().to_owned()
    }

    /// Parses a display name; `None` for a string that names no screen.
    pub fn from_string(s: &str) -> (r: Option<UiMode>)
        ensures
            r == UiMode::named(s@),
    {
        if s.eq("Zen") {
            Some(UiMode::Zen)
        } else if s.eq("Title and Body") {
            Some(UiMode::TitleBody)
        } else if s.eq("Body and Help") {
            Some(UiMode::BodyHelp)
        } else if s.eq("Body and Log") {
            Some(UiMode::BodyLog)
        } else if s.eq("Title, Body and Help") {
            Some(UiMode::TitleBodyHelp)
        } else if s.eq("Title, Body and Log") {
            Some(UiMode::TitleBodyLog)
        } else if s.eq("Body, Help and Log") {
            Some(UiMode::BodyHelpLog)
        } else if s.eq("Title, Body, Help and Log") {
            Some(UiMode::TitleBodyHelpLog)
        } else if s.eq("Config") {
            Some(UiMode::ConfigMenu)
        } else if s.eq("Edit Keybindings") {
            Some(UiMode::EditKeybindings)
        } else if s.eq("Main Menu") {
            Some(UiMode::MainMenu)
        } else if s.eq("Help Menu") {
            Some(UiMode::HelpMenu)
        } else if s.eq("Logs Only") {
            Some(UiMode::LogsOnly)
        } else if s.eq("New Board") {
            Some(UiMode::NewBoard)
        } else if s.eq("New Card") {
            Some(UiMode::NewCard)
        } else if s.eq("Load a Save") {
            Some(UiMode::LoadSave)
        } else if s.eq("Create Theme") {
            Some(UiMode::CreateTheme)
        } else {
            None
        }
    }

    /// The screen with number `n`, or `None` where `n` is not from 1 to 9.
    pub fn try_from_number(n: u8) -> (r: Option<UiMode>)
        ensures
            r == UiMode::numbered(n as int),
            r is Some <==> 1 <= n <= NUMBERED_MODES,
    {
        match n {
            1 => Some(UiMode::Zen),
            2 => Some(UiMode::TitleBody),
            3 => Some(UiMode::BodyHelp),
            4 => Some(UiMode::BodyLog),
            5 => Some(UiMode::TitleBodyHelp),
            6 => Some(UiMode::TitleBodyLog),
            7 => Some(UiMode::BodyHelpLog),
            8 => Some(UiMode::TitleBodyHelpLog),
            9 => Some(UiMode::LogsOnly),
            _ => None,
        }
    }

    /// The screen that number `n` selects. A number that is not from 1 to 9
    /// selects the fallback screen, "Title and Body".
    pub fn from_number(n: u8) -> (r: UiMode)
        ensures
            r == UiMode::selected_by(n as int),
            !(1 <= n <= NUMBERED_MODES) ==> r == UiMode::TitleBody,
    {
        match UiMode::try_from_number(n) {
            Some(mode) => mode,
            None => UiMode::TitleBody,
        }
    }

    /// The regions that this screen lets the focus visit, in tab order.
    pub fn get_available_targets(&self) -> (r: Vec<Focus>)
        ensures
            r@ == self.targets(),
            r.len() > 0,
    {
        match self {
            UiMode::Zen => vec![Focus::Body],
            UiMode::TitleBody => vec![Focus::Title, Focus::Body],
            UiMode::BodyHelp => vec![Focus::Body, Focus::Help],
            UiMode::BodyLog => vec![Focus::Body, Focus::Log],
            UiMode::TitleBodyHelp => vec![Focus::Title, Focus::Body, Focus::Help],
            UiMode::TitleBodyLog => vec![Focus::Title, Focus::Body, Focus::Log],
            UiMode::TitleBodyHelpLog => vec![Focus::Title, Focus::Body, Focus::Help, Focus::Log],
            UiMode::BodyHelpLog => vec![Focus::Body, Focus::Help, Focus::Log],
            UiMode::ConfigMenu => vec![Focus::ConfigTable, Focus::SubmitButton, Focus::ExtraFocus],
            UiMode::EditKeybindings => vec![Focus::Title, Focus::EditKeybindingsTable, Focus::SubmitButton],
            UiMode::MainMenu => vec![Focus::MainMenu, Focus::MainMenuHelp, Focus::Log],
            UiMode::HelpMenu => vec![Focus::Help, Focus::Log],
            UiMode::LogsOnly => vec![Focus::Log],
            UiMode::NewBoard => vec![Focus::NewBoardName, Focus::NewBoardDescription, Focus::SubmitButton],
            UiMode::NewCard => vec![Focus::CardName, Focus::CardDescription, Focus::CardDueDate, Focus::SubmitButton],
            UiMode::LoadSave => vec![Focus::Body],
            UiMode::CreateTheme => vec![Focus::ThemeEditor, Focus::SubmitButton, Focus::ExtraFocus],
        }
    }

    /// The display names of the numbered screens, in the order of their
    /// numbers.
    pub fn all() -> (r: Vec<String>)
        ensures
            r.len() == NUMBERED_MODES,
            forall|i: int| 0 <= i < r.len() ==> (#[trigger] r[i])@ == UiMode::selected_by(i + 1).name(),
    {
        let mut names: Vec<String> = Vec::new();
        let mut n: u8 = 1;
        while n <= NUMBERED_MODES
            invariant
                1 <= n <= NUMBERED_MODES + 1,
                names.len() == n - 1,
                forall|i: int| 0 <= i < names.len() ==> (#[trigger] names[i])@ == UiMode::selected_by(i + 1).name(),
            decreases NUMBERED_MODES + 1 - n,
        {
            names.push(UiMode::from_number(n).to_string());
            n += 1;
        }
        names
    }

    /// The screens that can be chosen as the view shown at startup.
    pub fn view_modes() -> (r: Vec<UiMode>)
        ensures
            r@ == UiMode::views(),
    {
        vec![
            UiMode::Zen,
            UiMode::TitleBody,
            UiMode::BodyHelp,
            UiMode::BodyLog,
            UiMode::TitleBodyHelp,
            UiMode::TitleBodyLog,
            UiMode::BodyHelpLog,
            UiMode::TitleBodyHelpLog,
        ]
    }
}

} // verus!
