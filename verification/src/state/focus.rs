//! The focusable regions of the screen, their names, and the tab order
//! through the regions that a screen offers.

use crate::seqs::{first_place, is_first_at, lemma_first_place, lemma_first_place_distinct};
use vstd::prelude::*;

verus! {

/// A region of the screen that can hold the keyboard focus.
#[derive(Debug, Clone, Copy, PartialEq, Eq, Hash, Structural)]
pub enum Focus {
    Title,
    Body,
    Help,
    Log,
    ConfigTable,
    ConfigHelp,
    MainMenu,
    MainMenuHelp,
    NewBoardName,
    NewBoardDescription,
    CardName,
    CardDescription,
    CardDueDate,
    SubmitButton,
    EditKeybindingsTable,
    CloseButton,
    CommandPaletteCommand,
    CommandPaletteCard,
    CommandPaletteBoard,
    LoadSave,
    SelectDefaultView,
    ChangeUiModePopup,
    ChangeCardStatusPopup,
    EditGeneralConfigPopup,
    EditSpecificKeyBindingPopup,
    ThemeSelector,
    ThemeEditor,
    StyleEditorFG,
    StyleEditorBG,
    StyleEditorModifier,
    TextInput,
    CardPriority,
    CardStatus,
    CardTags,
    CardComments,
    ChangeCardPriorityPopup,
    ChangeDateFormatPopup,
    FilterByTagPopup,
    /// Nothing is focused; also what an unknown name stands for.
    NoFocus,
    /// A spare target for modes that need one more region without a name of its own.
    ExtraFocus,
}

impl Default for Focus {
    fn default() -> (r: Focus)
        ensures
            r == Focus::NoFocus,
    {
        Focus::NoFocus
    }
}

/// The target after `f` in tab order. From the last target the order wraps
/// to the first; a focus that is not among the targets snaps to the first.
pub open spec fn cycle_next(f: Focus, targets: Seq<Focus>) -> Focus {
    if targets.contains(f) {
        let i = first_place(targets, f);
        if i == targets.len() - 1 {
            targets[0]
        } else {
            targets[i + 1]
        }
    } else {
        targets[0]
    }
}

/// The target before `f` in tab order. From the first target the order wraps
/// to the last; a focus that is not among the targets snaps to the first.
pub open spec fn cycle_prev(f: Focus, targets: Seq<Focus>) -> Focus {
    if targets.contains(f) {
        let i = first_place(targets, f);
        if i == 0 {
            targets[targets.len() - 1]
        } else {
            targets[i - 1]
        }
    } else {
        targets[0]
    }
}

/// `f` after `steps` moves forward in tab order.
pub open spec fn advance(f: Focus, targets: Seq<Focus>, steps: nat) -> Focus
    decreases steps,
{
    if steps == 0 {
        f
    } else {
        cycle_next(advance(f, targets, (steps - 1) as nat), targets)
    }
}

/// `f` after `steps` moves backward in tab order.
pub open spec fn retreat(f: Focus, targets: Seq<Focus>, steps: nat) -> Focus
    decreases steps,
{
    if steps == 0 {
        f
    } else {
        cycle_prev(retreat(f, targets, (steps - 1) as nat), targets)
    }
}

proof fn lemma_advance_place(targets: Seq<Focus>, i: int, steps: nat)
    requires
        targets.no_duplicates(),
        0 <= i < targets.len(),
        steps <= targets.len(),
    ensures
        advance(targets[i], targets, steps) == if i + steps < targets.len() {
            targets[i + steps]
        } else {
            targets[i + steps - targets.len()]
        },
    decreases steps,
{
    if steps > 0 {
        let before = (steps - 1) as nat;
        lemma_advance_place(targets, i, before);
        let j = if i + before < targets.len() {
            i + before
        } else {
            i + before - targets.len()
        };
        lemma_first_place_distinct(targets, j);
    }
}

proof fn lemma_retreat_place(targets: Seq<Focus>, i: int, steps: nat)
    requires
        targets.no_duplicates(),
        0 <= i < targets.len(),
        steps <= targets.len(),
    ensures
        retreat(targets[i], targets, steps) == if steps <= i {
            targets[i - steps]
        } else {
            targets[i - steps + targets.len()]
        },
    decreases steps,
{
    if steps > 0 {
        let before = (steps - 1) as nat;
        lemma_retreat_place(targets, i, before);
        let j = if before <= i {
            i - before
        } else {
            i - before + targets.len()
        };
        lemma_first_place_distinct(targets, j);
    }
}

/// Tab order is a cycle: in a list without repetitions, as many moves
/// forward as there are targets lead from any target back to itself, and so
/// do as many moves backward.
pub proof fn lemma_full_turn(targets: Seq<Focus>, f: Focus)
    requires
        targets.no_duplicates(),
        targets.contains(f),
    ensures
        advance(f, targets, targets.len()) == f,
        retreat(f, targets, targets.len()) == f,
{
    let i = choose|i: int| 0 <= i < targets.len() && targets[i] == f;
    lemma_advance_place(targets, i, targets.len());
    lemma_retreat_place(targets, i, targets.len());
}

/// One move forward and one move backward cancel, in either order, for a
/// target of a list without repetitions.
pub proof fn lemma_next_prev_cancel(targets: Seq<Focus>, f: Focus)
    requires
        targets.no_duplicates(),
        targets.contains(f),
    ensures
        cycle_prev(cycle_next(f, targets), targets) == f,
        cycle_next(cycle_prev(f, targets), targets) == f,
{
    let i = choose|i: int| 0 <= i < targets.len() && targets[i] == f;
    lemma_first_place_distinct(targets, i);
    let up = if i == targets.len() - 1 { 0 } else { i + 1 };
    let down = if i == 0 { targets.len() - 1 } else { i - 1 };
    lemma_first_place_distinct(targets, up);
    lemma_first_place_distinct(targets, down);
}

/// A focus that is not among the targets snaps to the first target, whichever
/// way it is moved.
pub proof fn lemma_snap_to_first(targets: Seq<Focus>, f: Focus)
    requires
        !targets.contains(f),
    ensures
        cycle_next(f, targets) == targets[0],
        cycle_prev(f, targets) == targets[0],
{
}

/// Where `f` first stands in `targets`, if it does.
fn position(targets: &Vec<Focus>, f: Focus) -> (r: Option<usize>)
    ensures
        match r {
            Some(i) => is_first_at(targets@, f, i as int),
            None => !targets@.contains(f),
        },
{
    let mut i: usize = 0;
    while i < targets.len()
        invariant
            i <= targets.len(),
            forall|j: int| 0 <= j < i ==> targets@[j] != f,
        decreases targets.len() - i,
    {
        if targets[i] == f {
            return Some(i);
        }
        i += 1;
    }
    None
}

impl std::str::FromStr for Focus {
    type Err = String;

    /// Parses a display name. This never fails: a string that names no focus
    /// gives `NoFocus`.
    fn from_str(s: &str) -> (r: Result<Focus, String>)
        ensures
            r == Ok::<Focus, String>(Focus::named(s@)),
    {
        Ok(Focus::parse(s))
    }
}

impl Focus {
    /// The display name of a focus.
    pub open spec fn name(self) -> Seq<char> {
        match self {
            Focus::Title => "Title"@,
            Focus::Body => "Body"@,
            Focus::Help => "Help"@,
            Focus::Log => "Log"@,
            Focus::ConfigTable => "Config"@,
            Focus::ConfigHelp => "Config Help"@,
            Focus::MainMenu => "Main Menu"@,
            Focus::MainMenuHelp => "Main Menu Help"@,
            Focus::NewBoardName => "New Board Name"@,
            Focus::NewBoardDescription => "New Board Description"@,
            Focus::CardName => "New Card Name"@,
            Focus::CardDescription => "Card Description"@,
            Focus::CardDueDate => "Card Due Date"@,
            Focus::SubmitButton => "Submit Button"@,
            Focus::EditKeybindingsTable => "Edit Keybindings Table"@,
            Focus::CloseButton => "Close Button"@,
            Focus::CommandPaletteCommand => "Command Palette Command"@,
            Focus::CommandPaletteCard => "Command Palette Card"@,
            Focus::CommandPaletteBoard => "Command Palette Board"@,
            Focus::LoadSave => "Load Save"@,
            Focus::SelectDefaultView => "Select Default View"@,
            Focus::ChangeUiModePopup => "Change Ui Mode Popup"@,
            Focus::ChangeCardStatusPopup => "Change Card Status Popup"@,
            Focus::EditGeneralConfigPopup => "Edit General Config Popup"@,
            Focus::EditSpecificKeyBindingPopup => "Edit Specific Key Binding Popup"@,
            Focus::ThemeSelector => "Theme Selector"@,
            Focus::ThemeEditor => "Theme Editor"@,
            Focus::StyleEditorFG => "Theme Editor FG"@,
            Focus::StyleEditorBG => "Theme Editor BG"@,
            Focus::StyleEditorModifier => "Theme Editor Modifier"@,
            Focus::TextInput => "Text Input"@,
            Focus::CardPriority => "Card Priority"@,
            Focus::CardStatus => "Card Status"@,
            Focus::CardTags => "Card Tags"@,
            Focus::CardComments => "Card Comments"@,
            Focus::ChangeCardPriorityPopup => "Change Card Priority Popup"@,
            Focus::ChangeDateFormatPopup => "Change Date Format Popup"@,
            Focus::FilterByTagPopup => "Filter By Tag Popup"@,
            Focus::NoFocus => "No Focus"@,
            Focus::ExtraFocus => "Extra Focus"@,
        }
    }

    /// The focus that a display name stands for. Any string that is not the
    /// display name of a focus stands for [`Focus::NoFocus`].
    pub open spec fn named(s: Seq<char>) -> Focus {
        if s == "Title"@ {
            Focus::Title
        } else if s == "Body"@ {
            Focus::Body
        } else if s == "Help"@ {
            Focus::Help
        } else if s == "Log"@ {
            Focus::Log
        } else if s == "Config"@ {
            Focus::ConfigTable
        } else if s == "Config Help"@ {
            Focus::ConfigHelp
        } else if s == "Main Menu"@ {
            Focus::MainMenu
        } else if s == "Main Menu Help"@ {
            Focus::MainMenuHelp
        } else if s == "New Board Name"@ {
            Focus::NewBoardName
        } else if s == "New Board Description"@ {
            Focus::NewBoardDescription
        } else if s == "New Card Name"@ {
            Focus::CardName
        } else if s == "Card Description"@ {
            Focus::CardDescription
        } else if s == "Card Due Date"@ {
            Focus::CardDueDate
        } else if s == "Submit Button"@ {
            Focus::SubmitButton
        } else if s == "Edit Keybindings Table"@ {
            Focus::EditKeybindingsTable
        } else if s == "Close Button"@ {
            Focus::CloseButton
        } else if s == "Command Palette Command"@ {
            Focus::CommandPaletteCommand
        } else if s == "Command Palette Card"@ {
            Focus::CommandPaletteCard
        } else if s == "Command Palette Board"@ {
            Focus::CommandPaletteBoard
        } else if s == "Load Save"@ {
            Focus::LoadSave
        } else if s == "Select Default View"@ {
            Focus::SelectDefaultView
        } else if s == "Change Ui Mode Popup"@ {
            Focus::ChangeUiModePopup
        } else if s == "Change Card Status Popup"@ {
            Focus::ChangeCardStatusPopup
        } else if s == "Edit General Config Popup"@ {
            Focus::EditGeneralConfigPopup
        } else if s == "Edit Specific Key Binding Popup"@ {
            Focus::EditSpecificKeyBindingPopup
        } else if s == "Theme Selector"@ {
            Focus::ThemeSelector
        } else if s == "Theme Editor"@ {
            Focus::ThemeEditor
        } else if s == "Theme Editor FG"@ {
            Focus::StyleEditorFG
        } else if s == "Theme Editor BG"@ {
            Focus::StyleEditorBG
        } else if s == "Theme Editor Modifier"@ {
            Focus::StyleEditorModifier
        } else if s == "Text Input"@ {
            Focus::TextInput
        } else if s == "Card Priority"@ {
            Focus::CardPriority
        } else if s == "Card Status"@ {
            Focus::CardStatus
        } else if s == "Card Tags"@ {
            Focus::CardTags
        } else if s == "Card Comments"@ {
            Focus::CardComments
        } else if s == "Change Card Priority Popup"@ {
            Focus::ChangeCardPriorityPopup
        } else if s == "Change Date Format Popup"@ {
            Focus::ChangeDateFormatPopup
        } else if s == "Filter By Tag Popup"@ {
            Focus::FilterByTagPopup
        } else if s == "Extra Focus"@ {
            Focus::ExtraFocus
        } else {
            Focus::NoFocus
        }
    }

    /// The display name of every focus parses back to that focus.
    pub proof fn lemma_name_round_trip(f: Focus)
        ensures
            Focus::named(f.name()) == f,
    {
        reveal_strlit("Title");
        reveal_strlit("Body");
        reveal_strlit("Help");
        reveal_strlit("Log");
        reveal_strlit("Config");
        reveal_strlit("Config Help");
        reveal_strlit("Main Menu");
        reveal_strlit("Main Menu Help");
        reveal_strlit("New Board Name");
        reveal_strlit("New Board Description");
        reveal_strlit("New Card Name");
        reveal_strlit("Card Description");
        reveal_strlit("Card Due Date");
        reveal_strlit("Submit Button");
        reveal_strlit("Edit Keybindings Table");
        reveal_strlit("Close Button");
        reveal_strlit("Command Palette Command");
        reveal_strlit("Command Palette Card");
        reveal_strlit("Command Palette Board");
        reveal_strlit("Load Save");
        reveal_strlit("Select Default View");
        reveal_strlit("Change Ui Mode Popup");
        reveal_strlit("Change Card Status Popup");
        reveal_strlit("Edit General Config Popup");
        reveal_strlit("Edit Specific Key Binding Popup");
        reveal_strlit("Theme Selector");
        reveal_strlit("Theme Editor");
        reveal_strlit("Theme Editor FG");
        reveal_strlit("Theme Editor BG");
        reveal_strlit("Theme Editor Modifier");
        reveal_strlit("Text Input");
        reveal_strlit("Card Priority");
        reveal_strlit("Card Status");
        reveal_strlit("Card Tags");
        reveal_strlit("Card Comments");
        reveal_strlit("Change Card Priority Popup");
        reveal_strlit("Change Date Format Popup");
        reveal_strlit("Filter By Tag Popup");
        reveal_strlit("No Focus");
        reveal_strlit("Extra Focus");
        // Each name is told apart from the others by its length and a few letters.
        assert("Title"@.len() == 5);
        assert("Body"@.len() == 4 && "Body"@[0] == 'B');
        assert("Help"@.len() == 4 && "Help"@[0] == 'H');
        assert("Log"@.len() == 3);
        assert("Config"@.len() == 6);
        assert("Config Help"@.len() == 11 && "Config Help"@[0] == 'C' && "Config Help"@[1] == 'o');
        assert("Main Menu"@.len() == 9 && "Main Menu"@[0] == 'M');
        assert("Main Menu Help"@.len() == 14 && "Main Menu Help"@[0] == 'M');
        assert("New Board Name"@.len() == 14 && "New Board Name"@[0] == 'N');
        assert("New Board Description"@.len() == 21 && "New Board Description"@[0] == 'N');
        assert("New Card Name"@.len() == 13 && "New Card Name"@[0] == 'N');
        assert("Card Description"@.len() == 16);
        assert("Card Due Date"@.len() == 13 && "Card Due Date"@[0] == 'C' && "Card Due Date"@[5] == 'D');
        assert("Submit Button"@.len() == 13 && "Submit Button"@[0] == 'S');
        assert("Edit Keybindings Table"@.len() == 22);
        assert("Close Button"@.len() == 12 && "Close Button"@[0] == 'C');
        assert("Command Palette Command"@.len() == 23);
        assert("Command Palette Card"@.len() == 20 && "Command Palette Card"@[1] == 'o');
        assert("Command Palette Board"@.len() == 21 && "Command Palette Board"@[0] == 'C');
        assert("Load Save"@.len() == 9 && "Load Save"@[0] == 'L');
        assert("Select Default View"@.len() == 19 && "Select Default View"@[0] == 'S');
        assert("Change Ui Mode Popup"@.len() == 20 && "Change Ui Mode Popup"@[1] == 'h');
        assert("Change Card Status Popup"@.len() == 24 && "Change Card Status Popup"@[7] == 'C');
        assert("Edit General Config Popup"@.len() == 25);
        assert("Edit Specific Key Binding Popup"@.len() == 31);
        assert("Theme Selector"@.len() == 14 && "Theme Selector"@[0] == 'T');
        assert("Theme Editor"@.len() == 12 && "Theme Editor"@[0] == 'T');
        assert("Theme Editor FG"@.len() == 15 && "Theme Editor FG"@[13] == 'F');
        assert("Theme Editor BG"@.len() == 15 && "Theme Editor BG"@[13] == 'B');
        assert("Theme Editor Modifier"@.len() == 21 && "Theme Editor Modifier"@[0] == 'T');
        assert("Text Input"@.len() == 10);
        assert("Card Priority"@.len() == 13 && "Card Priority"@[0] == 'C' && "Card Priority"@[5] == 'P');
        assert("Card Status"@.len() == 11 && "Card Status"@[0] == 'C' && "Card Status"@[1] == 'a');
        assert("Card Tags"@.len() == 9 && "Card Tags"@[0] == 'C');
        assert("Card Comments"@.len() == 13 && "Card Comments"@[0] == 'C' && "Card Comments"@[5] == 'C');
        assert("Change Card Priority Popup"@.len() == 26);
        assert("Change Date Format Popup"@.len() == 24 && "Change Date Format Popup"@[7] == 'D');
        assert("Filter By Tag Popup"@.len() == 19 && "Filter By Tag Popup"@[0] == 'F');
        assert("No Focus"@.len() == 8);
        assert("Extra Focus"@.len() == 11 && "Extra Focus"@[0] == 'E');
    }

    /// A string that is the display name of no focus parses to `NoFocus`.
    pub proof fn lemma_unknown_name(s: Seq<char>)
        requires
            forall|f: Focus| f.name() != s,
        ensures
            Focus::named(s) == Focus::NoFocus,
    {
        assert(Focus::Title.name() != s);
        assert(Focus::Body.name() != s);
        assert(Focus::Help.name() != s);
        assert(Focus::Log.name() != s);
        assert(Focus::ConfigTable.name() != s);
        assert(Focus::ConfigHelp.name() != s);
        assert(Focus::MainMenu.name() != s);
        assert(Focus::MainMenuHelp.name() != s);
        assert(Focus::NewBoardName.name() != s);
        assert(Focus::NewBoardDescription.name() != s);
        assert(Focus::CardName.name() != s);
        assert(Focus::CardDescription.name() != s);
        assert(Focus::CardDueDate.name() != s);
        assert(Focus::SubmitButton.name() != s);
        assert(Focus::EditKeybindingsTable.name() != s);
        assert(Focus::CloseButton.name() != s);
        assert(Focus::CommandPaletteCommand.name() != s);
        assert(Focus::CommandPaletteCard.name() != s);
        assert(Focus::CommandPaletteBoard.name() != s);
        assert(Focus::LoadSave.name() != s);
        assert(Focus::SelectDefaultView.name() != s);
        assert(Focus::ChangeUiModePopup.name() != s);
        assert(Focus::ChangeCardStatusPopup.name() != s);
        assert(Focus::EditGeneralConfigPopup.name() != s);
        assert(Focus::EditSpecificKeyBindingPopup.name() != s);
        assert(Focus::ThemeSelector.name() != s);
        assert(Focus::ThemeEditor.name() != s);
        assert(Focus::StyleEditorFG.name() != s);
        assert(Focus::StyleEditorBG.name() != s);
        assert(Focus::StyleEditorModifier.name() != s);
        assert(Focus::TextInput.name() != s);
        assert(Focus::CardPriority.name() != s);
        assert(Focus::CardStatus.name() != s);
        assert(Focus::CardTags.name() != s);
        assert(Focus::CardComments.name() != s);
        assert(Focus::ChangeCardPriorityPopup.name() != s);
        assert(Focus::ChangeDateFormatPopup.name() != s);
        assert(Focus::FilterByTagPopup.name() != s);
        assert(Focus::NoFocus.name() != s);
        assert(Focus::ExtraFocus.name() != s);
    }

    /// The display name of this focus.
    pub fn to_str(&self) -> (r: &'static str)
        ensures
            r@ == self.name(),
    {
        match self {
            Focus::Title => "Title",
            Focus::Body => "Body",
            Focus::Help => "Help",
            Focus::Log => "Log",
            Focus::ConfigTable => "Config",
            Focus::ConfigHelp => "Config Help",
            Focus::MainMenu => "Main Menu",
            Focus::MainMenuHelp => "Main Menu Help",
            Focus::NewBoardName => "New Board Name",
            Focus::NewBoardDescription => "New Board Description",
            Focus::CardName => "New Card Name",
            Focus::CardDescription => "Card Description",
            Focus::CardDueDate => "Card Due Date",
            Focus::SubmitButton => "Submit Button",
            Focus::EditKeybindingsTable => "Edit Keybindings Table",
            Focus::CloseButton => "Close Button",
            Focus::CommandPaletteCommand => "Command Palette Command",
            Focus::CommandPaletteCard => "Command Palette Card",
            Focus::CommandPaletteBoard => "Command Palette Board",
            Focus::LoadSave => "Load Save",
            Focus::SelectDefaultView => "Select Default View",
            Focus::ChangeUiModePopup => "Change Ui Mode Popup",
            Focus::ChangeCardStatusPopup => "Change Card Status Popup",
            Focus::EditGeneralConfigPopup => "Edit General Config Popup",
            Focus::EditSpecificKeyBindingPopup => "Edit Specific Key Binding Popup",
            Focus::ThemeSelector => "Theme Selector",
            Focus::ThemeEditor => "Theme Editor",
            Focus::StyleEditorFG => "Theme Editor FG",
            Focus::StyleEditorBG => "Theme Editor BG",
            Focus::StyleEditorModifier => "Theme Editor Modifier",
            Focus::TextInput => "Text Input",
            Focus::CardPriority => "Card Priority",
            Focus::CardStatus => "Card Status",
            Focus::CardTags => "Card Tags",
            Focus::CardComments => "Card Comments",
            Focus::ChangeCardPriorityPopup => "Change Card Priority Popup",
            Focus::ChangeDateFormatPopup => "Change Date Format Popup",
            Focus::FilterByTagPopup => "Filter By Tag Popup",
            Focus::NoFocus => "No Focus",
            Focus::ExtraFocus => "Extra Focus",
        }
    }

    /// Parses a display name. This never fails: a string that names no focus
    /// gives `NoFocus`.
    pub fn from_str(s: &str) -> (r: Result<Focus, String>)
        ensures
            r == Ok::<Focus, String>(Focus::named(s@)),
    {
        Ok(Focus::parse(s))
    }

    /// Parses a display name; a string that names no focus gives `NoFocus`.
    pub fn parse(s: &str) -> (r: Focus)
        ensures
            r == Focus::named(s@),
    {
        if s.eq("Title") {
            Focus::Title
        } else if s.eq("Body") {
            Focus::Body
        } else if s.eq("Help") {
            Focus::Help
        } else if s.eq("Log") {
            Focus::Log
        } else if s.eq("Config") {
            Focus::ConfigTable
        } else if s.eq("Config Help") {
            Focus::ConfigHelp
        } else if s.eq("Main Menu") {
            Focus::MainMenu
        } else if s.eq("Main Menu Help") {
            Focus::MainMenuHelp
        } else if s.eq("New Board Name") {
            Focus::NewBoardName
        } else if s.eq("New Board Description") {
            Focus::NewBoardDescription
        } else if s.eq("New Card Name") {
            Focus::CardName
        } else if s.eq("Card Description") {
            Focus::CardDescription
        } else if s.eq("Card Due Date") {
            Focus::CardDueDate
        } else if s.eq("Submit Button") {
            Focus::SubmitButton
        } else if s.eq("Edit Keybindings Table") {
            Focus::EditKeybindingsTable
        } else if s.eq("Close Button") {
            Focus::CloseButton
        } else if s.eq("Command Palette Command") {
            Focus::CommandPaletteCommand
        } else if s.eq("Command Palette Card") {
            Focus::CommandPaletteCard
        } else if s.eq("Command Palette Board") {
            Focus::CommandPaletteBoard
        } else if s.eq("Load Save") {
            Focus::LoadSave
        } else if s.eq("Select Default View") {
            Focus::SelectDefaultView
        } else if s.eq("Change Ui Mode Popup") {
            Focus::ChangeUiModePopup
        } else if s.eq("Change Card Status Popup") {
            Focus::ChangeCardStatusPopup
        } else if s.eq("Edit General Config Popup") {
            Focus::EditGeneralConfigPopup
        } else if s.eq("Edit Specific Key Binding Popup") {
            Focus::EditSpecificKeyBindingPopup
        } else if s.eq("Theme Selector") {
            Focus::ThemeSelector
        } else if s.eq("Theme Editor") {
            Focus::ThemeEditor
        } else if s.eq("Theme Editor FG") {
            Focus::StyleEditorFG
        } else if s.eq("Theme Editor BG") {
            Focus::StyleEditorBG
        } else if s.eq("Theme Editor Modifier") {
            Focus::StyleEditorModifier
        } else if s.eq("Text Input") {
            Focus::TextInput
        } else if s.eq("Card Priority") {
            Focus::CardPriority
        } else if s.eq("Card Status") {
            Focus::CardStatus
        } else if s.eq("Card Tags") {
            Focus::CardTags
        } else if s.eq("Card Comments") {
            Focus::CardComments
        } else if s.eq("Change Card Priority Popup") {
            Focus::ChangeCardPriorityPopup
        } else if s.eq("Change Date Format Popup") {
            Focus::ChangeDateFormatPopup
        } else if s.eq("Filter By Tag Popup") {
            Focus::FilterByTagPopup
        } else if s.eq("Extra Focus") {
            Focus::ExtraFocus
        } else {
            Focus::NoFocus
        }
    }

    /// The target that follows this focus in `available_tabs`, wrapping from
    /// the last to the first. A focus that is not in `available_tabs` moves to
    /// the first target.
    pub fn next(&self, available_tabs: &Vec<Focus>) -> (r: Focus)
        requires
            available_tabs.len() > 0,
        ensures
            r == cycle_next(*self, available_tabs@),
            !available_tabs@.contains(*self) ==> r == available_tabs@[0],
    {
        match position(available_tabs, *self) {
            Some(index) => {
                proof {
                    lemma_first_place(available_tabs@, *self);
                }
                if index == available_tabs.len() - 1 {
                    available_tabs[0]
                } else {
                    available_tabs[index + 1]
                }
            },
            None => available_tabs[0],
        }
    }

    /// The target that precedes this focus in `available_tabs`, wrapping from
    /// the first to the last. A focus that is not in `available_tabs` moves to
    /// the first target.
    pub fn prev(&self, available_tabs: &Vec<Focus>) -> (r: Focus)
        requires
            available_tabs.len() > 0,
        ensures
            r == cycle_prev(*self, available_tabs@),
            !available_tabs@.contains(*self) ==> r == available_tabs@[0],
    {
        match position(available_tabs, *self) {
            Some(index) => {
                proof {
                    lemma_first_place(available_tabs@, *self);
                }
                if index == 0 {
                    available_tabs[available_tabs.len() - 1]
                } else {
                    available_tabs[index - 1]
                }
            },
            None => available_tabs[0],
        }
    }
}

} // verus!
