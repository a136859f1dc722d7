use rust_kanban::state::{Focus, UiMode};

fn every_mode() -> Vec<UiMode> {
    vec![
        UiMode::Zen,
        UiMode::TitleBody,
        UiMode::BodyHelp,
        UiMode::BodyLog,
        UiMode::TitleBodyHelp,
        UiMode::TitleBodyLog,
        UiMode::TitleBodyHelpLog,
        UiMode::BodyHelpLog,
        UiMode::ConfigMenu,
        UiMode::EditKeybindings,
        UiMode::MainMenu,
        UiMode::HelpMenu,
        UiMode::LogsOnly,
        UiMode::NewBoard,
        UiMode::NewCard,
        UiMode::LoadSave,
        UiMode::CreateTheme,
    ]
}

fn every_focus() -> Vec<Focus> {
    vec![
        Focus::Title,
        Focus::Body,
        Focus::Help,
        Focus::Log,
        Focus::ConfigTable,
        Focus::ConfigHelp,
        Focus::MainMenu,
        Focus::MainMenuHelp,
        Focus::NewBoardName,
        Focus::NewBoardDescription,
        Focus::CardName,
        Focus::CardDescription,
        Focus::CardDueDate,
        Focus::SubmitButton,
        Focus::EditKeybindingsTable,
        Focus::CloseButton,
        Focus::CommandPaletteCommand,
        Focus::CommandPaletteCard,
        Focus::CommandPaletteBoard,
        Focus::LoadSave,
        Focus::SelectDefaultView,
        Focus::ChangeUiModePopup,
        Focus::ChangeCardStatusPopup,
        Focus::EditGeneralConfigPopup,
        Focus::EditSpecificKeyBindingPopup,
        Focus::ThemeSelector,
        Focus::ThemeEditor,
        Focus::StyleEditorFG,
        Focus::StyleEditorBG,
        Focus::StyleEditorModifier,
        Focus::TextInput,
        Focus::CardPriority,
        Focus::CardStatus,
        Focus::CardTags,
        Focus::CardComments,
        Focus::ChangeCardPriorityPopup,
        Focus::ChangeDateFormatPopup,
        Focus::FilterByTagPopup,
        Focus::NoFocus,
        Focus::ExtraFocus,
    ]
}

#[test]
fn next_walks_the_targets_in_order() {
    let targets = UiMode::NewCard.get_available_targets();
    assert_eq!(
        targets,
        vec![Focus::CardName, Focus::CardDescription, Focus::CardDueDate, Focus::SubmitButton]
    );
    assert_eq!(Focus::CardName.next(&targets), Focus::CardDescription);
    assert_eq!(Focus::CardDescription.next(&targets), Focus::CardDueDate);
    assert_eq!(Focus::CardDueDate.next(&targets), Focus::SubmitButton);
}

#[test]
fn next_wraps_from_last_to_first() {
    let targets = UiMode::NewCard.get_available_targets();
    assert_eq!(Focus::SubmitButton.next(&targets), Focus::CardName);
}

#[test]
fn prev_walks_the_targets_backwards() {
    let targets = UiMode::TitleBodyHelpLog.get_available_targets();
    assert_eq!(Focus::Log.prev(&targets), Focus::Help);
    assert_eq!(Focus::Help.prev(&targets), Focus::Body);
    assert_eq!(Focus::Body.prev(&targets), Focus::Title);
}

#[test]
fn prev_wraps_from_first_to_last() {
    let targets = UiMode::TitleBodyHelpLog.get_available_targets();
    assert_eq!(Focus::Title.prev(&targets), Focus::Log);
}

#[test]
fn a_single_target_follows_itself() {
    let targets = UiMode::Zen.get_available_targets();
    assert_eq!(targets, vec![Focus::Body]);
    assert_eq!(Focus::Body.next(&targets), Focus::Body);
    assert_eq!(Focus::Body.prev(&targets), Focus::Body);
}

#[test]
fn as_many_moves_as_targets_lead_back_on_every_screen() {
    for mode in every_mode() {
        let targets = mode.get_available_targets();
        assert!(!targets.is_empty());
        for start in targets.iter() {
            let mut forward = *start;
            let mut backward = *start;
            for _ in 0..targets.len() {
                forward = forward.next(&targets);
                backward = backward.prev(&targets);
            }
            assert_eq!(forward, *start);
            assert_eq!(backward, *start);
        }
    }
}

#[test]
fn a_focus_from_another_screen_snaps_to_the_first_target() {
    for mode in every_mode() {
        let targets = mode.get_available_targets();
        for focus in every_focus() {
            if !targets.contains(&focus) {
                assert_eq!(focus.next(&targets), targets[0]);
                assert_eq!(focus.prev(&targets), targets[0]);
            }
        }
    }
}

#[test]
fn no_focus_snaps_to_the_first_target() {
    let targets = UiMode::MainMenu.get_available_targets();
    assert_eq!(Focus::NoFocus.next(&targets), Focus::MainMenu);
    assert_eq!(Focus::NoFocus.prev(&targets), Focus::MainMenu);
}

#[test]
fn next_goes_by_the_first_place_of_a_repeated_target() {
    let targets = vec![Focus::Body, Focus::Help, Focus::Body, Focus::Log];
    assert_eq!(Focus::Body.next(&targets), Focus::Help);
    assert_eq!(Focus::Body.prev(&targets), Focus::Log);
}

#[test]
fn next_and_prev_cancel() {
    let targets = UiMode::ConfigMenu.get_available_targets();
    for focus in targets.iter() {
        assert_eq!(focus.next(&targets).prev(&targets), *focus);
        assert_eq!(focus.prev(&targets).next(&targets), *focus);
    }
}

#[test]
fn every_focus_name_parses_back() {
    for focus in every_focus() {
        assert_eq!(Focus::from_str(focus.to_str()), Ok(focus));
        assert_eq!(Focus::parse(focus.to_str()), focus);
    }
}

#[test]
fn focus_names_are_as_displayed() {
    assert_eq!(Focus::Title.to_str(), "Title");
    assert_eq!(Focus::ConfigTable.to_str(), "Config");
    assert_eq!(Focus::CardName.to_str(), "New Card Name");
    assert_eq!(Focus::StyleEditorFG.to_str(), "Theme Editor FG");
    assert_eq!(Focus::StyleEditorBG.to_str(), "Theme Editor BG");
    assert_eq!(Focus::StyleEditorModifier.to_str(), "Theme Editor Modifier");
    assert_eq!(Focus::EditSpecificKeyBindingPopup.to_str(), "Edit Specific Key Binding Popup");
    assert_eq!(Focus::ChangeDateFormatPopup.to_str(), "Change Date Format Popup");
    assert_eq!(Focus::NoFocus.to_str(), "No Focus");
    assert_eq!(Focus::ExtraFocus.to_str(), "Extra Focus");
}

#[test]
fn an_unknown_focus_name_parses_to_no_focus() {
    assert_eq!(Focus::from_str("Nowhere"), Ok(Focus::NoFocus));
    assert_eq!(Focus::from_str(""), Ok(Focus::NoFocus));
    assert_eq!(Focus::from_str("title"), Ok(Focus::NoFocus));
    assert_eq!(Focus::from_str("Title "), Ok(Focus::NoFocus));
    assert_eq!(Focus::from_str("CardName"), Ok(Focus::NoFocus));
}

#[test]
fn focus_names_are_all_different() {
    let all = every_focus();
    for (i, a) in all.iter().enumerate() {
        for (j, b) in all.iter().enumerate() {
            if i != j {
                assert_ne!(a.to_str(), b.to_str());
            }
        }
    }
}

#[test]
fn the_default_focus_is_no_focus() {
    assert_eq!(Focus::default(), Focus::NoFocus);
}

#[test]
fn a_focus_name_parses_as_a_string_does() {
    assert_eq!("Title".parse::<Focus>(), Ok(Focus::Title));
    assert_eq!("Change Date Format Popup".parse::<Focus>(), Ok(Focus::ChangeDateFormatPopup));
    assert_eq!("Nowhere".parse::<Focus>(), Ok(Focus::NoFocus));
}
