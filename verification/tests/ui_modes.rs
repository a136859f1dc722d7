use rust_kanban::state::{AppStatus, Focus, UiMode};

fn modes() -> Vec<UiMode> {
    vec![
        UiMode::Zen,
        UiMode::TitleBody,
        UiMode::BodyHelp,
        UiMode::BodyLog,
        UiMode::TitleBodyHelp,
        UiMode::TitleBodyLog,
        UiMode::TitleBodyHelpLog,
        UiMode::BodyHelpLog,
        UiMode::ConfigMenu,
        UiMode::EditKeybindings,
        UiMode::MainMenu,
        UiMode::HelpMenu,
        UiMode::LogsOnly,
        UiMode::NewBoard,
        UiMode::NewCard,
        UiMode::LoadSave,
        UiMode::CreateTheme,
    ]
}

#[test]
fn view_modes_are_the_eight_startup_views() {
    assert_eq!(
        UiMode::view_modes(),
        vec![
            UiMode::Zen,
            UiMode::TitleBody,
            UiMode::BodyHelp,
            UiMode::BodyLog,
            UiMode::TitleBodyHelp,
            UiMode::TitleBodyLog,
            UiMode::BodyHelpLog,
            UiMode::TitleBodyHelpLog,
        ]
    );
}

#[test]
fn view_mode_names_parse_back() {
    for mode in UiMode::view_modes() {
        assert_eq!(UiMode::from_string(&mode.to_string()), Some(mode));
    }
}

#[test]
fn every_mode_name_parses_back() {
    for mode in modes() {
        assert_eq!(UiMode::from_string(&mode.to_string()), Some(mode));
        assert_eq!(mode.to_string(), mode.as_str());
    }
}

#[test]
fn mode_names_are_as_displayed() {
    assert_eq!(UiMode::Zen.to_string(), "Zen");
    assert_eq!(UiMode::TitleBody.to_string(), "Title and Body");
    assert_eq!(UiMode::BodyHelp.to_string(), "Body and Help");
    assert_eq!(UiMode::BodyLog.to_string(), "Body and Log");
    assert_eq!(UiMode::TitleBodyHelp.to_string(), "Title, Body and Help");
    assert_eq!(UiMode::TitleBodyLog.to_string(), "Title, Body and Log");
    assert_eq!(UiMode::BodyHelpLog.to_string(), "Body, Help and Log");
    assert_eq!(UiMode::TitleBodyHelpLog.to_string(), "Title, Body, Help and Log");
    assert_eq!(UiMode::ConfigMenu.to_string(), "Config");
    assert_eq!(UiMode::EditKeybindings.to_string(), "Edit Keybindings");
    assert_eq!(UiMode::MainMenu.to_string(), "Main Menu");
    assert_eq!(UiMode::HelpMenu.to_string(), "Help Menu");
    assert_eq!(UiMode::LogsOnly.to_string(), "Logs Only");
    assert_eq!(UiMode::NewBoard.to_string(), "New Board");
    assert_eq!(UiMode::NewCard.to_string(), "New Card");
    assert_eq!(UiMode::LoadSave.to_string(), "Load a Save");
    assert_eq!(UiMode::CreateTheme.to_string(), "Create Theme");
}

#[test]
fn an_unknown_mode_name_gives_none() {
    assert_eq!(UiMode::from_string("Title And Body"), None);
    assert_eq!(UiMode::from_string(""), None);
    assert_eq!(UiMode::from_string("Zen "), None);
    assert_eq!(UiMode::from_string("zen"), None);
    assert_eq!(UiMode::from_string("TitleBody"), None);
}

#[test]
fn numbers_one_to_nine_select_nine_different_modes() {
    let mut seen: Vec<UiMode> = Vec::new();
    for n in 1..=9u8 {
        let mode = UiMode::from_number(n);
        assert!(!seen.contains(&mode));
        assert_eq!(UiMode::try_from_number(n), Some(mode));
        seen.push(mode);
    }
    assert_eq!(seen.len(), 9);
}

#[test]
fn numbers_one_to_eight_select_the_views_in_order() {
    let views = UiMode::view_modes();
    for n in 1..=8u8 {
        assert_eq!(UiMode::from_number(n), views[(n - 1) as usize]);
    }
    assert_eq!(UiMode::from_number(1), UiMode::Zen);
    assert_eq!(UiMode::from_number(7), UiMode::BodyHelpLog);
    assert_eq!(UiMode::from_number(8), UiMode::TitleBodyHelpLog);
    assert_eq!(UiMode::from_number(9), UiMode::LogsOnly);
}

#[test]
fn a_number_out_of_range_selects_title_and_body() {
    assert_eq!(UiMode::from_number(0), UiMode::TitleBody);
    assert_eq!(UiMode::from_number(10), UiMode::TitleBody);
    assert_eq!(UiMode::from_number(255), UiMode::TitleBody);
    assert_eq!(UiMode::try_from_number(0), None);
    assert_eq!(UiMode::try_from_number(10), None);
    assert_eq!(UiMode::try_from_number(255), None);
}

#[test]
fn all_names_the_numbered_modes_in_order() {
    let names = UiMode::all();
    assert_eq!(
        names,
        vec![
            "Zen",
            "Title and Body",
            "Body and Help",
            "Body and Log",
            "Title, Body and Help",
            "Title, Body and Log",
            "Body, Help and Log",
            "Title, Body, Help and Log",
            "Logs Only",
        ]
    );
    for (i, name) in names.iter().enumerate() {
        assert_eq!(UiMode::from_string(name), Some(UiMode::from_number(i as u8 + 1)));
    }
}

#[test]
fn every_mode_has_its_targets() {
    assert_eq!(UiMode::Zen.get_available_targets(), vec![Focus::Body]);
    assert_eq!(UiMode::TitleBody.get_available_targets(), vec![Focus::Title, Focus::Body]);
    assert_eq!(UiMode::BodyHelp.get_available_targets(), vec![Focus::Body, Focus::Help]);
    assert_eq!(UiMode::BodyLog.get_available_targets(), vec![Focus::Body, Focus::Log]);
    assert_eq!(
        UiMode::TitleBodyHelp.get_available_targets(),
        vec![Focus::Title, Focus::Body, Focus::Help]
    );
    assert_eq!(
        UiMode::TitleBodyLog.get_available_targets(),
        vec![Focus::Title, Focus::Body, Focus::Log]
    );
    assert_eq!(
        UiMode::BodyHelpLog.get_available_targets(),
        vec![Focus::Body, Focus::Help, Focus::Log]
    );
    assert_eq!(
        UiMode::TitleBodyHelpLog.get_available_targets(),
        vec![Focus::Title, Focus::Body, Focus::Help, Focus::Log]
    );
    assert_eq!(
        UiMode::ConfigMenu.get_available_targets(),
        vec![Focus::ConfigTable, Focus::SubmitButton, Focus::ExtraFocus]
    );
    assert_eq!(
        UiMode::EditKeybindings.get_available_targets(),
        vec![Focus::Title, Focus::EditKeybindingsTable, Focus::SubmitButton]
    );
    assert_eq!(
        UiMode::MainMenu.get_available_targets(),
        vec![Focus::MainMenu, Focus::MainMenuHelp, Focus::Log]
    );
    assert_eq!(UiMode::HelpMenu.get_available_targets(), vec![Focus::Help, Focus::Log]);
    assert_eq!(UiMode::LogsOnly.get_available_targets(), vec![Focus::Log]);
    assert_eq!(
        UiMode::NewBoard.get_available_targets(),
        vec![Focus::NewBoardName, Focus::NewBoardDescription, Focus::SubmitButton]
    );
    assert_eq!(
        UiMode::NewCard.get_available_targets(),
        vec![Focus::CardName, Focus::CardDescription, Focus::CardDueDate, Focus::SubmitButton]
    );
    assert_eq!(UiMode::LoadSave.get_available_targets(), vec![Focus::Body]);
    assert_eq!(
        UiMode::CreateTheme.get_available_targets(),
        vec![Focus::ThemeEditor, Focus::SubmitButton, Focus::ExtraFocus]
    );
}

#[test]
fn no_mode_offers_a_target_twice_or_none() {
    for mode in modes() {
        let targets = mode.get_available_targets();
        assert!(!targets.is_empty());
        for (i, a) in targets.iter().enumerate() {
            for (j, b) in targets.iter().enumerate() {
                if i != j {
                    assert_ne!(a, b);
                }
            }
        }
    }
}

#[test]
fn the_default_mode_is_zen() {
    assert_eq!(UiMode::default(), UiMode::Zen);
}

#[test]
fn status_starts_in_init() {
    assert_eq!(AppStatus::default(), AppStatus::Init);
    assert!(!AppStatus::default().is_initialized());
}

#[test]
fn initialized_is_initialized() {
    assert_eq!(AppStatus::initialized(), AppStatus::Initialized);
    assert!(AppStatus::initialized().is_initialized());
    assert!(!AppStatus::UserInput.is_initialized());
    assert!(!AppStatus::KeyBindMode.is_initialized());
}
