use rust_kanban::actions::Action;
use rust_kanban::inputs::Key;
use rust_kanban::state::{AppState, AppStatus, Effect, Focus, IoEvent, KeyBindings, UiMode};

fn running(mode: UiMode) -> AppState {
    let mut state = AppState::new(mode);
    state.io_completed(IoEvent::Initialize);
    state
}

fn every_action() -> Vec<Action> {
    (0..25).map(|rank| *Action::at_rank(rank).unwrap()).collect()
}

#[test]
fn the_machine_starts_in_init_without_focus() {
    let state = AppState::new(UiMode::TitleBody);
    assert_eq!(state.status, AppStatus::Init);
    assert_eq!(state.ui_mode, UiMode::TitleBody);
    assert_eq!(state.focus, Focus::NoFocus);
    assert_eq!(state.default_view, UiMode::TitleBody);
}

#[test]
fn the_end_of_initialize_ends_the_startup() {
    let mut state = AppState::new(UiMode::TitleBodyHelp);
    state.io_completed(IoEvent::Initialize);
    assert_eq!(state.status, AppStatus::Initialized);
    assert_eq!(state.ui_mode, UiMode::TitleBodyHelp);
    assert_eq!(state.focus, Focus::Title);
}

#[test]
fn no_other_command_ends_the_startup() {
    for event in [IoEvent::Reset, IoEvent::SaveState, IoEvent::LoadSave] {
        let mut state = AppState::new(UiMode::Zen);
        state.io_completed(event);
        assert_eq!(state, AppState::new(UiMode::Zen));
    }
}

#[test]
fn a_finished_command_leaves_a_running_machine_as_it_is() {
    for event in [IoEvent::Initialize, IoEvent::Reset, IoEvent::SaveState, IoEvent::LoadSave] {
        let mut state = running(UiMode::TitleBody);
        state.do_action(Action::OpenConfigMenu);
        let before = state;
        state.io_completed(event);
        assert_eq!(state, before);
    }
}

#[test]
fn quit_asks_to_leave_in_every_status() {
    for status in
        [AppStatus::Init, AppStatus::Initialized, AppStatus::UserInput, AppStatus::KeyBindMode]
    {
        let mut state = running(UiMode::Zen);
        state.status = status;
        let before = state;
        assert_eq!(state.do_action(Action::Quit), Effect::Exit);
        assert_eq!(state, before);
    }
}

#[test]
fn nothing_but_quit_has_an_effect_during_startup() {
    for action in every_action() {
        let mut state = AppState::new(UiMode::TitleBody);
        let effect = state.do_action(action);
        assert_eq!(state, AppState::new(UiMode::TitleBody));
        if action == Action::Quit {
            assert_eq!(effect, Effect::Exit);
        } else {
            assert_eq!(effect, Effect::Continue);
        }
    }
}

#[test]
fn next_focus_moves_through_the_screen() {
    let mut state = running(UiMode::TitleBodyLog);
    assert_eq!(state.focus, Focus::Title);
    assert_eq!(state.do_action(Action::NextFocus), Effect::Continue);
    assert_eq!(state.focus, Focus::Body);
    state.do_action(Action::NextFocus);
    assert_eq!(state.focus, Focus::Log);
    state.do_action(Action::NextFocus);
    assert_eq!(state.focus, Focus::Title);
    state.do_action(Action::PrvFocus);
    assert_eq!(state.focus, Focus::Log);
    assert_eq!(state.ui_mode, UiMode::TitleBodyLog);
    assert_eq!(state.status, AppStatus::Initialized);
}

#[test]
fn a_focus_off_the_screen_snaps_to_the_first_region() {
    let mut state = running(UiMode::MainMenu);
    state.focus = Focus::CardName;
    state.do_action(Action::NextFocus);
    assert_eq!(state.focus, Focus::MainMenu);
    state.focus = Focus::NoFocus;
    state.do_action(Action::PrvFocus);
    assert_eq!(state.focus, Focus::MainMenu);
}

#[test]
fn opening_a_screen_puts_the_focus_on_its_first_region() {
    let cases = [
        (Action::OpenConfigMenu, UiMode::ConfigMenu, Focus::ConfigTable),
        (Action::GoToMainMenu, UiMode::MainMenu, Focus::MainMenu),
        (Action::NewBoard, UiMode::NewBoard, Focus::NewBoardName),
        (Action::NewCard, UiMode::NewCard, Focus::CardName),
        (Action::ResetUI, UiMode::BodyHelp, Focus::Body),
    ];
    for (action, mode, focus) in cases {
        let mut state = running(UiMode::BodyHelp);
        state.do_action(Action::NextFocus);
        assert_eq!(state.focus, Focus::Help);
        assert_eq!(state.do_action(action), Effect::Continue);
        assert_eq!(state.ui_mode, mode);
        assert_eq!(state.focus, focus);
        assert_eq!(state.status, AppStatus::Initialized);
        assert_eq!(state.default_view, UiMode::BodyHelp);
    }
}

#[test]
fn reset_ui_goes_back_to_the_default_view() {
    let mut state = running(UiMode::TitleBodyHelpLog);
    state.do_action(Action::OpenConfigMenu);
    state.do_action(Action::NextFocus);
    assert_eq!(state.ui_mode, UiMode::ConfigMenu);
    state.do_action(Action::ResetUI);
    assert_eq!(state.ui_mode, UiMode::TitleBodyHelpLog);
    assert_eq!(state.focus, Focus::Title);
}

#[test]
fn save_state_is_handed_to_the_worker() {
    let mut state = running(UiMode::Zen);
    let before = state;
    assert_eq!(state.do_action(Action::SaveState), Effect::Dispatch(IoEvent::SaveState));
    assert_eq!(state, before);
}

#[test]
fn board_and_card_actions_are_passed_on() {
    let passed = [
        Action::Up,
        Action::Down,
        Action::Right,
        Action::Left,
        Action::HideUiElement,
        Action::DeleteCard,
        Action::DeleteBoard,
        Action::ChangeCardStatusToCompleted,
        Action::ChangeCardStatusToActive,
        Action::ChangeCardStatusToStale,
        Action::ToggleCommandPalette,
        Action::ClearAllToasts,
        Action::Undo,
        Action::Redo,
    ];
    for action in passed {
        let mut state = running(UiMode::TitleBody);
        let before = state;
        assert_eq!(state.do_action(action), Effect::Delegate(action));
        assert_eq!(state, before);
    }
}

#[test]
fn text_entry_starts_and_stops() {
    let mut state = running(UiMode::NewBoard);
    assert_eq!(state.do_action(Action::TakeUserInput), Effect::Continue);
    assert_eq!(state.status, AppStatus::UserInput);
    assert_eq!(state.do_action(Action::TakeUserInput), Effect::Continue);
    assert_eq!(state.status, AppStatus::UserInput);
    assert_eq!(state.do_action(Action::StopUserInput), Effect::Continue);
    assert_eq!(state.status, AppStatus::Initialized);
    assert_eq!(state.do_action(Action::StopUserInput), Effect::Continue);
    assert_eq!(state.status, AppStatus::Initialized);
    assert_eq!(state.ui_mode, UiMode::NewBoard);
    assert_eq!(state.focus, Focus::NewBoardName);
}

#[test]
fn commands_have_no_effect_while_text_is_entered() {
    for action in every_action() {
        if action == Action::Quit || action == Action::StopUserInput {
            continue;
        }
        for status in [AppStatus::UserInput, AppStatus::KeyBindMode] {
            let mut state = running(UiMode::NewCard);
            state.status = status;
            let before = state;
            assert_eq!(state.do_action(action), Effect::Continue);
            assert_eq!(state, before);
        }
    }
}

#[test]
fn key_recording_starts_from_the_running_status_only() {
    let mut state = running(UiMode::EditKeybindings);
    state.record_key();
    assert_eq!(state.status, AppStatus::KeyBindMode);
    state.record_key();
    assert_eq!(state.status, AppStatus::KeyBindMode);
    assert_eq!(state.do_action(Action::StopUserInput), Effect::Continue);
    assert_eq!(state.status, AppStatus::Initialized);

    let mut starting = AppState::new(UiMode::Zen);
    starting.record_key();
    assert_eq!(starting.status, AppStatus::Init);

    let mut typing = running(UiMode::Zen);
    typing.do_action(Action::TakeUserInput);
    typing.record_key();
    assert_eq!(typing.status, AppStatus::UserInput);
}

#[test]
fn keys_are_commands_in_the_running_status() {
    let bindings = KeyBindings::default();
    let mut state = running(UiMode::TitleBody);
    assert_eq!(state.handle_key(Key::Tab, &bindings), Effect::Continue);
    assert_eq!(state.focus, Focus::Body);
    assert_eq!(state.handle_key(Key::Ctrl('s'), &bindings), Effect::Dispatch(IoEvent::SaveState));
    assert_eq!(state.handle_key(Key::Up, &bindings), Effect::Delegate(Action::Up));
    assert_eq!(state.handle_key(Key::Char('x'), &bindings), Effect::Continue);
    assert_eq!(state.handle_key(Key::Char('c'), &bindings), Effect::Continue);
    assert_eq!(state.ui_mode, UiMode::ConfigMenu);
    assert_eq!(state.handle_key(Key::Char('q'), &bindings), Effect::Exit);
}

#[test]
fn keys_are_text_while_text_is_entered() {
    let bindings = KeyBindings::default();
    let mut state = running(UiMode::NewBoard);
    assert_eq!(state.handle_key(Key::Char('i'), &bindings), Effect::Continue);
    assert_eq!(state.status, AppStatus::UserInput);
    assert_eq!(state.handle_key(Key::Char('q'), &bindings), Effect::Text(Key::Char('q')));
    assert_eq!(state.handle_key(Key::Tab, &bindings), Effect::Text(Key::Tab));
    assert_eq!(state.status, AppStatus::UserInput);
    assert_eq!(state.focus, Focus::NewBoardName);
    assert_eq!(state.handle_key(Key::Ins, &bindings), Effect::Continue);
    assert_eq!(state.status, AppStatus::Initialized);
}

#[test]
fn one_key_is_recorded_and_the_recording_is_over() {
    let bindings = KeyBindings::default();
    let mut state = running(UiMode::EditKeybindings);
    state.record_key();
    assert_eq!(state.handle_key(Key::Char('q'), &bindings), Effect::Record(Key::Char('q')));
    assert_eq!(state.status, AppStatus::Initialized);
    state.record_key();
    assert_eq!(state.handle_key(Key::Ins, &bindings), Effect::Continue);
    assert_eq!(state.status, AppStatus::Initialized);
}

#[test]
fn keys_are_ignored_during_startup_but_for_quit() {
    let bindings = KeyBindings::default();
    let mut state = AppState::new(UiMode::Zen);
    assert_eq!(state.handle_key(Key::Tab, &bindings), Effect::Continue);
    assert_eq!(state.handle_key(Key::Char('c'), &bindings), Effect::Continue);
    assert_eq!(state, AppState::new(UiMode::Zen));
    assert_eq!(state.handle_key(Key::Ctrl('c'), &bindings), Effect::Exit);
}

#[test]
fn the_focus_stays_on_the_screen_whatever_is_done() {
    let mut state = running(UiMode::TitleBody);
    let script = [
        Action::NextFocus,
        Action::OpenConfigMenu,
        Action::PrvFocus,
        Action::Up,
        Action::NewCard,
        Action::NextFocus,
        Action::NextFocus,
        Action::TakeUserInput,
        Action::NextFocus,
        Action::StopUserInput,
        Action::GoToMainMenu,
        Action::PrvFocus,
        Action::ResetUI,
        Action::SaveState,
    ];
    for action in script {
        state.do_action(action);
        assert!(state.ui_mode.get_available_targets().contains(&state.focus));
    }
}

#[test]
fn set_ui_mode_shows_the_screen() {
    let mut state = running(UiMode::Zen);
    state.set_ui_mode(UiMode::LoadSave);
    assert_eq!(state.ui_mode, UiMode::LoadSave);
    assert_eq!(state.focus, Focus::Body);
    state.set_ui_mode(UiMode::CreateTheme);
    assert_eq!(state.focus, Focus::ThemeEditor);
}
