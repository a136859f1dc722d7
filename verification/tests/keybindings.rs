use rust_kanban::actions::Action;
use rust_kanban::inputs::Key;
use rust_kanban::state::KeyBindings;

fn names_in_order() -> Vec<&'static str> {
    vec![
        "quit",
        "next_focus",
        "prev_focus",
        "open_config_menu",
        "up",
        "down",
        "right",
        "left",
        "take_user_input",
        "stop_user_input",
        "hide_ui_element",
        "save_state",
        "new_board",
        "new_card",
        "delete_card",
        "delete_board",
        "change_card_status_to_completed",
        "change_card_status_to_active",
        "change_card_status_to_stale",
        "reset_ui",
        "go_to_main_menu",
        "toggle_command_palette",
        "clear_all_toasts",
        "undo",
        "redo",
    ]
}

#[test]
fn default_bindings_share_no_key() {
    let bindings = KeyBindings::default();
    assert_eq!(bindings.overlapped_keys().len(), 0);
    assert!(bindings.check_overlaps(false).is_ok());
    let keys = bindings.bound_keys();
    assert_eq!(keys.len(), 26);
    for (i, a) in keys.iter().enumerate() {
        for (j, b) in keys.iter().enumerate() {
            if i != j {
                assert_ne!(a, b);
            }
        }
    }
}

#[test]
fn default_bindings_are_as_listed() {
    let bindings = KeyBindings::default();
    assert_eq!(bindings.quit, vec![Key::Ctrl('c'), Key::Char('q')]);
    assert_eq!(bindings.next_focus, vec![Key::Tab]);
    assert_eq!(bindings.prev_focus, vec![Key::BackTab]);
    assert_eq!(bindings.open_config_menu, vec![Key::Char('c')]);
    assert_eq!(bindings.up, vec![Key::Up]);
    assert_eq!(bindings.down, vec![Key::Down]);
    assert_eq!(bindings.right, vec![Key::Right]);
    assert_eq!(bindings.left, vec![Key::Left]);
    assert_eq!(bindings.take_user_input, vec![Key::Char('i')]);
    assert_eq!(bindings.stop_user_input, vec![Key::Ins]);
    assert_eq!(bindings.hide_ui_element, vec![Key::Char('h')]);
    assert_eq!(bindings.save_state, vec![Key::Ctrl('s')]);
    assert_eq!(bindings.new_board, vec![Key::Char('b')]);
    assert_eq!(bindings.new_card, vec![Key::Char('n')]);
    assert_eq!(bindings.delete_card, vec![Key::Char('d')]);
    assert_eq!(bindings.delete_board, vec![Key::Char('D')]);
    assert_eq!(bindings.change_card_status_to_completed, vec![Key::Char('1')]);
    assert_eq!(bindings.change_card_status_to_active, vec![Key::Char('2')]);
    assert_eq!(bindings.change_card_status_to_stale, vec![Key::Char('3')]);
    assert_eq!(bindings.reset_ui, vec![Key::Char('r')]);
    assert_eq!(bindings.go_to_main_menu, vec![Key::Char('m')]);
    assert_eq!(bindings.toggle_command_palette, vec![Key::Ctrl('p')]);
    assert_eq!(bindings.clear_all_toasts, vec![Key::Char('t')]);
    assert_eq!(bindings.undo, vec![Key::Ctrl('z')]);
    assert_eq!(bindings.redo, vec![Key::Ctrl('y')]);
}

#[test]
fn a_key_under_two_actions_is_reported() {
    let mut bindings = KeyBindings::default();
    bindings.new_card = vec![Key::Char('q')];
    assert_eq!(bindings.overlapped_keys(), vec![Key::Char('q')]);
    match bindings.check_overlaps(false) {
        Ok(()) => panic!("the shared key was not found"),
        Err(error) => assert_eq!(error.keys, vec![Key::Char('q')]),
    }
}

#[test]
fn a_shared_key_passes_when_overlaps_are_ignored() {
    let mut bindings = KeyBindings::default();
    bindings.new_card = vec![Key::Char('q')];
    assert!(bindings.check_overlaps(true).is_ok());
    assert!(KeyBindings::default().check_overlaps(true).is_ok());
}

#[test]
fn a_key_twice_under_one_action_is_reported() {
    let mut bindings = KeyBindings::default();
    bindings.undo = vec![Key::Ctrl('z'), Key::Ctrl('z')];
    assert_eq!(bindings.overlapped_keys(), vec![Key::Ctrl('z')]);
    assert!(bindings.check_overlaps(false).is_err());
}

#[test]
fn a_key_under_three_actions_is_reported_once() {
    let mut bindings = KeyBindings::default();
    bindings.up = vec![Key::Up, Key::Char('k')];
    bindings.down = vec![Key::Char('k'), Key::Down];
    bindings.redo = vec![Key::Char('k')];
    assert_eq!(bindings.overlapped_keys(), vec![Key::Char('k')]);
}

#[test]
fn shared_keys_come_in_the_order_of_the_bindings() {
    let mut bindings = KeyBindings::default();
    bindings.redo = vec![Key::Tab, Key::Char('q')];
    bindings.undo = vec![Key::Ctrl('c')];
    assert_eq!(
        bindings.overlapped_keys(),
        vec![Key::Ctrl('c'), Key::Char('q'), Key::Tab]
    );
}

#[test]
fn empty_bindings_share_no_key() {
    let mut bindings = KeyBindings::default();
    bindings.quit = vec![];
    bindings.redo = vec![];
    assert_eq!(bindings.overlapped_keys().len(), 0);
    assert_eq!(bindings.bound_keys().len(), 23);
}

#[test]
fn char_and_ctrl_of_one_letter_are_different_keys() {
    let mut bindings = KeyBindings::default();
    bindings.new_card = vec![Key::Ctrl('q'), Key::Alt('q'), Key::Char('Q')];
    assert_eq!(bindings.overlapped_keys().len(), 0);
}

#[test]
fn default_keys_resolve_to_their_actions() {
    let bindings = KeyBindings::default();
    assert_eq!(bindings.clone().key_to_action(Key::Char('q')), Some(&Action::Quit));
    assert_eq!(bindings.clone().key_to_action(Key::Ctrl('c')), Some(&Action::Quit));
    assert_eq!(bindings.clone().key_to_action(Key::Tab), Some(&Action::NextFocus));
    assert_eq!(bindings.clone().key_to_action(Key::BackTab), Some(&Action::PrvFocus));
    assert_eq!(bindings.clone().key_to_action(Key::Char('c')), Some(&Action::OpenConfigMenu));
    assert_eq!(bindings.clone().key_to_action(Key::Ins), Some(&Action::StopUserInput));
    assert_eq!(bindings.clone().key_to_action(Key::Char('d')), Some(&Action::DeleteCard));
    assert_eq!(bindings.clone().key_to_action(Key::Char('D')), Some(&Action::DeleteBoard));
    assert_eq!(bindings.clone().key_to_action(Key::Ctrl('y')), Some(&Action::Redo));
    assert_eq!(bindings.action_for(Key::Ctrl('z')), Some(&Action::Undo));
}

#[test]
fn an_unbound_key_resolves_to_nothing() {
    let bindings = KeyBindings::default();
    assert_eq!(bindings.clone().key_to_action(Key::Char('x')), None);
    assert_eq!(bindings.clone().key_to_action(Key::Ctrl('q')), None);
    assert_eq!(bindings.clone().key_to_action(Key::Unknown), None);
    assert_eq!(bindings.key_to_action(Key::F(1)), None);
}

#[test]
fn a_shared_key_resolves_to_the_action_declared_first() {
    let mut bindings = KeyBindings::default();
    bindings.redo = vec![Key::Char('q')];
    bindings.next_focus = vec![Key::Tab, Key::Char('q')];
    assert_eq!(bindings.clone().key_to_action(Key::Char('q')), Some(&Action::Quit));
    bindings.quit = vec![Key::Ctrl('c')];
    assert_eq!(bindings.clone().key_to_action(Key::Char('q')), Some(&Action::NextFocus));
    bindings.next_focus = vec![Key::Tab];
    assert_eq!(bindings.clone().key_to_action(Key::Char('q')), Some(&Action::Redo));
}

#[test]
fn delete_card_is_declared_before_delete_board() {
    let mut bindings = KeyBindings::default();
    bindings.delete_board = vec![Key::Delete];
    bindings.delete_card = vec![Key::Delete];
    assert_eq!(bindings.key_to_action(Key::Delete), Some(&Action::DeleteCard));
}

#[test]
fn iter_gives_the_bindings_in_the_declared_order() {
    let bindings = KeyBindings::default();
    let entries = bindings.iter();
    let names: Vec<&str> = entries.iter().map(|entry| entry.0).collect();
    assert_eq!(names, names_in_order());
    assert_eq!(entries[0].1, &vec![Key::Ctrl('c'), Key::Char('q')]);
    assert_eq!(entries[3].1, &vec![Key::Char('c')]);
    assert_eq!(entries[14].1, &vec![Key::Char('d')]);
    assert_eq!(entries[15].1, &vec![Key::Char('D')]);
    assert_eq!(entries[24].1, &vec![Key::Ctrl('y')]);
}

#[test]
fn action_names_lead_to_their_actions() {
    let expected = [
        Action::Quit,
        Action::NextFocus,
        Action::PrvFocus,
        Action::OpenConfigMenu,
        Action::Up,
        Action::Down,
        Action::Right,
        Action::Left,
        Action::TakeUserInput,
        Action::StopUserInput,
        Action::HideUiElement,
        Action::SaveState,
        Action::NewBoard,
        Action::NewCard,
        Action::DeleteCard,
        Action::DeleteBoard,
        Action::ChangeCardStatusToCompleted,
        Action::ChangeCardStatusToActive,
        Action::ChangeCardStatusToStale,
        Action::ResetUI,
        Action::GoToMainMenu,
        Action::ToggleCommandPalette,
        Action::ClearAllToasts,
        Action::Undo,
        Action::Redo,
    ];
    for (i, name) in names_in_order().iter().enumerate() {
        assert_eq!(KeyBindings::default().str_to_action(name), Some(&expected[i]));
        assert_eq!(Action::from_name(name), Some(&expected[i]));
        assert_eq!(expected[i].as_str(), *name);
        assert_eq!(Action::at_rank(i), Some(&expected[i]));
    }
}

#[test]
fn an_unknown_action_name_leads_to_nothing() {
    assert_eq!(KeyBindings::default().str_to_action("Quit"), None);
    assert_eq!(KeyBindings::default().str_to_action(""), None);
    assert_eq!(KeyBindings::default().str_to_action("quit "), None);
    assert_eq!(KeyBindings::default().str_to_action("next"), None);
    assert_eq!(Action::from_name("prv_focus"), None);
}

#[test]
fn the_declared_order_has_twenty_five_places() {
    assert_eq!(Action::at_rank(0), Some(&Action::Quit));
    assert_eq!(Action::at_rank(24), Some(&Action::Redo));
    assert_eq!(Action::at_rank(25), None);
    assert_eq!(Action::at_rank(usize::MAX), None);
}
