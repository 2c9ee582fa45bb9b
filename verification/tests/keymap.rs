use rdg::keymap::{binding, Intent, Key, KeyCode, KeyEvent, KeyPattern, Keymap, Modifiers, text_input_modifiers};

#[test]
fn quit_is_not_bound_to_a_key() {
    let keymap = Keymap::common();
    assert_eq!(
        keymap.intent_for(KeyEvent::new(KeyCode::Char('q'), Modifiers::none())),
        None
    );
    assert_eq!(
        keymap.intent_for(KeyEvent::new(KeyCode::Char('c'), Modifiers::control())),
        None
    );
}

#[test]
fn colon_enters_command_mode() {
    let keymap = Keymap::common();
    assert_eq!(
        keymap.intent_for(KeyEvent::new(KeyCode::Char(':'), Modifiers::none())),
        Some(Intent::EnterCommandMode)
    );
}

#[test]
fn escape_cancels_without_quitting() {
    let keymap = Keymap::common();
    assert_eq!(
        keymap.intent_for(KeyEvent::new(KeyCode::Esc, Modifiers::none())),
        Some(Intent::Cancel)
    );
}

#[test]
fn question_mark_opens_help() {
    let keymap = Keymap::common();
    assert_eq!(
        keymap.intent_for(KeyEvent::new(KeyCode::Char('?'), Modifiers::none())),
        Some(Intent::Help)
    );
}

#[test]
fn shift_does_not_stop_a_character_binding() {
    let keymap = Keymap::common();
    assert_eq!(
        keymap.intent_for(KeyEvent::new(KeyCode::Char('?'), Modifiers::shift())),
        Some(Intent::Help)
    );
    assert_eq!(
        keymap.intent_for(KeyEvent::new(KeyCode::Esc, Modifiers::alt())),
        None
    );
}

#[test]
fn rebinding_a_key_replaces_its_intent() {
    let keymap = Keymap::common().with_binding(binding(
        Key::Esc,
        Modifiers::none(),
        Intent::Help,
        "Esc",
        "help",
    ));
    assert_eq!(
        keymap.intent_for(KeyEvent::new(KeyCode::Esc, Modifiers::none())),
        Some(Intent::Help)
    );
    assert_eq!(keymap.bindings().len(), 11);
    assert_eq!(keymap.bindings().last().unwrap().description, "help");
    assert_eq!(
        keymap.intent_for(KeyEvent::new(KeyCode::Tab, Modifiers::none())),
        Some(Intent::NextPane)
    );
}

#[test]
fn unbinding_a_key_leaves_it_free() {
    let keymap = Keymap::common().without_key(KeyPattern { key: Key::Char(':'), modifiers: Modifiers::none() });
    assert_eq!(
        keymap.intent_for(KeyEvent::new(KeyCode::Char(':'), Modifiers::none())),
        None
    );
    assert_eq!(keymap.bindings().len(), 10);
}

#[test]
fn text_input_allows_shift_only() {
    assert!(text_input_modifiers(Modifiers::none()));
    assert!(text_input_modifiers(Modifiers::shift()));
    assert!(!text_input_modifiers(Modifiers::control()));
}

#[test]
fn default_keymap_is_the_common_one() {
    let keymap = Keymap::default();
    let labels: Vec<&str> = keymap.bindings().iter().map(|b| b.label).collect();
    assert_eq!(
        labels,
        vec![":", "Esc", "?", "Tab", "Shift-Tab", "Enter", "Up", "Down", "Left", "Right", "/"]
    );
}
