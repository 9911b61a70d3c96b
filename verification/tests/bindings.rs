//! Key combinations, profiles of bindings and the files that hold them.
use siggy::keybindings::{
    action_name, all_actions, all_profile_names, all_profiles, default_profile, emacs_profile,
    find_profile, minimal_profile, BindingMode, KeyAction, KeyBindingOverrides,
};
use siggy::keyfile::{
    action_from_key, overrides_to_toml, parse_overrides, parse_profile, KeyFile, KeyLine,
};
use siggy::keys::{format_key_combo, parse_key_combo, KeyCode, KeyCombo, KeyModifiers};

fn lines_of(table: &toml::Table, section: &str) -> Vec<KeyLine> {
    let mut lines = Vec::new();
    if let Some(toml::Value::Table(entries)) = table.get(section) {
        for (key, value) in entries {
            let combos = match value {
                toml::Value::String(s) => vec![s.clone()],
                toml::Value::Array(a) => a.iter().map(|v| v.as_str().unwrap().to_string()).collect(),
                other => panic!("not a combination: {other}"),
            };
            lines.push(KeyLine { key: key.clone(), combos });
        }
    }
    lines
}

fn read_file(text: &str) -> KeyFile {
    let table: toml::Table = toml::from_str(text).unwrap();
    KeyFile {
        name: table.get("name").and_then(|v| v.as_str()).unwrap_or("").to_string(),
        global: lines_of(&table, "global"),
        normal: lines_of(&table, "normal"),
        insert: lines_of(&table, "insert"),
    }
}

fn control(c: char) -> KeyCombo {
    KeyCombo { modifiers: KeyModifiers::control(), code: KeyCode::Char(c) }
}

#[test]
fn default_profile_resolves_ctrl_c_as_quit() {
    let kb = default_profile();
    assert_eq!(
        kb.resolve(KeyModifiers::control(), KeyCode::Char('c'), BindingMode::Normal),
        Some(KeyAction::Quit)
    );
}

#[test]
fn default_profile_resolves_j_in_normal() {
    let kb = default_profile();
    assert_eq!(
        kb.resolve(KeyModifiers::none(), KeyCode::Char('j'), BindingMode::Normal),
        Some(KeyAction::FocusNextMessage)
    );
}

#[test]
fn default_profile_j_not_in_insert() {
    let kb = default_profile();
    assert_eq!(kb.resolve(KeyModifiers::none(), KeyCode::Char('j'), BindingMode::Insert), None);
}

#[test]
fn default_profile_esc_in_insert() {
    let kb = default_profile();
    assert_eq!(
        kb.resolve(KeyModifiers::none(), KeyCode::Esc, BindingMode::Insert),
        Some(KeyAction::ExitInsert)
    );
}

#[test]
fn default_profile_enter_in_insert() {
    let kb = default_profile();
    assert_eq!(
        kb.resolve(KeyModifiers::none(), KeyCode::Enter, BindingMode::Insert),
        Some(KeyAction::SendMessage)
    );
}

#[test]
fn default_profile_alt_enter_in_insert() {
    let kb = default_profile();
    assert_eq!(
        kb.resolve(KeyModifiers::alt(), KeyCode::Enter, BindingMode::Insert),
        Some(KeyAction::InsertNewline)
    );
}

#[test]
fn parse_simple_key() {
    let combo = parse_key_combo("j").unwrap();
    assert_eq!(combo.modifiers, KeyModifiers::none());
    assert_eq!(combo.code, KeyCode::Char('j'));
}

#[test]
fn parse_ctrl_key() {
    let combo = parse_key_combo("ctrl+d").unwrap();
    assert_eq!(combo.modifiers, KeyModifiers::control());
    assert_eq!(combo.code, KeyCode::Char('d'));
}

#[test]
fn parse_alt_enter() {
    let combo = parse_key_combo("alt+enter").unwrap();
    assert_eq!(combo.modifiers, KeyModifiers::alt());
    assert_eq!(combo.code, KeyCode::Enter);
}

#[test]
fn parse_shift_tab() {
    let combo = parse_key_combo("shift+tab").unwrap();
    assert_eq!(combo.modifiers, KeyModifiers::shift());
    assert_eq!(combo.code, KeyCode::BackTab);
}

#[test]
fn parse_pageup() {
    let combo = parse_key_combo("pageup").unwrap();
    assert_eq!(combo.modifiers, KeyModifiers::none());
    assert_eq!(combo.code, KeyCode::PageUp);
}

#[test]
fn format_roundtrip() {
    let cases = vec![
        ("j", KeyModifiers::none(), KeyCode::Char('j')),
        ("Ctrl+d", KeyModifiers::control(), KeyCode::Char('d')),
        ("Esc", KeyModifiers::none(), KeyCode::Esc),
        ("Enter", KeyModifiers::none(), KeyCode::Enter),
        ("Shift+Tab", KeyModifiers::shift(), KeyCode::BackTab),
    ];
    for (expected, modifiers, code) in cases {
        let combo = KeyCombo { modifiers, code };
        assert_eq!(format_key_combo(&combo), expected);
    }
}

#[test]
fn keys_for_action_finds_binding() {
    let kb = default_profile();
    let keys = kb.keys_for_action(KeyAction::Quit);
    assert_eq!(keys.len(), 1);
    assert_eq!(keys[0].0, BindingMode::Global);
    assert_eq!(keys[0].1.code, KeyCode::Char('c'));
    assert!(keys[0].1.modifiers.control);
}

#[test]
fn display_key_for_action() {
    let kb = default_profile();
    assert_eq!(kb.display_key(KeyAction::Quit), "Ctrl+c");
    assert_eq!(kb.display_key(KeyAction::ScrollDown), "Ctrl+e");
}

#[test]
fn rebind_works() {
    let mut kb = default_profile();
    let new_combo = parse_key_combo("ctrl+j").unwrap();
    let displaced = kb.rebind(BindingMode::Normal, KeyAction::ScrollDown, new_combo);
    assert!(displaced.is_none());
    assert_eq!(
        kb.resolve(KeyModifiers::control(), KeyCode::Char('j'), BindingMode::Normal),
        Some(KeyAction::ScrollDown)
    );
    assert_eq!(
        kb.resolve(KeyModifiers::none(), KeyCode::Char('j'), BindingMode::Normal),
        Some(KeyAction::FocusNextMessage)
    );
}

#[test]
fn rebind_detects_conflict() {
    let mut kb = default_profile();
    let new_combo = parse_key_combo("k").unwrap();
    let displaced = kb.rebind(BindingMode::Normal, KeyAction::ScrollDown, new_combo);
    assert_eq!(displaced, Some(KeyAction::FocusPrevMessage));
}

#[test]
fn reset_action_restores_default() {
    let mut kb = default_profile();
    let new_combo = parse_key_combo("ctrl+j").unwrap();
    kb.rebind(BindingMode::Normal, KeyAction::ScrollDown, new_combo);
    assert_eq!(
        kb.resolve(KeyModifiers::control(), KeyCode::Char('e'), BindingMode::Normal),
        None
    );
    kb.reset_action(BindingMode::Normal, KeyAction::ScrollDown);
    assert_eq!(
        kb.resolve(KeyModifiers::control(), KeyCode::Char('e'), BindingMode::Normal),
        Some(KeyAction::ScrollDown)
    );
}

#[test]
fn overrides_apply() {
    let mut kb = default_profile();
    let overrides = KeyBindingOverrides {
        global: vec![(KeyAction::Quit, vec![parse_key_combo("ctrl+q").unwrap()])],
        normal: vec![],
        insert: vec![],
    };
    kb.apply_overrides(&overrides);
    assert_eq!(
        kb.resolve(KeyModifiers::control(), KeyCode::Char('c'), BindingMode::Normal),
        None
    );
    assert_eq!(
        kb.resolve(KeyModifiers::control(), KeyCode::Char('q'), BindingMode::Normal),
        Some(KeyAction::Quit)
    );
}

#[test]
fn find_profile_falls_back_to_default() {
    let kb = find_profile("nonexistent", vec![]);
    assert_eq!(kb.profile_name, "Default");
}

#[test]
fn all_builtin_profiles_have_unique_names() {
    let profiles = all_profiles(vec![]);
    let mut names: Vec<&str> = profiles.iter().map(|p| p.profile_name.as_str()).collect();
    let len = names.len();
    names.sort();
    names.dedup();
    assert_eq!(names.len(), len, "duplicate profile names found");
    assert_eq!(all_profile_names(vec![]), vec!["Default", "Emacs", "Minimal"]);
}

#[test]
fn emacs_profile_has_ctrl_n_scroll() {
    let kb = emacs_profile();
    assert_eq!(
        kb.resolve(KeyModifiers::control(), KeyCode::Char('n'), BindingMode::Insert),
        Some(KeyAction::ScrollDown)
    );
}

#[test]
fn parse_overrides_toml_basic() {
    let file = read_file(
        r#"
[global]
quit = "ctrl+q"

[normal]
scroll_up = "ctrl+k"
scroll_down = ["ctrl+j", "down"]

[insert]
"#,
    );
    let overrides = parse_overrides(&file).unwrap();
    assert_eq!(overrides.global.len(), 1);
    assert_eq!(overrides.global[0].0, KeyAction::Quit);
    assert_eq!(overrides.normal.len(), 2);
}

#[test]
fn parse_profile_toml_basic() {
    let file = read_file(
        r#"
name = "Test"

[global]
quit = "ctrl+q"

[normal]
scroll_down = "j"

[insert]
exit_insert = "esc"
send_message = "enter"
"#,
    );
    let profile = parse_profile(file).unwrap();
    assert_eq!(profile.profile_name, "Test");
    assert_eq!(
        profile.resolve(KeyModifiers::control(), KeyCode::Char('q'), BindingMode::Normal),
        Some(KeyAction::Quit)
    );
    assert_eq!(
        profile.resolve(KeyModifiers::none(), KeyCode::Char('j'), BindingMode::Normal),
        Some(KeyAction::ScrollDown)
    );
}

#[test]
fn tab_global_binding_not_conflicted_with_autocomplete() {
    let kb = default_profile();
    assert_eq!(
        kb.resolve(KeyModifiers::none(), KeyCode::Tab, BindingMode::Insert),
        Some(KeyAction::NextConversation)
    );
}

#[test]
fn insert_newline_both_alt_and_shift() {
    let kb = default_profile();
    assert_eq!(
        kb.resolve(KeyModifiers::alt(), KeyCode::Enter, BindingMode::Insert),
        Some(KeyAction::InsertNewline)
    );
    assert_eq!(
        kb.resolve(KeyModifiers::shift(), KeyCode::Enter, BindingMode::Insert),
        Some(KeyAction::InsertNewline)
    );
}

#[test]
fn unreadable_combinations_are_refused() {
    assert!(parse_key_combo("ctrl+nosuchkey").is_err());
    assert!(parse_key_combo("hyperdrive+j").is_err());
}

#[test]
fn every_action_is_found_by_its_name() {
    for action in all_actions() {
        assert_eq!(action_from_key(action_name(action)), Some(action));
    }
    assert_eq!(action_from_key("no_such_action"), None);
}

#[test]
fn escapes_in_action_names_are_read() {
    assert_eq!(action_from_key("q\\u0075it"), Some(KeyAction::Quit));
    assert_eq!(action_from_key("quit\""), None);
}

#[test]
fn unknown_actions_and_keys_fail_a_file() {
    let bad_action = read_file("[global]\nfly = \"j\"\n");
    match parse_overrides(&bad_action) {
        Err(e) => assert_eq!(e, "unknown action: fly"),
        Ok(_) => panic!("an unknown action was taken"),
    }
    let bad_key = read_file("[global]\nquit = \"ctrl+nosuchkey\"\n");
    assert!(parse_profile(bad_key).is_err());
}

#[test]
fn written_overrides_read_back() {
    let overrides = KeyBindingOverrides {
        global: vec![(KeyAction::Quit, vec![control('q')])],
        normal: vec![(KeyAction::ScrollDown, vec![control('j'), parse_key_combo("down").unwrap()])],
        insert: vec![],
    };
    let text = overrides_to_toml(&overrides);
    let again = parse_overrides(&read_file(&text)).unwrap();
    assert_eq!(again.global, overrides.global);
    assert_eq!(again.normal, overrides.normal);
    assert!(again.insert.is_empty());
}

#[test]
fn difference_from_a_profile_restores_the_bindings() {
    let mut kb = default_profile();
    kb.rebind(BindingMode::Global, KeyAction::Quit, control('q'));
    let diff = kb.diff_from_profile(vec![]);
    assert!(!diff.is_empty());
    let mut again = default_profile();
    again.apply_overrides(&diff);
    assert_eq!(
        again.resolve(KeyModifiers::control(), KeyCode::Char('q'), BindingMode::Insert),
        Some(KeyAction::Quit)
    );
    assert_eq!(
        again.resolve(KeyModifiers::control(), KeyCode::Char('c'), BindingMode::Insert),
        None
    );
    assert!(default_profile().diff_from_profile(vec![]).is_empty());
}

#[test]
fn profiles_with_the_same_name_are_found_by_it() {
    assert_eq!(find_profile("Emacs", vec![]).profile_name, "Emacs");
    assert_eq!(find_profile("Minimal", vec![]).profile_name, minimal_profile().profile_name);
}

#[test]
fn default_profile_acts_on_messages() {
    let kb = default_profile();
    let none = KeyModifiers::none();
    for (c, action) in [
        ('d', KeyAction::DeleteMessage),
        ('g', KeyAction::ScrollToTop),
        ('G', KeyAction::ScrollToBottom),
        ('J', KeyAction::FocusPrevMessage),
        ('K', KeyAction::FocusNextMessage),
    ] {
        assert_eq!(kb.resolve(none, KeyCode::Char(c), BindingMode::Normal), Some(action));
    }
    assert_eq!(
        kb.resolve(KeyModifiers::shift(), KeyCode::Char('J'), BindingMode::Normal),
        Some(KeyAction::FocusPrevMessage)
    );
}

#[test]
fn capital_letters_are_read_as_written() {
    let capital = KeyCombo { modifiers: KeyModifiers::none(), code: KeyCode::Char('J') };
    assert_eq!(parse_key_combo("J"), Ok(capital));
    assert_eq!(parse_key_combo("F"), Ok(KeyCombo { code: KeyCode::Char('F'), ..capital }));
    assert_eq!(parse_key_combo("ENTER").unwrap().code, KeyCode::Enter);
    assert_eq!(parse_key_combo("CTRL+F12").unwrap().code, KeyCode::F(12));
    assert_eq!(parse_key_combo("fx"), Err("bad F-key: fx".to_string()));
}

#[test]
fn capital_letters_are_kept_in_files() {
    let overrides = KeyBindingOverrides {
        global: vec![],
        normal: vec![(KeyAction::ScrollDown, vec![parse_key_combo("J").unwrap()])],
        insert: vec![(KeyAction::ExitInsert, vec![parse_key_combo("shift+tab").unwrap()])],
    };
    let text = overrides_to_toml(&overrides);
    assert_eq!(
        text,
        "[normal]\nscroll_down = \"J\"\n\n[insert]\nexit_insert = \"shift+tab\"\n"
    );
    let again = parse_overrides(&read_file(&text)).unwrap();
    assert_eq!(again.normal, overrides.normal);
    assert_eq!(again.insert, overrides.insert);
}
