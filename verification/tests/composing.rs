//! The input box: editing, history, completion and mentions.
use siggy::app::{App, AutocompleteMode, GroupMenuState, ImageProtocol, InputMode, Overlay, SendRequest};
use siggy::keys::{KeyCode, KeyModifiers};
use siggy::signal::{Group, Mention, StyleType, TextStyle};
use siggy::startup::Startup;

const NOW: i64 = 1_700_000_000_000;

fn app() -> App {
    let mut app = App::new(Startup {
        account: "+10000000000".to_string(),
        home: "/home/me".to_string(),
        image_protocol: ImageProtocol::Halfblock,
        paste_temp_path: "/tmp/paste".to_string(),
        themes: vec![],
        key_profiles: vec![],
        settings_profiles: vec![],
    });
    app.set_connected();
    app
}

fn set_input(app: &mut App, text: &str, cursor: usize) {
    app.input.before = text[..cursor].to_string();
    app.input.after = text[cursor..].to_string();
}

fn buffer(app: &App) -> String {
    app.input.buffer()
}

fn group(id: &str, name: &str, members: &[&str]) -> Group {
    Group {
        id: id.to_string(),
        name: name.to_string(),
        members: members.iter().map(|m| m.to_string()).collect(),
        member_uuids: vec![],
    }
}

fn know(app: &mut App, number: &str, name: &str) {
    app.store.contact_names.insert(number.to_string(), name.to_string());
}

fn activate(app: &mut App, id: &str, name: &str, is_group: bool) {
    app.get_or_create_conversation(id, name, is_group);
    app.active_conversation = Some(id.to_string());
}

fn typed(app: &mut App, text: &str) {
    set_input(app, text, 0);
    app.update_autocomplete();
}

#[test]
fn autocomplete_visibility() {
    let cases = vec![
        ("/", true, None),
        ("/jo", true, Some(1)),
        ("hello", false, Some(0)),
        ("/join ", false, None),
        ("/zzz", false, Some(0)),
    ];
    for (input, expected_visible, expected_count) in cases {
        let mut app = app();
        typed(&mut app, input);
        assert_eq!(app.is_open(Overlay::Autocomplete), expected_visible, "visibility for {input:?}");
        if let Some(count) = expected_count {
            assert_eq!(app.autocomplete.command_candidates.len(), count, "count for {input:?}");
        }
    }
}

#[test]
fn apply_autocomplete_trailing_space_for_arg_command() {
    let mut app = app();
    typed(&mut app, "/jo");
    app.apply_autocomplete();
    assert_eq!(buffer(&app), "/join ");
    assert_eq!(app.input.cursor(), 6);
}

#[test]
fn apply_autocomplete_no_space_for_no_arg_command() {
    let mut app = app();
    typed(&mut app, "/pa");
    app.apply_autocomplete();
    assert_eq!(buffer(&app), "/part");
    assert_eq!(app.input.cursor(), 5);
}

#[test]
fn apply_autocomplete_index_clamped() {
    let mut app = app();
    typed(&mut app, "/");
    app.autocomplete.index = app.autocomplete.command_candidates.len() + 5;
    app.update_autocomplete();
    assert!(app.autocomplete.index < app.autocomplete.command_candidates.len());
}

#[test]
fn join_autocomplete_shows_contacts() {
    let mut app = app();
    know(&mut app, "+1", "Alice");
    know(&mut app, "+2", "Bob");
    typed(&mut app, "/join ");
    assert!(app.is_open(Overlay::Autocomplete));
    assert_eq!(app.autocomplete.mode, AutocompleteMode::Join);
    assert_eq!(app.autocomplete.join_candidates.len(), 2);
}

#[test]
fn join_autocomplete_shows_groups() {
    let mut app = app();
    app.store.groups.insert("g1".to_string(), group("g1", "Family", &[]));
    typed(&mut app, "/join ");
    assert!(app.is_open(Overlay::Autocomplete));
    assert_eq!(app.autocomplete.mode, AutocompleteMode::Join);
    assert_eq!(app.autocomplete.join_candidates.len(), 1);
    assert!(app.autocomplete.join_candidates[0].0.starts_with('#'));
}

#[test]
fn join_autocomplete_filters_by_name() {
    let mut app = app();
    know(&mut app, "+1", "Alice");
    know(&mut app, "+2", "Bob");
    typed(&mut app, "/join al");
    assert!(app.is_open(Overlay::Autocomplete));
    assert_eq!(app.autocomplete.join_candidates.len(), 1);
    assert!(app.autocomplete.join_candidates[0].0.contains("Alice"));
}

#[test]
fn join_autocomplete_filters_by_phone() {
    let mut app = app();
    know(&mut app, "+1234", "Alice");
    know(&mut app, "+5678", "Bob");
    typed(&mut app, "/join +123");
    assert!(app.is_open(Overlay::Autocomplete));
    assert_eq!(app.autocomplete.join_candidates.len(), 1);
    assert_eq!(app.autocomplete.join_candidates[0].1, "+1234");
}

#[test]
fn join_autocomplete_alias() {
    let mut app = app();
    know(&mut app, "+1", "Alice");
    typed(&mut app, "/j ");
    assert!(app.is_open(Overlay::Autocomplete));
    assert_eq!(app.autocomplete.mode, AutocompleteMode::Join);
    assert_eq!(app.autocomplete.join_candidates.len(), 1);
}

#[test]
fn join_autocomplete_no_match_hides() {
    let mut app = app();
    know(&mut app, "+1", "Alice");
    typed(&mut app, "/join zzz");
    assert!(!app.is_open(Overlay::Autocomplete));
}

#[test]
fn apply_join_autocomplete() {
    let mut app = app();
    know(&mut app, "+1", "Alice");
    typed(&mut app, "/join al");
    assert!(app.is_open(Overlay::Autocomplete));
    app.apply_autocomplete();
    assert_eq!(buffer(&app), "/join +1");
    assert_eq!(app.input.cursor(), 8);
    assert!(!app.is_open(Overlay::Autocomplete));
}

#[test]
fn apply_join_autocomplete_group() {
    let mut app = app();
    app.store.groups.insert("g1".to_string(), group("g1", "Family", &[]));
    typed(&mut app, "/join fam");
    assert!(app.is_open(Overlay::Autocomplete));
    app.apply_autocomplete();
    assert_eq!(buffer(&app), "/join g1");
    assert_eq!(app.input.cursor(), 8);
}

#[test]
fn join_autocomplete_includes_conversations() {
    let mut app = app();
    app.get_or_create_conversation("+9999", "+9999", false);
    typed(&mut app, "/join +999");
    assert!(app.is_open(Overlay::Autocomplete));
    assert_eq!(app.autocomplete.join_candidates.len(), 1);
}

#[test]
fn join_autocomplete_skips_group_ids_in_contacts() {
    let mut app = app();
    know(&mut app, "g1", "Family");
    know(&mut app, "+1", "Alice");
    typed(&mut app, "/join ");
    assert!(app.is_open(Overlay::Autocomplete));
    let entries = app.autocomplete.join_candidates.iter().filter(|(_, v)| v == "+1").count();
    assert_eq!(entries, 1);
}

#[test]
fn join_autocomplete_index_clamped() {
    let mut app = app();
    know(&mut app, "+1", "Alice");
    typed(&mut app, "/join ");
    app.autocomplete.index = 100;
    app.update_autocomplete();
    assert!(app.autocomplete.index < app.autocomplete.join_candidates.len());
}

#[test]
fn input_edit_char_insert() {
    let mut app = app();
    assert!(app.apply_input_edit(KeyCode::Char('a')));
    assert!(app.apply_input_edit(KeyCode::Char('b')));
    assert_eq!(buffer(&app), "ab");
    assert_eq!(app.input.cursor(), 2);
}

#[test]
fn input_edit_backspace() {
    let mut app = app();
    set_input(&mut app, "abc", 3);
    assert!(app.apply_input_edit(KeyCode::Backspace));
    assert_eq!(buffer(&app), "ab");
    assert_eq!(app.input.cursor(), 2);
}

#[test]
fn input_edit_delete() {
    let mut app = app();
    set_input(&mut app, "abc", 1);
    assert!(app.apply_input_edit(KeyCode::Delete));
    assert_eq!(buffer(&app), "ac");
    assert_eq!(app.input.cursor(), 1);
}

#[test]
fn input_edit_left_right() {
    let mut app = app();
    set_input(&mut app, "abc", 2);
    assert!(app.apply_input_edit(KeyCode::Left));
    assert_eq!(app.input.cursor(), 1);
    assert!(app.apply_input_edit(KeyCode::Right));
    assert_eq!(app.input.cursor(), 2);
}

#[test]
fn input_edit_home_end() {
    let mut app = app();
    set_input(&mut app, "abc", 1);
    assert!(app.apply_input_edit(KeyCode::Home));
    assert_eq!(app.input.cursor(), 0);
    assert!(app.apply_input_edit(KeyCode::End));
    assert_eq!(app.input.cursor(), 3);
}

#[test]
fn input_edit_unhandled_key() {
    let mut app = app();
    assert!(!app.apply_input_edit(KeyCode::F(1)));
}

fn history(app: &mut App, entries: &[&str]) {
    app.input.history = entries.iter().map(|e| e.to_string()).collect();
}

#[test]
fn history_up_empty_is_noop() {
    let mut app = app();
    set_input(&mut app, "draft", 0);
    app.history_up();
    assert_eq!(buffer(&app), "draft");
    assert_eq!(app.input.history_index, None);
}

#[test]
fn history_down_without_browsing_is_noop() {
    let mut app = app();
    set_input(&mut app, "draft", 0);
    app.history_down();
    assert_eq!(buffer(&app), "draft");
    assert_eq!(app.input.history_index, None);
}

#[test]
fn history_up_recalls_last_entry() {
    let mut app = app();
    history(&mut app, &["hello", "world"]);
    set_input(&mut app, "draft", 5);
    app.history_up();
    assert_eq!(buffer(&app), "world");
    assert_eq!(app.input.history_index, Some(1));
    assert_eq!(app.input.history_draft, "draft");
    assert_eq!(app.input.cursor(), 5);
}

#[test]
fn history_up_walks_to_oldest() {
    let mut app = app();
    history(&mut app, &["first", "second", "third"]);
    for (entry, index) in [("third", 2), ("second", 1), ("first", 0), ("first", 0)] {
        app.history_up();
        assert_eq!(buffer(&app), entry);
        assert_eq!(app.input.history_index, Some(index));
    }
}

#[test]
fn history_down_walks_forward_and_restores_draft() {
    let mut app = app();
    history(&mut app, &["aaa", "bbb"]);
    set_input(&mut app, "my draft", 0);
    app.history_up();
    app.history_up();
    assert_eq!(buffer(&app), "aaa");
    assert_eq!(app.input.history_index, Some(0));
    app.history_down();
    assert_eq!(buffer(&app), "bbb");
    assert_eq!(app.input.history_index, Some(1));
    app.history_down();
    assert_eq!(buffer(&app), "my draft");
    assert_eq!(app.input.history_index, None);
}

#[test]
fn history_cursor_moves_to_end() {
    let mut app = app();
    history(&mut app, &["short", "a longer entry"]);
    app.history_up();
    assert_eq!(app.input.cursor(), 14);
    app.history_up();
    assert_eq!(app.input.cursor(), 5);
    app.history_down();
    assert_eq!(app.input.cursor(), 14);
    app.history_down();
    assert_eq!(app.input.cursor(), 0);
}

#[test]
fn handle_input_saves_to_history() {
    let mut app = app();
    activate(&mut app, "+1", "Alice", false);
    set_input(&mut app, "hello", 5);
    app.handle_input(NOW);
    assert_eq!(app.input.history, vec!["hello".to_string()]);
    assert_eq!(app.input.history_index, None);
    set_input(&mut app, "world", 5);
    app.handle_input(NOW);
    assert_eq!(app.input.history, vec!["hello".to_string(), "world".to_string()]);
}

#[test]
fn handle_input_trims_and_skips_empty() {
    let mut app = app();
    activate(&mut app, "+1", "Alice", false);
    set_input(&mut app, "   ", 0);
    app.handle_input(NOW);
    assert!(app.input.history.is_empty());
    set_input(&mut app, "  hello  ", 9);
    app.handle_input(NOW);
    assert_eq!(app.input.history, vec!["hello".to_string()]);
}

#[test]
fn handle_input_resets_history_index() {
    let mut app = app();
    activate(&mut app, "+1", "Alice", false);
    history(&mut app, &["old"]);
    app.input.history_index = Some(0);
    set_input(&mut app, "new", 3);
    app.handle_input(NOW);
    assert_eq!(app.input.history_index, None);
}

#[test]
fn apply_input_edit_up_down_routes_to_history() {
    let mut app = app();
    history(&mut app, &["recalled"]);
    set_input(&mut app, "draft", 0);
    assert!(app.apply_input_edit(KeyCode::Up));
    assert_eq!(buffer(&app), "recalled");
    assert!(app.apply_input_edit(KeyCode::Down));
    assert_eq!(buffer(&app), "draft");
}

#[test]
fn input_line_count_single_line() {
    let mut app = app();
    set_input(&mut app, "hello", 0);
    assert_eq!(app.input_line_count(), 1);
}

#[test]
fn input_line_count_multi_line() {
    let mut app = app();
    set_input(&mut app, "hello\nworld\nfoo", 0);
    assert_eq!(app.input_line_count(), 3);
}

#[test]
fn cursor_line_col_first_line() {
    let mut app = app();
    set_input(&mut app, "hello\nworld", 3);
    assert_eq!(app.cursor_line_col(), (0, 3));
}

#[test]
fn cursor_line_col_second_line() {
    let mut app = app();
    set_input(&mut app, "hello\nworld", 8);
    assert_eq!(app.cursor_line_col(), (1, 2));
}

#[test]
fn cursor_line_col_at_newline() {
    let mut app = app();
    set_input(&mut app, "hello\nworld", 6);
    assert_eq!(app.cursor_line_col(), (1, 0));
}

#[test]
fn up_navigates_between_lines() {
    let mut app = app();
    set_input(&mut app, "hello\nworld", 8);
    app.apply_input_edit(KeyCode::Up);
    assert_eq!(app.input.cursor(), 2);
}

#[test]
fn down_navigates_between_lines() {
    let mut app = app();
    set_input(&mut app, "hello\nworld", 2);
    app.apply_input_edit(KeyCode::Down);
    assert_eq!(app.input.cursor(), 8);
}

#[test]
fn up_clamps_to_shorter_line() {
    let mut app = app();
    set_input(&mut app, "hi\nhello world", 12);
    app.apply_input_edit(KeyCode::Up);
    assert_eq!(app.input.cursor(), 2);
}

#[test]
fn down_clamps_to_shorter_line() {
    let mut app = app();
    set_input(&mut app, "hello world\nhi", 9);
    app.apply_input_edit(KeyCode::Down);
    assert_eq!(app.input.cursor(), 14);
}

#[test]
fn up_on_first_line_uses_history() {
    let mut app = app();
    set_input(&mut app, "hello\nworld", 3);
    history(&mut app, &["recalled"]);
    app.apply_input_edit(KeyCode::Up);
    assert_eq!(buffer(&app), "recalled");
}

#[test]
fn down_on_last_line_falls_through_to_history() {
    let mut app = app();
    set_input(&mut app, "current", 3);
    history(&mut app, &["old"]);
    app.input.history_index = Some(0);
    app.apply_input_edit(KeyCode::Down);
    assert_eq!(app.input.history_index, None);
}

#[test]
fn home_end_line_aware() {
    let mut app = app();
    set_input(&mut app, "hello\nworld", 8);
    app.apply_input_edit(KeyCode::Home);
    assert_eq!(app.input.cursor(), 6);
    app.apply_input_edit(KeyCode::End);
    assert_eq!(app.input.cursor(), 11);
}

#[test]
fn alt_enter_inserts_newline() {
    let mut app = app();
    app.mode = InputMode::Insert;
    set_input(&mut app, "hello", 5);
    app.handle_insert_key(KeyModifiers::alt(), KeyCode::Enter, NOW, 0);
    assert_eq!(buffer(&app), "hello\n");
    assert_eq!(app.input.cursor(), 6);
}

#[test]
fn enter_sends_multiline_message() {
    let mut app = app();
    app.mode = InputMode::Insert;
    activate(&mut app, "+1", "Alice", false);
    set_input(&mut app, "hello\nworld", 11);
    let result = app.handle_insert_key(KeyModifiers::none(), KeyCode::Enter, NOW, 0);
    match result {
        Some(SendRequest::Message { recipient, body, .. }) => {
            assert_eq!(recipient, "+1");
            assert_eq!(body, "hello\nworld");
        }
        _ => panic!("nothing was sent"),
    }
    assert!(buffer(&app).is_empty());
}

#[test]
fn paste_normalizes_line_endings() {
    let mut app = app();
    app.mode = InputMode::Insert;
    app.handle_paste("hello\r\nworld\rfoo".to_string(), 0);
    assert_eq!(buffer(&app), "hello\nworld\nfoo");
}

#[test]
fn paste_text_inserts_into_input_buffer() {
    let mut app = app();
    app.mode = InputMode::Insert;
    app.active_conversation = Some("test-conv".to_string());
    app.handle_paste_text("hello world", 0);
    assert_eq!(buffer(&app), "hello world");
}

#[test]
fn paste_file_path_inserts_as_text() {
    let mut app = app();
    app.mode = InputMode::Insert;
    app.active_conversation = Some("test-conv".to_string());
    app.handle_paste_text("/home/me/Cargo.toml", 0);
    assert!(app.pending.attachment.is_none());
    assert_eq!(buffer(&app), "/home/me/Cargo.toml");
}

#[test]
fn paste_empty_text_shows_status_message() {
    let mut app = app();
    app.active_conversation = Some("test-conv".to_string());
    app.handle_paste_text("   ", 0);
    assert!(app.status_message.contains("empty"));
    assert!(app.pending.attachment.is_none());
    assert!(buffer(&app).is_empty());
}

#[test]
fn paste_command_without_active_conversation_sets_error() {
    let mut app = app();
    app.handle_paste_command();
    assert!(app.status_message.contains("No active conversation"));
}

#[test]
fn paste_clipboard_image_becomes_attachment() {
    let mut app = app();
    app.active_conversation = Some("test-conv".to_string());
    app.image_pasted("/tmp/paste/clipboard_1.png".to_string(), "clipboard_1.png");
    assert_eq!(app.pending.attachment.as_deref(), Some("/tmp/paste/clipboard_1.png"));
}

#[test]
fn backspace_at_zero_clears_pending_attachment() {
    let mut app = app();
    app.pending.attachment = Some("/tmp/photo.jpg".to_string());
    app.apply_input_edit(KeyCode::Backspace);
    assert!(app.pending.attachment.is_none());
}

#[test]
fn empty_text_with_attachment_sends() {
    let mut app = app();
    activate(&mut app, "+1", "Alice", false);
    app.pending.attachment = Some("/tmp/photo.jpg".to_string());
    let result = app.handle_input(NOW);
    assert!(result.is_some());
    assert!(app.pending.attachment.is_none());
}

#[test]
fn clears_attachment_on_next_conversation() {
    let mut app = app();
    activate(&mut app, "+1", "Alice", false);
    app.pending.attachment = Some("/tmp/photo.jpg".to_string());
    app.get_or_create_conversation("+2", "Bob", false);
    app.next_conversation();
    assert!(app.pending.attachment.is_none());
}

#[test]
fn clears_attachment_on_part_command() {
    let mut app = app();
    activate(&mut app, "+1", "Alice", false);
    app.pending.attachment = Some("/tmp/photo.jpg".to_string());
    set_input(&mut app, "/part", 5);
    app.handle_input(NOW);
    assert!(app.pending.attachment.is_none());
}

#[test]
fn resolve_mentions_variants() {
    let cases: Vec<(Vec<(&str, &str)>, &str, Vec<(usize, usize, &str)>, &str, Vec<&str>)> = vec![
        (
            vec![("uuid-alice", "Alice")],
            "\u{FFFC} check this out",
            vec![(0, 1, "uuid-alice")],
            "@Alice check this out",
            vec!["@Alice"],
        ),
        (
            vec![("uuid-alice", "Alice"), ("uuid-bob", "Bob")],
            "\u{FFFC} and \u{FFFC} should join",
            vec![(0, 1, "uuid-alice"), (6, 1, "uuid-bob")],
            "@Alice and @Bob should join",
            vec!["@Alice", "@Bob"],
        ),
        (
            vec![],
            "\u{FFFC} said hi",
            vec![(0, 1, "abcdef12-3456")],
            "@abcdef12 said hi",
            vec!["@abcdef12"],
        ),
        (vec![], "no mentions here", vec![], "no mentions here", vec![]),
    ];
    for (names, body, data, expected_body, expected_tags) in cases {
        let mut app = app();
        for (uuid, name) in names {
            app.store.uuid_to_name.insert(uuid.to_string(), name.to_string());
        }
        let mentions: Vec<Mention> = data
            .iter()
            .map(|(start, length, uuid)| Mention { start: *start, length: *length, uuid: uuid.to_string() })
            .collect();
        let (resolved, ranges) = app.store.resolve_mentions(body, &mentions);
        assert_eq!(resolved, expected_body);
        assert_eq!(ranges.len(), expected_tags.len());
        for (range, tag) in ranges.iter().zip(expected_tags.iter()) {
            assert_eq!(&resolved[range.0..range.1], *tag);
        }
    }
}

#[test]
fn mention_autocomplete_in_direct_chat() {
    let mut app = app();
    activate(&mut app, "+1", "Alice", false);
    know(&mut app, "+1", "Alice");
    set_input(&mut app, "@Al", 3);
    app.update_autocomplete();
    assert!(app.is_open(Overlay::Autocomplete));
    assert_eq!(app.autocomplete.mode, AutocompleteMode::Mention);
    assert_eq!(app.autocomplete.mention_candidates.len(), 1);
    assert_eq!(app.autocomplete.mention_candidates[0].1, "Alice");
}

#[test]
fn mention_autocomplete_in_group() {
    let mut app = app();
    app.store.groups.insert("g1".to_string(), group("g1", "Test Group", &["+1", "+2"]));
    know(&mut app, "+1", "Alice");
    know(&mut app, "+2", "Bob");
    activate(&mut app, "g1", "Test Group", true);
    set_input(&mut app, "@Al", 3);
    app.update_autocomplete();
    assert!(app.is_open(Overlay::Autocomplete));
    assert_eq!(app.autocomplete.mode, AutocompleteMode::Mention);
    assert_eq!(app.autocomplete.mention_candidates.len(), 1);
    assert_eq!(app.autocomplete.mention_candidates[0].1, "Alice");
}

#[test]
fn apply_mention_autocomplete() {
    let mut app = app();
    app.store.groups.insert("g1".to_string(), group("g1", "Test Group", &["+1"]));
    know(&mut app, "+1", "Alice");
    app.store.number_to_uuid.insert("+1".to_string(), "uuid-alice".to_string());
    activate(&mut app, "g1", "Test Group", true);
    set_input(&mut app, "Hey @Al", 7);
    app.update_autocomplete();
    assert!(app.is_open(Overlay::Autocomplete));
    app.apply_autocomplete();
    assert_eq!(buffer(&app), "Hey @Alice ");
    assert_eq!(app.autocomplete.pending_mentions.len(), 1);
    assert_eq!(app.autocomplete.pending_mentions[0].0, "Alice");
    assert_eq!(app.autocomplete.pending_mentions[0].1.as_deref(), Some("uuid-alice"));
}

#[test]
fn the_place_of_a_mention_counts_bytes() {
    let mut app = app();
    activate(&mut app, "+1", "Alice", false);
    know(&mut app, "+1", "Alice");
    app.input.before = "\u{1f600} \u{e9}t\u{e9} @Al".to_string();
    app.input.after = " ok".to_string();
    app.update_autocomplete();
    assert_eq!(app.autocomplete.mention_trigger_pos, 11);
    app.apply_autocomplete();
    assert_eq!(app.input.before, "\u{1f600} \u{e9}t\u{e9} @Alice ");
    assert_eq!(buffer(&app), "\u{1f600} \u{e9}t\u{e9} @Alice  ok");
}

#[test]
fn prepare_outgoing_mentions() {
    let mut app = app();
    app.autocomplete.pending_mentions = vec![("Alice".to_string(), Some("uuid-alice".to_string()))];
    let (wire, mentions) = app.prepare_outgoing_mentions("Hey @Alice what's up");
    assert_eq!(wire, "Hey \u{FFFC} what's up");
    assert_eq!(mentions.len(), 1);
    assert_eq!(mentions[0].0, 4);
    assert_eq!(mentions[0].1, "uuid-alice");
}

#[test]
fn prepare_outgoing_no_pending_mentions() {
    let app = app();
    let (wire, mentions) = app.prepare_outgoing_mentions("Hello world");
    assert_eq!(wire, "Hello world");
    assert!(mentions.is_empty());
}

#[test]
fn text_style_ranges_resolved_to_byte_offsets() {
    let app = app();
    let styles = vec![
        TextStyle { start: 6, length: 4, style: StyleType::Bold },
        TextStyle { start: 11, length: 5, style: StyleType::Italic },
    ];
    let resolved = app.store.resolve_text_styles("hello bold world", &styles, &vec![]);
    assert_eq!(resolved, vec![(6, 10, StyleType::Bold), (11, 16, StyleType::Italic)]);
}

#[test]
fn text_style_ranges_with_multibyte_chars() {
    let app = app();
    let styles = vec![TextStyle { start: 6, length: 4, style: StyleType::Bold }];
    let resolved = app.store.resolve_text_styles("Hi \u{1F600} bold", &styles, &vec![]);
    assert_eq!(resolved, vec![(8, 12, StyleType::Bold)]);
}

#[test]
fn text_style_ranges_with_mentions() {
    let mut app = app();
    app.store.uuid_to_name.insert("uuid-bob".to_string(), "Bob".to_string());
    let mentions = vec![Mention { start: 0, length: 1, uuid: "uuid-bob".to_string() }];
    let styles = vec![TextStyle { start: 5, length: 4, style: StyleType::Strikethrough }];
    let resolved = app.store.resolve_text_styles("@Bob is bold", &styles, &mentions);
    assert_eq!(resolved, vec![(8, 12, StyleType::Strikethrough)]);
}

#[test]
fn text_style_ranges_empty_styles() {
    let app = app();
    assert!(app.store.resolve_text_styles("hello world", &vec![], &vec![]).is_empty());
}

#[test]
fn group_menu_items_in_group() {
    let mut app = app();
    activate(&mut app, "g1", "Family", true);
    let items = app.group_menu_items();
    assert_eq!(items.len(), 5);
    assert_eq!(items[0].label, "Members");
    assert_eq!(items[items.len() - 1].label, "Leave");
}

#[test]
fn group_menu_items_not_in_group() {
    let mut app = app();
    activate(&mut app, "+1", "Alice", false);
    let items = app.group_menu_items();
    assert_eq!(items.len(), 1);
    assert_eq!(items[0].label, "Create group");
}

#[test]
fn group_menu_items_no_conversation() {
    let app = app();
    let items = app.group_menu_items();
    assert_eq!(items.len(), 1);
    assert_eq!(items[0].label, "Create group");
}

#[test]
fn group_add_filter_excludes_existing_members() {
    let mut app = app();
    activate(&mut app, "g1", "Family", true);
    app.store.groups.insert("g1".to_string(), group("g1", "Family", &["+1", "+2"]));
    know(&mut app, "+1", "Alice");
    know(&mut app, "+2", "Bob");
    know(&mut app, "+3", "Charlie");
    app.refresh_group_add_filter();
    assert_eq!(app.group_menu.filtered.len(), 1);
    assert_eq!(app.group_menu.filtered[0].0, "+3");
}

#[test]
fn group_remove_filter_excludes_self() {
    let mut app = app();
    activate(&mut app, "g1", "Family", true);
    app.store.groups.insert("g1".to_string(), group("g1", "Family", &["+10000000000", "+1", "+2"]));
    know(&mut app, "+1", "Alice");
    know(&mut app, "+2", "Bob");
    app.refresh_group_remove_filter();
    let phones: Vec<&str> = app.group_menu.filtered.iter().map(|(p, _)| p.as_str()).collect();
    assert_eq!(phones.len(), 2);
    assert!(!phones.contains(&"+10000000000"));
    assert!(phones.contains(&"+1"));
    assert!(phones.contains(&"+2"));
}

#[test]
fn group_menu_state_transitions() {
    let mut app = app();
    activate(&mut app, "g1", "Family", true);
    app.store.groups.insert("g1".to_string(), group("g1", "Family", &["+1"]));
    set_input(&mut app, "/group", 6);
    app.handle_input(NOW);
    assert_eq!(app.group_menu.state, Some(GroupMenuState::Menu));
    app.handle_group_menu_key(KeyCode::Char('m'));
    assert_eq!(app.group_menu.state, Some(GroupMenuState::Members));
    app.handle_group_menu_key(KeyCode::Esc);
    assert_eq!(app.group_menu.state, Some(GroupMenuState::Menu));
    app.handle_group_menu_key(KeyCode::Char('l'));
    assert_eq!(app.group_menu.state, Some(GroupMenuState::LeaveConfirm));
    app.handle_group_menu_key(KeyCode::Char('n'));
    assert_eq!(app.group_menu.state, Some(GroupMenuState::Menu));
    app.handle_group_menu_key(KeyCode::Esc);
    assert_eq!(app.group_menu.state, None);
}

#[test]
fn group_leave_produces_send_request() {
    let mut app = app();
    activate(&mut app, "g1", "Family", true);
    app.store.groups.insert("g1".to_string(), group("g1", "Family", &[]));
    app.group_menu.state = Some(GroupMenuState::LeaveConfirm);
    let req = app.handle_group_menu_key(KeyCode::Char('y'));
    assert!(matches!(req, Some(SendRequest::LeaveGroup { group_id }) if group_id == "g1"));
    assert_eq!(app.group_menu.state, None);
}

#[test]
fn group_create_produces_send_request() {
    let mut app = app();
    app.group_menu.state = Some(GroupMenuState::Create);
    app.group_menu.input = "New Group".to_string();
    let req = app.handle_group_menu_key(KeyCode::Enter);
    assert!(matches!(req, Some(SendRequest::CreateGroup { name }) if name == "New Group"));
    assert_eq!(app.group_menu.state, None);
}

#[test]
fn group_rename_produces_send_request() {
    let mut app = app();
    activate(&mut app, "g1", "Old Name", true);
    app.group_menu.state = Some(GroupMenuState::Rename);
    app.group_menu.input = "New Name".to_string();
    let req = app.handle_group_menu_key(KeyCode::Enter);
    assert!(matches!(
        req,
        Some(SendRequest::RenameGroup { group_id, name }) if group_id == "g1" && name == "New Name"
    ));
    assert_eq!(app.group_menu.state, None);
}
