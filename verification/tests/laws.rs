//! What holds of the client in general, on single cases.
use siggy::app::{
    App, Effect, Flag, ImageProtocol, Overlay, SearchResult, SearchState, SendRequest, Setting,
};
use siggy::conversation_store::{new_message, Conversation};
use siggy::emoji_picker::{pick_emojis, CATEGORIES};
use siggy::events::{drop_reactions, set_reaction};
use siggy::file_picker::{join_path, parent_path};
use siggy::input::{format_compact_duration, parse_duration_to_seconds};
use siggy::keybindings::{action_label, all_actions};
use siggy::keys::{format_for_file, format_key_combo, parse_key_combo, KeyCode, KeyCombo, KeyModifiers};
use siggy::mentions::resolve_mentions_with;
use siggy::messages::path_to_file_uri;
use siggy::offsets::{next_char_pos, prev_char_pos};
use siggy::order::sort_by_lower_second;
use siggy::signal::{
    Attachment, Contact, Group, Mention, MessageStatus, PollData, PollOption, Reaction,
    SignalEvent, SignalMessage,
};
use siggy::startup::{file_uri_to_path, Startup};
use siggy::strmap::StrMap;
use siggy::text::{format_i64, parse_i64, trim};
use siggy::utf16::{decode_lossy, encode};

const NOW: i64 = 1_700_000_000_000;

fn app() -> App {
    let mut app = App::new(Startup {
        account: "+10000000000".to_string(),
        home: "/home/me".to_string(),
        image_protocol: ImageProtocol::Halfblock,
        paste_temp_path: "/tmp/paste".to_string(),
        themes: vec![],
        key_profiles: vec![],
        settings_profiles: vec![],
    });
    app.set_connected();
    app
}

fn conv<'a>(app: &'a App, id: &str) -> &'a Conversation {
    app.store.conversations.get(id).unwrap()
}

fn activate(app: &mut App, id: &str, name: &str, is_group: bool) {
    app.get_or_create_conversation(id, name, is_group);
    app.active_conversation = Some(id.to_string());
}

fn add(app: &mut App, id: &str, sender: &str, ts: i64, body: &str) {
    let m = new_message(sender.to_string(), "+1".to_string(), ts, body.to_string());
    app.store.conversations.get_mut(id).unwrap().messages.push(m);
}

fn typed(app: &mut App, text: &str) {
    app.input.before = text.to_string();
    app.input.after = String::new();
}

fn command(app: &mut App, text: &str) -> Option<SendRequest> {
    typed(app, text);
    app.handle_input(NOW)
}

fn message(source: &str, body: &str, ts: i64) -> SignalMessage {
    SignalMessage {
        source: source.to_string(),
        source_name: None,
        source_uuid: None,
        timestamp_ms: ts,
        body: Some(body.to_string()),
        attachments: vec![],
        group_id: None,
        group_name: None,
        is_outgoing: false,
        destination: None,
        mentions: vec![],
        text_styles: vec![],
        quote: None,
        expires_in_seconds: 0,
        previews: vec![],
    }
}

fn receive(app: &mut App, m: SignalMessage) {
    app.handle_signal_event(SignalEvent::MessageReceived(m), NOW, 0);
}

fn contact(number: &str, name: &str) -> Contact {
    Contact { number: number.to_string(), name: Some(name.to_string()), uuid: None }
}

fn sidebar_lists_all(app: &App) {
    let mut order = app.store.conversation_order.clone();
    let mut ids: Vec<String> =
        app.store.conversations.entries.iter().map(|(id, _)| id.clone()).collect();
    order.sort();
    ids.sort();
    assert_eq!(order, ids);
    ids.dedup();
    assert_eq!(ids.len(), order.len());
}

#[test]
fn sidebar_lists_every_conversation_once() {
    let mut app = app();
    receive(&mut app, message("+1", "a", 1));
    receive(&mut app, message("+2", "b", 2));
    receive(&mut app, message("+1", "c", 3));
    sidebar_lists_all(&app);
    assert_eq!(app.store.conversation_order[0], "+1");
    app.handle_signal_event(
        SignalEvent::GroupList(vec![Group {
            id: "g".to_string(),
            name: "Group".to_string(),
            members: vec![],
            member_uuids: vec![],
        }]),
        NOW,
        0,
    );
    app.handle_signal_event(SignalEvent::ContactList(vec![contact("+1", "Alice")]), NOW, 0);
    command(&mut app, "/join +3");
    sidebar_lists_all(&app);
    assert_eq!(app.store.conversations.len(), 4);
    app.active_conversation = Some("+2".to_string());
    app.handle_message_request_key(KeyCode::Char('d'));
    sidebar_lists_all(&app);
    assert_eq!(app.store.conversations.len(), 3);
}

#[test]
fn muted_conversations_are_silent() {
    let mut app = app();
    app.store.contact_names.insert("+1".to_string(), "Alice".to_string());
    app.settings.insert(Setting::DesktopNotifications);
    app.muted.insert("+1".to_string());
    receive(&mut app, message("+1", "a", 1));
    assert!(!app.has_flag(Flag::Bell));
    assert!(app.effects.is_empty());
    app.muted.remove("+1");
    receive(&mut app, message("+1", "b", 2));
    assert!(app.has_flag(Flag::Bell));
    assert!(matches!(
        &app.effects[..],
        [Effect::Notify { title, body }] if title == "Alice" && body == "b"
    ));
}

#[test]
fn own_messages_are_silent_and_read() {
    let mut app = app();
    let mut m = message("+10000000000", "a", 1);
    m.is_outgoing = true;
    m.destination = Some("+1".to_string());
    receive(&mut app, m);
    assert!(!app.has_flag(Flag::Bell));
    assert_eq!(conv(&app, "+1").unread, 0);
}

#[test]
fn moving_through_the_sidebar_comes_back() {
    let mut app = app();
    for (id, name) in [("+1", "A"), ("+2", "B"), ("+3", "C")] {
        app.get_or_create_conversation(id, name, false);
    }
    app.active_conversation = Some("+3".to_string());
    app.next_conversation();
    assert_eq!(app.active_conversation.as_deref(), Some("+1"));
    app.prev_conversation();
    assert_eq!(app.active_conversation.as_deref(), Some("+3"));
}

#[test]
fn sidebar_stays_within_its_bounds() {
    let mut app = app();
    app.resize_sidebar(-100);
    assert_eq!(app.sidebar.width, 14);
    app.resize_sidebar(100);
    assert_eq!(app.sidebar.width, 40);
    app.resize_sidebar(-2);
    assert_eq!(app.sidebar.width, 38);
}

#[test]
fn reacting_twice_takes_the_reaction_back() {
    let mut app = app();
    activate(&mut app, "+1", "Alice", false);
    add(&mut app, "+1", "Alice", 1000, "hi");
    let first = app.react_with("\u{1f44d}");
    assert!(matches!(first, Some(SendRequest::Reaction { remove: false, .. })));
    assert_eq!(conv(&app, "+1").messages[0].reactions.len(), 1);
    let second = app.react_with("\u{1f44d}");
    assert!(matches!(second, Some(SendRequest::Reaction { remove: true, .. })));
    assert!(conv(&app, "+1").messages[0].reactions.is_empty());
}

#[test]
fn one_reaction_for_each_sender() {
    let mut v = vec![
        Reaction { emoji: "a".to_string(), sender: "Alice".to_string() },
        Reaction { emoji: "b".to_string(), sender: "Bob".to_string() },
    ];
    set_reaction(&mut v, "Alice", "c");
    assert_eq!(v.len(), 2);
    assert_eq!(v[0].emoji, "c");
    let rest = drop_reactions(&v, "Alice", None);
    assert_eq!(rest.len(), 1);
    assert_eq!(rest[0].sender, "Bob");
    assert_eq!(drop_reactions(&v, "Alice", Some("a")).len(), 2);
}

#[test]
fn muting_twice_leaves_it_as_it_was() {
    let mut app = app();
    activate(&mut app, "+1", "Alice", false);
    command(&mut app, "/mute");
    assert!(app.muted.contains("+1"));
    assert_eq!(app.status_message, "muted Alice");
    command(&mut app, "/mute");
    assert!(!app.muted.contains("+1"));
    assert_eq!(app.status_message, "unmuted Alice");
}

#[test]
fn muting_for_a_while_ends() {
    let mut app = app();
    activate(&mut app, "+1", "Alice", false);
    command(&mut app, "/mute 1h");
    assert!(app.muted.contains("+1"));
    assert!(!app.end_mute(NOW + 3_599_999));
    assert!(app.end_mute(NOW + 3_600_000));
    assert!(!app.muted.contains("+1"));
    assert!(!app.end_mute(NOW + 3_600_000));
}

#[test]
fn mute_needs_a_conversation_and_a_duration() {
    let mut app = app();
    command(&mut app, "/mute");
    assert_eq!(app.status_message, "no active conversation to mute");
    activate(&mut app, "+1", "Alice", false);
    command(&mut app, "/mute soon");
    assert!(app.status_message.contains("invalid duration 'soon'"));
    command(&mut app, "/mute off");
    assert!(app.status_message.contains("use /mute to unmute"));
    assert!(!app.muted.contains("+1"));
}

#[test]
fn bell_is_switched_and_switched_back() {
    let mut app = app();
    assert!(app.is_on(Setting::NotifyDirect) && app.is_on(Setting::NotifyGroup));
    command(&mut app, "/bell");
    assert!(!app.is_on(Setting::NotifyDirect) && !app.is_on(Setting::NotifyGroup));
    assert_eq!(app.status_message, "notifications off");
    command(&mut app, "/bell");
    assert!(app.is_on(Setting::NotifyDirect) && app.is_on(Setting::NotifyGroup));
    command(&mut app, "/bell group");
    assert!(app.is_on(Setting::NotifyDirect) && !app.is_on(Setting::NotifyGroup));
    command(&mut app, "/bell nobody");
    assert!(app.status_message.contains("nobody"));
}

#[test]
fn backspace_takes_back_what_was_typed() {
    let mut app = app();
    typed(&mut app, "h\u{e9}");
    app.input.after = "llo".to_string();
    app.apply_input_edit(KeyCode::Char('\u{1f600}'));
    assert_eq!(app.input.cursor(), 7);
    app.apply_input_edit(KeyCode::Backspace);
    assert_eq!(app.input.buffer(), "h\u{e9}llo");
    assert_eq!(app.input.cursor(), 3);
}

#[test]
fn going_through_words_keeps_the_text() {
    let mut app = app();
    app.input.before = String::new();
    app.input.after = "one  two three".to_string();
    let keys = KeyModifiers::none();
    app.handle_normal_key(keys, KeyCode::Char('w'), NOW);
    assert_eq!(app.input.cursor(), 5);
    app.handle_normal_key(keys, KeyCode::Char('w'), NOW);
    assert_eq!(app.input.cursor(), 9);
    app.handle_normal_key(keys, KeyCode::Char('b'), NOW);
    assert_eq!(app.input.cursor(), 5);
    assert_eq!(app.input.buffer(), "one  two three");
}

#[test]
fn quitting_with_text_takes_two_requests() {
    let mut app = app();
    typed(&mut app, "draft");
    app.handle_global_key(KeyModifiers::control(), KeyCode::Char('c'));
    assert!(!app.has_flag(Flag::ShouldQuit));
    app.handle_global_key(KeyModifiers::control(), KeyCode::Char('c'));
    assert!(app.has_flag(Flag::ShouldQuit));
}

#[test]
fn scrolling_up_and_down_comes_back() {
    let mut app = app();
    app.scroll_up(7);
    assert_eq!(app.scroll.offset, 7);
    app.scroll_down(7);
    assert_eq!(app.scroll.offset, 0);
    app.scroll_down(3);
    assert_eq!(app.scroll.offset, 0);
}

#[test]
fn settings_are_flipped_one_by_one() {
    let mut app = app();
    let before: Vec<bool> = (0..17).map(|i| app.setting_value(i)).collect();
    app.toggle_setting(4);
    let after: Vec<bool> = (0..17).map(|i| app.setting_value(i)).collect();
    for i in 0..17 {
        assert_eq!(after[i] == before[i], i != 4);
    }
    app.toggle_setting(4);
    assert_eq!((0..17).map(|i| app.setting_value(i)).collect::<Vec<bool>>(), before);
}

#[test]
fn jumping_to_a_quote_and_back() {
    let mut app = app();
    activate(&mut app, "+1", "Alice", false);
    for i in 0..5 {
        add(&mut app, "+1", "Alice", 1000 * (i + 1), "text");
    }
    let last = app.store.conversations.get_mut("+1").unwrap().messages.last_mut().unwrap();
    last.quote = Some(siggy::conversation_store::Quote {
        author: "Alice".to_string(),
        body: "text".to_string(),
        timestamp_ms: 2000,
        author_id: "+1".to_string(),
    });
    app.jump_to_quote();
    assert_eq!(app.scroll.focused_index, Some(1));
    app.jump_back();
    assert_eq!(app.scroll.focused_index, None);
    assert_eq!(app.scroll.offset, 0);
}

#[test]
fn expired_messages_are_swept() {
    let mut app = app();
    app.get_or_create_conversation("+1", "Alice", false);
    let mut m = message("+1", "secret", 1);
    m.expires_in_seconds = 10;
    receive(&mut app, m);
    receive(&mut app, message("+1", "plain", 2));
    assert_eq!(app.expiring_msg_count, 1);
    assert!(!app.sweep_expired_messages(NOW + 10_000, 0));
    assert!(app.sweep_expired_messages(NOW + 10_001, 0));
    assert_eq!(conv(&app, "+1").messages.len(), 1);
    assert_eq!(conv(&app, "+1").messages[0].body, "plain");
    assert!(!app.sweep_expired_messages(NOW + 10_001, 0));
}

#[test]
fn votes_are_counted_once_for_each_voter() {
    let mut app = app();
    app.get_or_create_conversation("+1", "Alice", false);
    add(&mut app, "+1", "Alice", 5000, "poll");
    for option in [0, 1] {
        app.handle_signal_event(
            SignalEvent::PollVoteReceived {
                conv_id: "+1".to_string(),
                target_timestamp: 5000,
                voter: "+2".to_string(),
                voter_name: None,
                option_indexes: vec![option],
                vote_count: 1,
            },
            NOW,
            0,
        );
    }
    let votes = &conv(&app, "+1").messages[0].poll_votes;
    assert_eq!(votes.len(), 1);
    assert_eq!(votes[0].option_indexes, vec![1]);
}

#[test]
fn single_choice_polls_keep_one_mark() {
    let mut app = app();
    activate(&mut app, "+1", "Alice", false);
    add(&mut app, "+1", "Alice", 5000, "poll");
    let options = ["A", "B", "C"];
    let m = &mut app.store.conversations.get_mut("+1").unwrap().messages[0];
    m.poll_data = Some(PollData {
        question: "?".to_string(),
        options: options
            .iter()
            .zip(0i64..)
            .map(|(text, id)| PollOption { id, text: text.to_string() })
            .collect(),
        allow_multiple: false,
        closed: false,
    });
    app.begin_vote();
    assert!(app.is_open(Overlay::PollVote));
    app.handle_poll_vote_key(KeyCode::Char(' '));
    app.handle_poll_vote_key(KeyCode::Down);
    app.handle_poll_vote_key(KeyCode::Char(' '));
    assert_eq!(app.poll.selections, vec![false, true, false]);
    let request = app.handle_poll_vote_key(KeyCode::Enter);
    assert!(matches!(
        request,
        Some(SendRequest::PollVote { ref option_indexes, .. }) if *option_indexes == vec![1]
    ));
    assert!(!app.is_open(Overlay::PollVote));
}

#[test]
fn only_own_messages_can_be_edited_and_deleted_for_all() {
    let mut app = app();
    activate(&mut app, "+1", "Alice", false);
    add(&mut app, "+1", "Alice", 1000, "theirs");
    app.begin_edit();
    assert!(app.editing_message.is_none());
    app.ask_deletion();
    assert!(app.is_open(Overlay::DeleteConfirm));
    assert!(app.handle_delete_confirm_key(KeyCode::Char('y')).is_none());
    assert!(conv(&app, "+1").messages[0].is_deleted);

    add(&mut app, "+1", "you", 2000, "mine");
    app.begin_edit();
    assert_eq!(app.editing_message, Some((2000, "+1".to_string())));
    assert_eq!(app.input.buffer(), "mine");
    app.editing_message = None;
    app.ask_deletion();
    let request = app.handle_delete_confirm_key(KeyCode::Char('y'));
    assert!(matches!(request, Some(SendRequest::RemoteDelete { target_timestamp: 2000, .. })));
}

#[test]
fn edits_are_sent_for_the_edited_message() {
    let mut app = app();
    activate(&mut app, "+1", "Alice", false);
    add(&mut app, "+1", "you", 2000, "mine");
    app.begin_edit();
    let request = command(&mut app, "mine, better");
    assert!(matches!(
        request,
        Some(SendRequest::Edit { edit_timestamp: 2000, ref body, .. }) if body == "mine, better"
    ));
    assert_eq!(conv(&app, "+1").messages[0].body, "mine, better");
    assert!(conv(&app, "+1").messages[0].is_edited);
    assert!(app.editing_message.is_none());
}

#[test]
fn pins_are_set_for_a_time_and_taken_off() {
    let mut app = app();
    activate(&mut app, "+1", "Alice", false);
    add(&mut app, "+1", "Alice", 1000, "hello");
    assert!(app.execute_pin_toggle(NOW).is_none());
    assert!(app.is_open(Overlay::PinDuration));
    app.handle_pin_duration_key(KeyCode::Down, NOW);
    let request = app.handle_pin_duration_key(KeyCode::Enter, NOW);
    assert!(matches!(request, Some(SendRequest::Pin { pin_duration: 86400, .. })));
    let messages = &conv(&app, "+1").messages;
    assert!(messages[0].is_pinned);
    assert_eq!(messages[1].body, "you pinned a message");
    app.scroll.focused_index = Some(0);
    let request = app.execute_pin_toggle(NOW + 1);
    assert!(matches!(request, Some(SendRequest::Unpin { target_timestamp: 1000, .. })));
    assert!(!conv(&app, "+1").messages[0].is_pinned);
}

#[test]
fn files_go_with_their_conversation() {
    let mut app = app();
    activate(&mut app, "+1", "Alice", false);
    app.pending.attachment = Some("/tmp/a.png".to_string());
    command(&mut app, "/join +2");
    assert!(app.pending.attachment.is_none());
}

#[test]
fn paths_go_into_uris_and_back() {
    for path in ["/home/me/a b.png", "/tmp/x.jpg"] {
        assert_eq!(file_uri_to_path(&path_to_file_uri(path)), path);
    }
    assert_eq!(path_to_file_uri("/tmp/x.jpg"), "file:///tmp/x.jpg");
}

#[test]
fn directories_are_entered_and_left() {
    assert_eq!(join_path("/home/me", "docs"), "/home/me/docs");
    assert_eq!(parent_path("/home/me/docs").as_deref(), Some("/home/me"));
    assert_eq!(parent_path("/home").as_deref(), Some("/"));
    assert_eq!(parent_path("/"), None);
}

#[test]
fn characters_are_stepped_over_whole() {
    let text = "a\u{e9}\u{1f600}z";
    let mut pos = 0;
    for expected in [1, 3, 7, 8, 8] {
        let next = next_char_pos(text, pos);
        assert_eq!(next, expected);
        pos = next;
    }
    assert_eq!(prev_char_pos(text, 7), 3);
    assert_eq!(prev_char_pos(text, 0), 0);
}

#[test]
fn utf16_units_read_back() {
    let text = "h\u{e9}\u{1f600}!";
    let units = encode(text);
    assert_eq!(units, text.encode_utf16().collect::<Vec<u16>>());
    assert_eq!(decode_lossy(&units), text);
    assert_eq!(decode_lossy(&vec![0x68, 0xD800, 0x21]), "h\u{FFFD}!");
}

#[test]
fn integers_and_durations_read_back() {
    for n in [0, 7, -7, i64::MAX, i64::MIN] {
        assert_eq!(parse_i64(&format_i64(n)), Some(n));
    }
    assert_eq!(parse_i64("+5"), Some(5));
    assert_eq!(parse_i64("9223372036854775808"), None);
    assert_eq!(parse_i64(""), None);
    for seconds in [30, 300, 7200, 86400, 1_209_600] {
        assert_eq!(parse_duration_to_seconds(&format_compact_duration(seconds)), Ok(seconds));
    }
}

#[test]
fn trimming_is_done_once() {
    assert_eq!(trim(" \t\u{3000}a b\n "), "a b");
    assert_eq!(trim(&trim("  x ")), "x");
    assert_eq!(trim(" \n "), "");
}

#[test]
fn names_are_sorted_without_regard_to_case() {
    let list = vec![
        ("1".to_string(), "bob".to_string()),
        ("2".to_string(), "Alice".to_string()),
        ("3".to_string(), "\u{c9}mile".to_string()),
        ("4".to_string(), "\u{e9}mile".to_string()),
    ];
    let sorted: Vec<String> = sort_by_lower_second(list).into_iter().map(|(id, _)| id).collect();
    assert_eq!(sorted, vec!["2", "1", "3", "4"]);
}

#[test]
fn maps_hold_what_was_put_last() {
    let mut map: StrMap<u32> = StrMap::new();
    map.insert("a".to_string(), 1);
    map.insert("b".to_string(), 2);
    map.insert("a".to_string(), 3);
    map.insert_new("b".to_string(), 4);
    assert_eq!(map.len(), 2);
    assert_eq!(map.get("a"), Some(&3));
    assert_eq!(map.get("b"), Some(&2));
    assert_eq!(map.remove("a"), Some(3));
    assert_eq!(map.get("a"), None);
    assert_eq!(map.remove("a"), None);
}

#[test]
fn categories_do_not_matter_with_a_filter() {
    let rows = vec![(("A".to_string(), None, "grin".to_string()), (0, None))];
    for category in 0..CATEGORIES.len() {
        assert_eq!(pick_emojis(&rows, "gri", category).len(), 1);
    }
}

#[test]
fn statuses_keep_their_numbers() {
    for n in 1..=6 {
        assert_eq!(MessageStatus::from_i32(n).unwrap().to_i32(), n);
    }
    assert_eq!(MessageStatus::from_i32(0), None);
    assert_eq!(MessageStatus::from_i32(7), None);
}

#[test]
fn receipts_in_any_letter_case_count_once() {
    let mut app = app();
    app.get_or_create_conversation("+1", "Alice", false);
    add(&mut app, "+1", "you", 1000, "hi");
    app.store.conversations.get_mut("+1").unwrap().messages[0].status = Some(MessageStatus::Sent);
    app.jobs.clear();
    for _ in 0..2 {
        app.handle_receipt("+1", "delivery", &vec![1000]);
    }
    assert_eq!(conv(&app, "+1").messages[0].status, Some(MessageStatus::Delivered));
    assert_eq!(app.jobs.len(), 1);
}

#[test]
fn candidates_go_round() {
    let mut app = app();
    typed(&mut app, "/");
    app.update_autocomplete();
    let last = app.autocomplete.len() - 1;
    app.handle_autocomplete_key(KeyCode::Up, NOW);
    assert_eq!(app.autocomplete.index, last);
    app.handle_autocomplete_key(KeyCode::Down, NOW);
    assert_eq!(app.autocomplete.index, 0);
}

#[test]
fn menus_offer_what_can_be_done() {
    let mut app = app();
    activate(&mut app, "+1", "Alice", false);
    add(&mut app, "+1", "Alice", 1000, "theirs");
    let hints: Vec<&str> = app.action_menu_items().iter().map(|i| i.key_hint).collect();
    assert!(hints.contains(&"q") && hints.contains(&"y") && !hints.contains(&"e"));
    add(&mut app, "+1", "you", 2000, "mine");
    let hints: Vec<&str> = app.action_menu_items().iter().map(|i| i.key_hint).collect();
    assert!(hints.contains(&"e"));
    app.store.conversations.get_mut("+1").unwrap().messages[1].is_system = true;
    app.scroll.focused_index = Some(1);
    let hints: Vec<&str> = app.action_menu_items().iter().map(|i| i.key_hint).collect();
    assert_eq!(hints, vec!["y"]);
}

#[test]
fn no_receipts_where_they_are_off() {
    let mut app = app();
    activate(&mut app, "+1", "Alice", false);
    app.settings.remove(Setting::SendReadReceipts);
    receive(&mut app, message("+1", "a", 1));
    assert!(app.pending.read_receipts.is_empty());
}

#[test]
fn late_messages_stay_unread_behind_the_marker() {
    let mut app = app();
    app.get_or_create_conversation("+1", "Alice", false);
    for ts in [1000, 2000, 3000] {
        add(&mut app, "+1", "Alice", ts, "x");
    }
    app.store.last_read_index.insert("+1".to_string(), 2);
    let early = new_message("Alice".to_string(), "+1".to_string(), 500, "early".to_string());
    app.place_message("+1", early);
    assert_eq!(*app.store.last_read_index.get("+1").unwrap(), 3);
    let late = new_message("Alice".to_string(), "+1".to_string(), 9000, "late".to_string());
    app.place_message("+1", late);
    assert_eq!(*app.store.last_read_index.get("+1").unwrap(), 3);
    let times: Vec<i64> = conv(&app, "+1").messages.iter().map(|m| m.timestamp_ms).collect();
    assert_eq!(times, vec![500, 1000, 2000, 3000, 9000]);
}

#[test]
fn letters_of_the_group_menu_open_its_parts() {
    let mut app = app();
    activate(&mut app, "g", "Group", true);
    app.store.conversations.get_mut("g").unwrap().is_group = true;
    let hints: Vec<&str> = app.group_menu_items().iter().map(|i| i.key_hint).collect();
    assert_eq!(hints, vec!["m", "a", "r", "n", "l"]);
    app.active_conversation = None;
    let hints: Vec<&str> = app.group_menu_items().iter().map(|i| i.key_hint).collect();
    assert_eq!(hints, vec!["c"]);
}

#[test]
fn blocking_is_taken_back() {
    let mut app = app();
    activate(&mut app, "+1", "Alice", false);
    assert!(matches!(command(&mut app, "/block"), Some(SendRequest::Block { .. })));
    assert!(app.blocked.contains("+1"));
    assert!(matches!(command(&mut app, "/unblock"), Some(SendRequest::Unblock { .. })));
    assert!(!app.blocked.contains("+1"));
}

#[test]
fn letters_outside_ascii_are_folded() {
    let mut app = app();
    app.get_or_create_conversation("+1", "\u{c9}mile", false);
    command(&mut app, "/join \u{e9}MI");
    assert_eq!(app.active_conversation.as_deref(), Some("+1"));
}

#[test]
fn a_mention_is_shown_as_it_was_typed() {
    let mut app = app();
    app.autocomplete.pending_mentions =
        vec![("Zo\u{eb}".to_string(), Some("uuid-z".to_string()))];
    let typed = "\u{1f600} hi @Zo\u{eb}, there";
    let (wire, mentions) = app.prepare_outgoing_mentions(typed);
    assert_eq!(wire, "\u{1f600} hi \u{fffc}, there");
    assert_eq!(mentions, vec![(6, "uuid-z".to_string())]);
    let mut names: StrMap<String> = StrMap::new();
    names.insert("uuid-z".to_string(), "Zo\u{eb}".to_string());
    let kept: Vec<Mention> =
        mentions.into_iter().map(|(start, uuid)| Mention { start, length: 1, uuid }).collect();
    let (shown, ranges) = resolve_mentions_with(&wire, &kept, &names);
    assert_eq!(shown, typed);
    assert_eq!(&shown[ranges[0].0..ranges[0].1], "@Zo\u{eb}");
}

#[test]
fn formatted_combinations_are_read_back() {
    let shift_tab = KeyCombo { modifiers: KeyModifiers::shift(), code: KeyCode::BackTab };
    let page = KeyCombo { modifiers: KeyModifiers::alt(), code: KeyCode::PageDown };
    let function = KeyCombo { modifiers: KeyModifiers::control(), code: KeyCode::F(12) };
    let letter = KeyCombo { modifiers: KeyModifiers::none(), code: KeyCode::Char('?') };
    let capital = KeyCombo { modifiers: KeyModifiers::alt(), code: KeyCode::Char('\u{c9}') };
    for combo in [shift_tab, page, function, letter, capital] {
        let text = format_key_combo(&combo);
        assert_eq!(parse_key_combo(&text), Ok(combo));
        assert_eq!(parse_key_combo(&format_for_file(&combo)), Ok(combo));
    }
    let plus = KeyCombo { modifiers: KeyModifiers::none(), code: KeyCode::Char('+') };
    assert!(parse_key_combo(&format_key_combo(&plus)).is_err());
}

#[test]
fn mentions_past_the_end_have_no_range() {
    let names: StrMap<String> = StrMap::new();
    let far = Mention { start: 5, length: 1, uuid: "u".to_string() };
    let (body, ranges) = resolve_mentions_with("hi", &vec![far], &names);
    assert_eq!(body, "hi");
    assert!(ranges.is_empty());
    let near = Mention { start: 0, length: 1, uuid: "u".to_string() };
    let far = Mention { start: 9, length: 1, uuid: "u".to_string() };
    let (body, ranges) = resolve_mentions_with("\u{fffc} hi", &vec![far, near], &names);
    assert_eq!(body, "@u hi");
    assert_eq!(ranges, vec![(0, 2)]);
}

#[test]
fn only_a_change_of_order_is_told() {
    let mut app = app();
    for (id, name) in [("a", "A"), ("b", "B")] {
        app.get_or_create_conversation(id, name, false);
    }
    assert!(!app.store.move_conversation_to_top("a"));
    assert_eq!(app.store.conversation_order, vec!["a", "b"]);
    assert!(app.store.move_conversation_to_top("b"));
    assert_eq!(app.store.conversation_order, vec!["b", "a"]);
    assert!(!app.store.move_conversation_to_top("c"));
}

/// A client that knows Alice and Bob, in a group, with both of them completed in
/// the input.
fn mentioning() -> App {
    let mut app = app();
    activate(&mut app, "g", "Group", true);
    for (uuid, name) in [("uuid-a", "Alice"), ("uuid-b", "Bob")] {
        app.store.uuid_to_name.insert(uuid.to_string(), name.to_string());
        app.autocomplete.pending_mentions.push((name.to_string(), Some(uuid.to_string())));
    }
    app
}

fn take_contacts(app: &mut App) {
    let list = vec![contact("+7", "Carol")];
    app.handle_signal_event(SignalEvent::ContactList(list), NOW, 0);
}

#[test]
fn mentions_are_sent_where_their_placeholders_stand() {
    let app = mentioning();
    let (wire, mentions) = app.prepare_outgoing_mentions("hey @Alice and @Bob!");
    assert_eq!(wire, "hey \u{fffc} and \u{fffc}!");
    assert_eq!(mentions, vec![(4, "uuid-a".to_string()), (10, "uuid-b".to_string())]);
}

#[test]
fn sent_texts_stay_when_contacts_come() {
    let mut app = mentioning();
    app.pending.attachment = Some("/tmp/a.png".to_string());
    command(&mut app, "hey @Alice and @Bob!");
    let m = &conv(&app, "g").messages[0];
    assert_eq!(m.body, "[image: a.png] hey @Alice and @Bob!");
    assert_eq!(m.body_raw.as_deref(), Some("[image: a.png] hey \u{fffc} and \u{fffc}!"));
    assert_eq!(m.mentions.iter().map(|m| m.start).collect::<Vec<usize>>(), vec![19, 25]);
    app.jobs.clear();
    take_contacts(&mut app);
    assert_eq!(conv(&app, "g").messages[0].body, "[image: a.png] hey @Alice and @Bob!");
    assert!(app.jobs.is_empty());
}

#[test]
fn sent_texts_follow_a_new_name() {
    let mut app = mentioning();
    command(&mut app, "hey @Alice and @Bob!");
    let list =
        vec![Contact { uuid: Some("uuid-b".to_string()), ..contact("+8", "Bobby") }];
    app.handle_signal_event(SignalEvent::ContactList(list), NOW, 0);
    assert_eq!(conv(&app, "g").messages[0].body, "hey @Alice and @Bobby!");
}

#[test]
fn edited_and_deleted_texts_stay_when_contacts_come() {
    let mut app = mentioning();
    command(&mut app, "hey @Alice");
    app.begin_edit();
    app.autocomplete.pending_mentions = vec![("Bob".to_string(), Some("uuid-b".to_string()))];
    command(&mut app, "hello @Bob");
    assert_eq!(conv(&app, "g").messages[0].body_raw.as_deref(), Some("hello \u{fffc}"));
    take_contacts(&mut app);
    assert_eq!(conv(&app, "g").messages[0].body, "hello @Bob");
    app.handle_edit_received("g", NOW, "plain");
    take_contacts(&mut app);
    let m = &conv(&app, "g").messages[0];
    assert_eq!(m.body, "plain");
    assert!(m.mentions.is_empty() && m.mention_ranges.is_empty() && m.body_raw.is_none());

    let mut app = mentioning();
    command(&mut app, "hey @Alice");
    app.handle_remote_delete("g", NOW);
    take_contacts(&mut app);
    let m = &conv(&app, "g").messages[0];
    assert!(m.is_deleted);
    assert_eq!(m.body, "[deleted]");
    assert!(m.mentions.is_empty() && m.mention_ranges.is_empty() && m.body_raw.is_none());
}

#[test]
fn received_mentions_get_their_names_when_contacts_come() {
    let mut app = app();
    let mut m = message("+1", "\u{fffc} hi", 1000);
    m.mentions = vec![Mention { start: 0, length: 1, uuid: "0123456789".to_string() }];
    receive(&mut app, m);
    assert_eq!(conv(&app, "+1").messages[0].body, "@01234567 hi");
    let list =
        vec![Contact { uuid: Some("0123456789".to_string()), ..contact("+9", "Dan") }];
    app.handle_signal_event(SignalEvent::ContactList(list), NOW, 0);
    assert_eq!(conv(&app, "+1").messages[0].body, "@Dan hi");
    assert_eq!(conv(&app, "+1").messages[0].mention_ranges, vec![(0, 4)]);
}

#[test]
fn own_messages_move_no_read_marker() {
    let mut app = app();
    activate(&mut app, "+1", "Alice", false);
    app.store.last_read_index.insert("+1".to_string(), 0);
    command(&mut app, "hello");
    assert_eq!(*app.store.last_read_index.get("+1").unwrap(), 0);
    command(&mut app, r#"/poll "Lunch?" "Pizza" "Sushi""#);
    assert_eq!(*app.store.last_read_index.get("+1").unwrap(), 0);
    assert_eq!(conv(&app, "+1").messages.len(), 2);
}

#[test]
fn messages_come_in_among_others_in_order() {
    let mut app = app();
    app.get_or_create_conversation("+1", "Alice", false);
    for (ts, body) in [(1000, "a"), (2000, "b"), (3000, "c")] {
        add(&mut app, "+1", "Alice", ts, body);
    }
    let mut m = message("+1", "text", 2000);
    for name in ["x.txt", "y.txt"] {
        m.attachments.push(Attachment {
            id: "i".to_string(),
            content_type: "text/plain".to_string(),
            filename: Some(name.to_string()),
            local_path: None,
            rendered: None,
        });
    }
    receive(&mut app, m);
    let bodies: Vec<&str> = conv(&app, "+1").messages.iter().map(|m| m.body.as_str()).collect();
    assert_eq!(
        bodies,
        vec!["a", "b", "text", "[attachment: x.txt]", "[attachment: y.txt]", "c"]
    );
    assert_eq!(conv(&app, "+1").unread, 1);
}

#[test]
fn reading_elsewhere_counts_what_is_left() {
    let mut app = app();
    for ts in [1000, 2000, 3000] {
        receive(&mut app, message("+1", "x", ts));
    }
    assert_eq!(conv(&app, "+1").unread, 3);
    app.handle_read_sync(&vec![("+1".to_string(), 2000), ("+1".to_string(), 1000)]);
    assert_eq!(*app.store.last_read_index.get("+1").unwrap(), 2);
    assert_eq!(conv(&app, "+1").unread, 1);
    app.handle_read_sync(&vec![("+1".to_string(), 1000), ("+2".to_string(), 9000)]);
    assert_eq!(*app.store.last_read_index.get("+1").unwrap(), 2);
    assert_eq!(conv(&app, "+1").unread, 1);
}

#[test]
fn a_longer_name_is_not_cut_by_a_shorter_one() {
    let mut app = app();
    for (name, uuid) in [("Al", "uuid-al"), ("Alice", "uuid-alice")] {
        app.autocomplete.pending_mentions.push((name.to_string(), Some(uuid.to_string())));
    }
    let (wire, mentions) = app.prepare_outgoing_mentions("@Alice");
    assert_eq!(wire, "\u{fffc}");
    assert_eq!(mentions, vec![(0, "uuid-alice".to_string())]);
    let (wire, mentions) = app.prepare_outgoing_mentions("@Alice, @Al!");
    assert_eq!(wire, "\u{fffc}, \u{fffc}!");
    assert_eq!(mentions, vec![(0, "uuid-alice".to_string()), (3, "uuid-al".to_string())]);
    app.autocomplete.pending_mentions.truncate(1);
    assert_eq!(app.prepare_outgoing_mentions("@Alice").0, "\u{fffc}ice");
}

#[test]
fn mentions_in_any_order_have_their_ranges() {
    let mut names: StrMap<String> = StrMap::new();
    names.insert("uuid-a".to_string(), "Zo\u{eb}".to_string());
    names.insert("uuid-b".to_string(), "Bob".to_string());
    let first = Mention { start: 0, length: 1, uuid: "uuid-a".to_string() };
    let second = Mention { start: 5, length: 1, uuid: "uuid-b".to_string() };
    let (body, ranges) =
        resolve_mentions_with("\u{fffc} or \u{fffc}?", &vec![second, first], &names);
    assert_eq!(body, "@Zo\u{eb} or @Bob?");
    assert_eq!(ranges, vec![(0, 5), (9, 13)]);
}

#[test]
fn search_steps_go_to_every_match_once() {
    let result = |ts: i64, id: &str| SearchResult {
        sender: "Alice".to_string(),
        body: "x".to_string(),
        timestamp_ms: ts,
        conv_id: id.to_string(),
        conv_name: id.to_string(),
    };
    for forward in [true, false] {
        for index in 0..5 {
            let results = vec![
                result(1, "a"),
                result(2, "b"),
                result(3, "a"),
                result(4, "b"),
                result(5, "a"),
            ];
            let mut state = SearchState { query: "x".to_string(), results, index };
            let mut seen: Vec<usize> = Vec::new();
            for _ in 0..3 {
                state.jump_to_result(forward, Some("a"));
                seen.push(state.index);
            }
            seen.sort();
            assert_eq!(seen, vec![0, 2, 4]);
        }
    }
}

#[test]
fn no_two_actions_have_one_label() {
    let mut labels: Vec<&str> = all_actions().into_iter().map(action_label).collect();
    assert_eq!(labels.len(), 48);
    labels.sort();
    labels.dedup();
    assert_eq!(labels.len(), 48);
}
