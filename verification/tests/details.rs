//! Edges, errors and single values.
use siggy::app::{App, Effect, Flag, ImageProtocol, Overlay, SendRequest, Setting};
use siggy::conversation_store::{clock_at, new_message, short_name, Conversation, Quote};
use siggy::demo::DAY_MINUTES;
use siggy::export::{export_file_name, export_text, line_text, make_safe, minute_text};
use siggy::images::{detect_protocol, draw_image, Pixel};
use siggy::keys::{KeyCode, KeyModifiers};
use siggy::rows::{messages_of_rows, MessageRow};
use siggy::settings::{settings, Config};
use siggy::signal::{Attachment, IdentityInfo, MessageStatus, SignalEvent, SignalMessage, TrustLevel};
use siggy::startup::{image_file_of, Startup};

const NOW: i64 = 1_700_000_000_000;

fn app() -> App {
    let mut app = App::new(Startup {
        account: "+10000000000".to_string(),
        home: "/home/me".to_string(),
        image_protocol: ImageProtocol::Halfblock,
        paste_temp_path: "/tmp/paste".to_string(),
        themes: vec![],
        key_profiles: vec![],
        settings_profiles: vec![],
    });
    app.set_connected();
    app
}

fn conv<'a>(app: &'a App, id: &str) -> &'a Conversation {
    app.store.conversations.get(id).unwrap()
}

fn activate(app: &mut App, id: &str, name: &str, is_group: bool) {
    app.get_or_create_conversation(id, name, is_group);
    app.active_conversation = Some(id.to_string());
}

fn add(app: &mut App, id: &str, sender: &str, ts: i64, body: &str) {
    let m = new_message(sender.to_string(), "+1".to_string(), ts, body.to_string());
    app.store.conversations.get_mut(id).unwrap().messages.push(m);
}

fn command(app: &mut App, text: &str) -> Option<SendRequest> {
    app.input.before = text.to_string();
    app.input.after = String::new();
    app.handle_input(NOW)
}

#[test]
fn a_new_client_is_empty() {
    let app = app();
    assert_eq!(app.account, "+10000000000");
    assert_eq!(app.store.conversations.len(), 0);
    assert_eq!(app.sidebar.width, 22);
    assert!(app.is_on(Setting::NotifyDirect));
    assert!(!app.is_on(Setting::DesktopNotifications));
    assert!(app.has_flag(Flag::Connected));
    assert_eq!(app.keybindings.profile_name, "Default");
}

#[test]
fn times_of_day_follow_the_offset() {
    assert_eq!(clock_at(0, 0), "00:00");
    assert_eq!(clock_at(59_999, 0), "00:00");
    assert_eq!(clock_at(-1, 0), "23:59");
    assert_eq!(clock_at(NOW, 0), "22:13");
    assert_eq!(clock_at(NOW, 3600), "23:13");
    assert_eq!(clock_at(NOW, -5400), "20:43");
    let m = new_message("Alice".to_string(), "+1".to_string(), NOW, "hi".to_string());
    assert_eq!(m.format_time(0), "22:13");
    assert_eq!(line_text(NOW, 0, "Alice", "hi"), "[22:13] <Alice> hi");
}

#[test]
fn minutes_are_dated() {
    assert_eq!(minute_text(NOW, 0), "2023-11-14 22:13");
    assert_eq!(minute_text(NOW, 2 * 3600), "2023-11-15 00:13");
    assert_eq!(minute_text(i64::MAX, 0), "");
}

#[test]
fn file_names_are_made_safe() {
    assert_eq!(make_safe("#Rust Devs/\u{e9}_1-2"), "_Rust_Devs_\u{e9}_1-2");
    assert_eq!(export_file_name("A b", "2023-11-14"), "siggy-export-A_b-2023-11-14.txt");
}

#[test]
fn exports_show_quotes_edits_and_system_lines() {
    let mut edited = new_message("Alice".to_string(), "+1".to_string(), NOW, "hi".to_string());
    edited.is_edited = true;
    edited.quote = Some(Quote {
        author: "you".to_string(),
        body: "hello".to_string(),
        timestamp_ms: 1,
        author_id: "+10000000000".to_string(),
    });
    let mut system = new_message(String::new(), String::new(), NOW, "Missed call".to_string());
    system.is_system = true;
    let c = Conversation {
        name: "Alice".to_string(),
        id: "+1".to_string(),
        messages: vec![edited, system],
        unread: 0,
        is_group: false,
        expiration_timer: 0,
        accepted: true,
    };
    let text = export_text(&c, 0, "2023-11-14 23:00", &vec![0, 0]);
    let expected = format!(
        "Chat export: Alice\nExported: 2023-11-14 23:00\nMessages: 2\n{}\n\
         [2023-11-14 22:13] <Alice> (edited) hi\n  > <you> hello\n\
         [2023-11-14 22:13] * Missed call\n",
        "-".repeat(60)
    );
    assert_eq!(text, expected);
}

#[test]
fn exports_are_asked_for_and_reported() {
    let mut app = app();
    app.export_chat_history(None);
    assert_eq!(app.status_message, "No active conversation to export");
    activate(&mut app, "+1", "Alice", false);
    app.export_chat_history(None);
    assert_eq!(app.status_message, "No messages to export");
    for ts in [1000, 2000, 3000] {
        add(&mut app, "+1", "Alice", ts, "x");
    }
    app.export_chat_history(Some(2));
    assert!(matches!(
        &app.effects[..],
        [Effect::Export { conversation, start: 1 }] if conversation == "+1"
    ));
    app.export_done(2, "/tmp/x.txt");
    assert_eq!(app.status_message, "Exported 2 messages to /tmp/x.txt");
    app.export_failed("disk full");
    assert_eq!(app.status_message, "Export failed: disk full");
}

#[test]
fn rows_become_messages_oldest_first() {
    let row = |timestamp: &str, body: &str, status: i32, ms: i64| MessageRow {
        sender: "Alice".to_string(),
        timestamp: timestamp.to_string(),
        body: body.to_string(),
        is_system: false,
        status,
        timestamp_ms: ms,
    };
    let rows = vec![
        row("2025-01-01T00:01:00Z", "second", 5, 2000),
        row("yesterday", "unreadable", 0, 1500),
        row("2025-01-01T00:00:00.250+00:00", "first", 0, 1000),
    ];
    let messages = messages_of_rows(&rows);
    assert_eq!(messages.len(), 2);
    assert_eq!(messages[0].body, "first");
    assert_eq!(messages[0].timestamp, 1_735_689_600_250);
    assert_eq!(messages[0].timestamp_ms, 1000);
    assert_eq!(messages[0].status, None);
    assert_eq!(messages[1].body, "second");
    assert_eq!(messages[1].timestamp, 1_735_689_660_000);
    assert_eq!(messages[1].status, Some(MessageStatus::Read));
}

#[test]
fn terminals_tell_how_they_show_images() {
    assert_eq!(detect_protocol(true, None), ImageProtocol::Kitty);
    assert_eq!(detect_protocol(false, Some("ghostty")), ImageProtocol::Kitty);
    assert_eq!(detect_protocol(false, Some("WezTerm")), ImageProtocol::Iterm2);
    assert_eq!(detect_protocol(false, Some("iTerm.app")), ImageProtocol::Iterm2);
    assert_eq!(detect_protocol(false, Some("xterm")), ImageProtocol::Halfblock);
    assert_eq!(detect_protocol(false, None), ImageProtocol::Halfblock);
}

#[test]
fn images_are_drawn_two_rows_to_a_line() {
    let opaque = |n: u8| Pixel { red: n, green: 0, blue: 0, alpha: 255 };
    let clear = Pixel { red: 9, green: 9, blue: 9, alpha: 127 };
    let rows = vec![vec![opaque(1), clear], vec![opaque(2), opaque(3)], vec![opaque(4), opaque(5)]];
    let lines = draw_image(&rows).unwrap();
    assert_eq!(lines.len(), 2);
    assert_eq!(lines[0][0].upper.unwrap().red, 1);
    assert_eq!(lines[0][0].lower.unwrap().red, 2);
    assert_eq!(lines[0][1].upper, None);
    assert_eq!(lines[0][1].lower.unwrap().red, 3);
    assert_eq!(lines[1][0].upper.unwrap().red, 4);
    assert_eq!(lines[1][0].lower, None);
    assert!(draw_image(&vec![]).is_none());
}

#[test]
fn image_messages_name_their_file() {
    assert_eq!(
        image_file_of("[image: a.png](file:///tmp/a.png)").as_deref(),
        Some("/tmp/a.png")
    );
    assert_eq!(image_file_of("[image: a.png -> /tmp/a.png]").as_deref(), Some("/tmp/a.png"));
    assert_eq!(image_file_of("[image: a.png]"), None);
    assert_eq!(image_file_of("file:///tmp/a.png"), None);
}

#[test]
fn few_images_are_asked_for_at_a_time() {
    let mut app = app();
    activate(&mut app, "+1", "Alice", false);
    for i in 0..10 {
        add(&mut app, "+1", "Alice", 1000 * (i + 1), "[image: a.png]");
        let m = app.store.conversations.get_mut("+1").unwrap().messages.last_mut().unwrap();
        m.image_path = Some("/tmp/a.png".to_string());
    }
    app.ensure_active_images();
    assert_eq!(app.effects.len(), 4);
    assert_eq!(app.images.in_flight.len(), 4);
    assert!(app.image_rendered("+1", 1000, false, None, None));
    assert_eq!(app.images.in_flight.len(), 3);
    assert_eq!(conv(&app, "+1").messages[0].image_lines, Some(vec![]));
}

#[test]
fn unknown_numbers_are_shortened() {
    assert_eq!(short_name("Alice"), "Alice");
    assert_eq!(short_name("+15551234567"), "+1***4567");
    assert_eq!(short_name("+12345"), "+12345");
}

#[test]
fn joining_finds_names_and_numbers() {
    let mut app = app();
    app.get_or_create_conversation("+1", "Alice", false);
    command(&mut app, "/join ALI");
    assert_eq!(app.active_conversation.as_deref(), Some("+1"));
    command(&mut app, "/join nobody");
    assert_eq!(app.status_message, "Conversation not found: nobody");
    command(&mut app, "/join +15550001111");
    assert_eq!(app.active_conversation.as_deref(), Some("+15550001111"));
}

#[test]
fn texts_need_a_conversation() {
    let mut app = app();
    assert!(command(&mut app, "hello").is_none());
    assert_eq!(app.status_message, "No active conversation. Use /join <name> first.");
}

#[test]
fn sent_messages_wait_for_their_answer() {
    let mut app = app();
    activate(&mut app, "+1", "Alice", false);
    let request = command(&mut app, "hello");
    match request {
        Some(SendRequest::Message { recipient, body, is_group, local_ts_ms, .. }) => {
            assert_eq!(recipient, "+1");
            assert_eq!(body, "hello");
            assert!(!is_group);
            assert_eq!(local_ts_ms, NOW);
        }
        _ => panic!("nothing was sent"),
    }
    let m = &conv(&app, "+1").messages[0];
    assert_eq!(m.sender, "you");
    assert_eq!(m.status, Some(MessageStatus::Sending));
    assert_eq!(m.timestamp_ms, NOW);
}

#[test]
fn attachments_are_named_in_the_message() {
    let mut app = app();
    activate(&mut app, "+1", "Alice", false);
    app.pending.attachment = Some("/tmp/photo.JPG".to_string());
    command(&mut app, "look");
    assert_eq!(conv(&app, "+1").messages[0].body, "[image: photo.JPG] look");
    app.pending.attachment = Some("/tmp/notes.txt".to_string());
    command(&mut app, "");
    assert_eq!(conv(&app, "+1").messages[1].body, "[attachment: notes.txt]");
}

#[test]
fn replies_quote_the_selected_message() {
    let mut app = app();
    activate(&mut app, "+1", "Alice", false);
    add(&mut app, "+1", "Alice", 1000, &"x".repeat(60));
    app.begin_reply();
    let (author, snippet, ts) = app.reply_target.clone().unwrap();
    assert_eq!(author, "+1");
    assert_eq!(snippet, format!("{}\u{2026}", "x".repeat(50)));
    assert_eq!(ts, 1000);
    let request = command(&mut app, "yes");
    assert!(matches!(
        request,
        Some(SendRequest::Message { quote_timestamp: Some(1000), .. })
    ));
    assert!(app.reply_target.is_none());
}

#[test]
fn timers_are_set_by_durations() {
    let mut app = app();
    activate(&mut app, "+1", "Alice", false);
    let request = command(&mut app, "/disappearing 1h");
    assert!(matches!(request, Some(SendRequest::UpdateExpiration { seconds: 3600, .. })));
    assert_eq!(conv(&app, "+1").expiration_timer, 3600);
    assert!(command(&mut app, "/disappearing maybe").is_none());
    assert_eq!(conv(&app, "+1").expiration_timer, 3600);
}

#[test]
fn polls_are_created_in_the_conversation() {
    let mut app = app();
    activate(&mut app, "+1", "Alice", false);
    let request = command(&mut app, r#"/poll "Lunch?" "Pizza" "Sushi""#);
    assert!(matches!(
        request,
        Some(SendRequest::PollCreate { ref question, ref options, allow_multiple: true, .. })
            if question == "Lunch?" && options.len() == 2
    ));
    let poll = conv(&app, "+1").messages[0].poll_data.as_ref().unwrap();
    assert_eq!(poll.options[1].id, 1);
    assert_eq!(poll.options[1].text, "Sushi");
}

#[test]
fn typing_is_told_and_times_out() {
    let mut app = app();
    activate(&mut app, "+1", "Alice", false);
    let started = app.handle_insert_key(KeyModifiers::none(), KeyCode::Char('h'), NOW, 1000);
    assert!(matches!(started, Some(SendRequest::Typing { stop: false, .. })));
    assert!(app.handle_insert_key(KeyModifiers::none(), KeyCode::Char('i'), NOW, 2000).is_none());
    assert!(app.check_typing_timeout(6999).is_none());
    let stopped = app.check_typing_timeout(7000);
    assert!(matches!(stopped, Some(SendRequest::Typing { stop: true, .. })));
    assert!(app.check_typing_timeout(8000).is_none());
}

#[test]
fn nothing_is_told_to_the_blocked_or_of_commands() {
    let mut app = app();
    activate(&mut app, "+1", "Alice", false);
    assert!(app.handle_insert_key(KeyModifiers::none(), KeyCode::Char('/'), NOW, 0).is_none());
    app.input.before = String::new();
    app.blocked.insert("+1".to_string());
    assert!(app.handle_insert_key(KeyModifiers::none(), KeyCode::Char('h'), NOW, 0).is_none());
}

#[test]
fn copies_leave_the_clipboard_in_time() {
    let mut app = app();
    app.copy_selected_message(false);
    assert_eq!(app.status_message, "No message to copy");
    activate(&mut app, "+1", "Alice", false);
    add(&mut app, "+1", "Alice", NOW, "secret");
    app.copy_selected_message(true);
    assert!(matches!(
        &app.effects[..],
        [Effect::CopyLine { timestamp_ms: NOW, sender, body }] if sender == "Alice" && body == "secret"
    ));
    app.effects.clear();
    app.clipboard_filled(1000);
    app.check_clipboard_clear(30_999);
    assert!(app.effects.is_empty());
    app.check_clipboard_clear(31_000);
    assert!(matches!(&app.effects[..], [Effect::ClearClipboard]));
    app.clipboard_failed("no display");
    assert_eq!(app.status_message, "Clipboard error: no display");
}

#[test]
fn directories_are_listed_before_files() {
    let mut app = app();
    activate(&mut app, "+1", "Alice", false);
    app.open_file_browser();
    assert!(matches!(&app.effects[..], [Effect::ReadDirectory(dir)] if dir == "/home/me"));
    app.directory_read(Ok(vec![
        ("b.txt".to_string(), false, 5),
        ("Zoo".to_string(), true, 0),
        ("A.png".to_string(), false, 7),
        ("art".to_string(), true, 0),
    ]));
    let names: Vec<&str> = app.file_picker.entries.iter().map(|e| e.0.as_str()).collect();
    assert_eq!(names, vec!["art", "Zoo", "A.png", "b.txt"]);
    app.handle_file_browser_key(KeyCode::Down);
    app.handle_file_browser_key(KeyCode::Down);
    app.handle_file_browser_key(KeyCode::Enter);
    assert_eq!(app.pending.attachment.as_deref(), Some("/home/me/A.png"));
    assert!(!app.is_open(Overlay::FileBrowser));
    app.directory_read(Err("denied".to_string()));
    assert_eq!(app.file_picker.error.as_deref(), Some("Cannot read directory: denied"));
}

#[test]
fn searches_step_through_a_conversation() {
    let mut app = app();
    activate(&mut app, "+1", "Alice", false);
    for ts in [1000, 2000, 3000] {
        add(&mut app, "+1", "Alice", ts, "word");
    }
    app.open_search("word".to_string());
    app.search_results(
        [3000, 2000, 1000]
            .iter()
            .map(|ts| siggy::app::SearchResult {
                sender: "Alice".to_string(),
                body: "word".to_string(),
                timestamp_ms: *ts,
                conv_id: "+1".to_string(),
                conv_name: "Alice".to_string(),
            })
            .collect(),
    );
    app.handle_search_key(KeyCode::Enter);
    assert!(!app.is_open(Overlay::Search));
    assert_eq!(app.scroll.focused_index, Some(2));
    app.jump_to_search_result(true);
    assert_eq!(app.scroll.focused_index, Some(1));
    app.jump_to_search_result(false);
    assert_eq!(app.scroll.focused_index, Some(2));
}

#[test]
fn identities_are_verified_after_a_second_key() {
    let mut app = app();
    activate(&mut app, "+1", "Alice", false);
    let request = command(&mut app, "/verify");
    assert!(matches!(request, Some(SendRequest::ListIdentities)));
    app.handle_signal_event(
        SignalEvent::IdentityList(vec![IdentityInfo {
            number: Some("+1".to_string()),
            uuid: None,
            fingerprint: "f".to_string(),
            safety_number: "12345".to_string(),
            trust_level: TrustLevel::TrustedUnverified,
            added_timestamp: 0,
        }]),
        NOW,
        0,
    );
    assert_eq!(app.verify.identities.len(), 1);
    assert!(app.handle_verify_key(KeyCode::Char('v')).is_none());
    let request = app.handle_verify_key(KeyCode::Char('v'));
    assert!(matches!(
        request,
        Some(SendRequest::TrustIdentity { ref recipient, ref safety_number })
            if recipient == "+1" && safety_number == "12345"
    ));
}

#[test]
fn forwarding_sends_the_text_elsewhere() {
    let mut app = app();
    app.get_or_create_conversation("+2", "Bob", false);
    activate(&mut app, "+1", "Alice", false);
    add(&mut app, "+1", "Alice", 1000, "news");
    app.begin_forward();
    assert!(app.is_open(Overlay::Forward));
    let index = app.forward.filtered.iter().position(|(id, _)| id == "+2").unwrap();
    for _ in 0..index {
        app.handle_forward_key(KeyCode::Down, NOW);
    }
    let request = app.handle_forward_key(KeyCode::Enter, NOW);
    assert!(matches!(
        request,
        Some(SendRequest::Message { ref recipient, ref body, .. })
            if recipient == "+2" && body.contains("news")
    ));
    assert_eq!(app.status_message, "Forwarded to Bob");
}

#[test]
fn database_failures_are_shown() {
    let mut app = app();
    app.db_failed("insert_message", "locked");
    assert_eq!(app.status_message, "DB error (insert_message): locked");
}

#[test]
fn configurations_keep_what_was_switched() {
    let config = Config::new("/home/me/signal-downloads".to_string());
    assert!(config.needs_setup());
    assert_eq!(config.theme, "Default");
    assert_eq!(config.proxy, "");
    let mut app = app();
    app.toggle_setting(0);
    let kept = app.config_to_save(config).unwrap();
    assert!(!kept.needs_setup());
    assert_eq!(kept.account, "+10000000000");
    assert!(!kept.settings.has_item(Setting::NotifyDirect));
    app.raise(Flag::Demo);
    assert!(app.config_to_save(kept).is_none());
    assert_eq!(settings().len(), 17);
    assert_eq!(settings()[0].label, "Direct message notifications");
}

#[test]
fn image_attachments_keep_their_path() {
    let mut app = app();
    app.handle_signal_event(
        SignalEvent::MessageReceived(SignalMessage {
            source: "+1".to_string(),
            source_name: None,
            source_uuid: None,
            timestamp_ms: NOW,
            body: None,
            attachments: vec![Attachment {
                id: "a".to_string(),
                content_type: "image/png".to_string(),
                filename: None,
                local_path: Some("/tmp/a.png".to_string()),
                rendered: None,
            }],
            group_id: None,
            group_name: None,
            is_outgoing: false,
            destination: None,
            mentions: vec![],
            text_styles: vec![],
            quote: None,
            expires_in_seconds: 0,
            previews: vec![],
        }),
        NOW,
        0,
    );
    let m = &conv(&app, "+1").messages[0];
    assert_eq!(m.body, "[image: image/png](file:///tmp/a.png)");
    assert_eq!(m.image_path.as_deref(), Some("/tmp/a.png"));
}

#[test]
fn demo_data_fills_the_client() {
    let mut app = app();
    // The clock is put forward by an hour at two.
    let day: Vec<i64> = (0..DAY_MINUTES as i64)
        .map(|minute| NOW + (if minute < 120 { minute } else { minute - 60 }) * 60_000)
        .collect();
    app.populate_demo_data(&day);
    assert_eq!(app.store.conversations.len(), 7);
    assert_eq!(app.store.conversation_order[0], "+15550007777");
    assert_eq!(app.active_conversation.as_deref(), Some("+15550001111"));
    assert_eq!(app.status_message, "connected | demo mode");
    assert_eq!(conv(&app, "+15550001111").messages.len(), 17);
    assert_eq!(conv(&app, "+15550001111").messages[1].timestamp_ms, NOW + 425 * 60_000);
    assert_eq!(*app.store.last_read_index.get("group_family").unwrap(), 3);
    assert!(!conv(&app, "+15550007777").accepted);
    for c in app.store.conversations.entries.iter().map(|(_, c)| c) {
        for m in c.messages.iter().filter(|m| !m.is_system) {
            assert_eq!(m.status.is_some(), m.sender == "you");
        }
    }
}

#[test]
fn links_that_cannot_be_opened_are_reported() {
    let mut app = app();
    app.open_url("ftp://example.com");
    assert!(app.effects.is_empty());
    app.open_url("http://example.com");
    assert!(matches!(&app.effects[..], [Effect::OpenUrl(url)] if url == "http://example.com"));
    app.url_failed("no browser");
    assert_eq!(app.status_message, "Failed to open URL: no browser");
}
