//! What the service reports, and how conversations take it.
use siggy::app::{App, Flag, ImageProtocol, Overlay, SendRequest, Setting};
use siggy::conversation_store::{new_message, Conversation, Quote};
use siggy::db::DbWrite;
use siggy::keys::KeyCode;
use siggy::receipts::{PASTE_CLEANUP_DELAY_MS, PASTE_CLEANUP_SENTINEL_MS};
use siggy::signal::{
    Attachment, Contact, Group, Mention, MessageStatus, Reaction, SignalEvent, SignalMessage,
};
use siggy::startup::Startup;

const NOW: i64 = 1_700_000_000_000;

fn app() -> App {
    let mut app = App::new(Startup {
        account: "+10000000000".to_string(),
        home: "/home/me".to_string(),
        image_protocol: ImageProtocol::Halfblock,
        paste_temp_path: "/tmp/paste".to_string(),
        themes: vec![],
        key_profiles: vec![],
        settings_profiles: vec![],
    });
    app.set_connected();
    app
}

fn conv<'a>(app: &'a App, id: &str) -> &'a Conversation {
    app.store.conversations.get(id).unwrap()
}

fn event(app: &mut App, event: SignalEvent) {
    app.handle_signal_event(event, NOW, 0);
}

fn make_msg(source: &str, body: Option<&str>, group_id: Option<&str>, is_outgoing: bool) -> SignalMessage {
    SignalMessage {
        source: source.to_string(),
        source_name: None,
        source_uuid: None,
        timestamp_ms: NOW,
        body: body.map(|s| s.to_string()),
        attachments: vec![],
        group_id: group_id.map(|s| s.to_string()),
        group_name: None,
        is_outgoing,
        destination: None,
        mentions: vec![],
        text_styles: vec![],
        quote: None,
        expires_in_seconds: 0,
        previews: vec![],
    }
}

fn receive(app: &mut App, msg: SignalMessage) {
    event(app, SignalEvent::MessageReceived(msg));
}

fn contact(number: &str, name: Option<&str>, uuid: Option<&str>) -> Contact {
    Contact {
        number: number.to_string(),
        name: name.map(|s| s.to_string()),
        uuid: uuid.map(|s| s.to_string()),
    }
}

fn group(id: &str, name: &str, members: &[&str]) -> Group {
    Group {
        id: id.to_string(),
        name: name.to_string(),
        members: members.iter().map(|m| m.to_string()).collect(),
        member_uuids: vec![],
    }
}

fn own_message(app: &mut App, id: &str, status: MessageStatus, ts: i64) {
    let mut m = new_message("you".to_string(), String::new(), ts, "hello".to_string());
    m.status = Some(status);
    app.store.conversations.get_mut(id).unwrap().messages.push(m);
}

fn know(app: &mut App, number: &str, name: &str) {
    app.store.contact_names.insert(number.to_string(), name.to_string());
}

fn activate(app: &mut App, id: &str, name: &str, is_group: bool) {
    app.get_or_create_conversation(id, name, is_group);
    app.active_conversation = Some(id.to_string());
}

#[test]
fn contact_list_does_not_create_conversations() {
    let mut app = app();
    assert_eq!(app.store.conversations.len(), 0);
    event(
        &mut app,
        SignalEvent::ContactList(vec![
            contact("+1", Some("Alice"), None),
            contact("+2", Some("Bob"), None),
        ]),
    );
    assert_eq!(app.store.conversations.len(), 0);
    assert!(app.store.conversation_order.is_empty());
    assert_eq!(app.store.contact_names.get("+1").unwrap(), "Alice");
    assert_eq!(app.store.contact_names.get("+2").unwrap(), "Bob");
}

#[test]
fn group_list_creates_conversations() {
    let mut app = app();
    event(
        &mut app,
        SignalEvent::GroupList(vec![group("g1", "Family", &[]), group("g2", "Work", &[])]),
    );
    assert_eq!(app.store.conversations.len(), 2);
    assert_eq!(conv(&app, "g1").name, "Family");
    assert_eq!(conv(&app, "g2").name, "Work");
    assert!(conv(&app, "g1").is_group);
    assert_eq!(app.store.contact_names.get("g1").unwrap(), "Family");
}

#[test]
fn contact_name_updates_existing_conversation() {
    let mut app = app();
    receive(&mut app, make_msg("+15551234567", Some("hey"), None, false));
    assert_eq!(conv(&app, "+15551234567").name, "+15551234567");
    event(
        &mut app,
        SignalEvent::ContactList(vec![contact("+15551234567", Some("Alice"), None)]),
    );
    assert_eq!(conv(&app, "+15551234567").name, "Alice");
}

#[test]
fn contact_without_name_does_not_overwrite_existing_name() {
    let mut app = app();
    let mut msg = make_msg("+1", Some("hi"), None, false);
    msg.source_name = Some("Alice".to_string());
    receive(&mut app, msg);
    assert_eq!(conv(&app, "+1").name, "Alice");
    event(&mut app, SignalEvent::ContactList(vec![contact("+1", None, None)]));
    assert_eq!(conv(&app, "+1").name, "Alice");
}

#[test]
fn message_uses_contact_name_lookup() {
    let mut app = app();
    event(&mut app, SignalEvent::ContactList(vec![contact("+1", Some("Alice"), None)]));
    assert_eq!(app.store.conversations.len(), 0);
    receive(&mut app, make_msg("+1", Some("hello!"), None, false));
    assert_eq!(app.store.conversations.len(), 1);
    assert_eq!(conv(&app, "+1").name, "Alice");
    assert_eq!(conv(&app, "+1").messages[0].sender, "Alice");
}

#[test]
fn message_in_known_group_uses_name_lookup() {
    let mut app = app();
    event(&mut app, SignalEvent::GroupList(vec![group("g1", "Family", &[])]));
    assert_eq!(app.store.conversations.len(), 1);
    let mut msg = make_msg("+1", Some("hey family"), Some("g1"), false);
    msg.source_name = Some("Alice".to_string());
    receive(&mut app, msg);
    assert_eq!(app.store.conversations.len(), 1);
    assert_eq!(conv(&app, "g1").name, "Family");
    assert_eq!(conv(&app, "g1").messages.len(), 1);
}

#[test]
fn no_duplicate_on_repeated_messages() {
    let mut app = app();
    event(&mut app, SignalEvent::ContactList(vec![contact("+1", Some("Alice"), None)]));
    for _ in 0..3 {
        let mut msg = make_msg("+1", Some("msg"), None, false);
        msg.source_name = Some("Alice".to_string());
        receive(&mut app, msg);
    }
    assert_eq!(app.store.conversations.len(), 1);
    assert_eq!(app.store.conversation_order.len(), 1);
    assert_eq!(conv(&app, "+1").messages.len(), 3);
}

fn receipt(app: &mut App, kind: &str, ts: i64) {
    event(
        app,
        SignalEvent::ReceiptReceived {
            sender: "+1".to_string(),
            receipt_type: kind.to_string(),
            timestamps: vec![ts],
        },
    );
}

#[test]
fn receipt_upgrades_outgoing_message_status() {
    let mut app = app();
    app.get_or_create_conversation("+1", "Alice", false);
    own_message(&mut app, "+1", MessageStatus::Sent, NOW);
    receipt(&mut app, "DELIVERY", NOW);
    assert_eq!(conv(&app, "+1").messages[0].status, Some(MessageStatus::Delivered));
    receipt(&mut app, "READ", NOW);
    assert_eq!(conv(&app, "+1").messages[0].status, Some(MessageStatus::Read));
}

#[test]
fn receipt_does_not_downgrade_status() {
    let mut app = app();
    app.get_or_create_conversation("+1", "Alice", false);
    own_message(&mut app, "+1", MessageStatus::Read, NOW);
    receipt(&mut app, "DELIVERY", NOW);
    assert_eq!(conv(&app, "+1").messages[0].status, Some(MessageStatus::Read));
}

#[test]
fn unknown_receipt_kinds_change_nothing() {
    let mut app = app();
    app.get_or_create_conversation("+1", "Alice", false);
    own_message(&mut app, "+1", MessageStatus::Sent, NOW);
    receipt(&mut app, "SMOKE", NOW);
    assert_eq!(conv(&app, "+1").messages[0].status, Some(MessageStatus::Sent));
    assert!(app.pending.receipts.is_empty());
}

#[test]
fn send_timestamp_upgrades_sending_to_sent() {
    let mut app = app();
    app.get_or_create_conversation("+1", "Alice", false);
    let server_ts = 1_700_000_000_123;
    own_message(&mut app, "+1", MessageStatus::Sending, NOW);
    app.pending.sends.insert("rpc-1".to_string(), ("+1".to_string(), NOW));
    event(&mut app, SignalEvent::SendTimestamp { rpc_id: "rpc-1".to_string(), server_ts });
    let msg = &conv(&app, "+1").messages[0];
    assert_eq!(msg.status, Some(MessageStatus::Sent));
    assert_eq!(msg.timestamp_ms, server_ts);
}

#[test]
fn send_failed_sets_failed_status() {
    let mut app = app();
    app.get_or_create_conversation("+1", "Alice", false);
    own_message(&mut app, "+1", MessageStatus::Sending, NOW);
    app.pending.sends.insert("rpc-1".to_string(), ("+1".to_string(), NOW));
    event(&mut app, SignalEvent::SendFailed { rpc_id: "rpc-1".to_string() });
    assert_eq!(conv(&app, "+1").messages[0].status, Some(MessageStatus::Failed));
}

#[test]
fn send_timestamp_resets_paste_cleanup_deadline() {
    let mut app = app();
    app.pending.paste_cleanups.insert("rpc-1".to_string(), ("/tmp/a.png".to_string(), PASTE_CLEANUP_SENTINEL_MS));
    app.handle_signal_event(
        SignalEvent::SendTimestamp { rpc_id: "rpc-1".to_string(), server_ts: 0 },
        NOW,
        500,
    );
    let (_, deadline) = app.pending.paste_cleanups.get("rpc-1").unwrap();
    assert_eq!(*deadline, 500 + PASTE_CLEANUP_DELAY_MS);
}

#[test]
fn send_failed_resets_paste_cleanup_deadline() {
    let mut app = app();
    app.pending.paste_cleanups.insert("rpc-2".to_string(), ("/tmp/b.png".to_string(), PASTE_CLEANUP_SENTINEL_MS));
    app.handle_signal_event(SignalEvent::SendFailed { rpc_id: "rpc-2".to_string() }, NOW, 500);
    let (_, deadline) = app.pending.paste_cleanups.get("rpc-2").unwrap();
    assert_eq!(*deadline, 500 + PASTE_CLEANUP_DELAY_MS);
}

#[test]
fn incoming_messages_have_no_status() {
    let mut app = app();
    receive(&mut app, make_msg("+1", Some("hello"), None, false));
    assert_eq!(conv(&app, "+1").messages[0].status, None);
}

#[test]
fn receipt_before_send_timestamp_is_buffered_and_replayed() {
    let mut app = app();
    app.get_or_create_conversation("+1", "Alice", false);
    let server_ts = 1_700_000_000_123;
    own_message(&mut app, "+1", MessageStatus::Sending, NOW);
    app.pending.sends.insert("rpc-1".to_string(), ("+1".to_string(), NOW));

    receipt(&mut app, "DELIVERY", server_ts);
    assert_eq!(conv(&app, "+1").messages[0].status, Some(MessageStatus::Sending));
    assert_eq!(app.pending.receipts.len(), 1);

    event(&mut app, SignalEvent::SendTimestamp { rpc_id: "rpc-1".to_string(), server_ts });
    assert_eq!(conv(&app, "+1").messages[0].status, Some(MessageStatus::Delivered));
    assert!(app.pending.receipts.is_empty());
}

fn reaction(app: &mut App, emoji: &str, sender: &str, name: Option<&str>, author: &str, ts: i64, is_remove: bool) {
    event(
        app,
        SignalEvent::ReactionReceived {
            conv_id: "+1".to_string(),
            emoji: emoji.to_string(),
            sender: sender.to_string(),
            sender_name: name.map(|s| s.to_string()),
            target_author: author.to_string(),
            target_timestamp: ts,
            is_remove,
        },
    );
}

#[test]
fn handle_reaction_adds_to_message() {
    let mut app = app();
    receive(&mut app, make_msg("+1", Some("hello"), None, false));
    let ts = conv(&app, "+1").messages[0].timestamp_ms;
    reaction(&mut app, "\u{1f44d}", "+2", Some("Bob"), "+1", ts, false);
    let reactions = &conv(&app, "+1").messages[0].reactions;
    assert_eq!(reactions.len(), 1);
    assert_eq!(reactions[0].emoji, "\u{1f44d}");
    assert_eq!(reactions[0].sender, "Bob");
}

#[test]
fn handle_reaction_replaces_existing_from_same_sender() {
    let mut app = app();
    receive(&mut app, make_msg("+1", Some("hello"), None, false));
    let ts = conv(&app, "+1").messages[0].timestamp_ms;
    reaction(&mut app, "\u{1f44d}", "+2", Some("Bob"), "+1", ts, false);
    reaction(&mut app, "\u{2764}\u{fe0f}", "+2", Some("Bob"), "+1", ts, false);
    let reactions = &conv(&app, "+1").messages[0].reactions;
    assert_eq!(reactions.len(), 1);
    assert_eq!(reactions[0].emoji, "\u{2764}\u{fe0f}");
}

#[test]
fn handle_reaction_remove() {
    let mut app = app();
    receive(&mut app, make_msg("+1", Some("hello"), None, false));
    let ts = conv(&app, "+1").messages[0].timestamp_ms;
    reaction(&mut app, "\u{1f44d}", "+2", Some("Bob"), "+1", ts, false);
    assert_eq!(conv(&app, "+1").messages[0].reactions.len(), 1);
    reaction(&mut app, "\u{1f44d}", "+2", Some("Bob"), "+1", ts, true);
    assert_eq!(conv(&app, "+1").messages[0].reactions.len(), 0);
}

#[test]
fn handle_reaction_on_own_message() {
    let mut app = app();
    app.get_or_create_conversation("+1", "Alice", false);
    own_message(&mut app, "+1", MessageStatus::Sent, NOW);
    reaction(&mut app, "\u{1f44d}", "+1", Some("Alice"), "+10000000000", NOW, false);
    let reactions = &conv(&app, "+1").messages[0].reactions;
    assert_eq!(reactions.len(), 1);
    assert_eq!(reactions[0].sender, "Alice");
}

#[test]
fn handle_reaction_unknown_message_persists_to_db() {
    let mut app = app();
    app.get_or_create_conversation("+1", "Alice", false);
    app.jobs.clear();
    reaction(&mut app, "\u{1f44d}", "+2", None, "+1", 9_999_999_999_999, false);
    assert!(conv(&app, "+1").messages.is_empty());
    assert_eq!(app.jobs.len(), 1);
    assert!(matches!(
        &app.jobs[0].write,
        DbWrite::UpsertReaction { conv_id, timestamp_ms: 9_999_999_999_999, .. } if conv_id == "+1"
    ));
}

#[test]
fn contact_list_resolves_reactions_and_quotes() {
    let mut app = app();
    app.get_or_create_conversation("+1", "+1", false);
    let by = |emoji: &str, sender: &str| Reaction { emoji: emoji.to_string(), sender: sender.to_string() };
    let quote = |author: &str, body: &str, ts: i64| Quote {
        author: author.to_string(),
        body: body.to_string(),
        timestamp_ms: ts,
        author_id: author.to_string(),
    };
    let first = new_message("Charlie".to_string(), "+3".to_string(), 900, "hey".to_string());
    let mut second = new_message("Alice".to_string(), "+1".to_string(), 1000, "hello".to_string());
    second.reactions = vec![
        by("\u{1f44d}", "+2"),
        by("\u{2764}", "+10000000000"),
        by("\u{1f602}", "+3"),
    ];
    second.quote = Some(quote("+10000000000", "quoted", 500));
    let mut third = new_message("you".to_string(), "+10000000000".to_string(), 1100, "reply".to_string());
    third.quote = Some(quote("+3", "hey", 900));
    let c = app.store.conversations.get_mut("+1").unwrap();
    c.messages.push(first);
    c.messages.push(second);
    c.messages.push(third);

    event(
        &mut app,
        SignalEvent::ContactList(vec![
            contact("+1", Some("Alice"), None),
            contact("+2", Some("Bob"), None),
        ]),
    );

    let msgs = &conv(&app, "+1").messages;
    assert_eq!(msgs[1].reactions[0].sender, "Bob");
    assert_eq!(msgs[1].reactions[1].sender, "you");
    assert_eq!(msgs[1].reactions[2].sender, "Charlie");
    assert_eq!(msgs[1].quote.as_ref().unwrap().author, "you");
    assert_eq!(msgs[2].quote.as_ref().unwrap().author, "Charlie");
}

#[test]
fn contact_list_builds_uuid_maps() {
    let mut app = app();
    event(
        &mut app,
        SignalEvent::ContactList(vec![contact("+1", Some("Alice"), Some("uuid-alice"))]),
    );
    assert_eq!(app.store.uuid_to_name.get("uuid-alice").unwrap(), "Alice");
    assert_eq!(app.store.number_to_uuid.get("+1").unwrap(), "uuid-alice");
}

#[test]
fn group_list_stores_groups() {
    let mut app = app();
    event(&mut app, SignalEvent::GroupList(vec![group("g1", "Test", &["+1", "+2"])]));
    assert!(app.store.groups.contains_key("g1"));
    assert_eq!(app.store.groups.get("g1").unwrap().members.len(), 2);
}

#[test]
fn incoming_message_resolves_mentions() {
    let mut app = app();
    app.store.uuid_to_name.insert("uuid-bob".to_string(), "Bob".to_string());
    let mut msg = make_msg("+1", Some("\u{FFFC} check this"), None, false);
    msg.source_name = Some("Alice".to_string());
    msg.mentions = vec![Mention { start: 0, length: 1, uuid: "uuid-bob".to_string() }];
    receive(&mut app, msg);
    let c = conv(&app, "+1");
    assert_eq!(c.messages[0].body, "@Bob check this");
    assert_eq!(c.messages[0].mention_ranges.len(), 1);
}

#[test]
fn system_message_inserted_with_is_system_true() {
    let mut app = app();
    event(
        &mut app,
        SignalEvent::SystemMessage {
            conv_id: "+15551234567".to_string(),
            body: "Missed voice call".to_string(),
            timestamp_ms: NOW,
        },
    );
    let c = conv(&app, "+15551234567");
    assert_eq!(c.messages.len(), 1);
    assert!(c.messages[0].is_system);
    assert_eq!(c.messages[0].body, "Missed voice call");
    assert!(c.messages[0].sender.is_empty());
}

fn timed(body: &str, ts: i64) -> SignalMessage {
    let mut msg = make_msg("+15551234567", Some(body), None, false);
    msg.source_name = Some("Alice".to_string());
    msg.timestamp_ms = ts;
    msg
}

#[test]
fn unread_bar_clears_on_active_incoming_message() {
    let mut app = app();
    receive(&mut app, timed("first", 1000));
    assert_eq!(conv(&app, "+15551234567").messages.len(), 1);
    assert_eq!(app.store.last_read_index.get("+15551234567").copied().unwrap_or(0), 0);

    app.active_conversation = Some("+15551234567".to_string());
    receive(&mut app, timed("second", 2000));
    let total = conv(&app, "+15551234567").messages.len();
    assert_eq!(total, 2);
    assert_eq!(*app.store.last_read_index.get("+15551234567").unwrap(), total);
}

fn synced(app: &mut App, ts: i64) {
    event(
        app,
        SignalEvent::ReadSyncReceived { read_messages: vec![("+15551234567".to_string(), ts)] },
    );
}

#[test]
fn read_sync_advances_read_marker_and_clears_unread() {
    let mut app = app();
    receive(&mut app, timed("one", 1000));
    receive(&mut app, timed("two", 2000));
    receive(&mut app, timed("three", 3000));
    assert_eq!(conv(&app, "+15551234567").unread, 3);
    assert_eq!(app.store.last_read_index.get("+15551234567").copied().unwrap_or(0), 0);

    synced(&mut app, 2000);
    assert_eq!(*app.store.last_read_index.get("+15551234567").unwrap(), 2);
    assert_eq!(conv(&app, "+15551234567").unread, 1);
}

#[test]
fn read_sync_does_not_retreat_read_marker() {
    let mut app = app();
    receive(&mut app, timed("one", 1000));
    receive(&mut app, timed("two", 2000));
    receive(&mut app, timed("three", 3000));

    synced(&mut app, 3000);
    assert_eq!(*app.store.last_read_index.get("+15551234567").unwrap(), 3);
    assert_eq!(conv(&app, "+15551234567").unread, 0);

    synced(&mut app, 1000);
    assert_eq!(*app.store.last_read_index.get("+15551234567").unwrap(), 3);
    assert_eq!(conv(&app, "+15551234567").unread, 0);
}

#[test]
fn unknown_sender_creates_unaccepted_conversation() {
    let mut app = app();
    receive(&mut app, make_msg("+1", Some("hello"), None, false));
    assert!(!conv(&app, "+1").accepted);
}

#[test]
fn known_contact_creates_accepted_conversation() {
    let mut app = app();
    know(&mut app, "+1", "Alice");
    receive(&mut app, make_msg("+1", Some("hello"), None, false));
    assert!(conv(&app, "+1").accepted);
}

#[test]
fn outgoing_sync_creates_accepted_conversation() {
    let mut app = app();
    let mut msg = make_msg("+10000000000", Some("hey"), None, true);
    msg.destination = Some("+1".to_string());
    receive(&mut app, msg);
    assert!(conv(&app, "+1").accepted);
}

#[test]
fn contact_sync_auto_accepts_matching_conversations() {
    let mut app = app();
    receive(&mut app, make_msg("+1", Some("hello"), None, false));
    assert!(!conv(&app, "+1").accepted);
    event(&mut app, SignalEvent::ContactList(vec![contact("+1", Some("Alice"), None)]));
    assert!(conv(&app, "+1").accepted);
}

fn requested() -> App {
    let mut app = app();
    receive(&mut app, make_msg("+1", Some("hello"), None, false));
    app.active_conversation = Some("+1".to_string());
    app.open_overlay(Overlay::MessageRequest);
    app
}

#[test]
fn accept_key_returns_send_request_and_marks_accepted() {
    let mut app = requested();
    let req = app.handle_message_request_key(KeyCode::Char('a'));
    assert!(conv(&app, "+1").accepted);
    assert!(!app.is_open(Overlay::MessageRequest));
    assert!(matches!(
        req,
        Some(SendRequest::MessageRequestResponse { ref response_type, .. }) if response_type == "accept"
    ));
}

#[test]
fn delete_key_removes_conversation() {
    let mut app = requested();
    let req = app.handle_message_request_key(KeyCode::Char('d'));
    assert!(!app.store.conversations.contains_key("+1"));
    assert!(!app.store.conversation_order.contains(&"+1".to_string()));
    assert!(app.active_conversation.is_none());
    assert!(!app.is_open(Overlay::MessageRequest));
    assert!(matches!(
        req,
        Some(SendRequest::MessageRequestResponse { ref response_type, .. }) if response_type == "delete"
    ));
}

#[test]
fn esc_closes_message_request_overlay() {
    let mut app = requested();
    let req = app.handle_message_request_key(KeyCode::Esc);
    assert!(req.is_none());
    assert!(!app.is_open(Overlay::MessageRequest));
    assert!(app.active_conversation.is_none());
}

#[test]
fn bell_skipped_for_unaccepted_conversation() {
    let mut app = app();
    receive(&mut app, make_msg("+1", Some("hello"), None, false));
    assert!(!app.has_flag(Flag::Bell));
}

#[test]
fn bell_skipped_for_blocked_conversation() {
    let mut app = app();
    app.get_or_create_conversation("+1", "Alice", false);
    app.store.conversations.get_mut("+1").unwrap().accepted = true;
    app.blocked.insert("+1".to_string());
    receive(&mut app, make_msg("+1", Some("hello"), None, false));
    assert!(!app.has_flag(Flag::Bell));
}

#[test]
fn read_receipts_not_sent_for_unaccepted() {
    let mut app = app();
    app.settings.insert(Setting::SendReadReceipts);
    receive(&mut app, make_msg("+1", Some("hello"), None, false));
    app.queue_read_receipts_for_conv("+1", 0);
    assert!(app.pending.read_receipts.is_empty());
}

#[test]
fn read_receipts_not_sent_for_blocked() {
    let mut app = app();
    app.settings.insert(Setting::SendReadReceipts);
    app.get_or_create_conversation("+1", "Alice", false);
    app.store.conversations.get_mut("+1").unwrap().accepted = true;
    app.blocked.insert("+1".to_string());
    receive(&mut app, make_msg("+1", Some("hello"), None, false));
    app.queue_read_receipts_for_conv("+1", 0);
    assert!(app.pending.read_receipts.is_empty());
}

fn typing(app: &mut App, name: Option<&str>, is_typing: bool, group_id: Option<&str>) {
    event(
        app,
        SignalEvent::TypingIndicator {
            sender: "+1".to_string(),
            sender_name: name.map(|s| s.to_string()),
            is_typing,
            group_id: group_id.map(|s| s.to_string()),
        },
    );
}

#[test]
fn typing_indicator_adds_and_removes() {
    let mut app = app();
    typing(&mut app, Some("Alice"), true, None);
    assert!(app.typing.indicators.contains_key("+1"));
    assert_eq!(app.store.contact_names.get("+1").unwrap(), "Alice");
    typing(&mut app, None, false, None);
    assert!(!app.typing.indicators.contains_key("+1"));
}

#[test]
fn group_typing_indicator_keyed_by_group_not_sender() {
    let mut app = app();
    typing(&mut app, Some("Alice"), true, Some("group-a"));
    assert!(app.typing.indicators.contains_key("group-a"));
    assert!(!app.typing.indicators.contains_key("+1"));
    assert_eq!(app.typing.indicators.get("group-a").unwrap().0, "+1");
}

#[test]
fn group_typing_does_not_bleed_into_other_group() {
    let mut app = app();
    app.get_or_create_conversation("group-a", "Group A", true);
    app.get_or_create_conversation("group-b", "Group B", true);
    typing(&mut app, Some("Alice"), true, Some("group-a"));
    assert!(!app.typing.indicators.contains_key("group-b"));
}

#[test]
fn direct_typing_indicator_keyed_by_sender() {
    let mut app = app();
    typing(&mut app, None, true, None);
    assert!(app.typing.indicators.contains_key("+1"));
}

#[test]
fn error_event_sets_status() {
    let mut app = app();
    event(&mut app, SignalEvent::Error("connection lost".to_string()));
    assert!(app.status_message.contains("connection lost"));
}

fn attached(body: Option<&str>, content_type: &str, filename: Option<&str>) -> SignalMessage {
    let mut msg = make_msg("+1", body, None, false);
    msg.attachments = vec![Attachment {
        id: "a1".to_string(),
        content_type: content_type.to_string(),
        filename: filename.map(|s| s.to_string()),
        local_path: None,
        rendered: None,
    }];
    msg
}

#[test]
fn message_with_image_attachment() {
    let mut app = app();
    receive(&mut app, attached(None, "image/jpeg", Some("photo.jpg")));
    assert!(conv(&app, "+1").messages.iter().any(|m| m.body.contains("[image: photo.jpg]")));
}

#[test]
fn message_with_non_image_attachment() {
    let mut app = app();
    receive(&mut app, attached(None, "application/pdf", Some("doc.pdf")));
    assert!(conv(&app, "+1").messages.iter().any(|m| m.body.contains("[attachment: doc.pdf]")));
}

#[test]
fn message_with_body_and_attachment() {
    let mut app = app();
    receive(&mut app, attached(Some("look at this"), "image/png", Some("img.png")));
    let c = conv(&app, "+1");
    assert_eq!(c.messages.len(), 2);
    assert!(c.messages[0].body.contains("look at this"));
    assert!(c.messages[1].body.contains("[image: img.png]"));
}

#[test]
fn attachment_without_filename_uses_content_type() {
    let mut app = app();
    receive(&mut app, attached(None, "audio/ogg", None));
    assert!(conv(&app, "+1").messages.iter().any(|m| m.body.contains("[attachment: audio/ogg]")));
}

#[test]
fn bell_rings_for_background_dm() {
    let mut app = app();
    know(&mut app, "+1", "Alice");
    activate(&mut app, "+other", "Other", false);
    app.settings.insert(Setting::NotifyDirect);
    receive(&mut app, make_msg("+1", Some("hey"), None, false));
    assert!(app.has_flag(Flag::Bell));
}

#[test]
fn bell_not_set_for_active_conversation() {
    let mut app = app();
    activate(&mut app, "+1", "Alice", false);
    app.settings.insert(Setting::NotifyDirect);
    receive(&mut app, make_msg("+1", Some("hey"), None, false));
    assert!(!app.has_flag(Flag::Bell));
}

#[test]
fn bell_skipped_when_notify_disabled() {
    let mut app = app();
    activate(&mut app, "+other", "Other", false);
    app.settings.remove(Setting::NotifyDirect);
    receive(&mut app, make_msg("+1", Some("hey"), None, false));
    assert!(!app.has_flag(Flag::Bell));
}

#[test]
fn bell_for_group_respects_setting() {
    let mut app = app();
    event(&mut app, SignalEvent::GroupList(vec![group("g1", "Team", &[])]));
    activate(&mut app, "+other", "Other", false);
    app.settings.insert(Setting::NotifyGroup);
    receive(&mut app, make_msg("+1", Some("hi team"), Some("g1"), false));
    assert!(app.has_flag(Flag::Bell));

    app.lower(Flag::Bell);
    app.settings.remove(Setting::NotifyGroup);
    receive(&mut app, make_msg("+2", Some("again"), Some("g1"), false));
    assert!(!app.has_flag(Flag::Bell));
}

#[test]
fn unread_increments_for_background() {
    let mut app = app();
    receive(&mut app, make_msg("+1", Some("hey"), None, false));
    assert_eq!(conv(&app, "+1").unread, 1);
}

#[test]
fn unread_no_increment_for_active() {
    let mut app = app();
    activate(&mut app, "+1", "Alice", false);
    receive(&mut app, make_msg("+1", Some("hey"), None, false));
    assert_eq!(conv(&app, "+1").unread, 0);
}

#[test]
fn active_conv_queues_read_receipt() {
    let mut app = app();
    activate(&mut app, "+1", "Alice", false);
    app.settings.insert(Setting::SendReadReceipts);
    receive(&mut app, make_msg("+1", Some("hey"), None, false));
    assert!(!app.pending.read_receipts.is_empty());
    assert_eq!(app.pending.read_receipts[0].0, "+1");
}

#[test]
fn handle_message_syncs_expiration_timer() {
    let mut app = app();
    app.get_or_create_conversation("+1", "Alice", false);
    assert_eq!(conv(&app, "+1").expiration_timer, 0);
    let mut msg = make_msg("+1", Some("secret"), None, false);
    msg.expires_in_seconds = 3600;
    receive(&mut app, msg);
    assert_eq!(conv(&app, "+1").expiration_timer, 3600);
}

#[test]
fn edits_and_deletions_change_the_message() {
    let mut app = app();
    receive(&mut app, make_msg("+1", Some("helo"), None, false));
    event(
        &mut app,
        SignalEvent::EditReceived {
            conv_id: "+1".to_string(),
            target_timestamp: NOW,
            new_body: "hello".to_string(),
        },
    );
    assert_eq!(conv(&app, "+1").messages[0].body, "hello");
    assert!(conv(&app, "+1").messages[0].is_edited);
    event(
        &mut app,
        SignalEvent::RemoteDeleteReceived { conv_id: "+1".to_string(), target_timestamp: NOW },
    );
    assert!(conv(&app, "+1").messages[0].is_deleted);
    assert_eq!(conv(&app, "+1").messages[0].body, "[deleted]");
}

#[test]
fn messages_out_of_order_are_put_in_order() {
    let mut app = app();
    for ts in [3000, 1000, 2000] {
        receive(&mut app, timed("x", ts));
    }
    let times: Vec<i64> = conv(&app, "+15551234567").messages.iter().map(|m| m.timestamp_ms).collect();
    assert_eq!(times, vec![1000, 2000, 3000]);
}
