//! Commands, overlays, the mouse, loading and upkeep.
use siggy::app::{
    App, Effect, GroupMenuState, ImageProtocol, InputMode, LinkRegion, Overlay, Rect, SearchResult,
    SendRequest, Setting,
};
use siggy::conversation_store::{new_message, Conversation, DisplayMessage};
use siggy::keys::KeyCode;
use siggy::mouse::{MouseEvent, MouseKind};
use siggy::startup::{Startup, PAGE_SIZE};
use siggy::strmap::StrSet;

const NOW: i64 = 1_700_000_000_000;

fn app() -> App {
    let mut app = App::new(Startup {
        account: "+10000000000".to_string(),
        home: "/home/me".to_string(),
        image_protocol: ImageProtocol::Halfblock,
        paste_temp_path: "/tmp/paste".to_string(),
        themes: vec![],
        key_profiles: vec![],
        settings_profiles: vec![],
    });
    app.set_connected();
    app
}

fn set_input(app: &mut App, text: &str, cursor: usize) {
    app.input.before = text[..cursor].to_string();
    app.input.after = text[cursor..].to_string();
}

fn buffer(app: &App) -> String {
    app.input.buffer()
}

fn conv<'a>(app: &'a App, id: &str) -> &'a Conversation {
    app.store.conversations.get(id).unwrap()
}

fn know(app: &mut App, number: &str, name: &str) {
    app.store.contact_names.insert(number.to_string(), name.to_string());
}

fn activate(app: &mut App, id: &str, name: &str, is_group: bool) {
    app.get_or_create_conversation(id, name, is_group);
    app.active_conversation = Some(id.to_string());
}

fn command(app: &mut App, text: &str) -> Option<SendRequest> {
    set_input(app, text, text.len());
    app.handle_input(NOW)
}

fn message(n: usize) -> DisplayMessage {
    new_message("Alice".to_string(), "+1".to_string(), n as i64 * 1000, format!("msg{n}"))
}

fn stored(id: &str, range: std::ops::Range<usize>) -> Conversation {
    Conversation {
        name: "Test".to_string(),
        id: id.to_string(),
        messages: range.map(message).collect(),
        unread: 0,
        is_group: false,
        expiration_timer: 0,
        accepted: true,
    }
}

fn load(app: &mut App, c: Conversation) {
    let id = c.id.clone();
    app.load_from_db(vec![c], vec![id], StrSet::new(), StrSet::new(), &StrSet::new());
}

#[test]
fn load_from_db_marks_has_more() {
    let mut app = app();
    load(&mut app, stored("+pagination", 0..PAGE_SIZE));
    assert!(app.store.has_more_messages.contains("+pagination"));
}

#[test]
fn load_from_db_no_more_when_under_page_size() {
    let mut app = app();
    load(&mut app, stored("+small", 0..1));
    assert!(!app.store.has_more_messages.contains("+small"));
}

#[test]
fn load_more_messages_prepends() {
    let mut app = app();
    let id = "+paginate";
    load(&mut app, stored(id, 50..150));
    app.active_conversation = Some(id.to_string());
    assert_eq!(conv(&app, id).messages.len(), 100);
    assert!(app.store.has_more_messages.contains(id));
    assert_eq!(conv(&app, id).messages[0].body, "msg50");
    assert_eq!(conv(&app, id).messages[99].body, "msg149");

    app.store.last_read_index.insert(id.to_string(), 90);
    app.scroll.focused_index = Some(95);

    assert_eq!(app.load_more_messages(), Some((id.to_string(), 100)));
    app.take_page(id, (0..50).map(message).collect(), &StrSet::new());

    assert_eq!(conv(&app, id).messages.len(), 150);
    assert_eq!(conv(&app, id).messages[0].body, "msg0");
    assert_eq!(conv(&app, id).messages[149].body, "msg149");
    assert_eq!(*app.store.last_read_index.get(id).unwrap(), 140);
    assert_eq!(app.scroll.focused_index, Some(145));
    assert!(!app.store.has_more_messages.contains(id));
}

#[test]
fn cleanup_paste_files_removes_file_after_deadline() {
    let mut app = app();
    app.pending.paste_cleanups.insert("rpc-3".to_string(), ("/tmp/c.png".to_string(), 999));
    app.cleanup_paste_files(1000);
    assert!(matches!(&app.effects[..], [Effect::RemoveFile(path)] if path == "/tmp/c.png"));
    assert_eq!(app.pending.paste_cleanups.len(), 0);
}

#[test]
fn cleanup_paste_files_keeps_file_before_deadline() {
    let mut app = app();
    app.pending.paste_cleanups.insert("rpc-4".to_string(), ("/tmp/d.png".to_string(), 61_000));
    app.cleanup_paste_files(1000);
    assert!(app.effects.is_empty());
    assert_eq!(app.pending.paste_cleanups.len(), 1);
}

#[test]
fn attach_no_conversation_shows_error() {
    let mut app = app();
    app.open_file_browser();
    assert!(!app.is_open(Overlay::FileBrowser));
    assert!(app.status_message.contains("No active conversation"));
}

fn found(body: &str, ts: i64) -> SearchResult {
    SearchResult {
        sender: "Alice".to_string(),
        body: body.to_string(),
        timestamp_ms: ts,
        conv_id: "+1".to_string(),
        conv_name: "Alice".to_string(),
    }
}

#[test]
fn search_opens_overlay() {
    let mut app = app();
    activate(&mut app, "+1", "Alice", false);
    command(&mut app, "/search hello");
    assert!(app.is_open(Overlay::Search));
    assert_eq!(app.search.query, "hello");
    assert!(app.effects.iter().any(
        |e| matches!(e, Effect::Search { conv_id: Some(id), query } if id == "+1" && query == "hello")
    ));
    app.search_results(vec![found("hello world", 1000)]);
    assert_eq!(app.search.results.len(), 1);
    assert_eq!(app.search.results[0].body, "hello world");
}

#[test]
fn search_without_query_shows_error() {
    let mut app = app();
    command(&mut app, "/search");
    assert!(!app.is_open(Overlay::Search));
    assert!(app.status_message.contains("requires"));
}

#[test]
fn search_overlay_esc_closes() {
    let mut app = app();
    app.open_overlay(Overlay::Search);
    app.search.query = "test".to_string();
    app.handle_search_key(KeyCode::Esc);
    assert!(!app.is_open(Overlay::Search));
    assert!(app.search.query.is_empty());
}

#[test]
fn search_overlay_typing_refines() {
    let mut app = app();
    activate(&mut app, "+1", "Alice", false);
    app.open_overlay(Overlay::Search);
    app.search.query = "worl".to_string();
    app.handle_search_key(KeyCode::Char('d'));
    assert_eq!(app.search.query, "world");
    app.search_results(vec![found("hello world", 1000), found("goodbye world", 2000)]);
    assert_eq!(app.search.results.len(), 2);
}

#[test]
fn block_adds_to_set_and_returns_send_request() {
    let mut app = app();
    activate(&mut app, "+1", "Alice", false);
    let req = command(&mut app, "/block");
    assert!(app.blocked.contains("+1"));
    assert!(matches!(
        req,
        Some(SendRequest::Block { ref recipient, is_group }) if recipient == "+1" && !is_group
    ));
    assert!(app.status_message.contains("blocked"));
}

#[test]
fn unblock_removes_from_set_and_returns_send_request() {
    let mut app = app();
    activate(&mut app, "+1", "Alice", false);
    app.blocked.insert("+1".to_string());
    let req = command(&mut app, "/unblock");
    assert!(!app.blocked.contains("+1"));
    assert!(matches!(
        req,
        Some(SendRequest::Unblock { ref recipient, is_group }) if recipient == "+1" && !is_group
    ));
    assert!(app.status_message.contains("unblocked"));
}

#[test]
fn block_unblock_already_in_state() {
    for (cmd, pre_blocked, expected) in
        [("/block", true, "already blocked"), ("/unblock", false, "not blocked")]
    {
        let mut app = app();
        activate(&mut app, "+1", "Alice", false);
        if pre_blocked {
            app.blocked.insert("+1".to_string());
        }
        let req = command(&mut app, cmd);
        assert!(req.is_none());
        assert!(app.status_message.contains(expected));
    }
}

#[test]
fn block_unblock_no_active_conversation() {
    for cmd in ["/block", "/unblock"] {
        let mut app = app();
        let req = command(&mut app, cmd);
        assert!(req.is_none());
        assert!(app.status_message.contains("no active conversation"));
    }
}

fn mouse(kind: MouseKind, column: u16, row: u16) -> MouseEvent {
    MouseEvent { kind, column, row }
}

fn area(x: u16, y: u16, width: u16, height: u16) -> Rect {
    Rect { x, y, width, height }
}

#[test]
fn mouse_disabled_ignores_events() {
    let mut app = app();
    app.settings.remove(Setting::MouseEnabled);
    app.mouse.messages_area = area(0, 0, 80, 20);
    let result = app.handle_mouse_event(mouse(MouseKind::ScrollUp, 10, 10), NOW);
    assert!(result.is_none());
    assert_eq!(app.scroll.offset, 0);
}

#[test]
fn mouse_overlay_scroll_navigates_list() {
    let mut app = app();
    app.open_overlay(Overlay::Settings);
    app.settings_index = 0;
    app.mouse.messages_area = area(0, 0, 80, 20);
    app.handle_mouse_event(mouse(MouseKind::ScrollDown, 10, 10), NOW);
    assert_eq!(app.settings_index, 1);
    assert_eq!(app.scroll.offset, 0);
}

#[test]
fn mouse_scroll_behavior() {
    for (initial, kind, expected) in [
        (0, MouseKind::ScrollUp, 3),
        (10, MouseKind::ScrollDown, 7),
        (1, MouseKind::ScrollDown, 0),
    ] {
        let mut app = app();
        app.mouse.messages_area = area(0, 0, 80, 20);
        app.scroll.offset = initial;
        app.handle_mouse_event(mouse(kind, 10, 10), NOW);
        assert_eq!(app.scroll.offset, expected);
    }
}

#[test]
fn mouse_sidebar_click_switches_conversation() {
    let mut app = app();
    app.get_or_create_conversation("+1", "Alice", false);
    app.get_or_create_conversation("+2", "Bob", false);
    app.active_conversation = Some("+1".to_string());
    app.mouse.sidebar_inner = Some(area(0, 0, 20, 10));
    app.handle_mouse_event(mouse(MouseKind::LeftDown, 5, 1), NOW);
    assert_eq!(app.active_conversation.as_deref(), Some("+2"));
}

#[test]
fn mouse_input_click_positions_cursor() {
    let mut app = app();
    app.mode = InputMode::Normal;
    set_input(&mut app, "hello world", 0);
    app.mouse.input_area = area(10, 20, 40, 3);
    app.mouse.input_prefix_len = 2;
    app.handle_mouse_event(mouse(MouseKind::LeftDown, 18, 21), NOW);
    assert_eq!(app.mode, InputMode::Insert);
    assert_eq!(app.input.cursor(), 5);
}

#[test]
fn mouse_input_click_handles_multibyte() {
    let mut app = app();
    app.mode = InputMode::Normal;
    set_input(&mut app, "caf\u{e9} ok", 0);
    app.mouse.input_area = area(0, 0, 40, 3);
    app.mouse.input_prefix_len = 2;
    app.handle_mouse_event(mouse(MouseKind::LeftDown, 7, 1), NOW);
    assert_eq!(app.input.cursor(), 5);
}

#[test]
fn only_web_links_are_opened() {
    let mut app = app();
    app.mouse.messages_area = area(0, 0, 80, 20);
    for (x, url) in [(0, "https://example.com"), (20, "file:///etc/passwd")] {
        app.link_regions.push(LinkRegion { x, y: 3, width: 10, url: url.to_string() });
    }
    app.handle_mouse_event(mouse(MouseKind::LeftDown, 5, 3), NOW);
    assert!(matches!(&app.effects[..], [Effect::OpenUrl(url)] if url == "https://example.com"));
    app.handle_mouse_event(mouse(MouseKind::LeftDown, 25, 3), NOW);
    assert_eq!(app.effects.len(), 1);
}

#[test]
fn has_overlay_detects_all_overlays() {
    let mut app = app();
    assert!(!app.has_overlay());
    for overlay in [
        Overlay::Settings,
        Overlay::Help,
        Overlay::Contacts,
        Overlay::Search,
        Overlay::FileBrowser,
        Overlay::ActionMenu,
        Overlay::ReactionPicker,
        Overlay::DeleteConfirm,
        Overlay::MessageRequest,
        Overlay::Autocomplete,
        Overlay::PinDuration,
        Overlay::PollVote,
        Overlay::About,
        Overlay::Profile,
        Overlay::Forward,
    ] {
        app.open_overlay(overlay);
        assert!(app.has_overlay());
        app.close_overlay(overlay);
    }
    app.group_menu.state = Some(GroupMenuState::Menu);
    assert!(app.has_overlay());
    app.group_menu.state = None;
    assert!(!app.has_overlay());
}
