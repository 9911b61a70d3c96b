//! The state of a client that was just started, and what it loads.
use crate::app::{
    ActionMenuState, ActionMenuStateView, App, AppView, ContactsOverlayState,
    ContactsOverlayStateView, EmojiPickerSource, EmojiPickerState, EmojiPickerStateView,
    FilePickerState, FilePickerStateView, Flag, ForwardOverlayState, ForwardOverlayStateView,
    GroupMenuOverlayState, GroupMenuOverlayStateView, ImageProtocol, ImageState, ImageStateView,
    InputMode, InputState, KeybindingsOverlayState, KeybindingsOverlayStateView, MouseState,
    PendingState, PendingStateView, PinDurationOverlayState, PinDurationOverlayStateView,
    PollVoteOverlayState, PollVoteOverlayStateView, ProfileOverlayState, ProfileOverlayStateView,
    Rect, ScrollState, ScrollStateView, SearchState, SearchStateView, SettingsProfile,
    SettingsProfileOverlayState, SettingsProfileOverlayStateView, SettingsProfileView, SidebarState,
    SidebarStateView, Theme, ThemePickerState, ThemePickerStateView, ThemeView, TypingState,
    TypingStateView, VerifyOverlayState, VerifyOverlayStateView,
};
use crate::app::AutocompleteState;
use crate::autocomplete::no_candidates;
use crate::composer::empty_input;
use crate::conversation_store::{
    at_most_max, empty_store, Conversation, ConversationStore, ConversationStoreView,
    ConversationView, DisplayMessage, DisplayMessageView,
};
use crate::db::{enqueue, quiet, DbJobView, DbWrite, DbWriteView};
use crate::keybindings::{default_profile, is_default, KeyBindingsView};
use crate::kindset::KindSet;
use crate::messages::file_uri;
use crate::settings::{default_settings, new_settings};
use crate::signal::{Duplicate, MessageStatus};
use crate::strmap::{at, holds, look, put, StrMap, StrSet};
use crate::text::{
    concat2, find_from, from_range, occurs_at, same, starts_with, starts_with_char, to_chars, trim,
    trimmed,
};
use vstd::prelude::*;

verus! {

// ---------------------------------------------------------------------------
// A new state
// ---------------------------------------------------------------------------

/// What a client finds where it is started.
pub struct Startup {
    /// One's own number.
    pub account: String,
    /// Where the file browser opens.
    pub home: String,
    /// How images are shown.
    pub image_protocol: ImageProtocol,
    /// Where pasted images are put.
    pub paste_temp_path: String,
    pub themes: Vec<Theme>,
    pub key_profiles: Vec<String>,
    pub settings_profiles: Vec<SettingsProfile>,
}

/// What a [`Startup`] stands for.
pub struct StartupView {
    pub account: Seq<char>,
    pub home: Seq<char>,
    pub image_protocol: ImageProtocol,
    pub paste_temp_path: Seq<char>,
    pub themes: Seq<ThemeView>,
    pub key_profiles: Seq<Seq<char>>,
    pub settings_profiles: Seq<SettingsProfileView>,
}

impl DeepView for Startup {
    type V = StartupView;

    open spec fn deep_view(&self) -> StartupView {
        StartupView {
            account: self.account@,
            home: self.home@,
            image_protocol: self.image_protocol,
            paste_temp_path: self.paste_temp_path@,
            themes: self.themes.deep_view(),
            key_profiles: self.key_profiles.deep_view(),
            settings_profiles: self.settings_profiles.deep_view(),
        }
    }
}

/// An area with nothing in it.
pub open spec fn no_area() -> Rect {
    Rect { x: 0, y: 0, width: 0, height: 0 }
}

/// The state of a client that was just started.
pub open spec fn started(s: StartupView, keys: KeyBindingsView) -> AppView {
    AppView {
        store: empty_store(),
        active_conversation: None,
        input: empty_input(),
        mode: InputMode::Insert,
        sidebar: SidebarStateView { width: 22, filter: Seq::empty(), filtered: Seq::empty() },
        scroll: ScrollStateView {
            offset: 0,
            positions: Seq::empty(),
            focused_time: None,
            focused_index: None,
            jump_stack: Seq::empty(),
        },
        status_message: "connecting..."@,
        flags: Set::empty().insert(Flag::Loading).insert(Flag::MouseSnapshot),
        account: s.account,
        startup_status: "Starting signal-cli..."@,
        connection_error: None,
        typing: TypingStateView { indicators: Seq::empty(), last_keypress: None },
        settings: default_settings(),
        settings_index: 0,
        notification_preview: "full"@,
        clipboard_clear_seconds: 30,
        clipboard_set_at: None,
        muted: Set::empty(),
        mute_ends: Seq::empty(),
        blocked: Set::empty(),
        overlays: Set::empty(),
        autocomplete: no_candidates(),
        contacts: ContactsOverlayStateView {
            index: 0,
            filter: Seq::empty(),
            filtered: Seq::empty(),
        },
        verify: VerifyOverlayStateView { index: 0, identities: Seq::empty() },
        identity_trust: Seq::empty(),
        forward: ForwardOverlayStateView {
            index: 0,
            filter: Seq::empty(),
            filtered: Seq::empty(),
            body: Seq::empty(),
        },
        group_menu: GroupMenuOverlayStateView {
            state: None,
            index: 0,
            filter: Seq::empty(),
            filtered: Seq::empty(),
            input: Seq::empty(),
        },
        action_menu: ActionMenuStateView { index: 0 },
        reaction_index: 0,
        theme: ThemeView { name: "Default"@ },
        theme_picker: ThemePickerStateView { index: 0, available_themes: s.themes },
        keybindings: keys,
        keybindings_overlay: KeybindingsOverlayStateView {
            index: 0,
            conflict: None,
            profile_index: 0,
            available_profiles: s.key_profiles,
        },
        pin: PinDurationOverlayStateView { index: 0, pending: None },
        poll: PollVoteOverlayStateView {
            index: 0,
            selections: Seq::empty(),
            pending: None,
            pending_polls: Seq::empty(),
        },
        profile: ProfileOverlayStateView {
            index: 0,
            fields: seq![
                Seq::<char>::empty(),
                Seq::<char>::empty(),
                Seq::<char>::empty(),
                Seq::<char>::empty(),
            ],
            edit_buffer: Seq::empty(),
        },
        settings_profiles: SettingsProfileOverlayStateView {
            name: "Default"@,
            index: 0,
            available: s.settings_profiles,
            save_as_input: Seq::empty(),
        },
        file_picker: FilePickerStateView {
            home: s.home,
            dir: s.home,
            entries: Seq::empty(),
            index: 0,
            filter: Seq::empty(),
            filtered: Seq::empty(),
            error: None,
        },
        search: SearchStateView { query: Seq::empty(), results: Seq::empty(), index: 0 },
        emoji_picker: EmojiPickerStateView {
            source: EmojiPickerSource::Input,
            filter: Seq::empty(),
            selected_index: 0,
            category_index: 0,
            filtered: Seq::empty(),
            cols: 16,
        },
        mouse: MouseState {
            sidebar_inner: None,
            messages_area: no_area(),
            input_area: no_area(),
            input_prefix_len: 0,
            pending_toggle: None,
        },
        link_regions: Seq::empty(),
        images: ImageStateView {
            protocol: s.image_protocol,
            visible: Seq::empty(),
            prev_visible: Seq::empty(),
            prev_active_conversation: None,
            native_cache: Seq::empty(),
            crop_cache: Seq::empty(),
            next_kitty_id: 1,
            kitty_ids: Seq::empty(),
            kitty_transmitted: Seq::empty(),
            kitty_pending: Seq::empty(),
            in_flight: Seq::empty(),
        },
        pending: PendingStateView {
            sends: Seq::empty(),
            receipts: Seq::empty(),
            read_receipts: Seq::empty(),
            typing_stop: None,
            attachment: None,
            paste_temp_path: s.paste_temp_path,
            paste_cleanups: Seq::empty(),
        },
        reply_target: None,
        editing_message: None,
        expiring_msg_count: 0,
        jobs: Seq::empty(),
        effects: Seq::empty(),
    }
}

fn no_items<T: DeepView>() -> (r: Vec<T>)
    ensures
        r.deep_view() == Seq::<T::V>::empty(),
{
    let r: Vec<T> = Vec::new();
    assert(r.deep_view() =~= Seq::<T::V>::empty());
    r
}

fn no_text() -> (r: String)
    ensures
        r@ == Seq::<char>::empty(),
{
    let r = String::new();
    assert(r@ =~= Seq::<char>::empty());
    r
}

fn new_store() -> (r: ConversationStore)
    ensures
        r.deep_view() == empty_store(),
{
    ConversationStore {
        conversations: StrMap::new(),
        conversation_order: no_items(),
        contact_names: StrMap::new(),
        uuid_to_name: StrMap::new(),
        number_to_uuid: StrMap::new(),
        last_read_index: StrMap::new(),
        groups: StrMap::new(),
        has_more_messages: StrSet::new(),
    }
}

fn no_fields() -> (r: Vec<String>)
    ensures
        r.deep_view() == seq![
            Seq::<char>::empty(),
            Seq::<char>::empty(),
            Seq::<char>::empty(),
            Seq::<char>::empty(),
        ],
{
    let r = vec![no_text(), no_text(), no_text(), no_text()];
    assert(r.deep_view() =~= seq![
        Seq::<char>::empty(),
        Seq::<char>::empty(),
        Seq::<char>::empty(),
        Seq::<char>::empty(),
    ]);
    r
}

fn new_flags() -> (r: KindSet<Flag>)
    ensures
        r.deep_view() == Set::empty().insert(Flag::Loading).insert(Flag::MouseSnapshot),
{
    let mut r: KindSet<Flag> = KindSet::new();
    r.insert(Flag::Loading);
    r.insert(Flag::MouseSnapshot);
    r
}

fn new_images(protocol: ImageProtocol) -> (r: ImageState)
    ensures
        r.deep_view() == (ImageStateView {
            protocol,
            visible: Seq::empty(),
            prev_visible: Seq::empty(),
            prev_active_conversation: None,
            native_cache: Seq::empty(),
            crop_cache: Seq::empty(),
            next_kitty_id: 1,
            kitty_ids: Seq::empty(),
            kitty_transmitted: Seq::empty(),
            kitty_pending: Seq::empty(),
            in_flight: Seq::empty(),
        }),
{
    ImageState {
        protocol,
        visible: no_items(),
        prev_visible: no_items(),
        prev_active_conversation: None,
        native_cache: StrMap::new(),
        crop_cache: no_items(),
        next_kitty_id: 1,
        kitty_ids: StrMap::new(),
        kitty_transmitted: no_items(),
        kitty_pending: no_items(),
        in_flight: no_items(),
    }
}

fn new_pending(paste_temp_path: String) -> (r: PendingState)
    ensures
        r.deep_view() == (PendingStateView {
            sends: Seq::empty(),
            receipts: Seq::empty(),
            read_receipts: Seq::empty(),
            typing_stop: None,
            attachment: None,
            paste_temp_path: paste_temp_path@,
            paste_cleanups: Seq::empty(),
        }),
{
    PendingState {
        sends: StrMap::new(),
        receipts: no_items(),
        read_receipts: no_items(),
        typing_stop: None,
        attachment: None,
        paste_temp_path,
        paste_cleanups: StrMap::new(),
    }
}

impl App {
    /// The state of a client that was just started.
    pub fn new(s: Startup) -> (r: App)
        ensures
            is_default(r.keybindings),
            r.state() == started(s.deep_view(), r.keybindings.deep_view()),
    {
        reveal(App::state);
        let area = Rect { x: 0, y: 0, width: 0, height: 0 };
        App {
            store: new_store(),
            active_conversation: None,
            input: InputState::new(),
            mode: InputMode::Insert,
            sidebar: SidebarState { width: 22, filter: no_text(), filtered: no_items() },
            scroll: ScrollState {
                offset: 0,
                positions: StrMap::new(),
                focused_time: None,
                focused_index: None,
                jump_stack: no_items(),
            },
            status_message: "connecting...".to_string(),
            flags: new_flags(),
            account: s.account,
            startup_status: "Starting signal-cli...".to_string(),
            connection_error: None,
            typing: TypingState { indicators: StrMap::new(), last_keypress: None },
            settings: new_settings(),
            settings_index: 0,
            notification_preview: "full".to_string(),
            clipboard_clear_seconds: 30,
            clipboard_set_at: None,
            muted: StrSet::new(),
            mute_ends: StrMap::new(),
            blocked: StrSet::new(),
            overlays: KindSet::new(),
            autocomplete: AutocompleteState::new(),
            contacts: ContactsOverlayState { index: 0, filter: no_text(), filtered: no_items() },
            verify: VerifyOverlayState { index: 0, identities: no_items() },
            identity_trust: StrMap::new(),
            forward: ForwardOverlayState {
                index: 0,
                filter: no_text(),
                filtered: no_items(),
                body: no_text(),
            },
            group_menu: GroupMenuOverlayState {
                state: None,
                index: 0,
                filter: no_text(),
                filtered: no_items(),
                input: no_text(),
            },
            action_menu: ActionMenuState { index: 0 },
            reaction_index: 0,
            theme: Theme { name: "Default".to_string() },
            theme_picker: ThemePickerState { index: 0, available_themes: s.themes },
            keybindings: default_profile(),
            keybindings_overlay: KeybindingsOverlayState {
                index: 0,
                conflict: None,
                profile_index: 0,
                available_profiles: s.key_profiles,
            },
            pin: PinDurationOverlayState { index: 0, pending: None },
            poll: PollVoteOverlayState {
                index: 0,
                selections: no_items(),
                pending: None,
                pending_polls: no_items(),
            },
            profile: ProfileOverlayState { index: 0, fields: no_fields(), edit_buffer: no_text() },
            settings_profiles: SettingsProfileOverlayState {
                name: "Default".to_string(),
                index: 0,
                available: s.settings_profiles,
                save_as_input: no_text(),
            },
            file_picker: FilePickerState::new(s.home),
            search: SearchState::default(),
            emoji_picker: EmojiPickerState::default(),
            mouse: MouseState {
                sidebar_inner: None,
                messages_area: area,
                input_area: area,
                input_prefix_len: 0,
                pending_toggle: None,
            },
            link_regions: no_items(),
            images: new_images(s.image_protocol),
            pending: new_pending(s.paste_temp_path),
            reply_target: None,
            editing_message: None,
            expiring_msg_count: 0,
            jobs: no_items(),
            effects: no_items(),
        }
    }
}

// ---------------------------------------------------------------------------
// Files of images
// ---------------------------------------------------------------------------

/// The first place from `i` on where a text stands.
pub open spec fn first_from(s: Seq<char>, p: Seq<char>, i: int) -> Option<int>
    decreases s.len() + 1 - i,
{
    if i < 0 || i > s.len() {
        None
    } else if occurs_at(s, p, i) {
        Some(i)
    } else {
        first_from(s, p, i + 1)
    }
}

/// A text without the last characters that are `c`.
pub open spec fn trimmed_end(s: Seq<char>, c: char) -> Seq<char>
    decreases s.len(),
{
    if s.len() > 0 && s.last() == c {
        trimmed_end(s.drop_last(), c)
    } else {
        s
    }
}

/// The path that a file URI names.
pub open spec fn uri_path(uri: Seq<char>) -> Seq<char> {
    let u = trimmed(uri);
    if occurs_at(u, "file:///"@, 0) {
        "/"@ + u.skip(8)
    } else if occurs_at(u, "file://"@, 0) {
        u.skip(7)
    } else {
        u
    }
}

/// The file of the image that the text of a message names.
pub open spec fn image_file(body: Seq<char>) -> Option<Seq<char>> {
    if !occurs_at(body, "[image:"@, 0) {
        None
    } else {
        match first_from(body, "file:///"@, 0) {
            Some(i) => Some(uri_path(trimmed_end(body.skip(i), ')'))),
            None => match first_from(body, " -> "@, 0) {
                Some(i) => Some(trimmed_end(body.skip(i + 4), ']')),
                None => None,
            },
        }
    }
}

/// What `first_from` finds.
pub proof fn first_from_finds(s: Seq<char>, p: Seq<char>, i: int)
    ensures
        match first_from(s, p, i) {
            Some(f) => i <= f && occurs_at(s, p, f),
            None => true,
        },
    decreases s.len() + 1 - i,
{
    if 0 <= i <= s.len() && !occurs_at(s, p, i) {
        first_from_finds(s, p, i + 1);
    }
}

proof fn first_from_is(s: Seq<char>, p: Seq<char>, i: int, at: int)
    requires
        0 <= i <= at,
        occurs_at(s, p, at),
        forall|j: int| i <= j < at ==> !occurs_at(s, p, j),
    ensures
        first_from(s, p, i) == Some(at),
    decreases at - i,
{
    if i < at {
        first_from_is(s, p, i + 1, at);
    }
}

proof fn first_from_none(s: Seq<char>, p: Seq<char>, i: int)
    requires
        0 <= i,
        forall|j: int| i <= j ==> !occurs_at(s, p, j),
    ensures
        first_from(s, p, i) is None,
    decreases s.len() + 1 - i,
{
    if i <= s.len() {
        first_from_none(s, p, i + 1);
    }
}

/// Finds the first place where a text stands.
pub fn find_text_in(s: &Vec<char>, p: &str) -> (r: Option<usize>)
    ensures
        match r {
            Some(i) => first_from(s@, p@, 0) == Some(i as int) && i + p@.len() <= s.len(),
            None => first_from(s@, p@, 0) is None,
        },
{
    let pv = to_chars(p);
    let r = find_from(s, &pv, 0);
    proof {
        match r {
            Some(i) => first_from_is(s@, p@, 0, i as int),
            None => first_from_none(s@, p@, 0),
        }
    }
    r
}

fn trim_tail(s: &Vec<char>, from: usize, c: char) -> (r: String)
    requires
        from <= s@.len(),
    ensures
        r@ == trimmed_end(s@.skip(from as int), c),
{
    let mut k: usize = s.len();
    assert(s@.subrange(from as int, k as int) =~= s@.skip(from as int));
    while k > from && s[k - 1] == c
        invariant
            from <= k <= s@.len(),
            trimmed_end(s@.skip(from as int), c) == trimmed_end(
                s@.subrange(from as int, k as int),
                c,
            ),
        decreases k,
    {
        assert(s@.subrange(from as int, k as int).drop_last() =~= s@.subrange(
            from as int,
            k - 1,
        ));
        k -= 1;
    }
    from_range(s, from, k)
}

/// The path that a file URI names.
pub fn file_uri_to_path(uri: &str) -> (r: String)
    ensures
        r@ == uri_path(uri@),
{
    let u = trim(uri);
    let chars = to_chars(u.as_str());
    proof {
        reveal_strlit("file:///");
        reveal_strlit("file://");
    }
    if starts_with(u.as_str(), "file:///") {
        let rest = from_range(&chars, 8, chars.len());
        assert(rest@ =~= u@.skip(8));
        concat2("/", rest.as_str())
    } else if starts_with(u.as_str(), "file://") {
        let rest = from_range(&chars, 7, chars.len());
        assert(rest@ =~= u@.skip(7));
        rest
    } else {
        u
    }
}

/// The file of the image that the text of a message names.
pub fn image_file_of(body: &str) -> (r: Option<String>)
    ensures
        r.deep_view() == image_file(body@),
{
    if !starts_with(body, "[image:") {
        return None;
    }
    let chars = to_chars(body);
    proof {
        reveal_strlit(" -> ");
    }
    match find_text_in(&chars, "file:///") {
        Some(i) => {
            let uri = trim_tail(&chars, i, ')');
            Some(file_uri_to_path(uri.as_str()))
        },
        None => match find_text_in(&chars, " -> ") {
            Some(i) => Some(trim_tail(&chars, i + 4, ']')),
            None => None,
        },
    }
}

/// The URI of a file names it: read back, it gives the path.
pub proof fn file_uris_read_back(path: Seq<char>)
    requires
        path.len() > 0,
        path[0] == '/',
        !path.contains('\\'),
        trimmed(file_uri(path)) == file_uri(path),
    ensures
        uri_path(file_uri(path)) == path,
{
    reveal_strlit("file:///");
    reveal_strlit("file://");
    reveal_strlit("/");
    let slashed = crate::messages::forward_slashes(path);
    assert(slashed =~= path) by {
        assert forall|i: int| 0 <= i < path.len() implies #[trigger] slashed[i] == path[i] by {
            assert(path.contains(path[i]));
        }
    }
    let u = file_uri(path);
    assert(u == "file://"@ + path);
    assert(u.subrange(0, 8) =~= "file:///"@);
    assert(occurs_at(u, "file:///"@, 0));
    assert("/"@ + u.skip(8) =~= path);
}

// ---------------------------------------------------------------------------
// Loading
// ---------------------------------------------------------------------------

/// How many messages are loaded at a time.
pub const PAGE_SIZE: usize = 100;

/// A message as it is loaded: one that was being sent was sent, and the file of
/// an image is known where it is there.
pub open spec fn message_loaded(m: DisplayMessageView, present: Set<Seq<char>>) -> DisplayMessageView {
    DisplayMessageView {
        status: if m.status == Some(MessageStatus::Sending) {
            Some(MessageStatus::Sent)
        } else {
            m.status
        },
        image_path: match image_file(m.body) {
            Some(p) => if present.contains(p) {
                Some(p)
            } else {
                m.image_path
            },
            None => m.image_path,
        },
        ..m
    }
}

/// Messages as they are loaded.
pub open spec fn messages_loaded(
    s: Seq<DisplayMessageView>,
    present: Set<Seq<char>>,
) -> Seq<DisplayMessageView> {
    s.map_values(|m: DisplayMessageView| message_loaded(m, present))
}

/// The name under which the last sender wrote who has one, where the
/// conversation goes by a number.
pub open spec fn name_in_messages(
    s: Seq<DisplayMessageView>,
    id: Seq<char>,
    n: int,
) -> Option<Seq<char>>
    decreases n,
{
    if n <= 0 {
        None
    } else {
        let sender = s[n - 1].sender;
        if sender != "you"@ && sender != id && !(sender.len() > 0 && sender[0] == '+') {
            Some(sender)
        } else {
            name_in_messages(s, id, n - 1)
        }
    }
}

/// The name that a conversation gets as it is loaded: one with a contact that
/// goes by a number gets the name under which they wrote.
pub open spec fn name_loaded(c: ConversationView) -> Option<Seq<char>> {
    if !c.is_group && c.name == c.id && c.name.len() > 0 && c.name[0] == '+' {
        name_in_messages(c.messages, c.id, c.messages.len() as int)
    } else {
        None
    }
}

/// A conversation under the name that it gets as it is loaded.
pub open spec fn conversation_named(c: ConversationView) -> ConversationView {
    match name_loaded(c) {
        Some(name) => ConversationView { name, ..c },
        None => c,
    }
}

/// A store with a conversation as it is loaded.
pub open spec fn conversation_loaded(
    s: ConversationStoreView,
    c: ConversationView,
    present: Set<Seq<char>>,
) -> ConversationStoreView {
    let n = c.messages.len();
    ConversationStoreView {
        conversations: put(
            s.conversations,
            c.id,
            ConversationView { messages: messages_loaded(c.messages, present), ..c },
        ),
        has_more_messages: if n >= PAGE_SIZE {
            s.has_more_messages.insert(c.id)
        } else {
            s.has_more_messages
        },
        last_read_index: if n > 0 {
            put(
                s.last_read_index,
                c.id,
                if n > c.unread {
                    (n - c.unread) as usize
                } else {
                    0
                },
            )
        } else {
            s.last_read_index
        },
        ..s
    }
}

/// A store with the first `n` of conversations loaded.
pub open spec fn conversations_loaded(
    s: ConversationStoreView,
    convs: Seq<ConversationView>,
    present: Set<Seq<char>>,
    n: int,
) -> ConversationStoreView
    decreases n,
{
    if n <= 0 {
        s
    } else {
        conversation_loaded(conversations_loaded(s, convs, present, n - 1), convs[n - 1], present)
    }
}

/// Conversations under the names that they get as they are loaded.
pub open spec fn conversations_named(
    s: Seq<(Seq<char>, ConversationView)>,
) -> Seq<(Seq<char>, ConversationView)> {
    s.map_values(|p: (Seq<char>, ConversationView)| (p.0, conversation_named(p.1)))
}

/// What is written of the names that the first `n` conversations get.
pub open spec fn naming_jobs(s: Seq<(Seq<char>, ConversationView)>, n: int) -> Seq<DbJobView>
    decreases n,
{
    if n <= 0 {
        Seq::empty()
    } else {
        let c = s[n - 1].1;
        match name_loaded(c) {
            Some(name) => naming_jobs(s, n - 1).push(
                quiet(
                    DbWriteView::UpsertConversation { id: c.id, name, is_group: false },
                    "upsert_conversation"@,
                ),
            ),
            None => naming_jobs(s, n - 1),
        }
    }
}

/// The state with what the database holds.
pub open spec fn database_loaded(
    a: AppView,
    convs: Seq<ConversationView>,
    order: Seq<Seq<char>>,
    muted: Set<Seq<char>>,
    blocked: Set<Seq<char>>,
    present: Set<Seq<char>>,
) -> AppView {
    let s = conversations_loaded(a.store, convs, present, convs.len() as int);
    AppView {
        store: ConversationStoreView {
            conversations: conversations_named(s.conversations),
            conversation_order: order,
            ..s
        },
        muted,
        blocked,
        jobs: a.jobs + naming_jobs(s.conversations, s.conversations.len() as int),
        ..a
    }
}

fn load_message(m: &mut DisplayMessage, present: &StrSet)
    ensures
        final(m).deep_view() == message_loaded(old(m).deep_view(), present.deep_view()),
{
    if let Some(MessageStatus::Sending) = m.status {
        m.status = Some(MessageStatus::Sent);
    }
    if let Some(p) = image_file_of(m.body.as_str()) {
        if present.contains(p.as_str()) {
            m.image_path = Some(p);
        }
    }
}

fn load_messages(v: Vec<DisplayMessage>, present: &StrSet) -> (r: Vec<DisplayMessage>)
    ensures
        r.deep_view() == messages_loaded(v.deep_view(), present.deep_view()),
{
    let ghost s = v.deep_view();
    let ghost done = messages_loaded(s, present.deep_view());
    let mut out = v;
    let mut i: usize = 0;
    while i < out.len()
        invariant
            i <= out@.len(),
            out@.len() == s.len(),
            done == messages_loaded(s, present.deep_view()),
            forall|k: int| 0 <= k < i ==> (#[trigger] out@[k]).deep_view() == done[k],
            forall|k: int| i <= k < s.len() ==> (#[trigger] out@[k]).deep_view() == s[k],
        decreases out@.len() - i,
    {
        assert(out@[i as int].deep_view() == s[i as int]);
        load_message(&mut out[i], present);
        i += 1;
    }
    assert(out.deep_view() =~= done);
    out
}

fn find_name(c: &Conversation) -> (r: Option<String>)
    ensures
        r.deep_view() == name_loaded(c.deep_view()),
{
    if c.is_group || !same(c.name.as_str(), c.id.as_str()) || !starts_with_char(
        c.name.as_str(),
        '+',
    ) {
        return None;
    }
    let ghost s = c.messages.deep_view();
    let mut k: usize = c.messages.len();
    while k > 0
        invariant
            k <= c.messages@.len(),
            s == c.messages.deep_view(),
            name_loaded(c.deep_view()) == name_in_messages(s, c.id@, k as int),
        decreases k,
    {
        assert(s[k - 1] == c.messages@[k - 1].deep_view());
        let sender = c.messages[k - 1].sender.as_str();
        if !same(sender, "you") && !same(sender, c.id.as_str()) && !starts_with_char(sender, '+') {
            return Some(c.messages[k - 1].sender.clone());
        }
        k -= 1;
    }
    None
}

impl ConversationStore {
    fn load_conversation(&mut self, c: Conversation, present: &StrSet)
        ensures
            final(self).deep_view() == conversation_loaded(
                old(self).deep_view(),
                c.deep_view(),
                present.deep_view(),
            ),
    {
        let mut c = c;
        let id = c.id.clone();
        let n = c.messages.len();
        let unread = c.unread;
        let ghost before = c.deep_view();
        let mut msgs: Vec<DisplayMessage> = Vec::new();
        msgs.append(&mut c.messages);
        assert(msgs.deep_view() =~= before.messages);
        c.messages = load_messages(msgs, present);
        if n >= PAGE_SIZE {
            self.has_more_messages.insert(id.clone());
        }
        self.conversations.insert(id.clone(), c);
        if n > 0 {
            self.last_read_index.insert(id, n.saturating_sub(unread));
        }
    }
}

impl App {
    fn load_conversations(&mut self, convs: Vec<Conversation>, present: &StrSet)
        ensures
            final(self).state() == (AppView {
                store: conversations_loaded(
                    old(self).state().store,
                    convs.deep_view(),
                    present.deep_view(),
                    convs.deep_view().len() as int,
                ),
                ..old(self).state()
            }),
    {
        reveal(App::state);
        let ghost s = convs.deep_view();
        let ghost before = self.store.deep_view();
        let mut i: usize = 0;
        while i < convs.len()
            invariant
                i <= convs@.len(),
                s == convs.deep_view(),
                *self == (App { store: self.store, ..*old(self) }),
                self.store.deep_view() == conversations_loaded(
                    before,
                    s,
                    present.deep_view(),
                    i as int,
                ),
            decreases convs@.len() - i,
        {
            assert(s[i as int] == convs@[i as int].deep_view());
            let c = convs[i].duplicate();
            self.store.load_conversation(c, present);
            i += 1;
        }
    }

    fn name_conversations(&mut self)
        ensures
            final(self).state() == ({
                let a = old(self).state();
                AppView {
                    store: ConversationStoreView {
                        conversations: conversations_named(a.store.conversations),
                        ..a.store
                    },
                    jobs: a.jobs + naming_jobs(
                        a.store.conversations,
                        a.store.conversations.len() as int,
                    ),
                    ..a
                }
            }),
    {
        reveal(App::state);
        let ghost s = self.store.conversations.deep_view();
        let ghost done = conversations_named(s);
        let ghost jobs0 = self.jobs.deep_view();
        let mut i: usize = 0;
        assert(jobs0 + Seq::<DbJobView>::empty() =~= jobs0);
        while i < self.store.conversations.entries.len()
            invariant
                i <= self.store.conversations.entries@.len(),
                self.store.conversations.entries@.len() == s.len(),
                done == conversations_named(s),
                *self == (App {
                    store: ConversationStore {
                        conversations: self.store.conversations,
                        ..old(self).store
                    },
                    jobs: self.jobs,
                    ..*old(self)
                }),
                forall|k: int|
                    0 <= k < i ==> (#[trigger] self.store.conversations.entries@[k]).deep_view()
                        == done[k],
                forall|k: int|
                    i <= k < s.len() ==> (
                    #[trigger] self.store.conversations.entries@[k]).deep_view() == s[k],
                self.jobs.deep_view() == jobs0 + naming_jobs(s, i as int),
            decreases self.store.conversations.entries@.len() - i,
        {
            assert(self.store.conversations.entries@[i as int].deep_view() == s[i as int]);
            if let Some(name) = find_name(&self.store.conversations.entries[i].1) {
                let id = self.store.conversations.entries[i].1.id.clone();
                enqueue(
                    &mut self.jobs,
                    DbWrite::UpsertConversation { id, name: name.clone(), is_group: false },
                    "upsert_conversation",
                    false,
                );
                self.store.conversations.entries[i].1.name = name;
            }
            assert(self.jobs.deep_view() =~= jobs0 + naming_jobs(s, i + 1));
            i += 1;
        }
        assert(self.store.conversations.deep_view() =~= done);
    }

    fn set_loaded(&mut self, order: Vec<String>, muted: StrSet, blocked: StrSet)
        ensures
            final(self).state() == (AppView {
                store: ConversationStoreView {
                    conversation_order: order.deep_view(),
                    ..old(self).state().store
                },
                muted: muted.deep_view(),
                blocked: blocked.deep_view(),
                ..old(self).state()
            }),
    {
        reveal(App::state);
        self.store.conversation_order = order;
        self.muted = muted;
        self.blocked = blocked;
    }

    /// Takes what the database holds: conversations, their order, and which are
    /// muted or blocked. `present` are the files of images that are there.
    pub fn load_from_db(
        &mut self,
        convs: Vec<Conversation>,
        order: Vec<String>,
        muted: StrSet,
        blocked: StrSet,
        present: &StrSet,
    )
        ensures
            final(self).state() == database_loaded(
                old(self).state(),
                convs.deep_view(),
                order.deep_view(),
                muted.deep_view(),
                blocked.deep_view(),
                present.deep_view(),
            ),
    {
        self.load_conversations(convs, present);
        self.set_loaded(order, muted, blocked);
        self.name_conversations();
    }
}

// ---------------------------------------------------------------------------
// Older messages
// ---------------------------------------------------------------------------

/// Which messages are to be loaded next: the conversation, and how many of its
/// messages are loaded.
pub open spec fn page_wanted(a: AppView) -> Option<(Seq<char>, nat)> {
    match a.active_conversation {
        Some(id) => if a.store.has_more_messages.contains(id) {
            Some(
                (
                    id,
                    match a.active() {
                        Some(c) => c.messages.len(),
                        None => 0,
                    },
                ),
            )
        } else {
            None
        },
        None => None,
    }
}

/// An index moved behind messages that were put in front.
pub open spec fn index_shifted(i: usize, n: nat) -> usize {
    at_most_max(i + n)
}

/// The state with older messages of a conversation. What points to its messages
/// still points to the same ones.
pub open spec fn page_loaded(
    a: AppView,
    id: Seq<char>,
    page: Seq<DisplayMessageView>,
    present: Set<Seq<char>>,
) -> AppView {
    let n = page.len();
    let more = if n < PAGE_SIZE {
        a.store.has_more_messages.remove(id)
    } else {
        a.store.has_more_messages
    };
    AppView {
        store: ConversationStoreView {
            has_more_messages: more,
            conversations: match look(a.store.conversations, id) {
                Some(c) => put(
                    a.store.conversations,
                    id,
                    ConversationView {
                        messages: messages_loaded(page, present) + c.messages,
                        ..c
                    },
                ),
                None => a.store.conversations,
            },
            last_read_index: match look(a.store.last_read_index, id) {
                Some(i) => put(a.store.last_read_index, id, index_shifted(i, n)),
                None => a.store.last_read_index,
            },
            ..a.store
        },
        scroll: ScrollStateView {
            focused_index: match a.scroll.focused_index {
                Some(i) => if a.active_conversation == Some(id) {
                    Some(index_shifted(i, n))
                } else {
                    Some(i)
                },
                None => None,
            },
            ..a.scroll
        },
        ..a
    }
}

/// The focused message is still the same one after older messages were loaded.
pub proof fn focus_stays(
    a: AppView,
    id: Seq<char>,
    page: Seq<DisplayMessageView>,
    present: Set<Seq<char>>,
    i: usize,
)
    requires
        a.active_conversation == Some(id),
        look(a.store.conversations, id) is Some,
        a.scroll.focused_index == Some(i),
        i < a.active()->0.messages.len(),
        page.len() + i <= usize::MAX,
    ensures
        crate::actions::selected(page_loaded(a, id, page, present)) == crate::actions::selected(a),
{
    let b = page_loaded(a, id, page, present);
    let c = at(a.store.conversations, id);
    let d = ConversationView { messages: messages_loaded(page, present) + c.messages, ..c };
    crate::strmap::look_after_put(a.store.conversations, id, d, id);
    assert(d.messages[page.len() + i] == c.messages[i as int]);
}

impl App {
    /// Which messages are to be loaded next, as the conversation is scrolled to
    /// its top: the conversation, and how many of its messages are loaded.
    pub fn load_more_messages(&mut self) -> (r: Option<(String, usize)>)
        ensures
            final(self).state() == old(self).state().lowered(Flag::AtScrollTop),
            match r {
                Some((id, n)) => page_wanted(old(self).state()) == Some((id@, n as nat)),
                None => page_wanted(old(self).state()) is None,
            },
    {
        self.lower(Flag::AtScrollTop);
        reveal(App::state);
        match &self.active_conversation {
            Some(id) => if self.store.has_more_messages.contains(id.as_str()) {
                let n = match self.store.conversations.get(id.as_str()) {
                    Some(c) => c.messages.len(),
                    None => 0,
                };
                Some((id.clone(), n))
            } else {
                None
            },
            None => None,
        }
    }

    /// Takes older messages of a conversation. `present` are the files of images
    /// that are there.
    pub fn take_page(&mut self, id: &str, page: Vec<DisplayMessage>, present: &StrSet)
        ensures
            final(self).state() == page_loaded(
                old(self).state(),
                id@,
                page.deep_view(),
                present.deep_view(),
            ),
    {
        reveal(App::state);
        let n = page.len();
        if n < PAGE_SIZE {
            self.store.has_more_messages.remove(id);
        }
        let mut front = load_messages(page, present);
        let ghost head = front.deep_view();
        if let Some(c) = self.store.conversations.get_mut(id) {
            let ghost tail = c.messages.deep_view();
            front.append(&mut c.messages);
            assert(front.deep_view() =~= head + tail);
            c.messages = front;
        }
        if let Some(i) = self.store.last_read_index.get_mut(id) {
            *i = (*i).saturating_add(n);
        }
        if let Some(active) = &self.active_conversation {
            if same(active.as_str(), id) {
                if let Some(i) = self.scroll.focused_index {
                    self.scroll.focused_index = Some(i.saturating_add(n));
                }
            }
        }
    }
}

} // verus!
