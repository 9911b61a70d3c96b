//! Which keys do what.
use crate::actions::{
    copying_asked, deletion_asked, edit_begun, forwarding_begun, reacting_begun, reply_begun,
    selected,
};
use crate::app::{
    App, AppView, AutocompleteMode, AutocompleteStateView, Flag, InputMode, InputStateView, Overlay,
    ScrollStateView, SendRequest, SendRequestView, Setting, SidebarStateView,
};
use crate::autocomplete::{
    accepted, candidate_selected, completed, completion_closed, index_above, index_below, typed,
};
use crate::commands::{input_handled, switched};
use crate::composer::{edited, input_edited, line_len, with_input, without_letters, without_word};
use crate::directory::verify_key;
use crate::emoji_picker::emoji_key;
use crate::file_picker::browser_key;
use crate::key_overlay::{keybindings_key, theme_key};
use crate::keybindings::{BindingMode, KeyAction};
use crate::keys::{KeyCode, KeyModifiers};
use crate::lists::{contacts_key, forward_key, group_key};
use crate::menu::{
    action_key, action_selected, at_bottom, ballot_key, pin_key, pin_toggled, profile_key,
    request_key,
};
use crate::actions::{delete_key, reaction_key};
use crate::navigation::{
    moved, sidebar_key, sidebar_width, status_updated, typing_request, typing_reset,
};
use crate::search::{adjacent_focused, jumped_back, jumped_to_quote, search_jumped, search_pressed};
use crate::settings::{profile_manager_key, settings_key};
use crate::text::{drop_white, from_range, is_white, to_chars};
use vstd::prelude::*;

verus! {

// ---------------------------------------------------------------------------
// Scrolling
// ---------------------------------------------------------------------------

/// The state scrolled to another offset, with no message focused.
pub open spec fn scrolled_to(a: AppView, offset: usize) -> AppView {
    AppView { scroll: ScrollStateView { offset, focused_index: None, ..a.scroll }, ..a }
}

/// The state scrolled up.
pub open spec fn scrolled_up(a: AppView, n: usize) -> AppView {
    scrolled_to(
        a,
        if a.scroll.offset + n > usize::MAX {
            usize::MAX
        } else {
            (a.scroll.offset + n) as usize
        },
    )
}

/// The state scrolled down.
pub open spec fn scrolled_down(a: AppView, n: usize) -> AppView {
    scrolled_to(
        a,
        if a.scroll.offset < n {
            0
        } else {
            (a.scroll.offset - n) as usize
        },
    )
}

/// The state scrolled to the oldest message.
pub open spec fn scrolled_to_top(a: AppView) -> AppView {
    scrolled_to(
        a,
        match a.active() {
            Some(c) => c.messages.len() as usize,
            None => a.scroll.offset,
        },
    )
}

/// Scrolling down takes scrolling up by as much back.
pub proof fn scrolling_comes_back(a: AppView, n: usize)
    requires
        a.scroll.offset + n <= usize::MAX,
    ensures
        scrolled_down(scrolled_up(a, n), n).scroll.offset == a.scroll.offset,
{
}

impl App {
    /// Scrolls up.
    pub fn scroll_up(&mut self, n: usize)
        ensures
            final(self).state() == scrolled_up(old(self).state(), n),
    {
        reveal(App::state);
        self.scroll.offset = self.scroll.offset.saturating_add(n);
        self.scroll.focused_index = None;
    }

    /// Scrolls down.
    pub fn scroll_down(&mut self, n: usize)
        ensures
            final(self).state() == scrolled_down(old(self).state(), n),
    {
        reveal(App::state);
        self.scroll.offset = self.scroll.offset.saturating_sub(n);
        self.scroll.focused_index = None;
    }

    fn scroll_to_top(&mut self)
        ensures
            final(self).state() == scrolled_to_top(old(self).state()),
    {
        reveal(App::state);
        if let Some(id) = &self.active_conversation {
            if let Some(c) = self.store.conversations.get(id.as_str()) {
                self.scroll.offset = c.messages.len();
            }
        }
        self.scroll.focused_index = None;
    }
}

// ---------------------------------------------------------------------------
// Keys that work in every mode
// ---------------------------------------------------------------------------

/// The state with the sidebar being searched.
pub open spec fn sidebar_search(a: AppView) -> AppView {
    AppView {
        sidebar: SidebarStateView { filter: Seq::empty(), filtered: Seq::empty(), ..a.sidebar },
        ..switched(a, Setting::SidebarVisible, true).raised(Flag::SidebarFilter)
    }
}

/// The state with a sidebar of another width.
pub open spec fn sidebar_resized(a: AppView, delta: i16) -> AppView {
    AppView {
        sidebar: SidebarStateView { width: sidebar_width(a.sidebar.width + delta), ..a.sidebar },
        ..a
    }
}

/// The state after a request to quit: with text in the input, a second one is
/// needed.
pub open spec fn quit_asked(a: AppView) -> AppView {
    if a.input.text().len() == 0 || a.is(Flag::QuitConfirm) {
        a.raised(Flag::ShouldQuit)
    } else {
        a.raised(Flag::QuitConfirm)
    }
}

/// The state after a key that works in every mode, and whether it was one.
pub open spec fn global_done(a: AppView, action: Option<KeyAction>) -> (AppView, bool) {
    match action {
        Some(KeyAction::Quit) => (quit_asked(a), true),
        Some(KeyAction::NextConversation) => if !a.shows(Overlay::Autocomplete) {
            (moved(a, true), true)
        } else {
            (a, false)
        },
        Some(KeyAction::PrevConversation) => (moved(a, false), true),
        Some(KeyAction::ResizeSidebarLeft) => (sidebar_resized(a, (0 - 2) as i16), true),
        Some(KeyAction::ResizeSidebarRight) => (sidebar_resized(a, 2), true),
        Some(KeyAction::PageScrollUp) => (scrolled_up(a, 5), true),
        Some(KeyAction::PageScrollDown) => (scrolled_down(a, 5), true),
        Some(KeyAction::SidebarSearch) => (sidebar_search(a), true),
        _ => (a, false),
    }
}

/// The state after a key, where it works in every mode, and whether it does. Any
/// key but the one that quits takes back a first request to quit.
pub open spec fn global_key(a: AppView, modifiers: KeyModifiers, code: KeyCode) -> (
    AppView,
    bool,
) {
    let action = a.keybindings.resolved(modifiers, code, BindingMode::Global);
    let b = if a.is(Flag::QuitConfirm) && action != Some(KeyAction::Quit) {
        status_updated(a.lowered(Flag::QuitConfirm))
    } else {
        a
    };
    global_done(b, action)
}

/// With text in the input, it takes two requests to quit.
pub proof fn two_requests_to_quit(a: AppView)
    requires
        a.input.text().len() > 0,
        !a.is(Flag::QuitConfirm),
        !a.is(Flag::ShouldQuit),
    ensures
        !quit_asked(a).is(Flag::ShouldQuit),
        quit_asked(quit_asked(a)).is(Flag::ShouldQuit),
{
}

impl App {
    /// Searches the sidebar.
    pub fn begin_sidebar_search(&mut self)
        ensures
            final(self).state() == sidebar_search(old(self).state()),
    {
        reveal(App::state);
        self.settings.assign(Setting::SidebarVisible, true);
        self.raise(Flag::SidebarFilter);
        self.sidebar.filter = String::new();
        self.sidebar.filtered = Vec::new();
        assert(self.sidebar.filter@ =~= Seq::<char>::empty());
        assert(self.sidebar.filtered.deep_view() =~= Seq::<Seq<char>>::empty());
    }

    fn input_empty(&self) -> (r: bool)
        ensures
            r == (self.state().input.text().len() == 0),
    {
        reveal(App::state);
        self.input.is_empty()
    }

    fn ask_quit(&mut self)
        ensures
            final(self).state() == quit_asked(old(self).state()),
    {
        if self.input_empty() || self.has_flag(Flag::QuitConfirm) {
            self.raise(Flag::ShouldQuit);
        } else {
            self.raise(Flag::QuitConfirm);
        }
    }

    fn bound(&self, modifiers: KeyModifiers, code: KeyCode, mode: BindingMode) -> (r: Option<
        KeyAction,
    >)
        ensures
            r == self.state().keybindings.resolved(modifiers, code, mode),
    {
        reveal(App::state);
        self.keybindings.resolve(modifiers, code, mode)
    }

    fn do_global(&mut self, action: Option<KeyAction>) -> (r: bool)
        ensures
            (final(self).state(), r) == global_done(old(self).state(), action),
    {
        match action {
            Some(KeyAction::Quit) => {
                self.ask_quit();
                true
            },
            Some(KeyAction::NextConversation) => {
                if self.is_open(Overlay::Autocomplete) {
                    false
                } else {
                    self.next_conversation();
                    true
                }
            },
            Some(KeyAction::PrevConversation) => {
                self.prev_conversation();
                true
            },
            Some(KeyAction::ResizeSidebarLeft) => {
                self.resize_sidebar(-2);
                true
            },
            Some(KeyAction::ResizeSidebarRight) => {
                self.resize_sidebar(2);
                true
            },
            Some(KeyAction::PageScrollUp) => {
                self.scroll_up(5);
                true
            },
            Some(KeyAction::PageScrollDown) => {
                self.scroll_down(5);
                true
            },
            Some(KeyAction::SidebarSearch) => {
                self.begin_sidebar_search();
                true
            },
            _ => false,
        }
    }

    /// Handles a key that works in every mode. Says whether it was one.
    pub fn handle_global_key(&mut self, modifiers: KeyModifiers, code: KeyCode) -> (r: bool)
        ensures
            (final(self).state(), r) == global_key(old(self).state(), modifiers, code),
    {
        let action = self.bound(modifiers, code, BindingMode::Global);
        let quit = match action {
            Some(KeyAction::Quit) => true,
            _ => false,
        };
        if self.has_flag(Flag::QuitConfirm) && !quit {
            self.lower(Flag::QuitConfirm);
            self.update_status();
        }
        self.do_global(action)
    }
}

// ---------------------------------------------------------------------------
// Keys while candidates are offered
// ---------------------------------------------------------------------------

/// The state after a key while candidates are offered, and what is sent. A
/// command that was completed by the return key is done at once.
#[verifier::opaque]
pub open spec fn completion_key(a: AppView, code: KeyCode, now_ms: i64) -> (
    AppView,
    Option<SendRequestView>,
) {
    let s = a.autocomplete;
    match code {
        KeyCode::Up => (candidate_selected(a, index_above(s.index, s.count())), None),
        KeyCode::Down => (candidate_selected(a, index_below(s.index, s.count())), None),
        KeyCode::Tab => (accepted(a), None),
        KeyCode::Esc => (completion_closed(a), None),
        KeyCode::Enter => if s.mode == AutocompleteMode::Mention {
            (accepted(a), None)
        } else {
            input_handled(accepted(a), now_ms)
        },
        _ => (completed(input_edited(a, code)), None),
    }
}

impl App {
    /// Handles a key while candidates are offered.
    pub fn handle_autocomplete_key(&mut self, code: KeyCode, now_ms: i64) -> (r: Option<
        SendRequest,
    >)
        ensures
            (final(self).state(), r.deep_view()) == completion_key(
                old(self).state(),
                code,
                now_ms,
            ),
    {
        reveal(completion_key);
        assert(self.autocomplete.deep_view() == self.state().autocomplete) by {
            reveal(App::state);
        }
        let n = self.autocomplete.len();
        let i = self.autocomplete.index;
        match code {
            KeyCode::Up => {
                let above = if n == 0 {
                    i
                } else if i == 0 {
                    n - 1
                } else {
                    i - 1
                };
                self.select_candidate(above);
            },
            KeyCode::Down => {
                let below = if n == 0 {
                    i
                } else {
                    proof {
                        vstd::arithmetic::div_mod::lemma_add_mod_noop(i as int, 1, n as int);
                        vstd::arithmetic::div_mod::lemma_mod_twice(i as int, n as int);
                        vstd::arithmetic::div_mod::lemma_add_mod_noop(
                            i as int % n as int,
                            1,
                            n as int,
                        );
                        vstd::arithmetic::div_mod::lemma_mod_bound(i as int, n as int);
                    }
                    (i % n + 1) % n
                };
                self.select_candidate(below);
            },
            KeyCode::Tab => self.apply_autocomplete(),
            KeyCode::Esc => self.close_completion(),
            KeyCode::Enter => {
                let mention = self.autocomplete.mode == AutocompleteMode::Mention;
                self.apply_autocomplete();
                if !mention {
                    return self.handle_input(now_ms);
                }
            },
            _ => {
                let _ = self.apply_input_edit(code);
                self.update_autocomplete();
            },
        }
        None
    }
}

// ---------------------------------------------------------------------------
// Keys while an overlay is open
// ---------------------------------------------------------------------------

/// The state after a key while something is open over the conversation, whether
/// something was, and what is sent. What was opened last of what can be open at
/// a time takes the key.
pub open spec fn overlay_key(a: AppView, code: KeyCode, now_ms: i64) -> (
    AppView,
    bool,
    Option<SendRequestView>,
) {
    if a.is(Flag::SidebarFilter) {
        (sidebar_key(a, code), true, None)
    } else if a.shows(Overlay::PollVote) {
        let (b, r) = ballot_key(a, code);
        (b, true, r)
    } else if a.shows(Overlay::PinDuration) {
        let (b, r) = pin_key(a, code, now_ms);
        (b, true, r)
    } else if a.shows(Overlay::ActionMenu) {
        let (b, r) = action_key(a, code, now_ms);
        (b, true, r)
    } else if a.shows(Overlay::DeleteConfirm) {
        let (b, r) = delete_key(a, code);
        (b, true, r)
    } else if a.shows(Overlay::FileBrowser) {
        (browser_key(a, code), true, None)
    } else if a.shows(Overlay::EmojiPicker) {
        let (b, r) = emoji_key(a, code);
        (b, true, r)
    } else if a.shows(Overlay::ReactionPicker) {
        let (b, r) = reaction_key(a, code);
        (b, true, r)
    } else if a.shows(Overlay::MessageRequest) {
        let (b, r) = request_key(a, code);
        (b, true, r)
    } else if a.group_menu.state is Some {
        let (b, r) = group_key(a, code);
        (b, true, r)
    } else {
        page_key(a, code, now_ms)
    }
}

/// The same, for what takes keys last.
pub open spec fn page_key(a: AppView, code: KeyCode, now_ms: i64) -> (
    AppView,
    bool,
    Option<SendRequestView>,
) {
    if a.shows(Overlay::About) {
        (a.closed(Overlay::About), true, None)
    } else if a.shows(Overlay::Profile) {
        let (b, r) = profile_key(a, code);
        (b, true, r)
    } else if a.shows(Overlay::Help) {
        (a.closed(Overlay::Help), true, None)
    } else if a.shows(Overlay::Verify) {
        let (b, r) = verify_key(a, code);
        (b, true, r)
    } else if a.shows(Overlay::Forward) {
        let (b, r) = forward_key(a, code, now_ms);
        (b, true, r)
    } else if a.shows(Overlay::Contacts) {
        (contacts_key(a, code), true, None)
    } else if a.shows(Overlay::Search) {
        (search_pressed(a, code), true, None)
    } else if a.shows(Overlay::SettingsProfiles) {
        (profile_manager_key(a, code), true, None)
    } else if a.shows(Overlay::ThemePicker) {
        (theme_key(a, code), true, None)
    } else if a.shows(Overlay::Keybindings) {
        (keybindings_key(a, code), true, None)
    } else if a.shows(Overlay::Settings) {
        (settings_key(a, code), true, None)
    } else if a.shows(Overlay::Autocomplete) {
        let (b, r) = completion_key(a, code, now_ms);
        (b, true, r)
    } else {
        (a, false, None)
    }
}

impl App {
    fn group_menu_open(&self) -> (r: bool)
        ensures
            r == (self.state().group_menu.state is Some),
    {
        reveal(App::state);
        self.group_menu.state.is_some()
    }

    fn handle_page_key(&mut self, code: KeyCode, now_ms: i64) -> (r: (bool, Option<SendRequest>))
        ensures
            (final(self).state(), r.0, r.1.deep_view()) == page_key(
                old(self).state(),
                code,
                now_ms,
            ),
    {
        if self.is_open(Overlay::About) {
            self.close_overlay(Overlay::About);
            (true, None)
        } else if self.is_open(Overlay::Profile) {
            let send = self.handle_profile_key(code);
            (true, send)
        } else if self.is_open(Overlay::Help) {
            self.close_overlay(Overlay::Help);
            (true, None)
        } else if self.is_open(Overlay::Verify) {
            let send = self.handle_verify_key(code);
            (true, send)
        } else if self.is_open(Overlay::Forward) {
            let send = self.handle_forward_key(code, now_ms);
            (true, send)
        } else if self.is_open(Overlay::Contacts) {
            self.handle_contacts_key(code);
            (true, None)
        } else if self.is_open(Overlay::Search) {
            self.handle_search_key(code);
            (true, None)
        } else if self.is_open(Overlay::SettingsProfiles) {
            self.handle_settings_profile_manager_key(code);
            (true, None)
        } else if self.is_open(Overlay::ThemePicker) {
            self.handle_theme_key(code);
            (true, None)
        } else if self.is_open(Overlay::Keybindings) {
            self.handle_keybindings_key(code);
            (true, None)
        } else if self.is_open(Overlay::Settings) {
            self.handle_settings_key(code);
            (true, None)
        } else if self.is_open(Overlay::Autocomplete) {
            let send = self.handle_autocomplete_key(code, now_ms);
            (true, send)
        } else {
            (false, None)
        }
    }

    /// Handles a key while something is open over the conversation. Says whether
    /// something was, and what is to be sent.
    pub fn handle_overlay_key(&mut self, code: KeyCode, now_ms: i64) -> (r: (
        bool,
        Option<SendRequest>,
    ))
        ensures
            (final(self).state(), r.0, r.1.deep_view()) == overlay_key(
                old(self).state(),
                code,
                now_ms,
            ),
    {
        if self.has_flag(Flag::SidebarFilter) {
            self.handle_sidebar_filter_key(code);
            (true, None)
        } else if self.is_open(Overlay::PollVote) {
            let send = self.handle_poll_vote_key(code);
            (true, send)
        } else if self.is_open(Overlay::PinDuration) {
            let send = self.handle_pin_duration_key(code, now_ms);
            (true, send)
        } else if self.is_open(Overlay::ActionMenu) {
            let send = self.handle_action_menu_key(code, now_ms);
            (true, send)
        } else if self.is_open(Overlay::DeleteConfirm) {
            let send = self.handle_delete_confirm_key(code);
            (true, send)
        } else if self.is_open(Overlay::FileBrowser) {
            self.handle_file_browser_key(code);
            (true, None)
        } else if self.is_open(Overlay::EmojiPicker) {
            let send = self.handle_emoji_picker_key(code);
            (true, send)
        } else if self.is_open(Overlay::ReactionPicker) {
            let send = self.handle_reaction_picker_key(code);
            (true, send)
        } else if self.is_open(Overlay::MessageRequest) {
            let send = self.handle_message_request_key(code);
            (true, send)
        } else if self.group_menu_open() {
            let send = self.handle_group_menu_key(code);
            (true, send)
        } else {
            self.handle_page_key(code, now_ms)
        }
    }
}

// ---------------------------------------------------------------------------
// What keys do to the input
// ---------------------------------------------------------------------------

/// How many characters that are no spaces begin a text.
pub open spec fn letters_len(s: Seq<char>) -> int
    decreases s.len(),
{
    if s.len() == 0 || is_white(s[0]) {
        0
    } else {
        1 + letters_len(s.skip(1))
    }
}

/// How many spaces begin a text.
pub open spec fn whites_len(s: Seq<char>) -> int
    decreases s.len(),
{
    if s.len() == 0 || !is_white(s[0]) {
        0
    } else {
        1 + whites_len(s.skip(1))
    }
}

/// The input with the cursor at the next word.
pub open spec fn word_ahead(i: InputStateView) -> InputStateView {
    let n = letters_len(i.after);
    i.at_char(i.before.len() + n + whites_len(i.after.skip(n)))
}

/// The input with the cursor at the word before.
pub open spec fn word_behind(i: InputStateView) -> InputStateView {
    i.at_char(without_word(i.before).len() as int)
}

/// The input without the character under the cursor. At its end the cursor stays
/// on a character.
pub open spec fn char_cut(i: InputStateView) -> InputStateView {
    if i.after.len() == 0 {
        i
    } else {
        let j = InputStateView { after: i.after.drop_first(), ..i };
        if j.after.len() == 0 && j.before.len() > 0 {
            j.at_char(j.before.len() - 1)
        } else {
            j
        }
    }
}

/// The input without the rest of the line.
pub open spec fn line_cut(i: InputStateView) -> InputStateView {
    InputStateView { after: i.after.skip(line_len(i.after)), ..i }
}

/// The input with nothing in it.
pub open spec fn emptied(i: InputStateView) -> InputStateView {
    InputStateView { before: Seq::empty(), after: Seq::empty(), ..i }
}

/// The input after a key that edits it or moves the cursor.
pub open spec fn stepped(i: InputStateView, code: KeyCode) -> InputStateView {
    match edited(i, code) {
        Some(j) => j,
        None => i,
    }
}

proof fn letters_bound(s: Seq<char>)
    ensures
        0 <= letters_len(s) <= s.len(),
    decreases s.len(),
{
    if s.len() > 0 && !is_white(s[0]) {
        letters_bound(s.skip(1));
    }
}

proof fn whites_bound(s: Seq<char>)
    ensures
        0 <= whites_len(s) <= s.len(),
    decreases s.len(),
{
    if s.len() > 0 && is_white(s[0]) {
        whites_bound(s.skip(1));
    }
}

proof fn word_bound(s: Seq<char>)
    ensures
        without_word(s).len() <= s.len(),
{
    white_shrinks(s);
    letters_shrink(drop_white(s));
}

proof fn white_shrinks(s: Seq<char>)
    ensures
        drop_white(s).len() <= s.len(),
    decreases s.len(),
{
    if s.len() > 0 && is_white(s.last()) {
        white_shrinks(s.drop_last());
    }
}

proof fn letters_shrink(s: Seq<char>)
    ensures
        without_letters(s).len() <= s.len(),
    decreases s.len(),
{
    if s.len() > 0 && !is_white(s.last()) {
        letters_shrink(s.drop_last());
    }
}

/// Words are gone through without changing the text.
pub proof fn words_keep_text(i: InputStateView)
    ensures
        word_ahead(i).text() == i.text(),
        word_behind(i).text() == i.text(),
{
    let n = letters_len(i.after);
    letters_bound(i.after);
    whites_bound(i.after.skip(n));
    word_bound(i.before);
    let k = i.before.len() + n + whites_len(i.after.skip(n));
    assert(i.text().take(k) + i.text().skip(k) =~= i.text());
    let m = without_word(i.before).len() as int;
    assert(i.text().take(m) + i.text().skip(m) =~= i.text());
}

fn count_letters(s: &Vec<char>) -> (r: usize)
    ensures
        r == letters_len(s@),
        r <= s@.len(),
{
    let mut n: usize = 0;
    assert(s@.skip(0) =~= s@);
    while n < s.len() && !s[n].is_whitespace()
        invariant
            n <= s@.len(),
            letters_len(s@) == n + letters_len(s@.skip(n as int)),
        decreases s@.len() - n,
    {
        assert(s@.skip(n as int).skip(1) =~= s@.skip(n + 1));
        assert(s@.skip(n as int)[0] == s@[n as int]);
        n += 1;
    }
    proof {
        if n < s@.len() {
            assert(s@.skip(n as int)[0] == s@[n as int]);
        }
    }
    n
}

fn count_whites(s: &Vec<char>, from: usize) -> (r: usize)
    requires
        from <= s@.len(),
    ensures
        r == whites_len(s@.skip(from as int)),
        from + r <= s.len(),
{
    let mut n: usize = from;
    while n < s.len() && s[n].is_whitespace()
        invariant
            from <= n <= s.len(),
            whites_len(s@.skip(from as int)) == n - from + whites_len(s@.skip(n as int)),
        decreases s@.len() - n,
    {
        assert(s@.skip(n as int).skip(1) =~= s@.skip(n + 1));
        assert(s@.skip(n as int)[0] == s@[n as int]);
        n += 1;
    }
    proof {
        if n < s@.len() {
            assert(s@.skip(n as int)[0] == s@[n as int]);
        }
    }
    n - from
}

impl App {
    fn step_input(&mut self, code: KeyCode)
        ensures
            final(self).state() == with_input(
                old(self).state(),
                stepped(old(self).state().input, code),
            ),
    {
        reveal(App::state);
        let _ = self.input.edit(code);
    }

    fn go_word_ahead(&mut self)
        ensures
            final(self).state() == with_input(
                old(self).state(),
                word_ahead(old(self).state().input),
            ),
    {
        reveal(App::state);
        let after = to_chars(self.input.after.as_str());
        let n = count_letters(&after);
        let w = count_whites(&after, n);
        let step = from_range(&after, 0, n + w);
        let rest = from_range(&after, n + w, after.len());
        let ghost i = self.input.deep_view();
        let ghost k = i.before.len() + n + w;
        crate::text::push_text(&mut self.input.before, step.as_str());
        self.input.after = rest;
        assert(self.input.before@ =~= i.text().take(k));
        assert(self.input.after@ =~= i.text().skip(k));
    }

    fn go_word_behind(&mut self)
        ensures
            final(self).state() == with_input(
                old(self).state(),
                word_behind(old(self).state().input),
            ),
    {
        reveal(App::state);
        let ghost i = self.input.deep_view();
        let whole = self.input.before.clone();
        self.input.delete_word_back();
        let k = to_chars(self.input.before.as_str()).len();
        self.input.before = whole;
        proof {
            word_bound(i.before);
        }
        assert(self.input.deep_view() == i);
        self.input.place_cursor(k);
    }

    fn cut_char(&mut self)
        ensures
            final(self).state() == with_input(
                old(self).state(),
                char_cut(old(self).state().input),
            ),
    {
        reveal(App::state);
        if !self.input.after.as_str().is_empty() {
            let _ = self.input.edit(KeyCode::Delete);
            if self.input.after.as_str().is_empty() {
                let _ = self.input.edit(KeyCode::Left);
            }
        }
    }

    fn cut_line(&mut self)
        ensures
            final(self).state() == with_input(
                old(self).state(),
                line_cut(old(self).state().input),
            ),
    {
        reveal(App::state);
        self.input.delete_to_line_end();
    }

    fn empty_line(&mut self)
        ensures
            final(self).state() == with_input(
                old(self).state(),
                emptied(old(self).state().input),
            ),
    {
        reveal(App::state);
        self.input.before = String::new();
        self.input.after = String::new();
        assert(self.input.before@ =~= Seq::<char>::empty());
        assert(self.input.after@ =~= Seq::<char>::empty());
    }

    fn set_mode(&mut self, mode: InputMode)
        ensures
            final(self).state() == (AppView { mode, ..old(self).state() }),
    {
        reveal(App::state);
        self.mode = mode;
    }

    fn cut_word(&mut self)
        ensures
            final(self).state() == with_input(
                old(self).state(),
                InputStateView {
                    before: without_word(old(self).state().input.before),
                    ..old(self).state().input
                },
            ),
    {
        reveal(App::state);
        self.input.delete_word_back();
    }
}

/// The state in insert mode.
pub open spec fn inserting(a: AppView) -> AppView {
    AppView { mode: InputMode::Insert, ..a }
}

/// The state after an action on the input that two modes have in common; none
/// where the action is another.
pub open spec fn cursor_action(a: AppView, action: KeyAction) -> Option<AppView> {
    let i = a.input;
    match action {
        KeyAction::CursorLeft => Some(with_input(a, stepped(i, KeyCode::Left))),
        KeyAction::CursorRight => Some(with_input(a, stepped(i, KeyCode::Right))),
        KeyAction::LineStart => Some(with_input(a, stepped(i, KeyCode::Home))),
        KeyAction::LineEnd => Some(with_input(a, stepped(i, KeyCode::End))),
        KeyAction::DeleteToEnd => Some(with_input(a, line_cut(i))),
        KeyAction::ScrollDown => Some(scrolled_down(a, 1)),
        KeyAction::ScrollUp => Some(scrolled_up(a, 1)),
        _ => None,
    }
}

/// The state with nothing in the input and nobody mentioned, where there was
/// text.
pub open spec fn input_cleared(a: AppView) -> AppView {
    if a.input.text().len() == 0 {
        a
    } else {
        AppView {
            autocomplete: AutocompleteStateView {
                pending_mentions: Seq::empty(),
                ..a.autocomplete
            },
            ..with_input(a, emptied(a.input))
        }
    }
}

/// The state after an action on the input or the view that only normal mode has;
/// none where the action is another.
pub open spec fn normal_edit(a: AppView, action: KeyAction) -> Option<AppView> {
    let i = a.input;
    match action {
        KeyAction::FocusNextMessage => Some(adjacent_focused(a, false)),
        KeyAction::FocusPrevMessage => Some(adjacent_focused(a, true)),
        KeyAction::HalfPageDown => Some(scrolled_down(a, 10)),
        KeyAction::HalfPageUp => Some(scrolled_up(a, 10)),
        KeyAction::ScrollToTop => Some(scrolled_to_top(a)),
        KeyAction::ScrollToBottom => Some(at_bottom(a)),
        KeyAction::InsertAtCursor => Some(inserting(a)),
        KeyAction::InsertAfterCursor => Some(inserting(with_input(a, stepped(i, KeyCode::Right)))),
        KeyAction::InsertLineStart => Some(inserting(with_input(a, stepped(i, KeyCode::Home)))),
        KeyAction::InsertLineEnd => Some(inserting(with_input(a, stepped(i, KeyCode::End)))),
        KeyAction::OpenLineBelow => Some(inserting(with_input(a, emptied(i)))),
        KeyAction::WordForward => Some(with_input(a, word_ahead(i))),
        KeyAction::WordBack => Some(with_input(a, word_behind(i))),
        KeyAction::DeleteChar => Some(with_input(a, char_cut(i))),
        KeyAction::StartSearch => Some(completed(inserting(with_input(a, i.showing("/"@))))),
        KeyAction::SidebarSearch => Some(sidebar_search(a)),
        KeyAction::ClearInput => Some(input_cleared(a)),
        _ => None,
    }
}

/// The state with the menu of what can be done with the selected message open.
pub open spec fn menu_opened(a: AppView) -> AppView {
    match selected(a) {
        Some(m) => if !m.is_system {
            action_selected(a.opened(Overlay::ActionMenu), 0)
        } else {
            a
        },
        None => a,
    }
}

/// The state after a step among the results of a search, where there are any.
pub open spec fn result_stepped(a: AppView, forward: bool) -> AppView {
    if a.search.results.len() > 0 {
        search_jumped(a, forward)
    } else {
        a
    }
}

/// The state after an action on a message, and what is sent; none where the
/// action is another.
pub open spec fn message_action(a: AppView, action: KeyAction, now_ms: i64) -> Option<
    (AppView, Option<SendRequestView>),
> {
    match action {
        KeyAction::CopyMessage => Some((copying_asked(a, false), None)),
        KeyAction::CopyAllMessages => Some((copying_asked(a, true), None)),
        KeyAction::React => Some((reacting_begun(a), None)),
        KeyAction::ForwardMessage => Some((forwarding_begun(a), None)),
        KeyAction::DeleteMessage => Some((deletion_asked(a), None)),
        KeyAction::NextSearchResult => Some((result_stepped(a, true), None)),
        KeyAction::PrevSearchResult => Some((result_stepped(a, false), None)),
        KeyAction::OpenActionMenu => Some((menu_opened(a), None)),
        KeyAction::PinMessage => Some(pin_toggled(a, now_ms)),
        KeyAction::JumpToQuote => Some((jumped_to_quote(a), None)),
        KeyAction::JumpBack => Some((jumped_back(a), None)),
        _ => None,
    }
}

/// The state after a key in normal mode, and what is sent.
pub open spec fn normal_key(
    a: AppView,
    modifiers: KeyModifiers,
    code: KeyCode,
    now_ms: i64,
) -> (AppView, Option<SendRequestView>) {
    match a.keybindings.resolved(modifiers, code, BindingMode::Normal) {
        Some(action) => match message_action(a, action, now_ms) {
            Some(done) => done,
            None => match cursor_action(a, action) {
                Some(b) => (b, None),
                None => match normal_edit(a, action) {
                    Some(b) => (b, None),
                    None => match action {
                        KeyAction::Quote => (reply_begun(a), None),
                        KeyAction::EditMessage => (edit_begun(a), None),
                        _ => (a, None),
                    },
                },
            },
        },
        None => (a, None),
    }
}

/// The state after text was typed or deleted, and what tells the service so. Where
/// all text is gone, one is no more typing.
pub open spec fn text_typed(a: AppView, clock_ms: u64) -> (AppView, Option<SendRequestView>) {
    if a.input.text().len() == 0 && a.is(Flag::TypingSent) {
        (typing_reset(a), typing_request(a, true))
    } else {
        typed(a, clock_ms)
    }
}

/// The state after a key that is bound to nothing, in insert mode, and what is
/// sent.
pub open spec fn free_key(a: AppView, code: KeyCode, clock_ms: u64) -> (
    AppView,
    Option<SendRequestView>,
) {
    match code {
        KeyCode::Char(_) | KeyCode::Backspace | KeyCode::Delete => text_typed(
            completed(input_edited(a, code)),
            clock_ms,
        ),
        _ => (input_edited(a, code), None),
    }
}

/// The state after insert mode was left, and what is sent.
pub open spec fn insert_left(a: AppView) -> (AppView, Option<SendRequestView>) {
    (
        typing_reset(
            AppView {
                mode: InputMode::Normal,
                reply_target: None,
                editing_message: None,
                ..a.closed(Overlay::Autocomplete)
            },
        ),
        if a.is(Flag::TypingSent) {
            typing_request(a, true)
        } else {
            None
        },
    )
}

/// The state after a line break was put into the input, and what is sent.
pub open spec fn line_broken(a: AppView, clock_ms: u64) -> (AppView, Option<SendRequestView>) {
    typed(
        with_input(
            a,
            InputStateView { before: a.input.before.push('\n'), ..a.input },
        ).closed(Overlay::Autocomplete),
        clock_ms,
    )
}

/// The state after the input was submitted by a key, and what is sent: what the
/// input asks for, else that one is no more typing.
pub open spec fn input_sent(a: AppView, now_ms: i64) -> (AppView, Option<SendRequestView>) {
    let (b, r) = input_handled(typing_reset(a), now_ms);
    (
        b,
        if r is Some {
            r
        } else if a.is(Flag::TypingSent) {
            typing_request(b, true)
        } else {
            None
        },
    )
}

/// The state after an action that only insert mode has, and what is sent; none
/// where the action is another.
pub open spec fn insert_action(
    a: AppView,
    action: KeyAction,
    now_ms: i64,
    clock_ms: u64,
) -> Option<(AppView, Option<SendRequestView>)> {
    match action {
        KeyAction::ExitInsert => Some(insert_left(a)),
        KeyAction::InsertNewline => Some(line_broken(a, clock_ms)),
        KeyAction::SendMessage => Some(input_sent(a, now_ms)),
        KeyAction::DeleteWordBack => Some(
            (
                with_input(
                    a,
                    InputStateView { before: without_word(a.input.before), ..a.input },
                ),
                None,
            ),
        ),
        KeyAction::DeleteChar => Some((with_input(a, stepped(a.input, KeyCode::Delete)), None)),
        KeyAction::Quote => Some((AppView { mode: a.mode, ..reply_begun(a) }, None)),
        KeyAction::EditMessage => Some((AppView { mode: a.mode, ..edit_begun(a) }, None)),
        _ => None,
    }
}

/// The state after a key in insert mode, and what is sent.
pub open spec fn insert_key(
    a: AppView,
    modifiers: KeyModifiers,
    code: KeyCode,
    now_ms: i64,
    clock_ms: u64,
) -> (AppView, Option<SendRequestView>) {
    match a.keybindings.resolved(modifiers, code, BindingMode::Insert) {
        Some(action) => match insert_action(a, action, now_ms, clock_ms) {
            Some(done) => done,
            None => match message_action(a, action, now_ms) {
                Some(done) => done,
                None => match cursor_action(a, action) {
                    Some(b) => (b, None),
                    None => free_key(a, code, clock_ms),
                },
            },
        },
        None => free_key(a, code, clock_ms),
    }
}

impl App {
    fn do_cursor_action(&mut self, action: KeyAction) -> (r: bool)
        ensures
            match cursor_action(old(self).state(), action) {
                Some(b) => r && final(self).state() == b,
                None => !r && final(self).state() == old(self).state(),
            },
    {
        match action {
            KeyAction::CursorLeft => self.step_input(KeyCode::Left),
            KeyAction::CursorRight => self.step_input(KeyCode::Right),
            KeyAction::LineStart => self.step_input(KeyCode::Home),
            KeyAction::LineEnd => self.step_input(KeyCode::End),
            KeyAction::DeleteToEnd => self.cut_line(),
            KeyAction::ScrollDown => self.scroll_down(1),
            KeyAction::ScrollUp => self.scroll_up(1),
            _ => return false,
        }
        true
    }

    fn clear_input(&mut self)
        ensures
            final(self).state() == input_cleared(old(self).state()),
    {
        if !self.input_empty() {
            self.empty_line();
            self.clear_mentions();
        }
    }

    fn do_normal_edit(&mut self, action: KeyAction) -> (r: bool)
        ensures
            match normal_edit(old(self).state(), action) {
                Some(b) => r && final(self).state() == b,
                None => !r && final(self).state() == old(self).state(),
            },
    {
        match action {
            KeyAction::FocusNextMessage => self.jump_to_adjacent_message(false),
            KeyAction::FocusPrevMessage => self.jump_to_adjacent_message(true),
            KeyAction::HalfPageDown => self.scroll_down(10),
            KeyAction::HalfPageUp => self.scroll_up(10),
            KeyAction::ScrollToTop => self.scroll_to_top(),
            KeyAction::ScrollToBottom => self.scroll_to_bottom(),
            KeyAction::InsertAtCursor => self.set_mode(InputMode::Insert),
            KeyAction::InsertAfterCursor => {
                self.step_input(KeyCode::Right);
                self.set_mode(InputMode::Insert);
            },
            KeyAction::InsertLineStart => {
                self.step_input(KeyCode::Home);
                self.set_mode(InputMode::Insert);
            },
            KeyAction::InsertLineEnd => {
                self.step_input(KeyCode::End);
                self.set_mode(InputMode::Insert);
            },
            KeyAction::OpenLineBelow => {
                self.empty_line();
                self.set_mode(InputMode::Insert);
            },
            KeyAction::WordForward => self.go_word_ahead(),
            KeyAction::WordBack => self.go_word_behind(),
            KeyAction::DeleteChar => self.cut_char(),
            KeyAction::StartSearch => {
                self.show_input("/".to_string());
                self.set_mode(InputMode::Insert);
                self.update_autocomplete();
            },
            KeyAction::SidebarSearch => self.begin_sidebar_search(),
            KeyAction::ClearInput => self.clear_input(),
            _ => return false,
        }
        true
    }

    fn open_action_menu(&mut self)
        ensures
            final(self).state() == menu_opened(old(self).state()),
    {
        let open = match self.selected_message() {
            Some(m) => !m.is_system,
            None => false,
        };
        if open {
            self.open_overlay(Overlay::ActionMenu);
            self.select_action(0);
        }
    }

    fn step_result(&mut self, forward: bool)
        ensures
            final(self).state() == result_stepped(old(self).state(), forward),
    {
        assert(self.search.results.deep_view() == self.state().search.results) by {
            reveal(App::state);
        }
        if self.search.results.len() > 0 {
            self.jump_to_search_result(forward);
        }
    }

    fn do_message_action(&mut self, action: KeyAction, now_ms: i64) -> (r: (
        bool,
        Option<SendRequest>,
    ))
        ensures
            match message_action(old(self).state(), action, now_ms) {
                Some(done) => r.0 && (final(self).state(), r.1.deep_view()) == done,
                None => !r.0 && r.1 is None && final(self).state() == old(self).state(),
            },
    {
        match action {
            KeyAction::CopyMessage => self.copy_selected_message(false),
            KeyAction::CopyAllMessages => self.copy_selected_message(true),
            KeyAction::React => self.begin_reaction(),
            KeyAction::ForwardMessage => self.begin_forward(),
            KeyAction::DeleteMessage => self.ask_deletion(),
            KeyAction::NextSearchResult => self.step_result(true),
            KeyAction::PrevSearchResult => self.step_result(false),
            KeyAction::OpenActionMenu => self.open_action_menu(),
            KeyAction::PinMessage => {
                let send = self.execute_pin_toggle(now_ms);
                return (true, send);
            },
            KeyAction::JumpToQuote => self.jump_to_quote(),
            KeyAction::JumpBack => self.jump_back(),
            _ => return (false, None),
        }
        (true, None)
    }

    /// Handles a key in normal mode.
    pub fn handle_normal_key(&mut self, modifiers: KeyModifiers, code: KeyCode, now_ms: i64) -> (r:
        Option<SendRequest>)
        ensures
            (final(self).state(), r.deep_view()) == normal_key(
                old(self).state(),
                modifiers,
                code,
                now_ms,
            ),
    {
        match self.bound(modifiers, code, BindingMode::Normal) {
            Some(action) => {
                let (done, send) = self.do_message_action(action, now_ms);
                if done {
                    return send;
                }
                if self.do_cursor_action(action) {
                    return None;
                }
                if self.do_normal_edit(action) {
                    return None;
                }
                match action {
                    KeyAction::Quote => self.begin_reply(),
                    KeyAction::EditMessage => self.begin_edit(),
                    _ => {},
                }
                None
            },
            None => None,
        }
    }

    fn note_text(&mut self, clock_ms: u64) -> (r: Option<SendRequest>)
        ensures
            (final(self).state(), r.deep_view()) == text_typed(old(self).state(), clock_ms),
    {
        if self.input_empty() && self.has_flag(Flag::TypingSent) {
            let r = self.build_typing_request(true);
            let _ = self.reset_typing();
            r
        } else {
            self.note_typing(clock_ms)
        }
    }

    fn press_free_key(&mut self, code: KeyCode, clock_ms: u64) -> (r: Option<SendRequest>)
        ensures
            (final(self).state(), r.deep_view()) == free_key(old(self).state(), code, clock_ms),
    {
        let _ = self.apply_input_edit(code);
        match code {
            KeyCode::Char(_) | KeyCode::Backspace | KeyCode::Delete => {
                self.update_autocomplete();
                self.note_text(clock_ms)
            },
            _ => None,
        }
    }

    fn drop_targets(&mut self)
        ensures
            final(self).state() == (AppView {
                mode: InputMode::Normal,
                reply_target: None,
                editing_message: None,
                ..old(self).state()
            }),
    {
        reveal(App::state);
        self.mode = InputMode::Normal;
        self.reply_target = None;
        self.editing_message = None;
    }

    fn leave_insert(&mut self) -> (r: Option<SendRequest>)
        ensures
            (final(self).state(), r.deep_view()) == insert_left(old(self).state()),
    {
        let stop = self.build_typing_request(true);
        self.close_overlay(Overlay::Autocomplete);
        self.drop_targets();
        if self.reset_typing() {
            stop
        } else {
            None
        }
    }

    fn push_line(&mut self)
        ensures
            final(self).state() == with_input(
                old(self).state(),
                InputStateView {
                    before: old(self).state().input.before.push('\n'),
                    ..old(self).state().input
                },
            ),
    {
        reveal(App::state);
        self.input.before.push('\n');
    }

    fn break_line(&mut self, clock_ms: u64) -> (r: Option<SendRequest>)
        ensures
            (final(self).state(), r.deep_view()) == line_broken(old(self).state(), clock_ms),
    {
        self.push_line();
        self.close_overlay(Overlay::Autocomplete);
        self.note_typing(clock_ms)
    }

    fn send_input(&mut self, now_ms: i64) -> (r: Option<SendRequest>)
        ensures
            (final(self).state(), r.deep_view()) == input_sent(old(self).state(), now_ms),
    {
        let was_typing = self.reset_typing();
        let result = self.handle_input(now_ms);
        if result.is_some() {
            result
        } else if was_typing {
            self.build_typing_request(true)
        } else {
            None
        }
    }

    fn get_mode(&self) -> (r: InputMode)
        ensures
            r == self.state().mode,
    {
        reveal(App::state);
        self.mode
    }

    fn do_insert_action(&mut self, action: KeyAction, now_ms: i64, clock_ms: u64) -> (r: (
        bool,
        Option<SendRequest>,
    ))
        ensures
            match insert_action(old(self).state(), action, now_ms, clock_ms) {
                Some(done) => r.0 && (final(self).state(), r.1.deep_view()) == done,
                None => !r.0 && r.1 is None && final(self).state() == old(self).state(),
            },
    {
        match action {
            KeyAction::ExitInsert => {
                let send = self.leave_insert();
                (true, send)
            },
            KeyAction::InsertNewline => {
                let send = self.break_line(clock_ms);
                (true, send)
            },
            KeyAction::SendMessage => {
                let send = self.send_input(now_ms);
                (true, send)
            },
            KeyAction::DeleteWordBack => {
                self.cut_word();
                (true, None)
            },
            KeyAction::DeleteChar => {
                self.step_input(KeyCode::Delete);
                (true, None)
            },
            KeyAction::Quote => {
                let mode = self.get_mode();
                self.begin_reply();
                self.set_mode(mode);
                (true, None)
            },
            KeyAction::EditMessage => {
                let mode = self.get_mode();
                self.begin_edit();
                self.set_mode(mode);
                (true, None)
            },
            _ => (false, None),
        }
    }

    /// Handles a key in insert mode.
    pub fn handle_insert_key(
        &mut self,
        modifiers: KeyModifiers,
        code: KeyCode,
        now_ms: i64,
        clock_ms: u64,
    ) -> (r: Option<SendRequest>)
        ensures
            (final(self).state(), r.deep_view()) == insert_key(
                old(self).state(),
                modifiers,
                code,
                now_ms,
                clock_ms,
            ),
    {
        match self.bound(modifiers, code, BindingMode::Insert) {
            Some(action) => {
                let (done, send) = self.do_insert_action(action, now_ms, clock_ms);
                if done {
                    return send;
                }
                let (done, send) = self.do_message_action(action, now_ms);
                if done {
                    return send;
                }
                if self.do_cursor_action(action) {
                    return None;
                }
                self.press_free_key(code, clock_ms)
            },
            None => self.press_free_key(code, clock_ms),
        }
    }
}

} // verus!
