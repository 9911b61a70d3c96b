//! What is promised of the keys: each does what it is bound to, or what the overlay
//! that is open makes of it.
use crate::actions::{
    copying_asked, delete_key, deletion_asked, edit_begun, forwarding_begun, is_live,
    reacting_begun, reaction_key, reply_begun,
};
use crate::app::{AppView, AutocompleteMode, Flag, InputMode, Overlay, SendRequestView, Setting};
use crate::arrivals::messages_of;
use crate::autocomplete::{accepted, completed};
use crate::commands::input_handled;
use crate::composer::input_edited;
use crate::conversation_store::DisplayMessageView;
use crate::directory::verify_key;
use crate::emoji_picker::emoji_key;
use crate::file_picker::browser_key;
use crate::key_overlay::{keybindings_key, theme_key};
use crate::keybindings::{BindingMode, KeyAction, KeyBindingsView};
use crate::keypress::{
    completion_key, cursor_action, global_key, insert_action, insert_key, normal_edit, normal_key,
    overlay_key,
};
use crate::keys::{KeyCode, KeyModifiers};
use crate::lists::{contacts_key, forward_key};
use crate::menu::{
    action_hints, action_key, ballot_key, is_open_poll, offered, pin_key, pin_toggled, poll_stopped,
    profile_key, request_key, selected_hints, vote_begun,
};
use crate::navigation::{moved, sidebar_key};
use crate::places::{points_at, pointed_is_selected};
use crate::search::{search_jumped, search_pressed};
use crate::settings::{profile_manager_key, settings_key};
use vstd::prelude::*;

verus! {

/// A key is bound to an action in a mode.
pub open spec fn bound(
    a: AppView,
    modifiers: KeyModifiers,
    code: KeyCode,
    mode: BindingMode,
    action: KeyAction,
) -> bool {
    a.keybindings.resolved(modifiers, code, mode) == Some(action)
}

/// A key that is bound everywhere does the same in every mode; one that is not does
/// what its mode says, whatever the other mode says.
pub proof fn global_keys_come_first(
    kb: KeyBindingsView,
    other: KeyBindingsView,
    modifiers: KeyModifiers,
    code: KeyCode,
    mode: BindingMode,
)
    ensures
        ({
            let everywhere = kb.resolved(modifiers, code, BindingMode::Global);
            &&& everywhere is Some ==> kb.resolved(modifiers, code, mode) == everywhere
            &&& everywhere is None && mode == BindingMode::Normal && other.global == kb.global
                && other.normal == kb.normal ==> other.resolved(modifiers, code, mode)
                == kb.resolved(modifiers, code, mode)
            &&& everywhere is None && mode == BindingMode::Insert && other.global == kb.global
                && other.insert == kb.insert ==> other.resolved(modifiers, code, mode)
                == kb.resolved(modifiers, code, mode)
        }),
        code is Char ==> kb.resolved(modifiers, code, mode) == kb.resolved(
            KeyModifiers { shift: !modifiers.shift, ..modifiers },
            code,
            mode,
        ),
{
}

/// In normal mode a key bound to an action on a message does it to the message that is
/// pointed at.
pub proof fn normal_keys_act_on_messages(
    a: AppView,
    modifiers: KeyModifiers,
    code: KeyCode,
    now_ms: i64,
)
    ensures
        ({
            let is = |x: KeyAction| bound(a, modifiers, code, BindingMode::Normal, x);
            let r = normal_key(a, modifiers, code, now_ms);
            &&& is(KeyAction::CopyMessage) ==> r == (copying_asked(a, false), None::<SendRequestView>)
            &&& is(KeyAction::CopyAllMessages) ==> r == (
                copying_asked(a, true),
                None::<SendRequestView>,
            )
            &&& is(KeyAction::React) ==> r == (reacting_begun(a), None::<SendRequestView>)
            &&& is(KeyAction::ForwardMessage) ==> r == (forwarding_begun(a), None::<SendRequestView>)
            &&& is(KeyAction::DeleteMessage) ==> r == (deletion_asked(a), None::<SendRequestView>)
            &&& is(KeyAction::PinMessage) ==> r == pin_toggled(a, now_ms)
            &&& is(KeyAction::Quote) ==> r == (reply_begun(a), None::<SendRequestView>)
            &&& is(KeyAction::EditMessage) ==> r == (edit_begun(a), None::<SendRequestView>)
            &&& is(KeyAction::NextSearchResult) && a.search.results.len() > 0 ==> r == (
                search_jumped(a, true),
                None::<SendRequestView>,
            )
            &&& is(KeyAction::PrevSearchResult) && a.search.results.len() > 0 ==> r == (
                search_jumped(a, false),
                None::<SendRequestView>,
            )
        }),
{
}

/// In normal mode a key bound to an action on the cursor or the input does it and asks
/// for nothing; a key bound to nothing does nothing.
pub proof fn normal_keys_act_on_the_input(
    a: AppView,
    modifiers: KeyModifiers,
    code: KeyCode,
    action: KeyAction,
    now_ms: i64,
)
    ensures
        ({
            let is = bound(a, modifiers, code, BindingMode::Normal, action);
            let r = normal_key(a, modifiers, code, now_ms);
            &&& is && normal_edit(a, action) is Some ==> r == (
                normal_edit(a, action)->0,
                None::<SendRequestView>,
            )
            &&& is && cursor_action(a, action) is Some ==> r == (
                cursor_action(a, action)->0,
                None::<SendRequestView>,
            )
            &&& a.keybindings.resolved(modifiers, code, BindingMode::Normal) is None ==> r == (
                a,
                None::<SendRequestView>,
            )
        }),
{
}

/// Keys bound to scrolling scroll: towards older messages by adding to the offset,
/// towards newer ones by taking from it, never below the newest and by as much as
/// the action says. Other state stays, but that no message is pointed at any more.
pub proof fn keys_scroll(
    a: AppView,
    modifiers: KeyModifiers,
    code: KeyCode,
    now_ms: i64,
    clock_ms: u64,
)
    requires
        a.scroll.offset < usize::MAX - 10,
    ensures
        ({
            let is = |x: KeyAction| bound(a, modifiers, code, BindingMode::Normal, x);
            let n = normal_key(a, modifiers, code, now_ms).0.scroll.offset as int;
            let o = a.scroll.offset as int;
            &&& is(KeyAction::ScrollUp) ==> n == o + 1
            &&& is(KeyAction::ScrollDown) && o >= 1 ==> n == o - 1
            &&& is(KeyAction::HalfPageUp) ==> n == o + 10
            &&& is(KeyAction::HalfPageDown) && o >= 10 ==> n == o - 10
            &&& is(KeyAction::HalfPageDown) && o < 10 ==> n == 0
            &&& is(KeyAction::ScrollToBottom) ==> n == 0
            &&& is(KeyAction::ScrollToTop) && a.active() is Some && a.active()->0.messages.len()
                <= usize::MAX ==> n == a.active()->0.messages.len()
        }),
        ({
            let is = |x: KeyAction| bound(a, modifiers, code, BindingMode::Global, x);
            let r = global_key(a, modifiers, code);
            let n = r.0.scroll.offset as int;
            let o = a.scroll.offset as int;
            &&& is(KeyAction::PageScrollUp) ==> r.1 && n == o + 5
            &&& is(KeyAction::PageScrollDown) ==> r.1 && n == (if o < 5 {
                0
            } else {
                o - 5
            })
        }),
{
    let b = global_key(a, modifiers, code).0;
    assert(crate::navigation::status_updated(a.lowered(Flag::QuitConfirm)).scroll == a.scroll);
}

/// A key that is bound everywhere asks to quit, goes to the conversation below or
/// above, makes the sidebar narrower or wider, or starts to filter it.
pub proof fn global_keys_do_what_they_say(a: AppView, modifiers: KeyModifiers, code: KeyCode)
    requires
        !a.is(Flag::QuitConfirm),
    ensures
        ({
            let is = |x: KeyAction| bound(a, modifiers, code, BindingMode::Global, x);
            let (b, done) = global_key(a, modifiers, code);
            &&& is(KeyAction::Quit) && a.input.before.len() == 0 && a.input.after.len() == 0 ==> done
                && b.is(Flag::ShouldQuit)
            &&& is(KeyAction::Quit) && (a.input.before.len() > 0 || a.input.after.len() > 0) ==> done
                && b.is(Flag::QuitConfirm) && (b.is(Flag::ShouldQuit) == a.is(Flag::ShouldQuit))
            &&& is(KeyAction::NextConversation) && !a.shows(Overlay::Autocomplete) ==> done && b
                == moved(a, true)
            &&& is(KeyAction::PrevConversation) ==> done && b == moved(a, false)
            &&& is(KeyAction::ResizeSidebarLeft) && 16 <= a.sidebar.width <= 40 ==> done
                && b.sidebar.width == a.sidebar.width - 2
            &&& is(KeyAction::ResizeSidebarRight) && 14 <= a.sidebar.width <= 38 ==> done
                && b.sidebar.width == a.sidebar.width + 2
            &&& is(KeyAction::SidebarSearch) ==> done && b.is(Flag::SidebarFilter)
                && b.settings.contains(Setting::SidebarVisible) && b.sidebar.filter.len() == 0
            &&& a.keybindings.resolved(modifiers, code, BindingMode::Global) is None ==> b == a
                && !done
        }),
{
    assert(a.input.text() == a.input.before + a.input.after);
}

/// A second request to quit quits, and any other key takes the first one back.
pub proof fn quitting_takes_two(a: AppView, modifiers: KeyModifiers, code: KeyCode)
    requires
        a.is(Flag::QuitConfirm),
    ensures
        bound(a, modifiers, code, BindingMode::Global, KeyAction::Quit) ==> global_key(
            a,
            modifiers,
            code,
        ).0.is(Flag::ShouldQuit),
        a.keybindings.resolved(modifiers, code, BindingMode::Global) is None ==> !global_key(
            a,
            modifiers,
            code,
        ).0.is(Flag::QuitConfirm) && (global_key(a, modifiers, code).0.is(Flag::ShouldQuit) == a.is(
            Flag::ShouldQuit,
        )),
{
}

/// One overlay alone is open, and nothing else takes keys.
pub open spec fn only_shows(a: AppView, o: Overlay) -> bool {
    !a.is(Flag::SidebarFilter) && a.group_menu.state is None && forall|p: Overlay|
        a.shows(p) <==> p == o
}

/// The overlay that is open takes the key.
#[verifier::rlimit(30)]
pub proof fn open_overlays_take_keys(a: AppView, o: Overlay, code: KeyCode, now_ms: i64)
    requires
        only_shows(a, o),
    ensures
        ({
            let (b, taken, r) = overlay_key(a, code, now_ms);
            &&& taken
            &&& o == Overlay::PollVote ==> (b, r) == ballot_key(a, code)
            &&& o == Overlay::PinDuration ==> (b, r) == pin_key(a, code, now_ms)
            &&& o == Overlay::ActionMenu ==> (b, r) == action_key(a, code, now_ms)
            &&& o == Overlay::DeleteConfirm ==> (b, r) == delete_key(a, code)
            &&& o == Overlay::FileBrowser ==> b == browser_key(a, code) && r
                is None
            &&& o == Overlay::EmojiPicker ==> (b, r) == emoji_key(a, code)
            &&& o == Overlay::ReactionPicker ==> (b, r) == reaction_key(a, code)
            &&& o == Overlay::MessageRequest ==> (b, r) == request_key(a, code)
            &&& o == Overlay::Profile ==> (b, r) == profile_key(a, code)
            &&& o == Overlay::Verify ==> (b, r) == verify_key(a, code)
            &&& o == Overlay::Forward ==> (b, r) == forward_key(a, code, now_ms)
            &&& o == Overlay::Contacts ==> b == contacts_key(a, code) && r is None
            &&& o == Overlay::Search ==> b == search_pressed(a, code) && r is None
            &&& o == Overlay::SettingsProfiles ==> b == profile_manager_key(a, code)
                && r is None
            &&& o == Overlay::ThemePicker ==> b == theme_key(a, code) && r
                is None
            &&& o == Overlay::Keybindings ==> b == keybindings_key(a, code) && r
                is None
            &&& o == Overlay::Settings ==> b == settings_key(a, code) && r is None
            &&& o == Overlay::Autocomplete ==> (b, r) == completion_key(a, code, now_ms)
            &&& o == Overlay::About || o == Overlay::Help ==> !b.shows(o) && r is None
        }),
{
    assert(a.shows(o));
}

/// While the sidebar is filtered, its filter takes the keys, whatever is open; with
/// nothing open no key is taken.
pub proof fn sidebar_filter_takes_keys(a: AppView, code: KeyCode, now_ms: i64)
    ensures
        a.is(Flag::SidebarFilter) ==> overlay_key(a, code, now_ms) == (
            sidebar_key(a, code),
            true,
            None::<SendRequestView>,
        ),
        !a.is(Flag::SidebarFilter) && a.group_menu.state is None && (forall|p: Overlay| !a.shows(p))
            ==> overlay_key(a, code, now_ms) == (a, false, None::<SendRequestView>),
{
}

/// A letter in the menu of a message does what it stands for where that can be done:
/// replying, editing one's own, reacting, forwarding, copying, deleting, pinning, and
/// voting in a poll or ending one's own. The menu closes then; another letter does
/// nothing.
pub proof fn menu_letters_do_what_they_say(
    a: AppView,
    id: Seq<char>,
    i: int,
    c: char,
    now_ms: i64,
)
    requires
        points_at(a, id, i),
        c != 'j' && c != 'k',
    ensures
        ({
            let m = messages_of(a.store, id)[i];
            let b = a.closed(Overlay::ActionMenu);
            let r = action_key(a, KeyCode::Char(c), now_ms);
            let live = !m.is_system && !m.is_deleted;
            let own = m.sender == "you"@;
            let open = m.poll_data is Some && !m.poll_data->0.closed;
            let none = None::<SendRequestView>;
            &&& c == 'q' ==> r == if live { (reply_begun(b), none) } else { (a, none) }
            &&& c == 'e' ==> r == if live && own { (edit_begun(b), none) } else { (a, none) }
            &&& c == 'r' ==> r == if !m.is_system { (reacting_begun(b), none) } else { (a, none) }
            &&& c == 'f' ==> r == if live { (forwarding_begun(b), none) } else { (a, none) }
            &&& c == 'y' ==> r == (copying_asked(b, false), none)
            &&& c == 'd' ==> r == if live { (deletion_asked(b), none) } else { (a, none) }
            &&& c == 'p' ==> r == if live { pin_toggled(b, now_ms) } else { (a, none) }
            &&& c == 'v' ==> r == if open { (vote_begun(b), none) } else { (a, none) }
            &&& c == 'x' ==> r == if open && own { poll_stopped(b) } else { (a, none) }
        }),
{
    reveal(action_key);
    pointed_is_selected(a, id, i);
    let m = messages_of(a.store, id)[i];
    hints_are(m, c);
    assert(selected_hints(a) == action_hints(m));
    hints_are(m, 'y');
    assert(action_hints(m).len() > 0);
}

proof fn hints_are(m: DisplayMessageView, c: char)
    ensures
        ({
            let live = !m.is_system && !m.is_deleted;
            let own = m.sender == "you"@;
            let open = m.poll_data is Some && !m.poll_data->0.closed;
            action_hints(m).contains(c) <==> {
                ||| c == 'q' && live
                ||| c == 'e' && live && own
                ||| c == 'r' && !m.is_system
                ||| c == 'f' && live
                ||| c == 'y'
                ||| c == 'd' && live
                ||| c == 'p' && live
                ||| c == 'v' && open
                ||| c == 'x' && open && own
            }
        }),
{
    let own = m.sender == "you"@;
    let h1 = offered(is_live(m), 'q');
    let h2 = offered(own && is_live(m), 'e');
    let h3 = offered(!m.is_system, 'r');
    let h4 = offered(is_live(m), 'f');
    let h5 = seq!['y'];
    let h6 = offered(is_live(m), 'd');
    let h7 = offered(is_live(m), 'p');
    let h8 = offered(is_open_poll(m), 'v');
    let h9 = offered(own && is_open_poll(m), 'x');
    either_has(h1, h2, c);
    either_has(h1 + h2, h3, c);
    either_has(h1 + h2 + h3, h4, c);
    either_has(h1 + h2 + h3 + h4, h5, c);
    either_has(h1 + h2 + h3 + h4 + h5, h6, c);
    either_has(h1 + h2 + h3 + h4 + h5 + h6, h7, c);
    either_has(h1 + h2 + h3 + h4 + h5 + h6 + h7, h8, c);
    either_has(h1 + h2 + h3 + h4 + h5 + h6 + h7 + h8, h9, c);
    hint_is(is_live(m), 'q', c);
    hint_is(own && is_live(m), 'e', c);
    hint_is(!m.is_system, 'r', c);
    hint_is(is_live(m), 'f', c);
    hint_is(true, 'y', c);
    hint_is(is_live(m), 'd', c);
    hint_is(is_live(m), 'p', c);
    hint_is(is_open_poll(m), 'v', c);
    hint_is(own && is_open_poll(m), 'x', c);
}

proof fn either_has(s: Seq<char>, t: Seq<char>, c: char)
    ensures
        (s + t).contains(c) <==> s.contains(c) || t.contains(c),
{
    if s.contains(c) {
        let i = choose|i: int| 0 <= i < s.len() && s[i] == c;
        assert((s + t)[i] == c);
    }
    if t.contains(c) {
        let i = choose|i: int| 0 <= i < t.len() && t[i] == c;
        assert((s + t)[s.len() + i] == c);
    }
    if (s + t).contains(c) {
        let i = choose|i: int| 0 <= i < (s + t).len() && (s + t)[i] == c;
        if i < s.len() {
            assert(s[i] == c);
        } else {
            assert(t[i - s.len()] == c);
        }
    }
}

proof fn hint_is(yes: bool, hint: char, c: char)
    ensures
        offered(yes, hint).contains(c) <==> yes && c == hint,
{
    if yes {
        assert(offered(yes, hint)[0] == hint);
    }
}

/// Among what is offered to complete, Tab takes what is selected, so does Enter, which
/// submits it too unless it is a mention, Esc takes nothing, and other keys write on.
pub proof fn completion_keys_do_what_they_say(a: AppView, code: KeyCode, now_ms: i64)
    ensures
        ({
            let r = completion_key(a, code, now_ms);
            let none = None::<SendRequestView>;
            &&& code == KeyCode::Tab ==> r == (accepted(a), none)
            &&& code == KeyCode::Enter && a.autocomplete.mode == AutocompleteMode::Mention ==> r == (
                accepted(a),
                none,
            )
            &&& code == KeyCode::Enter && a.autocomplete.mode != AutocompleteMode::Mention ==> r
                == input_handled(accepted(a), now_ms)
            &&& code == KeyCode::Esc ==> !r.0.shows(Overlay::Autocomplete) && r.0.input == a.input
                && r.1 is None
            &&& code is Char ==> r.0.input == input_edited(a, code).input && r.1 is None
        }),
{
    reveal(completion_key);
    reveal(completed);
}

/// In insert mode, leaving goes to normal mode and gives up what was being replied to
/// or edited, but not what was written; the other keys that are bound to an action on
/// a message do it.
pub proof fn insert_keys_do_what_they_say(
    a: AppView,
    modifiers: KeyModifiers,
    code: KeyCode,
    now_ms: i64,
    clock_ms: u64,
)
    ensures
        ({
            let is = |x: KeyAction| bound(a, modifiers, code, BindingMode::Insert, x);
            let r = insert_key(a, modifiers, code, now_ms, clock_ms);
            &&& is(KeyAction::ExitInsert) ==> r.0.mode == InputMode::Normal && r.0.reply_target
                is None && r.0.editing_message is None && r.0.input == a.input && !r.0.shows(
                Overlay::Autocomplete,
            )
            &&& is(KeyAction::InsertNewline) ==> r.0.input.before == a.input.before.push('\n')
                && r.0.input.after == a.input.after
            &&& is(KeyAction::CopyMessage) ==> r == (copying_asked(a, false), None::<SendRequestView>)
            &&& is(KeyAction::React) ==> r == (reacting_begun(a), None::<SendRequestView>)
            &&& is(KeyAction::ForwardMessage) ==> r == (forwarding_begun(a), None::<SendRequestView>)
            &&& is(KeyAction::DeleteMessage) ==> r == (deletion_asked(a), None::<SendRequestView>)
            &&& is(KeyAction::PinMessage) ==> r == pin_toggled(a, now_ms)
        }),
{
}

/// In insert mode a key bound to an action of writing does it; one that is bound to
/// nothing is written, with what can be completed looked up again.
pub proof fn insert_keys_write(
    a: AppView,
    modifiers: KeyModifiers,
    code: KeyCode,
    action: KeyAction,
    now_ms: i64,
    clock_ms: u64,
)
    ensures
        ({
            let r = insert_key(a, modifiers, code, now_ms, clock_ms);
            &&& bound(a, modifiers, code, BindingMode::Insert, action) && insert_action(
                a,
                action,
                now_ms,
                clock_ms,
            ) is Some ==> Some(r) == insert_action(a, action, now_ms, clock_ms)
            &&& a.keybindings.resolved(modifiers, code, BindingMode::Insert) is None ==> r.0.input
                == input_edited(a, code).input && r.0.pending == input_edited(a, code).pending
                && r.0.store == a.store
        }),
{
    reveal(completed);
}

/// Submitting does what the input says; where that sends nothing and one had been
/// shown as typing, that one stopped is told.
pub proof fn submitting_submits(
    a: AppView,
    modifiers: KeyModifiers,
    code: KeyCode,
    now_ms: i64,
    clock_ms: u64,
)
    requires
        bound(a, modifiers, code, BindingMode::Insert, KeyAction::SendMessage),
        !a.is(Flag::TypingSent),
        a.typing.last_keypress is None,
    ensures
        insert_key(a, modifiers, code, now_ms, clock_ms) == input_handled(
            a,
            now_ms,
        ),
{
    let b = crate::navigation::typing_reset(a);
    assert(b.flags =~= a.flags);
    assert(b == a);
}

} // verus!
