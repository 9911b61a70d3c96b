//! What is promised of what the commands switch, set and open.
use crate::app::{
    AppView, EffectView, Flag, GroupMenuState, InputMode, Overlay, SendRequestView, Setting,
};
use crate::arrivals::messages_of;
use crate::autocomplete::{completed, pasted, typed};
use crate::commands::{
    bell_toggled, block_asked, command_done, contacts_opened, disappearing_set, group_menu_opened,
    mute_ended, mute_over, mute_toggled, muted_for, profile_opened, settings_opened, unblock_asked,
    verify_opened,
};
use crate::composer::normalized;
use crate::conversation_store::ConversationView;
use crate::db::DbWriteView;
use crate::events::{event_taken, name_learnt, typing_told};
use crate::file_picker::{browser_key, browser_opened};
use crate::input::{parsed_duration, InputForm};
use crate::keypress::{insert_left, text_typed};
use crate::keys::KeyCode;
use crate::navigation::{joined, typing_request, typing_timed_out};
use crate::outbox::is_group_there;
use crate::places::{message_of_time_is_found, newest_at, writes_last};
use crate::reading::{joining_opens_the_conversation, opened_at, parting_opens_none};
use crate::search::{
    hits, hits_are, jumped_to, search_jumped, search_opened, search_pressed, search_stepped,
    search_steps_visit_each_once, search_walked,
};
use crate::signal::SignalEventView;
use crate::strmap::{at, distinct, holds, look, look_after_del, look_after_put};
use vstd::prelude::*;

verus! {

// ---------------------------------------------------------------------------
// Notifications
// ---------------------------------------------------------------------------

/// One thing of many is on or off, and all others are as they were.
pub open spec fn only_set<T>(s: Set<T>, t: Set<T>, x: T, on: bool) -> bool {
    forall|y: T| #[trigger] t.contains(y) <==> if y == x {
        on
    } else {
        s.contains(y)
    }
}

/// Muting mutes the conversation that is looked at where it is not muted, and unmutes
/// it where it is; no other one. With no conversation nothing is muted.
pub proof fn muting_switches_the_active_one(a: AppView, id: Seq<char>, now_ms: i64)
    ensures
        ({
            let (r, q) = command_done(a, InputForm::ToggleMute, now_ms);
            &&& q is None
            &&& r.store == a.store
            &&& a.active_conversation == Some(id) ==> only_set(
                a.muted,
                r.muted,
                id,
                !a.muted.contains(id),
            ) && writes_last(
                a,
                r,
                DbWriteView::SetMuted { conv_id: id, muted: !a.muted.contains(id) },
            ) && (distinct(a.mute_ends) ==> !holds(r.mute_ends, id))
            &&& a.active_conversation is None ==> r.muted == a.muted && r.mute_ends == a.mute_ends
        }),
{
    reveal(mute_toggled);
    let r = mute_toggled(a);
    if a.active_conversation is Some {
        assert(r.jobs.drop_last() =~= a.jobs);
        if distinct(a.mute_ends) {
            look_after_del(a.mute_ends, a.active_conversation->0, a.active_conversation->0);
        }
    }
}

/// Muting for a while mutes the conversation that is looked at, until that much
/// later; no other one. Nothing is muted for no time, or for what is no time.
pub proof fn muting_for_a_while_ends(
    a: AppView,
    id: Seq<char>,
    text: Seq<char>,
    now_ms: i64,
    other: Seq<char>,
)
    requires
        a.active_conversation == Some(id),
    ensures
        ({
            let (r, q) = command_done(a, InputForm::MuteFor(text), now_ms);
            let d = parsed_duration(text);
            &&& q is None
            &&& d is Some && d->0 > 0 ==> {
                &&& only_set(a.muted, r.muted, id, true)
                &&& now_ms + d->0 * 1000 <= i64::MAX ==> look(r.mute_ends, id) == Some(
                    (now_ms + d->0 * 1000) as i64,
                )
                &&& other != id ==> look(r.mute_ends, other) == look(a.mute_ends, other)
                &&& writes_last(a, r, DbWriteView::SetMuted { conv_id: id, muted: true })
            }
            &&& !(d is Some && d->0 > 0) ==> r.muted == a.muted && r.mute_ends == a.mute_ends
        }),
{
    reveal(muted_for);
    let d = parsed_duration(text);
    let r = muted_for(a, text, now_ms);
    if d is Some && d->0 > 0 {
        let until = crate::commands::seconds_ahead(now_ms, d->0);
        look_after_put(a.mute_ends, id, until, id);
        look_after_put(a.mute_ends, id, until, other);
        assert(r.jobs.drop_last() =~= a.jobs);
    }
}

proof fn over_is(s: Seq<(Seq<char>, i64)>, now_ms: i64, i: int)
    requires
        0 <= i <= s.len(),
    ensures
        match mute_over(s, now_ms, i) {
            Some(id) => exists|j: int|
                i <= j < s.len() && (#[trigger] s[j]).0 == id && s[j].1 <= now_ms,
            None => forall|j: int| i <= j < s.len() ==> (#[trigger] s[j]).1 > now_ms,
        },
    decreases s.len() - i,
{
    if i < s.len() && s[i].1 > now_ms {
        over_is(s, now_ms, i + 1);
    } else if i < s.len() {
        assert(s[i].0 == s[i].0 && s[i].1 <= now_ms);
    }
}

/// A conversation whose time of being muted is over is unmuted, and no other one
/// with it. Where none is over nothing changes.
pub proof fn muting_ends_when_it_is_over(a: AppView, now_ms: i64)
    ensures
        ({
            let r = mute_ended(a, now_ms);
            let due = exists|j: int|
                0 <= j < a.mute_ends.len() && (#[trigger] a.mute_ends[j]).1 <= now_ms;
            &&& !due ==> r == a
            &&& due ==> exists|j: int|
                0 <= j < a.mute_ends.len() && (#[trigger] a.mute_ends[j]).1 <= now_ms && only_set(
                    a.muted,
                    r.muted,
                    a.mute_ends[j].0,
                    false,
                )
            &&& due ==> r.mute_ends.len() < a.mute_ends.len()
        }),
{
    over_is(a.mute_ends, now_ms, 0);
    let r = mute_ended(a, now_ms);
    if mute_over(a.mute_ends, now_ms, 0) is Some {
        let id = mute_over(a.mute_ends, now_ms, 0)->0;
        let j = choose|j: int|
            0 <= j < a.mute_ends.len() && (#[trigger] a.mute_ends[j]).0 == id && a.mute_ends[j].1
                <= now_ms;
        assert(only_set(a.muted, r.muted, a.mute_ends[j].0, false));
        crate::strmap::place_finds(a.mute_ends, id);
    }
}

/// Blocking blocks the conversation that is looked at, unblocking unblocks it, and no
/// other one. Both are told to the service, for the id, as a group where it is one;
/// what is so already is not told again.
pub proof fn blocking_blocks_the_active_one(a: AppView, id: Seq<char>, now_ms: i64)
    ensures
        ({
            let (b, first) = command_done(a, InputForm::Block, now_ms);
            let (u, second) = command_done(a, InputForm::Unblock, now_ms);
            &&& b.store == a.store && u.store == a.store
            &&& a.active_conversation is None ==> first is None && second is None && b.blocked
                == a.blocked && u.blocked == a.blocked
            &&& a.active_conversation == Some(id) ==> {
                &&& only_set(a.blocked, b.blocked, id, true)
                &&& only_set(a.blocked, u.blocked, id, false)
                &&& first == if a.blocked.contains(id) {
                    None
                } else {
                    Some(SendRequestView::Block { recipient: id, is_group: is_group_there(a, id) })
                }
                &&& second == if a.blocked.contains(id) {
                    Some(
                        SendRequestView::Unblock { recipient: id, is_group: is_group_there(a, id) },
                    )
                } else {
                    None
                }
                &&& !a.blocked.contains(id) ==> writes_last(
                    a,
                    b,
                    DbWriteView::SetBlocked { conv_id: id, blocked: true },
                )
                &&& a.blocked.contains(id) ==> writes_last(
                    a,
                    u,
                    DbWriteView::SetBlocked { conv_id: id, blocked: false },
                )
            }
        }),
{
    reveal(block_asked);
    reveal(unblock_asked);
    if a.active_conversation is Some {
        let b = block_asked(a).0;
        let u = unblock_asked(a).0;
        if !a.blocked.contains(a.active_conversation->0) {
            assert(b.jobs.drop_last() =~= a.jobs);
        } else {
            assert(u.jobs.drop_last() =~= a.jobs);
        }
    }
}

/// The bell for one kind of messages is switched by its command, and that for the
/// other kind stays. Without a kind both are switched off where both were on, and
/// else both on.
pub proof fn bells_are_switched(a: AppView, now_ms: i64)
    ensures
        ({
            let direct = command_done(a, InputForm::ToggleBell(Some("direct"@)), now_ms).0;
            let group = command_done(a, InputForm::ToggleBell(Some("group"@)), now_ms).0;
            let both = command_done(a, InputForm::ToggleBell(None), now_ms).0;
            let on = !(a.settings.contains(Setting::NotifyDirect) && a.settings.contains(
                Setting::NotifyGroup,
            ));
            &&& only_set(
                a.settings,
                direct.settings,
                Setting::NotifyDirect,
                !a.settings.contains(Setting::NotifyDirect),
            )
            &&& only_set(
                a.settings,
                group.settings,
                Setting::NotifyGroup,
                !a.settings.contains(Setting::NotifyGroup),
            )
            &&& both.settings.contains(Setting::NotifyDirect) == on
            &&& both.settings.contains(Setting::NotifyGroup) == on
            &&& forall|k: Setting|
                k != Setting::NotifyDirect && k != Setting::NotifyGroup ==> (
                #[trigger] both.settings.contains(k) <==> a.settings.contains(k))
        }),
{
    reveal(bell_toggled);
    reveal_strlit("direct");
    reveal_strlit("group");
    reveal_strlit("dm");
    reveal_strlit("1:1");
    assert("group"@.len() == 5 && "direct"@.len() == 6 && "dm"@.len() == 2 && "1:1"@.len() == 3);
}

// ---------------------------------------------------------------------------
// Timers
// ---------------------------------------------------------------------------

/// Setting how long messages last sets it for the conversation that is looked at, and
/// asks the service for it, for the id, as a group where it is one. No other
/// conversation changes, and what is no time sets nothing.
pub proof fn timers_are_set(
    a: AppView,
    id: Seq<char>,
    text: Seq<char>,
    now_ms: i64,
    other: Seq<char>,
)
    requires
        a.active_conversation == Some(id),
        holds(a.store.conversations, id),
    ensures
        ({
            let (r, q) = command_done(a, InputForm::SetDisappearing(text), now_ms);
            let d = parsed_duration(text);
            &&& d is None ==> q is None && r.store == a.store
            &&& d is Some ==> {
                &&& q == Some(
                    SendRequestView::UpdateExpiration {
                        conv_id: id,
                        is_group: is_group_there(a, id),
                        seconds: d->0,
                    },
                )
                &&& look(r.store.conversations, id) == Some(
                    ConversationView {
                        expiration_timer: d->0,
                        ..look(a.store.conversations, id)->0
                    },
                )
                &&& other != id ==> look(r.store.conversations, other) == look(
                    a.store.conversations,
                    other,
                )
                &&& writes_last(
                    a,
                    r,
                    DbWriteView::UpdateExpirationTimer { conv_id: id, seconds: d->0 },
                )
            }
        }),
{
    reveal(disappearing_set);
    let d = parsed_duration(text);
    if d is Some {
        let c = ConversationView { expiration_timer: d->0, ..at(a.store.conversations, id) };
        look_after_put(a.store.conversations, id, c, id);
        look_after_put(a.store.conversations, id, c, other);
        assert(disappearing_set(a, text).0.jobs.drop_last() =~= a.jobs);
    }
}

// ---------------------------------------------------------------------------
// Opening
// ---------------------------------------------------------------------------

/// Each command opens what it is for, and asks nothing of the service but to verify,
/// which asks for the identities.
pub proof fn commands_open_their_overlays(a: AppView, text: Seq<char>, now_ms: i64)
    ensures
        command_done(a, InputForm::Help, now_ms).0.overlays.contains(Overlay::Help),
        command_done(a, InputForm::Settings, now_ms).0.overlays.contains(Overlay::Settings),
        command_done(a, InputForm::Contacts, now_ms).0.overlays.contains(Overlay::Contacts),
        command_done(a, InputForm::Theme, now_ms).0.overlays.contains(Overlay::ThemePicker),
        command_done(a, InputForm::Profile, now_ms).0.overlays.contains(Overlay::Profile),
        command_done(a, InputForm::About, now_ms).0.overlays.contains(Overlay::About),
        command_done(a, InputForm::Keybindings, now_ms).0.overlays.contains(Overlay::Keybindings),
        command_done(a, InputForm::Group, now_ms).0.group_menu.state == Some(GroupMenuState::Menu),
        a.active_conversation is Some ==> command_done(
            a,
            InputForm::Attach,
            now_ms,
        ).0.overlays.contains(Overlay::FileBrowser),
        a.active_conversation is Some ==> command_done(
            a,
            InputForm::Verify,
            now_ms,
        ).0.overlays.contains(Overlay::Verify) && command_done(a, InputForm::Verify, now_ms).1
            == Some(SendRequestView::ListIdentities),
        command_done(a, InputForm::Search(text), now_ms).0.overlays.contains(Overlay::Search),
        text.len() > 0 ==> command_done(a, InputForm::Search(text), now_ms).0.effects
            == a.effects.push(
            EffectView::Search { conv_id: a.active_conversation, query: text },
        ),
        command_done(a, InputForm::Quit, now_ms).0.flags.contains(Flag::ShouldQuit),
        only_set(
            a.settings,
            command_done(a, InputForm::ToggleSidebar, now_ms).0.settings,
            Setting::SidebarVisible,
            !a.settings.contains(Setting::SidebarVisible),
        ),
        command_done(a, InputForm::Unknown(text), now_ms).0.status_message == text,
        command_done(a, InputForm::Paste, now_ms).0.effects == if a.active_conversation is Some {
            a.effects.push(EffectView::ReadClipboard)
        } else {
            a.effects
        },
{
    reveal(settings_opened);
    reveal(contacts_opened);
    reveal(profile_opened);
    reveal(group_menu_opened);
    reveal(browser_opened);
    reveal(verify_opened);
    reveal(crate::commands::paste_asked);
    reveal(search_opened);
}

/// Joining by its command opens the conversation, and parting opens none.
pub proof fn commands_join_and_part(a: AppView, id: Seq<char>, now_ms: i64)
    requires
        holds(a.store.conversations, id),
    ensures
        opened_at(a, command_done(a, InputForm::Join(id), now_ms).0, id),
        command_done(a, InputForm::Part, now_ms).0.active_conversation is None,
        command_done(a, InputForm::Part, now_ms).0.store == a.store,
{
    joining_opens_the_conversation(a, id);
    parting_opens_none(a);
}

// ---------------------------------------------------------------------------
// Typing
// ---------------------------------------------------------------------------

/// Somebody who types is shown as typing in the group where they do, or else in the
/// conversation with them, and no more so when they stop; nobody else is affected.
pub proof fn typing_is_shown(
    a: AppView,
    sender: Seq<char>,
    group_id: Option<Seq<char>>,
    is_typing: bool,
    other: Seq<char>,
    now_ms: i64,
    clock_ms: u64,
)
    requires
        distinct(a.typing.indicators),
    ensures
        ({
            let r = event_taken(
                a,
                SignalEventView::TypingIndicator {
                    sender,
                    sender_name: None,
                    is_typing,
                    group_id,
                },
                now_ms,
                clock_ms,
            );
            let place = if group_id is Some {
                group_id->0
            } else {
                sender
            };
            &&& look(r.typing.indicators, place) == if is_typing {
                Some((sender, clock_ms))
            } else {
                None
            }
            &&& other != place ==> look(r.typing.indicators, other) == look(
                a.typing.indicators,
                other,
            )
            &&& r.store == a.store
        }),
{
    reveal(typing_told);
    reveal(name_learnt);
    let place = if group_id is Some {
        group_id->0
    } else {
        sender
    };
    look_after_put(a.typing.indicators, place, (sender, clock_ms), place);
    look_after_put(a.typing.indicators, place, (sender, clock_ms), other);
    look_after_del(a.typing.indicators, place, place);
    look_after_del(a.typing.indicators, place, other);
}

/// The service is told once that one types: where the input holds text that is no
/// command, in a conversation that is not blocked, and was not told yet.
pub proof fn typing_is_told_once(a: AppView, id: Seq<char>, clock_ms: u64)
    requires
        a.active_conversation == Some(id),
        holds(a.store.conversations, id),
    ensures
        ({
            let (r, q) = typed(a, clock_ms);
            let text = a.input.before + a.input.after;
            let due = !a.flags.contains(Flag::TypingSent) && text.len() > 0 && text[0] != '/'
                && !a.blocked.contains(id);
            &&& q is Some ==> due && q == Some(
                SendRequestView::Typing {
                    recipient: id,
                    is_group: is_group_there(a, id),
                    stop: false,
                },
            ) && r.flags.contains(Flag::TypingSent)
            &&& due ==> q is Some
            &&& typed(r, clock_ms).1 is None || q is None
            &&& r.typing.last_keypress == Some(clock_ms)
        }),
{
    let (r, q) = typed(a, clock_ms);
    assert(a.input.text() == a.input.before + a.input.after);
}

/// The service is told that one has stopped: where it thinks that one types, once no
/// key was pressed for five seconds, the text is gone, or insert mode is left.
pub proof fn stopping_is_told(a: AppView, id: Seq<char>, clock_ms: u64)
    requires
        a.active_conversation == Some(id),
    ensures
        ({
            let stop = Some(
                SendRequestView::Typing {
                    recipient: id,
                    is_group: is_group_there(a, id),
                    stop: true,
                },
            );
            let told = a.flags.contains(Flag::TypingSent);
            &&& typing_request(a, true) == stop
            &&& typing_timed_out(a, clock_ms) <==> told && a.typing.last_keypress is Some && clock_ms
                - a.typing.last_keypress->0 >= 5000
            &&& told && a.input.before.len() == 0 && a.input.after.len() == 0 ==> text_typed(
                a,
                clock_ms,
            ).1 == stop && !text_typed(a, clock_ms).0.flags.contains(Flag::TypingSent)
            &&& told ==> insert_left(a).1 == stop
            &&& !told ==> insert_left(a).1 is None
            &&& insert_left(a).0.mode == InputMode::Normal
            &&& insert_left(a).0.reply_target is None && insert_left(a).0.editing_message is None
            &&& !insert_left(a).0.flags.contains(Flag::TypingSent)
        }),
{
}

/// What is pasted stands where the cursor is, behind what was before it; nothing is
/// pasted in normal mode or under an overlay.
pub proof fn pasting_inserts(a: AppView, text: Seq<char>, clock_ms: u64)
    ensures
        ({
            let r = pasted(a, text, clock_ms).0;
            let can = a.mode == InputMode::Insert && a.group_menu.state is None && forall|k: Overlay|
                !(#[trigger] a.overlays.contains(k));
            &&& !can ==> r == a
            &&& can ==> r.input.before == a.input.before + normalized(text) && r.input.after
                == a.input.after
        }),
{
    if a.overlays == Set::<Overlay>::empty() {
        assert(forall|k: Overlay| !(#[trigger] a.overlays.contains(k)));
    } else if forall|k: Overlay| !(#[trigger] a.overlays.contains(k)) {
        assert(a.overlays =~= Set::<Overlay>::empty());
    }
    reveal(completed);
    let b = crate::composer::with_input(
        a,
        crate::app::InputStateView { before: a.input.before + normalized(text), ..a.input },
    );
    assert(completed(b).input == b.input);
}

// ---------------------------------------------------------------------------
// Attaching
// ---------------------------------------------------------------------------

/// Choosing a file attaches it: the path is that of the directory that is shown with
/// the name that is selected. A directory is entered instead. Esc attaches nothing.
pub proof fn choosing_attaches(a: AppView)
    requires
        a.file_picker.index < a.file_picker.filtered.len(),
        a.file_picker.filtered[a.file_picker.index as int] < a.file_picker.entries.len(),
    ensures
        ({
            let p = a.file_picker;
            let (name, is_dir, _) = p.entries[p.filtered[p.index as int] as int];
            let path = if p.dir.len() > 0 && p.dir.last() != '/' {
                p.dir + "/"@ + name
            } else {
                p.dir + name
            };
            let r = browser_key(a, KeyCode::Enter);
            let e = browser_key(a, KeyCode::Esc);
            &&& !is_dir ==> r.pending.attachment == Some(path) && !r.overlays.contains(
                Overlay::FileBrowser,
            )
            &&& is_dir ==> r.pending.attachment == a.pending.attachment && r.file_picker.dir == path
                && r.effects == a.effects.push(EffectView::ReadDirectory(path))
            &&& e.pending.attachment == a.pending.attachment && !e.overlays.contains(
                Overlay::FileBrowser,
            )
        }),
{
    reveal(browser_key);
}

// ---------------------------------------------------------------------------
// Searching
// ---------------------------------------------------------------------------

/// What is typed in the search is searched for in the conversation that is looked at.
pub proof fn searching_asks_for_what_is_typed(a: AppView, c: char)
    requires
        c != 'j' && c != 'k',
    ensures
        ({
            let r = search_pressed(a, KeyCode::Char(c));
            &&& r.search.query == a.search.query.push(c)
            &&& r.effects == a.effects.push(
                EffectView::Search {
                    conv_id: a.active_conversation,
                    query: a.search.query.push(c),
                },
            )
            &&& r.store == a.store
        }),
{
    reveal(search_pressed);
}

/// The view is at a message of a conversation: that is the active one, and the
/// message is focused.
pub open spec fn shows_message(a: AppView, id: Seq<char>, i: int) -> bool {
    a.active_conversation == Some(id) && a.scroll.focused_index == Some(i as usize)
        && a.scroll.offset == messages_of(a.store, id).len() - 1 - i && a.mode == InputMode::Normal
}

proof fn going_to_a_result(a: AppView, id: Seq<char>, ts: i64, i: int)
    requires
        holds(a.store.conversations, id),
        newest_at(messages_of(a.store, id), ts, i),
        messages_of(a.store, id).len() <= usize::MAX,
    ensures
        shows_message(jumped_to(joined(a, id), ts), id, i),
        opened_at(a, jumped_to(joined(a, id), ts), id),
{
    reveal(jumped_to);
    joining_opens_the_conversation(a, id);
    let b = joined(a, id);
    assert(messages_of(b.store, id) == messages_of(a.store, id));
    message_of_time_is_found(messages_of(a.store, id), ts, i);
}

/// Choosing a result of the search opens its conversation and points at the message
/// of its time, and closes the search.
pub proof fn choosing_a_result_shows_it(a: AppView, id: Seq<char>, i: int)
    requires
        a.search.index < a.search.results.len(),
        a.search.results[a.search.index as int].conv_id == id,
        holds(a.store.conversations, id),
        newest_at(
            messages_of(a.store, id),
            a.search.results[a.search.index as int].timestamp_ms,
            i,
        ),
        messages_of(a.store, id).len() <= usize::MAX,
    ensures
        shows_message(search_pressed(a, KeyCode::Enter), id, i),
        opened_at(a, search_pressed(a, KeyCode::Enter), id),
        search_pressed(a, KeyCode::Enter).search == a.search,
{
    reveal(search_pressed);
    let b = AppView { search: a.search, ..a }.closed(Overlay::Search);
    let ts = a.search.results[a.search.index as int].timestamp_ms;
    going_to_a_result(b, id, ts, i);
    let r = jumped_to(joined(b, id), ts);
    assert(r.search == a.search) by {
        reveal(jumped_to);
        reveal(joined);
        reveal(crate::navigation::entered);
        reveal(crate::navigation::left);
    }
}

/// Going to the next match, or the one before, shows a match in the conversation that
/// is looked at: the message of its time is pointed at.
pub proof fn steps_show_the_match(a: AppView, id: Seq<char>, forward: bool, i: int)
    requires
        a.active_conversation == Some(id),
        holds(a.store.conversations, id),
        a.search.results.len() <= usize::MAX,
        exists|k: int|
            0 <= k < a.search.results.len() && (#[trigger] a.search.results[k]).conv_id == id,
        messages_of(a.store, id).len() <= usize::MAX,
        ({
            let r = search_jumped(a, forward);
            newest_at(
                messages_of(a.store, id),
                a.search.results[r.search.index as int].timestamp_ms,
                i,
            )
        }),
    ensures
        ({
            let r = search_jumped(a, forward);
            &&& r.search.index < a.search.results.len()
            &&& a.search.results[r.search.index as int].conv_id == id
            &&& shows_message(r, id, i)
        }),
{
    reveal(search_jumped);
    let k = choose|k: int|
        0 <= k < a.search.results.len() && (#[trigger] a.search.results[k]).conv_id == id;
    let h = hits(a.search.results, id, a.search.results.len() as int);
    hits_are(a.search.results, id, a.search.results.len() as int);
    search_steps_visit_each_once(a.search, forward, id);
    let (s, action) = search_stepped(a.search, forward, Some(id));
    assert(a.search.results[k].conv_id == id);
    assert(h.len() > 0) by {
        let n = choose|n: nat|
            1 <= n <= h.len() && (#[trigger] search_walked(a.search, forward, id, n)).index == k;
    }
    assert(search_walked(a.search, forward, id, 0) == a.search);
    assert(search_walked(a.search, forward, id, 1) == s);
    let b = AppView { search: s, ..a };
    let r = search_jumped(a, forward);
    let ts = a.search.results[s.index as int].timestamp_ms;
    assert(jumped_to(joined(b, id), ts).search == s) by {
        reveal(jumped_to);
        reveal(joined);
        reveal(crate::navigation::entered);
        reveal(crate::navigation::left);
    }
    assert(s.results == a.search.results);
    assert(r.search == s);
    going_to_a_result(b, id, ts, i);
}

} // verus!
