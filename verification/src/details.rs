//! What is promised of the smaller things: clocks, names of files, lists that come
//! from outside, and how everything begins.
use crate::app::{
    AppView, EffectView, FilePickerStateView, Flag, ImageProtocol, InputMode, Overlay,
    SearchResultView, SearchStateView, Setting, SettingsProfileView,
};
use crate::autocomplete::{any_overlay, clipboard_text_pasted, completed};
use crate::choosing::sorted_has;
use crate::composer::normalized;
use crate::conversation_store::{clock_text, two_digits, unread_sum, ConversationView};
use crate::export::{export_name, is_alnum, safe_name};
use crate::file_picker::{entries_sorted, files_listed};
use crate::images::protocol_for;
use crate::keybindings::KeyBindingsView;
use crate::navigation::{entered, joined, left};
use crate::order::lower_name;
use crate::places::filter_has;
use crate::search::search_found;
use crate::settings::{profile_deleted, profile_saved};
use crate::startup::{started, StartupView};
use crate::strmap::{holds, look, place, place_finds, put};
use crate::text::trimmed;
use vstd::prelude::*;

verus! {

/// A clock shows the hour and the minute of the day that a time falls in, at an offset
/// from the meridian.
pub proof fn clocks_show_the_minute(timestamp_ms: int, offset_seconds: int) -> (hm: (int, int))
    ensures
        ({
            let seconds = timestamp_ms / 1000 + offset_seconds;
            let (h, m) = hm;
            &&& 0 <= h < 24 && 0 <= m < 60
            &&& h * 3600 + m * 60 <= seconds % 86400 < h * 3600 + m * 60 + 60
            &&& clock_text(timestamp_ms, offset_seconds) == two_digits(h) + ":"@ + two_digits(m)
        }),
{
    let seconds = timestamp_ms / 1000 + offset_seconds;
    let minutes = (seconds / 60) % 1440;
    (minutes / 60, minutes % 60)
}

/// A conversation is left over where it has no messages and nothing to call it by but
/// what it is found under; a number is enough to call one person by.
pub proof fn left_over_conversations_say_nothing(c: ConversationView)
    ensures
        c.messages.len() > 0 ==> !c.stale(),
        c.name.len() > 0 && c.name != c.id ==> !c.stale(),
        !c.is_group && c.id.len() > 0 && c.id[0] == '+' && c.name == c.id ==> !c.stale(),
        c.messages.len() == 0 && c.is_group && c.name == c.id ==> c.stale(),
        c.messages.len() == 0 && c.is_group && c.name.len() == 0 ==> c.stale(),
        c.messages.len() == 0 && !c.is_group && c.name == c.id && (c.id.len() == 0 || c.id[0] != '+')
            ==> c.stale(),
{
}

/// Pasting from the clipboard writes what is on it where the cursor is, without white
/// space around it; where that is all there is, it is said that there is nothing.
pub proof fn the_clipboard_is_pasted(a: AppView, text: Seq<char>, clock_ms: u64)
    ensures
        trimmed(text).len() == 0 ==> clipboard_text_pasted(a, text, clock_ms).0 == (AppView {
            status_message: "Clipboard is empty"@,
            ..a
        }) && clipboard_text_pasted(a, text, clock_ms).1 is None,
        trimmed(text).len() > 0 && a.mode == InputMode::Insert && !any_overlay(a)
            ==> clipboard_text_pasted(a, text, clock_ms).0.input.before == a.input.before
            + normalized(trimmed(text)) && clipboard_text_pasted(a, text, clock_ms).0.input.after
            == a.input.after,
        trimmed(text).len() > 0 && a.mode != InputMode::Insert ==> clipboard_text_pasted(
            a,
            text,
            clock_ms,
        ).0 == a,
{
    reveal(completed);
}

/// The name of an exported file keeps letters, digits, hyphens and underscores of the
/// conversation's name, and has an underscore for everything else.
pub proof fn export_names_are_safe(name: Seq<char>, day: Seq<char>, i: int)
    requires
        0 <= i < name.len(),
    ensures
        safe_name(name).len() == name.len(),
        is_alnum(name[i]) || name[i] == '-' || name[i] == '_' ==> safe_name(name)[i] == name[i],
        !(is_alnum(name[i]) || name[i] == '-' || name[i] == '_') ==> safe_name(name)[i] == '_',
        export_name(name, day) == "siggy-export-"@ + safe_name(name) + "-"@ + day + ".txt"@,
{
}

/// What is in a directory is listed with the directories first; every file is there
/// with its size, every directory by its name, and nothing else is.
pub proof fn directories_come_first(
    p: FilePickerStateView,
    rows: Seq<(Seq<char>, bool, u64)>,
    x: (Seq<char>, bool, u64),
    i: int,
    j: int,
)
    ensures
        ({
            let q = files_listed(p, Ok(rows));
            let s = q.entries;
            &&& q.error is None && q.dir == p.dir
            &&& 0 <= i < j < s.len() && s[j].1 ==> s[i].1
            &&& !x.1 ==> (s.contains(x) <==> rows.contains(x))
            &&& x.1 && rows.contains(x) ==> s.contains((x.0, true, 0u64))
        }),
        files_listed(p, Err(x.0)).entries.len() == 0,
        files_listed(p, Err(x.0)).error == Some("Cannot read directory: "@ + x.0),
{
    let is_dir = |r: (Seq<char>, bool, u64)| r.1;
    let is_file = |r: (Seq<char>, bool, u64)| !r.1;
    let plain = |r: (Seq<char>, bool, u64)| (r.0, true, 0u64);
    let dirs = rows.filter(is_dir).map_values(plain);
    let files = rows.filter(is_file);
    let first = crate::order::sorted_by(dirs, lower_name());
    let rest = crate::order::sorted_by(files, lower_name());
    let s = entries_sorted(rows);
    assert(s == first + rest);
    assert forall|k: int| 0 <= k < first.len() implies (#[trigger] first[k]).1 by {
        sorted_has(dirs, lower_name(), first[k]);
        assert(first.contains(first[k]));
        let l = choose|l: int| 0 <= l < dirs.len() && dirs[l] == first[k];
        assert(dirs[l] == plain(rows.filter(is_dir)[l]));
    }
    assert forall|k: int| 0 <= k < rest.len() implies !(#[trigger] rest[k]).1 by {
        sorted_has(files, lower_name(), rest[k]);
        assert(rest.contains(rest[k]));
        filter_has(rows, is_file, rest[k]);
    }
    if 0 <= i < j < s.len() && s[j].1 {
        if j >= first.len() {
            assert(s[j] == rest[j - first.len()]);
        }
        assert(s[i] == first[i]);
    }
    if !x.1 {
        sorted_has(files, lower_name(), x);
        filter_has(rows, is_file, x);
        if s.contains(x) {
            let k = choose|k: int| 0 <= k < s.len() && s[k] == x;
            if k < first.len() {
                assert(first[k] == x);
            } else {
                assert(rest[k - first.len()] == x);
                assert(rest.contains(x));
            }
        }
        if rows.contains(x) {
            let k = choose|k: int| 0 <= k < rest.len() && rest[k] == x;
            assert(s[first.len() + k] == x);
        }
    } else if rows.contains(x) {
        crate::choosing::mapped_has(rows, is_dir, plain, x);
        sorted_has(dirs, lower_name(), plain(x));
        let k = choose|k: int| 0 <= k < first.len() && first[k] == plain(x);
        assert(s[k] == plain(x));
    }
}

/// What was found is shown, with one of it selected.
pub proof fn what_is_found_is_shown(s: SearchStateView, results: Seq<SearchResultView>)
    ensures
        search_found(s, results).results == results,
        search_found(s, results).query == s.query,
        results.len() > 0 ==> search_found(s, results).index < results.len(),
        s.index < results.len() ==> search_found(s, results).index == s.index,
{
}

/// A profile that was saved is the one in use and is listed; one that was deleted is not
/// in use any more. Where that could not be done, it is said, and nothing changes.
pub proof fn saved_profiles_are_used(
    a: AppView,
    name: Seq<char>,
    list: Seq<SettingsProfileView>,
    why: Seq<char>,
)
    ensures
        ({
            let saved = profile_saved(a, name, Ok(list));
            let gone = profile_deleted(a, name, Ok(list));
            &&& saved.settings_profiles.name == name && saved.settings_profiles.available == list
            &&& gone.settings_profiles.available == list
            &&& a.settings_profiles.name == name ==> gone.settings_profiles.name == "Default"@
            &&& a.settings_profiles.name != name ==> gone.settings_profiles.name
                == a.settings_profiles.name
            &&& saved.effects == a.effects.push(EffectView::SaveSettings) && gone.effects
                == saved.effects
            &&& saved.settings == a.settings && gone.settings == a.settings
        }),
        profile_saved(a, name, Err(why)) == (AppView {
            status_message: "Save failed: "@ + why,
            ..a
        }),
        profile_deleted(a, name, Err(why)) == (AppView {
            status_message: "Delete failed: "@ + why,
            ..a
        }),
{
}

/// At first there is no conversation, nothing is written, nothing is open and nothing
/// waits to be sent; one can write, and what is not switched off is on.
pub proof fn it_begins_empty(s: StartupView, keys: KeyBindingsView, o: Overlay)
    ensures
        ({
            let a = started(s, keys);
            &&& a.store.conversations.len() == 0 && a.store.conversation_order.len() == 0
            &&& a.store.groups.len() == 0 && a.store.contact_names.len() == 0
            &&& a.active_conversation is None && a.mode == InputMode::Insert
            &&& a.input.before.len() == 0 && a.input.after.len() == 0 && a.input.history.len() == 0
            &&& !a.shows(o) && a.group_menu.state is None
            &&& a.pending.sends.len() == 0 && a.pending.read_receipts.len() == 0
                && a.pending.attachment is None
            &&& a.jobs.len() == 0 && a.effects.len() == 0
            &&& a.account == s.account && a.keybindings == keys
            &&& a.is(Flag::Loading) && !a.is(Flag::ShouldQuit) && !a.is(Flag::TypingSent)
            &&& a.settings.contains(Setting::NotifyDirect) && a.settings.contains(
                Setting::NotifyGroup,
            ) && a.settings.contains(Setting::SendReadReceipts) && a.settings.contains(
                Setting::SidebarVisible,
            )
            &&& !a.settings.contains(Setting::DesktopNotifications)
            &&& forall|id: Seq<char>| !a.muted.contains(id) && !a.blocked.contains(id)
        }),
{
}

proof fn sum_without(s: Seq<(Seq<char>, ConversationView)>, i: int, c: ConversationView)
    requires
        0 <= i < s.len(),
    ensures
        unread_sum(s.update(i, (s[i].0, c))) == unread_sum(s) - s[i].1.unread + c.unread,
    decreases s.len(),
{
    let t = s.update(i, (s[i].0, c));
    if i < s.len() - 1 {
        sum_without(s.drop_last(), i, c);
        assert(t.drop_last() =~= s.drop_last().update(i, (s[i].0, c)));
    } else {
        assert(t.drop_last() =~= s.drop_last());
    }
}

/// Going to a conversation takes what was unread in it from all that is unread.
pub proof fn reading_takes_from_what_is_unread(a: AppView, id: Seq<char>)
    requires
        holds(a.store.conversations, id),
    ensures
        unread_sum(joined(a, id).store.conversations) == unread_sum(a.store.conversations) - look(
            a.store.conversations,
            id,
        )->0.unread,
{
    reveal(joined);
    reveal(left);
    reveal(entered);
    let s = a.store.conversations;
    let c = look(s, id)->0;
    place_finds(s, id);
    assert(left(a).store.conversations == s);
    let d = ConversationView { unread: 0, ..c };
    assert(joined(a, id).store.conversations == put(s, id, d));
    sum_without(s, place(s, id), d);
}

/// Images are drawn as the terminal can: in Kitty's way in Kitty and Ghostty, in
/// iTerm's in iTerm and WezTerm, and with half blocks elsewhere.
pub proof fn terminals_draw_as_they_can(program: Seq<char>)
    ensures
        protocol_for(true, Some(program)) == ImageProtocol::Kitty,
        protocol_for(true, None) == ImageProtocol::Kitty,
        protocol_for(false, None) == ImageProtocol::Halfblock,
        protocol_for(false, Some(program)) == ImageProtocol::Kitty <==> program == "ghostty"@,
        protocol_for(false, Some(program)) == ImageProtocol::Iterm2 <==> program == "iTerm.app"@
            || program == "WezTerm"@,
{
    reveal_strlit("ghostty");
    reveal_strlit("iTerm.app");
    reveal_strlit("WezTerm");
    assert("ghostty"@[0] == 'g');
    assert("WezTerm"@[0] == 'W');
}

} // verus!
