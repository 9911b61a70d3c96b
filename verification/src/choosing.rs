//! What is promised of what is offered to choose from, and of what choosing does.
use crate::app::{
    AppView, AutocompleteMode, EffectView, EmojiPickerSource, Flag, Overlay, Setting,
    SettingsProfileView,
};
use crate::autocomplete::{
    accepted, command_candidates, completed, contact_shown, cut_at, fits, fitting_commands,
    join_candidates, join_contacts, join_conversations, join_groups, member_candidates,
    mention_candidates, mention_trigger, is_candidate, last_place,
};
use crate::conversation_store::ConversationView;
use crate::emoji_picker::emoji_key;
use crate::input::command_rows;
use crate::key_overlay::{capture_key, keybindings_key, row_item, theme_key};
use crate::keybindings::{BindingMode, KeyAction};
use crate::keys::{KeyCode, KeyCombo, KeyModifiers};
use crate::navigation::{joined, sidebar_key};
use crate::offsets::{byte_len, index_at_unique};
use crate::order::{lower_candidate, lower_first, sorted_by, sorted_by_keeps_items};
use crate::places::filter_has;
use crate::settings::{
    is_builtin, kept_config, profile_manager_key, settings_key, ConfigView, SETTING_COUNT,
};
use crate::strmap::look;
use crate::text::{contains_text, folded, occurs_at, trimmed};
use vstd::prelude::*;

verus! {

/// A text begins with another.
pub open spec fn begins_with(s: Seq<char>, p: Seq<char>) -> bool {
    p.len() <= s.len() && s.take(p.len() as int) == p
}

pub(crate) proof fn begins_is_occurs(s: Seq<char>, p: Seq<char>)
    ensures
        begins_with(s, p) <==> occurs_at(s, p, 0),
{
    if p.len() <= s.len() {
        assert(s.take(p.len() as int) =~= s.subrange(0, p.len() as int));
    }
}

proof fn commands_that_fit(prefix: Seq<char>, n: int, k: usize)
    requires
        0 <= n <= command_rows().len() <= usize::MAX,
    ensures
        fitting_commands(prefix, n).contains(k) <==> k < n && (begins_with(
            command_rows()[k as int].name,
            prefix,
        ) || command_rows()[k as int].alias.len() > 0 && begins_with(
            command_rows()[k as int].alias,
            prefix,
        )),
    decreases n,
{
    if n > 0 {
        let before = fitting_commands(prefix, n - 1);
        let after = fitting_commands(prefix, n);
        let last = (n - 1) as usize;
        let row = command_rows()[n - 1];
        commands_that_fit(prefix, n - 1, k);
        begins_is_occurs(row.name, prefix);
        begins_is_occurs(row.alias, prefix);
        if after.len() > before.len() {
            assert(after == before.push(last));
            if before.contains(k) {
                let i = choose|i: int| 0 <= i < before.len() && before[i] == k;
                assert(after[i] == k);
            }
            if k == last {
                assert(after[before.len() as int] == k);
            }
            if after.contains(k) && k != last {
                let i = choose|i: int| 0 <= i < after.len() && after[i] == k;
                assert(before[i] == k);
            }
        }
    }
}

/// While a command is being written, those commands are offered that begin with what is
/// written, in any case, and no others.
pub proof fn commands_are_offered(a: AppView, k: usize)
    requires
        a.input.text().len() > 0 && a.input.text()[0] == '/',
        !a.input.text().contains(' '),
        k < command_rows().len() <= usize::MAX,
    ensures
        ({
            let b = completed(a);
            let lower = folded(a.input.text());
            let row = command_rows()[k as int];
            let fit = begins_with(row.name, lower) || row.alias.len() > 0 && begins_with(
                row.alias,
                lower,
            );
            &&& fit ==> b.shows(Overlay::Autocomplete) && b.autocomplete.mode
                == AutocompleteMode::Command && b.autocomplete.command_candidates.contains(k)
            &&& b.shows(Overlay::Autocomplete) && b.autocomplete.mode == AutocompleteMode::Command
                && b.autocomplete.command_candidates.contains(k) ==> fit
            &&& b.input == a.input && b.store == a.store
        }),
{
    reveal(completed);
    let lower = folded(a.input.text());
    let n = command_rows().len() as int;
    let cmds = command_candidates(a.input.text());
    commands_that_fit(lower, n, k);
    if cmds.contains(k) {
        assert(cmds.len() > 0);
    }
    let joins = join_candidates(a);
    reveal_strlit("/join ");
    reveal_strlit("/j ");
    let text = a.input.text();
    if occurs_at(text, "/join "@, 0) {
        assert(text.subrange(0, "/join "@.len() as int)[5] == ' ');
        assert(text[5] == ' ');
    }
    if occurs_at(text, "/j "@, 0) {
        assert(text.subrange(0, "/j "@.len() as int)[2] == ' ');
        assert(text[2] == ' ');
    }
}

proof fn found_stay(
    found: Seq<(Seq<char>, Seq<char>)>,
    order: Seq<Seq<char>>,
    convs: Seq<(Seq<char>, ConversationView)>,
    lower: Seq<char>,
    x: (Seq<char>, Seq<char>),
)
    requires
        found.contains(x),
    ensures
        join_conversations(found, order, convs, lower).contains(x),
    decreases order.len(),
{
    if order.len() > 0 {
        let before = join_conversations(found, order.drop_last(), convs, lower);
        found_stay(found, order.drop_last(), convs, lower, x);
        let i = choose|i: int| 0 <= i < before.len() && before[i] == x;
        let after = join_conversations(found, order, convs, lower);
        assert(after[i] == x);
    }
}

proof fn fitting_are_found(
    found: Seq<(Seq<char>, Seq<char>)>,
    order: Seq<Seq<char>>,
    convs: Seq<(Seq<char>, ConversationView)>,
    lower: Seq<char>,
    k: int,
)
    requires
        0 <= k < order.len(),
        look(convs, order[k]) is Some,
        fits(lower, look(convs, order[k])->0.name, folded(order[k])),
    ensures
        is_candidate(join_conversations(found, order, convs, lower), order[k]),
    decreases order.len(),
{
    let before = join_conversations(found, order.drop_last(), convs, lower);
    let after = join_conversations(found, order, convs, lower);
    let id = order[k];
    if k < order.len() - 1 {
        fitting_are_found(found, order.drop_last(), convs, lower, k);
        let i = choose|i: int| 0 <= i < before.len() && (#[trigger] before[i]).1 == id;
        assert(after[i].1 == id);
    } else if is_candidate(before, id) {
        let i = choose|i: int| 0 <= i < before.len() && (#[trigger] before[i]).1 == id;
        assert(after[i].1 == id);
    } else {
        assert(after[before.len() as int].1 == id);
    }
}

pub(crate) proof fn sorted_has<T>(s: Seq<T>, key: spec_fn(T) -> Seq<char>, x: T)
    ensures
        sorted_by(s, key).contains(x) <==> s.contains(x),
{
    broadcast use vstd::seq_lib::group_to_multiset_ensures;

    sorted_by_keeps_items(s, key);
    assert(sorted_by(s, key).contains(x) <==> sorted_by(s, key).to_multiset().count(x) > 0);
    assert(s.contains(x) <==> s.to_multiset().count(x) > 0);
}

pub(crate) proof fn mapped_has<T, U>(s: Seq<T>, p: spec_fn(T) -> bool, f: spec_fn(T) -> U, x: T)
    requires
        s.contains(x),
        p(x),
    ensures
        s.filter(p).map_values(f).contains(f(x)),
{
    filter_has(s, p, x);
    let t = s.filter(p);
    let i = choose|i: int| 0 <= i < t.len() && t[i] == x;
    assert(t.map_values(f)[i] == f(x));
}

pub(crate) proof fn mapped_from<T, U>(s: Seq<T>, p: spec_fn(T) -> bool, f: spec_fn(T) -> U, y: U) -> (x: T)
    requires
        s.filter(p).map_values(f).contains(y),
    ensures
        s.contains(x),
        p(x),
        f(x) == y,
{
    let t = s.filter(p);
    let u = t.map_values(f);
    let i = choose|i: int| 0 <= i < u.len() && u[i] == y;
    let x = t[i];
    assert(t.contains(x));
    filter_has(s, p, x);
    x
}

/// Something is offered to join: a text that is shown and what is joined for it.
pub open spec fn offers(a: AppView, value: Seq<char>) -> bool {
    a.shows(Overlay::Autocomplete) && a.autocomplete.mode == AutocompleteMode::Join && is_candidate(
        a.autocomplete.join_candidates,
        value,
    )
}

/// While it is written whom to join, each contact is offered whose name or number has
/// what is written in it, each group by its name, and each conversation there is.
pub proof fn conversations_are_offered(a: AppView, arg: Seq<char>, x: Seq<char>, name: Seq<char>)
    requires
        a.input.text() == "/join "@ + arg,
    ensures
        ({
            let b = completed(a);
            let lower = folded(arg);
            &&& a.store.contact_names.contains((x, name)) && x.len() > 0 && x[0] == '+' && (
            contains_text(folded(name), lower) || contains_text(x, lower)) ==> offers(b, x)
            &&& a.store.conversation_order.contains(x) && look(a.store.conversations, x) is Some
                && contains_text(folded(look(a.store.conversations, x)->0.name), lower) ==> offers(
                b,
                x,
            )
        }),
{
    reveal(completed);
    reveal_strlit("/join ");
    let text = a.input.text();
    let lower = folded(arg);
    assert(text.subrange(0, "/join "@.len() as int) =~= "/join "@);
    assert(text.skip("/join "@.len() as int) =~= arg);
    assert(text[5] == ' ');
    assert(command_candidates(text).len() == 0);
    let contacts = join_contacts(a.store.contact_names, lower);
    let groups = join_groups(a.store.groups, lower);
    let found = contacts + groups;
    let order = a.store.conversation_order;
    let convs = a.store.conversations;
    let all = join_conversations(found, order, convs, lower);
    let joins = join_candidates(a);
    if a.store.contact_names.contains((x, name)) && x.len() > 0 && x[0] == '+' && (contains_text(
        folded(name),
        lower,
    ) || contains_text(x, lower)) {
        let item = (contact_shown(name, x), x);
        mapped_has(
            a.store.contact_names,
            |p: (Seq<char>, Seq<char>)| p.0.len() > 0 && p.0[0] == '+' && fits(lower, p.1, p.0),
            |p: (Seq<char>, Seq<char>)| (contact_shown(p.1, p.0), p.0),
            (x, name),
        );
        assert(contacts.contains(item));
        let i = choose|i: int| 0 <= i < contacts.len() && contacts[i] == item;
        assert(found[i] == item);
        found_stay(found, order, convs, lower, item);
        sorted_has(all, lower_first(), item);
        let k = choose|k: int| 0 <= k < joins.len() && joins[k] == item;
        assert(joins[k].1 == x);
    }
    if order.contains(x) && look(convs, x) is Some && contains_text(
        folded(look(convs, x)->0.name),
        lower,
    ) {
        let k = choose|k: int| 0 <= k < order.len() && order[k] == x;
        fitting_are_found(found, order, convs, lower, k);
        let i = choose|i: int| 0 <= i < all.len() && (#[trigger] all[i]).1 == x;
        sorted_has(all, lower_first(), all[i]);
        let item = all[i];
        let l = choose|l: int| 0 <= l < joins.len() && joins[l] == item;
        assert(joins[l].1 == x);
    }
}

/// While someone is being mentioned in a group, each member is offered whose name or
/// number has what is written in it, with the identifier that is sent for them, and
/// nobody else.
pub proof fn members_are_offered_to_mention(
    a: AppView,
    id: Seq<char>,
    front: Seq<char>,
    query: Seq<char>,
    m: Seq<char>,
)
    requires
        a.active_conversation == Some(id),
        look(a.store.conversations, id) is Some && look(a.store.conversations, id)->0.is_group,
        look(a.store.groups, id) is Some,
        a.input.before == front + seq!['@'] + query,
        front.len() == 0 || crate::text::is_white(front.last()),
        !query.contains('@') && !query.contains(' '),
        a.input.text()[0] != '/',
    ensures
        ({
            let b = completed(a);
            let lower = folded(query);
            let offered = b.shows(Overlay::Autocomplete) && b.autocomplete.mode
                == AutocompleteMode::Mention && b.autocomplete.mention_candidates.contains(
                (m, a.name_of(m), look(a.store.number_to_uuid, m)),
            );
            let fit = look(a.store.groups, id)->0.members.contains(m) && (query.len() == 0
                || contains_text(folded(a.name_of(m)), lower) || contains_text(m, lower));
            &&& fit && folded(query).len() == query.len() ==> offered
            &&& offered && folded(query).len() == query.len() ==> fit
            &&& b.shows(Overlay::Autocomplete) ==> b.autocomplete.mode == AutocompleteMode::Mention
                && b.autocomplete.mention_trigger_pos == byte_len(front) as usize
        }),
{
    reveal(completed);
    reveal_strlit("/join ");
    reveal_strlit("/j ");
    let text = a.input.text();
    let before = a.input.before;
    let k = front.len() as int;
    if occurs_at(text, "/join "@, 0) {
        assert(text.subrange(0, "/join "@.len() as int)[0] == '/');
    }
    if occurs_at(text, "/j "@, 0) {
        assert(text.subrange(0, "/j "@.len() as int)[0] == '/');
    }
    assert(before[k] == '@');
    assert forall|j: int| k < j < before.len() implies #[trigger] before[j] != '@' by {
        assert(before[j] == query[j - k - 1]);
        if before[j] == '@' {
            assert(query.contains('@'));
        }
    }
    at_is_last(before, k);
    assert(before.skip(k + 1) =~= query);
    assert(before.take(k) =~= front);
    if k > 0 {
        assert(before[k - 1] == front.last());
    }
    assert(mention_trigger(before) == Some(k));
    let lower = folded(query);
    let members = look(a.store.groups, id)->0.members;
    let item = (m, a.name_of(m), look(a.store.number_to_uuid, m));
    let fit = members.contains(m) && (query.len() == 0 || contains_text(
        folded(a.name_of(m)),
        lower,
    ) || contains_text(m, lower));
    if fit && lower.len() == query.len() {
        mapped_has(
            members,
            |m: Seq<char>| fits(lower, a.name_of(m), m),
            |m: Seq<char>| (m, a.name_of(m), look(a.store.number_to_uuid, m)),
            m,
        );
        sorted_has(member_candidates(a, members, lower), lower_candidate(), item);
        assert(mention_candidates(a, lower).contains(item));
        assert(mention_candidates(a, lower).len() > 0);
    }
    if completed(a).shows(Overlay::Autocomplete)
        && completed(a).autocomplete.mention_candidates.contains(item) {
        sorted_has(member_candidates(a, members, lower), lower_candidate(), item);
        let n = mapped_from(
            members,
            |m: Seq<char>| fits(lower, a.name_of(m), m),
            |m: Seq<char>| (m, a.name_of(m), look(a.store.number_to_uuid, m)),
            item,
        );
        assert(n == m);
    }
}

proof fn at_is_last(s: Seq<char>, k: int)
    requires
        0 <= k < s.len(),
        s[k] == '@',
        forall|j: int| k < j < s.len() ==> #[trigger] s[j] != '@',
    ensures
        last_place(s, '@') == k,
    decreases s.len(),
{
    if k < s.len() - 1 {
        assert(s[s.len() - 1] != '@');
        at_is_last(s.drop_last(), k);
    }
}

/// Choosing what is offered writes it: a command, whom to join, or a mention in place
/// of what was written of it, with what stood behind the cursor kept. Whom a mention
/// means is kept with it.
pub proof fn choosing_writes_it(a: AppView, front: Seq<char>)
    requires
        front.len() <= a.input.before.len() && a.input.before.take(front.len() as int) == front,
        byte_len(front) <= usize::MAX,
        a.autocomplete.mention_trigger_pos == byte_len(front),
    ensures
        ({
            let b = accepted(a);
            let s = a.autocomplete;
            let i = s.index as int;
            &&& s.mode == AutocompleteMode::Command && i < s.command_candidates.len()
                && s.command_candidates[i] < command_rows().len() ==> begins_with(
                b.input.text(),
                command_rows()[s.command_candidates[i] as int].name,
            ) && !b.shows(Overlay::Autocomplete)
            &&& s.mode == AutocompleteMode::Join && i < s.join_candidates.len() ==> b.input.text()
                == "/join "@ + s.join_candidates[i].1 && !b.shows(Overlay::Autocomplete)
            &&& s.mode == AutocompleteMode::Mention && i < s.mention_candidates.len() ==> {
                let (_, name, uuid) = s.mention_candidates[i];
                &&& b.input.before == front + "@"@ + name + " "@ && b.input.after == a.input.after
                &&& b.autocomplete.pending_mentions == s.pending_mentions.push((name, uuid))
                &&& !b.shows(Overlay::Autocomplete)
            }
            &&& b.store == a.store && b.active_conversation == a.active_conversation
        }),
{
    reveal(accepted);
    let text = a.input.text();
    let k = front.len() as int;
    assert(text.take(k) =~= front);
    let s = a.autocomplete;
    assert(crate::offsets::starts_at(text, s.mention_trigger_pos as int, k));
    index_at_unique(text, s.mention_trigger_pos as int, k);
    assert(cut_at(text, s.mention_trigger_pos as int) == k);
    let b = accepted(a);
    let i = s.index as int;
    if s.mode == AutocompleteMode::Command && i < s.command_candidates.len()
        && s.command_candidates[i] < command_rows().len() {
        let row = command_rows()[s.command_candidates[i] as int];
        assert(b.input.text().take(row.name.len() as int) =~= row.name);
    }
    assert(b.input.after.len() == 0 ==> b.input.text() =~= b.input.before);
}

// ---------------------------------------------------------------------------
// Lists
// ---------------------------------------------------------------------------

/// Writing in the filter of the sidebar shows those conversations whose names have it
/// in them, and no others; choosing opens the first that is shown and ends it.
pub proof fn the_filter_shows_what_fits(a: AppView, c: char, id: Seq<char>)
    ensures
        ({
            let b = sidebar_key(a, KeyCode::Char(c));
            let filter = a.sidebar.filter.push(c);
            &&& b.sidebar.filter == filter
            &&& b.sidebar.filtered.contains(id) <==> a.store.conversation_order.contains(id)
                && look(a.store.conversations, id) is Some && contains_text(
                folded(look(a.store.conversations, id)->0.name),
                folded(filter),
            )
            &&& b.store == a.store && b.active_conversation == a.active_conversation
        }),
        !sidebar_key(a, KeyCode::Esc).is(Flag::SidebarFilter),
        sidebar_key(a, KeyCode::Esc).active_conversation == a.active_conversation,
        a.sidebar.filtered.len() > 0 && holds_first(a) ==> sidebar_key(
            a,
            KeyCode::Enter,
        ).active_conversation == Some(a.sidebar.filtered[0]) && !sidebar_key(
            a,
            KeyCode::Enter,
        ).is(Flag::SidebarFilter),
{
    reveal(sidebar_key);
    reveal(joined);
    reveal(crate::navigation::left);
    reveal(crate::navigation::entered);
    let b = crate::navigation::sidebar_filter_set(a, a.sidebar.filter.push(c));
    filter_has(
        b.store.conversation_order,
        |id: Seq<char>|
            crate::navigation::sidebar_match(b.store.conversations, folded(b.sidebar.filter), id),
        id,
    );
}

/// The first that the filter shows is a conversation that is there.
pub open spec fn holds_first(a: AppView) -> bool {
    crate::strmap::holds(a.store.conversations, a.sidebar.filtered[0])
}

/// Choosing an emoji writes it at the cursor, where the picker was opened for that, and
/// closes the picker.
pub proof fn emojis_are_written(a: AppView)
    requires
        a.emoji_picker.selected_index < a.emoji_picker.filtered.len(),
        a.emoji_picker.source == EmojiPickerSource::Input,
    ensures
        ({
            let (b, r) = emoji_key(a, KeyCode::Enter);
            let e = a.emoji_picker.filtered[a.emoji_picker.selected_index as int].emoji;
            &&& r is None && b.input.before == a.input.before + e && b.input.after == a.input.after
            &&& !b.shows(Overlay::EmojiPicker) && b.store == a.store
        }),
        emoji_key(a, KeyCode::Esc).0.input == a.input,
        !emoji_key(a, KeyCode::Esc).0.shows(Overlay::EmojiPicker),
{
    reveal(emoji_key);
}

/// Choosing an emoji to react with reacts with that one.
pub proof fn emojis_react(a: AppView)
    requires
        a.emoji_picker.selected_index < a.emoji_picker.filtered.len(),
        a.emoji_picker.source != EmojiPickerSource::Input,
    ensures
        ({
            let b = crate::emoji_picker::emoji_picker_closed(a);
            let e = a.emoji_picker.filtered[a.emoji_picker.selected_index as int].emoji;
            emoji_key(a, KeyCode::Enter) == crate::actions::reaction_sent(b, e)
        }),
{
    reveal(emoji_key);
}

/// Choosing a theme sets it, keeps it for the next start and closes the list; closing
/// the list leaves the theme.
pub proof fn themes_are_set(a: AppView)
    requires
        a.theme_picker.index < a.theme_picker.available_themes.len(),
    ensures
        ({
            let b = theme_key(a, KeyCode::Enter);
            &&& b.theme == a.theme_picker.available_themes[a.theme_picker.index as int]
            &&& b.effects == a.effects.push(EffectView::SaveSettings)
            &&& !b.shows(Overlay::ThemePicker)
        }),
        theme_key(a, KeyCode::Esc).theme == a.theme,
        theme_key(a, KeyCode::Esc).effects == a.effects,
        !theme_key(a, KeyCode::Esc).shows(Overlay::ThemePicker),
{
    reveal(theme_key);
}

/// How a setting is called.
pub open spec fn called(k: Setting) -> Seq<char> {
    match k {
        Setting::NotifyDirect => "Direct message notifications"@,
        Setting::NotifyGroup => "Group message notifications"@,
        Setting::DesktopNotifications => "Desktop notifications"@,
        Setting::SidebarVisible => "Sidebar visible"@,
        Setting::InlineImages => "Inline image previews"@,
        Setting::ShowLinkPreviews => "Link previews"@,
        Setting::NativeImages => "Native images (experimental)"@,
        Setting::DateSeparators => "Date separators"@,
        Setting::ShowReceipts => "Read receipts"@,
        Setting::ColorReceipts => "Receipt colors"@,
        Setting::NerdFonts => "Nerd Font icons"@,
        Setting::EmojiToText => "Emoji to text"@,
        Setting::ShowReactions => "Show reactions"@,
        Setting::ReactionVerbose => "Verbose reactions"@,
        Setting::SendReadReceipts => "Send read receipts"@,
        Setting::MouseEnabled => "Mouse support"@,
        Setting::SidebarOnRight => "Sidebar on right"@,
    }
}

proof fn names_tell_settings(k: Setting, i: int)
    requires
        0 <= i < SETTING_COUNT,
    ensures
        called(k) == crate::settings::setting_label(i) <==> crate::settings::setting_at(i) == Some(
            k,
        ),
{
    reveal_strlit("Direct message notifications");
    reveal_strlit("Group message notifications");
    reveal_strlit("Desktop notifications");
    reveal_strlit("Sidebar visible");
    reveal_strlit("Inline image previews");
    reveal_strlit("Link previews");
    reveal_strlit("Native images (experimental)");
    reveal_strlit("Date separators");
    reveal_strlit("Read receipts");
    reveal_strlit("Receipt colors");
    reveal_strlit("Nerd Font icons");
    reveal_strlit("Emoji to text");
    reveal_strlit("Show reactions");
    reveal_strlit("Verbose reactions");
    reveal_strlit("Send read receipts");
    reveal_strlit("Mouse support");
    reveal_strlit("Sidebar on right");
    let x = called(k);
    let y = crate::settings::setting_label(i);
    if x == y {
        assert(x.len() == y.len());
        assert(x[0] == y[0]);
    }
}

/// Each row of the settings switches what it is called after, on or off, and nothing
/// else.
pub proof fn rows_switch_what_they_say(a: AppView, k: Setting)
    requires
        a.settings_index < SETTING_COUNT,
    ensures
        ({
            let b = settings_key(a, KeyCode::Enter);
            let label = crate::settings::setting_label(a.settings_index as int);
            let meant = called(k);
            &&& label == meant ==> b.settings.contains(k) == !a.settings.contains(k)
            &&& label != meant ==> b.settings.contains(k) == a.settings.contains(k)
            &&& b.store == a.store && b.shows(Overlay::Settings) == a.shows(Overlay::Settings)
        }),
{
    reveal(settings_key);
    names_tell_settings(k, a.settings_index as int);
}

/// The last rows of the settings choose what notifications show, a theme, the keys, and
/// a profile.
pub proof fn last_rows_open_what_they_say(a: AppView)
    requires
        a.shows(Overlay::Settings),
    ensures
        ({
            let b = settings_key(a, KeyCode::Enter);
            let i = a.settings_index as int;
            let p = a.notification_preview;
            &&& i == SETTING_COUNT && p == "full"@ ==> b.notification_preview == "sender"@
            &&& i == SETTING_COUNT && p == "sender"@ ==> b.notification_preview == "minimal"@
            &&& i == SETTING_COUNT && p == "minimal"@ ==> b.notification_preview == "full"@
            &&& i == SETTING_COUNT + 1 ==> b.shows(Overlay::ThemePicker) && !b.shows(
                Overlay::Settings,
            )
            &&& i == SETTING_COUNT + 2 ==> b.shows(Overlay::Keybindings) && !b.shows(
                Overlay::Settings,
            )
            &&& i == SETTING_COUNT + 3 ==> b.shows(Overlay::SettingsProfiles) && !b.shows(
                Overlay::Settings,
            )
        }),
        !settings_key(a, KeyCode::Esc).shows(Overlay::Settings),
        settings_key(a, KeyCode::Esc).settings == a.settings,
        settings_key(a, KeyCode::Esc).effects == a.effects.push(EffectView::SaveSettings),
{
    reveal(settings_key);
    reveal_strlit("full");
    reveal_strlit("sender");
    reveal_strlit("minimal");
}

/// Choosing a profile sets what it holds, but not whether the sidebar shows; saving one
/// saves what is set under its name; those that are built in are not saved nor deleted.
pub proof fn profiles_are_chosen(a: AppView, i: int, k: Setting)
    requires
        !a.is(Flag::SavingProfileAs),
        i == a.settings_profiles.index,
        i < a.settings_profiles.available.len(),
    ensures
        ({
            let p = a.settings_profiles.available[i];
            let chosen = profile_manager_key(a, KeyCode::Enter);
            let saved = profile_manager_key(a, KeyCode::Char('s'));
            let gone = profile_manager_key(a, KeyCode::Char('d'));
            &&& k != Setting::SidebarVisible ==> chosen.settings.contains(k) == p.settings.contains(k)
            &&& chosen.settings.contains(Setting::SidebarVisible) == a.settings.contains(
                Setting::SidebarVisible,
            )
            &&& chosen.notification_preview == p.notification_preview
            &&& chosen.settings_profiles.name == p.name
            &&& p.builtin ==> saved == a && gone == a
            &&& !p.builtin && a.notification_preview != p.notification_preview ==> saved.effects
                == a.effects.push(
                EffectView::SaveSettingsProfile(
                    SettingsProfileView {
                        name: p.name,
                        builtin: false,
                        settings: a.settings,
                        notification_preview: a.notification_preview,
                    },
                ),
            )
            &&& !p.builtin ==> gone.effects == a.effects.push(
                EffectView::DeleteSettingsProfile(p.name),
            )
        }),
{
    reveal(profile_manager_key);
}

/// A profile is saved under the name that is written for it, unless it is empty or that
/// of one that is built in.
pub proof fn profiles_are_saved_under_their_names(a: AppView, i: int)
    requires
        a.is(Flag::SavingProfileAs),
    ensures
        ({
            let b = profile_manager_key(a, KeyCode::Enter);
            let name = trimmed(a.settings_profiles.save_as_input);
            let list = a.settings_profiles.available;
            &&& name.len() == 0 ==> b.effects == a.effects
            &&& 0 <= i < list.len() && list[i].builtin && list[i].name == name ==> b.effects
                == a.effects
            &&& name.len() > 0 && !is_builtin(list, name) ==> !b.is(Flag::SavingProfileAs)
                && b.effects == a.effects.push(
                EffectView::SaveSettingsProfile(
                    SettingsProfileView {
                        name,
                        builtin: false,
                        settings: a.settings,
                        notification_preview: a.notification_preview,
                    },
                ),
            )
        }),
{
    reveal(profile_manager_key);
}

/// What is kept for the next start is what is set, but that the sidebar shows then as
/// it did before.
pub proof fn settings_are_kept(a: AppView, base: ConfigView, k: Setting)
    ensures
        ({
            let c = kept_config(a, base);
            &&& k != Setting::SidebarVisible ==> c.settings.contains(k) == a.settings.contains(k)
            &&& c.settings.contains(Setting::SidebarVisible) == base.settings.contains(
                Setting::SidebarVisible,
            )
            &&& c.theme == a.theme.name && c.notification_preview == a.notification_preview
            &&& c.account == a.account && c.keybinding_profile == a.keybindings.profile_name
            &&& c.settings_profile == a.settings_profiles.name
            &&& c.signal_cli_path == base.signal_cli_path && c.download_dir == base.download_dir
                && c.proxy == base.proxy
        }),
{
}

/// Pressing a key for an action binds it: the key does the action from then on, no
/// other key does it in that mode, and every other key does what it did. An action that
/// loses its key is told.
pub proof fn pressed_keys_are_bound(
    a: AppView,
    modifiers: KeyModifiers,
    code: KeyCode,
    mode: BindingMode,
    action: KeyAction,
    other: KeyCombo,
)
    requires
        row_item(a.keybindings_overlay.index as int) == (mode, Some(action)),
        code != KeyCode::Esc,
    ensures
        ({
            let b = capture_key(a, modifiers, code);
            let combo = crate::keybindings::pressed_combo(modifiers, code);
            let old = a.keybindings.map_of(mode);
            let new = b.keybindings.map_of(mode);
            &&& new.contains_key(combo) && new[combo] == action
            &&& other != combo ==> (new.contains_key(other) <==> old.contains_key(other)
                && old[other] != action)
            &&& other != combo && new.contains_key(other) ==> new[other] == old[other]
            &&& !b.is(Flag::CapturingKey)
            &&& old.contains_key(combo) && old[combo] != action
                ==> b.keybindings_overlay.conflict == Some((old[combo], combo))
            &&& mode != BindingMode::Global ==> b.keybindings.global == a.keybindings.global
            &&& mode != BindingMode::Normal ==> b.keybindings.normal == a.keybindings.normal
            &&& mode != BindingMode::Insert ==> b.keybindings.insert == a.keybindings.insert
        }),
{
}

/// Asked whether an action may lose its key, yes leaves what was bound; no gives both
/// actions back the keys that they have at first.
pub proof fn conflicts_are_settled(
    a: AppView,
    mode: BindingMode,
    action: KeyAction,
    lost: KeyAction,
    combo: KeyCombo,
)
    requires
        !a.is(Flag::KeyProfilePicker),
        a.keybindings_overlay.conflict == Some((lost, combo)),
        row_item(a.keybindings_overlay.index as int) == (mode, Some(action)),
        action != lost,
    ensures
        ({
            let yes = keybindings_key(a, KeyCode::Char('y'));
            let no = keybindings_key(a, KeyCode::Char('n'));
            let first = crate::keybindings::default_map(mode);
            &&& yes.keybindings == a.keybindings && yes.keybindings_overlay.conflict is None
            &&& no.keybindings_overlay.conflict is None
            &&& forall|c: KeyCombo|
                first.contains_key(c) && (first[c] == action || first[c] == lost)
                    ==> no.keybindings.map_of(mode).contains_key(c) && #[trigger] no.keybindings.map_of(
                    mode,
                )[c] == first[c]
            &&& forall|c: KeyCombo|
                no.keybindings.map_of(mode).contains_key(c) && (
                #[trigger] no.keybindings.map_of(mode)[c] == action || no.keybindings.map_of(mode)[c]
                    == lost) ==> first.contains_key(c) && first[c] == no.keybindings.map_of(mode)[c]
        }),
{
    reveal(keybindings_key);
}

/// Giving up on pressing a key leaves the bindings.
pub proof fn giving_up_binds_nothing(a: AppView)
    ensures
        ({
            let b = capture_key(a, KeyModifiers::spec_none(), KeyCode::Esc);
            b.keybindings == a.keybindings && !b.is(Flag::CapturingKey)
        }),
{
}

} // verus!
