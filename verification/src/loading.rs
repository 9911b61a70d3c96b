//! What is promised of what was kept and comes back, and of what is thrown away in
//! time.
use crate::app::{AppView, EffectView};
use crate::conversation_store::{ConversationStoreView, ConversationView, DisplayMessageView};
use crate::places::filter_has;
use crate::signal::MessageStatus;
use crate::startup::{
    conversation_loaded, conversation_named, conversations_loaded, conversations_named,
    database_loaded, message_loaded, messages_loaded, name_in_messages, page_loaded, page_wanted,
    PAGE_SIZE,
};
use crate::strmap::{at, look, look_after_put, place, place_finds, place_is};
use crate::upkeep::{
    clipboard_checked, copied, expired, expiry_swept, paste_due, pastes_cleaned, removals, swept,
};
use vstd::prelude::*;

verus! {

/// A message is shown as it was kept, but that one that was still being sent counts as
/// sent.
pub open spec fn as_kept(m: DisplayMessageView, kept: DisplayMessageView) -> bool {
    &&& m.body == kept.body
    &&& m.sender == kept.sender
    &&& m.sender_id == kept.sender_id
    &&& m.timestamp_ms == kept.timestamp_ms
    &&& m.reactions == kept.reactions
    &&& m.quote == kept.quote
    &&& m.poll_data == kept.poll_data
    &&& m.is_system == kept.is_system
    &&& m.is_edited == kept.is_edited
    &&& m.is_deleted == kept.is_deleted
    &&& m.is_pinned == kept.is_pinned
    &&& m.expires_in_seconds == kept.expires_in_seconds
    &&& m.expiration_start_ms == kept.expiration_start_ms
    &&& kept.status == Some(MessageStatus::Sending) ==> m.status == Some(MessageStatus::Sent)
    &&& kept.status != Some(MessageStatus::Sending) ==> m.status == kept.status
}

/// All messages of a list are shown as they were kept, in the same order.
pub open spec fn all_as_kept(s: Seq<DisplayMessageView>, kept: Seq<DisplayMessageView>) -> bool {
    s.len() == kept.len() && forall|j: int|
        0 <= j < kept.len() ==> as_kept(#[trigger] s[j], kept[j])
}

proof fn loaded_as_kept(kept: Seq<DisplayMessageView>, present: Set<Seq<char>>)
    ensures
        all_as_kept(messages_loaded(kept, present), kept),
{
    let s = messages_loaded(kept, present);
    assert forall|j: int| 0 <= j < kept.len() implies as_kept(#[trigger] s[j], kept[j]) by {
        assert(s[j] == message_loaded(kept[j], present));
    }
}

proof fn loaded_is_there(
    s: ConversationStoreView,
    convs: Seq<ConversationView>,
    present: Set<Seq<char>>,
    n: int,
    i: int,
)
    requires
        0 <= i < n <= convs.len(),
        forall|j: int, k: int|
            0 <= j < k < convs.len() ==> (#[trigger] convs[j]).id != (#[trigger] convs[k]).id,
    ensures
        ({
            let t = conversations_loaded(s, convs, present, n);
            let c = convs[i];
            &&& look(t.conversations, c.id) == Some(
                ConversationView { messages: messages_loaded(c.messages, present), ..c },
            )
            &&& c.messages.len() > 0 ==> look(t.last_read_index, c.id) == Some(
                if c.messages.len() > c.unread {
                    (c.messages.len() - c.unread) as usize
                } else {
                    0
                },
            )
            &&& c.messages.len() >= PAGE_SIZE ==> t.has_more_messages.contains(c.id)
        }),
    decreases n,
{
    let t = conversations_loaded(s, convs, present, n - 1);
    let last = convs[n - 1];
    let c = convs[i];
    let r = conversation_loaded(t, last, present);
    look_after_put(
        t.conversations,
        last.id,
        ConversationView { messages: messages_loaded(last.messages, present), ..last },
        c.id,
    );
    if last.messages.len() > 0 {
        look_after_put(
            t.last_read_index,
            last.id,
            if last.messages.len() > last.unread {
                (last.messages.len() - last.unread) as usize
            } else {
                0
            },
            c.id,
        );
    }
    if i < n - 1 {
        loaded_is_there(s, convs, present, n - 1, i);
        assert(convs[i].id != convs[n - 1].id);
    }
}

proof fn named_is_there(s: Seq<(Seq<char>, ConversationView)>, id: Seq<char>)
    ensures
        look(conversations_named(s), id) == match look(s, id) {
            Some(c) => Some(conversation_named(c)),
            None => None,
        },
{
    let t = conversations_named(s);
    place_finds(s, id);
    let p = place(s, id);
    assert forall|j: int| 0 <= j < s.len() implies (#[trigger] t[j]) == (
        s[j].0,
        conversation_named(s[j].1),
    ) by {}
    assert forall|j: int| 0 <= j < p implies (#[trigger] t[j]).0 != id by {
        assert(s[j].0 != id);
    }
    place_is(t, id, p);
}

/// Loading shows each conversation that was kept: a group as a group, with its
/// messages, with what is unread and with whether it was accepted. What was read stays
/// read, the order in the sidebar, who is muted and who is blocked are as kept.
pub proof fn loading_shows_what_was_kept(
    a: AppView,
    convs: Seq<ConversationView>,
    order: Seq<Seq<char>>,
    muted: Set<Seq<char>>,
    blocked: Set<Seq<char>>,
    present: Set<Seq<char>>,
    i: int,
)
    requires
        0 <= i < convs.len(),
        forall|j: int, k: int|
            0 <= j < k < convs.len() ==> (#[trigger] convs[j]).id != (#[trigger] convs[k]).id,
    ensures
        ({
            let b = database_loaded(a, convs, order, muted, blocked, present);
            let kept = convs[i];
            let c = look(b.store.conversations, kept.id);
            &&& c is Some
            &&& c->0.id == kept.id && c->0.is_group == kept.is_group && c->0.unread == kept.unread
            &&& c->0.accepted == kept.accepted && c->0.expiration_timer == kept.expiration_timer
            &&& all_as_kept(c->0.messages, kept.messages)
            &&& kept.is_group || kept.name != kept.id ==> c->0.name == kept.name
            &&& kept.messages.len() > 0 && kept.unread <= kept.messages.len() <= usize::MAX ==> look(
                b.store.last_read_index,
                kept.id,
            ) == Some((kept.messages.len() - kept.unread) as usize)
            &&& kept.messages.len() >= 100 ==> b.store.has_more_messages.contains(kept.id)
            &&& b.store.conversation_order == order && b.muted == muted && b.blocked == blocked
        }),
{
    let s = conversations_loaded(a.store, convs, present, convs.len() as int);
    let kept = convs[i];
    loaded_is_there(a.store, convs, present, convs.len() as int, i);
    named_is_there(s.conversations, kept.id);
    loaded_as_kept(kept.messages, present);
}

/// A sender's name: not oneself, not the conversation's number, nor any number.
pub open spec fn names_someone(sender: Seq<char>, id: Seq<char>) -> bool {
    sender != "you"@ && sender != id && !(sender.len() > 0 && sender[0] == '+')
}

proof fn name_is_newest(s: Seq<DisplayMessageView>, id: Seq<char>, n: int, k: int)
    requires
        0 <= k < n <= s.len(),
        names_someone(s[k].sender, id),
        forall|j: int| k < j < n ==> !names_someone((#[trigger] s[j]).sender, id),
    ensures
        name_in_messages(s, id, n) == Some(s[k].sender),
    decreases n,
{
    if k < n - 1 {
        assert(!names_someone(s[n - 1].sender, id));
        name_is_newest(s, id, n - 1, k);
    }
}

proof fn name_is_nowhere(s: Seq<DisplayMessageView>, id: Seq<char>, n: int)
    requires
        n <= s.len(),
        forall|j: int| 0 <= j < n ==> !names_someone((#[trigger] s[j]).sender, id),
    ensures
        name_in_messages(s, id, n) is None,
    decreases n,
{
    if n > 0 {
        assert(!names_someone(s[n - 1].sender, id));
        name_is_nowhere(s, id, n - 1);
    }
}

/// A conversation with one person that was kept under a number is called after the
/// newest message that names its sender, and keeps its number where none does.
pub proof fn numbers_get_names(
    a: AppView,
    convs: Seq<ConversationView>,
    order: Seq<Seq<char>>,
    muted: Set<Seq<char>>,
    blocked: Set<Seq<char>>,
    present: Set<Seq<char>>,
    i: int,
    k: int,
)
    requires
        0 <= i < convs.len(),
        forall|j: int, l: int|
            0 <= j < l < convs.len() ==> (#[trigger] convs[j]).id != (#[trigger] convs[l]).id,
        !convs[i].is_group,
        convs[i].name == convs[i].id,
        convs[i].name.len() > 0 && convs[i].name[0] == '+',
        -1 <= k < convs[i].messages.len(),
        k >= 0 ==> names_someone(convs[i].messages[k].sender, convs[i].id),
        forall|j: int|
            k < j < convs[i].messages.len() ==> !names_someone(
                (#[trigger] convs[i].messages[j]).sender,
                convs[i].id,
            ),
    ensures
        ({
            let b = database_loaded(a, convs, order, muted, blocked, present);
            let kept = convs[i];
            let name = look(b.store.conversations, kept.id)->0.name;
            &&& k >= 0 ==> name == kept.messages[k].sender
            &&& k < 0 ==> name == kept.name
        }),
{
    let s = conversations_loaded(a.store, convs, present, convs.len() as int);
    let kept = convs[i];
    let t = messages_loaded(kept.messages, present);
    loaded_is_there(a.store, convs, present, convs.len() as int, i);
    named_is_there(s.conversations, kept.id);
    loaded_as_kept(kept.messages, present);
    assert forall|j: int| k < j < t.len() implies !names_someone(
        (#[trigger] t[j]).sender,
        kept.id,
    ) by {
        assert(as_kept(t[j], kept.messages[j]));
    }
    if k >= 0 {
        assert(as_kept(t[k], kept.messages[k]));
        name_is_newest(t, kept.id, t.len() as int, k);
    } else {
        name_is_nowhere(t, kept.id, t.len() as int);
    }
}

/// More is asked for where more was kept of the active conversation, from behind what
/// is shown.
pub proof fn more_is_asked_for(a: AppView, id: Seq<char>)
    requires
        a.active_conversation == Some(id),
        look(a.store.conversations, id) is Some,
    ensures
        a.store.has_more_messages.contains(id) ==> page_wanted(a) == Some(
            (id, look(a.store.conversations, id)->0.messages.len()),
        ),
        !a.store.has_more_messages.contains(id) ==> page_wanted(a) is None,
{
}

/// Older messages that come in go before those that are shown. What is read and what is
/// pointed at stay the same messages; a page that is not full is the last.
pub proof fn older_messages_go_before(
    a: AppView,
    id: Seq<char>,
    page: Seq<DisplayMessageView>,
    present: Set<Seq<char>>,
    other: Seq<char>,
)
    requires
        look(a.store.conversations, id) is Some,
        other != id,
    ensures
        ({
            let b = page_loaded(a, id, page, present);
            let c = look(a.store.conversations, id)->0;
            let d = look(b.store.conversations, id);
            let n = page.len() as int;
            &&& d is Some && d->0.messages.len() == n + c.messages.len()
            &&& all_as_kept(d->0.messages.take(n), page)
            &&& d->0.messages.skip(n) == c.messages
            &&& d->0.is_group == c.is_group && d->0.unread == c.unread && d->0.name == c.name
            &&& look(b.store.conversations, other) == look(a.store.conversations, other)
            &&& look(a.store.last_read_index, id) is Some && look(a.store.last_read_index, id)->0 + n
                <= usize::MAX ==> look(b.store.last_read_index, id) == Some(
                (look(a.store.last_read_index, id)->0 + n) as usize,
            )
            &&& look(b.store.last_read_index, other) == look(a.store.last_read_index, other)
            &&& a.active_conversation == Some(id) && a.scroll.focused_index is Some
                && a.scroll.focused_index->0 + n <= usize::MAX ==> b.scroll.focused_index == Some(
                (a.scroll.focused_index->0 + n) as usize,
            )
            &&& a.active_conversation != Some(id) ==> b.scroll.focused_index
                == a.scroll.focused_index
            &&& b.store.has_more_messages.contains(id) <==> a.store.has_more_messages.contains(id)
                && n >= 100
        }),
{
    let b = page_loaded(a, id, page, present);
    let c = look(a.store.conversations, id)->0;
    let front = messages_loaded(page, present);
    let d = ConversationView { messages: front + c.messages, ..c };
    let n = page.len() as int;
    look_after_put(a.store.conversations, id, d, id);
    look_after_put(a.store.conversations, id, d, other);
    loaded_as_kept(page, present);
    assert((front + c.messages).take(n) =~= front);
    assert((front + c.messages).skip(n) =~= c.messages);
    if look(a.store.last_read_index, id) is Some {
        let i = crate::startup::index_shifted(look(a.store.last_read_index, id)->0, page.len());
        look_after_put(a.store.last_read_index, id, i, id);
        look_after_put(a.store.last_read_index, id, i, other);
    }
}

// ---------------------------------------------------------------------------
// In time
// ---------------------------------------------------------------------------

/// A message's time is up: it disappears, its time runs, and has run out.
pub open spec fn is_up(m: DisplayMessageView, now_ms: i64) -> bool {
    m.expires_in_seconds > 0 && m.expiration_start_ms > 0 && now_ms - m.expiration_start_ms > 1000
        * m.expires_in_seconds
}

/// Messages whose time is up are gone from each conversation, and no others are.
pub proof fn expired_messages_go(
    a: AppView,
    now_ms: i64,
    db_deleted: usize,
    id: Seq<char>,
    m: DisplayMessageView,
)
    requires
        a.expiring_msg_count > 0,
        look(a.store.conversations, id) is Some,
    ensures
        ({
            let b = expiry_swept(a, now_ms, db_deleted).0;
            let c = look(a.store.conversations, id)->0;
            let d = look(b.store.conversations, id);
            &&& d is Some
            &&& d->0.messages.contains(m) <==> c.messages.contains(m) && !is_up(m, now_ms)
            &&& d->0.is_group == c.is_group && d->0.name == c.name && d->0.unread == c.unread
            &&& b.store.conversation_order == a.store.conversation_order
        }),
{
    let convs = a.store.conversations;
    let t = swept(convs, now_ms);
    place_finds(convs, id);
    let p = place(convs, id);
    assert forall|j: int| 0 <= j < convs.len() implies (#[trigger] t[j]).0 == convs[j].0 by {}
    assert forall|j: int| 0 <= j < p implies (#[trigger] t[j]).0 != id by {
        assert(convs[j].0 != id);
    }
    place_is(t, id, p);
    filter_has(convs[p].1.messages, |m: DisplayMessageView| !expired(m, now_ms), m);
}

/// What was copied is cleared from the clipboard when its time is over, and not before;
/// never where it has none.
pub proof fn copied_texts_are_cleared(a: AppView, at_ms: u64, clock_ms: u64)
    requires
        clock_ms >= at_ms,
    ensures
        ({
            let b = copied(a, at_ms);
            let c = clipboard_checked(b, clock_ms);
            let s = a.clipboard_clear_seconds;
            &&& s > 0 && clock_ms - at_ms >= 1000 * s ==> c.effects == a.effects.push(
                EffectView::ClearClipboard,
            ) && c.clipboard_set_at is None
            &&& s > 0 && clock_ms - at_ms < 1000 * s ==> c == b && b.effects == a.effects
            &&& s == 0 && a.clipboard_set_at is None ==> c == b && b.effects == a.effects
        }),
{
}

/// The file that a paste made.
pub open spec fn file_of(e: (Seq<char>, (Seq<char>, u64))) -> Seq<char> {
    let (_, file) = e;
    file.0
}

/// When a file that a paste made is to be removed.
pub open spec fn due_of(e: (Seq<char>, (Seq<char>, u64))) -> u64 {
    let (_, file) = e;
    file.1
}

proof fn removals_are(s: Seq<(Seq<char>, (Seq<char>, u64))>, clock_ms: u64, n: int, path: Seq<char>)
    requires
        n <= s.len(),
    ensures
        removals(s, clock_ms, n).contains(EffectView::RemoveFile(path)) <==> exists|j: int|
            0 <= j < n && file_of(#[trigger] s[j]) == path && due_of(s[j]) <= clock_ms,
    decreases n,
{
    if n > 0 {
        removals_are(s, clock_ms, n - 1, path);
        let before = removals(s, clock_ms, n - 1);
        let e = EffectView::RemoveFile(path);
        let (_, file) = s[n - 1];
        let (p, at) = file;
        let after = removals(s, clock_ms, n);
        if clock_ms >= at {
            assert(after == before.push(EffectView::RemoveFile(p)));
            if before.contains(e) {
                let k = choose|k: int| 0 <= k < before.len() && before[k] == e;
                assert(after[k] == e);
            }
            if p == path {
                assert(after[before.len() as int] == e);
                assert(file_of(s[n - 1]) == path);
            }
            if after.contains(e) {
                let k = choose|k: int| 0 <= k < after.len() && after[k] == e;
                if k < before.len() {
                    assert(before[k] == e);
                } else {
                    assert(file_of(s[n - 1]) == path);
                }
            }
        }
    }
}

/// Files made for pasting are removed when they are due, and are then not kept in mind;
/// others stay.
pub proof fn pasted_files_are_removed(
    a: AppView,
    clock_ms: u64,
    e: (Seq<char>, (Seq<char>, u64)),
)
    requires
        a.pending.paste_cleanups.contains(e),
    ensures
        ({
            let b = pastes_cleaned(a, clock_ms);
            &&& due_of(e) <= clock_ms ==> b.effects.contains(EffectView::RemoveFile(file_of(e)))
                && !b.pending.paste_cleanups.contains(e)
            &&& due_of(e) > clock_ms ==> b.pending.paste_cleanups.contains(e)
        }),
{
    let s = a.pending.paste_cleanups;
    filter_has(s, |e: (Seq<char>, (Seq<char>, u64))| !paste_due(e, clock_ms), e);
    let (_, file) = e;
    let (path, due) = file;
    removals_are(s, clock_ms, s.len() as int, path);
    let gone = removals(s, clock_ms, s.len() as int);
    if due <= clock_ms {
        let j = choose|j: int| 0 <= j < s.len() && s[j] == e;
        assert(file_of(s[j]) == path);
        let k = choose|k: int| 0 <= k < gone.len() && gone[k] == EffectView::RemoveFile(path);
        assert((a.effects + gone)[a.effects.len() + k] == EffectView::RemoveFile(path));
    }
}

} // verus!
