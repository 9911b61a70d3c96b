//! What holds of the client whatever the service reports.
use crate::actions::{delete_key, edit_begun, selected};
use crate::app::{AppView, Flag, Setting};
use crate::commands::{
    bell_toggled, block_asked, command_done, contacts_opened, disappearing_set, group_menu_opened,
    input_handled, input_taken, mute_toggled, muted_for, parted, paste_asked, profile_opened,
    settings_opened, unblock_asked, verify_opened,
};
use crate::conversation_store::{
    at_most_max, moved_to_front, new_conversation, text_place_finds, with_conversation,
    ConversationStoreView, ConversationView, DisplayMessageView,
};
use crate::db::{shown, DbWriteView};
use crate::directory::{
    auto_accepted, contact_taken, contacts_known, contacts_taken, group_known, group_taken,
    groups_known, groups_taken, identities_taken, names_refreshed,
};
use crate::events::{
    event_taken, message_deleted, name_learnt, pin_set, pin_told, poll_ended, poll_made, reacted,
    text_edited, timer_told, typing_told, vote_place, vote_set, voted,
};
use crate::emoji_picker::emoji_picker_opened;
use crate::export::export_asked;
use crate::file_picker::browser_opened;
use crate::input::{parsed_input, InputForm};
use crate::keys::KeyCode;
use crate::lists::contacts_filtered;
use crate::menu::{at_bottom, other_than, request_key};
use crate::messages::{
    is_request, last_text, message_write, with_preview, conversation_met, message_conv_name,
    message_conversation, message_parts, message_taken, names_learnt, notified, part_stored,
    own_placed, parts_stored, placed, poll_taken, preview_attached, seen, system_said, timer_synced,
};
use crate::navigation::{
    ensured, entered, joined, left, left_keeps, moved, named_like, receipts_queued, topped,
};
use crate::receipts::{
    all_read_up_to, cleanup_due, conversation_of, read_synced, read_up_to, receipt_anywhere,
    receipt_in, receipts_anywhere, receipts_in, receipts_replayed, receipts_taken, send_answered,
    send_confirmed, send_failed, send_forgotten, send_lost,
};
use crate::search::search_opened;
use crate::sending::{
    draft_spent, edit_sent, message_sent, new_poll, outgoing_message, poll_created, poll_message,
    reply_wire, text_submitted,
};
use crate::settings::{keybindings_opened, theme_picker_opened};
use crate::signal::{
    ContactView, GroupView, MessageStatus, PollDataView, PollVoteView, PreviewArtView,
    SignalEventView, SignalMessageView, WireQuoteView,
};
use crate::startup::{conversations_loaded, database_loaded, messages_loaded};
use crate::strmap::{
    at, distinct, holds, look, look_after_del, look_after_put, place_finds, place_is, put,
};
use crate::text::{folded, trimmed};
use vstd::prelude::*;

verus! {

// ---------------------------------------------------------------------------
// The sidebar and the conversations
// ---------------------------------------------------------------------------

/// The sidebar lists every conversation once, and nothing else.
pub open spec fn sidebar_ok(s: ConversationStoreView) -> bool {
    &&& distinct(s.conversations)
    &&& s.conversation_order.no_duplicates()
    &&& forall|id: Seq<char>|
        #[trigger] s.conversation_order.contains(id) <==> holds(s.conversations, id)
}

/// Every conversation of one store is in another, whose sidebar is right where
/// that of the first is.
pub open spec fn grown(s: ConversationStoreView, t: ConversationStoreView) -> bool {
    &&& sidebar_ok(s) ==> sidebar_ok(t)
    &&& forall|id: Seq<char>|
        #![trigger holds(t.conversations, id)]
        holds(s.conversations, id) ==> holds(t.conversations, id)
}

/// Two lists of conversations have the same keys.
spec fn same_keys(
    s: Seq<(Seq<char>, ConversationView)>,
    t: Seq<(Seq<char>, ConversationView)>,
) -> bool {
    s.len() == t.len() && forall|i: int| 0 <= i < s.len() ==> (#[trigger] t[i]).0 == s[i].0
}

proof fn keys_hold(
    s: Seq<(Seq<char>, ConversationView)>,
    t: Seq<(Seq<char>, ConversationView)>,
    id: Seq<char>,
)
    requires
        same_keys(s, t),
    ensures
        holds(s, id) == holds(t, id),
{
    place_finds(s, id);
    place_is(t, id, crate::strmap::place(s, id));
}

proof fn grown_by_keys(s: ConversationStoreView, t: ConversationStoreView)
    requires
        same_keys(s.conversations, t.conversations),
        s.conversation_order == t.conversation_order,
    ensures
        grown(s, t),
{
    assert forall|id: Seq<char>| holds(s.conversations, id) == #[trigger] holds(t.conversations, id) by {
        keys_hold(s.conversations, t.conversations, id);
    }
    if sidebar_ok(s) {
        assert forall|i: int, j: int| 0 <= i < j < t.conversations.len() implies (
        #[trigger] t.conversations[i]).0 != (#[trigger] t.conversations[j]).0 by {
            assert(s.conversations[i].0 != s.conversations[j].0);
        }
    }
}

proof fn grown_by_put(s: ConversationStoreView, t: ConversationStoreView, id: Seq<char>, c: ConversationView)
    requires
        holds(s.conversations, id),
        t.conversations == put(s.conversations, id, c),
        s.conversation_order == t.conversation_order,
    ensures
        grown(s, t),
{
    place_finds(s.conversations, id);
    grown_by_keys(s, t);
}

proof fn grown_by_ensuring(
    s: ConversationStoreView,
    id: Seq<char>,
    name: Seq<char>,
    is_group: bool,
)
    ensures
        grown(s, with_conversation(s, id, name, is_group)),
        holds(with_conversation(s, id, name, is_group).conversations, id),
{
    let t = with_conversation(s, id, name, is_group);
    place_finds(s.conversations, id);
    if !holds(s.conversations, id) {
        let c = new_conversation(id, name, is_group);
        assert(t.conversations == put(s.conversations, id, c));
        assert forall|k: Seq<char>| #[trigger] holds(t.conversations, k) == (holds(s.conversations, k) || k == id) by {
            look_after_put(s.conversations, id, c, k);
        }
        if sidebar_ok(s) {
            crate::strmap::operations_keep_distinct(s.conversations, id, c);
            let o = s.conversation_order;
            let p = t.conversation_order;
            assert forall|k: Seq<char>| #[trigger] p.contains(k) <==> holds(t.conversations, k) by {
                if p.contains(k) && k != id {
                    let i = choose|i: int| 0 <= i < p.len() && p[i] == k;
                    assert(o[i] == k);
                    assert(o.contains(k));
                }
                if o.contains(k) {
                    let i = choose|i: int| 0 <= i < o.len() && o[i] == k;
                    assert(p[i] == k);
                }
                if k == id {
                    assert(p[o.len() as int] == id);
                }
                assert(o.contains(k) <==> holds(s.conversations, k));
            }
            assert(p.no_duplicates()) by {
                assert(!o.contains(id));
                assert forall|i: int, j: int| 0 <= i < p.len() && 0 <= j < p.len() && i != j implies p[i] != p[j] by {
                    if i == o.len() {
                        assert(o.contains(o[j]));
                    } else if j == o.len() {
                        assert(o.contains(o[i]));
                    }
                }
            }
        }
    } else if t != s {
        assert(same_keys(s.conversations, t.conversations));
        grown_by_keys(s, t);
        keys_hold(s.conversations, t.conversations, id);
    }
}

proof fn grown_by_topping(a: AppView, id: Seq<char>)
    ensures
        grown(a.store, topped(a, id).store),
{
    let s = a.store.conversation_order;
    let t = moved_to_front(s, id);
    text_place_finds(s, id, 0);
    let p = crate::conversation_store::text_place(s, id, 0);
    if p < s.len() {
        assert(t[0] == id);
        assert forall|i: int| 1 <= i < t.len() implies #[trigger] t[i] == (if i - 1 < p {
            s[i - 1]
        } else {
            s[i]
        }) by {}
        assert forall|k: Seq<char>| #[trigger] t.contains(k) <==> s.contains(k) by {
            if t.contains(k) {
                let i = choose|i: int| 0 <= i < t.len() && t[i] == k;
                if i == 0 {
                    assert(s[p] == k);
                } else if i - 1 < p {
                    assert(s[i - 1] == k);
                } else {
                    assert(s[i] == k);
                }
            }
            if s.contains(k) {
                let i = choose|i: int| 0 <= i < s.len() && s[i] == k;
                if i == p {
                    assert(t[0] == k);
                } else if i < p {
                    assert(t[i + 1] == k);
                } else {
                    assert(t[i] == k);
                }
            }
        }
        if s.no_duplicates() {
            assert(t.no_duplicates());
        }
    }
}

proof fn grown_twice(s: ConversationStoreView, t: ConversationStoreView, u: ConversationStoreView)
    requires
        grown(s, t),
        grown(t, u),
    ensures
        grown(s, u),
{
    assert forall|id: Seq<char>| holds(s.conversations, id) implies #[trigger] holds(
        u.conversations,
        id,
    ) by {
        assert(holds(t.conversations, id));
    }
}

proof fn grown_not_at_all(s: ConversationStoreView, t: ConversationStoreView)
    requires
        s.conversations == t.conversations,
        s.conversation_order == t.conversation_order,
    ensures
        grown(s, t),
{
}

// ---------------------------------------------------------------------------
// Single events
// ---------------------------------------------------------------------------

proof fn grown_by_placing(a: AppView, id: Seq<char>, m: DisplayMessageView)
    ensures
        grown(a.store, placed(a, id, m).store),
{
    if holds(a.store.conversations, id) {
        let c = at(a.store.conversations, id);
        let pos = crate::conversation_store::slot(c.messages, m.timestamp_ms);
        grown_by_put(
            a.store,
            placed(a, id, m).store,
            id,
            ConversationView { messages: c.messages.insert(pos, m), ..c },
        );
    }
}

proof fn grown_by_placing_own(a: AppView, id: Seq<char>, m: DisplayMessageView)
    ensures
        grown(a.store, own_placed(a, id, m).store),
{
    grown_by_placing(a, id, m);
    if holds(a.store.conversations, id) {
        grown_not_at_all(placed(a, id, m).store, own_placed(a, id, m).store);
        grown_twice(a.store, placed(a, id, m).store, own_placed(a, id, m).store);
    } else {
        grown_not_at_all(a.store, a.store);
    }
}

proof fn grown_by_saying(a: AppView, id: Seq<char>, body: Seq<char>, ts: i64)
    ensures
        grown(a.store, system_said(a, id, body, ts).store),
{
    reveal(system_said);
    let b = ensured(a, id, a.name_of(id), a.is_group(id));
    let m = crate::messages::system_message(body, ts);
    grown_by_ensuring(a.store, id, a.name_of(id), a.is_group(id));
    grown_by_placing(b, id, m);
    grown_twice(a.store, b.store, placed(b, id, m).store);
}

proof fn grown_by_receipts_in(a: AppView, id: Seq<char>, times: Seq<i64>, status: MessageStatus)
    ensures
        grown(a.store, receipts_in(a, id, times, status).store),
    decreases times.len(),
{
    if times.len() > 0 {
        let b = receipts_in(a, id, times.drop_last(), status);
        grown_by_receipts_in(a, id, times.drop_last(), status);
        if holds(b.store.conversations, id) {
            let c = at(b.store.conversations, id);
            grown_by_put(
                b.store,
                receipt_in(b, id, times.last(), status).store,
                id,
                crate::receipts::receipted(c, times.last(), status),
            );
        }
        grown_twice(a.store, b.store, receipt_in(b, id, times.last(), status).store);
    }
}

proof fn conversation_of_is_a_place(
    s: Seq<(Seq<char>, ConversationView)>,
    ts: i64,
    i: int,
)
    requires
        0 <= i <= s.len(),
    ensures
        i <= conversation_of(s, ts, i) <= s.len(),
    decreases s.len() - i,
{
    if i < s.len() {
        conversation_of_is_a_place(s, ts, i + 1);
    }
}

proof fn grown_by_receipts_anywhere(a: AppView, times: Seq<i64>, status: MessageStatus)
    ensures
        grown(a.store, receipts_anywhere(a, times, status).store),
    decreases times.len(),
{
    if times.len() > 0 {
        let b = receipts_anywhere(a, times.drop_last(), status);
        grown_by_receipts_anywhere(a, times.drop_last(), status);
        conversation_of_is_a_place(b.store.conversations, times.last(), 0);
        grown_by_keys(b.store, receipt_anywhere(b, times.last(), status).store);
        grown_twice(a.store, b.store, receipt_anywhere(b, times.last(), status).store);
    }
}

proof fn grown_by_receipts(a: AppView, sender: Seq<char>, kind: Seq<char>, times: Seq<i64>)
    ensures
        grown(a.store, receipts_taken(a, sender, kind, times).store),
{
    reveal(receipts_taken);
    match crate::receipts::receipt_status(kind) {
        Some(status) => {
            let b = receipts_in(a, sender, times, status);
            grown_by_receipts_in(a, sender, times, status);
            grown_by_receipts_anywhere(b, times, status);
            grown_twice(a.store, b.store, receipts_anywhere(b, times, status).store);
        },
        None => {},
    }
}

proof fn grown_by_replaying(a: AppView, list: Seq<(Seq<char>, Seq<char>, Seq<i64>)>)
    ensures
        grown(a.store, receipts_replayed(a, list).store),
    decreases list.len(),
{
    if list.len() > 0 {
        let b = receipts_replayed(a, list.drop_last());
        let (sender, kind, times) = list.last();
        grown_by_replaying(a, list.drop_last());
        grown_by_receipts(b, sender, kind, times);
        grown_twice(a.store, b.store, receipts_taken(b, sender, kind, times).store);
    }
}

proof fn grown_by_sent(a: AppView, b: AppView, id: Seq<char>, ts: i64, m: DisplayMessageView)
    requires
        b.store == (match crate::receipts::sent_place(a, id, ts) {
            Some(i) => a.with_msg(id, i, m).store,
            None => a.store,
        }),
    ensures
        grown(a.store, b.store),
{
    if crate::receipts::sent_place(a, id, ts) is Some {
        let i = crate::receipts::sent_place(a, id, ts)->0;
        let c = at(a.store.conversations, id);
        grown_by_put(
            a.store,
            b.store,
            id,
            ConversationView { messages: c.messages.update(i, m), ..c },
        );
    }
}

proof fn grown_by_answer(a: AppView, rpc: Seq<char>, server_ts: i64, now: u64)
    ensures
        grown(a.store, send_answered(a, rpc, server_ts, now).store),
{
    reveal(send_answered);
    let b = cleanup_due(a, rpc, now);
    match crate::strmap::look(b.pending.sends, rpc) {
        Some((id, local_ts)) => {
            let new_ts = if server_ts != 0 {
                server_ts
            } else {
                local_ts
            };
            let f = send_forgotten(b, rpc);
            let c = send_confirmed(f, id, local_ts, new_ts);
            match crate::receipts::sent_place(f, id, local_ts) {
                Some(i) => {
                    grown_by_sent(
                        f,
                        c,
                        id,
                        local_ts,
                        DisplayMessageView {
                            timestamp_ms: new_ts,
                            status: Some(MessageStatus::Sent),
                            ..at(f.store.conversations, id).messages[i]
                        },
                    );
                },
                None => {},
            }
            let d = AppView {
                pending: crate::app::PendingStateView { receipts: Seq::empty(), ..c.pending },
                ..c
            };
            grown_by_replaying(d, c.pending.receipts);
            grown_twice(a.store, d.store, receipts_replayed(d, c.pending.receipts).store);
        },
        None => {},
    }
}

proof fn grown_by_failure(a: AppView, rpc: Seq<char>, now: u64)
    ensures
        grown(a.store, send_failed(a, rpc, now).store),
{
    reveal(send_failed);
    let b = cleanup_due(a, rpc, now);
    match crate::strmap::look(b.pending.sends, rpc) {
        Some((id, local_ts)) => {
            let f = send_forgotten(b, rpc);
            match crate::receipts::sent_place(f, id, local_ts) {
                Some(i) => {
                    grown_by_sent(
                        f,
                        send_lost(f, id, local_ts),
                        id,
                        local_ts,
                        DisplayMessageView {
                            status: Some(MessageStatus::Failed),
                            ..at(f.store.conversations, id).messages[i]
                        },
                    );
                },
                None => {},
            }
        },
        None => {},
    }
}

proof fn grown_by_reading(a: AppView, list: Seq<(Seq<char>, i64)>)
    ensures
        grown(a.store, all_read_up_to(a, list).store),
    decreases list.len(),
{
    if list.len() > 0 {
        let b = all_read_up_to(a, list.drop_last());
        let (id, ts) = list.last();
        grown_by_reading(a, list.drop_last());
        let c = read_up_to(b, id, ts);
        if holds(b.store.conversations, id) && c != b {
            place_finds(b.store.conversations, id);
            grown_by_keys(b.store, c.store);
        }
        grown_twice(a.store, b.store, c.store);
    }
}

proof fn grown_by_refreshing(a: AppView)
    ensures
        grown(a.store, names_refreshed(a).store),
{
    reveal(names_refreshed);
    grown_by_keys(a.store, names_refreshed(a).store);
}

proof fn grown_by_contacts(a: AppView, list: Seq<ContactView>)
    ensures
        grown(a.store, contacts_known(a, list).store),
    decreases list.len(),
{
    if list.len() > 0 {
        let b = contacts_known(a, list.drop_last());
        grown_by_contacts(a, list.drop_last());
        reveal(contact_taken);
        let c = contact_taken(b, list.last());
        place_finds(b.store.conversations, list.last().number);
        grown_by_keys(b.store, c.store);
        grown_twice(a.store, b.store, c.store);
    }
}

proof fn grown_by_groups(a: AppView, list: Seq<GroupView>)
    ensures
        grown(a.store, groups_known(a, list).store),
    decreases list.len(),
{
    if list.len() > 0 {
        let b = groups_known(a, list.drop_last());
        let g = list.last();
        grown_by_groups(a, list.drop_last());
        reveal(group_taken);
        let k = AppView { store: group_known(b.store, g), ..b };
        let e = ensured(k, g.id, g.name, true);
        let c = group_taken(b, g);
        grown_not_at_all(b.store, k.store);
        grown_by_ensuring(k.store, g.id, g.name, true);
        place_finds(e.store.conversations, g.id);
        grown_by_keys(e.store, c.store);
        grown_twice(b.store, k.store, e.store);
        grown_twice(b.store, e.store, c.store);
        grown_twice(a.store, b.store, c.store);
    }
}

proof fn grown_by_parts(
    a: AppView,
    id: Seq<char>,
    parts: Seq<DisplayMessageView>,
    quote: Option<WireQuoteView>,
)
    ensures
        grown(a.store, parts_stored(a, id, parts, quote).store),
    decreases parts.len(),
{
    if parts.len() > 0 {
        let b = parts_stored(a, id, parts.drop_last(), quote);
        grown_by_parts(a, id, parts.drop_last(), quote);
        let part = parts.last();
        let p = poll_taken(b, id, part.timestamp_ms);
        let m = DisplayMessageView {
            poll_data: crate::messages::waiting_poll(b, id, part.timestamp_ms),
            ..part
        };
        grown_not_at_all(b.store, p.store);
        grown_by_placing(p, id, m);
        grown_twice(b.store, p.store, placed(p, id, m).store);
        grown_twice(a.store, b.store, part_stored(b, id, part, quote).store);
    }
}

proof fn grown_by_meeting(a: AppView, m: SignalMessageView, id: Seq<char>)
    ensures
        grown(a.store, conversation_met(a, m, id).store),
{
    reveal(conversation_met);
    let t = topped(a, id);
    let n = names_learnt(t, m);
    let name = message_conv_name(n, m, id);
    let e = ensured(n, id, name, m.group_id is Some);
    let r = conversation_met(a, m, id);
    grown_by_topping(a, id);
    grown_not_at_all(t.store, n.store);
    grown_by_ensuring(n.store, id, name, m.group_id is Some);
    place_finds(e.store.conversations, id);
    grown_by_keys(e.store, r.store);
    grown_twice(a.store, t.store, n.store);
    grown_twice(a.store, n.store, e.store);
    grown_twice(a.store, e.store, r.store);
}

proof fn grown_by_details(
    a: AppView,
    m: SignalMessageView,
    id: Seq<char>,
    ts: i64,
    previews: Seq<PreviewArtView>,
)
    ensures
        grown(a.store, timer_synced(a, id, m.expires_in_seconds).store),
        grown(a.store, preview_attached(a, id, ts, previews).store),
        grown(a.store, seen(a, m, id).store),
        grown(a.store, notified(a, m, id).store),
{
    reveal(timer_synced);
    reveal(preview_attached);
    reveal(seen);
    reveal(notified);
    place_finds(a.store.conversations, id);
    grown_by_keys(a.store, timer_synced(a, id, m.expires_in_seconds).store);
    grown_by_keys(a.store, preview_attached(a, id, ts, previews).store);
    grown_by_keys(a.store, seen(a, m, id).store);
    grown_by_keys(a.store, notified(a, m, id).store);
}

proof fn grown_by_message(a: AppView, m: SignalMessageView, now_ms: i64)
    ensures
        grown(a.store, message_taken(a, m, now_ms).store),
{
    reveal(message_taken);
    match message_conversation(m) {
        Some(id) => {
            let met = conversation_met(a, m, id);
            let b = timer_synced(met, id, m.expires_in_seconds);
            let parts = message_parts(b, m, now_ms);
            let c = parts_stored(b, id, parts, m.quote);
            let d = preview_attached(c, id, m.timestamp_ms, m.previews);
            grown_by_meeting(a, m, id);
            grown_by_details(met, m, id, m.timestamp_ms, m.previews);
            grown_by_parts(b, id, parts, m.quote);
            grown_by_details(c, m, id, m.timestamp_ms, m.previews);
            grown_by_details(d, m, id, m.timestamp_ms, m.previews);
            grown_twice(a.store, met.store, b.store);
            grown_twice(a.store, b.store, c.store);
            grown_twice(a.store, c.store, d.store);
            grown_twice(a.store, d.store, message_taken(a, m, now_ms).store);
        },
        None => {},
    }
}

proof fn grown_by_poll(a: AppView, id: Seq<char>, ts: i64, poll: PollDataView)
    ensures
        grown(a.store, poll_made(a, id, ts, poll).store),
{
    reveal(poll_made);
    place_finds(a.store.conversations, id);
    grown_by_keys(a.store, poll_made(a, id, ts, poll).store);
}

proof fn grown_by_changes(
    a: AppView,
    id: Seq<char>,
    ts: i64,
    body: Seq<char>,
    pinned: bool,
    v: PollVoteView,
)
    ensures
        grown(a.store, text_edited(a, id, ts, body).store),
        grown(a.store, message_deleted(a, id, ts).store),
        grown(a.store, pin_set(a, id, ts, pinned).store),
        grown(a.store, voted(a, id, ts, v).store),
        grown(a.store, poll_ended(a, id, ts).store),
{
    reveal(text_edited);
    reveal(message_deleted);
    reveal(pin_set);
    reveal(voted);
    reveal(poll_ended);
    place_finds(a.store.conversations, id);
    grown_by_keys(a.store, text_edited(a, id, ts, body).store);
    grown_by_keys(a.store, message_deleted(a, id, ts).store);
    grown_by_keys(a.store, pin_set(a, id, ts, pinned).store);
    grown_by_keys(a.store, voted(a, id, ts, v).store);
    grown_by_keys(a.store, poll_ended(a, id, ts).store);
}

proof fn grown_by_reaction(
    a: AppView,
    id: Seq<char>,
    emoji: Seq<char>,
    sender: Seq<char>,
    author: Seq<char>,
    ts: i64,
    remove: bool,
)
    ensures
        grown(a.store, reacted(a, id, emoji, sender, author, ts, remove).store),
{
    reveal(reacted);
    place_finds(a.store.conversations, id);
    grown_by_keys(a.store, reacted(a, id, emoji, sender, author, ts, remove).store);
}

proof fn grown_by_pin(
    a: AppView,
    id: Seq<char>,
    sender: Seq<char>,
    ts: i64,
    pinned: bool,
    now_ms: i64,
    v: PollVoteView,
)
    ensures
        grown(a.store, pin_told(a, id, sender, ts, pinned, now_ms).store),
{
    reveal(pin_told);
    let b = pin_set(a, id, ts, pinned);
    let name = if sender == b.account {
        "you"@
    } else {
        b.name_of(sender)
    };
    let text = name + " "@ + (if pinned {
        "pinned"@
    } else {
        "unpinned"@
    }) + " a message"@;
    grown_by_changes(a, id, ts, Seq::empty(), pinned, v);
    grown_by_saying(b, id, text, now_ms);
    grown_twice(a.store, b.store, system_said(b, id, text, now_ms).store);
}

proof fn grown_by_timer(a: AppView, id: Seq<char>, seconds: i64, body: Seq<char>, ts: i64)
    ensures
        grown(a.store, timer_told(a, id, seconds, body, ts).store),
{
    reveal(timer_told);
    let b = ensured(a, id, a.name_of(id), a.is_group(id));
    let conv = ConversationView { expiration_timer: seconds, ..at(b.store.conversations, id) };
    let c = b.with_conv(id, conv).write(
        shown(
            DbWriteView::UpdateExpirationTimer { conv_id: id, seconds },
            "update_expiration_timer"@,
        ),
    );
    grown_by_ensuring(a.store, id, a.name_of(id), a.is_group(id));
    grown_by_put(b.store, c.store, id, conv);
    grown_by_saying(c, id, body, ts);
    grown_twice(a.store, b.store, c.store);
    grown_twice(a.store, c.store, system_said(c, id, body, ts).store);
}

proof fn grown_by_contact_list(a: AppView, list: Seq<ContactView>)
    ensures
        grown(a.store, contacts_taken(a, list).store),
{
    reveal(contacts_taken);
    let b = AppView {
        startup_status: Seq::empty(),
        ..a.lowered(Flag::Loading)
    };
    let c = contacts_known(b, list);
    let d = auto_accepted(c);
    grown_by_contacts(b, list);
    assert(grown(c.store, d.store)) by {
        reveal(auto_accepted);
        grown_by_keys(c.store, d.store);
    }
    grown_by_refreshing(d);
    grown_twice(a.store, c.store, d.store);
    grown_twice(a.store, d.store, names_refreshed(d).store);
}

proof fn grown_by_group_list(a: AppView, list: Seq<GroupView>)
    ensures
        grown(a.store, groups_taken(a, list).store),
{
    reveal(groups_taken);
    let b = groups_known(a, list);
    grown_by_groups(a, list);
    grown_by_refreshing(b);
    grown_twice(a.store, b.store, names_refreshed(b).store);
}

proof fn learning_leaves_conversations(a: AppView, number: Seq<char>, name: Option<Seq<char>>)
    ensures
        grown(a.store, name_learnt(a, number, name).store),
{
    reveal(name_learnt);
}

/// Whatever the service reports, no conversation goes away, and a sidebar that
/// lists every conversation once still does so.
pub proof fn events_keep_sidebar(a: AppView, e: SignalEventView, now_ms: i64, clock_ms: u64)
    ensures
        sidebar_ok(a.store) ==> sidebar_ok(event_taken(a, e, now_ms, clock_ms).store),
        forall|id: Seq<char>|
            holds(a.store.conversations, id) ==> #[trigger] holds(
                event_taken(a, e, now_ms, clock_ms).store.conversations,
                id,
            ),
{
    let r = event_taken(a, e, now_ms, clock_ms);
    assert(grown(a.store, r.store)) by {
        match e {
            SignalEventView::MessageReceived(m) => grown_by_message(a, m, now_ms),
            SignalEventView::ReceiptReceived { sender, receipt_type, timestamps } => {
                grown_by_receipts(a, sender, receipt_type, timestamps)
            },
            SignalEventView::SendTimestamp { rpc_id, server_ts } => {
                grown_by_answer(a, rpc_id, server_ts, clock_ms)
            },
            SignalEventView::SendFailed { rpc_id } => {
                grown_by_failure(a.say("send failed"@), rpc_id, clock_ms)
            },
            SignalEventView::TypingIndicator { sender, sender_name, .. } => {
                reveal(typing_told);
                learning_leaves_conversations(a, sender, sender_name);
            },
            SignalEventView::ReactionReceived {
                conv_id,
                emoji,
                sender,
                sender_name,
                target_author,
                target_timestamp,
                is_remove,
            } => {
                let b = name_learnt(a, sender, sender_name);
                learning_leaves_conversations(a, sender, sender_name);
                grown_by_reaction(
                    b,
                    conv_id,
                    emoji,
                    sender,
                    target_author,
                    target_timestamp,
                    is_remove,
                );
                grown_twice(a.store, b.store, r.store);
            },
            SignalEventView::EditReceived { conv_id, target_timestamp, new_body } => {
                grown_by_changes(a, conv_id, target_timestamp, new_body, true, arbitrary())
            },
            SignalEventView::RemoteDeleteReceived { conv_id, target_timestamp } => {
                grown_by_changes(a, conv_id, target_timestamp, Seq::empty(), true, arbitrary())
            },
            SignalEventView::PinReceived { conv_id, sender, sender_name, target_timestamp } => {
                let b = name_learnt(a, sender, sender_name);
                learning_leaves_conversations(a, sender, sender_name);
                grown_by_pin(b, conv_id, sender, target_timestamp, true, now_ms, arbitrary());
                grown_twice(a.store, b.store, r.store);
            },
            SignalEventView::UnpinReceived { conv_id, sender, sender_name, target_timestamp } => {
                let b = name_learnt(a, sender, sender_name);
                learning_leaves_conversations(a, sender, sender_name);
                grown_by_pin(b, conv_id, sender, target_timestamp, false, now_ms, arbitrary());
                grown_twice(a.store, b.store, r.store);
            },
            SignalEventView::PollCreated { conv_id, timestamp, poll_data } => {
                grown_by_poll(a, conv_id, timestamp, poll_data)
            },
            SignalEventView::PollVoteReceived {
                conv_id,
                target_timestamp,
                voter,
                voter_name,
                option_indexes,
                vote_count,
            } => {
                let b = name_learnt(a, voter, voter_name);
                let v = PollVoteView { voter, voter_name, option_indexes, vote_count };
                learning_leaves_conversations(a, voter, voter_name);
                grown_by_changes(b, conv_id, target_timestamp, Seq::empty(), true, v);
                grown_twice(a.store, b.store, r.store);
            },
            SignalEventView::PollTerminated { conv_id, target_timestamp } => {
                grown_by_changes(a, conv_id, target_timestamp, Seq::empty(), true, arbitrary())
            },
            SignalEventView::SystemMessage { conv_id, body, timestamp_ms } => {
                grown_by_saying(a, conv_id, body, timestamp_ms)
            },
            SignalEventView::ExpirationTimerChanged { conv_id, seconds, body, timestamp_ms } => {
                grown_by_timer(a, conv_id, seconds, body, timestamp_ms)
            },
            SignalEventView::ReadSyncReceived { read_messages } => {
                reveal(read_synced);
                grown_by_reading(
                    a,
                    crate::receipts::read_times(a.store.conversations, read_messages),
                );
            },
            SignalEventView::ContactList(contacts) => grown_by_contact_list(a, contacts),
            SignalEventView::GroupList(groups) => grown_by_group_list(a, groups),
            SignalEventView::IdentityList(identities) => {
                reveal(identities_taken);
            },
            SignalEventView::Error(err) => {},
        }
    }
}

// ---------------------------------------------------------------------------
// What the user does
// ---------------------------------------------------------------------------

proof fn grown_by_entering(a: AppView, id: Seq<char>)
    ensures
        grown(a.store, entered(a, id).store),
{
    reveal(entered);
    place_finds(a.store.conversations, id);
    grown_by_keys(a.store, entered(a, id).store);
}

proof fn grown_by_joining(a: AppView, target: Seq<char>)
    ensures
        grown(a.store, joined(a, target).store),
{
    reveal(joined);
    let b = left(a);
    left_keeps(a);
    let i = named_like(b.store.conversations, folded(target), 0);
    grown_by_entering(b, target);
    grown_by_entering(b, b.store.conversations[i].0);
    grown_by_ensuring(b.store, target, target, false);
    grown_not_at_all(a.store, b.store);
    grown_twice(a.store, b.store, joined(a, target).store);
}

proof fn grown_by_sending(a: AppView, text: Seq<char>, now_ms: i64)
    ensures
        grown(a.store, text_submitted(a, text, now_ms).0.store),
{
    reveal(text_submitted);
    match a.editing_message {
        Some((ts, id)) => {
            reveal(edit_sent);
            place_finds(a.store.conversations, id);
            grown_by_keys(a.store, text_submitted(a, text, now_ms).0.store);
        },
        None => {
            if a.active_conversation is Some {
                reveal(message_sent);
                let id = a.active_conversation->0;
                let m = outgoing_message(a, id, text, now_ms);
                let d = draft_spent(a);
                let b = own_placed(d, id, m);
                let c = at_bottom(b.write(shown(message_write(id, m, reply_wire(a)), "insert_message"@)));
                grown_by_placing_own(d, id, m);
                grown_by_topping(c, id);
                grown_twice(a.store, b.store, topped(c, id).store);
            }
        },
    }
}

proof fn grown_by_creating_poll(
    a: AppView,
    question: Seq<char>,
    options: Seq<Seq<char>>,
    allow_multiple: bool,
    now_ms: i64,
)
    ensures
        grown(a.store, poll_created(a, question, options, allow_multiple, now_ms).0.store),
{
    reveal(poll_created);
    if a.active_conversation is Some {
        let poll = new_poll(question, options, allow_multiple);
        grown_by_placing_own(
            a,
            a.active_conversation->0,
            poll_message(a.account, poll, now_ms),
        );
    }
}

proof fn grown_by_setting_timer(a: AppView, text: Seq<char>)
    ensures
        grown(a.store, disappearing_set(a, text).0.store),
{
    reveal(disappearing_set);
    if a.active_conversation is Some {
        place_finds(a.store.conversations, a.active_conversation->0);
    }
    grown_by_keys(a.store, disappearing_set(a, text).0.store);
}

/// Whatever is submitted, no conversation goes away, and a sidebar that lists
/// every conversation once still does so.
pub proof fn input_keeps_sidebar(a: AppView, now_ms: i64)
    ensures
        sidebar_ok(a.store) ==> sidebar_ok(input_handled(a, now_ms).0.store),
        forall|id: Seq<char>|
            holds(a.store.conversations, id) ==> #[trigger] holds(
                input_handled(a, now_ms).0.store.conversations,
                id,
            ),
{
    let r = input_handled(a, now_ms).0;
    assert(grown(a.store, r.store)) by {
        reveal(input_handled);
        reveal(input_taken);
        let b = input_taken(a);
        match parsed_input(a.input.text()) {
            InputForm::SendText(text) => grown_by_sending(b, text, now_ms),
            InputForm::Join(target) => grown_by_joining(b, target),
            InputForm::Part => {
                reveal(parted);
            },
            InputForm::ToggleBell(target) => {
                reveal(bell_toggled);
            },
            InputForm::ToggleMute => {
                reveal(mute_toggled);
            },
            InputForm::MuteFor(text) => {
                reveal(muted_for);
            },
            InputForm::Block => {
                reveal(block_asked);
            },
            InputForm::Unblock => {
                reveal(unblock_asked);
            },
            InputForm::Settings => {
                reveal(settings_opened);
            },
            InputForm::Contacts => {
                reveal(contacts_opened);
                reveal(contacts_filtered);
            },
            InputForm::Attach => {
                reveal(browser_opened);
            },
            InputForm::Search(query) => {
                reveal(search_opened);
            },
            InputForm::SetDisappearing(text) => grown_by_setting_timer(b, text),
            InputForm::Group => {
                reveal(group_menu_opened);
            },
            InputForm::Theme => {
                reveal(theme_picker_opened);
            },
            InputForm::Poll { question, options, allow_multiple } => {
                grown_by_creating_poll(b, question, options, allow_multiple, now_ms)
            },
            InputForm::Verify => {
                reveal(verify_opened);
            },
            InputForm::Profile => {
                reveal(profile_opened);
            },
            InputForm::Keybindings => {
                reveal(keybindings_opened);
            },
            InputForm::Emoji(query) => {
                reveal(emoji_picker_opened);
            },
            InputForm::Paste => {
                reveal(paste_asked);
            },
            InputForm::Export(limit) => {
                reveal(export_asked);
            },
            _ => {},
        }
    }
}

proof fn filtering_keeps_distinct(s: Seq<Seq<char>>, f: spec_fn(Seq<char>) -> bool)
    requires
        s.no_duplicates(),
    ensures
        s.filter(f).no_duplicates(),
    decreases s.len(),
{
    reveal(Seq::filter);
    if s.len() > 0 {
        let r = s.drop_last();
        filtering_keeps_distinct(r, f);
        if f(s.last()) && r.filter(f).contains(s.last()) {
            r.lemma_filter_contains_rev(f, s.last());
        }
        assert forall|i: int, j: int|
            0 <= i < s.filter(f).len() && 0 <= j < s.filter(f).len() && i != j implies s.filter(f)[i]
            != s.filter(f)[j] by {
            if f(s.last()) {
                let n = r.filter(f).len() as int;
                if i == n {
                    assert(r.filter(f).contains(r.filter(f)[j]));
                } else if j == n {
                    assert(r.filter(f).contains(r.filter(f)[i]));
                }
            }
        }
    }
}

/// Refusing a conversation takes it and nothing else away, and a sidebar that
/// lists every conversation once still does so.
pub proof fn refusing_takes_one_away(a: AppView, id: Seq<char>)
    requires
        a.active_conversation == Some(id),
        sidebar_ok(a.store),
    ensures
        sidebar_ok(request_key(a, KeyCode::Char('d')).0.store),
        forall|k: Seq<char>|
            #[trigger] look(request_key(a, KeyCode::Char('d')).0.store.conversations, k) == if k == id {
                None
            } else {
                look(a.store.conversations, k)
            },
{
    reveal(request_key);
    let s = a.store;
    let t = request_key(a, KeyCode::Char('d')).0.store;
    crate::strmap::operations_keep_distinct(s.conversations, id, at(s.conversations, id));
    assert forall|k: Seq<char>| #[trigger] look(t.conversations, k) == if k == id {
        None
    } else {
        look(s.conversations, k)
    } by {
        look_after_del(s.conversations, id, k);
    }
    let o = s.conversation_order;
    let f = other_than(id);
    filtering_keeps_distinct(o, f);
    assert forall|k: Seq<char>| #[trigger] o.filter(f).contains(k) <==> holds(t.conversations, k) by {
        assert(look(t.conversations, k) is Some <==> holds(t.conversations, k));
        assert(o.contains(k) <==> holds(s.conversations, k));
        if o.filter(f).contains(k) {
            let i = choose|i: int| 0 <= i < o.filter(f).len() && o.filter(f)[i] == k;
            o.lemma_filter_pred(f, i);
            o.lemma_filter_contains_rev(f, k);
        }
        if o.contains(k) && k != id {
            let i = choose|i: int| 0 <= i < o.len() && o[i] == k;
            o.lemma_filter_contains(f, i);
        }
    }
}

proof fn loading_adds(
    s: ConversationStoreView,
    convs: Seq<ConversationView>,
    present: Set<Seq<char>>,
    n: int,
)
    requires
        0 <= n <= convs.len(),
        distinct(s.conversations),
    ensures
        distinct(conversations_loaded(s, convs, present, n).conversations),
        forall|k: Seq<char>|
            #[trigger] holds(conversations_loaded(s, convs, present, n).conversations, k) <==> holds(
                s.conversations,
                k,
            ) || exists|i: int| 0 <= i < n && (#[trigger] convs[i]).id == k,
    decreases n,
{
    if n > 0 {
        loading_adds(s, convs, present, n - 1);
        let b = conversations_loaded(s, convs, present, n - 1);
        let c = convs[n - 1];
        let v = ConversationView { messages: messages_loaded(c.messages, present), ..c };
        let r = conversations_loaded(s, convs, present, n);
        crate::strmap::operations_keep_distinct(b.conversations, c.id, v);
        assert forall|k: Seq<char>|
            #[trigger] holds(r.conversations, k) <==> holds(s.conversations, k) || exists|i: int|
                0 <= i < n && (#[trigger] convs[i]).id == k by {
            look_after_put(b.conversations, c.id, v, k);
            assert(holds(b.conversations, k) <==> holds(s.conversations, k) || exists|i: int|
                0 <= i < n - 1 && (#[trigger] convs[i]).id == k);
        }
    }
}

/// What the database gives at the start makes a sidebar that lists every
/// conversation once, where its order does so.
pub proof fn loading_makes_sidebar(
    a: AppView,
    convs: Seq<ConversationView>,
    order: Seq<Seq<char>>,
    muted: Set<Seq<char>>,
    blocked: Set<Seq<char>>,
    present: Set<Seq<char>>,
)
    requires
        a.store.conversations.len() == 0,
        order.no_duplicates(),
        forall|k: Seq<char>|
            #[trigger] order.contains(k) <==> exists|i: int|
                0 <= i < convs.len() && (#[trigger] convs[i]).id == k,
    ensures
        sidebar_ok(database_loaded(a, convs, order, muted, blocked, present).store),
{
    let s = conversations_loaded(a.store, convs, present, convs.len() as int);
    let t = database_loaded(a, convs, order, muted, blocked, present).store;
    loading_adds(a.store, convs, present, convs.len() as int);
    assert(same_keys(s.conversations, t.conversations));
    assert forall|i: int, j: int| 0 <= i < j < t.conversations.len() implies (
    #[trigger] t.conversations[i]).0 != (#[trigger] t.conversations[j]).0 by {
        assert(s.conversations[i].0 != s.conversations[j].0);
    }
    assert forall|k: Seq<char>| #[trigger] order.contains(k) <==> holds(t.conversations, k) by {
        keys_hold(s.conversations, t.conversations, k);
        place_finds(a.store.conversations, k);
    }
}

// ---------------------------------------------------------------------------
// What a message does to the alarm and to what is unread
// ---------------------------------------------------------------------------

/// How many messages of a conversation are unread.
pub open spec fn unread_of(s: ConversationStoreView, id: Seq<char>) -> usize {
    match look(s.conversations, id) {
        Some(c) => c.unread,
        None => 0,
    }
}

/// A conversation is there and was not accepted.
pub open spec fn waits(s: ConversationStoreView, id: Seq<char>) -> bool {
    match look(s.conversations, id) {
        Some(c) => !c.accepted,
        None => false,
    }
}

/// Two states differ in nothing that decides on the alarm but the conversation
/// itself, and as many messages are unread.
spec fn as_quiet(a: AppView, b: AppView) -> bool {
    &&& b.flags == a.flags
    &&& b.effects == a.effects
    &&& b.muted == a.muted
    &&& b.blocked == a.blocked
    &&& b.settings == a.settings
    &&& b.active_conversation == a.active_conversation
    &&& forall|k: Seq<char>| #[trigger] unread_of(b.store, k) == unread_of(a.store, k)
}

/// The conversations of two states are the same, but for one that may have
/// changed in what does not matter for the alarm.
proof fn quiet_by_put(a: AppView, b: AppView, id: Seq<char>, c: ConversationView)
    requires
        b.flags == a.flags,
        b.effects == a.effects,
        b.muted == a.muted,
        b.blocked == a.blocked,
        b.settings == a.settings,
        b.active_conversation == a.active_conversation,
        b.store.conversations == put(a.store.conversations, id, c),
        c.unread == unread_of(a.store, id),
    ensures
        as_quiet(a, b),
        waits(b.store, id) == !c.accepted,
{
    assert forall|k: Seq<char>| #[trigger] unread_of(b.store, k) == unread_of(a.store, k) by {
        look_after_put(a.store.conversations, id, c, k);
    }
    look_after_put(a.store.conversations, id, c, id);
}

proof fn quiet_meeting(a: AppView, m: SignalMessageView, id: Seq<char>)
    ensures
        as_quiet(a, conversation_met(a, m, id)),
        waits(a.store, id) || is_request(names_learnt(topped(a, id), m), m, id) ==> waits(
            conversation_met(a, m, id).store,
            id,
        ),
{
    reveal(conversation_met);
    let n = names_learnt(topped(a, id), m);
    let name = message_conv_name(n, m, id);
    let e = ensured(n, id, name, m.group_id is Some);
    let c = at(e.store.conversations, id);
    place_finds(a.store.conversations, id);
    if !holds(a.store.conversations, id) {
        quiet_by_put(a, e, id, new_conversation(id, name, m.group_id is Some));
        look_after_put(
            a.store.conversations,
            id,
            new_conversation(id, name, m.group_id is Some),
            id,
        );
    } else if e.store.conversations != a.store.conversations {
        let o = at(a.store.conversations, id);
        quiet_by_put(a, e, id, ConversationView { name, ..o });
        look_after_put(a.store.conversations, id, ConversationView { name, ..o }, id);
    }
    if is_request(n, m, id) {
        quiet_by_put(
            e,
            conversation_met(a, m, id),
            id,
            ConversationView { accepted: false, ..c },
        );
    }
}

proof fn quiet_timer(a: AppView, id: Seq<char>, seconds: i64)
    ensures
        as_quiet(a, timer_synced(a, id, seconds)),
        waits(timer_synced(a, id, seconds).store, id) == waits(a.store, id),
{
    reveal(timer_synced);
    if holds(a.store.conversations, id) && at(a.store.conversations, id).expiration_timer
        != seconds {
        quiet_by_put(
            a,
            timer_synced(a, id, seconds),
            id,
            ConversationView {
                expiration_timer: seconds,
                ..at(a.store.conversations, id)
            },
        );
    }
}

proof fn quiet_placing(a: AppView, id: Seq<char>, m: DisplayMessageView)
    ensures
        as_quiet(a, placed(a, id, m)),
        waits(placed(a, id, m).store, id) == waits(a.store, id),
{
    if holds(a.store.conversations, id) {
        let c = at(a.store.conversations, id);
        let pos = crate::conversation_store::slot(c.messages, m.timestamp_ms);
        quiet_by_put(
            a,
            placed(a, id, m),
            id,
            ConversationView { messages: c.messages.insert(pos, m), ..c },
        );
    }
}

proof fn quiet_parts(
    a: AppView,
    id: Seq<char>,
    parts: Seq<DisplayMessageView>,
    quote: Option<WireQuoteView>,
)
    ensures
        as_quiet(a, parts_stored(a, id, parts, quote)),
        waits(parts_stored(a, id, parts, quote).store, id) == waits(a.store, id),
    decreases parts.len(),
{
    if parts.len() > 0 {
        let b = parts_stored(a, id, parts.drop_last(), quote);
        quiet_parts(a, id, parts.drop_last(), quote);
        let part = parts.last();
        let p = poll_taken(b, id, part.timestamp_ms);
        let m = DisplayMessageView {
            poll_data: crate::messages::waiting_poll(b, id, part.timestamp_ms),
            ..part
        };
        assert(p.store == b.store);
        quiet_placing(p, id, m);
        let r = parts_stored(a, id, parts, quote);
        assert forall|k: Seq<char>| #[trigger] unread_of(r.store, k) == unread_of(a.store, k) by {
            assert(unread_of(placed(p, id, m).store, k) == unread_of(p.store, k));
            assert(unread_of(b.store, k) == unread_of(a.store, k));
        }
    }
}

proof fn quiet_preview(a: AppView, id: Seq<char>, ts: i64, previews: Seq<PreviewArtView>)
    ensures
        as_quiet(a, preview_attached(a, id, ts, previews)),
        waits(preview_attached(a, id, ts, previews).store, id) == waits(a.store, id),
{
    reveal(preview_attached);
    if previews.len() > 0 && holds(a.store.conversations, id) {
        let c = at(a.store.conversations, id);
        let i = last_text(c.messages, ts);
        if i >= 0 {
            quiet_by_put(
                a,
                preview_attached(a, id, ts, previews),
                id,
                ConversationView {
                    messages: c.messages.update(i, with_preview(a, c.messages[i], previews[0])),
                    ..c
                },
            );
        }
    }
}

/// What a message does before it is decided whether it is seen at once.
spec fn message_put(a: AppView, m: SignalMessageView, id: Seq<char>, now_ms: i64) -> AppView {
    let b = timer_synced(conversation_met(a, m, id), id, m.expires_in_seconds);
    preview_attached(
        parts_stored(b, id, message_parts(b, m, now_ms), m.quote),
        id,
        m.timestamp_ms,
        m.previews,
    )
}

proof fn putting_is_quiet(a: AppView, m: SignalMessageView, id: Seq<char>, now_ms: i64)
    ensures
        as_quiet(a, message_put(a, m, id, now_ms)),
        waits(a.store, id) || is_request(names_learnt(topped(a, id), m), m, id) ==> waits(
            message_put(a, m, id, now_ms).store,
            id,
        ),
{
    let t = conversation_met(a, m, id);
    let b = timer_synced(t, id, m.expires_in_seconds);
    let parts = message_parts(b, m, now_ms);
    let c = parts_stored(b, id, parts, m.quote);
    let d = preview_attached(c, id, m.timestamp_ms, m.previews);
    quiet_meeting(a, m, id);
    quiet_timer(t, id, m.expires_in_seconds);
    quiet_parts(b, id, parts, m.quote);
    quiet_preview(c, id, m.timestamp_ms, m.previews);
    assert forall|k: Seq<char>| #[trigger] unread_of(d.store, k) == unread_of(a.store, k) by {
        assert(unread_of(c.store, k) == unread_of(b.store, k));
        assert(unread_of(b.store, k) == unread_of(t.store, k));
        assert(unread_of(t.store, k) == unread_of(a.store, k));
    }
}

/// Nobody is disturbed by a message of their own, one in the conversation that
/// is looked at, one in a conversation that is muted or blocked, or one from
/// somebody who was not accepted: the bell does not ring, and nothing is asked of
/// the desktop.
pub proof fn nobody_is_disturbed(a: AppView, m: SignalMessageView, id: Seq<char>, now_ms: i64)
    requires
        message_conversation(m) == Some(id),
        m.is_outgoing || a.active_conversation == Some(id) || a.muted.contains(id)
            || a.blocked.contains(id) || waits(a.store, id) || is_request(
            names_learnt(topped(a, id), m),
            m,
            id,
        ),
    ensures
        message_taken(a, m, now_ms).flags == a.flags,
        message_taken(a, m, now_ms).effects == a.effects,
{
    reveal(message_taken);
    reveal(seen);
    reveal(notified);
    putting_is_quiet(a, m, id, now_ms);
    let d = message_put(a, m, id, now_ms);
    if holds(d.store.conversations, id) {
        let c = at(d.store.conversations, id);
        look_after_put(
            d.store.conversations,
            id,
            ConversationView { unread: at_most_max(c.unread + 1), ..c },
            id,
        );
    }
}

/// A message counts as unread exactly where it comes in and its conversation is
/// not the one that is looked at, and nowhere else.
pub proof fn unread_counts(
    a: AppView,
    m: SignalMessageView,
    id: Seq<char>,
    now_ms: i64,
    other: Seq<char>,
)
    requires
        message_conversation(m) == Some(id),
    ensures
        unread_of(message_taken(a, m, now_ms).store, other) == if other == id && !m.is_outgoing
            && a.active_conversation != Some(id) {
            at_most_max(unread_of(a.store, id) + 1)
        } else {
            unread_of(a.store, other)
        },
{
    reveal(message_taken);
    reveal(seen);
    reveal(notified);
    putting_is_quiet(a, m, id, now_ms);
    let d = message_put(a, m, id, now_ms);
    meeting_makes_it_there(a, m, id, now_ms);
    let c = at(d.store.conversations, id);
    look_after_put(
        d.store.conversations,
        id,
        ConversationView { unread: at_most_max(c.unread + 1), ..c },
        other,
    );
    assert(unread_of(d.store, other) == unread_of(a.store, other));
    assert(unread_of(d.store, id) == unread_of(a.store, id));
}

proof fn meeting_makes_it_there(a: AppView, m: SignalMessageView, id: Seq<char>, now_ms: i64)
    ensures
        holds(message_put(a, m, id, now_ms).store.conversations, id),
{
    let t = conversation_met(a, m, id);
    let b = timer_synced(t, id, m.expires_in_seconds);
    let parts = message_parts(b, m, now_ms);
    let c = parts_stored(b, id, parts, m.quote);
    assert(holds(t.store.conversations, id)) by {
        reveal(conversation_met);
        let n = names_learnt(topped(a, id), m);
        let name = message_conv_name(n, m, id);
        let e = ensured(n, id, name, m.group_id is Some);
        grown_by_ensuring(n.store, id, name, m.group_id is Some);
        look_after_put(
            e.store.conversations,
            id,
            ConversationView { accepted: false, ..at(e.store.conversations, id) },
            id,
        );
    }
    grown_by_details(t, m, id, m.timestamp_ms, m.previews);
    grown_by_parts(b, id, parts, m.quote);
    grown_by_details(c, m, id, m.timestamp_ms, m.previews);
}

// ---------------------------------------------------------------------------
// What is kept from others, and what goes with the conversation
// ---------------------------------------------------------------------------

/// Only a message of one's own is edited, and only one that is still there.
pub proof fn only_own_messages_are_edited(a: AppView)
    ensures
        edit_begun(a).editing_message != a.editing_message ==> selected(a) is Some
            && selected(a)->0.sender == "you"@ && !selected(a)->0.is_deleted
            && !selected(a)->0.is_system,
{
    reveal(edit_begun);
}

/// Only a message of one's own is deleted for others, and only when asked to.
pub proof fn only_own_messages_are_deleted(a: AppView, code: KeyCode)
    ensures
        delete_key(a, code).1 is Some ==> code == KeyCode::Char('y') && selected(a) is Some
            && selected(a)->0.sender == "you"@,
{
    reveal(delete_key);
}

/// No read receipt is queued where that is switched off, for a conversation that
/// is blocked, or for one that was not accepted.
pub proof fn receipts_only_where_wanted(a: AppView, id: Seq<char>, start: usize)
    requires
        !a.on(Setting::SendReadReceipts) || a.blocked.contains(id) || waits(a.store, id),
    ensures
        receipts_queued(a, id, start).pending.read_receipts == a.pending.read_receipts,
{
}

/// A file that was to be sent does not go along to another conversation.
pub proof fn leaving_drops_attachment(a: AppView, target: Seq<char>, forward: bool)
    ensures
        joined(a, target).pending.attachment is None,
        parted(a).pending.attachment is None,
        a.store.conversation_order.len() > 0 ==> moved(a, forward).pending.attachment is None,
{
    reveal(joined);
    reveal(parted);
    reveal(moved);
    reveal(left);
    reveal(entered);
}

proof fn sending_leaves_input(a: AppView, text: Seq<char>, now_ms: i64)
    ensures
        text_submitted(a, text, now_ms).0.input == a.input,
{
    reveal(text_submitted);
    match a.editing_message {
        Some((ts, id)) => {
            reveal(edit_sent);
        },
        None => {
            reveal(message_sent);
        },
    }
}

proof fn joining_leaves_input(a: AppView, target: Seq<char>)
    ensures
        joined(a, target).input == a.input,
{
    reveal(joined);
    reveal(left);
    reveal(entered);
}

proof fn polling_leaves_input(
    a: AppView,
    question: Seq<char>,
    options: Seq<Seq<char>>,
    allow_multiple: bool,
    now_ms: i64,
)
    ensures
        poll_created(a, question, options, allow_multiple, now_ms).0.input == a.input,
{
    reveal(poll_created);
}

proof fn input_is_left(a: AppView, f: InputForm, now_ms: i64)
    ensures
        command_done(a, f, now_ms).0.input == a.input,
{
    match f {
        InputForm::SendText(text) => sending_leaves_input(a, text, now_ms),
        InputForm::Join(target) => joining_leaves_input(a, target),
        InputForm::Part => {
            reveal(parted);
        },
        InputForm::ToggleBell(target) => {
            reveal(bell_toggled);
        },
        InputForm::ToggleMute => {
            reveal(mute_toggled);
        },
        InputForm::MuteFor(text) => {
            reveal(muted_for);
        },
        InputForm::Block => {
            reveal(block_asked);
        },
        InputForm::Unblock => {
            reveal(unblock_asked);
        },
        InputForm::Settings => {
            reveal(settings_opened);
        },
        InputForm::Contacts => {
            reveal(contacts_opened);
            reveal(contacts_filtered);
        },
        InputForm::Attach => {
            reveal(browser_opened);
        },
        InputForm::Search(query) => {
            reveal(search_opened);
        },
        InputForm::SetDisappearing(text) => {
            reveal(disappearing_set);
        },
        InputForm::Group => {
            reveal(group_menu_opened);
        },
        InputForm::Theme => {
            reveal(theme_picker_opened);
        },
        InputForm::Poll { question, options, allow_multiple } => {
            polling_leaves_input(a, question, options, allow_multiple, now_ms)
        },
        InputForm::Verify => {
            reveal(verify_opened);
        },
        InputForm::Profile => {
            reveal(profile_opened);
        },
        InputForm::Keybindings => {
            reveal(keybindings_opened);
        },
        InputForm::Emoji(query) => {
            reveal(emoji_picker_opened);
        },
        InputForm::Paste => {
            reveal(paste_asked);
        },
        InputForm::Export(limit) => {
            reveal(export_asked);
        },
        _ => {},
    }
}

/// Whatever is submitted, the input is empty afterwards, and the text without
/// the white space around it is the last entry of the history where anything is
/// left of it.
pub proof fn input_goes_into_history(a: AppView, now_ms: i64)
    ensures
        input_handled(a, now_ms).0.input.text().len() == 0,
        input_handled(a, now_ms).0.input.history == if trimmed(a.input.text()).len() > 0 {
            a.input.history.push(trimmed(a.input.text()))
        } else {
            a.input.history
        },
{
    reveal(input_handled);
    reveal(input_taken);
    input_is_left(input_taken(a), parsed_input(a.input.text()), now_ms);
}

proof fn vote_place_finds(s: Seq<PollVoteView>, voter: Seq<char>, i: int)
    requires
        0 <= i <= s.len(),
    ensures
        i <= vote_place(s, voter, i) <= s.len(),
        vote_place(s, voter, i) < s.len() ==> s[vote_place(s, voter, i)].voter == voter,
        forall|j: int| i <= j < vote_place(s, voter, i) ==> (#[trigger] s[j]).voter != voter,
    decreases s.len() - i,
{
    if i < s.len() && s[i].voter != voter {
        vote_place_finds(s, voter, i + 1);
    }
}

/// Nobody has voted twice.
pub open spec fn one_per_voter(s: Seq<PollVoteView>) -> bool {
    forall|i: int, j: int| 0 <= i < j < s.len() ==> (#[trigger] s[i]).voter != (#[trigger] s[j]).voter
}

/// A vote takes the place of an earlier one of the same voter: there is one vote
/// for each voter, and that of the voter is the new one.
pub proof fn votes_count_once(s: Seq<PollVoteView>, v: PollVoteView)
    requires
        one_per_voter(s),
    ensures
        one_per_voter(vote_set(s, v)),
        vote_set(s, v).contains(v),
{
    vote_place_finds(s, v.voter, 0);
    let p = vote_place(s, v.voter, 0);
    assert(vote_set(s, v)[p] == v);
}

} // verus!
