//! What a message that comes in adds to its conversation.
use crate::app::AppView;
use crate::conversation_store::{
    at_most_max, in_time_order, slot, slot_finds, ConversationStoreView, ConversationView,
    DisplayMessageView,
};
use crate::messages::{
    conversation_met, last_text, message_conversation, message_parts, message_taken, names_learnt,
    notified, part_stored, parts_stored, poll_taken, preview_attached, seen, timer_synced,
    waiting_poll, with_preview,
};
use crate::navigation::{ensured, topped};
use crate::properties::{unread_counts, unread_of};
use crate::signal::{PreviewArtView, SignalMessageView, WireQuoteView};
use crate::strmap::{at, holds, look, look_after_put, place_finds};
use vstd::prelude::*;

verus! {

/// The messages of a conversation; none where there is no such conversation.
pub open spec fn messages_of(s: ConversationStoreView, id: Seq<char>) -> Seq<DisplayMessageView> {
    match look(s.conversations, id) {
        Some(c) => c.messages,
        None => Seq::empty(),
    }
}

/// A message without its link preview.
pub open spec fn unlinked(m: DisplayMessageView) -> DisplayMessageView {
    DisplayMessageView {
        preview: None,
        preview_image_lines: None,
        preview_image_path: None,
        ..m
    }
}

/// A message without its link preview and its poll.
pub open spec fn bare(m: DisplayMessageView) -> DisplayMessageView {
    DisplayMessageView { poll_data: None, ..unlinked(m) }
}

/// The state in which a message is taken apart: its conversation is there, and the
/// names that it tells are known.
pub open spec fn ready_for(a: AppView, m: SignalMessageView, id: Seq<char>) -> AppView {
    timer_synced(conversation_met(a, m, id), id, m.expires_in_seconds)
}

/// Messages `t` are messages `s` with `parts` put in one behind the other, behind
/// all that are no later than `ts`. Link previews do not count, nor do the polls
/// of what was put in.
pub open spec fn put_among(
    s: Seq<DisplayMessageView>,
    parts: Seq<DisplayMessageView>,
    ts: i64,
    t: Seq<DisplayMessageView>,
) -> bool {
    let p = slot(s, ts);
    let n = parts.len();
    &&& t.len() == s.len() + n
    &&& forall|j: int| 0 <= j < p ==> unlinked(#[trigger] t[j]) == unlinked(s[j])
    &&& forall|k: int| 0 <= k < n ==> bare(t[p + k]) == bare(#[trigger] parts[k])
    &&& forall|j: int| p <= j < s.len() ==> unlinked(t[j + n]) == unlinked(#[trigger] s[j])
}

/// A place behind all messages that are no later, and before all that are, is the
/// slot.
proof fn slot_is(t: Seq<DisplayMessageView>, ts: i64, r: int)
    requires
        0 <= r <= t.len(),
        r > 0 ==> t[r - 1].timestamp_ms <= ts,
        forall|j: int| r <= j < t.len() ==> (#[trigger] t[j]).timestamp_ms > ts,
    ensures
        slot(t, ts) == r,
{
    slot_finds(t, ts);
    let p = slot(t, ts);
    if p < r {
        assert(t[r - 1].timestamp_ms > ts);
    } else if r < p {
        assert(t[p - 1].timestamp_ms > ts);
    }
}

pub(crate) proof fn met_messages(a: AppView, m: SignalMessageView, id: Seq<char>)
    ensures
        holds(ready_for(a, m, id).store.conversations, id),
        messages_of(ready_for(a, m, id).store, id) == messages_of(a.store, id),
{
    reveal(conversation_met);
    reveal(timer_synced);
    let n = names_learnt(topped(a, id), m);
    let name = crate::messages::message_conv_name(n, m, id);
    let is_group = m.group_id is Some;
    let e = ensured(n, id, name, is_group);
    assert(n.store.conversations == a.store.conversations);
    place_finds(a.store.conversations, id);
    if !holds(a.store.conversations, id) {
        look_after_put(
            a.store.conversations,
            id,
            crate::conversation_store::new_conversation(id, name, is_group),
            id,
        );
    } else {
        look_after_put(
            a.store.conversations,
            id,
            ConversationView { name, ..at(a.store.conversations, id) },
            id,
        );
    }
    assert(holds(e.store.conversations, id));
    let c = at(e.store.conversations, id);
    look_after_put(e.store.conversations, id, ConversationView { accepted: false, ..c }, id);
    let b = conversation_met(a, m, id);
    look_after_put(
        b.store.conversations,
        id,
        ConversationView {
            expiration_timer: m.expires_in_seconds,
            ..at(b.store.conversations, id)
        },
        id,
    );
}

proof fn one_part_put(
    a: AppView,
    b: AppView,
    id: Seq<char>,
    parts: Seq<DisplayMessageView>,
    part: DisplayMessageView,
    quote: Option<WireQuoteView>,
    ts: i64,
)
    requires
        holds(b.store.conversations, id),
        put_among(messages_of(a.store, id), parts, ts, messages_of(b.store, id)),
        part.timestamp_ms == ts,
        forall|k: int| 0 <= k < parts.len() ==> (#[trigger] parts[k]).timestamp_ms == ts,
    ensures
        holds(part_stored(b, id, part, quote).store.conversations, id),
        put_among(
            messages_of(a.store, id),
            parts.push(part),
            ts,
            messages_of(part_stored(b, id, part, quote).store, id),
        ),
{
    let s = messages_of(a.store, id);
    let t = messages_of(b.store, id);
    let p = slot(s, ts);
    let n = parts.len();
    slot_finds(s, ts);
    assert(p + n > 0 ==> t[p + n - 1].timestamp_ms <= ts) by {
        if n > 0 {
            assert(bare(t[p + (n - 1)]) == bare(parts[n - 1]));
            assert(bare(t[p + (n - 1)]).timestamp_ms == t[p + (n - 1)].timestamp_ms);
            assert(bare(parts[n - 1]).timestamp_ms == parts[n - 1].timestamp_ms);
        } else if p > 0 {
            assert(unlinked(t[p - 1]) == unlinked(s[p - 1]));
            assert(unlinked(t[p - 1]).timestamp_ms == t[p - 1].timestamp_ms);
            assert(unlinked(s[p - 1]).timestamp_ms == s[p - 1].timestamp_ms);
        }
    }
    assert forall|j: int| p + n <= j < t.len() implies (#[trigger] t[j]).timestamp_ms > ts by {
        let i = j - n;
        assert(s[i].timestamp_ms > ts);
        assert(unlinked(t[i + n]) == unlinked(s[i]));
        assert(unlinked(t[i + n]).timestamp_ms == t[i + n].timestamp_ms);
        assert(unlinked(s[i]).timestamp_ms == s[i].timestamp_ms);
    }
    slot_is(t, ts, p + n);
    let x = DisplayMessageView { poll_data: waiting_poll(b, id, ts), ..part };
    let d = poll_taken(b, id, ts);
    let c = at(d.store.conversations, id);
    assert(d.store == b.store);
    look_after_put(
        d.store.conversations,
        id,
        ConversationView { messages: c.messages.insert(p + n, x), ..c },
        id,
    );
    let u = t.insert(p + n, x);
    assert(messages_of(part_stored(b, id, part, quote).store, id) == u);
    let all = parts.push(part);
    assert forall|j: int| 0 <= j < p implies unlinked(#[trigger] u[j]) == unlinked(s[j]) by {
        assert(u[j] == t[j]);
    }
    assert forall|k: int| 0 <= k < all.len() implies bare(u[p + k]) == bare(#[trigger] all[k]) by {
        if k < n {
            assert(u[p + k] == t[p + k]);
            assert(all[k] == parts[k]);
        }
    }
    assert forall|j: int| p <= j < s.len() implies unlinked(u[j + all.len()]) == unlinked(
        #[trigger] s[j],
    ) by {
        assert(u[j + n + 1] == t[j + n]);
    }
}

pub(crate) proof fn parts_put(
    a: AppView,
    id: Seq<char>,
    parts: Seq<DisplayMessageView>,
    quote: Option<WireQuoteView>,
    ts: i64,
)
    requires
        holds(a.store.conversations, id),
        forall|k: int| 0 <= k < parts.len() ==> (#[trigger] parts[k]).timestamp_ms == ts,
    ensures
        holds(parts_stored(a, id, parts, quote).store.conversations, id),
        put_among(
            messages_of(a.store, id),
            parts,
            ts,
            messages_of(parts_stored(a, id, parts, quote).store, id),
        ),
    decreases parts.len(),
{
    slot_finds(messages_of(a.store, id), ts);
    if parts.len() > 0 {
        let front = parts.drop_last();
        assert forall|k: int| 0 <= k < front.len() implies (#[trigger] front[k]).timestamp_ms
            == ts by {
            assert(front[k] == parts[k]);
        }
        assert(parts[parts.len() - 1].timestamp_ms == ts);
        parts_put(a, id, front, quote, ts);
        one_part_put(
            a,
            parts_stored(a, id, front, quote),
            id,
            front,
            parts.last(),
            quote,
            ts,
        );
        assert(front.push(parts.last()) =~= parts);
    }
}

pub(crate) proof fn preview_moves_nothing(
    a: AppView,
    id: Seq<char>,
    ts: i64,
    previews: Seq<PreviewArtView>,
    s: Seq<DisplayMessageView>,
    parts: Seq<DisplayMessageView>,
)
    requires
        holds(a.store.conversations, id),
        put_among(s, parts, ts, messages_of(a.store, id)),
    ensures
        holds(preview_attached(a, id, ts, previews).store.conversations, id),
        put_among(s, parts, ts, messages_of(preview_attached(a, id, ts, previews).store, id)),
{
    reveal(preview_attached);
    let t = messages_of(a.store, id);
    let i = last_text(t, ts);
    slot_finds(s, ts);
    last_text_is_there(t, ts);
    if previews.len() > 0 && i >= 0 {
        let c = at(a.store.conversations, id);
        let x = with_preview(a, t[i], previews[0]);
        let u = t.update(i, x);
        look_after_put(a.store.conversations, id, ConversationView { messages: u, ..c }, id);
        assert(unlinked(x) == unlinked(t[i]));
        assert forall|j: int| 0 <= j < t.len() implies unlinked(#[trigger] u[j]) == unlinked(
            t[j],
        ) by {}
        let p = slot(s, ts);
        let n = parts.len();
        assert forall|j: int| 0 <= j < p implies unlinked(#[trigger] u[j]) == unlinked(s[j]) by {
            assert(unlinked(t[j]) == unlinked(s[j]));
        }
        assert forall|k: int| 0 <= k < n implies bare(u[p + k]) == bare(#[trigger] parts[k]) by {
            assert(bare(t[p + k]) == bare(parts[k]));
            assert(unlinked(u[p + k]) == unlinked(t[p + k]));
        }
        assert forall|j: int| p <= j < s.len() implies unlinked(u[j + n]) == unlinked(
            #[trigger] s[j],
        ) by {
            assert(unlinked(t[j + n]) == unlinked(s[j]));
        }
    }
}

proof fn last_text_is_there(msgs: Seq<DisplayMessageView>, ts: i64)
    ensures
        -1 <= last_text(msgs, ts) < msgs.len(),
    decreases msgs.len(),
{
    if msgs.len() > 0 {
        last_text_is_there(msgs.drop_last(), ts);
    }
}

/// What was put in among messages in time order stands in time order with them.
proof fn put_among_keeps_order(
    s: Seq<DisplayMessageView>,
    parts: Seq<DisplayMessageView>,
    ts: i64,
    t: Seq<DisplayMessageView>,
)
    requires
        in_time_order(s),
        put_among(s, parts, ts, t),
        forall|k: int| 0 <= k < parts.len() ==> (#[trigger] parts[k]).timestamp_ms == ts,
    ensures
        in_time_order(t),
        forall|j: int| 0 <= j < slot(s, ts) ==> (#[trigger] s[j]).timestamp_ms <= ts,
        forall|j: int| slot(s, ts) <= j < s.len() ==> (#[trigger] s[j]).timestamp_ms > ts,
{
    let p = slot(s, ts);
    let n = parts.len();
    slot_finds(s, ts);
    assert forall|j: int| 0 <= j < p implies (#[trigger] s[j]).timestamp_ms <= ts by {
        assert(s[j].timestamp_ms <= s[p - 1].timestamp_ms);
    }
    assert forall|j: int| 0 <= j < t.len() implies (#[trigger] t[j]).timestamp_ms == if j < p {
        s[j].timestamp_ms
    } else if j < p + n {
        ts
    } else {
        s[j - n].timestamp_ms
    } by {
        if j < p {
            assert(unlinked(t[j]).timestamp_ms == unlinked(s[j]).timestamp_ms);
        } else if j < p + n {
            let k = j - p;
            assert(bare(t[p + k]) == bare(parts[k]));
            assert(bare(t[p + k]).timestamp_ms == bare(parts[k]).timestamp_ms);
        } else {
            let i = j - n;
            assert(unlinked(t[i + n]) == unlinked(s[i]));
            assert(unlinked(t[i + n]).timestamp_ms == unlinked(s[i]).timestamp_ms);
        }
    }
    assert forall|i: int, j: int| 0 <= i <= j < t.len() implies (#[trigger] t[i]).timestamp_ms <= (
    #[trigger] t[j]).timestamp_ms by {
        if i < p && j < p {
            assert(s[i].timestamp_ms <= s[j].timestamp_ms);
        } else if i >= p + n && j >= p + n {
            assert(s[i - n].timestamp_ms <= s[j - n].timestamp_ms);
        }
    }
}

pub(crate) proof fn parts_have_its_time(a: AppView, m: SignalMessageView, now_ms: i64)
    ensures
        message_parts(a, m, now_ms).len() == m.attachments.len() + (if m.body is Some {
            1int
        } else {
            0int
        }),
        forall|k: int|
            0 <= k < message_parts(a, m, now_ms).len() ==> (#[trigger] message_parts(
                a,
                m,
                now_ms,
            )[k]).timestamp_ms == m.timestamp_ms,
{
}

/// A message adds its text and each of its attachments to its conversation, in that
/// order and once, behind all messages that are no later. The messages that were
/// there keep their order, and where they stood in time order all of them do
/// afterwards. The conversation counts one more unread exactly where the message
/// comes in and the conversation is not the one that is looked at.
pub proof fn messages_arrive_in_order(
    a: AppView,
    m: SignalMessageView,
    id: Seq<char>,
    now_ms: i64,
)
    requires
        message_conversation(m) == Some(id),
        in_time_order(messages_of(a.store, id)),
    ensures
        in_time_order(messages_of(message_taken(a, m, now_ms).store, id)),
        put_among(
            messages_of(a.store, id),
            message_parts(ready_for(a, m, id), m, now_ms),
            m.timestamp_ms,
            messages_of(message_taken(a, m, now_ms).store, id),
        ),
        message_parts(ready_for(a, m, id), m, now_ms).len() == m.attachments.len() + (
        if m.body is Some {
            1int
        } else {
            0int
        }),
        forall|j: int|
            0 <= j < slot(messages_of(a.store, id), m.timestamp_ms) ==> (#[trigger] messages_of(
                a.store,
                id,
            )[j]).timestamp_ms <= m.timestamp_ms,
        forall|j: int|
            slot(messages_of(a.store, id), m.timestamp_ms) <= j < messages_of(a.store, id).len()
                ==> (#[trigger] messages_of(a.store, id)[j]).timestamp_ms > m.timestamp_ms,
        unread_of(message_taken(a, m, now_ms).store, id) == if !m.is_outgoing
            && a.active_conversation != Some(id) {
            at_most_max(unread_of(a.store, id) + 1)
        } else {
            unread_of(a.store, id)
        },
{
    let ts = m.timestamp_ms;
    let b = ready_for(a, m, id);
    let parts = message_parts(b, m, now_ms);
    let c = parts_stored(b, id, parts, m.quote);
    let d = preview_attached(c, id, ts, m.previews);
    met_messages(a, m, id);
    parts_have_its_time(b, m, now_ms);
    parts_put(b, id, parts, m.quote, ts);
    preview_moves_nothing(c, id, ts, m.previews, messages_of(a.store, id), parts);
    assert(messages_of(message_taken(a, m, now_ms).store, id) == messages_of(d.store, id)) by {
        reveal(message_taken);
        reveal(seen);
        reveal(notified);
        let conv = at(d.store.conversations, id);
        look_after_put(
            d.store.conversations,
            id,
            ConversationView { unread: at_most_max(conv.unread + 1), ..conv },
            id,
        );
    }
    put_among_keeps_order(
        messages_of(a.store, id),
        parts,
        ts,
        messages_of(message_taken(a, m, now_ms).store, id),
    );
    unread_counts(a, m, id, now_ms, id);
}

} // verus!
