//! What is promised of a message that comes in, or comes from one's phone.
use crate::app::{AppView, EffectView, Flag, PendingPollView, Setting};
use crate::arrivals::{
    bare, messages_of, met_messages, parts_have_its_time, parts_put, preview_moves_nothing,
    put_among, ready_for, unlinked,
};
use crate::conversation_store::{
    at_most_max, new_conversation, short_form, slot, slot_finds, ConversationView,
    DisplayMessageView,
};
use crate::db::{DbJobView, DbWriteView};
use crate::events::{event_taken, poll_made};
use crate::mentions::resolved_body;
use crate::messages::{
    conversation_met, is_request, last_text, message_conv_name, message_parts, message_taken,
    message_write, names_learnt, notified, part_stored, parts_stored, poll_place, poll_taken,
    preview_attached, seen, timer_synced, waiting_poll, with_preview,
};
use crate::navigation::{ensured, topped};
use crate::places::{message_of_time_is_found, none_at};
use crate::signal::{
    AttachmentView, MessageStatus, PollDataView, PreviewArtView, SignalEventView, SignalMessageView,
    WireQuoteView,
};
use crate::strmap::{at, holds, look, look_after_put, place_finds, put};
use vstd::prelude::*;

verus! {

/// A message belongs to a conversation: that of its group; else, for one's own, that
/// with whom it was sent to; else that with who sent it.
pub open spec fn belongs_to(m: SignalMessageView, id: Seq<char>) -> bool {
    if m.group_id is Some {
        m.group_id == Some(id)
    } else if m.is_outgoing {
        m.destination == Some(id)
    } else {
        m.source == id
    }
}

/// Place `p` among messages is behind the last one that is no later than `ts`.
pub open spec fn behind_time(s: Seq<DisplayMessageView>, ts: i64, p: int) -> bool {
    &&& 0 <= p <= s.len()
    &&& p > 0 ==> s[p - 1].timestamp_ms <= ts
    &&& forall|j: int| p <= j < s.len() ==> (#[trigger] s[j]).timestamp_ms > ts
}

/// How many messages are shown for one: its text, and each attachment.
pub open spec fn shown_count(m: SignalMessageView) -> int {
    m.attachments.len() + (if m.body is Some {
        1int
    } else {
        0int
    })
}

/// The state before it is decided whether a message is seen at once.
spec fn put_away(a: AppView, m: SignalMessageView, id: Seq<char>, now_ms: i64) -> AppView {
    let b = ready_for(a, m, id);
    preview_attached(
        parts_stored(b, id, message_parts(b, m, now_ms), m.quote),
        id,
        m.timestamp_ms,
        m.previews,
    )
}

/// Two states agree in what decides on who is told, and in all conversations but
/// one.
spec fn agree(a: AppView, b: AppView, id: Seq<char>) -> bool {
    &&& b.account == a.account
    &&& b.settings == a.settings
    &&& b.muted == a.muted
    &&& b.blocked == a.blocked
    &&& b.notification_preview == a.notification_preview
    &&& b.active_conversation == a.active_conversation
    &&& b.pending == a.pending
    &&& b.effects == a.effects
    &&& b.flags == a.flags
    &&& b.input == a.input
    &&& b.scroll == a.scroll
    &&& b.store.groups == a.store.groups
    &&& forall|k: Seq<char>| k != id ==> #[trigger] look(b.store.conversations, k) == look(
        a.store.conversations,
        k,
    )
}

proof fn agree_by_put(a: AppView, b: AppView, id: Seq<char>, c: ConversationView)
    requires
        b.store.conversations == put(a.store.conversations, id, c),
    ensures
        forall|k: Seq<char>|
            k != id ==> #[trigger] look(b.store.conversations, k) == look(a.store.conversations, k),
        look(b.store.conversations, id) == Some(c),
{
    assert forall|k: Seq<char>| k != id implies #[trigger] look(b.store.conversations, k) == look(
        a.store.conversations,
        k,
    ) by {
        look_after_put(a.store.conversations, id, c, k);
    }
    look_after_put(a.store.conversations, id, c, id);
}

proof fn agree_twice(a: AppView, b: AppView, c: AppView, id: Seq<char>)
    requires
        agree(a, b, id),
        agree(b, c, id),
    ensures
        agree(a, c, id),
{
    assert forall|k: Seq<char>| k != id implies #[trigger] look(c.store.conversations, k) == look(
        a.store.conversations,
        k,
    ) by {
        assert(look(c.store.conversations, k) == look(b.store.conversations, k));
    }
}

/// Whether a conversation that is new with a message is accepted at once.
spec fn is_welcome(a: AppView, m: SignalMessageView, id: Seq<char>) -> bool {
    m.is_outgoing || m.group_id is Some || holds(a.store.contact_names, id) || m.source_name is Some
}

proof fn ready_agrees(a: AppView, m: SignalMessageView, id: Seq<char>)
    requires
        belongs_to(m, id),
    ensures
        agree(a, ready_for(a, m, id), id),
        ready_for(a, m, id).store.contact_names == names_learnt(a, m).store.contact_names,
        ready_for(a, m, id).store.uuid_to_name == names_learnt(a, m).store.uuid_to_name,
        look(ready_for(a, m, id).store.conversations, id) is Some,
        ({
            let c = look(ready_for(a, m, id).store.conversations, id)->0;
            let n = message_conv_name(names_learnt(topped(a, id), m), m, id);
            &&& c.expiration_timer == m.expires_in_seconds
            &&& match look(a.store.conversations, id) {
                Some(o) => c == (ConversationView {
                    expiration_timer: m.expires_in_seconds,
                    name: if n != id {
                        n
                    } else {
                        o.name
                    },
                    ..o
                }),
                None => c == (ConversationView {
                    expiration_timer: m.expires_in_seconds,
                    accepted: is_welcome(a, m, id),
                    ..new_conversation(id, n, m.group_id is Some)
                }),
            }
        }),
{
    reveal(conversation_met);
    reveal(timer_synced);
    let n = names_learnt(topped(a, id), m);
    let name = message_conv_name(n, m, id);
    let is_group = m.group_id is Some;
    let e = ensured(n, id, name, is_group);
    place_finds(a.store.conversations, id);
    place_finds(a.store.contact_names, id);
    if m.source_name is Some && !m.is_outgoing && m.group_id is None {
        let names = a.store.contact_names;
        if !holds(names, id) {
            assert(n.store.contact_names == put(names, m.source, m.source_name->0));
            look_after_put(names, m.source, m.source_name->0, id);
        }
        assert(holds(n.store.contact_names, id));
    } else if m.group_id is None {
        assert(n.store.contact_names == a.store.contact_names);
    }
    let fresh = new_conversation(id, name, is_group);
    let told = ConversationView { name, ..at(a.store.conversations, id) };
    let c1 = if !holds(a.store.conversations, id) {
        fresh
    } else if name != id {
        told
    } else {
        at(a.store.conversations, id)
    };
    if !holds(a.store.conversations, id) {
        assert(e.store.conversations == put(a.store.conversations, id, fresh));
        agree_by_put(a, e, id, fresh);
    } else if name != id && at(a.store.conversations, id).name != name {
        agree_by_put(a, e, id, told);
    } else {
        assert(e.store.conversations == a.store.conversations);
        assert(c1 == at(a.store.conversations, id));
    }
    assert(look(e.store.conversations, id) == Some(c1));
    let t = conversation_met(a, m, id);
    let c2 = if is_request(n, m, id) {
        ConversationView { accepted: false, ..c1 }
    } else {
        c1
    };
    if is_request(n, m, id) {
        agree_by_put(e, t, id, c2);
    }
    assert(look(t.store.conversations, id) == Some(c2));
    assert(agree(a, e, id));
    assert(agree(e, t, id));
    agree_twice(a, e, t, id);
    let b = ready_for(a, m, id);
    let c3 = ConversationView { expiration_timer: m.expires_in_seconds, ..c2 };
    if c2.expiration_timer != m.expires_in_seconds {
        agree_by_put(t, b, id, c3);
    }
    assert(look(b.store.conversations, id) == Some(c3));
    assert(agree(t, b, id));
    agree_twice(a, t, b, id);
    assert(!holds(a.store.conversations, id) ==> is_request(n, m, id) == !is_welcome(a, m, id));
}

/// A conversation differs from another only in its messages.
spec fn same_but_messages(c: ConversationView, d: ConversationView) -> bool {
    d == ConversationView { messages: d.messages, ..c }
}

proof fn storing_agrees(
    a: AppView,
    id: Seq<char>,
    parts: Seq<DisplayMessageView>,
    quote: Option<WireQuoteView>,
)
    requires
        holds(a.store.conversations, id),
    ensures
        agree(a, parts_stored(a, id, parts, quote), id),
        holds(parts_stored(a, id, parts, quote).store.conversations, id),
        same_but_messages(
            at(a.store.conversations, id),
            at(parts_stored(a, id, parts, quote).store.conversations, id),
        ),
        parts_stored(a, id, parts, quote).store.contact_names == a.store.contact_names,
        parts_stored(a, id, parts, quote).jobs.len() == a.jobs.len() + parts.len(),
        forall|k: int|
            0 <= k < a.jobs.len() ==> parts_stored(a, id, parts, quote).jobs[k] == #[trigger] a.jobs[k],
        forall|k: int|
            0 <= k < parts.len() ==> parts_stored(a, id, parts, quote).jobs[a.jobs.len() + k].write
                == message_write(id, #[trigger] parts[k], quote),
    decreases parts.len(),
{
    if parts.len() > 0 {
        let front = parts.drop_last();
        let b = parts_stored(a, id, front, quote);
        storing_agrees(a, id, front, quote);
        let part = parts.last();
        let ts = part.timestamp_ms;
        let x = DisplayMessageView { poll_data: waiting_poll(b, id, ts), ..part };
        let c = at(b.store.conversations, id);
        let d = part_stored(b, id, part, quote);
        assert(poll_taken(b, id, ts).store == b.store);
        agree_by_put(
            b,
            d,
            id,
            ConversationView { messages: c.messages.insert(slot(c.messages, ts), x), ..c },
        );
        assert(agree(b, d, id));
        agree_twice(a, b, d, id);
        assert forall|k: int| 0 <= k < a.jobs.len() implies d.jobs[k] == #[trigger] a.jobs[k] by {
            assert(b.jobs[k] == a.jobs[k]);
        }
        assert forall|k: int| 0 <= k < parts.len() implies d.jobs[a.jobs.len() + k].write
            == message_write(id, #[trigger] parts[k], quote) by {
            if k < front.len() {
                assert(front[k] == parts[k]);
                assert(b.jobs[a.jobs.len() + k].write == message_write(id, front[k], quote));
            }
        }
    }
}

proof fn preview_agrees(a: AppView, id: Seq<char>, ts: i64, previews: Seq<PreviewArtView>)
    requires
        holds(a.store.conversations, id),
    ensures
        agree(a, preview_attached(a, id, ts, previews), id),
        holds(preview_attached(a, id, ts, previews).store.conversations, id),
        same_but_messages(
            at(a.store.conversations, id),
            at(preview_attached(a, id, ts, previews).store.conversations, id),
        ),
        preview_attached(a, id, ts, previews).store.contact_names == a.store.contact_names,
        preview_attached(a, id, ts, previews).jobs.len() >= a.jobs.len(),
        forall|k: int|
            0 <= k < a.jobs.len() ==> preview_attached(a, id, ts, previews).jobs[k]
                == #[trigger] a.jobs[k],
{
    reveal(preview_attached);
    let c = at(a.store.conversations, id);
    let i = last_text(c.messages, ts);
    if previews.len() > 0 && i >= 0 {
        agree_by_put(
            a,
            preview_attached(a, id, ts, previews),
            id,
            ConversationView {
                messages: c.messages.update(i, with_preview(a, c.messages[i], previews[0])),
                ..c
            },
        );
    }
}

/// What holds of the state before it is decided whether a message is seen.
proof fn putting_away(a: AppView, m: SignalMessageView, id: Seq<char>, now_ms: i64)
    requires
        belongs_to(m, id),
    ensures
        agree(a, put_away(a, m, id, now_ms), id),
        holds(put_away(a, m, id, now_ms).store.conversations, id),
        same_but_messages(
            at(ready_for(a, m, id).store.conversations, id),
            at(put_away(a, m, id, now_ms).store.conversations, id),
        ),
        put_away(a, m, id, now_ms).store.contact_names == names_learnt(a, m).store.contact_names,
        put_among(
            messages_of(a.store, id),
            message_parts(ready_for(a, m, id), m, now_ms),
            m.timestamp_ms,
            messages_of(put_away(a, m, id, now_ms).store, id),
        ),
        forall|k: int|
            0 <= k < message_parts(ready_for(a, m, id), m, now_ms).len() ==> is_written(
                put_away(a, m, id, now_ms).jobs,
                message_write(
                    id,
                    #[trigger] message_parts(ready_for(a, m, id), m, now_ms)[k],
                    m.quote,
                ),
            ),
{
    let ts = m.timestamp_ms;
    let b = ready_for(a, m, id);
    let parts = message_parts(b, m, now_ms);
    let c = parts_stored(b, id, parts, m.quote);
    let d = put_away(a, m, id, now_ms);
    met_messages(a, m, id);
    ready_agrees(a, m, id);
    parts_have_its_time(b, m, now_ms);
    storing_agrees(b, id, parts, m.quote);
    preview_agrees(c, id, ts, m.previews);
    agree_twice(a, b, c, id);
    agree_twice(a, c, d, id);
    parts_put(b, id, parts, m.quote, ts);
    preview_moves_nothing(c, id, ts, m.previews, messages_of(a.store, id), parts);
    assert forall|k: int| 0 <= k < parts.len() implies is_written(
        d.jobs,
        message_write(id, #[trigger] parts[k], m.quote),
    ) by {
        let j = b.jobs.len() + k;
        assert(c.jobs[j].write == message_write(id, parts[k], m.quote));
        assert(d.jobs[j] == c.jobs[j]);
    }
}

/// Something is to be written to the database.
pub open spec fn is_written(jobs: Seq<DbJobView>, w: DbWriteView) -> bool {
    exists|j: int| 0 <= j < jobs.len() && (#[trigger] jobs[j]).write == w
}

proof fn seeing_keeps(d: AppView, m: SignalMessageView, id: Seq<char>)
    requires
        holds(d.store.conversations, id),
    ensures
        seen(d, m, id).store.conversations == d.store.conversations,
        seen(d, m, id).jobs.len() >= d.jobs.len(),
        forall|k: int| 0 <= k < d.jobs.len() ==> seen(d, m, id).jobs[k] == #[trigger] d.jobs[k],
{
    reveal(seen);
}

proof fn notifying_keeps(d: AppView, m: SignalMessageView, id: Seq<char>)
    requires
        holds(d.store.conversations, id),
    ensures
        notified(d, m, id).jobs == d.jobs,
        look(notified(d, m, id).store.conversations, id) == Some(
            ConversationView {
                unread: at_most_max(at(d.store.conversations, id).unread + 1),
                ..at(d.store.conversations, id)
            },
        ),
        forall|k: Seq<char>|
            k != id ==> #[trigger] look(notified(d, m, id).store.conversations, k) == look(
                d.store.conversations,
                k,
            ),
{
    reveal(notified);
    let c = at(d.store.conversations, id);
    agree_by_put(
        d,
        notified(d, m, id),
        id,
        ConversationView { unread: at_most_max(c.unread + 1), ..c },
    );
}

/// What follows a message that was put away.
proof fn deciding(a: AppView, m: SignalMessageView, id: Seq<char>, now_ms: i64)
    requires
        belongs_to(m, id),
    ensures
        ({
            let d = put_away(a, m, id, now_ms);
            let r = message_taken(a, m, now_ms);
            &&& r == if a.active_conversation == Some(id) {
                seen(d, m, id)
            } else if m.is_outgoing {
                d
            } else {
                notified(d, m, id)
            }
            &&& messages_of(r.store, id) == messages_of(d.store, id)
            &&& holds(r.store.conversations, id)
            &&& forall|k: Seq<char>|
                k != id ==> #[trigger] look(r.store.conversations, k) == look(
                    a.store.conversations,
                    k,
                )
            &&& at(r.store.conversations, id) == (ConversationView {
                unread: if a.active_conversation != Some(id) && !m.is_outgoing {
                    at_most_max(at(d.store.conversations, id).unread + 1)
                } else {
                    at(d.store.conversations, id).unread
                },
                ..at(d.store.conversations, id)
            })
            &&& r.jobs.len() >= d.jobs.len()
            &&& forall|k: int| 0 <= k < d.jobs.len() ==> r.jobs[k] == #[trigger] d.jobs[k]
        }),
{
    putting_away(a, m, id, now_ms);
    let d = put_away(a, m, id, now_ms);
    let r = message_taken(a, m, now_ms);
    assert(r == if a.active_conversation == Some(id) {
        seen(d, m, id)
    } else if m.is_outgoing {
        d
    } else {
        notified(d, m, id)
    }) by {
        reveal(message_taken);
    }
    if a.active_conversation == Some(id) {
        seeing_keeps(d, m, id);
    } else if !m.is_outgoing {
        notifying_keeps(d, m, id);
    }
    assert forall|k: Seq<char>| k != id implies #[trigger] look(r.store.conversations, k) == look(
        a.store.conversations,
        k,
    ) by {
        assert(look(d.store.conversations, k) == look(a.store.conversations, k));
    }
}

/// How the sender of a message is shown: one's own are by `you`; others by the name
/// that comes with the message, else by the name that is known, else by a short
/// form of the number.
pub open spec fn shown_as(a: AppView, m: SignalMessageView, name: Seq<char>) -> bool {
    if m.is_outgoing {
        name == "you"@
    } else if m.source_name is Some {
        m.source_name == Some(name)
    } else if holds(a.store.contact_names, m.source) {
        look(a.store.contact_names, m.source) == Some(name)
    } else {
        name == short_form(m.source)
    }
}

/// Each message that is shown for one stands in the conversation that it belongs
/// to, behind what is no later, with what was there before and after it left alone.
/// One's own are shown as sent by `you`, with the account as the number, and as
/// sent; others are shown by the name that comes along, else by the name that is
/// known, else by a short form of the number, without a status. Nothing else is
/// said of them: they are no lines of the client, neither edited, deleted nor
/// pinned, and nobody has reacted. What disappears counts from when one's own was
/// sent, else from now.
#[verifier::rlimit(30)]
pub proof fn messages_show_who_sent_them(
    a: AppView,
    m: SignalMessageView,
    id: Seq<char>,
    now_ms: i64,
    clock_ms: u64,
) -> (p: int)
    requires
        belongs_to(m, id),
    ensures
        ({
            let s = messages_of(a.store, id);
            let t = messages_of(
                event_taken(a, SignalEventView::MessageReceived(m), now_ms, clock_ms).store,
                id,
            );
            let n = shown_count(m);
            &&& behind_time(s, m.timestamp_ms, p)
            &&& t.len() == s.len() + n
            &&& forall|j: int| 0 <= j < p ==> unlinked(#[trigger] t[j]) == unlinked(s[j])
            &&& forall|j: int| p <= j < s.len() ==> unlinked(t[j + n]) == unlinked(#[trigger] s[j])
            &&& forall|j: int|
                p <= j < p + n ==> {
                    let x = #[trigger] t[j];
                    &&& shown_as(a, m, x.sender)
                    &&& x.sender_id == if m.is_outgoing {
                        a.account
                    } else {
                        m.source
                    }
                    &&& x.status == if m.is_outgoing {
                        Some(MessageStatus::Sent)
                    } else {
                        None
                    }
                    &&& x.timestamp_ms == m.timestamp_ms
                    &&& x.timestamp == m.timestamp_ms
                    &&& !x.is_system && !x.is_edited && !x.is_deleted && !x.is_pinned
                    &&& x.reactions.len() == 0 && x.poll_votes.len() == 0
                    &&& x.expires_in_seconds == m.expires_in_seconds
                    &&& x.expiration_start_ms == if m.expires_in_seconds <= 0 {
                        0
                    } else if m.is_outgoing {
                        m.timestamp_ms
                    } else {
                        now_ms
                    }
                }
        }),
{
    let s = messages_of(a.store, id);
    let b = ready_for(a, m, id);
    let parts = message_parts(b, m, now_ms);
    let d = put_away(a, m, id, now_ms);
    let t = messages_of(d.store, id);
    let p = slot(s, m.timestamp_ms);
    let n = shown_count(m);
    putting_away(a, m, id, now_ms);
    deciding(a, m, id, now_ms);
    ready_agrees(a, m, id);
    parts_have_its_time(b, m, now_ms);
    slot_finds(s, m.timestamp_ms);
    assert(b.account == a.account);
    assert forall|j: int| p <= j < p + n implies {
        let x = #[trigger] t[j];
        &&& shown_as(a, m, x.sender)
        &&& x.sender_id == if m.is_outgoing {
            a.account
        } else {
            m.source
        }
        &&& x.status == if m.is_outgoing {
            Some(MessageStatus::Sent)
        } else {
            None
        }
        &&& x.timestamp_ms == m.timestamp_ms
        &&& x.timestamp == m.timestamp_ms
        &&& !x.is_system && !x.is_edited && !x.is_deleted && !x.is_pinned
        &&& x.reactions.len() == 0 && x.poll_votes.len() == 0
        &&& x.expires_in_seconds == m.expires_in_seconds
        &&& x.expiration_start_ms == if m.expires_in_seconds <= 0 {
            0
        } else if m.is_outgoing {
            m.timestamp_ms
        } else {
            now_ms
        }
    } by {
        let k = j - p;
        assert(bare(t[p + k]) == bare(parts[k]));
        let x = t[j];
        assert(bare(x).sender == x.sender && bare(x).sender_id == x.sender_id);
        assert(bare(x).status == x.status && bare(x).timestamp_ms == x.timestamp_ms);
        assert(bare(x).expires_in_seconds == x.expires_in_seconds);
        assert(bare(x).expiration_start_ms == x.expiration_start_ms);
        assert(bare(x).reactions == x.reactions && bare(x).poll_votes == x.poll_votes);
        assert(bare(x).is_system == x.is_system && bare(x).is_edited == x.is_edited);
        assert(bare(x).is_deleted == x.is_deleted && bare(x).is_pinned == x.is_pinned);
        assert(bare(x).timestamp == x.timestamp);
        if m.source_name is None {
            assert(b.store.contact_names == a.store.contact_names);
        }
    }
    p
}

/// The text of a message reads as it was sent where nobody is mentioned, and else
/// with the names that are known; it quotes what it quoted, and by whom. It comes
/// first, and the attachments follow in their order, each with its kind, its name
/// and where its file lies.
pub proof fn messages_show_what_was_sent(
    a: AppView,
    m: SignalMessageView,
    id: Seq<char>,
    now_ms: i64,
    clock_ms: u64,
    p: int,
)
    requires
        belongs_to(m, id),
        behind_time(messages_of(a.store, id), m.timestamp_ms, p),
    ensures
        ({
            let t = messages_of(
                event_taken(a, SignalEventView::MessageReceived(m), now_ms, clock_ms).store,
                id,
            );
            let first = if m.body is Some {
                1int
            } else {
                0int
            };
            &&& m.body is Some ==> {
                let x = t[p];
                &&& m.mentions.len() == 0 ==> Some(x.body) == m.body && x.body_raw is None
                &&& m.mentions.len() > 0 && (m.is_outgoing || m.source_name is None) ==> x.body
                    == resolved_body(m.body->0, m.mentions, a.store.uuid_to_name)
                &&& m.mentions.len() > 0 ==> x.body_raw == m.body
                &&& x.mentions == m.mentions
                &&& x.quote is Some <==> m.quote is Some
                &&& m.quote is Some ==> {
                    let q = x.quote->0;
                    let w = m.quote->0;
                    &&& q.body == w.body && q.timestamp_ms == w.timestamp_ms && q.author_id
                        == w.author
                    &&& holds(a.store.contact_names, w.author) ==> Some(q.author) == look(
                        a.store.contact_names,
                        w.author,
                    )
                    &&& !holds(a.store.contact_names, w.author) && (m.is_outgoing
                        || m.source_name is None || w.author != m.source) ==> q.author == if w.author
                        == a.account {
                        "you"@
                    } else {
                        w.author
                    }
                }
                &&& x.image_path is None
            }
            &&& forall|k: int|
                0 <= k < m.attachments.len() ==> shows_file(
                    t[p + first + k],
                    #[trigger] m.attachments[k],
                )
        }),
{
    let s = messages_of(a.store, id);
    let b = ready_for(a, m, id);
    let parts = message_parts(b, m, now_ms);
    let d = put_away(a, m, id, now_ms);
    let t = messages_of(d.store, id);
    putting_away(a, m, id, now_ms);
    deciding(a, m, id, now_ms);
    ready_agrees(a, m, id);
    parts_have_its_time(b, m, now_ms);
    slot_finds(s, m.timestamp_ms);
    let p1 = slot(s, m.timestamp_ms);
    assert(p == p1) by {
        if p < p1 {
            assert(s[p1 - 1].timestamp_ms > m.timestamp_ms);
        } else if p1 < p {
            assert(s[p - 1].timestamp_ms > m.timestamp_ms);
        }
    }
    let first = if m.body is Some {
        1int
    } else {
        0int
    };
    if m.body is Some {
        assert(bare(t[p + 0]) == bare(parts[0]));
        let x = t[p];
        assert(bare(x).body == x.body && bare(x).body_raw == x.body_raw);
        assert(bare(x).mentions == x.mentions && bare(x).quote == x.quote);
        assert(bare(x).image_path == x.image_path);
        if m.source_name is Some && !m.is_outgoing {
            place_finds(a.store.contact_names, m.source);
            if !holds(a.store.contact_names, m.source) && m.quote is Some {
                look_after_put(
                    a.store.contact_names,
                    m.source,
                    m.source_name->0,
                    m.quote->0.author,
                );
                assert(b.store.contact_names == put(
                    a.store.contact_names,
                    m.source,
                    m.source_name->0,
                ));
            }
        }
    }
    assert forall|k: int| 0 <= k < m.attachments.len() implies shows_file(
        t[p + first + k],
        #[trigger] m.attachments[k],
    ) by {
        assert(bare(t[p + (first + k)]) == bare(parts[first + k]));
        let x = t[p + first + k];
        assert(bare(x).body == x.body && bare(x).image_path == x.image_path);
        assert(bare(x).image_lines == x.image_lines);
        reveal_strlit("[image: ");
        reveal_strlit("[attachment: ");
        reveal_strlit("[");
        reveal_strlit("image");
        reveal_strlit("attachment");
        reveal_strlit(": ");
        assert("[image: "@ =~= "["@ + "image"@ + ": "@);
        assert("[attachment: "@ =~= "["@ + "attachment"@ + ": "@);
    }
}

/// A message shows a file that came along: its kind, its name or else its type in
/// brackets, and behind that in round ones where it lies. Only images that lie
/// somewhere are drawn.
pub open spec fn shows_file(x: DisplayMessageView, f: AttachmentView) -> bool {
    let drawn = f.content_type == "image/jpeg"@ || f.content_type == "image/png"@ || f.content_type
        == "image/gif"@ || f.content_type == "image/webp"@;
    let kind = if drawn {
        "image"@
    } else {
        "attachment"@
    };
    let name = if f.filename is Some {
        f.filename->0
    } else {
        f.content_type
    };
    let head = "["@ + kind + ": "@ + name + "]"@;
    &&& f.local_path is None ==> x.body == head
    &&& f.local_path is Some ==> x.body == head + ("("@ + crate::messages::file_uri(
        f.local_path->0,
    ) + ")"@)
    &&& x.image_path == if drawn {
        f.local_path
    } else {
        None
    }
    &&& x.image_lines == if drawn && f.local_path is Some {
        f.rendered
    } else {
        None
    }
}

/// The conversation that a message belongs to is there afterwards, and no other
/// conversation changes. One that was there stays a group or not, and accepted or
/// not; a new one is a group where the message names a group, and is accepted
/// unless somebody unknown and unnamed wrote to one directly. Its timer is that of
/// the message, and it counts one more unread exactly where the message comes in
/// while another conversation is looked at.
pub proof fn messages_change_their_conversation(
    a: AppView,
    m: SignalMessageView,
    id: Seq<char>,
    now_ms: i64,
    clock_ms: u64,
    other: Seq<char>,
)
    requires
        belongs_to(m, id),
    ensures
        ({
            let r = event_taken(a, SignalEventView::MessageReceived(m), now_ms, clock_ms);
            let had = look(a.store.conversations, id);
            let c = look(r.store.conversations, id)->0;
            let was = if had is Some {
                had->0.unread
            } else {
                0
            };
            &&& look(r.store.conversations, id) is Some
            &&& other != id ==> look(r.store.conversations, other) == look(
                a.store.conversations,
                other,
            )
            &&& c.is_group == if had is Some {
                had->0.is_group
            } else {
                m.group_id is Some
            }
            &&& c.accepted == if had is Some {
                had->0.accepted
            } else {
                m.is_outgoing || m.group_id is Some || m.source_name is Some || holds(
                    a.store.contact_names,
                    m.source,
                )
            }
            &&& c.expiration_timer == m.expires_in_seconds
            &&& c.unread == if m.is_outgoing || a.active_conversation == Some(id) || was
                == usize::MAX {
                was
            } else {
                (was + 1) as usize
            }
            &&& m.group_name is Some && m.group_name->0 != id ==> Some(c.name) == m.group_name
            &&& m.group_name is None && m.group_id is None && m.source_name is Some
                && m.source_name->0 != id ==> Some(c.name) == m.source_name
            &&& r.active_conversation == a.active_conversation
            &&& r.muted == a.muted && r.blocked == a.blocked && r.settings == a.settings
        }),
{
    reveal(message_taken);
    putting_away(a, m, id, now_ms);
    deciding(a, m, id, now_ms);
    ready_agrees(a, m, id);
    let d = put_away(a, m, id, now_ms);
    assert(is_calm(d, seen(d, m, id))) by {
        reveal(seen);
    }
    assert(is_calm(d, notified(d, m, id))) by {
        reveal(notified);
    }
}

/// Two states have the same switches, and the same conversation is looked at.
spec fn is_calm(a: AppView, b: AppView) -> bool {
    b.active_conversation == a.active_conversation && b.muted == a.muted && b.blocked == a.blocked
        && b.settings == a.settings
}

/// A message that comes in while another conversation is looked at rings the bell
/// where that is switched on for its kind, and is told to the desktop where that is
/// switched on, but neither for a conversation that is muted, blocked or was not
/// accepted. What is told names the sender, and the group before them, and shows the
/// text, as far as the settings let it. Nothing is told of any other message.
pub proof fn messages_are_announced(
    a: AppView,
    m: SignalMessageView,
    id: Seq<char>,
    now_ms: i64,
    clock_ms: u64,
    name: Seq<char>,
)
    requires
        belongs_to(m, id),
        shown_as(a, m, name),
    ensures
        ({
            let r = event_taken(a, SignalEventView::MessageReceived(m), now_ms, clock_ms);
            let c = look(r.store.conversations, id)->0;
            let heard = !m.is_outgoing && a.active_conversation != Some(id) && c.accepted
                && !a.muted.contains(id) && !a.blocked.contains(id);
            let text = if m.body is Some {
                m.body->0
            } else {
                Seq::empty()
            };
            let who = if m.group_id is Some {
                c.name + " — "@ + name
            } else {
                name
            };
            &&& r.flags == if heard && a.settings.contains(
                if m.group_id is Some {
                    Setting::NotifyGroup
                } else {
                    Setting::NotifyDirect
                },
            ) {
                a.flags.insert(Flag::Bell)
            } else {
                a.flags
            }
            &&& !(heard && a.settings.contains(Setting::DesktopNotifications)) ==> r.effects
                == a.effects
            &&& heard && a.settings.contains(Setting::DesktopNotifications) ==> {
                &&& r.effects.len() == a.effects.len() + 1
                &&& r.effects.drop_last() == a.effects
                &&& r.effects.last() == if a.notification_preview == "minimal"@ {
                    EffectView::Notify { title: "New message"@, body: Seq::empty() }
                } else if a.notification_preview == "sender"@ {
                    EffectView::Notify { title: who, body: "New message"@ }
                } else {
                    EffectView::Notify {
                        title: who,
                        body: if text.len() > 100 {
                            text.take(100)
                        } else {
                            text
                        },
                    }
                }
            }
        }),
{
    putting_away(a, m, id, now_ms);
    deciding(a, m, id, now_ms);
    let d = put_away(a, m, id, now_ms);
    if a.active_conversation == Some(id) {
        assert(seen(d, m, id).flags == d.flags && seen(d, m, id).effects == d.effects) by {
            reveal(seen);
        }
    } else if !m.is_outgoing {
        reveal(notified);
        notifying_keeps(d, m, id);
        let r = notified(d, m, id);
        if m.source_name is None {
            assert(d.store.contact_names == a.store.contact_names);
        }
        assert(crate::messages::sender_shown(r, m) == name);
        if r.effects.len() > d.effects.len() {
            assert(r.effects.drop_last() =~= a.effects);
        }
    }
}

/// A message in the conversation that is looked at counts as read, and where it
/// comes in a read receipt for it goes to its sender: unless that is switched off,
/// the conversation is blocked or was not accepted. No other message has a receipt
/// queued.
pub proof fn seen_messages_are_read(
    a: AppView,
    m: SignalMessageView,
    id: Seq<char>,
    now_ms: i64,
    clock_ms: u64,
)
    requires
        belongs_to(m, id),
    ensures
        ({
            let r = event_taken(a, SignalEventView::MessageReceived(m), now_ms, clock_ms);
            let c = look(r.store.conversations, id)->0;
            &&& a.active_conversation == Some(id) ==> look(r.store.last_read_index, id) == Some(
                c.messages.len() as usize,
            )
            &&& r.pending.read_receipts == if a.active_conversation == Some(id) && !m.is_outgoing
                && c.accepted && !a.blocked.contains(id) && a.settings.contains(
                Setting::SendReadReceipts,
            ) && m.source.len() > 0 && m.source != a.account {
                a.pending.read_receipts.push((m.source, seq![m.timestamp_ms]))
            } else {
                a.pending.read_receipts
            }
        }),
{
    putting_away(a, m, id, now_ms);
    deciding(a, m, id, now_ms);
    let d = put_away(a, m, id, now_ms);
    if a.active_conversation == Some(id) {
        reveal(seen);
        look_after_put(
            d.store.last_read_index,
            id,
            at(d.store.conversations, id).messages.len() as usize,
            id,
        );
    } else if !m.is_outgoing {
        assert(notified(d, m, id).pending == d.pending) by {
            reveal(notified);
        }
    }
}

/// Every message that is shown for one is written to the database as it is shown,
/// with the quote as it came.
pub proof fn messages_are_kept(
    a: AppView,
    m: SignalMessageView,
    id: Seq<char>,
    now_ms: i64,
    clock_ms: u64,
    p: int,
    j: int,
)
    requires
        belongs_to(m, id),
        behind_time(messages_of(a.store, id), m.timestamp_ms, p),
        p <= j < p + shown_count(m),
    ensures
        ({
            let r = event_taken(a, SignalEventView::MessageReceived(m), now_ms, clock_ms);
            let x = messages_of(r.store, id)[j];
            exists|k: int|
                0 <= k < r.jobs.len() && (#[trigger] r.jobs[k]).write == (
                DbWriteView::InsertMessage {
                    conv_id: id,
                    sender: x.sender,
                    body: x.body,
                    is_system: false,
                    status: x.status,
                    timestamp_ms: m.timestamp_ms,
                    sender_id: x.sender_id,
                    quote_author: if m.quote is Some {
                        Some(m.quote->0.author)
                    } else {
                        None
                    },
                    quote_body: if m.quote is Some {
                        Some(m.quote->0.body)
                    } else {
                        None
                    },
                    quote_ts_ms: if m.quote is Some {
                        Some(m.quote->0.timestamp_ms)
                    } else {
                        None
                    },
                    expires_in_seconds: x.expires_in_seconds,
                    expiration_start_ms: x.expiration_start_ms,
                })
        }),
{
    let s = messages_of(a.store, id);
    let b = ready_for(a, m, id);
    let parts = message_parts(b, m, now_ms);
    let d = put_away(a, m, id, now_ms);
    let r = message_taken(a, m, now_ms);
    let t = messages_of(d.store, id);
    putting_away(a, m, id, now_ms);
    deciding(a, m, id, now_ms);
    parts_have_its_time(b, m, now_ms);
    slot_finds(s, m.timestamp_ms);
    let p1 = slot(s, m.timestamp_ms);
    assert(p == p1) by {
        if p < p1 {
            assert(s[p1 - 1].timestamp_ms > m.timestamp_ms);
        } else if p1 < p {
            assert(s[p - 1].timestamp_ms > m.timestamp_ms);
        }
    }
    let i = j - p;
    let w = message_write(id, parts[i], m.quote);
    assert(bare(t[p + i]) == bare(parts[i]));
    let x = t[j];
    assert(bare(x).sender == x.sender && bare(x).sender_id == x.sender_id);
    assert(bare(x).body == x.body && bare(x).status == x.status);
    assert(bare(x).expires_in_seconds == x.expires_in_seconds);
    assert(bare(x).expiration_start_ms == x.expiration_start_ms);
    assert(is_written(d.jobs, w));
    let k = choose|k: int| 0 <= k < d.jobs.len() && (#[trigger] d.jobs[k]).write == w;
    assert(r.jobs[k] == d.jobs[k]);
    assert(r.jobs[k].write == w);
}

proof fn text_is_last(s: Seq<DisplayMessageView>, ts: i64, p: int)
    requires
        0 <= p < s.len(),
        s[p].timestamp_ms == ts,
        !(s[p].body.len() > 0 && s[p].body[0] == '['),
        forall|j: int| p < j < s.len() ==> (#[trigger] s[j]).timestamp_ms != ts,
    ensures
        last_text(s, ts) == p,
    decreases s.len(),
{
    if p < s.len() - 1 {
        assert(s[s.len() - 1].timestamp_ms != ts);
        text_is_last(s.drop_last(), ts, p);
    }
}

/// The first link preview that comes with a text is shown with it, and kept.
pub proof fn previews_are_shown(
    a: AppView,
    m: SignalMessageView,
    id: Seq<char>,
    now_ms: i64,
    clock_ms: u64,
    p: int,
)
    requires
        belongs_to(m, id),
        behind_time(messages_of(a.store, id), m.timestamp_ms, p),
        m.previews.len() > 0,
        m.attachments.len() == 0,
        m.body is Some && m.mentions.len() == 0,
        m.body->0.len() > 0 ==> m.body->0[0] != '[',
    ensures
        ({
            let r = event_taken(a, SignalEventView::MessageReceived(m), now_ms, clock_ms);
            let x = messages_of(r.store, id)[p];
            &&& x.preview == Some(m.previews[0].preview)
            &&& is_written(
                r.jobs,
                DbWriteView::UpsertLinkPreview {
                    conv_id: id,
                    timestamp_ms: m.timestamp_ms,
                    preview: m.previews[0].preview,
                },
            )
        }),
{
    let ts = m.timestamp_ms;
    let s = messages_of(a.store, id);
    let b = ready_for(a, m, id);
    let parts = message_parts(b, m, now_ms);
    let c = parts_stored(b, id, parts, m.quote);
    let d = put_away(a, m, id, now_ms);
    let t = messages_of(c.store, id);
    met_messages(a, m, id);
    ready_agrees(a, m, id);
    parts_have_its_time(b, m, now_ms);
    parts_put(b, id, parts, m.quote, ts);
    deciding(a, m, id, now_ms);
    slot_finds(s, ts);
    let p1 = slot(s, ts);
    assert(p == p1) by {
        if p < p1 {
            assert(s[p1 - 1].timestamp_ms > ts);
        } else if p1 < p {
            assert(s[p - 1].timestamp_ms > ts);
        }
    }
    assert(messages_of(b.store, id) == s);
    assert(parts.len() == 1);
    assert(bare(t[p + 0]) == bare(parts[0]));
    assert(bare(t[p]).body == t[p].body && bare(t[p]).timestamp_ms == t[p].timestamp_ms);
    assert forall|j: int| p < j < t.len() implies (#[trigger] t[j]).timestamp_ms != ts by {
        assert(unlinked(t[(j - 1) + 1]) == unlinked(s[j - 1]));
        assert(unlinked(t[j]).timestamp_ms == t[j].timestamp_ms);
        assert(unlinked(s[j - 1]).timestamp_ms == s[j - 1].timestamp_ms);
    }
    text_is_last(t, ts, p);
    let x = with_preview(c, t[p], m.previews[0]);
    let conv = at(c.store.conversations, id);
    let w = DbWriteView::UpsertLinkPreview {
        conv_id: id,
        timestamp_ms: ts,
        preview: m.previews[0].preview,
    };
    assert(d.store.conversations == c.with_msg(id, p, x).store.conversations && d.jobs.last().write
        == w) by {
        reveal(preview_attached);
    }
    look_after_put(
        c.store.conversations,
        id,
        ConversationView { messages: conv.messages.update(p, x), ..conv },
        id,
    );
    let r = message_taken(a, m, now_ms);
    let k = d.jobs.len() - 1;
    assert(d.jobs.len() > 0) by {
        reveal(preview_attached);
    }
    assert(r.jobs[k] == d.jobs[k]);
}

proof fn waiting_is(s: Seq<PendingPollView>, id: Seq<char>, ts: i64, i: int)
    requires
        0 <= i <= s.len(),
    ensures
        i <= poll_place(s, id, ts, i) <= s.len(),
        poll_place(s, id, ts, i) < s.len() ==> s[poll_place(s, id, ts, i)].conv_id == id
            && s[poll_place(s, id, ts, i)].timestamp_ms == ts,
        forall|j: int|
            i <= j < poll_place(s, id, ts, i) ==> !((#[trigger] s[j]).conv_id == id
                && s[j].timestamp_ms == ts),
    decreases s.len() - i,
{
    if i < s.len() {
        waiting_is(s, id, ts, i + 1);
    }
}

/// A poll that is told of before its message is shown with it when it comes.
pub proof fn early_polls_are_shown(
    a: AppView,
    m: SignalMessageView,
    id: Seq<char>,
    poll: PollDataView,
    now_ms: i64,
    clock_ms: u64,
    p: int,
)
    requires
        belongs_to(m, id),
        holds(a.store.conversations, id),
        behind_time(messages_of(a.store, id), m.timestamp_ms, p),
        none_at(messages_of(a.store, id), m.timestamp_ms),
        m.body is Some && m.attachments.len() == 0 && m.previews.len() == 0,
    ensures
        ({
            let b = event_taken(
                a,
                SignalEventView::PollCreated {
                    conv_id: id,
                    timestamp: m.timestamp_ms,
                    poll_data: poll,
                },
                now_ms,
                clock_ms,
            );
            let r = event_taken(b, SignalEventView::MessageReceived(m), now_ms, clock_ms);
            messages_of(r.store, id)[p].poll_data == Some(poll)
        }),
{
    let ts = m.timestamp_ms;
    let s = messages_of(a.store, id);
    reveal(poll_made);
    message_of_time_is_found(s, ts, 0);
    let a1 = event_taken(
        a,
        SignalEventView::PollCreated { conv_id: id, timestamp: ts, poll_data: poll },
        now_ms,
        clock_ms,
    );
    let polls = a.poll.pending_polls;
    waiting_is(polls, id, ts, 0);
    waiting_is(a1.poll.pending_polls, id, ts, 0);
    let w = poll_place(polls, id, ts, 0);
    assert(a1.poll.pending_polls[w].poll == poll);
    assert(a1.poll.pending_polls[w].conv_id == id && a1.poll.pending_polls[w].timestamp_ms == ts);
    assert(poll_place(a1.poll.pending_polls, id, ts, 0) == w) by {
        let v = poll_place(a1.poll.pending_polls, id, ts, 0);
        if v < w {
            assert(a1.poll.pending_polls[v] == polls[v]);
        }
    }
    assert(a1.store == a.store);
    let b = ready_for(a1, m, id);
    assert(b.poll == a1.poll) by {
        reveal(conversation_met);
        reveal(timer_synced);
    }
    met_messages(a1, m, id);
    ready_agrees(a1, m, id);
    let parts = message_parts(b, m, now_ms);
    parts_have_its_time(b, m, now_ms);
    assert(parts.len() == 1);
    let front = parts.drop_last();
    assert(parts_stored(b, id, front, m.quote) == b);
    let x = DisplayMessageView { poll_data: waiting_poll(b, id, ts), ..parts.last() };
    assert(x.poll_data == Some(poll));
    let c = parts_stored(b, id, parts, m.quote);
    assert(c == part_stored(b, id, parts.last(), m.quote));
    let conv = at(b.store.conversations, id);
    slot_finds(s, ts);
    let p1 = slot(s, ts);
    assert(p == p1) by {
        if p < p1 {
            assert(s[p1 - 1].timestamp_ms > ts);
        } else if p1 < p {
            assert(s[p - 1].timestamp_ms > ts);
        }
    }
    look_after_put(
        b.store.conversations,
        id,
        ConversationView { messages: conv.messages.insert(p, x), ..conv },
        id,
    );
    assert(messages_of(c.store, id)[p] == x);
    assert(put_away(a1, m, id, now_ms) == c) by {
        reveal(preview_attached);
    }
    deciding(a1, m, id, now_ms);
}

proof fn storing_keeps_order(
    a: AppView,
    id: Seq<char>,
    parts: Seq<DisplayMessageView>,
    quote: Option<WireQuoteView>,
)
    ensures
        parts_stored(a, id, parts, quote).store.conversation_order == a.store.conversation_order,
    decreases parts.len(),
{
    if parts.len() > 0 {
        storing_keeps_order(a, id, parts.drop_last(), quote);
    }
}

/// A conversation goes to the top of the sidebar when a message comes to it, with every
/// other one kept; a new one is put into the sidebar.
pub proof fn conversations_come_to_the_top(
    a: AppView,
    m: SignalMessageView,
    id: Seq<char>,
    now_ms: i64,
    clock_ms: u64,
)
    requires
        belongs_to(m, id),
    ensures
        ({
            let r = event_taken(a, SignalEventView::MessageReceived(m), now_ms, clock_ms);
            let was = a.store.conversation_order;
            let order = r.store.conversation_order;
            &&& holds(a.store.conversations, id) && was.contains(id) ==> order[0] == id
                && order.to_multiset() == was.to_multiset()
            &&& !holds(a.store.conversations, id) && !was.contains(id) ==> order == was.push(id)
        }),
{
    let was = a.store.conversation_order;
    let b = ready_for(a, m, id);
    let c = parts_stored(b, id, message_parts(b, m, now_ms), m.quote);
    let d = put_away(a, m, id, now_ms);
    let top = crate::conversation_store::moved_to_front(was, id);
    crate::conversation_store::moved_to_front_reorders(was, id);
    crate::conversation_store::text_place_finds(was, id, 0);
    assert(b.store.conversation_order == if holds(a.store.conversations, id) {
        top
    } else {
        top.push(id)
    }) by {
        reveal(conversation_met);
        reveal(timer_synced);
    }
    storing_keeps_order(b, id, message_parts(b, m, now_ms), m.quote);
    assert(d.store.conversation_order == c.store.conversation_order) by {
        reveal(preview_attached);
    }
    deciding(a, m, id, now_ms);
    assert(message_taken(a, m, now_ms).store.conversation_order == d.store.conversation_order) by {
        reveal(seen);
        reveal(notified);
    }
    if !was.contains(id) {
        assert(top == was);
    }
}

/// The name that comes with a message is known from then on, where none was; other
/// names stay.
pub proof fn names_come_with_messages(
    a: AppView,
    m: SignalMessageView,
    id: Seq<char>,
    now_ms: i64,
    clock_ms: u64,
    other: Seq<char>,
)
    requires
        belongs_to(m, id),
    ensures
        ({
            let r = event_taken(a, SignalEventView::MessageReceived(m), now_ms, clock_ms);
            let known = look(a.store.contact_names, other);
            look(r.store.contact_names, other) == if known is None && other == m.source
                && !m.is_outgoing {
                m.source_name
            } else {
                known
            }
        }),
{
    putting_away(a, m, id, now_ms);
    deciding(a, m, id, now_ms);
    let d = put_away(a, m, id, now_ms);
    assert(message_taken(a, m, now_ms).store.contact_names == d.store.contact_names) by {
        reveal(seen);
        reveal(notified);
    }
    if m.source_name is Some {
        look_after_put(a.store.contact_names, m.source, m.source_name->0, other);
    }
}

/// One's own message that says not to whom it went changes nothing.
pub proof fn messages_to_nobody_change_nothing(
    a: AppView,
    m: SignalMessageView,
    now_ms: i64,
    clock_ms: u64,
)
    requires
        m.is_outgoing && m.group_id is None && m.destination is None,
    ensures
        event_taken(a, SignalEventView::MessageReceived(m), now_ms, clock_ms) == a,
{
    reveal(message_taken);
}

} // verus!
