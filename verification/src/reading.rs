//! What is promised of going from one conversation to another.
use crate::app::{AppView, Flag, Overlay, SendRequestView, Setting};
use crate::commands::parted;
use crate::conversation_store::{text_place, text_place_finds, ConversationView, DisplayMessageView};
use crate::keys::KeyCode;
use crate::lists::contacts_key;
use crate::mouse::sidebar_clicked;
use crate::navigation::{
    entered, filter_cleared, joined, left, moved, named_like, receipts_by_sender, receipts_queued,
    wants_receipt,
};
use crate::strmap::{at, holds, look, look_after_put, place_finds, place_is, put};
use crate::text::{contains_text, folded};
use vstd::prelude::*;

verus! {

/// A conversation was opened: it is the active one and nothing of it is unread, and
/// every conversation is else as it was.
pub open spec fn opened_at(a: AppView, b: AppView, id: Seq<char>) -> bool {
    &&& b.active_conversation == Some(id)
    &&& look(b.store.conversations, id) == Some(
        ConversationView { unread: 0, ..look(a.store.conversations, id)->0 },
    )
    &&& forall|k: Seq<char>|
        k != id ==> #[trigger] look(b.store.conversations, k) == look(a.store.conversations, k)
    &&& b.store.conversation_order == a.store.conversation_order
}

proof fn entering_opens(a: AppView, id: Seq<char>)
    requires
        holds(a.store.conversations, id),
    ensures
        opened_at(a, entered(a, id), id),
        entered(a, id).pending.attachment == a.pending.attachment,
        entered(a, id).pending.typing_stop == a.pending.typing_stop,
        entered(a, id).store.last_read_index == a.store.last_read_index,
        entered(a, id).account == a.account,
        entered(a, id).pending.read_receipts == receipts_queued(
            a,
            id,
            match look(a.store.last_read_index, id) {
                Some(i) => i,
                None => 0,
            },
        ).pending.read_receipts,
        entered(a, id).scroll.offset == match look(a.scroll.positions, id) {
            Some(p) => p.0,
            None => 0,
        },
        entered(a, id).scroll.focused_index == match look(a.scroll.positions, id) {
            Some(p) => p.1,
            None => None,
        },
{
    reveal(entered);
    let c = at(a.store.conversations, id);
    let d = ConversationView { unread: 0, ..c };
    let b = entered(a, id);
    assert(b.store.conversations == put(a.store.conversations, id, d));
    look_after_put(a.store.conversations, id, d, id);
    assert forall|k: Seq<char>| k != id implies #[trigger] look(b.store.conversations, k) == look(
        a.store.conversations,
        k,
    ) by {
        look_after_put(a.store.conversations, id, d, k);
    }
}

proof fn name_is_found(s: Seq<(Seq<char>, ConversationView)>, lower: Seq<char>, i: int)
    requires
        0 <= i <= s.len(),
    ensures
        i <= named_like(s, lower, i) <= s.len(),
        named_like(s, lower, i) < s.len() ==> contains_text(
            folded(s[named_like(s, lower, i)].1.name),
            lower,
        ),
        forall|j: int|
            i <= j < named_like(s, lower, i) ==> !contains_text(
                folded((#[trigger] s[j]).1.name),
                lower,
            ),
    decreases s.len() - i,
{
    if i < s.len() && !contains_text(folded(s[i].1.name), lower) {
        name_is_found(s, lower, i + 1);
    }
}

/// Joining opens the conversation of that id where it is there.
pub proof fn joining_opens_the_conversation(a: AppView, id: Seq<char>)
    requires
        holds(a.store.conversations, id),
    ensures
        opened_at(a, joined(a, id), id),
{
    reveal(joined);
    reveal(left);
    entering_opens(left(a), id);
    assert(left(a).store.conversations == a.store.conversations);
}

/// Joining by a part of a name, letter case aside, opens the first conversation
/// whose name holds it, where no conversation has the text as its id.
pub proof fn joining_opens_by_name(a: AppView, target: Seq<char>, i: int)
    requires
        crate::strmap::distinct(a.store.conversations),
        !holds(a.store.conversations, target),
        0 <= i < a.store.conversations.len(),
        contains_text(folded(a.store.conversations[i].1.name), folded(target)),
        forall|j: int|
            0 <= j < i ==> !contains_text(
                folded((#[trigger] a.store.conversations[j]).1.name),
                folded(target),
            ),
    ensures
        opened_at(a, joined(a, target), a.store.conversations[i].0),
{
    reveal(joined);
    reveal(left);
    let s = a.store.conversations;
    let b = left(a);
    assert(b.store.conversations == s);
    name_is_found(s, folded(target), 0);
    assert(named_like(s, folded(target), 0) == i);
    let id = s[i].0;
    place_is(s, id, i);
    entering_opens(b, id);
}

/// Joining a number that no conversation is called by makes a new conversation with
/// it, which is empty and no group, and opens that. Anything else that is not found
/// opens nothing and makes none.
pub proof fn joining_makes_new_ones(a: AppView, target: Seq<char>)
    requires
        !holds(a.store.conversations, target),
        forall|j: int|
            0 <= j < a.store.conversations.len() ==> !contains_text(
                folded((#[trigger] a.store.conversations[j]).1.name),
                folded(target),
            ),
    ensures
        ({
            let b = joined(a, target);
            if target.len() > 0 && target[0] == '+' {
                &&& b.active_conversation == Some(target)
                &&& look(b.store.conversations, target) is Some
                &&& look(b.store.conversations, target)->0.messages.len() == 0
                &&& look(b.store.conversations, target)->0.name == target
                &&& !look(b.store.conversations, target)->0.is_group
                &&& look(b.store.conversations, target)->0.unread == 0
                &&& look(b.store.conversations, target)->0.accepted
                &&& b.store.conversation_order == a.store.conversation_order.push(target)
                &&& forall|k: Seq<char>|
                    k != target ==> #[trigger] look(b.store.conversations, k) == look(
                        a.store.conversations,
                        k,
                    )
            } else {
                &&& b.active_conversation == a.active_conversation
                &&& b.store.conversations == a.store.conversations
                &&& b.status_message == "Conversation not found: "@ + target
            }
        }),
{
    reveal(joined);
    reveal(left);
    let s = a.store.conversations;
    let b = left(a);
    name_is_found(s, folded(target), 0);
    let i = named_like(s, folded(target), 0);
    if i < s.len() {
        assert(!contains_text(folded(s[i].1.name), folded(target)));
    }
    let c = crate::conversation_store::new_conversation(target, target, false);
    assert(s.push((target, c)) == put(s, target, c));
    look_after_put(s, target, c, target);
    assert forall|k: Seq<char>| k != target implies #[trigger] look(put(s, target, c), k) == look(
        s,
        k,
    ) by {
        look_after_put(s, target, c, k);
    }
}

/// Going on in the sidebar opens the conversation below the one that is looked at,
/// or above it, and goes on at the other end behind the last one. From nowhere it
/// opens the first one.
pub proof fn moving_opens_the_neighbour(a: AppView, forward: bool, p: int)
    requires
        a.store.conversation_order.len() > 0,
        forall|j: int|
            0 <= j < a.store.conversation_order.len() ==> holds(
                a.store.conversations,
                #[trigger] a.store.conversation_order[j],
            ),
        match a.active_conversation {
            Some(id) => if a.store.conversation_order.contains(id) {
                0 <= p < a.store.conversation_order.len() && a.store.conversation_order[p] == id
                    && forall|j: int| 0 <= j < p ==> #[trigger] a.store.conversation_order[j] != id
            } else {
                p == -1
            },
            None => p == -1,
        },
    ensures
        ({
            let n = a.store.conversation_order.len();
            let q = if p < 0 {
                0
            } else if forward {
                if p == n - 1 {
                    0
                } else {
                    p + 1
                }
            } else if p == 0 {
                n - 1
            } else {
                p - 1
            };
            opened_at(a, moved(a, forward), a.store.conversation_order[q])
        }),
{
    reveal(moved);
    reveal(left);
    let b = left(filter_cleared(a));
    let order = a.store.conversation_order;
    assert(b.store.conversations == a.store.conversations);
    assert(b.store.conversation_order == order);
    assert(b.active_conversation == a.active_conversation);
    if a.active_conversation is Some {
        let id = a.active_conversation->0;
        text_place_finds(order, id, 0);
        let r = text_place(order, id, 0);
        if order.contains(id) {
            assert(r == p) by {
                assert(order[p] == id);
                if r < p {
                    assert(order[r] == id);
                }
            }
        } else if r < order.len() {
            assert(order[r] == id);
        }
    }
    let q = if forward {
        crate::navigation::next_place(b)
    } else {
        crate::navigation::prev_place(b)
    };
    assert(holds(a.store.conversations, order[q]));
    entering_opens(b, order[q]);
}

/// A click on a row of the sidebar opens the conversation of that row: of those that
/// the filter found where one is typed, else of all.
pub proof fn clicking_opens_the_row(a: AppView, i: int)
    requires
        ({
            let rows = if a.flags.contains(Flag::SidebarFilter) && a.sidebar.filtered.len() > 0 {
                a.sidebar.filtered
            } else {
                a.store.conversation_order
            };
            0 <= i < rows.len() && holds(a.store.conversations, rows[i])
        }),
    ensures
        ({
            let rows = if a.flags.contains(Flag::SidebarFilter) && a.sidebar.filtered.len() > 0 {
                a.sidebar.filtered
            } else {
                a.store.conversation_order
            };
            opened_at(a, sidebar_clicked(a, i), rows[i])
        }),
{
    let rows = if a.flags.contains(Flag::SidebarFilter) && a.sidebar.filtered.len() > 0 {
        a.sidebar.filtered
    } else {
        a.store.conversation_order
    };
    joining_opens_the_conversation(filter_cleared(a), rows[i]);
}

/// Choosing a contact opens the conversation with them, and the list of contacts is
/// closed.
pub proof fn choosing_a_contact_opens_it(a: AppView)
    requires
        a.contacts.index < a.contacts.filtered.len(),
        holds(a.store.conversations, a.contacts.filtered[a.contacts.index as int].0),
    ensures
        opened_at(
            a,
            contacts_key(a, KeyCode::Enter),
            a.contacts.filtered[a.contacts.index as int].0,
        ),
{
    reveal(contacts_key);
    let b = crate::lists::contacts_filter_set(a.closed(Overlay::Contacts), Seq::empty());
    joining_opens_the_conversation(b, a.contacts.filtered[a.contacts.index as int].0);
}

/// A conversation that is left counts as read to its end, and that is written; what
/// was to be attached is dropped, and where one was typing there the service is told
/// that one has stopped.
pub proof fn leaving_marks_read(a: AppView, id: Seq<char>, target: Seq<char>)
    requires
        a.active_conversation == Some(id),
        holds(a.store.conversations, id),
        holds(a.store.conversations, target),
    ensures
        ({
            let b = joined(a, target);
            &&& look(b.store.last_read_index, id) == Some(
                look(a.store.conversations, id)->0.messages.len() as usize,
            )
            &&& b.pending.attachment is None
            &&& a.flags.contains(Flag::TypingSent) ==> b.pending.typing_stop == Some(
                SendRequestView::Typing {
                    recipient: id,
                    is_group: look(a.store.conversations, id)->0.is_group,
                    stop: true,
                },
            )
            &&& !a.flags.contains(Flag::TypingSent) ==> b.pending.typing_stop
                == a.pending.typing_stop
            &&& !b.flags.contains(Flag::TypingSent)
        }),
{
    reveal(joined);
    reveal(left);
    entering_opens(left(a), target);
    look_after_put(
        a.store.last_read_index,
        id,
        at(a.store.conversations, id).messages.len() as usize,
        id,
    );
    reveal(entered);
}

/// A message asks to be told that it was read: it came in, from somebody.
pub open spec fn asks_receipt(m: DisplayMessageView, account: Seq<char>) -> bool {
    m.status is None && !m.is_system && m.sender_id.len() > 0 && m.sender_id != account
}

/// One of some receipts is for a message.
pub open spec fn receipt_for(
    s: Seq<(Seq<char>, Seq<i64>)>,
    sender: Seq<char>,
    ts: i64,
) -> bool {
    exists|i: int| 0 <= i < s.len() && (#[trigger] s[i]).0 == sender && s[i].1.contains(ts)
}

proof fn grouping_keeps_all(msgs: Seq<DisplayMessageView>, account: Seq<char>)
    ensures
        forall|sender: Seq<char>, ts: i64|
            #[trigger] receipt_for(receipts_by_sender(msgs, account), sender, ts) <==> exists|j: int|
                0 <= j < msgs.len() && asks_receipt(#[trigger] msgs[j], account)
                    && msgs[j].sender_id == sender && msgs[j].timestamp_ms == ts,
    decreases msgs.len(),
{
    let s = receipts_by_sender(msgs, account);
    if msgs.len() > 0 {
        let front = msgs.drop_last();
        let m = msgs.last();
        let before = receipts_by_sender(front, account);
        grouping_keeps_all(front, account);
        place_finds(before, m.sender_id);
        let p = crate::strmap::place(before, m.sender_id);
        assert(wants_receipt(m, account) == asks_receipt(m, account));
        assert forall|sender: Seq<char>, ts: i64| #[trigger] receipt_for(s, sender, ts) == (
        receipt_for(before, sender, ts) || (asks_receipt(m, account) && m.sender_id == sender
            && m.timestamp_ms == ts)) by {
            if asks_receipt(m, account) {
                if holds(before, m.sender_id) {
                    let times = at(before, m.sender_id);
                    let more = times.push(m.timestamp_ms);
                    assert(s == before.update(p, (m.sender_id, more)));
                    assert(more[times.len() as int] == m.timestamp_ms);
                    if receipt_for(s, sender, ts) {
                        let i = choose|i: int|
                            0 <= i < s.len() && (#[trigger] s[i]).0 == sender && s[i].1.contains(ts);
                        if i == p {
                            let n = choose|n: int| 0 <= n < more.len() && more[n] == ts;
                            if n < times.len() {
                                assert(times[n] == ts);
                                assert(times.contains(ts));
                                assert(before[p].0 == sender);
                            }
                        } else {
                            assert(before[i] == s[i]);
                        }
                    }
                    if receipt_for(before, sender, ts) {
                        let i = choose|i: int|
                            0 <= i < before.len() && (#[trigger] before[i]).0 == sender
                                && before[i].1.contains(ts);
                        if i == p {
                            let n = choose|n: int| 0 <= n < times.len() && times[n] == ts;
                            assert(more[n] == ts);
                            assert(s[p].1.contains(ts));
                        } else {
                            assert(s[i] == before[i]);
                        }
                    }
                    if m.sender_id == sender && m.timestamp_ms == ts {
                        assert(s[p].1.contains(ts));
                    }
                } else {
                    let one = seq![m.timestamp_ms];
                    assert(s == before.push((m.sender_id, one)));
                    assert(one[0] == m.timestamp_ms);
                    if receipt_for(s, sender, ts) {
                        let i = choose|i: int|
                            0 <= i < s.len() && (#[trigger] s[i]).0 == sender && s[i].1.contains(ts);
                        if i < before.len() {
                            assert(before[i] == s[i]);
                        }
                    }
                    if receipt_for(before, sender, ts) {
                        let i = choose|i: int|
                            0 <= i < before.len() && (#[trigger] before[i]).0 == sender
                                && before[i].1.contains(ts);
                        assert(s[i] == before[i]);
                    }
                    if m.sender_id == sender && m.timestamp_ms == ts {
                        assert(s[before.len() as int].1.contains(ts));
                    }
                }
            }
        }
        assert forall|sender: Seq<char>, ts: i64| #[trigger] receipt_for(s, sender, ts) <==> exists|
            j: int,
        |
            0 <= j < msgs.len() && asks_receipt(#[trigger] msgs[j], account) && msgs[j].sender_id
                == sender && msgs[j].timestamp_ms == ts by {
            assert(receipt_for(s, sender, ts) == (receipt_for(before, sender, ts) || (asks_receipt(
                m,
                account,
            ) && m.sender_id == sender && m.timestamp_ms == ts)));
            if receipt_for(before, sender, ts) {
                let j = choose|j: int|
                    0 <= j < front.len() && asks_receipt(#[trigger] front[j], account)
                        && front[j].sender_id == sender && front[j].timestamp_ms == ts;
                assert(msgs[j] == front[j]);
            }
            if asks_receipt(m, account) && m.sender_id == sender && m.timestamp_ms == ts {
                assert(msgs[msgs.len() - 1] == m);
            }
            if exists|j: int|
                0 <= j < msgs.len() && asks_receipt(#[trigger] msgs[j], account)
                    && msgs[j].sender_id == sender && msgs[j].timestamp_ms == ts {
                let j = choose|j: int|
                    0 <= j < msgs.len() && asks_receipt(#[trigger] msgs[j], account)
                        && msgs[j].sender_id == sender && msgs[j].timestamp_ms == ts;
                if j < front.len() {
                    assert(front[j] == msgs[j]);
                }
            }
        }
    }
}

/// Opening a conversation has read receipts sent for exactly the messages of others
/// that were not read there, each to its sender: where that is switched on and the
/// conversation was accepted and is not blocked. Receipts that wait already stay.
pub proof fn opening_sends_read_receipts(
    a: AppView,
    id: Seq<char>,
    sender: Seq<char>,
    ts: i64,
)
    requires
        holds(a.store.conversations, id),
        a.active_conversation != Some(id),
    ensures
        ({
            let b = joined(a, id);
            let c = look(a.store.conversations, id)->0;
            let start = match look(a.store.last_read_index, id) {
                Some(i) => i as int,
                None => 0,
            };
            let n = a.pending.read_receipts.len() as int;
            &&& b.pending.read_receipts.len() >= n
            &&& b.pending.read_receipts.take(n) == a.pending.read_receipts
            &&& receipt_for(b.pending.read_receipts.skip(n), sender, ts) <==> a.settings.contains(
                Setting::SendReadReceipts,
            ) && c.accepted && !a.blocked.contains(id) && exists|j: int|
                start <= j < c.messages.len() && asks_receipt(#[trigger] c.messages[j], a.account)
                    && c.messages[j].sender_id == sender && c.messages[j].timestamp_ms == ts
        }),
{
    reveal(joined);
    reveal(left);
    let l = left(a);
    entering_opens(l, id);
    let b = joined(a, id);
    let c = at(a.store.conversations, id);
    let start = match look(a.store.last_read_index, id) {
        Some(i) => i as int,
        None => 0,
    };
    assert(look(l.store.last_read_index, id) == look(a.store.last_read_index, id)) by {
        if a.active_conversation is Some && holds(
            a.store.conversations,
            a.active_conversation->0,
        ) {
            look_after_put(
                a.store.last_read_index,
                a.active_conversation->0,
                at(a.store.conversations, a.active_conversation->0).messages.len() as usize,
                id,
            );
        }
    }
    let rest = c.messages.skip(start);
    let queued = receipts_by_sender(rest, a.account);
    let n = a.pending.read_receipts.len() as int;
    let sent = a.settings.contains(Setting::SendReadReceipts) && c.accepted && !a.blocked.contains(
        id,
    ) && start < c.messages.len();
    let r = b.pending.read_receipts;
    assert(l.pending.read_receipts == a.pending.read_receipts);
    if sent {
        assert(r == a.pending.read_receipts + queued);
        assert(r.take(n) =~= a.pending.read_receipts);
        assert(r.skip(n) =~= queued);
        grouping_keeps_all(rest, a.account);
        assert(receipt_for(queued, sender, ts) <==> exists|j: int|
            0 <= j < rest.len() && asks_receipt(#[trigger] rest[j], a.account)
                && rest[j].sender_id == sender && rest[j].timestamp_ms == ts);
        if receipt_for(queued, sender, ts) {
            let j = choose|j: int|
                0 <= j < rest.len() && asks_receipt(#[trigger] rest[j], a.account)
                    && rest[j].sender_id == sender && rest[j].timestamp_ms == ts;
            assert(c.messages[start + j] == rest[j]);
        }
        if exists|j: int|
            start <= j < c.messages.len() && asks_receipt(#[trigger] c.messages[j], a.account)
                && c.messages[j].sender_id == sender && c.messages[j].timestamp_ms == ts {
            let j = choose|j: int|
                start <= j < c.messages.len() && asks_receipt(#[trigger] c.messages[j], a.account)
                    && c.messages[j].sender_id == sender && c.messages[j].timestamp_ms == ts;
            assert(rest[j - start] == c.messages[j]);
        }
    } else {
        assert(r == a.pending.read_receipts);
        assert(r.take(n) =~= r);
        assert(r.skip(n) =~= Seq::<(Seq<char>, Seq<i64>)>::empty());
    }
}

/// Leaving a conversation for none leaves all conversations as they were, and opens
/// none.
pub proof fn parting_opens_none(a: AppView)
    ensures
        parted(a).active_conversation is None,
        parted(a).store == a.store,
        parted(a).scroll.offset == 0,
        parted(a).scroll.focused_index is None,
{
    reveal(parted);
}

/// Coming back to a conversation shows it where it was scrolled to.
pub proof fn scroll_is_kept(a: AppView, id: Seq<char>, other: Seq<char>)
    requires
        a.active_conversation == Some(id),
        holds(a.store.conversations, id),
        holds(a.store.conversations, other),
        id != other,
    ensures
        joined(joined(a, other), id).scroll.offset == a.scroll.offset,
        joined(joined(a, other), id).scroll.focused_index == a.scroll.focused_index,
{
    reveal(joined);
    reveal(left);
    let b = joined(a, other);
    entering_opens(left(a), other);
    reveal(entered);
    look_after_put(
        a.scroll.positions,
        id,
        (a.scroll.offset, a.scroll.focused_index),
        id,
    );
    assert(b.scroll.positions == left(a).scroll.positions);
    assert(b.store.conversations == put(
        a.store.conversations,
        other,
        ConversationView { unread: 0, ..at(a.store.conversations, other) },
    ));
    look_after_put(
        a.store.conversations,
        other,
        ConversationView { unread: 0, ..at(a.store.conversations, other) },
        id,
    );
    entering_opens(left(b), id);
    look_after_put(
        b.scroll.positions,
        other,
        (b.scroll.offset, b.scroll.focused_index),
        id,
    );
}

} // verus!
