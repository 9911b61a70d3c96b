//! What is promised of the status of messages that were sent.
use crate::app::{AppView, PendingStateView};
use crate::arrivals::messages_of;
use crate::conversation_store::{slot, slot_finds, ConversationView, DisplayMessageView};
use crate::events::event_taken;
use crate::places::{changing_changes_only, message_of_time_is_found, newest_at, only_changed};
use crate::receipts::{
    any_matches, any_matches_anywhere, conversation_of, moves_on, own_message, receipt_status,
    receipted, receipts_anywhere, receipts_in, receipts_taken, same_times_same_slot, send_answered,
    send_failed,
};
use crate::signal::{MessageStatus, SignalEventView};
use crate::strmap::{
    at, distinct, holds, look, look_after_del, look_after_put, place_finds, place_is, put,
};
use crate::text::capitals;
use vstd::prelude::*;

verus! {

/// A kind of receipt tells a status, letter case aside.
pub open spec fn tells(kind: Seq<char>, status: MessageStatus) -> bool {
    ||| capitals(kind) == "DELIVERY"@ && status == MessageStatus::Delivered
    ||| capitals(kind) == "READ"@ && status == MessageStatus::Read
    ||| capitals(kind) == "VIEWED"@ && status == MessageStatus::Viewed
}

/// How far a message has come. A message that failed has not left.
pub open spec fn step_of(s: MessageStatus) -> int {
    match s {
        MessageStatus::Failed => 0,
        MessageStatus::Sending => 1,
        MessageStatus::Sent => 2,
        MessageStatus::Delivered => 3,
        MessageStatus::Read => 4,
        MessageStatus::Viewed => 5,
    }
}

/// One's own message of a time stands at a place.
pub open spec fn own_at(s: Seq<DisplayMessageView>, ts: i64, i: int) -> bool {
    newest_at(s, ts, i) && s[i].sender == "you"@
}

/// A status after a receipt: the further one. What has none gets none.
pub open spec fn moved_on(cur: Option<MessageStatus>, status: MessageStatus) -> Option<MessageStatus> {
    match cur {
        Some(c) => if step_of(status) > step_of(c) {
            Some(status)
        } else {
            Some(c)
        },
        None => None,
    }
}

proof fn kinds_tell(kind: Seq<char>, status: MessageStatus)
    requires
        tells(kind, status),
    ensures
        receipt_status(kind) == Some(status),
{
    reveal_strlit("DELIVERY");
    reveal_strlit("READ");
    reveal_strlit("VIEWED");
    assert("DELIVERY"@.len() == 8 && "READ"@.len() == 4 && "VIEWED"@.len() == 6);
}

type Conversations = Seq<(Seq<char>, ConversationView)>;

proof fn own_is_found(s: Seq<DisplayMessageView>, ts: i64, i: int)
    ensures
        own_at(s, ts, i) <==> own_message(s, ts) == Some(i),
{
    message_of_time_is_found(s, ts, i);
}

/// Two lists of messages differ in nothing but what became of them.
spec fn same_but_status(s: Seq<DisplayMessageView>, t: Seq<DisplayMessageView>) -> bool {
    s.len() == t.len() && forall|i: int|
        0 <= i < s.len() ==> #[trigger] t[i] == (DisplayMessageView { status: t[i].status, ..s[i] })
}

proof fn same_own(s: Seq<DisplayMessageView>, t: Seq<DisplayMessageView>, ts: i64)
    requires
        same_but_status(s, t),
    ensures
        own_message(s, ts) == own_message(t, ts),
{
    assert forall|i: int| 0 <= i < s.len() implies (#[trigger] s[i]).timestamp_ms
        == t[i].timestamp_ms by {
        assert(t[i] == (DisplayMessageView { status: t[i].status, ..s[i] }));
    }
    same_times_same_slot(s, t, ts);
    slot_finds(s, ts);
    let p = slot(s, ts);
    if p > 0 {
        assert(t[p - 1] == (DisplayMessageView { status: t[p - 1].status, ..s[p - 1] }));
    }
}

proof fn same_home(s: Conversations, t: Conversations, ts: i64, i: int)
    requires
        0 <= i <= s.len(),
        s.len() == t.len(),
        forall|c: int|
            0 <= c < s.len() ==> same_but_status((#[trigger] s[c]).1.messages, t[c].1.messages),
    ensures
        conversation_of(s, ts, i) == conversation_of(t, ts, i),
    decreases s.len() - i,
{
    if i < s.len() {
        same_own(s[i].1.messages, t[i].1.messages, ts);
        same_home(s, t, ts, i + 1);
    }
}

proof fn home_is(s: Conversations, ts: i64, i: int)
    requires
        0 <= i <= s.len(),
    ensures
        i <= conversation_of(s, ts, i) <= s.len(),
        conversation_of(s, ts, i) < s.len() ==> own_message(
            s[conversation_of(s, ts, i)].1.messages,
            ts,
        ) is Some,
        forall|c: int|
            i <= c < conversation_of(s, ts, i) ==> own_message(
                (#[trigger] s[c]).1.messages,
                ts,
            ) is None,
    decreases s.len() - i,
{
    if i < s.len() && own_message(s[i].1.messages, ts) is None {
        home_is(s, ts, i + 1);
    }
}

/// Message `i` of conversation `c` is the first of one's own with one of the times.
spec fn reached(s: Conversations, times: Seq<i64>, c: int, i: int) -> bool {
    exists|k: int|
        0 <= k < times.len() && conversation_of(s, #[trigger] times[k], 0) == c && own_message(
            s[c].1.messages,
            times[k],
        ) == Some(i)
}

/// Message `i` of a conversation is one's own with one of the times.
spec fn reached_in(s: Seq<DisplayMessageView>, times: Seq<i64>, i: int) -> bool {
    exists|k: int| 0 <= k < times.len() && own_message(s, #[trigger] times[k]) == Some(i)
}

spec fn advanced(m: DisplayMessageView, yes: bool, status: MessageStatus) -> DisplayMessageView {
    DisplayMessageView {
        status: if yes {
            moved_on(m.status, status)
        } else {
            m.status
        },
        ..m
    }
}

/// A conversation with some of its messages moved on.
spec fn lifted(c: ConversationView, d: ConversationView, yes: spec_fn(int) -> bool, status: MessageStatus) -> bool {
    &&& d == (ConversationView { messages: d.messages, ..c })
    &&& d.messages.len() == c.messages.len()
    &&& forall|i: int|
        0 <= i < c.messages.len() ==> #[trigger] d.messages[i] == advanced(
            c.messages[i],
            yes(i),
            status,
        )
}

proof fn lifted_is_same(c: ConversationView, d: ConversationView, yes: spec_fn(int) -> bool, status: MessageStatus)
    requires
        lifted(c, d, yes, status),
    ensures
        same_but_status(c.messages, d.messages),
{
    assert forall|i: int| 0 <= i < c.messages.len() implies #[trigger] d.messages[i] == (
    DisplayMessageView { status: d.messages[i].status, ..c.messages[i] }) by {
        assert(d.messages[i] == advanced(c.messages[i], yes(i), status));
    }
}

/// One more receipt for a conversation some of whose messages were moved on.
proof fn lifted_once_more(
    c: ConversationView,
    d: ConversationView,
    yes: spec_fn(int) -> bool,
    now: spec_fn(int) -> bool,
    ts: i64,
    status: MessageStatus,
)
    requires
        lifted(c, d, yes, status),
        forall|i: int|
            0 <= i < c.messages.len() ==> (#[trigger] now(i) == (yes(i) || own_message(
                c.messages,
                ts,
            ) == Some(i))),
    ensures
        lifted(c, receipted(d, ts, status), now, status),
{
    lifted_is_same(c, d, yes, status);
    same_own(c.messages, d.messages, ts);
    message_of_time_is_found(d.messages, ts, 0);
    let e = receipted(d, ts, status);
    assert forall|i: int| 0 <= i < c.messages.len() implies #[trigger] e.messages[i] == advanced(
        c.messages[i],
        now(i),
        status,
    ) by {
        assert(d.messages[i] == advanced(c.messages[i], yes(i), status));
        assert(now(i) == (yes(i) || own_message(c.messages, ts) == Some(i)));
        if own_message(d.messages, ts) == Some(i) {
            if moves_on(d.messages[i], status) {
                assert(e.messages[i] == (DisplayMessageView {
                    status: Some(status),
                    ..d.messages[i]
                }));
            } else {
                assert(e.messages[i] == d.messages[i]);
            }
        } else {
            assert(e.messages[i] == d.messages[i]);
        }
    }
}

proof fn lifted_by_nothing(c: ConversationView, status: MessageStatus, yes: spec_fn(int) -> bool)
    requires
        forall|i: int| 0 <= i < c.messages.len() ==> !(#[trigger] yes(i)),
    ensures
        lifted(c, c, yes, status),
{
    assert forall|i: int| 0 <= i < c.messages.len() implies #[trigger] c.messages[i] == advanced(
        c.messages[i],
        yes(i),
        status,
    ) by {
        assert(!yes(i));
    }
}

proof fn receipts_lift_in(a: AppView, id: Seq<char>, times: Seq<i64>, status: MessageStatus)
    requires
        holds(a.store.conversations, id),
    ensures
        ({
            let s = a.store.conversations;
            let b = receipts_in(a, id, times, status);
            &&& holds(b.store.conversations, id)
            &&& lifted(
                at(s, id),
                at(b.store.conversations, id),
                |i: int| reached_in(at(s, id).messages, times, i),
                status,
            )
            &&& forall|k: Seq<char>|
                k != id ==> #[trigger] look(b.store.conversations, k) == look(s, k)
            &&& b.pending == a.pending
            &&& b.active_conversation == a.active_conversation
            &&& any_matches(a, id, times, status) <==> exists|k: int|
                0 <= k < times.len() && own_message(at(s, id).messages, #[trigger] times[k]) is Some
            &&& b.store.conversations.len() == s.len()
            &&& forall|c: int|
                0 <= c < s.len() && c != crate::strmap::place(s, id) ==> b.store.conversations[c]
                    == #[trigger] s[c]
            &&& crate::strmap::place(b.store.conversations, id) == crate::strmap::place(s, id)
        }),
    decreases times.len(),
{
    let s = a.store.conversations;
    let c = at(s, id);
    let yes = |i: int| reached_in(c.messages, times, i);
    if times.len() == 0 {
        lifted_by_nothing(c, status, yes);
    } else {
        let front = times.drop_last();
        let ts = times.last();
        let before = |i: int| reached_in(c.messages, front, i);
        receipts_lift_in(a, id, front, status);
        let b = receipts_in(a, id, front, status);
        let d = at(b.store.conversations, id);
        lifted_is_same(c, d, before, status);
        same_own(c.messages, d.messages, ts);
        assert forall|i: int| 0 <= i < c.messages.len() implies (#[trigger] yes(i) == (before(i)
            || own_message(c.messages, ts) == Some(i))) by {
            if yes(i) {
                let k = choose|k: int|
                    0 <= k < times.len() && own_message(c.messages, #[trigger] times[k]) == Some(i);
                if k < front.len() {
                    assert(front[k] == times[k]);
                }
            }
            if before(i) {
                let k = choose|k: int|
                    0 <= k < front.len() && own_message(c.messages, #[trigger] front[k]) == Some(i);
                assert(times[k] == front[k]);
            }
            if own_message(c.messages, ts) == Some(i) {
                assert(times[times.len() - 1] == ts);
            }
        }
        lifted_once_more(c, d, before, yes, ts, status);
        let e = receipts_in(a, id, times, status);
        assert(e.store.conversations == put(
            b.store.conversations,
            id,
            receipted(d, ts, status),
        ));
        look_after_put(b.store.conversations, id, receipted(d, ts, status), id);
        place_finds(b.store.conversations, id);
        place_finds(s, id);
        place_is(e.store.conversations, id, crate::strmap::place(s, id));
        assert forall|k: Seq<char>| k != id implies #[trigger] look(e.store.conversations, k)
            == look(s, k) by {
            look_after_put(b.store.conversations, id, receipted(d, ts, status), k);
            assert(look(b.store.conversations, k) == look(s, k));
        }
        if exists|k: int| 0 <= k < times.len() && own_message(c.messages, #[trigger] times[k]) is Some {
            let k = choose|k: int|
                0 <= k < times.len() && own_message(c.messages, #[trigger] times[k]) is Some;
            if k < front.len() {
                assert(front[k] == times[k]);
            }
        }
        if exists|k: int| 0 <= k < front.len() && own_message(c.messages, #[trigger] front[k]) is Some {
            let k = choose|k: int|
                0 <= k < front.len() && own_message(c.messages, #[trigger] front[k]) is Some;
            assert(times[k] == front[k]);
        }
        if own_message(c.messages, ts) is Some {
            assert(times[times.len() - 1] == ts);
        }
    }
}

proof fn receipts_lift_anywhere(a: AppView, times: Seq<i64>, status: MessageStatus)
    ensures
        ({
            let s = a.store.conversations;
            let b = receipts_anywhere(a, times, status);
            let t = b.store.conversations;
            &&& t.len() == s.len()
            &&& forall|c: int| 0 <= c < s.len() ==> (#[trigger] t[c]).0 == s[c].0
            &&& forall|c: int|
                0 <= c < s.len() ==> lifted(
                    s[c].1,
                    (#[trigger] t[c]).1,
                    |i: int| reached(s, times, c, i),
                    status,
                )
            &&& b.pending == a.pending
            &&& b.active_conversation == a.active_conversation
            &&& any_matches_anywhere(a, times, status) <==> exists|k: int|
                0 <= k < times.len() && conversation_of(s, #[trigger] times[k], 0) < s.len()
        }),
    decreases times.len(),
{
    let s = a.store.conversations;
    if times.len() == 0 {
        assert forall|c: int| 0 <= c < s.len() implies lifted(
            s[c].1,
            (#[trigger] s[c]).1,
            |i: int| reached(s, times, c, i),
            status,
        ) by {
            lifted_by_nothing(s[c].1, status, |i: int| reached(s, times, c, i));
        }
    } else {
        let front = times.drop_last();
        let ts = times.last();
        receipts_lift_anywhere(a, front, status);
        let b = receipts_anywhere(a, front, status);
        let t = b.store.conversations;
        assert forall|c: int| 0 <= c < s.len() implies same_but_status(
            (#[trigger] s[c]).1.messages,
            t[c].1.messages,
        ) by {
            lifted_is_same(s[c].1, t[c].1, |i: int| reached(s, front, c, i), status);
        }
        same_home(s, t, ts, 0);
        home_is(s, ts, 0);
        let h = conversation_of(s, ts, 0);
        let e = receipts_anywhere(a, times, status);
        let u = e.store.conversations;
        assert forall|c: int| 0 <= c < s.len() implies lifted(
            s[c].1,
            (#[trigger] u[c]).1,
            |i: int| reached(s, times, c, i),
            status,
        ) && u[c].0 == s[c].0 by {
            let before = |i: int| reached(s, front, c, i);
            let yes = |i: int| reached(s, times, c, i);
            assert(lifted(s[c].1, t[c].1, before, status));
            assert(t[c].0 == s[c].0);
            assert forall|i: int| 0 <= i < s[c].1.messages.len() implies (#[trigger] yes(i) == (
            before(i) || (h == c && own_message(s[c].1.messages, ts) == Some(i)))) by {
                if yes(i) {
                    let k = choose|k: int|
                        0 <= k < times.len() && conversation_of(s, #[trigger] times[k], 0) == c
                            && own_message(s[c].1.messages, times[k]) == Some(i);
                    if k < front.len() {
                        assert(front[k] == times[k]);
                    }
                }
                if before(i) {
                    let k = choose|k: int|
                        0 <= k < front.len() && conversation_of(s, #[trigger] front[k], 0) == c
                            && own_message(s[c].1.messages, front[k]) == Some(i);
                    assert(times[k] == front[k]);
                }
                if h == c && own_message(s[c].1.messages, ts) == Some(i) {
                    assert(times[times.len() - 1] == ts);
                }
            }
            if h == c {
                assert(u[c].1 == receipted(t[c].1, ts, status));
                lifted_once_more(s[c].1, t[c].1, before, yes, ts, status);
            } else {
                assert(u[c] == t[c]);
                assert forall|i: int| 0 <= i < s[c].1.messages.len() implies
                    #[trigger] u[c].1.messages[i] == advanced(s[c].1.messages[i], yes(i), status) by {
                    assert(t[c].1.messages[i] == advanced(s[c].1.messages[i], before(i), status));
                    assert(yes(i) == before(i));
                }
            }
        }
        if exists|k: int| 0 <= k < times.len() && conversation_of(s, #[trigger] times[k], 0) < s.len() {
            let k = choose|k: int|
                0 <= k < times.len() && conversation_of(s, #[trigger] times[k], 0) < s.len();
            if k < front.len() {
                assert(front[k] == times[k]);
            }
        }
        if exists|k: int| 0 <= k < front.len() && conversation_of(s, #[trigger] front[k], 0) < s.len() {
            let k = choose|k: int|
                0 <= k < front.len() && conversation_of(s, #[trigger] front[k], 0) < s.len();
            assert(times[k] == front[k]);
        }
        if h < s.len() {
            assert(times[times.len() - 1] == ts);
        }
    }
}

/// Some message of one's own has one of the times.
pub open spec fn any_own(s: Seq<DisplayMessageView>, times: Seq<i64>) -> bool {
    exists|k: int, i: int| 0 <= k < times.len() && own_at(s, #[trigger] times[k], i) && #[trigger] is_place(s, i)
}

/// A place is one of a list.
pub open spec fn is_place(s: Seq<DisplayMessageView>, i: int) -> bool {
    0 <= i < s.len()
}

/// Message `i` is one's own with one of the times.
pub open spec fn meant(s: Seq<DisplayMessageView>, times: Seq<i64>, i: int) -> bool {
    exists|k: int| 0 <= k < times.len() && own_at(s, #[trigger] times[k], i)
}

proof fn meant_is_reached(s: Seq<DisplayMessageView>, times: Seq<i64>, i: int)
    ensures
        meant(s, times, i) == reached_in(s, times, i),
{
    if meant(s, times, i) {
        let k = choose|k: int| 0 <= k < times.len() && own_at(s, #[trigger] times[k], i);
        own_is_found(s, times[k], i);
    }
    if reached_in(s, times, i) {
        let k = choose|k: int| 0 <= k < times.len() && own_message(s, #[trigger] times[k]) == Some(i);
        own_is_found(s, times[k], i);
    }
}

proof fn any_own_is_found(s: Seq<DisplayMessageView>, times: Seq<i64>)
    ensures
        any_own(s, times) <==> exists|k: int|
            0 <= k < times.len() && own_message(s, #[trigger] times[k]) is Some,
{
    if any_own(s, times) {
        let (k, i) = choose|k: int, i: int|
            0 <= k < times.len() && own_at(s, #[trigger] times[k], i) && #[trigger] is_place(s, i);
        own_is_found(s, times[k], i);
    }
    if exists|k: int| 0 <= k < times.len() && own_message(s, #[trigger] times[k]) is Some {
        let k = choose|k: int| 0 <= k < times.len() && own_message(s, #[trigger] times[k]) is Some;
        let i = own_message(s, times[k])->0;
        own_is_found(s, times[k], i);
        assert(is_place(s, i));
    }
}

/// Where the conversation with who sent receipts holds a message of one's own with
/// one of their times, every such message there gets the status that the receipts
/// tell, unless it is further already. Nothing else changes, and no receipt is kept
/// for later.
pub proof fn receipts_move_messages_on(
    a: AppView,
    sender: Seq<char>,
    kind: Seq<char>,
    times: Seq<i64>,
    status: MessageStatus,
    now_ms: i64,
    clock_ms: u64,
)
    requires
        tells(kind, status),
        any_own(messages_of(a.store, sender), times),
    ensures
        ({
            let r = event_taken(
                a,
                SignalEventView::ReceiptReceived { sender, receipt_type: kind, timestamps: times },
                now_ms,
                clock_ms,
            );
            let s = messages_of(a.store, sender);
            let t = messages_of(r.store, sender);
            &&& t.len() == s.len()
            &&& forall|i: int|
                0 <= i < s.len() ==> #[trigger] t[i] == (DisplayMessageView {
                    status: if meant(s, times, i) {
                        moved_on(s[i].status, status)
                    } else {
                        s[i].status
                    },
                    ..s[i]
                })
            &&& forall|k: Seq<char>|
                k != sender ==> #[trigger] look(r.store.conversations, k) == look(
                    a.store.conversations,
                    k,
                )
            &&& r.pending.receipts == a.pending.receipts
        }),
{
    reveal(receipts_taken);
    kinds_tell(kind, status);
    let s = messages_of(a.store, sender);
    any_own_is_found(s, times);
    receipts_lift_in(a, sender, times, status);
    let b = receipts_in(a, sender, times, status);
    let t = messages_of(b.store, sender);
    assert forall|i: int| 0 <= i < s.len() implies #[trigger] t[i] == (DisplayMessageView {
        status: if meant(s, times, i) {
            moved_on(s[i].status, status)
        } else {
            s[i].status
        },
        ..s[i]
    }) by {
        meant_is_reached(s, times, i);
        let yes = |i: int| reached_in(at(a.store.conversations, sender).messages, times, i);
        assert(t[i] == advanced(s[i], yes(i), status));
    }
}

/// Receipts for messages that the conversation with their sender does not hold leave
/// that conversation alone.
proof fn nothing_in_the_direct_one(
    a: AppView,
    sender: Seq<char>,
    times: Seq<i64>,
    status: MessageStatus,
)
    requires
        !any_own(messages_of(a.store, sender), times),
    ensures
        receipts_in(a, sender, times, status).store.conversations =~= a.store.conversations,
        receipts_in(a, sender, times, status).pending == a.pending,
        !any_matches(a, sender, times, status),
{
    let s = messages_of(a.store, sender);
    let b = receipts_in(a, sender, times, status);
    if holds(a.store.conversations, sender) {
        any_own_is_found(s, times);
        receipts_lift_in(a, sender, times, status);
        let c = at(a.store.conversations, sender);
        let d = at(b.store.conversations, sender);
        let yes = |i: int| reached_in(c.messages, times, i);
        assert forall|i: int| 0 <= i < c.messages.len() implies #[trigger] d.messages[i]
            == c.messages[i] by {
            assert(d.messages[i] == advanced(c.messages[i], yes(i), status));
            if yes(i) {
                let k = choose|k: int|
                    0 <= k < times.len() && own_message(c.messages, #[trigger] times[k]) == Some(i);
                assert(own_message(s, times[k]) is Some);
            }
        }
        assert(d.messages =~= c.messages);
        assert(d == c);
        place_finds(a.store.conversations, sender);
        place_finds(b.store.conversations, sender);
        assert forall|j: int| 0 <= j < a.store.conversations.len() implies b.store.conversations[j]
            == #[trigger] a.store.conversations[j] by {}
    } else {
        nobody_there(a, sender, times, status);
    }
}

proof fn nobody_there(a: AppView, id: Seq<char>, times: Seq<i64>, status: MessageStatus)
    requires
        !holds(a.store.conversations, id),
    ensures
        receipts_in(a, id, times, status) == a,
        !any_matches(a, id, times, status),
    decreases times.len(),
{
    if times.len() > 0 {
        nobody_there(a, id, times.drop_last(), status);
    }
}

/// Where the conversation with who sent receipts holds no message that is meant,
/// they are for one in a group: for each of the times, one's own message with it in
/// the first conversation that holds one gets the status that the receipts tell,
/// unless it is further already. A message with none of the times stays as it is, of
/// no message anything but the status changes, and no receipt is kept for later.
pub proof fn receipts_reach_groups(
    a: AppView,
    sender: Seq<char>,
    kind: Seq<char>,
    times: Seq<i64>,
    status: MessageStatus,
    now_ms: i64,
    clock_ms: u64,
    k: int,
    c: int,
    i: int,
)
    requires
        tells(kind, status),
        !any_own(messages_of(a.store, sender), times),
        0 <= k < times.len(),
        0 <= c < a.store.conversations.len(),
        own_at(a.store.conversations[c].1.messages, times[k], i),
        forall|d: int, j: int|
            0 <= d < c ==> !own_at((#[trigger] a.store.conversations[d]).1.messages, times[k], j) || !(
            #[trigger] is_place(a.store.conversations[d].1.messages, j)),
    ensures
        ({
            let r = event_taken(
                a,
                SignalEventView::ReceiptReceived { sender, receipt_type: kind, timestamps: times },
                now_ms,
                clock_ms,
            );
            let s = a.store.conversations;
            let t = r.store.conversations;
            &&& t.len() == s.len()
            &&& t[c].1.messages[i].status == moved_on(s[c].1.messages[i].status, status)
            &&& forall|d: int| 0 <= d < s.len() ==> (#[trigger] t[d]).0 == s[d].0
            &&& forall|d: int, j: int|
                0 <= d < s.len() && 0 <= j < s[d].1.messages.len() ==> {
                    let before = s[d].1.messages[j];
                    let after = #[trigger] t[d].1.messages[j];
                    &&& after == (DisplayMessageView { status: after.status, ..before })
                    &&& !meant(s[d].1.messages, times, j) ==> after == before
                    &&& after.status == before.status || after.status == moved_on(
                        before.status,
                        status,
                    )
                }
            &&& r.pending.receipts == a.pending.receipts
        }),
{
    reveal(receipts_taken);
    kinds_tell(kind, status);
    nothing_in_the_direct_one(a, sender, times, status);
    let b = receipts_in(a, sender, times, status);
    let s = b.store.conversations;
    receipts_lift_anywhere(b, times, status);
    let r = receipts_anywhere(b, times, status);
    let t = r.store.conversations;
    own_is_found(s[c].1.messages, times[k], i);
    home_is(s, times[k], 0);
    let h = conversation_of(s, times[k], 0);
    assert(h == c) by {
        if h < c {
            let j = own_message(s[h].1.messages, times[k])->0;
            own_is_found(s[h].1.messages, times[k], j);
            assert(is_place(s[h].1.messages, j));
        }
    }
    assert(reached(s, times, c, i));
    let here = |i: int| reached(s, times, c, i);
    assert(t[c].1.messages[i] == advanced(s[c].1.messages[i], here(i), status));
    assert(any_matches_anywhere(b, times, status));
    assert forall|d: int, j: int| 0 <= d < s.len() && 0 <= j < s[d].1.messages.len() implies {
        let before = s[d].1.messages[j];
        let after = #[trigger] t[d].1.messages[j];
        &&& after == (DisplayMessageView { status: after.status, ..before })
        &&& !meant(s[d].1.messages, times, j) ==> after == before
        &&& after.status == before.status || after.status == moved_on(before.status, status)
    } by {
        let yes = |i: int| reached(s, times, d, i);
        assert(lifted(s[d].1, t[d].1, yes, status));
        assert(t[d].1.messages[j] == advanced(s[d].1.messages[j], yes(j), status));
        if yes(j) {
            let n = choose|n: int|
                0 <= n < times.len() && conversation_of(s, #[trigger] times[n], 0) == d
                    && own_message(s[d].1.messages, times[n]) == Some(j);
            own_is_found(s[d].1.messages, times[n], j);
            assert(meant(s[d].1.messages, times, j));
        }
    }
}

/// Receipts for messages that no conversation holds change nothing, and are kept for
/// when the messages get their times.
pub proof fn early_receipts_wait(
    a: AppView,
    sender: Seq<char>,
    kind: Seq<char>,
    times: Seq<i64>,
    status: MessageStatus,
    now_ms: i64,
    clock_ms: u64,
)
    requires
        tells(kind, status),
        times.len() > 0,
        forall|d: int|
            0 <= d < a.store.conversations.len() ==> !any_own(
                (#[trigger] a.store.conversations[d]).1.messages,
                times,
            ),
    ensures
        ({
            let r = event_taken(
                a,
                SignalEventView::ReceiptReceived { sender, receipt_type: kind, timestamps: times },
                now_ms,
                clock_ms,
            );
            &&& r.store.conversations == a.store.conversations
            &&& r.pending.receipts == a.pending.receipts.push((sender, kind, times))
        }),
{
    reveal(receipts_taken);
    kinds_tell(kind, status);
    let s = a.store.conversations;
    assert(!any_own(messages_of(a.store, sender), times)) by {
        place_finds(s, sender);
        if holds(s, sender) {
            assert(!any_own(s[crate::strmap::place(s, sender)].1.messages, times));
        }
    }
    nothing_in_the_direct_one(a, sender, times, status);
    let b = receipts_in(a, sender, times, status);
    receipts_lift_anywhere(b, times, status);
    let r = receipts_anywhere(b, times, status);
    let t = r.store.conversations;
    assert(b.store.conversations == s);
    assert forall|k: int| 0 <= k < times.len() implies conversation_of(s, #[trigger] times[k], 0)
        >= s.len() by {
        home_is(s, times[k], 0);
        let h = conversation_of(s, times[k], 0);
        if h < s.len() {
            any_own_is_found(s[h].1.messages, times);
            assert(!any_own(s[h].1.messages, times));
        }
    }
    assert forall|d: int| 0 <= d < s.len() implies #[trigger] t[d] == s[d] by {
        let yes = |i: int| reached(s, times, d, i);
        assert(lifted(s[d].1, t[d].1, yes, status));
        assert forall|j: int| 0 <= j < s[d].1.messages.len() implies #[trigger] t[d].1.messages[j]
            == s[d].1.messages[j] by {
            assert(t[d].1.messages[j] == advanced(s[d].1.messages[j], yes(j), status));
            if yes(j) {
                let n = choose|n: int|
                    0 <= n < times.len() && conversation_of(s, #[trigger] times[n], 0) == d
                        && own_message(s[d].1.messages, times[n]) == Some(j);
                assert(conversation_of(s, times[n], 0) >= s.len());
            }
        }
        assert(t[d].1.messages =~= s[d].1.messages);
        assert(t[d].0 == s[d].0);
    }
    assert(t =~= s);
}

/// A receipt of any other kind changes nothing.
pub proof fn other_receipts_do_nothing(
    a: AppView,
    sender: Seq<char>,
    kind: Seq<char>,
    times: Seq<i64>,
    now_ms: i64,
    clock_ms: u64,
)
    requires
        forall|status: MessageStatus| !tells(kind, status),
    ensures
        event_taken(
            a,
            SignalEventView::ReceiptReceived { sender, receipt_type: kind, timestamps: times },
            now_ms,
            clock_ms,
        ) == a,
{
    reveal(receipts_taken);
    assert(!tells(kind, MessageStatus::Delivered));
    assert(!tells(kind, MessageStatus::Read));
    assert(!tells(kind, MessageStatus::Viewed));
}

// ---------------------------------------------------------------------------
// What the service answers to what was sent
// ---------------------------------------------------------------------------

/// Where the service says that a message was sent, it is shown as sent, at the time
/// that the service gave it, or at its own where it gave none. Nothing else in any
/// conversation changes, and the answer is waited for no more.
pub proof fn answers_mark_messages_sent(
    a: AppView,
    rpc: Seq<char>,
    id: Seq<char>,
    local_ts: i64,
    server_ts: i64,
    i: int,
    now_ms: i64,
    clock_ms: u64,
)
    requires
        look(a.pending.sends, rpc) == Some((id, local_ts)),
        own_at(messages_of(a.store, id), local_ts, i),
        a.pending.receipts.len() == 0,
    ensures
        ({
            let r = event_taken(
                a,
                SignalEventView::SendTimestamp { rpc_id: rpc, server_ts },
                now_ms,
                clock_ms,
            );
            let m = messages_of(a.store, id)[i];
            &&& only_changed(
                a,
                r,
                id,
                i,
                DisplayMessageView {
                    timestamp_ms: if server_ts == 0 {
                        local_ts
                    } else {
                        server_ts
                    },
                    status: Some(MessageStatus::Sent),
                    ..m
                },
            )
            &&& distinct(a.pending.sends) ==> !holds(r.pending.sends, rpc)
            &&& r.pending.receipts.len() == 0
        }),
{
    reveal(send_answered);
    own_is_found(messages_of(a.store, id), local_ts, i);
    let r = send_answered(a, rpc, server_ts, clock_ms);
    changing_changes_only(
        a,
        r,
        id,
        i,
        DisplayMessageView {
            timestamp_ms: if server_ts == 0 {
                local_ts
            } else {
                server_ts
            },
            status: Some(MessageStatus::Sent),
            ..messages_of(a.store, id)[i]
        },
    );
    if distinct(a.pending.sends) {
        look_after_del(a.pending.sends, rpc, rpc);
    }
}

/// Receipts that came before the answer are taken after it, in the order in which
/// they came: the answer with one more of them kept does what the answer does
/// without it, and then what the receipts do.
pub proof fn kept_receipts_follow_the_answer(
    a: AppView,
    kept: Seq<(Seq<char>, Seq<char>, Seq<i64>)>,
    sender: Seq<char>,
    kind: Seq<char>,
    times: Seq<i64>,
    rpc: Seq<char>,
    server_ts: i64,
    now_ms: i64,
    clock_ms: u64,
)
    requires
        holds(a.pending.sends, rpc),
    ensures
        ({
            let fewer = AppView {
                pending: PendingStateView { receipts: kept, ..a.pending },
                ..a
            };
            let all = AppView {
                pending: PendingStateView {
                    receipts: kept.push((sender, kind, times)),
                    ..a.pending
                },
                ..a
            };
            let answer = SignalEventView::SendTimestamp { rpc_id: rpc, server_ts };
            event_taken(all, answer, now_ms, clock_ms) == event_taken(
                event_taken(fewer, answer, now_ms, clock_ms),
                SignalEventView::ReceiptReceived { sender, receipt_type: kind, timestamps: times },
                now_ms,
                clock_ms,
            )
        }),
{
    reveal(send_answered);
    assert(kept.push((sender, kind, times)).drop_last() =~= kept);
    assert(kept.push((sender, kind, times)).last() == (sender, kind, times));
}

/// Where the service says that a message could not be sent, it is shown as failed.
/// Nothing else in any conversation changes, and the answer is waited for no more.
pub proof fn failures_are_shown(
    a: AppView,
    rpc: Seq<char>,
    id: Seq<char>,
    local_ts: i64,
    i: int,
    now_ms: i64,
    clock_ms: u64,
)
    requires
        look(a.pending.sends, rpc) == Some((id, local_ts)),
        own_at(messages_of(a.store, id), local_ts, i),
    ensures
        ({
            let r = event_taken(
                a,
                SignalEventView::SendFailed { rpc_id: rpc },
                now_ms,
                clock_ms,
            );
            &&& only_changed(
                a,
                r,
                id,
                i,
                DisplayMessageView {
                    status: Some(MessageStatus::Failed),
                    ..messages_of(a.store, id)[i]
                },
            )
            &&& distinct(a.pending.sends) ==> !holds(r.pending.sends, rpc)
            &&& r.status_message == "send failed"@
        }),
{
    reveal(send_failed);
    own_is_found(messages_of(a.store, id), local_ts, i);
    let r = send_failed(a.say("send failed"@), rpc, clock_ms);
    changing_changes_only(
        a,
        r,
        id,
        i,
        DisplayMessageView {
            status: Some(MessageStatus::Failed),
            ..messages_of(a.store, id)[i]
        },
    );
    if distinct(a.pending.sends) {
        look_after_del(a.pending.sends, rpc, rpc);
    }
}

/// An answer to something that was not sent as a message changes no conversation.
pub proof fn other_answers_change_nothing(
    a: AppView,
    rpc: Seq<char>,
    server_ts: i64,
    now_ms: i64,
    clock_ms: u64,
)
    requires
        !holds(a.pending.sends, rpc),
    ensures
        event_taken(
            a,
            SignalEventView::SendTimestamp { rpc_id: rpc, server_ts },
            now_ms,
            clock_ms,
        ).store == a.store,
        event_taken(a, SignalEventView::SendFailed { rpc_id: rpc }, now_ms, clock_ms).store
            == a.store,
{
    reveal(send_answered);
    reveal(send_failed);
}

} // verus!
