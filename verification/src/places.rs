//! Where a message stands, and what changes with one that is replaced.
use crate::app::AppView;
use crate::arrivals::messages_of;
use crate::conversation_store::{msg_at, slot, slot_finds, ConversationView, DisplayMessageView};
use crate::strmap::{at, holds, look, look_after_put, put};
use vstd::prelude::*;

verus! {

/// Place `i` is that of the message of a time: it has that time, and what follows
/// it is later.
pub open spec fn newest_at(s: Seq<DisplayMessageView>, ts: i64, i: int) -> bool {
    &&& 0 <= i < s.len()
    &&& s[i].timestamp_ms == ts
    &&& forall|j: int| i < j < s.len() ==> (#[trigger] s[j]).timestamp_ms > ts
}

/// No message has a time.
pub open spec fn none_at(s: Seq<DisplayMessageView>, ts: i64) -> bool {
    forall|j: int| 0 <= j < s.len() ==> (#[trigger] s[j]).timestamp_ms != ts
}

/// The message of a time is found where it stands, and only where there is one.
pub proof fn message_of_time_is_found(s: Seq<DisplayMessageView>, ts: i64, i: int)
    ensures
        newest_at(s, ts, i) ==> msg_at(s, ts) == Some(i),
        none_at(s, ts) ==> msg_at(s, ts) is None,
        msg_at(s, ts) is Some ==> newest_at(s, ts, msg_at(s, ts)->0),
{
    slot_finds(s, ts);
    let p = slot(s, ts);
    if newest_at(s, ts, i) {
        if p < i + 1 {
            assert(s[i].timestamp_ms > ts);
        } else if p > i + 1 {
            assert(s[p - 1].timestamp_ms > ts);
        }
    }
}

/// One message of a conversation is another than before, and nothing else in any
/// conversation changed.
pub open spec fn only_changed(
    a: AppView,
    b: AppView,
    id: Seq<char>,
    i: int,
    x: DisplayMessageView,
) -> bool {
    let s = messages_of(a.store, id);
    let t = messages_of(b.store, id);
    &&& t.len() == s.len()
    &&& t[i] == x
    &&& forall|j: int| 0 <= j < s.len() && j != i ==> #[trigger] t[j] == s[j]
    &&& look(b.store.conversations, id) == Some(
        ConversationView { messages: t, ..look(a.store.conversations, id)->0 },
    )
    &&& forall|k: Seq<char>|
        k != id ==> #[trigger] look(b.store.conversations, k) == look(a.store.conversations, k)
}

pub(crate) proof fn changing_changes_only(
    a: AppView,
    b: AppView,
    id: Seq<char>,
    i: int,
    x: DisplayMessageView,
)
    requires
        holds(a.store.conversations, id),
        0 <= i < messages_of(a.store, id).len(),
        b.store.conversations == a.with_msg(id, i, x).store.conversations,
    ensures
        only_changed(a, b, id, i, x),
{
    let c = at(a.store.conversations, id);
    let d = ConversationView { messages: c.messages.update(i, x), ..c };
    assert(b.store.conversations == put(a.store.conversations, id, d));
    look_after_put(a.store.conversations, id, d, id);
    assert forall|k: Seq<char>| k != id implies #[trigger] look(b.store.conversations, k) == look(
        a.store.conversations,
        k,
    ) by {
        look_after_put(a.store.conversations, id, d, k);
    }
}

/// What filtering leaves of a list is what was in it and passes.
pub proof fn filter_has<T>(s: Seq<T>, p: spec_fn(T) -> bool, x: T)
    ensures
        s.filter(p).contains(x) <==> s.contains(x) && p(x),
    decreases s.len(),
{
    reveal(Seq::filter);
    if s.len() > 0 {
        let front = s.drop_last();
        let rest = front.filter(p);
        let out = s.filter(p);
        filter_has(front, p, x);
        if s.contains(x) {
            let i = choose|i: int| 0 <= i < s.len() && s[i] == x;
            if i < front.len() {
                assert(front[i] == x);
            }
        }
        if front.contains(x) {
            let i = choose|i: int| 0 <= i < front.len() && front[i] == x;
            assert(s[i] == x);
        }
        assert(s[s.len() - 1] == s.last());
        if p(s.last()) {
            assert(out == rest.push(s.last()));
            assert(out[rest.len() as int] == s.last());
            if rest.contains(x) {
                let i = choose|i: int| 0 <= i < rest.len() && rest[i] == x;
                assert(out[i] == x);
            }
            if out.contains(x) {
                let i = choose|i: int| 0 <= i < out.len() && out[i] == x;
                if i < rest.len() {
                    assert(rest[i] == x);
                }
            }
        } else {
            assert(out == rest);
        }
    }
}

/// A message is the one that is pointed at: the focused one of the conversation
/// that is looked at, or its last where none is focused.
pub open spec fn points_at(a: AppView, id: Seq<char>, i: int) -> bool {
    &&& a.active_conversation == Some(id)
    &&& holds(a.store.conversations, id)
    &&& 0 <= i < messages_of(a.store, id).len()
    &&& i == match a.scroll.focused_index {
        Some(f) => f as int,
        None => messages_of(a.store, id).len() - 1,
    }
}

pub(crate) proof fn pointed_is_selected(a: AppView, id: Seq<char>, i: int)
    requires
        points_at(a, id, i),
    ensures
        crate::actions::selected_place(a) == Some(i),
        crate::actions::selected(a) == Some(messages_of(a.store, id)[i]),
        crate::events::message_in(a, id, i) == messages_of(a.store, id)[i],
{
}

/// One job more is to be done in the database than before, and what it writes.
pub open spec fn writes_last(a: AppView, b: AppView, w: crate::db::DbWriteView) -> bool {
    b.jobs.len() == a.jobs.len() + 1 && b.jobs.drop_last() == a.jobs && b.jobs.last().write == w
}

} // verus!
