//! What is promised of contacts, groups and identities, and of what was read elsewhere.
use crate::app::{AppView, Flag};
use crate::arrivals::messages_of;
use crate::conversation_store::{
    map_messages, new_conversation, slot, slot_finds, ConversationView, DisplayMessageView,
};
use crate::directory::{
    auto_accepted, contact_taken, contacts_known, contacts_taken, group_taken, groups_known,
    groups_taken, identities_taken, names_refreshed, to_accept, trust_levels,
};
use crate::events::event_taken;
use crate::inbox::behind_time;
use crate::navigation::ensured;
use crate::receipts::{
    all_read_up_to, group_of, has_time, read_conversation, read_synced, read_times, unread_behind,
};
use crate::signal::{ContactView, GroupView, IdentityInfoView, SignalEventView};
use crate::strmap::{
    at, distinct, holds, look, look_after_put, operations_keep_distinct, place, place_finds,
    place_is, put,
};
use vstd::prelude::*;

verus! {

// ---------------------------------------------------------------------------
// Contacts
// ---------------------------------------------------------------------------

/// A contact comes with a name.
pub open spec fn is_named(c: ContactView) -> bool {
    c.name is Some && c.name->0.len() > 0
}

/// Two conversations differ in nothing but how they are called.
spec fn same_but_name(c: ConversationView, d: ConversationView) -> bool {
    d == ConversationView { name: d.name, ..c }
}

proof fn contact_is_taken(a: AppView, c: ContactView, k: Seq<char>)
    ensures
        ({
            let r = contact_taken(a, c);
            &&& look(r.store.contact_names, k) == if is_named(c) && k == c.number {
                c.name
            } else {
                look(a.store.contact_names, k)
            }
            &&& look(r.store.number_to_uuid, k) == if c.uuid is Some && k == c.number {
                c.uuid
            } else {
                look(a.store.number_to_uuid, k)
            }
            &&& look(r.store.uuid_to_name, k) == if is_named(c) && c.uuid == Some(k) {
                c.name
            } else {
                look(a.store.uuid_to_name, k)
            }
            &&& holds(r.store.conversations, k) == holds(a.store.conversations, k)
            &&& holds(a.store.conversations, k) ==> same_but_name(
                at(a.store.conversations, k),
                at(r.store.conversations, k),
            ) && at(r.store.conversations, k).name == if is_named(c) && k == c.number {
                c.name->0
            } else {
                at(a.store.conversations, k).name
            }
        }),
{
    reveal(contact_taken);
    if is_named(c) {
        look_after_put(a.store.contact_names, c.number, c.name->0, k);
        if c.uuid is Some {
            look_after_put(a.store.uuid_to_name, c.uuid->0, c.name->0, k);
        }
        if holds(a.store.conversations, c.number) {
            look_after_put(
                a.store.conversations,
                c.number,
                ConversationView { name: c.name->0, ..at(a.store.conversations, c.number) },
                k,
            );
        }
    }
    if c.uuid is Some {
        look_after_put(a.store.number_to_uuid, c.number, c.uuid->0, k);
    }
}

proof fn contacts_keep(a: AppView, list: Seq<ContactView>, k: Seq<char>)
    ensures
        ({
            let r = contacts_known(a, list);
            &&& holds(r.store.conversations, k) == holds(a.store.conversations, k)
            &&& holds(a.store.conversations, k) ==> same_but_name(
                at(a.store.conversations, k),
                at(r.store.conversations, k),
            )
            &&& (forall|j: int| 0 <= j < list.len() ==> (#[trigger] list[j]).number != k) ==> look(
                r.store.contact_names,
                k,
            ) == look(a.store.contact_names, k) && look(r.store.conversations, k) == look(
                a.store.conversations,
                k,
            )
            &&& r.active_conversation == a.active_conversation
            &&& r.account == a.account
            &&& r.flags == a.flags
        }),
    decreases list.len(),
{
    if list.len() > 0 {
        let front = list.drop_last();
        contacts_keep(a, front, k);
        contact_is_taken(contacts_known(a, front), list.last(), k);
        assert(list[list.len() - 1] == list.last());
        if forall|j: int| 0 <= j < list.len() ==> (#[trigger] list[j]).number != k {
            assert forall|j: int| 0 <= j < front.len() implies (#[trigger] front[j]).number != k by {
                assert(list[j] == front[j]);
            }
        }
        reveal(contact_taken);
    }
}

proof fn contact_stays(a: AppView, list: Seq<ContactView>, k: int)
    requires
        0 <= k < list.len(),
        forall|j: int|
            k < j < list.len() ==> (#[trigger] list[j]).number != list[k].number && (list[k].uuid
                is Some ==> list[j].uuid != list[k].uuid),
    ensures
        ({
            let r = contacts_known(a, list);
            let c = list[k];
            &&& is_named(c) ==> look(r.store.contact_names, c.number) == c.name
            &&& c.uuid is Some ==> look(r.store.number_to_uuid, c.number) == c.uuid
            &&& is_named(c) && c.uuid is Some ==> look(r.store.uuid_to_name, c.uuid->0) == c.name
            &&& is_named(c) && holds(a.store.conversations, c.number) ==> at(
                r.store.conversations,
                c.number,
            ).name == c.name->0
        }),
    decreases list.len(),
{
    let front = list.drop_last();
    let b = contacts_known(a, front);
    let c = list[k];
    contacts_keep(a, front, c.number);
    contact_is_taken(b, list.last(), c.number);
    if c.uuid is Some {
        contact_is_taken(b, list.last(), c.uuid->0);
    }
    if k < front.len() {
        assert(front[k] == c);
        assert(list[list.len() - 1] == list.last());
        assert forall|j: int| k < j < front.len() implies (#[trigger] front[j]).number
            != front[k].number && (front[k].uuid is Some ==> front[j].uuid != front[k].uuid) by {
            assert(list[j] == front[j]);
        }
        contact_stays(a, front, k);
    }
}

proof fn mapping_keeps(
    s: Seq<(Seq<char>, ConversationView)>,
    f: spec_fn(DisplayMessageView) -> DisplayMessageView,
    k: Seq<char>,
)
    ensures
        look(map_messages(s, f), k) == match look(s, k) {
            Some(c) => Some(ConversationView { messages: c.messages.map_values(f), ..c }),
            None => None,
        },
{
    let t = map_messages(s, f);
    place_finds(s, k);
    place_is(t, k, place(s, k));
}

/// Resolving names anew changes nothing of a conversation but what messages show.
proof fn refreshing_keeps(a: AppView, k: Seq<char>)
    ensures
        ({
            let r = names_refreshed(a);
            &&& r.store.contact_names == a.store.contact_names
            &&& r.store.number_to_uuid == a.store.number_to_uuid
            &&& r.store.uuid_to_name == a.store.uuid_to_name
            &&& r.store.groups == a.store.groups
            &&& r.flags == a.flags
            &&& r.active_conversation == a.active_conversation
            &&& look(r.store.conversations, k) is Some <==> look(a.store.conversations, k) is Some
            &&& look(a.store.conversations, k) is Some ==> {
                let c = look(a.store.conversations, k)->0;
                let d = look(r.store.conversations, k)->0;
                &&& d == (ConversationView { messages: d.messages, ..c })
                &&& d.messages.len() == c.messages.len()
                &&& forall|i: int|
                    0 <= i < c.messages.len() ==> (#[trigger] d.messages[i]).sender
                        == c.messages[i].sender && d.messages[i].timestamp_ms
                        == c.messages[i].timestamp_ms && d.messages[i].status
                        == c.messages[i].status && (c.messages[i].mentions.len() == 0
                        ==> d.messages[i].body == c.messages[i].body)
            }
        }),
{
    reveal(names_refreshed);
    let s = a.store;
    let f = |m: DisplayMessageView|
        crate::conversation_store::named_message(
            m,
            a.account,
            crate::conversation_store::known_names(s),
        );
    let t = crate::conversation_store::with_stored_names(s, a.account);
    let g = |m: DisplayMessageView| crate::conversation_store::rebuilt(m, t.uuid_to_name);
    mapping_keeps(s.conversations, f, k);
    mapping_keeps(t.conversations, g, k);
}

proof fn accepting_keeps(a: AppView, k: Seq<char>)
    ensures
        look(auto_accepted(a).store.conversations, k) == match look(a.store.conversations, k) {
            Some(c) => Some(
                if to_accept(a.store.contact_names, c) {
                    ConversationView { accepted: true, ..c }
                } else {
                    c
                },
            ),
            None => None,
        },
        auto_accepted(a).store.contact_names == a.store.contact_names,
        auto_accepted(a).store.number_to_uuid == a.store.number_to_uuid,
        auto_accepted(a).store.uuid_to_name == a.store.uuid_to_name,
        auto_accepted(a).flags == a.flags,
{
    reveal(auto_accepted);
    let s = a.store.conversations;
    let t = auto_accepted(a).store.conversations;
    place_finds(s, k);
    place_is(t, k, place(s, k));
}

/// Contacts that the service tells are known by their names from then on, by number
/// and by uuid, and the conversation with each is called so. Somebody who is a
/// contact and wrote before counts as accepted. Of nobody else the name changes, and
/// no message is lost or changes its sender, its time or its status.
pub proof fn contacts_give_names(
    a: AppView,
    list: Seq<ContactView>,
    k: int,
    other: Seq<char>,
    now_ms: i64,
    clock_ms: u64,
)
    requires
        0 <= k < list.len(),
        forall|j: int|
            k < j < list.len() ==> (#[trigger] list[j]).number != list[k].number && (list[k].uuid
                is Some ==> list[j].uuid != list[k].uuid),
        forall|j: int| 0 <= j < list.len() ==> (#[trigger] list[j]).number != other,
    ensures
        ({
            let r = event_taken(a, SignalEventView::ContactList(list), now_ms, clock_ms);
            let c = list[k];
            let had = look(a.store.conversations, c.number);
            let has = look(r.store.conversations, c.number);
            &&& is_named(c) ==> look(r.store.contact_names, c.number) == c.name
            &&& c.uuid is Some ==> look(r.store.number_to_uuid, c.number) == c.uuid
            &&& is_named(c) && c.uuid is Some ==> look(r.store.uuid_to_name, c.uuid->0) == c.name
            &&& has is Some <==> had is Some
            &&& had is Some && is_named(c) ==> has->0.name == c.name->0
            &&& had is Some ==> has->0.messages.len() == had->0.messages.len() && has->0.unread
                == had->0.unread && has->0.is_group == had->0.is_group
            &&& had is Some ==> forall|i: int|
                0 <= i < had->0.messages.len() ==> (#[trigger] has->0.messages[i]).sender
                    == had->0.messages[i].sender && has->0.messages[i].timestamp_ms
                    == had->0.messages[i].timestamp_ms && has->0.messages[i].status
                    == had->0.messages[i].status
            &&& had is Some && is_named(c) && had->0.id == c.number && !had->0.is_group
                ==> has->0.accepted
            &&& had is Some && had->0.accepted ==> has->0.accepted
            &&& look(r.store.contact_names, other) == look(a.store.contact_names, other)
            &&& look(a.store.conversations, other) is Some ==> look(
                r.store.conversations,
                other,
            ) is Some && look(r.store.conversations, other)->0.name == look(
                a.store.conversations,
                other,
            )->0.name
            &&& !r.flags.contains(Flag::Loading)
        }),
{
    reveal(contacts_taken);
    let c = list[k];
    let z = AppView { startup_status: Seq::empty(), ..a.lowered(Flag::Loading) };
    let b = contacts_known(z, list);
    contacts_keep(z, list, c.number);
    contacts_keep(z, list, other);
    contact_stays(z, list, k);
    accepting_keeps(b, c.number);
    accepting_keeps(b, other);
    refreshing_keeps(auto_accepted(b), c.number);
    refreshing_keeps(auto_accepted(b), other);
}

// ---------------------------------------------------------------------------
// Groups
// ---------------------------------------------------------------------------

proof fn group_is_taken(a: AppView, g: GroupView, k: Seq<char>)
    ensures
        ({
            let r = group_taken(a, g);
            let had = look(a.store.conversations, k);
            let has = look(r.store.conversations, k);
            &&& look(r.store.groups, k) == if k == g.id {
                Some(g)
            } else {
                look(a.store.groups, k)
            }
            &&& look(r.store.contact_names, k) == if k == g.id && g.name.len() > 0 {
                Some(g.name)
            } else {
                look(a.store.contact_names, k)
            }
            &&& k != g.id ==> has == had
            &&& k == g.id ==> has is Some && (g.name.len() > 0 ==> has->0.name == g.name)
            &&& k == g.id && had is None ==> has->0.is_group && has->0.messages.len() == 0
                && has->0.accepted
            &&& k == g.id && had is Some ==> has->0.is_group == had->0.is_group
                && has->0.messages == had->0.messages && has->0.unread == had->0.unread
                && has->0.accepted == had->0.accepted
        }),
{
    reveal(group_taken);
    look_after_put(a.store.groups, g.id, g, k);
    look_after_put(a.store.contact_names, g.id, g.name, k);
    let z = AppView { store: crate::directory::group_known(a.store, g), ..a };
    let b = ensured(z, g.id, g.name, true);
    place_finds(a.store.conversations, g.id);
    let fresh = new_conversation(g.id, g.name, true);
    look_after_put(a.store.conversations, g.id, fresh, k);
    look_after_put(a.store.conversations, g.id, fresh, g.id);
    if !holds(a.store.conversations, g.id) {
        assert(b.store.conversations == put(a.store.conversations, g.id, fresh));
    } else {
        let told = ConversationView { name: g.name, ..at(a.store.conversations, g.id) };
        look_after_put(a.store.conversations, g.id, told, k);
        look_after_put(a.store.conversations, g.id, told, g.id);
    }
    let conv = at(b.store.conversations, g.id);
    let named = ConversationView { name: g.name, ..conv };
    look_after_put(b.store.conversations, g.id, named, k);
    look_after_put(b.store.conversations, g.id, named, g.id);
}

proof fn group_stays(a: AppView, list: Seq<GroupView>, k: int)
    requires
        0 <= k < list.len(),
        forall|j: int| 0 <= j < list.len() && j != k ==> (#[trigger] list[j]).id != list[k].id,
    ensures
        ({
            let r = groups_known(a, list);
            let g = list[k];
            let had = look(a.store.conversations, g.id);
            let has = look(r.store.conversations, g.id);
            &&& look(r.store.groups, g.id) == Some(g)
            &&& g.name.len() > 0 ==> look(r.store.contact_names, g.id) == Some(g.name)
            &&& has is Some
            &&& g.name.len() > 0 ==> has->0.name == g.name
            &&& had is None ==> has->0.is_group && has->0.messages.len() == 0 && has->0.accepted
            &&& had is Some ==> has->0.is_group == had->0.is_group && has->0.messages
                == had->0.messages && has->0.unread == had->0.unread && has->0.accepted
                == had->0.accepted
        }),
    decreases list.len(),
{
    let front = list.drop_last();
    let g = list[k];
    group_is_taken(groups_known(a, front), list.last(), g.id);
    if k < front.len() {
        assert(front[k] == g);
        assert(list[list.len() - 1] == list.last());
        assert forall|j: int| 0 <= j < front.len() && j != k implies (#[trigger] front[j]).id
            != front[k].id by {
            assert(list[j] == front[j]);
        }
        group_stays(a, front, k);
    } else {
        assert forall|j: int| 0 <= j < front.len() implies (#[trigger] front[j]).id != g.id by {
            assert(list[j] == front[j]);
        }
        groups_leave(a, front, g.id);
    }
}

proof fn groups_leave(a: AppView, list: Seq<GroupView>, k: Seq<char>)
    requires
        forall|j: int| 0 <= j < list.len() ==> (#[trigger] list[j]).id != k,
    ensures
        look(groups_known(a, list).store.conversations, k) == look(a.store.conversations, k),
        look(groups_known(a, list).store.groups, k) == look(a.store.groups, k),
        look(groups_known(a, list).store.contact_names, k) == look(a.store.contact_names, k),
    decreases list.len(),
{
    if list.len() > 0 {
        let front = list.drop_last();
        assert(list[list.len() - 1] == list.last());
        assert forall|j: int| 0 <= j < front.len() implies (#[trigger] front[j]).id != k by {
            assert(list[j] == front[j]);
        }
        groups_leave(a, front, k);
        group_is_taken(groups_known(a, front), list.last(), k);
    }
}

/// Groups that the service tells are known from then on with their members, and each
/// has a conversation: one that was there goes on under the name, and a new one is an
/// empty group that is accepted. No message is lost.
pub proof fn groups_are_there(
    a: AppView,
    list: Seq<GroupView>,
    k: int,
    other: Seq<char>,
    now_ms: i64,
    clock_ms: u64,
)
    requires
        0 <= k < list.len(),
        forall|j: int| 0 <= j < list.len() && j != k ==> (#[trigger] list[j]).id != list[k].id,
        forall|j: int| 0 <= j < list.len() ==> (#[trigger] list[j]).id != other,
    ensures
        ({
            let r = event_taken(a, SignalEventView::GroupList(list), now_ms, clock_ms);
            let g = list[k];
            let had = look(a.store.conversations, g.id);
            let has = look(r.store.conversations, g.id);
            &&& look(r.store.groups, g.id) == Some(g)
            &&& g.name.len() > 0 ==> look(r.store.contact_names, g.id) == Some(g.name)
            &&& has is Some
            &&& g.name.len() > 0 ==> has->0.name == g.name
            &&& had is None ==> has->0.is_group && has->0.messages.len() == 0 && has->0.accepted
            &&& had is Some ==> has->0.is_group == had->0.is_group && has->0.messages.len()
                == had->0.messages.len() && has->0.unread == had->0.unread && has->0.accepted
                == had->0.accepted
            &&& look(r.store.groups, other) == look(a.store.groups, other)
            &&& look(a.store.conversations, other) is Some <==> look(
                r.store.conversations,
                other,
            ) is Some
        }),
{
    reveal(groups_taken);
    let b = groups_known(a, list);
    group_stays(a, list, k);
    groups_leave(a, list, other);
    refreshing_keeps(b, list[k].id);
    refreshing_keeps(b, other);
}

proof fn levels_are(list: Seq<IdentityInfoView>, k: int)
    requires
        0 <= k < list.len(),
        list[k].number is Some,
        forall|j: int| k < j < list.len() ==> (#[trigger] list[j]).number != list[k].number,
    ensures
        look(trust_levels(list), list[k].number->0) == Some(list[k].trust_level),
    decreases list.len(),
{
    let front = list.drop_last();
    let last = list.last();
    assert(list[list.len() - 1] == last);
    if last.number is Some {
        look_after_put(
            trust_levels(front),
            last.number->0,
            last.trust_level,
            list[k].number->0,
        );
    }
    if k < front.len() {
        assert(front[k] == list[k]);
        assert forall|j: int| k < j < front.len() implies (#[trigger] front[j]).number
            != front[k].number by {
            assert(list[j] == front[j]);
        }
        levels_are(front, k);
    }
}

/// How far somebody is trusted is what the service told last.
pub proof fn trust_is_what_was_told(
    a: AppView,
    list: Seq<IdentityInfoView>,
    k: int,
    now_ms: i64,
    clock_ms: u64,
)
    requires
        0 <= k < list.len(),
        list[k].number is Some,
        forall|j: int| k < j < list.len() ==> (#[trigger] list[j]).number != list[k].number,
    ensures
        look(
            event_taken(a, SignalEventView::IdentityList(list), now_ms, clock_ms).identity_trust,
            list[k].number->0,
        ) == Some(list[k].trust_level),
        event_taken(a, SignalEventView::IdentityList(list), now_ms, clock_ms).store == a.store,
{
    reveal(identities_taken);
    levels_are(list, k);
}

// ---------------------------------------------------------------------------
// Read elsewhere
// ---------------------------------------------------------------------------

/// How many messages of a conversation count as read.
pub open spec fn read_count(a: AppView, id: Seq<char>) -> int {
    match look(a.store.last_read_index, id) {
        Some(n) => n as int,
        None => 0,
    }
}

/// How many of the messages from a place on came in from somebody.
pub open spec fn came_in_from(s: Seq<DisplayMessageView>, n: int) -> int {
    s.skip(n).filter(|m: DisplayMessageView| !m.is_system && m.status is None).len() as int
}

proof fn counted_alike(s: Seq<DisplayMessageView>, n: usize)
    requires
        n <= s.len() <= usize::MAX,
    ensures
        unread_behind(s, n) == came_in_from(s, n as int),
{
    let p = |m: DisplayMessageView| crate::receipts::counts_unread(m);
    let q = |m: DisplayMessageView| !m.is_system && m.status is None;
    assert(p =~= q);
    broadcast use vstd::seq_lib::group_filter_ensures;

    assert(s.skip(n as int).filter(q).len() <= s.skip(n as int).len());
}

/// The latest time up to which a conversation was read, where all are read in their
/// own.
proof fn times_are(
    convs: Seq<(Seq<char>, ConversationView)>,
    list: Seq<(Seq<char>, i64)>,
    id: Seq<char>,
)
    requires
        forall|j: int| 0 <= j < list.len() ==> holds(convs, (#[trigger] list[j]).0),
    ensures
        ({
            let t = read_times(convs, list);
            &&& distinct(t)
            &&& forall|j: int|
                0 <= j < list.len() && (#[trigger] list[j]).0 == id ==> look(t, id) is Some
                    && look(t, id)->0 >= list[j].1
            &&& look(t, id) is Some ==> look(t, id)->0 == 0 || exists|j: int|
                0 <= j < list.len() && (#[trigger] list[j]) == (id, look(t, id)->0)
            &&& look(t, id) is Some ==> look(t, id)->0 >= 0 && exists|j: int|
                0 <= j < list.len() && (#[trigger] list[j]).0 == id
        }),
    decreases list.len(),
{
    if list.len() > 0 {
        let front = list.drop_last();
        let (sender, ts) = list.last();
        assert(list[list.len() - 1] == list.last());
        assert forall|j: int| 0 <= j < front.len() implies holds(convs, (#[trigger] front[j]).0) by {
            assert(list[j] == front[j]);
        }
        times_are(convs, front, id);
        let before = read_times(convs, front);
        let cur = match look(before, sender) {
            Some(t) => t,
            None => 0,
        };
        let new = if ts > cur {
            ts
        } else {
            cur
        };
        let t = read_times(convs, list);
        assert(t == put(before, sender, new));
        look_after_put(before, sender, new, id);
        operations_keep_distinct(before, sender, new);
        assert forall|j: int| 0 <= j < list.len() && (#[trigger] list[j]).0 == id implies look(
            t,
            id,
        ) is Some && look(t, id)->0 >= list[j].1 by {
            if j < front.len() {
                assert(front[j] == list[j]);
            }
        }
        if look(t, id) is Some {
            if sender == id {
                if ts > cur {
                    assert(list[list.len() - 1] == (id, look(t, id)->0));
                } else if look(before, id) is Some && look(before, id)->0 != 0 {
                    let j = choose|j: int|
                        0 <= j < front.len() && (#[trigger] front[j]) == (id, look(before, id)->0);
                    assert(list[j] == front[j]);
                }
                assert(list[list.len() - 1].0 == id);
            } else {
                if look(before, id)->0 != 0 {
                    let j = choose|j: int|
                        0 <= j < front.len() && (#[trigger] front[j]) == (id, look(before, id)->0);
                    assert(list[j] == front[j]);
                }
                let j = choose|j: int| 0 <= j < front.len() && (#[trigger] front[j]).0 == id;
                assert(list[j] == front[j]);
            }
        }
    } else {
        place_finds(read_times(convs, list), id);
    }
}

/// What reading up to times makes of a conversation.
proof fn reading_up_to(a: AppView, list: Seq<(Seq<char>, i64)>, id: Seq<char>)
    requires
        distinct(list),
        holds(a.store.conversations, id),
        messages_of(a.store, id).len() <= usize::MAX,
    ensures
        ({
            let r = all_read_up_to(a, list);
            let s = messages_of(a.store, id);
            let n = match look(list, id) {
                Some(ts) => slot(s, ts),
                None => 0,
            };
            let c = look(a.store.conversations, id)->0;
            &&& read_count(r, id) == if n > read_count(a, id) {
                n
            } else {
                read_count(a, id)
            }
            &&& look(r.store.conversations, id) == Some(
                ConversationView {
                    unread: if n > read_count(a, id) {
                        came_in_from(s, n) as usize
                    } else {
                        c.unread
                    },
                    ..c
                },
            )
        }),
    decreases list.len(),
{
    let s = messages_of(a.store, id);
    if list.len() > 0 {
        let front = list.drop_last();
        let (k, ts) = list.last();
        assert forall|i: int, j: int| 0 <= i < j < front.len() implies (#[trigger] front[i]).0 != (
        #[trigger] front[j]).0 by {
            assert(list[i].0 != list[j].0);
        }
        reading_up_to(a, front, id);
        let b = all_read_up_to(a, front);
        slot_finds(s, ts);
        place_finds(list, id);
        place_finds(front, id);
        if k == id {
            assert forall|j: int| 0 <= j < front.len() implies (#[trigger] front[j]).0 != id by {
                assert(list[j].0 != list[list.len() - 1].0);
            }
            place_is(list, id, list.len() - 1);
            place_is(front, id, front.len() as int);
            let n = slot(s, ts);
            look_after_put(b.store.last_read_index, id, n as usize, id);
            let c = at(b.store.conversations, id);
            look_after_put(
                b.store.conversations,
                id,
                ConversationView { unread: unread_behind(s, n as usize), ..c },
                id,
            );
            counted_alike(s, n as usize);
        } else {
            if holds(front, id) {
                assert(list[place(front, id)] == front[place(front, id)]);
                place_is(list, id, place(front, id));
            } else {
                assert forall|j: int| 0 <= j < list.len() implies (#[trigger] list[j]).0 != id by {
                    if j < front.len() {
                        assert(front[j] == list[j]);
                    }
                }
                place_is(list, id, list.len() as int);
            }
            assert(look(list, id) == look(front, id));
            if holds(b.store.conversations, k) {
                let c = at(b.store.conversations, k);
                let n = slot(c.messages, ts);
                look_after_put(b.store.last_read_index, k, n as usize, id);
                look_after_put(
                    b.store.conversations,
                    k,
                    ConversationView { unread: unread_behind(c.messages, n as usize), ..c },
                    id,
                );
            }
        }
    } else {
        place_finds(list, id);
    }
}

/// Where direct conversations were read elsewhere, each counts as read up to the
/// latest of the times that were told for it, and no less than before; what came in
/// behind that is unread. A conversation for which none was told stays as it is.
pub proof fn reading_elsewhere_counts(
    a: AppView,
    list: Seq<(Seq<char>, i64)>,
    id: Seq<char>,
    k: int,
    p: int,
    now_ms: i64,
    clock_ms: u64,
)
    requires
        forall|j: int| 0 <= j < list.len() ==> holds(a.store.conversations, (#[trigger] list[j]).0),
        holds(a.store.conversations, id),
        messages_of(a.store, id).len() <= usize::MAX,
        0 <= k < list.len() ==> list[k].0 == id && list[k].1 >= 0 && (forall|j: int|
            0 <= j < list.len() && (#[trigger] list[j]).0 == id ==> list[j].1 <= list[k].1)
            && behind_time(messages_of(a.store, id), list[k].1, p),
        !(0 <= k < list.len()) ==> p == 0 && forall|j: int|
            0 <= j < list.len() ==> (#[trigger] list[j]).0 != id,
    ensures
        ({
            let r = event_taken(
                a,
                SignalEventView::ReadSyncReceived { read_messages: list },
                now_ms,
                clock_ms,
            );
            let c = look(a.store.conversations, id)->0;
            let d = look(r.store.conversations, id)->0;
            &&& look(r.store.conversations, id) is Some
            &&& read_count(r, id) == if p > read_count(a, id) {
                p
            } else {
                read_count(a, id)
            }
            &&& p > read_count(a, id) ==> d == (ConversationView {
                unread: came_in_from(c.messages, p) as usize,
                ..c
            })
            &&& p <= read_count(a, id) ==> d == c
        }),
{
    reveal(read_synced);
    let convs = a.store.conversations;
    let s = messages_of(a.store, id);
    let t = read_times(convs, list);
    times_are(convs, list, id);
    reading_up_to(a, t, id);
    if 0 <= k < list.len() {
        let ts = list[k].1;
        assert(look(t, id) is Some && look(t, id)->0 >= ts);
        assert(look(t, id)->0 == ts) by {
            if look(t, id)->0 != 0 {
                let j = choose|j: int|
                    0 <= j < list.len() && (#[trigger] list[j]) == (id, look(t, id)->0);
                assert(list[j].1 <= ts);
            }
        }
        slot_finds(s, ts);
        let q = slot(s, ts);
        if p < q {
            assert(s[q - 1].timestamp_ms > ts);
        } else if q < p {
            assert(s[p - 1].timestamp_ms > ts);
        }
    }
}

proof fn group_is_found(s: Seq<(Seq<char>, ConversationView)>, ts: i64, i: int, c: int)
    requires
        0 <= i <= c < s.len(),
        s[c].1.is_group,
        has_time(s[c].1.messages, ts),
        forall|j: int|
            i <= j < c ==> !((#[trigger] s[j]).1.is_group && has_time(s[j].1.messages, ts)),
    ensures
        group_of(s, ts, i) == c,
    decreases c - i,
{
    if i < c {
        group_is_found(s, ts, i + 1, c);
    }
}

/// Where a message in a group was read elsewhere, the first group that holds a
/// message of that time counts as read up to it, and no less than before; what came
/// in behind that is unread.
pub proof fn reading_a_group_elsewhere_counts(
    a: AppView,
    sender: Seq<char>,
    ts: i64,
    c: int,
    p: int,
    now_ms: i64,
    clock_ms: u64,
)
    requires
        distinct(a.store.conversations),
        !holds(a.store.conversations, sender),
        ts >= 0,
        0 <= c < a.store.conversations.len(),
        a.store.conversations[c].1.is_group,
        exists|i: int|
            0 <= i < a.store.conversations[c].1.messages.len() && (
            #[trigger] a.store.conversations[c].1.messages[i]).timestamp_ms == ts,
        forall|j: int|
            0 <= j < c ==> !((#[trigger] a.store.conversations[j]).1.is_group && exists|i: int|
                0 <= i < a.store.conversations[j].1.messages.len() && (
                #[trigger] a.store.conversations[j].1.messages[i]).timestamp_ms == ts),
        a.store.conversations[c].1.messages.len() <= usize::MAX,
        behind_time(a.store.conversations[c].1.messages, ts, p),
    ensures
        ({
            let r = event_taken(
                a,
                SignalEventView::ReadSyncReceived { read_messages: seq![(sender, ts)] },
                now_ms,
                clock_ms,
            );
            let (id, conv) = a.store.conversations[c];
            let d = look(r.store.conversations, id)->0;
            &&& look(r.store.conversations, id) is Some
            &&& read_count(r, id) == if p > read_count(a, id) {
                p
            } else {
                read_count(a, id)
            }
            &&& p > read_count(a, id) ==> d == (ConversationView {
                unread: came_in_from(conv.messages, p) as usize,
                ..conv
            })
            &&& p <= read_count(a, id) ==> d == conv
        }),
{
    reveal(read_synced);
    let convs = a.store.conversations;
    let (id, conv) = convs[c];
    let list = seq![(sender, ts)];
    assert forall|j: int| 0 <= j < c implies !((#[trigger] convs[j]).1.is_group && has_time(
        convs[j].1.messages,
        ts,
    )) by {}
    group_is_found(convs, ts, 0, c);
    place_is(convs, id, c);
    assert(read_conversation(convs, sender, ts) == Some(id));
    let none = Seq::<(Seq<char>, i64)>::empty();
    assert(list.drop_last() =~= none);
    assert(read_times(convs, none) =~= none);
    place_finds(none, id);
    let t = read_times(convs, list);
    assert(t == put(none, id, ts));
    look_after_put(none, id, ts, id);
    assert(distinct(t));
    reading_up_to(a, t, id);
    let s = conv.messages;
    slot_finds(s, ts);
    let q = slot(s, ts);
    if p < q {
        assert(s[q - 1].timestamp_ms > ts);
    } else if q < p {
        assert(s[p - 1].timestamp_ms > ts);
    }
}

} // verus!
