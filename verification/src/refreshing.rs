//! What a list of contacts or groups leaves alone: names in messages are resolved
//! anew, and texts that were deleted, edited or sent stay what they became.
use crate::actions::{selected_place, selection_deleted};
use crate::app::AppView;
use crate::conversation_store::{
    map_messages, named_message, rebuilt, slot, slot_finds, ConversationView, DisplayMessageView,
};
use crate::directory::names_refreshed;
use crate::events::{deleted_message, located, message_deleted, message_in, text_edited};
use crate::offsets::unit_len;
use crate::outgoing::{outgoing_claims, wire_text};
use crate::sending::{
    edit_sent, lead_of, message_sent, names_known, outgoing_message, own_text_stays, with_own_text,
};
use crate::strmap::{at, holds, look_after_put, place, place_finds, place_is};
use vstd::prelude::*;

verus! {

proof fn mapped_look(
    convs: Seq<(Seq<char>, ConversationView)>,
    f: spec_fn(DisplayMessageView) -> DisplayMessageView,
    id: Seq<char>,
)
    requires
        holds(convs, id),
    ensures
        holds(map_messages(convs, f), id),
        at(map_messages(convs, f), id).messages == at(convs, id).messages.map_values(f),
{
    place_finds(convs, id);
    let t = map_messages(convs, f);
    assert forall|j: int| 0 <= j < place(convs, id) implies (#[trigger] t[j]).0 != id by {
        assert(convs[j].0 != id);
    }
    place_is(t, id, place(convs, id));
}

/// Where names are resolved anew, a message gets the text that its raw text has
/// with the names that are known now. One that keeps no raw text keeps its text.
pub proof fn only_mentions_are_renamed(a: AppView, id: Seq<char>, i: int)
    requires
        holds(a.store.conversations, id),
        0 <= i < at(a.store.conversations, id).messages.len(),
    ensures
        holds(names_refreshed(a).store.conversations, id),
        at(names_refreshed(a).store.conversations, id).messages.len() == at(
            a.store.conversations,
            id,
        ).messages.len(),
        message_in(names_refreshed(a), id, i).body == rebuilt(
            message_in(a, id, i),
            a.store.uuid_to_name,
        ).body,
        message_in(names_refreshed(a), id, i).is_deleted == message_in(a, id, i).is_deleted,
        message_in(names_refreshed(a), id, i).is_edited == message_in(a, id, i).is_edited,
{
    reveal(names_refreshed);
    let names = crate::conversation_store::known_names(a.store);
    let s = crate::conversation_store::with_stored_names(a.store, a.account);
    let f = |m: DisplayMessageView| named_message(m, a.account, names);
    let g = |m: DisplayMessageView| rebuilt(m, s.uuid_to_name);
    mapped_look(a.store.conversations, f, id);
    mapped_look(s.conversations, g, id);
}

proof fn replaced(a: AppView, id: Seq<char>, i: int, m: DisplayMessageView)
    requires
        holds(a.store.conversations, id),
        0 <= i < at(a.store.conversations, id).messages.len(),
    ensures
        holds(a.with_msg(id, i, m).store.conversations, id),
        at(a.with_msg(id, i, m).store.conversations, id).messages.len() == at(
            a.store.conversations,
            id,
        ).messages.len(),
        message_in(a.with_msg(id, i, m), id, i) == m,
{
    let c = at(a.store.conversations, id);
    look_after_put(
        a.store.conversations,
        id,
        ConversationView { messages: c.messages.update(i, m), ..c },
        id,
    );
}

proof fn located_is_there(a: AppView, id: Seq<char>, ts: i64)
    ensures
        located(a, id, ts) is Some ==> holds(a.store.conversations, id) && 0 <= located(
            a,
            id,
            ts,
        )->0 < at(a.store.conversations, id).messages.len(),
{
    if holds(a.store.conversations, id) {
        slot_finds(at(a.store.conversations, id).messages, ts);
    }
}

/// A message that someone deleted stays deleted, with its text gone.
pub proof fn deletions_stay(a: AppView, id: Seq<char>, ts: i64)
    requires
        located(a, id, ts) is Some,
    ensures
        message_in(names_refreshed(message_deleted(a, id, ts)), id, located(a, id, ts)->0).body
            == "[deleted]"@,
        message_in(
            names_refreshed(message_deleted(a, id, ts)),
            id,
            located(a, id, ts)->0,
        ).is_deleted,
{
    reveal(message_deleted);
    let i = located(a, id, ts)->0;
    located_is_there(a, id, ts);
    replaced(a, id, i, deleted_message(message_in(a, id, i)));
    only_mentions_are_renamed(message_deleted(a, id, ts), id, i);
}

/// A message that one deleted stays deleted, with its text gone.
pub proof fn own_deletions_stay(a: AppView)
    requires
        selected_place(a) is Some,
    ensures
        message_in(
            names_refreshed(selection_deleted(a)),
            a.active_conversation->0,
            selected_place(a)->0,
        ).body == "[deleted]"@,
        message_in(
            names_refreshed(selection_deleted(a)),
            a.active_conversation->0,
            selected_place(a)->0,
        ).is_deleted,
{
    let id = a.active_conversation->0;
    let i = selected_place(a)->0;
    replaced(a, id, i, deleted_message(message_in(a, id, i)));
    only_mentions_are_renamed(selection_deleted(a), id, i);
}

/// A message that someone edited keeps its new text.
pub proof fn edits_stay(a: AppView, id: Seq<char>, ts: i64, body: Seq<char>)
    requires
        located(a, id, ts) is Some,
    ensures
        message_in(names_refreshed(text_edited(a, id, ts, body)), id, located(a, id, ts)->0).body
            == body,
{
    reveal(text_edited);
    let i = located(a, id, ts)->0;
    located_is_there(a, id, ts);
    replaced(
        a,
        id,
        i,
        DisplayMessageView {
            is_edited: true,
            ..crate::events::with_plain_text(message_in(a, id, i), body)
        },
    );
    only_mentions_are_renamed(text_edited(a, id, ts, body), id, i);
}

/// A message that one edited keeps its new text, as long as the names stay.
pub proof fn own_edits_stay(a: AppView, ts: i64, id: Seq<char>, text: Seq<char>, now_ms: i64)
    requires
        located(a, id, ts) is Some,
        message_in(a, id, located(a, id, ts)->0).sender == "you"@,
        0 < text.len() <= usize::MAX,
        names_known(a, a.store.uuid_to_name),
        unit_len(wire_text(text, outgoing_claims(a, text))) <= usize::MAX,
    ensures
        message_in(
            names_refreshed(edit_sent(a, ts, id, text, now_ms).0),
            id,
            located(a, id, ts)->0,
        ).body == text,
{
    reveal(edit_sent);
    let i = located(a, id, ts)->0;
    located_is_there(a, id, ts);
    let none = Seq::<char>::empty();
    let was = message_in(a, id, i);
    let m = DisplayMessageView { is_edited: true, ..with_own_text(a, was, none, text) };
    assert(m == with_own_text(a, DisplayMessageView { is_edited: true, ..was }, none, text));
    assert(none + text =~= text);
    own_text_stays(
        a,
        DisplayMessageView { is_edited: true, ..was },
        none,
        text,
        a.store.uuid_to_name,
    );
    replaced(a, id, i, m);
    only_mentions_are_renamed(edit_sent(a, ts, id, text, now_ms).0, id, i);
}

/// A message that was sent keeps the text that it was sent with, and what is shown
/// before it, as long as the names stay.
pub proof fn sent_texts_stay(a: AppView, id: Seq<char>, text: Seq<char>, now_ms: i64)
    requires
        holds(a.store.conversations, id),
        text.len() <= usize::MAX,
        names_known(a, a.store.uuid_to_name),
        unit_len(lead_of(a, text)) + unit_len(wire_text(text, outgoing_claims(a, text)))
            <= usize::MAX,
    ensures
        message_in(
            names_refreshed(message_sent(a, id, text, now_ms)),
            id,
            slot(at(a.store.conversations, id).messages, now_ms),
        ).body == lead_of(a, text) + text,
{
    reveal(message_sent);
    let c = at(a.store.conversations, id);
    let m = outgoing_message(a, id, text, now_ms);
    let p = slot(c.messages, now_ms);
    slot_finds(c.messages, now_ms);
    assert(m == with_own_text(a, m, lead_of(a, text), text));
    own_text_stays(a, m, lead_of(a, text), text, a.store.uuid_to_name);
    look_after_put(
        a.store.conversations,
        id,
        ConversationView { messages: c.messages.insert(p, m), ..c },
        id,
    );
    let b = message_sent(a, id, text, now_ms);
    assert(message_in(b, id, p) == m);
    only_mentions_are_renamed(b, id, p);
}

} // verus!
