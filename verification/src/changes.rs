//! What is promised of changes to messages that are there: reactions, edits,
//! deletions, pins and polls.
use crate::actions::{
    copying_asked, delete_key, deletion_asked, edit_begun, forwarding_begun, has_own, is_own,
    number_named, own_toggled, reacting_begun, reaction_key, reaction_sent, reply_begun,
    QUICK_REACTIONS,
};
use crate::app::{AppView, EffectView, InputMode, Overlay, SendRequestView};
use crate::arrivals::messages_of;
use crate::conversation_store::DisplayMessageView;
use crate::db::DbWriteView;
use crate::events::{
    event_taken, is_target, message_deleted, name_learnt, one_per_sender, poll_ended, reacted,
    reaction_place, reaction_place_finds, reaction_removed, reaction_set, text_edited,
};
use crate::keys::KeyCode;
use crate::menu::marked;
use crate::places::{
    changing_changes_only, filter_has, message_of_time_is_found, newest_at, none_at, only_changed,
    pointed_is_selected, points_at, writes_last,
};
use crate::signal::{ReactionView, SignalEventView};
use crate::strmap::{at, look};
use vstd::prelude::*;

verus! {

// ---------------------------------------------------------------------------
// Reactions
// ---------------------------------------------------------------------------

/// Of reactions, one of somebody is set, and those of all others are as they were.
pub open spec fn reaction_is(
    s: Seq<ReactionView>,
    t: Seq<ReactionView>,
    sender: Seq<char>,
    emoji: Option<Seq<char>>,
) -> bool {
    forall|x: ReactionView| #[trigger]
        t.contains(x) <==> if x.sender == sender {
            Some(x.emoji) == emoji
        } else {
            s.contains(x)
        }
}

proof fn setting_sets(s: Seq<ReactionView>, sender: Seq<char>, emoji: Seq<char>)
    requires
        one_per_sender(s),
    ensures
        reaction_is(s, reaction_set(s, sender, emoji), sender, Some(emoji)),
        one_per_sender(reaction_set(s, sender, emoji)),
{
    let t = reaction_set(s, sender, emoji);
    reaction_place_finds(s, sender, 0);
    let p = reaction_place(s, sender, 0);
    assert forall|x: ReactionView| #[trigger] t.contains(x) <==> if x.sender == sender {
        x.emoji == emoji
    } else {
        s.contains(x)
    } by {
        if t.contains(x) {
            let i = choose|i: int| 0 <= i < t.len() && t[i] == x;
            if i != p && i < s.len() {
                assert(t[i] == s[i]);
                if x.sender == sender && p < s.len() {
                    if i < p {
                        assert(s[i].sender != s[p].sender);
                    } else {
                        assert(s[p].sender != s[i].sender);
                    }
                }
            }
        }
        if x.sender == sender && x.emoji == emoji {
            if p < s.len() {
                assert(t[p] == x);
            } else {
                assert(t[s.len() as int] == x);
            }
        }
        if x.sender != sender && s.contains(x) {
            let i = choose|i: int| 0 <= i < s.len() && s[i] == x;
            assert(t[i] == x);
        }
    }
    assert forall|i: int, j: int| 0 <= i < j < t.len() implies (#[trigger] t[i]).sender != (
    #[trigger] t[j]).sender by {
        if j < s.len() {
            assert(s[i].sender != s[j].sender);
        } else {
            assert(s[i].sender != sender);
        }
    }
}

proof fn removing_removes(s: Seq<ReactionView>, sender: Seq<char>)
    ensures
        reaction_is(s, reaction_removed(s, sender), sender, None),
{
    let t = reaction_removed(s, sender);
    assert forall|x: ReactionView| #[trigger] t.contains(x) <==> if x.sender == sender {
        false
    } else {
        s.contains(x)
    } by {
        filter_has(s, |r: ReactionView| r.sender != sender, x);
    }
}

/// A reaction names the author of a message: one's own number for one's own, else
/// the name that the message is shown with, or a number that goes by it.
pub open spec fn names_author(a: AppView, m: DisplayMessageView, author: Seq<char>) -> bool {
    if m.sender == "you"@ {
        author == a.account
    } else {
        author == m.sender || look(a.store.contact_names, author) == Some(m.sender)
    }
}

/// A reaction that comes in is shown at the message that it is for, by the name of
/// who reacted, in place of an earlier one of theirs; one that is taken back is gone.
/// The reactions of others stay, and nothing else changes in any conversation.
pub proof fn reactions_are_shown(
    a: AppView,
    id: Seq<char>,
    emoji: Seq<char>,
    sender: Seq<char>,
    author: Seq<char>,
    ts: i64,
    is_remove: bool,
    i: int,
    now_ms: i64,
    clock_ms: u64,
)
    requires
        newest_at(messages_of(a.store, id), ts, i),
        names_author(a, messages_of(a.store, id)[i], author),
        one_per_sender(messages_of(a.store, id)[i].reactions),
    ensures
        ({
            let r = event_taken(
                a,
                SignalEventView::ReactionReceived {
                    conv_id: id,
                    emoji,
                    sender,
                    sender_name: None,
                    target_author: author,
                    target_timestamp: ts,
                    is_remove,
                },
                now_ms,
                clock_ms,
            );
            let m = messages_of(a.store, id)[i];
            let x = messages_of(r.store, id)[i];
            let name = if sender == a.account {
                "you"@
            } else {
                match look(a.store.contact_names, sender) {
                    Some(n) => n,
                    None => sender,
                }
            };
            &&& only_changed(
                a,
                r,
                id,
                i,
                DisplayMessageView { reactions: x.reactions, ..m },
            )
            &&& reaction_is(
                m.reactions,
                x.reactions,
                name,
                if is_remove {
                    None
                } else {
                    Some(emoji)
                },
            )
            &&& writes_last(
                a,
                r,
                if is_remove {
                    DbWriteView::RemoveReaction { conv_id: id, timestamp_ms: ts, author, sender }
                } else {
                    DbWriteView::UpsertReaction {
                        conv_id: id,
                        timestamp_ms: ts,
                        author,
                        sender,
                        emoji,
                    }
                },
            )
        }),
{
    reveal(reacted);
    reveal(name_learnt);
    let s = messages_of(a.store, id);
    message_of_time_is_found(s, ts, i);
    let m = s[i];
    let name = if sender == a.account {
        "you"@
    } else {
        a.name_of(sender)
    };
    let x = DisplayMessageView {
        reactions: if is_remove {
            reaction_removed(m.reactions, name)
        } else {
            reaction_set(m.reactions, name, emoji)
        },
        ..m
    };
    setting_sets(m.reactions, name, emoji);
    removing_removes(m.reactions, name);
    let r = reacted(a, id, emoji, sender, author, ts, is_remove);
    assert(is_target(a, m, author));
    changing_changes_only(a, r, id, i, x);
    assert(r.jobs.drop_last() =~= a.jobs);
}

/// A reaction to a message that is not there, or that somebody else wrote, changes
/// no conversation.
pub proof fn other_reactions_change_nothing(
    a: AppView,
    id: Seq<char>,
    emoji: Seq<char>,
    sender: Seq<char>,
    author: Seq<char>,
    ts: i64,
    is_remove: bool,
    i: int,
    now_ms: i64,
    clock_ms: u64,
)
    requires
        none_at(messages_of(a.store, id), ts) || (newest_at(messages_of(a.store, id), ts, i)
            && !names_author(a, messages_of(a.store, id)[i], author)),
    ensures
        event_taken(
            a,
            SignalEventView::ReactionReceived {
                conv_id: id,
                emoji,
                sender,
                sender_name: None,
                target_author: author,
                target_timestamp: ts,
                is_remove,
            },
            now_ms,
            clock_ms,
        ).store.conversations == a.store.conversations,
{
    reveal(reacted);
    reveal(name_learnt);
    message_of_time_is_found(messages_of(a.store, id), ts, i);
}

proof fn named_number_is(names: Seq<(Seq<char>, Seq<char>)>, name: Seq<char>, i: int)
    requires
        0 <= i <= names.len(),
    ensures
        match number_named(names, name, i) {
            Some(n) => exists|j: int|
                0 <= j < names.len() && (#[trigger] names[j]) == (n, name),
            None => forall|j: int| i <= j < names.len() ==> (#[trigger] names[j]).1 != name,
        },
    decreases names.len() - i,
{
    if i < names.len() && names[i].1 != name {
        named_number_is(names, name, i + 1);
    } else if i < names.len() {
        assert(names[i] == (names[i].0, name));
    }
}

/// Reacting to the message that is pointed at asks the service for it, in the
/// conversation, by the time of the message and its author: for one's own message
/// oneself, else a number that goes by the name shown. One's own reaction is there
/// afterwards, or gone where it was there already; the reactions of others stay.
pub proof fn reacting_asks_for_it(a: AppView, id: Seq<char>, i: int, emoji: Seq<char>)
    requires
        points_at(a, id, i),
        one_per_sender(messages_of(a.store, id)[i].reactions),
    ensures
        ({
            let (r, q) = reaction_sent(a, emoji);
            let m = messages_of(a.store, id)[i];
            let x = messages_of(r.store, id)[i];
            let had = m.reactions.contains(ReactionView { emoji, sender: "you"@ });
            &&& only_changed(a, r, id, i, DisplayMessageView { reactions: x.reactions, ..m })
            &&& reaction_is(
                m.reactions,
                x.reactions,
                "you"@,
                if had {
                    None
                } else {
                    Some(emoji)
                },
            )
            &&& q is Some
            &&& q->0 matches SendRequestView::Reaction {
                conv_id,
                emoji: e,
                is_group,
                target_author,
                target_timestamp,
                remove,
            } && conv_id == id && e == emoji && is_group == look(
                a.store.conversations,
                id,
            )->0.is_group && target_timestamp == m.timestamp_ms && remove == had && (m.sender
                == "you"@ ==> target_author == a.account) && (m.sender != "you"@ ==> target_author
                == m.sender || a.store.contact_names.contains((target_author, m.sender))) && (
            m.sender != "you"@ && (exists|j: int|
                0 <= j < a.store.contact_names.len() && (#[trigger] a.store.contact_names[j]).1
                    == m.sender) ==> a.store.contact_names.contains((target_author, m.sender)))
        }),
{
    reveal(reaction_sent);
    pointed_is_selected(a, id, i);
    let (r, q) = reaction_sent(a, emoji);
    let m = messages_of(a.store, id)[i];
    let s = m.reactions;
    let mine = ReactionView { emoji, sender: "you"@ };
    assert(has_own(s, emoji) == s.contains(mine)) by {
        if has_own(s, emoji) {
            let j = choose|j: int| 0 <= j < s.len() && is_own(#[trigger] s[j], emoji);
            assert(s[j] == mine);
        }
        if s.contains(mine) {
            let j = choose|j: int| 0 <= j < s.len() && s[j] == mine;
            assert(is_own(s[j], emoji));
        }
    }
    let t = own_toggled(s, emoji);
    changing_changes_only(a, r, id, i, DisplayMessageView { reactions: t, ..m });
    if has_own(s, emoji) {
        let p = |r: ReactionView| !(r.sender == "you"@ && r.emoji == emoji);
        assert forall|x: ReactionView| #[trigger] t.contains(x) <==> if x.sender == "you"@ {
            false
        } else {
            s.contains(x)
        } by {
            filter_has(s, p, x);
            if s.contains(x) && x.sender == "you"@ && x.emoji != emoji {
                let j = choose|j: int| 0 <= j < s.len() && s[j] == x;
                let k = choose|k: int| 0 <= k < s.len() && s[k] == mine;
                if j < k {
                    assert(s[j].sender != s[k].sender);
                } else {
                    assert(s[k].sender != s[j].sender);
                }
            }
        }
    } else {
        setting_sets(s, "you"@, emoji);
    }
    if m.sender != "you"@ {
        named_number_is(a.store.contact_names, m.sender, 0);
    }
}

/// A digit in the reaction picker reacts with the reaction of that place, and closes
/// it.
pub proof fn digits_react(a: AppView, id: Seq<char>, i: int, c: char)
    requires
        points_at(a, id, i),
        '1' <= c <= '8',
    ensures
        ({
            let (r, q) = reaction_key(a, KeyCode::Char(c));
            &&& q is Some
            &&& q->0 is Reaction
            &&& q->0->Reaction_emoji == QUICK_REACTIONS@[c as int - '1' as int]@
            &&& q->0->Reaction_target_timestamp == messages_of(a.store, id)[i].timestamp_ms
            &&& !r.overlays.contains(Overlay::ReactionPicker)
        }),
{
    reveal(reaction_key);
    reveal(reaction_sent);
    let b = crate::actions::reaction_chosen(a, (c as int - '1' as int) as usize).closed(
        Overlay::ReactionPicker,
    );
    pointed_is_selected(b, id, i);
    assert(QUICK_REACTIONS@.len() == 8);
}

// ---------------------------------------------------------------------------
// Edits and deletions
// ---------------------------------------------------------------------------

/// An edit that comes in gives the message of its time the new text, and marks it as
/// edited. Nothing else of the message changes but what was kept of the old text,
/// and nothing else in any conversation; the new text is written.
pub proof fn edits_change_the_text(
    a: AppView,
    id: Seq<char>,
    ts: i64,
    body: Seq<char>,
    i: int,
    now_ms: i64,
    clock_ms: u64,
)
    requires
        newest_at(messages_of(a.store, id), ts, i),
    ensures
        ({
            let r = event_taken(
                a,
                SignalEventView::EditReceived { conv_id: id, target_timestamp: ts, new_body: body },
                now_ms,
                clock_ms,
            );
            &&& only_changed(
                a,
                r,
                id,
                i,
                DisplayMessageView {
                    body,
                    is_edited: true,
                    body_raw: None,
                    mentions: Seq::empty(),
                    mention_ranges: Seq::empty(),
                    ..messages_of(a.store, id)[i]
                },
            )
            &&& writes_last(
                a,
                r,
                DbWriteView::UpdateMessageBody { conv_id: id, timestamp_ms: ts, body },
            )
        }),
{
    reveal(text_edited);
    message_of_time_is_found(messages_of(a.store, id), ts, i);
    let r = text_edited(a, id, ts, body);
    changing_changes_only(
        a,
        r,
        id,
        i,
        DisplayMessageView {
            body,
            is_edited: true,
            body_raw: None,
            mentions: Seq::empty(),
            mention_ranges: Seq::empty(),
            ..messages_of(a.store, id)[i]
        },
    );
    assert(r.jobs.drop_last() =~= a.jobs);
}

/// A message after its deletion: marked as deleted, with its text and its reactions
/// gone.
pub open spec fn gone(m: DisplayMessageView) -> DisplayMessageView {
    DisplayMessageView {
        body: "[deleted]"@,
        is_deleted: true,
        reactions: Seq::empty(),
        body_raw: None,
        mentions: Seq::empty(),
        mention_ranges: Seq::empty(),
        ..m
    }
}

/// A deletion that comes in takes the text of the message of its time and its
/// reactions, and nothing else in any conversation; it is written.
pub proof fn deletions_take_the_text(
    a: AppView,
    id: Seq<char>,
    ts: i64,
    i: int,
    now_ms: i64,
    clock_ms: u64,
)
    requires
        newest_at(messages_of(a.store, id), ts, i),
    ensures
        ({
            let r = event_taken(
                a,
                SignalEventView::RemoteDeleteReceived { conv_id: id, target_timestamp: ts },
                now_ms,
                clock_ms,
            );
            &&& only_changed(a, r, id, i, gone(messages_of(a.store, id)[i]))
            &&& writes_last(
                a,
                r,
                DbWriteView::MarkMessageDeleted { conv_id: id, timestamp_ms: ts },
            )
        }),
{
    reveal(message_deleted);
    message_of_time_is_found(messages_of(a.store, id), ts, i);
    let r = message_deleted(a, id, ts);
    changing_changes_only(a, r, id, i, gone(messages_of(a.store, id)[i]));
    assert(r.jobs.drop_last() =~= a.jobs);
}

/// An edit, a deletion or the end of a poll for a message that is not there changes
/// no conversation.
pub proof fn strays_change_nothing(
    a: AppView,
    id: Seq<char>,
    ts: i64,
    body: Seq<char>,
    now_ms: i64,
    clock_ms: u64,
)
    requires
        none_at(messages_of(a.store, id), ts),
    ensures
        event_taken(
            a,
            SignalEventView::EditReceived { conv_id: id, target_timestamp: ts, new_body: body },
            now_ms,
            clock_ms,
        ).store == a.store,
        event_taken(
            a,
            SignalEventView::RemoteDeleteReceived { conv_id: id, target_timestamp: ts },
            now_ms,
            clock_ms,
        ).store == a.store,
        event_taken(
            a,
            SignalEventView::PollTerminated { conv_id: id, target_timestamp: ts },
            now_ms,
            clock_ms,
        ).store == a.store,
{
    reveal(text_edited);
    reveal(message_deleted);
    reveal(poll_ended);
    message_of_time_is_found(messages_of(a.store, id), ts, 0);
}

/// Confirming a deletion takes the text of the message that is pointed at and its
/// reactions. `y` also asks the service to delete it for all where it is one's own;
/// `l` asks nobody. `n` and Esc delete nothing.
pub proof fn deleting_deletes_what_is_pointed_at(a: AppView, id: Seq<char>, i: int)
    requires
        points_at(a, id, i),
    ensures
        ({
            let m = messages_of(a.store, id)[i];
            let (y, for_all) = delete_key(a, KeyCode::Char('y'));
            let (l, for_me) = delete_key(a, KeyCode::Char('l'));
            let (n, none) = delete_key(a, KeyCode::Char('n'));
            let (e, nothing) = delete_key(a, KeyCode::Esc);
            &&& only_changed(a, y, id, i, gone(m))
            &&& only_changed(a, l, id, i, gone(m))
            &&& n.store == a.store && e.store == a.store
            &&& for_me is None && none is None && nothing is None
            &&& for_all == if m.sender == "you"@ {
                Some(
                    SendRequestView::RemoteDelete {
                        recipient: id,
                        is_group: look(a.store.conversations, id)->0.is_group,
                        target_timestamp: m.timestamp_ms,
                    },
                )
            } else {
                None
            }
            &&& !y.overlays.contains(Overlay::DeleteConfirm)
            &&& writes_last(
                a,
                y,
                DbWriteView::MarkMessageDeleted { conv_id: id, timestamp_ms: m.timestamp_ms },
            )
        }),
{
    reveal(delete_key);
    let b = a.closed(Overlay::DeleteConfirm);
    pointed_is_selected(b, id, i);
    let m = messages_of(a.store, id)[i];
    let y = delete_key(a, KeyCode::Char('y')).0;
    changing_changes_only(a, y, id, i, gone(m));
    changing_changes_only(a, delete_key(a, KeyCode::Char('l')).0, id, i, gone(m));
    assert(y.jobs.drop_last() =~= a.jobs);
}

// ---------------------------------------------------------------------------
// Beginning a reply, an edit, a forwarding, a copy
// ---------------------------------------------------------------------------

/// Replying quotes the message that is pointed at: its time, its author and the
/// beginning of its text. Editing takes up one's own message: its time, its
/// conversation and its text. Forwarding takes its text. Copying hands out its
/// text. Lines of the client and deleted messages are neither answered, edited nor
/// forwarded.
pub proof fn actions_take_what_is_pointed_at(a: AppView, id: Seq<char>, i: int)
    requires
        points_at(a, id, i),
    ensures
        ({
            let m = messages_of(a.store, id)[i];
            let live = !m.is_system && !m.is_deleted;
            let number = if m.sender_id.len() == 0 || m.sender_id == "you"@ {
                a.account
            } else {
                m.sender_id
            };
            &&& live ==> reply_begun(a).reply_target == Some(
                (
                    number,
                    if m.body.len() > 50 {
                        m.body.take(50) + "…"@
                    } else {
                        m.body
                    },
                    m.timestamp_ms,
                ),
            ) && reply_begun(a).mode == InputMode::Insert
            &&& live && m.sender == "you"@ ==> edit_begun(a).editing_message == Some(
                (m.timestamp_ms, id),
            ) && edit_begun(a).input.before + edit_begun(a).input.after == m.body && edit_begun(
                a,
            ).mode == InputMode::Insert
            &&& live ==> forwarding_begun(a).forward.body == m.body && forwarding_begun(
                a,
            ).overlays.contains(Overlay::Forward)
            &&& !live ==> reply_begun(a) == a && edit_begun(a) == a && forwarding_begun(a) == a
            &&& m.sender != "you"@ ==> edit_begun(a) == a
            &&& copying_asked(a, false).effects == a.effects.push(EffectView::CopyText(m.body))
            &&& copying_asked(a, true).effects == a.effects.push(
                if m.is_system {
                    EffectView::CopyText(m.body)
                } else {
                    EffectView::CopyLine {
                        timestamp_ms: m.timestamp,
                        sender: m.sender,
                        body: m.body,
                    }
                },
            )
            &&& !m.is_system ==> reacting_begun(a).overlays.contains(Overlay::ReactionPicker)
            &&& m.is_system ==> reacting_begun(a) == a
            &&& live ==> deletion_asked(a).overlays.contains(Overlay::DeleteConfirm)
            &&& !live ==> deletion_asked(a) == a
            &&& reply_begun(a).store == a.store && edit_begun(a).store == a.store
        }),
{
    reveal(reply_begun);
    reveal(edit_begun);
    reveal(forwarding_begun);
    reveal(copying_asked);
    reveal(reacting_begun);
    reveal(deletion_asked);
    pointed_is_selected(a, id, i);
    let m = messages_of(a.store, id)[i];
    assert(edit_begun(a).input.before + edit_begun(a).input.after =~= m.body || edit_begun(a) == a);
}

} // verus!
