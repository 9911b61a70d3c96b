//! What is promised of what the overlays ask of the service.
use crate::app::{AppView, Flag, GroupMenuState, Overlay, SendRequestView};
use crate::directory::verify_key;
use crate::keys::KeyCode;
use crate::lists::{
    active_members, addable_rows, forward_key, group_chosen, group_key, member_rows, removable_rows,
};
use crate::menu::{profile_key, request_key};
use crate::order::{lower_second, sorted_by_keeps_items};
use crate::places::filter_has;
use crate::strmap::{at, distinct, holds, look, look_after_del, look_after_put};
use crate::text::{contains_text, folded, trimmed};
use vstd::prelude::*;

verus! {

// ---------------------------------------------------------------------------
// Groups
// ---------------------------------------------------------------------------

/// Members are asked to be added only where the list of whom to add is open, and to
/// be removed only where that of whom to remove is: on Enter, for the group that is
/// looked at, and nobody but who is selected.
pub proof fn members_are_added_or_removed(a: AppView, code: KeyCode)
    ensures
        ({
            let (r, q) = group_key(a, code);
            let g = a.group_menu;
            let picks = code == KeyCode::Enter && a.active_conversation is Some && g.index
                < g.filtered.len();
            &&& q is Some && q->0 is AddGroupMembers <==> g.state == Some(GroupMenuState::AddMember)
                && picks
            &&& q is Some && q->0 is RemoveGroupMembers <==> g.state == Some(
                GroupMenuState::RemoveMember,
            ) && picks
            &&& q is Some && q->0 is AddGroupMembers ==> Some(q->0->AddGroupMembers_group_id)
                == a.active_conversation && q->0->AddGroupMembers_members
                == seq![g.filtered[g.index as int].0]
            &&& q is Some && q->0 is RemoveGroupMembers ==> Some(q->0->RemoveGroupMembers_group_id)
                == a.active_conversation && q->0->RemoveGroupMembers_members
                == seq![g.filtered[g.index as int].0]
            &&& q is Some ==> r.group_menu.state is None
            &&& r.store == a.store && r.active_conversation == a.active_conversation
        }),
{
    reveal(group_key);
    reveal(group_chosen);
}

/// A group is asked to be made, renamed or left only where that was asked for: with
/// the name that was entered, which is not blank, and for a group that is there the
/// one that is looked at.
pub proof fn groups_are_made_renamed_and_left(a: AppView, code: KeyCode)
    ensures
        ({
            let (r, q) = group_key(a, code);
            let g = a.group_menu;
            let named = code == KeyCode::Enter && trimmed(g.input).len() > 0;
            &&& q is Some && q->0 is CreateGroup <==> g.state == Some(GroupMenuState::Create)
                && named
            &&& q is Some && q->0 is CreateGroup ==> q->0->CreateGroup_name == trimmed(g.input)
            &&& q is Some && q->0 is RenameGroup <==> g.state == Some(GroupMenuState::Rename)
                && named && a.active_conversation is Some
            &&& q is Some && q->0 is RenameGroup ==> Some(q->0->RenameGroup_group_id)
                == a.active_conversation && q->0->RenameGroup_name == trimmed(g.input)
            &&& q is Some && q->0 is LeaveGroup <==> g.state == Some(GroupMenuState::LeaveConfirm)
                && code == KeyCode::Char('y') && a.active_conversation is Some
            &&& q is Some && q->0 is LeaveGroup ==> Some(q->0->LeaveGroup_group_id)
                == a.active_conversation
            &&& q is Some ==> q->0 is CreateGroup || q->0 is RenameGroup || q->0 is LeaveGroup
                || q->0 is AddGroupMembers || q->0 is RemoveGroupMembers
        }),
{
    reveal(group_key);
    reveal(group_chosen);
}

/// A text is a part of a name or a number, letter case aside; nothing is part of
/// all.
pub open spec fn is_part(filter: Seq<char>, name: Seq<char>, number: Seq<char>) -> bool {
    folded(filter).len() == 0 || contains_text(folded(name), folded(filter)) || contains_text(
        folded(number),
        folded(filter),
    )
}

/// The members of the group that is looked at.
pub open spec fn members_there(a: AppView) -> Seq<Seq<char>> {
    if a.active_conversation is Some && holds(a.store.groups, a.active_conversation->0) {
        look(a.store.groups, a.active_conversation->0)->0.members
    } else {
        Seq::empty()
    }
}

proof fn sorting_keeps(s: Seq<(Seq<char>, Seq<char>)>, row: (Seq<char>, Seq<char>))
    ensures
        crate::order::sorted_by(s, lower_second()).contains(row) <==> s.contains(row),
{
    let t = crate::order::sorted_by(s, lower_second());
    sorted_by_keeps_items(s, lower_second());
    broadcast use vstd::seq_lib::group_to_multiset_ensures;

    assert(t.to_multiset().contains(row) <==> s.to_multiset().contains(row));
}

/// Whom one can add is every contact with a name who is no member, and whom one can
/// remove is every member but oneself.
proof fn rows_are_whom(a: AppView, row: (Seq<char>, Seq<char>))
    ensures
        addable_rows(a).contains(row) <==> a.store.contact_names.contains(row) && row.1.len() > 0
            && !members_there(a).contains(row.0) && is_part(a.group_menu.filter, row.1, row.0),
        removable_rows(a).contains(row) <==> members_there(a).contains(row.0) && row.1 == (
        match look(a.store.contact_names, row.0) {
            Some(n) => n,
            None => row.0,
        }) && row.0 != a.account && is_part(a.group_menu.filter, row.1, row.0),
{
    let p = |p: (Seq<char>, Seq<char>)|
        p.1.len() > 0 && !active_members(a).contains(p.0) && crate::common::matches_filter(
            a.group_menu.filter,
            p.1,
            p.0,
        );
    let names = a.store.contact_names;
    assert(active_members(a) == members_there(a));
    sorting_keeps(names.filter(p), row);
    filter_has(names, p, row);
    let members = active_members(a);
    let rows = member_rows(members, names);
    let q = |p: (Seq<char>, Seq<char>)|
        p.0 != a.account && crate::common::matches_filter(a.group_menu.filter, p.1, p.0);
    sorting_keeps(rows.filter(q), row);
    filter_has(rows, q, row);
    if rows.contains(row) {
        let i = choose|i: int| 0 <= i < rows.len() && rows[i] == row;
        assert(members[i] == row.0);
    }
    if members.contains(row.0) && row.1 == (match look(names, row.0) {
        Some(n) => n,
        None => row.0,
    }) {
        let i = choose|i: int| 0 <= i < members.len() && members[i] == row.0;
        assert(rows[i] == row);
    }
}

/// The list of whom to add offers every contact with a name who is no member of the
/// group that is looked at, and nobody else; that of whom to remove offers every
/// member but oneself, by name where one is known, and nobody else.
pub proof fn members_are_offered(a: AppView, row: (Seq<char>, Seq<char>))
    requires
        a.group_menu.state == Some(GroupMenuState::Menu),
        a.active_conversation is Some,
        holds(a.store.conversations, a.active_conversation->0),
        look(a.store.conversations, a.active_conversation->0)->0.is_group,
    ensures
        ({
            let (add, none) = group_key(a, KeyCode::Char('a'));
            let (remove, nothing) = group_key(a, KeyCode::Char('r'));
            &&& none is None && nothing is None
            &&& add.group_menu.state == Some(GroupMenuState::AddMember)
            &&& remove.group_menu.state == Some(GroupMenuState::RemoveMember)
            &&& add.group_menu.filtered.contains(row) <==> a.store.contact_names.contains(row)
                && row.1.len() > 0 && !members_there(a).contains(row.0)
            &&& remove.group_menu.filtered.contains(row) <==> members_there(a).contains(row.0)
                && row.0 != a.account && row.1 == (match look(a.store.contact_names, row.0) {
                Some(n) => n,
                None => row.0,
            })
        }),
{
    reveal(group_key);
    reveal(group_chosen);
    let b = crate::lists::group_texts(
        crate::lists::group_selected(a, 0),
        Seq::empty(),
        Seq::empty(),
    );
    rows_are_whom(b, row);
    folded_nothing();
}

proof fn folded_nothing()
    ensures
        folded(Seq::<char>::empty()).len() == 0,
{
    let e = Seq::<char>::empty();
    crate::text::folded_fixed(e);
}

/// Typing in these lists leaves those in them whose name or number holds what was
/// typed, letter case aside.
pub proof fn members_are_found(a: AppView, c: char, row: (Seq<char>, Seq<char>))
    requires
        c != 'j' && c != 'k',
        a.group_menu.state == Some(GroupMenuState::AddMember) || a.group_menu.state == Some(
            GroupMenuState::RemoveMember,
        ),
    ensures
        ({
            let (r, q) = group_key(a, KeyCode::Char(c));
            let typed = a.group_menu.filter.push(c);
            &&& q is None
            &&& r.group_menu.filter == typed
            &&& r.group_menu.state == a.group_menu.state
            &&& a.group_menu.state == Some(GroupMenuState::AddMember) ==> (
            r.group_menu.filtered.contains(row) <==> a.store.contact_names.contains(row)
                && row.1.len() > 0 && !members_there(a).contains(row.0) && is_part(
                typed,
                row.1,
                row.0,
            ))
            &&& a.group_menu.state == Some(GroupMenuState::RemoveMember) ==> (
            r.group_menu.filtered.contains(row) <==> members_there(a).contains(row.0) && row.0
                != a.account && row.1 == (match look(a.store.contact_names, row.0) {
                Some(n) => n,
                None => row.0,
            }) && is_part(typed, row.1, row.0))
        }),
{
    reveal(group_key);
    let g = a.group_menu;
    let b = crate::lists::group_texts(
        crate::lists::group_selected(a, 0),
        g.filter.push(c),
        g.input,
    );
    rows_are_whom(b, row);
}

// ---------------------------------------------------------------------------
// Requests from people who are not known
// ---------------------------------------------------------------------------

/// Accepting who wrote makes the conversation one that is accepted; refusing them
/// takes the conversation away and leaves it. Both are told to the service, for the
/// conversation that is looked at, and no other conversation changes. Nothing else
/// is told.
pub proof fn requests_are_answered(a: AppView, id: Seq<char>, code: KeyCode, other: Seq<char>)
    requires
        a.active_conversation == Some(id),
        holds(a.store.conversations, id),
        distinct(a.store.conversations),
    ensures
        ({
            let (r, q) = request_key(a, code);
            let is_group = look(a.store.conversations, id)->0.is_group;
            &&& code == KeyCode::Char('a') ==> {
                &&& q == Some(
                    SendRequestView::MessageRequestResponse {
                        recipient: id,
                        is_group,
                        response_type: "accept"@,
                    },
                )
                &&& look(r.store.conversations, id) is Some
                &&& look(r.store.conversations, id)->0.accepted
                &&& look(r.store.conversations, id)->0.messages == look(
                    a.store.conversations,
                    id,
                )->0.messages
                &&& r.active_conversation == a.active_conversation
                &&& r.store.conversation_order == a.store.conversation_order
                &&& !r.overlays.contains(Overlay::MessageRequest)
            }
            &&& code == KeyCode::Char('d') ==> {
                &&& q == Some(
                    SendRequestView::MessageRequestResponse {
                        recipient: id,
                        is_group,
                        response_type: "delete"@,
                    },
                )
                &&& look(r.store.conversations, id) is None
                &&& r.active_conversation is None
                &&& !r.store.conversation_order.contains(id)
                &&& other != id ==> (r.store.conversation_order.contains(other)
                    <==> a.store.conversation_order.contains(other))
            }
            &&& other != id ==> look(r.store.conversations, other) == look(
                a.store.conversations,
                other,
            )
            &&& q is Some ==> code == KeyCode::Char('a') || code == KeyCode::Char('d')
        }),
{
    reveal(request_key);
    let c = at(a.store.conversations, id);
    let d = crate::conversation_store::ConversationView { accepted: true, ..c };
    look_after_put(a.store.conversations, id, d, id);
    look_after_put(a.store.conversations, id, d, other);
    look_after_del(a.store.conversations, id, id);
    look_after_del(a.store.conversations, id, other);
    filter_has(a.store.conversation_order, crate::menu::other_than(id), id);
    filter_has(a.store.conversation_order, crate::menu::other_than(id), other);
}

// ---------------------------------------------------------------------------
// Forwarding, verifying, the profile
// ---------------------------------------------------------------------------

/// Forwarding sends the text that was taken, marked as forwarded, to the conversation
/// that is selected, as a group where it is one, with nothing else. Nothing is sent
/// by any other key.
pub proof fn forwarding_sends_to_the_selected(a: AppView, code: KeyCode, now_ms: i64)
    ensures
        ({
            let (r, q) = forward_key(a, code, now_ms);
            let f = a.forward;
            &&& q is Some <==> code == KeyCode::Enter && f.index < f.filtered.len()
            &&& q is Some ==> {
                let id = f.filtered[f.index as int].0;
                &&& q->0 is Message
                &&& q->0->Message_recipient == id
                &&& q->0->Message_body == "[Forwarded]\n"@ + f.body
                &&& q->0->Message_is_group == match look(a.store.conversations, id) {
                    Some(c) => c.is_group,
                    None => false,
                }
                &&& q->0->Message_local_ts_ms == now_ms
                &&& q->0->Message_attachment is None && q->0->Message_mentions.len() == 0
                &&& q->0->Message_quote_author is None && q->0->Message_quote_body is None
                    && q->0->Message_quote_timestamp is None
                &&& !r.overlays.contains(Overlay::Forward)
            }
            &&& r.store.conversations == a.store.conversations
        }),
{
    reveal(forward_key);
}

/// Someone is trusted only where that was confirmed: by a second press while nothing
/// else was pressed between, for the identity that is selected, with its safety
/// number, which is known.
pub proof fn trust_is_confirmed(a: AppView, code: KeyCode)
    ensures
        ({
            let (r, q) = verify_key(a, code);
            let v = a.verify;
            let press = code == KeyCode::Char('v') || code == KeyCode::Enter;
            let known = v.index < v.identities.len() && v.identities[v.index as int].safety_number.len()
                > 0;
            &&& q is Some <==> press && known && a.flags.contains(Flag::VerifyConfirming)
                && v.identities[v.index as int].number is Some
            &&& q is Some ==> q->0 is TrustIdentity && Some(q->0->TrustIdentity_recipient)
                == v.identities[v.index as int].number && q->0->TrustIdentity_safety_number
                == v.identities[v.index as int].safety_number
            &&& press && known && !a.flags.contains(Flag::VerifyConfirming) ==> r.flags.contains(
                Flag::VerifyConfirming,
            )
            &&& code == KeyCode::Down || code == KeyCode::Up ==> !r.flags.contains(
                Flag::VerifyConfirming,
            )
            &&& r.store == a.store
        }),
{
    reveal(verify_key);
}

/// One's profile is sent as it was entered, each field in its place, and only where
/// the given name is not blank. What is typed goes into the field that is edited.
pub proof fn profiles_are_sent(a: AppView, code: KeyCode)
    requires
        a.profile.fields.len() == 4,
    ensures
        ({
            let (r, q) = profile_key(a, code);
            let p = a.profile;
            let editing = a.flags.contains(Flag::EditingProfile);
            &&& q is Some <==> code == KeyCode::Enter && !editing && p.index >= 4 && trimmed(
                p.fields[0],
            ).len() > 0
            &&& q is Some ==> q->0 == (SendRequestView::UpdateProfile {
                given_name: p.fields[0],
                family_name: p.fields[1],
                about: p.fields[2],
                about_emoji: p.fields[3],
            })
            &&& editing && code == KeyCode::Enter && p.index < 4 ==> r.profile.fields
                == p.fields.update(p.index as int, p.edit_buffer) && !r.flags.contains(
                Flag::EditingProfile,
            )
            &&& !(editing && code == KeyCode::Enter) ==> r.profile.fields == p.fields
            &&& !editing && code == KeyCode::Enter && p.index < 4 ==> r.profile.edit_buffer
                == p.fields[p.index as int] && r.flags.contains(Flag::EditingProfile)
        }),
{
    reveal(profile_key);
}

} // verus!
