//! Contacts, groups and identities that the service tells of.
use crate::app::{App, AppView, Flag, Overlay, SendRequest, SendRequestView, VerifyOverlayStateView};
use crate::common::{filter_none, filter_take};
use crate::conversation_store::{
    all_rebuild_writes, with_mentions_rebuilt, with_stored_names, ConversationStoreView,
    ConversationView,
};
use crate::db::{quiet, DbJobView, DbWrite, DbWriteView};
use crate::keys::KeyCode;
use crate::lists::lists_text;
use crate::navigation::ensured;
use crate::signal::{
    Contact, ContactView, Duplicate, Group, GroupView, IdentityInfo, IdentityInfoView, TrustLevel,
};
use crate::strmap::{at, holds, look, put, put_new, StrMap};
use crate::text::same;
use vstd::prelude::*;

verus! {

// ---------------------------------------------------------------------------
// Contacts
// ---------------------------------------------------------------------------

/// The store with a contact's name and uuid known.
pub open spec fn contact_known(s: ConversationStoreView, c: ContactView) -> ConversationStoreView {
    let named = c.name is Some && c.name->0.len() > 0;
    ConversationStoreView {
        contact_names: if named {
            put(s.contact_names, c.number, c.name->0)
        } else {
            s.contact_names
        },
        uuid_to_name: if named && c.uuid is Some {
            put(s.uuid_to_name, c.uuid->0, c.name->0)
        } else {
            s.uuid_to_name
        },
        number_to_uuid: match c.uuid {
            Some(uuid) => put(s.number_to_uuid, c.number, uuid),
            None => s.number_to_uuid,
        },
        ..s
    }
}

/// The state with a contact known, and the conversation with them under their
/// name where there is one.
#[verifier::opaque]
pub open spec fn contact_taken(a: AppView, c: ContactView) -> AppView {
    let b = AppView { store: contact_known(a.store, c), ..a };
    match look(b.store.conversations, c.number) {
        Some(conv) => if c.name is Some && c.name->0.len() > 0 && conv.name != c.name->0 {
            b.with_conv(c.number, ConversationView { name: c.name->0, ..conv }).write(
                quiet(
                    DbWriteView::UpsertConversation {
                        id: c.number,
                        name: c.name->0,
                        is_group: false,
                    },
                    "upsert_conversation"@,
                ),
            )
        } else {
            b
        },
        None => b,
    }
}

/// The state with contacts known, one after the other.
pub open spec fn contacts_known(a: AppView, list: Seq<ContactView>) -> AppView
    decreases list.len(),
{
    if list.len() == 0 {
        a
    } else {
        contact_taken(contacts_known(a, list.drop_last()), list.last())
    }
}

/// A conversation waits to be accepted, and is now with a known contact.
pub open spec fn to_accept(names: Seq<(Seq<char>, Seq<char>)>, c: ConversationView) -> bool {
    !c.accepted && !c.is_group && holds(names, c.id)
}

/// Conversations with those from known contacts accepted.
pub open spec fn known_accepted(
    convs: Seq<(Seq<char>, ConversationView)>,
    names: Seq<(Seq<char>, Seq<char>)>,
) -> Seq<(Seq<char>, ConversationView)> {
    convs.map_values(
        |p: (Seq<char>, ConversationView)|
            if to_accept(names, p.1) {
                (p.0, ConversationView { accepted: true, ..p.1 })
            } else {
                p
            },
    )
}

/// What is written of conversations that are accepted.
pub open spec fn accept_jobs(
    convs: Seq<(Seq<char>, ConversationView)>,
    names: Seq<(Seq<char>, Seq<char>)>,
) -> Seq<DbJobView>
    decreases convs.len(),
{
    if convs.len() == 0 {
        Seq::empty()
    } else {
        let before = accept_jobs(convs.drop_last(), names);
        if to_accept(names, convs.last().1) {
            before.push(
                quiet(
                    DbWriteView::UpdateAccepted { conv_id: convs.last().0, accepted: true },
                    "update_accepted"@,
                ),
            )
        } else {
            before
        }
    }
}

/// The state with the conversations from known contacts accepted.
#[verifier::opaque]
pub open spec fn auto_accepted(a: AppView) -> AppView {
    AppView {
        store: ConversationStoreView {
            conversations: known_accepted(a.store.conversations, a.store.contact_names),
            ..a.store
        },
        jobs: a.jobs + accept_jobs(a.store.conversations, a.store.contact_names),
        ..a
    }
}

/// The state with the names in all messages those that are known now.
#[verifier::opaque]
pub open spec fn names_refreshed(a: AppView) -> AppView {
    let s = with_stored_names(a.store, a.account);
    AppView {
        store: with_mentions_rebuilt(s),
        jobs: a.jobs + all_rebuild_writes(s.conversations, s.uuid_to_name),
        ..a
    }
}

/// The state after a list of contacts.
#[verifier::opaque]
pub open spec fn contacts_taken(a: AppView, list: Seq<ContactView>) -> AppView {
    let b = AppView { startup_status: Seq::empty(), ..a.lowered(Flag::Loading) };
    names_refreshed(auto_accepted(contacts_known(b, list)))
}

impl App {
    fn know_contact(&mut self, c: &Contact)
        ensures
            final(self).state() == contact_taken(old(self).state(), c.deep_view()),
    {
        reveal(App::state);
        reveal(contact_taken);
        if let Some(name) = &c.name {
            if !name.as_str().is_empty() {
                self.store.contact_names.insert(c.number.clone(), name.clone());
            }
        }
        if let Some(uuid) = &c.uuid {
            if let Some(name) = &c.name {
                if !name.as_str().is_empty() {
                    self.store.uuid_to_name.insert(uuid.clone(), name.clone());
                }
            }
            self.store.number_to_uuid.insert(c.number.clone(), uuid.clone());
        }
        if let Some(name) = &c.name {
            if !name.as_str().is_empty() {
                let mut renamed = false;
                proof {
                    let convs = self.store.conversations.deep_view();
                    crate::strmap::place_finds(convs, c.number@);
                    if holds(convs, c.number@) {
                        assert(put(convs, c.number@, at(convs, c.number@)) =~= convs);
                    }
                }
                if let Some(conv) = self.store.conversations.get_mut(c.number.as_str()) {
                    if !same(conv.name.as_str(), name.as_str()) {
                        conv.name = name.clone();
                        renamed = true;
                    }
                }
                if renamed {
                    self.record(
                        DbWrite::UpsertConversation {
                            id: c.number.clone(),
                            name: name.clone(),
                            is_group: false,
                        },
                        "upsert_conversation",
                        false,
                    );
                }
            }
        }
    }

    fn know_contacts(&mut self, list: &Vec<Contact>)
        ensures
            final(self).state() == contacts_known(old(self).state(), list.deep_view()),
    {
        let ghost s = list.deep_view();
        let mut i: usize = 0;
        assert(s.take(0) =~= Seq::<ContactView>::empty());
        while i < list.len()
            invariant
                i <= list@.len(),
                s == list.deep_view(),
                self.state() == contacts_known(old(self).state(), s.take(i as int)),
            decreases list@.len() - i,
        {
            proof {
                assert(s.take(i + 1).drop_last() =~= s.take(i as int));
                assert(s.take(i + 1).last() == list@[i as int].deep_view());
            }
            self.know_contact(&list[i]);
            i += 1;
        }
        assert(s.take(s.len() as int) =~= s);
    }

    fn accept_known(&mut self)
        ensures
            final(self).state() == auto_accepted(old(self).state()),
    {
        reveal(App::state);
        reveal(auto_accepted);
        let ghost s = self.store.conversations.deep_view();
        let ghost names = self.store.contact_names.deep_view();
        let ghost done = known_accepted(s, names);
        let ghost jobs0 = self.jobs.deep_view();
        let mut i: usize = 0;
        assert(s.take(0) =~= Seq::<(Seq<char>, ConversationView)>::empty());
        assert(jobs0 + Seq::<DbJobView>::empty() =~= jobs0);
        while i < self.store.conversations.entries.len()
            invariant
                i <= self.store.conversations.entries@.len(),
                self.store.conversations.entries@.len() == s.len(),
                names == self.store.contact_names.deep_view(),
                done == known_accepted(s, names),
                *self == (App {
                    store: crate::conversation_store::ConversationStore {
                        conversations: self.store.conversations,
                        ..old(self).store
                    },
                    jobs: self.jobs,
                    ..*old(self)
                }),
                forall|k: int|
                    0 <= k < i ==> (#[trigger] self.store.conversations.entries@[k]).deep_view()
                        == done[k],
                forall|k: int|
                    i <= k < s.len() ==> (
                    #[trigger] self.store.conversations.entries@[k]).deep_view() == s[k],
                self.jobs.deep_view() == jobs0 + accept_jobs(s.take(i as int), names),
            decreases self.store.conversations.entries@.len() - i,
        {
            assert(self.store.conversations.entries@[i as int].deep_view() == s[i as int]);
            let due = {
                let c = &self.store.conversations.entries[i].1;
                !c.accepted && !c.is_group && self.store.contact_names.contains_key(c.id.as_str())
            };
            proof {
                assert(s.take(i + 1).drop_last() =~= s.take(i as int));
                assert(s.take(i + 1).last() == s[i as int]);
            }
            if due {
                let id = self.store.conversations.entries[i].0.clone();
                self.store.conversations.entries[i].1.accepted = true;
                crate::db::enqueue(
                    &mut self.jobs,
                    DbWrite::UpdateAccepted { conv_id: id, accepted: true },
                    "update_accepted",
                    false,
                );
            }
            assert(self.jobs.deep_view() =~= jobs0 + accept_jobs(s.take(i + 1), names));
            i += 1;
        }
        assert(s.take(s.len() as int) =~= s);
        assert(self.store.conversations.deep_view() =~= done);
    }

    fn refresh_names(&mut self)
        ensures
            final(self).state() == names_refreshed(old(self).state()),
    {
        reveal(App::state);
        reveal(names_refreshed);
        self.store.resolve_stored_names(self.account.as_str());
        self.store.rebuild_mention_display(&mut self.jobs);
    }

    fn end_loading(&mut self)
        ensures
            final(self).state() == (AppView {
                startup_status: Seq::empty(),
                ..old(self).state().lowered(Flag::Loading)
            }),
    {
        reveal(App::state);
        self.lower(Flag::Loading);
        self.startup_status = String::new();
    }

    /// Takes a list of contacts.
    pub fn handle_contact_list(&mut self, contacts: &Vec<Contact>)
        ensures
            final(self).state() == contacts_taken(old(self).state(), contacts.deep_view()),
    {
        reveal(contacts_taken);
        self.end_loading();
        self.know_contacts(contacts);
        self.accept_known();
        self.refresh_names();
    }
}

// ---------------------------------------------------------------------------
// Groups
// ---------------------------------------------------------------------------

/// Uuids by number with those of members, where none was known.
pub open spec fn member_uuids_known(
    map: Seq<(Seq<char>, Seq<char>)>,
    members: Seq<(Seq<char>, Seq<char>)>,
) -> Seq<(Seq<char>, Seq<char>)>
    decreases members.len(),
{
    if members.len() == 0 {
        map
    } else {
        put_new(
            member_uuids_known(map, members.drop_last()),
            members.last().0,
            members.last().1,
        )
    }
}

/// Names by uuid with those of members whose names are known, where none was
/// known.
pub open spec fn member_names_known(
    map: Seq<(Seq<char>, Seq<char>)>,
    names: Seq<(Seq<char>, Seq<char>)>,
    members: Seq<(Seq<char>, Seq<char>)>,
) -> Seq<(Seq<char>, Seq<char>)>
    decreases members.len(),
{
    if members.len() == 0 {
        map
    } else {
        let before = member_names_known(map, names, members.drop_last());
        match look(names, members.last().0) {
            Some(name) => if name.len() > 0 {
                put_new(before, members.last().1, name)
            } else {
                before
            },
            None => before,
        }
    }
}

/// The store with a group known.
pub open spec fn group_known(s: ConversationStoreView, g: GroupView) -> ConversationStoreView {
    let names = if g.name.len() > 0 {
        put(s.contact_names, g.id, g.name)
    } else {
        s.contact_names
    };
    ConversationStoreView {
        contact_names: names,
        number_to_uuid: member_uuids_known(s.number_to_uuid, g.member_uuids),
        uuid_to_name: member_names_known(s.uuid_to_name, names, g.member_uuids),
        groups: put(s.groups, g.id, g),
        ..s
    }
}

/// The state with a group known, and its conversation there.
#[verifier::opaque]
pub open spec fn group_taken(a: AppView, g: GroupView) -> AppView {
    let b = ensured(AppView { store: group_known(a.store, g), ..a }, g.id, g.name, true);
    let conv = at(b.store.conversations, g.id);
    if g.name.len() > 0 && conv.name != g.name {
        b.with_conv(g.id, ConversationView { name: g.name, ..conv }).write(
            quiet(
                DbWriteView::UpsertConversation { id: g.id, name: g.name, is_group: true },
                "upsert_conversation"@,
            ),
        )
    } else {
        b
    }
}

/// The state with groups known, one after the other.
pub open spec fn groups_known(a: AppView, list: Seq<GroupView>) -> AppView
    decreases list.len(),
{
    if list.len() == 0 {
        a
    } else {
        group_taken(groups_known(a, list.drop_last()), list.last())
    }
}

/// The state after a list of groups.
#[verifier::opaque]
pub open spec fn groups_taken(a: AppView, list: Seq<GroupView>) -> AppView {
    names_refreshed(groups_known(a, list))
}

fn add_member_uuids(map: &mut StrMap<String>, members: &Vec<(String, String)>)
    ensures
        final(map).deep_view() == member_uuids_known(old(map).deep_view(), members.deep_view()),
{
    let ghost s = members.deep_view();
    let mut i: usize = 0;
    assert(s.take(0) =~= Seq::<(Seq<char>, Seq<char>)>::empty());
    while i < members.len()
        invariant
            i <= members@.len(),
            s == members.deep_view(),
            map.deep_view() == member_uuids_known(old(map).deep_view(), s.take(i as int)),
        decreases members@.len() - i,
    {
        proof {
            assert(s.take(i + 1).drop_last() =~= s.take(i as int));
            assert(s.take(i + 1).last() == members@[i as int].deep_view());
        }
        map.insert_new(members[i].0.clone(), members[i].1.clone());
        i += 1;
    }
    assert(s.take(s.len() as int) =~= s);
}

fn add_member_names(
    map: &mut StrMap<String>,
    names: &StrMap<String>,
    members: &Vec<(String, String)>,
)
    ensures
        final(map).deep_view() == member_names_known(
            old(map).deep_view(),
            names.deep_view(),
            members.deep_view(),
        ),
{
    let ghost s = members.deep_view();
    let mut i: usize = 0;
    assert(s.take(0) =~= Seq::<(Seq<char>, Seq<char>)>::empty());
    while i < members.len()
        invariant
            i <= members@.len(),
            s == members.deep_view(),
            map.deep_view() == member_names_known(
                old(map).deep_view(),
                names.deep_view(),
                s.take(i as int),
            ),
        decreases members@.len() - i,
    {
        proof {
            assert(s.take(i + 1).drop_last() =~= s.take(i as int));
            assert(s.take(i + 1).last() == members@[i as int].deep_view());
        }
        if let Some(name) = names.get(members[i].0.as_str()) {
            if !name.as_str().is_empty() {
                map.insert_new(members[i].1.clone(), name.clone());
            }
        }
        i += 1;
    }
    assert(s.take(s.len() as int) =~= s);
}

impl App {
    fn know_group_facts(&mut self, g: &Group)
        ensures
            final(self).state() == (AppView {
                store: group_known(old(self).state().store, g.deep_view()),
                ..old(self).state()
            }),
    {
        reveal(App::state);
        if !g.name.as_str().is_empty() {
            self.store.contact_names.insert(g.id.clone(), g.name.clone());
        }
        add_member_uuids(&mut self.store.number_to_uuid, &g.member_uuids);
        add_member_names(
            &mut self.store.uuid_to_name,
            &self.store.contact_names,
            &g.member_uuids,
        );
        self.store.groups.insert(g.id.clone(), g.duplicate());
    }

    fn rename_conversation(&mut self, id: &str, name: &str) -> (r: bool)
        requires
            holds(old(self).state().store.conversations, id@),
        ensures
            r == (at(old(self).state().store.conversations, id@).name != name@),
            final(self).state() == if r {
                old(self).state().with_conv(
                    id@,
                    ConversationView {
                        name: name@,
                        ..at(old(self).state().store.conversations, id@)
                    },
                )
            } else {
                old(self).state()
            },
    {
        reveal(App::state);
        proof {
            let convs = self.store.conversations.deep_view();
            crate::strmap::place_finds(convs, id@);
            assert(put(convs, id@, at(convs, id@)) =~= convs);
        }
        if let Some(conv) = self.store.conversations.get_mut(id) {
            if !same(conv.name.as_str(), name) {
                conv.name = name.to_string();
                return true;
            }
        }
        false
    }

    fn know_group(&mut self, g: &Group)
        ensures
            final(self).state() == group_taken(old(self).state(), g.deep_view()),
    {
        reveal(group_taken);
        self.know_group_facts(g);
        proof {
            crate::navigation::conversation_is_there(self.state().store, g.id@, g.name@, true);
        }
        self.get_or_create_conversation(g.id.as_str(), g.name.as_str(), true);
        if !g.name.as_str().is_empty() && self.rename_conversation(
            g.id.as_str(),
            g.name.as_str(),
        ) {
            self.record(
                DbWrite::UpsertConversation {
                    id: g.id.clone(),
                    name: g.name.clone(),
                    is_group: true,
                },
                "upsert_conversation",
                false,
            );
        }
    }

    fn know_groups(&mut self, list: &Vec<Group>)
        ensures
            final(self).state() == groups_known(old(self).state(), list.deep_view()),
    {
        let ghost s = list.deep_view();
        let mut i: usize = 0;
        assert(s.take(0) =~= Seq::<GroupView>::empty());
        while i < list.len()
            invariant
                i <= list@.len(),
                s == list.deep_view(),
                self.state() == groups_known(old(self).state(), s.take(i as int)),
            decreases list@.len() - i,
        {
            proof {
                assert(s.take(i + 1).drop_last() =~= s.take(i as int));
                assert(s.take(i + 1).last() == list@[i as int].deep_view());
            }
            self.know_group(&list[i]);
            i += 1;
        }
        assert(s.take(s.len() as int) =~= s);
    }

    /// Takes a list of groups.
    pub fn handle_group_list(&mut self, groups: &Vec<Group>)
        ensures
            final(self).state() == groups_taken(old(self).state(), groups.deep_view()),
    {
        reveal(groups_taken);
        self.know_groups(groups);
        self.refresh_names();
    }
}

// ---------------------------------------------------------------------------
// Identities
// ---------------------------------------------------------------------------

/// How far each number is trusted.
pub open spec fn trust_levels(list: Seq<IdentityInfoView>) -> Seq<(Seq<char>, TrustLevel)>
    decreases list.len(),
{
    if list.len() == 0 {
        Seq::empty()
    } else {
        let before = trust_levels(list.drop_last());
        match list.last().number {
            Some(n) => put(before, n, list.last().trust_level),
            None => before,
        }
    }
}

/// An identity is that of one of some numbers.
pub open spec fn identity_of(i: IdentityInfoView, numbers: Seq<Seq<char>>) -> bool {
    match i.number {
        Some(n) => numbers.contains(n),
        None => false,
    }
}

/// Whose identities the active conversation is about: the members of a group,
/// or the contact. None of a group that is not known.
pub open spec fn verify_numbers(a: AppView) -> Option<Seq<Seq<char>>> {
    match a.active_conversation {
        Some(id) => if a.is_group(id) {
            match look(a.store.groups, id) {
                Some(g) => Some(g.members),
                None => None,
            }
        } else {
            Some(seq![id])
        },
        None => None,
    }
}

/// A place in a list, moved to its last one where it is past it. In an empty
/// list it stays.
pub open spec fn index_within(index: usize, len: nat) -> usize {
    if len > 0 && index >= len {
        (len - 1) as usize
    } else {
        index
    }
}

/// The state after a list of identities. Those of the active conversation are
/// shown where they are being verified.
#[verifier::opaque]
pub open spec fn identities_taken(a: AppView, list: Seq<IdentityInfoView>) -> AppView {
    let b = AppView { identity_trust: trust_levels(list), ..a };
    if b.shows(Overlay::Verify) && b.active_conversation is Some {
        let shown = match verify_numbers(b) {
            Some(numbers) => list.filter(|i: IdentityInfoView| identity_of(i, numbers)),
            None => b.verify.identities,
        };
        AppView {
            verify: VerifyOverlayStateView {
                identities: shown,
                index: index_within(b.verify.index, shown.len()),
                ..b.verify
            },
            ..b
        }
    } else {
        b
    }
}

/// The state with another identity selected.
pub open spec fn identity_selected(a: AppView, index: usize) -> AppView {
    AppView { verify: VerifyOverlayStateView { index, ..a.verify }, ..a }
}

/// The state after a key while identities are verified, and what is sent. An
/// identity is trusted at the second request.
#[verifier::opaque]
pub open spec fn verify_key(a: AppView, code: KeyCode) -> (AppView, Option<SendRequestView>) {
    let v = a.verify;
    let calm = a.lowered(Flag::VerifyConfirming);
    if code == KeyCode::Down || code == KeyCode::Char('j') {
        (
            identity_selected(
                calm,
                crate::common::step_down(v.index, v.identities.len()),
            ),
            None,
        )
    } else if code == KeyCode::Up || code == KeyCode::Char('k') {
        (identity_selected(calm, crate::common::step_up(v.index)), None)
    } else if code == KeyCode::Char('v') || code == KeyCode::Enter {
        if v.index < v.identities.len() {
            let i = v.identities[v.index as int];
            if i.safety_number.len() == 0 {
                (a.say("Safety number not available — cannot verify"@), None)
            } else if !a.is(Flag::VerifyConfirming) {
                (a.raised(Flag::VerifyConfirming), None)
            } else {
                match i.number {
                    Some(recipient) => (
                        calm,
                        Some(
                            SendRequestView::TrustIdentity {
                                recipient,
                                safety_number: i.safety_number,
                            },
                        ),
                    ),
                    None => (a, None),
                }
            }
        } else {
            (a, None)
        }
    } else if code == KeyCode::Esc {
        (calm.closed(Overlay::Verify), None)
    } else {
        (calm, None)
    }
}

fn collect_trust(list: &Vec<IdentityInfo>) -> (r: StrMap<TrustLevel>)
    ensures
        r.deep_view() == trust_levels(list.deep_view()),
{
    let ghost s = list.deep_view();
    let mut r: StrMap<TrustLevel> = StrMap::new();
    let mut i: usize = 0;
    assert(s.take(0) =~= Seq::<IdentityInfoView>::empty());
    while i < list.len()
        invariant
            i <= list@.len(),
            s == list.deep_view(),
            r.deep_view() == trust_levels(s.take(i as int)),
        decreases list@.len() - i,
    {
        proof {
            assert(s.take(i + 1).drop_last() =~= s.take(i as int));
            assert(s.take(i + 1).last() == list@[i as int].deep_view());
        }
        if let Some(n) = &list[i].number {
            r.insert(n.clone(), list[i].trust_level);
        }
        i += 1;
    }
    assert(s.take(s.len() as int) =~= s);
    r
}

fn pick_identities(list: &Vec<IdentityInfo>, numbers: &Vec<String>) -> (r: Vec<IdentityInfo>)
    ensures
        r.deep_view() == list.deep_view().filter(
            |i: IdentityInfoView| identity_of(i, numbers.deep_view()),
        ),
{
    let ghost s = list.deep_view();
    let ghost n = numbers.deep_view();
    let ghost p = |i: IdentityInfoView| identity_of(i, n);
    let mut out: Vec<IdentityInfo> = Vec::new();
    let mut i: usize = 0;
    proof {
        filter_none(s, p);
    }
    assert(out.deep_view() =~= s.take(0).filter(p));
    while i < list.len()
        invariant
            i <= list@.len(),
            s == list.deep_view(),
            n == numbers.deep_view(),
            p == |i: IdentityInfoView| identity_of(i, n),
            out.deep_view() == s.take(i as int).filter(p),
        decreases list@.len() - i,
    {
        proof {
            filter_take(s, i as int, p);
            assert(s[i as int] == list@[i as int].deep_view());
        }
        let keep = match &list[i].number {
            Some(x) => lists_text(numbers, x.as_str()),
            None => false,
        };
        if keep {
            let ghost before = out.deep_view();
            let x = list[i].duplicate();
            out.push(x);
            assert(out.deep_view() =~= before.push(x.deep_view()));
        }
        i += 1;
    }
    assert(s.take(s.len() as int) =~= s);
    out
}

impl App {
    fn numbers_to_verify(&self) -> (r: Option<Vec<String>>)
        ensures
            r.deep_view() == verify_numbers(self.state()),
    {
        reveal(App::state);
        match &self.active_conversation {
            Some(id) => {
                if self.conv_is_group(id.as_str()) {
                    match self.store.groups.get(id.as_str()) {
                        Some(g) => Some(g.members.duplicate()),
                        None => None,
                    }
                } else {
                    let one: Vec<String> = vec![id.clone()];
                    assert(one.deep_view() =~= seq![id@]);
                    Some(one)
                }
            },
            None => None,
        }
    }

    fn set_trust(&mut self, list: &Vec<IdentityInfo>)
        ensures
            final(self).state() == (AppView {
                identity_trust: trust_levels(list.deep_view()),
                ..old(self).state()
            }),
    {
        reveal(App::state);
        self.identity_trust = collect_trust(list);
    }

    fn show_identities(&mut self, shown: Option<Vec<IdentityInfo>>)
        ensures
            final(self).state() == ({
                let a = old(self).state();
                let list = match shown {
                    Some(l) => l.deep_view(),
                    None => a.verify.identities,
                };
                AppView {
                    verify: VerifyOverlayStateView {
                        identities: list,
                        index: index_within(a.verify.index, list.len()),
                        ..a.verify
                    },
                    ..a
                }
            }),
    {
        reveal(App::state);
        if let Some(l) = shown {
            self.verify.identities = l;
        }
        let n = self.verify.identities.len();
        if n > 0 && self.verify.index >= n {
            self.verify.index = n - 1;
        }
    }

    /// Takes a list of identities.
    pub fn handle_identity_list(&mut self, identities: &Vec<IdentityInfo>)
        ensures
            final(self).state() == identities_taken(old(self).state(), identities.deep_view()),
    {
        reveal(identities_taken);
        self.set_trust(identities);
        if self.is_open(Overlay::Verify) && self.active_id().is_some() {
            let shown = match self.numbers_to_verify() {
                Some(numbers) => Some(pick_identities(identities, &numbers)),
                None => None,
            };
            self.show_identities(shown);
        }
    }

    fn select_identity(&mut self, index: usize)
        ensures
            final(self).state() == identity_selected(old(self).state(), index),
    {
        reveal(App::state);
        self.verify.index = index;
    }

    /// Handles a key while identities are verified.
    pub fn handle_verify_key(&mut self, code: KeyCode) -> (r: Option<SendRequest>)
        ensures
            (final(self).state(), r.deep_view()) == verify_key(old(self).state(), code),
    {
        reveal(verify_key);
        let i = self.verify.index;
        let n = self.verify.identities.len();
        let ghost v = self.state().verify;
        assert(v == self.verify.deep_view()) by {
            reveal(App::state);
        }
        if code == KeyCode::Down || code == KeyCode::Char('j') {
            self.lower(Flag::VerifyConfirming);
            self.select_identity(crate::common::move_down(i, n));
        } else if code == KeyCode::Up || code == KeyCode::Char('k') {
            self.lower(Flag::VerifyConfirming);
            self.select_identity(i.saturating_sub(1));
        } else if code == KeyCode::Char('v') || code == KeyCode::Enter {
            if i < n {
                let info = self.verify.identities[i].duplicate();
                assert(info.deep_view() == v.identities[i as int]);
                if info.safety_number.as_str().is_empty() {
                    self.set_status("Safety number not available — cannot verify");
                } else if !self.has_flag(Flag::VerifyConfirming) {
                    self.raise(Flag::VerifyConfirming);
                } else if let Some(recipient) = info.number {
                    self.lower(Flag::VerifyConfirming);
                    return Some(
                        SendRequest::TrustIdentity { recipient, safety_number: info.safety_number },
                    );
                }
            }
        } else if code == KeyCode::Esc {
            self.lower(Flag::VerifyConfirming);
            self.close_overlay(Overlay::Verify);
        } else {
            self.lower(Flag::VerifyConfirming);
        }
        None
    }
}

} // verus!
