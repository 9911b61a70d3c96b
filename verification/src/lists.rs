//! Lists to pick from: contacts, groups and their members, where to forward.
use crate::app::{
    App, AppView, ContactsOverlayStateView, ForwardOverlayStateView, GroupMenuOverlayStateView,
    GroupMenuState, Overlay, SendRequest, SendRequestView,
};
use crate::common::{
    clamp_index, clamped, classify_list_key, filter_none, filter_take, list_key, matches_filter,
    move_down, passes_filter, popped, step_down, step_up, ListKeyAction,
};
use crate::keys::KeyCode;
use crate::navigation::{joined, topped};
use crate::order::{lower_second, sort_by_lower_second, sorted_by};
use crate::signal::Duplicate;
use crate::strmap::{at, look, StrMap};
use crate::text::{concat2, contains, contains_text, folded, same, to_lower, trim, trimmed};
use vstd::prelude::*;

verus! {

/// Numbers or ids with names.
pub type RowsView = Seq<(Seq<char>, Seq<char>)>;

// ---------------------------------------------------------------------------
// Contacts
// ---------------------------------------------------------------------------

/// The contacts that have a name and match a filter, by name.
pub open spec fn contact_rows(names: RowsView, filter: Seq<char>) -> RowsView {
    sorted_by(
        names.filter(
            |p: (Seq<char>, Seq<char>)| p.1.len() > 0 && matches_filter(filter, p.1, p.0),
        ),
        lower_second(),
    )
}

/// The state with the contact list showing what matches its filter.
pub open spec fn contacts_filtered(a: AppView) -> AppView {
    let rows = contact_rows(a.store.contact_names, a.contacts.filter);
    AppView {
        contacts: ContactsOverlayStateView {
            filtered: rows,
            index: clamped(a.contacts.index, rows.len()),
            ..a.contacts
        },
        ..a
    }
}

/// The state with another filter text for the contact list.
pub open spec fn contacts_filter_set(a: AppView, filter: Seq<char>) -> AppView {
    AppView { contacts: ContactsOverlayStateView { filter, ..a.contacts }, ..a }
}

/// The state with another contact selected.
pub open spec fn contact_selected(a: AppView, index: usize) -> AppView {
    AppView { contacts: ContactsOverlayStateView { index, ..a.contacts }, ..a }
}

/// The state after a key in the contact list.
#[verifier::opaque]
pub open spec fn contacts_key(a: AppView, code: KeyCode) -> AppView {
    let c = a.contacts;
    match list_key(code, true) {
        ListKeyAction::Down => contact_selected(a, step_down(c.index, c.filtered.len())),
        ListKeyAction::Up => contact_selected(a, step_up(c.index)),
        ListKeyAction::Select => if c.index < c.filtered.len() {
            joined(
                contacts_filter_set(a.closed(Overlay::Contacts), Seq::empty()),
                c.filtered[c.index as int].0,
            )
        } else {
            a
        },
        ListKeyAction::Close => contacts_filter_set(a.closed(Overlay::Contacts), Seq::empty()),
        ListKeyAction::FilterPush(ch) => contacts_filtered(
            contacts_filter_set(a, c.filter.push(ch)),
        ),
        ListKeyAction::FilterPop => contacts_filtered(contacts_filter_set(a, popped(c.filter))),
        ListKeyAction::Nothing => a,
    }
}

fn pick_contacts(
    names: &StrMap<String>,
    skip: &Vec<String>,
    filter: &str,
) -> (r: Vec<(String, String)>)
    ensures
        r.deep_view() == names.deep_view().filter(
            |p: (Seq<char>, Seq<char>)|
                p.1.len() > 0 && !skip.deep_view().contains(p.0) && matches_filter(
                    filter@,
                    p.1,
                    p.0,
                ),
        ),
{
    let ghost s = names.deep_view();
    let ghost p = |p: (Seq<char>, Seq<char>)|
        p.1.len() > 0 && !skip.deep_view().contains(p.0) && matches_filter(filter@, p.1, p.0);
    let lower = to_lower(filter);
    let mut out: Vec<(String, String)> = Vec::new();
    let mut i: usize = 0;
    proof {
        filter_none(s, p);
    }
    assert(out.deep_view() =~= s.take(0).filter(p));
    while i < names.entries.len()
        invariant
            i <= names.entries@.len(),
            s == names.deep_view(),
            lower@ == folded(filter@),
            p == |p: (Seq<char>, Seq<char>)|
                p.1.len() > 0 && !skip.deep_view().contains(p.0) && matches_filter(
                    filter@,
                    p.1,
                    p.0,
                ),
            out.deep_view() == s.take(i as int).filter(p),
        decreases names.entries@.len() - i,
    {
        let number = &names.entries[i].0;
        let name = &names.entries[i].1;
        proof {
            filter_take(s, i as int, p);
            assert(s[i as int] == (number@, name@));
        }
        if !name.as_str().is_empty() && !lists_text(skip, number.as_str()) && passes_filter(
            lower.as_str(),
            name.as_str(),
            number.as_str(),
            Ghost(filter@),
        ) {
            let ghost before = out.deep_view();
            out.push((number.clone(), name.clone()));
            assert(out.deep_view() =~= before.push((number@, name@)));
        }
        i += 1;
    }
    assert(s.take(s.len() as int) =~= s);
    out
}

/// Whether a text is in a list.
pub fn lists_text(v: &Vec<String>, x: &str) -> (r: bool)
    ensures
        r == v.deep_view().contains(x@),
{
    let mut i: usize = 0;
    while i < v.len()
        invariant
            i <= v@.len(),
            forall|j: int| 0 <= j < i ==> (#[trigger] v@[j])@ != x@,
        decreases v@.len() - i,
    {
        if same(v[i].as_str(), x) {
            assert(v.deep_view()[i as int] == x@);
            return true;
        }
        i += 1;
    }
    assert forall|j: int| 0 <= j < v.deep_view().len() implies #[trigger] v.deep_view()[j] != x@ by {
        assert(v@[j]@ == v.deep_view()[j]);
    }
    false
}

impl App {
    /// Shows what matches the filter in the contact list.
    pub fn refresh_contacts_filter(&mut self)
        ensures
            final(self).state() == contacts_filtered(old(self).state()),
    {
        reveal(App::state);
        let none: Vec<String> = Vec::new();
        let rows = pick_contacts(&self.store.contact_names, &none, self.contacts.filter.as_str());
        proof {
            let f = self.contacts.filter@;
            let p = |p: (Seq<char>, Seq<char>)|
                p.1.len() > 0 && !none.deep_view().contains(p.0) && matches_filter(f, p.1, p.0);
            let q = |p: (Seq<char>, Seq<char>)| p.1.len() > 0 && matches_filter(f, p.1, p.0);
            assert(p =~= q);
        }
        self.contacts.filtered = sort_by_lower_second(rows);
        self.contacts.index = clamp_index(self.contacts.index, self.contacts.filtered.len());
    }

    fn set_contacts_filter(&mut self, filter: String)
        ensures
            final(self).state() == contacts_filter_set(old(self).state(), filter@),
    {
        reveal(App::state);
        self.contacts.filter = filter;
    }

    fn select_contact(&mut self, index: usize)
        ensures
            final(self).state() == contact_selected(old(self).state(), index),
    {
        reveal(App::state);
        self.contacts.index = index;
    }

    /// Handles a key in the contact list.
    pub fn handle_contacts_key(&mut self, code: KeyCode)
        ensures
            final(self).state() == contacts_key(old(self).state(), code),
    {
        reveal(contacts_key);
        let ghost c = self.state().contacts;
        assert(c == self.contacts.deep_view()) by {
            reveal(App::state);
        }
        match classify_list_key(code, true) {
            ListKeyAction::Down => {
                self.select_contact(move_down(self.contacts.index, self.contacts.filtered.len()));
            },
            ListKeyAction::Up => {
                self.select_contact(self.contacts.index.saturating_sub(1));
            },
            ListKeyAction::Select => {
                if self.contacts.index < self.contacts.filtered.len() {
                    let number = self.contacts.filtered[self.contacts.index].0.clone();
                    assert(number@ == c.filtered[c.index as int].0);
                    self.close_overlay(Overlay::Contacts);
                    self.set_contacts_filter(String::new());
                    self.join_conversation(number.as_str());
                }
            },
            ListKeyAction::Close => {
                self.close_overlay(Overlay::Contacts);
                self.set_contacts_filter(String::new());
            },
            ListKeyAction::FilterPush(ch) => {
                let mut f = self.contacts.filter.clone();
                f.push(ch);
                self.set_contacts_filter(f);
                self.refresh_contacts_filter();
            },
            ListKeyAction::FilterPop => {
                let mut f = self.contacts.filter.clone();
                let _ = f.pop();
                self.set_contacts_filter(f);
                self.refresh_contacts_filter();
            },
            ListKeyAction::Nothing => {},
        }
    }
}

// ---------------------------------------------------------------------------
// Forwarding
// ---------------------------------------------------------------------------

/// A message can be forwarded to a conversation that was accepted, is not the
/// active one and whose name matches a filter.
pub open spec fn forward_row(a: AppView, filter: Seq<char>, id: Seq<char>) -> bool {
    match look(a.store.conversations, id) {
        Some(c) => c.accepted && a.active_conversation != Some(id) && (folded(filter).len() == 0
            || contains_text(folded(c.name), folded(filter))),
        None => false,
    }
}

/// The conversations that a message can be forwarded to.
pub open spec fn forward_rows(a: AppView) -> RowsView {
    a.store.conversation_order.filter(
        |id: Seq<char>| forward_row(a, a.forward.filter, id),
    ).map_values(|id: Seq<char>| (id, at(a.store.conversations, id).name))
}

/// The state with the picker showing what matches its filter.
pub open spec fn forward_filtered(a: AppView) -> AppView {
    AppView {
        forward: ForwardOverlayStateView {
            filtered: forward_rows(a),
            index: clamped(a.forward.index, forward_rows(a).len()),
            ..a.forward
        },
        ..a
    }
}

/// The state with another filter text for the picker.
pub open spec fn forward_filter_set(a: AppView, filter: Seq<char>) -> AppView {
    AppView { forward: ForwardOverlayStateView { filter, ..a.forward }, ..a }
}

/// The state with another conversation selected.
pub open spec fn forward_selected(a: AppView, index: usize) -> AppView {
    AppView { forward: ForwardOverlayStateView { index, ..a.forward }, ..a }
}

/// The state with the picker of where to forward open.
pub open spec fn forward_opened(a: AppView) -> AppView {
    forward_filtered(
        AppView {
            forward: ForwardOverlayStateView { index: 0, filter: Seq::empty(), ..a.forward },
            ..a.opened(Overlay::Forward)
        },
    )
}

/// A control character.
pub open spec fn is_control_char(c: char) -> bool {
    c <= '\u{1f}' || '\u{7f}' <= c <= '\u{9f}'
}

/// The request that forwards a text.
pub open spec fn forward_request(a: AppView, id: Seq<char>, now_ms: i64) -> SendRequestView {
    SendRequestView::Message {
        recipient: id,
        body: "[Forwarded]\n"@ + a.forward.body,
        is_group: a.is_group(id),
        local_ts_ms: now_ms,
        mentions: Seq::empty(),
        attachment: None,
        quote_timestamp: None,
        quote_author: None,
        quote_body: None,
    }
}

/// The state after a key in the picker of where to forward, and what is sent.
#[verifier::opaque]
pub open spec fn forward_key(a: AppView, code: KeyCode, now_ms: i64) -> (
    AppView,
    Option<SendRequestView>,
) {
    let f = a.forward;
    match list_key(code, true) {
        ListKeyAction::Down => (forward_selected(a, step_down(f.index, f.filtered.len())), None),
        ListKeyAction::Up => (forward_selected(a, step_up(f.index)), None),
        ListKeyAction::Select => if f.index < f.filtered.len() {
            let (id, name) = f.filtered[f.index as int];
            (
                topped(a.closed(Overlay::Forward).say("Forwarded to "@ + name), id),
                Some(forward_request(a, id, now_ms)),
            )
        } else {
            (a, None)
        },
        ListKeyAction::Close => (a.closed(Overlay::Forward), None),
        ListKeyAction::FilterPush(ch) => if is_control_char(ch) {
            (a, None)
        } else {
            (forward_filtered(forward_filter_set(a, f.filter.push(ch))), None)
        },
        ListKeyAction::FilterPop => (
            forward_filtered(forward_filter_set(a, popped(f.filter))),
            None,
        ),
        ListKeyAction::Nothing => (a, None),
    }
}

impl App {
    /// Shows what matches the filter in the picker of where to forward.
    pub fn update_forward_filter(&mut self)
        ensures
            final(self).state() == forward_filtered(old(self).state()),
    {
        reveal(App::state);
        let ghost a = self.state();
        let ghost order = self.store.conversation_order.deep_view();
        let ghost p = |id: Seq<char>| forward_row(a, a.forward.filter, id);
        let ghost g = |id: Seq<char>| (id, at(a.store.conversations, id).name);
        let lower = to_lower(self.forward.filter.as_str());
        let mut out: Vec<(String, String)> = Vec::new();
        let mut i: usize = 0;
        proof {
            filter_none(order, p);
        }
        assert(out.deep_view() =~= order.take(0).filter(p).map_values(g));
        while i < self.store.conversation_order.len()
            invariant
                *self == *old(self),
                i <= self.store.conversation_order@.len(),
                order == self.store.conversation_order.deep_view(),
                a.store.conversations == self.store.conversations.deep_view(),
                a.active_conversation == self.active_conversation.deep_view(),
                lower@ == folded(a.forward.filter),
                p == |id: Seq<char>| forward_row(a, a.forward.filter, id),
                g == |id: Seq<char>| (id, at(a.store.conversations, id).name),
                out.deep_view() == order.take(i as int).filter(p).map_values(g),
            decreases self.store.conversation_order@.len() - i,
        {
            let id = self.store.conversation_order[i].clone();
            proof {
                filter_take(order, i as int, p);
            }
            let active = match &self.active_conversation {
                Some(x) => same(x.as_str(), id.as_str()),
                None => false,
            };
            let found = match self.store.conversations.get(id.as_str()) {
                Some(c) => {
                    if c.accepted && !active && (lower.as_str().is_empty() || contains(
                        to_lower(c.name.as_str()).as_str(),
                        lower.as_str(),
                    )) {
                        Some(c.name.clone())
                    } else {
                        None
                    }
                },
                None => None,
            };
            let ghost before = out.deep_view();
            if let Some(name) = found {
                out.push((id, name));
                assert(out.deep_view() =~= before.push((id@, name@)));
            }
            assert(out.deep_view() =~= order.take(i + 1).filter(p).map_values(g));
            i += 1;
        }
        assert(order.take(order.len() as int) =~= order);
        self.forward.filtered = out;
        self.forward.index = clamp_index(self.forward.index, self.forward.filtered.len());
    }

    fn set_forward_filter(&mut self, filter: String)
        ensures
            final(self).state() == forward_filter_set(old(self).state(), filter@),
    {
        reveal(App::state);
        self.forward.filter = filter;
    }

    fn select_forward(&mut self, index: usize)
        ensures
            final(self).state() == forward_selected(old(self).state(), index),
    {
        reveal(App::state);
        self.forward.index = index;
    }

    /// Opens the picker of where to forward.
    pub fn open_forward_picker(&mut self)
        ensures
            final(self).state() == forward_opened(old(self).state()),
    {
        self.open_overlay(Overlay::Forward);
        self.select_forward(0);
        self.set_forward_filter(String::new());
        self.update_forward_filter();
    }

    /// Handles a key in the picker of where to forward.
    pub fn handle_forward_key(&mut self, code: KeyCode, now_ms: i64) -> (r: Option<SendRequest>)
        ensures
            (final(self).state(), r.deep_view()) == forward_key(old(self).state(), code, now_ms),
    {
        reveal(forward_key);
        let ghost f = self.state().forward;
        assert(f == self.forward.deep_view()) by {
            reveal(App::state);
        }
        match classify_list_key(code, true) {
            ListKeyAction::Down => {
                self.select_forward(move_down(self.forward.index, self.forward.filtered.len()));
            },
            ListKeyAction::Up => {
                self.select_forward(self.forward.index.saturating_sub(1));
            },
            ListKeyAction::Select => {
                if self.forward.index < self.forward.filtered.len() {
                    let i = self.forward.index;
                    let id = self.forward.filtered[i].0.clone();
                    let name = self.forward.filtered[i].1.clone();
                    assert(f.filtered[i as int] == (id@, name@));
                    let is_group = self.conv_is_group(id.as_str());
                    let body = concat2("[Forwarded]\n", self.forward.body.as_str());
                    self.close_overlay(Overlay::Forward);
                    let text = concat2("Forwarded to ", name.as_str());
                    self.set_status(text.as_str());
                    self.move_conversation_to_top(id.as_str());
                    let mentions: Vec<(usize, String)> = Vec::new();
                    assert(mentions.deep_view() =~= Seq::<(usize, Seq<char>)>::empty());
                    return Some(
                        SendRequest::Message {
                            recipient: id,
                            body,
                            is_group,
                            local_ts_ms: now_ms,
                            mentions,
                            attachment: None,
                            quote_timestamp: None,
                            quote_author: None,
                            quote_body: None,
                        },
                    );
                }
            },
            ListKeyAction::Close => {
                self.close_overlay(Overlay::Forward);
            },
            ListKeyAction::FilterPush(ch) => {
                if !(ch <= '\u{1f}' || ('\u{7f}' <= ch && ch <= '\u{9f}')) {
                    let mut t = self.forward.filter.clone();
                    t.push(ch);
                    self.set_forward_filter(t);
                    self.update_forward_filter();
                }
            },
            ListKeyAction::FilterPop => {
                let mut t = self.forward.filter.clone();
                let _ = t.pop();
                self.set_forward_filter(t);
                self.update_forward_filter();
            },
            ListKeyAction::Nothing => {},
        }
        None
    }
}

// ---------------------------------------------------------------------------
// The group menu
// ---------------------------------------------------------------------------

/// An entry of a menu.
#[derive(Debug, Clone, Copy, PartialEq, Eq)]
pub struct MenuAction {
    pub label: &'static str,
    pub key_hint: &'static str,
    pub nerd_icon: &'static str,
}

/// What an entry of a menu stands for.
pub struct MenuActionView {
    pub label: Seq<char>,
    pub key_hint: Seq<char>,
    pub nerd_icon: Seq<char>,
}

impl DeepView for MenuAction {
    type V = MenuActionView;

    open spec fn deep_view(&self) -> MenuActionView {
        MenuActionView {
            label: self.label@,
            key_hint: self.key_hint@,
            nerd_icon: self.nerd_icon@,
        }
    }
}

/// The active conversation is a group.
pub open spec fn group_active(a: AppView) -> bool {
    match a.active() {
        Some(c) => c.is_group,
        None => false,
    }
}

/// The entries of the group menu: what can be done with a group, or else only
/// to create one.
pub open spec fn group_items(in_group: bool) -> Seq<MenuActionView> {
    if in_group {
        seq![
            MenuActionView { label: "Members"@, key_hint: "m"@, nerd_icon: "\u{f0849}"@ },
            MenuActionView { label: "Add member"@, key_hint: "a"@, nerd_icon: "\u{f0234}"@ },
            MenuActionView { label: "Remove member"@, key_hint: "r"@, nerd_icon: "\u{f0235}"@ },
            MenuActionView { label: "Rename"@, key_hint: "n"@, nerd_icon: "\u{f03eb}"@ },
            MenuActionView { label: "Leave"@, key_hint: "l"@, nerd_icon: "\u{f0a79}"@ },
        ]
    } else {
        seq![MenuActionView { label: "Create group"@, key_hint: "c"@, nerd_icon: "\u{f0234}"@ }]
    }
}

/// The letter that stands for entry `i` of the group menu.
pub open spec fn group_hint(in_group: bool, i: int) -> char {
    if !in_group {
        'c'
    } else if i == 0 {
        'm'
    } else if i == 1 {
        'a'
    } else if i == 2 {
        'r'
    } else if i == 3 {
        'n'
    } else {
        'l'
    }
}

/// A letter stands for an entry of the group menu.
pub open spec fn is_group_hint(in_group: bool, c: char) -> bool {
    if in_group {
        c == 'm' || c == 'a' || c == 'r' || c == 'n' || c == 'l'
    } else {
        c == 'c'
    }
}

/// The members of the active group.
pub open spec fn active_members(a: AppView) -> Seq<Seq<char>> {
    match a.active_conversation {
        Some(id) => match look(a.store.groups, id) {
            Some(g) => g.members,
            None => Seq::empty(),
        },
        None => Seq::empty(),
    }
}

/// Members with their names.
pub open spec fn member_rows(members: Seq<Seq<char>>, names: RowsView) -> RowsView {
    members.map_values(
        |m: Seq<char>|
            (
                m,
                match look(names, m) {
                    Some(n) => n,
                    None => m,
                },
            ),
    )
}

/// The contacts that can be added to the active group.
pub open spec fn addable_rows(a: AppView) -> RowsView {
    sorted_by(
        a.store.contact_names.filter(
            |p: (Seq<char>, Seq<char>)|
                p.1.len() > 0 && !active_members(a).contains(p.0) && matches_filter(
                    a.group_menu.filter,
                    p.1,
                    p.0,
                ),
        ),
        lower_second(),
    )
}

/// The members that can be removed from the active group: all but oneself.
pub open spec fn removable_rows(a: AppView) -> RowsView {
    sorted_by(
        member_rows(active_members(a), a.store.contact_names).filter(
            |p: (Seq<char>, Seq<char>)|
                p.0 != a.account && matches_filter(a.group_menu.filter, p.1, p.0),
        ),
        lower_second(),
    )
}

/// The state with rows in the group menu.
pub open spec fn group_listed(a: AppView, rows: RowsView) -> AppView {
    AppView {
        group_menu: GroupMenuOverlayStateView {
            filtered: rows,
            index: clamped(a.group_menu.index, rows.len()),
            ..a.group_menu
        },
        ..a
    }
}

/// The state with another part of the group menu open, at its top.
pub open spec fn group_part(a: AppView, state: Option<GroupMenuState>) -> AppView {
    AppView { group_menu: GroupMenuOverlayStateView { state, index: 0, ..a.group_menu }, ..a }
}

/// The state with another row of the group menu selected.
pub open spec fn group_selected(a: AppView, index: usize) -> AppView {
    AppView { group_menu: GroupMenuOverlayStateView { index, ..a.group_menu }, ..a }
}

/// The state with other texts in the group menu.
pub open spec fn group_texts(a: AppView, filter: Seq<char>, input: Seq<char>) -> AppView {
    AppView { group_menu: GroupMenuOverlayStateView { filter, input, ..a.group_menu }, ..a }
}

/// The state with the group menu closed.
pub open spec fn group_closed(a: AppView) -> AppView {
    AppView { group_menu: GroupMenuOverlayStateView { state: None, ..a.group_menu }, ..a }
}

/// The state with the part of the group menu open that a letter stands for.
#[verifier::opaque]
pub open spec fn group_chosen(a: AppView, hint: char) -> AppView {
    let b = group_texts(group_selected(a, 0), Seq::empty(), Seq::empty());
    if hint == 'm' {
        AppView {
            group_menu: GroupMenuOverlayStateView {
                filtered: member_rows(active_members(b), b.store.contact_names),
                state: Some(GroupMenuState::Members),
                ..b.group_menu
            },
            ..b
        }
    } else if hint == 'a' {
        group_state(group_listed(b, addable_rows(b)), GroupMenuState::AddMember)
    } else if hint == 'r' {
        group_state(group_listed(b, removable_rows(b)), GroupMenuState::RemoveMember)
    } else if hint == 'n' {
        group_state(
            group_texts(
                b,
                Seq::empty(),
                match b.active() {
                    Some(c) => c.name,
                    None => Seq::empty(),
                },
            ),
            GroupMenuState::Rename,
        )
    } else if hint == 'l' {
        group_state(b, GroupMenuState::LeaveConfirm)
    } else if hint == 'c' {
        group_state(b, GroupMenuState::Create)
    } else {
        b
    }
}

/// The state with a part of the group menu open.
pub open spec fn group_state(a: AppView, state: GroupMenuState) -> AppView {
    AppView { group_menu: GroupMenuOverlayStateView { state: Some(state), ..a.group_menu }, ..a }
}

/// The state after a key in the list of what can be done with a group.
pub open spec fn group_menu_key(a: AppView, code: KeyCode) -> AppView {
    let in_group = group_active(a);
    let n = group_items(in_group).len();
    let i = a.group_menu.index;
    if code == KeyCode::Down || code == KeyCode::Char('j') {
        group_selected(a, step_down(i, n))
    } else if code == KeyCode::Up || code == KeyCode::Char('k') {
        group_selected(a, step_up(i))
    } else {
        match code {
            KeyCode::Enter => if i < n {
                group_chosen(a, group_hint(in_group, i as int))
            } else {
                a
            },
            KeyCode::Char(c) => if is_group_hint(in_group, c) {
                group_chosen(a, c)
            } else {
                a
            },
            KeyCode::Esc => group_closed(a),
            _ => a,
        }
    }
}

/// The state after a key in a list of contacts or members, one of which is to
/// be added or removed, and what is sent.
pub open spec fn member_picker_key(a: AppView, code: KeyCode, adding: bool) -> (
    AppView,
    Option<SendRequestView>,
) {
    let g = a.group_menu;
    let relist = |b: AppView|
        group_listed(
            b,
            if adding {
                addable_rows(b)
            } else {
                removable_rows(b)
            },
        );
    if code == KeyCode::Down || code == KeyCode::Char('j') {
        (group_selected(a, step_down(g.index, g.filtered.len())), None)
    } else if code == KeyCode::Up || code == KeyCode::Char('k') {
        (group_selected(a, step_up(g.index)), None)
    } else {
        match code {
            KeyCode::Enter => match a.active_conversation {
                Some(group_id) => if g.index < g.filtered.len() {
                    let members = seq![g.filtered[g.index as int].0];
                    (
                        group_texts(group_closed(a), Seq::empty(), g.input),
                        Some(
                            if adding {
                                SendRequestView::AddGroupMembers { group_id, members }
                            } else {
                                SendRequestView::RemoveGroupMembers { group_id, members }
                            },
                        ),
                    )
                } else {
                    (a, None)
                },
                None => (a, None),
            },
            KeyCode::Esc => (
                group_texts(group_part(a, Some(GroupMenuState::Menu)), Seq::empty(), g.input),
                None,
            ),
            KeyCode::Backspace => (
                relist(group_texts(group_selected(a, 0), popped(g.filter), g.input)),
                None,
            ),
            KeyCode::Char(c) => (
                relist(group_texts(group_selected(a, 0), g.filter.push(c), g.input)),
                None,
            ),
            _ => (a, None),
        }
    }
}

/// The state after a key while the name of a group is entered, and what is sent.
pub open spec fn group_name_key(a: AppView, code: KeyCode, creating: bool) -> (
    AppView,
    Option<SendRequestView>,
) {
    let g = a.group_menu;
    match code {
        KeyCode::Enter => {
            let name = trimmed(g.input);
            let done = group_texts(group_closed(a), g.filter, Seq::empty());
            if name.len() == 0 {
                (a, None)
            } else if creating {
                (done, Some(SendRequestView::CreateGroup { name }))
            } else {
                match a.active_conversation {
                    Some(group_id) => (done, Some(SendRequestView::RenameGroup { group_id, name })),
                    None => (a, None),
                }
            }
        },
        KeyCode::Esc => (
            group_texts(
                if creating {
                    group_closed(a)
                } else {
                    group_part(a, Some(GroupMenuState::Menu))
                },
                g.filter,
                Seq::empty(),
            ),
            None,
        ),
        KeyCode::Backspace => (group_texts(a, g.filter, popped(g.input)), None),
        KeyCode::Char(c) => (group_texts(a, g.filter, g.input.push(c)), None),
        _ => (a, None),
    }
}

/// The state after a key at the question whether to leave the group, and what
/// is sent.
pub open spec fn group_leave_key(a: AppView, code: KeyCode) -> (AppView, Option<SendRequestView>) {
    if code == KeyCode::Char('y') {
        match a.active_conversation {
            Some(group_id) => (group_closed(a), Some(SendRequestView::LeaveGroup { group_id })),
            None => (a, None),
        }
    } else if code == KeyCode::Char('n') || code == KeyCode::Esc {
        (group_part(a, Some(GroupMenuState::Menu)), None)
    } else {
        (a, None)
    }
}

/// The state after a key in the list of members.
pub open spec fn group_members_key(a: AppView, code: KeyCode) -> AppView {
    let g = a.group_menu;
    if code == KeyCode::Down || code == KeyCode::Char('j') {
        group_selected(a, step_down(g.index, g.filtered.len()))
    } else if code == KeyCode::Up || code == KeyCode::Char('k') {
        group_selected(a, step_up(g.index))
    } else if code == KeyCode::Esc {
        group_part(a, Some(GroupMenuState::Menu))
    } else {
        a
    }
}

/// The state after a key in the group menu, and what is sent.
#[verifier::opaque]
pub open spec fn group_key(a: AppView, code: KeyCode) -> (AppView, Option<SendRequestView>) {
    match a.group_menu.state {
        None => (a, None),
        Some(GroupMenuState::Menu) => (group_menu_key(a, code), None),
        Some(GroupMenuState::Members) => (group_members_key(a, code), None),
        Some(GroupMenuState::AddMember) => member_picker_key(a, code, true),
        Some(GroupMenuState::RemoveMember) => member_picker_key(a, code, false),
        Some(GroupMenuState::Rename) => group_name_key(a, code, false),
        Some(GroupMenuState::Create) => group_name_key(a, code, true),
        Some(GroupMenuState::LeaveConfirm) => group_leave_key(a, code),
    }
}

fn name_rows(members: &Vec<String>, names: &StrMap<String>) -> (r: Vec<(String, String)>)
    ensures
        r.deep_view() == member_rows(members.deep_view(), names.deep_view()),
{
    let ghost s = member_rows(members.deep_view(), names.deep_view());
    let mut out: Vec<(String, String)> = Vec::new();
    let mut i: usize = 0;
    while i < members.len()
        invariant
            i <= members@.len(),
            s == member_rows(members.deep_view(), names.deep_view()),
            out@.len() == i,
            forall|k: int| 0 <= k < i ==> (#[trigger] out@[k]).deep_view() == s[k],
        decreases members@.len() - i,
    {
        let name = match names.get(members[i].as_str()) {
            Some(n) => n.clone(),
            None => members[i].clone(),
        };
        out.push((members[i].clone(), name));
        i += 1;
    }
    assert(out.deep_view() =~= s);
    out
}

fn pick_members(
    rows: Vec<(String, String)>,
    account: &str,
    filter: &str,
) -> (r: Vec<(String, String)>)
    ensures
        r.deep_view() == rows.deep_view().filter(
            |p: (Seq<char>, Seq<char>)| p.0 != account@ && matches_filter(filter@, p.1, p.0),
        ),
{
    let ghost s = rows.deep_view();
    let ghost p = |p: (Seq<char>, Seq<char>)|
        p.0 != account@ && matches_filter(filter@, p.1, p.0);
    let lower = to_lower(filter);
    let mut out: Vec<(String, String)> = Vec::new();
    let mut i: usize = 0;
    proof {
        filter_none(s, p);
    }
    assert(out.deep_view() =~= s.take(0).filter(p));
    while i < rows.len()
        invariant
            i <= rows@.len(),
            s == rows.deep_view(),
            lower@ == folded(filter@),
            p == |p: (Seq<char>, Seq<char>)|
                p.0 != account@ && matches_filter(filter@, p.1, p.0),
            out.deep_view() == s.take(i as int).filter(p),
        decreases rows@.len() - i,
    {
        let row = rows[i].duplicate();
        proof {
            filter_take(s, i as int, p);
            assert(s[i as int] == row.deep_view());
        }
        if !same(row.0.as_str(), account) && passes_filter(
            lower.as_str(),
            row.1.as_str(),
            row.0.as_str(),
            Ghost(filter@),
        ) {
            let ghost before = out.deep_view();
            out.push(row);
            assert(out.deep_view() =~= before.push(row.deep_view()));
        }
        i += 1;
    }
    assert(s.take(s.len() as int) =~= s);
    out
}

impl App {
    /// Whether the active conversation is a group.
    pub fn in_group(&self) -> (r: bool)
        ensures
            r == group_active(self.state()),
    {
        reveal(App::state);
        match &self.active_conversation {
            Some(id) => self.conv_is_group(id.as_str()),
            None => false,
        }
    }

    /// The entries of the group menu.
    pub fn group_menu_items(&self) -> (r: Vec<MenuAction>)
        ensures
            r.deep_view() == group_items(group_active(self.state())),
    {
        let r = if self.in_group() {
            vec![
                MenuAction { label: "Members", key_hint: "m", nerd_icon: "\u{f0849}" },
                MenuAction { label: "Add member", key_hint: "a", nerd_icon: "\u{f0234}" },
                MenuAction { label: "Remove member", key_hint: "r", nerd_icon: "\u{f0235}" },
                MenuAction { label: "Rename", key_hint: "n", nerd_icon: "\u{f03eb}" },
                MenuAction { label: "Leave", key_hint: "l", nerd_icon: "\u{f0a79}" },
            ]
        } else {
            vec![MenuAction { label: "Create group", key_hint: "c", nerd_icon: "\u{f0234}" }]
        };
        assert(r.deep_view() =~= group_items(group_active(self.state())));
        r
    }

    fn group_members(&self) -> (r: Vec<String>)
        ensures
            r.deep_view() == active_members(self.state()),
    {
        reveal(App::state);
        let none: Vec<String> = Vec::new();
        assert(none.deep_view() =~= Seq::<Seq<char>>::empty());
        match &self.active_conversation {
            Some(id) => match self.store.groups.get(id.as_str()) {
                Some(g) => g.members.duplicate(),
                None => none,
            },
            None => none,
        }
    }

    /// Shows the contacts that can be added to the group.
    pub fn refresh_group_add_filter(&mut self)
        ensures
            final(self).state() == group_listed(
                old(self).state(),
                addable_rows(old(self).state()),
            ),
    {
        let members = self.group_members();
        reveal(App::state);
        let rows = pick_contacts(
            &self.store.contact_names,
            &members,
            self.group_menu.filter.as_str(),
        );
        proof {
            let a = self.state();
            let p = |p: (Seq<char>, Seq<char>)|
                p.1.len() > 0 && !members.deep_view().contains(p.0) && matches_filter(
                    self.group_menu.filter@,
                    p.1,
                    p.0,
                );
            let q = |p: (Seq<char>, Seq<char>)|
                p.1.len() > 0 && !active_members(a).contains(p.0) && matches_filter(
                    a.group_menu.filter,
                    p.1,
                    p.0,
                );
            assert(p =~= q);
        }
        self.group_menu.filtered = sort_by_lower_second(rows);
        self.group_menu.index = clamp_index(
            self.group_menu.index,
            self.group_menu.filtered.len(),
        );
    }

    /// Shows the members that can be removed from the group.
    pub fn refresh_group_remove_filter(&mut self)
        ensures
            final(self).state() == group_listed(
                old(self).state(),
                removable_rows(old(self).state()),
            ),
    {
        let members = self.group_members();
        reveal(App::state);
        let rows = name_rows(&members, &self.store.contact_names);
        let picked = pick_members(rows, self.account.as_str(), self.group_menu.filter.as_str());
        proof {
            let a = self.state();
            let p = |p: (Seq<char>, Seq<char>)|
                p.0 != self.account@ && matches_filter(self.group_menu.filter@, p.1, p.0);
            let q = |p: (Seq<char>, Seq<char>)|
                p.0 != a.account && matches_filter(a.group_menu.filter, p.1, p.0);
            assert(p =~= q);
        }
        self.group_menu.filtered = sort_by_lower_second(picked);
        self.group_menu.index = clamp_index(
            self.group_menu.index,
            self.group_menu.filtered.len(),
        );
    }

    fn select_group_row(&mut self, index: usize)
        ensures
            final(self).state() == group_selected(old(self).state(), index),
    {
        reveal(App::state);
        self.group_menu.index = index;
    }

    fn set_group_texts(&mut self, filter: String, input: String)
        ensures
            final(self).state() == group_texts(old(self).state(), filter@, input@),
    {
        reveal(App::state);
        self.group_menu.filter = filter;
        self.group_menu.input = input;
    }

    fn set_group_state(&mut self, state: GroupMenuState)
        ensures
            final(self).state() == group_state(old(self).state(), state),
    {
        reveal(App::state);
        self.group_menu.state = Some(state);
    }

    fn close_group_menu(&mut self)
        ensures
            final(self).state() == group_closed(old(self).state()),
    {
        reveal(App::state);
        self.group_menu.state = None;
    }

    fn back_to_group_menu(&mut self)
        ensures
            final(self).state() == group_part(old(self).state(), Some(GroupMenuState::Menu)),
    {
        reveal(App::state);
        self.group_menu.state = Some(GroupMenuState::Menu);
        self.group_menu.index = 0;
    }

    fn show_members(&mut self)
        ensures
            final(self).state() == (AppView {
                group_menu: GroupMenuOverlayStateView {
                    filtered: member_rows(
                        active_members(old(self).state()),
                        old(self).state().store.contact_names,
                    ),
                    state: Some(GroupMenuState::Members),
                    ..old(self).state().group_menu
                },
                ..old(self).state()
            }),
    {
        let members = self.group_members();
        reveal(App::state);
        self.group_menu.filtered = name_rows(&members, &self.store.contact_names);
        self.group_menu.state = Some(GroupMenuState::Members);
    }

    /// The name of the active conversation.
    pub fn active_name(&self) -> (r: String)
        ensures
            r@ == match self.state().active() {
                Some(c) => c.name,
                None => Seq::empty(),
            },
    {
        reveal(App::state);
        match &self.active_conversation {
            Some(id) => match self.store.conversations.get(id.as_str()) {
                Some(c) => c.name.clone(),
                None => String::new(),
            },
            None => String::new(),
        }
    }

    /// Opens the part of the group menu that a letter stands for.
    pub fn transition_group_menu(&mut self, hint: char)
        ensures
            final(self).state() == group_chosen(old(self).state(), hint),
    {
        reveal(group_chosen);
        self.select_group_row(0);
        self.set_group_texts(String::new(), String::new());
        if hint == 'm' {
            self.show_members();
        } else if hint == 'a' {
            self.refresh_group_add_filter();
            self.set_group_state(GroupMenuState::AddMember);
        } else if hint == 'r' {
            self.refresh_group_remove_filter();
            self.set_group_state(GroupMenuState::RemoveMember);
        } else if hint == 'n' {
            let name = self.active_name();
            self.set_group_texts(String::new(), name);
            self.set_group_state(GroupMenuState::Rename);
        } else if hint == 'l' {
            self.set_group_state(GroupMenuState::LeaveConfirm);
        } else if hint == 'c' {
            self.set_group_state(GroupMenuState::Create);
        }
    }

    fn handle_group_list_key(&mut self, code: KeyCode)
        ensures
            final(self).state() == group_menu_key(old(self).state(), code),
    {
        let in_group = self.in_group();
        let n: usize = if in_group {
            5
        } else {
            1
        };
        let i = self.group_menu.index;
        assert(i == self.state().group_menu.index) by {
            reveal(App::state);
        }
        assert(n == group_items(in_group).len());
        if code == KeyCode::Down || code == KeyCode::Char('j') {
            self.select_group_row(move_down(i, n));
        } else if code == KeyCode::Up || code == KeyCode::Char('k') {
            self.select_group_row(i.saturating_sub(1));
        } else {
            match code {
                KeyCode::Enter => {
                    if i < n {
                        let hint = if !in_group {
                            'c'
                        } else if i == 0 {
                            'm'
                        } else if i == 1 {
                            'a'
                        } else if i == 2 {
                            'r'
                        } else if i == 3 {
                            'n'
                        } else {
                            'l'
                        };
                        self.transition_group_menu(hint);
                    }
                },
                KeyCode::Char(c) => {
                    if (in_group && (c == 'm' || c == 'a' || c == 'r' || c == 'n' || c == 'l')) || (
                    !in_group && c == 'c') {
                        self.transition_group_menu(c);
                    }
                },
                KeyCode::Esc => {
                    self.close_group_menu();
                },
                _ => {},
            }
        }
    }

    fn relist_members(&mut self, adding: bool)
        ensures
            final(self).state() == group_listed(
                old(self).state(),
                if adding {
                    addable_rows(old(self).state())
                } else {
                    removable_rows(old(self).state())
                },
            ),
    {
        if adding {
            self.refresh_group_add_filter();
        } else {
            self.refresh_group_remove_filter();
        }
    }

    fn handle_member_picker_key(&mut self, code: KeyCode, adding: bool) -> (r: Option<SendRequest>)
        ensures
            (final(self).state(), r.deep_view()) == member_picker_key(
                old(self).state(),
                code,
                adding,
            ),
    {
        let i = self.group_menu.index;
        let n = self.group_menu.filtered.len();
        let ghost g = self.state().group_menu;
        assert(g == self.group_menu.deep_view()) by {
            reveal(App::state);
        }
        let mut filter = self.group_menu.filter.clone();
        let input = self.group_menu.input.clone();
        if code == KeyCode::Down || code == KeyCode::Char('j') {
            self.select_group_row(move_down(i, n));
        } else if code == KeyCode::Up || code == KeyCode::Char('k') {
            self.select_group_row(i.saturating_sub(1));
        } else {
            match code {
                KeyCode::Enter => {
                    let active = self.active_id();
                    if let Some(group_id) = active {
                        if i < n {
                            let number = self.group_menu.filtered[i].0.clone();
                            assert(number@ == g.filtered[i as int].0);
                            self.close_group_menu();
                            self.set_group_texts(String::new(), input);
                            let members: Vec<String> = vec![number];
                            assert(members.deep_view() =~= seq![number@]);
                            return if adding {
                                Some(SendRequest::AddGroupMembers { group_id, members })
                            } else {
                                Some(SendRequest::RemoveGroupMembers { group_id, members })
                            };
                        }
                    }
                },
                KeyCode::Esc => {
                    self.back_to_group_menu();
                    self.set_group_texts(String::new(), input);
                },
                KeyCode::Backspace => {
                    let _ = filter.pop();
                    self.select_group_row(0);
                    self.set_group_texts(filter, input);
                    self.relist_members(adding);
                },
                KeyCode::Char(c) => {
                    filter.push(c);
                    self.select_group_row(0);
                    self.set_group_texts(filter, input);
                    self.relist_members(adding);
                },
                _ => {},
            }
        }
        None
    }

    fn handle_group_name_key(&mut self, code: KeyCode, creating: bool) -> (r: Option<SendRequest>)
        ensures
            (final(self).state(), r.deep_view()) == group_name_key(
                old(self).state(),
                code,
                creating,
            ),
    {
        let ghost g = self.state().group_menu;
        assert(g == self.group_menu.deep_view()) by {
            reveal(App::state);
        }
        let filter = self.group_menu.filter.clone();
        let mut input = self.group_menu.input.clone();
        match code {
            KeyCode::Enter => {
                let name = trim(input.as_str());
                if !name.as_str().is_empty() {
                    if creating {
                        self.close_group_menu();
                        self.set_group_texts(filter, String::new());
                        return Some(SendRequest::CreateGroup { name });
                    }
                    let active = self.active_id();
                    if let Some(group_id) = active {
                        self.close_group_menu();
                        self.set_group_texts(filter, String::new());
                        return Some(SendRequest::RenameGroup { group_id, name });
                    }
                }
            },
            KeyCode::Esc => {
                if creating {
                    self.close_group_menu();
                } else {
                    self.back_to_group_menu();
                }
                self.set_group_texts(filter, String::new());
            },
            KeyCode::Backspace => {
                let _ = input.pop();
                self.set_group_texts(filter, input);
            },
            KeyCode::Char(c) => {
                input.push(c);
                self.set_group_texts(filter, input);
            },
            _ => {},
        }
        None
    }

    fn handle_group_leave_key(&mut self, code: KeyCode) -> (r: Option<SendRequest>)
        ensures
            (final(self).state(), r.deep_view()) == group_leave_key(old(self).state(), code),
    {
        if code == KeyCode::Char('y') {
            let active = self.active_id();
            if let Some(group_id) = active {
                self.close_group_menu();
                return Some(SendRequest::LeaveGroup { group_id });
            }
        } else if code == KeyCode::Char('n') || code == KeyCode::Esc {
            self.back_to_group_menu();
        }
        None
    }

    fn handle_group_members_key(&mut self, code: KeyCode)
        ensures
            final(self).state() == group_members_key(old(self).state(), code),
    {
        let i = self.group_menu.index;
        let n = self.group_menu.filtered.len();
        assert(self.state().group_menu == self.group_menu.deep_view()) by {
            reveal(App::state);
        }
        if code == KeyCode::Down || code == KeyCode::Char('j') {
            self.select_group_row(move_down(i, n));
        } else if code == KeyCode::Up || code == KeyCode::Char('k') {
            self.select_group_row(i.saturating_sub(1));
        } else if code == KeyCode::Esc {
            self.back_to_group_menu();
        }
    }

    /// Handles a key in the group menu.
    pub fn handle_group_menu_key(&mut self, code: KeyCode) -> (r: Option<SendRequest>)
        ensures
            (final(self).state(), r.deep_view()) == group_key(old(self).state(), code),
    {
        reveal(group_key);
        assert(self.state().group_menu.state == self.group_menu.state) by {
            reveal(App::state);
        }
        match self.group_menu.state {
            None => None,
            Some(GroupMenuState::Menu) => {
                self.handle_group_list_key(code);
                None
            },
            Some(GroupMenuState::Members) => {
                self.handle_group_members_key(code);
                None
            },
            Some(GroupMenuState::AddMember) => self.handle_member_picker_key(code, true),
            Some(GroupMenuState::RemoveMember) => self.handle_member_picker_key(code, false),
            Some(GroupMenuState::Rename) => self.handle_group_name_key(code, false),
            Some(GroupMenuState::Create) => self.handle_group_name_key(code, true),
            Some(GroupMenuState::LeaveConfirm) => self.handle_group_leave_key(code),
        }
    }
}

/// The letters of the group menu are those of its entries.
pub proof fn group_hints_agree(in_group: bool, i: int)
    requires
        0 <= i < group_items(in_group).len(),
    ensures
        group_items(in_group)[i].key_hint == seq![group_hint(in_group, i)],
        is_group_hint(in_group, group_hint(in_group, i)),
{
    reveal_strlit("m");
    reveal_strlit("a");
    reveal_strlit("r");
    reveal_strlit("n");
    reveal_strlit("l");
    reveal_strlit("c");
    assert("m"@ =~= seq!['m'] && "a"@ =~= seq!['a'] && "r"@ =~= seq!['r'] && "n"@ =~= seq!['n']
        && "l"@ =~= seq!['l'] && "c"@ =~= seq!['c']);
}

} // verus!
