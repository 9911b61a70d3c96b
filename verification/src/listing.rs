//! What is promised of the lists one can choose from.
use crate::app::{AppView, EffectView, Overlay};
use crate::choosing::{mapped_from, mapped_has, sorted_has};
use crate::directory::{identities_taken, identity_of};
use crate::file_picker::{browser_key, entry_places, path_join};
use crate::keys::KeyCode;
use crate::lists::{contacts_key, forward_opened, forward_row};
use crate::order::lower_second;
use crate::places::filter_has;
use crate::signal::IdentityInfoView;
use crate::strmap::{at, look};
use crate::text::{contains_text, folded};
use vstd::prelude::*;

verus! {

/// Writing in the list of contacts shows each contact with a name whose name or number
/// has it in it, and no others.
pub proof fn contacts_are_listed(a: AppView, c: char, number: Seq<char>, name: Seq<char>)
    requires
        c != 'j' && c != 'k',
    ensures
        ({
            let b = contacts_key(a, KeyCode::Char(c));
            let filter = folded(a.contacts.filter.push(c));
            &&& b.contacts.filter == a.contacts.filter.push(c)
            &&& b.contacts.filtered.contains((number, name)) <==> a.store.contact_names.contains(
                (number, name),
            ) && name.len() > 0 && (filter.len() == 0 || contains_text(folded(name), filter)
                || contains_text(folded(number), filter))
        }),
{
    reveal(contacts_key);
    let filter = a.contacts.filter.push(c);
    let p = |p: (Seq<char>, Seq<char>)|
        p.1.len() > 0 && crate::common::matches_filter(filter, p.1, p.0);
    let names = a.store.contact_names;
    sorted_has(names.filter(p), lower_second(), (number, name));
    filter_has(names, p, (number, name));
}

/// One can forward to each conversation that was accepted, but the one that is looked
/// at, and to no other.
pub proof fn others_can_be_forwarded_to(a: AppView, id: Seq<char>, name: Seq<char>)
    ensures
        ({
            let b = forward_opened(a);
            &&& b.shows(Overlay::Forward)
            &&& b.forward.filtered.contains((id, name)) ==> {
                let c = look(a.store.conversations, id);
                &&& c is Some && c->0.accepted && c->0.name == name
                &&& a.active_conversation != Some(id)
                &&& a.store.conversation_order.contains(id)
            }
            &&& a.store.conversation_order.contains(id) && look(a.store.conversations, id) is Some
                && look(a.store.conversations, id)->0.accepted && a.active_conversation != Some(id)
                && folded(Seq::<char>::empty()).len() == 0 ==> b.forward.filtered.contains(
                (id, look(a.store.conversations, id)->0.name),
            )
        }),
{
    let b = AppView {
        forward: crate::app::ForwardOverlayStateView {
            index: 0,
            filter: Seq::empty(),
            ..a.forward
        },
        ..a.opened(Overlay::Forward)
    };
    let p = |id: Seq<char>| forward_row(b, b.forward.filter, id);
    let f = |id: Seq<char>| (id, at(b.store.conversations, id).name);
    let order = a.store.conversation_order;
    if forward_opened(a).forward.filtered.contains((id, name)) {
        let x = mapped_from(order, p, f, (id, name));
        assert(x == id);
    }
    if order.contains(id) && p(id) {
        mapped_has(order, p, f, id);
    }
}

/// The identities that are shown are those of the members of the group that is looked
/// at, or of the one person.
pub proof fn identities_are_listed(
    a: AppView,
    list: Seq<IdentityInfoView>,
    id: Seq<char>,
    x: IdentityInfoView,
    number: Seq<char>,
)
    requires
        a.shows(Overlay::Verify),
        a.active_conversation == Some(id),
        look(a.store.conversations, id) is Some,
        look(a.store.conversations, id)->0.is_group ==> look(a.store.groups, id) is Some,
        x.number == Some(number),
    ensures
        identities_taken(a, list).verify.identities.contains(x) <==> list.contains(x) && (if look(
            a.store.conversations,
            id,
        )->0.is_group {
            look(a.store.groups, id)->0.members.contains(number)
        } else {
            number == id
        }),
{
    reveal(identities_taken);
    let is_group = look(a.store.conversations, id)->0.is_group;
    let numbers = if is_group {
        look(a.store.groups, id)->0.members
    } else {
        seq![id]
    };
    assert(seq![id].contains(number) <==> number == id) by {
        assert(seq![id][0] == id);
    }
    filter_has(list, |i: IdentityInfoView| identity_of(i, numbers), x);
}

// ---------------------------------------------------------------------------
// Files
// ---------------------------------------------------------------------------

/// Choosing a directory asks for what is in it; choosing a file attaches it and closes
/// the list.
pub proof fn files_are_chosen(a: AppView, k: usize)
    requires
        a.file_picker.index < a.file_picker.filtered.len(),
        a.file_picker.filtered[a.file_picker.index as int] == k,
        k < a.file_picker.entries.len(),
    ensures
        ({
            let b = browser_key(a, KeyCode::Enter);
            let (name, is_dir, _) = a.file_picker.entries[k as int];
            let path = path_join(a.file_picker.dir, name);
            &&& is_dir ==> b.file_picker.dir == path && b.effects == a.effects.push(
                EffectView::ReadDirectory(path),
            ) && b.pending.attachment == a.pending.attachment && b.file_picker.filter.len() == 0
            &&& !is_dir ==> b.pending.attachment == Some(path) && !b.shows(Overlay::FileBrowser)
                && b.effects == a.effects
        }),
        browser_key(a, KeyCode::Esc).pending.attachment == a.pending.attachment,
        !browser_key(a, KeyCode::Esc).shows(Overlay::FileBrowser),
{
    reveal(browser_key);
}

proof fn places_are(rows: Seq<(Seq<char>, bool, u64)>, lower: Seq<char>, n: int, k: usize)
    requires
        0 <= n <= rows.len() <= usize::MAX,
    ensures
        entry_places(rows, lower, n).contains(k) <==> k < n && (lower.len() == 0 || contains_text(
            folded(rows[k as int].0),
            lower,
        )),
    decreases n,
{
    if n > 0 {
        places_are(rows, lower, n - 1, k);
        let before = entry_places(rows, lower, n - 1);
        let after = entry_places(rows, lower, n);
        let last = (n - 1) as usize;
        if after.len() > before.len() {
            assert(after == before.push(last));
            if before.contains(k) {
                let i = choose|i: int| 0 <= i < before.len() && before[i] == k;
                assert(after[i] == k);
            }
            if k == last {
                assert(after[before.len() as int] == k);
            }
            if after.contains(k) && k != last {
                let i = choose|i: int| 0 <= i < after.len() && after[i] == k;
                assert(before[i] == k);
            }
        }
    }
}

/// Writing in the list of files shows those whose names have it in them, and no others.
pub proof fn files_are_listed(a: AppView, c: char, k: usize)
    requires
        c != 'j' && c != 'k' && c != '-',
        a.file_picker.entries.len() <= usize::MAX,
        k < a.file_picker.entries.len(),
    ensures
        ({
            let b = browser_key(a, KeyCode::Char(c));
            let lower = folded(a.file_picker.filter.push(c));
            &&& b.file_picker.filter == a.file_picker.filter.push(c)
            &&& b.file_picker.filtered.contains(k) <==> lower.len() == 0 || contains_text(
                folded(a.file_picker.entries[k as int].0),
                lower,
            )
            &&& b.file_picker.dir == a.file_picker.dir && b.pending == a.pending
        }),
{
    reveal(browser_key);
    let p = a.file_picker;
    places_are(p.entries, folded(p.filter.push(c)), p.entries.len() as int, k);
}

} // verus!
