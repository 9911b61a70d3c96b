//! Completing commands, mentions and the names of conversations.
use crate::app::{
    App, AppView, AutocompleteMode, AutocompleteState, AutocompleteStateView, Flag, InputMode,
    InputStateView, Overlay, SendRequest, SendRequestView, TypingStateView,
};
use crate::common::{filter_none, filter_take};
use crate::composer::{normalize_lines, normalized, with_input};
use crate::conversation_store::{Conversation, ConversationView};
use crate::input::{command_rows, commands, rows_of, CommandRow};
use crate::navigation::typing_request;
use crate::offsets::{byte_len, byte_of, index_at, index_of_byte, on_boundary};
use crate::order::{lower_candidate, lower_first, sort_by_lower_first, sort_candidates, sorted_by};
use crate::signal::{Duplicate, Group, GroupView};
use crate::strmap::{at, look, StrMap};
use crate::text::{
    concat2, concat3, contains, contains_text, folded, from_range, is_white, occurs_at, same,
    starts_with, starts_with_char, to_chars, to_lower, trim, trimmed,
};
use vstd::prelude::*;

verus! {

/// Number, name and uuid of whom a mention can name.
pub type CandidateView = (Seq<char>, Seq<char>, Option<Seq<char>>);

// ---------------------------------------------------------------------------
// The list of candidates
// ---------------------------------------------------------------------------

/// No candidates.
pub open spec fn no_candidates() -> AutocompleteStateView {
    AutocompleteStateView {
        command_candidates: Seq::empty(),
        index: 0,
        mode: AutocompleteMode::Command,
        mention_candidates: Seq::empty(),
        join_candidates: Seq::empty(),
        mention_trigger_pos: 0,
        pending_mentions: Seq::empty(),
    }
}

impl AutocompleteStateView {
    /// How many candidates there are of what is being completed.
    pub open spec fn count(self) -> nat {
        match self.mode {
            AutocompleteMode::Command => self.command_candidates.len(),
            AutocompleteMode::Mention => self.mention_candidates.len(),
            AutocompleteMode::Join => self.join_candidates.len(),
        }
    }

    /// The state without candidates.
    pub open spec fn cleared(self) -> AutocompleteStateView {
        AutocompleteStateView {
            command_candidates: Seq::empty(),
            mention_candidates: Seq::empty(),
            join_candidates: Seq::empty(),
            index: 0,
            ..self
        }
    }
}

impl AutocompleteState {
    /// No candidates.
    pub fn new() -> (r: AutocompleteState)
        ensures
            r.deep_view() == no_candidates(),
    {
        let r = AutocompleteState {
            command_candidates: Vec::new(),
            index: 0,
            mode: AutocompleteMode::Command,
            mention_candidates: Vec::new(),
            join_candidates: Vec::new(),
            mention_trigger_pos: 0,
            pending_mentions: Vec::new(),
        };
        assert(r.command_candidates.deep_view() =~= Seq::<usize>::empty());
        assert(r.mention_candidates.deep_view() =~= Seq::<CandidateView>::empty());
        assert(r.join_candidates.deep_view() =~= Seq::<(Seq<char>, Seq<char>)>::empty());
        assert(r.pending_mentions.deep_view() =~= Seq::<(Seq<char>, Option<Seq<char>>)>::empty());
        r
    }

    /// How many candidates there are of what is being completed.
    pub fn len(&self) -> (r: usize)
        ensures
            r == self.deep_view().count(),
    {
        match self.mode {
            AutocompleteMode::Command => self.command_candidates.len(),
            AutocompleteMode::Mention => self.mention_candidates.len(),
            AutocompleteMode::Join => self.join_candidates.len(),
        }
    }

    /// Whether there are no candidates of what is being completed.
    pub fn is_empty(&self) -> (r: bool)
        ensures
            r == (self.deep_view().count() == 0),
    {
        self.len() == 0
    }

    /// Takes all candidates out.
    pub fn clear(&mut self)
        ensures
            final(self).deep_view() == old(self).deep_view().cleared(),
    {
        self.command_candidates = Vec::new();
        self.mention_candidates = Vec::new();
        self.join_candidates = Vec::new();
        self.index = 0;
        assert(self.command_candidates.deep_view() =~= Seq::<usize>::empty());
        assert(self.mention_candidates.deep_view() =~= Seq::<CandidateView>::empty());
        assert(self.join_candidates.deep_view() =~= Seq::<(Seq<char>, Seq<char>)>::empty());
    }
}

impl Default for AutocompleteState {
    fn default() -> (r: AutocompleteState)
        ensures
            r.deep_view() == no_candidates(),
    {
        AutocompleteState::new()
    }
}

// ---------------------------------------------------------------------------
// Commands
// ---------------------------------------------------------------------------

/// A command or its short form begins with a text.
pub open spec fn command_fits(row: CommandRow, prefix: Seq<char>) -> bool {
    occurs_at(row.name, prefix, 0) || row.alias.len() > 0 && occurs_at(row.alias, prefix, 0)
}

/// The places of those of the first `n` commands that begin with a text.
pub open spec fn fitting_commands(prefix: Seq<char>, n: int) -> Seq<usize>
    decreases n,
{
    if n <= 0 {
        Seq::empty()
    } else {
        let before = fitting_commands(prefix, n - 1);
        if command_fits(command_rows()[n - 1], prefix) {
            before.push((n - 1) as usize)
        } else {
            before
        }
    }
}

/// The places of the commands that a text can be completed to: it begins with a
/// slash and has no space.
pub open spec fn command_candidates(text: Seq<char>) -> Seq<usize> {
    if text.len() > 0 && text[0] == '/' && !text.contains(' ') {
        fitting_commands(folded(text), command_rows().len() as int)
    } else {
        Seq::empty()
    }
}

fn has_char(chars: &Vec<char>, c: char) -> (r: bool)
    ensures
        r == chars@.contains(c),
{
    let mut i: usize = 0;
    while i < chars.len()
        invariant
            i <= chars@.len(),
            forall|j: int| 0 <= j < i ==> chars@[j] != c,
        decreases chars@.len() - i,
    {
        if chars[i] == c {
            assert(chars@[i as int] == c);
            return true;
        }
        i += 1;
    }
    false
}

fn find_commands(text: &str) -> (r: Vec<usize>)
    ensures
        r.deep_view() == command_candidates(text@),
{
    let mut out: Vec<usize> = Vec::new();
    assert(out.deep_view() =~= Seq::<usize>::empty());
    let chars = to_chars(text);
    if starts_with_char(text, '/') && !has_char(&chars, ' ') {
        let prefix = to_lower(text);
        let all = commands();
        let mut i: usize = 0;
        while i < all.len()
            invariant
                i <= all@.len(),
                rows_of(all@) == command_rows(),
                prefix@ == folded(text@),
                out.deep_view() == fitting_commands(folded(text@), i as int),
            decreases all@.len() - i,
        {
            let c = &all[i];
            assert(rows_of(all@)[i as int] == all@[i as int]@);
            if starts_with(c.name, prefix.as_str()) || (!c.alias.is_empty() && starts_with(
                c.alias,
                prefix.as_str(),
            )) {
                let ghost before = out.deep_view();
                out.push(i);
                assert(out.deep_view() =~= before.push(i));
            }
            i += 1;
        }
        assert(all@.len() == rows_of(all@).len());
    }
    out
}

// ---------------------------------------------------------------------------
// Conversations to join
// ---------------------------------------------------------------------------

/// A filter in lower case is empty, or one of two texts holds it: the first in
/// lower case, the second as it is.
pub open spec fn fits(lower: Seq<char>, name: Seq<char>, number: Seq<char>) -> bool {
    lower.len() == 0 || contains_text(folded(name), lower) || contains_text(number, lower)
}

/// A contact as it is shown.
pub open spec fn contact_shown(name: Seq<char>, number: Seq<char>) -> Seq<char> {
    name + " ("@ + number + ")"@
}

/// The contacts that can be joined.
pub open spec fn join_contacts(
    names: Seq<(Seq<char>, Seq<char>)>,
    lower: Seq<char>,
) -> Seq<(Seq<char>, Seq<char>)> {
    names.filter(
        |p: (Seq<char>, Seq<char>)| p.0.len() > 0 && p.0[0] == '+' && fits(lower, p.1, p.0),
    ).map_values(|p: (Seq<char>, Seq<char>)| (contact_shown(p.1, p.0), p.0))
}

/// The groups that can be joined.
pub open spec fn join_groups(
    groups: Seq<(Seq<char>, GroupView)>,
    lower: Seq<char>,
) -> Seq<(Seq<char>, Seq<char>)> {
    groups.filter(
        |p: (Seq<char>, GroupView)|
            lower.len() == 0 || contains_text(folded(p.1.name), lower),
    ).map_values(|p: (Seq<char>, GroupView)| ("#"@ + p.1.name, p.1.id))
}

/// A value stands in a list of candidates.
pub open spec fn is_candidate(s: Seq<(Seq<char>, Seq<char>)>, value: Seq<char>) -> bool {
    exists|i: int| 0 <= i < s.len() && (#[trigger] s[i]).1 == value
}

/// Candidates with the conversations that can be joined and are not among them.
pub open spec fn join_conversations(
    found: Seq<(Seq<char>, Seq<char>)>,
    order: Seq<Seq<char>>,
    convs: Seq<(Seq<char>, ConversationView)>,
    lower: Seq<char>,
) -> Seq<(Seq<char>, Seq<char>)>
    decreases order.len(),
{
    if order.len() == 0 {
        found
    } else {
        let before = join_conversations(found, order.drop_last(), convs, lower);
        let id = order.last();
        match look(convs, id) {
            Some(c) => if !is_candidate(before, id) && fits(lower, c.name, folded(id)) {
                before.push(
                    (
                        if c.is_group {
                            "#"@ + c.name
                        } else {
                            contact_shown(c.name, id)
                        },
                        id,
                    ),
                )
            } else {
                before
            },
            None => before,
        }
    }
}

/// What follows the command to join, where a text begins with it.
pub open spec fn join_argument(text: Seq<char>) -> Option<Seq<char>> {
    if occurs_at(text, "/join "@, 0) {
        Some(text.skip("/join "@.len() as int))
    } else if occurs_at(text, "/j "@, 0) {
        Some(text.skip("/j "@.len() as int))
    } else {
        None
    }
}

/// What the command to join can be completed to: what is shown, and what is
/// inserted.
pub open spec fn join_candidates(a: AppView) -> Seq<(Seq<char>, Seq<char>)> {
    match join_argument(a.input.text()) {
        Some(arg) => {
            let lower = folded(arg);
            sorted_by(
                join_conversations(
                    join_contacts(a.store.contact_names, lower) + join_groups(
                        a.store.groups,
                        lower,
                    ),
                    a.store.conversation_order,
                    a.store.conversations,
                    lower,
                ),
                lower_first(),
            )
        },
        None => Seq::empty(),
    }
}

fn fit(lower: &str, name: &str, number: &str) -> (r: bool)
    ensures
        r == fits(lower@, name@, number@),
{
    lower.is_empty() || contains(to_lower(name).as_str(), lower) || contains(number, lower)
}

fn show_contact(name: &str, number: &str) -> (r: String)
    ensures
        r@ == contact_shown(name@, number@),
{
    let a = concat3(name, " (", number);
    concat2(a.as_str(), ")")
}

fn find_join_contacts(names: &StrMap<String>, lower: &str) -> (r: Vec<(String, String)>)
    ensures
        r.deep_view() == join_contacts(names.deep_view(), lower@),
{
    let ghost s = names.deep_view();
    let ghost l = lower@;
    let ghost p = |p: (Seq<char>, Seq<char>)| p.0.len() > 0 && p.0[0] == '+' && fits(l, p.1, p.0);
    let ghost g = |p: (Seq<char>, Seq<char>)| (contact_shown(p.1, p.0), p.0);
    let mut out: Vec<(String, String)> = Vec::new();
    let mut i: usize = 0;
    proof {
        filter_none(s, p);
    }
    assert(out.deep_view() =~= s.take(0).filter(p).map_values(g));
    while i < names.entries.len()
        invariant
            i <= names.entries@.len(),
            s == names.deep_view(),
            l == lower@,
            p == |p: (Seq<char>, Seq<char>)|
                p.0.len() > 0 && p.0[0] == '+' && fits(l, p.1, p.0),
            g == |p: (Seq<char>, Seq<char>)| (contact_shown(p.1, p.0), p.0),
            out.deep_view() == s.take(i as int).filter(p).map_values(g),
        decreases names.entries@.len() - i,
    {
        let number = &names.entries[i].0;
        let name = &names.entries[i].1;
        proof {
            filter_take(s, i as int, p);
            assert(s[i as int] == (number@, name@));
        }
        let ghost before = out.deep_view();
        if starts_with_char(number.as_str(), '+') && fit(lower, name.as_str(), number.as_str()) {
            out.push((show_contact(name.as_str(), number.as_str()), number.clone()));
            assert(out.deep_view() =~= before.push((contact_shown(name@, number@), number@)));
        }
        assert(out.deep_view() =~= s.take(i + 1).filter(p).map_values(g));
        i += 1;
    }
    assert(s.take(s.len() as int) =~= s);
    out
}

fn find_join_groups(groups: &StrMap<Group>, lower: &str) -> (r: Vec<(String, String)>)
    ensures
        r.deep_view() == join_groups(groups.deep_view(), lower@),
{
    let ghost s = groups.deep_view();
    let ghost l = lower@;
    let ghost p = |p: (Seq<char>, GroupView)| l.len() == 0 || contains_text(folded(p.1.name), l);
    let ghost g = |p: (Seq<char>, GroupView)| ("#"@ + p.1.name, p.1.id);
    let mut out: Vec<(String, String)> = Vec::new();
    let mut i: usize = 0;
    proof {
        filter_none(s, p);
    }
    assert(out.deep_view() =~= s.take(0).filter(p).map_values(g));
    while i < groups.entries.len()
        invariant
            i <= groups.entries@.len(),
            s == groups.deep_view(),
            l == lower@,
            p == |p: (Seq<char>, GroupView)| l.len() == 0 || contains_text(folded(p.1.name), l),
            g == |p: (Seq<char>, GroupView)| ("#"@ + p.1.name, p.1.id),
            out.deep_view() == s.take(i as int).filter(p).map_values(g),
        decreases groups.entries@.len() - i,
    {
        let group = &groups.entries[i].1;
        proof {
            filter_take(s, i as int, p);
            assert(s[i as int] == groups.entries@[i as int].deep_view());
        }
        let ghost before = out.deep_view();
        if lower.is_empty() || contains(to_lower(group.name.as_str()).as_str(), lower) {
            out.push((concat2("#", group.name.as_str()), group.id.clone()));
            assert(out.deep_view() =~= before.push(("#"@ + group.name@, group.id@)));
        }
        assert(out.deep_view() =~= s.take(i + 1).filter(p).map_values(g));
        i += 1;
    }
    assert(s.take(s.len() as int) =~= s);
    out
}

fn has_candidate(v: &Vec<(String, String)>, value: &str) -> (r: bool)
    ensures
        r == is_candidate(v.deep_view(), value@),
{
    let mut i: usize = 0;
    while i < v.len()
        invariant
            i <= v@.len(),
            forall|j: int| 0 <= j < i ==> (#[trigger] v@[j]).1@ != value@,
        decreases v@.len() - i,
    {
        if same(v[i].1.as_str(), value) {
            assert(v.deep_view()[i as int].1 == value@);
            return true;
        }
        i += 1;
    }
    assert forall|j: int| 0 <= j < v.deep_view().len() implies (#[trigger] v.deep_view()[j]).1
        != value@ by {
        assert(v@[j].1@ == v.deep_view()[j].1);
    }
    false
}

fn add_join_conversations(
    found: Vec<(String, String)>,
    order: &Vec<String>,
    convs: &StrMap<Conversation>,
    lower: &str,
) -> (r: Vec<(String, String)>)
    ensures
        r.deep_view() == join_conversations(
            found.deep_view(),
            order.deep_view(),
            convs.deep_view(),
            lower@,
        ),
{
    let ghost start = found.deep_view();
    let ghost s = order.deep_view();
    let ghost cs = convs.deep_view();
    let mut out = found;
    let mut i: usize = 0;
    assert(s.take(0) =~= Seq::<Seq<char>>::empty());
    while i < order.len()
        invariant
            i <= order@.len(),
            s == order.deep_view(),
            cs == convs.deep_view(),
            out.deep_view() == join_conversations(start, s.take(i as int), cs, lower@),
        decreases order@.len() - i,
    {
        let id = &order[i];
        proof {
            assert(s.take(i + 1).drop_last() =~= s.take(i as int));
            assert(s.take(i + 1).last() == id@);
        }
        match convs.get(id.as_str()) {
            Some(c) => {
                if !has_candidate(&out, id.as_str()) && fit(
                    lower,
                    c.name.as_str(),
                    to_lower(id.as_str()).as_str(),
                ) {
                    let shown = if c.is_group {
                        concat2("#", c.name.as_str())
                    } else {
                        show_contact(c.name.as_str(), id.as_str())
                    };
                    let ghost before = out.deep_view();
                    out.push((shown, id.clone()));
                    assert(out.deep_view() =~= before.push((shown@, id@)));
                }
            },
            None => {},
        }
        i += 1;
    }
    assert(s.take(s.len() as int) =~= s);
    out
}

fn join_rest(text: &str) -> (r: Option<String>)
    ensures
        r.deep_view() == join_argument(text@),
{
    let chars = to_chars(text);
    proof {
        reveal_strlit("/join ");
        reveal_strlit("/j ");
    }
    if starts_with(text, "/join ") {
        assert(chars@.subrange(6, chars@.len() as int) =~= text@.skip(6));
        Some(from_range(&chars, 6, chars.len()))
    } else if starts_with(text, "/j ") {
        assert(chars@.subrange(3, chars@.len() as int) =~= text@.skip(3));
        Some(from_range(&chars, 3, chars.len()))
    } else {
        None
    }
}

// ---------------------------------------------------------------------------
// Mentions
// ---------------------------------------------------------------------------

/// The last place of a character in a text, or -1.
pub open spec fn last_place(s: Seq<char>, c: char) -> int
    decreases s.len(),
{
    if s.len() == 0 {
        -1
    } else if s.last() == c {
        s.len() - 1
    } else {
        last_place(s.drop_last(), c)
    }
}

/// Where a mention begins that the cursor stands in: the last `@`, where it is
/// at the start or behind a space, and no space follows it.
pub open spec fn mention_trigger(before: Seq<char>) -> Option<int> {
    let k = last_place(before, '@');
    if k >= 0 && (k == 0 || is_white(before[k - 1])) && !before.skip(k + 1).contains(' ') {
        Some(k)
    } else {
        None
    }
}

/// Whom a mention can name in a group: its members.
pub open spec fn member_candidates(
    a: AppView,
    members: Seq<Seq<char>>,
    lower: Seq<char>,
) -> Seq<CandidateView> {
    members.filter(|m: Seq<char>| fits(lower, a.name_of(m), m)).map_values(
        |m: Seq<char>| (m, a.name_of(m), look(a.store.number_to_uuid, m)),
    )
}

/// Whom a mention can name in the active conversation: the members of a group,
/// or the contact.
pub open spec fn mention_candidates(a: AppView, lower: Seq<char>) -> Seq<CandidateView> {
    match a.active() {
        Some(c) => {
            let id = a.active_conversation->0;
            let members = if c.is_group {
                match look(a.store.groups, id) {
                    Some(g) => g.members,
                    None => Seq::empty(),
                }
            } else {
                seq![id]
            };
            sorted_by(member_candidates(a, members, lower), lower_candidate())
        },
        None => Seq::empty(),
    }
}

/// Where the last place of a character is.
pub proof fn last_place_finds(s: Seq<char>, c: char)
    ensures
        -1 <= last_place(s, c) < s.len(),
        last_place(s, c) >= 0 ==> s[last_place(s, c)] == c,
    decreases s.len(),
{
    if s.len() > 0 && s.last() != c {
        last_place_finds(s.drop_last(), c);
    }
}

fn find_trigger(before: &str) -> (r: Option<usize>)
    ensures
        match r {
            Some(k) => mention_trigger(before@) == Some(k as int) && k < before@.len(),
            None => mention_trigger(before@) is None,
        },
{
    let chars = to_chars(before);
    let ghost s = before@;
    let mut k: usize = chars.len();
    assert(s.take(k as int) =~= s);
    while k > 0 && chars[k - 1] != '@'
        invariant
            chars@ == s,
            k <= s.len(),
            last_place(s, '@') == last_place(s.take(k as int), '@'),
        decreases k,
    {
        assert(s.take(k as int).drop_last() =~= s.take(k - 1));
        k -= 1;
    }
    if k == 0 {
        return None;
    }
    if k > 1 && !chars[k - 2].is_whitespace() {
        return None;
    }
    let rest = from_range(&chars, k, chars.len());
    assert(rest@ =~= s.skip(k as int));
    if has_char(&to_chars(rest.as_str()), ' ') {
        None
    } else {
        Some(k - 1)
    }
}

// ---------------------------------------------------------------------------
// The state
// ---------------------------------------------------------------------------

/// A place in a list, or the first where it is past its end.
pub open spec fn kept_index(index: usize, len: nat) -> usize {
    if index >= len {
        0
    } else {
        index
    }
}

/// The state with other candidates, which are shown.
pub open spec fn offering(a: AppView, s: AutocompleteStateView) -> AppView {
    AppView {
        autocomplete: AutocompleteStateView { index: kept_index(s.index, s.count()), ..s },
        ..a.opened(Overlay::Autocomplete)
    }
}

/// The state with nothing to complete.
pub open spec fn completion_closed(a: AppView) -> AppView {
    AppView { autocomplete: a.autocomplete.cleared(), ..a.closed(Overlay::Autocomplete) }
}

/// The state with what the input can be completed to: a command, what to join,
/// or a mention.
#[verifier::opaque]
pub open spec fn completed(a: AppView) -> AppView {
    let cmds = command_candidates(a.input.text());
    let joins = join_candidates(a);
    let trigger = mention_trigger(a.input.before);
    let mentions = match trigger {
        Some(k) => mention_candidates(a, folded(a.input.before.skip(k + 1))),
        None => Seq::empty(),
    };
    if cmds.len() > 0 {
        offering(
            a,
            AutocompleteStateView {
                mode: AutocompleteMode::Command,
                command_candidates: cmds,
                ..a.autocomplete
            },
        )
    } else if joins.len() > 0 {
        offering(
            a,
            AutocompleteStateView {
                mode: AutocompleteMode::Join,
                join_candidates: joins,
                ..a.autocomplete
            },
        )
    } else if mentions.len() > 0 {
        offering(
            a,
            AutocompleteStateView {
                mode: AutocompleteMode::Mention,
                mention_candidates: mentions,
                mention_trigger_pos: byte_len(a.input.before.take(trigger->0)) as usize,
                ..a.autocomplete
            },
        )
    } else {
        completion_closed(a)
    }
}

/// A text with a command and a space behind it where it takes arguments.
pub open spec fn command_text(row: CommandRow) -> Seq<char> {
    if row.args.len() == 0 {
        row.name
    } else {
        row.name + " "@
    }
}

/// The character of a text that starts at byte `pos`; the number of characters where
/// none does.
pub open spec fn cut_at(text: Seq<char>, pos: int) -> int {
    if on_boundary(text, pos) {
        index_at(text, pos)
    } else {
        text.len() as int
    }
}

/// The state with the selected candidate put into the input.
#[verifier::opaque]
pub open spec fn accepted(a: AppView) -> AppView {
    let s = a.autocomplete;
    let i = s.index as int;
    match s.mode {
        AutocompleteMode::Command => if i < s.command_candidates.len() && s.command_candidates[i]
            < command_rows().len() {
            with_input(
                AppView {
                    autocomplete: AutocompleteStateView {
                        command_candidates: Seq::empty(),
                        index: 0,
                        ..s
                    },
                    ..a.closed(Overlay::Autocomplete)
                },
                a.input.showing(command_text(command_rows()[s.command_candidates[i] as int])),
            )
        } else {
            a
        },
        AutocompleteMode::Mention => if i < s.mention_candidates.len() {
            let (number, name, uuid) = s.mention_candidates[i];
            let text = a.input.text();
            with_input(
                AppView {
                    autocomplete: AutocompleteStateView {
                        mention_candidates: Seq::empty(),
                        index: 0,
                        pending_mentions: s.pending_mentions.push((name, uuid)),
                        ..s
                    },
                    ..a.closed(Overlay::Autocomplete)
                },
                InputStateView {
                    before: text.take(cut_at(text, s.mention_trigger_pos as int)) + "@"@ + name
                        + " "@,
                    ..a.input
                },
            )
        } else {
            a
        },
        AutocompleteMode::Join => if i < s.join_candidates.len() {
            with_input(
                AppView {
                    autocomplete: AutocompleteStateView {
                        join_candidates: Seq::empty(),
                        index: 0,
                        ..s
                    },
                    ..a.closed(Overlay::Autocomplete)
                },
                a.input.showing("/join "@ + s.join_candidates[i].1),
            )
        } else {
            a
        },
    }
}

/// The state with another candidate selected.
pub open spec fn candidate_selected(a: AppView, index: usize) -> AppView {
    AppView { autocomplete: AutocompleteStateView { index, ..a.autocomplete }, ..a }
}

/// The candidate above the selected one, round the list.
pub open spec fn index_above(index: usize, len: nat) -> usize {
    if len == 0 {
        index
    } else if index == 0 {
        (len - 1) as usize
    } else {
        (index - 1) as usize
    }
}

/// The candidate below the selected one, round the list.
pub open spec fn index_below(index: usize, len: nat) -> usize {
    if len == 0 {
        index
    } else {
        ((index + 1) % len as int) as usize
    }
}

/// Going down the list of candidates and up again ends where it began.
pub proof fn candidates_wrap(index: usize, len: nat)
    requires
        index < len,
        len <= usize::MAX,
    ensures
        index_above(index_below(index, len), len) == index,
        index_below(index_above(index, len), len) == index,
{
    vstd::arithmetic::div_mod::lemma_mod_self_0(len as int);
    if index + 1 < len {
        vstd::arithmetic::div_mod::lemma_small_mod((index + 1) as nat, len);
    }
    if index > 0 {
        vstd::arithmetic::div_mod::lemma_small_mod(index as nat, len);
    }
}

impl App {
    fn offer_commands(&mut self, cmds: Vec<usize>)
        ensures
            final(self).state() == offering(
                old(self).state(),
                AutocompleteStateView {
                    mode: AutocompleteMode::Command,
                    command_candidates: cmds.deep_view(),
                    ..old(self).state().autocomplete
                },
            ),
    {
        reveal(App::state);
        self.open_overlay(Overlay::Autocomplete);
        if self.autocomplete.index >= cmds.len() {
            self.autocomplete.index = 0;
        }
        self.autocomplete.mode = AutocompleteMode::Command;
        self.autocomplete.command_candidates = cmds;
    }

    fn offer_joins(&mut self, joins: Vec<(String, String)>)
        ensures
            final(self).state() == offering(
                old(self).state(),
                AutocompleteStateView {
                    mode: AutocompleteMode::Join,
                    join_candidates: joins.deep_view(),
                    ..old(self).state().autocomplete
                },
            ),
    {
        reveal(App::state);
        self.open_overlay(Overlay::Autocomplete);
        if self.autocomplete.index >= joins.len() {
            self.autocomplete.index = 0;
        }
        self.autocomplete.mode = AutocompleteMode::Join;
        self.autocomplete.join_candidates = joins;
    }

    fn offer_mentions(&mut self, mentions: Vec<(String, String, Option<String>)>, trigger: usize)
        ensures
            final(self).state() == offering(
                old(self).state(),
                AutocompleteStateView {
                    mode: AutocompleteMode::Mention,
                    mention_candidates: mentions.deep_view(),
                    mention_trigger_pos: trigger,
                    ..old(self).state().autocomplete
                },
            ),
    {
        reveal(App::state);
        self.open_overlay(Overlay::Autocomplete);
        if self.autocomplete.index >= mentions.len() {
            self.autocomplete.index = 0;
        }
        self.autocomplete.mode = AutocompleteMode::Mention;
        self.autocomplete.mention_candidates = mentions;
        self.autocomplete.mention_trigger_pos = trigger;
    }

    /// Takes away what the input could be completed to.
    pub fn close_completion(&mut self)
        ensures
            final(self).state() == completion_closed(old(self).state()),
    {
        reveal(App::state);
        self.close_overlay(Overlay::Autocomplete);
        self.autocomplete.clear();
    }

    fn find_joins(&self) -> (r: Vec<(String, String)>)
        ensures
            r.deep_view() == join_candidates(self.state()),
    {
        reveal(App::state);
        let text = self.input.buffer();
        match join_rest(text.as_str()) {
            Some(arg) => {
                let lower = to_lower(arg.as_str());
                let mut found = find_join_contacts(&self.store.contact_names, lower.as_str());
                let mut more = find_join_groups(&self.store.groups, lower.as_str());
                let ghost x = found.deep_view();
                let ghost y = more.deep_view();
                found.append(&mut more);
                assert(found.deep_view() =~= x + y);
                let all = add_join_conversations(
                    found,
                    &self.store.conversation_order,
                    &self.store.conversations,
                    lower.as_str(),
                );
                sort_by_lower_first(all)
            },
            None => {
                let none: Vec<(String, String)> = Vec::new();
                assert(none.deep_view() =~= Seq::<(Seq<char>, Seq<char>)>::empty());
                none
            },
        }
    }

    fn pick_candidates(&self, members: &Vec<String>, lower: &str) -> (r: Vec<
        (String, String, Option<String>),
    >)
        ensures
            r.deep_view() == member_candidates(self.state(), members.deep_view(), lower@),
    {
        let ghost a = self.state();
        let ghost s = members.deep_view();
        let ghost l = lower@;
        let ghost p = |m: Seq<char>| fits(l, a.name_of(m), m);
        let ghost g = |m: Seq<char>| (m, a.name_of(m), look(a.store.number_to_uuid, m));
        let mut out: Vec<(String, String, Option<String>)> = Vec::new();
        let mut i: usize = 0;
        proof {
            filter_none(s, p);
        }
        assert(out.deep_view() =~= s.take(0).filter(p).map_values(g));
        assert(a.store.number_to_uuid == self.store.number_to_uuid.deep_view()) by {
            reveal(App::state);
        }
        while i < members.len()
            invariant
                i <= members@.len(),
                s == members.deep_view(),
                a == self.state(),
                l == lower@,
                a.store.number_to_uuid == self.store.number_to_uuid.deep_view(),
                p == |m: Seq<char>| fits(l, a.name_of(m), m),
                g == |m: Seq<char>| (m, a.name_of(m), look(a.store.number_to_uuid, m)),
                out.deep_view() == s.take(i as int).filter(p).map_values(g),
            decreases members@.len() - i,
        {
            let m = &members[i];
            proof {
                filter_take(s, i as int, p);
                assert(s[i as int] == m@);
            }
            let name = self.display_name(m.as_str());
            let ghost before = out.deep_view();
            if fit(lower, name.as_str(), m.as_str()) {
                let uuid = match self.store.number_to_uuid.get(m.as_str()) {
                    Some(u) => Some(u.clone()),
                    None => None,
                };
                out.push((m.clone(), name, uuid));
                assert(out.deep_view() =~= before.push((m@, name@, uuid.deep_view())));
            }
            assert(out.deep_view() =~= s.take(i + 1).filter(p).map_values(g));
            i += 1;
        }
        assert(s.take(s.len() as int) =~= s);
        out
    }

    fn find_mentions(&self, lower: &str) -> (r: Vec<(String, String, Option<String>)>)
        ensures
            r.deep_view() == mention_candidates(self.state(), lower@),
    {
        let none: Vec<(String, String, Option<String>)> = Vec::new();
        assert(none.deep_view() =~= Seq::<CandidateView>::empty());
        let ghost a = self.state();
        assert(a.active_conversation == self.active_conversation.deep_view() && a.store.groups
            == self.store.groups.deep_view() && a.store.conversations
            == self.store.conversations.deep_view()) by {
            reveal(App::state);
        }
        match &self.active_conversation {
            Some(id) => match self.store.conversations.get(id.as_str()) {
                Some(c) => {
                    let mut members: Vec<String> = Vec::new();
                    assert(members.deep_view() =~= Seq::<Seq<char>>::empty());
                    if c.is_group {
                        if let Some(g) = self.store.groups.get(id.as_str()) {
                            members = g.members.duplicate();
                        }
                    } else {
                        members.push(id.clone());
                        assert(members.deep_view() =~= seq![id@]);
                    }
                    sort_candidates(self.pick_candidates(&members, lower))
                },
                None => none,
            },
            None => none,
        }
    }

    /// Finds what the input can be completed to.
    pub fn update_autocomplete(&mut self)
        ensures
            final(self).state() == completed(old(self).state()),
    {
        reveal(completed);
        let text = self.input.buffer();
        let before = self.input.before.clone();
        assert(self.state().input == self.input.deep_view()) by {
            reveal(App::state);
        }
        let cmds = find_commands(text.as_str());
        if cmds.len() > 0 {
            self.offer_commands(cmds);
            return;
        }
        let joins = self.find_joins();
        if joins.len() > 0 {
            self.offer_joins(joins);
            return;
        }
        if let Some(k) = find_trigger(before.as_str()) {
            let chars = to_chars(before.as_str());
            let rest = from_range(&chars, k + 1, chars.len());
            assert(rest@ =~= before@.skip(k + 1));
            let lower = to_lower(rest.as_str());
            let mentions = self.find_mentions(lower.as_str());
            if mentions.len() > 0 {
                let at = byte_of(before.as_str(), &chars, k);
                self.offer_mentions(mentions, at);
                return;
            }
        }
        self.close_completion();
    }

    fn accept_command(&mut self)
        requires
            old(self).state().autocomplete.mode == AutocompleteMode::Command,
        ensures
            final(self).state() == accepted(old(self).state()),
    {
        reveal(App::state);
        reveal(accepted);
        let i = self.autocomplete.index;
        if i < self.autocomplete.command_candidates.len() {
            let k = self.autocomplete.command_candidates[i];
            let all = commands();
            assert(all@.len() == rows_of(all@).len());
            assert(k == self.autocomplete.command_candidates.deep_view()[i as int]);
            if k < all.len() {
                let c = &all[k];
                assert(rows_of(all@)[k as int] == all@[k as int]@);
                let text = if c.args.is_empty() {
                    c.name.to_string()
                } else {
                    concat2(c.name, " ")
                };
                self.close_overlay(Overlay::Autocomplete);
                self.autocomplete.command_candidates = Vec::new();
                self.autocomplete.index = 0;
                assert(self.autocomplete.command_candidates.deep_view() =~= Seq::<usize>::empty());
                self.input.show(text);
            }
        }
    }

    fn accept_join(&mut self)
        requires
            old(self).state().autocomplete.mode == AutocompleteMode::Join,
        ensures
            final(self).state() == accepted(old(self).state()),
    {
        reveal(App::state);
        reveal(accepted);
        let i = self.autocomplete.index;
        if i < self.autocomplete.join_candidates.len() {
            let text = concat2("/join ", self.autocomplete.join_candidates[i].1.as_str());
            self.close_overlay(Overlay::Autocomplete);
            self.autocomplete.join_candidates = Vec::new();
            self.autocomplete.index = 0;
            assert(self.autocomplete.join_candidates.deep_view() =~= Seq::<
                (Seq<char>, Seq<char>),
            >::empty());
            self.input.show(text);
        }
    }

    fn accept_mention(&mut self)
        requires
            old(self).state().autocomplete.mode == AutocompleteMode::Mention,
        ensures
            final(self).state() == accepted(old(self).state()),
    {
        reveal(App::state);
        reveal(accepted);
        let i = self.autocomplete.index;
        if i < self.autocomplete.mention_candidates.len() {
            let c = self.autocomplete.mention_candidates[i].duplicate();
            assert(c.deep_view() == self.autocomplete.mention_candidates.deep_view()[i as int]);
            let chars = to_chars(self.input.buffer().as_str());
            let k = match index_of_byte(&chars, self.autocomplete.mention_trigger_pos) {
                Some(k) => k,
                None => chars.len(),
            };
            let head = from_range(&chars, 0, k);
            assert(head@ =~= self.input.deep_view().text().take(k as int));
            let a = concat3(head.as_str(), "@", c.1.as_str());
            let text = concat2(a.as_str(), " ");
            self.close_overlay(Overlay::Autocomplete);
            self.autocomplete.mention_candidates = Vec::new();
            self.autocomplete.index = 0;
            assert(self.autocomplete.mention_candidates.deep_view() =~= Seq::<
                CandidateView,
            >::empty());
            let ghost before = self.autocomplete.pending_mentions.deep_view();
            self.autocomplete.pending_mentions.push((c.1, c.2));
            assert(self.autocomplete.pending_mentions.deep_view() =~= before.push(
                (c.1@, c.2.deep_view()),
            ));
            self.input.before = text;
        }
    }

    /// Puts the selected candidate into the input.
    pub fn apply_autocomplete(&mut self)
        ensures
            final(self).state() == accepted(old(self).state()),
    {
        assert(self.state().autocomplete.mode == self.autocomplete.mode) by {
            reveal(App::state);
        }
        match self.autocomplete.mode {
            AutocompleteMode::Command => self.accept_command(),
            AutocompleteMode::Mention => self.accept_mention(),
            AutocompleteMode::Join => self.accept_join(),
        }
    }

    /// Selects a candidate.
    pub fn select_candidate(&mut self, index: usize)
        ensures
            final(self).state() == candidate_selected(old(self).state(), index),
    {
        reveal(App::state);
        self.autocomplete.index = index;
    }

    /// Whether any overlay is open.
    pub fn has_overlay(&self) -> (r: bool)
        ensures
            r == any_overlay(self.state()),
    {
        reveal(App::state);
        self.group_menu.state.is_some() || !self.overlays.has_none()
    }
}

/// Some overlay is open.
pub open spec fn any_overlay(a: AppView) -> bool {
    a.group_menu.state is Some || a.overlays != Set::<Overlay>::empty()
}

// ---------------------------------------------------------------------------
// Typing and pasting
// ---------------------------------------------------------------------------

/// The service is to be told that one is typing: there is text that is no
/// command, in a conversation that is not blocked.
pub open spec fn typing_due(a: AppView) -> bool {
    let text = a.input.text();
    !a.is(Flag::TypingSent) && text.len() > 0 && text[0] != '/' && match a.active_conversation {
        Some(id) => !a.blocked.contains(id),
        None => false,
    }
}

/// The state after a key was pressed in the input.
pub open spec fn key_pressed(a: AppView, now_ms: u64) -> AppView {
    AppView { typing: TypingStateView { last_keypress: Some(now_ms), ..a.typing }, ..a }
}

/// The state after typing, and what tells the service so.
pub open spec fn typed(a: AppView, now_ms: u64) -> (AppView, Option<SendRequestView>) {
    let b = key_pressed(a, now_ms);
    if typing_due(b) {
        (b.raised(Flag::TypingSent), typing_request(b, false))
    } else {
        (b, None)
    }
}

/// The state after a text was pasted into the input, and what tells the service
/// so. Nothing is pasted in normal mode or while an overlay is open.
pub open spec fn pasted(a: AppView, text: Seq<char>, now_ms: u64) -> (
    AppView,
    Option<SendRequestView>,
) {
    if a.mode != InputMode::Insert || any_overlay(a) {
        (a, None)
    } else {
        typed(
            completed(
                with_input(
                    a,
                    InputStateView { before: a.input.before + normalized(text), ..a.input },
                ),
            ),
            now_ms,
        )
    }
}

/// The state after the text of the clipboard was pasted.
pub open spec fn clipboard_text_pasted(a: AppView, text: Seq<char>, now_ms: u64) -> (
    AppView,
    Option<SendRequestView>,
) {
    if trimmed(text).len() == 0 {
        (a.say("Clipboard is empty"@), None)
    } else {
        pasted(a, trimmed(text), now_ms)
    }
}

impl App {
    /// Notes that a key was pressed in the input.
    pub fn press_key(&mut self, now_ms: u64)
        ensures
            final(self).state() == key_pressed(old(self).state(), now_ms),
    {
        reveal(App::state);
        self.typing.last_keypress = Some(now_ms);
    }

    fn is_typing_due(&self) -> (r: bool)
        ensures
            r == typing_due(self.state()),
    {
        reveal(App::state);
        let sent = self.has_flag(Flag::TypingSent);
        let text = self.input.buffer();
        let open = match &self.active_conversation {
            Some(id) => !self.blocked.contains(id.as_str()),
            None => false,
        };
        !sent && open && !text.as_str().is_empty() && !starts_with_char(text.as_str(), '/')
    }

    /// Notes that one is typing, and tells the service so.
    pub fn note_typing(&mut self, now_ms: u64) -> (r: Option<SendRequest>)
        ensures
            (final(self).state(), r.deep_view()) == typed(old(self).state(), now_ms),
    {
        self.press_key(now_ms);
        if self.is_typing_due() {
            let r = self.build_typing_request(false);
            self.raise(Flag::TypingSent);
            r
        } else {
            None
        }
    }

    /// Puts a pasted text into the input.
    pub fn handle_paste(&mut self, text: String, now_ms: u64) -> (r: Option<SendRequest>)
        ensures
            (final(self).state(), r.deep_view()) == pasted(old(self).state(), text@, now_ms),
    {
        assert(self.state().mode == self.mode) by {
            reveal(App::state);
        }
        if self.mode != InputMode::Insert || self.has_overlay() {
            return None;
        }
        let text = normalize_lines(text.as_str());
        self.insert_text(text.as_str());
        self.update_autocomplete();
        self.note_typing(now_ms)
    }

    /// Puts the text of the clipboard into the input.
    pub fn handle_paste_text(&mut self, text: &str, now_ms: u64) -> (r: Option<SendRequest>)
        ensures
            (final(self).state(), r.deep_view()) == clipboard_text_pasted(
                old(self).state(),
                text@,
                now_ms,
            ),
    {
        let text = trim(text);
        if text.as_str().is_empty() {
            self.set_status("Clipboard is empty");
            return None;
        }
        self.handle_paste(text, now_ms)
    }
}

} // verus!
