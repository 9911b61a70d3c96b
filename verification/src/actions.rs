//! What can be done with a message.
use crate::app::{
    App, AppView, Effect, EffectView, InputMode, Overlay, SendRequest, SendRequestView,
    ForwardOverlayStateView,
};
use crate::common::{filter_keeps_all, move_down, step_down, step_up};
use crate::conversation_store::{DisplayMessage, DisplayMessageView};
use crate::db::{shown, DbWrite, DbWriteView};
use crate::events::{
    delete_contents, deleted_message, drop_reactions, message_in, reaction_place_finds,
    reaction_set, set_reaction,
};
use crate::keys::KeyCode;
use crate::lists::forward_opened;
use crate::signal::{Duplicate, Reaction, ReactionView};
use crate::strmap::{at, holds};
use crate::text::{concat2, from_range, same, to_chars};
use vstd::prelude::*;

verus! {

// ---------------------------------------------------------------------------
// The selected message
// ---------------------------------------------------------------------------

/// The place of the selected message: the focused one, or the last.
pub open spec fn selected_place(a: AppView) -> Option<int> {
    match a.active() {
        Some(c) => {
            let i = match a.scroll.focused_index {
                Some(i) => i as int,
                None => c.messages.len() - 1,
            };
            if 0 <= i < c.messages.len() {
                Some(i)
            } else {
                None
            }
        },
        None => None,
    }
}

/// The selected message.
pub open spec fn selected(a: AppView) -> Option<DisplayMessageView> {
    match selected_place(a) {
        Some(i) => Some(a.active()->0.messages[i]),
        None => None,
    }
}

/// A message that people wrote, and that is still there.
pub open spec fn is_live(m: DisplayMessageView) -> bool {
    !m.is_system && !m.is_deleted
}

/// The number of the author of a message.
pub open spec fn author_number(a: AppView, m: DisplayMessageView) -> Seq<char> {
    if m.sender_id.len() == 0 || m.sender_id == "you"@ {
        a.account
    } else {
        m.sender_id
    }
}

impl App {
    /// The selected message: the focused one, or the last.
    pub fn selected_message(&self) -> (r: Option<&DisplayMessage>)
        ensures
            match r {
                Some(m) => selected(self.state()) == Some(m.deep_view()),
                None => selected(self.state()) is None,
            },
    {
        reveal(App::state);
        match &self.active_conversation {
            Some(id) => match self.store.conversations.get(id.as_str()) {
                Some(c) => {
                    let i = match self.scroll.focused_index {
                        Some(i) => i,
                        None => c.messages.len().saturating_sub(1),
                    };
                    if i < c.messages.len() {
                        assert(c.messages.deep_view()[i as int] == c.messages@[i as int].deep_view());
                        Some(&c.messages[i])
                    } else {
                        None
                    }
                },
                None => None,
            },
            None => None,
        }
    }

    /// The active conversation, the place of the selected message in it, and a
    /// copy of the message.
    pub fn selection(&self) -> (r: Option<(String, usize, DisplayMessage)>)
        ensures
            match r {
                Some((id, i, m)) => {
                    let a = self.state();
                    &&& a.active_conversation == Some(id@)
                    &&& holds(a.store.conversations, id@)
                    &&& selected_place(a) == Some(i as int)
                    &&& i < at(a.store.conversations, id@).messages.len()
                    &&& m.deep_view() == message_in(a, id@, i as int)
                    &&& selected(a) == Some(m.deep_view())
                },
                None => selected(self.state()) is None,
            },
    {
        reveal(App::state);
        match &self.active_conversation {
            Some(id) => match self.store.conversations.get(id.as_str()) {
                Some(c) => {
                    let i = match self.scroll.focused_index {
                        Some(i) => i,
                        None => c.messages.len().saturating_sub(1),
                    };
                    if i < c.messages.len() {
                        assert(c.messages.deep_view()[i as int] == c.messages@[i as int].deep_view());
                        Some((id.clone(), i, c.messages[i].duplicate()))
                    } else {
                        None
                    }
                },
                None => None,
            },
            None => None,
        }
    }

    /// The number of the author of a message.
    pub fn author_of(&self, m: &DisplayMessage) -> (r: String)
        ensures
            r@ == author_number(self.state(), m.deep_view()),
    {
        reveal(App::state);
        if m.sender_id.as_str().is_empty() || same(m.sender_id.as_str(), "you") {
            self.account.clone()
        } else {
            m.sender_id.clone()
        }
    }
}

// ---------------------------------------------------------------------------
// Reactions
// ---------------------------------------------------------------------------

/// The reactions that are a key away.
pub const QUICK_REACTIONS: [&'static str; 8] = [
    "\u{1f44d}",
    "\u{1f44e}",
    "\u{2764}\u{fe0f}",
    "\u{1f602}",
    "\u{1f62e}",
    "\u{1f622}",
    "\u{1f64f}",
    "\u{1f525}",
];

/// The first number from `i` on that goes by a name.
pub open spec fn number_named(
    names: Seq<(Seq<char>, Seq<char>)>,
    name: Seq<char>,
    i: int,
) -> Option<Seq<char>>
    decreases names.len() - i,
{
    if i < 0 || i >= names.len() {
        None
    } else if names[i].1 == name {
        Some(names[i].0)
    } else {
        number_named(names, name, i + 1)
    }
}

/// The number of the author of a message, as a reaction to it names them.
pub open spec fn reaction_author(a: AppView, m: DisplayMessageView) -> Seq<char> {
    if m.sender == "you"@ {
        a.account
    } else {
        match number_named(a.store.contact_names, m.sender, 0) {
            Some(n) => n,
            None => m.sender,
        }
    }
}

/// One's own reaction with an emoji.
pub open spec fn is_own(r: ReactionView, emoji: Seq<char>) -> bool {
    r.sender == "you"@ && r.emoji == emoji
}

/// One has reacted with an emoji.
pub open spec fn has_own(s: Seq<ReactionView>, emoji: Seq<char>) -> bool {
    exists|i: int| 0 <= i < s.len() && is_own(#[trigger] s[i], emoji)
}

/// Reactions after one reacts with an emoji: the reaction is taken back where
/// it was there.
pub open spec fn own_toggled(s: Seq<ReactionView>, emoji: Seq<char>) -> Seq<ReactionView> {
    if has_own(s, emoji) {
        s.filter(|r: ReactionView| !(r.sender == "you"@ && r.emoji == emoji))
    } else {
        reaction_set(s, "you"@, emoji)
    }
}

/// The state after one reacts to the selected message with an emoji, and what is
/// sent.
#[verifier::opaque]
pub open spec fn reaction_sent(a: AppView, emoji: Seq<char>) -> (AppView, Option<SendRequestView>) {
    match selected_place(a) {
        Some(i) => {
            let id = a.active_conversation->0;
            let m = message_in(a, id, i);
            let author = reaction_author(a, m);
            let remove = has_own(m.reactions, emoji);
            let b = a.with_msg(
                id,
                i,
                DisplayMessageView { reactions: own_toggled(m.reactions, emoji), ..m },
            );
            let c = if remove {
                b.write(
                    shown(
                        DbWriteView::RemoveReaction {
                            conv_id: id,
                            timestamp_ms: m.timestamp_ms,
                            author,
                            sender: "you"@,
                        },
                        "remove_reaction"@,
                    ),
                )
            } else {
                b.write(
                    shown(
                        DbWriteView::UpsertReaction {
                            conv_id: id,
                            timestamp_ms: m.timestamp_ms,
                            author,
                            sender: "you"@,
                            emoji,
                        },
                        "upsert_reaction"@,
                    ),
                )
            };
            (
                c,
                Some(
                    SendRequestView::Reaction {
                        conv_id: id,
                        emoji,
                        is_group: at(a.store.conversations, id).is_group,
                        target_author: author,
                        target_timestamp: m.timestamp_ms,
                        remove,
                    },
                ),
            )
        },
        None => (a, None),
    }
}

/// The state after one reacts with the selected reaction, and what is sent.
pub open spec fn quick_reaction_sent(a: AppView) -> (AppView, Option<SendRequestView>) {
    if a.reaction_index < QUICK_REACTIONS@.len() {
        reaction_sent(a, QUICK_REACTIONS@[a.reaction_index as int]@)
    } else {
        (a, None)
    }
}

/// The state with another reaction selected.
pub open spec fn reaction_chosen(a: AppView, index: usize) -> AppView {
    AppView { reaction_index: index, ..a }
}

/// The state after a key in the reaction picker, and what is sent.
#[verifier::opaque]
pub open spec fn reaction_key(a: AppView, code: KeyCode) -> (AppView, Option<SendRequestView>) {
    match code {
        KeyCode::Left | KeyCode::Char('h') => (reaction_chosen(a, step_up(a.reaction_index)), None),
        KeyCode::Right | KeyCode::Char('l') => (
            reaction_chosen(a, step_down(a.reaction_index, QUICK_REACTIONS@.len())),
            None,
        ),
        KeyCode::Enter | KeyCode::Char(' ') => quick_reaction_sent(a.closed(Overlay::ReactionPicker)),
        KeyCode::Esc => (a.closed(Overlay::ReactionPicker), None),
        KeyCode::Char(c) => if '1' <= c && c <= '8' {
            quick_reaction_sent(
                reaction_chosen(a, (c as int - '1' as int) as usize).closed(Overlay::ReactionPicker),
            )
        } else {
            (a, None)
        },
        _ => (a, None),
    }
}

/// Reacting twice with an emoji leaves no reaction of one's own with it, and
/// those of others as they were.
pub proof fn reacting_twice_takes_back(s: Seq<ReactionView>, emoji: Seq<char>)
    requires
        !has_own(s, emoji),
        forall|i: int| 0 <= i < s.len() ==> (#[trigger] s[i]).sender != "you"@,
    ensures
        has_own(own_toggled(s, emoji), emoji),
        own_toggled(own_toggled(s, emoji), emoji) == s,
{
    reaction_place_finds(s, "you"@, 0);
    let r = ReactionView { emoji, sender: "you"@ };
    let t = own_toggled(s, emoji);
    assert(t == s.push(r));
    assert(is_own(t[s.len() as int], emoji));
    let p = |r: ReactionView| !(r.sender == "you"@ && r.emoji == emoji);
    reveal(Seq::filter);
    assert(t.drop_last() =~= s);
    assert(!p(t.last()));
    filter_keeps_all(s, p);
}

fn own_reaction(v: &Vec<Reaction>, emoji: &str) -> (r: bool)
    ensures
        r == has_own(v.deep_view(), emoji@),
{
    let ghost s = v.deep_view();
    let mut i: usize = 0;
    while i < v.len()
        invariant
            i <= v@.len(),
            s == v.deep_view(),
            forall|j: int| 0 <= j < i ==> !is_own(#[trigger] s[j], emoji@),
        decreases v@.len() - i,
    {
        assert(s[i as int] == v@[i as int].deep_view());
        if same(v[i].sender.as_str(), "you") && same(v[i].emoji.as_str(), emoji) {
            assert(is_own(s[i as int], emoji@));
            return true;
        }
        i += 1;
    }
    false
}

fn toggle_own(v: &mut Vec<Reaction>, emoji: &str)
    ensures
        final(v).deep_view() == own_toggled(old(v).deep_view(), emoji@),
{
    let ghost s = v.deep_view();
    if own_reaction(v, emoji) {
        let kept = drop_reactions(v, "you", Some(emoji));
        proof {
            let e = Some(emoji);
            let w = |x: ReactionView|
                !(x.sender == "you"@ && match e {
                    Some(e) => x.emoji == e@,
                    None => true,
                });
            let q = |r: ReactionView| !(r.sender == "you"@ && r.emoji == emoji@);
            assert(w =~= q);
        }
        *v = kept;
    } else {
        set_reaction(v, "you", emoji);
    }
}

impl App {
    fn number_of_name(&self, name: &str) -> (r: Option<String>)
        ensures
            r.deep_view() == number_named(self.state().store.contact_names, name@, 0),
    {
        reveal(App::state);
        let ghost s = self.store.contact_names.deep_view();
        let mut i: usize = 0;
        while i < self.store.contact_names.entries.len()
            invariant
                i <= self.store.contact_names.entries@.len(),
                s == self.store.contact_names.deep_view(),
                s == self.state().store.contact_names,
                number_named(s, name@, 0) == number_named(s, name@, i as int),
            decreases self.store.contact_names.entries@.len() - i,
        {
            assert(s[i as int] == self.store.contact_names.entries@[i as int].deep_view());
            if same(self.store.contact_names.entries[i].1.as_str(), name) {
                return Some(self.store.contact_names.entries[i].0.clone());
            }
            i += 1;
        }
        None
    }

    fn reaction_target(&self, m: &DisplayMessage) -> (r: String)
        ensures
            r@ == reaction_author(self.state(), m.deep_view()),
    {
        assert(self.account@ == self.state().account) by {
            reveal(App::state);
        }
        if same(m.sender.as_str(), "you") {
            self.account.clone()
        } else {
            match self.number_of_name(m.sender.as_str()) {
                Some(n) => n,
                None => m.sender.clone(),
            }
        }
    }

    /// Reacts to the selected message with an emoji, or takes such a reaction
    /// back.
    pub fn react_with(&mut self, emoji: &str) -> (r: Option<SendRequest>)
        ensures
            (final(self).state(), r.deep_view()) == reaction_sent(old(self).state(), emoji@),
    {
        reveal(reaction_sent);
        match self.selection() {
            Some((id, i, mut m)) => {
                let author = self.reaction_target(&m);
                let remove = own_reaction(&m.reactions, emoji);
                let is_group = self.conv_is_group(id.as_str());
                let ts = m.timestamp_ms;
                toggle_own(&mut m.reactions, emoji);
                self.replace_message(id.as_str(), i, m);
                if remove {
                    self.record(
                        DbWrite::RemoveReaction {
                            conv_id: id.clone(),
                            timestamp_ms: ts,
                            author: author.clone(),
                            sender: "you".to_string(),
                        },
                        "remove_reaction",
                        true,
                    );
                } else {
                    self.record(
                        DbWrite::UpsertReaction {
                            conv_id: id.clone(),
                            timestamp_ms: ts,
                            author: author.clone(),
                            sender: "you".to_string(),
                            emoji: emoji.to_string(),
                        },
                        "upsert_reaction",
                        true,
                    );
                }
                Some(
                    SendRequest::Reaction {
                        conv_id: id,
                        emoji: emoji.to_string(),
                        is_group,
                        target_author: author,
                        target_timestamp: ts,
                        remove,
                    },
                )
            },
            None => None,
        }
    }

    /// Reacts to the selected message with the selected reaction.
    pub fn prepare_reaction_send(&mut self) -> (r: Option<SendRequest>)
        ensures
            (final(self).state(), r.deep_view()) == quick_reaction_sent(old(self).state()),
    {
        assert(self.reaction_index == self.state().reaction_index) by {
            reveal(App::state);
        }
        if self.reaction_index < QUICK_REACTIONS.len() {
            self.react_with(QUICK_REACTIONS[self.reaction_index])
        } else {
            None
        }
    }

    fn choose_reaction(&mut self, index: usize)
        ensures
            final(self).state() == reaction_chosen(old(self).state(), index),
    {
        reveal(App::state);
        self.reaction_index = index;
    }

    /// Handles a key in the reaction picker.
    pub fn handle_reaction_picker_key(&mut self, code: KeyCode) -> (r: Option<SendRequest>)
        ensures
            (final(self).state(), r.deep_view()) == reaction_key(old(self).state(), code),
    {
        reveal(reaction_key);
        let index = self.reaction_index;
        assert(index == self.state().reaction_index) by {
            reveal(App::state);
        }
        match code {
            KeyCode::Left | KeyCode::Char('h') => {
                self.choose_reaction(index.saturating_sub(1));
                None
            },
            KeyCode::Right | KeyCode::Char('l') => {
                self.choose_reaction(move_down(index, QUICK_REACTIONS.len()));
                None
            },
            KeyCode::Enter | KeyCode::Char(' ') => {
                self.close_overlay(Overlay::ReactionPicker);
                self.prepare_reaction_send()
            },
            KeyCode::Esc => {
                self.close_overlay(Overlay::ReactionPicker);
                None
            },
            KeyCode::Char(c) => {
                if '1' <= c && c <= '8' {
                    self.choose_reaction((c as u32 - 49) as usize);
                    self.close_overlay(Overlay::ReactionPicker);
                    self.prepare_reaction_send()
                } else {
                    None
                }
            },
            _ => None,
        }
    }
}

// ---------------------------------------------------------------------------
// Replying, editing, copying, deleting
// ---------------------------------------------------------------------------

/// How much of a message a reply shows.
pub const SNIPPET_LEN: usize = 50;

/// The beginning of a text.
pub open spec fn snippet(s: Seq<char>) -> Seq<char> {
    if s.len() > SNIPPET_LEN {
        s.take(SNIPPET_LEN as int) + "…"@
    } else {
        s
    }
}

/// The beginning of a text.
pub fn take_snippet(s: &str) -> (r: String)
    ensures
        r@ == snippet(s@),
{
    let chars = to_chars(s);
    if chars.len() > SNIPPET_LEN {
        let head = from_range(&chars, 0, SNIPPET_LEN);
        assert(head@ =~= s@.take(SNIPPET_LEN as int));
        concat2(head.as_str(), "…")
    } else {
        s.to_string()
    }
}

/// The state with a reply to the selected message begun.
#[verifier::opaque]
pub open spec fn reply_begun(a: AppView) -> AppView {
    match selected(a) {
        Some(m) => if is_live(m) {
            AppView {
                reply_target: Some((author_number(a, m), snippet(m.body), m.timestamp_ms)),
                mode: InputMode::Insert,
                ..a
            }
        } else {
            a
        },
        None => a,
    }
}

/// The state with the selected message being edited, where it is one's own.
#[verifier::opaque]
pub open spec fn edit_begun(a: AppView) -> AppView {
    match selected(a) {
        Some(m) => if m.sender == "you"@ && is_live(m) {
            AppView {
                editing_message: Some((m.timestamp_ms, a.active_conversation->0)),
                input: a.input.showing(m.body),
                mode: InputMode::Insert,
                ..a
            }
        } else {
            a
        },
        None => a,
    }
}

/// The state with the reaction picker open.
#[verifier::opaque]
pub open spec fn reacting_begun(a: AppView) -> AppView {
    match selected(a) {
        Some(m) => if !m.is_system {
            reaction_chosen(a.opened(Overlay::ReactionPicker), 0)
        } else {
            a
        },
        None => a,
    }
}

/// The state with the picker of where to forward the selected message open.
#[verifier::opaque]
pub open spec fn forwarding_begun(a: AppView) -> AppView {
    match selected(a) {
        Some(m) => if is_live(m) {
            forward_opened(
                AppView { forward: ForwardOverlayStateView { body: m.body, ..a.forward }, ..a },
            )
        } else {
            a
        },
        None => a,
    }
}

/// The state with the copying of the selected message asked for: of its text,
/// or of a line with its time and its sender.
#[verifier::opaque]
pub open spec fn copying_asked(a: AppView, full_line: bool) -> AppView {
    match selected(a) {
        Some(m) => if full_line && !m.is_system {
            a.ask(
                EffectView::CopyLine {
                    timestamp_ms: m.timestamp,
                    sender: m.sender,
                    body: m.body,
                },
            )
        } else {
            a.ask(EffectView::CopyText(m.body))
        },
        None => a.say("No message to copy"@),
    }
}

/// The state with the question open whether to delete the selected message.
#[verifier::opaque]
pub open spec fn deletion_asked(a: AppView) -> AppView {
    match selected(a) {
        Some(m) => if is_live(m) {
            a.opened(Overlay::DeleteConfirm)
        } else {
            a
        },
        None => a,
    }
}

/// The state with the selected message deleted here.
pub open spec fn selection_deleted(a: AppView) -> AppView {
    match selected_place(a) {
        Some(i) => {
            let id = a.active_conversation->0;
            let m = message_in(a, id, i);
            a.with_msg(id, i, deleted_message(m)).write(
                shown(
                    DbWriteView::MarkMessageDeleted { conv_id: id, timestamp_ms: m.timestamp_ms },
                    "mark_message_deleted"@,
                ),
            )
        },
        None => a,
    }
}

/// The state after a key at the question whether to delete a message, and what
/// is sent. Only one's own messages are deleted for others.
#[verifier::opaque]
pub open spec fn delete_key(a: AppView, code: KeyCode) -> (AppView, Option<SendRequestView>) {
    let b = a.closed(Overlay::DeleteConfirm);
    match code {
        KeyCode::Char('y') => (
            selection_deleted(b),
            match selected(b) {
                Some(m) => if m.sender == "you"@ {
                    Some(
                        SendRequestView::RemoteDelete {
                            recipient: b.active_conversation->0,
                            is_group: b.is_group(b.active_conversation->0),
                            target_timestamp: m.timestamp_ms,
                        },
                    )
                } else {
                    None
                },
                None => None,
            },
        ),
        KeyCode::Char('l') => (selection_deleted(b), None),
        KeyCode::Char('n') | KeyCode::Esc => (b, None),
        _ => (a, None),
    }
}

impl App {
    /// Begins a reply to the selected message.
    pub fn begin_reply(&mut self)
        ensures
            final(self).state() == reply_begun(old(self).state()),
    {
        reveal(reply_begun);
        if let Some((_, _, m)) = self.selection() {
            if !m.is_system && !m.is_deleted {
                let author = self.author_of(&m);
                let text = take_snippet(m.body.as_str());
                reveal(App::state);
                self.reply_target = Some((author, text, m.timestamp_ms));
                self.mode = InputMode::Insert;
            }
        }
    }

    /// Begins to edit the selected message.
    pub fn begin_edit(&mut self)
        ensures
            final(self).state() == edit_begun(old(self).state()),
    {
        reveal(edit_begun);
        if let Some((id, _, m)) = self.selection() {
            if same(m.sender.as_str(), "you") && !m.is_deleted && !m.is_system {
                reveal(App::state);
                self.editing_message = Some((m.timestamp_ms, id));
                self.input.show(m.body);
                self.mode = InputMode::Insert;
            }
        }
    }

    /// Opens the reaction picker for the selected message.
    pub fn begin_reaction(&mut self)
        ensures
            final(self).state() == reacting_begun(old(self).state()),
    {
        reveal(reacting_begun);
        if let Some((_, _, m)) = self.selection() {
            if !m.is_system {
                self.open_overlay(Overlay::ReactionPicker);
                self.choose_reaction(0);
            }
        }
    }

    fn set_forward_body(&mut self, body: String)
        ensures
            final(self).state() == (AppView {
                forward: ForwardOverlayStateView { body: body@, ..old(self).state().forward },
                ..old(self).state()
            }),
    {
        reveal(App::state);
        self.forward.body = body;
    }

    /// Opens the picker of where to forward the selected message.
    pub fn begin_forward(&mut self)
        ensures
            final(self).state() == forwarding_begun(old(self).state()),
    {
        reveal(forwarding_begun);
        if let Some((_, _, m)) = self.selection() {
            if !m.is_system && !m.is_deleted {
                self.set_forward_body(m.body);
                self.open_forward_picker();
            }
        }
    }

    /// Asks for the selected message to be copied: its text, or a line with its
    /// time and its sender.
    pub fn copy_selected_message(&mut self, full_line: bool)
        ensures
            final(self).state() == copying_asked(old(self).state(), full_line),
    {
        reveal(copying_asked);
        match self.selection() {
            Some((_, _, m)) => {
                if full_line && !m.is_system {
                    self.request(
                        Effect::CopyLine {
                            timestamp_ms: m.timestamp,
                            sender: m.sender,
                            body: m.body,
                        },
                    );
                } else {
                    self.request(Effect::CopyText(m.body));
                }
            },
            None => {
                self.set_status("No message to copy");
            },
        }
    }

    /// Opens the question whether to delete the selected message.
    pub fn ask_deletion(&mut self)
        ensures
            final(self).state() == deletion_asked(old(self).state()),
    {
        reveal(deletion_asked);
        if let Some((_, _, m)) = self.selection() {
            if !m.is_system && !m.is_deleted {
                self.open_overlay(Overlay::DeleteConfirm);
            }
        }
    }

    fn delete_selection(&mut self) -> (r: Option<(String, bool, i64)>)
        ensures
            final(self).state() == selection_deleted(old(self).state()),
            match r {
                Some((id, own, ts)) => {
                    let a = old(self).state();
                    &&& a.active_conversation == Some(id@)
                    &&& selected(a) is Some
                    &&& own == (selected(a)->0.sender == "you"@)
                    &&& ts == selected(a)->0.timestamp_ms
                },
                None => selected(old(self).state()) is None,
            },
    {
        match self.selection() {
            Some((id, i, mut m)) => {
                let own = same(m.sender.as_str(), "you");
                let ts = m.timestamp_ms;
                delete_contents(&mut m);
                self.replace_message(id.as_str(), i, m);
                self.record(
                    DbWrite::MarkMessageDeleted { conv_id: id.clone(), timestamp_ms: ts },
                    "mark_message_deleted",
                    true,
                );
                Some((id, own, ts))
            },
            None => None,
        }
    }

    /// Handles a key at the question whether to delete a message.
    pub fn handle_delete_confirm_key(&mut self, code: KeyCode) -> (r: Option<SendRequest>)
        ensures
            (final(self).state(), r.deep_view()) == delete_key(old(self).state(), code),
    {
        reveal(delete_key);
        match code {
            KeyCode::Char('y') => {
                self.close_overlay(Overlay::DeleteConfirm);
                let group = match self.active_id() {
                    Some(id) => self.conv_is_group(id.as_str()),
                    None => false,
                };
                match self.delete_selection() {
                    Some((id, own, ts)) => if own {
                        Some(
                            SendRequest::RemoteDelete {
                                recipient: id,
                                is_group: group,
                                target_timestamp: ts,
                            },
                        )
                    } else {
                        None
                    },
                    None => None,
                }
            },
            KeyCode::Char('l') => {
                self.close_overlay(Overlay::DeleteConfirm);
                let _ = self.delete_selection();
                None
            },
            KeyCode::Char('n') | KeyCode::Esc => {
                self.close_overlay(Overlay::DeleteConfirm);
                None
            },
            _ => None,
        }
    }
}

} // verus!
