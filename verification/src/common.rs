//! What the key handlers have in common.
use crate::app::{App, AppView, Effect, EffectView, Flag, Overlay, Setting};
use crate::conversation_store::{
    text_place, ConversationStoreView, ConversationView, DisplayMessageView,
};
use crate::db::{enqueue, DbJobView, DbWrite};
use crate::keys::KeyCode;
use crate::signal::Duplicate;
use crate::strmap::{at, holds, look};
use crate::text::{concat2, folded, to_lower};
use vstd::prelude::*;

verus! {

// ---------------------------------------------------------------------------
// Lists
// ---------------------------------------------------------------------------

/// The place below `index` in a list of `len`, or `index` where there is none.
pub open spec fn step_down(index: usize, len: nat) -> usize {
    if index + 1 < len {
        (index + 1) as usize
    } else {
        index
    }
}

/// The place above `index` in a list, or the first.
pub open spec fn step_up(index: usize) -> usize {
    if index > 0 {
        (index - 1) as usize
    } else {
        0
    }
}

/// A place in a list of `len`, moved to its last one where it is past it.
pub open spec fn clamped(index: usize, len: nat) -> usize {
    if len == 0 {
        0
    } else if index >= len {
        (len - 1) as usize
    } else {
        index
    }
}

/// The place below `index` in a list of `len`, or `index` where there is none.
pub fn move_down(index: usize, len: usize) -> (r: usize)
    ensures
        r == step_down(index, len as nat),
{
    if len > 0 && index < len - 1 {
        index + 1
    } else {
        index
    }
}

/// Moves a place in a list of `len` to its last one where it is past it.
pub fn clamp_index(index: usize, len: usize) -> (r: usize)
    ensures
        r == clamped(index, len as nat),
{
    if len == 0 {
        0
    } else if index >= len {
        len - 1
    } else {
        index
    }
}

/// What a key does in a list.
#[derive(Debug, Clone, Copy, PartialEq, Eq, Structural)]
pub enum ListKeyAction {
    Down,
    Up,
    Select,
    Close,
    FilterPush(char),
    FilterPop,
    Nothing,
}

/// What a key does in a list, which may have a filter.
pub open spec fn list_key(code: KeyCode, has_filter: bool) -> ListKeyAction {
    match code {
        KeyCode::Down => ListKeyAction::Down,
        KeyCode::Up => ListKeyAction::Up,
        KeyCode::Enter => ListKeyAction::Select,
        KeyCode::Esc => ListKeyAction::Close,
        KeyCode::Backspace => if has_filter {
            ListKeyAction::FilterPop
        } else {
            ListKeyAction::Nothing
        },
        KeyCode::Char(c) => if c == 'j' {
            ListKeyAction::Down
        } else if c == 'k' {
            ListKeyAction::Up
        } else if has_filter {
            ListKeyAction::FilterPush(c)
        } else {
            ListKeyAction::Nothing
        },
        _ => ListKeyAction::Nothing,
    }
}

/// What a key does in a list, which may have a filter.
pub fn classify_list_key(code: KeyCode, has_filter: bool) -> (r: ListKeyAction)
    ensures
        r == list_key(code, has_filter),
{
    match code {
        KeyCode::Down => ListKeyAction::Down,
        KeyCode::Up => ListKeyAction::Up,
        KeyCode::Enter => ListKeyAction::Select,
        KeyCode::Esc => ListKeyAction::Close,
        KeyCode::Backspace => if has_filter {
            ListKeyAction::FilterPop
        } else {
            ListKeyAction::Nothing
        },
        KeyCode::Char(c) => if c == 'j' {
            ListKeyAction::Down
        } else if c == 'k' {
            ListKeyAction::Up
        } else if has_filter {
            ListKeyAction::FilterPush(c)
        } else {
            ListKeyAction::Nothing
        },
        _ => ListKeyAction::Nothing,
    }
}

/// What filtering one more item does.
pub proof fn filter_take<T>(s: Seq<T>, i: int, p: spec_fn(T) -> bool)
    requires
        0 <= i < s.len(),
    ensures
        s.take(i + 1).filter(p) == if p(s[i]) {
            s.take(i).filter(p).push(s[i])
        } else {
            s.take(i).filter(p)
        },
{
    reveal(Seq::filter);
    assert(s.take(i + 1).drop_last() =~= s.take(i));
    assert(s.take(i + 1).last() == s[i]);
}

/// Filtering nothing gives nothing.
pub proof fn filter_none<T>(s: Seq<T>, p: spec_fn(T) -> bool)
    ensures
        s.take(0).filter(p) == Seq::<T>::empty(),
{
    reveal(Seq::filter);
}

/// Filtering leaves reactions that all pass as they are.
pub proof fn filter_keeps_all<T>(s: Seq<T>, p: spec_fn(T) -> bool)
    requires
        forall|i: int| 0 <= i < s.len() ==> p(#[trigger] s[i]),
    ensures
        s.filter(p) == s,
    decreases s.len(),
{
    reveal(Seq::filter);
    if s.len() > 0 {
        assert forall|i: int| 0 <= i < s.drop_last().len() implies p(
            #[trigger] s.drop_last()[i],
        ) by {
            assert(p(s[i]));
        }
        filter_keeps_all(s.drop_last(), p);
        assert(p(s[s.len() - 1]));
        assert(s =~= s.drop_last().push(s.last()));
    }
}

// ---------------------------------------------------------------------------
// Text
// ---------------------------------------------------------------------------

/// A text without its last character.
pub open spec fn popped(s: Seq<char>) -> Seq<char> {
    if s.len() > 0 {
        s.drop_last()
    } else {
        s
    }
}

/// One of two texts holds a filter, letter case aside. Every text holds the
/// empty filter.
pub open spec fn matches_filter(filter: Seq<char>, a: Seq<char>, b: Seq<char>) -> bool {
    folded(filter).len() == 0 || crate::text::contains_text(folded(a), folded(filter))
        || crate::text::contains_text(folded(b), folded(filter))
}

/// Whether one of two texts holds a filter that is in lower case already.
pub(crate) fn passes_filter(filter_lower: &str, a: &str, b: &str, Ghost(filter): Ghost<Seq<char>>) -> (r:
    bool)
    requires
        filter_lower@ == folded(filter),
    ensures
        r == matches_filter(filter, a@, b@),
{
    if filter_lower.is_empty() {
        return true;
    }
    crate::text::contains(to_lower(a).as_str(), filter_lower) || crate::text::contains(
        to_lower(b).as_str(),
        filter_lower,
    )
}

/// The place of a text in a list, or the first.
pub open spec fn place_or_first(s: Seq<Seq<char>>, x: Seq<char>) -> usize {
    let p = text_place(s, x, 0);
    if p < s.len() {
        p as usize
    } else {
        0
    }
}

// ---------------------------------------------------------------------------
// The state
// ---------------------------------------------------------------------------

impl AppView {
    /// The state with another status line.
    pub open spec fn say(self, text: Seq<char>) -> AppView {
        AppView { status_message: text, ..self }
    }

    /// The state with one thing more to be done outside.
    pub open spec fn ask(self, e: EffectView) -> AppView {
        AppView { effects: self.effects.push(e), ..self }
    }

    /// The state with one change more to be made in the database.
    pub open spec fn write(self, j: DbJobView) -> AppView {
        AppView { jobs: self.jobs.push(j), ..self }
    }

    /// The state with an overlay open.
    pub open spec fn opened(self, k: Overlay) -> AppView {
        AppView { overlays: self.overlays.insert(k), ..self }
    }

    /// The state with an overlay closed.
    pub open spec fn closed(self, k: Overlay) -> AppView {
        AppView { overlays: self.overlays.remove(k), ..self }
    }

    /// An overlay is open.
    pub open spec fn shows(self, k: Overlay) -> bool {
        self.overlays.contains(k)
    }

    /// The state in which something holds.
    pub open spec fn raised(self, f: Flag) -> AppView {
        AppView { flags: self.flags.insert(f), ..self }
    }

    /// The state in which something does not hold.
    pub open spec fn lowered(self, f: Flag) -> AppView {
        AppView { flags: self.flags.remove(f), ..self }
    }

    /// Something holds of the state.
    pub open spec fn is(self, f: Flag) -> bool {
        self.flags.contains(f)
    }

    /// A switch is on.
    pub open spec fn on(self, k: Setting) -> bool {
        self.settings.contains(k)
    }

    /// The active conversation, where it is there.
    pub open spec fn active(self) -> Option<ConversationView> {
        match self.active_conversation {
            Some(id) => look(self.store.conversations, id),
            None => None,
        }
    }

    /// The conversation `id` is a group.
    pub open spec fn is_group(self, id: Seq<char>) -> bool {
        match look(self.store.conversations, id) {
            Some(c) => c.is_group,
            None => false,
        }
    }

    /// The name of a number or group id, or itself.
    pub open spec fn name_of(self, id: Seq<char>) -> Seq<char> {
        match look(self.store.contact_names, id) {
            Some(name) => name,
            None => id,
        }
    }

    /// The state with the conversation `id` changed.
    pub open spec fn with_conv(self, id: Seq<char>, c: ConversationView) -> AppView {
        AppView {
            store: ConversationStoreView {
                conversations: crate::strmap::put(self.store.conversations, id, c),
                ..self.store
            },
            ..self
        }
    }

    /// The state with message `i` of the conversation `id` changed.
    pub open spec fn with_msg(self, id: Seq<char>, i: int, m: DisplayMessageView) -> AppView {
        let c = at(self.store.conversations, id);
        self.with_conv(id, ConversationView { messages: c.messages.update(i, m), ..c })
    }
}

impl App {
    /// Opens an overlay.
    pub fn open_overlay(&mut self, k: Overlay)
        ensures
            final(self).state() == old(self).state().opened(k),
    {
        reveal(App::state);
        self.overlays.insert(k);
    }

    /// Closes an overlay.
    pub fn close_overlay(&mut self, k: Overlay)
        ensures
            final(self).state() == old(self).state().closed(k),
    {
        reveal(App::state);
        self.overlays.remove(k);
    }

    /// Whether an overlay is open.
    pub fn is_open(&self, k: Overlay) -> (r: bool)
        ensures
            r == self.state().shows(k),
    {
        reveal(App::state);
        self.overlays.has_item(k)
    }

    /// Makes something hold.
    pub fn raise(&mut self, f: Flag)
        ensures
            final(self).state() == old(self).state().raised(f),
    {
        reveal(App::state);
        self.flags.insert(f);
    }

    /// Makes something not hold.
    pub fn lower(&mut self, f: Flag)
        ensures
            final(self).state() == old(self).state().lowered(f),
    {
        reveal(App::state);
        self.flags.remove(f);
    }

    /// Whether something holds.
    pub fn has_flag(&self, f: Flag) -> (r: bool)
        ensures
            r == self.state().is(f),
    {
        reveal(App::state);
        self.flags.has_item(f)
    }

    /// Whether a switch is on.
    pub fn is_on(&self, k: Setting) -> (r: bool)
        ensures
            r == self.state().on(k),
    {
        reveal(App::state);
        self.settings.has_item(k)
    }

    /// Sets the status line.
    pub fn set_status(&mut self, text: &str)
        ensures
            final(self).state() == old(self).state().say(text@),
    {
        reveal(App::state);
        self.status_message = text.to_string();
    }

    /// Has something done outside.
    pub fn request(&mut self, e: Effect)
        ensures
            final(self).state() == old(self).state().ask(e.deep_view()),
    {
        reveal(App::state);
        self.effects.push(e);
        assert(self.effects.deep_view() =~= old(self).effects.deep_view().push(e.deep_view()));
    }

    /// Has a change made in the database.
    pub fn record(&mut self, write: DbWrite, context: &'static str, visible: bool)
        ensures
            final(self).state() == old(self).state().write(
                (DbJobView { write: write.deep_view(), context: context@, visible }),
            ),
    {
        reveal(App::state);
        enqueue(&mut self.jobs, write, context, visible);
    }

    /// Tells that a change in the database failed.
    pub fn db_failed(&mut self, context: &str, error: &str)
        ensures
            final(self).state() == old(self).state().say(
                "DB error ("@ + context@ + "): "@ + error@,
            ),
    {
        let a = crate::text::concat3("DB error (", context, "): ");
        let text = concat2(a.as_str(), error);
        self.set_status(text.as_str());
    }

    /// The id of the active conversation.
    pub fn active_id(&self) -> (r: Option<String>)
        ensures
            r.deep_view() == self.state().active_conversation,
    {
        reveal(App::state);
        self.active_conversation.duplicate()
    }

    /// Whether the conversation `id` is a group.
    pub fn conv_is_group(&self, id: &str) -> (r: bool)
        ensures
            r == self.state().is_group(id@),
    {
        reveal(App::state);
        match self.store.conversations.get(id) {
            Some(c) => c.is_group,
            None => false,
        }
    }

    /// The name of a number or group id, or itself.
    pub fn display_name(&self, id: &str) -> (r: String)
        ensures
            r@ == self.state().name_of(id@),
    {
        reveal(App::state);
        match self.store.contact_names.get(id) {
            Some(name) => name.clone(),
            None => id.to_string(),
        }
    }
}

} // verus!
