//! The emoji picker.
use crate::actions::reaction_sent;
use crate::app::{
    App, AppView, EmojiEntry, EmojiEntryView, EmojiPickerSource, EmojiPickerState,
    EmojiPickerStateView, Overlay, SendRequest, SendRequestView,
};
use crate::common::{
    clamp_index, clamped, filter_none, filter_take, move_down, popped, step_down, step_up,
};
use crate::composer::with_input;
use crate::app::InputStateView;
use crate::keys::KeyCode;
use crate::signal::Duplicate;
use crate::text::{contains, contains_text, folded, to_lower};
use vstd::prelude::*;

verus! {

/// What the emoji picker asks its caller to do.
#[derive(Debug)]
pub enum EmojiPickerAction {
    /// An emoji was chosen.
    Select(String),
    /// The picker is to be closed.
    Close,
    /// Nothing.
    Nothing,
}

/// What an [`EmojiPickerAction`] stands for.
pub enum EmojiPickerActionView {
    Select(Seq<char>),
    Close,
    Nothing,
}

impl DeepView for EmojiPickerAction {
    type V = EmojiPickerActionView;

    open spec fn deep_view(&self) -> EmojiPickerActionView {
        match self {
            EmojiPickerAction::Select(e) => EmojiPickerActionView::Select(e@),
            EmojiPickerAction::Close => EmojiPickerActionView::Close,
            EmojiPickerAction::Nothing => EmojiPickerActionView::Nothing,
        }
    }
}

/// The categories of the picker: an icon and a name. The first one holds all.
pub const CATEGORIES: [(&'static str, &'static str); 10] = [
    ("*", "All"),
    ("\u{1f600}", "Smileys & Emotion"),
    ("\u{1f44b}", "People & Body"),
    ("\u{1f43b}", "Animals & Nature"),
    ("\u{1f354}", "Food & Drink"),
    ("\u{2708}\u{fe0f}", "Travel & Places"),
    ("\u{26bd}", "Activities"),
    ("\u{1f4a1}", "Objects"),
    ("\u{2764}\u{fe0f}", "Symbols"),
    ("\u{1f3c1}", "Flags"),
];

// ---------------------------------------------------------------------------
// The emoji there are
// ---------------------------------------------------------------------------

/// The first emoji that `emojis::iter` gives, at most `limit`, in its order: of
/// each its text, its first short code, its name, the number of its group among
/// the variants of `emojis::Group`, and that of its skin tone, if it has one, among
/// the variants of `emojis::SkinTone`.
pub uninterp spec fn emoji_rows(limit: usize) -> Seq<
    ((Seq<char>, Option<Seq<char>>, Seq<char>), (usize, Option<usize>)),
>;

/// Calls `emojis::iter`, and for each emoji `as_str`, `shortcode`, `name`, `group`
/// and `skin_tone`. That the result is [`emoji_rows`] of the limit is claimed;
/// which emoji there are is not.
#[verifier::external_body]
fn list_emojis(limit: usize) -> (r: Vec<((String, Option<String>, String), (usize, Option<usize>))>)
    ensures
        r.deep_view() == emoji_rows(limit),
{
    emojis::iter()
        .take(limit)
        .map(|e| {
            let texts = (e.as_str().to_string(), e.shortcode().map(str::to_string), e.name().to_string());
            (texts, (e.group() as usize, e.skin_tone().map(|t| t as usize)))
        })
        .collect()
}

/// The group that a category shows. The first one, and any that is not there,
/// shows all.
pub open spec fn category_group(index: usize) -> Option<usize> {
    if 1 <= index < CATEGORIES@.len() {
        Some((index - 1) as usize)
    } else {
        None
    }
}

/// An emoji is shown: one without a skin tone, of a group where one is given,
/// whose name or short code holds a text in lower case.
pub open spec fn emoji_fits(
    row: ((Seq<char>, Option<Seq<char>>, Seq<char>), (usize, Option<usize>)),
    lower: Seq<char>,
    group: Option<usize>,
) -> bool {
    let (texts, marks) = row;
    let (emoji, shortcode, name) = texts;
    let (of, tone) = marks;
    &&& tone is None
    &&& group is Some ==> of == group->0
    &&& lower.len() > 0 ==> contains_text(folded(name), lower) || (shortcode is Some
        && contains_text(folded(shortcode->0), lower))
}

/// What the picker shows of an emoji.
pub open spec fn emoji_entry(
    row: ((Seq<char>, Option<Seq<char>>, Seq<char>), (usize, Option<usize>)),
) -> EmojiEntryView {
    let (texts, marks) = row;
    let (emoji, shortcode, name) = texts;
    EmojiEntryView { emoji, shortcode, name }
}

/// The emoji among `rows` that a filter text and a category show. With a text the
/// category does not count.
pub open spec fn emojis_picked(
    rows: Seq<((Seq<char>, Option<Seq<char>>, Seq<char>), (usize, Option<usize>))>,
    filter: Seq<char>,
    category: usize,
) -> Seq<EmojiEntryView> {
    let lower = folded(filter);
    let group = if filter.len() == 0 {
        category_group(category)
    } else {
        None
    };
    rows.filter(
        |row: ((Seq<char>, Option<Seq<char>>, Seq<char>), (usize, Option<usize>))|
            emoji_fits(row, lower, group),
    ).map_values(
        |row: ((Seq<char>, Option<Seq<char>>, Seq<char>), (usize, Option<usize>))| emoji_entry(row),
    )
}

/// The picker with the emoji that its filter and its category show.
pub open spec fn picker_filtered(p: EmojiPickerStateView) -> EmojiPickerStateView {
    let shown = emojis_picked(emoji_rows(usize::MAX), p.filter, p.category_index);
    EmojiPickerStateView {
        filtered: shown,
        selected_index: clamped(p.selected_index, shown.len()),
        ..p
    }
}

/// The picker opened for a purpose, with a filter text.
pub open spec fn picker_opened(
    p: EmojiPickerStateView,
    source: EmojiPickerSource,
    filter: Seq<char>,
) -> EmojiPickerStateView {
    picker_filtered(
        EmojiPickerStateView { source, filter, selected_index: 0, category_index: 0, ..p },
    )
}

/// The picker closed.
pub open spec fn picker_closed(p: EmojiPickerStateView) -> EmojiPickerStateView {
    EmojiPickerStateView {
        filter: Seq::empty(),
        selected_index: 0,
        category_index: 0,
        filtered: Seq::empty(),
        ..p
    }
}

/// The selected emoji.
pub open spec fn picked(p: EmojiPickerStateView) -> Option<Seq<char>> {
    if p.selected_index < p.filtered.len() {
        Some(p.filtered[p.selected_index as int].emoji)
    } else {
        None
    }
}

/// The category behind one; behind the last one stands the first.
pub open spec fn next_category(index: usize) -> usize {
    ((index + 1) % CATEGORIES@.len() as int) as usize
}

/// The category before one; before the first one stands the last.
pub open spec fn prev_category(index: usize) -> usize {
    if index == 0 {
        (CATEGORIES@.len() - 1) as usize
    } else {
        (index - 1) as usize
    }
}

/// The place a row below, where there is one.
pub open spec fn row_below(index: usize, cols: usize, len: nat) -> usize {
    if index + cols < len {
        (index + cols) as usize
    } else {
        index
    }
}

/// The place a row above, or the first.
pub open spec fn row_above(index: usize, cols: usize) -> usize {
    if index >= cols {
        (index - cols) as usize
    } else {
        0
    }
}

/// The picker after a key, and what its caller is to do.
pub open spec fn picker_key(p: EmojiPickerStateView, code: KeyCode) -> (
    EmojiPickerStateView,
    EmojiPickerActionView,
) {
    let i = p.selected_index;
    match code {
        KeyCode::Enter | KeyCode::Char(' ') => (
            p,
            match picked(p) {
                Some(e) => EmojiPickerActionView::Select(e),
                None => EmojiPickerActionView::Nothing,
            },
        ),
        KeyCode::Esc => (p, EmojiPickerActionView::Close),
        KeyCode::Left | KeyCode::Char('h') => (
            EmojiPickerStateView { selected_index: step_up(i), ..p },
            EmojiPickerActionView::Nothing,
        ),
        KeyCode::Right | KeyCode::Char('l') => (
            EmojiPickerStateView { selected_index: step_down(i, p.filtered.len()), ..p },
            EmojiPickerActionView::Nothing,
        ),
        KeyCode::Down | KeyCode::Char('j') => (
            EmojiPickerStateView { selected_index: row_below(i, p.cols, p.filtered.len()), ..p },
            EmojiPickerActionView::Nothing,
        ),
        KeyCode::Up | KeyCode::Char('k') => (
            EmojiPickerStateView { selected_index: row_above(i, p.cols), ..p },
            EmojiPickerActionView::Nothing,
        ),
        KeyCode::Tab => (
            picker_filtered(
                EmojiPickerStateView { category_index: next_category(p.category_index), ..p },
            ),
            EmojiPickerActionView::Nothing,
        ),
        KeyCode::BackTab => (
            picker_filtered(
                EmojiPickerStateView { category_index: prev_category(p.category_index), ..p },
            ),
            EmojiPickerActionView::Nothing,
        ),
        KeyCode::Char(c) => (
            picker_filtered(EmojiPickerStateView { filter: p.filter.push(c), ..p }),
            EmojiPickerActionView::Nothing,
        ),
        KeyCode::Backspace => (
            picker_filtered(EmojiPickerStateView { filter: popped(p.filter), ..p }),
            EmojiPickerActionView::Nothing,
        ),
        _ => (p, EmojiPickerActionView::Nothing),
    }
}

/// With a filter text, the category makes no difference: two pickers with the
/// same text show the same emoji in the same order.
pub proof fn text_ignores_category(p: EmojiPickerStateView, q: EmojiPickerStateView)
    requires
        p.filter == q.filter,
        p.filter.len() > 0,
    ensures
        picker_filtered(p).filtered == picker_filtered(q).filtered,
        forall|rows: Seq<((Seq<char>, Option<Seq<char>>, Seq<char>), (usize, Option<usize>))>|
            emojis_picked(rows, p.filter, p.category_index) == emojis_picked(
                rows,
                q.filter,
                q.category_index,
            ),
{
}

/// The category behind one has that one before it, and the other way round.
pub proof fn categories_cycle(index: usize)
    requires
        index < CATEGORIES@.len(),
    ensures
        prev_category(next_category(index)) == index,
        next_category(prev_category(index)) == index,
        next_category(index) < CATEGORIES@.len(),
{
}

/// A step to the row below is taken back by one to the row above.
pub proof fn rows_come_back(index: usize, cols: usize, len: nat)
    requires
        index + cols < len,
        len <= usize::MAX,
    ensures
        row_above(row_below(index, cols, len), cols) == index,
{
}

/// The emoji among `rows` that a filter text and a category show.
pub fn pick_emojis(
    rows: &Vec<((String, Option<String>, String), (usize, Option<usize>))>,
    filter: &str,
    category: usize,
) -> (r: Vec<EmojiEntry>)
    ensures
        r.deep_view() == emojis_picked(rows.deep_view(), filter@, category),
{
    let lower = to_lower(filter);
    let lower_empty = lower.as_str().is_empty();
    let group = if lower_empty && 1 <= category && category < CATEGORIES.len() {
        Some(category - 1)
    } else {
        None
    };
    let ghost s = rows.deep_view();
    let ghost low = lower@;
    let ghost p = |row: ((Seq<char>, Option<Seq<char>>, Seq<char>), (usize, Option<usize>))|
        emoji_fits(row, low, group);
    let ghost f = |row: ((Seq<char>, Option<Seq<char>>, Seq<char>), (usize, Option<usize>))|
        emoji_entry(row);
    let mut out: Vec<EmojiEntry> = Vec::new();
    let mut i: usize = 0;
    proof {
        filter_none(s, p);
    }
    assert(out.deep_view() =~= s.take(0).filter(p).map_values(f));
    while i < rows.len()
        invariant
            i <= rows@.len(),
            s == rows.deep_view(),
            low == lower@,
            lower_empty == (low.len() == 0),
            p == |row: ((Seq<char>, Option<Seq<char>>, Seq<char>), (usize, Option<usize>))|
                emoji_fits(row, low, group),
            f == |row: ((Seq<char>, Option<Seq<char>>, Seq<char>), (usize, Option<usize>))|
                emoji_entry(row),
            out.deep_view() == s.take(i as int).filter(p).map_values(f),
        decreases rows@.len() - i,
    {
        proof {
            filter_take(s, i as int, p);
            assert(s[i as int] == rows@[i as int].deep_view());
        }
        let texts = &rows[i].0;
        let marks = &rows[i].1;
        let in_group = match group {
            Some(g) => marks.0 == g,
            None => true,
        };
        let keep = marks.1.is_none() && in_group && (lower_empty || contains(
            to_lower(texts.2.as_str()).as_str(),
            lower.as_str(),
        ) || match &texts.1 {
            Some(code) => contains(to_lower(code.as_str()).as_str(), lower.as_str()),
            None => false,
        });
        assert(keep == p(s[i as int]));
        if keep {
            let ghost before = s.take(i as int).filter(p);
            let e = EmojiEntry {
                emoji: texts.0.clone(),
                shortcode: texts.1.duplicate(),
                name: texts.2.clone(),
            };
            let ghost done = out.deep_view();
            assert(e.deep_view() == emoji_entry(s[i as int]));
            out.push(e);
            assert(out.deep_view() =~= done.push(e.deep_view()));
            assert(before.push(s[i as int]).map_values(f) =~= before.map_values(f).push(
                f(s[i as int]),
            ));
        }
        i += 1;
    }
    assert(s.take(s.len() as int) =~= s);
    out
}

impl Default for EmojiPickerState {
    fn default() -> (r: EmojiPickerState)
        ensures
            r.deep_view() == (EmojiPickerStateView {
                source: EmojiPickerSource::Input,
                filter: Seq::empty(),
                selected_index: 0,
                category_index: 0,
                filtered: Seq::empty(),
                cols: 16,
            }),
    {
        let filtered: Vec<EmojiEntry> = Vec::new();
        let filter = String::new();
        assert(filtered.deep_view() =~= Seq::<EmojiEntryView>::empty());
        assert(filter@ =~= Seq::<char>::empty());
        EmojiPickerState {
            source: EmojiPickerSource::Input,
            filter,
            selected_index: 0,
            category_index: 0,
            filtered,
            cols: 16,
        }
    }
}

impl EmojiPickerState {
    /// Opens the picker for a purpose, with a filter text.
    pub fn open(&mut self, source: EmojiPickerSource, filter: Option<String>)
        ensures
            final(self).deep_view() == picker_opened(
                old(self).deep_view(),
                source,
                match filter {
                    Some(f) => f@,
                    None => Seq::empty(),
                },
            ),
    {
        self.source = source;
        self.filter = match filter {
            Some(f) => f,
            None => {
                let empty = String::new();
                assert(empty@ =~= Seq::<char>::empty());
                empty
            },
        };
        self.selected_index = 0;
        self.category_index = 0;
        self.refresh_filter();
    }

    /// Closes the picker.
    pub fn close(&mut self)
        ensures
            final(self).deep_view() == picker_closed(old(self).deep_view()),
    {
        self.filter = String::new();
        self.selected_index = 0;
        self.category_index = 0;
        self.filtered = Vec::new();
        assert(self.filter@ =~= Seq::<char>::empty());
        assert(self.filtered.deep_view() =~= Seq::<EmojiEntryView>::empty());
    }

    /// Shows what the filter and the category show.
    pub fn refresh_filter(&mut self)
        ensures
            final(self).deep_view() == picker_filtered(old(self).deep_view()),
    {
        let rows = list_emojis(usize::MAX);
        self.filtered = pick_emojis(&rows, self.filter.as_str(), self.category_index);
        self.selected_index = clamp_index(self.selected_index, self.filtered.len());
    }

    /// The selected emoji.
    pub fn selected_emoji(&self) -> (r: Option<&str>)
        ensures
            match r {
                Some(e) => picked(self.deep_view()) == Some(e@),
                None => picked(self.deep_view()) is None,
            },
    {
        if self.selected_index < self.filtered.len() {
            assert(self.filtered.deep_view()[self.selected_index as int]
                == self.filtered@[self.selected_index as int].deep_view());
            Some(self.filtered[self.selected_index].emoji.as_str())
        } else {
            None
        }
    }

    /// Handles a key.
    pub fn handle_key(&mut self, code: KeyCode) -> (r: EmojiPickerAction)
        ensures
            (final(self).deep_view(), r.deep_view()) == picker_key(old(self).deep_view(), code),
    {
        match code {
            KeyCode::Enter | KeyCode::Char(' ') => match self.selected_emoji() {
                Some(e) => return EmojiPickerAction::Select(e.to_string()),
                None => {},
            },
            KeyCode::Esc => return EmojiPickerAction::Close,
            KeyCode::Left | KeyCode::Char('h') => {
                self.selected_index = self.selected_index.saturating_sub(1);
            },
            KeyCode::Right | KeyCode::Char('l') => {
                self.selected_index = move_down(self.selected_index, self.filtered.len());
            },
            KeyCode::Down | KeyCode::Char('j') => {
                let n = self.filtered.len();
                if self.cols < n && self.selected_index < n - self.cols {
                    self.selected_index = self.selected_index + self.cols;
                }
            },
            KeyCode::Up | KeyCode::Char('k') => {
                self.selected_index = self.selected_index.saturating_sub(self.cols);
            },
            KeyCode::Tab => {
                let ghost i = self.category_index;
                assert(CATEGORIES.len() == 10);
                assert((i as int % 10 + 1) % 10 == (i as int + 1) % 10) by (nonlinear_arith);
                self.category_index = (self.category_index % CATEGORIES.len() + 1)
                    % CATEGORIES.len();
                self.refresh_filter();
            },
            KeyCode::BackTab => {
                self.category_index =
                if self.category_index == 0 {
                    CATEGORIES.len() - 1
                } else {
                    self.category_index - 1
                };
                self.refresh_filter();
            },
            KeyCode::Char(c) => {
                self.filter.push(c);
                self.refresh_filter();
            },
            KeyCode::Backspace => {
                let _ = self.filter.pop();
                self.refresh_filter();
            },
            _ => {},
        }
        EmojiPickerAction::Nothing
    }
}

// ---------------------------------------------------------------------------
// The state
// ---------------------------------------------------------------------------

/// The state with the picker open for a purpose, with a filter text.
#[verifier::opaque]
pub open spec fn emoji_picker_opened(
    a: AppView,
    source: EmojiPickerSource,
    filter: Seq<char>,
) -> AppView {
    AppView {
        emoji_picker: picker_opened(a.emoji_picker, source, filter),
        ..a.opened(Overlay::EmojiPicker)
    }
}

/// The state with the picker closed.
pub open spec fn emoji_picker_closed(a: AppView) -> AppView {
    AppView { emoji_picker: picker_closed(a.emoji_picker), ..a.closed(Overlay::EmojiPicker) }
}

/// The state after a key in the picker, and what is sent. An emoji that was chosen
/// goes into the input, or is a reaction to the selected message.
#[verifier::opaque]
pub open spec fn emoji_key(a: AppView, code: KeyCode) -> (AppView, Option<SendRequestView>) {
    let (p, action) = picker_key(a.emoji_picker, code);
    let b = AppView { emoji_picker: p, ..a };
    match action {
        EmojiPickerActionView::Select(e) => if p.source == EmojiPickerSource::Input {
            let c = emoji_picker_closed(b);
            (
                with_input(c, InputStateView { before: c.input.before + e, ..c.input }),
                None,
            )
        } else {
            reaction_sent(emoji_picker_closed(b), e)
        },
        EmojiPickerActionView::Close => (emoji_picker_closed(b), None),
        EmojiPickerActionView::Nothing => (b, None),
    }
}

impl App {
    /// Opens the picker for a purpose, with a filter text.
    pub fn open_emoji_picker(&mut self, source: EmojiPickerSource, filter: &str)
        ensures
            final(self).state() == emoji_picker_opened(old(self).state(), source, filter@),
    {
        reveal(emoji_picker_opened);
        self.open_overlay(Overlay::EmojiPicker);
        reveal(App::state);
        self.emoji_picker.open(source, Some(filter.to_string()));
    }

    fn close_emoji_picker(&mut self)
        ensures
            final(self).state() == emoji_picker_closed(old(self).state()),
    {
        self.close_overlay(Overlay::EmojiPicker);
        reveal(App::state);
        self.emoji_picker.close();
    }

    fn press_in_picker(&mut self, code: KeyCode) -> (r: (EmojiPickerAction, EmojiPickerSource))
        ensures
            final(self).state() == (AppView {
                emoji_picker: picker_key(old(self).state().emoji_picker, code).0,
                ..old(self).state()
            }),
            r.0.deep_view() == picker_key(old(self).state().emoji_picker, code).1,
            r.1 == final(self).state().emoji_picker.source,
    {
        reveal(App::state);
        let action = self.emoji_picker.handle_key(code);
        (action, self.emoji_picker.source)
    }

    /// Handles a key in the picker.
    pub fn handle_emoji_picker_key(&mut self, code: KeyCode) -> (r: Option<SendRequest>)
        ensures
            (final(self).state(), r.deep_view()) == emoji_key(old(self).state(), code),
    {
        reveal(emoji_key);
        let (action, source) = self.press_in_picker(code);
        match action {
            EmojiPickerAction::Select(e) => {
                self.close_emoji_picker();
                if source == EmojiPickerSource::Input {
                    self.insert_text(e.as_str());
                    None
                } else {
                    self.react_with(e.as_str())
                }
            },
            EmojiPickerAction::Close => {
                self.close_emoji_picker();
                None
            },
            EmojiPickerAction::Nothing => None,
        }
    }
}

} // verus!
