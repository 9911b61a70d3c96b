//! The input line: editing, moving the cursor, recalling what was submitted.
use crate::app::{App, AppView, InputState, InputStateView, PendingStateView};
use crate::conversation_store::at_most_max;
use crate::keys::KeyCode;
use crate::offsets::text_bytes;
use crate::text::{concat2, drop_white, from_range, is_white, push_text, to_chars};
use vstd::prelude::*;

verus! {

// ---------------------------------------------------------------------------
// Model
// ---------------------------------------------------------------------------

impl InputStateView {
    /// The whole text of the input.
    pub open spec fn text(self) -> Seq<char> {
        self.before + self.after
    }

    /// The input with the cursor behind its first `k` characters.
    pub open spec fn at_char(self, k: int) -> InputStateView {
        InputStateView { before: self.text().take(k), after: self.text().skip(k), ..self }
    }

    /// The input with another text, and the cursor at its end.
    pub open spec fn showing(self, text: Seq<char>) -> InputStateView {
        InputStateView { before: text, after: Seq::empty(), ..self }
    }

    /// The entry of the history that is shown is there.
    pub open spec fn history_ok(self) -> bool {
        match self.history_index {
            Some(i) => i < self.history.len(),
            None => true,
        }
    }
}

/// Where the last line of a text starts.
pub open spec fn line_start(s: Seq<char>) -> int
    decreases s.len(),
{
    if s.len() == 0 || s.last() == '\n' {
        s.len() as int
    } else {
        line_start(s.drop_last())
    }
}

/// How long the first line of a text is.
pub open spec fn line_len(s: Seq<char>) -> int
    decreases s.len(),
{
    if s.len() == 0 || s[0] == '\n' {
        0
    } else {
        1 + line_len(s.drop_first())
    }
}

/// How many line breaks a text has.
pub open spec fn breaks(s: Seq<char>) -> int
    decreases s.len(),
{
    if s.len() == 0 {
        0
    } else {
        breaks(s.drop_last()) + (if s.last() == '\n' {
            1int
        } else {
            0int
        })
    }
}

/// The smaller of two numbers.
pub open spec fn lesser(a: int, b: int) -> int {
    if a <= b {
        a
    } else {
        b
    }
}

/// The input after a request for what was submitted before. What stands in it
/// is kept.
pub open spec fn recalled_up(i: InputStateView) -> InputStateView {
    let n = i.history.len();
    match i.history_index {
        None => if n == 0 {
            i
        } else {
            InputStateView {
                history_draft: i.text(),
                history_index: Some((n - 1) as usize),
                ..i.showing(i.history[n - 1])
            }
        },
        Some(k) => if 0 < k <= n {
            InputStateView {
                history_index: Some((k - 1) as usize),
                ..i.showing(i.history[k - 1])
            }
        } else {
            i
        },
    }
}

/// The input after a request for what was submitted next; behind the last entry
/// stands what was kept.
pub open spec fn recalled_down(i: InputStateView) -> InputStateView {
    match i.history_index {
        None => i,
        Some(k) => if k + 1 < i.history.len() {
            InputStateView { history_index: Some((k + 1) as usize), ..i.showing(i.history[k + 1]) }
        } else {
            InputStateView { history_index: None, ..i.showing(i.history_draft) }
        },
    }
}

/// The input after the cursor moved up a line, or into the history from the
/// first.
pub open spec fn moved_up(i: InputStateView) -> InputStateView {
    let start = line_start(i.before);
    let col = i.before.len() - start;
    if start == 0 {
        recalled_up(i)
    } else {
        let above = i.before.take(start - 1);
        let q = line_start(above);
        i.at_char(q + lesser(col, above.len() - q))
    }
}

/// The input after the cursor moved down a line, or into the history from the
/// last.
pub open spec fn moved_down(i: InputStateView) -> InputStateView {
    let col = i.before.len() - line_start(i.before);
    let rest = line_len(i.after);
    if rest == i.after.len() {
        recalled_down(i)
    } else {
        let below = i.after.skip(rest + 1);
        i.at_char(i.before.len() + rest + 1 + lesser(col, line_len(below)))
    }
}

/// A text without what ends it: spaces, and the word before them.
pub open spec fn without_word(s: Seq<char>) -> Seq<char> {
    without_letters(drop_white(s))
}

/// A text without the characters that end it and are no spaces.
pub open spec fn without_letters(s: Seq<char>) -> Seq<char>
    decreases s.len(),
{
    if s.len() > 0 && !is_white(s.last()) {
        without_letters(s.drop_last())
    } else {
        s
    }
}

/// A text with each end of line as one character.
pub open spec fn normalized(s: Seq<char>) -> Seq<char>
    decreases s.len(),
{
    if s.len() == 0 {
        Seq::empty()
    } else if s[0] == '\r' && s.len() > 1 && s[1] == '\n' {
        seq!['\n'] + normalized(s.skip(2))
    } else if s[0] == '\r' {
        seq!['\n'] + normalized(s.skip(1))
    } else {
        seq![s[0]] + normalized(s.skip(1))
    }
}

/// The input after a key that edits it or moves the cursor; none where the key
/// does neither.
pub open spec fn edited(i: InputStateView, code: KeyCode) -> Option<InputStateView> {
    match code {
        KeyCode::Backspace => Some(
            if i.before.len() > 0 {
                InputStateView { before: i.before.drop_last(), ..i }
            } else {
                i
            },
        ),
        KeyCode::Delete => Some(
            if i.after.len() > 0 {
                InputStateView { after: i.after.drop_first(), ..i }
            } else {
                i
            },
        ),
        KeyCode::Left => Some(
            if i.before.len() > 0 {
                i.at_char(i.before.len() - 1)
            } else {
                i
            },
        ),
        KeyCode::Right => Some(
            if i.after.len() > 0 {
                i.at_char(i.before.len() as int + 1)
            } else {
                i
            },
        ),
        KeyCode::Home => Some(i.at_char(line_start(i.before))),
        KeyCode::End => Some(i.at_char(i.before.len() + line_len(i.after))),
        KeyCode::Up => Some(moved_up(i)),
        KeyCode::Down => Some(moved_down(i)),
        KeyCode::Char(c) => Some(InputStateView { before: i.before.push(c), ..i }),
        _ => None,
    }
}

// ---------------------------------------------------------------------------
// Laws
// ---------------------------------------------------------------------------

/// Where the last line of a text starts lies within it.
pub proof fn line_start_bound(s: Seq<char>)
    ensures
        0 <= line_start(s) <= s.len(),
        line_start(s) > 0 ==> s[line_start(s) - 1] == '\n',
        forall|j: int| line_start(s) <= j < s.len() ==> s[j] != '\n',
    decreases s.len(),
{
    if s.len() > 0 && s.last() != '\n' {
        line_start_bound(s.drop_last());
        assert forall|j: int| line_start(s) <= j < s.len() implies s[j] != '\n' by {
            if j < s.len() - 1 {
                assert(s.drop_last()[j] == s[j]);
            }
        }
    }
}

/// The first line of a text is no longer than it.
pub proof fn line_len_bound(s: Seq<char>)
    ensures
        0 <= line_len(s) <= s.len(),
        line_len(s) < s.len() ==> s[line_len(s)] == '\n',
        forall|j: int| 0 <= j < line_len(s) ==> s[j] != '\n',
    decreases s.len(),
{
    if s.len() > 0 && s[0] != '\n' {
        line_len_bound(s.drop_first());
        assert forall|j: int| 0 <= j < line_len(s) implies s[j] != '\n' by {
            if j > 0 {
                assert(s.drop_first()[j - 1] == s[j]);
            }
        }
    }
}

/// Moving the cursor and the keys that do so leave the text as it is.
pub proof fn moving_keeps_text(i: InputStateView, code: KeyCode)
    requires
        code == KeyCode::Left || code == KeyCode::Right || code == KeyCode::Home || code
            == KeyCode::End,
    ensures
        edited(i, code)->0.text() == i.text(),
{
    line_start_bound(i.before);
    line_len_bound(i.after);
    assert forall|k: int| 0 <= k <= i.text().len() implies (#[trigger] i.at_char(k)).text()
        == i.text() by {
        assert(i.at_char(k).text() =~= i.text());
    }
    assert(i.text().len() == i.before.len() + i.after.len());
}

/// Deleting a character that was just typed leaves the input as it was.
pub proof fn backspace_undoes_typing(i: InputStateView, c: char)
    ensures
        edited(edited(i, KeyCode::Char(c))->0, KeyCode::Backspace) == Some(i),
{
    assert(i.before.push(c).drop_last() =~= i.before);
}

/// Going into the history and back again shows what stood in the input.
pub proof fn history_gives_draft_back(i: InputStateView)
    requires
        i.history_index is None,
        i.history.len() <= usize::MAX,
    ensures
        recalled_down(recalled_up(i)).text() == i.text(),
        recalled_down(recalled_up(i)).history_index is None,
{
    let back = recalled_down(recalled_up(i));
    if i.history.len() > 0 {
        assert(back.text() =~= i.text());
    }
}

/// The entry of the history that is shown stays one that is there.
pub proof fn history_stays_ok(i: InputStateView, code: KeyCode)
    requires
        i.history_ok(),
    ensures
        recalled_up(i).history_ok(),
        recalled_down(i).history_ok(),
        edited(i, code) is Some ==> (edited(i, code)->0).history_ok(),
{
}

/// A text with its ends of lines made alike holds no carriage return.
pub proof fn normalized_has_no_returns(s: Seq<char>)
    ensures
        forall|j: int| 0 <= j < normalized(s).len() ==> normalized(s)[j] != '\r',
    decreases s.len(),
{
    if s.len() > 0 {
        if s[0] == '\r' && s.len() > 1 && s[1] == '\n' {
            normalized_has_no_returns(s.skip(2));
            assert(normalized(s) == seq!['\n'] + normalized(s.skip(2)));
        } else {
            normalized_has_no_returns(s.skip(1));
            let c = if s[0] == '\r' {
                '\n'
            } else {
                s[0]
            };
            assert(normalized(s) == seq![c] + normalized(s.skip(1)));
        }
    }
}

// ---------------------------------------------------------------------------
// Executable
// ---------------------------------------------------------------------------

fn find_line_start(chars: &Vec<char>, end: usize) -> (r: usize)
    requires
        end <= chars@.len(),
    ensures
        r == line_start(chars@.take(end as int)),
        r <= end,
{
    let mut k: usize = end;
    while k > 0 && chars[k - 1] != '\n'
        invariant
            k <= end <= chars@.len(),
            line_start(chars@.take(end as int)) == line_start(chars@.take(k as int)),
        decreases k,
    {
        assert(chars@.take(k as int).drop_last() =~= chars@.take(k - 1));
        k -= 1;
    }
    k
}

fn find_line_len(chars: &Vec<char>, start: usize) -> (r: usize)
    requires
        start <= chars@.len(),
    ensures
        r == line_len(chars@.skip(start as int)),
        start + r <= chars@.len(),
{
    let mut k: usize = 0;
    while start + k < chars.len() && chars[start + k] != '\n'
        invariant
            start + k <= chars.len(),
            line_len(chars@.skip(start as int)) == k + line_len(chars@.skip(start + k)),
        decreases chars@.len() - start - k,
    {
        assert(chars@.skip(start + k).drop_first() =~= chars@.skip(start + k + 1));
        assert(chars@.skip(start + k)[0] == chars@[start + k]);
        k += 1;
    }
    assert(start + k < chars@.len() ==> chars@.skip(start + k)[0] == chars@[start + k]);
    k
}

impl InputState {
    /// An empty input.
    pub fn new() -> (r: InputState)
        ensures
            r.deep_view() == empty_input(),
    {
        let history: Vec<String> = Vec::new();
        assert(history.deep_view() =~= Seq::<Seq<char>>::empty());
        InputState {
            before: String::new(),
            after: String::new(),
            history,
            history_index: None,
            history_draft: String::new(),
        }
    }

    /// The whole text of the input.
    pub fn buffer(&self) -> (r: String)
        ensures
            r@ == self.deep_view().text(),
    {
        concat2(self.before.as_str(), self.after.as_str())
    }

    /// Where the cursor stands, in bytes.
    pub fn cursor(&self) -> (r: usize)
        ensures
            r == crate::offsets::byte_len(self.deep_view().before),
    {
        text_bytes(self.before.as_str())
    }

    /// Whether the input is empty.
    pub fn is_empty(&self) -> (r: bool)
        ensures
            r == (self.deep_view().text().len() == 0),
    {
        self.before.as_str().is_empty() && self.after.as_str().is_empty()
    }

    /// Puts the cursor behind the first `k` characters.
    pub fn place_cursor(&mut self, k: usize)
        requires
            k <= old(self).deep_view().text().len(),
        ensures
            final(self).deep_view() == old(self).deep_view().at_char(k as int),
    {
        let chars = to_chars(self.buffer().as_str());
        self.before = from_range(&chars, 0, k);
        self.after = from_range(&chars, k, chars.len());
        assert(self.before@ =~= old(self).deep_view().text().take(k as int));
        assert(self.after@ =~= old(self).deep_view().text().skip(k as int));
    }

    /// Shows another text, with the cursor at its end.
    pub fn show(&mut self, text: String)
        ensures
            final(self).deep_view() == old(self).deep_view().showing(text@),
    {
        self.before = text;
        self.after = String::new();
    }

    /// Shows what was submitted before.
    pub fn history_up(&mut self)
        ensures
            final(self).deep_view() == recalled_up(old(self).deep_view()),
    {
        let n = self.history.len();
        let k: usize = match self.history_index {
            None => {
                if n == 0 {
                    return;
                }
                self.history_draft = self.buffer();
                n - 1
            },
            Some(idx) => {
                if idx == 0 || idx > n {
                    return;
                }
                idx - 1
            },
        };
        self.history_index = Some(k);
        let text = self.history[k].clone();
        assert(text@ == self.history.deep_view()[k as int]);
        self.show(text);
    }

    /// Shows what was submitted next.
    pub fn history_down(&mut self)
        ensures
            final(self).deep_view() == recalled_down(old(self).deep_view()),
    {
        match self.history_index {
            None => {},
            Some(idx) => {
                if idx < self.history.len() && idx + 1 < self.history.len() {
                    self.history_index = Some(idx + 1);
                    let text = self.history[idx + 1].clone();
                    assert(text@ == self.history.deep_view()[idx + 1]);
                    self.show(text);
                } else {
                    self.history_index = None;
                    let text = self.history_draft.clone();
                    self.show(text);
                }
            },
        }
    }

    fn line_up(&mut self)
        ensures
            final(self).deep_view() == moved_up(old(self).deep_view()),
    {
        let chars = to_chars(self.before.as_str());
        let n = chars.len();
        assert(chars@.take(n as int) =~= chars@);
        let start = find_line_start(&chars, n);
        if start == 0 {
            self.history_up();
        } else {
            let q = find_line_start(&chars, start - 1);
            proof {
                line_start_bound(self.before@.take(start - 1));
            }
            let room = start - 1 - q;
            let col = n - start;
            let k = if col <= room {
                q + col
            } else {
                q + room
            };
            self.place_cursor(k);
        }
    }

    fn line_down(&mut self)
        ensures
            final(self).deep_view() == moved_down(old(self).deep_view()),
    {
        let before = to_chars(self.before.as_str());
        let after = to_chars(self.after.as_str());
        let all = to_chars(self.buffer().as_str());
        let n = before.len();
        assert(before@.take(n as int) =~= before@);
        assert(after@.skip(0) =~= after@);
        let start = find_line_start(&before, n);
        let rest = find_line_len(&after, 0);
        if rest == after.len() {
            self.history_down();
        } else {
            let room = find_line_len(&after, rest + 1);
            let col = n - start;
            assert(all.len() == n + after.len());
            let step = if col <= room {
                col
            } else {
                room
            };
            self.place_cursor(n + rest + 1 + step);
        }
    }

    fn to_line_start(&mut self)
        ensures
            final(self).deep_view() == old(self).deep_view().at_char(
                line_start(old(self).deep_view().before),
            ),
    {
        let chars = to_chars(self.before.as_str());
        assert(chars@.take(chars@.len() as int) =~= chars@);
        let start = find_line_start(&chars, chars.len());
        self.place_cursor(start);
    }

    fn to_line_end(&mut self)
        ensures
            final(self).deep_view() == old(self).deep_view().at_char(
                old(self).deep_view().before.len() + line_len(old(self).deep_view().after),
            ),
    {
        let n = to_chars(self.before.as_str()).len();
        let after = to_chars(self.after.as_str());
        let all = to_chars(self.buffer().as_str());
        assert(after@.skip(0) =~= after@);
        let rest = find_line_len(&after, 0);
        assert(all.len() == n + after.len());
        self.place_cursor(n + rest);
    }

    /// Handles a key that edits the input or moves the cursor. Says whether the
    /// key does either.
    pub fn edit(&mut self, code: KeyCode) -> (r: bool)
        ensures
            r == (edited(old(self).deep_view(), code) is Some),
            final(self).deep_view() == match edited(old(self).deep_view(), code) {
                Some(i) => i,
                None => old(self).deep_view(),
            },
    {
        match code {
            KeyCode::Backspace => {
                let _ = self.before.pop();
                true
            },
            KeyCode::Delete => {
                if !self.after.as_str().is_empty() {
                    let chars = to_chars(self.after.as_str());
                    self.after = from_range(&chars, 1, chars.len());
                    assert(self.after@ =~= old(self).after@.drop_first());
                }
                true
            },
            KeyCode::Left => {
                let n = to_chars(self.before.as_str()).len();
                if n > 0 {
                    self.place_cursor(n - 1);
                }
                true
            },
            KeyCode::Right => {
                let n = to_chars(self.before.as_str()).len();
                if !self.after.as_str().is_empty() {
                    let all = to_chars(self.buffer().as_str());
                    assert(all.len() == n + self.after@.len());
                    self.place_cursor(n + 1);
                }
                true
            },
            KeyCode::Home => {
                self.to_line_start();
                true
            },
            KeyCode::End => {
                self.to_line_end();
                true
            },
            KeyCode::Up => {
                self.line_up();
                true
            },
            KeyCode::Down => {
                self.line_down();
                true
            },
            KeyCode::Char(c) => {
                self.before.push(c);
                true
            },
            _ => false,
        }
    }

    /// Deletes the word before the cursor, and the spaces between.
    pub fn delete_word_back(&mut self)
        ensures
            final(self).deep_view() == (InputStateView {
                before: without_word(old(self).deep_view().before),
                ..old(self).deep_view()
            }),
    {
        let chars = to_chars(self.before.as_str());
        let ghost s = chars@;
        let mut k: usize = chars.len();
        assert(s.take(k as int) =~= s);
        while k > 0 && chars[k - 1].is_whitespace()
            invariant
                s == chars@,
                k <= s.len(),
                drop_white(s) == drop_white(s.take(k as int)),
            decreases k,
        {
            assert(s.take(k as int).drop_last() =~= s.take(k - 1));
            k -= 1;
        }
        let ghost mid = s.take(k as int);
        while k > 0 && !chars[k - 1].is_whitespace()
            invariant
                s == chars@,
                k <= s.len(),
                without_letters(mid) == without_letters(s.take(k as int)),
            decreases k,
        {
            assert(s.take(k as int).drop_last() =~= s.take(k - 1));
            k -= 1;
        }
        self.before = from_range(&chars, 0, k);
        assert(self.before@ =~= s.take(k as int));
    }

    /// Deletes from the cursor to the end of the line.
    pub fn delete_to_line_end(&mut self)
        ensures
            final(self).deep_view() == (InputStateView {
                after: old(self).deep_view().after.skip(line_len(old(self).deep_view().after)),
                ..old(self).deep_view()
            }),
    {
        let chars = to_chars(self.after.as_str());
        assert(chars@.skip(0) =~= chars@);
        let rest = find_line_len(&chars, 0);
        self.after = from_range(&chars, rest, chars.len());
        assert(self.after@ =~= old(self).after@.skip(rest as int));
    }

    /// How many lines the input has.
    pub fn line_count(&self) -> (r: usize)
        ensures
            r == at_most_max(breaks(self.deep_view().text()) + 1),
    {
        count_breaks(self.buffer().as_str()).saturating_add(1)
    }

    /// The line and the column of the cursor, in characters.
    pub fn line_col(&self) -> (r: (usize, usize))
        ensures
            r.0 == breaks(self.deep_view().before),
            r.1 == self.deep_view().before.len() - line_start(self.deep_view().before),
    {
        let chars = to_chars(self.before.as_str());
        assert(chars@.take(chars@.len() as int) =~= chars@);
        let start = find_line_start(&chars, chars.len());
        (count_breaks(self.before.as_str()), chars.len() - start)
    }
}

/// The input with nothing in it.
pub open spec fn empty_input() -> InputStateView {
    InputStateView {
        before: Seq::empty(),
        after: Seq::empty(),
        history: Seq::empty(),
        history_index: None,
        history_draft: Seq::empty(),
    }
}

fn count_breaks(s: &str) -> (r: usize)
    ensures
        r == breaks(s@),
{
    let chars = to_chars(s);
    let mut r: usize = 0;
    let mut i: usize = 0;
    assert(s@.take(0) =~= Seq::<char>::empty());
    while i < chars.len()
        invariant
            chars@ == s@,
            i <= chars@.len(),
            r <= i,
            r == breaks(s@.take(i as int)),
        decreases chars@.len() - i,
    {
        assert(s@.take(i + 1).drop_last() =~= s@.take(i as int));
        if chars[i] == '\n' {
            r += 1;
        }
        i += 1;
    }
    assert(s@.take(s@.len() as int) =~= s@);
    r
}

/// Makes the ends of lines of a text alike.
pub fn normalize_lines(s: &str) -> (r: String)
    ensures
        r@ == normalized(s@),
{
    let chars = to_chars(s);
    let mut out = String::new();
    let mut i: usize = 0;
    assert(s@.skip(0) =~= s@);
    assert(Seq::<char>::empty() + normalized(s@) =~= normalized(s@));
    while i < chars.len()
        invariant
            chars@ == s@,
            i <= chars@.len(),
            normalized(s@) == out@ + normalized(s@.skip(i as int)),
        decreases chars@.len() - i,
    {
        let ghost rest = s@.skip(i as int);
        let ghost before = out@;
        let c = chars[i];
        assert(rest[0] == c);
        if c == '\r' && i + 1 < chars.len() && chars[i + 1] == '\n' {
            out.push('\n');
            assert(rest.skip(2) =~= s@.skip(i + 2));
            i += 2;
        } else {
            out.push(if c == '\r' {
                '\n'
            } else {
                c
            });
            assert(rest.skip(1) =~= s@.skip(i + 1));
            i += 1;
        }
        assert(out@ + normalized(s@.skip(i as int)) =~= before + normalized(rest));
    }
    assert(out@ + normalized(s@.skip(i as int)) =~= out@);
    out
}

// ---------------------------------------------------------------------------
// The state
// ---------------------------------------------------------------------------

/// The state with another input.
pub open spec fn with_input(a: AppView, input: InputStateView) -> AppView {
    AppView { input, ..a }
}

/// The state after a key that edits the input. At the start of the input, the
/// backspace key takes back an attachment.
pub open spec fn input_edited(a: AppView, code: KeyCode) -> AppView {
    if code == KeyCode::Backspace && a.input.before.len() == 0 {
        AppView { pending: PendingStateView { attachment: None, ..a.pending }, ..a }
    } else {
        match edited(a.input, code) {
            Some(i) => with_input(a, i),
            None => a,
        }
    }
}

impl App {
    /// Shows what was submitted before.
    pub fn history_up(&mut self)
        ensures
            final(self).state() == with_input(
                old(self).state(),
                recalled_up(old(self).state().input),
            ),
    {
        reveal(App::state);
        self.input.history_up();
    }

    /// Shows what was submitted next.
    pub fn history_down(&mut self)
        ensures
            final(self).state() == with_input(
                old(self).state(),
                recalled_down(old(self).state().input),
            ),
    {
        reveal(App::state);
        self.input.history_down();
    }

    /// Handles a key that edits the input or moves the cursor. Says whether the
    /// key does either.
    pub fn apply_input_edit(&mut self, key_code: KeyCode) -> (r: bool)
        ensures
            final(self).state() == input_edited(old(self).state(), key_code),
            r == (edited(old(self).state().input, key_code) is Some),
    {
        reveal(App::state);
        if key_code == KeyCode::Backspace && self.input.before.as_str().is_empty() {
            self.pending.attachment = None;
            return true;
        }
        self.input.edit(key_code)
    }

    /// How many lines the input has.
    pub fn input_line_count(&self) -> (r: usize)
        ensures
            r == at_most_max(breaks(self.state().input.text()) + 1),
    {
        reveal(App::state);
        self.input.line_count()
    }

    /// The line and the column of the cursor, in characters.
    pub fn cursor_line_col(&self) -> (r: (usize, usize))
        ensures
            r.0 == breaks(self.state().input.before),
            r.1 == self.state().input.before.len() - line_start(self.state().input.before),
    {
        reveal(App::state);
        self.input.line_col()
    }

    /// Shows a text in the input, with the cursor at its end.
    pub fn show_input(&mut self, text: String)
        ensures
            final(self).state() == with_input(
                old(self).state(),
                old(self).state().input.showing(text@),
            ),
    {
        reveal(App::state);
        self.input.show(text);
    }

    /// Puts a text into the input at the cursor.
    pub fn insert_text(&mut self, text: &str)
        ensures
            final(self).state() == with_input(
                old(self).state(),
                InputStateView {
                    before: old(self).state().input.before + text@,
                    ..old(self).state().input
                },
            ),
    {
        reveal(App::state);
        push_text(&mut self.input.before, text);
    }
}

} // verus!
