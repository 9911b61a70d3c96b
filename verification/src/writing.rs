//! What is promised of writing in the input.
use crate::app::{AppView, InputMode, InputStateView};
use crate::composer::{input_edited, line_len, line_start, without_letters, without_word};
use crate::keybindings::KeyAction;
use crate::keypress::{
    char_cut, cursor_action, insert_action, letters_len, line_broken, normal_edit, whites_len,
};
use crate::keys::KeyCode;
use crate::text::{drop_white, is_white};
use vstd::prelude::*;

verus! {

/// The text of an input, and where its cursor stands in it.
pub open spec fn stands(i: InputStateView, text: Seq<char>, cursor: int) -> bool {
    0 <= cursor <= text.len() && i.before == text.take(cursor) && i.after == text.skip(cursor)
}

/// The whole text of an input.
pub open spec fn whole(i: InputStateView) -> Seq<char> {
    i.before + i.after
}

/// A character goes in where the cursor is, and the cursor behind it. Backspace takes
/// the one before the cursor, Delete the one behind it. Left and Right move the
/// cursor by one and change no text. Nothing else changes; with nothing to take or no
/// way to go nothing changes in the text.
pub proof fn keys_write_at_the_cursor(a: AppView, c: char)
    ensures
        ({
            let i = a.input;
            let n = i.before.len() as int;
            let typed = input_edited(a, KeyCode::Char(c)).input;
            let back = input_edited(a, KeyCode::Backspace).input;
            let gone = input_edited(a, KeyCode::Delete).input;
            let left = input_edited(a, KeyCode::Left).input;
            let right = input_edited(a, KeyCode::Right).input;
            &&& whole(typed) == whole(i).insert(n, c) && stands(typed, whole(typed), n + 1)
            &&& n > 0 ==> whole(back) == whole(i).remove(n - 1) && stands(back, whole(back), n - 1)
            &&& n == 0 ==> back == i
            &&& i.after.len() > 0 ==> whole(gone) == whole(i).remove(n) && stands(
                gone,
                whole(gone),
                n,
            )
            &&& i.after.len() == 0 ==> gone == i
            &&& n > 0 ==> stands(left, whole(i), n - 1)
            &&& n == 0 ==> left == i
            &&& i.after.len() > 0 ==> stands(right, whole(i), n + 1)
            &&& i.after.len() == 0 ==> right == i
            &&& typed.history == i.history && back.history == i.history && left.history == i.history
            &&& input_edited(a, KeyCode::Char(c)).store == a.store
        }),
{
    let i = a.input;
    let n = i.before.len() as int;
    let w = whole(i);
    let typed = input_edited(a, KeyCode::Char(c)).input;
    let back = input_edited(a, KeyCode::Backspace).input;
    let gone = input_edited(a, KeyCode::Delete).input;
    assert(whole(typed) =~= w.insert(n, c));
    assert(typed.before =~= whole(typed).take(n + 1) && typed.after =~= whole(typed).skip(n + 1));
    if n > 0 {
        assert(whole(back) =~= w.remove(n - 1));
        assert(back.before =~= whole(back).take(n - 1) && back.after =~= whole(back).skip(n - 1));
    }
    if i.after.len() > 0 {
        assert(whole(gone) =~= w.remove(n));
        assert(gone.before =~= whole(gone).take(n) && gone.after =~= whole(gone).skip(n));
    }
}

/// Backspace at the beginning of the input drops the file that was to be attached;
/// no other key does.
pub proof fn backspace_drops_the_attachment(a: AppView, code: KeyCode)
    ensures
        code == KeyCode::Backspace && a.input.before.len() == 0 ==> input_edited(
            a,
            code,
        ).pending.attachment is None,
        !(code == KeyCode::Backspace && a.input.before.len() == 0) ==> input_edited(
            a,
            code,
        ).pending == a.pending,
{
}

/// A place is where the last line of a text begins.
pub open spec fn begins_line(s: Seq<char>, p: int) -> bool {
    &&& 0 <= p <= s.len()
    &&& p == 0 || s[p - 1] == '\n'
    &&& forall|j: int| p <= j < s.len() ==> #[trigger] s[j] != '\n'
}

/// A place is where the first line of a text ends.
pub open spec fn ends_line(s: Seq<char>, p: int) -> bool {
    &&& 0 <= p <= s.len()
    &&& p == s.len() || s[p] == '\n'
    &&& forall|j: int| 0 <= j < p ==> #[trigger] s[j] != '\n'
}

proof fn line_begins(s: Seq<char>)
    ensures
        begins_line(s, line_start(s)),
    decreases s.len(),
{
    if s.len() > 0 && s.last() != '\n' {
        let t = s.drop_last();
        line_begins(t);
        let p = line_start(t);
        assert forall|j: int| p <= j < s.len() implies #[trigger] s[j] != '\n' by {
            if j < t.len() {
                assert(t[j] != '\n');
            }
        }
    }
}

proof fn line_ends(s: Seq<char>)
    ensures
        ends_line(s, line_len(s)),
    decreases s.len(),
{
    if s.len() > 0 && s[0] != '\n' {
        let t = s.drop_first();
        line_ends(t);
        let p = line_len(t);
        assert forall|j: int| 0 <= j < p + 1 implies #[trigger] s[j] != '\n' by {
            if j > 0 {
                assert(t[j - 1] != '\n');
            }
        }
        if p < t.len() {
            assert(s[p + 1] == t[p]);
        }
    }
}

proof fn one_beginning(s: Seq<char>, p: int)
    requires
        begins_line(s, p),
    ensures
        line_start(s) == p,
{
    line_begins(s);
    let q = line_start(s);
    if p < q {
        assert(s[q - 1] != '\n');
    } else if q < p {
        assert(s[p - 1] != '\n');
    }
}

proof fn one_end(s: Seq<char>, p: int)
    requires
        ends_line(s, p),
    ensures
        line_len(s) == p,
{
    line_ends(s);
    let q = line_len(s);
    if p < q {
        assert(s[p] != '\n');
    } else if q < p {
        assert(s[q] != '\n');
    }
}

/// Home goes to the beginning of the line that the cursor is in, End to its end, and
/// the text stays.
pub proof fn home_and_end_stay_in_the_line(a: AppView, p: int, q: int)
    requires
        begins_line(a.input.before, p),
        ends_line(a.input.after, q),
    ensures
        stands(input_edited(a, KeyCode::Home).input, whole(a.input), p),
        stands(input_edited(a, KeyCode::End).input, whole(a.input), a.input.before.len() + q),
{
    one_beginning(a.input.before, p);
    one_end(a.input.after, q);
}

/// Up goes to the line above, to the same column or its end where it is shorter; Down
/// to the line below likewise. The text stays.
pub proof fn up_and_down_keep_the_column(a: AppView, p: int, above: int, q: int, below: int)
    requires
        begins_line(a.input.before, p),
        p > 0 ==> begins_line(a.input.before.take(p - 1), above),
        ends_line(a.input.after, q),
        q < a.input.after.len() ==> ends_line(a.input.after.skip(q + 1), below),
    ensures
        ({
            let i = a.input;
            let col = i.before.len() - p;
            let up = input_edited(a, KeyCode::Up).input;
            let down = input_edited(a, KeyCode::Down).input;
            &&& p > 0 ==> stands(
                up,
                whole(i),
                above + (if col <= p - 1 - above {
                    col
                } else {
                    p - 1 - above
                }),
            )
            &&& q < i.after.len() ==> stands(
                down,
                whole(i),
                i.before.len() + q + 1 + (if col <= below {
                    col
                } else {
                    below
                }),
            )
        }),
{
    let i = a.input;
    one_beginning(i.before, p);
    one_end(i.after, q);
    if p > 0 {
        one_beginning(i.before.take(p - 1), above);
    }
    if q < i.after.len() {
        one_end(i.after.skip(q + 1), below);
    }
}

/// Up in the first line shows what was submitted before: first the last of it, then
/// what came before that. Down in the last line goes the other way, and behind the
/// last of it shows what stood in the input. What was submitted stays.
pub proof fn history_is_gone_through(a: AppView)
    requires
        forall|j: int| 0 <= j < a.input.before.len() ==> #[trigger] a.input.before[j] != '\n',
        forall|j: int| 0 <= j < a.input.after.len() ==> #[trigger] a.input.after[j] != '\n',
        a.input.history_index is Some ==> a.input.history_index->0 < a.input.history.len(),
    ensures
        ({
            let i = a.input;
            let n = i.history.len();
            let up = input_edited(a, KeyCode::Up).input;
            let down = input_edited(a, KeyCode::Down).input;
            &&& up.history == i.history && down.history == i.history
            &&& i.history_index is None && n > 0 ==> whole(up) == i.history[n - 1]
                && up.history_index == Some((n - 1) as usize) && up.history_draft == whole(i)
            &&& i.history_index is None && n == 0 ==> up == i
            &&& i.history_index is None ==> down == i
            &&& i.history_index is Some ==> {
                let k = i.history_index->0;
                &&& k > 0 ==> whole(up) == i.history[k - 1] && up.history_index == Some(
                    (k - 1) as usize,
                ) && up.history_draft == i.history_draft
                &&& k == 0 ==> up == i
                &&& k + 1 < n ==> whole(down) == i.history[k + 1] && down.history_index == Some(
                    (k + 1) as usize,
                ) && down.history_draft == i.history_draft
                &&& k + 1 == n ==> whole(down) == i.history_draft && down.history_index is None
            }
        }),
{
    let i = a.input;
    one_beginning(i.before, 0);
    one_end(i.after, i.after.len() as int);
    let up = input_edited(a, KeyCode::Up).input;
    let down = input_edited(a, KeyCode::Down).input;
    assert(up.after.len() == 0 ==> whole(up) =~= up.before);
    assert(down.after.len() == 0 ==> whole(down) =~= down.before);
}

// ---------------------------------------------------------------------------
// Words
// ---------------------------------------------------------------------------

/// A text is made of what comes before a word, the word, and white space behind it.
pub open spec fn word_before(s: Seq<char>, p: int, q: int) -> bool {
    &&& 0 <= p <= q <= s.len()
    &&& p == 0 || is_white(s[p - 1])
    &&& forall|j: int| p <= j < q ==> !is_white(#[trigger] s[j])
    &&& forall|j: int| q <= j < s.len() ==> is_white(#[trigger] s[j])
    &&& q == 0 || !is_white(s[q - 1])
}

proof fn whites_are_dropped(s: Seq<char>) -> (q: int)
    ensures
        0 <= q <= s.len(),
        drop_white(s) == s.take(q),
        forall|j: int| q <= j < s.len() ==> is_white(#[trigger] s[j]),
        q == 0 || !is_white(s[q - 1]),
    decreases s.len(),
{
    if s.len() > 0 && is_white(s.last()) {
        let t = s.drop_last();
        let q = whites_are_dropped(t);
        assert(t.take(q) =~= s.take(q));
        assert forall|j: int| q <= j < s.len() implies is_white(#[trigger] s[j]) by {
            if j < t.len() {
                assert(t[j] == s[j]);
            }
        }
        if q > 0 {
            assert(t[q - 1] == s[q - 1]);
        }
        q
    } else {
        assert(s.take(s.len() as int) =~= s);
        s.len() as int
    }
}

proof fn letters_are_dropped(s: Seq<char>) -> (p: int)
    ensures
        0 <= p <= s.len(),
        without_letters(s) == s.take(p),
        forall|j: int| p <= j < s.len() ==> !is_white(#[trigger] s[j]),
        p == 0 || is_white(s[p - 1]),
    decreases s.len(),
{
    if s.len() > 0 && !is_white(s.last()) {
        let t = s.drop_last();
        let p = letters_are_dropped(t);
        assert(t.take(p) =~= s.take(p));
        assert forall|j: int| p <= j < s.len() implies !is_white(#[trigger] s[j]) by {
            if j < t.len() {
                assert(t[j] == s[j]);
            }
        }
        if p > 0 {
            assert(t[p - 1] == s[p - 1]);
        }
        p
    } else {
        assert(s.take(s.len() as int) =~= s);
        s.len() as int
    }
}

proof fn word_is_dropped(s: Seq<char>) -> (pq: (int, int))
    ensures
        word_before(s, pq.0, pq.1),
        without_word(s) == s.take(pq.0),
{
    let q = whites_are_dropped(s);
    let t = s.take(q);
    let p = letters_are_dropped(t);
    assert(t.take(p) =~= s.take(p));
    assert forall|j: int| p <= j < q implies !is_white(#[trigger] s[j]) by {
        assert(t[j] == s[j]);
    }
    if p > 0 {
        assert(t[p - 1] == s[p - 1]);
    }
    (p, q)
}

/// Going back by a word goes to its beginning and changes no text. Deleting a word
/// takes it, and the white space between it and the cursor, and nothing else.
pub proof fn words_are_gone_back_and_deleted(a: AppView, now_ms: i64, clock_ms: u64) -> (pq: (
    int,
    int,
))
    ensures
        word_before(a.input.before, pq.0, pq.1),
        normal_edit(a, KeyAction::WordBack) is Some,
        stands(normal_edit(a, KeyAction::WordBack)->0.input, whole(a.input), pq.0),
        insert_action(a, KeyAction::DeleteWordBack, now_ms, clock_ms) is Some,
        ({
            let (r, q) = insert_action(a, KeyAction::DeleteWordBack, now_ms, clock_ms)->0;
            q is None && r.input.before == a.input.before.take(pq.0) && r.input.after
                == a.input.after
        }),
{
    let (p, q) = word_is_dropped(a.input.before);
    (p, q)
}

/// A text begins with a word and white space behind it.
pub open spec fn word_behind_is(s: Seq<char>, p: int, q: int) -> bool {
    &&& 0 <= p <= q <= s.len()
    &&& forall|j: int| 0 <= j < p ==> !is_white(#[trigger] s[j])
    &&& forall|j: int| p <= j < q ==> is_white(#[trigger] s[j])
    &&& p == s.len() || is_white(s[p])
    &&& q == s.len() || !is_white(s[q])
}

proof fn letters_count(s: Seq<char>)
    ensures
        0 <= letters_len(s) <= s.len(),
        forall|j: int| 0 <= j < letters_len(s) ==> !is_white(#[trigger] s[j]),
        letters_len(s) == s.len() || is_white(s[letters_len(s)]),
    decreases s.len(),
{
    if s.len() > 0 && !is_white(s[0]) {
        let t = s.skip(1);
        letters_count(t);
        assert forall|j: int| 0 <= j < letters_len(s) implies !is_white(#[trigger] s[j]) by {
            if j > 0 {
                assert(t[j - 1] == s[j]);
            }
        }
    }
}

proof fn whites_count(s: Seq<char>)
    ensures
        0 <= whites_len(s) <= s.len(),
        forall|j: int| 0 <= j < whites_len(s) ==> is_white(#[trigger] s[j]),
        whites_len(s) == s.len() || !is_white(s[whites_len(s)]),
    decreases s.len(),
{
    if s.len() > 0 && is_white(s[0]) {
        let t = s.skip(1);
        whites_count(t);
        assert forall|j: int| 0 <= j < whites_len(s) implies is_white(#[trigger] s[j]) by {
            if j > 0 {
                assert(t[j - 1] == s[j]);
            }
        }
    }
}

/// Going on by a word goes behind it and the white space that follows, and changes no
/// text.
pub proof fn words_are_gone_on(a: AppView) -> (pq: (int, int))
    ensures
        word_behind_is(a.input.after, pq.0, pq.1),
        normal_edit(a, KeyAction::WordForward) is Some,
        stands(
            normal_edit(a, KeyAction::WordForward)->0.input,
            whole(a.input),
            a.input.before.len() + pq.1,
        ),
{
    let s = a.input.after;
    letters_count(s);
    let p = letters_len(s);
    whites_count(s.skip(p));
    let w = whites_len(s.skip(p));
    assert forall|j: int| p <= j < p + w implies is_white(#[trigger] s[j]) by {
        assert(s.skip(p)[j - p] == s[j]);
    }
    if p + w < s.len() {
        assert(s.skip(p)[w] == s[p + w]);
    }
    (p, p + w)
}

// ---------------------------------------------------------------------------
// Actions
// ---------------------------------------------------------------------------

/// In normal mode `x` takes the character under the cursor, `D` the rest of the line,
/// and clearing takes all; the insert actions go into insert mode where they say:
/// here, behind the character, at the beginning of the line, at its end, or in an
/// empty input.
pub proof fn actions_write(a: AppView, p: int, q: int)
    requires
        begins_line(a.input.before, p),
        ends_line(a.input.after, q),
    ensures
        ({
            let i = a.input;
            let n = i.before.len() as int;
            let cut = normal_edit(a, KeyAction::DeleteChar)->0.input;
            let rest = cursor_action(a, KeyAction::DeleteToEnd)->0.input;
            let clear = normal_edit(a, KeyAction::ClearInput)->0;
            let here = normal_edit(a, KeyAction::InsertAtCursor)->0;
            let after = normal_edit(a, KeyAction::InsertAfterCursor)->0;
            let start = normal_edit(a, KeyAction::InsertLineStart)->0;
            let end = normal_edit(a, KeyAction::InsertLineEnd)->0;
            let open = normal_edit(a, KeyAction::OpenLineBelow)->0;
            &&& i.after.len() > 0 ==> whole(cut) == whole(i).remove(n)
            &&& i.after.len() == 0 ==> cut == i
            &&& rest.before == i.before && rest.after == i.after.skip(q)
            &&& whole(clear.input).len() == 0
            &&& whole(i).len() > 0 ==> clear.autocomplete.pending_mentions.len() == 0
            &&& here.mode == InputMode::Insert && here.input == i
            &&& after.mode == InputMode::Insert && whole(after.input) == whole(i)
                && after.input.before.len() == if i.after.len() > 0 {
                n + 1
            } else {
                n
            }
            &&& start.mode == InputMode::Insert && stands(start.input, whole(i), p)
            &&& end.mode == InputMode::Insert && stands(end.input, whole(i), n + q)
            &&& open.mode == InputMode::Insert && whole(open.input).len() == 0
        }),
{
    let i = a.input;
    let n = i.before.len() as int;
    one_beginning(i.before, p);
    one_end(i.after, q);
    if i.after.len() > 0 {
        let cut = char_cut(i);
        let j = InputStateView { after: i.after.drop_first(), ..i };
        assert(j.before + j.after =~= whole(i).remove(n));
        assert(whole(cut) =~= whole(i).remove(n));
    }
    let after = normal_edit(a, KeyAction::InsertAfterCursor)->0;
    assert(whole(after.input) =~= whole(i));
    assert(i.text() == whole(i));
}

/// A line break goes in where the cursor is.
pub proof fn line_breaks_go_in(a: AppView, clock_ms: u64)
    ensures
        line_broken(a, clock_ms).0.input.before == a.input.before.push('\n'),
        line_broken(a, clock_ms).0.input.after == a.input.after,
{
}

} // verus!
