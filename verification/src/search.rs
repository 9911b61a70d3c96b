//! Searching messages, and jumping to one.
use crate::actions::selected;
use crate::app::{
    App, AppView, Effect, EffectView, InputMode, Overlay, ScrollStateView, SearchResult,
    SearchResultView, SearchState, SearchStateView,
};
use crate::common::{clamp_index, clamped, popped, step_up};
use crate::conversation_store::{find_message, msg_at, DisplayMessageView};
use crate::keys::KeyCode;
use crate::navigation::joined;
use crate::text::{concat3, decimal, format_usize, same};
use vstd::prelude::*;

verus! {

/// What a search asks its caller to do.
#[derive(Debug)]
pub enum SearchAction {
    /// Jump to a message.
    Select { conv_id: String, timestamp_ms: i64, status: Option<String> },
    /// Show a status.
    Status(String),
    /// Close the search.
    Cancel,
    /// Search for what the query says now.
    Run,
    /// Nothing.
    Nothing,
}

/// What a [`SearchAction`] stands for.
pub enum SearchActionView {
    Select { conv_id: Seq<char>, timestamp_ms: i64, status: Option<Seq<char>> },
    Status(Seq<char>),
    Cancel,
    Run,
    Nothing,
}

impl DeepView for SearchAction {
    type V = SearchActionView;

    open spec fn deep_view(&self) -> SearchActionView {
        match self {
            SearchAction::Select { conv_id, timestamp_ms, status } => SearchActionView::Select {
                conv_id: conv_id@,
                timestamp_ms: *timestamp_ms,
                status: status.deep_view(),
            },
            SearchAction::Status(s) => SearchActionView::Status(s@),
            SearchAction::Cancel => SearchActionView::Cancel,
            SearchAction::Run => SearchActionView::Run,
            SearchAction::Nothing => SearchActionView::Nothing,
        }
    }
}

// ---------------------------------------------------------------------------
// The search
// ---------------------------------------------------------------------------

/// A search before it is run, and whether it has to be: one without a query
/// finds nothing.
pub open spec fn search_run(s: SearchStateView) -> (SearchStateView, SearchActionView) {
    if s.query.len() == 0 {
        (SearchStateView { results: Seq::empty(), index: 0, ..s }, SearchActionView::Nothing)
    } else {
        (s, SearchActionView::Run)
    }
}

/// A search with what it found.
pub open spec fn search_found(
    s: SearchStateView,
    results: Seq<SearchResultView>,
) -> SearchStateView {
    SearchStateView { results, index: clamped(s.index, results.len()), ..s }
}

/// A search after a key, and what its caller is to do. At the last result the
/// letter that steps down is part of the query.
pub open spec fn search_key(s: SearchStateView, code: KeyCode) -> (
    SearchStateView,
    SearchActionView,
) {
    let below = s.index + 1 < s.results.len();
    match code {
        KeyCode::Down => (
            if below {
                SearchStateView { index: (s.index + 1) as usize, ..s }
            } else {
                s
            },
            SearchActionView::Nothing,
        ),
        KeyCode::Up | KeyCode::Char('k') => (
            SearchStateView { index: step_up(s.index), ..s },
            SearchActionView::Nothing,
        ),
        KeyCode::Enter => (
            s,
            if s.index < s.results.len() {
                SearchActionView::Select {
                    conv_id: s.results[s.index as int].conv_id,
                    timestamp_ms: s.results[s.index as int].timestamp_ms,
                    status: None,
                }
            } else {
                SearchActionView::Nothing
            },
        ),
        KeyCode::Esc => (
            SearchStateView { query: Seq::empty(), ..s },
            SearchActionView::Cancel,
        ),
        KeyCode::Backspace => if s.query.len() > 0 {
            search_run(SearchStateView { query: popped(s.query), ..s })
        } else {
            (s, SearchActionView::Nothing)
        },
        KeyCode::Char(c) => if c == 'j' && below {
            (SearchStateView { index: (s.index + 1) as usize, ..s }, SearchActionView::Nothing)
        } else {
            search_run(SearchStateView { query: s.query.push(c), ..s })
        },
        _ => (s, SearchActionView::Nothing),
    }
}

/// The places among the first `n` results that are in a conversation.
pub open spec fn hits(r: Seq<SearchResultView>, id: Seq<char>, n: int) -> Seq<usize>
    decreases n,
{
    if n <= 0 {
        Seq::empty()
    } else if r[n - 1].conv_id == id {
        hits(r, id, n - 1).push((n - 1) as usize)
    } else {
        hits(r, id, n - 1)
    }
}

/// The first place from `i` on of a number in a list, or the length of the list.
pub open spec fn place_in(s: Seq<usize>, x: usize, i: int) -> int
    decreases s.len() - i,
{
    if i < 0 || i >= s.len() {
        s.len() as int
    } else if s[i] == x {
        i
    } else {
        place_in(s, x, i + 1)
    }
}

/// The place in a list behind one, or before it. The list is a ring.
pub open spec fn ring_step(p: int, len: nat, forward: bool) -> int {
    if forward {
        if p + 1 < len {
            p + 1
        } else {
            0
        }
    } else if p > 0 {
        p - 1
    } else {
        len - 1
    }
}

/// The result next to the selected one in a conversation, or its first one where
/// none is selected.
pub open spec fn next_hit(h: Seq<usize>, index: usize, forward: bool) -> int {
    let p = place_in(h, index, 0);
    if p < h.len() {
        ring_step(p, h.len(), forward)
    } else {
        0
    }
}

/// A search after a step to the next result in a conversation, and what its
/// caller is to do.
pub open spec fn search_stepped(
    s: SearchStateView,
    forward: bool,
    active: Option<Seq<char>>,
) -> (SearchStateView, SearchActionView) {
    match active {
        Some(id) => {
            let h = hits(s.results, id, s.results.len() as int);
            if h.len() == 0 {
                (s, SearchActionView::Status("no matches in this conversation"@))
            } else {
                let n = next_hit(h, s.index, forward);
                let i = h[n];
                (
                    SearchStateView { index: i, ..s },
                    SearchActionView::Select {
                        conv_id: s.results[i as int].conv_id,
                        timestamp_ms: s.results[i as int].timestamp_ms,
                        status: Some(
                            "match "@ + decimal((n + 1) as nat) + "/"@ + decimal(h.len())
                                + " for \""@ + s.query + "\""@,
                        ),
                    },
                )
            }
        },
        None => (s, SearchActionView::Nothing),
    }
}

/// What the places of results are.
pub proof fn hits_are(r: Seq<SearchResultView>, id: Seq<char>, n: int)
    requires
        0 <= n <= r.len(),
        n <= usize::MAX,
    ensures
        forall|k: int|
            0 <= k < hits(r, id, n).len() ==> (#[trigger] hits(r, id, n)[k]) < n
                && r[hits(r, id, n)[k] as int].conv_id == id,
        forall|j: int, k: int|
            0 <= j < k < hits(r, id, n).len() ==> (#[trigger] hits(r, id, n)[j])
                < (#[trigger] hits(r, id, n)[k]),
        hits(r, id, n).len() <= n,
    decreases n,
{
    if n > 0 {
        hits_are(r, id, n - 1);
    }
}

/// What `place_in` finds.
pub proof fn place_in_finds(s: Seq<usize>, x: usize, i: int)
    requires
        0 <= i <= s.len(),
    ensures
        i <= place_in(s, x, i) <= s.len(),
        place_in(s, x, i) < s.len() ==> s[place_in(s, x, i)] == x,
        forall|j: int| i <= j < place_in(s, x, i) ==> s[j] != x,
    decreases s.len() - i,
{
    if i < s.len() && s[i] != x {
        place_in_finds(s, x, i + 1);
    }
}

/// Steps among the results of a conversation stay within it, and a step back
/// takes a step forward back, also past the ends.
pub proof fn search_steps_come_back(s: SearchStateView, id: Seq<char>, forward: bool)
    requires
        s.results.len() <= usize::MAX,
        s.index < s.results.len(),
        s.results[s.index as int].conv_id == id,
    ensures
        ({
            let (t, _) = search_stepped(s, forward, Some(id));
            let (u, _) = search_stepped(t, !forward, Some(id));
            t.index < s.results.len() && s.results[t.index as int].conv_id == id && u == s
        }),
{
    let h = hits(s.results, id, s.results.len() as int);
    hits_are(s.results, id, s.results.len() as int);
    hits_hold(s.results, id, s.results.len() as int, s.index as int);
    let p = place_in(h, s.index, 0);
    place_in_finds(h, s.index, 0);
    let w = choose|k: int| 0 <= k < h.len() && h[k] == s.index;
    assert(p < h.len());
    let n = ring_step(p, h.len(), forward);
    place_in_finds(h, h[n], 0);
    let q = place_in(h, h[n], 0);
    assert(q == n) by {
        if q < n {
            assert(h[q] < h[n]);
        }
    }
    assert(ring_step(n, h.len(), !forward) == p);
}

/// A search after `k` steps among the results of a conversation.
pub open spec fn search_walked(
    s: SearchStateView,
    forward: bool,
    id: Seq<char>,
    k: nat,
) -> SearchStateView
    decreases k,
{
    if k == 0 {
        s
    } else {
        search_stepped(search_walked(s, forward, id, (k - 1) as nat), forward, Some(id)).0
    }
}

/// The place in a ring `k` steps behind one, or before it.
spec fn ring_walk(p: int, len: nat, forward: bool, k: int) -> int {
    if forward {
        if p + k < len {
            p + k
        } else {
            p + k - len
        }
    } else if p >= k {
        p - k
    } else {
        p - k + len
    }
}

proof fn walk_is_in_ring(s: SearchStateView, forward: bool, id: Seq<char>, k: nat)
    requires
        s.results.len() <= usize::MAX,
        1 <= k <= hits(s.results, id, s.results.len() as int).len(),
    ensures
        ({
            let h = hits(s.results, id, s.results.len() as int);
            let p = next_hit(h, s.index, forward);
            0 <= p < h.len() && search_walked(s, forward, id, k) == (SearchStateView {
                index: h[ring_walk(p, h.len(), forward, k - 1)],
                ..s
            })
        }),
    decreases k,
{
    let h = hits(s.results, id, s.results.len() as int);
    let p = next_hit(h, s.index, forward);
    hits_are(s.results, id, s.results.len() as int);
    place_in_finds(h, s.index, 0);
    let before = search_walked(s, forward, id, (k - 1) as nat);
    assert(search_walked(s, forward, id, k) == search_stepped(before, forward, Some(id)).0);
    if k == 1 {
        assert(before == s);
    } else {
        walk_is_in_ring(s, forward, id, (k - 1) as nat);
        let n = ring_walk(p, h.len(), forward, k - 2);
        place_in_finds(h, h[n], 0);
        let q = place_in(h, h[n], 0);
        assert(q == n) by {
            if q < n {
                assert(h[q] < h[n]);
            }
        }
        assert(ring_step(n, h.len(), forward) == ring_walk(p, h.len(), forward, k - 1));
    }
}

/// As many steps as a conversation has results stay within it, go to no result
/// twice, and go to every one of them, in either direction and wherever the search
/// stands.
pub proof fn search_steps_visit_each_once(s: SearchStateView, forward: bool, id: Seq<char>)
    requires
        s.results.len() <= usize::MAX,
    ensures
        ({
            let n = hits(s.results, id, s.results.len() as int).len();
            &&& forall|k: nat|
                1 <= k <= n ==> (#[trigger] search_walked(s, forward, id, k)).index
                    < s.results.len() && s.results[search_walked(
                    s,
                    forward,
                    id,
                    k,
                ).index as int].conv_id == id
            &&& forall|j: nat, k: nat|
                1 <= j < k <= n ==> (#[trigger] search_walked(s, forward, id, j)).index != (
                #[trigger] search_walked(s, forward, id, k)).index
            &&& forall|i: int|
                0 <= i < s.results.len() && (#[trigger] s.results[i]).conv_id == id ==> exists|
                    k: nat,
                |
                    1 <= k <= n && (#[trigger] search_walked(s, forward, id, k)).index == i
        }),
{
    let h = hits(s.results, id, s.results.len() as int);
    let n = h.len();
    let p = next_hit(h, s.index, forward);
    hits_are(s.results, id, s.results.len() as int);
    assert forall|k: nat| 1 <= k <= n implies (#[trigger] search_walked(
        s,
        forward,
        id,
        k,
    )).index < s.results.len() && s.results[search_walked(s, forward, id, k).index as int].conv_id
        == id by {
        walk_is_in_ring(s, forward, id, k);
    }
    assert forall|j: nat, k: nat| 1 <= j < k <= n implies (#[trigger] search_walked(
        s,
        forward,
        id,
        j,
    )).index != (#[trigger] search_walked(s, forward, id, k)).index by {
        walk_is_in_ring(s, forward, id, j);
        walk_is_in_ring(s, forward, id, k);
        let a = ring_walk(p, n, forward, j - 1);
        let b = ring_walk(p, n, forward, k - 1);
        assert(a != b);
        assert(a < b ==> h[a] < h[b]);
        assert(b < a ==> h[b] < h[a]);
    }
    assert forall|i: int|
        0 <= i < s.results.len() && (#[trigger] s.results[i]).conv_id == id implies exists|k: nat|
        1 <= k <= n && (#[trigger] search_walked(s, forward, id, k)).index == i by {
        hits_hold(s.results, id, s.results.len() as int, i);
        let m = choose|m: int| 0 <= m < h.len() && h[m] == i;
        walk_is_in_ring(s, forward, id, 1);
        let away = if forward {
            m - p
        } else {
            p - m
        };
        let k = (if away >= 0 {
            away + 1
        } else {
            away + n + 1
        }) as nat;
        walk_is_in_ring(s, forward, id, k);
        assert(search_walked(s, forward, id, k).index == i);
    }
}

proof fn hits_hold(r: Seq<SearchResultView>, id: Seq<char>, n: int, i: int)
    requires
        0 <= i < n <= r.len(),
        n <= usize::MAX,
        r[i].conv_id == id,
    ensures
        exists|k: int| 0 <= k < hits(r, id, n).len() && hits(r, id, n)[k] == i,
    decreases n,
{
    let h = hits(r, id, n);
    let before = hits(r, id, n - 1);
    if i == n - 1 {
        assert(h[before.len() as int] == i);
    } else {
        hits_hold(r, id, n - 1, i);
        let k = choose|k: int| 0 <= k < before.len() && before[k] == i;
        assert(h[k] == i);
    }
}

impl Default for SearchState {
    fn default() -> (r: SearchState)
        ensures
            r.deep_view() == (SearchStateView {
                query: Seq::empty(),
                results: Seq::empty(),
                index: 0,
            }),
    {
        let query = String::new();
        let results: Vec<SearchResult> = Vec::new();
        assert(query@ =~= Seq::<char>::empty());
        assert(results.deep_view() =~= Seq::<SearchResultView>::empty());
        SearchState { query, results, index: 0 }
    }
}

impl SearchState {
    /// Begins a search. Says whether it has to be run.
    pub fn open(&mut self, query: String) -> (r: SearchAction)
        ensures
            (final(self).deep_view(), r.deep_view()) == search_run(
                SearchStateView { query: query@, index: 0, ..old(self).deep_view() },
            ),
    {
        self.query = query;
        self.index = 0;
        self.run()
    }

    /// Asks for the search to be run. One without a query finds nothing.
    pub fn run(&mut self) -> (r: SearchAction)
        ensures
            (final(self).deep_view(), r.deep_view()) == search_run(old(self).deep_view()),
    {
        if self.query.as_str().is_empty() {
            self.results = Vec::new();
            self.index = 0;
            assert(self.results.deep_view() =~= Seq::<SearchResultView>::empty());
            SearchAction::Nothing
        } else {
            SearchAction::Run
        }
    }

    /// Takes what the search found.
    pub fn found(&mut self, results: Vec<SearchResult>)
        ensures
            final(self).deep_view() == search_found(old(self).deep_view(), results.deep_view()),
    {
        self.index = clamp_index(self.index, results.len());
        self.results = results;
    }

    /// Handles a key.
    pub fn handle_key(&mut self, code: KeyCode) -> (r: SearchAction)
        ensures
            (final(self).deep_view(), r.deep_view()) == search_key(old(self).deep_view(), code),
    {
        let below = self.results.len() > 0 && self.index < self.results.len() - 1;
        match code {
            KeyCode::Down => {
                if below {
                    self.index = self.index + 1;
                }
            },
            KeyCode::Up | KeyCode::Char('k') => {
                self.index = self.index.saturating_sub(1);
            },
            KeyCode::Enter => {
                if self.index < self.results.len() {
                    assert(self.results.deep_view()[self.index as int]
                        == self.results@[self.index as int].deep_view());
                    let result = &self.results[self.index];
                    return SearchAction::Select {
                        conv_id: result.conv_id.clone(),
                        timestamp_ms: result.timestamp_ms,
                        status: None,
                    };
                }
            },
            KeyCode::Esc => {
                self.query = String::new();
                assert(self.query@ =~= Seq::<char>::empty());
                return SearchAction::Cancel;
            },
            KeyCode::Backspace => {
                if !self.query.as_str().is_empty() {
                    let _ = self.query.pop();
                    return self.run();
                }
            },
            KeyCode::Char(c) => {
                if c == 'j' && below {
                    self.index = self.index + 1;
                } else {
                    self.query.push(c);
                    return self.run();
                }
            },
            _ => {},
        }
        SearchAction::Nothing
    }

    fn hits_in(&self, id: &str) -> (r: Vec<usize>)
        ensures
            r@ == hits(self.deep_view().results, id@, self.results@.len() as int),
    {
        let ghost s = self.results.deep_view();
        let mut out: Vec<usize> = Vec::new();
        let mut i: usize = 0;
        while i < self.results.len()
            invariant
                i <= self.results@.len(),
                s == self.results.deep_view(),
                out@ == hits(s, id@, i as int),
            decreases self.results@.len() - i,
        {
            assert(s[i as int] == self.results@[i as int].deep_view());
            if same(self.results[i].conv_id.as_str(), id) {
                out.push(i);
            }
            i += 1;
        }
        out
    }

    /// Steps to the next result in the active conversation, or to the one
    /// before.
    pub fn jump_to_result(&mut self, forward: bool, active_conversation: Option<&str>) -> (r:
        SearchAction)
        ensures
            (final(self).deep_view(), r.deep_view()) == search_stepped(
                old(self).deep_view(),
                forward,
                match active_conversation {
                    Some(id) => Some(id@),
                    None => None,
                },
            ),
    {
        let id = match active_conversation {
            Some(id) => id,
            None => return SearchAction::Nothing,
        };
        let h = self.hits_in(id);
        if h.len() == 0 {
            return SearchAction::Status("no matches in this conversation".to_string());
        }
        proof {
            let n = self.results.len();
            hits_are(self.deep_view().results, id@, n as int);
            place_in_finds(h@, self.index, 0);
        }
        let mut p: usize = 0;
        while p < h.len() && h[p] != self.index
            invariant
                p <= h@.len(),
                place_in(h@, self.index, 0) == place_in(h@, self.index, p as int),
            decreases h@.len() - p,
        {
            p += 1;
        }
        let n = if p < h.len() {
            if forward {
                if p + 1 < h.len() {
                    p + 1
                } else {
                    0
                }
            } else if p > 0 {
                p - 1
            } else {
                h.len() - 1
            }
        } else {
            0
        };
        assert(n == next_hit(h@, self.index, forward));
        let i = h[n];
        self.index = i;
        assert(self.results.deep_view()[i as int] == self.results@[i as int].deep_view());
        let place = format_usize(n + 1);
        let count = format_usize(h.len());
        let a = concat3("match ", place.as_str(), "/");
        let b = concat3(a.as_str(), count.as_str(), " for \"");
        let status = concat3(b.as_str(), self.query.as_str(), "\"");
        SearchAction::Select {
            conv_id: self.results[i].conv_id.clone(),
            timestamp_ms: self.results[i].timestamp_ms,
            status: Some(status),
        }
    }
}

// ---------------------------------------------------------------------------
// Jumping to a message
// ---------------------------------------------------------------------------

/// The state with the message of a time in view, where it is there.
#[verifier::opaque]
pub open spec fn jumped_to(a: AppView, ts: i64) -> AppView {
    match a.active() {
        Some(c) => match msg_at(c.messages, ts) {
            Some(i) => AppView {
                scroll: ScrollStateView {
                    offset: (c.messages.len() - 1 - i) as usize,
                    focused_index: Some(i as usize),
                    ..a.scroll
                },
                mode: InputMode::Normal,
                ..a
            },
            None => a,
        },
        None => a,
    }
}

/// The state with a position to jump back to.
pub open spec fn position_kept(a: AppView) -> AppView {
    AppView {
        scroll: ScrollStateView {
            jump_stack: a.scroll.jump_stack.push((a.scroll.offset, a.scroll.focused_index)),
            ..a.scroll
        },
        ..a
    }
}

/// The state with the message in view that the selected one quotes.
#[verifier::opaque]
pub open spec fn jumped_to_quote(a: AppView) -> AppView {
    match selected(a) {
        Some(m) => match m.quote {
            Some(q) => if msg_at(a.active()->0.messages, q.timestamp_ms) is Some {
                jumped_to(position_kept(a), q.timestamp_ms)
            } else {
                a.say("Quoted message not in loaded history"@)
            },
            None => a.say("No quote on this message"@),
        },
        None => a,
    }
}

/// The state at the position before the last jump.
#[verifier::opaque]
pub open spec fn jumped_back(a: AppView) -> AppView {
    let s = a.scroll.jump_stack;
    if s.len() > 0 {
        AppView {
            scroll: ScrollStateView {
                jump_stack: s.drop_last(),
                offset: s.last().0,
                focused_index: s.last().1,
                ..a.scroll
            },
            ..a
        }
    } else {
        a
    }
}

/// Jumping back takes a jump to a quoted message back.
pub proof fn jumping_back_returns(a: AppView, m: DisplayMessageView)
    requires
        selected(a) == Some(m),
        m.quote is Some,
        msg_at(a.active()->0.messages, m.quote->0.timestamp_ms) is Some,
    ensures
        jumped_back(jumped_to_quote(a)).scroll == a.scroll,
{
    reveal(jumped_back);
    reveal(jumped_to_quote);
    reveal(jumped_to);
    let s = a.scroll.jump_stack;
    assert(s.push((a.scroll.offset, a.scroll.focused_index)).drop_last() =~= s);
}

/// The last message before `n` that is not the client's own.
pub open spec fn last_said(s: Seq<DisplayMessageView>, n: int) -> Option<int>
    decreases n,
{
    if n <= 0 {
        None
    } else if !s[n - 1].is_system {
        Some(n - 1)
    } else {
        last_said(s, n - 1)
    }
}

/// The first message from `n` on that is not the client's own.
pub open spec fn first_said(s: Seq<DisplayMessageView>, n: int) -> Option<int>
    decreases s.len() - n,
{
    if n < 0 || n >= s.len() {
        None
    } else if !s[n].is_system {
        Some(n)
    } else {
        first_said(s, n + 1)
    }
}

/// The state with another message focused.
pub open spec fn focused(a: AppView, i: usize) -> AppView {
    AppView { scroll: ScrollStateView { focused_index: Some(i), ..a.scroll }, ..a }
}

/// The state with the message focused that stands before the focused one, or
/// behind it; the last one, where none was focused. Messages of the client's own
/// are passed over.
#[verifier::opaque]
pub open spec fn adjacent_focused(a: AppView, older: bool) -> AppView {
    match a.active() {
        Some(c) => {
            let n = c.messages.len() as int;
            match a.scroll.focused_index {
                Some(i) => {
                    let target = if older {
                        last_said(c.messages, if i <= n { i as int } else { n })
                    } else {
                        first_said(c.messages, i + 1)
                    };
                    match target {
                        Some(t) => focused(a, t as usize),
                        None => a,
                    }
                },
                None => match last_said(c.messages, n) {
                    Some(t) => AppView {
                        scroll: ScrollStateView {
                            focused_index: Some(t as usize),
                            offset: if a.scroll.offset == 0 {
                                1
                            } else {
                                a.scroll.offset
                            },
                            ..a.scroll
                        },
                        ..a
                    },
                    None => a,
                },
            }
        },
        None => a,
    }
}

/// Where a search leads, the state goes.
pub open spec fn search_done(a: AppView, action: SearchActionView) -> AppView {
    match action {
        SearchActionView::Select { conv_id, timestamp_ms, status } => {
            let b = jumped_to(joined(a, conv_id), timestamp_ms);
            match status {
                Some(s) => b.say(s),
                None => b,
            }
        },
        SearchActionView::Status(s) => a.say(s),
        SearchActionView::Run => a.ask(
            EffectView::Search { conv_id: a.active_conversation, query: a.search.query },
        ),
        _ => a,
    }
}

/// The state with a search begun.
#[verifier::opaque]
pub open spec fn search_opened(a: AppView, query: Seq<char>) -> AppView {
    let (s, action) = search_run(SearchStateView { query, index: 0, ..a.search });
    search_done(AppView { search: s, ..a }.opened(Overlay::Search), action)
}

/// The state after a key in the search.
#[verifier::opaque]
pub open spec fn search_pressed(a: AppView, code: KeyCode) -> AppView {
    let (s, action) = search_key(a.search, code);
    let b = AppView { search: s, ..a };
    match action {
        SearchActionView::Select { .. } => search_done(b.closed(Overlay::Search), action),
        SearchActionView::Cancel => b.closed(Overlay::Search),
        _ => search_done(b, action),
    }
}

/// The state after a step to the next result in the active conversation.
#[verifier::opaque]
pub open spec fn search_jumped(a: AppView, forward: bool) -> AppView {
    let (s, action) = search_stepped(a.search, forward, a.active_conversation);
    search_done(AppView { search: s, ..a }, action)
}

fn find_last_said(v: &Vec<crate::conversation_store::DisplayMessage>, n: usize) -> (r: Option<usize>)
    requires
        n <= v@.len(),
    ensures
        match r {
            Some(i) => last_said(v.deep_view(), n as int) == Some(i as int),
            None => last_said(v.deep_view(), n as int) is None,
        },
{
    let ghost s = v.deep_view();
    let mut k: usize = n;
    while k > 0
        invariant
            k <= n <= v@.len(),
            s == v.deep_view(),
            last_said(s, n as int) == last_said(s, k as int),
        decreases k,
    {
        assert(s[k - 1] == v@[k - 1].deep_view());
        if !v[k - 1].is_system {
            return Some(k - 1);
        }
        k -= 1;
    }
    None
}

fn find_first_said(v: &Vec<crate::conversation_store::DisplayMessage>, n: usize) -> (r: Option<usize>)
    ensures
        match r {
            Some(i) => first_said(v.deep_view(), n as int) == Some(i as int),
            None => first_said(v.deep_view(), n as int) is None,
        },
{
    let ghost s = v.deep_view();
    let mut k: usize = n;
    while k < v.len()
        invariant
            n <= k,
            k <= v@.len() || k == n,
            s == v.deep_view(),
            first_said(s, n as int) == first_said(s, k as int),
        decreases v@.len() - k,
    {
        assert(s[k as int] == v@[k as int].deep_view());
        if !v[k].is_system {
            return Some(k);
        }
        k += 1;
    }
    None
}

impl App {
    /// Brings the message of a time in the active conversation into view.
    pub fn jump_to_message_timestamp(&mut self, target_ts: i64)
        ensures
            final(self).state() == jumped_to(old(self).state(), target_ts),
    {
        reveal(App::state);
        reveal(jumped_to);
        let found = match &self.active_conversation {
            Some(id) => match self.store.conversations.get(id.as_str()) {
                Some(c) => match find_message(&c.messages, target_ts) {
                    Some(i) => {
                        Some((i, c.messages.len() - 1 - i))
                    },
                    None => None,
                },
                None => None,
            },
            None => None,
        };
        if let Some((i, offset)) = found {
            self.scroll.offset = offset;
            self.scroll.focused_index = Some(i);
            self.mode = InputMode::Normal;
        }
    }

    fn keep_position(&mut self)
        ensures
            final(self).state() == position_kept(old(self).state()),
    {
        reveal(App::state);
        let ghost before = self.scroll.jump_stack.deep_view();
        let p = (self.scroll.offset, self.scroll.focused_index);
        self.scroll.jump_stack.push(p);
        assert(self.scroll.jump_stack.deep_view() =~= before.push(p));
    }

    fn quote_is_there(&self, ts: i64) -> (r: bool)
        requires
            self.state().active() is Some,
        ensures
            r == (msg_at(self.state().active()->0.messages, ts) is Some),
    {
        reveal(App::state);
        match &self.active_conversation {
            Some(id) => match self.store.conversations.get(id.as_str()) {
                Some(c) => find_message(&c.messages, ts).is_some(),
                None => false,
            },
            None => false,
        }
    }

    /// Brings the message into view that the selected one quotes.
    pub fn jump_to_quote(&mut self)
        ensures
            final(self).state() == jumped_to_quote(old(self).state()),
    {
        reveal(jumped_to_quote);
        if let Some((_, _, m)) = self.selection() {
            match &m.quote {
                Some(q) => {
                    if self.quote_is_there(q.timestamp_ms) {
                        self.keep_position();
                        self.jump_to_message_timestamp(q.timestamp_ms);
                    } else {
                        self.set_status("Quoted message not in loaded history");
                    }
                },
                None => {
                    self.set_status("No quote on this message");
                },
            }
        }
    }

    /// Goes back to the position before the last jump.
    pub fn jump_back(&mut self)
        ensures
            final(self).state() == jumped_back(old(self).state()),
    {
        reveal(jumped_back);
        reveal(App::state);
        let ghost before = self.scroll.jump_stack.deep_view();
        if let Some((offset, index)) = self.scroll.jump_stack.pop() {
            self.scroll.offset = offset;
            self.scroll.focused_index = index;
            assert(self.scroll.jump_stack.deep_view() =~= before.drop_last());
            assert(before.last() == (offset, index));
        }
    }

    /// Focuses the message before the focused one, or behind it.
    pub fn jump_to_adjacent_message(&mut self, older: bool)
        ensures
            final(self).state() == adjacent_focused(old(self).state(), older),
    {
        reveal(adjacent_focused);
        reveal(App::state);
        let current = self.scroll.focused_index;
        let target = match &self.active_conversation {
            Some(id) => match self.store.conversations.get(id.as_str()) {
                Some(c) => {
                    let n = c.messages.len();
                    match current {
                        Some(i) => if older {
                            find_last_said(
                                &c.messages,
                                if i <= n {
                                    i
                                } else {
                                    n
                                },
                            )
                        } else if i < n {
                            find_first_said(&c.messages, i + 1)
                        } else {
                            None
                        },
                        None => find_last_said(&c.messages, n),
                    }
                },
                None => None,
            },
            None => None,
        };
        if let Some(t) = target {
            self.scroll.focused_index = Some(t);
            if current.is_none() && self.scroll.offset == 0 {
                self.scroll.offset = 1;
            }
        }
    }

    /// Does what a search asks for.
    pub fn dispatch_search_action(&mut self, action: SearchAction)
        ensures
            final(self).state() == search_done(old(self).state(), action.deep_view()),
    {
        assert(self.search.query@ == self.state().search.query) by {
            reveal(App::state);
        }
        match action {
            SearchAction::Select { conv_id, timestamp_ms, status } => {
                self.join_conversation(conv_id.as_str());
                self.jump_to_message_timestamp(timestamp_ms);
                if let Some(s) = status {
                    self.set_status(s.as_str());
                }
            },
            SearchAction::Status(s) => self.set_status(s.as_str()),
            SearchAction::Run => {
                let conv_id = self.active_id();
                let query = self.search.query.clone();
                self.request(Effect::Search { conv_id, query });
            },
            SearchAction::Cancel => {},
            SearchAction::Nothing => {},
        }
    }

    /// Begins a search.
    pub fn open_search(&mut self, query: String)
        ensures
            final(self).state() == search_opened(old(self).state(), query@),
    {
        reveal(search_opened);
        let action = self.start_search(query);
        self.open_overlay(Overlay::Search);
        self.dispatch_search_action(action);
    }

    fn start_search(&mut self, query: String) -> (r: SearchAction)
        ensures
            ({
                let a = old(self).state();
                let (s, action) = search_run(
                    SearchStateView { query: query@, index: 0, ..a.search },
                );
                final(self).state() == (AppView { search: s, ..a }) && r.deep_view() == action
            }),
    {
        reveal(App::state);
        self.search.open(query)
    }

    fn press_in_search(&mut self, code: KeyCode) -> (r: SearchAction)
        ensures
            ({
                let a = old(self).state();
                let (s, action) = search_key(a.search, code);
                final(self).state() == (AppView { search: s, ..a }) && r.deep_view() == action
            }),
    {
        reveal(App::state);
        self.search.handle_key(code)
    }

    fn step_search(&mut self, forward: bool) -> (r: SearchAction)
        ensures
            ({
                let a = old(self).state();
                let (s, action) = search_stepped(a.search, forward, a.active_conversation);
                final(self).state() == (AppView { search: s, ..a }) && r.deep_view() == action
            }),
    {
        reveal(App::state);
        match &self.active_conversation {
            Some(id) => self.search.jump_to_result(forward, Some(id.as_str())),
            None => self.search.jump_to_result(forward, None),
        }
    }

    /// Takes what a search found.
    pub fn search_results(&mut self, results: Vec<SearchResult>)
        ensures
            final(self).state() == (AppView {
                search: search_found(old(self).state().search, results.deep_view()),
                ..old(self).state()
            }),
    {
        reveal(App::state);
        self.search.found(results);
    }

    /// Handles a key in the search.
    pub fn handle_search_key(&mut self, code: KeyCode)
        ensures
            final(self).state() == search_pressed(old(self).state(), code),
    {
        reveal(search_pressed);
        let action = self.press_in_search(code);
        match action {
            SearchAction::Select { conv_id, timestamp_ms, status } => {
                self.close_overlay(Overlay::Search);
                self.dispatch_search_action(
                    SearchAction::Select { conv_id, timestamp_ms, status },
                );
            },
            SearchAction::Cancel => self.close_overlay(Overlay::Search),
            other => self.dispatch_search_action(other),
        }
    }

    /// Steps to the next result in the active conversation, or to the one
    /// before.
    pub fn jump_to_search_result(&mut self, forward: bool)
        ensures
            final(self).state() == search_jumped(old(self).state(), forward),
    {
        reveal(search_jumped);
        let action = self.step_search(forward);
        self.dispatch_search_action(action);
    }
}

} // verus!
