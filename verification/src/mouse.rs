//! The mouse.
use crate::app::{
    App, AppView, Effect, EffectView, InputMode, InputStateView, LinkRegion, LinkRegionView, Rect,
    SendRequest, Setting,
};
use crate::autocomplete::any_overlay;
use crate::composer::with_input;
use crate::keypress::{overlay_key, scrolled_down, scrolled_up};
use crate::keys::KeyCode;
use crate::navigation::{filter_cleared, joined};
use crate::offsets::{byte_len, byte_len_take, text_bytes};
use crate::text::{concat2, occurs_at, starts_with, to_chars};
use vstd::prelude::*;

verus! {

/// What the mouse did.
#[derive(Debug, Clone, Copy, PartialEq, Eq, Structural)]
pub enum MouseKind {
    /// The left button was pressed.
    LeftDown,
    ScrollUp,
    ScrollDown,
    /// Anything else.
    Other,
}

/// What the mouse did, and where.
#[derive(Debug, Clone, Copy, PartialEq, Eq, Structural)]
pub struct MouseEvent {
    pub kind: MouseKind,
    pub column: u16,
    pub row: u16,
}

/// A place is in an area.
pub open spec fn in_rect(col: u16, row: u16, r: Rect) -> bool {
    r.x <= col < r.x + r.width && r.y <= row < r.y + r.height
}

/// Whether a place is in an area.
pub fn is_in_rect(col: u16, row: u16, rect: Rect) -> (r: bool)
    ensures
        r == in_rect(col, row, rect),
{
    col >= rect.x && col - rect.x < rect.width && row >= rect.y && row - rect.y < rect.height
}

// ---------------------------------------------------------------------------
// Links
// ---------------------------------------------------------------------------

/// A link is at a place.
pub open spec fn link_at(l: LinkRegionView, col: u16, row: u16) -> bool {
    row == l.y && l.x <= col < l.x + l.width
}

/// The first link from `i` on that is at a place.
pub open spec fn link_under(s: Seq<LinkRegionView>, col: u16, row: u16, i: int) -> Option<
    Seq<char>,
>
    decreases s.len() - i,
{
    if i < 0 || i >= s.len() {
        None
    } else if link_at(s[i], col, row) {
        Some(s[i].url)
    } else {
        link_under(s, col, row, i + 1)
    }
}

/// The state with a link asked to be opened. Only pages of the web are.
pub open spec fn url_opened(a: AppView, url: Seq<char>) -> AppView {
    if occurs_at(url, "http://"@, 0) || occurs_at(url, "https://"@, 0) {
        a.ask(EffectView::OpenUrl(url))
    } else {
        a.say("Only http/https URLs can be opened"@)
    }
}

/// Whatever link is clicked, only one to a page of the web is opened.
pub proof fn only_web_pages_open(a: AppView, url: Seq<char>)
    ensures
        url_opened(a, url).effects == a.effects || (url_opened(a, url).effects == a.effects.push(
            EffectView::OpenUrl(url),
        ) && (occurs_at(url, "http://"@, 0) || occurs_at(url, "https://"@, 0))),
{
}

// ---------------------------------------------------------------------------
// The sidebar
// ---------------------------------------------------------------------------

/// The conversations that the sidebar lists.
pub open spec fn sidebar_rows(a: AppView) -> Seq<Seq<char>> {
    if a.is(crate::app::Flag::SidebarFilter) && a.sidebar.filtered.len() > 0 {
        a.sidebar.filtered
    } else {
        a.store.conversation_order
    }
}

/// The state after a click on a row of the sidebar.
pub open spec fn sidebar_clicked(a: AppView, index: int) -> AppView {
    let rows = sidebar_rows(a);
    if 0 <= index < rows.len() {
        joined(filter_cleared(a), rows[index])
    } else {
        a
    }
}

// ---------------------------------------------------------------------------
// The input
// ---------------------------------------------------------------------------

/// How many characters of a text lie before a byte, a character that it is in
/// the middle of left out.
pub open spec fn chars_before(s: Seq<char>, pos: int, n: int) -> int
    decreases n,
{
    if n <= 0 {
        0
    } else if byte_len(s.take(n)) <= pos {
        n
    } else {
        chars_before(s, pos, n - 1)
    }
}

/// The place in the input under a column of its text, which is `width` wide. What
/// does not fit is cut off at the left.
pub open spec fn place_under(i: InputStateView, width: int, column: int) -> int {
    let s = i.text();
    let bytes = byte_len(i.before) as int;
    let hidden = if bytes > width {
        bytes - width
    } else {
        0
    };
    let first = chars_before(s, hidden, s.len() as int);
    if first + column < s.len() {
        first + column
    } else {
        s.len() as int
    }
}

/// The column at which the text of the input begins.
pub open spec fn input_column(a: AppView) -> int {
    a.mouse.input_area.x + 1 + a.mouse.input_prefix_len
}

/// How wide the text of the input can be.
pub open spec fn input_width(a: AppView) -> int {
    let w = a.mouse.input_area.width - 2 - a.mouse.input_prefix_len;
    if w > 0 {
        w
    } else {
        0
    }
}

/// The state after a click into the input.
pub open spec fn input_clicked(a: AppView, col: u16) -> AppView {
    let b = AppView { mode: InputMode::Insert, ..a };
    if col >= input_column(a) {
        with_input(
            b,
            a.input.at_char(place_under(a.input, input_width(a), col - input_column(a))),
        )
    } else {
        with_input(b, a.input.at_char(0))
    }
}

// ---------------------------------------------------------------------------
// Events
// ---------------------------------------------------------------------------

/// The state after a click: on a link, on a row of the sidebar, or into the
/// input.
#[verifier::opaque]
pub open spec fn clicked(a: AppView, col: u16, row: u16) -> AppView {
    match link_under(a.link_regions, col, row, 0) {
        Some(url) => url_opened(a, url),
        None => {
            let on_sidebar = match a.mouse.sidebar_inner {
                Some(inner) => in_rect(col, row, inner),
                None => false,
            };
            if on_sidebar {
                sidebar_clicked(a, row - a.mouse.sidebar_inner->0.y)
            } else if in_rect(col, row, a.mouse.input_area) {
                input_clicked(a, col)
            } else {
                a
            }
        },
    }
}

/// The state after the mouse did something. Over an overlay, scrolling goes
/// through its list, and nothing is sent.
pub open spec fn mouse_done(a: AppView, e: MouseEvent, now_ms: i64) -> AppView {
    if !a.on(Setting::MouseEnabled) {
        a
    } else if any_overlay(a) {
        match e.kind {
            MouseKind::ScrollUp => overlay_key(a, KeyCode::Char('k'), now_ms).0,
            MouseKind::ScrollDown => overlay_key(a, KeyCode::Char('j'), now_ms).0,
            _ => a,
        }
    } else {
        match e.kind {
            MouseKind::LeftDown => clicked(a, e.column, e.row),
            MouseKind::ScrollUp => if in_rect(e.column, e.row, a.mouse.messages_area) {
                scrolled_up(a, 3)
            } else {
                a
            },
            MouseKind::ScrollDown => if in_rect(e.column, e.row, a.mouse.messages_area) {
                scrolled_down(a, 3)
            } else {
                a
            },
            MouseKind::Other => a,
        }
    }
}

fn find_link(v: &Vec<LinkRegion>, col: u16, row: u16) -> (r: Option<String>)
    ensures
        r.deep_view() == link_under(v.deep_view(), col, row, 0),
{
    let ghost s = v.deep_view();
    let mut i: usize = 0;
    while i < v.len()
        invariant
            i <= v@.len(),
            s == v.deep_view(),
            link_under(s, col, row, 0) == link_under(s, col, row, i as int),
        decreases v@.len() - i,
    {
        assert(s[i as int] == v@[i as int].deep_view());
        if row == v[i].y && col >= v[i].x && col - v[i].x < v[i].width {
            return Some(v[i].url.clone());
        }
        i += 1;
    }
    None
}

proof fn chars_before_is(s: Seq<char>, pos: int, n: int, k: int)
    requires
        0 <= k <= n <= s.len(),
        byte_len(s.take(k)) <= pos,
        forall|j: int| k < j <= n ==> byte_len(#[trigger] s.take(j)) > pos,
    ensures
        chars_before(s, pos, n) == k,
    decreases n,
{
    if n > k {
        chars_before_is(s, pos, n - 1, k);
    } else {
        assert(s.take(0) =~= Seq::<char>::empty());
    }
}

fn count_before(chars: &Vec<char>, pos: usize) -> (r: usize)
    ensures
        r == chars_before(chars@, pos as int, chars@.len() as int),
        r <= chars@.len(),
{
    let ghost s = chars@;
    let mut k: usize = 0;
    let mut bytes: usize = 0;
    assert(s.take(0) =~= Seq::<char>::empty());
    while k < chars.len() && crate::offsets::char_width(chars[k]) <= pos - bytes
        invariant
            s == chars@,
            k <= s.len(),
            bytes <= pos,
            bytes == byte_len(s.take(k as int)),
        decreases s.len() - k,
    {
        assert(s.take(k + 1) =~= s.take(k as int).push(s[k as int]));
        proof {
            crate::offsets::byte_len_push(s.take(k as int), s[k as int]);
        }
        bytes = bytes + crate::offsets::char_width(chars[k]);
        k += 1;
    }
    proof {
        assert forall|j: int| k < j <= s.len() implies byte_len(#[trigger] s.take(j)) > pos by {
            assert(s.take(k + 1) =~= s.take(k as int).push(s[k as int]));
            crate::offsets::byte_len_push(s.take(k as int), s[k as int]);
            byte_len_take(s, k + 1, j);
        }
        chars_before_is(s, pos as int, s.len() as int, k as int);
    }
    k
}

impl App {
    /// Asks for a link to be opened. Only pages of the web are.
    pub fn open_url(&mut self, url: &str)
        ensures
            final(self).state() == url_opened(old(self).state(), url@),
    {
        if starts_with(url, "http://") || starts_with(url, "https://") {
            self.request(Effect::OpenUrl(url.to_string()));
        } else {
            self.set_status("Only http/https URLs can be opened");
        }
    }

    /// Tells that a link could not be opened.
    pub fn url_failed(&mut self, error: &str)
        ensures
            final(self).state() == old(self).state().say("Failed to open URL: "@ + error@),
    {
        let text = concat2("Failed to open URL: ", error);
        self.set_status(text.as_str());
    }

    fn sidebar_row(&self, index: usize) -> (r: Option<String>)
        ensures
            match r {
                Some(id) => index < sidebar_rows(self.state()).len() && id@ == sidebar_rows(
                    self.state(),
                )[index as int],
                None => index >= sidebar_rows(self.state()).len(),
            },
    {
        let filtered = self.has_flag(crate::app::Flag::SidebarFilter);
        assert(self.sidebar.filtered.deep_view() == self.state().sidebar.filtered
            && self.store.conversation_order.deep_view()
            == self.state().store.conversation_order) by {
            reveal(App::state);
        }
        if filtered && self.sidebar.filtered.len() > 0 {
            if index < self.sidebar.filtered.len() {
                assert(self.sidebar.filtered.deep_view()[index as int]
                    == self.sidebar.filtered@[index as int]@);
                Some(self.sidebar.filtered[index].clone())
            } else {
                None
            }
        } else if index < self.store.conversation_order.len() {
            assert(self.store.conversation_order.deep_view()[index as int]
                == self.store.conversation_order@[index as int]@);
            Some(self.store.conversation_order[index].clone())
        } else {
            None
        }
    }

    fn click_sidebar(&mut self, index: usize)
        ensures
            final(self).state() == sidebar_clicked(old(self).state(), index as int),
    {
        if let Some(id) = self.sidebar_row(index) {
            self.clear_sidebar_filter();
            self.join_conversation(id.as_str());
        }
    }

    fn click_input(&mut self, col: u16)
        ensures
            final(self).state() == input_clicked(old(self).state(), col),
    {
        reveal(App::state);
        self.mode = InputMode::Insert;
        let area = self.mouse.input_area;
        let start = area.x as usize + 1 + self.mouse.input_prefix_len as usize;
        if col as usize >= start {
            let width = (area.width as usize).saturating_sub(2).saturating_sub(
                self.mouse.input_prefix_len as usize,
            );
            let text = self.input.buffer();
            let chars = to_chars(text.as_str());
            let hidden = text_bytes(self.input.before.as_str()).saturating_sub(width);
            let first = count_before(&chars, hidden);
            let column = col as usize - start;
            let k = if column < chars.len() - first {
                first + column
            } else {
                chars.len()
            };
            self.input.place_cursor(k);
        } else {
            self.input.place_cursor(0);
        }
    }

    /// Handles a click: on a link, on a row of the sidebar, or into the input.
    pub fn handle_left_click(&mut self, col: u16, row: u16)
        ensures
            final(self).state() == clicked(old(self).state(), col, row),
    {
        reveal(clicked);
        assert(self.link_regions.deep_view() == self.state().link_regions && self.mouse
            == self.state().mouse) by {
            reveal(App::state);
        }
        if let Some(url) = find_link(&self.link_regions, col, row) {
            self.open_url(url.as_str());
            return;
        }
        if let Some(inner) = self.mouse.sidebar_inner {
            if is_in_rect(col, row, inner) {
                self.click_sidebar((row - inner.y) as usize);
                return;
            }
        }
        if is_in_rect(col, row, self.mouse.input_area) {
            self.click_input(col);
        }
    }

    /// Handles what the mouse did.
    pub fn handle_mouse_event(&mut self, event: MouseEvent, now_ms: i64) -> (r: Option<SendRequest>)
        ensures
            final(self).state() == mouse_done(old(self).state(), event, now_ms),
            r is None,
    {
        if !self.is_on(Setting::MouseEnabled) {
            return None;
        }
        let area = self.mouse.messages_area;
        assert(area == self.state().mouse.messages_area) by {
            reveal(App::state);
        }
        if self.has_overlay() {
            match event.kind {
                MouseKind::ScrollUp => {
                    let _ = self.handle_overlay_key(KeyCode::Char('k'), now_ms);
                },
                MouseKind::ScrollDown => {
                    let _ = self.handle_overlay_key(KeyCode::Char('j'), now_ms);
                },
                _ => {},
            }
            return None;
        }
        match event.kind {
            MouseKind::LeftDown => self.handle_left_click(event.column, event.row),
            MouseKind::ScrollUp => {
                if is_in_rect(event.column, event.row, area) {
                    self.scroll_up(3);
                }
            },
            MouseKind::ScrollDown => {
                if is_in_rect(event.column, event.row, area) {
                    self.scroll_down(3);
                }
            },
            MouseKind::Other => {},
        }
        None
    }
}

} // verus!
