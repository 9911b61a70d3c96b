//! What is promised of pointing: at messages, at places in the input, with the mouse.
use crate::app::{AppView, EffectView, InputMode, LinkRegionView, Setting};
use crate::autocomplete::any_overlay;
use crate::conversation_store::{in_time_order, msg_at, msg_at_finds, DisplayMessageView};
use crate::mouse::{clicked, in_rect, link_under, mouse_done, MouseEvent, MouseKind};
use crate::places::points_at;
use crate::search::{
    adjacent_focused, first_said, jumped_back, jumped_to, jumped_to_quote, last_said,
};
use vstd::prelude::*;

verus! {

proof fn last_said_is(s: Seq<DisplayMessageView>, n: int, k: int)
    requires
        -1 <= k < n <= s.len(),
        k >= 0 ==> !s[k].is_system,
        forall|j: int| k < j < n ==> (#[trigger] s[j]).is_system,
    ensures
        k >= 0 ==> last_said(s, n) == Some(k),
        k < 0 ==> last_said(s, n) is None,
    decreases n,
{
    if k < n - 1 {
        assert(s[n - 1].is_system);
        last_said_is(s, n - 1, k);
    }
}

proof fn first_said_is(s: Seq<DisplayMessageView>, n: int, k: int)
    requires
        0 <= n <= k <= s.len(),
        k < s.len() ==> !s[k].is_system,
        forall|j: int| n <= j < k ==> (#[trigger] s[j]).is_system,
    ensures
        k < s.len() ==> first_said(s, n) == Some(k),
        k == s.len() ==> first_said(s, n) is None,
    decreases k - n,
{
    if n < k {
        assert(s[n].is_system);
        first_said_is(s, n + 1, k);
    }
}

/// Going to the older message points at the nearest one before, going to the newer one
/// at the nearest behind, of those that someone wrote.
pub proof fn going_points_at_the_nearest(
    a: AppView,
    id: Seq<char>,
    i: int,
    older: int,
    newer: int,
)
    requires
        points_at(a, id, i),
        a.scroll.focused_index == Some(i as usize),
        a.active()->0.messages.len() <= usize::MAX,
        0 <= older < i && !a.active()->0.messages[older].is_system,
        forall|j: int| older < j < i ==> (#[trigger] a.active()->0.messages[j]).is_system,
        i < newer < a.active()->0.messages.len() && !a.active()->0.messages[newer].is_system,
        forall|j: int| i < j < newer ==> (#[trigger] a.active()->0.messages[j]).is_system,
    ensures
        points_at(adjacent_focused(a, true), id, older),
        points_at(adjacent_focused(a, false), id, newer),
        adjacent_focused(a, true).scroll.offset == a.scroll.offset,
        adjacent_focused(a, true).store == a.store,
{
    reveal(adjacent_focused);
    let s = a.active()->0.messages;
    last_said_is(s, i, older);
    first_said_is(s, i + 1, newer);
}

/// Going to any message where none is pointed at points at the last that someone wrote.
pub proof fn going_begins_at_the_last(a: AppView, id: Seq<char>, last: int, older: bool)
    requires
        a.active_conversation == Some(id),
        a.active() is Some,
        a.scroll.focused_index is None,
        0 <= last < a.active()->0.messages.len() <= usize::MAX,
        !a.active()->0.messages[last].is_system,
        forall|j: int|
            last < j < a.active()->0.messages.len() ==> (
            #[trigger] a.active()->0.messages[j]).is_system,
    ensures
        adjacent_focused(a, older).scroll.focused_index == Some(last as usize),
        adjacent_focused(a, older).store == a.store,
{
    reveal(adjacent_focused);
    let s = a.active()->0.messages;
    last_said_is(s, s.len() as int, last);
}

/// Jumping to what a message quotes points at a message of that time, shows it, and
/// remembers where one was; jumping back goes there.
pub proof fn jumping_shows_the_quote(a: AppView, id: Seq<char>, i: int)
    requires
        points_at(a, id, i),
        in_time_order(a.active()->0.messages),
        a.active()->0.messages[i].quote is Some,
        a.active()->0.messages.len() <= usize::MAX,
        exists|j: int|
            0 <= j < a.active()->0.messages.len() && (
            #[trigger] a.active()->0.messages[j]).timestamp_ms
                == a.active()->0.messages[i].quote->0.timestamp_ms,
    ensures
        ({
            let b = jumped_to_quote(a);
            let s = a.active()->0.messages;
            let f = b.scroll.focused_index;
            &&& f is Some && f->0 < s.len()
            &&& s[f->0 as int].timestamp_ms == s[i].quote->0.timestamp_ms
            &&& b.scroll.offset == s.len() - 1 - f->0
            &&& b.mode == InputMode::Normal && b.store == a.store
            &&& jumped_back(b).scroll == a.scroll
        }),
{
    reveal(jumped_to_quote);
    reveal(jumped_back);
    reveal(jumped_to);
    let s = a.active()->0.messages;
    crate::places::pointed_is_selected(a, id, i);
    msg_at_finds(s, s[i].quote->0.timestamp_ms);
    let j = choose|j: int|
        0 <= j < s.len() && (#[trigger] s[j]).timestamp_ms == s[i].quote->0.timestamp_ms;
    assert(s[j].timestamp_ms == s[i].quote->0.timestamp_ms);
    assert(msg_at(s, s[i].quote->0.timestamp_ms) is Some);
    assert(crate::actions::selected(a) == Some(s[i]));
    let b = jumped_to_quote(a);
    assert(b.scroll.jump_stack.drop_last() =~= a.scroll.jump_stack);
}

// ---------------------------------------------------------------------------
// The mouse
// ---------------------------------------------------------------------------

/// A link is shown at a place of the screen.
pub open spec fn is_on(l: LinkRegionView, col: u16, row: u16) -> bool {
    row == l.y && l.x <= col && col < l.x + l.width
}

proof fn link_is(s: Seq<LinkRegionView>, col: u16, row: u16, i: int, k: int)
    requires
        0 <= i <= k <= s.len(),
        k < s.len() ==> is_on(s[k], col, row),
        forall|j: int| i <= j < k ==> !is_on(#[trigger] s[j], col, row),
    ensures
        k < s.len() ==> link_under(s, col, row, i) == Some(s[k].url),
        k == s.len() ==> link_under(s, col, row, i) is None,
    decreases k - i,
{
    if i < k {
        assert(!is_on(s[i], col, row));
        link_is(s, col, row, i + 1, k);
    }
}

/// A text is the address of a web page.
pub open spec fn is_web(url: Seq<char>) -> bool {
    crate::choosing::begins_with(url, "http://"@) || crate::choosing::begins_with(
        url,
        "https://"@,
    )
}

/// Clicking on a link opens the page that it leads to, and only that.
pub proof fn clicking_opens_the_link(a: AppView, col: u16, row: u16, k: int)
    requires
        0 <= k < a.link_regions.len(),
        is_on(a.link_regions[k], col, row),
        forall|j: int| 0 <= j < k ==> !is_on(#[trigger] a.link_regions[j], col, row),
    ensures
        ({
            let b = clicked(a, col, row);
            let url = a.link_regions[k].url;
            &&& is_web(url) ==> b.effects == a.effects.push(EffectView::OpenUrl(url))
            &&& !is_web(url) ==> b.effects == a.effects
            &&& b.active_conversation == a.active_conversation && b.input == a.input && b.store
                == a.store
        }),
{
    reveal(clicked);
    let url = a.link_regions[k].url;
    link_is(a.link_regions, col, row, 0, k);
    crate::choosing::begins_is_occurs(url, "http://"@);
    crate::choosing::begins_is_occurs(url, "https://"@);
}

/// Clicking in the input goes into insert mode and moves the cursor, before the text
/// where it is clicked before it; the text stays.
pub proof fn clicking_moves_the_cursor(a: AppView, col: u16, row: u16)
    requires
        forall|j: int| 0 <= j < a.link_regions.len() ==> !is_on(#[trigger] a.link_regions[j], col, row),
        a.mouse.sidebar_inner is None,
        in_rect(col, row, a.mouse.input_area),
        crate::offsets::byte_len(a.input.before) + a.mouse.input_prefix_len + 2
            <= a.mouse.input_area.width,
    ensures
        ({
            let b = clicked(a, col, row);
            let text = a.input.before + a.input.after;
            let first = a.mouse.input_area.x + 1 + a.mouse.input_prefix_len;
            &&& b.mode == InputMode::Insert
            &&& b.input.before + b.input.after == text
            &&& col < first ==> b.input.before.len() == 0
            &&& col >= first && col - first <= text.len() ==> b.input.before.len() == col - first
            &&& col >= first && col - first > text.len() ==> b.input.before.len() == text.len()
            &&& b.active_conversation == a.active_conversation && b.store == a.store
        }),
{
    reveal(clicked);
    link_is(a.link_regions, col, row, 0, a.link_regions.len() as int);
    let text = a.input.before + a.input.after;
    assert(a.input.text() == text);
    none_hidden(text, text.len() as int);
    let b = clicked(a, col, row);
    assert(b.input.before + b.input.after =~= text);
}

proof fn none_hidden(s: Seq<char>, n: int)
    requires
        0 <= n <= s.len(),
    ensures
        crate::mouse::chars_before(s, 0, n) == 0,
    decreases n,
{
    if n > 0 {
        none_hidden(s, n - 1);
        assert(s.take(n) =~= s.take(n - 1).push(s[n - 1]));
        crate::offsets::byte_len_push(s.take(n - 1), s[n - 1]);
    }
}

/// The wheel scrolls the messages by three lines where they are under it, towards older
/// ones or newer ones; where the mouse is switched off nothing happens.
pub proof fn the_wheel_scrolls(a: AppView, e: MouseEvent, now_ms: i64)
    requires
        !any_overlay(a),
        a.scroll.offset <= usize::MAX - 3,
    ensures
        ({
            let b = mouse_done(a, e, now_ms);
            let on = a.settings.contains(Setting::MouseEnabled);
            let over = in_rect(e.column, e.row, a.mouse.messages_area);
            &&& on && over && e.kind == MouseKind::ScrollUp ==> b.scroll.offset == a.scroll.offset
                + 3
            &&& on && over && e.kind == MouseKind::ScrollDown && a.scroll.offset >= 3
                ==> b.scroll.offset == a.scroll.offset - 3
            &&& on && over && e.kind == MouseKind::ScrollDown && a.scroll.offset < 3
                ==> b.scroll.offset == 0
            &&& on && e.kind == MouseKind::LeftDown ==> b == clicked(a, e.column, e.row)
            &&& !on || e.kind == MouseKind::Other ==> b == a
        }),
{
}

} // verus!
