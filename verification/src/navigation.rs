//! Moving between conversations: read markers, read receipts, scroll positions.
use crate::app::{
    App, AppView, Flag, ImageStateView, Overlay, PendingStateView, ScrollStateView, SendRequest,
    SendRequestView, Setting, SidebarStateView, TypingStateView,
};
use crate::common::{filter_none, filter_take, popped};
use crate::conversation_store::{
    at_most_max, conversation_writes, find_text, moved_to_front, text_place, text_place_finds,
    unread_sum, with_conversation, Conversation, ConversationStoreView, ConversationView,
    DisplayMessage, DisplayMessageView,
};
use crate::db::{quiet, DbWrite, DbWriteView};
use crate::keys::KeyCode;
use crate::signal::Duplicate;
use crate::strmap::{at, holds, look, place, put, StrMap};
use crate::text::{
    concat2, concat3, contains, contains_text, folded, same, starts_with_char, to_lower,
};
use vstd::prelude::*;

verus! {

// ---------------------------------------------------------------------------
// Reading
// ---------------------------------------------------------------------------

/// The state with the active conversation marked as read.
pub open spec fn marked_read(a: AppView) -> AppView {
    match a.active_conversation {
        Some(id) => {
            let b = match look(a.store.conversations, id) {
                Some(c) => AppView {
                    store: ConversationStoreView {
                        last_read_index: put(
                            a.store.last_read_index,
                            id,
                            c.messages.len() as usize,
                        ),
                        ..a.store
                    },
                    ..a
                },
                None => a,
            };
            b.write(quiet(DbWriteView::SaveReadMarker { conv_id: id }, "save_read_marker"@))
        },
        None => a,
    }
}

/// A message asks for a read receipt: it came in from someone else.
pub open spec fn wants_receipt(m: DisplayMessageView, account: Seq<char>) -> bool {
    m.status is None && !m.is_system && m.sender_id.len() > 0 && m.sender_id != account
}

/// Times by sender with those of the messages that ask for a receipt.
pub open spec fn receipts_by_sender(
    msgs: Seq<DisplayMessageView>,
    account: Seq<char>,
) -> Seq<(Seq<char>, Seq<i64>)>
    decreases msgs.len(),
{
    if msgs.len() == 0 {
        Seq::empty()
    } else {
        let before = receipts_by_sender(msgs.drop_last(), account);
        let m = msgs.last();
        if !wants_receipt(m, account) {
            before
        } else if holds(before, m.sender_id) {
            put(before, m.sender_id, at(before, m.sender_id).push(m.timestamp_ms))
        } else {
            before.push((m.sender_id, seq![m.timestamp_ms]))
        }
    }
}

/// The state with read receipts queued for the messages of a conversation from
/// `start` on. None are sent for conversations that were not accepted or are
/// blocked.
pub open spec fn receipts_queued(a: AppView, id: Seq<char>, start: usize) -> AppView {
    match look(a.store.conversations, id) {
        Some(c) => if a.on(Setting::SendReadReceipts) && c.accepted && !a.blocked.contains(id)
            && start < c.messages.len() {
            AppView {
                pending: PendingStateView {
                    read_receipts: a.pending.read_receipts + receipts_by_sender(
                        c.messages.skip(start as int),
                        a.account,
                    ),
                    ..a.pending
                },
                ..a
            }
        } else {
            a
        },
        None => a,
    }
}

/// The state with a read receipt queued for one message.
pub open spec fn receipt_queued(a: AppView, sender_id: Seq<char>, ts: i64) -> AppView {
    if a.on(Setting::SendReadReceipts) && sender_id.len() > 0 && sender_id != a.account {
        AppView {
            pending: PendingStateView {
                read_receipts: a.pending.read_receipts.push((sender_id, seq![ts])),
                ..a.pending
            },
            ..a
        }
    } else {
        a
    }
}

fn group_receipts(msgs: &Vec<DisplayMessage>, start: usize, account: &str) -> (r: StrMap<Vec<i64>>)
    requires
        start <= msgs@.len(),
    ensures
        r.deep_view() == receipts_by_sender(msgs.deep_view().skip(start as int), account@),
{
    let ghost s = msgs.deep_view().skip(start as int);
    let mut r: StrMap<Vec<i64>> = StrMap::new();
    let mut i: usize = start;
    assert(s.take(0) =~= Seq::<DisplayMessageView>::empty());
    while i < msgs.len()
        invariant
            start <= i <= msgs@.len(),
            s == msgs.deep_view().skip(start as int),
            r.deep_view() == receipts_by_sender(s.take(i - start), account@),
        decreases msgs@.len() - i,
    {
        let m = &msgs[i];
        proof {
            let k = i - start;
            assert(s.take(k + 1).drop_last() =~= s.take(k));
            assert(s.take(k + 1).last() == m.deep_view());
        }
        if m.status.is_none() && !m.is_system && !m.sender_id.as_str().is_empty() && !same(
            m.sender_id.as_str(),
            account,
        ) {
            match r.get_mut(m.sender_id.as_str()) {
                Some(v) => {
                    let ghost before = v.deep_view();
                    v.push(m.timestamp_ms);
                    assert(v.deep_view() =~= before.push(m.timestamp_ms));
                },
                None => {
                    let v: Vec<i64> = vec![m.timestamp_ms];
                    assert(v.deep_view() =~= seq![m.timestamp_ms]);
                    r.insert(m.sender_id.clone(), v);
                },
            }
        }
        i += 1;
    }
    assert(s.take(s.len() as int) =~= s);
    r
}

impl App {
    /// Marks the active conversation as read.
    pub fn mark_read(&mut self)
        ensures
            final(self).state() == marked_read(old(self).state()),
    {
        reveal(App::state);
        match self.active_conversation.duplicate() {
            Some(id) => {
                let n = match self.store.conversations.get(id.as_str()) {
                    Some(c) => Some(c.messages.len()),
                    None => None,
                };
                if let Some(len) = n {
                    self.store.last_read_index.insert(id.clone(), len);
                }
                self.record(DbWrite::SaveReadMarker { conv_id: id }, "save_read_marker", false);
            },
            None => {},
        }
    }

    /// Queues read receipts for the messages of a conversation from
    /// `start_index` on.
    pub fn queue_read_receipts_for_conv(&mut self, conv_id: &str, start_index: usize)
        ensures
            final(self).state() == receipts_queued(old(self).state(), conv_id@, start_index),
    {
        reveal(App::state);
        if !self.is_on(Setting::SendReadReceipts) || self.blocked.contains(conv_id) {
            return;
        }
        let mut found: StrMap<Vec<i64>> = StrMap::new();
        match self.store.conversations.get(conv_id) {
            Some(c) => {
                if !c.accepted || start_index >= c.messages.len() {
                    return;
                }
                found = group_receipts(&c.messages, start_index, self.account.as_str());
            },
            None => {
                return;
            },
        }
        let ghost before = self.pending.read_receipts.deep_view();
        let ghost added = found.deep_view();
        let mut entries = found.entries;
        let ghost list = entries.deep_view();
        self.pending.read_receipts.append(&mut entries);
        assert(self.pending.read_receipts.deep_view() =~= before + added);
    }

    /// Queues a read receipt for one message.
    pub fn queue_single_read_receipt(&mut self, sender_id: &str, timestamp_ms: i64)
        ensures
            final(self).state() == receipt_queued(old(self).state(), sender_id@, timestamp_ms),
    {
        reveal(App::state);
        if !self.is_on(Setting::SendReadReceipts) || sender_id.is_empty() || same(
            sender_id,
            self.account.as_str(),
        ) {
            return;
        }
        let times: Vec<i64> = vec![timestamp_ms];
        assert(times.deep_view() =~= seq![timestamp_ms]);
        let ghost before = self.pending.read_receipts.deep_view();
        self.pending.read_receipts.push((sender_id.to_string(), times));
        assert(self.pending.read_receipts.deep_view() =~= before.push(
            (sender_id@, seq![timestamp_ms]),
        ));
    }
}

// ---------------------------------------------------------------------------
// Typing
// ---------------------------------------------------------------------------

/// How long after the last key one counts as typing, in milliseconds.
pub const TYPING_TIMEOUT_MS: u64 = 5000;

/// What tells that one is typing in the active conversation, or has stopped.
pub open spec fn typing_request(a: AppView, stop: bool) -> Option<SendRequestView> {
    match a.active_conversation {
        Some(id) => Some(
            SendRequestView::Typing { recipient: id, is_group: a.is_group(id), stop },
        ),
        None => None,
    }
}

/// The state in which one is not typing.
pub open spec fn typing_reset(a: AppView) -> AppView {
    AppView {
        typing: TypingStateView { last_keypress: None, ..a.typing },
        ..a.lowered(Flag::TypingSent)
    }
}

/// The state in which one is not typing, and the service is to be told so.
pub open spec fn typing_stopped(a: AppView) -> AppView {
    let b = typing_reset(a);
    if a.is(Flag::TypingSent) {
        AppView { pending: PendingStateView { typing_stop: typing_request(a, true), ..b.pending }, ..b }
    } else {
        b
    }
}

/// One was typing, and has not pressed a key for a while.
pub open spec fn typing_timed_out(a: AppView, now: u64) -> bool {
    a.is(Flag::TypingSent) && match a.typing.last_keypress {
        Some(t) => now - t >= TYPING_TIMEOUT_MS,
        None => false,
    }
}

impl App {
    /// What tells that one is typing in the active conversation, or has stopped.
    pub fn build_typing_request(&self, stop: bool) -> (r: Option<SendRequest>)
        ensures
            r.deep_view() == typing_request(self.state(), stop),
    {
        reveal(App::state);
        match self.active_conversation.duplicate() {
            Some(id) => {
                let is_group = self.conv_is_group(id.as_str());
                Some(SendRequest::Typing { recipient: id, is_group, stop })
            },
            None => None,
        }
    }

    /// Makes one not typing. Says whether the service thought one was.
    pub fn reset_typing(&mut self) -> (r: bool)
        ensures
            final(self).state() == typing_reset(old(self).state()),
            r == old(self).state().is(Flag::TypingSent),
    {
        reveal(App::state);
        let was = self.has_flag(Flag::TypingSent);
        self.lower(Flag::TypingSent);
        self.typing.last_keypress = None;
        was
    }

    /// Makes one not typing, and has the service told where it thought one was.
    pub fn reset_typing_with_stop(&mut self)
        ensures
            final(self).state() == typing_stopped(old(self).state()),
    {
        reveal(App::state);
        let stop = self.build_typing_request(true);
        if self.reset_typing() {
            self.pending.typing_stop = stop;
        }
    }

    /// Tells that one has stopped typing, where no key was pressed for a while.
    pub fn check_typing_timeout(&mut self, now_ms: u64) -> (r: Option<SendRequest>)
        ensures
            final(self).state() == if typing_timed_out(old(self).state(), now_ms) {
                typing_reset(old(self).state())
            } else {
                old(self).state()
            },
            r.deep_view() == if typing_timed_out(old(self).state(), now_ms) {
                typing_request(old(self).state(), true)
            } else {
                None
            },
    {
        reveal(App::state);
        let due = match self.typing.last_keypress {
            Some(t) => now_ms >= t && now_ms - t >= TYPING_TIMEOUT_MS,
            None => false,
        };
        if due && self.has_flag(Flag::TypingSent) {
            let stop = self.build_typing_request(true);
            let _ = self.reset_typing();
            stop
        } else {
            None
        }
    }
}

// ---------------------------------------------------------------------------
// Images on the screen
// ---------------------------------------------------------------------------

/// The state in which no image has been transmitted to the terminal.
pub open spec fn placements_cleared(a: AppView) -> AppView {
    AppView {
        images: ImageStateView {
            kitty_transmitted: Seq::empty(),
            kitty_pending: Seq::empty(),
            ..a.images
        },
        ..a
    }
}

impl App {
    /// Has the images transmitted again. Encoded images are kept.
    pub fn clear_kitty_placements(&mut self)
        ensures
            final(self).state() == placements_cleared(old(self).state()),
    {
        reveal(App::state);
        self.images.kitty_transmitted = Vec::new();
        self.images.kitty_pending = Vec::new();
        assert(self.images.kitty_transmitted.deep_view() =~= Seq::<u32>::empty());
        assert(self.images.kitty_pending.deep_view() =~= Seq::<(u32, Seq<char>, u16, u16)>::empty());
    }

    /// Has the images encoded and transmitted again.
    pub fn clear_kitty_state(&mut self)
        ensures
            final(self).state() == (AppView {
                images: ImageStateView {
                    native_cache: Seq::empty(),
                    crop_cache: Seq::empty(),
                    ..placements_cleared(old(self).state()).images
                },
                ..placements_cleared(old(self).state())
            }),
    {
        self.clear_kitty_placements();
        reveal(App::state);
        self.images.native_cache = StrMap::new();
        self.images.crop_cache = Vec::new();
        assert(self.images.crop_cache.deep_view() =~= Seq::<(Seq<char>, u16, u16, Seq<char>)>::empty());
    }
}

// ---------------------------------------------------------------------------
// Scroll positions
// ---------------------------------------------------------------------------

/// The state with the scroll position of the active conversation kept.
pub open spec fn scroll_saved(a: AppView) -> AppView {
    match a.active_conversation {
        Some(id) => AppView {
            scroll: ScrollStateView {
                positions: put(a.scroll.positions, id, (a.scroll.offset, a.scroll.focused_index)),
                ..a.scroll
            },
            ..a
        },
        None => a,
    }
}

/// The state with the scroll position of a conversation taken up again; its
/// bottom where none was kept.
pub open spec fn scroll_restored(a: AppView, id: Seq<char>) -> AppView {
    let (offset, focused_index) = match look(a.scroll.positions, id) {
        Some(p) => p,
        None => (0, None),
    };
    AppView { scroll: ScrollStateView { offset, focused_index, ..a.scroll }, ..a }
}

impl App {
    /// Keeps the scroll position of the active conversation.
    pub fn save_scroll_position(&mut self)
        ensures
            final(self).state() == scroll_saved(old(self).state()),
    {
        reveal(App::state);
        match self.active_conversation.duplicate() {
            Some(id) => {
                let p = (self.scroll.offset, self.scroll.focused_index);
                self.scroll.positions.insert(id, p);
            },
            None => {},
        }
    }

    /// Takes up the scroll position of a conversation again.
    pub fn restore_scroll_position(&mut self, conv_id: &str)
        ensures
            final(self).state() == scroll_restored(old(self).state(), conv_id@),
    {
        reveal(App::state);
        let p: (usize, Option<usize>) = match self.scroll.positions.get(conv_id) {
            Some(p) => (p.0, p.1),
            None => (0, None),
        };
        self.scroll.offset = p.0;
        self.scroll.focused_index = p.1;
    }
}

/// Leaving a conversation and coming back to it ends where it began.
pub proof fn scroll_comes_back(a: AppView, id: Seq<char>, offset: usize, focus: Option<usize>)
    requires
        a.active_conversation == Some(id),
    ensures
        ({
            let saved = scroll_saved(a);
            let elsewhere = AppView {
                scroll: ScrollStateView { offset, focused_index: focus, ..saved.scroll },
                ..saved
            };
            let back = scroll_restored(elsewhere, id);
            back.scroll.offset == a.scroll.offset && back.scroll.focused_index
                == a.scroll.focused_index
        }),
{
    crate::strmap::look_after_put(
        a.scroll.positions,
        id,
        (a.scroll.offset, a.scroll.focused_index),
        id,
    );
}

// ---------------------------------------------------------------------------
// The status line
// ---------------------------------------------------------------------------

/// The state with the status line naming the active conversation, and the
/// overlay of message requests open where it was not accepted.
pub open spec fn status_updated(a: AppView) -> AppView {
    match a.active_conversation {
        Some(id) => match look(a.store.conversations, id) {
            Some(c) => {
                let b = a.say(
                    "connected | "@ + (if c.is_group {
                        "#"@
                    } else {
                        ""@
                    }) + c.name,
                );
                if c.accepted {
                    b.closed(Overlay::MessageRequest)
                } else {
                    b.opened(Overlay::MessageRequest)
                }
            },
            None => a.closed(Overlay::MessageRequest),
        },
        None => a.say("connected | no conversation selected"@).closed(Overlay::MessageRequest),
    }
}

impl App {
    /// Names the active conversation in the status line.
    pub fn update_status(&mut self)
        ensures
            final(self).state() == status_updated(old(self).state()),
    {
        let ghost a = self.state();
        let active = self.active_id();
        match active {
            Some(id) => {
                let found = match self.store.conversations.get(id.as_str()) {
                    Some(c) => {
                        let prefix = if c.is_group {
                            "#"
                        } else {
                            ""
                        };
                        Some((concat3("connected | ", prefix, c.name.as_str()), c.accepted))
                    },
                    None => None,
                };
                assert(a.store.conversations == self.store.conversations.deep_view()) by {
                    reveal(App::state);
                }
                match found {
                    Some((text, accepted)) => {
                        self.set_status(text.as_str());
                        if accepted {
                            self.close_overlay(Overlay::MessageRequest);
                        } else {
                            self.open_overlay(Overlay::MessageRequest);
                        }
                    },
                    None => {
                        self.close_overlay(Overlay::MessageRequest);
                    },
                }
            },
            None => {
                self.set_status("connected | no conversation selected");
                self.close_overlay(Overlay::MessageRequest);
            },
        }
    }

    /// Tells that the service answers.
    pub fn set_connected(&mut self)
        ensures
            final(self).state() == old(self).state().raised(Flag::Connected).say(
                "connected | no conversation selected"@,
            ),
    {
        self.raise(Flag::Connected);
        self.set_status("connected | no conversation selected");
    }

    /// How many messages are unread, in all conversations together.
    pub fn total_unread(&self) -> (r: usize)
        ensures
            r == at_most_max(unread_sum(self.state().store.conversations)),
    {
        reveal(App::state);
        self.store.total_unread()
    }
}

// ---------------------------------------------------------------------------
// Changing conversations
// ---------------------------------------------------------------------------

/// The state with the active conversation left.
#[verifier::opaque]
pub open spec fn left(a: AppView) -> AppView {
    let b = scroll_saved(marked_read(a));
    placements_cleared(
        typing_stopped(AppView { pending: PendingStateView { attachment: None, ..b.pending }, ..b }),
    )
}

/// The state with a conversation made active: receipts are queued for what was
/// not read of it.
#[verifier::opaque]
pub open spec fn entered(a: AppView, id: Seq<char>) -> AppView {
    let start = match look(a.store.last_read_index, id) {
        Some(i) => i,
        None => 0,
    };
    let b = receipts_queued(a, id, start);
    let c = AppView { active_conversation: Some(id), ..b };
    let d = match look(c.store.conversations, id) {
        Some(conv) => c.with_conv(id, ConversationView { unread: 0, ..conv }),
        None => c,
    };
    status_updated(scroll_restored(d, id))
}

/// The first conversation from `i` on whose name holds a text, letter case
/// aside, or their number.
pub open spec fn named_like(
    s: Seq<(Seq<char>, ConversationView)>,
    lower: Seq<char>,
    i: int,
) -> int
    decreases s.len() - i,
{
    if i < 0 || i >= s.len() {
        s.len() as int
    } else if contains_text(folded(s[i].1.name), lower) {
        i
    } else {
        named_like(s, lower, i + 1)
    }
}

/// The state after a request to join: the conversation of that id, else the
/// first one whose name holds the text, else a new one where the text is a
/// number.
#[verifier::opaque]
pub open spec fn joined(a: AppView, target: Seq<char>) -> AppView {
    let b = left(a);
    let i = named_like(b.store.conversations, folded(target), 0);
    if holds(b.store.conversations, target) {
        entered(b, target)
    } else if i < b.store.conversations.len() {
        entered(b, b.store.conversations[i].0)
    } else if target.len() > 0 && target[0] == '+' {
        let c = ensured(b, target, target, false);
        status_updated(
            AppView {
                active_conversation: Some(target),
                scroll: ScrollStateView { offset: 0, focused_index: None, ..c.scroll },
                ..c
            },
        )
    } else {
        b.say("Conversation not found: "@ + target)
    }
}

/// The state with a conversation that is there, under a name that is known.
pub open spec fn ensured(
    a: AppView,
    id: Seq<char>,
    name: Seq<char>,
    is_group: bool,
) -> AppView {
    AppView {
        store: with_conversation(a.store, id, name, is_group),
        jobs: a.jobs + conversation_writes(a.store, id, name, is_group),
        ..a
    }
}

/// The state with the sidebar not filtered.
pub open spec fn filter_cleared(a: AppView) -> AppView {
    AppView {
        sidebar: SidebarStateView { filter: Seq::empty(), filtered: Seq::empty(), ..a.sidebar },
        ..a.lowered(Flag::SidebarFilter)
    }
}

/// The place of the active conversation in the sidebar.
pub open spec fn active_place(a: AppView) -> Option<int> {
    match a.active_conversation {
        Some(id) => {
            let p = text_place(a.store.conversation_order, id, 0);
            if p < a.store.conversation_order.len() {
                Some(p)
            } else {
                None
            }
        },
        None => None,
    }
}

/// The place below the active conversation in the sidebar, round the list.
pub open spec fn next_place(a: AppView) -> int {
    match active_place(a) {
        Some(i) => if i + 1 < a.store.conversation_order.len() {
            i + 1
        } else {
            0
        },
        None => 0,
    }
}

/// The place above the active conversation in the sidebar, round the list.
pub open spec fn prev_place(a: AppView) -> int {
    match active_place(a) {
        Some(i) => if i == 0 {
            a.store.conversation_order.len() - 1
        } else {
            i - 1
        },
        None => 0,
    }
}

/// The state after moving to the next conversation of the sidebar, or the one
/// before.
#[verifier::opaque]
pub open spec fn moved(a: AppView, forward: bool) -> AppView {
    if a.store.conversation_order.len() == 0 {
        a
    } else {
        let b = left(filter_cleared(a));
        let p = if forward {
            next_place(b)
        } else {
            prev_place(b)
        };
        entered(b, b.store.conversation_order[p])
    }
}

/// Moving on in the sidebar and back again makes the same conversation active,
/// in whichever order.
pub proof fn moving_comes_back(a: AppView, forward: bool)
    requires
        active_place(a) is Some,
        a.store.conversation_order.no_duplicates(),
    ensures
        moved(moved(a, forward), !forward).active_conversation == a.active_conversation,
        moved(a, forward).store.conversation_order == a.store.conversation_order,
{
    reveal(moved);
    let order = a.store.conversation_order;
    let id = a.active_conversation->0;
    text_place_finds(order, id, 0);
    let i = text_place(order, id, 0);
    let p = if forward {
        next_place(a)
    } else {
        prev_place(a)
    };
    moved_lands(a, forward);
    let c = moved(a, forward);
    text_place_finds(order, order[p], 0);
    assert(text_place(order, order[p], 0) == p);
    moved_lands(c, !forward);
}

/// Where moving on in the sidebar ends.
pub proof fn moved_lands(a: AppView, forward: bool)
    requires
        active_place(a) is Some,
    ensures
        moved(a, forward).store.conversation_order == a.store.conversation_order,
        moved(a, forward).active_conversation == Some(
            a.store.conversation_order[if forward {
                next_place(a)
            } else {
                prev_place(a)
            }],
        ),
{
    reveal(moved);
    let b = left(filter_cleared(a));
    left_keeps(filter_cleared(a));
    let p = if forward {
        next_place(b)
    } else {
        prev_place(b)
    };
    entered_keeps_order(b, b.store.conversation_order[p]);
}

/// Leaving a conversation leaves the sidebar as it is.
pub proof fn left_keeps(a: AppView)
    ensures
        left(a).store.conversation_order == a.store.conversation_order,
        left(a).store.conversations == a.store.conversations,
        left(a).active_conversation == a.active_conversation,
{
    reveal(left);
}

/// Making a conversation active leaves the sidebar as it is.
pub proof fn entered_keeps_order(a: AppView, id: Seq<char>)
    ensures
        entered(a, id).store.conversation_order == a.store.conversation_order,
        entered(a, id).active_conversation == Some(id),
{
    reveal(entered);
}

fn find_named(convs: &StrMap<Conversation>, lower: &str) -> (r: Option<usize>)
    ensures
        match r {
            Some(i) => i < convs.entries@.len() && i == named_like(convs.deep_view(), lower@, 0),
            None => named_like(convs.deep_view(), lower@, 0) == convs.deep_view().len(),
        },
{
    let ghost s = convs.deep_view();
    let mut i: usize = 0;
    while i < convs.entries.len()
        invariant
            i <= convs.entries@.len(),
            s == convs.deep_view(),
            named_like(s, lower@, 0) == named_like(s, lower@, i as int),
        decreases convs.entries@.len() - i,
    {
        let name = to_lower(convs.entries[i].1.name.as_str());
        assert(s[i as int].1.name == convs.entries@[i as int].1.name@);
        if contains(name.as_str(), lower) {
            return Some(i);
        }
        i += 1;
    }
    None
}

impl App {
    fn leave(&mut self)
        ensures
            final(self).state() == left(old(self).state()),
    {
        reveal(left);
        self.mark_read();
        self.save_scroll_position();
        self.drop_attachment();
        self.reset_typing_with_stop();
        self.clear_kitty_placements();
    }

    /// Takes back the file that was to go with the next message.
    pub fn drop_attachment(&mut self)
        ensures
            final(self).state() == (AppView {
                pending: PendingStateView { attachment: None, ..old(self).state().pending },
                ..old(self).state()
            }),
    {
        reveal(App::state);
        self.pending.attachment = None;
    }

    fn activate(&mut self, id: &str)
        ensures
            final(self).state() == (AppView {
                active_conversation: Some(id@),
                ..old(self).state()
            }),
    {
        reveal(App::state);
        self.active_conversation = Some(id.to_string());
    }

    fn read_from(&self, id: &str) -> (r: usize)
        ensures
            r == match look(self.state().store.last_read_index, id@) {
                Some(i) => i,
                None => 0,
            },
    {
        reveal(App::state);
        match self.store.last_read_index.get(id) {
            Some(i) => *i,
            None => 0,
        }
    }

    fn clear_unread(&mut self, id: &str)
        ensures
            final(self).state() == match look(old(self).state().store.conversations, id@) {
                Some(conv) => old(self).state().with_conv(
                    id@,
                    ConversationView { unread: 0, ..conv },
                ),
                None => old(self).state(),
            },
    {
        reveal(App::state);
        match self.store.conversations.get_mut(id) {
            Some(c) => {
                c.unread = 0;
            },
            None => {},
        }
    }

    fn enter(&mut self, id: &str)
        ensures
            final(self).state() == entered(old(self).state(), id@),
    {
        reveal(entered);
        let start = self.read_from(id);
        self.queue_read_receipts_for_conv(id, start);
        self.activate(id);
        self.clear_unread(id);
        self.restore_scroll_position(id);
        self.update_status();
    }

    /// Makes sure that a conversation is there, and that it goes by `name` where
    /// that is more than its id.
    pub fn get_or_create_conversation(&mut self, id: &str, name: &str, is_group: bool)
        ensures
            final(self).state() == ensured(old(self).state(), id@, name@, is_group),
    {
        reveal(App::state);
        let ghost made = with_conversation(self.store.deep_view(), id@, name@, is_group);
        let _ = self.store.get_or_create_conversation(id, name, is_group, &mut self.jobs);
        proof {
            crate::strmap::place_finds(made.conversations, id@);
            assert(put(made.conversations, id@, at(made.conversations, id@))
                =~= made.conversations) by {
                conversation_is_there(old(self).store.deep_view(), id@, name@, is_group);
            }
        }
    }

    /// Scrolls to the newest message.
    pub fn scroll_to_bottom(&mut self)
        ensures
            final(self).state() == (AppView {
                scroll: ScrollStateView {
                    offset: 0,
                    focused_index: None,
                    ..old(self).state().scroll
                },
                ..old(self).state()
            }),
    {
        reveal(App::state);
        self.scroll.offset = 0;
        self.scroll.focused_index = None;
    }

    /// Makes a conversation active: the one of that id, else the first one whose
    /// name holds the text, else a new one where the text is a number.
    pub fn join_conversation(&mut self, target: &str)
        ensures
            final(self).state() == joined(old(self).state(), target@),
    {
        reveal(joined);
        self.leave();
        let ghost b = self.state();
        assert(b.store.conversations == self.store.conversations.deep_view()) by {
            reveal(App::state);
        }
        if self.store.conversations.contains_key(target) {
            self.enter(target);
            return;
        }
        let lower = to_lower(target);
        match find_named(&self.store.conversations, lower.as_str()) {
            Some(i) => {
                let id = self.store.conversations.entries[i].0.clone();
                assert(b.store.conversations[i as int].0 == id@);
                self.enter(id.as_str());
            },
            None => {
                if starts_with_char(target, '+') {
                    self.get_or_create_conversation(target, target, false);
                    self.activate(target);
                    self.scroll_to_bottom();
                    self.update_status();
                } else {
                    let text = concat2("Conversation not found: ", target);
                    self.set_status(text.as_str());
                }
            },
        }
    }

    /// Shows all conversations in the sidebar again.
    pub fn clear_sidebar_filter(&mut self)
        ensures
            final(self).state() == filter_cleared(old(self).state()),
    {
        reveal(App::state);
        self.lower(Flag::SidebarFilter);
        self.sidebar.filter = String::new();
        self.sidebar.filtered = Vec::new();
        assert(self.sidebar.filtered.deep_view() =~= Seq::<Seq<char>>::empty());
    }

    fn active_position(&self) -> (r: Option<usize>)
        ensures
            match r {
                Some(i) => active_place(self.state()) == Some(i as int) && i
                    < self.state().store.conversation_order.len(),
                None => active_place(self.state()) is None,
            },
            self.state().store.conversation_order == self.store.conversation_order.deep_view(),
    {
        reveal(App::state);
        match &self.active_conversation {
            Some(id) => find_text(&self.store.conversation_order, id.as_str()),
            None => None,
        }
    }

    fn move_by(&mut self, forward: bool)
        ensures
            final(self).state() == moved(old(self).state(), forward),
    {
        reveal(moved);
        assert(self.state().store.conversation_order == self.store.conversation_order.deep_view())
            by {
            reveal(App::state);
        }
        if self.store.conversation_order.len() == 0 {
            return;
        }
        self.clear_sidebar_filter();
        proof {
            left_keeps(self.state());
        }
        self.leave();
        let n = self.store.conversation_order.len();
        let pos = self.active_position();
        assert(self.state().store.conversation_order == old(
            self,
        ).state().store.conversation_order);
        let p = match pos {
            Some(i) => if forward {
                if i + 1 < n {
                    i + 1
                } else {
                    0
                }
            } else if i == 0 {
                n - 1
            } else {
                i - 1
            },
            None => 0,
        };
        let id = self.store.conversation_order[p].clone();
        assert(id@ == self.state().store.conversation_order[p as int]);
        self.enter(id.as_str());
    }

    /// Moves to the next conversation of the sidebar.
    pub fn next_conversation(&mut self)
        ensures
            final(self).state() == moved(old(self).state(), true),
    {
        self.move_by(true);
    }

    /// Moves to the conversation before in the sidebar.
    pub fn prev_conversation(&mut self)
        ensures
            final(self).state() == moved(old(self).state(), false),
    {
        self.move_by(false);
    }

    /// Moves a conversation to the top of the sidebar.
    pub fn move_conversation_to_top(&mut self, id: &str)
        ensures
            final(self).state() == topped(old(self).state(), id@),
    {
        reveal(App::state);
        let _ = self.store.move_conversation_to_top(id);
    }
}

/// The state with a conversation at the top of the sidebar.
pub open spec fn topped(a: AppView, id: Seq<char>) -> AppView {
    AppView {
        store: ConversationStoreView {
            conversation_order: moved_to_front(a.store.conversation_order, id),
            ..a.store
        },
        ..a
    }
}

/// A conversation that was made sure of is there.
pub proof fn conversation_is_there(
    s: ConversationStoreView,
    id: Seq<char>,
    name: Seq<char>,
    is_group: bool,
)
    ensures
        holds(with_conversation(s, id, name, is_group).conversations, id),
{
    crate::strmap::place_finds(s.conversations, id);
    if !holds(s.conversations, id) {
        crate::strmap::look_after_put(
            s.conversations,
            id,
            crate::conversation_store::new_conversation(id, name, is_group),
            id,
        );
    } else {
        crate::strmap::look_after_put(
            s.conversations,
            id,
            ConversationView { name, ..at(s.conversations, id) },
            id,
        );
    }
}

// ---------------------------------------------------------------------------
// The sidebar
// ---------------------------------------------------------------------------

/// The narrowest that the sidebar can be.
pub const SIDEBAR_MIN: u16 = 14;

/// The widest that the sidebar can be.
pub const SIDEBAR_MAX: u16 = 40;

/// A width for the sidebar, kept between the narrowest and the widest.
pub open spec fn sidebar_width(n: int) -> u16 {
    if n < SIDEBAR_MIN {
        SIDEBAR_MIN
    } else if n > SIDEBAR_MAX {
        SIDEBAR_MAX
    } else {
        n as u16
    }
}

/// A conversation is there and its name holds a text, letter case aside.
pub open spec fn sidebar_match(
    convs: Seq<(Seq<char>, ConversationView)>,
    lower: Seq<char>,
    id: Seq<char>,
) -> bool {
    match look(convs, id) {
        Some(c) => contains_text(folded(c.name), lower),
        None => false,
    }
}

/// The state with the sidebar showing what matches the filter.
pub open spec fn sidebar_filtered(a: AppView) -> AppView {
    AppView {
        sidebar: SidebarStateView {
            filtered: a.store.conversation_order.filter(
                |id: Seq<char>| sidebar_match(a.store.conversations, folded(a.sidebar.filter), id),
            ),
            ..a.sidebar
        },
        ..a
    }
}

/// The state with another filter text for the sidebar.
pub open spec fn sidebar_filter_set(a: AppView, filter: Seq<char>) -> AppView {
    AppView { sidebar: SidebarStateView { filter, ..a.sidebar }, ..a }
}

/// The state after a key while the sidebar is filtered.
#[verifier::opaque]
pub open spec fn sidebar_key(a: AppView, code: KeyCode) -> AppView {
    match code {
        KeyCode::Esc => filter_cleared(a),
        KeyCode::Enter => if a.sidebar.filtered.len() == 0 {
            filter_cleared(a)
        } else {
            joined(filter_cleared(a), a.sidebar.filtered[0])
        },
        KeyCode::Char(c) => sidebar_filtered(sidebar_filter_set(a, a.sidebar.filter.push(c))),
        KeyCode::Backspace => {
            let b = sidebar_filter_set(a, popped(a.sidebar.filter));
            if b.sidebar.filter.len() == 0 {
                filter_cleared(b)
            } else {
                sidebar_filtered(b)
            }
        },
        _ => a,
    }
}

/// However often it is made wider or narrower, the sidebar keeps within its
/// bounds, and a width within them is left alone.
pub proof fn sidebar_keeps_within_bounds(n: int)
    ensures
        SIDEBAR_MIN <= sidebar_width(n) <= SIDEBAR_MAX,
        SIDEBAR_MIN <= n <= SIDEBAR_MAX ==> sidebar_width(n) == n,
{
}

impl App {
    /// Makes the sidebar wider or narrower.
    pub fn resize_sidebar(&mut self, delta: i16)
        ensures
            final(self).state() == (AppView {
                sidebar: SidebarStateView {
                    width: sidebar_width(old(self).state().sidebar.width + delta),
                    ..old(self).state().sidebar
                },
                ..old(self).state()
            }),
    {
        reveal(App::state);
        let n: i32 = self.sidebar.width as i32 + delta as i32;
        self.sidebar.width = if n < SIDEBAR_MIN as i32 {
            SIDEBAR_MIN
        } else if n > SIDEBAR_MAX as i32 {
            SIDEBAR_MAX
        } else {
            n as u16
        };
    }

    /// Shows what matches the filter in the sidebar.
    pub fn refresh_sidebar_filter(&mut self)
        ensures
            final(self).state() == sidebar_filtered(old(self).state()),
    {
        reveal(App::state);
        let lower = to_lower(self.sidebar.filter.as_str());
        let ghost order = self.store.conversation_order.deep_view();
        let ghost convs = self.store.conversations.deep_view();
        let ghost f = folded(self.sidebar.filter@);
        let ghost p = |id: Seq<char>| sidebar_match(convs, f, id);
        let mut out: Vec<String> = Vec::new();
        let mut i: usize = 0;
        proof {
            filter_none(order, p);
        }
        assert(out.deep_view() =~= order.take(0).filter(p));
        while i < self.store.conversation_order.len()
            invariant
                *self == *old(self),
                i <= self.store.conversation_order@.len(),
                order == self.store.conversation_order.deep_view(),
                convs == self.store.conversations.deep_view(),
                lower@ == f,
                p == |id: Seq<char>| sidebar_match(convs, f, id),
                out.deep_view() == order.take(i as int).filter(p),
            decreases self.store.conversation_order@.len() - i,
        {
            let id = self.store.conversation_order[i].clone();
            proof {
                filter_take(order, i as int, p);
            }
            let keep = match self.store.conversations.get(id.as_str()) {
                Some(c) => contains(to_lower(c.name.as_str()).as_str(), lower.as_str()),
                None => false,
            };
            if keep {
                let ghost before = out.deep_view();
                out.push(id);
                assert(out.deep_view() =~= before.push(id@));
            }
            i += 1;
        }
        assert(order.take(order.len() as int) =~= order);
        self.sidebar.filtered = out;
    }

    fn set_sidebar_filter(&mut self, filter: String)
        ensures
            final(self).state() == sidebar_filter_set(old(self).state(), filter@),
    {
        reveal(App::state);
        self.sidebar.filter = filter;
    }

    /// Handles a key while the sidebar is filtered.
    pub fn handle_sidebar_filter_key(&mut self, code: KeyCode)
        ensures
            final(self).state() == sidebar_key(old(self).state(), code),
    {
        reveal(sidebar_key);
        let ghost sb = self.state().sidebar;
        assert(sb == self.sidebar.deep_view()) by {
            reveal(App::state);
        }
        match code {
            KeyCode::Esc => {
                self.clear_sidebar_filter();
            },
            KeyCode::Enter => {
                if self.sidebar.filtered.len() == 0 {
                    self.clear_sidebar_filter();
                } else {
                    let id = self.sidebar.filtered[0].clone();
                    self.clear_sidebar_filter();
                    self.join_conversation(id.as_str());
                }
            },
            KeyCode::Char(c) => {
                let mut f = self.sidebar.filter.clone();
                f.push(c);
                self.set_sidebar_filter(f);
                self.refresh_sidebar_filter();
            },
            KeyCode::Backspace => {
                let mut f = self.sidebar.filter.clone();
                let _ = f.pop();
                let empty = f.as_str().is_empty();
                self.set_sidebar_filter(f);
                if empty {
                    self.clear_sidebar_filter();
                } else {
                    self.refresh_sidebar_filter();
                }
            },
            _ => {},
        }
    }
}

} // verus!
