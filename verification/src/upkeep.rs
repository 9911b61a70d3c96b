//! What is done from time to time.
use crate::app::{App, AppView, Effect, EffectView, PendingStateView};
use crate::common::{filter_none, filter_take};
use crate::conversation_store::{
    ConversationStoreView, ConversationView, DisplayMessage, DisplayMessageView,
};
use crate::signal::Duplicate;
use crate::strmap::StrMap;
use crate::text::concat2;
use vstd::prelude::*;

verus! {

// ---------------------------------------------------------------------------
// Disappearing messages
// ---------------------------------------------------------------------------

/// The time of a disappearing message is over.
pub open spec fn expired(m: DisplayMessageView, now_ms: i64) -> bool {
    m.expires_in_seconds > 0 && m.expiration_start_ms > 0 && m.expiration_start_ms
        + m.expires_in_seconds * 1000 < now_ms
}

/// Messages without those that are over.
pub open spec fn unexpired(s: Seq<DisplayMessageView>, now_ms: i64) -> Seq<DisplayMessageView> {
    s.filter(|m: DisplayMessageView| !expired(m, now_ms))
}

/// Conversations without the messages that are over.
pub open spec fn swept(
    convs: Seq<(Seq<char>, ConversationView)>,
    now_ms: i64,
) -> Seq<(Seq<char>, ConversationView)> {
    convs.map_values(
        |p: (Seq<char>, ConversationView)|
            (p.0, ConversationView { messages: unexpired(p.1.messages, now_ms), ..p.1 }),
    )
}

/// How many messages of the first `n` conversations are over.
pub open spec fn over(convs: Seq<(Seq<char>, ConversationView)>, now_ms: i64, n: int) -> nat
    decreases n,
{
    if n <= 0 {
        0
    } else {
        let s = convs[n - 1].1.messages;
        over(convs, now_ms, n - 1) + (s.len() - unexpired(s, now_ms).len()) as nat
    }
}

/// The state without the messages that are over, and whether anything is gone:
/// here, or in the database, where `db_deleted` are.
pub open spec fn expiry_swept(a: AppView, now_ms: i64, db_deleted: usize) -> (AppView, bool) {
    let convs = a.store.conversations;
    let gone = over(convs, now_ms, convs.len() as int);
    if a.expiring_msg_count == 0 {
        (a, false)
    } else {
        (
            AppView {
                store: ConversationStoreView { conversations: swept(convs, now_ms), ..a.store },
                expiring_msg_count: if a.expiring_msg_count > gone {
                    (a.expiring_msg_count - gone) as usize
                } else {
                    0
                },
                ..a
            },
            gone > 0 || db_deleted > 0,
        )
    }
}

/// Sweeping leaves no message whose time is over, and sweeping once more takes
/// nothing.
pub proof fn sweeping_is_thorough(s: Seq<DisplayMessageView>, now_ms: i64)
    ensures
        forall|i: int|
            0 <= i < unexpired(s, now_ms).len() ==> !expired(
                #[trigger] unexpired(s, now_ms)[i],
                now_ms,
            ),
        unexpired(unexpired(s, now_ms), now_ms) == unexpired(s, now_ms),
    decreases s.len(),
{
    reveal(Seq::filter);
    let p = |m: DisplayMessageView| !expired(m, now_ms);
    if s.len() > 0 {
        sweeping_is_thorough(s.drop_last(), now_ms);
        let rest = s.drop_last().filter(p);
        if p(s.last()) {
            assert(rest.push(s.last()).drop_last() =~= rest);
        }
    }
}

fn is_over(m: &DisplayMessage, now_ms: i64) -> (r: bool)
    ensures
        r == expired(m.deep_view(), now_ms),
{
    m.expires_in_seconds > 0 && m.expiration_start_ms > 0 && (m.expiration_start_ms as i128
        + m.expires_in_seconds as i128 * 1000) < now_ms as i128
}

fn keep_unexpired(v: &Vec<DisplayMessage>, now_ms: i64) -> (r: Vec<DisplayMessage>)
    ensures
        r.deep_view() == unexpired(v.deep_view(), now_ms),
        r@.len() <= v@.len(),
{
    let ghost s = v.deep_view();
    let ghost p = |m: DisplayMessageView| !expired(m, now_ms);
    let mut out: Vec<DisplayMessage> = Vec::new();
    let mut i: usize = 0;
    proof {
        filter_none(s, p);
    }
    assert(out.deep_view() =~= s.take(0).filter(p));
    while i < v.len()
        invariant
            i <= v@.len(),
            s == v.deep_view(),
            p == |m: DisplayMessageView| !expired(m, now_ms),
            out.deep_view() == s.take(i as int).filter(p),
            out@.len() <= i,
        decreases v@.len() - i,
    {
        proof {
            filter_take(s, i as int, p);
            assert(s[i as int] == v@[i as int].deep_view());
        }
        if !is_over(&v[i], now_ms) {
            let ghost before = out.deep_view();
            let m = v[i].duplicate();
            out.push(m);
            assert(out.deep_view() =~= before.push(m.deep_view()));
        }
        i += 1;
    }
    assert(s.take(s.len() as int) =~= s);
    out
}

impl App {
    /// Takes out the messages whose time is over. Says whether anything is gone:
    /// here, or in the database, where `db_deleted` are.
    pub fn sweep_expired_messages(&mut self, now_ms: i64, db_deleted: usize) -> (r: bool)
        ensures
            (final(self).state(), r) == expiry_swept(old(self).state(), now_ms, db_deleted),
    {
        reveal(App::state);
        if self.expiring_msg_count == 0 {
            return false;
        }
        let ghost s = self.store.conversations.deep_view();
        let ghost done = swept(s, now_ms);
        let mut gone: usize = 0;
        let mut i: usize = 0;
        while i < self.store.conversations.entries.len()
            invariant
                i <= self.store.conversations.entries@.len(),
                self.store.conversations.entries@.len() == s.len(),
                done == swept(s, now_ms),
                *self == (App {
                    store: crate::conversation_store::ConversationStore {
                        conversations: self.store.conversations,
                        ..old(self).store
                    },
                    ..*old(self)
                }),
                forall|k: int|
                    0 <= k < i ==> (#[trigger] self.store.conversations.entries@[k]).deep_view()
                        == done[k],
                forall|k: int|
                    i <= k < s.len() ==> (
                    #[trigger] self.store.conversations.entries@[k]).deep_view() == s[k],
                gone == over(s, now_ms, i as int) || (gone == usize::MAX && over(
                    s,
                    now_ms,
                    i as int,
                ) >= usize::MAX),
            decreases self.store.conversations.entries@.len() - i,
        {
            assert(self.store.conversations.entries@[i as int].deep_view() == s[i as int]);
            let before = self.store.conversations.entries[i].1.messages.len();
            let kept = keep_unexpired(&self.store.conversations.entries[i].1.messages, now_ms);
            gone = gone.saturating_add(before - kept.len());
            self.store.conversations.entries[i].1.messages = kept;
            i += 1;
        }
        assert(self.store.conversations.deep_view() =~= done);
        self.expiring_msg_count = self.expiring_msg_count.saturating_sub(gone);
        gone > 0 || db_deleted > 0
    }
}

// ---------------------------------------------------------------------------
// The clipboard
// ---------------------------------------------------------------------------

/// The state with a text in the clipboard. When it is to be taken out again is
/// counted from now.
pub open spec fn copied(a: AppView, clock_ms: u64) -> AppView {
    let b = a.say("Copied to clipboard"@);
    if a.clipboard_clear_seconds > 0 {
        AppView { clipboard_set_at: Some(clock_ms), ..b }
    } else {
        b
    }
}

/// It is time to empty the clipboard.
pub open spec fn clipboard_due(a: AppView, clock_ms: u64) -> bool {
    match a.clipboard_set_at {
        Some(t) => if clock_ms > t {
            (clock_ms - t) / 1000 >= a.clipboard_clear_seconds
        } else {
            a.clipboard_clear_seconds == 0
        },
        None => false,
    }
}

/// The state with the clipboard emptied, where it is time.
pub open spec fn clipboard_checked(a: AppView, clock_ms: u64) -> AppView {
    if clipboard_due(a, clock_ms) {
        AppView { clipboard_set_at: None, ..a }.ask(EffectView::ClearClipboard)
    } else {
        a
    }
}

impl App {
    /// Tells that a message is in the clipboard.
    pub fn clipboard_filled(&mut self, clock_ms: u64)
        ensures
            final(self).state() == copied(old(self).state(), clock_ms),
    {
        self.set_status("Copied to clipboard");
        reveal(App::state);
        if self.clipboard_clear_seconds > 0 {
            self.clipboard_set_at = Some(clock_ms);
        }
    }

    /// Tells that the clipboard does not work.
    pub fn clipboard_failed(&mut self, error: &str)
        ensures
            final(self).state() == old(self).state().say("Clipboard error: "@ + error@),
    {
        let text = concat2("Clipboard error: ", error);
        self.set_status(text.as_str());
    }

    fn forget_clipboard(&mut self)
        ensures
            final(self).state() == (AppView { clipboard_set_at: None, ..old(self).state() }),
    {
        reveal(App::state);
        self.clipboard_set_at = None;
    }

    /// Asks for the clipboard to be emptied, where it is time.
    pub fn check_clipboard_clear(&mut self, clock_ms: u64)
        ensures
            final(self).state() == clipboard_checked(old(self).state(), clock_ms),
    {
        assert(self.clipboard_set_at == self.state().clipboard_set_at
            && self.clipboard_clear_seconds == self.state().clipboard_clear_seconds) by {
            reveal(App::state);
        }
        if let Some(t) = self.clipboard_set_at {
            if clock_ms.saturating_sub(t) / 1000 >= self.clipboard_clear_seconds {
                self.forget_clipboard();
                self.request(Effect::ClearClipboard);
            }
        }
    }
}

// ---------------------------------------------------------------------------
// Pasted images
// ---------------------------------------------------------------------------

/// The time of a pasted image has come to be removed.
pub open spec fn paste_due(e: (Seq<char>, (Seq<char>, u64)), clock_ms: u64) -> bool {
    let (_, file) = e;
    let (_, at) = file;
    clock_ms >= at
}

/// The files among the first `n` whose time has come.
pub open spec fn removals(
    s: Seq<(Seq<char>, (Seq<char>, u64))>,
    clock_ms: u64,
    n: int,
) -> Seq<EffectView>
    decreases n,
{
    if n <= 0 {
        Seq::empty()
    } else if paste_due(s[n - 1], clock_ms) {
        let (_, file) = s[n - 1];
        let (path, _) = file;
        removals(s, clock_ms, n - 1).push(EffectView::RemoveFile(path))
    } else {
        removals(s, clock_ms, n - 1)
    }
}

/// The state with the removal of pasted images asked for whose time has come.
pub open spec fn pastes_cleaned(a: AppView, clock_ms: u64) -> AppView {
    let s = a.pending.paste_cleanups;
    AppView {
        pending: PendingStateView {
            paste_cleanups: s.filter(
                |e: (Seq<char>, (Seq<char>, u64))| !paste_due(e, clock_ms),
            ),
            ..a.pending
        },
        effects: a.effects + removals(s, clock_ms, s.len() as int),
        ..a
    }
}

impl App {
    /// Asks for the removal of pasted images whose time has come.
    pub fn cleanup_paste_files(&mut self, clock_ms: u64)
        ensures
            final(self).state() == pastes_cleaned(old(self).state(), clock_ms),
    {
        reveal(App::state);
        let ghost s = self.pending.paste_cleanups.deep_view();
        let ghost p = |e: (Seq<char>, (Seq<char>, u64))| !paste_due(e, clock_ms);
        let ghost asked = self.effects.deep_view();
        let mut kept: Vec<(String, (String, u64))> = Vec::new();
        let mut i: usize = 0;
        proof {
            filter_none(s, p);
        }
        assert(kept.deep_view() =~= s.take(0).filter(p));
        assert(asked + Seq::<EffectView>::empty() =~= asked);
        while i < self.pending.paste_cleanups.entries.len()
            invariant
                i <= self.pending.paste_cleanups.entries@.len(),
                *self == (App { effects: self.effects, ..*old(self) }),
                s == self.pending.paste_cleanups.deep_view(),
                p == |e: (Seq<char>, (Seq<char>, u64))| !paste_due(e, clock_ms),
                kept.deep_view() == s.take(i as int).filter(p),
                self.effects.deep_view() == asked + removals(s, clock_ms, i as int),
            decreases self.pending.paste_cleanups.entries@.len() - i,
        {
            proof {
                filter_take(s, i as int, p);
                assert(s[i as int] == self.pending.paste_cleanups.entries@[i as int].deep_view());
            }
            let ghost before = kept.deep_view();
            let ghost done = self.effects.deep_view();
            let (key, file) = self.pending.paste_cleanups.entries[i].duplicate();
            let (path, at) = file;
            if clock_ms >= at {
                self.effects.push(Effect::RemoveFile(path));
                assert(self.effects.deep_view() =~= done.push(EffectView::RemoveFile(path@)));
                assert(self.effects.deep_view() =~= asked + removals(s, clock_ms, i + 1));
            } else {
                kept.push((key, (path, at)));
                assert(kept.deep_view() =~= before.push(s[i as int]));
            }
            i += 1;
        }
        assert(s.take(s.len() as int) =~= s);
        self.pending.paste_cleanups = StrMap { entries: kept };
    }
}

} // verus!
