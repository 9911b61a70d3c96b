//! What becomes of messages that were sent, and of what was read elsewhere.
use crate::app::{App, AppView, PendingStateView};
use crate::conversation_store::{
    find_message, msg_at, slot, slot_finds, slot_for, Conversation, ConversationStoreView,
    ConversationView, DisplayMessage, DisplayMessageView,
};
use crate::db::{quiet, shown, DbJobView, DbWrite, DbWriteView};
use crate::signal::{Duplicate, MessageStatus};
use crate::strmap::{at, del, holds, look, put, StrMap};
use crate::text::{capitals, same, to_upper};
use vstd::prelude::*;

verus! {

// ---------------------------------------------------------------------------
// Upgrading the status of a message
// ---------------------------------------------------------------------------

/// The message of one's own at a time.
pub open spec fn own_message(msgs: Seq<DisplayMessageView>, ts: i64) -> Option<int> {
    match msg_at(msgs, ts) {
        Some(i) => if msgs[i].sender == "you"@ {
            Some(i)
        } else {
            None
        },
        None => None,
    }
}

/// A receipt moves a message on: it has a status, and the new one is further.
pub open spec fn moves_on(m: DisplayMessageView, status: MessageStatus) -> bool {
    match m.status {
        Some(cur) => status.rank() > cur.rank(),
        None => false,
    }
}

/// A receipt for a time changes something in a conversation.
pub open spec fn receipt_changes(c: ConversationView, ts: i64, status: MessageStatus) -> bool {
    match own_message(c.messages, ts) {
        Some(i) => moves_on(c.messages[i], status),
        None => false,
    }
}

/// A conversation after a receipt for a time.
pub open spec fn receipted(
    c: ConversationView,
    ts: i64,
    status: MessageStatus,
) -> ConversationView {
    if receipt_changes(c, ts, status) {
        let i = own_message(c.messages, ts)->0;
        ConversationView {
            messages: c.messages.update(
                i,
                DisplayMessageView { status: Some(status), ..c.messages[i] },
            ),
            ..c
        }
    } else {
        c
    }
}

/// What is written of a status.
pub open spec fn status_job(id: Seq<char>, ts: i64, status: MessageStatus) -> DbJobView {
    quiet(
        DbWriteView::UpdateMessageStatus {
            conv_id: id,
            timestamp_ms: ts,
            status_code: status.rank() as i32,
        },
        "update_message_status"@,
    )
}

/// The state after a receipt for a time in one conversation.
pub open spec fn receipt_in(a: AppView, id: Seq<char>, ts: i64, status: MessageStatus) -> AppView {
    match look(a.store.conversations, id) {
        Some(c) => {
            let b = a.with_conv(id, receipted(c, ts, status));
            if receipt_changes(c, ts, status) {
                b.write(status_job(id, ts, status))
            } else {
                b
            }
        },
        None => a,
    }
}

/// A conversation holds one's own message of a time.
pub open spec fn receipt_matches(a: AppView, id: Seq<char>, ts: i64) -> bool {
    match look(a.store.conversations, id) {
        Some(c) => own_message(c.messages, ts) is Some,
        None => false,
    }
}

/// The state after receipts for times in one conversation.
pub open spec fn receipts_in(
    a: AppView,
    id: Seq<char>,
    times: Seq<i64>,
    status: MessageStatus,
) -> AppView
    decreases times.len(),
{
    if times.len() == 0 {
        a
    } else {
        receipt_in(receipts_in(a, id, times.drop_last(), status), id, times.last(), status)
    }
}

/// One of the times is that of a message of one's own in a conversation.
pub open spec fn any_matches(
    a: AppView,
    id: Seq<char>,
    times: Seq<i64>,
    status: MessageStatus,
) -> bool
    decreases times.len(),
{
    times.len() > 0 && (any_matches(a, id, times.drop_last(), status) || receipt_matches(
        receipts_in(a, id, times.drop_last(), status),
        id,
        times.last(),
    ))
}

/// The first conversation from `i` on that holds one's own message of a time,
/// or their number.
pub open spec fn conversation_of(
    s: Seq<(Seq<char>, ConversationView)>,
    ts: i64,
    i: int,
) -> int
    decreases s.len() - i,
{
    if i < 0 || i >= s.len() {
        s.len() as int
    } else if own_message(s[i].1.messages, ts) is Some {
        i
    } else {
        conversation_of(s, ts, i + 1)
    }
}

/// The state after a receipt for a time in whichever conversation holds it.
pub open spec fn receipt_anywhere(a: AppView, ts: i64, status: MessageStatus) -> AppView {
    let s = a.store.conversations;
    let i = conversation_of(s, ts, 0);
    if i < s.len() {
        let b = AppView {
            store: ConversationStoreView {
                conversations: s.update(i, (s[i].0, receipted(s[i].1, ts, status))),
                ..a.store
            },
            ..a
        };
        if receipt_changes(s[i].1, ts, status) {
            b.write(status_job(s[i].0, ts, status))
        } else {
            b
        }
    } else {
        a
    }
}

/// Some conversation holds one's own message of a time.
pub open spec fn matches_anywhere(a: AppView, ts: i64) -> bool {
    conversation_of(a.store.conversations, ts, 0) < a.store.conversations.len()
}

/// The state after receipts for times, each in whichever conversation holds it.
pub open spec fn receipts_anywhere(
    a: AppView,
    times: Seq<i64>,
    status: MessageStatus,
) -> AppView
    decreases times.len(),
{
    if times.len() == 0 {
        a
    } else {
        receipt_anywhere(receipts_anywhere(a, times.drop_last(), status), times.last(), status)
    }
}

/// One of the times is that of a message of one's own.
pub open spec fn any_matches_anywhere(
    a: AppView,
    times: Seq<i64>,
    status: MessageStatus,
) -> bool
    decreases times.len(),
{
    times.len() > 0 && (any_matches_anywhere(a, times.drop_last(), status) || matches_anywhere(
        receipts_anywhere(a, times.drop_last(), status),
        times.last(),
    ))
}

/// The status that a kind of receipt stands for.
pub open spec fn receipt_status(kind: Seq<char>) -> Option<MessageStatus> {
    if capitals(kind) == "DELIVERY"@ {
        Some(MessageStatus::Delivered)
    } else if capitals(kind) == "READ"@ {
        Some(MessageStatus::Read)
    } else if capitals(kind) == "VIEWED"@ {
        Some(MessageStatus::Viewed)
    } else {
        None
    }
}

/// The state after receipts from someone: in the conversation with them, else
/// in whichever holds the messages; where none does, they are kept for later.
#[verifier::opaque]
pub open spec fn receipts_taken(
    a: AppView,
    sender: Seq<char>,
    kind: Seq<char>,
    times: Seq<i64>,
) -> AppView {
    match receipt_status(kind) {
        None => a,
        Some(status) => {
            let b = receipts_in(a, sender, times, status);
            let c = receipts_anywhere(b, times, status);
            if any_matches(a, sender, times, status) {
                b
            } else if any_matches_anywhere(b, times, status) || times.len() == 0 {
                c
            } else {
                AppView {
                    pending: PendingStateView {
                        receipts: c.pending.receipts.push((sender, kind, times)),
                        ..c.pending
                    },
                    ..c
                }
            }
        },
    }
}

/// A receipt never takes a message back: no status in a conversation gets less
/// than it was, and only a status changes.
pub proof fn receipts_never_downgrade(
    c: ConversationView,
    ts: i64,
    status: MessageStatus,
    i: int,
)
    requires
        0 <= i < c.messages.len(),
    ensures
        receipted(c, ts, status).messages.len() == c.messages.len(),
        c.messages[i].status is None ==> receipted(c, ts, status).messages[i].status is None,
        c.messages[i].status is Some ==> receipted(c, ts, status).messages[i].status is Some
            && receipted(c, ts, status).messages[i].status->0.rank()
            >= c.messages[i].status->0.rank(),
        receipted(c, ts, status).messages[i] == (DisplayMessageView {
            status: receipted(c, ts, status).messages[i].status,
            ..c.messages[i]
        }),
{
    slot_finds(c.messages, ts);
}

/// A receipt that came twice does no more than once.
pub proof fn receipts_count_once(c: ConversationView, ts: i64, status: MessageStatus)
    ensures
        receipted(receipted(c, ts, status), ts, status) == receipted(c, ts, status),
{
    let d = receipted(c, ts, status);
    if receipt_changes(c, ts, status) {
        let i = own_message(c.messages, ts)->0;
        slot_finds(c.messages, ts);
        same_times_same_slot(c.messages, d.messages, ts);
        assert(own_message(d.messages, ts) == Some(i));
    }
}

pub(crate) proof fn same_times_same_slot(
    a: Seq<DisplayMessageView>,
    b: Seq<DisplayMessageView>,
    ts: i64,
)
    requires
        a.len() == b.len(),
        forall|i: int| 0 <= i < a.len() ==> (#[trigger] a[i]).timestamp_ms == b[i].timestamp_ms,
    ensures
        slot(a, ts) == slot(b, ts),
    decreases a.len(),
{
    if a.len() > 0 {
        assert(a.last().timestamp_ms == a[a.len() - 1].timestamp_ms);
        if a.last().timestamp_ms > ts {
            assert forall|i: int| 0 <= i < a.drop_last().len() implies (
            #[trigger] a.drop_last()[i]).timestamp_ms == b.drop_last()[i].timestamp_ms by {
                assert(a[i].timestamp_ms == b[i].timestamp_ms);
            }
            same_times_same_slot(a.drop_last(), b.drop_last(), ts);
        }
    }
}

fn find_own(msgs: &Vec<DisplayMessage>, ts: i64) -> (r: Option<usize>)
    ensures
        match r {
            Some(i) => i < msgs@.len() && own_message(msgs.deep_view(), ts) == Some(i as int),
            None => own_message(msgs.deep_view(), ts) is None,
        },
{
    match find_message(msgs, ts) {
        Some(i) => {
            assert(msgs.deep_view()[i as int] == msgs@[i as int].deep_view());
            if same(msgs[i].sender.as_str(), "you") {
                Some(i)
            } else {
                None
            }
        },
        None => None,
    }
}

fn can_move_on(m: &DisplayMessage, status: MessageStatus) -> (r: bool)
    ensures
        r == moves_on(m.deep_view(), status),
{
    match m.status {
        Some(cur) => status.to_i32() > cur.to_i32(),
        None => false,
    }
}

fn set_message_status(msgs: &mut Vec<DisplayMessage>, i: usize, status: MessageStatus)
    requires
        i < old(msgs)@.len(),
    ensures
        final(msgs).deep_view() == old(msgs).deep_view().update(
            i as int,
            (DisplayMessageView { status: Some(status), ..old(msgs).deep_view()[i as int] }),
        ),
{
    let ghost before = msgs.deep_view();
    msgs[i].status = Some(status);
    assert(msgs.deep_view() =~= before.update(
        i as int,
        (DisplayMessageView { status: Some(status), ..before[i as int] }),
    ));
}

fn upgrade(c: &mut Conversation, ts: i64, status: MessageStatus) -> (r: (bool, bool))
    ensures
        final(c).deep_view() == receipted(old(c).deep_view(), ts, status),
        r.0 == (own_message(old(c).deep_view().messages, ts) is Some),
        r.1 == receipt_changes(old(c).deep_view(), ts, status),
{
    match find_own(&c.messages, ts) {
        Some(i) => {
            assert(c.messages.deep_view()[i as int] == c.messages@[i as int].deep_view());
            let moves = can_move_on(&c.messages[i], status);
            if moves {
                set_message_status(&mut c.messages, i, status);
            }
            (true, moves)
        },
        None => (false, false),
    }
}

impl App {
    fn record_status(&mut self, id: String, ts: i64, status: MessageStatus)
        ensures
            final(self).state() == old(self).state().write(status_job(id@, ts, status)),
    {
        self.record(
            DbWrite::UpdateMessageStatus {
                conv_id: id,
                timestamp_ms: ts,
                status_code: status.to_i32(),
            },
            "update_message_status",
            false,
        );
    }

    fn upgrade_in(&mut self, id: &str, ts: i64, status: MessageStatus) -> (r: (bool, bool))
        ensures
            final(self).state() == match look(old(self).state().store.conversations, id@) {
                Some(c) => old(self).state().with_conv(id@, receipted(c, ts, status)),
                None => old(self).state(),
            },
            r.0 == receipt_matches(old(self).state(), id@, ts),
            r.1 == match look(old(self).state().store.conversations, id@) {
                Some(c) => receipt_changes(c, ts, status),
                None => false,
            },
    {
        reveal(App::state);
        match self.store.conversations.get_mut(id) {
            Some(c) => upgrade(c, ts, status),
            None => (false, false),
        }
    }

    fn take_receipt_in(&mut self, id: &str, ts: i64, status: MessageStatus) -> (r: bool)
        ensures
            final(self).state() == receipt_in(old(self).state(), id@, ts, status),
            r == receipt_matches(old(self).state(), id@, ts),
    {
        let (matched, changed) = self.upgrade_in(id, ts, status);
        if changed {
            self.record_status(id.to_string(), ts, status);
        }
        matched
    }

    fn take_receipts_in(&mut self, id: &str, times: &Vec<i64>, status: MessageStatus) -> (r: bool)
        ensures
            final(self).state() == receipts_in(old(self).state(), id@, times@, status),
            r == any_matches(old(self).state(), id@, times@, status),
    {
        let mut any = false;
        let mut i: usize = 0;
        assert(times@.take(0) =~= Seq::<i64>::empty());
        while i < times.len()
            invariant
                i <= times@.len(),
                self.state() == receipts_in(
                    old(self).state(),
                    id@,
                    times@.take(i as int),
                    status,
                ),
                any == any_matches(old(self).state(), id@, times@.take(i as int), status),
            decreases times@.len() - i,
        {
            assert(times@.take(i + 1).drop_last() =~= times@.take(i as int));
            if self.take_receipt_in(id, times[i], status) {
                any = true;
            }
            i += 1;
        }
        assert(times@.take(times@.len() as int) =~= times@);
        any
    }

    fn find_conversation_of(&self, ts: i64) -> (r: Option<usize>)
        ensures
            match r {
                Some(i) => i < self.store.conversations.entries@.len() && i == conversation_of(
                    self.state().store.conversations,
                    ts,
                    0,
                ),
                None => !matches_anywhere(self.state(), ts),
            },
    {
        reveal(App::state);
        let ghost s = self.store.conversations.deep_view();
        let mut i: usize = 0;
        while i < self.store.conversations.entries.len()
            invariant
                i <= self.store.conversations.entries@.len(),
                s == self.store.conversations.deep_view(),
                s == self.state().store.conversations,
                conversation_of(s, ts, 0) == conversation_of(s, ts, i as int),
            decreases self.store.conversations.entries@.len() - i,
        {
            assert(s[i as int].1 == self.store.conversations.entries@[i as int].1.deep_view());
            if find_own(&self.store.conversations.entries[i].1.messages, ts).is_some() {
                return Some(i);
            }
            i += 1;
        }
        None
    }

    fn take_receipt_anywhere(&mut self, ts: i64, status: MessageStatus) -> (r: bool)
        ensures
            final(self).state() == receipt_anywhere(old(self).state(), ts, status),
            r == matches_anywhere(old(self).state(), ts),
    {
        match self.find_conversation_of(ts) {
            Some(i) => {
                let id = self.store.conversations.entries[i].0.clone();
                let changed = self.upgrade_at(i, ts, status);
                if changed {
                    self.record_status(id, ts, status);
                }
                true
            },
            None => false,
        }
    }

    fn upgrade_at(&mut self, i: usize, ts: i64, status: MessageStatus) -> (r: bool)
        requires
            i < old(self).store.conversations.entries@.len(),
        ensures
            final(self).state() == (AppView {
                store: ConversationStoreView {
                    conversations: old(self).state().store.conversations.update(
                        i as int,
                        (
                            old(self).state().store.conversations[i as int].0,
                            receipted(
                                old(self).state().store.conversations[i as int].1,
                                ts,
                                status,
                            ),
                        ),
                    ),
                    ..old(self).state().store
                },
                ..old(self).state()
            }),
            r == receipt_changes(old(self).state().store.conversations[i as int].1, ts, status),
            old(self).state().store.conversations[i as int].0 == old(
                self,
            ).store.conversations.entries@[i as int].0@,
            i < old(self).state().store.conversations.len(),
    {
        reveal(App::state);
        let ghost before = self.store.conversations.deep_view();
        let (_, changed) = upgrade(&mut self.store.conversations.entries[i].1, ts, status);
        assert(self.store.conversations.deep_view() =~= before.update(
            i as int,
            (before[i as int].0, receipted(before[i as int].1, ts, status)),
        ));
        changed
    }

    fn take_receipts_anywhere(&mut self, times: &Vec<i64>, status: MessageStatus) -> (r: bool)
        ensures
            final(self).state() == receipts_anywhere(old(self).state(), times@, status),
            r == any_matches_anywhere(old(self).state(), times@, status),
    {
        let mut any = false;
        let mut i: usize = 0;
        assert(times@.take(0) =~= Seq::<i64>::empty());
        while i < times.len()
            invariant
                i <= times@.len(),
                self.state() == receipts_anywhere(old(self).state(), times@.take(i as int), status),
                any == any_matches_anywhere(old(self).state(), times@.take(i as int), status),
            decreases times@.len() - i,
        {
            assert(times@.take(i + 1).drop_last() =~= times@.take(i as int));
            if self.take_receipt_anywhere(times[i], status) {
                any = true;
            }
            i += 1;
        }
        assert(times@.take(times@.len() as int) =~= times@);
        any
    }

    fn keep_receipt(&mut self, sender: String, kind: String, times: Vec<i64>)
        ensures
            final(self).state() == (AppView {
                pending: PendingStateView {
                    receipts: old(self).state().pending.receipts.push(
                        (sender@, kind@, times.deep_view()),
                    ),
                    ..old(self).state().pending
                },
                ..old(self).state()
            }),
    {
        reveal(App::state);
        let ghost before = self.pending.receipts.deep_view();
        self.pending.receipts.push((sender, kind, times));
        assert(self.pending.receipts.deep_view() =~= before.push(
            (sender@, kind@, times.deep_view()),
        ));
    }

    /// Takes receipts from someone.
    pub fn handle_receipt(&mut self, sender: &str, receipt_type: &str, timestamps: &Vec<i64>)
        ensures
            final(self).state() == receipts_taken(
                old(self).state(),
                sender@,
                receipt_type@,
                timestamps.deep_view(),
            ),
    {
        reveal(receipts_taken);
        assert(timestamps.deep_view() =~= timestamps@);
        let upper = to_upper(receipt_type);
        let status = if same(upper.as_str(), "DELIVERY") {
            MessageStatus::Delivered
        } else if same(upper.as_str(), "READ") {
            MessageStatus::Read
        } else if same(upper.as_str(), "VIEWED") {
            MessageStatus::Viewed
        } else {
            return;
        };
        if self.take_receipts_in(sender, timestamps, status) {
            return;
        }
        if !self.take_receipts_anywhere(timestamps, status) && timestamps.len() > 0 {
            self.keep_receipt(
                sender.to_string(),
                receipt_type.to_string(),
                timestamps.duplicate(),
            );
        }
    }
}

// ---------------------------------------------------------------------------
// Answers to what was sent
// ---------------------------------------------------------------------------

/// How long a pasted file is kept after it was sent, in milliseconds.
pub const PASTE_CLEANUP_DELAY_MS: u64 = 10_000;

/// How long a pasted file is kept where no answer comes, in milliseconds.
pub const PASTE_CLEANUP_SENTINEL_MS: u64 = 3_600_000;

/// A moment later, as far as a clock can tell.
pub open spec fn later(now: u64, by: u64) -> u64 {
    if now + by > u64::MAX {
        u64::MAX
    } else {
        (now + by) as u64
    }
}

/// The state with the pasted file of a request to be removed soon.
pub open spec fn cleanup_due(a: AppView, rpc: Seq<char>, now: u64) -> AppView {
    match look(a.pending.paste_cleanups, rpc) {
        Some((path, _)) => AppView {
            pending: PendingStateView {
                paste_cleanups: put(
                    a.pending.paste_cleanups,
                    rpc,
                    (path, later(now, PASTE_CLEANUP_DELAY_MS)),
                ),
                ..a.pending
            },
            ..a
        },
        None => a,
    }
}

/// The state without a request that was answered.
pub open spec fn send_forgotten(a: AppView, rpc: Seq<char>) -> AppView {
    AppView { pending: PendingStateView { sends: del(a.pending.sends, rpc), ..a.pending }, ..a }
}

/// The place of the message that a request sent.
pub open spec fn sent_place(a: AppView, id: Seq<char>, ts: i64) -> Option<int> {
    match look(a.store.conversations, id) {
        Some(c) => own_message(c.messages, ts),
        None => None,
    }
}

/// The state with a message that was sent: it takes the time of the service and
/// is marked as sent.
pub open spec fn send_confirmed(a: AppView, id: Seq<char>, ts: i64, new_ts: i64) -> AppView {
    match sent_place(a, id, ts) {
        Some(i) => a.with_msg(
            id,
            i,
            DisplayMessageView {
                timestamp_ms: new_ts,
                status: Some(MessageStatus::Sent),
                ..at(a.store.conversations, id).messages[i]
            },
        ).write(
            shown(
                DbWriteView::UpdateMessageTimestamp {
                    conv_id: id,
                    old_ts_ms: ts,
                    new_ts_ms: new_ts,
                    status_code: MessageStatus::Sent.rank() as i32,
                },
                "update_message_timestamp_ms"@,
            ),
        ),
        None => a,
    }
}

/// The state with a message that could not be sent.
pub open spec fn send_lost(a: AppView, id: Seq<char>, ts: i64) -> AppView {
    match sent_place(a, id, ts) {
        Some(i) => a.with_msg(
            id,
            i,
            DisplayMessageView {
                status: Some(MessageStatus::Failed),
                ..at(a.store.conversations, id).messages[i]
            },
        ).write(
            shown(
                DbWriteView::UpdateMessageStatus {
                    conv_id: id,
                    timestamp_ms: ts,
                    status_code: MessageStatus::Failed.rank() as i32,
                },
                "update_message_status"@,
            ),
        ),
        None => a,
    }
}

/// The state with receipts that were kept taken again, one after the other.
pub open spec fn receipts_replayed(
    a: AppView,
    list: Seq<(Seq<char>, Seq<char>, Seq<i64>)>,
) -> AppView
    decreases list.len(),
{
    if list.len() == 0 {
        a
    } else {
        let (sender, kind, times) = list.last();
        receipts_taken(receipts_replayed(a, list.drop_last()), sender, kind, times)
    }
}

/// The state after the service has taken a message: receipts that came before
/// are taken now.
#[verifier::opaque]
pub open spec fn send_answered(a: AppView, rpc: Seq<char>, server_ts: i64, now: u64) -> AppView {
    let b = cleanup_due(a, rpc, now);
    match look(b.pending.sends, rpc) {
        Some((id, local_ts)) => {
            let c = send_confirmed(
                send_forgotten(b, rpc),
                id,
                local_ts,
                if server_ts != 0 {
                    server_ts
                } else {
                    local_ts
                },
            );
            receipts_replayed(
                AppView { pending: PendingStateView { receipts: Seq::empty(), ..c.pending }, ..c },
                c.pending.receipts,
            )
        },
        None => b,
    }
}

/// The state after the service has refused a message.
#[verifier::opaque]
pub open spec fn send_failed(a: AppView, rpc: Seq<char>, now: u64) -> AppView {
    let b = cleanup_due(a, rpc, now);
    match look(b.pending.sends, rpc) {
        Some((id, local_ts)) => send_lost(send_forgotten(b, rpc), id, local_ts),
        None => b,
    }
}

impl App {
    fn schedule_cleanup(&mut self, rpc: &str, now: u64)
        ensures
            final(self).state() == cleanup_due(old(self).state(), rpc@, now),
    {
        reveal(App::state);
        let path = match self.pending.paste_cleanups.get(rpc) {
            Some(p) => Some(p.0.clone()),
            None => None,
        };
        if let Some(path) = path {
            let due = now.saturating_add(PASTE_CLEANUP_DELAY_MS);
            self.pending.paste_cleanups.insert(rpc.to_string(), (path, due));
        }
    }

    fn take_send(&mut self, rpc: &str) -> (r: Option<(String, i64)>)
        ensures
            final(self).state() == send_forgotten(old(self).state(), rpc@),
            r.deep_view() == look(old(self).state().pending.sends, rpc@),
    {
        reveal(App::state);
        self.pending.sends.remove(rpc)
    }

    fn find_sent(&self, id: &str, ts: i64) -> (r: Option<usize>)
        ensures
            match r {
                Some(i) => sent_place(self.state(), id@, ts) == Some(i as int)
                    && self.state().store.conversations == self.store.conversations.deep_view(),
                None => sent_place(self.state(), id@, ts) is None,
            },
    {
        reveal(App::state);
        match self.store.conversations.get(id) {
            Some(c) => find_own(&c.messages, ts),
            None => None,
        }
    }

    fn restamp(&mut self, id: &str, i: usize, ts: i64, status: MessageStatus)
        requires
            holds(old(self).state().store.conversations, id@),
            i < at(old(self).state().store.conversations, id@).messages.len(),
        ensures
            final(self).state() == old(self).state().with_msg(
                id@,
                i as int,
                DisplayMessageView {
                    timestamp_ms: ts,
                    status: Some(status),
                    ..at(old(self).state().store.conversations, id@).messages[i as int]
                },
            ),
    {
        reveal(App::state);
        if let Some(c) = self.store.conversations.get_mut(id) {
            let ghost before = c.messages.deep_view();
            let ghost old_m = c.messages@[i as int].deep_view();
            c.messages[i].timestamp_ms = ts;
            c.messages[i].status = Some(status);
            assert(c.messages.deep_view() =~= before.update(
                i as int,
                (DisplayMessageView { timestamp_ms: ts, status: Some(status), ..old_m }),
            ));
        }
    }

    fn confirm_send(&mut self, id: &str, ts: i64, new_ts: i64)
        ensures
            final(self).state() == send_confirmed(old(self).state(), id@, ts, new_ts),
    {
        if let Some(i) = self.find_sent(id, ts) {
            proof {
                slot_finds(at(self.state().store.conversations, id@).messages, ts);
            }
            self.restamp(id, i, new_ts, MessageStatus::Sent);
            self.record(
                DbWrite::UpdateMessageTimestamp {
                    conv_id: id.to_string(),
                    old_ts_ms: ts,
                    new_ts_ms: new_ts,
                    status_code: MessageStatus::Sent.to_i32(),
                },
                "update_message_timestamp_ms",
                true,
            );
        }
    }

    fn lose_send(&mut self, id: &str, ts: i64)
        ensures
            final(self).state() == send_lost(old(self).state(), id@, ts),
    {
        if let Some(i) = self.find_sent(id, ts) {
            proof {
                slot_finds(at(self.state().store.conversations, id@).messages, ts);
            }
            self.restamp(id, i, ts, MessageStatus::Failed);
            self.record(
                DbWrite::UpdateMessageStatus {
                    conv_id: id.to_string(),
                    timestamp_ms: ts,
                    status_code: MessageStatus::Failed.to_i32(),
                },
                "update_message_status",
                true,
            );
        }
    }

    fn take_kept_receipts(&mut self) -> (r: Vec<(String, String, Vec<i64>)>)
        ensures
            r.deep_view() == old(self).state().pending.receipts,
            final(self).state() == (AppView {
                pending: PendingStateView {
                    receipts: Seq::empty(),
                    ..old(self).state().pending
                },
                ..old(self).state()
            }),
    {
        reveal(App::state);
        let mut list: Vec<(String, String, Vec<i64>)> = Vec::new();
        std::mem::swap(&mut list, &mut self.pending.receipts);
        assert(self.pending.receipts.deep_view() =~= Seq::<
            (Seq<char>, Seq<char>, Seq<i64>),
        >::empty());
        list
    }

    fn replay_receipts(&mut self, list: &Vec<(String, String, Vec<i64>)>)
        ensures
            final(self).state() == receipts_replayed(old(self).state(), list.deep_view()),
    {
        let ghost s = list.deep_view();
        let mut i: usize = 0;
        assert(s.take(0) =~= Seq::<(Seq<char>, Seq<char>, Seq<i64>)>::empty());
        while i < list.len()
            invariant
                i <= list@.len(),
                s == list.deep_view(),
                self.state() == receipts_replayed(old(self).state(), s.take(i as int)),
            decreases list@.len() - i,
        {
            proof {
                assert(s.take(i + 1).drop_last() =~= s.take(i as int));
                assert(s.take(i + 1).last() == list@[i as int].deep_view());
            }
            self.handle_receipt(list[i].0.as_str(), list[i].1.as_str(), &list[i].2);
            i += 1;
        }
        assert(s.take(s.len() as int) =~= s);
    }

    /// Takes the time under which the service has taken a message.
    pub fn handle_send_timestamp(&mut self, rpc_id: &str, server_ts: i64, now_ms: u64)
        ensures
            final(self).state() == send_answered(old(self).state(), rpc_id@, server_ts, now_ms),
    {
        reveal(send_answered);
        self.schedule_cleanup(rpc_id, now_ms);
        let ghost b = self.state();
        let sent = self.take_send(rpc_id);
        match sent {
            Some((id, local_ts)) => {
                let ts = if server_ts != 0 {
                    server_ts
                } else {
                    local_ts
                };
                self.confirm_send(id.as_str(), local_ts, ts);
                let kept = self.take_kept_receipts();
                self.replay_receipts(&kept);
            },
            None => {
                proof {
                    assert(send_forgotten(b, rpc_id@) == b);
                }
            },
        }
    }

    /// Takes the news that the service has refused a message.
    pub fn handle_send_failed(&mut self, rpc_id: &str, now_ms: u64)
        ensures
            final(self).state() == send_failed(old(self).state(), rpc_id@, now_ms),
    {
        reveal(send_failed);
        self.schedule_cleanup(rpc_id, now_ms);
        let ghost b = self.state();
        let sent = self.take_send(rpc_id);
        match sent {
            Some((id, local_ts)) => {
                self.lose_send(id.as_str(), local_ts);
            },
            None => {
                proof {
                    assert(send_forgotten(b, rpc_id@) == b);
                }
            },
        }
    }
}

// ---------------------------------------------------------------------------
// What was read on another device
// ---------------------------------------------------------------------------

/// A conversation holds a message of a time.
pub open spec fn has_time(msgs: Seq<DisplayMessageView>, ts: i64) -> bool {
    exists|i: int| 0 <= i < msgs.len() && (#[trigger] msgs[i]).timestamp_ms == ts
}

/// The first group from `i` on that holds a message of a time, or the number of
/// conversations.
pub open spec fn group_of(s: Seq<(Seq<char>, ConversationView)>, ts: i64, i: int) -> int
    decreases s.len() - i,
{
    if i < 0 || i >= s.len() {
        s.len() as int
    } else if s[i].1.is_group && has_time(s[i].1.messages, ts) {
        i
    } else {
        group_of(s, ts, i + 1)
    }
}

/// The conversation that a message read elsewhere belongs to: the one with its
/// sender, else the first group that holds its time.
pub open spec fn read_conversation(
    convs: Seq<(Seq<char>, ConversationView)>,
    sender: Seq<char>,
    ts: i64,
) -> Option<Seq<char>> {
    let i = group_of(convs, ts, 0);
    if holds(convs, sender) {
        Some(sender)
    } else if i < convs.len() {
        Some(convs[i].0)
    } else {
        None
    }
}

/// The greatest time up to which each conversation was read elsewhere.
pub open spec fn read_times(
    convs: Seq<(Seq<char>, ConversationView)>,
    list: Seq<(Seq<char>, i64)>,
) -> Seq<(Seq<char>, i64)>
    decreases list.len(),
{
    if list.len() == 0 {
        Seq::empty()
    } else {
        let before = read_times(convs, list.drop_last());
        let (sender, ts) = list.last();
        match read_conversation(convs, sender, ts) {
            Some(id) => {
                let cur = match look(before, id) {
                    Some(t) => t,
                    None => 0,
                };
                put(
                    before,
                    id,
                    if ts > cur {
                        ts
                    } else {
                        cur
                    },
                )
            },
            None => before,
        }
    }
}

/// A message counts as unread: it came in and is no line of the client's own.
pub open spec fn counts_unread(m: DisplayMessageView) -> bool {
    !m.is_system && m.status is None
}

/// How many messages behind a read marker count as unread.
pub open spec fn unread_behind(msgs: Seq<DisplayMessageView>, marker: usize) -> usize {
    msgs.skip(marker as int).filter(|m: DisplayMessageView| counts_unread(m)).len() as usize
}

/// The state with a conversation read up to a time. A read marker only moves
/// forward.
pub open spec fn read_up_to(a: AppView, id: Seq<char>, ts: i64) -> AppView {
    match look(a.store.conversations, id) {
        Some(c) => {
            let n = slot(c.messages, ts);
            let cur = match look(a.store.last_read_index, id) {
                Some(k) => k,
                None => 0,
            };
            if n > cur {
                let b = AppView {
                    store: ConversationStoreView {
                        last_read_index: put(a.store.last_read_index, id, n as usize),
                        ..a.store
                    },
                    ..a
                };
                b.with_conv(
                    id,
                    ConversationView { unread: unread_behind(c.messages, n as usize), ..c },
                ).write(
                    quiet(
                        DbWriteView::SaveReadMarkerUpTo { conv_id: id, timestamp_ms: ts },
                        "save_read_marker (read_sync)"@,
                    ),
                )
            } else {
                a
            }
        },
        None => a,
    }
}

/// The state with conversations read up to times, one after the other.
pub open spec fn all_read_up_to(a: AppView, list: Seq<(Seq<char>, i64)>) -> AppView
    decreases list.len(),
{
    if list.len() == 0 {
        a
    } else {
        read_up_to(all_read_up_to(a, list.drop_last()), list.last().0, list.last().1)
    }
}

/// The state after messages were read elsewhere.
#[verifier::opaque]
pub open spec fn read_synced(a: AppView, list: Seq<(Seq<char>, i64)>) -> AppView {
    all_read_up_to(a, read_times(a.store.conversations, list))
}

/// How many messages of a conversation were read.
pub open spec fn marker_of(s: ConversationStoreView, id: Seq<char>) -> usize {
    match look(s.last_read_index, id) {
        Some(k) => k,
        None => 0,
    }
}

/// What messages that were read elsewhere make of a conversation: its marker never
/// moves back, what is behind the marker counts where it moved forward, and
/// nothing else changes.
pub open spec fn read_further(
    s: ConversationStoreView,
    t: ConversationStoreView,
    id: Seq<char>,
) -> bool {
    &&& marker_of(t, id) >= marker_of(s, id)
    &&& look(t.conversations, id) == match look(s.conversations, id) {
        Some(c) => Some(
            ConversationView {
                unread: if marker_of(t, id) > marker_of(s, id) {
                    unread_behind(c.messages, marker_of(t, id))
                } else {
                    c.unread
                },
                ..c
            },
        ),
        None => None,
    }
}

proof fn one_read_further(a: AppView, b: AppView, at_id: Seq<char>, ts: i64, id: Seq<char>)
    requires
        read_further(a.store, b.store, id),
        holds(a.store.conversations, id) ==> at(a.store.conversations, id).messages.len()
            <= usize::MAX,
    ensures
        read_further(a.store, read_up_to(b, at_id, ts).store, id),
{
    match look(b.store.conversations, at_id) {
        Some(c) => {
            let n = slot(c.messages, ts);
            slot_finds(c.messages, ts);
            if n > marker_of(b.store, at_id) {
                crate::strmap::look_after_put(b.store.last_read_index, at_id, n as usize, id);
                crate::strmap::look_after_put(
                    b.store.conversations,
                    at_id,
                    ConversationView { unread: unread_behind(c.messages, n as usize), ..c },
                    id,
                );
            }
        },
        None => {},
    }
}

proof fn all_read_further(a: AppView, list: Seq<(Seq<char>, i64)>, id: Seq<char>)
    requires
        holds(a.store.conversations, id) ==> at(a.store.conversations, id).messages.len()
            <= usize::MAX,
    ensures
        read_further(a.store, all_read_up_to(a, list).store, id),
    decreases list.len(),
{
    if list.len() > 0 {
        let b = all_read_up_to(a, list.drop_last());
        all_read_further(a, list.drop_last(), id);
        one_read_further(a, b, list.last().0, list.last().1, id);
    }
}

/// A stale sync never moves a read marker back: whatever was read elsewhere, of
/// every conversation as many messages are read as before or more. Where more are,
/// what is left behind the marker counts as unread, and elsewhere nothing changes.
pub proof fn read_syncs_only_advance(a: AppView, list: Seq<(Seq<char>, i64)>, id: Seq<char>)
    requires
        holds(a.store.conversations, id) ==> at(a.store.conversations, id).messages.len()
            <= usize::MAX,
    ensures
        read_further(a.store, read_synced(a, list).store, id),
{
    reveal(read_synced);
    all_read_further(a, read_times(a.store.conversations, list), id);
}

fn holds_time(msgs: &Vec<DisplayMessage>, ts: i64) -> (r: bool)
    ensures
        r == has_time(msgs.deep_view(), ts),
{
    let mut i: usize = 0;
    while i < msgs.len()
        invariant
            i <= msgs@.len(),
            forall|k: int| 0 <= k < i ==> (#[trigger] msgs@[k]).timestamp_ms != ts,
        decreases msgs@.len() - i,
    {
        if msgs[i].timestamp_ms == ts {
            assert(msgs.deep_view()[i as int].timestamp_ms == ts);
            return true;
        }
        i += 1;
    }
    assert forall|k: int| 0 <= k < msgs.deep_view().len() implies (
    #[trigger] msgs.deep_view()[k]).timestamp_ms != ts by {
        assert(msgs@[k].timestamp_ms == msgs.deep_view()[k].timestamp_ms);
    }
    false
}

fn find_read_conversation(convs: &StrMap<Conversation>, sender: &str, ts: i64) -> (r: Option<
    String,
>)
    ensures
        r.deep_view() == read_conversation(convs.deep_view(), sender@, ts),
{
    if convs.contains_key(sender) {
        return Some(sender.to_string());
    }
    let ghost s = convs.deep_view();
    let mut i: usize = 0;
    while i < convs.entries.len()
        invariant
            i <= convs.entries@.len(),
            s == convs.deep_view(),
            !holds(s, sender@),
            group_of(s, ts, 0) == group_of(s, ts, i as int),
        decreases convs.entries@.len() - i,
    {
        let c = &convs.entries[i].1;
        assert(s[i as int] == convs.entries@[i as int].deep_view());
        if c.is_group && holds_time(&c.messages, ts) {
            return Some(convs.entries[i].0.clone());
        }
        i += 1;
    }
    None
}

fn collect_read_times(convs: &StrMap<Conversation>, list: &Vec<(String, i64)>) -> (r: StrMap<i64>)
    ensures
        r.deep_view() == read_times(convs.deep_view(), list.deep_view()),
{
    let ghost s = list.deep_view();
    let ghost cs = convs.deep_view();
    let mut r: StrMap<i64> = StrMap::new();
    let mut i: usize = 0;
    assert(s.take(0) =~= Seq::<(Seq<char>, i64)>::empty());
    while i < list.len()
        invariant
            i <= list@.len(),
            s == list.deep_view(),
            cs == convs.deep_view(),
            r.deep_view() == read_times(cs, s.take(i as int)),
        decreases list@.len() - i,
    {
        proof {
            assert(s.take(i + 1).drop_last() =~= s.take(i as int));
            assert(s.take(i + 1).last() == list@[i as int].deep_view());
        }
        let ts = list[i].1;
        if let Some(id) = find_read_conversation(convs, list[i].0.as_str(), ts) {
            let cur: i64 = match r.get(id.as_str()) {
                Some(t) => *t,
                None => 0,
            };
            r.insert(
                id,
                if ts > cur {
                    ts
                } else {
                    cur
                },
            );
        }
        i += 1;
    }
    assert(s.take(s.len() as int) =~= s);
    r
}

fn count_unread(msgs: &Vec<DisplayMessage>, start: usize) -> (r: usize)
    requires
        start <= msgs@.len(),
    ensures
        r == msgs.deep_view().skip(start as int).filter(
            |m: DisplayMessageView| counts_unread(m),
        ).len(),
{
    let ghost s = msgs.deep_view().skip(start as int);
    let ghost p = |m: DisplayMessageView| counts_unread(m);
    let mut n: usize = 0;
    let mut i: usize = start;
    proof {
        crate::common::filter_none(s, p);
    }
    while i < msgs.len()
        invariant
            start <= i <= msgs.len(),
            s == msgs.deep_view().skip(start as int),
            p == |m: DisplayMessageView| counts_unread(m),
            n == s.take(i - start).filter(p).len(),
            n <= i - start,
        decreases msgs@.len() - i,
    {
        proof {
            crate::common::filter_take(s, i - start, p);
            assert(s[i - start] == msgs@[i as int].deep_view());
        }
        if !msgs[i].is_system && msgs[i].status.is_none() {
            n += 1;
        }
        i += 1;
    }
    assert(s.take(s.len() as int) =~= s);
    n
}

impl App {
    fn read_to(&mut self, id: &str, ts: i64)
        ensures
            final(self).state() == read_up_to(old(self).state(), id@, ts),
    {
        let cur = self.read_place(id);
        let n = match self.unread_slot(id, ts) {
            Some(n) => n,
            None => {
                return;
            },
        };
        if n > cur {
            self.move_marker(id, n);
            self.record(
                DbWrite::SaveReadMarkerUpTo { conv_id: id.to_string(), timestamp_ms: ts },
                "save_read_marker (read_sync)",
                false,
            );
        }
    }

    fn read_place(&self, id: &str) -> (r: usize)
        ensures
            r == match look(self.state().store.last_read_index, id@) {
                Some(k) => k,
                None => 0,
            },
    {
        reveal(App::state);
        match self.store.last_read_index.get(id) {
            Some(k) => *k,
            None => 0,
        }
    }

    fn unread_slot(&self, id: &str, ts: i64) -> (r: Option<usize>)
        ensures
            match look(self.state().store.conversations, id@) {
                Some(c) => r is Some && r->0 == slot(c.messages, ts) && r->0 <= c.messages.len(),
                None => r is None,
            },
    {
        reveal(App::state);
        match self.store.conversations.get(id) {
            Some(c) => Some(slot_for(&c.messages, ts)),
            None => None,
        }
    }

    fn move_marker(&mut self, id: &str, n: usize)
        requires
            holds(old(self).state().store.conversations, id@),
            n <= at(old(self).state().store.conversations, id@).messages.len(),
        ensures
            final(self).state() == (AppView {
                store: ConversationStoreView {
                    last_read_index: put(old(self).state().store.last_read_index, id@, n),
                    ..old(self).state().store
                },
                ..old(self).state()
            }).with_conv(
                id@,
                ConversationView {
                    unread: at(old(self).state().store.conversations, id@).messages.skip(
                        n as int,
                    ).filter(|m: DisplayMessageView| counts_unread(m)).len() as usize,
                    ..at(old(self).state().store.conversations, id@)
                },
            ),
    {
        reveal(App::state);
        self.store.last_read_index.insert(id.to_string(), n);
        if let Some(c) = self.store.conversations.get_mut(id) {
            c.unread = count_unread(&c.messages, n);
        }
    }

    /// Takes the news of messages that were read on another device.
    pub fn handle_read_sync(&mut self, read_messages: &Vec<(String, i64)>)
        ensures
            final(self).state() == read_synced(old(self).state(), read_messages.deep_view()),
    {
        reveal(read_synced);
        let times = {
            assert(self.state().store.conversations == self.store.conversations.deep_view()) by {
                reveal(App::state);
            }
            collect_read_times(&self.store.conversations, read_messages)
        };
        let ghost s = times.deep_view();
        let mut i: usize = 0;
        assert(s.take(0) =~= Seq::<(Seq<char>, i64)>::empty());
        while i < times.entries.len()
            invariant
                i <= times.entries@.len(),
                s == times.deep_view(),
                self.state() == all_read_up_to(old(self).state(), s.take(i as int)),
            decreases times.entries@.len() - i,
        {
            proof {
                assert(s.take(i + 1).drop_last() =~= s.take(i as int));
                assert(s.take(i + 1).last() == times.entries@[i as int].deep_view());
            }
            self.read_to(times.entries[i].0.as_str(), times.entries[i].1);
            i += 1;
        }
        assert(s.take(s.len() as int) =~= s);
    }
}

} // verus!
