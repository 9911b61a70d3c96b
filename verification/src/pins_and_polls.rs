//! What is promised of lines of the client, timers, pins and polls.
use crate::app::{AppView, Overlay, PinPendingView, PollVotePendingView, SendRequestView};
use crate::arrivals::messages_of;
use crate::conversation_store::{
    new_conversation, slot, slot_finds, ConversationView, DisplayMessageView,
};
use crate::db::DbWriteView;
use crate::events::{
    event_taken, name_learnt, pin_set, pin_told, poll_ended, poll_made, timer_told, vote_place,
    vote_set, voted,
};
use crate::inbox::behind_time;
use crate::keys::KeyCode;
use crate::menu::{
    at_bottom, ballot_key, marked, pin_dropped, pin_key, pin_toggled, poll_stopped, vote_begun,
    PIN_DURATIONS,
};
use crate::messages::{placed, system_message, system_said};
use crate::navigation::ensured;
use crate::places::{
    changing_changes_only, message_of_time_is_found, newest_at, only_changed, pointed_is_selected,
    points_at, writes_last,
};
use crate::properties::one_per_voter;
use crate::receipts::same_times_same_slot;
use crate::signal::{PollDataView, PollVoteView, SignalEventView};
use crate::strmap::{at, holds, look, look_after_put, place_finds, put};
use vstd::prelude::*;

verus! {

// ---------------------------------------------------------------------------
// Lines of the client
// ---------------------------------------------------------------------------

/// A line that the client itself puts into a conversation: it is marked as such,
/// has a text and a time, and nobody sent it.
pub open spec fn is_line(x: DisplayMessageView, body: Seq<char>, ts: i64) -> bool {
    x.is_system && x.body == body && x.timestamp_ms == ts && x.timestamp == ts && x.sender.len()
        == 0 && x.sender_id.len() == 0 && x.status is None && !x.is_deleted && x.reactions.len()
        == 0
}

/// Messages `t` are messages `s` with one more, put in behind all that are no later.
pub open spec fn one_more(
    s: Seq<DisplayMessageView>,
    t: Seq<DisplayMessageView>,
    x: DisplayMessageView,
    p: int,
) -> bool {
    behind_time(s, x.timestamp_ms, p) && t == s.insert(p, x)
}

proof fn placing_puts_one_more(a: AppView, id: Seq<char>, m: DisplayMessageView)
    requires
        holds(a.store.conversations, id),
    ensures
        one_more(
            messages_of(a.store, id),
            messages_of(placed(a, id, m).store, id),
            m,
            slot(messages_of(a.store, id), m.timestamp_ms),
        ),
        look(placed(a, id, m).store.conversations, id) == Some(
            ConversationView {
                messages: messages_of(placed(a, id, m).store, id),
                ..at(a.store.conversations, id)
            },
        ),
        forall|k: Seq<char>|
            k != id ==> #[trigger] look(placed(a, id, m).store.conversations, k) == look(
                a.store.conversations,
                k,
            ),
{
    let c = at(a.store.conversations, id);
    let pos = slot(c.messages, m.timestamp_ms);
    slot_finds(c.messages, m.timestamp_ms);
    let d = ConversationView { messages: c.messages.insert(pos, m), ..c };
    look_after_put(a.store.conversations, id, d, id);
    assert forall|k: Seq<char>| k != id implies #[trigger] look(
        placed(a, id, m).store.conversations,
        k,
    ) == look(a.store.conversations, k) by {
        look_after_put(a.store.conversations, id, d, k);
    }
}

proof fn saying_puts_a_line(a: AppView, id: Seq<char>, body: Seq<char>, ts: i64)
    ensures
        ({
            let r = system_said(a, id, body, ts);
            let x = system_message(body, ts);
            &&& is_line(x, body, ts)
            &&& one_more(
                messages_of(a.store, id),
                messages_of(r.store, id),
                x,
                slot(messages_of(a.store, id), ts),
            )
            &&& holds(r.store.conversations, id)
            &&& holds(a.store.conversations, id) ==> at(r.store.conversations, id).is_group == at(
                a.store.conversations,
                id,
            ).is_group && at(r.store.conversations, id).unread == at(
                a.store.conversations,
                id,
            ).unread && at(r.store.conversations, id).expiration_timer == at(
                a.store.conversations,
                id,
            ).expiration_timer && at(r.store.conversations, id).accepted == at(
                a.store.conversations,
                id,
            ).accepted
            &&& forall|k: Seq<char>|
                k != id ==> #[trigger] look(r.store.conversations, k) == look(
                    a.store.conversations,
                    k,
                )
            &&& r.active_conversation == a.active_conversation
            &&& r.overlays == a.overlays
            &&& r.pending == a.pending
        }),
{
    reveal(system_said);
    let name = a.name_of(id);
    let g = a.is_group(id);
    let b = ensured(a, id, name, g);
    let r = system_said(a, id, body, ts);
    place_finds(a.store.conversations, id);
    if !holds(a.store.conversations, id) {
        let c = new_conversation(id, name, g);
        assert(b.store.conversations == put(a.store.conversations, id, c));
        look_after_put(a.store.conversations, id, c, id);
        assert forall|k: Seq<char>| k != id implies #[trigger] look(b.store.conversations, k)
            == look(a.store.conversations, k) by {
            look_after_put(a.store.conversations, id, c, k);
        }
    } else if name != id && at(a.store.conversations, id).name != name {
        let c = ConversationView { name, ..at(a.store.conversations, id) };
        look_after_put(a.store.conversations, id, c, id);
        assert forall|k: Seq<char>| k != id implies #[trigger] look(b.store.conversations, k)
            == look(a.store.conversations, k) by {
            look_after_put(a.store.conversations, id, c, k);
        }
    }
    assert(holds(b.store.conversations, id));
    assert(messages_of(b.store, id) == messages_of(a.store, id));
    placing_puts_one_more(b, id, system_message(body, ts));
    assert forall|k: Seq<char>| k != id implies #[trigger] look(r.store.conversations, k) == look(
        a.store.conversations,
        k,
    ) by {
        assert(look(b.store.conversations, k) == look(a.store.conversations, k));
    }
}

/// What the service reports of a conversation stands in it as a line of the client,
/// behind what is no later. No other conversation changes, and nothing counts as
/// unread.
pub proof fn reports_become_lines(
    a: AppView,
    id: Seq<char>,
    body: Seq<char>,
    ts: i64,
    now_ms: i64,
    clock_ms: u64,
) -> (line: (DisplayMessageView, int))
    ensures
        ({
            let r = event_taken(
                a,
                SignalEventView::SystemMessage { conv_id: id, body, timestamp_ms: ts },
                now_ms,
                clock_ms,
            );
            &&& is_line(line.0, body, ts)
            &&& one_more(messages_of(a.store, id), messages_of(r.store, id), line.0, line.1)
            &&& forall|k: Seq<char>|
                k != id ==> #[trigger] look(r.store.conversations, k) == look(
                    a.store.conversations,
                    k,
                )
            &&& holds(a.store.conversations, id) ==> look(r.store.conversations, id)->0.unread
                == look(a.store.conversations, id)->0.unread
        }),
{
    saying_puts_a_line(a, id, body, ts);
    (system_message(body, ts), slot(messages_of(a.store, id), ts))
}

/// A timer that somebody set is that of the conversation, and the conversation tells
/// of it in a line.
pub proof fn timers_are_taken(
    a: AppView,
    id: Seq<char>,
    seconds: i64,
    body: Seq<char>,
    ts: i64,
    now_ms: i64,
    clock_ms: u64,
) -> (line: (DisplayMessageView, int))
    ensures
        ({
            let r = event_taken(
                a,
                SignalEventView::ExpirationTimerChanged {
                    conv_id: id,
                    seconds,
                    body,
                    timestamp_ms: ts,
                },
                now_ms,
                clock_ms,
            );
            &&& is_line(line.0, body, ts)
            &&& one_more(messages_of(a.store, id), messages_of(r.store, id), line.0, line.1)
            &&& look(r.store.conversations, id) is Some
            &&& look(r.store.conversations, id)->0.expiration_timer == seconds
            &&& forall|k: Seq<char>|
                k != id ==> #[trigger] look(r.store.conversations, k) == look(
                    a.store.conversations,
                    k,
                )
        }),
{
    reveal(timer_told);
    let name = a.name_of(id);
    let g = a.is_group(id);
    let b = ensured(a, id, name, g);
    place_finds(a.store.conversations, id);
    if !holds(a.store.conversations, id) {
        let c = new_conversation(id, name, g);
        assert(b.store.conversations == put(a.store.conversations, id, c));
        look_after_put(a.store.conversations, id, c, id);
        assert forall|k: Seq<char>| k != id implies #[trigger] look(b.store.conversations, k)
            == look(a.store.conversations, k) by {
            look_after_put(a.store.conversations, id, c, k);
        }
    } else if name != id && at(a.store.conversations, id).name != name {
        let c = ConversationView { name, ..at(a.store.conversations, id) };
        look_after_put(a.store.conversations, id, c, id);
        assert forall|k: Seq<char>| k != id implies #[trigger] look(b.store.conversations, k)
            == look(a.store.conversations, k) by {
            look_after_put(a.store.conversations, id, c, k);
        }
    }
    let d = ConversationView { expiration_timer: seconds, ..at(b.store.conversations, id) };
    let e = b.with_conv(id, d);
    look_after_put(b.store.conversations, id, d, id);
    assert forall|k: Seq<char>| k != id implies #[trigger] look(e.store.conversations, k) == look(
        a.store.conversations,
        k,
    ) by {
        look_after_put(b.store.conversations, id, d, k);
        assert(look(b.store.conversations, k) == look(a.store.conversations, k));
    }
    let f = e.write(
        crate::db::shown(
            DbWriteView::UpdateExpirationTimer { conv_id: id, seconds },
            "update_expiration_timer"@,
        ),
    );
    saying_puts_a_line(f, id, body, ts);
    let r = timer_told(a, id, seconds, body, ts);
    assert(r == system_said(f, id, body, ts));
    assert forall|k: Seq<char>| k != id implies #[trigger] look(r.store.conversations, k) == look(
        a.store.conversations,
        k,
    ) by {
        assert(look(e.store.conversations, k) == look(a.store.conversations, k));
    }
    (system_message(body, ts), slot(messages_of(a.store, id), ts))
}

// ---------------------------------------------------------------------------
// Pins
// ---------------------------------------------------------------------------

/// The message of a time is pinned, or no more so, and a line tells of it; nothing
/// else changes in any conversation but a name.
pub open spec fn pinned_and_told(
    a: AppView,
    r: AppView,
    id: Seq<char>,
    i: int,
    pinned: bool,
    text: Seq<char>,
    now_ms: i64,
    line: (DisplayMessageView, int),
) -> bool {
    let s = messages_of(a.store, id);
    &&& is_line(line.0, text, now_ms)
    &&& behind_time(s, now_ms, line.1)
    &&& messages_of(r.store, id) == s.update(
        i,
        DisplayMessageView { is_pinned: pinned, ..s[i] },
    ).insert(line.1, line.0)
    &&& forall|k: Seq<char>|
        k != id ==> #[trigger] look(r.store.conversations, k) == look(a.store.conversations, k)
}

proof fn pinning_tells(
    a: AppView,
    b: AppView,
    id: Seq<char>,
    ts: i64,
    i: int,
    pinned: bool,
    text: Seq<char>,
    now_ms: i64,
) -> (line: (DisplayMessageView, int))
    requires
        newest_at(messages_of(a.store, id), ts, i),
        b.store == pin_set(a, id, ts, pinned).store,
    ensures
        pinned_and_told(a, system_said(b, id, text, now_ms), id, i, pinned, text, now_ms, line),
{
    reveal(pin_set);
    let s = messages_of(a.store, id);
    message_of_time_is_found(s, ts, i);
    let x = DisplayMessageView { is_pinned: pinned, ..s[i] };
    changing_changes_only(a, b, id, i, x);
    saying_puts_a_line(b, id, text, now_ms);
    let t = messages_of(b.store, id);
    assert(t =~= s.update(i, x));
    assert forall|j: int| 0 <= j < s.len() implies (#[trigger] s[j]).timestamp_ms
        == t[j].timestamp_ms by {}
    same_times_same_slot(s, t, now_ms);
    slot_finds(s, now_ms);
    let r = system_said(b, id, text, now_ms);
    assert forall|k: Seq<char>| k != id implies #[trigger] look(r.store.conversations, k) == look(
        a.store.conversations,
        k,
    ) by {
        assert(look(b.store.conversations, k) == look(a.store.conversations, k));
    }
    (system_message(text, now_ms), slot(s, now_ms))
}

/// A pin that comes in pins the message of its time, one that is taken back unpins
/// it, and the conversation tells who did so.
pub proof fn pins_are_taken(
    a: AppView,
    id: Seq<char>,
    sender: Seq<char>,
    ts: i64,
    i: int,
    now_ms: i64,
    clock_ms: u64,
) -> (lines: ((DisplayMessageView, int), (DisplayMessageView, int)))
    requires
        newest_at(messages_of(a.store, id), ts, i),
    ensures
        ({
            let name = if sender == a.account {
                "you"@
            } else {
                match look(a.store.contact_names, sender) {
                    Some(n) => n,
                    None => sender,
                }
            };
            let p = event_taken(
                a,
                SignalEventView::PinReceived {
                    conv_id: id,
                    sender,
                    sender_name: None,
                    target_timestamp: ts,
                },
                now_ms,
                clock_ms,
            );
            let u = event_taken(
                a,
                SignalEventView::UnpinReceived {
                    conv_id: id,
                    sender,
                    sender_name: None,
                    target_timestamp: ts,
                },
                now_ms,
                clock_ms,
            );
            &&& pinned_and_told(
                a,
                p,
                id,
                i,
                true,
                name + " pinned a message"@,
                now_ms,
                lines.0,
            )
            &&& pinned_and_told(
                a,
                u,
                id,
                i,
                false,
                name + " unpinned a message"@,
                now_ms,
                lines.1,
            )
        }),
{
    reveal(pin_told);
    reveal(name_learnt);
    let name = if sender == a.account {
        "you"@
    } else {
        a.name_of(sender)
    };
    let p = pin_set(a, id, ts, true);
    let u = pin_set(a, id, ts, false);
    assert(p.store.contact_names == a.store.contact_names && p.account == a.account) by {
        reveal(pin_set);
    }
    assert(u.store.contact_names == a.store.contact_names && u.account == a.account) by {
        reveal(pin_set);
    }
    reveal_strlit(" ");
    reveal_strlit("pinned");
    reveal_strlit("unpinned");
    reveal_strlit(" a message");
    reveal_strlit(" pinned a message");
    reveal_strlit(" unpinned a message");
    assert(name + " "@ + "pinned"@ + " a message"@ =~= name + " pinned a message"@);
    assert(name + " "@ + "unpinned"@ + " a message"@ =~= name + " unpinned a message"@);
    let first = pinning_tells(a, p, id, ts, i, true, name + " pinned a message"@, now_ms);
    let second = pinning_tells(a, u, id, ts, i, false, name + " unpinned a message"@, now_ms);
    (first, second)
}

/// Whom a message is by, as the service names them.
pub open spec fn number_of(a: AppView, m: DisplayMessageView) -> Seq<char> {
    if m.sender_id.len() == 0 || m.sender_id == "you"@ {
        a.account
    } else {
        m.sender_id
    }
}

/// Unpinning the message that is pointed at unpins it, tells so in a line and asks
/// the service for it. Where it is not pinned one is asked for how long it is to be,
/// and nothing else happens yet. Nothing happens with lines of the client and
/// deleted messages.
pub proof fn pinning_asks_or_unpins(a: AppView, id: Seq<char>, i: int, now_ms: i64) -> (line: (
    DisplayMessageView,
    int,
))
    requires
        points_at(a, id, i),
        newest_at(messages_of(a.store, id), messages_of(a.store, id)[i].timestamp_ms, i),
    ensures
        ({
            let m = messages_of(a.store, id)[i];
            let (r, q) = pin_toggled(a, now_ms);
            let live = !m.is_system && !m.is_deleted;
            let is_group = look(a.store.conversations, id)->0.is_group;
            &&& live && m.is_pinned ==> pinned_and_told(
                a,
                r,
                id,
                i,
                false,
                "you unpinned a message"@,
                now_ms,
                line,
            ) && q == Some(
                SendRequestView::Unpin {
                    recipient: id,
                    is_group,
                    target_author: number_of(a, m),
                    target_timestamp: m.timestamp_ms,
                },
            )
            &&& live && !m.is_pinned ==> q is None && r.store == a.store && r.overlays.contains(
                Overlay::PinDuration,
            ) && r.pin.pending == Some(
                PinPendingView {
                    conv_id: id,
                    is_group,
                    target_author: number_of(a, m),
                    target_timestamp: m.timestamp_ms,
                },
            ) && r.pin.index == 0
            &&& !live ==> r == a && q is None
        }),
{
    reveal(pin_toggled);
    pointed_is_selected(a, id, i);
    let m = messages_of(a.store, id)[i];
    let b = at_bottom(pin_set(a, id, m.timestamp_ms, false));
    pinning_tells(a, b, id, m.timestamp_ms, i, false, "you unpinned a message"@, now_ms)
}

/// Choosing for how long pins the message that was pointed at, tells so in a line and
/// asks the service for it. Esc pins nothing.
pub proof fn pinning_pins(
    a: AppView,
    p: PinPendingView,
    i: int,
    now_ms: i64,
) -> (line: (DisplayMessageView, int))
    requires
        a.pin.pending == Some(p),
        a.pin.index < PIN_DURATIONS@.len(),
        newest_at(messages_of(a.store, p.conv_id), p.target_timestamp, i),
    ensures
        ({
            let (r, q) = pin_key(a, KeyCode::Enter, now_ms);
            let (e, none) = pin_key(a, KeyCode::Esc, now_ms);
            let durations = PIN_DURATIONS@;
            &&& pinned_and_told(a, r, p.conv_id, i, true, "you pinned a message"@, now_ms, line)
            &&& q == Some(
                SendRequestView::Pin {
                    recipient: p.conv_id,
                    is_group: p.is_group,
                    target_author: p.target_author,
                    target_timestamp: p.target_timestamp,
                    pin_duration: durations[a.pin.index as int].0,
                },
            )
            &&& r.pin.pending is None && !r.overlays.contains(Overlay::PinDuration)
            &&& none is None && e.store == a.store && e.pin.pending is None
        }),
{
    reveal(pin_key);
    let done = pin_dropped(a.closed(Overlay::PinDuration));
    let b = at_bottom(pin_set(done, p.conv_id, p.target_timestamp, true));
    saying_puts_a_line(b, p.conv_id, "you pinned a message"@, now_ms);
    assert(b.overlays == done.overlays && b.pin == done.pin) by {
        reveal(pin_set);
    }
    assert(system_said(b, p.conv_id, "you pinned a message"@, now_ms).pin == b.pin) by {
        reveal(system_said);
    }
    let line = pinning_tells(
        done,
        b,
        p.conv_id,
        p.target_timestamp,
        i,
        true,
        "you pinned a message"@,
        now_ms,
    );
    line
}

// ---------------------------------------------------------------------------
// Polls
// ---------------------------------------------------------------------------

/// A poll that comes in for a message that is there belongs to it. Its end closes
/// it: nothing else of the poll or in any conversation changes.
pub proof fn polls_belong_to_their_messages(
    a: AppView,
    id: Seq<char>,
    ts: i64,
    i: int,
    poll: PollDataView,
    now_ms: i64,
    clock_ms: u64,
)
    requires
        newest_at(messages_of(a.store, id), ts, i),
    ensures
        ({
            let m = messages_of(a.store, id)[i];
            let made = event_taken(
                a,
                SignalEventView::PollCreated { conv_id: id, timestamp: ts, poll_data: poll },
                now_ms,
                clock_ms,
            );
            let ended = event_taken(
                a,
                SignalEventView::PollTerminated { conv_id: id, target_timestamp: ts },
                now_ms,
                clock_ms,
            );
            &&& only_changed(
                a,
                made,
                id,
                i,
                DisplayMessageView { poll_data: Some(poll), ..m },
            )
            &&& writes_last(
                a,
                made,
                DbWriteView::UpsertPollData { conv_id: id, timestamp_ms: ts, poll },
            )
            &&& m.poll_data is Some ==> only_changed(
                a,
                ended,
                id,
                i,
                DisplayMessageView {
                    poll_data: Some(PollDataView { closed: true, ..m.poll_data->0 }),
                    ..m
                },
            )
            &&& writes_last(a, ended, DbWriteView::ClosePoll { conv_id: id, timestamp_ms: ts })
        }),
{
    reveal(poll_made);
    reveal(poll_ended);
    let s = messages_of(a.store, id);
    message_of_time_is_found(s, ts, i);
    let made = poll_made(a, id, ts, poll);
    let ended = poll_ended(a, id, ts);
    changing_changes_only(a, made, id, i, DisplayMessageView { poll_data: Some(poll), ..s[i] });
    changing_changes_only(a, ended, id, i, crate::events::poll_closed(s[i]));
    assert(made.jobs.drop_last() =~= a.jobs);
    assert(ended.jobs.drop_last() =~= a.jobs);
}

/// A list of votes with one set: that of its voter is the new one, and those of all
/// others are as they were.
pub open spec fn vote_is(s: Seq<PollVoteView>, t: Seq<PollVoteView>, v: PollVoteView) -> bool {
    forall|x: PollVoteView| #[trigger]
        t.contains(x) <==> if x.voter == v.voter {
            x == v
        } else {
            s.contains(x)
        }
}

proof fn voting_sets(s: Seq<PollVoteView>, v: PollVoteView)
    requires
        one_per_voter(s),
    ensures
        vote_is(s, vote_set(s, v), v),
{
    let t = vote_set(s, v);
    vote_is_found(s, v.voter, 0);
    let p = vote_place(s, v.voter, 0);
    assert forall|x: PollVoteView| #[trigger] t.contains(x) <==> if x.voter == v.voter {
        x == v
    } else {
        s.contains(x)
    } by {
        if t.contains(x) {
            let i = choose|i: int| 0 <= i < t.len() && t[i] == x;
            if i != p && i < s.len() {
                assert(t[i] == s[i]);
                if x.voter == v.voter && p < s.len() {
                    if i < p {
                        assert(s[i].voter != s[p].voter);
                    } else {
                        assert(s[p].voter != s[i].voter);
                    }
                }
            }
        }
        if x == v {
            if p < s.len() {
                assert(t[p] == x);
            } else {
                assert(t[s.len() as int] == x);
            }
        }
        if x.voter != v.voter && s.contains(x) {
            let i = choose|i: int| 0 <= i < s.len() && s[i] == x;
            assert(t[i] == x);
        }
    }
}

proof fn vote_is_found(s: Seq<PollVoteView>, voter: Seq<char>, i: int)
    requires
        0 <= i <= s.len(),
    ensures
        i <= vote_place(s, voter, i) <= s.len(),
        vote_place(s, voter, i) < s.len() ==> s[vote_place(s, voter, i)].voter == voter,
        forall|j: int| i <= j < vote_place(s, voter, i) ==> (#[trigger] s[j]).voter != voter,
    decreases s.len() - i,
{
    if i < s.len() && s[i].voter != voter {
        vote_is_found(s, voter, i + 1);
    }
}

/// A vote that comes in counts at the poll that it is for, in place of an earlier one
/// of the same voter. The votes of others stay, and nothing else changes in any
/// conversation.
pub proof fn votes_are_counted(
    a: AppView,
    id: Seq<char>,
    ts: i64,
    i: int,
    voter: Seq<char>,
    option_indexes: Seq<i64>,
    vote_count: i64,
    now_ms: i64,
    clock_ms: u64,
)
    requires
        newest_at(messages_of(a.store, id), ts, i),
        one_per_voter(messages_of(a.store, id)[i].poll_votes),
    ensures
        ({
            let m = messages_of(a.store, id)[i];
            let r = event_taken(
                a,
                SignalEventView::PollVoteReceived {
                    conv_id: id,
                    target_timestamp: ts,
                    voter,
                    voter_name: None,
                    option_indexes,
                    vote_count,
                },
                now_ms,
                clock_ms,
            );
            let x = messages_of(r.store, id)[i];
            &&& only_changed(a, r, id, i, DisplayMessageView { poll_votes: x.poll_votes, ..m })
            &&& vote_is(
                m.poll_votes,
                x.poll_votes,
                PollVoteView { voter, voter_name: None, option_indexes, vote_count },
            )
            &&& writes_last(
                a,
                r,
                DbWriteView::UpsertPollVote {
                    conv_id: id,
                    timestamp_ms: ts,
                    voter,
                    voter_name: None,
                    option_indexes,
                    vote_count,
                },
            )
        }),
{
    reveal(voted);
    reveal(name_learnt);
    let s = messages_of(a.store, id);
    let v = PollVoteView { voter, voter_name: None, option_indexes, vote_count };
    message_of_time_is_found(s, ts, i);
    let r = voted(a, id, ts, v);
    changing_changes_only(
        a,
        r,
        id,
        i,
        DisplayMessageView { poll_votes: vote_set(s[i].poll_votes, v), ..s[i] },
    );
    voting_sets(s[i].poll_votes, v);
    assert(r.jobs.drop_last() =~= a.jobs);
}

/// Voting at the poll that is pointed at offers its options with none marked; a poll
/// that was closed, or a message without one, offers nothing.
pub proof fn open_polls_can_be_voted_at(a: AppView, id: Seq<char>, i: int)
    requires
        points_at(a, id, i),
    ensures
        ({
            let m = messages_of(a.store, id)[i];
            let r = vote_begun(a);
            let open = m.poll_data is Some && !m.poll_data->0.closed;
            &&& r.store == a.store
            &&& !open ==> r == a
            &&& open ==> r.overlays.contains(Overlay::PollVote) && r.poll.pending == Some(
                PollVotePendingView {
                    conv_id: id,
                    is_group: look(a.store.conversations, id)->0.is_group,
                    poll_author: number_of(a, m),
                    poll_timestamp: m.timestamp_ms,
                    allow_multiple: m.poll_data->0.allow_multiple,
                    options: m.poll_data->0.options,
                },
            ) && r.poll.selections.len() == m.poll_data->0.options.len() && (forall|j: int|
                0 <= j < r.poll.selections.len() ==> !(#[trigger] r.poll.selections[j]))
        }),
{
    reveal(vote_begun);
    pointed_is_selected(a, id, i);
}

proof fn marked_are(s: Seq<bool>, n: int)
    requires
        0 <= n <= s.len(),
        s.len() <= i64::MAX,
    ensures
        forall|k: int|
            0 <= k < marked(s, n).len() ==> 0 <= (#[trigger] marked(s, n)[k]) < n && s[marked(
                s,
                n,
            )[k] as int],
        forall|j: int| 0 <= j < n && #[trigger] s[j] ==> marked(s, n).contains(j as i64),
        forall|j: int, k: int|
            0 <= j < k < marked(s, n).len() ==> (#[trigger] marked(s, n)[j]) < (
            #[trigger] marked(s, n)[k]),
    decreases n,
{
    if n > 0 {
        marked_are(s, n - 1);
        let before = marked(s, n - 1);
        let now = marked(s, n);
        assert forall|j: int| 0 <= j < n && #[trigger] s[j] implies now.contains(j as i64) by {
            if j < n - 1 {
                let k = choose|k: int| 0 <= k < before.len() && before[k] == j as i64;
                assert(now[k] == j as i64);
            } else {
                assert(now[before.len() as int] == j as i64);
            }
        }
    }
}

/// A ballot that is cast asks the service for a vote for exactly the options that
/// are marked, at the poll that it was opened for, and counts it as one's own. One
/// with nothing marked is not cast, and Esc casts none.
pub proof fn ballots_cast_what_is_marked(a: AppView, p: PollVotePendingView, i: int)
    requires
        a.poll.pending == Some(p),
        a.poll.selections.len() <= i64::MAX,
        newest_at(messages_of(a.store, p.conv_id), p.poll_timestamp, i),
        one_per_voter(messages_of(a.store, p.conv_id)[i].poll_votes),
    ensures
        ({
            let s = a.poll.selections;
            let (r, q) = ballot_key(a, KeyCode::Enter);
            let (e, none) = ballot_key(a, KeyCode::Esc);
            let m = messages_of(a.store, p.conv_id)[i];
            let x = messages_of(r.store, p.conv_id)[i];
            let any = exists|j: int| 0 <= j < s.len() && #[trigger] s[j];
            &&& q is Some <==> any
            &&& !any ==> r == a
            &&& any ==> {
                &&& q->0 is PollVote
                &&& q->0->PollVote_recipient == p.conv_id
                &&& q->0->PollVote_is_group == p.is_group
                &&& q->0->PollVote_poll_author == p.poll_author
                &&& q->0->PollVote_poll_timestamp == p.poll_timestamp
                &&& q->0->PollVote_vote_count == 1
                &&& forall|j: int|
                    0 <= j < s.len() ==> (#[trigger] s[j] <==> q->0->PollVote_option_indexes.contains(
                        j as i64,
                    ))
                &&& forall|k: int|
                    0 <= k < q->0->PollVote_option_indexes.len() ==> 0 <= (
                    #[trigger] q->0->PollVote_option_indexes[k]) < s.len()
                &&& q->0->PollVote_option_indexes.no_duplicates()
                &&& only_changed(
                    a,
                    r,
                    p.conv_id,
                    i,
                    DisplayMessageView { poll_votes: x.poll_votes, ..m },
                )
                &&& vote_is(
                    m.poll_votes,
                    x.poll_votes,
                    PollVoteView {
                        voter: a.account,
                        voter_name: None,
                        option_indexes: q->0->PollVote_option_indexes,
                        vote_count: 1,
                    },
                )
                &&& r.poll.pending is None && !r.overlays.contains(Overlay::PollVote)
            }
            &&& none is None && e.store == a.store && e.poll.pending is None
        }),
{
    reveal(ballot_key);
    reveal(voted);
    let s = a.poll.selections;
    let chosen = marked(s, s.len() as int);
    marked_are(s, s.len() as int);
    let any = exists|j: int| 0 <= j < s.len() && #[trigger] s[j];
    if any {
        let j = choose|j: int| 0 <= j < s.len() && #[trigger] s[j];
        assert(chosen.contains(j as i64));
    }
    if chosen.len() > 0 {
        assert(s[chosen[0] as int]);
        assert forall|j: int| 0 <= j < s.len() implies (#[trigger] s[j] <==> chosen.contains(
            j as i64,
        )) by {
            if chosen.contains(j as i64) {
                let k = choose|k: int| 0 <= k < chosen.len() && chosen[k] == j as i64;
                assert(s[chosen[k] as int]);
            }
        }
        assert forall|j: int, k: int| 0 <= j < chosen.len() && 0 <= k < chosen.len() && j
            != k implies chosen[j] != chosen[k] by {
            if j < k {
                assert(chosen[j] < chosen[k]);
            } else {
                assert(chosen[k] < chosen[j]);
            }
        }
        let v = PollVoteView {
            voter: a.account,
            voter_name: None,
            option_indexes: chosen,
            vote_count: 1,
        };
        let t = messages_of(a.store, p.conv_id);
        message_of_time_is_found(t, p.poll_timestamp, i);
        let r = ballot_key(a, KeyCode::Enter).0;
        changing_changes_only(
            a,
            r,
            p.conv_id,
            i,
            DisplayMessageView { poll_votes: vote_set(t[i].poll_votes, v), ..t[i] },
        );
        voting_sets(t[i].poll_votes, v);
    }
}

/// Only one's own poll that is still open is ended, and the service is asked for it.
pub proof fn ending_ends_ones_own_poll(a: AppView, id: Seq<char>, i: int)
    requires
        points_at(a, id, i),
        newest_at(messages_of(a.store, id), messages_of(a.store, id)[i].timestamp_ms, i),
    ensures
        ({
            let m = messages_of(a.store, id)[i];
            let (r, q) = poll_stopped(a);
            let mine = m.sender == "you"@ && m.poll_data is Some && !m.poll_data->0.closed;
            &&& !mine ==> r == a && q is None
            &&& mine ==> q == Some(
                SendRequestView::PollTerminate {
                    recipient: id,
                    is_group: look(a.store.conversations, id)->0.is_group,
                    poll_timestamp: m.timestamp_ms,
                },
            ) && only_changed(
                a,
                r,
                id,
                i,
                DisplayMessageView {
                    poll_data: Some(PollDataView { closed: true, ..m.poll_data->0 }),
                    ..m
                },
            )
        }),
{
    reveal(poll_stopped);
    reveal(poll_ended);
    pointed_is_selected(a, id, i);
    let m = messages_of(a.store, id)[i];
    message_of_time_is_found(messages_of(a.store, id), m.timestamp_ms, i);
    if m.sender == "you"@ && m.poll_data is Some && !m.poll_data->0.closed {
        changing_changes_only(a, poll_stopped(a).0, id, i, crate::events::poll_closed(m));
    }
}

} // verus!
