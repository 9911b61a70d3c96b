//! What is promised of what is said in passing: the status line, short numbers, who is
//! known, and what is cleared away behind a message.
use crate::app::{AppView, Overlay, SendRequestView};
use crate::commands::{command_done, known_identity, verify_opened};
use crate::choosing::{mapped_from, mapped_has};
use crate::conversation_store::short_form;
use crate::events::event_taken;
use crate::input::InputForm;
use crate::navigation::{entered, joined, left};
use crate::receipts::{send_answered, send_failed};
use crate::sending::{message_sent, text_submitted};
use crate::signal::{SignalEventView, TrustLevel};
use crate::strmap::{holds, look, look_after_put};
use vstd::prelude::*;

verus! {

/// Joining a conversation names it in the status line, a group with a number sign, and
/// asks about it where it was not accepted yet.
pub proof fn the_status_names_the_conversation(a: AppView, id: Seq<char>)
    requires
        holds(a.store.conversations, id),
    ensures
        ({
            let b = joined(a, id);
            let c = look(a.store.conversations, id)->0;
            &&& c.is_group ==> b.status_message == "connected | "@ + "#"@ + c.name
            &&& !c.is_group ==> b.status_message == "connected | "@ + ""@ + c.name
            &&& b.shows(Overlay::MessageRequest) <==> !c.accepted
        }),
{
    reveal(joined);
    reveal(left);
    reveal(entered);
    let b = left(a);
    assert(b.store.conversations == a.store.conversations);
    let c = look(a.store.conversations, id)->0;
    look_after_put(
        a.store.conversations,
        id,
        crate::conversation_store::ConversationView { unread: 0, ..c },
        id,
    );
}

/// What goes wrong is said, and changes nothing else.
pub proof fn errors_are_said(a: AppView, text: Seq<char>, now_ms: i64, clock_ms: u64)
    ensures
        ({
            let b = event_taken(a, SignalEventView::Error(text), now_ms, clock_ms);
            b == AppView { status_message: "error: "@ + text, ..a }
        }),
{
}

/// A number is shortened to its first two characters and its last four, and one that is
/// short is left.
pub proof fn numbers_are_shortened(number: Seq<char>)
    ensures
        ({
            let s = short_form(number);
            let n = number.len();
            &&& n <= 6 ==> s == number
            &&& n > 6 ==> s.len() == 9 && s.take(2) == number.take(2) && s.skip(5) == number.skip(
                n - 4,
            ) && s[2] == '*' && s[3] == '*' && s[4] == '*'
        }),
{
    reveal_strlit("***");
    let s = short_form(number);
    let n = number.len();
    if n > 6 {
        assert(s.take(2) =~= number.take(2));
        assert(s.skip(5) =~= number.skip(n - 4));
    }
}

/// Whose identity can be verified: in a group, the members whose trust is known; else
/// the one person. What is known of them is asked for anew.
pub proof fn verifying_lists_who_is_there(
    a: AppView,
    id: Seq<char>,
    number: Seq<char>,
    level: TrustLevel,
    now_ms: i64,
)
    requires
        a.active_conversation == Some(id),
        look(a.store.conversations, id) is Some,
    ensures
        ({
            let (b, r) = command_done(a, InputForm::Verify, now_ms);
            let x = known_identity(number, level);
            &&& b.shows(Overlay::Verify) && r == Some(SendRequestView::ListIdentities)
            &&& look(a.store.conversations, id)->0.is_group && look(a.store.groups, id) is Some ==> (
            b.verify.identities.contains(x) <==> a.identity_trust.contains((number, level)) && look(
                a.store.groups,
                id,
            )->0.members.contains(number))
            &&& !look(a.store.conversations, id)->0.is_group ==> (b.verify.identities.contains(x)
                <==> number == id && look(a.identity_trust, id) == Some(level))
            &&& x.number == Some(number) && x.trust_level == level
        }),
{
    reveal(verify_opened);
    let (b, _) = command_done(a, InputForm::Verify, now_ms);
    let x = known_identity(number, level);
    if look(a.store.conversations, id)->0.is_group {
        if look(a.store.groups, id) is Some {
            let g = look(a.store.groups, id)->0;
            let p = |p: (Seq<char>, TrustLevel)| g.members.contains(p.0);
            let f = |p: (Seq<char>, TrustLevel)| known_identity(p.0, p.1);
            if b.verify.identities.contains(x) {
                let (n, l) = mapped_from(a.identity_trust, p, f, x);
                assert(n == number && l == level) by {
                    assert(known_identity(n, l).number == Some(n));
                    assert(known_identity(n, l).trust_level == l);
                }
            }
            if a.identity_trust.contains((number, level)) && g.members.contains(number) {
                mapped_has(a.identity_trust, p, f, (number, level));
            }
        }
    } else if look(a.identity_trust, id) is Some {
        let l = look(a.identity_trust, id)->0;
        assert(b.verify.identities == seq![known_identity(id, l)]);
        assert(seq![known_identity(id, l)][0] == known_identity(id, l));
        assert(known_identity(id, l).number == Some(id));
        assert(known_identity(id, l).trust_level == l);
    }
}

/// A file that was made for pasting is to be removed some time after the message that
/// it was sent with was answered, or could not be sent.
pub proof fn pasted_files_wait_for_the_answer(
    a: AppView,
    rpc: Seq<char>,
    path: Seq<char>,
    at_ms: u64,
    server_ts: i64,
    now_ms: i64,
    clock_ms: u64,
)
    requires
        look(a.pending.paste_cleanups, rpc) == Some((path, at_ms)),
        look(a.pending.sends, rpc) is None,
        clock_ms <= u64::MAX - 10000,
    ensures
        ({
            let sent = event_taken(
                a,
                SignalEventView::SendTimestamp { rpc_id: rpc, server_ts },
                now_ms,
                clock_ms,
            );
            let failed = event_taken(
                a,
                SignalEventView::SendFailed { rpc_id: rpc },
                now_ms,
                clock_ms,
            );
            &&& look(sent.pending.paste_cleanups, rpc) is Some
            &&& look(sent.pending.paste_cleanups, rpc)->0 == (
                path,
                (clock_ms + 10000) as u64,
            )
            &&& look(failed.pending.paste_cleanups, rpc) == look(sent.pending.paste_cleanups, rpc)
        }),
{
    reveal(send_answered);
    reveal(send_failed);
    look_after_put(
        a.pending.paste_cleanups,
        rpc,
        (path, crate::receipts::later(clock_ms, crate::receipts::PASTE_CLEANUP_DELAY_MS)),
        rpc,
    );
}

/// What is written goes to the top of the sidebar with its conversation, and the
/// newest messages are shown.
pub proof fn writing_brings_to_the_top(a: AppView, id: Seq<char>, text: Seq<char>, now_ms: i64)
    requires
        a.active_conversation == Some(id),
        a.editing_message is None,
        text.len() > 0,
        holds(a.store.conversations, id),
        a.store.conversation_order.contains(id),
    ensures
        ({
            let (b, _) = command_done(a, InputForm::SendText(text), now_ms);
            &&& b.store.conversation_order[0] == id
            &&& b.store.conversation_order.to_multiset() == a.store.conversation_order.to_multiset()
            &&& b.scroll.offset == 0 && b.scroll.focused_index is None
        }),
{
    reveal(text_submitted);
    reveal(message_sent);
    crate::conversation_store::moved_to_front_reorders(a.store.conversation_order, id);
}

} // verus!
