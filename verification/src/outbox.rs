//! What is promised of what one sends.
use crate::app::{AppView, SendRequestView};
use crate::arrivals::messages_of;
use crate::commands::{input_handled, input_taken};
use crate::conversation_store::{
    moved_to_front_reorders, slot, slot_finds, ConversationView, DisplayMessageView,
};
use crate::db::DbWriteView;
use crate::inbox::{behind_time, is_written};
use crate::messages::message_write;
use crate::outgoing::{
    first_free, longest_first, mentions_found, outgoing_claims, plain_text_is_sent, wire_before,
    wire_mentions, wire_text, wire_upto, ClaimView, PLACEHOLDER,
};
use crate::offsets::unit_len;
use crate::places::{changing_changes_only, message_of_time_is_found, newest_at, only_changed};
use crate::sending::{
    edit_sent, file_name, is_image_name, message_sent, outgoing_message, poll_created, reply_wire,
    text_submitted,
};
use crate::signal::MessageStatus;
use crate::strmap::{at, holds, look, look_after_put, put};
use crate::text::{occurs_at, trimmed};
use vstd::prelude::*;

verus! {

/// A text is what is submitted: what stands in the input, without the white space
/// around it, where it is no command.
pub open spec fn submits(a: AppView, text: Seq<char>) -> bool {
    &&& text == trimmed(a.input.before + a.input.after)
    &&& text.len() == 0 || text[0] != '/'
}

/// Whether a conversation is a group.
pub open spec fn is_group_there(a: AppView, id: Seq<char>) -> bool {
    match look(a.store.conversations, id) {
        Some(c) => c.is_group,
        None => false,
    }
}

/// Taking up the input changes nothing else.
spec fn same_but_input(a: AppView, b: AppView) -> bool {
    b == AppView { input: b.input, ..a }
}

proof fn submitting_submits(a: AppView, text: Seq<char>, now_ms: i64)
    requires
        submits(a, text),
    ensures
        input_handled(a, now_ms) == text_submitted(input_taken(a), text, now_ms),
        same_but_input(a, input_taken(a)),
{
    reveal(input_handled);
    reveal(input_taken);
    assert(a.input.text() == a.input.before + a.input.after);
}

/// A text that is submitted goes to the conversation that is looked at: to its id,
/// as a group where it is one, with the time, with the file that was to be attached
/// and with the quote of the message that is replied to. Where nobody is mentioned
/// the text goes as it was typed. Nothing is sent of nothing, or with no conversation
/// to send it to.
pub proof fn messages_go_to_the_active_conversation(
    a: AppView,
    id: Seq<char>,
    text: Seq<char>,
    now_ms: i64,
)
    requires
        submits(a, text),
        a.editing_message is None,
    ensures
        ({
            let q = input_handled(a, now_ms).1;
            let due = text.len() > 0 || a.pending.attachment is Some;
            &&& q is Some <==> due && a.active_conversation is Some
            &&& due && a.active_conversation == Some(id) ==> {
                &&& q->0 is Message
                &&& q->0->Message_recipient == id
                &&& q->0->Message_is_group == is_group_there(a, id)
                &&& q->0->Message_local_ts_ms == now_ms
                &&& q->0->Message_attachment == a.pending.attachment
                &&& match a.reply_target {
                    Some((author, body, ts)) => {
                        &&& q->0->Message_quote_author == Some(author)
                        &&& q->0->Message_quote_body == Some(body)
                        &&& q->0->Message_quote_timestamp == Some(ts)
                    },
                    None => {
                        &&& q->0->Message_quote_author is None
                        &&& q->0->Message_quote_body is None
                        &&& q->0->Message_quote_timestamp is None
                    },
                }
                &&& a.autocomplete.pending_mentions.len() == 0 ==> q->0->Message_body == text
                    && q->0->Message_mentions.len() == 0
            }
        }),
{
    reveal(text_submitted);
    submitting_submits(a, text, now_ms);
    let b = input_taken(a);
    if a.autocomplete.pending_mentions.len() == 0 {
        plain_text_is_sent(b, text);
    }
}

/// A text stands in another at a place.
pub open spec fn stands_at(s: Seq<char>, p: Seq<char>, i: int) -> bool {
    0 <= i && i + p.len() <= s.len() && s.subrange(i, i + p.len()) == p
}

/// Where one name was completed whose uuid is known, and it stands behind an `@` in
/// the text, the first place where it does is sent as a placeholder, and as a mention
/// of that uuid there; the rest of the text is sent as it was typed.
pub proof fn mentions_are_sent(
    a: AppView,
    id: Seq<char>,
    text: Seq<char>,
    name: Seq<char>,
    uuid: Seq<char>,
    i: int,
    now_ms: i64,
)
    requires
        submits(a, text),
        text.len() <= usize::MAX,
        a.editing_message is None,
        a.active_conversation == Some(id),
        a.autocomplete.pending_mentions =~= seq![(name, Some(uuid))],
        stands_at(text, "@"@ + name, i),
        forall|j: int| 0 <= j < i ==> !(#[trigger] stands_at(text, "@"@ + name, j)),
    ensures
        ({
            let q = input_handled(a, now_ms).1;
            &&& q is Some && q->0 is Message
            &&& q->0->Message_body == text.take(i) + seq![PLACEHOLDER] + text.skip(
                i + 1 + name.len(),
            )
            &&& q->0->Message_mentions == seq![(unit_len(text.take(i)) as usize, uuid)]
        }),
{
    reveal(text_submitted);
    submitting_submits(a, text, now_ms);
    let b = input_taken(a);
    let p = "@"@ + name;
    reveal_strlit("@");
    assert(p.len() == 1 + name.len());
    let none = Seq::<ClaimView>::empty();
    first_is_found(text, p, none, i, 0);
    let pending = b.autocomplete.pending_mentions;
    assert(pending.drop_last() =~= Seq::empty());
    assert(longest_first(pending.drop_last()) =~= Seq::empty());
    assert(longest_first(pending) =~= pending);
    let sorted = longest_first(pending);
    assert(sorted.len() == 1 && sorted[0] == (name, Some(uuid)));
    let c = ClaimView { start: i as usize, end: (i + p.len()) as usize, uuid };
    assert(mentions_found(text, sorted, 0) =~= none);
    assert(mentions_found(text, sorted, 1) =~= none.insert(0, c));
    let claims = outgoing_claims(b, text);
    assert(claims =~= seq![c]);
    assert(claims[0] == c);
    assert(wire_upto(text, claims, 0) =~= Seq::<char>::empty());
    assert(wire_before(text, claims, 0) =~= text.take(i));
    assert(wire_upto(text, claims, 1) =~= text.take(i).push(PLACEHOLDER));
    assert(wire_text(text, claims) =~= text.take(i) + seq![PLACEHOLDER] + text.skip(
        i + 1 + name.len(),
    ));
    assert(wire_mentions(text, claims) =~= seq![(unit_len(text.take(i)) as usize, uuid)]);
}

proof fn first_is_found(s: Seq<char>, p: Seq<char>, none: Seq<ClaimView>, i: int, from: int)
    requires
        none.len() == 0,
        0 <= from <= i,
        p.len() > 0,
        stands_at(s, p, i),
        forall|j: int| 0 <= j < i ==> !(#[trigger] stands_at(s, p, j)),
    ensures
        first_free(s, p, none, from) == Some(i),
    decreases i - from,
{
    assert(occurs_at(s, p, from) == stands_at(s, p, from));
    if from < i {
        first_is_found(s, p, none, i, from + 1);
    }
}

/// What is shown of a message that is sent: it is by `you`, from the account, at the
/// time, on its way, with the text behind what names the attached file, with the
/// quote of what is replied to, and it disappears as the conversation says.
pub open spec fn shows_sent(
    a: AppView,
    id: Seq<char>,
    text: Seq<char>,
    now_ms: i64,
    x: DisplayMessageView,
) -> bool {
    let timer = match look(a.store.conversations, id) {
        Some(c) => c.expiration_timer,
        None => 0,
    };
    &&& x.sender == "you"@ && x.sender_id == a.account
    &&& x.timestamp_ms == now_ms && x.timestamp == now_ms
    &&& x.status == Some(MessageStatus::Sending)
    &&& !x.is_system && !x.is_edited && !x.is_deleted && !x.is_pinned
    &&& x.reactions.len() == 0
    &&& match a.pending.attachment {
        None => x.body == text && x.image_path is None,
        Some(path) => {
            let name = file_name(path);
            let kind = if is_image_name(name) {
                "image"@
            } else {
                "attachment"@
            };
            let head = "["@ + kind + ": "@ + name + "]"@;
            x.body == if text.len() == 0 {
                head
            } else {
                head + " "@ + text
            }
        },
    }
    &&& match a.reply_target {
        Some((author, body, ts)) => {
            &&& x.quote is Some
            &&& x.quote->0.body == body && x.quote->0.timestamp_ms == ts && x.quote->0.author_id
                == author
            &&& x.quote->0.author == match look(a.store.contact_names, author) {
                Some(n) => n,
                None => if author == a.account {
                    "you"@
                } else {
                    author
                },
            }
        },
        None => x.quote is None,
    }
    &&& x.expires_in_seconds == timer
    &&& x.expiration_start_ms == if timer > 0 {
        now_ms
    } else {
        0
    }
}

/// A text that is submitted stands in the conversation that it goes to, once, behind
/// what is no later, and is written; no other conversation changes. What was to go
/// along goes along once: no file, no reply and no mention is left for the next one.
/// The conversation comes to the top of the sidebar.
pub proof fn messages_are_shown_where_they_go(
    a: AppView,
    id: Seq<char>,
    text: Seq<char>,
    now_ms: i64,
) -> (shown: (DisplayMessageView, int))
    requires
        submits(a, text),
        a.editing_message is None,
        text.len() > 0 || a.pending.attachment is Some,
        a.active_conversation == Some(id),
        holds(a.store.conversations, id),
    ensures
        ({
            let r = input_handled(a, now_ms).0;
            let s = messages_of(a.store, id);
            let (x, p) = shown;
            &&& behind_time(s, now_ms, p)
            &&& messages_of(r.store, id) == s.insert(p, x)
            &&& shows_sent(a, id, text, now_ms, x)
            &&& look(r.store.conversations, id) == Some(
                ConversationView {
                    messages: messages_of(r.store, id),
                    ..look(a.store.conversations, id)->0
                },
            )
            &&& forall|k: Seq<char>|
                k != id ==> #[trigger] look(r.store.conversations, k) == look(
                    a.store.conversations,
                    k,
                )
            &&& r.pending.attachment is None
            &&& r.reply_target is None
            &&& r.autocomplete.pending_mentions.len() == 0
            &&& r.active_conversation == a.active_conversation
            &&& a.store.conversation_order.contains(id) ==> r.store.conversation_order.len() > 0
                && r.store.conversation_order[0] == id
            &&& is_written(
                r.jobs,
                DbWriteView::InsertMessage {
                    conv_id: id,
                    sender: x.sender,
                    body: x.body,
                    is_system: false,
                    status: Some(MessageStatus::Sending),
                    timestamp_ms: now_ms,
                    sender_id: x.sender_id,
                    quote_author: match a.reply_target {
                        Some((author, _, _)) => Some(author),
                        None => None,
                    },
                    quote_body: match a.reply_target {
                        Some((_, body, _)) => Some(body),
                        None => None,
                    },
                    quote_ts_ms: match a.reply_target {
                        Some((_, _, ts)) => Some(ts),
                        None => None,
                    },
                    expires_in_seconds: x.expires_in_seconds,
                    expiration_start_ms: x.expiration_start_ms,
                },
            )
        }),
{
    reveal(text_submitted);
    reveal(message_sent);
    submitting_submits(a, text, now_ms);
    let b = input_taken(a);
    let r = input_handled(a, now_ms).0;
    let x = outgoing_message(b, id, text, now_ms);
    let s = messages_of(a.store, id);
    let p = slot(s, now_ms);
    slot_finds(s, now_ms);
    let c = at(a.store.conversations, id);
    let d = ConversationView { messages: c.messages.insert(p, x), ..c };
    assert(r.store.conversations == put(a.store.conversations, id, d));
    look_after_put(a.store.conversations, id, d, id);
    assert forall|k: Seq<char>| k != id implies #[trigger] look(r.store.conversations, k) == look(
        a.store.conversations,
        k,
    ) by {
        look_after_put(a.store.conversations, id, d, k);
    }
    reveal_strlit("[");
    reveal_strlit("]");
    reveal_strlit(": ");
    reveal_strlit(" ");
    match a.pending.attachment {
        Some(path) => {
            let name = file_name(path);
            let kind = if is_image_name(name) {
                "image"@
            } else {
                "attachment"@
            };
            let head = "["@ + kind + ": "@ + name + "]"@;
            assert(head + " "@ + text =~= (head + " "@) + text);
            assert(head + Seq::<char>::empty() =~= head);
            assert(text.len() == 0 ==> head + text =~= head);
        },
        None => {
            assert(Seq::<char>::empty() + text =~= text);
        },
    }
    moved_to_front_reorders(a.store.conversation_order, id);
    let w = message_write(id, x, reply_wire(b));
    assert(r.jobs[a.jobs.len() as int].write == w);
    (x, p)
}

/// Submitting while a message is edited gives that message the text, in the
/// conversation that it stands in, whichever is looked at, and asks the service for
/// it by the time of the message. The message is one's own; it is marked as edited,
/// and nothing else in any conversation changes. The edit is over.
pub proof fn edits_are_sent(
    a: AppView,
    id: Seq<char>,
    ts: i64,
    text: Seq<char>,
    i: int,
    now_ms: i64,
)
    requires
        submits(a, text),
        text.len() > 0,
        a.editing_message == Some((ts, id)),
        newest_at(messages_of(a.store, id), ts, i),
        messages_of(a.store, id)[i].sender == "you"@,
    ensures
        ({
            let (r, q) = input_handled(a, now_ms);
            let m = messages_of(a.store, id)[i];
            let x = messages_of(r.store, id)[i];
            &&& q is Some && q->0 is Edit
            &&& q->0->Edit_recipient == id
            &&& q->0->Edit_is_group == is_group_there(a, id)
            &&& q->0->Edit_edit_timestamp == ts
            &&& q->0->Edit_local_ts_ms == now_ms
            &&& a.autocomplete.pending_mentions.len() == 0 ==> q->0->Edit_body == text
                && q->0->Edit_mentions.len() == 0
            &&& match m.quote {
                Some(k) => q->0->Edit_quote_timestamp == Some(k.timestamp_ms)
                    && q->0->Edit_quote_author == Some(k.author_id) && q->0->Edit_quote_body
                    == Some(k.body),
                None => q->0->Edit_quote_timestamp is None && q->0->Edit_quote_author is None
                    && q->0->Edit_quote_body is None,
            }
            &&& only_changed(
                a,
                r,
                id,
                i,
                DisplayMessageView {
                    body: text,
                    is_edited: true,
                    body_raw: x.body_raw,
                    mentions: x.mentions,
                    mention_ranges: x.mention_ranges,
                    ..m
                },
            )
            &&& r.editing_message is None
            &&& is_written(
                r.jobs,
                DbWriteView::UpdateMessageBody { conv_id: id, timestamp_ms: ts, body: text },
            )
        }),
{
    reveal(text_submitted);
    reveal(edit_sent);
    submitting_submits(a, text, now_ms);
    let b = AppView { editing_message: None, ..input_taken(a) };
    let (r, q) = input_handled(a, now_ms);
    let s = messages_of(a.store, id);
    message_of_time_is_found(s, ts, i);
    let x = DisplayMessageView {
        is_edited: true,
        ..crate::sending::with_own_text(b, s[i], Seq::empty(), text)
    };
    assert(Seq::<char>::empty() + text =~= text);
    changing_changes_only(a, r, id, i, x);
    if a.autocomplete.pending_mentions.len() == 0 {
        plain_text_is_sent(b, text);
    }
    assert(r.jobs[a.jobs.len() as int].write == (DbWriteView::UpdateMessageBody {
        conv_id: id,
        timestamp_ms: ts,
        body: text,
    }));
}

/// A poll that is made stands in the conversation that is looked at as a message of
/// one's own, on its way, open, with the question and the options in their order,
/// and goes to the service as such.
pub proof fn polls_are_sent(
    a: AppView,
    id: Seq<char>,
    question: Seq<char>,
    options: Seq<Seq<char>>,
    allow_multiple: bool,
    now_ms: i64,
) -> (shown: (DisplayMessageView, int))
    requires
        a.active_conversation == Some(id),
        holds(a.store.conversations, id),
    ensures
        ({
            let (r, q) = poll_created(a, question, options, allow_multiple, now_ms);
            let s = messages_of(a.store, id);
            let (x, p) = shown;
            &&& q == Some(
                SendRequestView::PollCreate {
                    recipient: id,
                    is_group: is_group_there(a, id),
                    question,
                    options,
                    allow_multiple,
                    local_ts_ms: now_ms,
                },
            )
            &&& behind_time(s, now_ms, p)
            &&& messages_of(r.store, id) == s.insert(p, x)
            &&& x.sender == "you"@ && x.sender_id == a.account && x.timestamp_ms == now_ms
            &&& x.status == Some(MessageStatus::Sending)
            &&& x.body == "\u{1F4CA} "@ + question
            &&& x.poll_data is Some
            &&& x.poll_data->0.question == question
            &&& x.poll_data->0.allow_multiple == allow_multiple
            &&& !x.poll_data->0.closed
            &&& x.poll_data->0.options.len() == options.len()
            &&& forall|j: int|
                0 <= j < options.len() ==> (#[trigger] x.poll_data->0.options[j]).text == options[j]
                    && x.poll_data->0.options[j].id == j as i64
            &&& x.poll_votes.len() == 0
            &&& forall|k: Seq<char>|
                k != id ==> #[trigger] look(r.store.conversations, k) == look(
                    a.store.conversations,
                    k,
                )
        }),
{
    reveal(poll_created);
    let x = crate::sending::poll_message(
        a.account,
        crate::sending::new_poll(question, options, allow_multiple),
        now_ms,
    );
    let s = messages_of(a.store, id);
    let p = slot(s, now_ms);
    slot_finds(s, now_ms);
    let c = at(a.store.conversations, id);
    let d = ConversationView { messages: c.messages.insert(p, x), ..c };
    let r = poll_created(a, question, options, allow_multiple, now_ms).0;
    assert(r.store.conversations == put(a.store.conversations, id, d));
    look_after_put(a.store.conversations, id, d, id);
    assert forall|k: Seq<char>| k != id implies #[trigger] look(r.store.conversations, k) == look(
        a.store.conversations,
        k,
    ) by {
        look_after_put(a.store.conversations, id, d, k);
    }
    (x, p)
}

} // verus!
