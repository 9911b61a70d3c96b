//! Messages that come in: where they go, what they show and who is told.
use crate::app::{
    App, AppView, Effect, EffectView, PendingPoll, PendingPollView, PollVoteOverlayStateView,
    Setting,
};
use crate::conversation_store::{
    at_most_max, new_message, plain_message, short_form, short_name, slot, slot_for,
    ConversationStoreView, ConversationView, DisplayMessage, DisplayMessageView, Quote, QuoteView,
};
use crate::db::{quiet, shown, DbWrite, DbWriteView};
use crate::mentions::{mention_ranges, resolved_body, style_ranges};
use crate::navigation::{conversation_is_there, ensured, receipt_queued, topped};
use crate::signal::{
    Attachment, AttachmentView, Duplicate, MessageStatus, PollData, PollDataView, PreviewArt,
    PreviewArtView, SignalMessage, SignalMessageView, WireQuote, WireQuoteView,
};
use crate::strmap::{at, holds, look, put, put_new};
use crate::text::{concat2, concat3, from_range, same, starts_with_char, to_chars};
use vstd::prelude::*;

verus! {

// ---------------------------------------------------------------------------
// Putting a message in its place
// ---------------------------------------------------------------------------

/// A read marker after a message was put in at `pos`: it stays behind what was
/// read.
pub open spec fn marker_bumped(
    markers: Seq<(Seq<char>, usize)>,
    id: Seq<char>,
    pos: int,
) -> Seq<(Seq<char>, usize)> {
    match look(markers, id) {
        Some(n) => if pos <= n {
            put(markers, id, at_most_max(n + 1))
        } else {
            markers
        },
        None => markers,
    }
}

/// The state with a message in a conversation, in the order of times. Where
/// there is no such conversation nothing changes.
pub open spec fn placed(a: AppView, id: Seq<char>, m: DisplayMessageView) -> AppView {
    match look(a.store.conversations, id) {
        Some(c) => {
            let pos = slot(c.messages, m.timestamp_ms);
            AppView {
                store: ConversationStoreView {
                    conversations: put(
                        a.store.conversations,
                        id,
                        ConversationView { messages: c.messages.insert(pos, m), ..c },
                    ),
                    last_read_index: marker_bumped(a.store.last_read_index, id, pos),
                    ..a.store
                },
                expiring_msg_count: if m.expires_in_seconds > 0 {
                    at_most_max(a.expiring_msg_count + 1)
                } else {
                    a.expiring_msg_count
                },
                ..a
            }
        },
        None => a,
    }
}

/// The state with a message of one's own in a conversation, in the order of times.
/// A read marker right where it goes stays: what one writes oneself is not read.
pub open spec fn own_placed(a: AppView, id: Seq<char>, m: DisplayMessageView) -> AppView {
    match look(a.store.conversations, id) {
        Some(c) => AppView {
            store: ConversationStoreView {
                last_read_index: marker_bumped(
                    a.store.last_read_index,
                    id,
                    slot(c.messages, m.timestamp_ms) + 1,
                ),
                ..placed(a, id, m).store
            },
            ..placed(a, id, m)
        },
        None => a,
    }
}

/// What is written of a message.
pub open spec fn message_write(
    id: Seq<char>,
    m: DisplayMessageView,
    quote: Option<WireQuoteView>,
) -> DbWriteView {
    DbWriteView::InsertMessage {
        conv_id: id,
        sender: m.sender,
        body: m.body,
        is_system: m.is_system,
        status: m.status,
        timestamp_ms: m.timestamp_ms,
        sender_id: m.sender_id,
        quote_author: match quote {
            Some(q) => Some(q.author),
            None => None,
        },
        quote_body: match quote {
            Some(q) => Some(q.body),
            None => None,
        },
        quote_ts_ms: match quote {
            Some(q) => Some(q.timestamp_ms),
            None => None,
        },
        expires_in_seconds: m.expires_in_seconds,
        expiration_start_ms: m.expiration_start_ms,
    }
}

/// A line that the client itself puts into a conversation.
pub open spec fn system_message(body: Seq<char>, timestamp_ms: i64) -> DisplayMessageView {
    DisplayMessageView {
        is_system: true,
        ..plain_message(Seq::empty(), Seq::empty(), timestamp_ms, body)
    }
}

/// The state with a line of the client's own in a conversation.
#[verifier::opaque]
pub open spec fn system_said(
    a: AppView,
    id: Seq<char>,
    body: Seq<char>,
    timestamp_ms: i64,
) -> AppView {
    let m = system_message(body, timestamp_ms);
    placed(ensured(a, id, a.name_of(id), a.is_group(id)), id, m).write(
        shown(message_write(id, m, None), "insert_system_message"@),
    )
}

/// A message put into a conversation in time order leaves it so.
pub proof fn placed_keeps_time_order(a: AppView, id: Seq<char>, m: DisplayMessageView)
    requires
        holds(a.store.conversations, id),
        crate::conversation_store::in_time_order(at(a.store.conversations, id).messages),
    ensures
        crate::conversation_store::in_time_order(
            at(placed(a, id, m).store.conversations, id).messages,
        ),
{
    let c = at(a.store.conversations, id);
    let pos = slot(c.messages, m.timestamp_ms);
    crate::conversation_store::slot_keeps_time_order(c.messages, m);
    crate::strmap::look_after_put(
        a.store.conversations,
        id,
        ConversationView { messages: c.messages.insert(pos, m), ..c },
        id,
    );
}

/// How many messages have been read is kept right by a message that is put in
/// among them: those read stay read.
pub proof fn marker_stays_behind(
    markers: Seq<(Seq<char>, usize)>,
    id: Seq<char>,
    pos: int,
)
    requires
        holds(markers, id),
        at(markers, id) < usize::MAX,
    ensures
        look(marker_bumped(markers, id, pos), id) == Some(
            if pos <= at(markers, id) {
                (at(markers, id) + 1) as usize
            } else {
                at(markers, id)
            },
        ),
{
    crate::strmap::look_after_put(markers, id, at_most_max(at(markers, id) + 1), id);
}

/// A message of one's own that comes last leaves the read marker where it was.
pub proof fn own_message_moves_no_marker(a: AppView, id: Seq<char>, m: DisplayMessageView)
    requires
        holds(a.store.conversations, id),
        holds(a.store.last_read_index, id) ==> at(a.store.last_read_index, id) <= slot(
            at(a.store.conversations, id).messages,
            m.timestamp_ms,
        ),
    ensures
        own_placed(a, id, m).store.last_read_index == a.store.last_read_index,
{
}

/// What is written of a message.
pub fn write_of_message(id: &str, m: &DisplayMessage, quote: &Option<WireQuote>) -> (r: DbWrite)
    ensures
        r.deep_view() == message_write(id@, m.deep_view(), quote.deep_view()),
{
    let (quote_author, quote_body, quote_ts_ms) = match quote {
        Some(q) => (Some(q.author.clone()), Some(q.body.clone()), Some(q.timestamp_ms)),
        None => (None, None, None),
    };
    DbWrite::InsertMessage {
        conv_id: id.to_string(),
        sender: m.sender.clone(),
        body: m.body.clone(),
        is_system: m.is_system,
        status: m.status,
        timestamp_ms: m.timestamp_ms,
        sender_id: m.sender_id.clone(),
        quote_author,
        quote_body,
        quote_ts_ms,
        expires_in_seconds: m.expires_in_seconds,
        expiration_start_ms: m.expiration_start_ms,
    }
}

impl App {
    fn put_in_order(&mut self, id: &str, m: DisplayMessage, own: bool)
        ensures
            final(self).state() == if own {
                own_placed(old(self).state(), id@, m.deep_view())
            } else {
                placed(old(self).state(), id@, m.deep_view())
            },
    {
        reveal(App::state);
        let expires = m.expires_in_seconds > 0;
        let pos = match self.store.conversations.get_mut(id) {
            Some(c) => {
                let pos = slot_for(&c.messages, m.timestamp_ms);
                let ghost before = c.messages.deep_view();
                c.messages.insert(pos, m);
                assert(c.messages.deep_view() =~= before.insert(pos as int, m.deep_view()));
                pos
            },
            None => {
                return;
            },
        };
        match self.store.last_read_index.get_mut(id) {
            Some(n) => {
                if pos < *n || (pos == *n && !own) {
                    *n = (*n).saturating_add(1);
                }
            },
            None => {},
        }
        proof {
            let markers = old(self).store.last_read_index.deep_view();
            crate::strmap::place_finds(markers, id@);
            if holds(markers, id@) {
                assert(put(markers, id@, at(markers, id@)) =~= markers);
            }
        }
        if expires {
            self.expiring_msg_count = self.expiring_msg_count.saturating_add(1);
        }
    }

    /// Puts a message into a conversation, in the order of times.
    pub fn place_message(&mut self, id: &str, m: DisplayMessage)
        ensures
            final(self).state() == placed(old(self).state(), id@, m.deep_view()),
    {
        self.put_in_order(id, m, false)
    }

    /// Puts a message of one's own into a conversation, in the order of times.
    pub fn place_own_message(&mut self, id: &str, m: DisplayMessage)
        ensures
            final(self).state() == own_placed(old(self).state(), id@, m.deep_view()),
    {
        self.put_in_order(id, m, true)
    }

    /// Puts a line of the client's own into a conversation.
    pub fn handle_system_message(&mut self, conv_id: &str, body: &str, timestamp_ms: i64)
        ensures
            final(self).state() == system_said(old(self).state(), conv_id@, body@, timestamp_ms),
    {
        reveal(system_said);
        let is_group = self.conv_is_group(conv_id);
        let name = self.display_name(conv_id);
        self.get_or_create_conversation(conv_id, name.as_str(), is_group);
        let mut m = new_message(String::new(), String::new(), timestamp_ms, body.to_string());
        m.is_system = true;
        assert(m.deep_view() == system_message(body@, timestamp_ms));
        let write = write_of_message(conv_id, &m, &None);
        self.place_message(conv_id, m);
        self.record(write, "insert_system_message", true);
    }
}

// ---------------------------------------------------------------------------
// Polls that came before their message
// ---------------------------------------------------------------------------

/// The first poll from `i` on that waits for a message, or their number.
pub open spec fn poll_place(
    s: Seq<PendingPollView>,
    id: Seq<char>,
    ts: i64,
    i: int,
) -> int
    decreases s.len() - i,
{
    if i < 0 || i >= s.len() {
        s.len() as int
    } else if s[i].conv_id == id && s[i].timestamp_ms == ts {
        i
    } else {
        poll_place(s, id, ts, i + 1)
    }
}

/// The poll that waits for a message.
pub open spec fn waiting_poll(a: AppView, id: Seq<char>, ts: i64) -> Option<PollDataView> {
    let p = poll_place(a.poll.pending_polls, id, ts, 0);
    if p < a.poll.pending_polls.len() {
        Some(a.poll.pending_polls[p].poll)
    } else {
        None
    }
}

/// The state without the poll that waits for a message.
pub open spec fn poll_taken(a: AppView, id: Seq<char>, ts: i64) -> AppView {
    let p = poll_place(a.poll.pending_polls, id, ts, 0);
    if p < a.poll.pending_polls.len() {
        AppView {
            poll: PollVoteOverlayStateView {
                pending_polls: a.poll.pending_polls.remove(p),
                ..a.poll
            },
            ..a
        }
    } else {
        a
    }
}

/// Finds the poll that waits for a message.
pub fn find_poll(v: &Vec<PendingPoll>, id: &str, ts: i64) -> (r: Option<usize>)
    ensures
        match r {
            Some(i) => i < v@.len() && i == poll_place(v.deep_view(), id@, ts, 0),
            None => poll_place(v.deep_view(), id@, ts, 0) == v@.len(),
        },
{
    let ghost s = v.deep_view();
    let mut i: usize = 0;
    while i < v.len() && !(v[i].timestamp_ms == ts && same(v[i].conv_id.as_str(), id))
        invariant
            i <= v@.len(),
            s == v.deep_view(),
            poll_place(s, id@, ts, 0) == poll_place(s, id@, ts, i as int),
        decreases v@.len() - i,
    {
        assert(s[i as int] == v@[i as int].deep_view());
        i += 1;
    }
    if i < v.len() {
        assert(s[i as int] == v@[i as int].deep_view());
        Some(i)
    } else {
        None
    }
}

impl App {
    fn take_poll(&mut self, id: &str, ts: i64) -> (r: Option<PollData>)
        ensures
            final(self).state() == poll_taken(old(self).state(), id@, ts),
            r.deep_view() == waiting_poll(old(self).state(), id@, ts),
    {
        reveal(App::state);
        match find_poll(&self.poll.pending_polls, id, ts) {
            Some(i) => {
                let ghost before = self.poll.pending_polls.deep_view();
                let p = self.poll.pending_polls.remove(i);
                assert(p.deep_view() == before[i as int]);
                assert(self.poll.pending_polls.deep_view() =~= before.remove(i as int));
                Some(p.poll)
            },
            None => None,
        }
    }
}

// ---------------------------------------------------------------------------
// What a message shows
// ---------------------------------------------------------------------------

/// The conversation that a message belongs to: its group, else whom it was sent
/// to, else who sent it. One's own message without a recipient has none.
pub open spec fn message_conversation(m: SignalMessageView) -> Option<Seq<char>> {
    match m.group_id {
        Some(id) => Some(id),
        None => if m.is_outgoing {
            m.destination
        } else {
            Some(m.source)
        },
    }
}

/// The state with the names that a message tells. A name that is known already
/// stays.
pub open spec fn names_learnt(a: AppView, m: SignalMessageView) -> AppView {
    match m.source_name {
        Some(name) => if m.is_outgoing {
            a
        } else {
            AppView {
                store: ConversationStoreView {
                    contact_names: put_new(a.store.contact_names, m.source, name),
                    uuid_to_name: match m.source_uuid {
                        Some(uuid) => if name.len() > 0 {
                            put_new(a.store.uuid_to_name, uuid, name)
                        } else {
                            a.store.uuid_to_name
                        },
                        None => a.store.uuid_to_name,
                    },
                    ..a.store
                },
                ..a
            }
        },
        None => a,
    }
}

/// The name of the conversation of a message: what the message tells, else what
/// is known. The sender of a group message does not name the group.
pub open spec fn message_conv_name(a: AppView, m: SignalMessageView, id: Seq<char>) -> Seq<char> {
    match m.group_name {
        Some(name) => name,
        None => if m.group_id is None && m.source_name is Some {
            m.source_name->0
        } else {
            a.name_of(id)
        },
    }
}

/// How the sender of a message is shown.
pub open spec fn sender_shown(a: AppView, m: SignalMessageView) -> Seq<char> {
    if m.is_outgoing {
        "you"@
    } else {
        match m.source_name {
            Some(name) => name,
            None => match look(a.store.contact_names, m.source) {
                Some(name) => name,
                None => short_form(m.source),
            },
        }
    }
}

/// The number of the sender of a message.
pub open spec fn sender_number(a: AppView, m: SignalMessageView) -> Seq<char> {
    if m.is_outgoing {
        a.account
    } else {
        m.source
    }
}

/// When the countdown of a message that disappears starts: with the message
/// where it is one's own, else now.
pub open spec fn countdown_start(m: SignalMessageView, now_ms: i64) -> i64 {
    if m.expires_in_seconds > 0 {
        if m.is_outgoing {
            m.timestamp_ms
        } else {
            now_ms
        }
    } else {
        0
    }
}

/// A message without its contents: who sent it, when, and how long it lasts.
pub open spec fn message_frame(
    a: AppView,
    m: SignalMessageView,
    now_ms: i64,
) -> DisplayMessageView {
    DisplayMessageView {
        status: if m.is_outgoing {
            Some(MessageStatus::Sent)
        } else {
            None
        },
        expires_in_seconds: m.expires_in_seconds,
        expiration_start_ms: countdown_start(m, now_ms),
        ..plain_message(sender_shown(a, m), sender_number(a, m), m.timestamp_ms, Seq::empty())
    }
}

/// A quote with its author shown by name.
pub open spec fn quote_shown(a: AppView, q: WireQuoteView) -> QuoteView {
    QuoteView {
        author: match look(a.store.contact_names, q.author) {
            Some(name) => name,
            None => if q.author == a.account {
                "you"@
            } else {
                q.author
            },
        },
        body: q.body,
        timestamp_ms: q.timestamp_ms,
        author_id: q.author,
    }
}

/// The text of a message, with its mentions resolved.
pub open spec fn text_part(
    a: AppView,
    m: SignalMessageView,
    frame: DisplayMessageView,
    raw: Seq<char>,
) -> DisplayMessageView {
    let body = resolved_body(raw, m.mentions, a.store.uuid_to_name);
    DisplayMessageView {
        body,
        mention_ranges: mention_ranges(raw, body, m.mentions, a.store.uuid_to_name),
        style_ranges: style_ranges(body, m.text_styles, m.mentions, a.store.uuid_to_name),
        quote: match m.quote {
            Some(q) => Some(quote_shown(a, q)),
            None => None,
        },
        body_raw: if m.mentions.len() > 0 {
            Some(raw)
        } else {
            None
        },
        mentions: m.mentions,
        ..frame
    }
}

/// A path with forward slashes.
pub open spec fn forward_slashes(path: Seq<char>) -> Seq<char> {
    path.map_values(
        |c: char|
            if c == '\\' {
                '/'
            } else {
                c
            },
    )
}

/// A path as the address of a file.
pub open spec fn file_uri(path: Seq<char>) -> Seq<char> {
    let p = forward_slashes(path);
    if p.len() > 0 && p[0] == '/' {
        "file://"@ + p
    } else {
        "file:///"@ + p
    }
}

/// Files of a kind that can be drawn.
pub open spec fn is_image_type(t: Seq<char>) -> bool {
    t == "image/jpeg"@ || t == "image/png"@ || t == "image/gif"@ || t == "image/webp"@
}

/// What an attachment shows: its name or kind, and where the file lies.
pub open spec fn attachment_part(
    frame: DisplayMessageView,
    att: AttachmentView,
) -> DisplayMessageView {
    let label = match att.filename {
        Some(name) => name,
        None => att.content_type,
    };
    let link = match att.local_path {
        Some(path) => "("@ + file_uri(path) + ")"@,
        None => Seq::empty(),
    };
    if is_image_type(att.content_type) {
        DisplayMessageView {
            body: "[image: "@ + label + "]"@ + link,
            image_lines: match att.local_path {
                Some(_) => att.rendered,
                None => None,
            },
            image_path: att.local_path,
            ..frame
        }
    } else {
        DisplayMessageView { body: "[attachment: "@ + label + "]"@ + link, ..frame }
    }
}

/// The messages that are shown for one that came in: its text, then each
/// attachment.
pub open spec fn message_parts(
    a: AppView,
    m: SignalMessageView,
    now_ms: i64,
) -> Seq<DisplayMessageView> {
    let frame = message_frame(a, m, now_ms);
    let files = m.attachments.map_values(|att: AttachmentView| attachment_part(frame, att));
    match m.body {
        Some(raw) => seq![text_part(a, m, frame, raw)] + files,
        None => files,
    }
}

/// Turns a path into the address of a file.
pub fn path_to_file_uri(path: &str) -> (r: String)
    ensures
        r@ == file_uri(path@),
{
    let chars = to_chars(path);
    let mut p = String::new();
    let mut i: usize = 0;
    while i < chars.len()
        invariant
            chars@ == path@,
            i <= chars@.len(),
            p@.len() == i,
            forall|k: int| 0 <= k < i ==> p@[k] == forward_slashes(path@)[k],
        decreases chars@.len() - i,
    {
        let c = chars[i];
        p.push(if c == '\\' {
            '/'
        } else {
            c
        });
        i += 1;
    }
    assert(p@ =~= forward_slashes(path@));
    if starts_with_char(p.as_str(), '/') {
        concat2("file://", p.as_str())
    } else {
        concat2("file:///", p.as_str())
    }
}

fn attachment_message(frame: &DisplayMessage, att: &Attachment) -> (r: DisplayMessage)
    ensures
        r.deep_view() == attachment_part(frame.deep_view(), att.deep_view()),
{
    let label = match &att.filename {
        Some(name) => name.clone(),
        None => att.content_type.clone(),
    };
    let link = match &att.local_path {
        Some(path) => {
            let uri = path_to_file_uri(path.as_str());
            concat3("(", uri.as_str(), ")")
        },
        None => String::new(),
    };
    let t = att.content_type.as_str();
    let mut m = frame.duplicate();
    if same(t, "image/jpeg") || same(t, "image/png") || same(t, "image/gif") || same(
        t,
        "image/webp",
    ) {
        let a = concat3("[image: ", label.as_str(), "]");
        m.body = concat2(a.as_str(), link.as_str());
        m.image_lines = match &att.local_path {
            Some(_) => att.rendered.duplicate(),
            None => None,
        };
        m.image_path = att.local_path.duplicate();
    } else {
        let a = concat3("[attachment: ", label.as_str(), "]");
        m.body = concat2(a.as_str(), link.as_str());
    }
    m
}

impl App {
    fn show_sender(&self, m: &SignalMessage) -> (r: String)
        ensures
            r@ == sender_shown(self.state(), m.deep_view()),
    {
        reveal(App::state);
        if m.is_outgoing {
            return "you".to_string();
        }
        match &m.source_name {
            Some(name) => name.clone(),
            None => match self.store.contact_names.get(m.source.as_str()) {
                Some(name) => name.clone(),
                None => short_name(m.source.as_str()),
            },
        }
    }

    fn number_of_sender(&self, m: &SignalMessage) -> (r: String)
        ensures
            r@ == sender_number(self.state(), m.deep_view()),
    {
        reveal(App::state);
        if m.is_outgoing {
            self.account.clone()
        } else {
            m.source.clone()
        }
    }

    fn frame_of(&self, m: &SignalMessage, now_ms: i64) -> (r: DisplayMessage)
        ensures
            r.deep_view() == message_frame(self.state(), m.deep_view(), now_ms),
    {
        let sender = self.show_sender(m);
        let number = self.number_of_sender(m);
        let mut r = new_message(sender, number, m.timestamp_ms, String::new());
        r.status = if m.is_outgoing {
            Some(MessageStatus::Sent)
        } else {
            None
        };
        r.expires_in_seconds = m.expires_in_seconds;
        r.expiration_start_ms = if m.expires_in_seconds > 0 {
            if m.is_outgoing {
                m.timestamp_ms
            } else {
                now_ms
            }
        } else {
            0
        };
        r
    }

    fn show_quote(&self, q: &WireQuote) -> (r: Quote)
        ensures
            r.deep_view() == quote_shown(self.state(), q.deep_view()),
    {
        reveal(App::state);
        let author = match self.store.contact_names.get(q.author.as_str()) {
            Some(name) => name.clone(),
            None => if same(q.author.as_str(), self.account.as_str()) {
                "you".to_string()
            } else {
                q.author.clone()
            },
        };
        Quote {
            author,
            body: q.body.clone(),
            timestamp_ms: q.timestamp_ms,
            author_id: q.author.clone(),
        }
    }

    fn text_message(&self, m: &SignalMessage, frame: &DisplayMessage, raw: &String) -> (r:
        DisplayMessage)
        ensures
            r.deep_view() == text_part(self.state(), m.deep_view(), frame.deep_view(), raw@),
    {
        assert(self.state().store == self.store.deep_view()) by {
            reveal(App::state);
        }
        let mut r = frame.duplicate();
        let (body, ranges) = self.store.resolve_mentions(raw.as_str(), &m.mentions);
        let styles = self.store.resolve_text_styles(body.as_str(), &m.text_styles, &m.mentions);
        assert(ranges.deep_view() =~= ranges@);
        assert(styles.deep_view() =~= styles@);
        assert(m.text_styles.deep_view() =~= m.text_styles@);
        r.body = body;
        r.mention_ranges = ranges;
        r.style_ranges = styles;
        r.quote = match &m.quote {
            Some(q) => Some(self.show_quote(q)),
            None => None,
        };
        r.body_raw = if m.mentions.len() > 0 {
            Some(raw.clone())
        } else {
            None
        };
        r.mentions = m.mentions.duplicate();
        r
    }

    fn parts_of(&self, m: &SignalMessage, now_ms: i64) -> (r: Vec<DisplayMessage>)
        ensures
            r.deep_view() == message_parts(self.state(), m.deep_view(), now_ms),
    {
        let frame = self.frame_of(m, now_ms);
        let ghost f = frame.deep_view();
        let ghost files = m.attachments.deep_view().map_values(
            |att: AttachmentView| attachment_part(f, att),
        );
        let mut r: Vec<DisplayMessage> = Vec::new();
        if let Some(raw) = &m.body {
            r.push(self.text_message(m, &frame, raw));
        }
        let ghost head = r.deep_view();
        let mut i: usize = 0;
        assert(r.deep_view() =~= head + files.take(0));
        while i < m.attachments.len()
            invariant
                i <= m.attachments@.len(),
                f == frame.deep_view(),
                files == m.attachments.deep_view().map_values(
                    |att: AttachmentView| attachment_part(f, att),
                ),
                r.deep_view() == head + files.take(i as int),
            decreases m.attachments@.len() - i,
        {
            let ghost before = r.deep_view();
            let x = attachment_message(&frame, &m.attachments[i]);
            assert(x.deep_view() == files[i as int]);
            r.push(x);
            assert(r.deep_view() =~= before.push(x.deep_view()));
            assert(r.deep_view() =~= head + files.take(i + 1));
            i += 1;
        }
        assert(files.take(files.len() as int) =~= files);
        assert(r.deep_view() =~= message_parts(self.state(), m.deep_view(), now_ms));
        r
    }
}

// ---------------------------------------------------------------------------
// Taking a message in
// ---------------------------------------------------------------------------

/// The state with a message put into its conversation, with the poll that
/// waited for it, and written to the database.
pub open spec fn part_stored(
    a: AppView,
    id: Seq<char>,
    part: DisplayMessageView,
    quote: Option<WireQuoteView>,
) -> AppView {
    let ts = part.timestamp_ms;
    placed(
        poll_taken(a, id, ts),
        id,
        DisplayMessageView { poll_data: waiting_poll(a, id, ts), ..part },
    ).write(quiet(message_write(id, part, quote), "insert_message"@))
}

/// The state with messages put into their conversation, one after the other.
pub open spec fn parts_stored(
    a: AppView,
    id: Seq<char>,
    parts: Seq<DisplayMessageView>,
    quote: Option<WireQuoteView>,
) -> AppView
    decreases parts.len(),
{
    if parts.len() == 0 {
        a
    } else {
        part_stored(parts_stored(a, id, parts.drop_last(), quote), id, parts.last(), quote)
    }
}

/// The conversation of a message is new and from someone unknown: it is to be
/// accepted first.
pub open spec fn is_request(a: AppView, m: SignalMessageView, id: Seq<char>) -> bool {
    !holds(a.store.conversations, id) && !m.is_outgoing && m.group_id is None && !holds(
        a.store.contact_names,
        id,
    )
}

/// The state with the conversation of a message there.
#[verifier::opaque]
pub open spec fn conversation_met(a: AppView, m: SignalMessageView, id: Seq<char>) -> AppView {
    let b = names_learnt(topped(a, id), m);
    let c = ensured(b, id, message_conv_name(b, m, id), m.group_id is Some);
    if is_request(b, m, id) {
        c.with_conv(
            id,
            ConversationView { accepted: false, ..at(c.store.conversations, id) },
        ).write(
            shown(DbWriteView::UpdateAccepted { conv_id: id, accepted: false }, "update_accepted"@),
        )
    } else {
        c
    }
}

/// The state with the timer of a conversation that of its last message.
#[verifier::opaque]
pub open spec fn timer_synced(a: AppView, id: Seq<char>, seconds: i64) -> AppView {
    match look(a.store.conversations, id) {
        Some(c) => if c.expiration_timer != seconds {
            a.with_conv(id, ConversationView { expiration_timer: seconds, ..c }).write(
                quiet(
                    DbWriteView::UpdateExpirationTimer { conv_id: id, seconds },
                    "update_expiration_timer"@,
                ),
            )
        } else {
            a
        },
        None => a,
    }
}

/// The last message of a time that is no attachment, or -1.
pub open spec fn last_text(msgs: Seq<DisplayMessageView>, ts: i64) -> int
    decreases msgs.len(),
{
    if msgs.len() == 0 {
        -1
    } else if msgs.last().timestamp_ms == ts && !(msgs.last().body.len() > 0
        && msgs.last().body[0] == '[') {
        msgs.len() - 1
    } else {
        last_text(msgs.drop_last(), ts)
    }
}

/// A message with a link preview. Its thumbnail is shown where link previews
/// and images are.
pub open spec fn with_preview(
    a: AppView,
    m: DisplayMessageView,
    p: PreviewArtView,
) -> DisplayMessageView {
    let draw = a.on(Setting::ShowLinkPreviews) && a.on(Setting::InlineImages)
        && p.preview.image_path is Some;
    DisplayMessageView {
        preview: Some(p.preview),
        preview_image_lines: if draw {
            p.lines
        } else {
            None
        },
        preview_image_path: if draw {
            p.preview.image_path
        } else {
            None
        },
        ..m
    }
}

/// The state with the first link preview of a message shown with its text.
#[verifier::opaque]
pub open spec fn preview_attached(
    a: AppView,
    id: Seq<char>,
    ts: i64,
    previews: Seq<PreviewArtView>,
) -> AppView {
    if previews.len() == 0 {
        a
    } else {
        let p = previews[0];
        let b = match look(a.store.conversations, id) {
            Some(c) => {
                let i = last_text(c.messages, ts);
                if i >= 0 {
                    a.with_msg(id, i, with_preview(a, c.messages[i], p))
                } else {
                    a
                }
            },
            None => a,
        };
        b.write(
            quiet(
                DbWriteView::UpsertLinkPreview {
                    conv_id: id,
                    timestamp_ms: ts,
                    preview: p.preview,
                },
                "upsert_link_preview"@,
            ),
        )
    }
}

/// The title and the text of a desktop notification, by how much it may tell.
pub open spec fn notice(
    sender: Seq<char>,
    body: Seq<char>,
    group_name: Option<Seq<char>>,
    level: Seq<char>,
) -> (Seq<char>, Seq<char>) {
    let title = match group_name {
        Some(g) => g + " — "@ + sender,
        None => sender,
    };
    if level == "minimal"@ {
        ("New message"@, Seq::empty())
    } else if level == "sender"@ {
        (title, "New message"@)
    } else {
        (
            title,
            if body.len() > 100 {
                body.take(100)
            } else {
                body
            },
        )
    }
}

/// The conversation was accepted and is neither muted nor blocked.
pub open spec fn may_notify(a: AppView, id: Seq<char>) -> bool {
    (match look(a.store.conversations, id) {
        Some(c) => c.accepted,
        None => true,
    }) && !a.muted.contains(id) && !a.blocked.contains(id)
}

/// The state after a message came in for a conversation that is not active: it
/// counts as unread, the bell rings and a notification is shown, as far as the
/// settings and the conversation let them.
#[verifier::opaque]
pub open spec fn notified(a: AppView, m: SignalMessageView, id: Seq<char>) -> AppView {
    let b = match look(a.store.conversations, id) {
        Some(c) => a.with_conv(id, ConversationView { unread: at_most_max(c.unread + 1), ..c }),
        None => a,
    };
    let is_group = m.group_id is Some;
    let rings = if is_group {
        b.on(Setting::NotifyGroup)
    } else {
        b.on(Setting::NotifyDirect)
    };
    let c = if rings && may_notify(b, id) {
        b.raised(crate::app::Flag::Bell)
    } else {
        b
    };
    if c.on(Setting::DesktopNotifications) && may_notify(b, id) {
        let text = match m.body {
            Some(t) => t,
            None => Seq::empty(),
        };
        let group_name = if is_group {
            match look(c.store.conversations, id) {
                Some(conv) => Some(conv.name),
                None => None,
            }
        } else {
            None
        };
        let (title, body) = notice(sender_shown(c, m), text, group_name, c.notification_preview);
        c.ask(EffectView::Notify { title, body })
    } else {
        c
    }
}

/// The state after a message came for the active conversation: a receipt is
/// sent, and it counts as read.
#[verifier::opaque]
pub open spec fn seen(a: AppView, m: SignalMessageView, id: Seq<char>) -> AppView {
    let accepted = match look(a.store.conversations, id) {
        Some(c) => c.accepted,
        None => true,
    };
    let b = if !m.is_outgoing && accepted && !a.blocked.contains(id) {
        receipt_queued(a, sender_number(a, m), m.timestamp_ms)
    } else {
        a
    };
    let c = match look(b.store.conversations, id) {
        Some(conv) => AppView {
            store: ConversationStoreView {
                last_read_index: put(
                    b.store.last_read_index,
                    id,
                    conv.messages.len() as usize,
                ),
                ..b.store
            },
            ..b
        },
        None => b,
    };
    c.write(quiet(DbWriteView::SaveReadMarker { conv_id: id }, "save_read_marker"@))
}

/// The state after a message.
#[verifier::opaque]
pub open spec fn message_taken(a: AppView, m: SignalMessageView, now_ms: i64) -> AppView {
    match message_conversation(m) {
        None => a,
        Some(id) => {
            let b = timer_synced(conversation_met(a, m, id), id, m.expires_in_seconds);
            let c = parts_stored(b, id, message_parts(b, m, now_ms), m.quote);
            let d = preview_attached(c, id, m.timestamp_ms, m.previews);
            if d.active_conversation == Some(id) {
                seen(d, m, id)
            } else if m.is_outgoing {
                d
            } else {
                notified(d, m, id)
            }
        },
    }
}

fn make_notice(
    sender: &str,
    body: &str,
    group_name: &Option<String>,
    level: &str,
) -> (r: (String, String))
    ensures
        (r.0@, r.1@) == notice(sender@, body@, group_name.deep_view(), level@),
{
    let title = match group_name {
        Some(g) => concat3(g.as_str(), " — ", sender),
        None => sender.to_string(),
    };
    if same(level, "minimal") {
        ("New message".to_string(), String::new())
    } else if same(level, "sender") {
        (title, "New message".to_string())
    } else {
        let chars = to_chars(body);
        let n = if chars.len() > 100 {
            100
        } else {
            chars.len()
        };
        let text = from_range(&chars, 0, n);
        assert(body@.len() > 100 ==> text@ =~= body@.take(100));
        assert(body@.len() <= 100 ==> text@ =~= body@);
        (title, text)
    }
}

fn find_last_text(msgs: &Vec<DisplayMessage>, ts: i64) -> (r: Option<usize>)
    ensures
        match r {
            Some(i) => i < msgs@.len() && last_text(msgs.deep_view(), ts) == i,
            None => last_text(msgs.deep_view(), ts) == -1,
        },
{
    let ghost s = msgs.deep_view();
    let mut n = msgs.len();
    assert(s.take(n as int) =~= s);
    while n > 0
        invariant
            n <= msgs@.len(),
            s == msgs.deep_view(),
            last_text(s, ts) == last_text(s.take(n as int), ts),
        decreases n,
    {
        let m = &msgs[n - 1];
        assert(s.take(n as int).last() == m.deep_view());
        assert(s.take(n as int).drop_last() =~= s.take(n - 1));
        if m.timestamp_ms == ts && !starts_with_char(m.body.as_str(), '[') {
            return Some(n - 1);
        }
        n -= 1;
    }
    None
}

impl App {
    fn learn_names(&mut self, m: &SignalMessage)
        ensures
            final(self).state() == names_learnt(old(self).state(), m.deep_view()),
    {
        reveal(App::state);
        if m.is_outgoing {
            return;
        }
        if let Some(name) = &m.source_name {
            self.store.contact_names.insert_new(m.source.clone(), name.clone());
            if let Some(uuid) = &m.source_uuid {
                if !name.as_str().is_empty() {
                    self.store.uuid_to_name.insert_new(uuid.clone(), name.clone());
                }
            }
        }
    }

    fn name_conversation(&self, m: &SignalMessage, id: &str) -> (r: String)
        ensures
            r@ == message_conv_name(self.state(), m.deep_view(), id@),
    {
        match &m.group_name {
            Some(name) => name.clone(),
            None => {
                if m.group_id.is_none() {
                    if let Some(name) = &m.source_name {
                        return name.clone();
                    }
                }
                self.display_name(id)
            },
        }
    }

    fn is_new_request(&self, m: &SignalMessage, id: &str) -> (r: bool)
        ensures
            r == is_request(self.state(), m.deep_view(), id@),
    {
        reveal(App::state);
        !self.store.conversations.contains_key(id) && !m.is_outgoing && m.group_id.is_none()
            && !self.store.contact_names.contains_key(id)
    }

    /// Accepts a conversation or takes that back.
    pub fn set_accepted(&mut self, id: &str, accepted: bool)
        ensures
            final(self).state() == match look(old(self).state().store.conversations, id@) {
                Some(c) => old(self).state().with_conv(id@, ConversationView { accepted, ..c }),
                None => old(self).state(),
            },
    {
        reveal(App::state);
        if let Some(c) = self.store.conversations.get_mut(id) {
            c.accepted = accepted;
        }
    }

    fn meet_conversation(&mut self, m: &SignalMessage, id: &str)
        ensures
            final(self).state() == conversation_met(old(self).state(), m.deep_view(), id@),
    {
        reveal(conversation_met);
        self.move_conversation_to_top(id);
        self.learn_names(m);
        let name = self.name_conversation(m, id);
        let request = self.is_new_request(m, id);
        proof {
            conversation_is_there(self.state().store, id@, name@, m.group_id is Some);
        }
        self.get_or_create_conversation(id, name.as_str(), m.group_id.is_some());
        if request {
            self.set_accepted(id, false);
            self.record(
                DbWrite::UpdateAccepted { conv_id: id.to_string(), accepted: false },
                "update_accepted",
                true,
            );
        }
    }

    fn sync_timer(&mut self, id: &str, seconds: i64)
        ensures
            final(self).state() == timer_synced(old(self).state(), id@, seconds),
    {
        reveal(timer_synced);
        reveal(App::state);
        let mut changed = false;
        proof {
            let convs = self.store.conversations.deep_view();
            crate::strmap::place_finds(convs, id@);
            if holds(convs, id@) {
                assert(put(convs, id@, at(convs, id@)) =~= convs);
            }
        }
        if let Some(c) = self.store.conversations.get_mut(id) {
            if c.expiration_timer != seconds {
                c.expiration_timer = seconds;
                changed = true;
            }
        }
        if changed {
            self.record(
                DbWrite::UpdateExpirationTimer { conv_id: id.to_string(), seconds },
                "update_expiration_timer",
                false,
            );
        }
    }

    fn store_part(&mut self, id: &str, part: DisplayMessage, quote: &Option<WireQuote>)
        ensures
            final(self).state() == part_stored(
                old(self).state(),
                id@,
                part.deep_view(),
                quote.deep_view(),
            ),
    {
        let write = write_of_message(id, &part, quote);
        let poll = self.take_poll(id, part.timestamp_ms);
        let ghost p = part.deep_view();
        let mut m = part;
        m.poll_data = poll;
        assert(m.deep_view() == (DisplayMessageView { poll_data: poll.deep_view(), ..p }));
        self.place_message(id, m);
        self.record(write, "insert_message", false);
    }

    fn store_parts(&mut self, id: &str, parts: Vec<DisplayMessage>, quote: &Option<WireQuote>)
        ensures
            final(self).state() == parts_stored(
                old(self).state(),
                id@,
                parts.deep_view(),
                quote.deep_view(),
            ),
    {
        let ghost s = parts.deep_view();
        let mut i: usize = 0;
        assert(s.take(0) =~= Seq::<DisplayMessageView>::empty());
        while i < parts.len()
            invariant
                i <= parts@.len(),
                s == parts.deep_view(),
                self.state() == parts_stored(
                    old(self).state(),
                    id@,
                    s.take(i as int),
                    quote.deep_view(),
                ),
            decreases parts@.len() - i,
        {
            proof {
                assert(s.take(i + 1).drop_last() =~= s.take(i as int));
                assert(s.take(i + 1).last() == parts@[i as int].deep_view());
            }
            self.store_part(id, parts[i].duplicate(), quote);
            i += 1;
        }
        assert(s.take(s.len() as int) =~= s);
    }

    fn attach_preview(&mut self, id: &str, ts: i64, previews: &Vec<PreviewArt>)
        ensures
            final(self).state() == preview_attached(
                old(self).state(),
                id@,
                ts,
                previews.deep_view(),
            ),
    {
        reveal(preview_attached);
        reveal(App::state);
        if previews.len() == 0 {
            return;
        }
        let p = &previews[0];
        assert(p.deep_view() == previews.deep_view()[0]);
        let draw = self.is_on(Setting::ShowLinkPreviews) && self.is_on(Setting::InlineImages)
            && p.preview.image_path.is_some();
        proof {
            let convs = self.store.conversations.deep_view();
            crate::strmap::place_finds(convs, id@);
            if holds(convs, id@) {
                assert(put(convs, id@, at(convs, id@)) =~= convs);
            }
        }
        if let Some(c) = self.store.conversations.get_mut(id) {
            if let Some(i) = find_last_text(&c.messages, ts) {
                let ghost before = c.messages.deep_view();
                let ghost old_m = c.messages@[i as int].deep_view();
                c.messages[i].preview = Some(p.preview.duplicate());
                c.messages[i].preview_image_lines = if draw {
                    p.lines.duplicate()
                } else {
                    None
                };
                c.messages[i].preview_image_path = if draw {
                    p.preview.image_path.duplicate()
                } else {
                    None
                };
                assert(c.messages.deep_view() =~= before.update(
                    i as int,
                    with_preview(old(self).state(), old_m, p.deep_view()),
                ));
            }
        }
        self.record(
            DbWrite::UpsertLinkPreview {
                conv_id: id.to_string(),
                timestamp_ms: ts,
                preview: p.preview.duplicate(),
            },
            "upsert_link_preview",
            false,
        );
    }

    fn add_unread(&mut self, id: &str)
        ensures
            final(self).state() == match look(old(self).state().store.conversations, id@) {
                Some(c) => old(self).state().with_conv(
                    id@,
                    ConversationView { unread: at_most_max(c.unread + 1), ..c },
                ),
                None => old(self).state(),
            },
    {
        reveal(App::state);
        if let Some(c) = self.store.conversations.get_mut(id) {
            c.unread = c.unread.saturating_add(1);
        }
    }

    fn can_notify(&self, id: &str) -> (r: bool)
        ensures
            r == may_notify(self.state(), id@),
    {
        reveal(App::state);
        let accepted = match self.store.conversations.get(id) {
            Some(c) => c.accepted,
            None => true,
        };
        accepted && !self.muted.contains(id) && !self.blocked.contains(id)
    }

    fn conv_name(&self, id: &str) -> (r: Option<String>)
        ensures
            r.deep_view() == match look(self.state().store.conversations, id@) {
                Some(conv) => Some(conv.name),
                None => None,
            },
    {
        reveal(App::state);
        match self.store.conversations.get(id) {
            Some(c) => Some(c.name.clone()),
            None => None,
        }
    }

    fn preview_level(&self) -> (r: String)
        ensures
            r@ == self.state().notification_preview,
    {
        reveal(App::state);
        self.notification_preview.clone()
    }

    fn notify(&mut self, m: &SignalMessage, id: &str)
        ensures
            final(self).state() == notified(old(self).state(), m.deep_view(), id@),
    {
        reveal(notified);
        self.add_unread(id);
        let ok = self.can_notify(id);
        let is_group = m.group_id.is_some();
        let rings = if is_group {
            self.is_on(Setting::NotifyGroup)
        } else {
            self.is_on(Setting::NotifyDirect)
        };
        if rings && ok {
            self.raise(crate::app::Flag::Bell);
        }
        if ok && self.is_on(Setting::DesktopNotifications) {
            let text = match &m.body {
                Some(t) => t.clone(),
                None => String::new(),
            };
            let group_name = if is_group {
                self.conv_name(id)
            } else {
                None
            };
            let sender = self.show_sender(m);
            let level = self.preview_level();
            let (title, body) = make_notice(
                sender.as_str(),
                text.as_str(),
                &group_name,
                level.as_str(),
            );
            self.request(Effect::Notify { title, body });
        }
    }

    fn see(&mut self, m: &SignalMessage, id: &str)
        ensures
            final(self).state() == seen(old(self).state(), m.deep_view(), id@),
    {
        reveal(seen);
        let number = self.number_of_sender(m);
        let (accepted, blocked) = self.conv_standing(id);
        if !m.is_outgoing && accepted && !blocked {
            self.queue_single_read_receipt(number.as_str(), m.timestamp_ms);
        }
        self.read_all(id);
        self.record(
            DbWrite::SaveReadMarker { conv_id: id.to_string() },
            "save_read_marker",
            false,
        );
    }

    fn conv_standing(&self, id: &str) -> (r: (bool, bool))
        ensures
            r.0 == match look(self.state().store.conversations, id@) {
                Some(c) => c.accepted,
                None => true,
            },
            r.1 == self.state().blocked.contains(id@),
    {
        reveal(App::state);
        let accepted = match self.store.conversations.get(id) {
            Some(c) => c.accepted,
            None => true,
        };
        (accepted, self.blocked.contains(id))
    }

    fn read_all(&mut self, id: &str)
        ensures
            final(self).state() == match look(old(self).state().store.conversations, id@) {
                Some(conv) => AppView {
                    store: ConversationStoreView {
                        last_read_index: put(
                            old(self).state().store.last_read_index,
                            id@,
                            conv.messages.len() as usize,
                        ),
                        ..old(self).state().store
                    },
                    ..old(self).state()
                },
                None => old(self).state(),
            },
    {
        reveal(App::state);
        let n = match self.store.conversations.get(id) {
            Some(c) => Some(c.messages.len()),
            None => None,
        };
        if let Some(len) = n {
            self.store.last_read_index.insert(id.to_string(), len);
        }
    }

    fn is_active(&self, id: &str) -> (r: bool)
        ensures
            r == (self.state().active_conversation == Some(id@)),
    {
        reveal(App::state);
        match &self.active_conversation {
            Some(x) => same(x.as_str(), id),
            None => false,
        }
    }

    /// Takes a message in.
    pub fn handle_message(&mut self, msg: SignalMessage, now_ms: i64)
        ensures
            final(self).state() == message_taken(old(self).state(), msg.deep_view(), now_ms),
    {
        reveal(message_taken);
        let conv = match &msg.group_id {
            Some(id) => Some(id.clone()),
            None => if msg.is_outgoing {
                msg.destination.duplicate()
            } else {
                Some(msg.source.clone())
            },
        };
        if let Some(id) = conv {
            let id = id.as_str();
            self.meet_conversation(&msg, id);
            self.sync_timer(id, msg.expires_in_seconds);
            let parts = self.parts_of(&msg, now_ms);
            self.store_parts(id, parts, &msg.quote);
            self.attach_preview(id, msg.timestamp_ms, &msg.previews);
            if self.is_active(id) {
                self.see(&msg, id);
            } else if !msg.is_outgoing {
                self.notify(&msg, id);
            }
        }
    }
}

} // verus!
