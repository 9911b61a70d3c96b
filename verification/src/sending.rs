//! Sending what was typed: a message, an edit or a poll.
use crate::app::{
    App, AppView, AutocompleteStateView, PendingStateView, ScrollStateView, SendRequest,
    SendRequestView, Setting,
};
use crate::conversation_store::{
    needs_rebuild, new_message, plain_message, rebuilt, DisplayMessage, DisplayMessageView, Quote,
    QuoteView,
};
use crate::db::{shown, DbWrite, DbWriteView};
use crate::events::{located, message_in};
use crate::file_picker::{without_part, without_slashes};
use crate::mentions::{
    falling_is_reversed, replacement, resolved_body, with_mention, with_mentions, NameMapView,
};
use crate::menu::at_bottom;
use crate::messages::{message_write, own_placed, write_of_message};
use crate::navigation::topped;
use crate::offsets::{text_units, unit_len, unit_len_concat};
use crate::outgoing::{
    behind, claims_before, claims_before_bound, claims_ok, find_ranges, first_free,
    first_free_finds, longest_first, longest_first_holds, longest_first_orders, mentions_found,
    mentions_found_ok, outgoing_claims, shown_ranges, wire_before,
    wire_mentions, wire_text, wire_upto, ClaimView, PLACEHOLDER,
};
use crate::signal::{
    Duplicate, Mention, MentionView, MessageStatus, PollData, PollDataView, PollOption,
    PollOptionView, WireQuote, WireQuoteView,
};
use crate::strmap::{holds, look};
use crate::text::{concat2, concat3, folded, from_range, occurs_at, same, to_chars, to_lower};
use crate::utf16::{to_units, to_units_concat, to_units_len, units_read_back};
use vstd::prelude::*;

verus! {

// ---------------------------------------------------------------------------
// Attachments
// ---------------------------------------------------------------------------

/// The last part of a path; `file` where it has none.
pub open spec fn file_name(path: Seq<char>) -> Seq<char> {
    let t = without_slashes(path);
    let name = t.skip(without_part(t).len() as int);
    if name.len() == 0 || name == "."@ || name == ".."@ {
        "file"@
    } else {
        name
    }
}

/// The place of the last dot among the first `n` characters; 0 where there is none
/// behind the first one.
pub open spec fn last_dot(s: Seq<char>, n: int) -> int
    decreases n,
{
    if n <= 1 {
        0
    } else if s[n - 1] == '.' {
        n - 1
    } else {
        last_dot(s, n - 1)
    }
}

/// What stands behind the last dot of the name of a file.
pub open spec fn extension(name: Seq<char>) -> Seq<char> {
    let dot = last_dot(name, name.len() as int);
    if dot == 0 {
        Seq::empty()
    } else {
        name.skip(dot + 1)
    }
}

/// A file is an image, by its name.
pub open spec fn is_image_name(name: Seq<char>) -> bool {
    let e = folded(extension(name));
    e == "png"@ || e == "jpg"@ || e == "jpeg"@ || e == "gif"@ || e == "webp"@
}

/// What a message with an attachment shows before its text.
pub open spec fn attached_lead(path: Seq<char>, text: Seq<char>) -> Seq<char> {
    let name = file_name(path);
    let head = "["@ + (if is_image_name(name) {
        "image"@
    } else {
        "attachment"@
    }) + ": "@ + name + "]"@;
    if text.len() == 0 {
        head
    } else {
        head + " "@
    }
}

fn name_of_file(path: &str) -> (r: String)
    ensures
        r@ == file_name(path@),
{
    let chars = to_chars(path);
    let mut end: usize = chars.len();
    assert(chars@.take(end as int) =~= chars@);
    while end > 0 && chars[end - 1] == '/'
        invariant
            end <= chars@.len(),
            without_slashes(chars@) == without_slashes(chars@.take(end as int)),
        decreases end,
    {
        assert(chars@.take(end as int).drop_last() =~= chars@.take(end - 1));
        end -= 1;
    }
    let ghost t = chars@.take(end as int);
    let mut start: usize = end;
    assert(t.take(start as int) =~= t);
    while start > 0 && chars[start - 1] != '/'
        invariant
            start <= end <= chars@.len(),
            t == chars@.take(end as int),
            without_part(t) == without_part(t.take(start as int)),
        decreases start,
    {
        assert(t.take(start as int).drop_last() =~= t.take(start - 1));
        start -= 1;
    }
    let name = from_range(&chars, start, end);
    assert(name@ =~= t.skip(start as int));
    if name.as_str().is_empty() || same(name.as_str(), ".") || same(name.as_str(), "..") {
        "file".to_string()
    } else {
        name
    }
}

fn extension_of(name: &str) -> (r: String)
    ensures
        r@ == extension(name@),
{
    let chars = to_chars(name);
    let mut n: usize = chars.len();
    while n > 1 && chars[n - 1] != '.'
        invariant
            n <= chars@.len(),
            last_dot(chars@, chars@.len() as int) == last_dot(chars@, n as int),
        decreases n,
    {
        n -= 1;
    }
    if n <= 1 {
        let empty = String::new();
        assert(empty@ =~= Seq::<char>::empty());
        empty
    } else {
        let e = from_range(&chars, n, chars.len());
        assert(e@ =~= name@.skip(n as int));
        e
    }
}

fn names_image(name: &str) -> (r: bool)
    ensures
        r == is_image_name(name@),
{
    let ext = extension_of(name);
    let e = to_lower(ext.as_str());
    same(e.as_str(), "png") || same(e.as_str(), "jpg") || same(e.as_str(), "jpeg") || same(
        e.as_str(),
        "gif",
    ) || same(e.as_str(), "webp")
}

fn lead_for(path: &str, text: &str) -> (r: String)
    ensures
        r@ == attached_lead(path@, text@),
{
    let name = name_of_file(path);
    let prefix = if names_image(name.as_str()) {
        "image"
    } else {
        "attachment"
    };
    let a = concat3("[", prefix, ": ");
    let head = concat3(a.as_str(), name.as_str(), "]");
    if text.is_empty() {
        head
    } else {
        concat2(head.as_str(), " ")
    }
}

// ---------------------------------------------------------------------------
// A message
// ---------------------------------------------------------------------------

/// The quote of a reply as it is shown.
pub open spec fn reply_quote(a: AppView) -> Option<QuoteView> {
    match a.reply_target {
        Some((author, body, timestamp_ms)) => Some(
            QuoteView {
                author: match look(a.store.contact_names, author) {
                    Some(n) => n,
                    None => if author == a.account {
                        "you"@
                    } else {
                        author
                    },
                },
                body,
                timestamp_ms,
                author_id: author,
            },
        ),
        None => None,
    }
}

/// The quote of a reply as it is sent.
pub open spec fn reply_wire(a: AppView) -> Option<WireQuoteView> {
    match a.reply_target {
        Some((author, body, timestamp_ms)) => Some(WireQuoteView { timestamp_ms, author, body }),
        None => None,
    }
}

/// How long messages in a conversation last.
pub open spec fn timer_of(a: AppView, id: Seq<char>) -> i64 {
    match look(a.store.conversations, id) {
        Some(c) => c.expiration_timer,
        None => 0,
    }
}

/// What a message that is sent shows before its text.
pub open spec fn lead_of(a: AppView, text: Seq<char>) -> Seq<char> {
    match a.pending.attachment {
        Some(path) => attached_lead(path, text),
        None => Seq::empty(),
    }
}

/// A mention as a message keeps it that shows `shift` units before its text.
pub open spec fn kept_mention(m: (usize, Seq<char>), shift: nat) -> MentionView {
    MentionView { start: (m.0 + shift) as usize, length: 1, uuid: m.1 }
}

/// The mentions of a text as a message keeps them that shows `shift` units before
/// it.
pub open spec fn kept_mentions(
    s: Seq<char>,
    claims: Seq<ClaimView>,
    shift: nat,
) -> Seq<MentionView> {
    wire_mentions(s, claims).map_values(|m: (usize, Seq<char>)| kept_mention(m, shift))
}

/// A message of one's own with a text behind what is shown before it. Where
/// someone is mentioned it keeps the whole with placeholders, and where they
/// stand in it.
pub open spec fn with_own_text(
    a: AppView,
    m: DisplayMessageView,
    lead: Seq<char>,
    text: Seq<char>,
) -> DisplayMessageView {
    let claims = outgoing_claims(a, text);
    let pending = a.autocomplete.pending_mentions;
    DisplayMessageView {
        body: lead + text,
        mention_ranges: shown_ranges(lead + text, pending, pending.len() as int),
        body_raw: if claims.len() == 0 {
            None
        } else {
            Some(lead + wire_text(text, claims))
        },
        mentions: kept_mentions(text, claims, unit_len(lead)),
        ..m
    }
}

/// The message that is shown when a text is sent.
pub open spec fn outgoing_message(
    a: AppView,
    id: Seq<char>,
    text: Seq<char>,
    now_ms: i64,
) -> DisplayMessageView {
    let timer = timer_of(a, id);
    let m = DisplayMessageView {
        image_path: match a.pending.attachment {
            Some(path) => if is_image_name(file_name(path)) && a.on(Setting::InlineImages) {
                Some(path)
            } else {
                None
            },
            None => None,
        },
        status: Some(MessageStatus::Sending),
        quote: reply_quote(a),
        expires_in_seconds: timer,
        expiration_start_ms: if timer > 0 {
            now_ms
        } else {
            0
        },
        ..plain_message("you"@, a.account, now_ms, Seq::empty())
    };
    with_own_text(a, m, lead_of(a, text), text)
}

/// What is sent for a text.
pub open spec fn message_request(
    a: AppView,
    id: Seq<char>,
    text: Seq<char>,
    now_ms: i64,
) -> SendRequestView {
    let claims = outgoing_claims(a, text);
    SendRequestView::Message {
        recipient: id,
        body: wire_text(text, claims),
        is_group: a.is_group(id),
        local_ts_ms: now_ms,
        mentions: wire_mentions(text, claims),
        attachment: a.pending.attachment,
        quote_timestamp: match reply_wire(a) {
            Some(q) => Some(q.timestamp_ms),
            None => None,
        },
        quote_author: match reply_wire(a) {
            Some(q) => Some(q.author),
            None => None,
        },
        quote_body: match reply_wire(a) {
            Some(q) => Some(q.body),
            None => None,
        },
    }
}

/// The state with nothing left that was to go with a message.
pub open spec fn draft_spent(a: AppView) -> AppView {
    AppView {
        pending: PendingStateView { attachment: None, ..a.pending },
        autocomplete: AutocompleteStateView { pending_mentions: Seq::empty(), ..a.autocomplete },
        reply_target: None,
        ..a
    }
}

/// The state after a text was sent to a conversation.
#[verifier::opaque]
pub open spec fn message_sent(a: AppView, id: Seq<char>, text: Seq<char>, now_ms: i64) -> AppView {
    let m = outgoing_message(a, id, text, now_ms);
    let b = own_placed(draft_spent(a), id, m).write(
        shown(message_write(id, m, reply_wire(a)), "insert_message"@),
    );
    topped(at_bottom(b), id)
}

/// The quote of a message of one's own that is edited.
pub open spec fn edited_quote(a: AppView, id: Seq<char>, ts: i64) -> Option<QuoteView> {
    match located(a, id, ts) {
        Some(i) => if message_in(a, id, i).sender == "you"@ {
            message_in(a, id, i).quote
        } else {
            None
        },
        None => None,
    }
}

/// The state after an edit was sent, and what is sent.
#[verifier::opaque]
pub open spec fn edit_sent(
    a: AppView,
    ts: i64,
    id: Seq<char>,
    text: Seq<char>,
    now_ms: i64,
) -> (AppView, Option<SendRequestView>) {
    if text.len() == 0 || !holds(a.store.conversations, id) {
        (a, None)
    } else {
        let claims = outgoing_claims(a, text);
        let quote = edited_quote(a, id, ts);
        let b = match located(a, id, ts) {
            Some(i) => if message_in(a, id, i).sender == "you"@ {
                a.with_msg(
                    id,
                    i,
                    DisplayMessageView {
                        is_edited: true,
                        ..with_own_text(a, message_in(a, id, i), Seq::empty(), text)
                    },
                )
            } else {
                a
            },
            None => a,
        };
        (
            AppView {
                autocomplete: AutocompleteStateView {
                    pending_mentions: Seq::empty(),
                    ..b.autocomplete
                },
                ..b
            }.write(
                shown(
                    DbWriteView::UpdateMessageBody { conv_id: id, timestamp_ms: ts, body: text },
                    "update_message_body"@,
                ),
            ),
            Some(
                SendRequestView::Edit {
                    recipient: id,
                    body: wire_text(text, claims),
                    is_group: a.is_group(id),
                    edit_timestamp: ts,
                    local_ts_ms: now_ms,
                    mentions: wire_mentions(text, claims),
                    quote_timestamp: match quote {
                        Some(q) => Some(q.timestamp_ms),
                        None => None,
                    },
                    quote_author: match quote {
                        Some(q) => Some(q.author_id),
                        None => None,
                    },
                    quote_body: match quote {
                        Some(q) => Some(q.body),
                        None => None,
                    },
                },
            ),
        )
    }
}

/// The state after a text was submitted, and what is sent: an edit where a
/// message is edited, else a message to the active conversation.
#[verifier::opaque]
pub open spec fn text_submitted(a: AppView, text: Seq<char>, now_ms: i64) -> (
    AppView,
    Option<SendRequestView>,
) {
    match a.editing_message {
        Some((ts, id)) => edit_sent(AppView { editing_message: None, ..a }, ts, id, text, now_ms),
        None => if text.len() == 0 && a.pending.attachment is None {
            (a, None)
        } else {
            match a.active_conversation {
                Some(id) => (
                    message_sent(a, id, text, now_ms),
                    Some(message_request(a, id, text, now_ms)),
                ),
                None => (a.say("No active conversation. Use /join <name> first."@), None),
            }
        },
    }
}

fn keep_mentions(v: &Vec<(usize, String)>, shift: usize) -> (r: Vec<Mention>)
    requires
        forall|k: int| 0 <= k < v@.len() ==> (#[trigger] v@[k]).0 + shift <= usize::MAX,
    ensures
        r.deep_view() == v.deep_view().map_values(
            |m: (usize, Seq<char>)| kept_mention(m, shift as nat),
        ),
{
    let ghost s = v.deep_view();
    let ghost f = |m: (usize, Seq<char>)| kept_mention(m, shift as nat);
    let mut out: Vec<Mention> = Vec::new();
    let mut i: usize = 0;
    while i < v.len()
        invariant
            i <= v@.len(),
            s == v.deep_view(),
            forall|k: int| 0 <= k < v@.len() ==> (#[trigger] v@[k]).0 + shift <= usize::MAX,
            f == |m: (usize, Seq<char>)| kept_mention(m, shift as nat),
            out@.len() == i,
            forall|k: int| 0 <= k < i ==> (#[trigger] out@[k]).deep_view() == f(s[k]),
        decreases v@.len() - i,
    {
        assert(s[i as int] == v@[i as int].deep_view());
        out.push(Mention { start: v[i].0 + shift, length: 1, uuid: v[i].1.clone() });
        i += 1;
    }
    assert(out.deep_view() =~= s.map_values(f));
    out
}

/// What stands before a mention is part of the text that is sent.
proof fn wire_before_fits(s: Seq<char>, claims: Seq<ClaimView>, k: int, n: int)
    requires
        0 <= k < n <= claims.len(),
    ensures
        unit_len(wire_before(s, claims, k)) < unit_len(wire_upto(s, claims, n)),
    decreases n,
{
    let w = wire_before(s, claims, n - 1);
    assert(w.push(PLACEHOLDER).drop_last() =~= w);
    unit_len_concat(
        wire_upto(s, claims, n - 1),
        s.subrange(behind(claims, n - 1), claims[n - 1].start as int),
    );
    if k < n - 1 {
        wire_before_fits(s, claims, k, n - 1);
    }
}

impl App {
    fn quote_shown(&self) -> (r: Option<Quote>)
        ensures
            r.deep_view() == reply_quote(self.state()),
    {
        reveal(App::state);
        match &self.reply_target {
            Some((author, body, timestamp_ms)) => {
                let name = match self.store.contact_names.get(author.as_str()) {
                    Some(n) => n.clone(),
                    None => if same(author.as_str(), self.account.as_str()) {
                        "you".to_string()
                    } else {
                        author.clone()
                    },
                };
                Some(
                    Quote {
                        author: name,
                        body: body.clone(),
                        timestamp_ms: *timestamp_ms,
                        author_id: author.clone(),
                    },
                )
            },
            None => None,
        }
    }

    fn quote_sent(&self) -> (r: Option<WireQuote>)
        ensures
            r.deep_view() == reply_wire(self.state()),
    {
        reveal(App::state);
        match &self.reply_target {
            Some((author, body, timestamp_ms)) => Some(
                WireQuote {
                    timestamp_ms: *timestamp_ms,
                    author: author.clone(),
                    body: body.clone(),
                },
            ),
            None => None,
        }
    }

    fn timer(&self, id: &str) -> (r: i64)
        ensures
            r == timer_of(self.state(), id@),
    {
        reveal(App::state);
        match self.store.conversations.get(id) {
            Some(c) => c.expiration_timer,
            None => 0,
        }
    }

    fn attachment(&self) -> (r: Option<String>)
        ensures
            r.deep_view() == self.state().pending.attachment,
    {
        reveal(App::state);
        self.pending.attachment.duplicate()
    }

    fn ranges_in(&self, body: &str) -> (r: Vec<(usize, usize)>)
        ensures
            r.deep_view() == shown_ranges(
                body@,
                self.state().autocomplete.pending_mentions,
                self.state().autocomplete.pending_mentions.len() as int,
            ),
    {
        reveal(App::state);
        find_ranges(body, &self.autocomplete.pending_mentions)
    }

    fn write_own_text(
        &self,
        m: &mut DisplayMessage,
        lead: &str,
        text: &str,
        wire: &String,
        mentions: &Vec<(usize, String)>,
    )
        requires
            wire@ == wire_text(text@, outgoing_claims(self.state(), text@)),
            mentions.deep_view() == wire_mentions(text@, outgoing_claims(self.state(), text@)),
        ensures
            final(m).deep_view() == with_own_text(
                self.state(),
                old(m).deep_view(),
                lead@,
                text@,
            ),
    {
        let ghost claims = outgoing_claims(self.state(), text@);
        let body = concat2(lead, text);
        let raw = concat2(lead, wire.as_str());
        let shift = text_units(lead);
        let whole = text_units(raw.as_str());
        proof {
            let n = claims.len() as int;
            unit_len_concat(lead@, wire@);
            unit_len_concat(wire_upto(text@, claims, n), text@.skip(behind(claims, n)));
            assert forall|k: int| 0 <= k < mentions@.len() implies (#[trigger] mentions@[k]).0
                + shift <= usize::MAX by {
                wire_before_fits(text@, claims, k, n);
                assert(mentions.deep_view()[k] == mentions@[k].deep_view());
                assert(unit_len(wire_before(text@, claims, k)) + shift < whole);
            }
        }
        m.mention_ranges = self.ranges_in(body.as_str());
        m.body = body;
        m.mentions = keep_mentions(mentions, shift);
        m.body_raw = if mentions.len() == 0 {
            None
        } else {
            Some(raw)
        };
    }

    fn compose(
        &self,
        id: &str,
        text: &str,
        wire: &String,
        mentions: &Vec<(usize, String)>,
        now_ms: i64,
    ) -> (r: DisplayMessage)
        requires
            wire@ == wire_text(text@, outgoing_claims(self.state(), text@)),
            mentions.deep_view() == wire_mentions(text@, outgoing_claims(self.state(), text@)),
        ensures
            r.deep_view() == outgoing_message(self.state(), id@, text@, now_ms),
    {
        assert(self.account@ == self.state().account) by {
            reveal(App::state);
        }
        let attachment = self.attachment();
        let lead = match &attachment {
            Some(path) => lead_for(path.as_str(), text),
            None => String::new(),
        };
        assert(lead@ =~= lead_of(self.state(), text@));
        let image_path = match attachment {
            Some(path) => {
                let name = name_of_file(path.as_str());
                if names_image(name.as_str()) && self.is_on(Setting::InlineImages) {
                    Some(path)
                } else {
                    None
                }
            },
            None => None,
        };
        let timer = self.timer(id);
        let mut m = new_message("you".to_string(), self.account.clone(), now_ms, String::new());
        assert(m.body@ =~= Seq::<char>::empty());
        m.image_path = image_path;
        m.status = Some(MessageStatus::Sending);
        m.quote = self.quote_shown();
        m.expires_in_seconds = timer;
        m.expiration_start_ms =
        if timer > 0 {
            now_ms
        } else {
            0
        };
        self.write_own_text(&mut m, lead.as_str(), text, wire, mentions);
        m
    }

    fn spend_draft(&mut self)
        ensures
            final(self).state() == draft_spent(old(self).state()),
    {
        reveal(App::state);
        self.pending.attachment = None;
        self.autocomplete.pending_mentions = Vec::new();
        self.reply_target = None;
        assert(self.autocomplete.pending_mentions.deep_view() =~= Seq::<
            (Seq<char>, Option<Seq<char>>),
        >::empty());
    }

    fn send_message(&mut self, id: String, text: &str, now_ms: i64) -> (r: SendRequest)
        ensures
            final(self).state() == message_sent(old(self).state(), id@, text@, now_ms),
            r.deep_view() == message_request(old(self).state(), id@, text@, now_ms),
    {
        reveal(message_sent);
        let (wire, mentions) = self.prepare_outgoing_mentions(text);
        let m = self.compose(id.as_str(), text, &wire, &mentions, now_ms);
        let is_group = self.conv_is_group(id.as_str());
        let attachment = self.attachment();
        let quote = self.quote_sent();
        let write = write_of_message(id.as_str(), &m, &quote);
        self.spend_draft();
        self.place_own_message(id.as_str(), m);
        self.record(write, "insert_message", true);
        self.scroll_to_bottom();
        self.move_conversation_to_top(id.as_str());
        let (quote_timestamp, quote_author, quote_body) = match quote {
            Some(q) => (Some(q.timestamp_ms), Some(q.author), Some(q.body)),
            None => (None, None, None),
        };
        SendRequest::Message {
            recipient: id,
            body: wire,
            is_group,
            local_ts_ms: now_ms,
            mentions,
            attachment,
            quote_timestamp,
            quote_author,
            quote_body,
        }
    }

    pub(crate) fn clear_mentions(&mut self)
        ensures
            final(self).state() == (AppView {
                autocomplete: AutocompleteStateView {
                    pending_mentions: Seq::empty(),
                    ..old(self).state().autocomplete
                },
                ..old(self).state()
            }),
    {
        reveal(App::state);
        self.autocomplete.pending_mentions = Vec::new();
        assert(self.autocomplete.pending_mentions.deep_view() =~= Seq::<
            (Seq<char>, Option<Seq<char>>),
        >::empty());
    }

    fn try_send_edit(&mut self, ts: i64, id: String, text: &str, now_ms: i64) -> (r: Option<
        SendRequest,
    >)
        ensures
            (final(self).state(), r.deep_view()) == edit_sent(
                old(self).state(),
                ts,
                id@,
                text@,
                now_ms,
            ),
    {
        reveal(edit_sent);
        if text.is_empty() || !self.has_conversation(id.as_str()) {
            return None;
        }
        let (wire, mentions) = self.prepare_outgoing_mentions(text);
        let is_group = self.conv_is_group(id.as_str());
        let mut quote: Option<Quote> = None;
        if let Some((i, mut m)) = self.locate(id.as_str(), ts) {
            if same(m.sender.as_str(), "you") {
                quote = m.quote.duplicate();
                let none = String::new();
                assert(none@ =~= Seq::<char>::empty());
                self.write_own_text(&mut m, none.as_str(), text, &wire, &mentions);
                m.is_edited = true;
                self.replace_message(id.as_str(), i, m);
            }
        }
        assert(quote.deep_view() == edited_quote(old(self).state(), id@, ts));
        self.clear_mentions();
        self.record(
            DbWrite::UpdateMessageBody {
                conv_id: id.clone(),
                timestamp_ms: ts,
                body: text.to_string(),
            },
            "update_message_body",
            true,
        );
        let (quote_timestamp, quote_author, quote_body) = match quote {
            Some(q) => (Some(q.timestamp_ms), Some(q.author_id), Some(q.body)),
            None => (None, None, None),
        };
        Some(
            SendRequest::Edit {
                recipient: id,
                body: wire,
                is_group,
                edit_timestamp: ts,
                local_ts_ms: now_ms,
                mentions,
                quote_timestamp,
                quote_author,
                quote_body,
            },
        )
    }

    fn take_editing(&mut self) -> (r: Option<(i64, String)>)
        ensures
            final(self).state() == (AppView { editing_message: None, ..old(self).state() }),
            r.deep_view() == old(self).state().editing_message,
    {
        reveal(App::state);
        self.editing_message.take()
    }

    /// Sends a text that was submitted: an edit where a message is edited, else a
    /// message to the active conversation.
    pub fn send_text(&mut self, text: &str, now_ms: i64) -> (r: Option<SendRequest>)
        ensures
            (final(self).state(), r.deep_view()) == text_submitted(
                old(self).state(),
                text@,
                now_ms,
            ),
    {
        reveal(text_submitted);
        let ghost a = self.state();
        if let Some((ts, id)) = self.take_editing() {
            return self.try_send_edit(ts, id, text, now_ms);
        }
        assert(self.state() == a);
        if text.is_empty() && self.attachment().is_none() {
            return None;
        }
        match self.active_id() {
            Some(id) => Some(self.send_message(id, text, now_ms)),
            None => {
                self.set_status("No active conversation. Use /join <name> first.");
                None
            },
        }
    }
}

// ---------------------------------------------------------------------------
// A poll
// ---------------------------------------------------------------------------

/// The options of a poll, numbered.
pub open spec fn numbered(options: Seq<Seq<char>>) -> Seq<PollOptionView> {
    Seq::new(options.len(), |i: int| PollOptionView { id: i as i64, text: options[i] })
}

/// A poll that was just created.
pub open spec fn new_poll(
    question: Seq<char>,
    options: Seq<Seq<char>>,
    allow_multiple: bool,
) -> PollDataView {
    PollDataView { question, options: numbered(options), allow_multiple, closed: false }
}

/// The message that shows a poll that one created.
pub open spec fn poll_message(
    account: Seq<char>,
    poll: PollDataView,
    now_ms: i64,
) -> DisplayMessageView {
    DisplayMessageView {
        status: Some(MessageStatus::Sending),
        poll_data: Some(poll),
        ..plain_message("you"@, account, now_ms, "\u{1F4CA} "@ + poll.question)
    }
}

/// The state after a poll was created, and what is sent.
#[verifier::opaque]
pub open spec fn poll_created(
    a: AppView,
    question: Seq<char>,
    options: Seq<Seq<char>>,
    allow_multiple: bool,
    now_ms: i64,
) -> (AppView, Option<SendRequestView>) {
    match a.active_conversation {
        Some(id) => {
            let poll = new_poll(question, options, allow_multiple);
            let m = poll_message(a.account, poll, now_ms);
            let b = own_placed(a, id, m).write(
                shown(message_write(id, m, None), "insert_poll_msg"@),
            ).write(
                shown(
                    DbWriteView::UpsertPollData { conv_id: id, timestamp_ms: now_ms, poll },
                    "upsert_poll_data"@,
                ),
            );
            (
                AppView { scroll: ScrollStateView { offset: 0, ..b.scroll }, ..b },
                Some(
                    SendRequestView::PollCreate {
                        recipient: id,
                        is_group: a.is_group(id),
                        question,
                        options,
                        allow_multiple,
                        local_ts_ms: now_ms,
                    },
                ),
            )
        },
        None => (a.say("No active conversation"@), None),
    }
}

fn number_options(v: &Vec<String>) -> (r: Vec<PollOption>)
    ensures
        r.deep_view() == numbered(v.deep_view()),
{
    let ghost s = v.deep_view();
    let mut out: Vec<PollOption> = Vec::new();
    let mut i: usize = 0;
    while i < v.len()
        invariant
            i <= v@.len(),
            s == v.deep_view(),
            out@.len() == i,
            forall|k: int| 0 <= k < i ==> (#[trigger] out@[k]).deep_view() == numbered(s)[k],
        decreases v@.len() - i,
    {
        assert(s[i as int] == v@[i as int]@);
        out.push(PollOption { id: i as i64, text: v[i].clone() });
        i += 1;
    }
    assert(out.deep_view() =~= numbered(s));
    out
}

impl App {
    fn unscroll(&mut self)
        ensures
            final(self).state() == (AppView {
                scroll: ScrollStateView { offset: 0, ..old(self).state().scroll },
                ..old(self).state()
            }),
    {
        reveal(App::state);
        self.scroll.offset = 0;
    }

    /// Creates a poll in the active conversation.
    pub fn create_poll(
        &mut self,
        question: String,
        options: Vec<String>,
        allow_multiple: bool,
        now_ms: i64,
    ) -> (r: Option<SendRequest>)
        ensures
            (final(self).state(), r.deep_view()) == poll_created(
                old(self).state(),
                question@,
                options.deep_view(),
                allow_multiple,
                now_ms,
            ),
    {
        reveal(poll_created);
        assert(self.account@ == self.state().account) by {
            reveal(App::state);
        }
        match self.active_id() {
            Some(id) => {
                let is_group = self.conv_is_group(id.as_str());
                let poll = PollData {
                    question: question.clone(),
                    options: number_options(&options),
                    allow_multiple,
                    closed: false,
                };
                let body = concat2("\u{1F4CA} ", question.as_str());
                let mut m = new_message("you".to_string(), self.account.clone(), now_ms, body);
                m.status = Some(MessageStatus::Sending);
                m.poll_data = Some(poll.duplicate());
                let none: Option<WireQuote> = None;
                let write = write_of_message(id.as_str(), &m, &none);
                self.place_own_message(id.as_str(), m);
                self.record(write, "insert_poll_msg", true);
                self.record(
                    DbWrite::UpsertPollData { conv_id: id.clone(), timestamp_ms: now_ms, poll },
                    "upsert_poll_data",
                    true,
                );
                self.unscroll();
                Some(
                    SendRequest::PollCreate {
                        recipient: id,
                        is_group,
                        question,
                        options,
                        allow_multiple,
                        local_ts_ms: now_ms,
                    },
                )
            },
            None => {
                self.set_status("No active conversation");
                None
            },
        }
    }
}

// ---------------------------------------------------------------------------
// Mentions that come back
// ---------------------------------------------------------------------------

/// A mention in a text is of someone whose name was completed, and the name
/// stands there.
spec fn is_said(
    s: Seq<char>,
    pending: Seq<(Seq<char>, Option<Seq<char>>)>,
    n: int,
    c: ClaimView,
) -> bool {
    exists|j: int|
        0 <= j < n && (#[trigger] pending[j]).1 == Some(c.uuid) && occurs_at(
            s,
            "@"@ + pending[j].0,
            c.start as int,
        ) && c.end == c.start + ("@"@ + pending[j].0).len()
}

proof fn claims_are_said(s: Seq<char>, pending: Seq<(Seq<char>, Option<Seq<char>>)>, n: int)
    requires
        0 <= n <= pending.len(),
        s.len() <= usize::MAX,
    ensures
        forall|k: int|
            0 <= k < mentions_found(s, pending, n).len() ==> is_said(
                s,
                pending,
                n,
                #[trigger] mentions_found(s, pending, n)[k],
            ),
    decreases n,
{
    if n > 0 {
        claims_are_said(s, pending, n - 1);
        let before = mentions_found(s, pending, n - 1);
        let now = mentions_found(s, pending, n);
        let (name, uuid) = pending[n - 1];
        let p = "@"@ + name;
        let i = first_free(s, p, before, 0);
        assert forall|k: int| 0 <= k < now.len() implies is_said(s, pending, n, #[trigger] now[k]) by {
            if uuid is Some && i is Some {
                first_free_finds(s, p, before, 0);
                claims_before_bound(before, i->0, before.len() as int);
                let at = claims_before(before, i->0, before.len() as int);
                if k == at {
                    assert(pending[n - 1].1 == Some(now[k].uuid));
                } else {
                    let b = if k < at { before[k] } else { before[k - 1] };
                    assert(now[k] == b);
                    assert(is_said(s, pending, n - 1, b));
                }
            } else {
                assert(is_said(s, pending, n - 1, before[k]));
            }
        }
    }
}

/// A text with its first `k` mentions as placeholders and the others as names,
/// behind what is shown before it.
spec fn half_wire(lead: Seq<char>, s: Seq<char>, claims: Seq<ClaimView>, k: int) -> Seq<char> {
    lead + wire_upto(s, claims, k) + s.skip(behind(claims, k))
}

/// Every mention is of someone whose name stands there.
spec fn names_fit(s: Seq<char>, claims: Seq<ClaimView>, names: NameMapView) -> bool {
    forall|k: int|
        0 <= k < claims.len() ==> replacement(names, (#[trigger] claims[k]).uuid) == s.subrange(
            claims[k].start as int,
            claims[k].end as int,
        )
}

proof fn mention_is_put_back(
    lead: Seq<char>,
    s: Seq<char>,
    claims: Seq<ClaimView>,
    names: NameMapView,
    k: int,
)
    requires
        0 <= k < claims.len(),
        claims_ok(claims, s.len() as int),
        names_fit(s, claims, names),
        unit_len(lead) + unit_len(wire_before(s, claims, k)) <= usize::MAX,
    ensures
        with_mention(
            to_units(half_wire(lead, s, claims, k + 1)),
            kept_mentions(s, claims, unit_len(lead))[k],
            names,
        ) == to_units(half_wire(lead, s, claims, k)),
{
    let c = claims[k];
    let from = behind(claims, k);
    assert(0 <= from <= c.start) by {
        if k > 0 {
            assert(claims[k - 1].end <= claims[k].start);
        }
    }
    let gap = s.subrange(from, c.start as int);
    let said = s.subrange(c.start as int, c.end as int);
    let tail = s.skip(c.end as int);
    let head = lead + wire_before(s, claims, k);
    let mark = seq![PLACEHOLDER];
    let m = kept_mentions(s, claims, unit_len(lead))[k];
    assert(half_wire(lead, s, claims, k + 1) =~= head + mark + tail);
    assert(s.skip(from) =~= gap + said + tail);
    assert(half_wire(lead, s, claims, k) =~= head + said + tail);
    to_units_concat(head + mark, tail);
    to_units_concat(head, mark);
    to_units_concat(head + said, tail);
    to_units_concat(head, said);
    to_units_len(head);
    to_units_len(mark);
    unit_len_concat(lead, wire_before(s, claims, k));
    reveal_with_fuel(unit_len, 2);
    assert(mark.drop_last() =~= Seq::<char>::empty());
    assert(unit_len(mark) == 1);
    assert(m.start == unit_len(head) && m.length == 1 && m.uuid == c.uuid);
    let u = to_units(head + mark + tail);
    assert(u.take(m.start as int) =~= to_units(head));
    assert(u.skip(m.start + 1) =~= to_units(tail));
    assert(with_mention(u, m, names) =~= to_units(head + said + tail));
}

proof fn mentions_are_put_back(
    lead: Seq<char>,
    s: Seq<char>,
    claims: Seq<ClaimView>,
    names: NameMapView,
    j: int,
)
    requires
        0 <= j <= claims.len(),
        claims_ok(claims, s.len() as int),
        names_fit(s, claims, names),
        unit_len(lead) + unit_len(wire_text(s, claims)) <= usize::MAX,
    ensures
        with_mentions(
            to_units(half_wire(lead, s, claims, claims.len() as int)),
            kept_mentions(s, claims, unit_len(lead)).reverse().take(j),
            names,
        ) == to_units(half_wire(lead, s, claims, claims.len() - j)),
    decreases j,
{
    let falling = kept_mentions(s, claims, unit_len(lead)).reverse();
    let n = claims.len() as int;
    if j == 0 {
        assert(falling.take(0) =~= Seq::<MentionView>::empty());
    } else {
        mentions_are_put_back(lead, s, claims, names, j - 1);
        assert(falling.take(j).drop_last() =~= falling.take(j - 1));
        assert(falling.take(j).last() == kept_mentions(s, claims, unit_len(lead))[n - j]);
        wire_before_fits(s, claims, n - j, n);
        unit_len_concat(wire_upto(s, claims, n), s.skip(behind(claims, n)));
        mention_is_put_back(lead, s, claims, names, n - j);
    }
}

/// The names that were completed are those that the uuids stand for.
pub open spec fn names_known(a: AppView, names: NameMapView) -> bool {
    forall|j: int|
        0 <= j < a.autocomplete.pending_mentions.len() && (
        #[trigger] a.autocomplete.pending_mentions[j]).1 is Some ==> look(
            names,
            a.autocomplete.pending_mentions[j].1->0,
        ) == Some(a.autocomplete.pending_mentions[j].0)
}

/// What goes over the wire of a text, put behind what is shown before it, is shown
/// as the text that was typed.
pub proof fn mentions_come_back(a: AppView, lead: Seq<char>, s: Seq<char>, names: NameMapView)
    requires
        names_known(a, names),
        s.len() <= usize::MAX,
        unit_len(lead) + unit_len(wire_text(s, outgoing_claims(a, s))) <= usize::MAX,
    ensures
        resolved_body(
            lead + wire_text(s, outgoing_claims(a, s)),
            kept_mentions(s, outgoing_claims(a, s), unit_len(lead)),
            names,
        ) == lead + s,
{
    let pending = longest_first(a.autocomplete.pending_mentions);
    let claims = outgoing_claims(a, s);
    let n = claims.len() as int;
    let ms = kept_mentions(s, claims, unit_len(lead));
    mentions_found_ok(s, pending, pending.len() as int);
    claims_are_said(s, pending, pending.len() as int);
    assert(lead + wire_text(s, claims) =~= half_wire(lead, s, claims, n));
    assert(lead + s =~= half_wire(lead, s, claims, 0));
    assert forall|k: int| 0 <= k < claims.len() implies replacement(
        names,
        (#[trigger] claims[k]).uuid,
    ) == s.subrange(claims[k].start as int, claims[k].end as int) by {
        let c = claims[k];
        assert(is_said(s, pending, pending.len() as int, c));
        let j = choose|j: int|
            0 <= j < pending.len() && (#[trigger] pending[j]).1 == Some(c.uuid) && occurs_at(
                s,
                "@"@ + pending[j].0,
                c.start as int,
            ) && c.end == c.start + ("@"@ + pending[j].0).len();
        longest_first_orders(a.autocomplete.pending_mentions);
        longest_first_holds(a.autocomplete.pending_mentions, j);
        assert(look(names, pending[j].1->0) == Some(pending[j].0));
    }
    assert forall|i: int, j: int| 0 <= i < j < ms.len() implies (#[trigger] ms[i]).start < (
    #[trigger] ms[j]).start by {
        wire_before_fits(s, claims, i, i + 1);
        wire_before_fits(s, claims, j, n);
        unit_len_concat(wire_upto(s, claims, n), s.skip(behind(claims, n)));
        if i + 1 < j {
            wire_before_fits(s, claims, i, j);
        }
        unit_len_concat(
            wire_upto(s, claims, j),
            s.subrange(behind(claims, j), claims[j].start as int),
        );
    }
    falling_is_reversed(ms);
    mentions_are_put_back(lead, s, claims, names, n);
    assert(ms.reverse().take(n) =~= ms.reverse());
    units_read_back(lead + s);
}

/// A message of one's own reads as it was written, as long as the names stay.
pub proof fn own_text_stays(
    a: AppView,
    m: DisplayMessageView,
    lead: Seq<char>,
    text: Seq<char>,
    names: NameMapView,
)
    requires
        names_known(a, names),
        text.len() <= usize::MAX,
        unit_len(lead) + unit_len(wire_text(text, outgoing_claims(a, text))) <= usize::MAX,
    ensures
        !needs_rebuild(with_own_text(a, m, lead, text), names),
        rebuilt(with_own_text(a, m, lead, text), names) == with_own_text(a, m, lead, text),
{
    mentions_come_back(a, lead, text, names);
}

} // verus!
