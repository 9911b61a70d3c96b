//! Conversations: their messages, their order, and the names in them.
use crate::db::{enqueue, quiet, DbJob, DbJobView, DbWrite, DbWriteView};
use crate::mentions::{
    mention_ranges, resolve_mentions_with, resolve_text_styles_with, resolved_body, style_ranges,
    NameMapView,
};
use crate::signal::{
    Duplicate, Group, GroupView, ImageCell, ImageLines, LinkPreview, LinkPreviewView, Mention,
    MentionView, MessageStatus, PollData, PollDataView, PollVote, PollVoteView, Reaction,
    ReactionView, StyleType, TextStyle,
};
use crate::strmap::{at, holds, look, place, put, StrMap, StrSet};
use crate::text::{concat3, decimal, from_range, same, starts_with_char, to_chars};
use vstd::prelude::*;

verus! {

/// Quoted reply context attached to a message.
pub struct Quote {
    /// Whom the quote names.
    pub author: String,
    pub body: String,
    pub timestamp_ms: i64,
    /// The number or account of the author, not resolved to a name.
    pub author_id: String,
}

/// What a [`Quote`] stands for.
pub struct QuoteView {
    pub author: Seq<char>,
    pub body: Seq<char>,
    pub timestamp_ms: i64,
    pub author_id: Seq<char>,
}

impl DeepView for Quote {
    type V = QuoteView;

    open spec fn deep_view(&self) -> QuoteView {
        QuoteView {
            author: self.author@,
            body: self.body@,
            timestamp_ms: self.timestamp_ms,
            author_id: self.author_id@,
        }
    }
}

impl Duplicate for Quote {
    fn duplicate(&self) -> (r: Quote) {
        Quote {
            author: self.author.clone(),
            body: self.body.clone(),
            timestamp_ms: self.timestamp_ms,
            author_id: self.author_id.clone(),
        }
    }
}

impl Clone for Quote {
    fn clone(&self) -> (r: Quote)
        ensures
            r.deep_view() == self.deep_view(),
    {
        self.duplicate()
    }
}

/// A message as it is shown in a conversation.
pub struct DisplayMessage {
    pub sender: String,
    /// When the message was sent, in milliseconds since the epoch.
    pub timestamp: i64,
    pub body: String,
    pub is_system: bool,
    /// The image attachment drawn with half blocks.
    pub image_lines: Option<ImageLines>,
    /// The file of the image attachment.
    pub image_path: Option<String>,
    /// How far an outgoing message has come; none for an incoming one.
    pub status: Option<MessageStatus>,
    /// The time by which receipts find the message.
    pub timestamp_ms: i64,
    pub reactions: Vec<Reaction>,
    /// Byte ranges of mentions in the body.
    pub mention_ranges: Vec<(usize, usize)>,
    /// The body with its placeholders, where it has mentions.
    pub body_raw: Option<String>,
    /// The mentions of the raw body.
    pub mentions: Vec<Mention>,
    /// Byte ranges of styles in the body.
    pub style_ranges: Vec<(usize, usize, StyleType)>,
    pub quote: Option<Quote>,
    pub is_edited: bool,
    pub is_deleted: bool,
    pub is_pinned: bool,
    /// The number of the sender.
    pub sender_id: String,
    /// How long the message lasts; 0 where it does not disappear.
    pub expires_in_seconds: i64,
    /// When the countdown started; 0 where it has not.
    pub expiration_start_ms: i64,
    pub poll_data: Option<PollData>,
    pub poll_votes: Vec<PollVote>,
    pub preview: Option<LinkPreview>,
    /// The thumbnail of the link preview drawn with half blocks.
    pub preview_image_lines: Option<ImageLines>,
    /// The file of the thumbnail.
    pub preview_image_path: Option<String>,
}

/// What a [`DisplayMessage`] stands for.
pub struct DisplayMessageView {
    pub sender: Seq<char>,
    pub timestamp: i64,
    pub body: Seq<char>,
    pub is_system: bool,
    pub image_lines: Option<Seq<Seq<ImageCell>>>,
    pub image_path: Option<Seq<char>>,
    pub status: Option<MessageStatus>,
    pub timestamp_ms: i64,
    pub reactions: Seq<ReactionView>,
    pub mention_ranges: Seq<(usize, usize)>,
    pub body_raw: Option<Seq<char>>,
    pub mentions: Seq<MentionView>,
    pub style_ranges: Seq<(usize, usize, StyleType)>,
    pub quote: Option<QuoteView>,
    pub is_edited: bool,
    pub is_deleted: bool,
    pub is_pinned: bool,
    pub sender_id: Seq<char>,
    pub expires_in_seconds: i64,
    pub expiration_start_ms: i64,
    pub poll_data: Option<PollDataView>,
    pub poll_votes: Seq<PollVoteView>,
    pub preview: Option<LinkPreviewView>,
    pub preview_image_lines: Option<Seq<Seq<ImageCell>>>,
    pub preview_image_path: Option<Seq<char>>,
}

impl DeepView for DisplayMessage {
    type V = DisplayMessageView;

    open spec fn deep_view(&self) -> DisplayMessageView {
        DisplayMessageView {
            sender: self.sender@,
            timestamp: self.timestamp,
            body: self.body@,
            is_system: self.is_system,
            image_lines: self.image_lines.deep_view(),
            image_path: self.image_path.deep_view(),
            status: self.status,
            timestamp_ms: self.timestamp_ms,
            reactions: self.reactions.deep_view(),
            mention_ranges: self.mention_ranges.deep_view(),
            body_raw: self.body_raw.deep_view(),
            mentions: self.mentions.deep_view(),
            style_ranges: self.style_ranges.deep_view(),
            quote: self.quote.deep_view(),
            is_edited: self.is_edited,
            is_deleted: self.is_deleted,
            is_pinned: self.is_pinned,
            sender_id: self.sender_id@,
            expires_in_seconds: self.expires_in_seconds,
            expiration_start_ms: self.expiration_start_ms,
            poll_data: self.poll_data.deep_view(),
            poll_votes: self.poll_votes.deep_view(),
            preview: self.preview.deep_view(),
            preview_image_lines: self.preview_image_lines.deep_view(),
            preview_image_path: self.preview_image_path.deep_view(),
        }
    }
}

impl Duplicate for DisplayMessage {
    fn duplicate(&self) -> (r: DisplayMessage) {
        DisplayMessage {
            sender: self.sender.clone(),
            timestamp: self.timestamp,
            body: self.body.clone(),
            is_system: self.is_system,
            image_lines: self.image_lines.duplicate(),
            image_path: self.image_path.duplicate(),
            status: self.status,
            timestamp_ms: self.timestamp_ms,
            reactions: self.reactions.duplicate(),
            mention_ranges: self.mention_ranges.duplicate(),
            body_raw: self.body_raw.duplicate(),
            mentions: self.mentions.duplicate(),
            style_ranges: self.style_ranges.duplicate(),
            quote: self.quote.duplicate(),
            is_edited: self.is_edited,
            is_deleted: self.is_deleted,
            is_pinned: self.is_pinned,
            sender_id: self.sender_id.clone(),
            expires_in_seconds: self.expires_in_seconds,
            expiration_start_ms: self.expiration_start_ms,
            poll_data: self.poll_data.duplicate(),
            poll_votes: self.poll_votes.duplicate(),
            preview: self.preview.duplicate(),
            preview_image_lines: self.preview_image_lines.duplicate(),
            preview_image_path: self.preview_image_path.duplicate(),
        }
    }
}

impl Clone for DisplayMessage {
    fn clone(&self) -> (r: DisplayMessage)
        ensures
            r.deep_view() == self.deep_view(),
    {
        self.duplicate()
    }
}

/// A conversation with one contact or a group.
pub struct Conversation {
    /// The name it is shown under.
    pub name: String,
    /// The number of the contact or the id of the group.
    pub id: String,
    pub messages: Vec<DisplayMessage>,
    pub unread: usize,
    pub is_group: bool,
    /// How long new messages last, in seconds; 0 where they do not disappear.
    pub expiration_timer: i64,
    /// Whether the conversation has been accepted; message requests have not.
    pub accepted: bool,
}

/// What a [`Conversation`] stands for.
pub struct ConversationView {
    pub name: Seq<char>,
    pub id: Seq<char>,
    pub messages: Seq<DisplayMessageView>,
    pub unread: usize,
    pub is_group: bool,
    pub expiration_timer: i64,
    pub accepted: bool,
}

impl DeepView for Conversation {
    type V = ConversationView;

    open spec fn deep_view(&self) -> ConversationView {
        ConversationView {
            name: self.name@,
            id: self.id@,
            messages: self.messages.deep_view(),
            unread: self.unread,
            is_group: self.is_group,
            expiration_timer: self.expiration_timer,
            accepted: self.accepted,
        }
    }
}

impl Duplicate for Conversation {
    fn duplicate(&self) -> (r: Conversation) {
        Conversation {
            name: self.name.clone(),
            id: self.id.clone(),
            messages: self.messages.duplicate(),
            unread: self.unread,
            is_group: self.is_group,
            expiration_timer: self.expiration_timer,
            accepted: self.accepted,
        }
    }
}

impl Clone for Conversation {
    fn clone(&self) -> (r: Conversation)
        ensures
            r.deep_view() == self.deep_view(),
    {
        self.duplicate()
    }
}

/// All conversations, their order, and what is known of contacts and groups.
pub struct ConversationStore {
    pub conversations: StrMap<Conversation>,
    /// Ids in the order in which the sidebar lists them.
    pub conversation_order: Vec<String>,
    /// Names by number or group id.
    pub contact_names: StrMap<String>,
    pub uuid_to_name: StrMap<String>,
    pub number_to_uuid: StrMap<String>,
    /// How many messages at the front of a conversation have been read.
    pub last_read_index: StrMap<usize>,
    pub groups: StrMap<Group>,
    /// Conversations of which the database holds more messages.
    pub has_more_messages: StrSet,
}

/// What a [`ConversationStore`] stands for.
pub struct ConversationStoreView {
    pub conversations: Seq<(Seq<char>, ConversationView)>,
    pub conversation_order: Seq<Seq<char>>,
    pub contact_names: Seq<(Seq<char>, Seq<char>)>,
    pub uuid_to_name: Seq<(Seq<char>, Seq<char>)>,
    pub number_to_uuid: Seq<(Seq<char>, Seq<char>)>,
    pub last_read_index: Seq<(Seq<char>, usize)>,
    pub groups: Seq<(Seq<char>, GroupView)>,
    pub has_more_messages: Set<Seq<char>>,
}

impl DeepView for ConversationStore {
    type V = ConversationStoreView;

    open spec fn deep_view(&self) -> ConversationStoreView {
        ConversationStoreView {
            conversations: self.conversations.deep_view(),
            conversation_order: self.conversation_order.deep_view(),
            contact_names: self.contact_names.deep_view(),
            uuid_to_name: self.uuid_to_name.deep_view(),
            number_to_uuid: self.number_to_uuid.deep_view(),
            last_read_index: self.last_read_index.deep_view(),
            groups: self.groups.deep_view(),
            has_more_messages: self.has_more_messages.deep_view(),
        }
    }
}

// ---------------------------------------------------------------------------
// Messages
// ---------------------------------------------------------------------------

/// A message that holds nothing but a sender, a time and a body.
pub open spec fn plain_message(
    sender: Seq<char>,
    sender_id: Seq<char>,
    timestamp_ms: i64,
    body: Seq<char>,
) -> DisplayMessageView {
    DisplayMessageView {
        sender,
        timestamp: timestamp_ms,
        body,
        is_system: false,
        image_lines: None,
        image_path: None,
        status: None,
        timestamp_ms,
        reactions: Seq::empty(),
        mention_ranges: Seq::empty(),
        body_raw: None,
        mentions: Seq::empty(),
        style_ranges: Seq::empty(),
        quote: None,
        is_edited: false,
        is_deleted: false,
        is_pinned: false,
        sender_id,
        expires_in_seconds: 0,
        expiration_start_ms: 0,
        poll_data: None,
        poll_votes: Seq::empty(),
        preview: None,
        preview_image_lines: None,
        preview_image_path: None,
    }
}

/// A message that holds nothing but a sender, a time and a body.
pub fn new_message(sender: String, sender_id: String, timestamp_ms: i64, body: String) -> (r:
    DisplayMessage)
    ensures
        r.deep_view() == plain_message(sender@, sender_id@, timestamp_ms, body@),
{
    let r = DisplayMessage {
        sender,
        timestamp: timestamp_ms,
        body,
        is_system: false,
        image_lines: None,
        image_path: None,
        status: None,
        timestamp_ms,
        reactions: Vec::new(),
        mention_ranges: Vec::new(),
        body_raw: None,
        mentions: Vec::new(),
        style_ranges: Vec::new(),
        quote: None,
        is_edited: false,
        is_deleted: false,
        is_pinned: false,
        sender_id,
        expires_in_seconds: 0,
        expiration_start_ms: 0,
        poll_data: None,
        poll_votes: Vec::new(),
        preview: None,
        preview_image_lines: None,
        preview_image_path: None,
    };
    assert(r.reactions.deep_view() =~= Seq::<ReactionView>::empty());
    assert(r.mention_ranges.deep_view() =~= Seq::<(usize, usize)>::empty());
    assert(r.mentions.deep_view() =~= Seq::<MentionView>::empty());
    assert(r.style_ranges.deep_view() =~= Seq::<(usize, usize, StyleType)>::empty());
    assert(r.poll_votes.deep_view() =~= Seq::<PollVoteView>::empty());
    r
}

/// Two digits.
pub open spec fn two_digits(n: int) -> Seq<char> {
    if n < 10 {
        "0"@ + decimal(n as nat)
    } else {
        decimal(n as nat)
    }
}

/// The time of day of a moment, at an offset from UTC in seconds.
pub open spec fn clock_text(timestamp_ms: int, offset_seconds: int) -> Seq<char> {
    let minutes = ((timestamp_ms / 1000 + offset_seconds) / 60) % 1440;
    two_digits(minutes / 60) + ":"@ + two_digits(minutes % 60)
}

fn write_two_digits(n: u64) -> (r: String)
    ensures
        r@ == two_digits(n as int),
{
    let d = crate::text::format_u64(n);
    if n < 10 {
        crate::text::concat2("0", d.as_str())
    } else {
        d
    }
}

/// The time of day of a moment, where local time is `offset_seconds` ahead of
/// UTC.
pub fn clock_at(timestamp_ms: i64, offset_seconds: i32) -> (r: String)
    ensures
        r@ == clock_text(timestamp_ms as int, offset_seconds as int),
{
    let ms: i128 = timestamp_ms as i128;
    let seconds: i128 = floor_div(ms, 1000) + offset_seconds as i128;
    let all_minutes: i128 = floor_div(seconds, 60);
    let in_day: i128 = all_minutes - floor_div(all_minutes, 1440) * 1440;
    let h = write_two_digits((in_day / 60) as u64);
    let m = write_two_digits((in_day % 60) as u64);
    concat3(h.as_str(), ":", m.as_str())
}

impl DisplayMessage {
    /// The time of day at which the message was sent, where local time is
    /// `offset_seconds` ahead of UTC.
    pub fn format_time(&self, offset_seconds: i32) -> (r: String)
        ensures
            r@ == clock_text(self.timestamp as int, offset_seconds as int),
    {
        clock_at(self.timestamp, offset_seconds)
    }
}

/// Division that rounds down.
fn floor_div(a: i128, b: i128) -> (r: i128)
    requires
        0 < b <= 1_000_000,
        -0x1_0000_0000_0000_0000_0000i128 <= a <= 0x1_0000_0000_0000_0000_0000i128,
    ensures
        r == a as int / b as int,
        r * b <= a < r * b + b,
        -0x1_0000_0000_0000_0000_0000i128 <= r <= 0x1_0000_0000_0000_0000_0000i128,
{
    if a >= 0 {
        let r = a / b;
        proof {
            vstd::arithmetic::div_mod::lemma_fundamental_div_mod(a as int, b as int);
            vstd::arithmetic::div_mod::lemma_mod_bound(a as int, b as int);
            assert(b * r == r * b) by (nonlinear_arith);
            assert(r <= a) by (nonlinear_arith)
                requires
                    r * b <= a,
                    b >= 1,
                    r >= 0,
            ;
        }
        r
    } else {
        let n = -a;
        let q = (n - 1) / b;
        let r = -q - 1;
        proof {
            vstd::arithmetic::div_mod::lemma_fundamental_div_mod((n - 1) as int, b as int);
            vstd::arithmetic::div_mod::lemma_mod_bound((n - 1) as int, b as int);
            assert(r * b == -(b * q) - b) by (nonlinear_arith)
                requires
                    r == -q - 1,
            ;
            let rem = a - r * b;
            assert(a as int / b as int == r) by {
                vstd::arithmetic::div_mod::lemma_fundamental_div_mod_converse(
                    a as int,
                    b as int,
                    r as int,
                    rem,
                );
            }
            assert(q <= n - 1) by (nonlinear_arith)
                requires
                    b * q <= n - 1,
                    b >= 1,
                    q >= 0,
            ;
        }
        r
    }
}

// ---------------------------------------------------------------------------
// Conversations
// ---------------------------------------------------------------------------

/// One past the last message that is not after `ts`.
pub open spec fn slot(msgs: Seq<DisplayMessageView>, ts: i64) -> int
    decreases msgs.len(),
{
    if msgs.len() == 0 {
        0
    } else if msgs.last().timestamp_ms <= ts {
        msgs.len() as int
    } else {
        slot(msgs.drop_last(), ts)
    }
}

/// The message of time `ts`.
pub open spec fn msg_at(msgs: Seq<DisplayMessageView>, ts: i64) -> Option<int> {
    let end = slot(msgs, ts);
    if end > 0 && msgs[end - 1].timestamp_ms == ts {
        Some(end - 1)
    } else {
        None
    }
}

/// Messages stand in the order of their times.
pub open spec fn in_time_order(msgs: Seq<DisplayMessageView>) -> bool {
    forall|i: int, j: int|
        0 <= i <= j < msgs.len() ==> (#[trigger] msgs[i]).timestamp_ms <= (
        #[trigger] msgs[j]).timestamp_ms
}

/// What `slot` finds.
pub proof fn slot_finds(msgs: Seq<DisplayMessageView>, ts: i64)
    ensures
        0 <= slot(msgs, ts) <= msgs.len(),
        slot(msgs, ts) > 0 ==> msgs[slot(msgs, ts) - 1].timestamp_ms <= ts,
        forall|j: int| slot(msgs, ts) <= j < msgs.len() ==> (#[trigger] msgs[j]).timestamp_ms > ts,
    decreases msgs.len(),
{
    if msgs.len() > 0 && msgs.last().timestamp_ms > ts {
        slot_finds(msgs.drop_last(), ts);
        assert forall|j: int| slot(msgs, ts) <= j < msgs.len() implies (
        #[trigger] msgs[j]).timestamp_ms > ts by {
            if j < msgs.len() - 1 {
                assert(msgs.drop_last()[j] == msgs[j]);
            }
        }
    }
}

/// A message put in at the slot of its time leaves messages in time order, after
/// those of the same time.
pub proof fn slot_keeps_time_order(msgs: Seq<DisplayMessageView>, m: DisplayMessageView)
    requires
        in_time_order(msgs),
    ensures
        in_time_order(msgs.insert(slot(msgs, m.timestamp_ms), m)),
        forall|j: int|
            0 <= j < slot(msgs, m.timestamp_ms) ==> (#[trigger] msgs[j]).timestamp_ms
                <= m.timestamp_ms,
{
    slot_finds(msgs, m.timestamp_ms);
    let p = slot(msgs, m.timestamp_ms);
    let t = msgs.insert(p, m);
    assert forall|i: int, j: int| 0 <= i <= j < t.len() implies (#[trigger] t[i]).timestamp_ms <= (
    #[trigger] t[j]).timestamp_ms by {
        let a = if i < p {
            i
        } else {
            i - 1
        };
        let b = if j < p {
            j
        } else {
            j - 1
        };
        if i != p {
            assert(t[i] == msgs[a]);
        }
        if j != p {
            assert(t[j] == msgs[b]);
        }
        if p > 0 {
            assert(msgs[p - 1].timestamp_ms <= m.timestamp_ms);
        }
    }
}

/// Among messages in time order a message of a given time is found where there
/// is one, and only then.
pub proof fn msg_at_finds(msgs: Seq<DisplayMessageView>, ts: i64)
    requires
        in_time_order(msgs),
    ensures
        match msg_at(msgs, ts) {
            Some(i) => 0 <= i < msgs.len() && msgs[i].timestamp_ms == ts,
            None => forall|j: int| 0 <= j < msgs.len() ==> (#[trigger] msgs[j]).timestamp_ms != ts,
        },
{
    slot_finds(msgs, ts);
}

/// Finds one past the last message that is not after `ts`.
pub fn slot_for(msgs: &Vec<DisplayMessage>, ts: i64) -> (r: usize)
    ensures
        r == slot(msgs.deep_view(), ts),
        r <= msgs@.len(),
{
    let ghost s = msgs.deep_view();
    let mut n = msgs.len();
    assert(s.take(s.len() as int) =~= s);
    while n > 0 && msgs[n - 1].timestamp_ms > ts
        invariant
            n <= msgs@.len(),
            s == msgs.deep_view(),
            slot(s, ts) == slot(s.take(n as int), ts),
        decreases n,
    {
        assert(s.take(n as int).drop_last() =~= s.take(n - 1));
        assert(s.take(n as int).last() == msgs@[n - 1].deep_view());
        n -= 1;
    }
    if n > 0 {
        assert(s.take(n as int).last() == msgs@[n - 1].deep_view());
    }
    n
}

/// Finds the message of time `ts`.
pub fn find_message(msgs: &Vec<DisplayMessage>, ts: i64) -> (r: Option<usize>)
    ensures
        match r {
            Some(i) => msg_at(msgs.deep_view(), ts) == Some(i as int) && i < msgs@.len(),
            None => msg_at(msgs.deep_view(), ts) is None,
        },
{
    let end = slot_for(msgs, ts);
    if end > 0 && msgs[end - 1].timestamp_ms == ts {
        Some(end - 1)
    } else {
        None
    }
}

impl ConversationView {
    /// The conversation has no messages and no name but its id.
    pub open spec fn stale(self) -> bool {
        self.messages.len() == 0 && if self.is_group {
            self.name.len() == 0 || self.name == self.id
        } else {
            !(self.name.len() > 0 && self.name[0] == '+') && self.name == self.id
        }
    }
}

/// A conversation without messages.
pub open spec fn new_conversation(
    id: Seq<char>,
    name: Seq<char>,
    is_group: bool,
) -> ConversationView {
    ConversationView {
        name,
        id,
        messages: Seq::empty(),
        unread: 0,
        is_group,
        expiration_timer: 0,
        accepted: true,
    }
}

impl Conversation {
    /// Whether the conversation is to be left out of the sidebar: it has no
    /// messages and no name but its id.
    pub fn is_stale(&self) -> (r: bool)
        ensures
            r == self.deep_view().stale(),
    {
        if self.messages.len() > 0 {
            return false;
        }
        let unnamed = same(self.name.as_str(), self.id.as_str());
        if self.is_group {
            self.name.as_str().is_empty() || unnamed
        } else {
            !starts_with_char(self.name.as_str(), '+') && unnamed
        }
    }

    /// Finds the message of time `ts`.
    pub fn find_msg_idx(&self, ts: i64) -> (r: Option<usize>)
        ensures
            match r {
                Some(i) => msg_at(self.deep_view().messages, ts) == Some(i as int) && i
                    < self.messages@.len(),
                None => msg_at(self.deep_view().messages, ts) is None,
            },
    {
        find_message(&self.messages, ts)
    }
}

// ---------------------------------------------------------------------------
// The store
// ---------------------------------------------------------------------------

/// The store with nothing in it.
pub open spec fn empty_store() -> ConversationStoreView {
    ConversationStoreView {
        conversations: Seq::empty(),
        conversation_order: Seq::empty(),
        contact_names: Seq::empty(),
        uuid_to_name: Seq::empty(),
        number_to_uuid: Seq::empty(),
        last_read_index: Seq::empty(),
        groups: Seq::empty(),
        has_more_messages: Set::empty(),
    }
}

/// The place of a text in a list of texts, or its length.
pub open spec fn text_place(s: Seq<Seq<char>>, x: Seq<char>, i: int) -> int
    decreases s.len() - i,
{
    if i < 0 || i >= s.len() {
        s.len() as int
    } else if s[i] == x {
        i
    } else {
        text_place(s, x, i + 1)
    }
}

/// A list with one of its texts moved to the front.
pub open spec fn moved_to_front(s: Seq<Seq<char>>, x: Seq<char>) -> Seq<Seq<char>> {
    let p = text_place(s, x, 0);
    if p < s.len() {
        s.remove(p).insert(0, x)
    } else {
        s
    }
}

/// Finds a text in a list of texts.
pub fn find_text(v: &Vec<String>, x: &str) -> (r: Option<usize>)
    ensures
        match r {
            Some(i) => i == text_place(v.deep_view(), x@, 0) && i < v@.len() && v@[i as int]@ == x@,
            None => text_place(v.deep_view(), x@, 0) == v@.len(),
        },
{
    let ghost s = v.deep_view();
    let mut i: usize = 0;
    while i < v.len() && !same(v[i].as_str(), x)
        invariant
            i <= v@.len(),
            s == v.deep_view(),
            text_place(s, x@, 0) == text_place(s, x@, i as int),
        decreases v@.len() - i,
    {
        i += 1;
    }
    if i < v.len() {
        Some(i)
    } else {
        None
    }
}

/// What `text_place` finds.
pub proof fn text_place_finds(s: Seq<Seq<char>>, x: Seq<char>, i: int)
    requires
        0 <= i <= s.len(),
    ensures
        i <= text_place(s, x, i) <= s.len(),
        text_place(s, x, i) < s.len() ==> s[text_place(s, x, i)] == x,
        forall|j: int| i <= j < text_place(s, x, i) ==> #[trigger] s[j] != x,
    decreases s.len() - i,
{
    if i < s.len() && s[i] != x {
        text_place_finds(s, x, i + 1);
    }
}

/// Moving a text to the front keeps every text and puts it first.
pub proof fn moved_to_front_reorders(s: Seq<Seq<char>>, x: Seq<char>)
    ensures
        moved_to_front(s, x).to_multiset() == s.to_multiset(),
        s.contains(x) ==> moved_to_front(s, x)[0] == x,
{
    text_place_finds(s, x, 0);
    let p = text_place(s, x, 0);
    if p < s.len() {
        vstd::seq_lib::to_multiset_remove(s, p);
        vstd::seq_lib::to_multiset_insert(s.remove(p), 0, x);
        assert(s.to_multiset().contains(x)) by {
            broadcast use vstd::seq_lib::group_to_multiset_ensures;

            assert(s.contains(s[p]));
        }
        assert(moved_to_front(s, x).to_multiset() =~= s.to_multiset());
    }
}

/// The store with a conversation that is there, under a name that is known.
pub open spec fn with_conversation(
    s: ConversationStoreView,
    id: Seq<char>,
    name: Seq<char>,
    is_group: bool,
) -> ConversationStoreView {
    if !holds(s.conversations, id) {
        ConversationStoreView {
            conversations: s.conversations.push((id, new_conversation(id, name, is_group))),
            conversation_order: s.conversation_order.push(id),
            ..s
        }
    } else if name != id && at(s.conversations, id).name != name {
        ConversationStoreView {
            conversations: put(
                s.conversations,
                id,
                ConversationView { name, ..at(s.conversations, id) },
            ),
            ..s
        }
    } else {
        s
    }
}

/// What is written when a conversation is made sure of.
pub open spec fn conversation_writes(
    s: ConversationStoreView,
    id: Seq<char>,
    name: Seq<char>,
    is_group: bool,
) -> Seq<DbJobView> {
    if !holds(s.conversations, id) || (name != id && at(s.conversations, id).name != name) {
        seq![quiet(DbWriteView::UpsertConversation { id, name, is_group }, "upsert_conversation"@)]
    } else {
        Seq::empty()
    }
}

/// The unread messages of conversations.
pub open spec fn unread_sum(s: Seq<(Seq<char>, ConversationView)>) -> int
    decreases s.len(),
{
    if s.len() == 0 {
        0
    } else {
        unread_sum(s.drop_last()) + s.last().1.unread
    }
}

/// A number, or the greatest that a `usize` holds.
pub open spec fn at_most_max(n: int) -> usize {
    if n > usize::MAX {
        usize::MAX
    } else {
        n as usize
    }
}

/// A message with its mentions resolved against names.
pub open spec fn rebuilt(m: DisplayMessageView, names: NameMapView) -> DisplayMessageView {
    if needs_rebuild(m, names) {
        let raw = m.body_raw->0;
        let body = resolved_body(raw, m.mentions, names);
        DisplayMessageView {
            body,
            mention_ranges: mention_ranges(raw, body, m.mentions, names),
            ..m
        }
    } else {
        m
    }
}

/// The body of a message differs from its raw body resolved against names.
pub open spec fn needs_rebuild(m: DisplayMessageView, names: NameMapView) -> bool {
    m.mentions.len() > 0 && m.body_raw is Some && resolved_body(m.body_raw->0, m.mentions, names)
        != m.body
}

/// What is written of the messages of a conversation whose mentions are
/// resolved.
pub open spec fn rebuild_writes(
    id: Seq<char>,
    msgs: Seq<DisplayMessageView>,
    names: NameMapView,
) -> Seq<DbJobView>
    decreases msgs.len(),
{
    if msgs.len() == 0 {
        Seq::empty()
    } else {
        let before = rebuild_writes(id, msgs.drop_last(), names);
        let m = msgs.last();
        if needs_rebuild(m, names) {
            before.push(
                quiet(
                    DbWriteView::UpdateMessageBody {
                        conv_id: id,
                        timestamp_ms: m.timestamp_ms,
                        body: resolved_body(m.body_raw->0, m.mentions, names),
                    },
                    "update_message_body (rebuild_mentions)"@,
                ),
            )
        } else {
            before
        }
    }
}

/// What is written of conversations whose mentions are resolved.
pub open spec fn all_rebuild_writes(
    convs: Seq<(Seq<char>, ConversationView)>,
    names: NameMapView,
) -> Seq<DbJobView>
    decreases convs.len(),
{
    if convs.len() == 0 {
        Seq::empty()
    } else {
        all_rebuild_writes(convs.drop_last(), names) + rebuild_writes(
            convs.last().0,
            convs.last().1.messages,
            names,
        )
    }
}

/// Conversations with every message changed by `f`.
pub open spec fn map_messages(
    convs: Seq<(Seq<char>, ConversationView)>,
    f: spec_fn(DisplayMessageView) -> DisplayMessageView,
) -> Seq<(Seq<char>, ConversationView)> {
    convs.map_values(
        |p: (Seq<char>, ConversationView)|
            (p.0, ConversationView { messages: p.1.messages.map_values(f), ..p.1 }),
    )
}

/// The store with every mention resolved against the known names.
pub open spec fn with_mentions_rebuilt(s: ConversationStoreView) -> ConversationStoreView {
    ConversationStoreView {
        conversations: map_messages(
            s.conversations,
            |m: DisplayMessageView| rebuilt(m, s.uuid_to_name),
        ),
        ..s
    }
}

/// The message names its sender by more than a number.
pub open spec fn tells_name(m: DisplayMessageView) -> bool {
    m.sender_id.len() > 0 && m.sender_id != "you"@ && m.sender.len() > 0 && m.sender != m.sender_id
}

/// Names by number that messages tell, later ones over earlier ones.
pub open spec fn names_in_messages(names: NameMapView, msgs: Seq<DisplayMessageView>) -> NameMapView
    decreases msgs.len(),
{
    if msgs.len() == 0 {
        names
    } else {
        let before = names_in_messages(names, msgs.drop_last());
        if tells_name(msgs.last()) {
            put(before, msgs.last().sender_id, msgs.last().sender)
        } else {
            before
        }
    }
}

/// Names by number that the messages of conversations tell.
pub open spec fn names_in_conversations(convs: Seq<(Seq<char>, ConversationView)>) -> NameMapView
    decreases convs.len(),
{
    if convs.len() == 0 {
        Seq::empty()
    } else {
        names_in_messages(names_in_conversations(convs.drop_last()), convs.last().1.messages)
    }
}

/// Names with others put over them.
pub open spec fn names_over(names: NameMapView, over: NameMapView) -> NameMapView
    decreases over.len(),
{
    if over.len() == 0 {
        names
    } else {
        put(names_over(names, over.drop_last()), over.last().0, over.last().1)
    }
}

/// The names by number that a store knows: those of contacts, then those that
/// messages tell.
pub open spec fn known_names(s: ConversationStoreView) -> NameMapView {
    names_over(names_in_conversations(s.conversations), s.contact_names)
}

/// A number as it is shown: `you` for one's own, a known name, or itself.
pub open spec fn shown_as(number: Seq<char>, account: Seq<char>, names: NameMapView) -> Seq<char> {
    if number == account {
        "you"@
    } else {
        match look(names, number) {
            Some(name) => name,
            None => number,
        }
    }
}

/// A reaction with its sender shown by name.
pub open spec fn named_reaction(
    r: ReactionView,
    account: Seq<char>,
    names: NameMapView,
) -> ReactionView {
    if r.sender == "you"@ {
        r
    } else {
        ReactionView { sender: shown_as(r.sender, account, names), ..r }
    }
}

/// A message with the senders of its reactions and the author of its quote
/// shown by name.
pub open spec fn named_message(
    m: DisplayMessageView,
    account: Seq<char>,
    names: NameMapView,
) -> DisplayMessageView {
    DisplayMessageView {
        reactions: m.reactions.map_values(|r: ReactionView| named_reaction(r, account, names)),
        quote: match m.quote {
            Some(q) => Some(QuoteView { author: shown_as(q.author, account, names), ..q }),
            None => None,
        },
        ..m
    }
}

/// The store with the senders of reactions and the authors of quotes shown by
/// name.
pub open spec fn with_stored_names(
    s: ConversationStoreView,
    account: Seq<char>,
) -> ConversationStoreView {
    ConversationStoreView {
        conversations: map_messages(
            s.conversations,
            |m: DisplayMessageView| named_message(m, account, known_names(s)),
        ),
        ..s
    }
}

fn rebuild_message(m: &mut DisplayMessage, names: &StrMap<String>) -> (r: bool)
    ensures
        final(m).deep_view() == rebuilt(old(m).deep_view(), names.deep_view()),
        r == needs_rebuild(old(m).deep_view(), names.deep_view()),
{
    if m.mentions.len() == 0 {
        return false;
    }
    match &m.body_raw {
        Some(raw) => {
            let (body, ranges) = resolve_mentions_with(raw.as_str(), &m.mentions, names);
            if same(body.as_str(), m.body.as_str()) {
                false
            } else {
                m.body = body;
                m.mention_ranges = ranges;
                assert(m.mention_ranges.deep_view() =~= m.mention_ranges@);
                true
            }
        },
        None => false,
    }
}

fn rebuild_messages(
    id: &String,
    msgs: &mut Vec<DisplayMessage>,
    names: &StrMap<String>,
    jobs: &mut Vec<DbJob>,
)
    ensures
        final(msgs).deep_view() == old(msgs).deep_view().map_values(
            |m: DisplayMessageView| rebuilt(m, names.deep_view()),
        ),
        final(jobs).deep_view() == old(jobs).deep_view() + rebuild_writes(
            id@,
            old(msgs).deep_view(),
            names.deep_view(),
        ),
{
    let ghost s = msgs.deep_view();
    let ghost n = names.deep_view();
    let mut i: usize = 0;
    assert(s.take(0) =~= Seq::<DisplayMessageView>::empty());
    assert(jobs.deep_view() + Seq::<DbJobView>::empty() =~= jobs.deep_view());
    while i < msgs.len()
        invariant
            i <= msgs@.len(),
            msgs@.len() == s.len(),
            n == names.deep_view(),
            forall|k: int|
                0 <= k < i ==> (#[trigger] msgs@[k]).deep_view() == rebuilt(s[k], n),
            forall|k: int| i <= k < s.len() ==> (#[trigger] msgs@[k]).deep_view() == s[k],
            jobs.deep_view() == old(jobs).deep_view() + rebuild_writes(id@, s.take(i as int), n),
        decreases msgs@.len() - i,
    {
        assert(msgs@[i as int].deep_view() == s[i as int]);
        let changed = rebuild_message(&mut msgs[i], names);
        proof {
            assert(s.take(i + 1).drop_last() =~= s.take(i as int));
            assert(s.take(i + 1).last() == s[i as int]);
        }
        let ghost before = jobs.deep_view();
        if changed {
            let ts = msgs[i].timestamp_ms;
            let body = msgs[i].body.clone();
            enqueue(
                jobs,
                DbWrite::UpdateMessageBody { conv_id: id.clone(), timestamp_ms: ts, body },
                "update_message_body (rebuild_mentions)",
                false,
            );
        }
        assert(jobs.deep_view() =~= old(jobs).deep_view() + rebuild_writes(id@, s.take(i + 1), n));
        i += 1;
    }
    assert(s.take(s.len() as int) =~= s);
    assert(msgs.deep_view() =~= s.map_values(|m: DisplayMessageView| rebuilt(m, n)));
}

fn show_number(number: &mut String, account: &str, names: &StrMap<String>)
    ensures
        final(number)@ == shown_as(old(number)@, account@, names.deep_view()),
{
    if same(number.as_str(), account) {
        *number = "you".to_string();
    } else {
        let found = names.get(number.as_str());
        if let Some(name) = found {
            *number = name.clone();
        }
    }
}

fn name_reactions(v: &mut Vec<Reaction>, account: &str, names: &StrMap<String>)
    ensures
        final(v).deep_view() == old(v).deep_view().map_values(
            |r: ReactionView| named_reaction(r, account@, names.deep_view()),
        ),
{
    let ghost s = v.deep_view();
    let ghost n = names.deep_view();
    let mut i: usize = 0;
    while i < v.len()
        invariant
            i <= v@.len(),
            v@.len() == s.len(),
            n == names.deep_view(),
            forall|k: int|
                0 <= k < i ==> (#[trigger] v@[k]).deep_view() == named_reaction(s[k], account@, n),
            forall|k: int| i <= k < s.len() ==> (#[trigger] v@[k]).deep_view() == s[k],
        decreases v@.len() - i,
    {
        assert(v@[i as int].deep_view() == s[i as int]);
        if !same(v[i].sender.as_str(), "you") {
            show_number(&mut v[i].sender, account, names);
        }
        i += 1;
    }
    assert(v.deep_view() =~= s.map_values(|r: ReactionView| named_reaction(r, account@, n)));
}

fn name_message(m: &mut DisplayMessage, account: &str, names: &StrMap<String>)
    ensures
        final(m).deep_view() == named_message(old(m).deep_view(), account@, names.deep_view()),
{
    name_reactions(&mut m.reactions, account, names);
    match &mut m.quote {
        Some(q) => {
            show_number(&mut q.author, account, names);
        },
        None => {},
    }
}

fn name_messages(msgs: &mut Vec<DisplayMessage>, account: &str, names: &StrMap<String>)
    ensures
        final(msgs).deep_view() == old(msgs).deep_view().map_values(
            |m: DisplayMessageView| named_message(m, account@, names.deep_view()),
        ),
{
    let ghost s = msgs.deep_view();
    let ghost n = names.deep_view();
    let mut i: usize = 0;
    while i < msgs.len()
        invariant
            i <= msgs@.len(),
            msgs@.len() == s.len(),
            n == names.deep_view(),
            forall|k: int|
                0 <= k < i ==> (#[trigger] msgs@[k]).deep_view() == named_message(
                    s[k],
                    account@,
                    n,
                ),
            forall|k: int| i <= k < s.len() ==> (#[trigger] msgs@[k]).deep_view() == s[k],
        decreases msgs@.len() - i,
    {
        assert(msgs@[i as int].deep_view() == s[i as int]);
        name_message(&mut msgs[i], account, names);
        i += 1;
    }
    assert(msgs.deep_view() =~= s.map_values(
        |m: DisplayMessageView| named_message(m, account@, n),
    ));
}

fn collect_names(names: &mut StrMap<String>, msgs: &Vec<DisplayMessage>)
    ensures
        final(names).deep_view() == names_in_messages(old(names).deep_view(), msgs.deep_view()),
{
    let ghost s = msgs.deep_view();
    let mut i: usize = 0;
    assert(s.take(0) =~= Seq::<DisplayMessageView>::empty());
    while i < msgs.len()
        invariant
            i <= msgs@.len(),
            s == msgs.deep_view(),
            names.deep_view() == names_in_messages(old(names).deep_view(), s.take(i as int)),
        decreases msgs@.len() - i,
    {
        let m = &msgs[i];
        proof {
            assert(s.take(i + 1).drop_last() =~= s.take(i as int));
            assert(s.take(i + 1).last() == msgs@[i as int].deep_view());
        }
        if !m.sender_id.as_str().is_empty() && !same(m.sender_id.as_str(), "you") && !m.sender.as_str().is_empty()
            && !same(m.sender.as_str(), m.sender_id.as_str()) {
            names.insert(m.sender_id.clone(), m.sender.clone());
        }
        i += 1;
    }
    assert(s.take(s.len() as int) =~= s);
}

impl ConversationStore {
    /// A store with nothing in it.
    pub fn new() -> (r: ConversationStore)
        ensures
            r.deep_view() == empty_store(),
    {
        let r = ConversationStore {
            conversations: StrMap::new(),
            conversation_order: Vec::new(),
            contact_names: StrMap::new(),
            uuid_to_name: StrMap::new(),
            number_to_uuid: StrMap::new(),
            last_read_index: StrMap::new(),
            groups: StrMap::new(),
            has_more_messages: StrSet::new(),
        };
        assert(r.conversation_order.deep_view() =~= Seq::<Seq<char>>::empty());
        r
    }

    /// Makes sure that a conversation is there, and that it goes by `name` where
    /// that is more than its id.
    pub fn get_or_create_conversation(
        &mut self,
        id: &str,
        name: &str,
        is_group: bool,
        jobs: &mut Vec<DbJob>,
    ) -> (r: &mut Conversation)
        ensures
            r.deep_view() == at(
                with_conversation(old(self).deep_view(), id@, name@, is_group).conversations,
                id@,
            ),
            final(self).deep_view() == (ConversationStoreView {
                conversations: put(
                    with_conversation(old(self).deep_view(), id@, name@, is_group).conversations,
                    id@,
                    final(r).deep_view(),
                ),
                ..with_conversation(old(self).deep_view(), id@, name@, is_group)
            }),
            final(jobs).deep_view() == old(jobs).deep_view() + conversation_writes(
                old(self).deep_view(),
                id@,
                name@,
                is_group,
            ),
    {
        let mut write = false;
        proof {
            crate::strmap::place_finds(self.conversations.deep_view(), id@);
        }
        if !self.conversations.contains_key(id) {
            write = true;
            let conv = Conversation {
                name: name.to_string(),
                id: id.to_string(),
                messages: Vec::new(),
                unread: 0,
                is_group,
                expiration_timer: 0,
                accepted: true,
            };
            assert(conv.messages.deep_view() =~= Seq::<DisplayMessageView>::empty());
            assert(conv.deep_view() == new_conversation(id@, name@, is_group));
            self.conversations.insert(id.to_string(), conv);
            self.conversation_order.push(id.to_string());
            assert(self.conversation_order.deep_view() =~= old(
                self,
            ).conversation_order.deep_view().push(id@));
        } else if !same(name, id) {
            match self.conversations.get_mut(id) {
                Some(conv) => {
                    if !same(conv.name.as_str(), name) {
                        conv.name = name.to_string();
                        write = true;
                    }
                },
                None => {},
            }
        }
        if write {
            enqueue(
                jobs,
                DbWrite::UpsertConversation { id: id.to_string(), name: name.to_string(), is_group },
                "upsert_conversation",
                false,
            );
        }
        let ghost made = with_conversation(old(self).deep_view(), id@, name@, is_group);
        proof {
            let convs = old(self).deep_view().conversations;
            if !holds(convs, id@) {
                crate::strmap::look_after_put(
                    convs,
                    id@,
                    new_conversation(id@, name@, is_group),
                    id@,
                );
            } else {
                crate::strmap::look_after_put(
                    convs,
                    id@,
                    (ConversationView { name: name@, ..at(convs, id@) }),
                    id@,
                );
                assert(put(convs, id@, at(convs, id@)) =~= convs);
            }
            assert(self.deep_view() =~= made);
            assert(jobs.deep_view() =~= old(jobs).deep_view() + conversation_writes(
                old(self).deep_view(),
                id@,
                name@,
                is_group,
            ));
            assert(holds(made.conversations, id@));
        }
        match self.conversations.get_mut(id) {
            Some(conv) => conv,
            None => {
                assert(false);
                vstd::pervasive::unreached()
            },
        }
    }

    /// Moves a conversation to the top of the sidebar. Returns `true` if the
    /// conversation was actually reordered.
    pub fn move_conversation_to_top(&mut self, id: &str) -> (r: bool)
        ensures
            final(self).deep_view() == (ConversationStoreView {
                conversation_order: moved_to_front(old(self).deep_view().conversation_order, id@),
                ..old(self).deep_view()
            }),
            r == (final(self).deep_view().conversation_order != old(
                self,
            ).deep_view().conversation_order),
    {
        let ghost order = self.conversation_order.deep_view();
        proof {
            text_place_finds(order, id@, 0);
        }
        match find_text(&self.conversation_order, id) {
            Some(pos) => {
                self.conversation_order.remove(pos);
                self.conversation_order.insert(0, id.to_string());
                assert(self.conversation_order.deep_view() =~= moved_to_front(order, id@));
                proof {
                    if pos == 0 {
                        assert(moved_to_front(order, id@) =~= order);
                    } else {
                        assert(moved_to_front(order, id@)[0] != order[0]);
                    }
                }
                pos > 0
            },
            None => false,
        }
    }

    /// How many messages are unread, in all conversations together.
    pub fn total_unread(&self) -> (r: usize)
        ensures
            r == at_most_max(unread_sum(self.deep_view().conversations)),
    {
        let ghost s = self.conversations.deep_view();
        let mut total: usize = 0;
        let mut i: usize = 0;
        assert(s.take(0) =~= Seq::<(Seq<char>, ConversationView)>::empty());
        while i < self.conversations.entries.len()
            invariant
                i <= self.conversations.entries@.len(),
                s == self.conversations.deep_view(),
                total == at_most_max(unread_sum(s.take(i as int))),
                unread_sum(s.take(i as int)) >= 0,
            decreases self.conversations.entries@.len() - i,
        {
            proof {
                assert(s.take(i + 1).drop_last() =~= s.take(i as int));
                assert(s.take(i + 1).last() == s[i as int]);
            }
            total = total.saturating_add(self.conversations.entries[i].1.unread);
            i += 1;
        }
        assert(s.take(s.len() as int) =~= s);
        total
    }

    /// Replaces the placeholders of a message body by the names that are known.
    pub fn resolve_mentions(&self, body: &str, mentions: &Vec<Mention>) -> (r: (
        String,
        Vec<(usize, usize)>,
    ))
        ensures
            r.0@ == resolved_body(body@, mentions.deep_view(), self.deep_view().uuid_to_name),
            r.1@ == mention_ranges(
                body@,
                r.0@,
                mentions.deep_view(),
                self.deep_view().uuid_to_name,
            ),
    {
        resolve_mentions_with(body, mentions, &self.uuid_to_name)
    }

    /// Resolves the mentions of all messages again with the names that are known
    /// now.
    pub fn rebuild_mention_display(&mut self, jobs: &mut Vec<DbJob>)
        ensures
            final(self).deep_view() == with_mentions_rebuilt(old(self).deep_view()),
            final(jobs).deep_view() == old(jobs).deep_view() + all_rebuild_writes(
                old(self).deep_view().conversations,
                old(self).deep_view().uuid_to_name,
            ),
    {
        let ghost s = self.conversations.deep_view();
        let ghost n = self.uuid_to_name.deep_view();
        let ghost f = |m: DisplayMessageView| rebuilt(m, n);
        let mut i: usize = 0;
        assert(s.take(0) =~= Seq::<(Seq<char>, ConversationView)>::empty());
        assert(jobs.deep_view() + Seq::<DbJobView>::empty() =~= jobs.deep_view());
        while i < self.conversations.entries.len()
            invariant
                i <= self.conversations.entries@.len(),
                self.conversations.entries@.len() == s.len(),
                n == self.uuid_to_name.deep_view(),
                f == |m: DisplayMessageView| rebuilt(m, n),
                *self == (ConversationStore { conversations: self.conversations, ..*old(self) }),
                forall|k: int|
                    0 <= k < i ==> (#[trigger] self.conversations.entries@[k]).deep_view() == (
                        s[k].0,
                        ConversationView { messages: s[k].1.messages.map_values(f), ..s[k].1 },
                    ),
                forall|k: int|
                    i <= k < s.len() ==> (#[trigger] self.conversations.entries@[k]).deep_view()
                        == s[k],
                jobs.deep_view() == old(jobs).deep_view() + all_rebuild_writes(
                    s.take(i as int),
                    n,
                ),
            decreases self.conversations.entries@.len() - i,
        {
            assert(self.conversations.entries@[i as int].deep_view() == s[i as int]);
            let id = self.conversations.entries[i].0.clone();
            rebuild_messages(
                &id,
                &mut self.conversations.entries[i].1.messages,
                &self.uuid_to_name,
                jobs,
            );
            proof {
                assert(s.take(i + 1).drop_last() =~= s.take(i as int));
                assert(s.take(i + 1).last() == s[i as int]);
                assert(jobs.deep_view() =~= old(jobs).deep_view() + all_rebuild_writes(
                    s.take(i + 1),
                    n,
                ));
            }
            i += 1;
        }
        assert(s.take(s.len() as int) =~= s);
        assert(self.conversations.deep_view() =~= map_messages(s, f));
    }

    /// Turns styled stretches of a raw body into byte ranges of the body with
    /// its mentions replaced.
    pub fn resolve_text_styles(
        &self,
        resolved_body: &str,
        text_styles: &Vec<TextStyle>,
        mentions: &Vec<Mention>,
    ) -> (r: Vec<(usize, usize, StyleType)>)
        ensures
            r@ == style_ranges(
                resolved_body@,
                text_styles@,
                mentions.deep_view(),
                self.deep_view().uuid_to_name,
            ),
    {
        resolve_text_styles_with(resolved_body, text_styles, mentions, &self.uuid_to_name)
    }

    /// Shows the senders of reactions and the authors of quotes by the names
    /// that are known now.
    pub fn resolve_stored_names(&mut self, account: &str)
        ensures
            final(self).deep_view() == with_stored_names(old(self).deep_view(), account@),
    {
        let ghost s = self.conversations.deep_view();
        let ghost c = self.contact_names.deep_view();
        let mut names: StrMap<String> = StrMap::new();
        let mut i: usize = 0;
        assert(s.take(0) =~= Seq::<(Seq<char>, ConversationView)>::empty());
        while i < self.conversations.entries.len()
            invariant
                i <= self.conversations.entries@.len(),
                s == self.conversations.deep_view(),
                *self == *old(self),
                names.deep_view() == names_in_conversations(s.take(i as int)),
            decreases self.conversations.entries@.len() - i,
        {
            proof {
                assert(s.take(i + 1).drop_last() =~= s.take(i as int));
                assert(s.take(i + 1).last() == s[i as int]);
            }
            collect_names(&mut names, &self.conversations.entries[i].1.messages);
            i += 1;
        }
        assert(s.take(s.len() as int) =~= s);
        let ghost told = names.deep_view();
        let mut j: usize = 0;
        assert(c.take(0) =~= Seq::<(Seq<char>, Seq<char>)>::empty());
        while j < self.contact_names.entries.len()
            invariant
                j <= self.contact_names.entries@.len(),
                c == self.contact_names.deep_view(),
                *self == *old(self),
                names.deep_view() == names_over(told, c.take(j as int)),
            decreases self.contact_names.entries@.len() - j,
        {
            proof {
                assert(c.take(j + 1).drop_last() =~= c.take(j as int));
                assert(c.take(j + 1).last() == c[j as int]);
            }
            names.insert(
                self.contact_names.entries[j].0.clone(),
                self.contact_names.entries[j].1.clone(),
            );
            j += 1;
        }
        assert(c.take(c.len() as int) =~= c);
        let ghost n = names.deep_view();
        let ghost f = |m: DisplayMessageView| named_message(m, account@, n);
        let mut k: usize = 0;
        while k < self.conversations.entries.len()
            invariant
                k <= self.conversations.entries@.len(),
                self.conversations.entries@.len() == s.len(),
                n == names.deep_view(),
                f == |m: DisplayMessageView| named_message(m, account@, n),
                *self == (ConversationStore { conversations: self.conversations, ..*old(self) }),
                forall|q: int|
                    0 <= q < k ==> (#[trigger] self.conversations.entries@[q]).deep_view() == (
                        s[q].0,
                        ConversationView { messages: s[q].1.messages.map_values(f), ..s[q].1 },
                    ),
                forall|q: int|
                    k <= q < s.len() ==> (#[trigger] self.conversations.entries@[q]).deep_view()
                        == s[q],
            decreases self.conversations.entries@.len() - k,
        {
            assert(self.conversations.entries@[k as int].deep_view() == s[k as int]);
            name_messages(&mut self.conversations.entries[k].1.messages, account, &names);
            k += 1;
        }
        assert(self.conversations.deep_view() =~= map_messages(s, f));
    }
}

/// A phone number as it is shown: long ones keep two characters at the front
/// and four at the end.
pub open spec fn short_form(number: Seq<char>) -> Seq<char> {
    if number.len() > 6 {
        number.take(2) + "***"@ + number.skip(number.len() - 4)
    } else {
        number
    }
}

/// Shortens a phone number for display: `+15551234567` becomes `+1***4567`.
pub fn short_name(number: &str) -> (r: String)
    ensures
        r@ == short_form(number@),
{
    let chars = to_chars(number);
    let n = chars.len();
    if n > 6 {
        let prefix = from_range(&chars, 0, 2);
        let last4 = from_range(&chars, n - 4, n);
        assert(prefix@ =~= number@.take(2));
        assert(last4@ =~= number@.skip(number@.len() - 4));
        concat3(prefix.as_str(), "***", last4.as_str())
    } else {
        number.to_string()
    }
}

} // verus!
