//! What the Signal service tells of: messages, contacts, groups, polls.
use vstd::prelude::*;

verus! {

// ---------------------------------------------------------------------------
// Copies
// ---------------------------------------------------------------------------

/// Values that can be copied whole.
pub trait Duplicate: DeepView + Sized {
    /// A copy that stands for the same value.
    fn duplicate(&self) -> (r: Self)
        ensures
            r.deep_view() == self.deep_view(),
    ;
}

impl Duplicate for String {
    fn duplicate(&self) -> (r: String) {
        self.clone()
    }
}

impl Duplicate for i64 {
    fn duplicate(&self) -> (r: i64) {
        *self
    }
}

impl Duplicate for u64 {
    fn duplicate(&self) -> (r: u64) {
        *self
    }
}

impl Duplicate for u32 {
    fn duplicate(&self) -> (r: u32) {
        *self
    }
}

impl Duplicate for u16 {
    fn duplicate(&self) -> (r: u16) {
        *self
    }
}

impl Duplicate for usize {
    fn duplicate(&self) -> (r: usize) {
        *self
    }
}

impl Duplicate for bool {
    fn duplicate(&self) -> (r: bool) {
        *self
    }
}

impl<T: Duplicate> Duplicate for Option<T> {
    fn duplicate(&self) -> (r: Option<T>) {
        match self {
            Some(x) => Some(x.duplicate()),
            None => None,
        }
    }
}

impl<T: Duplicate> Duplicate for Vec<T> {
    fn duplicate(&self) -> (r: Vec<T>) {
        let mut r: Vec<T> = Vec::new();
        let mut i: usize = 0;
        while i < self.len()
            invariant
                i <= self@.len(),
                r@.len() == i,
                forall|k: int|
                    #![trigger r@[k]]
                    0 <= k < i ==> r@[k].deep_view() == self@[k].deep_view(),
            decreases self@.len() - i,
        {
            r.push(self[i].duplicate());
            i += 1;
        }
        assert(r.deep_view() =~= self.deep_view());
        r
    }
}

impl<A: Duplicate, B: Duplicate> Duplicate for (A, B) {
    fn duplicate(&self) -> (r: (A, B)) {
        (self.0.duplicate(), self.1.duplicate())
    }
}

impl<A: Duplicate, B: Duplicate, C: Duplicate> Duplicate for (A, B, C) {
    fn duplicate(&self) -> (r: (A, B, C)) {
        (self.0.duplicate(), self.1.duplicate(), self.2.duplicate())
    }
}

// ---------------------------------------------------------------------------
// Types
// ---------------------------------------------------------------------------

/// How far an outgoing message has come.
#[derive(Debug, Clone, Copy, PartialEq, Eq, Structural)]
pub enum MessageStatus {
    Failed,
    Sending,
    Sent,
    Delivered,
    Read,
    Viewed,
}

impl MessageStatus {
    /// The place of a status on the way of a message.
    pub open spec fn rank(self) -> int {
        match self {
            MessageStatus::Failed => 1,
            MessageStatus::Sending => 2,
            MessageStatus::Sent => 3,
            MessageStatus::Delivered => 4,
            MessageStatus::Read => 5,
            MessageStatus::Viewed => 6,
        }
    }

    /// The number under which a status is stored; 0 stands for no status.
    pub fn to_i32(self) -> (r: i32)
        ensures
            r == self.rank(),
    {
        match self {
            MessageStatus::Failed => 1,
            MessageStatus::Sending => 2,
            MessageStatus::Sent => 3,
            MessageStatus::Delivered => 4,
            MessageStatus::Read => 5,
            MessageStatus::Viewed => 6,
        }
    }

    /// The status that a stored number stands for.
    pub fn from_i32(n: i32) -> (r: Option<MessageStatus>)
        ensures
            match r {
                Some(s) => s.rank() == n,
                None => !(1 <= n <= 6),
            },
    {
        match n {
            1 => Some(MessageStatus::Failed),
            2 => Some(MessageStatus::Sending),
            3 => Some(MessageStatus::Sent),
            4 => Some(MessageStatus::Delivered),
            5 => Some(MessageStatus::Read),
            6 => Some(MessageStatus::Viewed),
            _ => None,
        }
    }
}

/// How a stretch of text is shown.
#[derive(Debug, Clone, Copy, PartialEq, Eq, Structural)]
pub enum StyleType {
    Bold,
    Italic,
    Spoiler,
    Strikethrough,
    Monospace,
}

/// A styled stretch of a message body, in UTF-16 units.
#[derive(Debug, Clone, Copy, PartialEq, Eq, Structural)]
pub struct TextStyle {
    pub start: usize,
    pub length: usize,
    pub style: StyleType,
}

/// How far an identity is trusted.
#[derive(Debug, Clone, Copy, PartialEq, Eq, Structural)]
pub enum TrustLevel {
    Untrusted,
    TrustedUnverified,
    TrustedVerified,
}

impl DeepView for TrustLevel {
    type V = TrustLevel;

    open spec fn deep_view(&self) -> TrustLevel {
        *self
    }
}

/// A colour.
#[derive(Debug, Clone, Copy, PartialEq, Eq, Structural)]
pub struct Rgb {
    pub red: u8,
    pub green: u8,
    pub blue: u8,
}

/// A cell of an image drawn with half blocks: the colour of its upper and its
/// lower half, none where the image is transparent.
#[derive(Debug, Clone, Copy, PartialEq, Eq, Structural)]
pub struct ImageCell {
    pub upper: Option<Rgb>,
    pub lower: Option<Rgb>,
}

impl DeepView for ImageCell {
    type V = ImageCell;

    open spec fn deep_view(&self) -> ImageCell {
        *self
    }
}

/// An image drawn with half blocks: rows of cells.
pub type ImageLines = Vec<Vec<ImageCell>>;

impl Duplicate for TrustLevel {
    fn duplicate(&self) -> (r: TrustLevel) {
        *self
    }
}

impl Duplicate for ImageCell {
    fn duplicate(&self) -> (r: ImageCell) {
        *self
    }
}

impl DeepView for StyleType {
    type V = StyleType;

    open spec fn deep_view(&self) -> StyleType {
        *self
    }
}

impl Duplicate for StyleType {
    fn duplicate(&self) -> (r: StyleType) {
        *self
    }
}

impl DeepView for TextStyle {
    type V = TextStyle;

    open spec fn deep_view(&self) -> TextStyle {
        *self
    }
}

impl DeepView for MessageStatus {
    type V = MessageStatus;

    open spec fn deep_view(&self) -> MessageStatus {
        *self
    }
}

/// An emoji reaction on a message.
pub struct Reaction {
    pub emoji: String,
    pub sender: String,
}

/// What a [`Reaction`] stands for.
pub struct ReactionView {
    pub emoji: Seq<char>,
    pub sender: Seq<char>,
}

impl DeepView for Reaction {
    type V = ReactionView;

    open spec fn deep_view(&self) -> ReactionView {
        ReactionView {
            emoji: self.emoji@,
            sender: self.sender@,
        }
    }
}

impl Duplicate for Reaction {
    fn duplicate(&self) -> (r: Reaction) {
        Reaction {
            emoji: self.emoji.clone(),
            sender: self.sender.clone(),
        }
    }
}

impl Clone for Reaction {
    fn clone(&self) -> (r: Reaction)
        ensures
            r.deep_view() == self.deep_view(),
    {
        self.duplicate()
    }
}

/// A mention in a message body.
pub struct Mention {
    /// Where its placeholder stands, in UTF-16 units.
    pub start: usize,
    /// How many UTF-16 units the placeholder takes.
    pub length: usize,
    /// Whom it names.
    pub uuid: String,
}

/// What a [`Mention`] stands for.
pub struct MentionView {
    pub start: usize,
    pub length: usize,
    pub uuid: Seq<char>,
}

impl DeepView for Mention {
    type V = MentionView;

    open spec fn deep_view(&self) -> MentionView {
        MentionView {
            start: self.start,
            length: self.length,
            uuid: self.uuid@,
        }
    }
}

impl Duplicate for Mention {
    fn duplicate(&self) -> (r: Mention) {
        Mention {
            start: self.start,
            length: self.length,
            uuid: self.uuid.clone(),
        }
    }
}

impl Clone for Mention {
    fn clone(&self) -> (r: Mention)
        ensures
            r.deep_view() == self.deep_view(),
    {
        self.duplicate()
    }
}

/// One option of a poll.
pub struct PollOption {
    pub id: i64,
    pub text: String,
}

/// What a [`PollOption`] stands for.
pub struct PollOptionView {
    pub id: i64,
    pub text: Seq<char>,
}

impl DeepView for PollOption {
    type V = PollOptionView;

    open spec fn deep_view(&self) -> PollOptionView {
        PollOptionView {
            id: self.id,
            text: self.text@,
        }
    }
}

impl Duplicate for PollOption {
    fn duplicate(&self) -> (r: PollOption) {
        PollOption {
            id: self.id,
            text: self.text.clone(),
        }
    }
}

impl Clone for PollOption {
    fn clone(&self) -> (r: PollOption)
        ensures
            r.deep_view() == self.deep_view(),
    {
        self.duplicate()
    }
}

/// A poll.
pub struct PollData {
    pub question: String,
    pub options: Vec<PollOption>,
    pub allow_multiple: bool,
    pub closed: bool,
}

/// What a [`PollData`] stands for.
pub struct PollDataView {
    pub question: Seq<char>,
    pub options: Seq<PollOptionView>,
    pub allow_multiple: bool,
    pub closed: bool,
}

impl DeepView for PollData {
    type V = PollDataView;

    open spec fn deep_view(&self) -> PollDataView {
        PollDataView {
            question: self.question@,
            options: self.options.deep_view(),
            allow_multiple: self.allow_multiple,
            closed: self.closed,
        }
    }
}

impl Duplicate for PollData {
    fn duplicate(&self) -> (r: PollData) {
        PollData {
            question: self.question.clone(),
            options: self.options.duplicate(),
            allow_multiple: self.allow_multiple,
            closed: self.closed,
        }
    }
}

impl Clone for PollData {
    fn clone(&self) -> (r: PollData)
        ensures
            r.deep_view() == self.deep_view(),
    {
        self.duplicate()
    }
}

/// A vote in a poll.
pub struct PollVote {
    pub voter: String,
    pub voter_name: Option<String>,
    pub option_indexes: Vec<i64>,
    pub vote_count: i64,
}

/// What a [`PollVote`] stands for.
pub struct PollVoteView {
    pub voter: Seq<char>,
    pub voter_name: Option<Seq<char>>,
    pub option_indexes: Seq<i64>,
    pub vote_count: i64,
}

impl DeepView for PollVote {
    type V = PollVoteView;

    open spec fn deep_view(&self) -> PollVoteView {
        PollVoteView {
            voter: self.voter@,
            voter_name: self.voter_name.deep_view(),
            option_indexes: self.option_indexes.deep_view(),
            vote_count: self.vote_count,
        }
    }
}

impl Duplicate for PollVote {
    fn duplicate(&self) -> (r: PollVote) {
        PollVote {
            voter: self.voter.clone(),
            voter_name: self.voter_name.duplicate(),
            option_indexes: self.option_indexes.duplicate(),
            vote_count: self.vote_count,
        }
    }
}

impl Clone for PollVote {
    fn clone(&self) -> (r: PollVote)
        ensures
            r.deep_view() == self.deep_view(),
    {
        self.duplicate()
    }
}

/// What is known of a link in a message.
pub struct LinkPreview {
    pub url: String,
    pub title: Option<String>,
    pub description: Option<String>,
    pub image_path: Option<String>,
}

/// What a [`LinkPreview`] stands for.
pub struct LinkPreviewView {
    pub url: Seq<char>,
    pub title: Option<Seq<char>>,
    pub description: Option<Seq<char>>,
    pub image_path: Option<Seq<char>>,
}

impl DeepView for LinkPreview {
    type V = LinkPreviewView;

    open spec fn deep_view(&self) -> LinkPreviewView {
        LinkPreviewView {
            url: self.url@,
            title: self.title.deep_view(),
            description: self.description.deep_view(),
            image_path: self.image_path.deep_view(),
        }
    }
}

impl Duplicate for LinkPreview {
    fn duplicate(&self) -> (r: LinkPreview) {
        LinkPreview {
            url: self.url.clone(),
            title: self.title.duplicate(),
            description: self.description.duplicate(),
            image_path: self.image_path.duplicate(),
        }
    }
}

impl Clone for LinkPreview {
    fn clone(&self) -> (r: LinkPreview)
        ensures
            r.deep_view() == self.deep_view(),
    {
        self.duplicate()
    }
}

/// An entry of the address book.
pub struct Contact {
    pub number: String,
    pub name: Option<String>,
    pub uuid: Option<String>,
}

/// What a [`Contact`] stands for.
pub struct ContactView {
    pub number: Seq<char>,
    pub name: Option<Seq<char>>,
    pub uuid: Option<Seq<char>>,
}

impl DeepView for Contact {
    type V = ContactView;

    open spec fn deep_view(&self) -> ContactView {
        ContactView {
            number: self.number@,
            name: self.name.deep_view(),
            uuid: self.uuid.deep_view(),
        }
    }
}

impl Duplicate for Contact {
    fn duplicate(&self) -> (r: Contact) {
        Contact {
            number: self.number.clone(),
            name: self.name.duplicate(),
            uuid: self.uuid.duplicate(),
        }
    }
}

impl Clone for Contact {
    fn clone(&self) -> (r: Contact)
        ensures
            r.deep_view() == self.deep_view(),
    {
        self.duplicate()
    }
}

/// A group with its members.
pub struct Group {
    pub id: String,
    pub name: String,
    pub members: Vec<String>,
    /// Pairs of number and uuid.
    pub member_uuids: Vec<(String, String)>,
}

/// What a [`Group`] stands for.
pub struct GroupView {
    pub id: Seq<char>,
    pub name: Seq<char>,
    pub members: Seq<Seq<char>>,
    pub member_uuids: Seq<(Seq<char>, Seq<char>)>,
}

impl DeepView for Group {
    type V = GroupView;

    open spec fn deep_view(&self) -> GroupView {
        GroupView {
            id: self.id@,
            name: self.name@,
            members: self.members.deep_view(),
            member_uuids: self.member_uuids.deep_view(),
        }
    }
}

impl Duplicate for Group {
    fn duplicate(&self) -> (r: Group) {
        Group {
            id: self.id.clone(),
            name: self.name.clone(),
            members: self.members.duplicate(),
            member_uuids: self.member_uuids.duplicate(),
        }
    }
}

impl Clone for Group {
    fn clone(&self) -> (r: Group)
        ensures
            r.deep_view() == self.deep_view(),
    {
        self.duplicate()
    }
}

/// What is known of an identity key.
pub struct IdentityInfo {
    pub number: Option<String>,
    pub uuid: Option<String>,
    pub fingerprint: String,
    pub safety_number: String,
    pub trust_level: TrustLevel,
    pub added_timestamp: i64,
}

/// What a [`IdentityInfo`] stands for.
pub struct IdentityInfoView {
    pub number: Option<Seq<char>>,
    pub uuid: Option<Seq<char>>,
    pub fingerprint: Seq<char>,
    pub safety_number: Seq<char>,
    pub trust_level: TrustLevel,
    pub added_timestamp: i64,
}

impl DeepView for IdentityInfo {
    type V = IdentityInfoView;

    open spec fn deep_view(&self) -> IdentityInfoView {
        IdentityInfoView {
            number: self.number.deep_view(),
            uuid: self.uuid.deep_view(),
            fingerprint: self.fingerprint@,
            safety_number: self.safety_number@,
            trust_level: self.trust_level,
            added_timestamp: self.added_timestamp,
        }
    }
}

impl Duplicate for IdentityInfo {
    fn duplicate(&self) -> (r: IdentityInfo) {
        IdentityInfo {
            number: self.number.duplicate(),
            uuid: self.uuid.duplicate(),
            fingerprint: self.fingerprint.clone(),
            safety_number: self.safety_number.clone(),
            trust_level: self.trust_level,
            added_timestamp: self.added_timestamp,
        }
    }
}

impl Clone for IdentityInfo {
    fn clone(&self) -> (r: IdentityInfo)
        ensures
            r.deep_view() == self.deep_view(),
    {
        self.duplicate()
    }
}

/// A file that came with a message.
pub struct Attachment {
    pub id: String,
    pub content_type: String,
    pub filename: Option<String>,
    /// Where the file lies.
    pub local_path: Option<String>,
    /// The file drawn with half blocks, where it is an image.
    pub rendered: Option<ImageLines>,
}

/// What a [`Attachment`] stands for.
pub struct AttachmentView {
    pub id: Seq<char>,
    pub content_type: Seq<char>,
    pub filename: Option<Seq<char>>,
    pub local_path: Option<Seq<char>>,
    pub rendered: Option<Seq<Seq<ImageCell>>>,
}

impl DeepView for Attachment {
    type V = AttachmentView;

    open spec fn deep_view(&self) -> AttachmentView {
        AttachmentView {
            id: self.id@,
            content_type: self.content_type@,
            filename: self.filename.deep_view(),
            local_path: self.local_path.deep_view(),
            rendered: self.rendered.deep_view(),
        }
    }
}

impl Duplicate for Attachment {
    fn duplicate(&self) -> (r: Attachment) {
        Attachment {
            id: self.id.clone(),
            content_type: self.content_type.clone(),
            filename: self.filename.duplicate(),
            local_path: self.local_path.duplicate(),
            rendered: self.rendered.duplicate(),
        }
    }
}

impl Clone for Attachment {
    fn clone(&self) -> (r: Attachment)
        ensures
            r.deep_view() == self.deep_view(),
    {
        self.duplicate()
    }
}

/// A link preview with its thumbnail drawn with half blocks.
pub struct PreviewArt {
    pub preview: LinkPreview,
    pub lines: Option<ImageLines>,
}

/// What a [`PreviewArt`] stands for.
pub struct PreviewArtView {
    pub preview: LinkPreviewView,
    pub lines: Option<Seq<Seq<ImageCell>>>,
}

impl DeepView for PreviewArt {
    type V = PreviewArtView;

    open spec fn deep_view(&self) -> PreviewArtView {
        PreviewArtView {
            preview: self.preview.deep_view(),
            lines: self.lines.deep_view(),
        }
    }
}

impl Duplicate for PreviewArt {
    fn duplicate(&self) -> (r: PreviewArt) {
        PreviewArt {
            preview: self.preview.duplicate(),
            lines: self.lines.duplicate(),
        }
    }
}

impl Clone for PreviewArt {
    fn clone(&self) -> (r: PreviewArt)
        ensures
            r.deep_view() == self.deep_view(),
    {
        self.duplicate()
    }
}

/// The quote that a message came with.
pub struct WireQuote {
    pub timestamp_ms: i64,
    pub author: String,
    pub body: String,
}

/// What a [`WireQuote`] stands for.
pub struct WireQuoteView {
    pub timestamp_ms: i64,
    pub author: Seq<char>,
    pub body: Seq<char>,
}

impl DeepView for WireQuote {
    type V = WireQuoteView;

    open spec fn deep_view(&self) -> WireQuoteView {
        WireQuoteView {
            timestamp_ms: self.timestamp_ms,
            author: self.author@,
            body: self.body@,
        }
    }
}

impl Duplicate for WireQuote {
    fn duplicate(&self) -> (r: WireQuote) {
        WireQuote {
            timestamp_ms: self.timestamp_ms,
            author: self.author.clone(),
            body: self.body.clone(),
        }
    }
}

impl Clone for WireQuote {
    fn clone(&self) -> (r: WireQuote)
        ensures
            r.deep_view() == self.deep_view(),
    {
        self.duplicate()
    }
}

/// A message as it came from the service.
pub struct SignalMessage {
    pub source: String,
    pub source_name: Option<String>,
    pub source_uuid: Option<String>,
    pub timestamp_ms: i64,
    pub body: Option<String>,
    pub attachments: Vec<Attachment>,
    pub group_id: Option<String>,
    pub group_name: Option<String>,
    pub is_outgoing: bool,
    pub destination: Option<String>,
    pub mentions: Vec<Mention>,
    pub text_styles: Vec<TextStyle>,
    pub quote: Option<WireQuote>,
    pub expires_in_seconds: i64,
    pub previews: Vec<PreviewArt>,
}

/// What a [`SignalMessage`] stands for.
pub struct SignalMessageView {
    pub source: Seq<char>,
    pub source_name: Option<Seq<char>>,
    pub source_uuid: Option<Seq<char>>,
    pub timestamp_ms: i64,
    pub body: Option<Seq<char>>,
    pub attachments: Seq<AttachmentView>,
    pub group_id: Option<Seq<char>>,
    pub group_name: Option<Seq<char>>,
    pub is_outgoing: bool,
    pub destination: Option<Seq<char>>,
    pub mentions: Seq<MentionView>,
    pub text_styles: Seq<TextStyle>,
    pub quote: Option<WireQuoteView>,
    pub expires_in_seconds: i64,
    pub previews: Seq<PreviewArtView>,
}

impl DeepView for SignalMessage {
    type V = SignalMessageView;

    open spec fn deep_view(&self) -> SignalMessageView {
        SignalMessageView {
            source: self.source@,
            source_name: self.source_name.deep_view(),
            source_uuid: self.source_uuid.deep_view(),
            timestamp_ms: self.timestamp_ms,
            body: self.body.deep_view(),
            attachments: self.attachments.deep_view(),
            group_id: self.group_id.deep_view(),
            group_name: self.group_name.deep_view(),
            is_outgoing: self.is_outgoing,
            destination: self.destination.deep_view(),
            mentions: self.mentions.deep_view(),
            text_styles: self.text_styles.deep_view(),
            quote: self.quote.deep_view(),
            expires_in_seconds: self.expires_in_seconds,
            previews: self.previews.deep_view(),
        }
    }
}

/// An event from the service.
pub enum SignalEvent {
    MessageReceived(SignalMessage),
    ReceiptReceived { sender: String, receipt_type: String, timestamps: Vec<i64> },
    SendTimestamp { rpc_id: String, server_ts: i64 },
    SendFailed { rpc_id: String },
    TypingIndicator {
        sender: String,
        sender_name: Option<String>,
        is_typing: bool,
        group_id: Option<String>,
    },
    ReactionReceived {
        conv_id: String,
        emoji: String,
        sender: String,
        sender_name: Option<String>,
        target_author: String,
        target_timestamp: i64,
        is_remove: bool,
    },
    EditReceived { conv_id: String, target_timestamp: i64, new_body: String },
    RemoteDeleteReceived { conv_id: String, target_timestamp: i64 },
    PinReceived {
        conv_id: String,
        sender: String,
        sender_name: Option<String>,
        target_timestamp: i64,
    },
    UnpinReceived {
        conv_id: String,
        sender: String,
        sender_name: Option<String>,
        target_timestamp: i64,
    },
    PollCreated { conv_id: String, timestamp: i64, poll_data: PollData },
    PollVoteReceived {
        conv_id: String,
        target_timestamp: i64,
        voter: String,
        voter_name: Option<String>,
        option_indexes: Vec<i64>,
        vote_count: i64,
    },
    PollTerminated { conv_id: String, target_timestamp: i64 },
    SystemMessage { conv_id: String, body: String, timestamp_ms: i64 },
    ExpirationTimerChanged { conv_id: String, seconds: i64, body: String, timestamp_ms: i64 },
    ReadSyncReceived { read_messages: Vec<(String, i64)> },
    ContactList(Vec<Contact>),
    GroupList(Vec<Group>),
    IdentityList(Vec<IdentityInfo>),
    Error(String),
}

/// What a [`SignalEvent`] stands for.
pub enum SignalEventView {
    MessageReceived(SignalMessageView),
    ReceiptReceived { sender: Seq<char>, receipt_type: Seq<char>, timestamps: Seq<i64> },
    SendTimestamp { rpc_id: Seq<char>, server_ts: i64 },
    SendFailed { rpc_id: Seq<char> },
    TypingIndicator {
        sender: Seq<char>,
        sender_name: Option<Seq<char>>,
        is_typing: bool,
        group_id: Option<Seq<char>>,
    },
    ReactionReceived {
        conv_id: Seq<char>,
        emoji: Seq<char>,
        sender: Seq<char>,
        sender_name: Option<Seq<char>>,
        target_author: Seq<char>,
        target_timestamp: i64,
        is_remove: bool,
    },
    EditReceived { conv_id: Seq<char>, target_timestamp: i64, new_body: Seq<char> },
    RemoteDeleteReceived { conv_id: Seq<char>, target_timestamp: i64 },
    PinReceived {
        conv_id: Seq<char>,
        sender: Seq<char>,
        sender_name: Option<Seq<char>>,
        target_timestamp: i64,
    },
    UnpinReceived {
        conv_id: Seq<char>,
        sender: Seq<char>,
        sender_name: Option<Seq<char>>,
        target_timestamp: i64,
    },
    PollCreated { conv_id: Seq<char>, timestamp: i64, poll_data: PollDataView },
    PollVoteReceived {
        conv_id: Seq<char>,
        target_timestamp: i64,
        voter: Seq<char>,
        voter_name: Option<Seq<char>>,
        option_indexes: Seq<i64>,
        vote_count: i64,
    },
    PollTerminated { conv_id: Seq<char>, target_timestamp: i64 },
    SystemMessage { conv_id: Seq<char>, body: Seq<char>, timestamp_ms: i64 },
    ExpirationTimerChanged { conv_id: Seq<char>, seconds: i64, body: Seq<char>, timestamp_ms: i64 },
    ReadSyncReceived { read_messages: Seq<(Seq<char>, i64)> },
    ContactList(Seq<ContactView>),
    GroupList(Seq<GroupView>),
    IdentityList(Seq<IdentityInfoView>),
    Error(Seq<char>),
}

impl DeepView for SignalEvent {
    type V = SignalEventView;

    open spec fn deep_view(&self) -> SignalEventView {
        match self {
            SignalEvent::MessageReceived(a) => SignalEventView::MessageReceived(a.deep_view()),
            SignalEvent::ReceiptReceived {
                sender,
                receipt_type,
                timestamps,
            } => SignalEventView::ReceiptReceived {
                sender: sender@,
                receipt_type: receipt_type@,
                timestamps: timestamps.deep_view(),
            },
            SignalEvent::SendTimestamp { rpc_id, server_ts } => SignalEventView::SendTimestamp {
                rpc_id: rpc_id@,
                server_ts: *server_ts,
            },
            SignalEvent::SendFailed { rpc_id } => SignalEventView::SendFailed {
                rpc_id: rpc_id@,
            },
            SignalEvent::TypingIndicator {
                sender,
                sender_name,
                is_typing,
                group_id,
            } => SignalEventView::TypingIndicator {
                sender: sender@,
                sender_name: sender_name.deep_view(),
                is_typing: *is_typing,
                group_id: group_id.deep_view(),
            },
            SignalEvent::ReactionReceived {
                conv_id,
                emoji,
                sender,
                sender_name,
                target_author,
                target_timestamp,
                is_remove,
            } => SignalEventView::ReactionReceived {
                conv_id: conv_id@,
                emoji: emoji@,
                sender: sender@,
                sender_name: sender_name.deep_view(),
                target_author: target_author@,
                target_timestamp: *target_timestamp,
                is_remove: *is_remove,
            },
            SignalEvent::EditReceived {
                conv_id,
                target_timestamp,
                new_body,
            } => SignalEventView::EditReceived {
                conv_id: conv_id@,
                target_timestamp: *target_timestamp,
                new_body: new_body@,
            },
            SignalEvent::RemoteDeleteReceived {
                conv_id,
                target_timestamp,
            } => SignalEventView::RemoteDeleteReceived {
                conv_id: conv_id@,
                target_timestamp: *target_timestamp,
            },
            SignalEvent::PinReceived {
                conv_id,
                sender,
                sender_name,
                target_timestamp,
            } => SignalEventView::PinReceived {
                conv_id: conv_id@,
                sender: sender@,
                sender_name: sender_name.deep_view(),
                target_timestamp: *target_timestamp,
            },
            SignalEvent::UnpinReceived {
                conv_id,
                sender,
                sender_name,
                target_timestamp,
            } => SignalEventView::UnpinReceived {
                conv_id: conv_id@,
                sender: sender@,
                sender_name: sender_name.deep_view(),
                target_timestamp: *target_timestamp,
            },
            SignalEvent::PollCreated {
                conv_id,
                timestamp,
                poll_data,
            } => SignalEventView::PollCreated {
                conv_id: conv_id@,
                timestamp: *timestamp,
                poll_data: poll_data.deep_view(),
            },
            SignalEvent::PollVoteReceived {
                conv_id,
                target_timestamp,
                voter,
                voter_name,
                option_indexes,
                vote_count,
            } => SignalEventView::PollVoteReceived {
                conv_id: conv_id@,
                target_timestamp: *target_timestamp,
                voter: voter@,
                voter_name: voter_name.deep_view(),
                option_indexes: option_indexes.deep_view(),
                vote_count: *vote_count,
            },
            SignalEvent::PollTerminated {
                conv_id,
                target_timestamp,
            } => SignalEventView::PollTerminated {
                conv_id: conv_id@,
                target_timestamp: *target_timestamp,
            },
            SignalEvent::SystemMessage {
                conv_id,
                body,
                timestamp_ms,
            } => SignalEventView::SystemMessage {
                conv_id: conv_id@,
                body: body@,
                timestamp_ms: *timestamp_ms,
            },
            SignalEvent::ExpirationTimerChanged {
                conv_id,
                seconds,
                body,
                timestamp_ms,
            } => SignalEventView::ExpirationTimerChanged {
                conv_id: conv_id@,
                seconds: *seconds,
                body: body@,
                timestamp_ms: *timestamp_ms,
            },
            SignalEvent::ReadSyncReceived { read_messages } => SignalEventView::ReadSyncReceived {
                read_messages: read_messages.deep_view(),
            },
            SignalEvent::ContactList(a) => SignalEventView::ContactList(a.deep_view()),
            SignalEvent::GroupList(a) => SignalEventView::GroupList(a.deep_view()),
            SignalEvent::IdentityList(a) => SignalEventView::IdentityList(a.deep_view()),
            SignalEvent::Error(a) => SignalEventView::Error(a@),
        }
    }
}

} // verus!
