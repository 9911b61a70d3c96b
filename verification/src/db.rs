//! What is to be written to the database.
use crate::signal::{LinkPreview, LinkPreviewView, MessageStatus, PollData, PollDataView};
use vstd::prelude::*;

verus! {

/// A change to be made in the database.
pub enum DbWrite {
    UpsertConversation { id: String, name: String, is_group: bool },
    UpdateAccepted { conv_id: String, accepted: bool },
    DeleteConversation { conv_id: String },
    RemoveReaction { conv_id: String, timestamp_ms: i64, author: String, sender: String },
    UpsertReaction {
        conv_id: String,
        timestamp_ms: i64,
        author: String,
        sender: String,
        emoji: String,
    },
    ClosePoll { conv_id: String, timestamp_ms: i64 },
    /// Moves the read marker of a conversation to its last message, where it has one.
    SaveReadMarker { conv_id: String },
    /// Moves the read marker of a conversation to the last message not after a
    /// time, where there is one.
    SaveReadMarkerUpTo { conv_id: String, timestamp_ms: i64 },
    UpdateExpirationTimer { conv_id: String, seconds: i64 },
    InsertMessage {
        conv_id: String,
        sender: String,
        body: String,
        is_system: bool,
        status: Option<MessageStatus>,
        timestamp_ms: i64,
        sender_id: String,
        quote_author: Option<String>,
        quote_body: Option<String>,
        quote_ts_ms: Option<i64>,
        expires_in_seconds: i64,
        expiration_start_ms: i64,
    },
    UpsertLinkPreview { conv_id: String, timestamp_ms: i64, preview: LinkPreview },
    MarkMessageDeleted { conv_id: String, timestamp_ms: i64 },
    UpdateMessageBody { conv_id: String, timestamp_ms: i64, body: String },
    SetMessagePinned { conv_id: String, timestamp_ms: i64, pinned: bool },
    UpsertPollData { conv_id: String, timestamp_ms: i64, poll: PollData },
    UpsertPollVote {
        conv_id: String,
        timestamp_ms: i64,
        voter: String,
        voter_name: Option<String>,
        option_indexes: Vec<i64>,
        vote_count: i64,
    },
    UpdateMessageTimestamp { conv_id: String, old_ts_ms: i64, new_ts_ms: i64, status_code: i32 },
    UpdateMessageStatus { conv_id: String, timestamp_ms: i64, status_code: i32 },
    SetMuted { conv_id: String, muted: bool },
    SetBlocked { conv_id: String, blocked: bool },
}

/// What a [`DbWrite`] stands for.
pub enum DbWriteView {
    UpsertConversation { id: Seq<char>, name: Seq<char>, is_group: bool },
    UpdateAccepted { conv_id: Seq<char>, accepted: bool },
    DeleteConversation { conv_id: Seq<char> },
    RemoveReaction { conv_id: Seq<char>, timestamp_ms: i64, author: Seq<char>, sender: Seq<char> },
    UpsertReaction {
        conv_id: Seq<char>,
        timestamp_ms: i64,
        author: Seq<char>,
        sender: Seq<char>,
        emoji: Seq<char>,
    },
    ClosePoll { conv_id: Seq<char>, timestamp_ms: i64 },
    SaveReadMarker { conv_id: Seq<char> },
    SaveReadMarkerUpTo { conv_id: Seq<char>, timestamp_ms: i64 },
    UpdateExpirationTimer { conv_id: Seq<char>, seconds: i64 },
    InsertMessage {
        conv_id: Seq<char>,
        sender: Seq<char>,
        body: Seq<char>,
        is_system: bool,
        status: Option<MessageStatus>,
        timestamp_ms: i64,
        sender_id: Seq<char>,
        quote_author: Option<Seq<char>>,
        quote_body: Option<Seq<char>>,
        quote_ts_ms: Option<i64>,
        expires_in_seconds: i64,
        expiration_start_ms: i64,
    },
    UpsertLinkPreview { conv_id: Seq<char>, timestamp_ms: i64, preview: LinkPreviewView },
    MarkMessageDeleted { conv_id: Seq<char>, timestamp_ms: i64 },
    UpdateMessageBody { conv_id: Seq<char>, timestamp_ms: i64, body: Seq<char> },
    SetMessagePinned { conv_id: Seq<char>, timestamp_ms: i64, pinned: bool },
    UpsertPollData { conv_id: Seq<char>, timestamp_ms: i64, poll: PollDataView },
    UpsertPollVote {
        conv_id: Seq<char>,
        timestamp_ms: i64,
        voter: Seq<char>,
        voter_name: Option<Seq<char>>,
        option_indexes: Seq<i64>,
        vote_count: i64,
    },
    UpdateMessageTimestamp { conv_id: Seq<char>, old_ts_ms: i64, new_ts_ms: i64, status_code: i32 },
    UpdateMessageStatus { conv_id: Seq<char>, timestamp_ms: i64, status_code: i32 },
    SetMuted { conv_id: Seq<char>, muted: bool },
    SetBlocked { conv_id: Seq<char>, blocked: bool },
}

impl DeepView for DbWrite {
    type V = DbWriteView;

    open spec fn deep_view(&self) -> DbWriteView {
        match self {
            DbWrite::UpsertConversation { id, name, is_group } => DbWriteView::UpsertConversation {
                id: id@,
                name: name@,
                is_group: *is_group,
            },
            DbWrite::UpdateAccepted { conv_id, accepted } => DbWriteView::UpdateAccepted {
                conv_id: conv_id@,
                accepted: *accepted,
            },
            DbWrite::DeleteConversation { conv_id } => DbWriteView::DeleteConversation {
                conv_id: conv_id@,
            },
            DbWrite::RemoveReaction {
                conv_id,
                timestamp_ms,
                author,
                sender,
            } => DbWriteView::RemoveReaction {
                conv_id: conv_id@,
                timestamp_ms: *timestamp_ms,
                author: author@,
                sender: sender@,
            },
            DbWrite::UpsertReaction {
                conv_id,
                timestamp_ms,
                author,
                sender,
                emoji,
            } => DbWriteView::UpsertReaction {
                conv_id: conv_id@,
                timestamp_ms: *timestamp_ms,
                author: author@,
                sender: sender@,
                emoji: emoji@,
            },
            DbWrite::ClosePoll { conv_id, timestamp_ms } => DbWriteView::ClosePoll {
                conv_id: conv_id@,
                timestamp_ms: *timestamp_ms,
            },
            DbWrite::SaveReadMarker { conv_id } => DbWriteView::SaveReadMarker {
                conv_id: conv_id@,
            },
            DbWrite::SaveReadMarkerUpTo {
                conv_id,
                timestamp_ms,
            } => DbWriteView::SaveReadMarkerUpTo {
                conv_id: conv_id@,
                timestamp_ms: *timestamp_ms,
            },
            DbWrite::UpdateExpirationTimer {
                conv_id,
                seconds,
            } => DbWriteView::UpdateExpirationTimer {
                conv_id: conv_id@,
                seconds: *seconds,
            },
            DbWrite::InsertMessage {
                conv_id,
                sender,
                body,
                is_system,
                status,
                timestamp_ms,
                sender_id,
                quote_author,
                quote_body,
                quote_ts_ms,
                expires_in_seconds,
                expiration_start_ms,
            } => DbWriteView::InsertMessage {
                conv_id: conv_id@,
                sender: sender@,
                body: body@,
                is_system: *is_system,
                status: *status,
                timestamp_ms: *timestamp_ms,
                sender_id: sender_id@,
                quote_author: quote_author.deep_view(),
                quote_body: quote_body.deep_view(),
                quote_ts_ms: *quote_ts_ms,
                expires_in_seconds: *expires_in_seconds,
                expiration_start_ms: *expiration_start_ms,
            },
            DbWrite::UpsertLinkPreview {
                conv_id,
                timestamp_ms,
                preview,
            } => DbWriteView::UpsertLinkPreview {
                conv_id: conv_id@,
                timestamp_ms: *timestamp_ms,
                preview: preview.deep_view(),
            },
            DbWrite::MarkMessageDeleted {
                conv_id,
                timestamp_ms,
            } => DbWriteView::MarkMessageDeleted {
                conv_id: conv_id@,
                timestamp_ms: *timestamp_ms,
            },
            DbWrite::UpdateMessageBody {
                conv_id,
                timestamp_ms,
                body,
            } => DbWriteView::UpdateMessageBody {
                conv_id: conv_id@,
                timestamp_ms: *timestamp_ms,
                body: body@,
            },
            DbWrite::SetMessagePinned {
                conv_id,
                timestamp_ms,
                pinned,
            } => DbWriteView::SetMessagePinned {
                conv_id: conv_id@,
                timestamp_ms: *timestamp_ms,
                pinned: *pinned,
            },
            DbWrite::UpsertPollData { conv_id, timestamp_ms, poll } => DbWriteView::UpsertPollData {
                conv_id: conv_id@,
                timestamp_ms: *timestamp_ms,
                poll: poll.deep_view(),
            },
            DbWrite::UpsertPollVote {
                conv_id,
                timestamp_ms,
                voter,
                voter_name,
                option_indexes,
                vote_count,
            } => DbWriteView::UpsertPollVote {
                conv_id: conv_id@,
                timestamp_ms: *timestamp_ms,
                voter: voter@,
                voter_name: voter_name.deep_view(),
                option_indexes: option_indexes.deep_view(),
                vote_count: *vote_count,
            },
            DbWrite::UpdateMessageTimestamp {
                conv_id,
                old_ts_ms,
                new_ts_ms,
                status_code,
            } => DbWriteView::UpdateMessageTimestamp {
                conv_id: conv_id@,
                old_ts_ms: *old_ts_ms,
                new_ts_ms: *new_ts_ms,
                status_code: *status_code,
            },
            DbWrite::UpdateMessageStatus {
                conv_id,
                timestamp_ms,
                status_code,
            } => DbWriteView::UpdateMessageStatus {
                conv_id: conv_id@,
                timestamp_ms: *timestamp_ms,
                status_code: *status_code,
            },
            DbWrite::SetMuted { conv_id, muted } => DbWriteView::SetMuted {
                conv_id: conv_id@,
                muted: *muted,
            },
            DbWrite::SetBlocked { conv_id, blocked } => DbWriteView::SetBlocked {
                conv_id: conv_id@,
                blocked: *blocked,
            },
        }
    }
}

/// A change to be made in the database, and what is told where it fails.
pub struct DbJob {
    pub write: DbWrite,
    /// What the failure is reported under.
    pub context: &'static str,
    /// Whether the failure is shown in the status line.
    pub visible: bool,
}

/// What a [`DbJob`] stands for.
pub struct DbJobView {
    pub write: DbWriteView,
    pub context: Seq<char>,
    pub visible: bool,
}

impl DeepView for DbJob {
    type V = DbJobView;

    open spec fn deep_view(&self) -> DbJobView {
        DbJobView {
            write: self.write.deep_view(),
            context: self.context@,
            visible: self.visible,
        }
    }
}

/// A job whose failure is only logged.
pub open spec fn quiet(write: DbWriteView, context: Seq<char>) -> DbJobView {
    DbJobView { write, context, visible: false }
}

/// A job whose failure is shown.
pub open spec fn shown(write: DbWriteView, context: Seq<char>) -> DbJobView {
    DbJobView { write, context, visible: true }
}

/// Adds a job to a list.
pub fn enqueue(jobs: &mut Vec<DbJob>, write: DbWrite, context: &'static str, visible: bool)
    ensures
        final(jobs).deep_view() == old(jobs).deep_view().push(
            (DbJobView { write: write.deep_view(), context: context@, visible }),
        ),
{
    let job = DbJob { write, context, visible };
    jobs.push(job);
    assert(jobs.deep_view() =~= old(jobs).deep_view().push(job.deep_view()));
}

} // verus!
