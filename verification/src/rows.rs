//! Messages as the database gives them.
use crate::conversation_store::{new_message, plain_message, DisplayMessage, DisplayMessageView};
use crate::signal::MessageStatus;
use vstd::prelude::*;

verus! {

/// The time, in milliseconds since the epoch, that `chrono` reads from a text in
/// the form of RFC 3339. None for a text that it cannot read.
pub uninterp spec fn rfc3339_time(text: Seq<char>) -> Option<i64>;

/// Calls `chrono::DateTime::parse_from_rfc3339`, and `timestamp_millis` on what it
/// gives. That the result is [`rfc3339_time`] of the text is claimed; which texts
/// can be read, and as what, is not.
#[verifier::external_body]
fn read_rfc3339(text: &str) -> (r: Option<i64>)
    ensures
        r == rfc3339_time(text@),
{
    match chrono::DateTime::parse_from_rfc3339(text) {
        Ok(time) => Some(time.timestamp_millis()),
        Err(_) => None,
    }
}

/// A row of the table of messages.
pub struct MessageRow {
    pub sender: String,
    /// When it was sent, in the form of RFC 3339.
    pub timestamp: String,
    pub body: String,
    pub is_system: bool,
    /// The number of its status; 0 where it has none.
    pub status: i32,
    pub timestamp_ms: i64,
}

/// What a [`MessageRow`] stands for.
pub struct MessageRowView {
    pub sender: Seq<char>,
    pub timestamp: Seq<char>,
    pub body: Seq<char>,
    pub is_system: bool,
    pub status: i32,
    pub timestamp_ms: i64,
}

impl DeepView for MessageRow {
    type V = MessageRowView;

    open spec fn deep_view(&self) -> MessageRowView {
        MessageRowView {
            sender: self.sender@,
            timestamp: self.timestamp@,
            body: self.body@,
            is_system: self.is_system,
            status: self.status,
            timestamp_ms: self.timestamp_ms,
        }
    }
}

/// The status that a number stands for.
pub open spec fn status_numbered(n: i32) -> Option<MessageStatus> {
    if n == 1 {
        Some(MessageStatus::Failed)
    } else if n == 2 {
        Some(MessageStatus::Sending)
    } else if n == 3 {
        Some(MessageStatus::Sent)
    } else if n == 4 {
        Some(MessageStatus::Delivered)
    } else if n == 5 {
        Some(MessageStatus::Read)
    } else if n == 6 {
        Some(MessageStatus::Viewed)
    } else {
        None
    }
}

/// The message of a row that was sent at a time.
pub open spec fn row_message(row: MessageRowView, time: i64) -> DisplayMessageView {
    DisplayMessageView {
        timestamp: time,
        is_system: row.is_system,
        status: status_numbered(row.status),
        ..plain_message(row.sender, Seq::empty(), row.timestamp_ms, row.body)
    }
}

/// The messages of rows, the last row first. Rows whose time cannot be read give
/// none.
pub open spec fn rows_messages(rows: Seq<MessageRowView>) -> Seq<DisplayMessageView>
    decreases rows.len(),
{
    if rows.len() == 0 {
        Seq::empty()
    } else {
        let rest = rows_messages(rows.skip(1));
        match rfc3339_time(rows[0].timestamp) {
            Some(t) => rest.push(row_message(rows[0], t)),
            None => rest,
        }
    }
}

/// The number of a status stands for it, and 0 for none.
pub proof fn statuses_read_back(s: MessageStatus)
    ensures
        status_numbered(s.rank() as i32) == Some(s),
        status_numbered(0) is None,
{
}

fn message_of_row(row: &MessageRow, time: i64) -> (r: DisplayMessage)
    ensures
        r.deep_view() == row_message(row.deep_view(), time),
{
    let nobody = String::new();
    assert(nobody@ =~= Seq::<char>::empty());
    let mut m = new_message(row.sender.clone(), nobody, row.timestamp_ms, row.body.clone());
    m.timestamp = time;
    m.is_system = row.is_system;
    m.status = MessageStatus::from_i32(row.status);
    m
}

/// The messages of rows that come newest first: the oldest first, without those
/// whose time cannot be read.
pub fn messages_of_rows(rows: &Vec<MessageRow>) -> (r: Vec<DisplayMessage>)
    ensures
        r.deep_view() == rows_messages(rows.deep_view()),
{
    let ghost s = rows.deep_view();
    let mut out: Vec<DisplayMessage> = Vec::new();
    let mut i: usize = rows.len();
    assert(s.skip(i as int) =~= Seq::<MessageRowView>::empty());
    assert(out.deep_view() =~= rows_messages(s.skip(i as int)));
    while i > 0
        invariant
            i <= rows@.len(),
            s == rows.deep_view(),
            out.deep_view() == rows_messages(s.skip(i as int)),
        decreases i,
    {
        i -= 1;
        assert(s.skip(i as int).skip(1) =~= s.skip(i + 1));
        assert(s.skip(i as int)[0] == rows@[i as int].deep_view());
        if let Some(time) = read_rfc3339(rows[i].timestamp.as_str()) {
            let ghost before = out.deep_view();
            let m = message_of_row(&rows[i], time);
            out.push(m);
            assert(out.deep_view() =~= before.push(m.deep_view()));
        }
    }
    assert(s.skip(0) =~= s);
    out
}

} // verus!
