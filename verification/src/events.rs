//! Events from the service other than new messages and receipts.
use crate::app::{
    App, AppView, PendingPoll, PendingPollView, PollVoteOverlayStateView, TypingStateView,
};
use crate::conversation_store::{
    find_message, msg_at, ConversationStoreView, ConversationView, DisplayMessage,
    DisplayMessageView,
};
use crate::db::{shown, DbWrite, DbWriteView};
use crate::directory::{contacts_taken, groups_taken, identities_taken};
use crate::messages::{find_poll, message_taken, poll_place, system_said};
use crate::receipts::{read_synced, receipts_taken, send_answered, send_failed};
use crate::signal::{
    Duplicate, MentionView, PollData, PollDataView, PollVote, PollVoteView, Reaction, ReactionView,
    SignalEvent, SignalEventView,
};
use crate::common::filter_keeps_all;
use crate::navigation::ensured;
use crate::strmap::{at, del, holds, look, put, put_new};
use crate::text::{concat2, concat3, same};
use vstd::prelude::*;

verus! {

// ---------------------------------------------------------------------------
// Finding and changing a message
// ---------------------------------------------------------------------------

/// The place of the message of a time in a conversation.
pub open spec fn located(a: AppView, id: Seq<char>, ts: i64) -> Option<int> {
    match look(a.store.conversations, id) {
        Some(c) => msg_at(c.messages, ts),
        None => None,
    }
}

/// The message at a place of a conversation.
pub open spec fn message_in(a: AppView, id: Seq<char>, i: int) -> DisplayMessageView {
    at(a.store.conversations, id).messages[i]
}

impl App {
    /// Finds the message of a time in a conversation.
    pub fn locate(&self, id: &str, ts: i64) -> (r: Option<(usize, DisplayMessage)>)
        ensures
            match r {
                Some((i, m)) => located(self.state(), id@, ts) == Some(i as int) && holds(
                    self.state().store.conversations,
                    id@,
                ) && i < at(self.state().store.conversations, id@).messages.len() && m.deep_view()
                    == message_in(self.state(), id@, i as int),
                None => located(self.state(), id@, ts) is None,
            },
    {
        reveal(App::state);
        match self.store.conversations.get(id) {
            Some(c) => match find_message(&c.messages, ts) {
                Some(i) => {
                    let m = c.messages[i].duplicate();
                    assert(m.deep_view() == c.messages.deep_view()[i as int]);
                    Some((i, m))
                },
                None => None,
            },
            None => None,
        }
    }

    /// Puts a message in the place of another.
    pub fn replace_message(&mut self, id: &str, i: usize, m: DisplayMessage)
        requires
            holds(old(self).state().store.conversations, id@),
            i < at(old(self).state().store.conversations, id@).messages.len(),
        ensures
            final(self).state() == old(self).state().with_msg(id@, i as int, m.deep_view()),
    {
        reveal(App::state);
        if let Some(c) = self.store.conversations.get_mut(id) {
            let ghost before = c.messages.deep_view();
            c.messages.set(i, m);
            assert(c.messages.deep_view() =~= before.update(i as int, m.deep_view()));
        }
    }
}

// ---------------------------------------------------------------------------
// Reactions
// ---------------------------------------------------------------------------

/// The first reaction from `i` on of someone, or their number.
pub open spec fn reaction_place(s: Seq<ReactionView>, sender: Seq<char>, i: int) -> int
    decreases s.len() - i,
{
    if i < 0 || i >= s.len() {
        s.len() as int
    } else if s[i].sender == sender {
        i
    } else {
        reaction_place(s, sender, i + 1)
    }
}

/// Reactions with that of someone set: one for each sender.
pub open spec fn reaction_set(
    s: Seq<ReactionView>,
    sender: Seq<char>,
    emoji: Seq<char>,
) -> Seq<ReactionView> {
    let p = reaction_place(s, sender, 0);
    if p < s.len() {
        s.update(p, ReactionView { emoji, sender: s[p].sender })
    } else {
        s.push(ReactionView { emoji, sender })
    }
}

/// Reactions without those of someone.
pub open spec fn reaction_removed(s: Seq<ReactionView>, sender: Seq<char>) -> Seq<ReactionView> {
    s.filter(|r: ReactionView| r.sender != sender)
}

/// Nobody has reacted twice.
pub open spec fn one_per_sender(s: Seq<ReactionView>) -> bool {
    forall|i: int, j: int| 0 <= i < j < s.len() ==> (#[trigger] s[i]).sender != (#[trigger] s[j]).sender
}

/// What `reaction_place` finds.
pub proof fn reaction_place_finds(s: Seq<ReactionView>, sender: Seq<char>, i: int)
    requires
        0 <= i <= s.len(),
    ensures
        i <= reaction_place(s, sender, i) <= s.len(),
        reaction_place(s, sender, i) < s.len() ==> s[reaction_place(s, sender, i)].sender == sender,
        forall|j: int| i <= j < reaction_place(s, sender, i) ==> (#[trigger] s[j]).sender != sender,
    decreases s.len() - i,
{
    if i < s.len() && s[i].sender != sender {
        reaction_place_finds(s, sender, i + 1);
    }
}

/// Reacting leaves one reaction for each sender, and that of the sender is the
/// new one.
pub proof fn one_reaction_per_sender(s: Seq<ReactionView>, sender: Seq<char>, emoji: Seq<char>)
    requires
        one_per_sender(s),
    ensures
        one_per_sender(reaction_set(s, sender, emoji)),
        reaction_set(s, sender, emoji).contains(ReactionView { emoji, sender }),
{
    reaction_place_finds(s, sender, 0);
    let p = reaction_place(s, sender, 0);
    let t = reaction_set(s, sender, emoji);
    if p < s.len() {
        assert(t[p] == ReactionView { emoji, sender });
    } else {
        assert(t[s.len() as int] == ReactionView { emoji, sender });
    }
}

/// Taking back a reaction that was just added leaves the reactions as they were.
pub proof fn removing_undoes_reacting(s: Seq<ReactionView>, sender: Seq<char>, emoji: Seq<char>)
    requires
        forall|i: int| 0 <= i < s.len() ==> (#[trigger] s[i]).sender != sender,
    ensures
        reaction_removed(reaction_set(s, sender, emoji), sender) == s,
{
    reaction_place_finds(s, sender, 0);
    let r = ReactionView { emoji, sender };
    let p = |r: ReactionView| r.sender != sender;
    reveal(Seq::filter);
    assert(s.push(r).drop_last() =~= s);
    filter_keeps_all(s, p);
}

/// Sets the reaction of someone.
pub fn set_reaction(v: &mut Vec<Reaction>, sender: &str, emoji: &str)
    ensures
        final(v).deep_view() == reaction_set(old(v).deep_view(), sender@, emoji@),
{
    let ghost s = v.deep_view();
    let mut i: usize = 0;
    while i < v.len() && !same(v[i].sender.as_str(), sender)
        invariant
            i <= v@.len(),
            s == v.deep_view(),
            *v == *old(v),
            reaction_place(s, sender@, 0) == reaction_place(s, sender@, i as int),
        decreases v@.len() - i,
    {
        assert(s[i as int] == v@[i as int].deep_view());
        i += 1;
    }
    if i < v.len() {
        assert(s[i as int] == v@[i as int].deep_view());
        v[i].emoji = emoji.to_string();
    } else {
        v.push(Reaction { emoji: emoji.to_string(), sender: sender.to_string() });
    }
    assert(v.deep_view() =~= reaction_set(s, sender@, emoji@));
}

/// Takes out the reactions of someone; only those with an emoji, where one is
/// given.
pub fn drop_reactions(v: &Vec<Reaction>, sender: &str, emoji: Option<&str>) -> (r: Vec<Reaction>)
    ensures
        r.deep_view() == v.deep_view().filter(
            |x: ReactionView|
                !(x.sender == sender@ && match emoji {
                    Some(e) => x.emoji == e@,
                    None => true,
                }),
        ),
{
    let ghost s = v.deep_view();
    let ghost p = |x: ReactionView|
        !(x.sender == sender@ && match emoji {
            Some(e) => x.emoji == e@,
            None => true,
        });
    let mut out: Vec<Reaction> = Vec::new();
    let mut i: usize = 0;
    proof {
        crate::common::filter_none(s, p);
    }
    assert(out.deep_view() =~= s.take(0).filter(p));
    while i < v.len()
        invariant
            i <= v@.len(),
            s == v.deep_view(),
            p == |x: ReactionView|
                !(x.sender == sender@ && match emoji {
                    Some(e) => x.emoji == e@,
                    None => true,
                }),
            out.deep_view() == s.take(i as int).filter(p),
        decreases v@.len() - i,
    {
        proof {
            crate::common::filter_take(s, i as int, p);
            assert(s[i as int] == v@[i as int].deep_view());
        }
        let gone = same(v[i].sender.as_str(), sender) && match emoji {
            Some(e) => same(v[i].emoji.as_str(), e),
            None => true,
        };
        if !gone {
            let ghost before = out.deep_view();
            let x = v[i].duplicate();
            out.push(x);
            assert(out.deep_view() =~= before.push(x.deep_view()));
        }
        i += 1;
    }
    assert(s.take(s.len() as int) =~= s);
    out
}

/// A reaction is meant for a message: its sender is the author that the
/// reaction names, by number or by name.
pub open spec fn is_target(a: AppView, m: DisplayMessageView, author: Seq<char>) -> bool {
    if m.sender == "you"@ {
        author == a.account
    } else {
        m.sender == author || look(a.store.contact_names, author) == Some(m.sender)
    }
}

/// The state after a reaction to a message, or after one was taken back.
#[verifier::opaque]
pub open spec fn reacted(
    a: AppView,
    id: Seq<char>,
    emoji: Seq<char>,
    sender: Seq<char>,
    author: Seq<char>,
    ts: i64,
    remove: bool,
) -> AppView {
    let name = if sender == a.account {
        "you"@
    } else {
        a.name_of(sender)
    };
    let b = match located(a, id, ts) {
        Some(i) => {
            let m = message_in(a, id, i);
            if is_target(a, m, author) {
                a.with_msg(
                    id,
                    i,
                    DisplayMessageView {
                        reactions: if remove {
                            reaction_removed(m.reactions, name)
                        } else {
                            reaction_set(m.reactions, name, emoji)
                        },
                        ..m
                    },
                )
            } else {
                a
            }
        },
        None => a,
    };
    if remove {
        b.write(
            shown(
                DbWriteView::RemoveReaction { conv_id: id, timestamp_ms: ts, author, sender },
                "remove_reaction"@,
            ),
        )
    } else {
        b.write(
            shown(
                DbWriteView::UpsertReaction { conv_id: id, timestamp_ms: ts, author, sender, emoji },
                "upsert_reaction"@,
            ),
        )
    }
}

impl App {
    /// The name that a number is shown under; `you` for one's own.
    pub fn name_or_you(&self, number: &str) -> (r: String)
        ensures
            r@ == if number@ == self.state().account {
                "you"@
            } else {
                self.state().name_of(number@)
            },
    {
        assert(self.account@ == self.state().account) by {
            reveal(App::state);
        }
        if same(number, self.account.as_str()) {
            "you".to_string()
        } else {
            self.display_name(number)
        }
    }

    fn targets(&self, m: &DisplayMessage, author: &str) -> (r: bool)
        ensures
            r == is_target(self.state(), m.deep_view(), author@),
    {
        reveal(App::state);
        if same(m.sender.as_str(), "you") {
            same(author, self.account.as_str())
        } else {
            same(m.sender.as_str(), author) || match self.store.contact_names.get(author) {
                Some(name) => same(name.as_str(), m.sender.as_str()),
                None => false,
            }
        }
    }

    /// Takes a reaction to a message.
    pub fn handle_reaction(
        &mut self,
        conv_id: &str,
        emoji: &str,
        sender: &str,
        target_author: &str,
        target_timestamp: i64,
        is_remove: bool,
    )
        ensures
            final(self).state() == reacted(
                old(self).state(),
                conv_id@,
                emoji@,
                sender@,
                target_author@,
                target_timestamp,
                is_remove,
            ),
    {
        reveal(reacted);
        let name = self.name_or_you(sender);
        if let Some((i, mut m)) = self.locate(conv_id, target_timestamp) {
            let ghost before = m.deep_view();
            if self.targets(&m, target_author) {
                if is_remove {
                    m.reactions = drop_reactions(&m.reactions, name.as_str(), None);
                    proof {
                        let p = |x: ReactionView| !(x.sender == name@ && true);
                        let q = |r: ReactionView| r.sender != name@;
                        let none: Option<&str> = None;
                        let w = |x: ReactionView|
                            !(x.sender == name@ && match none {
                                Some(e) => x.emoji == e@,
                                None => true,
                            });
                        assert(w =~= q);
                    }
                } else {
                    set_reaction(&mut m.reactions, name.as_str(), emoji);
                }
                self.replace_message(conv_id, i, m);
            }
        }
        if is_remove {
            self.record(
                DbWrite::RemoveReaction {
                    conv_id: conv_id.to_string(),
                    timestamp_ms: target_timestamp,
                    author: target_author.to_string(),
                    sender: sender.to_string(),
                },
                "remove_reaction",
                true,
            );
        } else {
            self.record(
                DbWrite::UpsertReaction {
                    conv_id: conv_id.to_string(),
                    timestamp_ms: target_timestamp,
                    author: target_author.to_string(),
                    sender: sender.to_string(),
                    emoji: emoji.to_string(),
                },
                "upsert_reaction",
                true,
            );
        }
    }
}

// ---------------------------------------------------------------------------
// Edits, deletions, pins
// ---------------------------------------------------------------------------

/// A message with another text, in which nobody is mentioned.
pub open spec fn with_plain_text(m: DisplayMessageView, body: Seq<char>) -> DisplayMessageView {
    DisplayMessageView {
        body,
        body_raw: None,
        mentions: Seq::empty(),
        mention_ranges: Seq::empty(),
        ..m
    }
}

/// The state after the text of a message was edited.
#[verifier::opaque]
pub open spec fn text_edited(a: AppView, id: Seq<char>, ts: i64, body: Seq<char>) -> AppView {
    let b = match located(a, id, ts) {
        Some(i) => a.with_msg(
            id,
            i,
            DisplayMessageView {
                is_edited: true,
                ..with_plain_text(message_in(a, id, i), body)
            },
        ),
        None => a,
    };
    b.write(
        shown(
            DbWriteView::UpdateMessageBody { conv_id: id, timestamp_ms: ts, body },
            "update_message_body"@,
        ),
    )
}

/// A message that was deleted: its text and its reactions are gone.
pub open spec fn deleted_message(m: DisplayMessageView) -> DisplayMessageView {
    DisplayMessageView {
        is_deleted: true,
        reactions: Seq::empty(),
        ..with_plain_text(m, "[deleted]"@)
    }
}

/// The state after a message was deleted.
#[verifier::opaque]
pub open spec fn message_deleted(a: AppView, id: Seq<char>, ts: i64) -> AppView {
    let b = match located(a, id, ts) {
        Some(i) => a.with_msg(id, i, deleted_message(message_in(a, id, i))),
        None => a,
    };
    b.write(
        shown(
            DbWriteView::MarkMessageDeleted { conv_id: id, timestamp_ms: ts },
            "mark_message_deleted"@,
        ),
    )
}

/// The state after a message was pinned, or no more so.
#[verifier::opaque]
pub open spec fn pin_set(a: AppView, id: Seq<char>, ts: i64, pinned: bool) -> AppView {
    let b = match located(a, id, ts) {
        Some(i) => a.with_msg(
            id,
            i,
            DisplayMessageView { is_pinned: pinned, ..message_in(a, id, i) },
        ),
        None => a,
    };
    b.write(
        shown(
            DbWriteView::SetMessagePinned { conv_id: id, timestamp_ms: ts, pinned },
            "set_message_pinned"@,
        ),
    )
}

/// The state after someone pinned a message, or no more so; the conversation
/// tells of it.
#[verifier::opaque]
pub open spec fn pin_told(
    a: AppView,
    id: Seq<char>,
    sender: Seq<char>,
    ts: i64,
    pinned: bool,
    now_ms: i64,
) -> AppView {
    let b = pin_set(a, id, ts, pinned);
    let name = if sender == b.account {
        "you"@
    } else {
        b.name_of(sender)
    };
    system_said(
        b,
        id,
        name + " "@ + (if pinned {
            "pinned"@
        } else {
            "unpinned"@
        }) + " a message"@,
        now_ms,
    )
}

/// Gives a message another text, in which nobody is mentioned.
pub fn set_plain_text(m: &mut DisplayMessage, body: &str)
    ensures
        final(m).deep_view() == with_plain_text(old(m).deep_view(), body@),
{
    m.body = body.to_string();
    m.body_raw = None;
    m.mentions = Vec::new();
    m.mention_ranges = Vec::new();
    assert(m.mentions.deep_view() =~= Seq::<MentionView>::empty());
    assert(m.mention_ranges.deep_view() =~= Seq::<(usize, usize)>::empty());
}

/// Makes a message a deleted one.
pub fn delete_contents(m: &mut DisplayMessage)
    ensures
        final(m).deep_view() == deleted_message(old(m).deep_view()),
{
    m.is_deleted = true;
    set_plain_text(m, "[deleted]");
    m.reactions = Vec::new();
    assert(m.reactions.deep_view() =~= Seq::<ReactionView>::empty());
}

impl App {
    /// Takes the new text of a message.
    pub fn handle_edit_received(&mut self, conv_id: &str, target_timestamp: i64, new_body: &str)
        ensures
            final(self).state() == text_edited(
                old(self).state(),
                conv_id@,
                target_timestamp,
                new_body@,
            ),
    {
        reveal(text_edited);
        if let Some((i, mut m)) = self.locate(conv_id, target_timestamp) {
            set_plain_text(&mut m, new_body);
            m.is_edited = true;
            self.replace_message(conv_id, i, m);
        }
        self.record(
            DbWrite::UpdateMessageBody {
                conv_id: conv_id.to_string(),
                timestamp_ms: target_timestamp,
                body: new_body.to_string(),
            },
            "update_message_body",
            true,
        );
    }

    /// Takes the news that a message was deleted.
    pub fn handle_remote_delete(&mut self, conv_id: &str, target_timestamp: i64)
        ensures
            final(self).state() == message_deleted(old(self).state(), conv_id@, target_timestamp),
    {
        reveal(message_deleted);
        if let Some((i, mut m)) = self.locate(conv_id, target_timestamp) {
            delete_contents(&mut m);
            self.replace_message(conv_id, i, m);
        }
        self.record(
            DbWrite::MarkMessageDeleted {
                conv_id: conv_id.to_string(),
                timestamp_ms: target_timestamp,
            },
            "mark_message_deleted",
            true,
        );
    }

    /// Pins a message, or no more so.
    pub fn set_pinned(&mut self, conv_id: &str, target_timestamp: i64, pinned: bool)
        ensures
            final(self).state() == pin_set(old(self).state(), conv_id@, target_timestamp, pinned),
    {
        reveal(pin_set);
        if let Some((i, mut m)) = self.locate(conv_id, target_timestamp) {
            m.is_pinned = pinned;
            self.replace_message(conv_id, i, m);
        }
        self.record(
            DbWrite::SetMessagePinned {
                conv_id: conv_id.to_string(),
                timestamp_ms: target_timestamp,
                pinned,
            },
            "set_message_pinned",
            true,
        );
    }

    /// Takes the news that someone pinned a message, or no more so.
    pub fn handle_pin_received(
        &mut self,
        conv_id: &str,
        sender: &str,
        target_timestamp: i64,
        pinned: bool,
        now_ms: i64,
    )
        ensures
            final(self).state() == pin_told(
                old(self).state(),
                conv_id@,
                sender@,
                target_timestamp,
                pinned,
                now_ms,
            ),
    {
        reveal(pin_told);
        self.set_pinned(conv_id, target_timestamp, pinned);
        let name = self.name_or_you(sender);
        let action = if pinned {
            "pinned"
        } else {
            "unpinned"
        };
        let a = concat3(name.as_str(), " ", action);
        let body = concat2(a.as_str(), " a message");
        self.handle_system_message(conv_id, body.as_str(), now_ms);
    }
}

// ---------------------------------------------------------------------------
// Polls
// ---------------------------------------------------------------------------

/// Polls that wait for their message, with one more.
pub open spec fn poll_kept(
    s: Seq<PendingPollView>,
    id: Seq<char>,
    ts: i64,
    poll: PollDataView,
) -> Seq<PendingPollView> {
    let p = poll_place(s, id, ts, 0);
    let e = PendingPollView { conv_id: id, timestamp_ms: ts, poll };
    if p < s.len() {
        s.update(p, e)
    } else {
        s.push(e)
    }
}

/// The state after a poll came: with its message, or kept until that comes.
#[verifier::opaque]
pub open spec fn poll_made(a: AppView, id: Seq<char>, ts: i64, poll: PollDataView) -> AppView {
    let b = match look(a.store.conversations, id) {
        Some(c) => match msg_at(c.messages, ts) {
            Some(i) => a.with_msg(
                id,
                i,
                DisplayMessageView { poll_data: Some(poll), ..c.messages[i] },
            ),
            None => AppView {
                poll: PollVoteOverlayStateView {
                    pending_polls: poll_kept(a.poll.pending_polls, id, ts, poll),
                    ..a.poll
                },
                ..a
            },
        },
        None => a,
    };
    b.write(
        shown(
            DbWriteView::UpsertPollData { conv_id: id, timestamp_ms: ts, poll },
            "upsert_poll_data"@,
        ),
    )
}

/// The first vote from `i` on of someone, or their number.
pub open spec fn vote_place(s: Seq<PollVoteView>, voter: Seq<char>, i: int) -> int
    decreases s.len() - i,
{
    if i < 0 || i >= s.len() {
        s.len() as int
    } else if s[i].voter == voter {
        i
    } else {
        vote_place(s, voter, i + 1)
    }
}

/// Votes with that of someone set: one for each voter.
pub open spec fn vote_set(s: Seq<PollVoteView>, v: PollVoteView) -> Seq<PollVoteView> {
    let p = vote_place(s, v.voter, 0);
    if p < s.len() {
        s.update(p, v)
    } else {
        s.push(v)
    }
}

/// The state after a vote in a poll.
#[verifier::opaque]
pub open spec fn voted(a: AppView, id: Seq<char>, ts: i64, v: PollVoteView) -> AppView {
    let b = match located(a, id, ts) {
        Some(i) => {
            let m = message_in(a, id, i);
            a.with_msg(
                id,
                i,
                DisplayMessageView { poll_votes: vote_set(m.poll_votes, v), ..m },
            )
        },
        None => a,
    };
    b.write(
        shown(
            DbWriteView::UpsertPollVote {
                conv_id: id,
                timestamp_ms: ts,
                voter: v.voter,
                voter_name: v.voter_name,
                option_indexes: v.option_indexes,
                vote_count: v.vote_count,
            },
            "upsert_poll_vote"@,
        ),
    )
}

/// A message with its poll closed.
pub open spec fn poll_closed(m: DisplayMessageView) -> DisplayMessageView {
    match m.poll_data {
        Some(p) => DisplayMessageView {
            poll_data: Some(PollDataView { closed: true, ..p }),
            ..m
        },
        None => m,
    }
}

/// The state after a poll was closed.
#[verifier::opaque]
pub open spec fn poll_ended(a: AppView, id: Seq<char>, ts: i64) -> AppView {
    let b = match located(a, id, ts) {
        Some(i) => a.with_msg(id, i, poll_closed(message_in(a, id, i))),
        None => a,
    };
    b.write(
        shown(DbWriteView::ClosePoll { conv_id: id, timestamp_ms: ts }, "close_poll"@),
    )
}

fn set_vote(v: &mut Vec<PollVote>, vote: PollVote)
    ensures
        final(v).deep_view() == vote_set(old(v).deep_view(), vote.deep_view()),
{
    let ghost s = v.deep_view();
    let mut i: usize = 0;
    while i < v.len() && !same(v[i].voter.as_str(), vote.voter.as_str())
        invariant
            i <= v@.len(),
            s == v.deep_view(),
            *v == *old(v),
            vote_place(s, vote.voter@, 0) == vote_place(s, vote.voter@, i as int),
        decreases v@.len() - i,
    {
        assert(s[i as int] == v@[i as int].deep_view());
        i += 1;
    }
    if i < v.len() {
        assert(s[i as int] == v@[i as int].deep_view());
        v.set(i, vote);
    } else {
        v.push(vote);
    }
    assert(v.deep_view() =~= vote_set(s, vote.deep_view()));
}

impl App {
    fn keep_poll(&mut self, id: &str, ts: i64, poll: PollData)
        ensures
            final(self).state() == (AppView {
                poll: PollVoteOverlayStateView {
                    pending_polls: poll_kept(
                        old(self).state().poll.pending_polls,
                        id@,
                        ts,
                        poll.deep_view(),
                    ),
                    ..old(self).state().poll
                },
                ..old(self).state()
            }),
    {
        reveal(App::state);
        let ghost s = self.poll.pending_polls.deep_view();
        let e = PendingPoll { conv_id: id.to_string(), timestamp_ms: ts, poll };
        match find_poll(&self.poll.pending_polls, id, ts) {
            Some(i) => {
                self.poll.pending_polls.set(i, e);
            },
            None => {
                self.poll.pending_polls.push(e);
            },
        }
        assert(self.poll.pending_polls.deep_view() =~= poll_kept(s, id@, ts, poll.deep_view()));
    }

    pub(crate) fn has_conversation(&self, id: &str) -> (r: bool)
        ensures
            r == holds(self.state().store.conversations, id@),
    {
        reveal(App::state);
        self.store.conversations.contains_key(id)
    }

    /// Takes a poll.
    pub fn handle_poll_created(&mut self, conv_id: &str, timestamp: i64, poll_data: PollData)
        ensures
            final(self).state() == poll_made(
                old(self).state(),
                conv_id@,
                timestamp,
                poll_data.deep_view(),
            ),
    {
        reveal(poll_made);
        if self.has_conversation(conv_id) {
            match self.locate(conv_id, timestamp) {
                Some((i, mut m)) => {
                    m.poll_data = Some(poll_data.duplicate());
                    self.replace_message(conv_id, i, m);
                },
                None => {
                    self.keep_poll(conv_id, timestamp, poll_data.duplicate());
                },
            }
        }
        self.record(
            DbWrite::UpsertPollData {
                conv_id: conv_id.to_string(),
                timestamp_ms: timestamp,
                poll: poll_data,
            },
            "upsert_poll_data",
            true,
        );
    }

    /// Takes a vote in a poll.
    pub fn handle_poll_vote(&mut self, conv_id: &str, target_timestamp: i64, vote: PollVote)
        ensures
            final(self).state() == voted(
                old(self).state(),
                conv_id@,
                target_timestamp,
                vote.deep_view(),
            ),
    {
        reveal(voted);
        if let Some((i, mut m)) = self.locate(conv_id, target_timestamp) {
            set_vote(&mut m.poll_votes, vote.duplicate());
            self.replace_message(conv_id, i, m);
        }
        self.record(
            DbWrite::UpsertPollVote {
                conv_id: conv_id.to_string(),
                timestamp_ms: target_timestamp,
                voter: vote.voter,
                voter_name: vote.voter_name,
                option_indexes: vote.option_indexes,
                vote_count: vote.vote_count,
            },
            "upsert_poll_vote",
            true,
        );
    }

    /// Takes the news that a poll was closed.
    pub fn handle_poll_terminated(&mut self, conv_id: &str, target_timestamp: i64)
        ensures
            final(self).state() == poll_ended(old(self).state(), conv_id@, target_timestamp),
    {
        reveal(poll_ended);
        if let Some((i, mut m)) = self.locate(conv_id, target_timestamp) {
            if let Some(p) = &mut m.poll_data {
                p.closed = true;
            }
            self.replace_message(conv_id, i, m);
        }
        self.record(
            DbWrite::ClosePoll { conv_id: conv_id.to_string(), timestamp_ms: target_timestamp },
            "close_poll",
            true,
        );
    }
}

// ---------------------------------------------------------------------------
// Events
// ---------------------------------------------------------------------------

/// The state with a name that an event tells. A name that is known already
/// stays.
#[verifier::opaque]
pub open spec fn name_learnt(a: AppView, number: Seq<char>, name: Option<Seq<char>>) -> AppView {
    match name {
        Some(n) => AppView {
            store: ConversationStoreView {
                contact_names: put_new(a.store.contact_names, number, n),
                ..a.store
            },
            ..a
        },
        None => a,
    }
}

/// The state after someone began or stopped typing in a conversation.
#[verifier::opaque]
pub open spec fn typing_told(
    a: AppView,
    sender: Seq<char>,
    name: Option<Seq<char>>,
    is_typing: bool,
    group_id: Option<Seq<char>>,
    clock_ms: u64,
) -> AppView {
    let b = name_learnt(a, sender, name);
    let key = match group_id {
        Some(id) => id,
        None => sender,
    };
    AppView {
        typing: TypingStateView {
            indicators: if is_typing {
                put(b.typing.indicators, key, (sender, clock_ms))
            } else {
                del(b.typing.indicators, key)
            },
            ..b.typing
        },
        ..b
    }
}

/// The state after the timer of a conversation was changed, which it tells of.
#[verifier::opaque]
pub open spec fn timer_told(
    a: AppView,
    id: Seq<char>,
    seconds: i64,
    body: Seq<char>,
    ts: i64,
) -> AppView {
    let b = ensured(a, id, a.name_of(id), a.is_group(id));
    let c = b.with_conv(
        id,
        ConversationView { expiration_timer: seconds, ..at(b.store.conversations, id) },
    ).write(
        shown(
            DbWriteView::UpdateExpirationTimer { conv_id: id, seconds },
            "update_expiration_timer"@,
        ),
    );
    system_said(c, id, body, ts)
}

/// The state after an event. The wall clock stands at `now_ms`, a clock that is
/// never set back at `clock_ms`.
pub open spec fn event_taken(
    a: AppView,
    e: SignalEventView,
    now_ms: i64,
    clock_ms: u64,
) -> AppView {
    match e {
        SignalEventView::MessageReceived(m) => message_taken(a, m, now_ms),
        SignalEventView::ReceiptReceived { sender, receipt_type, timestamps } => receipts_taken(
            a,
            sender,
            receipt_type,
            timestamps,
        ),
        SignalEventView::SendTimestamp { rpc_id, server_ts } => send_answered(
            a,
            rpc_id,
            server_ts,
            clock_ms,
        ),
        SignalEventView::SendFailed { rpc_id } => send_failed(
            a.say("send failed"@),
            rpc_id,
            clock_ms,
        ),
        SignalEventView::TypingIndicator { sender, sender_name, is_typing, group_id } => typing_told(
            a,
            sender,
            sender_name,
            is_typing,
            group_id,
            clock_ms,
        ),
        SignalEventView::ReactionReceived {
            conv_id,
            emoji,
            sender,
            sender_name,
            target_author,
            target_timestamp,
            is_remove,
        } => reacted(
            name_learnt(a, sender, sender_name),
            conv_id,
            emoji,
            sender,
            target_author,
            target_timestamp,
            is_remove,
        ),
        SignalEventView::EditReceived { conv_id, target_timestamp, new_body } => text_edited(
            a,
            conv_id,
            target_timestamp,
            new_body,
        ),
        SignalEventView::RemoteDeleteReceived { conv_id, target_timestamp } => message_deleted(
            a,
            conv_id,
            target_timestamp,
        ),
        SignalEventView::PinReceived { conv_id, sender, sender_name, target_timestamp } => pin_told(
            name_learnt(a, sender, sender_name),
            conv_id,
            sender,
            target_timestamp,
            true,
            now_ms,
        ),
        SignalEventView::UnpinReceived { conv_id, sender, sender_name, target_timestamp } => pin_told(
            name_learnt(a, sender, sender_name),
            conv_id,
            sender,
            target_timestamp,
            false,
            now_ms,
        ),
        SignalEventView::PollCreated { conv_id, timestamp, poll_data } => poll_made(
            a,
            conv_id,
            timestamp,
            poll_data,
        ),
        SignalEventView::PollVoteReceived {
            conv_id,
            target_timestamp,
            voter,
            voter_name,
            option_indexes,
            vote_count,
        } => voted(
            name_learnt(a, voter, voter_name),
            conv_id,
            target_timestamp,
            PollVoteView { voter, voter_name, option_indexes, vote_count },
        ),
        SignalEventView::PollTerminated { conv_id, target_timestamp } => poll_ended(
            a,
            conv_id,
            target_timestamp,
        ),
        SignalEventView::SystemMessage { conv_id, body, timestamp_ms } => system_said(
            a,
            conv_id,
            body,
            timestamp_ms,
        ),
        SignalEventView::ExpirationTimerChanged { conv_id, seconds, body, timestamp_ms } => timer_told(
            a,
            conv_id,
            seconds,
            body,
            timestamp_ms,
        ),
        SignalEventView::ReadSyncReceived { read_messages } => read_synced(a, read_messages),
        SignalEventView::ContactList(contacts) => contacts_taken(a, contacts),
        SignalEventView::GroupList(groups) => groups_taken(a, groups),
        SignalEventView::IdentityList(identities) => identities_taken(a, identities),
        SignalEventView::Error(err) => a.say("error: "@ + err),
    }
}

impl App {
    fn learn_name(&mut self, number: &str, name: &Option<String>)
        ensures
            final(self).state() == name_learnt(old(self).state(), number@, name.deep_view()),
    {
        reveal(name_learnt);
        reveal(App::state);
        if let Some(n) = name {
            self.store.contact_names.insert_new(number.to_string(), n.clone());
        }
    }

    fn take_typing(
        &mut self,
        sender: &String,
        name: &Option<String>,
        is_typing: bool,
        group_id: &Option<String>,
        clock_ms: u64,
    )
        ensures
            final(self).state() == typing_told(
                old(self).state(),
                sender@,
                name.deep_view(),
                is_typing,
                group_id.deep_view(),
                clock_ms,
            ),
    {
        reveal(typing_told);
        self.learn_name(sender.as_str(), name);
        reveal(App::state);
        let key = match group_id {
            Some(id) => id.clone(),
            None => sender.clone(),
        };
        if is_typing {
            self.typing.indicators.insert(key, (sender.clone(), clock_ms));
        } else {
            let _ = self.typing.indicators.remove(key.as_str());
        }
    }

    /// Sets the timer of a conversation.
    pub fn set_timer(&mut self, id: &str, seconds: i64)
        ensures
            final(self).state() == match look(old(self).state().store.conversations, id@) {
                Some(c) => old(self).state().with_conv(
                    id@,
                    ConversationView { expiration_timer: seconds, ..c },
                ),
                None => old(self).state(),
            },
    {
        reveal(App::state);
        if let Some(c) = self.store.conversations.get_mut(id) {
            c.expiration_timer = seconds;
        }
    }

    fn take_timer(&mut self, id: &str, seconds: i64, body: &str, ts: i64)
        ensures
            final(self).state() == timer_told(old(self).state(), id@, seconds, body@, ts),
    {
        reveal(timer_told);
        let is_group = self.conv_is_group(id);
        let name = self.display_name(id);
        proof {
            crate::navigation::conversation_is_there(self.state().store, id@, name@, is_group);
        }
        self.get_or_create_conversation(id, name.as_str(), is_group);
        self.set_timer(id, seconds);
        self.record(
            DbWrite::UpdateExpirationTimer { conv_id: id.to_string(), seconds },
            "update_expiration_timer",
            true,
        );
        self.handle_system_message(id, body, ts);
    }

    /// Takes an event from the service. The wall clock stands at `now_ms`, a
    /// clock that is never set back at `clock_ms`.
    pub fn handle_signal_event(&mut self, event: SignalEvent, now_ms: i64, clock_ms: u64)
        ensures
            final(self).state() == event_taken(
                old(self).state(),
                event.deep_view(),
                now_ms,
                clock_ms,
            ),
    {
        match event {
            SignalEvent::MessageReceived(m) => self.handle_message(m, now_ms),
            SignalEvent::ReceiptReceived { sender, receipt_type, timestamps } => {
                self.handle_receipt(sender.as_str(), receipt_type.as_str(), &timestamps);
            },
            SignalEvent::SendTimestamp { rpc_id, server_ts } => {
                self.handle_send_timestamp(rpc_id.as_str(), server_ts, clock_ms);
            },
            SignalEvent::SendFailed { rpc_id } => {
                self.set_status("send failed");
                self.handle_send_failed(rpc_id.as_str(), clock_ms);
            },
            SignalEvent::TypingIndicator { sender, sender_name, is_typing, group_id } => {
                self.take_typing(&sender, &sender_name, is_typing, &group_id, clock_ms);
            },
            SignalEvent::ReactionReceived {
                conv_id,
                emoji,
                sender,
                sender_name,
                target_author,
                target_timestamp,
                is_remove,
            } => {
                self.learn_name(sender.as_str(), &sender_name);
                self.handle_reaction(
                    conv_id.as_str(),
                    emoji.as_str(),
                    sender.as_str(),
                    target_author.as_str(),
                    target_timestamp,
                    is_remove,
                );
            },
            SignalEvent::EditReceived { conv_id, target_timestamp, new_body } => {
                self.handle_edit_received(conv_id.as_str(), target_timestamp, new_body.as_str());
            },
            SignalEvent::RemoteDeleteReceived { conv_id, target_timestamp } => {
                self.handle_remote_delete(conv_id.as_str(), target_timestamp);
            },
            SignalEvent::PinReceived { conv_id, sender, sender_name, target_timestamp } => {
                self.learn_name(sender.as_str(), &sender_name);
                self.handle_pin_received(
                    conv_id.as_str(),
                    sender.as_str(),
                    target_timestamp,
                    true,
                    now_ms,
                );
            },
            SignalEvent::UnpinReceived { conv_id, sender, sender_name, target_timestamp } => {
                self.learn_name(sender.as_str(), &sender_name);
                self.handle_pin_received(
                    conv_id.as_str(),
                    sender.as_str(),
                    target_timestamp,
                    false,
                    now_ms,
                );
            },
            SignalEvent::PollCreated { conv_id, timestamp, poll_data } => {
                self.handle_poll_created(conv_id.as_str(), timestamp, poll_data);
            },
            SignalEvent::PollVoteReceived {
                conv_id,
                target_timestamp,
                voter,
                voter_name,
                option_indexes,
                vote_count,
            } => {
                self.learn_name(voter.as_str(), &voter_name);
                self.handle_poll_vote(
                    conv_id.as_str(),
                    target_timestamp,
                    PollVote { voter, voter_name, option_indexes, vote_count },
                );
            },
            SignalEvent::PollTerminated { conv_id, target_timestamp } => {
                self.handle_poll_terminated(conv_id.as_str(), target_timestamp);
            },
            SignalEvent::SystemMessage { conv_id, body, timestamp_ms } => {
                self.handle_system_message(conv_id.as_str(), body.as_str(), timestamp_ms);
            },
            SignalEvent::ExpirationTimerChanged { conv_id, seconds, body, timestamp_ms } => {
                self.take_timer(conv_id.as_str(), seconds, body.as_str(), timestamp_ms);
            },
            SignalEvent::ReadSyncReceived { read_messages } => {
                self.handle_read_sync(&read_messages);
            },
            SignalEvent::ContactList(contacts) => self.handle_contact_list(&contacts),
            SignalEvent::GroupList(groups) => self.handle_group_list(&groups),
            SignalEvent::IdentityList(identities) => self.handle_identity_list(&identities),
            SignalEvent::Error(err) => {
                let text = concat2("error: ", err.as_str());
                self.set_status(text.as_str());
            },
        }
    }
}

} // verus!
