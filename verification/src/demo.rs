//! Made-up conversations, to show what the client looks like.
use crate::app::{App, AppView};
use crate::conversation_store::{
    new_message, plain_message, Conversation, ConversationStore, ConversationStoreView,
    ConversationView, DisplayMessage, DisplayMessageView, Quote, QuoteView,
};
use crate::signal::{
    Duplicate, Group, GroupView, LinkPreview, LinkPreviewView, MessageStatus, PollData,
    PollDataView, PollOption, PollOptionView, PollVote, PollVoteView, Reaction, ReactionView,
    StyleType,
};
use crate::strmap::put;
use crate::text::same;
use vstd::prelude::*;

verus! {

// ---------------------------------------------------------------------------
// What messages are made of
// ---------------------------------------------------------------------------

/// How many minutes a clock shows in a day.
pub const DAY_MINUTES: usize = 1440;

/// When the clock shows a minute of a day: its time in milliseconds since the
/// epoch, where `day` has that of each minute from midnight on. On a day on which
/// the clock is changed these are not evenly spaced.
pub open spec fn minute_of(day: Seq<i64>, minute: int) -> i64 {
    day[minute]
}

/// A message that was sent at a minute of the day.
pub open spec fn said(day: Seq<i64>, minute: int, sender: Seq<char>, body: Seq<char>) -> DisplayMessageView {
    DisplayMessageView {
        status: if sender == "you"@ {
            Some(MessageStatus::Sent)
        } else {
            None
        },
        ..plain_message(sender, Seq::empty(), minute_of(day, minute), body)
    }
}

/// A reaction of someone.
pub open spec fn reaction_by(emoji: Seq<char>, sender: Seq<char>) -> ReactionView {
    ReactionView { emoji, sender }
}

/// A quote of a message that was sent at a minute of the day.
pub open spec fn quoting(
    day: Seq<i64>,
    minute: int,
    author: Seq<char>,
    body: Seq<char>,
    author_id: Seq<char>,
) -> QuoteView {
    QuoteView { author, body, timestamp_ms: minute_of(day, minute), author_id }
}

/// A preview of a page.
pub open spec fn page(url: Seq<char>, title: Seq<char>, description: Seq<char>) -> LinkPreviewView {
    LinkPreviewView { url, title: Some(title), description: Some(description), image_path: None }
}

/// An option of a poll.
pub open spec fn choice(id: i64, text: Seq<char>) -> PollOptionView {
    PollOptionView { id, text }
}

/// A vote for one option.
pub open spec fn vote_by(voter: Seq<char>, name: Seq<char>, option: i64) -> PollVoteView {
    PollVoteView { voter, voter_name: Some(name), option_indexes: seq![option], vote_count: 1 }
}

/// The poll.
pub open spec fn demo_poll() -> PollDataView {
    PollDataView {
        question: "Which async runtime do you prefer?"@,
        options: seq![choice(0, "Tokio"@), choice(1, "async-std"@), choice(2, "smol"@)],
        allow_multiple: false,
        closed: false,
    }
}

/// The votes in the poll.
pub open spec fn demo_votes() -> Seq<PollVoteView> {
    seq![
        vote_by("+15550001111"@, "Alice"@, 0),
        vote_by("+15550002222"@, "Bob"@, 0),
        vote_by("+15550004444"@, "Dave"@, 2),
        vote_by("you"@, "you"@, 0),
    ]
}

fn line(day: &Vec<i64>, minute: usize, sender: &str, body: &str) -> (r: DisplayMessage)
    requires
        minute < DAY_MINUTES,
        day@.len() == DAY_MINUTES,
    ensures
        r.deep_view() == said(day@, minute as int, sender@, body@),
{
    let empty = String::new();
    assert(empty@ =~= Seq::<char>::empty());
    let mut m = new_message(sender.to_string(), empty, day[minute], body.to_string());
    if same(sender, "you") {
        m.status = Some(MessageStatus::Sent);
    }
    m
}

fn react(emoji: &str, sender: &str) -> (r: Reaction)
    ensures
        r.deep_view() == reaction_by(emoji@, sender@),
{
    Reaction { emoji: emoji.to_string(), sender: sender.to_string() }
}

fn quote(day: &Vec<i64>, minute: usize, author: &str, body: &str, author_id: &str) -> (r: Quote)
    requires
        minute < DAY_MINUTES,
        day@.len() == DAY_MINUTES,
    ensures
        r.deep_view() == quoting(day@, minute as int, author@, body@, author_id@),
{
    Quote {
        author: author.to_string(),
        body: body.to_string(),
        timestamp_ms: day[minute],
        author_id: author_id.to_string(),
    }
}

fn preview(url: &str, title: &str, description: &str) -> (r: LinkPreview)
    ensures
        r.deep_view() == page(url@, title@, description@),
{
    LinkPreview {
        url: url.to_string(),
        title: Some(title.to_string()),
        description: Some(description.to_string()),
        image_path: None,
    }
}

fn option(id: i64, text: &str) -> (r: PollOption)
    ensures
        r.deep_view() == choice(id, text@),
{
    PollOption { id, text: text.to_string() }
}

fn vote(voter: &str, name: &str, choice: i64) -> (r: PollVote)
    ensures
        r.deep_view() == vote_by(voter@, name@, choice),
{
    let option_indexes = vec![choice];
    assert(option_indexes.deep_view() =~= seq![choice]);
    PollVote {
        voter: voter.to_string(),
        voter_name: Some(name.to_string()),
        option_indexes,
        vote_count: 1,
    }
}

fn make_poll() -> (r: PollData)
    ensures
        r.deep_view() == demo_poll(),
{
    let options = vec![option(0, "Tokio"), option(1, "async-std"), option(2, "smol")];
    assert(options.deep_view() =~= demo_poll().options);
    PollData {
        question: "Which async runtime do you prefer?".to_string(),
        options,
        allow_multiple: false,
        closed: false,
    }
}

fn make_votes() -> (r: Vec<PollVote>)
    ensures
        r.deep_view() == demo_votes(),
{
    let votes = vec![
        vote("+15550001111", "Alice", 0),
        vote("+15550002222", "Bob", 0),
        vote("+15550004444", "Dave", 2),
        vote("you", "you", 0),
    ];
    assert(votes.deep_view() =~= demo_votes());
    votes
}

// ---------------------------------------------------------------------------
// The conversations
// ---------------------------------------------------------------------------

/// What the conversation with Alice holds.
pub open spec fn alice_said(day: Seq<i64>) -> Seq<DisplayMessageView> {
    seq![
        DisplayMessageView {
            reactions: seq![reaction_by("\u{1f44d}"@, "you"@)],
            ..said(day, 480, "Alice"@, "Good morning! How's your day going?"@)
        },
        DisplayMessageView {
            status: Some(MessageStatus::Read),
            reactions: seq![reaction_by("\u{2764}\u{fe0f}"@, "Alice"@)],
            ..said(day, 485, "you"@, "Just getting started, coffee in hand"@)
        },
        said(day, 490, "Alice"@, "Nice! I've been up since 6, went for a run"@),
        DisplayMessageView {
            status: Some(MessageStatus::Read),
            ..said(day, 495, "you"@, "Impressive. I can barely get out of bed before 7"@)
        },
        said(day, 500, "Alice"@, "Ha! It gets easier once you build the habit"@),
        DisplayMessageView {
            status: Some(MessageStatus::Read),
            ..said(day, 505, "you"@, "That's what everyone says..."@)
        },
        said(day, 510, "Alice"@, "Trust me, after a week it becomes automatic"@),
        DisplayMessageView {
            quote: Some(quoting(day, 485, "you"@, "Just getting started, coffee in hand"@, ""@)),
            ..said(day, 515, "Alice"@, "Honestly same, I need my coffee first too"@)
        },
        DisplayMessageView {
            status: Some(MessageStatus::Delivered),
            ..said(day, 520, "you"@, "Are you free this weekend?"@)
        },
        said(day, 522, "Alice"@, "Yeah! What did you have in mind?"@),
        DisplayMessageView {
            preview: Some(page(
                "https://localmarket.example.com"@,
                "Downtown Farmers Market"@,
                "Fresh produce, artisan goods, and live music every Saturday 8am-1pm"@,
            )),
            ..said(day, 525, "Alice"@, "There's this farmers market: https://localmarket.example.com"@)
        },
        said(day, 527, "you"@, "Oh nice, what time should we go?"@),
        said(day, 528, "Alice"@, "Opens at 8, but 9 is fine. Less crowded."@),
        DisplayMessageView {
            status: Some(MessageStatus::Delivered),
            ..said(day, 530, "you"@, "Perfect, let's do 9"@)
        },
        said(day, 532, "Alice"@, "I'll pick you up at 8:45"@),
        DisplayMessageView {
            is_edited: true,
            ..said(day, 535, "you"@, "Actually make it 8:30, I want to browse early"@)
        },
        DisplayMessageView {
            reactions: seq![reaction_by("\u{1f389}"@, "you"@)],
            ..said(day, 537, "Alice"@, "Even better! See you Saturday"@)
        },
    ]
}

fn alice_messages(day: &Vec<i64>) -> (r: Vec<DisplayMessage>)
    requires
        day@.len() == DAY_MINUTES,
    ensures
        r.deep_view() == alice_said(day@),
{
    let mut m0 = line(day, 480, "Alice", "Good morning! How's your day going?");
    m0.reactions = vec![react("\u{1f44d}", "you")];
    assert(m0.reactions.deep_view() =~= seq![reaction_by("\u{1f44d}"@, "you"@)]);
    let mut m1 = line(day, 485, "you", "Just getting started, coffee in hand");
    m1.status = Some(MessageStatus::Read);
    m1.reactions = vec![react("\u{2764}\u{fe0f}", "Alice")];
    assert(m1.reactions.deep_view() =~= seq![reaction_by("\u{2764}\u{fe0f}"@, "Alice"@)]);
    let m2 = line(day, 490, "Alice", "Nice! I've been up since 6, went for a run");
    let mut m3 = line(day, 495, "you", "Impressive. I can barely get out of bed before 7");
    m3.status = Some(MessageStatus::Read);
    let m4 = line(day, 500, "Alice", "Ha! It gets easier once you build the habit");
    let mut m5 = line(day, 505, "you", "That's what everyone says...");
    m5.status = Some(MessageStatus::Read);
    let m6 = line(day, 510, "Alice", "Trust me, after a week it becomes automatic");
    let mut m7 = line(day, 515, "Alice", "Honestly same, I need my coffee first too");
    m7.quote = Some(quote(day, 485, "you", "Just getting started, coffee in hand", ""));
    let mut m8 = line(day, 520, "you", "Are you free this weekend?");
    m8.status = Some(MessageStatus::Delivered);
    let m9 = line(day, 522, "Alice", "Yeah! What did you have in mind?");
    let mut m10 = line(
        day,
        525,
        "Alice",
        "There's this farmers market: https://localmarket.example.com",
    );
    m10.preview = Some(preview(
        "https://localmarket.example.com",
        "Downtown Farmers Market",
        "Fresh produce, artisan goods, and live music every Saturday 8am-1pm",
    ));
    let m11 = line(day, 527, "you", "Oh nice, what time should we go?");
    let m12 = line(day, 528, "Alice", "Opens at 8, but 9 is fine. Less crowded.");
    let mut m13 = line(day, 530, "you", "Perfect, let's do 9");
    m13.status = Some(MessageStatus::Delivered);
    let m14 = line(day, 532, "Alice", "I'll pick you up at 8:45");
    let mut m15 = line(day, 535, "you", "Actually make it 8:30, I want to browse early");
    m15.is_edited = true;
    let mut m16 = line(day, 537, "Alice", "Even better! See you Saturday");
    m16.reactions = vec![react("\u{1f389}", "you")];
    assert(m16.reactions.deep_view() =~= seq![reaction_by("\u{1f389}"@, "you"@)]);
    let r = vec![m0, m1, m2, m3, m4, m5, m6, m7, m8, m9, m10, m11, m12, m13, m14, m15, m16];
    assert(r.deep_view() =~= alice_said(day@));
    r
}

/// What the conversation with Bob holds.
pub open spec fn bob_said(day: Seq<i64>) -> Seq<DisplayMessageView> {
    seq![
        DisplayMessageView {
            style_ranges: seq![(33usize, 47usize, StyleType::Bold)],
            ..said(day, 605, "Bob"@, "Can you review my PR? It's the auth refactor"@)
        },
        DisplayMessageView {
            style_ranges: seq![(22usize, 36usize, StyleType::Monospace)],
            ..said(day, 608, "Bob"@, "The key change is in verify_token() — switched from HMAC to Ed25519"@)
        },
        DisplayMessageView {
            status: Some(MessageStatus::Read),
            ..said(day, 612, "you"@, "Looks good! Left a few comments on the error handling"@)
        },
        said(
            day,
            615,
            "Bob"@,
            "Thanks! I'll address those. Also the migration is backwards-compatible so no rush on deploy"@,
        ),
        DisplayMessageView {
            quote: Some(quoting(day, 612, "you"@, "Looks good! Left a few comments on the error handling"@, ""@)),
            ..said(day, 620, "Bob"@, "Fixed those error handling bits, PTAL"@)
        },
        DisplayMessageView {
            status: Some(MessageStatus::Delivered),
            style_ranges: seq![(0usize, 4usize, StyleType::Bold)],
            ..said(day, 625, "you"@, "Nice, approved!"@)
        },
    ]
}

fn bob_messages(day: &Vec<i64>) -> (r: Vec<DisplayMessage>)
    requires
        day@.len() == DAY_MINUTES,
    ensures
        r.deep_view() == bob_said(day@),
{
    let mut m0 = line(day, 605, "Bob", "Can you review my PR? It's the auth refactor");
    m0.style_ranges = vec![(33, 47, StyleType::Bold)];
    assert(m0.style_ranges.deep_view() =~= seq![(33usize, 47usize, StyleType::Bold)]);
    let mut m1 = line(
        day,
        608,
        "Bob",
        "The key change is in verify_token() — switched from HMAC to Ed25519",
    );
    m1.style_ranges = vec![(22, 36, StyleType::Monospace)];
    assert(m1.style_ranges.deep_view() =~= seq![(22usize, 36usize, StyleType::Monospace)]);
    let mut m2 = line(day, 612, "you", "Looks good! Left a few comments on the error handling");
    m2.status = Some(MessageStatus::Read);
    let m3 = line(
        day,
        615,
        "Bob",
        "Thanks! I'll address those. Also the migration is backwards-compatible so no rush on deploy",
    );
    let mut m4 = line(day, 620, "Bob", "Fixed those error handling bits, PTAL");
    m4.quote = Some(quote(day, 612, "you", "Looks good! Left a few comments on the error handling", ""));
    let mut m5 = line(day, 625, "you", "Nice, approved!");
    m5.status = Some(MessageStatus::Delivered);
    m5.style_ranges = vec![(0, 4, StyleType::Bold)];
    assert(m5.style_ranges.deep_view() =~= seq![(0usize, 4usize, StyleType::Bold)]);
    let r = vec![m0, m1, m2, m3, m4, m5];
    assert(r.deep_view() =~= bob_said(day@));
    r
}

/// What the conversation with Carol holds.
pub open spec fn carol_said(day: Seq<i64>) -> Seq<DisplayMessageView> {
    seq![
        said(day, 705, "Carol"@, "Did you see the announcement about the office move?"@),
    ]
}

fn carol_messages(day: &Vec<i64>) -> (r: Vec<DisplayMessage>)
    requires
        day@.len() == DAY_MINUTES,
    ensures
        r.deep_view() == carol_said(day@),
{
    let m0 = line(day, 705, "Carol", "Did you see the announcement about the office move?");
    let r = vec![m0];
    assert(r.deep_view() =~= carol_said(day@));
    r
}

/// What the conversation with Dave holds.
pub open spec fn dave_said(day: Seq<i64>) -> Seq<DisplayMessageView> {
    seq![
        DisplayMessageView {
            is_system: true,
            ..said(day, 475, "system"@, "Disappearing messages set to 1 day"@)
        },
        DisplayMessageView {
            expires_in_seconds: 86400,
            expiration_start_ms: minute_of(day, 480),
            ..said(day, 480, "Dave"@, "Meetup is at the usual place, 7pm"@)
        },
        DisplayMessageView {
            status: Some(MessageStatus::Read),
            expires_in_seconds: 86400,
            expiration_start_ms: minute_of(day, 485),
            ..said(day, 485, "you"@, "Got it, I'll be there"@)
        },
        DisplayMessageView {
            expires_in_seconds: 86400,
            expiration_start_ms: minute_of(day, 486),
            ..said(day, 486, "Dave"@, "Bring your laptop if you want to hack on stuff"@)
        },
    ]
}

fn dave_messages(day: &Vec<i64>) -> (r: Vec<DisplayMessage>)
    requires
        day@.len() == DAY_MINUTES,
    ensures
        r.deep_view() == dave_said(day@),
{
    let mut m0 = line(day, 475, "system", "Disappearing messages set to 1 day");
    m0.is_system = true;
    let mut m1 = line(day, 480, "Dave", "Meetup is at the usual place, 7pm");
    m1.expires_in_seconds = 86400;
    m1.expiration_start_ms = m1.timestamp_ms;
    let mut m2 = line(day, 485, "you", "Got it, I'll be there");
    m2.status = Some(MessageStatus::Read);
    m2.expires_in_seconds = 86400;
    m2.expiration_start_ms = m2.timestamp_ms;
    let mut m3 = line(day, 486, "Dave", "Bring your laptop if you want to hack on stuff");
    m3.expires_in_seconds = 86400;
    m3.expiration_start_ms = m3.timestamp_ms;
    let r = vec![m0, m1, m2, m3];
    assert(r.deep_view() =~= dave_said(day@));
    r
}

/// What the conversation with the group #Rust Devs holds.
pub open spec fn rust_devs_said(day: Seq<i64>) -> Seq<DisplayMessageView> {
    seq![
        DisplayMessageView {
            is_pinned: true,
            reactions: seq![reaction_by("\u{1f4cc}"@, "Dave"@)],
            ..said(day, 630, "Alice"@, "Has anyone tried the new async trait syntax?"@)
        },
        DisplayMessageView {
            style_ranges: seq![(9usize, 24usize, StyleType::Italic)],
            ..said(day, 632, "Bob"@, "Yeah, it's so much cleaner than the pin-based approach"@)
        },
        said(day, 635, "Dave"@, "I'm still wrapping my head around it"@),
        DisplayMessageView {
            status: Some(MessageStatus::Read),
            reactions: seq![
                reaction_by("\u{1f44d}"@, "Alice"@),
                reaction_by("\u{1f44d}"@, "Bob"@),
                reaction_by("\u{2764}\u{fe0f}"@, "Dave"@),
            ],
            ..said(day, 640, "you"@, "The desugaring docs helped me a lot"@)
        },
        DisplayMessageView {
            mention_ranges: seq![(24usize, 28usize)],
            ..said(day, 642, "Alice"@, "Can you share the link? @Bob might want it too"@)
        },
        DisplayMessageView {
            status: Some(MessageStatus::Delivered),
            preview: Some(page(
                "https://blog.rust-lang.org/async-traits"@,
                "Async Trait Methods in Stable Rust"@,
                "A deep dive into the stabilization of async fn in traits"@,
            )),
            ..said(day, 643, "you"@, "Here you go: https://blog.rust-lang.org/async-traits"@)
        },
        DisplayMessageView {
            poll_data: Some(demo_poll()),
            poll_votes: demo_votes(),
            ..said(day, 650, "Dave"@, ""@)
        },
    ]
}

fn rust_devs_messages(day: &Vec<i64>) -> (r: Vec<DisplayMessage>)
    requires
        day@.len() == DAY_MINUTES,
    ensures
        r.deep_view() == rust_devs_said(day@),
{
    let mut m0 = line(day, 630, "Alice", "Has anyone tried the new async trait syntax?");
    m0.is_pinned = true;
    m0.reactions = vec![react("\u{1f4cc}", "Dave")];
    assert(m0.reactions.deep_view() =~= seq![reaction_by("\u{1f4cc}"@, "Dave"@)]);
    let mut m1 = line(day, 632, "Bob", "Yeah, it's so much cleaner than the pin-based approach");
    m1.style_ranges = vec![(9, 24, StyleType::Italic)];
    assert(m1.style_ranges.deep_view() =~= seq![(9usize, 24usize, StyleType::Italic)]);
    let m2 = line(day, 635, "Dave", "I'm still wrapping my head around it");
    let mut m3 = line(day, 640, "you", "The desugaring docs helped me a lot");
    m3.status = Some(MessageStatus::Read);
    m3.reactions = vec![
        react("\u{1f44d}", "Alice"),
        react("\u{1f44d}", "Bob"),
        react("\u{2764}\u{fe0f}", "Dave"),
    ];
    assert(m3.reactions.deep_view() =~= seq![
        reaction_by("\u{1f44d}"@, "Alice"@),
        reaction_by("\u{1f44d}"@, "Bob"@),
        reaction_by("\u{2764}\u{fe0f}"@, "Dave"@),
    ]);
    let mut m4 = line(day, 642, "Alice", "Can you share the link? @Bob might want it too");
    m4.mention_ranges = vec![(24, 28)];
    assert(m4.mention_ranges.deep_view() =~= seq![(24usize, 28usize)]);
    let mut m5 = line(day, 643, "you", "Here you go: https://blog.rust-lang.org/async-traits");
    m5.status = Some(MessageStatus::Delivered);
    m5.preview = Some(preview(
        "https://blog.rust-lang.org/async-traits",
        "Async Trait Methods in Stable Rust",
        "A deep dive into the stabilization of async fn in traits",
    ));
    let mut m6 = line(day, 650, "Dave", "");
    m6.poll_data = Some(make_poll());
    m6.poll_votes = make_votes();
    let r = vec![m0, m1, m2, m3, m4, m5, m6];
    assert(r.deep_view() =~= rust_devs_said(day@));
    r
}

/// What the conversation with the group #Family holds.
pub open spec fn family_said(day: Seq<i64>) -> Seq<DisplayMessageView> {
    seq![
        said(day, 720, "Mom"@, "Dinner at our place Sunday?"@),
        said(day, 725, "Dad"@, "I'll fire up the grill"@),
        DisplayMessageView {
            status: Some(MessageStatus::Read),
            reactions: seq![
                reaction_by("\u{2764}\u{fe0f}"@, "Mom"@),
                reaction_by("\u{2764}\u{fe0f}"@, "Dad"@),
            ],
            ..said(day, 730, "you"@, "Count me in!"@)
        },
        said(day, 810, "Mom"@, "Great! Bring dessert if you can"@),
        DisplayMessageView {
            quote: Some(quoting(day, 725, "Dad"@, "I'll fire up the grill"@, "+15550006666"@)),
            ..said(day, 815, "Dad"@, "Got the burgers and corn ready"@)
        },
    ]
}

fn family_messages(day: &Vec<i64>) -> (r: Vec<DisplayMessage>)
    requires
        day@.len() == DAY_MINUTES,
    ensures
        r.deep_view() == family_said(day@),
{
    let m0 = line(day, 720, "Mom", "Dinner at our place Sunday?");
    let m1 = line(day, 725, "Dad", "I'll fire up the grill");
    let mut m2 = line(day, 730, "you", "Count me in!");
    m2.status = Some(MessageStatus::Read);
    m2.reactions = vec![react("\u{2764}\u{fe0f}", "Mom"), react("\u{2764}\u{fe0f}", "Dad")];
    assert(m2.reactions.deep_view() =~= seq![
        reaction_by("\u{2764}\u{fe0f}"@, "Mom"@),
        reaction_by("\u{2764}\u{fe0f}"@, "Dad"@),
    ]);
    let m3 = line(day, 810, "Mom", "Great! Bring dessert if you can");
    let mut m4 = line(day, 815, "Dad", "Got the burgers and corn ready");
    m4.quote = Some(quote(day, 725, "Dad", "I'll fire up the grill", "+15550006666"));
    let r = vec![m0, m1, m2, m3, m4];
    assert(r.deep_view() =~= family_said(day@));
    r
}

/// What the conversation with +15550007777 holds.
pub open spec fn eve_said(day: Seq<i64>) -> Seq<DisplayMessageView> {
    seq![
        said(
            day,
            840,
            "+15550007777"@,
            "Hey, I got your number from the meetup. Is this the right person?"@,
        ),
    ]
}

fn eve_messages(day: &Vec<i64>) -> (r: Vec<DisplayMessage>)
    requires
        day@.len() == DAY_MINUTES,
    ensures
        r.deep_view() == eve_said(day@),
{
    let m0 = line(
        day,
        840,
        "+15550007777",
        "Hey, I got your number from the meetup. Is this the right person?",
    );
    let r = vec![m0];
    assert(r.deep_view() =~= eve_said(day@));
    r
}

/// The conversations, in the order in which they are filled in.
pub open spec fn demo_conversations(day: Seq<i64>) -> Seq<ConversationView> {
    seq![
        ConversationView {
            name: "Alice"@,
            id: "+15550001111"@,
            messages: alice_said(day),
            unread: 0,
            is_group: false,
            expiration_timer: 0,
            accepted: true,
        },
        ConversationView {
            name: "Bob"@,
            id: "+15550002222"@,
            messages: bob_said(day),
            unread: 0,
            is_group: false,
            expiration_timer: 0,
            accepted: true,
        },
        ConversationView {
            name: "Carol"@,
            id: "+15550003333"@,
            messages: carol_said(day),
            unread: 1,
            is_group: false,
            expiration_timer: 0,
            accepted: true,
        },
        ConversationView {
            name: "Dave"@,
            id: "+15550004444"@,
            messages: dave_said(day),
            unread: 0,
            is_group: false,
            expiration_timer: 86400,
            accepted: true,
        },
        ConversationView {
            name: "#Rust Devs"@,
            id: "group_rustdevs"@,
            messages: rust_devs_said(day),
            unread: 0,
            is_group: true,
            expiration_timer: 0,
            accepted: true,
        },
        ConversationView {
            name: "#Family"@,
            id: "group_family"@,
            messages: family_said(day),
            unread: 2,
            is_group: true,
            expiration_timer: 0,
            accepted: true,
        },
        ConversationView {
            name: "+15550007777"@,
            id: "+15550007777"@,
            messages: eve_said(day),
            unread: 1,
            is_group: false,
            expiration_timer: 0,
            accepted: false,
        },
    ]
}

/// The numbers, names and uuids of the contacts.
pub open spec fn demo_contacts() -> Seq<(Seq<char>, Seq<char>, Seq<char>)> {
    seq![
        ("+15550001111"@, "Alice"@, "aaaa-alice-uuid"@),
        ("+15550002222"@, "Bob"@, "bbbb-bob-uuid"@),
        ("+15550003333"@, "Carol"@, "cccc-carol-uuid"@),
        ("+15550004444"@, "Dave"@, "dddd-dave-uuid"@),
        ("+15550005555"@, "Mom"@, "eeee-mom-uuid"@),
        ("+15550006666"@, "Dad"@, "ffff-dad-uuid"@),
    ]
}

/// The groups.
pub open spec fn demo_groups() -> Seq<GroupView> {
    seq![
        GroupView {
            id: "group_rustdevs"@,
            name: "#Rust Devs"@,
            members: seq!["+15550001111"@, "+15550002222"@, "+15550004444"@],
            member_uuids: Seq::empty(),
        },
        GroupView {
            id: "group_family"@,
            name: "#Family"@,
            members: seq!["+15550005555"@, "+15550006666"@],
            member_uuids: Seq::empty(),
        },
    ]
}

/// The order in which the sidebar lists the conversations.
pub open spec fn demo_order() -> Seq<Seq<char>> {
    seq![
        "+15550007777"@,
        "group_family"@,
        "+15550003333"@,
        "group_rustdevs"@,
        "+15550002222"@,
        "+15550001111"@,
        "+15550004444"@,
    ]
}

// ---------------------------------------------------------------------------
// The state
// ---------------------------------------------------------------------------

/// A store with the first `n` of conversations. Of each, what is unread stands
/// behind the read marker.
pub open spec fn conversations_put(
    s: ConversationStoreView,
    convs: Seq<ConversationView>,
    n: int,
) -> ConversationStoreView
    decreases n,
{
    if n <= 0 {
        s
    } else {
        let b = conversations_put(s, convs, n - 1);
        let c = convs[n - 1];
        ConversationStoreView {
            conversations: put(b.conversations, c.id, c),
            last_read_index: if c.messages.len() > 0 {
                put(
                    b.last_read_index,
                    c.id,
                    if c.messages.len() > c.unread {
                        (c.messages.len() - c.unread) as usize
                    } else {
                        0
                    },
                )
            } else {
                b.last_read_index
            },
            ..b
        }
    }
}

/// A store with the first `n` of contacts.
pub open spec fn contacts_put(
    s: ConversationStoreView,
    contacts: Seq<(Seq<char>, Seq<char>, Seq<char>)>,
    n: int,
) -> ConversationStoreView
    decreases n,
{
    if n <= 0 {
        s
    } else {
        let b = contacts_put(s, contacts, n - 1);
        let (number, name, uuid) = contacts[n - 1];
        ConversationStoreView {
            contact_names: put(b.contact_names, number, name),
            uuid_to_name: put(b.uuid_to_name, uuid, name),
            number_to_uuid: put(b.number_to_uuid, number, uuid),
            ..b
        }
    }
}

/// A store with the first `n` of groups.
pub open spec fn groups_put(s: ConversationStoreView, groups: Seq<GroupView>, n: int) -> ConversationStoreView
    decreases n,
{
    if n <= 0 {
        s
    } else {
        let b = groups_put(s, groups, n - 1);
        ConversationStoreView { groups: put(b.groups, groups[n - 1].id, groups[n - 1]), ..b }
    }
}

/// The state with the made-up conversations of a day.
pub open spec fn demo_filled(a: AppView, day: Seq<i64>) -> AppView {
    let s = conversations_put(a.store, demo_conversations(day), 7);
    let t = contacts_put(
        ConversationStoreView { conversation_order: demo_order(), ..s },
        demo_contacts(),
        6,
    );
    AppView {
        store: groups_put(t, demo_groups(), 2),
        active_conversation: Some("+15550001111"@),
        status_message: "connected | demo mode"@,
        ..a
    }
}

fn make_conversation(
    name: &str,
    id: &str,
    messages: Vec<DisplayMessage>,
    unread: usize,
    is_group: bool,
    expiration_timer: i64,
    accepted: bool,
) -> (r: Conversation)
    ensures
        r.deep_view() == (ConversationView {
            name: name@,
            id: id@,
            messages: messages.deep_view(),
            unread,
            is_group,
            expiration_timer,
            accepted,
        }),
{
    Conversation {
        name: name.to_string(),
        id: id.to_string(),
        messages,
        unread,
        is_group,
        expiration_timer,
        accepted,
    }
}

fn make_conversations(day: &Vec<i64>) -> (r: Vec<Conversation>)
    requires
        day@.len() == DAY_MINUTES,
    ensures
        r.deep_view() == demo_conversations(day@),
{
    let c0 = make_conversation("Alice", "+15550001111", alice_messages(day), 0, false, 0, true);
    let c1 = make_conversation("Bob", "+15550002222", bob_messages(day), 0, false, 0, true);
    let c2 = make_conversation("Carol", "+15550003333", carol_messages(day), 1, false, 0, true);
    let c3 = make_conversation("Dave", "+15550004444", dave_messages(day), 0, false, 86400, true);
    let c4 = make_conversation(
        "#Rust Devs",
        "group_rustdevs",
        rust_devs_messages(day),
        0,
        true,
        0,
        true,
    );
    let c5 = make_conversation("#Family", "group_family", family_messages(day), 2, true, 0, true);
    let c6 = make_conversation(
        "+15550007777",
        "+15550007777",
        eve_messages(day),
        1,
        false,
        0,
        false,
    );
    let r = vec![c0, c1, c2, c3, c4, c5, c6];
    assert(r.deep_view() =~= demo_conversations(day@));
    r
}

fn contact(number: &str, name: &str, uuid: &str) -> (r: (String, String, String))
    ensures
        r.deep_view() == (number@, name@, uuid@),
{
    (number.to_string(), name.to_string(), uuid.to_string())
}

fn make_contacts() -> (r: Vec<(String, String, String)>)
    ensures
        r.deep_view() == demo_contacts(),
{
    let r = vec![
        contact("+15550001111", "Alice", "aaaa-alice-uuid"),
        contact("+15550002222", "Bob", "bbbb-bob-uuid"),
        contact("+15550003333", "Carol", "cccc-carol-uuid"),
        contact("+15550004444", "Dave", "dddd-dave-uuid"),
        contact("+15550005555", "Mom", "eeee-mom-uuid"),
        contact("+15550006666", "Dad", "ffff-dad-uuid"),
    ];
    assert(r.deep_view() =~= demo_contacts());
    r
}

fn make_groups() -> (r: Vec<Group>)
    ensures
        r.deep_view() == demo_groups(),
{
    let devs = vec![
        "+15550001111".to_string(),
        "+15550002222".to_string(),
        "+15550004444".to_string(),
    ];
    let parents = vec!["+15550005555".to_string(), "+15550006666".to_string()];
    let none: Vec<(String, String)> = Vec::new();
    let none2: Vec<(String, String)> = Vec::new();
    assert(devs.deep_view() =~= demo_groups()[0].members);
    assert(parents.deep_view() =~= demo_groups()[1].members);
    assert(none.deep_view() =~= Seq::<(Seq<char>, Seq<char>)>::empty());
    assert(none2.deep_view() =~= Seq::<(Seq<char>, Seq<char>)>::empty());
    let r = vec![
        Group {
            id: "group_rustdevs".to_string(),
            name: "#Rust Devs".to_string(),
            members: devs,
            member_uuids: none,
        },
        Group {
            id: "group_family".to_string(),
            name: "#Family".to_string(),
            members: parents,
            member_uuids: none2,
        },
    ];
    assert(r.deep_view() =~= demo_groups());
    r
}

fn make_order() -> (r: Vec<String>)
    ensures
        r.deep_view() == demo_order(),
{
    let r = vec![
        "+15550007777".to_string(),
        "group_family".to_string(),
        "+15550003333".to_string(),
        "group_rustdevs".to_string(),
        "+15550002222".to_string(),
        "+15550001111".to_string(),
        "+15550004444".to_string(),
    ];
    assert(r.deep_view() =~= demo_order());
    r
}

fn put_conversations(s: &mut ConversationStore, convs: &Vec<Conversation>)
    ensures
        final(s).deep_view() == conversations_put(
            old(s).deep_view(),
            convs.deep_view(),
            convs@.len() as int,
        ),
{
    let ghost cv = convs.deep_view();
    let mut i: usize = 0;
    while i < convs.len()
        invariant
            i <= convs@.len(),
            cv == convs.deep_view(),
            s.deep_view() == conversations_put(old(s).deep_view(), cv, i as int),
        decreases convs@.len() - i,
    {
        assert(cv[i as int] == convs@[i as int].deep_view());
        let c = convs[i].duplicate();
        let id = c.id.clone();
        let n = c.messages.len();
        let unread = c.unread;
        s.conversations.insert(id.clone(), c);
        if n > 0 {
            s.last_read_index.insert(id, n.saturating_sub(unread));
        }
        i += 1;
    }
}

fn put_contacts(s: &mut ConversationStore, contacts: &Vec<(String, String, String)>)
    ensures
        final(s).deep_view() == contacts_put(
            old(s).deep_view(),
            contacts.deep_view(),
            contacts@.len() as int,
        ),
{
    let ghost cv = contacts.deep_view();
    let mut i: usize = 0;
    while i < contacts.len()
        invariant
            i <= contacts@.len(),
            cv == contacts.deep_view(),
            s.deep_view() == contacts_put(old(s).deep_view(), cv, i as int),
        decreases contacts@.len() - i,
    {
        assert(cv[i as int] == contacts@[i as int].deep_view());
        let (number, name, uuid) = contacts[i].duplicate();
        s.contact_names.insert(number.clone(), name.clone());
        s.uuid_to_name.insert(uuid.clone(), name);
        s.number_to_uuid.insert(number, uuid);
        i += 1;
    }
}

fn put_groups(s: &mut ConversationStore, groups: &Vec<Group>)
    ensures
        final(s).deep_view() == groups_put(
            old(s).deep_view(),
            groups.deep_view(),
            groups@.len() as int,
        ),
{
    let ghost gv = groups.deep_view();
    let mut i: usize = 0;
    while i < groups.len()
        invariant
            i <= groups@.len(),
            gv == groups.deep_view(),
            s.deep_view() == groups_put(old(s).deep_view(), gv, i as int),
        decreases groups@.len() - i,
    {
        assert(gv[i as int] == groups@[i as int].deep_view());
        let g = groups[i].duplicate();
        s.groups.insert(g.id.clone(), g);
        i += 1;
    }
}

impl App {
    /// Fills in made-up conversations of a day, where `day` has the time at which
    /// the clock shows each of its minutes.
    pub fn populate_demo_data(&mut self, day: &Vec<i64>)
        requires
            day@.len() == DAY_MINUTES,
        ensures
            final(self).state() == demo_filled(old(self).state(), day@),
    {
        reveal(App::state);
        let convs = make_conversations(day);
        let contacts = make_contacts();
        let groups = make_groups();
        assert(convs@.len() == demo_conversations(day@).len());
        assert(contacts@.len() == demo_contacts().len());
        assert(groups@.len() == demo_groups().len());
        put_conversations(&mut self.store, &convs);
        self.store.conversation_order = make_order();
        put_contacts(&mut self.store, &contacts);
        put_groups(&mut self.store, &groups);
        self.active_conversation = Some("+15550001111".to_string());
        self.status_message = "connected | demo mode".to_string();
    }
}

} // verus!
