//! The menu of what can be done with a message, and the small dialogs behind it.
use crate::actions::{
    author_number, copying_asked, deletion_asked, edit_begun, forwarding_begun, is_live,
    reacting_begun, reply_begun, selected,
};
use crate::app::{
    ActionMenuStateView, App, AppView, Flag, Overlay, PinDurationOverlayStateView, PinPending,
    PinPendingView, PollVoteOverlayStateView, PollVotePending, PollVotePendingView,
    ProfileOverlayStateView, ScrollStateView, SendRequest, SendRequestView,
};
use crate::common::{
    classify_list_key, list_key, move_down, popped, step_down, step_up, ListKeyAction,
};
use crate::conversation_store::{
    ConversationStoreView, ConversationView, DisplayMessage, DisplayMessageView,
};
use crate::db::{shown, DbWrite, DbWriteView};
use crate::events::{pin_set, poll_ended, voted};
use crate::keys::KeyCode;
use crate::lists::{MenuAction, MenuActionView};
use crate::messages::system_said;
use crate::signal::{Duplicate, PollVote, PollVoteView};
use crate::strmap::{at, del, look};
use crate::text::{same, trim, trimmed};
use vstd::prelude::*;

verus! {

// ---------------------------------------------------------------------------
// Pins
// ---------------------------------------------------------------------------

/// How long a message can be pinned for, in seconds (for ever where negative),
/// and how that is called.
pub const PIN_DURATIONS: [(i64, &'static str); 4] = [
    (-1, "Forever"),
    (86400, "24 hours"),
    (604800, "7 days"),
    (2592000, "30 days"),
];

/// How long a message is pinned for, where a place in the list was chosen.
pub open spec fn pin_duration(i: int) -> i64 {
    if i < PIN_DURATIONS@.len() {
        PIN_DURATIONS@[i].0
    } else {
        PIN_DURATIONS@[0].0
    }
}

fn duration_at(i: usize) -> (r: i64)
    ensures
        r == pin_duration(i as int),
{
    if i < PIN_DURATIONS.len() {
        PIN_DURATIONS[i].0
    } else {
        PIN_DURATIONS[0].0
    }
}

/// The state scrolled to the newest message.
pub open spec fn at_bottom(a: AppView) -> AppView {
    AppView { scroll: ScrollStateView { offset: 0, focused_index: None, ..a.scroll }, ..a }
}

/// The state after one pinned a message of a conversation, or no more so.
pub open spec fn own_pin(a: AppView, id: Seq<char>, ts: i64, pinned: bool, now_ms: i64) -> AppView {
    system_said(
        at_bottom(pin_set(a, id, ts, pinned)),
        id,
        if pinned {
            "you pinned a message"@
        } else {
            "you unpinned a message"@
        },
        now_ms,
    )
}

/// The state after a request to pin the selected message, and what is sent. For
/// how long is asked next; a pinned message is no more so at once.
#[verifier::opaque]
pub open spec fn pin_toggled(a: AppView, now_ms: i64) -> (AppView, Option<SendRequestView>) {
    match selected(a) {
        Some(m) => {
            let id = a.active_conversation->0;
            let is_group = a.is_group(id);
            let target_author = author_number(a, m);
            let target_timestamp = m.timestamp_ms;
            if !is_live(m) {
                (a, None)
            } else if m.is_pinned {
                (
                    own_pin(a, id, m.timestamp_ms, false, now_ms),
                    Some(
                        SendRequestView::Unpin {
                            recipient: id,
                            is_group,
                            target_author,
                            target_timestamp,
                        },
                    ),
                )
            } else {
                (
                    AppView {
                        pin: PinDurationOverlayStateView {
                            pending: Some(
                                PinPendingView {
                                    conv_id: id,
                                    is_group,
                                    target_author,
                                    target_timestamp,
                                },
                            ),
                            index: 0,
                            ..a.pin
                        },
                        ..a.opened(Overlay::PinDuration)
                    },
                    None,
                )
            }
        },
        None => (a, None),
    }
}

/// The state with another length of time selected.
pub open spec fn pin_chosen(a: AppView, index: usize) -> AppView {
    AppView { pin: PinDurationOverlayStateView { index, ..a.pin }, ..a }
}

/// The state with no message waiting to be pinned.
pub open spec fn pin_dropped(a: AppView) -> AppView {
    AppView { pin: PinDurationOverlayStateView { pending: None, ..a.pin }, ..a }
}

/// The state after a key at the question for how long to pin a message, and what
/// is sent.
#[verifier::opaque]
pub open spec fn pin_key(a: AppView, code: KeyCode, now_ms: i64) -> (
    AppView,
    Option<SendRequestView>,
) {
    let done = pin_dropped(a.closed(Overlay::PinDuration));
    match list_key(code, false) {
        ListKeyAction::Down => (
            pin_chosen(a, step_down(a.pin.index, PIN_DURATIONS@.len())),
            None,
        ),
        ListKeyAction::Up => (pin_chosen(a, step_up(a.pin.index)), None),
        ListKeyAction::Select => match a.pin.pending {
            Some(p) => (
                own_pin(done, p.conv_id, p.target_timestamp, true, now_ms),
                Some(
                    SendRequestView::Pin {
                        recipient: p.conv_id,
                        is_group: p.is_group,
                        target_author: p.target_author,
                        target_timestamp: p.target_timestamp,
                        pin_duration: pin_duration(a.pin.index as int),
                    },
                ),
            ),
            None => (done, None),
        },
        ListKeyAction::Close => (done, None),
        _ => (a, None),
    }
}

impl App {
    fn note_own_pin(&mut self, id: &str, ts: i64, pinned: bool, now_ms: i64)
        ensures
            final(self).state() == own_pin(old(self).state(), id@, ts, pinned, now_ms),
    {
        self.set_pinned(id, ts, pinned);
        self.scroll_to_bottom();
        let body = if pinned {
            "you pinned a message"
        } else {
            "you unpinned a message"
        };
        self.handle_system_message(id, body, now_ms);
    }

    fn await_pin(&mut self, pending: PinPending)
        ensures
            final(self).state() == (AppView {
                pin: PinDurationOverlayStateView {
                    pending: Some(pending.deep_view()),
                    index: 0,
                    ..old(self).state().pin
                },
                ..old(self).state()
            }),
    {
        reveal(App::state);
        self.pin.pending = Some(pending);
        self.pin.index = 0;
    }

    /// Pins the selected message, or no more so.
    pub fn execute_pin_toggle(&mut self, now_ms: i64) -> (r: Option<SendRequest>)
        ensures
            (final(self).state(), r.deep_view()) == pin_toggled(old(self).state(), now_ms),
    {
        reveal(pin_toggled);
        match self.selection() {
            Some((id, _, m)) => {
                if m.is_system || m.is_deleted {
                    return None;
                }
                let is_group = self.conv_is_group(id.as_str());
                let target_author = self.author_of(&m);
                let target_timestamp = m.timestamp_ms;
                if m.is_pinned {
                    self.note_own_pin(id.as_str(), target_timestamp, false, now_ms);
                    Some(
                        SendRequest::Unpin {
                            recipient: id,
                            is_group,
                            target_author,
                            target_timestamp,
                        },
                    )
                } else {
                    self.open_overlay(Overlay::PinDuration);
                    self.await_pin(
                        PinPending { conv_id: id, is_group, target_author, target_timestamp },
                    );
                    None
                }
            },
            None => None,
        }
    }

    fn choose_pin(&mut self, index: usize)
        ensures
            final(self).state() == pin_chosen(old(self).state(), index),
    {
        reveal(App::state);
        self.pin.index = index;
    }

    fn drop_pin(&mut self) -> (r: Option<PinPending>)
        ensures
            final(self).state() == pin_dropped(old(self).state()),
            r.deep_view() == old(self).state().pin.pending,
    {
        reveal(App::state);
        self.pin.pending.take()
    }

    /// Handles a key at the question for how long to pin a message.
    pub fn handle_pin_duration_key(&mut self, code: KeyCode, now_ms: i64) -> (r: Option<
        SendRequest,
    >)
        ensures
            (final(self).state(), r.deep_view()) == pin_key(old(self).state(), code, now_ms),
    {
        reveal(pin_key);
        let index = self.pin.index;
        assert(index == self.state().pin.index) by {
            reveal(App::state);
        }
        match classify_list_key(code, false) {
            ListKeyAction::Down => {
                self.choose_pin(move_down(index, PIN_DURATIONS.len()));
                None
            },
            ListKeyAction::Up => {
                self.choose_pin(index.saturating_sub(1));
                None
            },
            ListKeyAction::Select => {
                self.close_overlay(Overlay::PinDuration);
                match self.drop_pin() {
                    Some(p) => {
                        self.note_own_pin(p.conv_id.as_str(), p.target_timestamp, true, now_ms);
                        Some(
                            SendRequest::Pin {
                                recipient: p.conv_id,
                                is_group: p.is_group,
                                target_author: p.target_author,
                                target_timestamp: p.target_timestamp,
                                pin_duration: duration_at(index),
                            },
                        )
                    },
                    None => None,
                }
            },
            ListKeyAction::Close => {
                self.close_overlay(Overlay::PinDuration);
                let _ = self.drop_pin();
                None
            },
            _ => None,
        }
    }
}

// ---------------------------------------------------------------------------
// Polls
// ---------------------------------------------------------------------------

/// A message holds a poll that is not closed.
pub open spec fn is_open_poll(m: DisplayMessageView) -> bool {
    match m.poll_data {
        Some(p) => !p.closed,
        None => false,
    }
}

/// The state with the ballot of the selected poll open.
#[verifier::opaque]
pub open spec fn vote_begun(a: AppView) -> AppView {
    match selected(a) {
        Some(m) => if is_open_poll(m) {
            let id = a.active_conversation->0;
            let p = m.poll_data->0;
            AppView {
                poll: PollVoteOverlayStateView {
                    pending: Some(
                        PollVotePendingView {
                            conv_id: id,
                            is_group: a.is_group(id),
                            poll_author: author_number(a, m),
                            poll_timestamp: m.timestamp_ms,
                            allow_multiple: p.allow_multiple,
                            options: p.options,
                        },
                    ),
                    selections: Seq::new(p.options.len(), |i: int| false),
                    index: 0,
                    ..a.poll
                },
                ..a.opened(Overlay::PollVote)
            }
        } else {
            a
        },
        None => a,
    }
}

/// The state after one closed the selected poll, and what is sent.
#[verifier::opaque]
pub open spec fn poll_stopped(a: AppView) -> (AppView, Option<SendRequestView>) {
    match selected(a) {
        Some(m) => if m.sender == "you"@ && is_open_poll(m) {
            let id = a.active_conversation->0;
            (
                poll_ended(a, id, m.timestamp_ms),
                Some(
                    SendRequestView::PollTerminate {
                        recipient: id,
                        is_group: a.is_group(id),
                        poll_timestamp: m.timestamp_ms,
                    },
                ),
            )
        } else {
            (a, None)
        },
        None => (a, None),
    }
}

/// The state with other marks on the ballot.
pub open spec fn ballot_marked(a: AppView, index: usize, selections: Seq<bool>) -> AppView {
    AppView { poll: PollVoteOverlayStateView { index, selections, ..a.poll }, ..a }
}

/// The state with no ballot waiting.
pub open spec fn ballot_dropped(a: AppView) -> AppView {
    AppView { poll: PollVoteOverlayStateView { pending: None, ..a.poll }, ..a }
}

/// The places from `i` on that are marked.
pub open spec fn marked(s: Seq<bool>, n: int) -> Seq<i64>
    decreases n,
{
    if n <= 0 {
        Seq::empty()
    } else if s[n - 1] {
        marked(s, n - 1).push((n - 1) as i64)
    } else {
        marked(s, n - 1)
    }
}

/// A ballot after the option at a place was marked: many may be, or only one.
pub open spec fn option_marked(s: Seq<bool>, i: usize, many: bool) -> Seq<bool> {
    if many {
        if i < s.len() {
            s.update(i as int, !s[i as int])
        } else {
            s
        }
    } else {
        Seq::new(s.len(), |j: int| j == i)
    }
}

/// The state after a key on a ballot, and what is sent.
#[verifier::opaque]
pub open spec fn ballot_key(a: AppView, code: KeyCode) -> (AppView, Option<SendRequestView>) {
    match a.poll.pending {
        Some(p) => {
            let i = a.poll.index;
            let s = a.poll.selections;
            match code {
                KeyCode::Down | KeyCode::Char('j') => (
                    ballot_marked(a, step_down(i, p.options.len()), s),
                    None,
                ),
                KeyCode::Up | KeyCode::Char('k') => (ballot_marked(a, step_up(i), s), None),
                KeyCode::Char(' ') => (
                    ballot_marked(a, i, option_marked(s, i, p.allow_multiple)),
                    None,
                ),
                KeyCode::Enter => {
                    let chosen = marked(s, s.len() as int);
                    if chosen.len() == 0 {
                        (a, None)
                    } else {
                        (
                            voted(
                                ballot_dropped(a.closed(Overlay::PollVote)),
                                p.conv_id,
                                p.poll_timestamp,
                                PollVoteView {
                                    voter: a.account,
                                    voter_name: None,
                                    option_indexes: chosen,
                                    vote_count: 1,
                                },
                            ),
                            Some(
                                SendRequestView::PollVote {
                                    recipient: p.conv_id,
                                    is_group: p.is_group,
                                    poll_author: p.poll_author,
                                    poll_timestamp: p.poll_timestamp,
                                    option_indexes: chosen,
                                    vote_count: 1,
                                },
                            ),
                        )
                    }
                },
                KeyCode::Esc => (ballot_dropped(a.closed(Overlay::PollVote)), None),
                _ => (a, None),
            }
        },
        None => (a, None),
    }
}

/// Where only one option may be marked, marking one leaves exactly that one.
pub proof fn one_option_marked(s: Seq<bool>, i: usize)
    requires
        i < s.len(),
        s.len() <= i64::MAX,
    ensures
        marked(option_marked(s, i, false), s.len() as int) == seq![i as i64],
{
    let t = option_marked(s, i, false);
    marked_before(t, i as int);
    marked_behind(t, i as int, s.len() as int);
}

proof fn marked_before(t: Seq<bool>, n: int)
    requires
        0 <= n <= t.len(),
        forall|j: int| 0 <= j < n ==> !#[trigger] t[j],
    ensures
        marked(t, n) == Seq::<i64>::empty(),
    decreases n,
{
    if n > 0 {
        marked_before(t, n - 1);
    }
}

proof fn marked_behind(t: Seq<bool>, i: int, n: int)
    requires
        0 <= i < n <= t.len(),
        t[i],
        forall|j: int| i < j < t.len() ==> !#[trigger] t[j],
        marked(t, i) == Seq::<i64>::empty(),
    ensures
        marked(t, n) == seq![i as i64],
    decreases n,
{
    if n == i + 1 {
        assert(marked(t, n) =~= seq![i as i64]);
    } else {
        marked_behind(t, i, n - 1);
    }
}

fn marked_places(v: &Vec<bool>) -> (r: Vec<i64>)
    ensures
        r@ == marked(v@, v@.len() as int),
{
    let mut out: Vec<i64> = Vec::new();
    let mut i: usize = 0;
    while i < v.len()
        invariant
            i <= v@.len(),
            out@ == marked(v@, i as int),
        decreases v@.len() - i,
    {
        if v[i] {
            out.push(i as i64);
        }
        i += 1;
    }
    out
}

fn mark_option(v: &Vec<bool>, i: usize, many: bool) -> (r: Vec<bool>)
    ensures
        r@ == option_marked(v@, i, many),
{
    let mut out: Vec<bool> = Vec::new();
    let mut j: usize = 0;
    while j < v.len()
        invariant
            j <= v@.len(),
            out@.len() == j,
            forall|k: int|
                0 <= k < j ==> #[trigger] out@[k] == if many {
                    v@[k] != (k == i)
                } else {
                    k == i
                },
        decreases v@.len() - j,
    {
        if many {
            out.push(v[j] != (j == i));
        } else {
            out.push(j == i);
        }
        j += 1;
    }
    assert(out@ =~= option_marked(v@, i, many));
    out
}

fn no_marks(n: usize) -> (r: Vec<bool>)
    ensures
        r@ == Seq::new(n as nat, |i: int| false),
{
    let mut out: Vec<bool> = Vec::new();
    let mut i: usize = 0;
    while i < n
        invariant
            i <= n,
            out@ =~= Seq::new(i as nat, |i: int| false),
        decreases n - i,
    {
        out.push(false);
        i += 1;
    }
    out
}

/// A vector of truth values looks the same from outside and from inside.
proof fn marks_view(v: Vec<bool>)
    ensures
        v.deep_view() == v@,
{
    assert(v.deep_view() =~= v@);
}

/// A vector of numbers looks the same from outside and from inside.
proof fn numbers_view(v: Vec<i64>)
    ensures
        v.deep_view() == v@,
{
    assert(v.deep_view() =~= v@);
}

impl App {
    fn hand_out_ballot(&mut self, pending: PollVotePending)
        ensures
            final(self).state() == (AppView {
                poll: PollVoteOverlayStateView {
                    pending: Some(pending.deep_view()),
                    selections: Seq::new(pending.deep_view().options.len(), |i: int| false),
                    index: 0,
                    ..old(self).state().poll
                },
                ..old(self).state()
            }),
    {
        reveal(App::state);
        self.poll.selections = no_marks(pending.options.len());
        proof {
            marks_view(self.poll.selections);
        }
        self.poll.pending = Some(pending);
        self.poll.index = 0;
    }

    /// Opens the ballot of the selected poll.
    pub fn begin_vote(&mut self)
        ensures
            final(self).state() == vote_begun(old(self).state()),
    {
        reveal(vote_begun);
        if let Some((id, _, m)) = self.selection() {
            if let Some(p) = &m.poll_data {
                if !p.closed {
                    let is_group = self.conv_is_group(id.as_str());
                    let poll_author = self.author_of(&m);
                    self.open_overlay(Overlay::PollVote);
                    self.hand_out_ballot(
                        PollVotePending {
                            conv_id: id,
                            is_group,
                            poll_author,
                            poll_timestamp: m.timestamp_ms,
                            allow_multiple: p.allow_multiple,
                            options: p.options.duplicate(),
                        },
                    );
                }
            }
        }
    }

    /// Closes the selected poll, where it is one's own.
    pub fn end_poll(&mut self) -> (r: Option<SendRequest>)
        ensures
            (final(self).state(), r.deep_view()) == poll_stopped(old(self).state()),
    {
        reveal(poll_stopped);
        if let Some((id, _, m)) = self.selection() {
            let open = match &m.poll_data {
                Some(p) => !p.closed,
                None => false,
            };
            if same(m.sender.as_str(), "you") && open {
                let is_group = self.conv_is_group(id.as_str());
                self.handle_poll_terminated(id.as_str(), m.timestamp_ms);
                return Some(
                    SendRequest::PollTerminate {
                        recipient: id,
                        is_group,
                        poll_timestamp: m.timestamp_ms,
                    },
                );
            }
        }
        None
    }

    fn set_ballot(&mut self, index: usize, selections: Vec<bool>)
        ensures
            final(self).state() == ballot_marked(old(self).state(), index, selections@),
    {
        reveal(App::state);
        proof {
            marks_view(selections);
        }
        self.poll.index = index;
        self.poll.selections = selections;
    }

    fn move_on_ballot(&mut self, index: usize)
        ensures
            final(self).state() == ballot_marked(
                old(self).state(),
                index,
                old(self).state().poll.selections,
            ),
    {
        reveal(App::state);
        self.poll.index = index;
    }

    fn drop_ballot(&mut self) -> (r: Option<PollVotePending>)
        ensures
            final(self).state() == ballot_dropped(old(self).state()),
            r.deep_view() == old(self).state().poll.pending,
    {
        reveal(App::state);
        self.poll.pending.take()
    }

    /// Handles a key on a ballot.
    pub fn handle_poll_vote_key(&mut self, code: KeyCode) -> (r: Option<SendRequest>)
        ensures
            (final(self).state(), r.deep_view()) == ballot_key(old(self).state(), code),
    {
        reveal(ballot_key);
        let ghost v = self.state().poll;
        let ghost me = self.state().account;
        assert(v == self.poll.deep_view() && me == self.account@) by {
            reveal(App::state);
        }
        proof {
            marks_view(self.poll.selections);
        }
        let index = self.poll.index;
        let (count, many) = match &self.poll.pending {
            Some(p) => (p.options.len(), p.allow_multiple),
            None => return None,
        };
        match code {
            KeyCode::Down | KeyCode::Char('j') => {
                self.move_on_ballot(move_down(index, count));
                None
            },
            KeyCode::Up | KeyCode::Char('k') => {
                self.move_on_ballot(index.saturating_sub(1));
                None
            },
            KeyCode::Char(' ') => {
                let s = mark_option(&self.poll.selections, index, many);
                self.set_ballot(index, s);
                None
            },
            KeyCode::Enter => {
                let chosen = marked_places(&self.poll.selections);
                proof {
                    numbers_view(chosen);
                }
                if chosen.len() == 0 {
                    return None;
                }
                let voter = self.account.clone();
                self.close_overlay(Overlay::PollVote);
                match self.drop_ballot() {
                    Some(p) => {
                        self.handle_poll_vote(
                            p.conv_id.as_str(),
                            p.poll_timestamp,
                            PollVote {
                                voter,
                                voter_name: None,
                                option_indexes: chosen.duplicate(),
                                vote_count: 1,
                            },
                        );
                        Some(
                            SendRequest::PollVote {
                                recipient: p.conv_id,
                                is_group: p.is_group,
                                poll_author: p.poll_author,
                                poll_timestamp: p.poll_timestamp,
                                option_indexes: chosen,
                                vote_count: 1,
                            },
                        )
                    },
                    None => None,
                }
            },
            KeyCode::Esc => {
                self.close_overlay(Overlay::PollVote);
                let _ = self.drop_ballot();
                None
            },
            _ => None,
        }
    }
}

// ---------------------------------------------------------------------------
// One's profile
// ---------------------------------------------------------------------------

/// How many fields a profile has.
pub const PROFILE_FIELDS: usize = 4;

/// A field of one's profile.
pub open spec fn profile_field(p: ProfileOverlayStateView, i: int) -> Seq<char> {
    if 0 <= i < p.fields.len() {
        p.fields[i]
    } else {
        Seq::empty()
    }
}

/// The state with another profile.
pub open spec fn with_profile(a: AppView, p: ProfileOverlayStateView) -> AppView {
    AppView { profile: p, ..a }
}

/// The state after a key while a field of the profile is edited.
pub open spec fn profile_edit_key(a: AppView, code: KeyCode) -> AppView {
    let p = a.profile;
    match code {
        KeyCode::Esc => a.lowered(Flag::EditingProfile),
        KeyCode::Enter => with_profile(
            a.lowered(Flag::EditingProfile),
            ProfileOverlayStateView {
                fields: if p.index < p.fields.len() {
                    p.fields.update(p.index as int, p.edit_buffer)
                } else {
                    p.fields
                },
                ..p
            },
        ),
        KeyCode::Backspace => with_profile(
            a,
            ProfileOverlayStateView { edit_buffer: popped(p.edit_buffer), ..p },
        ),
        KeyCode::Char(c) => with_profile(
            a,
            ProfileOverlayStateView { edit_buffer: p.edit_buffer.push(c), ..p },
        ),
        _ => a,
    }
}

/// The state after a key in the profile, and what is sent. A profile needs a
/// given name.
#[verifier::opaque]
pub open spec fn profile_key(a: AppView, code: KeyCode) -> (AppView, Option<SendRequestView>) {
    let p = a.profile;
    if a.is(Flag::EditingProfile) {
        (profile_edit_key(a, code), None)
    } else {
        match code {
            KeyCode::Down | KeyCode::Char('j') => (
                with_profile(
                    a,
                    ProfileOverlayStateView {
                        index: step_down(p.index, (PROFILE_FIELDS + 1) as nat),
                        ..p
                    },
                ),
                None,
            ),
            KeyCode::Up | KeyCode::Char('k') => (
                with_profile(a, ProfileOverlayStateView { index: step_up(p.index), ..p }),
                None,
            ),
            KeyCode::Enter => if p.index < PROFILE_FIELDS {
                (
                    with_profile(
                        a.raised(Flag::EditingProfile),
                        ProfileOverlayStateView {
                            edit_buffer: profile_field(p, p.index as int),
                            ..p
                        },
                    ),
                    None,
                )
            } else if trimmed(profile_field(p, 0)).len() == 0 {
                (a.say("Given name is required"@), None)
            } else {
                (
                    a.closed(Overlay::Profile),
                    Some(
                        SendRequestView::UpdateProfile {
                            given_name: profile_field(p, 0),
                            family_name: profile_field(p, 1),
                            about: profile_field(p, 2),
                            about_emoji: profile_field(p, 3),
                        },
                    ),
                )
            },
            KeyCode::Esc => (a.closed(Overlay::Profile), None),
            _ => (a, None),
        }
    }
}

impl App {
    fn field(&self, i: usize) -> (r: String)
        ensures
            r@ == profile_field(self.state().profile, i as int),
    {
        reveal(App::state);
        if i < self.profile.fields.len() {
            assert(self.profile.fields.deep_view()[i as int] == self.profile.fields@[i as int]@);
            self.profile.fields[i].clone()
        } else {
            let empty = String::new();
            assert(empty@ =~= Seq::empty());
            empty
        }
    }

    fn select_profile_field(&mut self, index: usize)
        ensures
            final(self).state() == with_profile(
                old(self).state(),
                ProfileOverlayStateView { index, ..old(self).state().profile },
            ),
    {
        reveal(App::state);
        self.profile.index = index;
    }

    fn set_profile_buffer(&mut self, text: String)
        ensures
            final(self).state() == with_profile(
                old(self).state(),
                ProfileOverlayStateView { edit_buffer: text@, ..old(self).state().profile },
            ),
    {
        reveal(App::state);
        self.profile.edit_buffer = text;
    }

    fn take_profile_field(&mut self)
        ensures
            final(self).state() == ({
                let p = old(self).state().profile;
                with_profile(
                    old(self).state(),
                    ProfileOverlayStateView {
                        fields: if p.index < p.fields.len() {
                            p.fields.update(p.index as int, p.edit_buffer)
                        } else {
                            p.fields
                        },
                        ..p
                    },
                )
            }),
    {
        reveal(App::state);
        let ghost before = self.profile.fields.deep_view();
        if self.profile.index < self.profile.fields.len() {
            let text = self.profile.edit_buffer.clone();
            self.profile.fields.set(self.profile.index, text);
            assert(self.profile.fields.deep_view() =~= before.update(
                self.profile.index as int,
                text@,
            ));
        }
    }

    fn edit_profile(&mut self, code: KeyCode)
        ensures
            final(self).state() == profile_edit_key(old(self).state(), code),
    {
        assert(self.profile.deep_view() == self.state().profile) by {
            reveal(App::state);
        }
        match code {
            KeyCode::Esc => self.lower(Flag::EditingProfile),
            KeyCode::Enter => {
                self.lower(Flag::EditingProfile);
                self.take_profile_field();
            },
            KeyCode::Backspace => {
                let mut text = self.profile.edit_buffer.clone();
                let _ = text.pop();
                self.set_profile_buffer(text);
            },
            KeyCode::Char(c) => {
                let mut text = self.profile.edit_buffer.clone();
                text.push(c);
                self.set_profile_buffer(text);
            },
            _ => {},
        }
    }

    /// Handles a key in the profile.
    pub fn handle_profile_key(&mut self, code: KeyCode) -> (r: Option<SendRequest>)
        ensures
            (final(self).state(), r.deep_view()) == profile_key(old(self).state(), code),
    {
        reveal(profile_key);
        if self.has_flag(Flag::EditingProfile) {
            self.edit_profile(code);
            return None;
        }
        let index = self.profile.index;
        assert(index == self.state().profile.index) by {
            reveal(App::state);
        }
        match code {
            KeyCode::Down | KeyCode::Char('j') => {
                self.select_profile_field(move_down(index, PROFILE_FIELDS + 1));
            },
            KeyCode::Up | KeyCode::Char('k') => {
                self.select_profile_field(index.saturating_sub(1));
            },
            KeyCode::Enter => {
                if index < PROFILE_FIELDS {
                    let text = self.field(index);
                    self.raise(Flag::EditingProfile);
                    self.set_profile_buffer(text);
                } else {
                    let given_name = self.field(0);
                    if trim(given_name.as_str()).as_str().is_empty() {
                        self.set_status("Given name is required");
                        return None;
                    }
                    let family_name = self.field(1);
                    let about = self.field(2);
                    let about_emoji = self.field(3);
                    self.close_overlay(Overlay::Profile);
                    return Some(
                        SendRequest::UpdateProfile { given_name, family_name, about, about_emoji },
                    );
                }
            },
            KeyCode::Esc => {
                self.close_overlay(Overlay::Profile);
            },
            _ => {},
        }
        None
    }
}

// ---------------------------------------------------------------------------
// The menu
// ---------------------------------------------------------------------------

/// A key of the menu, where it is offered.
pub open spec fn offered(yes: bool, hint: char) -> Seq<char> {
    if yes {
        seq![hint]
    } else {
        Seq::empty()
    }
}

/// The keys of what can be done with a message, from the top down.
pub open spec fn action_hints(m: DisplayMessageView) -> Seq<char> {
    let own = m.sender == "you"@;
    offered(is_live(m), 'q') + offered(own && is_live(m), 'e') + offered(!m.is_system, 'r')
        + offered(is_live(m), 'f') + seq!['y'] + offered(is_live(m), 'd') + offered(is_live(m), 'p')
        + offered(is_open_poll(m), 'v') + offered(own && is_open_poll(m), 'x')
}

/// The entry of the menu behind a key.
pub open spec fn action_entry(hint: char, pinned: bool) -> MenuActionView {
    if hint == 'q' {
        MenuActionView { label: "Reply"@, key_hint: "q"@, nerd_icon: "\u{f045a}"@ }
    } else if hint == 'e' {
        MenuActionView { label: "Edit"@, key_hint: "e"@, nerd_icon: "\u{f03eb}"@ }
    } else if hint == 'r' {
        MenuActionView { label: "React"@, key_hint: "r"@, nerd_icon: "\u{f0785}"@ }
    } else if hint == 'f' {
        MenuActionView { label: "Forward"@, key_hint: "f"@, nerd_icon: "\u{f04d6}"@ }
    } else if hint == 'y' {
        MenuActionView { label: "Copy"@, key_hint: "y"@, nerd_icon: "\u{f018f}"@ }
    } else if hint == 'd' {
        MenuActionView { label: "Delete"@, key_hint: "d"@, nerd_icon: "\u{f0a79}"@ }
    } else if hint == 'p' {
        MenuActionView {
            label: if pinned {
                "Unpin"@
            } else {
                "Pin"@
            },
            key_hint: "p"@,
            nerd_icon: "\u{f0403}"@,
        }
    } else if hint == 'v' {
        MenuActionView { label: "Vote"@, key_hint: "v"@, nerd_icon: "\u{f0e73}"@ }
    } else {
        MenuActionView { label: "End Poll"@, key_hint: "x"@, nerd_icon: "\u{f073a}"@ }
    }
}

/// The keys of what can be done with the selected message.
pub open spec fn selected_hints(a: AppView) -> Seq<char> {
    match selected(a) {
        Some(m) => action_hints(m),
        None => Seq::empty(),
    }
}

/// The entries of the menu for the selected message.
pub open spec fn action_items(a: AppView) -> Seq<MenuActionView> {
    match selected(a) {
        Some(m) => action_hints(m).map_values(|h: char| action_entry(h, m.is_pinned)),
        None => Seq::empty(),
    }
}

/// The state after what a key of the menu stands for was done with the selected
/// message, and what is sent.
pub open spec fn action_done(a: AppView, hint: char, now_ms: i64) -> (
    AppView,
    Option<SendRequestView>,
) {
    if hint == 'q' {
        (reply_begun(a), None)
    } else if hint == 'e' {
        (edit_begun(a), None)
    } else if hint == 'r' {
        (reacting_begun(a), None)
    } else if hint == 'f' {
        (forwarding_begun(a), None)
    } else if hint == 'y' {
        (copying_asked(a, false), None)
    } else if hint == 'd' {
        (deletion_asked(a), None)
    } else if hint == 'p' {
        pin_toggled(a, now_ms)
    } else if hint == 'v' {
        (vote_begun(a), None)
    } else if hint == 'x' {
        poll_stopped(a)
    } else {
        (a, None)
    }
}

/// The state with another entry of the menu selected.
pub open spec fn action_selected(a: AppView, index: usize) -> AppView {
    AppView { action_menu: ActionMenuStateView { index }, ..a }
}

/// The state after a key in the menu, and what is sent. Only what the menu
/// offers is done.
#[verifier::opaque]
pub open spec fn action_key(a: AppView, code: KeyCode, now_ms: i64) -> (
    AppView,
    Option<SendRequestView>,
) {
    let hints = selected_hints(a);
    let b = a.closed(Overlay::ActionMenu);
    let i = a.action_menu.index;
    if hints.len() == 0 {
        (b, None)
    } else {
        match list_key(code, false) {
            ListKeyAction::Down => (action_selected(a, step_down(i, hints.len())), None),
            ListKeyAction::Up => (action_selected(a, step_up(i)), None),
            ListKeyAction::Select => if i < hints.len() {
                action_done(b, hints[i as int], now_ms)
            } else {
                (b, None)
            },
            ListKeyAction::Close => (b, None),
            _ => match code {
                KeyCode::Char(c) => if hints.contains(c) {
                    action_done(b, c, now_ms)
                } else {
                    (a, None)
                },
                _ => (a, None),
            },
        }
    }
}

fn offer(v: &mut Vec<char>, yes: bool, hint: char)
    ensures
        final(v)@ == old(v)@ + offered(yes, hint),
{
    let ghost before = v@;
    if yes {
        v.push(hint);
    }
    assert(v@ =~= before + offered(yes, hint));
}

fn hints_for(m: &DisplayMessage) -> (r: Vec<char>)
    ensures
        r@ == action_hints(m.deep_view()),
{
    let own = same(m.sender.as_str(), "you");
    let live = !m.is_system && !m.is_deleted;
    let poll = match &m.poll_data {
        Some(p) => !p.closed,
        None => false,
    };
    let mut v: Vec<char> = Vec::new();
    offer(&mut v, live, 'q');
    assert(v@ =~= offered(live, 'q'));
    offer(&mut v, own && live, 'e');
    offer(&mut v, !m.is_system, 'r');
    offer(&mut v, live, 'f');
    offer(&mut v, true, 'y');
    offer(&mut v, live, 'd');
    offer(&mut v, live, 'p');
    offer(&mut v, poll, 'v');
    offer(&mut v, own && poll, 'x');
    v
}

fn entry_for(hint: char, pinned: bool) -> (r: MenuAction)
    ensures
        r.deep_view() == action_entry(hint, pinned),
{
    if hint == 'q' {
        MenuAction { label: "Reply", key_hint: "q", nerd_icon: "\u{f045a}" }
    } else if hint == 'e' {
        MenuAction { label: "Edit", key_hint: "e", nerd_icon: "\u{f03eb}" }
    } else if hint == 'r' {
        MenuAction { label: "React", key_hint: "r", nerd_icon: "\u{f0785}" }
    } else if hint == 'f' {
        MenuAction { label: "Forward", key_hint: "f", nerd_icon: "\u{f04d6}" }
    } else if hint == 'y' {
        MenuAction { label: "Copy", key_hint: "y", nerd_icon: "\u{f018f}" }
    } else if hint == 'd' {
        MenuAction { label: "Delete", key_hint: "d", nerd_icon: "\u{f0a79}" }
    } else if hint == 'p' {
        MenuAction {
            label: if pinned {
                "Unpin"
            } else {
                "Pin"
            },
            key_hint: "p",
            nerd_icon: "\u{f0403}",
        }
    } else if hint == 'v' {
        MenuAction { label: "Vote", key_hint: "v", nerd_icon: "\u{f0e73}" }
    } else {
        MenuAction { label: "End Poll", key_hint: "x", nerd_icon: "\u{f073a}" }
    }
}

fn lists_char(v: &Vec<char>, c: char) -> (r: bool)
    ensures
        r == v@.contains(c),
{
    let mut i: usize = 0;
    while i < v.len()
        invariant
            i <= v@.len(),
            forall|j: int| 0 <= j < i ==> v@[j] != c,
        decreases v@.len() - i,
    {
        if v[i] == c {
            return true;
        }
        i += 1;
    }
    false
}

impl App {
    fn hints(&self) -> (r: Vec<char>)
        ensures
            r@ == selected_hints(self.state()),
    {
        match self.selected_message() {
            Some(m) => hints_for(m),
            None => {
                let none: Vec<char> = Vec::new();
                assert(none@ =~= Seq::<char>::empty());
                none
            },
        }
    }

    /// The entries of the menu for the selected message.
    pub fn action_menu_items(&self) -> (r: Vec<MenuAction>)
        ensures
            r.deep_view() == action_items(self.state()),
    {
        let mut out: Vec<MenuAction> = Vec::new();
        match self.selected_message() {
            Some(m) => {
                let hints = hints_for(m);
                let pinned = m.is_pinned;
                let ghost f = |h: char| action_entry(h, pinned);
                let mut i: usize = 0;
                while i < hints.len()
                    invariant
                        i <= hints@.len(),
                        f == |h: char| action_entry(h, pinned),
                        out@.len() == i,
                        forall|k: int|
                            0 <= k < i ==> (#[trigger] out@[k]).deep_view() == f(hints@[k]),
                    decreases hints@.len() - i,
                {
                    let e = entry_for(hints[i], pinned);
                    out.push(e);
                    i += 1;
                }
                assert(out.deep_view() =~= hints@.map_values(f));
            },
            None => {
                assert(out.deep_view() =~= Seq::<MenuActionView>::empty());
            },
        }
        out
    }

    /// Does what a key of the menu stands for with the selected message.
    pub fn execute_action_by_hint(&mut self, hint: char, now_ms: i64) -> (r: Option<SendRequest>)
        ensures
            (final(self).state(), r.deep_view()) == action_done(old(self).state(), hint, now_ms),
    {
        if hint == 'q' {
            self.begin_reply();
        } else if hint == 'e' {
            self.begin_edit();
        } else if hint == 'r' {
            self.begin_reaction();
        } else if hint == 'f' {
            self.begin_forward();
        } else if hint == 'y' {
            self.copy_selected_message(false);
        } else if hint == 'd' {
            self.ask_deletion();
        } else if hint == 'p' {
            return self.execute_pin_toggle(now_ms);
        } else if hint == 'v' {
            self.begin_vote();
        } else if hint == 'x' {
            return self.end_poll();
        }
        None
    }

    /// Selects an entry of the menu.
    pub fn select_action(&mut self, index: usize)
        ensures
            final(self).state() == action_selected(old(self).state(), index),
    {
        reveal(App::state);
        self.action_menu.index = index;
    }

    /// Handles a key in the menu.
    pub fn handle_action_menu_key(&mut self, code: KeyCode, now_ms: i64) -> (r: Option<SendRequest>)
        ensures
            (final(self).state(), r.deep_view()) == action_key(old(self).state(), code, now_ms),
    {
        reveal(action_key);
        let hints = self.hints();
        let index = self.action_menu.index;
        assert(index == self.state().action_menu.index) by {
            reveal(App::state);
        }
        if hints.len() == 0 {
            self.close_overlay(Overlay::ActionMenu);
            return None;
        }
        match classify_list_key(code, false) {
            ListKeyAction::Down => {
                self.select_action(move_down(index, hints.len()));
                None
            },
            ListKeyAction::Up => {
                self.select_action(index.saturating_sub(1));
                None
            },
            ListKeyAction::Select => {
                self.close_overlay(Overlay::ActionMenu);
                if index < hints.len() {
                    self.execute_action_by_hint(hints[index], now_ms)
                } else {
                    None
                }
            },
            ListKeyAction::Close => {
                self.close_overlay(Overlay::ActionMenu);
                None
            },
            _ => match code {
                KeyCode::Char(c) => if lists_char(&hints, c) {
                    self.close_overlay(Overlay::ActionMenu);
                    self.execute_action_by_hint(c, now_ms)
                } else {
                    None
                },
                _ => None,
            },
        }
    }
}

/// What the menu offers is what the keys would do: nothing is offered for a
/// message of the client's own but to copy it, and only one's own messages can
/// be edited.
pub proof fn menu_offers(m: DisplayMessageView)
    ensures
        m.is_system && m.poll_data is None ==> action_hints(m) == seq!['y'],
        action_hints(m).contains('e') ==> m.sender == "you"@ && is_live(m),
        action_hints(m).contains('y'),
{
    let own = m.sender == "you"@;
    let h = action_hints(m);
    if m.is_system && m.poll_data is None {
        assert(h =~= seq!['y']);
    }
    let p = offered(is_live(m), 'q') + offered(own && is_live(m), 'e') + offered(!m.is_system, 'r')
        + offered(is_live(m), 'f');
    assert(h[p.len() as int] == 'y');
}

// ---------------------------------------------------------------------------
// Message requests
// ---------------------------------------------------------------------------

/// Texts other than one.
pub open spec fn other_than(id: Seq<char>) -> spec_fn(Seq<char>) -> bool {
    |x: Seq<char>| x != id
}

/// The state with a conversation gone.
pub open spec fn forgotten(a: AppView, id: Seq<char>) -> AppView {
    AppView {
        store: ConversationStoreView {
            conversations: del(a.store.conversations, id),
            conversation_order: a.store.conversation_order.filter(other_than(id)),
            ..a.store
        },
        scroll: ScrollStateView { positions: del(a.scroll.positions, id), ..a.scroll },
        active_conversation: None,
        ..a
    }
}

/// The state with a conversation accepted.
pub open spec fn request_accepted(a: AppView, id: Seq<char>) -> AppView {
    match look(a.store.conversations, id) {
        Some(c) => a.with_conv(id, ConversationView { accepted: true, ..c }),
        None => a,
    }
}

/// The state after a key at the question whether to accept a conversation, and
/// what is sent.
#[verifier::opaque]
pub open spec fn request_key(a: AppView, code: KeyCode) -> (AppView, Option<SendRequestView>) {
    let b = a.closed(Overlay::MessageRequest);
    match a.active_conversation {
        Some(id) => match code {
            KeyCode::Char('a') => (
                request_accepted(b, id).write(
                    shown(
                        DbWriteView::UpdateAccepted { conv_id: id, accepted: true },
                        "update_accepted"@,
                    ),
                ),
                Some(
                    SendRequestView::MessageRequestResponse {
                        recipient: id,
                        is_group: a.is_group(id),
                        response_type: "accept"@,
                    },
                ),
            ),
            KeyCode::Char('d') => (
                forgotten(b, id).write(
                    shown(
                        DbWriteView::DeleteConversation { conv_id: id },
                        "delete_conversation"@,
                    ),
                ),
                Some(
                    SendRequestView::MessageRequestResponse {
                        recipient: id,
                        is_group: a.is_group(id),
                        response_type: "delete"@,
                    },
                ),
            ),
            KeyCode::Esc => (AppView { active_conversation: None, ..b }, None),
            _ => (a, None),
        },
        None => (b, None),
    }
}

fn without_text(v: &Vec<String>, x: &str) -> (r: Vec<String>)
    ensures
        r.deep_view() == v.deep_view().filter(|y: Seq<char>| y != x@),
{
    let ghost s = v.deep_view();
    let ghost p = |y: Seq<char>| y != x@;
    let mut out: Vec<String> = Vec::new();
    let mut i: usize = 0;
    proof {
        crate::common::filter_none(s, p);
    }
    assert(out.deep_view() =~= s.take(0).filter(p));
    while i < v.len()
        invariant
            i <= v@.len(),
            s == v.deep_view(),
            p == |y: Seq<char>| y != x@,
            out.deep_view() == s.take(i as int).filter(p),
        decreases v@.len() - i,
    {
        proof {
            crate::common::filter_take(s, i as int, p);
            assert(s[i as int] == v@[i as int]@);
        }
        if !same(v[i].as_str(), x) {
            let ghost before = out.deep_view();
            let y = v[i].clone();
            out.push(y);
            assert(out.deep_view() =~= before.push(y@));
        }
        i += 1;
    }
    assert(s.take(s.len() as int) =~= s);
    out
}

impl App {
    fn forget_conversation(&mut self, id: &str)
        ensures
            final(self).state() == forgotten(old(self).state(), id@),
    {
        reveal(App::state);
        let _ = self.store.conversations.remove(id);
        self.store.conversation_order = without_text(&self.store.conversation_order, id);
        let _ = self.scroll.positions.remove(id);
        self.active_conversation = None;
    }

    fn accept_conversation(&mut self, id: &str)
        ensures
            final(self).state() == request_accepted(old(self).state(), id@),
    {
        reveal(App::state);
        if let Some(c) = self.store.conversations.get_mut(id) {
            c.accepted = true;
        }
    }

    /// Handles a key at the question whether to accept a conversation.
    pub fn handle_message_request_key(&mut self, code: KeyCode) -> (r: Option<SendRequest>)
        ensures
            (final(self).state(), r.deep_view()) == request_key(old(self).state(), code),
    {
        reveal(request_key);
        match self.active_id() {
            Some(id) => {
                let is_group = self.conv_is_group(id.as_str());
                match code {
                    KeyCode::Char('a') => {
                        self.close_overlay(Overlay::MessageRequest);
                        self.accept_conversation(id.as_str());
                        self.record(
                            DbWrite::UpdateAccepted { conv_id: id.clone(), accepted: true },
                            "update_accepted",
                            true,
                        );
                        Some(
                            SendRequest::MessageRequestResponse {
                                recipient: id,
                                is_group,
                                response_type: "accept".to_string(),
                            },
                        )
                    },
                    KeyCode::Char('d') => {
                        self.close_overlay(Overlay::MessageRequest);
                        self.forget_conversation(id.as_str());
                        self.record(
                            DbWrite::DeleteConversation { conv_id: id.clone() },
                            "delete_conversation",
                            true,
                        );
                        Some(
                            SendRequest::MessageRequestResponse {
                                recipient: id,
                                is_group,
                                response_type: "delete".to_string(),
                            },
                        )
                    },
                    KeyCode::Esc => {
                        self.close_overlay(Overlay::MessageRequest);
                        self.no_conversation();
                        None
                    },
                    _ => None,
                }
            },
            None => {
                self.close_overlay(Overlay::MessageRequest);
                None
            },
        }
    }
}

} // verus!
