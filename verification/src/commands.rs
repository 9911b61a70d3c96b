//! What a line of input does.
use crate::app::{
    App, AppView, ContactsOverlayStateView, Effect, EffectView, EmojiPickerSource, Flag,
    GroupMenuOverlayStateView, GroupMenuState, InputStateView, Overlay, PendingStateView,
    ProfileOverlayStateView, SendRequest, SendRequestView, Setting, VerifyOverlayStateView,
};
use crate::common::{filter_none, filter_take};
use crate::conversation_store::ConversationView;
use crate::db::{quiet, shown, DbWrite, DbWriteView};
use crate::emoji_picker::emoji_picker_opened;
use crate::export::export_asked;
use crate::file_picker::browser_opened;
use crate::input::{
    duration_error, parse_duration_to_seconds, parse_input, parsed_duration, parsed_input,
    InputAction, InputForm,
};
use crate::kindset::assigned;
use crate::lists::{contacts_filtered, lists_text};
use crate::menu::at_bottom;
use crate::navigation::{joined, scroll_saved, status_updated, typing_stopped};
use crate::search::search_opened;
use crate::sending::{poll_created, text_submitted};
use crate::settings::{keybindings_opened, theme_picker_opened};
use crate::signal::{IdentityInfo, IdentityInfoView, TrustLevel};
use crate::strmap::{del, look, put, StrMap};
use crate::text::{concat2, concat3, same, texts, trim, trimmed};
use vstd::prelude::*;

verus! {

// ---------------------------------------------------------------------------
// Notifications
// ---------------------------------------------------------------------------

/// The state with something switched on or off.
pub open spec fn switched(a: AppView, k: Setting, on: bool) -> AppView {
    AppView { settings: assigned(a.settings, k, on), ..a }
}

/// How a switch that is on or off is called.
pub open spec fn on_or_off(on: bool) -> Seq<char> {
    if on {
        "on"@
    } else {
        "off"@
    }
}

/// The state with the bell switched: for both kinds of messages together, or for
/// one kind.
#[verifier::opaque]
pub open spec fn bell_toggled(a: AppView, target: Option<Seq<char>>) -> AppView {
    match target {
        None => {
            let on = !(a.on(Setting::NotifyDirect) && a.on(Setting::NotifyGroup));
            switched(switched(a, Setting::NotifyDirect, on), Setting::NotifyGroup, on).say(
                "notifications "@ + on_or_off(on),
            )
        },
        Some(t) => if t == "direct"@ || t == "dm"@ || t == "1:1"@ {
            let on = !a.on(Setting::NotifyDirect);
            switched(a, Setting::NotifyDirect, on).say("direct notifications "@ + on_or_off(on))
        } else if t == "group"@ || t == "groups"@ {
            let on = !a.on(Setting::NotifyGroup);
            switched(a, Setting::NotifyGroup, on).say("group notifications "@ + on_or_off(on))
        } else {
            a.say("unknown bell type: "@ + t + " (use direct or group)"@)
        },
    }
}

fn state_word(on: bool) -> (r: &'static str)
    ensures
        r@ == on_or_off(on),
{
    if on {
        "on"
    } else {
        "off"
    }
}

impl App {
    fn switch(&mut self, k: Setting, on: bool)
        ensures
            final(self).state() == switched(old(self).state(), k, on),
    {
        reveal(App::state);
        self.settings.assign(k, on);
    }

    /// Switches the bell: for both kinds of messages together, or for one kind.
    pub fn toggle_bell(&mut self, target: Option<String>)
        ensures
            final(self).state() == bell_toggled(old(self).state(), target.deep_view()),
    {
        reveal(bell_toggled);
        match target {
            None => {
                let on = !(self.is_on(Setting::NotifyDirect) && self.is_on(Setting::NotifyGroup));
                self.switch(Setting::NotifyDirect, on);
                self.switch(Setting::NotifyGroup, on);
                let text = concat2("notifications ", state_word(on));
                self.set_status(text.as_str());
            },
            Some(t) => {
                if same(t.as_str(), "direct") || same(t.as_str(), "dm") || same(t.as_str(), "1:1") {
                    let on = !self.is_on(Setting::NotifyDirect);
                    self.switch(Setting::NotifyDirect, on);
                    let text = concat2("direct notifications ", state_word(on));
                    self.set_status(text.as_str());
                } else if same(t.as_str(), "group") || same(t.as_str(), "groups") {
                    let on = !self.is_on(Setting::NotifyGroup);
                    self.switch(Setting::NotifyGroup, on);
                    let text = concat2("group notifications ", state_word(on));
                    self.set_status(text.as_str());
                } else {
                    let text = concat3("unknown bell type: ", t.as_str(), " (use direct or group)");
                    self.set_status(text.as_str());
                }
            },
        }
    }
}

// ---------------------------------------------------------------------------
// Muting and blocking
// ---------------------------------------------------------------------------

/// How a conversation is called: by its name, or by its id where it is not
/// there.
pub open spec fn title_of(a: AppView, id: Seq<char>) -> Seq<char> {
    match look(a.store.conversations, id) {
        Some(c) => c.name,
        None => id,
    }
}

/// The state with a conversation muted, for good or until a time, or no more so.
pub open spec fn mute_set(a: AppView, id: Seq<char>, muted: bool, until: Option<i64>) -> AppView {
    AppView {
        muted: assigned(a.muted, id, muted),
        mute_ends: match until {
            Some(t) => put(a.mute_ends, id, t),
            None => del(a.mute_ends, id),
        },
        ..a
    }.write(quiet(DbWriteView::SetMuted { conv_id: id, muted }, "set_muted"@))
}

/// A time that lies some seconds ahead.
pub open spec fn seconds_ahead(now_ms: i64, seconds: i64) -> i64 {
    let t = now_ms + seconds * 1000;
    if t > i64::MAX {
        i64::MAX
    } else {
        t as i64
    }
}

/// The state with the active conversation muted, or no more so.
#[verifier::opaque]
pub open spec fn mute_toggled(a: AppView) -> AppView {
    match a.active_conversation {
        Some(id) => {
            let on = !a.muted.contains(id);
            mute_set(a, id, on, None).say(
                (if on {
                    "muted "@
                } else {
                    "unmuted "@
                }) + title_of(a, id),
            )
        },
        None => a.say("no active conversation to mute"@),
    }
}

/// The state with the active conversation muted for a while.
#[verifier::opaque]
pub open spec fn muted_for(a: AppView, text: Seq<char>, now_ms: i64) -> AppView {
    match a.active_conversation {
        Some(id) => match parsed_duration(text) {
            Some(seconds) => if seconds > 0 {
                mute_set(a, id, true, Some(seconds_ahead(now_ms, seconds))).say(
                    "muted "@ + title_of(a, id) + " for "@ + text,
                )
            } else {
                a.say("use /mute to unmute, or specify a duration: 30m, 2h, 1d, 1w"@)
            },
            None => a.say("invalid duration '"@ + text + "'. Try 30m, 2h, 1d, 1w"@),
        },
        None => a.say("no active conversation to mute"@),
    }
}

/// The state with a conversation blocked, or no more so.
pub open spec fn block_set(a: AppView, id: Seq<char>, blocked: bool) -> AppView {
    AppView { blocked: assigned(a.blocked, id, blocked), ..a }.write(
        quiet(DbWriteView::SetBlocked { conv_id: id, blocked }, "set_blocked"@),
    )
}

/// The state with the active conversation blocked, and what is sent.
#[verifier::opaque]
pub open spec fn block_asked(a: AppView) -> (AppView, Option<SendRequestView>) {
    match a.active_conversation {
        Some(id) => if a.blocked.contains(id) {
            (a.say(title_of(a, id) + " is already blocked"@), None)
        } else {
            (
                block_set(a, id, true).say("blocked "@ + title_of(a, id)),
                Some(SendRequestView::Block { recipient: id, is_group: a.is_group(id) }),
            )
        },
        None => (a.say("no active conversation to block"@), None),
    }
}

/// The state with the active conversation no more blocked, and what is sent.
#[verifier::opaque]
pub open spec fn unblock_asked(a: AppView) -> (AppView, Option<SendRequestView>) {
    match a.active_conversation {
        Some(id) => if a.blocked.contains(id) {
            (
                block_set(a, id, false).say("unblocked "@ + title_of(a, id)),
                Some(SendRequestView::Unblock { recipient: id, is_group: a.is_group(id) }),
            )
        } else {
            (a.say(title_of(a, id) + " is not blocked"@), None)
        },
        None => (a.say("no active conversation to unblock"@), None),
    }
}

/// The state with the timer of the active conversation set, and what is sent.
#[verifier::opaque]
pub open spec fn disappearing_set(a: AppView, text: Seq<char>) -> (
    AppView,
    Option<SendRequestView>,
) {
    match parsed_duration(text) {
        Some(seconds) => match a.active_conversation {
            Some(id) => {
                let b = match look(a.store.conversations, id) {
                    Some(c) => a.with_conv(
                        id,
                        ConversationView { expiration_timer: seconds, ..c },
                    ),
                    None => a,
                };
                (
                    b.write(
                        shown(
                            DbWriteView::UpdateExpirationTimer { conv_id: id, seconds },
                            "update_expiration_timer"@,
                        ),
                    ),
                    Some(
                        SendRequestView::UpdateExpiration {
                            conv_id: id,
                            is_group: a.is_group(id),
                            seconds,
                        },
                    ),
                )
            },
            None => (a.say("No active conversation"@), None),
        },
        None => (a.say(duration_error(text)), None),
    }
}

/// Muting a conversation twice leaves it as it was.
pub proof fn muting_twice_undoes(a: AppView)
    ensures
        mute_toggled(mute_toggled(a)).muted == a.muted,
{
    reveal(mute_toggled);
    match a.active_conversation {
        Some(id) => {
            assert(a.muted.insert(id).remove(id) =~= a.muted.remove(id));
            if a.muted.contains(id) {
                assert(a.muted.remove(id).insert(id) =~= a.muted);
            } else {
                assert(a.muted.insert(id).remove(id) =~= a.muted);
            }
        },
        None => {},
    }
}

/// A conversation that is blocked and then no more so is as it was, and both are
/// told to the service.
pub proof fn unblocking_undoes_blocking(a: AppView, id: Seq<char>)
    requires
        a.active_conversation == Some(id),
        !a.blocked.contains(id),
    ensures
        ({
            let (b, first) = block_asked(a);
            let (c, second) = unblock_asked(b);
            b.blocked.contains(id) && c.blocked == a.blocked && first is Some && second is Some
        }),
{
    reveal(block_asked);
    reveal(unblock_asked);
    assert(a.blocked.insert(id).remove(id) =~= a.blocked);
}

/// The bell switched twice for one kind of messages is as it was.
pub proof fn bell_twice_undoes(a: AppView, target: Seq<char>)
    requires
        target == "direct"@ || target == "group"@,
    ensures
        bell_toggled(bell_toggled(a, Some(target)), Some(target)).settings == a.settings,
{
    reveal(bell_toggled);
    reveal_strlit("direct");
    reveal_strlit("group");
    reveal_strlit("dm");
    reveal_strlit("1:1");
    let k = if target == "direct"@ {
        Setting::NotifyDirect
    } else {
        Setting::NotifyGroup
    };
    assert("group"@ != "direct"@ && "group"@ != "dm"@ && "group"@ != "1:1"@) by {
        assert("group"@.len() == 5 && "direct"@.len() == 6 && "dm"@.len() == 2 && "1:1"@.len() == 3);
    }
    if a.settings.contains(k) {
        assert(a.settings.remove(k).insert(k) =~= a.settings);
    } else {
        assert(a.settings.insert(k).remove(k) =~= a.settings);
    }
}

impl App {
    fn title(&self, id: &str) -> (r: String)
        ensures
            r@ == title_of(self.state(), id@),
    {
        reveal(App::state);
        match self.store.conversations.get(id) {
            Some(c) => c.name.clone(),
            None => id.to_string(),
        }
    }

    fn is_muted(&self, id: &str) -> (r: bool)
        ensures
            r == self.state().muted.contains(id@),
    {
        reveal(App::state);
        self.muted.contains(id)
    }

    fn is_blocked(&self, id: &str) -> (r: bool)
        ensures
            r == self.state().blocked.contains(id@),
    {
        reveal(App::state);
        self.blocked.contains(id)
    }

    fn assign_mute(&mut self, id: &str, muted: bool, until: Option<i64>)
        ensures
            final(self).state() == (AppView {
                muted: assigned(old(self).state().muted, id@, muted),
                mute_ends: match until {
                    Some(t) => put(old(self).state().mute_ends, id@, t),
                    None => del(old(self).state().mute_ends, id@),
                },
                ..old(self).state()
            }),
    {
        reveal(App::state);
        if muted {
            self.muted.insert(id.to_string());
        } else {
            self.muted.remove(id);
        }
        match until {
            Some(t) => {
                self.mute_ends.insert(id.to_string(), t);
            },
            None => {
                let _ = self.mute_ends.remove(id);
            },
        }
    }

    /// Mutes a conversation, for good or until a time, or no more so.
    pub fn apply_mute(&mut self, id: &str, muted: bool, until: Option<i64>)
        ensures
            final(self).state() == mute_set(old(self).state(), id@, muted, until),
    {
        self.assign_mute(id, muted, until);
        self.record(DbWrite::SetMuted { conv_id: id.to_string(), muted }, "set_muted", false);
    }

    fn assign_block(&mut self, id: &str, blocked: bool)
        ensures
            final(self).state() == (AppView {
                blocked: assigned(old(self).state().blocked, id@, blocked),
                ..old(self).state()
            }),
    {
        reveal(App::state);
        if blocked {
            self.blocked.insert(id.to_string());
        } else {
            self.blocked.remove(id);
        }
    }

    fn apply_block(&mut self, id: &str, blocked: bool)
        ensures
            final(self).state() == block_set(old(self).state(), id@, blocked),
    {
        self.assign_block(id, blocked);
        self.record(DbWrite::SetBlocked { conv_id: id.to_string(), blocked }, "set_blocked", false);
    }

    /// Mutes the active conversation, or no more so.
    pub fn toggle_mute(&mut self)
        ensures
            final(self).state() == mute_toggled(old(self).state()),
    {
        reveal(mute_toggled);
        match self.active_id() {
            Some(id) => {
                let on = !self.is_muted(id.as_str());
                let name = self.title(id.as_str());
                self.apply_mute(id.as_str(), on, None);
                let text = concat2(
                    if on {
                        "muted "
                    } else {
                        "unmuted "
                    },
                    name.as_str(),
                );
                self.set_status(text.as_str());
            },
            None => self.set_status("no active conversation to mute"),
        }
    }

    /// Mutes the active conversation for a while.
    pub fn mute_for(&mut self, text: &str, now_ms: i64)
        ensures
            final(self).state() == muted_for(old(self).state(), text@, now_ms),
    {
        reveal(muted_for);
        match self.active_id() {
            Some(id) => match parse_duration_to_seconds(text) {
                Ok(seconds) => {
                    if seconds > 0 {
                        let name = self.title(id.as_str());
                        let t: i128 = now_ms as i128 + seconds as i128 * 1000;
                        let until = if t > i64::MAX as i128 {
                            i64::MAX
                        } else {
                            t as i64
                        };
                        self.apply_mute(id.as_str(), true, Some(until));
                        let a = concat3("muted ", name.as_str(), " for ");
                        let status = concat2(a.as_str(), text);
                        self.set_status(status.as_str());
                    } else {
                        self.set_status(
                            "use /mute to unmute, or specify a duration: 30m, 2h, 1d, 1w",
                        );
                    }
                },
                Err(_) => {
                    let status = concat3("invalid duration '", text, "'. Try 30m, 2h, 1d, 1w");
                    self.set_status(status.as_str());
                },
            },
            None => self.set_status("no active conversation to mute"),
        }
    }

    /// Blocks the active conversation.
    pub fn block(&mut self) -> (r: Option<SendRequest>)
        ensures
            (final(self).state(), r.deep_view()) == block_asked(old(self).state()),
    {
        reveal(block_asked);
        match self.active_id() {
            Some(id) => {
                let name = self.title(id.as_str());
                let is_group = self.conv_is_group(id.as_str());
                if self.is_blocked(id.as_str()) {
                    let text = concat2(name.as_str(), " is already blocked");
                    self.set_status(text.as_str());
                    None
                } else {
                    self.apply_block(id.as_str(), true);
                    let text = concat2("blocked ", name.as_str());
                    self.set_status(text.as_str());
                    Some(SendRequest::Block { recipient: id, is_group })
                }
            },
            None => {
                self.set_status("no active conversation to block");
                None
            },
        }
    }

    /// Blocks the active conversation no more.
    pub fn unblock(&mut self) -> (r: Option<SendRequest>)
        ensures
            (final(self).state(), r.deep_view()) == unblock_asked(old(self).state()),
    {
        reveal(unblock_asked);
        match self.active_id() {
            Some(id) => {
                let name = self.title(id.as_str());
                let is_group = self.conv_is_group(id.as_str());
                if self.is_blocked(id.as_str()) {
                    self.apply_block(id.as_str(), false);
                    let text = concat2("unblocked ", name.as_str());
                    self.set_status(text.as_str());
                    Some(SendRequest::Unblock { recipient: id, is_group })
                } else {
                    let text = concat2(name.as_str(), " is not blocked");
                    self.set_status(text.as_str());
                    None
                }
            },
            None => {
                self.set_status("no active conversation to unblock");
                None
            },
        }
    }

    /// Sets the timer of the active conversation.
    pub fn set_disappearing(&mut self, text: &str) -> (r: Option<SendRequest>)
        ensures
            (final(self).state(), r.deep_view()) == disappearing_set(old(self).state(), text@),
    {
        reveal(disappearing_set);
        match parse_duration_to_seconds(text) {
            Ok(seconds) => match self.active_id() {
                Some(id) => {
                    let is_group = self.conv_is_group(id.as_str());
                    self.set_timer(id.as_str(), seconds);
                    self.record(
                        DbWrite::UpdateExpirationTimer { conv_id: id.clone(), seconds },
                        "update_expiration_timer",
                        true,
                    );
                    Some(SendRequest::UpdateExpiration { conv_id: id, is_group, seconds })
                },
                None => {
                    self.set_status("No active conversation");
                    None
                },
            },
            Err(e) => {
                self.set_status(e.as_str());
                None
            },
        }
    }
}

// ---------------------------------------------------------------------------
// Muted for a while
// ---------------------------------------------------------------------------

/// The first of the conversations whose time of being muted is over.
pub open spec fn mute_over(
    s: Seq<(Seq<char>, i64)>,
    now_ms: i64,
    i: int,
) -> Option<Seq<char>>
    decreases s.len() - i,
{
    if i < 0 || i >= s.len() {
        None
    } else if s[i].1 <= now_ms {
        Some(s[i].0)
    } else {
        mute_over(s, now_ms, i + 1)
    }
}

/// The state with the first such conversation no more muted.
pub open spec fn mute_ended(a: AppView, now_ms: i64) -> AppView {
    match mute_over(a.mute_ends, now_ms, 0) {
        Some(id) => mute_set(a, id, false, None),
        None => a,
    }
}

impl App {
    /// Takes back the muting of a conversation whose time is over. Says whether
    /// there was one.
    pub fn end_mute(&mut self, now_ms: i64) -> (r: bool)
        ensures
            final(self).state() == mute_ended(old(self).state(), now_ms),
            r == (mute_over(old(self).state().mute_ends, now_ms, 0) is Some),
    {
        let ghost s = self.mute_ends.deep_view();
        assert(s == self.state().mute_ends) by {
            reveal(App::state);
        }
        let mut i: usize = 0;
        while i < self.mute_ends.entries.len() && self.mute_ends.entries[i].1 > now_ms
            invariant
                i <= self.mute_ends.entries@.len(),
                *self == *old(self),
                s == self.mute_ends.deep_view(),
                mute_over(s, now_ms, 0) == mute_over(s, now_ms, i as int),
            decreases self.mute_ends.entries@.len() - i,
        {
            assert(s[i as int] == self.mute_ends.entries@[i as int].deep_view());
            i += 1;
        }
        if i < self.mute_ends.entries.len() {
            assert(s[i as int] == self.mute_ends.entries@[i as int].deep_view());
            let id = self.mute_ends.entries[i].0.clone();
            self.apply_mute(id.as_str(), false, None);
            true
        } else {
            false
        }
    }
}

// ---------------------------------------------------------------------------
// Verifying
// ---------------------------------------------------------------------------

/// What is known of an identity before the service tells more.
pub open spec fn known_identity(number: Seq<char>, level: TrustLevel) -> IdentityInfoView {
    IdentityInfoView {
        number: Some(number),
        uuid: None,
        fingerprint: Seq::empty(),
        safety_number: Seq::empty(),
        trust_level: level,
        added_timestamp: 0,
    }
}

/// The identities that are known of a conversation.
pub open spec fn known_identities(a: AppView, id: Seq<char>) -> Seq<IdentityInfoView> {
    if a.is_group(id) {
        match look(a.store.groups, id) {
            Some(g) => a.identity_trust.filter(
                |p: (Seq<char>, TrustLevel)| g.members.contains(p.0),
            ).map_values(|p: (Seq<char>, TrustLevel)| known_identity(p.0, p.1)),
            None => Seq::empty(),
        }
    } else {
        match look(a.identity_trust, id) {
            Some(level) => seq![known_identity(id, level)],
            None => Seq::empty(),
        }
    }
}

/// The state with the verification of the active conversation open, and what is
/// sent.
#[verifier::opaque]
pub open spec fn verify_opened(a: AppView) -> (AppView, Option<SendRequestView>) {
    match a.active_conversation {
        Some(id) => (
            AppView {
                verify: VerifyOverlayStateView {
                    identities: known_identities(a, id),
                    index: 0,
                    ..a.verify
                },
                ..a.opened(Overlay::Verify)
            },
            Some(SendRequestView::ListIdentities),
        ),
        None => (a.say("no active conversation"@), None),
    }
}

fn identity_for(number: String, level: TrustLevel) -> (r: IdentityInfo)
    ensures
        r.deep_view() == known_identity(number@, level),
{
    let fingerprint = String::new();
    let safety_number = String::new();
    assert(fingerprint@ =~= Seq::<char>::empty());
    assert(safety_number@ =~= Seq::<char>::empty());
    IdentityInfo {
        number: Some(number),
        uuid: None,
        fingerprint,
        safety_number,
        trust_level: level,
        added_timestamp: 0,
    }
}

fn member_identities(trust: &StrMap<TrustLevel>, members: &Vec<String>) -> (r: Vec<IdentityInfo>)
    ensures
        r.deep_view() == trust.deep_view().filter(
            |p: (Seq<char>, TrustLevel)| members.deep_view().contains(p.0),
        ).map_values(|p: (Seq<char>, TrustLevel)| known_identity(p.0, p.1)),
{
    let ghost s = trust.deep_view();
    let ghost mv = members.deep_view();
    let ghost p = |p: (Seq<char>, TrustLevel)| mv.contains(p.0);
    let ghost f = |p: (Seq<char>, TrustLevel)| known_identity(p.0, p.1);
    let mut out: Vec<IdentityInfo> = Vec::new();
    let mut i: usize = 0;
    proof {
        filter_none(s, p);
    }
    assert(out.deep_view() =~= s.take(0).filter(p).map_values(f));
    while i < trust.entries.len()
        invariant
            i <= trust.entries@.len(),
            s == trust.deep_view(),
            mv == members.deep_view(),
            p == |p: (Seq<char>, TrustLevel)| mv.contains(p.0),
            f == |p: (Seq<char>, TrustLevel)| known_identity(p.0, p.1),
            out.deep_view() == s.take(i as int).filter(p).map_values(f),
        decreases trust.entries@.len() - i,
    {
        proof {
            filter_take(s, i as int, p);
            assert(s[i as int] == trust.entries@[i as int].deep_view());
        }
        if lists_text(members, trust.entries[i].0.as_str()) {
            let ghost before = s.take(i as int).filter(p);
            let ghost done = out.deep_view();
            let e = identity_for(trust.entries[i].0.clone(), trust.entries[i].1);
            out.push(e);
            assert(out.deep_view() =~= done.push(e.deep_view()));
            assert(before.push(s[i as int]).map_values(f) =~= before.map_values(f).push(
                f(s[i as int]),
            ));
        }
        i += 1;
    }
    assert(s.take(s.len() as int) =~= s);
    out
}

impl App {
    fn identities_of(&self, id: &str) -> (r: Vec<IdentityInfo>)
        ensures
            r.deep_view() == known_identities(self.state(), id@),
    {
        reveal(App::state);
        let none: Vec<IdentityInfo> = Vec::new();
        assert(none.deep_view() =~= Seq::<IdentityInfoView>::empty());
        if self.conv_is_group(id) {
            match self.store.groups.get(id) {
                Some(g) => member_identities(&self.identity_trust, &g.members),
                None => none,
            }
        } else {
            match self.identity_trust.get(id) {
                Some(level) => {
                    let e = identity_for(id.to_string(), *level);
                    let one = vec![e];
                    assert(one.deep_view() =~= seq![e.deep_view()]);
                    one
                },
                None => none,
            }
        }
    }

    fn set_identities(&mut self, identities: Vec<IdentityInfo>)
        ensures
            final(self).state() == (AppView {
                verify: VerifyOverlayStateView {
                    identities: identities.deep_view(),
                    index: 0,
                    ..old(self).state().verify
                },
                ..old(self).state()
            }),
    {
        reveal(App::state);
        self.verify.identities = identities;
        self.verify.index = 0;
    }

    /// Opens the verification of the active conversation.
    pub fn open_verify(&mut self) -> (r: Option<SendRequest>)
        ensures
            (final(self).state(), r.deep_view()) == verify_opened(old(self).state()),
    {
        reveal(verify_opened);
        match self.active_id() {
            Some(id) => {
                let identities = self.identities_of(id.as_str());
                self.open_overlay(Overlay::Verify);
                self.set_identities(identities);
                Some(SendRequest::ListIdentities)
            },
            None => {
                self.set_status("no active conversation");
                None
            },
        }
    }
}

// ---------------------------------------------------------------------------
// Other commands
// ---------------------------------------------------------------------------

/// The state with no conversation active.
#[verifier::opaque]
pub open spec fn parted(a: AppView) -> AppView {
    let b = at_bottom(AppView { active_conversation: None, ..scroll_saved(a) });
    status_updated(
        typing_stopped(
            AppView { pending: PendingStateView { attachment: None, ..b.pending }, ..b },
        ),
    )
}

/// The state with the settings open.
#[verifier::opaque]
pub open spec fn settings_opened(a: AppView) -> AppView {
    AppView {
        settings_index: 0,
        flags: assigned(a.flags, Flag::MouseSnapshot, a.on(Setting::MouseEnabled)),
        ..a.opened(Overlay::Settings)
    }
}

/// The state with the contact list open.
#[verifier::opaque]
pub open spec fn contacts_opened(a: AppView) -> AppView {
    contacts_filtered(
        AppView {
            contacts: ContactsOverlayStateView { index: 0, filter: Seq::empty(), ..a.contacts },
            ..a.opened(Overlay::Contacts)
        },
    )
}

/// The state with the group menu open.
#[verifier::opaque]
pub open spec fn group_menu_opened(a: AppView) -> AppView {
    AppView {
        group_menu: GroupMenuOverlayStateView {
            state: Some(GroupMenuState::Menu),
            index: 0,
            filter: Seq::empty(),
            input: Seq::empty(),
            ..a.group_menu
        },
        ..a
    }
}

/// The state with one's profile open.
#[verifier::opaque]
pub open spec fn profile_opened(a: AppView) -> AppView {
    AppView {
        profile: ProfileOverlayStateView { index: 0, ..a.profile },
        ..a.opened(Overlay::Profile).lowered(Flag::EditingProfile)
    }
}

/// The state with the clipboard asked for, where a conversation is active.
#[verifier::opaque]
pub open spec fn paste_asked(a: AppView) -> AppView {
    if a.active_conversation is None {
        a.say("No active conversation"@)
    } else {
        a.ask(EffectView::ReadClipboard)
    }
}

impl App {
    pub(crate) fn no_conversation(&mut self)
        ensures
            final(self).state() == (AppView { active_conversation: None, ..old(self).state() }),
    {
        reveal(App::state);
        self.active_conversation = None;
    }

    /// Leaves the active conversation.
    pub fn part(&mut self)
        ensures
            final(self).state() == parted(old(self).state()),
    {
        reveal(parted);
        self.save_scroll_position();
        self.no_conversation();
        self.scroll_to_bottom();
        self.drop_attachment();
        self.reset_typing_with_stop();
        self.update_status();
    }

    /// Opens the settings.
    pub fn open_settings(&mut self)
        ensures
            final(self).state() == settings_opened(old(self).state()),
    {
        reveal(settings_opened);
        let mouse = self.is_on(Setting::MouseEnabled);
        self.open_overlay(Overlay::Settings);
        reveal(App::state);
        self.settings_index = 0;
        self.flags.assign(Flag::MouseSnapshot, mouse);
    }

    fn reset_contacts(&mut self)
        ensures
            final(self).state() == (AppView {
                contacts: ContactsOverlayStateView {
                    index: 0,
                    filter: Seq::empty(),
                    ..old(self).state().contacts
                },
                ..old(self).state()
            }),
    {
        reveal(App::state);
        self.contacts.index = 0;
        self.contacts.filter = String::new();
        assert(self.contacts.filter@ =~= Seq::<char>::empty());
    }

    /// Opens the contact list.
    pub fn open_contacts(&mut self)
        ensures
            final(self).state() == contacts_opened(old(self).state()),
    {
        reveal(contacts_opened);
        self.open_overlay(Overlay::Contacts);
        self.reset_contacts();
        self.refresh_contacts_filter();
    }

    /// Opens the group menu.
    pub fn open_group_menu(&mut self)
        ensures
            final(self).state() == group_menu_opened(old(self).state()),
    {
        reveal(group_menu_opened);
        reveal(App::state);
        self.group_menu.state = Some(GroupMenuState::Menu);
        self.group_menu.index = 0;
        self.group_menu.filter = String::new();
        self.group_menu.input = String::new();
        assert(self.group_menu.filter@ =~= Seq::<char>::empty());
        assert(self.group_menu.input@ =~= Seq::<char>::empty());
    }

    /// Opens one's profile.
    pub fn open_profile(&mut self)
        ensures
            final(self).state() == profile_opened(old(self).state()),
    {
        reveal(profile_opened);
        self.open_overlay(Overlay::Profile);
        self.lower(Flag::EditingProfile);
        reveal(App::state);
        self.profile.index = 0;
    }

    /// Asks for the clipboard.
    pub fn handle_paste_command(&mut self)
        ensures
            final(self).state() == paste_asked(old(self).state()),
    {
        reveal(paste_asked);
        if self.active_id().is_none() {
            self.set_status("No active conversation");
        } else {
            self.request(Effect::ReadClipboard);
        }
    }

    /// Attaches an image that was pasted and put into a file.
    pub fn image_pasted(&mut self, path: String, file_name: &str)
        ensures
            final(self).state() == (AppView {
                pending: PendingStateView { attachment: Some(path@), ..old(self).state().pending },
                ..old(self).state()
            }).say("Pasted image: "@ + file_name@),
    {
        let text = concat2("Pasted image: ", file_name);
        self.set_status(text.as_str());
        reveal(App::state);
        self.pending.attachment = Some(path);
    }
}

// ---------------------------------------------------------------------------
// A line of input
// ---------------------------------------------------------------------------

/// The state with the input taken: it goes into the history, and the input is
/// empty.
#[verifier::opaque]
pub open spec fn input_taken(a: AppView) -> AppView {
    let t = trimmed(a.input.text());
    AppView {
        input: InputStateView {
            before: Seq::empty(),
            after: Seq::empty(),
            history: if t.len() > 0 {
                a.input.history.push(t)
            } else {
                a.input.history
            },
            history_index: None,
            ..a.input
        },
        ..a
    }
}

/// The state after what a line of input asks for was done, and what is sent.
pub open spec fn command_done(a: AppView, f: InputForm, now_ms: i64) -> (
    AppView,
    Option<SendRequestView>,
) {
    match f {
        InputForm::SendText(text) => text_submitted(a, text, now_ms),
        InputForm::Join(target) => (joined(a, target), None),
        InputForm::Part => (parted(a), None),
        InputForm::Quit => (a.raised(Flag::ShouldQuit), None),
        InputForm::ToggleSidebar => (
            switched(a, Setting::SidebarVisible, !a.on(Setting::SidebarVisible)),
            None,
        ),
        InputForm::ToggleBell(target) => (bell_toggled(a, target), None),
        InputForm::ToggleMute => (mute_toggled(a), None),
        InputForm::MuteFor(text) => (muted_for(a, text, now_ms), None),
        InputForm::Block => block_asked(a),
        InputForm::Unblock => unblock_asked(a),
        InputForm::Help => (a.opened(Overlay::Help), None),
        InputForm::Settings => (settings_opened(a), None),
        InputForm::Contacts => (contacts_opened(a), None),
        InputForm::Attach => (browser_opened(a), None),
        InputForm::Search(query) => (search_opened(a, query), None),
        InputForm::SetDisappearing(text) => disappearing_set(a, text),
        InputForm::Group => (group_menu_opened(a), None),
        InputForm::Theme => (theme_picker_opened(a), None),
        InputForm::Poll { question, options, allow_multiple } => poll_created(
            a,
            question,
            options,
            allow_multiple,
            now_ms,
        ),
        InputForm::Verify => verify_opened(a),
        InputForm::Profile => (profile_opened(a), None),
        InputForm::About => (a.opened(Overlay::About), None),
        InputForm::Keybindings => (keybindings_opened(a), None),
        InputForm::Emoji(query) => (
            emoji_picker_opened(a, EmojiPickerSource::Input, query),
            None,
        ),
        InputForm::Paste => (paste_asked(a), None),
        InputForm::Export(limit) => (export_asked(a, limit), None),
        InputForm::Unknown(text) => (a.say(text), None),
    }
}

/// The state after the input was submitted, and what is sent.
#[verifier::opaque]
pub open spec fn input_handled(a: AppView, now_ms: i64) -> (AppView, Option<SendRequestView>) {
    command_done(input_taken(a), parsed_input(a.input.text()), now_ms)
}

impl App {
    fn take_input(&mut self) -> (r: String)
        ensures
            final(self).state() == input_taken(old(self).state()),
            r@ == old(self).state().input.text(),
    {
        reveal(App::state);
        reveal(input_taken);
        let text = self.input.buffer();
        let ghost before = self.input.history.deep_view();
        let t = trim(text.as_str());
        if !t.as_str().is_empty() {
            self.input.history.push(t);
            assert(self.input.history.deep_view() =~= before.push(t@));
        }
        self.input.history_index = None;
        self.input.before = String::new();
        self.input.after = String::new();
        assert(self.input.before@ =~= Seq::<char>::empty());
        assert(self.input.after@ =~= Seq::<char>::empty());
        text
    }

    /// Does what a line of input asks for.
    pub fn run_command(&mut self, action: InputAction, now_ms: i64) -> (r: Option<SendRequest>)
        ensures
            (final(self).state(), r.deep_view()) == command_done(
                old(self).state(),
                action@,
                now_ms,
            ),
    {
        match action {
            InputAction::SendText(text) => return self.send_text(text.as_str(), now_ms),
            InputAction::Join(target) => self.join_conversation(target.as_str()),
            InputAction::Part => self.part(),
            InputAction::Quit => self.raise(Flag::ShouldQuit),
            InputAction::ToggleSidebar => {
                let on = self.is_on(Setting::SidebarVisible);
                self.switch(Setting::SidebarVisible, !on);
            },
            InputAction::ToggleBell(target) => self.toggle_bell(target),
            InputAction::ToggleMute => self.toggle_mute(),
            InputAction::MuteFor(text) => self.mute_for(text.as_str(), now_ms),
            InputAction::Block => return self.block(),
            InputAction::Unblock => return self.unblock(),
            InputAction::Help => self.open_overlay(Overlay::Help),
            InputAction::Settings => self.open_settings(),
            InputAction::Contacts => self.open_contacts(),
            InputAction::Attach => self.open_file_browser(),
            InputAction::Search(query) => self.open_search(query),
            InputAction::SetDisappearing(text) => return self.set_disappearing(text.as_str()),
            InputAction::Group => self.open_group_menu(),
            InputAction::Theme => self.open_theme_picker(),
            InputAction::Poll { question, options, allow_multiple } => {
                assert(options.deep_view() =~= texts(options@));
                return self.create_poll(question, options, allow_multiple, now_ms);
            },
            InputAction::Verify => return self.open_verify(),
            InputAction::Profile => self.open_profile(),
            InputAction::About => self.open_overlay(Overlay::About),
            InputAction::Keybindings => self.open_keybindings(),
            InputAction::Emoji(query) => {
                self.open_emoji_picker(EmojiPickerSource::Input, query.as_str());
            },
            InputAction::Paste => self.handle_paste_command(),
            InputAction::Export(limit) => self.export_chat_history(limit),
            InputAction::Unknown(text) => self.set_status(text.as_str()),
        }
        None
    }

    /// Submits the input: sends a message, or does what a command asks for.
    pub fn handle_input(&mut self, now_ms: i64) -> (r: Option<SendRequest>)
        ensures
            (final(self).state(), r.deep_view()) == input_handled(old(self).state(), now_ms),
    {
        reveal(input_handled);
        let text = self.take_input();
        let action = parse_input(text.as_str());
        self.run_command(action, now_ms)
    }
}

} // verus!
