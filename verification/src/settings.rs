//! Settings: the list of switches, settings profiles, and the configuration.
use crate::app::{
    App, AppView, Effect, EffectView, Flag, MouseState, Overlay, Setting, SettingsProfile,
    SettingsProfileOverlayStateView, SettingsProfileView, ThemeView,
};
use crate::common::{clamp_index, clamped, move_down, place_or_first, popped, step_down, step_up};
use crate::conversation_store::text_place;
use crate::keys::KeyCode;
use crate::kindset::{assigned, KindSet};
use crate::offsets::{byte_len, text_bytes};
use crate::signal::Duplicate;
use crate::text::{concat2, same, trim, trimmed};
use vstd::prelude::*;

verus! {

// ---------------------------------------------------------------------------
// Switches
// ---------------------------------------------------------------------------

/// How many switches there are.
pub const SETTING_COUNT: usize = 17;

/// A switch as the settings list shows it.
pub struct SettingDef {
    pub label: &'static str,
    pub hint: &'static str,
}

/// The label of a switch.
pub open spec fn setting_label(i: int) -> Seq<char> {
    if i == 0 {
        "Direct message notifications"@
    } else if i == 1 {
        "Group message notifications"@
    } else if i == 2 {
        "Desktop notifications"@
    } else if i == 3 {
        "Sidebar visible"@
    } else if i == 4 {
        "Inline image previews"@
    } else if i == 5 {
        "Link previews"@
    } else if i == 6 {
        "Native images (experimental)"@
    } else if i == 7 {
        "Date separators"@
    } else if i == 8 {
        "Read receipts"@
    } else if i == 9 {
        "Receipt colors"@
    } else if i == 10 {
        "Nerd Font icons"@
    } else if i == 11 {
        "Emoji to text"@
    } else if i == 12 {
        "Show reactions"@
    } else if i == 13 {
        "Verbose reactions"@
    } else if i == 14 {
        "Send read receipts"@
    } else if i == 15 {
        "Mouse support"@
    } else if i == 16 {
        "Sidebar on right"@
    } else {
        ""@
    }
}

/// What a switch does.
pub open spec fn setting_hint(i: int) -> Seq<char> {
    if i == 0 {
        "Play a sound for incoming direct messages"@
    } else if i == 1 {
        "Play a sound for incoming group messages"@
    } else if i == 2 {
        "Show system notifications for new messages"@
    } else if i == 3 {
        "Show the conversation list sidebar"@
    } else if i == 4 {
        "Render image attachments as previews in chat"@
    } else if i == 5 {
        "Show title and thumbnail for URLs"@
    } else if i == 6 {
        "Requires Kitty, Ghostty, WezTerm, or iTerm2"@
    } else if i == 7 {
        "Show date lines between messages from different days"@
    } else if i == 8 {
        "Show delivery and read status on messages"@
    } else if i == 9 {
        "Colorize receipt indicators"@
    } else if i == 10 {
        "Use Nerd Font glyphs (requires a Nerd Font)"@
    } else if i == 11 {
        "Convert emoji to text emoticons/shortcodes"@
    } else if i == 12 {
        "Show emoji reactions on messages"@
    } else if i == 13 {
        "Show names instead of just emoji counts"@
    } else if i == 14 {
        "Let contacts know when you read messages"@
    } else if i == 15 {
        "Enable mouse click and scroll support"@
    } else if i == 16 {
        "Move the sidebar to the right side"@
    } else {
        ""@
    }
}

/// The switches, in the order in which they are listed.
pub fn settings() -> (r: Vec<SettingDef>)
    ensures
        r@.len() == SETTING_COUNT,
        forall|i: int|
            0 <= i < SETTING_COUNT ==> (#[trigger] r@[i]).label@ == setting_label(i) && r@[i].hint@
                == setting_hint(i),
{
    vec![
        SettingDef {
            label: "Direct message notifications",
            hint: "Play a sound for incoming direct messages",
        },
        SettingDef {
            label: "Group message notifications",
            hint: "Play a sound for incoming group messages",
        },
        SettingDef {
            label: "Desktop notifications",
            hint: "Show system notifications for new messages",
        },
        SettingDef { label: "Sidebar visible", hint: "Show the conversation list sidebar" },
        SettingDef {
            label: "Inline image previews",
            hint: "Render image attachments as previews in chat",
        },
        SettingDef { label: "Link previews", hint: "Show title and thumbnail for URLs" },
        SettingDef {
            label: "Native images (experimental)",
            hint: "Requires Kitty, Ghostty, WezTerm, or iTerm2",
        },
        SettingDef {
            label: "Date separators",
            hint: "Show date lines between messages from different days",
        },
        SettingDef { label: "Read receipts", hint: "Show delivery and read status on messages" },
        SettingDef { label: "Receipt colors", hint: "Colorize receipt indicators" },
        SettingDef {
            label: "Nerd Font icons",
            hint: "Use Nerd Font glyphs (requires a Nerd Font)",
        },
        SettingDef { label: "Emoji to text", hint: "Convert emoji to text emoticons/shortcodes" },
        SettingDef { label: "Show reactions", hint: "Show emoji reactions on messages" },
        SettingDef { label: "Verbose reactions", hint: "Show names instead of just emoji counts" },
        SettingDef {
            label: "Send read receipts",
            hint: "Let contacts know when you read messages",
        },
        SettingDef { label: "Mouse support", hint: "Enable mouse click and scroll support" },
        SettingDef { label: "Sidebar on right", hint: "Move the sidebar to the right side" },
    ]
}

/// The switch at a place of the list.
pub open spec fn setting_at(i: int) -> Option<Setting> {
    if i == 0 {
        Some(Setting::NotifyDirect)
    } else if i == 1 {
        Some(Setting::NotifyGroup)
    } else if i == 2 {
        Some(Setting::DesktopNotifications)
    } else if i == 3 {
        Some(Setting::SidebarVisible)
    } else if i == 4 {
        Some(Setting::InlineImages)
    } else if i == 5 {
        Some(Setting::ShowLinkPreviews)
    } else if i == 6 {
        Some(Setting::NativeImages)
    } else if i == 7 {
        Some(Setting::DateSeparators)
    } else if i == 8 {
        Some(Setting::ShowReceipts)
    } else if i == 9 {
        Some(Setting::ColorReceipts)
    } else if i == 10 {
        Some(Setting::NerdFonts)
    } else if i == 11 {
        Some(Setting::EmojiToText)
    } else if i == 12 {
        Some(Setting::ShowReactions)
    } else if i == 13 {
        Some(Setting::ReactionVerbose)
    } else if i == 14 {
        Some(Setting::SendReadReceipts)
    } else if i == 15 {
        Some(Setting::MouseEnabled)
    } else if i == 16 {
        Some(Setting::SidebarOnRight)
    } else {
        None
    }
}

fn setting_kind(i: usize) -> (r: Option<Setting>)
    ensures
        r == setting_at(i as int),
        r is Some == (i < SETTING_COUNT),
{
    if i == 0 {
        Some(Setting::NotifyDirect)
    } else if i == 1 {
        Some(Setting::NotifyGroup)
    } else if i == 2 {
        Some(Setting::DesktopNotifications)
    } else if i == 3 {
        Some(Setting::SidebarVisible)
    } else if i == 4 {
        Some(Setting::InlineImages)
    } else if i == 5 {
        Some(Setting::ShowLinkPreviews)
    } else if i == 6 {
        Some(Setting::NativeImages)
    } else if i == 7 {
        Some(Setting::DateSeparators)
    } else if i == 8 {
        Some(Setting::ShowReceipts)
    } else if i == 9 {
        Some(Setting::ColorReceipts)
    } else if i == 10 {
        Some(Setting::NerdFonts)
    } else if i == 11 {
        Some(Setting::EmojiToText)
    } else if i == 12 {
        Some(Setting::ShowReactions)
    } else if i == 13 {
        Some(Setting::ReactionVerbose)
    } else if i == 14 {
        Some(Setting::SendReadReceipts)
    } else if i == 15 {
        Some(Setting::MouseEnabled)
    } else if i == 16 {
        Some(Setting::SidebarOnRight)
    } else {
        None
    }
}

/// Whether the switch at a place is on. There is none past the last.
pub open spec fn setting_of(s: Set<Setting>, i: int) -> bool {
    match setting_at(i) {
        Some(k) => s.contains(k),
        None => false,
    }
}

/// The switches stand at different places.
pub proof fn settings_differ(i: int, j: int)
    requires
        setting_at(i) is Some,
        i != j,
    ensures
        setting_at(i) != setting_at(j),
{
}

/// Flipping a switch changes it and no other, and flipping it again leaves the
/// settings as they were.
pub proof fn toggled_twice(a: AppView, i: usize, j: int)
    requires
        i < SETTING_COUNT,
    ensures
        setting_of(toggled(a, i).settings, j) == if i == j {
            !setting_of(a.settings, j)
        } else {
            setting_of(a.settings, j)
        },
        toggled(toggled(a, i), i).settings == a.settings,
{
    if i != j {
        settings_differ(i as int, j);
    }
    assert(toggled(toggled(a, i), i).settings =~= a.settings);
}

/// The state with a switch flipped. The mouse is to be captured or released
/// where its switch is flipped.
pub open spec fn toggled(a: AppView, i: usize) -> AppView {
    match setting_at(i as int) {
        Some(k) => {
            let b = AppView { settings: assigned(a.settings, k, !a.on(k)), ..a };
            if k == Setting::MouseEnabled {
                AppView { mouse: MouseState { pending_toggle: Some(b.on(k)), ..a.mouse }, ..b }
            } else {
                b
            }
        },
        None => a,
    }
}

impl App {
    /// Flips a switch.
    pub fn toggle_setting(&mut self, index: usize)
        ensures
            final(self).state() == toggled(old(self).state(), index),
    {
        reveal(App::state);
        match setting_kind(index) {
            Some(k) => {
                let cur = self.is_on(k);
                self.settings.assign(k, !cur);
                if k == Setting::MouseEnabled {
                    self.mouse.pending_toggle = Some(self.is_on(k));
                }
            },
            None => {},
        }
    }

    /// Whether a switch is on.
    pub fn setting_value(&self, index: usize) -> (r: bool)
        ensures
            r == setting_of(self.state().settings, index as int),
    {
        reveal(App::state);
        match setting_kind(index) {
            Some(k) => self.is_on(k),
            None => false,
        }
    }
}

// ---------------------------------------------------------------------------
// Settings profiles
// ---------------------------------------------------------------------------

/// The names of profiles.
pub open spec fn profile_titles(s: Seq<SettingsProfileView>) -> Seq<Seq<char>> {
    s.map_values(|p: SettingsProfileView| p.name)
}

/// Settings with those of a profile, save whether the sidebar is shown.
pub open spec fn profile_applied(a: AppView, p: SettingsProfileView) -> AppView {
    AppView {
        settings: assigned(p.settings, Setting::SidebarVisible, a.on(Setting::SidebarVisible)),
        notification_preview: p.notification_preview,
        settings_profiles: SettingsProfileOverlayStateView { name: p.name, ..a.settings_profiles },
        ..a
    }
}

/// The settings are those of a profile.
pub open spec fn profile_in_use(a: AppView, p: SettingsProfileView) -> bool {
    p.settings.remove(Setting::SidebarVisible) == a.settings.remove(Setting::SidebarVisible)
        && p.notification_preview == a.notification_preview
}

/// A profile of the settings as they are.
pub open spec fn profile_from(a: AppView, name: Seq<char>) -> SettingsProfileView {
    SettingsProfileView {
        name,
        builtin: false,
        settings: a.settings,
        notification_preview: a.notification_preview,
    }
}

/// Applying a profile puts it in use, and one made of the settings is in use.
pub proof fn profiles_apply(a: AppView, p: SettingsProfileView, name: Seq<char>)
    ensures
        profile_in_use(profile_applied(a, p), p),
        profile_in_use(a, profile_from(a, name)),
        profile_applied(a, profile_from(a, name)).settings == a.settings,
{
    let k = Setting::SidebarVisible;
    assert(profile_applied(a, p).settings.remove(k) =~= p.settings.remove(k));
    assert(profile_applied(a, profile_from(a, name)).settings =~= a.settings);
}

/// A profile of that name comes with the client.
pub open spec fn is_builtin(s: Seq<SettingsProfileView>, name: Seq<char>) -> bool {
    exists|i: int| 0 <= i < s.len() && (#[trigger] s[i]).builtin && s[i].name == name
}

/// The profile in use is there and has the settings as they are.
pub open spec fn profile_unchanged(a: AppView) -> bool {
    exists|i: int|
        0 <= i < a.settings_profiles.available.len() && (
        #[trigger] a.settings_profiles.available[i]).name == a.settings_profiles.name
            && profile_in_use(a, a.settings_profiles.available[i])
}

/// The next profile, or the one before, round the list.
pub open spec fn cycled(a: AppView, forward: bool) -> AppView {
    let list = a.settings_profiles.available;
    if list.len() == 0 {
        a
    } else {
        let cur = place_or_first(profile_titles(list), a.settings_profiles.name) as int;
        let n = list.len() as int;
        let next = if forward {
            (cur + 1) % n
        } else {
            (cur + n - 1) % n
        };
        profile_applied(a, list[next])
    }
}

fn find_profile_named(list: &Vec<SettingsProfile>, name: &str) -> (r: usize)
    ensures
        r == place_or_first(profile_titles(list.deep_view()), name@),
        list@.len() > 0 ==> r < list@.len(),
{
    let ghost s = profile_titles(list.deep_view());
    let mut i: usize = 0;
    while i < list.len() && !same(list[i].name.as_str(), name)
        invariant
            i <= list@.len(),
            s == profile_titles(list.deep_view()),
            text_place(s, name@, 0) == text_place(s, name@, i as int),
        decreases list@.len() - i,
    {
        i += 1;
    }
    if i < list.len() {
        i
    } else {
        0
    }
}

fn any_builtin(list: &Vec<SettingsProfile>, name: &str) -> (r: bool)
    ensures
        r == is_builtin(list.deep_view(), name@),
{
    let mut i: usize = 0;
    while i < list.len()
        invariant
            i <= list@.len(),
            forall|k: int|
                0 <= k < i ==> !((#[trigger] list@[k]).builtin && list@[k].name@ == name@),
        decreases list@.len() - i,
    {
        if list[i].builtin && same(list[i].name.as_str(), name) {
            assert(list.deep_view()[i as int].builtin);
            return true;
        }
        i += 1;
    }
    assert forall|k: int| 0 <= k < list.deep_view().len() implies !((
    #[trigger] list.deep_view()[k]).builtin && list.deep_view()[k].name == name@) by {
        assert(list@[k].builtin == list.deep_view()[k].builtin);
    }
    false
}

/// How much a notification tells, after the next choice.
pub open spec fn next_preview(p: Seq<char>) -> Seq<char> {
    if p == "full"@ {
        "sender"@
    } else if p == "sender"@ {
        "minimal"@
    } else {
        "full"@
    }
}

/// The state after a key in the settings list: below the switches stand the
/// preview level, the theme, the key bindings and the profile.
#[verifier::opaque]
pub open spec fn settings_key(a: AppView, code: KeyCode) -> AppView {
    let i = a.settings_index;
    let n = SETTING_COUNT;
    let closed = a.closed(Overlay::Settings);
    if code == KeyCode::Down || code == KeyCode::Char('j') {
        AppView { settings_index: if i < n + 3 { (i + 1) as usize } else { i }, ..a }
    } else if code == KeyCode::Up || code == KeyCode::Char('k') {
        AppView { settings_index: step_up(i), ..a }
    } else if (code == KeyCode::Left || code == KeyCode::Char('h')) && i == n + 3 {
        cycled(a, false)
    } else if (code == KeyCode::Right || code == KeyCode::Char('l')) && i == n + 3 {
        cycled(a, true)
    } else if code == KeyCode::Char(' ') || code == KeyCode::Enter || code == KeyCode::Tab {
        if i == n {
            AppView { notification_preview: next_preview(a.notification_preview), ..a }
        } else if i == n + 1 {
            theme_picker_opened(closed.ask(EffectView::SaveSettings))
        } else if i == n + 2 {
            keybindings_opened(closed.ask(EffectView::SaveSettings))
        } else if i == n + 3 {
            profile_manager_opened(closed.ask(EffectView::SaveSettings))
        } else {
            toggled(a, i)
        }
    } else if code == KeyCode::Esc || code == KeyCode::Char('q') {
        hooks_fired(closed.ask(EffectView::SaveSettings))
    } else {
        a
    }
}

/// The state with the list of key bindings open at its top.
pub open spec fn keybindings_opened(a: AppView) -> AppView {
    AppView {
        keybindings_overlay: crate::app::KeybindingsOverlayStateView {
            index: 0,
            ..a.keybindings_overlay
        },
        ..a.opened(Overlay::Keybindings)
    }
}

/// The state with the theme picker open at the theme in use.
pub open spec fn theme_picker_opened(a: AppView) -> AppView {
    AppView {
        theme_picker: crate::app::ThemePickerStateView {
            index: place_or_first(theme_names(a.theme_picker.available_themes), a.theme.name),
            ..a.theme_picker
        },
        ..a.opened(Overlay::ThemePicker)
    }
}

/// The names of themes.
pub open spec fn theme_names(s: Seq<ThemeView>) -> Seq<Seq<char>> {
    s.map_values(|t: ThemeView| t.name)
}

/// The state with the profile manager open; the list of profiles is asked for.
pub open spec fn profile_manager_opened(a: AppView) -> AppView {
    AppView {
        settings_profiles: SettingsProfileOverlayStateView {
            save_as_input: Seq::empty(),
            ..a.settings_profiles
        },
        ..a.opened(Overlay::SettingsProfiles).lowered(Flag::SavingProfileAs)
    }.ask(EffectView::LoadSettingsProfiles)
}

/// The mouse is to be captured or released where its switch differs from what
/// it was when the settings were opened.
pub open spec fn hooks_fired(a: AppView) -> AppView {
    if a.on(Setting::MouseEnabled) != a.is(Flag::MouseSnapshot) {
        AppView {
            mouse: MouseState { pending_toggle: Some(a.on(Setting::MouseEnabled)), ..a.mouse },
            ..a
        }
    } else {
        a
    }
}

/// The profile with the list of profiles read again and one of them selected.
pub open spec fn profiles_listed(a: AppView, list: Seq<SettingsProfileView>) -> AppView {
    AppView {
        settings_profiles: SettingsProfileOverlayStateView {
            available: list,
            index: place_or_first(profile_titles(list), a.settings_profiles.name),
            ..a.settings_profiles
        },
        ..a
    }
}

/// The state after a key while the name of a new profile is entered.
pub open spec fn save_as_key(a: AppView, code: KeyCode) -> AppView {
    let sp = a.settings_profiles;
    match code {
        KeyCode::Enter => {
            let name = trimmed(sp.save_as_input);
            if name.len() == 0 {
                a.say("Profile name cannot be empty"@)
            } else if is_builtin(sp.available, name) {
                a.say("Cannot overwrite built-in profile"@)
            } else {
                a.lowered(Flag::SavingProfileAs).ask(EffectView::SaveSettingsProfile(profile_from(a, name)))
            }
        },
        KeyCode::Esc => a.lowered(Flag::SavingProfileAs),
        KeyCode::Backspace => AppView {
            settings_profiles: SettingsProfileOverlayStateView {
                save_as_input: popped(sp.save_as_input),
                ..sp
            },
            ..a
        },
        KeyCode::Char(c) => if byte_len(sp.save_as_input) < 30 {
            AppView {
                settings_profiles: SettingsProfileOverlayStateView {
                    save_as_input: sp.save_as_input.push(c),
                    ..sp
                },
                ..a
            }
        } else {
            a
        },
        _ => a,
    }
}

/// The state after a key in the profile manager.
#[verifier::opaque]
pub open spec fn profile_manager_key(a: AppView, code: KeyCode) -> AppView {
    let sp = a.settings_profiles;
    let i = sp.index as int;
    let there = i < sp.available.len();
    if a.is(Flag::SavingProfileAs) {
        save_as_key(a, code)
    } else if code == KeyCode::Down || code == KeyCode::Char('j') {
        AppView {
            settings_profiles: SettingsProfileOverlayStateView {
                index: step_down(sp.index, sp.available.len()),
                ..sp
            },
            ..a
        }
    } else if code == KeyCode::Up || code == KeyCode::Char('k') {
        AppView {
            settings_profiles: SettingsProfileOverlayStateView { index: step_up(sp.index), ..sp },
            ..a
        }
    } else if code == KeyCode::Enter {
        if there {
            profile_applied(a, sp.available[i]).ask(EffectView::SaveSettings).say(
                "Loaded profile: "@ + sp.available[i].name,
            )
        } else {
            a
        }
    } else if code == KeyCode::Char('s') {
        if there && !sp.available[i].builtin && !profile_in_use(a, sp.available[i]) {
            a.ask(EffectView::SaveSettingsProfile(profile_from(a, sp.available[i].name)))
        } else {
            a
        }
    } else if code == KeyCode::Char('S') {
        if profile_unchanged(a) {
            a
        } else {
            save_as_started(a)
        }
    } else if code == KeyCode::Char('d') {
        if there && !sp.available[i].builtin {
            a.ask(EffectView::DeleteSettingsProfile(sp.available[i].name))
        } else {
            a
        }
    } else if code == KeyCode::Esc || code == KeyCode::Char('q') {
        hooks_fired(a.closed(Overlay::SettingsProfiles))
    } else {
        a
    }
}

/// The state in which the name of a new profile is entered.
pub open spec fn save_as_started(a: AppView) -> AppView {
    AppView {
        settings_profiles: SettingsProfileOverlayStateView {
            save_as_input: Seq::empty(),
            ..a.settings_profiles
        },
        ..a.raised(Flag::SavingProfileAs)
    }
}

/// The state after a profile was written, or could not be.
pub open spec fn profile_saved(
    a: AppView,
    name: Seq<char>,
    result: Result<Seq<SettingsProfileView>, Seq<char>>,
) -> AppView {
    match result {
        Ok(list) => profiles_listed(
            AppView {
                settings_profiles: SettingsProfileOverlayStateView { name, ..a.settings_profiles },
                ..a
            },
            list,
        ).ask(EffectView::SaveSettings).say("Profile saved"@),
        Err(e) => a.say("Save failed: "@ + e),
    }
}

/// The state after a profile was deleted, or could not be.
pub open spec fn profile_deleted(
    a: AppView,
    name: Seq<char>,
    result: Result<Seq<SettingsProfileView>, Seq<char>>,
) -> AppView {
    let sp = a.settings_profiles;
    match result {
        Ok(list) => AppView {
            settings_profiles: SettingsProfileOverlayStateView {
                name: if sp.name == name {
                    "Default"@
                } else {
                    sp.name
                },
                available: list,
                index: clamped(sp.index, list.len()),
                ..sp
            },
            ..a
        }.ask(EffectView::SaveSettings).say("Deleted profile: "@ + name),
        Err(e) => a.say("Delete failed: "@ + e),
    }
}

/// What an outcome with a list stands for.
pub open spec fn outcome(r: Result<Vec<SettingsProfile>, String>) -> Result<
    Seq<SettingsProfileView>,
    Seq<char>,
> {
    match r {
        Ok(list) => Ok(list.deep_view()),
        Err(e) => Err(e@),
    }
}

impl App {
    fn apply_settings_profile_deferred(&mut self, p: &SettingsProfile)
        ensures
            final(self).state() == profile_applied(old(self).state(), p.deep_view()),
    {
        reveal(App::state);
        let visible = self.is_on(Setting::SidebarVisible);
        self.settings = p.settings.copied();
        self.settings.assign(Setting::SidebarVisible, visible);
        self.notification_preview = p.notification_preview.clone();
        self.settings_profiles.name = p.name.clone();
    }

    fn cycle_settings_profile(&mut self, forward: bool)
        ensures
            final(self).state() == cycled(old(self).state(), forward),
    {
        reveal(App::state);
        let n = self.settings_profiles.available.len();
        if n == 0 {
            return;
        }
        let cur = find_profile_named(
            &self.settings_profiles.available,
            self.settings_profiles.name.as_str(),
        );
        let next = if forward {
            if cur + 1 < n {
                cur + 1
            } else {
                0
            }
        } else if cur > 0 {
            cur - 1
        } else {
            n - 1
        };
        proof {
            let (c, m) = (cur as int, n as int);
            if forward {
                if c + 1 < m {
                    vstd::arithmetic::div_mod::lemma_small_mod((c + 1) as nat, m as nat);
                } else {
                    vstd::arithmetic::div_mod::lemma_mod_self_0(m);
                }
            } else if c > 0 {
                vstd::arithmetic::div_mod::lemma_mod_add_multiples_vanish(c - 1, m);
                vstd::arithmetic::div_mod::lemma_small_mod((c - 1) as nat, m as nat);
            } else {
                vstd::arithmetic::div_mod::lemma_small_mod((m - 1) as nat, m as nat);
            }
        }
        let p = self.settings_profiles.available[next].duplicate();
        assert(p.deep_view() == self.settings_profiles.available.deep_view()[next as int]);
        self.apply_settings_profile_deferred(&p);
    }

    fn fire_deferred_settings_hooks(&mut self)
        ensures
            final(self).state() == hooks_fired(old(self).state()),
    {
        reveal(App::state);
        let enabled = self.is_on(Setting::MouseEnabled);
        if enabled != self.has_flag(Flag::MouseSnapshot) {
            self.mouse.pending_toggle = Some(enabled);
        }
    }

    fn open_settings_profile_manager(&mut self)
        ensures
            final(self).state() == profile_manager_opened(old(self).state()),
    {
        reveal(App::state);
        self.open_overlay(Overlay::SettingsProfiles);
        self.lower(Flag::SavingProfileAs);
        self.settings_profiles.save_as_input = String::new();
        self.request(Effect::LoadSettingsProfiles);
    }

    /// Takes the list of settings profiles that was read.
    pub fn settings_profiles_loaded(&mut self, list: Vec<SettingsProfile>)
        ensures
            final(self).state() == profiles_listed(old(self).state(), list.deep_view()),
    {
        reveal(App::state);
        self.settings_profiles.index = find_profile_named(
            &list,
            self.settings_profiles.name.as_str(),
        );
        self.settings_profiles.available = list;
    }

    /// Opens the theme picker at the theme in use.
    pub fn open_theme_picker(&mut self)
        ensures
            final(self).state() == theme_picker_opened(old(self).state()),
    {
        reveal(App::state);
        let ghost s = theme_names(self.theme_picker.available_themes.deep_view());
        let ghost name = self.theme.name@;
        let mut i: usize = 0;
        while i < self.theme_picker.available_themes.len() && !same(
            self.theme_picker.available_themes[i].name.as_str(),
            self.theme.name.as_str(),
        )
            invariant
                *self == *old(self),
                i <= self.theme_picker.available_themes@.len(),
                s == theme_names(self.theme_picker.available_themes.deep_view()),
                name == self.theme.name@,
                text_place(s, name, 0) == text_place(s, name, i as int),
            decreases self.theme_picker.available_themes@.len() - i,
        {
            i += 1;
        }
        self.open_overlay(Overlay::ThemePicker);
        self.theme_picker.index = if i < self.theme_picker.available_themes.len() {
            i
        } else {
            0
        };
    }

    fn set_settings_index(&mut self, i: usize)
        ensures
            final(self).state() == (AppView { settings_index: i, ..old(self).state() }),
    {
        reveal(App::state);
        self.settings_index = i;
    }

    fn cycle_preview(&mut self)
        ensures
            final(self).state() == (AppView {
                notification_preview: next_preview(old(self).state().notification_preview),
                ..old(self).state()
            }),
    {
        reveal(App::state);
        self.notification_preview = if same(self.notification_preview.as_str(), "full") {
            "sender".to_string()
        } else if same(self.notification_preview.as_str(), "sender") {
            "minimal".to_string()
        } else {
            "full".to_string()
        };
    }

    /// Opens the list of key bindings at its top.
    pub fn open_keybindings(&mut self)
        ensures
            final(self).state() == keybindings_opened(old(self).state()),
    {
        reveal(App::state);
        self.open_overlay(Overlay::Keybindings);
        self.keybindings_overlay.index = 0;
    }

    fn set_profile_index(&mut self, i: usize)
        ensures
            final(self).state() == (AppView {
                settings_profiles: SettingsProfileOverlayStateView {
                    index: i,
                    ..old(self).state().settings_profiles
                },
                ..old(self).state()
            }),
    {
        reveal(App::state);
        self.settings_profiles.index = i;
    }

    fn start_save_as(&mut self)
        ensures
            final(self).state() == save_as_started(old(self).state()),
    {
        reveal(App::state);
        self.raise(Flag::SavingProfileAs);
        self.settings_profiles.save_as_input = String::new();
    }

    /// Handles a key in the settings list.
    pub fn handle_settings_key(&mut self, code: KeyCode)
        ensures
            final(self).state() == settings_key(old(self).state(), code),
    {
        reveal(settings_key);
        let i = self.settings_index;
        let n = SETTING_COUNT;
        assert(i == self.state().settings_index) by {
            reveal(App::state);
        }
        if code == KeyCode::Down || code == KeyCode::Char('j') {
            if i < n + 3 {
                self.set_settings_index(i + 1);
            }
        } else if code == KeyCode::Up || code == KeyCode::Char('k') {
            self.set_settings_index(i.saturating_sub(1));
        } else if (code == KeyCode::Left || code == KeyCode::Char('h')) && i == n + 3 {
            self.cycle_settings_profile(false);
        } else if (code == KeyCode::Right || code == KeyCode::Char('l')) && i == n + 3 {
            self.cycle_settings_profile(true);
        } else if code == KeyCode::Char(' ') || code == KeyCode::Enter || code == KeyCode::Tab {
            if i == n {
                self.cycle_preview();
            } else if i == n + 1 {
                self.close_overlay(Overlay::Settings);
                self.request(Effect::SaveSettings);
                self.open_theme_picker();
            } else if i == n + 2 {
                self.close_overlay(Overlay::Settings);
                self.request(Effect::SaveSettings);
                self.open_keybindings();
            } else if i == n + 3 {
                self.close_overlay(Overlay::Settings);
                self.request(Effect::SaveSettings);
                self.open_settings_profile_manager();
            } else {
                self.toggle_setting(i);
            }
        } else if code == KeyCode::Esc || code == KeyCode::Char('q') {
            self.close_overlay(Overlay::Settings);
            self.request(Effect::SaveSettings);
            self.fire_deferred_settings_hooks();
        }
    }

    fn profile_of_settings(&self, name: String) -> (r: SettingsProfile)
        ensures
            r.deep_view() == profile_from(self.state(), name@),
    {
        reveal(App::state);
        SettingsProfile {
            name,
            builtin: false,
            settings: self.settings.copied(),
            notification_preview: self.notification_preview.clone(),
        }
    }

    fn matches_profile(&self, p: &SettingsProfile) -> (r: bool)
        ensures
            r == profile_in_use(self.state(), p.deep_view()),
    {
        reveal(App::state);
        let mut s = self.settings.copied();
        let mut t = p.settings.copied();
        s.remove(Setting::SidebarVisible);
        t.remove(Setting::SidebarVisible);
        s.same_items(&t) && same(
            p.notification_preview.as_str(),
            self.notification_preview.as_str(),
        )
    }

    fn settings_unchanged(&self) -> (r: bool)
        ensures
            r == profile_unchanged(self.state()),
    {
        reveal(App::state);
        let ghost list = self.settings_profiles.available.deep_view();
        let mut i: usize = 0;
        while i < self.settings_profiles.available.len()
            invariant
                i <= self.settings_profiles.available@.len(),
                list == self.settings_profiles.available.deep_view(),
                list == self.state().settings_profiles.available,
                self.settings_profiles.name@ == self.state().settings_profiles.name,
                forall|k: int|
                    0 <= k < i ==> !((#[trigger] list[k]).name == self.settings_profiles.name@
                        && profile_in_use(self.state(), list[k])),
            decreases self.settings_profiles.available@.len() - i,
        {
            let p = &self.settings_profiles.available[i];
            assert(list[i as int] == p.deep_view());
            if same(p.name.as_str(), self.settings_profiles.name.as_str()) && self.matches_profile(
                p,
            ) {
                return true;
            }
            i += 1;
        }
        false
    }

    fn handle_save_as_key(&mut self, code: KeyCode)
        ensures
            final(self).state() == save_as_key(old(self).state(), code),
    {
        reveal(App::state);
        match code {
            KeyCode::Enter => {
                let name = trim(self.settings_profiles.save_as_input.as_str());
                if name.as_str().is_empty() {
                    self.set_status("Profile name cannot be empty");
                } else if any_builtin(&self.settings_profiles.available, name.as_str()) {
                    self.set_status("Cannot overwrite built-in profile");
                } else {
                    let p = self.profile_of_settings(name);
                    self.lower(Flag::SavingProfileAs);
                    self.request(Effect::SaveSettingsProfile(p));
                }
            },
            KeyCode::Esc => {
                self.lower(Flag::SavingProfileAs);
            },
            KeyCode::Backspace => {
                let _ = self.settings_profiles.save_as_input.pop();
            },
            KeyCode::Char(c) => {
                if text_bytes(self.settings_profiles.save_as_input.as_str()) < 30 {
                    self.settings_profiles.save_as_input.push(c);
                }
            },
            _ => {},
        }
    }

    /// Handles a key in the profile manager.
    pub fn handle_settings_profile_manager_key(&mut self, code: KeyCode)
        ensures
            final(self).state() == profile_manager_key(old(self).state(), code),
    {
        reveal(profile_manager_key);
        let i = self.settings_profiles.index;
        let n = self.settings_profiles.available.len();
        let ghost sp = self.state().settings_profiles;
        assert(sp == self.settings_profiles.deep_view()) by {
            reveal(App::state);
        }
        assert(i < n ==> self.settings_profiles.available@[i as int].deep_view()
            == sp.available[i as int]);
        if self.has_flag(Flag::SavingProfileAs) {
            self.handle_save_as_key(code);
        } else if code == KeyCode::Down || code == KeyCode::Char('j') {
            self.set_profile_index(move_down(i, n));
        } else if code == KeyCode::Up || code == KeyCode::Char('k') {
            self.set_profile_index(i.saturating_sub(1));
        } else if code == KeyCode::Enter {
            if i < n {
                let p = self.settings_profiles.available[i].duplicate();
                self.apply_settings_profile_deferred(&p);
                self.request(Effect::SaveSettings);
                let text = concat2("Loaded profile: ", p.name.as_str());
                self.set_status(text.as_str());
            }
        } else if code == KeyCode::Char('s') {
            if i < n && !self.settings_profiles.available[i].builtin && !self.matches_profile(
                &self.settings_profiles.available[i],
            ) {
                let p = self.profile_of_settings(self.settings_profiles.available[i].name.clone());
                self.request(Effect::SaveSettingsProfile(p));
            }
        } else if code == KeyCode::Char('S') {
            if !self.settings_unchanged() {
                self.start_save_as();
            }
        } else if code == KeyCode::Char('d') {
            if i < n && !self.settings_profiles.available[i].builtin {
                let name = self.settings_profiles.available[i].name.clone();
                self.request(Effect::DeleteSettingsProfile(name));
            }
        } else if code == KeyCode::Esc || code == KeyCode::Char('q') {
            self.close_overlay(Overlay::SettingsProfiles);
            self.fire_deferred_settings_hooks();
        }
    }

    /// Takes the outcome of writing a settings profile: the profiles that there
    /// are now, or what went wrong.
    pub fn settings_profile_saved(
        &mut self,
        name: String,
        result: Result<Vec<SettingsProfile>, String>,
    )
        ensures
            final(self).state() == profile_saved(old(self).state(), name@, outcome(result)),
    {
        reveal(App::state);
        match result {
            Ok(list) => {
                self.settings_profiles.name = name;
                self.settings_profiles_loaded(list);
                self.request(Effect::SaveSettings);
                self.set_status("Profile saved");
            },
            Err(e) => {
                let text = concat2("Save failed: ", e.as_str());
                self.set_status(text.as_str());
            },
        }
    }

    /// Takes the outcome of deleting a settings profile: the profiles that there
    /// are now, or what went wrong.
    pub fn settings_profile_deleted(
        &mut self,
        name: String,
        result: Result<Vec<SettingsProfile>, String>,
    )
        ensures
            final(self).state() == profile_deleted(
                old(self).state(),
                name@,
                outcome(result),
            ),
    {
        reveal(App::state);
        match result {
            Ok(list) => {
                if same(self.settings_profiles.name.as_str(), name.as_str()) {
                    self.settings_profiles.name = "Default".to_string();
                }
                self.settings_profiles.index = clamp_index(
                    self.settings_profiles.index,
                    list.len(),
                );
                self.settings_profiles.available = list;
                self.request(Effect::SaveSettings);
                let text = concat2("Deleted profile: ", name.as_str());
                self.set_status(text.as_str());
            },
            Err(e) => {
                let text = concat2("Delete failed: ", e.as_str());
                self.set_status(text.as_str());
            },
        }
    }
}

// ---------------------------------------------------------------------------
// Configuration
// ---------------------------------------------------------------------------

/// What is kept between runs.
pub struct Config {
    /// One's own number.
    pub account: String,
    /// The signal-cli program.
    pub signal_cli_path: String,
    /// Where attachments are put.
    pub download_dir: String,
    /// The switches that are on.
    pub settings: KindSet<Setting>,
    /// The name of the theme.
    pub theme: String,
    /// The name of the profile of key bindings.
    pub keybinding_profile: String,
    /// The name of the settings profile.
    pub settings_profile: String,
    /// How much a notification tells.
    pub notification_preview: String,
    /// The Signal TLS proxy; empty where there is none.
    pub proxy: String,
}

/// What a [`Config`] stands for.
pub struct ConfigView {
    pub account: Seq<char>,
    pub signal_cli_path: Seq<char>,
    pub download_dir: Seq<char>,
    pub settings: Set<Setting>,
    pub theme: Seq<char>,
    pub keybinding_profile: Seq<char>,
    pub settings_profile: Seq<char>,
    pub notification_preview: Seq<char>,
    pub proxy: Seq<char>,
}

impl DeepView for Config {
    type V = ConfigView;

    open spec fn deep_view(&self) -> ConfigView {
        ConfigView {
            account: self.account@,
            signal_cli_path: self.signal_cli_path@,
            download_dir: self.download_dir@,
            settings: self.settings.deep_view(),
            theme: self.theme@,
            keybinding_profile: self.keybinding_profile@,
            settings_profile: self.settings_profile@,
            notification_preview: self.notification_preview@,
            proxy: self.proxy@,
        }
    }
}

impl Duplicate for Config {
    fn duplicate(&self) -> (r: Config) {
        Config {
            account: self.account.clone(),
            signal_cli_path: self.signal_cli_path.clone(),
            download_dir: self.download_dir.clone(),
            settings: self.settings.copied(),
            theme: self.theme.clone(),
            keybinding_profile: self.keybinding_profile.clone(),
            settings_profile: self.settings_profile.clone(),
            notification_preview: self.notification_preview.clone(),
            proxy: self.proxy.clone(),
        }
    }
}

impl Clone for Config {
    fn clone(&self) -> (r: Config)
        ensures
            r.deep_view() == self.deep_view(),
    {
        self.duplicate()
    }
}

/// What is switched on in a new configuration.
pub open spec fn default_settings() -> Set<Setting> {
    Set::empty()
        .insert(Setting::NotifyDirect)
        .insert(Setting::NotifyGroup)
        .insert(Setting::SidebarVisible)
        .insert(Setting::InlineImages)
        .insert(Setting::ShowLinkPreviews)
        .insert(Setting::DateSeparators)
        .insert(Setting::ShowReceipts)
        .insert(Setting::ColorReceipts)
        .insert(Setting::ShowReactions)
        .insert(Setting::SendReadReceipts)
        .insert(Setting::MouseEnabled)
}

/// What is switched on in a new configuration.
pub fn new_settings() -> (r: KindSet<Setting>)
    ensures
        r.deep_view() == default_settings(),
{
    let mut r: KindSet<Setting> = KindSet::new();
    r.insert(Setting::NotifyDirect);
    r.insert(Setting::NotifyGroup);
    r.insert(Setting::SidebarVisible);
    r.insert(Setting::InlineImages);
    r.insert(Setting::ShowLinkPreviews);
    r.insert(Setting::DateSeparators);
    r.insert(Setting::ShowReceipts);
    r.insert(Setting::ColorReceipts);
    r.insert(Setting::ShowReactions);
    r.insert(Setting::SendReadReceipts);
    r.insert(Setting::MouseEnabled);
    r
}

/// The configuration of a client that was never set up, which puts attachments
/// into `download_dir`.
pub open spec fn default_config(download_dir: Seq<char>) -> ConfigView {
    ConfigView {
        account: Seq::empty(),
        signal_cli_path: "signal-cli"@,
        download_dir,
        settings: default_settings(),
        theme: "Default"@,
        keybinding_profile: "Default"@,
        settings_profile: "Default"@,
        notification_preview: "full"@,
        proxy: Seq::empty(),
    }
}

/// A configuration with what the client keeps: who one is, what is switched on,
/// and which profiles and theme are in use. The rest stays, and so does whether
/// the sidebar is shown.
pub open spec fn kept_config(a: AppView, base: ConfigView) -> ConfigView {
    ConfigView {
        account: a.account,
        settings: assigned(
            a.settings,
            Setting::SidebarVisible,
            base.settings.contains(Setting::SidebarVisible),
        ),
        theme: a.theme.name,
        keybinding_profile: a.keybindings.profile_name,
        settings_profile: a.settings_profiles.name,
        notification_preview: a.notification_preview,
        ..base
    }
}

impl Config {
    /// The configuration of a client that was never set up.
    pub fn new(download_dir: String) -> (r: Config)
        ensures
            r.deep_view() == default_config(download_dir@),
    {
        Config {
            account: String::new(),
            signal_cli_path: "signal-cli".to_string(),
            download_dir,
            settings: new_settings(),
            theme: "Default".to_string(),
            keybinding_profile: "Default".to_string(),
            settings_profile: "Default".to_string(),
            notification_preview: "full".to_string(),
            proxy: String::new(),
        }
    }

    /// Whether the account is still to be set up.
    pub fn needs_setup(&self) -> (r: bool)
        ensures
            r == (self.account@.len() == 0),
    {
        self.account.as_str().is_empty()
    }
}

impl App {
    /// The configuration to be kept, made from the one that is stored. There is
    /// none in a demo.
    pub fn config_to_save(&self, base: Config) -> (r: Option<Config>)
        ensures
            self.state().is(Flag::Demo) ==> r is None,
            !self.state().is(Flag::Demo) ==> r is Some && r->0.deep_view() == kept_config(
                self.state(),
                base.deep_view(),
            ),
    {
        reveal(App::state);
        if self.has_flag(Flag::Demo) {
            return None;
        }
        let mut c = base;
        let visible = c.settings.has_item(Setting::SidebarVisible);
        c.account = self.account.clone();
        c.settings = self.settings.copied();
        c.settings.assign(Setting::SidebarVisible, visible);
        c.theme = self.theme.name.clone();
        c.keybinding_profile = self.keybindings.profile_name.clone();
        c.settings_profile = self.settings_profiles.name.clone();
        c.notification_preview = self.notification_preview.clone();
        Some(c)
    }
}

} // verus!
