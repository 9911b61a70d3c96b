//! The list of key bindings and the picker of themes.
use crate::app::{
    App, AppView, Effect, EffectView, Flag, KeybindingsOverlayStateView, Overlay,
    ThemePickerStateView,
};
use crate::common::{
    classify_list_key, list_key, move_down, place_or_first, step_down, step_up, ListKeyAction,
};
use crate::conversation_store::find_text;
use crate::keybindings::{
    action_in, action_label, default_map, find_profile, global_actions, insert_actions,
    is_profile_named, label_of, normal_actions, overridden, pressed_combo, spec_global_actions,
    spec_insert_actions, spec_normal_actions, with_defaults, without_action, BindingMode, KeyAction,
    KeyBindingOverrides, KeyBindings, KeyBindingsView,
};
use crate::keys::{combo_text, format_key_combo, KeyCode, KeyCombo, KeyModifiers};
use crate::signal::Duplicate;
use crate::text::{concat2, concat3};
use vstd::prelude::*;

verus! {

// ---------------------------------------------------------------------------
// Themes
// ---------------------------------------------------------------------------

/// What a key does in the picker of themes.
pub open spec fn theme_list_key(code: KeyCode) -> ListKeyAction {
    if code == KeyCode::Char(' ') {
        ListKeyAction::Select
    } else if code == KeyCode::Char('q') {
        ListKeyAction::Close
    } else {
        list_key(code, false)
    }
}

/// The state with another theme selected.
pub open spec fn theme_selected(a: AppView, index: usize) -> AppView {
    AppView { theme_picker: ThemePickerStateView { index, ..a.theme_picker }, ..a }
}

/// The state after a key in the picker of themes.
#[verifier::opaque]
pub open spec fn theme_key(a: AppView, code: KeyCode) -> AppView {
    let t = a.theme_picker;
    match theme_list_key(code) {
        ListKeyAction::Down => theme_selected(a, step_down(t.index, t.available_themes.len())),
        ListKeyAction::Up => theme_selected(a, step_up(t.index)),
        ListKeyAction::Select => {
            let b = if t.index < t.available_themes.len() {
                AppView { theme: t.available_themes[t.index as int], ..a }.ask(
                    EffectView::SaveSettings,
                )
            } else {
                a
            };
            b.closed(Overlay::ThemePicker)
        },
        ListKeyAction::Close => a.closed(Overlay::ThemePicker),
        _ => a,
    }
}

impl App {
    fn select_theme(&mut self, index: usize)
        ensures
            final(self).state() == theme_selected(old(self).state(), index),
    {
        reveal(App::state);
        self.theme_picker.index = index;
    }

    fn take_theme(&mut self, index: usize)
        requires
            index < old(self).theme_picker.available_themes@.len(),
        ensures
            final(self).state() == (AppView {
                theme: old(self).state().theme_picker.available_themes[index as int],
                ..old(self).state()
            }),
    {
        reveal(App::state);
        self.theme = self.theme_picker.available_themes[index].duplicate();
    }

    /// Handles a key in the picker of themes.
    pub fn handle_theme_key(&mut self, code: KeyCode)
        ensures
            final(self).state() == theme_key(old(self).state(), code),
    {
        reveal(theme_key);
        let i = self.theme_picker.index;
        let n = self.theme_picker.available_themes.len();
        assert(self.state().theme_picker == self.theme_picker.deep_view()) by {
            reveal(App::state);
        }
        let code = match code {
            KeyCode::Char(c) => if c == ' ' {
                KeyCode::Enter
            } else if c == 'q' {
                KeyCode::Esc
            } else {
                code
            },
            _ => code,
        };
        match classify_list_key(code, false) {
            ListKeyAction::Down => {
                self.select_theme(move_down(i, n));
            },
            ListKeyAction::Up => {
                self.select_theme(i.saturating_sub(1));
            },
            ListKeyAction::Select => {
                if i < n {
                    self.take_theme(i);
                    self.request(Effect::SaveSettings);
                }
                self.close_overlay(Overlay::ThemePicker);
            },
            ListKeyAction::Close => {
                self.close_overlay(Overlay::ThemePicker);
            },
            _ => {},
        }
    }
}

// ---------------------------------------------------------------------------
// Rows of the list of key bindings
// ---------------------------------------------------------------------------

/// The number of rows: the profile, and for each mode a heading and its actions.
pub open spec fn row_count() -> int {
    4int + spec_global_actions().len() + spec_normal_actions().len() + spec_insert_actions().len()
}

/// The mode and action of a row; no action for the profile and the headings.
pub open spec fn row_item(i: int) -> (BindingMode, Option<KeyAction>) {
    let g = spec_global_actions();
    let n = spec_normal_actions();
    let s = spec_insert_actions();
    if i <= 1 {
        (BindingMode::Global, None)
    } else if i < 2 + g.len() {
        (BindingMode::Global, Some(g[i - 2]))
    } else if i == 2 + g.len() {
        (BindingMode::Normal, None)
    } else if i < 3 + g.len() + n.len() {
        (BindingMode::Normal, Some(n[i - 3 - g.len()]))
    } else if i == 3 + g.len() + n.len() {
        (BindingMode::Insert, None)
    } else if i < 4 + g.len() + n.len() + s.len() {
        (BindingMode::Insert, Some(s[i - 4 - g.len() - n.len()]))
    } else {
        (BindingMode::Insert, None)
    }
}

/// The first row from `i` down that has an action.
pub open spec fn row_below(i: int) -> int
    decreases row_count() - i,
{
    if i < row_count() && row_item(i).1 is None {
        row_below(i + 1)
    } else {
        i
    }
}

/// The first row from `i` up that has an action, or the profile.
pub open spec fn row_above(i: int) -> int
    decreases i,
{
    if i > 0 && row_item(i).1 is None {
        row_above(i - 1)
    } else {
        i
    }
}

proof fn rows_fit()
    ensures
        row_count() < 200,
        spec_global_actions().len() == 7,
{
}

impl App {
    /// The number of rows in the list of key bindings.
    pub fn keybindings_overlay_total(&self) -> (r: usize)
        ensures
            r == row_count(),
    {
        proof {
            rows_fit();
        }
        4 + global_actions().len() + normal_actions().len() + insert_actions().len()
    }

    /// The mode and action of a row of the list of key bindings; no action for
    /// the profile and the headings.
    pub fn keybindings_overlay_item(&self, index: usize) -> (r: (BindingMode, Option<KeyAction>))
        ensures
            r == row_item(index as int),
    {
        let g = global_actions();
        let n = normal_actions();
        let s = insert_actions();
        proof {
            rows_fit();
        }
        if index <= 1 {
            (BindingMode::Global, None)
        } else if index < 2 + g.len() {
            (BindingMode::Global, Some(g[index - 2]))
        } else if index == 2 + g.len() {
            (BindingMode::Normal, None)
        } else if index < 3 + g.len() + n.len() {
            (BindingMode::Normal, Some(n[index - 3 - g.len()]))
        } else if index == 3 + g.len() + n.len() {
            (BindingMode::Insert, None)
        } else if index < 4 + g.len() + n.len() + s.len() {
            (BindingMode::Insert, Some(s[index - 4 - g.len() - n.len()]))
        } else {
            (BindingMode::Insert, None)
        }
    }

    fn find_row_below(&self, index: usize) -> (r: usize)
        ensures
            r == row_below(index as int),
    {
        let total = self.keybindings_overlay_total();
        let mut i: usize = index;
        while i < total && self.keybindings_overlay_item(i).1.is_none()
            invariant
                total == row_count(),
                row_below(index as int) == row_below(i as int),
                index <= i,
            decreases total - i,
        {
            i += 1;
        }
        i
    }

    fn find_row_above(&self, index: usize) -> (r: usize)
        ensures
            r == row_above(index as int),
    {
        let mut i: usize = index;
        while i > 0 && self.keybindings_overlay_item(i).1.is_none()
            invariant
                row_above(index as int) == row_above(i as int),
            decreases i,
        {
            i -= 1;
        }
        i
    }
}

// ---------------------------------------------------------------------------
// Keys in the list of key bindings
// ---------------------------------------------------------------------------

/// Bindings with an action bound as by default.
pub open spec fn binding_reset(
    kb: KeyBindingsView,
    mode: BindingMode,
    action: KeyAction,
) -> KeyBindingsView {
    kb.with_map(mode, with_defaults(kb.map_of(mode), default_map(mode), action))
}

/// Bindings with an action bound to a combination alone.
pub open spec fn binding_set(
    kb: KeyBindingsView,
    mode: BindingMode,
    action: KeyAction,
    combo: KeyCombo,
) -> KeyBindingsView {
    kb.with_map(mode, without_action(kb.map_of(mode), action).insert(combo, action))
}

/// Bindings with those of the user put over them.
pub open spec fn bindings_overridden(
    kb: KeyBindingsView,
    overrides: KeyBindingOverrides,
) -> KeyBindingsView {
    KeyBindingsView {
        profile_name: kb.profile_name,
        global: overridden(kb.global, overrides.of(BindingMode::Global)),
        normal: overridden(kb.normal, overrides.of(BindingMode::Normal)),
        insert: overridden(kb.insert, overrides.of(BindingMode::Insert)),
    }
}

/// The state with other bindings.
pub open spec fn rebound(a: AppView, kb: KeyBindingsView) -> AppView {
    AppView { keybindings: kb, ..a }
}

/// The state with another row selected.
pub open spec fn row_selected(a: AppView, index: usize) -> AppView {
    AppView { keybindings_overlay: KeybindingsOverlayStateView { index, ..a.keybindings_overlay }, ..a }
}

/// The state with another profile of key bindings selected.
pub open spec fn key_profile_selected(a: AppView, profile_index: usize) -> AppView {
    AppView {
        keybindings_overlay: KeybindingsOverlayStateView {
            profile_index,
            ..a.keybindings_overlay
        },
        ..a
    }
}

/// The state in which an action has lost its key, or none has.
pub open spec fn conflict_set(a: AppView, conflict: Option<(KeyAction, KeyCombo)>) -> AppView {
    AppView {
        keybindings_overlay: KeybindingsOverlayStateView { conflict, ..a.keybindings_overlay },
        ..a
    }
}

/// The state after a key in the list of profiles of key bindings. The one
/// selected is asked for.
pub open spec fn key_profile_key(a: AppView, code: KeyCode) -> AppView {
    let k = a.keybindings_overlay;
    if code == KeyCode::Down || code == KeyCode::Char('j') {
        key_profile_selected(a, step_down(k.profile_index, k.available_profiles.len()))
    } else if code == KeyCode::Up || code == KeyCode::Char('k') {
        key_profile_selected(a, step_up(k.profile_index))
    } else if code == KeyCode::Char(' ') || code == KeyCode::Enter {
        let b = if k.profile_index < k.available_profiles.len() {
            a.ask(EffectView::LoadKeyProfile(k.available_profiles[k.profile_index as int]))
        } else {
            a
        };
        b.lowered(Flag::KeyProfilePicker)
    } else if code == KeyCode::Esc {
        a.lowered(Flag::KeyProfilePicker)
    } else {
        a
    }
}

/// The state after the answer to whether an action may lose its key: yes leaves
/// it without, anything else binds both actions as by default.
pub open spec fn conflict_key(a: AppView, lost: KeyAction, code: KeyCode) -> AppView {
    let b = conflict_set(a, None);
    if code == KeyCode::Char('y') || code == KeyCode::Char('Y') {
        b.say(label_of(lost) + " is now unbound"@)
    } else {
        let (mode, action) = row_item(a.keybindings_overlay.index as int);
        let c = match action {
            Some(action) => rebound(
                b,
                binding_reset(binding_reset(b.keybindings, mode, action), mode, lost),
            ),
            None => b,
        };
        c.say(Seq::empty())
    }
}

/// The state after a key in the list of key bindings.
#[verifier::opaque]
pub open spec fn keybindings_key(a: AppView, code: KeyCode) -> AppView {
    let k = a.keybindings_overlay;
    let (mode, action) = row_item(k.index as int);
    if a.is(Flag::KeyProfilePicker) {
        key_profile_key(a, code)
    } else if k.conflict is Some {
        let (lost, _) = k.conflict->0;
        conflict_key(a, lost, code)
    } else if code == KeyCode::Down || code == KeyCode::Char('j') {
        row_selected(a, row_below(step_down(k.index, row_count() as nat) as int) as usize)
    } else if code == KeyCode::Up || code == KeyCode::Char('k') {
        row_selected(a, row_above(step_up(k.index) as int) as usize)
    } else if code == KeyCode::Enter {
        if k.index == 0 {
            key_profile_selected(
                a,
                place_or_first(k.available_profiles, a.keybindings.profile_name),
            ).raised(Flag::KeyProfilePicker)
        } else if action is Some {
            a.raised(Flag::CapturingKey).say("Press a key combo..."@)
        } else {
            a
        }
    } else if code == KeyCode::Backspace {
        match action {
            Some(action) => rebound(a, binding_reset(a.keybindings, mode, action)).say(
                "Reset "@ + label_of(action),
            ),
            None => a,
        }
    } else if code == KeyCode::Esc || code == KeyCode::Char('q') {
        a.closed(Overlay::Keybindings).ask(EffectView::SaveSettings)
    } else {
        a
    }
}

/// The state after the key that is bound to the selected action. Where another
/// action had it, that is asked about.
pub open spec fn capture_key(a: AppView, modifiers: KeyModifiers, code: KeyCode) -> AppView {
    let (mode, action) = row_item(a.keybindings_overlay.index as int);
    let done = a.lowered(Flag::CapturingKey);
    if code == KeyCode::Esc && modifiers == KeyModifiers::spec_none() {
        done.say(Seq::empty())
    } else {
        match action {
            None => done,
            Some(action) => {
                let combo = pressed_combo(modifiers, code);
                let before = action_in(
                    without_action(a.keybindings.map_of(mode), action),
                    combo,
                );
                let b = rebound(done, binding_set(a.keybindings, mode, action, combo));
                match before {
                    Some(lost) => conflict_set(
                        b.say(
                            "'"@ + combo_text(combo) + "' was bound to "@ + label_of(lost)
                                + ". Accept? (y/n)"@,
                        ),
                        Some((lost, combo)),
                    ),
                    None => b.say(label_of(action) + " → "@ + combo_text(combo)),
                }
            },
        }
    }
}

/// The action that had a combination is never the one that is bound to it.
pub proof fn displaced_is_another(
    m: Map<KeyCombo, KeyAction>,
    action: KeyAction,
    combo: KeyCombo,
)
    ensures
        action_in(without_action(m, action), combo) != Some(action),
{
}

impl App {
    fn reset_binding(&mut self, mode: BindingMode, action: KeyAction)
        ensures
            final(self).state() == rebound(
                old(self).state(),
                binding_reset(old(self).state().keybindings, mode, action),
            ),
    {
        reveal(App::state);
        let ghost before = self.keybindings;
        self.keybindings.reset_action(mode, action);
        proof {
            assert(self.keybindings.map_of(BindingMode::Global) == self.keybindings.global@);
            assert(self.keybindings.map_of(BindingMode::Normal) == self.keybindings.normal@);
            assert(self.keybindings.map_of(BindingMode::Insert) == self.keybindings.insert@);
            assert(before.map_of(mode) == before.deep_view().map_of(mode));
            assert(self.keybindings.deep_view() == binding_reset(before.deep_view(), mode, action));
        }
    }

    fn set_binding(&mut self, mode: BindingMode, action: KeyAction, combo: KeyCombo) -> (r: Option<
        KeyAction,
    >)
        ensures
            final(self).state() == rebound(
                old(self).state(),
                binding_set(old(self).state().keybindings, mode, action, combo),
            ),
            r == action_in(
                without_action(old(self).state().keybindings.map_of(mode), action),
                combo,
            ),
    {
        reveal(App::state);
        let ghost before = self.keybindings;
        let r = self.keybindings.rebind(mode, action, combo);
        proof {
            assert(self.keybindings.map_of(BindingMode::Global) == self.keybindings.global@);
            assert(self.keybindings.map_of(BindingMode::Normal) == self.keybindings.normal@);
            assert(self.keybindings.map_of(BindingMode::Insert) == self.keybindings.insert@);
            assert(before.map_of(mode) == before.deep_view().map_of(mode));
            assert(self.keybindings.deep_view() == binding_set(
                before.deep_view(),
                mode,
                action,
                combo,
            ));
        }
        r
    }

    fn select_row(&mut self, index: usize)
        ensures
            final(self).state() == row_selected(old(self).state(), index),
    {
        reveal(App::state);
        self.keybindings_overlay.index = index;
    }

    fn select_key_profile(&mut self, index: usize)
        ensures
            final(self).state() == key_profile_selected(old(self).state(), index),
    {
        reveal(App::state);
        self.keybindings_overlay.profile_index = index;
    }

    fn set_conflict(&mut self, conflict: Option<(KeyAction, KeyCombo)>)
        ensures
            final(self).state() == conflict_set(old(self).state(), conflict),
    {
        reveal(App::state);
        self.keybindings_overlay.conflict = conflict;
    }

    fn handle_key_profile_key(&mut self, code: KeyCode)
        ensures
            final(self).state() == key_profile_key(old(self).state(), code),
    {
        let i = self.keybindings_overlay.profile_index;
        let n = self.keybindings_overlay.available_profiles.len();
        let ghost k = self.state().keybindings_overlay;
        assert(k == self.keybindings_overlay.deep_view()) by {
            reveal(App::state);
        }
        if code == KeyCode::Down || code == KeyCode::Char('j') {
            self.select_key_profile(move_down(i, n));
        } else if code == KeyCode::Up || code == KeyCode::Char('k') {
            self.select_key_profile(i.saturating_sub(1));
        } else if code == KeyCode::Char(' ') || code == KeyCode::Enter {
            if i < n {
                let name = self.keybindings_overlay.available_profiles[i].clone();
                assert(name@ == k.available_profiles[i as int]);
                self.request(Effect::LoadKeyProfile(name));
            }
            self.lower(Flag::KeyProfilePicker);
        } else if code == KeyCode::Esc {
            self.lower(Flag::KeyProfilePicker);
        }
    }

    fn handle_conflict_key(&mut self, lost: KeyAction, code: KeyCode)
        ensures
            final(self).state() == conflict_key(old(self).state(), lost, code),
    {
        let i = self.keybindings_overlay.index;
        assert(i == self.state().keybindings_overlay.index) by {
            reveal(App::state);
        }
        self.set_conflict(None);
        if code == KeyCode::Char('y') || code == KeyCode::Char('Y') {
            let text = concat2(action_label(lost), " is now unbound");
            self.set_status(text.as_str());
        } else {
            let (mode, action) = self.keybindings_overlay_item(i);
            if let Some(action) = action {
                self.reset_binding(mode, action);
                self.reset_binding(mode, lost);
            }
            self.set_status("");
            assert(""@ =~= Seq::<char>::empty()) by {
                reveal_strlit("");
            }
        }
    }

    fn key_profile_place(&self) -> (r: usize)
        ensures
            r == place_or_first(
                self.state().keybindings_overlay.available_profiles,
                self.state().keybindings.profile_name,
            ),
    {
        reveal(App::state);
        match find_text(
            &self.keybindings_overlay.available_profiles,
            self.keybindings.profile_name.as_str(),
        ) {
            Some(i) => i,
            None => 0,
        }
    }

    /// Handles a key in the list of key bindings.
    pub fn handle_keybindings_key(&mut self, code: KeyCode)
        ensures
            final(self).state() == keybindings_key(old(self).state(), code),
    {
        reveal(keybindings_key);
        let i = self.keybindings_overlay.index;
        let conflict = self.keybindings_overlay.conflict;
        assert(self.state().keybindings_overlay == self.keybindings_overlay.deep_view()) by {
            reveal(App::state);
        }
        if self.has_flag(Flag::KeyProfilePicker) {
            self.handle_key_profile_key(code);
            return;
        }
        if let Some((lost, combo)) = conflict {
            self.handle_conflict_key(lost, code);
            return;
        }
        let (mode, action) = self.keybindings_overlay_item(i);
        if code == KeyCode::Down || code == KeyCode::Char('j') {
            let total = self.keybindings_overlay_total();
            let row = self.find_row_below(move_down(i, total));
            self.select_row(row);
        } else if code == KeyCode::Up || code == KeyCode::Char('k') {
            let row = self.find_row_above(i.saturating_sub(1));
            self.select_row(row);
        } else if code == KeyCode::Enter {
            if i == 0 {
                let place = self.key_profile_place();
                self.select_key_profile(place);
                self.raise(Flag::KeyProfilePicker);
            } else if action.is_some() {
                self.raise(Flag::CapturingKey);
                self.set_status("Press a key combo...");
            }
        } else if code == KeyCode::Backspace {
            if let Some(action) = action {
                self.reset_binding(mode, action);
                let text = concat2("Reset ", action_label(action));
                self.set_status(text.as_str());
            }
        } else if code == KeyCode::Esc || code == KeyCode::Char('q') {
            self.close_overlay(Overlay::Keybindings);
            self.request(Effect::SaveSettings);
        }
    }

    /// Handles the key that is to be bound to the selected action.
    pub fn handle_keybinding_capture(&mut self, modifiers: KeyModifiers, code: KeyCode)
        ensures
            final(self).state() == capture_key(old(self).state(), modifiers, code),
    {
        let i = self.keybindings_overlay.index;
        assert(i == self.state().keybindings_overlay.index) by {
            reveal(App::state);
        }
        assert(""@ =~= Seq::<char>::empty()) by {
            reveal_strlit("");
        }
        if code == KeyCode::Esc && modifiers == KeyModifiers::none() {
            self.lower(Flag::CapturingKey);
            self.set_status("");
            return;
        }
        let (mode, action) = self.keybindings_overlay_item(i);
        match action {
            None => {
                self.lower(Flag::CapturingKey);
            },
            Some(action) => {
                let mut modifiers = modifiers;
                if let KeyCode::Char(_) = code {
                    modifiers.shift = false;
                }
                let combo = KeyCombo { modifiers, code };
                self.lower(Flag::CapturingKey);
                let displaced = self.set_binding(mode, action, combo);
                let shown = format_key_combo(&combo);
                match displaced {
                    Some(lost) => {
                        let a = concat3("'", shown.as_str(), "' was bound to ");
                        let text = concat3(a.as_str(), action_label(lost), ". Accept? (y/n)");
                        self.set_status(text.as_str());
                        self.set_conflict(Some((lost, combo)));
                    },
                    None => {
                        let text = concat3(action_label(action), " → ", shown.as_str());
                        self.set_status(text.as_str());
                    },
                }
            },
        }
    }

    /// Takes the profile of key bindings that was asked for, with the user's
    /// own bindings over it.
    pub fn key_profile_loaded(
        &mut self,
        name: &str,
        custom: Vec<KeyBindings>,
        overrides: &KeyBindingOverrides,
    )
        ensures
            exists|p: KeyBindings|
                #![trigger p.deep_view()]
                is_profile_named(p, name@, custom@) && final(self).state() == rebound(
                    old(self).state(),
                    bindings_overridden(p.deep_view(), *overrides),
                ).ask(EffectView::SaveSettings),
    {
        let mut kb = find_profile(name, custom);
        let ghost p = kb;
        kb.apply_overrides(overrides);
        proof {
            assert(kb.map_of(BindingMode::Global) == kb.global@);
            assert(kb.map_of(BindingMode::Normal) == kb.normal@);
            assert(kb.map_of(BindingMode::Insert) == kb.insert@);
            assert(p.map_of(BindingMode::Global) == p.global@);
            assert(p.map_of(BindingMode::Normal) == p.normal@);
            assert(p.map_of(BindingMode::Insert) == p.insert@);
            assert(kb.deep_view() == bindings_overridden(p.deep_view(), *overrides));
        }
        self.set_keybindings(kb);
        self.request(Effect::SaveSettings);
    }

    fn set_keybindings(&mut self, kb: KeyBindings)
        ensures
            final(self).state() == rebound(old(self).state(), kb.deep_view()),
    {
        reveal(App::state);
        self.keybindings = kb;
    }
}

} // verus!
