//! Key bindings: which key does what in which mode, the built-in profiles and
//! the changes that a user makes to them.
use crate::keys::{
    combo_rank, combo_rank_text, combo_text, format_key_combo, KeyCode, KeyCombo, KeyModifiers,
};
use crate::order::{in_order, sort_by_key, sorted_by_is_in_order, sorted_by_keeps_items};
use crate::text::{same, texts};
use vstd::prelude::*;

verus! {

// ---------------------------------------------------------------------------
// Core types
// ---------------------------------------------------------------------------

/// All configurable key actions across the three binding modes.
#[derive(Debug, Clone, Copy, PartialEq, Eq, Hash, Structural)]
pub enum KeyAction {
    // Global
    Quit,
    NextConversation,
    PrevConversation,
    ResizeSidebarLeft,
    ResizeSidebarRight,
    PageScrollUp,
    PageScrollDown,
    // Normal: scroll
    ScrollUp,
    ScrollDown,
    FocusNextMessage,
    FocusPrevMessage,
    HalfPageDown,
    HalfPageUp,
    ScrollToTop,
    ScrollToBottom,
    // Normal: edit/mode-switch
    InsertAtCursor,
    InsertAfterCursor,
    InsertLineStart,
    InsertLineEnd,
    OpenLineBelow,
    CursorLeft,
    CursorRight,
    LineStart,
    LineEnd,
    WordForward,
    WordBack,
    DeleteChar,
    DeleteToEnd,
    StartSearch,
    ClearInput,
    // Normal: actions
    CopyMessage,
    CopyAllMessages,
    React,
    Quote,
    EditMessage,
    ForwardMessage,
    DeleteMessage,
    NextSearchResult,
    PrevSearchResult,
    OpenActionMenu,
    PinMessage,
    JumpToQuote,
    JumpBack,
    SidebarSearch,
    // Insert
    ExitInsert,
    SendMessage,
    InsertNewline,
    DeleteWordBack,
}

/// Which mode a binding applies to.
#[derive(Debug, Clone, Copy, PartialEq, Eq, Hash, Structural)]
pub enum BindingMode {
    Global,
    Normal,
    Insert,
}

/// The bindings of one mode: a list in which no combination stands twice.
#[derive(Debug)]
pub struct KeyMap {
    entries: Vec<(KeyCombo, KeyAction)>,
}

/// `combo` is the key of entry `i`.
spec fn combo_at(e: Seq<(KeyCombo, KeyAction)>, combo: KeyCombo, i: int) -> bool {
    0 <= i < e.len() && e[i].0 == combo
}

spec fn combo_index(e: Seq<(KeyCombo, KeyAction)>, combo: KeyCombo) -> int {
    choose|i: int| combo_at(e, combo, i)
}

spec fn has_combo(e: Seq<(KeyCombo, KeyAction)>, combo: KeyCombo) -> bool {
    exists|i: int| combo_at(e, combo, i)
}

spec fn distinct_combos(e: Seq<(KeyCombo, KeyAction)>) -> bool {
    forall|i: int, j: int| 0 <= i < j < e.len() ==> (#[trigger] e[i]).0 != (#[trigger] e[j]).0
}

/// The bindings of a map without those of one action.
pub open spec fn without_action(
    m: Map<KeyCombo, KeyAction>,
    action: KeyAction,
) -> Map<KeyCombo, KeyAction> {
    Map::new(|c: KeyCombo| m.contains_key(c) && m[c] != action, |c: KeyCombo| m[c])
}

/// The bindings of a map with each of a list of combinations bound to an
/// action.
pub open spec fn with_combos(
    m: Map<KeyCombo, KeyAction>,
    combos: Seq<KeyCombo>,
    action: KeyAction,
) -> Map<KeyCombo, KeyAction>
    decreases combos.len(),
{
    if combos.len() == 0 {
        m
    } else {
        with_combos(m, combos.drop_last(), action).insert(combos.last(), action)
    }
}

impl View for KeyMap {
    type V = Map<KeyCombo, KeyAction>;

    closed spec fn view(&self) -> Map<KeyCombo, KeyAction> {
        Map::new(
            |c: KeyCombo| has_combo(self.entries@, c),
            |c: KeyCombo| self.entries@[combo_index(self.entries@, c)].1,
        )
    }
}

impl KeyMap {
    #[verifier::type_invariant]
    spec fn inv(&self) -> bool {
        distinct_combos(self.entries@)
    }

    /// The list of bindings holds those of the map, each once.
    spec fn lists(&self) -> bool {
        &&& distinct_combos(self.entries@)
        &&& forall|i: int|
            0 <= i < self.entries@.len() ==> self@.contains_key((#[trigger] self.entries@[i]).0)
                && self@[self.entries@[i].0] == self.entries@[i].1
        &&& forall|c: KeyCombo| #[trigger] self@.contains_key(c) ==> has_combo(self.entries@, c)
    }

    proof fn lists_all(&self)
        requires
            distinct_combos(self.entries@),
        ensures
            self.lists(),
    {
        assert forall|i: int| 0 <= i < self.entries@.len() implies self@.contains_key(
            (#[trigger] self.entries@[i]).0,
        ) && self@[self.entries@[i].0] == self.entries@[i].1 by {
            let c = self.entries@[i].0;
            assert(combo_at(self.entries@, c, i));
            assert(combo_at(self.entries@, c, combo_index(self.entries@, c)));
        }
    }

    /// The map with no bindings.
    pub fn new() -> (r: KeyMap)
        ensures
            r@ == Map::<KeyCombo, KeyAction>::empty(),
    {
        let r = KeyMap { entries: Vec::new() };
        assert(r@ =~= Map::<KeyCombo, KeyAction>::empty());
        r
    }

    /// The action of a combination.
    pub fn get(&self, combo: &KeyCombo) -> (r: Option<KeyAction>)
        ensures
            r == if self@.contains_key(*combo) {
                Some(self@[*combo])
            } else {
                None
            },
    {
        proof {
            use_type_invariant(self);
            self.lists_all();
        }
        let mut i: usize = 0;
        while i < self.entries.len()
            invariant
                i <= self.entries@.len(),
                self.lists(),
                forall|j: int| 0 <= j < i ==> (#[trigger] self.entries@[j]).0 != *combo,
            decreases self.entries@.len() - i,
        {
            if self.entries[i].0 == *combo {
                return Some(self.entries[i].1);
            }
            i += 1;
        }
        proof {
            if self@.contains_key(*combo) {
                let j = combo_index(self.entries@, *combo);
                assert(combo_at(self.entries@, *combo, j));
            }
        }
        None
    }

    /// Binds a combination to an action and returns the one that it had.
    pub fn insert(&mut self, combo: KeyCombo, action: KeyAction) -> (r: Option<KeyAction>)
        ensures
            final(self)@ == old(self)@.insert(combo, action),
            r == if old(self)@.contains_key(combo) {
                Some(old(self)@[combo])
            } else {
                None
            },
    {
        let ghost before = self@;
        let r = self.get(&combo);
        let mut entries: Vec<(KeyCombo, KeyAction)> = Vec::new();
        proof {
            use_type_invariant(&*self);
            self.lists_all();
        }
        let mut i: usize = 0;
        while i < self.entries.len()
            invariant
                i <= self.entries@.len(),
                self.lists(),
                self@ == before,
                forall|j: int|
                    0 <= j < entries@.len() ==> (#[trigger] entries@[j]).0 != combo
                        && before.contains_key(entries@[j].0) && before[entries@[j].0]
                        == entries@[j].1 && exists|k: int|
                        0 <= k < i && self.entries@[k] == entries@[j],
                distinct_combos(entries@),
                forall|j: int|
                    0 <= j < i && (#[trigger] self.entries@[j]).0 != combo ==> has_combo(
                        entries@,
                        self.entries@[j].0,
                    ),
            decreases self.entries@.len() - i,
        {
            if self.entries[i].0 != combo {
                let ghost had = entries@;
                entries.push(self.entries[i]);
                proof {
                    assert forall|c: KeyCombo| has_combo(had, c) implies #[trigger] has_combo(
                        entries@,
                        c,
                    ) by {
                        assert(combo_at(entries@, c, combo_index(had, c)));
                    }
                    assert(combo_at(entries@, self.entries@[i as int].0, had.len() as int));
                    assert forall|a: int, b: int| 0 <= a < b < entries@.len() implies (
                    #[trigger] entries@[a]).0 != (#[trigger] entries@[b]).0 by {
                        if b == had.len() {
                            let k = choose|k: int| 0 <= k < i && self.entries@[k] == had[a];
                            assert(self.entries@[k].0 != self.entries@[i as int].0);
                        }
                    }
                }
            }
            i += 1;
        }
        let ghost had = entries@;
        entries.push((combo, action));
        proof {
            assert(combo_at(entries@, combo, had.len() as int));
            assert forall|c: KeyCombo| has_combo(had, c) implies #[trigger] has_combo(
                entries@,
                c,
            ) by {
                assert(combo_at(entries@, c, combo_index(had, c)));
            }
        }
        *self = KeyMap { entries };
        proof {
            self.lists_all();
            assert forall|c: KeyCombo| #[trigger]
                self@.contains_key(c) == before.insert(combo, action).contains_key(c) by {
                if self@.contains_key(c) {
                    let j = combo_index(self.entries@, c);
                    assert(combo_at(self.entries@, c, j));
                }
                if before.contains_key(c) {
                    let j = combo_index(old(self).entries@, c);
                    assert(combo_at(old(self).entries@, c, j));
                }
            }
            assert forall|c: KeyCombo| self@.contains_key(c) implies #[trigger] self@[c]
                == before.insert(combo, action)[c] by {
                let j = combo_index(self.entries@, c);
                assert(combo_at(self.entries@, c, j));
            }
            assert(self@ =~= before.insert(combo, action));
        }
        r
    }

    /// Takes out every binding of an action.
    pub fn remove_action(&mut self, action: KeyAction)
        ensures
            final(self)@ == without_action(old(self)@, action),
    {
        let ghost before = self@;
        let mut entries: Vec<(KeyCombo, KeyAction)> = Vec::new();
        proof {
            use_type_invariant(&*self);
            self.lists_all();
        }
        let mut i: usize = 0;
        while i < self.entries.len()
            invariant
                i <= self.entries@.len(),
                self.lists(),
                self@ == before,
                forall|j: int|
                    0 <= j < entries@.len() ==> (#[trigger] entries@[j]).1 != action
                        && before.contains_key(entries@[j].0) && before[entries@[j].0]
                        == entries@[j].1 && exists|k: int|
                        0 <= k < i && self.entries@[k] == entries@[j],
                distinct_combos(entries@),
                forall|j: int|
                    0 <= j < i && (#[trigger] self.entries@[j]).1 != action ==> has_combo(
                        entries@,
                        self.entries@[j].0,
                    ),
            decreases self.entries@.len() - i,
        {
            if self.entries[i].1 != action {
                let ghost had = entries@;
                entries.push(self.entries[i]);
                proof {
                    assert forall|c: KeyCombo| has_combo(had, c) implies #[trigger] has_combo(
                        entries@,
                        c,
                    ) by {
                        assert(combo_at(entries@, c, combo_index(had, c)));
                    }
                    assert(combo_at(entries@, self.entries@[i as int].0, had.len() as int));
                    assert forall|a: int, b: int| 0 <= a < b < entries@.len() implies (
                    #[trigger] entries@[a]).0 != (#[trigger] entries@[b]).0 by {
                        if b == had.len() {
                            let k = choose|k: int| 0 <= k < i && self.entries@[k] == had[a];
                            assert(self.entries@[k].0 != self.entries@[i as int].0);
                        }
                    }
                }
            }
            i += 1;
        }
        *self = KeyMap { entries };
        proof {
            self.lists_all();
            let want = without_action(before, action);
            assert forall|c: KeyCombo| #[trigger] self@.contains_key(c) == want.contains_key(c) by {
                if self@.contains_key(c) {
                    let j = combo_index(self.entries@, c);
                    assert(combo_at(self.entries@, c, j));
                }
                if want.contains_key(c) {
                    let j = combo_index(old(self).entries@, c);
                    assert(combo_at(old(self).entries@, c, j));
                }
            }
            assert forall|c: KeyCombo| self@.contains_key(c) implies #[trigger] self@[c]
                == want[c] by {
                let j = combo_index(self.entries@, c);
                assert(combo_at(self.entries@, c, j));
            }
            assert(self@ =~= want);
        }
    }

    /// The bindings as a list: those of the map, each once.
    pub fn to_list(&self) -> (r: Vec<(KeyCombo, KeyAction)>)
        ensures
            lists_bindings(r@, self@),
    {
        proof {
            use_type_invariant(self);
            self.lists_all();
        }
        let mut r: Vec<(KeyCombo, KeyAction)> = Vec::new();
        let mut i: usize = 0;
        while i < self.entries.len()
            invariant
                i <= self.entries@.len(),
                r@ == self.entries@.take(i as int),
            decreases self.entries@.len() - i,
        {
            r.push(self.entries[i]);
            i += 1;
        }
        proof {
            assert(r@ =~= self.entries@);
            assert forall|c: KeyCombo, a: KeyAction| #[trigger]
                r@.contains((c, a)) <==> self@.contains_key(c) && self@[c] == a by {
                if r@.contains((c, a)) {
                    let j = choose|j: int| 0 <= j < r@.len() && r@[j] == (c, a);
                    assert(self.entries@[j].0 == c);
                }
                if self@.contains_key(c) && self@[c] == a {
                    let j = combo_index(self.entries@, c);
                    assert(combo_at(self.entries@, c, j));
                    assert(r@[j] == (c, a));
                }
            }
        }
        r
    }
}

/// A list holds the bindings of a map, each once, and nothing else.
pub open spec fn lists_bindings(
    l: Seq<(KeyCombo, KeyAction)>,
    m: Map<KeyCombo, KeyAction>,
) -> bool {
    &&& forall|c: KeyCombo, a: KeyAction| #[trigger]
        l.contains((c, a)) <==> m.contains_key(c) && m[c] == a
    &&& forall|i: int, j: int| 0 <= i < j < l.len() ==> (#[trigger] l[i]).0 != (#[trigger] l[j]).0
}

impl Clone for KeyMap {
    fn clone(&self) -> (r: KeyMap)
        ensures
            r@ == self@,
    {
        proof {
            use_type_invariant(self);
        }
        let mut entries: Vec<(KeyCombo, KeyAction)> = Vec::new();
        let mut i: usize = 0;
        while i < self.entries.len()
            invariant
                i <= self.entries@.len(),
                entries@ == self.entries@.take(i as int),
            decreases self.entries@.len() - i,
        {
            entries.push(self.entries[i]);
            i += 1;
        }
        assert(entries@ =~= self.entries@);
        KeyMap { entries }
    }
}

/// The full set of keybindings for all modes.
#[derive(Debug)]
pub struct KeyBindings {
    pub profile_name: String,
    pub global: KeyMap,
    pub normal: KeyMap,
    pub insert: KeyMap,
}

/// The bindings of each mode, under a name.
#[verifier::ext_equal]
pub struct KeyBindingsView {
    pub profile_name: Seq<char>,
    pub global: Map<KeyCombo, KeyAction>,
    pub normal: Map<KeyCombo, KeyAction>,
    pub insert: Map<KeyCombo, KeyAction>,
}

impl DeepView for KeyBindings {
    type V = KeyBindingsView;

    open spec fn deep_view(&self) -> KeyBindingsView {
        KeyBindingsView {
            profile_name: self.profile_name@,
            global: self.global@,
            normal: self.normal@,
            insert: self.insert@,
        }
    }
}

impl KeyBindingsView {
    /// The bindings of one mode.
    pub open spec fn map_of(self, mode: BindingMode) -> Map<KeyCombo, KeyAction> {
        match mode {
            BindingMode::Global => self.global,
            BindingMode::Normal => self.normal,
            BindingMode::Insert => self.insert,
        }
    }

    /// The bindings with those of one mode changed.
    pub open spec fn with_map(
        self,
        mode: BindingMode,
        m: Map<KeyCombo, KeyAction>,
    ) -> KeyBindingsView {
        match mode {
            BindingMode::Global => KeyBindingsView { global: m, ..self },
            BindingMode::Normal => KeyBindingsView { normal: m, ..self },
            BindingMode::Insert => KeyBindingsView { insert: m, ..self },
        }
    }

    /// The action for a key press in a mode: the global binding where there is
    /// one, else that of the mode.
    pub open spec fn resolved(
        self,
        modifiers: KeyModifiers,
        code: KeyCode,
        mode: BindingMode,
    ) -> Option<KeyAction> {
        let combo = pressed_combo(modifiers, code);
        match action_in(self.global, combo) {
            Some(a) => Some(a),
            None => action_in(self.map_of(mode), combo),
        }
    }
}

impl DeepView for KeyAction {
    type V = KeyAction;

    open spec fn deep_view(&self) -> KeyAction {
        *self
    }
}

/// User overrides loaded from / saved to a bindings file: for each action the
/// combinations that it shall have.
#[derive(Debug)]
pub struct KeyBindingOverrides {
    pub global: Vec<(KeyAction, Vec<KeyCombo>)>,
    pub normal: Vec<(KeyAction, Vec<KeyCombo>)>,
    pub insert: Vec<(KeyAction, Vec<KeyCombo>)>,
}

impl KeyBindingOverrides {
    /// The overrides of one mode.
    pub open spec fn of(self, mode: BindingMode) -> Seq<(KeyAction, Vec<KeyCombo>)> {
        match mode {
            BindingMode::Global => self.global@,
            BindingMode::Normal => self.normal@,
            BindingMode::Insert => self.insert@,
        }
    }

    /// Whether nothing is overridden.
    pub fn is_empty(&self) -> (r: bool)
        ensures
            r == (self.global@.len() == 0 && self.normal@.len() == 0 && self.insert@.len() == 0),
    {
        self.global.is_empty() && self.normal.is_empty() && self.insert.is_empty()
    }
}

impl Default for KeyBindingOverrides {
    fn default() -> (r: KeyBindingOverrides)
        ensures
            r.global@.len() == 0,
            r.normal@.len() == 0,
            r.insert@.len() == 0,
    {
        KeyBindingOverrides { global: Vec::new(), normal: Vec::new(), insert: Vec::new() }
    }
}

/// The combination of a key with modifiers.
pub open spec fn combo_of(modifiers: KeyModifiers, code: KeyCode) -> KeyCombo {
    KeyCombo { modifiers, code }
}

/// The combination by which a key press is looked up: Shift does not count
/// where the key is a character, whose case says as much.
pub open spec fn pressed_combo(modifiers: KeyModifiers, code: KeyCode) -> KeyCombo {
    if code is Char {
        KeyCombo { modifiers: KeyModifiers { shift: false, ..modifiers }, code }
    } else {
        KeyCombo { modifiers, code }
    }
}

/// The action of a combination in a map.
pub open spec fn action_in(m: Map<KeyCombo, KeyAction>, combo: KeyCombo) -> Option<KeyAction> {
    if m.contains_key(combo) {
        Some(m[combo])
    } else {
        None
    }
}

/// A character for each mode, in the order in which modes are listed.
pub open spec fn mode_rank(mode: BindingMode) -> char {
    match mode {
        BindingMode::Global => '0',
        BindingMode::Normal => '1',
        BindingMode::Insert => '2',
    }
}

/// The text by which bindings are put in order: by modifiers, then by the name
/// of the key, then by mode.
pub open spec fn binding_rank() -> spec_fn((BindingMode, KeyCombo)) -> Seq<char> {
    |p: (BindingMode, KeyCombo)| combo_rank(p.1) + seq!['\0', mode_rank(p.0)]
}

/// The bindings of a map after the overrides of one mode.
pub open spec fn overridden(
    m: Map<KeyCombo, KeyAction>,
    list: Seq<(KeyAction, Vec<KeyCombo>)>,
) -> Map<KeyCombo, KeyAction>
    decreases list.len(),
{
    if list.len() == 0 {
        m
    } else {
        let (action, combos) = list.last();
        with_combos(without_action(overridden(m, list.drop_last()), action), combos@, action)
    }
}

/// The bindings of a map with those of one action set to what `defaults` has
/// for it.
pub open spec fn with_defaults(
    m: Map<KeyCombo, KeyAction>,
    defaults: Map<KeyCombo, KeyAction>,
    action: KeyAction,
) -> Map<KeyCombo, KeyAction> {
    Map::new(
        |c: KeyCombo|
            action_in(defaults, c) == Some(action) || (m.contains_key(c) && m[c] != action),
        |c: KeyCombo|
            if action_in(defaults, c) == Some(action) {
                action
            } else {
                m[c]
            },
    )
}

fn bind(map: &mut KeyMap, modifiers: KeyModifiers, code: KeyCode, action: KeyAction)
    ensures
        final(map)@ == old(map)@.insert(combo_of(modifiers, code), action),
{
    map.insert(KeyCombo { modifiers, code }, action);
}

/// Binds each of a list of combinations to an action.
fn bind_all(map: &mut KeyMap, combos: &Vec<KeyCombo>, action: KeyAction)
    ensures
        final(map)@ == with_combos(old(map)@, combos@, action),
{
    let ghost start = map@;
    let mut i: usize = 0;
    assert(combos@.take(0) =~= Seq::empty());
    while i < combos.len()
        invariant
            i <= combos@.len(),
            map@ == with_combos(start, combos@.take(i as int), action),
        decreases combos@.len() - i,
    {
        map.insert(combos[i], action);
        i += 1;
        assert(combos@.take(i as int).drop_last() =~= combos@.take(i - 1));
    }
    assert(combos@.take(combos@.len() as int) =~= combos@);
}

/// Applies the overrides of one mode.
fn override_map(map: &mut KeyMap, list: &Vec<(KeyAction, Vec<KeyCombo>)>)
    ensures
        final(map)@ == overridden(old(map)@, list@),
{
    let ghost start = map@;
    let mut i: usize = 0;
    assert(list@.take(0) =~= Seq::empty());
    while i < list.len()
        invariant
            i <= list@.len(),
            map@ == overridden(start, list@.take(i as int)),
        decreases list@.len() - i,
    {
        let action = list[i].0;
        map.remove_action(action);
        bind_all(map, &list[i].1, action);
        i += 1;
        assert(list@.take(i as int).drop_last() =~= list@.take(i - 1));
    }
    assert(list@.take(list@.len() as int) =~= list@);
}

impl KeyBindings {
    /// The bindings of one mode.
    pub open spec fn map_of(self, mode: BindingMode) -> Map<KeyCombo, KeyAction> {
        match mode {
            BindingMode::Global => self.global@,
            BindingMode::Normal => self.normal@,
            BindingMode::Insert => self.insert@,
        }
    }

    /// The action for a key press in a mode: the global binding where there is
    /// one, else that of the mode.
    pub open spec fn resolved(
        self,
        modifiers: KeyModifiers,
        code: KeyCode,
        mode: BindingMode,
    ) -> Option<KeyAction> {
        let combo = pressed_combo(modifiers, code);
        match action_in(self.map_of(BindingMode::Global), combo) {
            Some(a) => Some(a),
            None => action_in(self.map_of(mode), combo),
        }
    }

    /// A combination is bound to an action in a mode.
    pub open spec fn binds(self, mode: BindingMode, combo: KeyCombo, action: KeyAction) -> bool {
        self.map_of(mode).contains_key(combo) && self.map_of(mode)[combo] == action
    }

    /// The bindings of one mode.
    fn map_for_mode(&self, mode: BindingMode) -> (r: &KeyMap)
        ensures
            r@ == self.map_of(mode),
    {
        match mode {
            BindingMode::Global => &self.global,
            BindingMode::Normal => &self.normal,
            BindingMode::Insert => &self.insert,
        }
    }

    /// Looks up the action for a key press in the given mode. Global bindings
    /// are checked first, then mode-specific.
    pub fn resolve(&self, modifiers: KeyModifiers, code: KeyCode, mode: BindingMode) -> (r: Option<
        KeyAction,
    >)
        ensures
            r == self.resolved(modifiers, code, mode),
    {
        let mut modifiers = modifiers;
        if let KeyCode::Char(_) = code {
            modifiers.shift = false;
        }
        let combo = KeyCombo { modifiers, code };
        match self.global.get(&combo) {
            Some(action) => Some(action),
            None => self.map_for_mode(mode).get(&combo),
        }
    }

    /// Adds the bindings of one mode and action to a list.
    fn add_keys(
        &self,
        mode: BindingMode,
        action: KeyAction,
        result: &mut Vec<(BindingMode, KeyCombo)>,
    )
        requires
            forall|i: int| 0 <= i < old(result)@.len() ==> (#[trigger] old(result)@[i]).0 != mode,
            old(result)@.no_duplicates(),
        ensures
            final(result)@.no_duplicates(),
            forall|m: BindingMode, c: KeyCombo| #[trigger]
                final(result)@.contains((m, c)) <==> old(result)@.contains((m, c)) || (m == mode
                    && self.binds(mode, c, action)),
    {
        let list = self.map_for_mode(mode).to_list();
        let ghost start = result@;
        let mut i: usize = 0;
        assert(result@ =~= start + Seq::empty());
        while i < list.len()
            invariant
                i <= list@.len(),
                lists_bindings(list@, self.map_of(mode)),
                start == old(result)@,
                forall|k: int| 0 <= k < start.len() ==> (#[trigger] start[k]).0 != mode,
                result@.no_duplicates(),
                forall|m: BindingMode, c: KeyCombo| #[trigger]
                    result@.contains((m, c)) <==> start.contains((m, c)) || (m == mode
                        && exists|k: int| 0 <= k < i && list@[k] == (c, action)),
            decreases list@.len() - i,
        {
            let ghost before = result@;
            if list[i].1 == action {
                let ghost combo = list@[i as int].0;
                proof {
                    if before.contains((mode, combo)) {
                        if start.contains((mode, combo)) {
                            let k = choose|k: int| 0 <= k < start.len() && start[k] == (mode, combo);
                            assert(start[k].0 == mode);
                        }
                        let k = choose|k: int| 0 <= k < i && list@[k] == (combo, action);
                        assert(list@[k].0 != list@[i as int].0);
                    }
                }
                result.push((mode, list[i].0));
                assert forall|m: BindingMode, c: KeyCombo| #[trigger]
                    result@.contains((m, c)) <==> before.contains((m, c)) || (m == mode && c
                        == combo) by {
                    if before.contains((m, c)) {
                        let k = choose|k: int| 0 <= k < before.len() && before[k] == (m, c);
                        assert(result@[k] == (m, c));
                    }
                    assert(result@[before.len() as int] == (mode, combo));
                }
                assert(list@[i as int] == (combo, action));
            }
            i += 1;
        }
        assert forall|m: BindingMode, c: KeyCombo| #[trigger]
            result@.contains((m, c)) <==> start.contains((m, c)) || (m == mode && self.binds(
                mode,
                c,
                action,
            )) by {
            if m == mode && self.binds(mode, c, action) {
                assert(list@.contains((c, action)));
            }
            if m == mode && exists|k: int| 0 <= k < i && list@[k] == (c, action) {
                assert(list@.contains((c, action)));
            }
        }
    }

    /// Finds all key combos that trigger the given action (across all modes),
    /// simpler modifiers first.
    pub fn keys_for_action(&self, action: KeyAction) -> (r: Vec<(BindingMode, KeyCombo)>)
        ensures
            r@.no_duplicates(),
            forall|m: BindingMode, c: KeyCombo| #[trigger]
                r@.contains((m, c)) <==> self.binds(m, c, action),
            in_order(r@, binding_rank()),
    {
        let mut result: Vec<(BindingMode, KeyCombo)> = Vec::new();
        self.add_keys(BindingMode::Global, action, &mut result);
        assert forall|i: int| 0 <= i < result@.len() implies (#[trigger] result@[i]).0
            == BindingMode::Global by {
            assert(result@.contains((result@[i].0, result@[i].1)));
        }
        self.add_keys(BindingMode::Normal, action, &mut result);
        assert forall|i: int| 0 <= i < result@.len() implies (#[trigger] result@[i]).0
            != BindingMode::Insert by {
            assert(result@.contains((result@[i].0, result@[i].1)));
        }
        self.add_keys(BindingMode::Insert, action, &mut result);
        let ghost found = result@;
        let f = |p: &(BindingMode, KeyCombo)| -> (r: String)
            ensures
                r@ == combo_rank(p.1) + seq!['\0', mode_rank(p.0)],
        {
            let mut r = combo_rank_text(&p.1);
            let ghost front = r@;
            r.push('\0');
            r.push(
                match p.0 {
                    BindingMode::Global => '0',
                    BindingMode::Normal => '1',
                    BindingMode::Insert => '2',
                },
            );
            assert(r@ =~= front + seq!['\0', mode_rank(p.0)]);
            r
        };
        let sorted = sort_by_key(result, f, Ghost(binding_rank()));
        proof {
            sorted_by_is_in_order(found, binding_rank());
            sorted_by_keeps_items(found, binding_rank());
            found.lemma_multiset_has_no_duplicates();
            sorted@.lemma_multiset_has_no_duplicates_conv();
            broadcast use vstd::seq_lib::group_to_multiset_ensures;
            assert forall|m: BindingMode, c: KeyCombo| #[trigger]
                sorted@.contains((m, c)) <==> self.binds(m, c, action) by {
                assert(sorted@.contains((m, c)) <==> sorted@.to_multiset().count((m, c)) > 0);
                assert(found.contains((m, c)) <==> found.to_multiset().count((m, c)) > 0);
            }
        }
        sorted
    }

    /// Human-readable display string for the first binding of an action. Falls
    /// back to "?" if unbound.
    pub fn display_key(&self, action: KeyAction) -> (r: String)
        ensures
            (forall|m: BindingMode, c: KeyCombo| !#[trigger] self.binds(m, c, action)) ==> r@
                == "?"@,
            (exists|m: BindingMode, c: KeyCombo| #[trigger] self.binds(m, c, action))
                ==> exists|m: BindingMode, c: KeyCombo|
                #![trigger self.binds(m, c, action)]
                self.binds(m, c, action) && r@ == combo_text(c) && forall|m2: BindingMode, c2: KeyCombo|
                    #![trigger self.binds(m2, c2, action)]
                    self.binds(m2, c2, action) ==> crate::order::text_le(
                        binding_rank()((m, c)),
                        binding_rank()((m2, c2)),
                    ),
    {
        let bindings = self.keys_for_action(action);
        if bindings.len() > 0 {
            let ghost first = bindings@[0];
            assert(bindings@.contains((first.0, first.1)));
            assert(self.binds(first.0, first.1, action));
            assert forall|m2: BindingMode, c2: KeyCombo| #[trigger]
                self.binds(m2, c2, action) implies crate::order::text_le(
                binding_rank()((first.0, first.1)),
                binding_rank()((m2, c2)),
            ) by {
                assert(bindings@.contains((m2, c2)));
                let j = choose|j: int| 0 <= j < bindings@.len() && bindings@[j] == (m2, c2);
                assert(bindings@[0] == first && bindings@[j] == (m2, c2));
            }
            format_key_combo(&bindings[0].1)
        } else {
            assert forall|m: BindingMode, c: KeyCombo| !#[trigger] self.binds(m, c, action) by {
                assert(!bindings@.contains((m, c)));
            }
            "?".to_string()
        }
    }

    /// Applies user overrides on top of the current bindings.
    pub fn apply_overrides(&mut self, overrides: &KeyBindingOverrides)
        ensures
            forall|mode: BindingMode| #[trigger]
                final(self).map_of(mode) == overridden(old(self).map_of(mode), overrides.of(mode)),
            final(self).profile_name == old(self).profile_name,
    {
        override_map(&mut self.global, &overrides.global);
        override_map(&mut self.normal, &overrides.normal);
        override_map(&mut self.insert, &overrides.insert);
    }

    /// Rebinds a single action in a specific mode to a new key combo. Removes
    /// the old binding(s) for this action and inserts the new one. Returns the
    /// action that was bound to the new combo before.
    pub fn rebind(&mut self, mode: BindingMode, action: KeyAction, new_combo: KeyCombo) -> (r:
        Option<KeyAction>)
        ensures
            final(self).map_of(mode) == without_action(old(self).map_of(mode), action).insert(
                new_combo,
                action,
            ),
            forall|m: BindingMode|
                m != mode ==> #[trigger] final(self).map_of(m) == old(self).map_of(m),
            final(self).profile_name == old(self).profile_name,
            r == action_in(without_action(old(self).map_of(mode), action), new_combo),
    {
        match mode {
            BindingMode::Global => {
                self.global.remove_action(action);
                self.global.insert(new_combo, action)
            },
            BindingMode::Normal => {
                self.normal.remove_action(action);
                self.normal.insert(new_combo, action)
            },
            BindingMode::Insert => {
                self.insert.remove_action(action);
                self.insert.insert(new_combo, action)
            },
        }
    }

    /// Resets a single action in a specific mode to its default binding(s).
    pub fn reset_action(&mut self, mode: BindingMode, action: KeyAction)
        ensures
            final(self).map_of(mode) == with_defaults(
                old(self).map_of(mode),
                default_map(mode),
                action,
            ),
            forall|m: BindingMode|
                m != mode ==> #[trigger] final(self).map_of(m) == old(self).map_of(m),
            final(self).profile_name == old(self).profile_name,
    {
        let defaults = default_profile();
        let list = defaults.map_for_mode(mode).to_list();
        match mode {
            BindingMode::Global => restore_action(&mut self.global, &list, action, Ghost(defaults.global@)),
            BindingMode::Normal => restore_action(&mut self.normal, &list, action, Ghost(defaults.normal@)),
            BindingMode::Insert => restore_action(&mut self.insert, &list, action, Ghost(defaults.insert@)),
        }
    }

    /// All bindings as a flat list for UI display: each once.
    pub fn all_bindings(&self) -> (r: Vec<(BindingMode, KeyCombo, KeyAction)>)
        ensures
            forall|m: BindingMode, c: KeyCombo, a: KeyAction| #[trigger]
                r@.contains((m, c, a)) <==> self.binds(m, c, a),
            r@.no_duplicates(),
    {
        let mut r: Vec<(BindingMode, KeyCombo, KeyAction)> = Vec::new();
        self.add_bindings(BindingMode::Global, &mut r);
        assert forall|i: int| 0 <= i < r@.len() implies (#[trigger] r@[i]).0
            == BindingMode::Global by {
            assert(r@.contains((r@[i].0, r@[i].1, r@[i].2)));
        }
        self.add_bindings(BindingMode::Normal, &mut r);
        assert forall|i: int| 0 <= i < r@.len() implies (#[trigger] r@[i]).0
            != BindingMode::Insert by {
            assert(r@.contains((r@[i].0, r@[i].1, r@[i].2)));
        }
        self.add_bindings(BindingMode::Insert, &mut r);
        r
    }

    /// Adds the bindings of one mode to a list.
    fn add_bindings(&self, mode: BindingMode, r: &mut Vec<(BindingMode, KeyCombo, KeyAction)>)
        requires
            forall|i: int| 0 <= i < old(r)@.len() ==> (#[trigger] old(r)@[i]).0 != mode,
            old(r)@.no_duplicates(),
        ensures
            final(r)@.no_duplicates(),
            forall|m: BindingMode, c: KeyCombo, a: KeyAction| #[trigger]
                final(r)@.contains((m, c, a)) <==> old(r)@.contains((m, c, a)) || (m == mode
                    && self.binds(m, c, a)),
    {
        let list = self.map_for_mode(mode).to_list();
        let ghost start = r@;
        let mut i: usize = 0;
        while i < list.len()
            invariant
                i <= list@.len(),
                lists_bindings(list@, self.map_of(mode)),
                start == old(r)@,
                forall|k: int| 0 <= k < start.len() ==> (#[trigger] start[k]).0 != mode,
                r@.no_duplicates(),
                forall|m: BindingMode, c: KeyCombo, a: KeyAction| #[trigger]
                    r@.contains((m, c, a)) <==> start.contains((m, c, a)) || (m == mode
                        && exists|k: int| 0 <= k < i && list@[k] == (c, a)),
            decreases list@.len() - i,
        {
            let ghost before = r@;
            let (combo, action) = list[i];
            proof {
                if before.contains((mode, combo, action)) {
                    if start.contains((mode, combo, action)) {
                        let k = choose|k: int|
                            0 <= k < start.len() && start[k] == (mode, combo, action);
                        assert(start[k].0 == mode);
                    }
                    let k = choose|k: int| 0 <= k < i && list@[k] == (combo, action);
                    assert(list@[k].0 != list@[i as int].0);
                }
            }
            r.push((mode, combo, action));
            proof {
                assert forall|m: BindingMode, c: KeyCombo, a: KeyAction| #[trigger]
                    r@.contains((m, c, a)) <==> before.contains((m, c, a)) || (m, c, a) == (
                    mode,
                    combo,
                    action,
                ) by {
                    if before.contains((m, c, a)) {
                        let k = choose|k: int| 0 <= k < before.len() && before[k] == (m, c, a);
                        assert(r@[k] == (m, c, a));
                    }
                    assert(r@[before.len() as int] == (mode, combo, action));
                }
                assert(list@[i as int] == (combo, action));
            }
            i += 1;
        }
        assert forall|m: BindingMode, c: KeyCombo, a: KeyAction| #[trigger]
            r@.contains((m, c, a)) <==> start.contains((m, c, a)) || (m == mode && self.binds(
                m,
                c,
                a,
            )) by {
            if m == mode && self.binds(m, c, a) {
                assert(list@.contains((c, a)));
            }
            if m == mode && exists|k: int| 0 <= k < i && list@[k] == (c, a) {
                assert(list@.contains((c, a)));
            }
        }
    }

    /// A mode binds a combination otherwise than the global bindings do.
    pub open spec fn clashes(
        self,
        mode: BindingMode,
        combo: KeyCombo,
        global: KeyAction,
        own: KeyAction,
    ) -> bool {
        &&& mode != BindingMode::Global
        &&& self.binds(BindingMode::Global, combo, global)
        &&& self.binds(mode, combo, own)
        &&& global != own
    }

    /// Returns the conflicting bindings: combinations that are bound globally
    /// and, to another action, in a mode.
    pub fn conflicts(&self) -> (r: Vec<(BindingMode, KeyCombo, KeyAction, KeyAction)>)
        ensures
            forall|m: BindingMode, c: KeyCombo, g: KeyAction, a: KeyAction| #[trigger]
                r@.contains((m, c, g, a)) <==> self.clashes(m, c, g, a),
            r@.no_duplicates(),
    {
        let list = self.global.to_list();
        let mut r: Vec<(BindingMode, KeyCombo, KeyAction, KeyAction)> = Vec::new();
        let mut i: usize = 0;
        while i < list.len()
            invariant
                i <= list@.len(),
                lists_bindings(list@, self.map_of(BindingMode::Global)),
                r@.no_duplicates(),
                forall|m: BindingMode, c: KeyCombo, g: KeyAction, a: KeyAction| #[trigger]
                    r@.contains((m, c, g, a)) <==> self.clashes(m, c, g, a) && exists|k: int|
                        0 <= k < i && list@[k] == (c, g),
            decreases list@.len() - i,
        {
            let (combo, global_action) = list[i];
            let ghost start = r@;
            proof {
                assert(list@.contains((combo, global_action)));
                assert forall|m: BindingMode, a: KeyAction| !#[trigger]
                    start.contains((m, combo, global_action, a)) by {
                    if start.contains((m, combo, global_action, a)) {
                        let k = choose|k: int| 0 <= k < i && list@[k] == (combo, global_action);
                        assert(list@[k].0 != list@[i as int].0);
                    }
                }
            }
            if let Some(action) = self.normal.get(&combo) {
                if global_action != action {
                    assert(!r@.contains((BindingMode::Normal, combo, global_action, action)));
                    r.push((BindingMode::Normal, combo, global_action, action));
                }
            }
            let ghost middle = r@;
            proof {
                assert forall|m: BindingMode, c: KeyCombo, g: KeyAction, a: KeyAction| #[trigger]
                    middle.contains((m, c, g, a)) <==> start.contains((m, c, g, a)) || (m
                        == BindingMode::Normal && c == combo && g == global_action && self.clashes(
                        m,
                        c,
                        g,
                        a,
                    )) by {
                    if start.contains((m, c, g, a)) {
                        let k = choose|k: int| 0 <= k < start.len() && start[k] == (m, c, g, a);
                        assert(middle[k] == (m, c, g, a));
                    }
                    if middle.len() > start.len() {
                        assert(middle[start.len() as int].0 == BindingMode::Normal);
                        assert(middle.contains(middle[start.len() as int]));
                    }
                }
                assert(middle.no_duplicates());
            }
            if let Some(action) = self.insert.get(&combo) {
                if global_action != action {
                    assert(!r@.contains((BindingMode::Insert, combo, global_action, action)));
                    r.push((BindingMode::Insert, combo, global_action, action));
                }
            }
            proof {
                assert forall|m: BindingMode, c: KeyCombo, g: KeyAction, a: KeyAction| #[trigger]
                    r@.contains((m, c, g, a)) <==> middle.contains((m, c, g, a)) || (m
                        == BindingMode::Insert && c == combo && g == global_action && self.clashes(
                        m,
                        c,
                        g,
                        a,
                    )) by {
                    if middle.contains((m, c, g, a)) {
                        let k = choose|k: int| 0 <= k < middle.len() && middle[k] == (m, c, g, a);
                        assert(r@[k] == (m, c, g, a));
                    }
                    if r@.len() > middle.len() {
                        assert(r@[middle.len() as int].0 == BindingMode::Insert);
                        assert(r@.contains(r@[middle.len() as int]));
                    }
                }
                assert(list@[i as int] == (combo, global_action));
            }
            i += 1;
        }
        assert forall|m: BindingMode, c: KeyCombo, g: KeyAction, a: KeyAction| #[trigger]
            r@.contains((m, c, g, a)) <==> self.clashes(m, c, g, a) by {
            if self.clashes(m, c, g, a) {
                assert(list@.contains((c, g)));
            }
        }
        r
    }

    /// Checks what action a specific combo is bound to in a specific mode.
    pub fn action_for_combo(&self, mode: BindingMode, combo: &KeyCombo) -> (r: Option<KeyAction>)
        ensures
            r == action_in(self.map_of(mode), *combo),
    {
        self.map_for_mode(mode).get(combo)
    }
}

/// Sets the bindings of an action in a map to those of a list of defaults.
fn restore_action(
    map: &mut KeyMap,
    list: &Vec<(KeyCombo, KeyAction)>,
    action: KeyAction,
    Ghost(defaults): Ghost<Map<KeyCombo, KeyAction>>,
)
    requires
        lists_bindings(list@, defaults),
    ensures
        final(map)@ == with_defaults(old(map)@, defaults, action),
{
    let ghost start = map@;
    map.remove_action(action);
    let mut i: usize = 0;
    while i < list.len()
        invariant
            i <= list@.len(),
            forall|c: KeyCombo| #[trigger]
                map@.contains_key(c) <==> (exists|k: int|
                    0 <= k < i && list@[k] == (c, action)) || (start.contains_key(c) && start[c]
                    != action),
            forall|c: KeyCombo| #[trigger]
                map@.contains_key(c) ==> map@[c] == (if exists|k: int|
                    0 <= k < i && list@[k] == (c, action) {
                    action
                } else {
                    start[c]
                }),
        decreases list@.len() - i,
    {
        let ghost before = map@;
        if list[i].1 == action {
            assert(list@[i as int] == (list@[i as int].0, action));
            map.insert(list[i].0, action);
        }
        i += 1;
    }
    proof {
        let want = with_defaults(start, defaults, action);
        assert forall|c: KeyCombo| (exists|k: int| 0 <= k < i && list@[k] == (c, action))
            <==> #[trigger] action_in(defaults, c) == Some(action) by {
            if exists|k: int| 0 <= k < i && list@[k] == (c, action) {
                assert(list@.contains((c, action)));
            }
            if action_in(defaults, c) == Some(action) {
                assert(list@.contains((c, action)));
            }
        }
        assert forall|c: KeyCombo| #[trigger] map@.contains_key(c) == want.contains_key(c) by {
            assert(action_in(defaults, c) == action_in(defaults, c));
        }
        assert forall|c: KeyCombo| map@.contains_key(c) implies #[trigger] map@[c] == want[c] by {
            assert(action_in(defaults, c) == action_in(defaults, c));
        }
        assert(map@ =~= want);
    }
}

// ---------------------------------------------------------------------------
// Labels and names
// ---------------------------------------------------------------------------

/// The global actions in display order.
pub open spec fn spec_global_actions() -> Seq<KeyAction> {
    seq![
        KeyAction::Quit,
        KeyAction::NextConversation,
        KeyAction::PrevConversation,
        KeyAction::ResizeSidebarLeft,
        KeyAction::ResizeSidebarRight,
        KeyAction::PageScrollUp,
        KeyAction::PageScrollDown,
    ]
}

/// The global actions in display order for the keybindings overlay.
pub fn global_actions() -> (r: Vec<KeyAction>)
    ensures
        r@ == spec_global_actions(),
{
    vec![
        KeyAction::Quit,
        KeyAction::NextConversation,
        KeyAction::PrevConversation,
        KeyAction::ResizeSidebarLeft,
        KeyAction::ResizeSidebarRight,
        KeyAction::PageScrollUp,
        KeyAction::PageScrollDown,
    ]
}

/// The Normal-mode actions in display order.
pub open spec fn spec_normal_actions() -> Seq<KeyAction> {
    seq![
        KeyAction::ScrollUp,
        KeyAction::ScrollDown,
        KeyAction::FocusNextMessage,
        KeyAction::FocusPrevMessage,
        KeyAction::HalfPageDown,
        KeyAction::HalfPageUp,
        KeyAction::ScrollToTop,
        KeyAction::ScrollToBottom,
        KeyAction::InsertAtCursor,
        KeyAction::InsertAfterCursor,
        KeyAction::InsertLineStart,
        KeyAction::InsertLineEnd,
        KeyAction::OpenLineBelow,
        KeyAction::CursorLeft,
        KeyAction::CursorRight,
        KeyAction::LineStart,
        KeyAction::LineEnd,
        KeyAction::WordForward,
        KeyAction::WordBack,
        KeyAction::DeleteChar,
        KeyAction::DeleteToEnd,
        KeyAction::StartSearch,
        KeyAction::ClearInput,
        KeyAction::CopyMessage,
        KeyAction::CopyAllMessages,
        KeyAction::React,
        KeyAction::Quote,
        KeyAction::EditMessage,
        KeyAction::ForwardMessage,
        KeyAction::DeleteMessage,
        KeyAction::NextSearchResult,
        KeyAction::PrevSearchResult,
        KeyAction::OpenActionMenu,
        KeyAction::PinMessage,
        KeyAction::JumpToQuote,
        KeyAction::JumpBack,
        KeyAction::SidebarSearch,
    ]
}

/// The Normal-mode actions in display order for the keybindings overlay.
pub fn normal_actions() -> (r: Vec<KeyAction>)
    ensures
        r@ == spec_normal_actions(),
{
    vec![
        KeyAction::ScrollUp,
        KeyAction::ScrollDown,
        KeyAction::FocusNextMessage,
        KeyAction::FocusPrevMessage,
        KeyAction::HalfPageDown,
        KeyAction::HalfPageUp,
        KeyAction::ScrollToTop,
        KeyAction::ScrollToBottom,
        KeyAction::InsertAtCursor,
        KeyAction::InsertAfterCursor,
        KeyAction::InsertLineStart,
        KeyAction::InsertLineEnd,
        KeyAction::OpenLineBelow,
        KeyAction::CursorLeft,
        KeyAction::CursorRight,
        KeyAction::LineStart,
        KeyAction::LineEnd,
        KeyAction::WordForward,
        KeyAction::WordBack,
        KeyAction::DeleteChar,
        KeyAction::DeleteToEnd,
        KeyAction::StartSearch,
        KeyAction::ClearInput,
        KeyAction::CopyMessage,
        KeyAction::CopyAllMessages,
        KeyAction::React,
        KeyAction::Quote,
        KeyAction::EditMessage,
        KeyAction::ForwardMessage,
        KeyAction::DeleteMessage,
        KeyAction::NextSearchResult,
        KeyAction::PrevSearchResult,
        KeyAction::OpenActionMenu,
        KeyAction::PinMessage,
        KeyAction::JumpToQuote,
        KeyAction::JumpBack,
        KeyAction::SidebarSearch,
    ]
}

/// The Insert-mode actions in display order.
pub open spec fn spec_insert_actions() -> Seq<KeyAction> {
    seq![
        KeyAction::ExitInsert,
        KeyAction::SendMessage,
        KeyAction::InsertNewline,
        KeyAction::DeleteWordBack,
    ]
}

/// The Insert-mode actions in display order for the keybindings overlay.
pub fn insert_actions() -> (r: Vec<KeyAction>)
    ensures
        r@ == spec_insert_actions(),
{
    vec![
        KeyAction::ExitInsert,
        KeyAction::SendMessage,
        KeyAction::InsertNewline,
        KeyAction::DeleteWordBack,
    ]
}

/// The label of an action.
pub open spec fn label_of(action: KeyAction) -> Seq<char> {
    match action {
        KeyAction::Quit => "Quit"@,
        KeyAction::NextConversation => "Next conversation"@,
        KeyAction::PrevConversation => "Previous conversation"@,
        KeyAction::ResizeSidebarLeft => "Shrink sidebar"@,
        KeyAction::ResizeSidebarRight => "Grow sidebar"@,
        KeyAction::PageScrollUp => "Page scroll up"@,
        KeyAction::PageScrollDown => "Page scroll down"@,
        KeyAction::ScrollUp => "Scroll up"@,
        KeyAction::ScrollDown => "Scroll down"@,
        KeyAction::FocusNextMessage => "Focus next message"@,
        KeyAction::FocusPrevMessage => "Focus previous message"@,
        KeyAction::HalfPageDown => "Half-page down"@,
        KeyAction::HalfPageUp => "Half-page up"@,
        KeyAction::ScrollToTop => "Scroll to top"@,
        KeyAction::ScrollToBottom => "Scroll to bottom"@,
        KeyAction::InsertAtCursor => "Insert at cursor"@,
        KeyAction::InsertAfterCursor => "Insert after cursor"@,
        KeyAction::InsertLineStart => "Insert at line start"@,
        KeyAction::InsertLineEnd => "Insert at line end"@,
        KeyAction::OpenLineBelow => "Open line below"@,
        KeyAction::CursorLeft => "Cursor left"@,
        KeyAction::CursorRight => "Cursor right"@,
        KeyAction::LineStart => "Line start"@,
        KeyAction::LineEnd => "Line end"@,
        KeyAction::WordForward => "Word forward"@,
        KeyAction::WordBack => "Word back"@,
        KeyAction::DeleteChar => "Delete character"@,
        KeyAction::DeleteToEnd => "Delete to end"@,
        KeyAction::StartSearch => "Start command input"@,
        KeyAction::ClearInput => "Clear input"@,
        KeyAction::CopyMessage => "Copy message"@,
        KeyAction::CopyAllMessages => "Copy all messages"@,
        KeyAction::React => "React to message"@,
        KeyAction::Quote => "Reply/quote message"@,
        KeyAction::EditMessage => "Edit own message"@,
        KeyAction::ForwardMessage => "Forward message"@,
        KeyAction::DeleteMessage => "Delete message"@,
        KeyAction::NextSearchResult => "Next search match"@,
        KeyAction::PrevSearchResult => "Previous search match"@,
        KeyAction::OpenActionMenu => "Action menu"@,
        KeyAction::PinMessage => "Pin/unpin message"@,
        KeyAction::JumpToQuote => "Jump to quoted message"@,
        KeyAction::JumpBack => "Jump back"@,
        KeyAction::SidebarSearch => "Filter sidebar"@,
        KeyAction::ExitInsert => "Normal mode"@,
        KeyAction::SendMessage => "Send message"@,
        KeyAction::InsertNewline => "Insert newline"@,
        KeyAction::DeleteWordBack => "Delete word back"@,
    }
}

/// The character of a label at a place, or a space behind its end.
spec fn label_char(s: Seq<char>, i: int) -> char {
    if i < s.len() {
        s[i]
    } else {
        ' '
    }
}

/// What tells a label apart from every other: its length and some of its characters.
spec fn label_mark(s: Seq<char>) -> (int, char, char) {
    (s.len() as int, label_char(s, 0), label_char(s, 9))
}

spec fn mark_of_action(action: KeyAction) -> (int, char, char) {
    match action {
        KeyAction::Quit => (4, 'Q', ' '),
        KeyAction::NextConversation => (17, 'N', 'e'),
        KeyAction::PrevConversation => (21, 'P', 'c'),
        KeyAction::ResizeSidebarLeft => (14, 'S', 'd'),
        KeyAction::ResizeSidebarRight => (12, 'G', 'b'),
        KeyAction::PageScrollUp => (14, 'P', 'l'),
        KeyAction::PageScrollDown => (16, 'P', 'l'),
        KeyAction::ScrollUp => (9, 'S', ' '),
        KeyAction::ScrollDown => (11, 'S', 'w'),
        KeyAction::FocusNextMessage => (18, 'F', 't'),
        KeyAction::FocusPrevMessage => (22, 'F', 'v'),
        KeyAction::HalfPageDown => (14, 'H', ' '),
        KeyAction::HalfPageUp => (12, 'H', ' '),
        KeyAction::ScrollToTop => (13, 'S', ' '),
        KeyAction::ScrollToBottom => (16, 'S', ' '),
        KeyAction::InsertAtCursor => (16, 'I', ' '),
        KeyAction::InsertAfterCursor => (19, 'I', 't'),
        KeyAction::InsertLineStart => (20, 'I', ' '),
        KeyAction::InsertLineEnd => (18, 'I', ' '),
        KeyAction::OpenLineBelow => (15, 'O', ' '),
        KeyAction::CursorLeft => (11, 'C', 'f'),
        KeyAction::CursorRight => (12, 'C', 'g'),
        KeyAction::LineStart => (10, 'L', 't'),
        KeyAction::LineEnd => (8, 'L', ' '),
        KeyAction::WordForward => (12, 'W', 'a'),
        KeyAction::WordBack => (9, 'W', ' '),
        KeyAction::DeleteChar => (16, 'D', 'a'),
        KeyAction::DeleteToEnd => (13, 'D', ' '),
        KeyAction::StartSearch => (19, 'S', 'm'),
        KeyAction::ClearInput => (11, 'C', 'u'),
        KeyAction::CopyMessage => (12, 'C', 'a'),
        KeyAction::CopyAllMessages => (17, 'C', 'm'),
        KeyAction::React => (16, 'R', 'm'),
        KeyAction::Quote => (19, 'R', 't'),
        KeyAction::EditMessage => (16, 'E', 'm'),
        KeyAction::ForwardMessage => (15, 'F', 'e'),
        KeyAction::DeleteMessage => (14, 'D', 's'),
        KeyAction::NextSearchResult => (17, 'N', 'c'),
        KeyAction::PrevSearchResult => (21, 'P', 's'),
        KeyAction::OpenActionMenu => (11, 'A', 'n'),
        KeyAction::PinMessage => (17, 'P', ' '),
        KeyAction::JumpToQuote => (22, 'J', 'u'),
        KeyAction::JumpBack => (9, 'J', ' '),
        KeyAction::SidebarSearch => (14, 'F', 'd'),
        KeyAction::ExitInsert => (11, 'N', 'd'),
        KeyAction::SendMessage => (12, 'S', 'a'),
        KeyAction::InsertNewline => (14, 'I', 'w'),
        KeyAction::DeleteWordBack => (16, 'D', 'r'),
    }
}

proof fn label_has_mark(action: KeyAction)
    ensures
        label_mark(label_of(action)) == mark_of_action(action),
{
    match action {
        KeyAction::Quit => {
            reveal_strlit("Quit");
        },
        KeyAction::NextConversation => {
            reveal_strlit("Next conversation");
        },
        KeyAction::PrevConversation => {
            reveal_strlit("Previous conversation");
        },
        KeyAction::ResizeSidebarLeft => {
            reveal_strlit("Shrink sidebar");
        },
        KeyAction::ResizeSidebarRight => {
            reveal_strlit("Grow sidebar");
        },
        KeyAction::PageScrollUp => {
            reveal_strlit("Page scroll up");
        },
        KeyAction::PageScrollDown => {
            reveal_strlit("Page scroll down");
        },
        KeyAction::ScrollUp => {
            reveal_strlit("Scroll up");
        },
        KeyAction::ScrollDown => {
            reveal_strlit("Scroll down");
        },
        KeyAction::FocusNextMessage => {
            reveal_strlit("Focus next message");
        },
        KeyAction::FocusPrevMessage => {
            reveal_strlit("Focus previous message");
        },
        KeyAction::HalfPageDown => {
            reveal_strlit("Half-page down");
        },
        KeyAction::HalfPageUp => {
            reveal_strlit("Half-page up");
        },
        KeyAction::ScrollToTop => {
            reveal_strlit("Scroll to top");
        },
        KeyAction::ScrollToBottom => {
            reveal_strlit("Scroll to bottom");
        },
        KeyAction::InsertAtCursor => {
            reveal_strlit("Insert at cursor");
        },
        KeyAction::InsertAfterCursor => {
            reveal_strlit("Insert after cursor");
        },
        KeyAction::InsertLineStart => {
            reveal_strlit("Insert at line start");
        },
        KeyAction::InsertLineEnd => {
            reveal_strlit("Insert at line end");
        },
        KeyAction::OpenLineBelow => {
            reveal_strlit("Open line below");
        },
        KeyAction::CursorLeft => {
            reveal_strlit("Cursor left");
        },
        KeyAction::CursorRight => {
            reveal_strlit("Cursor right");
        },
        KeyAction::LineStart => {
            reveal_strlit("Line start");
        },
        KeyAction::LineEnd => {
            reveal_strlit("Line end");
        },
        KeyAction::WordForward => {
            reveal_strlit("Word forward");
        },
        KeyAction::WordBack => {
            reveal_strlit("Word back");
        },
        KeyAction::DeleteChar => {
            reveal_strlit("Delete character");
        },
        KeyAction::DeleteToEnd => {
            reveal_strlit("Delete to end");
        },
        KeyAction::StartSearch => {
            reveal_strlit("Start command input");
        },
        KeyAction::ClearInput => {
            reveal_strlit("Clear input");
        },
        KeyAction::CopyMessage => {
            reveal_strlit("Copy message");
        },
        KeyAction::CopyAllMessages => {
            reveal_strlit("Copy all messages");
        },
        KeyAction::React => {
            reveal_strlit("React to message");
        },
        KeyAction::Quote => {
            reveal_strlit("Reply/quote message");
        },
        KeyAction::EditMessage => {
            reveal_strlit("Edit own message");
        },
        KeyAction::ForwardMessage => {
            reveal_strlit("Forward message");
        },
        KeyAction::DeleteMessage => {
            reveal_strlit("Delete message");
        },
        KeyAction::NextSearchResult => {
            reveal_strlit("Next search match");
        },
        KeyAction::PrevSearchResult => {
            reveal_strlit("Previous search match");
        },
        KeyAction::OpenActionMenu => {
            reveal_strlit("Action menu");
        },
        KeyAction::PinMessage => {
            reveal_strlit("Pin/unpin message");
        },
        KeyAction::JumpToQuote => {
            reveal_strlit("Jump to quoted message");
        },
        KeyAction::JumpBack => {
            reveal_strlit("Jump back");
        },
        KeyAction::SidebarSearch => {
            reveal_strlit("Filter sidebar");
        },
        KeyAction::ExitInsert => {
            reveal_strlit("Normal mode");
        },
        KeyAction::SendMessage => {
            reveal_strlit("Send message");
        },
        KeyAction::InsertNewline => {
            reveal_strlit("Insert newline");
        },
        KeyAction::DeleteWordBack => {
            reveal_strlit("Delete word back");
        },
    }
}

/// No two actions have the same label.
pub proof fn labels_differ(a: KeyAction, b: KeyAction)
    requires
        a != b,
    ensures
        label_of(a) != label_of(b),
{
    label_has_mark(a);
    label_has_mark(b);
}

/// Human-readable label for a KeyAction.
pub fn action_label(action: KeyAction) -> (r: &'static str)
    ensures
        r@ == label_of(action),
{
    match action {
        KeyAction::Quit => "Quit",
        KeyAction::NextConversation => "Next conversation",
        KeyAction::PrevConversation => "Previous conversation",
        KeyAction::ResizeSidebarLeft => "Shrink sidebar",
        KeyAction::ResizeSidebarRight => "Grow sidebar",
        KeyAction::PageScrollUp => "Page scroll up",
        KeyAction::PageScrollDown => "Page scroll down",
        KeyAction::ScrollUp => "Scroll up",
        KeyAction::ScrollDown => "Scroll down",
        KeyAction::FocusNextMessage => "Focus next message",
        KeyAction::FocusPrevMessage => "Focus previous message",
        KeyAction::HalfPageDown => "Half-page down",
        KeyAction::HalfPageUp => "Half-page up",
        KeyAction::ScrollToTop => "Scroll to top",
        KeyAction::ScrollToBottom => "Scroll to bottom",
        KeyAction::InsertAtCursor => "Insert at cursor",
        KeyAction::InsertAfterCursor => "Insert after cursor",
        KeyAction::InsertLineStart => "Insert at line start",
        KeyAction::InsertLineEnd => "Insert at line end",
        KeyAction::OpenLineBelow => "Open line below",
        KeyAction::CursorLeft => "Cursor left",
        KeyAction::CursorRight => "Cursor right",
        KeyAction::LineStart => "Line start",
        KeyAction::LineEnd => "Line end",
        KeyAction::WordForward => "Word forward",
        KeyAction::WordBack => "Word back",
        KeyAction::DeleteChar => "Delete character",
        KeyAction::DeleteToEnd => "Delete to end",
        KeyAction::StartSearch => "Start command input",
        KeyAction::ClearInput => "Clear input",
        KeyAction::CopyMessage => "Copy message",
        KeyAction::CopyAllMessages => "Copy all messages",
        KeyAction::React => "React to message",
        KeyAction::Quote => "Reply/quote message",
        KeyAction::EditMessage => "Edit own message",
        KeyAction::ForwardMessage => "Forward message",
        KeyAction::DeleteMessage => "Delete message",
        KeyAction::NextSearchResult => "Next search match",
        KeyAction::PrevSearchResult => "Previous search match",
        KeyAction::OpenActionMenu => "Action menu",
        KeyAction::PinMessage => "Pin/unpin message",
        KeyAction::JumpToQuote => "Jump to quoted message",
        KeyAction::JumpBack => "Jump back",
        KeyAction::SidebarSearch => "Filter sidebar",
        KeyAction::ExitInsert => "Normal mode",
        KeyAction::SendMessage => "Send message",
        KeyAction::InsertNewline => "Insert newline",
        KeyAction::DeleteWordBack => "Delete word back",
    }
}

/// The name of an action in a bindings file.
pub open spec fn name_of(action: KeyAction) -> Seq<char> {
    match action {
        KeyAction::Quit => "quit"@,
        KeyAction::NextConversation => "next_conversation"@,
        KeyAction::PrevConversation => "prev_conversation"@,
        KeyAction::ResizeSidebarLeft => "resize_sidebar_left"@,
        KeyAction::ResizeSidebarRight => "resize_sidebar_right"@,
        KeyAction::PageScrollUp => "page_scroll_up"@,
        KeyAction::PageScrollDown => "page_scroll_down"@,
        KeyAction::ScrollUp => "scroll_up"@,
        KeyAction::ScrollDown => "scroll_down"@,
        KeyAction::FocusNextMessage => "focus_next_message"@,
        KeyAction::FocusPrevMessage => "focus_prev_message"@,
        KeyAction::HalfPageDown => "half_page_down"@,
        KeyAction::HalfPageUp => "half_page_up"@,
        KeyAction::ScrollToTop => "scroll_to_top"@,
        KeyAction::ScrollToBottom => "scroll_to_bottom"@,
        KeyAction::InsertAtCursor => "insert_at_cursor"@,
        KeyAction::InsertAfterCursor => "insert_after_cursor"@,
        KeyAction::InsertLineStart => "insert_line_start"@,
        KeyAction::InsertLineEnd => "insert_line_end"@,
        KeyAction::OpenLineBelow => "open_line_below"@,
        KeyAction::CursorLeft => "cursor_left"@,
        KeyAction::CursorRight => "cursor_right"@,
        KeyAction::LineStart => "line_start"@,
        KeyAction::LineEnd => "line_end"@,
        KeyAction::WordForward => "word_forward"@,
        KeyAction::WordBack => "word_back"@,
        KeyAction::DeleteChar => "delete_char"@,
        KeyAction::DeleteToEnd => "delete_to_end"@,
        KeyAction::StartSearch => "start_search"@,
        KeyAction::ClearInput => "clear_input"@,
        KeyAction::CopyMessage => "copy_message"@,
        KeyAction::CopyAllMessages => "copy_all_messages"@,
        KeyAction::React => "react"@,
        KeyAction::Quote => "quote"@,
        KeyAction::EditMessage => "edit_message"@,
        KeyAction::ForwardMessage => "forward_message"@,
        KeyAction::DeleteMessage => "delete_message"@,
        KeyAction::NextSearchResult => "next_search_result"@,
        KeyAction::PrevSearchResult => "prev_search_result"@,
        KeyAction::OpenActionMenu => "open_action_menu"@,
        KeyAction::PinMessage => "pin_message"@,
        KeyAction::JumpToQuote => "jump_to_quote"@,
        KeyAction::JumpBack => "jump_back"@,
        KeyAction::SidebarSearch => "sidebar_search"@,
        KeyAction::ExitInsert => "exit_insert"@,
        KeyAction::SendMessage => "send_message"@,
        KeyAction::InsertNewline => "insert_newline"@,
        KeyAction::DeleteWordBack => "delete_word_back"@,
    }
}

/// The name of an action in a bindings file.
pub fn action_name(action: KeyAction) -> (r: &'static str)
    ensures
        r@ == name_of(action),
{
    match action {
        KeyAction::Quit => "quit",
        KeyAction::NextConversation => "next_conversation",
        KeyAction::PrevConversation => "prev_conversation",
        KeyAction::ResizeSidebarLeft => "resize_sidebar_left",
        KeyAction::ResizeSidebarRight => "resize_sidebar_right",
        KeyAction::PageScrollUp => "page_scroll_up",
        KeyAction::PageScrollDown => "page_scroll_down",
        KeyAction::ScrollUp => "scroll_up",
        KeyAction::ScrollDown => "scroll_down",
        KeyAction::FocusNextMessage => "focus_next_message",
        KeyAction::FocusPrevMessage => "focus_prev_message",
        KeyAction::HalfPageDown => "half_page_down",
        KeyAction::HalfPageUp => "half_page_up",
        KeyAction::ScrollToTop => "scroll_to_top",
        KeyAction::ScrollToBottom => "scroll_to_bottom",
        KeyAction::InsertAtCursor => "insert_at_cursor",
        KeyAction::InsertAfterCursor => "insert_after_cursor",
        KeyAction::InsertLineStart => "insert_line_start",
        KeyAction::InsertLineEnd => "insert_line_end",
        KeyAction::OpenLineBelow => "open_line_below",
        KeyAction::CursorLeft => "cursor_left",
        KeyAction::CursorRight => "cursor_right",
        KeyAction::LineStart => "line_start",
        KeyAction::LineEnd => "line_end",
        KeyAction::WordForward => "word_forward",
        KeyAction::WordBack => "word_back",
        KeyAction::DeleteChar => "delete_char",
        KeyAction::DeleteToEnd => "delete_to_end",
        KeyAction::StartSearch => "start_search",
        KeyAction::ClearInput => "clear_input",
        KeyAction::CopyMessage => "copy_message",
        KeyAction::CopyAllMessages => "copy_all_messages",
        KeyAction::React => "react",
        KeyAction::Quote => "quote",
        KeyAction::EditMessage => "edit_message",
        KeyAction::ForwardMessage => "forward_message",
        KeyAction::DeleteMessage => "delete_message",
        KeyAction::NextSearchResult => "next_search_result",
        KeyAction::PrevSearchResult => "prev_search_result",
        KeyAction::OpenActionMenu => "open_action_menu",
        KeyAction::PinMessage => "pin_message",
        KeyAction::JumpToQuote => "jump_to_quote",
        KeyAction::JumpBack => "jump_back",
        KeyAction::SidebarSearch => "sidebar_search",
        KeyAction::ExitInsert => "exit_insert",
        KeyAction::SendMessage => "send_message",
        KeyAction::InsertNewline => "insert_newline",
        KeyAction::DeleteWordBack => "delete_word_back",
    }
}

// ---------------------------------------------------------------------------
// Built-in profiles
// ---------------------------------------------------------------------------

/// The global bindings of the Default profile.
pub open spec fn default_global() -> Map<KeyCombo, KeyAction> {
    Map::<KeyCombo, KeyAction>::empty()
        .insert(combo_of(KeyModifiers::control(), KeyCode::Char('c')), KeyAction::Quit)
        .insert(combo_of(KeyModifiers::none(), KeyCode::Tab), KeyAction::NextConversation)
        .insert(combo_of(KeyModifiers::shift(), KeyCode::BackTab), KeyAction::PrevConversation)
        .insert(combo_of(KeyModifiers::control(), KeyCode::Left), KeyAction::ResizeSidebarLeft)
        .insert(combo_of(KeyModifiers::control(), KeyCode::Right), KeyAction::ResizeSidebarRight)
        .insert(combo_of(KeyModifiers::none(), KeyCode::PageUp), KeyAction::PageScrollUp)
        .insert(combo_of(KeyModifiers::none(), KeyCode::PageDown), KeyAction::PageScrollDown)
}

/// The normal bindings of the Default profile.
pub open spec fn default_normal() -> Map<KeyCombo, KeyAction> {
    Map::<KeyCombo, KeyAction>::empty()
        .insert(combo_of(KeyModifiers::none(), KeyCode::Char('j')), KeyAction::FocusNextMessage)
        .insert(combo_of(KeyModifiers::none(), KeyCode::Char('k')), KeyAction::FocusPrevMessage)
        .insert(combo_of(KeyModifiers::none(), KeyCode::Char('J')), KeyAction::FocusPrevMessage)
        .insert(combo_of(KeyModifiers::none(), KeyCode::Char('K')), KeyAction::FocusNextMessage)
        .insert(combo_of(KeyModifiers::control(), KeyCode::Char('d')), KeyAction::HalfPageDown)
        .insert(combo_of(KeyModifiers::control(), KeyCode::Char('u')), KeyAction::HalfPageUp)
        .insert(combo_of(KeyModifiers::control(), KeyCode::Char('e')), KeyAction::ScrollDown)
        .insert(combo_of(KeyModifiers::control(), KeyCode::Char('y')), KeyAction::ScrollUp)
        .insert(combo_of(KeyModifiers::none(), KeyCode::Char('g')), KeyAction::ScrollToTop)
        .insert(combo_of(KeyModifiers::none(), KeyCode::Char('G')), KeyAction::ScrollToBottom)
        .insert(combo_of(KeyModifiers::none(), KeyCode::Char('i')), KeyAction::InsertAtCursor)
        .insert(combo_of(KeyModifiers::none(), KeyCode::Char('a')), KeyAction::InsertAfterCursor)
        .insert(combo_of(KeyModifiers::none(), KeyCode::Char('I')), KeyAction::InsertLineStart)
        .insert(combo_of(KeyModifiers::none(), KeyCode::Char('A')), KeyAction::InsertLineEnd)
        .insert(combo_of(KeyModifiers::none(), KeyCode::Char('o')), KeyAction::OpenLineBelow)
        .insert(combo_of(KeyModifiers::none(), KeyCode::Char('h')), KeyAction::CursorLeft)
        .insert(combo_of(KeyModifiers::none(), KeyCode::Char('l')), KeyAction::CursorRight)
        .insert(combo_of(KeyModifiers::none(), KeyCode::Char('0')), KeyAction::LineStart)
        .insert(combo_of(KeyModifiers::none(), KeyCode::Char('$')), KeyAction::LineEnd)
        .insert(combo_of(KeyModifiers::none(), KeyCode::Char('w')), KeyAction::WordForward)
        .insert(combo_of(KeyModifiers::none(), KeyCode::Char('b')), KeyAction::WordBack)
        .insert(combo_of(KeyModifiers::none(), KeyCode::Char('x')), KeyAction::DeleteChar)
        .insert(combo_of(KeyModifiers::none(), KeyCode::Char('D')), KeyAction::DeleteToEnd)
        .insert(combo_of(KeyModifiers::none(), KeyCode::Char('/')), KeyAction::StartSearch)
        .insert(combo_of(KeyModifiers::none(), KeyCode::Esc), KeyAction::ClearInput)
        .insert(combo_of(KeyModifiers::none(), KeyCode::Char('y')), KeyAction::CopyMessage)
        .insert(combo_of(KeyModifiers::none(), KeyCode::Char('Y')), KeyAction::CopyAllMessages)
        .insert(combo_of(KeyModifiers::none(), KeyCode::Char('r')), KeyAction::React)
        .insert(combo_of(KeyModifiers::none(), KeyCode::Char('q')), KeyAction::Quote)
        .insert(combo_of(KeyModifiers::none(), KeyCode::Char('e')), KeyAction::EditMessage)
        .insert(combo_of(KeyModifiers::none(), KeyCode::Char('f')), KeyAction::ForwardMessage)
        .insert(combo_of(KeyModifiers::none(), KeyCode::Char('d')), KeyAction::DeleteMessage)
        .insert(combo_of(KeyModifiers::none(), KeyCode::Char('n')), KeyAction::NextSearchResult)
        .insert(combo_of(KeyModifiers::none(), KeyCode::Char('N')), KeyAction::PrevSearchResult)
        .insert(combo_of(KeyModifiers::none(), KeyCode::Enter), KeyAction::OpenActionMenu)
        .insert(combo_of(KeyModifiers::none(), KeyCode::Char('p')), KeyAction::PinMessage)
        .insert(combo_of(KeyModifiers::none(), KeyCode::Char('Q')), KeyAction::JumpToQuote)
        .insert(combo_of(KeyModifiers::control(), KeyCode::Char('o')), KeyAction::JumpBack)
        .insert(combo_of(KeyModifiers::none(), KeyCode::Char('s')), KeyAction::SidebarSearch)
}

/// The insert bindings of the Default profile.
pub open spec fn default_insert() -> Map<KeyCombo, KeyAction> {
    Map::<KeyCombo, KeyAction>::empty()
        .insert(combo_of(KeyModifiers::none(), KeyCode::Esc), KeyAction::ExitInsert)
        .insert(combo_of(KeyModifiers::none(), KeyCode::Enter), KeyAction::SendMessage)
        .insert(combo_of(KeyModifiers::alt(), KeyCode::Enter), KeyAction::InsertNewline)
        .insert(combo_of(KeyModifiers::shift(), KeyCode::Enter), KeyAction::InsertNewline)
        .insert(combo_of(KeyModifiers::control(), KeyCode::Char('w')), KeyAction::DeleteWordBack)
}

/// The bindings of the Default profile in a mode.
pub open spec fn default_map(mode: BindingMode) -> Map<KeyCombo, KeyAction> {
    match mode {
        BindingMode::Global => default_global(),
        BindingMode::Normal => default_normal(),
        BindingMode::Insert => default_insert(),
    }
}

/// A set of bindings is the Default profile.
pub open spec fn is_default(kb: KeyBindings) -> bool {
    &&& kb.profile_name@ == "Default"@
    &&& kb.map_of(BindingMode::Global) == default_global()
    &&& kb.map_of(BindingMode::Normal) == default_normal()
    &&& kb.map_of(BindingMode::Insert) == default_insert()
}

/// The Default profile.
pub fn default_profile() -> (r: KeyBindings)
    ensures
        is_default(r),
{
    let mut global = KeyMap::new();
    let mut normal = KeyMap::new();
    let mut insert = KeyMap::new();
    bind(&mut global, KeyModifiers::control(), KeyCode::Char('c'), KeyAction::Quit);
    bind(&mut global, KeyModifiers::none(), KeyCode::Tab, KeyAction::NextConversation);
    bind(&mut global, KeyModifiers::shift(), KeyCode::BackTab, KeyAction::PrevConversation);
    bind(&mut global, KeyModifiers::control(), KeyCode::Left, KeyAction::ResizeSidebarLeft);
    bind(&mut global, KeyModifiers::control(), KeyCode::Right, KeyAction::ResizeSidebarRight);
    bind(&mut global, KeyModifiers::none(), KeyCode::PageUp, KeyAction::PageScrollUp);
    bind(&mut global, KeyModifiers::none(), KeyCode::PageDown, KeyAction::PageScrollDown);
    bind(&mut normal, KeyModifiers::none(), KeyCode::Char('j'), KeyAction::FocusNextMessage);
    bind(&mut normal, KeyModifiers::none(), KeyCode::Char('k'), KeyAction::FocusPrevMessage);
    bind(&mut normal, KeyModifiers::none(), KeyCode::Char('J'), KeyAction::FocusPrevMessage);
    bind(&mut normal, KeyModifiers::none(), KeyCode::Char('K'), KeyAction::FocusNextMessage);
    bind(&mut normal, KeyModifiers::control(), KeyCode::Char('d'), KeyAction::HalfPageDown);
    bind(&mut normal, KeyModifiers::control(), KeyCode::Char('u'), KeyAction::HalfPageUp);
    bind(&mut normal, KeyModifiers::control(), KeyCode::Char('e'), KeyAction::ScrollDown);
    bind(&mut normal, KeyModifiers::control(), KeyCode::Char('y'), KeyAction::ScrollUp);
    bind(&mut normal, KeyModifiers::none(), KeyCode::Char('g'), KeyAction::ScrollToTop);
    bind(&mut normal, KeyModifiers::none(), KeyCode::Char('G'), KeyAction::ScrollToBottom);
    bind(&mut normal, KeyModifiers::none(), KeyCode::Char('i'), KeyAction::InsertAtCursor);
    bind(&mut normal, KeyModifiers::none(), KeyCode::Char('a'), KeyAction::InsertAfterCursor);
    bind(&mut normal, KeyModifiers::none(), KeyCode::Char('I'), KeyAction::InsertLineStart);
    bind(&mut normal, KeyModifiers::none(), KeyCode::Char('A'), KeyAction::InsertLineEnd);
    bind(&mut normal, KeyModifiers::none(), KeyCode::Char('o'), KeyAction::OpenLineBelow);
    bind(&mut normal, KeyModifiers::none(), KeyCode::Char('h'), KeyAction::CursorLeft);
    bind(&mut normal, KeyModifiers::none(), KeyCode::Char('l'), KeyAction::CursorRight);
    bind(&mut normal, KeyModifiers::none(), KeyCode::Char('0'), KeyAction::LineStart);
    bind(&mut normal, KeyModifiers::none(), KeyCode::Char('$'), KeyAction::LineEnd);
    bind(&mut normal, KeyModifiers::none(), KeyCode::Char('w'), KeyAction::WordForward);
    bind(&mut normal, KeyModifiers::none(), KeyCode::Char('b'), KeyAction::WordBack);
    bind(&mut normal, KeyModifiers::none(), KeyCode::Char('x'), KeyAction::DeleteChar);
    bind(&mut normal, KeyModifiers::none(), KeyCode::Char('D'), KeyAction::DeleteToEnd);
    bind(&mut normal, KeyModifiers::none(), KeyCode::Char('/'), KeyAction::StartSearch);
    bind(&mut normal, KeyModifiers::none(), KeyCode::Esc, KeyAction::ClearInput);
    bind(&mut normal, KeyModifiers::none(), KeyCode::Char('y'), KeyAction::CopyMessage);
    bind(&mut normal, KeyModifiers::none(), KeyCode::Char('Y'), KeyAction::CopyAllMessages);
    bind(&mut normal, KeyModifiers::none(), KeyCode::Char('r'), KeyAction::React);
    bind(&mut normal, KeyModifiers::none(), KeyCode::Char('q'), KeyAction::Quote);
    bind(&mut normal, KeyModifiers::none(), KeyCode::Char('e'), KeyAction::EditMessage);
    bind(&mut normal, KeyModifiers::none(), KeyCode::Char('f'), KeyAction::ForwardMessage);
    bind(&mut normal, KeyModifiers::none(), KeyCode::Char('d'), KeyAction::DeleteMessage);
    bind(&mut normal, KeyModifiers::none(), KeyCode::Char('n'), KeyAction::NextSearchResult);
    bind(&mut normal, KeyModifiers::none(), KeyCode::Char('N'), KeyAction::PrevSearchResult);
    bind(&mut normal, KeyModifiers::none(), KeyCode::Enter, KeyAction::OpenActionMenu);
    bind(&mut normal, KeyModifiers::none(), KeyCode::Char('p'), KeyAction::PinMessage);
    bind(&mut normal, KeyModifiers::none(), KeyCode::Char('Q'), KeyAction::JumpToQuote);
    bind(&mut normal, KeyModifiers::control(), KeyCode::Char('o'), KeyAction::JumpBack);
    bind(&mut normal, KeyModifiers::none(), KeyCode::Char('s'), KeyAction::SidebarSearch);
    bind(&mut insert, KeyModifiers::none(), KeyCode::Esc, KeyAction::ExitInsert);
    bind(&mut insert, KeyModifiers::none(), KeyCode::Enter, KeyAction::SendMessage);
    bind(&mut insert, KeyModifiers::alt(), KeyCode::Enter, KeyAction::InsertNewline);
    bind(&mut insert, KeyModifiers::shift(), KeyCode::Enter, KeyAction::InsertNewline);
    bind(&mut insert, KeyModifiers::control(), KeyCode::Char('w'), KeyAction::DeleteWordBack);
    KeyBindings { profile_name: "Default".to_string(), global, normal, insert }
}

/// The global bindings of the Emacs profile.
pub open spec fn emacs_global() -> Map<KeyCombo, KeyAction> {
    Map::<KeyCombo, KeyAction>::empty()
        .insert(combo_of(KeyModifiers::control(), KeyCode::Char('c')), KeyAction::Quit)
        .insert(combo_of(KeyModifiers::none(), KeyCode::Tab), KeyAction::NextConversation)
        .insert(combo_of(KeyModifiers::shift(), KeyCode::BackTab), KeyAction::PrevConversation)
        .insert(combo_of(KeyModifiers::control(), KeyCode::Left), KeyAction::ResizeSidebarLeft)
        .insert(combo_of(KeyModifiers::control(), KeyCode::Right), KeyAction::ResizeSidebarRight)
        .insert(combo_of(KeyModifiers::none(), KeyCode::PageUp), KeyAction::PageScrollUp)
        .insert(combo_of(KeyModifiers::none(), KeyCode::PageDown), KeyAction::PageScrollDown)
        .insert(combo_of(KeyModifiers::alt(), KeyCode::Char('s')), KeyAction::SidebarSearch)
}

/// The normal bindings of the Emacs profile.
pub open spec fn emacs_normal() -> Map<KeyCombo, KeyAction> {
    Map::<KeyCombo, KeyAction>::empty()
        .insert(combo_of(KeyModifiers::none(), KeyCode::Char('i')), KeyAction::InsertAtCursor)
        .insert(combo_of(KeyModifiers::none(), KeyCode::Esc), KeyAction::ClearInput)
}

/// The insert bindings of the Emacs profile.
pub open spec fn emacs_insert() -> Map<KeyCombo, KeyAction> {
    Map::<KeyCombo, KeyAction>::empty()
        .insert(combo_of(KeyModifiers::none(), KeyCode::Esc), KeyAction::ExitInsert)
        .insert(combo_of(KeyModifiers::none(), KeyCode::Enter), KeyAction::SendMessage)
        .insert(combo_of(KeyModifiers::alt(), KeyCode::Enter), KeyAction::InsertNewline)
        .insert(combo_of(KeyModifiers::shift(), KeyCode::Enter), KeyAction::InsertNewline)
        .insert(combo_of(KeyModifiers::control(), KeyCode::Char('w')), KeyAction::DeleteWordBack)
        .insert(combo_of(KeyModifiers::control(), KeyCode::Char('p')), KeyAction::ScrollUp)
        .insert(combo_of(KeyModifiers::control(), KeyCode::Char('n')), KeyAction::ScrollDown)
        .insert(combo_of(KeyModifiers::control(), KeyCode::Char('a')), KeyAction::LineStart)
        .insert(combo_of(KeyModifiers::control(), KeyCode::Char('e')), KeyAction::LineEnd)
        .insert(combo_of(KeyModifiers::control(), KeyCode::Char('f')), KeyAction::CursorRight)
        .insert(combo_of(KeyModifiers::control(), KeyCode::Char('b')), KeyAction::CursorLeft)
        .insert(combo_of(KeyModifiers::control(), KeyCode::Char('d')), KeyAction::DeleteChar)
        .insert(combo_of(KeyModifiers::control(), KeyCode::Char('k')), KeyAction::DeleteToEnd)
        .insert(combo_of(KeyModifiers::alt(), KeyCode::Char('r')), KeyAction::React)
        .insert(combo_of(KeyModifiers::alt(), KeyCode::Char('q')), KeyAction::Quote)
        .insert(combo_of(KeyModifiers::alt(), KeyCode::Char('e')), KeyAction::EditMessage)
        .insert(combo_of(KeyModifiers::alt(), KeyCode::Char('f')), KeyAction::ForwardMessage)
        .insert(combo_of(KeyModifiers::alt(), KeyCode::Char('d')), KeyAction::DeleteMessage)
        .insert(combo_of(KeyModifiers::alt(), KeyCode::Char('y')), KeyAction::CopyMessage)
        .insert(combo_of(KeyModifiers::alt(), KeyCode::Char('n')), KeyAction::NextSearchResult)
        .insert(combo_of(KeyModifiers::alt(), KeyCode::Char('p')), KeyAction::PrevSearchResult)
        .insert(combo_of(KeyModifiers::alt(), KeyCode::Char('m')), KeyAction::OpenActionMenu)
        .insert(combo_of(KeyModifiers::alt(), KeyCode::Char('Q')), KeyAction::JumpToQuote)
        .insert(combo_of(KeyModifiers::control(), KeyCode::Char('o')), KeyAction::JumpBack)
}

/// A set of bindings is the Emacs profile.
pub open spec fn is_emacs(kb: KeyBindings) -> bool {
    &&& kb.profile_name@ == "Emacs"@
    &&& kb.map_of(BindingMode::Global) == emacs_global()
    &&& kb.map_of(BindingMode::Normal) == emacs_normal()
    &&& kb.map_of(BindingMode::Insert) == emacs_insert()
}

/// Emacs-style profile: Ctrl-based shortcuts in Insert mode.
pub fn emacs_profile() -> (r: KeyBindings)
    ensures
        is_emacs(r),
{
    let mut global = KeyMap::new();
    let mut normal = KeyMap::new();
    let mut insert = KeyMap::new();
    bind(&mut global, KeyModifiers::control(), KeyCode::Char('c'), KeyAction::Quit);
    bind(&mut global, KeyModifiers::none(), KeyCode::Tab, KeyAction::NextConversation);
    bind(&mut global, KeyModifiers::shift(), KeyCode::BackTab, KeyAction::PrevConversation);
    bind(&mut global, KeyModifiers::control(), KeyCode::Left, KeyAction::ResizeSidebarLeft);
    bind(&mut global, KeyModifiers::control(), KeyCode::Right, KeyAction::ResizeSidebarRight);
    bind(&mut global, KeyModifiers::none(), KeyCode::PageUp, KeyAction::PageScrollUp);
    bind(&mut global, KeyModifiers::none(), KeyCode::PageDown, KeyAction::PageScrollDown);
    bind(&mut global, KeyModifiers::alt(), KeyCode::Char('s'), KeyAction::SidebarSearch);
    bind(&mut normal, KeyModifiers::none(), KeyCode::Char('i'), KeyAction::InsertAtCursor);
    bind(&mut normal, KeyModifiers::none(), KeyCode::Esc, KeyAction::ClearInput);
    bind(&mut insert, KeyModifiers::none(), KeyCode::Esc, KeyAction::ExitInsert);
    bind(&mut insert, KeyModifiers::none(), KeyCode::Enter, KeyAction::SendMessage);
    bind(&mut insert, KeyModifiers::alt(), KeyCode::Enter, KeyAction::InsertNewline);
    bind(&mut insert, KeyModifiers::shift(), KeyCode::Enter, KeyAction::InsertNewline);
    bind(&mut insert, KeyModifiers::control(), KeyCode::Char('w'), KeyAction::DeleteWordBack);
    bind(&mut insert, KeyModifiers::control(), KeyCode::Char('p'), KeyAction::ScrollUp);
    bind(&mut insert, KeyModifiers::control(), KeyCode::Char('n'), KeyAction::ScrollDown);
    bind(&mut insert, KeyModifiers::control(), KeyCode::Char('a'), KeyAction::LineStart);
    bind(&mut insert, KeyModifiers::control(), KeyCode::Char('e'), KeyAction::LineEnd);
    bind(&mut insert, KeyModifiers::control(), KeyCode::Char('f'), KeyAction::CursorRight);
    bind(&mut insert, KeyModifiers::control(), KeyCode::Char('b'), KeyAction::CursorLeft);
    bind(&mut insert, KeyModifiers::control(), KeyCode::Char('d'), KeyAction::DeleteChar);
    bind(&mut insert, KeyModifiers::control(), KeyCode::Char('k'), KeyAction::DeleteToEnd);
    bind(&mut insert, KeyModifiers::alt(), KeyCode::Char('r'), KeyAction::React);
    bind(&mut insert, KeyModifiers::alt(), KeyCode::Char('q'), KeyAction::Quote);
    bind(&mut insert, KeyModifiers::alt(), KeyCode::Char('e'), KeyAction::EditMessage);
    bind(&mut insert, KeyModifiers::alt(), KeyCode::Char('f'), KeyAction::ForwardMessage);
    bind(&mut insert, KeyModifiers::alt(), KeyCode::Char('d'), KeyAction::DeleteMessage);
    bind(&mut insert, KeyModifiers::alt(), KeyCode::Char('y'), KeyAction::CopyMessage);
    bind(&mut insert, KeyModifiers::alt(), KeyCode::Char('n'), KeyAction::NextSearchResult);
    bind(&mut insert, KeyModifiers::alt(), KeyCode::Char('p'), KeyAction::PrevSearchResult);
    bind(&mut insert, KeyModifiers::alt(), KeyCode::Char('m'), KeyAction::OpenActionMenu);
    bind(&mut insert, KeyModifiers::alt(), KeyCode::Char('Q'), KeyAction::JumpToQuote);
    bind(&mut insert, KeyModifiers::control(), KeyCode::Char('o'), KeyAction::JumpBack);
    KeyBindings { profile_name: "Emacs".to_string(), global, normal, insert }
}

/// The global bindings of the Minimal profile.
pub open spec fn minimal_global() -> Map<KeyCombo, KeyAction> {
    Map::<KeyCombo, KeyAction>::empty()
        .insert(combo_of(KeyModifiers::control(), KeyCode::Char('q')), KeyAction::Quit)
        .insert(combo_of(KeyModifiers::control(), KeyCode::Char('c')), KeyAction::Quit)
        .insert(combo_of(KeyModifiers::none(), KeyCode::Tab), KeyAction::NextConversation)
        .insert(combo_of(KeyModifiers::shift(), KeyCode::BackTab), KeyAction::PrevConversation)
        .insert(combo_of(KeyModifiers::control(), KeyCode::Left), KeyAction::ResizeSidebarLeft)
        .insert(combo_of(KeyModifiers::control(), KeyCode::Right), KeyAction::ResizeSidebarRight)
        .insert(combo_of(KeyModifiers::none(), KeyCode::PageUp), KeyAction::PageScrollUp)
        .insert(combo_of(KeyModifiers::none(), KeyCode::PageDown), KeyAction::PageScrollDown)
        .insert(combo_of(KeyModifiers::control(), KeyCode::Char('s')), KeyAction::SidebarSearch)
}

/// The normal bindings of the Minimal profile.
pub open spec fn minimal_normal() -> Map<KeyCombo, KeyAction> {
    Map::<KeyCombo, KeyAction>::empty()
        .insert(combo_of(KeyModifiers::none(), KeyCode::Up), KeyAction::ScrollUp)
        .insert(combo_of(KeyModifiers::none(), KeyCode::Down), KeyAction::ScrollDown)
        .insert(combo_of(KeyModifiers::none(), KeyCode::Char('i')), KeyAction::InsertAtCursor)
        .insert(combo_of(KeyModifiers::none(), KeyCode::Esc), KeyAction::ClearInput)
}

/// The insert bindings of the Minimal profile.
pub open spec fn minimal_insert() -> Map<KeyCombo, KeyAction> {
    Map::<KeyCombo, KeyAction>::empty()
        .insert(combo_of(KeyModifiers::none(), KeyCode::Esc), KeyAction::ExitInsert)
        .insert(combo_of(KeyModifiers::none(), KeyCode::Enter), KeyAction::SendMessage)
        .insert(combo_of(KeyModifiers::alt(), KeyCode::Enter), KeyAction::InsertNewline)
        .insert(combo_of(KeyModifiers::shift(), KeyCode::Enter), KeyAction::InsertNewline)
        .insert(combo_of(KeyModifiers::control(), KeyCode::Char('w')), KeyAction::DeleteWordBack)
        .insert(combo_of(KeyModifiers::none(), KeyCode::F(2)), KeyAction::React)
        .insert(combo_of(KeyModifiers::none(), KeyCode::F(3)), KeyAction::Quote)
        .insert(combo_of(KeyModifiers::none(), KeyCode::F(4)), KeyAction::EditMessage)
        .insert(combo_of(KeyModifiers::none(), KeyCode::F(5)), KeyAction::CopyMessage)
        .insert(combo_of(KeyModifiers::none(), KeyCode::F(6)), KeyAction::DeleteMessage)
        .insert(combo_of(KeyModifiers::none(), KeyCode::F(7)), KeyAction::ForwardMessage)
        .insert(combo_of(KeyModifiers::none(), KeyCode::F(8)), KeyAction::OpenActionMenu)
        .insert(combo_of(KeyModifiers::none(), KeyCode::F(9)), KeyAction::JumpToQuote)
        .insert(combo_of(KeyModifiers::none(), KeyCode::F(10)), KeyAction::JumpBack)
}

/// A set of bindings is the Minimal profile.
pub open spec fn is_minimal(kb: KeyBindings) -> bool {
    &&& kb.profile_name@ == "Minimal"@
    &&& kb.map_of(BindingMode::Global) == minimal_global()
    &&& kb.map_of(BindingMode::Normal) == minimal_normal()
    &&& kb.map_of(BindingMode::Insert) == minimal_insert()
}

/// Minimal profile: arrow-key centric, no modal concept needed.
pub fn minimal_profile() -> (r: KeyBindings)
    ensures
        is_minimal(r),
{
    let mut global = KeyMap::new();
    let mut normal = KeyMap::new();
    let mut insert = KeyMap::new();
    bind(&mut global, KeyModifiers::control(), KeyCode::Char('q'), KeyAction::Quit);
    bind(&mut global, KeyModifiers::control(), KeyCode::Char('c'), KeyAction::Quit);
    bind(&mut global, KeyModifiers::none(), KeyCode::Tab, KeyAction::NextConversation);
    bind(&mut global, KeyModifiers::shift(), KeyCode::BackTab, KeyAction::PrevConversation);
    bind(&mut global, KeyModifiers::control(), KeyCode::Left, KeyAction::ResizeSidebarLeft);
    bind(&mut global, KeyModifiers::control(), KeyCode::Right, KeyAction::ResizeSidebarRight);
    bind(&mut global, KeyModifiers::none(), KeyCode::PageUp, KeyAction::PageScrollUp);
    bind(&mut global, KeyModifiers::none(), KeyCode::PageDown, KeyAction::PageScrollDown);
    bind(&mut global, KeyModifiers::control(), KeyCode::Char('s'), KeyAction::SidebarSearch);
    bind(&mut normal, KeyModifiers::none(), KeyCode::Up, KeyAction::ScrollUp);
    bind(&mut normal, KeyModifiers::none(), KeyCode::Down, KeyAction::ScrollDown);
    bind(&mut normal, KeyModifiers::none(), KeyCode::Char('i'), KeyAction::InsertAtCursor);
    bind(&mut normal, KeyModifiers::none(), KeyCode::Esc, KeyAction::ClearInput);
    bind(&mut insert, KeyModifiers::none(), KeyCode::Esc, KeyAction::ExitInsert);
    bind(&mut insert, KeyModifiers::none(), KeyCode::Enter, KeyAction::SendMessage);
    bind(&mut insert, KeyModifiers::alt(), KeyCode::Enter, KeyAction::InsertNewline);
    bind(&mut insert, KeyModifiers::shift(), KeyCode::Enter, KeyAction::InsertNewline);
    bind(&mut insert, KeyModifiers::control(), KeyCode::Char('w'), KeyAction::DeleteWordBack);
    bind(&mut insert, KeyModifiers::none(), KeyCode::F(2), KeyAction::React);
    bind(&mut insert, KeyModifiers::none(), KeyCode::F(3), KeyAction::Quote);
    bind(&mut insert, KeyModifiers::none(), KeyCode::F(4), KeyAction::EditMessage);
    bind(&mut insert, KeyModifiers::none(), KeyCode::F(5), KeyAction::CopyMessage);
    bind(&mut insert, KeyModifiers::none(), KeyCode::F(6), KeyAction::DeleteMessage);
    bind(&mut insert, KeyModifiers::none(), KeyCode::F(7), KeyAction::ForwardMessage);
    bind(&mut insert, KeyModifiers::none(), KeyCode::F(8), KeyAction::OpenActionMenu);
    bind(&mut insert, KeyModifiers::none(), KeyCode::F(9), KeyAction::JumpToQuote);
    bind(&mut insert, KeyModifiers::none(), KeyCode::F(10), KeyAction::JumpBack);
    KeyBindings { profile_name: "Minimal".to_string(), global, normal, insert }
}

// ---------------------------------------------------------------------------
// Every action
// ---------------------------------------------------------------------------

/// The place of an action in the order in which they are declared.
pub open spec fn action_index(action: KeyAction) -> int {
    match action {
        KeyAction::Quit => 0,
        KeyAction::NextConversation => 1,
        KeyAction::PrevConversation => 2,
        KeyAction::ResizeSidebarLeft => 3,
        KeyAction::ResizeSidebarRight => 4,
        KeyAction::PageScrollUp => 5,
        KeyAction::PageScrollDown => 6,
        KeyAction::ScrollUp => 7,
        KeyAction::ScrollDown => 8,
        KeyAction::FocusNextMessage => 9,
        KeyAction::FocusPrevMessage => 10,
        KeyAction::HalfPageDown => 11,
        KeyAction::HalfPageUp => 12,
        KeyAction::ScrollToTop => 13,
        KeyAction::ScrollToBottom => 14,
        KeyAction::InsertAtCursor => 15,
        KeyAction::InsertAfterCursor => 16,
        KeyAction::InsertLineStart => 17,
        KeyAction::InsertLineEnd => 18,
        KeyAction::OpenLineBelow => 19,
        KeyAction::CursorLeft => 20,
        KeyAction::CursorRight => 21,
        KeyAction::LineStart => 22,
        KeyAction::LineEnd => 23,
        KeyAction::WordForward => 24,
        KeyAction::WordBack => 25,
        KeyAction::DeleteChar => 26,
        KeyAction::DeleteToEnd => 27,
        KeyAction::StartSearch => 28,
        KeyAction::ClearInput => 29,
        KeyAction::CopyMessage => 30,
        KeyAction::CopyAllMessages => 31,
        KeyAction::React => 32,
        KeyAction::Quote => 33,
        KeyAction::EditMessage => 34,
        KeyAction::ForwardMessage => 35,
        KeyAction::DeleteMessage => 36,
        KeyAction::NextSearchResult => 37,
        KeyAction::PrevSearchResult => 38,
        KeyAction::OpenActionMenu => 39,
        KeyAction::PinMessage => 40,
        KeyAction::JumpToQuote => 41,
        KeyAction::JumpBack => 42,
        KeyAction::SidebarSearch => 43,
        KeyAction::ExitInsert => 44,
        KeyAction::SendMessage => 45,
        KeyAction::InsertNewline => 46,
        KeyAction::DeleteWordBack => 47,
    }
}

/// Every action, in the order in which they are declared.
pub fn all_actions() -> (r: Vec<KeyAction>)
    ensures
        r@.len() == 48,
        forall|i: int| 0 <= i < r@.len() ==> action_index(#[trigger] r@[i]) == i,
        forall|a: KeyAction| 0 <= #[trigger] action_index(a) < r@.len() && r@[action_index(a)] == a,
{
    let r = vec![
        KeyAction::Quit,
        KeyAction::NextConversation,
        KeyAction::PrevConversation,
        KeyAction::ResizeSidebarLeft,
        KeyAction::ResizeSidebarRight,
        KeyAction::PageScrollUp,
        KeyAction::PageScrollDown,
        KeyAction::ScrollUp,
        KeyAction::ScrollDown,
        KeyAction::FocusNextMessage,
        KeyAction::FocusPrevMessage,
        KeyAction::HalfPageDown,
        KeyAction::HalfPageUp,
        KeyAction::ScrollToTop,
        KeyAction::ScrollToBottom,
        KeyAction::InsertAtCursor,
        KeyAction::InsertAfterCursor,
        KeyAction::InsertLineStart,
        KeyAction::InsertLineEnd,
        KeyAction::OpenLineBelow,
        KeyAction::CursorLeft,
        KeyAction::CursorRight,
        KeyAction::LineStart,
        KeyAction::LineEnd,
        KeyAction::WordForward,
        KeyAction::WordBack,
        KeyAction::DeleteChar,
        KeyAction::DeleteToEnd,
        KeyAction::StartSearch,
        KeyAction::ClearInput,
        KeyAction::CopyMessage,
        KeyAction::CopyAllMessages,
        KeyAction::React,
        KeyAction::Quote,
        KeyAction::EditMessage,
        KeyAction::ForwardMessage,
        KeyAction::DeleteMessage,
        KeyAction::NextSearchResult,
        KeyAction::PrevSearchResult,
        KeyAction::OpenActionMenu,
        KeyAction::PinMessage,
        KeyAction::JumpToQuote,
        KeyAction::JumpBack,
        KeyAction::SidebarSearch,
        KeyAction::ExitInsert,
        KeyAction::SendMessage,
        KeyAction::InsertNewline,
        KeyAction::DeleteWordBack,
    ];
    r
}

// ---------------------------------------------------------------------------
// Profiles by name
// ---------------------------------------------------------------------------

fn builtin_profiles() -> (r: Vec<KeyBindings>)
    ensures
        r@.len() == 3,
        is_default(r@[0]),
        is_emacs(r@[1]),
        is_minimal(r@[2]),
{
    vec![default_profile(), emacs_profile(), minimal_profile()]
}

/// All available keybinding profiles: built-ins followed by custom profiles.
pub fn all_profiles(custom: Vec<KeyBindings>) -> (r: Vec<KeyBindings>)
    ensures
        r@.len() == 3 + custom@.len(),
        is_default(r@[0]),
        is_emacs(r@[1]),
        is_minimal(r@[2]),
        r@.skip(3) == custom@,
{
    let mut profiles = builtin_profiles();
    let mut custom = custom;
    let ghost given = custom@;
    profiles.append(&mut custom);
    assert(profiles@.skip(3) =~= given);
    profiles
}

/// The names of a list of profiles.
pub open spec fn profile_names(l: Seq<KeyBindings>) -> Seq<Seq<char>> {
    l.map_values(|p: KeyBindings| p.profile_name@)
}

/// All available profile names.
pub fn all_profile_names(custom: Vec<KeyBindings>) -> (r: Vec<String>)
    ensures
        texts(r@) == seq!["Default"@, "Emacs"@, "Minimal"@] + profile_names(custom@),
{
    let profiles = all_profiles(custom);
    let mut r: Vec<String> = Vec::new();
    let mut i: usize = 0;
    while i < profiles.len()
        invariant
            i <= profiles@.len(),
            texts(r@) == profile_names(profiles@).take(i as int),
        decreases profiles@.len() - i,
    {
        let ghost had = texts(r@);
        r.push(profiles[i].profile_name.clone());
        i += 1;
        assert(texts(r@) =~= had.push(profiles@[i - 1].profile_name@));
        assert(profile_names(profiles@).take(i as int) =~= had.push(
            profile_names(profiles@)[i - 1],
        ));
    }
    assert forall|k: int| 0 <= k < custom@.len() implies profiles@[k + 3] == #[trigger] custom@[k] by {
        assert(profiles@.skip(3)[k] == custom@[k]);
    }
    assert(texts(r@) =~= seq!["Default"@, "Emacs"@, "Minimal"@] + profile_names(custom@));
    r
}

/// The built-in profiles have different names.
pub proof fn builtin_names_differ()
    ensures
        "Default"@ != "Emacs"@,
        "Default"@ != "Minimal"@,
        "Emacs"@ != "Minimal"@,
{
    reveal_strlit("Default");
    reveal_strlit("Emacs");
    reveal_strlit("Minimal");
    assert("Default"@[0] == 'D' && "Minimal"@[0] == 'M');
}

/// `i` is the first of the custom profiles with a name.
pub open spec fn first_named(custom: Seq<KeyBindings>, name: Seq<char>, i: int) -> bool {
    &&& 0 <= i < custom.len()
    &&& custom[i].profile_name@ == name
    &&& forall|j: int| 0 <= j < i ==> (#[trigger] custom[j]).profile_name@ != name
}

/// A set of bindings is the profile with a name: a built-in one, else the
/// first custom one, else the Default profile.
pub open spec fn is_profile_named(
    p: KeyBindings,
    name: Seq<char>,
    custom: Seq<KeyBindings>,
) -> bool {
    if name == "Default"@ {
        is_default(p)
    } else if name == "Emacs"@ {
        is_emacs(p)
    } else if name == "Minimal"@ {
        is_minimal(p)
    } else {
        ||| exists|i: int| #[trigger] first_named(custom, name, i) && p == custom[i]
        ||| is_default(p) && forall|i: int| !#[trigger] first_named(custom, name, i)
    }
}

/// Finds a profile by name. Falls back to Default if not found.
pub fn find_profile(name: &str, custom: Vec<KeyBindings>) -> (r: KeyBindings)
    ensures
        is_profile_named(r, name@, custom@),
{
    let ghost given = custom@;
    let mut profiles = all_profiles(custom);
    let ghost all = profiles@;
    proof {
        builtin_names_differ();
    }
    assert forall|k: int| 0 <= k < given.len() implies all[k + 3] == #[trigger] given[k] by {
        assert(all.skip(3)[k] == given[k]);
    }
    let mut i: usize = 0;
    while i < profiles.len() && !same(profiles[i].profile_name.as_str(), name)
        invariant
            i <= profiles@.len(),
            profiles@ == all,
            forall|j: int| 0 <= j < i ==> (#[trigger] all[j]).profile_name@ != name@,
        decreases profiles@.len() - i,
    {
        i += 1;
    }
    if i < profiles.len() {
        let r = profiles.swap_remove(i);
        proof {
            if i >= 3 {
                assert(given[i - 3] == all[i as int]);
                assert forall|j: int| 0 <= j < i - 3 implies (#[trigger] given[j]).profile_name@
                    != name@ by {
                    assert(all[j + 3] == given[j]);
                }
                assert(first_named(given, name@, i - 3));
                assert(all[0].profile_name@ != name@);
                assert(all[1].profile_name@ != name@);
                assert(all[2].profile_name@ != name@);
            }
        }
        r
    } else {
        proof {
            assert(all[0].profile_name@ != name@);
            assert(all[1].profile_name@ != name@);
            assert(all[2].profile_name@ != name@);
            assert forall|k: int| !#[trigger] first_named(given, name@, k) by {
                if 0 <= k < given.len() {
                    assert(all[k + 3] == given[k]);
                }
            }
        }
        default_profile()
    }
}

// ---------------------------------------------------------------------------
// What a user changed
// ---------------------------------------------------------------------------

/// A list holds the combinations of an action, each once, and nothing else.
pub open spec fn lists_combos(
    l: Seq<KeyCombo>,
    m: Map<KeyCombo, KeyAction>,
    action: KeyAction,
) -> bool {
    &&& forall|c: KeyCombo| #[trigger] l.contains(c) <==> m.contains_key(c) && m[c] == action
    &&& l.no_duplicates()
}

/// The text forms of a list of combinations.
pub open spec fn combo_texts(l: Seq<KeyCombo>) -> Seq<Seq<char>> {
    l.map_values(|c: KeyCombo| combo_text(c))
}

/// Two lists of combinations read the same, in any order.
pub open spec fn read_alike(a: Seq<KeyCombo>, b: Seq<KeyCombo>) -> bool {
    combo_texts(a).to_multiset() == combo_texts(b).to_multiset()
}

/// An action has combinations in two maps that read the same.
pub open spec fn same_keys(
    current: Map<KeyCombo, KeyAction>,
    default: Map<KeyCombo, KeyAction>,
    action: KeyAction,
) -> bool {
    exists|a: Seq<KeyCombo>, b: Seq<KeyCombo>|
        #![trigger lists_combos(a, current, action), lists_combos(b, default, action)]
        lists_combos(a, current, action) && lists_combos(b, default, action) && read_alike(a, b)
}

/// Lists without repetition and with the same items hold each as often.
proof fn same_items_same_multiset(a: Seq<KeyCombo>, b: Seq<KeyCombo>)
    requires
        a.no_duplicates(),
        b.no_duplicates(),
        forall|c: KeyCombo| #[trigger] a.contains(c) <==> b.contains(c),
    ensures
        a.to_multiset() == b.to_multiset(),
{
    a.lemma_multiset_has_no_duplicates();
    b.lemma_multiset_has_no_duplicates();
    broadcast use vstd::seq_lib::group_to_multiset_ensures;
    assert forall|c: KeyCombo| a.to_multiset().count(c) == b.to_multiset().count(c) by {
        assert(a.contains(c) <==> a.to_multiset().count(c) > 0);
        assert(b.contains(c) <==> b.to_multiset().count(c) > 0);
    }
    assert(a.to_multiset() =~= b.to_multiset());
}

/// Text forms follow the items: the same items have the same forms.
proof fn same_multiset_reads_alike(a: Seq<KeyCombo>, b: Seq<KeyCombo>)
    requires
        a.to_multiset() == b.to_multiset(),
    ensures
        read_alike(a, b),
    decreases a.len(),
{
    broadcast use vstd::seq_lib::group_to_multiset_ensures;
    if a.len() == 0 {
        assert(a.to_multiset().len() == 0);
        assert(b.to_multiset().len() == b.len());
        assert(combo_texts(a) =~= combo_texts(b));
    } else {
        let x = a.last();
        assert(a.contains(x));
        assert(b.to_multiset().count(x) > 0);
        assert(b.contains(x));
        let j = choose|j: int| 0 <= j < b.len() && b[j] == x;
        assert(a.drop_last().push(x) =~= a);
        vstd::seq_lib::to_multiset_build(a.drop_last(), x);
        vstd::seq_lib::to_multiset_remove(b, j);
        assert(a.drop_last().to_multiset() =~= a.to_multiset().remove(x));
        same_multiset_reads_alike(a.drop_last(), b.remove(j));
        let fa = combo_texts(a);
        let fb = combo_texts(b);
        assert(combo_texts(a.drop_last()) =~= fa.drop_last());
        assert(combo_texts(b.remove(j)) =~= fb.remove(j));
        assert(fa.drop_last().push(fa.last()) =~= fa);
        vstd::seq_lib::to_multiset_build(fa.drop_last(), fa.last());
        vstd::seq_lib::to_multiset_remove(fb, j);
        assert(fb[j] == fa.last());
        assert(fb.to_multiset() =~= fb.remove(j).to_multiset().insert(fb[j])) by {
            vstd::seq_lib::to_multiset_insert(fb.remove(j), j, fb[j]);
            assert(fb.remove(j).insert(j, fb[j]) =~= fb);
        }
        assert(fa.to_multiset() =~= fb.to_multiset());
    }
}

/// Whether the combinations of an action read the same does not depend on how
/// they are listed.
proof fn same_keys_by_any_list(
    a: Seq<KeyCombo>,
    b: Seq<KeyCombo>,
    current: Map<KeyCombo, KeyAction>,
    default: Map<KeyCombo, KeyAction>,
    action: KeyAction,
)
    requires
        lists_combos(a, current, action),
        lists_combos(b, default, action),
    ensures
        same_keys(current, default, action) <==> read_alike(a, b),
{
    if same_keys(current, default, action) {
        let (x, y) = choose|x: Seq<KeyCombo>, y: Seq<KeyCombo>|
            #![trigger lists_combos(x, current, action), lists_combos(y, default, action)]
            lists_combos(x, current, action) && lists_combos(y, default, action) && read_alike(x, y);
        assert forall|c: KeyCombo| #[trigger] a.contains(c) <==> x.contains(c) by {}
        assert forall|c: KeyCombo| #[trigger] b.contains(c) <==> y.contains(c) by {}
        same_items_same_multiset(a, x);
        same_items_same_multiset(b, y);
        same_multiset_reads_alike(a, x);
        same_multiset_reads_alike(b, y);
    }
}

/// How often a combination that reads like `t` stands in a list.
fn count_text(l: &Vec<KeyCombo>, t: &str) -> (r: usize)
    ensures
        r == combo_texts(l@).to_multiset().count(t@),
{
    broadcast use vstd::seq_lib::group_to_multiset_ensures;

    let ghost all = combo_texts(l@);
    let mut n: usize = 0;
    let mut i: usize = 0;
    assert(all.take(0) =~= Seq::empty());
    while i < l.len()
        invariant
            i <= l@.len(),
            n <= i,
            all == combo_texts(l@),
            n == all.take(i as int).to_multiset().count(t@),
        decreases l@.len() - i,
    {
        assert(all.take(i + 1) =~= all.take(i as int).push(all[i as int]));
        proof {
            vstd::seq_lib::to_multiset_build(all.take(i as int), all[i as int]);
        }
        if same(format_key_combo(&l[i]).as_str(), t) {
            n += 1;
        }
        i += 1;
    }
    assert(all.take(all.len() as int) =~= all);
    n
}

/// Whether each combination of a list reads like as many of `a` as of `b`.
fn counts_agree(l: &Vec<KeyCombo>, a: &Vec<KeyCombo>, b: &Vec<KeyCombo>) -> (r: bool)
    ensures
        r == forall|i: int|
            #![trigger l@[i]]
            0 <= i < l@.len() ==> combo_texts(a@).to_multiset().count(combo_text(l@[i]))
                == combo_texts(b@).to_multiset().count(combo_text(l@[i])),
{
    let mut i: usize = 0;
    while i < l.len()
        invariant
            i <= l@.len(),
            forall|k: int|
                #![trigger l@[k]]
                0 <= k < i ==> combo_texts(a@).to_multiset().count(combo_text(l@[k]))
                    == combo_texts(b@).to_multiset().count(combo_text(l@[k])),
        decreases l@.len() - i,
    {
        let t = format_key_combo(&l[i]);
        if count_text(a, t.as_str()) != count_text(b, t.as_str()) {
            return false;
        }
        i += 1;
    }
    true
}

/// Whether two lists of combinations read the same, in any order.
fn reads_alike(a: &Vec<KeyCombo>, b: &Vec<KeyCombo>) -> (r: bool)
    ensures
        r == read_alike(a@, b@),
{
    broadcast use vstd::seq_lib::group_to_multiset_ensures;

    let r = counts_agree(a, a, b) && counts_agree(b, a, b);
    proof {
        let ma = combo_texts(a@).to_multiset();
        let mb = combo_texts(b@).to_multiset();
        if r {
            assert forall|t: Seq<char>| ma.count(t) == mb.count(t) by {
                if ma.count(t) > 0 {
                    assert(combo_texts(a@).contains(t));
                    let i = choose|i: int| 0 <= i < a@.len() && combo_texts(a@)[i] == t;
                    assert(combo_text(a@[i]) == t);
                } else if mb.count(t) > 0 {
                    assert(combo_texts(b@).contains(t));
                    let i = choose|i: int| 0 <= i < b@.len() && combo_texts(b@)[i] == t;
                    assert(combo_text(b@[i]) == t);
                }
            }
            assert(ma =~= mb);
        }
    }
    r
}

impl KeyMap {
    /// The combinations of an action, each once.
    pub fn combos_of(&self, action: KeyAction) -> (r: Vec<KeyCombo>)
        ensures
            lists_combos(r@, self@, action),
    {
        let list = self.to_list();
        let mut r: Vec<KeyCombo> = Vec::new();
        let mut i: usize = 0;
        while i < list.len()
            invariant
                i <= list@.len(),
                lists_bindings(list@, self@),
                r@.no_duplicates(),
                forall|c: KeyCombo| #[trigger]
                    r@.contains(c) <==> exists|k: int| 0 <= k < i && list@[k] == (c, action),
            decreases list@.len() - i,
        {
            let ghost before = r@;
            if list[i].1 == action {
                let combo = list[i].0;
                proof {
                    if before.contains(combo) {
                        let k = choose|k: int| 0 <= k < i && list@[k] == (combo, action);
                        assert(list@[k].0 != list@[i as int].0);
                    }
                }
                r.push(combo);
                proof {
                    assert forall|c: KeyCombo| #[trigger]
                        r@.contains(c) <==> before.contains(c) || c == combo by {
                        if before.contains(c) {
                            let k = choose|k: int| 0 <= k < before.len() && before[k] == c;
                            assert(r@[k] == c);
                        }
                        assert(r@[before.len() as int] == combo);
                    }
                    assert(list@[i as int] == (combo, action));
                }
            }
            i += 1;
        }
        assert forall|c: KeyCombo| #[trigger]
            r@.contains(c) <==> self@.contains_key(c) && self@[c] == action by {
            if r@.contains(c) {
                assert(list@.contains((c, action)));
            }
            if self@.contains_key(c) && self@[c] == action {
                assert(list@.contains((c, action)));
            }
        }
        r
    }
}

/// A list of overrides says of every action whose combinations read otherwise
/// than the default what it has now: each such action once, no other.
pub open spec fn is_diff(
    list: Seq<(KeyAction, Vec<KeyCombo>)>,
    current: Map<KeyCombo, KeyAction>,
    default: Map<KeyCombo, KeyAction>,
) -> bool {
    &&& forall|i: int|
        #![trigger list[i]]
        0 <= i < list.len() ==> lists_combos(list[i].1@, current, list[i].0) && !same_keys(
            current,
            default,
            list[i].0,
        )
    &&& forall|i: int, j: int|
        0 <= i < j < list.len() ==> (#[trigger] list[i]).0 != (#[trigger] list[j]).0
    &&& forall|a: KeyAction|
        !#[trigger] same_keys(current, default, a) ==> exists|i: int|
            0 <= i < list.len() && (#[trigger] list[i]).0 == a
}

/// Lists the actions whose combinations in one map read otherwise than in
/// another.
fn diff_mode(current: &KeyMap, default: &KeyMap) -> (r: Vec<(KeyAction, Vec<KeyCombo>)>)
    ensures
        is_diff(r@, current@, default@),
{
    let actions = all_actions();
    let mut r: Vec<(KeyAction, Vec<KeyCombo>)> = Vec::new();
    let mut n: usize = 0;
    while n < actions.len()
        invariant
            n <= actions@.len(),
            forall|i: int| 0 <= i < actions@.len() ==> action_index(#[trigger] actions@[i]) == i,
            forall|i: int|
                #![trigger r@[i]]
                0 <= i < r@.len() ==> lists_combos(r@[i].1@, current@, r@[i].0) && !same_keys(
                    current@,
                    default@,
                    r@[i].0,
                ) && action_index(r@[i].0) < n,
            forall|i: int, j: int|
                0 <= i < j < r@.len() ==> (#[trigger] r@[i]).0 != (#[trigger] r@[j]).0,
            forall|k: int|
                #![trigger actions@[k]]
                0 <= k < n && !same_keys(current@, default@, actions@[k]) ==> exists|i: int|
                    0 <= i < r@.len() && (#[trigger] r@[i]).0 == actions@[k],
        decreases actions@.len() - n,
    {
        let action = actions[n];
        let now = current.combos_of(action);
        let was = default.combos_of(action);
        proof {
            same_keys_by_any_list(now@, was@, current@, default@, action);
        }
        let ghost before = r@;
        if !reads_alike(&now, &was) {
            r.push((action, now));
            proof {
                assert(r@[before.len() as int].0 == action);
                assert forall|k: int|
                    #![trigger actions@[k]]
                    0 <= k < n && !same_keys(current@, default@, actions@[k]) implies exists|i: int|
                    0 <= i < r@.len() && (#[trigger] r@[i]).0 == actions@[k] by {
                    let i = choose|i: int| 0 <= i < before.len() && (#[trigger] before[i]).0 == actions@[k];
                    assert(r@[i].0 == actions@[k]);
                }
            }
        }
        n += 1;
    }
    assert forall|a: KeyAction| !#[trigger] same_keys(current@, default@, a) implies exists|i: int|
        0 <= i < r@.len() && (#[trigger] r@[i]).0 == a by {
        assert(actions@[action_index(a)] == a);
    }
    r
}

impl KeyBindings {
    /// Computes the difference between current bindings and the profile's
    /// defaults. Returns overrides that, when applied to the profile, reproduce
    /// the current state. `custom` holds the custom profiles.
    pub fn diff_from_profile(&self, custom: Vec<KeyBindings>) -> (r: KeyBindingOverrides)
        ensures
            exists|d: KeyBindings| #[trigger]
                is_profile_named(d, self.profile_name@, custom@) && self.differs_by(d, r),
    {
        let defaults = find_profile(self.profile_name.as_str(), custom);
        let r = KeyBindingOverrides {
            global: diff_mode(&self.global, &defaults.global),
            normal: diff_mode(&self.normal, &defaults.normal),
            insert: diff_mode(&self.insert, &defaults.insert),
        };
        assert(self.differs_by(defaults, r));
        r
    }

    /// Overrides are the difference of these bindings from others, in each
    /// mode.
    pub open spec fn differs_by(self, from: KeyBindings, r: KeyBindingOverrides) -> bool {
        forall|mode: BindingMode| #[trigger]
            is_diff(r.of(mode), self.map_of(mode), from.map_of(mode))
    }
}

/// Text forms tell the combinations of two maps apart.
pub open spec fn forms_tell_apart(
    a: Map<KeyCombo, KeyAction>,
    b: Map<KeyCombo, KeyAction>,
) -> bool {
    forall|c: KeyCombo, d: KeyCombo|
        (a.contains_key(c) || b.contains_key(c)) && (a.contains_key(d) || b.contains_key(d))
            && #[trigger] combo_text(c) == #[trigger] combo_text(d) ==> c == d
}

/// An action that reads the same in two maps has the same combinations in
/// both, where text forms tell these apart.
proof fn same_keys_same_combos(
    current: Map<KeyCombo, KeyAction>,
    default: Map<KeyCombo, KeyAction>,
    action: KeyAction,
    c: KeyCombo,
)
    requires
        forms_tell_apart(current, default),
        same_keys(current, default, action),
    ensures
        action_in(current, c) == Some(action) <==> action_in(default, c) == Some(action),
{
    broadcast use vstd::seq_lib::group_to_multiset_ensures;

    let (x, y) = choose|x: Seq<KeyCombo>, y: Seq<KeyCombo>|
        #![trigger lists_combos(x, current, action), lists_combos(y, default, action)]
        lists_combos(x, current, action) && lists_combos(y, default, action) && read_alike(x, y);
    let fx = combo_texts(x);
    let fy = combo_texts(y);
    if action_in(current, c) == Some(action) {
        assert(x.contains(c));
        let i = choose|i: int| 0 <= i < x.len() && x[i] == c;
        assert(fx[i] == combo_text(c));
        assert(fx.contains(combo_text(c)));
        assert(fy.to_multiset().count(combo_text(c)) > 0);
        assert(fy.contains(combo_text(c)));
        let j = choose|j: int| 0 <= j < fy.len() && fy[j] == combo_text(c);
        assert(y.contains(y[j]));
        assert(combo_text(y[j]) == combo_text(c));
    }
    if action_in(default, c) == Some(action) {
        assert(y.contains(c));
        let i = choose|i: int| 0 <= i < y.len() && y[i] == c;
        assert(fy[i] == combo_text(c));
        assert(fy.contains(combo_text(c)));
        assert(fx.to_multiset().count(combo_text(c)) > 0);
        assert(fx.contains(combo_text(c)));
        let j = choose|j: int| 0 <= j < fx.len() && fx[j] == combo_text(c);
        assert(x.contains(x[j]));
        assert(combo_text(x[j]) == combo_text(c));
    }
}

/// What binding a list of combinations does.
proof fn with_combos_binds(
    m: Map<KeyCombo, KeyAction>,
    combos: Seq<KeyCombo>,
    action: KeyAction,
    c: KeyCombo,
)
    ensures
        action_in(with_combos(m, combos, action), c) == if combos.contains(c) {
            Some(action)
        } else {
            action_in(m, c)
        },
    decreases combos.len(),
{
    if combos.len() > 0 {
        let front = combos.drop_last();
        with_combos_binds(m, front, action, c);
        if combos.contains(c) && c != combos.last() {
            let i = choose|i: int| 0 <= i < combos.len() && combos[i] == c;
            assert(front[i] == c);
        }
        if front.contains(c) {
            let i = choose|i: int| 0 <= i < front.len() && front[i] == c;
            assert(combos[i] == c);
        }
        assert(combos[combos.len() - 1] == combos.last());
    }
}

/// What is bound after the first `n` overrides of a difference: the actions
/// named so far have their new combinations, those that read the same have
/// their old ones, the rest no others than before.
proof fn diff_applied_so_far(
    list: Seq<(KeyAction, Vec<KeyCombo>)>,
    current: Map<KeyCombo, KeyAction>,
    default: Map<KeyCombo, KeyAction>,
    n: int,
    c: KeyCombo,
)
    requires
        is_diff(list, current, default),
        forms_tell_apart(current, default),
        0 <= n <= list.len(),
    ensures
        ({
            let m = overridden(default, list.take(n));
            &&& forall|a: KeyAction|
                #![trigger same_keys(current, default, a)]
                same_keys(current, default, a) ==> (action_in(m, c) == Some(a) <==> action_in(
                    current,
                    c,
                ) == Some(a))
            &&& forall|i: int|
                #![trigger list[i]]
                0 <= i < n ==> (action_in(m, c) == Some(list[i].0) <==> action_in(current, c)
                    == Some(list[i].0))
        }),
    decreases n,
{
    let m = overridden(default, list.take(n));
    if n == 0 {
        assert(list.take(0) =~= Seq::empty());
        assert forall|a: KeyAction|
            #![trigger same_keys(current, default, a)]
            same_keys(current, default, a) implies (action_in(m, c) == Some(a) <==> action_in(
            current,
            c,
        ) == Some(a)) by {
            same_keys_same_combos(current, default, a, c);
        }
    } else {
        diff_applied_so_far(list, current, default, n - 1, c);
        assert(list.take(n).drop_last() =~= list.take(n - 1));
        let before = overridden(default, list.take(n - 1));
        let (action, combos) = list[n - 1];
        assert(list.take(n).last() == list[n - 1]);
        let cleared = without_action(before, action);
        assert(m == with_combos(cleared, combos@, action));
        with_combos_binds(cleared, combos@, action, c);
        assert(lists_combos(combos@, current, action));
        assert(combos@.contains(c) <==> action_in(current, c) == Some(action));
        assert forall|i: int|
            #![trigger list[i]]
            0 <= i < n implies (action_in(m, c) == Some(list[i].0) <==> action_in(current, c)
            == Some(list[i].0)) by {
            if i < n - 1 {
                assert(list[i].0 != list[n - 1].0);
            }
        }
    }
}

/// The difference from a profile, applied to that profile, gives back the
/// bindings that it was taken from, in every mode in which text forms tell the
/// combinations apart.
pub proof fn diff_reproduces(
    current: KeyBindings,
    profile: KeyBindings,
    overrides: KeyBindingOverrides,
    mode: BindingMode,
)
    requires
        current.differs_by(profile, overrides),
        forms_tell_apart(current.map_of(mode), profile.map_of(mode)),
    ensures
        overridden(profile.map_of(mode), overrides.of(mode)) == current.map_of(mode),
{
    let cur = current.map_of(mode);
    let def = profile.map_of(mode);
    let list = overrides.of(mode);
    let m = overridden(def, list);
    assert(is_diff(list, cur, def));
    assert(list.take(list.len() as int) =~= list);
    assert forall|c: KeyCombo| #[trigger] action_in(m, c) == action_in(cur, c) by {
        diff_applied_so_far(list, cur, def, list.len() as int, c);
        assert forall|a: KeyAction| (action_in(m, c) == Some(a)) == (#[trigger] action_in(cur, c)
            == Some(a)) by {
            if !same_keys(cur, def, a) {
                let i = choose|i: int| 0 <= i < list.len() && (#[trigger] list[i]).0 == a;
                assert(list[i].0 == a);
            }
        }
        if action_in(m, c) is Some {
            assert(action_in(cur, c) == Some(action_in(m, c)->0));
        } else if action_in(cur, c) is Some {
            assert(action_in(m, c) == Some(action_in(cur, c)->0));
        }
    }
    assert forall|c: KeyCombo| #[trigger] m.contains_key(c) == cur.contains_key(c) by {
        assert(action_in(m, c) == action_in(cur, c));
    }
    assert forall|c: KeyCombo| m.contains_key(c) implies #[trigger] m[c] == cur[c] by {
        assert(action_in(m, c) == action_in(cur, c));
    }
    assert(m =~= cur);
}

/// A combination that was just bound to an action resolves to it, unless a
/// global binding comes first.
pub proof fn rebound_key_resolves(
    before: KeyBindings,
    after: KeyBindings,
    mode: BindingMode,
    action: KeyAction,
    modifiers: KeyModifiers,
    code: KeyCode,
)
    requires
        after.map_of(mode) == without_action(before.map_of(mode), action).insert(
            pressed_combo(modifiers, code),
            action,
        ),
        mode == BindingMode::Global || !after.map_of(BindingMode::Global).contains_key(
            pressed_combo(modifiers, code),
        ),
    ensures
        after.resolved(modifiers, code, mode) == Some(action),
{
}

/// After an action was rebound without displacing another, resetting it gives
/// back the default bindings.
pub proof fn reset_undoes_rebind(
    defaults: Map<KeyCombo, KeyAction>,
    action: KeyAction,
    combo: KeyCombo,
)
    requires
        action_in(without_action(defaults, action), combo) is None,
    ensures
        with_defaults(without_action(defaults, action).insert(combo, action), defaults, action)
            == defaults,
{
    let m = without_action(defaults, action).insert(combo, action);
    assert(with_defaults(m, defaults, action) =~= defaults);
}

} // verus!
