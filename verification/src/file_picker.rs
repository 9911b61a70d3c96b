//! The file browser, by which an attachment is chosen.
use crate::app::{
    App, AppView, Effect, EffectView, FilePickerState, FilePickerStateView, Overlay,
    PendingStateView,
};
use crate::common::{
    clamp_index, clamped, filter_none, filter_take, move_down, popped, step_down, step_up,
};
use crate::keys::KeyCode;
use crate::order::{lower_name, sort_by_lower_name, sorted_by};
use crate::text::{
    concat2, concat3, contains, contains_text, folded, from_range, to_chars, to_lower,
};
use vstd::prelude::*;

verus! {

// ---------------------------------------------------------------------------
// Paths
// ---------------------------------------------------------------------------

/// A path to an entry of a directory. The parts of a path are set apart by `/`.
pub open spec fn path_join(dir: Seq<char>, name: Seq<char>) -> Seq<char> {
    if dir.len() == 0 || dir.last() == '/' {
        dir + name
    } else {
        dir + "/"@ + name
    }
}

/// A path without the separators at its end.
pub open spec fn without_slashes(s: Seq<char>) -> Seq<char>
    decreases s.len(),
{
    if s.len() > 0 && s.last() == '/' {
        without_slashes(s.drop_last())
    } else {
        s
    }
}

/// A path without its last part.
pub open spec fn without_part(s: Seq<char>) -> Seq<char>
    decreases s.len(),
{
    if s.len() > 0 && s.last() != '/' {
        without_part(s.drop_last())
    } else {
        s
    }
}

/// The directory that holds a path; none for the root and for an empty path.
pub open spec fn path_parent(s: Seq<char>) -> Option<Seq<char>> {
    let t = without_slashes(s);
    let rest = without_part(t);
    let up = without_slashes(rest);
    if t.len() == 0 {
        None
    } else if up.len() == 0 {
        Some(rest.take(if rest.len() > 0 { 1 } else { 0 }))
    } else {
        Some(up)
    }
}

/// The path to an entry of a directory.
pub fn join_path(dir: &str, name: &str) -> (r: String)
    ensures
        r@ == path_join(dir@, name@),
{
    let chars = to_chars(dir);
    if chars.len() == 0 || chars[chars.len() - 1] == '/' {
        concat2(dir, name)
    } else {
        concat3(dir, "/", name)
    }
}

fn skip_slashes(chars: &Vec<char>, n: usize) -> (r: usize)
    requires
        n <= chars@.len(),
    ensures
        r <= n,
        without_slashes(chars@.take(n as int)) == chars@.take(r as int),
{
    let mut k: usize = n;
    while k > 0 && chars[k - 1] == '/'
        invariant
            k <= n <= chars@.len(),
            without_slashes(chars@.take(n as int)) == without_slashes(chars@.take(k as int)),
        decreases k,
    {
        assert(chars@.take(k as int).drop_last() =~= chars@.take(k - 1));
        k -= 1;
    }
    k
}

fn skip_part(chars: &Vec<char>, n: usize) -> (r: usize)
    requires
        n <= chars@.len(),
    ensures
        r <= n,
        without_part(chars@.take(n as int)) == chars@.take(r as int),
{
    let mut k: usize = n;
    while k > 0 && chars[k - 1] != '/'
        invariant
            k <= n <= chars@.len(),
            without_part(chars@.take(n as int)) == without_part(chars@.take(k as int)),
        decreases k,
    {
        assert(chars@.take(k as int).drop_last() =~= chars@.take(k - 1));
        k -= 1;
    }
    k
}

/// The directory that holds a path.
pub fn parent_path(path: &str) -> (r: Option<String>)
    ensures
        r.deep_view() == path_parent(path@),
{
    let chars = to_chars(path);
    assert(chars@.take(chars@.len() as int) =~= chars@);
    let t = skip_slashes(&chars, chars.len());
    if t == 0 {
        return None;
    }
    let rest = skip_part(&chars, t);
    let up = skip_slashes(&chars, rest);
    let n = if up == 0 && rest > 0 {
        1
    } else {
        up
    };
    let s = from_range(&chars, 0, n);
    assert(s@ =~= chars@.take(n as int));
    assert(up == 0 ==> chars@.take(rest as int).take(if rest > 0 { 1 } else { 0 })
        =~= chars@.take(n as int));
    Some(s)
}

// ---------------------------------------------------------------------------
// The browser
// ---------------------------------------------------------------------------

/// The entries of a directory in the order in which they are shown: first the
/// directories, which have no size, then the files, each by name, letter case
/// aside.
pub open spec fn entries_sorted(rows: Seq<(Seq<char>, bool, u64)>) -> Seq<(Seq<char>, bool, u64)> {
    sorted_by(
        rows.filter(|r: (Seq<char>, bool, u64)| r.1).map_values(
            |r: (Seq<char>, bool, u64)| (r.0, true, 0u64),
        ),
        lower_name(),
    ) + sorted_by(rows.filter(|r: (Seq<char>, bool, u64)| !r.1), lower_name())
}

/// The places of the first `n` entries whose name holds a text in lower case.
pub open spec fn entry_places(
    rows: Seq<(Seq<char>, bool, u64)>,
    lower: Seq<char>,
    n: int,
) -> Seq<usize>
    decreases n,
{
    if n <= 0 {
        Seq::empty()
    } else if lower.len() == 0 || contains_text(folded(rows[n - 1].0), lower) {
        entry_places(rows, lower, n - 1).push((n - 1) as usize)
    } else {
        entry_places(rows, lower, n - 1)
    }
}

/// The browser with what its filter shows.
pub open spec fn files_filtered(p: FilePickerStateView) -> FilePickerStateView {
    let shown = entry_places(p.entries, folded(p.filter), p.entries.len() as int);
    FilePickerStateView { filtered: shown, index: clamped(p.index, shown.len()), ..p }
}

/// The browser with the entries of its directory, or with the reason why there
/// are none.
pub open spec fn files_listed(
    p: FilePickerStateView,
    rows: Result<Seq<(Seq<char>, bool, u64)>, Seq<char>>,
) -> FilePickerStateView {
    match rows {
        Ok(rows) => files_filtered(
            FilePickerStateView { entries: entries_sorted(rows), error: None, ..p },
        ),
        Err(e) => files_filtered(
            FilePickerStateView {
                entries: Seq::empty(),
                error: Some("Cannot read directory: "@ + e),
                ..p
            },
        ),
    }
}

/// The browser in another directory.
pub open spec fn directory_entered(p: FilePickerStateView, dir: Seq<char>) -> FilePickerStateView {
    FilePickerStateView { dir, index: 0, filter: Seq::empty(), error: None, ..p }
}

/// The browser after a key.
pub enum FileKeyView {
    /// It stays in its directory.
    Stay,
    /// The directory has to be listed anew.
    List,
    /// A file was chosen.
    Chosen(Seq<char>),
    /// It is to be closed.
    Close,
}

/// What the file browser asks its caller to do.
#[derive(Debug)]
pub enum FileKey {
    /// Nothing.
    Stay,
    /// List the directory anew.
    List,
    /// Attach a file.
    Chosen(String),
    /// Close the browser.
    Close,
}

impl DeepView for FileKey {
    type V = FileKeyView;

    open spec fn deep_view(&self) -> FileKeyView {
        match self {
            FileKey::Stay => FileKeyView::Stay,
            FileKey::List => FileKeyView::List,
            FileKey::Chosen(p) => FileKeyView::Chosen(p@),
            FileKey::Close => FileKeyView::Close,
        }
    }
}

/// The browser in the directory above, where there is one.
pub open spec fn went_up(p: FilePickerStateView) -> (FilePickerStateView, FileKeyView) {
    match path_parent(p.dir) {
        Some(up) => if up != p.dir {
            (directory_entered(p, up), FileKeyView::List)
        } else {
            (p, FileKeyView::Stay)
        },
        None => (p, FileKeyView::Stay),
    }
}

/// The browser after a key, and what its caller is to do.
pub open spec fn files_key(p: FilePickerStateView, code: KeyCode) -> (
    FilePickerStateView,
    FileKeyView,
) {
    match code {
        KeyCode::Down | KeyCode::Char('j') => (
            FilePickerStateView { index: step_down(p.index, p.filtered.len()), ..p },
            FileKeyView::Stay,
        ),
        KeyCode::Up | KeyCode::Char('k') => (
            FilePickerStateView { index: step_up(p.index), ..p },
            FileKeyView::Stay,
        ),
        KeyCode::Enter => if p.index < p.filtered.len() && p.filtered[p.index as int]
            < p.entries.len() {
            let (name, is_dir, _) = p.entries[p.filtered[p.index as int] as int];
            if is_dir {
                (directory_entered(p, path_join(p.dir, name)), FileKeyView::List)
            } else {
                (p, FileKeyView::Chosen(path_join(p.dir, name)))
            }
        } else {
            (p, FileKeyView::Stay)
        },
        KeyCode::Backspace => if p.filter.len() > 0 {
            (
                files_filtered(FilePickerStateView { filter: popped(p.filter), ..p }),
                FileKeyView::Stay,
            )
        } else {
            went_up(p)
        },
        KeyCode::Char('-') => went_up(p),
        KeyCode::Esc => (p, FileKeyView::Close),
        KeyCode::Char(c) => (
            files_filtered(FilePickerStateView { filter: p.filter.push(c), ..p }),
            FileKeyView::Stay,
        ),
        _ => (p, FileKeyView::Stay),
    }
}

/// What the places of entries are: in range, and each once.
pub proof fn entry_places_are(rows: Seq<(Seq<char>, bool, u64)>, lower: Seq<char>, n: int)
    requires
        0 <= n <= rows.len(),
        n <= usize::MAX,
    ensures
        entry_places(rows, lower, n).len() <= n,
        forall|k: int|
            0 <= k < entry_places(rows, lower, n).len() ==> (#[trigger] entry_places(
                rows,
                lower,
                n,
            )[k]) < n,
    decreases n,
{
    if n > 0 {
        entry_places_are(rows, lower, n - 1);
    }
}

/// Going into a directory and up again leads back to it.
pub proof fn up_leaves_directory(dir: Seq<char>, name: Seq<char>)
    requires
        dir.len() > 0,
        dir.last() != '/',
        name.len() > 0,
        !name.contains('/'),
    ensures
        path_parent(path_join(dir, name)) == Some(dir),
{
    reveal_strlit("/");
    let p = path_join(dir, name);
    let head = dir + "/"@;
    assert(p =~= head + name);
    assert(p.last() == name.last());
    assert(name.contains(name.last()));
    assert(without_slashes(p) == p);
    part_goes(head, name);
    assert(without_slashes(head) == dir) by {
        assert(head.drop_last() =~= dir);
        reveal_with_fuel(without_slashes, 3);
    }
}

proof fn part_goes(head: Seq<char>, name: Seq<char>)
    requires
        head.len() > 0,
        head.last() == '/',
        !name.contains('/'),
    ensures
        without_part(head + name) == head,
    decreases name.len(),
{
    if name.len() == 0 {
        assert(head + name =~= head);
    } else {
        assert(name.contains(name.last()));
        assert((head + name).drop_last() =~= head + name.drop_last());
        assert(!name.drop_last().contains('/')) by {
            if name.drop_last().contains('/') {
                let i = choose|i: int| 0 <= i < name.drop_last().len() && name.drop_last()[i] == '/';
                assert(name[i] == '/');
            }
        }
        part_goes(head, name.drop_last());
    }
}

/// Sorts the entries of a directory.
pub fn sort_entries(rows: Vec<(String, bool, u64)>) -> (r: Vec<(String, bool, u64)>)
    ensures
        r.deep_view() == entries_sorted(rows.deep_view()),
{
    let ghost s = rows.deep_view();
    let ghost d = |r: (Seq<char>, bool, u64)| r.1;
    let ghost nd = |r: (Seq<char>, bool, u64)| !r.1;
    let ghost f = |r: (Seq<char>, bool, u64)| (r.0, true, 0u64);
    let mut dirs: Vec<(String, bool, u64)> = Vec::new();
    let mut files: Vec<(String, bool, u64)> = Vec::new();
    let mut i: usize = 0;
    proof {
        filter_none(s, d);
        filter_none(s, nd);
    }
    assert(dirs.deep_view() =~= s.take(0).filter(d).map_values(f));
    assert(files.deep_view() =~= s.take(0).filter(nd));
    while i < rows.len()
        invariant
            i <= rows@.len(),
            s == rows.deep_view(),
            d == |r: (Seq<char>, bool, u64)| r.1,
            nd == |r: (Seq<char>, bool, u64)| !r.1,
            f == |r: (Seq<char>, bool, u64)| (r.0, true, 0u64),
            dirs.deep_view() == s.take(i as int).filter(d).map_values(f),
            files.deep_view() == s.take(i as int).filter(nd),
        decreases rows@.len() - i,
    {
        proof {
            filter_take(s, i as int, d);
            filter_take(s, i as int, nd);
            assert(s[i as int] == rows@[i as int].deep_view());
        }
        let ghost head = s.take(i as int).filter(d);
        let ghost done = dirs.deep_view();
        let ghost rest = files.deep_view();
        let name = rows[i].0.clone();
        if rows[i].1 {
            dirs.push((name, true, 0));
            assert(dirs.deep_view() =~= done.push(f(s[i as int])));
            assert(head.push(s[i as int]).map_values(f) =~= head.map_values(f).push(
                f(s[i as int]),
            ));
        } else {
            files.push((name, false, rows[i].2));
            assert(files.deep_view() =~= rest.push(s[i as int]));
        }
        i += 1;
    }
    assert(s.take(s.len() as int) =~= s);
    let mut sorted = sort_by_lower_name(dirs);
    let mut behind = sort_by_lower_name(files);
    let ghost a = sorted.deep_view();
    let ghost b = behind.deep_view();
    sorted.append(&mut behind);
    assert(sorted.deep_view() =~= a + b);
    sorted
}

impl FilePickerState {
    /// A browser that was not opened yet.
    pub fn new(home: String) -> (r: FilePickerState)
        ensures
            r.deep_view() == (FilePickerStateView {
                home: home@,
                dir: home@,
                entries: Seq::empty(),
                index: 0,
                filter: Seq::empty(),
                filtered: Seq::empty(),
                error: None,
            }),
    {
        let entries: Vec<(String, bool, u64)> = Vec::new();
        let filtered: Vec<usize> = Vec::new();
        let filter = String::new();
        assert(entries.deep_view() =~= Seq::<(Seq<char>, bool, u64)>::empty());
        assert(filtered.deep_view() =~= Seq::<usize>::empty());
        assert(filter@ =~= Seq::<char>::empty());
        let dir = home.clone();
        FilePickerState { home, dir, entries, index: 0, filter, filtered, error: None }
    }

    /// Opens the browser in the home directory, which is to be listed.
    pub fn open(&mut self)
        ensures
            final(self).deep_view() == directory_entered(
                old(self).deep_view(),
                old(self).deep_view().home,
            ),
    {
        let dir = self.home.clone();
        self.enter(dir);
    }

    fn enter(&mut self, dir: String)
        ensures
            final(self).deep_view() == directory_entered(old(self).deep_view(), dir@),
    {
        self.dir = dir;
        self.index = 0;
        self.filter = String::new();
        self.error = None;
        assert(self.filter@ =~= Seq::<char>::empty());
    }

    /// Takes the entries of the directory, or the reason why there are none.
    pub fn refresh_entries(&mut self, rows: Result<Vec<(String, bool, u64)>, String>)
        ensures
            final(self).deep_view() == files_listed(
                old(self).deep_view(),
                match rows {
                    Ok(rows) => Ok(rows.deep_view()),
                    Err(e) => Err(e@),
                },
            ),
    {
        match rows {
            Ok(rows) => {
                self.entries = sort_entries(rows);
                self.error = None;
            },
            Err(e) => {
                self.entries = Vec::new();
                assert(self.entries.deep_view() =~= Seq::<(Seq<char>, bool, u64)>::empty());
                self.error = Some(concat2("Cannot read directory: ", e.as_str()));
            },
        }
        self.refresh_filter();
    }

    /// Shows what the filter shows.
    pub fn refresh_filter(&mut self)
        ensures
            final(self).deep_view() == files_filtered(old(self).deep_view()),
    {
        let lower = to_lower(self.filter.as_str());
        let ghost s = self.entries.deep_view();
        let mut out: Vec<usize> = Vec::new();
        let mut i: usize = 0;
        while i < self.entries.len()
            invariant
                i <= self.entries@.len(),
                s == self.entries.deep_view(),
                out@ == entry_places(s, lower@, i as int),
            decreases self.entries@.len() - i,
        {
            assert(s[i as int] == self.entries@[i as int].deep_view());
            if lower.as_str().is_empty() || contains(
                to_lower(self.entries[i].0.as_str()).as_str(),
                lower.as_str(),
            ) {
                out.push(i);
            }
            i += 1;
        }
        self.index = clamp_index(self.index, out.len());
        self.filtered = out;
        assert(self.filtered.deep_view() =~= self.filtered@);
    }

    /// Goes to the directory above.
    fn navigate_up(&mut self) -> (r: FileKey)
        ensures
            (final(self).deep_view(), r.deep_view()) == went_up(old(self).deep_view()),
    {
        match parent_path(self.dir.as_str()) {
            Some(up) => if !crate::text::same(up.as_str(), self.dir.as_str()) {
                self.enter(up);
                FileKey::List
            } else {
                FileKey::Stay
            },
            None => FileKey::Stay,
        }
    }

    /// Handles a key.
    pub fn handle_key(&mut self, code: KeyCode) -> (r: FileKey)
        ensures
            (final(self).deep_view(), r.deep_view()) == files_key(old(self).deep_view(), code),
    {
        match code {
            KeyCode::Down | KeyCode::Char('j') => {
                self.index = move_down(self.index, self.filtered.len());
            },
            KeyCode::Up | KeyCode::Char('k') => {
                self.index = self.index.saturating_sub(1);
            },
            KeyCode::Enter => {
                assert(self.filtered.deep_view() =~= self.filtered@);
                if self.index < self.filtered.len() && self.filtered[self.index]
                    < self.entries.len() {
                    let e = self.filtered[self.index];
                    assert(self.entries.deep_view()[e as int] == self.entries@[e as int].deep_view());
                    let path = join_path(self.dir.as_str(), self.entries[e].0.as_str());
                    if self.entries[e].1 {
                        self.enter(path);
                        return FileKey::List;
                    } else {
                        return FileKey::Chosen(path);
                    }
                }
            },
            KeyCode::Backspace => {
                if !self.filter.as_str().is_empty() {
                    let _ = self.filter.pop();
                    self.refresh_filter();
                } else {
                    return self.navigate_up();
                }
            },
            KeyCode::Char('-') => return self.navigate_up(),
            KeyCode::Esc => return FileKey::Close,
            KeyCode::Char(c) => {
                self.filter.push(c);
                self.refresh_filter();
            },
            _ => {},
        }
        FileKey::Stay
    }
}

// ---------------------------------------------------------------------------
// The state
// ---------------------------------------------------------------------------

/// The state with the browser open in the home directory, where a conversation
/// is active.
#[verifier::opaque]
pub open spec fn browser_opened(a: AppView) -> AppView {
    if a.active_conversation is None {
        a.say("No active conversation. Use /join <name> first."@)
    } else {
        AppView {
            file_picker: directory_entered(a.file_picker, a.file_picker.home),
            ..a.opened(Overlay::FileBrowser)
        }.ask(EffectView::ReadDirectory(a.file_picker.home))
    }
}

/// The state after a key in the browser.
#[verifier::opaque]
pub open spec fn browser_key(a: AppView, code: KeyCode) -> AppView {
    let (p, k) = files_key(a.file_picker, code);
    let b = AppView { file_picker: p, ..a };
    match k {
        FileKeyView::Stay => b,
        FileKeyView::List => b.ask(EffectView::ReadDirectory(p.dir)),
        FileKeyView::Chosen(path) => AppView {
            pending: PendingStateView { attachment: Some(path), ..b.pending },
            ..b.closed(Overlay::FileBrowser)
        },
        FileKeyView::Close => b.closed(Overlay::FileBrowser),
    }
}

impl App {
    fn enter_home(&mut self) -> (r: String)
        ensures
            final(self).state() == (AppView {
                file_picker: directory_entered(
                    old(self).state().file_picker,
                    old(self).state().file_picker.home,
                ),
                ..old(self).state()
            }),
            r@ == old(self).state().file_picker.home,
    {
        reveal(App::state);
        self.file_picker.open();
        self.file_picker.home.clone()
    }

    /// Opens the browser in the home directory.
    pub fn open_file_browser(&mut self)
        ensures
            final(self).state() == browser_opened(old(self).state()),
    {
        reveal(browser_opened);
        if self.active_id().is_none() {
            self.set_status("No active conversation. Use /join <name> first.");
        } else {
            self.open_overlay(Overlay::FileBrowser);
            let home = self.enter_home();
            self.request(Effect::ReadDirectory(home));
        }
    }

    /// Takes the entries of the directory that is shown, or the reason why there
    /// are none.
    pub fn directory_read(&mut self, rows: Result<Vec<(String, bool, u64)>, String>)
        ensures
            final(self).state() == (AppView {
                file_picker: files_listed(
                    old(self).state().file_picker,
                    match rows {
                        Ok(rows) => Ok(rows.deep_view()),
                        Err(e) => Err(e@),
                    },
                ),
                ..old(self).state()
            }),
    {
        reveal(App::state);
        self.file_picker.refresh_entries(rows);
    }

    fn press_in_browser(&mut self, code: KeyCode) -> (r: (FileKey, String))
        ensures
            ({
                let (p, k) = files_key(old(self).state().file_picker, code);
                final(self).state() == (AppView { file_picker: p, ..old(self).state() })
                    && r.0.deep_view() == k && r.1@ == p.dir
            }),
    {
        reveal(App::state);
        let k = self.file_picker.handle_key(code);
        (k, self.file_picker.dir.clone())
    }

    fn attach(&mut self, path: String)
        ensures
            final(self).state() == (AppView {
                pending: PendingStateView { attachment: Some(path@), ..old(self).state().pending },
                ..old(self).state()
            }),
    {
        reveal(App::state);
        self.pending.attachment = Some(path);
    }

    /// Handles a key in the browser.
    pub fn handle_file_browser_key(&mut self, code: KeyCode)
        ensures
            final(self).state() == browser_key(old(self).state(), code),
    {
        reveal(browser_key);
        let (k, dir) = self.press_in_browser(code);
        match k {
            FileKey::Stay => {},
            FileKey::List => self.request(Effect::ReadDirectory(dir)),
            FileKey::Chosen(path) => {
                self.close_overlay(Overlay::FileBrowser);
                self.attach(path);
            },
            FileKey::Close => self.close_overlay(Overlay::FileBrowser),
        }
    }
}

} // verus!
