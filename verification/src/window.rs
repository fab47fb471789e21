//! The registry of named windows and their visibility.

use vstd::prelude::*;
use vstd::string::StringExecFns;
use crate::error::ErrorView;
use crate::error::ShellError;
use crate::error::Violation;

verus! {

/// Whether a window is on screen.
#[derive(Debug, Clone, Copy, PartialEq, Eq, Structural)]
pub enum Visibility {
    Shown,
    Hidden,
    /// Terminal: a closed window has left the registry.
    Closed,
}

/// What the registry knows of one window besides its identifier.
pub struct WindowStatus {
    pub visibility: Visibility,
    pub focused: bool,
}

/// The identifier of the main window.
pub open spec fn main_window() -> Seq<char> {
    "main"@
}

/// The identifier of the timer widget.
pub open spec fn timer_widget() -> Seq<char> {
    "timer_widget"@
}

/// The two windows that the coordination layer addresses by itself.
#[derive(Debug, Clone, Copy, PartialEq, Eq, Structural)]
pub enum KnownWindow {
    Main,
    TimerWidget,
}

impl KnownWindow {
    /// The identifier, as a sequence of characters.
    pub open spec fn key(self) -> Seq<char> {
        match self {
            KnownWindow::Main => main_window(),
            KnownWindow::TimerWidget => timer_widget(),
        }
    }

    /// The identifier under which the window is registered.
    pub fn id(self) -> (id: &'static str)
        ensures
            id@ == self.key(),
    {
        match self {
            KnownWindow::Main => "main",
            KnownWindow::TimerWidget => "timer_widget",
        }
    }
}

/// The visibility of a window; a window that is not registered counts as closed.
pub open spec fn visibility_in(m: Map<Seq<char>, WindowStatus>, id: Seq<char>) -> Visibility {
    if m.contains_key(id) {
        m[id].visibility
    } else {
        Visibility::Closed
    }
}

/// Whether a window is registered and holds the focus.
pub open spec fn focused_in(m: Map<Seq<char>, WindowStatus>, id: Seq<char>) -> bool {
    m.contains_key(id) && m[id].focused
}

/// The windows at application start: the main window alone, shown.
pub open spec fn initial_windows() -> Map<Seq<char>, WindowStatus> {
    Map::<Seq<char>, WindowStatus>::empty().insert(
        main_window(),
        WindowStatus { visibility: Visibility::Shown, focused: false },
    )
}

/// The windows after `id` is shown. Focus stays where it is.
pub open spec fn after_show(m: Map<Seq<char>, WindowStatus>, id: Seq<char>) -> Map<
    Seq<char>,
    WindowStatus,
> {
    if m.contains_key(id) {
        m.insert(id, WindowStatus { visibility: Visibility::Shown, focused: m[id].focused })
    } else {
        m
    }
}

/// The windows after `id` is hidden. A hidden window does not keep the focus.
pub open spec fn after_hide(m: Map<Seq<char>, WindowStatus>, id: Seq<char>) -> Map<
    Seq<char>,
    WindowStatus,
> {
    if m.contains_key(id) {
        m.insert(id, WindowStatus { visibility: Visibility::Hidden, focused: false })
    } else {
        m
    }
}

/// The windows after `id` is given the focus: a shown window takes it from
/// every other window, a hidden one cannot take it.
pub open spec fn after_focus(m: Map<Seq<char>, WindowStatus>, id: Seq<char>) -> Map<
    Seq<char>,
    WindowStatus,
> {
    if m.contains_key(id) && m[id].visibility == Visibility::Shown {
        Map::new(
            |k: Seq<char>| m.contains_key(k),
            |k: Seq<char>| WindowStatus { visibility: m[k].visibility, focused: k == id },
        )
    } else {
        m
    }
}

/// The windows after `id` is closed: it leaves the registry.
pub open spec fn after_close(m: Map<Seq<char>, WindowStatus>, id: Seq<char>) -> Map<
    Seq<char>,
    WindowStatus,
> {
    m.remove(id)
}

/// The windows after a new window `id` is registered, shown or hidden.
pub open spec fn after_open(m: Map<Seq<char>, WindowStatus>, id: Seq<char>, shown: bool) -> Map<
    Seq<char>,
    WindowStatus,
> {
    m.insert(
        id,
        WindowStatus {
            visibility: if shown {
                Visibility::Shown
            } else {
                Visibility::Hidden
            },
            focused: false,
        },
    )
}

/// What holds of every set of windows that the registry can reach: finitely
/// many windows, none of them closed, focus only on a shown window and on at
/// most one.
pub open spec fn windows_valid(m: Map<Seq<char>, WindowStatus>) -> bool {
    &&& m.dom().finite()
    &&& forall|id: Seq<char>| #[trigger]
        m.contains_key(id) ==> m[id].visibility != Visibility::Closed
    &&& forall|id: Seq<char>| #[trigger]
        m.contains_key(id) && m[id].focused ==> m[id].visibility == Visibility::Shown
    &&& forall|a: Seq<char>, b: Seq<char>|
        #[trigger] m.contains_key(a) && #[trigger] m.contains_key(b) && m[a].focused
            && m[b].focused ==> a == b
}

/// A named window.
#[derive(Debug, PartialEq, Eq)]
pub struct WindowHandle {
    id: String,
    visibility: Visibility,
    focused: bool,
}

impl WindowHandle {
    /// The identifier, as a sequence of characters.
    pub closed spec fn key(&self) -> Seq<char> {
        self.id@
    }

    /// Visibility and focus.
    pub closed spec fn status(&self) -> WindowStatus {
        WindowStatus { visibility: self.visibility, focused: self.focused }
    }

    /// The identifier.
    pub fn id(&self) -> (id: &String)
        ensures
            id@ == self.key(),
    {
        &self.id
    }

    /// The visibility.
    pub fn visibility(&self) -> (v: Visibility)
        ensures
            v == self.status().visibility,
    {
        self.visibility
    }

    /// Whether the window holds the focus.
    pub fn is_focused(&self) -> (f: bool)
        ensures
            f == self.status().focused,
    {
        self.focused
    }
}

spec fn distinct_keys(entries: Seq<WindowHandle>) -> bool {
    forall|i: int, j: int|
        0 <= i < entries.len() && 0 <= j < entries.len() && i != j ==> #[trigger] entries[i].key()
            != #[trigger] entries[j].key()
}

spec fn has_key(entries: Seq<WindowHandle>, id: Seq<char>) -> bool {
    exists|i: int| 0 <= i < entries.len() && #[trigger] entries[i].key() == id
}

spec fn slot_of(entries: Seq<WindowHandle>, id: Seq<char>) -> int {
    choose|i: int| 0 <= i < entries.len() && #[trigger] entries[i].key() == id
}

spec fn windows_of(entries: Seq<WindowHandle>) -> Map<Seq<char>, WindowStatus> {
    Map::new(
        |id: Seq<char>| has_key(entries, id),
        |id: Seq<char>| entries[slot_of(entries, id)].status(),
    )
}

/// With distinct identifiers, the entry at `i` is the one that its identifier
/// is looked up to.
proof fn lemma_slot(entries: Seq<WindowHandle>, i: int)
    requires
        distinct_keys(entries),
        0 <= i < entries.len(),
    ensures
        has_key(entries, entries[i].key()),
        slot_of(entries, entries[i].key()) == i,
        windows_of(entries).contains_key(entries[i].key()),
        windows_of(entries)[entries[i].key()] == entries[i].status(),
{
    let id = entries[i].key();
    assert(0 <= i < entries.len() && entries[i].key() == id);
    let s = slot_of(entries, id);
    assert(0 <= s < entries.len() && entries[s].key() == id);
}

/// Entries that keep their identifiers, place by place, keep the keys of the
/// map and the place of each key.
proof fn lemma_same_keys(before: Seq<WindowHandle>, after: Seq<WindowHandle>)
    requires
        distinct_keys(before),
        before.len() == after.len(),
        forall|j: int| 0 <= j < before.len() ==> #[trigger] after[j].key() == before[j].key(),
    ensures
        distinct_keys(after),
        forall|id: Seq<char>| has_key(after, id) == has_key(before, id),
        forall|id: Seq<char>| has_key(before, id) ==> slot_of(after, id) == slot_of(before, id),
{
    assert forall|i: int, j: int|
        0 <= i < after.len() && 0 <= j < after.len() && i != j implies #[trigger] after[i].key()
        != #[trigger] after[j].key() by {
        assert(before[i].key() != before[j].key());
    }
    assert forall|id: Seq<char>| has_key(after, id) == has_key(before, id) by {
        if has_key(after, id) {
            let i = slot_of(after, id);
            assert(before[i].key() == id);
        }
        if has_key(before, id) {
            let i = slot_of(before, id);
            assert(after[i].key() == id);
        }
    }
    assert forall|id: Seq<char>| has_key(before, id) implies slot_of(after, id) == slot_of(
        before,
        id,
    ) by {
        let i = slot_of(before, id);
        assert(after[i].key() == id);
        lemma_slot(after, i);
    }
}

/// Replacing the status of the entry at `i` is an insertion under its key.
proof fn lemma_replaced(before: Seq<WindowHandle>, after: Seq<WindowHandle>, i: int)
    requires
        distinct_keys(before),
        0 <= i < before.len(),
        before.len() == after.len(),
        after[i].key() == before[i].key(),
        forall|j: int| 0 <= j < before.len() && j != i ==> #[trigger] after[j] == before[j],
    ensures
        distinct_keys(after),
        windows_of(after) == windows_of(before).insert(before[i].key(), after[i].status()),
{
    assert forall|j: int| 0 <= j < before.len() implies #[trigger] after[j].key()
        == before[j].key() by {
        if j != i {
            assert(after[j] == before[j]);
        }
    }
    lemma_same_keys(before, after);
    let id = before[i].key();
    lemma_slot(before, i);
    let goal = windows_of(before).insert(id, after[i].status());
    assert forall|k: Seq<char>| #[trigger] windows_of(after).contains_key(k) implies windows_of(
        after,
    )[k] == goal[k] by {
        let s = slot_of(before, k);
        if k != id {
            assert(s != i);
            assert(after[s] == before[s]);
        }
    }
    assert(windows_of(after) =~= goal);
}

/// Appending an entry with a new identifier is an insertion under that key.
proof fn lemma_pushed(before: Seq<WindowHandle>, h: WindowHandle)
    requires
        distinct_keys(before),
        !has_key(before, h.key()),
    ensures
        distinct_keys(before.push(h)),
        windows_of(before.push(h)) == windows_of(before).insert(h.key(), h.status()),
{
    let after = before.push(h);
    let n = before.len() as int;
    assert forall|i: int, j: int|
        0 <= i < after.len() && 0 <= j < after.len() && i != j implies #[trigger] after[i].key()
        != #[trigger] after[j].key() by {
        if i < n && j < n {
            assert(before[i].key() != before[j].key());
        } else if i < n {
            assert(before[i].key() != h.key());
        } else {
            assert(before[j].key() != h.key());
        }
    }
    let goal = windows_of(before).insert(h.key(), h.status());
    assert forall|k: Seq<char>| windows_of(after).contains_key(k) == goal.contains_key(k) by {
        if has_key(after, k) {
            let s = slot_of(after, k);
            if s < n {
                assert(before[s].key() == k);
            }
        }
        if has_key(before, k) {
            let s = slot_of(before, k);
            assert(after[s].key() == k);
        }
        if k == h.key() {
            assert(after[n].key() == k);
        }
    }
    assert forall|k: Seq<char>| #[trigger] windows_of(after).contains_key(k) implies windows_of(
        after,
    )[k] == goal[k] by {
        let s = slot_of(after, k);
        lemma_slot(after, s);
        if s < n {
            assert(before[s].key() == k);
            lemma_slot(before, s);
        }
    }
    assert(windows_of(after) =~= goal);
}

/// Taking the entry at `i` out removes its key.
proof fn lemma_removed(before: Seq<WindowHandle>, i: int)
    requires
        distinct_keys(before),
        0 <= i < before.len(),
    ensures
        distinct_keys(before.remove(i)),
        windows_of(before.remove(i)) == windows_of(before).remove(before[i].key()),
{
    let after = before.remove(i);
    let id = before[i].key();
    assert forall|a: int, b: int|
        0 <= a < after.len() && 0 <= b < after.len() && a != b implies #[trigger] after[a].key()
        != #[trigger] after[b].key() by {
        let a0 = if a < i { a } else { a + 1 };
        let b0 = if b < i { b } else { b + 1 };
        assert(after[a] == before[a0]);
        assert(after[b] == before[b0]);
        assert(before[a0].key() != before[b0].key());
    }
    let goal = windows_of(before).remove(id);
    assert forall|k: Seq<char>| windows_of(after).contains_key(k) == goal.contains_key(k) by {
        if has_key(after, k) {
            let s = slot_of(after, k);
            let s0 = if s < i { s } else { s + 1 };
            assert(after[s] == before[s0]);
            assert(before[s0].key() == k);
            assert(before[s0].key() != before[i].key());
        }
        if has_key(before, k) && k != id {
            let s = slot_of(before, k);
            let s1 = if s < i { s } else { s - 1 };
            assert(after[s1] == before[s]);
            assert(after[s1].key() == k);
        }
    }
    assert forall|k: Seq<char>| #[trigger] windows_of(after).contains_key(k) implies windows_of(
        after,
    )[k] == goal[k] by {
        let s = slot_of(after, k);
        let s0 = if s < i { s } else { s + 1 };
        assert(after[s] == before[s0]);
        lemma_slot(before, s0);
    }
    assert(windows_of(after) =~= goal);
}

/// The named windows that are open, each with its visibility and focus flag.
/// No two windows bear the same identifier.
#[derive(Debug)]
pub struct WindowRegistry {
    entries: Vec<WindowHandle>,
}

impl View for WindowRegistry {
    type V = Map<Seq<char>, WindowStatus>;

    closed spec fn view(&self) -> Map<Seq<char>, WindowStatus> {
        windows_of(self.entries@)
    }
}

impl WindowRegistry {
    #[verifier::type_invariant]
    spec fn well_formed(self) -> bool {
        distinct_keys(self.entries@)
    }

    /// A registry without any window.
    pub fn empty() -> (r: Self)
        ensures
            r@ == Map::<Seq<char>, WindowStatus>::empty(),
    {
        let entries: Vec<WindowHandle> = Vec::new();
        assert(windows_of(entries@) =~= Map::<Seq<char>, WindowStatus>::empty());
        WindowRegistry { entries }
    }

    /// The registry at application start: the main window, shown.
    pub fn new() -> (r: Self)
        ensures
            r@ == initial_windows(),
    {
        let main = WindowHandle {
            id: String::from_str("main"),
            visibility: Visibility::Shown,
            focused: false,
        };
        let mut entries: Vec<WindowHandle> = Vec::new();
        proof {
            lemma_pushed(entries@, main);
            assert(windows_of(entries@) =~= Map::<Seq<char>, WindowStatus>::empty());
        }
        entries.push(main);
        WindowRegistry { entries }
    }

    /// Where the window `id` stands among the entries, if it is registered.
    fn find(&self, id: &String) -> (at: Option<usize>)
        ensures
            match at {
                Some(i) => i < self.entries@.len() && self.entries@[i as int].key() == id@,
                None => !has_key(self.entries@, id@),
            },
    {
        let mut i: usize = 0;
        while i < self.entries.len()
            invariant
                i <= self.entries@.len(),
                forall|j: int| 0 <= j < i ==> #[trigger] self.entries@[j].key() != id@,
            decreases self.entries@.len() - i,
        {
            if self.entries[i].id == *id {
                return Some(i);
            }
            i += 1;
        }
        None
    }

    /// Puts `status` in the place of the status of the entry at `i`.
    fn replace_status(&mut self, i: usize, visibility: Visibility, focused: bool)
        requires
            i < old(self).entries@.len(),
        ensures
            final(self)@ == old(self)@.insert(
                old(self).entries@[i as int].key(),
                WindowStatus { visibility, focused },
            ),
            final(self).entries@.len() == old(self).entries@.len(),
            final(self).entries@[i as int].key() == old(self).entries@[i as int].key(),
    {
        proof {
            use_type_invariant(&*self);
        }
        let ghost before = self.entries@;
        let mut entries: Vec<WindowHandle> = Vec::new();
        std::mem::swap(&mut entries, &mut self.entries);
        let h = WindowHandle { id: entries[i].id.clone(), visibility, focused };
        entries.set(i, h);
        proof {
            lemma_replaced(before, entries@, i as int);
        }
        self.entries = entries;
    }

    /// Whether a window `id` is registered.
    pub fn contains(&self, id: &str) -> (yes: bool)
        ensures
            yes == self@.contains_key(id@),
    {
        proof {
            use_type_invariant(self);
        }
        let key = String::from_str(id);
        match self.find(&key) {
            Some(i) => {
                proof {
                    lemma_slot(self.entries@, i as int);
                }
                true
            },
            None => false,
        }
    }

    /// The visibility of the window `id`; `Closed` when it is not registered.
    pub fn visibility(&self, id: &str) -> (v: Visibility)
        ensures
            v == visibility_in(self@, id@),
    {
        proof {
            use_type_invariant(self);
        }
        let key = String::from_str(id);
        match self.find(&key) {
            Some(i) => {
                proof {
                    lemma_slot(self.entries@, i as int);
                }
                self.entries[i].visibility
            },
            None => Visibility::Closed,
        }
    }

    /// Whether the window `id` is registered and holds the focus.
    pub fn is_focused(&self, id: &str) -> (f: bool)
        ensures
            f == focused_in(self@, id@),
    {
        proof {
            use_type_invariant(self);
        }
        let key = String::from_str(id);
        match self.find(&key) {
            Some(i) => {
                proof {
                    lemma_slot(self.entries@, i as int);
                }
                self.entries[i].focused
            },
            None => false,
        }
    }

    /// Shows the window `id`. An unknown window is reported and nothing changes.
    pub fn show(&mut self, id: &str) -> (res: Result<(), ShellError>)
        ensures
            old(self)@.contains_key(id@) ==> res is Ok && final(self)@ == after_show(
                old(self)@,
                id@,
            ),
            !old(self)@.contains_key(id@) ==> res is Err && res->Err_0@
                == ErrorView::WindowNotFound(id@) && *final(self) == *old(self),
    {
        proof {
            use_type_invariant(&*self);
        }
        let key = String::from_str(id);
        match self.find(&key) {
            Some(i) => {
                proof {
                    lemma_slot(self.entries@, i as int);
                }
                let focused = self.entries[i].focused;
                self.replace_status(i, Visibility::Shown, focused);
                Ok(())
            },
            None => Err(ShellError::WindowNotFound(key)),
        }
    }

    /// Hides the window `id`, which gives up the focus. An unknown window is
    /// reported and nothing changes.
    pub fn hide_window(&mut self, id: &str) -> (res: Result<(), ShellError>)
        ensures
            old(self)@.contains_key(id@) ==> res is Ok && final(self)@ == after_hide(
                old(self)@,
                id@,
            ),
            !old(self)@.contains_key(id@) ==> res is Err && res->Err_0@
                == ErrorView::WindowNotFound(id@) && *final(self) == *old(self),
    {
        proof {
            use_type_invariant(&*self);
        }
        let key = String::from_str(id);
        match self.find(&key) {
            Some(i) => {
                proof {
                    lemma_slot(self.entries@, i as int);
                }
                self.replace_status(i, Visibility::Hidden, false);
                Ok(())
            },
            None => Err(ShellError::WindowNotFound(key)),
        }
    }
}

impl WindowRegistry {
    /// Gives the focus to the window `id`. A shown window takes it from every
    /// other window; a hidden one cannot take it, and nothing changes. An
    /// unknown window is reported and nothing changes.
    pub fn focus(&mut self, id: &str) -> (res: Result<(), ShellError>)
        ensures
            old(self)@.contains_key(id@) ==> res is Ok && final(self)@ == after_focus(
                old(self)@,
                id@,
            ),
            !old(self)@.contains_key(id@) ==> res is Err && res->Err_0@
                == ErrorView::WindowNotFound(id@) && *final(self) == *old(self),
    {
        proof {
            use_type_invariant(&*self);
        }
        let key = String::from_str(id);
        let at = self.find(&key);
        let i = match at {
            Some(i) => i,
            None => {
                return Err(ShellError::WindowNotFound(key));
            },
        };
        proof {
            lemma_slot(self.entries@, i as int);
        }
        if self.entries[i].visibility != Visibility::Shown {
            return Ok(());
        }
        let ghost before = self.entries@;
        let mut entries: Vec<WindowHandle> = Vec::new();
        std::mem::swap(&mut entries, &mut self.entries);
        let mut j: usize = 0;
        while j < entries.len()
            invariant
                j <= entries@.len(),
                i < entries@.len(),
                entries@.len() == before.len(),
                forall|k: int| 0 <= k < before.len() ==> #[trigger] entries@[k].key() == before[k].key(),
                forall|k: int|
                    0 <= k < j ==> #[trigger] entries@[k].status() == (WindowStatus {
                        visibility: before[k].status().visibility,
                        focused: k == i,
                    }),
                forall|k: int| j <= k < before.len() ==> #[trigger] entries@[k] == before[k],
            decreases entries@.len() - j,
        {
            let h = WindowHandle {
                id: entries[j].id.clone(),
                visibility: entries[j].visibility,
                focused: j == i,
            };
            entries.set(j, h);
            j += 1;
        }
        proof {
            lemma_same_keys(before, entries@);
            let goal = after_focus(windows_of(before), id@);
            assert forall|k: Seq<char>| #[trigger]
                windows_of(entries@).contains_key(k) implies windows_of(entries@)[k]
                == goal[k] by {
                let s = slot_of(before, k);
                lemma_slot(before, s);
            }
            assert(windows_of(entries@) =~= goal);
        }
        self.entries = entries;
        Ok(())
    }

    /// Closes the window `id`, which leaves the registry. Only the timer widget
    /// can be closed: any other identifier is refused. A timer widget that is
    /// not registered is reported. Nothing changes unless the call succeeds.
    pub fn close(&mut self, id: &str) -> (res: Result<(), ShellError>)
        ensures
            id@ != timer_widget() ==> res == Err::<(), ShellError>(
                ShellError::Validation(Violation::CloseNotPermitted),
            ) && *final(self) == *old(self),
            id@ == timer_widget() && !old(self)@.contains_key(id@) ==> res is Err
                && res->Err_0@ == ErrorView::WindowNotFound(id@) && *final(self) == *old(self),
            id@ == timer_widget() && old(self)@.contains_key(id@) ==> res is Ok && final(self)@
                == after_close(old(self)@, id@),
    {
        proof {
            use_type_invariant(&*self);
        }
        let key = String::from_str(id);
        if key != String::from_str("timer_widget") {
            return Err(ShellError::Validation(Violation::CloseNotPermitted));
        }
        match self.find(&key) {
            Some(i) => {
                let ghost before = self.entries@;
                let mut entries: Vec<WindowHandle> = Vec::new();
                std::mem::swap(&mut entries, &mut self.entries);
                entries.remove(i);
                proof {
                    lemma_removed(before, i as int);
                }
                self.entries = entries;
                Ok(())
            },
            None => Err(ShellError::WindowNotFound(key)),
        }
    }

    /// Registers a new window `id`, shown or hidden, without the focus. An
    /// identifier that is already registered is refused and nothing changes.
    pub fn open(&mut self, id: &str, shown: bool) -> (res: Result<(), ShellError>)
        ensures
            old(self)@.contains_key(id@) ==> res == Err::<(), ShellError>(
                ShellError::Validation(Violation::WindowAlreadyOpen),
            ) && *final(self) == *old(self),
            !old(self)@.contains_key(id@) ==> res is Ok && final(self)@ == after_open(
                old(self)@,
                id@,
                shown,
            ),
    {
        proof {
            use_type_invariant(&*self);
        }
        let key = String::from_str(id);
        match self.find(&key) {
            Some(i) => {
                proof {
                    lemma_slot(self.entries@, i as int);
                }
                Err(ShellError::Validation(Violation::WindowAlreadyOpen))
            },
            None => {
                let visibility = if shown {
                    Visibility::Shown
                } else {
                    Visibility::Hidden
                };
                let h = WindowHandle { id: key, visibility, focused: false };
                let ghost before = self.entries@;
                let mut entries: Vec<WindowHandle> = Vec::new();
                std::mem::swap(&mut entries, &mut self.entries);
                proof {
                    lemma_pushed(before, h);
                }
                entries.push(h);
                self.entries = entries;
                Ok(())
            },
        }
    }
}

} // verus!
