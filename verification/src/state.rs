use vstd::prelude::*;
use crate::project::Project;
use crate::search::filter_projects;
use crate::search::filter_spec;
use crate::text::lower_of;

verus! {

/// Which of the two key tables is active.
#[derive(Debug, Clone, Copy, PartialEq, Eq)]
pub enum Mode {
    Navigation,
    Editing,
}

/// A pressed key, reduced to what dispatch reads.
#[derive(Debug, Clone, Copy, PartialEq, Eq)]
pub enum KeyCode {
    Char(char),
    Up,
    Down,
    Enter,
    Esc,
    Other,
}

/// The modifiers held with the key: none, exactly control, or anything else.
#[derive(Debug, Clone, Copy, PartialEq, Eq)]
pub enum Mods {
    Plain,
    Ctrl,
    Mixed,
}

/// One key event handed to dispatch.
#[derive(Debug, Clone, Copy, PartialEq, Eq)]
pub struct Key {
    pub code: KeyCode,
    pub mods: Mods,
}

/// What the interaction loop must do after a dispatch step.
#[derive(Debug, Clone, Copy, PartialEq, Eq)]
pub enum Action {
    /// The step was handled entirely in the state; just redraw.
    Handled,
    /// Forward the raw key to the query text buffer, then hand the buffer's
    /// new contents back through `set_query`.
    ForwardToBuffer,
}

/// The selection is a valid index for a filtered list of length `n`:
/// some index below `n` when the list is non-empty, nothing when it is empty.
pub open spec fn sel_wf(sel: Option<usize>, n: int) -> bool {
    match sel {
        Option::Some(i) => n > 0 && i < n,
        Option::None => n == 0,
    }
}

/// Selection after `next`: one step down, wrapping to the first element.
pub open spec fn next_sel(sel: Option<usize>, n: int) -> Option<usize> {
    match sel {
        Option::Some(i) => Option::Some((if i + 1 < n {
            i + 1
        } else {
            0
        }) as usize),
        Option::None => Option::None,
    }
}

/// Selection after `previous`: one step up, wrapping to the last element.
pub open spec fn prev_sel(sel: Option<usize>, n: int) -> Option<usize> {
    match sel {
        Option::Some(i) => Option::Some((if i == 0 {
            n - 1
        } else {
            i - 1
        }) as usize),
        Option::None => Option::None,
    }
}

/// Selection after `first`: the first element, or nothing on an empty list.
pub open spec fn first_sel(n: int) -> Option<usize> {
    if n == 0 {
        Option::None
    } else {
        Option::Some(0usize)
    }
}

/// Selection after `last`: the last element, or nothing on an empty list.
pub open spec fn last_sel(n: int) -> Option<usize> {
    if n == 0 {
        Option::None
    } else {
        Option::Some((n - 1) as usize)
    }
}

/// The whole interactive state: the full and filtered project lists, the
/// selection, the input mode, the live query text, and the two exit flags.
#[derive(Debug)]
pub struct App {
    pub projects: Vec<Project>,
    pub filtered: Vec<Project>,
    pub selected: Option<usize>,
    pub mode: Mode,
    pub query: String,
    pub pending_open: bool,
    pub exit: bool,
}

/// The selected project's path, if a project is selected.
pub open spec fn sel_path(a: App) -> Option<String> {
    match a.selected {
        Option::Some(i) => Option::Some(a.filtered@[i as int].path),
        Option::None => Option::None,
    }
}

/// One dispatch step of the navigation-mode key table. Modifiers are ignored
/// in this mode.
pub open spec fn nav_step(pre: App, code: KeyCode) -> (App, Action) {
    let n = pre.filtered@.len() as int;
    if code == KeyCode::Char('q') || code == KeyCode::Esc {
        (App { exit: true, ..pre }, Action::Handled)
    } else if code == KeyCode::Char('j') || code == KeyCode::Down {
        (App { selected: next_sel(pre.selected, n), ..pre }, Action::Handled)
    } else if code == KeyCode::Char('k') || code == KeyCode::Up {
        (App { selected: prev_sel(pre.selected, n), ..pre }, Action::Handled)
    } else if code == KeyCode::Char('G') {
        (App { selected: last_sel(n), ..pre }, Action::Handled)
    } else if code == KeyCode::Char('/') {
        (App { mode: Mode::Editing, ..pre }, Action::Handled)
    } else if code == KeyCode::Enter {
        (App { pending_open: true, exit: true, ..pre }, Action::Handled)
    } else {
        (pre, Action::Handled)
    }
}

/// One dispatch step of the editing-mode key table. Keys not in the table are
/// forwarded to the text buffer.
pub open spec fn edit_step(pre: App, key: Key) -> (App, Action) {
    let n = pre.filtered@.len() as int;
    if (key.code == KeyCode::Esc || key.code == KeyCode::Enter) && key.mods == Mods::Plain {
        (App { mode: Mode::Navigation, ..pre }, Action::Handled)
    } else if (key.code == KeyCode::Char('n') && key.mods == Mods::Ctrl) || (key.code
        == KeyCode::Down && key.mods == Mods::Plain) {
        (App { selected: next_sel(pre.selected, n), ..pre }, Action::Handled)
    } else if (key.code == KeyCode::Char('p') && key.mods == Mods::Ctrl) || (key.code == KeyCode::Up
        && key.mods == Mods::Plain) {
        (App { selected: prev_sel(pre.selected, n), ..pre }, Action::Handled)
    } else {
        (pre, Action::ForwardToBuffer)
    }
}

/// One dispatch step: the active mode picks the key table.
pub open spec fn step(pre: App, key: Key) -> (App, Action) {
    match pre.mode {
        Mode::Navigation => nav_step(pre, key.code),
        Mode::Editing => edit_step(pre, key),
    }
}

impl App {
    /// The state invariant: the filtered list is exactly the filter of the
    /// full list under the current query, and the selection is a valid index
    /// into it (nothing exactly when it is empty).
    pub open spec fn wf(self) -> bool {
        &&& self.filtered@ == filter_spec(self.projects@, lower_of(self.query@))
        &&& sel_wf(self.selected, self.filtered@.len() as int)
    }

    /// Starts the interactive state over the discovered projects: empty
    /// query, the whole list visible, the first project (if any) selected,
    /// and the text input focused.
    pub fn new(projects: Vec<Project>) -> (a: App)
        ensures
            a.wf(),
            a.projects@ == projects@,
            a.filtered@ == projects@,
            a.query@.len() == 0,
            a.selected == first_sel(projects@.len() as int),
            a.mode == Mode::Editing,
            !a.pending_open,
            !a.exit,
    {
        let query = String::new();
        let filtered = filter_projects(&projects, query.as_str());
        let selected: Option<usize> = if filtered.len() == 0 {
            Option::None
        } else {
            Option::Some(0usize)
        };
        App { projects, filtered, selected, mode: Mode::Editing, query, pending_open: false, exit: false }
    }

    /// Requests loop exit; everything else is untouched.
    pub fn exit(&mut self)
        ensures
            *final(self) == (App { exit: true, ..*old(self) }),
    {
        self.exit = true;
    }

    /// Marks the current selection for hand-off and requests loop exit.
    pub fn open_project(&mut self)
        ensures
            *final(self) == (App { pending_open: true, exit: true, ..*old(self) }),
    {
        self.pending_open = true;
        self.exit = true;
    }

    /// Switches to editing mode; everything else is untouched.
    pub fn start_editing(&mut self)
        ensures
            *final(self) == (App { mode: Mode::Editing, ..*old(self) }),
    {
        self.mode = Mode::Editing;
    }

    /// Switches to navigation mode; everything else is untouched.
    pub fn stop_editing(&mut self)
        ensures
            *final(self) == (App { mode: Mode::Navigation, ..*old(self) }),
    {
        self.mode = Mode::Navigation;
    }

    /// Moves the selection one step down, wrapping past the end.
    pub fn select_next(&mut self)
        requires
            old(self).wf(),
        ensures
            final(self).wf(),
            *final(self) == (App {
                selected: next_sel(old(self).selected, old(self).filtered@.len() as int),
                ..*old(self)
            }),
    {
        let n = self.filtered.len();
        match self.selected {
            Option::Some(i) => {
                if i + 1 < n {
                    self.selected = Option::Some(i + 1);
                } else {
                    self.selected = Option::Some(0);
                }
            },
            Option::None => {},
        }
    }

    /// Moves the selection one step up, wrapping before the start.
    pub fn select_previous(&mut self)
        requires
            old(self).wf(),
        ensures
            final(self).wf(),
            *final(self) == (App {
                selected: prev_sel(old(self).selected, old(self).filtered@.len() as int),
                ..*old(self)
            }),
    {
        let n = self.filtered.len();
        match self.selected {
            Option::Some(i) => {
                if i == 0 {
                    self.selected = Option::Some(n - 1);
                } else {
                    self.selected = Option::Some(i - 1);
                }
            },
            Option::None => {},
        }
    }

    /// Selects the first element, or nothing when the list is empty.
    pub fn select_first(&mut self)
        requires
            old(self).wf(),
        ensures
            final(self).wf(),
            *final(self) == (App {
                selected: first_sel(old(self).filtered@.len() as int),
                ..*old(self)
            }),
    {
        if self.filtered.len() == 0 {
            self.selected = Option::None;
        } else {
            self.selected = Option::Some(0);
        }
    }

    /// Selects the last element, or nothing when the list is empty.
    pub fn select_last(&mut self)
        requires
            old(self).wf(),
        ensures
            final(self).wf(),
            *final(self) == (App {
                selected: last_sel(old(self).filtered@.len() as int),
                ..*old(self)
            }),
    {
        let n = self.filtered.len();
        if n == 0 {
            self.selected = Option::None;
        } else {
            self.selected = Option::Some(n - 1);
        }
    }

    /// Installs the query text after a buffer edit: recomputes the filtered
    /// list and resets the selection to its first element, or to nothing when
    /// the result is empty.
    pub fn set_query(&mut self, query: String)
        requires
            old(self).wf(),
        ensures
            final(self).wf(),
            final(self).query == query,
            final(self).filtered@ == filter_spec(old(self).projects@, lower_of(query@)),
            final(self).selected == first_sel(final(self).filtered@.len() as int),
            final(self).projects == old(self).projects,
            final(self).mode == old(self).mode,
            final(self).pending_open == old(self).pending_open,
            final(self).exit == old(self).exit,
    {
        let filtered = filter_projects(&self.projects, query.as_str());
        self.filtered = filtered;
        self.query = query;
        if self.filtered.len() == 0 {
            self.selected = Option::None;
        } else {
            self.selected = Option::Some(0);
        }
    }

    /// The selected project's path, if a project is selected.
    pub fn selected_path(&self) -> (r: Option<String>)
        requires
            self.wf(),
        ensures
            r == sel_path(*self),
    {
        match self.selected {
            Option::Some(i) => Option::Some(self.filtered[i].path.clone()),
            Option::None => Option::None,
        }
    }

    /// Dispatches one key event through the active mode's table, exactly as
    /// `step` describes, and keeps the state well-formed.
    pub fn handle_key(&mut self, key: Key) -> (act: Action)
        requires
            old(self).wf(),
        ensures
            final(self).wf(),
            *final(self) == step(*old(self), key).0,
            act == step(*old(self), key).1,
    {
        match self.mode {
            Mode::Navigation => {
                match key.code {
                    KeyCode::Char(c) => {
                        if c == 'q' {
                            self.exit();
                        } else if c == 'j' {
                            self.select_next();
                        } else if c == 'k' {
                            self.select_previous();
                        } else if c == 'G' {
                            self.select_last();
                        } else if c == '/' {
                            self.start_editing();
                        }
                        Action::Handled
                    },
                    KeyCode::Esc => {
                        self.exit();
                        Action::Handled
                    },
                    KeyCode::Down => {
                        self.select_next();
                        Action::Handled
                    },
                    KeyCode::Up => {
                        self.select_previous();
                        Action::Handled
                    },
                    KeyCode::Enter => {
                        self.open_project();
                        Action::Handled
                    },
                    KeyCode::Other => Action::Handled,
                }
            },
            Mode::Editing => {
                match (key.code, key.mods) {
                    (KeyCode::Esc, Mods::Plain) => {
                        self.stop_editing();
                        Action::Handled
                    },
                    (KeyCode::Enter, Mods::Plain) => {
                        self.stop_editing();
                        Action::Handled
                    },
                    (KeyCode::Char(c), Mods::Ctrl) => {
                        if c == 'n' {
                            self.select_next();
                            Action::Handled
                        } else if c == 'p' {
                            self.select_previous();
                            Action::Handled
                        } else {
                            Action::ForwardToBuffer
                        }
                    },
                    (KeyCode::Down, Mods::Plain) => {
                        self.select_next();
                        Action::Handled
                    },
                    (KeyCode::Up, Mods::Plain) => {
                        self.select_previous();
                        Action::Handled
                    },
                    _ => Action::ForwardToBuffer,
                }
            },
        }
    }
}

/// Law: every navigation operation preserves the selection invariant — on a
/// non-empty list the selection stays a valid index, on an empty list it
/// stays nothing.
pub proof fn lemma_nav_preserves_sel_wf(sel: Option<usize>, n: int)
    requires
        sel_wf(sel, n),
    ensures
        sel_wf(next_sel(sel, n), n),
        sel_wf(prev_sel(sel, n), n),
        sel_wf(first_sel(n), n),
        sel_wf(last_sel(n), n),
{
}

/// Law: one dispatch step from any well-formed state leaves the state
/// well-formed, whatever key arrives.
pub proof fn lemma_step_preserves_wf(pre: App, key: Key)
    requires
        pre.wf(),
    ensures
        step(pre, key).0.wf(),
{
    lemma_nav_preserves_sel_wf(pre.selected, pre.filtered@.len() as int);
}

/// Law: navigation wraps around — `next` on the last index yields the first,
/// `previous` on the first yields the last.
pub proof fn lemma_wraparound(n: int)
    requires
        0 < n <= usize::MAX,
    ensures
        next_sel(Option::Some((n - 1) as usize), n) == Option::Some(0usize),
        prev_sel(Option::Some(0usize), n) == Option::Some((n - 1) as usize),
{
}

} // verus!
