use vstd::prelude::*;

use crate::paths::{join_path, joined, parent_of, parent_path};
use crate::stateful_list::{next_selection, previous_selection, StatefulList};

verus! {

/// One entry of a directory listing: its full path, its display name and its kind.
pub struct Entry {
    pub path: String,
    pub name: String,
    pub is_dir: bool,
}

/// An entry as plain values.
pub struct EntryView {
    pub path: Seq<char>,
    pub name: Seq<char>,
    pub is_dir: bool,
}

impl View for Entry {
    type V = EntryView;

    open spec fn view(&self) -> EntryView {
        EntryView { path: self.path@, name: self.name@, is_dir: self.is_dir }
    }
}

/// Whether keys move through the listing or type into the text box.
#[derive(Clone, Copy, PartialEq, Eq, Structural, Debug)]
pub enum InputMode {
    Normal,
    Editing,
}

/// What happens to the typed text once it is submitted. The directory is fixed
/// when the action is installed.
pub enum PendingAction {
    CreateFolder { parent: String },
}

/// A pending action as plain values.
pub enum PendingActionView {
    CreateFolder { parent: Seq<char> },
}

impl View for PendingAction {
    type V = PendingActionView;

    open spec fn view(&self) -> PendingActionView {
        match self {
            PendingAction::CreateFolder { parent } => PendingActionView::CreateFolder {
                parent: parent@,
            },
        }
    }
}

/// The most recently opened file: its name and its text.
pub struct Preview {
    pub name: String,
    pub content: String,
}

/// A key press, as far as the browser tells keys apart.
#[derive(Clone, Copy, PartialEq, Eq, Structural, Debug)]
pub enum Key {
    Up,
    Down,
    Left,
    Right,
    Enter,
    Backspace,
    Esc,
    Char(char),
    Other,
}

/// The outside work that a key press asks for. After `ListParent`, `ListChild`
/// and `ReadFile` the caller reports the outcome through `go_back`, `go_into`
/// and `open_file`; after `CreateDir`, through `finish_create`.
pub enum Command {
    Nothing,
    Quit,
    ListParent(String),
    ListChild(String),
    ReadFile(String),
    CreateDir(String),
}

/// A command as plain values.
pub enum CommandView {
    Nothing,
    Quit,
    ListParent(Seq<char>),
    ListChild(Seq<char>),
    ReadFile(Seq<char>),
    CreateDir(Seq<char>),
}

impl View for Command {
    type V = CommandView;

    open spec fn view(&self) -> CommandView {
        match self {
            Command::Nothing => CommandView::Nothing,
            Command::Quit => CommandView::Quit,
            Command::ListParent(p) => CommandView::ListParent(p@),
            Command::ListChild(p) => CommandView::ListChild(p@),
            Command::ReadFile(p) => CommandView::ReadFile(p@),
            Command::CreateDir(p) => CommandView::CreateDir(p@),
        }
    }
}

/// A listing as plain values.
pub open spec fn entries_view(v: Seq<Entry>) -> Seq<EntryView> {
    v.map_values(|e: Entry| e@)
}

/// The outcome of listing a directory, as plain values.
pub open spec fn listing_view(l: Result<Vec<Entry>, String>) -> Result<Seq<EntryView>, Seq<char>> {
    match l {
        Ok(v) => Ok(entries_view(v@)),
        Err(e) => Err(e@),
    }
}

/// The outcome of reading a file, as plain values.
pub open spec fn text_view(l: Result<String, String>) -> Result<Seq<char>, Seq<char>> {
    match l {
        Ok(v) => Ok(v@),
        Err(e) => Err(e@),
    }
}

/// The outcome of creating a directory, as plain values.
pub open spec fn unit_view(l: Result<(), String>) -> Result<(), Seq<char>> {
    match l {
        Ok(_) => Ok(()),
        Err(e) => Err(e@),
    }
}

/// The message shown when `action` failed on `path` with the cause `why`.
pub open spec fn failure_text(action: Seq<char>, path: Seq<char>, why: Seq<char>) -> Seq<char> {
    "couldn't "@ + action + " "@ + path + ": "@ + why
}

/// `i` is the first position in `items` whose full path is `path`.
pub open spec fn is_first_match(items: Seq<EntryView>, path: Seq<char>, i: int) -> bool {
    &&& 0 <= i < items.len()
    &&& items[i].path == path
    &&& forall|j: int| 0 <= j < i ==> items[j].path != path
}

/// The first position in `items` whose full path is `path`, if there is one.
pub open spec fn first_match(items: Seq<EntryView>, path: Seq<char>) -> Option<usize> {
    if exists|i: int| is_first_match(items, path, i) {
        Some((choose|i: int| is_first_match(items, path, i)) as usize)
    } else {
        None
    }
}

/// The browser's state as plain values.
pub struct AppView {
    pub curr_dir: Seq<char>,
    pub items: Seq<EntryView>,
    pub selected: Option<usize>,
    pub error: Option<Seq<char>>,
    pub input_mode: InputMode,
    pub input: Seq<char>,
    pub pending_action: Option<PendingActionView>,
    pub preview: Option<(Seq<char>, Seq<char>)>,
}

impl AppView {
    /// The selection points at an entry, and text entry goes with a pending action.
    pub open spec fn wf(self) -> bool {
        &&& match self.selected {
            Some(i) => i < self.items.len(),
            None => true,
        }
        &&& (self.input_mode == InputMode::Editing) == (self.pending_action is Some)
    }

    /// Browsing `dir`, whose listing is `items`, with nothing selected yet.
    pub open spec fn initial(dir: Seq<char>, items: Seq<EntryView>) -> AppView {
        AppView {
            curr_dir: dir,
            items,
            selected: None,
            error: None,
            input_mode: InputMode::Normal,
            input: Seq::empty(),
            pending_action: None,
            preview: None,
        }
    }

    /// Moving the selection down.
    pub open spec fn next(self) -> AppView {
        AppView { selected: next_selection(self.selected, self.items.len()), ..self }
    }

    /// Moving the selection up.
    pub open spec fn previous(self) -> AppView {
        AppView { selected: previous_selection(self.selected, self.items.len()), ..self }
    }

    /// The path of the selected entry, built from the current directory and its name.
    pub open spec fn selected_path(self) -> Option<Seq<char>> {
        match self.selected {
            Some(i) => Some(joined(self.curr_dir, self.items[i as int].name)),
            None => None,
        }
    }

    /// Moving up: on a listing of the parent, the parent becomes current and the
    /// entry for the directory just left is selected, if the listing has one.
    /// On a failure only the error changes. A success leaves any earlier error
    /// in place: only a successful open clears it.
    pub open spec fn go_back(self, listing: Result<Seq<EntryView>, Seq<char>>) -> AppView {
        match listing {
            Ok(items) => AppView {
                curr_dir: parent_of(self.curr_dir),
                items,
                selected: first_match(items, self.curr_dir),
                ..self
            },
            Err(why) => AppView {
                error: Some(failure_text("list"@, parent_of(self.curr_dir), why)),
                ..self
            },
        }
    }

    /// Moving into the selected entry: on a listing of it, it becomes current with
    /// its first entry selected. On a failure the browser stays where it is and
    /// only the error changes. A success leaves any earlier error in place: only
    /// a successful open clears it.
    pub open spec fn go_into(self, listing: Result<Seq<EntryView>, Seq<char>>) -> AppView {
        match self.selected_path() {
            None => self,
            Some(target) => match listing {
                Ok(items) => AppView {
                    curr_dir: target,
                    items,
                    selected: if items.len() > 0 { Some(0usize) } else { None },
                    ..self
                },
                Err(why) => AppView { error: Some(failure_text("list"@, target, why)), ..self },
            },
        }
    }

    /// Opening the selected file: its text becomes the preview and the error is
    /// cleared; on a failure the error is set and the preview is kept.
    pub open spec fn open_file(self, content: Result<Seq<char>, Seq<char>>) -> AppView {
        match self.selected {
            None => self,
            Some(i) => match content {
                Ok(text) => AppView {
                    preview: Some((self.items[i as int].name, text)),
                    error: None,
                    ..self
                },
                Err(why) => AppView {
                    error: Some(
                        failure_text("open"@, joined(self.curr_dir, self.items[i as int].name), why),
                    ),
                    ..self
                },
            },
        }
    }

    /// Entering text entry with a folder to be created in the current directory.
    pub open spec fn new_folder(self) -> AppView {
        AppView {
            input_mode: InputMode::Editing,
            pending_action: Some(PendingActionView::CreateFolder { parent: self.curr_dir }),
            ..self
        }
    }

    /// Typing one character.
    pub open spec fn push_char(self, c: char) -> AppView {
        AppView { input: self.input.push(c), ..self }
    }

    /// Removing the last typed character, if any.
    pub open spec fn backspace(self) -> AppView {
        if self.input.len() > 0 {
            AppView { input: self.input.drop_last(), ..self }
        } else {
            self
        }
    }

    /// Leaving text entry, with or without submitting: the action and the text go.
    pub open spec fn leave_editing(self) -> AppView {
        AppView {
            input_mode: InputMode::Normal,
            pending_action: None,
            input: Seq::empty(),
            ..self
        }
    }

    /// The directory that submitting the current text would create.
    pub open spec fn submit_target(self) -> Option<Seq<char>> {
        match self.pending_action {
            Some(PendingActionView::CreateFolder { parent }) => Some(joined(parent, self.input)),
            None => None,
        }
    }

    /// Recording the outcome of creating the directory `path`.
    pub open spec fn finish_create(self, path: Seq<char>, result: Result<(), Seq<char>>) -> AppView {
        match result {
            Ok(_) => self,
            Err(why) => AppView { error: Some(failure_text("create"@, path, why)), ..self },
        }
    }

    /// The text of the main panel: the error if there is one, else the preview.
    pub open spec fn panel(self) -> Seq<char> {
        match self.error {
            Some(e) => e,
            None => match self.preview {
                Some(p) => p.1,
                None => Seq::empty(),
            },
        }
    }

    /// What opening the selected entry asks for: its listing if it is a
    /// directory, else its text.
    pub open spec fn enter_command(self) -> CommandView {
        match self.selected {
            None => CommandView::Nothing,
            Some(i) => {
                let target = joined(self.curr_dir, self.items[i as int].name);
                if self.items[i as int].is_dir {
                    CommandView::ListChild(target)
                } else {
                    CommandView::ReadFile(target)
                }
            },
        }
    }

    /// The state after a key press, and the outside work it asks for.
    pub open spec fn on_key(self, key: Key) -> (AppView, CommandView) {
        match self.input_mode {
            InputMode::Normal => match key {
                Key::Char(c) => if c == 'q' {
                    (self, CommandView::Quit)
                } else if c == 'n' {
                    (self.new_folder(), CommandView::Nothing)
                } else {
                    (self, CommandView::Nothing)
                },
                Key::Left => (self, CommandView::ListParent(parent_of(self.curr_dir))),
                Key::Down => (self.next(), CommandView::Nothing),
                Key::Up => (self.previous(), CommandView::Nothing),
                Key::Enter | Key::Right => (self, self.enter_command()),
                _ => (self, CommandView::Nothing),
            },
            InputMode::Editing => match key {
                Key::Enter => (
                    self.leave_editing(),
                    match self.submit_target() {
                        Some(p) => CommandView::CreateDir(p),
                        None => CommandView::Nothing,
                    },
                ),
                Key::Char(c) => (self.push_char(c), CommandView::Nothing),
                Key::Backspace => (self.backspace(), CommandView::Nothing),
                Key::Esc => (self.leave_editing(), CommandView::Nothing),
                _ => (self, CommandView::Nothing),
            },
        }
    }
}

/// The file browser: the current directory and its listing, the input mode, the
/// typed text with the action waiting for it, the last error and the last preview.
pub struct App {
    pub curr_dir: String,
    pub list: StatefulList<Entry>,
    pub error: Option<String>,
    pub input_mode: InputMode,
    pub input: String,
    pub pending_action: Option<PendingAction>,
    pub preview: Option<Preview>,
}

/// An optional text as plain values.
pub open spec fn opt_text(o: Option<String>) -> Option<Seq<char>> {
    match o {
        Some(s) => Some(s@),
        None => None,
    }
}

impl View for App {
    type V = AppView;

    open spec fn view(&self) -> AppView {
        AppView {
            curr_dir: self.curr_dir@,
            items: entries_view(self.list.items@),
            selected: self.list.selected,
            error: opt_text(self.error),
            input_mode: self.input_mode,
            input: self.input@,
            pending_action: match self.pending_action {
                Some(a) => Some(a@),
                None => None,
            },
            preview: match self.preview {
                Some(p) => Some((p.name@, p.content@)),
                None => None,
            },
        }
    }
}

/// Builds the message for `action` failing on `path` with the cause `why`.
fn failure_message(action: &str, path: &String, why: &String) -> (r: String)
    ensures
        r@ == failure_text(action@, path@, why@),
{
    let mut s = "couldn't ".to_owned();
    s.append(action);
    s.append(" ");
    s.append(path.as_str());
    s.append(": ");
    s.append(why.as_str());
    s
}

/// The first position in `items` whose full path is `path`, if there is one.
fn find_path(items: &Vec<Entry>, path: &String) -> (r: Option<usize>)
    ensures
        r == first_match(entries_view(items@), path@),
{
    let ghost view = entries_view(items@);
    let mut i: usize = 0;
    while i < items.len()
        invariant
            i <= items.len(),
            view == entries_view(items@),
            forall|j: int| 0 <= j < i ==> view[j].path != path@,
        decreases items.len() - i,
    {
        if items[i].path == *path {
            assert(is_first_match(view, path@, i as int));
            assert forall|k: int| is_first_match(view, path@, k) implies k == i as int by {
                if k < i {
                    assert(view[k].path != path@);
                } else if k > i {
                    assert(view[i as int].path != path@);
                }
            }
            return Some(i);
        }
        i += 1;
    }
    assert forall|k: int| !is_first_match(view, path@, k) by {
        if 0 <= k < view.len() {
            assert(view[k].path != path@);
        }
    }
    None
}

impl App {
    /// The list and the state it stands for are both well formed.
    pub open spec fn wf(&self) -> bool {
        &&& self.list.wf()
        &&& self@.wf()
    }

    /// A browser at `curr_dir`, whose listing is `items`, with nothing selected,
    /// in normal mode, with no error and no preview.
    pub fn new(curr_dir: String, items: Vec<Entry>) -> (r: App)
        ensures
            r.wf(),
            r@ == AppView::initial(curr_dir@, entries_view(items@)),
    {
        let list = StatefulList::with_items(items);
        App {
            curr_dir,
            list,
            error: None,
            input_mode: InputMode::Normal,
            input: String::new(),
            pending_action: None,
            preview: None,
        }
    }

    /// Called when no key came in for a while; changes nothing.
    pub fn on_tick(&mut self)
        ensures
            final(self)@ == old(self)@,
    {
    }

    /// Moves to the parent directory, whose listing (or the failure to list it)
    /// is `listing`, and selects the entry of the directory just left. An earlier
    /// error is kept on success.
    pub fn go_back(&mut self, listing: Result<Vec<Entry>, String>)
        requires
            old(self).wf(),
        ensures
            final(self).wf(),
            final(self)@ == old(self)@.go_back(listing_view(listing)),
    {
        let parent = parent_path(&self.curr_dir);
        match listing {
            Ok(items) => {
                let found = find_path(&items, &self.curr_dir);
                self.curr_dir = parent;
                self.list.items = items;
                self.list.selected = found;
            },
            Err(why) => {
                self.error = Some(failure_message("list", &parent, &why));
            },
        }
    }

    /// Moves into the selected entry, whose listing (or the failure to list it)
    /// is `listing`, and selects its first entry. Without a selection nothing
    /// changes. An earlier error is kept on success.
    pub fn go_into(&mut self, listing: Result<Vec<Entry>, String>)
        requires
            old(self).wf(),
        ensures
            final(self).wf(),
            final(self)@ == old(self)@.go_into(listing_view(listing)),
    {
        let i = match self.list.selected {
            Some(i) => i,
            None => return ,
        };
        let target = join_path(&self.curr_dir, &self.list.items[i].name);
        match listing {
            Ok(items) => {
                self.curr_dir = target;
                self.list.items = items;
                self.list.selected = None;
                self.list.next();
            },
            Err(why) => {
                self.error = Some(failure_message("list", &target, &why));
            },
        }
    }

    /// Shows the selected file, whose text (or the failure to read it) is
    /// `content`. Without a selection nothing changes.
    pub fn open_file(&mut self, content: Result<String, String>)
        requires
            old(self).wf(),
        ensures
            final(self).wf(),
            final(self)@ == old(self)@.open_file(text_view(content)),
    {
        let i = match self.list.selected {
            Some(i) => i,
            None => return ,
        };
        match content {
            Ok(text) => {
                let name = self.list.items[i].name.clone();
                self.preview = Some(Preview { name, content: text });
                self.error = None;
            },
            Err(why) => {
                let path = join_path(&self.curr_dir, &self.list.items[i].name);
                self.error = Some(failure_message("open", &path, &why));
            },
        }
    }

    /// Opens the text box for a new folder, which will be created in the current
    /// directory as it is now.
    pub fn new_folder(&mut self)
        requires
            old(self).wf(),
        ensures
            final(self).wf(),
            final(self)@ == old(self)@.new_folder(),
    {
        self.input_mode = InputMode::Editing;
        self.pending_action = Some(PendingAction::CreateFolder { parent: self.curr_dir.clone() });
    }

    /// Leaves text entry: the action and the text are dropped.
    fn leave_editing(&mut self)
        requires
            old(self).wf(),
        ensures
            final(self).wf(),
            final(self)@ == old(self)@.leave_editing(),
    {
        self.input_mode = InputMode::Normal;
        self.pending_action = None;
        self.input = String::new();
    }

    /// Records the outcome of creating the directory `path`.
    pub fn finish_create(&mut self, path: &String, result: Result<(), String>)
        requires
            old(self).wf(),
        ensures
            final(self).wf(),
            final(self)@ == old(self)@.finish_create(path@, unit_view(result)),
    {
        match result {
            Ok(_) => {},
            Err(why) => {
                self.error = Some(failure_message("create", path, &why));
            },
        }
    }

    /// The text of the main panel: the error if there is one, else the preview.
    pub fn panel_text(&self) -> (r: String)
        ensures
            r@ == self@.panel(),
    {
        match &self.error {
            Some(e) => e.clone(),
            None => match &self.preview {
                Some(p) => p.content.clone(),
                None => String::new(),
            },
        }
    }

    /// Applies a key press and returns the outside work it asks for.
    pub fn handle_key(&mut self, key: Key) -> (r: Command)
        requires
            old(self).wf(),
        ensures
            final(self).wf(),
            (final(self)@, r@) == old(self)@.on_key(key),
    {
        match self.input_mode {
            InputMode::Normal => match key {
                Key::Char(c) => {
                    if c == 'q' {
                        Command::Quit
                    } else if c == 'n' {
                        self.new_folder();
                        Command::Nothing
                    } else {
                        Command::Nothing
                    }
                },
                Key::Left => Command::ListParent(parent_path(&self.curr_dir)),
                Key::Down => {
                    self.list.next();
                    Command::Nothing
                },
                Key::Up => {
                    self.list.previous();
                    Command::Nothing
                },
                Key::Enter | Key::Right => match self.list.selected {
                    None => Command::Nothing,
                    Some(i) => {
                        let target = join_path(&self.curr_dir, &self.list.items[i].name);
                        if self.list.items[i].is_dir {
                            Command::ListChild(target)
                        } else {
                            Command::ReadFile(target)
                        }
                    },
                },
                _ => Command::Nothing,
            },
            InputMode::Editing => match key {
                Key::Enter => {
                    let target = match &self.pending_action {
                        Some(PendingAction::CreateFolder { parent }) => Some(
                            join_path(parent, &self.input),
                        ),
                        None => None,
                    };
                    self.leave_editing();
                    match target {
                        Some(p) => Command::CreateDir(p),
                        None => Command::Nothing,
                    }
                },
                Key::Char(c) => {
                    self.input.push(c);
                    Command::Nothing
                },
                Key::Backspace => {
                    self.input.pop();
                    Command::Nothing
                },
                Key::Esc => {
                    self.leave_editing();
                    Command::Nothing
                },
                _ => Command::Nothing,
            },
        }
    }
}

} // verus!
