//! The state of the application and how commands change it.
//!
//! The application shows one directory at a time as a listing with a
//! cursor, and it takes keys in one of two modes. It never touches the disk
//! itself. Where a command needs the disk, the application answers with an
//! `Action` that says what is to be done there, and what was found is handed
//! back to the operation that goes on from it.

use crate::entry::{FileListing, FileListingView};
use crate::events::Event;
use crate::keys::{command_for, key_command, Command, Key};
use crate::listing::{
    entries_view, lemma_listing_shape, list_of_dir, listing_of, parent_or_self, scan_fits,
    scan_view, well_listed, DirectoryScan, DirectoryScanView,
};
use crate::mode::{AppMode, InputType};
use crate::permissions::{permission_bits, string_to_permissions};
use crate::stateful_list::{index_after_next, index_after_previous, StatefulList};
use vstd::prelude::*;

verus! {

/// A change of permissions that is to be made on disk.
#[derive(Debug, PartialEq, Eq)]
pub struct PermissionChange {
    pub path: String,
    pub mode: u16,
}

/// What a `PermissionChange` stands for.
pub struct PermissionChangeView {
    pub path: Seq<char>,
    pub mode: u16,
}

impl View for PermissionChange {
    type V = PermissionChangeView;

    open spec fn view(&self) -> PermissionChangeView {
        PermissionChangeView { path: self.path@, mode: self.mode }
    }
}

/// A copy that is to be made on disk: the file at `target` is created, or
/// emptied if it is there, and the contents of the file at `source` are
/// written to it, or nothing where there is no source.
#[derive(Debug, PartialEq, Eq)]
pub struct CopyPlan {
    pub source: Option<String>,
    pub target: String,
}

/// What a `CopyPlan` stands for.
pub struct CopyPlanView {
    pub source: Option<Seq<char>>,
    pub target: Seq<char>,
}

impl View for CopyPlan {
    type V = CopyPlanView;

    open spec fn view(&self) -> CopyPlanView {
        CopyPlanView {
            source: match self.source {
                Some(path) => Some(path@),
                None => None,
            },
            target: self.target@,
        }
    }
}

/// What is to be done after a command.
#[derive(Debug, PartialEq, Eq)]
pub enum Action {
    /// Nothing but to go on.
    Continue,
    /// Leave.
    Quit,
    /// Look at the directory at this path and hand what is found, with the
    /// path, to `App::change_dir`.
    ChangeDirectory(String),
    /// Find out whether this path is a directory and ask
    /// `App::copy_selected` what to write.
    CopyTo(String),
    /// Make this change of permissions.
    SetPermissions(PermissionChange),
}

/// What an `Action` stands for.
pub enum ActionView {
    Continue,
    Quit,
    ChangeDirectory(Seq<char>),
    CopyTo(Seq<char>),
    SetPermissions(PermissionChangeView),
}

impl View for Action {
    type V = ActionView;

    open spec fn view(&self) -> ActionView {
        match *self {
            Action::Continue => ActionView::Continue,
            Action::Quit => ActionView::Quit,
            Action::ChangeDirectory(path) => ActionView::ChangeDirectory(path@),
            Action::CopyTo(target) => ActionView::CopyTo(target@),
            Action::SetPermissions(change) => ActionView::SetPermissions(change@),
        }
    }
}

/// The state of the application.
pub struct App {
    user_input: String,
    mode: AppMode,
    current_directory: String,
    dir_list: StatefulList<(FileListing, usize)>,
}

/// What an `App` stands for: the text collected so far, the mode, the
/// directory shown, its listing, and the position of the cursor in it.
pub struct AppView {
    pub user_input: Seq<char>,
    pub mode: AppMode,
    pub current_directory: Seq<char>,
    pub entries: Seq<(FileListingView, usize)>,
    pub selected: Option<usize>,
}

impl AppView {
    /// What holds of every state of the application: no text is held while
    /// navigating, the entries are a listing, and the cursor stands on one
    /// of them or nowhere.
    pub open spec fn well_formed(self) -> bool {
        &&& self.mode == AppMode::Nav ==> self.user_input.len() == 0
        &&& well_listed(self.entries)
        &&& self.selected matches Some(i) ==> i < self.entries.len()
    }

    /// The entry under the cursor.
    pub open spec fn selected_entry(self) -> Option<FileListingView> {
        match self.selected {
            Some(i) => if i < self.entries.len() {
                Some(self.entries[i as int].0)
            } else {
                None
            },
            None => None,
        }
    }

    /// The path of the entry under the cursor, where that is a directory.
    pub open spec fn selected_directory(self) -> Option<Seq<char>> {
        match self.selected_entry() {
            Some(entry) => if entry.is_directory {
                Some(entry.path)
            } else {
                None
            },
            None => None,
        }
    }

    /// The path of the entry under the cursor, where that is a file.
    pub open spec fn selected_file(self) -> Option<Seq<char>> {
        match self.selected_entry() {
            Some(entry) => if entry.is_directory {
                None
            } else {
                Some(entry.path)
            },
            None => None,
        }
    }

    /// The state after the directory shown has become `path` and its
    /// listing `entries`: nothing is selected in the new listing.
    pub open spec fn after_change_dir(
        self,
        path: Seq<char>,
        entries: Seq<(FileListingView, usize)>,
    ) -> AppView {
        AppView { current_directory: path, entries, selected: None, ..self }
    }

    /// The change of permissions that `text` asks for: one for the selected
    /// file, where a file is selected and the text is a permission text.
    pub open spec fn permission_change(self, text: Seq<char>) -> Option<PermissionChangeView> {
        match (self.selected_file(), permission_bits(text)) {
            (Some(path), Some(mode)) => Some(PermissionChangeView { path, mode }),
            _ => None,
        }
    }

    /// The copy that a target asks for: none where the target is a
    /// directory; else one from the selected file, or from nothing where no
    /// file is selected.
    pub open spec fn copy_plan(self, target: Seq<char>, target_is_directory: bool) -> Option<
        CopyPlanView,
    > {
        if target_is_directory {
            None
        } else {
            Some(CopyPlanView { source: self.selected_file(), target })
        }
    }

    /// What is to be done with a confirmed text that was collected for
    /// `kind`.
    pub open spec fn dispatch(self, kind: InputType, text: Seq<char>) -> ActionView {
        match kind {
            InputType::ChangeDir => ActionView::ChangeDirectory(text),
            InputType::CopyFile => ActionView::CopyTo(text),
            InputType::Permission => match self.permission_change(text) {
                Some(change) => ActionView::SetPermissions(change),
                None => ActionView::Continue,
            },
        }
    }

    /// The state after a command.
    pub open spec fn after(self, command: Command) -> AppView {
        match command {
            Command::Quit | Command::Nothing | Command::EnterSelected => self,
            Command::Unselect => AppView { selected: None, ..self },
            Command::Next => AppView {
                selected: index_after_next(self.entries.len(), self.selected),
                ..self
            },
            Command::Previous => AppView {
                selected: index_after_previous(self.entries.len(), self.selected),
                ..self
            },
            Command::BeginInput(kind) => AppView {
                mode: AppMode::Input(kind),
                user_input: Seq::empty(),
                ..self
            },
            Command::Append(ch) => if self.mode is Input {
                AppView { user_input: self.user_input.push(ch), ..self }
            } else {
                self
            },
            Command::Backspace => if self.user_input.len() > 0 {
                AppView { user_input: self.user_input.drop_last(), ..self }
            } else {
                self
            },
            Command::Cancel | Command::Confirm => AppView {
                mode: AppMode::Nav,
                user_input: Seq::empty(),
                ..self
            },
        }
    }

    /// What is to be done after a command.
    pub open spec fn action(self, command: Command) -> ActionView {
        match command {
            Command::Quit => ActionView::Quit,
            Command::EnterSelected => match self.selected_directory() {
                Some(path) => ActionView::ChangeDirectory(path),
                None => ActionView::Continue,
            },
            Command::Confirm => match self.mode {
                AppMode::Input(kind) => self.dispatch(kind, self.user_input),
                AppMode::Nav => ActionView::Continue,
            },
            _ => ActionView::Continue,
        }
    }
}

impl View for App {
    type V = AppView;

    closed spec fn view(&self) -> AppView {
        AppView {
            user_input: self.user_input@,
            mode: self.mode,
            current_directory: self.current_directory@,
            entries: entries_view(self.dir_list.items_view()),
            selected: self.dir_list.selection(),
        }
    }
}

/// What is written by a copy, given what reading the source gave where
/// there was one: what was read, and nothing where there was no source or
/// reading it failed.
pub open spec fn copy_text_of<E>(read: Option<Result<String, E>>) -> Seq<char> {
    match read {
        Some(Ok(text)) => text@,
        _ => Seq::empty(),
    }
}

/// Tells what a copy writes, given what reading the source gave where
/// there was one.
pub fn copy_text<E>(read: Option<Result<String, E>>) -> (text: String)
    ensures
        text@ == copy_text_of(read),
{
    match read {
        Some(Ok(text)) => text,
        _ => String::new(),
    }
}

impl App {
    #[verifier::type_invariant]
    spec fn holds_together(self) -> bool {
        self@.well_formed()
    }

    /// The application as it starts: navigating, with no text, showing the
    /// directory `.` with what was found there.
    pub fn new(scan: Option<DirectoryScan>) -> (app: Self)
        requires
            scan_fits(scan),
        ensures
            app@ == (AppView {
                user_input: Seq::empty(),
                mode: AppMode::Nav,
                current_directory: "."@,
                entries: listing_of(scan_view(scan)),
                selected: None,
            }),
            app@.well_formed(),
    {
        proof {
            lemma_listing_shape(scan_view(scan));
        }
        let dir_list = list_of_dir(scan);
        Self {
            user_input: String::new(),
            mode: AppMode::default(),
            current_directory: String::from_str("."),
            dir_list,
        }
    }

    /// The text collected so far.
    pub fn user_input(&self) -> (text: &str)
        ensures
            text@ == self@.user_input,
            self@.well_formed(),
    {
        proof {
            use_type_invariant(self);
        }
        self.user_input.as_str()
    }

    /// The mode.
    pub fn mode(&self) -> (mode: AppMode)
        ensures
            mode == self@.mode,
            self@.well_formed(),
    {
        proof {
            use_type_invariant(self);
        }
        self.mode
    }

    /// The path of the directory shown.
    pub fn current_directory(&self) -> (path: &str)
        ensures
            path@ == self@.current_directory,
            self@.well_formed(),
    {
        proof {
            use_type_invariant(self);
        }
        self.current_directory.as_str()
    }

    /// The listing of the directory shown, with its cursor.
    pub fn dir_list(&self) -> (list: &StatefulList<(FileListing, usize)>)
        ensures
            entries_view(list.items_view()) == self@.entries,
            list.selection() == self@.selected,
            self@.well_formed(),
    {
        proof {
            use_type_invariant(self);
        }
        &self.dir_list
    }

    /// The entry under the cursor.
    fn selected_listing(&self) -> (entry: Option<&FileListing>)
        ensures
            match entry {
                Some(e) => self@.selected_entry() == Some(e@),
                None => self@.selected_entry().is_none(),
            },
    {
        proof {
            use_type_invariant(self);
        }
        match self.dir_list.grab_selected() {
            Some(pair) => Some(&pair.0),
            None => None,
        }
    }

    /// The path of the selected entry, where that is a directory: the
    /// directory that `enter_selected` goes into.
    pub fn selected_directory(&self) -> (path: Option<String>)
        ensures
            match path {
                Some(p) => self@.selected_directory() == Some(p@),
                None => self@.selected_directory().is_none(),
            },
    {
        match self.selected_listing() {
            Some(entry) => if entry.is_directory {
                Some(entry.path.clone())
            } else {
                None
            },
            None => None,
        }
    }

    /// The path of the selected entry, where that is a file.
    pub fn selected_file(&self) -> (path: Option<String>)
        ensures
            match path {
                Some(p) => self@.selected_file() == Some(p@),
                None => self@.selected_file().is_none(),
            },
    {
        match self.selected_listing() {
            Some(entry) => if entry.is_directory {
                None
            } else {
                Some(entry.path.clone())
            },
            None => None,
        }
    }

    /// Shows the directory at `path`, where `scan` was found. The listing
    /// is new, so nothing is selected in it.
    pub fn change_dir(&mut self, path: String, scan: Option<DirectoryScan>)
        requires
            scan_fits(scan),
        ensures
            final(self)@ == old(self)@.after_change_dir(path@, listing_of(scan_view(scan))),
            final(self)@.well_formed(),
    {
        proof {
            use_type_invariant(&*self);
            lemma_listing_shape(scan_view(scan));
        }
        self.current_directory = path;
        self.dir_list = list_of_dir(scan);
    }

    /// Goes into the selected directory, where `scan` was found. With
    /// nothing selected, or a file, nothing changes.
    pub fn enter_selected(&mut self, scan: Option<DirectoryScan>)
        requires
            scan_fits(scan),
        ensures
            final(self)@ == match old(self)@.selected_directory() {
                Some(path) => old(self)@.after_change_dir(path, listing_of(scan_view(scan))),
                None => old(self)@,
            },
            final(self)@.well_formed(),
    {
        proof {
            use_type_invariant(&*self);
        }
        match self.selected_directory() {
            Some(path) => self.change_dir(path, scan),
            None => {},
        }
    }

    /// Tells what copying the selected entry to `target` writes. A target
    /// that is a directory gets nothing written. Any other target gets the
    /// contents of the selected file, or nothing where no file is selected.
    /// Once the copy is made, the directory shown is to be looked at again
    /// and what is found handed to `change_dir`.
    pub fn copy_selected(&self, target: String, target_is_directory: bool) -> (plan: Option<
        CopyPlan,
    >)
        ensures
            match plan {
                Some(p) => self@.copy_plan(target@, target_is_directory) == Some(p@),
                None => self@.copy_plan(target@, target_is_directory).is_none(),
            },
    {
        if target_is_directory {
            None
        } else {
            Some(CopyPlan { source: self.selected_file(), target })
        }
    }

    /// Tells which change of permissions `new_perms` asks for. With
    /// nothing selected, or a directory, it asks for none; nor does a text
    /// that is no permission text.
    pub fn set_permissions(&self, new_perms: &str) -> (change: Option<PermissionChange>)
        ensures
            match change {
                Some(c) => self@.permission_change(new_perms@) == Some(c@),
                None => self@.permission_change(new_perms@).is_none(),
            },
    {
        match self.selected_file() {
            Some(path) => match string_to_permissions(new_perms) {
                Some(mode) => Some(PermissionChange { path, mode }),
                None => None,
            },
            None => None,
        }
    }

    /// Hands out the listing and leaves an empty one in its place.
    fn take_list(&mut self) -> (list: StatefulList<(FileListing, usize)>)
        ensures
            entries_view(list.items_view()) == old(self)@.entries,
            list.selection() == old(self)@.selected,
            final(self)@ == (AppView { entries: Seq::empty(), selected: None, ..old(self)@ }),
    {
        proof {
            use_type_invariant(&*self);
        }
        let mut list = StatefulList::with_items(Vec::new());
        assert(entries_view(list.items_view()) =~= Seq::empty());
        std::mem::swap(&mut list, &mut self.dir_list);
        list
    }

    /// Hands out the text collected so far and leaves none in its place.
    fn take_text(&mut self) -> (text: String)
        ensures
            text@ == old(self)@.user_input,
            final(self)@ == (AppView { user_input: Seq::empty(), ..old(self)@ }),
    {
        proof {
            use_type_invariant(&*self);
        }
        let mut text = String::new();
        std::mem::swap(&mut text, &mut self.user_input);
        text
    }

    /// Tells what is to be done with a confirmed text that was collected
    /// for `kind`.
    fn dispatch(&self, kind: InputType, text: String) -> (action: Action)
        ensures
            action@ == self@.dispatch(kind, text@),
    {
        match kind {
            InputType::ChangeDir => Action::ChangeDirectory(text),
            InputType::CopyFile => Action::CopyTo(text),
            InputType::Permission => match self.set_permissions(text.as_str()) {
                Some(change) => Action::SetPermissions(change),
                None => Action::Continue,
            },
        }
    }

    /// Carries out a command and tells what is to be done next.
    pub fn apply(&mut self, command: Command) -> (action: Action)
        ensures
            final(self)@ == old(self)@.after(command),
            action@ == old(self)@.action(command),
            final(self)@.well_formed(),
    {
        proof {
            use_type_invariant(&*self);
        }
        match command {
            Command::Quit => Action::Quit,
            Command::Nothing => Action::Continue,
            Command::Unselect => {
                let mut list = self.take_list();
                list.unselect();
                self.dir_list = list;
                Action::Continue
            },
            Command::Next => {
                let mut list = self.take_list();
                list.next();
                self.dir_list = list;
                Action::Continue
            },
            Command::Previous => {
                let mut list = self.take_list();
                list.previous();
                self.dir_list = list;
                Action::Continue
            },
            Command::EnterSelected => match self.selected_directory() {
                Some(path) => Action::ChangeDirectory(path),
                None => Action::Continue,
            },
            Command::BeginInput(kind) => {
                self.user_input = String::new();
                self.mode = AppMode::Input(kind);
                Action::Continue
            },
            Command::Append(ch) => {
                match self.mode {
                    AppMode::Input(_) => {
                        let mut text = self.take_text();
                        text.push(ch);
                        self.user_input = text;
                    },
                    AppMode::Nav => {},
                }
                Action::Continue
            },
            Command::Backspace => {
                let mut text = self.take_text();
                let _ = text.pop();
                self.user_input = text;
                Action::Continue
            },
            Command::Cancel => {
                self.user_input = String::new();
                self.mode = AppMode::Nav;
                Action::Continue
            },
            Command::Confirm => {
                let text = self.take_text();
                match self.mode {
                    AppMode::Input(kind) => {
                        self.mode = AppMode::Nav;
                        self.dispatch(kind, text)
                    },
                    AppMode::Nav => Action::Continue,
                }
            },
        }
    }

    /// Takes a key: it stands for a command in the mode of the
    /// application, and the command is carried out.
    pub fn handle_key(&mut self, key: Key) -> (action: Action)
        ensures
            final(self)@ == old(self)@.after(key_command(old(self)@.mode, key)),
            action@ == old(self)@.action(key_command(old(self)@.mode, key)),
            final(self)@.well_formed(),
    {
        let command = command_for(self.mode(), key);
        self.apply(command)
    }

    /// Takes an event. A key is handled; a tick of the clock changes
    /// nothing.
    pub fn handle_event(&mut self, event: Event<Key>) -> (action: Action)
        ensures
            match event {
                Event::Input(key) => {
                    &&& final(self)@ == old(self)@.after(key_command(old(self)@.mode, key))
                    &&& action@ == old(self)@.action(key_command(old(self)@.mode, key))
                },
                Event::Tick => final(self)@ == old(self)@ && action@ == ActionView::Continue,
            },
            final(self)@.well_formed(),
    {
        proof {
            use_type_invariant(&*self);
        }
        match event {
            Event::Input(key) => self.handle_key(key),
            Event::Tick => Action::Continue,
        }
    }
}

/// A command leaves a well-formed state well formed: the text stays empty
/// while navigating, the listing stays a listing, and the cursor stays on
/// it.
pub proof fn lemma_commands_keep_well_formed(state: AppView, command: Command)
    requires
        state.well_formed(),
    ensures
        state.after(command).well_formed(),
        state.after(command).entries == state.entries,
        state.after(command).current_directory == state.current_directory,
{
    let len = state.entries.len();
    if len > 0 {
        assert(state.entries[len - 1].1 == len - 1);
    }
}

/// Whenever a command changes the mode, no text is held afterwards; and
/// none is held after a command that starts collecting text, cancels or
/// confirms, whether it changes the mode or not.
pub proof fn lemma_mode_isolation(state: AppView, command: Command)
    requires
        state.well_formed(),
    ensures
        state.after(command).mode != state.mode ==> state.after(command).user_input.len() == 0,
        state.after(command).mode == AppMode::Nav ==> state.after(command).user_input.len() == 0,
        command matches Command::BeginInput(kind) ==> state.after(command).mode == AppMode::Input(
            kind,
        ) && state.after(command).user_input.len() == 0,
        command == Command::Cancel || command == Command::Confirm ==> state.after(command).mode
            == AppMode::Nav && state.after(command).user_input.len() == 0,
{
}

/// Showing another directory leaves a well-formed state well formed, puts
/// the cursor nowhere, and touches neither the mode nor the text.
pub proof fn lemma_change_dir_keeps_well_formed(
    state: AppView,
    path: Seq<char>,
    entries: Seq<(FileListingView, usize)>,
)
    requires
        state.well_formed(),
        well_listed(entries),
    ensures
        state.after_change_dir(path, entries).well_formed(),
        state.after_change_dir(path, entries).selected.is_none(),
        state.after_change_dir(path, entries).mode == state.mode,
        state.after_change_dir(path, entries).user_input == state.user_input,
{
}

/// In the listing of a directory the first entry leads to the directory
/// itself and the second to its parent: entering the one shows the
/// directory again, entering the other goes up, or stays at a root.
pub proof fn lemma_dots_lead_here_and_up(state: AppView, scan: DirectoryScanView)
    requires
        state.entries == listing_of(Some(scan)),
        scan.children.len() + 2 <= usize::MAX,
    ensures
        (AppView { selected: Some(0usize), ..state }).action(Command::EnterSelected)
            == ActionView::ChangeDirectory(scan.canonical),
        (AppView { selected: Some(1usize), ..state }).action(Command::EnterSelected)
            == ActionView::ChangeDirectory(parent_or_self(scan.canonical)),
{
}

/// A text that is no permission text asks for no change of permissions,
/// whatever is selected; and with no file selected no text asks for one.
pub proof fn lemma_no_change_without_file_or_text(state: AppView, text: Seq<char>)
    ensures
        text.len() != 9 ==> state.permission_change(text).is_none(),
        state.selected_file().is_none() ==> state.permission_change(text).is_none(),
        text.len() != 9 ==> state.dispatch(InputType::Permission, text) == ActionView::Continue,
{
}

} // verus!
