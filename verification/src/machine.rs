//! The application state machine.
//!
//! The machine owns the menu cursor, the file browser and the current screen
//! state. It never performs an operation itself: a transition returns an
//! [`Action`], the driver performs it and hands the result back, with
//! [`App::complete`] for an operation and [`App::load_directory`] for a
//! directory that was read. While the machine waits for such a result it
//! absorbs keys and ticks, so no two operations ever overlap.

use crate::keys::{classify, command_of, Command, KeyInput};
use crate::listing::{
    distinct_paths, entry_views, in_listing_order, lemma_listing_is_ordered,
    lemma_listing_is_strictly_ordered, lemma_listing_shows_only_backups, list, listing,
    only_backup_files, strictly_ascending, DirectoryContents, DirectoryView, Entry, EntryView,
};
use crate::menu::{dispatch, dispatch_of, Dispatch, InstallItem, InstantOp, MENU_LEN};
use crate::selection::{first_index, fits, next_index, previous_index, Selection};
use crate::text::text_view;
use vstd::prelude::*;

verus! {

/// The screen state of the dashboard.
#[derive(Clone, Debug, PartialEq, Eq)]
pub enum AppState {
    /// The menu is shown and its cursor is live.
    Menu,
    /// The waiting screen of an installation; the next tick runs it.
    Installing(InstallItem),
    /// The file browser is shown and its cursor is live.
    FileBrowser,
    /// The waiting screen of a restore; the next tick runs it.
    Restoring,
    /// The result of an operation, until it is acknowledged.
    Result { success: bool, message: String },
}

/// An operation that the driver runs for the machine.
#[derive(Clone, Debug, PartialEq, Eq)]
pub enum Operation {
    /// A status check or the backup, started from the menu.
    Instant(InstantOp),
    /// A blocking installation.
    Install(InstallItem),
    /// A blocking restore from the backup file at this path.
    Restore(String),
}

/// What the driver has to do after a transition.
#[derive(Clone, Debug, PartialEq, Eq)]
pub enum Action {
    /// Nothing: draw the next frame and go on.
    Continue,
    /// Leave the interaction loop.
    Exit,
    /// Run the operation, then hand its result to [`App::complete`].
    Run(Operation),
    /// Read the directory at this path, then hand what was read to
    /// [`App::load_directory`].
    List(String),
}

/// What the machine is waiting for from the driver.
#[derive(Clone, Copy, Debug, PartialEq, Eq)]
pub enum Pending {
    /// Nothing: keys and ticks are interpreted.
    Nothing,
    /// The result of an operation.
    Outcome,
    /// The contents of a directory.
    Listing,
}

/// What confirming the selected line of the file browser comes to.
#[derive(Clone, Debug, PartialEq, Eq)]
pub enum Resolution {
    /// Nothing is selected, or the way up leads nowhere.
    Nothing,
    /// Navigate to the directory at this path and list it.
    Navigate(String),
    /// The file at this path is chosen.
    Chosen(String),
}

/// The dashboard: the screen state, the two cursors and the browser's model.
#[derive(Clone, Debug, PartialEq, Eq)]
pub struct App {
    /// The current screen state.
    pub state: AppState,
    /// The cursor of the menu.
    pub menu: Selection,
    /// The directory on which the file browser opens.
    pub default_dir: String,
    /// The directory that the file browser shows.
    pub current_dir: String,
    /// The parent of that directory, if the host knows one.
    pub parent_dir: Option<String>,
    /// The lines of the file browser.
    pub dir_entries: Vec<Entry>,
    /// The cursor of the file browser.
    pub browser: Selection,
    /// The backup file that was chosen in the browser, if any.
    pub selected_file: Option<String>,
    /// What the machine is waiting for.
    pub pending: Pending,
}

/// The screen state, as contracts see it.
pub enum AppStateView {
    Menu,
    Installing(InstallItem),
    FileBrowser,
    Restoring,
    Result { success: bool, message: Seq<char> },
}

/// An operation, as contracts see it.
pub enum OperationView {
    Instant(InstantOp),
    Install(InstallItem),
    Restore(Seq<char>),
}

/// An action, as contracts see it.
pub enum ActionView {
    Continue,
    Exit,
    Run(OperationView),
    List(Seq<char>),
}

/// A resolution, as contracts see it.
pub enum ResolutionView {
    Nothing,
    Navigate(Seq<char>),
    Chosen(Seq<char>),
}

/// The dashboard, as contracts see it: the model on which the transitions
/// are defined.
pub struct AppView {
    pub state: AppStateView,
    pub menu: Option<nat>,
    pub default_dir: Seq<char>,
    pub current_dir: Seq<char>,
    pub parent_dir: Option<Seq<char>>,
    pub dir_entries: Seq<EntryView>,
    pub browser: Option<nat>,
    pub selected_file: Option<Seq<char>>,
    pub pending: Pending,
}

impl View for AppState {
    type V = AppStateView;

    open spec fn view(&self) -> AppStateView {
        match *self {
            AppState::Menu => AppStateView::Menu,
            AppState::Installing(item) => AppStateView::Installing(item),
            AppState::FileBrowser => AppStateView::FileBrowser,
            AppState::Restoring => AppStateView::Restoring,
            AppState::Result { success, message } => AppStateView::Result {
                success,
                message: message@,
            },
        }
    }
}

impl View for Operation {
    type V = OperationView;

    open spec fn view(&self) -> OperationView {
        match *self {
            Operation::Instant(op) => OperationView::Instant(op),
            Operation::Install(item) => OperationView::Install(item),
            Operation::Restore(path) => OperationView::Restore(path@),
        }
    }
}

impl View for Action {
    type V = ActionView;

    open spec fn view(&self) -> ActionView {
        match *self {
            Action::Continue => ActionView::Continue,
            Action::Exit => ActionView::Exit,
            Action::Run(operation) => ActionView::Run(operation@),
            Action::List(path) => ActionView::List(path@),
        }
    }
}

impl View for Resolution {
    type V = ResolutionView;

    open spec fn view(&self) -> ResolutionView {
        match *self {
            Resolution::Nothing => ResolutionView::Nothing,
            Resolution::Navigate(path) => ResolutionView::Navigate(path@),
            Resolution::Chosen(path) => ResolutionView::Chosen(path@),
        }
    }
}

impl View for App {
    type V = AppView;

    open spec fn view(&self) -> AppView {
        AppView {
            state: self.state@,
            menu: self.menu@,
            default_dir: self.default_dir@,
            current_dir: self.current_dir@,
            parent_dir: text_view(self.parent_dir),
            dir_entries: entry_views(self.dir_entries@),
            browser: self.browser@,
            selected_file: text_view(self.selected_file),
            pending: self.pending,
        }
    }
}

/// The message of the result that a restore without a chosen file gives.
pub open spec fn no_file_selected() -> Seq<char> {
    "no file selected"@
}

impl AppView {
    /// The state in which the dashboard starts: the menu with its first line
    /// selected, an empty browser on the default directory, nothing chosen and
    /// nothing awaited.
    pub open spec fn initial(default_dir: Seq<char>) -> AppView {
        AppView {
            state: AppStateView::Menu,
            menu: Some(0nat),
            default_dir,
            current_dir: default_dir,
            parent_dir: None,
            dir_entries: Seq::empty(),
            browser: None,
            selected_file: None,
            pending: Pending::Nothing,
        }
    }

    /// The machine is busy: it shows a waiting screen.
    pub open spec fn is_busy(self) -> bool {
        self.state is Installing || self.state is Restoring
    }

    /// What every state reached from the initial one satisfies: the menu
    /// cursor is on a line of the menu; the browser cursor is on a line of the
    /// browser, or on none when the browser is empty; the lines of the browser
    /// are in listing order and hold no file but backup files; a restore has
    /// its file; and a result is awaited only where one was asked for.
    pub open spec fn wf(self) -> bool {
        &&& self.menu is Some
        &&& fits(self.menu, MENU_LEN as nat)
        &&& fits(self.browser, self.dir_entries.len())
        &&& in_listing_order(self.dir_entries)
        &&& only_backup_files(self.dir_entries)
        &&& self.state is Restoring ==> self.selected_file is Some
        &&& self.pending is Listing ==> self.state is Menu || self.state is FileBrowser
        &&& self.pending is Outcome ==> self.state is Menu || self.is_busy()
    }

    /// What confirming the selected line of the file browser comes to: the
    /// parent entry leads to the parent directory, a directory to itself, and
    /// a file is chosen.
    pub open spec fn resolution(self) -> ResolutionView {
        match self.browser {
            Some(i) => if i < self.dir_entries.len() {
                match self.dir_entries[i as int] {
                    EntryView::Parent => match self.parent_dir {
                        Some(parent) => ResolutionView::Navigate(parent),
                        None => ResolutionView::Nothing,
                    },
                    EntryView::Directory { path, .. } => ResolutionView::Navigate(path),
                    EntryView::File { path, .. } => ResolutionView::Chosen(path),
                }
            } else {
                ResolutionView::Nothing
            },
            None => ResolutionView::Nothing,
        }
    }

    /// A command in the menu.
    pub open spec fn menu_command(self, command: Command) -> (AppView, ActionView) {
        match command {
            Command::Up => (
                AppView { menu: previous_index(self.menu, MENU_LEN as nat), ..self },
                ActionView::Continue,
            ),
            Command::Down => (
                AppView { menu: next_index(self.menu, MENU_LEN as nat), ..self },
                ActionView::Continue,
            ),
            Command::Confirm => match self.menu {
                Some(i) => match dispatch_of(i) {
                    Some(Dispatch::InstantCheck(op)) => (
                        AppView { pending: Pending::Outcome, ..self },
                        ActionView::Run(OperationView::Instant(op)),
                    ),
                    Some(Dispatch::LongRunning(item)) => (
                        AppView { state: AppStateView::Installing(item), ..self },
                        ActionView::Continue,
                    ),
                    Some(Dispatch::OpenBrowser) => (
                        AppView { pending: Pending::Listing, selected_file: None, ..self },
                        ActionView::List(self.default_dir),
                    ),
                    Some(Dispatch::Exit) => (self, ActionView::Exit),
                    None => (self, ActionView::Continue),
                },
                None => (self, ActionView::Continue),
            },
            Command::Quit => (self, ActionView::Exit),
            _ => (self, ActionView::Continue),
        }
    }

    /// A command in the file browser.
    pub open spec fn browser_command(self, command: Command) -> (AppView, ActionView) {
        match command {
            Command::Up => (
                AppView { browser: previous_index(self.browser, self.dir_entries.len()), ..self },
                ActionView::Continue,
            ),
            Command::Down => (
                AppView { browser: next_index(self.browser, self.dir_entries.len()), ..self },
                ActionView::Continue,
            ),
            Command::Confirm => match self.resolution() {
                ResolutionView::Chosen(path) => (
                    AppView { state: AppStateView::Restoring, selected_file: Some(path), ..self },
                    ActionView::Continue,
                ),
                ResolutionView::Navigate(path) => (
                    AppView { pending: Pending::Listing, ..self },
                    ActionView::List(path),
                ),
                ResolutionView::Nothing => (self, ActionView::Continue),
            },
            Command::Backspace => match self.parent_dir {
                Some(parent) => (
                    AppView { pending: Pending::Listing, ..self },
                    ActionView::List(parent),
                ),
                None => (self, ActionView::Continue),
            },
            Command::Cancel | Command::Quit => (
                AppView { state: AppStateView::Menu, ..self },
                ActionView::Continue,
            ),
            Command::Nothing => (self, ActionView::Continue),
        }
    }

    /// A command on the result screen: any acknowledgement returns to the menu.
    pub open spec fn result_command(self, command: Command) -> (AppView, ActionView) {
        match command {
            Command::Confirm | Command::Cancel | Command::Quit => (
                AppView { state: AppStateView::Menu, ..self },
                ActionView::Continue,
            ),
            _ => (self, ActionView::Continue),
        }
    }

    /// The transition on a command: the state after it and the action it asks
    /// for. While a result is awaited, and on the two waiting screens, every
    /// command is absorbed.
    pub open spec fn on_command(self, command: Command) -> (AppView, ActionView) {
        if !(self.pending is Nothing) {
            (self, ActionView::Continue)
        } else {
            match self.state {
                AppStateView::Menu => self.menu_command(command),
                AppStateView::FileBrowser => self.browser_command(command),
                AppStateView::Result { .. } => self.result_command(command),
                AppStateView::Installing(_) => (self, ActionView::Continue),
                AppStateView::Restoring => (self, ActionView::Continue),
            }
        }
    }

    /// The transition on a key event.
    pub open spec fn on_key(self, input: KeyInput) -> (AppView, ActionView) {
        self.on_command(command_of(input))
    }

    /// The transition on a scheduler tick, after the current screen was drawn.
    /// A waiting screen starts its operation, once; a restore without a
    /// chosen file fails on the spot.
    pub open spec fn on_tick(self) -> (AppView, ActionView) {
        if !(self.pending is Nothing) {
            (self, ActionView::Continue)
        } else {
            match self.state {
                AppStateView::Installing(item) => (
                    AppView { pending: Pending::Outcome, ..self },
                    ActionView::Run(OperationView::Install(item)),
                ),
                AppStateView::Restoring => match self.selected_file {
                    Some(path) => (
                        AppView { pending: Pending::Outcome, ..self },
                        ActionView::Run(OperationView::Restore(path)),
                    ),
                    None => (
                        AppView {
                            state: AppStateView::Result {
                                success: false,
                                message: no_file_selected(),
                            },
                            ..self
                        },
                        ActionView::Continue,
                    ),
                },
                _ => (self, ActionView::Continue),
            }
        }
    }

    /// The transition on the result of an operation: if one is awaited, it is
    /// shown as it came.
    pub open spec fn on_outcome(self, success: bool, message: Seq<char>) -> AppView {
        if self.pending is Outcome {
            AppView {
                state: AppStateView::Result { success, message },
                pending: Pending::Nothing,
                ..self
            }
        } else {
            self
        }
    }

    /// The transition on the contents of a directory: if they are awaited,
    /// the browser is rebuilt from them and shown, with its first line
    /// selected.
    pub open spec fn on_listing(self, dir: DirectoryView) -> AppView {
        if self.pending is Listing && (self.state is Menu || self.state is FileBrowser) {
            AppView {
                state: AppStateView::FileBrowser,
                current_dir: dir.path,
                parent_dir: dir.parent,
                dir_entries: listing(dir),
                browser: first_index(listing(dir).len()),
                pending: Pending::Nothing,
                ..self
            }
        } else {
            self
        }
    }
}

/// The screen state without its payload, for dispatching on it.
#[derive(Clone, Copy, Debug, PartialEq, Eq)]
enum Phase {
    Menu,
    Installing(InstallItem),
    FileBrowser,
    Restoring,
    Result,
}

impl App {
    /// The dashboard in its initial state, with the directory on which the
    /// file browser opens.
    pub fn new(default_dir: String) -> (app: App)
        ensures
            app@ == AppView::initial(default_dir@),
            app@.wf(),
    {
        let current_dir = default_dir.clone();
        let app = App {
            state: AppState::Menu,
            menu: Selection { index: Some(0) },
            default_dir,
            current_dir,
            parent_dir: None,
            dir_entries: Vec::new(),
            browser: Selection { index: None },
            selected_file: None,
            pending: Pending::Nothing,
        };
        assert(app@.dir_entries =~= Seq::<EntryView>::empty());
        app
    }

    fn phase(&self) -> (phase: Phase)
        ensures
            match phase {
                Phase::Menu => self@.state is Menu,
                Phase::Installing(item) => self@.state == AppStateView::Installing(item),
                Phase::FileBrowser => self@.state is FileBrowser,
                Phase::Restoring => self@.state is Restoring,
                Phase::Result => self@.state is Result,
            },
    {
        match &self.state {
            AppState::Menu => Phase::Menu,
            AppState::Installing(item) => Phase::Installing(*item),
            AppState::FileBrowser => Phase::FileBrowser,
            AppState::Restoring => Phase::Restoring,
            AppState::Result { .. } => Phase::Result,
        }
    }

    /// Moves the menu cursor down by one line, wrapping at the end.
    pub fn next(&mut self)
        ensures
            final(self)@ == (AppView {
                menu: next_index(old(self)@.menu, MENU_LEN as nat),
                ..old(self)@
            }),
    {
        self.menu.select_next(MENU_LEN);
    }

    /// Moves the menu cursor up by one line, wrapping at the start.
    pub fn previous(&mut self)
        ensures
            final(self)@ == (AppView {
                menu: previous_index(old(self)@.menu, MENU_LEN as nat),
                ..old(self)@
            }),
    {
        self.menu.select_previous(MENU_LEN);
    }

    /// Moves the browser cursor down by one line, wrapping at the end. In an
    /// empty browser nothing is selected.
    pub fn file_browser_next(&mut self)
        ensures
            final(self)@ == (AppView {
                browser: next_index(old(self)@.browser, old(self)@.dir_entries.len()),
                ..old(self)@
            }),
    {
        let len = self.dir_entries.len();
        self.browser.select_next(len);
    }

    /// Moves the browser cursor up by one line, wrapping at the start. In an
    /// empty browser nothing is selected.
    pub fn file_browser_previous(&mut self)
        ensures
            final(self)@ == (AppView {
                browser: previous_index(old(self)@.browser, old(self)@.dir_entries.len()),
                ..old(self)@
            }),
    {
        let len = self.dir_entries.len();
        self.browser.select_previous(len);
    }

    /// Resolves the selected line of the file browser: where to navigate, or
    /// which file is chosen.
    pub fn file_browser_select(&self) -> (resolution: Resolution)
        ensures
            resolution@ == self@.resolution(),
    {
        match self.browser.selected() {
            Some(i) => {
                if i < self.dir_entries.len() {
                    assert(self@.dir_entries[i as int] == self.dir_entries@[i as int]@);
                    match &self.dir_entries[i] {
                        Entry::Parent => match &self.parent_dir {
                            Some(parent) => Resolution::Navigate(parent.clone()),
                            None => Resolution::Nothing,
                        },
                        Entry::Directory { path, .. } => Resolution::Navigate(path.clone()),
                        Entry::File { path, .. } => Resolution::Chosen(path.clone()),
                    }
                } else {
                    Resolution::Nothing
                }
            },
            None => Resolution::Nothing,
        }
    }

    fn menu_command(&mut self, command: Command) -> (action: Action)
        ensures
            final(self)@ == old(self)@.menu_command(command).0,
            action@ == old(self)@.menu_command(command).1,
    {
        match command {
            Command::Up => {
                self.previous();
                Action::Continue
            },
            Command::Down => {
                self.next();
                Action::Continue
            },
            Command::Confirm => match self.menu.selected() {
                Some(i) => match dispatch(i) {
                    Some(Dispatch::InstantCheck(op)) => {
                        self.pending = Pending::Outcome;
                        Action::Run(Operation::Instant(op))
                    },
                    Some(Dispatch::LongRunning(item)) => {
                        self.state = AppState::Installing(item);
                        Action::Continue
                    },
                    Some(Dispatch::OpenBrowser) => {
                        self.pending = Pending::Listing;
                        self.selected_file = None;
                        Action::List(self.default_dir.clone())
                    },
                    Some(Dispatch::Exit) => Action::Exit,
                    None => Action::Continue,
                },
                None => Action::Continue,
            },
            Command::Quit => Action::Exit,
            _ => Action::Continue,
        }
    }

    fn browser_command(&mut self, command: Command) -> (action: Action)
        ensures
            final(self)@ == old(self)@.browser_command(command).0,
            action@ == old(self)@.browser_command(command).1,
    {
        match command {
            Command::Up => {
                self.file_browser_previous();
                Action::Continue
            },
            Command::Down => {
                self.file_browser_next();
                Action::Continue
            },
            Command::Confirm => match self.file_browser_select() {
                Resolution::Chosen(path) => {
                    self.selected_file = Some(path);
                    self.state = AppState::Restoring;
                    Action::Continue
                },
                Resolution::Navigate(path) => {
                    self.pending = Pending::Listing;
                    Action::List(path)
                },
                Resolution::Nothing => Action::Continue,
            },
            Command::Backspace => {
                let parent = match &self.parent_dir {
                    Some(parent) => Some(parent.clone()),
                    None => None,
                };
                match parent {
                    Some(parent) => {
                        self.pending = Pending::Listing;
                        Action::List(parent)
                    },
                    None => Action::Continue,
                }
            },
            Command::Cancel | Command::Quit => {
                self.state = AppState::Menu;
                Action::Continue
            },
            Command::Nothing => Action::Continue,
        }
    }

    fn result_command(&mut self, command: Command) -> (action: Action)
        ensures
            final(self)@ == old(self)@.result_command(command).0,
            action@ == old(self)@.result_command(command).1,
    {
        match command {
            Command::Confirm | Command::Cancel | Command::Quit => {
                self.state = AppState::Menu;
                Action::Continue
            },
            _ => Action::Continue,
        }
    }

    /// Interprets a command in the current state and says what the driver
    /// has to do.
    pub fn handle_command(&mut self, command: Command) -> (action: Action)
        ensures
            final(self)@ == old(self)@.on_command(command).0,
            action@ == old(self)@.on_command(command).1,
            old(self)@.wf() ==> final(self)@.wf(),
            old(self)@.is_busy() ==> final(self)@ == old(self)@ && action@ is Continue,
    {
        proof {
            if self@.wf() {
                lemma_command_keeps_wf(self@, command);
            }
        }
        match self.pending {
            Pending::Nothing => {},
            _ => {
                return Action::Continue;
            },
        }
        match self.phase() {
            Phase::Menu => self.menu_command(command),
            Phase::FileBrowser => self.browser_command(command),
            Phase::Result => self.result_command(command),
            Phase::Installing(_) => Action::Continue,
            Phase::Restoring => Action::Continue,
        }
    }

    /// Interprets a key event in the current state and says what the driver
    /// has to do. Only key presses are acted on.
    pub fn handle_key(&mut self, input: KeyInput) -> (action: Action)
        ensures
            final(self)@ == old(self)@.on_key(input).0,
            action@ == old(self)@.on_key(input).1,
            old(self)@.wf() ==> final(self)@.wf(),
            old(self)@.is_busy() ==> final(self)@ == old(self)@ && action@ is Continue,
    {
        self.handle_command(classify(input))
    }

    /// One scheduler tick, after the current screen was drawn: a waiting
    /// screen starts its operation.
    pub fn tick(&mut self) -> (action: Action)
        ensures
            final(self)@ == old(self)@.on_tick().0,
            action@ == old(self)@.on_tick().1,
            old(self)@.wf() ==> final(self)@.wf(),
            old(self)@.is_busy() ==> final(self)@.state == old(self)@.state
                || final(self)@.state is Result,
    {
        match self.pending {
            Pending::Nothing => {},
            _ => {
                return Action::Continue;
            },
        }
        match self.phase() {
            Phase::Installing(item) => {
                self.pending = Pending::Outcome;
                Action::Run(Operation::Install(item))
            },
            Phase::Restoring => {
                let chosen = match &self.selected_file {
                    Some(path) => Some(path.clone()),
                    None => None,
                };
                match chosen {
                    Some(path) => {
                        self.pending = Pending::Outcome;
                        Action::Run(Operation::Restore(path))
                    },
                    None => {
                        self.state = AppState::Result {
                            success: false,
                            message: "no file selected".to_owned(),
                        };
                        Action::Continue
                    },
                }
            },
            _ => Action::Continue,
        }
    }

    /// Takes the result of the operation that the driver ran: it is shown
    /// unchanged on the result screen. Where no result is awaited, nothing
    /// happens.
    pub fn complete(&mut self, success: bool, message: String)
        ensures
            final(self)@ == old(self)@.on_outcome(success, message@),
            old(self)@.wf() ==> final(self)@.wf(),
            old(self)@.is_busy() ==> final(self)@.state == old(self)@.state
                || final(self)@.state is Result,
    {
        match self.pending {
            Pending::Outcome => {
                self.state = AppState::Result { success, message };
                self.pending = Pending::Nothing;
            },
            _ => {},
        }
    }

    /// Takes what the driver read of a directory and rebuilds the file
    /// browser from it: the listing, with its first line selected. Where no
    /// directory is awaited, nothing happens.
    pub fn load_directory(&mut self, contents: &DirectoryContents)
        ensures
            final(self)@ == old(self)@.on_listing(contents@),
            old(self)@.wf() ==> final(self)@.wf(),
            old(self)@.is_busy() ==> final(self)@ == old(self)@,
            final(self)@ != old(self)@ ==> in_listing_order(final(self)@.dir_entries)
                && only_backup_files(final(self)@.dir_entries),
            final(self)@ != old(self)@ && distinct_paths(contents@.children) ==> strictly_ascending(
                final(self)@.dir_entries,
            ),
    {
        match self.pending {
            Pending::Listing => {},
            _ => {
                return ;
            },
        }
        match self.phase() {
            Phase::Menu | Phase::FileBrowser => {
                let entries = list(contents);
                self.browser = Selection::first(entries.len());
                self.dir_entries = entries;
                self.current_dir = contents.path.clone();
                self.parent_dir = match &contents.parent {
                    Some(parent) => Some(parent.clone()),
                    None => None,
                };
                self.state = AppState::FileBrowser;
                self.pending = Pending::Nothing;
            },
            _ => {},
        }
    }
}

/// A command leads from a well-formed state to a well-formed state.
pub proof fn lemma_command_keeps_wf(app: AppView, command: Command)
    requires
        app.wf(),
    ensures
        app.on_command(command).0.wf(),
{
}

/// A tick, a result and a directory lead from a well-formed state to a
/// well-formed state.
pub proof fn lemma_responses_keep_wf(
    app: AppView,
    success: bool,
    message: Seq<char>,
    dir: DirectoryView,
)
    requires
        app.wf(),
    ensures
        app.on_tick().0.wf(),
        app.on_outcome(success, message).wf(),
        app.on_listing(dir).wf(),
{
    lemma_listing_is_ordered(dir);
    lemma_listing_shows_only_backups(dir);
}

/// No input escapes a waiting screen: on the installation screen and on the
/// restore screen every command is absorbed, and whatever else happens leaves
/// the state as it is or leads to the result screen.
pub proof fn lemma_waiting_screens_lead_to_result(
    app: AppView,
    command: Command,
    success: bool,
    message: Seq<char>,
    dir: DirectoryView,
)
    requires
        app.is_busy(),
    ensures
        app.on_command(command) == (app, ActionView::Continue),
        app.on_tick().0.state == app.state || app.on_tick().0.state is Result,
        app.on_outcome(success, message).state == app.state || app.on_outcome(
            success,
            message,
        ).state is Result,
        app.on_listing(dir) == app,
{
}

/// A waiting screen runs its operation once: the first tick asks for it, no
/// tick or command asks for anything while the result is awaited, and the
/// result leads to the result screen, which shows it as it came.
pub proof fn lemma_waiting_screen_runs_once(
    app: AppView,
    command: Command,
    success: bool,
    message: Seq<char>,
)
    requires
        app.wf(),
        app.is_busy(),
        app.pending is Nothing,
    ensures
        app.on_tick().1 is Run,
        app.state matches AppStateView::Installing(item) ==> app.on_tick().1 == ActionView::Run(
            OperationView::Install(item),
        ),
        app.state is Restoring ==> app.on_tick().1 == ActionView::Run(
            OperationView::Restore(app.selected_file->0),
        ),
        app.on_tick().0 == (AppView { pending: Pending::Outcome, ..app }),
        app.on_tick().0.on_tick() == (app.on_tick().0, ActionView::Continue),
        app.on_tick().0.on_command(command) == (app.on_tick().0, ActionView::Continue),
        app.on_tick().0.on_outcome(success, message) == (AppView {
            state: AppStateView::Result { success, message },
            ..app
        }),
{
}

/// A command that stands for nothing changes nothing, in any state.
pub proof fn lemma_unrecognized_keys_do_nothing(app: AppView)
    ensures
        app.on_command(Command::Nothing) == (app, ActionView::Continue),
{
}

/// Only the menu ends the interaction: on its last line, or on the quit key.
pub proof fn lemma_exit_only_from_menu(app: AppView, command: Command)
    requires
        app.on_command(command).1 is Exit,
    ensures
        app.state is Menu,
        app.pending is Nothing,
        command is Quit || (command is Confirm && app.menu == Some(6nat)),
        app.on_command(command).0 == app,
        app.on_tick().1 !is Exit,
{
}

/// The chosen file is set only by confirming a file in the browser, and
/// forgotten only by opening the browser from the menu. Ticks, results and
/// directories leave it alone.
pub proof fn lemma_selected_file_changes(
    app: AppView,
    command: Command,
    success: bool,
    message: Seq<char>,
    dir: DirectoryView,
)
    ensures
        app.on_command(command).0.selected_file != app.selected_file ==> {
            ||| app.state is FileBrowser && command is Confirm && app.resolution() is Chosen
                && app.on_command(command).0.selected_file == Some(app.resolution()->Chosen_0)
            ||| app.state is Menu && command is Confirm && app.on_command(command).1 is List
                && app.on_command(command).0.selected_file is None
        },
        app.on_tick().0.selected_file == app.selected_file,
        app.on_outcome(success, message).selected_file == app.selected_file,
        app.on_listing(dir).selected_file == app.selected_file,
{
}

/// The browser's model is rebuilt as a whole from a directory that was read,
/// and changed by nothing else; the default directory never changes.
pub proof fn lemma_browser_model_changes_only_on_listing(
    app: AppView,
    command: Command,
    success: bool,
    message: Seq<char>,
    dir: DirectoryView,
)
    ensures
        app.on_command(command).0.current_dir == app.current_dir,
        app.on_command(command).0.parent_dir == app.parent_dir,
        app.on_command(command).0.dir_entries == app.dir_entries,
        app.on_tick().0.current_dir == app.current_dir,
        app.on_tick().0.parent_dir == app.parent_dir,
        app.on_tick().0.dir_entries == app.dir_entries,
        app.on_outcome(success, message).current_dir == app.current_dir,
        app.on_outcome(success, message).parent_dir == app.parent_dir,
        app.on_outcome(success, message).dir_entries == app.dir_entries,
        app.on_listing(dir) != app ==> app.on_listing(dir).dir_entries == listing(dir)
            && app.on_listing(dir).current_dir == dir.path && app.on_listing(dir).parent_dir
            == dir.parent,
        app.on_command(command).0.default_dir == app.default_dir,
        app.on_tick().0.default_dir == app.default_dir,
        app.on_outcome(success, message).default_dir == app.default_dir,
        app.on_listing(dir).default_dir == app.default_dir,
{
}

/// Whatever the machine asks the driver to list is the default directory, a
/// directory of the browser, or the parent of the directory shown.
pub proof fn lemma_only_known_directories_are_listed(app: AppView, command: Command)
    requires
        app.on_command(command).1 is List,
    ensures
        ({
            let path = app.on_command(command).1->List_0;
            ||| app.state is Menu && path == app.default_dir
            ||| app.state is FileBrowser && app.parent_dir == Some(path)
            ||| app.state is FileBrowser && exists|i: int|
                0 <= i < app.dir_entries.len() && #[trigger] app.dir_entries[i] is Directory
                    && app.dir_entries[i].path() == path
        }),
        app.on_command(command).0.pending is Listing,
{
    if app.state is FileBrowser && command is Confirm {
        let i = app.browser->0 as int;
        if app.dir_entries[i] is Directory {
            assert(app.dir_entries[i].path() == app.on_command(command).1->List_0);
        }
    }
}

/// Confirming a file in the live browser records its path as the chosen file
/// and leads to the restore screen. The browser's model stays as it is, and
/// the driver is asked for nothing: the restore runs on a later tick.
pub proof fn lemma_confirming_a_file_starts_the_restore(app: AppView, i: nat)
    requires
        app.state is FileBrowser,
        app.pending is Nothing,
        app.browser == Some(i),
        i < app.dir_entries.len(),
        app.dir_entries[i as int] is File,
    ensures
        app.on_command(Command::Confirm) == (
            AppView {
                state: AppStateView::Restoring,
                selected_file: Some(app.dir_entries[i as int].path()),
                ..app
            },
            ActionView::Continue,
        ),
{
}

/// Confirming a directory in the live browser asks the driver to list it and
/// changes nothing else. With what the driver read handed over, the browser
/// shows the directory that was read, its listing and the cursor on the first
/// line of it, or on none where the listing is empty; the screen stays the
/// browser, and the chosen file, the menu cursor and the default directory
/// stay as they were.
pub proof fn lemma_confirming_a_directory_lists_it(app: AppView, i: nat, dir: DirectoryView)
    requires
        app.state is FileBrowser,
        app.pending is Nothing,
        app.browser == Some(i),
        i < app.dir_entries.len(),
        app.dir_entries[i as int] is Directory,
    ensures
        app.on_command(Command::Confirm) == (
            AppView { pending: Pending::Listing, ..app },
            ActionView::List(app.dir_entries[i as int].path()),
        ),
        app.on_command(Command::Confirm).0.on_listing(dir) == (AppView {
            current_dir: dir.path,
            parent_dir: dir.parent,
            dir_entries: listing(dir),
            browser: first_index(listing(dir).len()),
            ..app
        }),
        in_listing_order(listing(dir)),
        only_backup_files(listing(dir)),
{
    lemma_listing_is_ordered(dir);
    lemma_listing_shows_only_backups(dir);
}

/// Going up from the live browser, by the parent entry or by the backspace
/// key, asks the driver to list the parent of the directory shown, and the
/// listing that comes back is installed like any other.
pub proof fn lemma_going_up_lists_the_parent(app: AppView, command: Command, dir: DirectoryView)
    requires
        app.state is FileBrowser,
        app.pending is Nothing,
        app.parent_dir is Some,
        command is Backspace || (command is Confirm && app.browser is Some && app.browser->0
            < app.dir_entries.len() && app.dir_entries[app.browser->0 as int] is Parent),
    ensures
        app.on_command(command) == (
            AppView { pending: Pending::Listing, ..app },
            ActionView::List(app.parent_dir->0),
        ),
        app.on_command(command).0.on_listing(dir) == (AppView {
            current_dir: dir.path,
            parent_dir: dir.parent,
            dir_entries: listing(dir),
            browser: first_index(listing(dir).len()),
            ..app
        }),
{
}

} // verus!
