//! The view projection: from the state of the dashboard to a description of
//! the screen that shows it. Nothing here changes the state, and nothing
//! paints: the driver turns the description into widgets and colours.

use crate::listing::{Entry, EntryView};
use crate::machine::{App, AppState, AppStateView, AppView};
use crate::menu::{label_of, menu_label, InstallItem, MENU_LEN};
use vstd::prelude::*;
use vstd::string::StringExecFns;

verus! {

/// The mood of a screen, from which the driver picks its colours.
#[derive(Clone, Copy, Debug, PartialEq, Eq)]
pub enum Tone {
    /// An interactive screen.
    Plain,
    /// A waiting screen.
    Waiting,
    /// The result of an operation that succeeded.
    Success,
    /// The result of an operation that failed.
    Failure,
}

/// What a line of a list stands for.
#[derive(Clone, Copy, Debug, PartialEq, Eq)]
pub enum LineKind {
    /// A line of the menu.
    Item,
    /// A directory of the file browser, the way up included.
    Directory,
    /// A file of the file browser.
    File,
}

/// One line of a list.
#[derive(Clone, Debug, PartialEq, Eq)]
pub struct Line {
    pub kind: LineKind,
    pub text: String,
}

/// The body of a screen.
#[derive(Clone, Debug, PartialEq, Eq)]
pub enum Body {
    /// A list with its highlighted line, if any.
    List { lines: Vec<Line>, selected: Option<usize> },
    /// A text.
    Text(String),
}

/// The description of a screen.
#[derive(Clone, Debug, PartialEq, Eq)]
pub struct Screen {
    pub title: String,
    pub body: Body,
    pub hint: String,
    pub tone: Tone,
}

/// A line, as contracts see it.
pub struct LineView {
    pub kind: LineKind,
    pub text: Seq<char>,
}

/// A body, as contracts see it.
pub enum BodyView {
    List { lines: Seq<LineView>, selected: Option<nat> },
    Text(Seq<char>),
}

/// The description of a screen, as contracts see it.
pub struct ScreenView {
    pub title: Seq<char>,
    pub body: BodyView,
    pub hint: Seq<char>,
    pub tone: Tone,
}

impl View for Line {
    type V = LineView;

    open spec fn view(&self) -> LineView {
        LineView { kind: self.kind, text: self.text@ }
    }
}

/// The views of a sequence of lines.
pub open spec fn line_views(lines: Seq<Line>) -> Seq<LineView> {
    lines.map_values(|line: Line| line@)
}

impl View for Body {
    type V = BodyView;

    open spec fn view(&self) -> BodyView {
        match *self {
            Body::List { lines, selected } => BodyView::List {
                lines: line_views(lines@),
                selected: match selected {
                    Some(i) => Some(i as nat),
                    None => None,
                },
            },
            Body::Text(text) => BodyView::Text(text@),
        }
    }
}

impl View for Screen {
    type V = ScreenView;

    open spec fn view(&self) -> ScreenView {
        ScreenView { title: self.title@, body: self.body@, hint: self.hint@, tone: self.tone }
    }
}

/// The mark that stands before a directory of the file browser.
pub open spec fn directory_mark() -> Seq<char> {
    "\u{1F4C1} "@
}

/// The mark that stands before a file of the file browser.
pub open spec fn file_mark() -> Seq<char> {
    "\u{1F4C4} "@
}

/// The line that shows an entry of the file browser: its mark, then its name;
/// the way up is shown as two dots.
pub open spec fn line_of(entry: EntryView) -> LineView {
    match entry {
        EntryView::Parent => LineView { kind: LineKind::Directory, text: directory_mark() + ".."@ },
        EntryView::Directory { name, .. } => LineView {
            kind: LineKind::Directory,
            text: directory_mark() + name,
        },
        EntryView::File { name, .. } => LineView { kind: LineKind::File, text: file_mark() + name },
    }
}

/// The lines of the menu.
pub open spec fn menu_lines() -> Seq<LineView> {
    Seq::new(MENU_LEN as nat, |i: int| LineView { kind: LineKind::Item, text: label_of(i as nat) })
}

/// The text of the waiting screen of an installation.
pub open spec fn installing_text(item: InstallItem) -> Seq<char> {
    match item {
        InstallItem::Winget => "Installing Winget... Please wait."@,
        InstallItem::NetBird => "Installing NetBird... Please wait."@,
    }
}

/// The screen that shows a state.
pub open spec fn screen_of(app: AppView) -> ScreenView {
    match app.state {
        AppStateView::Menu => ScreenView {
            title: " Menu "@,
            body: BodyView::List { lines: menu_lines(), selected: app.menu },
            hint: "\u{2191}/\u{2193}: Navigate | Enter: Select | q: Quit"@,
            tone: Tone::Plain,
        },
        AppStateView::Installing(item) => ScreenView {
            title: " Installing "@,
            body: BodyView::Text(installing_text(item)),
            hint: "Please wait..."@,
            tone: Tone::Waiting,
        },
        AppStateView::FileBrowser => ScreenView {
            title: " Select Backup File - "@ + app.current_dir + " "@,
            body: BodyView::List {
                lines: app.dir_entries.map_values(|entry: EntryView| line_of(entry)),
                selected: app.browser,
            },
            hint: "\u{2191}/\u{2193}: Navigate | Enter: Select/Open | Backspace: Parent | Esc: Cancel"@,
            tone: Tone::Plain,
        },
        AppStateView::Restoring => ScreenView {
            title: " Restoring "@,
            body: BodyView::Text(
                "Restoring Server Roles and Features...\n\nThis may take several minutes."@,
            ),
            hint: "Please wait..."@,
            tone: Tone::Waiting,
        },
        AppStateView::Result { success, message } => ScreenView {
            title: if success {
                " Success "@
            } else {
                " Error "@
            },
            body: BodyView::Text(message),
            hint: "Press Enter or Esc to return to menu"@,
            tone: if success {
                Tone::Success
            } else {
                Tone::Failure
            },
        },
    }
}

/// The line that shows an entry of the file browser.
fn line_for(entry: &Entry) -> (line: Line)
    ensures
        line@ == line_of(entry@),
{
    match entry {
        Entry::Parent => {
            let mut text = "\u{1F4C1} ".to_owned();
            text.append("..");
            Line { kind: LineKind::Directory, text }
        },
        Entry::Directory { name, .. } => {
            let mut text = "\u{1F4C1} ".to_owned();
            text.append(name.as_str());
            Line { kind: LineKind::Directory, text }
        },
        Entry::File { name, .. } => {
            let mut text = "\u{1F4C4} ".to_owned();
            text.append(name.as_str());
            Line { kind: LineKind::File, text }
        },
    }
}

/// The lines of the menu.
fn menu_body() -> (lines: Vec<Line>)
    ensures
        line_views(lines@) == menu_lines(),
{
    let mut lines: Vec<Line> = Vec::new();
    let mut i: usize = 0;
    while i < MENU_LEN
        invariant
            i <= MENU_LEN,
            lines.len() == i,
            forall|k: int|
                0 <= k < i ==> (#[trigger] lines@[k])@ == (LineView {
                    kind: LineKind::Item,
                    text: label_of(k as nat),
                }),
        decreases MENU_LEN - i,
    {
        match menu_label(i) {
            Some(label) => {
                lines.push(Line { kind: LineKind::Item, text: label.to_owned() });
            },
            None => {},
        }
        i = i + 1;
    }
    assert(line_views(lines@) =~= menu_lines());
    lines
}

/// The lines of the file browser.
fn browser_body(entries: &Vec<Entry>) -> (lines: Vec<Line>)
    ensures
        line_views(lines@) == crate::listing::entry_views(entries@).map_values(
            |entry: EntryView| line_of(entry),
        ),
{
    let mut lines: Vec<Line> = Vec::new();
    let mut i: usize = 0;
    while i < entries.len()
        invariant
            i <= entries.len(),
            lines.len() == i,
            forall|k: int| 0 <= k < i ==> (#[trigger] lines@[k])@ == line_of(entries@[k]@),
        decreases entries.len() - i,
    {
        lines.push(line_for(&entries[i]));
        i = i + 1;
    }
    assert(line_views(lines@) =~= crate::listing::entry_views(entries@).map_values(
        |entry: EntryView| line_of(entry),
    ));
    lines
}

/// Describes the screen that shows the current state.
pub fn ui(app: &App) -> (screen: Screen)
    ensures
        screen@ == screen_of(app@),
{
    match &app.state {
        AppState::Menu => Screen {
            title: " Menu ".to_owned(),
            body: Body::List { lines: menu_body(), selected: app.menu.selected() },
            hint: "\u{2191}/\u{2193}: Navigate | Enter: Select | q: Quit".to_owned(),
            tone: Tone::Plain,
        },
        AppState::Installing(item) => {
            let text = match item {
                InstallItem::Winget => "Installing Winget... Please wait.",
                InstallItem::NetBird => "Installing NetBird... Please wait.",
            };
            Screen {
                title: " Installing ".to_owned(),
                body: Body::Text(text.to_owned()),
                hint: "Please wait...".to_owned(),
                tone: Tone::Waiting,
            }
        },
        AppState::FileBrowser => {
            let mut title = " Select Backup File - ".to_owned();
            title.append(app.current_dir.as_str());
            title.append(" ");
            Screen {
                title,
                body: Body::List {
                    lines: browser_body(&app.dir_entries),
                    selected: app.browser.selected(),
                },
                hint: "\u{2191}/\u{2193}: Navigate | Enter: Select/Open | Backspace: Parent | Esc: Cancel".to_owned(),
                tone: Tone::Plain,
            }
        },
        AppState::Restoring => Screen {
            title: " Restoring ".to_owned(),
            body: Body::Text(
                "Restoring Server Roles and Features...\n\nThis may take several minutes.".to_owned(),
            ),
            hint: "Please wait...".to_owned(),
            tone: Tone::Waiting,
        },
        AppState::Result { success, message } => {
            let title = if *success {
                " Success "
            } else {
                " Error "
            };
            let tone = if *success {
                Tone::Success
            } else {
                Tone::Failure
            };
            Screen {
                title: title.to_owned(),
                body: Body::Text(message.clone()),
                hint: "Press Enter or Esc to return to menu".to_owned(),
                tone,
            }
        },
    }
}

/// The result screen shows the message of the operation word for word, and
/// frames it by whether the operation succeeded.
pub proof fn lemma_result_is_shown_verbatim(app: AppView, success: bool, message: Seq<char>)
    requires
        app.state == (AppStateView::Result { success, message }),
    ensures
        screen_of(app).body == BodyView::Text(message),
        screen_of(app).tone == if success {
            Tone::Success
        } else {
            Tone::Failure
        },
{
}

/// What a screen shows depends on the state alone, and of the state only on
/// what that screen is about: the menu screen on the menu cursor, the browser
/// screen on the browser's model, the result screen on the result.
pub proof fn lemma_screen_depends_on_its_state_only(a: AppView, b: AppView)
    requires
        a.state == b.state,
        a.state is Menu ==> a.menu == b.menu,
        a.state is FileBrowser ==> a.current_dir == b.current_dir && a.dir_entries == b.dir_entries
            && a.browser == b.browser,
    ensures
        screen_of(a) == screen_of(b),
{
}

} // verus!
