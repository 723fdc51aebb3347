use server_helper::keys::{Key, KeyInput, KeyKind};
use server_helper::listing::{Child, DirectoryContents};
use server_helper::machine::{App, AppState};
use server_helper::menu::InstallItem;
use server_helper::screen::{ui, Body, Line, LineKind, Screen, Tone};

fn press(key: Key) -> KeyInput {
    KeyInput { key, kind: KeyKind::Press }
}

fn item(text: &str) -> Line {
    Line { kind: LineKind::Item, text: text.to_string() }
}

#[test]
fn the_menu_screen_lists_the_menu_with_its_cursor() {
    let mut app = App::new("/r".to_string());
    app.handle_key(press(Key::Down));
    app.handle_key(press(Key::Down));
    assert_eq!(
        ui(&app),
        Screen {
            title: " Menu ".to_string(),
            body: Body::List {
                lines: vec![
                    item("Check Winget Status"),
                    item("Install Winget"),
                    item("Check NetBird Status"),
                    item("Install NetBird"),
                    item("Backup Server Roles & Features"),
                    item("Restore Server Roles & Features"),
                    item("Exit"),
                ],
                selected: Some(2),
            },
            hint: "\u{2191}/\u{2193}: Navigate | Enter: Select | q: Quit".to_string(),
            tone: Tone::Plain,
        }
    );
}

#[test]
fn the_installing_screen_names_the_item() {
    let mut app = App::new("/r".to_string());
    app.state = AppState::Installing(InstallItem::Winget);
    assert_eq!(
        ui(&app),
        Screen {
            title: " Installing ".to_string(),
            body: Body::Text("Installing Winget... Please wait.".to_string()),
            hint: "Please wait...".to_string(),
            tone: Tone::Waiting,
        }
    );
    app.state = AppState::Installing(InstallItem::NetBird);
    assert_eq!(ui(&app).body, Body::Text("Installing NetBird... Please wait.".to_string()));
}

#[test]
fn the_restoring_screen_asks_to_wait() {
    let mut app = App::new("/r".to_string());
    app.state = AppState::Restoring;
    assert_eq!(
        ui(&app),
        Screen {
            title: " Restoring ".to_string(),
            body: Body::Text(
                "Restoring Server Roles and Features...\n\nThis may take several minutes."
                    .to_string()
            ),
            hint: "Please wait...".to_string(),
            tone: Tone::Waiting,
        }
    );
}

#[test]
fn the_browser_screen_shows_the_directory_and_marks_its_entries() {
    let mut app = App::new("/r".to_string());
    for _ in 0..5 {
        app.handle_key(press(Key::Down));
    }
    app.handle_key(press(Key::Enter));
    app.load_directory(&DirectoryContents {
        path: "/r".to_string(),
        parent: Some("/".to_string()),
        children: vec![
            Child { path: "/r/a.xml".to_string(), name: "a.xml".to_string(), is_dir: false },
            Child { path: "/r/sub".to_string(), name: "sub".to_string(), is_dir: true },
        ],
    });
    app.handle_key(press(Key::Down));
    assert_eq!(
        ui(&app),
        Screen {
            title: " Select Backup File - /r ".to_string(),
            body: Body::List {
                lines: vec![
                    Line { kind: LineKind::Directory, text: "\u{1F4C1} ..".to_string() },
                    Line { kind: LineKind::Directory, text: "\u{1F4C1} sub".to_string() },
                    Line { kind: LineKind::File, text: "\u{1F4C4} a.xml".to_string() },
                ],
                selected: Some(1),
            },
            hint: "\u{2191}/\u{2193}: Navigate | Enter: Select/Open | Backspace: Parent | Esc: Cancel"
                .to_string(),
            tone: Tone::Plain,
        }
    );
}

#[test]
fn an_empty_browser_shows_an_empty_list_without_cursor() {
    let mut app = App::new("/r".to_string());
    app.state = AppState::FileBrowser;
    assert_eq!(ui(&app).body, Body::List { lines: vec![], selected: None });
    assert_eq!(ui(&app).title, " Select Backup File - /r ");
}

#[test]
fn a_success_is_shown_as_success_with_its_message() {
    let mut app = App::new("/r".to_string());
    app.state = AppState::Result { success: true, message: "Winget is installed: v1.6".to_string() };
    assert_eq!(
        ui(&app),
        Screen {
            title: " Success ".to_string(),
            body: Body::Text("Winget is installed: v1.6".to_string()),
            hint: "Press Enter or Esc to return to menu".to_string(),
            tone: Tone::Success,
        }
    );
}

#[test]
fn a_failure_is_shown_as_error_with_its_message() {
    let mut app = App::new("/r".to_string());
    app.state = AppState::Result { success: false, message: "NetBird is not installed".to_string() };
    assert_eq!(
        ui(&app),
        Screen {
            title: " Error ".to_string(),
            body: Body::Text("NetBird is not installed".to_string()),
            hint: "Press Enter or Esc to return to menu".to_string(),
            tone: Tone::Failure,
        }
    );
}

#[test]
fn describing_the_screen_leaves_the_state_alone() {
    let mut app = App::new("/r".to_string());
    app.handle_key(press(Key::Down));
    let before = app.clone();
    let first = ui(&app);
    let second = ui(&app);
    assert_eq!(first, second);
    assert_eq!(app, before);
}
