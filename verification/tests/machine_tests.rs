use server_helper::keys::{Command, Key, KeyInput, KeyKind};
use server_helper::listing::{Child, DirectoryContents, Entry};
use server_helper::machine::{Action, App, AppState, Operation, Pending, Resolution};
use server_helper::menu::{InstallItem, InstantOp};
use server_helper::selection::Selection;

const ROOT: &str = "/home/u/Documents/ServerBackups";

fn press(key: Key) -> KeyInput {
    KeyInput { key, kind: KeyKind::Press }
}

fn fresh() -> App {
    App::new(ROOT.to_string())
}

fn at_line(line: usize) -> App {
    let mut app = fresh();
    for _ in 0..line {
        assert_eq!(app.handle_key(press(Key::Down)), Action::Continue);
    }
    assert_eq!(app.menu.selected(), Some(line));
    app
}

fn backups() -> DirectoryContents {
    DirectoryContents {
        path: ROOT.to_string(),
        parent: Some("/home/u/Documents".to_string()),
        children: vec![
            Child { path: format!("{}/b.xml", ROOT), name: "b.xml".to_string(), is_dir: false },
            Child { path: format!("{}/a.xml", ROOT), name: "a.xml".to_string(), is_dir: false },
            Child { path: format!("{}/sub2", ROOT), name: "sub2".to_string(), is_dir: true },
            Child { path: format!("{}/sub1", ROOT), name: "sub1".to_string(), is_dir: true },
            Child { path: format!("{}/notes.txt", ROOT), name: "notes.txt".to_string(), is_dir: false },
        ],
    }
}

fn browsing() -> App {
    let mut app = at_line(5);
    assert_eq!(app.handle_key(press(Key::Enter)), Action::List(ROOT.to_string()));
    app.load_directory(&backups());
    assert_eq!(app.state, AppState::FileBrowser);
    app
}

#[test]
fn the_dashboard_starts_in_the_menu_on_its_first_line() {
    let app = fresh();
    assert_eq!(app.state, AppState::Menu);
    assert_eq!(app.menu.selected(), Some(0));
    assert_eq!(app.default_dir, ROOT);
    assert_eq!(app.current_dir, ROOT);
    assert_eq!(app.parent_dir, None);
    assert!(app.dir_entries.is_empty());
    assert_eq!(app.browser.selected(), None);
    assert_eq!(app.selected_file, None);
    assert_eq!(app.pending, Pending::Nothing);
}

#[test]
fn up_on_the_first_menu_line_wraps_to_the_last() {
    let mut app = fresh();
    assert_eq!(app.handle_key(press(Key::Up)), Action::Continue);
    assert_eq!(app.menu.selected(), Some(6));
    assert_eq!(app.state, AppState::Menu);
}

#[test]
fn down_on_the_last_menu_line_wraps_to_the_first() {
    let mut app = at_line(6);
    assert_eq!(app.handle_key(press(Key::Down)), Action::Continue);
    assert_eq!(app.menu.selected(), Some(0));
}

#[test]
fn next_and_previous_move_the_menu_cursor() {
    let mut app = fresh();
    app.next();
    assert_eq!(app.menu.selected(), Some(1));
    app.previous();
    app.previous();
    assert_eq!(app.menu.selected(), Some(6));
    app.next();
    assert_eq!(app.menu.selected(), Some(0));
}

#[test]
fn letters_move_the_menu_cursor_too() {
    let mut app = fresh();
    app.handle_key(press(Key::Char('j')));
    assert_eq!(app.menu.selected(), Some(1));
    app.handle_key(press(Key::Char('k')));
    assert_eq!(app.menu.selected(), Some(0));
}

#[test]
fn confirming_install_shows_the_waiting_screen_then_runs_then_shows_the_result() {
    let mut app = at_line(1);
    assert_eq!(app.handle_key(press(Key::Enter)), Action::Continue);
    assert_eq!(app.state, AppState::Installing(InstallItem::Winget));
    assert_eq!(app.pending, Pending::Nothing);
    assert_eq!(app.tick(), Action::Run(Operation::Install(InstallItem::Winget)));
    assert_eq!(app.state, AppState::Installing(InstallItem::Winget));
    app.complete(true, "Winget installed successfully!".to_string());
    assert_eq!(
        app.state,
        AppState::Result { success: true, message: "Winget installed successfully!".to_string() }
    );
    assert_eq!(app.pending, Pending::Nothing);
}

#[test]
fn confirming_the_other_install_names_the_other_item() {
    let mut app = at_line(3);
    assert_eq!(app.handle_key(press(Key::Enter)), Action::Continue);
    assert_eq!(app.state, AppState::Installing(InstallItem::NetBird));
    assert_eq!(app.tick(), Action::Run(Operation::Install(InstallItem::NetBird)));
    app.complete(false, "Failed to run winget: not found".to_string());
    assert_eq!(
        app.state,
        AppState::Result { success: false, message: "Failed to run winget: not found".to_string() }
    );
}

#[test]
fn an_installation_is_asked_for_once() {
    let mut app = at_line(1);
    app.handle_key(press(Key::Enter));
    assert_eq!(app.tick(), Action::Run(Operation::Install(InstallItem::Winget)));
    assert_eq!(app.tick(), Action::Continue);
    assert_eq!(app.tick(), Action::Continue);
    assert_eq!(app.state, AppState::Installing(InstallItem::Winget));
}

#[test]
fn the_waiting_screens_absorb_every_key() {
    let keys = [
        Key::Up,
        Key::Down,
        Key::Enter,
        Key::Esc,
        Key::Backspace,
        Key::Char('q'),
        Key::Char('j'),
        Key::Other,
    ];
    let mut installing = at_line(1);
    installing.handle_key(press(Key::Enter));
    let mut restoring = fresh();
    restoring.state = AppState::Restoring;
    restoring.selected_file = Some("/r/a.xml".to_string());
    for mut app in [installing, restoring] {
        let before = app.clone();
        for key in keys {
            assert_eq!(app.handle_key(press(key)), Action::Continue);
            assert_eq!(app, before);
        }
        app.tick();
        let waiting = app.clone();
        for key in keys {
            assert_eq!(app.handle_key(press(key)), Action::Continue);
            assert_eq!(app, waiting);
        }
    }
}

#[test]
fn a_directory_that_arrives_on_a_waiting_screen_is_ignored() {
    let mut app = at_line(1);
    app.handle_key(press(Key::Enter));
    let before = app.clone();
    app.load_directory(&backups());
    assert_eq!(app, before);
}

#[test]
fn instant_checks_run_at_once_and_show_their_result() {
    let cases = [
        (0, InstantOp::CheckWinget),
        (2, InstantOp::CheckNetBird),
        (4, InstantOp::Backup),
    ];
    for (line, op) in cases {
        let mut app = at_line(line);
        assert_eq!(app.handle_key(press(Key::Enter)), Action::Run(Operation::Instant(op)));
        assert_eq!(app.state, AppState::Menu);
        assert_eq!(app.pending, Pending::Outcome);
        app.complete(false, "Winget is not installed".to_string());
        assert_eq!(
            app.state,
            AppState::Result { success: false, message: "Winget is not installed".to_string() }
        );
        assert_eq!(app.pending, Pending::Nothing);
    }
}

#[test]
fn keys_are_absorbed_while_a_result_is_awaited() {
    let mut app = at_line(0);
    app.handle_key(press(Key::Enter));
    let waiting = app.clone();
    assert_eq!(app.handle_key(press(Key::Enter)), Action::Continue);
    assert_eq!(app.handle_key(press(Key::Char('q'))), Action::Continue);
    assert_eq!(app.handle_key(press(Key::Down)), Action::Continue);
    assert_eq!(app.tick(), Action::Continue);
    assert_eq!(app, waiting);
}

#[test]
fn a_result_that_nobody_awaits_is_ignored() {
    let mut app = fresh();
    let before = app.clone();
    app.complete(true, "stray".to_string());
    assert_eq!(app, before);
    let mut app = browsing();
    let before = app.clone();
    app.complete(true, "stray".to_string());
    assert_eq!(app, before);
}

#[test]
fn a_directory_that_nobody_awaits_is_ignored() {
    let mut app = fresh();
    let before = app.clone();
    app.load_directory(&backups());
    assert_eq!(app, before);
}

#[test]
fn the_exit_line_and_the_quit_key_end_the_interaction() {
    let mut app = at_line(6);
    let before = app.clone();
    assert_eq!(app.handle_key(press(Key::Enter)), Action::Exit);
    assert_eq!(app, before);
    let mut app = at_line(2);
    assert_eq!(app.handle_key(press(Key::Char('q'))), Action::Exit);
}

#[test]
fn escape_does_nothing_in_the_menu() {
    let mut app = at_line(2);
    let before = app.clone();
    assert_eq!(app.handle_key(press(Key::Esc)), Action::Continue);
    assert_eq!(app.handle_key(press(Key::Backspace)), Action::Continue);
    assert_eq!(app.handle_key(press(Key::Other)), Action::Continue);
    assert_eq!(app, before);
}

#[test]
fn a_tick_does_nothing_on_interactive_screens() {
    let mut app = fresh();
    let before = app.clone();
    assert_eq!(app.tick(), Action::Continue);
    assert_eq!(app, before);
    let mut app = browsing();
    let before = app.clone();
    assert_eq!(app.tick(), Action::Continue);
    assert_eq!(app, before);
}

#[test]
fn acknowledging_a_result_returns_to_the_menu() {
    for key in [Key::Enter, Key::Esc, Key::Char('q')] {
        let mut app = at_line(4);
        app.handle_key(press(Key::Enter));
        app.complete(true, "done".to_string());
        assert_eq!(app.handle_key(press(key)), Action::Continue);
        assert_eq!(app.state, AppState::Menu);
        assert_eq!(app.menu.selected(), Some(4));
    }
}

#[test]
fn other_keys_leave_the_result_on_screen() {
    let mut app = at_line(4);
    app.handle_key(press(Key::Enter));
    app.complete(true, "done".to_string());
    let before = app.clone();
    for key in [Key::Up, Key::Down, Key::Backspace, Key::Char('x'), Key::Other] {
        assert_eq!(app.handle_key(press(key)), Action::Continue);
        assert_eq!(app, before);
    }
}

#[test]
fn opening_the_browser_lists_the_default_directory() {
    let mut app = at_line(5);
    assert_eq!(app.handle_key(press(Key::Enter)), Action::List(ROOT.to_string()));
    assert_eq!(app.state, AppState::Menu);
    assert_eq!(app.pending, Pending::Listing);
    app.load_directory(&backups());
    assert_eq!(app.state, AppState::FileBrowser);
    assert_eq!(app.pending, Pending::Nothing);
    assert_eq!(app.current_dir, ROOT);
    assert_eq!(app.parent_dir, Some("/home/u/Documents".to_string()));
    assert_eq!(
        app.dir_entries,
        vec![
            Entry::Parent,
            Entry::Directory { path: format!("{}/sub1", ROOT), name: "sub1".to_string() },
            Entry::Directory { path: format!("{}/sub2", ROOT), name: "sub2".to_string() },
            Entry::File { path: format!("{}/a.xml", ROOT), name: "a.xml".to_string() },
            Entry::File { path: format!("{}/b.xml", ROOT), name: "b.xml".to_string() },
        ]
    );
    assert_eq!(app.browser.selected(), Some(0));
}

#[test]
fn opening_the_browser_forgets_the_file_chosen_before() {
    let mut app = at_line(5);
    app.selected_file = Some("/old/a.xml".to_string());
    app.handle_key(press(Key::Enter));
    assert_eq!(app.selected_file, None);
}

#[test]
fn opening_the_browser_again_starts_from_the_default_directory() {
    let mut app = browsing();
    app.handle_key(press(Key::Down));
    assert_eq!(app.handle_key(press(Key::Enter)), Action::List(format!("{}/sub1", ROOT)));
    app.load_directory(&DirectoryContents {
        path: format!("{}/sub1", ROOT),
        parent: Some(ROOT.to_string()),
        children: vec![],
    });
    assert_eq!(app.current_dir, format!("{}/sub1", ROOT));
    app.handle_key(press(Key::Esc));
    assert_eq!(app.state, AppState::Menu);
    assert_eq!(app.handle_key(press(Key::Enter)), Action::List(ROOT.to_string()));
}

#[test]
fn an_unreadable_directory_gives_an_empty_browser_without_selection() {
    let mut app = at_line(5);
    app.handle_key(press(Key::Enter));
    app.load_directory(&DirectoryContents { path: "/".to_string(), parent: None, children: vec![] });
    assert_eq!(app.state, AppState::FileBrowser);
    assert!(app.dir_entries.is_empty());
    assert_eq!(app.browser.selected(), None);
    assert_eq!(app.handle_key(press(Key::Down)), Action::Continue);
    assert_eq!(app.browser.selected(), None);
    assert_eq!(app.handle_key(press(Key::Up)), Action::Continue);
    assert_eq!(app.browser.selected(), None);
    assert_eq!(app.handle_key(press(Key::Enter)), Action::Continue);
    assert_eq!(app.handle_key(press(Key::Backspace)), Action::Continue);
    assert_eq!(app.state, AppState::FileBrowser);
}

#[test]
fn the_browser_cursor_wraps() {
    let mut app = browsing();
    assert_eq!(app.handle_key(press(Key::Up)), Action::Continue);
    assert_eq!(app.browser.selected(), Some(4));
    assert_eq!(app.handle_key(press(Key::Down)), Action::Continue);
    assert_eq!(app.browser.selected(), Some(0));
    app.file_browser_next();
    assert_eq!(app.browser.selected(), Some(1));
    app.file_browser_previous();
    assert_eq!(app.browser.selected(), Some(0));
}

#[test]
fn selecting_a_file_records_it_and_starts_the_restore() {
    let mut app = browsing();
    for _ in 0..3 {
        app.handle_key(press(Key::Down));
    }
    assert_eq!(app.file_browser_select(), Resolution::Chosen(format!("{}/a.xml", ROOT)));
    assert_eq!(app.handle_key(press(Key::Enter)), Action::Continue);
    assert_eq!(app.state, AppState::Restoring);
    assert_eq!(app.selected_file, Some(format!("{}/a.xml", ROOT)));
    assert_eq!(app.pending, Pending::Nothing);
    assert_eq!(app.tick(), Action::Run(Operation::Restore(format!("{}/a.xml", ROOT))));
    assert_eq!(app.state, AppState::Restoring);
    assert_eq!(app.tick(), Action::Continue);
    app.complete(true, "Server Roles and Features restoration completed!".to_string());
    assert_eq!(
        app.state,
        AppState::Result {
            success: true,
            message: "Server Roles and Features restoration completed!".to_string()
        }
    );
}

#[test]
fn selecting_a_directory_lists_it_and_stays_in_the_browser() {
    let mut app = browsing();
    app.handle_key(press(Key::Down));
    app.handle_key(press(Key::Down));
    assert_eq!(app.file_browser_select(), Resolution::Navigate(format!("{}/sub2", ROOT)));
    assert_eq!(app.handle_key(press(Key::Enter)), Action::List(format!("{}/sub2", ROOT)));
    assert_eq!(app.state, AppState::FileBrowser);
    assert_eq!(app.selected_file, None);
    app.load_directory(&DirectoryContents {
        path: format!("{}/sub2", ROOT),
        parent: Some(ROOT.to_string()),
        children: vec![Child {
            path: format!("{}/sub2/old.xml", ROOT),
            name: "old.xml".to_string(),
            is_dir: false,
        }],
    });
    assert_eq!(app.state, AppState::FileBrowser);
    assert_eq!(app.current_dir, format!("{}/sub2", ROOT));
    assert_eq!(app.parent_dir, Some(ROOT.to_string()));
    assert_eq!(
        app.dir_entries,
        vec![
            Entry::Parent,
            Entry::File { path: format!("{}/sub2/old.xml", ROOT), name: "old.xml".to_string() },
        ]
    );
    assert_eq!(app.browser.selected(), Some(0));
}

#[test]
fn selecting_the_parent_entry_lists_the_parent() {
    let mut app = browsing();
    assert_eq!(app.file_browser_select(), Resolution::Navigate("/home/u/Documents".to_string()));
    assert_eq!(app.handle_key(press(Key::Enter)), Action::List("/home/u/Documents".to_string()));
    assert_eq!(app.pending, Pending::Listing);
    assert_eq!(app.state, AppState::FileBrowser);
}

#[test]
fn backspace_lists_the_parent() {
    let mut app = browsing();
    app.handle_key(press(Key::Down));
    assert_eq!(app.handle_key(press(Key::Backspace)), Action::List("/home/u/Documents".to_string()));
    assert_eq!(app.pending, Pending::Listing);
    app.load_directory(&DirectoryContents {
        path: "/home/u/Documents".to_string(),
        parent: Some("/home/u".to_string()),
        children: vec![Child { path: ROOT.to_string(), name: "ServerBackups".to_string(), is_dir: true }],
    });
    assert_eq!(app.current_dir, "/home/u/Documents");
    assert_eq!(
        app.dir_entries,
        vec![
            Entry::Parent,
            Entry::Directory { path: ROOT.to_string(), name: "ServerBackups".to_string() },
        ]
    );
    assert_eq!(app.browser.selected(), Some(0));
}

#[test]
fn escape_and_q_leave_the_browser_for_the_menu() {
    for key in [Key::Esc, Key::Char('q')] {
        let mut app = browsing();
        assert_eq!(app.handle_key(press(key)), Action::Continue);
        assert_eq!(app.state, AppState::Menu);
        assert_eq!(app.menu.selected(), Some(5));
    }
}

#[test]
fn a_selection_beyond_the_entries_resolves_to_nothing() {
    let mut app = browsing();
    app.browser = Selection { index: Some(17) };
    assert_eq!(app.file_browser_select(), Resolution::Nothing);
    let before = app.clone();
    assert_eq!(app.handle_key(press(Key::Enter)), Action::Continue);
    assert_eq!(app, before);
    app.browser = Selection { index: None };
    assert_eq!(app.file_browser_select(), Resolution::Nothing);
}

#[test]
fn restoring_without_a_selected_file_fails_on_the_spot() {
    let mut app = fresh();
    app.state = AppState::Restoring;
    app.selected_file = None;
    assert_eq!(app.tick(), Action::Continue);
    assert_eq!(
        app.state,
        AppState::Result { success: false, message: "no file selected".to_string() }
    );
    assert_eq!(app.pending, Pending::Nothing);
    assert_eq!(app.handle_key(press(Key::Enter)), Action::Continue);
    assert_eq!(app.state, AppState::Menu);
}

#[test]
fn handle_command_takes_commands_directly() {
    let mut app = fresh();
    assert_eq!(app.handle_command(Command::Down), Action::Continue);
    assert_eq!(app.menu.selected(), Some(1));
    assert_eq!(app.handle_command(Command::Nothing), Action::Continue);
    assert_eq!(app.menu.selected(), Some(1));
    assert_eq!(app.handle_command(Command::Quit), Action::Exit);
}

#[test]
fn confirming_with_no_menu_line_selected_does_nothing() {
    let mut app = fresh();
    app.menu = Selection { index: None };
    let before = app.clone();
    assert_eq!(app.handle_key(press(Key::Enter)), Action::Continue);
    assert_eq!(app, before);
    app.menu = Selection { index: Some(12) };
    let before = app.clone();
    assert_eq!(app.handle_key(press(Key::Enter)), Action::Continue);
    assert_eq!(app, before);
}

#[test]
fn key_repeats_and_releases_change_nothing() {
    let mut app = fresh();
    let before = app.clone();
    for kind in [KeyKind::Repeat, KeyKind::Release] {
        for key in [Key::Down, Key::Enter, Key::Char('q')] {
            assert_eq!(app.handle_key(KeyInput { key, kind }), Action::Continue);
            assert_eq!(app, before);
        }
    }
}
