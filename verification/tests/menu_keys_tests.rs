use server_helper::keys::{classify, Command, Key, KeyInput, KeyKind};
use server_helper::menu::{
    dispatch, menu_items, menu_label, Dispatch, InstallItem, InstantOp, MENU_LEN,
};

fn press(key: Key) -> KeyInput {
    KeyInput { key, kind: KeyKind::Press }
}

#[test]
fn the_menu_has_seven_lines() {
    assert_eq!(MENU_LEN, 7);
    assert_eq!(menu_items().len(), 7);
}

#[test]
fn the_menu_labels_are_in_order() {
    assert_eq!(
        menu_items(),
        vec![
            "Check Winget Status",
            "Install Winget",
            "Check NetBird Status",
            "Install NetBird",
            "Backup Server Roles & Features",
            "Restore Server Roles & Features",
            "Exit",
        ]
    );
}

#[test]
fn menu_label_gives_each_label_and_nothing_beyond() {
    assert_eq!(menu_label(0), Some("Check Winget Status"));
    assert_eq!(menu_label(5), Some("Restore Server Roles & Features"));
    assert_eq!(menu_label(6), Some("Exit"));
    assert_eq!(menu_label(7), None);
    assert_eq!(menu_label(usize::MAX), None);
}

#[test]
fn the_dispatch_table_maps_each_line() {
    assert_eq!(dispatch(0), Some(Dispatch::InstantCheck(InstantOp::CheckWinget)));
    assert_eq!(dispatch(1), Some(Dispatch::LongRunning(InstallItem::Winget)));
    assert_eq!(dispatch(2), Some(Dispatch::InstantCheck(InstantOp::CheckNetBird)));
    assert_eq!(dispatch(3), Some(Dispatch::LongRunning(InstallItem::NetBird)));
    assert_eq!(dispatch(4), Some(Dispatch::InstantCheck(InstantOp::Backup)));
    assert_eq!(dispatch(5), Some(Dispatch::OpenBrowser));
    assert_eq!(dispatch(6), Some(Dispatch::Exit));
}

#[test]
fn nothing_is_dispatched_beyond_the_menu() {
    assert_eq!(dispatch(7), None);
    assert_eq!(dispatch(100), None);
    assert_eq!(dispatch(usize::MAX), None);
}

#[test]
fn arrows_and_letters_move_the_cursor() {
    assert_eq!(classify(press(Key::Up)), Command::Up);
    assert_eq!(classify(press(Key::Char('k'))), Command::Up);
    assert_eq!(classify(press(Key::Down)), Command::Down);
    assert_eq!(classify(press(Key::Char('j'))), Command::Down);
}

#[test]
fn enter_confirms_escape_cancels_q_quits() {
    assert_eq!(classify(press(Key::Enter)), Command::Confirm);
    assert_eq!(classify(press(Key::Esc)), Command::Cancel);
    assert_eq!(classify(press(Key::Char('q'))), Command::Quit);
    assert_eq!(classify(press(Key::Backspace)), Command::Backspace);
}

#[test]
fn other_keys_command_nothing() {
    assert_eq!(classify(press(Key::Other)), Command::Nothing);
    assert_eq!(classify(press(Key::Char('x'))), Command::Nothing);
    assert_eq!(classify(press(Key::Char('Q'))), Command::Nothing);
    assert_eq!(classify(press(Key::Char('J'))), Command::Nothing);
}

#[test]
fn repeats_and_releases_are_ignored() {
    let keys = [Key::Up, Key::Down, Key::Enter, Key::Esc, Key::Backspace, Key::Char('q'), Key::Other];
    for key in keys {
        assert_eq!(classify(KeyInput { key, kind: KeyKind::Repeat }), Command::Nothing);
        assert_eq!(classify(KeyInput { key, kind: KeyKind::Release }), Command::Nothing);
    }
}
