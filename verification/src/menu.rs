//! The menu and its dispatch table: which line starts what.

use vstd::prelude::*;

verus! {

/// What can be installed.
#[derive(Clone, Copy, Debug, PartialEq, Eq)]
pub enum InstallItem {
    /// The package manager.
    Winget,
    /// The VPN client.
    NetBird,
}

/// An operation that runs at once when its menu line is confirmed.
#[derive(Clone, Copy, Debug, PartialEq, Eq)]
pub enum InstantOp {
    /// Check whether the package manager is installed.
    CheckWinget,
    /// Check whether the VPN client is installed.
    CheckNetBird,
    /// Back up the server's roles and features.
    Backup,
}

/// What confirming a menu line starts.
#[derive(Clone, Copy, Debug, PartialEq, Eq)]
pub enum Dispatch {
    /// Run the operation at once and show its result.
    InstantCheck(InstantOp),
    /// Show the waiting screen first; the installation runs on the next tick.
    LongRunning(InstallItem),
    /// Open the file browser on the default directory.
    OpenBrowser,
    /// Leave the dashboard.
    Exit,
}

/// The number of menu lines.
pub const MENU_LEN: usize = 7;

/// The dispatch table: what the menu line at `index` starts. Only the lines
/// of the menu start anything.
pub open spec fn dispatch_of(index: nat) -> Option<Dispatch> {
    if index == 0 {
        Some(Dispatch::InstantCheck(InstantOp::CheckWinget))
    } else if index == 1 {
        Some(Dispatch::LongRunning(InstallItem::Winget))
    } else if index == 2 {
        Some(Dispatch::InstantCheck(InstantOp::CheckNetBird))
    } else if index == 3 {
        Some(Dispatch::LongRunning(InstallItem::NetBird))
    } else if index == 4 {
        Some(Dispatch::InstantCheck(InstantOp::Backup))
    } else if index == 5 {
        Some(Dispatch::OpenBrowser)
    } else if index == 6 {
        Some(Dispatch::Exit)
    } else {
        None
    }
}

/// The label of the menu line at `index`; beyond the menu, the empty text.
pub open spec fn label_of(index: nat) -> Seq<char> {
    if index == 0 {
        "Check Winget Status"@
    } else if index == 1 {
        "Install Winget"@
    } else if index == 2 {
        "Check NetBird Status"@
    } else if index == 3 {
        "Install NetBird"@
    } else if index == 4 {
        "Backup Server Roles & Features"@
    } else if index == 5 {
        "Restore Server Roles & Features"@
    } else if index == 6 {
        "Exit"@
    } else {
        Seq::empty()
    }
}

/// The labels of the menu, in order.
pub open spec fn menu_labels() -> Seq<Seq<char>> {
    Seq::new(MENU_LEN as nat, |i: int| label_of(i as nat))
}

/// Looks up what the menu line at `index` starts.
pub fn dispatch(index: usize) -> (found: Option<Dispatch>)
    ensures
        found == dispatch_of(index as nat),
        found is Some <==> index < MENU_LEN,
{
    match index {
        0 => Some(Dispatch::InstantCheck(InstantOp::CheckWinget)),
        1 => Some(Dispatch::LongRunning(InstallItem::Winget)),
        2 => Some(Dispatch::InstantCheck(InstantOp::CheckNetBird)),
        3 => Some(Dispatch::LongRunning(InstallItem::NetBird)),
        4 => Some(Dispatch::InstantCheck(InstantOp::Backup)),
        5 => Some(Dispatch::OpenBrowser),
        6 => Some(Dispatch::Exit),
        _ => None,
    }
}

/// The label of the menu line at `index`, if the menu has such a line.
pub fn menu_label(index: usize) -> (label: Option<&'static str>)
    ensures
        label is Some <==> index < MENU_LEN,
        label matches Some(text) ==> text@ == label_of(index as nat),
{
    match index {
        0 => Some("Check Winget Status"),
        1 => Some("Install Winget"),
        2 => Some("Check NetBird Status"),
        3 => Some("Install NetBird"),
        4 => Some("Backup Server Roles & Features"),
        5 => Some("Restore Server Roles & Features"),
        6 => Some("Exit"),
        _ => None,
    }
}

/// The labels of the menu, in order.
pub fn menu_items() -> (labels: Vec<String>)
    ensures
        labels@.map_values(|s: String| s@) == menu_labels(),
{
    let mut labels: Vec<String> = Vec::new();
    let mut i: usize = 0;
    while i < MENU_LEN
        invariant
            i <= MENU_LEN,
            labels.len() == i,
            forall|k: int| 0 <= k < i ==> (#[trigger] labels@[k])@ == label_of(k as nat),
        decreases MENU_LEN - i,
    {
        match menu_label(i) {
            Some(text) => {
                labels.push(text.to_owned());
            },
            None => {},
        }
        i = i + 1;
    }
    assert(labels@.map_values(|s: String| s@) =~= menu_labels());
    labels
}

/// Every menu line starts something, and the table names each operation once.
pub proof fn lemma_dispatch_table_is_complete()
    ensures
        forall|i: nat| i < MENU_LEN <==> (#[trigger] dispatch_of(i)) is Some,
        forall|i: nat, j: nat|
            (#[trigger] dispatch_of(i)) is Some && dispatch_of(i) == (#[trigger] dispatch_of(j))
                ==> i == j,
{
}

} // verus!
