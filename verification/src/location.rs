//! Where the backups live: the folder of that name under the user's document
//! directory, or under the root of the system drive where the host reports
//! no document directory. The file browser opens there.
//!
//! The module names the two parts of that place. Asking the host for the
//! document directory and joining the parts are left to the driver, which
//! knows the host and how it writes paths.

use crate::text::text_view;
use vstd::prelude::*;

verus! {

/// The place of the backups, in two parts.
#[derive(Clone, Debug, PartialEq, Eq)]
pub struct BackupRoot {
    /// The directory that holds the backup folder.
    pub base: String,
    /// The name of the backup folder.
    pub folder: String,
}

/// The place of the backups, as contracts see it.
pub struct BackupRootView {
    pub base: Seq<char>,
    pub folder: Seq<char>,
}

impl View for BackupRoot {
    type V = BackupRootView;

    open spec fn view(&self) -> BackupRootView {
        BackupRootView { base: self.base@, folder: self.folder@ }
    }
}

/// The directory that holds the backup folder where the host reports no
/// document directory.
pub open spec fn fallback_base() -> Seq<char> {
    "C:\\"@
}

/// The name of the backup folder.
pub open spec fn backup_folder() -> Seq<char> {
    "ServerBackups"@
}

/// The place of the backups, given the document directory that the host
/// reports, if it reports one.
pub open spec fn backup_root_of(documents: Option<Seq<char>>) -> BackupRootView {
    BackupRootView {
        base: match documents {
            Some(dir) => dir,
            None => fallback_base(),
        },
        folder: backup_folder(),
    }
}

/// The place of the backups, given the document directory that the host
/// reports, if it reports one.
pub fn backup_root(documents: Option<String>) -> (root: BackupRoot)
    ensures
        root@ == backup_root_of(text_view(documents)),
{
    let base = match documents {
        Some(dir) => dir,
        None => "C:\\".to_owned(),
    };
    BackupRoot { base, folder: "ServerBackups".to_owned() }
}

} // verus!
