use server_helper::location::{backup_root, BackupRoot};

#[test]
fn the_backup_folder_lies_under_the_document_directory() {
    assert_eq!(
        backup_root(Some("/home/alice/Documents".to_string())),
        BackupRoot { base: "/home/alice/Documents".to_string(), folder: "ServerBackups".to_string() }
    );
}

#[test]
fn without_a_document_directory_the_system_drive_is_the_base() {
    assert_eq!(
        backup_root(None),
        BackupRoot { base: "C:\\".to_string(), folder: "ServerBackups".to_string() }
    );
}
