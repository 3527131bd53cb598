use fs_commands::command::{Capability, OperationKind};
use fs_commands::permission::{has_permission, is_allowed};

fn set(tokens: &[&str]) -> Vec<String> {
    tokens.iter().map(|t| t.to_string()).collect()
}

const KNOWN: [&str; 6] =
    ["read-file", "write-file", "edit-file", "list-files", "create-dir", "delete-file"];

#[test]
fn read_token_allows_reading_only() {
    let permissions = set(&["read"]);
    assert!(is_allowed("read-file", &permissions));
    assert!(is_allowed("list-files", &permissions));
    assert!(!is_allowed("write-file", &permissions));
    assert!(!is_allowed("edit-file", &permissions));
    assert!(!is_allowed("create-dir", &permissions));
    assert!(!is_allowed("delete-file", &permissions));
}

#[test]
fn write_token_allows_writing_only() {
    let permissions = set(&["write"]);
    assert!(!is_allowed("read-file", &permissions));
    assert!(!is_allowed("list-files", &permissions));
    assert!(is_allowed("write-file", &permissions));
    assert!(is_allowed("edit-file", &permissions));
    assert!(is_allowed("create-dir", &permissions));
    assert!(is_allowed("delete-file", &permissions));
}

#[test]
fn empty_set_denies_every_known_operation() {
    let permissions = set(&[]);
    for operation in KNOWN {
        assert!(!is_allowed(operation, &permissions));
    }
}

#[test]
fn unknown_operation_is_denied_under_every_set() {
    let permissions = set(&["read", "write", "admin", "format-disk"]);
    assert!(!is_allowed("format-disk", &permissions));
    assert!(!is_allowed("", &permissions));
    assert!(!is_allowed("READ-FILE", &permissions));
    assert!(!is_allowed("read-file ", &permissions));
}

#[test]
fn same_inputs_give_the_same_answer() {
    let permissions = set(&["read"]);
    for operation in KNOWN {
        assert_eq!(is_allowed(operation, &permissions), is_allowed(operation, &permissions));
    }
}

#[test]
fn tokens_are_matched_letter_for_letter() {
    assert!(has_permission(&set(&["other", "read"]), "read"));
    assert!(!has_permission(&set(&["Read", "reads", ""]), "read"));
}

#[test]
fn operation_names_round_trip() {
    let kinds = [
        OperationKind::ReadFile,
        OperationKind::WriteFile,
        OperationKind::EditFile,
        OperationKind::ListFiles,
        OperationKind::CreateDir,
        OperationKind::DeleteFile,
    ];
    for (kind, name) in kinds.iter().zip(KNOWN) {
        assert_eq!(kind.name(), name);
        assert_eq!(OperationKind::parse(name), Some(*kind));
    }
    assert_eq!(OperationKind::parse("rename-file"), None);
}

#[test]
fn capabilities_have_their_tokens() {
    assert_eq!(Capability::Read.token(), "read");
    assert_eq!(Capability::Write.token(), "write");
    assert_eq!(OperationKind::ReadFile.required(), Capability::Read);
    assert_eq!(OperationKind::ListFiles.required(), Capability::Read);
    assert_eq!(OperationKind::WriteFile.required(), Capability::Write);
    assert_eq!(OperationKind::EditFile.required(), Capability::Write);
    assert_eq!(OperationKind::CreateDir.required(), Capability::Write);
    assert_eq!(OperationKind::DeleteFile.required(), Capability::Write);
}
