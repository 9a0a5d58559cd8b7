use fileshare::items::Item;
use fileshare::metadata::{
    check_metadata_text, is_blank_text, metadata_backup_path, new_replacement_temp_name,
    recover_items, replacement_temp_name, should_back_up, ItemsFile, Recovery,
};
use fileshare::server::AppError;

fn item(id: &str) -> Item {
    Item {
        id: id.to_string(),
        kind: "text".to_string(),
        title: "test".to_string(),
        content: Some("test".to_string()),
        mime: None,
        size: 4,
        source: "client".to_string(),
        storage_path: String::new(),
        created_at: "2026-01-01T00:00:00Z".to_string(),
        updated_at: "2026-01-01T00:00:00Z".to_string(),
    }
}

fn broken(message: &str) -> ItemsFile {
    ItemsFile::Unreadable(AppError::internal(message.to_string()))
}

#[test]
fn a_readable_file_wins() {
    match recover_items(ItemsFile::Loaded(vec![item("p")]), ItemsFile::Loaded(vec![item("b")])) {
        Recovery::Use(v) => assert_eq!(v[0].id, "p"),
        other => panic!("{:?}", other),
    }
}

#[test]
fn corrupted_metadata_is_restored_from_backup_on_an_example() {
    match recover_items(broken("{broken json"), ItemsFile::Loaded(vec![item("restored")])) {
        Recovery::Restore(v) => assert_eq!(v[0].id, "restored"),
        other => panic!("{:?}", other),
    }
    match recover_items(ItemsFile::Missing, ItemsFile::Loaded(vec![item("restored")])) {
        Recovery::Restore(v) => assert_eq!(v.len(), 1),
        other => panic!("{:?}", other),
    }
}

#[test]
fn errors_and_empty_lists() {
    match recover_items(ItemsFile::Missing, ItemsFile::Missing) {
        Recovery::Use(v) => assert!(v.is_empty()),
        other => panic!("{:?}", other),
    }
    match recover_items(broken("primary"), ItemsFile::Missing) {
        Recovery::Fail(e) => assert_eq!(e.message, "primary"),
        other => panic!("{:?}", other),
    }
    match recover_items(broken("primary"), broken("backup")) {
        Recovery::Fail(e) => assert_eq!(e.message, "primary"),
        other => panic!("{:?}", other),
    }
    match recover_items(ItemsFile::Missing, broken("backup")) {
        Recovery::Fail(e) => assert_eq!(e.message, "backup"),
        other => panic!("{:?}", other),
    }
}

#[test]
fn empty_metadata_files_are_errors() {
    let err = check_metadata_text(" \n\t").unwrap_err();
    assert_eq!((err.status, err.message.as_str()), (500, "metadata file is empty"));
    assert!(check_metadata_text("").is_err());
    assert!(check_metadata_text("[]").is_ok());
    assert!(is_blank_text("\u{2003}"));
    assert!(!is_blank_text(" x "));
}

#[test]
fn backups_only_of_good_files() {
    assert!(should_back_up("[]", true));
    assert!(!should_back_up("[]", false));
    assert!(!should_back_up("  ", true));
}

#[test]
fn backup_and_temporary_paths() {
    assert_eq!(metadata_backup_path("/data/items.json"), "/data/items.json.bak");
    assert_eq!(metadata_backup_path("d/.items"), "d/.items.json.bak");
    assert_eq!(metadata_backup_path("items"), "items.json.bak");
    assert_eq!(replacement_temp_name(Some("items.json".to_string()), "id"), ".items.json.id.tmp");
    assert_eq!(replacement_temp_name(None, "7"), ".items.json.7.tmp");
    let name = new_replacement_temp_name(Some("items.json.bak".to_string()));
    assert!(name.starts_with(".items.json.bak.") && name.ends_with(".tmp"));
    assert_eq!(name.len(), ".items.json.bak.".len() + 36 + ".tmp".len());
}

#[test]
fn backup_paths_end_in_the_backup_extension() {
    for path in ["/d/items.json", "items", "/d/x.y.z", ""] {
        let backup = metadata_backup_path(path);
        assert!(backup == path || backup.ends_with(".json.bak"), "{path} -> {backup}");
    }
}
