use fileshare::items::Item;
use fileshare::upload::{
    candidate_file_name, place_step, stores_upload, upload_field, PlaceOutcome, PlaceStep,
    UploadField,
};
use fileshare::upload::{
    name_parts, new_upload_temp_name, numbered_name, require_uploads, stored_name_parts,
    stored_title, upload_file_name, upload_temp_name, uploaded_item, PendingUpload,
};

#[test]
fn upload_names() {
    assert_eq!(upload_file_name(None), "file");
    assert_eq!(upload_file_name(Some("a/b c?.txt")), "b c_.txt");
    assert_eq!(upload_file_name(Some("")), "file");
}

#[test]
fn colliding_names_are_numbered() {
    assert_eq!(name_parts(Some("a".to_string()), Some("txt".to_string())), ("a".to_string(), ".txt".to_string()));
    assert_eq!(name_parts(None, None), ("file".to_string(), String::new()));
    assert_eq!(stored_name_parts("report.tar.gz"), ("report.tar".to_string(), ".gz".to_string()));
    assert_eq!(stored_name_parts("README"), ("README".to_string(), String::new()));
    assert_eq!(stored_name_parts(".bashrc"), (".bashrc".to_string(), String::new()));
    assert_eq!(stored_name_parts("a."), ("a".to_string(), ".".to_string()));
    assert_eq!(numbered_name("a", ".txt", 3), "a (3).txt");
    assert_eq!(numbered_name("same", ".bin", 12), "same (12).bin");
    assert_eq!(numbered_name("file", "", 1), "file (1)");
}

#[test]
fn numbered_names_differ_on_examples() {
    let names: Vec<String> = (1..=120).map(|i| numbered_name("same", ".bin", i)).collect();
    let mut sorted = names.clone();
    sorted.sort();
    sorted.dedup();
    assert_eq!(sorted.len(), names.len());
}

#[test]
fn stored_titles() {
    assert_eq!(stored_title(Some("x (1).bin".to_string()), "x.bin"), "x (1).bin");
    assert_eq!(stored_title(None, "x.bin"), "x.bin");
}

#[test]
fn uploaded_items() {
    let it = uploaded_item("x.bin".to_string(), Some("application/zip".to_string()), 32, "/d/x.bin".to_string());
    assert_eq!(it.kind, "file");
    assert_eq!(it.title, "x.bin");
    assert_eq!(it.content, None);
    assert_eq!(it.mime.as_deref(), Some("application/zip"));
    assert_eq!(it.size, 32);
    assert_eq!(it.source, "client");
    assert_eq!(it.storage_path, "/d/x.bin");
    assert_eq!(it.id.len(), 36);
}

#[test]
fn an_upload_must_store_something() {
    let err = require_uploads(false, Vec::new()).unwrap_err();
    assert_eq!((err.status, err.message.as_str()), (400, "Select a file"));
    let one = uploaded_item("a".to_string(), None, 1, "/a".to_string());
    let kept: Vec<Item> = require_uploads(false, vec![one]).unwrap();
    assert_eq!(kept.len(), 1);
}

#[test]
fn pending_uploads_know_what_to_remove() {
    let mut pending = PendingUpload::new("/tmp/.upload.part".to_string());
    assert_eq!(pending.leftover_paths(), vec!["/tmp/.upload.part".to_string()]);
    pending.final_path = Some("/d/upload.bin".to_string());
    assert_eq!(
        pending.leftover_paths(),
        vec!["/tmp/.upload.part".to_string(), "/d/upload.bin".to_string()]
    );
    pending.temp_path = String::new();
    assert_eq!(pending.leftover_paths(), vec!["/d/upload.bin".to_string()]);
    pending.commit();
    assert!(pending.leftover_paths().is_empty());
    assert_eq!(pending.temp_path, "");
    assert_eq!(pending.final_path, None);
}

#[test]
fn temporary_upload_names() {
    assert_eq!(upload_temp_name("abc"), ".fileshare-abc.part");
    let a = new_upload_temp_name();
    let b = new_upload_temp_name();
    assert!(a.starts_with(".fileshare-") && a.ends_with(".part"));
    assert_eq!(a.len(), ".fileshare-".len() + 36 + ".part".len());
    assert_ne!(a, b);
}

#[test]
fn which_form_fields_are_stored() {
    assert!(matches!(upload_field(Some("source")), UploadField::Source));
    assert!(matches!(upload_field(Some("file")), UploadField::File));
    assert!(matches!(upload_field(Some("files")), UploadField::Other));
    assert!(matches!(upload_field(None), UploadField::Other));
    assert!(stores_upload(UploadField::File, 1));
    assert!(!stores_upload(UploadField::File, 0));
    assert!(!stores_upload(UploadField::Source, 10));
    assert!(!stores_upload(UploadField::Other, 10));
}

#[test]
fn placing_an_upload_tries_new_names() {
    assert_eq!(candidate_file_name("same.bin", "same", ".bin", 0), "same.bin");
    assert_eq!(candidate_file_name("same.bin", "same", ".bin", 2), "same (2).bin");
    assert!(matches!(place_step(0, PlaceOutcome::LinkExists), PlaceStep::Link(1)));
    assert!(matches!(place_step(3, PlaceOutcome::CopyExists), PlaceStep::Link(4)));
    assert!(matches!(place_step(3, PlaceOutcome::LinkFailed), PlaceStep::Copy(3)));
    assert!(matches!(place_step(3, PlaceOutcome::CopyFailed), PlaceStep::GiveUp));
    assert!(matches!(place_step(3, PlaceOutcome::Linked), PlaceStep::Placed));
    assert!(matches!(place_step(3, PlaceOutcome::Copied), PlaceStep::Placed));
    assert!(matches!(place_step(u64::MAX, PlaceOutcome::LinkExists), PlaceStep::GiveUp));
}
