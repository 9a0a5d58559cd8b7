use fileshare::items::{
    add_items, download_filename, download_target, find_item, local_file_items,
    mime_for_path_extension, new_text_item, public_items, remove_item, storage_path_of, text_item,
    Item, LocalFile,
};

fn item(id: &str, kind: &str) -> Item {
    Item {
        id: id.to_string(),
        kind: kind.to_string(),
        title: format!("title {id}"),
        content: if kind == "text" { Some("body".to_string()) } else { None },
        mime: None,
        size: 4,
        source: "client".to_string(),
        storage_path: if kind == "text" { String::new() } else { format!("/files/{id}") },
        created_at: "2026-01-01T00:00:00Z".to_string(),
        updated_at: "2026-01-01T00:00:00Z".to_string(),
    }
}

fn ids(items: &[Item]) -> Vec<&str> {
    items.iter().map(|i| i.id.as_str()).collect()
}

#[test]
fn public_items_mark_availability() {
    let items = vec![item("t", "text"), item("f", "file"), item("g", "file")];
    let public = public_items(&items, &vec![false, true, false]);
    assert_eq!(public.len(), 3);
    assert!(public[0].exists);
    assert!(public[1].exists);
    assert!(!public[2].exists);
    assert_eq!(public[1].id, "f");
    assert_eq!(public[1].title, "title f");
    assert_eq!(public[0].content.as_deref(), Some("body"));
    assert_eq!(public[2].created_at, "2026-01-01T00:00:00Z");
}

#[test]
fn new_items_come_first() {
    let all = add_items(vec![item("n1", "text"), item("n2", "file")], vec![item("o1", "file")]);
    assert_eq!(ids(&all), vec!["n1", "n2", "o1"]);
}

#[test]
fn removing_items() {
    let items = vec![item("a", "text"), item("b", "file"), item("a", "file"), item("c", "text")];
    let left = remove_item(false, items, "a").unwrap();
    assert_eq!(ids(&left), vec!["b", "c"]);
    let err = remove_item(false, left, "zzz").unwrap_err();
    assert_eq!(err.status, 404);
    assert_eq!(err.message, "Not found");
    let err = remove_item(true, Vec::new(), "a").unwrap_err();
    assert_eq!(err.message, "条目不存在");
}

#[test]
fn removing_an_added_item_restores_the_list_on_an_example() {
    let existing = vec![item("x", "text"), item("y", "file")];
    let all = add_items(vec![item("new", "file")], existing);
    let back = remove_item(false, all, "new").unwrap();
    assert_eq!(ids(&back), vec!["x", "y"]);
}

#[test]
fn removal_keeps_other_items_on_an_example() {
    let items = vec![item("k", "text"), item("d", "file"), item("k2", "file"), item("d", "text")];
    let left = remove_item(false, items, "d").unwrap();
    assert!(left.iter().all(|i| i.id != "d"));
    assert_eq!(ids(&left), vec!["k", "k2"]);
}

#[test]
fn finding_and_downloading() {
    let items = vec![item("t", "text"), item("f", "file"), item("f", "text")];
    assert_eq!(find_item(&items, "f"), Some(1));
    assert_eq!(find_item(&items, "q"), None);
    assert_eq!(download_target(false, &items, "f").unwrap(), 1);
    let err = download_target(false, &items, "t").unwrap_err();
    assert_eq!((err.status, err.message.as_str()), (400, "Text has no download"));
    let err = download_target(false, &items, "q").unwrap_err();
    assert_eq!((err.status, err.message.as_str()), (404, "Not found"));
    assert_eq!(storage_path_of(false, &items, "f").unwrap(), "/files/f");
    assert_eq!(storage_path_of(true, &items, "t").unwrap_err(), "文本无需下载");
    assert_eq!(storage_path_of(false, &items, "q").unwrap_err(), "Not found");
}

#[test]
fn text_items() {
    let it = text_item(false, "  hello\n world \t", "admin", "id1".to_string(), "c".to_string(), "u".to_string()).unwrap();
    assert_eq!(it.id, "id1");
    assert_eq!(it.kind, "text");
    assert_eq!(it.title, "hello world");
    assert_eq!(it.content.as_deref(), Some("hello\n world"));
    assert_eq!(it.mime, None);
    assert_eq!(it.size, 12);
    assert_eq!(it.source, "admin");
    assert_eq!(it.storage_path, "");
    assert_eq!((it.created_at.as_str(), it.updated_at.as_str()), ("c", "u"));
    let it = text_item(false, "你好", "client", "i".to_string(), "c".to_string(), "u".to_string()).unwrap();
    assert_eq!(it.size, 6);
    let err = text_item(false, " \n ", "client", "i".to_string(), "c".to_string(), "u".to_string()).unwrap_err();
    assert_eq!((err.status, err.message.as_str()), (400, "Text is empty"));
}

#[test]
fn new_text_items_get_an_id_and_time() {
    let a = new_text_item(false, "note", "client").unwrap();
    let b = new_text_item(false, "note", "client").unwrap();
    assert_eq!(a.content.as_deref(), Some("note"));
    assert_eq!(a.id.len(), 36);
    assert_ne!(a.id, b.id);
    assert!(a.created_at.starts_with("20"));
    assert!(a.created_at.contains('T'));
    assert_eq!(new_text_item(true, "", "admin").unwrap_err().message, "文本不能为空");
}

#[test]
fn picked_local_files() {
    let files = vec![
        LocalFile { path: "/home/me/report.pdf".to_string(), metadata: Some((true, 1234)) },
        LocalFile { path: "/home/me/noext".to_string(), metadata: Some((true, 0)) },
        LocalFile { path: "/home/me/notes.txt".to_string(), metadata: Some((true, 7)) },
    ];
    let items = local_file_items(false, &files).unwrap();
    assert_eq!(items.len(), 3);
    assert_eq!(items[0].title, "report.pdf");
    assert_eq!(items[0].mime.as_deref(), Some("application/pdf"));
    assert_eq!(items[0].size, 1234);
    assert_eq!(items[0].source, "admin");
    assert_eq!(items[0].kind, "file");
    assert_eq!(items[0].storage_path, "/home/me/report.pdf");
    assert_eq!(items[1].mime, None);
    assert_eq!(items[2].mime.as_deref(), Some("text/plain"));
    assert_ne!(items[0].id, items[1].id);
}

#[test]
fn picked_files_that_cannot_be_shared() {
    let err = local_file_items(false, &Vec::new()).unwrap_err();
    assert_eq!((err.status, err.message.as_str()), (400, "Select a file"));
    let files = vec![
        LocalFile { path: "/a".to_string(), metadata: Some((true, 1)) },
        LocalFile { path: "/dir".to_string(), metadata: Some((false, 0)) },
        LocalFile { path: "/gone".to_string(), metadata: None },
    ];
    assert_eq!(local_file_items(false, &files).unwrap_err().message, "Files only");
    let files = vec![LocalFile { path: "/gone".to_string(), metadata: None }];
    assert_eq!(local_file_items(true, &files).unwrap_err().message, "所选文件不存在");
}

#[test]
fn mime_types_by_extension() {
    assert_eq!(mime_for_path_extension(Some("png".to_string())).as_deref(), Some("image/png"));
    assert_eq!(mime_for_path_extension(Some("zzzunknown".to_string())), None);
    assert_eq!(mime_for_path_extension(None), None);
}

#[test]
fn saved_copy_names() {
    assert_eq!(download_filename(Some("a.txt".to_string())), "a.txt");
    assert_eq!(download_filename(None), "download");
    assert_eq!(fileshare::items::download_filename_of("/x/y/movie.mp4"), "movie.mp4");
    assert_eq!(fileshare::items::download_filename_of("/"), "download");
}

#[test]
fn picked_files_are_named_by_their_paths() {
    let files = vec![LocalFile { path: "/srv/share/photo.JPG".to_string(), metadata: Some((true, 3)) }];
    let items = local_file_items(false, &files).unwrap();
    assert_eq!(items[0].title, "photo.JPG");
    assert_eq!(items[0].mime.as_deref(), Some("image/jpeg"));
}

#[test]
fn saved_copy_names_have_no_separator() {
    assert_eq!(fileshare::items::download_filename_of(""), "download");
    assert_eq!(fileshare::items::download_filename_of("a/.."), "download");
    assert!(!fileshare::items::download_filename_of("x/y/").contains('/'));
}
