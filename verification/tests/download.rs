use fileshare::download::download_plan;
use fileshare::items::Item;

fn file_item(title: &str, mime: Option<&str>) -> Item {
    Item {
        id: "d".to_string(),
        kind: "file".to_string(),
        title: title.to_string(),
        content: None,
        mime: mime.map(str::to_string),
        size: 10,
        source: "client".to_string(),
        storage_path: "/s/d".to_string(),
        created_at: "c".to_string(),
        updated_at: "u".to_string(),
    }
}

#[test]
fn whole_file() {
    let plan = download_plan(false, &file_item("a.txt", Some("text/plain")), 10, None).unwrap();
    assert_eq!(plan.status, 200);
    assert_eq!(plan.content_type, "text/plain");
    assert_eq!(plan.content_length, 10);
    assert_eq!(plan.content_range, None);
    assert_eq!((plan.start, plan.length), (0, 10));
    assert_eq!(plan.content_disposition, "attachment; filename=\"a.txt\"; filename*=UTF-8''a.txt");
}

#[test]
fn requested_range() {
    let plan = download_plan(false, &file_item("a.txt", None), 10, Some(b"bytes=2-5")).unwrap();
    assert_eq!(plan.status, 206);
    assert_eq!((plan.start, plan.length, plan.content_length), (2, 4, 4));
    assert_eq!(plan.content_range.as_deref(), Some("bytes 2-5/10"));
    assert_eq!(plan.content_type, "application/octet-stream");
    let tail = download_plan(false, &file_item("a.txt", None), 10, Some(b"bytes=-3")).unwrap();
    assert_eq!(tail.content_range.as_deref(), Some("bytes 7-9/10"));
}

#[test]
fn unicode_titles_are_encoded() {
    let plan = download_plan(false, &file_item("报告 1.txt", None), 3, None).unwrap();
    assert_eq!(
        plan.content_disposition,
        "attachment; filename=\"__ 1.txt\"; filename*=UTF-8''%E6%8A%A5%E5%91%8A%201.txt"
    );
    let plan = download_plan(false, &file_item("a~b_c-d.e", None), 3, None).unwrap();
    assert!(plan.content_disposition.ends_with("UTF-8''a~b_c-d.e"));
}

#[test]
fn unusable_mime_falls_back() {
    let plan = download_plan(false, &file_item("x", Some("text/\u{1}plain")), 1, None).unwrap();
    assert_eq!(plan.content_type, "application/octet-stream");
    let plan = download_plan(false, &file_item("x", Some("text/plain; charset=ü")), 1, None).unwrap();
    assert_eq!(plan.content_type, "text/plain; charset=ü");
}

#[test]
fn unsatisfiable_range() {
    let err = download_plan(true, &file_item("x", None), 10, Some(b"bytes=20-")).unwrap_err();
    assert_eq!(err.status, 416);
    assert_eq!(err.content_range.as_deref(), Some("bytes */10"));
    assert_eq!(err.message, "请求范围无效，文件大小为 10 字节");
}
