use fileshare::range::parse_range_header;

#[test]
fn parses_supported_range_forms() {
    let exact: &[u8] = b"bytes=10-19";
    let open: &[u8] = b"bytes=90-";
    let suffix: &[u8] = b"bytes=-10";

    assert_eq!(parse_range_header(false, Some(exact), 100).unwrap(), Some((10, 19)));
    assert_eq!(parse_range_header(false, Some(open), 100).unwrap(), Some((90, 99)));
    assert_eq!(parse_range_header(false, Some(suffix), 100).unwrap(), Some((90, 99)));
    assert!(parse_range_header(false, Some(b"bytes=100-101"), 100).is_err());
    assert!(parse_range_header(false, Some(b"bytes=0-1,3-4"), 100).is_err());
}

#[test]
fn missing_header_means_whole_file() {
    assert_eq!(parse_range_header(false, None, 0).unwrap(), None);
    assert_eq!(parse_range_header(false, None, 5).unwrap(), None);
}

#[test]
fn range_edge_cases() {
    assert_eq!(parse_range_header(false, Some(b"  bytes=5-500\t"), 100).unwrap(), Some((5, 99)));
    assert_eq!(parse_range_header(false, Some(b"bytes=-500"), 100).unwrap(), Some((0, 99)));
    assert_eq!(parse_range_header(false, Some(b"bytes=+3-+4"), 100).unwrap(), Some((3, 4)));
    assert_eq!(parse_range_header(false, Some(b"bytes=0-0"), 1).unwrap(), Some((0, 0)));
    for bad in [
        &b"bytes=-0"[..],
        b"bytes=5-4",
        b"bytes=5",
        b"items=0-1",
        b"Bytes=0-1",
        b"bytes=a-1",
        b"bytes=-",
        b"bytes=1-2-3",
        b"bytes=0-\x01",
        b"bytes=18446744073709551616-",
    ] {
        assert!(parse_range_header(false, Some(bad), 100).is_err(), "{:?}", bad);
    }
    assert!(parse_range_header(false, Some(b"bytes=0-1"), 0).is_err());
}

#[test]
fn unsatisfiable_range_error_names_the_size() {
    let error = parse_range_header(false, Some(b"bytes=200-"), 100).unwrap_err();
    assert_eq!(error.status, 416);
    assert_eq!(error.message, "Invalid range. Size: 100 bytes");
    assert_eq!(error.content_range.as_deref(), Some("bytes */100"));
    let zh = parse_range_header(true, Some(b"bytes=200-"), 7).unwrap_err();
    assert_eq!(zh.message, "请求范围无效，文件大小为 7 字节");
}

#[test]
fn served_ranges_lie_inside_the_file() {
    for header in [&b"bytes=0-"[..], b"bytes=3-1000", b"bytes=-1000", b"bytes=99-99", b"bytes=-1"] {
        let (start, end) = parse_range_header(false, Some(header), 100).unwrap().unwrap();
        assert!(start <= end && end < 100);
    }
}

#[test]
fn written_ranges_are_served_as_asked_on_examples() {
    let size: u64 = 50;
    for start in [0u64, 1, 9, 10, 49, 50, 51, 1000] {
        for end in [0u64, 5, 10, 49, 50, 99, u64::MAX] {
            let header = format!("bytes={start}-{end}");
            let got = parse_range_header(false, Some(header.as_bytes()), size).ok().flatten();
            let want = if start < size && start <= end { Some((start, end.min(size - 1))) } else { None };
            assert_eq!(got, want, "{header}");
        }
        let header = format!("bytes={start}-");
        let got = parse_range_header(false, Some(header.as_bytes()), size).ok().flatten();
        assert_eq!(got, if start < size { Some((start, size - 1)) } else { None }, "{header}");
    }
    for n in [0u64, 1, 49, 50, 51, u64::MAX] {
        let header = format!("bytes=-{n}");
        let got = parse_range_header(false, Some(header.as_bytes()), size).ok().flatten();
        let want = if n > 0 { Some((size.saturating_sub(n), size - 1)) } else { None };
        assert_eq!(got, want, "{header}");
    }
}
