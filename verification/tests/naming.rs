use fileshare::naming::{ascii_fallback_name, clean_file_name, safe_name, text_title};

#[test]
fn stored_names_keep_letters_digits_and_punctuation() {
    assert_eq!(safe_name("My File (1).txt"), "My File (1).txt");
    assert_eq!(safe_name("b?c*.txt"), "b_c_.txt");
    assert_eq!(safe_name("héllo wörld.pdf"), "héllo wörld.pdf");
    assert_eq!(safe_name("a+b=c.bin"), "a_b_c.bin");
}

#[test]
fn stored_names_take_the_final_component() {
    assert_eq!(safe_name("../dir/report.pdf"), "report.pdf");
    assert_eq!(safe_name(".."), "file");
    assert_eq!(safe_name(""), "file");
}

#[test]
fn cleaning_a_component() {
    assert_eq!(clean_file_name(Some("")), "file");
    assert_eq!(clean_file_name(None), "file");
    assert_eq!(clean_file_name(Some("a:b")), "a_b");
    assert_eq!(clean_file_name(Some("数据.csv")), "数据.csv");
}

#[test]
fn ascii_fallback_names() {
    assert_eq!(ascii_fallback_name("报告.pdf"), "__.pdf");
    assert_eq!(ascii_fallback_name("report (2).pdf"), "report (2).pdf");
    assert_eq!(ascii_fallback_name("  "), "download");
    assert_eq!(ascii_fallback_name(""), "download");
    assert_eq!(ascii_fallback_name("中"), "_");
    assert_eq!(ascii_fallback_name("a\"b"), "a_b");
}

#[test]
fn ascii_fallback_is_plain_ascii_on_examples() {
    for name in ["", " ", "é", "日本語 テキスト", "a/b\\c", "\"quoted\""] {
        let fallback = ascii_fallback_name(name);
        assert!(!fallback.is_empty());
        assert!(fallback
            .chars()
            .all(|c| c.is_ascii_alphanumeric() || ".-_ ()".contains(c)));
    }
}

#[test]
fn snippet_titles() {
    assert_eq!(text_title(false, "  hello \n  world  "), "hello world");
    assert_eq!(text_title(false, "a\u{3000}b"), "a b");
    assert_eq!(text_title(false, "   "), "Text snippet");
    assert_eq!(text_title(true, ""), "文本片段");
    let long = "a".repeat(45);
    assert_eq!(text_title(false, &long), "a".repeat(40));
    let words = "word ".repeat(10);
    assert_eq!(text_title(false, &words), "word word word word word word word word ");
}

#[test]
fn snippet_titles_are_short() {
    let long = "长".repeat(100);
    let spaced = "ab ".repeat(30);
    for text in ["x", "  many   words   here  ", long.as_str(), spaced.as_str()] {
        let title = text_title(false, text);
        assert!(!title.is_empty());
        assert!(title.chars().count() <= 40);
    }
}

#[test]
fn cleaned_names_are_kept_on_examples() {
    assert_eq!(safe_name("../../etc/passwd"), "passwd");
    assert_eq!(safe_name("a?b.txt"), "a_b.txt");
    for name in ["../../etc/passwd", "a?b.txt", "日本 語.md", "x*y", "...", "a b (2).zip"] {
        let once = safe_name(name);
        assert_eq!(safe_name(&once), once);
    }
}

#[test]
fn stored_names_are_never_dot_names() {
    for name in ["", ".", "..", "/", "a/..", "a/.", "//", "x/", "..\\..", "C:"] {
        let stored = safe_name(name);
        assert!(!stored.is_empty());
        assert!(stored != "." && stored != "..");
        assert!(!stored.contains('/'));
        assert_eq!(safe_name(&stored), stored);
    }
    assert_eq!(safe_name(""), "file");
}
