use fileshare::localization::{is_zh_environment, is_zh_locale, tr};

#[test]
fn known_keys_in_both_languages() {
    assert_eq!(tr(false, "item_missing", &[]), "Not found");
    assert_eq!(tr(true, "item_missing", &[]), "条目不存在");
    assert_eq!(tr(false, "start_share", &[]), "Start");
    assert_eq!(tr(true, "stop_share", &[]), "停止分享");
    assert_eq!(tr(false, "latest_version", &[]), "Already up to date.");
}

#[test]
fn placeholders_are_filled() {
    assert_eq!(
        tr(true, "port_taken", &[("port", "80".to_string())]),
        "端口 80 已被占用，请换一个端口或关闭占用该端口的程序"
    );
    assert_eq!(
        tr(false, "port_failed", &[("port", "81".to_string()), ("error", "denied".to_string())]),
        "Port 81 failed: denied"
    );
    assert_eq!(
        tr(false, "about_desc", &[("version", "1.0.3".to_string())]),
        "FileShare 1.0.3\nLAN file sharing\n\nAuthor: Trifolium Wang\nGitHub: https://github.com/tri5m/file-share"
    );
}

#[test]
fn unknown_keys_are_their_own_text() {
    assert_eq!(tr(false, "no_such_key", &[]), "no_such_key");
    assert_eq!(tr(true, "x {a} and {a} {b}", &[("a", "1".to_string())]), "x 1 and 1 {b}");
    assert_eq!(tr(false, "empty_text", &[("unused", "v".to_string())]), "Text is empty");
}

#[test]
fn chinese_locales_are_recognised() {
    assert!(is_zh_locale("zh_CN.UTF-8"));
    assert!(is_zh_locale("ZH_tw"));
    assert!(is_zh_locale("zH"));
    assert!(!is_zh_locale("en_US.UTF-8"));
    assert!(!is_zh_locale("z"));
    assert!(!is_zh_locale(""));
    assert!(!is_zh_locale(" zh"));
}

#[test]
fn first_set_variable_decides() {
    assert!(!is_zh_environment(Some("en_US"), Some("zh_CN"), None));
    assert!(is_zh_environment(None, Some("zh_TW"), Some("en")));
    assert!(is_zh_environment(None, None, Some("zh")));
    assert!(!is_zh_environment(Some(""), Some("zh_CN"), Some("zh_CN")));
    assert!(!is_zh_environment(None, None, None));
}
