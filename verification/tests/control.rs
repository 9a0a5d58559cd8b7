use fileshare::control::{drop_payload, DropKind, UpdateAction, UpdateEvent};
use fileshare::control::{
    share_toggle_label, update_check_entry, update_prompt, ShareControl, StartStep, ToggleAction,
    DEFAULT_PORT,
};
use fileshare::server::server_info;

#[test]
fn starting_and_stopping() {
    let mut control = ShareControl::new();
    assert_eq!(control.preferred_port, DEFAULT_PORT);
    assert!(!control.is_running());
    assert!(matches!(control.toggle_action(), ToggleAction::Start(5421)));
    match control.request_start(false, 0) {
        StartStep::Rejected(m) => assert_eq!(m, "Invalid port"),
        other => panic!("{:?}", other),
    }
    assert_eq!(control.preferred_port, 5421);
    assert!(matches!(control.request_start(false, 8080), StartStep::Launch(8080)));
    assert_eq!(control.preferred_port, 8080);
    control.record_started(server_info(8080, &Vec::new()).unwrap());
    assert!(control.is_running());
    match control.request_start(false, 9090) {
        StartStep::Running(info) => assert_eq!(info.port, 8080),
        other => panic!("{:?}", other),
    }
    assert_eq!(control.preferred_port, 9090);
    assert!(matches!(control.toggle_action(), ToggleAction::Stop));
    control.record_stopped();
    assert!(matches!(control.toggle_action(), ToggleAction::Start(9090)));
}

#[test]
fn preferred_port_and_updates() {
    let mut control = ShareControl::new();
    assert_eq!(control.set_preferred_port(true, 0).unwrap_err(), "端口号无效");
    assert_eq!(control.preferred_port, 5421);
    assert!(control.set_preferred_port(false, 7000).is_ok());
    assert_eq!(control.preferred_port, 7000);
    control.set_update_available(true);
    assert!(control.update_available);
}

#[test]
fn tray_labels() {
    assert_eq!(share_toggle_label(false, true), "STOP");
    assert_eq!(share_toggle_label(false, false), "Start");
    assert_eq!(share_toggle_label(true, false), "启动分享");
    assert_eq!(update_check_entry(false, true), ("Checking...".to_string(), false));
    assert_eq!(update_check_entry(true, false), ("检查更新".to_string(), true));
}

#[test]
fn update_question() {
    assert_eq!(
        update_prompt("1.2.0", "1.1.0", "Fixes"),
        "发现新版本 1.2.0\n当前版本: 1.1.0\n\nFixes\n\n是否立即下载并安装？安装完成后应用将自动重启。"
    );
    assert!(update_prompt("2", "1", "").contains("查看 GitHub 发布页面了解更新内容"));
}

#[test]
fn update_check_steps() {
    let mut control = ShareControl::new();
    match control.update_step(UpdateEvent::CheckFailed("timeout".to_string())) {
        UpdateAction::Fail(m) => assert_eq!(m, "检查更新失败: timeout"),
        other => panic!("{:?}", other),
    }
    match control.update_step(UpdateEvent::BuildFailed("x".to_string())) {
        UpdateAction::Fail(m) => assert_eq!(m, "创建updater失败: x"),
        other => panic!("{:?}", other),
    }
    assert!(matches!(control.update_step(UpdateEvent::Found), UpdateAction::Ask));
    assert!(control.update_available);
    assert!(matches!(control.update_step(UpdateEvent::Answered(false)), UpdateAction::Finish));
    assert!(matches!(control.update_step(UpdateEvent::Answered(true)), UpdateAction::Install));
    match control.update_step(UpdateEvent::InstallFailed("disk".to_string())) {
        UpdateAction::Fail(m) => assert_eq!(m, "下载或安装失败: disk"),
        other => panic!("{:?}", other),
    }
    assert!(matches!(control.update_step(UpdateEvent::Installed), UpdateAction::Restart));
    assert!(matches!(control.update_step(UpdateEvent::UpToDate), UpdateAction::ReportLatest));
    assert!(!control.update_available);
}

#[test]
fn drag_and_drop_payloads() {
    let paths = vec!["/a".to_string(), "/b".to_string()];
    let enter = drop_payload(DropKind::Enter, paths.clone());
    assert_eq!((enter.kind.as_str(), enter.paths.clone(), enter.has_position, enter.register), ("enter", paths.clone(), true, false));
    let over = drop_payload(DropKind::Over, paths.clone());
    assert_eq!((over.kind.as_str(), over.paths.len(), over.has_position, over.register), ("over", 0, true, false));
    let dropped = drop_payload(DropKind::Drop, paths.clone());
    assert_eq!((dropped.kind.as_str(), dropped.paths.clone(), dropped.has_position, dropped.register), ("drop", paths.clone(), true, true));
    let leave = drop_payload(DropKind::Leave, paths);
    assert_eq!((leave.kind.as_str(), leave.paths.len(), leave.has_position, leave.register), ("leave", 0, false, false));
}
