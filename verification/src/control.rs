//! The desktop side's decisions: starting and stopping the share, the preferred port, the
//! tray menu's labels and the update prompt.
use vstd::prelude::*;

use crate::localization::{tr, localized};
use crate::server::{share_address_view, ServerInfo, ShareAddress};
use crate::text::{chars_of, push_all, string_of};

verus! {

/// The port a share starts on unless another is chosen.
pub const DEFAULT_PORT: u16 = 5421;

/// What the desktop side knows of the share: what it announces while running, the port the
/// next start uses, and whether an update was found.
#[derive(Debug)]
pub struct ShareControl {
    pub info: Option<ServerInfo>,
    pub preferred_port: u16,
    pub update_available: bool,
}

/// What to do about a request to start the share.
#[derive(Debug)]
pub enum StartStep {
    /// The port is invalid; the message says so.
    Rejected(String),
    /// The share already runs; this is what it announces.
    Running(ServerInfo),
    /// Start the server on this port.
    Launch(u16),
}

/// What the tray's share entry does.
#[derive(Debug)]
pub enum ToggleAction {
    Stop,
    Start(u16),
}

/// Two announcements say the same.
pub open spec fn same_info(a: ServerInfo, b: ServerInfo) -> bool {
    &&& a.port == b.port
    &&& a.ip@ == b.ip@
    &&& a.url@ == b.url@
    &&& a.qr@ == b.qr@
    &&& a.addresses@.map_values(|x: ShareAddress| share_address_view(x)) == b.addresses@.map_values(
        |x: ShareAddress| share_address_view(x),
    )
}

fn copy_address(a: &ShareAddress) -> (res: ShareAddress)
    ensures
        share_address_view(res) == share_address_view(*a),
{
    ShareAddress {
        name: match &a.name {
            Some(n) => Some(n.clone()),
            None => None,
        },
        ip: a.ip.clone(),
        url: a.url.clone(),
        qr: a.qr.clone(),
    }
}

/// A copy of an announcement.
pub fn copy_info(info: &ServerInfo) -> (res: ServerInfo)
    ensures
        same_info(res, *info),
{
    let mut addresses: Vec<ShareAddress> = Vec::new();
    let mut i: usize = 0;
    while i < info.addresses.len()
        invariant
            i <= info.addresses@.len(),
            addresses@.len() == i,
            forall|t: int| 0 <= t < i ==> share_address_view(#[trigger] addresses@[t]) == share_address_view(info.addresses@[t]),
        decreases info.addresses.len() - i,
    {
        addresses.push(copy_address(&info.addresses[i]));
        i = i + 1;
    }
    assert(addresses@.map_values(|x: ShareAddress| share_address_view(x)) =~= info.addresses@.map_values(
        |x: ShareAddress| share_address_view(x),
    ));
    ServerInfo {
        port: info.port,
        ip: info.ip.clone(),
        url: info.url.clone(),
        qr: info.qr.clone(),
        addresses,
    }
}

fn message(zh: bool, key: &str) -> (res: String)
    ensures
        res@ == localized(zh, key@, Seq::empty()),
{
    let none: [(&str, String); 0] = [];
    let res = tr(zh, key, &none);
    assert(none@.map_values(|p: (&str, String)| (p.0@, p.1@)) =~= Seq::empty());
    res
}

impl ShareControl {
    /// Not sharing, port 5421, no update known.
    pub fn new() -> (res: Self)
        ensures
            res.info is None,
            res.preferred_port == DEFAULT_PORT,
            !res.update_available,
    {
        ShareControl { info: None, preferred_port: DEFAULT_PORT, update_available: false }
    }

    /// Whether the share runs.
    pub fn is_running(&self) -> (res: bool)
        ensures
            res == self.info is Some,
    {
        self.info.is_some()
    }

    /// A request to start sharing on `port`. Port 0 is rejected and changes nothing. Any
    /// other port becomes the preferred one; a running share is reported as it is, else the
    /// server is to be started on the port.
    pub fn request_start(&mut self, zh: bool, port: u16) -> (res: StartStep)
        ensures
            port == 0 ==> (res matches StartStep::Rejected(m) && m@ == localized(zh, "invalid_port"@, Seq::empty()))
                && *final(self) == *old(self),
            port != 0 ==> final(self).preferred_port == port && final(self).info == old(self).info
                && final(self).update_available == old(self).update_available,
            port != 0 && old(self).info is None ==> res == StartStep::Launch(port),
            port != 0 && old(self).info is Some ==> (res matches StartStep::Running(i) && same_info(i, old(self).info->0)),
    {
        if port == 0 {
            return StartStep::Rejected(message(zh, "invalid_port"));
        }
        self.preferred_port = port;
        match &self.info {
            Some(info) => StartStep::Running(copy_info(info)),
            None => StartStep::Launch(port),
        }
    }

    /// The server started and announces `info`.
    pub fn record_started(&mut self, info: ServerInfo)
        ensures
            final(self).info == Some(info),
            final(self).preferred_port == old(self).preferred_port,
            final(self).update_available == old(self).update_available,
    {
        self.info = Some(info);
    }

    /// The server stopped.
    pub fn record_stopped(&mut self)
        ensures
            final(self).info is None,
            final(self).preferred_port == old(self).preferred_port,
            final(self).update_available == old(self).update_available,
    {
        self.info = None;
    }

    /// Chooses the port the next start uses; port 0 is rejected and changes nothing.
    pub fn set_preferred_port(&mut self, zh: bool, port: u16) -> (res: Result<(), String>)
        ensures
            port == 0 ==> (res matches Err(m) && m@ == localized(zh, "invalid_port"@, Seq::empty()))
                && *final(self) == *old(self),
            port != 0 ==> res is Ok && final(self).preferred_port == port && final(self).info == old(self).info
                && final(self).update_available == old(self).update_available,
    {
        if port == 0 {
            return Err(message(zh, "invalid_port"));
        }
        self.preferred_port = port;
        Ok(())
    }

    /// Records whether an update is available.
    pub fn set_update_available(&mut self, available: bool)
        ensures
            final(self).update_available == available,
            final(self).info == old(self).info,
            final(self).preferred_port == old(self).preferred_port,
    {
        self.update_available = available;
    }

    /// What the tray's share entry does now: stop a running share, else start one on the
    /// preferred port.
    pub fn toggle_action(&self) -> (res: ToggleAction)
        ensures
            self.info is Some ==> res == ToggleAction::Stop,
            self.info is None ==> res == ToggleAction::Start(self.preferred_port),
    {
        if self.info.is_some() {
            ToggleAction::Stop
        } else {
            ToggleAction::Start(self.preferred_port)
        }
    }
}

/// The label of the tray's share entry: "stop" while sharing, else "start".
pub fn share_toggle_label(zh: bool, running: bool) -> (res: String)
    ensures
        running ==> res@ == localized(zh, "stop_share"@, Seq::empty()),
        !running ==> res@ == localized(zh, "start_share"@, Seq::empty()),
{
    if running {
        message(zh, "stop_share")
    } else {
        message(zh, "start_share")
    }
}

/// The tray's update entry while a check runs or not: its label and whether it can be used.
pub fn update_check_entry(zh: bool, checking: bool) -> (res: (String, bool))
    ensures
        res.1 == !checking,
        checking ==> res.0@ == localized(zh, "checking"@, Seq::empty()),
        !checking ==> res.0@ == localized(zh, "check_update"@, Seq::empty()),
{
    if checking {
        (message(zh, "checking"), false)
    } else {
        (message(zh, "check_update"), true)
    }
}

/// What a manual update check learned: building the updater or the check failed, the
/// application is up to date, an update was found, the user answered the question (`true`
/// for OK), or downloading and installing failed or finished.
#[derive(Debug)]
pub enum UpdateEvent {
    BuildFailed(String),
    CheckFailed(String),
    UpToDate,
    Found,
    Answered(bool),
    InstallFailed(String),
    Installed,
}

/// What to do next in a manual update check: fail with the message, say that the version is
/// the latest, ask whether to install, download and install, stop, or restart.
#[derive(Debug)]
pub enum UpdateAction {
    Fail(String),
    ReportLatest,
    Ask,
    Install,
    Finish,
    Restart,
}

/// The message of a failed step: its prefix, `: ` and the error.
pub open spec fn failure_text(prefix: Seq<char>, error: Seq<char>) -> Seq<char> {
    prefix + ": "@ + error
}

fn failure_message(prefix: &str, error: &str) -> (res: String)
    ensures
        res@ == failure_text(prefix@, error@),
{
    let mut v = chars_of(prefix);
    push_all(&mut v, &chars_of(": "));
    push_all(&mut v, &chars_of(error));
    string_of(v.as_slice())
}

/// Whether an update is known after an event of a manual update check (`None`: unchanged).
pub open spec fn update_flag(event: UpdateEvent) -> Option<bool> {
    match event {
        UpdateEvent::UpToDate => Some(false),
        UpdateEvent::Found => Some(true),
        _ => None,
    }
}

impl ShareControl {
    /// One step of a manual update check. A failure is reported with the step that failed
    /// ("创建updater失败", "检查更新失败" or "下载或安装失败") and the error; being up to date
    /// clears the update flag and reports the latest version; a found update sets the flag
    /// and asks; only an OK answer installs; an installed update restarts.
    pub fn update_step(&mut self, event: UpdateEvent) -> (res: UpdateAction)
        ensures
            final(self).info == old(self).info,
            final(self).preferred_port == old(self).preferred_port,
            match update_flag(event) {
                Some(b) => final(self).update_available == b,
                None => final(self).update_available == old(self).update_available,
            },
            match event {
                UpdateEvent::BuildFailed(e) => res matches UpdateAction::Fail(m) && m@ == failure_text("创建updater失败"@, e@),
                UpdateEvent::CheckFailed(e) => res matches UpdateAction::Fail(m) && m@ == failure_text("检查更新失败"@, e@),
                UpdateEvent::InstallFailed(e) => res matches UpdateAction::Fail(m) && m@ == failure_text("下载或安装失败"@, e@),
                UpdateEvent::UpToDate => res is ReportLatest,
                UpdateEvent::Found => res is Ask,
                UpdateEvent::Answered(ok) => if ok {
                    res is Install
                } else {
                    res is Finish
                },
                UpdateEvent::Installed => res is Restart,
            },
    {
        match event {
            UpdateEvent::BuildFailed(e) => UpdateAction::Fail(failure_message("创建updater失败", e.as_str())),
            UpdateEvent::CheckFailed(e) => UpdateAction::Fail(failure_message("检查更新失败", e.as_str())),
            UpdateEvent::UpToDate => {
                self.update_available = false;
                UpdateAction::ReportLatest
            },
            UpdateEvent::Found => {
                self.update_available = true;
                UpdateAction::Ask
            },
            UpdateEvent::Answered(ok) => if ok {
                UpdateAction::Install
            } else {
                UpdateAction::Finish
            },
            UpdateEvent::InstallFailed(e) => UpdateAction::Fail(failure_message("下载或安装失败", e.as_str())),
            UpdateEvent::Installed => UpdateAction::Restart,
        }
    }
}

/// The events a file dragged over the window gives.
#[derive(Debug, Clone, Copy)]
pub enum DropKind {
    Enter,
    Over,
    Drop,
    Leave,
}

/// What the window is told of a drag: the event's name, the dragged paths, whether the
/// pointer's position goes with it, and whether the files are to be shared (on a drop).
#[derive(Debug)]
pub struct DropPayload {
    pub kind: String,
    pub paths: Vec<String>,
    pub has_position: bool,
    pub register: bool,
}

/// The name of a drag event.
pub open spec fn drop_kind_name(kind: DropKind) -> Seq<char> {
    match kind {
        DropKind::Enter => "enter"@,
        DropKind::Over => "over"@,
        DropKind::Drop => "drop"@,
        DropKind::Leave => "leave"@,
    }
}

/// The window's message for a drag event: entering and dropping carry the paths, hovering
/// and leaving none; all but leaving carry the position; only a drop shares the files.
pub fn drop_payload(kind: DropKind, paths: Vec<String>) -> (res: DropPayload)
    ensures
        res.kind@ == drop_kind_name(kind),
        (kind is Enter || kind is Drop) ==> res.paths@ == paths@,
        (kind is Over || kind is Leave) ==> res.paths@.len() == 0,
        res.has_position == !(kind is Leave),
        res.register == (kind is Drop),
{
    match kind {
        DropKind::Enter => DropPayload { kind: string_of(chars_of("enter").as_slice()), paths, has_position: true, register: false },
        DropKind::Over => DropPayload { kind: string_of(chars_of("over").as_slice()), paths: Vec::new(), has_position: true, register: false },
        DropKind::Drop => DropPayload { kind: string_of(chars_of("drop").as_slice()), paths, has_position: true, register: true },
        DropKind::Leave => DropPayload { kind: string_of(chars_of("leave").as_slice()), paths: Vec::new(), has_position: false, register: false },
    }
}

/// The question asked before installing an update: the new and the current version, the
/// release notes (or a pointer to the release page when there are none), and that the
/// application restarts.
pub open spec fn update_question(new_version: Seq<char>, current_version: Seq<char>, notes: Seq<char>) -> Seq<char> {
    "发现新版本 "@ + new_version + "\n当前版本: "@ + current_version + "\n\n"@ + (if notes.len() == 0 {
        "查看 GitHub 发布页面了解更新内容"@
    } else {
        notes
    }) + "\n\n是否立即下载并安装？安装完成后应用将自动重启。"@
}

/// The text of the update question.
pub fn update_prompt(new_version: &str, current_version: &str, notes: &str) -> (res: String)
    ensures
        res@ == update_question(new_version@, current_version@, notes@),
{
    let mut v = chars_of("发现新版本 ");
    push_all(&mut v, &chars_of(new_version));
    push_all(&mut v, &chars_of("\n当前版本: "));
    push_all(&mut v, &chars_of(current_version));
    push_all(&mut v, &chars_of("\n\n"));
    let n = chars_of(notes);
    if n.len() == 0 {
        push_all(&mut v, &chars_of("查看 GitHub 发布页面了解更新内容"));
    } else {
        push_all(&mut v, &n);
    }
    push_all(&mut v, &chars_of("\n\n是否立即下载并安装？安装完成后应用将自动重启。"));
    string_of(v.as_slice())
}

} // verus!
