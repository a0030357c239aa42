use vstd::prelude::*;
use vstd::string::StringExecFns;

use crate::error::InstallerError;
use crate::text::{ascii_lower, chars_of, ends_with_chars, has_infix, has_prefix, has_suffix, lower_chars, str_equals};

verus! {

/// A progress report of an installation run, as the window shows it.
pub struct ProgressUpdate {
    pub run_id: u64,
    pub percent: u8,
    pub phase: String,
    pub title: String,
    pub detail: String,
    pub component: String,
}

/// The fields of a progress report other than its run, by their characters.
pub type ProgressView = (u8, Seq<char>, Seq<char>, Seq<char>, Seq<char>);

/// The fields of a progress report other than its run.
pub open spec fn progress_view(p: ProgressUpdate) -> ProgressView {
    (p.percent, p.phase@, p.title@, p.detail@, p.component@)
}

/// A progress report of run `run_id`.
pub fn progress_update(run_id: u64, percent: u8, phase: &str, title: &str, detail: &str, component: &str) -> (r: ProgressUpdate)
    ensures
        r.run_id == run_id,
        progress_view(r) == (percent, phase@, title@, detail@, component@),
{
    ProgressUpdate {
        run_id,
        percent,
        phase: String::from_str(phase),
        title: String::from_str(title),
        detail: String::from_str(detail),
        component: String::from_str(component),
    }
}

/// What an installation run reports when it is done.
pub struct InstallResult {
    pub codex_version: String,
    pub companion_name: String,
    pub install_directory: String,
}

/// The name shown for a companion tool: CC Switch for `cc-switch`, Codex++
/// for anything else.
pub open spec fn companion_name_spec(companion: Seq<char>) -> Seq<char> {
    if companion == "cc-switch"@ {
        "CC Switch"@
    } else {
        "Codex++"@
    }
}

/// The name shown for a companion tool.
pub fn companion_display_name(companion: &str) -> (r: String)
    ensures
        r@ == companion_name_spec(companion@),
{
    if str_equals(companion, "cc-switch") {
        String::from_str("CC Switch")
    } else {
        String::from_str("Codex++")
    }
}

/// What the check found, in words.
pub open spec fn check_detail_spec(codex_detected: bool, companion_installed: bool, name: Seq<char>) -> Seq<char> {
    if codex_detected && companion_installed {
        "已检测到 Codex 和 "@ + name + "，无需重复下载"@
    } else if codex_detected {
        "已检测到 Codex，仅需安装 "@ + name
    } else if companion_installed {
        "已检测到 "@ + name + "，仅需安装 Codex"@
    } else {
        "未检测到 Codex 和 "@ + name + "，准备下载安装"@
    }
}

/// Tells the user what the check found and what remains to install.
pub fn installation_check_detail(codex_detected: bool, companion_installed: bool, name: &str) -> (r: String)
    ensures
        r@ == check_detail_spec(codex_detected, companion_installed, name@),
{
    if codex_detected && companion_installed {
        String::from_str("已检测到 Codex 和 ").concat(name).concat("，无需重复下载")
    } else if codex_detected {
        String::from_str("已检测到 Codex，仅需安装 ").concat(name)
    } else if companion_installed {
        String::from_str("已检测到 ").concat(name).concat("，仅需安装 Codex")
    } else {
        String::from_str("未检测到 Codex 和 ").concat(name).concat("，准备下载安装")
    }
}

/// The fixed points at which an installation run reports progress.
pub enum InstallMilestone {
    CheckingEnvironment,
    CheckComplete,
    CodexSkipped,
    CodexFetching,
    RuntimeSkipped,
    RuntimeFetching,
    CompanionSkipped,
    CompanionFetching,
    FinalCheck,
    Complete,
}

/// The report at a milestone, for the companion tool `name`; `detail` is the
/// result of the check.
pub open spec fn milestone_spec(m: InstallMilestone, name: Seq<char>, detail: Seq<char>) -> ProgressView {
    match m {
        InstallMilestone::CheckingEnvironment => (4, "check"@, "正在检查电脑环境"@, "确认系统版本与安装目录"@, "环境检查"@),
        InstallMilestone::CheckComplete => (7, "check"@, "已完成安装检测"@, detail, "环境检查"@),
        InstallMilestone::CodexSkipped => (58, "skip"@, "检测到 Codex 桌面版已安装"@, "已确认桌面应用存在，跳过重复下载与安装"@, "Codex"@),
        InstallMilestone::CodexFetching => (8, "download"@, "正在获取 Codex 桌面版"@, "连接 OpenAI 官方桌面应用下载服务"@, "Codex"@),
        InstallMilestone::RuntimeSkipped => (62, "skip"@, "检测到 Microsoft Visual C++ 运行库"@, "已确认系统依赖存在，跳过重复安装"@, "系统依赖"@),
        InstallMilestone::RuntimeFetching => (59, "download"@, "正在下载 Microsoft Visual C++ 运行库"@, "从 Microsoft 官方下载服务获取系统组件"@, "系统依赖"@),
        InstallMilestone::CompanionSkipped => (94, "skip"@, "检测到 "@ + name + " 已安装"@, "跳过重复下载与安装，可在完成页直接启动"@, name),
        InstallMilestone::CompanionFetching => (63, "download"@, "正在获取 "@ + name + " 版本"@, "选择适用于 Windows 的官方安装包"@, name),
        InstallMilestone::FinalCheck => (97, "verify"@, "正在做最后检查"@, "确认桌面应用与配置工具可以正常使用"@, "最终检查"@),
        InstallMilestone::Complete => (100, "done"@, "全部安装完成"@, "组件已经可以使用"@, "完成"@),
    }
}

/// The report of run `run_id` at a milestone.
pub fn milestone_progress(run_id: u64, m: InstallMilestone, name: &str, detail: &str) -> (r: ProgressUpdate)
    ensures
        r.run_id == run_id,
        progress_view(r) == milestone_spec(m, name@, detail@),
{
    match m {
        InstallMilestone::CheckingEnvironment => progress_update(run_id, 4, "check", "正在检查电脑环境", "确认系统版本与安装目录", "环境检查"),
        InstallMilestone::CheckComplete => progress_update(run_id, 7, "check", "已完成安装检测", detail, "环境检查"),
        InstallMilestone::CodexSkipped => progress_update(run_id, 58, "skip", "检测到 Codex 桌面版已安装", "已确认桌面应用存在，跳过重复下载与安装", "Codex"),
        InstallMilestone::CodexFetching => progress_update(run_id, 8, "download", "正在获取 Codex 桌面版", "连接 OpenAI 官方桌面应用下载服务", "Codex"),
        InstallMilestone::RuntimeSkipped => progress_update(run_id, 62, "skip", "检测到 Microsoft Visual C++ 运行库", "已确认系统依赖存在，跳过重复安装", "系统依赖"),
        InstallMilestone::RuntimeFetching => progress_update(run_id, 59, "download", "正在下载 Microsoft Visual C++ 运行库", "从 Microsoft 官方下载服务获取系统组件", "系统依赖"),
        InstallMilestone::CompanionSkipped => {
            let title = String::from_str("检测到 ").concat(name).concat(" 已安装");
            progress_update(run_id, 94, "skip", title.as_str(), "跳过重复下载与安装，可在完成页直接启动", name)
        },
        InstallMilestone::CompanionFetching => {
            let title = String::from_str("正在获取 ").concat(name).concat(" 版本");
            progress_update(run_id, 63, "download", title.as_str(), "选择适用于 Windows 的官方安装包", name)
        },
        InstallMilestone::FinalCheck => progress_update(run_id, 97, "verify", "正在做最后检查", "确认桌面应用与配置工具可以正常使用", "最终检查"),
        InstallMilestone::Complete => progress_update(run_id, 100, "done", "全部安装完成", "组件已经可以使用", "完成"),
    }
}

/// The parts that an installation run downloads and installs.
pub enum Component {
    CodexDesktop,
    Runtime,
    Companion,
}

/// The share of the progress bar that the download of a part covers.
pub open spec fn download_window_spec(c: Component) -> (u8, u8) {
    match c {
        Component::CodexDesktop => (10, 46),
        Component::Runtime => (59, 60),
        Component::Companion => (64, 77),
    }
}

/// The share of the progress bar that the download of a part covers.
pub fn download_window(c: &Component) -> (r: (u8, u8))
    ensures
        r == download_window_spec(*c),
        r.0 <= r.1,
{
    match c {
        Component::CodexDesktop => (10, 46),
        Component::Runtime => (59, 60),
        Component::Companion => (64, 77),
    }
}

/// How a part is named in progress reports; `name` is that of the companion tool.
pub open spec fn component_label_spec(c: Component, name: Seq<char>) -> Seq<char> {
    match c {
        Component::CodexDesktop => "Codex"@,
        Component::Runtime => "系统依赖"@,
        Component::Companion => name,
    }
}

/// How a part is named in progress reports.
pub fn component_label(c: &Component, name: &str) -> (r: String)
    ensures
        r@ == component_label_spec(*c, name@),
{
    match c {
        Component::CodexDesktop => String::from_str("Codex"),
        Component::Runtime => String::from_str("系统依赖"),
        Component::Companion => String::from_str(name),
    }
}

/// Percent shown during a download that covers `start..end` of the bar:
/// `start` plus the downloaded share of the window, truncated to a byte and
/// added with saturation; `start` while the total is unknown.
pub open spec fn download_percent_spec(start: u8, end: u8, downloaded: u64, total: u64) -> int {
    if total > 0 {
        let step = (((end - start) * downloaded) / (total as int)) % 256;
        if start + step > 255 { 255 } else { start + step }
    } else {
        start as int
    }
}

/// Percent shown during a download.
pub fn download_percent(start: u8, end: u8, downloaded: u64, total: u64) -> (r: u8)
    requires
        start <= end,
        (end - start) * downloaded <= u64::MAX,
    ensures
        r == download_percent_spec(start, end, downloaded, total),
        downloaded <= total ==> start <= r <= end,
{
    proof {
        if downloaded <= total {
            lemma_download_percent_within_window(start, end, downloaded, downloaded, total);
        }
    }
    if total > 0 {
        let width: u64 = (end - start) as u64;
        let q: u64 = (width * downloaded) / total;
        let step: u8 = (q % 256) as u8;
        if (start as u16) + (step as u16) > 255 {
            255
        } else {
            start + step
        }
    } else {
        start
    }
}

/// The report after `downloaded` bytes of a part.
pub fn download_progress(
    run_id: u64,
    label: &str,
    asset_name: &str,
    start: u8,
    end: u8,
    downloaded: u64,
    total: u64,
) -> (r: ProgressUpdate)
    requires
        start <= end,
        (end - start) * downloaded <= u64::MAX,
    ensures
        r.run_id == run_id,
        r.percent == download_percent_spec(start, end, downloaded, total),
        downloaded <= total ==> start <= r.percent <= end,
        r.phase@ == "download"@,
        r.title@ == "正在下载 "@ + label@,
        r.detail@ == asset_name@,
        r.component@ == label@,
{
    let title = String::from_str("正在下载 ").concat(label);
    progress_update(run_id, download_percent(start, end, downloaded, total), "download", title.as_str(), asset_name, label)
}

/// Percent at which an installer starts, where the bar starts while waiting
/// for it, and where it stops while waiting.
pub open spec fn installer_percents_spec(c: Component) -> (u8, u8, u8) {
    match c {
        Component::CodexDesktop => (50, 51, 58),
        Component::Runtime => (61, 61, 62),
        Component::Companion => (78, 80, 94),
    }
}

/// Percent at which an installer starts, where the bar starts while waiting
/// for it, and where it stops while waiting.
pub fn installer_percents(c: &Component) -> (r: (u8, u8, u8))
    ensures
        r == installer_percents_spec(*c),
        r.1 <= r.2 < 255,
{
    match c {
        Component::CodexDesktop => (50, 51, 58),
        Component::Runtime => (61, 61, 62),
        Component::Companion => (78, 80, 94),
    }
}

/// Title and details (on start, while waiting) of the reports of an installer.
pub open spec fn installer_texts_spec(c: Component, name: Seq<char>) -> (Seq<char>, Seq<char>, Seq<char>) {
    match c {
        Component::CodexDesktop => ("正在安装 Codex 桌面版"@, "正在部署 OpenAI 官方签名的 MSIX 应用包"@, "Windows 正在注册应用文件"@),
        Component::Runtime => ("正在安装 Microsoft Visual C++ 运行库"@, "这是 Codex++ 和 CC Switch 运行所需的系统组件"@, "Windows 正在注册运行时组件"@),
        Component::Companion => ("正在安装 "@ + name, "正在运行官方安装程序"@, "安装程序正在处理文件"@),
    }
}

/// The report of an installer: on start (`waiting` false) at its start
/// percent, else while waiting at `percent`.
pub fn installer_progress(run_id: u64, c: &Component, name: &str, waiting: bool, percent: u8) -> (r: ProgressUpdate)
    ensures
        r.run_id == run_id,
        r.percent == (if waiting { percent } else { installer_percents_spec(*c).0 }),
        r.phase@ == "install"@,
        r.title@ == installer_texts_spec(*c, name@).0,
        r.detail@ == (if waiting { installer_texts_spec(*c, name@).2 } else { installer_texts_spec(*c, name@).1 }),
        r.component@ == component_label_spec(*c, name@),
{
    let (start, _, _) = installer_percents(c);
    let shown = if waiting { percent } else { start };
    let label = component_label(c, name);
    match c {
        Component::CodexDesktop => progress_update(run_id, shown, "install", "正在安装 Codex 桌面版",
            if waiting { "Windows 正在注册应用文件" } else { "正在部署 OpenAI 官方签名的 MSIX 应用包" }, label.as_str()),
        Component::Runtime => progress_update(run_id, shown, "install", "正在安装 Microsoft Visual C++ 运行库",
            if waiting { "Windows 正在注册运行时组件" } else { "这是 Codex++ 和 CC Switch 运行所需的系统组件" }, label.as_str()),
        Component::Companion => {
            let title = String::from_str("正在安装 ").concat(name);
            progress_update(run_id, shown, "install", title.as_str(),
                if waiting { "安装程序正在处理文件" } else { "正在运行官方安装程序" }, label.as_str())
        },
    }
}

/// What to do after looking at a running installer.
pub enum InstallPoll {
    /// The run was cancelled: stop the installer and fail.
    Cancelled,
    /// The installer exited with failure.
    Failed,
    /// The installer exited with success.
    Finished,
    /// The installer is still running: report this percent and look again.
    Waiting(u8),
}

/// The decision after looking at a running installer: a cancelled run stops
/// first; an exited installer ends the wait with its outcome; otherwise the
/// bar moves on by one, up to `cap`.
pub fn install_poll(active: bool, exit_success: Option<bool>, current: u8, cap: u8) -> (r: InstallPoll)
    requires
        current < 255,
    ensures
        !active ==> (r matches InstallPoll::Cancelled),
        active && exit_success == Some(false) ==> (r matches InstallPoll::Failed),
        active && exit_success == Some(true) ==> (r matches InstallPoll::Finished),
        active && exit_success is None ==> (r matches InstallPoll::Waiting(p) && p == (if current + 1 < cap {
            current + 1
        } else {
            cap as int
        })),
{
    if !active {
        return InstallPoll::Cancelled;
    }
    match exit_success {
        Some(true) => InstallPoll::Finished,
        Some(false) => InstallPoll::Failed,
        None => {
            let next = current + 1;
            InstallPoll::Waiting(if next < cap { next } else { cap })
        },
    }
}

/// The error when an installer exits with failure; `status` describes the exit.
pub fn installer_failure(c: &Component, name: &str, status: String) -> (r: InstallerError)
    ensures
        *c matches Component::CodexDesktop ==> r == (InstallerError::CodexInstallerFailed { status }),
        *c matches Component::Runtime ==> r == (InstallerError::RuntimeInstallerFailed { status }),
        *c matches Component::Companion ==> (r matches InstallerError::CompanionInstallerFailed { component: n, status: s } && n@ == name@ && s == status),
{
    match c {
        Component::CodexDesktop => InstallerError::CodexInstallerFailed { status },
        Component::Runtime => InstallerError::RuntimeInstallerFailed { status },
        Component::Companion => InstallerError::CompanionInstallerFailed { component: String::from_str(name), status },
    }
}

/// How many times the runtime is looked for after its installer exits.
pub const RUNTIME_CHECK_ATTEMPTS: u32 = 20;

/// What to do after looking for the runtime once its installer has exited.
pub enum RuntimeCheck {
    /// The runtime is there: the install succeeded.
    Verified,
    /// The run is no longer live: stop.
    Cancelled,
    /// Wait, then look again.
    Wait,
    /// Wait, then fail with `RuntimeNotVerified`: that was the last look.
    WaitThenFail,
}

/// The decision after look number `attempt` (from 0) for the runtime: found
/// means done; otherwise a cancelled run stops, and a live one waits, to
/// look again unless this was the last of [`RUNTIME_CHECK_ATTEMPTS`] looks.
pub fn runtime_check_step(attempt: u32, installed: bool, active: bool) -> (r: RuntimeCheck)
    requires
        attempt < RUNTIME_CHECK_ATTEMPTS,
    ensures
        installed ==> (r matches RuntimeCheck::Verified),
        !installed && !active ==> (r matches RuntimeCheck::Cancelled),
        !installed && active && attempt + 1 < RUNTIME_CHECK_ATTEMPTS ==> (r matches RuntimeCheck::Wait),
        !installed && active && attempt + 1 == RUNTIME_CHECK_ATTEMPTS ==> (r matches RuntimeCheck::WaitThenFail),
{
    if installed {
        RuntimeCheck::Verified
    } else if !active {
        RuntimeCheck::Cancelled
    } else if attempt + 1 < RUNTIME_CHECK_ATTEMPTS {
        RuntimeCheck::Wait
    } else {
        RuntimeCheck::WaitThenFail
    }
}

/// The elevated PowerShell script that runs a companion installer: `msiexec`
/// for a `.msi` package, the installer itself with `/S` otherwise.
pub open spec fn companion_installer_script_spec(path: Seq<char>) -> Seq<char> {
    if has_suffix(ascii_lower(path), ".msi"@) {
        "$arguments = @('/i', ('\"' + $env:CODEX_COMPANION_INSTALLER + '\"'), '/qn', '/norestart'); $process = Start-Process -FilePath 'msiexec.exe' -ArgumentList $arguments -Verb RunAs -PassThru -Wait; exit $process.ExitCode"@
    } else {
        "$process = Start-Process -FilePath $env:CODEX_COMPANION_INSTALLER -ArgumentList '/S' -Verb RunAs -PassThru -Wait; exit $process.ExitCode"@
    }
}

/// What the companion script runs. For a path that ends in `.msi`, in any
/// case, it first sets the arguments of `msiexec` to install (`/i`) the
/// package named by `$env:CODEX_COMPANION_INSTALLER`, quietly and without a
/// restart, then starts `msiexec.exe` with them, elevated; any other file it
/// starts itself, elevated, with the silent switch `/S`. Either way it exits
/// with the installer's exit code.
pub proof fn lemma_companion_installer_script(path: Seq<char>)
    ensures
        has_suffix(ascii_lower(path), ".msi"@) ==> {
            let s = companion_installer_script_spec(path);
            &&& has_prefix(s, "$arguments = @('/i', ('\"' + $env:CODEX_COMPANION_INSTALLER + '\"'), '/qn', '/norestart');"@)
            &&& has_infix(s, "Start-Process -FilePath 'msiexec.exe' -ArgumentList $arguments -Verb RunAs"@)
            &&& has_suffix(s, "exit $process.ExitCode"@)
        },
        !has_suffix(ascii_lower(path), ".msi"@) ==> {
            let s = companion_installer_script_spec(path);
            &&& has_infix(s, "Start-Process -FilePath $env:CODEX_COMPANION_INSTALLER -ArgumentList '/S' -Verb RunAs"@)
            &&& has_suffix(s, "exit $process.ExitCode"@)
        },
{
    reveal_strlit("$arguments = @('/i', ('\"' + $env:CODEX_COMPANION_INSTALLER + '\"'), '/qn', '/norestart'); $process = Start-Process -FilePath 'msiexec.exe' -ArgumentList $arguments -Verb RunAs -PassThru -Wait; exit $process.ExitCode");
    reveal_strlit("$process = Start-Process -FilePath $env:CODEX_COMPANION_INSTALLER -ArgumentList '/S' -Verb RunAs -PassThru -Wait; exit $process.ExitCode");
    reveal_strlit("$arguments = @('/i', ('\"' + $env:CODEX_COMPANION_INSTALLER + '\"'), '/qn', '/norestart');");
    reveal_strlit("Start-Process -FilePath 'msiexec.exe' -ArgumentList $arguments -Verb RunAs");
    reveal_strlit("Start-Process -FilePath $env:CODEX_COMPANION_INSTALLER -ArgumentList '/S' -Verb RunAs");
    reveal_strlit("exit $process.ExitCode");
    let msi = "$arguments = @('/i', ('\"' + $env:CODEX_COMPANION_INSTALLER + '\"'), '/qn', '/norestart'); $process = Start-Process -FilePath 'msiexec.exe' -ArgumentList $arguments -Verb RunAs -PassThru -Wait; exit $process.ExitCode"@;
    let exe = "$process = Start-Process -FilePath $env:CODEX_COMPANION_INSTALLER -ArgumentList '/S' -Verb RunAs -PassThru -Wait; exit $process.ExitCode"@;
    let run_msi = "Start-Process -FilePath 'msiexec.exe' -ArgumentList $arguments -Verb RunAs"@;
    let run_exe = "Start-Process -FilePath $env:CODEX_COMPANION_INSTALLER -ArgumentList '/S' -Verb RunAs"@;
    assert(msi.subrange(0, 88) =~= "$arguments = @('/i', ('\"' + $env:CODEX_COMPANION_INSTALLER + '\"'), '/qn', '/norestart');"@);
    assert(has_infix(msi, run_msi)) by {
        assert(msi.subrange(100, 100int + run_msi.len()) =~= run_msi);
    }
    assert(msi.subrange(192, 214) =~= "exit $process.ExitCode"@);
    assert(has_infix(exe, run_exe)) by {
        assert(exe.subrange(11, 11int + run_exe.len()) =~= run_exe);
    }
    assert(exe.subrange(114, 136) =~= "exit $process.ExitCode"@);
}

/// The elevated PowerShell script that runs the companion installer at `path`.
pub fn companion_installer_script(path: &str) -> (r: String)
    ensures
        r@ == companion_installer_script_spec(path@),
{
    let lower = lower_chars(&chars_of(path));
    if ends_with_chars(&lower, ".msi") {
        String::from_str("$arguments = @('/i', ('\"' + $env:CODEX_COMPANION_INSTALLER + '\"'), '/qn', '/norestart'); $process = Start-Process -FilePath 'msiexec.exe' -ArgumentList $arguments -Verb RunAs -PassThru -Wait; exit $process.ExitCode")
    } else {
        String::from_str("$process = Start-Process -FilePath $env:CODEX_COMPANION_INSTALLER -ArgumentList '/S' -Verb RunAs -PassThru -Wait; exit $process.ExitCode")
    }
}


/// The stages that a rehearsal run (where installing is not supported)
/// reports, for the companion tool `name`.
pub open spec fn rehearsal_stages_spec(name: Seq<char>) -> Seq<ProgressView> {
    seq![
        (5u8, "check"@, "正在检查电脑环境"@, "macOS 测试环境仅模拟安装流程"@, "环境检查"@),
        (18u8, "download"@, "正在下载 Codex"@, "模拟接收 Codex 安装文件"@, "Codex"@),
        (50u8, "install"@, "正在安装 Codex"@, "模拟部署 Codex 桌面应用"@, "Codex"@),
        (64u8, "verify"@, "正在验证 Codex"@, "模拟检查 Codex 版本"@, "Codex"@),
        (76u8, "download"@, "正在获取配置工具"@, "模拟下载配置工具安装包"@, name),
        (94u8, "install"@, "正在安装配置工具"@, "模拟执行官方安装程序"@, name),
        (100u8, "done"@, "全部安装完成"@, "macOS 流程测试已完成，未修改系统"@, "完成"@),
    ]
}

/// The reports of a rehearsal run, in order.
pub fn rehearsal_stages(run_id: u64, name: &str) -> (r: Vec<ProgressUpdate>)
    ensures
        r@.len() == 7,
        forall|i: int| 0 <= i < 7 ==> (#[trigger] r@[i]).run_id == run_id,
        r@.map_values(|p: ProgressUpdate| progress_view(p)) == rehearsal_stages_spec(name@),
{
    let mut r: Vec<ProgressUpdate> = Vec::new();
    r.push(progress_update(run_id, 5, "check", "正在检查电脑环境", "macOS 测试环境仅模拟安装流程", "环境检查"));
    r.push(progress_update(run_id, 18, "download", "正在下载 Codex", "模拟接收 Codex 安装文件", "Codex"));
    r.push(progress_update(run_id, 50, "install", "正在安装 Codex", "模拟部署 Codex 桌面应用", "Codex"));
    r.push(progress_update(run_id, 64, "verify", "正在验证 Codex", "模拟检查 Codex 版本", "Codex"));
    r.push(progress_update(run_id, 76, "download", "正在获取配置工具", "模拟下载配置工具安装包", name));
    r.push(progress_update(run_id, 94, "install", "正在安装配置工具", "模拟执行官方安装程序", name));
    r.push(progress_update(run_id, 100, "done", "全部安装完成", "macOS 流程测试已完成，未修改系统", "完成"));
    assert(r@.map_values(|p: ProgressUpdate| progress_view(p)) =~= rehearsal_stages_spec(name@));
    r
}

/// What a rehearsal run reports when it is done.
pub fn rehearsal_result(name: &str) -> (r: InstallResult)
    ensures
        r.codex_version@ == "macOS 流程测试"@,
        r.companion_name@ == name@,
        r.install_directory@ == "模拟模式（未写入文件）"@,
{
    InstallResult {
        codex_version: String::from_str("macOS 流程测试"),
        companion_name: String::from_str(name),
        install_directory: String::from_str("模拟模式（未写入文件）"),
    }
}


/// The environment variable through which a part's installer receives the
/// path of its downloaded file.
pub open spec fn installer_variable_spec(c: Component) -> Seq<char> {
    match c {
        Component::CodexDesktop => "CODEX_INSTALLER_MSIX_PATH"@,
        Component::Runtime => "VC_REDIST_INSTALLER"@,
        Component::Companion => "CODEX_COMPANION_INSTALLER"@,
    }
}

/// The PowerShell script that installs a part from its downloaded file at
/// `path`: the MSIX package is added for Codex, the runtime installer runs
/// quietly with elevation, and the companion installer as
/// [`companion_installer_script`] says.
pub open spec fn installer_script_spec(c: Component, path: Seq<char>) -> Seq<char> {
    match c {
        Component::CodexDesktop => "Add-AppxPackage -Path $env:CODEX_INSTALLER_MSIX_PATH"@,
        Component::Runtime => "$process = Start-Process -FilePath $env:VC_REDIST_INSTALLER -ArgumentList @('/install', '/quiet', '/norestart') -Verb RunAs -PassThru -Wait; exit $process.ExitCode"@,
        Component::Companion => companion_installer_script_spec(path),
    }
}

/// The environment variable and the PowerShell script that install a part
/// from its downloaded file at `path`.
pub fn installer_command(c: &Component, path: &str) -> (r: (String, String))
    ensures
        r.0@ == installer_variable_spec(*c),
        r.1@ == installer_script_spec(*c, path@),
{
    match c {
        Component::CodexDesktop => (
            String::from_str("CODEX_INSTALLER_MSIX_PATH"),
            String::from_str("Add-AppxPackage -Path $env:CODEX_INSTALLER_MSIX_PATH"),
        ),
        Component::Runtime => (
            String::from_str("VC_REDIST_INSTALLER"),
            String::from_str("$process = Start-Process -FilePath $env:VC_REDIST_INSTALLER -ArgumentList @('/install', '/quiet', '/norestart') -Verb RunAs -PassThru -Wait; exit $process.ExitCode"),
        ),
        Component::Companion => (
            String::from_str("CODEX_COMPANION_INSTALLER"),
            companion_installer_script(path),
        ),
    }
}

/// The error when a part's installer cannot be started; `reason` describes why.
pub fn installer_start_failure(c: &Component, name: &str, reason: String) -> (r: InstallerError)
    ensures
        *c matches Component::CodexDesktop ==> (r matches InstallerError::CodexInstallerNotStarted),
        *c matches Component::Runtime ==> r == (InstallerError::RuntimeInstallerNotStarted { reason }),
        *c matches Component::Companion ==> (r matches InstallerError::CompanionInstallerNotStarted {
            component: n,
            reason: s,
        } && n@ == name@ && s == reason),
{
    match c {
        Component::CodexDesktop => InstallerError::CodexInstallerNotStarted,
        Component::Runtime => InstallerError::RuntimeInstallerNotStarted { reason },
        Component::Companion => InstallerError::CompanionInstallerNotStarted {
            component: String::from_str(name),
            reason,
        },
    }
}


/// While the downloaded amount stays within the announced total, the
/// download percent stays within the window of its part and never goes back.
pub proof fn lemma_download_percent_within_window(start: u8, end: u8, d1: u64, d2: u64, total: u64)
    requires
        start <= end,
        d1 <= d2 <= total,
    ensures
        start <= download_percent_spec(start, end, d1, total) <= download_percent_spec(start, end, d2, total),
        download_percent_spec(start, end, d2, total) <= end,
{
    if total > 0 {
        let w: int = end - start;
        assert(0 <= w * d1 <= w * d2 <= w * total) by (nonlinear_arith)
            requires
                0 <= w,
                0 <= d1 <= d2 <= total,
        ;
        assert((w * d1) / (total as int) <= (w * d2) / (total as int)) by (nonlinear_arith)
            requires
                0 <= w * d1 <= w * d2,
                total > 0,
        ;
        assert((w * d2) / (total as int) <= (w * total) / (total as int)) by (nonlinear_arith)
            requires
                0 <= w * d2 <= w * total,
                total > 0,
        ;
        assert((w * total) / (total as int) == w) by (nonlinear_arith)
            requires
                total > 0,
        ;
        assert(0 <= (w * d1) / (total as int)) by (nonlinear_arith)
            requires
                0 <= w * d1,
                total > 0,
        ;
        assert(w <= 255);
    }
}

/// While an installer runs, the bar moves forward and stays at or below its cap.
pub proof fn lemma_install_poll_progress(current: u8, cap: u8)
    requires
        current <= cap,
    ensures
        current <= (if current + 1 < cap { current + 1 } else { cap as int }) <= cap,
{
}

} // verus!
