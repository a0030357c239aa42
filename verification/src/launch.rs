use vstd::prelude::*;
use vstd::string::StringExecFns;

use crate::detect::{CodexDesktopInstallation, companion_files_spec};
use crate::text::str_equals;

verus! {

/// A program that the user can start from the last page, by its launch target.
pub struct ProgramLaunch {
    /// The folder under `Programs` where the program is.
    pub directory: String,
    /// The program's file in that folder.
    pub file: String,
    /// How the program is named to the user.
    pub label: String,
}

/// Folder, file name and label of a launch target other than Codex.
pub open spec fn program_target_spec(target: Seq<char>) -> Option<(Seq<char>, Seq<char>, Seq<char>)> {
    if target == "codex-plus-plus-manager"@ {
        Some(("Codex++"@, "codex-plus-plus-manager.exe"@, "Codex++ 管理工具"@))
    } else if target == "codex-plus-plus"@ {
        Some(("Codex++"@, "codex-plus-plus.exe"@, "Codex++"@))
    } else if target == "cc-switch"@ {
        Some(("CC Switch"@, "cc-switch.exe"@, "CC Switch"@))
    } else {
        None
    }
}

/// The two Codex++ launch targets start different programs of the folder
/// `Codex++`: `codex-plus-plus` starts `codex-plus-plus.exe`, the manager
/// `codex-plus-plus-manager.exe`; and these two files, in that folder, are
/// exactly what detection looks for to count Codex++ (any companion tool but
/// CC Switch) as installed.
pub proof fn lemma_codex_plus_plus_targets(companion: Seq<char>)
    requires
        companion != "cc-switch"@,
    ensures
        program_target_spec("codex-plus-plus"@) matches Some(p) && program_target_spec(
            "codex-plus-plus-manager"@,
        ) matches Some(m) && {
            &&& p.0 == "Codex++"@ && m.0 == "Codex++"@
            &&& p.1 == "codex-plus-plus.exe"@ && m.1 == "codex-plus-plus-manager.exe"@
            &&& p.1 != m.1
            &&& companion_files_spec(companion) == seq![(m.0, m.1), (p.0, p.1)]
        },
{
    reveal_strlit("codex-plus-plus");
    reveal_strlit("codex-plus-plus-manager");
    reveal_strlit("codex-plus-plus.exe");
    reveal_strlit("codex-plus-plus-manager.exe");
    assert("codex-plus-plus"@.len() != "codex-plus-plus-manager"@.len());
    assert("codex-plus-plus.exe"@.len() != "codex-plus-plus-manager.exe"@.len());
}

/// CC Switch is counted as installed by the one file that its launch target
/// starts.
pub proof fn lemma_cc_switch_target()
    ensures
        program_target_spec("cc-switch"@) matches Some(t) && companion_files_spec("cc-switch"@) == seq![(t.0, t.1)],
{
    reveal_strlit("cc-switch");
    reveal_strlit("codex-plus-plus");
    reveal_strlit("codex-plus-plus-manager");
    assert("cc-switch"@.len() != "codex-plus-plus"@.len());
    assert("cc-switch"@.len() != "codex-plus-plus-manager"@.len());
}

/// Where a launch target other than Codex lives under the user's `Programs`
/// folder (whose path the file system joins): an error where that folder is
/// unknown, then where the target is unknown.
pub fn program_launch(target: &str, programs_known: bool) -> (r: Result<ProgramLaunch, String>)
    ensures
        !programs_known ==> (r matches Err(m) && m@ == "无法确定本地程序目录"@),
        programs_known ==> match program_target_spec(target@) {
            None => r matches Err(m) && m@ == "未知的启动目标"@,
            Some(t) => r matches Ok(l) && l.directory@ == t.0 && l.file@ == t.1 && l.label@ == t.2,
        },
{
    if !programs_known {
        return Err(String::from_str("无法确定本地程序目录"));
    }
    let (directory, file, label) = if str_equals(target, "codex-plus-plus-manager") {
        ("Codex++", "codex-plus-plus-manager.exe", "Codex++ 管理工具")
    } else if str_equals(target, "codex-plus-plus") {
        ("Codex++", "codex-plus-plus.exe", "Codex++")
    } else if str_equals(target, "cc-switch") {
        ("CC Switch", "cc-switch.exe", "CC Switch")
    } else {
        return Err(String::from_str("未知的启动目标"));
    };
    Ok(ProgramLaunch {
        directory: String::from_str(directory),
        file: String::from_str(file),
        label: String::from_str(label),
    })
}

/// Whether the launch target is the Codex desktop application.
pub fn targets_codex(target: &str) -> (r: bool)
    ensures
        r == (target@ == "codex"@),
{
    str_equals(target, "codex")
}

/// The message when a program to launch is not there.
pub fn program_missing_message(label: &str) -> (r: String)
    ensures
        r@ == "没有找到 "@ + label@ + "，请先完成安装"@,
{
    String::from_str("没有找到 ").concat(label).concat("，请先完成安装")
}

/// How Codex is started.
pub enum CodexLaunch {
    /// Run this executable.
    Executable(String),
    /// Open the Microsoft Store application through the shell.
    StoreApp,
}

/// How to start the Codex desktop application that was found, or the message
/// where none was.
pub fn codex_launch(installation: Option<CodexDesktopInstallation>) -> (r: Result<CodexLaunch, String>)
    ensures
        installation is None ==> (r matches Err(m) && m@ == "没有找到 Codex 桌面版，请先完成安装"@),
        installation matches Some(CodexDesktopInstallation::MicrosoftStore) ==> (r matches Ok(CodexLaunch::StoreApp)),
        installation matches Some(CodexDesktopInstallation::Executable(p)) ==> (r matches Ok(
            CodexLaunch::Executable(q),
        ) && q == p),
{
    match installation {
        Some(CodexDesktopInstallation::Executable(path)) => Ok(CodexLaunch::Executable(path)),
        Some(CodexDesktopInstallation::MicrosoftStore) => Ok(CodexLaunch::StoreApp),
        None => Err(String::from_str("没有找到 Codex 桌面版，请先完成安装")),
    }
}

/// The Windows error that asks for elevation (`ERROR_ELEVATION_REQUIRED`).
pub const ERROR_ELEVATION_REQUIRED: i32 = 740;

/// A failed start asks for elevation when the system error is 740.
pub fn needs_elevation(raw_os_error: Option<i32>) -> (r: bool)
    ensures
        r == (raw_os_error == Some(740i32)),
{
    match raw_os_error {
        Some(code) => code == ERROR_ELEVATION_REQUIRED,
        None => false,
    }
}

/// The message when a program could not be started.
pub fn launch_failure_message(label: &str, reason: &str) -> (r: String)
    ensures
        r@ == "无法启动 "@ + label@ + "："@ + reason@,
{
    String::from_str("无法启动 ").concat(label).concat("：").concat(reason)
}

/// The message when elevation could not be asked for.
pub fn elevation_request_failure_message(label: &str, reason: &str) -> (r: String)
    ensures
        r@ == "无法请求管理员权限启动 "@ + label@ + "："@ + reason@,
{
    String::from_str("无法请求管理员权限启动 ").concat(label).concat("：").concat(reason)
}

/// The outcome of an elevated start: success, or the message that the user
/// declined elevation.
pub fn elevated_launch_outcome(success: bool, label: &str) -> (r: Result<(), String>)
    ensures
        success ==> r is Ok,
        !success ==> (r matches Err(m) && m@ == label@ + " 需要管理员权限，权限确认已取消"@),
{
    if success {
        Ok(())
    } else {
        Err(String::from_str(label).concat(" 需要管理员权限，权限确认已取消"))
    }
}

} // verus!
