use vstd::prelude::*;
use vstd::string::StringExecFns;

verus! {

/// Every way in which an installer or update step can fail.
pub enum InstallerError {
    /// The run was cancelled or superseded by a newer run.
    Cancelled,
    /// The version of the running application is not a semantic version.
    InvalidCurrentVersion,
    /// The tag of the latest release is not a semantic version.
    InvalidReleaseVersion { tag: String },
    /// The latest release carries no installer for the architecture.
    NoAppUpdateInstaller { architecture: String },
    /// The update manifest of Codex++ lists no Windows installer for the architecture.
    NoCodexPlusPlusInstaller { architecture: String, version: String },
    /// CC Switch is not offered for the architecture.
    UnsupportedCcSwitchArchitecture { architecture: String },
    /// The update manifest of CC Switch lists no file for the platform.
    NoCcSwitchPlatform { platform: String, version: String },
    /// The Codex desktop application is not offered for the architecture.
    UnsupportedDesktopArchitecture { architecture: String },
    /// The Visual C++ runtime is not offered for the architecture.
    UnsupportedRuntimeArchitecture { architecture: String },
    /// A download does not have the digest that was published for it.
    DigestMismatch,
    /// There is no newer version to install.
    AlreadyLatest,
    /// The update would be downloaded from elsewhere than a release of this application.
    ForeignUpdateUrl,
    /// The update's asset name is not that of a Windows executable.
    InvalidUpdateInstallerName,
    /// The Codex desktop installer finished, but Codex cannot be found.
    CodexNotRegistered,
    /// The Codex desktop installer reported failure with this status.
    CodexInstallerFailed { status: String },
    /// The installer of a companion tool reported failure with this status.
    CompanionInstallerFailed { component: String, status: String },
    /// The Visual C++ runtime installer reported failure with this status.
    RuntimeInstallerFailed { status: String },
    /// The Visual C++ runtime installer finished, but the runtime is not there.
    RuntimeNotVerified,
    /// The Codex desktop installer could not be started.
    CodexInstallerNotStarted,
    /// The installer of a companion tool could not be started.
    CompanionInstallerNotStarted { component: String, reason: String },
    /// The Visual C++ runtime installer could not be started.
    RuntimeInstallerNotStarted { reason: String },
}

/// The message that the user is shown for an error.
pub open spec fn error_message(e: InstallerError) -> Seq<char> {
    match e {
        InstallerError::Cancelled => "安装任务已取消"@,
        InstallerError::InvalidCurrentVersion => "当前应用版本号格式无效"@,
        InstallerError::InvalidReleaseVersion { tag } => "Release 版本号格式无效："@ + tag@,
        InstallerError::NoAppUpdateInstaller { architecture } => "最新版本中没有适用于 "@
            + architecture@ + " Windows 的安装包"@,
        InstallerError::NoCodexPlusPlusInstaller { architecture, version } =>
            "Codex++ 官方更新清单中没有适用于 "@ + architecture@ + " Windows 的安装文件（"@ + version@
                + "）"@,
        InstallerError::UnsupportedCcSwitchArchitecture { architecture } =>
            "CC Switch 暂不支持当前架构："@ + architecture@,
        InstallerError::NoCcSwitchPlatform { platform, version } => "CC Switch 官方更新清单中没有 "@
            + platform@ + " 安装文件（"@ + version@ + "）"@,
        InstallerError::UnsupportedDesktopArchitecture { architecture } =>
            "Codex 桌面版暂不支持当前架构："@ + architecture@,
        InstallerError::UnsupportedRuntimeArchitecture { architecture } =>
            "Microsoft Visual C++ 运行库暂不支持当前架构："@ + architecture@,
        InstallerError::DigestMismatch => "下载校验失败，文件可能已损坏"@,
        InstallerError::AlreadyLatest => "当前已经是最新版本"@,
        InstallerError::ForeignUpdateUrl => "更新下载地址不属于本项目的 GitHub Release"@,
        InstallerError::InvalidUpdateInstallerName => "更新安装包名称无效"@,
        InstallerError::CodexNotRegistered => "Codex 桌面版安装完成，但应用注册验证没有通过"@,
        InstallerError::CodexInstallerFailed { status } => "Codex 桌面版安装程序返回错误（"@ + status@
            + "）"@,
        InstallerError::CompanionInstallerFailed { component, status } => component@
            + " 安装程序返回错误（"@ + status@ + "）"@,
        InstallerError::RuntimeInstallerFailed { status } =>
            "Microsoft Visual C++ 运行库安装程序返回错误（"@ + status@ + "）"@,
        InstallerError::RuntimeNotVerified =>
            "Microsoft Visual C++ 运行库安装程序已退出，但 VCRUNTIME140.dll / VCRUNTIME140_1.dll 验证没有通过；请在权限提示中选择“是”后重试"@,
        InstallerError::CodexInstallerNotStarted => "无法启动 Codex 桌面版安装程序"@,
        InstallerError::CompanionInstallerNotStarted { component, reason } => "无法启动 "@
            + component@ + " 安装程序："@ + reason@,
        InstallerError::RuntimeInstallerNotStarted { reason } =>
            "无法启动 Microsoft Visual C++ 运行库安装程序："@ + reason@,
    }
}

/// `a`, then `b`, then `c`.
fn join3(a: &str, b: &str, c: &str) -> (r: String)
    ensures
        r@ == a@ + b@ + c@,
{
    String::from_str(a).concat(b).concat(c)
}

/// `a`, then `b`.
fn join2(a: &str, b: &str) -> (r: String)
    ensures
        r@ == a@ + b@,
{
    String::from_str(a).concat(b)
}

/// `a`, `b`, `c`, then `d`.
fn join4(a: &str, b: &str, c: &str, d: &str) -> (r: String)
    ensures
        r@ == a@ + b@ + c@ + d@,
{
    String::from_str(a).concat(b).concat(c).concat(d)
}

/// `a`, `b`, `c`, `d`, then `e`.
fn join5(a: &str, b: &str, c: &str, d: &str, e: &str) -> (r: String)
    ensures
        r@ == a@ + b@ + c@ + d@ + e@,
{
    String::from_str(a).concat(b).concat(c).concat(d).concat(e)
}

impl InstallerError {
    /// The message that the user is shown.
    pub fn message(&self) -> (r: String)
        ensures
            r@ == error_message(*self),
    {
        match self {
            InstallerError::Cancelled => String::from_str("安装任务已取消"),
            InstallerError::InvalidCurrentVersion => String::from_str("当前应用版本号格式无效"),
            InstallerError::InvalidReleaseVersion { tag } => join2("Release 版本号格式无效：", tag.as_str()),
            InstallerError::NoAppUpdateInstaller { architecture } => join3(
                "最新版本中没有适用于 ",
                architecture.as_str(),
                " Windows 的安装包",
            ),
            InstallerError::NoCodexPlusPlusInstaller { architecture, version } => join5(
                "Codex++ 官方更新清单中没有适用于 ",
                architecture.as_str(),
                " Windows 的安装文件（",
                version.as_str(),
                "）",
            ),
            InstallerError::UnsupportedCcSwitchArchitecture { architecture } => join2("CC Switch 暂不支持当前架构：", architecture.as_str()),
            InstallerError::NoCcSwitchPlatform { platform, version } => join5(
                "CC Switch 官方更新清单中没有 ",
                platform.as_str(),
                " 安装文件（",
                version.as_str(),
                "）",
            ),
            InstallerError::UnsupportedDesktopArchitecture { architecture } => join2("Codex 桌面版暂不支持当前架构：", architecture.as_str()),
            InstallerError::UnsupportedRuntimeArchitecture { architecture } => join2("Microsoft Visual C++ 运行库暂不支持当前架构：", architecture.as_str()),
            InstallerError::DigestMismatch => String::from_str("下载校验失败，文件可能已损坏"),
            InstallerError::AlreadyLatest => String::from_str("当前已经是最新版本"),
            InstallerError::ForeignUpdateUrl => String::from_str("更新下载地址不属于本项目的 GitHub Release"),
            InstallerError::InvalidUpdateInstallerName => String::from_str("更新安装包名称无效"),
            InstallerError::CodexNotRegistered => String::from_str("Codex 桌面版安装完成，但应用注册验证没有通过"),
            InstallerError::CodexInstallerFailed { status } => join3(
                "Codex 桌面版安装程序返回错误（",
                status.as_str(),
                "）",
            ),
            InstallerError::CompanionInstallerFailed { component, status } => join4(component.as_str(), " 安装程序返回错误（", status.as_str(), "）"),
            InstallerError::RuntimeInstallerFailed { status } => join3(
                "Microsoft Visual C++ 运行库安装程序返回错误（",
                status.as_str(),
                "）",
            ),
            InstallerError::RuntimeNotVerified => String::from_str("Microsoft Visual C++ 运行库安装程序已退出，但 VCRUNTIME140.dll / VCRUNTIME140_1.dll 验证没有通过；请在权限提示中选择“是”后重试"),
            InstallerError::CodexInstallerNotStarted => String::from_str("无法启动 Codex 桌面版安装程序"),
            InstallerError::CompanionInstallerNotStarted { component, reason } => join4("无法启动 ", component.as_str(), " 安装程序：", reason.as_str()),
            InstallerError::RuntimeInstallerNotStarted { reason } => join2("无法启动 Microsoft Visual C++ 运行库安装程序：", reason.as_str()),
        }
    }
}

} // verus!
