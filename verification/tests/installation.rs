use codex_installer::detect::{
    app_path_subkey, codex_desktop_app_path_candidates, codex_desktop_common_candidates,
    companion_is_installed, companion_program_files, detect_codex_desktop,
    microsoft_store_codex_installed, registered_executable_path, visual_cpp_runtime_installed,
    visual_cpp_runtime_registry_subkey, CandidatePath, CodexDesktopInstallation,
    RuntimeProbe,
};
use codex_installer::flow::{FlowAction, FlowEvent, InstallFlow};
use codex_installer::install::{
    companion_display_name, companion_installer_script, download_percent, download_progress,
    install_poll, installation_check_detail, installer_command, installer_failure,
    installer_progress, installer_start_failure, rehearsal_result, rehearsal_stages,
    runtime_check_step, Component, InstallPoll, RuntimeCheck,
};
use codex_installer::launch::{
    codex_launch, elevated_launch_outcome, launch_failure_message, needs_elevation,
    program_launch, program_missing_message, CodexLaunch,
};

#[test]
fn registered_path_handles_spaces_unicode_blanks_and_open_quotes() {
    assert_eq!(registered_executable_path("  \"C:\\A B\\x.exe\"  -flag"), "C:\\A B\\x.exe");
    assert_eq!(registered_executable_path("\u{3000}C:\\x.exe ,1\t"), "C:\\x.exe");
    assert_eq!(registered_executable_path("\"C:\\x.exe"), "C:\\x.exe");
    assert_eq!(registered_executable_path("   "), "");
}

#[test]
fn registry_candidates_skip_unreadable_values() {
    let values = vec![
        Some("\"C:\\Codex\\Codex.exe\" --open".to_string()),
        None,
        Some("C:\\ChatGPT\\ChatGPT.exe,0".to_string()),
    ];
    assert_eq!(
        codex_desktop_app_path_candidates(&values),
        vec!["C:\\Codex\\Codex.exe".to_string(), "C:\\ChatGPT\\ChatGPT.exe".to_string()]
    );
    assert_eq!(
        app_path_subkey("Codex.exe"),
        "Software\\Microsoft\\Windows\\CurrentVersion\\App Paths\\Codex.exe"
    );
}

#[test]
fn common_candidates_cover_every_folder() {
    let roots = vec!["C:\\Program Files".to_string(), "D:\\Apps\\".to_string()];
    let c = codex_desktop_common_candidates(&roots);
    assert_eq!(c.len(), 10);
    assert_eq!((c[0].root.as_str(), c[0].relative.as_str()), ("C:\\Program Files", "Codex\\Codex.exe"));
    assert_eq!(c[4].relative, "OpenAI\\ChatGPT\\ChatGPT.exe");
    assert_eq!((c[7].root.as_str(), c[7].relative.as_str()), ("D:\\Apps\\", "OpenAI Codex\\Codex.exe"));
}

#[test]
fn detection_prefers_first_existing_file_and_checks_store_last() {
    let candidates = vec![
        CandidatePath { path: "a".to_string(), is_file: false },
        CandidatePath { path: "b".to_string(), is_file: true },
        CandidatePath { path: "c".to_string(), is_file: true },
    ];
    let found = detect_codex_desktop(&candidates, || panic!("the store is not asked"));
    assert!(matches!(found, Some(CodexDesktopInstallation::Executable(ref p)) if p == "b"));
    let none: Vec<CandidatePath> = vec![];
    assert!(matches!(detect_codex_desktop(&none, || true), Some(CodexDesktopInstallation::MicrosoftStore)));
    assert!(detect_codex_desktop(&none, || false).is_none());
    assert!(microsoft_store_codex_installed(Some(true)));
    assert!(!microsoft_store_codex_installed(Some(false)));
    assert!(!microsoft_store_codex_installed(None));
}

#[test]
fn installation_descriptions() {
    assert_eq!(CodexDesktopInstallation::MicrosoftStore.description(), "Desktop（Microsoft Store / MSIX）");
    assert_eq!(
        CodexDesktopInstallation::Executable("C:\\Codex.exe".to_string()).description(),
        "Desktop（C:\\Codex.exe）"
    );
}

#[test]
fn runtime_counts_only_with_registry_and_both_libraries() {
    let probe = |r: Option<u32>, w: bool, a: bool, b: bool| RuntimeProbe {
        registry_installed: r,
        windows_dir_known: w,
        vcruntime140: a,
        vcruntime140_1: b,
    };
    assert!(visual_cpp_runtime_installed(&probe(Some(1), true, true, true)));
    assert!(!visual_cpp_runtime_installed(&probe(Some(0), true, true, true)));
    assert!(!visual_cpp_runtime_installed(&probe(None, true, true, true)));
    assert!(!visual_cpp_runtime_installed(&probe(Some(1), false, true, true)));
    assert!(!visual_cpp_runtime_installed(&probe(Some(1), true, true, false)));
    assert!(visual_cpp_runtime_registry_subkey("aarch64").ends_with("ARM64"));
    assert!(visual_cpp_runtime_registry_subkey("x86_64").ends_with("x64"));
}

#[test]
fn companion_files_depend_on_the_tool() {
    let cc = companion_program_files("cc-switch");
    assert_eq!(cc.len(), 1);
    assert_eq!(cc[0].directory, "CC Switch");
    assert_eq!(cc[0].file, "cc-switch.exe");
    let cpp = companion_program_files("codex-plus-plus");
    assert_eq!(cpp.len(), 2);
    assert_eq!(cpp[1].file, "codex-plus-plus.exe");
    assert!(companion_is_installed(true, &vec![true, true]));
    assert!(!companion_is_installed(true, &vec![true, false]));
    assert!(!companion_is_installed(false, &vec![true]));
    assert_eq!(companion_display_name("cc-switch"), "CC Switch");
    assert_eq!(companion_display_name("anything"), "Codex++");
}

#[test]
fn launch_targets_and_messages() {
    let l = program_launch("cc-switch", true).ok().unwrap();
    assert_eq!(l.directory, "CC Switch");
    assert_eq!(l.file, "cc-switch.exe");
    assert_eq!(l.label, "CC Switch");
    let m = program_launch("codex-plus-plus-manager", true).ok().unwrap();
    assert_eq!(m.file, "codex-plus-plus-manager.exe");
    assert_eq!(m.label, "Codex++ 管理工具");
    assert_eq!(program_launch("x", true).err().unwrap(), "未知的启动目标");
    assert_eq!(program_launch("x", false).err().unwrap(), "无法确定本地程序目录");
    assert_eq!(program_missing_message("Codex++"), "没有找到 Codex++，请先完成安装");
    assert!(matches!(codex_launch(Some(CodexDesktopInstallation::MicrosoftStore)), Ok(CodexLaunch::StoreApp)));
    assert_eq!(codex_launch(None).err().unwrap(), "没有找到 Codex 桌面版，请先完成安装");
    assert!(!needs_elevation(Some(5)));
    assert!(!needs_elevation(None));
    assert_eq!(launch_failure_message("Codex", "denied"), "无法启动 Codex：denied");
    assert_eq!(elevated_launch_outcome(false, "X").err().unwrap(), "X 需要管理员权限，权限确认已取消");
    assert!(elevated_launch_outcome(true, "X").is_ok());
}

#[test]
fn download_progress_stays_in_its_window() {
    assert_eq!(download_percent(10, 46, 50, 100), 28);
    assert_eq!(download_percent(10, 46, 100, 100), 46);
    assert_eq!(download_percent(10, 46, 5, 0), 10);
    assert_eq!(download_percent(64, 77, 1000, 1), 255);
    assert_eq!(download_percent(10, 46, 8, 1), 10 + (288u64 % 256) as u8);
    let p = download_progress(3, "Codex", "ChatGPT-x64.msix", 10, 46, 0, 100);
    assert_eq!(p.run_id, 3);
    assert_eq!(p.percent, 10);
    assert_eq!(p.phase, "download");
    assert_eq!(p.title, "正在下载 Codex");
    assert_eq!(p.detail, "ChatGPT-x64.msix");
}

#[test]
fn installer_polling_decisions() {
    assert!(matches!(install_poll(false, Some(true), 51, 58), InstallPoll::Cancelled));
    assert!(matches!(install_poll(true, Some(false), 51, 58), InstallPoll::Failed));
    assert!(matches!(install_poll(true, Some(true), 51, 58), InstallPoll::Finished));
    assert!(matches!(install_poll(true, None, 51, 58), InstallPoll::Waiting(52)));
    assert!(matches!(install_poll(true, None, 58, 58), InstallPoll::Waiting(58)));
    let start = installer_progress(1, &Component::Companion, "CC Switch", false, 0);
    assert_eq!(start.percent, 78);
    assert_eq!(start.title, "正在安装 CC Switch");
    assert_eq!(start.detail, "正在运行官方安装程序");
    let wait = installer_progress(1, &Component::Runtime, "CC Switch", true, 62);
    assert_eq!(wait.percent, 62);
    assert_eq!(wait.detail, "Windows 正在注册运行时组件");
    assert_eq!(wait.component, "系统依赖");
    let e = installer_failure(&Component::Companion, "Codex++", "exit code: 1".to_string());
    assert_eq!(e.message(), "Codex++ 安装程序返回错误（exit code: 1）");
    assert!(companion_installer_script("C:\\cache\\Tool.MSI").contains("msiexec.exe"));
    assert!(companion_installer_script("C:\\cache\\tool.exe").contains("'/S'"));
}

#[test]
fn check_details_and_installer_commands() {
    assert_eq!(installation_check_detail(true, true, "CC Switch"), "已检测到 Codex 和 CC Switch，无需重复下载");
    assert_eq!(installation_check_detail(true, false, "Codex++"), "已检测到 Codex，仅需安装 Codex++");
    assert_eq!(installation_check_detail(false, true, "Codex++"), "已检测到 Codex++，仅需安装 Codex");
    assert_eq!(installation_check_detail(false, false, "Codex++"), "未检测到 Codex 和 Codex++，准备下载安装");
    let (variable, script) = installer_command(&Component::CodexDesktop, "C:\\a.msix");
    assert_eq!(variable, "CODEX_INSTALLER_MSIX_PATH");
    assert_eq!(script, "Add-AppxPackage -Path $env:CODEX_INSTALLER_MSIX_PATH");
    let (variable, script) = installer_command(&Component::Companion, "C:\\a.msi");
    assert_eq!(variable, "CODEX_COMPANION_INSTALLER");
    assert!(script.contains("msiexec.exe"));
    let e = installer_start_failure(&Component::Runtime, "x", "denied".to_string());
    assert_eq!(e.message(), "无法启动 Microsoft Visual C++ 运行库安装程序：denied");
    let e = installer_start_failure(&Component::CodexDesktop, "x", "denied".to_string());
    assert_eq!(e.message(), "无法启动 Codex 桌面版安装程序");
    let e = installer_start_failure(&Component::Companion, "CC Switch", "denied".to_string());
    assert_eq!(e.message(), "无法启动 CC Switch 安装程序：denied");
}

fn kinds(actions: &[FlowAction]) -> Vec<String> {
    actions
        .iter()
        .map(|a| match a {
            FlowAction::Report(p) => format!("report {} {}", p.percent, p.phase),
            FlowAction::CreateCache => "cache".to_string(),
            FlowAction::EnsureActive => "active".to_string(),
            FlowAction::CheckComputer => "check".to_string(),
            FlowAction::Prepare => "prepare".to_string(),
            FlowAction::InstallCodex => "codex".to_string(),
            FlowAction::CheckRuntime => "check-runtime".to_string(),
            FlowAction::InstallRuntime => "runtime".to_string(),
            FlowAction::InstallCompanion => "companion".to_string(),
            FlowAction::Finish(_) => "finish".to_string(),
            FlowAction::Fail(_) => "fail".to_string(),
        })
        .collect()
}

#[test]
fn flow_installs_everything_that_is_missing() {
    let mut flow = InstallFlow::new(9, "cc-switch");
    assert!(flow.step(FlowEvent::Begun { install_directory: "D".to_string() }).is_empty());
    let a = flow.step(FlowEvent::Requested);
    assert_eq!(kinds(&a), vec!["active", "prepare"]);
    let a = flow.step(FlowEvent::Begun { install_directory: "D".to_string() });
    assert_eq!(kinds(&a), vec!["report 4 check", "check"]);
    let a = flow.step(FlowEvent::Checked { codex: None, companion_installed: false, runtime_installed: false });
    assert_eq!(kinds(&a), vec!["report 7 check", "cache", "report 8 download", "codex"]);
    let a = flow.step(FlowEvent::CodexInstalled { found: Some(CodexDesktopInstallation::MicrosoftStore) });
    assert_eq!(kinds(&a), vec!["active", "check-runtime"]);
    let a = flow.step(FlowEvent::RuntimeChecked { installed: false });
    assert_eq!(kinds(&a), vec!["report 59 download", "runtime"]);
    let a = flow.step(FlowEvent::RuntimeInstalled);
    assert_eq!(kinds(&a), vec!["active", "report 63 download", "companion"]);
    let a = flow.step(FlowEvent::CompanionInstalled);
    assert_eq!(kinds(&a), vec!["active", "report 97 verify", "report 100 done", "finish"]);
    match &a[3] {
        FlowAction::Finish(r) => {
            assert_eq!(r.codex_version, "Desktop（Microsoft Store / MSIX）");
            assert_eq!(r.companion_name, "CC Switch");
            assert_eq!(r.install_directory, "D");
        }
        _ => panic!("the run finishes"),
    }
    assert!(flow.is_finished());
    assert!(flow.step(FlowEvent::RuntimeInstalled).is_empty());
}

#[test]
fn flow_skips_what_is_installed() {
    let mut flow = InstallFlow::new(2, "codex-plus-plus");
    flow.step(FlowEvent::Requested);
    flow.step(FlowEvent::Begun { install_directory: "D".to_string() });
    let a = flow.step(FlowEvent::Checked {
        codex: Some(CodexDesktopInstallation::Executable("C:\\Codex.exe".to_string())),
        companion_installed: true,
        runtime_installed: true,
    });
    assert_eq!(kinds(&a), vec!["report 7 check", "report 58 skip", "active", "check-runtime"]);
    match &a[0] {
        FlowAction::Report(p) => assert_eq!(p.detail, "已检测到 Codex 和 Codex++，无需重复下载"),
        _ => panic!("a report comes first"),
    }
    let a = flow.step(FlowEvent::RuntimeChecked { installed: true });
    assert_eq!(
        kinds(&a),
        vec!["report 62 skip", "active", "report 94 skip", "active", "report 97 verify", "report 100 done", "finish"]
    );
    assert!(flow.is_finished());
}

#[test]
fn flow_fails_when_codex_is_not_found_after_installing() {
    let mut flow = InstallFlow::new(2, "cc-switch");
    flow.step(FlowEvent::Requested);
    flow.step(FlowEvent::Begun { install_directory: "D".to_string() });
    flow.step(FlowEvent::Checked { codex: None, companion_installed: true, runtime_installed: true });
    let a = flow.step(FlowEvent::CodexInstalled { found: None });
    match &a[..] {
        [FlowAction::Fail(e)] => assert_eq!(e.message(), "Codex 桌面版安装完成，但应用注册验证没有通过"),
        _ => panic!("the run fails"),
    }
}

#[test]
fn rehearsal_reports_every_stage() {
    let stages = rehearsal_stages(4, "Codex++");
    assert_eq!(stages.len(), 7);
    assert_eq!(stages[4].component, "Codex++");
    assert_eq!(stages[6].percent, 100);
    assert_eq!(rehearsal_result("Codex++").install_directory, "模拟模式（未写入文件）");
}

#[test]
fn runtime_rechecks_stop_when_found_cancelled_or_exhausted() {
    assert!(matches!(runtime_check_step(0, true, false), RuntimeCheck::Verified));
    assert!(matches!(runtime_check_step(3, false, false), RuntimeCheck::Cancelled));
    assert!(matches!(runtime_check_step(18, false, true), RuntimeCheck::Wait));
    assert!(matches!(runtime_check_step(19, false, true), RuntimeCheck::WaitThenFail));
}
