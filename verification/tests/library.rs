use codex_installer::assets::{
    choose_app_update_asset, choose_cc_switch_asset, choose_codex_plus_plus_asset,
    codex_desktop_asset, release_asset_with_digest, visual_cpp_runtime_asset, AppRelease,
    AppReleaseAsset, CcSwitchUpdate, CodexPlusPlusUpdate, PublishedAsset, PublishedPlatform,
    Release, ReleaseAsset,
};
use codex_installer::control::{ensure_active, InstallControl};
use codex_installer::digest::{eq_ignore_ascii_case, expected_sha256, verify_sha256};
use codex_installer::error::InstallerError;
use codex_installer::update::{
    app_update_from_release, app_update_installer_name, app_update_percent, check_app_update_download,
    resolve_app_update, AppUpdateInfo,
};
use codex_installer::version::{is_newer_version, trim_leading_v};

fn app_asset(name: &str, url: &str, digest: Option<&str>) -> AppReleaseAsset {
    AppReleaseAsset {
        name: name.to_string(),
        browser_download_url: url.to_string(),
        digest: digest.map(|d| d.to_string()),
    }
}

fn app_release(tag: &str, assets: Vec<AppReleaseAsset>) -> AppRelease {
    AppRelease {
        tag_name: tag.to_string(),
        body: "notes".to_string(),
        html_url: "https://example.test/release".to_string(),
        assets,
    }
}

fn published(name: &str, url: &str) -> PublishedAsset {
    PublishedAsset { name: name.to_string(), url: url.to_string() }
}

fn empty_release() -> Release {
    Release { _tag_name: "v1".to_string(), assets: vec![] }
}

#[test]
fn app_update_picks_arm64_installer_on_aarch64() {
    let release = app_release(
        "v0.2.0",
        vec![
            app_asset("Codex_0.2.0_x64-setup.exe", "https://example.test/x64.exe", None),
            app_asset("Codex_0.2.0_ARM64-setup.exe", "https://example.test/arm64.exe", None),
        ],
    );
    let selected = choose_app_update_asset(&release, "aarch64").ok().unwrap();
    assert_eq!(selected.browser_download_url, "https://example.test/arm64.exe");
}

#[test]
fn app_update_skips_uninstallers_portable_builds_and_other_files() {
    let release = app_release(
        "v0.2.0",
        vec![
            app_asset("Codex_x64-uninstall.exe", "u", None),
            app_asset("Codex_x64-portable.exe", "p", None),
            app_asset("Codex_x64.msi", "m", None),
            app_asset("Codex_win64.exe", "w", None),
        ],
    );
    let selected = choose_app_update_asset(&release, "x86_64").ok().unwrap();
    assert_eq!(selected.name, "Codex_win64.exe");
}

#[test]
fn app_update_prefers_setup_then_installer_and_last_of_equals() {
    let release = app_release(
        "v0.2.0",
        vec![
            app_asset("a_x64.exe", "1", None),
            app_asset("b_x64_installer.exe", "2", None),
            app_asset("c_x64_installer.exe", "3", None),
            app_asset("d_x64.exe", "4", None),
        ],
    );
    let selected = choose_app_update_asset(&release, "x86_64").ok().unwrap();
    assert_eq!(selected.browser_download_url, "3");
}

#[test]
fn app_update_without_matching_installer_names_the_architecture() {
    let release = app_release("v0.2.0", vec![app_asset("Codex_x64-setup.exe", "1", None)]);
    match choose_app_update_asset(&release, "aarch64") {
        Err(e) => assert_eq!(e.message(), "最新版本中没有适用于 aarch64 Windows 的安装包"),
        Ok(_) => panic!("no arm64 installer was offered"),
    }
    assert!(choose_app_update_asset(&release, "riscv64").is_err());
}

#[test]
fn codex_plus_plus_prefers_setup_exe_and_skips_other_platforms() {
    let update = CodexPlusPlusUpdate {
        version: "1.0.0".to_string(),
        assets: vec![
            published("codex-plus-plus.msi", "https://example.test/a.msi"),
            published("codex-plus-plus-setup.exe", "https://example.test/b.exe"),
            published("codex-plus-plus-macos-setup.exe", "https://example.test/c.exe"),
            published("codex-plus-plus-arm64-setup.exe", "https://example.test/d.exe"),
        ],
    };
    let release = Release {
        _tag_name: "v1.0.0".to_string(),
        assets: vec![ReleaseAsset {
            name: "codex-plus-plus-setup.exe".to_string(),
            browser_download_url: "https://elsewhere.test/x.exe".to_string(),
            digest: Some("sha256:123".to_string()),
        }],
    };
    let x64 = choose_codex_plus_plus_asset(&update, &release, "x86_64").ok().unwrap();
    assert_eq!(x64.browser_download_url, "https://example.test/b.exe");
    assert_eq!(x64.digest.as_deref(), Some("sha256:123"));
    let arm = choose_codex_plus_plus_asset(&update, &release, "aarch64").ok().unwrap();
    assert_eq!(arm.name, "codex-plus-plus-arm64-setup.exe");
    assert_eq!(arm.digest, None);
}

#[test]
fn codex_plus_plus_without_installer_reports_the_manifest_version() {
    let update = CodexPlusPlusUpdate {
        version: "1.0.0".to_string(),
        assets: vec![published("codex-plus-plus-linux.AppImage", "https://example.test/a")],
    };
    match choose_codex_plus_plus_asset(&update, &empty_release(), "x86_64") {
        Err(e) => assert_eq!(
            e.message(),
            "Codex++ 官方更新清单中没有适用于 x86_64 Windows 的安装文件（1.0.0）"
        ),
        Ok(_) => panic!("no Windows installer was offered"),
    }
}

#[test]
fn release_digest_comes_from_the_first_asset_with_the_same_name_or_address() {
    let release = Release {
        _tag_name: "v1".to_string(),
        assets: vec![
            ReleaseAsset { name: "other".to_string(), browser_download_url: "o".to_string(), digest: Some("sha256:0".to_string()) },
            ReleaseAsset { name: "tool.msi".to_string(), browser_download_url: "x".to_string(), digest: Some("sha256:1".to_string()) },
            ReleaseAsset { name: "y".to_string(), browser_download_url: "u".to_string(), digest: Some("sha256:2".to_string()) },
        ],
    };
    let a = release_asset_with_digest(&release, "tool.msi".to_string(), "u".to_string());
    assert_eq!(a.name, "tool.msi");
    assert_eq!(a.browser_download_url, "u");
    assert_eq!(a.digest.as_deref(), Some("sha256:1"));
    let none = release_asset_with_digest(&release, "missing".to_string(), "nowhere".to_string());
    assert_eq!(none.digest, None);
}

fn cc_update(entries: Vec<(&str, &str)>) -> CcSwitchUpdate {
    CcSwitchUpdate {
        version: "3.19.2".to_string(),
        platforms: entries
            .into_iter()
            .map(|(k, u)| (k.to_string(), PublishedPlatform { url: u.to_string() }))
            .collect(),
    }
}

#[test]
fn cc_switch_falls_back_to_default_name_without_a_file_segment() {
    let update = cc_update(vec![("windows-aarch64", "https://example.test/")]);
    let selected = choose_cc_switch_asset(&update, &empty_release(), "aarch64").ok().unwrap();
    assert_eq!(selected.name, "CC-Switch-Windows.msi");
    assert_eq!(selected.browser_download_url, "https://example.test/");
    let update = cc_update(vec![("windows-aarch64", "not a url")]);
    let selected = choose_cc_switch_asset(&update, &empty_release(), "aarch64").ok().unwrap();
    assert_eq!(selected.name, "CC-Switch-Windows.msi");
}

#[test]
fn cc_switch_names_file_after_last_path_segment() {
    let update = cc_update(vec![
        ("windows-x86_64", "https://example.test/dl/CC-Switch-3.19.2-x64.msi?x=1"),
        ("darwin-aarch64", "https://example.test/dl/CC-Switch.dmg"),
    ]);
    let selected = choose_cc_switch_asset(&update, &empty_release(), "x86_64").ok().unwrap();
    assert_eq!(selected.name, "CC-Switch-3.19.2-x64.msi");
}

#[test]
fn cc_switch_errors_name_platform_and_architecture() {
    let update = cc_update(vec![("windows-x86_64", "https://example.test/a.msi")]);
    match choose_cc_switch_asset(&update, &empty_release(), "aarch64") {
        Err(e) => assert_eq!(e.message(), "CC Switch 官方更新清单中没有 windows-aarch64 安装文件（3.19.2）"),
        Ok(_) => panic!("no arm64 entry"),
    }
    match choose_cc_switch_asset(&update, &empty_release(), "x86") {
        Err(e) => assert_eq!(e.message(), "CC Switch 暂不支持当前架构：x86"),
        Ok(_) => panic!("unsupported architecture"),
    }
}

#[test]
fn fixed_downloads_follow_the_architecture() {
    let arm = codex_desktop_asset("aarch64").ok().unwrap();
    assert_eq!(arm.name, "ChatGPT-arm64.msix");
    assert_eq!(arm.browser_download_url, "https://persistent.oaistatic.com/codex-app-prod/ChatGPT-arm64.msix");
    let runtime = visual_cpp_runtime_asset("aarch64").ok().unwrap();
    assert_eq!(runtime.name, "vc_redist.arm64.exe");
    assert_eq!(runtime.browser_download_url, "https://aka.ms/vs/17/release/vc_redist.arm64.exe");
    match codex_desktop_asset("riscv64") {
        Err(e) => assert_eq!(e.message(), "Codex 桌面版暂不支持当前架构：riscv64"),
        Ok(_) => panic!("unsupported architecture"),
    }
    match visual_cpp_runtime_asset("riscv64") {
        Err(e) => assert_eq!(e.message(), "Microsoft Visual C++ 运行库暂不支持当前架构：riscv64"),
        Ok(_) => panic!("unsupported architecture"),
    }
}

#[test]
fn version_checks_reject_invalid_versions() {
    assert!(matches!(is_newer_version("0.1", "v0.2.0"), Err(InstallerError::InvalidCurrentVersion)));
    match is_newer_version("0.1.0", "release-2") {
        Err(e) => assert_eq!(e.message(), "Release 版本号格式无效：release-2"),
        Ok(_) => panic!("the tag is not a version"),
    }
}

#[test]
fn version_checks_follow_semver_precedence() {
    assert!(!is_newer_version("1.0.0", "v1.0.0-beta.1").ok().unwrap());
    assert!(is_newer_version("1.0.0-beta.1", "1.0.0").ok().unwrap());
    assert!(is_newer_version("1.9.9", "vV2.0.0").ok().unwrap());
    assert!(is_newer_version("0.9.0", "V0.10.0").ok().unwrap());
    assert_eq!(trim_leading_v("vVv1.0"), "1.0");
    assert_eq!(trim_leading_v("1.0v"), "1.0v");
}

#[test]
fn update_info_carries_canonical_version_and_chosen_installer() {
    let release = app_release(
        "v1.2.3+build.7",
        vec![app_asset("Codex_1.2.3_x64-setup.exe", "https://example.test/x64.exe", Some("sha256:ab"))],
    );
    let info = app_update_from_release("1.2.2", &release, "x86_64").ok().unwrap();
    assert!(info.available);
    assert_eq!(info.current_version, "1.2.2");
    assert_eq!(info.latest_version, "1.2.3+build.7");
    assert_eq!(info.release_notes, "notes");
    assert_eq!(info.release_url, "https://example.test/release");
    assert_eq!(info.asset_name, "Codex_1.2.3_x64-setup.exe");
    assert_eq!(info.download_url, "https://example.test/x64.exe");
    assert_eq!(info.digest.as_deref(), Some("sha256:ab"));
}

#[test]
fn update_info_without_newer_release_has_no_installer() {
    let release = app_release("v1.2.3", vec![]);
    let info = app_update_from_release("1.2.3", &release, "x86_64").ok().unwrap();
    assert!(!info.available);
    assert_eq!(info.latest_version, "1.2.3");
    assert_eq!(info.asset_name, "");
    assert_eq!(info.download_url, "");
    assert_eq!(info.digest, None);
    assert!(app_update_from_release("1.2.2", &release, "x86_64").is_err());
}

#[test]
fn missing_release_leaves_running_version_latest() {
    let info = resolve_app_update("0.3.1", None, "x86_64").ok().unwrap();
    assert!(!info.available);
    assert_eq!(info.current_version, "0.3.1");
    assert_eq!(info.latest_version, "0.3.1");
    assert_eq!(info.release_notes, "");
    assert_eq!(info.release_url, "");
    assert_eq!(info.asset_name, "");
    assert_eq!(info.download_url, "");
    assert_eq!(info.digest, None);
}

fn info_with(available: bool, url: &str) -> AppUpdateInfo {
    AppUpdateInfo {
        current_version: "0.1.0".to_string(),
        latest_version: "0.2.0".to_string(),
        available,
        release_notes: String::new(),
        release_url: String::new(),
        asset_name: "Setup.exe".to_string(),
        download_url: url.to_string(),
        digest: None,
    }
}

#[test]
fn update_download_must_be_newer_and_from_this_project() {
    let ok = "https://github.com/abellee/codex_installer/releases/download/v0.2.0/Setup.exe";
    assert!(check_app_update_download(&info_with(true, ok)).is_ok());
    assert!(matches!(check_app_update_download(&info_with(false, ok)), Err(InstallerError::AlreadyLatest)));
    match check_app_update_download(&info_with(true, "https://github.com/other/repo/releases/download/x.exe")) {
        Err(e) => assert_eq!(e.message(), "更新下载地址不属于本项目的 GitHub Release"),
        Ok(_) => panic!("foreign address"),
    }
}

#[test]
fn update_installer_name_must_be_an_exe() {
    assert_eq!(app_update_installer_name("Codex-Setup.EXE").ok().unwrap(), "Codex-Setup.EXE");
    assert_eq!(app_update_installer_name("dir/Codex-Setup.exe").ok().unwrap(), "Codex-Setup.exe");
    assert!(matches!(app_update_installer_name("Codex.msi"), Err(InstallerError::InvalidUpdateInstallerName)));
    assert!(matches!(app_update_installer_name("a/b/tool.msi"), Err(InstallerError::InvalidUpdateInstallerName)));
    assert!(app_update_installer_name("..").is_err());
}

#[test]
fn update_percent_is_bounded_and_saturating() {
    assert_eq!(app_update_percent(50, 100), 50);
    assert_eq!(app_update_percent(250, 100), 100);
    assert_eq!(app_update_percent(10, 0), 0);
    assert_eq!(app_update_percent(u64::MAX, u64::MAX), 1);
    assert_eq!(app_update_percent(u64::MAX, 1), 100);
}

#[test]
fn digest_check_accepts_matching_sha256_in_any_case() {
    let abc = "ba7816bf8f01cfea414140de5dae2223b00361a396177a9cb410ff61f20015ad";
    assert!(verify_sha256(&format!("sha256:{abc}"), b"abc").is_ok());
    assert!(verify_sha256(&format!("sha256:{}", abc.to_uppercase()), b"abc").is_ok());
    match verify_sha256(&format!("sha256:{abc}"), b"abd") {
        Err(e) => assert_eq!(e.message(), "下载校验失败，文件可能已损坏"),
        Ok(_) => panic!("wrong contents"),
    }
    assert!(verify_sha256("md5:1234", b"anything").is_ok());
    assert_eq!(expected_sha256("sha256:AB"), Some("AB"));
    assert_eq!(expected_sha256("SHA256:AB"), None);
    assert!(eq_ignore_ascii_case("AbC", "aBc"));
    assert!(!eq_ignore_ascii_case("abc", "abcd"));
}

#[test]
fn cancelling_a_run_stops_it_and_spares_others() {
    let mut control = InstallControl::new();
    control.start_run(7);
    assert!(ensure_active(&control, 7).is_ok());
    control.cancel_run(3);
    assert!(ensure_active(&control, 7).is_ok());
    control.cancel_run(7);
    match ensure_active(&control, 7) {
        Err(e) => assert_eq!(e.message(), "安装任务已取消"),
        Ok(_) => panic!("the run was cancelled"),
    }
    control.start_run(8);
    assert!(ensure_active(&control, 7).is_err());
    assert!(ensure_active(&control, 8).is_ok());
    assert_eq!(control.current_run(), 8);
}

#[test]
fn update_percent_never_goes_back() {
    let total = 1000;
    let mut last = 0;
    for downloaded in (0..=1500).step_by(7) {
        let p = app_update_percent(downloaded, total);
        assert!(p >= last);
        assert!(p <= 100);
        last = p;
    }
}
