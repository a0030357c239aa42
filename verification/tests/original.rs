use codex_installer::assets::{
    choose_app_update_asset, choose_cc_switch_asset, choose_codex_plus_plus_asset,
    codex_desktop_asset, visual_cpp_runtime_asset, AppRelease, AppReleaseAsset, CcSwitchUpdate,
    CodexPlusPlusUpdate, PublishedAsset, PublishedPlatform, Release, ReleaseAsset,
};
use codex_installer::detect::registered_executable_path;
use codex_installer::launch::needs_elevation;
use codex_installer::update::current_app_update;
use codex_installer::version::is_newer_version;

#[test]
fn registered_app_path_parser_handles_icons_and_quoted_paths() {
    assert_eq!(
        registered_executable_path(r#""C:\Program Files\OpenAI\Codex\Codex.exe" --open"#),
        String::from(r"C:\Program Files\OpenAI\Codex\Codex.exe")
    );
    assert_eq!(
        registered_executable_path(r"C:\Program Files\OpenAI\Codex\Codex.exe,0"),
        String::from(r"C:\Program Files\OpenAI\Codex\Codex.exe")
    );
}

#[test]
fn desktop_asset_uses_openai_official_msix() {
    let selected = codex_desktop_asset("x86_64")
        .ok()
        .expect("supported Windows architecture");
    assert!(selected.name.ends_with(".msix"));
    assert!(selected
        .browser_download_url
        .starts_with("https://persistent.oaistatic.com/codex-app-prod/"));
}

#[test]
fn codex_plus_plus_uses_official_metadata_after_asset_rename() {
    let url = "https://example.test/downloads/renamed-installer.exe";
    let update = CodexPlusPlusUpdate {
        version: "v-next".to_string(),
        assets: vec![PublishedAsset {
            name: "renamed-installer.exe".to_string(),
            url: url.to_string(),
        }],
    };
    let release = Release {
        _tag_name: "v-next".to_string(),
        assets: vec![ReleaseAsset {
            name: "renamed-installer.exe".to_string(),
            browser_download_url: url.to_string(),
            digest: Some("sha256:abc".to_string()),
        }],
    };

    let selected = choose_codex_plus_plus_asset(&update, &release, "x86_64").ok().unwrap();
    assert_eq!(selected.browser_download_url, url);
    assert_eq!(selected.digest.as_deref(), Some("sha256:abc"));
}

#[test]
fn cc_switch_uses_platform_mapping_without_x64_in_filename() {
    let url = "https://example.test/downloads/CC-Switch-Windows.msi";
    let update = CcSwitchUpdate {
        version: "3.19.2".to_string(),
        platforms: vec![(
            "windows-x86_64".to_string(),
            PublishedPlatform {
                url: url.to_string(),
            },
        )],
    };
    let release = Release {
        _tag_name: "v3.19.2".to_string(),
        assets: vec![ReleaseAsset {
            name: "CC-Switch-Windows.msi".to_string(),
            browser_download_url: url.to_string(),
            digest: Some("sha256:def".to_string()),
        }],
    };

    let selected = choose_cc_switch_asset(&update, &release, "x86_64").ok().unwrap();
    assert_eq!(selected.name, "CC-Switch-Windows.msi");
    assert_eq!(selected.digest.as_deref(), Some("sha256:def"));
}

#[test]
fn visual_cpp_runtime_asset_uses_microsoft_official_download() {
    let asset = visual_cpp_runtime_asset("x86_64").ok().unwrap();
    assert!(asset
        .browser_download_url
        .starts_with("https://aka.ms/vs/17/release/"));
    assert!(asset.name.starts_with("vc_redist."));
}

#[test]
fn app_update_selects_setup_for_current_architecture() {
    let release = AppRelease {
        tag_name: "v0.2.0".to_string(),
        body: "notes".to_string(),
        html_url: "https://github.com/abellee/codex_installer/releases/tag/v0.2.0".to_string(),
        assets: vec![
            AppReleaseAsset {
                name: "Codex.Setup_0.2.0_arm64-setup.exe".to_string(),
                browser_download_url: "https://example.test/arm64.exe".to_string(),
                digest: None,
            },
            AppReleaseAsset {
                name: "Codex.Setup_0.2.0_x64-setup.exe".to_string(),
                browser_download_url: "https://example.test/x64.exe".to_string(),
                digest: Some("sha256:abc".to_string()),
            },
        ],
    };

    let selected = choose_app_update_asset(&release, "x86_64").ok().unwrap();
    assert!(selected.name.contains("x64-setup.exe"));
    assert_eq!(selected.digest.as_deref(), Some("sha256:abc"));
}

#[test]
fn app_update_only_accepts_newer_semantic_versions() {
    assert!(is_newer_version("0.1.0", "v0.2.0").ok().unwrap());
    assert!(!is_newer_version("0.2.0", "v0.2.0").ok().unwrap());
    assert!(!is_newer_version("0.3.0", "v0.2.0").ok().unwrap());
}

#[test]
fn no_release_means_current_version_is_latest() {
    let update = current_app_update("0.1.0");
    assert!(!update.available);
    assert_eq!(update.current_version, update.latest_version);
}

#[test]
fn elevation_required_is_windows_error_740() {
    let error = std::io::Error::from_raw_os_error(740);
    assert_eq!(error.raw_os_error(), Some(740));
    assert!(needs_elevation(error.raw_os_error()));
}
