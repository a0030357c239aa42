use vstd::prelude::*;

use crate::assets::{opt_chars, choose_app_update_asset, AppRelease, app_asset_eligible, is_best_app_asset};
use crate::error::InstallerError;
use crate::text::{ascii_lower, chars_of, ends_with_chars, has_prefix, has_suffix, lower_chars, starts_with_chars};
use crate::version::{
    SemanticVersion, is_newer_version, semver_greater, semver_parse, version_text_spec,
    without_leading_v, trim_leading_v,
};

verus! {

/// What the application tells its window about available updates.
pub struct AppUpdateInfo {
    pub current_version: String,
    pub latest_version: String,
    pub available: bool,
    pub release_notes: String,
    pub release_url: String,
    pub asset_name: String,
    pub download_url: String,
    pub digest: Option<String>,
}

/// Progress of the download of an update.
pub struct AppUpdateProgress {
    pub percent: u8,
    pub downloaded: u64,
    pub total: u64,
}

/// Where releases of this application are downloaded from.
pub const APP_RELEASE_DOWNLOAD_PREFIX: &'static str = "https://github.com/abellee/codex_installer/releases/download/";

/// The answer when no release has been published: the running version is the latest.
pub fn current_app_update(current_version: &str) -> (r: AppUpdateInfo)
    ensures
        r.current_version@ == current_version@,
        r.latest_version@ == current_version@,
        !r.available,
        r.release_notes@.len() == 0,
        r.release_url@.len() == 0,
        r.asset_name@.len() == 0,
        r.download_url@.len() == 0,
        r.digest is None,
{
    let version = current_version.to_string();
    AppUpdateInfo {
        current_version: version.clone(),
        latest_version: version,
        available: false,
        release_notes: String::new(),
        release_url: String::new(),
        asset_name: String::new(),
        download_url: String::new(),
        digest: None,
    }
}

/// The outcome of building update information from the latest release: an
/// unparsable release version, then an unparsable running version, are
/// errors; otherwise the update is available when the release version is
/// greater, and an available update needs an installer for the architecture.
pub open spec fn is_app_update_outcome(
    current_version: Seq<char>,
    release: AppRelease,
    architecture: Seq<char>,
    r: Result<AppUpdateInfo, InstallerError>,
) -> bool {
    &&& semver_parse(without_leading_v(release.tag_name@)) is None ==> (r matches Err(
            InstallerError::InvalidReleaseVersion { tag: t },
        ) && t@ == release.tag_name@)
    &&& semver_parse(without_leading_v(release.tag_name@)) is Some && semver_parse(
            current_version,
        ) is None ==> (r matches Err(InstallerError::InvalidCurrentVersion))
    &&& semver_parse(without_leading_v(release.tag_name@)) matches Some(l) ==> (semver_parse(
            current_version,
        ) matches Some(c) ==> {
            let available = semver_greater(l, c);
            let found = exists|i: int|
                0 <= i < release.assets@.len() && app_asset_eligible(
                    #[trigger] release.assets@[i].name@,
                    architecture,
                );
            &&& (available && !found) ==> (r matches Err(
                InstallerError::NoAppUpdateInstaller { architecture: a },
            ) && a@ == architecture)
            &&& (!available || found) ==> (r matches Ok(info) && {
                &&& info.current_version@ == current_version
                &&& info.latest_version@ == version_text_spec(l)
                &&& info.available == available
                &&& info.release_notes == release.body
                &&& info.release_url == release.html_url
                &&& !available ==> info.asset_name@.len() == 0 && info.download_url@.len() == 0
                    && info.digest is None
                &&& available ==> exists|i: int|
                    is_best_app_asset(
                        release.assets@,
                        architecture,
                        release.assets@.len() as int,
                        i,
                    ) && info.asset_name == release.assets@[i].name && info.download_url
                        == release.assets@[i].browser_download_url && info.digest
                        == release.assets@[i].digest
            })
        })
}

/// The update information built from the latest release: the release's
/// version in canonical form, whether it is newer than the running version,
/// its notes and page, and, when it is newer, the installer chosen for the
/// architecture.
pub fn app_update_from_release(current_version: &str, release: &AppRelease, architecture: &str) -> (r:
    Result<AppUpdateInfo, InstallerError>)
    ensures
        is_app_update_outcome(current_version@, *release, architecture@, r),
{
    let latest_text = trim_leading_v(release.tag_name.as_str());
    let latest = match SemanticVersion::parse(latest_text) {
        Some(v) => v,
        None => return Err(InstallerError::InvalidReleaseVersion { tag: release.tag_name.clone() }),
    };
    let available = match is_newer_version(current_version, release.tag_name.as_str()) {
        Ok(b) => b,
        Err(e) => return Err(e),
    };
    let (asset_name, download_url, digest) = if available {
        match choose_app_update_asset(release, architecture) {
            Ok(a) => (a.name, a.browser_download_url, a.digest),
            Err(e) => return Err(e),
        }
    } else {
        (String::new(), String::new(), None)
    };
    Ok(
        AppUpdateInfo {
            current_version: current_version.to_string(),
            latest_version: latest.text(),
            available,
            release_notes: release.body.clone(),
            release_url: release.html_url.clone(),
            asset_name,
            download_url,
            digest,
        },
    )
}

/// The update information, given the latest release if one has been
/// published (`None` where the release service has none).
pub fn resolve_app_update(current_version: &str, release: Option<&AppRelease>, architecture: &str) -> (r:
    Result<AppUpdateInfo, InstallerError>)
    ensures
        release is None ==> (r matches Ok(info) && !info.available && info.current_version@
            == current_version@ && info.latest_version@ == current_version@
            && info.release_notes@.len() == 0 && info.release_url@.len() == 0
            && info.asset_name@.len() == 0 && info.download_url@.len() == 0
            && info.digest is None),
        release matches Some(rel) ==> is_app_update_outcome(current_version@, *rel, architecture@, r),
{
    match release {
        None => Ok(current_app_update(current_version)),
        Some(rel) => app_update_from_release(current_version, rel, architecture),
    }
}


/// The download of an update may start: the update is newer, and it comes
/// from a release of this application.
pub fn check_app_update_download(update: &AppUpdateInfo) -> (r: Result<(), InstallerError>)
    ensures
        !update.available ==> r matches Err(InstallerError::AlreadyLatest),
        update.available && !has_prefix(update.download_url@, APP_RELEASE_DOWNLOAD_PREFIX@) ==> r matches Err(
            InstallerError::ForeignUpdateUrl,
        ),
        update.available && has_prefix(update.download_url@, APP_RELEASE_DOWNLOAD_PREFIX@) ==> r is Ok,
{
    if !update.available {
        return Err(InstallerError::AlreadyLatest);
    }
    let url = chars_of(update.download_url.as_str());
    if !starts_with_chars(&url, APP_RELEASE_DOWNLOAD_PREFIX) {
        return Err(InstallerError::ForeignUpdateUrl);
    }
    Ok(())
}

/// A name that every platform reads as a path of one plain component: not
/// empty, neither `.` nor `..`, and free of the separators `/` and `\` and
/// of the drive mark `:`.
pub open spec fn is_plain_file_name(name: Seq<char>) -> bool {
    &&& name.len() > 0
    &&& name != "."@
    &&& name != ".."@
    &&& forall|i: int| 0 <= i < name.len() ==> #[trigger] name[i] != '/' && name[i] != '\\' && name[i] != ':'
}

/// The name begins with two separators, as the Windows network, verbatim
/// and device prefixes do.
pub open spec fn starts_with_two_separators(name: Seq<char>) -> bool {
    &&& name.len() >= 2
    &&& (name[0] == '/' || name[0] == '\\')
    &&& (name[1] == '/' || name[1] == '\\')
}

/// A `/` at `k` is followed by a plain last component, and the name has no
/// Windows network, verbatim or device prefix: `/` separates components on
/// every platform, so every platform reads what follows it as the last one.
pub open spec fn plain_component_after_slash(name: Seq<char>, k: int) -> bool {
    &&& 0 <= k < name.len()
    &&& name[k] == '/'
    &&& is_plain_file_name(name.skip(k + 1))
    &&& !starts_with_two_separators(name)
}

/// The last component of `name` read as a file-system path, by
/// `std::path::Path::file_name`, where it is valid Unicode. What counts as a
/// separator and a prefix depends on the platform, so the contract states
/// the result only where every platform agrees: for a name of one plain
/// component, that component itself, and for a plain component after a `/`
/// in a name without a network, verbatim or device prefix, that component.
/// For other names no clause states the result.
#[verifier::external_body]
fn final_path_component(name: &str) -> (r: Option<String>)
    ensures
        is_plain_file_name(name@) ==> opt_chars(r) == Some(name@),
        forall|k: int| #[trigger] plain_component_after_slash(name@, k) ==> opt_chars(r) == Some(name@.skip(k + 1)),
{
    let component = std::path::Path::new(name).file_name()?;
    Some(component.to_str()?.to_string())
}

/// The update installer is saved under the final component of its asset
/// name, which must be that of a `.exe` file.
pub fn installer_name_from_component(component: Option<String>) -> (r: Result<String, InstallerError>)
    ensures
        match component {
            Some(c) => if has_suffix(ascii_lower(c@), ".exe"@) {
                r == Ok::<String, InstallerError>(c)
            } else {
                r matches Err(InstallerError::InvalidUpdateInstallerName)
            },
            None => r matches Err(InstallerError::InvalidUpdateInstallerName),
        },
{
    match component {
        Some(c) => {
            let lower = lower_chars(&chars_of(c.as_str()));
            if ends_with_chars(&lower, ".exe") {
                Ok(c)
            } else {
                Err(InstallerError::InvalidUpdateInstallerName)
            }
        },
        None => Err(InstallerError::InvalidUpdateInstallerName),
    }
}

/// The file name under which the update installer is saved: the final path
/// component of the asset name, which must end in `.exe`.
pub fn app_update_installer_name(asset_name: &str) -> (r: Result<String, InstallerError>)
    ensures
        r matches Ok(n) ==> has_suffix(ascii_lower(n@), ".exe"@),
        is_plain_file_name(asset_name@) && has_suffix(ascii_lower(asset_name@), ".exe"@) ==> (
        r matches Ok(n) && n@ == asset_name@),
        is_plain_file_name(asset_name@) && !has_suffix(ascii_lower(asset_name@), ".exe"@) ==> (
        r matches Err(InstallerError::InvalidUpdateInstallerName)),
        forall|k: int| #[trigger] plain_component_after_slash(asset_name@, k) ==> {
            let last = asset_name@.skip(k + 1);
            &&& has_suffix(ascii_lower(last), ".exe"@) ==> (r matches Ok(n) && n@ == last)
            &&& !has_suffix(ascii_lower(last), ".exe"@) ==> (r matches Err(InstallerError::InvalidUpdateInstallerName))
        },
{
    installer_name_from_component(final_path_component(asset_name))
}

/// Percent of an update downloaded: `downloaded * 100` (saturating) divided
/// by the announced total, at most 100; 0 while the total is unknown.
pub open spec fn app_update_percent_spec(downloaded: u64, total: u64) -> int {
    if total == 0 {
        0
    } else {
        let scaled = if downloaded * 100 > u64::MAX { u64::MAX as int } else { downloaded * 100 };
        if scaled / (total as int) > 100 { 100 } else { scaled / (total as int) }
    }
}

/// Percent of an update downloaded.
pub fn app_update_percent(downloaded: u64, total: u64) -> (r: u8)
    ensures
        r == app_update_percent_spec(downloaded, total),
        r <= 100,
{
    let scaled: u64 = match downloaded.checked_mul(100) {
        Some(x) => x,
        None => u64::MAX,
    };
    if total == 0 {
        0
    } else {
        let q: u64 = scaled / total;
        if q > 100 { 100 } else { q as u8 }
    }
}

/// The progress report after `downloaded` bytes of an update.
pub fn app_update_progress(downloaded: u64, total: u64) -> (r: AppUpdateProgress)
    ensures
        r.percent == app_update_percent_spec(downloaded, total),
        r.downloaded == downloaded,
        r.total == total,
{
    AppUpdateProgress { percent: app_update_percent(downloaded, total), downloaded, total }
}


/// The update progress never goes back while the download grows.
pub proof fn lemma_app_update_percent_monotonic(d1: u64, d2: u64, total: u64)
    requires
        d1 <= d2,
    ensures
        app_update_percent_spec(d1, total) <= app_update_percent_spec(d2, total),
        0 <= app_update_percent_spec(d2, total) <= 100,
{
    if total > 0 {
        let s1: int = if d1 * 100 > u64::MAX { u64::MAX as int } else { d1 * 100 };
        let s2: int = if d2 * 100 > u64::MAX { u64::MAX as int } else { d2 * 100 };
        assert(d1 * 100 <= d2 * 100) by (nonlinear_arith)
            requires
                d1 <= d2,
        ;
        assert(s1 <= s2);
        assert(s1 / (total as int) <= s2 / (total as int)) by (nonlinear_arith)
            requires
                0 <= s1 <= s2,
                total > 0,
        ;
        assert(s2 / (total as int) >= 0) by (nonlinear_arith)
            requires
                s2 >= 0,
                total > 0,
        ;
    }
}

} // verus!
