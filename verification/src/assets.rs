use vstd::prelude::*;

use crate::error::InstallerError;
use crate::text::{
    ascii_lower, contains_chars, ends_with_chars, has_infix, has_suffix, lower_chars, chars_of,
    str_equals,
};

verus! {

/// One downloadable file of a release of this application.
pub struct AppReleaseAsset {
    pub name: String,
    pub browser_download_url: String,
    pub digest: Option<String>,
}

/// A release of this application, as the release service describes it.
pub struct AppRelease {
    pub tag_name: String,
    pub body: String,
    pub html_url: String,
    pub assets: Vec<AppReleaseAsset>,
}

/// A copy of an optional string.
pub fn clone_opt_string(o: &Option<String>) -> (r: Option<String>)
    ensures
        r == *o,
{
    match o {
        Some(s) => Some(s.clone()),
        None => None,
    }
}

impl AppReleaseAsset {
    /// A copy of the asset.
    pub fn duplicate(&self) -> (r: AppReleaseAsset)
        ensures
            r == *self,
    {
        AppReleaseAsset {
            name: self.name.clone(),
            browser_download_url: self.browser_download_url.clone(),
            digest: clone_opt_string(&self.digest),
        }
    }
}

/// The lower-cased name is that of a Windows installer of this application.
pub open spec fn is_app_installer(lower: Seq<char>) -> bool {
    &&& has_suffix(lower, ".exe"@)
    &&& !has_infix(lower, "uninstall"@)
    &&& !has_infix(lower, "portable"@)
}

/// The lower-cased name marks a build for the architecture.
pub open spec fn app_asset_for_architecture(lower: Seq<char>, architecture: Seq<char>) -> bool {
    if architecture == "x86_64"@ {
        &&& (has_infix(lower, "x64"@) || has_infix(lower, "x86_64"@) || has_infix(lower, "win64"@))
        &&& !has_infix(lower, "arm64"@)
        &&& !has_infix(lower, "aarch64"@)
    } else if architecture == "aarch64"@ {
        has_infix(lower, "arm64"@) || has_infix(lower, "aarch64"@)
    } else {
        false
    }
}

/// An asset of this name may be offered as the update for the architecture.
pub open spec fn app_asset_eligible(name: Seq<char>, architecture: Seq<char>) -> bool {
    is_app_installer(ascii_lower(name)) && app_asset_for_architecture(ascii_lower(name), architecture)
}

/// Preference among eligible assets: a name with "setup" beats one without,
/// and among those, one with "installer" beats one without.
pub open spec fn app_asset_rank(name: Seq<char>) -> int {
    (if has_infix(ascii_lower(name), "setup"@) { 2int } else { 0int }) + (if has_infix(
        ascii_lower(name),
        "installer"@,
    ) { 1int } else { 0int })
}

/// Index `i` is the chosen asset among the first `n`: it is eligible, no
/// eligible asset ranks higher, and every later eligible asset ranks lower
/// (of equally ranked assets the last one is chosen).
pub open spec fn is_best_app_asset(
    assets: Seq<AppReleaseAsset>,
    architecture: Seq<char>,
    n: int,
    i: int,
) -> bool {
    &&& 0 <= i < n
    &&& app_asset_eligible(assets[i].name@, architecture)
    &&& forall|j: int|
        0 <= j < n && app_asset_eligible(#[trigger] assets[j].name@, architecture) ==> app_asset_rank(
            assets[j].name@,
        ) <= app_asset_rank(assets[i].name@)
    &&& forall|j: int|
        i < j < n && app_asset_eligible(#[trigger] assets[j].name@, architecture) ==> app_asset_rank(
            assets[j].name@,
        ) < app_asset_rank(assets[i].name@)
}

/// Whether the architecture is the 64-bit x86 one, and whether it is the 64-bit ARM one.
pub fn architecture_kind(architecture: &str) -> (r: (bool, bool))
    ensures
        r.0 == (architecture@ == "x86_64"@),
        r.1 == (architecture@ == "aarch64"@),
        "x86_64"@ != "aarch64"@,
{
    proof {
        reveal_strlit("x86_64");
        reveal_strlit("aarch64");
        assert("x86_64"@[1] != "aarch64"@[1]);
    }
    (str_equals(architecture, "x86_64"), str_equals(architecture, "aarch64"))
}

/// Eligibility and rank of an application asset.
fn app_asset_eligibility(name: &String, architecture: &str) -> (r: (bool, u8))
    ensures
        r.0 == app_asset_eligible(name@, architecture@),
        r.1 == app_asset_rank(name@),
{
    let lower = lower_chars(&chars_of(name.as_str()));
    let installer = ends_with_chars(&lower, ".exe") && !contains_chars(&lower, "uninstall")
        && !contains_chars(&lower, "portable");
    let (x86, arm) = architecture_kind(architecture);
    let matches = if x86 {
        (contains_chars(&lower, "x64") || contains_chars(&lower, "x86_64") || contains_chars(
            &lower,
            "win64",
        )) && !contains_chars(&lower, "arm64") && !contains_chars(&lower, "aarch64")
    } else if arm {
        contains_chars(&lower, "arm64") || contains_chars(&lower, "aarch64")
    } else {
        false
    };
    let setup: u8 = if contains_chars(&lower, "setup") { 2 } else { 0 };
    let inst: u8 = if contains_chars(&lower, "installer") { 1 } else { 0 };
    (installer && matches, setup + inst)
}

/// An installer of this application chosen for x86-64 never names an ARM build.
pub proof fn lemma_x86_64_update_is_not_arm(name: Seq<char>)
    requires
        app_asset_eligible(name, "x86_64"@),
    ensures
        !has_infix(ascii_lower(name), "arm64"@),
        !has_infix(ascii_lower(name), "aarch64"@),
        has_suffix(ascii_lower(name), ".exe"@),
{
}

/// Picks the installer of this application for `architecture` from a
/// release: a `.exe` that is neither an uninstaller nor a portable build and
/// whose name names the architecture; among several, the one that ranks
/// highest by [`app_asset_rank`], the last of equally ranked ones.
pub fn choose_app_update_asset(release: &AppRelease, architecture: &str) -> (r: Result<
    AppReleaseAsset,
    InstallerError,
>)
    ensures
        r is Ok <==> exists|i: int|
            0 <= i < release.assets@.len() && app_asset_eligible(
                #[trigger] release.assets@[i].name@,
                architecture@,
            ),
        r matches Ok(a) ==> exists|i: int|
            is_best_app_asset(release.assets@, architecture@, release.assets@.len() as int, i)
                && a == release.assets@[i],
        r matches Err(e) ==> e matches InstallerError::NoAppUpdateInstaller { architecture: a }
            && a@ == architecture@,
{
    let assets = &release.assets;
    let mut best: Option<usize> = None;
    let mut best_rank: u8 = 0;
    let mut k: usize = 0;
    while k < assets.len()
        invariant
            k <= assets.len(),
            assets@ == release.assets@,
            best matches Some(b) ==> is_best_app_asset(assets@, architecture@, k as int, b as int)
                && best_rank == app_asset_rank(assets@[b as int].name@),
            best is None ==> forall|j: int|
                0 <= j < k ==> !app_asset_eligible(#[trigger] assets@[j].name@, architecture@),
        decreases assets.len() - k,
    {
        let (eligible, rank) = app_asset_eligibility(&assets[k].name, architecture);
        if eligible {
            match best {
                None => {
                    best = Some(k);
                    best_rank = rank;
                },
                Some(b) => {
                    if rank >= best_rank {
                        best = Some(k);
                        best_rank = rank;
                    }
                },
            }
        }
        k = k + 1;
    }
    match best {
        Some(b) => Ok(assets[b].duplicate()),
        None => Err(InstallerError::NoAppUpdateInstaller { architecture: architecture.to_string() }),
    }
}


/// One downloadable file of a release of a companion tool.
pub struct ReleaseAsset {
    pub name: String,
    pub browser_download_url: String,
    pub digest: Option<String>,
}

/// The latest release of a companion tool.
pub struct Release {
    pub _tag_name: String,
    pub assets: Vec<ReleaseAsset>,
}

/// One file of the official update manifest of Codex++.
pub struct PublishedAsset {
    pub name: String,
    pub url: String,
}

/// The official update manifest of Codex++.
pub struct CodexPlusPlusUpdate {
    pub version: String,
    pub assets: Vec<PublishedAsset>,
}

/// The release asset matches a chosen file by download address or by name.
pub open spec fn asset_matches(a: ReleaseAsset, name: Seq<char>, url: Seq<char>) -> bool {
    a.browser_download_url@ == url || a.name@ == name
}

/// The digest that the release publishes for a file: that of the first
/// release asset with the same download address or the same name, if any.
pub open spec fn published_digest(assets: Seq<ReleaseAsset>, name: Seq<char>, url: Seq<char>) -> Option<String>
    decreases assets.len(),
{
    if assets.len() == 0 {
        None
    } else if asset_matches(assets[0], name, url) {
        assets[0].digest
    } else {
        published_digest(assets.drop_first(), name, url)
    }
}

/// Describes a chosen file by its name and address, with the digest that the
/// release publishes for it.
pub fn release_asset_with_digest(release: &Release, name: String, browser_download_url: String) -> (r: ReleaseAsset)
    ensures
        r.name == name,
        r.browser_download_url == browser_download_url,
        r.digest == published_digest(release.assets@, name@, browser_download_url@),
{
    let assets = &release.assets;
    let mut k: usize = 0;
    assert(assets@.skip(0) =~= assets@);
    while k < assets.len()
        invariant
            k <= assets.len(),
            assets@ == release.assets@,
            published_digest(assets@, name@, browser_download_url@) == published_digest(
                assets@.skip(k as int),
                name@,
                browser_download_url@,
            ),
        decreases assets.len() - k,
    {
        proof {
            assert(assets@.skip(k as int).drop_first() =~= assets@.skip(k + 1));
            assert(assets@.skip(k as int)[0] == assets@[k as int]);
        }
        if assets[k].browser_download_url == browser_download_url || assets[k].name == name {
            let digest = clone_opt_string(&assets[k].digest);
            assert(asset_matches(assets@[k as int], name@, browser_download_url@));
            assert(assets@.skip(k as int)[0] == assets@[k as int]);
            assert(published_digest(assets@.skip(k as int), name@, browser_download_url@)
                == assets@[k as int].digest);
            return ReleaseAsset { name, browser_download_url, digest };
        }
        k = k + 1;
    }
    ReleaseAsset { name, browser_download_url, digest: None }
}

/// The digest comes from the first release asset that has the chosen file's
/// download address or its name: whichever of the two it shares, an earlier
/// asset that shares neither is passed over.
pub proof fn lemma_digest_of_first_sharing_asset(assets: Seq<ReleaseAsset>, name: Seq<char>, url: Seq<char>, k: int)
    requires
        0 <= k < assets.len(),
        assets[k].browser_download_url@ == url || assets[k].name@ == name,
        forall|j: int| 0 <= j < k ==> (#[trigger] assets[j]).browser_download_url@ != url && assets[j].name@ != name,
    ensures
        published_digest(assets, name, url) == assets[k].digest,
    decreases k,
{
    if k > 0 {
        assert(assets[0].browser_download_url@ != url && assets[0].name@ != name);
        let rest = assets.drop_first();
        assert forall|j: int| 0 <= j < k - 1 implies (#[trigger] rest[j]).browser_download_url@ != url && rest[j].name@ != name by {
            assert(rest[j] == assets[j + 1]);
        }
        assert(rest[k - 1] == assets[k]);
        lemma_digest_of_first_sharing_asset(rest, name, url, k - 1);
    }
}

/// No digest is published for a file whose download address and name no
/// release asset has.
pub proof fn lemma_no_digest_without_sharing_asset(assets: Seq<ReleaseAsset>, name: Seq<char>, url: Seq<char>)
    requires
        forall|j: int| 0 <= j < assets.len() ==> (#[trigger] assets[j]).browser_download_url@ != url && assets[j].name@ != name,
    ensures
        published_digest(assets, name, url) is None,
    decreases assets.len(),
{
    if assets.len() > 0 {
        assert(assets[0].browser_download_url@ != url && assets[0].name@ != name);
        let rest = assets.drop_first();
        assert forall|j: int| 0 <= j < rest.len() implies (#[trigger] rest[j]).browser_download_url@ != url && rest[j].name@ != name by {
            assert(rest[j] == assets[j + 1]);
        }
        lemma_no_digest_without_sharing_asset(rest, name, url);
    }
}

/// The lower-cased text "name url" of a manifest file.
pub open spec fn manifest_text(a: PublishedAsset) -> Seq<char> {
    ascii_lower(a.name@ + " "@ + a.url@)
}

/// A manifest file may be installed on Windows on the architecture.
pub open spec fn companion_file_eligible(lower: Seq<char>, architecture: Seq<char>) -> bool {
    &&& (has_suffix(lower, ".exe"@) || has_suffix(lower, ".msi"@))
    &&& !(has_infix(lower, "macos"@) || has_infix(lower, "darwin"@) || has_infix(lower, "linux"@))
    &&& if architecture == "x86_64"@ {
        !has_infix(lower, "arm64"@) && !has_infix(lower, "aarch64"@)
    } else if architecture == "aarch64"@ {
        has_infix(lower, "arm64"@) || has_infix(lower, "aarch64"@)
    } else {
        false
    }
}

/// Preference among eligible manifest files: "setup" first, then
/// "installer", then a `.exe` ending.
pub open spec fn companion_file_rank(lower: Seq<char>) -> int {
    (if has_infix(lower, "setup"@) { 4int } else { 0int }) + (if has_infix(lower, "installer"@) {
        2int
    } else {
        0int
    }) + (if has_suffix(lower, ".exe"@) { 1int } else { 0int })
}

/// Index `i` is the chosen manifest file among the first `n` (the last of the
/// highest-ranked eligible ones).
pub open spec fn is_best_companion_file(
    assets: Seq<PublishedAsset>,
    architecture: Seq<char>,
    n: int,
    i: int,
) -> bool {
    &&& 0 <= i < n
    &&& companion_file_eligible(manifest_text(assets[i]), architecture)
    &&& forall|j: int|
        0 <= j < n && companion_file_eligible(#[trigger] manifest_text(assets[j]), architecture)
            ==> companion_file_rank(manifest_text(assets[j])) <= companion_file_rank(
            manifest_text(assets[i]),
        )
    &&& forall|j: int|
        i < j < n && companion_file_eligible(#[trigger] manifest_text(assets[j]), architecture)
            ==> companion_file_rank(manifest_text(assets[j])) < companion_file_rank(
            manifest_text(assets[i]),
        )
}

/// Eligibility and rank of a manifest file.
fn companion_file_eligibility(asset: &PublishedAsset, architecture: &str) -> (r: (bool, u8))
    ensures
        r.0 == companion_file_eligible(manifest_text(*asset), architecture@),
        r.1 == companion_file_rank(manifest_text(*asset)),
{
    let mut text = chars_of(asset.name.as_str());
    text.push(' ');
    let mut url = chars_of(asset.url.as_str());
    text.append(&mut url);
    proof {
        assert(text@ =~= asset.name@ + " "@ + asset.url@) by {
            reveal_strlit(" ");
        }
    }
    let lower = lower_chars(&text);
    let is_exe = ends_with_chars(&lower, ".exe");
    let installer = is_exe || ends_with_chars(&lower, ".msi");
    let other = contains_chars(&lower, "macos") || contains_chars(&lower, "darwin")
        || contains_chars(&lower, "linux");
    let (x86, arm) = architecture_kind(architecture);
    let matches = if x86 {
        !contains_chars(&lower, "arm64") && !contains_chars(&lower, "aarch64")
    } else if arm {
        contains_chars(&lower, "arm64") || contains_chars(&lower, "aarch64")
    } else {
        false
    };
    let setup: u8 = if contains_chars(&lower, "setup") { 4 } else { 0 };
    let inst: u8 = if contains_chars(&lower, "installer") { 2 } else { 0 };
    let exe: u8 = if is_exe { 1 } else { 0 };
    (installer && !other && matches, setup + inst + exe)
}

/// A Codex++ file chosen for ARM64 names an ARM build, and one chosen for
/// x86-64 does not.
pub proof fn lemma_companion_file_matches_architecture(text: Seq<char>, architecture: Seq<char>)
    requires
        companion_file_eligible(text, architecture),
    ensures
        architecture == "aarch64"@ ==> has_infix(text, "arm64"@) || has_infix(text, "aarch64"@),
        architecture == "x86_64"@ ==> !has_infix(text, "arm64"@) && !has_infix(text, "aarch64"@),
        architecture == "x86_64"@ || architecture == "aarch64"@,
{
    reveal_strlit("x86_64");
    reveal_strlit("aarch64");
    assert("x86_64"@[1] != "aarch64"@[1]);
}

/// Picks the Codex++ installer for `architecture` from the official update
/// manifest: a `.exe` or `.msi` file, not for another platform, matching the
/// architecture; among several, the last of the highest-ranked by
/// [`companion_file_rank`]. Its digest comes from the release.
pub fn choose_codex_plus_plus_asset(
    update: &CodexPlusPlusUpdate,
    release: &Release,
    architecture: &str,
) -> (r: Result<ReleaseAsset, InstallerError>)
    ensures
        r is Ok <==> exists|i: int|
            0 <= i < update.assets@.len() && companion_file_eligible(
                #[trigger] manifest_text(update.assets@[i]),
                architecture@,
            ),
        r matches Ok(a) ==> exists|i: int|
            is_best_companion_file(update.assets@, architecture@, update.assets@.len() as int, i)
                && a.name == update.assets@[i].name && a.browser_download_url
                == update.assets@[i].url && a.digest == published_digest(
                release.assets@,
                update.assets@[i].name@,
                update.assets@[i].url@,
            ),
        r matches Err(e) ==> e matches InstallerError::NoCodexPlusPlusInstaller {
            architecture: a,
            version: v,
        } && a@ == architecture@ && v@ == update.version@,
{
    let assets = &update.assets;
    let mut best: Option<usize> = None;
    let mut best_rank: u8 = 0;
    let mut k: usize = 0;
    while k < assets.len()
        invariant
            k <= assets.len(),
            assets@ == update.assets@,
            best matches Some(b) ==> is_best_companion_file(assets@, architecture@, k as int, b as int)
                && best_rank == companion_file_rank(manifest_text(assets@[b as int])),
            best is None ==> forall|j: int|
                0 <= j < k ==> !companion_file_eligible(#[trigger] manifest_text(assets@[j]), architecture@),
        decreases assets.len() - k,
    {
        let (eligible, rank) = companion_file_eligibility(&assets[k], architecture);
        if eligible {
            match best {
                None => {
                    best = Some(k);
                    best_rank = rank;
                },
                Some(b) => {
                    if rank >= best_rank {
                        best = Some(k);
                        best_rank = rank;
                    }
                },
            }
        }
        k = k + 1;
    }
    match best {
        Some(b) => Ok(
            release_asset_with_digest(release, assets[b].name.clone(), assets[b].url.clone()),
        ),
        None => Err(
            InstallerError::NoCodexPlusPlusInstaller {
                architecture: architecture.to_string(),
                version: update.version.clone(),
            },
        ),
    }
}


/// One platform entry of the official update manifest of CC Switch.
pub struct PublishedPlatform {
    pub url: String,
}

/// The official update manifest of CC Switch: its platforms are keyed by
/// platform name, each name at most once.
pub struct CcSwitchUpdate {
    pub version: String,
    pub platforms: Vec<(String, PublishedPlatform)>,
}

impl CcSwitchUpdate {
    /// No platform name occurs twice.
    pub open spec fn well_formed(&self) -> bool {
        forall|i: int, j: int|
            0 <= i < j < self.platforms@.len() ==> #[trigger] self.platforms@[i].0@
                != #[trigger] self.platforms@[j].0@
    }
}

/// An optional string, by its characters.
pub open spec fn opt_chars(o: Option<String>) -> Option<Seq<char>> {
    match o {
        Some(s) => Some(s@),
        None => None,
    }
}

/// What the `url` crate gives as the last path segment of `text` parsed as
/// an absolute URL (`None` where it does not parse or cannot have a path).
pub uninterp spec fn url_last_path_segment(text: Seq<char>) -> Option<Seq<char>>;

/// Parses `text` with `reqwest::Url::parse` (the `url` crate) and takes the
/// last of its path segments, as `url` gives them (still percent-encoded).
/// The contract claims only that the result is a function of `text`, named
/// [`url_last_path_segment`].
#[verifier::external_body]
fn last_path_segment(text: &str) -> (r: Option<String>)
    ensures
        opt_chars(r) == url_last_path_segment(text@),
{
    let parsed = reqwest::Url::parse(text).ok()?;
    let mut segments = parsed.path_segments()?;
    let last = segments.next_back()?;
    Some(last.to_string())
}

/// The file name under which CC Switch is downloaded: the last path segment
/// of its address where that is present and not empty, else the default name.
pub open spec fn cc_switch_file_name_spec(segment: Option<Seq<char>>) -> Seq<char> {
    match segment {
        Some(s) => if s.len() > 0 { s } else { "CC-Switch-Windows.msi"@ },
        None => "CC-Switch-Windows.msi"@,
    }
}

/// Names the CC Switch download after the last path segment of its address.
pub fn cc_switch_file_name(segment: Option<String>) -> (r: String)
    ensures
        r@ == cc_switch_file_name_spec(opt_chars(segment)),
{
    match segment {
        Some(s) => {
            if s.as_str().is_empty() {
                "CC-Switch-Windows.msi".to_string()
            } else {
                s
            }
        },
        None => "CC-Switch-Windows.msi".to_string(),
    }
}

/// The manifest platform name of CC Switch for an architecture.
pub open spec fn cc_switch_platform(architecture: Seq<char>) -> Option<Seq<char>> {
    if architecture == "x86_64"@ {
        Some("windows-x86_64"@)
    } else if architecture == "aarch64"@ {
        Some("windows-aarch64"@)
    } else {
        None
    }
}

/// Index of the manifest entry for `platform`, if there is one.
pub fn find_platform(update: &CcSwitchUpdate, platform: &str) -> (r: Option<usize>)
    ensures
        r matches Some(i) ==> i < update.platforms@.len() && update.platforms@[i as int].0@ == platform@,
        r is None ==> forall|i: int|
            0 <= i < update.platforms@.len() ==> #[trigger] update.platforms@[i].0@ != platform@,
{
    let mut k: usize = 0;
    while k < update.platforms.len()
        invariant
            k <= update.platforms@.len(),
            forall|i: int| 0 <= i < k ==> #[trigger] update.platforms@[i].0@ != platform@,
        decreases update.platforms.len() - k,
    {
        if str_equals(update.platforms[k].0.as_str(), platform) {
            return Some(k);
        }
        k = k + 1;
    }
    None
}

/// Picks the CC Switch installer for `architecture`: the manifest entry of
/// the matching Windows platform, named after the last path segment of its
/// address, with the digest that the release publishes for it.
pub fn choose_cc_switch_asset(update: &CcSwitchUpdate, release: &Release, architecture: &str) -> (r:
    Result<ReleaseAsset, InstallerError>)
    requires
        update.well_formed(),
    ensures
        cc_switch_platform(architecture@) is None ==> (r matches Err(
            InstallerError::UnsupportedCcSwitchArchitecture { architecture: a },
        ) && a@ == architecture@),
        cc_switch_platform(architecture@) matches Some(p) ==> {
            &&& (r is Ok <==> exists|i: int|
                0 <= i < update.platforms@.len() && #[trigger] update.platforms@[i].0@ == p)
            &&& r matches Ok(a) ==> exists|i: int|
                0 <= i < update.platforms@.len() && #[trigger] update.platforms@[i].0@ == p
                    && a.browser_download_url == update.platforms@[i].1.url && a.name@
                    == cc_switch_file_name_spec(url_last_path_segment(update.platforms@[i].1.url@))
                    && a.digest == published_digest(
                    release.assets@,
                    a.name@,
                    update.platforms@[i].1.url@,
                )
            &&& r matches Err(e) ==> e matches InstallerError::NoCcSwitchPlatform {
                platform: q,
                version: v,
            } && q@ == p && v@ == update.version@
        },
{
    let (x86, arm) = architecture_kind(architecture);
    let platform = if x86 {
        "windows-x86_64"
    } else if arm {
        "windows-aarch64"
    } else {
        return Err(
            InstallerError::UnsupportedCcSwitchArchitecture { architecture: architecture.to_string() },
        );
    };
    match find_platform(update, platform) {
        None => Err(
            InstallerError::NoCcSwitchPlatform {
                platform: platform.to_string(),
                version: update.version.clone(),
            },
        ),
        Some(i) => {
            let url = &update.platforms[i].1.url;
            let name = cc_switch_file_name(last_path_segment(url.as_str()));
            Ok(release_asset_with_digest(release, name, url.clone()))
        },
    }
}


/// The signed MSIX package of the Codex desktop application for x86-64.
pub const CODEX_DESKTOP_X64_URL: &'static str = "https://persistent.oaistatic.com/codex-app-prod/ChatGPT-x64.msix";

/// The signed MSIX package of the Codex desktop application for ARM64.
pub const CODEX_DESKTOP_ARM64_URL: &'static str = "https://persistent.oaistatic.com/codex-app-prod/ChatGPT-arm64.msix";

/// The Visual C++ redistributable for x86-64.
pub const VC_REDIST_X64_URL: &'static str = "https://aka.ms/vs/17/release/vc_redist.x64.exe";

/// The Visual C++ redistributable for ARM64.
pub const VC_REDIST_ARM64_URL: &'static str = "https://aka.ms/vs/17/release/vc_redist.arm64.exe";

/// A download of a fixed file with no published digest.
pub fn fixed_asset(name: &str, url: &str) -> (r: ReleaseAsset)
    ensures
        r.name@ == name@,
        r.browser_download_url@ == url@,
        r.digest is None,
{
    ReleaseAsset { name: name.to_string(), browser_download_url: url.to_string(), digest: None }
}

/// The official MSIX package of the Codex desktop application for the architecture.
pub fn codex_desktop_asset(architecture: &str) -> (r: Result<ReleaseAsset, InstallerError>)
    ensures
        architecture@ == "x86_64"@ ==> (r matches Ok(a) && a.name@ == "ChatGPT-x64.msix"@
            && a.browser_download_url@ == CODEX_DESKTOP_X64_URL@ && a.digest is None),
        architecture@ == "aarch64"@ ==> (r matches Ok(a) && a.name@ == "ChatGPT-arm64.msix"@
            && a.browser_download_url@ == CODEX_DESKTOP_ARM64_URL@ && a.digest is None),
        architecture@ != "x86_64"@ && architecture@ != "aarch64"@ ==> (r matches Err(
            InstallerError::UnsupportedDesktopArchitecture { architecture: a },
        ) && a@ == architecture@),
{
    let (x86, arm) = architecture_kind(architecture);
    if x86 {
        Ok(fixed_asset("ChatGPT-x64.msix", CODEX_DESKTOP_X64_URL))
    } else if arm {
        Ok(fixed_asset("ChatGPT-arm64.msix", CODEX_DESKTOP_ARM64_URL))
    } else {
        Err(InstallerError::UnsupportedDesktopArchitecture { architecture: architecture.to_string() })
    }
}

/// Microsoft's Visual C++ redistributable for the architecture.
pub fn visual_cpp_runtime_asset(architecture: &str) -> (r: Result<ReleaseAsset, InstallerError>)
    ensures
        architecture@ == "x86_64"@ ==> (r matches Ok(a) && a.name@ == "vc_redist.x64.exe"@
            && a.browser_download_url@ == VC_REDIST_X64_URL@ && a.digest is None),
        architecture@ == "aarch64"@ ==> (r matches Ok(a) && a.name@ == "vc_redist.arm64.exe"@
            && a.browser_download_url@ == VC_REDIST_ARM64_URL@ && a.digest is None),
        architecture@ != "x86_64"@ && architecture@ != "aarch64"@ ==> (r matches Err(
            InstallerError::UnsupportedRuntimeArchitecture { architecture: a },
        ) && a@ == architecture@),
{
    let (x86, arm) = architecture_kind(architecture);
    if x86 {
        Ok(fixed_asset("vc_redist.x64.exe", VC_REDIST_X64_URL))
    } else if arm {
        Ok(fixed_asset("vc_redist.arm64.exe", VC_REDIST_ARM64_URL))
    } else {
        Err(InstallerError::UnsupportedRuntimeArchitecture { architecture: architecture.to_string() })
    }
}


/// The repository of CC Switch.
pub const CC_SWITCH_REPO: &'static str = "farion1231/cc-switch";

/// The repository of Codex++.
pub const CODEX_PLUSPLUS_REPO: &'static str = "BigPizzaV3/CodexPlusPlus";

/// The official update manifest of CC Switch.
pub const CC_SWITCH_UPDATE_URL: &'static str = "https://github.com/farion1231/cc-switch/releases/latest/download/latest.json";

/// The official update manifest of Codex++.
pub const CODEX_PLUSPLUS_UPDATE_URL: &'static str = "https://github.com/BigPizzaV3/CodexPlusPlus/releases/latest/download/latest.json";

/// Where a companion tool is published: its repository and its update
/// manifest; CC Switch for `cc-switch`, Codex++ for anything else.
pub fn companion_release_source(companion: &str) -> (r: (&'static str, &'static str))
    ensures
        companion@ == "cc-switch"@ ==> r.0@ == CC_SWITCH_REPO@ && r.1@ == CC_SWITCH_UPDATE_URL@,
        companion@ != "cc-switch"@ ==> r.0@ == CODEX_PLUSPLUS_REPO@ && r.1@ == CODEX_PLUSPLUS_UPDATE_URL@,
{
    if str_equals(companion, "cc-switch") {
        (CC_SWITCH_REPO, CC_SWITCH_UPDATE_URL)
    } else {
        (CODEX_PLUSPLUS_REPO, CODEX_PLUSPLUS_UPDATE_URL)
    }
}

} // verus!
