use vstd::prelude::*;
use vstd::string::{StrSliceExecFns, StringExecFns};


verus! {

/// The characters that `char::is_whitespace` accepts: those with the Unicode
/// `White_Space` property.
pub open spec fn is_white_space(c: char) -> bool {
    ||| '\u{9}' <= c && c <= '\u{d}'
    ||| c == ' '
    ||| c == '\u{85}'
    ||| c == '\u{a0}'
    ||| c == '\u{1680}'
    ||| '\u{2000}' <= c && c <= '\u{200a}'
    ||| c == '\u{2028}'
    ||| c == '\u{2029}'
    ||| c == '\u{202f}'
    ||| c == '\u{205f}'
    ||| c == '\u{3000}'
}

/// Whether `c` is Unicode white space.
pub fn white_space(c: char) -> (r: bool)
    ensures
        r == is_white_space(c),
{
    ('\u{9}' <= c && c <= '\u{d}') || c == ' ' || c == '\u{85}' || c == '\u{a0}' || c == '\u{1680}'
        || ('\u{2000}' <= c && c <= '\u{200a}') || c == '\u{2028}' || c == '\u{2029}' || c
        == '\u{202f}' || c == '\u{205f}' || c == '\u{3000}'
}

/// `s` without white space at its start.
pub open spec fn trim_start(s: Seq<char>) -> Seq<char>
    decreases s.len(),
{
    if s.len() > 0 && is_white_space(s[0]) {
        trim_start(s.drop_first())
    } else {
        s
    }
}

/// `s` without white space at its end.
pub open spec fn trim_end(s: Seq<char>) -> Seq<char>
    decreases s.len(),
{
    if s.len() > 0 && is_white_space(s.last()) {
        trim_end(s.drop_last())
    } else {
        s
    }
}

/// `s` without white space at either end, as `str::trim` gives it.
pub open spec fn trim(s: Seq<char>) -> Seq<char> {
    trim_end(trim_start(s))
}

/// The part of `s` before the first `c`; all of `s` where there is no `c`.
pub open spec fn before_first(s: Seq<char>, c: char) -> Seq<char>
    decreases s.len(),
{
    if s.len() == 0 {
        s
    } else if s[0] == c {
        Seq::empty()
    } else {
        seq![s[0]] + before_first(s.drop_first(), c)
    }
}

/// Removes white space from both ends of `s`.
pub fn trim_str(s: &str) -> (r: &str)
    ensures
        r@ == trim(s@),
{
    let n = s.unicode_len();
    let mut start: usize = 0;
    assert(s@.skip(0) =~= s@);
    while start < n
        invariant
            n == s@.len(),
            start <= n,
            trim_start(s@) == trim_start(s@.skip(start as int)),
        ensures
            start <= n,
            trim_start(s@) == s@.skip(start as int),
        decreases n - start,
    {
        if !white_space(s.get_char(start)) {
            break;
        }
        assert(s@.skip(start as int).drop_first() =~= s@.skip(start + 1));
        start = start + 1;
    }
    let mut end: usize = n;
    assert(s@.subrange(start as int, n as int) =~= s@.skip(start as int));
    while end > start
        invariant
            n == s@.len(),
            start <= end <= n,
            trim(s@) == trim_end(s@.subrange(start as int, end as int)),
        ensures
            start <= end <= n,
            trim(s@) == s@.subrange(start as int, end as int),
        decreases end - start,
    {
        if !white_space(s.get_char(end - 1)) {
            break;
        }
        assert(s@.subrange(start as int, end as int).drop_last() =~= s@.subrange(
            start as int,
            end - 1,
        ));
        end = end - 1;
    }
    s.substring_char(start, end)
}

/// Index of the first `c` in `s`, or the length of `s` where there is none.
pub fn find_char(s: &str, c: char) -> (r: usize)
    ensures
        r <= s@.len(),
        s@.subrange(0, r as int) == before_first(s@, c),
{
    let n = s.unicode_len();
    let mut k: usize = 0;
    assert(s@.skip(0) =~= s@);
    while k < n
        invariant
            n == s@.len(),
            k <= n,
            before_first(s@, c) == s@.subrange(0, k as int) + before_first(s@.skip(k as int), c),
        ensures
            k <= n,
            before_first(s@, c) == s@.subrange(0, k as int),
        decreases n - k,
    {
        if s.get_char(k) == c {
            assert(before_first(s@.skip(k as int), c) =~= Seq::<char>::empty());
            assert(s@.subrange(0, k as int) + Seq::<char>::empty() =~= s@.subrange(0, k as int));
            break;
        }
        assert(s@.skip(k as int).drop_first() =~= s@.skip(k + 1));
        assert(s@.subrange(0, k + 1) =~= s@.subrange(0, k as int) + seq![s@[k as int]]);
        assert(before_first(s@.skip(k as int), c) == seq![s@[k as int]] + before_first(s@.skip(k + 1), c));
        k = k + 1;
    }
    assert(s@.skip(n as int) =~= Seq::<char>::empty());
    k
}

/// The executable named by a registered application path: the quoted part of
/// a value that starts with a quote, else the part before any `,` (as in an
/// icon reference `path,0`), without surrounding white space.
pub open spec fn registered_executable_spec(value: Seq<char>) -> Seq<char> {
    let t = trim(value);
    if t.len() > 0 && t[0] == '"' {
        trim(before_first(t.drop_first(), '"'))
    } else {
        trim(before_first(t, ','))
    }
}

/// The executable path that a registered `App Paths` value names.
pub fn registered_executable_path(value: &str) -> (r: String)
    ensures
        r@ == registered_executable_spec(value@),
{
    let trimmed = trim_str(value);
    let n = trimmed.unicode_len();
    let executable = if n > 0 && trimmed.get_char(0) == '"' {
        let rest = trimmed.substring_char(1, n);
        assert(rest@ =~= trimmed@.drop_first());
        let end = find_char(rest, '"');
        rest.substring_char(0, end)
    } else {
        let end = find_char(trimmed, ',');
        trimmed.substring_char(0, end)
    };
    trim_str(executable).to_string()
}


/// Nothing that `trim_start` leaves begins with white space.
proof fn lemma_trim_start_head(s: Seq<char>)
    ensures
        trim_start(s).len() == 0 || !is_white_space(trim_start(s)[0]),
    decreases s.len(),
{
    if s.len() > 0 && is_white_space(s[0]) {
        lemma_trim_start_head(s.drop_first());
    }
}

/// Nothing that `trim_end` leaves ends with white space.
proof fn lemma_trim_end_last(s: Seq<char>)
    ensures
        trim_end(s).len() == 0 || !is_white_space(trim_end(s).last()),
    decreases s.len(),
{
    if s.len() > 0 && is_white_space(s.last()) {
        lemma_trim_end_last(s.drop_last());
    }
}

/// `trim_end` keeps a first character that is not white space.
proof fn lemma_trim_end_keeps_head(s: Seq<char>)
    requires
        s.len() > 0,
        !is_white_space(s[0]),
    ensures
        trim_end(s).len() > 0,
        trim_end(s)[0] == s[0],
    decreases s.len(),
{
    if is_white_space(s.last()) {
        assert(s.len() > 1);
        assert(s.drop_last()[0] == s[0]);
        lemma_trim_end_keeps_head(s.drop_last());
    }
}

/// Trimming what is already trimmed changes nothing.
pub proof fn lemma_trim_idempotent(s: Seq<char>)
    ensures
        trim(trim(s)) == trim(s),
{
    let a = trim_start(s);
    let t = trim_end(a);
    lemma_trim_start_head(s);
    lemma_trim_end_last(a);
    if t.len() > 0 {
        lemma_trim_end_keeps_head(a);
        assert(trim_start(t) == t);
        assert(trim_end(t) == t);
    } else {
        assert(trim_start(t) == t);
        assert(trim_end(t) == t);
    }
}

/// The path read from a registered value never has white space at either end.
pub proof fn lemma_registered_path_is_trimmed(value: Seq<char>)
    ensures
        trim(registered_executable_spec(value)) == registered_executable_spec(value),
{
    let t = trim(value);
    if t.len() > 0 && t[0] == '"' {
        lemma_trim_idempotent(before_first(t.drop_first(), '"'));
    } else {
        lemma_trim_idempotent(before_first(t, ','));
    }
}

/// How the Codex desktop application is installed.
pub enum CodexDesktopInstallation {
    /// As a Microsoft Store (MSIX) package.
    MicrosoftStore,
    /// As an executable at this path.
    Executable(String),
}

/// The text that describes an installation to the user.
pub open spec fn installation_description(i: CodexDesktopInstallation) -> Seq<char> {
    match i {
        CodexDesktopInstallation::MicrosoftStore => "Desktop（Microsoft Store / MSIX）"@,
        CodexDesktopInstallation::Executable(path) => "Desktop（"@ + path@ + "）"@,
    }
}

impl CodexDesktopInstallation {
    /// Describes the installation to the user.
    pub fn description(&self) -> (r: String)
        ensures
            r@ == installation_description(*self),
    {
        match self {
            CodexDesktopInstallation::MicrosoftStore => "Desktop（Microsoft Store / MSIX）".to_string(),
            CodexDesktopInstallation::Executable(path) => "Desktop（".to_string().concat(path.as_str()).concat("）"),
        }
    }
}

/// The registry key, under the current-user and then the local-machine root,
/// where Windows records the path of an application `name` such as `Codex.exe`.
pub fn app_path_subkey(name: &str) -> (r: String)
    ensures
        r@ == "Software\\Microsoft\\Windows\\CurrentVersion\\App Paths\\"@ + name@,
{
    "Software\\Microsoft\\Windows\\CurrentVersion\\App Paths\\".to_string().concat(name)
}

/// The executable paths that registered `App Paths` values name, in the
/// order of the values; a value that could not be read contributes nothing.
pub open spec fn app_path_candidates_spec(values: Seq<Option<String>>) -> Seq<Seq<char>>
    decreases values.len(),
{
    if values.len() == 0 {
        Seq::empty()
    } else {
        let rest = app_path_candidates_spec(values.drop_last());
        match values.last() {
            Some(v) => rest.push(registered_executable_spec(v@)),
            None => rest,
        }
    }
}

/// The paths of Codex that the registry names, from the values registered
/// for `Codex.exe` and `ChatGPT.exe` under the current-user and the
/// local-machine roots (in that order), each read as [`registered_executable_path`].
pub fn codex_desktop_app_path_candidates(registered: &Vec<Option<String>>) -> (r: Vec<String>)
    ensures
        r@.map_values(|p: String| p@) == app_path_candidates_spec(registered@),
{
    let mut r: Vec<String> = Vec::new();
    let mut k: usize = 0;
    while k < registered.len()
        invariant
            k <= registered.len(),
            r@.map_values(|p: String| p@) == app_path_candidates_spec(registered@.subrange(0, k as int)),
        decreases registered.len() - k,
    {
        proof {
            assert(registered@.subrange(0, k + 1).drop_last() =~= registered@.subrange(0, k as int));
        }
        match &registered[k] {
            Some(v) => {
                let p = registered_executable_path(v.as_str());
                r.push(p);
            },
            None => {},
        }
        proof {
            assert(r@.map_values(|p: String| p@) =~= app_path_candidates_spec(registered@.subrange(0, k + 1)));
        }
        k = k + 1;
    }
    assert(registered@.subrange(0, registered@.len() as int) =~= registered@);
    r
}

/// Where the Codex desktop application is commonly installed, relative to a
/// program folder.
pub open spec fn codex_relative_paths() -> Seq<Seq<char>> {
    seq![
        "Codex\\Codex.exe"@,
        "OpenAI\\Codex\\Codex.exe"@,
        "OpenAI Codex\\Codex.exe"@,
        "ChatGPT\\ChatGPT.exe"@,
        "OpenAI\\ChatGPT\\ChatGPT.exe"@,
    ]
}

/// A place to look for a program: a relative path under a folder, which
/// the file system joins.
pub struct CandidateLocation {
    pub root: String,
    pub relative: String,
}

/// A location, by its characters.
pub open spec fn location_view(l: CandidateLocation) -> (Seq<char>, Seq<char>) {
    (l.root@, l.relative@)
}

/// A location under `root`.
fn location(root: &String, relative: &str) -> (r: CandidateLocation)
    ensures
        location_view(r) == (root@, relative@),
{
    CandidateLocation { root: root.clone(), relative: String::from_str(relative) }
}

/// The common install locations of Codex under the given program folders:
/// for each folder in turn, each relative path of [`codex_relative_paths`].
pub fn codex_desktop_common_candidates(roots: &Vec<String>) -> (r: Vec<CandidateLocation>)
    ensures
        r@.len() == roots@.len() * 5,
        forall|i: int, j: int|
            0 <= i < roots@.len() && 0 <= j < 5 ==> #[trigger] location_view(r@[i * 5 + j]) == (
                roots@[i]@,
                codex_relative_paths()[j],
            ),
{
    let mut r: Vec<CandidateLocation> = Vec::new();
    let mut k: usize = 0;
    while k < roots.len()
        invariant
            k <= roots.len(),
            r@.len() == k * 5,
            forall|i: int, j: int|
                0 <= i < k && 0 <= j < 5 ==> #[trigger] location_view(r@[i * 5 + j]) == (
                    roots@[i]@,
                    codex_relative_paths()[j],
                ),
        decreases roots.len() - k,
    {
        let root = &roots[k];
        let ghost before = r@;
        r.push(location(root, "Codex\\Codex.exe"));
        r.push(location(root, "OpenAI\\Codex\\Codex.exe"));
        r.push(location(root, "OpenAI Codex\\Codex.exe"));
        r.push(location(root, "ChatGPT\\ChatGPT.exe"));
        r.push(location(root, "OpenAI\\ChatGPT\\ChatGPT.exe"));
        proof {
            assert forall|i: int, j: int| 0 <= i < k + 1 && 0 <= j < 5 implies #[trigger] location_view(
                r@[i * 5 + j],
            ) == (roots@[i]@, codex_relative_paths()[j]) by {
                if i < k {
                    assert(i * 5 + j < k * 5) by (nonlinear_arith)
                        requires
                            i < k,
                            0 <= j < 5,
                    ;
                    assert(r@[i * 5 + j] == before[i * 5 + j]);
                } else {
                    assert(i * 5 + j == k * 5 + j) by (nonlinear_arith)
                        requires
                            i == k,
                    ;
                }
            }
        }
        k = k + 1;
    }
    r
}

/// A place where Codex may be installed, and whether a file is there.
pub struct CandidatePath {
    pub path: String,
    pub is_file: bool,
}

/// Finds the Codex desktop application: the first candidate path that is a
/// file; failing that, the Microsoft Store package, which `store_check`
/// looks for (it runs only when no candidate is a file).
pub fn detect_codex_desktop<F: FnOnce() -> bool>(candidates: &Vec<CandidatePath>, store_check: F) -> (r:
    Option<CodexDesktopInstallation>)
    requires
        (forall|i: int| 0 <= i < candidates@.len() ==> !#[trigger] candidates@[i].is_file) ==> call_requires(
            store_check,
            (),
        ),
    ensures
        forall|i: int|
            0 <= i < candidates@.len() && #[trigger] candidates@[i].is_file ==> exists|k: int|
                0 <= k <= i && candidates@[k].is_file && (forall|j: int|
                    0 <= j < k ==> !#[trigger] candidates@[j].is_file) && r == Some(
                    CodexDesktopInstallation::Executable(candidates@[k].path),
                ),
        (forall|i: int| 0 <= i < candidates@.len() ==> !#[trigger] candidates@[i].is_file) ==> exists|
            found: bool,
        |
            call_ensures(store_check, (), found) && r == (if found {
                Some(CodexDesktopInstallation::MicrosoftStore)
            } else {
                None
            }),
{
    let mut k: usize = 0;
    while k < candidates.len()
        invariant
            k <= candidates.len(),
            forall|j: int| 0 <= j < k ==> !#[trigger] candidates@[j].is_file,
        decreases candidates.len() - k,
    {
        if candidates[k].is_file {
            return Some(CodexDesktopInstallation::Executable(candidates[k].path.clone()));
        }
        k = k + 1;
    }
    let found = store_check();
    if found {
        Some(CodexDesktopInstallation::MicrosoftStore)
    } else {
        None
    }
}

/// Whether the Microsoft Store package of Codex is installed, from the probe
/// that asks Windows for it: `None` where the probe could not be run, else
/// whether it reported success.
pub fn microsoft_store_codex_installed(probe_success: Option<bool>) -> (r: bool)
    ensures
        r == (probe_success == Some(true)),
{
    match probe_success {
        Some(b) => b,
        None => false,
    }
}


/// What Windows reports about the Visual C++ runtime.
pub struct RuntimeProbe {
    /// The `Installed` value under the runtime's registry key, where it could be read.
    pub registry_installed: Option<u32>,
    /// Whether the Windows directory is known.
    pub windows_dir_known: bool,
    /// Whether `VCRUNTIME140.dll` is a file in the system directory.
    pub vcruntime140: bool,
    /// Whether `VCRUNTIME140_1.dll` is a file in the system directory.
    pub vcruntime140_1: bool,
}

/// The Visual C++ runtime counts as installed when the registry says so and
/// both of its libraries are in the system directory.
pub fn visual_cpp_runtime_installed(probe: &RuntimeProbe) -> (r: bool)
    ensures
        r == (probe.registry_installed == Some(1u32) && probe.windows_dir_known && probe.vcruntime140
            && probe.vcruntime140_1),
{
    let registry_installed = match probe.registry_installed {
        Some(v) => v == 1,
        None => false,
    };
    if !probe.windows_dir_known {
        return false;
    }
    registry_installed && probe.vcruntime140 && probe.vcruntime140_1
}

/// The registry key of the Visual C++ runtime for the architecture: the ARM64
/// one on `aarch64`, the x64 one everywhere else.
pub fn visual_cpp_runtime_registry_subkey(architecture: &str) -> (r: String)
    ensures
        architecture@ == "aarch64"@ ==> r@ == "SOFTWARE\\Microsoft\\VisualStudio\\14.0\\VC\\Runtimes\\ARM64"@,
        architecture@ != "aarch64"@ ==> r@ == "SOFTWARE\\Microsoft\\VisualStudio\\14.0\\VC\\Runtimes\\x64"@,
{
    if crate::text::str_equals(architecture, "aarch64") {
        String::from_str("SOFTWARE\\Microsoft\\VisualStudio\\14.0\\VC\\Runtimes\\ARM64")
    } else {
        String::from_str("SOFTWARE\\Microsoft\\VisualStudio\\14.0\\VC\\Runtimes\\x64")
    }
}

/// A program file under the user's local `Programs` folder.
pub struct ProgramFile {
    pub directory: String,
    pub file: String,
}

/// The files that make a companion tool count as installed: CC Switch's
/// executable for `cc-switch`, both Codex++ executables for anything else.
pub open spec fn companion_files_spec(companion: Seq<char>) -> Seq<(Seq<char>, Seq<char>)> {
    if companion == "cc-switch"@ {
        seq![("CC Switch"@, "cc-switch.exe"@)]
    } else {
        seq![("Codex++"@, "codex-plus-plus-manager.exe"@), ("Codex++"@, "codex-plus-plus.exe"@)]
    }
}

/// A program file, by its characters.
pub open spec fn program_file_view(f: ProgramFile) -> (Seq<char>, Seq<char>) {
    (f.directory@, f.file@)
}

/// A program file built from its folder and file name.
pub fn program_file(directory: &str, file: &str) -> (r: ProgramFile)
    ensures
        program_file_view(r) == (directory@, file@),
{
    ProgramFile { directory: String::from_str(directory), file: String::from_str(file) }
}

/// The files under `Programs` whose presence shows the companion tool is installed.
pub fn companion_program_files(companion: &str) -> (r: Vec<ProgramFile>)
    ensures
        r@.map_values(|f: ProgramFile| program_file_view(f)) == companion_files_spec(companion@),
{
    let mut r: Vec<ProgramFile> = Vec::new();
    if crate::text::str_equals(companion, "cc-switch") {
        r.push(program_file("CC Switch", "cc-switch.exe"));
    } else {
        r.push(program_file("Codex++", "codex-plus-plus-manager.exe"));
        r.push(program_file("Codex++", "codex-plus-plus.exe"));
    }
    assert(r@.map_values(|f: ProgramFile| program_file_view(f)) =~= companion_files_spec(companion@));
    r
}

/// A companion tool is installed when the local data folder is known and
/// each of its program files is present (`present[i]` for the i-th file of
/// [`companion_program_files`]).
pub fn companion_is_installed(local_data_known: bool, present: &Vec<bool>) -> (r: bool)
    ensures
        r == (local_data_known && forall|i: int| 0 <= i < present@.len() ==> #[trigger] present@[i]),
{
    if !local_data_known {
        return false;
    }
    let mut k: usize = 0;
    while k < present.len()
        invariant
            k <= present.len(),
            forall|i: int| 0 <= i < k ==> #[trigger] present@[i],
        decreases present.len() - k,
    {
        if !present[k] {
            return false;
        }
        k = k + 1;
    }
    true
}

} // verus!
