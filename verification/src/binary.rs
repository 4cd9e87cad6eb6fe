//! Where the language server binary comes from: an explicit override given by
//! the user, or the release asset published for this platform.
use vstd::prelude::*;
use crate::common::release::{
    asset_name, extracted_binary_path, is_zip_archive, spec_asset_name,
    spec_extracted_binary_path, spec_is_zip_archive,
};
use crate::text::str_equal;
use crate::version::{is_newer_version, spec_is_newer_version};

verus! {

/// Environment variable that points at a locally installed binary.
pub const BINARY_PATH_ENV_VAR: &'static str = "BASILISK_PATH";

/// Subcommand that starts the language server.
pub const LSP_SUBCOMMAND: &'static str = "lsp";

/// The characters of an optional string.
pub open spec fn opt_str_view(o: Option<&str>) -> Option<Seq<char>> {
    match o {
        Some(s) => Some(s@),
        None => None,
    }
}

/// The characters of an optional owned string.
pub open spec fn opt_string_view(o: Option<String>) -> Option<Seq<char>> {
    match o {
        Some(s) => Some(s@),
        None => None,
    }
}

/// An environment as `(name, value)` character sequences.
pub open spec fn env_view(env: Seq<(String, String)>) -> Seq<(Seq<char>, Seq<char>)> {
    env.map_values(|p: (String, String)| (p.0@, p.1@))
}

/// The value of the first variable called `name`, reading the list front to back.
pub open spec fn env_lookup(env: Seq<(Seq<char>, Seq<char>)>, name: Seq<char>) -> Option<Seq<char>>
    decreases env.len(),
{
    if env.len() == 0 {
        None
    } else if env[0].0 == name {
        Some(env[0].1)
    } else {
        env_lookup(env.drop_first(), name)
    }
}

/// A lookup finds the first variable that carries the name.
proof fn lemma_env_lookup_first(env: Seq<(Seq<char>, Seq<char>)>, name: Seq<char>, i: int)
    requires
        0 <= i < env.len(),
        env[i].0 == name,
        forall|j: int| 0 <= j < i ==> env[j].0 != name,
    ensures
        env_lookup(env, name) == Some(env[i].1),
    decreases i,
{
    if i > 0 {
        lemma_env_lookup_first(env.drop_first(), name, i - 1);
    }
}

/// A name that no variable carries is not found.
proof fn lemma_env_lookup_absent(env: Seq<(Seq<char>, Seq<char>)>, name: Seq<char>)
    requires
        forall|j: int| 0 <= j < env.len() ==> env[j].0 != name,
    ensures
        env_lookup(env, name) is None,
    decreases env.len(),
{
    if env.len() > 0 {
        lemma_env_lookup_absent(env.drop_first(), name);
    }
}

/// Search for a named variable in a list of `(key, value)` pairs: the value of
/// the first pair whose key is `name`.
pub fn find_env_var<'a>(env: &'a [(String, String)], name: &str) -> (r: Option<&'a str>)
    ensures
        opt_str_view(r) == env_lookup(env_view(env@), name@),
{
    let ghost ev = env_view(env@);
    let mut i: usize = 0;
    while i < env.len()
        invariant
            i <= env.len(),
            ev == env_view(env@),
            forall|j: int| 0 <= j < i ==> ev[j].0 != name@,
        decreases env.len() - i,
    {
        if str_equal(env[i].0.as_str(), name) {
            proof {
                lemma_env_lookup_first(ev, name@, i as int);
            }
            return Some(env[i].1.as_str());
        }
        i = i + 1;
    }
    proof {
        lemma_env_lookup_absent(ev, name@);
    }
    None
}

/// The explicit override the user asked for: the settings path first, then
/// the environment variable; `None` means the release asset is downloaded.
pub open spec fn spec_resolve_binary_override(
    settings_path: Option<Seq<char>>,
    env_path: Option<Seq<char>>,
) -> Option<Seq<char>> {
    match settings_path {
        Some(p) => Some(p),
        None => env_path,
    }
}

/// Resolve an explicit, user-provided binary override, if any.
///
/// Precedence: the Zed LSP `binary.path` setting, then the `BASILISK_PATH`
/// environment variable. Returns `None` when neither is set, the signal to
/// fall back to the managed release download; there is no filesystem default.
pub fn resolve_binary_override(settings_path: Option<&str>, env_path: Option<&str>) -> (r: Option<
    String,
>)
    ensures
        opt_string_view(r) == spec_resolve_binary_override(
            opt_str_view(settings_path),
            opt_str_view(env_path),
        ),
{
    match settings_path {
        Some(p) => Some(String::from_str(p)),
        None => match env_path {
            Some(p) => Some(String::from_str(p)),
            None => None,
        },
    }
}

/// The binary the user points at: the settings path, else `BASILISK_PATH` in
/// the environment; `None` means the release asset is downloaded.
pub open spec fn spec_resolve_binary_path(
    settings_path: Option<Seq<char>>,
    env: Seq<(Seq<char>, Seq<char>)>,
) -> Option<Seq<char>> {
    spec_resolve_binary_override(settings_path, env_lookup(env, BINARY_PATH_ENV_VAR@))
}

/// Resolve the binary from the user's override: the Zed settings path, else
/// the `BASILISK_PATH` variable of the worktree's environment. `None` means
/// the release asset must be downloaded.
pub fn resolve_binary_path(settings_path: Option<&str>, env: &[(String, String)]) -> (r: Option<
    String,
>)
    ensures
        opt_string_view(r) == spec_resolve_binary_path(opt_str_view(settings_path), env_view(env@)),
{
    resolve_binary_override(settings_path, find_env_var(env, BINARY_PATH_ENV_VAR))
}

/// The host operating system, as Zed reports it.
#[derive(Clone, Copy, Debug, PartialEq, Eq, Structural)]
pub enum Os {
    Mac,
    Linux,
    Windows,
}

/// The host architecture, as Zed reports it.
#[derive(Clone, Copy, Debug, PartialEq, Eq, Structural)]
pub enum Arch {
    Aarch64,
    X8664,
    X86,
}

/// The OS token of the release asset names.
pub open spec fn spec_os_token(os: Os) -> Seq<char> {
    match os {
        Os::Mac => "apple-darwin"@,
        Os::Linux => "unknown-linux-gnu"@,
        Os::Windows => "pc-windows-msvc"@,
    }
}

/// The architecture token of the release asset names; none for 32-bit x86.
pub open spec fn spec_arch_token(arch: Arch) -> Option<Seq<char>> {
    match arch {
        Arch::Aarch64 => Some("aarch64"@),
        Arch::X8664 => Some("x86_64"@),
        Arch::X86 => None,
    }
}

/// The file name of the binary on a platform.
pub open spec fn spec_binary_name(os: Os) -> Seq<char> {
    match os {
        Os::Windows => "basilisk.exe"@,
        _ => "basilisk"@,
    }
}

/// The OS token of the release asset names.
pub fn os_token(os: Os) -> (r: &'static str)
    ensures
        r@ == spec_os_token(os),
{
    match os {
        Os::Mac => "apple-darwin",
        Os::Linux => "unknown-linux-gnu",
        Os::Windows => "pc-windows-msvc",
    }
}

/// The file name of the binary on a platform.
pub fn binary_name(os: Os) -> (r: &'static str)
    ensures
        r@ == spec_binary_name(os),
{
    match os {
        Os::Windows => "basilisk.exe",
        _ => "basilisk",
    }
}

/// What to fetch from a release and where the binary lands.
pub struct DownloadPlan {
    /// Name of the release asset to download.
    pub asset_name: String,
    /// Directory, inside the extension's work directory, the asset unpacks into.
    pub download_dir: String,
    /// Path of the unpacked binary.
    pub binary_path: String,
    /// Whether the asset is a zip archive (else a gzipped tar).
    pub is_zip: bool,
}

/// The error for a host that no release asset is built for.
pub open spec fn unsupported_arch_message() -> Seq<char> {
    "32-bit x86 is not supported"@
}

/// The directory a release version unpacks into.
pub open spec fn spec_download_dir(version: Seq<char>) -> Seq<char> {
    "basilisk-"@ + version
}

/// The download for a platform and release version.
pub fn plan_download(os: Os, arch: Arch, version: &str) -> (r: Result<DownloadPlan, String>)
    ensures
        match r {
            Ok(plan) => {
                &&& spec_arch_token(arch) matches Some(a)
                &&& plan.asset_name@ == spec_asset_name(
                    spec_os_token(os),
                    a,
                    os == Os::Windows,
                )
                &&& plan.download_dir@ == spec_download_dir(version@)
                &&& plan.binary_path@ == spec_download_dir(version@) + "/"@
                    + spec_extracted_binary_path(spec_binary_name(os), spec_os_token(os))
                &&& plan.is_zip == spec_is_zip_archive(spec_os_token(os), os == Os::Windows)
            },
            Err(e) => arch == Arch::X86 && e@ == unsupported_arch_message(),
        },
{
    let arch_str = match arch {
        Arch::Aarch64 => "aarch64",
        Arch::X8664 => "x86_64",
        Arch::X86 => {
            return Err(String::from_str("32-bit x86 is not supported"));
        },
    };
    let os_str = os_token(os);
    let is_windows = match os {
        Os::Windows => true,
        _ => false,
    };
    let name = asset_name(os_str, arch_str, is_windows);
    let mut download_dir = String::from_str("basilisk-");
    download_dir.append(version);
    let inner = extracted_binary_path(binary_name(os), os_str);
    let mut binary_path = download_dir.clone();
    binary_path.append("/");
    binary_path.append(inner.as_str());
    let plan = DownloadPlan {
        asset_name: name,
        download_dir,
        binary_path,
        is_zip: is_zip_archive(os_str, is_windows),
    };
    assert(plan.download_dir@ =~= spec_download_dir(version@));
    assert(plan.binary_path@ =~= spec_download_dir(version@) + "/"@ + spec_extracted_binary_path(
        spec_binary_name(os),
        spec_os_token(os),
    ));
    Ok(plan)
}

/// The error when a release carries no asset of the expected name.
pub open spec fn missing_asset_message(expected: Seq<char>, version: Seq<char>) -> Seq<char> {
    "No release asset found for "@ + expected + " in "@ + version
}

/// The index of the first asset called `expected` among a release's asset
/// names, or the error naming the asset and the release version.
pub fn find_release_asset(asset_names: &[String], expected: &str, version: &str) -> (r: Result<
    usize,
    String,
>)
    ensures
        match r {
            Ok(i) => {
                &&& i < asset_names@.len()
                &&& asset_names@[i as int]@ == expected@
                &&& forall|j: int| 0 <= j < i ==> asset_names@[j]@ != expected@
            },
            Err(e) => {
                &&& forall|j: int| 0 <= j < asset_names@.len() ==> asset_names@[j]@ != expected@
                &&& e@ == missing_asset_message(expected@, version@)
            },
        },
{
    let mut i: usize = 0;
    while i < asset_names.len()
        invariant
            i <= asset_names@.len(),
            forall|j: int| 0 <= j < i ==> asset_names@[j]@ != expected@,
        decreases asset_names.len() - i,
    {
        if str_equal(asset_names[i].as_str(), expected) {
            return Ok(i);
        }
        i = i + 1;
    }
    let mut e = String::from_str("No release asset found for ");
    e.append(expected);
    e.append(" in ");
    e.append(version);
    assert(e@ =~= missing_asset_message(expected@, version@));
    Err(e)
}

/// The notice logged when a newer release than the running binary exists.
pub open spec fn update_message(current: Seq<char>, latest: Seq<char>) -> Seq<char> {
    "[basilisk] Update available: "@ + current + " → "@ + latest + " (restart Zed to upgrade)"@
}

/// The update notice for the running version `current` against the latest
/// release: present exactly when the release is newer.
pub fn update_notice(current: &str, latest: &str) -> (r: Option<String>)
    ensures
        match r {
            Some(m) => spec_is_newer_version(current@, latest@) && m@ == update_message(
                current@,
                latest@,
            ),
            None => !spec_is_newer_version(current@, latest@),
        },
{
    if is_newer_version(current, latest) {
        let mut m = String::from_str("[basilisk] Update available: ");
        m.append(current);
        m.append(" → ");
        m.append(latest);
        m.append(" (restart Zed to upgrade)");
        assert(m@ =~= update_message(current@, latest@));
        Some(m)
    } else {
        None
    }
}

/// Looking up a name gives the value of the first variable carrying it, and
/// nothing when no variable carries it.
pub proof fn lemma_env_lookup_finds_first(env: Seq<(Seq<char>, Seq<char>)>, name: Seq<char>)
    ensures
        match env_lookup(env, name) {
            Some(v) => exists|i: int|
                0 <= i < env.len() && #[trigger] env[i] == (name, v) && forall|j: int|
                    0 <= j < i ==> env[j].0 != name,
            None => forall|j: int| 0 <= j < env.len() ==> env[j].0 != name,
        },
    decreases env.len(),
{
    if env.len() > 0 {
        let rest = env.drop_first();
        lemma_env_lookup_finds_first(rest, name);
        if env[0].0 == name {
            assert(env[0] == (name, env[0].1));
        } else {
            match env_lookup(rest, name) {
                Some(v) => {
                    let i = choose|i: int|
                        0 <= i < rest.len() && #[trigger] rest[i] == (name, v) && forall|j: int|
                            0 <= j < i ==> rest[j].0 != name;
                    assert(env[i + 1] == (name, v));
                    assert forall|j: int| 0 <= j < i + 1 implies env[j].0 != name by {
                        if j > 0 {
                            assert(env[j] == rest[j - 1]);
                        }
                    }
                },
                None => {
                    assert forall|j: int| 0 <= j < env.len() implies env[j].0 != name by {
                        if j > 0 {
                            assert(env[j] == rest[j - 1]);
                        }
                    }
                },
            }
        }
    }
}

/// A settings path is the override whatever the environment holds; without
/// one, the environment's path is, and with neither there is none.
pub proof fn lemma_settings_path_first(
    settings_path: Option<Seq<char>>,
    env_path: Option<Seq<char>>,
)
    ensures
        settings_path matches Some(p) ==> spec_resolve_binary_override(settings_path, env_path)
            == Some(p),
        settings_path is None ==> spec_resolve_binary_override(settings_path, env_path)
            == env_path,
{
}

/// The binary the user points at is the settings path when there is one, else
/// the value of the first `BASILISK_PATH` variable, else none (download).
pub proof fn lemma_binary_path_source(
    settings_path: Option<Seq<char>>,
    env: Seq<(Seq<char>, Seq<char>)>,
)
    ensures
        settings_path matches Some(p) ==> spec_resolve_binary_path(settings_path, env) == Some(p),
        settings_path is None ==> match spec_resolve_binary_path(settings_path, env) {
            Some(v) => exists|i: int|
                0 <= i < env.len() && #[trigger] env[i] == (BINARY_PATH_ENV_VAR@, v) && forall|j: int|
                    0 <= j < i ==> env[j].0 != BINARY_PATH_ENV_VAR@,
            None => forall|j: int| 0 <= j < env.len() ==> env[j].0 != BINARY_PATH_ENV_VAR@,
        },
{
    lemma_env_lookup_finds_first(env, BINARY_PATH_ENV_VAR@);
}

/// Whether `s` ends with `suffix`.
pub open spec fn ends_with(s: Seq<char>, suffix: Seq<char>) -> bool {
    suffix.len() <= s.len() && s.subrange(s.len() - suffix.len(), s.len() as int) == suffix
}

/// A release asset is named `basilisk-{arch}-{os}` and ends in `.zip` exactly
/// when the platform is macOS or Windows, in `.tar.gz` otherwise, whatever the
/// architecture.
pub proof fn lemma_asset_extension(os: Seq<char>, arch: Seq<char>, is_windows: bool)
    ensures
        ({
            let name = spec_asset_name(os, arch, is_windows);
            let stem = "basilisk-"@ + arch + "-"@ + os;
            &&& name.subrange(0, stem.len() as int) == stem
            &&& ends_with(name, ".zip"@) <==> (is_windows || os == "apple-darwin"@)
            &&& ends_with(name, ".tar.gz"@) <==> !(is_windows || os == "apple-darwin"@)
        }),
{
    reveal_strlit(".zip");
    reveal_strlit(".tar.gz");
    reveal_strlit(".");
    reveal_strlit("zip");
    reveal_strlit("tar.gz");
    reveal_strlit("apple-darwin");
    let name = spec_asset_name(os, arch, is_windows);
    let stem = "basilisk-"@ + arch + "-"@ + os;
    assert(name.subrange(0, stem.len() as int) =~= stem);
    if is_windows || os == "apple-darwin"@ {
        assert(name.subrange(name.len() - 4, name.len() as int) =~= ".zip"@);
        assert(name[name.len() - 1] == 'p');
        if ends_with(name, ".tar.gz"@) {
            assert(name.subrange(name.len() - 7, name.len() as int)[6] == name[name.len() - 1]);
        }
    } else {
        assert(name.subrange(name.len() - 7, name.len() as int) =~= ".tar.gz"@);
        assert(name[name.len() - 1] == 'z');
        if ends_with(name, ".zip"@) {
            assert(name.subrange(name.len() - 4, name.len() as int)[3] == name[name.len() - 1]);
        }
    }
}

/// The download for a supported platform fetches a zip on macOS and Windows
/// and a gzipped tar on Linux, names the asset after the platform, and finds
/// the binary where that platform's archive puts it.
pub proof fn lemma_plan_for_platform(os: Os, arch: Arch, version: Seq<char>)
    requires
        arch != Arch::X86,
    ensures
        ({
            let a = spec_arch_token(arch)->0;
            let name = spec_asset_name(spec_os_token(os), a, os == Os::Windows);
            let zip = spec_is_zip_archive(spec_os_token(os), os == Os::Windows);
            let path = spec_download_dir(version) + "/"@ + spec_extracted_binary_path(
                spec_binary_name(os),
                spec_os_token(os),
            );
            &&& zip <==> os != Os::Linux
            &&& ends_with(name, ".zip"@) <==> os != Os::Linux
            &&& ends_with(name, ".tar.gz"@) <==> os == Os::Linux
            &&& os == Os::Mac ==> path == "basilisk-"@ + version + "/basilisk-darwin/basilisk"@
            &&& os == Os::Linux ==> path == "basilisk-"@ + version + "/basilisk"@
            &&& os == Os::Windows ==> path == "basilisk-"@ + version + "/basilisk.exe"@
        }),
{
    reveal_strlit("apple-darwin");
    reveal_strlit("unknown-linux-gnu");
    reveal_strlit("pc-windows-msvc");
    reveal_strlit("basilisk-darwin");
    reveal_strlit("/");
    reveal_strlit("basilisk");
    reveal_strlit("/basilisk-darwin/basilisk");
    reveal_strlit("/basilisk");
    reveal_strlit("/basilisk.exe");
    reveal_strlit("basilisk.exe");
    let a = spec_arch_token(arch)->0;
    lemma_asset_extension(spec_os_token(os), a, os == Os::Windows);
    let path = spec_download_dir(version) + "/"@ + spec_extracted_binary_path(
        spec_binary_name(os),
        spec_os_token(os),
    );
    match os {
        Os::Mac => {
            assert(path =~= "basilisk-"@ + version + "/basilisk-darwin/basilisk"@);
        },
        Os::Linux => {
            assert("unknown-linux-gnu"@ != "apple-darwin"@);
            assert(path =~= "basilisk-"@ + version + "/basilisk"@);
        },
        Os::Windows => {
            assert("pc-windows-msvc"@ != "apple-darwin"@);
            assert(path =~= "basilisk-"@ + version + "/basilisk.exe"@);
        },
    }
}

} // verus!
