//! Naming of the release assets the extension downloads, which must track the
//! release pipeline exactly.
use vstd::prelude::*;
use crate::text::str_equal;

verus! {

/// GitHub owner/repo for release downloads.
pub const GITHUB_REPO: &'static str = "Nimblesite/Basilisk";

/// OS token used in release asset names for macOS.
pub const MACOS_OS: &'static str = "apple-darwin";

/// Parent directory embedded in the macOS release archive; the Linux and
/// Windows archives are flat.
pub const MACOS_ARCHIVE_DIR: &'static str = "basilisk-darwin";

/// Whether the release archive for a platform is a zip (macOS and Windows) or a gzipped tar.
pub open spec fn spec_is_zip_archive(os: Seq<char>, is_windows: bool) -> bool {
    is_windows || os == MACOS_OS@
}

/// The file name of a release asset: `basilisk-{arch}-{os}.{zip|tar.gz}`.
pub open spec fn spec_asset_name(os: Seq<char>, arch: Seq<char>, is_windows: bool) -> Seq<char> {
    "basilisk-"@ + arch + "-"@ + os + "."@ + if spec_is_zip_archive(os, is_windows) {
        "zip"@
    } else {
        "tar.gz"@
    }
}

/// Where an unpacked binary lies relative to the download directory.
pub open spec fn spec_extracted_binary_path(binary_name: Seq<char>, os: Seq<char>) -> Seq<char> {
    if os == MACOS_OS@ {
        MACOS_ARCHIVE_DIR@ + "/"@ + binary_name
    } else {
        binary_name
    }
}

/// Whether the release archive for a platform is a zip (vs. a gzipped tar).
pub fn is_zip_archive(os: &str, is_windows: bool) -> (r: bool)
    ensures
        r == spec_is_zip_archive(os@, is_windows),
{
    is_windows || str_equal(os, MACOS_OS)
}

/// Build a release asset filename from OS and architecture strings.
pub fn asset_name(os: &str, arch: &str, is_windows: bool) -> (r: String)
    ensures
        r@ == spec_asset_name(os@, arch@, is_windows),
{
    let ext = if is_zip_archive(os, is_windows) {
        "zip"
    } else {
        "tar.gz"
    };
    let mut name = String::from_str("basilisk-");
    name.append(arch);
    name.append("-");
    name.append(os);
    name.append(".");
    name.append(ext);
    assert(name@ =~= spec_asset_name(os@, arch@, is_windows));
    name
}

/// Path to the extracted binary relative to the download directory.
pub fn extracted_binary_path(binary_name: &str, os: &str) -> (r: String)
    ensures
        r@ == spec_extracted_binary_path(binary_name@, os@),
{
    if str_equal(os, MACOS_OS) {
        let mut path = String::from_str(MACOS_ARCHIVE_DIR);
        path.append("/");
        path.append(binary_name);
        assert(path@ =~= spec_extracted_binary_path(binary_name@, os@));
        path
    } else {
        String::from_str(binary_name)
    }
}

} // verus!
