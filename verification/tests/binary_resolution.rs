use basilisk_zed::binary::{
    find_release_asset, plan_download, resolve_binary_path, update_notice, Arch, Os,
    BINARY_PATH_ENV_VAR,
};
use basilisk_zed::common::release::{asset_name, extracted_binary_path, is_zip_archive};
use basilisk_zed::{find_env_var, resolve_binary_override};

#[test]
fn find_env_var_present() {
    let env = vec![
        ("HOME".to_string(), "/home/user".to_string()),
        ("PATH".to_string(), "/usr/bin".to_string()),
    ];
    assert_eq!(find_env_var(&env, "HOME"), Some("/home/user"));
}

#[test]
fn find_env_var_absent() {
    let env = vec![("HOME".to_string(), "/home/user".to_string())];
    assert_eq!(find_env_var(&env, "BASILISK_PATH"), None);
}

#[test]
fn find_env_var_empty_list() {
    let env: Vec<(String, String)> = vec![];
    assert_eq!(find_env_var(&env, "HOME"), None);
}

#[test]
fn binary_override_prefers_settings_path() {
    assert_eq!(
        resolve_binary_override(Some("/custom/basilisk"), Some("/env/basilisk")),
        Some("/custom/basilisk".to_string())
    );
}

#[test]
fn binary_override_falls_back_to_env() {
    assert_eq!(
        resolve_binary_override(None, Some("/env/basilisk")),
        Some("/env/basilisk".to_string())
    );
}

#[test]
fn binary_override_none_triggers_download() {
    assert_eq!(resolve_binary_override(None, None), None);
}

// ── Further cases ────────────────────────────────────────────────────

#[test]
fn find_env_var_takes_the_first_match() {
    let env = vec![
        ("A".to_string(), "1".to_string()),
        ("B".to_string(), "2".to_string()),
        ("A".to_string(), "3".to_string()),
    ];
    assert_eq!(find_env_var(&env, "A"), Some("1"));
    assert_eq!(find_env_var(&env, "B"), Some("2"));
    assert_eq!(find_env_var(&env, "a"), None);
}

#[test]
fn settings_path_beats_environment() {
    let env = vec![(BINARY_PATH_ENV_VAR.to_string(), "/env/basilisk".to_string())];
    assert_eq!(
        resolve_binary_path(Some("/settings/basilisk"), &env),
        Some("/settings/basilisk".to_string())
    );
    assert_eq!(resolve_binary_path(None, &env), Some("/env/basilisk".to_string()));
}

#[test]
fn no_override_means_download() {
    let env = vec![("HOME".to_string(), "/home/user".to_string())];
    assert_eq!(resolve_binary_path(None, &env), None);
}

#[test]
fn release_asset_names() {
    assert_eq!(asset_name("apple-darwin", "aarch64", false), "basilisk-aarch64-apple-darwin.zip");
    assert_eq!(
        asset_name("unknown-linux-gnu", "x86_64", false),
        "basilisk-x86_64-unknown-linux-gnu.tar.gz"
    );
    assert_eq!(asset_name("pc-windows-msvc", "x86_64", true), "basilisk-x86_64-pc-windows-msvc.zip");
}

#[test]
fn release_archive_kinds() {
    assert!(is_zip_archive("apple-darwin", false));
    assert!(is_zip_archive("pc-windows-msvc", true));
    assert!(!is_zip_archive("unknown-linux-gnu", false));
}

#[test]
fn extracted_binary_paths() {
    assert_eq!(extracted_binary_path("basilisk", "apple-darwin"), "basilisk-darwin/basilisk");
    assert_eq!(extracted_binary_path("basilisk", "unknown-linux-gnu"), "basilisk");
    assert_eq!(extracted_binary_path("basilisk.exe", "pc-windows-msvc"), "basilisk.exe");
}

#[test]
fn download_plan_mac() {
    let plan = plan_download(Os::Mac, Arch::Aarch64, "v1.2.3").expect("supported");
    assert_eq!(plan.asset_name, "basilisk-aarch64-apple-darwin.zip");
    assert_eq!(plan.download_dir, "basilisk-v1.2.3");
    assert_eq!(plan.binary_path, "basilisk-v1.2.3/basilisk-darwin/basilisk");
    assert!(plan.is_zip);
}

#[test]
fn download_plan_linux() {
    let plan = plan_download(Os::Linux, Arch::X8664, "0.5.0").expect("supported");
    assert_eq!(plan.asset_name, "basilisk-x86_64-unknown-linux-gnu.tar.gz");
    assert_eq!(plan.download_dir, "basilisk-0.5.0");
    assert_eq!(plan.binary_path, "basilisk-0.5.0/basilisk");
    assert!(!plan.is_zip);
}

#[test]
fn download_plan_windows() {
    let plan = plan_download(Os::Windows, Arch::X8664, "0.5.0").expect("supported");
    assert_eq!(plan.asset_name, "basilisk-x86_64-pc-windows-msvc.zip");
    assert_eq!(plan.binary_path, "basilisk-0.5.0/basilisk.exe");
    assert!(plan.is_zip);
}

#[test]
fn download_plan_refuses_32_bit_x86() {
    for os in [Os::Mac, Os::Linux, Os::Windows] {
        match plan_download(os, Arch::X86, "1.0.0") {
            Err(e) => assert_eq!(e, "32-bit x86 is not supported"),
            Ok(_) => panic!("32-bit x86 has no release asset"),
        }
    }
}

#[test]
fn release_asset_found_first() {
    let names = vec![
        "basilisk-x86_64-unknown-linux-gnu.tar.gz".to_string(),
        "basilisk-aarch64-apple-darwin.zip".to_string(),
        "basilisk-aarch64-apple-darwin.zip".to_string(),
    ];
    assert_eq!(find_release_asset(&names, "basilisk-aarch64-apple-darwin.zip", "v1.0.0"), Ok(1));
}

#[test]
fn release_asset_missing() {
    let names = vec!["other.zip".to_string()];
    assert_eq!(
        find_release_asset(&names, "basilisk-x86_64-pc-windows-msvc.zip", "v1.0.0"),
        Err("No release asset found for basilisk-x86_64-pc-windows-msvc.zip in v1.0.0".to_string())
    );
    assert!(find_release_asset(&[], "x", "v").is_err());
}

#[test]
fn update_notice_for_newer_release() {
    assert_eq!(
        update_notice("0.1.0", "v0.2.0"),
        Some("[basilisk] Update available: 0.1.0 → v0.2.0 (restart Zed to upgrade)".to_string())
    );
}

#[test]
fn no_update_notice_for_same_or_older_release() {
    assert_eq!(update_notice("0.2.0", "v0.2.0"), None);
    assert_eq!(update_notice("1.0.0", "0.9.9"), None);
}
