use rizonet_core::checksum::{checksum_matches, Checksum};
use rizonet_core::name_map::NameMap;
use rizonet_core::updater::{
    check, platform_key, staged_name, Artifact, ExeLocation, UpdateManifest, VerifiedDownload,
};

fn manifest(version: &str) -> UpdateManifest {
    let mut artifacts = NameMap::new();
    artifacts.insert(
        "linux-x86_64".to_string(),
        Artifact { url: "https://x/app".to_string(), sha256: "aa".to_string() },
    );
    artifacts.insert(
        "windows-x86_64".to_string(),
        Artifact { url: "https://x/app.exe".to_string(), sha256: "bb".to_string() },
    );
    UpdateManifest { version: version.to_string(), notes: "new".to_string(), artifacts }
}

fn offered(version: &str, current: &str) -> bool {
    check(manifest(version), current, "linux-x86_64").unwrap().is_some()
}

#[test]
fn platform_keys_join_os_and_arch() {
    assert_eq!(platform_key("windows", "x86_64"), "windows-x86_64");
    assert_eq!(platform_key("macos", "aarch64"), "macos-aarch64");
}

#[test]
fn newer_versions_are_offered() {
    assert!(offered("0.2.0", "0.1.9"));
    assert!(offered("0.10.0", "0.9.0"));
    assert!(offered("1.0.0", "0.99.99"));
    assert!(!offered("0.2.0", "0.2.0"));
    assert!(!offered("0.1.9", "0.2.0"));
    assert!(!offered("0.9.0", "0.10.0"));
}

#[test]
fn releases_follow_their_prereleases() {
    assert!(offered("1.0.0", "1.0.0-rc.1"));
    assert!(!offered("1.0.0-rc.1", "1.0.0"));
    assert!(offered("1.0.0-rc.11", "1.0.0-rc.2"));
    assert!(!offered("1.0.0-rc.1", "1.0.0-rc.1"));
}

#[test]
fn offered_update_is_for_the_platform() {
    let info = check(manifest("2.0.0"), "1.0.0", "windows-x86_64").unwrap().unwrap();
    assert_eq!(info.artifact.url, "https://x/app.exe");
    assert_eq!(info.artifact.sha256, "bb");
    assert_eq!(info.platform, "windows-x86_64");
    assert_eq!(info.manifest.version, "2.0.0");
    assert_eq!(info.manifest.notes, "new");
}

#[test]
fn missing_artifact_is_no_update() {
    assert!(check(manifest("2.0.0"), "1.0.0", "macos-aarch64").unwrap().is_none());
    assert!(check(manifest("1.0.0"), "1.0.0", "macos-aarch64").unwrap().is_none());
    assert!(check(manifest("2.0.0"), "1.0.0", "linux-x86_64").unwrap().is_some());
}

#[test]
fn cloned_updates_are_equal() {
    let info = check(manifest("2.0.0"), "1.0.0", "linux-x86_64").unwrap().unwrap();
    let copy = info.clone();
    assert_eq!(copy.platform, "linux-x86_64");
    assert_eq!(copy.artifact.sha256, "aa");
    assert_eq!(copy.manifest.notes, "new");
    assert_eq!(copy.manifest.artifacts.len(), 2);
    assert_eq!(copy.manifest.artifacts.get("windows-x86_64").unwrap().url, "https://x/app.exe");
}

#[test]
fn versions_that_cannot_be_parsed_are_reported() {
    let e = check(manifest("2.0.0"), "x", "linux-x86_64").unwrap_err();
    assert_eq!(
        e.message(),
        "semver parse error: unexpected character 'x' while parsing major version number"
    );
    let e = check(manifest("2.0"), "1.0.0", "linux-x86_64").unwrap_err();
    assert_eq!(
        e.message(),
        "semver parse error: unexpected end of input while parsing minor version number"
    );
    let e = check(manifest(""), "", "linux-x86_64").unwrap_err();
    assert_eq!(e.message(), "semver parse error: empty string, expected a semver version");
}

#[test]
fn staged_file_stands_next_to_the_executable() {
    let named = staged_name(ExeLocation::InDirectory(Some("app.exe".to_string())));
    assert_eq!(named.unwrap(), "app.exe.rizonet-update");
    assert_eq!(staged_name(ExeLocation::InDirectory(None)).unwrap(), ".rizonet-update");
    let e = staged_name(ExeLocation::NoParent).unwrap_err();
    assert_eq!(e.message(), "updater error: current exe has no parent dir");
    let e = staged_name(ExeLocation::Unknown("gone".to_string())).unwrap_err();
    assert_eq!(e.message(), "updater error: cannot locate current exe: gone");
}

const ABC: &str = "ba7816bf8f01cfea414140de5dae2223b00361a396177a9cb410ff61f20015ad";
const EMPTY: &str = "e3b0c44298fc1c149afbf4c8996fb92427ae41e4649b934ca495991b7852b855";

fn checksum(chunks: &[&[u8]]) -> String {
    let mut sum = Checksum::new();
    for chunk in chunks {
        sum.update(chunk);
    }
    sum.finish()
}

#[test]
fn checksums_are_sha256_in_hex() {
    assert_eq!(checksum(&[]), EMPTY);
    assert_eq!(checksum(&[b"abc"]), ABC);
}

#[test]
fn chunks_do_not_matter() {
    assert_eq!(checksum(&[b"a", b"bc"]), ABC);
    assert_eq!(checksum(&[b"", b"ab", b"", b"c"]), ABC);
}

#[test]
fn checksum_case_does_not_matter() {
    assert!(checksum_matches(ABC, &ABC.to_ascii_uppercase()));
    assert!(!checksum_matches(ABC, EMPTY));
    assert!(!checksum_matches(ABC, &ABC[1..]));
}

#[test]
fn verified_download_is_accepted() {
    let mut d = VerifiedDownload::begin(&ABC.to_ascii_uppercase());
    d.update(b"ab");
    d.update(b"c");
    assert!(d.finish().is_ok());
}

#[test]
fn corrupted_download_is_rejected() {
    let mut d = VerifiedDownload::begin(EMPTY);
    d.update(b"abc");
    assert_eq!(
        d.finish().unwrap_err().message(),
        format!("checksum mismatch: expected {}, got {}", EMPTY, ABC)
    );
}
