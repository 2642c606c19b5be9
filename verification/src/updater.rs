//! Auto-updater.
//!
//! Rizonet ships a minimal, opt-in updater. It reads a JSON manifest, compares the
//! version with the running one, downloads the new artifact if available, verifies
//! its SHA-256 checksum and stages it next to the current executable.
//!
//! The actual swap/restart step is platform-dependent and intentionally left to
//! the host application (the staged file path is returned).
//!
//! Manifest format (JSON):
//! ```json
//! {
//!   "version": "0.2.0",
//!   "notes": "What's new...",
//!   "artifacts": {
//!     "windows-x86_64": { "url": "https://.../app.exe", "sha256": "..." },
//!     "linux-x86_64":   { "url": "https://.../app",     "sha256": "..." },
//!     "macos-aarch64":  { "url": "https://.../app.dmg", "sha256": "..." }
//!   }
//! }
//! ```

use crate::checksum::{
    checksum_matches, checksum_of, hex_text, is_expected, law_expected_up_to_case, same_checksum, sha256,
    Checksum,
};
use crate::error::RizonetError;
use crate::name_map::NameMap;
use crate::text::{concat2, concat3};
use crate::version::{
    below, parse_version, release, semver_at_most, semver_version, version_at_most,
};
use vstd::prelude::*;

verus! {

/// What can be updated to.
#[derive(Debug)]
pub struct UpdateManifest {
    pub version: String,
    pub notes: String,
    /// By platform key.
    pub artifacts: NameMap<Artifact>,
}

#[derive(Debug)]
pub struct Artifact {
    pub url: String,
    pub sha256: String,
}

/// An available update.
#[derive(Debug)]
pub struct UpdateInfo {
    pub manifest: UpdateManifest,
    /// Artifact selected for the current platform key.
    pub artifact: Artifact,
    /// Platform key used for lookup (e.g. "windows-x86_64").
    pub platform: String,
}

impl Clone for Artifact {
    fn clone(&self) -> (r: Self)
        ensures
            r == *self,
    {
        Artifact { url: self.url.clone(), sha256: self.sha256.clone() }
    }
}

impl Clone for UpdateManifest {
    fn clone(&self) -> (r: Self)
        ensures
            r.version == self.version,
            r.notes == self.notes,
            r.artifacts@ == self.artifacts@,
    {
        let artifacts: NameMap<Artifact> = self.artifacts.clone();
        assert(artifacts@ =~= self.artifacts@);
        UpdateManifest { version: self.version.clone(), notes: self.notes.clone(), artifacts }
    }
}

impl Clone for UpdateInfo {
    fn clone(&self) -> (r: Self)
        ensures
            r.manifest.version == self.manifest.version,
            r.manifest.notes == self.manifest.notes,
            r.manifest.artifacts@ == self.manifest.artifacts@,
            r.artifact == self.artifact,
            r.platform == self.platform,
    {
        UpdateInfo {
            manifest: self.manifest.clone(),
            artifact: self.artifact.clone(),
            platform: self.platform.clone(),
        }
    }
}

/// The canonical platform key of a target.
pub fn platform_key(os: &str, arch: &str) -> (r: String)
    ensures
        r@ == os@ + "-"@ + arch@,
{
    concat3(os, "-", arch)
}

/// Whether `r` is the answer to whether `manifest` has an update for version
/// `current` on a platform: a failure where a version cannot be parsed, the artifact
/// of the platform where the version of the manifest is newer and it has one, and
/// else nothing.
pub open spec fn answers(
    manifest: UpdateManifest,
    current: Seq<char>,
    platform: Seq<char>,
    r: Result<Option<UpdateInfo>, RizonetError>,
) -> bool {
    match (semver_version(current), semver_version(manifest.version@)) {
        (Err(e), _) => r matches Err(RizonetError::SemVer(m)) && m@ == e,
        (Ok(_), Err(e)) => r matches Err(RizonetError::SemVer(m)) && m@ == e,
        (Ok(_), Ok(_)) => if semver_at_most(manifest.version@, current) {
            r == Ok::<Option<UpdateInfo>, RizonetError>(None)
        } else if manifest.artifacts@.contains_key(platform) {
            &&& r matches Ok(Some(info))
            &&& info.manifest == manifest
            &&& info.artifact == manifest.artifacts@[platform]
            &&& info.platform@ == platform
        } else {
            r == Ok::<Option<UpdateInfo>, RizonetError>(None)
        },
    }
}

/// Check the manifest. Returns `Ok(Some(..))` if an update is available for the
/// platform, `Ok(None)` otherwise. Where both versions are written as numbers, these
/// alone decide which is newer; a version is never newer than itself.
pub fn check(manifest: UpdateManifest, current: &str, platform: &str) -> (r: Result<
    Option<UpdateInfo>,
    RizonetError,
>)
    ensures
        answers(manifest, current@, platform@, r),
        forall|running: (u64, u64, u64), offered: (u64, u64, u64)|
            current@ == #[trigger] release(running) && manifest.version@ == #[trigger] release(
                offered,
            ) ==> (r matches Ok(None) <==> !below(running, offered)
                || !manifest.artifacts@.contains_key(platform@)),
        current@ == manifest.version@ && semver_version(current@) is Ok ==> r matches Ok(None),
        r is Ok <==> semver_version(current@) is Ok && semver_version(manifest.version@) is Ok,
        r matches Ok(found) ==> (found is Some <==> !semver_at_most(manifest.version@, current@)
            && manifest.artifacts@.contains_key(platform@)),
        forall|running: (u64, u64, u64), offered: (u64, u64, u64)|
            current@ == #[trigger] release(running) && manifest.version@ == #[trigger] release(
                offered,
            ) ==> r is Ok,
{
    match parse_version(current) {
        Ok(_) => {},
        Err(e) => {
            return Err(RizonetError::SemVer(e));
        },
    }
    match parse_version(manifest.version.as_str()) {
        Ok(_) => {},
        Err(e) => {
            return Err(RizonetError::SemVer(e));
        },
    }
    if version_at_most(manifest.version.as_str(), current) {
        return Ok(None);
    }
    let artifact: Artifact = match manifest.artifacts.get(platform) {
        Some(artifact) => artifact.clone(),
        None => {
            return Ok(None);
        },
    };
    Ok(Some(UpdateInfo { manifest, artifact, platform: platform.to_owned() }))
}

/// Where the running executable is, as far as it can be told.
#[derive(Debug)]
pub enum ExeLocation {
    /// It cannot be told, for that reason.
    Unknown(String),
    /// It is in no directory.
    NoParent,
    /// It has that file name, if any, in some directory.
    InDirectory(Option<String>),
}

/// The file name of a staged update, next to the running executable.
pub fn staged_name(exe: ExeLocation) -> (r: Result<String, RizonetError>)
    ensures
        match exe {
            ExeLocation::Unknown(why) => r matches Err(RizonetError::Updater(m)) && m@
                == "cannot locate current exe: "@ + why@,
            ExeLocation::NoParent => r matches Err(RizonetError::Updater(m)) && m@
                == "current exe has no parent dir"@,
            ExeLocation::InDirectory(Some(name)) => r matches Ok(staged) && staged@ == name@
                + ".rizonet-update"@,
            ExeLocation::InDirectory(None) => r matches Ok(staged) && staged@
                == ".rizonet-update"@,
        },
{
    match exe {
        ExeLocation::Unknown(why) => Err(
            RizonetError::Updater(concat2("cannot locate current exe: ", why.as_str())),
        ),
        ExeLocation::NoParent => Err(
            RizonetError::Updater("current exe has no parent dir".to_owned()),
        ),
        ExeLocation::InDirectory(Some(name)) => Ok(concat2(name.as_str(), ".rizonet-update")),
        ExeLocation::InDirectory(None) => Ok(".rizonet-update".to_owned()),
    }
}

/// A download whose bytes are hashed as they arrive.
pub struct VerifiedDownload {
    expected: String,
    checksum: Checksum,
}

impl VerifiedDownload {
    /// The bytes that have arrived.
    pub closed spec fn received(self) -> Seq<u8> {
        self.checksum@
    }

    /// The checksum that they have to have in the end.
    pub closed spec fn wanted(self) -> Seq<char> {
        self.expected@
    }

    /// A download of which nothing has arrived.
    pub fn begin(expected_sha256: &str) -> (r: Self)
        ensures
            r.received() == Seq::<u8>::empty(),
            r.wanted() == expected_sha256@,
    {
        VerifiedDownload { expected: expected_sha256.to_owned(), checksum: Checksum::new() }
    }

    /// Take the next chunk.
    pub fn update(&mut self, chunk: &[u8])
        ensures
            final(self).received() == old(self).received() + chunk@,
            final(self).wanted() == old(self).wanted(),
    {
        self.checksum.update(chunk);
    }

    /// Whether what has arrived may be moved into place: only with the expected
    /// checksum. Else it is to be removed.
    pub fn finish(self) -> (r: Result<(), RizonetError>)
        ensures
            match r {
                Ok(_) => is_expected(checksum_of(self.received()), self.wanted()),
                Err(e) => {
                    &&& !is_expected(checksum_of(self.received()), self.wanted())
                    &&& e matches RizonetError::Checksum { expected, actual }
                    &&& expected@ == self.wanted()
                    &&& actual@ == checksum_of(self.received())
                },
            },
    {
        let actual: String = self.checksum.finish();
        if checksum_matches(actual.as_str(), self.expected.as_str()) {
            Ok(())
        } else {
            Err(RizonetError::Checksum { expected: self.expected, actual })
        }
    }
}

// ----------------------------------------------------------------------- laws

/// A manifest whose version is not newer has no update, whatever the platform and
/// the artifacts.
pub proof fn law_not_newer_is_no_update(
    manifest: UpdateManifest,
    current: Seq<char>,
    platform: Seq<char>,
    r: Result<Option<UpdateInfo>, RizonetError>,
)
    requires
        semver_version(current) is Ok,
        semver_version(manifest.version@) is Ok,
        semver_at_most(manifest.version@, current),
        answers(manifest, current, platform, r),
    ensures
        r matches Ok(None),
{
}

/// A manifest without an artifact for the platform has no update for it, whatever
/// its version.
pub proof fn law_no_artifact_is_no_update(
    manifest: UpdateManifest,
    current: Seq<char>,
    platform: Seq<char>,
    r: Result<Option<UpdateInfo>, RizonetError>,
)
    requires
        semver_version(current) is Ok,
        semver_version(manifest.version@) is Ok,
        !manifest.artifacts@.contains_key(platform),
        answers(manifest, current, platform, r),
    ensures
        r matches Ok(None),
{
}

/// An update that is offered is the one of the manifest for the platform asked for.
pub proof fn law_offered_for_the_platform(
    manifest: UpdateManifest,
    current: Seq<char>,
    platform: Seq<char>,
    info: UpdateInfo,
)
    requires
        answers(manifest, current, platform, Ok(Some(info))),
    ensures
        info.manifest == manifest,
        info.platform@ == platform,
        manifest.artifacts@.contains_key(platform),
        info.artifact == manifest.artifacts@[platform],
        !semver_at_most(manifest.version@, current),
{
}

/// A newer version with an artifact for the platform is offered, with everything that
/// the manifest says.
pub proof fn law_newer_version_is_offered(
    manifest: UpdateManifest,
    current: &str,
    platform: &str,
    r: Result<Option<UpdateInfo>, RizonetError>,
)
    requires
        call_ensures(check, (manifest, current, platform), r),
        semver_version(current@) is Ok,
        semver_version(manifest.version@) is Ok,
        !semver_at_most(manifest.version@, current@),
        manifest.artifacts@.contains_key(platform@),
    ensures
        r matches Ok(Some(info)) && info.manifest == manifest && info.platform@ == platform@
            && info.artifact == manifest.artifacts@[platform@],
{
}

/// Where both versions are written as numbers, an update is offered exactly when there
/// is an artifact for the platform and the first numbers that differ are larger in the
/// manifest.
pub proof fn law_larger_numbers_are_offered(
    manifest: UpdateManifest,
    current: &str,
    platform: &str,
    running: (u64, u64, u64),
    offered: (u64, u64, u64),
    r: Result<Option<UpdateInfo>, RizonetError>,
)
    requires
        call_ensures(check, (manifest, current, platform), r),
        current@ == release(running),
        manifest.version@ == release(offered),
    ensures
        r is Ok,
        r matches Ok(Some(_)) <==> manifest.artifacts@.contains_key(platform@) && (offered.0
            > running.0 || (offered.0 == running.0 && (offered.1 > running.1 || (offered.1
            == running.1 && offered.2 > running.2)))),
        r matches Ok(Some(info)) ==> info.manifest == manifest && info.platform@ == platform@
            && info.artifact == manifest.artifacts@[platform@],
{
}

/// A version that cannot be parsed is a failure, in the parser's words; the running
/// one is looked at first.
pub proof fn law_unreadable_versions_fail(
    manifest: UpdateManifest,
    current: &str,
    platform: &str,
    r: Result<Option<UpdateInfo>, RizonetError>,
)
    requires
        call_ensures(check, (manifest, current, platform), r),
    ensures
        r is Ok <==> semver_version(current@) is Ok && semver_version(manifest.version@) is Ok,
        semver_version(current@) matches Err(words) ==> (r matches Err(RizonetError::SemVer(m))
            && m@ == words),
        semver_version(current@) is Ok ==> (semver_version(manifest.version@) matches Err(words)
            ==> (r matches Err(RizonetError::SemVer(m)) && m@ == words)),
{
}

/// What has arrived may be moved into place exactly when its checksum is the expected
/// one up to case; else both checksums are told.
pub proof fn law_download_is_judged_by_its_checksum(
    download: VerifiedDownload,
    r: Result<(), RizonetError>,
)
    requires
        call_ensures(VerifiedDownload::finish, (download,), r),
    ensures
        r is Ok <==> same_checksum(hex_text(sha256(download.received())), download.wanted()),
        r matches Err(e) ==> (e matches RizonetError::Checksum { expected, actual } && expected@
            == download.wanted() && actual@ == hex_text(sha256(download.received()))),
{
    law_expected_up_to_case(checksum_of(download.received()), download.wanted());
}

/// An update is staged under the name of the executable with an ending that no name
/// without it has: other executables are staged under other names.
pub proof fn law_staged_next_to_the_executable(
    one: String,
    other: String,
    a: Result<String, RizonetError>,
    b: Result<String, RizonetError>,
)
    requires
        call_ensures(staged_name, (ExeLocation::InDirectory(Some(one)),), a),
        call_ensures(staged_name, (ExeLocation::InDirectory(Some(other)),), b),
    ensures
        a is Ok && b is Ok,
        a->Ok_0@ == one@ + ".rizonet-update"@,
        a->Ok_0@ == b->Ok_0@ <==> one@ == other@,
{
    let end = ".rizonet-update"@;
    if a->Ok_0@ == b->Ok_0@ {
        assert(a->Ok_0@.len() == one@.len() + end.len());
        assert(b->Ok_0@.len() == other@.len() + end.len());
        assert(a->Ok_0@.take(one@.len() as int) =~= one@);
        assert(b->Ok_0@.take(one@.len() as int) =~= other@);
    }
}

} // verus!
