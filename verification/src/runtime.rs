//! Hybrid runtime bootstrap.
//!
//! Decides between the OS-provided WebView and a bundled runtime (downloaded and
//! cached on first launch), which is used when the system one is missing,
//! outdated, or when `strict` mode is configured.
//!
//! - Normal path: small footprint, using the system WebView.
//! - Fallback / strict: consistent rendering via a pinned runtime.

use crate::config::{RuntimeConfig, RuntimeMode};
use crate::text::{
    chars_of, concat2, concat3, copy_opt, decimal, lemma_decimal_digits, lemma_split_first,
    lemma_split_nonempty, lemma_split_pieces, lemma_split_whole, opt_text, pieces,
    same_text, split, split_chars, text_of,
};
use crate::version::{
    asks_for, below, parse_requirement, parse_version, release, release_text, requirement_matches,
    semver_matches, semver_requirement, semver_version,
};
use std::path::PathBuf;
use vstd::prelude::*;
use vstd::string::StringExecFns;

verus! {

/// Resolved runtime descriptor returned to the application layer.
#[derive(Debug)]
pub struct ResolvedRuntime {
    pub kind: RuntimeKind,
    /// Extra browser arguments to forward to the webview.
    pub extra_browser_args: Vec<String>,
    /// Root of the bundled runtime on disk (only present when `kind == Bundled`).
    pub runtime_root: Option<PathBuf>,
    /// Absolute path to the bundled browser executable folder (Windows: WebView2
    /// fixed-version layout). Forwarded as `WEBVIEW2_BROWSER_EXECUTABLE_FOLDER`.
    pub browser_executable_folder: Option<PathBuf>,
    /// Detected WebView version, if any.
    pub detected_version: Option<String>,
}

#[derive(Debug, Clone, Copy, PartialEq, Eq, Structural)]
pub enum RuntimeKind {
    /// OS-provided WebView (Windows: WebView2, macOS: WKWebView, Linux: WebKitGTK).
    System,
    /// Bootstrapped, pinned runtime downloaded by Rizonet.
    Bundled,
}

/// `std::path::PathBuf::clone` gives an equal path.
#[verifier::external_body]
fn copy_path(path: &PathBuf) -> (r: PathBuf)
    ensures
        r == *path,
{
    path.clone()
}

/// A copy of an optional path.
fn copy_opt_path(path: &Option<PathBuf>) -> (r: Option<PathBuf>)
    ensures
        r == *path,
{
    match path {
        Some(p) => Some(copy_path(p)),
        None => None,
    }
}

impl Clone for ResolvedRuntime {
    fn clone(&self) -> (r: Self)
        ensures
            r.kind == self.kind,
            r.extra_browser_args@ == self.extra_browser_args@,
            r.runtime_root == self.runtime_root,
            r.browser_executable_folder == self.browser_executable_folder,
            r.detected_version == self.detected_version,
    {
        let extra_browser_args: Vec<String> = self.extra_browser_args.clone();
        assert(extra_browser_args@ =~= self.extra_browser_args@);
        ResolvedRuntime {
            kind: self.kind,
            extra_browser_args,
            runtime_root: copy_opt_path(&self.runtime_root),
            browser_executable_folder: copy_opt_path(&self.browser_executable_folder),
            detected_version: copy_opt(&self.detected_version),
        }
    }
}

impl ResolvedRuntime {
    /// Whether this is the system runtime, with that detected version.
    pub open spec fn is_system(self, version: Option<Seq<char>>) -> bool {
        &&& self.kind == RuntimeKind::System
        &&& self.extra_browser_args@.len() == 0
        &&& self.runtime_root is None
        &&& self.browser_executable_folder is None
        &&& opt_text(self.detected_version) == version
    }

    /// Whether this is the bundled runtime at `root`, with that browser folder.
    pub open spec fn is_bundled(self, root: PathBuf, browser: Option<PathBuf>) -> bool {
        &&& self.kind == RuntimeKind::Bundled
        &&& self.extra_browser_args@.len() == 0
        &&& self.runtime_root == Some(root)
        &&& self.browser_executable_folder == browser
        &&& self.detected_version is None
    }
}

/// The system runtime.
pub fn system_runtime() -> (r: ResolvedRuntime)
    ensures
        r.is_system(None),
{
    ResolvedRuntime {
        kind: RuntimeKind::System,
        extra_browser_args: Vec::new(),
        runtime_root: None,
        browser_executable_folder: None,
        detected_version: None,
    }
}

/// The bundled runtime at `root`.
pub fn bundled_runtime(root: PathBuf, browser: Option<PathBuf>) -> (r: ResolvedRuntime)
    ensures
        r.is_bundled(root, browser),
{
    ResolvedRuntime {
        kind: RuntimeKind::Bundled,
        extra_browser_args: Vec::new(),
        runtime_root: Some(root),
        browser_executable_folder: browser,
        detected_version: None,
    }
}

// ------------------------------------------------------------------- versions

/// Component `i` of a dotted version, 0 where it is missing.
pub open spec fn component(version: Seq<char>, i: int) -> Seq<char> {
    if i < split(version, '.').len() {
        split(version, '.')[i]
    } else {
        "0"@
    }
}

/// The first three components of a dotted version.
pub open spec fn normalized(version: Seq<char>) -> Seq<char> {
    component(version, 0) + seq!['.'] + component(version, 1) + seq!['.'] + component(version, 2)
}

/// Normalize a dotted version string like "120.0.2210.91" into a strict
/// 3-component semver ("120.0.2210"). Missing components are padded with 0.
pub fn normalize_version(v: &str) -> (r: String)
    ensures
        r@ == normalized(v@),
{
    let parts: Vec<Vec<char>> = split_chars(&chars_of(v), '.');
    let mut r: String = String::new();
    let mut i: usize = 0;
    while i < 3
        invariant
            i <= 3,
            pieces(parts@) == split(v@, '.'),
            i == 0 ==> r@ == Seq::<char>::empty(),
            i == 1 ==> r@ == component(v@, 0),
            i == 2 ==> r@ == component(v@, 0) + seq!['.'] + component(v@, 1),
            i == 3 ==> r@ == normalized(v@),
        decreases 3 - i,
    {
        let ghost before = r@;
        if i > 0 {
            r.push('.');
            assert(r@ =~= before + seq!['.']);
        }
        if i < parts.len() {
            assert(component(v@, i as int) == parts@[i as int]@);
            r.append(text_of(&parts[i]).as_str());
        } else {
            r.append("0");
        }
        i = i + 1;
        proof {
            if i == 1 {
                assert(before + component(v@, 0) =~= component(v@, 0));
            }
        }
    }
    r
}

/// What the check of the system WebView says.
#[derive(Debug)]
pub enum SystemCheck {
    Usable(Option<String>),
    Unavailable(String),
}

/// What the check of the system WebView says, over texts: that it can be used, or
/// why not.
pub enum Verdict {
    Usable(Seq<char>),
    Unusable(Seq<char>),
}

impl SystemCheck {
    /// Whether this is that verdict.
    pub open spec fn says(self, verdict: Verdict) -> bool {
        match verdict {
            Verdict::Usable(version) => self matches SystemCheck::Usable(Some(v)) && v@ == version,
            Verdict::Unusable(reason) => self matches SystemCheck::Unavailable(r) && r@ == reason,
        }
    }
}

/// What becomes of the system WebView of version `detected`, when at least
/// version `least` is asked for: it has to match the requirement `>=least`. Where
/// none is asked for, any will do.
pub open spec fn verdict(detected: Option<Seq<char>>, least: Option<Seq<char>>) -> Verdict {
    match (detected, least) {
        (None, _) => Verdict::Unusable("no system webview detected"@),
        (Some(v), None) => Verdict::Usable(v),
        (Some(v), Some(min)) => match semver_requirement(">="@ + min) {
            Err(e) => Verdict::Unusable("invalid min_webview_version: "@ + e),
            Ok(_) => match semver_version(normalized(v)) {
                Err(e) => Verdict::Unusable("cannot parse system version "@ + v + ": "@ + e),
                Ok(_) => if semver_matches(">="@ + min, normalized(v)) {
                    Verdict::Usable(v)
                } else {
                    Verdict::Unusable("system webview "@ + v + " < required "@ + min)
                },
            },
        },
    }
}

/// Whether `usable` is what the numbers of both versions say, where both are written
/// as numbers: the system WebView can be used exactly when it is not older than the
/// one asked for.
pub open spec fn numbers_decide(
    detected: Option<Seq<char>>,
    least: Option<Seq<char>>,
    usable: bool,
) -> bool {
    forall|actual: (u64, u64, u64), n: (u64, u64, u64)|
        detected is Some && normalized(detected->0) == #[trigger] release(actual) && least is Some
            && #[trigger] asks_for(least->0, n) ==> (usable <==> !below(actual, n))
}

/// Check the detected system WebView against the configuration. Where both
/// versions are written as numbers, these alone decide.
pub fn check_system(cfg: &RuntimeConfig, detected: Option<String>) -> (r: SystemCheck)
    ensures
        r.says(verdict(opt_text(detected), opt_text(cfg.min_webview_version))),
        numbers_decide(opt_text(detected), opt_text(cfg.min_webview_version), r is Usable),
        match (detected, cfg.min_webview_version) {
            (None, _) => r matches SystemCheck::Unavailable(why) && why@
                == "no system webview detected"@,
            (Some(v), None) => r == SystemCheck::Usable(Some(v)),
            (Some(v), Some(min)) => match (
                semver_requirement(">="@ + min@),
                semver_version(normalized(v@)),
            ) {
                (Err(e), _) => r matches SystemCheck::Unavailable(why) && why@
                    == "invalid min_webview_version: "@ + e,
                (Ok(_), Err(e)) => r matches SystemCheck::Unavailable(why) && why@
                    == "cannot parse system version "@ + v@ + ": "@ + e,
                (Ok(_), Ok(_)) => if semver_matches(">="@ + min@, normalized(v@)) {
                    r == SystemCheck::Usable(Some(v))
                } else {
                    r matches SystemCheck::Unavailable(why) && why@ == "system webview "@ + v@
                        + " < required "@ + min@
                },
            },
        },
        detected is Some && cfg.min_webview_version is Some ==> forall|
            actual: (u64, u64, u64),
            n: (u64, u64, u64),
        |
            normalized(detected->0@) == #[trigger] release(actual) && #[trigger] asks_for(
                cfg.min_webview_version->0@,
                n,
            ) && r is Unavailable ==> r->Unavailable_0@ == "system webview "@ + detected->0@
                + " < required "@ + cfg.min_webview_version->0@,
{
    match detected {
        None => SystemCheck::Unavailable("no system webview detected".to_owned()),
        Some(v) => match &cfg.min_webview_version {
            None => SystemCheck::Usable(Some(v)),
            Some(min) => {
                let requirement: String = concat2(">=", min.as_str());
                match parse_requirement(requirement.as_str()) {
                    Err(e) => SystemCheck::Unavailable(
                        concat2("invalid min_webview_version: ", e.as_str()),
                    ),
                    Ok(_) => {
                        let actual: String = normalize_version(v.as_str());
                        match parse_version(actual.as_str()) {
                            Err(e) => SystemCheck::Unavailable(
                                concat2(
                                    concat3("cannot parse system version ", v.as_str(), ": ").as_str(),
                                    e.as_str(),
                                ),
                            ),
                            Ok(_) => if requirement_matches(requirement.as_str(), actual.as_str()) {
                                SystemCheck::Usable(Some(v))
                            } else {
                                SystemCheck::Unavailable(
                                    concat2(
                                        concat3(
                                            "system webview ",
                                            v.as_str(),
                                            " < required ",
                                        ).as_str(),
                                        min.as_str(),
                                    ),
                                )
                            },
                        }
                    },
                }
            },
        },
    }
}

// ------------------------------------------------------------------ resolution

/// Which runtime to use: a resolved one, or the bundled one, which has to be
/// bootstrapped first (and why, where the system WebView was looked at).
#[derive(Debug)]
pub enum RuntimePlan {
    Use(ResolvedRuntime),
    Bootstrap { reason: Option<String> },
}

/// Whether `plan` follows from a verdict on the system WebView.
pub open spec fn follows(verdict: Verdict, plan: RuntimePlan) -> bool {
    match verdict {
        Verdict::Usable(v) => plan matches RuntimePlan::Use(rt) && rt.is_system(Some(v)),
        Verdict::Unusable(why) => plan matches RuntimePlan::Bootstrap { reason: Some(r) } && r@
            == why,
    }
}

/// What `auto` mode makes of the detected system WebView: it is used when it can
/// be, else the bundled runtime. Where both versions are written as numbers, these
/// alone decide.
pub fn plan_auto(cfg: &RuntimeConfig, detected: Option<String>) -> (plan: RuntimePlan)
    ensures
        follows(verdict(opt_text(detected), opt_text(cfg.min_webview_version)), plan),
        numbers_decide(opt_text(detected), opt_text(cfg.min_webview_version), plan is Use),
        detected is None ==> plan is Bootstrap,
        detected is Some && cfg.min_webview_version is None ==> (plan matches RuntimePlan::Use(rt)
            && rt.kind == RuntimeKind::System && rt.detected_version == detected),
{
    match check_system(cfg, detected) {
        SystemCheck::Usable(version) => RuntimePlan::Use(
            ResolvedRuntime { detected_version: version, ..system_runtime() },
        ),
        SystemCheck::Unavailable(reason) => RuntimePlan::Bootstrap { reason: Some(reason) },
    }
}

/// Choose a runtime according to the configuration. `detect` detects the version
/// of the system WebView; it is asked in `auto` mode only.
pub fn resolve<D: FnOnce() -> Option<String>>(cfg: &RuntimeConfig, detect: D) -> (plan: RuntimePlan)
    requires
        call_requires(detect, ()),
    ensures
        match cfg.mode {
            RuntimeMode::System => plan matches RuntimePlan::Use(rt) && rt.is_system(None),
            RuntimeMode::Strict => plan == (RuntimePlan::Bootstrap { reason: None }),
            RuntimeMode::Auto => exists|detected: Option<String>| #[trigger]
                call_ensures(detect, (), detected) && follows(
                    verdict(opt_text(detected), opt_text(cfg.min_webview_version)),
                    plan,
                ) && numbers_decide(
                    opt_text(detected),
                    opt_text(cfg.min_webview_version),
                    plan is Use,
                ) && (detected is None ==> plan is Bootstrap) && (detected is Some
                    && cfg.min_webview_version is None ==> (plan matches RuntimePlan::Use(rt)
                    && rt.kind == RuntimeKind::System && rt.detected_version == detected)),
        },
{
    match cfg.mode {
        RuntimeMode::System => RuntimePlan::Use(system_runtime()),
        RuntimeMode::Strict => RuntimePlan::Bootstrap { reason: None },
        RuntimeMode::Auto => plan_auto(cfg, detect()),
    }
}

// ------------------------------------------------------------------- detection

/// The directories in which Linux distributions keep shared libraries, in the
/// order in which they are searched.
pub open spec fn library_dirs() -> Seq<Seq<char>> {
    seq![
        "/usr/lib"@,
        "/usr/lib64"@,
        "/usr/lib/x86_64-linux-gnu"@,
        "/usr/lib/aarch64-linux-gnu"@,
    ]
}

/// The path of a library in one of the directories.
pub open spec fn library_path(name: Seq<char>, i: int) -> Seq<char> {
    library_dirs()[i] + "/"@ + name
}

/// Whether `exists`, asked for a path, can say `yes`.
pub open spec fn says<E: Fn(String) -> bool>(exists_at: E, path: Seq<char>, yes: bool) -> bool {
    exists|p: String| #[trigger] call_ensures(exists_at, (p,), yes) && p@ == path
}

/// Whether `found` is the first directory that has the library, by what
/// `exists_at` says; None where no directory has it.
pub open spec fn located<E: Fn(String) -> bool>(
    exists_at: E,
    name: Seq<char>,
    found: Option<int>,
) -> bool {
    match found {
        Some(i) => {
            &&& 0 <= i < library_dirs().len()
            &&& says(exists_at, library_path(name, i), true)
            &&& forall|j: int|
                0 <= j < i ==> says(exists_at, #[trigger] library_path(name, j), false)
        },
        None => forall|j: int|
            0 <= j < library_dirs().len() ==> says(
                exists_at,
                #[trigger] library_path(name, j),
                false,
            ),
    }
}

/// Find a shared library. `exists_at` tells whether there is a file at a path.
pub fn which_lib<E: Fn(String) -> bool>(name: &str, exists_at: &E) -> (r: Option<String>)
    requires
        forall|p: String| #[trigger] call_requires(exists_at, (p,)),
    ensures
        match r {
            Some(path) => exists|i: int| #[trigger]
                located(*exists_at, name@, Some(i)) && path@ == library_path(name@, i),
            None => located(*exists_at, name@, None),
        },
{
    let mut dirs: Vec<&str> = Vec::new();
    dirs.push("/usr/lib");
    dirs.push("/usr/lib64");
    dirs.push("/usr/lib/x86_64-linux-gnu");
    dirs.push("/usr/lib/aarch64-linux-gnu");
    let mut i: usize = 0;
    while i < dirs.len()
        invariant
            i <= dirs@.len() == library_dirs().len(),
            forall|j: int| 0 <= j < dirs@.len() ==> #[trigger] dirs@[j]@ == library_dirs()[j],
            forall|p: String| #[trigger] call_requires(exists_at, (p,)),
            forall|j: int|
                0 <= j < i ==> says(*exists_at, #[trigger] library_path(name@, j), false),
        decreases dirs@.len() - i,
    {
        let path: String = concat3(dirs[i], "/", name);
        assert(path@ == library_path(name@, i as int));
        let asked: String = path.clone();
        assert(call_requires(exists_at, (asked,)));
        let yes: bool = exists_at(asked);
        assert(call_ensures(*exists_at, (asked,), yes));
        assert(says(*exists_at, library_path(name@, i as int), yes));
        if yes {
            assert(located(*exists_at, name@, Some(i as int)));
            return Some(path);
        }
        i = i + 1;
    }
    None
}

/// The file name of the WebKitGTK library of a version.
pub open spec fn webkit_library(version: Seq<char>) -> Seq<char> {
    "libwebkit2gtk-"@ + version + ".so"@
}

/// Whether `version` is that of the WebKitGTK that is there, by what `exists_at`
/// says: 4.1 where some directory has it, else 4.0.
pub open spec fn webkit_detected<E: Fn(String) -> bool>(
    exists_at: E,
    version: Option<Seq<char>>,
) -> bool {
    match version {
        Some(v) => {
            ||| v == "4.1"@ && (exists|i: int| #[trigger]
                located(exists_at, webkit_library("4.1"@), Some(i)))
            ||| v == "4.0"@ && located(exists_at, webkit_library("4.1"@), None) && (exists|i: int|
                #[trigger] located(exists_at, webkit_library("4.0"@), Some(i)))
        },
        None => located(exists_at, webkit_library("4.1"@), None) && located(
            exists_at,
            webkit_library("4.0"@),
            None,
        ),
    }
}

/// The version of the installed WebKitGTK. `exists_at` tells whether there is a
/// file at a path.
pub fn webkitgtk_version<E: Fn(String) -> bool>(exists_at: &E) -> (r: Option<String>)
    requires
        forall|p: String| #[trigger] call_requires(exists_at, (p,)),
    ensures
        webkit_detected(*exists_at, opt_text(r)),
{
    let newer: String = concat3("libwebkit2gtk-", "4.1", ".so");
    assert(newer@ == webkit_library("4.1"@));
    if which_lib(newer.as_str(), exists_at).is_some() {
        return Some("4.1".to_owned());
    }
    let older: String = concat3("libwebkit2gtk-", "4.0", ".so");
    assert(older@ == webkit_library("4.0"@));
    if which_lib(older.as_str(), exists_at).is_some() {
        return Some("4.0".to_owned());
    }
    None
}

/// A hive of the Windows registry.
#[derive(Debug, Clone, Copy, PartialEq, Eq, Structural)]
pub enum Hive {
    LocalMachine,
    CurrentUser,
}

/// The name of the registry value that holds a client's version.
pub const VERSION_VALUE: &'static str = "pv";

/// The registry keys under which Edge Update keeps the WebView2 Runtime, in the
/// order in which they are looked at. The GUID is the one that is documented for
/// the Edge WebView2 Runtime client.
pub open spec fn registry_keys() -> Seq<(Hive, Seq<char>)> {
    seq![
        (
            Hive::LocalMachine,
            r"SOFTWARE\WOW6432Node\Microsoft\EdgeUpdate\Clients\{F3017226-FE2A-4295-8BDF-00C3A9A7E4C5}"@,
        ),
        (
            Hive::LocalMachine,
            r"SOFTWARE\Microsoft\EdgeUpdate\Clients\{F3017226-FE2A-4295-8BDF-00C3A9A7E4C5}"@,
        ),
        (
            Hive::CurrentUser,
            r"SOFTWARE\Microsoft\EdgeUpdate\Clients\{F3017226-FE2A-4295-8BDF-00C3A9A7E4C5}"@,
        ),
    ]
}

/// Whether a version in the registry means that a runtime is installed.
pub open spec fn installed(version: Option<Seq<char>>) -> bool {
    version matches Some(v) && v.len() > 0 && v != "0.0.0.0"@
}

/// Whether `query`, asked for a key, can answer with that version.
pub open spec fn answers<Q: Fn(Hive, String) -> Option<String>>(
    query: Q,
    key: (Hive, Seq<char>),
    version: Option<Seq<char>>,
) -> bool {
    exists|path: String, v: Option<String>| #[trigger]
        call_ensures(query, (key.0, path), v) && path@ == key.1 && opt_text(v) == version
}

/// Whether key `j` gave no installed version.
pub open spec fn passed_over<Q: Fn(Hive, String) -> Option<String>>(query: Q, j: int) -> bool {
    exists|v: Option<Seq<char>>| #[trigger] answers(query, registry_keys()[j], v) && !installed(v)
}

/// The version of the installed WebView2 Runtime: the first one that a registry
/// key gives. `query` reads the version under a key.
pub fn webview2_version<Q: Fn(Hive, String) -> Option<String>>(query: &Q) -> (r: Option<String>)
    requires
        forall|hive: Hive, path: String| #[trigger] call_requires(query, (hive, path)),
    ensures
        match r {
            Some(v) => exists|i: int|
                0 <= i < registry_keys().len() && answers(
                    *query,
                    #[trigger] registry_keys()[i],
                    Some(v@),
                ) && installed(Some(v@)) && forall|j: int|
                    0 <= j < i ==> #[trigger] passed_over(*query, j),
            None => forall|j: int|
                0 <= j < registry_keys().len() ==> #[trigger] passed_over(*query, j),
        },
{
    let mut keys: Vec<(Hive, &str)> = Vec::new();
    keys.push(
        (
            Hive::LocalMachine,
            r"SOFTWARE\WOW6432Node\Microsoft\EdgeUpdate\Clients\{F3017226-FE2A-4295-8BDF-00C3A9A7E4C5}",
        ),
    );
    keys.push(
        (
            Hive::LocalMachine,
            r"SOFTWARE\Microsoft\EdgeUpdate\Clients\{F3017226-FE2A-4295-8BDF-00C3A9A7E4C5}",
        ),
    );
    keys.push(
        (
            Hive::CurrentUser,
            r"SOFTWARE\Microsoft\EdgeUpdate\Clients\{F3017226-FE2A-4295-8BDF-00C3A9A7E4C5}",
        ),
    );
    let mut i: usize = 0;
    while i < keys.len()
        invariant
            i <= keys@.len() == registry_keys().len(),
            forall|j: int|
                0 <= j < keys@.len() ==> (#[trigger] keys@[j]).0 == registry_keys()[j].0
                    && keys@[j].1@ == registry_keys()[j].1,
            forall|hive: Hive, path: String| #[trigger] call_requires(query, (hive, path)),
            forall|j: int| 0 <= j < i ==> #[trigger] passed_over(*query, j),
        decreases keys@.len() - i,
    {
        let hive: Hive = keys[i].0;
        let path: String = keys[i].1.to_owned();
        assert(call_requires(query, (hive, path)));
        let version: Option<String> = query(hive, path);
        proof {
            assert(call_ensures(*query, (hive, path), version));
            assert(answers(*query, registry_keys()[i as int], opt_text(version)));
            reveal_strlit("");
        }
        match version {
            Some(v) => {
                if !same_text(v.as_str(), "") && !same_text(v.as_str(), "0.0.0.0") {
                    assert(v@.len() > 0) by {
                        if v@.len() == 0 {
                            assert(v@ =~= ""@);
                        }
                    }
                    return Some(v);
                }
                assert(!installed(Some(v@)));
            },
            None => {
                assert(!installed(None));
            },
        }
        assert(passed_over(*query, i as int));
        i = i + 1;
    }
    None
}

/// The version of WKWebView, which ships with macOS: that of the OS as a proxy,
/// where the environment tells it.
pub fn wkwebview_version(os_version: Option<String>) -> (r: Option<String>)
    ensures
        match os_version {
            Some(v) => r == Some(v),
            None => opt_text(r) == Some("system"@),
        },
{
    match os_version {
        Some(v) => Some(v),
        None => Some("system".to_owned()),
    }
}

// -------------------------------------------------------------- browser folder

/// The file name of the WebView2 browser.
pub const BROWSER_EXE: &'static str = "msedgewebview2.exe";

/// An entry of the directory of the bundled runtime: whether it is a directory,
/// and whether the browser is in it.
#[derive(Debug, Clone, Copy)]
pub struct FolderEntry {
    pub is_dir: bool,
    pub has_browser: bool,
}

/// Where the browser is: in the directory of the bundled runtime itself, or in
/// one of its entries.
#[derive(Debug, Clone, Copy, PartialEq, Eq, Structural)]
pub enum BrowserPlace {
    Root,
    Entry(usize),
}

/// Whether no entry is a directory with the browser in it.
pub open spec fn none_has_the_browser(entries: Seq<FolderEntry>) -> bool {
    forall|i: int|
        0 <= i < entries.len() ==> !((#[trigger] entries[i]).is_dir && entries[i].has_browser)
}

/// Locate the folder that should be passed to WebView2 as
/// `browser_executable_folder`. We accept any of these layouts:
/// - `<root>/msedgewebview2.exe`
/// - `<root>/EBWebView/msedgewebview2.exe`
/// - `<root>/*/msedgewebview2.exe`
///
/// Of several entries with the browser it is the first. On other platforms than
/// Windows there is none: there the shape of the bundled runtime differs.
pub fn find_browser_folder(
    on_windows: bool,
    in_root: bool,
    entries: &Vec<FolderEntry>,
) -> (r: Option<BrowserPlace>)
    ensures
        match r {
            None => !on_windows || (!in_root && forall|i: int|
                0 <= i < entries@.len() ==> !((#[trigger] entries@[i]).is_dir
                    && entries@[i].has_browser)),
            Some(BrowserPlace::Root) => on_windows && in_root,
            Some(BrowserPlace::Entry(k)) => {
                &&& on_windows
                &&& !in_root
                &&& k < entries@.len()
                &&& entries@[k as int].is_dir && entries@[k as int].has_browser
                &&& forall|i: int|
                    0 <= i < k ==> !((#[trigger] entries@[i]).is_dir && entries@[i].has_browser)
            },
        },
        on_windows && r is None ==> none_has_the_browser(entries@),
{
    if !on_windows {
        return None;
    }
    if in_root {
        return Some(BrowserPlace::Root);
    }
    let mut i: usize = 0;
    while i < entries.len()
        invariant
            i <= entries@.len(),
            on_windows && !in_root,
            forall|j: int|
                0 <= j < i ==> !((#[trigger] entries@[j]).is_dir && entries@[j].has_browser),
        decreases entries@.len() - i,
    {
        if entries[i].is_dir && entries[i].has_browser {
            return Some(BrowserPlace::Entry(i));
        }
        i = i + 1;
    }
    None
}

// --------------------------------------------------------------------- binding

/// The environment variable that names the folder of the WebView2 browser.
pub const BROWSER_FOLDER_VAR: &'static str = "WEBVIEW2_BROWSER_EXECUTABLE_FOLDER";

/// The environment variable that names the folder of the WebView2 user data.
pub const USER_DATA_VAR: &'static str = "WEBVIEW2_USER_DATA_FOLDER";

/// The directory of the user data below the root of the bundled runtime.
pub const USER_DATA_DIR: &'static str = "user-data";

/// What the environment has to say so that the webview picks up the bundled
/// runtime: the browser folder, and the directory below which the user data go.
pub struct RuntimeBinding<'a> {
    pub browser_folder: &'a PathBuf,
    pub runtime_root: Option<&'a PathBuf>,
}

/// What the environment has to say so that the webview picks up the bundled
/// runtime, where one is present. Only WebView2 on Windows is told this way.
pub fn apply_runtime(resolved: &ResolvedRuntime, on_windows: bool) -> (r: Option<
    RuntimeBinding<'_>,
>)
    ensures
        match r {
            Some(binding) => {
                &&& on_windows
                &&& resolved.browser_executable_folder == Some(*binding.browser_folder)
                &&& match resolved.runtime_root {
                    Some(root) => binding.runtime_root == Some(&root),
                    None => binding.runtime_root is None,
                }
            },
            None => !on_windows || resolved.browser_executable_folder is None,
        },
{
    if !on_windows {
        return None;
    }
    match &resolved.browser_executable_folder {
        Some(folder) => {
            let runtime_root: Option<&PathBuf> = match &resolved.runtime_root {
                Some(root) => Some(root),
                None => None,
            };
            Some(RuntimeBinding { browser_folder: folder, runtime_root })
        },
        None => None,
    }
}

// ----------------------------------------------------------------------- laws

proof fn lemma_component_has_no_dot(version: Seq<char>, i: int)
    requires
        0 <= i,
    ensures
        !component(version, i).contains('.'),
{
    reveal_strlit("0");
    lemma_split_pieces(version, '.');
    if i < split(version, '.').len() {
        let part = split(version, '.')[i];
        assert forall|j: int| 0 <= j < part.len() implies part[j] != '.' by {
            assert(split(version, '.')[i][j] != '.');
        }
    }
}

proof fn lemma_split_three(a: Seq<char>, b: Seq<char>, c: Seq<char>)
    requires
        !a.contains('.'),
        !b.contains('.'),
        !c.contains('.'),
    ensures
        split(a + seq!['.'] + b + seq!['.'] + c, '.') == seq![a, b, c],
{
    assert(a + seq!['.'] + b + seq!['.'] + c =~= a + seq!['.'] + (b + seq!['.'] + c));
    lemma_split_first(a, b + seq!['.'] + c, '.');
    lemma_split_first(b, c, '.');
    lemma_split_whole(c, '.');
    assert(seq![a] + (seq![b] + seq![c]) =~= seq![a, b, c]);
}

/// A normalized version has exactly three components: the first three of the
/// version, with 0 for each that is missing.
pub proof fn law_three_components(version: Seq<char>)
    ensures
        split(normalized(version), '.') == seq![
            component(version, 0),
            component(version, 1),
            component(version, 2),
        ],
{
    lemma_component_has_no_dot(version, 0);
    lemma_component_has_no_dot(version, 1);
    lemma_component_has_no_dot(version, 2);
    lemma_split_three(component(version, 0), component(version, 1), component(version, 2));
}

/// Normalizing a normalized version changes nothing.
pub proof fn law_normalizing_is_idempotent(version: Seq<char>)
    ensures
        normalized(normalized(version)) == normalized(version),
{
    law_three_components(version);
}

/// A version of three numbers is its own normal form, also where more components
/// follow.
pub proof fn law_releases_are_normal(major: nat, minor: nat, patch: nat, rest: Seq<char>)
    ensures
        normalized(release_text(major, minor, patch)) == release_text(major, minor, patch),
        normalized(release_text(major, minor, patch) + seq!['.'] + rest) == release_text(
            major,
            minor,
            patch,
        ),
{
    let (a, b, c) = (decimal(major), decimal(minor), decimal(patch));
    lemma_decimal_digits(major);
    lemma_decimal_digits(minor);
    lemma_decimal_digits(patch);
    lemma_split_three(a, b, c);
    let longer = release_text(major, minor, patch) + seq!['.'] + rest;
    assert(longer =~= a + seq!['.'] + (b + seq!['.'] + (c + seq!['.'] + rest)));
    lemma_split_first(a, b + seq!['.'] + (c + seq!['.'] + rest), '.');
    lemma_split_first(b, c + seq!['.'] + rest, '.');
    lemma_split_first(c, rest, '.');
    lemma_split_nonempty(rest, '.');
    let parts = split(longer, '.');
    assert(parts == seq![a] + (seq![b] + (seq![c] + split(rest, '.'))));
    assert(parts[0] == a);
    assert(parts[1] == b);
    assert(parts[2] == c);
}

/// With no minimum configured any detected WebView is used, however its version is
/// written.
pub proof fn law_any_version_without_a_minimum(
    cfg: &RuntimeConfig,
    v: String,
    check: SystemCheck,
    plan: RuntimePlan,
)
    requires
        cfg.min_webview_version is None,
        call_ensures(check_system, (cfg, Some(v)), check),
        call_ensures(plan_auto, (cfg, Some(v)), plan),
    ensures
        check == SystemCheck::Usable(Some(v)),
        plan matches RuntimePlan::Use(rt) && rt.kind == RuntimeKind::System && rt.detected_version
            == Some(v) && rt.runtime_root is None && rt.browser_executable_folder is None
            && rt.extra_browser_args@.len() == 0,
{
}

/// In `auto` mode and with no minimum configured, the system WebView is used whenever
/// one is detected, and the bundled runtime whenever none is.
pub proof fn law_auto_mode_without_a_minimum<D: FnOnce() -> Option<String>>(
    cfg: &RuntimeConfig,
    detect: D,
    plan: RuntimePlan,
    detected: Option<String>,
)
    requires
        cfg.mode == RuntimeMode::Auto,
        cfg.min_webview_version is None,
        forall|d: Option<String>| #[trigger] call_ensures(detect, (), d) ==> d == detected,
        call_ensures(resolve::<D>, (cfg, detect), plan),
    ensures
        detected is Some ==> (plan matches RuntimePlan::Use(rt) && rt.kind == RuntimeKind::System
            && rt.detected_version == detected),
        detected is None ==> (plan matches RuntimePlan::Bootstrap { reason: Some(why) } && why@
            == "no system webview detected"@),
{
}

/// `auto` mode makes of the detected WebView what the check says of it: one that can
/// be used is used, with the version that was detected, and for one that cannot the
/// reason is kept.
pub proof fn law_auto_mode_follows_the_check(
    cfg: &RuntimeConfig,
    detected: Option<String>,
    check: SystemCheck,
    plan: RuntimePlan,
)
    requires
        call_ensures(check_system, (cfg, detected), check),
        call_ensures(plan_auto, (cfg, detected), plan),
    ensures
        match check {
            SystemCheck::Usable(version) => plan matches RuntimePlan::Use(rt) && rt.kind
                == RuntimeKind::System && opt_text(rt.detected_version) == opt_text(version)
                && rt.runtime_root is None && rt.browser_executable_folder is None
                && rt.extra_browser_args@.len() == 0,
            SystemCheck::Unavailable(reason) => plan matches RuntimePlan::Bootstrap {
                reason: Some(why),
            } && why@ == reason@,
        },
        check matches SystemCheck::Usable(version) ==> version is Some && opt_text(version)
            == opt_text(detected),
{
}

/// The mode comes first: in `system` mode the system WebView is used and in `strict`
/// mode the bundled runtime, whatever is detected and whatever minimum is configured.
pub proof fn law_mode_comes_first<D: FnOnce() -> Option<String>>(
    cfg: &RuntimeConfig,
    detect: D,
    plan: RuntimePlan,
)
    requires
        call_ensures(resolve::<D>, (cfg, detect), plan),
    ensures
        cfg.mode == RuntimeMode::System ==> (plan matches RuntimePlan::Use(rt) && rt.kind
            == RuntimeKind::System && rt.detected_version is None && rt.runtime_root is None
            && rt.browser_executable_folder is None && rt.extra_browser_args@.len() == 0),
        cfg.mode == RuntimeMode::Strict ==> plan == (RuntimePlan::Bootstrap { reason: None }),
{
}

/// In `auto` mode, what is decided is decided as for the version that was detected.
pub proof fn law_auto_mode_looks_at_what_is_there<D: FnOnce() -> Option<String>>(
    cfg: &RuntimeConfig,
    detect: D,
    plan: RuntimePlan,
    detected: Option<String>,
    check: SystemCheck,
)
    requires
        cfg.mode == RuntimeMode::Auto,
        forall|d: Option<String>| #[trigger] call_ensures(detect, (), d) ==> d == detected,
        call_ensures(resolve::<D>, (cfg, detect), plan),
        call_ensures(check_system, (cfg, detected), check),
    ensures
        plan is Use <==> check is Usable,
        check matches SystemCheck::Unavailable(reason) ==> (plan matches RuntimePlan::Bootstrap {
            reason: Some(why),
        } && why@ == reason@),
        plan matches RuntimePlan::Use(rt) ==> opt_text(rt.detected_version) == opt_text(detected)
            && rt.kind == RuntimeKind::System,
{
}

/// Where versions are written as numbers, with or without a fourth one, a WebView can
/// be used exactly when it is not older than the minimum: the first numbers that
/// differ decide.
pub proof fn law_older_versions_are_refused(
    cfg: &RuntimeConfig,
    v: String,
    rest: Seq<char>,
    actual: (u64, u64, u64),
    least: (u64, u64, u64),
    r: SystemCheck,
)
    requires
        v@ == release(actual) || v@ == release(actual) + seq!['.'] + rest,
        cfg.min_webview_version matches Some(min) && min@ == release(least),
        call_ensures(check_system, (cfg, Some(v)), r),
    ensures
        r is Usable <==> actual.0 > least.0 || (actual.0 == least.0 && (actual.1 > least.1 || (
        actual.1 == least.1 && actual.2 >= least.2))),
        r is Usable ==> r == SystemCheck::Usable(Some(v)),
        r matches SystemCheck::Unavailable(why) ==> why@ == "system webview "@ + v@ + " < required "@
            + release(least),
{
    law_releases_are_normal(actual.0 as nat, actual.1 as nat, actual.2 as nat, rest);
    let min = cfg.min_webview_version->0@;
    assert(normalized(v@) == release(actual));
    assert(asks_for(min, least));
}

/// A version that is normalized keeps its first three components as they are
/// written, drops the others, and has `0` for each that is missing.
pub proof fn law_normal_form(
    v: &str,
    r: String,
    a: Seq<char>,
    b: Seq<char>,
    c: Seq<char>,
    rest: Seq<char>,
)
    requires
        call_ensures(normalize_version, (v,), r),
        !a.contains('.'),
        !b.contains('.'),
        !c.contains('.'),
    ensures
        v@ == a ==> r@ == a + ".0.0"@,
        v@ == a + "."@ + b ==> r@ == a + "."@ + b + ".0"@,
        v@ == a + "."@ + b + "."@ + c ==> r@ == v@,
        v@ == a + "."@ + b + "."@ + c + "."@ + rest ==> r@ == a + "."@ + b + "."@ + c,
{
    reveal_strlit(".");
    reveal_strlit("0");
    reveal_strlit(".0");
    reveal_strlit(".0.0");
    assert("."@ =~= seq!['.']);
    lemma_split_whole(a, '.');
    lemma_split_whole(b, '.');
    lemma_split_whole(c, '.');
    if v@ == a {
        assert(r@ =~= a + ".0.0"@);
    }
    if v@ == a + "."@ + b {
        lemma_split_first(a, b, '.');
        assert(split(v@, '.') =~= seq![a, b]);
        assert(r@ =~= a + "."@ + b + ".0"@);
    }
    if v@ == a + "."@ + b + "."@ + c {
        lemma_split_three(a, b, c);
        assert(r@ =~= v@);
    }
    if v@ == a + "."@ + b + "."@ + c + "."@ + rest {
        let third = c + seq!['.'] + rest;
        assert(v@ =~= a + seq!['.'] + (b + seq!['.'] + third));
        lemma_split_first(a, b + seq!['.'] + third, '.');
        lemma_split_first(b, third, '.');
        lemma_split_first(c, rest, '.');
        lemma_split_nonempty(rest, '.');
        let parts = split(v@, '.');
        assert(parts == seq![a] + (seq![b] + (seq![c] + split(rest, '.'))));
        assert(parts[0] == a && parts[1] == b && parts[2] == c);
        assert(r@ =~= a + "."@ + b + "."@ + c);
    }
}

/// Where `present` tells which files there are, a library is found in the first of
/// the directories that has it, and not found exactly when none has it.
pub proof fn law_library_is_found_where_it_is<E: Fn(String) -> bool>(
    name: &str,
    exists_at: &E,
    present: spec_fn(Seq<char>) -> bool,
    r: Option<String>,
)
    requires
        forall|p: String, yes: bool| #[trigger]
            call_ensures(*exists_at, (p,), yes) ==> yes == present(p@),
        call_ensures(which_lib::<E>, (name, exists_at), r),
    ensures
        ({
            let one = "/usr/lib"@ + "/"@ + name@;
            let two = "/usr/lib64"@ + "/"@ + name@;
            let three = "/usr/lib/x86_64-linux-gnu"@ + "/"@ + name@;
            let four = "/usr/lib/aarch64-linux-gnu"@ + "/"@ + name@;
            opt_text(r) == if present(one) {
                Some(one)
            } else if present(two) {
                Some(two)
            } else if present(three) {
                Some(three)
            } else if present(four) {
                Some(four)
            } else {
                None
            }
        }),
{
    let n = name@;
    assert(library_path(n, 0) == "/usr/lib"@ + "/"@ + n);
    assert(library_path(n, 1) == "/usr/lib64"@ + "/"@ + n);
    assert(library_path(n, 2) == "/usr/lib/x86_64-linux-gnu"@ + "/"@ + n);
    assert(library_path(n, 3) == "/usr/lib/aarch64-linux-gnu"@ + "/"@ + n);
    lemma_says(*exists_at, present);
}

/// What `exists_at` says of a path is whether there is a file.
proof fn lemma_says<E: Fn(String) -> bool>(exists_at: E, present: spec_fn(Seq<char>) -> bool)
    requires
        forall|p: String, yes: bool| #[trigger]
            call_ensures(exists_at, (p,), yes) ==> yes == present(p@),
    ensures
        forall|path: Seq<char>, yes: bool| #[trigger]
            says(exists_at, path, yes) ==> yes == present(path),
{
}

/// Where `present` tells which files there are, the newer WebKitGTK is reported when
/// one of the directories has its library, else the older one when one has its, and
/// else none.
pub proof fn law_newest_webkit_is_reported<E: Fn(String) -> bool>(
    exists_at: &E,
    present: spec_fn(Seq<char>) -> bool,
    r: Option<String>,
)
    requires
        forall|p: String, yes: bool| #[trigger]
            call_ensures(*exists_at, (p,), yes) ==> yes == present(p@),
        call_ensures(webkitgtk_version::<E>, (exists_at,), r),
    ensures
        ({
            let newer = "libwebkit2gtk-"@ + "4.1"@ + ".so"@;
            let older = "libwebkit2gtk-"@ + "4.0"@ + ".so"@;
            opt_text(r) == if in_some_library_dir(present, newer) {
                Some("4.1"@)
            } else if in_some_library_dir(present, older) {
                Some("4.0"@)
            } else {
                None
            }
        }),
{
    let newer = "libwebkit2gtk-"@ + "4.1"@ + ".so"@;
    let older = "libwebkit2gtk-"@ + "4.0"@ + ".so"@;
    lemma_says(*exists_at, present);
    lemma_located(*exists_at, present, newer);
    lemma_located(*exists_at, present, older);
}

/// Whether one of the directories for shared libraries has a file of that name.
pub open spec fn in_some_library_dir(
    present: spec_fn(Seq<char>) -> bool,
    name: Seq<char>,
) -> bool {
    ||| present("/usr/lib"@ + "/"@ + name)
    ||| present("/usr/lib64"@ + "/"@ + name)
    ||| present("/usr/lib/x86_64-linux-gnu"@ + "/"@ + name)
    ||| present("/usr/lib/aarch64-linux-gnu"@ + "/"@ + name)
}

proof fn lemma_located<E: Fn(String) -> bool>(
    exists_at: E,
    present: spec_fn(Seq<char>) -> bool,
    name: Seq<char>,
)
    requires
        forall|path: Seq<char>, yes: bool| #[trigger]
            says(exists_at, path, yes) ==> yes == present(path),
    ensures
        located(exists_at, name, None) ==> !in_some_library_dir(present, name),
        forall|i: int| #[trigger]
            located(exists_at, name, Some(i)) ==> in_some_library_dir(present, name),
{
    assert(library_path(name, 0) == "/usr/lib"@ + "/"@ + name);
    assert(library_path(name, 1) == "/usr/lib64"@ + "/"@ + name);
    assert(library_path(name, 2) == "/usr/lib/x86_64-linux-gnu"@ + "/"@ + name);
    assert(library_path(name, 3) == "/usr/lib/aarch64-linux-gnu"@ + "/"@ + name);
    assert forall|i: int| #[trigger] located(exists_at, name, Some(i)) implies in_some_library_dir(
        present,
        name,
    ) by {
        assert(says(exists_at, library_path(name, i), true));
        assert(i == 0 || i == 1 || i == 2 || i == 3);
    }
}

/// Whether `pv` is a version under which a runtime counts as installed.
pub open spec fn counts(pv: Option<Seq<char>>) -> bool {
    pv is Some && pv->0.len() > 0 && pv->0 != "0.0.0.0"@
}

/// Where `registry` tells what the registry holds, the WebView2 Runtime that is
/// reported is the one for the machine, in the 32-bit view before the other, and only
/// then the one for the user; entries that are empty or zero are passed over.
pub proof fn law_installed_webview2_is_reported<Q: Fn(Hive, String) -> Option<String>>(
    query: &Q,
    registry: spec_fn(Hive, Seq<char>) -> Option<Seq<char>>,
    r: Option<String>,
)
    requires
        forall|hive: Hive, path: String, v: Option<String>| #[trigger]
            call_ensures(*query, (hive, path), v) ==> opt_text(v) == registry(hive, path@),
        call_ensures(webview2_version::<Q>, (query,), r),
    ensures
        ({
            let one = registry(
                Hive::LocalMachine,
                r"SOFTWARE\WOW6432Node\Microsoft\EdgeUpdate\Clients\{F3017226-FE2A-4295-8BDF-00C3A9A7E4C5}"@,
            );
            let two = registry(
                Hive::LocalMachine,
                r"SOFTWARE\Microsoft\EdgeUpdate\Clients\{F3017226-FE2A-4295-8BDF-00C3A9A7E4C5}"@,
            );
            let three = registry(
                Hive::CurrentUser,
                r"SOFTWARE\Microsoft\EdgeUpdate\Clients\{F3017226-FE2A-4295-8BDF-00C3A9A7E4C5}"@,
            );
            opt_text(r) == if counts(one) {
                one
            } else if counts(two) {
                two
            } else if counts(three) {
                three
            } else {
                None
            }
        }),
{
    let keys = registry_keys();
    assert forall|j: int, v: Option<Seq<char>>|
        0 <= j < 3 && #[trigger] answers(*query, keys[j], v) implies v == registry(
        keys[j].0,
        keys[j].1,
    ) by {}
    assert forall|j: int| 0 <= j < 3 && #[trigger] passed_over(*query, j) implies !counts(
        registry(keys[j].0, keys[j].1),
    ) by {
        let v = choose|v: Option<Seq<char>>| #[trigger]
            answers(*query, registry_keys()[j], v) && !installed(v);
        assert(answers(*query, keys[j], v));
    }
    match r {
        Some(v) => {
            let i = choose|i: int|
                0 <= i < registry_keys().len() && answers(
                    *query,
                    #[trigger] registry_keys()[i],
                    Some(v@),
                ) && installed(Some(v@)) && forall|j: int|
                    0 <= j < i ==> #[trigger] passed_over(*query, j);
            assert(answers(*query, keys[i], Some(v@)));
            assert(i > 0 ==> passed_over(*query, 0));
            assert(i > 1 ==> passed_over(*query, 1));
            assert(i == 0 || i == 1 || i == 2);
        },
        None => {
            assert(passed_over(*query, 0) && passed_over(*query, 1) && passed_over(*query, 2));
        },
    }
}

/// The two kinds of runtime are told apart by what they hold: the system one nothing
/// of its own, the bundled one its place on disk.
pub proof fn law_runtimes_hold_what_they_are_made_of(
    root: PathBuf,
    browser: Option<PathBuf>,
    system: ResolvedRuntime,
    bundled: ResolvedRuntime,
)
    requires
        call_ensures(system_runtime, (), system),
        call_ensures(bundled_runtime, (root, browser), bundled),
    ensures
        system.kind == RuntimeKind::System,
        system.extra_browser_args@.len() == 0,
        system.runtime_root is None,
        system.browser_executable_folder is None,
        system.detected_version is None,
        bundled.kind == RuntimeKind::Bundled,
        bundled.extra_browser_args@.len() == 0,
        bundled.runtime_root == Some(root),
        bundled.browser_executable_folder == browser,
        bundled.detected_version is None,
{
}

/// On Windows the environment tells of a bundled runtime exactly when its browser was
/// found, with the folders as they are; elsewhere it tells nothing.
pub proof fn law_bundled_browser_is_bound<'a>(
    resolved: &'a ResolvedRuntime,
    on_windows: bool,
    r: Option<RuntimeBinding<'a>>,
)
    requires
        call_ensures(apply_runtime, (resolved, on_windows), r),
    ensures
        r is Some <==> on_windows && resolved.browser_executable_folder is Some,
        r matches Some(binding) ==> Some(*binding.browser_folder)
            == resolved.browser_executable_folder,
        r matches Some(binding) ==> (binding.runtime_root is Some
            <==> resolved.runtime_root is Some),
        r matches Some(binding) ==> (binding.runtime_root matches Some(root) ==> Some(*root)
            == resolved.runtime_root),
{
}

/// The browser is found wherever it is: in the directory itself before any of its
/// entries, else in an entry that is a directory and has it, with none before it that
/// does. On other platforms than Windows it is not looked for.
pub proof fn law_browser_is_found_where_it_is(
    on_windows: bool,
    in_root: bool,
    entries: &Vec<FolderEntry>,
    r: Option<BrowserPlace>,
    i: int,
)
    requires
        call_ensures(find_browser_folder, (on_windows, in_root, entries), r),
        0 <= i < entries@.len(),
    ensures
        !on_windows ==> r is None,
        on_windows && in_root <==> r == Some(BrowserPlace::Root),
        on_windows && entries@[i].is_dir && entries@[i].has_browser ==> r is Some,
        r matches Some(BrowserPlace::Entry(k)) ==> k < entries@.len() && entries@[k as int].is_dir
            && entries@[k as int].has_browser,
        r matches Some(BrowserPlace::Entry(k)) ==> (i < k ==> !(entries@[i].is_dir
            && entries@[i].has_browser)),
{
    if on_windows && r is None {
        assert(none_has_the_browser(entries@));
    }
}

/// A WebView can be used where a minimum is configured exactly when the minimum makes a
/// requirement, the detected version is understood, and it meets the requirement; else
/// the reason tells which of these is the matter, in this order.
pub proof fn law_check_against_a_minimum(
    cfg: &RuntimeConfig,
    v: String,
    min: String,
    r: SystemCheck,
)
    requires
        cfg.min_webview_version == Some(min),
        call_ensures(check_system, (cfg, Some(v)), r),
    ensures
        ({
            let asked = semver_requirement(">="@ + min@);
            let found = semver_version(normalized(v@));
            let meets = semver_matches(">="@ + min@, normalized(v@));
            &&& r is Usable <==> asked is Ok && found is Ok && meets
            &&& r is Usable ==> r == SystemCheck::Usable(Some(v))
            &&& asked matches Err(e) ==> (r matches SystemCheck::Unavailable(why) && why@
                == "invalid min_webview_version: "@ + e)
            &&& asked is Ok ==> (found matches Err(e) ==> (r matches SystemCheck::Unavailable(why)
                && why@ == "cannot parse system version "@ + v@ + ": "@ + e))
            &&& asked is Ok && found is Ok && !meets ==> (r matches SystemCheck::Unavailable(why)
                && why@ == "system webview "@ + v@ + " < required "@ + min@)
        }),
{
}

/// Without a detected WebView there is none to use, whatever is configured.
pub proof fn law_nothing_detected(cfg: &RuntimeConfig, r: SystemCheck, plan: RuntimePlan)
    requires
        call_ensures(check_system, (cfg, None), r),
        call_ensures(plan_auto, (cfg, None), plan),
    ensures
        r matches SystemCheck::Unavailable(why) && why@ == "no system webview detected"@,
        plan matches RuntimePlan::Bootstrap { reason: Some(why) } && why@
            == "no system webview detected"@,
{
}

/// A minimum of one or two numbers counts those that are left out as 0.
pub proof fn law_short_minimums_count_as_zero(
    cfg: &RuntimeConfig,
    v: String,
    actual: (u64, u64, u64),
    major: u64,
    minor: u64,
    r: SystemCheck,
)
    requires
        v@ == release(actual),
        call_ensures(check_system, (cfg, Some(v)), r),
    ensures
        (cfg.min_webview_version matches Some(min) && min@ == decimal(major as nat)) ==> (r is Usable
            <==> actual.0 >= major),
        (cfg.min_webview_version matches Some(min) && min@ == decimal(major as nat) + seq!['.']
            + decimal(minor as nat)) ==> (r is Usable <==> actual.0 > major || (actual.0 == major
            && actual.1 >= minor)),
{
    law_releases_are_normal(actual.0 as nat, actual.1 as nat, actual.2 as nat, Seq::empty());
    assert(normalized(v@) == release(actual));
    if cfg.min_webview_version is Some {
        let min = cfg.min_webview_version->0@;
        if min == decimal(major as nat) {
            assert(asks_for(min, (major, 0, 0)));
        }
        if min == decimal(major as nat) + seq!['.'] + decimal(minor as nat) {
            assert(asks_for(min, (major, minor, 0)));
        }
    }
}

} // verus!
