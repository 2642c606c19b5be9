use rizonet_core::bootstrap::{Bootstrap, Report, Stage};
use rizonet_core::config::RuntimeConfig;
use rizonet_core::runtime::{
    apply_runtime, bundled_runtime, check_system, find_browser_folder, normalize_version,
    plan_auto, resolve, system_runtime, webkitgtk_version, webview2_version, which_lib,
    wkwebview_version, BrowserPlace, FolderEntry, Hive, RuntimePlan, SystemCheck,
};
use rizonet_core::{RizonetError, RuntimeKind, RuntimeMode};
use std::cell::RefCell;
use std::path::PathBuf;

fn config(mode: RuntimeMode, least: Option<&str>) -> RuntimeConfig {
    RuntimeConfig {
        mode,
        min_webview_version: least.map(|s| s.to_string()),
        bootstrap_url: Some("https://x/runtime.zip".to_string()),
        bootstrap_sha256: None,
    }
}

fn check(detected: Option<&str>, least: Option<&str>) -> Result<String, String> {
    let cfg = config(RuntimeMode::Auto, least);
    match check_system(&cfg, detected.map(|s| s.to_string())) {
        SystemCheck::Usable(v) => Ok(v.unwrap()),
        SystemCheck::Unavailable(why) => Err(why),
    }
}

#[test]
fn versions_are_normalized() {
    assert_eq!(normalize_version("120.0.2210.91"), "120.0.2210");
    assert_eq!(normalize_version("120.0.2210"), "120.0.2210");
    assert_eq!(normalize_version("4.1"), "4.1.0");
    assert_eq!(normalize_version("7"), "7.0.0");
    assert_eq!(normalize_version(""), ".0.0");
    assert_eq!(normalize_version("system"), "system.0.0");
    assert_eq!(normalize_version(&normalize_version("1.2.3.4.5")), "1.2.3");
}

#[test]
fn newer_or_equal_webview_is_usable() {
    assert_eq!(check(Some("120.0.2210.91"), Some("110.0.0")), Ok("120.0.2210.91".to_string()));
    assert_eq!(check(Some("110.0.0"), Some("110.0.0")), Ok("110.0.0".to_string()));
    assert_eq!(check(Some("9.1.1"), None), Ok("9.1.1".to_string()));
    assert_eq!(check(Some("4.1"), Some("4")), Ok("4.1".to_string()));
}

#[test]
fn older_webview_is_not_usable() {
    assert_eq!(
        check(Some("109.9.9.9"), Some("110.0.0")),
        Err("system webview 109.9.9.9 < required 110.0.0".to_string())
    );
    assert_eq!(
        check(Some("4.0"), Some("4.1.0")),
        Err("system webview 4.0 < required 4.1.0".to_string())
    );
}

#[test]
fn unusable_versions_are_explained() {
    assert_eq!(check(None, Some("1.0.0")), Err("no system webview detected".to_string()));
    assert_eq!(check(None, None), Err("no system webview detected".to_string()));
    assert_eq!(
        check(Some("system"), Some("1.0.0")),
        Err("cannot parse system version system: unexpected character 's' while parsing major \
             version number"
            .to_string())
    );
    assert_eq!(
        check(Some("1.0.0"), Some("new")),
        Err("invalid min_webview_version: unexpected character 'n' while parsing major version \
             number"
            .to_string())
    );
}

#[test]
fn mode_decides_the_runtime() {
    match resolve(&config(RuntimeMode::System, None), || panic!("detected")) {
        RuntimePlan::Use(rt) => {
            assert_eq!(rt.kind, RuntimeKind::System);
            assert_eq!(rt.detected_version, None);
            assert_eq!(rt.runtime_root, None);
        }
        other => panic!("{:?}", other),
    }
    assert!(matches!(
        resolve(&config(RuntimeMode::Strict, None), || panic!("detected")),
        RuntimePlan::Bootstrap { reason: None }
    ));
    match resolve(&config(RuntimeMode::Auto, None), || Some("5.5".to_string())) {
        RuntimePlan::Use(rt) => {
            assert_eq!(rt.kind, RuntimeKind::System);
            assert_eq!(rt.detected_version.as_deref(), Some("5.5"));
        }
        other => panic!("{:?}", other),
    }
    match resolve(&config(RuntimeMode::Auto, None), || None) {
        RuntimePlan::Bootstrap { reason } => {
            assert_eq!(reason.as_deref(), Some("no system webview detected"));
        }
        other => panic!("{:?}", other),
    }
}

#[test]
fn auto_mode_falls_back_exactly_when_older() {
    let cfg = config(RuntimeMode::Auto, Some("110.2.3"));
    for (version, used) in
        [("110.2.3", true), ("110.2.2", false), ("110.3.0", true), ("111.0.0", true), ("9.9.9", false)]
    {
        let plan = plan_auto(&cfg, Some(version.to_string()));
        assert_eq!(matches!(plan, RuntimePlan::Use(_)), used);
    }
}

#[test]
fn shorter_minimums_count_missing_numbers_as_zero() {
    for (version, least, used) in [
        ("110.0.0", "110", true),
        ("109.9.9", "110", false),
        ("111.0.0", "110", true),
        ("110.2.0", "110.2", true),
        ("110.1.9", "110.2", false),
        ("110.3.0", "110.2", true),
    ] {
        let cfg = config(RuntimeMode::Auto, Some(least));
        let plan = plan_auto(&cfg, Some(version.to_string()));
        assert_eq!(matches!(plan, RuntimePlan::Use(_)), used);
    }
}

#[test]
fn cloned_runtime_is_equal() {
    let rt = bundled_runtime(PathBuf::from("root"), Some(PathBuf::from("root/b"))).clone();
    assert_eq!(rt.kind, RuntimeKind::Bundled);
    assert_eq!(rt.runtime_root, Some(PathBuf::from("root")));
    assert_eq!(rt.browser_executable_folder, Some(PathBuf::from("root/b")));
    assert_eq!(rt.detected_version, None);
}

#[test]
fn libraries_are_searched_in_order() {
    let asked = RefCell::new(Vec::new());
    let found = which_lib("lib.so", &|path: String| {
        asked.borrow_mut().push(path.clone());
        path.starts_with("/usr/lib/x86_64")
    });
    assert_eq!(found.as_deref(), Some("/usr/lib/x86_64-linux-gnu/lib.so"));
    assert_eq!(
        *asked.borrow(),
        vec!["/usr/lib/lib.so", "/usr/lib64/lib.so", "/usr/lib/x86_64-linux-gnu/lib.so"]
    );
    assert_eq!(which_lib("lib.so", &|_: String| false), None);
}

#[test]
fn webkit_versions_are_detected() {
    let has = |name: &'static str| move |path: String| path.ends_with(name);
    assert_eq!(webkitgtk_version(&|_: String| true).as_deref(), Some("4.1"));
    assert_eq!(webkitgtk_version(&has("libwebkit2gtk-4.0.so")).as_deref(), Some("4.0"));
    assert_eq!(webkitgtk_version(&has("libwebkit2gtk-4.1.so")).as_deref(), Some("4.1"));
    assert_eq!(webkitgtk_version(&|_: String| false), None);
}

#[test]
fn registry_gives_the_first_installed_version() {
    let wow = r"SOFTWARE\WOW6432Node\Microsoft\EdgeUpdate\Clients\{F3017226-FE2A-4295-8BDF-00C3A9A7E4C5}";
    let plain = r"SOFTWARE\Microsoft\EdgeUpdate\Clients\{F3017226-FE2A-4295-8BDF-00C3A9A7E4C5}";
    let asked = RefCell::new(Vec::new());
    let found = webview2_version(&|hive: Hive, path: String| {
        asked.borrow_mut().push((hive, path));
        match asked.borrow().len() {
            1 => Some("0.0.0.0".to_string()),
            2 => Some(String::new()),
            _ => Some("120.0.1".to_string()),
        }
    });
    assert_eq!(found.as_deref(), Some("120.0.1"));
    assert_eq!(
        *asked.borrow(),
        vec![
            (Hive::LocalMachine, wow.to_string()),
            (Hive::LocalMachine, plain.to_string()),
            (Hive::CurrentUser, plain.to_string()),
        ]
    );
    assert_eq!(webview2_version(&|_: Hive, _: String| None), None);
    let first = webview2_version(&|_: Hive, _: String| Some("1.0".to_string()));
    assert_eq!(first.as_deref(), Some("1.0"));
}

#[test]
fn macos_reports_the_os_version() {
    assert_eq!(wkwebview_version(Some("14.1".to_string())).as_deref(), Some("14.1"));
    assert_eq!(wkwebview_version(None).as_deref(), Some("system"));
}

#[test]
fn browser_folder_is_located() {
    let entry = |is_dir, has_browser| FolderEntry { is_dir, has_browser };
    let entries = vec![entry(false, true), entry(true, false), entry(true, true), entry(true, true)];
    assert_eq!(find_browser_folder(true, true, &entries), Some(BrowserPlace::Root));
    assert_eq!(find_browser_folder(true, false, &entries), Some(BrowserPlace::Entry(2)));
    assert_eq!(find_browser_folder(true, false, &vec![]), None);
    assert_eq!(find_browser_folder(false, true, &entries), None);
}

#[test]
fn bundled_runtime_is_bound_on_windows() {
    let root = PathBuf::from("root");
    let browser = PathBuf::from("root/EBWebView");
    let rt = bundled_runtime(root.clone(), Some(browser.clone()));
    assert_eq!(rt.kind, RuntimeKind::Bundled);
    assert_eq!(rt.detected_version, None);
    assert!(rt.extra_browser_args.is_empty());
    let binding = apply_runtime(&rt, true).unwrap();
    assert_eq!(binding.browser_folder, &browser);
    assert_eq!(binding.runtime_root, Some(&root));
    assert!(apply_runtime(&rt, false).is_none());
    assert!(apply_runtime(&bundled_runtime(root, None), true).is_none());
    assert!(apply_runtime(&system_runtime(), true).is_none());
}

fn bootstrap(sha: Option<&str>) -> Bootstrap {
    let cfg = RuntimeConfig {
        mode: RuntimeMode::Strict,
        min_webview_version: None,
        bootstrap_url: Some("https://x/runtime.zip".to_string()),
        bootstrap_sha256: sha.map(|s| s.to_string()),
    };
    Bootstrap::start(&cfg).unwrap()
}

fn ok() -> Result<(), RizonetError> {
    Ok(())
}

fn done(r: Result<(), RizonetError>) -> Report {
    match r {
        Ok(_) => Report::Done,
        Err(e) => Report::Failed(e),
    }
}

fn walk(mut b: Bootstrap, digest: &str, cached: bool, old: bool) -> (Vec<String>, Result<(), String>) {
    let mut stages = Vec::new();
    loop {
        stages.push(format!("{:?}", b.stage()));
        let report = match b.stage() {
            Stage::Complete => return (stages, Ok(())),
            Stage::LocateCache => Report::Answer(true),
            Stage::CheckStamp => Report::Answer(cached),
            Stage::CheckExtracted => Report::Answer(old),
            Stage::HashArchive => Report::Digest(digest.to_string()),
            _ => done(ok()),
        };
        b = match b.advance(report) {
            Ok(next) => next,
            Err(e) => return (stages, Err(e.message())),
        };
    }
}

#[test]
fn bootstrap_needs_a_url() {
    let e = Bootstrap::start(&RuntimeConfig::default()).unwrap_err();
    assert_eq!(
        e.message(),
        "runtime bootstrap failed: runtime.mode=strict (or auto-fallback) requires \
         runtime.bootstrap_url"
    );
    assert_eq!(bootstrap(None).url(), "https://x/runtime.zip");
}

#[test]
fn bootstrap_downloads_verifies_and_extracts() {
    let (stages, end) = walk(bootstrap(Some("ABCD")), "abcd", false, true);
    assert_eq!(end, Ok(()));
    assert_eq!(
        stages,
        vec![
            "LocateCache",
            "CreateCache",
            "CheckStamp",
            "Download",
            "HashArchive",
            "CheckExtracted",
            "ClearExtracted",
            "CreateExtracted",
            "Extract",
            "WriteStamp",
            "Complete",
        ]
    );
}

#[test]
fn bootstrap_without_checksum_does_not_hash() {
    let (stages, end) = walk(bootstrap(None), "ignored", false, false);
    assert_eq!(end, Ok(()));
    assert!(!stages.contains(&"HashArchive".to_string()));
    assert!(!stages.contains(&"ClearExtracted".to_string()));
    assert_eq!(stages.last().map(|s| s.as_str()), Some("Complete"));
}

#[test]
fn cached_runtime_is_not_downloaded() {
    let (stages, end) = walk(bootstrap(Some("abcd")), "wrong", true, true);
    assert_eq!(end, Ok(()));
    assert_eq!(stages, vec!["LocateCache", "CreateCache", "CheckStamp", "Complete"]);
}

#[test]
fn wrong_archive_is_removed_and_rejected() {
    let (stages, end) = walk(bootstrap(Some("abcd")), "beef", false, true);
    assert_eq!(end, Err("checksum mismatch: expected abcd, got beef".to_string()));
    assert_eq!(stages.last().map(|s| s.as_str()), Some("RemoveArchive(\"beef\")"));
    assert!(!stages.contains(&"Extract".to_string()));
}

fn at(stage: &str, sha: Option<&str>) -> Bootstrap {
    let mut b = bootstrap(sha);
    while format!("{:?}", b.stage()) != stage {
        let report = match b.stage() {
            Stage::LocateCache => Report::Answer(true),
            Stage::CheckStamp => Report::Answer(false),
            Stage::CheckExtracted => Report::Answer(true),
            Stage::HashArchive => Report::Digest("beef".to_string()),
            _ => Report::Done,
        };
        b = b.advance(report).unwrap();
    }
    b
}

#[test]
fn failures_end_the_bootstrap() {
    for stage in ["CreateCache", "Download", "CreateExtracted", "Extract", "WriteStamp"] {
        let report = Report::Failed(RizonetError::Io("disk full".to_string()));
        let e = at(stage, None).advance(report).unwrap_err();
        assert_eq!(e.message(), "io error: disk full");
    }
    let e = at("HashArchive", Some("x"))
        .advance(Report::Failed(RizonetError::Io("gone".to_string())))
        .unwrap_err();
    assert_eq!(e.message(), "io error: gone");
    let e = at("LocateCache", None).advance(Report::Answer(false)).unwrap_err();
    assert_eq!(
        e.message(),
        "runtime bootstrap failed: cannot resolve platform cache directory"
    );
    let e = at("Extract", None).advance(Report::Crashed("panic".to_string())).unwrap_err();
    assert_eq!(e.message(), "runtime bootstrap failed: extraction task join error: panic");
}

#[test]
fn failed_removals_do_not_matter() {
    let gone = || Report::Failed(RizonetError::Io("gone".to_string()));
    let b = at("ClearExtracted", None).advance(gone()).unwrap();
    assert!(matches!(b.stage(), Stage::CreateExtracted));
    let e = at("RemoveArchive(\"beef\")", Some("abcd")).advance(gone()).unwrap_err();
    assert_eq!(e.message(), "checksum mismatch: expected abcd, got beef");
}
