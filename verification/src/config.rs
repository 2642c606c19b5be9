//! The contents of `rizonet.config.json`.

use crate::acl::CapabilitiesConfig;
use crate::error::RizonetError;
use crate::text::{concat2, concat3};
use vstd::prelude::*;

verus! {

/// The name of the configuration file of a project.
pub const CONFIG_FILE: &'static str = "rizonet.config.json";

/// Top-level schema for `rizonet.config.json`.
#[derive(Debug, Clone)]
pub struct RizonetConfig {
    pub app: AppConfig,
    pub window: WindowConfig,
    pub runtime: RuntimeConfig,
    pub build: BuildConfig,
    pub capabilities: CapabilitiesConfig,
}

#[derive(Debug, Clone)]
pub struct AppConfig {
    pub name: String,
    pub identifier: String,
    /// URL loaded in development mode (e.g. "http://localhost:5173").
    pub dev_url: Option<String>,
    /// Directory containing the built web assets (e.g. "dist").
    pub dist_dir: String,
}

/// A length in logical pixels: the bit pattern of a 64-bit IEEE 754 number.
/// The library carries lengths from the configuration to the window and never
/// computes with them.
#[derive(Debug, Clone, Copy, PartialEq, Eq, Structural)]
pub struct LogicalLength {
    pub bits: u64,
}

#[derive(Debug, Clone)]
pub struct WindowConfig {
    pub title: String,
    pub width: LogicalLength,
    pub height: LogicalLength,
    pub resizable: bool,
    pub fullscreen: bool,
    /// Start the window maximized (ignored when `fullscreen` is true).
    pub maximized: bool,
    pub decorations: bool,
    pub transparent: bool,
}

/// Runtime strategy:
/// - `auto`   : Use the OS WebView when available, otherwise download the
///             bundled runtime (default).
/// - `system` : Always use the OS WebView.
/// - `strict` : Always download and use the bundled runtime.
#[derive(Debug, Clone)]
pub struct RuntimeConfig {
    pub mode: RuntimeMode,
    /// Minimum required system WebView version. When the detected version is
    /// below this, `auto` mode falls back to the bundled runtime.
    pub min_webview_version: Option<String>,
    /// URL from which to download the bundled runtime (HTTPS recommended).
    pub bootstrap_url: Option<String>,
    /// SHA-256 checksum of the downloaded runtime archive.
    pub bootstrap_sha256: Option<String>,
}

#[derive(Debug, Clone, Copy, PartialEq, Eq, Structural)]
pub enum RuntimeMode {
    Auto,
    System,
    Strict,
}

#[derive(Debug, Clone)]
pub struct BuildConfig {
    pub before_dev: Option<String>,
    pub before_build: Option<String>,
    pub targets: Vec<String>,
}

/// The asset directory of an app that names none.
pub fn default_dist() -> (r: String)
    ensures
        r@ == "dist"@,
{
    "dist".to_owned()
}

/// The window title of an app that names none.
pub fn default_title() -> (r: String)
    ensures
        r@ == "Rizonet App"@,
{
    "Rizonet App".to_owned()
}

/// The window width of an app that names none: 1024.
pub fn default_width() -> (r: LogicalLength)
    ensures
        r.bits == 0x4090_0000_0000_0000,
{
    LogicalLength { bits: 0x4090_0000_0000_0000 }
}

/// The window height of an app that names none: 768.
pub fn default_height() -> (r: LogicalLength)
    ensures
        r.bits == 0x4088_0000_0000_0000,
{
    LogicalLength { bits: 0x4088_0000_0000_0000 }
}

/// The value of the switches that are on unless configured otherwise.
pub fn default_true() -> (r: bool)
    ensures
        r,
{
    true
}

/// The runtime strategy of an app that names none.
pub fn default_mode() -> (r: RuntimeMode)
    ensures
        r == RuntimeMode::Auto,
{
    RuntimeMode::Auto
}

impl WindowConfig {
    /// Whether this is the window of an app that configures none.
    pub open spec fn is_default(self) -> bool {
        &&& self.title@ == "Rizonet App"@
        &&& self.width.bits == 0x4090_0000_0000_0000
        &&& self.height.bits == 0x4088_0000_0000_0000
        &&& self.resizable
        &&& !self.fullscreen
        &&& !self.maximized
        &&& self.decorations
        &&& !self.transparent
    }
}

impl Default for WindowConfig {
    fn default() -> (r: Self)
        ensures
            r.is_default(),
            r.title@ == "Rizonet App"@,
            r.width.bits == 0x4090_0000_0000_0000,
            r.height.bits == 0x4088_0000_0000_0000,
            r.resizable && r.decorations,
            !r.fullscreen && !r.maximized && !r.transparent,
    {
        WindowConfig {
            title: default_title(),
            width: default_width(),
            height: default_height(),
            resizable: true,
            fullscreen: false,
            maximized: false,
            decorations: true,
            transparent: false,
        }
    }
}

impl Default for RuntimeConfig {
    fn default() -> (r: Self)
        ensures
            r.mode == RuntimeMode::Auto,
            r.min_webview_version is None,
            r.bootstrap_url is None,
            r.bootstrap_sha256 is None,
    {
        RuntimeConfig {
            mode: default_mode(),
            min_webview_version: None,
            bootstrap_url: None,
            bootstrap_sha256: None,
        }
    }
}

impl Default for BuildConfig {
    fn default() -> (r: Self)
        ensures
            r.before_dev is None,
            r.before_build is None,
            r.targets@.len() == 0,
    {
        BuildConfig { before_dev: None, before_build: None, targets: Vec::new() }
    }
}

// ------------------------------------------------------------------ discovery

/// The failure of a search that found no configuration.
fn config_not_found() -> (e: RizonetError)
    ensures
        e matches RizonetError::Config(m) && m@
            == "rizonet.config.json not found in any ancestor directory"@,
{
    RizonetError::Config("rizonet.config.json not found in any ancestor directory".to_owned())
}

/// The failure to read the configuration file. `path` is the path as it is
/// quoted in messages, `cause` the wording of the failure.
fn config_unreadable(path: &str, cause: &str) -> (e: RizonetError)
    ensures
        e matches RizonetError::Config(m) && m@ == "cannot read "@ + path@ + ": "@ + cause@,
{
    let head: String = concat3("cannot read ", path, ": ");
    RizonetError::Config(concat2(head.as_str(), cause))
}

/// The failure to understand the configuration file. `path` is the path as it is
/// quoted in messages, `cause` the wording of the failure.
fn config_invalid(path: &str, cause: &str) -> (e: RizonetError)
    ensures
        e matches RizonetError::Config(m) && m@ == "invalid JSON in "@ + path@ + ": "@ + cause@,
{
    let head: String = concat3("invalid JSON in ", path, ": ");
    RizonetError::Config(concat2(head.as_str(), cause))
}

/// Whether `r` is the configuration error with that message.
pub open spec fn fails_with(r: Result<RizonetConfig, RizonetError>, message: Seq<char>) -> bool {
    r matches Err(RizonetError::Config(m)) && m@ == message
}

/// Whether `has_config` can say of each of the first `count` directories that it holds
/// no configuration.
pub open spec fn none_holds<H: Fn(usize) -> bool>(has_config: H, count: usize) -> bool {
    forall|i: usize| i < count ==> #[trigger] call_ensures(has_config, (i,), false)
}

impl RizonetConfig {
    /// Load the configuration from the text of its file, or from why it could not
    /// be read. `parse` understands the JSON text, `path` is the path as it is
    /// shown in messages.
    pub fn load<P: FnOnce(String) -> Result<RizonetConfig, String>>(
        path: &str,
        text: Result<String, String>,
        parse: P,
    ) -> (r: Result<RizonetConfig, RizonetError>)
        requires
            forall|t: String| #[trigger] call_requires(parse, (t,)),
        ensures
            match text {
                Err(cause) => fails_with(r, "cannot read "@ + path@ + ": "@ + cause@),
                Ok(t) => exists|parsed: Result<RizonetConfig, String>| #[trigger]
                    call_ensures(parse, (t,), parsed) && match parsed {
                        Ok(config) => r == Ok::<RizonetConfig, RizonetError>(config),
                        Err(cause) => fails_with(
                            r,
                            "invalid JSON in "@ + path@ + ": "@ + cause@,
                        ),
                    },
            },
    {
        match text {
            Err(cause) => Err(config_unreadable(path, cause.as_str())),
            Ok(t) => {
                assert(call_requires(parse, (t,)));
                match parse(t) {
                    Ok(config) => Ok(config),
                    Err(cause) => Err(config_invalid(path, cause.as_str())),
                }
            },
        }
    }

    /// Walk up from a directory looking for a `rizonet.config.json` file: the
    /// nearest of `count` directories that holds one, where directory 0 is the one
    /// to start from and each other the parent of the one before it. `has_config`
    /// tells whether a directory holds one.
    pub fn discover<H: Fn(usize) -> bool>(count: usize, has_config: H) -> (r: Result<
        usize,
        RizonetError,
    >)
        requires
            forall|i: usize| i < count ==> #[trigger] call_requires(has_config, (i,)),
        ensures
            match r {
                Ok(found) => {
                    &&& found < count
                    &&& call_ensures(has_config, (found,), true)
                    &&& forall|i: usize| i < found ==> #[trigger] call_ensures(has_config, (i,), false)
                },
                Err(e) => {
                    &&& e matches RizonetError::Config(m)
                    &&& m@ == "rizonet.config.json not found in any ancestor directory"@
                    &&& forall|i: usize| i < count ==> #[trigger] call_ensures(has_config, (i,), false)
                    &&& none_holds(has_config, count)
                },
            },
    {
        let mut at: usize = 0;
        while at < count
            invariant
                at <= count,
                forall|i: usize| i < count ==> #[trigger] call_requires(has_config, (i,)),
                forall|i: usize| i < at ==> #[trigger] call_ensures(has_config, (i,), false),
            decreases count - at,
        {
            assert(call_requires(has_config, (at,)));
            if has_config(at) {
                return Ok(at);
            }
            at = at + 1;
        }
        Err(config_not_found())
    }
}

// ----------------------------------------------------------------------- laws

/// Where a configuration is there to be found, the one that is found is the
/// nearest, whatever lies above it.
pub proof fn law_nearest_config<H: Fn(usize) -> bool>(
    has_config: H,
    present: Seq<bool>,
    found: usize,
    nearest: usize,
)
    requires
        forall|i: usize, yes: bool|
            i < present.len() && #[trigger] call_ensures(has_config, (i,), yes) ==> yes
                == present[i as int],
        nearest < present.len(),
        present[nearest as int],
        forall|i: int| 0 <= i < nearest ==> !present[i],
        found < present.len(),
        call_ensures(has_config, (found,), true),
        forall|i: usize| i < found ==> #[trigger] call_ensures(has_config, (i,), false),
    ensures
        found == nearest,
{
    if nearest < found {
        assert(call_ensures(has_config, (nearest,), false));
    }
}

/// A file that was read and understood gives its configuration as it is; else the
/// failure names the file and the cause, and tells reading from understanding.
pub proof fn law_configuration_is_loaded<P: FnOnce(String) -> Result<RizonetConfig, String>>(
    path: &str,
    text: Result<String, String>,
    parse: P,
    parsed: Result<RizonetConfig, String>,
    r: Result<RizonetConfig, RizonetError>,
)
    requires
        forall|t: String, outcome: Result<RizonetConfig, String>|
            text == Ok::<String, String>(t) && #[trigger] call_ensures(parse, (t,), outcome)
                ==> outcome == parsed,
        call_ensures(RizonetConfig::load::<P>, (path, text, parse), r),
    ensures
        r is Ok <==> text is Ok && parsed is Ok,
        r matches Ok(config) ==> parsed == Ok::<RizonetConfig, String>(config),
        text matches Err(why) ==> (r matches Err(RizonetError::Config(m)) && m@ == "cannot read "@
            + path@ + ": "@ + why@),
        text is Ok ==> (parsed matches Err(why) ==> (r matches Err(RizonetError::Config(m)) && m@
            == "invalid JSON in "@ + path@ + ": "@ + why@)),
{
}

/// The search goes up until it finds a configuration: it fails exactly when none of
/// the directories holds one.
pub proof fn law_search_ends_at_the_first<H: Fn(usize) -> bool>(
    count: usize,
    has_config: H,
    present: Seq<bool>,
    r: Result<usize, RizonetError>,
    i: int,
)
    requires
        present.len() == count,
        forall|k: usize, yes: bool|
            k < count && #[trigger] call_ensures(has_config, (k,), yes) ==> yes
                == present[k as int],
        call_ensures(RizonetConfig::discover::<H>, (count, has_config), r),
        0 <= i < count,
    ensures
        present[i] ==> (r matches Ok(found) && found <= i),
        r matches Ok(found) ==> found < count && present[found as int],
        r matches Ok(found) ==> (i < found ==> !present[i]),
        r matches Err(e) ==> (e matches RizonetError::Config(m) && m@
            == "rizonet.config.json not found in any ancestor directory"@),
{
    let k = i as usize;
    match r {
        Ok(found) => {
            if i < found {
                assert(call_ensures(has_config, (k,), false));
            }
        },
        Err(_) => {
            assert(none_holds(has_config, count));
            assert(call_ensures(has_config, (k,), false));
        },
    }
}

} // verus!
