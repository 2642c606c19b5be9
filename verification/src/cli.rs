//! The `rizonet` command-line interface: what its subcommands write, run and print.
//!
//! - `rizonet new <name>`       : Scaffold a new project.
//! - `rizonet dev`              : Run the current project in dev mode.
//! - `rizonet build`            : Build the current project in release mode.
//! - `rizonet info`             : Print environment diagnostics.
//! - `rizonet update-check ...` : Check a remote manifest for updates.

use crate::json::{
    json_members, json_pretty, json_quoted, json_text, member_texts, null_value, number_value,
    object_value, pretty_text, text_value,
};
use crate::text::{ascii_lower, chars_of, concat2, concat3, decimal, lower_char, same_text, texts};
use crate::updater::UpdateInfo;
use serde_json::Value;
use vstd::prelude::*;
use vstd::string::StringExecFns;

verus! {

/// The only template there is.
pub const TEMPLATE: &'static str = "vanilla";

/// Whether a character is an ASCII letter or digit.
pub open spec fn is_alphanumeric(c: char) -> bool {
    ('a' <= c <= 'z') || ('A' <= c <= 'Z') || ('0' <= c <= '9')
}

/// A character as it may stand in an identifier.
pub open spec fn ident_char(c: char) -> char {
    if is_alphanumeric(c) {
        ascii_lower(c)
    } else {
        '_'
    }
}

/// A name as an identifier: ASCII letters in lower case and digits, and an
/// underscore for every other character.
pub open spec fn sanitized(name: Seq<char>) -> Seq<char> {
    name.map_values(|c: char| ident_char(c))
}

/// A name as an identifier: ASCII letters in lower case and digits, and an
/// underscore for every other character.
pub fn sanitize_ident(name: &str) -> (r: String)
    ensures
        r@ == sanitized(name@),
{
    let chars: Vec<char> = chars_of(name);
    let mut r: String = String::new();
    let mut i: usize = 0;
    while i < chars.len()
        invariant
            i <= chars@.len(),
            r@ == sanitized(chars@.take(i as int)),
        decreases chars@.len() - i,
    {
        let c: char = chars[i];
        let alphanumeric: bool = ('a' <= c && c <= 'z') || ('A' <= c && c <= 'Z') || ('0' <= c && c
            <= '9');
        r.push(
            if alphanumeric {
                lower_char(c)
            } else {
                '_'
            },
        );
        proof {
            assert(chars@.take(i + 1) =~= chars@.take(i as int).push(c));
            assert(sanitized(chars@.take(i + 1)) =~= sanitized(chars@.take(i as int)).push(
                ident_char(c),
            ));
        }
        i = i + 1;
    }
    assert(chars@.take(i as int) =~= chars@);
    r
}

// ------------------------------------------------------------------ scaffolding

/// The settings of a new project's `rizonet.config.json`.
#[derive(Debug)]
pub struct ProjectConfig {
    pub name: String,
    pub identifier: String,
    pub dist_dir: String,
    pub title: String,
    pub width: u32,
    pub height: u32,
    pub runtime_mode: String,
}

/// What makes up a new project: directories, the configuration, and files with
/// their contents. All paths are relative to the directory of the project.
#[derive(Debug)]
pub struct ProjectPlan {
    pub directories: Vec<String>,
    pub config_path: String,
    pub config: ProjectConfig,
    pub files: Vec<(String, String)>,
}

/// The texts of a list of files.
pub open spec fn file_texts(files: Seq<(String, String)>) -> Seq<(Seq<char>, Seq<char>)> {
    files.map_values(|f: (String, String)| (f.0@, f.1@))
}

impl ProjectPlan {
    /// Whether this is the plan of a project with that name.
    pub open spec fn scaffolds(self, name: Seq<char>) -> bool {
        &&& texts(self.directories@) == seq!["dist"@, "src-rizonet/src"@]
        &&& self.config_path@ == "rizonet.config.json"@
        &&& self.config.name@ == name
        &&& self.config.identifier@ == "net.rizonet."@ + sanitized(name)
        &&& self.config.dist_dir@ == "dist"@
        &&& self.config.title@ == name
        &&& self.config.width == 1024
        &&& self.config.height == 768
        &&& self.config.runtime_mode@ == "auto"@
        &&& file_texts(self.files@) == seq![
            ("dist/index.html"@, TEMPLATE_INDEX_HTML@),
            ("src-rizonet/Cargo.toml"@, cargo_toml(name)),
            ("src-rizonet/src/main.rs"@, TEMPLATE_MAIN_RS@),
        ]
    }
}

/// The plan of a new project, or why there can be none: the template is unknown,
/// or something is in its place (`exists`; `shown` is how the place is shown).
pub fn new_project(name: &str, template: &str, exists: bool, shown: &str) -> (r: Result<
    ProjectPlan,
    String,
>)
    ensures
        match r {
            Ok(plan) => template@ == TEMPLATE@ && !exists && plan.scaffolds(name@),
            Err(e) => if template@ != TEMPLATE@ {
                e@ == "unknown template: "@ + template@ + ". available: vanilla"@
            } else {
                exists && e@ == shown@ + " already exists"@
            },
        },
{
    if !same_text(template, TEMPLATE) {
        return Err(concat3("unknown template: ", template, ". available: vanilla"));
    }
    if exists {
        return Err(concat2(shown, " already exists"));
    }
    let mut directories: Vec<String> = Vec::new();
    directories.push("dist".to_owned());
    directories.push("src-rizonet/src".to_owned());
    let config: ProjectConfig = ProjectConfig {
        name: name.to_owned(),
        identifier: concat2("net.rizonet.", sanitize_ident(name).as_str()),
        dist_dir: "dist".to_owned(),
        title: name.to_owned(),
        width: 1024,
        height: 768,
        runtime_mode: "auto".to_owned(),
    };
    let mut files: Vec<(String, String)> = Vec::new();
    files.push(("dist/index.html".to_owned(), TEMPLATE_INDEX_HTML.to_owned()));
    files.push(("src-rizonet/Cargo.toml".to_owned(), app_cargo_toml(name)));
    files.push(("src-rizonet/src/main.rs".to_owned(), TEMPLATE_MAIN_RS.to_owned()));
    proof {
        assert(texts(directories@) =~= seq!["dist"@, "src-rizonet/src"@]);
        assert(file_texts(files@) =~= seq![
            ("dist/index.html"@, TEMPLATE_INDEX_HTML@),
            ("src-rizonet/Cargo.toml"@, cargo_toml(name@)),
            ("src-rizonet/src/main.rs"@, TEMPLATE_MAIN_RS@),
        ]);
    }
    Ok(ProjectPlan { directories, config_path: "rizonet.config.json".to_owned(), config, files })
}

/// The settings of an app in its configuration: each name with its JSON text.
pub open spec fn app_settings(c: ProjectConfig) -> Map<Seq<char>, Seq<char>> {
    map![
        "name"@ => json_quoted(c.name@),
        "identifier"@ => json_quoted(c.identifier@),
        "dev_url"@ => "null"@,
        "dist_dir"@ => json_quoted(c.dist_dir@),
    ]
}

/// The settings of the window in the configuration.
pub open spec fn window_settings(c: ProjectConfig) -> Map<Seq<char>, Seq<char>> {
    map![
        "title"@ => json_quoted(c.title@),
        "width"@ => decimal(c.width as nat),
        "height"@ => decimal(c.height as nat),
    ]
}

/// The settings of the runtime in the configuration.
pub open spec fn runtime_settings(c: ProjectConfig) -> Map<Seq<char>, Seq<char>> {
    map!["mode"@ => json_quoted(c.runtime_mode@)]
}

/// Whether `text` is the text of a configuration with these settings: the JSON text,
/// over several lines, of an object with an object each for the app, the window and
/// the runtime.
pub open spec fn configures(c: ProjectConfig, text: Seq<char>) -> bool {
    exists|config: Value, app: Value, window: Value, runtime: Value|
        {
            &&& text == json_pretty(config)
            &&& #[trigger] json_members(config) == map![
                "app"@ => #[trigger] json_text(app),
                "window"@ => #[trigger] json_text(window),
                "runtime"@ => #[trigger] json_text(runtime),
            ]
            &&& json_members(app) == app_settings(c)
            &&& json_members(window) == window_settings(c)
            &&& json_members(runtime) == runtime_settings(c)
        }
}

/// The names of the settings of one object differ.
proof fn lemma_settings_differ()
    ensures
        "name"@ != "identifier"@,
        "name"@ != "dev_url"@,
        "name"@ != "dist_dir"@,
        "identifier"@ != "dev_url"@,
        "identifier"@ != "dist_dir"@,
        "dev_url"@ != "dist_dir"@,
        "title"@ != "width"@,
        "title"@ != "height"@,
        "width"@ != "height"@,
        "app"@ != "window"@,
        "app"@ != "runtime"@,
        "window"@ != "runtime"@,
{
    reveal_strlit("name");
    reveal_strlit("identifier");
    reveal_strlit("dev_url");
    reveal_strlit("dist_dir");
    reveal_strlit("title");
    reveal_strlit("width");
    reveal_strlit("height");
    reveal_strlit("app");
    reveal_strlit("window");
    reveal_strlit("runtime");
    assert("name"@.len() == 4 && "identifier"@.len() == 10);
    assert("dev_url"@.len() == 7 && "dist_dir"@.len() == 8);
    assert("title"@[0] == 't' && "width"@[0] == 'w' && "height"@[0] == 'h');
    assert("app"@.len() == 3 && "window"@.len() == 6 && "runtime"@.len() == 7);
}

/// The text of the `rizonet.config.json` of a new project.
pub fn config_text(c: &ProjectConfig) -> (r: String)
    ensures
        configures(*c, r@),
{
    proof {
        lemma_settings_differ();
    }
    let mut members: Vec<(String, Value)> = Vec::new();
    members.push(("name".to_owned(), text_value(c.name.clone())));
    members.push(("identifier".to_owned(), text_value(c.identifier.clone())));
    members.push(("dev_url".to_owned(), null_value()));
    members.push(("dist_dir".to_owned(), text_value(c.dist_dir.clone())));
    let ghost app_members = members@;
    let app: Value = object_value(members);
    let mut members: Vec<(String, Value)> = Vec::new();
    members.push(("title".to_owned(), text_value(c.title.clone())));
    members.push(("width".to_owned(), number_value(c.width)));
    members.push(("height".to_owned(), number_value(c.height)));
    let ghost window_members = members@;
    let window: Value = object_value(members);
    let mut members: Vec<(String, Value)> = Vec::new();
    members.push(("mode".to_owned(), text_value(c.runtime_mode.clone())));
    let ghost runtime_members = members@;
    let runtime: Value = object_value(members);
    let ghost (a, w, rt) = (app, window, runtime);
    let mut members: Vec<(String, Value)> = Vec::new();
    members.push(("app".to_owned(), app));
    members.push(("window".to_owned(), window));
    members.push(("runtime".to_owned(), runtime));
    let ghost config_members = members@;
    let config: Value = object_value(members);
    proof {
        reveal_with_fuel(member_texts, 5);
        assert(member_texts(app_members) =~= app_settings(*c));
        assert(member_texts(window_members) =~= window_settings(*c));
        assert(member_texts(runtime_members) =~= runtime_settings(*c));
        assert(member_texts(config_members) =~= map![
            "app"@ => json_text(a),
            "window"@ => json_text(w),
            "runtime"@ => json_text(rt),
        ]);
    }
    match pretty_text(&config) {
        Ok(text) => text,
        Err(e) => e,
    }
}

/// The manifest of a new project's crate, up to the name of the crate.
pub const MANIFEST_HEAD: &'static str = "[package]\nname = \"";

/// The manifest of a new project's crate, from behind the name of the crate.
pub const MANIFEST_TAIL: &'static str = r#""
version = "0.1.0"
edition = "2021"

[dependencies]
rizonet-core = { path = "../../../crates/rizonet-core" }
serde_json = "1"
tracing-subscriber = "0.3"
"#;

/// The manifest of the crate of a project with that name.
pub open spec fn cargo_toml(name: Seq<char>) -> Seq<char> {
    MANIFEST_HEAD@ + sanitized(name) + MANIFEST_TAIL@
}

/// The manifest of the crate of a project with that name.
pub fn app_cargo_toml(name: &str) -> (r: String)
    ensures
        r@ == cargo_toml(name@),
{
    concat3(MANIFEST_HEAD, sanitize_ident(name).as_str(), MANIFEST_TAIL)
}

/// What is printed after a project was created, at a place that is shown so.
pub fn created_report(name: &str, shown: &str) -> (r: String)
    ensures
        r@ == "✨ Rizonet project created at "@ + shown@ + "\n   next:\n     cd "@ + name@
            + "\n     rizonet dev\n"@,
{
    let mut r: String = concat3("✨ Rizonet project created at ", shown, "\n   next:\n     cd ");
    r.append(name);
    r.append("\n     rizonet dev\n");
    r
}

// ---------------------------------------------------------------------- cargo

/// The environment variable that tells an app that it runs in dev mode.
pub const DEV_VAR: &'static str = "RIZONET_DEV";

/// The directory of the app's crate, below that of the project.
pub const APP_CRATE_DIR: &'static str = "src-rizonet";

/// What `cargo` has to be run with, in the directory of the app's crate.
#[derive(Debug)]
pub struct CargoCommand {
    pub args: Vec<String>,
    /// Whether `RIZONET_DEV` is set to 1.
    pub dev: bool,
}

/// How `cargo` runs the app in dev mode, or builds it in release mode. Fails where
/// the crate has no manifest (`shown` is how the directory of the project is shown).
pub fn cargo_command(dev: bool, has_manifest: bool, shown: &str) -> (r: Result<
    CargoCommand,
    String,
>)
    ensures
        match r {
            Ok(cmd) => has_manifest && cmd.dev == dev && texts(cmd.args@) == if dev {
                seq!["run"@]
            } else {
                seq!["build"@, "--release"@]
            },
            Err(e) => !has_manifest && e@ == "src-rizonet/Cargo.toml not found under "@ + shown@
                + ". Did you run `rizonet new`?"@,
        },
{
    if !has_manifest {
        return Err(
            concat3(
                "src-rizonet/Cargo.toml not found under ",
                shown,
                ". Did you run `rizonet new`?",
            ),
        );
    }
    let mut args: Vec<String> = Vec::new();
    if dev {
        args.push("run".to_owned());
        assert(texts(args@) =~= seq!["run"@]);
    } else {
        args.push("build".to_owned());
        args.push("--release".to_owned());
        assert(texts(args@) =~= seq!["build"@, "--release"@]);
    }
    Ok(CargoCommand { args, dev })
}

/// What the end of `cargo` comes to: nothing where it succeeded, else a failure
/// that shows its status.
pub fn cargo_outcome(success: bool, status: &str) -> (r: Result<(), String>)
    ensures
        match r {
            Ok(_) => success,
            Err(e) => !success && e@ == "cargo exited with status "@ + status@,
        },
{
    if success {
        Ok(())
    } else {
        Err(concat2("cargo exited with status ", status))
    }
}

// -------------------------------------------------------------------- reports

/// What `rizonet update-check` prints.
pub open spec fn update_text(current: Seq<char>, info: Option<UpdateInfo>) -> Seq<char> {
    match info {
        None => "up to date (current: "@ + current + ")\n"@,
        Some(i) => {
            let head = "update available: "@ + current + " -> "@ + i.manifest.version@ + " ("@
                + i.platform@ + ")\n"@;
            let notes = if i.manifest.notes@.len() == 0 {
                Seq::empty()
            } else {
                "\nnotes:\n"@ + i.manifest.notes@ + "\n"@
            };
            head + notes + ("\nartifact: "@ + i.artifact.url@ + "\n"@)
        },
    }
}

/// What `rizonet update-check` prints.
pub fn update_report(current: &str, info: &Option<UpdateInfo>) -> (r: String)
    ensures
        r@ == update_text(current@, *info),
        info is None ==> r@ == "up to date (current: "@ + current@ + ")\n"@,
{
    match info {
        None => concat3("up to date (current: ", current, ")\n"),
        Some(i) => {
            let mut r: String = concat3("update available: ", current, " -> ");
            r.append(i.manifest.version.as_str());
            r.append(" (");
            r.append(i.platform.as_str());
            r.append(")\n");
            let ghost head = r@;
            let empty: bool = same_text(i.manifest.notes.as_str(), "");
            proof {
                reveal_strlit("");
                assert(empty <==> i.manifest.notes@.len() == 0) by {
                    if i.manifest.notes@.len() == 0 {
                        assert(i.manifest.notes@ =~= ""@);
                    }
                }
            }
            if !empty {
                let notes: String = concat3("\nnotes:\n", i.manifest.notes.as_str(), "\n");
                r.append(notes.as_str());
            }
            let artifact: String = concat3("\nartifact: ", i.artifact.url.as_str(), "\n");
            r.append(artifact.as_str());
            proof {
                if empty {
                    assert(head + Seq::<char>::empty() =~= head);
                }
            }
            r
        },
    }
}

/// What `rizonet info` prints.
pub open spec fn info_text(
    version: Seq<char>,
    os: Seq<char>,
    arch: Seq<char>,
    on_windows: bool,
) -> Seq<char> {
    let common = "Rizonet v"@ + version + "\nOS: "@ + os + "\nARCH: "@ + arch + "\n"@;
    if on_windows {
        common + "WebView2: (check `Get-AppxPackage *WebView*` in PowerShell)\n"@
    } else {
        common
    }
}

/// What `rizonet info` prints.
pub fn info_report(version: &str, os: &str, arch: &str, on_windows: bool) -> (r: String)
    ensures
        r@ == info_text(version@, os@, arch@, on_windows),
{
    let mut r: String = concat3("Rizonet v", version, "\nOS: ");
    r.append(os);
    r.append("\nARCH: ");
    r.append(arch);
    r.append("\n");
    if on_windows {
        r.append("WebView2: (check `Get-AppxPackage *WebView*` in PowerShell)\n");
    }
    r
}

// ----------------------------------------------------------------------- laws

/// The configuration of a new project is named after it: its app and its window bear
/// its name, its identifier is made from it, and everything else is as in every new
/// project.
pub proof fn law_project_is_configured(plan: ProjectPlan, name: Seq<char>)
    requires
        plan.scaffolds(name),
    ensures
        app_settings(plan.config)["name"@] == json_quoted(name),
        app_settings(plan.config)["identifier"@] == json_quoted("net.rizonet."@ + sanitized(name)),
        app_settings(plan.config)["dev_url"@] == "null"@,
        app_settings(plan.config)["dist_dir"@] == json_quoted("dist"@),
        window_settings(plan.config)["title"@] == json_quoted(name),
        window_settings(plan.config)["width"@] == decimal(1024),
        window_settings(plan.config)["height"@] == decimal(768),
        runtime_settings(plan.config)["mode"@] == json_quoted("auto"@),
{
    lemma_settings_differ();
}

/// An identifier is made of lower-case ASCII letters, digits and underscores, one
/// for each character of the name.
pub proof fn law_identifiers_are_plain(name: Seq<char>, i: int)
    requires
        0 <= i < name.len(),
    ensures
        sanitized(name).len() == name.len(),
        ({
            let c = sanitized(name)[i];
            ('a' <= c <= 'z') || ('0' <= c <= '9') || c == '_'
        }),
{
}

/// An identifier stays as it is.
pub proof fn law_sanitizing_is_idempotent(name: Seq<char>)
    ensures
        sanitized(sanitized(name)) == sanitized(name),
{
    assert(sanitized(sanitized(name)) =~= sanitized(name));
}

// ------------------------------------------------------------------- templates

/// The index page of a new project.
pub const TEMPLATE_INDEX_HTML: &'static str = r#"<!doctype html>
<html lang="en">
<head>
  <meta charset="utf-8" />
  <title>Rizonet</title>
  <style>
    :root { color-scheme: light dark; }
    body {
      font-family: system-ui, -apple-system, "Segoe UI", sans-serif;
      margin: 0; padding: 2rem;
      display: grid; place-items: center; min-height: 100vh;
      background: linear-gradient(135deg, #0ea5e9, #8b5cf6);
      color: white;
    }
    .card {
      background: rgba(0,0,0,0.35);
      backdrop-filter: blur(12px);
      padding: 2rem 3rem; border-radius: 1rem;
      box-shadow: 0 10px 40px rgba(0,0,0,0.3);
      text-align: center;
    }
    h1 { margin: 0 0 .5rem; font-size: 2.5rem; }
    button {
      margin-top: 1rem; padding: .6rem 1.2rem; border: 0; border-radius: .5rem;
      background: white; color: #111; font-weight: 600; cursor: pointer;
    }
    pre { text-align: left; background: rgba(0,0,0,0.4); padding: 1rem; border-radius: .5rem; }
  </style>
</head>
<body>
  <div class="card">
    <h1>⚡ Rizonet</h1>
    <p>Lightweight, fast, and environment-independent &mdash; the ultimate desktop framework.</p>
    <button id="ping">ping Rust</button>
    <pre id="out">—</pre>
  </div>
  <script>
    document.getElementById('ping').addEventListener('click', async () => {
      try {
        const r = await window.__RIZONET__.invoke('ping', { from: 'web' });
        document.getElementById('out').textContent = JSON.stringify(r, null, 2);
      } catch (e) {
        document.getElementById('out').textContent = 'error: ' + e.message;
      }
    });
  </script>
</body>
</html>
"#;

/// The main program of a new project.
pub const TEMPLATE_MAIN_RS: &'static str = r##"use rizonet_core::{AppBuilder, IpcHandler, RizonetConfig};
use serde_json::json;

fn main() -> rizonet_core::Result<()> {
    tracing_subscriber::fmt().init();

    let (mut cfg, cfg_path) =
        RizonetConfig::discover(std::env::current_dir().unwrap()).unwrap();
    let project_root = cfg_path.parent().unwrap().to_path_buf();

    // When `dev_url` is not configured, dev mode falls back to loading
    // `dist/index.html` through a `file://` URL, which keeps the dev
    // loop trivial for pure-static frontends.
    let dev = std::env::var("RIZONET_DEV").is_ok();
    let _ = &mut cfg;

    let ipc = IpcHandler::new().register("ping", |payload| {
        Ok(json!({
            "pong": true,
            "echo": payload,
            "runtime": "rizonet"
        }))
    });

    AppBuilder::new(cfg)
        .ipc(ipc)
        .dev_mode(dev)
        .project_root(project_root)
        .run()
}
"##;

/// Each character of a name stands in the identifier at the same place: a capital
/// ASCII letter as the small one, a small letter or a digit as it is, and any other
/// character as an underscore.
pub proof fn law_identifier_of_a_name(name: &str, r: String, i: int)
    requires
        call_ensures(sanitize_ident, (name,), r),
        0 <= i < name@.len(),
    ensures
        r@.len() == name@.len(),
        ({
            let (c, d) = (name@[i], r@[i]);
            let capital = 'A' <= c <= 'Z';
            let kept = ('a' <= c <= 'z') || ('0' <= c <= '9');
            &&& capital ==> d as u32 == c as u32 + 32
            &&& kept ==> d == c
            &&& !capital && !kept ==> d == '_'
        }),
        r@ == sanitized(name@),
{
}

/// A project is planned for the template that there is, where nothing is in its place;
/// it is named as asked.
pub proof fn law_project_is_planned(
    name: &str,
    template: &str,
    taken: bool,
    shown: &str,
    r: Result<ProjectPlan, String>,
)
    requires
        call_ensures(new_project, (name, template, taken, shown), r),
    ensures
        r is Ok <==> template@ == "vanilla"@ && !taken,
        template@ != "vanilla"@ ==> (r matches Err(e) && e@ == "unknown template: "@ + template@
            + ". available: vanilla"@),
        template@ == "vanilla"@ && taken ==> (r matches Err(e) && e@ == shown@
            + " already exists"@),
        r matches Ok(plan) ==> {
            &&& plan.config_path@ == "rizonet.config.json"@
            &&& plan.config.name@ == name@ && plan.config.title@ == name@
            &&& plan.config.identifier@ == "net.rizonet."@ + sanitized(name@)
            &&& plan.config.dist_dir@ == "dist"@
            &&& plan.config.width == 1024 && plan.config.height == 768
            &&& plan.config.runtime_mode@ == "auto"@
        },
{
}

/// A new project has a directory for its assets with the index page, and one for its
/// crate with the manifest and the main program, and nothing else.
pub proof fn law_files_of_a_project(
    name: &str,
    template: &str,
    shown: &str,
    r: Result<ProjectPlan, String>,
)
    requires
        call_ensures(new_project, (name, template, false, shown), r),
        template@ == "vanilla"@,
    ensures
        r matches Ok(plan) && {
            &&& plan.directories@.len() == 2
            &&& plan.directories@[0]@ == "dist"@
            &&& plan.directories@[1]@ == "src-rizonet/src"@
            &&& plan.files@.len() == 3
            &&& plan.files@[0].0@ == "dist/index.html"@ && plan.files@[0].1@
                == TEMPLATE_INDEX_HTML@
            &&& plan.files@[1].0@ == "src-rizonet/Cargo.toml"@ && plan.files@[1].1@ == MANIFEST_HEAD@
                + sanitized(name@) + MANIFEST_TAIL@
            &&& plan.files@[2].0@ == "src-rizonet/src/main.rs"@ && plan.files@[2].1@
                == TEMPLATE_MAIN_RS@
        },
{
    let plan = r->Ok_0;
    let dirs = texts(plan.directories@);
    assert(dirs.len() == plan.directories@.len());
    assert(dirs[0] == plan.directories@[0]@ && dirs[1] == plan.directories@[1]@);
    let files = file_texts(plan.files@);
    assert(files.len() == plan.files@.len());
    assert(files[0] == (plan.files@[0].0@, plan.files@[0].1@));
    assert(files[1] == (plan.files@[1].0@, plan.files@[1].1@));
    assert(files[2] == (plan.files@[2].0@, plan.files@[2].1@));
}

/// The text of a configuration holds the settings as they are: an object each for the
/// app, the window and the runtime, and no other members.
pub proof fn law_configuration_holds_the_settings(c: &ProjectConfig, r: String)
    requires
        call_ensures(config_text, (c,), r),
    ensures
        exists|config: Value, app: Value, window: Value, runtime: Value|
            {
                &&& r@ == json_pretty(config)
                &&& #[trigger] json_members(config) == map![
                    "app"@ => #[trigger] json_text(app),
                    "window"@ => #[trigger] json_text(window),
                    "runtime"@ => #[trigger] json_text(runtime),
                ]
                &&& json_members(app) == map![
                    "name"@ => json_quoted(c.name@),
                    "identifier"@ => json_quoted(c.identifier@),
                    "dev_url"@ => "null"@,
                    "dist_dir"@ => json_quoted(c.dist_dir@),
                ]
                &&& json_members(window) == map![
                    "title"@ => json_quoted(c.title@),
                    "width"@ => decimal(c.width as nat),
                    "height"@ => decimal(c.height as nat),
                ]
                &&& json_members(runtime) == map!["mode"@ => json_quoted(c.runtime_mode@)]
            },
{
}

/// The manifest of a project's crate depends on the identifier alone.
pub proof fn law_manifest_names_the_crate(name: &str, r: String)
    requires
        call_ensures(app_cargo_toml, (name,), r),
    ensures
        r@ == MANIFEST_HEAD@ + sanitized(name@) + MANIFEST_TAIL@,
{
}

/// `cargo` is run exactly when there is a manifest: to run the app in dev mode, which
/// the app is told, and else to build it in release mode.
pub proof fn law_cargo_runs_or_builds(
    dev: bool,
    has_manifest: bool,
    shown: &str,
    r: Result<CargoCommand, String>,
)
    requires
        call_ensures(cargo_command, (dev, has_manifest, shown), r),
    ensures
        r is Ok <==> has_manifest,
        r matches Ok(cmd) ==> cmd.dev == dev,
        r matches Ok(cmd) ==> (dev ==> cmd.args@.len() == 1 && cmd.args@[0]@ == "run"@),
        r matches Ok(cmd) ==> (!dev ==> cmd.args@.len() == 2 && cmd.args@[0]@ == "build"@
            && cmd.args@[1]@ == "--release"@),
        r matches Err(e) ==> e@ == "src-rizonet/Cargo.toml not found under "@ + shown@
            + ". Did you run `rizonet new`?"@,
{
    match r {
        Ok(cmd) => {
            let args = texts(cmd.args@);
            assert(args.len() == cmd.args@.len());
            assert(args[0] == cmd.args@[0]@);
            if !dev {
                assert(args[1] == cmd.args@[1]@);
            }
        },
        Err(_) => {},
    }
}

/// The report on updates tells the running version, and where there is an update the
/// offered one, its platform, its notes where there are any, and its address.
pub proof fn law_report_tells_the_update(current: &str, info: &Option<UpdateInfo>, r: String)
    requires
        call_ensures(update_report, (current, info), r),
    ensures
        info is None ==> r@ == "up to date (current: "@ + current@ + ")\n"@,
        info matches Some(i) ==> {
            let first = "update available: "@ + current@ + " -> "@ + i.manifest.version@ + " ("@
                + i.platform@ + ")\n"@;
            let last = "\nartifact: "@ + i.artifact.url@ + "\n"@;
            &&& i.manifest.notes@.len() == 0 ==> r@ == first + last
            &&& i.manifest.notes@.len() > 0 ==> r@ == first + ("\nnotes:\n"@ + i.manifest.notes@
                + "\n"@) + last
        },
{
    match info {
        Some(i) => {
            let first = "update available: "@ + current@ + " -> "@ + i.manifest.version@ + " ("@
                + i.platform@ + ")\n"@;
            assert(first + Seq::<char>::empty() =~= first);
        },
        None => {},
    }
}

/// The report on the environment tells the version, the system and the architecture,
/// and on Windows how to look for the WebView.
pub proof fn law_report_tells_the_environment(
    version: &str,
    os: &str,
    arch: &str,
    on_windows: bool,
    r: String,
)
    requires
        call_ensures(info_report, (version, os, arch, on_windows), r),
    ensures
        ({
            let common = "Rizonet v"@ + version@ + "\nOS: "@ + os@ + "\nARCH: "@ + arch@ + "\n"@;
            &&& !on_windows ==> r@ == common
            &&& on_windows ==> r@ == common
                + "WebView2: (check `Get-AppxPackage *WebView*` in PowerShell)\n"@
        }),
{
}

} // verus!
