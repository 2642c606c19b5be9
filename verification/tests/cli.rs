use rizonet_core::cli::{
    app_cargo_toml, cargo_command, cargo_outcome, config_text, created_report, info_report, new_project,
    sanitize_ident, update_report, TEMPLATE_INDEX_HTML, TEMPLATE_MAIN_RS,
};
use rizonet_core::name_map::NameMap;
use rizonet_core::{Artifact, UpdateInfo, UpdateManifest};

#[test]
fn names_become_identifiers() {
    assert_eq!(sanitize_ident("My App-2"), "my_app_2");
    assert_eq!(sanitize_ident("äß!"), "___");
    assert_eq!(sanitize_ident(""), "");
    assert_eq!(sanitize_ident(&sanitize_ident("A.b_C")), "a_b_c");
}

#[test]
fn project_is_planned() {
    let plan = new_project("My App", "vanilla", false, "\"My App\"").unwrap();
    assert_eq!(plan.directories, vec!["dist", "src-rizonet/src"]);
    assert_eq!(plan.config_path, "rizonet.config.json");
    assert_eq!(plan.config.name, "My App");
    assert_eq!(plan.config.identifier, "net.rizonet.my_app");
    assert_eq!(plan.config.title, "My App");
    assert_eq!((plan.config.width, plan.config.height), (1024, 768));
    assert_eq!((plan.config.dist_dir.as_str(), plan.config.runtime_mode.as_str()), ("dist", "auto"));
    let paths: Vec<&str> = plan.files.iter().map(|f| f.0.as_str()).collect();
    assert_eq!(paths, vec!["dist/index.html", "src-rizonet/Cargo.toml", "src-rizonet/src/main.rs"]);
    assert_eq!(plan.files[0].1, TEMPLATE_INDEX_HTML);
    assert_eq!(plan.files[1].1, app_cargo_toml("My App"));
    assert_eq!(plan.files[2].1, TEMPLATE_MAIN_RS);
}

#[test]
fn configuration_text_holds_the_settings() {
    let plan = new_project("My \"App\"", "vanilla", false, "\"x\"").unwrap();
    let text = config_text(&plan.config);
    assert!(text.starts_with("{\n  \"app\": {\n"));
    let json: serde_json::Value = serde_json::from_str(&text).unwrap();
    assert_eq!(json["app"]["name"], "My \"App\"");
    assert_eq!(json["app"]["identifier"], "net.rizonet.my__app_");
    assert!(json["app"]["dev_url"].is_null());
    assert_eq!(json["app"]["dist_dir"], "dist");
    assert_eq!(json["window"]["title"], "My \"App\"");
    assert_eq!(json["window"]["width"], 1024);
    assert_eq!(json["window"]["height"], 768);
    assert_eq!(json["runtime"]["mode"], "auto");
    assert_eq!(json.as_object().unwrap().len(), 3);
    assert_eq!(json["app"].as_object().unwrap().len(), 4);
    assert_eq!(json["window"].as_object().unwrap().len(), 3);
    assert_eq!(json["runtime"].as_object().unwrap().len(), 1);
}

#[test]
fn project_that_cannot_be_created_is_refused() {
    assert_eq!(
        new_project("a", "react", true, "\"a\"").unwrap_err(),
        "unknown template: react. available: vanilla"
    );
    assert_eq!(new_project("a", "vanilla", true, "\"a\"").unwrap_err(), "\"a\" already exists");
}

#[test]
fn manifest_names_the_crate() {
    assert_eq!(
        app_cargo_toml("My App"),
        "[package]\nname = \"my_app\"\nversion = \"0.1.0\"\nedition = \"2021\"\n\n\
         [dependencies]\nrizonet-core = { path = \"../../../crates/rizonet-core\" }\n\
         serde_json = \"1\"\ntracing-subscriber = \"0.3\"\n"
    );
}

#[test]
fn templates_are_complete() {
    assert!(TEMPLATE_INDEX_HTML.starts_with("<!doctype html>\n"));
    assert!(TEMPLATE_INDEX_HTML.contains("<h1>⚡ Rizonet</h1>"));
    assert!(TEMPLATE_INDEX_HTML.ends_with("</html>\n"));
    assert!(TEMPLATE_MAIN_RS.starts_with("use rizonet_core::{AppBuilder, IpcHandler, RizonetConfig};\n"));
    assert!(TEMPLATE_MAIN_RS.ends_with("        .run()\n}\n"));
}

#[test]
fn creation_is_reported() {
    assert_eq!(
        created_report("app", "\"app\""),
        "✨ Rizonet project created at \"app\"\n   next:\n     cd app\n     rizonet dev\n"
    );
}

#[test]
fn cargo_is_run_for_dev_and_build() {
    let dev = cargo_command(true, true, "\"p\"").unwrap();
    assert_eq!(dev.args, vec!["run"]);
    assert!(dev.dev);
    let build = cargo_command(false, true, "\"p\"").unwrap();
    assert_eq!(build.args, vec!["build", "--release"]);
    assert!(!build.dev);
    assert_eq!(
        cargo_command(true, false, "\"p\"").unwrap_err(),
        "src-rizonet/Cargo.toml not found under \"p\". Did you run `rizonet new`?"
    );
    assert_eq!(cargo_outcome(true, "exit status: 0"), Ok(()));
    assert_eq!(
        cargo_outcome(false, "exit status: 101"),
        Err("cargo exited with status exit status: 101".to_string())
    );
}

fn update(notes: &str) -> Option<UpdateInfo> {
    Some(UpdateInfo {
        manifest: UpdateManifest {
            version: "0.2.0".to_string(),
            notes: notes.to_string(),
            artifacts: NameMap::new(),
        },
        artifact: Artifact { url: "https://x".to_string(), sha256: "00".to_string() },
        platform: "linux-x86_64".to_string(),
    })
}

#[test]
fn updates_are_reported() {
    assert_eq!(update_report("0.1.0", &None), "up to date (current: 0.1.0)\n");
    assert_eq!(
        update_report("0.1.0", &update("")),
        "update available: 0.1.0 -> 0.2.0 (linux-x86_64)\n\nartifact: https://x\n"
    );
    assert_eq!(
        update_report("0.1.0", &update("What's new")),
        "update available: 0.1.0 -> 0.2.0 (linux-x86_64)\n\nnotes:\nWhat's new\n\n\
         artifact: https://x\n"
    );
}

#[test]
fn environment_is_reported() {
    assert_eq!(
        info_report("0.3.0", "linux", "x86_64", false),
        "Rizonet v0.3.0\nOS: linux\nARCH: x86_64\n"
    );
    assert!(info_report("0.3.0", "windows", "x86_64", true)
        .ends_with("WebView2: (check `Get-AppxPackage *WebView*` in PowerShell)\n"));
}
