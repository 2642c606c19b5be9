use rizonet_core::config::{
    default_dist, default_height, default_mode, default_title, default_true, default_width,
    AppConfig, BuildConfig, RizonetConfig, RuntimeConfig, RuntimeMode, WindowConfig, CONFIG_FILE,
};
use rizonet_core::{CapabilitiesConfig, RizonetError};

fn config(name: &str) -> RizonetConfig {
    RizonetConfig {
        app: AppConfig {
            name: name.to_string(),
            identifier: "net.rizonet.test".to_string(),
            dev_url: None,
            dist_dir: default_dist(),
        },
        window: WindowConfig::default(),
        runtime: RuntimeConfig::default(),
        build: BuildConfig::default(),
        capabilities: CapabilitiesConfig::default(),
    }
}

#[test]
fn defaults_are_as_documented() {
    let w = WindowConfig::default();
    assert_eq!(w.title, "Rizonet App");
    assert_eq!(f64::from_bits(w.width.bits), 1024.0);
    assert_eq!(f64::from_bits(w.height.bits), 768.0);
    assert!(w.resizable && w.decorations);
    assert!(!w.fullscreen && !w.maximized && !w.transparent);
    let r = RuntimeConfig::default();
    assert_eq!(r.mode, RuntimeMode::Auto);
    assert_eq!(r.min_webview_version, None);
    assert_eq!(r.bootstrap_url, None);
    assert_eq!(r.bootstrap_sha256, None);
    let b = BuildConfig::default();
    assert_eq!((b.before_dev, b.before_build, b.targets.len()), (None, None, 0));
    assert_eq!(default_dist(), "dist");
    assert_eq!(default_title(), "Rizonet App");
    assert_eq!(default_width().bits, 1024.0f64.to_bits());
    assert_eq!(default_height().bits, 768.0f64.to_bits());
    assert!(default_true());
    assert_eq!(default_mode(), RuntimeMode::Auto);
    assert_eq!(CONFIG_FILE, "rizonet.config.json");
}

#[test]
fn nearest_configuration_is_found() {
    let present = [false, false, true, true];
    assert_eq!(RizonetConfig::discover(4, |i| present[i]).ok(), Some(2));
    assert_eq!(RizonetConfig::discover(1, |_| true).ok(), Some(0));
}

#[test]
fn missing_configuration_is_reported() {
    let e = RizonetConfig::discover(3, |_| false).unwrap_err();
    assert_eq!(
        e.message(),
        "configuration error: rizonet.config.json not found in any ancestor directory"
    );
}

#[test]
fn configuration_is_loaded() {
    let loaded = RizonetConfig::load("\"p\"", Ok("text".to_string()), |t| {
        assert_eq!(t, "text");
        Ok(config("demo"))
    });
    assert_eq!(loaded.unwrap().app.name, "demo");
}

#[test]
fn unreadable_and_invalid_configurations_are_reported() {
    let unread = RizonetConfig::load("\"p\"", Err("denied".to_string()), |_| Ok(config("demo")));
    match unread {
        Err(RizonetError::Config(m)) => assert_eq!(m, "cannot read \"p\": denied"),
        other => panic!("{:?}", other),
    }
    let invalid =
        RizonetConfig::load("\"p\"", Ok("{".to_string()), |_| Err("EOF".to_string()));
    match invalid {
        Err(RizonetError::Config(m)) => assert_eq!(m, "invalid JSON in \"p\": EOF"),
        other => panic!("{:?}", other),
    }
}
