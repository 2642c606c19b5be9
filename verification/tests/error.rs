use rizonet_core::RizonetError;

fn text(s: &str) -> String {
    s.to_string()
}

#[test]
fn every_failure_is_worded() {
    let cases: Vec<(RizonetError, &str)> = vec![
        (RizonetError::Config(text("x")), "configuration error: x"),
        (RizonetError::Runtime(text("x")), "runtime bootstrap failed: x"),
        (RizonetError::WebView(text("x")), "webview error: x"),
        (RizonetError::Window(text("x")), "window error: x"),
        (RizonetError::Io(text("x")), "io error: x"),
        (RizonetError::Network(text("x")), "network error: x"),
        (RizonetError::Serde(text("x")), "serde error: x"),
        (
            RizonetError::Checksum { expected: text("a"), actual: text("b") },
            "checksum mismatch: expected a, got b",
        ),
        (RizonetError::Zip(text("x")), "zip error: x"),
        (RizonetError::SemVer(text("x")), "semver parse error: x"),
        (RizonetError::Updater(text("x")), "updater error: x"),
        (
            RizonetError::Plugin { plugin: text("clock"), message: text("late") },
            "plugin error (clock): late",
        ),
        (RizonetError::Other(text("x")), "x"),
    ];
    for (error, wording) in cases {
        assert_eq!(error.message(), wording);
    }
}
