use rizonet_core::acl::glob_match;
use rizonet_core::CapabilitiesConfig;

#[test]
fn matches_literal() {
    assert!(glob_match("ping", "ping"));
    assert!(!glob_match("ping", "pong"));
}

#[test]
fn matches_wildcard() {
    assert!(glob_match("notes:*", "notes:list"));
    assert!(glob_match("*:read", "fs:read"));
    assert!(glob_match("a*b", "axxxb"));
    assert!(!glob_match("notes:*", "fs:list"));
}

#[test]
fn allow_deny() {
    let c = CapabilitiesConfig {
        allow: vec!["notes:*".into(), "path:*".into()],
        deny: vec!["notes:delete".into()],
    };
    assert!(c.is_allowed("notes:list"));
    assert!(c.is_allowed("path:home"));
    assert!(!c.is_allowed("notes:delete"));
    assert!(!c.is_allowed("shell:open"));
}

fn policy(allow: &[&str], deny: &[&str]) -> CapabilitiesConfig {
    CapabilitiesConfig {
        allow: allow.iter().map(|s| s.to_string()).collect(),
        deny: deny.iter().map(|s| s.to_string()).collect(),
    }
}

#[test]
fn several_wildcards_match_in_order() {
    assert!(glob_match("*a*b*", "xxaxxbxx"));
    assert!(!glob_match("*a*b*", "xxbxxaxx"));
    assert!(glob_match("ab*ab", "abab"));
    assert!(!glob_match("ab*ab", "ab"));
    assert!(glob_match("a*b*b", "abb"));
    assert!(!glob_match("a*b*b", "ab"));
    assert!(glob_match("**", ""));
}

#[test]
fn lone_wildcard_matches_everything() {
    assert!(glob_match("*", ""));
    assert!(glob_match("*", "dialog:open_file"));
    assert!(glob_match("", ""));
    assert!(!glob_match("", "a"));
    assert!(!glob_match("a", ""));
}

#[test]
fn wildcard_takes_any_character() {
    assert!(glob_match("notes:*", "notes:"));
    assert!(glob_match("ü*ß", "üäöß"));
    assert!(!glob_match("notes:?", "notes:a"));
}

#[test]
fn empty_policy_allows_all() {
    let c = CapabilitiesConfig::default();
    assert!(c.is_allowed("shell:open"));
    assert!(c.is_allowed(""));
}

#[test]
fn deny_list_alone_strips() {
    let c = policy(&[], &["shell:*"]);
    assert!(!c.is_allowed("shell:open"));
    assert!(c.is_allowed("path:home"));
}

#[test]
fn deny_wins_over_allow() {
    let c = policy(&["dialog:save_file"], &["dialog:save_file"]);
    assert!(!c.is_allowed("dialog:save_file"));
}

#[test]
fn adding_a_deny_pattern_strips_its_matches_only() {
    let before = policy(&["notes:*"], &[]);
    let after = policy(&["notes:*"], &["*:delete"]);
    assert!(before.is_allowed("notes:delete"));
    assert!(!after.is_allowed("notes:delete"));
    assert!(after.is_allowed("notes:list"));
}

#[test]
fn adding_an_allow_pattern_grows_the_policy() {
    let before = policy(&["notes:*"], &[]);
    let after = policy(&["notes:*", "path:*"], &[]);
    assert!(!before.is_allowed("path:home"));
    assert!(after.is_allowed("path:home"));
    assert!(after.is_allowed("notes:list"));
}

#[test]
fn cloned_policy_decides_alike() {
    let c = policy(&["a:*"], &["a:b"]);
    let d = c.clone();
    assert!(d.is_allowed("a:c"));
    assert!(!d.is_allowed("a:b"));
    assert!(!d.is_allowed("b:a"));
}
