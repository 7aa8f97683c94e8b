use simple_kv_store::normalize_key;

#[test]
fn normalize_replaces_slashes() {
    assert_eq!(normalize_key("device/switch/state"), "device_switch_state");
}

#[test]
fn normalize_replaces_colon_and_slash() {
    assert_eq!(normalize_key("config:mode/type"), "config_mode_type");
}

#[test]
fn normalize_replaces_at_sign() {
    assert_eq!(normalize_key("user@domain.com"), "user_domain.com");
}

#[test]
fn normalize_keeps_accepted_characters() {
    assert_eq!(normalize_key("Abc-09_x.y"), "Abc-09_x.y");
}

#[test]
fn normalize_empty_key() {
    assert_eq!(normalize_key(""), "");
}

#[test]
fn normalize_non_ascii_becomes_underscore() {
    assert_eq!(normalize_key("café key"), "caf__key");
}

#[test]
fn normalize_is_idempotent() {
    for s in ["device/switch/state", "a b\tc", "x@y:z", "", "ünï/cödé", "plain.key-1"] {
        let once = normalize_key(s);
        let twice = normalize_key(&once);
        assert_eq!(once, twice);
        assert!(once
            .chars()
            .all(|c| c.is_ascii_alphanumeric() || c == '-' || c == '_' || c == '.'));
    }
}
