use mihomo_proxy::config::{
    is_config_valid, parse_mixed_port, patch_ports, update_external_controller, update_mixed_port,
    ConfigError,
};

const DOC: &str = "allow-lan: true\nmixed-port: 1080\nmode: rule\nproxies:\n  - name: a\n";

#[test]
fn mixed_port_round_trip() {
    let out = update_mixed_port(DOC, 7890).unwrap();
    assert_eq!(parse_mixed_port(&out), Some(7890));
    let before: serde_yaml::Value = serde_yaml::from_str(DOC).unwrap();
    let after: serde_yaml::Value = serde_yaml::from_str(&out).unwrap();
    for key in ["allow-lan", "mode", "proxies"] {
        assert_eq!(before.get(key), after.get(key));
    }
    assert_eq!(after.as_mapping().unwrap().len(), 4);
}

#[test]
fn port_falls_back_to_port_key() {
    assert_eq!(parse_mixed_port("port: 8000\n"), Some(8000));
    assert_eq!(parse_mixed_port("mixed-port: 7000\nport: 8000\n"), Some(7000));
    assert_eq!(parse_mixed_port("mode: rule\n"), None);
    assert_eq!(parse_mixed_port("- 1\n"), None);
    assert_eq!(parse_mixed_port("mixed-port: abc\n"), None);
}

#[test]
fn controller_is_set() {
    let out = update_external_controller("mode: rule\n", "127.0.0.1:9090").unwrap();
    let v: serde_yaml::Value = serde_yaml::from_str(&out).unwrap();
    assert_eq!(v.get("external-controller").and_then(|x| x.as_str()), Some("127.0.0.1:9090"));
    assert_eq!(v.get("mode").and_then(|x| x.as_str()), Some("rule"));
}

#[test]
fn update_rejects_non_mapping() {
    assert_eq!(update_mixed_port("- a\n- b\n", 1), Err(ConfigError::NotMapping));
    assert_eq!(update_mixed_port("a: [\n", 1), Err(ConfigError::Malformed));
}

#[test]
fn config_validity() {
    assert!(is_config_valid(DOC));
    assert!(is_config_valid("rules: []\n"));
    assert!(is_config_valid("proxy-groups: []\n"));
    assert!(!is_config_valid("mode: rule\n"));
    assert!(!is_config_valid("a: [\n"));
}

#[test]
fn top_level_tag_is_kept() {
    let out = update_mixed_port("!cfg\nmode: rule\n", 7890).unwrap();
    assert!(out.starts_with("!cfg"));
    assert_eq!(parse_mixed_port(&out), Some(7890));
}

#[test]
fn ports_are_patched_together() {
    let out = patch_ports(DOC, 7891, 9091).unwrap();
    let v: serde_yaml::Value = serde_yaml::from_str(&out).unwrap();
    assert_eq!(v.get("mixed-port").and_then(|x| x.as_u64()), Some(7891));
    assert_eq!(v.get("external-controller").and_then(|x| x.as_str()), Some("127.0.0.1:9091"));
    assert_eq!(v.get("mode").and_then(|x| x.as_str()), Some("rule"));
    assert_eq!(v.as_mapping().unwrap().len(), 5);
    assert_eq!(patch_ports("- a\n", 1, 2), Err(ConfigError::NotMapping));
}
