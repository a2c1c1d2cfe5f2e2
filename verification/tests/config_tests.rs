use hc3_shell::EnvStore;
use hc3_shell::get_hc3_config;

#[test]
fn config_all_absent_when_nothing_set() {
    let store = EnvStore::new();
    let c = get_hc3_config(&store);
    assert!(c.host.is_none());
    assert!(c.user.is_none());
    assert!(c.password.is_none());
    assert!(c.protocol.is_none());
}

#[test]
fn config_ignores_unrelated_variables() {
    let mut store = EnvStore::new();
    store.set_if_absent("PATH".to_string(), "/usr/bin".to_string());
    store.set_if_absent("HC3_HOSTNAME".to_string(), "not-the-host-var".to_string());
    let c = get_hc3_config(&store);
    assert!(c.host.is_none());
    assert!(c.user.is_none());
    assert!(c.password.is_none());
    assert!(c.protocol.is_none());
}

#[test]
fn config_host_only() {
    let mut store = EnvStore::new();
    store.set_if_absent("HC3_HOST".to_string(), "example".to_string());
    let c = get_hc3_config(&store);
    assert_eq!(c.host, Some("example".to_string()));
    assert!(c.user.is_none());
    assert!(c.password.is_none());
    assert!(c.protocol.is_none());
}

#[test]
fn config_all_fields_set() {
    let mut store = EnvStore::new();
    store.set_if_absent("HC3_HOST".to_string(), "hc3.local".to_string());
    store.set_if_absent("HC3_USER".to_string(), "admin".to_string());
    store.set_if_absent("HC3_PASSWORD".to_string(), "pw".to_string());
    store.set_if_absent("HC3_PROTOCOL".to_string(), "https".to_string());
    let c = get_hc3_config(&store);
    assert_eq!(c.host, Some("hc3.local".to_string()));
    assert_eq!(c.user, Some("admin".to_string()));
    assert_eq!(c.password, Some("pw".to_string()));
    assert_eq!(c.protocol, Some("https".to_string()));
}

#[test]
fn config_reads_values_loaded_from_env_file() {
    let mut store = EnvStore::new();
    let err = store.load_env_bytes(&b"HC3_HOST=hc3.local\nHC3_PROTOCOL=http\n".to_vec());
    assert!(err.is_none());
    let c = get_hc3_config(&store);
    assert_eq!(c.host, Some("hc3.local".to_string()));
    assert_eq!(c.protocol, Some("http".to_string()));
    assert!(c.user.is_none());
    assert!(c.password.is_none());
}
