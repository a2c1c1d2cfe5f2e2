use hc3_shell::EnvFileError;
use hc3_shell::EnvStore;
use hc3_shell::LoadOutcome;
use hc3_shell::home_var_name;

fn get_str(store: &EnvStore, key: &str) -> Option<String> {
    store.get(&key.to_string()).cloned()
}

#[test]
fn set_if_absent_adds_new_key() {
    let mut store = EnvStore::new();
    store.set_if_absent("A".to_string(), "1".to_string());
    assert_eq!(get_str(&store, "A"), Some("1".to_string()));
    assert_eq!(get_str(&store, "B"), None);
}

#[test]
fn set_if_absent_keeps_existing_value() {
    let mut store = EnvStore::new();
    store.set_if_absent("A".to_string(), "1".to_string());
    store.set_if_absent("A".to_string(), "2".to_string());
    assert_eq!(get_str(&store, "A"), Some("1".to_string()));
}

#[test]
fn load_entries_first_occurrence_wins() {
    let mut store = EnvStore::new();
    let entries = vec![
        ("K".to_string(), "first".to_string()),
        ("K".to_string(), "second".to_string()),
    ];
    store.load_entries(&entries);
    assert_eq!(get_str(&store, "K"), Some("first".to_string()));
}

#[test]
fn load_entries_preserves_existing_binding() {
    let mut store = EnvStore::new();
    store.set_if_absent("K".to_string(), "from_process".to_string());
    let entries = vec![("K".to_string(), "from_file".to_string())];
    store.load_entries(&entries);
    assert_eq!(get_str(&store, "K"), Some("from_process".to_string()));
}

#[test]
fn load_env_bytes_parses_pairs() {
    let mut store = EnvStore::new();
    let err = store.load_env_bytes(&b"HC3_HOST=example\nHC3_USER=admin\n".to_vec());
    assert!(err.is_none());
    assert_eq!(get_str(&store, "HC3_HOST"), Some("example".to_string()));
    assert_eq!(get_str(&store, "HC3_USER"), Some("admin".to_string()));
}

#[test]
fn load_env_bytes_empty_input_changes_nothing() {
    let mut store = EnvStore::new();
    let err = store.load_env_bytes(&Vec::new());
    assert!(err.is_none());
    assert_eq!(get_str(&store, "ANYTHING"), None);
}

#[test]
fn load_env_bytes_never_overrides_existing() {
    let mut store = EnvStore::new();
    store.set_if_absent("HC3_HOST".to_string(), "from_process".to_string());
    let err = store.load_env_bytes(&b"HC3_HOST=from_file\n".to_vec());
    assert!(err.is_none());
    assert_eq!(get_str(&store, "HC3_HOST"), Some("from_process".to_string()));
}

#[test]
fn load_env_bytes_reports_bad_line() {
    let mut store = EnvStore::new();
    let err = store.load_env_bytes(&b"GOOD=1\nNOT A VALID LINE\n".to_vec());
    assert!(matches!(err, Some(EnvFileError::BadLine { .. })));
    // Entries parsed before the error are still applied.
    assert_eq!(get_str(&store, "GOOD"), Some("1".to_string()));
}

#[test]
fn load_env_bytes_strips_byte_order_mark() {
    let mut store = EnvStore::new();
    let mut bytes = vec![0xEFu8, 0xBB, 0xBF];
    bytes.extend_from_slice(b"K=1\n");
    let err = store.load_env_bytes(&bytes);
    assert!(err.is_none());
    assert_eq!(get_str(&store, "K"), Some("1".to_string()));
}

#[test]
fn load_env_bytes_comments_and_quotes() {
    let mut store = EnvStore::new();
    let err = store.load_env_bytes(&b"# a comment\nK=\"a b\"\n".to_vec());
    assert!(err.is_none());
    assert_eq!(get_str(&store, "K"), Some("a b".to_string()));
}

#[test]
fn startup_home_file_does_not_override_cwd_file() {
    let mut store = EnvStore::new();
    let cwd = Some(b"SHARED=from_cwd\nONLY_CWD=a\n".to_vec());
    let home = Some(b"SHARED=from_home\nONLY_HOME=b\n".to_vec());
    let first = store.load_env_probe(&cwd);
    let second = store.load_env_probe(&home);
    assert!(matches!(first, LoadOutcome::Loaded));
    assert!(matches!(second, LoadOutcome::Loaded));
    assert_eq!(get_str(&store, "SHARED"), Some("from_cwd".to_string()));
    assert_eq!(get_str(&store, "ONLY_CWD"), Some("a".to_string()));
    assert_eq!(get_str(&store, "ONLY_HOME"), Some("b".to_string()));
}

#[test]
fn startup_process_env_wins_over_both_files() {
    let mut store = EnvStore::new();
    store.set_if_absent("SHARED".to_string(), "from_process".to_string());
    store.load_env_probe(&Some(b"SHARED=from_cwd\n".to_vec()));
    store.load_env_probe(&Some(b"SHARED=from_home\n".to_vec()));
    assert_eq!(get_str(&store, "SHARED"), Some("from_process".to_string()));
}

#[test]
fn startup_missing_files_are_skipped() {
    let mut store = EnvStore::new();
    let first = store.load_env_probe(&None);
    let second = store.load_env_probe(&None);
    assert!(matches!(first, LoadOutcome::Skipped));
    assert!(matches!(second, LoadOutcome::Skipped));
}

#[test]
fn startup_missing_files_add_nothing() {
    let mut store = EnvStore::new();
    store.set_if_absent("KEPT".to_string(), "as_it_was".to_string());
    store.load_env_probe(&None);
    store.load_env_probe(&None);
    assert_eq!(get_str(&store, "KEPT"), Some("as_it_was".to_string()));
    assert_eq!(get_str(&store, "ANYTHING_ELSE"), None);
}

#[test]
fn startup_only_home_file_present() {
    let mut store = EnvStore::new();
    let first = store.load_env_probe(&None);
    let second = store.load_env_probe(&Some(b"K=home\n".to_vec()));
    assert!(matches!(first, LoadOutcome::Skipped));
    assert!(matches!(second, LoadOutcome::Loaded));
    assert_eq!(get_str(&store, "K"), Some("home".to_string()));
}

#[test]
fn home_var_name_by_platform() {
    assert_eq!(home_var_name(false), "HOME".to_string());
    assert_eq!(home_var_name(true), "USERPROFILE".to_string());
}
