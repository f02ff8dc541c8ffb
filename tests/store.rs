use profile_switch::app_config::{get_current_config, mirror_of};
use profile_switch::error::{Loaded, Persisted, StoreError};
use profile_switch::paths::get_manager_config_path;
use profile_switch::profile::{AppConfig, Profile, ProfileSet};
use profile_switch::store::{load_profiles, save_profiles};

fn profile(url: &str, key: &str) -> Profile {
    Profile {
        base_url: url.to_string(),
        api_key: key.to_string(),
        description: "desc".to_string(),
        created: "2024-01-01T00:00:00Z".to_string(),
    }
}

fn sample_set() -> ProfileSet {
    ProfileSet {
        profiles: vec![
            ("work".to_string(), profile("https://api.example.com", "sk-test-123")),
            ("home".to_string(), profile("https://other.example.com", "sk-home")),
        ],
        current: Some("work".to_string()),
    }
}

#[test]
fn first_run_loads_empty_set() {
    let r = load_profiles(Loaded::Absent).unwrap();
    assert!(r.profiles.is_empty());
    assert_eq!(r.current, None);
}

#[test]
fn malformed_store_is_a_parse_error() {
    let r = load_profiles(Loaded::Malformed("expected value at line 1".to_string()));
    assert_eq!(r, Err(StoreError::Parse("expected value at line 1".to_string())));
}

#[test]
fn unreadable_store_is_a_read_error() {
    let r = load_profiles(Loaded::Unreadable("permission denied".to_string()));
    assert_eq!(r, Err(StoreError::Read("permission denied".to_string())));
}

#[test]
fn parsed_store_loads_unchanged() {
    assert_eq!(load_profiles(Loaded::Parsed(sample_set())), Ok(sample_set()));
}

#[test]
fn save_then_load_reads_the_written_file() {
    let plan = save_profiles("/h", "acme", false);
    assert_eq!(plan.target, "/h/acme-configs.cccm");
    assert_eq!(plan.legacy_cleanup, None);
    // after the write the current file exists, so load reads it
    assert_eq!(get_manager_config_path("/h", "acme", false, true), plan.target);
    assert_eq!(load_profiles(Loaded::Parsed(sample_set())), Ok(sample_set()));
}

#[test]
fn migration_writes_current_and_removes_legacy() {
    assert_eq!(get_manager_config_path("/h", "acme", true, false), "/h/.acme_configs.json");
    let plan = save_profiles("/h", "acme", true);
    assert_eq!(plan.target, "/h/acme-configs.cccm");
    let (r, cleanup) = plan.complete(Persisted::Written);
    assert_eq!(r, Ok(()));
    assert_eq!(cleanup, Some("/h/.acme_configs.json".to_string()));
    // second save: the legacy file is gone
    let (r2, cleanup2) = save_profiles("/h", "acme", false).complete(Persisted::Written);
    assert_eq!(r2, Ok(()));
    assert_eq!(cleanup2, None);
}

#[test]
fn failed_write_keeps_legacy_file() {
    let (r, cleanup) = save_profiles("/h", "acme", true).complete(Persisted::WriteFailed("disk full".to_string()));
    assert_eq!(r, Err(StoreError::Write("disk full".to_string())));
    assert_eq!(cleanup, None);
}

#[test]
fn failed_encoding_is_a_serialize_error() {
    let (r, cleanup) = save_profiles("/h", "acme", false).complete(Persisted::SerializeFailed("bad".to_string()));
    assert_eq!(r, Err(StoreError::Serialize("bad".to_string())));
    assert_eq!(cleanup, None);
}

#[test]
fn import_of_export_keeps_set() {
    let exported = load_profiles(Loaded::Parsed(sample_set())).unwrap();
    let (r, _) = save_profiles("/h", "acme", false).complete(Persisted::Written);
    assert_eq!(r, Ok(()));
    assert_eq!(load_profiles(Loaded::Parsed(exported.clone())), Ok(sample_set()));
}

#[test]
fn active_profile_follows_selection() {
    let s = sample_set();
    assert_eq!(s.active_profile(), Some(&profile("https://api.example.com", "sk-test-123")));
}

#[test]
fn stale_selection_is_no_active_profile() {
    let mut s = sample_set();
    s.current = Some("gone".to_string());
    assert_eq!(s.active_profile(), None);
    s.current = None;
    assert_eq!(s.active_profile(), None);
    assert_eq!(ProfileSet::new().active_profile(), None);
}

#[test]
fn current_config_errors() {
    assert_eq!(get_current_config(Loaded::Absent), Err(StoreError::NotFound));
    assert_eq!(get_current_config(Loaded::Unreadable("e".to_string())), Err(StoreError::Read("e".to_string())));
    assert_eq!(get_current_config(Loaded::Malformed("m".to_string())), Err(StoreError::Parse("m".to_string())));
}

#[test]
fn current_config_parsed() {
    let c = AppConfig { base_url: "u".to_string(), api_key: "k".to_string() };
    assert_eq!(get_current_config(Loaded::Parsed(c.clone())), Ok(c));
}

#[test]
fn mirror_holds_profile_fields() {
    let c = mirror_of(&profile("https://api.example.com", "sk-test-123"));
    assert_eq!(c, AppConfig { base_url: "https://api.example.com".to_string(), api_key: "sk-test-123".to_string() });
}
