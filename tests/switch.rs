use profile_switch::error::{Persisted, StoreError};
use profile_switch::profile::{AppConfig, Profile};
use profile_switch::switch::{switch_config, SwitchAction, SwitchError, SwitchEvent, SwitchStage};

fn work() -> Profile {
    Profile {
        base_url: "https://api.example.com".to_string(),
        api_key: "sk-test-123".to_string(),
        description: String::new(),
        created: String::new(),
    }
}

fn set(name: &str, value: &str) -> SwitchAction {
    SwitchAction::SetVariable { name: name.to_string(), value: value.to_string() }
}

#[test]
fn switch_success_sets_both_variables_and_mirror() {
    let (mut s, a0) = switch_config("work".to_string(), work());
    assert_eq!(a0, set("ANTHROPIC_BASE_URL", "https://api.example.com"));
    let a1 = s.step(SwitchEvent::VariableSet);
    assert_eq!(a1, set("ANTHROPIC_AUTH_TOKEN", "sk-test-123"));
    let a2 = s.step(SwitchEvent::VariableSet);
    assert_eq!(a2, SwitchAction::LocateMirror);
    let a3 = s.step(SwitchEvent::MirrorLocated("/h/.acme/config.json".to_string()));
    assert_eq!(
        a3,
        SwitchAction::WriteMirror {
            path: "/h/.acme/config.json".to_string(),
            config: AppConfig {
                base_url: "https://api.example.com".to_string(),
                api_key: "sk-test-123".to_string(),
            },
        }
    );
    let a4 = s.step(SwitchEvent::MirrorPersisted(Persisted::Written));
    assert_eq!(a4, SwitchAction::Report(Ok("/h/.acme/config.json".to_string())));
    assert!(s.is_finished());
}

#[test]
fn base_url_failure_stops_switch() {
    let (mut s, _) = switch_config("work".to_string(), work());
    let a = s.step(SwitchEvent::VariableFailed("access denied".to_string()));
    assert_eq!(
        a,
        SwitchAction::Report(Err(SwitchError::Variable {
            name: "ANTHROPIC_BASE_URL".to_string(),
            diagnostic: "access denied".to_string(),
        }))
    );
    assert_eq!(s.stage, SwitchStage::Finished);
    assert!(!s.takes(&SwitchEvent::VariableSet));
    assert!(!s.takes(&SwitchEvent::MirrorLocated("/p".to_string())));
    assert!(!s.takes(&SwitchEvent::MirrorPersisted(Persisted::Written)));
}

#[test]
fn auth_token_failure_stops_before_mirror() {
    let (mut s, _) = switch_config("work".to_string(), work());
    s.step(SwitchEvent::VariableSet);
    let a = s.step(SwitchEvent::VariableFailed("boom".to_string()));
    assert_eq!(
        a,
        SwitchAction::Report(Err(SwitchError::Variable {
            name: "ANTHROPIC_AUTH_TOKEN".to_string(),
            diagnostic: "boom".to_string(),
        }))
    );
    assert!(s.is_finished());
}

#[test]
fn mirror_write_failure_is_reported() {
    let (mut s, _) = switch_config("work".to_string(), work());
    s.step(SwitchEvent::VariableSet);
    s.step(SwitchEvent::VariableSet);
    s.step(SwitchEvent::MirrorLocated("/p".to_string()));
    let a = s.step(SwitchEvent::MirrorPersisted(Persisted::WriteFailed("read-only".to_string())));
    assert_eq!(
        a,
        SwitchAction::Report(Err(SwitchError::Mirror(StoreError::Write("read-only".to_string()))))
    );
}

#[test]
fn steps_take_only_awaited_outcome() {
    let (mut s, _) = switch_config("work".to_string(), work());
    assert!(s.takes(&SwitchEvent::VariableSet));
    assert!(!s.takes(&SwitchEvent::MirrorLocated("/p".to_string())));
    s.step(SwitchEvent::VariableSet);
    s.step(SwitchEvent::VariableSet);
    assert!(s.takes(&SwitchEvent::MirrorLocated("/p".to_string())));
    assert!(!s.takes(&SwitchEvent::VariableSet));
}

#[test]
fn switching_twice_gives_same_mirror() {
    let run = || {
        let (mut s, _) = switch_config("work".to_string(), work());
        s.step(SwitchEvent::VariableSet);
        s.step(SwitchEvent::VariableSet);
        s.step(SwitchEvent::MirrorLocated("/p".to_string()))
    };
    assert_eq!(run(), run());
}
