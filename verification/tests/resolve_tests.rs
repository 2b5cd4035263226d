use deployer::config::{Application, Config};
use deployer::message::RemoteCommand;
use deployer::resolve::{is_local_host, resolve, ResolveError};

fn web_app() -> Application {
    Application {
        secret: "s1".to_string(),
        playbooks: vec![("deploy".to_string(), "/pb/deploy.yml".to_string())],
        default_playbook: None,
        default_host: "10.0.0.5".to_string(),
    }
}

fn sample_config() -> Config {
    Config {
        port: 4200,
        default_target: None,
        applications: vec![("web".to_string(), web_app())],
    }
}

fn sample_command() -> RemoteCommand {
    RemoteCommand {
        target: Some("web".to_string()),
        secret: "s1".to_string(),
        playbook: Some("deploy".to_string()),
        host: None,
        extra_vars: "{}".to_string(),
    }
}

#[test]
fn resolves_example_request() {
    let cfg = sample_config();
    let r = resolve(&sample_command(), &cfg).unwrap();
    assert_eq!(r.host, "10.0.0.5");
    assert_eq!(r.playbook_path, "/pb/deploy.yml");
    assert_eq!(r.extra_vars, "{}");
    assert!(!r.local);
}

#[test]
fn wrong_secret_is_rejected() {
    let cfg = sample_config();
    let mut cmd = sample_command();
    cmd.secret = "wrong".to_string();
    assert_eq!(resolve(&cmd, &cfg), Err(ResolveError::AuthenticationFailed));
}

#[test]
fn secret_differing_by_one_character_is_rejected() {
    let cfg = sample_config();
    for bad in ["s2", "S1", "s1 ", " s1", "s", ""] {
        let mut cmd = sample_command();
        cmd.secret = bad.to_string();
        assert_eq!(resolve(&cmd, &cfg), Err(ResolveError::AuthenticationFailed));
    }
}

#[test]
fn missing_target_without_default() {
    let cfg = sample_config();
    let mut cmd = sample_command();
    cmd.target = None;
    assert_eq!(resolve(&cmd, &cfg), Err(ResolveError::MissingTarget));
}

#[test]
fn default_target_used_when_omitted() {
    let mut cfg = sample_config();
    cfg.default_target = Some("web".to_string());
    let mut cmd = sample_command();
    cmd.target = None;
    assert!(resolve(&cmd, &cfg).is_ok());
}

#[test]
fn explicit_target_overrides_default() {
    let mut cfg = sample_config();
    cfg.default_target = Some("other".to_string());
    let cmd = sample_command();
    assert!(resolve(&cmd, &cfg).is_ok());
}

#[test]
fn unknown_application_error_carries_target() {
    let cfg = sample_config();
    let mut cmd = sample_command();
    cmd.target = Some("db".to_string());
    assert_eq!(
        resolve(&cmd, &cfg),
        Err(ResolveError::UnknownApplication { target: "db".to_string() })
    );
}

#[test]
fn unknown_playbook_error() {
    let cfg = sample_config();
    let mut cmd = sample_command();
    cmd.playbook = Some("rollback".to_string());
    assert_eq!(resolve(&cmd, &cfg), Err(ResolveError::UnknownPlaybook));
}

#[test]
fn missing_playbook_without_default() {
    let cfg = sample_config();
    let mut cmd = sample_command();
    cmd.playbook = None;
    assert_eq!(resolve(&cmd, &cfg), Err(ResolveError::MissingPlaybook));
}

#[test]
fn default_playbook_used_when_omitted() {
    let mut cfg = sample_config();
    cfg.applications[0].1.default_playbook = Some("deploy".to_string());
    let mut cmd = sample_command();
    cmd.playbook = None;
    let r = resolve(&cmd, &cfg).unwrap();
    assert_eq!(r.playbook_path, "/pb/deploy.yml");
}

#[test]
fn explicit_playbook_overrides_default() {
    let mut cfg = sample_config();
    cfg.applications[0].1.playbooks.push(("other".to_string(), "/pb/other.yml".to_string()));
    cfg.applications[0].1.default_playbook = Some("other".to_string());
    let cmd = sample_command();
    let r = resolve(&cmd, &cfg).unwrap();
    assert_eq!(r.playbook_path, "/pb/deploy.yml");
}

#[test]
fn explicit_host_overrides_default() {
    let cfg = sample_config();
    let mut cmd = sample_command();
    cmd.host = Some("192.168.1.7".to_string());
    let r = resolve(&cmd, &cfg).unwrap();
    assert_eq!(r.host, "192.168.1.7");
}

#[test]
fn localhost_host_selects_local_mode() {
    let cfg = sample_config();
    for local in ["localhost", "127.0.0.1"] {
        let mut cmd = sample_command();
        cmd.host = Some(local.to_string());
        let r = resolve(&cmd, &cfg).unwrap();
        assert!(r.local);
    }
}

#[test]
fn is_local_host_is_string_based() {
    assert!(is_local_host(&"localhost".to_string()));
    assert!(is_local_host(&"127.0.0.1".to_string()));
    assert!(!is_local_host(&"10.0.0.5".to_string()));
    assert!(!is_local_host(&"localhost ".to_string()));
    assert!(!is_local_host(&"".to_string()));
}

#[test]
fn config_validate_accepts_sample() {
    assert!(sample_config().validate());
}

#[test]
fn config_validate_rejects_duplicate_targets() {
    let mut cfg = sample_config();
    cfg.applications.push(("web".to_string(), web_app()));
    assert!(!cfg.validate());
}

#[test]
fn config_validate_rejects_duplicate_playbooks() {
    let mut cfg = sample_config();
    cfg.applications[0].1.playbooks.push(("deploy".to_string(), "/pb/again.yml".to_string()));
    assert!(!cfg.validate());
}

#[test]
fn config_validate_rejects_absent_default_playbook() {
    let mut cfg = sample_config();
    cfg.applications[0].1.default_playbook = Some("rollback".to_string());
    assert!(!cfg.validate());
}

#[test]
fn app_lookup_finds_configured_target() {
    let cfg = sample_config();
    assert!(cfg.app(&"web".to_string()).is_some());
    assert!(cfg.app(&"db".to_string()).is_none());
}
