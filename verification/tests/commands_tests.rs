use clipship::commands::{
    config_load_failure, ensure_ssh_scp, load_config_response, needs_ssh_binaries,
    save_config_decision, test_connection_response, upload_response, warning_text,
};
use clipship::config::validate::{FieldError, FieldWarning};
use clipship::config::{Config, ConfigError, ConfigField, UploadMode, ValidationError};
use clipship::notify::Message;
use clipship::ssh::availability::Availability;
use clipship::test_connection::{new_probe_name, TestConnectionError};
use clipship::upload::errors::UploadError;
use clipship::upload::service::UploadSuccess;

#[test]
fn warning_text_prints_mode_in_octal() {
    let w = FieldWarning::PrivateKeyLoosePermissions { path: "/k".into(), mode: 0o644 };
    assert_eq!(
        warning_text(w),
        "Private key permissions look too open (644) and OpenSSH may reject it: /k"
    );
}

#[test]
fn missing_binaries_are_refused() {
    assert!(ensure_ssh_scp(&Availability { ssh: true, scp: true }).is_ok());
    let r = ensure_ssh_scp(&Availability { ssh: false, scp: true }).err().unwrap();
    assert_eq!(r.notice, Message::SshBinariesMissing);
    assert_eq!(r.error, "ssh or scp missing on PATH");
}

#[test]
fn load_config_falls_back_to_defaults_when_file_is_missing() {
    let c = load_config_response(Err(ConfigError::Io("not found".into())), true).unwrap();
    assert_eq!(c.version, 1);
    assert_eq!(c.mode, UploadMode::Ssh);
    assert_eq!(c.port, 22);
    assert_eq!(c.shortcut, "CmdOrCtrl+Shift+U");
    assert!(c.host.is_empty() && c.username.is_empty());
    assert!(c.private_key_path.is_empty() && c.remote_dir.is_empty());
    assert!(!c.shortcut_double_tap && !c.auto_cleanup && !c.auto_paste);
    assert_eq!(
        load_config_response(Err(ConfigError::Io("denied".into())), false).err(),
        Some("io error: denied".to_string())
    );
    assert_eq!(
        load_config_response(Err(ConfigError::UnversionedOrUnsupported), true).err(),
        Some("config file missing `version` field or has unsupported version".to_string())
    );
    let mut mine = Config::default();
    mine.host = "h".into();
    assert_eq!(load_config_response(Ok(mine), false).unwrap().host, "h");
}

#[test]
fn config_load_failure_is_shown_as_invalid() {
    let r = config_load_failure(&ConfigError::Parse("eof".into()));
    assert_eq!(r.notice, Message::ConfigInvalid("parse error: eof".into()));
    assert_eq!(r.error, "parse error: eof");
}

#[test]
fn save_refuses_invalid_and_reports_warnings() {
    let mut cfg = Config::default();
    cfg.private_key_path = "/k".into();
    let e = ValidationError { field: ConfigField::Username, err: FieldError::UsernameEmpty };
    let r = save_config_decision(&cfg, Err(e), Some(0o600)).err().unwrap();
    assert_eq!(r.notice, Message::ConfigInvalid("username: username is empty".into()));
    assert_eq!(r.error, "username: username is empty");

    let ok = save_config_decision(&cfg, Ok(()), Some(0o100604)).ok().unwrap();
    assert_eq!(
        ok.warnings,
        vec!["Private key permissions look too open (604) and OpenSSH may reject it: /k".to_string()]
    );
    assert!(save_config_decision(&cfg, Ok(()), None).ok().unwrap().warnings.is_empty());
    cfg.mode = UploadMode::Local;
    assert!(save_config_decision(&cfg, Ok(()), Some(0o777)).ok().unwrap().warnings.is_empty());
}

#[test]
fn upload_response_returns_path_or_text() {
    let ok = Ok(UploadSuccess { remote_path: "/r/x".into(), clipboard_updated: false });
    assert_eq!(upload_response(&ok), Ok("/r/x".to_string()));
    assert_eq!(
        upload_response(&Err(UploadError::ClipboardEmpty)),
        Err("clipboard is empty or unsupported".to_string())
    );
}

#[test]
fn test_connection_failure_is_shown_as_mkdir_failure() {
    assert!(test_connection_response(Ok(())).is_ok());
    let r = test_connection_response(Err(TestConnectionError::ProbeTouch("ro".into())))
        .err()
        .unwrap();
    assert_eq!(r.notice, Message::MkdirFailed("probe touch failed: ro".into()));
    assert_eq!(r.error, "probe touch failed: ro");
}

#[test]
fn only_ssh_mode_needs_binaries() {
    let mut cfg = Config::default();
    assert!(needs_ssh_binaries(&cfg));
    cfg.mode = UploadMode::Local;
    assert!(!needs_ssh_binaries(&cfg));
}

#[test]
fn probe_names_are_random_and_shaped() {
    let a = new_probe_name();
    let b = new_probe_name();
    let re = regex::Regex::new(r"^\.clipship-probe-[a-z0-9]{8}$").unwrap();
    assert!(re.is_match(&a), "unexpected: {a}");
    assert_ne!(a, b);
}
