use clipship::config::validate::{
    host, port, private_key_path, private_key_permissions, remote_dir, shortcut, username,
    FieldError, FieldWarning,
};
use clipship::config::{
    check_version, Config, ConfigError, ConfigField, LocalChecks, UploadMode, ValidationError,
};

// `host` takes, beside the text, whether the text parses as an IPv6 address.

#[test]
fn host_accepts_common_forms() {
    for (ok, v6) in [("example.com", false), ("10.0.0.1", false), ("::1", true), ("my_host", false)] {
        host(ok, v6).unwrap_or_else(|e| panic!("{ok}: {e:?}"));
    }
}

#[test]
fn host_rejects_arg_injection_and_space() {
    assert!(host("-oProxyCommand=evil", false).is_err());
    assert!(host("example com", false).is_err());
    assert!(host("[::1]", false).is_err());
    assert!(host("", false).is_err());
}

#[test]
fn host_rejects_malformed_colon_strings() {
    assert!(host("example:foo", false).is_err());
    assert!(host("host:22", false).is_err());
    assert!(host("not::quite::right", false).is_err());
}

#[test]
fn host_error_kinds() {
    assert_eq!(host("", false), Err(FieldError::HostEmpty));
    assert_eq!(host("-x", false), Err(FieldError::HostInvalid));
    // A leading dash is refused before the IPv6 answer is consulted.
    assert_eq!(host("-::1", true), Err(FieldError::HostInvalid));
    assert_eq!(host("a b", false), Err(FieldError::HostInvalid));
}

#[test]
fn username_rules() {
    assert!(username("alice").is_ok());
    assert!(username("alice_01").is_ok());
    assert!(username("").is_err());
    assert!(username("-evil").is_err());
    assert!(username("has space").is_err());
    assert!(username("has$dollar").is_err());
}

#[test]
fn username_error_kinds() {
    assert_eq!(username(""), Err(FieldError::UsernameEmpty));
    assert_eq!(username("-evil"), Err(FieldError::UsernameInvalid));
    assert_eq!(username("a.b-c"), Ok(()));
}

#[test]
fn port_range() {
    assert!(port(22).is_ok());
    assert!(port(1).is_ok());
    assert!(port(65535).is_ok());
    assert!(port(0).is_err());
    assert!(port(65536).is_err());
    assert_eq!(port(0), Err(FieldError::PortOutOfRange));
}

#[test]
fn remote_dir_rules() {
    assert!(remote_dir("/home/ubuntu/uploads").is_ok());
    assert!(remote_dir("home/ubuntu").is_err()); // not absolute
    assert!(remote_dir("/home/../etc").is_err()); // traversal
    assert!(remote_dir("/home/user with space").is_err()); // space
    assert!(remote_dir("/home/`whoami`").is_err()); // backtick
    assert!(remote_dir("/home/$(id)").is_err()); // dollar
    assert!(remote_dir("/home/上传").is_err()); // non-ASCII
    assert!(remote_dir("/home/\nuser").is_err()); // newline
}

#[test]
fn remote_dir_error_kinds() {
    assert_eq!(remote_dir("home"), Err(FieldError::RemoteDirNotAbsolute));
    assert_eq!(remote_dir(""), Err(FieldError::RemoteDirNotAbsolute));
    assert_eq!(remote_dir("/a/.."), Err(FieldError::RemoteDirTraversal));
    assert_eq!(remote_dir("/../a"), Err(FieldError::RemoteDirTraversal));
    assert_eq!(remote_dir("/a/..b"), Ok(()));
    assert_eq!(remote_dir("/a/b.."), Ok(()));
    assert_eq!(remote_dir("/a b"), Err(FieldError::RemoteDirUnsafe));
    assert_eq!(remote_dir("/上"), Err(FieldError::RemoteDirNonAscii));
    // Non-ASCII is reported before a relative path.
    assert_eq!(remote_dir("上"), Err(FieldError::RemoteDirNonAscii));
}

#[test]
fn shortcut_rules() {
    assert!(shortcut("CmdOrCtrl+Shift+U").is_ok());
    assert!(matches!(shortcut("not a shortcut"), Err(FieldError::ShortcutInvalid)));
    assert!(matches!(shortcut("CmdOrCtrl++"), Err(FieldError::ShortcutInvalid)));
    assert!(shortcut("   ").is_err());
    assert_eq!(shortcut("   "), Err(FieldError::ShortcutEmpty));
    assert_eq!(shortcut(""), Err(FieldError::ShortcutEmpty));
}

#[test]
fn private_key_path_checks_existence() {
    assert!(private_key_path("/definitely/does/not/exist/xyz").is_err());
    assert_eq!(private_key_path("/definitely/does/not/exist/xyz"), Err(FieldError::KeyMissing));
    // The running test binary (and the password file) are existing regular files.
    assert!(private_key_path("/proc/self/exe").is_ok() || private_key_path("/etc/passwd").is_ok());
    // A directory is not a key file.
    assert_eq!(private_key_path("/"), Err(FieldError::KeyMissing));
}

#[test]
fn private_key_permissions_warns_on_group_or_other_readable() {
    let p = "/home/me/.ssh/id_ed25519";
    // Tight: 0o600 -> no warning.
    assert!(private_key_permissions(p, Some(0o100600)).is_none());
    // Loose: 0o644 -> warn.
    match private_key_permissions(p, Some(0o100644)) {
        Some(FieldWarning::PrivateKeyLoosePermissions { mode, path }) => {
            assert_eq!(mode & 0o077, 0o044);
            assert_eq!(mode, 0o644);
            assert_eq!(path, p);
        }
        other => panic!("expected loose-perm warning, got {other:?}"),
    }
    // Unknown metadata -> no warning.
    assert!(private_key_permissions(p, None).is_none());
}

#[test]
fn field_error_messages() {
    assert_eq!(FieldError::HostEmpty.message(), "host is empty");
    assert_eq!(FieldError::PortOutOfRange.message(), "port must be between 1 and 65535");
    assert_eq!(FieldError::ShortcutInvalid.message(), "shortcut has invalid syntax");
    assert_eq!(
        FieldError::RemoteDirNonAscii.message(),
        "remote_dir contains non-ASCII characters; v1 does not support them"
    );
}

#[test]
fn load_rejects_file_without_version_field() {
    assert_eq!(check_version(None), Err(ConfigError::UnversionedOrUnsupported));
}

#[test]
fn load_rejects_future_version() {
    assert_eq!(check_version(Some(2)), Err(ConfigError::UnversionedOrUnsupported));
    assert_eq!(check_version(Some(1)), Ok(()));
    // The version is compared after truncation to 32 bits.
    assert_eq!(check_version(Some((1u64 << 32) + 1)), Ok(()));
}

#[test]
fn config_error_messages() {
    assert_eq!(
        ConfigError::UnversionedOrUnsupported.message(),
        "config file missing `version` field or has unsupported version"
    );
    assert_eq!(ConfigError::Io("gone".into()).message(), "io error: gone");
    assert_eq!(ConfigError::Parse("bad".into()).message(), "parse error: bad");
}

fn ssh_config() -> Config {
    let mut cfg = Config::default();
    cfg.host = "example.com".into();
    cfg.username = "alice".into();
    cfg.private_key_path = "/k".into();
    cfg.remote_dir = "/srv/up".into();
    cfg
}

const GOOD: LocalChecks = LocalChecks { host_is_ipv6: false, key_file_exists: true };

#[test]
fn default_config_values() {
    let cfg = Config::default();
    assert_eq!(cfg.version, 1);
    assert_eq!(cfg.mode, UploadMode::Ssh);
    assert_eq!(cfg.port, 22);
    assert_eq!(cfg.shortcut, "CmdOrCtrl+Shift+U");
    assert!(!cfg.shortcut_double_tap && !cfg.auto_cleanup && !cfg.auto_paste);
}

#[test]
fn validate_accepts_complete_ssh_config() {
    assert_eq!(ssh_config().validate(GOOD), Ok(()));
}

#[test]
fn validate_reports_fields_in_order() {
    let mut cfg = ssh_config();
    cfg.host = String::new();
    cfg.username = String::new();
    assert_eq!(
        cfg.validate(GOOD),
        Err(ValidationError { field: ConfigField::Host, err: FieldError::HostEmpty })
    );
    let mut cfg = ssh_config();
    cfg.port = 0;
    assert_eq!(
        cfg.validate(GOOD),
        Err(ValidationError { field: ConfigField::Port, err: FieldError::PortOutOfRange })
    );
    let cfg = ssh_config();
    assert_eq!(
        cfg.validate(LocalChecks { host_is_ipv6: false, key_file_exists: false }),
        Err(ValidationError { field: ConfigField::PrivateKeyPath, err: FieldError::KeyMissing })
    );
    let mut cfg = ssh_config();
    cfg.remote_dir = "rel".into();
    assert_eq!(
        cfg.validate(GOOD),
        Err(ValidationError { field: ConfigField::RemoteDir, err: FieldError::RemoteDirNotAbsolute })
    );
    let mut cfg = ssh_config();
    cfg.shortcut = "  ".into();
    assert_eq!(
        cfg.validate(GOOD),
        Err(ValidationError { field: ConfigField::Shortcut, err: FieldError::ShortcutEmpty })
    );
}

#[test]
fn validate_local_mode_checks_only_the_shortcut() {
    let mut cfg = Config::default();
    cfg.mode = UploadMode::Local;
    cfg.port = 0;
    assert_eq!(cfg.validate(LocalChecks { host_is_ipv6: false, key_file_exists: false }), Ok(()));
    cfg.shortcut = "nope nope".into();
    assert_eq!(
        cfg.validate(GOOD),
        Err(ValidationError { field: ConfigField::Shortcut, err: FieldError::ShortcutInvalid })
    );
}

#[test]
fn validation_error_message_names_the_field() {
    let e = ValidationError { field: ConfigField::RemoteDir, err: FieldError::RemoteDirTraversal };
    assert_eq!(e.message(), "remote_dir: remote_dir contains '..' path segment");
}

#[test]
fn warnings_only_in_ssh_mode() {
    let cfg = ssh_config();
    assert_eq!(
        cfg.warnings(Some(0o640)),
        vec![FieldWarning::PrivateKeyLoosePermissions { path: "/k".into(), mode: 0o640 }]
    );
    assert!(cfg.warnings(Some(0o600)).is_empty());
    let mut local = ssh_config();
    local.mode = UploadMode::Local;
    assert!(local.warnings(Some(0o644)).is_empty());
}

#[test]
fn config_file_lives_under_clipship() {
    assert_eq!(
        clipship::config::config_file("/home/me/.config"),
        "/home/me/.config/clipship/config.json"
    );
    assert_eq!(clipship::config::config_file("/cfg/"), "/cfg/clipship/config.json");
}

#[test]
fn private_key_path_accepts_an_existing_file() {
    let candidates = ["/etc/passwd", "/proc/self/exe", "Cargo.toml"];
    assert!(candidates.iter().any(|p| private_key_path(p).is_ok()));
}
