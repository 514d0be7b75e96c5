//! The saved configuration, its version check, and whole-configuration validation.
pub mod validate;

use vstd::prelude::*;
use vstd::string::*;
use crate::text::push_str;
use self::validate::{
    all_safe, host_spec, port_spec, remote_dir_spec, shortcut_spec, username_spec, FieldError,
    FieldWarning, private_key_permissions_spec,
};
use crate::naming::filename::is_ascii_alnum;

verus! {

/// The only configuration file version this program reads and writes.
pub const CURRENT_VERSION: u32 = 1;

/// Where uploads go.
#[derive(Debug, Clone, Copy, PartialEq, Eq, Structural)]
pub enum UploadMode {
    /// Upload to a remote host with `ssh`/`scp`.
    Ssh,
    /// Copy into a local output directory.
    Local,
}

/// The user's settings.
#[derive(Debug, Clone)]
pub struct Config {
    pub version: u32,
    pub mode: UploadMode,
    pub host: String,
    pub port: u16,
    pub username: String,
    pub private_key_path: String,
    pub remote_dir: String,
    pub shortcut: String,
    pub shortcut_double_tap: bool,
    pub auto_cleanup: bool,
    pub auto_paste: bool,
}

/// The default settings: current version, SSH mode, port 22, the shortcut
/// `CmdOrCtrl+Shift+U`, every other text empty and every switch off.
pub open spec fn is_default_config(c: Config) -> bool {
    &&& c.version == CURRENT_VERSION
    &&& c.mode == UploadMode::Ssh
    &&& c.host@.len() == 0
    &&& c.port == 22
    &&& c.username@.len() == 0
    &&& c.private_key_path@.len() == 0
    &&& c.remote_dir@.len() == 0
    &&& c.shortcut@ == "CmdOrCtrl+Shift+U"@
    &&& !c.shortcut_double_tap
    &&& !c.auto_cleanup
    &&& !c.auto_paste
}

impl Default for Config {
    fn default() -> (r: Self)
        ensures
            is_default_config(r),
    {
        Config {
            version: CURRENT_VERSION,
            mode: UploadMode::Ssh,
            host: String::new(),
            port: 22,
            username: String::new(),
            private_key_path: String::new(),
            remote_dir: String::new(),
            shortcut: String::from_str("CmdOrCtrl+Shift+U"),
            shortcut_double_tap: false,
            auto_cleanup: false,
            auto_paste: false,
        }
    }
}

/// Why a configuration file could not be used.
#[derive(Debug, Clone, PartialEq, Eq)]
pub enum ConfigError {
    /// The file has no `version` field, or one this program does not support.
    UnversionedOrUnsupported,
    /// Reading or writing the file failed (the OS error text).
    Io(String),
    /// The file is not valid JSON for a configuration (the parser's error text).
    Parse(String),
}

/// The configuration field a validation error is about.
#[derive(Debug, Clone, Copy, PartialEq, Eq, Structural)]
pub enum ConfigField {
    Host,
    Port,
    Username,
    PrivateKeyPath,
    RemoteDir,
    Shortcut,
}

/// A failed validation: the first field that failed and how.
#[derive(Debug, Clone, Copy, PartialEq, Eq, Structural)]
pub struct ValidationError {
    pub field: ConfigField,
    pub err: FieldError,
}

/// Facts about the configuration that only the operating system can supply.
#[derive(Debug, Clone, Copy)]
pub struct LocalChecks {
    /// Whether the host parses as an IPv6 address.
    pub host_is_ipv6: bool,
    /// Whether the private key path names an existing regular file.
    pub key_file_exists: bool,
}

/// Accepts a stored `version` value exactly when, cut to 32 bits, it is the current version.
pub open spec fn version_ok_spec(version: Option<u64>) -> bool {
    match version {
        Some(n) => n % 0x1_0000_0000 == CURRENT_VERSION,
        None => false,
    }
}

/// Whole-configuration validation: the SSH fields are checked only in SSH mode, in the order
/// host, port, username, private key, remote directory; the shortcut is always checked last.
pub open spec fn validate_spec(cfg: Config, checks: LocalChecks) -> Result<(), ValidationError> {
    if cfg.mode == UploadMode::Ssh && host_spec(cfg.host@, checks.host_is_ipv6) is Err {
        Err(ValidationError { field: ConfigField::Host, err: host_spec(cfg.host@, checks.host_is_ipv6)->Err_0 })
    } else if cfg.mode == UploadMode::Ssh && port_spec(cfg.port as u32) is Err {
        Err(ValidationError { field: ConfigField::Port, err: port_spec(cfg.port as u32)->Err_0 })
    } else if cfg.mode == UploadMode::Ssh && username_spec(cfg.username@) is Err {
        Err(ValidationError { field: ConfigField::Username, err: username_spec(cfg.username@)->Err_0 })
    } else if cfg.mode == UploadMode::Ssh && !checks.key_file_exists {
        Err(ValidationError { field: ConfigField::PrivateKeyPath, err: FieldError::KeyMissing })
    } else if cfg.mode == UploadMode::Ssh && remote_dir_spec(cfg.remote_dir@) is Err {
        Err(ValidationError { field: ConfigField::RemoteDir, err: remote_dir_spec(cfg.remote_dir@)->Err_0 })
    } else if shortcut_spec(cfg.shortcut@) is Err {
        Err(ValidationError { field: ConfigField::Shortcut, err: shortcut_spec(cfg.shortcut@)->Err_0 })
    } else {
        Ok(())
    }
}

/// Decide whether a stored `version` value (as read from the file) may be loaded.
pub fn check_version(version: Option<u64>) -> (r: Result<(), ConfigError>)
    ensures
        r is Ok <==> version_ok_spec(version),
        r is Err ==> r->Err_0 is UnversionedOrUnsupported,
{
    match version {
        Some(n) => {
            let low: u32 = n as u32;
            assert((n as u32 == 1u32) == (n % 0x1_0000_0000 == 1)) by (bit_vector);
            if low == CURRENT_VERSION {
                Ok(())
            } else {
                Err(ConfigError::UnversionedOrUnsupported)
            }
        },
        None => Err(ConfigError::UnversionedOrUnsupported),
    }
}

impl ConfigError {
    pub open spec fn message_spec(&self) -> Seq<char> {
        match self {
            ConfigError::UnversionedOrUnsupported =>
                "config file missing `version` field or has unsupported version"@,
            ConfigError::Io(e) => "io error: "@ + e@,
            ConfigError::Parse(e) => "parse error: "@ + e@,
        }
    }

    /// The user-facing text of the error.
    pub fn message(&self) -> (r: String)
        ensures
            r@ == self.message_spec(),
    {
        match self {
            ConfigError::UnversionedOrUnsupported => String::from_str(
                "config file missing `version` field or has unsupported version",
            ),
            ConfigError::Io(e) => {
                let mut s = String::from_str("io error: ");
                push_str(&mut s, e.as_str());
                s
            },
            ConfigError::Parse(e) => {
                let mut s = String::from_str("parse error: ");
                push_str(&mut s, e.as_str());
                s
            },
        }
    }
}

impl ConfigField {
    /// The field's name as it appears in the configuration file.
    pub fn name(&self) -> (r: &'static str)
        ensures
            r@ == (match self {
                ConfigField::Host => "host"@,
                ConfigField::Port => "port"@,
                ConfigField::Username => "username"@,
                ConfigField::PrivateKeyPath => "private_key_path"@,
                ConfigField::RemoteDir => "remote_dir"@,
                ConfigField::Shortcut => "shortcut"@,
            }),
    {
        match self {
            ConfigField::Host => "host",
            ConfigField::Port => "port",
            ConfigField::Username => "username",
            ConfigField::PrivateKeyPath => "private_key_path",
            ConfigField::RemoteDir => "remote_dir",
            ConfigField::Shortcut => "shortcut",
        }
    }
}

impl ValidationError {
    pub open spec fn message_spec(&self) -> Seq<char> {
        self.field.name_spec() + ": "@ + self.err.message_spec()
    }

    /// `<field>: <reason>`.
    pub fn message(&self) -> (r: String)
        ensures
            r@ == self.message_spec(),
    {
        let mut s = String::from_str(self.field.name());
        push_str(&mut s, ": ");
        let m = self.err.message();
        push_str(&mut s, m.as_str());
        s
    }
}

impl ConfigField {
    pub open spec fn name_spec(&self) -> Seq<char> {
        match self {
            ConfigField::Host => "host"@,
            ConfigField::Port => "port"@,
            ConfigField::Username => "username"@,
            ConfigField::PrivateKeyPath => "private_key_path"@,
            ConfigField::RemoteDir => "remote_dir"@,
            ConfigField::Shortcut => "shortcut"@,
        }
    }
}

impl Config {
    /// Validate the configuration for its mode (see `validate_spec`), given the facts that only
    /// the operating system can supply.
    pub fn validate(&self, checks: LocalChecks) -> (r: Result<(), ValidationError>)
        ensures
            r == validate_spec(*self, checks),
    {
        if self.mode == UploadMode::Ssh {
            if let Err(e) = validate::host(self.host.as_str(), checks.host_is_ipv6) {
                return Err(ValidationError { field: ConfigField::Host, err: e });
            }
            if let Err(e) = validate::port(self.port as u32) {
                return Err(ValidationError { field: ConfigField::Port, err: e });
            }
            if let Err(e) = validate::username(self.username.as_str()) {
                return Err(ValidationError { field: ConfigField::Username, err: e });
            }
            if !checks.key_file_exists {
                return Err(
                    ValidationError { field: ConfigField::PrivateKeyPath, err: FieldError::KeyMissing },
                );
            }
            if let Err(e) = validate::remote_dir(self.remote_dir.as_str()) {
                return Err(ValidationError { field: ConfigField::RemoteDir, err: e });
            }
        }
        if let Err(e) = validate::shortcut(self.shortcut.as_str()) {
            return Err(ValidationError { field: ConfigField::Shortcut, err: e });
        }
        Ok(())
    }

    /// Non-fatal warnings for a configuration that validates: in SSH mode, a private key whose
    /// permission bits (`key_mode`, when the OS reports them) let group or others read it.
    pub fn warnings(&self, key_mode: Option<u32>) -> (r: Vec<FieldWarning>)
        ensures
            r@.len() <= 1,
            r@.len() == 1 <==> (self.mode == UploadMode::Ssh && private_key_permissions_spec(
                key_mode,
            ) is Some),
            r@.len() == 1 ==> r@[0].path() == self.private_key_path@ && r@[0].mode()
                == private_key_permissions_spec(key_mode)->Some_0,
    {
        let mut v: Vec<FieldWarning> = Vec::new();
        if self.mode == UploadMode::Ssh {
            if let Some(w) = validate::private_key_permissions(
                self.private_key_path.as_str(),
                key_mode,
            ) {
                v.push(w);
            }
        }
        v
    }
}

/// `base` joined with a plain relative component `part`: `base`, then a separator when one is
/// needed, then `part`.
pub open spec fn joined(base: Seq<char>, part: Seq<char>, r: Seq<char>) -> bool {
    ||| r == base + part
    ||| r == base + seq!['/'] + part
    ||| r == base + seq!['\\'] + part
}

/// `s` starts with a Windows verbatim prefix `\\?\`.
pub open spec fn verbatim_prefixed(s: Seq<char>) -> bool {
    s.len() >= 4 && s[0] == '\\' && s[1] == '\\' && s[2] == '?' && s[3] == '\\'
}

/// `Path::join` of `base` with a relative component. The documentation of `Path::push` says
/// that a relative path extends the existing one, with a separator added if needed, except
/// that on Windows a base with a verbatim prefix (`\\?\`) is normalized (its `.` and `..`
/// components removed). For a base without that prefix the contract says that the result is
/// `base`, possibly one separator (`/`, or `\` on Windows), then `part`; which separator, and
/// whether one is added, is left unsaid. Of a verbatim base nothing is stated.
#[verifier::external_body]
fn path_join(base: &str, part: &str) -> (r: String)
    requires
        part@.len() > 0,
        is_ascii_alnum(part@[0]),
        all_safe(part@),
    ensures
        !verbatim_prefixed(base@) ==> joined(base@, part@, r@),
{
    std::path::Path::new(base).join(part).to_string_lossy().into_owned()
}

/// The one base that is not verbatim but becomes so once a separator and a name are added.
pub open spec fn verbatim_stub(s: Seq<char>) -> bool {
    s.len() == 3 && s[0] == '\\' && s[1] == '\\' && s[2] == '?'
}

/// Where the configuration file lives inside the application's configuration directory:
/// `<dir>/clipship/config.json`. Nothing is stated when `dir` is (or begins) a Windows
/// verbatim path, which the platform normalizes.
pub fn config_file(app_config_dir: &str) -> (r: String)
    ensures
        !verbatim_prefixed(app_config_dir@) && !verbatim_stub(app_config_dir@) ==> exists|
            mid: Seq<char>,
        |
            {
                &&& joined(app_config_dir@, "clipship"@, mid)
                &&& joined(mid, "config.json"@, r@)
            },
{
    proof {
        reveal_strlit("clipship");
        reveal_strlit("config.json");
    }
    let dir = path_join(app_config_dir, "clipship");
    proof {
        let b = app_config_dir@;
        if !verbatim_prefixed(b) && !verbatim_stub(b) {
            let m = dir@;
            if b.len() >= 4 {
                assert(m[0] == b[0] && m[1] == b[1] && m[2] == b[2] && m[3] == b[3]);
            } else {
                assert(m.len() >= 4);
                assert(!verbatim_prefixed(m));
            }
        }
    }
    path_join(dir.as_str(), "config.json")
}

} // verus!
