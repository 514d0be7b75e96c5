//! The decisions behind the commands the settings window and the tray invoke: what each
//! returns to the caller and which notification it shows.
use vstd::prelude::*;
use crate::config::validate::FieldWarning;
use crate::config::{is_default_config, Config, ConfigError, UploadMode, ValidationError};
use crate::notify::{Message, MessageV};
use crate::ssh::availability::Availability;
use crate::test_connection::{test_error_text, TestConnectionError};
use crate::text::{octal, owned, push_digits, push_str};
use crate::upload::errors::{error_text_spec, UploadError};
use crate::upload::service::UploadSuccess;

verus! {

/// The answer to saving the configuration: warnings to show next to the saved settings.
#[derive(Debug, Clone, PartialEq, Eq)]
pub struct SaveConfigResponse {
    pub warnings: Vec<String>,
}

/// A refusal: the notification to show and the error text to return.
#[derive(Debug)]
pub struct Refusal {
    pub notice: Message,
    pub error: String,
}

/// The text of a warning.
pub open spec fn warning_text_spec(path: Seq<char>, mode: u32) -> Seq<char> {
    "Private key permissions look too open ("@ + octal(mode as nat)
        + ") and OpenSSH may reject it: "@ + path
}

/// The text of a warning, with the permission bits in octal.
pub fn warning_text(w: FieldWarning) -> (r: String)
    ensures
        r@ == warning_text_spec(w.path(), w.mode()),
{
    match w {
        FieldWarning::PrivateKeyLoosePermissions { path, mode } => {
            let mut s = owned("Private key permissions look too open (");
            push_digits(&mut s, mode as u64, 8);
            push_str(&mut s, ") and OpenSSH may reject it: ");
            push_str(&mut s, path.as_str());
            s
        },
    }
}

/// The error text returned when `ssh` or `scp` cannot be started.
pub open spec fn binaries_missing_text() -> Seq<char> {
    "ssh or scp missing on PATH"@
}

/// Before any SSH work: both programs must be reachable; otherwise show "missing" and fail.
pub fn ensure_ssh_scp(a: &Availability) -> (r: Result<(), Refusal>)
    ensures
        r is Ok <==> (a.ssh && a.scp),
        r is Err ==> r->Err_0.notice@ == MessageV::SshBinariesMissing && r->Err_0.error@
            == binaries_missing_text(),
{
    if a.all_present() {
        Ok(())
    } else {
        Err(Refusal { notice: Message::SshBinariesMissing, error: owned("ssh or scp missing on PATH") })
    }
}

/// Loading the configuration for the settings window: a missing file (`not_found`, the I/O
/// error being "not found") gives the defaults; any other failure returns its text.
pub fn load_config_response(r: Result<Config, ConfigError>, not_found: bool) -> (out: Result<
    Config,
    String,
>)
    ensures
        match r {
            Ok(c) => out == Ok::<Config, String>(c),
            Err(ConfigError::Io(_)) if not_found => out is Ok && is_default_config(out->Ok_0),
            Err(e) => out is Err && out->Err_0@ == e.message_spec(),
        },
{
    match r {
        Ok(c) => Ok(c),
        Err(ConfigError::Io(e)) if not_found => Ok(Config::default()),
        Err(e) => Err(e.message()),
    }
}

/// A configuration that cannot be loaded before an upload: show it as invalid and fail with
/// its text.
pub fn config_load_failure(e: &ConfigError) -> (r: Refusal)
    ensures
        r.notice@ == MessageV::ConfigInvalid(e.message_spec()),
        r.error@ == e.message_spec(),
{
    let m = e.message();
    let n = m.clone();
    Refusal { notice: Message::ConfigInvalid(n), error: m }
}

/// Saving the configuration: refused (and shown as invalid) when it does not validate;
/// otherwise the warnings to show, as text.
pub fn save_config_decision(
    cfg: &Config,
    validation: Result<(), ValidationError>,
    key_mode: Option<u32>,
) -> (r: Result<SaveConfigResponse, Refusal>)
    ensures
        r is Err <==> validation is Err,
        r is Err ==> r->Err_0.notice@ == MessageV::ConfigInvalid(validation->Err_0.message_spec())
            && r->Err_0.error@ == validation->Err_0.message_spec(),
        r is Ok ==> {
            let ws = r->Ok_0.warnings@;
            &&& ws.len() <= 1
            &&& (ws.len() == 1 <==> (cfg.mode == UploadMode::Ssh
                && crate::config::validate::private_key_permissions_spec(key_mode) is Some))
            &&& ws.len() == 1 ==> ws[0]@ == warning_text_spec(
                cfg.private_key_path@,
                crate::config::validate::private_key_permissions_spec(key_mode)->Some_0,
            )
        },
{
    match validation {
        Err(e) => {
            let m = e.message();
            let n = m.clone();
            Err(Refusal { notice: Message::ConfigInvalid(n), error: m })
        },
        Ok(()) => {
            let mut ws = cfg.warnings(key_mode);
            let mut out: Vec<String> = Vec::new();
            if ws.len() == 1 {
                let w = ws.pop().unwrap();
                out.push(warning_text(w));
            }
            Ok(SaveConfigResponse { warnings: out })
        },
    }
}

/// The answer of "upload now": the remote path, or the error text.
pub fn upload_response(r: &Result<UploadSuccess, UploadError>) -> (out: Result<String, String>)
    ensures
        match r {
            Ok(s) => out is Ok && out->Ok_0@ == s.remote_path@,
            Err(e) => out is Err && out->Err_0@ == error_text_spec(e@),
        },
{
    match r {
        Ok(s) => Ok(s.remote_path.clone()),
        Err(e) => Err(e.message()),
    }
}

/// The answer of "test connection": a failure is shown as a remote-directory failure and its
/// text returned.
pub fn test_connection_response(r: Result<(), TestConnectionError>) -> (out: Result<(), Refusal>)
    ensures
        r is Ok <==> out is Ok,
        r is Err ==> out->Err_0.notice@ == MessageV::MkdirFailed(test_error_text(r->Err_0@))
            && out->Err_0.error@ == test_error_text(r->Err_0@),
{
    match r {
        Ok(()) => Ok(()),
        Err(e) => {
            let m = e.message();
            let n = m.clone();
            Err(Refusal { notice: Message::MkdirFailed(n), error: m })
        },
    }
}

/// A shortcut-triggered upload checks for `ssh`/`scp` only in SSH mode.
pub fn needs_ssh_binaries(cfg: &Config) -> (r: bool)
    ensures
        r == (cfg.mode == UploadMode::Ssh),
{
    cfg.mode == UploadMode::Ssh
}

} // verus!
