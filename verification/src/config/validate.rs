//! Field-by-field validation rules of the configuration.
use vstd::prelude::*;
use vstd::string::*;
use crate::naming::filename::{is_safe, is_safe_char, is_whitespace, is_whitespace_spec};
use crate::text::owned;

verus! {

/// Why a configuration field is rejected.
#[derive(Debug, Clone, Copy, PartialEq, Eq, Structural)]
pub enum FieldError {
    HostEmpty,
    HostInvalid,
    UsernameEmpty,
    UsernameInvalid,
    PortOutOfRange,
    RemoteDirNotAbsolute,
    RemoteDirTraversal,
    RemoteDirUnsafe,
    RemoteDirNonAscii,
    KeyMissing,
    ShortcutEmpty,
    ShortcutInvalid,
}

/// Non-fatal warnings the UI surfaces alongside a successful validation.
#[derive(Debug, Clone, PartialEq, Eq)]
pub enum FieldWarning {
    /// On macOS/Linux, OpenSSH rejects keys whose group/other bits allow read.
    PrivateKeyLoosePermissions { path: String, mode: u32 },
}

impl FieldWarning {
    pub open spec fn path(&self) -> Seq<char> {
        match self {
            FieldWarning::PrivateKeyLoosePermissions { path, .. } => path@,
        }
    }

    pub open spec fn mode(&self) -> u32 {
        match self {
            FieldWarning::PrivateKeyLoosePermissions { mode, .. } => *mode,
        }
    }
}

/// Every character of `s` is in `[A-Za-z0-9._-]`.
pub open spec fn all_safe(s: Seq<char>) -> bool {
    forall|i: int| 0 <= i < s.len() ==> is_safe_char(#[trigger] s[i])
}

/// Host rule: non-empty, not starting with `-`; a host holding `:` must be an IPv6 address;
/// any other host may hold only `[A-Za-z0-9._-]`.
pub open spec fn host_spec(s: Seq<char>, is_ipv6: bool) -> Result<(), FieldError> {
    if s.len() == 0 {
        Err(FieldError::HostEmpty)
    } else if s[0] == '-' {
        Err(FieldError::HostInvalid)
    } else if s.contains(':') {
        if is_ipv6 {
            Ok(())
        } else {
            Err(FieldError::HostInvalid)
        }
    } else if all_safe(s) {
        Ok(())
    } else {
        Err(FieldError::HostInvalid)
    }
}

/// Username rule: non-empty, not starting with `-`, only `[A-Za-z0-9._-]`.
pub open spec fn username_spec(s: Seq<char>) -> Result<(), FieldError> {
    if s.len() == 0 {
        Err(FieldError::UsernameEmpty)
    } else if s[0] == '-' {
        Err(FieldError::UsernameInvalid)
    } else if !all_safe(s) {
        Err(FieldError::UsernameInvalid)
    } else {
        Ok(())
    }
}

/// Port rule: 1 to 65535.
pub open spec fn port_spec(p: u32) -> Result<(), FieldError> {
    if 1 <= p && p <= 65535 {
        Ok(())
    } else {
        Err(FieldError::PortOutOfRange)
    }
}

/// Every character is ASCII.
pub open spec fn is_ascii_text(s: Seq<char>) -> bool {
    forall|i: int| 0 <= i < s.len() ==> (#[trigger] s[i]) <= '\u{7f}'
}

/// `s`, split at `/`, has a segment that is exactly `..`.
pub open spec fn has_parent_segment(s: Seq<char>) -> bool {
    exists|i: int|
        0 <= i && i + 1 < s.len() && #[trigger] s[i] == '.' && s[i + 1] == '.' && (i == 0 || s[i
            - 1] == '/') && (i + 2 == s.len() || s[i + 2] == '/')
}

/// `[A-Za-z0-9_./-]`.
pub open spec fn is_dir_char(c: char) -> bool {
    is_safe_char(c) || c == '/'
}

/// Remote directory rule: ASCII, absolute, no `..` segment, only `[A-Za-z0-9_./-]`.
pub open spec fn remote_dir_spec(s: Seq<char>) -> Result<(), FieldError> {
    if !is_ascii_text(s) {
        Err(FieldError::RemoteDirNonAscii)
    } else if !(s.len() > 0 && s[0] == '/') {
        Err(FieldError::RemoteDirNotAbsolute)
    } else if has_parent_segment(s) {
        Err(FieldError::RemoteDirTraversal)
    } else if !(forall|i: int| 0 <= i < s.len() ==> is_dir_char(#[trigger] s[i])) {
        Err(FieldError::RemoteDirUnsafe)
    } else {
        Ok(())
    }
}

/// Whether the global-shortcut library accepts `s` as an accelerator.
pub uninterp spec fn shortcut_accepted(s: Seq<char>) -> bool;

/// Every character is whitespace (what `trim().is_empty()` tests).
pub open spec fn all_whitespace(s: Seq<char>) -> bool {
    forall|i: int| 0 <= i < s.len() ==> is_whitespace_spec(#[trigger] s[i])
}

/// Shortcut rule: not blank, and accepted by the shortcut library.
pub open spec fn shortcut_spec(s: Seq<char>) -> Result<(), FieldError> {
    if all_whitespace(s) {
        Err(FieldError::ShortcutEmpty)
    } else if !shortcut_accepted(s) {
        Err(FieldError::ShortcutInvalid)
    } else {
        Ok(())
    }
}

/// The permission bits (within `0o777`) that make a key too open, if any: group or other bits.
pub open spec fn private_key_permissions_spec(mode: Option<u32>) -> Option<u32> {
    match mode {
        Some(m) => if (m & 0o777u32) & 0o077u32 != 0 {
            Some(m & 0o777u32)
        } else {
            None
        },
        None => None,
    }
}

fn all_safe_chars(s: &str) -> (r: bool)
    ensures
        r == all_safe(s@),
{
    let n = s.unicode_len();
    let mut i: usize = 0;
    while i < n
        invariant
            n == s@.len(),
            i <= n,
            forall|j: int| 0 <= j < i ==> is_safe_char(#[trigger] s@[j]),
        decreases n - i,
    {
        if !is_safe(s.get_char(i)) {
            return false;
        }
        i = i + 1;
    }
    true
}

/// Validate the host; `is_ipv6` says whether the host parses as an IPv6 address.
pub fn host(s: &str, is_ipv6: bool) -> (r: Result<(), FieldError>)
    ensures
        r == host_spec(s@, is_ipv6),
{
    let n = s.unicode_len();
    if n == 0 {
        return Err(FieldError::HostEmpty);
    }
    if s.get_char(0) == '-' {
        return Err(FieldError::HostInvalid);
    }
    if crate::text::contains_char(s, ':') {
        if is_ipv6 {
            Ok(())
        } else {
            Err(FieldError::HostInvalid)
        }
    } else if all_safe_chars(s) {
        Ok(())
    } else {
        Err(FieldError::HostInvalid)
    }
}

/// Validate the SSH user name.
pub fn username(s: &str) -> (r: Result<(), FieldError>)
    ensures
        r == username_spec(s@),
{
    let n = s.unicode_len();
    if n == 0 {
        return Err(FieldError::UsernameEmpty);
    }
    if s.get_char(0) == '-' {
        return Err(FieldError::UsernameInvalid);
    }
    if !all_safe_chars(s) {
        return Err(FieldError::UsernameInvalid);
    }
    Ok(())
}

/// Validate the SSH port.
pub fn port(p: u32) -> (r: Result<(), FieldError>)
    ensures
        r == port_spec(p),
{
    if !(1 <= p && p <= 65535) {
        return Err(FieldError::PortOutOfRange);
    }
    Ok(())
}

/// Validate the remote directory.
pub fn remote_dir(s: &str) -> (r: Result<(), FieldError>)
    ensures
        r == remote_dir_spec(s@),
{
    let n = s.unicode_len();
    let mut i: usize = 0;
    while i < n
        invariant
            n == s@.len(),
            i <= n,
            forall|j: int| 0 <= j < i ==> (#[trigger] s@[j]) <= '\u{7f}',
        decreases n - i,
    {
        if s.get_char(i) > '\u{7f}' {
            return Err(FieldError::RemoteDirNonAscii);
        }
        i = i + 1;
    }
    if !(n > 0 && s.get_char(0) == '/') {
        return Err(FieldError::RemoteDirNotAbsolute);
    }
    let mut k: usize = 0;
    while k < n - 1
        invariant
            n == s@.len(),
            n > 0,
            k <= n,
            is_ascii_text(s@),
            s@[0] == '/',
            forall|j: int|
                0 <= j < k && j + 1 < n ==> !(#[trigger] s@[j] == '.' && s@[j + 1] == '.' && (j
                    == 0 || s@[j - 1] == '/') && (j + 2 == n || s@[j + 2] == '/')),
        decreases n - k,
    {
        if s.get_char(k) == '.' && s.get_char(k + 1) == '.' && (k == 0 || s.get_char(k - 1)
            == '/') && (k + 2 == n || s.get_char(k + 2) == '/') {
            assert(s@[k as int] == '.');
            return Err(FieldError::RemoteDirTraversal);
        }
        k = k + 1;
    }
    assert(!has_parent_segment(s@));
    let mut j: usize = 0;
    while j < n
        invariant
            n == s@.len(),
            j <= n,
            forall|m: int| 0 <= m < j ==> is_dir_char(#[trigger] s@[m]),
            is_ascii_text(s@),
            n > 0,
            s@[0] == '/',
            !has_parent_segment(s@),
        decreases n - j,
    {
        let c = s.get_char(j);
        if !(is_safe(c) || c == '/') {
            assert(!is_dir_char(s@[j as int]));
            return Err(FieldError::RemoteDirUnsafe);
        }
        j = j + 1;
    }
    Ok(())
}

/// Whether `path` names an existing regular file.
///
/// Trusted: `std::path::Path::is_file`. The answer depends on the file system at the time of
/// the call, so nothing is stated of it.
#[verifier::external_body]
fn is_regular_file(path: &str) -> bool {
    std::path::Path::new(path).is_file()
}

/// Check that the private key path names an existing regular file.
pub fn private_key_path(p: &str) -> (r: Result<(), FieldError>)
    ensures
        r is Ok || r == Err::<(), FieldError>(FieldError::KeyMissing),
{
    if !is_regular_file(p) {
        return Err(FieldError::KeyMissing);
    }
    Ok(())
}

/// A warning when the key's permission bits (`mode`, when the OS reports them) let group or
/// others read it; the warning carries the path and the bits within `0o777`.
pub fn private_key_permissions(p: &str, mode: Option<u32>) -> (r: Option<FieldWarning>)
    ensures
        r is Some <==> private_key_permissions_spec(mode) is Some,
        r is Some ==> r->Some_0.path() == p@ && r->Some_0.mode()
            == private_key_permissions_spec(mode)->Some_0,
{
    match mode {
        Some(m) => {
            let bits = m & 0o777u32;
            if bits & 0o077u32 != 0 {
                Some(FieldWarning::PrivateKeyLoosePermissions { path: owned(p), mode: bits })
            } else {
                None
            }
        },
        None => None,
    }
}

/// Whether the global-shortcut library parses `s` as a hotkey.
///
/// Trusted: `global_hotkey::hotkey::HotKey::from_str` (the parser behind
/// `tauri_plugin_global_shortcut::Shortcut`). Its source parses the text alone, the same way
/// on every platform, so the answer is named `shortcut_accepted`.
#[verifier::external_body]
fn shortcut_parses(s: &str) -> (r: bool)
    ensures
        r == shortcut_accepted(s@),
{
    <global_hotkey::hotkey::HotKey as std::str::FromStr>::from_str(s).is_ok()
}

fn is_blank(s: &str) -> (r: bool)
    ensures
        r == all_whitespace(s@),
{
    let n = s.unicode_len();
    let mut i: usize = 0;
    while i < n
        invariant
            n == s@.len(),
            i <= n,
            forall|j: int| 0 <= j < i ==> is_whitespace_spec(#[trigger] s@[j]),
        decreases n - i,
    {
        if !is_whitespace(s.get_char(i)) {
            return false;
        }
        i = i + 1;
    }
    true
}

/// Validate the global shortcut accelerator.
pub fn shortcut(s: &str) -> (r: Result<(), FieldError>)
    ensures
        r == shortcut_spec(s@),
{
    if is_blank(s) {
        return Err(FieldError::ShortcutEmpty);
    }
    if !shortcut_parses(s) {
        return Err(FieldError::ShortcutInvalid);
    }
    Ok(())
}

impl FieldError {
    pub open spec fn message_spec(&self) -> Seq<char> {
        match self {
            FieldError::HostEmpty => "host is empty"@,
            FieldError::HostInvalid => "host has invalid characters or starts with '-'"@,
            FieldError::UsernameEmpty => "username is empty"@,
            FieldError::UsernameInvalid => "username has invalid characters or starts with '-'"@,
            FieldError::PortOutOfRange => "port must be between 1 and 65535"@,
            FieldError::RemoteDirNotAbsolute => "remote_dir must start with '/'"@,
            FieldError::RemoteDirTraversal => "remote_dir contains '..' path segment"@,
            FieldError::RemoteDirUnsafe => "remote_dir contains unsafe characters"@,
            FieldError::RemoteDirNonAscii =>
                "remote_dir contains non-ASCII characters; v1 does not support them"@,
            FieldError::KeyMissing => "private_key_path does not exist"@,
            FieldError::ShortcutEmpty => "shortcut is empty"@,
            FieldError::ShortcutInvalid => "shortcut has invalid syntax"@,
        }
    }

    /// The user-facing text of the error.
    pub fn message(&self) -> (r: String)
        ensures
            r@ == self.message_spec(),
    {
        let s: &'static str = match self {
            FieldError::HostEmpty => "host is empty",
            FieldError::HostInvalid => "host has invalid characters or starts with '-'",
            FieldError::UsernameEmpty => "username is empty",
            FieldError::UsernameInvalid => "username has invalid characters or starts with '-'",
            FieldError::PortOutOfRange => "port must be between 1 and 65535",
            FieldError::RemoteDirNotAbsolute => "remote_dir must start with '/'",
            FieldError::RemoteDirTraversal => "remote_dir contains '..' path segment",
            FieldError::RemoteDirUnsafe => "remote_dir contains unsafe characters",
            FieldError::RemoteDirNonAscii =>
                "remote_dir contains non-ASCII characters; v1 does not support them",
            FieldError::KeyMissing => "private_key_path does not exist",
            FieldError::ShortcutEmpty => "shortcut is empty",
            FieldError::ShortcutInvalid => "shortcut has invalid syntax",
        };
        owned(s)
    }
}

/// A host that is not empty, does not start with `-`, holds no `:` and is made only of ASCII
/// letters, digits, `.`, `_` and `-` is accepted, whatever the IPv6 answer; such a host with any
/// other character is refused as invalid.
pub proof fn law_host_plain_names(s: Seq<char>, is_ipv6: bool)
    requires
        s.len() > 0,
        s[0] != '-',
        forall|i: int| 0 <= i < s.len() ==> #[trigger] s[i] != ':',
    ensures
        (forall|i: int|
            0 <= i < s.len() ==> ({
                let c = #[trigger] s[i];
                ('A' <= c && c <= 'Z') || ('a' <= c && c <= 'z') || ('0' <= c && c <= '9') || c
                    == '.' || c == '_' || c == '-'
            })) ==> host_spec(s, is_ipv6) == Ok::<(), FieldError>(()),
        (exists|i: int|
            0 <= i < s.len() && !({
                let c = #[trigger] s[i];
                ('A' <= c && c <= 'Z') || ('a' <= c && c <= 'z') || ('0' <= c && c <= '9') || c
                    == '.' || c == '_' || c == '-'
            })) ==> host_spec(s, is_ipv6) == Err::<(), FieldError>(FieldError::HostInvalid),
{
    assert(!s.contains(':'));
    if exists|i: int|
        0 <= i < s.len() && !({
            let c = #[trigger] s[i];
            ('A' <= c && c <= 'Z') || ('a' <= c && c <= 'z') || ('0' <= c && c <= '9') || c == '.'
                || c == '_' || c == '-'
        }) {
        let i = choose|i: int|
            0 <= i < s.len() && !({
                let c = #[trigger] s[i];
                ('A' <= c && c <= 'Z') || ('a' <= c && c <= 'z') || ('0' <= c && c <= '9') || c
                    == '.' || c == '_' || c == '-'
            });
        assert(!is_safe_char(s[i]));
    }
}

/// A host that starts with something other than `-` and holds a `:` is accepted exactly when it
/// parses as an IPv6 address.
pub proof fn law_host_with_colon(s: Seq<char>, is_ipv6: bool)
    requires
        s.len() > 0,
        s[0] != '-',
        exists|i: int| 0 <= i < s.len() && s[i] == ':',
    ensures
        host_spec(s, is_ipv6) == (if is_ipv6 {
            Ok::<(), FieldError>(())
        } else {
            Err(FieldError::HostInvalid)
        }),
{
    let i = choose|i: int| 0 <= i < s.len() && s[i] == ':';
    assert(s.contains(':'));
}

} // verus!
