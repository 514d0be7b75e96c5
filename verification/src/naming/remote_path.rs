//! Remote path and `user@host` target construction.
use vstd::prelude::*;
use vstd::string::*;
use crate::text::{contains_char, ends_with_char, owned, push_char, push_str, starts_with_char};

verus! {

/// `remote_dir` and `filename` joined by exactly the separator that is missing.
pub open spec fn join_spec(remote_dir: Seq<char>, filename: Seq<char>) -> Seq<char> {
    if remote_dir.len() > 0 && remote_dir.last() == '/' {
        remote_dir + filename
    } else {
        remote_dir + seq!['/'] + filename
    }
}

/// The staging path: the final path with `.part` appended.
pub open spec fn part_path_spec(final_path: Seq<char>) -> Seq<char> {
    final_path + seq!['.', 'p', 'a', 'r', 't']
}

/// `user@host`.
pub open spec fn ssh_user_host_spec(user: Seq<char>, host: Seq<char>) -> Seq<char> {
    user + seq!['@'] + host
}

/// A host is treated as a bare IPv6 literal when it holds a `:` and does not start with `[`.
pub open spec fn is_ipv6_literal_spec(host: Seq<char>) -> bool {
    host.contains(':') && !(host.len() > 0 && host[0] == '[')
}

/// `user@host:path`, with the host in brackets when it is a bare IPv6 literal.
pub open spec fn scp_target_spec(user: Seq<char>, host: Seq<char>, remote_path: Seq<char>) -> Seq<
    char,
> {
    if is_ipv6_literal_spec(host) {
        user + seq!['@', '['] + host + seq![']', ':'] + remote_path
    } else {
        user + seq!['@'] + host + seq![':'] + remote_path
    }
}

/// Join a remote directory (absolute, validated) and a filename.
pub fn join(remote_dir: &str, filename: &str) -> (r: String)
    ensures
        r@ == join_spec(remote_dir@, filename@),
{
    let mut out = owned(remote_dir);
    if !ends_with_char(remote_dir, '/') {
        push_char(&mut out, '/');
    }
    push_str(&mut out, filename);
    assert(out@ =~= join_spec(remote_dir@, filename@));
    out
}

/// Append the `.part` suffix for the atomic-rename staging file.
pub fn part_path(final_path: &str) -> (r: String)
    ensures
        r@ == part_path_spec(final_path@),
{
    let mut out = owned(final_path);
    push_char(&mut out, '.');
    push_char(&mut out, 'p');
    push_char(&mut out, 'a');
    push_char(&mut out, 'r');
    push_char(&mut out, 't');
    assert(out@ =~= part_path_spec(final_path@));
    out
}

/// Build the `user@host` form for SSH.  Hostnames, IPv4 literals, and bare IPv6 literals
/// are passed unbracketed.
pub fn ssh_user_host(user: &str, host: &str) -> (r: String)
    ensures
        r@ == ssh_user_host_spec(user@, host@),
{
    let mut out = owned(user);
    push_char(&mut out, '@');
    push_str(&mut out, host);
    assert(out@ =~= ssh_user_host_spec(user@, host@));
    out
}

/// Build the `user@host:path` form for SCP.  IPv6 literal hosts are bracketed here,
/// otherwise scp cannot tell the host from the colons of the remote path.
pub fn scp_target(user: &str, host: &str, remote_path: &str) -> (r: String)
    ensures
        r@ == scp_target_spec(user@, host@, remote_path@),
{
    let mut out = owned(user);
    push_char(&mut out, '@');
    if is_ipv6_literal(host) {
        push_char(&mut out, '[');
        push_str(&mut out, host);
        push_char(&mut out, ']');
    } else {
        push_str(&mut out, host);
    }
    push_char(&mut out, ':');
    push_str(&mut out, remote_path);
    assert(out@ =~= scp_target_spec(user@, host@, remote_path@));
    out
}

/// An IPv6 literal is detected by the presence of `:` without a leading `[`.
/// Hostnames and IPv4 literals never contain `:`, and pre-bracketed input is passed through.
pub fn is_ipv6_literal(host: &str) -> (r: bool)
    ensures
        r == is_ipv6_literal_spec(host@),
{
    contains_char(host, ':') && !starts_with_char(host, '[')
}

/// The scp target brackets the host exactly when it holds a `:` and does not already start
/// with `[`: `user@[host]:path` then, `user@host:path` otherwise.
pub proof fn law_scp_target_brackets_colon_hosts(user: Seq<char>, host: Seq<char>, path: Seq<char>)
    ensures
        (exists|i: int| 0 <= i < host.len() && host[i] == ':') && !(host.len() > 0 && host[0]
            == '[') ==> scp_target_spec(user, host, path) == user + seq!['@', '['] + host + seq![
            ']',
            ':',
        ] + path,
        !((exists|i: int| 0 <= i < host.len() && host[i] == ':') && !(host.len() > 0 && host[0]
            == '[')) ==> scp_target_spec(user, host, path) == user + seq!['@'] + host + seq![':']
            + path,
{
    assert(host.contains(':') == (exists|i: int| 0 <= i < host.len() && host[i] == ':'));
}

} // verus!
