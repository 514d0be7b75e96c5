//! Argument vectors for the `ssh` and `scp` invocations of an upload, a connection test and
//! the remote cleanup. Arguments are passed as an array (no local shell); only the last
//! argument of an `ssh` call is a remote shell command, with paths in single quotes.
use vstd::prelude::*;
use crate::cleanup::MAX_AGE_DAYS;
use crate::clipboard::adapter::strings_view;
use crate::naming::remote_path::{scp_target, scp_target_spec, ssh_user_host, ssh_user_host_spec};
use crate::ssh::availability::{SCP_BIN, SSH_BIN};
use crate::ssh::opts::{push_ssh_options, ssh_options_spec};
use crate::text::{decimal, owned, push_char, push_digits, push_str};

verus! {

/// `ssh -p <port> -i <key> <options> user@host`.
pub open spec fn ssh_base_spec(port: u16, key: Seq<char>, user: Seq<char>, host: Seq<char>) -> Seq<
    Seq<char>,
> {
    seq![SSH_BIN@, "-p"@, decimal(port as nat), "-i"@, key] + ssh_options_spec() + seq![
        ssh_user_host_spec(user, host),
    ]
}

/// `scp -P <port> -i <key> <options>`.
pub open spec fn scp_base_spec(port: u16, key: Seq<char>) -> Seq<Seq<char>> {
    seq![SCP_BIN@, "-P"@, decimal(port as nat), "-i"@, key] + ssh_options_spec()
}

/// `'<path>'`.
pub open spec fn quoted(path: Seq<char>) -> Seq<char> {
    seq!['\''] + path + seq!['\'']
}

pub open spec fn mkdir_spec(
    port: u16,
    key: Seq<char>,
    user: Seq<char>,
    host: Seq<char>,
    remote_dir: Seq<char>,
) -> Seq<Seq<char>> {
    ssh_base_spec(port, key, user, host).push("mkdir -p "@ + quoted(remote_dir))
}

pub open spec fn rm_part_spec(
    port: u16,
    key: Seq<char>,
    user: Seq<char>,
    host: Seq<char>,
    part: Seq<char>,
) -> Seq<Seq<char>> {
    ssh_base_spec(port, key, user, host).push("rm -f "@ + quoted(part))
}

pub open spec fn mv_no_overwrite_spec(
    port: u16,
    key: Seq<char>,
    user: Seq<char>,
    host: Seq<char>,
    part: Seq<char>,
    final_path: Seq<char>,
) -> Seq<Seq<char>> {
    ssh_base_spec(port, key, user, host).push("mv -n "@ + quoted(part) + seq![' '] + quoted(final_path))
}

pub open spec fn scp_upload_spec(
    port: u16,
    key: Seq<char>,
    user: Seq<char>,
    host: Seq<char>,
    local_path: Seq<char>,
    part: Seq<char>,
) -> Seq<Seq<char>> {
    scp_base_spec(port, key) + seq![local_path, scp_target_spec(user, host, part)]
}

pub open spec fn probe_touch_spec(
    port: u16,
    key: Seq<char>,
    user: Seq<char>,
    host: Seq<char>,
    remote_dir: Seq<char>,
    probe: Seq<char>,
) -> Seq<Seq<char>> {
    ssh_base_spec(port, key, user, host).push("touch "@ + quoted(remote_dir + seq!['/'] + probe))
}

pub open spec fn probe_remove_spec(
    port: u16,
    key: Seq<char>,
    user: Seq<char>,
    host: Seq<char>,
    remote_dir: Seq<char>,
    probe: Seq<char>,
) -> Seq<Seq<char>> {
    ssh_base_spec(port, key, user, host).push("rm "@ + quoted(remote_dir + seq!['/'] + probe))
}

pub open spec fn find_and_delete_old_spec(
    port: u16,
    key: Seq<char>,
    user: Seq<char>,
    host: Seq<char>,
    remote_dir: Seq<char>,
) -> Seq<Seq<char>> {
    ssh_base_spec(port, key, user, host).push(
        "find "@ + quoted(remote_dir) + " -maxdepth 1 -mtime +"@ + decimal(MAX_AGE_DAYS as nat)
            + " -type f -delete"@,
    )
}

fn decimal_string(n: u16) -> (r: String)
    ensures
        r@ == decimal(n as nat),
{
    let mut s = String::new();
    push_digits(&mut s, n as u64, 10);
    assert(s@ =~= decimal(n as nat));
    s
}

fn ssh_base(port: u16, key: &str, user: &str, host: &str) -> (r: Vec<String>)
    ensures
        strings_view(r@) == ssh_base_spec(port, key@, user@, host@),
{
    let mut v: Vec<String> = Vec::new();
    v.push(owned(SSH_BIN));
    v.push(owned("-p"));
    v.push(decimal_string(port));
    v.push(owned("-i"));
    v.push(owned(key));
    assert(strings_view(v@) =~= seq![SSH_BIN@, "-p"@, decimal(port as nat), "-i"@, key@]);
    push_ssh_options(&mut v);
    let uh = ssh_user_host(user, host);
    push_command(&mut v, uh);
    assert(strings_view(v@) =~= ssh_base_spec(port, key@, user@, host@));
    v
}

fn scp_base(port: u16, key: &str) -> (r: Vec<String>)
    ensures
        strings_view(r@) == scp_base_spec(port, key@),
{
    let mut v: Vec<String> = Vec::new();
    v.push(owned(SCP_BIN));
    v.push(owned("-P"));
    v.push(decimal_string(port));
    v.push(owned("-i"));
    v.push(owned(key));
    assert(strings_view(v@) =~= seq![SCP_BIN@, "-P"@, decimal(port as nat), "-i"@, key@]);
    push_ssh_options(&mut v);
    assert(strings_view(v@) =~= scp_base_spec(port, key@));
    v
}

fn push_quoted(s: &mut String, path: &str)
    ensures
        final(s)@ == old(s)@ + quoted(path@),
{
    push_char(s, '\'');
    push_str(s, path);
    push_char(s, '\'');
    assert(final(s)@ =~= old(s)@ + quoted(path@));
}

fn push_command(v: &mut Vec<String>, cmd: String)
    ensures
        strings_view(final(v)@) == strings_view(old(v)@).push(cmd@),
{
    v.push(cmd);
    assert(strings_view(final(v)@) =~= strings_view(old(v)@).push(cmd@));
}

/// `ssh ... "mkdir -p '<remote_dir>'"`.
pub fn mkdir(port: u16, key: &str, user: &str, host: &str, remote_dir: &str) -> (r: Vec<String>)
    ensures
        strings_view(r@) == mkdir_spec(port, key@, user@, host@, remote_dir@),
{
    let mut v = ssh_base(port, key, user, host);
    let mut c = owned("mkdir -p ");
    push_quoted(&mut c, remote_dir);
    push_command(&mut v, c);
    v
}

/// `ssh ... "rm -f '<part>'"`.
pub fn rm_part(port: u16, key: &str, user: &str, host: &str, remote_part_path: &str) -> (r: Vec<
    String,
>)
    ensures
        strings_view(r@) == rm_part_spec(port, key@, user@, host@, remote_part_path@),
{
    let mut v = ssh_base(port, key, user, host);
    let mut c = owned("rm -f ");
    push_quoted(&mut c, remote_part_path);
    push_command(&mut v, c);
    v
}

/// `ssh ... "mv -n '<part>' '<final>'"` (never overwrites an existing final file).
pub fn mv_no_overwrite(
    port: u16,
    key: &str,
    user: &str,
    host: &str,
    remote_part_path: &str,
    remote_final_path: &str,
) -> (r: Vec<String>)
    ensures
        strings_view(r@) == mv_no_overwrite_spec(
            port,
            key@,
            user@,
            host@,
            remote_part_path@,
            remote_final_path@,
        ),
{
    let mut v = ssh_base(port, key, user, host);
    let mut c = owned("mv -n ");
    push_quoted(&mut c, remote_part_path);
    push_char(&mut c, ' ');
    push_quoted(&mut c, remote_final_path);
    assert(c@ =~= "mv -n "@ + quoted(remote_part_path@) + seq![' '] + quoted(remote_final_path@));
    push_command(&mut v, c);
    v
}

/// `scp ... <local_path> user@host:<part>` (the host bracketed when it is an IPv6 literal).
pub fn scp_upload(
    port: u16,
    key: &str,
    user: &str,
    host: &str,
    local_path: &str,
    remote_part_path: &str,
) -> (r: Vec<String>)
    ensures
        strings_view(r@) == scp_upload_spec(port, key@, user@, host@, local_path@, remote_part_path@),
{
    let mut v = scp_base(port, key);
    v.push(owned(local_path));
    v.push(scp_target(user, host, remote_part_path));
    assert(strings_view(v@) =~= scp_upload_spec(
        port,
        key@,
        user@,
        host@,
        local_path@,
        remote_part_path@,
    ));
    v
}

/// `ssh ... "touch '<remote_dir>/<probe>'"`.
pub fn probe_touch(
    port: u16,
    key: &str,
    user: &str,
    host: &str,
    remote_dir: &str,
    probe_name: &str,
) -> (r: Vec<String>)
    ensures
        strings_view(r@) == probe_touch_spec(port, key@, user@, host@, remote_dir@, probe_name@),
{
    let mut v = ssh_base(port, key, user, host);
    let mut p = owned(remote_dir);
    push_char(&mut p, '/');
    push_str(&mut p, probe_name);
    let mut c = owned("touch ");
    push_quoted(&mut c, p.as_str());
    assert(p@ =~= remote_dir@ + seq!['/'] + probe_name@);
    push_command(&mut v, c);
    v
}

/// `ssh ... "rm '<remote_dir>/<probe>'"`.
pub fn probe_remove(
    port: u16,
    key: &str,
    user: &str,
    host: &str,
    remote_dir: &str,
    probe_name: &str,
) -> (r: Vec<String>)
    ensures
        strings_view(r@) == probe_remove_spec(port, key@, user@, host@, remote_dir@, probe_name@),
{
    let mut v = ssh_base(port, key, user, host);
    let mut p = owned(remote_dir);
    push_char(&mut p, '/');
    push_str(&mut p, probe_name);
    let mut c = owned("rm ");
    push_quoted(&mut c, p.as_str());
    assert(p@ =~= remote_dir@ + seq!['/'] + probe_name@);
    push_command(&mut v, c);
    v
}

/// `ssh ... "find '<remote_dir>' -maxdepth 1 -mtime +<MAX_AGE_DAYS> -type f -delete"`: delete
/// the files directly in the directory that were last modified more than the cleanup age ago.
pub fn find_and_delete_old(port: u16, key: &str, user: &str, host: &str, remote_dir: &str) -> (r:
    Vec<String>)
    ensures
        strings_view(r@) == find_and_delete_old_spec(port, key@, user@, host@, remote_dir@),
{
    let mut v = ssh_base(port, key, user, host);
    let mut c = owned("find ");
    push_quoted(&mut c, remote_dir);
    push_str(&mut c, " -maxdepth 1 -mtime +");
    push_digits(&mut c, MAX_AGE_DAYS, 10);
    push_str(&mut c, " -type f -delete");
    push_command(&mut v, c);
    v
}

/// The configured port reaches every command: `scp` gets it (in decimal) right after `-P`,
/// and each `ssh` command right after `-p`, as the third argument.
pub proof fn law_port_reaches_every_command(
    port: u16,
    key: Seq<char>,
    user: Seq<char>,
    host: Seq<char>,
    local_path: Seq<char>,
    part: Seq<char>,
    final_path: Seq<char>,
    remote_dir: Seq<char>,
)
    ensures
        scp_upload_spec(port, key, user, host, local_path, part)[1] == "-P"@,
        scp_upload_spec(port, key, user, host, local_path, part)[2] == decimal(port as nat),
        mkdir_spec(port, key, user, host, remote_dir)[1] == "-p"@,
        mkdir_spec(port, key, user, host, remote_dir)[2] == decimal(port as nat),
        rm_part_spec(port, key, user, host, part)[2] == decimal(port as nat),
        mv_no_overwrite_spec(port, key, user, host, part, final_path)[2] == decimal(port as nat),
        find_and_delete_old_spec(port, key, user, host, remote_dir)[2] == decimal(port as nat),
{
}

} // verus!
