//! The fixed `-o key=value` options passed to both `ssh` and `scp`.
use vstd::prelude::*;
use crate::clipboard::adapter::strings_view;
use crate::text::owned;

verus! {

/// `-o BatchMode=yes -o StrictHostKeyChecking=accept-new -o ConnectTimeout=10
/// -o ServerAliveInterval=15 -o ServerAliveCountMax=3`.
pub open spec fn ssh_options_spec() -> Seq<Seq<char>> {
    seq![
        "-o"@,
        "BatchMode=yes"@,
        "-o"@,
        "StrictHostKeyChecking=accept-new"@,
        "-o"@,
        "ConnectTimeout=10"@,
        "-o"@,
        "ServerAliveInterval=15"@,
        "-o"@,
        "ServerAliveCountMax=3"@,
    ]
}

/// Appends the shared options to `v`.
pub fn push_ssh_options(v: &mut Vec<String>)
    ensures
        strings_view(final(v)@) == strings_view(old(v)@) + ssh_options_spec(),
{
    v.push(owned("-o"));
    v.push(owned("BatchMode=yes"));
    v.push(owned("-o"));
    v.push(owned("StrictHostKeyChecking=accept-new"));
    v.push(owned("-o"));
    v.push(owned("ConnectTimeout=10"));
    v.push(owned("-o"));
    v.push(owned("ServerAliveInterval=15"));
    v.push(owned("-o"));
    v.push(owned("ServerAliveCountMax=3"));
    assert(strings_view(v@) =~= strings_view(old(v)@) + ssh_options_spec());
}

/// The shared options as a list.
pub fn ssh_options() -> (r: Vec<String>)
    ensures
        strings_view(r@) == ssh_options_spec(),
{
    let mut v: Vec<String> = Vec::new();
    push_ssh_options(&mut v);
    assert(strings_view(Seq::<String>::empty()) =~= Seq::<Seq<char>>::empty());
    v
}

} // verus!
