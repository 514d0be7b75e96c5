//! Periodic removal of old uploads: which local files are stale, and the remote command.
use vstd::prelude::*;
use crate::clipboard::adapter::strings_view;
use crate::config::Config;
use crate::ssh::commands::{find_and_delete_old, find_and_delete_old_spec};
use crate::ssh::runner::CmdOutcome;
use crate::text::{owned, push_str};

verus! {

/// How old, in days, an upload must be before the automatic cleanup deletes it.
pub const MAX_AGE_DAYS: u64 = 7;

/// Seconds in a day.
pub const SECS_PER_DAY: u64 = 86_400;

/// The cleanup age in seconds (seven days), used for local files; the remote `find` uses the
/// same age in days.
pub const MAX_AGE_SECS: u64 = MAX_AGE_DAYS * SECS_PER_DAY;

/// How often, in seconds, the automatic cleanup runs (hourly).
pub const CLEANUP_INTERVAL_SECS: u64 = 3_600;

/// With automatic cleanup on, the age beyond which uploads are deleted; with it off, none.
pub fn auto_cleanup_max_age(cfg: &Config) -> (r: Option<u64>)
    ensures
        r == (if cfg.auto_cleanup {
            Some(MAX_AGE_SECS)
        } else {
            None::<u64>
        }),
        r is Some ==> r->Some_0 == 604_800,
{
    if cfg.auto_cleanup {
        Some(MAX_AGE_SECS)
    } else {
        None
    }
}

/// The SSH settings needed for a remote command are all filled in.
pub open spec fn is_ssh_complete_spec(cfg: Config) -> bool {
    cfg.host@.len() > 0 && cfg.username@.len() > 0 && cfg.private_key_path@.len() > 0
        && cfg.remote_dir@.len() > 0
}

/// Whether host, user name, private key path and remote directory are all non-empty.
pub fn is_ssh_complete(cfg: &Config) -> (r: bool)
    ensures
        r == is_ssh_complete_spec(*cfg),
{
    cfg.host.as_str().unicode_len() > 0 && cfg.username.as_str().unicode_len() > 0
        && cfg.private_key_path.as_str().unicode_len() > 0 && cfg.remote_dir.as_str().unicode_len()
        > 0
}

/// The remote cleanup command (`find <remote_dir> -maxdepth 1 -mtime +7 -type f -delete` over
/// SSH, with the age `MAX_AGE_DAYS`), or none when the SSH settings are incomplete.
pub fn cleanup_remote_command(cfg: &Config) -> (r: Option<Vec<String>>)
    ensures
        r is Some <==> is_ssh_complete_spec(*cfg),
        r is Some ==> strings_view(r->Some_0@) == find_and_delete_old_spec(
            cfg.port,
            cfg.private_key_path@,
            cfg.username@,
            cfg.host@,
            cfg.remote_dir@,
        ),
{
    if !is_ssh_complete(cfg) {
        return None;
    }
    Some(
        find_and_delete_old(
            cfg.port,
            cfg.private_key_path.as_str(),
            cfg.username.as_str(),
            cfg.host.as_str(),
            cfg.remote_dir.as_str(),
        ),
    )
}

/// The log line for the outcome of the remote cleanup: failures are logged, success is not.
pub open spec fn cleanup_report_spec(ok: bool, success: bool, text: Seq<char>) -> Option<Seq<char>> {
    if !ok {
        Some("cleanup_remote: ssh error: "@ + text)
    } else if !success {
        Some("cleanup_remote: remote find/delete failed: "@ + text)
    } else {
        None
    }
}

/// What to log after the remote cleanup ran (`Err` holds the error text of a failed spawn).
pub fn cleanup_remote_report(r: &Result<CmdOutcome, String>) -> (l: Option<String>)
    ensures
        match r {
            Ok(o) => match l {
                Some(s) => cleanup_report_spec(true, o.success, o.stderr@) == Some(s@),
                None => cleanup_report_spec(true, o.success, o.stderr@) is None,
            },
            Err(e) => match l {
                Some(s) => cleanup_report_spec(false, false, e@) == Some(s@),
                None => false,
            },
        },
{
    match r {
        Ok(o) => {
            if !o.success {
                let mut s = owned("cleanup_remote: remote find/delete failed: ");
                push_str(&mut s, o.stderr.as_str());
                Some(s)
            } else {
                None
            }
        },
        Err(e) => {
            let mut s = owned("cleanup_remote: ssh error: ");
            push_str(&mut s, e.as_str());
            Some(s)
        },
    }
}

/// One directory entry as the file system reported it: whether it is a regular file (false
/// when its metadata could not be read) and its modification time in nanoseconds since the
/// Unix epoch (none when unavailable).
#[derive(Debug, Clone, Copy)]
pub struct LocalEntry {
    pub is_file: bool,
    pub modified_nanos: Option<i128>,
}

/// The earliest time a Unix `SystemTime` can hold, in nanoseconds since the epoch.
pub const MIN_TIME_NANOS: i128 = -9_223_372_036_854_775_808_000_000_000;

/// The cut-off time: `max_age` before `now`, when that is representable.
pub open spec fn threshold_spec(now_nanos: i128, max_age_nanos: u64) -> Option<i128> {
    if now_nanos - max_age_nanos >= MIN_TIME_NANOS {
        Some((now_nanos - max_age_nanos) as i128)
    } else {
        None
    }
}

/// An entry is removed when it is a regular file modified before the cut-off.
pub open spec fn is_stale(e: LocalEntry, threshold: i128) -> bool {
    e.is_file && e.modified_nanos is Some && e.modified_nanos->Some_0 < threshold
}

/// The indices, in order, of the stale entries among the first `n`.
pub open spec fn stale_indices(es: Seq<LocalEntry>, threshold: i128, n: nat) -> Seq<usize>
    decreases n,
{
    if n == 0 {
        Seq::empty()
    } else {
        let prev = stale_indices(es, threshold, (n - 1) as nat);
        if is_stale(es[n - 1], threshold) {
            prev.push((n - 1) as usize)
        } else {
            prev
        }
    }
}

/// Which entries of a directory to delete: the regular files modified more than `max_age`
/// before `now` (all in nanoseconds). Nothing is deleted when the cut-off is not
/// representable.
pub fn cleanup_local_plan(now_nanos: i128, max_age_nanos: u64, entries: &Vec<LocalEntry>) -> (r:
    Option<Vec<usize>>)
    ensures
        r is Some <==> threshold_spec(now_nanos, max_age_nanos) is Some,
        r is Some ==> r->Some_0@ == stale_indices(
            entries@,
            threshold_spec(now_nanos, max_age_nanos)->Some_0,
            entries@.len(),
        ),
{
    let age: i128 = max_age_nanos as i128;
    if now_nanos < MIN_TIME_NANOS + age {
        return None;
    }
    let threshold: i128 = now_nanos - age;
    let mut out: Vec<usize> = Vec::new();
    let mut i: usize = 0;
    while i < entries.len()
        invariant
            i <= entries.len(),
            out@ == stale_indices(entries@, threshold, i as nat),
        decreases entries.len() - i,
    {
        let e = entries[i];
        let stale = e.is_file && match e.modified_nanos {
            Some(m) => m < threshold,
            None => false,
        };
        if stale {
            out.push(i);
        }
        i = i + 1;
    }
    Some(out)
}

/// An entry is deleted exactly when it is a stale regular file.
pub proof fn law_stale_iff_listed(es: Seq<LocalEntry>, threshold: i128, n: nat, k: usize)
    requires
        n <= es.len(),
        es.len() <= usize::MAX,
    ensures
        stale_indices(es, threshold, n).contains(k) <==> (k < n && is_stale(es[k as int], threshold)),
    decreases n,
{
    if n > 0 {
        law_stale_iff_listed(es, threshold, (n - 1) as nat, k);
        let prev = stale_indices(es, threshold, (n - 1) as nat);
        if is_stale(es[n - 1], threshold) {
            let cur = prev.push((n - 1) as usize);
            assert(cur[prev.len() as int] == (n - 1) as usize);
            if cur.contains(k) {
                let j = choose|j: int| 0 <= j < cur.len() && #[trigger] cur[j] == k;
                if j < prev.len() {
                    assert(prev[j] == k);
                }
            }
            if prev.contains(k) {
                let j = choose|j: int| 0 <= j < prev.len() && #[trigger] prev[j] == k;
                assert(cur[j] == k);
            }
        }
    }
}

} // verus!
