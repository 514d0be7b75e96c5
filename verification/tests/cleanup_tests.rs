use clipship::cleanup::{auto_cleanup_max_age, CLEANUP_INTERVAL_SECS, MAX_AGE_DAYS, MAX_AGE_SECS};
use clipship::cleanup::{
    cleanup_local_plan, cleanup_remote_command, cleanup_remote_report, is_ssh_complete, LocalEntry,
};
use clipship::config::Config;
use clipship::ssh::runner::CmdOutcome;

#[test]
fn is_ssh_complete_false_when_any_field_empty() {
    let cfg = Config::default();
    assert!(!is_ssh_complete(&cfg));
}

#[test]
fn is_ssh_complete_false_when_only_host_set() {
    let mut cfg = Config::default();
    cfg.host = "h".into();
    // username, private_key_path, remote_dir still empty
    assert!(!is_ssh_complete(&cfg));
}

#[test]
fn is_ssh_complete_true_when_all_fields_set() {
    let mut cfg = Config::default();
    cfg.host = "h".into();
    cfg.username = "u".into();
    cfg.private_key_path = "/k".into();
    cfg.remote_dir = "/tmp/clipship".into();
    assert!(is_ssh_complete(&cfg));
}

#[test]
fn cleanup_remote_is_skipped_when_ssh_incomplete() {
    let cfg = Config::default();
    assert!(cleanup_remote_command(&cfg).is_none());
}

#[test]
fn cleanup_remote_runs_find_over_ssh() {
    let mut cfg = Config::default();
    cfg.host = "h.com".into();
    cfg.username = "u".into();
    cfg.private_key_path = "/k".into();
    cfg.remote_dir = "/r".into();
    let argv = cleanup_remote_command(&cfg).unwrap();
    assert_eq!(argv[0], "ssh");
    assert_eq!(argv[argv.len() - 2], "u@h.com");
    assert_eq!(argv[argv.len() - 1], "find '/r' -maxdepth 1 -mtime +7 -type f -delete");
}

#[test]
fn cleanup_remote_logs_failures_only() {
    let ok = CmdOutcome { success: true, stdout: String::new(), stderr: String::new() };
    assert_eq!(cleanup_remote_report(&Ok(ok)), None);
    let bad = CmdOutcome { success: false, stdout: String::new(), stderr: "denied".into() };
    assert_eq!(
        cleanup_remote_report(&Ok(bad)),
        Some("cleanup_remote: remote find/delete failed: denied".to_string())
    );
    assert_eq!(
        cleanup_remote_report(&Err("no ssh".into())),
        Some("cleanup_remote: ssh error: no ssh".to_string())
    );
}

#[test]
fn cleanup_local_deletes_files_older_than_max_age() {
    let now: i128 = 1_000_000_000_000;
    let entries = vec![
        LocalEntry { is_file: true, modified_nanos: Some(now - 10_000_000) },
        LocalEntry { is_file: true, modified_nanos: Some(now) },
    ];
    // max age 1ms: the first file (10ms old) goes, the fresh one stays.
    assert_eq!(cleanup_local_plan(now, 1_000_000, &entries), Some(vec![0]));
}

#[test]
fn cleanup_local_keeps_files_newer_than_max_age() {
    let now: i128 = 1_000_000_000_000;
    let entries = vec![LocalEntry { is_file: true, modified_nanos: Some(now - 1_000_000) }];
    assert_eq!(cleanup_local_plan(now, 3_600_000_000_000, &entries), Some(vec![]));
}

#[test]
fn cleanup_local_skips_directories_and_unknown_times() {
    let now: i128 = 10_000_000_000;
    let entries = vec![
        LocalEntry { is_file: false, modified_nanos: Some(0) },
        LocalEntry { is_file: true, modified_nanos: None },
        LocalEntry { is_file: true, modified_nanos: Some(0) },
        LocalEntry { is_file: true, modified_nanos: Some(now - 5) },
    ];
    assert_eq!(cleanup_local_plan(now, 10, &entries), Some(vec![2]));
}

#[test]
fn cleanup_local_does_nothing_when_cutoff_unrepresentable() {
    let min: i128 = -9_223_372_036_854_775_808_000_000_000;
    let entries = vec![LocalEntry { is_file: true, modified_nanos: Some(min) }];
    assert_eq!(cleanup_local_plan(min, 1, &entries), None);
    assert_eq!(cleanup_local_plan(min + 1, 1, &entries), Some(vec![]));
}

#[test]
fn cleanup_local_noop_when_dir_absent() {
    // An absent directory lists no entries: nothing to delete.
    assert_eq!(cleanup_local_plan(1_000_000_000_000, 1, &vec![]), Some(vec![]));
}

#[test]
fn auto_cleanup_age_and_schedule() {
    let mut cfg = Config::default();
    assert_eq!(auto_cleanup_max_age(&cfg), None);
    cfg.auto_cleanup = true;
    assert_eq!(auto_cleanup_max_age(&cfg), Some(604_800));
    assert_eq!(MAX_AGE_SECS, MAX_AGE_DAYS * 86_400);
    assert_eq!(CLEANUP_INTERVAL_SECS, 3_600);
}
