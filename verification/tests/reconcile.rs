use vault_sync::reconcile::{plan_upsert, Reconciler, SyncCommand, UpsertPlan};
use vault_sync::sync::{SecretOp, SecretPath};

fn sp(mount: &str, path: &str) -> SecretPath {
    SecretPath { mount: mount.to_string(), path: path.to_string() }
}

fn reconciler(dry_run: bool, run_once: bool) -> Reconciler {
    Reconciler::new(
        "src",
        "dst",
        vec!["secret".to_string(), "extra".to_string()],
        vec!["mirror".to_string(), "extra2".to_string()],
        dry_run,
        run_once,
    )
}

#[test]
fn test_upsert_plan_cases() {
    let v = Some("{\"a\":\"1\"}".to_string());
    let same = Some("{\"a\":\"1\"}".to_string());
    let other = Some("{\"a\":\"2\"}".to_string());
    assert_eq!(plan_upsert(&None, &other, false), UpsertPlan::SkipFailedRead);
    assert_eq!(plan_upsert(&None, &None, true), UpsertPlan::SkipFailedRead);
    assert_eq!(plan_upsert(&v, &same, false), UpsertPlan::Unchanged);
    assert_eq!(plan_upsert(&v, &same, true), UpsertPlan::Unchanged);
    assert_eq!(plan_upsert(&v, &other, false), UpsertPlan::Write);
    assert_eq!(plan_upsert(&v, &None, false), UpsertPlan::Write);
    assert_eq!(plan_upsert(&v, &other, true), UpsertPlan::Simulate);
    assert_eq!(plan_upsert(&v, &None, true), UpsertPlan::Simulate);
}

#[test]
fn test_second_application_is_noop() {
    // One create event, twice, against a destination that does not change in
    // between: the first application decides to write, the second sees the
    // written value and does nothing.
    let src = Some("{\"a\":\"1\"}".to_string());
    let mut dst: Option<String> = None;
    let mut writes = 0;
    for _ in 0..2 {
        if plan_upsert(&src, &dst, false) == UpsertPlan::Write {
            dst = src.clone();
            writes += 1;
        }
    }
    assert_eq!(writes, 1);
    assert_eq!(plan_upsert(&src, &dst, false), UpsertPlan::Unchanged);
}

#[test]
fn test_create_event_maps_mount_and_path() {
    let mut r = reconciler(false, false);
    let cmd = r.handle_op(&SecretOp::Create(sp("secret", "src/app/db")));
    match cmd {
        SyncCommand::ReadBoth { src, dst } => {
            assert_eq!(src.mount, "secret");
            assert_eq!(src.path, "src/app/db");
            assert_eq!(dst.mount, "mirror");
            assert_eq!(dst.path, "dst/app/db");
        },
        other => panic!("expected a read command, got {:?}", other),
    }
    assert_eq!(r.stats.updated, 0);
    assert_eq!(r.stats.deleted, 0);
}

#[test]
fn test_update_event_outside_prefix_keeps_path() {
    let mut r = reconciler(false, false);
    let cmd = r.handle_op(&SecretOp::Update(sp("extra", "elsewhere/key")));
    match cmd {
        SyncCommand::ReadBoth { src, dst } => {
            assert_eq!(src.mount, "extra");
            assert_eq!(dst.mount, "extra2");
            assert_eq!(dst.path, "dst/elsewhere/key");
        },
        other => panic!("expected a read command, got {:?}", other),
    }
}

#[test]
fn test_dry_run_delete_counts_without_deleting() {
    let mut r = reconciler(true, false);
    let cmd = r.handle_op(&SecretOp::Delete(sp("secret", "src/app/db")));
    assert!(matches!(cmd, SyncCommand::Noop));
    assert_eq!(r.stats.deleted, 1);
    assert_eq!(r.stats.updated, 0);
}

#[test]
fn test_delete_counts_and_targets_destination() {
    let mut r = reconciler(false, false);
    let cmd = r.handle_op(&SecretOp::Delete(sp("secret", "src/app/db")));
    match cmd {
        SyncCommand::DeleteAt { dst } => {
            assert_eq!(dst.mount, "mirror");
            assert_eq!(dst.path, "dst/app/db");
        },
        other => panic!("expected a delete command, got {:?}", other),
    }
    assert_eq!(r.stats.deleted, 1);
}

#[test]
fn test_cycle_complete_flushes_and_resets() {
    let mut r = reconciler(false, true);
    let _ = r.handle_op(&SecretOp::Delete(sp("secret", "a")));
    r.record_write(true);
    r.record_write(false);
    let cmd = r.handle_op(&SecretOp::FullSyncFinished);
    match cmd {
        SyncCommand::Flush { updated, deleted, done } => {
            assert_eq!(updated, 1);
            assert_eq!(deleted, 1);
            assert!(done);
        },
        other => panic!("expected a flush command, got {:?}", other),
    }
    assert_eq!(r.stats.updated, 0);
    assert_eq!(r.stats.deleted, 0);
}

#[test]
fn test_cycle_complete_continuous_mode_not_done() {
    let mut r = reconciler(false, false);
    let cmd = r.handle_op(&SecretOp::FullSyncFinished);
    match cmd {
        SyncCommand::Flush { updated, deleted, done } => {
            assert_eq!(updated, 0);
            assert_eq!(deleted, 0);
            assert!(!done);
        },
        other => panic!("expected a flush command, got {:?}", other),
    }
}
