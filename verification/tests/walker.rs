use vault_sync::sync::SecretOp;
use vault_sync::walker::Walker;

/// Drive a walker, answering every listing request from `answer`, and
/// collect the emitted events.
fn drive(mut w: Walker, mut answer: impl FnMut(&str, &str) -> Option<Vec<String>>) -> Vec<SecretOp> {
    let mut events = Vec::new();
    while !w.done() {
        if let Some((mount, parent)) = w.pending_list() {
            match answer(&mount, &parent) {
                Some(children) => w.set_listing(children),
                None => w.fail_listing(),
            }
            continue;
        }
        if let Some(op) = w.step() {
            events.push(op);
        }
    }
    events
}

#[test]
fn test_walk_emits_depth_first_then_sentinel() {
    // Mount `secret` with children {"a": "1", "dir/": {"b": "2"}}: the leaf
    // `a`, then the subtree of `dir/` drained before returning, then the
    // cycle sentinel.
    let w = Walker::new("", vec!["secret".to_string()]);
    let events = drive(w, |mount, parent| {
        assert_eq!(mount, "secret");
        match parent {
            "" => Some(vec!["a".to_string(), "dir/".to_string()]),
            "dir/" => Some(vec!["b".to_string()]),
            other => panic!("unexpected listing of {:?}", other),
        }
    });
    assert_eq!(events.len(), 3);
    match &events[0] {
        SecretOp::Create(sp) => {
            assert_eq!(sp.mount, "secret");
            assert_eq!(sp.path, "a");
        },
        other => panic!("expected a create event, got {:?}", other),
    }
    match &events[1] {
        SecretOp::Create(sp) => {
            assert_eq!(sp.mount, "secret");
            assert_eq!(sp.path, "dir/b");
        },
        other => panic!("expected a create event, got {:?}", other),
    }
    assert!(matches!(events[2], SecretOp::FullSyncFinished));
}

#[test]
fn test_walk_prefix_and_mount_order() {
    let w = Walker::new("app", vec!["first".to_string(), "second".to_string()]);
    let events = drive(w, |mount, parent| {
        assert_eq!(parent, "app/");
        match mount {
            "first" => Some(vec!["x".to_string()]),
            "second" => Some(vec!["y".to_string()]),
            other => panic!("unexpected mount {:?}", other),
        }
    });
    assert_eq!(events.len(), 3);
    match (&events[0], &events[1]) {
        (SecretOp::Create(a), SecretOp::Create(b)) => {
            assert_eq!(a.mount, "first");
            assert_eq!(a.path, "app/x");
            assert_eq!(b.mount, "second");
            assert_eq!(b.path, "app/y");
        },
        other => panic!("expected two create events, got {:?}", other),
    }
    assert!(matches!(events[2], SecretOp::FullSyncFinished));
}

#[test]
fn test_failed_listing_skips_subtree_only() {
    let w = Walker::new("", vec!["secret".to_string()]);
    let events = drive(w, |_, parent| match parent {
        "" => Some(vec!["bad/".to_string(), "good".to_string()]),
        "bad/" => None,
        other => panic!("unexpected listing of {:?}", other),
    });
    assert_eq!(events.len(), 2);
    match &events[0] {
        SecretOp::Create(sp) => assert_eq!(sp.path, "good"),
        other => panic!("expected a create event, got {:?}", other),
    }
    assert!(matches!(events[1], SecretOp::FullSyncFinished));
}

#[test]
fn test_no_mounts_emits_only_sentinel() {
    let w = Walker::new("", Vec::new());
    let events = drive(w, |_, _| panic!("nothing to list"));
    assert_eq!(events.len(), 1);
    assert!(matches!(events[0], SecretOp::FullSyncFinished));
}
