use qdrant_dump::run::{start, resolve_target, Action, BackupError, Event, Outcome, Run, Target};

fn expect_do(out: Outcome) -> Action {
    match out {
        Outcome::Do { action } => action,
        Outcome::Finished => panic!("run finished early"),
        Outcome::Failed { error } => panic!("run failed early: {:?}", error),
    }
}

fn feed(run: Run, ev: Event) -> (Run, Outcome) {
    assert!(run.accepts_event(&ev));
    run.step(ev)
}

#[test]
fn all_mode_backs_up_each_listed_collection_in_order() {
    let names: Vec<Vec<u8>> = vec![b"alpha".to_vec(), b"beta".to_vec()];
    let snaps: Vec<Vec<u8>> = vec![b"s1".to_vec(), b"s2".to_vec()];
    let blobs: Vec<Vec<u8>> = vec![b"one".to_vec(), b"two".to_vec()];

    let (mut run, mut out) = start(Target::All);
    match expect_do(out) {
        Action::FetchCollections => {},
        a => panic!("expected a listing first, got {:?}", action_tag(&a)),
    }
    (run, out) = feed(run, Event::CollectionsListed { names: names.clone() });

    let mut creates: Vec<Vec<u8>> = Vec::new();
    let mut downloads: Vec<(Vec<u8>, Vec<u8>)> = Vec::new();
    let mut writes: Vec<(Vec<u8>, Vec<u8>)> = Vec::new();
    let mut i: usize = 0;
    loop {
        match out {
            Outcome::Do { action } => {
                let ev = match action {
                    Action::FetchCollections => panic!("a second listing was asked for"),
                    Action::CreateSnapshot { collection } => {
                        creates.push(collection);
                        Event::SnapshotCreated { snapshot: snaps[i].clone() }
                    },
                    Action::DownloadSnapshot { collection, snapshot } => {
                        downloads.push((collection, snapshot));
                        Event::SnapshotDownloaded { contents: blobs[i].clone() }
                    },
                    Action::WriteFile { file_name, contents } => {
                        writes.push((file_name, contents));
                        i += 1;
                        Event::FileWritten
                    },
                };
                (run, out) = feed(run, ev);
            },
            Outcome::Finished => break,
            Outcome::Failed { error } => panic!("run failed: {:?}", error),
        }
    }

    assert_eq!(creates, vec![b"alpha".to_vec(), b"beta".to_vec()]);
    assert_eq!(
        downloads,
        vec![
            (b"alpha".to_vec(), b"s1".to_vec()),
            (b"beta".to_vec(), b"s2".to_vec()),
        ]
    );
    assert_eq!(
        writes,
        vec![
            (b"alpha_s1".to_vec(), b"one".to_vec()),
            (b"beta_s2".to_vec(), b"two".to_vec()),
        ]
    );
}

fn action_tag(a: &Action) -> &'static str {
    match a {
        Action::FetchCollections => "fetch",
        Action::CreateSnapshot { .. } => "create",
        Action::DownloadSnapshot { .. } => "download",
        Action::WriteFile { .. } => "write",
    }
}

#[test]
fn all_mode_with_no_collections_finishes_at_once() {
    let (run, out) = start(Target::All);
    expect_do(out);
    let (_, out) = feed(run, Event::CollectionsListed { names: Vec::new() });
    assert!(matches!(out, Outcome::Finished));
}

#[test]
fn failed_listing_aborts_with_no_snapshot_work() {
    let (run, out) = start(Target::All);
    expect_do(out);
    let (_, out) = feed(
        run,
        Event::StepFailed { error: BackupError::HttpStatus(404) },
    );
    match out {
        Outcome::Failed { error } => assert_eq!(error, BackupError::HttpStatus(404)),
        _ => panic!("the run went on after a failed listing"),
    }
}

#[test]
fn single_collection_writes_docs_snap1_with_downloaded_bytes() {
    let (run, out) = start(Target::One { collection: b"docs".to_vec() });
    match expect_do(out) {
        Action::CreateSnapshot { collection } => assert_eq!(collection, b"docs".to_vec()),
        _ => panic!("expected snapshot creation first"),
    }
    let (run, out) = feed(run, Event::SnapshotCreated { snapshot: b"snap1".to_vec() });
    match expect_do(out) {
        Action::DownloadSnapshot { collection, snapshot } => {
            assert_eq!(collection, b"docs".to_vec());
            assert_eq!(snapshot, b"snap1".to_vec());
        },
        _ => panic!("expected a download after creation"),
    }
    let (run, out) = feed(run, Event::SnapshotDownloaded { contents: b"ABC".to_vec() });
    match expect_do(out) {
        Action::WriteFile { file_name, contents } => {
            assert_eq!(file_name, b"docs_snap1".to_vec());
            assert_eq!(contents, b"ABC".to_vec());
        },
        _ => panic!("expected a file write after the download"),
    }
    let (_, out) = feed(run, Event::FileWritten);
    assert!(matches!(out, Outcome::Finished));
}

#[test]
fn failed_write_aborts_with_filesystem_error() {
    let (run, _) = start(Target::One { collection: b"docs".to_vec() });
    let (run, _) = feed(run, Event::SnapshotCreated { snapshot: b"snap1".to_vec() });
    let (run, out) = feed(run, Event::SnapshotDownloaded { contents: b"ABC".to_vec() });
    assert!(matches!(out, Outcome::Do { action: Action::WriteFile { .. } }));
    let (_, out) = feed(run, Event::StepFailed { error: BackupError::Filesystem });
    match out {
        Outcome::Failed { error } => assert_eq!(error, BackupError::Filesystem),
        _ => panic!("the run reported something other than the write failure"),
    }
}

#[test]
fn transport_failure_mid_run_aborts() {
    let (run, _) = start(Target::One { collection: b"docs".to_vec() });
    let (_, out) = feed(run, Event::StepFailed { error: BackupError::Transport });
    assert!(matches!(out, Outcome::Failed { error: BackupError::Transport }));
}

#[test]
fn undecodable_response_aborts_with_decode_error() {
    let (run, _) = start(Target::One { collection: b"docs".to_vec() });
    let (_, out) = feed(run, Event::StepFailed { error: BackupError::Decode });
    assert!(matches!(out, Outcome::Failed { error: BackupError::Decode }));
}

#[test]
fn resolve_target_treats_all_as_sentinel() {
    assert!(matches!(resolve_target(b"all".to_vec()), Target::All));
    match resolve_target(b"allx".to_vec()) {
        Target::One { collection } => assert_eq!(collection, b"allx".to_vec()),
        Target::All => panic!("a longer name was taken for the sentinel"),
    }
    match resolve_target(b"docs".to_vec()) {
        Target::One { collection } => assert_eq!(collection, b"docs".to_vec()),
        Target::All => panic!("a plain name was taken for the sentinel"),
    }
}
