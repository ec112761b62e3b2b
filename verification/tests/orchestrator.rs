use famo::archive::encode;
use famo::hash::FilesystemError;
use famo::hash::Node;
use famo::orchestrator::after_download;
use famo::orchestrator::after_fingerprint;
use famo::orchestrator::after_pack;
use famo::orchestrator::start;
use famo::orchestrator::step;
use famo::orchestrator::Action;
use famo::orchestrator::CacheOutcome;
use famo::orchestrator::Event;
use famo::orchestrator::Fatal;
use famo::orchestrator::Phase;
use famo::orchestrator::State;
use famo::archive::ArchiveError;

fn keyed(phase: Phase) -> State {
    State { phase, key: "abc123".to_owned() }
}

fn run(mut state: State, events: Vec<Event>) -> (State, Vec<Action>) {
    let mut actions = Vec::new();
    for e in events {
        let (next, action) = step(state, e);
        state = next;
        actions.push(action);
    }
    (state, actions)
}

fn builds(actions: &[Action]) -> usize {
    actions.iter().filter(|a| **a == Action::RunBuild).count()
}

fn uploads(actions: &[Action]) -> usize {
    actions.iter().filter(|a| matches!(a, Action::Upload { .. })).count()
}

#[test]
fn a_run_starts_by_reading_the_watched_paths() {
    let (state, action) = start();
    assert_eq!(state.phase, Phase::Start);
    assert_eq!(action, Action::ReadWatched);
    assert!(!state.phase.done());
}

#[test]
fn the_fingerprint_becomes_the_key() {
    let (state, _) = start();
    let nodes = vec![Node::File { path: "mo".to_owned(), contents: Some(b"fa".to_vec()) }];
    let (state, action) = step(state, Event::Watched { nodes });
    let key = "9c4665207323c7e9c4a8208db4093cc138135b0d697097680ed877d34894c45a";
    assert_eq!(state, State { phase: Phase::FingerprintComputed, key: key.to_owned() });
    assert_eq!(action, Action::CheckExists { key: key.to_owned() });
}

#[test]
fn an_unreadable_watched_file_aborts_the_run() {
    let (state, _) = start();
    let nodes = vec![Node::File { path: "locked".to_owned(), contents: None }];
    let (state, action) = step(state, Event::Watched { nodes });
    assert_eq!(state.phase, Phase::Aborted { kind: Fatal::Filesystem });
    assert_eq!(action, Action::Exit { success: false });
    assert!(state.phase.done());
    assert_eq!(state.phase.outcome(), None);
}

#[test]
fn missing_inputs_abort_the_run_before_any_work() {
    let (state, _) = start();
    let (state, action) = step(state, Event::ConfigMissing);
    assert_eq!(state.phase, Phase::Aborted { kind: Fatal::Config });
    assert_eq!(action, Action::Exit { success: false });
}

#[test]
fn after_fingerprint_takes_either_result() {
    let (s, a) = after_fingerprint(start().0, Ok("abc123".to_owned()));
    assert_eq!(s, keyed(Phase::FingerprintComputed));
    assert_eq!(a, Action::CheckExists { key: "abc123".to_owned() });
    let (s, a) = after_fingerprint(start().0, Err(FilesystemError { path: "p".to_owned() }));
    assert_eq!(s.phase, Phase::Aborted { kind: Fatal::Filesystem });
    assert_eq!(a, Action::Exit { success: false });
}

#[test]
fn after_download_takes_either_result() {
    let (s, a) = after_download(keyed(Phase::CacheChecked { hit: true }), Ok(vec![1, 2]));
    assert_eq!(s, keyed(Phase::Fetched));
    assert_eq!(a, Action::Unpack { bytes: vec![1, 2] });
    let failed = Err(ArchiveError { reason: "corrupt".to_owned() });
    let (s, a) = after_download(keyed(Phase::CacheChecked { hit: true }), failed);
    assert_eq!(s, keyed(Phase::CacheChecked { hit: false }));
    assert_eq!(a, Action::RunBuild);
}

#[test]
fn after_pack_takes_either_result() {
    let (s, a) = after_pack(keyed(Phase::BuildRun), Ok(vec![1, 2]));
    assert_eq!(s, keyed(Phase::Packaged));
    assert_eq!(a, Action::Upload { key: "abc123".to_owned(), bytes: vec![1, 2] });
    let failed = Err(ArchiveError { reason: "full".to_owned() });
    let (s, a) = after_pack(keyed(Phase::BuildRun), failed);
    assert_eq!(s, keyed(Phase::PublishSkippedOrFailed));
    assert_eq!(a, Action::Exit { success: true });
}

#[test]
fn end_to_end_hit() {
    let container = b"the packed tree".to_vec();
    let blob = encode(&container).unwrap();
    let (state, actions) = run(
        keyed(Phase::FingerprintComputed),
        vec![Event::Exists { present: true }, Event::Downloaded { bytes: blob }, Event::Unpacked],
    );
    assert_eq!(
        actions,
        vec![
            Action::Download { key: "abc123".to_owned() },
            Action::Unpack { bytes: container },
            Action::Exit { success: true },
        ]
    );
    assert_eq!(builds(&actions), 0);
    assert_eq!(state.phase, Phase::Restored);
    assert_eq!(state.phase.outcome(), Some(CacheOutcome::Hit));
}

#[test]
fn end_to_end_hit_with_a_corrupt_archive_builds() {
    let corrupt = b"this is not a gzip stream at all".to_vec();
    let (state, actions) = run(
        keyed(Phase::FingerprintComputed),
        vec![Event::Exists { present: true }, Event::Downloaded { bytes: corrupt }],
    );
    assert_eq!(actions, vec![Action::Download { key: "abc123".to_owned() }, Action::RunBuild]);
    assert_eq!(state, keyed(Phase::CacheChecked { hit: false }));

    let packed = b"fresh".to_vec();
    let (state, actions) = run(
        state,
        vec![Event::BuildSucceeded, Event::Packed { bytes: packed.clone() }, Event::Uploaded],
    );
    assert_eq!(
        actions,
        vec![
            Action::Pack,
            Action::Upload { key: "abc123".to_owned(), bytes: encode(&packed).unwrap() },
            Action::Exit { success: true },
        ]
    );
    assert_eq!(state.phase.outcome(), Some(CacheOutcome::MissBuilt));
}

#[test]
fn a_failed_unpacking_builds() {
    let blob = encode(b"tree").unwrap();
    let (state, actions) = run(
        keyed(Phase::FingerprintComputed),
        vec![Event::Exists { present: true }, Event::Downloaded { bytes: blob }, Event::CacheFailed],
    );
    assert_eq!(actions[2], Action::RunBuild);
    assert_eq!(state.phase, Phase::CacheChecked { hit: false });
}

#[test]
fn end_to_end_miss() {
    let packed = b"the packed tree".to_vec();
    let (state, actions) = run(
        keyed(Phase::FingerprintComputed),
        vec![
            Event::Exists { present: false },
            Event::BuildSucceeded,
            Event::Packed { bytes: packed.clone() },
            Event::Uploaded,
        ],
    );
    assert_eq!(
        actions,
        vec![
            Action::RunBuild,
            Action::Pack,
            Action::Upload { key: "abc123".to_owned(), bytes: encode(&packed).unwrap() },
            Action::Exit { success: true },
        ]
    );
    assert_eq!(builds(&actions), 1);
    assert_eq!(uploads(&actions), 1);
    assert_eq!(state.phase, Phase::Published);
    assert_eq!(state.phase.outcome(), Some(CacheOutcome::MissBuilt));
}

#[test]
fn fail_soft_transport() {
    let (state, actions) = run(
        keyed(Phase::FingerprintComputed),
        vec![
            Event::CacheFailed,
            Event::BuildSucceeded,
            Event::Packed { bytes: b"tree".to_vec() },
            Event::CacheFailed,
        ],
    );
    assert_eq!(builds(&actions), 1);
    assert_eq!(actions[3], Action::Exit { success: true });
    assert_eq!(state.phase, Phase::PublishSkippedOrFailed);
    assert_eq!(state.phase.outcome(), Some(CacheOutcome::MissBuiltUnpublished));
}

#[test]
fn a_failed_download_builds() {
    let (state, actions) = run(
        keyed(Phase::FingerprintComputed),
        vec![Event::Exists { present: true }, Event::CacheFailed, Event::BuildSucceeded],
    );
    assert_eq!(
        actions,
        vec![Action::Download { key: "abc123".to_owned() }, Action::RunBuild, Action::Pack]
    );
    assert_eq!(state.phase, Phase::BuildRun);
}

#[test]
fn a_failed_packing_skips_the_upload() {
    let (state, actions) = run(
        keyed(Phase::FingerprintComputed),
        vec![Event::Exists { present: false }, Event::BuildSucceeded, Event::CacheFailed],
    );
    assert_eq!(uploads(&actions), 0);
    assert_eq!(actions[2], Action::Exit { success: true });
    assert_eq!(state.phase, Phase::PublishSkippedOrFailed);
}

#[test]
fn a_failed_build_is_fatal() {
    let (state, actions) = run(
        keyed(Phase::FingerprintComputed),
        vec![Event::Exists { present: false }, Event::BuildFailed],
    );
    assert_eq!(actions, vec![Action::RunBuild, Action::Exit { success: false }]);
    assert_eq!(state.phase, Phase::Aborted { kind: Fatal::Build });
    assert!(state.phase.done());
    assert_eq!(state.phase.outcome(), None);
}

#[test]
fn a_finished_run_stays_finished() {
    let (state, action) = step(keyed(Phase::Restored), Event::BuildFailed);
    assert_eq!(state, keyed(Phase::Restored));
    assert_eq!(action, Action::Exit { success: true });
    let aborted = Phase::Aborted { kind: Fatal::Build };
    let (state, action) = step(keyed(aborted), Event::BuildSucceeded);
    assert_eq!(state, keyed(aborted));
    assert_eq!(action, Action::Exit { success: false });
}
