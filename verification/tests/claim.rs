use gag::guard::{AcquireError, Claim, Failure, RedirectInner, Release, StreamGuard, ALREADY_REDIRECTED};
use gag::os::{OsError, Reply, Request};
use gag::registry::RedirectionRegistry;
use gag::stream::StreamId;

fn run_claim(
    registry: &mut RedirectionRegistry,
    stream: StreamId,
    target: i64,
    replies: &[Reply],
) -> (Vec<Request>, Result<StreamGuard, AcquireError>) {
    let mut claim = Claim::start(stream, target);
    let mut asked: Vec<Request> = Vec::new();
    let mut at: usize = 0;
    while let Some(request) = claim.request() {
        asked.push(request);
        assert!(request.admits(&replies[at]));
        claim = claim.advance(registry, replies[at]);
        at += 1;
    }
    assert_eq!(at, replies.len());
    match claim.finish() {
        Ok(outcome) => (asked, outcome),
        Err(_) => panic!("nothing is pending, so the claim has ended"),
    }
}

fn run_release(registry: &mut RedirectionRegistry, release: Release, replies: &[Reply]) -> Vec<Request> {
    let mut release = release;
    let mut asked: Vec<Request> = Vec::new();
    let mut at: usize = 0;
    while let Some(request) = release.request() {
        asked.push(request);
        release = release.advance(registry, replies[at]);
        at += 1;
    }
    assert_eq!(at, replies.len());
    assert!(release.is_released());
    asked
}

#[test]
fn claim_asks_for_a_backup_first() {
    let claim = Claim::start(StreamId::Stdout, 7);
    assert_eq!(claim.request(), Some(Request::Duplicate { stream: StreamId::Stdout }));
    assert!(claim.finish().is_err());
}

#[test]
fn claim_installs_after_the_backup() {
    let mut registry = RedirectionRegistry::new();
    let (asked, outcome) = run_claim(&mut registry, StreamId::Stdout, 7, &[Reply::Handle(11), Reply::Done]);
    assert_eq!(
        asked,
        vec![
            Request::Duplicate { stream: StreamId::Stdout },
            Request::Install { stream: StreamId::Stdout, target: 7 },
        ]
    );
    let guard = outcome.unwrap();
    assert_eq!(guard.stream(), StreamId::Stdout);
    assert_eq!(guard.backup(), 11);
    assert!(registry.is_claimed(StreamId::Stdout));
    assert!(!registry.is_claimed(StreamId::Stderr));
}

#[test]
fn failed_duplicate_touches_no_flag() {
    let mut registry = RedirectionRegistry::new();
    let (asked, outcome) =
        run_claim(&mut registry, StreamId::Stderr, 7, &[Reply::Failed(OsError { code: 24 })]);
    assert_eq!(asked, vec![Request::Duplicate { stream: StreamId::Stderr }]);
    assert_eq!(outcome.unwrap_err(), AcquireError::DuplicateFailed(OsError { code: 24 }));
    assert!(!registry.is_claimed(StreamId::Stderr));
}

#[test]
fn failed_duplicate_comes_before_the_flag() {
    let mut registry = RedirectionRegistry::new();
    let (_, first) = run_claim(&mut registry, StreamId::Stderr, 7, &[Reply::Handle(11), Reply::Done]);
    assert!(first.is_ok());
    let (_, second) =
        run_claim(&mut registry, StreamId::Stderr, 8, &[Reply::Failed(OsError { code: 24 })]);
    assert_eq!(second.unwrap_err(), AcquireError::DuplicateFailed(OsError { code: 24 }));
    assert!(registry.is_claimed(StreamId::Stderr));
}

#[test]
fn second_claim_is_already_redirected() {
    for stream in [StreamId::Stdout, StreamId::Stderr] {
        let mut registry = RedirectionRegistry::new();
        let (_, first) = run_claim(&mut registry, stream, 7, &[Reply::Handle(11), Reply::Done]);
        let first = first.unwrap();
        let (asked, second) = run_claim(&mut registry, stream, 8, &[Reply::Handle(12), Reply::Done]);
        assert_eq!(asked, vec![Request::Duplicate { stream }, Request::Close { handle: 12 }]);
        assert_eq!(second.unwrap_err(), AcquireError::AlreadyRedirected);
        assert!(registry.is_claimed(stream));
        assert_eq!(first.backup(), 11);
    }
}

#[test]
fn second_claim_fails_though_close_fails() {
    let mut registry = RedirectionRegistry::new();
    let (_, first) = run_claim(&mut registry, StreamId::Stdout, 7, &[Reply::Handle(11), Reply::Done]);
    assert!(first.is_ok());
    let (_, second) = run_claim(
        &mut registry,
        StreamId::Stdout,
        8,
        &[Reply::Handle(12), Reply::Failed(OsError { code: 9 })],
    );
    assert_eq!(second.unwrap_err(), AcquireError::AlreadyRedirected);
}

#[test]
fn other_stream_can_be_claimed_meanwhile() {
    for stream in [StreamId::Stdout, StreamId::Stderr] {
        let mut registry = RedirectionRegistry::new();
        let (_, first) = run_claim(&mut registry, stream, 7, &[Reply::Handle(11), Reply::Done]);
        assert!(first.is_ok());
        let (_, other) =
            run_claim(&mut registry, stream.opposite(), 8, &[Reply::Handle(12), Reply::Done]);
        let other = other.unwrap();
        assert_eq!(other.stream(), stream.opposite());
        assert_eq!(other.backup(), 12);
        assert!(registry.is_claimed(StreamId::Stdout));
        assert!(registry.is_claimed(StreamId::Stderr));
    }
}

#[test]
fn release_restores_closes_and_frees() {
    let mut registry = RedirectionRegistry::new();
    let (_, guard) = run_claim(&mut registry, StreamId::Stderr, 7, &[Reply::Handle(11), Reply::Done]);
    let release = guard.unwrap().release();
    assert!(!release.is_released());
    let asked = run_release(&mut registry, release, &[Reply::Done, Reply::Done]);
    assert_eq!(
        asked,
        vec![
            Request::Install { stream: StreamId::Stderr, target: 11 },
            Request::Close { handle: 11 },
        ]
    );
    assert!(!registry.is_claimed(StreamId::Stderr));
}

#[test]
fn release_cannot_fail() {
    let mut registry = RedirectionRegistry::new();
    let (_, guard) = run_claim(&mut registry, StreamId::Stdout, 7, &[Reply::Handle(11), Reply::Done]);
    let failed = Reply::Failed(OsError { code: 9 });
    let asked = run_release(&mut registry, guard.unwrap().release(), &[failed, failed]);
    assert_eq!(asked.len(), 2);
    assert!(!registry.is_claimed(StreamId::Stdout));
}

#[test]
fn release_leaves_the_other_flag() {
    let mut registry = RedirectionRegistry::new();
    let (_, out) = run_claim(&mut registry, StreamId::Stdout, 7, &[Reply::Handle(11), Reply::Done]);
    let (_, err) = run_claim(&mut registry, StreamId::Stderr, 8, &[Reply::Handle(12), Reply::Done]);
    run_release(&mut registry, out.unwrap().release(), &[Reply::Done, Reply::Done]);
    assert!(!registry.is_claimed(StreamId::Stdout));
    assert!(registry.is_claimed(StreamId::Stderr));
    run_release(&mut registry, err.unwrap().release(), &[Reply::Done, Reply::Done]);
    assert!(!registry.is_claimed(StreamId::Stderr));
}

#[test]
fn released_stream_can_be_claimed_again() {
    for stream in [StreamId::Stdout, StreamId::Stderr] {
        let mut registry = RedirectionRegistry::new();
        let (_, guard) = run_claim(&mut registry, stream, 7, &[Reply::Handle(11), Reply::Done]);
        run_release(&mut registry, guard.unwrap().release(), &[Reply::Done, Reply::Done]);
        let (_, again) = run_claim(&mut registry, stream, 9, &[Reply::Handle(13), Reply::Done]);
        let again = again.unwrap();
        assert_eq!(again.stream(), stream);
        assert_eq!(again.backup(), 13);
        assert!(registry.is_claimed(stream));
    }
}

#[test]
fn failed_install_is_undone() {
    let mut registry = RedirectionRegistry::new();
    let (asked, outcome) = run_claim(
        &mut registry,
        StreamId::Stdout,
        7,
        &[Reply::Handle(11), Reply::Failed(OsError { code: 9 }), Reply::Done, Reply::Done],
    );
    assert_eq!(
        asked,
        vec![
            Request::Duplicate { stream: StreamId::Stdout },
            Request::Install { stream: StreamId::Stdout, target: 7 },
            Request::Install { stream: StreamId::Stdout, target: 11 },
            Request::Close { handle: 11 },
        ]
    );
    assert_eq!(outcome.unwrap_err(), AcquireError::InstallFailed(OsError { code: 9 }));
    assert!(!registry.is_claimed(StreamId::Stdout));
    let (_, again) = run_claim(&mut registry, StreamId::Stdout, 7, &[Reply::Handle(12), Reply::Done]);
    assert_eq!(again.unwrap().backup(), 12);
}

#[test]
fn failed_install_holds_the_flag_until_undone() {
    let mut registry = RedirectionRegistry::new();
    let claim = Claim::start(StreamId::Stderr, 7);
    let claim = claim.advance(&mut registry, Reply::Handle(11));
    assert!(registry.is_claimed(StreamId::Stderr));
    let claim = claim.advance(&mut registry, Reply::Failed(OsError { code: 9 }));
    assert!(registry.is_claimed(StreamId::Stderr));
    let claim = claim.advance(&mut registry, Reply::Failed(OsError { code: 9 }));
    assert!(registry.is_claimed(StreamId::Stderr));
    let claim = claim.advance(&mut registry, Reply::Failed(OsError { code: 9 }));
    assert!(!registry.is_claimed(StreamId::Stderr));
    assert_eq!(claim.request(), None);
    match claim.finish() {
        Ok(Err(error)) => assert_eq!(error, AcquireError::InstallFailed(OsError { code: 9 })),
        _ => panic!("the claim must have failed"),
    }
}

#[test]
fn a_reply_that_does_not_fit_is_ignored() {
    let mut registry = RedirectionRegistry::new();
    let claim = Claim::start(StreamId::Stdout, 7);
    let request = claim.request().unwrap();
    assert!(!request.admits(&Reply::Done));
    assert!(!request.admits(&Reply::Count(3)));
    assert!(!request.admits(&Reply::Pair { read: 3, write: 4 }));
    let claim = claim.advance(&mut registry, Reply::Done);
    assert_eq!(claim.request(), Some(request));
    assert!(!registry.is_claimed(StreamId::Stdout));
    let claim = claim.advance(&mut registry, Reply::Handle(11));
    let request = claim.request().unwrap();
    assert_eq!(request, Request::Install { stream: StreamId::Stdout, target: 7 });
    assert!(!request.admits(&Reply::Handle(5)));
    let claim = claim.advance(&mut registry, Reply::Handle(5));
    assert_eq!(claim.request(), Some(request));
    assert!(claim.finish().is_err());
}

#[test]
fn a_finished_claim_takes_no_reply() {
    let mut registry = RedirectionRegistry::new();
    let claim = Claim::start(StreamId::Stdout, 7);
    let claim = claim.advance(&mut registry, Reply::Handle(11));
    let claim = claim.advance(&mut registry, Reply::Done);
    let claim = claim.advance(&mut registry, Reply::Failed(OsError { code: 1 }));
    assert_eq!(claim.request(), None);
    assert_eq!(claim.finish().unwrap().unwrap().backup(), 11);
    assert!(registry.is_claimed(StreamId::Stdout));
}

#[test]
fn replies_answer_their_requests() {
    let failed = Reply::Failed(OsError { code: 5 });
    let all = [
        Request::Duplicate { stream: StreamId::Stdout },
        Request::Install { stream: StreamId::Stdout, target: 3 },
        Request::Close { handle: 3 },
        Request::OpenMemoryFile,
        Request::Reopen { handle: 3 },
        Request::CreateDirectory,
        Request::CreateFile,
        Request::OpenFile,
        Request::RemoveDirectory,
        Request::CreatePipe,
        Request::OpenNull,
        Request::Peek { handle: 3 },
        Request::Read { handle: 3, limit: 10 },
        Request::Write { stream: StreamId::Stderr, len: 10 },
        Request::Flush { stream: StreamId::Stderr },
    ];
    let done = [false, true, true, false, false, true, false, false, true, false, false, false, false, true, true];
    let handle = [true, false, false, true, true, false, true, true, false, false, true, false, false, false, false];
    for (at, request) in all.iter().enumerate() {
        assert!(request.admits(&failed));
        assert_eq!(request.admits(&Reply::Done), done[at]);
        assert_eq!(request.admits(&Reply::Handle(4)), handle[at]);
        assert_eq!(request.admits(&Reply::Pair { read: 4, write: 5 }), at == 9);
        assert_eq!(request.admits(&Reply::Count(10)), at == 11 || at == 12);
        assert_eq!(request.admits(&Reply::Count(11)), at == 11);
    }
}

#[test]
fn acquire_errors_map_to_failures() {
    let cause = OsError { code: 24 };
    assert_eq!(AcquireError::AlreadyRedirected.into_failure(), Failure::AlreadyRedirected);
    assert_eq!(AcquireError::DuplicateFailed(cause).into_failure(), Failure::ResourceExhausted(cause));
    assert_eq!(AcquireError::InstallFailed(cause).into_failure(), Failure::InstallFailed(cause));
}

#[test]
fn registry_starts_empty_and_sets_once() {
    let mut registry = RedirectionRegistry::new();
    assert!(!registry.is_claimed(StreamId::Stdout));
    assert!(!registry.is_claimed(StreamId::Stderr));
    assert!(!registry.test_and_set(StreamId::Stdout));
    assert!(registry.test_and_set(StreamId::Stdout));
    assert!(!registry.is_claimed(StreamId::Stderr));
    registry.clear(StreamId::Stdout);
    assert!(!registry.is_claimed(StreamId::Stdout));
    assert!(!registry.test_and_set(StreamId::Stdout));
    let fresh = RedirectionRegistry::default();
    assert!(!fresh.is_claimed(StreamId::Stdout));
}

#[test]
fn streams_have_their_numbers() {
    assert_eq!(StreamId::Stdout.descriptor(), 1);
    assert_eq!(StreamId::Stderr.descriptor(), 2);
    assert_eq!(StreamId::from_flag(true), StreamId::Stderr);
    assert_eq!(StreamId::from_flag(false), StreamId::Stdout);
    assert!(StreamId::Stderr.is_stderr());
    assert!(!StreamId::Stdout.is_stderr());
    assert_eq!(StreamId::Stdout.opposite(), StreamId::Stderr);
    assert_eq!(StreamId::Stderr.opposite(), StreamId::Stdout);
}

#[test]
fn make_claims_by_flag() {
    let claim = RedirectInner::make(true, 7);
    assert_eq!(claim.request(), Some(Request::Duplicate { stream: StreamId::Stderr }));
    let claim = RedirectInner::make(false, 7);
    assert_eq!(claim.request(), Some(Request::Duplicate { stream: StreamId::Stdout }));
    let mut registry = RedirectionRegistry::new();
    let claim = claim.advance(&mut registry, Reply::Handle(11));
    assert_eq!(claim.request(), Some(Request::Install { stream: StreamId::Stdout, target: 7 }));
    assert_eq!(ALREADY_REDIRECTED, "Redirect already exists.");
}

#[test]
fn results_of_calls_are_read_as_replies() {
    let failed = Reply::Failed(OsError { code: 24 });
    assert_eq!(Reply::from_status(-1, 24, Reply::Done), failed);
    assert_eq!(Reply::from_status(0, 24, Reply::Done), Reply::Done);
    assert_eq!(Reply::from_status(2, 24, Reply::Done), Reply::Done);
    assert_eq!(Reply::from_status(-2, 24, Reply::Count(3)), Reply::Count(3));
    assert_eq!(Reply::from_flag(0, 24, Reply::Done), failed);
    assert_eq!(Reply::from_flag(1, 24, Reply::Pair { read: 3, write: 4 }), Reply::Pair { read: 3, write: 4 });
    assert_eq!(Reply::from_flag(-1, 24, Reply::Count(9)), Reply::Count(9));
    assert_eq!(gag::store::tempfile(-1, 95), Reply::Failed(OsError { code: 95 }));
    assert_eq!(gag::store::tempfile(3, 95), Reply::Handle(3));
    assert_eq!(gag::store::tempfile(0, 95), Reply::Handle(0));
    assert_eq!(gag::store::tempfile(-2, 95), Reply::Handle(-2));
    assert_eq!(gag::store::tempfile(i32::MAX, 0), Reply::Handle(2147483647));
}
