use gm_async_write::dispatcher::{BridgeEvent, Dispatcher, Submission};
use gm_async_write::job::{status_of, Job, WriteOutcome};
use gm_async_write::status::{IoErrorKind, FSASYNC};

fn queued(s: Submission) -> (Job, bool) {
    match s {
        Submission::Queued { job, subscribe } => (job, subscribe),
        _ => panic!("expected a queued job"),
    }
}

#[test]
fn async_write_then_tick_delivers_notes() {
    let mut d = Dispatcher::new();
    let (code, sub) = d.async_write("notes.txt", b"hello".to_vec(), Some(7), false);
    assert_eq!(code.code(), 0);
    let (job, subscribe) = queued(sub);
    assert!(subscribe);
    assert_eq!(job.path, "garrysmod/data/notes.txt");
    assert_eq!(job.raw_path, "notes.txt");
    assert_eq!(job.data, b"hello".to_vec());
    assert!(!job.append);
    assert_eq!(d.pending(), 1);
    assert!(d.subscribed());

    let tick = d.poll(BridgeEvent::Empty);
    assert!(tick.deliver.is_none());
    assert!(!tick.unsubscribe);
    assert_eq!(d.pending(), 1);

    let done = job.complete(WriteOutcome::Written).unwrap();
    let tick = d.poll(BridgeEvent::Received(done));
    let delivery = tick.deliver.unwrap();
    assert_eq!(delivery.raw_path, "notes.txt");
    assert_eq!(delivery.status.code(), 0);
    assert_eq!(delivery.callback, 7);
    assert!(tick.unsubscribe);
    assert_eq!(d.pending(), 0);
    assert!(!d.subscribed());
}

#[test]
fn sync_write_outside_root_is_refused() {
    let mut d = Dispatcher::new();
    let (code, sub) = d.async_write("../../etc/passwd", b"x".to_vec(), Some(3), true);
    assert_eq!(code.code(), -1);
    assert!(matches!(sub, Submission::Rejected));
    assert_eq!(d.pending(), 0);
    assert!(!d.subscribed());
}

#[test]
fn async_write_outside_root_with_callback_is_refused() {
    let mut d = Dispatcher::new();
    let (code, sub) = d.async_write("../../etc/passwd.txt", b"x".to_vec(), Some(3), false);
    assert_eq!(code, FSASYNC::FSASYNC_ERR_FILEOPEN);
    assert!(matches!(sub, Submission::Rejected));
    assert_eq!(d.pending(), 0);
    assert!(!d.subscribed());
}

#[test]
fn sync_append_unlisted_extension_is_refused() {
    let mut d = Dispatcher::new();
    let (code, sub) = d.async_append("log.bin", b"x".to_vec(), None, true);
    assert_eq!(code.code(), -1);
    assert!(matches!(sub, Submission::Rejected));
}

#[test]
fn trailing_separator_is_refused() {
    let mut d = Dispatcher::new();
    let (code, _) = d.async_write("dir.txt/", b"x".to_vec(), Some(1), false);
    assert_eq!(code.code(), -1);
    let (code, _) = d.async_append("dir.txt\\", b"x".to_vec(), Some(1), false);
    assert_eq!(code.code(), -1);
    assert_eq!(d.pending(), 0);
}

#[test]
fn sync_write_runs_inline_without_counting() {
    let mut d = Dispatcher::new();
    let (code, sub) = d.async_write("notes.txt", b"abc".to_vec(), Some(9), true);
    assert_eq!(code.code(), 0);
    match sub {
        Submission::Inline { raw_path, path, data, append, has_callback } => {
            assert_eq!(raw_path, "notes.txt");
            assert_eq!(path, "garrysmod/data/notes.txt");
            assert_eq!(data, b"abc".to_vec());
            assert!(!append);
            assert!(has_callback);
        }
        _ => panic!("expected an inline write"),
    }
    assert_eq!(d.pending(), 0);
    assert!(!d.subscribed());
}

#[test]
fn sync_append_runs_inline() {
    let mut d = Dispatcher::new();
    let (code, sub) = d.async_append("logs/out.csv", b"1,2\n".to_vec(), None, true);
    assert_eq!(code.code(), 0);
    match sub {
        Submission::Inline { path, append, has_callback, .. } => {
            assert_eq!(path, "garrysmod/data/logs/out.csv");
            assert!(append);
            assert!(!has_callback);
        }
        _ => panic!("expected an inline append"),
    }
}

#[test]
fn fire_and_forget_job_is_not_counted() {
    let mut d = Dispatcher::new();
    let (code, sub) = d.async_write("a.json", b"{}".to_vec(), None, false);
    assert_eq!(code.code(), 0);
    let (job, subscribe) = queued(sub);
    assert!(!subscribe);
    assert_eq!(d.pending(), 0);
    assert!(job.complete(WriteOutcome::OpenFailed).is_none());
}

#[test]
fn many_submissions_each_delivered_once() {
    let mut d = Dispatcher::new();
    let mut jobs = Vec::new();
    for i in 0..5 {
        let name = format!("file{}.dat", i);
        let (code, sub) = d.async_write(&name, vec![i as u8], Some(100 + i), false);
        assert_eq!(code.code(), 0);
        let (job, subscribe) = queued(sub);
        assert_eq!(subscribe, i == 0);
        jobs.push(job);
    }
    assert_eq!(d.pending(), 5);
    let mut seen = Vec::new();
    while let Some(job) = jobs.pop() {
        let done = job.complete(WriteOutcome::Written).unwrap();
        let tick = d.poll(BridgeEvent::Received(done));
        let delivery = tick.deliver.unwrap();
        assert_eq!(delivery.raw_path, format!("file{}.dat", delivery.callback - 100));
        assert!(!seen.contains(&delivery.callback));
        seen.push(delivery.callback);
        assert_eq!(tick.unsubscribe, jobs.is_empty());
        assert_eq!(d.pending(), jobs.len());
    }
    seen.sort();
    assert_eq!(seen, vec![100, 101, 102, 103, 104]);
    assert!(!d.subscribed());
}

#[test]
fn two_appends_to_one_path_are_independent_jobs() {
    let mut d = Dispatcher::new();
    let (_, first) = d.async_append("log.txt", b"a".to_vec(), Some(1), false);
    let (_, second) = d.async_append("log.txt", b"b".to_vec(), Some(2), false);
    let (j1, s1) = queued(first);
    let (j2, s2) = queued(second);
    assert!(s1);
    assert!(!s2);
    assert!(j1.append && j2.append);
    assert_eq!(j1.path, j2.path);
    // completions may come back in either order
    let t2 = d.poll(BridgeEvent::Received(j2.complete(WriteOutcome::Written).unwrap()));
    assert_eq!(t2.deliver.unwrap().callback, 2);
    assert!(!t2.unsubscribe);
    let t1 = d.poll(BridgeEvent::Received(j1.complete(WriteOutcome::Written).unwrap()));
    assert_eq!(t1.deliver.unwrap().callback, 1);
    assert!(t1.unsubscribe);
}

#[test]
fn failures_reach_the_callback() {
    let mut d = Dispatcher::new();
    let (_, a) = d.async_write("a.txt", b"x".to_vec(), Some(1), false);
    let (_, b) = d.async_write("b.txt", b"y".to_vec(), Some(2), false);
    let (ja, _) = queued(a);
    let (jb, _) = queued(b);
    let ta = d.poll(BridgeEvent::Received(ja.complete(WriteOutcome::OpenFailed).unwrap()));
    assert_eq!(ta.deliver.unwrap().status.code(), -1);
    let tb = d.poll(BridgeEvent::Received(jb.complete(WriteOutcome::WriteFailed).unwrap()));
    assert_eq!(tb.deliver.unwrap().status.code(), -5);
}

#[test]
fn disconnected_bridge_unsubscribes() {
    let mut d = Dispatcher::new();
    let _ = d.async_write("a.txt", b"x".to_vec(), Some(1), false);
    let tick = d.poll(BridgeEvent::Disconnected);
    assert!(tick.deliver.is_none());
    assert!(tick.unsubscribe);
    assert!(!d.subscribed());
    assert_eq!(d.pending(), 1);
}

#[test]
fn completed_job_carries_status_and_drops_payload() {
    let job = Job::new("n.txt".to_string(), "garrysmod/data/n.txt".to_string(), vec![1, 2], Some(4), true);
    assert!(job.result.is_none());
    let done = job.complete(WriteOutcome::WriteFailed).unwrap();
    assert_eq!(done.result, Some(FSASYNC::FSASYNC_ERR_FAILURE));
    assert!(done.data.is_empty());
    assert_eq!(done.callback, Some(4));
    assert!(done.append);
}

#[test]
fn outcome_status_codes() {
    assert_eq!(status_of(WriteOutcome::Written).code(), 0);
    assert_eq!(status_of(WriteOutcome::OpenFailed).code(), -1);
    assert_eq!(status_of(WriteOutcome::WriteFailed).code(), -5);
    assert_eq!(FSASYNC::from_error_kind(IoErrorKind::OutOfMemory).code(), -3);
    assert_eq!(FSASYNC::from_error_kind(IoErrorKind::Other).code(), -5);
}

#[test]
fn status_code_values() {
    let all = [
        (FSASYNC::FSASYNC_ERR_NOT_MINE, -8),
        (FSASYNC::FSASYNC_ERR_RETRY_LATER, -7),
        (FSASYNC::FSASYNC_ERR_ALIGNMENT, -6),
        (FSASYNC::FSASYNC_ERR_FAILURE, -5),
        (FSASYNC::FSASYNC_ERR_READING, -4),
        (FSASYNC::FSASYNC_ERR_NOMEMORY, -3),
        (FSASYNC::FSASYNC_ERR_UNKNOWNID, -2),
        (FSASYNC::FSASYNC_ERR_FILEOPEN, -1),
        (FSASYNC::FSASYNC_OK, 0),
        (FSASYNC::FSASYNC_STATUS_PENDING, 1),
        (FSASYNC::FSASYNC_STATUS_INPROGRESS, 2),
        (FSASYNC::FSASYNC_STATUS_ABORTED, 3),
        (FSASYNC::FSASYNC_STATUS_UNSERVICED, 4),
    ];
    for (s, c) in all {
        assert_eq!(s.code(), c);
        assert_eq!(FSASYNC::from_code(c), Some(s));
    }
    assert_eq!(FSASYNC::from_code(-9), None);
    assert_eq!(FSASYNC::from_code(5), None);
}
