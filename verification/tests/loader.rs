use preview_core::entry::{Cha, File};
use preview_core::loader::{check_stale, FilesOp, FolderLoad, FLUSH_INTERVAL_MS, MAX_BATCH};

fn cha(kind: u8, len: u64, mtime: u64) -> Cha {
    Cha { kind, len, mtime, valid: true }
}

fn entry(n: u64) -> File {
    File { url: format!("/dir/{n}"), cha: cha(1, n, n) }
}

#[test]
fn policy_constants_bound_batch_and_latency() {
    assert_eq!(MAX_BATCH, 50000);
    assert_eq!(FLUSH_INTERVAL_MS, 500);
}

#[test]
fn check_stale_without_expectation_is_always_stale() {
    let live = cha(1, 10, 5);
    assert_eq!(check_stale(live, None), Some(live));
}

#[test]
fn check_stale_matching_fingerprint_is_not_stale() {
    let live = cha(1, 10, 5);
    assert_eq!(check_stale(live, Some(cha(1, 10, 5))), None);
    assert_eq!(check_stale(live, Some(cha(1, 10, 6))), Some(live));
}

#[test]
fn check_stale_dummy_expectation_is_stale() {
    let live = cha(1, 10, 5);
    assert_eq!(check_stale(live, Some(Cha::dummy())), Some(live));
}

#[test]
fn batch_flushes_at_the_size_cap_without_a_timer() {
    let mut load = FolderLoad::begin(String::from("/dir"), 7);
    let mut parts: usize = 0;
    for n in 0..MAX_BATCH as u64 {
        match load.push(entry(n)) {
            Some(FilesOp::Part { url, files, ticket }) => {
                parts += 1;
                assert_eq!(url, "/dir");
                assert_eq!(files.len(), MAX_BATCH);
                assert_eq!(ticket, 7);
                assert_eq!(n, MAX_BATCH as u64 - 1);
            }
            Some(FilesOp::Done { .. }) => panic!("push never emits Done"),
            None => {}
        }
    }
    assert_eq!(parts, 1);
}

#[test]
fn timer_flush_emits_whatever_accumulated() {
    let mut load = FolderLoad::begin(String::from("/dir"), 1);
    assert!(load.push(entry(0)).is_none());
    assert!(load.push(entry(1)).is_none());
    assert!(load.push(entry(2)).is_none());
    match load.flush() {
        Some(FilesOp::Part { url, files, ticket }) => {
            assert_eq!(url, "/dir");
            assert_eq!(ticket, 1);
            assert_eq!(files.len(), 3);
            assert_eq!(files[0].url, "/dir/0");
            assert_eq!(files[2].url, "/dir/2");
        }
        _ => panic!("a non-empty buffer flushes as a Part"),
    }
    assert!(load.flush().is_none());
}

#[test]
fn finish_emits_the_remainder_then_done() {
    let mut load = FolderLoad::begin(String::from("/dir"), 4);
    assert!(load.push(entry(0)).is_none());
    assert!(load.push(entry(1)).is_none());
    let fresh = cha(2, 0, 99);
    let (part, done) = load.finish(fresh);
    match part {
        Some(FilesOp::Part { files, ticket, .. }) => {
            assert_eq!(files.len(), 2);
            assert_eq!(ticket, 4);
        }
        _ => panic!("the remainder flushes before Done"),
    }
    match done {
        FilesOp::Done { url, cha: c, ticket } => {
            assert_eq!(url, "/dir");
            assert_eq!(c, fresh);
            assert_eq!(ticket, 4);
        }
        _ => panic!("finish ends with Done"),
    }
}

#[test]
fn finish_with_empty_buffer_emits_only_done() {
    let mut load = FolderLoad::begin(String::from("/dir"), 9);
    let (part, done) = load.finish(cha(2, 0, 1));
    assert!(part.is_none());
    assert_eq!(done.ticket(), 9);
}

#[test]
fn every_event_carries_the_load_ticket() {
    let mut load = FolderLoad::begin(String::from("/dir"), 42);
    assert!(load.push(entry(0)).is_none());
    let flushed = load.flush().unwrap();
    assert_eq!(flushed.ticket(), 42);
    let (_, done) = load.finish(cha(1, 0, 0));
    assert_eq!(done.ticket(), 42);
}
