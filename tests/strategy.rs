use fastfile::errors::ErrorKind;
use fastfile::strategy::{
    hint_outcome, plan_open, Backend, DefaultMacOsReaderStrategy, ReadHint, ReadRequest, ReaderStrategy,
    ADVISE_MAX_COUNT, HINT_MIN_SIZE, READ_AHEAD_MAX_SIZE,
};

struct MmapStrategy {}

impl ReaderStrategy for MmapStrategy {
    fn hint(&self, _size: u64) -> ReadHint {
        ReadHint::NoHint
    }

    fn backend(&self, _size: u64) -> Backend {
        Backend::MemoryMapped
    }
}

#[test]
fn one_byte_file_gets_no_hint_and_large_file_gets_an_advisory() {
    let s = DefaultMacOsReaderStrategy::new();
    assert_eq!(s.hint_for_size(1), ReadHint::NoHint);
    assert_eq!(
        s.hint_for_size(500 * 1024 * 1024),
        ReadHint::ReadAdvise { count: 524_288_000 }
    );
}

#[test]
fn hint_thresholds() {
    let s = DefaultMacOsReaderStrategy::new();
    assert_eq!(s.hint_for_size(0), ReadHint::NoHint);
    assert_eq!(s.hint_for_size(HINT_MIN_SIZE - 1), ReadHint::NoHint);
    assert_eq!(s.hint_for_size(HINT_MIN_SIZE), ReadHint::ReadAhead);
    assert_eq!(s.hint_for_size(READ_AHEAD_MAX_SIZE), ReadHint::ReadAhead);
    assert_eq!(
        s.hint_for_size(READ_AHEAD_MAX_SIZE + 1),
        ReadHint::ReadAdvise { count: 268_435_457 }
    );
    assert_eq!(
        s.hint_for_size(10 * 1024 * 1024 * 1024),
        ReadHint::ReadAdvise { count: ADVISE_MAX_COUNT }
    );
}

#[test]
fn default_strategy_reads_directly() {
    let s = DefaultMacOsReaderStrategy::new();
    assert_eq!(s.backend(1), Backend::DirectFile);
    assert_eq!(s.backend(u64::MAX), Backend::DirectFile);
}

#[test]
fn explicit_size_wins_over_hint_and_stat() {
    let r = ReadRequest::new().with_size_hint(5).with_size(9);
    assert!(!r.needs_stat());
    assert_eq!(r.resolve_size(Some(100)).unwrap(), 9);
}

#[test]
fn size_hint_wins_over_stat() {
    let r = ReadRequest::new().with_size_hint(5);
    assert_eq!(r.size(), None);
    assert_eq!(r.size_hint(), Some(5));
    assert_eq!(r.resolve_size(Some(100)).unwrap(), 5);
}

#[test]
fn stat_is_used_when_nothing_was_given() {
    let r = ReadRequest::new();
    assert!(r.needs_stat());
    assert_eq!(r.resolve_size(Some(100)).unwrap(), 100);
}

#[test]
fn failed_stat_fails_the_request() {
    let e = ReadRequest::new().resolve_size(None).unwrap_err();
    assert_eq!(e.kinds(), vec![ErrorKind::FileOpFailed]);
}

#[test]
fn plan_carries_resolved_size_and_strategy_choices() {
    let p = plan_open(&DefaultMacOsReaderStrategy::new(), &ReadRequest::new(), Some(1)).unwrap();
    assert_eq!(p.size, 1);
    assert_eq!(p.hint, ReadHint::NoHint);
    assert_eq!(p.backend, Backend::DirectFile);

    let p = plan_open(&MmapStrategy {}, &ReadRequest::new().with_size(4096), None).unwrap();
    assert_eq!(p.size, 4096);
    assert_eq!(p.backend, Backend::MemoryMapped);

    assert!(plan_open(&MmapStrategy {}, &ReadRequest::new(), None).is_err());
}

#[test]
fn failed_read_ahead_is_ignored_but_failed_advisory_is_not() {
    assert!(hint_outcome(ReadHint::NoHint, 22).is_ok());
    assert!(hint_outcome(ReadHint::ReadAhead, 22).is_ok());
    assert!(hint_outcome(ReadHint::ReadAdvise { count: 10 }, 0).is_ok());
    let e = hint_outcome(ReadHint::ReadAdvise { count: 10 }, 22).unwrap_err();
    assert_eq!(
        e.kinds(),
        vec![ErrorKind::FileOpFailed, ErrorKind::LibcFailed("posix_fadvise")]
    );
}

#[test]
fn default_plan_carries_the_size_hint_and_direct_backend() {
    let s = DefaultMacOsReaderStrategy::new();
    let p = s.plan(&ReadRequest::new(), Some(1)).unwrap();
    assert_eq!(p.size, 1);
    assert_eq!(p.hint, ReadHint::NoHint);
    assert_eq!(p.backend, Backend::DirectFile);

    let p = s.plan(&ReadRequest::new().with_size_hint(500 * 1024 * 1024), None).unwrap();
    assert_eq!(p.hint, ReadHint::ReadAdvise { count: 524_288_000 });
    assert_eq!(p.backend, Backend::DirectFile);

    let p = s.plan(&ReadRequest::new().with_size(100_000), Some(1)).unwrap();
    assert_eq!(p.size, 100_000);
    assert_eq!(p.hint, ReadHint::ReadAhead);

    let e = s.plan(&ReadRequest::new(), None).unwrap_err();
    assert_eq!(e.kinds(), vec![ErrorKind::FileOpFailed]);
}
