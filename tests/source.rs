use getrandom::error::Error;
use getrandom::source::{Action, Event, FillRequest, Phase, Source, SourceCache};

fn fresh() -> SourceCache<u32> {
    SourceCache::new()
}

#[test]
fn new_cache_is_unresolved() {
    assert!(!fresh().is_resolved());
}

#[test]
fn first_request_queries_availability() {
    let cache = fresh();
    let (req, a) = FillRequest::begin(&cache, 16);
    assert_eq!(a, Action::QueryAvailability);
    assert_eq!(req.phase(), Phase::Availability);
    assert_eq!(req.len(), 16);
}

#[test]
fn syscall_fill_of_32_bytes_succeeds() {
    let mut cache = fresh();
    let (mut req, a) = FillRequest::begin(&cache, 32);
    assert_eq!(a, Action::QueryAvailability);
    assert_eq!(req.step(&mut cache, Event::Availability(true)), Action::FillBySyscall);
    assert!(matches!(cache.source, Some(Source::Syscall)));
    assert_eq!(req.step(&mut cache, Event::SyscallReturned(32)), Action::Done(Ok(())));
    assert_eq!(req.phase(), Phase::Finished);
}

#[test]
fn short_syscall_fill_surfaces_failure() {
    let mut cache = fresh();
    let (mut req, _) = FillRequest::begin(&cache, 32);
    req.step(&mut cache, Event::Availability(true));
    assert_eq!(
        req.step(&mut cache, Event::SyscallReturned(31)),
        Action::Done(Err(Error::Unknown))
    );
}

#[test]
fn syscall_error_surfaces_failure() {
    let mut cache = fresh();
    let (mut req, _) = FillRequest::begin(&cache, 8);
    req.step(&mut cache, Event::Availability(true));
    assert_eq!(
        req.step(&mut cache, Event::SyscallReturned(-1)),
        Action::Done(Err(Error::Unknown))
    );
}

#[test]
fn unavailable_syscall_reads_blocking_byte_before_device() {
    let mut cache = fresh();
    let (mut req, a) = FillRequest::begin(&cache, 32);
    assert_eq!(a, Action::QueryAvailability);
    assert_eq!(req.step(&mut cache, Event::Availability(false)), Action::LoadPoolFlag);
    assert!(!cache.is_resolved());
    assert_eq!(req.step(&mut cache, Event::PoolFlag(false)), Action::ReadBlockingByte);
    assert_eq!(req.step(&mut cache, Event::BlockingRead(true)), Action::MarkPoolReady);
    assert_eq!(req.step(&mut cache, Event::PoolMarked), Action::OpenDevice);
    assert!(!cache.is_resolved());
    assert_eq!(
        req.step(&mut cache, Event::DeviceOpened(Some(7))),
        Action::FillFromDevice
    );
    assert!(matches!(cache.source, Some(Source::Device(7))));
    assert_eq!(req.step(&mut cache, Event::DeviceFilled(true)), Action::Done(Ok(())));
}

#[test]
fn seeded_pool_skips_blocking_read() {
    let mut cache = fresh();
    let (mut req, _) = FillRequest::begin(&cache, 4);
    req.step(&mut cache, Event::Availability(false));
    assert_eq!(req.step(&mut cache, Event::PoolFlag(true)), Action::OpenDevice);
}

#[test]
fn failed_blocking_read_surfaces_failure() {
    let mut cache = fresh();
    let (mut req, _) = FillRequest::begin(&cache, 4);
    req.step(&mut cache, Event::Availability(false));
    req.step(&mut cache, Event::PoolFlag(false));
    assert_eq!(
        req.step(&mut cache, Event::BlockingRead(false)),
        Action::Done(Err(Error::Unknown))
    );
    assert!(!cache.is_resolved());
}

#[test]
fn device_open_failure_surfaces_failure() {
    let mut cache = fresh();
    let (mut req, _) = FillRequest::begin(&cache, 4);
    req.step(&mut cache, Event::Availability(false));
    req.step(&mut cache, Event::PoolFlag(true));
    assert_eq!(
        req.step(&mut cache, Event::DeviceOpened(None)),
        Action::Done(Err(Error::Unknown))
    );
    assert_eq!(req.phase(), Phase::Finished);
    assert!(!cache.is_resolved());
}

#[test]
fn short_device_read_surfaces_failure() {
    let mut cache = fresh();
    cache.source = Some(Source::Device(3));
    let (mut req, a) = FillRequest::begin(&cache, 4);
    assert_eq!(a, Action::FillFromDevice);
    assert_eq!(
        req.step(&mut cache, Event::DeviceFilled(false)),
        Action::Done(Err(Error::Unknown))
    );
}

#[test]
fn resolved_thread_does_not_resolve_again() {
    let mut cache = fresh();
    let (mut req, _) = FillRequest::begin(&cache, 8);
    req.step(&mut cache, Event::Availability(false));
    req.step(&mut cache, Event::PoolFlag(true));
    req.step(&mut cache, Event::DeviceOpened(Some(5)));
    for _ in 0..3 {
        let (mut again, a) = FillRequest::begin(&cache, 8);
        assert_eq!(a, Action::FillFromDevice);
        assert_eq!(again.step(&mut cache, Event::DeviceFilled(true)), Action::Done(Ok(())));
        assert!(matches!(cache.source, Some(Source::Device(5))));
    }
}

#[test]
fn stray_event_after_resolution_keeps_cache() {
    let mut cache = fresh();
    cache.source = Some(Source::Syscall);
    let (mut req, _) = FillRequest::begin(&cache, 8);
    assert_eq!(
        req.step(&mut cache, Event::DeviceOpened(Some(9))),
        Action::Done(Err(Error::Unknown))
    );
    assert!(matches!(cache.source, Some(Source::Syscall)));
}

#[test]
fn empty_buffer_on_resolved_source_succeeds_without_io() {
    let mut cache = fresh();
    cache.source = Some(Source::Syscall);
    let (req, a) = FillRequest::begin(&cache, 0);
    assert_eq!(a, Action::Done(Ok(())));
    assert_eq!(req.phase(), Phase::Finished);
    cache.source = Some(Source::Device(1));
    let (_, b) = FillRequest::begin(&cache, 0);
    assert_eq!(b, Action::Done(Ok(())));
}

#[test]
fn empty_buffer_on_fresh_thread_resolves_then_succeeds() {
    let mut cache = fresh();
    let (mut req, a) = FillRequest::begin(&cache, 0);
    assert_eq!(a, Action::QueryAvailability);
    assert_eq!(req.step(&mut cache, Event::Availability(true)), Action::Done(Ok(())));
    assert!(cache.is_resolved());
}

#[test]
fn separate_threads_keep_separate_sources() {
    let mut first = fresh();
    let mut second = fresh();
    let (mut a, _) = FillRequest::begin(&first, 8);
    let (mut b, _) = FillRequest::begin(&second, 8);
    a.step(&mut first, Event::Availability(false));
    b.step(&mut second, Event::Availability(false));
    a.step(&mut first, Event::PoolFlag(true));
    b.step(&mut second, Event::PoolFlag(true));
    a.step(&mut first, Event::DeviceOpened(Some(10)));
    b.step(&mut second, Event::DeviceOpened(Some(20)));
    assert!(matches!(first.source, Some(Source::Device(10))));
    assert!(matches!(second.source, Some(Source::Device(20))));
}

#[test]
fn event_out_of_order_fails() {
    let mut cache = fresh();
    let (mut req, _) = FillRequest::begin(&cache, 8);
    assert_eq!(
        req.step(&mut cache, Event::SyscallReturned(8)),
        Action::Done(Err(Error::Unknown))
    );
    assert!(!cache.is_resolved());
}
