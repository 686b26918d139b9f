//! The per-thread source selector.
//!
//! Each thread keeps a [`SourceCache`]: empty until its first fill request,
//! then holding the source that thread uses for good. A fill request is a
//! [`FillRequest`], a small state machine: [`FillRequest::begin`] looks at the
//! cache and names the first outside step, and each [`FillRequest::step`]
//! takes what that step produced and names the next one, until
//! [`Action::Done`] carries the request's result.
//!
//! On an empty cache the request resolves a source: the system call when the
//! availability detector reports it present; otherwise the `/dev/urandom`
//! device, opened only once the kernel's entropy pool is known to be seeded
//! (the process-wide readiness flag is set, or a one-byte blocking read of
//! `/dev/random` has just succeeded and the flag has been set).
use crate::error::Error;
use crate::kernel::{fill_ok, fill_succeeded};
use vstd::prelude::*;

verus! {

/// A resolved source of random bytes. `H` is the open device handle.
pub enum Source<H> {
    /// The `getrandom` system call.
    Syscall,
    /// An open handle on `/dev/urandom`.
    Device(H),
}

/// What one thread has resolved so far: nothing, or its source.
pub struct SourceCache<H> {
    pub source: Option<Source<H>>,
}

/// Where a fill request stands.
#[derive(Debug, Clone, Copy, PartialEq, Eq, Structural)]
pub enum Phase {
    /// Waiting for the availability detector's answer.
    Availability,
    /// Waiting for the process-wide pool-readiness flag.
    PoolFlag,
    /// Waiting for the one-byte blocking read of `/dev/random`.
    PoolRead,
    /// Waiting for the readiness flag to be set.
    PoolMark,
    /// Waiting for `/dev/urandom` to be opened.
    Open,
    /// Waiting for the system call to fill the buffer.
    SyscallFill,
    /// Waiting for a read from the device to fill the buffer.
    DeviceFill,
    /// The request has its result.
    Finished,
}

/// The outside step that the driver takes next.
#[derive(Debug, Clone, Copy, PartialEq, Eq)]
pub enum Action {
    /// Ask the availability detector whether the system call is present.
    QueryAvailability,
    /// Load the process-wide pool-readiness flag.
    LoadPoolFlag,
    /// Read one byte from `/dev/random`, blocking until the pool is seeded.
    ReadBlockingByte,
    /// Set the process-wide pool-readiness flag.
    MarkPoolReady,
    /// Open `/dev/urandom`.
    OpenDevice,
    /// Fill the whole buffer with the system call.
    FillBySyscall,
    /// Fill the whole buffer by one exact read from the cached device.
    FillFromDevice,
    /// The request is over, with this result.
    Done(Result<(), Error>),
}

/// What an outside step produced.
pub enum Event<H> {
    /// The detector's answer: whether the system call is present.
    Availability(bool),
    /// The value of the pool-readiness flag.
    PoolFlag(bool),
    /// Whether the blocking one-byte read succeeded.
    BlockingRead(bool),
    /// The pool-readiness flag has been set.
    PoolMarked,
    /// The handle on `/dev/urandom`, or `None` where opening it failed.
    DeviceOpened(Option<H>),
    /// What the system call returned.
    SyscallReturned(i64),
    /// Whether the exact read from the device filled the buffer.
    DeviceFilled(bool),
}

/// One fill request of a buffer of `len` bytes on one thread.
pub struct FillRequest {
    len: usize,
    phase: Phase,
}

/// The request's failure.
pub open spec fn failed() -> (Phase, Action) {
    (Phase::Finished, Action::Done(Err(Error::Unknown)))
}

/// Phases in which the request is still resolving the thread's source.
pub open spec fn resolving(p: Phase) -> bool {
    match p {
        Phase::Availability | Phase::PoolFlag | Phase::PoolRead | Phase::PoolMark | Phase::Open => true,
        _ => false,
    }
}

/// Steps that belong to resolving a source, rather than to using one.
pub open spec fn resolution_action(a: Action) -> bool {
    match a {
        Action::QueryAvailability | Action::LoadPoolFlag | Action::ReadBlockingByte
        | Action::MarkPoolReady | Action::OpenDevice => true,
        _ => false,
    }
}

/// Serving a request of `len` bytes from a resolved source: nothing to do for
/// an empty buffer, otherwise one fill through that source.
pub open spec fn dispatch<H>(s: Source<H>, len: usize) -> (Phase, Action) {
    if len == 0 {
        (Phase::Finished, Action::Done(Ok(())))
    } else {
        match s {
            Source::Syscall => (Phase::SyscallFill, Action::FillBySyscall),
            Source::Device(_) => (Phase::DeviceFill, Action::FillFromDevice),
        }
    }
}

/// How a request of `len` bytes begins on a thread whose cache holds `c`.
pub open spec fn begin_spec<H>(c: Option<Source<H>>, len: usize) -> (Phase, Action) {
    match c {
        Some(s) => dispatch(s, len),
        None => (Phase::Availability, Action::QueryAvailability),
    }
}

/// The request's next phase and step, from its phase and the event that the
/// last step produced. An event that does not answer the phase's step fails
/// the request.
pub open spec fn step_spec<H>(p: Phase, len: usize, e: Event<H>) -> (Phase, Action) {
    match (p, e) {
        (Phase::Availability, Event::Availability(true)) => dispatch(Source::<H>::Syscall, len),
        (Phase::Availability, Event::Availability(false)) => (Phase::PoolFlag, Action::LoadPoolFlag),
        (Phase::PoolFlag, Event::PoolFlag(true)) => (Phase::Open, Action::OpenDevice),
        (Phase::PoolFlag, Event::PoolFlag(false)) => (Phase::PoolRead, Action::ReadBlockingByte),
        (Phase::PoolRead, Event::BlockingRead(true)) => (Phase::PoolMark, Action::MarkPoolReady),
        (Phase::PoolMark, Event::PoolMarked) => (Phase::Open, Action::OpenDevice),
        (Phase::Open, Event::DeviceOpened(Some(h))) => dispatch(Source::Device(h), len),
        (Phase::SyscallFill, Event::SyscallReturned(ret)) => if fill_ok(ret, len) {
            (Phase::Finished, Action::Done(Ok(())))
        } else {
            failed()
        },
        (Phase::DeviceFill, Event::DeviceFilled(true)) => (Phase::Finished, Action::Done(Ok(()))),
        _ => failed(),
    }
}

/// The thread's cache after the event `e` arrives in phase `p`: a source is
/// recorded when the detector reports the system call present, or when the
/// device has been opened; nothing else touches the cache.
pub open spec fn cache_after<H>(c: Option<Source<H>>, p: Phase, e: Event<H>) -> Option<Source<H>> {
    match (p, e) {
        (Phase::Availability, Event::Availability(true)) => Some(Source::Syscall),
        (Phase::Open, Event::DeviceOpened(Some(h))) => Some(Source::Device(h)),
        _ => c,
    }
}

/// The thread's cache, the request's phase and the steps named, after the
/// events `es` arrive one by one, starting from cache `c` in phase `p`.
pub open spec fn run<H>(c: Option<Source<H>>, p: Phase, len: usize, es: Seq<Event<H>>) -> (
    Option<Source<H>>,
    Phase,
    Seq<Action>,
)
    decreases es.len(),
{
    if es.len() == 0 {
        (c, p, Seq::empty())
    } else {
        let (p1, a) = step_spec(p, len, es[0]);
        let rest = run(cache_after(c, p, es[0]), p1, len, es.drop_first());
        (rest.0, rest.1, seq![a] + rest.2)
    }
}

/// A request reports success only where the whole buffer has been filled: the
/// buffer is empty, the system call returned exactly its length, or the exact
/// read from the device succeeded. An empty buffer never leads to a fill step.
pub proof fn lemma_success_fills_whole_buffer<H>(
    c: Option<Source<H>>,
    p: Phase,
    len: usize,
    e: Event<H>,
)
    ensures
        begin_spec(c, len).1 == Action::Done(Ok(())) ==> len == 0,
        step_spec(p, len, e).1 == Action::Done(Ok(())) ==> {
            ||| len == 0
            ||| p == Phase::SyscallFill && e is SyscallReturned && fill_ok(e->SyscallReturned_0, len)
            ||| p == Phase::DeviceFill && e == Event::<H>::DeviceFilled(true)
        },
        len == 0 ==> begin_spec(c, len).1 != Action::FillBySyscall && begin_spec(c, len).1
            != Action::FillFromDevice,
        len == 0 ==> step_spec(p, len, e).1 != Action::FillBySyscall && step_spec(p, len, e).1
            != Action::FillFromDevice,
{
}

/// The device is opened only once the entropy pool is known to be seeded: the
/// readiness flag was found set, or it has just been set, which follows only a
/// successful blocking read. A request never begins by opening the device.
pub proof fn lemma_device_opened_only_when_seeded<H>(
    c: Option<Source<H>>,
    p: Phase,
    len: usize,
    e: Event<H>,
)
    ensures
        begin_spec(c, len).1 != Action::OpenDevice,
        step_spec(p, len, e).1 == Action::OpenDevice ==> {
            ||| p == Phase::PoolFlag && e == Event::<H>::PoolFlag(true)
            ||| p == Phase::PoolMark && e is PoolMarked
        },
        step_spec(p, len, e).0 == Phase::PoolMark ==> p == Phase::PoolRead && e
            == Event::<H>::BlockingRead(true),
{
}

/// Once a thread has resolved its source, no fill request on it resolves
/// again: whatever events arrive after the request begins, the cache keeps
/// the same source and no step of resolution is ever named.
pub proof fn lemma_resolved_source_is_kept<H>(c: Option<Source<H>>, len: usize, es: Seq<Event<H>>)
    requires
        c is Some,
    ensures
        !resolution_action(begin_spec(c, len).1),
        run(c, begin_spec(c, len).0, len, es).0 == c,
        forall|i: int|
            0 <= i < es.len() ==> !resolution_action(
                #[trigger] run(c, begin_spec(c, len).0, len, es).2[i],
            ),
{
    lemma_run_outside_resolution(c, begin_spec(c, len).0, len, es);
}

proof fn lemma_run_outside_resolution<H>(c: Option<Source<H>>, p: Phase, len: usize, es: Seq<Event<H>>)
    requires
        !resolving(p),
    ensures
        run(c, p, len, es).0 == c,
        run(c, p, len, es).2.len() == es.len(),
        forall|i: int| 0 <= i < es.len() ==> !resolution_action(#[trigger] run(c, p, len, es).2[i]),
    decreases es.len(),
{
    if es.len() > 0 {
        let (p1, a) = step_spec(p, len, es[0]);
        lemma_run_outside_resolution(c, p1, len, es.drop_first());
        let acts = run(c, p, len, es).2;
        let rest = run(c, p1, len, es.drop_first()).2;
        assert(acts == seq![a] + rest);
        assert forall|i: int| 0 <= i < es.len() implies !resolution_action(#[trigger] acts[i]) by {
            if i > 0 {
                assert(acts[i] == rest[i - 1]);
            }
        }
    }
}

/// How many more steps a request in phase `p` can take before it finishes.
pub open spec fn steps_left(p: Phase) -> nat {
    match p {
        Phase::Availability => 6,
        Phase::PoolFlag => 5,
        Phase::PoolRead => 4,
        Phase::PoolMark => 3,
        Phase::Open => 2,
        Phase::SyscallFill | Phase::DeviceFill => 1,
        Phase::Finished => 0,
    }
}

/// Every fill request finishes: whatever the outside steps produce, after at
/// most six events its phase is `Finished`, and it stays there.
pub proof fn lemma_request_finishes<H>(c: Option<Source<H>>, len: usize, es: Seq<Event<H>>)
    requires
        es.len() >= 6,
    ensures
        run(c, begin_spec(c, len).0, len, es).1 == Phase::Finished,
{
    lemma_run_finishes(c, begin_spec(c, len).0, len, es);
}

proof fn lemma_run_finishes<H>(c: Option<Source<H>>, p: Phase, len: usize, es: Seq<Event<H>>)
    requires
        es.len() >= steps_left(p),
    ensures
        run(c, p, len, es).1 == Phase::Finished,
    decreases es.len(),
{
    if es.len() > 0 {
        let p1 = step_spec(p, len, es[0]).0;
        assert(p == Phase::Finished || steps_left(p1) < steps_left(p));
        lemma_run_finishes(cache_after(c, p, es[0]), p1, len, es.drop_first());
    }
}

/// A request waits on a fill only once its thread holds a source.
pub open spec fn consistent<H>(c: Option<Source<H>>, p: Phase) -> bool {
    (p == Phase::SyscallFill || p == Phase::DeviceFill) ==> c is Some
}

/// A request that succeeds leaves its thread's source resolved: if it begins
/// with success, or any step names success, the cache holds a source.
pub proof fn lemma_success_leaves_source_resolved<H>(c: Option<Source<H>>, len: usize, es: Seq<Event<H>>)
    ensures
        begin_spec(c, len).1 == Action::Done(Ok(())) ==> c is Some,
        forall|i: int|
            0 <= i < es.len() && #[trigger] run(c, begin_spec(c, len).0, len, es).2[i] == Action::Done(
                Ok(()),
            ) ==> run(c, begin_spec(c, len).0, len, es).0 is Some,
{
    lemma_run_success(c, begin_spec(c, len).0, len, es);
}

proof fn lemma_run_success<H>(c: Option<Source<H>>, p: Phase, len: usize, es: Seq<Event<H>>)
    requires
        consistent(c, p),
    ensures
        run(c, p, len, es).2.len() == es.len(),
        c is Some ==> run(c, p, len, es).0 is Some,
        forall|i: int|
            0 <= i < es.len() && #[trigger] run(c, p, len, es).2[i] == Action::Done(Ok(()))
                ==> run(c, p, len, es).0 is Some,
    decreases es.len(),
{
    if es.len() > 0 {
        let (p1, a) = step_spec(p, len, es[0]);
        let c1 = cache_after(c, p, es[0]);
        assert(consistent(c1, p1));
        assert(c is Some ==> c1 is Some);
        assert(a == Action::Done(Ok(())) ==> c1 is Some);
        lemma_run_success(c1, p1, len, es.drop_first());
        let acts = run(c, p, len, es).2;
        let rest = run(c1, p1, len, es.drop_first()).2;
        assert(acts == seq![a] + rest);
        assert forall|i: int|
            0 <= i < es.len() && #[trigger] acts[i] == Action::Done(Ok(())) implies run(
                c,
                p,
                len,
                es,
            ).0 is Some by {
            if i > 0 {
                assert(acts[i] == rest[i - 1]);
            }
        }
    }
}

impl<H> SourceCache<H> {
    /// A cache that has resolved nothing yet.
    pub fn new() -> (r: Self)
        ensures
            r.source is None,
    {
        SourceCache { source: None }
    }

    /// Whether this thread has resolved its source.
    pub fn is_resolved(&self) -> (r: bool)
        ensures
            r == self.source is Some,
    {
        self.source.is_some()
    }
}

fn serve<H>(s: &Source<H>, len: usize) -> (r: (Phase, Action))
    ensures
        r == dispatch(*s, len),
{
    if len == 0 {
        (Phase::Finished, Action::Done(Ok(())))
    } else {
        match s {
            Source::Syscall => (Phase::SyscallFill, Action::FillBySyscall),
            Source::Device(_) => (Phase::DeviceFill, Action::FillFromDevice),
        }
    }
}

impl FillRequest {
    pub closed spec fn spec_len(&self) -> usize {
        self.len
    }

    pub closed spec fn spec_phase(&self) -> Phase {
        self.phase
    }

    /// The number of bytes asked for.
    pub fn len(&self) -> (r: usize)
        ensures
            r == self.spec_len(),
    {
        self.len
    }

    /// Where the request stands.
    pub fn phase(&self) -> (r: Phase)
        ensures
            r == self.spec_phase(),
    {
        self.phase
    }

    /// Starts a request for `len` bytes on the thread whose cache is `cache`,
    /// and names its first step.
    pub fn begin<H>(cache: &SourceCache<H>, len: usize) -> (r: (FillRequest, Action))
        ensures
            r.0.spec_len() == len,
            (r.0.spec_phase(), r.1) == begin_spec(cache.source, len),
    {
        let (phase, action) = match &cache.source {
            Some(s) => serve(s, len),
            None => (Phase::Availability, Action::QueryAvailability),
        };
        (FillRequest { len, phase }, action)
    }

    /// Takes what the last step produced, records a newly resolved source in
    /// `cache`, and names the next step.
    pub fn step<H>(&mut self, cache: &mut SourceCache<H>, event: Event<H>) -> (r: Action)
        ensures
            final(self).spec_len() == old(self).spec_len(),
            (final(self).spec_phase(), r) == step_spec(old(self).spec_phase(), old(self).spec_len(), event),
            final(cache).source == cache_after(old(cache).source, old(self).spec_phase(), event),
    {
        let len = self.len;
        let (phase, action) = match event {
            Event::Availability(present) => {
                if self.phase == Phase::Availability {
                    if present {
                        cache.source = Some(Source::Syscall);
                        serve(&Source::<H>::Syscall, len)
                    } else {
                        (Phase::PoolFlag, Action::LoadPoolFlag)
                    }
                } else {
                    (Phase::Finished, Action::Done(Err(Error::Unknown)))
                }
            },
            Event::PoolFlag(ready) => {
                if self.phase == Phase::PoolFlag {
                    if ready {
                        (Phase::Open, Action::OpenDevice)
                    } else {
                        (Phase::PoolRead, Action::ReadBlockingByte)
                    }
                } else {
                    (Phase::Finished, Action::Done(Err(Error::Unknown)))
                }
            },
            Event::BlockingRead(ok) => {
                if self.phase == Phase::PoolRead && ok {
                    (Phase::PoolMark, Action::MarkPoolReady)
                } else {
                    (Phase::Finished, Action::Done(Err(Error::Unknown)))
                }
            },
            Event::PoolMarked => {
                if self.phase == Phase::PoolMark {
                    (Phase::Open, Action::OpenDevice)
                } else {
                    (Phase::Finished, Action::Done(Err(Error::Unknown)))
                }
            },
            Event::DeviceOpened(opened) => {
                match opened {
                    Some(h) => {
                        if self.phase == Phase::Open {
                            let s = Source::Device(h);
                            let next = serve(&s, len);
                            cache.source = Some(s);
                            next
                        } else {
                            (Phase::Finished, Action::Done(Err(Error::Unknown)))
                        }
                    },
                    None => (Phase::Finished, Action::Done(Err(Error::Unknown))),
                }
            },
            Event::SyscallReturned(ret) => {
                if self.phase == Phase::SyscallFill && fill_succeeded(ret, len) {
                    (Phase::Finished, Action::Done(Ok(())))
                } else {
                    (Phase::Finished, Action::Done(Err(Error::Unknown)))
                }
            },
            Event::DeviceFilled(ok) => {
                if self.phase == Phase::DeviceFill && ok {
                    (Phase::Finished, Action::Done(Ok(())))
                } else {
                    (Phase::Finished, Action::Done(Err(Error::Unknown)))
                }
            },
        };
        self.phase = phase;
        action
    }
}

} // verus!
