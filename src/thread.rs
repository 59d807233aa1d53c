//! A std-like thread interface over a `Processor`.
//!
//! The processor is handed to each call. A spawned closure travels to its
//! new thread inside a `Context`, the one entry point that every thread
//! starts from: the scheduler keeps it and calls `Context::enter` once it
//! runs the thread. The closure's result goes to a cell of a `Heap` of its
//! type, and the cell's address is the thread's exit code.
use crate::heap::Heap;
use crate::process::{Processor, Snapshot, Status, Wakeup};
use core::marker::PhantomData;
use vstd::prelude::*;

verus! {

/// Ticks per second: a tick lasts ten milliseconds.
pub const TICKS_PER_SEC: u64 = 100;

/// Nanoseconds per tick.
pub const NANOS_PER_TICK: u32 = 10_000_000;

/// Nanoseconds per second.
pub const NANOS_PER_SEC: u32 = 1_000_000_000;

/// A span of time: whole seconds and the nanoseconds beyond them.
#[derive(Clone, Copy, Debug, PartialEq, Eq)]
pub struct Span {
    secs: u64,
    nanos: u32,
}

impl View for Span {
    type V = (u64, u32);

    closed spec fn view(&self) -> (u64, u32) {
        (self.secs, self.nanos)
    }
}

/// The ticks in a span of `secs` seconds and `nanos` nanoseconds; what is
/// left under a tick is dropped.
pub open spec fn ticks_of(secs: u64, nanos: u32) -> int {
    secs * 100 + nanos / 10_000_000
}

impl Span {
    pub open spec fn wf(self) -> bool {
        self@.1 < NANOS_PER_SEC
    }

    /// `secs` seconds and `nanos` nanoseconds.
    pub fn new(secs: u64, nanos: u32) -> (r: Span)
        requires
            nanos < NANOS_PER_SEC,
        ensures
            r@ == (secs, nanos),
            r.wf(),
    {
        Span { secs, nanos }
    }

    pub fn from_secs(secs: u64) -> (r: Span)
        ensures
            r@ == (secs, 0u32),
            r.wf(),
    {
        Span { secs, nanos: 0 }
    }

    pub fn from_millis(millis: u64) -> (r: Span)
        ensures
            r@.0 == millis / 1000,
            r@.1 == (millis % 1000) * 1_000_000,
            r.wf(),
    {
        Span { secs: millis / 1000, nanos: ((millis % 1000) as u32) * 1_000_000 }
    }

    pub fn as_secs(&self) -> (r: u64)
        ensures
            r == self@.0,
    {
        self.secs
    }

    pub fn subsec_nanos(&self) -> (r: u32)
        ensures
            r == self@.1,
    {
        self.nanos
    }
}

/// The span `dur` in ticks of ten milliseconds, rounded down.
pub fn dur_to_ticks(dur: Span) -> (r: usize)
    requires
        dur.wf(),
        dur@.0 * 100 + 99 <= usize::MAX,
    ensures
        r == ticks_of(dur@.0, dur@.1),
{
    let secs = dur.secs as usize;
    let part = (dur.nanos / NANOS_PER_TICK) as usize;
    secs * (TICKS_PER_SEC as usize) + part
}

/// A handle to a thread.
#[derive(Debug)]
pub struct Thread {
    pid: usize,
}

impl View for Thread {
    type V = usize;

    closed spec fn view(&self) -> usize {
        self.pid
    }
}

impl Thread {
    /// Makes the thread ready again if it is parked; on a thread that runs,
    /// is ready or sleeps for a time, it does nothing.
    pub fn unpark(&self, p: &mut Processor)
        ensures
            final(p)@ == old(p)@.woken(self@),
    {
        p.wakeup(self.pid);
    }

    /// The thread's pid.
    pub fn id(&self) -> (r: usize)
        ensures
            r == self@,
    {
        self.pid
    }
}

/// A handle to the thread that runs on `p`.
pub fn current(p: &Processor) -> (r: Thread)
    ensures
        r@ == p@.current,
{
    Thread { pid: p.pid() }
}

/// Puts the running thread to sleep for `dur` and gives up its turn.
pub fn sleep(p: &mut Processor, dur: Span)
    requires
        dur.wf(),
        dur@.0 * 100 + 99 <= usize::MAX,
    ensures
        final(p)@ == old(p)@.slept(old(p)@.current, Wakeup::Timer(ticks_of(dur@.0, dur@.1) as usize)),
{
    let time = dur_to_ticks(dur);
    p.sleep(current(p).id(), Wakeup::Timer(time));
    p.yield_now();
}

/// Gives up the running thread's turn; its status is left as it is.
pub fn yield_now(p: &mut Processor)
    ensures
        final(p)@ == old(p)@,
{
    p.yield_now();
}

/// Puts the running thread to sleep until another thread unparks it.
pub fn park(p: &mut Processor)
    ensures
        final(p)@ == old(p)@.slept(old(p)@.current, Wakeup::Unpark),
{
    p.sleep(current(p).id(), Wakeup::Unpark);
    p.yield_now();
}

/// What a spawned thread starts from: its pid and the closure it runs.
pub struct Context<F, T> {
    pid: usize,
    f: F,
    mark: PhantomData<T>,
}

impl<F: FnOnce() -> T, T> Context<F, T> {
    pub closed spec fn pid(&self) -> usize {
        self.pid
    }

    pub closed spec fn callable(&self) -> F {
        self.f
    }

    /// The thread's pid.
    pub fn id(&self) -> (r: usize)
        ensures
            r == self.pid(),
    {
        self.pid
    }

    /// Runs the thread: calls the closure once, moves its result into a new
    /// cell of `heap`, and exits the thread with the cell's address as its
    /// code. The thread is not run again.
    pub fn enter(self, p: &mut Processor, heap: &mut Heap<T>)
        requires
            old(p)@.current == self.pid(),
            old(heap)@.len() < usize::MAX,
            self.callable().requires(()),
        ensures
            exists|v: T|
                {
                    &&& #[trigger] self.callable().ensures((), v)
                    &&& final(heap)@ == old(heap)@.push(Some(v))
                },
            final(p)@ == old(p)@.exit_of(self.pid(), old(heap)@.len() as usize),
    {
        let f = self.f;
        let ret = f();
        let exit_code = heap.put(ret);
        p.exit(self.pid, exit_code);
        p.yield_now();
    }
}

/// An owned permission to join a thread whose result is a `T`.
#[derive(Debug)]
pub struct JoinHandle<T> {
    thread: Thread,
    mark: PhantomData<T>,
}

impl<T> View for JoinHandle<T> {
    type V = usize;

    closed spec fn view(&self) -> usize {
        self.thread@
    }
}

/// Why a join gave no result.
#[derive(Debug)]
pub enum JoinError<T> {
    /// The table holds no entry for the thread: it never was, or was joined.
    NotFound,
    /// The thread has not exited yet. The handle comes back; the joining
    /// thread now waits for the exit and joins again once it runs.
    Pending(JoinHandle<T>),
}

/// What `join` returns on a table `s` and heap `h`: the value of the exit
/// code's cell once the thread has exited, and `NotFound` where `s` holds
/// no entry for it.
pub open spec fn join_result<T>(s: Snapshot, h: Seq<Option<T>>, pid: usize, r: Result<T, JoinError<T>>) -> bool {
    match s.status(pid) {
        Some(Status::Exited(code)) => r == Ok::<T, JoinError<T>>(h[code as int]->Some_0),
        None => r matches Err(JoinError::NotFound),
        Some(_) => r matches Err(JoinError::Pending(g)) && g@ == pid,
    }
}

impl<T> JoinHandle<T> {
    /// A handle to the thread `pid`. Joining it yields a `T` only where the
    /// thread's result went to a heap of `T`: `join` asks for that cell.
    pub fn from_pid(pid: usize) -> (r: JoinHandle<T>)
        ensures
            r@ == pid,
    {
        JoinHandle { thread: Thread { pid }, mark: PhantomData }
    }

    /// A handle to the thread.
    pub fn thread(&self) -> (r: &Thread)
        ensures
            r@ == self@,
    {
        &self.thread
    }

    /// Joins the thread. Once it has exited, its entry is removed and the
    /// value in the cell that its exit code addresses is taken out and
    /// returned. Where the table holds no entry for it, `NotFound`. Otherwise
    /// the running thread waits for its exit, gives up its turn, and gets
    /// the handle back.
    ///
    /// The cell must be in `heap`: the one heap of `T` that the thread's
    /// `Context` was entered with.
    ///
    /// A caller that blocks joins again each time it runs, one check per
    /// turn. That suits a cooperative scheduler on one core; it takes no
    /// account of priorities.
    pub fn join(self, p: &mut Processor, heap: &mut Heap<T>) -> (r: Result<T, JoinError<T>>)
        requires
            old(p)@.status(self@) matches Some(Status::Exited(code)) ==> old(heap).holds(code),
        ensures
            join_result(old(p)@, old(heap)@, self@, r),
            match old(p)@.status(self@) {
                Some(Status::Exited(code)) => {
                    &&& final(p)@ == old(p)@.removed(self@)
                    &&& final(heap)@ == old(heap)@.update(code as int, None)
                },
                None => final(p)@ == old(p)@ && final(heap)@ == old(heap)@,
                Some(_) => {
                    &&& final(p)@ == old(p)@.slept(old(p)@.current, Wakeup::Exit(self@))
                    &&& final(heap)@ == old(heap)@
                },
            },
    {
        let pid = self.thread.pid;
        match p.get_status(pid) {
            Some(Status::Exited(exit_code)) => {
                p.remove(pid);
                let v = heap.take(exit_code);
                Ok(v)
            },
            None => Err(JoinError::NotFound),
            Some(_) => {
                p.wait(current(p).id(), pid);
                p.yield_now();
                Err(JoinError::Pending(self))
            },
        }
    }
}

/// Spawns a thread that will run `f` and returns a handle to join it,
/// with the `Context` that the scheduler starts it from. The new thread is
/// a ready child of the running one, under a pid that no entry had; every
/// other entry stays as it was.
pub fn spawn<F, T>(p: &mut Processor, f: F) -> (r: (JoinHandle<T>, Context<F, T>))
    where
        F: FnOnce() -> T,
    requires
        old(p)@.procs.len() < usize::MAX,
    ensures
        r.0@ == old(p)@.procs.len(),
        r.1.pid() == r.0@,
        r.1.callable() == f,
        final(p)@ == old(p)@.spawned(old(p)@.current),
{
    let parent = p.pid();
    let pid = p.add(parent);
    let handle = JoinHandle { thread: Thread { pid }, mark: PhantomData };
    let context = Context { pid, f, mark: PhantomData };
    (handle, context)
}

} // verus!
