//! The process table: one slot per pid, with the status of each thread.
use vstd::prelude::*;

verus! {

/// What ends a thread's sleep.
#[derive(Clone, Copy, Debug, PartialEq, Eq, Structural)]
pub enum Wakeup {
    /// The given number of ticks elapse.
    Timer(usize),
    /// Another thread unparks it.
    Unpark,
    /// The thread with the given pid exits.
    Exit(usize),
}

/// The status of a thread. `Exited` is terminal.
#[derive(Clone, Copy, Debug, PartialEq, Eq, Structural)]
pub enum Status {
    Ready,
    Running,
    Sleeping(Wakeup),
    Exited(usize),
}

/// A live entry of the process table.
#[derive(Clone, Copy, Debug, PartialEq, Eq, Structural)]
pub struct Proc {
    pub parent: usize,
    pub status: Status,
}

/// The mathematical model of a processor: the pid that runs, and the table
/// indexed by pid (`None` where the pid was removed).
pub ghost struct Snapshot {
    pub current: usize,
    pub procs: Seq<Option<Proc>>,
}

impl Snapshot {
    /// The entry of `pid`, if the table holds one.
    pub open spec fn entry(self, pid: usize) -> Option<Proc> {
        if pid < self.procs.len() {
            self.procs[pid as int]
        } else {
            None
        }
    }

    pub open spec fn status(self, pid: usize) -> Option<Status> {
        match self.entry(pid) {
            Some(e) => Some(e.status),
            None => None,
        }
    }

    pub open spec fn live(self, pid: usize) -> bool {
        self.entry(pid) is Some
    }

    pub open spec fn exited(self, pid: usize) -> bool {
        self.status(pid) matches Some(Status::Exited(_))
    }

    /// The table with `pid`'s status replaced.
    pub open spec fn with_status(self, pid: usize, s: Status) -> Snapshot {
        Snapshot {
            current: self.current,
            procs: self.procs.update(pid as int, Some(Proc { parent: self.entry(pid)->Some_0.parent, status: s })),
        }
    }

    /// The status that `sleep` leaves: a live thread that has not exited
    /// sleeps until `w`; any other entry stays as it is.
    pub open spec fn slept(self, pid: usize, w: Wakeup) -> Snapshot {
        if self.live(pid) && !self.exited(pid) {
            self.with_status(pid, Status::Sleeping(w))
        } else {
            self
        }
    }

    /// The status that `wakeup` leaves: a thread parked until unparked is
    /// ready; a timed sleep runs its course, and any other entry stays.
    pub open spec fn woken(self, pid: usize) -> Snapshot {
        if self.status(pid) == Some(Status::Sleeping(Wakeup::Unpark)) {
            self.with_status(pid, Status::Ready)
        } else {
            self
        }
    }

    /// The table once the scheduler runs `pid`: the thread that was running
    /// is ready again, and `pid` runs.
    pub open spec fn switched(self, pid: usize) -> Snapshot {
        let paused = if self.status(self.current) == Some(Status::Running) {
            self.with_status(self.current, Status::Ready)
        } else {
            self
        };
        Snapshot { current: pid, procs: paused.with_status(pid, Status::Running).procs }
    }

    /// The table once `parent` has registered a new ready thread, whose
    /// pid is the table's old length.
    pub open spec fn spawned(self, parent: usize) -> Snapshot {
        Snapshot { current: self.current, procs: self.procs.push(Some(Proc { parent, status: Status::Ready })) }
    }

    /// The table without the entry of `pid`.
    pub open spec fn removed(self, pid: usize) -> Snapshot {
        if pid < self.procs.len() {
            Snapshot { current: self.current, procs: self.procs.update(pid as int, None) }
        } else {
            self
        }
    }

    /// The table once a live `pid` has exited with `code`.
    pub open spec fn exit_of(self, pid: usize, code: usize) -> Snapshot {
        if self.live(pid) && !self.exited(pid) {
            Snapshot {
                current: self.current,
                procs: Seq::new(self.procs.len(), |q: int| self.after_exit_of(pid, code, q as usize)),
            }
        } else {
            self
        }
    }

    /// The entry of `q` once a tick has elapsed: a timed sleep with at most
    /// one tick left ends, a longer one has one tick less to go.
    pub open spec fn after_tick(self, q: usize) -> Option<Proc> {
        match self.entry(q) {
            Some(e) => match e.status {
                Status::Sleeping(Wakeup::Timer(n)) => Some(Proc {
                    parent: e.parent,
                    status: if n <= 1 { Status::Ready } else { Status::Sleeping(Wakeup::Timer((n - 1) as usize)) },
                }),
                _ => Some(e),
            },
            None => None,
        }
    }

    /// The table once a tick has elapsed.
    pub open spec fn ticked(self) -> Snapshot {
        Snapshot { current: self.current, procs: Seq::new(self.procs.len(), |q: int| self.after_tick(q as usize)) }
    }

    /// The status of `q` once `pid` has exited: waiters on `pid` are ready.
    pub open spec fn after_exit_of(self, pid: usize, code: usize, q: usize) -> Option<Proc> {
        if q == pid {
            Some(Proc { parent: self.entry(pid)->Some_0.parent, status: Status::Exited(code) })
        } else if self.status(q) == Some(Status::Sleeping(Wakeup::Exit(pid))) {
            Some(Proc { parent: self.entry(q)->Some_0.parent, status: Status::Ready })
        } else {
            self.entry(q)
        }
    }
}

/// A processor: the pid of the running thread and the process table.
pub struct Processor {
    pid: usize,
    procs: Vec<Option<Proc>>,
}

impl View for Processor {
    type V = Snapshot;

    closed spec fn view(&self) -> Snapshot {
        Snapshot { current: self.pid, procs: self.procs@ }
    }
}

impl Processor {
    /// A processor whose table holds the boot thread alone, pid 0, running.
    pub fn new() -> (r: Processor)
        ensures
            r@.current == 0,
            r@.procs == seq![Some(Proc { parent: 0, status: Status::Running })],
    {
        let mut procs: Vec<Option<Proc>> = Vec::new();
        procs.push(Some(Proc { parent: 0, status: Status::Running }));
        Processor { pid: 0, procs }
    }

    /// The pid of the running thread.
    pub fn pid(&self) -> (r: usize)
        ensures
            r == self@.current,
    {
        self.pid
    }

    /// The number of pids handed out so far.
    pub fn len(&self) -> (r: usize)
        ensures
            r == self@.procs.len(),
    {
        self.procs.len()
    }

    /// The status of `pid`, or `None` where the table holds no entry for it.
    pub fn get_status(&self, pid: usize) -> (r: Option<Status>)
        ensures
            r == self@.status(pid),
    {
        if pid < self.procs.len() {
            match self.procs[pid] {
                Some(e) => Some(e.status),
                None => None,
            }
        } else {
            None
        }
    }

    /// Registers a new ready thread whose parent is `parent`; returns its pid,
    /// which no entry had before.
    pub fn add(&mut self, parent: usize) -> (pid: usize)
        requires
            old(self)@.procs.len() < usize::MAX,
        ensures
            pid == old(self)@.procs.len(),
            final(self)@.current == old(self)@.current,
            final(self)@ == old(self)@.spawned(parent),
    {
        let pid = self.procs.len();
        self.procs.push(Some(Proc { parent, status: Status::Ready }));
        pid
    }

    fn set_status(&mut self, pid: usize, s: Status)
        requires
            old(self)@.live(pid),
        ensures
            final(self)@ == old(self)@.with_status(pid, s),
    {
        let parent = self.procs[pid].unwrap().parent;
        self.procs.set(pid, Some(Proc { parent, status: s }));
    }

    /// Puts `pid` to sleep until `w`. An exited or unknown pid is left as it is.
    pub fn sleep(&mut self, pid: usize, w: Wakeup)
        ensures
            final(self)@ == old(self)@.slept(pid, w),
    {
        match self.get_status(pid) {
            Some(Status::Exited(_)) => {},
            Some(_) => self.set_status(pid, Status::Sleeping(w)),
            None => {},
        }
    }

    /// Makes a parked `pid` ready again; on any other entry it does nothing.
    pub fn wakeup(&mut self, pid: usize)
        ensures
            final(self)@ == old(self)@.woken(pid),
    {
        match self.get_status(pid) {
            Some(Status::Sleeping(Wakeup::Unpark)) => self.set_status(pid, Status::Ready),
            _ => {},
        }
    }

    /// Registers `pid` as a waiter on `target`: it sleeps until `target`
    /// exits. Where `target` is unknown or has exited already, nothing changes.
    pub fn wait(&mut self, pid: usize, target: usize)
        ensures
            final(self)@ == (if old(self)@.live(target) && !old(self)@.exited(target) {
                old(self)@.slept(pid, Wakeup::Exit(target))
            } else {
                old(self)@
            }),
    {
        match self.get_status(target) {
            Some(Status::Exited(_)) => {},
            Some(_) => self.sleep(pid, Wakeup::Exit(target)),
            None => {},
        }
    }

    /// Marks a live `pid` exited with `code` and makes each thread waiting
    /// on it ready. On an unknown or exited pid it does nothing.
    pub fn exit(&mut self, pid: usize, code: usize)
        ensures
            final(self)@ == old(self)@.exit_of(pid, code),
    {
        match self.get_status(pid) {
            Some(Status::Exited(_)) => return,
            Some(_) => {},
            None => return,
        }
        let ghost start = self@;
        let n = self.procs.len();
        let mut i: usize = 0;
        while i < n
            invariant
                n == start.procs.len(),
                self@.current == start.current,
                self@.procs.len() == n,
                start.live(pid),
                !start.exited(pid),
                forall|q: usize| q < i ==> #[trigger] self@.entry(q) == start.after_exit_of(pid, code, q),
                forall|q: usize| i <= q ==> #[trigger] self@.entry(q) == start.entry(q),
            decreases n - i,
        {
            let ghost before = self@;
            assert(before.entry(i) == start.entry(i));
            match self.procs[i] {
                Some(e) => {
                    if i == pid {
                        self.procs.set(i, Some(Proc { parent: e.parent, status: Status::Exited(code) }));
                    } else if e.status == Status::Sleeping(Wakeup::Exit(pid)) {
                        self.procs.set(i, Some(Proc { parent: e.parent, status: Status::Ready }));
                    }
                },
                None => {},
            }
            assert(forall|q: usize| q != i ==> #[trigger] self@.entry(q) == before.entry(q));
            assert(self@.entry(i) == start.after_exit_of(pid, code, i));
            i = i + 1;
        }
        proof {
            assert forall|j: int| 0 <= j < n implies self@.procs[j] == start.after_exit_of(pid, code, j as usize) by {
                assert(self@.entry(j as usize) == start.after_exit_of(pid, code, j as usize));
            }
            assert(self@.procs =~= start.exit_of(pid, code).procs);
        }
    }

    /// A tick elapses: each timed sleep has one tick less to go, and those
    /// that are over make their threads ready.
    pub fn tick(&mut self)
        ensures
            final(self)@ == old(self)@.ticked(),
    {
        let ghost start = self@;
        let n = self.procs.len();
        let mut i: usize = 0;
        while i < n
            invariant
                n == start.procs.len(),
                self@.current == start.current,
                self@.procs.len() == n,
                forall|q: usize| q < i ==> #[trigger] self@.entry(q) == start.after_tick(q),
                forall|q: usize| i <= q ==> #[trigger] self@.entry(q) == start.entry(q),
            decreases n - i,
        {
            let ghost before = self@;
            assert(before.entry(i) == start.entry(i));
            match self.procs[i] {
                Some(e) => match e.status {
                    Status::Sleeping(Wakeup::Timer(k)) => {
                        let status = if k <= 1 { Status::Ready } else { Status::Sleeping(Wakeup::Timer(k - 1)) };
                        self.procs.set(i, Some(Proc { parent: e.parent, status }));
                    },
                    _ => {},
                },
                None => {},
            }
            assert(forall|q: usize| q != i ==> #[trigger] self@.entry(q) == before.entry(q));
            assert(self@.entry(i) == start.after_tick(i));
            i = i + 1;
        }
        proof {
            assert forall|j: int| 0 <= j < n implies self@.procs[j] == start.after_tick(j as usize) by {
                assert(self@.entry(j as usize) == start.after_tick(j as usize));
            }
            assert(self@.procs =~= start.ticked().procs);
        }
    }

    /// Removes the entry of `pid` from the table; its pid is not handed out again.
    pub fn remove(&mut self, pid: usize)
        ensures
            final(self)@ == old(self)@.removed(pid),
    {
        if pid < self.procs.len() {
            self.procs.set(pid, None);
        }
    }

    /// Gives up the running thread's turn. Which thread runs next is the
    /// scheduler's choice, made by `switch_to`; no entry changes here.
    pub fn yield_now(&mut self)
        ensures
            final(self)@ == old(self)@,
    {
    }

    /// The scheduler runs the ready thread `pid`: it becomes running, and a
    /// thread that was running until now is ready again.
    pub fn switch_to(&mut self, pid: usize)
        requires
            old(self)@.status(pid) == Some(Status::Ready),
        ensures
            final(self)@ == old(self)@.switched(pid),
    {
        let cur = self.pid;
        match self.get_status(cur) {
            Some(Status::Running) => self.set_status(cur, Status::Ready),
            _ => {},
        }
        self.set_status(pid, Status::Running);
        self.pid = pid;
    }
}

} // verus!
