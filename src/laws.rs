//! Laws that relate the thread operations to one another, stated over the
//! models that their contracts use.
use crate::process::{Snapshot, Status, Wakeup};
use crate::thread::{join_result, JoinError};
use vstd::prelude::*;

verus! {

/// A thread spawned from `s` that runs to its end with the value `v` is
/// joined with `v`, and with nothing else; the join reaps its entry, so a
/// second join finds no entry.
pub proof fn lemma_spawn_join_once<T>(s: Snapshot, h: Seq<Option<T>>, v: T)
    requires
        s.procs.len() < usize::MAX,
        h.len() < usize::MAX,
    ensures
        ({
            let pid = s.procs.len() as usize;
            let code = h.len() as usize;
            let ran = s.spawned(s.current).exit_of(pid, code);
            let cells = h.push(Some(v));
            &&& forall|r: Result<T, JoinError<T>>|
                join_result(ran, cells, pid, r) <==> r == Ok::<T, JoinError<T>>(v)
            &&& forall|r: Result<T, JoinError<T>>|
                join_result(ran.removed(pid), cells.update(code as int, None), pid, r)
                    <==> (r matches Err(JoinError::NotFound))
        }),
{
    let pid = s.procs.len() as usize;
    let code = h.len() as usize;
    let ran = s.spawned(s.current).exit_of(pid, code);
    assert(s.spawned(s.current).status(pid) == Some(Status::Ready));
    assert(ran.status(pid) == Some(Status::Exited(code)));
    assert(h.push(Some(v))[code as int] == Some(v));
    assert(ran.removed(pid).status(pid) is None);
}

/// A thread that parks and is then unparked by another thread is ready
/// again, with no span of time given.
pub proof fn lemma_park_unpark(s: Snapshot, pid: usize)
    requires
        s.live(pid),
        !s.exited(pid),
    ensures
        s.slept(pid, Wakeup::Unpark).woken(pid).status(pid) == Some(Status::Ready),
{
}

/// Spawning a thread changes no entry that the table held before.
pub proof fn lemma_spawn_leaves_others(s: Snapshot, parent: usize, q: usize)
    requires
        q < s.procs.len(),
    ensures
        s.spawned(parent).entry(q) == s.entry(q),
{
}

/// Two exited threads whose results are of two types are each joined with
/// their own result, in either order: joining one leaves the other's entry
/// and cells as they were.
pub proof fn lemma_joins_independent<A, B>(
    s: Snapshot,
    ha: Seq<Option<A>>,
    hb: Seq<Option<B>>,
    a: usize,
    b: usize,
    ca: usize,
    cb: usize,
)
    requires
        a != b,
        s.status(a) == Some(Status::Exited(ca)),
        s.status(b) == Some(Status::Exited(cb)),
    ensures
        join_result(s, ha, a, Ok::<A, JoinError<A>>(ha[ca as int]->Some_0)),
        join_result(s, hb, b, Ok::<B, JoinError<B>>(hb[cb as int]->Some_0)),
        join_result(s.removed(a), hb, b, Ok::<B, JoinError<B>>(hb[cb as int]->Some_0)),
        join_result(s.removed(b), ha, a, Ok::<A, JoinError<A>>(ha[ca as int]->Some_0)),
{
    assert(s.removed(a).status(b) == s.status(b));
    assert(s.removed(b).status(a) == s.status(a));
}

/// A join on a pid that no spawn handed out, or whose entry a join has
/// reaped, fails with `NotFound` and nothing else.
pub proof fn lemma_join_unknown<T>(s: Snapshot, h: Seq<Option<T>>, pid: usize)
    ensures
        pid >= s.procs.len() ==> forall|r: Result<T, JoinError<T>>|
            join_result(s, h, pid, r) <==> (r matches Err(JoinError::NotFound)),
        forall|r: Result<T, JoinError<T>>|
            join_result(s.removed(pid), h, pid, r) <==> (r matches Err(JoinError::NotFound)),
{
    if pid < s.procs.len() {
        assert(s.removed(pid).procs[pid as int] is None);
    }
}

} // verus!
