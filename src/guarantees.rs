//! What the pool's protocol guarantees over whole runs of events.
use vstd::prelude::*;

use crate::pool::{Dispatch, PoolError, PoolEvent, PoolView, ShutdownStep, WorkerStatus, lemma_step_wf};

verus! {

/// One `Execute` event per job, in order.
pub open spec fn submissions<J>(jobs: Seq<J>) -> Seq<PoolEvent<J>> {
    jobs.map_values(|j: J| PoolEvent::Execute(j))
}

/// Workers `lo .. hi` ask for work, in that order.
pub open spec fn takes<J>(lo: nat, hi: nat) -> Seq<PoolEvent<J>>
    decreases hi - lo,
{
    if lo >= hi {
        Seq::empty()
    } else {
        seq![PoolEvent::Take(lo)] + takes::<J>(lo + 1, hi)
    }
}

/// Workers `lo .. hi` are reported joined, in that order.
pub open spec fn joins<J>(lo: nat, hi: nat) -> Seq<PoolEvent<J>>
    decreases hi - lo,
{
    if lo >= hi {
        Seq::empty()
    } else {
        seq![PoolEvent::Joined(lo)] + joins::<J>(lo + 1, hi)
    }
}

proof fn lemma_run_concat<J>(v: PoolView<J>, a: Seq<PoolEvent<J>>, b: Seq<PoolEvent<J>>)
    ensures
        v.run(a + b) == v.run(a).run(b),
        v.allows(a + b) == (v.allows(a) && v.run(a).allows(b)),
    decreases a.len(),
{
    if a.len() == 0 {
        assert(a + b =~= b);
    } else {
        assert((a + b).drop_first() =~= a.drop_first() + b);
        assert((a + b)[0] == a[0]);
        lemma_run_concat(v.step(a[0]), a.drop_first(), b);
    }
}

proof fn lemma_run_wf<J>(v: PoolView<J>, events: Seq<PoolEvent<J>>)
    requires
        v.wf(),
        v.allows(events),
    ensures
        v.run(events).wf(),
    decreases events.len(),
{
    if events.len() > 0 {
        lemma_step_wf(v, events[0]);
        lemma_run_wf(v.step(events[0]), events.drop_first());
    }
}

proof fn lemma_submissions<J>(v: PoolView<J>, jobs: Seq<J>)
    requires
        v.open,
    ensures
        v.allows(submissions(jobs)),
        v.run(submissions(jobs)) == (PoolView {
            queue: v.queue + jobs,
            accepted: v.accepted + jobs,
            ..v
        }),
    decreases jobs.len(),
{
    let s = submissions(jobs);
    if jobs.len() == 0 {
        assert(v.queue + jobs =~= v.queue);
        assert(v.accepted + jobs =~= v.accepted);
    } else {
        let w = v.after_execute(jobs[0]);
        assert(s.drop_first() =~= submissions(jobs.drop_first()));
        lemma_submissions(w, jobs.drop_first());
        assert(w.queue + jobs.drop_first() =~= v.queue + jobs);
        assert(w.accepted + jobs.drop_first() =~= v.accepted + jobs);
    }
}

proof fn lemma_takes_all_run<J>(v: PoolView<J>, lo: nat, hi: nat)
    requires
        lo <= hi <= v.workers.len(),
        v.queue.len() >= hi - lo,
        forall|i: int| lo <= i < hi ==> v.workers[i] == WorkerStatus::Idle,
    ensures
        v.allows(takes::<J>(lo, hi)),
        v.run(takes::<J>(lo, hi)).workers == v.workers.take(lo as int) + Seq::new(
            (hi - lo) as nat,
            |i: int| WorkerStatus::Busy,
        ) + v.workers.skip(hi as int),
        v.run(takes::<J>(lo, hi)).assigned == v.assigned + Seq::new(
            (hi - lo) as nat,
            |i: int| (lo + i) as nat,
        ),
        v.run(takes::<J>(lo, hi)).queue == v.queue.skip(hi - lo),
        v.run(takes::<J>(lo, hi)).accepted == v.accepted,
    decreases hi - lo,
{
    let t = takes::<J>(lo, hi);
    if lo >= hi {
        assert(v.workers.take(lo as int) + Seq::new(0, |i: int| WorkerStatus::Busy)
            + v.workers.skip(hi as int) =~= v.workers);
        assert(v.assigned + Seq::new(0, |i: int| (lo + i) as nat) =~= v.assigned);
        assert(v.queue.skip(0) =~= v.queue);
    } else {
        assert(t[0] == PoolEvent::<J>::Take(lo));
        assert(t.drop_first() =~= takes::<J>(lo + 1, hi));
        let w = v.after_take(lo);
        lemma_takes_all_run(w, lo + 1, hi);
        assert(w.workers.take((lo + 1) as int) + Seq::new((hi - lo - 1) as nat, |i: int| WorkerStatus::Busy)
            + w.workers.skip(hi as int) =~= v.workers.take(lo as int) + Seq::new(
            (hi - lo) as nat,
            |i: int| WorkerStatus::Busy,
        ) + v.workers.skip(hi as int));
        assert(w.assigned + Seq::new((hi - lo - 1) as nat, |i: int| (lo + 1 + i) as nat)
            =~= v.assigned + Seq::new((hi - lo) as nat, |i: int| (lo + i) as nat));
        assert(w.queue.skip(hi - lo - 1) =~= v.queue.skip(hi - lo));
    }
}

/// A pool of `n` workers given `n` jobs runs them all at once: when each
/// worker in turn asks for work, each receives one of the jobs, the `k`-th
/// job going to worker `k`, and all `n` workers are busy before any job ends.
pub proof fn lemma_full_parallelism<J>(n: nat, jobs: Seq<J>)
    requires
        n > 0,
        jobs.len() == n,
    ensures
        ({
            let start = PoolView::<J>::initial(n);
            let events = submissions(jobs) + takes::<J>(0, n);
            let end = start.run(events);
            &&& start.allows(events)
            &&& forall|i: int| 0 <= i < n ==> end.workers[i] == WorkerStatus::Busy
            &&& end.assigned == Seq::new(n, |k: int| k as nat)
            &&& end.accepted == jobs
            &&& end.queue.len() == 0
        }),
{
    let start = PoolView::<J>::initial(n);
    let s = submissions(jobs);
    lemma_submissions(start, jobs);
    let mid = start.run(s);
    assert(mid.queue =~= jobs);
    assert(mid.accepted =~= jobs);
    lemma_takes_all_run(mid, 0, n);
    lemma_run_concat(start, s, takes::<J>(0, n));
    let end = start.run(s + takes::<J>(0, n));
    assert(end.workers =~= Seq::new(n, |i: int| WorkerStatus::Busy));
    assert(end.assigned =~= Seq::new(n, |k: int| k as nat));
}

proof fn lemma_history_grows<J>(v: PoolView<J>, events: Seq<PoolEvent<J>>)
    requires
        v.wf(),
        v.allows(events),
    ensures
        v.accepted.is_prefix_of(v.run(events).accepted),
        v.assigned.is_prefix_of(v.run(events).assigned),
    decreases events.len(),
{
    if events.len() > 0 {
        let w = v.step(events[0]);
        lemma_step_wf(v, events[0]);
        lemma_history_grows(w, events.drop_first());
        assert(v.accepted.is_prefix_of(w.accepted));
        assert(v.assigned.is_prefix_of(w.assigned));
    }
}

/// Every job the pool accepts is handed to exactly one worker, in the order
/// of acceptance. Through any run of events, what was accepted or handed
/// out stays so; at every point the accepted jobs are those handed out, one
/// per entry of `assigned`, followed by those still queued; and once every
/// worker has left its loop normally nothing is left queued, so each
/// accepted job has been handed out exactly once.
pub proof fn lemma_exactly_once<J>(v: PoolView<J>, events: Seq<PoolEvent<J>>)
    requires
        v.wf(),
        v.allows(events),
    ensures
        ({
            let w = v.run(events);
            &&& v.accepted.is_prefix_of(w.accepted)
            &&& v.assigned.is_prefix_of(w.assigned)
            &&& w.accepted == w.accepted.take(w.assigned.len() as int) + w.queue
            &&& (forall|i: int| 0 <= i < w.workers.len() ==> w.workers[i] == WorkerStatus::Exited)
                ==> w.assigned.len() == w.accepted.len()
        }),
{
    lemma_history_grows(v, events);
    lemma_run_wf(v, events);
    let w = v.run(events);
    assert(w.accepted =~= w.accepted.take(w.assigned.len() as int) + w.queue);
    if forall|i: int| 0 <= i < w.workers.len() ==> w.workers[i] == WorkerStatus::Exited {
        assert(w.workers[0] == WorkerStatus::Exited);
    }
}

/// The job an idle worker receives is the oldest accepted job not yet
/// handed out.
pub proof fn lemma_take_oldest<J>(v: PoolView<J>, id: nat)
    requires
        v.wf(),
        v.is_idle(id),
        v.queue.len() > 0,
    ensures
        v.dispatch() == Dispatch::Run(v.accepted[v.assigned.len() as int]),
        v.after_take(id).assigned == v.assigned.push(id),
{
}

/// Once shutdown has begun every submission fails with `PoolClosed` and
/// changes nothing; whatever happens next, the pool stays closed and the
/// accepted jobs stay the same, so no job submitted after closure is ever
/// handed to a worker.
pub proof fn lemma_closed_rejects<J>(v: PoolView<J>, job: J, events: Seq<PoolEvent<J>>)
    requires
        v.wf(),
        !v.open,
        v.allows(events),
    ensures
        v.execute_result() == Err::<(), PoolError>(PoolError::PoolClosed),
        v.after_execute(job) == v,
        !v.run(events).open,
        v.run(events).accepted == v.accepted,
        v.run(events).assigned.len() <= v.accepted.len(),
    decreases events.len(),
{
    if events.len() > 0 {
        lemma_step_wf(v, events[0]);
        lemma_closed_rejects(v.step(events[0]), job, events.drop_first());
    } else {
    }
}

proof fn lemma_takes_exit<J>(v: PoolView<J>, lo: nat, hi: nat)
    requires
        !v.open,
        v.queue.len() == 0,
        lo <= hi <= v.workers.len(),
        forall|i: int| lo <= i < hi ==> v.workers[i] == WorkerStatus::Idle,
    ensures
        v.allows(takes::<J>(lo, hi)),
        v.run(takes::<J>(lo, hi)) == (PoolView {
            workers: v.workers.take(lo as int) + Seq::new(
                (hi - lo) as nat,
                |i: int| WorkerStatus::Exited,
            ) + v.workers.skip(hi as int),
            ..v
        }),
    decreases hi - lo,
{
    let t = takes::<J>(lo, hi);
    if lo >= hi {
        assert(v.workers.take(lo as int) + Seq::new(0, |i: int| WorkerStatus::Exited)
            + v.workers.skip(hi as int) =~= v.workers);
    } else {
        assert(t[0] == PoolEvent::<J>::Take(lo));
        assert(t.drop_first() =~= takes::<J>(lo + 1, hi));
        let w = v.after_take(lo);
        lemma_takes_exit(w, lo + 1, hi);
        assert(w.workers.take((lo + 1) as int) + Seq::new((hi - lo - 1) as nat, |i: int| WorkerStatus::Exited)
            + w.workers.skip(hi as int) =~= v.workers.take(lo as int) + Seq::new(
            (hi - lo) as nat,
            |i: int| WorkerStatus::Exited,
        ) + v.workers.skip(hi as int));
    }
}

proof fn lemma_joins_run<J>(v: PoolView<J>, hi: nat)
    requires
        !v.open,
        v.joined <= hi == v.workers.len(),
        forall|i: int| 0 <= i < hi ==> (#[trigger] v.workers[i]).is_terminated(),
    ensures
        v.allows(joins::<J>(v.joined, hi)),
        v.run(joins::<J>(v.joined, hi)) == (PoolView { joined: hi, ..v }),
    decreases hi - v.joined,
{
    let t = joins::<J>(v.joined, hi);
    if v.joined < hi {
        assert(t[0] == PoolEvent::<J>::Joined(v.joined));
        assert(t.drop_first() =~= joins::<J>(v.joined + 1, hi));
        lemma_joins_run(v.after_joined(), hi);
    }
}

/// Disposing of a pool whose workers all wait on an empty queue ends: the
/// first shutdown step closes the queue, every worker that asks for work
/// afterwards is told to exit, the workers are then joined in the order they
/// were built, and the protocol reports `Done` with every worker exited.
pub proof fn lemma_idle_shutdown<J>(v: PoolView<J>)
    requires
        v.wf(),
        v.open,
        v.queue.len() == 0,
        forall|i: int| 0 <= i < v.workers.len() ==> v.workers[i] == WorkerStatus::Idle,
    ensures
        v.shutdown_step() == ShutdownStep::Close,
        v.after_shutdown_step().dispatch() == Dispatch::<J>::Exit,
        ({
            let n = v.workers.len();
            let events = seq![PoolEvent::Shutdown] + takes::<J>(0, n) + joins::<J>(0, n);
            let end = v.run(events);
            &&& v.allows(events)
            &&& end.shutdown_step() == ShutdownStep::Done
            &&& forall|i: int| 0 <= i < n ==> end.workers[i] == WorkerStatus::Exited
        }),
{
    let n = v.workers.len();
    let first = seq![PoolEvent::<J>::Shutdown];
    let c = v.after_shutdown_step();
    assert(first[0] == PoolEvent::<J>::Shutdown);
    assert(first.drop_first() =~= Seq::<PoolEvent<J>>::empty());
    assert(c.run(Seq::<PoolEvent<J>>::empty()) == c);
    assert(c.allows(Seq::<PoolEvent<J>>::empty()));
    assert(v.run(first) == c);
    assert(v.allows(first));
    lemma_takes_exit(c, 0, n);
    let d = c.run(takes::<J>(0, n));
    assert(d.workers =~= Seq::new(n, |i: int| WorkerStatus::Exited));
    assert(v.joined == 0);
    lemma_joins_run(d, n);
    lemma_run_concat(v, first, takes::<J>(0, n));
    lemma_run_concat(v, first + takes::<J>(0, n), joins::<J>(0, n));
}

/// A worker that is running a job cannot be reported joined, and no event
/// other than the end of its own job changes that: shutdown waits for every
/// running job to finish.
pub proof fn lemma_busy_blocks_join<J>(v: PoolView<J>, k: nat, e: PoolEvent<J>)
    requires
        v.wf(),
        v.is_busy(k),
        v.enabled(e),
        e != PoolEvent::<J>::Complete(k),
        e != PoolEvent::<J>::Crash(k),
    ensures
        !v.enabled(PoolEvent::Joined(k)),
        v.step(e).is_busy(k),
{
}

/// A worker brought down by its job is never given work again.
pub proof fn lemma_crashed_stays_down<J>(v: PoolView<J>, k: nat, events: Seq<PoolEvent<J>>)
    requires
        k < v.workers.len(),
        v.workers[k as int] == WorkerStatus::Crashed,
        v.allows(events),
    ensures
        v.run(events).workers[k as int] == WorkerStatus::Crashed,
        v.run(events).workers.len() == v.workers.len(),
    decreases events.len(),
{
    if events.len() > 0 {
        lemma_crashed_stays_down(v.step(events[0]), k, events.drop_first());
    }
}

} // verus!
