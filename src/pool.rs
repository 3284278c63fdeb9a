//! The bookkeeping of a fixed-size worker pool.
//!
//! `ThreadPool<J>` owns the job queue and the status of every worker. It
//! decides which job a worker gets, when a worker must leave its loop, and
//! in which order the workers are waited for at shutdown. The threads, the
//! lock around the pool and the blocking waits belong to the code that
//! embeds it: that code asks the pool what to do and reports what happened.
use vstd::prelude::*;

verus! {

/// Why the pool refused a request.
#[derive(Debug, Clone, Copy, PartialEq, Eq, Structural)]
pub enum PoolError {
    /// A pool was asked for with no workers.
    InvalidConfiguration,
    /// A job was submitted after shutdown had begun.
    PoolClosed,
}

/// Where a worker stands in its life cycle.
#[derive(Debug, Clone, Copy, PartialEq, Eq, Structural)]
pub enum WorkerStatus {
    /// Waiting on the queue for a job or for closure.
    Idle,
    /// Running a job it took from the queue.
    Busy,
    /// Left its loop after finding the queue closed and empty.
    Exited,
    /// Its job aborted and took the worker down with it.
    Crashed,
}

impl WorkerStatus {
    /// The worker's thread has ended, one way or the other.
    pub open spec fn is_terminated(self) -> bool {
        self is Exited || self is Crashed
    }
}

/// What a worker that asked for work must do next.
#[derive(Debug)]
pub enum Dispatch<J> {
    /// Run this job, then report back.
    Run(J),
    /// Nothing queued yet: block until something changes, then ask again.
    Wait,
    /// The queue is closed and empty: leave the loop.
    Exit,
}

/// One step of the shutdown protocol.
#[derive(Debug, Clone, Copy, PartialEq, Eq, Structural)]
pub enum ShutdownStep {
    /// The queue has just been closed: wake every waiting worker.
    Close,
    /// Wait for this worker's thread to end, then report it joined.
    Join(usize),
    /// Every worker has been joined.
    Done,
}

/// A worker as the pool records it: its stable id and its status.
#[derive(Debug, Clone, Copy, PartialEq, Eq, Structural)]
pub struct Worker {
    pub id: usize,
    pub status: WorkerStatus,
}

impl Worker {
    /// A fresh worker, waiting for its first job.
    pub fn new(id: usize) -> (w: Worker)
        ensures
            w.id == id,
            w.status == WorkerStatus::Idle,
    {
        Worker { id, status: WorkerStatus::Idle }
    }
}

/// The abstract state of a pool.
///
/// `accepted` lists every job that `execute` took, in order; `assigned[k]`
/// is the worker that received `accepted[k]`; `queue` holds the jobs that
/// no worker has received yet; `joined` counts the workers waited for.
pub struct PoolView<J> {
    pub open: bool,
    pub workers: Seq<WorkerStatus>,
    pub queue: Seq<J>,
    pub accepted: Seq<J>,
    pub assigned: Seq<nat>,
    pub joined: nat,
}

/// Something that can happen to a pool: a call of one of its operations.
pub enum PoolEvent<J> {
    Execute(J),
    Take(nat),
    Complete(nat),
    Crash(nat),
    Shutdown,
    Joined(nat),
}

impl<J> PoolView<J> {
    pub open spec fn size(self) -> nat {
        self.workers.len()
    }

    /// What every reachable state satisfies: the accepted jobs are those
    /// handed out followed by those queued, every job went to an existing
    /// worker, joining starts only after closing and only on ended threads,
    /// and a worker exits only from a closed, empty queue.
    pub open spec fn wf(self) -> bool {
        &&& self.workers.len() > 0
        &&& self.assigned.len() + self.queue.len() == self.accepted.len()
        &&& self.queue == self.accepted.skip(self.assigned.len() as int)
        &&& forall|k: int| 0 <= k < self.assigned.len() ==> self.assigned[k] < self.workers.len()
        &&& self.joined <= self.workers.len()
        &&& self.joined > 0 ==> !self.open
        &&& forall|i: int| 0 <= i < self.joined ==> (#[trigger] self.workers[i]).is_terminated()
        &&& forall|i: int|
            0 <= i < self.workers.len() && #[trigger] self.workers[i] == WorkerStatus::Exited
                ==> !self.open && self.queue.len() == 0
    }

    /// A pool of `size` idle workers with an open, empty queue.
    pub open spec fn initial(size: nat) -> PoolView<J> {
        PoolView {
            open: true,
            workers: Seq::new(size, |i: int| WorkerStatus::Idle),
            queue: Seq::empty(),
            accepted: Seq::empty(),
            assigned: Seq::empty(),
            joined: 0,
        }
    }

    pub open spec fn execute_result(self) -> Result<(), PoolError> {
        if self.open {
            Ok(())
        } else {
            Err(PoolError::PoolClosed)
        }
    }

    pub open spec fn after_execute(self, job: J) -> PoolView<J> {
        if self.open {
            PoolView { queue: self.queue.push(job), accepted: self.accepted.push(job), ..self }
        } else {
            self
        }
    }

    pub open spec fn is_idle(self, id: nat) -> bool {
        id < self.workers.len() && self.workers[id as int] == WorkerStatus::Idle
    }

    pub open spec fn is_busy(self, id: nat) -> bool {
        id < self.workers.len() && self.workers[id as int] == WorkerStatus::Busy
    }

    /// What an idle worker that asks for work is told.
    pub open spec fn dispatch(self) -> Dispatch<J> {
        if self.queue.len() > 0 {
            Dispatch::Run(self.queue[0])
        } else if self.open {
            Dispatch::Wait
        } else {
            Dispatch::Exit
        }
    }

    pub open spec fn after_take(self, id: nat) -> PoolView<J> {
        if self.queue.len() > 0 {
            PoolView {
                workers: self.workers.update(id as int, WorkerStatus::Busy),
                queue: self.queue.drop_first(),
                assigned: self.assigned.push(id),
                ..self
            }
        } else if self.open {
            self
        } else {
            PoolView { workers: self.workers.update(id as int, WorkerStatus::Exited), ..self }
        }
    }

    pub open spec fn after_complete(self, id: nat) -> PoolView<J> {
        PoolView { workers: self.workers.update(id as int, WorkerStatus::Idle), ..self }
    }

    pub open spec fn after_crash(self, id: nat) -> PoolView<J> {
        PoolView { workers: self.workers.update(id as int, WorkerStatus::Crashed), ..self }
    }

    /// The next step of the shutdown protocol: close first, then the workers
    /// one by one in the order they were built.
    pub open spec fn shutdown_step(self) -> ShutdownStep {
        if self.open {
            ShutdownStep::Close
        } else if self.joined < self.workers.len() {
            ShutdownStep::Join(self.joined as usize)
        } else {
            ShutdownStep::Done
        }
    }

    pub open spec fn after_shutdown_step(self) -> PoolView<J> {
        PoolView { open: false, ..self }
    }

    /// Worker `id` may be reported joined: it is the next in line and its
    /// thread has ended.
    pub open spec fn can_mark_joined(self, id: nat) -> bool {
        &&& !self.open
        &&& id == self.joined
        &&& id < self.workers.len()
        &&& self.workers[id as int].is_terminated()
    }

    pub open spec fn after_joined(self) -> PoolView<J> {
        PoolView { joined: self.joined + 1, ..self }
    }

    /// Whether `e` may happen now: a worker asks for work only while idle,
    /// finishes or crashes only while busy, and is joined only in its turn.
    pub open spec fn enabled(self, e: PoolEvent<J>) -> bool {
        match e {
            PoolEvent::Execute(_) => true,
            PoolEvent::Take(id) => self.is_idle(id),
            PoolEvent::Complete(id) => self.is_busy(id),
            PoolEvent::Crash(id) => self.is_busy(id),
            PoolEvent::Shutdown => true,
            PoolEvent::Joined(id) => self.can_mark_joined(id),
        }
    }

    /// The state after `e`.
    pub open spec fn step(self, e: PoolEvent<J>) -> PoolView<J> {
        match e {
            PoolEvent::Execute(job) => self.after_execute(job),
            PoolEvent::Take(id) => self.after_take(id),
            PoolEvent::Complete(id) => self.after_complete(id),
            PoolEvent::Crash(id) => self.after_crash(id),
            PoolEvent::Shutdown => self.after_shutdown_step(),
            PoolEvent::Joined(_) => self.after_joined(),
        }
    }

    /// Every event of `events` is enabled when its turn comes.
    pub open spec fn allows(self, events: Seq<PoolEvent<J>>) -> bool
        decreases events.len(),
    {
        events.len() == 0 || (self.enabled(events[0]) && self.step(events[0]).allows(
            events.drop_first(),
        ))
    }

    /// The state after `events`, one after the other.
    pub open spec fn run(self, events: Seq<PoolEvent<J>>) -> PoolView<J>
        decreases events.len(),
    {
        if events.len() == 0 {
            self
        } else {
            self.step(events[0]).run(events.drop_first())
        }
    }
}

/// The initial state is well formed.
pub proof fn lemma_initial_wf<J>(size: nat)
    requires
        size > 0,
    ensures
        PoolView::<J>::initial(size).wf(),
{
    let v = PoolView::<J>::initial(size);
    assert(v.queue =~= v.accepted.skip(0));
}

/// Every enabled event keeps the state well formed.
pub proof fn lemma_step_wf<J>(v: PoolView<J>, e: PoolEvent<J>)
    requires
        v.wf(),
        v.enabled(e),
    ensures
        v.step(e).wf(),
{
    let w = v.step(e);
    match e {
        PoolEvent::Execute(job) => {
            if v.open {
                assert(w.queue =~= w.accepted.skip(w.assigned.len() as int));
            }
        },
        PoolEvent::Take(id) => {
            if v.queue.len() > 0 {
                assert(w.queue =~= w.accepted.skip(w.assigned.len() as int));
                assert forall|k: int| 0 <= k < w.assigned.len() implies w.assigned[k]
                    < w.workers.len() by {
                    if k < v.assigned.len() {
                        assert(w.assigned[k] == v.assigned[k]);
                    }
                }
            }
        },
        _ => {},
    }
}

/// The pool itself: the workers' records, the queue and the shutdown cursor.
pub struct ThreadPool<J> {
    workers: Vec<Worker>,
    queue: Vec<J>,
    open: bool,
    joined: usize,
    accepted: Ghost<Seq<J>>,
    assigned: Ghost<Seq<nat>>,
}

impl<J> View for ThreadPool<J> {
    type V = PoolView<J>;

    closed spec fn view(&self) -> PoolView<J> {
        PoolView {
            open: self.open,
            workers: self.workers@.map_values(|w: Worker| w.status),
            queue: self.queue@,
            accepted: self.accepted@,
            assigned: self.assigned@,
            joined: self.joined as nat,
        }
    }
}

impl<J> ThreadPool<J> {
    pub closed spec fn ids_in_place(&self) -> bool {
        forall|i: int| 0 <= i < self.workers@.len() ==> (#[trigger] self.workers@[i]).id == i
    }

    /// The pool's state is consistent.
    pub open spec fn inv(&self) -> bool {
        self@.wf() && self.ids_in_place()
    }

    /// Builds a pool of `size` idle workers with ids `0..size`.
    pub fn new(size: usize) -> (r: Result<ThreadPool<J>, PoolError>)
        ensures
            size == 0 <==> r is Err,
            r matches Err(e) ==> e == PoolError::InvalidConfiguration,
            r matches Ok(p) ==> p.inv() && p@ == PoolView::<J>::initial(size as nat),
    {
        if size == 0 {
            return Err(PoolError::InvalidConfiguration);
        }
        let mut workers: Vec<Worker> = Vec::with_capacity(size);
        let mut id: usize = 0;
        while id < size
            invariant
                id <= size,
                workers@.len() == id,
                forall|i: int| 0 <= i < id ==> #[trigger] workers@[i] == Worker::new_spec(i),
            decreases size - id,
        {
            workers.push(Worker::new(id));
            id += 1;
        }
        let pool = ThreadPool {
            workers,
            queue: Vec::new(),
            open: true,
            joined: 0,
            accepted: Ghost(Seq::empty()),
            assigned: Ghost(Seq::empty()),
        };
        proof {
            lemma_initial_wf::<J>(size as nat);
            assert(pool@.workers =~= Seq::new(size as nat, |i: int| WorkerStatus::Idle));
            assert(pool@ == PoolView::<J>::initial(size as nat));
        }
        Ok(pool)
    }

    /// Queues `job` for the workers, unless shutdown has begun.
    pub fn execute(&mut self, job: J) -> (r: Result<(), PoolError>)
        requires
            old(self).inv(),
        ensures
            final(self).inv(),
            r == old(self)@.execute_result(),
            final(self)@ == old(self)@.after_execute(job),
    {
        if !self.open {
            return Err(PoolError::PoolClosed);
        }
        let ghost before = self@;
        self.accepted = Ghost(self.accepted@.push(job));
        self.queue.push(job);
        proof {
            lemma_step_wf(before, PoolEvent::Execute(job));
            assert(self@.workers =~= before.after_execute(job).workers);
        }
        Ok(())
    }

    /// Idle worker `id` asks for work: it receives the oldest queued job,
    /// is told to wait, or, once the queue is closed and empty, to exit.
    pub fn take(&mut self, id: usize) -> (d: Dispatch<J>)
        requires
            old(self).inv(),
            old(self)@.is_idle(id as nat),
        ensures
            final(self).inv(),
            d == old(self)@.dispatch(),
            final(self)@ == old(self)@.after_take(id as nat),
    {
        let ghost before = self@;
        proof {
            lemma_step_wf(before, PoolEvent::Take(id as nat));
        }
        if self.queue.len() > 0 {
            let job = self.queue.remove(0);
            self.workers.set(id, Worker { id, status: WorkerStatus::Busy });
            self.assigned = Ghost(self.assigned@.push(id as nat));
            proof {
                assert(self@.workers =~= before.after_take(id as nat).workers);
                assert(self@.queue =~= before.after_take(id as nat).queue);
            }
            Dispatch::Run(job)
        } else if self.open {
            Dispatch::Wait
        } else {
            self.workers.set(id, Worker { id, status: WorkerStatus::Exited });
            proof {
                assert(self@.workers =~= before.after_take(id as nat).workers);
            }
            Dispatch::Exit
        }
    }

    /// Busy worker `id` finished its job and waits for the next one.
    pub fn complete(&mut self, id: usize)
        requires
            old(self).inv(),
            old(self)@.is_busy(id as nat),
        ensures
            final(self).inv(),
            final(self)@ == old(self)@.after_complete(id as nat),
    {
        let ghost before = self@;
        self.workers.set(id, Worker { id, status: WorkerStatus::Idle });
        proof {
            lemma_step_wf(before, PoolEvent::Complete(id as nat));
            assert(self@.workers =~= before.after_complete(id as nat).workers);
        }
    }

    /// Busy worker `id` was brought down by its job. It is not replaced.
    pub fn crash(&mut self, id: usize)
        requires
            old(self).inv(),
            old(self)@.is_busy(id as nat),
        ensures
            final(self).inv(),
            final(self)@ == old(self)@.after_crash(id as nat),
    {
        let ghost before = self@;
        self.workers.set(id, Worker { id, status: WorkerStatus::Crashed });
        proof {
            lemma_step_wf(before, PoolEvent::Crash(id as nat));
            assert(self@.workers =~= before.after_crash(id as nat).workers);
        }
    }

    /// Advances the shutdown protocol. The first call closes the queue; later
    /// calls name, in construction order, the next worker to wait for.
    pub fn shutdown_step(&mut self) -> (s: ShutdownStep)
        requires
            old(self).inv(),
        ensures
            final(self).inv(),
            s == old(self)@.shutdown_step(),
            final(self)@ == old(self)@.after_shutdown_step(),
    {
        proof {
            lemma_step_wf(self@, PoolEvent::Shutdown);
        }
        if self.open {
            self.open = false;
            ShutdownStep::Close
        } else if self.joined < self.workers.len() {
            ShutdownStep::Join(self.joined)
        } else {
            ShutdownStep::Done
        }
    }

    /// Reports that the thread of worker `id`, the next in line, has ended
    /// and has been waited for.
    pub fn mark_joined(&mut self, id: usize)
        requires
            old(self).inv(),
            old(self)@.can_mark_joined(id as nat),
        ensures
            final(self).inv(),
            final(self)@ == old(self)@.after_joined(),
    {
        proof {
            lemma_step_wf(self@, PoolEvent::Joined(id as nat));
            assert(self@.workers.len() == self.workers.len());
        }
        self.joined = self.joined + 1;
    }

    /// The number of workers, fixed at construction.
    pub fn size(&self) -> (n: usize)
        requires
            self.inv(),
        ensures
            n == self@.size(),
    {
        self.workers.len()
    }

    /// The record of worker `id`.
    pub fn worker(&self, id: usize) -> (w: Worker)
        requires
            self.inv(),
            id < self@.size(),
        ensures
            w.id == id,
            w.status == self@.workers[id as int],
    {
        self.workers[id]
    }

    /// How many jobs wait in the queue.
    pub fn pending(&self) -> (n: usize)
        requires
            self.inv(),
        ensures
            n == self@.queue.len(),
    {
        self.queue.len()
    }

    /// Whether jobs are still accepted.
    pub fn is_open(&self) -> (b: bool)
        requires
            self.inv(),
        ensures
            b == self@.open,
    {
        self.open
    }
}

impl Worker {
    pub open spec fn new_spec(id: int) -> Worker {
        Worker { id: id as usize, status: WorkerStatus::Idle }
    }
}

} // verus!
