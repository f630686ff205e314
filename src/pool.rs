//! A fixed-size worker pool, as a state machine.
//!
//! The pool owns the queue of pending tasks and the state of each worker.
//! It decides what a worker does next: run a task, wait, or stop. Whoever
//! drives the workers (threads, a simulation) performs those decisions and
//! reports each finished task back through `complete`.
use vstd::prelude::*;

verus! {

/// Where the pool is in its lifecycle.
#[derive(PartialEq, Eq, Structural, Clone, Copy, Debug)]
pub enum Lifecycle {
    /// Tasks are accepted.
    Open,
    /// No more tasks are accepted; queued tasks are still handed out.
    Closing,
    /// Every worker has stopped.
    Closed,
}

/// What one worker is doing.
#[derive(PartialEq, Eq, Structural, Clone, Copy, Debug)]
pub enum WorkerState {
    /// Waiting for a task.
    Idle,
    /// Running the task with this ticket.
    Executing(u64),
    /// Saw the queue disconnected and left.
    Stopped,
}

/// How a task ended.
#[derive(PartialEq, Eq, Structural, Clone, Copy, Debug)]
pub enum Outcome {
    Completed,
    Failed,
}

/// Errors that the pool reports instead of panicking.
#[derive(PartialEq, Eq, Structural, Clone, Copy, Debug)]
pub enum PoolError {
    /// A pool needs at least one worker.
    ZeroWorkers,
    /// The pool no longer accepts tasks.
    NotAccepting,
}

/// The pool's decision for a worker that asks for work.
pub enum Dispatch<T> {
    /// Run the given task; the number is its ticket, given when it was queued.
    Run(u64, T),
    /// Nothing queued yet: block until something changes.
    Wait,
    /// The queue is drained and disconnected: leave.
    Stop,
}

/// Whether a worker in state `s` is running the task with ticket `t`.
pub open spec fn runs(s: WorkerState, t: u64) -> bool {
    s == WorkerState::Executing(t)
}

/// A pool of workers with ids `0..size` and a first-in, first-out queue of
/// tasks of type `T`. Each accepted task gets a ticket: its place in the
/// order of submission, counted from 0.
pub struct WorkerPool<T> {
    workers: Vec<WorkerState>,
    queue: Vec<(u64, T)>,
    submitted: u64,
    dispatched: u64,
    done: Vec<u64>,
    outcomes: Vec<Outcome>,
    lifecycle: Lifecycle,
    joined: usize,
}

impl<T> WorkerPool<T> {
    /// Number of workers.
    pub open spec fn size(&self) -> nat {
        self.worker_states().len()
    }

    /// The state of each worker, by id.
    pub closed spec fn worker_states(&self) -> Seq<WorkerState> {
        self.workers@
    }

    /// Tickets waiting in the queue, front first.
    pub closed spec fn queued(&self) -> Seq<u64> {
        self.queue@.map_values(|e: (u64, T)| e.0)
    }

    /// Payloads waiting in the queue, front first.
    pub closed spec fn queued_tasks(&self) -> Seq<T> {
        self.queue@.map_values(|e: (u64, T)| e.1)
    }

    /// Number of tasks accepted so far; tickets are `0..submitted`.
    pub closed spec fn submitted(&self) -> nat {
        self.submitted as nat
    }

    /// Number of tasks handed to workers so far.
    pub closed spec fn dispatched(&self) -> nat {
        self.dispatched as nat
    }

    /// Tickets of finished tasks, in the order they finished.
    pub closed spec fn finished(&self) -> Seq<u64> {
        self.done@
    }

    /// How each finished task ended, parallel to `finished`.
    pub closed spec fn outcomes(&self) -> Seq<Outcome> {
        self.outcomes@
    }

    /// Where the pool is in its lifecycle.
    pub closed spec fn lifecycle(&self) -> Lifecycle {
        self.lifecycle
    }

    /// Number of workers handed out for joining: those with ids below it.
    pub closed spec fn joined(&self) -> nat {
        self.joined as nat
    }

    /// Whether some worker is running the task with ticket `t`.
    pub open spec fn is_running(&self, t: u64) -> bool {
        exists|w: int| 0 <= w < self.size() && #[trigger] runs(self.worker_states()[w], t)
    }

    /// The pool's invariant. The queue holds the tickets after the
    /// dispatched ones, in order. Each dispatched ticket is either running
    /// on exactly one worker or finished, exactly once. Workers stop only
    /// once the pool is closing and the queue is empty, and a closed pool
    /// has only stopped workers.
    pub closed spec fn wf(&self) -> bool {
        &&& 0 < self.workers@.len() <= usize::MAX
        &&& self.dispatched <= self.submitted
        &&& self.queue@.len() == self.submitted - self.dispatched
        &&& forall|i: int| 0 <= i < self.queue@.len() ==> #[trigger] self.queue@[i].0 == self.dispatched + i
        &&& forall|w: int, t: u64|
            0 <= w < self.workers@.len() && #[trigger] runs(self.workers@[w], t) ==> t < self.dispatched
        &&& forall|v: int, w: int, t: u64|
            0 <= v < self.workers@.len() && 0 <= w < self.workers@.len()
                && #[trigger] runs(self.workers@[v], t) && #[trigger] runs(self.workers@[w], t) ==> v == w
        &&& self.done@.no_duplicates()
        &&& self.done@.len() == self.outcomes@.len()
        &&& forall|i: int| 0 <= i < self.done@.len() ==> #[trigger] self.done@[i] < self.dispatched
        &&& forall|i: int, w: int|
            0 <= i < self.done@.len() && 0 <= w < self.workers@.len()
                ==> !runs(#[trigger] self.workers@[w], #[trigger] self.done@[i])
        &&& forall|t: u64| t < self.dispatched ==> #[trigger] self.done@.contains(t) || self.is_running(t)
        &&& forall|w: int|
            0 <= w < self.workers@.len() && #[trigger] self.workers@[w] == WorkerState::Stopped
                ==> self.lifecycle != Lifecycle::Open && self.queue@.len() == 0
        &&& self.joined <= self.workers@.len()
        &&& self.lifecycle == Lifecycle::Open ==> self.joined == 0
        &&& self.lifecycle == Lifecycle::Closed ==> forall|w: int|
            0 <= w < self.workers@.len() ==> #[trigger] self.workers@[w] == WorkerState::Stopped
    }

    /// A pool of `size` idle workers, with ids `0..size`, and an empty queue.
    pub fn new(size: usize) -> (r: Self)
        requires
            size > 0,
        ensures
            r.wf(),
            r.size() == size,
            forall|w: int| 0 <= w < size ==> #[trigger] r.worker_states()[w] == WorkerState::Idle,
            r.queued().len() == 0,
            r.queued_tasks().len() == 0,
            r.submitted() == 0,
            r.dispatched() == 0,
            r.finished().len() == 0,
            r.lifecycle() == Lifecycle::Open,
            r.joined() == 0,
    {
        let mut workers: Vec<WorkerState> = Vec::with_capacity(size);
        let mut i: usize = 0;
        while i < size
            invariant
                i <= size,
                workers@.len() == i,
                forall|w: int| 0 <= w < i ==> #[trigger] workers@[w] == WorkerState::Idle,
            decreases size - i,
        {
            workers.push(WorkerState::Idle);
            i = i + 1;
        }
        WorkerPool {
            workers,
            queue: Vec::new(),
            submitted: 0,
            dispatched: 0,
            done: Vec::new(),
            outcomes: Vec::new(),
            lifecycle: Lifecycle::Open,
            joined: 0,
        }
    }

    /// The pool's state apart from the queue is unchanged.
    pub open spec fn same_except_queue_and_workers(pre: Self, post: Self) -> bool {
        &&& post.size() == pre.size()
        &&& post.submitted() == pre.submitted()
        &&& post.finished() == pre.finished()
        &&& post.outcomes() == pre.outcomes()
        &&& post.lifecycle() == pre.lifecycle()
        &&& post.joined() == pre.joined()
    }

    /// `post` is `pre` after the idle worker `w` asked for work and got `d`.
    pub open spec fn dispatches(pre: Self, post: Self, w: int, d: Dispatch<T>) -> bool {
        &&& Self::same_except_queue_and_workers(pre, post)
        &&& if pre.queued().len() > 0 {
            &&& d == Dispatch::Run(pre.queued()[0], pre.queued_tasks()[0])
            &&& post.worker_states() == pre.worker_states().update(w, WorkerState::Executing(pre.queued()[0]))
            &&& post.queued() == pre.queued().drop_first()
            &&& post.queued_tasks() == pre.queued_tasks().drop_first()
            &&& post.dispatched() == pre.dispatched() + 1
        } else if pre.lifecycle() == Lifecycle::Open {
            &&& d is Wait
            &&& post == pre
        } else {
            &&& d is Stop
            &&& post.worker_states() == pre.worker_states().update(w, WorkerState::Stopped)
            &&& post.queued() == pre.queued()
            &&& post.queued_tasks() == pre.queued_tasks()
            &&& post.dispatched() == pre.dispatched()
        }
    }

    /// `post` is `pre` after worker `w` finished its task with `outcome`.
    pub open spec fn completes(pre: Self, post: Self, w: int, outcome: Outcome) -> bool {
        let t = pre.worker_states()[w]->Executing_0;
        &&& post.size() == pre.size()
        &&& post.worker_states() == pre.worker_states().update(w, WorkerState::Idle)
        &&& post.queued() == pre.queued()
        &&& post.queued_tasks() == pre.queued_tasks()
        &&& post.submitted() == pre.submitted()
        &&& post.dispatched() == pre.dispatched()
        &&& post.finished() == pre.finished().push(t)
        &&& post.outcomes() == pre.outcomes().push(outcome)
        &&& post.lifecycle() == pre.lifecycle()
        &&& post.joined() == pre.joined()
    }

    /// Checks the size before building: zero workers is a configuration error.
    pub fn try_new(size: usize) -> (r: Result<Self, PoolError>)
        ensures
            size == 0 <==> r == Err::<Self, PoolError>(PoolError::ZeroWorkers),
            r matches Ok(p) ==> p.wf() && p.size() == size && p.lifecycle() == Lifecycle::Open
                && p.submitted() == 0 && p.finished().len() == 0
                && forall|w: int| 0 <= w < size ==> #[trigger] p.worker_states()[w] == WorkerState::Idle,
    {
        if size == 0 {
            Err(PoolError::ZeroWorkers)
        } else {
            Ok(Self::new(size))
        }
    }

    /// Queues `task` behind every task accepted before it and returns its
    /// ticket. Only an open pool accepts tasks.
    pub fn execute(&mut self, task: T) -> (r: Result<u64, PoolError>)
        requires
            old(self).wf(),
            old(self).submitted() < u64::MAX,
        ensures
            final(self).wf(),
            old(self).lifecycle() == Lifecycle::Open ==> {
                &&& r == Ok::<u64, PoolError>(old(self).submitted() as u64)
                &&& final(self).queued() == old(self).queued().push(old(self).submitted() as u64)
                &&& final(self).queued_tasks() == old(self).queued_tasks().push(task)
                &&& final(self).submitted() == old(self).submitted() + 1
                &&& final(self).worker_states() == old(self).worker_states()
                &&& final(self).dispatched() == old(self).dispatched()
                &&& final(self).finished() == old(self).finished()
                &&& final(self).outcomes() == old(self).outcomes()
                &&& final(self).lifecycle() == old(self).lifecycle()
                &&& final(self).joined() == old(self).joined()
            },
            old(self).lifecycle() != Lifecycle::Open ==> r == Err::<u64, PoolError>(PoolError::NotAccepting)
                && *final(self) == *old(self),
    {
        if self.lifecycle != Lifecycle::Open {
            return Err(PoolError::NotAccepting);
        }
        let ticket = self.submitted;
        let ghost pre = *self;
        self.queue.push((ticket, task));
        self.submitted = self.submitted + 1;
        proof {
            assert(self.queued() =~= pre.queued().push(ticket));
            assert(self.queued_tasks() =~= pre.queued_tasks().push(task));
            assert forall|i: int| 0 <= i < self.queue@.len() implies #[trigger] self.queue@[i].0 == self.dispatched + i by {
                if i < pre.queue@.len() {
                    assert(self.queue@[i] == pre.queue@[i]);
                }
            }
            assert forall|w: int| 0 <= w < self.workers@.len() implies
                #[trigger] self.workers@[w] != WorkerState::Stopped by {
                assert(pre.workers@[w] == self.workers@[w]);
            }
            assert forall|t: u64| t < self.dispatched implies #[trigger] self.done@.contains(t) || self.is_running(t) by {
                assert(pre.done@.contains(t) || pre.is_running(t));
                if pre.is_running(t) {
                    let v = choose|v: int| 0 <= v < pre.size() && #[trigger] runs(pre.worker_states()[v], t);
                    assert(runs(self.worker_states()[v], t));
                }
            }
        }
        Ok(ticket)
    }

    /// Answers the idle worker `w` that asks for work: the task at the front
    /// of the queue if there is one; otherwise wait while the pool is open,
    /// and stop once it is closing.
    pub fn receive(&mut self, w: usize) -> (d: Dispatch<T>)
        requires
            old(self).wf(),
            w < old(self).size(),
            old(self).worker_states()[w as int] == WorkerState::Idle,
        ensures
            final(self).wf(),
            Self::dispatches(*old(self), *final(self), w as int, d),
    {
        let ghost pre = *self;
        if self.queue.len() > 0 {
            let (ticket, task) = self.queue.remove(0);
            self.workers.set(w, WorkerState::Executing(ticket));
            self.dispatched = self.dispatched + 1;
            proof {
                assert(self.queued() =~= pre.queued().drop_first());
                assert(self.queued_tasks() =~= pre.queued_tasks().drop_first());
                assert forall|i: int| 0 <= i < self.queue@.len() implies #[trigger] self.queue@[i].0 == self.dispatched + i by {
                    assert(self.queue@[i] == pre.queue@[i + 1]);
                }
                assert forall|v: int, t: u64|
                    0 <= v < self.workers@.len() && #[trigger] runs(self.workers@[v], t) implies t < self.dispatched by {
                    if v != w {
                        assert(runs(pre.workers@[v], t));
                    }
                }
                assert forall|v: int, x: int, t: u64|
                    0 <= v < self.workers@.len() && 0 <= x < self.workers@.len()
                        && #[trigger] runs(self.workers@[v], t) && #[trigger] runs(self.workers@[x], t) implies v == x by {
                    if v != w {
                        assert(runs(pre.workers@[v], t));
                    }
                    if x != w {
                        assert(runs(pre.workers@[x], t));
                    }
                }
                assert forall|i: int, v: int|
                    0 <= i < self.done@.len() && 0 <= v < self.workers@.len()
                        implies !runs(#[trigger] self.workers@[v], #[trigger] self.done@[i]) by {
                    if v != w {
                        assert(!runs(pre.workers@[v], pre.done@[i]));
                    }
                }
                assert forall|t: u64| t < self.dispatched implies #[trigger] self.done@.contains(t) || self.is_running(t) by {
                    if t == ticket {
                        assert(runs(self.worker_states()[w as int], t));
                    } else if !self.done@.contains(t) {
                        assert(pre.done@.contains(t) || pre.is_running(t));
                        assert(pre.is_running(t));
                        let v = choose|v: int| 0 <= v < pre.size() && #[trigger] runs(pre.worker_states()[v], t);
                        assert(v != w);
                        assert(runs(self.worker_states()[v], t));
                    }
                }
                assert forall|v: int| 0 <= v < self.workers@.len() && #[trigger] self.workers@[v] == WorkerState::Stopped
                    implies self.lifecycle != Lifecycle::Open && self.queue@.len() == 0 by {
                    assert(pre.workers@[v] == WorkerState::Stopped);
                }
            }
            Dispatch::Run(ticket, task)
        } else if self.lifecycle == Lifecycle::Open {
            Dispatch::Wait
        } else {
            self.workers.set(w, WorkerState::Stopped);
            proof {
                assert forall|v: int, t: u64|
                    0 <= v < self.workers@.len() && #[trigger] runs(self.workers@[v], t) implies t < self.dispatched by {
                    assert(runs(pre.workers@[v], t));
                }
                assert forall|v: int, x: int, t: u64|
                    0 <= v < self.workers@.len() && 0 <= x < self.workers@.len()
                        && #[trigger] runs(self.workers@[v], t) && #[trigger] runs(self.workers@[x], t) implies v == x by {
                    assert(runs(pre.workers@[v], t));
                    assert(runs(pre.workers@[x], t));
                }
                assert forall|i: int, v: int|
                    0 <= i < self.done@.len() && 0 <= v < self.workers@.len()
                        implies !runs(#[trigger] self.workers@[v], #[trigger] self.done@[i]) by {
                    if v != w {
                        assert(!runs(pre.workers@[v], pre.done@[i]));
                    }
                }
                assert forall|t: u64| t < self.dispatched implies #[trigger] self.done@.contains(t) || self.is_running(t) by {
                    if !self.done@.contains(t) {
                        assert(pre.done@.contains(t) || pre.is_running(t));
                        assert(pre.is_running(t));
                        let v = choose|v: int| 0 <= v < pre.size() && #[trigger] runs(pre.worker_states()[v], t);
                        assert(v != w);
                        assert(runs(self.worker_states()[v], t));
                    }
                }
                assert forall|v: int| 0 <= v < self.workers@.len() && #[trigger] self.workers@[v] == WorkerState::Stopped
                    implies self.lifecycle != Lifecycle::Open && self.queue@.len() == 0 by {
                    if v != w {
                        assert(pre.workers@[v] == WorkerState::Stopped);
                    }
                }
                assert(self.queued() =~= pre.queued());
                assert(self.queued_tasks() =~= pre.queued_tasks());
            }
            Dispatch::Stop
        }
    }

    /// Records that worker `w` finished its task with `outcome` and returns
    /// the task's ticket. The worker goes back to waiting whatever the
    /// outcome: a failed task is reported, never fatal.
    pub fn complete(&mut self, w: usize, outcome: Outcome) -> (t: u64)
        requires
            old(self).wf(),
            w < old(self).size(),
            old(self).worker_states()[w as int] is Executing,
        ensures
            final(self).wf(),
            t == old(self).worker_states()[w as int]->Executing_0,
            Self::completes(*old(self), *final(self), w as int, outcome),
    {
        let ghost pre = *self;
        let t = match self.workers[w] {
            WorkerState::Executing(t) => t,
            _ => 0,
        };
        assert(runs(pre.workers@[w as int], t));
        self.workers.set(w, WorkerState::Idle);
        self.done.push(t);
        self.outcomes.push(outcome);
        proof {
            assert(!pre.done@.contains(t)) by {
                if pre.done@.contains(t) {
                    let i = choose|i: int| 0 <= i < pre.done@.len() && pre.done@[i] == t;
                    assert(!runs(pre.workers@[w as int], pre.done@[i]));
                }
            }
            assert forall|i: int, j: int| 0 <= i < self.done@.len() && 0 <= j < self.done@.len() && i != j
                implies self.done@[i] != self.done@[j] by {
                if i < pre.done@.len() && j < pre.done@.len() {
                    assert(pre.done@[i] != pre.done@[j]);
                } else if i < pre.done@.len() {
                    assert(pre.done@.contains(pre.done@[i]));
                } else if j < pre.done@.len() {
                    assert(pre.done@.contains(pre.done@[j]));
                }
            }
            assert forall|i: int| 0 <= i < self.done@.len() implies #[trigger] self.done@[i] < self.dispatched by {
                if i < pre.done@.len() {
                    assert(self.done@[i] == pre.done@[i]);
                }
            }
            assert forall|v: int, x: u64|
                0 <= v < self.workers@.len() && #[trigger] runs(self.workers@[v], x) implies x < self.dispatched by {
                assert(runs(pre.workers@[v], x));
            }
            assert forall|v: int, u: int, x: u64|
                0 <= v < self.workers@.len() && 0 <= u < self.workers@.len()
                    && #[trigger] runs(self.workers@[v], x) && #[trigger] runs(self.workers@[u], x) implies v == u by {
                assert(runs(pre.workers@[v], x));
                assert(runs(pre.workers@[u], x));
            }
            assert forall|i: int, v: int|
                0 <= i < self.done@.len() && 0 <= v < self.workers@.len()
                    implies !runs(#[trigger] self.workers@[v], #[trigger] self.done@[i]) by {
                if v != w {
                    if i < pre.done@.len() {
                        assert(self.done@[i] == pre.done@[i]);
                        assert(!runs(pre.workers@[v], pre.done@[i]));
                    } else {
                        assert(self.done@[i] == t);
                        if runs(pre.workers@[v], t) {
                            assert(runs(pre.workers@[w as int], t));
                        }
                    }
                }
            }
            assert forall|x: u64| x < self.dispatched implies #[trigger] self.done@.contains(x) || self.is_running(x) by {
                assert(pre.done@.contains(x) || pre.is_running(x));
                if x == t {
                    assert(self.done@[self.done@.len() - 1] == t);
                } else if pre.done@.contains(x) {
                    let i = choose|i: int| 0 <= i < pre.done@.len() && pre.done@[i] == x;
                    assert(self.done@[i] == x);
                } else {
                    let v = choose|v: int| 0 <= v < pre.size() && #[trigger] runs(pre.worker_states()[v], x);
                    assert(v != w);
                    assert(runs(self.worker_states()[v], x));
                }
            }
            assert forall|v: int| 0 <= v < self.workers@.len() && #[trigger] self.workers@[v] == WorkerState::Stopped
                implies self.lifecycle != Lifecycle::Open && self.queue@.len() == 0 by {
                assert(pre.workers@[v] == WorkerState::Stopped);
            }
        }
        t
    }

    /// Stops accepting tasks. Tasks already queued are still handed out;
    /// workers stop once the queue is drained. Closing twice changes nothing.
    pub fn shutdown(&mut self)
        requires
            old(self).wf(),
        ensures
            final(self).wf(),
            final(self).lifecycle() == if old(self).lifecycle() == Lifecycle::Open {
                Lifecycle::Closing
            } else {
                old(self).lifecycle()
            },
            final(self).worker_states() == old(self).worker_states(),
            final(self).queued() == old(self).queued(),
            final(self).queued_tasks() == old(self).queued_tasks(),
            final(self).submitted() == old(self).submitted(),
            final(self).dispatched() == old(self).dispatched(),
            final(self).finished() == old(self).finished(),
            final(self).outcomes() == old(self).outcomes(),
            final(self).joined() == old(self).joined(),
    {
        let ghost pre = *self;
        if self.lifecycle == Lifecycle::Open {
            self.lifecycle = Lifecycle::Closing;
        }
        proof {
            assert forall|t: u64| t < self.dispatched implies #[trigger] self.done@.contains(t) || self.is_running(t) by {
                assert(pre.done@.contains(t) || pre.is_running(t));
                if pre.is_running(t) {
                    let v = choose|v: int| 0 <= v < pre.size() && #[trigger] runs(pre.worker_states()[v], t);
                    assert(runs(self.worker_states()[v], t));
                }
            }
        }
    }

    /// Completes a shutdown: once every worker has stopped, the pool is
    /// closed and `true` is returned; otherwise nothing changes.
    pub fn finish(&mut self) -> (r: bool)
        requires
            old(self).wf(),
        ensures
            final(self).wf(),
            r == forall|w: int| 0 <= w < old(self).size() ==> #[trigger] old(self).worker_states()[w] == WorkerState::Stopped,
            r ==> final(self).lifecycle() == Lifecycle::Closed,
            !r ==> *final(self) == *old(self),
            final(self).worker_states() == old(self).worker_states(),
            final(self).queued() == old(self).queued(),
            final(self).queued_tasks() == old(self).queued_tasks(),
            final(self).submitted() == old(self).submitted(),
            final(self).dispatched() == old(self).dispatched(),
            final(self).finished() == old(self).finished(),
            final(self).outcomes() == old(self).outcomes(),
            final(self).joined() == old(self).joined(),
    {
        let mut i: usize = 0;
        while i < self.workers.len()
            invariant
                self.wf(),
                *self == *old(self),
                i <= self.workers@.len(),
                forall|w: int| 0 <= w < i ==> #[trigger] self.workers@[w] == WorkerState::Stopped,
            decreases self.workers@.len() - i,
        {
            if self.workers[i] != WorkerState::Stopped {
                return false;
            }
            i = i + 1;
        }
        let ghost pre = *self;
        assert(self.workers@[0] == WorkerState::Stopped);
        self.lifecycle = Lifecycle::Closed;
        proof {
            assert forall|t: u64| t < self.dispatched implies #[trigger] self.done@.contains(t) || self.is_running(t) by {
                assert(pre.done@.contains(t) || pre.is_running(t));
                if pre.is_running(t) {
                    let v = choose|v: int| 0 <= v < pre.size() && #[trigger] runs(pre.worker_states()[v], t);
                    assert(runs(pre.workers@[v], t));
                }
            }
        }
        true
    }

    /// The next worker to join during shutdown: ids come out in ascending
    /// order, each once, and only once shutdown has begun; `None` while
    /// the pool is open or after every worker has been handed out.
    pub fn next_join(&mut self) -> (r: Option<usize>)
        requires
            old(self).wf(),
        ensures
            final(self).wf(),
            old(self).lifecycle() != Lifecycle::Open && old(self).joined() < old(self).size() ==> r == Some(
                old(self).joined() as usize,
            ) && final(self).joined() == old(self).joined() + 1,
            old(self).lifecycle() == Lifecycle::Open || old(self).joined() == old(self).size() ==> r is None
                && final(self).joined() == old(self).joined(),
            final(self).worker_states() == old(self).worker_states(),
            final(self).queued() == old(self).queued(),
            final(self).queued_tasks() == old(self).queued_tasks(),
            final(self).submitted() == old(self).submitted(),
            final(self).dispatched() == old(self).dispatched(),
            final(self).finished() == old(self).finished(),
            final(self).outcomes() == old(self).outcomes(),
            final(self).lifecycle() == old(self).lifecycle(),
    {
        if self.lifecycle == Lifecycle::Open || self.joined == self.workers.len() {
            return None;
        }
        let w = self.joined;
        let ghost pre = *self;
        self.joined = self.joined + 1;
        proof {
            assert forall|t: u64| t < self.dispatched implies #[trigger] self.done@.contains(t) || self.is_running(t) by {
                assert(pre.done@.contains(t) || pre.is_running(t));
                if pre.is_running(t) {
                    let v = choose|v: int| 0 <= v < pre.size() && #[trigger] runs(pre.worker_states()[v], t);
                    assert(runs(self.worker_states()[v], t));
                }
            }
        }
        Some(w)
    }

    /// Number of workers.
    pub fn worker_count(&self) -> (r: usize)
        ensures
            r == self.size(),
    {
        self.workers.len()
    }

    /// The workers' identities, in order: `0, 1, ..., size - 1`.
    pub fn worker_ids(&self) -> (r: Vec<usize>)
        ensures
            r@ == Self::ids(self.size()),
    {
        let n = self.workers.len();
        let mut r: Vec<usize> = Vec::new();
        let mut i: usize = 0;
        while i < n
            invariant
                n == self.workers@.len(),
                i <= n,
                r@ == Self::ids(i as nat),
            decreases n - i,
        {
            r.push(i);
            assert(r@ =~= Self::ids((i + 1) as nat));
            i = i + 1;
        }
        r
    }

    /// `0, 1, ..., n - 1`.
    pub open spec fn ids(n: nat) -> Seq<usize> {
        Seq::new(n, |i: int| i as usize)
    }

    /// The state of worker `w`.
    pub fn worker_state(&self, w: usize) -> (r: WorkerState)
        requires
            w < self.size(),
        ensures
            r == self.worker_states()[w as int],
    {
        self.workers[w]
    }

    /// Where the pool is in its lifecycle.
    pub fn state(&self) -> (r: Lifecycle)
        ensures
            r == self.lifecycle(),
    {
        self.lifecycle
    }

    /// Number of tasks accepted so far.
    pub fn submitted_count(&self) -> (r: u64)
        ensures
            r == self.submitted(),
    {
        self.submitted
    }

    /// Number of tasks waiting in the queue.
    pub fn pending_count(&self) -> (r: usize)
        ensures
            r == self.queued().len(),
    {
        self.queue.len()
    }

    /// Tickets of the finished tasks, in the order they finished.
    pub fn finished_tickets(&self) -> (r: &Vec<u64>)
        ensures
            r@ == self.finished(),
    {
        &self.done
    }

    /// How each finished task ended, parallel to `finished_tickets`.
    pub fn finished_outcomes(&self) -> (r: &Vec<Outcome>)
        ensures
            r@ == self.outcomes(),
    {
        &self.outcomes
    }

    /// A pool of `n` workers has exactly `n` distinct identities, `0..n`.
    pub proof fn lemma_worker_ids_distinct(p: Self)
        requires
            p.wf(),
        ensures
            Self::ids(p.size()).len() == p.size(),
            Self::ids(p.size()).no_duplicates(),
            forall|id: usize| Self::ids(p.size()).contains(id) <==> id < p.size(),
    {
        let s = Self::ids(p.size());
        assert forall|id: usize| id < p.size() implies s.contains(id) by {
            assert(s[id as int] == id);
        }
    }

    /// At every moment, each accepted task is in exactly one place: still
    /// queued, running on exactly one worker, or finished exactly once.
    pub proof fn lemma_each_task_in_one_place(p: Self, t: u64)
        requires
            p.wf(),
            t < p.submitted(),
        ensures
            p.queued().contains(t) <==> t >= p.dispatched(),
            p.queued().contains(t) ==> !p.is_running(t) && !p.finished().contains(t),
            p.is_running(t) ==> !p.finished().contains(t),
            p.queued().contains(t) || p.is_running(t) || p.finished().contains(t),
            forall|v: int, w: int|
                0 <= v < p.size() && 0 <= w < p.size() && #[trigger] runs(p.worker_states()[v], t)
                    && #[trigger] runs(p.worker_states()[w], t) ==> v == w,
            forall|i: int, j: int|
                0 <= i < p.finished().len() && 0 <= j < p.finished().len() && p.finished()[i] == t
                    && p.finished()[j] == t ==> i == j,
    {
        if t >= p.dispatched {
            let i = t - p.dispatched;
            assert(p.queue@[i as int].0 == t);
            assert(p.queued()[i as int] == t);
        }
        if p.queued().contains(t) {
            let i = choose|i: int| 0 <= i < p.queued().len() && p.queued()[i] == t;
            assert(p.queue@[i].0 == p.dispatched + i);
        }
        if p.is_running(t) {
            let w = choose|w: int| 0 <= w < p.size() && #[trigger] runs(p.worker_states()[w], t);
            if p.finished().contains(t) {
                let i = choose|i: int| 0 <= i < p.done@.len() && p.done@[i] == t;
                assert(!runs(p.workers@[w], p.done@[i]));
            }
        }
        if t < p.dispatched {
            assert(p.done@.contains(t) || p.is_running(t));
        }
    }

    /// Once closed, the pool ran every accepted task exactly once: nothing
    /// is left in the queue, every ticket was finished, none twice, and
    /// nothing else was.
    pub proof fn lemma_closed_pool_ran_each_task_once(p: Self)
        requires
            p.wf(),
            p.lifecycle() == Lifecycle::Closed,
        ensures
            p.queued().len() == 0,
            p.dispatched() == p.submitted(),
            forall|t: u64| t < p.submitted() ==> #[trigger] p.finished().contains(t),
            p.finished().no_duplicates(),
            forall|i: int| 0 <= i < p.finished().len() ==> #[trigger] p.finished()[i] < p.submitted(),
    {
        assert(p.workers@[0] == WorkerState::Stopped);
        assert forall|t: u64| t < p.submitted() implies #[trigger] p.finished().contains(t) by {
            assert(p.done@.contains(t) || p.is_running(t));
            if p.is_running(t) {
                let w = choose|w: int| 0 <= w < p.size() && #[trigger] runs(p.worker_states()[w], t);
                assert(p.workers@[w] == WorkerState::Stopped);
            }
        }
    }

    /// Once closed, every worker has stopped and none is in the middle of a
    /// task.
    pub proof fn lemma_closed_pool_has_no_running_worker(p: Self)
        requires
            p.wf(),
            p.lifecycle() == Lifecycle::Closed,
        ensures
            forall|w: int| 0 <= w < p.size() ==> #[trigger] p.worker_states()[w] == WorkerState::Stopped,
            forall|t: u64| !p.is_running(t),
    {
        assert forall|t: u64| !p.is_running(t) by {
            if p.is_running(t) {
                let w = choose|w: int| 0 <= w < p.size() && #[trigger] runs(p.worker_states()[w], t);
                assert(p.workers@[w] == WorkerState::Stopped);
            }
        }
    }

    /// How a task ended does not change what the pool does next: finishing
    /// with a failure leaves the workers, the queue and the lifecycle exactly
    /// as finishing with success does.
    pub proof fn lemma_outcome_does_not_affect_pool(p: Self, failed: Self, succeeded: Self, w: int)
        requires
            p.wf(),
            0 <= w < p.size(),
            p.worker_states()[w] is Executing,
            Self::completes(p, failed, w, Outcome::Failed),
            Self::completes(p, succeeded, w, Outcome::Completed),
        ensures
            failed.worker_states() == succeeded.worker_states(),
            failed.queued() == succeeded.queued(),
            failed.queued_tasks() == succeeded.queued_tasks(),
            failed.lifecycle() == succeeded.lifecycle(),
            failed.finished() == succeeded.finished(),
            failed.worker_states()[w] == WorkerState::Idle,
    {
    }

    /// A worker whose task failed keeps serving: when it asks again, it gets
    /// the next queued task.
    pub proof fn lemma_failed_task_keeps_worker(p: Self, q: Self, r: Self, w: int, d: Dispatch<T>)
        requires
            p.wf(),
            0 <= w < p.size(),
            p.worker_states()[w] is Executing,
            p.queued().len() > 0,
            Self::completes(p, q, w, Outcome::Failed),
            Self::dispatches(q, r, w, d),
        ensures
            q.worker_states()[w] == WorkerState::Idle,
            d == Dispatch::Run(p.queued()[0], p.queued_tasks()[0]),
            r.worker_states()[w] == WorkerState::Executing(p.queued()[0]),
    {
    }
}

} // verus!
