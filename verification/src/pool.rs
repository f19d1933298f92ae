//! Worker pool model: the per-thread attach/detach lifecycle and the recorded
//! event log that every worker thread must respect.
//!
//! Each worker walks the state machine
//! `Created -> Attaching -> Attached -> Running -> Detaching -> Terminated`
//! (or `Attaching -> Failed` when its start hook fails), and the pool records
//! an event for each attach, task execution and detach. Well-formedness
//! ([`Pool::wf`]) ties the log to the worker states: no worker has an event
//! before its attachment completed, every recorded task execution strictly
//! follows its worker's attach event, and none follows its worker's detach
//! event.

use vstd::prelude::*;

verus! {

/// Lifecycle state of one worker thread.
#[derive(Clone, Copy, Debug, PartialEq, Eq, Structural)]
pub enum WorkerState {
    /// Spawned, but its start hook has not begun.
    Created,
    /// Start hook running: attachment to the host VM is in progress.
    Attaching,
    /// Attached with the captured loader installed; no task has run yet.
    Attached,
    /// Attached, and at least one task has executed on it.
    Running,
    /// Stop hook running: the thread is detaching from the VM.
    Detaching,
    /// Detached and retired.
    Terminated,
    /// Its start hook failed; the thread must never execute a task.
    Failed,
}

/// Kind of a recorded lifecycle event.
#[derive(Clone, Copy, Debug, PartialEq, Eq, Structural)]
pub enum EventKind {
    Attach,
    TaskExecuted,
    Detach,
}

/// One recorded lifecycle event of a worker thread.
#[derive(Clone, Copy, Debug, PartialEq, Eq, Structural)]
pub struct Event {
    /// Index of the worker the event belongs to.
    pub worker: usize,
    pub kind: EventKind,
}

/// One worker thread of the pool.
#[derive(Clone, Copy, Debug, PartialEq, Eq)]
pub struct Worker {
    pub state: WorkerState,
    /// Context class loader installed on the thread, if it attached.
    pub context_loader: Option<u64>,
    /// Position of this worker's attach event in the pool log, once attached.
    pub attached_at: Option<usize>,
}

/// The worker's start hook completed: it attached and installed the loader.
pub open spec fn has_started(s: WorkerState) -> bool {
    ||| s == WorkerState::Attached
    ||| s == WorkerState::Running
    ||| s == WorkerState::Detaching
    ||| s == WorkerState::Terminated
}

/// The worker is attached and may still execute tasks.
pub open spec fn is_live(s: WorkerState) -> bool {
    s == WorkerState::Attached || s == WorkerState::Running
}

/// Number of events of the given kind in a log.
pub open spec fn count_kind(log: Seq<Event>, kind: EventKind) -> nat
    decreases log.len(),
{
    if log.len() == 0 {
        0
    } else {
        count_kind(log.drop_last(), kind) + (if log.last().kind == kind {
            1nat
        } else {
            0nat
        })
    }
}

/// A fresh worker: not yet attached, holding nothing.
pub open spec fn fresh_worker() -> Worker {
    Worker { state: WorkerState::Created, context_loader: None, attached_at: None }
}

/// The worker-thread pool: the captured loader every worker installs, the
/// per-worker lifecycle states, and the recorded event log (oldest first).
pub struct Pool {
    /// The captured class-loader reference the pool was constructed with.
    pub loader: u64,
    pub workers: Vec<Worker>,
    /// Recorded lifecycle events, oldest first.
    pub log: Vec<Event>,
}

impl Pool {
    /// Every event names a worker of the pool whose start hook succeeded.
    pub open spec fn events_name_started_workers(&self) -> bool {
        forall|k: int|
            0 <= k < self.log@.len() ==> (#[trigger] self.log@[k]).worker < self.workers@.len()
                && has_started(self.workers@[self.log@[k].worker as int].state)
    }

    /// A started worker holds the captured loader and remembers where its
    /// attach event stands in the log; an unstarted one holds nothing.
    pub open spec fn workers_hold_loader(&self) -> bool {
        forall|i: int|
            0 <= i < self.workers@.len() ==> if has_started(
                (#[trigger] self.workers@[i]).state,
            ) {
                self.workers@[i].context_loader == Some(self.loader)
                    && self.workers@[i].attached_at is Some
                    && self.workers@[i].attached_at->0 < self.log@.len()
            } else {
                self.workers@[i].context_loader == None::<u64> && self.workers@[i].attached_at
                    == None::<usize>
            }
    }

    /// What a started worker's `attached_at` points at: its own attach event.
    /// The trigger is the indexing term itself, so this clause only ever
    /// rewrites terms a proof already mentions.
    pub open spec fn attach_marks_are_attach_events(&self) -> bool {
        forall|i: int|
            #![trigger self.log@[self.workers@[i].attached_at->0 as int]]
            0 <= i < self.workers@.len() && has_started(self.workers@[i].state)
                ==> self.log@[self.workers@[i].attached_at->0 as int].worker as int == i
                && self.log@[self.workers@[i].attached_at->0 as int].kind == EventKind::Attach
    }

    /// Every recorded task execution strictly follows its worker's attach
    /// event, and a detach event is recorded only once its worker is
    /// detaching or gone.
    pub open spec fn events_follow_lifecycle(&self) -> bool {
        &&& forall|k: int|
            0 <= k < self.log@.len() && (#[trigger] self.log@[k]).kind == EventKind::TaskExecuted
                ==> self.workers@[self.log@[k].worker as int].attached_at->0 < k
        &&& forall|k: int|
            0 <= k < self.log@.len() && (#[trigger] self.log@[k]).kind == EventKind::Detach
                ==> self.workers@[self.log@[k].worker as int].state == WorkerState::Detaching
                || self.workers@[self.log@[k].worker as int].state == WorkerState::Terminated
    }

    /// No recorded task execution follows a detach of the same worker.
    pub open spec fn no_task_after_detach(&self) -> bool {
        forall|j: int, k: int|
            0 <= j < k < self.log@.len() && (#[trigger] self.log@[j]).kind == EventKind::Detach
                && (#[trigger] self.log@[k]).kind == EventKind::TaskExecuted
                ==> self.log@[j].worker != self.log@[k].worker
    }

    /// Well-formedness: the event log and the worker states agree.
    pub open spec fn wf(&self) -> bool {
        &&& self.events_name_started_workers()
        &&& self.workers_hold_loader()
        &&& self.attach_marks_are_attach_events()
        &&& self.events_follow_lifecycle()
        &&& self.no_task_after_detach()
    }

    /// Build a pool of `threads` fresh workers around the captured loader.
    pub(crate) fn new(loader: u64, threads: usize) -> (p: Pool)
        ensures
            p.wf(),
            p.loader == loader,
            p.workers@.len() == threads,
            forall|i: int| 0 <= i < threads ==> p.workers@[i] == fresh_worker(),
            p.log@.len() == 0,
    {
        let mut workers: Vec<Worker> = Vec::new();
        let mut n: usize = 0;
        while n < threads
            invariant
                n <= threads,
                workers@.len() == n,
                forall|i: int| 0 <= i < n ==> workers@[i] == fresh_worker(),
            decreases threads - n,
        {
            workers.push(Worker { state: WorkerState::Created, context_loader: None, attached_at: None });
            n = n + 1;
        }
        Pool { loader, workers, log: Vec::new() }
    }

    /// Start hook entered: worker `i` begins attaching to the VM.
    pub fn begin_attach(&mut self, i: usize)
        requires
            old(self).wf(),
            i < old(self).workers@.len(),
            old(self).workers@[i as int].state == WorkerState::Created,
        ensures
            final(self).wf(),
            final(self).loader == old(self).loader,
            final(self).log@ == old(self).log@,
            final(self).workers@ == old(self).workers@.update(
                i as int,
                (Worker {
                    state: WorkerState::Attaching,
                    context_loader: None::<u64>,
                    attached_at: None::<usize>,
                }),
            ),
    {
        self.workers[i] = Worker {
            state: WorkerState::Attaching,
            context_loader: None,
            attached_at: None,
        };
    }

    /// Start hook outcome for worker `i`: on success the thread is attached
    /// with the captured loader installed as its context loader and the attach
    /// event is recorded; on failure the thread is marked failed and must
    /// never execute a task.
    pub fn finish_attach(&mut self, i: usize, attached: bool)
        requires
            old(self).wf(),
            i < old(self).workers@.len(),
            old(self).workers@[i as int].state == WorkerState::Attaching,
        ensures
            final(self).wf(),
            final(self).loader == old(self).loader,
            attached ==> final(self).workers@ == old(self).workers@.update(
                i as int,
                (Worker {
                    state: WorkerState::Attached,
                    context_loader: Some(old(self).loader),
                    attached_at: Some(old(self).log@.len() as usize),
                }),
            ) && final(self).log@ == old(self).log@.push(
                (Event { worker: i, kind: EventKind::Attach }),
            ),
            !attached ==> final(self).workers@ == old(self).workers@.update(
                i as int,
                (Worker {
                    state: WorkerState::Failed,
                    context_loader: None::<u64>,
                    attached_at: None::<usize>,
                }),
            ) && final(self).log@ == old(self).log@,
    {
        if attached {
            let loader = self.loader;
            let at = self.log.len();
            self.workers[i] = Worker {
                state: WorkerState::Attached,
                context_loader: Some(loader),
                attached_at: Some(at),
            };
            self.log.push(Event { worker: i, kind: EventKind::Attach });
        } else {
            self.workers[i] = Worker {
                state: WorkerState::Failed,
                context_loader: None,
                attached_at: None,
            };
        }
    }

    /// A submitted task body runs on worker `i`, which must be attached.
    pub fn run_task(&mut self, i: usize)
        requires
            old(self).wf(),
            i < old(self).workers@.len(),
            is_live(old(self).workers@[i as int].state),
        ensures
            final(self).wf(),
            final(self).loader == old(self).loader,
            final(self).workers@ == old(self).workers@.update(
                i as int,
                (Worker {
                    state: WorkerState::Running,
                    context_loader: old(self).workers@[i as int].context_loader,
                    attached_at: old(self).workers@[i as int].attached_at,
                }),
            ),
            final(self).log@ == old(self).log@.push(
                (Event { worker: i, kind: EventKind::TaskExecuted }),
            ),
    {
        let w = self.workers[i];
        self.workers[i] = Worker {
            state: WorkerState::Running,
            context_loader: w.context_loader,
            attached_at: w.attached_at,
        };
        self.log.push(Event { worker: i, kind: EventKind::TaskExecuted });
    }

    /// Stop hook entered: worker `i` detaches from the VM after its last task;
    /// the detach event is recorded.
    pub fn begin_detach(&mut self, i: usize)
        requires
            old(self).wf(),
            i < old(self).workers@.len(),
            is_live(old(self).workers@[i as int].state),
        ensures
            final(self).wf(),
            final(self).loader == old(self).loader,
            final(self).workers@ == old(self).workers@.update(
                i as int,
                (Worker {
                    state: WorkerState::Detaching,
                    context_loader: old(self).workers@[i as int].context_loader,
                    attached_at: old(self).workers@[i as int].attached_at,
                }),
            ),
            final(self).log@ == old(self).log@.push(
                (Event { worker: i, kind: EventKind::Detach }),
            ),
    {
        let w = self.workers[i];
        self.workers[i] = Worker {
            state: WorkerState::Detaching,
            context_loader: w.context_loader,
            attached_at: w.attached_at,
        };
        self.log.push(Event { worker: i, kind: EventKind::Detach });
    }

    /// Stop hook completed: the detached worker retires.
    pub fn finish_stop(&mut self, i: usize)
        requires
            old(self).wf(),
            i < old(self).workers@.len(),
            old(self).workers@[i as int].state == WorkerState::Detaching,
        ensures
            final(self).wf(),
            final(self).loader == old(self).loader,
            final(self).log@ == old(self).log@,
            final(self).workers@ == old(self).workers@.update(
                i as int,
                (Worker {
                    state: WorkerState::Terminated,
                    context_loader: old(self).workers@[i as int].context_loader,
                    attached_at: old(self).workers@[i as int].attached_at,
                }),
            ),
    {
        let w = self.workers[i];
        self.workers[i] = Worker {
            state: WorkerState::Terminated,
            context_loader: w.context_loader,
            attached_at: w.attached_at,
        };
    }

    /// Number of workers the pool was built with.
    pub fn worker_count(&self) -> (n: usize)
        ensures
            n == self.workers@.len(),
    {
        self.workers.len()
    }

    /// Count the recorded events of one kind.
    pub fn count_events(&self, kind: EventKind) -> (n: usize)
        ensures
            n == count_kind(self.log@, kind),
    {
        let mut n: usize = 0;
        let mut k: usize = 0;
        while k < self.log.len()
            invariant
                k <= self.log@.len(),
                n == count_kind(self.log@.take(k as int), kind),
                n <= k,
            decreases self.log@.len() - k,
        {
            proof {
                assert(self.log@.take(k as int + 1).drop_last() =~= self.log@.take(k as int));
                assert(self.log@.take(k as int + 1).last() == self.log@[k as int]);
            }
            if self.log[k].kind == kind {
                n = n + 1;
            }
            k = k + 1;
        }
        proof {
            assert(self.log@.take(self.log@.len() as int) =~= self.log@);
        }
        n
    }

    /// Law: every recorded task execution is strictly preceded by its
    /// worker's attach event.
    #[verifier::rlimit(50)]
    pub proof fn lemma_attach_precedes_task(&self)
        requires
            self.wf(),
        ensures
            forall|k: int|
                0 <= k < self.log@.len() && (#[trigger] self.log@[k]).kind
                    == EventKind::TaskExecuted ==> exists|j: int|
                    0 <= j < k && (#[trigger] self.log@[j]).worker == self.log@[k].worker
                        && self.log@[j].kind == EventKind::Attach,
    {
        assert forall|k: int|
            0 <= k < self.log@.len() && (#[trigger] self.log@[k]).kind
                == EventKind::TaskExecuted implies exists|j: int|
            0 <= j < k && (#[trigger] self.log@[j]).worker == self.log@[k].worker
                && self.log@[j].kind == EventKind::Attach by {
            let w = self.log@[k].worker as int;
            let a = self.workers@[w].attached_at->0 as int;
            assert(0 <= a < k && self.log@[a].worker == self.log@[k].worker
                && self.log@[a].kind == EventKind::Attach);
        }
    }

    /// Law: no task execution is recorded after a worker's detach event; the
    /// detach strictly follows the last task executed on that worker.
    pub proof fn lemma_detach_follows_tasks(&self)
        requires
            self.wf(),
        ensures
            forall|j: int, k: int|
                0 <= j < k < self.log@.len() && (#[trigger] self.log@[j]).kind == EventKind::Detach
                    && (#[trigger] self.log@[k]).kind == EventKind::TaskExecuted
                    ==> self.log@[j].worker != self.log@[k].worker,
    {
    }

    /// Law: a worker whose start hook failed has no recorded event at all —
    /// in particular it never executed a task.
    pub proof fn lemma_failed_worker_runs_nothing(&self)
        requires
            self.wf(),
        ensures
            forall|k: int|
                0 <= k < self.log@.len()
                    ==> self.workers@[(#[trigger] self.log@[k]).worker as int].state
                    != WorkerState::Failed,
    {
    }

    /// Law: every worker that attached installed the pool's captured loader —
    /// the first captured reference — as its context class loader.
    pub proof fn lemma_workers_use_captured_loader(&self)
        requires
            self.wf(),
        ensures
            forall|i: int|
                0 <= i < self.workers@.len() && has_started(
                    (#[trigger] self.workers@[i]).state,
                ) ==> self.workers@[i].context_loader == Some(self.loader),
    {
    }
}

} // verus!
