//! The worker pool's dispatch discipline, as a verified state machine.
//!
//! The running pool hands each accepted connection, wrapped as a job, to a
//! fixed set of long-lived workers over one shared FIFO queue.  The threads
//! and the channel themselves are plain runtime plumbing; what is worth
//! proving is the discipline they must follow, and that is modelled here:
//! jobs are numbered in submission order, each worker is idle, executing
//! exactly one job, or terminated, and every transition of the pool is one
//! of the five operations below.  The well-formedness invariant says that
//! every job ever accepted sits in exactly one place - still pending, on
//! exactly one worker, or completed - so no job is lost, duplicated, or
//! abandoned mid-flight.

use vstd::prelude::*;

verus! {

/// One worker's place in its loop.
#[derive(Copy, Clone, PartialEq, Eq, Structural, Debug)]
pub enum WorkerState {
    /// Blocked on the queue, ready to take a job.
    Idle,
    /// Running the job with this number.
    Executing(u64),
    /// Exited for good: the queue reported itself closed and drained.
    Terminated,
}

/// How many workers of `ws` are executing some job.
pub open spec fn spec_executing_count(ws: Seq<WorkerState>) -> nat
    decreases ws.len(),
{
    if ws.len() == 0 {
        0
    } else {
        spec_executing_count(ws.drop_last()) + if ws.last() is Executing {
            1nat
        } else {
            0nat
        }
    }
}

/// How many workers of `ws` are executing precisely job `j`.
pub open spec fn spec_exec_count(ws: Seq<WorkerState>, j: u64) -> nat
    decreases ws.len(),
{
    if ws.len() == 0 {
        0
    } else {
        spec_exec_count(ws.drop_last(), j) + if ws.last() == WorkerState::Executing(j) {
            1nat
        } else {
            0nat
        }
    }
}

/// How many entries of `s` equal `j`.
pub open spec fn spec_count(s: Seq<u64>, j: u64) -> nat
    decreases s.len(),
{
    if s.len() == 0 {
        0
    } else {
        spec_count(s.drop_last(), j) + if s.last() == j {
            1nat
        } else {
            0nat
        }
    }
}

/// The dispatch state of a pool.  Jobs carry no payload here: the model
/// tracks each one by the number it was issued at submission, which is all
/// the dispatch discipline can see of it.
pub struct WorkerPool {
    /// One entry per worker; the pool's size never changes.
    pub workers: Vec<WorkerState>,
    /// Jobs accepted and not yet taken by any worker, oldest first.
    pub pending: Vec<u64>,
    /// How many jobs have been accepted; numbers below this are issued.
    pub submitted: u64,
    /// Jobs whose execution has finished, in order of completion.
    pub completed: Vec<u64>,
    /// False once shutdown has begun; a closed queue accepts no job.
    pub accepting: bool,
}

impl WorkerPool {
    /// Every accepted job is in exactly one place: pending, on exactly one
    /// worker, or completed; unissued numbers are nowhere; and a worker
    /// only ever terminates once the queue is closed and drained.
    pub open spec fn wf(self) -> bool {
        &&& self.workers@.len() >= 1
        &&& forall|j: u64|
            j < self.submitted ==> spec_count(self.pending@, j) + spec_exec_count(
                self.workers@,
                j,
            ) + spec_count(self.completed@, j) == 1
        &&& forall|j: u64|
            j >= self.submitted ==> spec_count(self.pending@, j) + spec_exec_count(
                self.workers@,
                j,
            ) + spec_count(self.completed@, j) == 0
        &&& (exists|w: int| 0 <= w < self.workers@.len() && self.workers@[w] is Terminated) ==> (
        !self.accepting && self.pending@.len() == 0)
    }

    /// Construct a pool of `size` idle workers with an empty queue.
    /// A pool of no workers could never run a job, so that size is a
    /// caller error and is excluded outright.
    pub fn new(size: usize) -> (p: WorkerPool)
        requires
            size >= 1,
        ensures
            p.wf(),
            p.workers@.len() == size,
            forall|w: int| 0 <= w < size ==> p.workers@[w] == WorkerState::Idle,
            p.pending@.len() == 0,
            p.submitted == 0,
            p.completed@.len() == 0,
            p.accepting,
    {
        let mut workers: Vec<WorkerState> = Vec::new();
        let mut i: usize = 0;
        while i < size
            invariant
                i <= size,
                workers@.len() == i,
                forall|w: int| 0 <= w < i ==> workers@[w] == WorkerState::Idle,
            decreases size - i,
        {
            workers.push(WorkerState::Idle);
            i = i + 1;
        }
        let p = WorkerPool {
            workers,
            pending: Vec::new(),
            submitted: 0,
            completed: Vec::new(),
            accepting: true,
        };
        proof {
            lemma_no_executing_no_exec_count(p.workers@);
            assert forall|j: u64| true implies spec_count(p.pending@, j) == 0 by {}
        }
        p
    }

    /// Accept one job: enqueue it and hand its number back.  Submission
    /// after shutdown has begun is a caller error - the queue is closed -
    /// so it is excluded here, and the caller must fail loudly instead.
    pub fn execute(&mut self) -> (job: u64)
        requires
            old(self).wf(),
            old(self).accepting,
            old(self).submitted < u64::MAX,
        ensures
            final(self).wf(),
            job == old(self).submitted,
            final(self).submitted == old(self).submitted + 1,
            final(self).pending@ == old(self).pending@.push(job),
            final(self).workers@ == old(self).workers@,
            final(self).completed@ == old(self).completed@,
            final(self).accepting,
    {
        let job = self.submitted;
        self.pending.push(job);
        self.submitted = self.submitted + 1;
        proof {
            assert forall|j: u64| true implies spec_count(self.pending@, j) == spec_count(
                old(self).pending@,
                j,
            ) + if j == job {
                1nat
            } else {
                0nat
            } by {
                lemma_count_push(old(self).pending@, job, j);
            }
        }
        job
    }

    /// One idle worker takes the oldest pending job: delivery is FIFO, and
    /// a job is delivered to exactly one worker.
    pub fn take_job(&mut self, w: usize) -> (job: u64)
        requires
            old(self).wf(),
            w < old(self).workers@.len(),
            old(self).workers@[w as int] is Idle,
            old(self).pending@.len() > 0,
        ensures
            final(self).wf(),
            job == old(self).pending@[0],
            final(self).workers@ == old(self).workers@.update(
                w as int,
                WorkerState::Executing(job),
            ),
            final(self).pending@ == old(self).pending@.drop_first(),
            final(self).submitted == old(self).submitted,
            final(self).completed@ == old(self).completed@,
            final(self).accepting == old(self).accepting,
    {
        let job = self.pending.remove(0);
        self.workers[w] = WorkerState::Executing(job);
        proof {
            assert(old(self).pending@.remove(0) =~= old(self).pending@.drop_first());
            assert forall|j: u64| true implies spec_count(self.pending@, j) + if j == job {
                1nat
            } else {
                0nat
            } == spec_count(old(self).pending@, j) by {
                lemma_count_drop_first(old(self).pending@, j);
            }
            assert forall|j: u64| true implies spec_exec_count(self.workers@, j) == spec_exec_count(
                old(self).workers@,
                j,
            ) + if j == job {
                1nat
            } else {
                0nat
            } by {
                lemma_exec_count_update(
                    old(self).workers@,
                    w as int,
                    WorkerState::Executing(job),
                    j,
                );
            }
            assert(!(exists|v: int|
                0 <= v < old(self).workers@.len() && old(self).workers@[v] is Terminated));
            assert forall|v: int|
                0 <= v < self.workers@.len() && self.workers@[v] is Terminated implies false by {
                assert(old(self).workers@[v] is Terminated);
            }
        }
        job
    }

    /// The worker running a job finishes it and goes back to waiting on
    /// the queue; the job is recorded completed.  Whether the job's own
    /// work succeeded is the job's business, never the pool's.
    pub fn finish_job(&mut self, w: usize) -> (job: u64)
        requires
            old(self).wf(),
            w < old(self).workers@.len(),
            old(self).workers@[w as int] is Executing,
        ensures
            final(self).wf(),
            old(self).workers@[w as int] == WorkerState::Executing(job),
            final(self).workers@ == old(self).workers@.update(w as int, WorkerState::Idle),
            final(self).completed@ == old(self).completed@.push(job),
            final(self).pending@ == old(self).pending@,
            final(self).submitted == old(self).submitted,
            final(self).accepting == old(self).accepting,
    {
        let job = match self.workers[w] {
            WorkerState::Executing(j) => j,
            _ => 0,
        };
        self.workers[w] = WorkerState::Idle;
        self.completed.push(job);
        proof {
            assert forall|j: u64| true implies spec_exec_count(old(self).workers@, j) == if j
                == job {
                1nat
            } else {
                0nat
            } + spec_exec_count(self.workers@, j) by {
                lemma_exec_count_update(old(self).workers@, w as int, WorkerState::Idle, j);
                if j == job {
                    lemma_exec_count_witness(old(self).workers@, w as int, job);
                    assert(spec_count(old(self).pending@, job) + spec_exec_count(
                        old(self).workers@,
                        job,
                    ) + spec_count(old(self).completed@, job) == 1);
                }
            }
            assert forall|j: u64| true implies spec_count(self.completed@, j) == spec_count(
                old(self).completed@,
                j,
            ) + if j == job {
                1nat
            } else {
                0nat
            } by {
                lemma_count_push(old(self).completed@, job, j);
            }
            assert forall|v: int|
                0 <= v < self.workers@.len() && self.workers@[v] is Terminated implies 0 <= v
                < old(self).workers@.len() && old(self).workers@[v] is Terminated by {}
        }
        job
    }

    /// Begin shutdown: close the queue.  No further job will be accepted;
    /// pending and executing jobs are left to drain.
    pub fn begin_shutdown(&mut self)
        requires
            old(self).wf(),
        ensures
            final(self).wf(),
            !final(self).accepting,
            final(self).workers@ == old(self).workers@,
            final(self).pending@ == old(self).pending@,
            final(self).submitted == old(self).submitted,
            final(self).completed@ == old(self).completed@,
    {
        self.accepting = false;
    }

    /// An idle worker observes the queue closed and drained, and exits its
    /// loop for good.
    pub fn retire_worker(&mut self, w: usize)
        requires
            old(self).wf(),
            w < old(self).workers@.len(),
            old(self).workers@[w as int] is Idle,
            !old(self).accepting,
            old(self).pending@.len() == 0,
        ensures
            final(self).wf(),
            final(self).workers@ == old(self).workers@.update(w as int, WorkerState::Terminated),
            final(self).pending@ == old(self).pending@,
            final(self).submitted == old(self).submitted,
            final(self).completed@ == old(self).completed@,
            final(self).accepting == old(self).accepting,
    {
        self.workers[w] = WorkerState::Terminated;
        proof {
            assert forall|j: u64| true implies spec_exec_count(self.workers@, j) == spec_exec_count(
                old(self).workers@,
                j,
            ) by {
                lemma_exec_count_update(old(self).workers@, w as int, WorkerState::Terminated, j);
            }
        }
    }
}

/// The shutdown discipline of the pool's destructor, run to the end:
/// close the queue, run every job already accepted to completion, and let
/// each worker observe the drained queue and exit.  Afterwards every
/// worker has terminated and every job the pool ever accepted has
/// completed: a graceful drain, never a cancellation.
pub fn shutdown_and_drain(p: &mut WorkerPool)
    requires
        old(p).wf(),
    ensures
        final(p).wf(),
        final(p).submitted == old(p).submitted,
        final(p).workers@.len() == old(p).workers@.len(),
        forall|w: int| 0 <= w < final(p).workers@.len() ==> final(p).workers@[w] is Terminated,
        forall|j: u64| j < old(p).submitted ==> final(p).completed@.contains(j),
{
    p.begin_shutdown();
    let n = p.workers.len();
    let mut w: usize = 0;
    while w < n
        invariant
            p.wf(),
            n == p.workers@.len(),
            w <= n,
            !p.accepting,
            p.submitted == old(p).submitted,
            forall|v: int| 0 <= v < w ==> !(p.workers@[v] is Executing),
        decreases n - w,
    {
        let state = p.workers[w];
        match state {
            WorkerState::Executing(_) => {
                let _finished = p.finish_job(w);
            },
            _ => {},
        }
        w = w + 1;
    }
    while p.pending.len() > 0
        invariant
            p.wf(),
            n == p.workers@.len(),
            !p.accepting,
            p.submitted == old(p).submitted,
            forall|v: int| 0 <= v < n ==> !(p.workers@[v] is Executing),
        decreases p.pending@.len(),
    {
        proof {
            assert(!(exists|v: int| 0 <= v < n && p.workers@[v] is Terminated));
            assert(p.workers@[0] is Idle);
        }
        let _taken = p.take_job(0);
        let _finished = p.finish_job(0);
    }
    let mut r: usize = 0;
    while r < n
        invariant
            p.wf(),
            n == p.workers@.len(),
            r <= n,
            !p.accepting,
            p.pending@.len() == 0,
            p.submitted == old(p).submitted,
            forall|v: int| 0 <= v < n ==> !(p.workers@[v] is Executing),
            forall|v: int| 0 <= v < r ==> p.workers@[v] is Terminated,
        decreases n - r,
    {
        let state = p.workers[r];
        match state {
            WorkerState::Idle => {
                p.retire_worker(r);
            },
            _ => {},
        }
        r = r + 1;
    }
    proof {
        lemma_graceful_drain(*p);
    }
}

proof fn lemma_count_push(s: Seq<u64>, x: u64, j: u64)
    ensures
        spec_count(s.push(x), j) == spec_count(s, j) + if x == j {
            1nat
        } else {
            0nat
        },
{
    assert(s.push(x).drop_last() =~= s);
    assert(s.push(x).last() == x);
}

proof fn lemma_count_drop_first(s: Seq<u64>, j: u64)
    requires
        s.len() > 0,
    ensures
        spec_count(s, j) == spec_count(s.drop_first(), j) + if s[0] == j {
            1nat
        } else {
            0nat
        },
    decreases s.len(),
{
    if s.len() == 1 {
        assert(s.drop_first() =~= Seq::<u64>::empty());
        assert(s.drop_last() =~= Seq::<u64>::empty());
        assert(s.last() == s[0]);
    } else {
        lemma_count_drop_first(s.drop_last(), j);
        assert(s.drop_last().drop_first() =~= s.drop_first().drop_last());
        assert(s.drop_last()[0] == s[0]);
        assert(s.drop_first().last() == s.last());
    }
}

proof fn lemma_exec_count_update(ws: Seq<WorkerState>, w: int, v: WorkerState, j: u64)
    requires
        0 <= w < ws.len(),
    ensures
        spec_exec_count(ws.update(w, v), j) + (if ws[w] == WorkerState::Executing(j) {
            1nat
        } else {
            0nat
        }) == spec_exec_count(ws, j) + (if v == WorkerState::Executing(j) {
            1nat
        } else {
            0nat
        }),
    decreases ws.len(),
{
    if w == ws.len() - 1 {
        assert(ws.update(w, v).drop_last() =~= ws.drop_last());
        assert(ws.update(w, v).last() == v);
    } else {
        lemma_exec_count_update(ws.drop_last(), w, v, j);
        assert(ws.update(w, v).drop_last() =~= ws.drop_last().update(w, v));
        assert(ws.update(w, v).last() == ws.last());
    }
}

proof fn lemma_exec_count_witness(ws: Seq<WorkerState>, w: int, j: u64)
    requires
        0 <= w < ws.len(),
        ws[w] == WorkerState::Executing(j),
    ensures
        spec_exec_count(ws, j) >= 1,
    decreases ws.len(),
{
    if w == ws.len() - 1 {
    } else {
        lemma_exec_count_witness(ws.drop_last(), w, j);
    }
}

proof fn lemma_no_executing_no_exec_count(ws: Seq<WorkerState>)
    requires
        forall|w: int| 0 <= w < ws.len() ==> !(ws[w] is Executing),
    ensures
        forall|j: u64| spec_exec_count(ws, j) == 0,
    decreases ws.len(),
{
    if ws.len() > 0 {
        assert forall|w: int| 0 <= w < ws.drop_last().len() implies !(ws.drop_last()[w]
            is Executing) by {
            assert(ws.drop_last()[w] == ws[w]);
        }
        lemma_no_executing_no_exec_count(ws.drop_last());
        assert forall|j: u64| true implies spec_exec_count(ws, j) == 0 by {
            assert(!(ws[ws.len() - 1] is Executing));
            assert(ws.last() != WorkerState::Executing(j));
            assert(spec_exec_count(ws, j) == spec_exec_count(ws.drop_last(), j) + if ws.last()
                == WorkerState::Executing(j) {
                1nat
            } else {
                0nat
            });
            assert(spec_exec_count(ws.drop_last(), j) == 0);
        }
    }
}

/// A positive count exhibits a position.
proof fn lemma_count_position(s: Seq<u64>, j: u64)
    requires
        spec_count(s, j) >= 1,
    ensures
        exists|i: int| 0 <= i < s.len() && s[i] == j,
    decreases s.len(),
{
    if s.last() == j {
        assert(s[s.len() - 1] == j);
    } else {
        lemma_count_position(s.drop_last(), j);
        let i = choose|i: int| 0 <= i < s.drop_last().len() && s.drop_last()[i] == j;
        assert(s[i] == j);
    }
}

/// No more workers are ever running jobs than the pool has workers: the
/// pool bounds concurrent work by its fixed size, whatever the load.
pub proof fn lemma_occupancy_bounded(ws: Seq<WorkerState>)
    ensures
        spec_executing_count(ws) <= ws.len(),
    decreases ws.len(),
{
    if ws.len() > 0 {
        lemma_occupancy_bounded(ws.drop_last());
    }
}

proof fn lemma_all_executing(ws: Seq<WorkerState>)
    requires
        spec_executing_count(ws) == ws.len(),
    ensures
        forall|w: int| 0 <= w < ws.len() ==> ws[w] is Executing,
    decreases ws.len(),
{
    if ws.len() > 0 {
        lemma_occupancy_bounded(ws.drop_last());
        lemma_all_executing(ws.drop_last());
        assert forall|w: int| 0 <= w < ws.len() implies ws[w] is Executing by {
            if w < ws.len() - 1 {
                assert(ws.drop_last()[w] == ws[w]);
            } else {
                assert(ws.last() is Executing);
            }
        }
    }
}

/// Once as many jobs are executing as the pool has workers, no worker is
/// idle, so the next pending job can be taken by nobody: it stays queued,
/// observably delayed, until some worker finishes its current job.
pub proof fn lemma_saturated_pool_delays(p: WorkerPool)
    requires
        p.wf(),
        spec_executing_count(p.workers@) == p.workers@.len(),
    ensures
        forall|w: int| 0 <= w < p.workers@.len() ==> !(p.workers@[w] is Idle),
{
    lemma_all_executing(p.workers@);
}

/// Whether the pool can accept one more job.
pub open spec fn spec_submit_enabled(p: WorkerPool) -> bool {
    p.accepting && p.submitted < u64::MAX
}

/// Once shutdown has begun the queue is closed: submission is no longer
/// enabled, and since every operation of the pool keeps `accepting` false
/// once it is false, no job submitted after shutdown begins is accepted.
pub proof fn lemma_closed_queue_accepts_nothing(p: WorkerPool)
    requires
        !p.accepting,
    ensures
        !spec_submit_enabled(p),
{
}

/// A worker only ever terminates after shutdown began and the queue
/// drained; from then on the closed queue accepts nothing further.
pub proof fn lemma_termination_after_drain(p: WorkerPool, w: int)
    requires
        p.wf(),
        0 <= w < p.workers@.len(),
        p.workers@[w] is Terminated,
    ensures
        !p.accepting,
        p.pending@.len() == 0,
{
}

/// Bounded concurrency, for every pool size: submitting exactly as many
/// jobs as the pool has workers occupies all of them, and one job more
/// finds no idle worker - it stays pending until some worker finishes.
pub fn saturate_pool(size: usize) -> (p: WorkerPool)
    requires
        1 <= size < usize::MAX,
    ensures
        p.wf(),
        p.workers@.len() == size,
        forall|w: int| 0 <= w < size ==> p.workers@[w] is Executing,
        forall|w: int| 0 <= w < size ==> !(p.workers@[w] is Idle),
        p.pending@ == seq![size as u64],
{
    let mut p = WorkerPool::new(size);
    let mut w: usize = 0;
    while w < size
        invariant
            p.wf(),
            w <= size,
            p.workers@.len() == size,
            p.submitted as int == w as int,
            p.pending@.len() == 0,
            p.accepting,
            forall|v: int| 0 <= v < w ==> p.workers@[v] is Executing,
            forall|v: int| w <= v < size ==> p.workers@[v] is Idle,
        decreases size - w,
    {
        let _job = p.execute();
        let _taken = p.take_job(w);
        w = w + 1;
    }
    let extra = p.execute();
    proof {
        assert forall|v: int| 0 <= v < size implies !(p.workers@[v] is Idle) by {
            assert(p.workers@[v] is Executing);
        }
        assert(extra == size as u64);
        assert(p.pending@ =~= seq![size as u64]);
    }
    p
}

/// Graceful shutdown: when every worker has terminated, every job the
/// pool ever accepted has run to completion - none was dropped while
/// pending and none abandoned mid-execution.
pub proof fn lemma_graceful_drain(p: WorkerPool)
    requires
        p.wf(),
        forall|w: int| 0 <= w < p.workers@.len() ==> p.workers@[w] is Terminated,
    ensures
        forall|j: u64| j < p.submitted ==> p.completed@.contains(j),
{
    assert forall|j: u64| j < p.submitted implies p.completed@.contains(j) by {
        assert(p.workers@[0] is Terminated);
        lemma_no_executing_no_exec_count(p.workers@);
        assert(spec_count(p.pending@, j) + spec_exec_count(p.workers@, j) + spec_count(
            p.completed@,
            j,
        ) == 1);
        lemma_count_position(p.completed@, j);
    }
}

} // verus!
