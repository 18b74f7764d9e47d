//! Scheduling core of a fixed-size worker pool.
//!
//! A pool owns a fixed number of workers, identified by `0..size`, and a queue
//! of submitted jobs.  Jobs are identified by the order in which they were
//! submitted (`0, 1, 2, ...`).  An idle worker that asks for work receives the
//! oldest job that no worker has taken yet; when there is none it waits while
//! the pool still accepts jobs, and it stops once the pool has been closed and
//! the queue has drained.  Closing the pool therefore never drops a job that
//! was submitted before it.
//!
//! The threads, the blocking and the job closures themselves live with the
//! caller; this module decides, for every request of a worker, what it does.

use vstd::prelude::*;

verus! {

/// What a worker is doing.
#[derive(PartialEq, Eq, Structural, Clone, Copy, Debug)]
pub enum WorkerState {
    /// Waiting for a job.
    Idle,
    /// Running the job with the given identifier.
    Busy(u64),
    /// Left its loop for good.
    Stopped,
}

/// The decision handed to a worker that asked for work.
#[derive(PartialEq, Eq, Structural, Clone, Copy, Debug)]
pub enum WorkerAction {
    /// Run the job with the given identifier.
    Run(u64),
    /// Nothing to do yet: block until a job is submitted or the pool closes.
    Wait,
    /// The pool is closed and every job has been handed out: leave the loop.
    Exit,
}

/// Abstract state of a pool.
pub struct PoolModel {
    /// The state of each worker, indexed by worker id.
    pub workers: Seq<WorkerState>,
    /// Number of jobs submitted so far; the next job gets this identifier.
    pub submitted: nat,
    /// Number of jobs handed to workers so far (jobs `0..dispatched`).
    pub dispatched: nat,
    /// Number of jobs whose worker reported them done.
    pub finished: nat,
    /// Whether the pool still accepts jobs.
    pub open: bool,
}

/// Number of workers that are running a job.
pub open spec fn busy_count(ws: Seq<WorkerState>) -> nat
    decreases ws.len(),
{
    if ws.len() == 0 {
        0
    } else {
        busy_count(ws.drop_last()) + (if ws.last() is Busy { 1nat } else { 0nat })
    }
}

/// Whether every worker has stopped.
pub open spec fn all_stopped(ws: Seq<WorkerState>) -> bool {
    forall|i: int| 0 <= i < ws.len() ==> #[trigger] ws[i] is Stopped
}

impl PoolModel {
    /// The invariant that every reachable pool state satisfies.
    pub open spec fn wf(self) -> bool {
        &&& 0 < self.workers.len() <= usize::MAX
        &&& self.finished <= self.dispatched <= self.submitted <= u64::MAX
        // a running job has been handed out
        &&& forall|i: int|
            0 <= i < self.workers.len() && #[trigger] self.workers[i] is Busy ==> self.workers[i]->0
                < self.dispatched
        // no job is handed to two workers
        &&& forall|i: int, k: int|
            0 <= i < self.workers.len() && 0 <= k < self.workers.len() && i != k
                && #[trigger] self.workers[i] is Busy && #[trigger] self.workers[k] is Busy
                ==> self.workers[i]->0 != self.workers[k]->0
        // a worker only stops once the pool is closed and drained
        &&& forall|i: int|
            0 <= i < self.workers.len() && #[trigger] self.workers[i] is Stopped ==> !self.open
                && self.dispatched == self.submitted
        // every job handed out is either finished or running on some worker
        &&& self.finished + busy_count(self.workers) == self.dispatched
    }

    /// Jobs submitted and not yet handed to a worker.
    pub open spec fn pending(self) -> nat {
        (self.submitted - self.dispatched) as nat
    }
}

/// A request made of a pool, by its owner or by one of its workers.
pub enum PoolOp {
    /// The owner submits a job.
    Submit,
    /// Idle worker `id` asks for work.
    Ask(usize),
    /// Worker `id` reports its job done.
    Finish(usize),
    /// The owner closes the pool.
    Close,
}

/// Whether `op` may be made of a pool in state `m`: jobs are submitted while
/// the pool is open, a worker asks for work only when idle, and reports a job
/// done only while running one.
pub open spec fn enabled(m: PoolModel, op: PoolOp) -> bool {
    match op {
        PoolOp::Submit => m.open && m.submitted < u64::MAX,
        PoolOp::Ask(id) => id < m.workers.len() && m.workers[id as int] is Idle,
        PoolOp::Finish(id) => id < m.workers.len() && m.workers[id as int] is Busy,
        PoolOp::Close => true,
    }
}

/// The state of a pool after `op`.
pub open spec fn apply(m: PoolModel, op: PoolOp) -> PoolModel {
    match op {
        PoolOp::Submit => PoolModel { submitted: m.submitted + 1, ..m },
        PoolOp::Ask(id) => if m.dispatched < m.submitted {
            PoolModel {
                workers: m.workers.update(id as int, WorkerState::Busy(m.dispatched as u64)),
                dispatched: m.dispatched + 1,
                ..m
            }
        } else if m.open {
            m
        } else {
            PoolModel { workers: m.workers.update(id as int, WorkerState::Stopped), ..m }
        },
        PoolOp::Finish(id) => PoolModel {
            workers: m.workers.update(id as int, WorkerState::Idle),
            finished: m.finished + 1,
            ..m
        },
        PoolOp::Close => PoolModel { open: false, ..m },
    }
}

/// Whether every request of `ops`, made in turn from state `m`, is enabled.
pub open spec fn runnable(m: PoolModel, ops: Seq<PoolOp>) -> bool
    decreases ops.len(),
{
    ops.len() == 0 || (enabled(m, ops[0]) && runnable(apply(m, ops[0]), ops.drop_first()))
}

/// The state of a pool after the requests `ops`, made in turn from state `m`.
pub open spec fn run(m: PoolModel, ops: Seq<PoolOp>) -> PoolModel
    decreases ops.len(),
{
    if ops.len() == 0 {
        m
    } else {
        run(apply(m, ops[0]), ops.drop_first())
    }
}

/// The jobs handed to workers, in order, while the requests `ops` are made in
/// turn from state `m`.
pub open spec fn started(m: PoolModel, ops: Seq<PoolOp>) -> Seq<nat>
    decreases ops.len(),
{
    if ops.len() == 0 {
        Seq::empty()
    } else {
        let first = match ops[0] {
            PoolOp::Ask(_) => if m.dispatched < m.submitted {
                seq![m.dispatched]
            } else {
                Seq::empty()
            },
            _ => Seq::empty(),
        };
        first + started(apply(m, ops[0]), ops.drop_first())
    }
}

/// Worker `id` serving `k` jobs one after the other: it asks for work, runs
/// what it gets, reports it done, and so on.
pub open spec fn serve(id: usize, k: nat) -> Seq<PoolOp>
    decreases k,
{
    if k == 0 {
        Seq::empty()
    } else {
        seq![PoolOp::Ask(id), PoolOp::Finish(id)] + serve(id, (k - 1) as nat)
    }
}

/// Every enabled request keeps the invariant and the number of workers.
pub proof fn lemma_apply_keeps_wf(m: PoolModel, op: PoolOp)
    requires
        m.wf(),
        enabled(m, op),
    ensures
        apply(m, op).wf(),
        apply(m, op).workers.len() == m.workers.len(),
{
    match op {
        PoolOp::Ask(id) => {
            if m.dispatched < m.submitted {
                lemma_busy_count_update(m.workers, id as int, WorkerState::Busy(m.dispatched as u64));
            } else if !m.open {
                lemma_busy_count_update(m.workers, id as int, WorkerState::Stopped);
            }
        },
        PoolOp::Finish(id) => {
            lemma_busy_count_update(m.workers, id as int, WorkerState::Idle);
        },
        _ => {},
    }
}

/// Whatever requests are made of a pool, its invariant holds throughout and
/// it keeps exactly the workers it was created with: no request adds one.
pub proof fn lemma_run_keeps_wf(m: PoolModel, ops: Seq<PoolOp>)
    requires
        m.wf(),
        runnable(m, ops),
    ensures
        run(m, ops).wf(),
        run(m, ops).workers.len() == m.workers.len(),
    decreases ops.len(),
{
    if ops.len() > 0 {
        lemma_apply_keeps_wf(m, ops[0]);
        lemma_run_keeps_wf(apply(m, ops[0]), ops.drop_first());
    }
}

/// First in, first out: over any run, the jobs handed to workers are the
/// jobs waiting at its start, in the order they were submitted, each once,
/// followed by the jobs submitted during the run, in order.
pub proof fn lemma_run_starts_jobs_in_order(m: PoolModel, ops: Seq<PoolOp>)
    requires
        m.wf(),
        runnable(m, ops),
    ensures
        m.dispatched <= run(m, ops).dispatched,
        started(m, ops) == Seq::new(
            (run(m, ops).dispatched - m.dispatched) as nat,
            |i: int| (m.dispatched + i) as nat,
        ),
    decreases ops.len(),
{
    if ops.len() > 0 {
        let m1 = apply(m, ops[0]);
        lemma_apply_keeps_wf(m, ops[0]);
        lemma_run_starts_jobs_in_order(m1, ops.drop_first());
        assert(started(m, ops) =~= Seq::new(
            (run(m, ops).dispatched - m.dispatched) as nat,
            |i: int| (m.dispatched + i) as nat,
        ));
    }
}

/// Progress: one idle worker that keeps asking for work and finishing its
/// jobs runs every job waiting in the queue, each exactly once, one at a time
/// and in submission order, and ends idle again with the queue empty; this
/// holds whatever the other workers are doing, even if they are stuck in
/// their jobs forever, and their states are left untouched.
pub proof fn lemma_one_worker_drains_queue(m: PoolModel, id: usize)
    requires
        m.wf(),
        id < m.workers.len(),
        m.workers[id as int] is Idle,
    ensures
        runnable(m, serve(id, m.pending())),
        run(m, serve(id, m.pending())) == (PoolModel {
            dispatched: m.submitted,
            finished: m.finished + m.pending(),
            ..m
        }),
        started(m, serve(id, m.pending())) == Seq::new(
            m.pending(),
            |i: int| (m.dispatched + i) as nat,
        ),
    decreases m.pending(),
{
    let k = m.pending();
    if k > 0 {
        let ops = serve(id, k);
        let m1 = apply(m, PoolOp::Ask(id));
        let m2 = apply(m1, PoolOp::Finish(id));
        lemma_apply_keeps_wf(m, PoolOp::Ask(id));
        lemma_apply_keeps_wf(m1, PoolOp::Finish(id));
        assert(m2.workers =~= m.workers);
        assert(m2 == (PoolModel { dispatched: m.dispatched + 1, finished: m.finished + 1, ..m }));
        assert(m2.pending() == k - 1);
        lemma_one_worker_drains_queue(m2, id);
        let rest = serve(id, (k - 1) as nat);
        let ops1 = ops.drop_first();
        assert(ops =~= seq![PoolOp::Ask(id), PoolOp::Finish(id)] + rest);
        assert(ops1.drop_first() =~= rest);
        assert(ops[0] == PoolOp::Ask(id));
        assert(ops1[0] == PoolOp::Finish(id));
        assert(runnable(m1, ops1));
        assert(runnable(m, ops));
        assert(run(m1, ops1) == run(m2, rest));
        assert(run(m, ops) == run(m2, rest));
        let tail = started(m2, rest);
        assert(started(m1, ops1) =~= tail);
        assert(started(m, ops) =~= seq![m.dispatched] + tail);
        assert(started(m, ops) =~= Seq::new(k, |i: int| (m.dispatched + i) as nat));
    }
}

/// While other workers run jobs (or are stuck in them), an idle worker that
/// asks for work gets the oldest waiting job and leaves the others as they are.
pub proof fn lemma_idle_worker_serves_while_others_busy(m: PoolModel, id: usize)
    requires
        m.wf(),
        id < m.workers.len(),
        m.workers[id as int] is Idle,
        m.pending() > 0,
    ensures
        enabled(m, PoolOp::Ask(id)),
        apply(m, PoolOp::Ask(id)).workers[id as int] == WorkerState::Busy(m.dispatched as u64),
        forall|i: int|
            0 <= i < m.workers.len() && i != id ==> #[trigger] apply(m, PoolOp::Ask(id)).workers[i]
                == m.workers[i],
        started(m, seq![PoolOp::Ask(id)]) == seq![m.dispatched],
{
    assert(seq![PoolOp::Ask(id)].drop_first() =~= Seq::<PoolOp>::empty());
    assert(started(apply(m, PoolOp::Ask(id)), seq![PoolOp::Ask(id)].drop_first()).len() == 0);
    assert(started(m, seq![PoolOp::Ask(id)]) =~= seq![m.dispatched]);
}

/// Requests made one after the other: running `a` then `b` is running `a + b`.
pub proof fn lemma_run_concat(m: PoolModel, a: Seq<PoolOp>, b: Seq<PoolOp>)
    ensures
        runnable(m, a + b) == (runnable(m, a) && runnable(run(m, a), b)),
        run(m, a + b) == run(run(m, a), b),
    decreases a.len(),
{
    if a.len() > 0 {
        assert((a + b)[0] == a[0]);
        assert((a + b).drop_first() =~= a.drop_first() + b);
        lemma_run_concat(apply(m, a[0]), a.drop_first(), b);
    } else {
        assert(a + b =~= b);
    }
}

/// Every worker from `i` on that runs a job reports it done, in order of id.
pub open spec fn finish_busy_from(m: PoolModel, i: nat) -> Seq<PoolOp>
    decreases m.workers.len() - i,
{
    if i >= m.workers.len() {
        Seq::empty()
    } else if m.workers[i as int] is Busy {
        seq![PoolOp::Finish(i as usize)] + finish_busy_from(
            apply(m, PoolOp::Finish(i as usize)),
            i + 1,
        )
    } else {
        finish_busy_from(m, i + 1)
    }
}

/// Every idle worker from `i` on asks for work, in order of id.
pub open spec fn ask_idle_from(m: PoolModel, i: nat) -> Seq<PoolOp>
    decreases m.workers.len() - i,
{
    if i >= m.workers.len() {
        Seq::empty()
    } else if m.workers[i as int] is Idle {
        seq![PoolOp::Ask(i as usize)] + ask_idle_from(apply(m, PoolOp::Ask(i as usize)), i + 1)
    } else {
        ask_idle_from(m, i + 1)
    }
}

proof fn lemma_finish_busy_from(m: PoolModel, i: nat)
    requires
        m.wf(),
        forall|k: int| 0 <= k < i && k < m.workers.len() ==> !(#[trigger] m.workers[k] is Busy),
    ensures
        runnable(m, finish_busy_from(m, i)),
        run(m, finish_busy_from(m, i)).wf(),
        run(m, finish_busy_from(m, i)).workers.len() == m.workers.len(),
        run(m, finish_busy_from(m, i)).submitted == m.submitted,
        run(m, finish_busy_from(m, i)).dispatched == m.dispatched,
        run(m, finish_busy_from(m, i)).open == m.open,
        forall|k: int|
            0 <= k < m.workers.len() ==> !(#[trigger] run(m, finish_busy_from(m, i)).workers[k] is Busy),
        forall|k: int|
            0 <= k < m.workers.len() && m.workers[k] is Stopped
                ==> #[trigger] run(m, finish_busy_from(m, i)).workers[k] is Stopped,
    decreases m.workers.len() - i,
{
    let ops = finish_busy_from(m, i);
    if i < m.workers.len() {
        if m.workers[i as int] is Busy {
            let op = PoolOp::Finish(i as usize);
            let m1 = apply(m, op);
            lemma_apply_keeps_wf(m, op);
            lemma_finish_busy_from(m1, i + 1);
            assert(ops[0] == op);
            assert(ops.drop_first() =~= finish_busy_from(m1, i + 1));
        } else {
            lemma_finish_busy_from(m, i + 1);
        }
    }
}

proof fn lemma_ask_idle_from(m: PoolModel, i: nat)
    requires
        m.wf(),
        !m.open,
        m.pending() == 0,
        forall|k: int| 0 <= k < m.workers.len() ==> !(#[trigger] m.workers[k] is Busy),
        forall|k: int| 0 <= k < i && k < m.workers.len() ==> #[trigger] m.workers[k] is Stopped,
    ensures
        runnable(m, ask_idle_from(m, i)),
        run(m, ask_idle_from(m, i)).wf(),
        run(m, ask_idle_from(m, i)).finished == m.finished,
        run(m, ask_idle_from(m, i)).submitted == m.submitted,
        all_stopped(run(m, ask_idle_from(m, i)).workers),
    decreases m.workers.len() - i,
{
    let ops = ask_idle_from(m, i);
    if i < m.workers.len() {
        if m.workers[i as int] is Idle {
            let op = PoolOp::Ask(i as usize);
            let m1 = apply(m, op);
            lemma_apply_keeps_wf(m, op);
            lemma_ask_idle_from(m1, i + 1);
            assert(ops[0] == op);
            assert(ops.drop_first() =~= ask_idle_from(m1, i + 1));
        } else {
            lemma_ask_idle_from(m, i + 1);
        }
    } else {
        assert(ops =~= Seq::<PoolOp>::empty());
    }
}

/// The requests that shut a closed pool down: every running job is reported
/// done, worker 0 runs the jobs still waiting, then every idle worker asks
/// for work once.
pub open spec fn shutdown_ops(m: PoolModel) -> Seq<PoolOp> {
    let finish = finish_busy_from(m, 0);
    let m1 = run(m, finish);
    let drain = if m1.pending() > 0 {
        serve(0, m1.pending())
    } else {
        Seq::empty()
    };
    finish + drain + ask_idle_from(run(m1, drain), 0)
}

/// Shutdown completes once every job does: from any state of a closed pool,
/// when the running jobs return, the waiting jobs are run and every worker
/// then stops, with every submitted job finished.
pub proof fn lemma_closed_pool_shuts_down(m: PoolModel)
    requires
        m.wf(),
        !m.open,
    ensures
        runnable(m, shutdown_ops(m)),
        all_stopped(run(m, shutdown_ops(m)).workers),
        run(m, shutdown_ops(m)).finished == m.submitted,
        run(m, shutdown_ops(m)).submitted == m.submitted,
{
    let finish = finish_busy_from(m, 0);
    lemma_finish_busy_from(m, 0);
    let m1 = run(m, finish);
    let drain = if m1.pending() > 0 {
        serve(0, m1.pending())
    } else {
        Seq::empty()
    };
    if m1.pending() > 0 {
        if m1.workers[0] is Stopped {
            assert(m1.dispatched == m1.submitted);
        }
        lemma_one_worker_drains_queue(m1, 0);
    }
    let m2 = run(m1, drain);
    assert(m2.wf() && m2.pending() == 0 && !m2.open && m2.submitted == m.submitted);
    assert(forall|k: int| 0 <= k < m2.workers.len() ==> !(#[trigger] m2.workers[k] is Busy));
    lemma_ask_idle_from(m2, 0);
    let m3 = run(m2, ask_idle_from(m2, 0));
    lemma_run_concat(m, finish, drain);
    lemma_run_concat(m, finish + drain, ask_idle_from(m2, 0));
    lemma_stopped_pool_finished_every_job(m3);
}

/// The scheduling state of a worker pool.
pub struct Scheduler {
    workers: Vec<WorkerState>,
    submitted: u64,
    dispatched: u64,
    finished: u64,
    open: bool,
}

impl View for Scheduler {
    type V = PoolModel;

    closed spec fn view(&self) -> PoolModel {
        PoolModel {
            workers: self.workers@,
            submitted: self.submitted as nat,
            dispatched: self.dispatched as nat,
            finished: self.finished as nat,
            open: self.open,
        }
    }
}

/// Replacing one worker's state changes the number of running workers by the
/// difference between the old and the new state.
pub proof fn lemma_busy_count_update(ws: Seq<WorkerState>, i: int, x: WorkerState)
    requires
        0 <= i < ws.len(),
    ensures
        busy_count(ws.update(i, x)) + (if ws[i] is Busy { 1int } else { 0int }) == busy_count(ws)
            + (if x is Busy { 1int } else { 0int }),
    decreases ws.len(),
{
    let u = ws.update(i, x);
    if i == ws.len() - 1 {
        assert(u.drop_last() =~= ws.drop_last());
    } else {
        assert(u.drop_last() =~= ws.drop_last().update(i, x));
        lemma_busy_count_update(ws.drop_last(), i, x);
    }
}

/// A sequence in which no worker runs a job has no running worker.
pub proof fn lemma_busy_count_zero(ws: Seq<WorkerState>)
    requires
        forall|i: int| 0 <= i < ws.len() ==> !(#[trigger] ws[i] is Busy),
    ensures
        busy_count(ws) == 0,
    decreases ws.len(),
{
    if ws.len() > 0 {
        assert(ws.last() == ws[ws.len() - 1]);
        lemma_busy_count_zero(ws.drop_last());
    }
}

/// No more jobs run at once than there are workers.
pub proof fn lemma_busy_count_bounded(ws: Seq<WorkerState>)
    ensures
        busy_count(ws) <= ws.len(),
    decreases ws.len(),
{
    if ws.len() > 0 {
        lemma_busy_count_bounded(ws.drop_last());
    }
}

/// No job is lost: every submitted job has finished, is running on a worker,
/// or is still waiting in the queue; and at most as many jobs run at once as
/// the pool has workers.
pub proof fn lemma_every_job_accounted(m: PoolModel)
    requires
        m.wf(),
    ensures
        m.finished + busy_count(m.workers) + m.pending() == m.submitted,
        busy_count(m.workers) <= m.workers.len(),
{
    lemma_busy_count_bounded(m.workers);
}

/// Graceful shutdown: once every worker of a pool has stopped, the pool is
/// closed, no submitted job is left in the queue, and every submitted job has
/// finished.
pub proof fn lemma_stopped_pool_finished_every_job(m: PoolModel)
    requires
        m.wf(),
        all_stopped(m.workers),
    ensures
        !m.open,
        m.pending() == 0,
        m.finished == m.submitted,
{
    assert(m.workers[0] is Stopped);
    assert forall|i: int| 0 <= i < m.workers.len() implies !(#[trigger] m.workers[i] is Busy) by {
        assert(m.workers[i] is Stopped);
    }
    lemma_busy_count_zero(m.workers);
}

impl Scheduler {
    /// The invariant of every scheduler built and updated by this module.
    pub open spec fn wf(&self) -> bool {
        self@.wf()
    }

    /// A pool of `size` idle workers, open, with no job submitted.
    pub fn new(size: usize) -> (s: Scheduler)
        requires
            size > 0,
        ensures
            s.wf(),
            s@.workers == Seq::new(size as nat, |_i: int| WorkerState::Idle),
            s@.submitted == 0,
            s@.dispatched == 0,
            s@.finished == 0,
            s@.open,
    {
        let mut workers: Vec<WorkerState> = Vec::new();
        let mut id: usize = 0;
        while id < size
            invariant
                id <= size,
                workers@ == Seq::new(id as nat, |_i: int| WorkerState::Idle),
            decreases size - id,
        {
            workers.push(WorkerState::Idle);
            id = id + 1;
        }
        proof {
            lemma_busy_count_zero(workers@);
        }
        Scheduler { workers, submitted: 0, dispatched: 0, finished: 0, open: true }
    }

    /// Number of workers of the pool.
    pub fn size(&self) -> (n: usize)
        ensures
            n == self@.workers.len(),
    {
        self.workers.len()
    }

    /// Whether the pool still accepts jobs.
    pub fn is_open(&self) -> (b: bool)
        ensures
            b == self@.open,
    {
        self.open
    }

    /// Number of jobs submitted so far.
    pub fn submitted(&self) -> (n: u64)
        ensures
            n == self@.submitted,
    {
        self.submitted
    }

    /// Number of submitted jobs that no worker has taken yet.
    pub fn pending(&self) -> (n: u64)
        requires
            self.wf(),
        ensures
            n == self@.pending(),
    {
        self.submitted - self.dispatched
    }

    /// The state of worker `id`.
    pub fn worker_state(&self, id: usize) -> (st: WorkerState)
        requires
            id < self@.workers.len(),
        ensures
            st == self@.workers[id as int],
    {
        self.workers[id]
    }

    /// Whether every worker has stopped.
    pub fn all_stopped(&self) -> (b: bool)
        ensures
            b == all_stopped(self@.workers),
    {
        let mut i: usize = 0;
        while i < self.workers.len()
            invariant
                i <= self.workers@.len(),
                forall|k: int| 0 <= k < i ==> #[trigger] self.workers@[k] is Stopped,
            decreases self.workers@.len() - i,
        {
            match self.workers[i] {
                WorkerState::Stopped => {},
                _ => {
                    return false;
                },
            }
            i = i + 1;
        }
        true
    }

    /// Queues a new job and returns its identifier, the number of jobs
    /// submitted before it.
    pub fn submit(&mut self) -> (job: u64)
        requires
            old(self).wf(),
            old(self)@.open,
            old(self)@.submitted < u64::MAX,
        ensures
            final(self).wf(),
            job == old(self)@.submitted,
            final(self)@ == apply(old(self)@, PoolOp::Submit),
            final(self)@ == (PoolModel { submitted: old(self)@.submitted + 1, ..old(self)@ }),
    {
        let job = self.submitted;
        self.submitted = self.submitted + 1;
        job
    }

    /// Answers idle worker `id` asking for work: it gets the oldest job not
    /// yet handed out; if there is none it waits while the pool is open, and
    /// stops once the pool is closed.
    pub fn next_action(&mut self, id: usize) -> (act: WorkerAction)
        requires
            old(self).wf(),
            id < old(self)@.workers.len(),
            old(self)@.workers[id as int] is Idle,
        ensures
            final(self).wf(),
            final(self)@ == apply(old(self)@, PoolOp::Ask(id)),
            old(self)@.dispatched < old(self)@.submitted ==> {
                &&& act == WorkerAction::Run(old(self)@.dispatched as u64)
                &&& final(self)@ == (PoolModel {
                    workers: old(self)@.workers.update(id as int, WorkerState::Busy(act->0)),
                    dispatched: old(self)@.dispatched + 1,
                    ..old(self)@
                })
            },
            old(self)@.dispatched == old(self)@.submitted && old(self)@.open ==> {
                &&& act == WorkerAction::Wait
                &&& final(self)@ == old(self)@
            },
            old(self)@.dispatched == old(self)@.submitted && !old(self)@.open ==> {
                &&& act == WorkerAction::Exit
                &&& final(self)@ == (PoolModel {
                    workers: old(self)@.workers.update(id as int, WorkerState::Stopped),
                    ..old(self)@
                })
            },
    {
        if self.dispatched < self.submitted {
            let job = self.dispatched;
            proof {
                lemma_busy_count_update(self.workers@, id as int, WorkerState::Busy(job));
            }
            self.workers.set(id, WorkerState::Busy(job));
            self.dispatched = self.dispatched + 1;
            WorkerAction::Run(job)
        } else if self.open {
            WorkerAction::Wait
        } else {
            proof {
                lemma_busy_count_update(self.workers@, id as int, WorkerState::Stopped);
            }
            self.workers.set(id, WorkerState::Stopped);
            WorkerAction::Exit
        }
    }

    /// Records that worker `id` has finished its job and is idle again.
    pub fn finish(&mut self, id: usize)
        requires
            old(self).wf(),
            id < old(self)@.workers.len(),
            old(self)@.workers[id as int] is Busy,
        ensures
            final(self).wf(),
            final(self)@ == apply(old(self)@, PoolOp::Finish(id)),
            final(self)@ == (PoolModel {
                workers: old(self)@.workers.update(id as int, WorkerState::Idle),
                finished: old(self)@.finished + 1,
                ..old(self)@
            }),
    {
        proof {
            lemma_busy_count_update(self.workers@, id as int, WorkerState::Idle);
        }
        self.workers.set(id, WorkerState::Idle);
        self.finished = self.finished + 1;
    }

    /// Stops accepting jobs.  Jobs already submitted are still handed out.
    pub fn close(&mut self)
        requires
            old(self).wf(),
        ensures
            final(self).wf(),
            final(self)@ == apply(old(self)@, PoolOp::Close),
            final(self)@ == (PoolModel { open: false, ..old(self)@ }),
    {
        self.open = false;
    }
}

} // verus!
