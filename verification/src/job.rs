//! Bounded-concurrency job executor.
//!
//! The executor owns a FIFO queue of deferred jobs, a counting permit gate
//! with a fixed capacity, and an idle/running lifecycle flag.  A host drives
//! it as a state machine: `push` and `push_front_list` enqueue work, `start`
//! is the compare-and-set that elects at most one coordinator per running
//! episode, and the coordinator repeats `next_action` / `after_dispatch`,
//! performing the returned [`Action`] (dispatch a job to isolated execution,
//! or wait) between calls.  `complete` returns a permit when a dispatched
//! job ends, however it ended.
//!
//! Every transition is specified against the ghost model [`ExecModel`],
//! which also records the history of dispatched jobs; the proof functions at
//! the end state the executor's laws over that model: the concurrency bound,
//! FIFO dispatch for plain pushes, front-list ordering, the single active
//! coordinator, idle/resume behaviour, and that draining dispatches every
//! queued job exactly once.

use vstd::prelude::*;

verus! {

/// Ghost model of the executor state: the queue of pending jobs, the history
/// of jobs handed to isolated execution, the permit accounting and the
/// lifecycle flag.
#[verifier::ext_equal]
#[verifier::reject_recursive_types(T)]
pub struct ExecModel<T> {
    /// Jobs waiting to be dispatched, front first.
    pub queue: Seq<T>,
    /// Jobs handed to isolated execution so far, in dispatch order.
    pub dispatched: Seq<T>,
    /// Fixed number of permits the executor was built with.
    pub capacity: nat,
    /// Permits not currently held by an executing job.
    pub available: nat,
    /// Whether a coordinator is active.
    pub running: bool,
}

impl<T> ExecModel<T> {
    /// Well-formedness: a positive capacity, never exceeded.
    pub open spec fn wf(self) -> bool {
        1 <= self.capacity && self.available <= self.capacity
    }

    /// Jobs currently in isolated execution.
    pub open spec fn in_flight(self) -> nat {
        (self.capacity - self.available) as nat
    }

    /// A job appended at the back of the queue.
    pub open spec fn pushed(self, job: T) -> ExecModel<T> {
        ExecModel { queue: self.queue.push(job), ..self }
    }

    /// A batch inserted at the front of the queue, keeping its order.
    pub open spec fn front_listed(self, jobs: Seq<T>) -> ExecModel<T> {
        ExecModel { queue: jobs + self.queue, ..self }
    }

    /// Whether a `start` call from this state elects a coordinator.
    pub open spec fn start_wins(self) -> bool {
        !self.running
    }

    /// The state after a `start` call, winning or not.
    pub open spec fn started(self) -> ExecModel<T> {
        ExecModel { running: true, ..self }
    }

    /// Whether the coordinator can dispatch: a job is queued and a permit is free.
    pub open spec fn can_dispatch(self) -> bool {
        self.queue.len() > 0 && self.available > 0
    }

    /// The front job handed to isolated execution under one permit.
    pub open spec fn dispatched_one(self) -> ExecModel<T> {
        ExecModel {
            queue: self.queue.drop_first(),
            dispatched: self.dispatched.push(self.queue.first()),
            available: (self.available - 1) as nat,
            ..self
        }
    }

    /// One permit returned after a job's execution ended.
    pub open spec fn completed(self) -> ExecModel<T> {
        ExecModel { available: self.available + 1, ..self }
    }

    /// The coordinator gone idle on an empty queue.
    pub open spec fn gone_idle(self) -> ExecModel<T> {
        ExecModel { running: false, ..self }
    }

    /// `n` jobs dispatched, each execution completing before the next dispatch.
    pub open spec fn drained(self, n: nat) -> ExecModel<T>
        decreases n,
    {
        if n == 0 {
            self
        } else {
            self.dispatched_one().completed().drained((n - 1) as nat)
        }
    }

    /// How many of the next `n` consecutive `start` calls win.
    pub open spec fn start_winners(self, n: nat) -> nat
        decreases n,
    {
        if n == 0 {
            0
        } else {
            (if self.start_wins() {
                1nat
            } else {
                0nat
            }) + self.started().start_winners((n - 1) as nat)
        }
    }
}

/// What the host must do next on behalf of the coordinator.
pub enum Action<T> {
    /// Hand this job to isolated execution; it holds one permit until done.
    Dispatch(T),
    /// The queue is empty: suspend until a push signals new work.
    WaitForJob,
    /// All permits are held: suspend until a job completes.
    WaitForPermit,
}

/// The executor state a host shares between producers and the coordinator.
#[verifier::reject_recursive_types(T)]
pub struct JobExecutor<T> {
    queue: Vec<T>,
    capacity: usize,
    available: usize,
    running: bool,
    dispatched: Ghost<Seq<T>>,
}

impl<T> View for JobExecutor<T> {
    type V = ExecModel<T>;

    closed spec fn view(&self) -> ExecModel<T> {
        ExecModel {
            queue: self.queue@,
            dispatched: self.dispatched@,
            capacity: self.capacity as nat,
            available: self.available as nat,
            running: self.running,
        }
    }
}

impl<T> JobExecutor<T> {
    /// A fresh executor: an empty queue, `capacity` permits, no coordinator.
    pub fn new(capacity: usize) -> (r: JobExecutor<T>)
        requires
            capacity >= 1,
        ensures
            r@.wf(),
            r@.queue == Seq::<T>::empty(),
            r@.dispatched == Seq::<T>::empty(),
            r@.capacity == capacity as nat,
            r@.available == capacity as nat,
            !r@.running,
    {
        JobExecutor {
            queue: Vec::new(),
            capacity,
            available: capacity,
            running: false,
            dispatched: Ghost(Seq::empty()),
        }
    }

    /// The atomic idle-to-running transition.  Returns whether this call won
    /// and must spawn the coordinator; a call on a running executor is a no-op.
    pub fn start(&mut self) -> (won: bool)
        ensures
            won == old(self)@.start_wins(),
            final(self)@ == old(self)@.started(),
    {
        let won = !self.running;
        self.running = true;
        won
    }

    /// Append one job at the back of the queue.
    pub fn push(&mut self, job: T)
        ensures
            final(self)@ == old(self)@.pushed(job),
    {
        self.queue.push(job);
    }

    /// Insert a batch at the front of the queue as a contiguous run, keeping
    /// the batch's own order, ahead of everything already queued.
    pub fn push_front_list(&mut self, jobs: Vec<T>)
        ensures
            final(self)@ == old(self)@.front_listed(jobs@),
    {
        let mut merged = jobs;
        merged.append(&mut self.queue);
        self.queue = merged;
    }

    /// The coordinator's decision: dispatch the front job under a permit, or
    /// say what to wait for.  Only `Action::Dispatch` changes the state.
    pub fn next_action(&mut self) -> (a: Action<T>)
        requires
            old(self)@.wf(),
        ensures
            final(self)@.wf(),
            match a {
                Action::Dispatch(job) => old(self)@.can_dispatch() && job == old(
                    self,
                )@.queue.first() && final(self)@ == old(self)@.dispatched_one(),
                Action::WaitForJob => old(self)@.queue.len() == 0 && final(self)@ == old(self)@,
                Action::WaitForPermit => old(self)@.queue.len() > 0 && old(self)@.available == 0
                    && final(self)@ == old(self)@,
            },
    {
        if self.queue.len() == 0 {
            return Action::WaitForJob;
        }
        if self.available == 0 {
            return Action::WaitForPermit;
        }
        let job = self.queue.remove(0);
        self.dispatched = Ghost(self.dispatched@.push(job));
        self.available = self.available - 1;
        proof {
            assert(old(self)@.queue.remove(0) =~= old(self)@.queue.drop_first());
            assert(final(self)@ =~= old(self)@.dispatched_one());
        }
        Action::Dispatch(job)
    }

    /// The check after a dispatch: on an empty queue the coordinator goes
    /// idle and must stop; otherwise it keeps draining.  A host that calls
    /// this under the same lock as `push` closes the window in which a push
    /// could be stranded between the emptiness check and the idle transition.
    pub fn after_dispatch(&mut self) -> (stopped: bool)
        ensures
            stopped == (old(self)@.queue.len() == 0),
            stopped ==> final(self)@ == old(self)@.gone_idle(),
            !stopped ==> final(self)@ == old(self)@,
    {
        if self.queue.len() == 0 {
            self.running = false;
            true
        } else {
            false
        }
    }

    /// Return the permit of a job whose isolated execution ended, no matter
    /// whether it succeeded, failed or panicked.
    pub fn complete(&mut self)
        requires
            old(self)@.wf(),
            old(self)@.in_flight() > 0,
        ensures
            final(self)@ == old(self)@.completed(),
            final(self)@.wf(),
    {
        self.available = self.available + 1;
    }

    /// The fixed permit capacity.
    pub fn capacity(&self) -> (n: usize)
        ensures
            n == self@.capacity,
    {
        self.capacity
    }

    /// Permits not currently held.
    pub fn available_permits(&self) -> (n: usize)
        ensures
            n == self@.available,
    {
        self.available
    }

    /// Jobs currently in isolated execution.
    pub fn in_flight(&self) -> (n: usize)
        requires
            self@.wf(),
        ensures
            n == self@.in_flight(),
    {
        self.capacity - self.available
    }

    /// Jobs waiting in the queue.
    pub fn queue_len(&self) -> (n: usize)
        ensures
            n == self@.queue.len(),
    {
        self.queue.len()
    }

    /// Whether a coordinator is active.
    pub fn is_running(&self) -> (r: bool)
        ensures
            r == self@.running,
    {
        self.running
    }
}

/// Concurrency bound: in a well-formed state, the number of jobs in isolated
/// execution never exceeds the capacity the executor was built with.
pub proof fn lemma_concurrency_bound<T>(m: ExecModel<T>)
    requires
        m.wf(),
    ensures
        m.in_flight() <= m.capacity,
{
}

/// Conservation: no job is duplicated or dropped on the way from the queue
/// to isolated execution — a dispatch moves exactly the front job from the
/// queue to the history, and the two together are unchanged.
pub proof fn lemma_conservation<T>(m: ExecModel<T>)
    requires
        m.queue.len() > 0,
    ensures
        m.dispatched_one().dispatched + m.dispatched_one().queue == m.dispatched + m.queue,
{
    assert(m.dispatched.push(m.queue.first()) + m.queue.drop_first() =~= m.dispatched + m.queue);
}

/// Draining `n` jobs dispatches exactly the first `n` queued jobs, in queue
/// order, appended to the dispatch history; the rest of the queue keeps its
/// order, and the permit count and lifecycle flag are untouched.
pub proof fn lemma_drained_order<T>(m: ExecModel<T>, n: nat)
    requires
        m.wf(),
        m.available >= 1,
        n <= m.queue.len(),
    ensures
        m.drained(n).queue == m.queue.skip(n as int),
        m.drained(n).dispatched == m.dispatched + m.queue.take(n as int),
        m.drained(n).available == m.available,
        m.drained(n).capacity == m.capacity,
        m.drained(n).running == m.running,
    decreases n,
{
    if n == 0 {
        assert(m.queue.skip(0) =~= m.queue);
        assert(m.dispatched + m.queue.take(0) =~= m.dispatched);
    } else {
        let step = m.dispatched_one().completed();
        lemma_drained_order(step, (n - 1) as nat);
        assert(step.queue.skip(n - 1) =~= m.queue.skip(n as int));
        assert(step.dispatched + step.queue.take(n - 1) =~= m.dispatched + m.queue.take(n as int));
    }
}

/// FIFO for plain pushes: jobs pushed in the order `a`, `b`, `c` with no
/// front-insertion are dispatched in that same order, after everything that
/// was queued ahead of them.
pub proof fn lemma_fifo_order<T>(m: ExecModel<T>, a: T, b: T, c: T)
    requires
        m.wf(),
        m.available >= 1,
    ensures
        m.pushed(a).pushed(b).pushed(c).drained((m.queue.len() + 3) as nat).dispatched
            == m.dispatched + m.queue + seq![a, b, c],
{
    let m3 = m.pushed(a).pushed(b).pushed(c);
    assert(m3.queue =~= m.queue + seq![a, b, c]);
    lemma_drained_order(m3, (m.queue.len() + 3) as nat);
    assert(m3.queue.take(m.queue.len() + 3 as int) =~= m3.queue);
    assert(m.dispatched + (m.queue + seq![a, b, c]) =~= m.dispatched + m.queue + seq![a, b, c]);
}

/// Front-list ordering: a batch inserted at the front is dispatched before
/// every job that was already queued, in the batch's own order.
pub proof fn lemma_front_list_order<T>(m: ExecModel<T>, jobs: Seq<T>)
    requires
        m.wf(),
        m.available >= 1,
    ensures
        m.front_listed(jobs).drained((jobs.len() + m.queue.len()) as nat).dispatched
            == m.dispatched + jobs + m.queue,
{
    let mf = m.front_listed(jobs);
    lemma_drained_order(mf, (jobs.len() + m.queue.len()) as nat);
    assert(mf.queue.take(jobs.len() + m.queue.len() as int) =~= mf.queue);
    assert(m.dispatched + (jobs + m.queue) =~= m.dispatched + jobs + m.queue);
}

/// Single active coordinator: of any number of consecutive `start` calls,
/// exactly one wins when the executor was idle and none when a coordinator
/// is already running.
pub proof fn lemma_single_coordinator<T>(m: ExecModel<T>, n: nat)
    ensures
        m.start_winners(n) <= 1,
        m.running ==> m.start_winners(n) == 0,
        !m.running && n >= 1 ==> m.start_winners(n) == 1,
    decreases n,
{
    if n > 0 {
        lemma_single_coordinator(m.started(), (n - 1) as nat);
    }
}

/// Idle/resume: once the executor is idle with an empty queue and a free
/// permit, pushing a job and calling `start` elects a new coordinator whose
/// first decision dispatches exactly that job.
pub proof fn lemma_idle_resume<T>(m: ExecModel<T>, job: T)
    requires
        m.wf(),
        !m.running,
        m.queue.len() == 0,
        m.available >= 1,
    ensures
        m.pushed(job).start_wins(),
        m.pushed(job).started().can_dispatch(),
        m.pushed(job).started().dispatched_one().dispatched == m.dispatched.push(job),
        m.pushed(job).started().dispatched_one().queue.len() == 0,
{
    assert(m.pushed(job).started().queue.first() == job);
}

/// Drain completeness: draining the whole queue dispatches every queued job
/// exactly once — the history grows by precisely the queue's contents, in
/// order — and leaves the queue empty, after which the coordinator goes idle.
pub proof fn lemma_drain_executes_all<T>(m: ExecModel<T>)
    requires
        m.wf(),
        m.available >= 1,
    ensures
        m.drained(m.queue.len()).dispatched == m.dispatched + m.queue,
        m.drained(m.queue.len()).queue.len() == 0,
        !m.drained(m.queue.len()).gone_idle().running,
{
    lemma_drained_order(m, m.queue.len());
    assert(m.queue.take(m.queue.len() as int) =~= m.queue);
}

} // verus!
