use vstd::prelude::*;
use std::collections::VecDeque;

use crate::system::cpu_count;

verus! {

/// The bookkeeping of a pool, as numbers and the queue of tasks not yet taken.
pub struct PoolState<T> {
    /// The most workers that may be alive at once.
    pub max_threads: nat,
    /// Workers started and not yet gone.
    pub active: nat,
    /// Tasks handed to the pool and not yet reported finished.
    pub queued: nat,
    /// Tasks waiting for a worker, oldest first.
    pub pending: Seq<T>,
}

/// What a worker is told to do next.
pub enum WorkerStep<T> {
    /// Nothing is queued or running: the worker leaves the pool.
    Exit,
    /// Carry out the given task, then call `ThreadPool::task_done`.
    Run(T),
    /// Tasks are still running elsewhere but none is waiting: ask again.
    Wait,
}

impl<T> PoolState<T> {
    /// Tasks taken by a worker and not yet reported finished.
    pub open spec fn running(self) -> int {
        self.queued - self.pending.len()
    }

    /// The pool's invariant: at least one worker is allowed, never more than
    /// allowed are alive, every waiting task is counted, and while any task is
    /// outstanding some worker is alive to take it.
    pub open spec fn wf(self) -> bool {
        &&& 1 <= self.max_threads
        &&& self.active <= self.max_threads
        &&& self.pending.len() <= self.queued
        &&& self.queued > 0 ==> self.active > 0
    }

    /// Whether handing in a task starts a new worker.
    pub open spec fn starts_worker(self) -> bool {
        self.active < self.max_threads
    }

    /// The state after a task is handed in.
    pub open spec fn submit(self, task: T) -> PoolState<T> {
        PoolState {
            max_threads: self.max_threads,
            active: if self.starts_worker() { self.active + 1 } else { self.active },
            queued: self.queued + 1,
            pending: self.pending.push(task),
        }
    }

    /// What a worker that asks for work is told.
    pub open spec fn worker_step(self) -> WorkerStep<T> {
        if self.queued == 0 {
            WorkerStep::Exit
        } else if self.pending.len() > 0 {
            WorkerStep::Run(self.pending[0])
        } else {
            WorkerStep::Wait
        }
    }

    /// The state after a worker asks for work.
    pub open spec fn after_worker_step(self) -> PoolState<T> {
        if self.queued == 0 {
            PoolState { active: (self.active - 1) as nat, ..self }
        } else if self.pending.len() > 0 {
            PoolState { pending: self.pending.drop_first(), ..self }
        } else {
            self
        }
    }

    /// The state after a worker reports a task finished.
    pub open spec fn finish_task(self) -> PoolState<T> {
        PoolState { queued: (self.queued - 1) as nat, ..self }
    }
}

/// Handing in a task keeps the pool's invariant and its worker limit.
pub proof fn law_submit_keeps_invariant<T>(s: PoolState<T>, task: T)
    requires
        s.wf(),
    ensures
        s.submit(task).wf(),
        s.submit(task).max_threads == s.max_threads,
{
}

/// A worker asking for work keeps the pool's invariant and its worker limit.
pub proof fn law_worker_step_keeps_invariant<T>(s: PoolState<T>)
    requires
        s.wf(),
        s.active > 0,
    ensures
        s.after_worker_step().wf(),
        s.after_worker_step().max_threads == s.max_threads,
{
}

/// A worker reporting a task finished keeps the pool's invariant and its worker limit.
pub proof fn law_finish_keeps_invariant<T>(s: PoolState<T>)
    requires
        s.wf(),
        s.running() > 0,
    ensures
        s.finish_task().wf(),
        s.finish_task().max_threads == s.max_threads,
{
}

/// Once a task is handed in, at least one worker is alive, and never more than allowed.
pub proof fn law_submitted_task_has_worker<T>(s: PoolState<T>, task: T)
    requires
        s.wf(),
    ensures
        1 <= s.submit(task).active <= s.max_threads,
{
}

/// A worker is told to leave exactly when no task is waiting or running.
pub proof fn law_worker_leaves_only_when_idle<T>(s: PoolState<T>)
    requires
        s.wf(),
    ensures
        s.worker_step() is Exit <==> s.queued == 0,
        s.worker_step() is Exit ==> s.pending.len() == 0 && s.running() == 0,
{
}

/// Tasks are taken in the order they were handed in.
pub proof fn law_tasks_taken_in_order<T>(s: PoolState<T>, first: T, second: T)
    requires
        s.wf(),
        s.pending.len() == 0,
    ensures
        s.submit(first).submit(second).worker_step() == WorkerStep::Run(first),
        s.submit(first).submit(second).after_worker_step().worker_step() == WorkerStep::Run(
            second,
        ),
{
    let s2 = s.submit(first).submit(second);
    assert(s2.pending =~= seq![first, second]);
    assert(s2.after_worker_step().pending =~= seq![second]);
}

/// A task handed in behind others is taken after the oldest of them; on an idle
/// queue it is taken next.
pub proof fn law_next_taken_is_oldest<T>(s: PoolState<T>, task: T)
    requires
        s.wf(),
    ensures
        s.pending.len() > 0 ==> s.submit(task).worker_step() == WorkerStep::Run(s.pending[0]),
        s.pending.len() == 0 ==> s.submit(task).worker_step() == WorkerStep::Run(task),
{
    assert(s.submit(task).pending[0] == if s.pending.len() > 0 {
        s.pending[0]
    } else {
        task
    });
}

/// Handing in a task, having a worker take it and report it finished leaves the
/// count of outstanding tasks and the waiting queue as they were.
pub proof fn law_task_round_trip<T>(s: PoolState<T>, task: T)
    requires
        s.wf(),
        s.pending.len() == 0,
    ensures
        s.submit(task).worker_step() == WorkerStep::Run(task),
        s.submit(task).after_worker_step().running() > 0,
        s.submit(task).after_worker_step().finish_task().queued == s.queued,
        s.submit(task).after_worker_step().finish_task().pending == s.pending,
{
    assert(s.submit(task).after_worker_step().pending =~= s.pending);
}

/// One call made on a pool: handing in a task (`execute`), a worker asking for
/// work (`next_task`), or a worker saying its task is finished (`task_done`).
pub enum PoolEvent<T> {
    Submit(T),
    AskForWork,
    Finish,
}

impl<T> PoolState<T> {
    /// Whether the call may be made in this state.
    pub open spec fn allows(self, e: PoolEvent<T>) -> bool {
        match e {
            PoolEvent::Submit(_) => true,
            PoolEvent::AskForWork => self.active > 0,
            PoolEvent::Finish => self.running() > 0,
        }
    }

    /// The state after the call.
    pub open spec fn after(self, e: PoolEvent<T>) -> PoolState<T> {
        match e {
            PoolEvent::Submit(task) => self.submit(task),
            PoolEvent::AskForWork => self.after_worker_step(),
            PoolEvent::Finish => self.finish_task(),
        }
    }

    /// The state after the calls `es`, in order.
    pub open spec fn run(self, es: Seq<PoolEvent<T>>) -> PoolState<T>
        decreases es.len(),
    {
        if es.len() == 0 {
            self
        } else {
            self.after(es[0]).run(es.drop_first())
        }
    }

    /// Whether each call of `es` may be made in the state it meets.
    pub open spec fn valid_run(self, es: Seq<PoolEvent<T>>) -> bool
        decreases es.len(),
    {
        es.len() == 0 || (self.allows(es[0]) && self.after(es[0]).valid_run(es.drop_first()))
    }

    /// The tasks handed to workers during the calls `es`, in order.
    pub open spec fn handed_out(self, es: Seq<PoolEvent<T>>) -> Seq<T>
        decreases es.len(),
    {
        if es.len() == 0 {
            Seq::empty()
        } else {
            let first = match (es[0], self.worker_step()) {
                (PoolEvent::AskForWork, WorkerStep::Run(task)) => seq![task],
                _ => Seq::empty(),
            };
            first + self.after(es[0]).handed_out(es.drop_first())
        }
    }

    /// Workers started during the calls `es`.
    pub open spec fn started(self, es: Seq<PoolEvent<T>>) -> nat
        decreases es.len(),
    {
        if es.len() == 0 {
            0
        } else {
            let first: nat = match es[0] {
                PoolEvent::Submit(_) => if self.starts_worker() {
                    1
                } else {
                    0
                },
                _ => 0,
            };
            first + self.after(es[0]).started(es.drop_first())
        }
    }

    /// Workers told to leave during the calls `es`.
    pub open spec fn exited(self, es: Seq<PoolEvent<T>>) -> nat
        decreases es.len(),
    {
        if es.len() == 0 {
            0
        } else {
            let first: nat = match (es[0], self.worker_step()) {
                (PoolEvent::AskForWork, WorkerStep::Exit) => 1,
                _ => 0,
            };
            first + self.after(es[0]).exited(es.drop_first())
        }
    }
}

/// The tasks handed in by the calls `es`, in order.
pub open spec fn submitted<T>(es: Seq<PoolEvent<T>>) -> Seq<T>
    decreases es.len(),
{
    if es.len() == 0 {
        Seq::empty()
    } else {
        let first = match es[0] {
            PoolEvent::Submit(task) => seq![task],
            _ => Seq::empty(),
        };
        first + submitted(es.drop_first())
    }
}

/// How many of the calls `es` say a task is finished.
pub open spec fn finished_count<T>(es: Seq<PoolEvent<T>>) -> nat
    decreases es.len(),
{
    if es.len() == 0 {
        0
    } else {
        (if es[0] is Finish {
            1nat
        } else {
            0nat
        }) + finished_count(es.drop_first())
    }
}

/// One allowed call keeps the pool's invariant and its worker limit.
pub proof fn law_call_keeps_invariant<T>(s: PoolState<T>, e: PoolEvent<T>)
    requires
        s.wf(),
        s.allows(e),
    ensures
        s.after(e).wf(),
        s.after(e).max_threads == s.max_threads,
{
}

/// Over any run of allowed calls the pool keeps its invariant, so never more
/// workers are alive than allowed, and the limit never changes.
pub proof fn law_run_keeps_invariant<T>(s: PoolState<T>, es: Seq<PoolEvent<T>>)
    requires
        s.wf(),
        s.valid_run(es),
    ensures
        s.run(es).wf(),
        s.run(es).active <= s.max_threads,
        s.run(es).max_threads == s.max_threads,
    decreases es.len(),
{
    if es.len() > 0 {
        law_call_keeps_invariant(s, es[0]);
        law_run_keeps_invariant(s.after(es[0]), es.drop_first());
    }
}

/// Over any run of allowed calls the count of outstanding tasks grows by the
/// tasks handed in and shrinks by the tasks said to be finished.
pub proof fn law_run_counts_tasks<T>(s: PoolState<T>, es: Seq<PoolEvent<T>>)
    requires
        s.valid_run(es),
    ensures
        s.run(es).queued == s.queued + submitted(es).len() - finished_count(es),
    decreases es.len(),
{
    if es.len() > 0 {
        law_run_counts_tasks(s.after(es[0]), es.drop_first());
    }
}

/// Over any run of allowed calls the count of live workers grows by the workers
/// started and shrinks by the workers told to leave.
pub proof fn law_run_counts_workers<T>(s: PoolState<T>, es: Seq<PoolEvent<T>>)
    requires
        s.valid_run(es),
    ensures
        s.run(es).active == s.active + s.started(es) - s.exited(es),
    decreases es.len(),
{
    if es.len() > 0 {
        law_run_counts_workers(s.after(es[0]), es.drop_first());
    }
}

/// Over any run of allowed calls every task is handed to a worker at most once
/// and in the order handed in: the tasks handed out, followed by those still
/// waiting, are exactly the tasks that were waiting followed by those handed in.
pub proof fn law_run_hands_out_each_task_once<T>(s: PoolState<T>, es: Seq<PoolEvent<T>>)
    requires
        s.wf(),
        s.valid_run(es),
    ensures
        s.handed_out(es) + s.run(es).pending == s.pending + submitted(es),
    decreases es.len(),
{
    if es.len() > 0 {
        let e = es[0];
        let rest = es.drop_first();
        let s1 = s.after(e);
        law_call_keeps_invariant(s, e);
        law_run_hands_out_each_task_once(s1, rest);
        let first = match (e, s.worker_step()) {
            (PoolEvent::AskForWork, WorkerStep::Run(task)) => seq![task],
            _ => Seq::empty(),
        };
        let sub_first = match e {
            PoolEvent::Submit(task) => seq![task],
            _ => Seq::empty(),
        };
        assert(first + s1.pending =~= s.pending + sub_first);
        assert(s.handed_out(es) == first + s1.handed_out(rest));
        assert(submitted(es) == sub_first + submitted(rest));
        assert(s.run(es) == s1.run(rest));
        assert(s.handed_out(es) + s.run(es).pending =~= first + (s1.handed_out(rest) + s1.run(
            rest,
        ).pending));
        assert(s.pending + submitted(es) =~= (s.pending + sub_first) + submitted(rest));
    }
}

/// Handing in a task starts a worker exactly when fewer workers are alive than
/// allowed, and afterwards never more are alive than allowed.
pub proof fn law_execute_starts_worker_below_limit<T>(s: PoolState<T>, task: T)
    requires
        s.wf(),
    ensures
        s.submit(task).active == if s.active < s.max_threads {
            s.active + 1
        } else {
            s.active
        },
        s.submit(task).active <= s.max_threads,
{
}

/// Collects the settings of a pool before it is built.
pub struct Builder {
    num_threads: Option<usize>,
    thread_name: Option<String>,
    thread_stack_size: Option<usize>,
}

impl Builder {
    /// A requested number of threads is never zero.
    #[verifier::type_invariant]
    spec fn threads_positive(self) -> bool {
        self.num_threads matches Some(n) ==> n > 0
    }

    /// The number of workers asked for, if any.
    pub closed spec fn requested_threads(self) -> Option<usize> {
        self.num_threads
    }

    /// The worker name asked for, if any.
    pub closed spec fn requested_name(self) -> Option<String> {
        self.thread_name
    }

    /// The worker stack size asked for, if any.
    pub closed spec fn requested_stack_size(self) -> Option<usize> {
        self.thread_stack_size
    }

    /// A builder that asks for nothing.
    pub fn new() -> (b: Builder)
        ensures
            b.requested_threads() is None,
            b.requested_name() is None,
            b.requested_stack_size() is None,
    {
        Builder { num_threads: None, thread_name: None, thread_stack_size: None }
    }

    /// Asks for at most `num_threads` workers; zero is not a valid count.
    pub fn num_threads(self, num_threads: usize) -> (b: Builder)
        requires
            num_threads > 0,
        ensures
            b.requested_threads() == Some(num_threads),
            b.requested_name() == self.requested_name(),
            b.requested_stack_size() == self.requested_stack_size(),
    {
        Builder { num_threads: Some(num_threads), ..self }
    }

    /// Asks for workers named `name`.
    pub fn thread_name(self, name: String) -> (b: Builder)
        ensures
            b.requested_threads() == self.requested_threads(),
            b.requested_name() == Some(name),
            b.requested_stack_size() == self.requested_stack_size(),
    {
        proof {
            use_type_invariant(&self);
        }
        Builder { thread_name: Some(name), ..self }
    }

    /// Asks for workers with a stack of `size` bytes.
    pub fn thread_stack_size(self, size: usize) -> (b: Builder)
        ensures
            b.requested_threads() == self.requested_threads(),
            b.requested_name() == self.requested_name(),
            b.requested_stack_size() == Some(size),
    {
        proof {
            use_type_invariant(&self);
        }
        Builder { thread_stack_size: Some(size), ..self }
    }

    /// The pool these settings describe. Without a requested count the pool
    /// allows as many workers as the machine has CPUs, which is at least one.
    pub fn build<T>(self) -> (pool: ThreadPool<T>)
        ensures
            self.requested_threads() matches Some(n) ==> pool@.max_threads == n,
            pool@.max_threads >= 1,
            pool@.active == 0,
            pool@.queued == 0,
            pool@.pending == Seq::<T>::empty(),
            pool.name() == self.requested_name(),
            pool.stack_size() == self.requested_stack_size(),
    {
        proof {
            use_type_invariant(&self);
        }
        let cpus = match self.num_threads {
            Some(n) => n,
            None => cpu_count(),
        };
        self.build_with_cpu_count(cpus)
    }

    /// The pool these settings describe on a machine with `cpus` CPUs: the
    /// requested count of workers, or `cpus` when none was requested.
    pub fn build_with_cpu_count<T>(self, cpus: usize) -> (pool: ThreadPool<T>)
        requires
            cpus >= 1,
        ensures
            pool@.max_threads == (match self.requested_threads() {
                Some(n) => n as nat,
                None => cpus as nat,
            }),
            pool@.active == 0,
            pool@.queued == 0,
            pool@.pending == Seq::<T>::empty(),
            pool.name() == self.requested_name(),
            pool.stack_size() == self.requested_stack_size(),
    {
        proof {
            use_type_invariant(&self);
        }
        let max_thread_count = match self.num_threads {
            Some(n) => n,
            None => cpus,
        };
        ThreadPool {
            name: self.thread_name,
            stack_size: self.thread_stack_size,
            max_thread_count,
            active_thread_count: 0,
            queue_count: 0,
            pending: VecDeque::new(),
        }
    }
}

impl Clone for Builder {
    fn clone(&self) -> (b: Builder)
        ensures
            b.requested_threads() == self.requested_threads(),
            b.requested_name() == self.requested_name(),
            b.requested_stack_size() == self.requested_stack_size(),
    {
        proof {
            use_type_invariant(self);
        }
        let thread_name = match &self.thread_name {
            Some(name) => Some(name.clone()),
            None => None,
        };
        Builder {
            num_threads: self.num_threads,
            thread_name,
            thread_stack_size: self.thread_stack_size,
        }
    }
}

impl Default for Builder {
    fn default() -> (b: Builder)
        ensures
            b.requested_threads() is None,
            b.requested_name() is None,
            b.requested_stack_size() is None,
    {
        Builder::new()
    }
}

/// A pool of worker threads, as the bookkeeping that decides when workers start,
/// which task each takes and when each leaves. The threads themselves are run
/// by the caller, which does what [`ThreadPool::execute`] and
/// [`ThreadPool::next_task`] say.
pub struct ThreadPool<T> {
    name: Option<String>,
    stack_size: Option<usize>,
    max_thread_count: usize,
    active_thread_count: usize,
    queue_count: usize,
    pending: VecDeque<T>,
}

impl<T> View for ThreadPool<T> {
    type V = PoolState<T>;

    closed spec fn view(&self) -> PoolState<T> {
        PoolState {
            max_threads: self.max_thread_count as nat,
            active: self.active_thread_count as nat,
            queued: self.queue_count as nat,
            pending: self.pending@,
        }
    }
}

impl<T> ThreadPool<T> {
    #[verifier::type_invariant]
    spec fn state_wf(self) -> bool {
        self@.wf()
    }

    /// The name given to the workers, if any.
    pub closed spec fn name(self) -> Option<String> {
        self.name
    }

    /// The stack size given to the workers, if any.
    pub closed spec fn stack_size(self) -> Option<usize> {
        self.stack_size
    }

    /// A pool of at most `num_threads` workers; zero is not a valid count.
    pub fn new(num_threads: usize) -> (pool: ThreadPool<T>)
        requires
            num_threads > 0,
        ensures
            pool@ == (PoolState::<T> {
                max_threads: num_threads as nat,
                active: 0,
                queued: 0,
                pending: Seq::empty(),
            }),
            pool.name() is None,
            pool.stack_size() is None,
    {
        Builder::new().num_threads(num_threads).build()
    }

    /// A pool of at most `num_threads` workers named `name`; zero is not a valid count.
    pub fn with_name(name: String, num_threads: usize) -> (pool: ThreadPool<T>)
        requires
            num_threads > 0,
        ensures
            pool@ == (PoolState::<T> {
                max_threads: num_threads as nat,
                active: 0,
                queued: 0,
                pending: Seq::empty(),
            }),
            pool.name() == Some(name),
            pool.stack_size() is None,
    {
        Builder::new().num_threads(num_threads).thread_name(name).build()
    }

    /// Tasks handed in and not yet reported finished.
    pub fn queue_count(&self) -> (n: usize)
        ensures
            n == self@.queued,
            self@.wf(),
    {
        proof {
            use_type_invariant(self);
        }
        self.queue_count
    }

    /// Workers started and not yet gone.
    pub fn active_thread_count(&self) -> (n: usize)
        ensures
            n == self@.active,
            self@.wf(),
    {
        proof {
            use_type_invariant(self);
        }
        self.active_thread_count
    }

    /// The most workers that may be alive at once.
    pub fn max_thead_count(&self) -> (n: usize)
        ensures
            n == self@.max_threads,
            self@.wf(),
    {
        proof {
            use_type_invariant(self);
        }
        self.max_thread_count
    }

    /// Tasks taken by a worker and not yet reported finished.
    pub fn running_count(&self) -> (n: usize)
        ensures
            n == self@.running(),
            self@.wf(),
    {
        proof {
            use_type_invariant(self);
        }
        self.queue_count - self.pending.len()
    }

    /// The name given to the workers, if any.
    pub fn thread_name(&self) -> (name: Option<&str>)
        ensures
            self.name() is None ==> name is None,
            self.name() matches Some(n) ==> (name matches Some(s) && s@ == n@),
    {
        match &self.name {
            Some(n) => Some(n.as_str()),
            None => None,
        }
    }

    /// The stack size given to the workers, if any.
    pub fn thread_stack_size(&self) -> (size: Option<usize>)
        ensures
            size == self.stack_size(),
    {
        self.stack_size
    }

    /// Hands in `task`. It waits behind every task handed in before it. The
    /// result says whether the caller must start a new worker, which happens
    /// while fewer workers are alive than allowed; that worker is already counted.
    pub fn execute(&mut self, task: T) -> (start_worker: bool)
        requires
            old(self)@.queued < usize::MAX,
        ensures
            start_worker == old(self)@.starts_worker(),
            final(self)@ == old(self)@.submit(task),
            final(self)@.wf(),
            final(self).name() == old(self).name(),
            final(self).stack_size() == old(self).stack_size(),
    {
        proof {
            use_type_invariant(&*self);
        }
        let start_worker = self.active_thread_count < self.max_thread_count;
        let mut taken = ThreadPool {
            name: None,
            stack_size: None,
            max_thread_count: 1,
            active_thread_count: 0,
            queue_count: 0,
            pending: VecDeque::new(),
        };
        std::mem::swap(self, &mut taken);
        let ThreadPool {
            name,
            stack_size,
            max_thread_count,
            active_thread_count,
            queue_count,
            mut pending,
        } = taken;
        pending.push_back(task);
        let active_thread_count = if start_worker {
            active_thread_count + 1
        } else {
            active_thread_count
        };
        *self = ThreadPool {
            name,
            stack_size,
            max_thread_count,
            active_thread_count,
            queue_count: queue_count + 1,
            pending,
        };
        start_worker
    }

    /// Called by a live worker that is free for work. With nothing queued or
    /// running the worker is told to leave and stops being counted; otherwise it
    /// takes the oldest waiting task, or is told to wait when none is waiting.
    pub fn next_task(&mut self) -> (step: WorkerStep<T>)
        requires
            old(self)@.active > 0,
        ensures
            step == old(self)@.worker_step(),
            final(self)@ == old(self)@.after_worker_step(),
            step is Run ==> final(self)@.running() > 0,
            final(self)@.wf(),
            final(self).name() == old(self).name(),
            final(self).stack_size() == old(self).stack_size(),
    {
        proof {
            use_type_invariant(&*self);
        }
        if self.queue_count == 0 {
            self.active_thread_count = self.active_thread_count - 1;
            return WorkerStep::Exit;
        }
        let mut taken = ThreadPool {
            name: None,
            stack_size: None,
            max_thread_count: 1,
            active_thread_count: 0,
            queue_count: 0,
            pending: VecDeque::new(),
        };
        std::mem::swap(self, &mut taken);
        let ThreadPool {
            name,
            stack_size,
            max_thread_count,
            active_thread_count,
            queue_count,
            mut pending,
        } = taken;
        let step = match pending.pop_front() {
            Some(task) => WorkerStep::Run(task),
            None => WorkerStep::Wait,
        };
        *self = ThreadPool {
            name,
            stack_size,
            max_thread_count,
            active_thread_count,
            queue_count,
            pending,
        };
        step
    }

    /// Called by a worker when the task it took has finished.
    pub fn task_done(&mut self)
        requires
            old(self)@.running() > 0,
        ensures
            final(self)@ == old(self)@.finish_task(),
            final(self)@.wf(),
            final(self).name() == old(self).name(),
            final(self).stack_size() == old(self).stack_size(),
    {
        proof {
            use_type_invariant(&*self);
        }
        self.queue_count = self.queue_count - 1;
    }
}

} // verus!
