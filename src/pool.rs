use vstd::prelude::*;
use std::collections::VecDeque;

verus! {

/// The mathematical state of a pool.
pub struct PoolView<J> {
    /// The tag every worker of the pool carries.
    pub name: Option<Seq<char>>,
    /// Jobs submitted and not yet handed to a worker, oldest first.
    pub queue: Seq<J>,
    /// Whether every handle is gone, so that no job can be submitted any more.
    pub closed: bool,
    /// Workers currently running a job.
    pub active: nat,
    /// The number of workers the pool is meant to keep.
    pub max: nat,
    /// Worker threads that are alive.
    pub workers: nat,
}

impl<J> PoolView<J> {
    /// The invariant of every reachable pool state.
    pub open spec fn wf(self) -> bool {
        &&& self.max >= 1
        &&& self.active <= self.workers
        &&& self.workers <= usize::MAX
    }

    /// A fresh pool with `threads` workers started and nothing submitted.
    pub open spec fn fresh(name: Option<Seq<char>>, threads: nat) -> PoolView<J> {
        PoolView { name, queue: Seq::empty(), closed: false, active: 0, max: threads, workers: threads }
    }

    /// The capacity check a worker makes before it waits for a job.
    pub open spec fn may_continue(self) -> bool {
        self.active < self.max
    }

    /// The state after `job` is submitted.
    pub open spec fn submit(self, job: J) -> PoolView<J> {
        PoolView { queue: self.queue.push(job), ..self }
    }

    /// How many workers are started when the target becomes `threads`.
    pub open spec fn growth(self, threads: nat) -> nat {
        if threads > self.max { (threads - self.max) as nat } else { 0 }
    }

    /// The state after the target becomes `threads`: a larger target starts
    /// the missing workers at once, a smaller one stops none.
    pub open spec fn resize(self, threads: nat) -> PoolView<J> {
        PoolView { max: threads, workers: self.workers + self.growth(threads), ..self }
    }

    /// The state after an idle worker takes the oldest job and starts it.
    pub open spec fn take(self) -> PoolView<J> {
        PoolView { queue: self.queue.drop_first(), active: self.active + 1, ..self }
    }

    /// The state after a worker finishes its job normally.
    pub open spec fn complete(self) -> PoolView<J> {
        PoolView { active: (self.active - 1) as nat, ..self }
    }

    /// The state after an idle worker stops for good.
    pub open spec fn retire(self) -> PoolView<J> {
        PoolView { workers: (self.workers - 1) as nat, ..self }
    }

    /// The state after a worker dies in the middle of a job and one worker is
    /// started in its place.
    pub open spec fn recover(self) -> PoolView<J> {
        PoolView { active: (self.active - 1) as nat, ..self }
    }

    /// The state after the last handle is dropped.
    pub open spec fn close(self) -> PoolView<J> {
        PoolView { closed: true, ..self }
    }
}

/// What an idle worker gets when it asks the pool for work.
pub enum Received<J> {
    /// The oldest pending job, which the worker now runs.
    Job(J),
    /// Nothing is pending: the worker waits and asks again.
    Empty,
    /// Nothing is pending and no job can come any more: the worker retires.
    Shutdown,
}

/// The shared state of a thread pool: its name, its job queue and its counters.
pub struct ThreadPool<J> {
    name: Option<String>,
    jobs: VecDeque<J>,
    closed: bool,
    active_count: usize,
    max_count: usize,
    workers: usize,
}

pub open spec fn name_view(name: Option<String>) -> Option<Seq<char>> {
    match name {
        Some(s) => Some(s@),
        None => None,
    }
}

impl<J> View for ThreadPool<J> {
    type V = PoolView<J>;

    closed spec fn view(&self) -> PoolView<J> {
        PoolView {
            name: name_view(self.name),
            queue: self.jobs@,
            closed: self.closed,
            active: self.active_count as nat,
            max: self.max_count as nat,
            workers: self.workers as nat,
        }
    }
}

impl<J> ThreadPool<J> {
    pub closed spec fn wf(&self) -> bool {
        self@.wf()
    }

    /// A pool of `threads` workers. The caller starts `threads` worker threads.
    pub fn new(threads: usize) -> (r: ThreadPool<J>)
        requires
            threads >= 1,
        ensures
            r.wf(),
            r@ == PoolView::<J>::fresh(None, threads as nat),
    {
        ThreadPool::new_pool(None, threads)
    }

    /// A pool of `threads` workers, each tagged with `name`, including every
    /// worker started later.
    pub fn new_with_name(name: String, threads: usize) -> (r: ThreadPool<J>)
        requires
            threads >= 1,
        ensures
            r.wf(),
            r@ == PoolView::<J>::fresh(Some(name@), threads as nat),
    {
        ThreadPool::new_pool(Some(name), threads)
    }

    fn new_pool(name: Option<String>, threads: usize) -> (r: ThreadPool<J>)
        requires
            threads >= 1,
        ensures
            r.wf(),
            r@ == PoolView::<J>::fresh(name_view(name), threads as nat),
    {
        let r = ThreadPool {
            name,
            jobs: VecDeque::new(),
            closed: false,
            active_count: 0,
            max_count: threads,
            workers: threads,
        };
        assert(r@.queue =~= Seq::<J>::empty());
        r
    }

    /// Submits `job`: it joins the back of the queue.
    pub fn execute(&mut self, job: J)
        requires
            old(self).wf(),
        ensures
            final(self).wf(),
            final(self)@ == old(self)@.submit(job),
    {
        self.jobs.push_back(job);
    }

    /// The number of workers currently running a job.
    pub fn active_count(&self) -> (r: usize)
        ensures
            r == self@.active,
    {
        self.active_count
    }

    /// The number of workers the pool is meant to keep.
    pub fn max_count(&self) -> (r: usize)
        ensures
            r == self@.max,
    {
        self.max_count
    }

    /// The number of worker threads that are alive.
    pub fn worker_count(&self) -> (r: usize)
        ensures
            r == self@.workers,
    {
        self.workers
    }

    /// The tag of the pool's workers, which every new worker gets too.
    pub fn name(&self) -> (r: Option<String>)
        ensures
            name_view(r) == self@.name,
    {
        match &self.name {
            Some(s) => Some(s.clone()),
            None => None,
        }
    }

    /// Sets the number of workers to keep to `threads`, and returns how many
    /// worker threads the caller starts now. Workers above a smaller target are
    /// not stopped: each retires at its next capacity check.
    pub fn set_threads(&mut self, threads: usize) -> (spawn: usize)
        requires
            old(self).wf(),
            threads >= 1,
            old(self)@.workers + threads <= usize::MAX,
        ensures
            final(self).wf(),
            spawn == old(self)@.growth(threads as nat),
            final(self)@ == old(self)@.resize(threads as nat),
    {
        let current_max = self.max_count;
        self.max_count = threads;
        if threads > current_max {
            let spawn = threads - current_max;
            self.workers = self.workers + spawn;
            spawn
        } else {
            0
        }
    }

    /// The capacity check a worker makes between jobs: `true` when it goes on
    /// to wait for a job, `false` when it retires.
    pub fn check_capacity(&self) -> (r: bool)
        ensures
            r == self@.may_continue(),
    {
        self.active_count < self.max_count
    }

    /// An idle worker asks for work. A job that was submitted is handed out
    /// before the closing of the pool is reported.
    pub fn receive(&mut self) -> (r: Received<J>)
        requires
            old(self).wf(),
            old(self)@.active < old(self)@.workers,
        ensures
            final(self).wf(),
            old(self)@.queue.len() > 0 ==> r == Received::Job(old(self)@.queue[0])
                && final(self)@ == old(self)@.take(),
            old(self)@.queue.len() == 0 ==> final(self)@ == old(self)@ && if old(self)@.closed {
                r == Received::<J>::Shutdown
            } else {
                r == Received::<J>::Empty
            },
    {
        match self.jobs.pop_front() {
            Some(job) => {
                self.active_count = self.active_count + 1;
                Received::Job(job)
            },
            None => {
                if self.closed {
                    Received::Shutdown
                } else {
                    Received::Empty
                }
            },
        }
    }

    /// A worker finished its job normally.
    pub fn complete(&mut self)
        requires
            old(self).wf(),
            old(self)@.active >= 1,
        ensures
            final(self).wf(),
            final(self)@ == old(self)@.complete(),
    {
        self.active_count = self.active_count - 1;
    }

    /// An idle worker stops for good: its capacity check failed or the pool
    /// was closed.
    pub fn retire(&mut self)
        requires
            old(self).wf(),
            old(self)@.active < old(self)@.workers,
        ensures
            final(self).wf(),
            final(self)@ == old(self)@.retire(),
    {
        self.workers = self.workers - 1;
    }

    /// A worker died while it ran a job. Its count as active is taken back,
    /// and the caller starts one worker in its place.
    pub fn recover(&mut self)
        requires
            old(self).wf(),
            old(self)@.active >= 1,
        ensures
            final(self).wf(),
            final(self)@ == old(self)@.recover(),
    {
        self.active_count = self.active_count - 1;
    }

    /// Every handle is gone: no job can be submitted any more.
    pub fn close(&mut self)
        requires
            old(self).wf(),
        ensures
            final(self).wf(),
            final(self)@ == old(self)@.close(),
    {
        self.closed = true;
    }
}

} // verus!
