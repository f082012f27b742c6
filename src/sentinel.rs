use vstd::prelude::*;
use crate::pool::{name_view, ThreadPool};

verus! {

/// The recovery guard of one worker. It stays armed while the worker runs;
/// a worker that retires disarms it. If the worker's thread ends any other
/// way, the guard takes back the worker's count as active and a worker of the
/// same name is started in its place.
pub struct Sentinel {
    name: Option<String>,
    active: bool,
}

impl Sentinel {
    pub closed spec fn armed(&self) -> bool {
        self.active
    }

    pub closed spec fn tag(&self) -> Option<Seq<char>> {
        name_view(self.name)
    }

    /// An armed guard for a worker tagged `name`.
    pub fn new(name: Option<String>) -> (r: Sentinel)
        ensures
            r.armed(),
            r.tag() == name_view(name),
    {
        Sentinel { name, active: true }
    }

    /// Disarms the guard: the worker is retiring on purpose.
    pub fn cancel(&mut self)
        ensures
            !final(self).armed(),
            final(self).tag() == old(self).tag(),
    {
        self.active = false;
    }

    /// Whether the guard is still armed.
    pub fn is_armed(&self) -> (r: bool)
        ensures
            r == self.armed(),
    {
        self.active
    }

    /// The name the replacement worker gets.
    pub fn name(&self) -> (r: Option<String>)
        ensures
            name_view(r) == self.tag(),
    {
        match &self.name {
            Some(s) => Some(s.clone()),
            None => None,
        }
    }

    /// Runs when the worker's thread ends. An armed guard means the worker
    /// died in a job: the pool takes back its count as active and the result
    /// is `true`, and the caller starts one worker in its place. A disarmed
    /// guard changes nothing.
    pub fn on_exit<J>(&self, pool: &mut ThreadPool<J>) -> (respawn: bool)
        requires
            old(pool).wf(),
            self.armed() ==> old(pool)@.active >= 1,
        ensures
            final(pool).wf(),
            respawn == self.armed(),
            final(pool)@ == if self.armed() { old(pool)@.recover() } else { old(pool)@ },
    {
        if self.active {
            pool.recover();
            true
        } else {
            false
        }
    }
}

} // verus!
