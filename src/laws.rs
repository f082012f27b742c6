//! Properties of the pool protocol over runs of several steps.
use vstd::prelude::*;
use crate::pool::PoolView;

verus! {

/// The state after each job of `jobs` is submitted, in order.
pub open spec fn submit_all<J>(s: PoolView<J>, jobs: Seq<J>) -> PoolView<J>
    decreases jobs.len(),
{
    if jobs.len() == 0 {
        s
    } else {
        submit_all(s, jobs.drop_last()).submit(jobs.last())
    }
}

/// The state after `k` idle workers in turn take the oldest job.
pub open spec fn take_n<J>(s: PoolView<J>, k: nat) -> PoolView<J>
    decreases k,
{
    if k == 0 {
        s
    } else {
        take_n(s, (k - 1) as nat).take()
    }
}

/// The state after `k` running jobs finish normally.
pub open spec fn complete_n<J>(s: PoolView<J>, k: nat) -> PoolView<J>
    decreases k,
{
    if k == 0 {
        s
    } else {
        complete_n(s, (k - 1) as nat).complete()
    }
}

/// The state after `k` workers die in their jobs and are replaced.
pub open spec fn recover_n<J>(s: PoolView<J>, k: nat) -> PoolView<J>
    decreases k,
{
    if k == 0 {
        s
    } else {
        recover_n(s, (k - 1) as nat).recover()
    }
}

/// Submitting jobs appends them to the queue and changes nothing else.
pub proof fn lemma_submit_all<J>(s: PoolView<J>, jobs: Seq<J>)
    ensures
        submit_all(s, jobs) == (PoolView { queue: s.queue + jobs, ..s }),
    decreases jobs.len(),
{
    if jobs.len() == 0 {
        assert(s.queue + jobs =~= s.queue);
    } else {
        lemma_submit_all(s, jobs.drop_last());
        assert((s.queue + jobs.drop_last()).push(jobs.last()) =~= s.queue + jobs);
    }
}

/// While the pool has room, `k` idle workers can each pass the capacity check
/// and take a pending job; afterwards `k` more workers are active and the
/// first `k` jobs have left the queue.
pub proof fn lemma_take_n<J>(s: PoolView<J>, k: nat)
    requires
        s.wf(),
        s.active + k <= s.max,
        s.active + k <= s.workers,
        k <= s.queue.len(),
    ensures
        take_n(s, k).wf(),
        take_n(s, k).active == s.active + k,
        take_n(s, k).max == s.max,
        take_n(s, k).workers == s.workers,
        take_n(s, k).name == s.name,
        take_n(s, k).closed == s.closed,
        take_n(s, k).queue == s.queue.subrange(k as int, s.queue.len() as int),
        forall|i: nat|
            i < k ==> {
                &&& #[trigger] take_n(s, i).may_continue()
                &&& take_n(s, i).active < take_n(s, i).workers
                &&& take_n(s, i).queue.len() > 0
            },
    decreases k,
{
    if k > 0 {
        let k1 = (k - 1) as nat;
        lemma_take_n(s, k1);
        assert(take_n(s, k1).queue.drop_first() =~= s.queue.subrange(k as int, s.queue.len() as int));
        assert forall|i: nat| i < k implies {
            &&& #[trigger] take_n(s, i).may_continue()
            &&& take_n(s, i).active < take_n(s, i).workers
            &&& take_n(s, i).queue.len() > 0
        } by {
            if i < k1 {
            } else {
                assert(i == k1);
            }
        }
    } else {
        assert(s.queue.subrange(0, s.queue.len() as int) =~= s.queue);
    }
}

/// `k` jobs that end, normally or by a panic, take back `k` from the count of
/// active workers and change nothing else.
pub proof fn lemma_complete_n<J>(s: PoolView<J>, k: nat)
    requires
        s.wf(),
        k <= s.active,
    ensures
        complete_n(s, k) == (PoolView { active: (s.active - k) as nat, ..s }),
        recover_n(s, k) == complete_n(s, k),
        complete_n(s, k).wf(),
    decreases k,
{
    if k > 0 {
        lemma_complete_n(s, (k - 1) as nat);
    }
}

/// A new pool of `n` workers keeps `n` workers, none of them running a job,
/// and each of them passes its capacity check.
pub proof fn law_fresh_pool<J>(name: Option<Seq<char>>, n: nat)
    requires
        1 <= n <= usize::MAX,
    ensures
        PoolView::<J>::fresh(name, n).wf(),
        PoolView::<J>::fresh(name, n).max == n,
        PoolView::<J>::fresh(name, n).active == 0,
        PoolView::<J>::fresh(name, n).may_continue(),
{
}

/// On a new pool of `n` workers, `k <= n` jobs that never end make exactly
/// `k` workers active, and stay so.
pub proof fn law_blocking_jobs_fill<J>(name: Option<Seq<char>>, n: nat, jobs: Seq<J>)
    requires
        1 <= n <= usize::MAX,
        jobs.len() <= n,
    ensures
        ({
            let s = submit_all(PoolView::<J>::fresh(name, n), jobs);
            &&& take_n(s, jobs.len()).active == jobs.len()
            &&& take_n(s, jobs.len()).queue.len() == 0
        }),
{
    let f = PoolView::<J>::fresh(name, n);
    lemma_submit_all(f, jobs);
    assert(f.queue + jobs =~= jobs);
    lemma_take_n(submit_all(f, jobs), jobs.len());
}

/// Growing a pool of `n` workers to `m > n` sets the target to `m` at once
/// and starts `m - n` workers; `m` jobs that never end then make `m` workers
/// active.
pub proof fn law_grow<J>(name: Option<Seq<char>>, n: nat, m: nat, jobs: Seq<J>)
    requires
        1 <= n < m,
        n + m <= usize::MAX,
        jobs.len() == m,
    ensures
        ({
            let g = PoolView::<J>::fresh(name, n).resize(m);
            &&& PoolView::<J>::fresh(name, n).growth(m) == m - n
            &&& g.max == m
            &&& g.workers == m
            &&& g.wf()
            &&& take_n(submit_all(g, jobs), m).active == m
        }),
{
    let g = PoolView::<J>::fresh(name, n).resize(m);
    lemma_submit_all(g, jobs);
    assert(g.queue + jobs =~= jobs);
    lemma_take_n(submit_all(g, jobs), m);
}

/// Shrinking the target to `m` takes effect at once on the target but stops
/// no worker and leaves the count of active workers as it was. While `m` or
/// more jobs still run, a worker's capacity check fails and it retires; once
/// enough of them have ended, the check passes again.
pub proof fn law_shrink<J>(s: PoolView<J>, m: nat, k: nat)
    requires
        s.wf(),
        1 <= m < s.max,
        k <= s.active,
    ensures
        s.resize(m).max == m,
        s.resize(m).active == s.active,
        s.resize(m).workers == s.workers,
        s.resize(m).wf(),
        s.growth(m) == 0,
        complete_n(s.resize(m), k).active == s.active - k,
        complete_n(s.resize(m), k).may_continue() <==> s.active - k < m,
{
    lemma_complete_n(s.resize(m), k);
}

/// When every one of the `n` first jobs of a new pool panics, each dead
/// worker is replaced: the pool again keeps `n` workers, none active, and
/// `n` later jobs are all taken and all end.
pub proof fn law_recovery<J>(name: Option<Seq<char>>, n: nat, first: Seq<J>, later: Seq<J>)
    requires
        1 <= n <= usize::MAX,
        first.len() == n,
        later.len() == n,
    ensures
        ({
            let ran = take_n(submit_all(PoolView::<J>::fresh(name, n), first), n);
            let healed = recover_n(ran, n);
            let busy = take_n(submit_all(healed, later), n);
            &&& healed.wf()
            &&& healed.workers == n
            &&& healed.active == 0
            &&& healed.max == n
            &&& healed.queue.len() == 0
            &&& busy.active == n
            &&& busy.queue.len() == 0
            &&& complete_n(busy, n).active == 0
        }),
{
    let f = PoolView::<J>::fresh(name, n);
    lemma_submit_all(f, first);
    assert(f.queue + first =~= first);
    let ran = take_n(submit_all(f, first), n);
    lemma_take_n(submit_all(f, first), n);
    lemma_complete_n(ran, n);
    let healed = recover_n(ran, n);
    lemma_submit_all(healed, later);
    assert(healed.queue + later =~= later);
    lemma_take_n(submit_all(healed, later), n);
    lemma_complete_n(take_n(submit_all(healed, later), n), n);
}

/// A job that panics after every handle is gone leaves a well-formed pool.
/// Its replacement is an idle worker that may retire, and when no job is
/// pending it is told to shut down.
pub proof fn law_panic_after_close<J>(s: PoolView<J>)
    requires
        s.wf(),
        s.active >= 1,
    ensures
        s.close().recover().wf(),
        s.close().recover().closed,
        s.close().recover().active == s.active - 1,
        s.close().recover().active < s.close().recover().workers,
        s.close().recover().workers == s.workers,
{
}

/// No step changes the name of a pool, so every worker it starts, at first,
/// when it grows or in place of one that died, carries the same name.
pub proof fn law_name_kept<J>(s: PoolView<J>, job: J, threads: nat)
    ensures
        s.submit(job).name == s.name,
        s.resize(threads).name == s.name,
        s.take().name == s.name,
        s.complete().name == s.name,
        s.retire().name == s.name,
        s.recover().name == s.name,
        s.close().name == s.name,
{
}

} // verus!
