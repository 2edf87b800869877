//! The pool's protocol: construction, submission and shutdown.
//!
//! A pool has a fixed number of workers, numbered from zero, that share one
//! `JobQueue`. Submitting puts a job at the back of the queue. Shutting down
//! puts one terminate message per worker behind every job already submitted
//! and then closes the queue, so no job can arrive after the terminate
//! messages and a worker that misses one still stops on the closed queue.
//! The caller then joins the workers in the order `shutdown` gives and
//! records each join.
use crate::queue::{lemma_delivered_exactly_once, JobQueue};
use crate::worker::{jobs_of, Message};
use vstd::prelude::*;

verus! {

#[derive(PartialEq, Eq, Structural, Debug, Clone, Copy)]
pub enum PoolError {
    /// A pool needs at least one worker.
    ConstructionError,
    /// The pool is shutting down or shut down, or its queue is closed.
    SubmissionRejected,
}

/// `n` terminate messages.
pub open spec fn terminates<J>(n: nat) -> Seq<Message<J>> {
    Seq::new(n, |i: int| Message::<J>::Terminate)
}

/// The identifiers `0, 1, ..., n - 1`.
pub open spec fn id_range(n: nat) -> Seq<usize> {
    Seq::new(n, |i: int| i as usize)
}

pub struct PoolCore {
    size: usize,
    shut_down: bool,
    joined: usize,
}

impl PoolCore {
    pub closed spec fn size_spec(&self) -> nat {
        self.size as nat
    }

    pub closed spec fn is_shut_down_spec(&self) -> bool {
        self.shut_down
    }

    /// How many workers have been joined so far.
    pub closed spec fn joined_spec(&self) -> nat {
        self.joined as nat
    }

    /// The number of worker threads still running.
    pub open spec fn running_spec(&self) -> int {
        self.size_spec() - self.joined_spec()
    }

    pub closed spec fn wf(&self) -> bool {
        &&& self.size > 0
        &&& self.joined <= self.size
        &&& !self.shut_down ==> self.joined == 0
    }

    /// A pool of `size` workers, all running and none joined; refused when
    /// `size` is zero.
    pub fn construct(size: usize) -> (r: Result<PoolCore, PoolError>)
        ensures
            size == 0 <==> r == Err::<PoolCore, PoolError>(PoolError::ConstructionError),
            size > 0 <==> r is Ok,
            r matches Ok(p) ==> p.wf() && p.size_spec() == size && !p.is_shut_down_spec()
                && p.joined_spec() == 0 && p.running_spec() == size,
    {
        if size == 0 {
            Err(PoolError::ConstructionError)
        } else {
            Ok(PoolCore { size, shut_down: false, joined: 0 })
        }
    }

    pub fn size(&self) -> (r: usize)
        ensures
            r == self.size_spec(),
    {
        self.size
    }

    pub fn is_shut_down(&self) -> (r: bool)
        ensures
            r == self.is_shut_down_spec(),
    {
        self.shut_down
    }

    /// The number of worker threads not joined yet.
    pub fn running(&self) -> (r: usize)
        requires
            self.wf(),
        ensures
            r == self.running_spec(),
    {
        self.size - self.joined
    }

    /// The identifiers of the workers, `0` to `size - 1`: one thread is
    /// started for each.
    pub fn worker_ids(&self) -> (r: Vec<usize>)
        ensures
            r@ == id_range(self.size_spec()),
    {
        let mut ids: Vec<usize> = Vec::new();
        let mut i: usize = 0;
        while i < self.size
            invariant
                i <= self.size,
                ids@ == id_range(i as nat),
            decreases self.size - i,
        {
            ids.push(i);
            i = i + 1;
            assert(ids@ =~= id_range(i as nat));
        }
        ids
    }

    /// Puts `job` at the back of the queue. Refused, with the queue left as
    /// it was, once shutdown has begun or when the queue is closed.
    pub fn submit<J>(&self, queue: &mut JobQueue<Message<J>>, job: J) -> (r: Result<
        (),
        PoolError,
    >)
        requires
            old(queue).wf(),
        ensures
            final(queue).wf(),
            final(queue).is_closed_spec() == old(queue).is_closed_spec(),
            final(queue).taken_items() == old(queue).taken_items(),
            (self.is_shut_down_spec() || old(queue).is_closed_spec()) ==> r == Err::<
                (),
                PoolError,
            >(PoolError::SubmissionRejected) && final(queue)@ == old(queue)@
                && final(queue).sent_items() == old(queue).sent_items(),
            !(self.is_shut_down_spec() || old(queue).is_closed_spec()) ==> r is Ok
                && final(queue)@ == old(queue)@.push(Message::NewJob(job))
                && final(queue).sent_items() == old(queue).sent_items().push(
                Message::NewJob(job),
            ),
    {
        if self.shut_down {
            return Err(PoolError::SubmissionRejected);
        }
        match queue.send(Message::NewJob(job)) {
            Ok(()) => Ok(()),
            Err(_) => Err(PoolError::SubmissionRejected),
        }
    }

    /// Begins shutdown: puts one terminate message per worker behind the
    /// pending jobs, closes the queue, and returns the workers to join, in
    /// order. A second call changes nothing and returns no worker.
    pub fn shutdown<J>(&mut self, queue: &mut JobQueue<Message<J>>) -> (plan: Vec<usize>)
        requires
            old(self).wf(),
            old(queue).wf(),
        ensures
            final(self).wf(),
            final(self).is_shut_down_spec(),
            final(self).size_spec() == old(self).size_spec(),
            final(self).joined_spec() == old(self).joined_spec(),
            final(queue).wf(),
            final(queue).taken_items() == old(queue).taken_items(),
            old(self).is_shut_down_spec() ==> plan@ == Seq::<usize>::empty()
                && final(queue)@ == old(queue)@
                && final(queue).is_closed_spec() == old(queue).is_closed_spec()
                && final(queue).sent_items() == old(queue).sent_items(),
            !old(self).is_shut_down_spec() ==> plan@ == id_range(old(self).size_spec())
                && final(queue).is_closed_spec(),
            !old(self).is_shut_down_spec() && !old(queue).is_closed_spec() ==> final(queue)@
                == old(queue)@ + terminates::<J>(old(self).size_spec())
                && final(queue).sent_items() == old(queue).sent_items() + terminates::<J>(
                old(self).size_spec(),
            ),
            !old(self).is_shut_down_spec() && old(queue).is_closed_spec() ==> final(queue)@
                == old(queue)@ && final(queue).sent_items() == old(queue).sent_items(),
    {
        if self.shut_down {
            return Vec::new();
        }
        let ghost q0 = queue@;
        let ghost s0 = queue.sent_items();
        if !queue.is_closed() {
            let mut i: usize = 0;
            while i < self.size
                invariant
                    i <= self.size,
                    queue.wf(),
                    !queue.is_closed_spec(),
                    queue.taken_items() == old(queue).taken_items(),
                    queue@ == q0 + terminates::<J>(i as nat),
                    queue.sent_items() == s0 + terminates::<J>(i as nat),
                decreases self.size - i,
            {
                let _ = queue.send(Message::Terminate);
                i = i + 1;
                assert(queue@ =~= q0 + terminates::<J>(i as nat));
                assert(queue.sent_items() =~= s0 + terminates::<J>(i as nat));
            }
        }
        queue.close();
        self.shut_down = true;
        self.worker_ids()
    }

    /// Records that worker `id`, the next one in the order `shutdown` gave,
    /// has been joined.
    pub fn record_joined(&mut self, id: usize)
        requires
            old(self).wf(),
            old(self).is_shut_down_spec(),
            id == old(self).joined_spec(),
            id < old(self).size_spec(),
        ensures
            final(self).wf(),
            final(self).is_shut_down_spec(),
            final(self).size_spec() == old(self).size_spec(),
            final(self).joined_spec() == old(self).joined_spec() + 1,
            final(self).running_spec() == old(self).running_spec() - 1,
    {
        self.joined = self.joined + 1;
    }
}

/// A pool constructed with `size` workers has exactly `size` running
/// workers, numbered `0` to `size - 1`.
pub proof fn lemma_construct_runs_all_workers(size: usize, p: PoolCore)
    requires
        size > 0,
        p.wf(),
        p.size_spec() == size,
        p.joined_spec() == 0,
    ensures
        p.running_spec() == size,
        id_range(p.size_spec()).len() == size,
        forall|i: int| 0 <= i < size ==> #[trigger] id_range(p.size_spec())[i] == i,
{
}

/// Once every worker that `shutdown` handed out has been joined, in order,
/// no worker is running.
pub proof fn lemma_shutdown_then_joins_leaves_none_running(p: PoolCore, plan: Seq<usize>)
    requires
        p.wf(),
        p.is_shut_down_spec(),
        plan == id_range(p.size_spec()),
        p.joined_spec() == plan.len(),
    ensures
        p.running_spec() == 0,
{
}

/// The messages that submitting the jobs `js`, in order, puts in the queue.
pub open spec fn new_jobs<J>(js: Seq<J>) -> Seq<Message<J>> {
    js.map_values(|j: J| Message::NewJob(j))
}

proof fn lemma_jobs_of_append<J>(a: Seq<Message<J>>, b: Seq<Message<J>>)
    ensures
        jobs_of(a + b) == jobs_of(a) + jobs_of(b),
    decreases b.len(),
{
    if b.len() == 0 {
        assert(a + b =~= a);
        assert(jobs_of(a) + jobs_of(b) =~= jobs_of(a));
    } else {
        lemma_jobs_of_append(a, b.drop_last());
        assert((a + b).drop_last() =~= a + b.drop_last());
        assert((a + b).last() == b.last());
        match b.last() {
            Message::NewJob(j) => {
                assert(jobs_of(a) + jobs_of(b.drop_last()).push(j) =~= (jobs_of(a) + jobs_of(
                    b.drop_last(),
                )).push(j));
            },
            Message::Terminate => {},
        }
    }
}

proof fn lemma_jobs_of_new_jobs<J>(js: Seq<J>)
    ensures
        jobs_of(new_jobs(js)) == js,
    decreases js.len(),
{
    if js.len() > 0 {
        lemma_jobs_of_new_jobs(js.drop_last());
        assert(new_jobs(js).drop_last() =~= new_jobs(js.drop_last()));
        assert(js.drop_last().push(js.last()) =~= js);
    } else {
        assert(new_jobs(js) =~= Seq::<Message<J>>::empty());
    }
}

proof fn lemma_jobs_of_terminates<J>(n: nat)
    ensures
        jobs_of(terminates::<J>(n)) == Seq::<J>::empty(),
    decreases n,
{
    if n > 0 {
        lemma_jobs_of_terminates::<J>((n - 1) as nat);
        assert(terminates::<J>(n).drop_last() =~= terminates::<J>((n - 1) as nat));
    }
}

/// Every submitted job runs exactly once: when the jobs `submitted` were
/// submitted, in order, and shutdown followed, then once nothing is pending
/// the jobs that the workers took off the queue are exactly `submitted`,
/// each once and in the order of submission, however many workers there are.
pub proof fn lemma_every_job_runs_once<J>(q: &JobQueue<Message<J>>, submitted: Seq<J>, n: nat)
    requires
        q.wf(),
        q@.len() == 0,
        q.sent_items() == new_jobs(submitted) + terminates::<J>(n),
    ensures
        jobs_of(q.taken_items()) == submitted,
        jobs_of(q.taken_items()).len() == submitted.len(),
{
    lemma_delivered_exactly_once(q);
    lemma_jobs_of_append(new_jobs(submitted), terminates::<J>(n));
    lemma_jobs_of_new_jobs(submitted);
    lemma_jobs_of_terminates::<J>(n);
    assert(submitted + Seq::<J>::empty() =~= submitted);
}

} // verus!
