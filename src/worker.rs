//! One worker's receive-execute loop, as a state machine.
//!
//! The thread that runs a worker asks `step` for its next action while it
//! holds the queue's lock, releases the lock, and then performs the action:
//! it runs the job and reports back with `job_finished`, waits for the queue
//! to change, or leaves its loop.
use crate::queue::{JobQueue, Received};
use vstd::prelude::*;

verus! {

/// What flows through the pool's queue.
pub enum Message<J> {
    /// A job to run exactly once.
    NewJob(J),
    /// Tells the worker that takes it to leave its loop.
    Terminate,
}

/// The jobs that a sequence of messages carries, in order.
pub open spec fn jobs_of<J>(ms: Seq<Message<J>>) -> Seq<J>
    decreases ms.len(),
{
    if ms.len() == 0 {
        Seq::empty()
    } else {
        let rest = jobs_of(ms.drop_last());
        match ms.last() {
            Message::NewJob(j) => rest.push(j),
            Message::Terminate => rest,
        }
    }
}

#[derive(PartialEq, Eq, Structural, Debug, Clone, Copy)]
pub enum WorkerState {
    /// Waiting for a message.
    Idle,
    /// Running a job it has taken.
    Executing,
    /// Out of its loop; it reads no further messages.
    Terminated,
}

/// What the worker's thread does next.
pub enum WorkerAction<J> {
    /// Run this job, then call `job_finished`.
    Run(J),
    /// Nothing pending: wait until the queue changes, then step again.
    Wait,
    /// Leave the loop; the thread ends.
    Exit,
}

pub struct Worker {
    id: usize,
    state: WorkerState,
}

impl Worker {
    pub closed spec fn id_spec(&self) -> usize {
        self.id
    }

    pub closed spec fn state_spec(&self) -> WorkerState {
        self.state
    }

    /// A worker starts out idle.
    pub fn new(id: usize) -> (w: Worker)
        ensures
            w.id_spec() == id,
            w.state_spec() == WorkerState::Idle,
    {
        Worker { id, state: WorkerState::Idle }
    }

    pub fn id(&self) -> (r: usize)
        ensures
            r == self.id_spec(),
    {
        self.id
    }

    pub fn state(&self) -> (r: WorkerState)
        ensures
            r == self.state_spec(),
    {
        self.state
    }

    /// Reacts to the outcome of one receive: a job is run, a terminate
    /// message or a closed queue ends the loop, an empty queue means waiting.
    pub fn on_receive<J>(&mut self, r: Received<Message<J>>) -> (a: WorkerAction<J>)
        requires
            old(self).state_spec() == WorkerState::Idle,
        ensures
            final(self).id_spec() == old(self).id_spec(),
            match r {
                Received::Item(Message::NewJob(j)) => a == WorkerAction::Run(j)
                    && final(self).state_spec() == WorkerState::Executing,
                Received::Item(Message::Terminate) => a == WorkerAction::<J>::Exit
                    && final(self).state_spec() == WorkerState::Terminated,
                Received::Closed => a == WorkerAction::<J>::Exit
                    && final(self).state_spec() == WorkerState::Terminated,
                Received::Empty => a == WorkerAction::<J>::Wait
                    && final(self).state_spec() == WorkerState::Idle,
            },
    {
        match r {
            Received::Item(Message::NewJob(j)) => {
                self.state = WorkerState::Executing;
                WorkerAction::Run(j)
            },
            Received::Item(Message::Terminate) => {
                self.state = WorkerState::Terminated;
                WorkerAction::Exit
            },
            Received::Closed => {
                self.state = WorkerState::Terminated;
                WorkerAction::Exit
            },
            Received::Empty => WorkerAction::Wait,
        }
    }

    /// Takes the next message off the shared queue and decides what to do
    /// with it. This is the whole critical section of a worker: it never
    /// runs a job while it holds the queue.
    pub fn step<J>(&mut self, queue: &mut JobQueue<Message<J>>) -> (a: WorkerAction<J>)
        requires
            old(self).state_spec() == WorkerState::Idle,
            old(queue).wf(),
        ensures
            final(queue).wf(),
            final(queue).is_closed_spec() == old(queue).is_closed_spec(),
            final(queue).sent_items() == old(queue).sent_items(),
            final(self).id_spec() == old(self).id_spec(),
            old(queue)@.len() > 0 ==> final(queue)@ == old(queue)@.drop_first()
                && final(queue).taken_items() == old(queue).taken_items().push(old(queue)@[0])
                && match old(queue)@[0] {
                    Message::NewJob(j) => a == WorkerAction::Run(j)
                        && final(self).state_spec() == WorkerState::Executing,
                    Message::Terminate => a == WorkerAction::<J>::Exit
                        && final(self).state_spec() == WorkerState::Terminated,
                },
            old(queue)@.len() == 0 ==> final(queue)@ == old(queue)@
                && final(queue).taken_items() == old(queue).taken_items()
                && (old(queue).is_closed_spec() ==> a == WorkerAction::<J>::Exit
                    && final(self).state_spec() == WorkerState::Terminated)
                && (!old(queue).is_closed_spec() ==> a == WorkerAction::<J>::Wait
                    && final(self).state_spec() == WorkerState::Idle),
    {
        let r = queue.try_receive();
        self.on_receive(r)
    }

    /// The job that was running has ended, whether it completed or failed:
    /// a failed job is contained here and the worker is idle again.
    pub fn job_finished(&mut self)
        requires
            old(self).state_spec() == WorkerState::Executing,
        ensures
            final(self).id_spec() == old(self).id_spec(),
            final(self).state_spec() == WorkerState::Idle,
    {
        self.state = WorkerState::Idle;
    }
}

} // verus!
