//! The mathematical model of the pool: its abstract state and the atomic
//! steps that producers, workers and the owner can take on it.
//!
//! Every operation on the pool is one step of this state machine, so a
//! statement proved for every sequence of steps holds for every interleaving
//! of producer and worker activity.

use vstd::prelude::*;

verus! {

/// What travels through the job queue.
pub enum Message<J> {
    /// A job to be run by whichever worker dequeues it.
    NewJob(J),
    /// Tells exactly one worker to stop dequeuing and exit.
    Terminate,
}

/// Where a worker stands in its life cycle.
#[derive(Clone, Copy, Debug, PartialEq, Eq, Structural)]
pub enum WorkerState {
    /// Waiting to dequeue.
    Idle,
    /// Busy with a job.
    Running,
    /// Has consumed its `Terminate`; never dequeues again.
    Exited,
}

/// How the execution of a job ended.
#[derive(Clone, Copy, Debug, PartialEq, Eq, Structural)]
pub enum JobOutcome {
    Completed,
    Failed,
}

/// What a worker has to do after a dequeue.
pub enum Action<J> {
    /// Run the job, then report its outcome.
    Run(J),
    /// Leave the worker loop.
    Exit,
}

/// The bookkeeping record of one worker.
#[derive(Clone, Copy, Debug)]
pub struct Worker {
    pub id: usize,
    pub state: WorkerState,
}

/// One atomic step on the pool.
pub enum Event<J> {
    /// A producer submits a job.
    Submit(J),
    /// The owner starts shutting the pool down.
    Shutdown,
    /// The worker with this index tries to dequeue.
    Receive(int),
    /// The worker with this index reports the end of its job.
    Complete(int, JobOutcome),
}

/// The abstract state of a pool.
pub struct PoolView<J> {
    /// Messages not yet dequeued, oldest first.
    pub queue: Seq<Message<J>>,
    /// One record per worker, fixed at construction.
    pub workers: Seq<Worker>,
    /// Whether submissions are still accepted.
    pub accepting: bool,
}

/// `n` termination signals in a row.
pub open spec fn terminates<J>(n: nat) -> Seq<Message<J>> {
    Seq::new(n, |i: int| Message::Terminate)
}

/// The jobs carried by a sequence of messages, in order.
pub open spec fn jobs<J>(queue: Seq<Message<J>>) -> Seq<J>
    decreases queue.len(),
{
    if queue.len() == 0 {
        Seq::empty()
    } else {
        match queue.last() {
            Message::NewJob(job) => jobs(queue.drop_last()).push(job),
            Message::Terminate => jobs(queue.drop_last()),
        }
    }
}

/// How many of the messages are termination signals.
pub open spec fn terminate_count<J>(queue: Seq<Message<J>>) -> nat
    decreases queue.len(),
{
    if queue.len() == 0 {
        0
    } else {
        terminate_count(queue.drop_last()) + if queue.last() is Terminate {
            1nat
        } else {
            0nat
        }
    }
}

/// How many of the workers are in `state`.
pub open spec fn count_in_state(workers: Seq<Worker>, state: WorkerState) -> nat
    decreases workers.len(),
{
    if workers.len() == 0 {
        0
    } else {
        count_in_state(workers.drop_last(), state) + if workers.last().state == state {
            1nat
        } else {
            0nat
        }
    }
}

impl<J> PoolView<J> {
    /// A fresh pool of `size` idle workers and an empty queue.
    pub open spec fn init(size: usize) -> Self {
        PoolView {
            queue: Seq::empty(),
            workers: Seq::new(
                size as nat,
                |i: int| Worker { id: i as usize, state: WorkerState::Idle },
            ),
            accepting: true,
        }
    }

    /// The number of workers.
    pub open spec fn size(self) -> nat {
        self.workers.len()
    }

    /// The state after a producer offers `job`: enqueued while the pool
    /// accepts work, refused without any change afterwards.
    pub open spec fn submit(self, job: J) -> Self {
        if self.accepting {
            PoolView { queue: self.queue.push(Message::NewJob(job)), ..self }
        } else {
            self
        }
    }

    /// The state after the owner asks for shutdown: the first request appends
    /// one `Terminate` per worker and closes the pool, later ones do nothing.
    pub open spec fn shutdown(self) -> Self {
        if self.accepting {
            PoolView {
                queue: self.queue + terminates(self.workers.len()),
                accepting: false,
                ..self
            }
        } else {
            self
        }
    }

    /// The workers whose threads the caller of `shutdown` has to join.
    pub open spec fn to_join(self) -> Seq<usize> {
        if self.accepting {
            Seq::new(self.workers.len(), |i: int| self.workers[i].id)
        } else {
            Seq::empty()
        }
    }

    /// Whether worker `id` can dequeue now: it exists, is idle, and the queue
    /// holds a message.
    pub open spec fn can_receive(self, id: int) -> bool {
        &&& 0 <= id < self.workers.len()
        &&& self.workers[id].state == WorkerState::Idle
        &&& self.queue.len() > 0
    }

    /// What worker `id` is told to do when it tries to dequeue; `None` where
    /// it has to keep waiting.
    pub open spec fn action_for(self, id: int) -> Option<Action<J>> {
        if self.can_receive(id) {
            Some(
                match self.queue[0] {
                    Message::NewJob(job) => Action::Run(job),
                    Message::Terminate => Action::Exit,
                },
            )
        } else {
            None
        }
    }

    /// The state after worker `id` tried to dequeue.
    pub open spec fn receive(self, id: int) -> Self {
        if self.can_receive(id) {
            let next = match self.queue[0] {
                Message::NewJob(_) => WorkerState::Running,
                Message::Terminate => WorkerState::Exited,
            };
            PoolView {
                queue: self.queue.drop_first(),
                workers: self.workers.update(id, Worker { id: self.workers[id].id, state: next }),
                ..self
            }
        } else {
            self
        }
    }

    /// Whether worker `id` is running a job whose end it can report.
    pub open spec fn can_complete(self, id: int) -> bool {
        &&& 0 <= id < self.workers.len()
        &&& self.workers[id].state == WorkerState::Running
    }

    /// The state after worker `id` reported the end of its job. The outcome
    /// plays no part: a failed job leaves the worker as ready as a
    /// successful one.
    pub open spec fn complete(self, id: int) -> Self {
        if self.can_complete(id) {
            PoolView {
                workers: self.workers.update(
                    id,
                    Worker { id: self.workers[id].id, state: WorkerState::Idle },
                ),
                ..self
            }
        } else {
            self
        }
    }

    /// The state after one event.
    pub open spec fn step(self, event: Event<J>) -> Self {
        match event {
            Event::Submit(job) => self.submit(job),
            Event::Shutdown => self.shutdown(),
            Event::Receive(id) => self.receive(id),
            Event::Complete(id, _) => self.complete(id),
        }
    }

    /// The state after a whole trace of events, taken in order.
    pub open spec fn run(self, trace: Seq<Event<J>>) -> Self
        decreases trace.len(),
    {
        if trace.len() == 0 {
            self
        } else {
            self.run(trace.drop_last()).step(trace.last())
        }
    }

    /// The jobs that the trace got accepted, in submission order.
    pub open spec fn accepted(self, trace: Seq<Event<J>>) -> Seq<J>
        decreases trace.len(),
    {
        if trace.len() == 0 {
            Seq::empty()
        } else {
            let before = self.accepted(trace.drop_last());
            match trace.last() {
                Event::Submit(job) => if self.run(trace.drop_last()).accepting {
                    before.push(job)
                } else {
                    before
                },
                _ => before,
            }
        }
    }

    /// The jobs that the trace handed to workers, each with the index of the
    /// worker that got it, in the order of the hand-overs.
    pub open spec fn started(self, trace: Seq<Event<J>>) -> Seq<(int, J)>
        decreases trace.len(),
    {
        if trace.len() == 0 {
            Seq::empty()
        } else {
            let before = self.started(trace.drop_last());
            match trace.last() {
                Event::Receive(id) => match self.run(trace.drop_last()).action_for(id) {
                    Some(Action::Run(job)) => before.push((id, job)),
                    _ => before,
                },
                _ => before,
            }
        }
    }

    /// How many jobs the trace saw through to their end.
    pub open spec fn finished(self, trace: Seq<Event<J>>) -> nat
        decreases trace.len(),
    {
        if trace.len() == 0 {
            0
        } else {
            let before = self.finished(trace.drop_last());
            match trace.last() {
                Event::Complete(id, _) => if self.run(trace.drop_last()).can_complete(id) {
                    before + 1
                } else {
                    before
                },
                _ => before,
            }
        }
    }

    /// Whether every worker has exited.
    pub open spec fn all_exited(self) -> bool {
        forall|i: int| 0 <= i < self.workers.len() ==> (#[trigger] self.workers[i]).state
            == WorkerState::Exited
    }

    /// What holds of every state a pool can reach.
    ///
    /// There is at least one worker and worker `i` carries id `i`. While the
    /// pool accepts work no `Terminate` is queued and nobody has exited.
    /// Afterwards the queued `Terminate`s and the exited workers together
    /// number exactly the pool's size, the `Terminate`s stand behind all
    /// queued jobs, and once a worker has exited no job is left in the queue.
    pub open spec fn inv(self) -> bool {
        &&& self.workers.len() > 0
        &&& forall|i: int| 0 <= i < self.workers.len() ==> (#[trigger] self.workers[i]).id == i
        &&& terminate_count(self.queue) + count_in_state(self.workers, WorkerState::Exited) == (
        if self.accepting {
            0
        } else {
            self.workers.len()
        })
        &&& forall|i: int, j: int|
            0 <= i <= j < self.queue.len() && (#[trigger] self.queue[i]) is Terminate ==> (
            #[trigger] self.queue[j]) is Terminate
        &&& count_in_state(self.workers, WorkerState::Exited) > 0 ==> jobs(self.queue).len() == 0
    }

    /// An upper bound on the worker steps that can still take effect when no
    /// further job arrives.
    pub open spec fn work_left(self) -> nat {
        2 * self.queue.len() + count_in_state(self.workers, WorkerState::Running)
    }
}

} // verus!
