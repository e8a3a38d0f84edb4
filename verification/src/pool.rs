//! A fixed-size pool of workers fed through one FIFO job queue.
//!
//! The pool keeps the queue and one record per worker. Producers call
//! [`ThreadPool::execute`], each worker loops over [`ThreadPool::receive`] and
//! [`ThreadPool::complete`], and the owner ends the pool with
//! [`ThreadPool::shutdown`]. Each of these is one atomic step of the state
//! machine in [`model`]; callers that share a pool between threads take a lock
//! around each call.

pub mod laws;
pub mod model;

use std::collections::VecDeque;
use vstd::prelude::*;
use crate::pool::laws::{lemma_new_pool, lemma_step_keeps_invariant};
use crate::pool::model::{
    Action, Event, JobOutcome, Message, PoolView, Worker, WorkerState, terminates,
};

verus! {

/// A job handed back because the pool no longer accepts work.
pub struct Rejected<J> {
    pub job: J,
}

impl Worker {
    /// The record of a worker that has just been started.
    pub fn new(id: usize) -> (worker: Worker)
        ensures
            worker.id == id,
            worker.state == WorkerState::Idle,
    {
        Worker { id, state: WorkerState::Idle }
    }

    /// Takes in the message this idle worker has just dequeued and says what
    /// to do with it: a job is to be run, a `Terminate` ends the worker.
    pub fn handle<J>(&mut self, message: Message<J>) -> (action: Action<J>)
        requires
            old(self).state == WorkerState::Idle,
        ensures
            final(self).id == old(self).id,
            match message {
                Message::NewJob(job) => action == Action::Run(job) && final(self).state
                    == WorkerState::Running,
                Message::Terminate => action == Action::<J>::Exit && final(self).state
                    == WorkerState::Exited,
            },
    {
        match message {
            Message::NewJob(job) => {
                self.state = WorkerState::Running;
                Action::Run(job)
            },
            Message::Terminate => {
                self.state = WorkerState::Exited;
                Action::Exit
            },
        }
    }

    /// Records the end of the running job, whatever its outcome, and makes
    /// the worker ready for the next message.
    #[allow(unused_variables)]
    pub fn finish(&mut self, outcome: JobOutcome)
        requires
            old(self).state == WorkerState::Running,
        ensures
            final(self).id == old(self).id,
            final(self).state == WorkerState::Idle,
    {
        self.state = WorkerState::Idle;
    }
}

/// The state of a pool of workers that run jobs of type `J`: the queue of
/// messages, the record of each worker, and whether jobs are still accepted.
///
/// Its view is the [`PoolView`] that the model and its laws speak of. A pool
/// that was made by [`ThreadPool::new`] and changed by its methods alone
/// satisfies [`PoolView::inv`].
pub struct ThreadPool<J> {
    queue: VecDeque<Message<J>>,
    workers: Vec<Worker>,
    accepting: bool,
}

impl<J> View for ThreadPool<J> {
    type V = PoolView<J>;

    closed spec fn view(&self) -> PoolView<J> {
        PoolView { queue: self.queue@, workers: self.workers@, accepting: self.accepting }
    }
}

impl<J> ThreadPool<J> {
    /// Creates a pool of `size` workers, numbered from zero, all idle, with
    /// an empty queue. `size` is the number of worker threads and must not
    /// be zero.
    pub fn new(size: usize) -> (pool: ThreadPool<J>)
        requires
            size > 0,
        ensures
            pool@ == PoolView::<J>::init(size),
            pool@.inv(),
    {
        let mut workers: Vec<Worker> = Vec::with_capacity(size);
        let mut id: usize = 0;
        while id < size
            invariant
                id <= size,
                workers@.len() == id,
                forall|i: int|
                    0 <= i < id ==> workers@[i] == (Worker {
                        id: i as usize,
                        state: WorkerState::Idle,
                    }),
            decreases size - id,
        {
            workers.push(Worker::new(id));
            id += 1;
        }
        let pool = ThreadPool { queue: VecDeque::new(), workers, accepting: true };
        assert(pool@.workers =~= PoolView::<J>::init(size).workers);
        assert(pool@.queue =~= PoolView::<J>::init(size).queue);
        proof {
            lemma_new_pool::<J>(size);
        }
        pool
    }

    /// Enqueues `job` behind everything submitted before it. Once shutdown
    /// has begun the job is handed back instead, and nothing changes.
    pub fn execute(&mut self, job: J) -> (result: Result<(), Rejected<J>>)
        ensures
            final(self)@ == old(self)@.submit(job),
            old(self)@.inv() ==> final(self)@.inv(),
            old(self)@.accepting ==> result is Ok,
            !old(self)@.accepting ==> result == Err::<(), Rejected<J>>(Rejected { job }),
    {
        proof {
            if self@.inv() {
                lemma_step_keeps_invariant(self@, Event::Submit(job));
            }
        }
        if self.accepting {
            self.queue.push_back(Message::NewJob(job));
            Ok(())
        } else {
            Err(Rejected { job })
        }
    }

    /// Begins shutdown and names the workers to wait for.
    ///
    /// The first call closes the pool, enqueues one `Terminate` per worker
    /// behind the jobs already accepted, and returns every worker's id: the
    /// caller joins those threads, after this call has returned. Any later
    /// call changes nothing and returns no id, so that no thread is joined
    /// twice.
    pub fn shutdown(&mut self) -> (to_join: Vec<usize>)
        ensures
            final(self)@ == old(self)@.shutdown(),
            old(self)@.inv() ==> final(self)@.inv(),
            to_join@ == old(self)@.to_join(),
    {
        proof {
            if self@.inv() {
                lemma_step_keeps_invariant(self@, Event::Shutdown);
            }
        }
        let mut to_join: Vec<usize> = Vec::new();
        if self.accepting {
            let count = self.workers.len();
            let mut sent: usize = 0;
            while sent < count
                invariant
                    sent <= count,
                    count == self.workers@.len(),
                    self.workers@ == old(self).workers@,
                    self.accepting == old(self).accepting,
                    self.queue@ == old(self).queue@ + terminates::<J>(sent as nat),
                decreases count - sent,
            {
                self.queue.push_back(Message::Terminate);
                sent += 1;
                assert(self.queue@ =~= old(self).queue@ + terminates::<J>(sent as nat));
            }
            let mut index: usize = 0;
            while index < count
                invariant
                    index <= count,
                    count == self.workers@.len(),
                    self.workers@ == old(self).workers@,
                    self.accepting == old(self).accepting,
                    self.queue@ == old(self).queue@ + terminates::<J>(count as nat),
                    to_join@.len() == index,
                    forall|i: int| 0 <= i < index ==> to_join@[i] == self.workers@[i].id,
                decreases count - index,
            {
                to_join.push(self.workers[index].id);
                index += 1;
            }
            self.accepting = false;
            assert(to_join@ =~= old(self)@.to_join());
        }
        to_join
    }

    /// Lets worker `id` try to dequeue one message.
    ///
    /// An idle worker facing a non-empty queue takes the oldest message:
    /// a job makes it `Running` and comes back as `Action::Run`, a
    /// `Terminate` makes it `Exited` and comes back as `Action::Exit`. In
    /// every other case (no such worker, a worker that is busy or has exited,
    /// an empty queue) nothing changes and the answer is `None`.
    pub fn receive(&mut self, id: usize) -> (action: Option<Action<J>>)
        ensures
            final(self)@ == old(self)@.receive(id as int),
            old(self)@.inv() ==> final(self)@.inv(),
            action == old(self)@.action_for(id as int),
    {
        proof {
            if self@.inv() {
                lemma_step_keeps_invariant(self@, Event::Receive(id as int));
            }
        }
        if id >= self.workers.len() {
            return None;
        }
        let mut worker = self.workers[id];
        if worker.state != WorkerState::Idle {
            return None;
        }
        match self.queue.pop_front() {
            None => None,
            Some(message) => {
                let action = worker.handle(message);
                self.workers.set(id, worker);
                assert(self.queue@ =~= old(self).queue@.drop_first());
                Some(action)
            },
        }
    }

    /// Records that worker `id` has come to the end of its job and returns
    /// whether there was such a job.
    ///
    /// A running worker becomes idle again whether the job completed or
    /// failed; the queue and the other workers are untouched. For any other
    /// `id` nothing changes.
    pub fn complete(&mut self, id: usize, outcome: JobOutcome) -> (done: bool)
        ensures
            final(self)@ == old(self)@.complete(id as int),
            old(self)@.inv() ==> final(self)@.inv(),
            done == old(self)@.can_complete(id as int),
    {
        proof {
            if self@.inv() {
                lemma_step_keeps_invariant(self@, Event::Complete(id as int, outcome));
            }
        }
        if id >= self.workers.len() {
            return false;
        }
        let mut worker = self.workers[id];
        if worker.state != WorkerState::Running {
            return false;
        }
        worker.finish(outcome);
        self.workers.set(id, worker);
        true
    }

    /// The number of workers.
    pub fn size(&self) -> (n: usize)
        ensures
            n == self@.size(),
    {
        self.workers.len()
    }

    /// The number of messages waiting in the queue.
    pub fn pending(&self) -> (n: usize)
        ensures
            n == self@.queue.len(),
    {
        self.queue.len()
    }

    /// Whether the pool still accepts jobs.
    pub fn is_accepting(&self) -> (b: bool)
        ensures
            b == self@.accepting,
    {
        self.accepting
    }

    /// The state of worker `id`, if there is one.
    pub fn worker_state(&self, id: usize) -> (state: Option<WorkerState>)
        ensures
            state == if id < self@.workers.len() {
                Some(self@.workers[id as int].state)
            } else {
                None
            },
    {
        if id < self.workers.len() {
            Some(self.workers[id].state)
        } else {
            None
        }
    }

    /// Whether every worker has exited, which is when joining them cannot
    /// block.
    pub fn all_exited(&self) -> (b: bool)
        ensures
            b == self@.all_exited(),
    {
        let mut index: usize = 0;
        while index < self.workers.len()
            invariant
                index <= self.workers@.len(),
                forall|i: int|
                    0 <= i < index ==> (#[trigger] self.workers@[i]).state == WorkerState::Exited,
            decreases self.workers@.len() - index,
        {
            if self.workers[index].state != WorkerState::Exited {
                return false;
            }
            index += 1;
        }
        true
    }
}

} // verus!
