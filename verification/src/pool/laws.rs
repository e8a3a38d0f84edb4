//! What holds of every pool, proved over the model: the laws that producers,
//! workers and the owner of a pool can rely on whatever the interleaving of
//! their steps.

use vstd::prelude::*;
use crate::pool::model::{
    Action, Event, JobOutcome, Message, PoolView, Worker, WorkerState, count_in_state, jobs,
    terminate_count, terminates,
};

verus! {

proof fn lemma_jobs_push<J>(queue: Seq<Message<J>>, message: Message<J>)
    ensures
        jobs(queue.push(message)) == match message {
            Message::NewJob(job) => jobs(queue).push(job),
            Message::Terminate => jobs(queue),
        },
        terminate_count(queue.push(message)) == terminate_count(queue) + if message is Terminate {
            1nat
        } else {
            0nat
        },
{
    assert(queue.push(message).drop_last() =~= queue);
}

proof fn lemma_queue_add_terminates<J>(queue: Seq<Message<J>>, n: nat)
    ensures
        jobs(queue + terminates::<J>(n)) == jobs(queue),
        terminate_count(queue + terminates::<J>(n)) == terminate_count(queue) + n,
    decreases n,
{
    if n == 0 {
        assert(queue + terminates::<J>(n) =~= queue);
    } else {
        let shorter = queue + terminates::<J>((n - 1) as nat);
        lemma_queue_add_terminates(queue, (n - 1) as nat);
        assert(queue + terminates::<J>(n) =~= shorter.push(Message::Terminate));
        lemma_jobs_push(shorter, Message::Terminate);
    }
}

proof fn lemma_queue_drop_first<J>(queue: Seq<Message<J>>)
    requires
        queue.len() > 0,
    ensures
        jobs(queue) == match queue[0] {
            Message::NewJob(job) => seq![job] + jobs(queue.drop_first()),
            Message::Terminate => jobs(queue.drop_first()),
        },
        terminate_count(queue) == terminate_count(queue.drop_first()) + if queue[0] is Terminate {
            1nat
        } else {
            0nat
        },
    decreases queue.len(),
{
    if queue.len() == 1 {
        assert(queue.drop_first() =~= Seq::<Message<J>>::empty());
        assert(queue.drop_last() =~= Seq::<Message<J>>::empty());
        match queue[0] {
            Message::NewJob(job) => {
                assert(jobs(queue) =~= seq![job] + jobs(queue.drop_first()));
            },
            Message::Terminate => {},
        }
    } else {
        let front = queue.drop_last();
        lemma_queue_drop_first(front);
        assert(front.drop_first() =~= queue.drop_first().drop_last());
        assert(queue.drop_first().last() == queue.last());
        assert(front[0] == queue[0]);
        match queue[0] {
            Message::NewJob(job) => {
                match queue.last() {
                    Message::NewJob(last) => {
                        assert(jobs(queue) =~= seq![job] + jobs(queue.drop_first()));
                    },
                    Message::Terminate => {},
                }
            },
            Message::Terminate => {},
        }
    }
}

proof fn lemma_queue_len<J>(queue: Seq<Message<J>>)
    ensures
        queue.len() == jobs(queue).len() + terminate_count(queue),
    decreases queue.len(),
{
    if queue.len() > 0 {
        lemma_queue_len(queue.drop_last());
    }
}

proof fn lemma_no_terminate<J>(queue: Seq<Message<J>>)
    requires
        terminate_count(queue) == 0,
    ensures
        forall|i: int| 0 <= i < queue.len() ==> !((#[trigger] queue[i]) is Terminate),
    decreases queue.len(),
{
    if queue.len() > 0 {
        lemma_no_terminate(queue.drop_last());
        assert forall|i: int| 0 <= i < queue.len() implies !((#[trigger] queue[i]) is Terminate) by {
            if i < queue.len() - 1 {
                assert(queue.drop_last()[i] == queue[i]);
            }
        }
    }
}

proof fn lemma_only_terminates<J>(queue: Seq<Message<J>>)
    requires
        forall|i: int| 0 <= i < queue.len() ==> (#[trigger] queue[i]) is Terminate,
    ensures
        jobs(queue).len() == 0,
    decreases queue.len(),
{
    if queue.len() > 0 {
        assert forall|i: int| 0 <= i < queue.drop_last().len() implies (
        #[trigger] queue.drop_last()[i]) is Terminate by {
            assert(queue.drop_last()[i] == queue[i]);
        }
        lemma_only_terminates(queue.drop_last());
        assert(queue.last() == queue[queue.len() - 1]);
    }
}

proof fn lemma_count_update(workers: Seq<Worker>, index: int, worker: Worker, state: WorkerState)
    requires
        0 <= index < workers.len(),
    ensures
        count_in_state(workers.update(index, worker), state) + (if workers[index].state == state {
            1nat
        } else {
            0nat
        }) == count_in_state(workers, state) + (if worker.state == state {
            1nat
        } else {
            0nat
        }),
    decreases workers.len(),
{
    let updated = workers.update(index, worker);
    if index == workers.len() - 1 {
        assert(updated.drop_last() =~= workers.drop_last());
    } else {
        lemma_count_update(workers.drop_last(), index, worker, state);
        assert(updated.drop_last() =~= workers.drop_last().update(index, worker));
    }
}

proof fn lemma_count_bounds(workers: Seq<Worker>, state: WorkerState)
    ensures
        count_in_state(workers, state) <= workers.len(),
        count_in_state(workers, state) == workers.len() <==> (forall|i: int|
            0 <= i < workers.len() ==> (#[trigger] workers[i]).state == state),
        count_in_state(workers, state) == 0 <==> (forall|i: int|
            0 <= i < workers.len() ==> (#[trigger] workers[i]).state != state),
    decreases workers.len(),
{
    if workers.len() > 0 {
        let front = workers.drop_last();
        lemma_count_bounds(front, state);
        assert(forall|i: int| 0 <= i < front.len() ==> front[i] == workers[i]);
        if count_in_state(workers, state) == workers.len() {
            assert forall|i: int| 0 <= i < workers.len() implies (#[trigger] workers[i]).state
                == state by {
                if i < front.len() {
                    assert(front[i] == workers[i]);
                }
            }
        }
        if count_in_state(workers, state) == 0 {
            assert forall|i: int| 0 <= i < workers.len() implies (#[trigger] workers[i]).state
                != state by {
                if i < front.len() {
                    assert(front[i] == workers[i]);
                }
            }
        }
        if forall|i: int| 0 <= i < workers.len() ==> (#[trigger] workers[i]).state == state {
            assert forall|i: int| 0 <= i < front.len() implies (#[trigger] front[i]).state
                == state by {
                assert(front[i] == workers[i]);
            }
            assert(workers.last() == workers[workers.len() - 1]);
        }
        if forall|i: int| 0 <= i < workers.len() ==> (#[trigger] workers[i]).state != state {
            assert forall|i: int| 0 <= i < front.len() implies (#[trigger] front[i]).state
                != state by {
                assert(front[i] == workers[i]);
            }
            assert(workers.last() == workers[workers.len() - 1]);
        }
    }
}

/// A new pool of `size` workers has exactly `size` workers, numbered from
/// zero in order, every one of them idle and so able to take a job; its queue
/// is empty, it accepts work, and it satisfies the pool invariant.
pub proof fn lemma_new_pool<J>(size: usize)
    requires
        size > 0,
    ensures
        PoolView::<J>::init(size).size() == size,
        forall|i: int|
            0 <= i < size ==> (#[trigger] PoolView::<J>::init(size).workers[i]) == (Worker {
                id: i as usize,
                state: WorkerState::Idle,
            }),
        PoolView::<J>::init(size).queue.len() == 0,
        PoolView::<J>::init(size).accepting,
        PoolView::<J>::init(size).inv(),
{
    let pool = PoolView::<J>::init(size);
    lemma_count_bounds(pool.workers, WorkerState::Exited);
    assert(jobs(pool.queue).len() == 0);
}

/// No step changes the number of workers or any worker's id, and every step
/// keeps the pool invariant.
pub proof fn lemma_step_keeps_invariant<J>(pool: PoolView<J>, event: Event<J>)
    requires
        pool.inv(),
    ensures
        pool.step(event).inv(),
        pool.step(event).size() == pool.size(),
{
    let next = pool.step(event);
    let exited = WorkerState::Exited;
    match event {
        Event::Submit(job) => {
            if pool.accepting {
                lemma_jobs_push(pool.queue, Message::NewJob(job));
                lemma_no_terminate(pool.queue);
            }
        },
        Event::Shutdown => {
            if pool.accepting {
                lemma_queue_add_terminates(pool.queue, pool.workers.len());
                lemma_no_terminate(pool.queue);
            }
        },
        Event::Receive(id) => {
            if pool.can_receive(id) {
                lemma_queue_drop_first(pool.queue);
                let worker = next.workers[id];
                lemma_count_update(pool.workers, id, worker, exited);
                assert forall|i: int, j: int|
                    0 <= i <= j < next.queue.len() && (#[trigger] next.queue[i]) is Terminate implies (
                #[trigger] next.queue[j]) is Terminate by {
                    assert(next.queue[i] == pool.queue[i + 1]);
                    assert(next.queue[j] == pool.queue[j + 1]);
                }
                match pool.queue[0] {
                    Message::NewJob(_) => {},
                    Message::Terminate => {
                        assert forall|i: int| 0 <= i < next.queue.len() implies (
                        #[trigger] next.queue[i]) is Terminate by {
                            assert(next.queue[i] == pool.queue[i + 1]);
                        }
                        lemma_only_terminates(next.queue);
                    },
                }
            }
        },
        Event::Complete(id, _) => {
            if pool.can_complete(id) {
                let worker = next.workers[id];
                lemma_count_update(pool.workers, id, worker, exited);
            }
        },
    }
}

/// The pool invariant and the size hold after any trace of steps from a
/// state that satisfies the invariant.
pub proof fn lemma_run_keeps_invariant<J>(pool: PoolView<J>, trace: Seq<Event<J>>)
    requires
        pool.inv(),
    ensures
        pool.run(trace).inv(),
        pool.run(trace).size() == pool.size(),
    decreases trace.len(),
{
    if trace.len() > 0 {
        lemma_run_keeps_invariant(pool, trace.drop_last());
        lemma_step_keeps_invariant(pool.run(trace.drop_last()), trace.last());
    }
}

/// Exactly once, in order: after any trace on a new pool, the jobs handed to
/// workers followed by the jobs still queued are the accepted jobs in the
/// order of their submission.
///
/// So the `i`-th job handed to a worker is the `i`-th job accepted, whichever
/// producer submitted it and whichever worker got it: no accepted job is
/// lost, none is handed out twice, and the jobs that land on one worker reach
/// it in submission order.
pub proof fn lemma_exactly_once<J>(size: usize, trace: Seq<Event<J>>)
    requires
        size > 0,
    ensures
        ({
            let pool = PoolView::<J>::init(size);
            let started = pool.started(trace);
            let queued = jobs(pool.run(trace).queue);
            let accepted = pool.accepted(trace);
            &&& started.len() + queued.len() == accepted.len()
            &&& forall|i: int| 0 <= i < started.len() ==> (#[trigger] started[i]).1 == accepted[i]
            &&& forall|i: int|
                0 <= i < queued.len() ==> #[trigger] queued[i] == accepted[started.len() + i]
        }),
    decreases trace.len(),
{
    let pool = PoolView::<J>::init(size);
    if trace.len() > 0 {
        let before = trace.drop_last();
        let state = pool.run(before);
        lemma_exactly_once(size, before);
        match trace.last() {
            Event::Submit(job) => {
                lemma_jobs_push(state.queue, Message::NewJob(job));
            },
            Event::Shutdown => {
                lemma_queue_add_terminates(state.queue, state.workers.len());
            },
            Event::Receive(id) => {
                if state.can_receive(id) {
                    lemma_queue_drop_first(state.queue);
                    let queued = jobs(state.queue);
                    let rest = jobs(state.queue.drop_first());
                    match state.queue[0] {
                        Message::NewJob(job) => {
                            assert(queued[0] == job);
                            assert forall|i: int| 0 <= i < rest.len() implies #[trigger] rest[i]
                                == queued[i + 1] by {}
                        },
                        Message::Terminate => {},
                    }
                }
            },
            Event::Complete(_, _) => {},
        }
    }
}

/// Each worker sees its jobs in submission order: of two jobs handed to the
/// same worker, the one handed over first was submitted first. Both stand in
/// the sequence of accepted jobs at the positions at which they were handed
/// out.
pub proof fn lemma_worker_keeps_submission_order<J>(
    size: usize,
    trace: Seq<Event<J>>,
    earlier: int,
    later: int,
)
    requires
        size > 0,
        0 <= earlier < later < PoolView::<J>::init(size).started(trace).len(),
        PoolView::<J>::init(size).started(trace)[earlier].0 == PoolView::<J>::init(size).started(
            trace,
        )[later].0,
    ensures
        later < PoolView::<J>::init(size).accepted(trace).len(),
        PoolView::<J>::init(size).started(trace)[earlier].1 == PoolView::<J>::init(size).accepted(
            trace,
        )[earlier],
        PoolView::<J>::init(size).started(trace)[later].1 == PoolView::<J>::init(size).accepted(
            trace,
        )[later],
{
    lemma_exactly_once(size, trace);
}

/// No job runs twice: where the accepted jobs are pairwise distinct, so are
/// the jobs handed to workers, across all workers.
pub proof fn lemma_no_job_started_twice<J>(size: usize, trace: Seq<Event<J>>, a: int, b: int)
    requires
        size > 0,
        PoolView::<J>::init(size).accepted(trace).no_duplicates(),
        0 <= a < b < PoolView::<J>::init(size).started(trace).len(),
    ensures
        PoolView::<J>::init(size).started(trace)[a].1 != PoolView::<J>::init(size).started(
            trace,
        )[b].1,
{
    lemma_exactly_once(size, trace);
}

/// Every job a worker has started and is not running any more has been seen
/// through to its end: after any trace on a new pool, the finished jobs and
/// the running workers together number the started jobs.
pub proof fn lemma_started_jobs_finish<J>(size: usize, trace: Seq<Event<J>>)
    requires
        size > 0,
    ensures
        ({
            let pool = PoolView::<J>::init(size);
            pool.finished(trace) + count_in_state(pool.run(trace).workers, WorkerState::Running)
                == pool.started(trace).len()
        }),
    decreases trace.len(),
{
    let pool = PoolView::<J>::init(size);
    let running = WorkerState::Running;
    if trace.len() == 0 {
        lemma_count_bounds(pool.workers, running);
    } else {
        let before = trace.drop_last();
        let state = pool.run(before);
        lemma_started_jobs_finish(size, before);
        match trace.last() {
            Event::Receive(id) => {
                if state.can_receive(id) {
                    lemma_count_update(state.workers, id, state.receive(id).workers[id], running);
                }
            },
            Event::Complete(id, _) => {
                if state.can_complete(id) {
                    lemma_count_update(state.workers, id, state.complete(id).workers[id], running);
                }
            },
            _ => {},
        }
    }
}

/// Nothing is left behind: once every worker of a pool has exited, the queue
/// is empty, every accepted job has been handed to a worker, in submission
/// order, and every one of them has been seen through to its end.
pub proof fn lemma_all_done_when_all_exited<J>(size: usize, trace: Seq<Event<J>>)
    requires
        size > 0,
        PoolView::<J>::init(size).run(trace).all_exited(),
    ensures
        ({
            let pool = PoolView::<J>::init(size);
            &&& !pool.run(trace).accepting
            &&& pool.run(trace).queue.len() == 0
            &&& pool.started(trace).len() == pool.accepted(trace).len()
            &&& forall|i: int|
                0 <= i < pool.accepted(trace).len() ==> (#[trigger] pool.started(trace)[i]).1
                    == pool.accepted(trace)[i]
            &&& pool.finished(trace) == pool.accepted(trace).len()
        }),
{
    let pool = PoolView::<J>::init(size);
    let end = pool.run(trace);
    lemma_new_pool::<J>(size);
    lemma_run_keeps_invariant(pool, trace);
    lemma_count_bounds(end.workers, WorkerState::Exited);
    lemma_count_bounds(end.workers, WorkerState::Running);
    lemma_queue_len(end.queue);
    lemma_exactly_once(size, trace);
    lemma_started_jobs_finish(size, trace);
    assert(end.workers[0].state == WorkerState::Exited);
}

/// Shutdown cannot get stuck: in a pool that is shutting down and still has a
/// worker that has not exited, some worker can take a step, either finishing
/// its job or dequeuing a message.
pub proof fn lemma_shutdown_makes_progress<J>(pool: PoolView<J>) -> (id: int)
    requires
        pool.inv(),
        !pool.accepting,
        !pool.all_exited(),
    ensures
        pool.can_complete(id) || pool.can_receive(id),
{
    let id = choose|i: int|
        0 <= i < pool.workers.len() && (#[trigger] pool.workers[i]).state != WorkerState::Exited;
    if pool.workers[id].state == WorkerState::Idle {
        lemma_count_bounds(pool.workers, WorkerState::Exited);
        lemma_queue_len(pool.queue);
    }
    id
}

/// Every worker step that takes effect uses up work: it lowers
/// `work_left`, so without new submissions only finitely many can follow.
pub proof fn lemma_worker_step_uses_work<J>(pool: PoolView<J>, id: int)
    ensures
        pool.can_receive(id) ==> pool.receive(id).work_left() < pool.work_left(),
        pool.can_complete(id) ==> pool.complete(id).work_left() < pool.work_left(),
{
    let running = WorkerState::Running;
    if pool.can_receive(id) {
        lemma_count_update(pool.workers, id, pool.receive(id).workers[id], running);
    }
    if pool.can_complete(id) {
        lemma_count_update(pool.workers, id, pool.complete(id).workers[id], running);
    }
}

proof fn lemma_run_first<J>(pool: PoolView<J>, event: Event<J>, rest: Seq<Event<J>>)
    ensures
        pool.run(seq![event] + rest) == pool.step(event).run(rest),
    decreases rest.len(),
{
    let trace = seq![event] + rest;
    if rest.len() == 0 {
        assert(trace.drop_last() =~= Seq::<Event<J>>::empty());
        assert(trace.last() == event);
        assert(pool.run(trace.drop_last()) == pool);
        assert(pool.step(event).run(rest) == pool.step(event));
    } else {
        lemma_run_first(pool, event, rest.drop_last());
        assert(trace.drop_last() =~= seq![event] + rest.drop_last());
        assert(trace.last() == rest.last());
    }
}

/// Whether the trace holds worker steps only: no submission and no shutdown
/// request.
pub open spec fn workers_only<J>(trace: Seq<Event<J>>) -> bool {
    forall|i: int|
        0 <= i < trace.len() ==> (#[trigger] trace[i]) is Receive || trace[i] is Complete
}

/// Graceful shutdown is always within reach: from any state of a pool that
/// is shutting down, the workers alone can bring every worker to `Exited`,
/// and by then the queue is drained. The trace returned is one way to get
/// there.
pub proof fn lemma_workers_can_drain<J>(pool: PoolView<J>) -> (trace: Seq<Event<J>>)
    requires
        pool.inv(),
        !pool.accepting,
    ensures
        workers_only(trace),
        pool.run(trace).all_exited(),
        pool.run(trace).queue.len() == 0,
    decreases pool.work_left(),
{
    lemma_count_bounds(pool.workers, WorkerState::Exited);
    lemma_queue_len(pool.queue);
    if pool.all_exited() {
        assert(pool.workers[0].state == WorkerState::Exited);
        Seq::empty()
    } else {
        let id = lemma_shutdown_makes_progress(pool);
        let event = if pool.can_complete(id) {
            Event::Complete(id, JobOutcome::Completed)
        } else {
            Event::Receive(id)
        };
        lemma_step_keeps_invariant(pool, event);
        lemma_worker_step_uses_work(pool, id);
        let rest = lemma_workers_can_drain(pool.step(event));
        let trace = seq![event] + rest;
        lemma_run_first(pool, event, rest);
        assert forall|i: int| 0 <= i < trace.len() implies (#[trigger] trace[i]) is Receive
            || trace[i] is Complete by {
            if i > 0 {
                assert(trace[i] == rest[i - 1]);
            }
        }
        trace
    }
}

/// Shutting down twice is shutting down once: the second request changes
/// nothing and names no worker to join.
pub proof fn lemma_shutdown_idempotent<J>(pool: PoolView<J>)
    ensures
        pool.shutdown().shutdown() == pool.shutdown(),
        pool.shutdown().to_join().len() == 0,
        !pool.shutdown().accepting,
        pool.accepting ==> pool.to_join().len() == pool.size(),
        pool.accepting ==> terminate_count(pool.shutdown().queue) == terminate_count(pool.queue)
            + pool.size(),
{
    lemma_queue_add_terminates(pool.queue, pool.workers.len());
}

/// After shutdown has begun every submission is refused and leaves the pool
/// as it was, so the refused job can never reach a worker.
pub proof fn lemma_no_submission_after_shutdown<J>(pool: PoolView<J>, job: J)
    ensures
        pool.shutdown().submit(job) == pool.shutdown(),
{
}

/// A worker exits only by dequeuing a `Terminate`: where a step takes worker
/// `id` to `Exited`, that step is this worker's own dequeue and the message
/// at the head of the queue was `Terminate`.
pub proof fn lemma_exit_only_on_terminate<J>(pool: PoolView<J>, event: Event<J>, id: int)
    requires
        0 <= id < pool.workers.len(),
        pool.workers[id].state != WorkerState::Exited,
        pool.step(event).workers[id].state == WorkerState::Exited,
    ensures
        event == Event::<J>::Receive(id),
        pool.can_receive(id),
        pool.queue[0] is Terminate,
{
}

/// `Exited` is final: a worker that has exited stays exited through every
/// trace, and no step of its own has any effect.
pub proof fn lemma_exited_is_final<J>(pool: PoolView<J>, trace: Seq<Event<J>>, id: int)
    requires
        0 <= id < pool.workers.len(),
        pool.workers[id].state == WorkerState::Exited,
    ensures
        pool.run(trace).workers.len() == pool.workers.len(),
        pool.run(trace).workers[id] == pool.workers[id],
        pool.receive(id) == pool,
        pool.complete(id) == pool,
    decreases trace.len(),
{
    if trace.len() > 0 {
        lemma_exited_is_final(pool, trace.drop_last(), id);
    }
}

/// One worker runs one job at a time: a running worker cannot dequeue, and
/// its attempt leaves the pool as it was.
pub proof fn lemma_running_worker_cannot_receive<J>(pool: PoolView<J>, id: int)
    requires
        0 <= id < pool.workers.len(),
        pool.workers[id].state == WorkerState::Running,
    ensures
        !pool.can_receive(id),
        pool.receive(id) == pool,
        pool.action_for(id) is None,
{
}

/// A failed job stays contained: the end of a job has the same effect
/// whatever its outcome, makes the worker idle again, and touches neither the
/// queue, nor whether the pool accepts work, nor any other worker.
pub proof fn lemma_failure_is_contained<J>(pool: PoolView<J>, id: int, other: int)
    requires
        pool.can_complete(id),
        0 <= other < pool.workers.len(),
        other != id,
    ensures
        pool.step(Event::Complete(id, JobOutcome::Failed)) == pool.step(
            Event::Complete(id, JobOutcome::Completed),
        ),
        pool.step(Event::Complete(id, JobOutcome::Failed)).workers[id].state == WorkerState::Idle,
        pool.step(Event::Complete(id, JobOutcome::Failed)).workers[other] == pool.workers[other],
        pool.step(Event::Complete(id, JobOutcome::Failed)).queue == pool.queue,
        pool.step(Event::Complete(id, JobOutcome::Failed)).accepting == pool.accepting,
{
}

} // verus!
