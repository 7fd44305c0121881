//! Whole runs of the executor: what a batch looks like when the executor
//! has been through it undisturbed, and what a cancel request does to a run
//! that is under way.

use crate::batch::{
    can_finish, can_start, cancel_from, cancelled, count_status, finish_task, finished,
    lemma_count_absent, lemma_pending_from_all, lemma_pending_from_none, started, task_wf,
    BatchUpdateView, TaskOutcomeView,
};
use crate::executor::{
    initial, next_step, recorded, step_after, ExecutorActionView, ExecutorView, Step,
};
use crate::laws::{apply_all, lemma_apply_all_concat, lemma_apply_all_one};
use crate::models::{BatchView, TaskStatus};
use crate::registry::RegistryView;
use vstd::prelude::*;

verus! {

/// How many of the outcomes are successes.
pub open spec fn successes(outcomes: Seq<TaskOutcomeView>) -> nat
    decreases outcomes.len(),
{
    if outcomes.len() == 0 {
        0
    } else {
        successes(outcomes.drop_last()) + if outcomes.last() is Success {
            1nat
        } else {
            0nat
        }
    }
}

/// The run that goes on from step `s`: the executor is told the outcomes in
/// order, each at its time, and nothing else touches the registry.
pub open spec fn run_from(s: Step, outcomes: Seq<TaskOutcomeView>, times: Seq<i64>) -> Step
    decreases outcomes.len(),
{
    if outcomes.len() == 0 {
        s
    } else {
        run_from(
            step_after(s.executor, s.registry, outcomes[0], times[0]),
            outcomes.drop_first(),
            times.drop_first(),
        )
    }
}

/// The run of the batch `id` from its start at `started_at`.
pub open spec fn run(
    id: Seq<char>,
    r: RegistryView,
    started_at: i64,
    outcomes: Seq<TaskOutcomeView>,
    times: Seq<i64>,
) -> Step {
    run_from(next_step(initial(id, r), r, started_at), outcomes, times)
}

/// A batch of which no task has started.
pub open spec fn all_pending(b: BatchView) -> bool {
    forall|i: int| 0 <= i < b.tasks.len() ==> (#[trigger] b.tasks[i]).status == TaskStatus::Pending
}

/// The batch `b0` when the outcomes of its first `k` tasks are in and task
/// `k`, if there is one, is under way.
pub open spec fn progressed(
    b0: BatchView,
    outcomes: Seq<TaskOutcomeView>,
    times: Seq<i64>,
    k: int,
) -> BatchView {
    BatchView {
        tasks: Seq::new(
            b0.tasks.len(),
            |i: int|
                if i < k {
                    finished(started(b0.tasks[i]), outcomes[i], times[i])
                } else if i == k {
                    started(b0.tasks[i])
                } else {
                    b0.tasks[i]
                },
        ),
        completed: k as nat,
        success: successes(outcomes.take(k)),
        failed: (k - successes(outcomes.take(k))) as nat,
        ..b0
    }
}

/// The step at which an undisturbed run stands when `k` outcomes are in.
pub open spec fn progress_step(
    id: Seq<char>,
    r0: RegistryView,
    outcomes: Seq<TaskOutcomeView>,
    times: Seq<i64>,
    k: int,
) -> Step {
    let b0 = r0.batches[id];
    let n = b0.tasks.len();
    if k < n {
        Step {
            executor: ExecutorView { batch_id: id, task_count: n, next: k as nat, running: true },
            registry: r0.update(id, progressed(b0, outcomes, times, k)),
            action: ExecutorActionView::Dispatch {
                index: k,
                aid: b0.tasks[k].video.aid,
                content: b0.tasks[k].content,
            },
        }
    } else {
        Step {
            executor: ExecutorView { batch_id: id, task_count: n, next: n, running: false },
            registry: r0.update(id, progressed(b0, outcomes, times, n as int)).clear_cancel(id),
            action: ExecutorActionView::Finished,
        }
    }
}

proof fn lemma_successes_fit(outcomes: Seq<TaskOutcomeView>)
    ensures
        successes(outcomes) <= outcomes.len(),
    decreases outcomes.len(),
{
    if outcomes.len() > 0 {
        lemma_successes_fit(outcomes.drop_last());
    }
}

proof fn lemma_first_step(
    id: Seq<char>,
    r0: RegistryView,
    started_at: i64,
    outcomes: Seq<TaskOutcomeView>,
    times: Seq<i64>,
)
    requires
        r0.batches.contains_key(id),
        r0.batches[id].wf(),
        all_pending(r0.batches[id]),
        !r0.is_cancelled(id),
    ensures
        next_step(initial(id, r0), r0, started_at) == progress_step(id, r0, outcomes, times, 0),
{
    let b0 = r0.batches[id];
    let n = b0.tasks.len();
    let got = next_step(initial(id, r0), r0, started_at);
    let want = progress_step(id, r0, outcomes, times, 0);
    lemma_count_absent(b0.tasks, TaskStatus::Success);
    lemma_count_absent(b0.tasks, TaskStatus::Failed);
    lemma_count_absent(b0.tasks, TaskStatus::Cancelled);
    assert(outcomes.take(0) =~= Seq::<TaskOutcomeView>::empty());
    let p = progressed(b0, outcomes, times, 0);
    if n == 0 {
        assert(p.tasks =~= b0.tasks);
        assert(p == b0);
        assert(r0.update(id, p).batches =~= r0.batches);
        assert(got.registry == want.registry);
    } else {
        let _ = b0.tasks[0];
        assert(got.registry.batches[id].tasks =~= p.tasks);
        assert(got.registry.batches =~= want.registry.batches);
    }
}

proof fn lemma_next_result(
    id: Seq<char>,
    r0: RegistryView,
    outcomes: Seq<TaskOutcomeView>,
    times: Seq<i64>,
    k: int,
)
    requires
        r0.batches.contains_key(id),
        r0.batches[id].wf(),
        all_pending(r0.batches[id]),
        !r0.is_cancelled(id),
        outcomes.len() <= r0.batches[id].tasks.len(),
        times.len() == outcomes.len(),
        0 <= k < outcomes.len(),
    ensures
        ({
            let s = progress_step(id, r0, outcomes, times, k);
            step_after(s.executor, s.registry, outcomes[k], times[k]) == progress_step(
                id,
                r0,
                outcomes,
                times,
                k + 1,
            )
        }),
{
    let b0 = r0.batches[id];
    let n = b0.tasks.len();
    let s = progress_step(id, r0, outcomes, times, k);
    let got = step_after(s.executor, s.registry, outcomes[k], times[k]);
    let want = progress_step(id, r0, outcomes, times, k + 1);
    let before = progressed(b0, outcomes, times, k);
    let after = progressed(b0, outcomes, times, k + 1);
    assert(outcomes.take(k + 1).drop_last() =~= outcomes.take(k));
    assert(outcomes.take(k + 1).last() == outcomes[k]);
    lemma_successes_fit(outcomes.take(k));
    assert(can_finish(before, k));
    let done = finish_task(before, k, outcomes[k], times[k]);
    assert(s.registry.batches[id] == before);
    let rec = s.registry.update(id, done);
    assert(rec.batches =~= r0.update(id, done).batches);
    if k + 1 < n {
        let _ = b0.tasks[k + 1];
        assert(got.registry.batches[id].tasks =~= after.tasks);
        assert(got.registry.batches[id] == after);
        assert(got.registry.batches =~= want.registry.batches);
        assert(got.registry == want.registry);
    } else {
        assert(done.tasks =~= after.tasks);
        assert(done == after);
        assert(got.registry.batches =~= want.registry.batches);
        assert(got.registry == want.registry);
    }
}

proof fn lemma_run_on(
    id: Seq<char>,
    r0: RegistryView,
    outcomes: Seq<TaskOutcomeView>,
    times: Seq<i64>,
    k: int,
)
    requires
        r0.batches.contains_key(id),
        r0.batches[id].wf(),
        all_pending(r0.batches[id]),
        !r0.is_cancelled(id),
        outcomes.len() <= r0.batches[id].tasks.len(),
        times.len() == outcomes.len(),
        0 <= k <= outcomes.len(),
    ensures
        run_from(
            progress_step(id, r0, outcomes, times, k),
            outcomes.skip(k),
            times.skip(k),
        ) == progress_step(id, r0, outcomes, times, outcomes.len() as int),
    decreases outcomes.len() - k,
{
    if k < outcomes.len() {
        lemma_next_result(id, r0, outcomes, times, k);
        lemma_run_on(id, r0, outcomes, times, k + 1);
        assert(outcomes.skip(k).drop_first() =~= outcomes.skip(k + 1));
        assert(times.skip(k).drop_first() =~= times.skip(k + 1));
        assert(outcomes.skip(k)[0] == outcomes[k]);
        assert(times.skip(k)[0] == times[k]);
    }
}

/// Where an undisturbed run stands after some outcomes.
///
/// Take a registered batch of which no task has started and for which no
/// cancellation is asked, and let the executor run it for as many tasks as
/// there are outcomes while nothing else touches the registry. Then each of
/// these tasks is finished with its own outcome at its own time, the next
/// task, if there is one, is under way and asked to be dispatched, and all
/// later tasks are as they were.
pub proof fn undisturbed_run_progress(
    id: Seq<char>,
    r0: RegistryView,
    started_at: i64,
    outcomes: Seq<TaskOutcomeView>,
    times: Seq<i64>,
)
    requires
        r0.batches.contains_key(id),
        r0.batches[id].wf(),
        all_pending(r0.batches[id]),
        !r0.is_cancelled(id),
        outcomes.len() <= r0.batches[id].tasks.len(),
        times.len() == outcomes.len(),
    ensures
        run(id, r0, started_at, outcomes, times) == progress_step(
            id,
            r0,
            outcomes,
            times,
            outcomes.len() as int,
        ),
{
    lemma_first_step(id, r0, started_at, outcomes, times);
    lemma_run_on(id, r0, outcomes, times, 0);
    assert(outcomes.skip(0) =~= outcomes);
    assert(times.skip(0) =~= times);
}

/// A cancelled run stops after the task under way.
///
/// Take an undisturbed run that stands after some outcomes with a task
/// under way, and let cancellation be asked for before that task's outcome
/// `last` comes in at time `at`. Then the run ends there. The tasks before
/// are finished with their outcomes, the task that was under way is
/// finished with `last` and not cancelled, and every later task is
/// `Cancelled`, with `at` as its completion time. Every task is then in a
/// terminal state and counted as completed; as many as were dispatched are
/// counted as `success` or `failed`. The cancellation flag is gone, and
/// every other batch and flag is as it was.
pub proof fn cancelled_run_stops(
    id: Seq<char>,
    r0: RegistryView,
    started_at: i64,
    outcomes: Seq<TaskOutcomeView>,
    times: Seq<i64>,
    last: TaskOutcomeView,
    at: i64,
)
    requires
        r0.batches.contains_key(id),
        r0.batches[id].wf(),
        all_pending(r0.batches[id]),
        r0.flags.contains_key(id),
        !r0.is_cancelled(id),
        outcomes.len() < r0.batches[id].tasks.len(),
        times.len() == outcomes.len(),
    ensures
        ({
            let b0 = r0.batches[id];
            let k = outcomes.len() as int;
            let mid = run(id, r0, started_at, outcomes, times);
            let end = step_after(mid.executor, mid.registry.cancel(id), last, at);
            let b = end.registry.batches[id];
            &&& end.action is Finished
            &&& !end.executor.running
            &&& end.registry.batches == r0.batches.insert(id, b)
            &&& end.registry.flags == r0.flags.remove(id)
            &&& b.tasks.len() == b0.tasks.len()
            &&& b.total == b0.total
            &&& b.completed == b.total
            &&& b.success + b.failed == k + 1
            &&& forall|i: int|
                0 <= i < k ==> #[trigger] b.tasks[i] == finished(
                    started(b0.tasks[i]),
                    outcomes[i],
                    times[i],
                )
            &&& b.tasks[k] == finished(started(b0.tasks[k]), last, at)
            &&& forall|i: int|
                k < i < b0.tasks.len() ==> #[trigger] b.tasks[i] == cancelled(
                    b0.tasks[i],
                    at,
                )
        }),
{
    let b0 = r0.batches[id];
    let k = outcomes.len() as int;
    undisturbed_run_progress(id, r0, started_at, outcomes, times);
    let mid = run(id, r0, started_at, outcomes, times);
    let p = progressed(b0, outcomes, times, k);
    assert(mid.registry.batches[id] == p);
    cancel_during_dispatch(mid.executor, mid.registry, last, at);
    let end = step_after(mid.executor, mid.registry.cancel(id), last, at);
    let b = end.registry.batches[id];
    let done = finish_task(p, k, last, at);
    assert(b == cancel_from(done, k + 1, at));
    assert(end.registry.batches =~= r0.batches.insert(id, b));
    assert forall|i: int| k < i < b0.tasks.len() implies #[trigger] b.tasks[i]
        == cancelled(b0.tasks[i], at) by {
        let _ = b0.tasks[i];
    }
    assert forall|j: int| k + 1 <= j < done.tasks.len() implies (#[trigger] done.tasks[j]).status
        == TaskStatus::Pending by {
        let _ = b0.tasks[j];
    }
    lemma_pending_from_all(done.tasks, k + 1);
    lemma_successes_fit(outcomes.take(k));
}

/// An undisturbed run goes through the whole batch, whatever the outcomes.
///
/// Take a registered batch of which no task has started and for which no
/// cancellation is asked, and let the executor run it with one outcome per
/// task while nothing else touches the registry. Then the run ends with
/// nothing more to do, and in the batch every task, at its place, is the
/// submitted task finished with its own outcome at its own time: a failure
/// fails its task and no other. All tasks are counted as completed, the
/// successes as `success`, the rest as `failed`. The cancellation flag is
/// gone, and every other batch and flag is as it was.
pub proof fn undisturbed_run_completes(
    id: Seq<char>,
    r0: RegistryView,
    started_at: i64,
    outcomes: Seq<TaskOutcomeView>,
    times: Seq<i64>,
)
    requires
        r0.batches.contains_key(id),
        r0.batches[id].wf(),
        all_pending(r0.batches[id]),
        !r0.is_cancelled(id),
        outcomes.len() == r0.batches[id].tasks.len(),
        times.len() == outcomes.len(),
    ensures
        ({
            let b0 = r0.batches[id];
            let end = run(id, r0, started_at, outcomes, times);
            let b = end.registry.batches[id];
            &&& end.action is Finished
            &&& !end.executor.running
            &&& end.registry.batches == r0.batches.insert(id, b)
            &&& end.registry.flags == r0.flags.remove(id)
            &&& b.wf()
            &&& b.batch_id == b0.batch_id
            &&& b.total == b0.total
            &&& b.completed == b.total
            &&& b.success == successes(outcomes)
            &&& b.failed == b.total - successes(outcomes)
            &&& b.tasks.len() == b0.tasks.len()
            &&& forall|i: int|
                0 <= i < b0.tasks.len() ==> #[trigger] b.tasks[i] == finished(
                    started(b0.tasks[i]),
                    outcomes[i],
                    times[i],
                )
        }),
{
    let b0 = r0.batches[id];
    let n = b0.tasks.len() as int;
    lemma_first_step(id, r0, started_at, outcomes, times);
    lemma_run_on(id, r0, outcomes, times, 0);
    assert(outcomes.skip(0) =~= outcomes);
    assert(times.skip(0) =~= times);
    assert(outcomes.take(n) =~= outcomes);
    lemma_successes_fit(outcomes);
    let end = run(id, r0, started_at, outcomes, times);
    assert(end == progress_step(id, r0, outcomes, times, n));
    let b = end.registry.batches[id];
    assert(b == progressed(b0, outcomes, times, n));
    lemma_progress_is_wf(b0, outcomes, times);
}

proof fn lemma_progress_is_wf(b0: BatchView, outcomes: Seq<TaskOutcomeView>, times: Seq<i64>)
    requires
        b0.wf(),
        all_pending(b0),
        outcomes.len() == b0.tasks.len(),
        times.len() == outcomes.len(),
    ensures
        progressed(b0, outcomes, times, b0.tasks.len() as int).wf(),
{
    let n = b0.tasks.len() as int;
    lemma_progress_counts(b0, outcomes, times, n);
    let p = progressed(b0, outcomes, times, n);
    assert(outcomes.take(n) =~= outcomes);
    assert(p.tasks.take(n) =~= p.tasks);
    lemma_successes_fit(outcomes);
    assert forall|i: int| 0 <= i < p.tasks.len() implies task_wf(
        #[trigger] p.tasks[i],
    ) by {
        let _ = b0.tasks[i];
    }
    lemma_count_absent(p.tasks, TaskStatus::Cancelled);
}

proof fn lemma_progress_counts(
    b0: BatchView,
    outcomes: Seq<TaskOutcomeView>,
    times: Seq<i64>,
    m: int,
)
    requires
        b0.wf(),
        all_pending(b0),
        outcomes.len() == b0.tasks.len(),
        times.len() == outcomes.len(),
        0 <= m <= outcomes.len(),
    ensures
        ({
            let p = progressed(b0, outcomes, times, b0.tasks.len() as int);
            &&& count_status(p.tasks.take(m), TaskStatus::Success) == successes(
                outcomes.take(m),
            )
            &&& count_status(p.tasks.take(m), TaskStatus::Failed) == m - successes(
                outcomes.take(m),
            )
        }),
    decreases m,
{
    let p = progressed(b0, outcomes, times, b0.tasks.len() as int);
    if m > 0 {
        lemma_progress_counts(b0, outcomes, times, m - 1);
        assert(p.tasks.take(m).drop_last() =~= p.tasks.take(m - 1));
        assert(outcomes.take(m).drop_last() =~= outcomes.take(m - 1));
        assert(p.tasks.take(m).last() == p.tasks[m - 1]);
        assert(outcomes.take(m).last() == outcomes[m - 1]);
        lemma_successes_fit(outcomes.take(m - 1));
    } else {
        assert(outcomes.take(0) =~= Seq::<TaskOutcomeView>::empty());
    }
}

/// The updates that the executor applies to its batch when it turns to its
/// next task: none, one start, or one cancellation.
pub open spec fn updates_of_next(e: ExecutorView, r: RegistryView, now: i64) -> Seq<
    BatchUpdateView,
> {
    if e.next >= e.task_count {
        Seq::<BatchUpdateView>::empty()
    } else if r.is_cancelled(e.batch_id) {
        seq![BatchUpdateView::CancelFrom { index: e.next as int, at: now }]
    } else if !can_start(r.batches[e.batch_id], e.next as int) {
        Seq::<BatchUpdateView>::empty()
    } else {
        seq![BatchUpdateView::Start { index: e.next as int }]
    }
}

/// The updates that the executor applies to its batch when it is told an
/// outcome: the finish of the task under way, and then what turning to the
/// next task applies.
pub open spec fn updates_of_result(
    e: ExecutorView,
    r: RegistryView,
    outcome: TaskOutcomeView,
    now: i64,
) -> Seq<BatchUpdateView> {
    if !e.running {
        Seq::<BatchUpdateView>::empty()
    } else {
        seq![BatchUpdateView::Finish { index: e.next as int, outcome, at: now }]
            + updates_of_next(
            ExecutorView { next: e.next + 1, running: false, ..e },
            recorded(r, e.batch_id, e.next as int, outcome, now),
            now,
        )
    }
}

/// The executor changes a batch by updates only. Whatever step it takes,
/// the batch it drives is afterwards the batch as it was with that step's
/// updates applied, every other batch is as it was, and a batch that was
/// not registered is not registered afterwards. So all that holds of
/// updates holds of the executor's steps: the order of the tasks stays,
/// the counters only grow, and a task in a terminal state stays as it is.
pub proof fn executor_only_updates(
    e: ExecutorView,
    r: RegistryView,
    outcome: TaskOutcomeView,
    now: i64,
)
    ensures
        ({
            let id = e.batch_id;
            let turned = next_step(e, r, now).registry;
            let told = step_after(e, r, outcome, now).registry;
            if r.batches.contains_key(id) {
                &&& turned.batches == r.batches.insert(
                    id,
                    apply_all(r.batches[id], updates_of_next(e, r, now)),
                )
                &&& told.batches == r.batches.insert(
                    id,
                    apply_all(r.batches[id], updates_of_result(e, r, outcome, now)),
                )
            } else {
                turned.batches == r.batches && told.batches == r.batches
            }
        }),
{
    let id = e.batch_id;
    let turned = next_step(e, r, now).registry;
    let told = step_after(e, r, outcome, now).registry;
    if r.batches.contains_key(id) {
        let b = r.batches[id];
        lemma_next_is_updates(e, r, now);
        if e.running {
            let first = seq![BatchUpdateView::Finish { index: e.next as int, outcome, at: now }];
            let e2 = ExecutorView { next: e.next + 1, running: false, ..e };
            let r2 = recorded(r, id, e.next as int, outcome, now);
            let rest = updates_of_next(e2, r2, now);
            lemma_next_is_updates(e2, r2, now);
            lemma_apply_all_one(b, first[0]);
            assert(first =~= seq![first[0]]);
            assert(apply_all(b, first) == finish_task(b, e.next as int, outcome, now));
            lemma_apply_all_concat(b, first, rest);
            assert(told.batches =~= r.batches.insert(
                id,
                apply_all(b, updates_of_result(e, r, outcome, now)),
            ));
        } else {
            assert(told.batches =~= r.batches.insert(id, b));
        }
    }
}

proof fn lemma_next_is_updates(e: ExecutorView, r: RegistryView, now: i64)
    requires
        r.batches.contains_key(e.batch_id),
    ensures
        next_step(e, r, now).registry.batches == r.batches.insert(
            e.batch_id,
            apply_all(r.batches[e.batch_id], updates_of_next(e, r, now)),
        ),
{
    let id = e.batch_id;
    let b = r.batches[id];
    let us = updates_of_next(e, r, now);
    if us.len() == 1 {
        assert(us =~= seq![us[0]]);
        lemma_apply_all_one(b, us[0]);
    }
    assert(next_step(e, r, now).registry.batches =~= r.batches.insert(id, apply_all(b, us)));
}

/// Cancellation during a dispatch: when cancellation is asked for while
/// task `k` is under way, the executor still records the outcome of task
/// `k`, then marks every later task that is still `Pending` as
/// `Cancelled`, takes the flag away and ends the run.
pub proof fn cancel_during_dispatch(
    e: ExecutorView,
    r: RegistryView,
    outcome: TaskOutcomeView,
    now: i64,
)
    requires
        e.running,
        r.batches.contains_key(e.batch_id),
        r.flags.contains_key(e.batch_id),
        e.task_count == r.batches[e.batch_id].tasks.len(),
        can_finish(r.batches[e.batch_id], e.next as int),
    ensures
        ({
            let id = e.batch_id;
            let b = r.batches[id];
            let k = e.next as int;
            let s = step_after(e, r.cancel(id), outcome, now);
            let end = cancel_from(finish_task(b, k, outcome, now), k + 1, now);
            &&& s.action is Finished
            &&& !s.executor.running
            &&& s.registry.flags == r.flags.remove(id)
            &&& s.registry.batches == r.batches.insert(id, end)
            &&& end.tasks[k] == finished(b.tasks[k], outcome, now)
            &&& forall|j: int|
                k < j < b.tasks.len() && b.tasks[j].status == TaskStatus::Pending ==> (
                #[trigger] end.tasks[j]).status == TaskStatus::Cancelled
        }),
{
    let id = e.batch_id;
    let b = r.batches[id];
    let k = e.next as int;
    let s = step_after(e, r.cancel(id), outcome, now);
    let done = finish_task(b, k, outcome, now);
    let end = cancel_from(done, k + 1, now);
    assert(r.cancel(id).flags.remove(id) =~= r.flags.remove(id));
    if k + 1 >= e.task_count {
        assert(end.tasks =~= done.tasks);
        lemma_pending_from_none(done.tasks, k + 1);
        assert(end == done);
    }
    assert(s.registry.batches =~= r.batches.insert(id, end));
    assert(s.registry.flags =~= r.flags.remove(id));
}

} // verus!
