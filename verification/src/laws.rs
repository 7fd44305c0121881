//! What holds of a batch however it is driven: its tasks keep their order,
//! its counters only grow, a task that reached a terminal state stays as it
//! is, and cancellation never touches a task that has started.

use crate::batch::{
    apply_update, can_finish, cancel_from, cancelled, count_status, finish_task, finished,
    fresh_batch, lemma_completed_fits, lemma_update_keeps_wf, BatchUpdateView, TaskOutcomeView,
};
use crate::models::{is_terminal, BatchView, CommentTaskView, TaskStatus, VideoItemView};
use vstd::prelude::*;

verus! {

/// The batch after the updates `us`, applied first to last.
pub open spec fn apply_all(b: BatchView, us: Seq<BatchUpdateView>) -> BatchView
    decreases us.len(),
{
    if us.len() == 0 {
        b
    } else {
        apply_update(apply_all(b, us.drop_last()), us.last())
    }
}

/// Two records of one submitted task: same id, target, text and creation
/// time.
pub open spec fn same_submission(a: CommentTaskView, b: CommentTaskView) -> bool {
    &&& a.id == b.id
    &&& a.video == b.video
    &&& a.content == b.content
    &&& a.created_at == b.created_at
}

/// Two snapshots of one batch whose tasks stand in the same order.
pub open spec fn same_order(a: BatchView, b: BatchView) -> bool {
    &&& a.batch_id == b.batch_id
    &&& a.total == b.total
    &&& a.tasks.len() == b.tasks.len()
    &&& forall|i: int| 0 <= i < a.tasks.len() ==> same_submission(a.tasks[i], #[trigger] b.tasks[i])
}

/// No counter of `a` is above its counterpart in `b`.
pub open spec fn counters_le(a: BatchView, b: BatchView) -> bool {
    &&& a.completed <= b.completed
    &&& a.success <= b.success
    &&& a.failed <= b.failed
}

/// Applying the one update `u` is applying `u`.
pub proof fn lemma_apply_all_one(b: BatchView, u: BatchUpdateView)
    ensures
        apply_all(b, seq![u]) == apply_update(b, u),
{
    reveal_with_fuel(apply_all, 2);
    assert(seq![u].drop_last() =~= Seq::<BatchUpdateView>::empty());
}

/// Applying `xs` and then `ys` is applying their concatenation.
pub proof fn lemma_apply_all_concat(
    b: BatchView,
    xs: Seq<BatchUpdateView>,
    ys: Seq<BatchUpdateView>,
)
    ensures
        apply_all(b, xs + ys) == apply_all(apply_all(b, xs), ys),
    decreases ys.len(),
{
    if ys.len() == 0 {
        assert(xs + ys =~= xs);
    } else {
        assert((xs + ys).drop_last() =~= xs + ys.drop_last());
        assert((xs + ys).last() == ys.last());
        lemma_apply_all_concat(b, xs, ys.drop_last());
    }
}

/// Every snapshot adds up. After any sequence of updates to a well-formed
/// batch, `total` is the number of tasks, `success` and `failed` are the
/// numbers of tasks in those states, `completed` is their sum plus the
/// number of cancelled tasks, a task has an error message exactly when it
/// failed and a completion time exactly when its state is terminal.
pub proof fn updates_keep_wf(b: BatchView, us: Seq<BatchUpdateView>)
    requires
        b.wf(),
    ensures
        apply_all(b, us).wf(),
    decreases us.len(),
{
    if us.len() > 0 {
        updates_keep_wf(b, us.drop_last());
        lemma_update_keeps_wf(apply_all(b, us.drop_last()), us.last());
    }
}

/// How many of the tasks are in a terminal state.
pub open spec fn count_terminal(tasks: Seq<CommentTaskView>) -> nat
    decreases tasks.len(),
{
    if tasks.len() == 0 {
        0
    } else {
        count_terminal(tasks.drop_last()) + if is_terminal(tasks.last().status) {
            1nat
        } else {
            0nat
        }
    }
}

proof fn lemma_terminal_counts(tasks: Seq<CommentTaskView>)
    ensures
        count_terminal(tasks) == count_status(tasks, TaskStatus::Success) + count_status(
            tasks,
            TaskStatus::Failed,
        ) + count_status(tasks, TaskStatus::Cancelled),
        (forall|i: int| 0 <= i < tasks.len() ==> is_terminal((#[trigger] tasks[i]).status))
            ==> count_terminal(tasks) == tasks.len(),
    decreases tasks.len(),
{
    if tasks.len() > 0 {
        let rest = tasks.drop_last();
        lemma_terminal_counts(rest);
        if forall|i: int| 0 <= i < tasks.len() ==> is_terminal((#[trigger] tasks[i]).status) {
            assert forall|i: int| 0 <= i < rest.len() implies is_terminal(
                (#[trigger] rest[i]).status,
            ) by {
                let _ = tasks[i];
            }
            let _ = tasks[tasks.len() - 1];
        }
    }
}

/// `completed` counts the tasks in a terminal state: in a well-formed
/// batch it is their number, and where every task is in a terminal state,
/// all tasks are completed.
pub proof fn completed_counts_terminal(b: BatchView)
    requires
        b.wf(),
    ensures
        b.completed == count_terminal(b.tasks),
        (forall|i: int| 0 <= i < b.tasks.len() ==> is_terminal((#[trigger] b.tasks[i]).status))
            ==> b.completed == b.total,
{
    lemma_terminal_counts(b.tasks);
}

/// One update leaves every task where it stood, with its id, target, text
/// and creation time.
pub proof fn update_keeps_order(b: BatchView, u: BatchUpdateView)
    ensures
        same_order(b, apply_update(b, u)),
{
    let after = apply_update(b, u);
    assert forall|i: int| 0 <= i < b.tasks.len() implies same_submission(
        b.tasks[i],
        #[trigger] after.tasks[i],
    ) by {}
}

/// After any sequence of updates the tasks of a batch stand in the order in
/// which they stood before, each with the id, target, text and creation
/// time it had.
pub proof fn updates_keep_order(b: BatchView, us: Seq<BatchUpdateView>)
    ensures
        same_order(b, apply_all(b, us)),
    decreases us.len(),
{
    if us.len() > 0 {
        let mid = apply_all(b, us.drop_last());
        updates_keep_order(b, us.drop_last());
        update_keeps_order(mid, us.last());
        let after = apply_all(b, us);
        assert forall|i: int| 0 <= i < b.tasks.len() implies same_submission(
            b.tasks[i],
            #[trigger] after.tasks[i],
        ) by {
            let _ = mid.tasks[i];
        }
    }
}

/// The order of submission is the order for good: whatever updates a
/// freshly submitted batch has seen, its task `i` is the one made for the
/// `i`-th submitted video.
pub proof fn submission_order_is_final(
    batch_id: Seq<char>,
    ids: Seq<Seq<char>>,
    stamps: Seq<i64>,
    videos: Seq<VideoItemView>,
    content: Seq<char>,
    us: Seq<BatchUpdateView>,
)
    ensures
        ({
            let end = apply_all(fresh_batch(batch_id, ids, stamps, videos, content), us);
            &&& end.tasks.len() == videos.len()
            &&& end.total == videos.len()
            &&& forall|i: int|
                0 <= i < videos.len() ==> {
                    &&& (#[trigger] end.tasks[i]).video == videos[i]
                    &&& end.tasks[i].id == ids[i]
                    &&& end.tasks[i].content == content
                }
        }),
{
    let start = fresh_batch(batch_id, ids, stamps, videos, content);
    let end = apply_all(start, us);
    updates_keep_order(start, us);
    assert forall|i: int| 0 <= i < videos.len() implies {
        &&& (#[trigger] end.tasks[i]).video == videos[i]
        &&& end.tasks[i].id == ids[i]
        &&& end.tasks[i].content == content
    } by {
        assert(same_submission(start.tasks[i], end.tasks[i]));
    }
}

/// One update never lowers a counter.
pub proof fn update_raises_counters(b: BatchView, u: BatchUpdateView)
    ensures
        counters_le(b, apply_update(b, u)),
        apply_update(b, u).total == b.total,
{
}

/// The counters only grow: after any sequence of updates to a well-formed
/// batch, `completed`, `success` and `failed` are at least what they were,
/// `total` is what it was, and `completed` is at most `total`.
pub proof fn updates_raise_counters(b: BatchView, us: Seq<BatchUpdateView>)
    requires
        b.wf(),
    ensures
        counters_le(b, apply_all(b, us)),
        apply_all(b, us).total == b.total,
        apply_all(b, us).completed <= apply_all(b, us).total,
    decreases us.len(),
{
    updates_keep_wf(b, us);
    lemma_completed_fits(apply_all(b, us));
    if us.len() > 0 {
        updates_raise_counters(b, us.drop_last());
        update_raises_counters(apply_all(b, us.drop_last()), us.last());
    }
}

/// The counters only grow, from snapshot to snapshot: of two snapshots
/// taken while the updates `us` are applied to a well-formed batch, the
/// later one has counters at least as high, and in both `completed` is at
/// most `total`.
pub proof fn snapshots_raise_counters(
    b: BatchView,
    us: Seq<BatchUpdateView>,
    earlier: int,
    later: int,
)
    requires
        b.wf(),
        0 <= earlier <= later <= us.len(),
    ensures
        counters_le(apply_all(b, us.take(earlier)), apply_all(b, us.take(later))),
        apply_all(b, us.take(earlier)).completed <= apply_all(b, us.take(earlier)).total,
        apply_all(b, us.take(later)).completed <= apply_all(b, us.take(later)).total,
{
    let first = us.take(earlier);
    let rest = us.subrange(earlier, later);
    assert(us.take(later) =~= first + rest);
    lemma_apply_all_concat(b, first, rest);
    updates_keep_wf(b, first);
    updates_raise_counters(b, first);
    updates_raise_counters(apply_all(b, first), rest);
}

/// One update leaves a task in a terminal state exactly as it is.
pub proof fn update_spares_terminal(b: BatchView, u: BatchUpdateView, i: int)
    requires
        0 <= i < b.tasks.len(),
        is_terminal(b.tasks[i].status),
    ensures
        apply_update(b, u).tasks[i] == b.tasks[i],
{
}

/// A terminal state is final: a task that has reached `Success`, `Failed`
/// or `Cancelled` is the same task, status, message and completion time
/// included, after any sequence of updates.
pub proof fn terminal_tasks_stay(b: BatchView, us: Seq<BatchUpdateView>, i: int)
    requires
        0 <= i < b.tasks.len(),
        is_terminal(b.tasks[i].status),
    ensures
        apply_all(b, us).tasks[i] == b.tasks[i],
    decreases us.len(),
{
    if us.len() > 0 {
        terminal_tasks_stay(b, us.drop_last(), i);
        updates_keep_order(b, us.drop_last());
        update_spares_terminal(apply_all(b, us.drop_last()), us.last(), i);
    }
}

/// A terminal state is final, from snapshot to snapshot: a task seen in a
/// terminal state in one snapshot is the same in every later snapshot.
pub proof fn terminal_in_later_snapshots(
    b: BatchView,
    us: Seq<BatchUpdateView>,
    earlier: int,
    later: int,
    i: int,
)
    requires
        0 <= earlier <= later <= us.len(),
        0 <= i < b.tasks.len(),
        is_terminal(apply_all(b, us.take(earlier)).tasks[i].status),
    ensures
        apply_all(b, us.take(later)).tasks[i] == apply_all(b, us.take(earlier)).tasks[i],
{
    let first = us.take(earlier);
    let rest = us.subrange(earlier, later);
    assert(us.take(later) =~= first + rest);
    lemma_apply_all_concat(b, first, rest);
    updates_keep_order(b, first);
    terminal_tasks_stay(apply_all(b, first), rest, i);
}

/// A status only ever moves forward: a task that is no longer `Pending`
/// never becomes `Pending` again, and one that is `Running` ends in
/// `Success` or `Failed`, never in `Cancelled`.
pub proof fn update_moves_forward(b: BatchView, u: BatchUpdateView, i: int)
    requires
        0 <= i < b.tasks.len(),
    ensures
        ({
            let before = b.tasks[i].status;
            let after = apply_update(b, u).tasks[i].status;
            &&& before == TaskStatus::Pending ==> after == TaskStatus::Pending || after
                == TaskStatus::Running || after == TaskStatus::Cancelled
            &&& before == TaskStatus::Running ==> after == TaskStatus::Running || after
                == TaskStatus::Success || after == TaskStatus::Failed
            &&& is_terminal(before) ==> after == before
        }),
{
}

/// Cancellation leaves a task that is `Running`
/// alone, wherever the sweep starts.
pub proof fn cancellation_spares_running(b: BatchView, k: int, from: int, at: i64)
    requires
        can_finish(b, k),
    ensures
        cancel_from(b, from, at).tasks[k] == b.tasks[k],
{
}

/// Where cancellation cuts: when cancellation is asked for while task `k` is
/// `Running`, the task still finishes with the dispatcher's outcome, and the
/// sweep that follows turns every later task that was `Pending` into
/// `Cancelled` and leaves all others as they were.
pub proof fn cancellation_cutoff(
    b: BatchView,
    k: int,
    outcome: TaskOutcomeView,
    done_at: i64,
    cancel_at: i64,
)
    requires
        can_finish(b, k),
    ensures
        ({
            let end = cancel_from(finish_task(b, k, outcome, done_at), k + 1, cancel_at);
            &&& end.tasks.len() == b.tasks.len()
            &&& end.tasks[k] == finished(b.tasks[k], outcome, done_at)
            &&& end.tasks[k].status == if outcome is Success {
                TaskStatus::Success
            } else {
                TaskStatus::Failed
            }
            &&& forall|j: int|
                k < j < b.tasks.len() && b.tasks[j].status == TaskStatus::Pending ==> #[trigger] end.tasks[j]
                    == cancelled(b.tasks[j], cancel_at)
            &&& forall|j: int|
                0 <= j < b.tasks.len() && j != k && !(k < j && b.tasks[j].status
                    == TaskStatus::Pending) ==> #[trigger] end.tasks[j] == b.tasks[j]
        }),
{
}

} // verus!
