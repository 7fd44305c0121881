//! The task state machine and the three updates that move a batch forward:
//! starting a task, finishing it with the dispatcher's outcome, and
//! cancelling what is still pending.

use crate::models::{
    is_terminal, BatchStatus, BatchView, CommentTask, CommentTaskView, TaskStatus, VideoItem,
    VideoItemView,
};
use vstd::prelude::*;

verus! {

/// What one submission attempt came to: accepted, with the remote comment
/// id when the platform gave one, or failed, with a message for the user.
#[derive(Debug)]
pub enum TaskOutcome {
    Success(Option<u64>),
    Failed(String),
}

pub enum TaskOutcomeView {
    Success(Option<u64>),
    Failed(Seq<char>),
}

impl View for TaskOutcome {
    type V = TaskOutcomeView;

    open spec fn view(&self) -> TaskOutcomeView {
        match self {
            TaskOutcome::Success(id) => TaskOutcomeView::Success(*id),
            TaskOutcome::Failed(msg) => TaskOutcomeView::Failed(msg@),
        }
    }
}

/// One change to a batch. These three are the only ways a batch's tasks and
/// counters ever change.
#[derive(Debug)]
pub enum BatchUpdate {
    /// `Pending` to `Running`, for the task at `index`.
    Start { index: usize },
    /// `Running` to `Success` or `Failed`, for the task at `index`.
    Finish { index: usize, outcome: TaskOutcome, at: i64 },
    /// `Pending` to `Cancelled`, for every task from `index` onward.
    CancelFrom { index: usize, at: i64 },
}

pub enum BatchUpdateView {
    Start { index: int },
    Finish { index: int, outcome: TaskOutcomeView, at: i64 },
    CancelFrom { index: int, at: i64 },
}

impl View for BatchUpdate {
    type V = BatchUpdateView;

    open spec fn view(&self) -> BatchUpdateView {
        match self {
            BatchUpdate::Start { index } => BatchUpdateView::Start { index: *index as int },
            BatchUpdate::Finish { index, outcome, at } => BatchUpdateView::Finish {
                index: *index as int,
                outcome: outcome@,
                at: *at,
            },
            BatchUpdate::CancelFrom { index, at } => BatchUpdateView::CancelFrom {
                index: *index as int,
                at: *at,
            },
        }
    }
}

/// How many of `tasks` are in status `s`.
pub open spec fn count_status(tasks: Seq<CommentTaskView>, s: TaskStatus) -> nat
    decreases tasks.len(),
{
    if tasks.len() == 0 {
        0
    } else {
        count_status(tasks.drop_last(), s) + if tasks.last().status == s {
            1nat
        } else {
            0nat
        }
    }
}

/// A task carries an error message exactly when it failed, and a completion
/// time exactly when it is in a terminal state.
pub open spec fn task_wf(t: CommentTaskView) -> bool {
    &&& t.error_msg is Some <==> t.status == TaskStatus::Failed
    &&& t.completed_at is Some <==> is_terminal(t.status)
}

impl BatchView {
    /// The batch's counters say what its tasks say: `total` is the number
    /// of tasks, `success` and `failed` count the tasks in those states,
    /// and `completed` counts the tasks in any terminal state, the
    /// cancelled ones included.
    pub open spec fn wf(self) -> bool {
        &&& self.total == self.tasks.len()
        &&& self.success == count_status(self.tasks, TaskStatus::Success)
        &&& self.failed == count_status(self.tasks, TaskStatus::Failed)
        &&& self.completed == self.success + self.failed + count_status(
            self.tasks,
            TaskStatus::Cancelled,
        )
        &&& forall|i: int| 0 <= i < self.tasks.len() ==> task_wf(#[trigger] self.tasks[i])
    }
}

/// How many of the tasks at index `i` or after are `Pending`.
pub open spec fn pending_from(tasks: Seq<CommentTaskView>, i: int) -> nat
    decreases tasks.len(),
{
    if tasks.len() == 0 {
        0
    } else {
        pending_from(tasks.drop_last(), i) + if i <= tasks.len() - 1 && tasks.last().status
            == TaskStatus::Pending {
            1nat
        } else {
            0nat
        }
    }
}

/// The tasks after every one at index `i` or after that was still
/// `Pending` became `Cancelled` at time `at`.
pub open spec fn swept_tasks(tasks: Seq<CommentTaskView>, i: int, at: i64) -> Seq<
    CommentTaskView,
> {
    Seq::new(
        tasks.len(),
        |j: int|
            if i <= j && tasks[j].status == TaskStatus::Pending {
                cancelled(tasks[j], at)
            } else {
                tasks[j]
            },
    )
}

/// A task as it is when first submitted.
pub open spec fn fresh_task(
    id: Seq<char>,
    video: VideoItemView,
    content: Seq<char>,
    created_at: i64,
) -> CommentTaskView {
    CommentTaskView {
        id,
        video,
        content,
        status: TaskStatus::Pending,
        error_msg: None,
        created_at,
        completed_at: None,
    }
}

/// The task once the executor has picked it up.
pub open spec fn started(t: CommentTaskView) -> CommentTaskView {
    CommentTaskView { status: TaskStatus::Running, ..t }
}

/// The task once the dispatcher has reported `outcome` at time `at`.
pub open spec fn finished(t: CommentTaskView, outcome: TaskOutcomeView, at: i64) -> CommentTaskView {
    match outcome {
        TaskOutcomeView::Success(_) => CommentTaskView {
            status: TaskStatus::Success,
            completed_at: Some(at),
            ..t
        },
        TaskOutcomeView::Failed(msg) => CommentTaskView {
            status: TaskStatus::Failed,
            error_msg: Some(msg),
            completed_at: Some(at),
            ..t
        },
    }
}

/// The task once cancellation has reached it at time `at`.
pub open spec fn cancelled(t: CommentTaskView, at: i64) -> CommentTaskView {
    CommentTaskView { status: TaskStatus::Cancelled, completed_at: Some(at), ..t }
}

/// Task `i` exists and is still `Pending`.
pub open spec fn can_start(b: BatchView, i: int) -> bool {
    0 <= i < b.tasks.len() && b.tasks[i].status == TaskStatus::Pending
}

/// Task `i` exists and is `Running`.
pub open spec fn can_finish(b: BatchView, i: int) -> bool {
    0 <= i < b.tasks.len() && b.tasks[i].status == TaskStatus::Running
}

/// The batch after task `i` went from `Pending` to `Running`; the batch
/// itself where task `i` is missing or not `Pending`.
pub open spec fn start_task(b: BatchView, i: int) -> BatchView {
    if can_start(b, i) {
        BatchView { tasks: b.tasks.update(i, started(b.tasks[i])), ..b }
    } else {
        b
    }
}

/// The batch after task `i` went from `Running` to the state that `outcome`
/// names, with the counters moved along; the batch itself where task `i` is
/// missing or not `Running`.
pub open spec fn finish_task(b: BatchView, i: int, outcome: TaskOutcomeView, at: i64) -> BatchView {
    if can_finish(b, i) {
        BatchView {
            tasks: b.tasks.update(i, finished(b.tasks[i], outcome, at)),
            completed: b.completed + 1,
            success: if outcome is Success {
                b.success + 1
            } else {
                b.success
            },
            failed: if outcome is Failed {
                b.failed + 1
            } else {
                b.failed
            },
            ..b
        }
    } else {
        b
    }
}

/// The batch after every task from index `i` onward that was still
/// `Pending` became `Cancelled`. Each task that is cancelled counts as
/// completed; `success`, `failed` and `total` stay.
pub open spec fn cancel_from(b: BatchView, i: int, at: i64) -> BatchView {
    BatchView {
        tasks: swept_tasks(b.tasks, i, at),
        completed: b.completed + pending_from(b.tasks, i),
        ..b
    }
}

/// Whether `u` changes anything that its source state allows: a start needs
/// a `Pending` task, a finish a `Running` one; a cancellation always goes
/// through.
pub open spec fn update_enabled(b: BatchView, u: BatchUpdateView) -> bool {
    match u {
        BatchUpdateView::Start { index } => can_start(b, index),
        BatchUpdateView::Finish { index, .. } => can_finish(b, index),
        BatchUpdateView::CancelFrom { .. } => true,
    }
}

/// The batch after update `u`.
pub open spec fn apply_update(b: BatchView, u: BatchUpdateView) -> BatchView {
    match u {
        BatchUpdateView::Start { index } => start_task(b, index),
        BatchUpdateView::Finish { index, outcome, at } => finish_task(b, index, outcome, at),
        BatchUpdateView::CancelFrom { index, at } => cancel_from(b, index, at),
    }
}

/// The batch of `n` fresh tasks, one per video, that `ids` and `stamps`
/// name and date.
pub open spec fn fresh_batch(
    batch_id: Seq<char>,
    ids: Seq<Seq<char>>,
    stamps: Seq<i64>,
    videos: Seq<VideoItemView>,
    content: Seq<char>,
) -> BatchView {
    BatchView {
        batch_id,
        total: videos.len(),
        completed: 0,
        success: 0,
        failed: 0,
        tasks: Seq::new(videos.len(), |i: int| fresh_task(ids[i], videos[i], content, stamps[i])),
    }
}

/// The batch with no task yet.
pub open spec fn empty_batch(batch_id: Seq<char>) -> BatchView {
    BatchView {
        batch_id,
        total: 0,
        completed: 0,
        success: 0,
        failed: 0,
        tasks: Seq::<CommentTaskView>::empty(),
    }
}

/// The batch with one more fresh task at its end.
pub open spec fn with_task(b: BatchView, task: CommentTaskView) -> BatchView {
    BatchView { total: b.total + 1, tasks: b.tasks.push(task), ..b }
}

/// The ids of the tasks, in order.
pub open spec fn task_ids(b: BatchView) -> Seq<Seq<char>> {
    b.tasks.map_values(|t: CommentTaskView| t.id)
}

/// The creation times of the tasks, in order.
pub open spec fn task_stamps(b: BatchView) -> Seq<i64> {
    b.tasks.map_values(|t: CommentTaskView| t.created_at)
}

/// `b` is a batch as it stands right after submission of `videos` with
/// `content`: one fresh task per video, in the order of the videos, all
/// counters but `total` at zero. The ids and creation times of the tasks
/// are whatever they are.
pub open spec fn submitted_as(
    b: BatchView,
    batch_id: Seq<char>,
    videos: Seq<VideoItemView>,
    content: Seq<char>,
) -> bool {
    b == fresh_batch(batch_id, task_ids(b), task_stamps(b), videos, content)
}

/// Replacing one task moves each count by what left and what came.
pub proof fn lemma_count_update(
    tasks: Seq<CommentTaskView>,
    i: int,
    t: CommentTaskView,
    s: TaskStatus,
)
    requires
        0 <= i < tasks.len(),
    ensures
        count_status(tasks.update(i, t), s) + (if tasks[i].status == s {
            1nat
        } else {
            0nat
        }) == count_status(tasks, s) + (if t.status == s {
            1nat
        } else {
            0nat
        }),
    decreases tasks.len(),
{
    let after = tasks.update(i, t);
    if i == tasks.len() - 1 {
        assert(after.drop_last() =~= tasks.drop_last());
    } else {
        assert(after.drop_last() =~= tasks.drop_last().update(i, t));
        lemma_count_update(tasks.drop_last(), i, t, s);
    }
}

/// Three different statuses never count more tasks than there are.
pub proof fn lemma_counts_fit3(
    tasks: Seq<CommentTaskView>,
    s1: TaskStatus,
    s2: TaskStatus,
    s3: TaskStatus,
)
    requires
        s1 != s2,
        s1 != s3,
        s2 != s3,
    ensures
        count_status(tasks, s1) + count_status(tasks, s2) + count_status(tasks, s3)
            <= tasks.len(),
    decreases tasks.len(),
{
    if tasks.len() > 0 {
        lemma_counts_fit3(tasks.drop_last(), s1, s2, s3);
    }
}

/// A sweep turns exactly the pending tasks from `i` on into cancelled ones:
/// the count of `Cancelled` grows by their number, and the counts of
/// `Success` and `Failed` stay.
pub proof fn lemma_sweep_counts(tasks: Seq<CommentTaskView>, i: int, at: i64)
    ensures
        count_status(swept_tasks(tasks, i, at), TaskStatus::Cancelled) == count_status(
            tasks,
            TaskStatus::Cancelled,
        ) + pending_from(tasks, i),
        count_status(swept_tasks(tasks, i, at), TaskStatus::Success) == count_status(
            tasks,
            TaskStatus::Success,
        ),
        count_status(swept_tasks(tasks, i, at), TaskStatus::Failed) == count_status(
            tasks,
            TaskStatus::Failed,
        ),
    decreases tasks.len(),
{
    if tasks.len() > 0 {
        let swept = swept_tasks(tasks, i, at);
        assert(swept.drop_last() =~= swept_tasks(tasks.drop_last(), i, at));
        assert(swept.last() == swept[tasks.len() - 1]);
        lemma_sweep_counts(tasks.drop_last(), i, at);
    }
}

/// Where every task from `i` on is `Pending`, as many are pending from `i`
/// on as there are tasks from `i` on.
pub proof fn lemma_pending_from_all(tasks: Seq<CommentTaskView>, i: int)
    requires
        0 <= i <= tasks.len(),
        forall|j: int| i <= j < tasks.len() ==> (#[trigger] tasks[j]).status == TaskStatus::Pending,
    ensures
        pending_from(tasks, i) == tasks.len() - i,
    decreases tasks.len(),
{
    if tasks.len() > 0 {
        let rest = tasks.drop_last();
        if i <= rest.len() {
            assert forall|j: int| i <= j < rest.len() implies (#[trigger] rest[j]).status
                == TaskStatus::Pending by {
                let _ = tasks[j];
            }
            lemma_pending_from_all(rest, i);
            if i <= tasks.len() - 1 {
                let _ = tasks[tasks.len() - 1];
            }
        } else {
            lemma_pending_from_none(rest, i);
        }
    }
}

/// No task is pending from an index at or past the end.
pub proof fn lemma_pending_from_none(tasks: Seq<CommentTaskView>, i: int)
    requires
        tasks.len() <= i,
    ensures
        pending_from(tasks, i) == 0,
    decreases tasks.len(),
{
    if tasks.len() > 0 {
        lemma_pending_from_none(tasks.drop_last(), i);
    }
}

/// No task of a list of fresh tasks is counted under any status but
/// `Pending`.
pub proof fn lemma_count_absent(tasks: Seq<CommentTaskView>, s: TaskStatus)
    requires
        forall|j: int| 0 <= j < tasks.len() ==> (#[trigger] tasks[j]).status != s,
    ensures
        count_status(tasks, s) == 0,
    decreases tasks.len(),
{
    if tasks.len() > 0 {
        let _ = tasks[tasks.len() - 1];
        assert forall|j: int| 0 <= j < tasks.drop_last().len() implies (#[trigger] tasks.drop_last()[j]).status
            != s by {
            let _ = tasks[j];
        }
        lemma_count_absent(tasks.drop_last(), s);
    }
}

/// Every update keeps a well-formed batch well formed.
pub proof fn lemma_update_keeps_wf(b: BatchView, u: BatchUpdateView)
    requires
        b.wf(),
    ensures
        apply_update(b, u).wf(),
{
    let after = apply_update(b, u);
    match u {
        BatchUpdateView::Start { index } => {
            if can_start(b, index) {
                lemma_count_update(b.tasks, index, started(b.tasks[index]), TaskStatus::Success);
                lemma_count_update(b.tasks, index, started(b.tasks[index]), TaskStatus::Failed);
                lemma_count_update(
                    b.tasks,
                    index,
                    started(b.tasks[index]),
                    TaskStatus::Cancelled,
                );
                assert forall|i: int| 0 <= i < after.tasks.len() implies task_wf(
                    #[trigger] after.tasks[i],
                ) by {
                    let _ = b.tasks[i];
                }
            }
        },
        BatchUpdateView::Finish { index, outcome, at } => {
            if can_finish(b, index) {
                let t = finished(b.tasks[index], outcome, at);
                lemma_count_update(b.tasks, index, t, TaskStatus::Success);
                lemma_count_update(b.tasks, index, t, TaskStatus::Failed);
                lemma_count_update(b.tasks, index, t, TaskStatus::Cancelled);
                assert forall|i: int| 0 <= i < after.tasks.len() implies task_wf(
                    #[trigger] after.tasks[i],
                ) by {
                    let _ = b.tasks[i];
                }
            }
        },
        BatchUpdateView::CancelFrom { index, at } => {
            lemma_sweep_counts(b.tasks, index, at);
            assert forall|i: int| 0 <= i < after.tasks.len() implies task_wf(
                #[trigger] after.tasks[i],
            ) by {
                let _ = b.tasks[i];
            }
        },
    }
}

/// In a well-formed batch no more tasks are completed than there are.
pub proof fn lemma_completed_fits(b: BatchView)
    requires
        b.wf(),
    ensures
        b.completed <= b.total,
        b.success + b.failed <= b.completed,
{
    lemma_counts_fit3(b.tasks, TaskStatus::Success, TaskStatus::Failed, TaskStatus::Cancelled);
}

/// While a task is `Running`, fewer tasks are completed than there are.
pub proof fn lemma_running_leaves_room(b: BatchView, i: int)
    requires
        b.wf(),
        can_finish(b, i),
    ensures
        b.completed < b.total,
{
    let t = finished(b.tasks[i], TaskOutcomeView::Success(None), 0);
    lemma_count_update(b.tasks, i, t, TaskStatus::Success);
    lemma_count_update(b.tasks, i, t, TaskStatus::Failed);
    lemma_count_update(b.tasks, i, t, TaskStatus::Cancelled);
    lemma_counts_fit3(
        b.tasks.update(i, t),
        TaskStatus::Success,
        TaskStatus::Failed,
        TaskStatus::Cancelled,
    );
}

impl CommentTask {
    /// A task as it is when first submitted: `Pending`, with no error and no
    /// completion time.
    pub fn new(id: String, video: VideoItem, content: String, created_at: i64) -> (task: Self)
        ensures
            task@ == fresh_task(id@, video@, content@, created_at),
    {
        CommentTask {
            id,
            video,
            content,
            status: TaskStatus::Pending,
            error_msg: None,
            created_at,
            completed_at: None,
        }
    }
}

impl BatchStatus {
    /// A batch with this id and no task yet.
    pub fn new(batch_id: String) -> (batch: Self)
        ensures
            batch@ == empty_batch(batch_id@),
            batch@.wf(),
    {
        let batch = BatchStatus {
            batch_id,
            total: 0,
            completed: 0,
            success: 0,
            failed: 0,
            tasks: Vec::new(),
        };
        assert(batch@.tasks =~= Seq::<CommentTaskView>::empty());
        batch
    }

    /// Adds a fresh task for `video` at the end of the batch.
    pub fn push_task(&mut self, id: String, video: VideoItem, content: String, created_at: i64)
        requires
            old(self)@.wf(),
        ensures
            final(self)@ == with_task(
                old(self)@,
                fresh_task(id@, video@, content@, created_at),
            ),
            final(self)@.wf(),
    {
        let ghost task = fresh_task(id@, video@, content@, created_at);
        self.tasks.push(CommentTask::new(id, video, content, created_at));
        self.total = self.tasks.len();
        proof {
            assert(self@.tasks =~= old(self)@.tasks.push(task));
            assert(self@.tasks.drop_last() =~= old(self)@.tasks);
            assert forall|i: int| 0 <= i < self@.tasks.len() implies task_wf(
                #[trigger] self@.tasks[i],
            ) by {
                if i < old(self)@.tasks.len() {
                    let _ = old(self)@.tasks[i];
                }
            }
        }
    }

    /// Whether a task of the batch has this id.
    pub fn has_task_id(&self, id: &String) -> (found: bool)
        ensures
            found == task_ids(self@).contains(id@),
    {
        let mut i: usize = 0;
        while i < self.tasks.len()
            invariant
                i <= self.tasks.len(),
                forall|j: int| 0 <= j < i ==> task_ids(self@)[j] != id@,
            decreases self.tasks.len() - i,
        {
            if self.tasks[i].id == *id {
                assert(task_ids(self@)[i as int] == id@);
                return true;
            }
            i = i + 1;
        }
        false
    }

    /// Whether the counters and the tasks agree, as `BatchView::wf` says.
    pub fn is_well_formed(&self) -> (ok: bool)
        ensures
            ok == self@.wf(),
    {
        let n = self.tasks.len();
        let mut success: usize = 0;
        let mut failed: usize = 0;
        let mut cancelled: usize = 0;
        let mut tasks_ok = true;
        let mut i: usize = 0;
        while i < n
            invariant
                n == self.tasks.len(),
                i <= n,
                success == count_status(self@.tasks.take(i as int), TaskStatus::Success),
                failed == count_status(self@.tasks.take(i as int), TaskStatus::Failed),
                cancelled == count_status(self@.tasks.take(i as int), TaskStatus::Cancelled),
                success + failed + cancelled <= i,
                tasks_ok <==> forall|j: int| 0 <= j < i ==> task_wf(#[trigger] self@.tasks[j]),
            decreases n - i,
        {
            let ghost prefix = self@.tasks.take(i as int + 1);
            proof {
                assert(prefix.drop_last() =~= self@.tasks.take(i as int));
                assert(prefix.last() == self@.tasks[i as int]);
                lemma_counts_fit3(
                    prefix,
                    TaskStatus::Success,
                    TaskStatus::Failed,
                    TaskStatus::Cancelled,
                );
            }
            let t = &self.tasks[i];
            assert(t@ == self@.tasks[i as int]);
            if t.status == TaskStatus::Success {
                success = success + 1;
            }
            if t.status == TaskStatus::Failed {
                failed = failed + 1;
            }
            if t.status == TaskStatus::Cancelled {
                cancelled = cancelled + 1;
            }
            let has_error = t.error_msg.is_some();
            let has_time = t.completed_at.is_some();
            if has_error != (t.status == TaskStatus::Failed) || has_time != t.status.is_terminal() {
                tasks_ok = false;
            }
            i = i + 1;
        }
        assert(self@.tasks.take(n as int) =~= self@.tasks);
        tasks_ok && self.total == n && self.success == success && self.failed == failed
            && self.completed == success + failed + cancelled
    }

    /// Applies one update in place and says whether its source state
    /// allowed it. An update that is not allowed changes nothing.
    pub fn apply(&mut self, update: BatchUpdate) -> (applied: bool)
        requires
            old(self)@.wf(),
        ensures
            final(self)@ == apply_update(old(self)@, update@),
            applied == update_enabled(old(self)@, update@),
            !applied ==> final(self)@ == old(self)@,
            final(self)@.wf(),
    {
        proof {
            lemma_update_keeps_wf(self@, update@);
        }
        match update {
            BatchUpdate::Start { index } => self.start(index),
            BatchUpdate::Finish { index, outcome, at } => self.finish(index, outcome, at),
            BatchUpdate::CancelFrom { index, at } => {
                self.cancel_from(index, at);
                true
            },
        }
    }

    /// Marks task `index` as `Running` if it is `Pending`.
    pub fn start(&mut self, index: usize) -> (applied: bool)
        ensures
            final(self)@ == start_task(old(self)@, index as int),
            applied == can_start(old(self)@, index as int),
    {
        if index < self.tasks.len() && self.tasks[index].status == TaskStatus::Pending {
            self.tasks[index].status = TaskStatus::Running;
            assert(self@.tasks =~= old(self)@.tasks.update(
                index as int,
                started(old(self)@.tasks[index as int]),
            ));
            true
        } else {
            false
        }
    }

    /// Records the dispatcher's outcome for task `index` if it is
    /// `Running`: the task becomes `Success` or `Failed`, takes the failure
    /// message and the completion time, and the counters move along.
    pub fn finish(&mut self, index: usize, outcome: TaskOutcome, at: i64) -> (applied: bool)
        requires
            old(self)@.wf(),
        ensures
            final(self)@ == finish_task(old(self)@, index as int, outcome@, at),
            applied == can_finish(old(self)@, index as int),
    {
        let ghost reported = outcome@;
        if index < self.tasks.len() && self.tasks[index].status == TaskStatus::Running {
            proof {
                lemma_running_leaves_room(self@, index as int);
                lemma_completed_fits(self@);
            }
            match outcome {
                TaskOutcome::Success(_) => {
                    self.tasks[index].status = TaskStatus::Success;
                    self.success = self.success + 1;
                },
                TaskOutcome::Failed(msg) => {
                    self.tasks[index].status = TaskStatus::Failed;
                    self.tasks[index].error_msg = Some(msg);
                    self.failed = self.failed + 1;
                },
            }
            self.tasks[index].completed_at = Some(at);
            self.completed = self.completed + 1;
            assert(self@.tasks =~= old(self)@.tasks.update(
                index as int,
                finished(old(self)@.tasks[index as int], reported, at),
            ));
            true
        } else {
            false
        }
    }

    /// Marks every task from `index` onward that is still `Pending` as
    /// `Cancelled`, with `at` as its completion time, and counts each of
    /// them as completed.
    pub fn cancel_from(&mut self, index: usize, at: i64)
        requires
            old(self)@.wf(),
        ensures
            final(self)@ == cancel_from(old(self)@, index as int, at),
            final(self)@.wf(),
    {
        let ghost before = self@;
        let n = self.tasks.len();
        let mut j = index;
        while j < n
            invariant
                n == self.tasks.len(),
                n == before.tasks.len(),
                index <= j,
                before.wf(),
                self@.wf(),
                self.batch_id@ == before.batch_id,
                self.total == before.total,
                self.success == before.success,
                self.failed == before.failed,
                forall|k: int|
                    0 <= k < n ==> #[trigger] self@.tasks[k] == if index <= k < j
                        && before.tasks[k].status == TaskStatus::Pending {
                        cancelled(before.tasks[k], at)
                    } else {
                        before.tasks[k]
                    },
            decreases n - j,
        {
            let ghost prev = self@;
            if self.tasks[j].status == TaskStatus::Pending {
                let ghost turned = cancelled(prev.tasks[j as int], at);
                proof {
                    lemma_count_update(prev.tasks, j as int, turned, TaskStatus::Success);
                    lemma_count_update(prev.tasks, j as int, turned, TaskStatus::Failed);
                    lemma_count_update(prev.tasks, j as int, turned, TaskStatus::Cancelled);
                    lemma_counts_fit3(
                        prev.tasks.update(j as int, turned),
                        TaskStatus::Success,
                        TaskStatus::Failed,
                        TaskStatus::Cancelled,
                    );
                }
                self.tasks[j].status = TaskStatus::Cancelled;
                self.tasks[j].completed_at = Some(at);
                self.completed = self.completed + 1;
                proof {
                    assert(self@.tasks =~= prev.tasks.update(j as int, turned));
                    assert forall|k: int| 0 <= k < n implies task_wf(#[trigger] self@.tasks[k]) by {
                        let _ = prev.tasks[k];
                    }
                }
            }
            j = j + 1;
        }
        proof {
            assert(self@.tasks =~= swept_tasks(before.tasks, index as int, at));
            lemma_sweep_counts(before.tasks, index as int, at);
        }
    }
}

} // verus!
