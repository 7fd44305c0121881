//! The batch executor's decisions. The executor drives one batch, task by
//! task and in order. It does not dispatch and it does not wait: it says
//! what to dispatch next, and is told what came of it.
//!
//! Whoever runs a batch calls `start`, and then, as long as the answer is a
//! `Dispatch`, waits at the rate gate, makes the submission and hands the
//! result to `resume`. Between the calls nothing of the registry has to be
//! held, so status queries and cancel requests go on meanwhile. The caller
//! reads the clock and says with each call what time it is.

use crate::batch::{
    can_start, cancel_from, finish_task, start_task, BatchUpdate, TaskOutcomeView,
};
use crate::dispatcher::{attempt_view, outcome_of, task_outcome};
use crate::error::BiliApiError;
use crate::models::CommentResult;
use crate::registry::{Registry, RegistryView};
use vstd::prelude::*;

verus! {

/// One batch's executor: which batch it drives, how many tasks the batch
/// had when it started, which task comes next, and whether a dispatch is
/// under way.
#[derive(Debug)]
pub struct BatchExecutor {
    batch_id: String,
    task_count: usize,
    next: usize,
    running: bool,
}

pub struct ExecutorView {
    pub batch_id: Seq<char>,
    pub task_count: nat,
    pub next: nat,
    pub running: bool,
}

impl View for BatchExecutor {
    type V = ExecutorView;

    closed spec fn view(&self) -> ExecutorView {
        ExecutorView {
            batch_id: self.batch_id@,
            task_count: self.task_count as nat,
            next: self.next as nat,
            running: self.running,
        }
    }
}

/// What the executor asks of its caller.
#[derive(Debug)]
pub enum ExecutorAction {
    /// Submit `content` as a comment on the video `aid`, for task `index`,
    /// and report the result.
    Dispatch { index: usize, aid: u64, content: String },
    /// Nothing more: the batch is through, was cancelled, or is gone.
    Finished,
}

pub enum ExecutorActionView {
    Dispatch { index: int, aid: u64, content: Seq<char> },
    Finished,
}

impl View for ExecutorAction {
    type V = ExecutorActionView;

    open spec fn view(&self) -> ExecutorActionView {
        match self {
            ExecutorAction::Dispatch { index, aid, content } => ExecutorActionView::Dispatch {
                index: *index as int,
                aid: *aid,
                content: content@,
            },
            ExecutorAction::Finished => ExecutorActionView::Finished,
        }
    }
}

/// One step of the executor: its state and the registry after the step, and
/// what it asks for.
pub struct Step {
    pub executor: ExecutorView,
    pub registry: RegistryView,
    pub action: ExecutorActionView,
}

/// The executor for the batch `id` before its first step. It counts the
/// tasks once, at the start; a batch that is not registered has none.
pub open spec fn initial(id: Seq<char>, r: RegistryView) -> ExecutorView {
    ExecutorView {
        batch_id: id,
        task_count: if r.batches.contains_key(id) {
            r.batches[id].tasks.len()
        } else {
            0
        },
        next: 0,
        running: false,
    }
}

/// The step that ends the run: the cancellation flag of the batch is taken
/// away, and nothing is asked for.
pub open spec fn finish_run(e: ExecutorView, r: RegistryView) -> Step {
    Step {
        executor: ExecutorView { running: false, ..e },
        registry: r.clear_cancel(e.batch_id),
        action: ExecutorActionView::Finished,
    }
}

/// The registry after cancellation was seen before task `from`: every task
/// of the batch from there on that is still `Pending` is `Cancelled`.
pub open spec fn swept(r: RegistryView, id: Seq<char>, from: int, now: i64) -> RegistryView {
    if r.batches.contains_key(id) {
        r.update(id, cancel_from(r.batches[id], from, now))
    } else {
        r
    }
}

/// The registry after `outcome` was recorded for task `index` of `id`.
pub open spec fn recorded(
    r: RegistryView,
    id: Seq<char>,
    index: int,
    outcome: TaskOutcomeView,
    now: i64,
) -> RegistryView {
    if r.batches.contains_key(id) {
        r.update(id, finish_task(r.batches[id], index, outcome, now))
    } else {
        r
    }
}

/// What the executor does when it turns to task `e.next` at time `now`.
///
/// It ends the run when all tasks are through. It ends the run when
/// cancellation has been asked for, after marking what is still `Pending`
/// from `e.next` on as `Cancelled`. It ends the run when the batch is gone
/// or the task is not `Pending`. Otherwise it marks the task `Running` and
/// asks for its dispatch.
pub open spec fn next_step(e: ExecutorView, r: RegistryView, now: i64) -> Step {
    let id = e.batch_id;
    if e.next >= e.task_count {
        finish_run(e, r)
    } else if r.is_cancelled(id) {
        finish_run(e, swept(r, id, e.next as int, now))
    } else if !r.batches.contains_key(id) || !can_start(r.batches[id], e.next as int) {
        finish_run(e, r)
    } else {
        let b = r.batches[id];
        Step {
            executor: ExecutorView { running: true, ..e },
            registry: r.update(id, start_task(b, e.next as int)),
            action: ExecutorActionView::Dispatch {
                index: e.next as int,
                aid: b.tasks[e.next as int].video.aid,
                content: b.tasks[e.next as int].content,
            },
        }
    }
}

/// What the executor does when it is told at time `now` that the dispatch
/// under way came to `outcome`: it records the outcome for the task, and
/// turns to the next task. An executor with no dispatch under way does
/// nothing.
pub open spec fn step_after(
    e: ExecutorView,
    r: RegistryView,
    outcome: TaskOutcomeView,
    now: i64,
) -> Step {
    if !e.running {
        Step { executor: e, registry: r, action: ExecutorActionView::Finished }
    } else {
        next_step(
            ExecutorView { next: e.next + 1, running: false, ..e },
            recorded(r, e.batch_id, e.next as int, outcome, now),
            now,
        )
    }
}

impl BatchExecutor {
    #[verifier::type_invariant]
    spec fn inv(&self) -> bool {
        self.running ==> self.next < self.task_count
    }

    /// The id of the batch this executor drives.
    pub fn batch_id(&self) -> (id: &String)
        ensures
            id@ == self@.batch_id,
    {
        &self.batch_id
    }

    /// How many tasks the batch had when the executor started.
    pub fn task_count(&self) -> (n: usize)
        ensures
            n == self@.task_count,
    {
        self.task_count
    }

    /// Whether a dispatch is under way.
    pub fn is_running(&self) -> (running: bool)
        ensures
            running == self@.running,
    {
        self.running
    }

    fn advance(&mut self, registry: &mut Registry, now: i64) -> (action: ExecutorAction)
        requires
            !old(self).running,
        ensures
            (Step { executor: final(self)@, registry: final(registry)@, action: action@ })
                == next_step(old(self)@, old(registry)@, now),
    {
        if self.next >= self.task_count {
            registry.clear_cancel(&self.batch_id);
            return ExecutorAction::Finished;
        }
        if registry.is_cancelled(&self.batch_id) {
            let _ = registry.mutate(
                &self.batch_id,
                BatchUpdate::CancelFrom { index: self.next, at: now },
            );
            registry.clear_cancel(&self.batch_id);
            return ExecutorAction::Finished;
        }
        match registry.begin_task(&self.batch_id, self.next) {
            Ok((aid, content)) => {
                self.running = true;
                ExecutorAction::Dispatch { index: self.next, aid, content }
            },
            Err(_) => {
                registry.clear_cancel(&self.batch_id);
                ExecutorAction::Finished
            },
        }
    }

    /// Starts the run of the batch `batch_id` at time `now` and says what
    /// to do first.
    pub fn start(registry: &mut Registry, batch_id: String, now: i64) -> (started: (
        BatchExecutor,
        ExecutorAction,
    ))
        ensures
            (Step { executor: started.0@, registry: final(registry)@, action: started.1@ })
                == next_step(initial(batch_id@, old(registry)@), old(registry)@, now),
    {
        let task_count = registry.task_count(&batch_id);
        let mut executor = BatchExecutor { batch_id, task_count, next: 0, running: false };
        let action = executor.advance(registry, now);
        (executor, action)
    }

    /// Takes the result of the dispatch under way, at time `now`, and says
    /// what to do next. The result is recorded whatever it is: a failed
    /// submission fails its task and the run goes on.
    pub fn resume(
        &mut self,
        registry: &mut Registry,
        attempt: Result<CommentResult, BiliApiError>,
        now: i64,
    ) -> (action: ExecutorAction)
        ensures
            (Step { executor: final(self)@, registry: final(registry)@, action: action@ })
                == step_after(old(self)@, old(registry)@, outcome_of(attempt_view(attempt)), now),
    {
        proof {
            use_type_invariant(&*self);
        }
        if !self.running {
            return ExecutorAction::Finished;
        }
        let ghost r0 = registry@;
        let ghost id = self.batch_id@;
        let outcome = task_outcome(attempt);
        let ghost reported = outcome@;
        let _ = registry.mutate(
            &self.batch_id,
            BatchUpdate::Finish { index: self.next, outcome, at: now },
        );
        proof {
            let want = recorded(r0, id, self.next as int, reported, now);
            if r0.batches.contains_key(id) {
                assert(registry@.batches =~= want.batches);
            }
            assert(registry@ == want);
        }
        self.running = false;
        self.next = self.next + 1;
        self.advance(registry, now)
    }

}

} // verus!
