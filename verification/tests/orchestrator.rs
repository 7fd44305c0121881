use bili_comment::batch::{BatchUpdate, TaskOutcome};
use bili_comment::error::BiliApiError;
use bili_comment::executor::{BatchExecutor, ExecutorAction};
use bili_comment::models::{BatchStatus, CommentResult, TaskStatus, VideoItem};
use bili_comment::orchestrator::{
    batch_send_comments, cancel_batch, clear_batch, get_batch_status, new_batch,
};
use bili_comment::registry::{BatchError, Registry};

fn video(aid: u64, title: &str) -> VideoItem {
    VideoItem {
        aid,
        bvid: format!("BV{}", aid),
        title: title.to_string(),
        author: "up".to_string(),
        mid: 7,
        pic: String::new(),
        play: 10,
        danmaku: 2,
        pubdate: 1_700_000_000,
        duration: "3:20".to_string(),
        description: String::new(),
    }
}

fn accepted(rpid: u64) -> Result<CommentResult, BiliApiError> {
    Ok(CommentResult { success: true, rpid: Some(rpid), error_msg: None })
}

fn rejected(msg: &str) -> Result<CommentResult, BiliApiError> {
    Ok(CommentResult { success: false, rpid: None, error_msg: Some(msg.to_string()) })
}

fn statuses(batch: &BatchStatus) -> Vec<TaskStatus> {
    batch.tasks.iter().map(|t| t.status).collect()
}

fn count(batch: &BatchStatus, status: TaskStatus) -> usize {
    batch.tasks.iter().filter(|t| t.status == status).count()
}

fn assert_counters_match_tasks(batch: &BatchStatus) {
    assert_eq!(batch.total, batch.tasks.len());
    assert_eq!(batch.success, count(batch, TaskStatus::Success));
    assert_eq!(batch.failed, count(batch, TaskStatus::Failed));
    assert_eq!(
        batch.completed,
        batch.success + batch.failed + count(batch, TaskStatus::Cancelled)
    );
    assert!(batch.completed <= batch.total);
    for task in &batch.tasks {
        assert_eq!(task.error_msg.is_some(), task.status == TaskStatus::Failed);
        assert_eq!(task.completed_at.is_some(), task.status.is_terminal());
    }
    assert!(batch.is_well_formed());
}

fn submit(registry: &mut Registry, aids: &[u64]) -> String {
    let videos: Vec<VideoItem> = aids.iter().map(|a| video(*a, "t")).collect();
    batch_send_comments(registry, videos, "nice video".to_string(), 1_700_000_123).unwrap()
}

fn dispatched(action: &ExecutorAction) -> (usize, u64, String) {
    match action {
        ExecutorAction::Dispatch { index, aid, content } => (*index, *aid, content.clone()),
        ExecutorAction::Finished => panic!("expected a dispatch"),
    }
}

#[test]
fn submit_registers_pending_tasks_in_order() {
    let mut registry = Registry::new();
    let id = submit(&mut registry, &[11, 22, 33]);
    assert_eq!(id.chars().count(), 36);
    let batch = get_batch_status(&registry, id.clone()).unwrap();
    assert_eq!(batch.batch_id, id);
    assert_eq!(batch.total, 3);
    assert_eq!(batch.completed, 0);
    assert_eq!(batch.success, 0);
    assert_eq!(batch.failed, 0);
    let aids: Vec<u64> = batch.tasks.iter().map(|t| t.video.aid).collect();
    assert_eq!(aids, vec![11, 22, 33]);
    for task in &batch.tasks {
        assert_eq!(task.status, TaskStatus::Pending);
        assert_eq!(task.content, "nice video");
        assert_eq!(task.error_msg, None);
        assert_eq!(task.completed_at, None);
        assert_eq!(task.id.chars().count(), 36);
    }
    assert!(batch.is_well_formed());
    assert!(!registry.is_cancelled(&id));
}

#[test]
fn empty_submission_is_refused() {
    let mut registry = Registry::new();
    let r = batch_send_comments(&mut registry, Vec::new(), "x".to_string(), 5);
    assert_eq!(r, Err(BatchError::EmptySubmission));
}

#[test]
fn unknown_batch_is_not_found() {
    let registry = Registry::new();
    let r = get_batch_status(&registry, "nonexistent".to_string());
    assert!(matches!(r, Err(BatchError::NotFound)));
    assert_eq!(BatchError::NotFound.to_user_message(), "批次不存在");
}

#[test]
fn one_failure_does_not_stop_the_batch() {
    let mut registry = Registry::new();
    let id = submit(&mut registry, &[1, 2, 3]);
    let (mut executor, action) = BatchExecutor::start(&mut registry, id.clone(), 100);
    assert_eq!(dispatched(&action), (0, 1, "nice video".to_string()));
    assert_eq!(
        statuses(&get_batch_status(&registry, id.clone()).unwrap()),
        vec![TaskStatus::Running, TaskStatus::Pending, TaskStatus::Pending]
    );
    let action = executor.resume(&mut registry, accepted(900), 105);
    assert_eq!(dispatched(&action), (1, 2, "nice video".to_string()));
    let action = executor.resume(
        &mut registry,
        Err(BiliApiError::ApiError { code: 12002, message: "blocked".to_string() }),
        110,
    );
    assert_eq!(dispatched(&action), (2, 3, "nice video".to_string()));
    let action = executor.resume(&mut registry, accepted(901), 115);
    assert!(matches!(action, ExecutorAction::Finished));
    assert!(!executor.is_running());

    let batch = get_batch_status(&registry, id.clone()).unwrap();
    assert_eq!(batch.total, 3);
    assert_eq!(batch.success, 2);
    assert_eq!(batch.failed, 1);
    assert_eq!(batch.completed, 3);
    assert_eq!(
        statuses(&batch),
        vec![TaskStatus::Success, TaskStatus::Failed, TaskStatus::Success]
    );
    assert_eq!(batch.tasks[1].error_msg, Some("评论内容包含敏感词".to_string()));
    assert_eq!(batch.tasks[0].error_msg, None);
    assert_eq!(batch.tasks[0].completed_at, Some(105));
    assert_eq!(batch.tasks[1].completed_at, Some(110));
    assert_eq!(batch.tasks[2].completed_at, Some(115));
    assert!(batch.is_well_formed());
}

#[test]
fn rejected_result_keeps_its_message() {
    let mut registry = Registry::new();
    let id = submit(&mut registry, &[5]);
    let (mut executor, _) = BatchExecutor::start(&mut registry, id.clone(), 1);
    let action = executor.resume(&mut registry, rejected("视频不存在"), 2);
    assert!(matches!(action, ExecutorAction::Finished));
    let batch = get_batch_status(&registry, id).unwrap();
    assert_eq!(batch.tasks[0].status, TaskStatus::Failed);
    assert_eq!(batch.tasks[0].error_msg, Some("视频不存在".to_string()));
    assert_eq!(batch.failed, 1);
    assert_eq!(batch.completed, 1);
}

#[test]
fn failure_without_message_gets_one() {
    let mut registry = Registry::new();
    let id = submit(&mut registry, &[5]);
    let (mut executor, _) = BatchExecutor::start(&mut registry, id.clone(), 1);
    let silent = Ok(CommentResult { success: false, rpid: None, error_msg: None });
    executor.resume(&mut registry, silent, 2);
    let batch = get_batch_status(&registry, id).unwrap();
    assert_eq!(batch.tasks[0].status, TaskStatus::Failed);
    assert_eq!(batch.tasks[0].error_msg, Some("评论失败".to_string()));
}

#[test]
fn not_logged_in_fails_the_task_only() {
    let mut registry = Registry::new();
    let id = submit(&mut registry, &[5, 6]);
    let (mut executor, _) = BatchExecutor::start(&mut registry, id.clone(), 1);
    let action = executor.resume(&mut registry, Err(BiliApiError::NotLoggedIn), 2);
    assert_eq!(dispatched(&action).0, 1);
    let batch = get_batch_status(&registry, id).unwrap();
    assert_eq!(batch.tasks[0].status, TaskStatus::Failed);
    assert_eq!(batch.tasks[0].error_msg, Some("请先登录".to_string()));
    assert_eq!(batch.tasks[1].status, TaskStatus::Running);
}

#[test]
fn counters_never_go_down() {
    let mut registry = Registry::new();
    let id = submit(&mut registry, &[1, 2, 3, 4]);
    let mut seen: Vec<(usize, usize, usize)> = Vec::new();
    let mut record = |registry: &Registry| {
        let b = get_batch_status(registry, id.clone()).unwrap();
        assert!(b.completed <= b.total);
        assert_eq!(b.completed, b.success + b.failed + count(&b, TaskStatus::Cancelled));
        seen.push((b.completed, b.success, b.failed));
    };
    record(&registry);
    let (mut executor, mut action) = BatchExecutor::start(&mut registry, id.clone(), 0);
    record(&registry);
    let mut step = 0;
    while let ExecutorAction::Dispatch { .. } = action {
        let result = if step % 2 == 0 { accepted(1) } else { rejected("no") };
        action = executor.resume(&mut registry, result, 10 + step);
        record(&registry);
        step += 1;
    }
    assert_eq!(step, 4);
    for pair in seen.windows(2) {
        assert!(pair[0].0 <= pair[1].0);
        assert!(pair[0].1 <= pair[1].1);
        assert!(pair[0].2 <= pair[1].2);
    }
    assert_eq!(seen.last(), Some(&(4, 2, 2)));
}

#[test]
fn cancel_while_running_lets_the_task_finish() {
    let mut registry = Registry::new();
    let id = submit(&mut registry, &[1, 2, 3, 4]);
    let (mut executor, _) = BatchExecutor::start(&mut registry, id.clone(), 0);
    let action = executor.resume(&mut registry, accepted(1), 5);
    assert_eq!(dispatched(&action).0, 1);

    assert_eq!(cancel_batch(&mut registry, id.clone()), Ok(()));
    assert!(registry.is_cancelled(&id));
    assert_eq!(
        statuses(&get_batch_status(&registry, id.clone()).unwrap()),
        vec![TaskStatus::Success, TaskStatus::Running, TaskStatus::Pending, TaskStatus::Pending]
    );

    let action = executor.resume(&mut registry, rejected("late"), 9);
    assert!(matches!(action, ExecutorAction::Finished));
    let batch = get_batch_status(&registry, id.clone()).unwrap();
    assert_eq!(
        statuses(&batch),
        vec![TaskStatus::Success, TaskStatus::Failed, TaskStatus::Cancelled, TaskStatus::Cancelled]
    );
    assert_eq!(batch.completed, 4);
    assert_eq!(batch.success, 1);
    assert_eq!(batch.failed, 1);
    assert_eq!(batch.total, 4);
    assert_eq!(batch.tasks[2].completed_at, Some(9));
    assert_eq!(batch.tasks[2].error_msg, None);
    assert_counters_match_tasks(&batch);
    assert!(!registry.is_cancelled(&id));
}

#[test]
fn every_snapshot_of_a_cancelled_run_adds_up() {
    let mut registry = Registry::new();
    let id = submit(&mut registry, &[1, 2, 3, 4, 5]);
    let mut completed_seen: Vec<usize> = Vec::new();
    let mut look = |registry: &Registry| {
        let batch = get_batch_status(registry, id.clone()).unwrap();
        assert_counters_match_tasks(&batch);
        completed_seen.push(batch.completed);
    };
    look(&registry);
    let (mut executor, _) = BatchExecutor::start(&mut registry, id.clone(), 0);
    look(&registry);
    executor.resume(&mut registry, accepted(1), 1);
    look(&registry);
    executor.resume(&mut registry, rejected("no"), 2);
    look(&registry);
    cancel_batch(&mut registry, id.clone()).unwrap();
    look(&registry);
    let action = executor.resume(&mut registry, accepted(3), 3);
    assert!(matches!(action, ExecutorAction::Finished));
    look(&registry);
    assert_eq!(completed_seen, vec![0, 0, 1, 2, 2, 5]);
}

#[test]
fn cancel_before_start_cancels_everything() {
    let mut registry = Registry::new();
    let id = submit(&mut registry, &[1, 2]);
    cancel_batch(&mut registry, id.clone()).unwrap();
    let (executor, action) = BatchExecutor::start(&mut registry, id.clone(), 3);
    assert!(matches!(action, ExecutorAction::Finished));
    assert!(!executor.is_running());
    assert_eq!(executor.task_count(), 2);
    assert_eq!(executor.batch_id(), &id);
    let batch = get_batch_status(&registry, id).unwrap();
    assert_eq!(statuses(&batch), vec![TaskStatus::Cancelled, TaskStatus::Cancelled]);
    assert_eq!(batch.completed, 2);
    assert_eq!(batch.success, 0);
    assert_eq!(batch.failed, 0);
    assert_eq!(batch.tasks[0].completed_at, Some(3));
    assert_counters_match_tasks(&batch);
}

#[test]
fn cancel_twice_is_cancel_once() {
    let mut registry = Registry::new();
    let id = submit(&mut registry, &[1, 2]);
    assert_eq!(cancel_batch(&mut registry, id.clone()), Ok(()));
    let once = statuses(&get_batch_status(&registry, id.clone()).unwrap());
    assert_eq!(cancel_batch(&mut registry, id.clone()), Ok(()));
    assert!(registry.is_cancelled(&id));
    assert_eq!(statuses(&get_batch_status(&registry, id).unwrap()), once);
}

#[test]
fn cancel_of_absent_or_finished_batch_changes_nothing() {
    let mut registry = Registry::new();
    assert_eq!(cancel_batch(&mut registry, "ghost".to_string()), Ok(()));
    assert!(!registry.is_cancelled(&"ghost".to_string()));
    assert!(!registry.contains(&"ghost".to_string()));

    let id = submit(&mut registry, &[1]);
    let (mut executor, _) = BatchExecutor::start(&mut registry, id.clone(), 0);
    executor.resume(&mut registry, accepted(1), 1);
    let before = get_batch_status(&registry, id.clone()).unwrap();
    assert_eq!(cancel_batch(&mut registry, id.clone()), Ok(()));
    assert!(!registry.is_cancelled(&id));
    let after = get_batch_status(&registry, id).unwrap();
    assert_eq!(statuses(&after), statuses(&before));
    assert_eq!(after.completed, before.completed);
}

#[test]
fn discard_twice_is_discard_once() {
    let mut registry = Registry::new();
    let keep = submit(&mut registry, &[9]);
    let id = submit(&mut registry, &[1]);
    clear_batch(&mut registry, id.clone());
    assert!(matches!(get_batch_status(&registry, id.clone()), Err(BatchError::NotFound)));
    clear_batch(&mut registry, id.clone());
    assert!(matches!(get_batch_status(&registry, id), Err(BatchError::NotFound)));
    clear_batch(&mut registry, "never-there".to_string());
    assert!(get_batch_status(&registry, keep).is_ok());
}

#[test]
fn discarded_batch_ends_its_run() {
    let mut registry = Registry::new();
    let id = submit(&mut registry, &[1, 2]);
    let (mut executor, _) = BatchExecutor::start(&mut registry, id.clone(), 0);
    clear_batch(&mut registry, id.clone());
    let action = executor.resume(&mut registry, accepted(1), 1);
    assert!(matches!(action, ExecutorAction::Finished));
    assert!(!registry.contains(&id));
    assert!(!registry.is_cancelled(&id));
}

#[test]
fn terminal_tasks_do_not_change() {
    let mut registry = Registry::new();
    let id = submit(&mut registry, &[1, 2]);
    let (mut executor, _) = BatchExecutor::start(&mut registry, id.clone(), 0);
    executor.resume(&mut registry, accepted(1), 4);
    let r = registry.mutate(&id, BatchUpdate::Start { index: 0 });
    assert_eq!(r, Err(BatchError::InvalidTransition));
    let r = registry.mutate(
        &id,
        BatchUpdate::Finish { index: 0, outcome: TaskOutcome::Failed("again".to_string()), at: 8 },
    );
    assert_eq!(r, Err(BatchError::InvalidTransition));
    let r = registry.mutate(&id, BatchUpdate::CancelFrom { index: 0, at: 8 });
    assert_eq!(r, Ok(()));
    let batch = get_batch_status(&registry, id.clone()).unwrap();
    assert_eq!(batch.tasks[0].status, TaskStatus::Success);
    assert_eq!(batch.tasks[0].completed_at, Some(4));
    assert_eq!(batch.tasks[1].status, TaskStatus::Running);
    assert_eq!(batch.success, 1);
    assert_eq!(batch.completed, 1);
    let r = registry.mutate(&"nope".to_string(), BatchUpdate::Start { index: 0 });
    assert_eq!(r, Err(BatchError::NotFound));
}

#[test]
fn resume_without_dispatch_does_nothing() {
    let mut registry = Registry::new();
    let id = submit(&mut registry, &[1]);
    let (mut executor, _) = BatchExecutor::start(&mut registry, id.clone(), 0);
    executor.resume(&mut registry, accepted(1), 1);
    let action = executor.resume(&mut registry, rejected("x"), 2);
    assert!(matches!(action, ExecutorAction::Finished));
    let batch = get_batch_status(&registry, id).unwrap();
    assert_eq!(batch.completed, 1);
    assert_eq!(batch.failed, 0);
}

#[test]
fn task_ids_of_a_batch_differ() {
    let mut registry = Registry::new();
    let aids: Vec<u64> = (1..=40).collect();
    let id = submit(&mut registry, &aids);
    let batch = get_batch_status(&registry, id.clone()).unwrap();
    assert_eq!(batch.tasks.len(), 40);
    for (i, a) in batch.tasks.iter().enumerate() {
        assert_ne!(a.id, id);
        assert_eq!(a.created_at, 1_700_000_123);
        for b in &batch.tasks[i + 1..] {
            assert_ne!(a.id, b.id);
        }
    }
    assert!(batch.has_task_id(&batch.tasks[7].id));
    assert!(!batch.has_task_id(&"not-an-id".to_string()));
}

#[test]
fn new_batch_is_dated_and_fresh() {
    let videos = vec![video(5, "a"), video(6, "b")];
    let batch = new_batch(&videos, &"text".to_string(), -42).unwrap();
    assert_eq!(batch.total, 2);
    assert_eq!(batch.tasks[0].video.aid, 5);
    assert_eq!(batch.tasks[1].video.aid, 6);
    assert_eq!(batch.tasks[0].created_at, -42);
    assert_eq!(batch.tasks[1].created_at, -42);
    assert_ne!(batch.tasks[0].id, batch.tasks[1].id);
    assert_counters_match_tasks(&batch);
    let none: Vec<VideoItem> = Vec::new();
    let empty = new_batch(&none, &"text".to_string(), 0).unwrap();
    assert_eq!(empty.total, 0);
}

#[test]
fn registry_insert_refuses_a_taken_id() {
    let mut registry = Registry::new();
    let mut batch = BatchStatus::new("fixed".to_string());
    batch.push_task("t1".to_string(), video(1, "a"), "hi".to_string(), 50);
    assert_eq!(registry.insert(batch), Ok(()));
    let again = BatchStatus::new("fixed".to_string());
    assert_eq!(registry.insert(again), Err(BatchError::DuplicateId));
    assert_eq!(registry.task_count(&"fixed".to_string()), 1);
    assert_eq!(registry.task_count(&"other".to_string()), 0);
    assert_eq!(registry.task_target(&"fixed".to_string(), 0), Some((1, "hi".to_string())));
    assert_eq!(registry.task_target(&"fixed".to_string(), 1), None);
    registry.clear_cancel(&"fixed".to_string());
    registry.set_cancel(&"fixed".to_string());
    assert!(!registry.is_cancelled(&"fixed".to_string()));
}

#[test]
fn begin_task_marks_and_hands_out_the_target() {
    let mut registry = Registry::new();
    let id = submit(&mut registry, &[31, 32]);
    assert_eq!(registry.begin_task(&id, 1), Ok((32, "nice video".to_string())));
    assert_eq!(registry.begin_task(&id, 1), Err(BatchError::InvalidTransition));
    assert_eq!(registry.begin_task(&id, 2), Err(BatchError::InvalidTransition));
    assert_eq!(registry.begin_task(&"none".to_string(), 0), Err(BatchError::NotFound));
    let batch = get_batch_status(&registry, id).unwrap();
    assert_eq!(statuses(&batch), vec![TaskStatus::Pending, TaskStatus::Running]);
}

#[test]
fn updates_on_a_batch_of_its_own() {
    let mut batch = BatchStatus::new("b".to_string());
    batch.push_task("t0".to_string(), video(1, "a"), "c".to_string(), 1);
    batch.push_task("t1".to_string(), video(2, "b"), "c".to_string(), 2);
    batch.push_task("t2".to_string(), video(3, "c"), "c".to_string(), 3);
    assert!(batch.is_well_formed());
    assert_eq!(batch.total, 3);
    assert!(!batch.finish(0, TaskOutcome::Success(None), 9));
    assert!(batch.start(0));
    assert!(!batch.start(0));
    assert!(!batch.start(3));
    assert!(batch.apply(BatchUpdate::Finish {
        index: 0,
        outcome: TaskOutcome::Failed("no".to_string()),
        at: 10,
    }));
    assert!(batch.apply(BatchUpdate::CancelFrom { index: 2, at: 11 }));
    assert_eq!(
        statuses(&batch),
        vec![TaskStatus::Failed, TaskStatus::Pending, TaskStatus::Cancelled]
    );
    assert_eq!((batch.completed, batch.success, batch.failed), (2, 0, 1));
    assert!(batch.is_well_formed());
    batch.cancel_from(7, 12);
    assert_eq!(batch.tasks[1].status, TaskStatus::Pending);
    assert_eq!(batch.completed, 2);
    batch.completed = 1;
    assert!(!batch.is_well_formed());
    batch.completed = 2;
    assert!(batch.is_well_formed());
    batch.cancel_from(0, 13);
    assert_eq!(
        statuses(&batch),
        vec![TaskStatus::Failed, TaskStatus::Cancelled, TaskStatus::Cancelled]
    );
    assert_eq!(batch.completed, 3);
    assert_eq!(batch.tasks[1].completed_at, Some(13));
    assert_eq!(batch.tasks[2].completed_at, Some(11));
    assert!(batch.is_well_formed());
    batch.tasks[1].error_msg = Some("stray".to_string());
    assert!(!batch.is_well_formed());
    assert!(TaskStatus::Cancelled.is_terminal());
    assert!(!TaskStatus::Running.is_terminal());
}

#[test]
fn two_batches_do_not_touch_each_other() {
    let mut registry = Registry::new();
    let a = submit(&mut registry, &[1, 2]);
    let b = submit(&mut registry, &[3]);
    assert_ne!(a, b);
    let (mut ea, _) = BatchExecutor::start(&mut registry, a.clone(), 0);
    let (mut eb, _) = BatchExecutor::start(&mut registry, b.clone(), 0);
    cancel_batch(&mut registry, a.clone()).unwrap();
    eb.resume(&mut registry, accepted(1), 1);
    ea.resume(&mut registry, accepted(2), 2);
    let sa = get_batch_status(&registry, a).unwrap();
    let sb = get_batch_status(&registry, b).unwrap();
    assert_eq!(statuses(&sa), vec![TaskStatus::Success, TaskStatus::Cancelled]);
    assert_eq!(statuses(&sb), vec![TaskStatus::Success]);
}
