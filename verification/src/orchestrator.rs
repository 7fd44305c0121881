//! The boundary operations: submit a batch, ask for its status, ask for its
//! cancellation, discard it. Each takes the registry it works on; none
//! waits for a task to run.

use crate::batch::{fresh_batch, fresh_task, submitted_as, task_ids, task_stamps, with_task};
use crate::models::{video_views, BatchStatus, BatchView, VideoItem};
use crate::outside::new_uuid;
use crate::registry::{BatchError, Registry, RegistryView};
use vstd::prelude::*;

verus! {

/// The text shown for a boundary failure.
pub open spec fn batch_error_text(e: BatchError) -> Seq<char> {
    match e {
        BatchError::NotFound => "批次不存在"@,
        BatchError::DuplicateId => "批次已存在"@,
        BatchError::InvalidTransition => "任务状态不允许此操作"@,
        BatchError::EmptySubmission => "没有可评论的视频"@,
    }
}

impl BatchError {
    /// The text shown to the user for this failure.
    pub fn to_user_message(&self) -> (text: String)
        ensures
            text@ == batch_error_text(*self),
    {
        match self {
            BatchError::NotFound => String::from_str("批次不存在"),
            BatchError::DuplicateId => String::from_str("批次已存在"),
            BatchError::InvalidTransition => String::from_str("任务状态不允许此操作"),
            BatchError::EmptySubmission => String::from_str("没有可评论的视频"),
        }
    }
}

/// All tasks of the batch were made at `now`.
pub open spec fn all_made_at(b: BatchView, now: i64) -> bool {
    forall|i: int| 0 <= i < b.tasks.len() ==> (#[trigger] b.tasks[i]).created_at == now
}

/// Whether a submission is refused for the ids that were drawn for it: the
/// id of the batch is already taken, or two of its tasks got the same id.
pub open spec fn draws_repeat(before: RegistryView, batch_id: Seq<char>, ids: Seq<Seq<char>>) -> bool {
    before.batches.contains_key(batch_id) || !ids.no_duplicates()
}

/// Builds the batch for one submission made at `now`: a fresh id for the
/// batch, and for each video, in order, a fresh task with an id of its
/// own. The ids of the tasks are tested as they are drawn: where one
/// repeats an earlier one there is no batch, which takes two videos at
/// least.
pub fn new_batch(videos: &Vec<VideoItem>, content: &String, now: i64) -> (r: Option<BatchStatus>)
    ensures
        match r {
            Some(batch) => {
                &&& submitted_as(batch@, batch@.batch_id, video_views(videos@), content@)
                &&& task_ids(batch@).no_duplicates()
                &&& all_made_at(batch@, now)
                &&& batch@.wf()
            },
            None => videos@.len() >= 2,
        },
{
    let mut batch = BatchStatus::new(new_uuid());
    let ghost batch_id = batch@.batch_id;
    assert(fresh_batch(
        batch_id,
        task_ids(batch@),
        task_stamps(batch@),
        video_views(videos@).take(0),
        content@,
    ).tasks =~= batch@.tasks);
    let mut i: usize = 0;
    while i < videos.len()
        invariant
            i <= videos.len(),
            batch@.wf(),
            batch@.batch_id == batch_id,
            batch@.tasks.len() == i,
            submitted_as(batch@, batch_id, video_views(videos@).take(i as int), content@),
            task_ids(batch@).no_duplicates(),
            all_made_at(batch@, now),
        decreases videos.len() - i,
    {
        let ghost before = batch@;
        let id = new_uuid();
        if batch.has_task_id(&id) {
            return None;
        }
        let ghost task = fresh_task(id@, videos[i as int]@, content@, now);
        batch.push_task(id, videos[i].clone(), content.clone(), now);
        proof {
            let seen = video_views(videos@).take(i as int + 1);
            assert(batch@ == with_task(before, task));
            assert(batch@.tasks =~= before.tasks.push(task));
            assert(task_ids(batch@) =~= task_ids(before).push(task.id));
            assert forall|a: int, b: int|
                0 <= a < task_ids(batch@).len() && 0 <= b < task_ids(batch@).len() && a
                    != b implies task_ids(batch@)[a] != task_ids(batch@)[b] by {
                if a < i && b < i {
                    assert(task_ids(before)[a] != task_ids(before)[b]);
                } else if a < i {
                    assert(task_ids(before)[a] != task.id);
                } else {
                    assert(task_ids(before)[b] != task.id);
                }
            }
            assert forall|k: int| 0 <= k < batch@.tasks.len() implies (#[trigger] batch@.tasks[k]).created_at
                == now by {
                if k < i {
                    assert(before.tasks[k].created_at == now);
                }
            }
            let want = fresh_batch(
                batch_id,
                task_ids(batch@),
                task_stamps(batch@),
                seen,
                content@,
            );
            assert forall|k: int| 0 <= k < batch@.tasks.len() implies batch@.tasks[k]
                == want.tasks[k] by {
                if k < i {
                    assert(before.tasks[k] == fresh_batch(
                        batch_id,
                        task_ids(before),
                        task_stamps(before),
                        video_views(videos@).take(i as int),
                        content@,
                    ).tasks[k]);
                }
            }
            assert(batch@.tasks =~= want.tasks);
        }
        i = i + 1;
    }
    assert(video_views(videos@).take(videos.len() as int) =~= video_views(videos@));
    Some(batch)
}

/// Submits a batch at time `now`: one task per video, all `Pending` and
/// made at `now`, registered under a fresh id with its cancellation flag
/// lowered. Returns the id at once; running the tasks is the executor's
/// part.
///
/// Fails with `EmptySubmission` exactly when `videos` is empty. Otherwise
/// ids are drawn, one for the batch and one for each task, and the
/// submission fails with `DuplicateId` exactly when the batch's id is
/// already taken or two tasks drew the same id; else it succeeds with the
/// ids drawn. So a submission of one video succeeds whenever the id drawn
/// for the batch is free, and always on a registry without batches. A
/// failure changes nothing.
pub fn batch_send_comments(
    registry: &mut Registry,
    videos: Vec<VideoItem>,
    content: String,
    now: i64,
) -> (r: Result<String, BatchError>)
    ensures
        videos@.len() == 0 <==> r == Err::<String, BatchError>(BatchError::EmptySubmission),
        videos@.len() > 0 ==> exists|id: Seq<char>, ids: Seq<Seq<char>>|
            {
                &&& ids.len() <= videos@.len()
                &&& if #[trigger] draws_repeat(old(registry)@, id, ids) {
                    r == Err::<String, BatchError>(BatchError::DuplicateId)
                } else {
                    &&& r is Ok
                    &&& r->Ok_0@ == id
                    &&& task_ids(final(registry)@.batches[id]) == ids
                }
            },
        match r {
            Ok(batch_id) => {
                let batch = final(registry)@.batches[batch_id@];
                &&& !old(registry)@.batches.contains_key(batch_id@)
                &&& final(registry)@.batches.contains_key(batch_id@)
                &&& final(registry)@ == old(registry)@.register(batch)
                &&& submitted_as(batch, batch_id@, video_views(videos@), content@)
                &&& task_ids(batch).no_duplicates()
                &&& all_made_at(batch, now)
            },
            Err(e) => {
                &&& final(registry)@ == old(registry)@
                &&& e == BatchError::EmptySubmission || e == BatchError::DuplicateId
            },
        },
{
    if videos.len() == 0 {
        return Err(BatchError::EmptySubmission);
    }
    match new_batch(&videos, &content, now) {
        Some(batch) => {
            let batch_id = batch.batch_id.clone();
            let ghost drawn = batch_id@;
            let ghost ids = task_ids(batch@);
            let r = match registry.insert(batch) {
                Ok(()) => Ok(batch_id),
                Err(_) => Err(BatchError::DuplicateId),
            };
            proof {
                assert(ids.len() == videos@.len());
                assert(if draws_repeat(old(registry)@, drawn, ids) {
                    r == Err::<String, BatchError>(BatchError::DuplicateId)
                } else {
                    &&& r is Ok
                    &&& r->Ok_0@ == drawn
                    &&& task_ids(registry@.batches[drawn]) == ids
                });
            }
            r
        },
        None => {
            proof {
                let twice = seq![Seq::<char>::empty(), Seq::<char>::empty()];
                assert(twice[0] == twice[1]);
                assert(!twice.no_duplicates());
                assert(draws_repeat(old(registry)@, Seq::<char>::empty(), twice));
            }
            Err(BatchError::DuplicateId)
        },
    }
}

/// A snapshot of the batch as it stands. Fails with `NotFound` exactly when
/// no batch has this id: never registered, or already discarded.
pub fn get_batch_status(registry: &Registry, batch_id: String) -> (r: Result<
    BatchStatus,
    BatchError,
>)
    ensures
        match r {
            Ok(snapshot) => registry@.batches.contains_key(batch_id@) && snapshot@
                == registry@.batches[batch_id@] && snapshot@.wf(),
            Err(e) => e == BatchError::NotFound && !registry@.batches.contains_key(batch_id@),
        },
{
    registry.get(&batch_id)
}

/// Asks for the cancellation of a batch. The executor sees the request
/// before it starts its next task; a task that is running finishes. Always
/// succeeds: for a batch that has finished, or that was never registered,
/// nothing changes.
pub fn cancel_batch(registry: &mut Registry, batch_id: String) -> (r: Result<(), BatchError>)
    ensures
        r is Ok,
        final(registry)@ == old(registry)@.cancel(batch_id@),
{
    registry.set_cancel(&batch_id);
    Ok(())
}

/// Discards the record of a batch. Does nothing where no batch has this
/// id.
pub fn clear_batch(registry: &mut Registry, batch_id: String)
    ensures
        final(registry)@ == old(registry)@.discard(batch_id@),
{
    registry.remove(&batch_id);
}

/// Cancelling twice is cancelling once: a second cancel request changes
/// nothing, and a request for a batch without a flag, finished or never
/// registered, changes nothing at all. No request touches a batch record.
pub proof fn cancel_is_idempotent(r: RegistryView, id: Seq<char>)
    ensures
        r.cancel(id).cancel(id) == r.cancel(id),
        !r.flags.contains_key(id) ==> r.cancel(id) == r,
        r.cancel(id).batches == r.batches,
{
    if r.flags.contains_key(id) {
        assert(r.flags.insert(id, true).insert(id, true) =~= r.flags.insert(id, true));
    }
}

/// Discarding twice is discarding once: a second discard changes nothing,
/// and discarding a batch that is not registered changes nothing at all. A
/// discarded batch is unknown from then on. No discard touches a
/// cancellation flag or another batch.
pub proof fn discard_is_idempotent(r: RegistryView, id: Seq<char>)
    ensures
        r.discard(id).discard(id) == r.discard(id),
        !r.discard(id).batches.contains_key(id),
        !r.batches.contains_key(id) ==> r.discard(id) == r,
        r.discard(id).flags == r.flags,
        forall|other: Seq<char>|
            other != id ==> (r.discard(id).batches.contains_key(other) <==> r.batches.contains_key(
                other,
            )),
        forall|other: Seq<char>|
            other != id && r.batches.contains_key(other) ==> r.discard(id).batches[other]
                == r.batches[other],
{
    assert(r.batches.remove(id).remove(id) =~= r.batches.remove(id));
    if !r.batches.contains_key(id) {
        assert(r.batches.remove(id) =~= r.batches);
    }
}

} // verus!
