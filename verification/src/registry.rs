//! The batch registry: every batch by its id, and beside it one
//! cancellation flag for each batch whose executor is still alive.
//!
//! The registry is a plain value. Whoever shares it between the boundary
//! operations and the executors guards it with a lock and holds the lock for
//! one operation at a time; each operation here is then one atomic step.

use crate::assoc::{
    assoc_map, lemma_assoc_at, lemma_assoc_empty, lemma_assoc_push, lemma_assoc_remove,
    lemma_assoc_set,
};
use crate::batch::{apply_update, can_start, start_task, update_enabled, BatchUpdate};
use crate::models::{BatchStatus, BatchView};
use vstd::prelude::*;

verus! {

/// Why a boundary or registry operation did not go through.
#[derive(Debug, Clone, Copy, PartialEq, Eq, Structural)]
pub enum BatchError {
    /// No batch has this id.
    NotFound,
    /// A batch with this id is already registered.
    DuplicateId,
    /// The update does not fit the task's present state.
    InvalidTransition,
    /// A submission named no target.
    EmptySubmission,
}

struct CancelFlag {
    batch_id: String,
    cancelled: bool,
}

/// All batches and their cancellation flags.
pub struct Registry {
    batches: Vec<BatchStatus>,
    flags: Vec<CancelFlag>,
}

/// The registry as two maps from batch id: to the batch, and to its
/// cancellation flag while it has one.
pub struct RegistryView {
    pub batches: Map<Seq<char>, BatchView>,
    pub flags: Map<Seq<char>, bool>,
}

impl RegistryView {
    /// Whether cancellation of `id` has been asked for and not yet cleared.
    pub open spec fn is_cancelled(self, id: Seq<char>) -> bool {
        self.flags.contains_key(id) && self.flags[id]
    }

    /// The registry after a cancel request for `id`: the flag is raised
    /// where there is one, and nothing changes where there is none.
    pub open spec fn cancel(self, id: Seq<char>) -> RegistryView {
        if self.flags.contains_key(id) {
            RegistryView { flags: self.flags.insert(id, true), ..self }
        } else {
            self
        }
    }

    /// The registry after the batch `id` was discarded.
    pub open spec fn discard(self, id: Seq<char>) -> RegistryView {
        RegistryView { batches: self.batches.remove(id), ..self }
    }

    /// The registry after `batch` was registered, with a lowered flag.
    pub open spec fn register(self, batch: BatchView) -> RegistryView {
        RegistryView {
            batches: self.batches.insert(batch.batch_id, batch),
            flags: self.flags.insert(batch.batch_id, false),
        }
    }

    /// The registry with `batch` as the batch that stands under `id`.
    pub open spec fn update(self, id: Seq<char>, batch: BatchView) -> RegistryView {
        RegistryView { batches: self.batches.insert(id, batch), ..self }
    }

    /// The registry after the flag of `id` was taken away.
    pub open spec fn clear_cancel(self, id: Seq<char>) -> RegistryView {
        RegistryView { flags: self.flags.remove(id), ..self }
    }

    /// Every registered batch is well formed and stands under its own id.
    pub open spec fn wf(self) -> bool {
        forall|id: Seq<char>| #[trigger]
            self.batches.contains_key(id) ==> self.batches[id].wf() && self.batches[id].batch_id
                == id
    }
}

spec fn batch_keys(s: Seq<BatchStatus>) -> Seq<Seq<char>> {
    s.map_values(|b: BatchStatus| b.batch_id@)
}

spec fn batch_vals(s: Seq<BatchStatus>) -> Seq<BatchView> {
    s.map_values(|b: BatchStatus| b@)
}

spec fn flag_keys(s: Seq<CancelFlag>) -> Seq<Seq<char>> {
    s.map_values(|f: CancelFlag| f.batch_id@)
}

spec fn flag_vals(s: Seq<CancelFlag>) -> Seq<bool> {
    s.map_values(|f: CancelFlag| f.cancelled)
}

impl View for Registry {
    type V = RegistryView;

    closed spec fn view(&self) -> RegistryView {
        RegistryView {
            batches: assoc_map(batch_keys(self.batches@), batch_vals(self.batches@)),
            flags: assoc_map(flag_keys(self.flags@), flag_vals(self.flags@)),
        }
    }
}

impl Registry {
    #[verifier::type_invariant]
    spec fn inv(&self) -> bool {
        &&& batch_keys(self.batches@).no_duplicates()
        &&& flag_keys(self.flags@).no_duplicates()
        &&& forall|i: int| 0 <= i < self.batches.len() ==> (#[trigger] self.batches[i])@.wf()
    }

    proof fn lemma_view_wf(&self)
        requires
            self.inv(),
        ensures
            self@.wf(),
    {
        let keys = batch_keys(self.batches@);
        let vals = batch_vals(self.batches@);
        assert forall|id: Seq<char>| #[trigger] self@.batches.contains_key(id) implies self@.batches[id].wf()
            && self@.batches[id].batch_id == id by {
            let i = keys.index_of(id);
            lemma_assoc_at(keys, vals, i);
            assert(self.batches[i]@.wf());
        }
    }

    /// An empty registry.
    pub fn new() -> (r: Self)
        ensures
            r@.batches == Map::<Seq<char>, BatchView>::empty(),
            r@.flags == Map::<Seq<char>, bool>::empty(),
            r@.wf(),
    {
        let r = Registry { batches: Vec::new(), flags: Vec::new() };
        proof {
            lemma_assoc_empty::<BatchView>();
            lemma_assoc_empty::<bool>();
            assert(batch_keys(r.batches@) =~= Seq::<Seq<char>>::empty());
            assert(batch_vals(r.batches@) =~= Seq::<BatchView>::empty());
            assert(flag_keys(r.flags@) =~= Seq::<Seq<char>>::empty());
            assert(flag_vals(r.flags@) =~= Seq::<bool>::empty());
        }
        r
    }

    fn take_batches(&mut self) -> (b: Vec<BatchStatus>)
        ensures
            b == old(self).batches,
            final(self).batches@ == Seq::<BatchStatus>::empty(),
            final(self).flags == old(self).flags,
    {
        proof {
            use_type_invariant(&*self);
        }
        let mut b: Vec<BatchStatus> = Vec::new();
        std::mem::swap(&mut b, &mut self.batches);
        b
    }

    fn take_flags(&mut self) -> (f: Vec<CancelFlag>)
        ensures
            f == old(self).flags,
            final(self).flags@ == Seq::<CancelFlag>::empty(),
            final(self).batches == old(self).batches,
    {
        proof {
            use_type_invariant(&*self);
        }
        let mut f: Vec<CancelFlag> = Vec::new();
        std::mem::swap(&mut f, &mut self.flags);
        f
    }

    fn find_batch(&self, id: &String) -> (r: Option<usize>)
        ensures
            match r {
                Some(i) => i < self.batches.len() && self.batches[i as int].batch_id@ == id@,
                None => !batch_keys(self.batches@).contains(id@),
            },
    {
        let mut i: usize = 0;
        while i < self.batches.len()
            invariant
                i <= self.batches.len(),
                forall|j: int| 0 <= j < i ==> batch_keys(self.batches@)[j] != id@,
            decreases self.batches.len() - i,
        {
            if self.batches[i].batch_id == *id {
                return Some(i);
            }
            i = i + 1;
        }
        None
    }

    fn find_flag(&self, id: &String) -> (r: Option<usize>)
        ensures
            match r {
                Some(i) => i < self.flags.len() && self.flags[i as int].batch_id@ == id@,
                None => !flag_keys(self.flags@).contains(id@),
            },
    {
        let mut i: usize = 0;
        while i < self.flags.len()
            invariant
                i <= self.flags.len(),
                forall|j: int| 0 <= j < i ==> flag_keys(self.flags@)[j] != id@,
            decreases self.flags.len() - i,
        {
            if self.flags[i].batch_id == *id {
                return Some(i);
            }
            i = i + 1;
        }
        None
    }

    /// Whether a batch with this id is registered.
    pub fn contains(&self, batch_id: &String) -> (found: bool)
        ensures
            found == self@.batches.contains_key(batch_id@),
            self@.wf(),
    {
        proof {
            use_type_invariant(self);
            self.lemma_view_wf();
        }
        match self.find_batch(batch_id) {
            Some(i) => {
                proof {
                    lemma_assoc_at(
                        batch_keys(self.batches@),
                        batch_vals(self.batches@),
                        i as int,
                    );
                }
                true
            },
            None => false,
        }
    }

    /// How many tasks the batch has; zero where no such batch is
    /// registered.
    pub fn task_count(&self, batch_id: &String) -> (n: usize)
        ensures
            n == if self@.batches.contains_key(batch_id@) {
                self@.batches[batch_id@].tasks.len()
            } else {
                0
            },
            self@.wf(),
    {
        proof {
            use_type_invariant(self);
            self.lemma_view_wf();
        }
        match self.find_batch(batch_id) {
            Some(i) => {
                proof {
                    lemma_assoc_at(
                        batch_keys(self.batches@),
                        batch_vals(self.batches@),
                        i as int,
                    );
                }
                self.batches[i].tasks.len()
            },
            None => 0,
        }
    }

    /// What the dispatcher needs for task `index` of the batch: the video's
    /// numeric id and the comment text. `None` where there is no such batch
    /// or no such task.
    pub fn task_target(&self, batch_id: &String, index: usize) -> (target: Option<(u64, String)>)
        ensures
            match target {
                Some((aid, content)) => {
                    &&& self@.batches.contains_key(batch_id@)
                    &&& index < self@.batches[batch_id@].tasks.len()
                    &&& aid == self@.batches[batch_id@].tasks[index as int].video.aid
                    &&& content@ == self@.batches[batch_id@].tasks[index as int].content
                },
                None => !self@.batches.contains_key(batch_id@) || index
                    >= self@.batches[batch_id@].tasks.len(),
            },
    {
        proof {
            use_type_invariant(self);
        }
        match self.find_batch(batch_id) {
            Some(i) => {
                proof {
                    lemma_assoc_at(
                        batch_keys(self.batches@),
                        batch_vals(self.batches@),
                        i as int,
                    );
                }
                if index < self.batches[i].tasks.len() {
                    let task = &self.batches[i].tasks[index];
                    Some((task.video.aid, task.content.clone()))
                } else {
                    None
                }
            },
            None => None,
        }
    }

    /// Registers a new batch and gives it a lowered cancellation flag.
    /// Fails, changing nothing, if the id is already taken.
    pub fn insert(&mut self, batch: BatchStatus) -> (r: Result<(), BatchError>)
        requires
            batch@.wf(),
        ensures
            match r {
                Ok(()) => !old(self)@.batches.contains_key(batch@.batch_id) && final(self)@
                    == old(self)@.register(batch@),
                Err(e) => e == BatchError::DuplicateId && old(self)@.batches.contains_key(
                    batch@.batch_id,
                ) && final(self)@ == old(self)@,
            },
            final(self)@.wf(),
    {
        proof {
            use_type_invariant(&*self);
            self.lemma_view_wf();
        }
        let ghost bkeys = batch_keys(self.batches@);
        let ghost bvals = batch_vals(self.batches@);
        let ghost fkeys = flag_keys(self.flags@);
        let ghost fvals = flag_vals(self.flags@);
        match self.find_batch(&batch.batch_id) {
            Some(i) => {
                proof {
                    lemma_assoc_at(bkeys, bvals, i as int);
                }
                Err(BatchError::DuplicateId)
            },
            None => {
                let flag_at = self.find_flag(&batch.batch_id);
                let id = batch.batch_id.clone();
                let ghost added = batch@;
                let mut batches = self.take_batches();
                batches.push(batch);
                proof {
                    assert(batch_keys(batches@) =~= bkeys.push(added.batch_id));
                    assert(batch_vals(batches@) =~= bvals.push(added));
                    lemma_assoc_push(bkeys, bvals, added.batch_id, added);
                }
                self.batches = batches;
                let mut flags = self.take_flags();
                match flag_at {
                    Some(j) => {
                        flags[j].cancelled = false;
                        proof {
                            assert(flag_keys(flags@) =~= fkeys);
                            assert(flag_vals(flags@) =~= fvals.update(j as int, false));
                            lemma_assoc_at(fkeys, fvals, j as int);
                            lemma_assoc_set(fkeys, fvals, j as int, false);
                        }
                    },
                    None => {
                        flags.push(CancelFlag { batch_id: id, cancelled: false });
                        proof {
                            assert(flag_keys(flags@) =~= fkeys.push(added.batch_id));
                            assert(flag_vals(flags@) =~= fvals.push(false));
                            lemma_assoc_push(fkeys, fvals, added.batch_id, false);
                        }
                    },
                }
                self.flags = flags;
                proof {
                    assert(self@.flags == old(self)@.flags.insert(added.batch_id, false));
                    assert(self@.batches == old(self)@.batches.insert(added.batch_id, added));
                    self.lemma_view_wf();
                }
                Ok(())
            },
        }
    }

    /// A snapshot copy of the batch. Fails with `NotFound` exactly when no
    /// batch has this id.
    pub fn get(&self, batch_id: &String) -> (r: Result<BatchStatus, BatchError>)
        ensures
            match r {
                Ok(snapshot) => self@.batches.contains_key(batch_id@) && snapshot@
                    == self@.batches[batch_id@] && snapshot@.wf(),
                Err(e) => e == BatchError::NotFound && !self@.batches.contains_key(batch_id@),
            },
    {
        proof {
            use_type_invariant(self);
        }
        match self.find_batch(batch_id) {
            Some(i) => {
                proof {
                    lemma_assoc_at(
                        batch_keys(self.batches@),
                        batch_vals(self.batches@),
                        i as int,
                    );
                }
                Ok(self.batches[i].clone())
            },
            None => Err(BatchError::NotFound),
        }
    }

    /// Applies one update to one batch, in place and as one step. Fails,
    /// changing nothing, with `NotFound` where no batch has this id and with
    /// `InvalidTransition` where the update does not fit the task's state.
    pub fn mutate(&mut self, batch_id: &String, update: BatchUpdate) -> (r: Result<(), BatchError>)
        ensures
            match r {
                Ok(()) => {
                    &&& old(self)@.batches.contains_key(batch_id@)
                    &&& update_enabled(old(self)@.batches[batch_id@], update@)
                    &&& final(self)@ == old(self)@.update(
                        batch_id@,
                        apply_update(old(self)@.batches[batch_id@], update@),
                    )
                },
                Err(e) => {
                    &&& final(self)@ == old(self)@
                    &&& e == BatchError::NotFound || e == BatchError::InvalidTransition
                    &&& e == BatchError::NotFound <==> !old(self)@.batches.contains_key(batch_id@)
                    &&& e == BatchError::InvalidTransition ==> !update_enabled(
                        old(self)@.batches[batch_id@],
                        update@,
                    )
                },
            },
            final(self)@.wf(),
    {
        proof {
            use_type_invariant(&*self);
            self.lemma_view_wf();
        }
        let ghost bkeys = batch_keys(self.batches@);
        let ghost bvals = batch_vals(self.batches@);
        match self.find_batch(batch_id) {
            Some(i) => {
                proof {
                    lemma_assoc_at(bkeys, bvals, i as int);
                }
                let mut batches = self.take_batches();
                let applied = batches[i].apply(update);
                proof {
                    let after = batches[i as int]@;
                    assert(batch_keys(batches@) =~= bkeys);
                    assert(batch_vals(batches@) =~= bvals.update(i as int, after));
                    lemma_assoc_set(bkeys, bvals, i as int, after);
                }
                self.batches = batches;
                proof {
                    if !applied {
                        assert(self@.batches =~= old(self)@.batches);
                    }
                    self.lemma_view_wf();
                }
                if applied {
                    Ok(())
                } else {
                    Err(BatchError::InvalidTransition)
                }
            },
            None => Err(BatchError::NotFound),
        }
    }

    /// Marks task `index` of the batch as `Running` and hands out what the
    /// dispatcher needs for it, the video's numeric id and the comment
    /// text, all in one step. Fails, changing nothing, with `NotFound` where
    /// no batch has this id and with `InvalidTransition` where the batch has
    /// no such task or the task is not `Pending`.
    pub fn begin_task(&mut self, batch_id: &String, index: usize) -> (r: Result<
        (u64, String),
        BatchError,
    >)
        ensures
            match r {
                Ok((aid, content)) => {
                    &&& old(self)@.batches.contains_key(batch_id@)
                    &&& can_start(old(self)@.batches[batch_id@], index as int)
                    &&& final(self)@ == old(self)@.update(
                        batch_id@,
                        start_task(old(self)@.batches[batch_id@], index as int),
                    )
                    &&& aid == old(self)@.batches[batch_id@].tasks[index as int].video.aid
                    &&& content@ == old(self)@.batches[batch_id@].tasks[index as int].content
                },
                Err(e) => {
                    &&& final(self)@ == old(self)@
                    &&& e == BatchError::NotFound || e == BatchError::InvalidTransition
                    &&& e == BatchError::NotFound <==> !old(self)@.batches.contains_key(batch_id@)
                    &&& e == BatchError::InvalidTransition ==> !can_start(
                        old(self)@.batches[batch_id@],
                        index as int,
                    )
                },
            },
            final(self)@.wf(),
    {
        match self.task_target(batch_id, index) {
            Some((aid, content)) => match self.mutate(batch_id, BatchUpdate::Start { index }) {
                Ok(()) => Ok((aid, content)),
                Err(e) => Err(e),
            },
            None => {
                if self.contains(batch_id) {
                    Err(BatchError::InvalidTransition)
                } else {
                    Err(BatchError::NotFound)
                }
            },
        }
    }

    /// Discards the batch record. Does nothing where no batch has this id.
    /// The cancellation flag is not part of the record and stays.
    pub fn remove(&mut self, batch_id: &String)
        ensures
            final(self)@ == old(self)@.discard(batch_id@),
            final(self)@.wf(),
    {
        proof {
            use_type_invariant(&*self);
            self.lemma_view_wf();
        }
        let ghost bkeys = batch_keys(self.batches@);
        let ghost bvals = batch_vals(self.batches@);
        match self.find_batch(batch_id) {
            Some(i) => {
                let mut batches = self.take_batches();
                let _ = batches.remove(i);
                proof {
                    assert(batch_keys(batches@) =~= bkeys.remove(i as int));
                    assert(batch_vals(batches@) =~= bvals.remove(i as int));
                    lemma_assoc_remove(bkeys, bvals, i as int);
                    assert forall|k: int| 0 <= k < batches.len() implies (#[trigger] batches[k])@.wf() by {
                        let src = if k < i {
                            k
                        } else {
                            k + 1
                        };
                        assert(batches[k] == old(self).batches[src]);
                    }
                }
                self.batches = batches;
                proof {
                    self.lemma_view_wf();
                }
            },
            None => {
                proof {
                    assert(self@.batches =~= old(self)@.batches.remove(batch_id@));
                }
            },
        }
    }

    /// Raises the cancellation flag of a batch whose executor is alive.
    /// Does nothing where the batch has no flag: it has finished, or was
    /// never registered.
    pub fn set_cancel(&mut self, batch_id: &String)
        ensures
            final(self)@ == old(self)@.cancel(batch_id@),
            final(self)@.wf(),
    {
        proof {
            use_type_invariant(&*self);
            self.lemma_view_wf();
        }
        let ghost fkeys = flag_keys(self.flags@);
        let ghost fvals = flag_vals(self.flags@);
        match self.find_flag(batch_id) {
            Some(j) => {
                let mut flags = self.take_flags();
                flags[j].cancelled = true;
                proof {
                    lemma_assoc_at(fkeys, fvals, j as int);
                    assert(flag_keys(flags@) =~= fkeys);
                    assert(flag_vals(flags@) =~= fvals.update(j as int, true));
                    lemma_assoc_set(fkeys, fvals, j as int, true);
                }
                self.flags = flags;
            },
            None => {},
        }
    }

    /// Whether cancellation of this batch has been asked for.
    pub fn is_cancelled(&self, batch_id: &String) -> (c: bool)
        ensures
            c == self@.is_cancelled(batch_id@),
    {
        proof {
            use_type_invariant(self);
        }
        match self.find_flag(batch_id) {
            Some(j) => {
                proof {
                    lemma_assoc_at(flag_keys(self.flags@), flag_vals(self.flags@), j as int);
                }
                self.flags[j].cancelled
            },
            None => false,
        }
    }

    /// Takes the cancellation flag of a batch away, once its executor is
    /// done. Does nothing where there is none.
    pub fn clear_cancel(&mut self, batch_id: &String)
        ensures
            final(self)@ == old(self)@.clear_cancel(batch_id@),
            final(self)@.wf(),
    {
        proof {
            use_type_invariant(&*self);
            self.lemma_view_wf();
        }
        let ghost fkeys = flag_keys(self.flags@);
        let ghost fvals = flag_vals(self.flags@);
        match self.find_flag(batch_id) {
            Some(j) => {
                let mut flags = self.take_flags();
                let _ = flags.remove(j);
                proof {
                    assert(flag_keys(flags@) =~= fkeys.remove(j as int));
                    assert(flag_vals(flags@) =~= fvals.remove(j as int));
                    lemma_assoc_remove(fkeys, fvals, j as int);
                }
                self.flags = flags;
            },
            None => {
                proof {
                    assert(self@.flags =~= old(self)@.flags.remove(batch_id@));
                }
            },
        }
    }
}

} // verus!
