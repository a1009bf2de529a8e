//! Which scheduler job runs which stored schedule, kept both ways.
use vstd::prelude::*;
use std::collections::HashMap;

verus! {

broadcast use vstd::std_specs::hash::group_hash_axioms;

/// The bookkeeping between scheduler jobs and stored schedules, both ids
/// carried as the 128 bits of their UUIDs.
pub struct JobIndex {
    /// job id -> schedule id
    pub job_db_map: HashMap<u128, u128>,
    /// schedule id -> job id
    pub db_job_map: HashMap<u128, u128>,
}

impl JobIndex {
    /// The two maps undo each other: each job names a schedule that names it
    /// back, and each schedule names a job that names it back.
    pub open spec fn is_inverse(&self) -> bool {
        &&& forall|job: u128| #[trigger] self.job_db_map@.contains_key(job)
            ==> self.db_job_map@.contains_key(self.job_db_map@[job])
                && self.db_job_map@[self.job_db_map@[job]] == job
        &&& forall|db: u128| #[trigger] self.db_job_map@.contains_key(db)
            ==> self.job_db_map@.contains_key(self.db_job_map@[db])
                && self.job_db_map@[self.db_job_map@[db]] == db
    }

    /// No job and no schedule yet.
    pub fn new() -> (r: Self)
        ensures
            r.job_db_map@ == Map::<u128, u128>::empty(),
            r.db_job_map@ == Map::<u128, u128>::empty(),
            r.is_inverse(),
    {
        JobIndex { job_db_map: HashMap::new(), db_job_map: HashMap::new() }
    }

    /// Records that `job` runs the schedule `db`, in both maps.  A fresh job
    /// for a schedule not yet registered keeps the maps inverse to each other.
    pub fn register(&mut self, job: u128, db: u128)
        ensures
            final(self).job_db_map@ == old(self).job_db_map@.insert(job, db),
            final(self).db_job_map@ == old(self).db_job_map@.insert(db, job),
            old(self).is_inverse() && !old(self).job_db_map@.contains_key(job)
                && !old(self).db_job_map@.contains_key(db) ==> final(self).is_inverse(),
    {
        let ghost before = *self;
        self.job_db_map.insert(job, db);
        self.db_job_map.insert(db, job);
        proof {
            if before.is_inverse() && !before.job_db_map@.contains_key(job) && !before.db_job_map@.contains_key(db) {
                lemma_register_keeps_inverse(before, *self, job, db);
            }
        }
    }

    /// Records each pair `(job, schedule)` of `pairs`, in order, in both maps.
    /// When the jobs and the schedules of `pairs` are all distinct and none is
    /// registered yet, the maps stay inverse to each other, and each job finds
    /// its schedule and each schedule its job.
    pub fn register_all(&mut self, pairs: &Vec<(u128, u128)>)
        ensures
            final(self).job_db_map@ == insert_pairs(old(self).job_db_map@, pairs@, false),
            final(self).db_job_map@ == insert_pairs(old(self).db_job_map@, pairs@, true),
            old(self).is_inverse() && fresh_pairs(*old(self), pairs@) ==> {
                &&& final(self).is_inverse()
                &&& forall|k: int| 0 <= k < pairs.len() ==> {
                    &&& final(self).job_db_map@.contains_key((#[trigger] pairs@[k]).0)
                    &&& final(self).job_db_map@[pairs@[k].0] == pairs@[k].1
                    &&& final(self).db_job_map@.contains_key(pairs@[k].1)
                    &&& final(self).db_job_map@[pairs@[k].1] == pairs@[k].0
                }
            },
    {
        let ghost start = *self;
        let mut i: usize = 0;
        while i < pairs.len()
            invariant
                0 <= i <= pairs.len(),
                self.job_db_map@ == insert_pairs(start.job_db_map@, pairs@.take(i as int), false),
                self.db_job_map@ == insert_pairs(start.db_job_map@, pairs@.take(i as int), true),
                start.is_inverse() && fresh_pairs(start, pairs@) ==> {
                    &&& self.is_inverse()
                    &&& forall|k: int| 0 <= k < i ==> {
                        &&& self.job_db_map@.contains_key((#[trigger] pairs@[k]).0)
                        &&& self.job_db_map@[pairs@[k].0] == pairs@[k].1
                        &&& self.db_job_map@.contains_key(pairs@[k].1)
                        &&& self.db_job_map@[pairs@[k].1] == pairs@[k].0
                    }
                    &&& forall|k: int| i <= k < pairs.len() ==> !self.job_db_map@.contains_key((#[trigger] pairs@[k]).0)
                        && !self.db_job_map@.contains_key(pairs@[k].1)
                },
            decreases pairs.len() - i,
        {
            let (job, db) = pairs[i];
            let ghost before = *self;
            self.register(job, db);
            proof {
                assert(pairs@.take(i as int + 1).drop_last() =~= pairs@.take(i as int));
                assert(pairs@.take(i as int + 1).last() == pairs@[i as int]);
            }
            i = i + 1;
        }
        proof {
            assert(pairs@.take(pairs.len() as int) =~= pairs@);
        }
    }

    /// The schedule that `job` runs, if it is known.
    pub fn schedule_of_job(&self, job: u128) -> (r: Option<u128>)
        ensures
            r == (if self.job_db_map@.contains_key(job) { Some(self.job_db_map@[job]) } else { None::<u128> }),
    {
        match self.job_db_map.get(&job) {
            Some(db) => Some(*db),
            None => None,
        }
    }

    /// The job that runs the schedule `db`, if it is known.
    pub fn job_of_schedule(&self, db: u128) -> (r: Option<u128>)
        ensures
            r == (if self.db_job_map@.contains_key(db) { Some(self.db_job_map@[db]) } else { None::<u128> }),
    {
        match self.db_job_map.get(&db) {
            Some(job) => Some(*job),
            None => None,
        }
    }
}

/// The map after inserting each pair of `pairs` in order: job -> schedule, or
/// schedule -> job when `flipped`.
pub open spec fn insert_pairs(m: Map<u128, u128>, pairs: Seq<(u128, u128)>, flipped: bool) -> Map<u128, u128>
    decreases pairs.len(),
{
    if pairs.len() == 0 {
        m
    } else {
        let (job, db) = pairs.last();
        let earlier = insert_pairs(m, pairs.drop_last(), flipped);
        if flipped { earlier.insert(db, job) } else { earlier.insert(job, db) }
    }
}

/// The jobs of `pairs` are distinct and unregistered, and so are its schedules.
pub open spec fn fresh_pairs(index: JobIndex, pairs: Seq<(u128, u128)>) -> bool {
    &&& forall|k: int, l: int| 0 <= k < l < pairs.len() ==> (#[trigger] pairs[k]).0 != (#[trigger] pairs[l]).0
        && pairs[k].1 != pairs[l].1
    &&& forall|k: int| 0 <= k < pairs.len() ==> !index.job_db_map@.contains_key((#[trigger] pairs[k]).0)
        && !index.db_job_map@.contains_key(pairs[k].1)
}

/// Registering a fresh job for a schedule not yet registered keeps the two maps
/// inverse to each other, and makes each find the other.
pub proof fn lemma_register_keeps_inverse(before: JobIndex, after: JobIndex, job: u128, db: u128)
    requires
        before.is_inverse(),
        !before.job_db_map@.contains_key(job),
        !before.db_job_map@.contains_key(db),
        after.job_db_map@ == before.job_db_map@.insert(job, db),
        after.db_job_map@ == before.db_job_map@.insert(db, job),
    ensures
        after.is_inverse(),
        after.job_db_map@[job] == db,
        after.db_job_map@[db] == job,
{
    assert forall|j: u128| #[trigger] after.job_db_map@.contains_key(j) implies after.db_job_map@.contains_key(after.job_db_map@[j])
        && after.db_job_map@[after.job_db_map@[j]] == j by {
        if j != job {
            assert(before.job_db_map@.contains_key(j));
            let d = before.job_db_map@[j];
            assert(before.db_job_map@.contains_key(d));
            assert(d != db);
        }
    }
    assert forall|d: u128| #[trigger] after.db_job_map@.contains_key(d) implies after.job_db_map@.contains_key(after.db_job_map@[d])
        && after.job_db_map@[after.db_job_map@[d]] == d by {
        if d != db {
            assert(before.db_job_map@.contains_key(d));
            let j = before.db_job_map@[d];
            assert(before.job_db_map@.contains_key(j));
            assert(j != job);
        }
    }
}

} // verus!
