//! The status transition ledger: an append-only history of every job's
//! status changes. Any status may follow any status; what the ledger keeps
//! is the chain: each entry starts from the status the previous one ended in.

use vstd::prelude::*;
use crate::error::{Entity, RepoError};
use crate::garage::models::{
    JobStatusHistoryItem, JobStatusHistoryItemView, JobStatusUpdateRequest,
    JobStatusUpdateResponse, views,
};
use crate::garage::orchestrator::stamp;
use crate::garage::store::{
    Job, JobView, StatusHistoryEntry, StatusHistoryEntryView, Store, StoreView, has_entry,
    history_of, job_pos, lemma_history_jobs_update, lemma_history_of_push, lemma_history_push,
    lemma_job_pos, lemma_jobs_update, lemma_ledgers_transition, lemma_parts_jobs_update,
    live_job, lemma_has_job_update,
};
use crate::text::{clone_opt, merge_text, merged, opt_text};

verus! {

/// A ledger entry as it is shown to a caller.
pub open spec fn item_of_entry(e: StatusHistoryEntryView) -> JobStatusHistoryItemView {
    JobStatusHistoryItemView {
        id: e.id,
        from_status: e.from_status,
        to_status: e.to_status,
        note: e.note,
        created_at: e.created_at,
    }
}

/// A ledger as it is shown to a caller, entry by entry.
pub open spec fn ledger_items(ledger: Seq<StatusHistoryEntryView>) -> Seq<
    JobStatusHistoryItemView,
> {
    ledger.map_values(|e: StatusHistoryEntryView| item_of_entry(e))
}

/// The store after a status change, and the job's ledger after it.
///
/// The job must exist and not be soft-deleted, else nothing is written and
/// the result is `NotFound(Job)`. The job takes the new status; its remarks
/// change only where remarks are supplied. The ledger gains one entry that
/// leads from the job's status before the call to the new one.
pub open spec fn transition_spec(
    s: StoreView,
    job_id: u128,
    to_status: Seq<char>,
    note: Option<Seq<char>>,
    remarks: Option<Seq<char>>,
    entry_id: u128,
    now: i64,
) -> (StoreView, Result<Seq<JobStatusHistoryItemView>, RepoError>) {
    if !live_job(s.jobs, job_id) {
        (s, Err(RepoError::NotFound(Entity::Job)))
    } else if has_entry(s.history, entry_id) {
        (s, Err(RepoError::Conflict))
    } else {
        let k = job_pos(s.jobs, job_id);
        let job = s.jobs[k];
        let entry = StatusHistoryEntryView {
            id: entry_id,
            job_id,
            from_status: Some(job.status),
            to_status,
            note,
            created_at: stamp(s.history, now),
        };
        let after = StoreView {
            jobs: s.jobs.update(
                k,
                JobView { status: to_status, remarks: merged(remarks, job.remarks), ..job },
            ),
            history: s.history.push(entry),
            ..s
        };
        (after, Ok(ledger_items(history_of(after.history, job_id))))
    }
}

impl Store {
    /// The ledger of one job as the table holds it, oldest entry first,
    /// whether or not the job is soft-deleted.
    pub fn ledger_for(&self, job_id: u128) -> (items: Vec<JobStatusHistoryItem>)
        ensures
            views(items@) == ledger_items(history_of(self@.history, job_id)),
    {
        let mut items: Vec<JobStatusHistoryItem> = Vec::new();
        let mut i: usize = 0;
        proof {
            reveal(Seq::filter);
            assert(self@.history.take(0) =~= Seq::empty());
            assert(views(items@) =~= ledger_items(history_of(self@.history.take(0), job_id)));
        }
        while i < self.history.len()
            invariant
                i <= self.history.len(),
                views(items@) == ledger_items(history_of(self@.history.take(i as int), job_id)),
            decreases self.history.len() - i,
        {
            let ghost before = views(items@);
            let ghost seen = self@.history.take(i as int);
            let entry = &self.history[i];
            if entry.job_id == job_id {
                items.push(
                    JobStatusHistoryItem {
                        id: entry.id,
                        from_status: clone_opt(&entry.from_status),
                        to_status: entry.to_status.clone(),
                        note: clone_opt(&entry.note),
                        created_at: entry.created_at,
                    },
                );
            }
            proof {
                let e = self@.history[i as int];
                assert(self@.history.take(i + 1) =~= seen.push(e));
                lemma_history_of_push(seen, e, job_id);
                if e.job_id == job_id {
                    assert(views(items@) =~= before.push(item_of_entry(e)));
                    assert(ledger_items(history_of(seen, job_id).push(e)) =~= ledger_items(
                        history_of(seen, job_id),
                    ).push(item_of_entry(e)));
                }
            }
            i += 1;
        }
        proof {
            assert(self@.history.take(i as int) =~= self@.history);
        }
        items
    }

    /// Moves a job to a new status and records the change in the ledger.
    ///
    /// The store is borrowed exclusively for the whole call, so that two
    /// status changes of one job cannot interleave: the second one starts
    /// from the status the first one left. On failure the store is
    /// unchanged.
    pub fn transition(
        &mut self,
        job_id: u128,
        body: &JobStatusUpdateRequest,
        entry_id: u128,
        now: i64,
    ) -> (r: Result<JobStatusUpdateResponse, RepoError>)
        requires
            old(self).wf(),
        ensures
            final(self).wf(),
            final(self)@ == transition_spec(
                old(self)@,
                job_id,
                body.to_status@,
                opt_text(body.note),
                opt_text(body.remarks),
                entry_id,
                now,
            ).0,
            match r {
                Ok(resp) => Ok::<Seq<JobStatusHistoryItemView>, RepoError>(
                    views(resp.status_history@),
                ) == transition_spec(
                    old(self)@,
                    job_id,
                    body.to_status@,
                    opt_text(body.note),
                    opt_text(body.remarks),
                    entry_id,
                    now,
                ).1,
                Err(e) => Err::<Seq<JobStatusHistoryItemView>, RepoError>(e) == transition_spec(
                    old(self)@,
                    job_id,
                    body.to_status@,
                    opt_text(body.note),
                    opt_text(body.remarks),
                    entry_id,
                    now,
                ).1,
            },
            r is Err ==> *final(self) == *old(self),
    {
        let k = match self.find_job(job_id) {
            Some(k) => k,
            None => {
                return Err(RepoError::NotFound(Entity::Job));
            },
        };
        proof {
            lemma_job_pos(self@.jobs, k as int);
        }
        if self.jobs[k].deleted {
            return Err(RepoError::NotFound(Entity::Job));
        }
        if self.find_entry(entry_id).is_some() {
            return Err(RepoError::Conflict);
        }
        let created_at = self.next_stamp(now);
        let current = &self.jobs[k];
        let from_status = current.status.clone();
        let row = Job {
            id: current.id,
            job_identifier: current.job_identifier.clone(),
            garage_id: current.garage_id,
            vehicle_id: current.vehicle_id,
            customer_phone: current.customer_phone.clone(),
            customer_name: clone_opt(&current.customer_name),
            complaint: clone_opt(&current.complaint),
            estimated_delivery_date: current.estimated_delivery_date,
            estimated_time: clone_opt(&current.estimated_time),
            status: body.to_status.clone(),
            remarks: merge_text(&body.remarks, &current.remarks),
            deleted: current.deleted,
        };
        let ghost s0 = self@;
        let ghost job = JobView {
            status: body.to_status@,
            remarks: merged(opt_text(body.remarks), s0.jobs[k as int].remarks),
            ..s0.jobs[k as int]
        };
        let ghost entry = StatusHistoryEntryView {
            id: entry_id,
            job_id,
            from_status: Some(s0.jobs[k as int].status),
            to_status: body.to_status@,
            note: opt_text(body.note),
            created_at,
        };
        self.jobs.set(k, row);
        self.history.push(
            StatusHistoryEntry {
                id: entry_id,
                job_id,
                from_status: Some(from_status),
                to_status: body.to_status.clone(),
                note: clone_opt(&body.note),
                created_at,
            },
        );
        proof {
            assert(self@.jobs =~= s0.jobs.update(k as int, job));
            assert(self@.history =~= s0.history.push(entry));
            lemma_jobs_update(s0.jobs, k as int, job);
            lemma_parts_jobs_update(s0.parts, s0.jobs, k as int, job);
            lemma_history_jobs_update(s0.history, s0.jobs, k as int, job);
            lemma_has_job_update(s0.jobs, k as int, job, job_id);
            lemma_history_push(s0.history, s0.jobs.update(k as int, job), entry);
            lemma_ledgers_transition(s0.jobs, s0.history, k as int, job, entry);
        }
        let status_history = self.ledger_for(job_id);
        Ok(JobStatusUpdateResponse { status_history })
    }
}

} // verus!
