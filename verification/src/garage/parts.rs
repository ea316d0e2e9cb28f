//! The parts ledger: billable parts of a job. A part is always addressed by
//! its id together with the id of its job, so that it cannot be changed or
//! removed through another job.

use vstd::prelude::*;
use crate::error::{Entity, RepoError};
use crate::garage::models::{Amount, JobPartItem, JobPartItemView, JobPartUpdateRequest, views};
use crate::garage::store::{
    JobPart, JobPartView, Store, StoreView, has_job, has_part, lemma_job_pos, lemma_part_pos,
    lemma_parts_of_push, lemma_parts_push, lemma_parts_remove, lemma_parts_update, live_job,
    owned_part_pos, owns_part, parts_of, parts_ok,
};
use crate::text::opt_text;

verus! {

/// A part to insert, with the id it will be stored under.
#[derive(Debug)]
pub struct NewPart {
    pub id: u128,
    pub name: String,
    pub quantity: Option<i32>,
    pub unit_price: Amount,
    pub tax_percent: Option<Amount>,
}

pub struct NewPartView {
    pub id: u128,
    pub name: Seq<char>,
    pub quantity: Option<i32>,
    pub unit_price: Amount,
    pub tax_percent: Option<Amount>,
}

impl View for NewPart {
    type V = NewPartView;

    open spec fn view(&self) -> NewPartView {
        NewPartView {
            id: self.id,
            name: self.name@,
            quantity: self.quantity,
            unit_price: self.unit_price,
            tax_percent: self.tax_percent,
        }
    }
}

/// The quantity stored for a part: the one given, or 1.
pub open spec fn quantity_or_one(quantity: Option<i32>) -> i32 {
    match quantity {
        Some(q) => q,
        None => 1,
    }
}

/// The row stored for a new part of a job.
pub open spec fn part_row(job_id: u128, part: NewPartView) -> JobPartView {
    JobPartView {
        id: part.id,
        job_id,
        name: part.name,
        quantity: Some(quantity_or_one(part.quantity)),
        unit_price: part.unit_price,
        tax_percent: part.tax_percent,
    }
}

/// The rows stored for new parts of a job, in the order given.
pub open spec fn part_rows(job_id: u128, parts: Seq<NewPartView>) -> Seq<JobPartView> {
    parts.map_values(|p: NewPartView| part_row(job_id, p))
}

/// A part as it is shown to a caller.
pub open spec fn item_of_part(p: JobPartView) -> JobPartItemView {
    JobPartItemView {
        id: p.id,
        name: p.name,
        quantity: p.quantity,
        unit_price: p.unit_price,
        tax_percent: p.tax_percent,
    }
}

/// Parts as they are shown to a caller, one by one.
pub open spec fn part_items(parts: Seq<JobPartView>) -> Seq<JobPartItemView> {
    parts.map_values(|p: JobPartView| item_of_part(p))
}

/// None of the new ids is taken, and no two of them are the same.
pub open spec fn fresh_part_ids(parts: Seq<JobPartView>, new_parts: Seq<NewPartView>) -> bool {
    &&& forall|i: int| 0 <= i < new_parts.len() ==> !has_part(parts, (#[trigger] new_parts[i]).id)
    &&& forall|i: int, j: int|
        0 <= i < j < new_parts.len() ==> (#[trigger] new_parts[i]).id != (
        #[trigger] new_parts[j]).id
}

/// The store after adding parts to a job, and the job's parts after it.
///
/// The job must exist and not be soft-deleted, else the result is
/// `NotFound(Job)`. All parts are inserted, in the order given, or none is:
/// where an id is taken or given twice the result is `Conflict`.
pub open spec fn add_parts_spec(s: StoreView, job_id: u128, new_parts: Seq<NewPartView>) -> (
    StoreView,
    Result<Seq<JobPartItemView>, RepoError>,
) {
    if !live_job(s.jobs, job_id) {
        (s, Err(RepoError::NotFound(Entity::Job)))
    } else if !fresh_part_ids(s.parts, new_parts) {
        (s, Err(RepoError::Conflict))
    } else {
        let after = StoreView { parts: s.parts + part_rows(job_id, new_parts), ..s };
        (after, Ok(part_items(parts_of(after.parts, job_id))))
    }
}

/// A part after a partial update: a field changes only where a value for
/// it is supplied.
pub open spec fn updated_part(
    p: JobPartView,
    name: Option<Seq<char>>,
    quantity: Option<i32>,
    unit_price: Option<Amount>,
    tax_percent: Option<Amount>,
) -> JobPartView {
    JobPartView {
        name: match name {
            Some(n) => n,
            None => p.name,
        },
        quantity: match quantity {
            Some(_) => quantity,
            None => p.quantity,
        },
        unit_price: match unit_price {
            Some(u) => u,
            None => p.unit_price,
        },
        tax_percent: match tax_percent {
            Some(_) => tax_percent,
            None => p.tax_percent,
        },
        ..p
    }
}

/// The store after updating a part, and the part after it. Where no part
/// has this id under this job, the result is `NotFound(Part)` and nothing
/// changes.
pub open spec fn update_part_spec(
    s: StoreView,
    job_id: u128,
    part_id: u128,
    name: Option<Seq<char>>,
    quantity: Option<i32>,
    unit_price: Option<Amount>,
    tax_percent: Option<Amount>,
) -> (StoreView, Result<JobPartItemView, RepoError>) {
    if !owns_part(s.parts, job_id, part_id) {
        (s, Err(RepoError::NotFound(Entity::Part)))
    } else {
        let i = owned_part_pos(s.parts, job_id, part_id);
        let part = updated_part(s.parts[i], name, quantity, unit_price, tax_percent);
        (StoreView { parts: s.parts.update(i, part), ..s }, Ok(item_of_part(part)))
    }
}

/// The store after removing a part, and the job's remaining parts. Where
/// no part has this id under this job, the result is `NotFound(Part)` and
/// nothing changes.
pub open spec fn remove_part_spec(s: StoreView, job_id: u128, part_id: u128) -> (
    StoreView,
    Result<Seq<JobPartItemView>, RepoError>,
) {
    if !owns_part(s.parts, job_id, part_id) {
        (s, Err(RepoError::NotFound(Entity::Part)))
    } else {
        let i = owned_part_pos(s.parts, job_id, part_id);
        let after = StoreView { parts: s.parts.remove(i), ..s };
        (after, Ok(part_items(parts_of(after.parts, job_id))))
    }
}

/// A new part whose id is fresh is unknown to the table as it stands once
/// the new parts before it have been inserted.
proof fn lemma_new_part_unseen(
    parts: Seq<JobPartView>,
    job_id: u128,
    new_parts: Seq<NewPartView>,
    i: int,
)
    requires
        fresh_part_ids(parts, new_parts),
        0 <= i < new_parts.len(),
    ensures
        !has_part(parts + part_rows(job_id, new_parts.take(i)), new_parts[i].id),
{
    let table = parts + part_rows(job_id, new_parts.take(i));
    assert forall|w: int| 0 <= w < table.len() implies (#[trigger] table[w]).id
        != new_parts[i].id by {
        if w < parts.len() {
            assert(table[w] == parts[w]);
            assert(!has_part(parts, new_parts[i].id));
        } else {
            let d = w - parts.len();
            assert(table[w] == part_row(job_id, new_parts[d]));
        }
    }
}

impl Store {
    /// The position of this job's part with this id, if any.
    pub(crate) fn find_owned_part(&self, job_id: u128, part_id: u128) -> (r: Option<usize>)
        ensures
            match r {
                Some(i) => i < self@.parts.len() && self@.parts[i as int].id == part_id
                    && self@.parts[i as int].job_id == job_id,
                None => !owns_part(self@.parts, job_id, part_id),
            },
    {
        let mut i: usize = 0;
        while i < self.parts.len()
            invariant
                i <= self.parts.len(),
                forall|j: int|
                    0 <= j < i ==> !((#[trigger] self@.parts[j]).id == part_id
                        && self@.parts[j].job_id == job_id),
            decreases self.parts.len() - i,
        {
            if self.parts[i].id == part_id && self.parts[i].job_id == job_id {
                return Some(i);
            }
            i += 1;
        }
        None
    }

    /// Whether none of the new ids is taken and no two of them are the same.
    pub(crate) fn new_ids_are_fresh(&self, new_parts: &Vec<NewPart>) -> (fresh: bool)
        ensures
            fresh == fresh_part_ids(self@.parts, views(new_parts@)),
    {
        let mut i: usize = 0;
        while i < new_parts.len()
            invariant
                i <= new_parts.len(),
                forall|a: int|
                    0 <= a < i ==> !has_part(self@.parts, (#[trigger] views(new_parts@)[a]).id),
                forall|a: int, b: int|
                    0 <= a < b < i ==> (#[trigger] views(new_parts@)[a]).id != (
                    #[trigger] views(new_parts@)[b]).id,
            decreases new_parts.len() - i,
        {
            if self.find_part(new_parts[i].id).is_some() {
                assert(has_part(self@.parts, views(new_parts@)[i as int].id));
                return false;
            }
            let mut j: usize = 0;
            while j < i
                invariant
                    j <= i,
                    i < new_parts.len(),
                    forall|a: int|
                        0 <= a < j ==> (#[trigger] views(new_parts@)[a]).id != views(
                            new_parts@,
                        )[i as int].id,
                decreases i - j,
            {
                if new_parts[j].id == new_parts[i].id {
                    assert(views(new_parts@)[j as int].id == views(new_parts@)[i as int].id);
                    return false;
                }
                j += 1;
            }
            i += 1;
        }
        true
    }

    /// The parts of one job as the table holds them, in the order of
    /// their creation, whether or not the job is soft-deleted.
    pub fn parts_for(&self, job_id: u128) -> (items: Vec<JobPartItem>)
        ensures
            views(items@) == part_items(parts_of(self@.parts, job_id)),
    {
        let mut items: Vec<JobPartItem> = Vec::new();
        let mut i: usize = 0;
        proof {
            reveal(Seq::filter);
            assert(self@.parts.take(0) =~= Seq::empty());
            assert(views(items@) =~= part_items(parts_of(self@.parts.take(0), job_id)));
        }
        while i < self.parts.len()
            invariant
                i <= self.parts.len(),
                views(items@) == part_items(parts_of(self@.parts.take(i as int), job_id)),
            decreases self.parts.len() - i,
        {
            let ghost before = views(items@);
            let ghost seen = self@.parts.take(i as int);
            let part = &self.parts[i];
            if part.job_id == job_id {
                items.push(
                    JobPartItem {
                        id: part.id,
                        name: part.name.clone(),
                        quantity: part.quantity,
                        unit_price: part.unit_price,
                        tax_percent: part.tax_percent,
                    },
                );
            }
            proof {
                let p = self@.parts[i as int];
                assert(self@.parts.take(i + 1) =~= seen.push(p));
                lemma_parts_of_push(seen, p, job_id);
                if p.job_id == job_id {
                    assert(views(items@) =~= before.push(item_of_part(p)));
                    assert(part_items(parts_of(seen, job_id).push(p)) =~= part_items(
                        parts_of(seen, job_id),
                    ).push(item_of_part(p)));
                }
            }
            i += 1;
        }
        proof {
            assert(self@.parts.take(i as int) =~= self@.parts);
        }
        items
    }

    /// Adds parts to a job, all of them or none, and returns the job's
    /// parts in the order of their creation. On failure the store is
    /// unchanged.
    pub fn add_parts(&mut self, job_id: u128, new_parts: &Vec<NewPart>) -> (r: Result<
        Vec<JobPartItem>,
        RepoError,
    >)
        requires
            old(self).wf(),
        ensures
            final(self).wf(),
            final(self)@ == add_parts_spec(old(self)@, job_id, views(new_parts@)).0,
            match r {
                Ok(items) => Ok::<Seq<JobPartItemView>, RepoError>(views(items@)) == add_parts_spec(
                    old(self)@,
                    job_id,
                    views(new_parts@),
                ).1,
                Err(e) => Err::<Seq<JobPartItemView>, RepoError>(e) == add_parts_spec(
                    old(self)@,
                    job_id,
                    views(new_parts@),
                ).1,
            },
            r is Err ==> *final(self) == *old(self),
    {
        match self.find_job(job_id) {
            Some(k) => {
                proof {
                    lemma_job_pos(self@.jobs, k as int);
                }
                if self.jobs[k].deleted {
                    return Err(RepoError::NotFound(Entity::Job));
                }
            },
            None => {
                return Err(RepoError::NotFound(Entity::Job));
            },
        }
        if !self.new_ids_are_fresh(new_parts) {
            return Err(RepoError::Conflict);
        }
        let ghost s0 = self@;
        let ghost drafts = views(new_parts@);
        let mut i: usize = 0;
        proof {
            assert(drafts.take(0) =~= Seq::empty());
            assert(self@.parts =~= s0.parts + part_rows(job_id, drafts.take(0)));
        }
        while i < new_parts.len()
            invariant
                i <= new_parts.len(),
                drafts == views(new_parts@),
                fresh_part_ids(s0.parts, drafts),
                has_job(s0.jobs, job_id),
                self@.parts == s0.parts + part_rows(job_id, drafts.take(i as int)),
                parts_ok(self@.parts, s0.jobs),
                self@ == (StoreView { parts: self@.parts, ..s0 }),
            decreases new_parts.len() - i,
        {
            let ghost table = self@.parts;
            let part = &new_parts[i];
            let quantity = match part.quantity {
                Some(q) => q,
                None => 1,
            };
            self.parts.push(
                JobPart {
                    id: part.id,
                    job_id,
                    name: part.name.clone(),
                    quantity: Some(quantity),
                    unit_price: part.unit_price,
                    tax_percent: part.tax_percent,
                },
            );
            proof {
                let row = part_row(job_id, drafts[i as int]);
                assert(self@.parts =~= table.push(row));
                assert(drafts.take(i + 1) =~= drafts.take(i as int).push(drafts[i as int]));
                assert(part_rows(job_id, drafts.take(i + 1)) =~= part_rows(
                    job_id,
                    drafts.take(i as int),
                ).push(row));
                assert(self@.parts =~= s0.parts + part_rows(job_id, drafts.take(i + 1)));
                lemma_new_part_unseen(s0.parts, job_id, drafts, i as int);
                lemma_parts_push(table, s0.jobs, row);
            }
            i += 1;
        }
        proof {
            assert(drafts.take(i as int) =~= drafts);
        }
        Ok(self.parts_for(job_id))
    }

    /// Updates the part with this id under this job: only the fields
    /// supplied change. A part of another job is not found, and is not
    /// touched.
    pub fn update_part(&mut self, job_id: u128, part_id: u128, req: &JobPartUpdateRequest) -> (r:
        Result<JobPartItem, RepoError>)
        requires
            old(self).wf(),
        ensures
            final(self).wf(),
            final(self)@ == update_part_spec(
                old(self)@,
                job_id,
                part_id,
                opt_text(req.name),
                req.quantity,
                req.unit_price,
                req.tax_percent,
            ).0,
            match r {
                Ok(item) => Ok::<JobPartItemView, RepoError>(item@) == update_part_spec(
                    old(self)@,
                    job_id,
                    part_id,
                    opt_text(req.name),
                    req.quantity,
                    req.unit_price,
                    req.tax_percent,
                ).1,
                Err(e) => Err::<JobPartItemView, RepoError>(e) == update_part_spec(
                    old(self)@,
                    job_id,
                    part_id,
                    opt_text(req.name),
                    req.quantity,
                    req.unit_price,
                    req.tax_percent,
                ).1,
            },
            r is Err ==> *final(self) == *old(self),
    {
        let i = match self.find_owned_part(job_id, part_id) {
            Some(i) => i,
            None => {
                return Err(RepoError::NotFound(Entity::Part));
            },
        };
        proof {
            lemma_part_pos(self@.parts, self@.jobs, i as int);
        }
        let current = &self.parts[i];
        let name = match &req.name {
            Some(n) => n.clone(),
            None => current.name.clone(),
        };
        let quantity = match req.quantity {
            Some(q) => Some(q),
            None => current.quantity,
        };
        let unit_price = match req.unit_price {
            Some(u) => u,
            None => current.unit_price,
        };
        let tax_percent = match req.tax_percent {
            Some(t) => Some(t),
            None => current.tax_percent,
        };
        let item =
            JobPartItem { id: part_id, name: name.clone(), quantity, unit_price, tax_percent };
        let ghost s0 = self@;
        let ghost part = updated_part(
            s0.parts[i as int],
            opt_text(req.name),
            req.quantity,
            req.unit_price,
            req.tax_percent,
        );
        self.parts.set(i, JobPart { id: part_id, job_id, name, quantity, unit_price, tax_percent });
        proof {
            assert(self@.parts =~= s0.parts.update(i as int, part));
            lemma_parts_update(s0.parts, s0.jobs, i as int, part);
        }
        Ok(item)
    }

    /// Removes the part with this id under this job and returns the job's
    /// remaining parts. A part of another job is not found, and is not
    /// touched.
    pub fn remove_part(&mut self, job_id: u128, part_id: u128) -> (r: Result<
        Vec<JobPartItem>,
        RepoError,
    >)
        requires
            old(self).wf(),
        ensures
            final(self).wf(),
            final(self)@ == remove_part_spec(old(self)@, job_id, part_id).0,
            match r {
                Ok(items) => Ok::<Seq<JobPartItemView>, RepoError>(views(items@))
                    == remove_part_spec(old(self)@, job_id, part_id).1,
                Err(e) => Err::<Seq<JobPartItemView>, RepoError>(e) == remove_part_spec(
                    old(self)@,
                    job_id,
                    part_id,
                ).1,
            },
            r is Err ==> *final(self) == *old(self),
    {
        let i = match self.find_owned_part(job_id, part_id) {
            Some(i) => i,
            None => {
                return Err(RepoError::NotFound(Entity::Part));
            },
        };
        let ghost s0 = self@;
        proof {
            lemma_part_pos(s0.parts, s0.jobs, i as int);
        }
        self.parts.remove(i);
        proof {
            assert(self@.parts =~= s0.parts.remove(i as int));
            lemma_parts_remove(s0.parts, s0.jobs, i as int);
        }
        Ok(self.parts_for(job_id))
    }
}

} // verus!
