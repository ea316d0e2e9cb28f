//! Building a store from tables that come from elsewhere. The tables are
//! held to the rules of the store before the store is made of them.

use vstd::prelude::*;
use crate::admin::models::AdminUser;
use crate::error::RepoError;
use crate::garage::models::{GarageUser, views};
use crate::garage::store::{
    Customer, Job, JobPart, StatusHistoryEntry, StatusHistoryEntryView, Store, StoreView, Vehicle,
    chained, customers_ok, has_job, history_of, history_ok, jobs_ok, ledger_matches, ledgers_ok,
    lemma_history_of_push, parts_ok, store_wf, users_ok, vehicles_ok,
};

verus! {

/// Whether no two garage users share an id.
pub fn users_obey(rows: &Vec<GarageUser>) -> (ok: bool)
    ensures
        ok == users_ok(views(rows@)),
{
    reveal(users_ok);
    let ghost table = views(rows@);
    let mut j: usize = 0;
    while j < rows.len()
        invariant
            j <= rows.len(),
            table == views(rows@),
            forall|a: int, b: int|
                0 <= a < b < j ==> (#[trigger] table[a]).id != (#[trigger] table[b]).id,
        decreases rows.len() - j,
    {
        let mut i: usize = 0;
        while i < j
            invariant
                i <= j < rows.len(),
                table == views(rows@),
                forall|a: int| 0 <= a < i ==> (#[trigger] table[a]).id != table[j as int].id,
            decreases j - i,
        {
            if rows[i].id == rows[j].id {
                assert(table[i as int].id == table[j as int].id);
                proof {
                    reveal(users_ok);
                }
                return false;
            }
            i += 1;
        }
        j += 1;
    }
    true
}

/// Whether no two customers share an id or a phone number.
pub fn customers_obey(rows: &Vec<Customer>) -> (ok: bool)
    ensures
        ok == customers_ok(views(rows@)),
{
    reveal(customers_ok);
    let ghost table = views(rows@);
    let mut j: usize = 0;
    while j < rows.len()
        invariant
            j <= rows.len(),
            table == views(rows@),
            forall|a: int, b: int|
                0 <= a < b < j ==> (#[trigger] table[a]).id != (#[trigger] table[b]).id
                    && table[a].phone != table[b].phone,
        decreases rows.len() - j,
    {
        let mut i: usize = 0;
        while i < j
            invariant
                i <= j < rows.len(),
                table == views(rows@),
                forall|a: int|
                    0 <= a < i ==> (#[trigger] table[a]).id != table[j as int].id
                        && table[a].phone != table[j as int].phone,
            decreases j - i,
        {
            if rows[i].id == rows[j].id || rows[i].phone == rows[j].phone {
                assert(table[i as int].id == table[j as int].id || table[i as int].phone
                    == table[j as int].phone);
                proof {
                    reveal(customers_ok);
                }
                return false;
            }
            i += 1;
        }
        j += 1;
    }
    true
}

/// Whether no two vehicles share an id, or an owner together with a
/// registration number.
pub fn vehicles_obey(rows: &Vec<Vehicle>) -> (ok: bool)
    ensures
        ok == vehicles_ok(views(rows@)),
{
    reveal(vehicles_ok);
    let ghost table = views(rows@);
    let mut j: usize = 0;
    while j < rows.len()
        invariant
            j <= rows.len(),
            table == views(rows@),
            forall|a: int, b: int|
                0 <= a < b < j ==> (#[trigger] table[a]).id != (#[trigger] table[b]).id && !(
                table[a].customer_id == table[b].customer_id && table[a].vehicle_number
                    == table[b].vehicle_number),
        decreases rows.len() - j,
    {
        let mut i: usize = 0;
        while i < j
            invariant
                i <= j < rows.len(),
                table == views(rows@),
                forall|a: int|
                    0 <= a < i ==> (#[trigger] table[a]).id != table[j as int].id && !(
                    table[a].customer_id == table[j as int].customer_id && table[a].vehicle_number
                        == table[j as int].vehicle_number),
            decreases j - i,
        {
            if rows[i].id == rows[j].id || (rows[i].customer_id == rows[j].customer_id
                && rows[i].vehicle_number == rows[j].vehicle_number) {
                assert(table[i as int].id == table[j as int].id || (table[i as int].customer_id
                    == table[j as int].customer_id && table[i as int].vehicle_number
                    == table[j as int].vehicle_number));
                proof {
                    reveal(vehicles_ok);
                }
                return false;
            }
            i += 1;
        }
        j += 1;
    }
    true
}

/// Whether no two jobs share an id or a display identifier.
pub fn jobs_obey(rows: &Vec<Job>) -> (ok: bool)
    ensures
        ok == jobs_ok(views(rows@)),
{
    reveal(jobs_ok);
    let ghost table = views(rows@);
    let mut j: usize = 0;
    while j < rows.len()
        invariant
            j <= rows.len(),
            table == views(rows@),
            forall|a: int, b: int|
                0 <= a < b < j ==> (#[trigger] table[a]).id != (#[trigger] table[b]).id
                    && table[a].job_identifier != table[b].job_identifier,
        decreases rows.len() - j,
    {
        let mut i: usize = 0;
        while i < j
            invariant
                i <= j < rows.len(),
                table == views(rows@),
                forall|a: int|
                    0 <= a < i ==> (#[trigger] table[a]).id != table[j as int].id
                        && table[a].job_identifier != table[j as int].job_identifier,
            decreases j - i,
        {
            if rows[i].id == rows[j].id || rows[i].job_identifier == rows[j].job_identifier {
                assert(table[i as int].id == table[j as int].id || table[i as int].job_identifier
                    == table[j as int].job_identifier);
                proof {
                    reveal(jobs_ok);
                }
                return false;
            }
            i += 1;
        }
        j += 1;
    }
    true
}

/// Whether some job has this id.
pub fn knows_job(jobs: &Vec<Job>, id: u128) -> (known: bool)
    ensures
        known == has_job(views(jobs@), id),
{
    let mut i: usize = 0;
    while i < jobs.len()
        invariant
            i <= jobs.len(),
            forall|a: int| 0 <= a < i ==> (#[trigger] views(jobs@)[a]).id != id,
        decreases jobs.len() - i,
    {
        if jobs[i].id == id {
            assert(views(jobs@)[i as int].id == id);
            return true;
        }
        i += 1;
    }
    false
}

/// Whether no two parts share an id and every part belongs to one of the
/// jobs.
pub fn parts_obey(rows: &Vec<JobPart>, jobs: &Vec<Job>) -> (ok: bool)
    ensures
        ok == parts_ok(views(rows@), views(jobs@)),
{
    reveal(parts_ok);
    let ghost table = views(rows@);
    let mut j: usize = 0;
    while j < rows.len()
        invariant
            j <= rows.len(),
            table == views(rows@),
            forall|a: int, b: int|
                0 <= a < b < j ==> (#[trigger] table[a]).id != (#[trigger] table[b]).id,
            forall|a: int| 0 <= a < j ==> has_job(views(jobs@), (#[trigger] table[a]).job_id),
        decreases rows.len() - j,
    {
        if !knows_job(jobs, rows[j].job_id) {
            assert(!has_job(views(jobs@), table[j as int].job_id));
            proof {
                reveal(parts_ok);
            }
            return false;
        }
        let mut i: usize = 0;
        while i < j
            invariant
                i <= j < rows.len(),
                table == views(rows@),
                forall|a: int| 0 <= a < i ==> (#[trigger] table[a]).id != table[j as int].id,
            decreases j - i,
        {
            if rows[i].id == rows[j].id {
                assert(table[i as int].id == table[j as int].id);
                proof {
                    reveal(parts_ok);
                }
                return false;
            }
            i += 1;
        }
        j += 1;
    }
    true
}

/// Whether no two ledger entries share an id, every entry belongs to one
/// of the jobs, and the entries stand in the order of their time stamps.
pub fn history_obeys(rows: &Vec<StatusHistoryEntry>, jobs: &Vec<Job>) -> (ok: bool)
    ensures
        ok == history_ok(views(rows@), views(jobs@)),
{
    reveal(history_ok);
    let ghost table = views(rows@);
    let mut j: usize = 0;
    while j < rows.len()
        invariant
            j <= rows.len(),
            table == views(rows@),
            forall|a: int, b: int|
                0 <= a < b < j ==> (#[trigger] table[a]).id != (#[trigger] table[b]).id
                    && table[a].created_at <= table[b].created_at,
            forall|a: int| 0 <= a < j ==> has_job(views(jobs@), (#[trigger] table[a]).job_id),
        decreases rows.len() - j,
    {
        if !knows_job(jobs, rows[j].job_id) {
            assert(!has_job(views(jobs@), table[j as int].job_id));
            proof {
                reveal(history_ok);
            }
            return false;
        }
        let mut i: usize = 0;
        while i < j
            invariant
                i <= j < rows.len(),
                table == views(rows@),
                forall|a: int|
                    0 <= a < i ==> (#[trigger] table[a]).id != table[j as int].id
                        && table[a].created_at <= table[j as int].created_at,
            decreases j - i,
        {
            if rows[i].id == rows[j].id || rows[i].created_at > rows[j].created_at {
                assert(table[i as int].id == table[j as int].id || table[i as int].created_at
                    > table[j as int].created_at);
                proof {
                    reveal(history_ok);
                }
                return false;
            }
            i += 1;
        }
        j += 1;
    }
    true
}

/// What a ledger has come to: the status its last entry ended in, or none
/// where the ledger is empty.
pub open spec fn ledger_end(ledger: Seq<StatusHistoryEntryView>) -> Option<Seq<char>> {
    if ledger.len() == 0 {
        None
    } else {
        Some(ledger.last().to_status)
    }
}

/// The ledger read so far is the beginning of the ledger as a whole.
proof fn lemma_ledger_begins(history: Seq<StatusHistoryEntryView>, job_id: u128, upto: int)
    requires
        0 <= upto <= history.len(),
    ensures
        history_of(history.take(upto), job_id).len() <= history_of(history, job_id).len(),
        history_of(history, job_id).take(history_of(history.take(upto), job_id).len() as int)
            == history_of(history.take(upto), job_id),
    decreases history.len() - upto,
{
    if upto == history.len() {
        assert(history.take(upto) =~= history);
        assert(history_of(history, job_id).take(history_of(history, job_id).len() as int)
            =~= history_of(history, job_id));
    } else {
        lemma_ledger_begins(history, job_id, upto + 1);
        assert(history.take(upto + 1) =~= history.take(upto).push(history[upto]));
        lemma_history_of_push(history.take(upto), history[upto], job_id);
        let shorter = history_of(history.take(upto), job_id);
        let longer = history_of(history.take(upto + 1), job_id);
        let whole = history_of(history, job_id);
        assert(whole.take(shorter.len() as int) =~= whole.take(longer.len() as int).take(
            shorter.len() as int,
        ));
        assert(longer.take(shorter.len() as int) =~= shorter);
    }
}

/// Whether the ledger of one job is not empty, chains, and ends in the
/// job's status.
pub fn ledger_obeys(history: &Vec<StatusHistoryEntry>, job: &Job) -> (ok: bool)
    ensures
        ok == ledger_matches(history_of(views(history@), job@.id), job@.status),
{
    let ghost table = views(history@);
    let ghost whole = history_of(table, job.id);
    let mut last: Option<usize> = None;
    let mut i: usize = 0;
    proof {
        reveal(Seq::filter);
        assert(table.take(0) =~= Seq::empty());
    }
    while i < history.len()
        invariant
            i <= history.len(),
            table == views(history@),
            whole == history_of(table, job.id),
            chained(history_of(table.take(i as int), job.id)),
            match last {
                Some(at) => at < i && history_of(table.take(i as int), job.id).len() > 0
                    && history_of(table.take(i as int), job.id).last() == table[at as int],
                None => history_of(table.take(i as int), job.id).len() == 0,
            },
        decreases history.len() - i,
    {
        let ghost seen = history_of(table.take(i as int), job.id);
        proof {
            assert(table.take(i + 1) =~= table.take(i as int).push(table[i as int]));
            lemma_history_of_push(table.take(i as int), table[i as int], job.id);
        }
        if history[i].job_id == job.id {
            let follows = match (&history[i].from_status, last) {
                (None, None) => true,
                (Some(from), Some(at)) => *from == history[at].to_status,
                _ => false,
            };
            if !follows {
                proof {
                    let grown = seen.push(table[i as int]);
                    lemma_ledger_begins(table, job.id, i + 1);
                    assert(whole[seen.len() as int] == grown[seen.len() as int]);
                    if seen.len() > 0 {
                        assert(whole[seen.len() - 1] == grown[seen.len() - 1]);
                    }
                    assert(!chained(whole));
                }
                return false;
            }
            proof {
                let grown = seen.push(table[i as int]);
                assert forall|k: int| 0 <= k < grown.len() implies (#[trigger] grown[k]).from_status
                    == (if k == 0 {
                    None::<Seq<char>>
                } else {
                    Some(grown[k - 1].to_status)
                }) by {
                    if k < seen.len() {
                        assert(grown[k] == seen[k]);
                    }
                }
            }
            last = Some(i);
        }
        i += 1;
    }
    proof {
        assert(table.take(i as int) =~= table);
    }
    match last {
        Some(at) => history[at].to_status == job.status,
        None => false,
    }
}

/// Whether every job's ledger is not empty, chains, and ends in the job's
/// status.
pub fn ledgers_obey(jobs: &Vec<Job>, history: &Vec<StatusHistoryEntry>) -> (ok: bool)
    ensures
        ok == ledgers_ok(views(jobs@), views(history@)),
{
    reveal(ledgers_ok);
    let mut k: usize = 0;
    while k < jobs.len()
        invariant
            k <= jobs.len(),
            forall|a: int|
                0 <= a < k ==> ledger_matches(
                    history_of(views(history@), (#[trigger] views(jobs@)[a]).id),
                    views(jobs@)[a].status,
                ),
        decreases jobs.len() - k,
    {
        if !ledger_obeys(history, &jobs[k]) {
            assert(!ledger_matches(
                history_of(views(history@), views(jobs@)[k as int].id),
                views(jobs@)[k as int].status,
            ));
            proof {
                reveal(ledgers_ok);
            }
            return false;
        }
        k += 1;
    }
    true
}

impl Store {
    /// Whether this store obeys the rules. Every store that this library
    /// hands out does; the test is for a caller that wants to see it.
    pub fn obeys_rules(&self) -> (ok: bool)
        ensures
            ok == self.wf(),
    {
        users_obey(&self.garage_users) && customers_obey(&self.customers) && vehicles_obey(
            &self.vehicles,
        ) && jobs_obey(&self.jobs) && parts_obey(&self.parts, &self.jobs) && history_obeys(
            &self.history,
            &self.jobs,
        ) && ledgers_obey(&self.jobs, &self.history)
    }

    /// A store of these tables, where they obey the rules of a store;
    /// `Conflict` where they do not.
    pub fn from_tables(
        system_users: Vec<AdminUser>,
        garage_users: Vec<GarageUser>,
        customers: Vec<Customer>,
        vehicles: Vec<Vehicle>,
        jobs: Vec<Job>,
        parts: Vec<JobPart>,
        history: Vec<StatusHistoryEntry>,
    ) -> (r: Result<Store, RepoError>)
        ensures
            match r {
                Ok(store) => store.wf() && store@ == (StoreView {
                    system_users: views(system_users@),
                    garage_users: views(garage_users@),
                    customers: views(customers@),
                    vehicles: views(vehicles@),
                    jobs: views(jobs@),
                    parts: views(parts@),
                    history: views(history@),
                }),
                Err(e) => e == RepoError::Conflict && !store_wf(
                    StoreView {
                        system_users: views(system_users@),
                        garage_users: views(garage_users@),
                        customers: views(customers@),
                        vehicles: views(vehicles@),
                        jobs: views(jobs@),
                        parts: views(parts@),
                        history: views(history@),
                    },
                ),
            },
    {
        if users_obey(&garage_users) && customers_obey(&customers) && vehicles_obey(&vehicles)
            && jobs_obey(&jobs) && parts_obey(&parts, &jobs) && history_obeys(&history, &jobs)
            && ledgers_obey(&jobs, &history) {
            Ok(Store { system_users, garage_users, customers, vehicles, jobs, parts, history })
        } else {
            Err(RepoError::Conflict)
        }
    }
}

} // verus!
