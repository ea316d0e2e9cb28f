//! What holds of the engine whatever it is asked to do: the laws that
//! relate its operations to one another and to the rules of the store.

use vstd::prelude::*;
use crate::error::{Entity, RepoError};
use crate::garage::ledger::transition_spec;
use crate::garage::models::{Amount, JobCreateRequestView};
use crate::garage::orchestrator::{NewJobIds, create_job_spec, stamp};
use crate::garage::parts::{NewPartView, add_parts_spec, remove_part_spec, update_part_spec};
use crate::garage::resolver::{resolve_customer_spec, resolve_vehicle_spec};
use crate::garage::store::{
    CustomerView, JobView, StatusHistoryEntryView, StoreView, VehicleView, has_entry, has_job,
    history_of, job_pos, knows_phone, knows_vehicle, ledger_matches, ledgers_ok,
    lemma_has_job_update, lemma_history_jobs_update, lemma_history_push, lemma_job_pos,
    lemma_jobs_update, lemma_ledgers_transition, lemma_part_pos, lemma_parts_jobs_update,
    lemma_phone_pos, lemma_vehicle_pos, live_job, owns_part, phone_pos, store_wf, vehicle_key_pos,
};
use crate::text::merged;

verus! {

/// Resolving a customer is idempotent. Once a phone number has been
/// resolved, resolving it again gives the same customer; without a name it
/// leaves the store as it is, and with a name it stores that name. A name
/// once stored is never erased by a call without one.
pub proof fn lemma_resolve_customer_again(
    s: StoreView,
    phone: Seq<char>,
    first_name: Option<Seq<char>>,
    second_name: Option<Seq<char>>,
    first_id: u128,
    second_id: u128,
)
    requires
        store_wf(s),
        resolve_customer_spec(s, phone, first_name, first_id).1 is Ok,
    ensures
        ({
            let (s1, r1) = resolve_customer_spec(s, phone, first_name, first_id);
            let (s2, r2) = resolve_customer_spec(s1, phone, second_name, second_id);
            let at = phone_pos(s1.customers, phone);
            &&& knows_phone(s1.customers, phone)
            &&& r2 == r1
            &&& s2.customers.len() == s1.customers.len()
            &&& s2.customers[at].id == r1->Ok_0
            &&& s2.customers[at].phone == phone
            &&& s2.customers[at].name == merged(second_name, s1.customers[at].name)
            &&& second_name is None ==> s2 == s1
            &&& first_name is Some && second_name is None ==> s2.customers[at].name == first_name
        }),
{
    let (s1, r1) = resolve_customer_spec(s, phone, first_name, first_id);
    if knows_phone(s.customers, phone) {
        let i = phone_pos(s.customers, phone);
        let row = CustomerView { name: merged(first_name, s.customers[i].name), ..s.customers[i] };
        assert(s1.customers[i].phone == phone);
        crate::garage::store::lemma_customers_update(s.customers, i, row);
    } else {
        let row = CustomerView { id: first_id, phone, name: first_name };
        assert(s1.customers[s.customers.len() as int].phone == phone);
        crate::garage::store::lemma_customers_push(s.customers, row);
    }
    let at = phone_pos(s1.customers, phone);
    lemma_phone_pos(s1.customers, at);
    let (s2, r2) = resolve_customer_spec(s1, phone, second_name, second_id);
    if second_name is None {
        assert(s2.customers =~= s1.customers);
    }
    if knows_phone(s.customers, phone) {
        let i = phone_pos(s.customers, phone);
        lemma_phone_pos(s1.customers, i);
    } else {
        lemma_phone_pos(s1.customers, s.customers.len() as int);
    }
}

/// Resolving a vehicle is idempotent. Once an owner's registration number
/// has been resolved, resolving it again gives the same vehicle; make and
/// model change only where a value is supplied, and are never erased.
pub proof fn lemma_resolve_vehicle_again(
    s: StoreView,
    customer_id: u128,
    number: Seq<char>,
    first_make: Option<Seq<char>>,
    first_model: Option<Seq<char>>,
    second_make: Option<Seq<char>>,
    second_model: Option<Seq<char>>,
    first_id: u128,
    second_id: u128,
)
    requires
        store_wf(s),
        resolve_vehicle_spec(s, customer_id, number, first_make, first_model, first_id).1 is Ok,
    ensures
        ({
            let (s1, r1) = resolve_vehicle_spec(
                s,
                customer_id,
                number,
                first_make,
                first_model,
                first_id,
            );
            let (s2, r2) = resolve_vehicle_spec(
                s1,
                customer_id,
                number,
                second_make,
                second_model,
                second_id,
            );
            let at = vehicle_key_pos(s1.vehicles, customer_id, number);
            &&& knows_vehicle(s1.vehicles, customer_id, number)
            &&& r2 == r1
            &&& s2.vehicles.len() == s1.vehicles.len()
            &&& s2.vehicles[at].id == r1->Ok_0
            &&& s2.vehicles[at].make == merged(second_make, s1.vehicles[at].make)
            &&& s2.vehicles[at].model == merged(second_model, s1.vehicles[at].model)
            &&& second_make is None && second_model is None ==> s2 == s1
        }),
{
    let (s1, r1) = resolve_vehicle_spec(s, customer_id, number, first_make, first_model, first_id);
    if knows_vehicle(s.vehicles, customer_id, number) {
        let i = vehicle_key_pos(s.vehicles, customer_id, number);
        let row = VehicleView {
            make: merged(first_make, s.vehicles[i].make),
            model: merged(first_model, s.vehicles[i].model),
            ..s.vehicles[i]
        };
        assert(s1.vehicles[i].vehicle_number == number);
        crate::garage::store::lemma_vehicles_update(s.vehicles, i, row);
        lemma_vehicle_pos(s1.vehicles, i);
    } else {
        let row = VehicleView {
            id: first_id,
            customer_id,
            vehicle_number: number,
            make: first_make,
            model: first_model,
        };
        assert(s1.vehicles[s.vehicles.len() as int].vehicle_number == number);
        crate::garage::store::lemma_vehicles_push(s.vehicles, row);
        lemma_vehicle_pos(s1.vehicles, s.vehicles.len() as int);
    }
    let (s2, r2) = resolve_vehicle_spec(
        s1,
        customer_id,
        number,
        second_make,
        second_model,
        second_id,
    );
    if second_make is None && second_model is None {
        assert(s2.vehicles =~= s1.vehicles);
    }
}

/// The status chain. In every store that obeys the rules, the ledger of
/// every job, read in the order of its entries' creation, starts with an
/// entry that comes from no status, each later entry starts from the
/// status its predecessor ended in, and the last entry ends in the job's
/// current status.
pub proof fn lemma_status_chain(s: StoreView, job_id: u128)
    requires
        store_wf(s),
        has_job(s.jobs, job_id),
    ensures
        ({
            let ledger = history_of(s.history, job_id);
            &&& ledger.len() > 0
            &&& ledger[0].from_status is None
            &&& forall|i: int|
                0 < i < ledger.len() ==> (#[trigger] ledger[i]).from_status == Some(
                    ledger[i - 1].to_status,
                )
            &&& ledger.last().to_status == s.jobs[job_pos(s.jobs, job_id)].status
        }),
{
    reveal(ledgers_ok);
    let k = job_pos(s.jobs, job_id);
    let ledger = history_of(s.history, job_id);
    assert(ledger_matches(history_of(s.history, s.jobs[k].id), s.jobs[k].status));
    assert(ledger[0].from_status is None);
}

/// Opening a job is atomic: where it is refused, for whatever reason and at
/// whatever step, the store is the one before the call.
pub proof fn lemma_create_job_atomic(
    s: StoreView,
    garage_user_id: u128,
    req: JobCreateRequestView,
    ids: NewJobIds,
    job_identifier: Seq<char>,
    now: i64,
)
    ensures
        create_job_spec(s, garage_user_id, req, ids, job_identifier, now).1 is Err
            ==> create_job_spec(s, garage_user_id, req, ids, job_identifier, now).0 == s,
{
}

/// Part ownership isolation: a part of one job can be neither updated nor
/// removed through another job. The attempt is refused as
/// `NotFound(Part)` and changes nothing.
pub proof fn lemma_part_isolation(
    s: StoreView,
    owner: u128,
    other: u128,
    part_id: u128,
    name: Option<Seq<char>>,
    quantity: Option<i32>,
    unit_price: Option<Amount>,
    tax_percent: Option<Amount>,
)
    requires
        store_wf(s),
        owns_part(s.parts, owner, part_id),
        other != owner,
    ensures
        update_part_spec(s, other, part_id, name, quantity, unit_price, tax_percent) == (
            s,
            Err::<crate::garage::models::JobPartItemView, RepoError>(
                RepoError::NotFound(Entity::Part),
            ),
        ),
        remove_part_spec(s, other, part_id) == (
            s,
            Err::<Seq<crate::garage::models::JobPartItemView>, RepoError>(
                RepoError::NotFound(Entity::Part),
            ),
        ),
{
    let i = crate::garage::store::owned_part_pos(s.parts, owner, part_id);
    lemma_part_pos(s.parts, s.jobs, i);
}

/// One status change as a caller asks for it, with the entry id and the
/// time it is carried out under.
pub struct StatusChange {
    pub to_status: Seq<char>,
    pub note: Option<Seq<char>>,
    pub remarks: Option<Seq<char>>,
    pub entry_id: u128,
    pub now: i64,
}

/// The store after a status change of a job, and the job's ledger.
pub open spec fn changed(s: StoreView, job_id: u128, change: StatusChange) -> (
    StoreView,
    Result<Seq<crate::garage::models::JobStatusHistoryItemView>, RepoError>,
) {
    transition_spec(
        s,
        job_id,
        change.to_status,
        change.note,
        change.remarks,
        change.entry_id,
        change.now,
    )
}

/// A status change keeps the rules of the store.
pub proof fn lemma_transition_keeps_rules(
    s: StoreView,
    job_id: u128,
    to_status: Seq<char>,
    note: Option<Seq<char>>,
    remarks: Option<Seq<char>>,
    entry_id: u128,
    now: i64,
)
    requires
        store_wf(s),
    ensures
        store_wf(transition_spec(s, job_id, to_status, note, remarks, entry_id, now).0),
        transition_spec(s, job_id, to_status, note, remarks, entry_id, now).1 is Ok ==> ({
            let after = transition_spec(s, job_id, to_status, note, remarks, entry_id, now).0;
            let k = job_pos(s.jobs, job_id);
            &&& live_job(after.jobs, job_id)
            &&& job_pos(after.jobs, job_id) == k
            &&& after.jobs[k].status == to_status
            &&& after.history == s.history.push(
                StatusHistoryEntryView {
                    id: entry_id,
                    job_id,
                    from_status: Some(s.jobs[k].status),
                    to_status,
                    note,
                    created_at: stamp(s.history, now),
                },
            )
            &&& history_of(after.history, job_id) == history_of(s.history, job_id).push(
                after.history.last(),
            )
        }),
{
    if live_job(s.jobs, job_id) && !has_entry(s.history, entry_id) {
        let k = job_pos(s.jobs, job_id);
        lemma_job_pos(s.jobs, k);
        let job = JobView {
            status: to_status,
            remarks: merged(remarks, s.jobs[k].remarks),
            ..s.jobs[k]
        };
        let entry = StatusHistoryEntryView {
            id: entry_id,
            job_id,
            from_status: Some(s.jobs[k].status),
            to_status,
            note,
            created_at: stamp(s.history, now),
        };
        lemma_jobs_update(s.jobs, k, job);
        lemma_parts_jobs_update(s.parts, s.jobs, k, job);
        lemma_history_jobs_update(s.history, s.jobs, k, job);
        lemma_has_job_update(s.jobs, k, job, job_id);
        lemma_history_push(s.history, s.jobs.update(k, job), entry);
        lemma_ledgers_transition(s.jobs, s.history, k, job, entry);
        lemma_job_pos(s.jobs.update(k, job), k);
    }
}

/// Status changes of one job are serialized. Of two changes that both
/// succeed, the later one starts from the status the earlier one left: the
/// job's ledger grows by two entries, the first from the job's old status
/// to the first target, the second from the first target to the second.
/// No two entries claim the same starting point by reading a stale status.
pub proof fn lemma_transitions_serialize(
    s: StoreView,
    job_id: u128,
    first: StatusChange,
    second: StatusChange,
)
    requires
        store_wf(s),
        changed(s, job_id, first).1 is Ok,
        changed(changed(s, job_id, first).0, job_id, second).1 is Ok,
    ensures
        ({
            let before = history_of(s.history, job_id);
            let s2 = changed(changed(s, job_id, first).0, job_id, second).0;
            let after = history_of(s2.history, job_id);
            let n = before.len() as int;
            &&& store_wf(s2)
            &&& after.len() == n + 2
            &&& after.subrange(0, n) == before
            &&& after[n].from_status == Some(s.jobs[job_pos(s.jobs, job_id)].status)
            &&& after[n].to_status == first.to_status
            &&& after[n + 1].from_status == Some(first.to_status)
            &&& after[n + 1].to_status == second.to_status
            &&& s2.jobs[job_pos(s2.jobs, job_id)].status == second.to_status
        }),
{
    lemma_transition_keeps_rules(
        s,
        job_id,
        first.to_status,
        first.note,
        first.remarks,
        first.entry_id,
        first.now,
    );
    let s1 = changed(s, job_id, first).0;
    lemma_transition_keeps_rules(
        s1,
        job_id,
        second.to_status,
        second.note,
        second.remarks,
        second.entry_id,
        second.now,
    );
    let s2 = changed(s1, job_id, second).0;
    let before = history_of(s.history, job_id);
    let after = history_of(s2.history, job_id);
    assert(after =~= before.push(s1.history.last()).push(s2.history.last()));
    assert(after.subrange(0, before.len() as int) =~= before);
}

/// The ledger is append-only. Whatever the engine is asked to do, the
/// entries that the ledger held stay as they were and where they were; an
/// operation at most adds entries behind them.
pub proof fn lemma_ledger_append_only(
    s: StoreView,
    garage_user_id: u128,
    req: JobCreateRequestView,
    ids: NewJobIds,
    job_identifier: Seq<char>,
    job_id: u128,
    change: StatusChange,
    new_parts: Seq<NewPartView>,
    part_id: u128,
    part_name: Option<Seq<char>>,
    quantity: Option<i32>,
    unit_price: Option<Amount>,
    tax_percent: Option<Amount>,
)
    ensures
        s.history.is_prefix_of(
            create_job_spec(s, garage_user_id, req, ids, job_identifier, change.now).0.history,
        ),
        s.history.is_prefix_of(changed(s, job_id, change).0.history),
        add_parts_spec(s, job_id, new_parts).0.history == s.history,
        update_part_spec(
            s,
            job_id,
            part_id,
            part_name,
            quantity,
            unit_price,
            tax_percent,
        ).0.history == s.history,
        remove_part_spec(s, job_id, part_id).0.history == s.history,
        resolve_customer_spec(s, req.phone, req.customer_name, ids.customer).0.history
            == s.history,
        resolve_vehicle_spec(
            s,
            ids.customer,
            req.vehicle_number,
            req.vehicle_make,
            req.vehicle_model,
            ids.vehicle,
        ).0.history == s.history,
{
    let opened = create_job_spec(s, garage_user_id, req, ids, job_identifier, change.now).0;
    assert(opened.history == s.history || exists|e: StatusHistoryEntryView|
        opened.history == s.history.push(e));
    assert(s.history.is_prefix_of(opened.history));
    let moved = changed(s, job_id, change).0;
    assert(moved.history == s.history || exists|e: StatusHistoryEntryView|
        moved.history == s.history.push(e));
    assert(s.history.is_prefix_of(moved.history));
}

/// The name that stands after a run of calls: the latest one supplied, or
/// the one that stood before where none was supplied.
pub open spec fn latest_name(stored: Option<Seq<char>>, supplied: Seq<Option<Seq<char>>>) -> Option<
    Seq<char>,
>
    decreases supplied.len(),
{
    if supplied.len() == 0 {
        stored
    } else {
        merged(supplied.last(), latest_name(stored, supplied.drop_last()))
    }
}

/// The store after resolving one phone number again and again, with the
/// names and under the fresh ids given.
pub open spec fn resolved_many(
    s: StoreView,
    phone: Seq<char>,
    names: Seq<Option<Seq<char>>>,
    fresh_ids: Seq<u128>,
) -> StoreView
    decreases names.len(),
{
    if names.len() == 0 {
        s
    } else {
        resolve_customer_spec(
            resolved_many(s, phone, names.drop_last(), fresh_ids),
            phone,
            names.last(),
            fresh_ids[names.len() - 1],
        ).0
    }
}

/// A customer's name is the latest one supplied. After any run of calls
/// that resolve a known phone number, the customer has the id it had, and
/// its name is the last name that a call supplied; where no call supplied
/// one, it is the name it had.
pub proof fn lemma_name_is_latest_supplied(
    s: StoreView,
    phone: Seq<char>,
    names: Seq<Option<Seq<char>>>,
    fresh_ids: Seq<u128>,
)
    requires
        store_wf(s),
        knows_phone(s.customers, phone),
    ensures
        ({
            let after = resolved_many(s, phone, names, fresh_ids);
            let at = phone_pos(s.customers, phone);
            &&& store_wf(after)
            &&& after.customers.len() == s.customers.len()
            &&& phone_pos(after.customers, phone) == at
            &&& after.customers[at].id == s.customers[at].id
            &&& after.customers[at].phone == phone
            &&& after.customers[at].name == latest_name(s.customers[at].name, names)
        }),
    decreases names.len(),
{
    let at = phone_pos(s.customers, phone);
    lemma_phone_pos(s.customers, at);
    if names.len() > 0 {
        lemma_name_is_latest_supplied(s, phone, names.drop_last(), fresh_ids);
        let before = resolved_many(s, phone, names.drop_last(), fresh_ids);
        lemma_phone_pos(before.customers, at);
        let row = CustomerView {
            name: merged(names.last(), before.customers[at].name),
            ..before.customers[at]
        };
        crate::garage::store::lemma_customers_update(before.customers, at, row);
        let after = resolved_many(s, phone, names, fresh_ids);
        assert(after.customers == before.customers.update(at, row));
        lemma_phone_pos(after.customers, at);
    }
}

} // verus!
