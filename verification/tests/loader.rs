use garagex_backend::error::RepoError;
use garagex_backend::garage::models::{Amount, GarageUser, JobStatusUpdateRequest};
use garagex_backend::garage::store::{Customer, Job, JobPart, StatusHistoryEntry, Store, Vehicle};

fn user(id: u128) -> GarageUser {
    GarageUser {
        id,
        garage_id: 10,
        username: None,
        password_hash: None,
        display_name: None,
        phone: None,
        email: None,
        role: "STAFF".to_string(),
        is_active: true,
    }
}

fn customer(id: u128, phone: &str) -> Customer {
    Customer { id, phone: phone.to_string(), name: None }
}

fn vehicle(id: u128, customer_id: u128, number: &str) -> Vehicle {
    Vehicle { id, customer_id, vehicle_number: number.to_string(), make: None, model: None }
}

fn job(id: u128, identifier: &str, status: &str) -> Job {
    Job {
        id,
        job_identifier: identifier.to_string(),
        garage_id: 10,
        vehicle_id: 100,
        customer_phone: "1".to_string(),
        customer_name: None,
        complaint: None,
        estimated_delivery_date: None,
        estimated_time: None,
        status: status.to_string(),
        remarks: None,
        deleted: false,
    }
}

fn part(id: u128, job_id: u128) -> JobPart {
    JobPart {
        id,
        job_id,
        name: "p".to_string(),
        quantity: Some(1),
        unit_price: Amount { bits: 0 },
        tax_percent: None,
    }
}

fn entry(id: u128, job_id: u128, from: Option<&str>, to: &str, at: i64) -> StatusHistoryEntry {
    StatusHistoryEntry {
        id,
        job_id,
        from_status: from.map(|f| f.to_string()),
        to_status: to.to_string(),
        note: None,
        created_at: at,
    }
}

struct Tables {
    users: Vec<GarageUser>,
    customers: Vec<Customer>,
    vehicles: Vec<Vehicle>,
    jobs: Vec<Job>,
    parts: Vec<JobPart>,
    history: Vec<StatusHistoryEntry>,
}

fn sound() -> Tables {
    Tables {
        users: vec![user(1), user(2)],
        customers: vec![customer(1, "1"), customer(2, "2")],
        vehicles: vec![vehicle(100, 1, "KA01"), vehicle(101, 2, "KA01"), vehicle(102, 1, "KA02")],
        jobs: vec![job(5, "JOB-5", "DONE"), job(6, "JOB-6", "CREATED")],
        parts: vec![part(50, 5), part(51, 6), part(52, 5)],
        history: vec![
            entry(1, 5, None, "CREATED", 10),
            entry(2, 6, None, "CREATED", 10),
            entry(3, 5, Some("CREATED"), "IN_PROGRESS", 11),
            entry(4, 5, Some("IN_PROGRESS"), "DONE", 15),
        ],
    }
}

fn load(t: Tables) -> Result<Store, RepoError> {
    Store::from_tables(vec![], t.users, t.customers, t.vehicles, t.jobs, t.parts, t.history)
}

fn refused(t: Tables) -> bool {
    matches!(load(t), Err(RepoError::Conflict))
}

#[test]
fn tables_that_obey_the_rules_make_a_store() {
    let mut store = load(sound()).unwrap();
    assert_eq!(store.jobs().len(), 2);
    assert_eq!(store.ledger_for(5).len(), 3);
    assert_eq!(store.parts_for(5).len(), 2);
    // and the store goes on from where the tables left
    let body = JobStatusUpdateRequest { to_status: "DELIVERED".to_string(), note: None, remarks: None };
    let ledger = store.transition(5, &body, 9, 0).unwrap().status_history;
    assert_eq!(ledger[3].from_status.as_deref(), Some("DONE"));
    assert_eq!(ledger[3].created_at, 15);
}

#[test]
fn empty_tables_make_an_empty_store() {
    let store = Store::from_tables(vec![], vec![], vec![], vec![], vec![], vec![], vec![]).unwrap();
    assert_eq!(store.jobs().len(), 0);
}

#[test]
fn a_store_s_own_tables_make_the_store_again() {
    let store = load(sound()).unwrap();
    let copy = store.snapshot();
    let again = Store::from_tables(
        vec![],
        copy.garage_users().iter().map(|u| user(u.id)).collect(),
        copy.customers().iter().map(|c| customer(c.id, &c.phone)).collect(),
        copy.vehicles().iter().map(|v| vehicle(v.id, v.customer_id, &v.vehicle_number)).collect(),
        copy.jobs().iter().map(|j| job(j.id, &j.job_identifier, &j.status)).collect(),
        copy.parts().iter().map(|p| part(p.id, p.job_id)).collect(),
        copy.history()
            .iter()
            .map(|e| entry(e.id, e.job_id, e.from_status.as_deref(), &e.to_status, e.created_at))
            .collect(),
    );
    assert!(again.is_ok());
}

#[test]
fn duplicate_keys_are_refused() {
    let mut t = sound();
    t.users.push(user(1));
    assert!(refused(t));
    let mut t = sound();
    t.customers.push(customer(1, "3"));
    assert!(refused(t));
    let mut t = sound();
    t.customers.push(customer(3, "2"));
    assert!(refused(t));
    let mut t = sound();
    t.vehicles.push(vehicle(100, 9, "ZZ"));
    assert!(refused(t));
    let mut t = sound();
    t.vehicles.push(vehicle(103, 2, "KA01"));
    assert!(refused(t));
    let mut t = sound();
    t.parts.push(part(50, 6));
    assert!(refused(t));
    let mut t = sound();
    t.history.push(entry(4, 6, Some("CREATED"), "X", 20));
    t.jobs[1].status = "X".to_string();
    assert!(refused(t));
}

#[test]
fn duplicate_jobs_are_refused() {
    let mut t = sound();
    t.jobs.push(job(5, "JOB-7", "DONE"));
    assert!(refused(t));
    let mut t = sound();
    t.jobs.push(job(7, "JOB-5", "CREATED"));
    t.history.push(entry(9, 7, None, "CREATED", 20));
    assert!(refused(t));
    // with its own id and identifier the third job is fine
    let mut t = sound();
    t.jobs.push(job(7, "JOB-7", "CREATED"));
    t.history.push(entry(9, 7, None, "CREATED", 20));
    assert!(load(t).is_ok());
}

#[test]
fn rows_of_unknown_jobs_are_refused() {
    let mut t = sound();
    t.parts.push(part(53, 7));
    assert!(refused(t));
    let mut t = sound();
    t.history.push(entry(9, 7, None, "CREATED", 20));
    assert!(refused(t));
}

#[test]
fn a_ledger_out_of_time_order_is_refused() {
    let mut t = sound();
    t.history[3].created_at = 9;
    assert!(refused(t));
    let mut t = sound();
    t.history[3].created_at = 11;
    assert!(load(t).is_ok());
}

#[test]
fn a_job_without_a_ledger_is_refused() {
    let mut t = sound();
    t.jobs.push(job(7, "JOB-7", "CREATED"));
    assert!(refused(t));
}

#[test]
fn a_broken_chain_is_refused() {
    // the first entry comes from a status
    let mut t = sound();
    t.history[1].from_status = Some("X".to_string());
    assert!(refused(t));
    // a later entry comes from no status
    let mut t = sound();
    t.history[2].from_status = None;
    assert!(refused(t));
    // a later entry starts from another status than its predecessor ended in
    let mut t = sound();
    t.history[3].from_status = Some("CREATED".to_string());
    assert!(refused(t));
    // two entries claim the same starting point
    let mut t = sound();
    t.history[3].from_status = Some("CREATED".to_string());
    t.history[3].to_status = "DONE".to_string();
    assert!(refused(t));
}

#[test]
fn a_status_that_is_not_the_ledger_s_end_is_refused() {
    let mut t = sound();
    t.jobs[0].status = "IN_PROGRESS".to_string();
    assert!(refused(t));
    let mut t = sound();
    t.jobs[1].status = "DONE".to_string();
    assert!(refused(t));
}
