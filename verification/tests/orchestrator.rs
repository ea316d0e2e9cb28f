use garagex_backend::error::{Entity, RepoError};
use garagex_backend::garage::models::{CalendarDate, GarageUser, JobCreateRequest};
use garagex_backend::garage::orchestrator::NewJobIds;
use garagex_backend::garage::store::Store;

fn user(id: u128, garage_id: u128, active: bool) -> GarageUser {
    GarageUser {
        id,
        garage_id,
        username: Some(format!("user{}", id)),
        password_hash: None,
        display_name: None,
        phone: None,
        email: None,
        role: "STAFF".to_string(),
        is_active: active,
    }
}

fn request() -> JobCreateRequest {
    JobCreateRequest {
        customer_name: Some("Asha".to_string()),
        phone: "9999999999".to_string(),
        vehicle_number: "KA01AB1234".to_string(),
        vehicle_make: Some("Maruti".to_string()),
        vehicle_model: None,
        complaint: Some("brake noise".to_string()),
        estimated_delivery_date: Some(CalendarDate { days_from_ce: 739_000 }),
        estimated_time: Some("2h".to_string()),
    }
}

fn ids(base: u128) -> NewJobIds {
    NewJobIds { customer: base, vehicle: base + 1, job: base + 2, entry: base + 3 }
}

#[test]
fn opening_a_job_writes_customer_vehicle_job_and_first_entry() {
    let mut store = Store::new();
    store.register_garage_user(user(1, 10, true)).unwrap();
    let resp = store.create_job(1, &request(), ids(100), "JOB-a".to_string(), 1_700_000_000).unwrap();
    assert_eq!(resp.job_id, 102);
    assert_eq!(resp.job_identifier, "JOB-a");
    assert_eq!(resp.customer_id, 100);
    assert_eq!(resp.vehicle_id, 101);
    assert_eq!(resp.vehicle_number, "KA01AB1234");
    assert_eq!(resp.owner_name.as_deref(), Some("Asha"));
    assert_eq!(resp.estimated_delivery_date, Some(CalendarDate { days_from_ce: 739_000 }));
    assert_eq!(resp.estimated_time.as_deref(), Some("2h"));
    assert_eq!(resp.status, "CREATED");

    assert_eq!(store.customers().len(), 1);
    assert_eq!(store.vehicles().len(), 1);
    assert_eq!(store.vehicles()[0].customer_id, 100);
    assert_eq!(store.jobs().len(), 1);
    let job = &store.jobs()[0];
    assert_eq!(job.id, 102);
    assert_eq!(job.garage_id, 10);
    assert_eq!(job.vehicle_id, 101);
    assert_eq!(job.customer_phone, "9999999999");
    assert_eq!(job.customer_name.as_deref(), Some("Asha"));
    assert_eq!(job.complaint.as_deref(), Some("brake noise"));
    assert_eq!(job.status, "CREATED");
    assert_eq!(job.remarks, None);
    assert!(!job.deleted);
    assert_eq!(store.history().len(), 1);
    let entry = &store.history()[0];
    assert_eq!(entry.id, 103);
    assert_eq!(entry.job_id, 102);
    assert_eq!(entry.from_status, None);
    assert_eq!(entry.to_status, "CREATED");
    assert_eq!(entry.note.as_deref(), Some("Job created"));
    assert_eq!(entry.created_at, 1_700_000_000);
}

#[test]
fn a_second_job_reuses_customer_and_vehicle() {
    let mut store = Store::new();
    store.register_garage_user(user(1, 10, true)).unwrap();
    store.create_job(1, &request(), ids(100), "JOB-a".to_string(), 5).unwrap();
    let mut again = request();
    again.customer_name = None;
    again.vehicle_model = Some("Swift".to_string());
    let resp = store.create_job(1, &again, ids(200), "JOB-b".to_string(), 6).unwrap();
    assert_eq!(resp.customer_id, 100);
    assert_eq!(resp.vehicle_id, 101);
    // the name stored earlier is kept and shown
    assert_eq!(resp.owner_name.as_deref(), Some("Asha"));
    assert_eq!(store.customers().len(), 1);
    assert_eq!(store.vehicles().len(), 1);
    assert_eq!(store.vehicles()[0].make.as_deref(), Some("Maruti"));
    assert_eq!(store.vehicles()[0].model.as_deref(), Some("Swift"));
    assert_eq!(store.jobs().len(), 2);
    assert_eq!(store.jobs()[1].customer_name.as_deref(), Some("Asha"));
    assert_eq!(store.history().len(), 2);
}

#[test]
fn an_unknown_caller_is_refused() {
    let mut store = Store::new();
    let r = store.create_job(1, &request(), ids(100), "JOB-a".to_string(), 5);
    assert_eq!(r.err(), Some(RepoError::NotFound(Entity::GarageUser)));
    assert_eq!(store.customers().len(), 0);
    assert_eq!(store.vehicles().len(), 0);
    assert_eq!(store.jobs().len(), 0);
}

#[test]
fn an_inactive_caller_is_refused() {
    let mut store = Store::new();
    store.register_garage_user(user(1, 10, false)).unwrap();
    let r = store.create_job(1, &request(), ids(100), "JOB-a".to_string(), 5);
    assert_eq!(r.err(), Some(RepoError::NotFound(Entity::GarageUser)));
    assert_eq!(store.customers().len(), 0);
}

#[test]
fn a_failing_job_insert_leaves_no_customer_or_vehicle_behind() {
    let mut store = Store::new();
    store.register_garage_user(user(1, 10, true)).unwrap();
    store.create_job(1, &request(), ids(100), "JOB-a".to_string(), 5).unwrap();

    // A new customer and a new vehicle would be inserted, but the job's id
    // is taken: the whole call is undone.
    let mut other = request();
    other.phone = "8888888888".to_string();
    other.vehicle_number = "MH12XY0001".to_string();
    let clash = NewJobIds { customer: 200, vehicle: 201, job: 102, entry: 203 };
    let r = store.create_job(1, &other, clash, "JOB-b".to_string(), 6);
    assert_eq!(r.err(), Some(RepoError::Conflict));
    assert_eq!(store.customers().len(), 1);
    assert_eq!(store.vehicles().len(), 1);
    assert_eq!(store.jobs().len(), 1);
    assert_eq!(store.history().len(), 1);

    // The same with a taken display identifier, and with a taken entry id.
    let r = store.create_job(1, &other, ids(200), "JOB-a".to_string(), 6);
    assert_eq!(r.err(), Some(RepoError::Conflict));
    let clash = NewJobIds { customer: 200, vehicle: 201, job: 202, entry: 103 };
    let r = store.create_job(1, &other, clash, "JOB-b".to_string(), 6);
    assert_eq!(r.err(), Some(RepoError::Conflict));
    assert_eq!(store.customers().len(), 1);
    assert_eq!(store.vehicles().len(), 1);
    assert_eq!(store.jobs().len(), 1);
    assert_eq!(store.history().len(), 1);
}

#[test]
fn a_merge_is_undone_too_when_the_job_insert_fails() {
    let mut store = Store::new();
    store.register_garage_user(user(1, 10, true)).unwrap();
    let mut first = request();
    first.customer_name = None;
    first.vehicle_make = None;
    store.create_job(1, &first, ids(100), "JOB-a".to_string(), 5).unwrap();
    // known customer and vehicle, new name and make, but the job id is taken
    let clash = NewJobIds { customer: 200, vehicle: 201, job: 102, entry: 203 };
    let r = store.create_job(1, &request(), clash, "JOB-b".to_string(), 6);
    assert_eq!(r.err(), Some(RepoError::Conflict));
    assert_eq!(store.customers()[0].name, None);
    assert_eq!(store.vehicles()[0].make, None);
}

#[test]
fn registering_a_garage_user_twice_is_a_conflict() {
    let mut store = Store::new();
    assert_eq!(store.register_garage_user(user(1, 10, true)), Ok(()));
    assert_eq!(store.register_garage_user(user(1, 11, true)), Err(RepoError::Conflict));
    assert_eq!(store.garage_users().len(), 1);
    assert_eq!(store.garage_users()[0].garage_id, 10);
}
