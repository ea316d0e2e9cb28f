use garagex_backend::error::{Entity, RepoError};
use garagex_backend::garage::models::{
    Amount, CalendarDate, GarageUser, JobCreateRequest, JobStatusUpdateRequest,
};
use garagex_backend::garage::orchestrator::NewJobIds;
use garagex_backend::garage::parts::NewPart;
use garagex_backend::garage::repository::GarageRepo;
use garagex_backend::garage::store::Store;

fn user(id: u128, garage_id: u128, name: Option<&str>) -> GarageUser {
    GarageUser {
        id,
        garage_id,
        username: name.map(|n| n.to_string()),
        password_hash: Some("pw".to_string()),
        display_name: Some("Display".to_string()),
        phone: None,
        email: None,
        role: "STAFF".to_string(),
        is_active: true,
    }
}

fn open(store: &mut Store, user_id: u128, job: u128, phone: &str, vehicle: &str, owner: Option<&str>) {
    let req = JobCreateRequest {
        customer_name: owner.map(|o| o.to_string()),
        phone: phone.to_string(),
        vehicle_number: vehicle.to_string(),
        vehicle_make: Some("Maruti".to_string()),
        vehicle_model: Some("Swift".to_string()),
        complaint: None,
        estimated_delivery_date: Some(CalendarDate { days_from_ce: 739_000 }),
        estimated_time: Some("1d".to_string()),
    };
    let ids = NewJobIds { customer: job + 1000, vehicle: job + 2000, job, entry: job + 3000 };
    store.create_job(user_id, &req, ids, format!("JOB-{}", job), 1).unwrap();
}

fn two_garages() -> Store {
    let mut store = Store::new();
    store.register_garage_user(user(1, 10, Some("anil"))).unwrap();
    store.register_garage_user(user(2, 20, Some("bina"))).unwrap();
    store.register_garage_user(user(3, 10, None)).unwrap();
    open(&mut store, 1, 5, "9000000001", "KA01AB1234", Some("Asha"));
    open(&mut store, 2, 6, "9000000002", "MH12XY0001", None);
    open(&mut store, 3, 7, "9000000001", "KA05ZZ9999", None);
    store
}

#[test]
fn job_details_join_vehicle_owner_parts_and_ledger() {
    let mut store = two_garages();
    store
        .add_parts(
            5,
            &vec![NewPart {
                id: 50,
                name: "oil filter".to_string(),
                quantity: None,
                unit_price: Amount { bits: 12.5f64.to_bits() },
                tax_percent: None,
            }],
        )
        .unwrap();
    let body = JobStatusUpdateRequest {
        to_status: "IN_PROGRESS".to_string(),
        note: None,
        remarks: Some("urgent".to_string()),
    };
    store.transition(5, &body, 900, 2).unwrap();
    let d = store.job_details(5).unwrap();
    assert_eq!(d.job_id, 5);
    assert_eq!(d.status, "IN_PROGRESS");
    assert_eq!(d.remarks.as_deref(), Some("urgent"));
    assert_eq!(d.vehicle_number.as_deref(), Some("KA01AB1234"));
    assert_eq!(d.vehicle_make.as_deref(), Some("Maruti"));
    assert_eq!(d.vehicle_model.as_deref(), Some("Swift"));
    assert_eq!(d.owner_name.as_deref(), Some("Asha"));
    assert_eq!(d.parts.len(), 1);
    assert_eq!(d.parts[0].name, "oil filter");
    assert_eq!(d.status_history.len(), 2);
    assert_eq!(d.status_history[1].to_status, "IN_PROGRESS");
}

#[test]
fn job_details_show_the_owner_name_as_it_is_now() {
    let mut store = two_garages();
    // job 7 was opened for the customer of job 5, without a name
    let d = store.job_details(7).unwrap();
    assert_eq!(d.owner_name.as_deref(), Some("Asha"));
    store.resolve_customer(&"9000000001".to_string(), &Some("Asha R".to_string()), 1).unwrap();
    let d = store.job_details(5).unwrap();
    assert_eq!(d.owner_name.as_deref(), Some("Asha R"));
    // a job whose customer has no name
    let d = store.job_details(6).unwrap();
    assert_eq!(d.owner_name, None);
}

#[test]
fn job_details_of_a_missing_or_deleted_job_are_not_found() {
    let mut store = two_garages();
    assert_eq!(store.job_details(99).err(), Some(RepoError::NotFound(Entity::Job)));
    store.mark_job_deleted(5).unwrap();
    assert_eq!(store.job_details(5).err(), Some(RepoError::NotFound(Entity::Job)));
    assert_eq!(
        GarageRepo::get_job_details(&store, 5).err(),
        Some(RepoError::NotFound(Entity::Job))
    );
    assert!(store.job_details(6).is_ok());
}

#[test]
fn the_job_list_holds_the_garage_s_jobs_newest_first() {
    let mut store = two_garages();
    open(&mut store, 1, 8, "9000000003", "KA09AA0001", Some("Ravi"));
    let list = store.job_list(1);
    let ids: Vec<u128> = list.iter().map(|j| j.job_id).collect();
    assert_eq!(ids, vec![8, 7, 5]);
    assert_eq!(list[0].vehicle_number.as_deref(), Some("KA09AA0001"));
    assert_eq!(list[0].owner_name.as_deref(), Some("Ravi"));
    assert_eq!(list[0].status.as_deref(), Some("CREATED"));
    assert_eq!(list[0].estimated_time.as_deref(), Some("1d"));
    assert_eq!(list[0].estimated_delivery_date, Some(CalendarDate { days_from_ce: 739_000 }));
    // a colleague of the same garage sees the same list
    let ids: Vec<u128> = store.job_list(3).iter().map(|j| j.job_id).collect();
    assert_eq!(ids, vec![8, 7, 5]);
    // the other garage sees its own
    let ids: Vec<u128> = store.job_list(2).iter().map(|j| j.job_id).collect();
    assert_eq!(ids, vec![6]);
}

#[test]
fn the_job_list_leaves_deleted_jobs_out() {
    let mut store = two_garages();
    store.mark_job_deleted(7).unwrap();
    let ids: Vec<u128> = store.job_list(1).iter().map(|j| j.job_id).collect();
    assert_eq!(ids, vec![5]);
    let listed = GarageRepo::list_jobs_for_garage_user(&store, 1).unwrap();
    assert_eq!(listed.len(), 1);
}

#[test]
fn an_unknown_user_has_an_empty_job_list() {
    let store = two_garages();
    assert_eq!(store.job_list(99).len(), 0);
    assert_eq!(GarageRepo::list_jobs_for_garage_user(&store, 99).unwrap().len(), 0);
}

#[test]
fn users_are_found_by_login_name() {
    let store = two_garages();
    let found = GarageRepo::find_user_by_username(&store, "bina").unwrap();
    assert_eq!(found.id, 2);
    assert_eq!(found.garage_id, 20);
    assert_eq!(found.password_hash.as_deref(), Some("pw"));
    assert_eq!(found.display_name.as_deref(), Some("Display"));
    assert_eq!(found.role, "STAFF");
    assert!(found.is_active);
    assert_eq!(
        GarageRepo::find_user_by_username(&store, "carl").err(),
        Some(RepoError::NotFound(Entity::GarageUser))
    );
    // a user without a login name is never found by name
    assert_eq!(
        GarageRepo::find_user_by_username(&store, "").err(),
        Some(RepoError::NotFound(Entity::GarageUser))
    );
}

#[test]
fn a_snapshot_is_a_copy_that_later_changes_do_not_touch() {
    let mut store = two_garages();
    let copy = store.snapshot();
    store.mark_job_deleted(5).unwrap();
    store.resolve_customer(&"9000000001".to_string(), &Some("Other".to_string()), 1).unwrap();
    assert_eq!(copy.jobs().len(), 3);
    assert!(!copy.jobs()[0].deleted);
    assert_eq!(copy.customers()[0].name.as_deref(), Some("Asha"));
    assert_eq!(copy.garage_users().len(), 3);
    assert_eq!(copy.vehicles().len(), 3);
    assert_eq!(copy.history().len(), 3);
    assert!(copy.job_details(5).is_ok());
}
