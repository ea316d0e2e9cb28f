use garagex_backend::error::{Entity, RepoError};
use garagex_backend::garage::models::{
    GarageUser, JobCreateRequest, JobPartCreateItem, JobStatusUpdateRequest, Amount,
};
use garagex_backend::garage::repository::GarageRepo;
use garagex_backend::garage::store::Store;

fn garage_user(id: u128, garage_id: u128, active: bool) -> GarageUser {
    GarageUser {
        id,
        garage_id,
        username: Some("mechanic".to_string()),
        password_hash: Some("secret".to_string()),
        display_name: None,
        phone: None,
        email: None,
        role: "STAFF".to_string(),
        is_active: active,
    }
}

fn request(phone: &str, vehicle: &str) -> JobCreateRequest {
    JobCreateRequest {
        customer_name: None,
        phone: phone.to_string(),
        vehicle_number: vehicle.to_string(),
        vehicle_make: None,
        vehicle_model: None,
        complaint: None,
        estimated_delivery_date: None,
        estimated_time: None,
    }
}

#[test]
fn end_to_end_job_lifecycle() {
    let mut store = Store::new();
    store.register_garage_user(garage_user(1, 10, true)).unwrap();

    let created =
        GarageRepo::create_job_with_entities(&mut store, 1, &request("9999999999", "KA01AB1234"))
            .unwrap();
    assert!(created.job_identifier.starts_with("JOB-"));
    assert_eq!(created.job_identifier.len(), 4 + 36);
    assert_eq!(created.status, "CREATED");
    assert_eq!(created.vehicle_number, "KA01AB1234");

    let details = GarageRepo::get_job_details(&store, created.job_id).unwrap();
    assert_eq!(details.status, "CREATED");
    assert_eq!(details.status_history.len(), 1);
    assert_eq!(details.status_history[0].from_status, None);
    assert_eq!(details.status_history[0].to_status, "CREATED");

    let body = JobStatusUpdateRequest {
        to_status: "IN_PROGRESS".to_string(),
        note: Some("started".to_string()),
        remarks: None,
    };
    let updated = GarageRepo::update_job_status(&mut store, created.job_id, &body).unwrap();
    assert_eq!(updated.status_history.len(), 2);
    assert_eq!(updated.status_history[1].from_status.as_deref(), Some("CREATED"));
    assert_eq!(updated.status_history[1].to_status, "IN_PROGRESS");
    assert_eq!(updated.status_history[1].note.as_deref(), Some("started"));
    let details = GarageRepo::get_job_details(&store, created.job_id).unwrap();
    assert_eq!(details.status, "IN_PROGRESS");

    let parts = vec![JobPartCreateItem {
        name: "oil filter".to_string(),
        quantity: None,
        unit_price: Amount { bits: 12.5f64.to_bits() },
        tax_percent: None,
    }];
    let listed = GarageRepo::add_job_parts(&mut store, created.job_id, &parts).unwrap();
    assert_eq!(listed.len(), 1);
    assert_eq!(listed[0].name, "oil filter");
    assert_eq!(listed[0].quantity, Some(1));
    assert_eq!(f64::from_bits(listed[0].unit_price.bits), 12.5);
}

#[test]
fn unknown_garage_user_is_refused_before_any_write() {
    let mut store = Store::new();
    let r = GarageRepo::create_job_with_entities(&mut store, 7, &request("1", "X"));
    assert_eq!(r.err(), Some(RepoError::NotFound(Entity::GarageUser)));
}
