use garagex_backend::error::{ApiError, AuthError, Entity, IdField, RepoError};
use garagex_backend::garage::models::{Amount, GarageUser, JobCreateRequest, JobPartCreateItem, JobPartUpdateRequest};
use garagex_backend::garage::repository::GarageRepo;
use garagex_backend::garage::store::Store;
use garagex_backend::ident::parse_id;

fn user(id: u128, garage_id: u128) -> GarageUser {
    GarageUser {
        id,
        garage_id,
        username: None,
        password_hash: None,
        display_name: None,
        phone: None,
        email: None,
        role: "STAFF".to_string(),
        is_active: true,
    }
}

fn request(phone: &str) -> JobCreateRequest {
    JobCreateRequest {
        customer_name: None,
        phone: phone.to_string(),
        vehicle_number: "KA01AB1234".to_string(),
        vehicle_make: None,
        vehicle_model: None,
        complaint: None,
        estimated_delivery_date: None,
        estimated_time: None,
    }
}

#[test]
fn each_failure_has_its_short_reason() {
    assert_eq!(ApiError::Validation(IdField::GarageId).reason(), "invalid id");
    assert_eq!(ApiError::Validation(IdField::UserId).reason(), "invalid user id");
    assert_eq!(ApiError::Validation(IdField::JobId).reason(), "invalid job id");
    assert_eq!(ApiError::Validation(IdField::PartId).reason(), "invalid part id");
    assert_eq!(
        ApiError::Auth(AuthError::MissingCredential).reason(),
        "missing or invalid authorization header"
    );
    assert_eq!(ApiError::Auth(AuthError::Malformed).reason(), "invalid token");
    assert_eq!(ApiError::Auth(AuthError::BadSignature).reason(), "invalid token");
    assert_eq!(ApiError::Auth(AuthError::Expired).reason(), "invalid token");
    assert_eq!(ApiError::Auth(AuthError::InvalidCredentials).reason(), "invalid credentials");
    assert_eq!(ApiError::NotFound(Entity::Job).reason(), "job not found");
    assert_eq!(ApiError::NotFound(Entity::Part).reason(), "part not found for this job");
    assert_eq!(
        ApiError::NotFound(Entity::GarageUser).reason(),
        "garage user not found or inactive"
    );
    assert_eq!(ApiError::NotFound(Entity::AdminUser).reason(), "admin user not found");
}

#[test]
fn server_faults_tell_nothing_of_what_went_wrong() {
    for e in [ApiError::Conflict, ApiError::Persistence, ApiError::Internal] {
        assert_eq!(e.reason(), "internal error");
        assert_eq!(e.status(), 500);
    }
    assert_eq!(ApiError::Validation(IdField::GarageId).status(), 400);
}

#[test]
fn an_identifier_is_read_from_the_text_of_a_uuid() {
    assert_eq!(parse_id("00000000-0000-0000-0000-000000000000"), Some(0));
    assert_eq!(parse_id("00000000-0000-0000-0000-0000000000ff"), Some(255));
    assert_eq!(parse_id("ffffffff-ffff-ffff-ffff-ffffffffffff"), Some(u128::MAX));
    assert_eq!(parse_id("0123456789abcdef0123456789abcdef"), Some(0x0123456789abcdef0123456789abcdef));
    assert_eq!(parse_id("urn:uuid:00000000-0000-0000-0000-000000000001"), Some(1));
    assert_eq!(parse_id("{00000000-0000-0000-0000-000000000001}"), Some(1));
    assert_eq!(parse_id("255"), None);
    assert_eq!(parse_id(""), None);
    assert_eq!(parse_id("00000000-0000-0000-0000-00000000000"), None);
    assert_eq!(parse_id("00000000_0000_0000_0000_000000000000"), None);
}

#[test]
fn a_display_identifier_is_the_prefix_and_the_text_of_its_seed() {
    assert_eq!(GarageRepo::job_identifier(0), "JOB-00000000-0000-0000-0000-000000000000");
    assert_eq!(
        GarageRepo::job_identifier(0x0123456789abcdef0123456789ABCDEF),
        "JOB-01234567-89ab-cdef-0123-456789abcdef"
    );
    let text = GarageRepo::job_identifier(u128::MAX);
    assert_eq!(parse_id(&text[4..]), Some(u128::MAX));
}

#[test]
fn jobs_opened_through_the_repository_get_distinct_identifiers() {
    let mut store = Store::new();
    store.register_garage_user(user(1, 10)).unwrap();
    let a = GarageRepo::create_job_with_entities(&mut store, 1, &request("1")).unwrap();
    let b = GarageRepo::create_job_with_entities(&mut store, 1, &request("1")).unwrap();
    assert_ne!(a.job_id, b.job_id);
    assert_ne!(a.job_identifier, b.job_identifier);
    // the second job reuses customer and vehicle of the first
    assert_eq!(a.customer_id, b.customer_id);
    assert_eq!(a.vehicle_id, b.vehicle_id);
    assert!(store.obeys_rules());
}

#[test]
fn parts_through_the_repository() {
    let mut store = Store::new();
    store.register_garage_user(user(1, 10)).unwrap();
    let a = GarageRepo::create_job_with_entities(&mut store, 1, &request("1")).unwrap();
    let b = GarageRepo::create_job_with_entities(&mut store, 1, &request("2")).unwrap();
    let item = |name: &str, quantity: Option<i32>| JobPartCreateItem {
        name: name.to_string(),
        quantity,
        unit_price: Amount { bits: 2.5f64.to_bits() },
        tax_percent: Some(Amount { bits: 18.0f64.to_bits() }),
    };
    let parts =
        GarageRepo::add_job_parts(&mut store, a.job_id, &vec![item("x", None), item("y", Some(7))])
            .unwrap();
    assert_eq!(parts.len(), 2);
    assert_eq!(parts[0].quantity, Some(1));
    assert_eq!(parts[1].quantity, Some(7));
    assert_eq!(f64::from_bits(parts[1].tax_percent.unwrap().bits), 18.0);
    let x = parts[0].id;

    let req = JobPartUpdateRequest {
        name: Some("z".to_string()),
        quantity: None,
        unit_price: None,
        tax_percent: None,
    };
    // through the wrong job: not found, and not touched
    assert_eq!(
        GarageRepo::update_job_part(&mut store, b.job_id, x, &req).err(),
        Some(RepoError::NotFound(Entity::Part))
    );
    assert_eq!(
        GarageRepo::remove_job_part(&mut store, b.job_id, x).err(),
        Some(RepoError::NotFound(Entity::Part))
    );
    assert_eq!(store.parts()[0].name, "x");
    // through its own job
    let updated = GarageRepo::update_job_part(&mut store, a.job_id, x, &req).unwrap();
    assert_eq!(updated.name, "z");
    assert_eq!(updated.quantity, Some(1));
    let rest = GarageRepo::remove_job_part(&mut store, a.job_id, x).unwrap();
    assert_eq!(rest.len(), 1);
    assert_eq!(rest[0].name, "y");
    assert!(store.obeys_rules());
}

#[test]
fn every_store_the_engine_hands_out_obeys_the_rules() {
    let mut store = Store::new();
    assert!(store.obeys_rules());
    store.register_garage_user(user(1, 10)).unwrap();
    let job = GarageRepo::create_job_with_entities(&mut store, 1, &request("1")).unwrap();
    assert!(store.obeys_rules());
    store.mark_job_deleted(job.job_id).unwrap();
    assert!(store.obeys_rules());
    assert!(store.snapshot().obeys_rules());
}

#[test]
fn the_garage_users_can_be_replaced_as_a_whole() {
    let mut store = Store::new();
    store.register_garage_user(user(1, 10)).unwrap();
    assert_eq!(store.set_garage_users(vec![user(2, 20), user(3, 20)]), Ok(()));
    let ids: Vec<u128> = store.garage_users().iter().map(|u| u.id).collect();
    assert_eq!(ids, vec![2, 3]);
    // user 1 is gone, and with it the right to open jobs
    assert_eq!(
        GarageRepo::create_job_with_entities(&mut store, 1, &request("1")).err(),
        Some(RepoError::NotFound(Entity::GarageUser))
    );
    assert!(GarageRepo::create_job_with_entities(&mut store, 2, &request("1")).is_ok());
    // two users under one id are refused, and the ones before stay
    assert_eq!(store.set_garage_users(vec![user(4, 20), user(4, 30)]), Err(RepoError::Conflict));
    let ids: Vec<u128> = store.garage_users().iter().map(|u| u.id).collect();
    assert_eq!(ids, vec![2, 3]);
    assert_eq!(store.set_garage_users(vec![]), Ok(()));
    assert_eq!(store.garage_users().len(), 0);
}
