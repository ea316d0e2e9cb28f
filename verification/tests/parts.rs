use garagex_backend::error::{Entity, RepoError};
use garagex_backend::garage::models::{Amount, GarageUser, JobCreateRequest, JobPartUpdateRequest};
use garagex_backend::garage::orchestrator::NewJobIds;
use garagex_backend::garage::parts::NewPart;
use garagex_backend::garage::store::Store;

fn amount(x: f64) -> Amount {
    Amount { bits: x.to_bits() }
}

fn store_with_jobs() -> Store {
    let mut store = Store::new();
    store
        .register_garage_user(GarageUser {
            id: 1,
            garage_id: 10,
            username: None,
            password_hash: None,
            display_name: None,
            phone: None,
            email: None,
            role: "STAFF".to_string(),
            is_active: true,
        })
        .unwrap();
    for job in [5u128, 6u128] {
        let req = JobCreateRequest {
            customer_name: None,
            phone: format!("phone{}", job),
            vehicle_number: "KA01AB1234".to_string(),
            vehicle_make: None,
            vehicle_model: None,
            complaint: None,
            estimated_delivery_date: None,
            estimated_time: None,
        };
        let ids =
            NewJobIds { customer: job + 1000, vehicle: job + 2000, job, entry: job + 3000 };
        store.create_job(1, &req, ids, format!("JOB-{}", job), 1).unwrap();
    }
    store
}

fn part(id: u128, name: &str, quantity: Option<i32>, price: f64) -> NewPart {
    NewPart { id, name: name.to_string(), quantity, unit_price: amount(price), tax_percent: None }
}

fn no_change() -> JobPartUpdateRequest {
    JobPartUpdateRequest { name: None, quantity: None, unit_price: None, tax_percent: None }
}

#[test]
fn quantity_defaults_to_one() {
    let mut store = store_with_jobs();
    let listed = store.add_parts(5, &vec![part(50, "oil filter", None, 12.5)]).unwrap();
    assert_eq!(listed.len(), 1);
    assert_eq!(listed[0].id, 50);
    assert_eq!(listed[0].name, "oil filter");
    assert_eq!(listed[0].quantity, Some(1));
    assert_eq!(listed[0].unit_price, amount(12.5));
    assert_eq!(listed[0].tax_percent, None);
    assert_eq!(store.parts()[0].job_id, 5);
}

#[test]
fn parts_are_listed_per_job_in_creation_order() {
    let mut store = store_with_jobs();
    store.add_parts(5, &vec![part(50, "a", Some(2), 1.0), part(51, "b", Some(3), 2.0)]).unwrap();
    store.add_parts(6, &vec![part(60, "x", None, 9.0)]).unwrap();
    let listed = store.add_parts(5, &vec![part(52, "c", Some(0), 3.0)]).unwrap();
    let names: Vec<&str> = listed.iter().map(|p| p.name.as_str()).collect();
    assert_eq!(names, vec!["a", "b", "c"]);
    assert_eq!(listed[1].quantity, Some(3));
    assert_eq!(listed[2].quantity, Some(0));
    let other = store.parts_for(6);
    assert_eq!(other.len(), 1);
    assert_eq!(other[0].name, "x");
    assert_eq!(store.parts_for(7).len(), 0);
}

#[test]
fn adding_no_parts_lists_what_is_there() {
    let mut store = store_with_jobs();
    store.add_parts(5, &vec![part(50, "a", None, 1.0)]).unwrap();
    let listed = store.add_parts(5, &vec![]).unwrap();
    assert_eq!(listed.len(), 1);
}

#[test]
fn parts_are_added_all_or_none() {
    let mut store = store_with_jobs();
    store.add_parts(5, &vec![part(50, "a", None, 1.0)]).unwrap();
    // the third id is taken
    let r = store.add_parts(5, &vec![part(51, "b", None, 1.0), part(52, "c", None, 1.0), part(50, "d", None, 1.0)]);
    assert_eq!(r.err(), Some(RepoError::Conflict));
    assert_eq!(store.parts().len(), 1);
    // an id given twice
    let r = store.add_parts(6, &vec![part(51, "b", None, 1.0), part(51, "c", None, 1.0)]);
    assert_eq!(r.err(), Some(RepoError::Conflict));
    assert_eq!(store.parts().len(), 1);
}

#[test]
fn parts_need_a_live_job() {
    let mut store = store_with_jobs();
    let r = store.add_parts(7, &vec![part(50, "a", None, 1.0)]);
    assert_eq!(r.err(), Some(RepoError::NotFound(Entity::Job)));
    store.mark_job_deleted(5).unwrap();
    let r = store.add_parts(5, &vec![part(50, "a", None, 1.0)]);
    assert_eq!(r.err(), Some(RepoError::NotFound(Entity::Job)));
    assert_eq!(store.parts().len(), 0);
}

#[test]
fn only_the_fields_supplied_change() {
    let mut store = store_with_jobs();
    store
        .add_parts(
            5,
            &vec![NewPart {
                id: 50,
                name: "oil filter".to_string(),
                quantity: Some(2),
                unit_price: amount(12.5),
                tax_percent: Some(amount(18.0)),
            }],
        )
        .unwrap();
    let same = store.update_part(5, 50, &no_change()).unwrap();
    assert_eq!(same.name, "oil filter");
    assert_eq!(same.quantity, Some(2));
    assert_eq!(same.unit_price, amount(12.5));
    assert_eq!(same.tax_percent, Some(amount(18.0)));

    let mut req = no_change();
    req.quantity = Some(4);
    let updated = store.update_part(5, 50, &req).unwrap();
    assert_eq!(updated.id, 50);
    assert_eq!(updated.name, "oil filter");
    assert_eq!(updated.quantity, Some(4));
    assert_eq!(updated.unit_price, amount(12.5));

    let req = JobPartUpdateRequest {
        name: Some("air filter".to_string()),
        quantity: None,
        unit_price: Some(amount(20.0)),
        tax_percent: Some(amount(5.0)),
    };
    let updated = store.update_part(5, 50, &req).unwrap();
    assert_eq!(updated.name, "air filter");
    assert_eq!(updated.quantity, Some(4));
    assert_eq!(updated.unit_price, amount(20.0));
    assert_eq!(updated.tax_percent, Some(amount(5.0)));
    assert_eq!(store.parts()[0].name, "air filter");
    assert_eq!(store.parts()[0].job_id, 5);
}

#[test]
fn a_part_cannot_be_updated_through_another_job() {
    let mut store = store_with_jobs();
    store.add_parts(5, &vec![part(50, "oil filter", Some(2), 12.5)]).unwrap();
    let req = JobPartUpdateRequest {
        name: Some("tampered".to_string()),
        quantity: Some(99),
        unit_price: Some(amount(0.0)),
        tax_percent: None,
    };
    let r = store.update_part(6, 50, &req);
    assert_eq!(r.err(), Some(RepoError::NotFound(Entity::Part)));
    assert_eq!(store.parts()[0].name, "oil filter");
    assert_eq!(store.parts()[0].quantity, Some(2));
    assert_eq!(store.parts()[0].unit_price, amount(12.5));
    // nor through a job that does not exist, nor under an unknown id
    assert_eq!(store.update_part(7, 50, &req).err(), Some(RepoError::NotFound(Entity::Part)));
    assert_eq!(store.update_part(5, 51, &req).err(), Some(RepoError::NotFound(Entity::Part)));
}

#[test]
fn a_part_cannot_be_removed_through_another_job() {
    let mut store = store_with_jobs();
    store.add_parts(5, &vec![part(50, "oil filter", None, 12.5)]).unwrap();
    let r = store.remove_part(6, 50);
    assert_eq!(r.err(), Some(RepoError::NotFound(Entity::Part)));
    assert_eq!(store.parts().len(), 1);
}

#[test]
fn removing_a_part_returns_the_remaining_ones() {
    let mut store = store_with_jobs();
    store
        .add_parts(5, &vec![part(50, "a", None, 1.0), part(51, "b", None, 2.0), part(52, "c", None, 3.0)])
        .unwrap();
    store.add_parts(6, &vec![part(60, "x", None, 9.0)]).unwrap();
    let rest = store.remove_part(5, 51).unwrap();
    let names: Vec<&str> = rest.iter().map(|p| p.name.as_str()).collect();
    assert_eq!(names, vec!["a", "c"]);
    assert_eq!(store.parts().len(), 3);
    // removing it again finds nothing
    assert_eq!(store.remove_part(5, 51).err(), Some(RepoError::NotFound(Entity::Part)));
    // its id is free again
    let listed = store.add_parts(6, &vec![part(51, "y", None, 1.0)]).unwrap();
    assert_eq!(listed.len(), 2);
}
