use garagex_backend::error::{Entity, RepoError};
use garagex_backend::garage::models::{GarageUser, JobCreateRequest, JobStatusUpdateRequest};
use garagex_backend::garage::orchestrator::NewJobIds;
use garagex_backend::garage::store::Store;

fn store_with_job(job_id: u128) -> Store {
    let mut store = Store::new();
    store
        .register_garage_user(GarageUser {
            id: 1,
            garage_id: 10,
            username: None,
            password_hash: None,
            display_name: None,
            phone: None,
            email: None,
            role: "STAFF".to_string(),
            is_active: true,
        })
        .unwrap();
    open_job(&mut store, job_id, "9999999999");
    store
}

fn open_job(store: &mut Store, job_id: u128, phone: &str) {
    let req = JobCreateRequest {
        customer_name: None,
        phone: phone.to_string(),
        vehicle_number: "KA01AB1234".to_string(),
        vehicle_make: None,
        vehicle_model: None,
        complaint: None,
        estimated_delivery_date: None,
        estimated_time: None,
    };
    let ids = NewJobIds {
        customer: job_id + 1000,
        vehicle: job_id + 2000,
        job: job_id,
        entry: job_id + 3000,
    };
    store.create_job(1, &req, ids, format!("JOB-{}", job_id), 100).unwrap();
}

fn change(to: &str, note: Option<&str>, remarks: Option<&str>) -> JobStatusUpdateRequest {
    JobStatusUpdateRequest {
        to_status: to.to_string(),
        note: note.map(|n| n.to_string()),
        remarks: remarks.map(|r| r.to_string()),
    }
}

#[test]
fn a_transition_appends_an_entry_from_the_current_status() {
    let mut store = store_with_job(5);
    let resp = store.transition(5, &change("IN_PROGRESS", Some("started"), None), 900, 200).unwrap();
    assert_eq!(resp.status_history.len(), 2);
    let first = &resp.status_history[0];
    assert_eq!(first.from_status, None);
    assert_eq!(first.to_status, "CREATED");
    let second = &resp.status_history[1];
    assert_eq!(second.id, 900);
    assert_eq!(second.from_status.as_deref(), Some("CREATED"));
    assert_eq!(second.to_status, "IN_PROGRESS");
    assert_eq!(second.note.as_deref(), Some("started"));
    assert_eq!(second.created_at, 200);
    assert_eq!(store.jobs()[0].status, "IN_PROGRESS");
}

#[test]
fn the_ledger_chains_over_many_transitions() {
    let mut store = store_with_job(5);
    open_job(&mut store, 6, "8888888888");
    let steps = ["IN_PROGRESS", "WAITING_PARTS", "IN_PROGRESS", "DONE", "DELIVERED"];
    for (n, step) in steps.iter().enumerate() {
        store.transition(5, &change(step, None, None), 900 + n as u128, 200 + n as i64).unwrap();
        // another job's ledger moves in between
        store.transition(6, &change("X", None, None), 800 + n as u128, 200 + n as i64).unwrap();
    }
    let ledger = store.ledger_for(5);
    assert_eq!(ledger.len(), 1 + steps.len());
    assert_eq!(ledger[0].from_status, None);
    for i in 1..ledger.len() {
        assert_eq!(ledger[i].from_status.as_deref(), Some(ledger[i - 1].to_status.as_str()));
        assert_eq!(ledger[i].to_status, steps[i - 1]);
    }
    assert_eq!(store.jobs()[0].status, "DELIVERED");
    let other = store.ledger_for(6);
    assert_eq!(other.len(), 1 + steps.len());
    assert_eq!(other[1].from_status.as_deref(), Some("CREATED"));
    assert_eq!(other[2].from_status.as_deref(), Some("X"));
}

#[test]
fn any_status_may_follow_any_status() {
    let mut store = store_with_job(5);
    store.transition(5, &change("DONE", None, None), 900, 1).unwrap();
    store.transition(5, &change("CREATED", None, None), 901, 2).unwrap();
    let resp = store.transition(5, &change("CREATED", None, None), 902, 3).unwrap();
    assert_eq!(resp.status_history.len(), 4);
    assert_eq!(resp.status_history[3].from_status.as_deref(), Some("CREATED"));
    assert_eq!(resp.status_history[3].to_status, "CREATED");
}

#[test]
fn two_transitions_of_one_job_never_share_a_starting_point() {
    // whichever of the two is carried out first, the other starts from
    // the status it left
    let mut store = store_with_job(5);
    store.transition(5, &change("IN_PROGRESS", None, None), 900, 1).unwrap();
    let ledger = store.transition(5, &change("DONE", None, None), 901, 1).unwrap().status_history;
    assert_eq!(ledger[1].from_status.as_deref(), Some("CREATED"));
    assert_eq!(ledger[2].from_status.as_deref(), Some("IN_PROGRESS"));
    assert_eq!(ledger[2].to_status, "DONE");

    let mut store = store_with_job(5);
    store.transition(5, &change("DONE", None, None), 901, 1).unwrap();
    let ledger =
        store.transition(5, &change("IN_PROGRESS", None, None), 900, 1).unwrap().status_history;
    assert_eq!(ledger[1].from_status.as_deref(), Some("CREATED"));
    assert_eq!(ledger[2].from_status.as_deref(), Some("DONE"));
    assert_eq!(ledger[2].to_status, "IN_PROGRESS");
}

#[test]
fn remarks_change_only_where_supplied() {
    let mut store = store_with_job(5);
    store.transition(5, &change("A", None, Some("check brakes")), 900, 1).unwrap();
    assert_eq!(store.jobs()[0].remarks.as_deref(), Some("check brakes"));
    store.transition(5, &change("B", None, None), 901, 2).unwrap();
    assert_eq!(store.jobs()[0].remarks.as_deref(), Some("check brakes"));
    store.transition(5, &change("C", None, Some("done")), 902, 3).unwrap();
    assert_eq!(store.jobs()[0].remarks.as_deref(), Some("done"));
}

#[test]
fn a_missing_job_is_not_found() {
    let mut store = store_with_job(5);
    let r = store.transition(6, &change("A", None, None), 900, 1);
    assert_eq!(r.err(), Some(RepoError::NotFound(Entity::Job)));
    assert_eq!(store.history().len(), 1);
}

#[test]
fn a_soft_deleted_job_is_not_found() {
    let mut store = store_with_job(5);
    assert_eq!(store.mark_job_deleted(5), Ok(()));
    let r = store.transition(5, &change("A", None, None), 900, 1);
    assert_eq!(r.err(), Some(RepoError::NotFound(Entity::Job)));
    assert_eq!(store.jobs()[0].status, "CREATED");
    assert_eq!(store.history().len(), 1);
    // deleting again finds nothing to delete
    assert_eq!(store.mark_job_deleted(5), Err(RepoError::NotFound(Entity::Job)));
    assert_eq!(store.mark_job_deleted(6), Err(RepoError::NotFound(Entity::Job)));
}

#[test]
fn a_taken_entry_id_is_a_conflict_and_changes_nothing() {
    let mut store = store_with_job(5);
    let r = store.transition(5, &change("A", None, Some("r")), 3005, 1);
    assert_eq!(r.err(), Some(RepoError::Conflict));
    assert_eq!(store.jobs()[0].status, "CREATED");
    assert_eq!(store.jobs()[0].remarks, None);
    assert_eq!(store.history().len(), 1);
}

#[test]
fn time_stamps_never_run_backwards() {
    let mut store = store_with_job(5);
    // the job was opened at 100; a clock that reads 40 is held to 100
    let ledger = store.transition(5, &change("A", None, None), 900, 40).unwrap().status_history;
    assert_eq!(ledger[1].created_at, 100);
    let ledger = store.transition(5, &change("B", None, None), 901, 150).unwrap().status_history;
    assert_eq!(ledger[2].created_at, 150);
    let ledger = store.transition(5, &change("C", None, None), 902, 149).unwrap().status_history;
    assert_eq!(ledger[3].created_at, 150);
}

#[test]
fn entries_once_written_stay_as_they_are() {
    let mut store = store_with_job(5);
    store.transition(5, &change("A", Some("first"), None), 900, 200).unwrap();
    let before: Vec<(u128, u128, Option<String>, String, Option<String>, i64)> = store
        .history()
        .iter()
        .map(|e| (e.id, e.job_id, e.from_status.clone(), e.to_status.clone(), e.note.clone(), e.created_at))
        .collect();
    open_job(&mut store, 6, "8888888888");
    store.transition(5, &change("B", None, Some("r")), 901, 300).unwrap();
    store.transition(6, &change("C", None, None), 902, 300).unwrap();
    store.mark_job_deleted(5).unwrap();
    let _ = store.transition(5, &change("D", None, None), 903, 400);
    let after: Vec<(u128, u128, Option<String>, String, Option<String>, i64)> = store
        .history()
        .iter()
        .map(|e| (e.id, e.job_id, e.from_status.clone(), e.to_status.clone(), e.note.clone(), e.created_at))
        .collect();
    assert_eq!(after.len(), before.len() + 3);
    assert_eq!(&after[..before.len()], &before[..]);
}
