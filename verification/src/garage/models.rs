//! Request and response shapes of the garage surface, with their
//! mathematical views.

use vstd::prelude::*;
use crate::text::opt_text;

verus! {

/// An amount of money or a percentage, carried as the bit pattern of an
/// IEEE-754 binary64 number. The ledger stores and returns amounts; it never
/// computes with them.
#[derive(Clone, Copy, Debug, PartialEq, Eq, Structural)]
pub struct Amount {
    pub bits: u64,
}

/// A calendar date, counted in days from 1 January of year 1.
#[derive(Clone, Copy, Debug, PartialEq, Eq, Structural)]
pub struct CalendarDate {
    pub days_from_ce: i32,
}

/// An account of a garage's staff; maps a caller to the garage it acts for.
#[derive(Debug)]
pub struct GarageUser {
    pub id: u128,
    pub garage_id: u128,
    pub username: Option<String>,
    pub password_hash: Option<String>,
    pub display_name: Option<String>,
    pub phone: Option<String>,
    pub email: Option<String>,
    pub role: String,
    pub is_active: bool,
}

pub struct GarageUserView {
    pub id: u128,
    pub garage_id: u128,
    pub username: Option<Seq<char>>,
    pub password_hash: Option<Seq<char>>,
    pub display_name: Option<Seq<char>>,
    pub phone: Option<Seq<char>>,
    pub email: Option<Seq<char>>,
    pub role: Seq<char>,
    pub is_active: bool,
}

impl View for GarageUser {
    type V = GarageUserView;

    open spec fn view(&self) -> GarageUserView {
        GarageUserView {
            id: self.id,
            garage_id: self.garage_id,
            username: opt_text(self.username),
            password_hash: opt_text(self.password_hash),
            display_name: opt_text(self.display_name),
            phone: opt_text(self.phone),
            email: opt_text(self.email),
            role: self.role@,
            is_active: self.is_active,
        }
    }
}

#[derive(Debug)]
pub struct GarageLoginRequest {
    pub username: String,
    pub password: String,
}

#[derive(Debug)]
pub struct GarageLoginResponse {
    pub token: String,
    pub id: u128,
    pub username: String,
    pub display_name: Option<String>,
    pub role: String,
}

/// One line of a garage's job list.
#[derive(Debug)]
pub struct JobListItem {
    pub job_id: u128,
    pub vehicle_number: Option<String>,
    pub owner_name: Option<String>,
    pub estimated_delivery_date: Option<CalendarDate>,
    pub estimated_time: Option<String>,
    pub status: Option<String>,
}

pub struct JobListItemView {
    pub job_id: u128,
    pub vehicle_number: Option<Seq<char>>,
    pub owner_name: Option<Seq<char>>,
    pub estimated_delivery_date: Option<CalendarDate>,
    pub estimated_time: Option<Seq<char>>,
    pub status: Option<Seq<char>>,
}

impl View for JobListItem {
    type V = JobListItemView;

    open spec fn view(&self) -> JobListItemView {
        JobListItemView {
            job_id: self.job_id,
            vehicle_number: opt_text(self.vehicle_number),
            owner_name: opt_text(self.owner_name),
            estimated_delivery_date: self.estimated_delivery_date,
            estimated_time: opt_text(self.estimated_time),
            status: opt_text(self.status),
        }
    }
}

/// What a caller supplies to open a job.
#[derive(Debug)]
pub struct JobCreateRequest {
    pub customer_name: Option<String>,
    pub phone: String,
    pub vehicle_number: String,
    pub vehicle_make: Option<String>,
    pub vehicle_model: Option<String>,
    pub complaint: Option<String>,
    pub estimated_delivery_date: Option<CalendarDate>,
    pub estimated_time: Option<String>,
}

pub struct JobCreateRequestView {
    pub customer_name: Option<Seq<char>>,
    pub phone: Seq<char>,
    pub vehicle_number: Seq<char>,
    pub vehicle_make: Option<Seq<char>>,
    pub vehicle_model: Option<Seq<char>>,
    pub complaint: Option<Seq<char>>,
    pub estimated_delivery_date: Option<CalendarDate>,
    pub estimated_time: Option<Seq<char>>,
}

impl View for JobCreateRequest {
    type V = JobCreateRequestView;

    open spec fn view(&self) -> JobCreateRequestView {
        JobCreateRequestView {
            customer_name: opt_text(self.customer_name),
            phone: self.phone@,
            vehicle_number: self.vehicle_number@,
            vehicle_make: opt_text(self.vehicle_make),
            vehicle_model: opt_text(self.vehicle_model),
            complaint: opt_text(self.complaint),
            estimated_delivery_date: self.estimated_delivery_date,
            estimated_time: opt_text(self.estimated_time),
        }
    }
}

/// What the caller gets back once a job is open.
#[derive(Debug)]
pub struct JobCreatedResponse {
    pub job_id: u128,
    pub job_identifier: String,
    pub vehicle_id: u128,
    pub customer_id: u128,
    pub vehicle_number: String,
    pub owner_name: Option<String>,
    pub estimated_delivery_date: Option<CalendarDate>,
    pub estimated_time: Option<String>,
    pub status: String,
}

pub struct JobCreatedResponseView {
    pub job_id: u128,
    pub job_identifier: Seq<char>,
    pub vehicle_id: u128,
    pub customer_id: u128,
    pub vehicle_number: Seq<char>,
    pub owner_name: Option<Seq<char>>,
    pub estimated_delivery_date: Option<CalendarDate>,
    pub estimated_time: Option<Seq<char>>,
    pub status: Seq<char>,
}

impl View for JobCreatedResponse {
    type V = JobCreatedResponseView;

    open spec fn view(&self) -> JobCreatedResponseView {
        JobCreatedResponseView {
            job_id: self.job_id,
            job_identifier: self.job_identifier@,
            vehicle_id: self.vehicle_id,
            customer_id: self.customer_id,
            vehicle_number: self.vehicle_number@,
            owner_name: opt_text(self.owner_name),
            estimated_delivery_date: self.estimated_delivery_date,
            estimated_time: opt_text(self.estimated_time),
            status: self.status@,
        }
    }
}

/// A billable part as it is shown to a caller.
#[derive(Debug)]
pub struct JobPartItem {
    pub id: u128,
    pub name: String,
    pub quantity: Option<i32>,
    pub unit_price: Amount,
    pub tax_percent: Option<Amount>,
}

pub struct JobPartItemView {
    pub id: u128,
    pub name: Seq<char>,
    pub quantity: Option<i32>,
    pub unit_price: Amount,
    pub tax_percent: Option<Amount>,
}

impl View for JobPartItem {
    type V = JobPartItemView;

    open spec fn view(&self) -> JobPartItemView {
        JobPartItemView {
            id: self.id,
            name: self.name@,
            quantity: self.quantity,
            unit_price: self.unit_price,
            tax_percent: self.tax_percent,
        }
    }
}

/// One entry of a job's status ledger as it is shown to a caller.
#[derive(Debug)]
pub struct JobStatusHistoryItem {
    pub id: u128,
    pub from_status: Option<String>,
    pub to_status: String,
    pub note: Option<String>,
    pub created_at: i64,
}

pub struct JobStatusHistoryItemView {
    pub id: u128,
    pub from_status: Option<Seq<char>>,
    pub to_status: Seq<char>,
    pub note: Option<Seq<char>>,
    pub created_at: i64,
}

impl View for JobStatusHistoryItem {
    type V = JobStatusHistoryItemView;

    open spec fn view(&self) -> JobStatusHistoryItemView {
        JobStatusHistoryItemView {
            id: self.id,
            from_status: opt_text(self.from_status),
            to_status: self.to_status@,
            note: opt_text(self.note),
            created_at: self.created_at,
        }
    }
}

/// The views of a list of values, item by item.
pub open spec fn views<T: View>(items: Seq<T>) -> Seq<T::V> {
    items.map_values(|t: T| t@)
}

/// The view of an outcome: the view of the value, or the error as it is.
pub open spec fn viewed<T: View, E>(r: Result<T, E>) -> Result<T::V, E> {
    match r {
        Ok(t) => Ok(t@),
        Err(e) => Err(e),
    }
}

/// The view of an outcome that is a list: the views of the items, or the
/// error as it is.
pub open spec fn viewed_list<T: View, E>(r: Result<Vec<T>, E>) -> Result<Seq<T::V>, E> {
    match r {
        Ok(items) => Ok(views(items@)),
        Err(e) => Err(e),
    }
}

/// A job with its vehicle, its owner, its parts and its status ledger.
#[derive(Debug)]
pub struct JobDetailsResponse {
    pub job_id: u128,
    pub status: String,
    pub remarks: Option<String>,
    pub vehicle_number: Option<String>,
    pub vehicle_make: Option<String>,
    pub vehicle_model: Option<String>,
    pub owner_name: Option<String>,
    pub parts: Vec<JobPartItem>,
    pub status_history: Vec<JobStatusHistoryItem>,
}

pub struct JobDetailsResponseView {
    pub job_id: u128,
    pub status: Seq<char>,
    pub remarks: Option<Seq<char>>,
    pub vehicle_number: Option<Seq<char>>,
    pub vehicle_make: Option<Seq<char>>,
    pub vehicle_model: Option<Seq<char>>,
    pub owner_name: Option<Seq<char>>,
    pub parts: Seq<JobPartItemView>,
    pub status_history: Seq<JobStatusHistoryItemView>,
}

impl View for JobDetailsResponse {
    type V = JobDetailsResponseView;

    open spec fn view(&self) -> JobDetailsResponseView {
        JobDetailsResponseView {
            job_id: self.job_id,
            status: self.status@,
            remarks: opt_text(self.remarks),
            vehicle_number: opt_text(self.vehicle_number),
            vehicle_make: opt_text(self.vehicle_make),
            vehicle_model: opt_text(self.vehicle_model),
            owner_name: opt_text(self.owner_name),
            parts: views(self.parts@),
            status_history: views(self.status_history@),
        }
    }
}

/// A part to add to a job; the quantity is 1 where none is given.
#[derive(Debug)]
pub struct JobPartCreateItem {
    pub name: String,
    pub quantity: Option<i32>,
    pub unit_price: Amount,
    pub tax_percent: Option<Amount>,
}

/// A status change: the target status, a note for the ledger, and new
/// remarks for the job where some are given.
#[derive(Debug)]
pub struct JobStatusUpdateRequest {
    pub to_status: String,
    pub note: Option<String>,
    pub remarks: Option<String>,
}

/// The job's whole status ledger after a status change.
#[derive(Debug)]
pub struct JobStatusUpdateResponse {
    pub status_history: Vec<JobStatusHistoryItem>,
}

#[derive(Debug)]
pub struct JobPartsAddRequest {
    pub parts: Vec<JobPartCreateItem>,
}

/// A partial update of a part: only the fields given change.
#[derive(Debug)]
pub struct JobPartUpdateRequest {
    pub name: Option<String>,
    pub quantity: Option<i32>,
    pub unit_price: Option<Amount>,
    pub tax_percent: Option<Amount>,
}

} // verus!
