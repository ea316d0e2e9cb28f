//! The identity resolver: customers are deduplicated by phone number and
//! vehicles by owner and registration number. Resolving is an upsert with
//! merge: a supplied value replaces the stored one, an absent value never
//! erases it.

use vstd::prelude::*;
use crate::error::RepoError;
use crate::garage::store::{
    Customer, CustomerView, Store, StoreView, Vehicle, VehicleView, has_customer, has_vehicle,
    knows_phone, knows_vehicle, lemma_customers_push, lemma_customers_update, lemma_phone_pos,
    lemma_vehicle_pos, lemma_vehicles_push, lemma_vehicles_update, phone_pos, vehicle_key_pos,
};
use crate::text::{clone_opt, merge_text, merged, opt_text};

verus! {

/// The store after resolving a customer, and the customer's id. A known
/// phone number keeps its row and id and merges the name; an unknown one
/// gets a new row under `fresh_id`, unless that id is taken.
pub open spec fn resolve_customer_spec(
    s: StoreView,
    phone: Seq<char>,
    name: Option<Seq<char>>,
    fresh_id: u128,
) -> (StoreView, Result<u128, RepoError>) {
    if knows_phone(s.customers, phone) {
        let i = phone_pos(s.customers, phone);
        let row = s.customers[i];
        (
            StoreView {
                customers: s.customers.update(
                    i,
                    CustomerView { name: merged(name, row.name), ..row },
                ),
                ..s
            },
            Ok(row.id),
        )
    } else if has_customer(s.customers, fresh_id) {
        (s, Err(RepoError::Conflict))
    } else {
        (
            StoreView {
                customers: s.customers.push(CustomerView { id: fresh_id, phone, name }),
                ..s
            },
            Ok(fresh_id),
        )
    }
}

/// The store after resolving a vehicle, and the vehicle's id. A known pair
/// of owner and registration number keeps its row and id and merges make
/// and model; an unknown one gets a new row under `fresh_id`, unless that
/// id is taken.
pub open spec fn resolve_vehicle_spec(
    s: StoreView,
    customer_id: u128,
    number: Seq<char>,
    make: Option<Seq<char>>,
    model: Option<Seq<char>>,
    fresh_id: u128,
) -> (StoreView, Result<u128, RepoError>) {
    if knows_vehicle(s.vehicles, customer_id, number) {
        let i = vehicle_key_pos(s.vehicles, customer_id, number);
        let row = s.vehicles[i];
        (
            StoreView {
                vehicles: s.vehicles.update(
                    i,
                    VehicleView {
                        make: merged(make, row.make),
                        model: merged(model, row.model),
                        ..row
                    },
                ),
                ..s
            },
            Ok(row.id),
        )
    } else if has_vehicle(s.vehicles, fresh_id) {
        (s, Err(RepoError::Conflict))
    } else {
        (
            StoreView {
                vehicles: s.vehicles.push(
                    VehicleView { id: fresh_id, customer_id, vehicle_number: number, make, model },
                ),
                ..s
            },
            Ok(fresh_id),
        )
    }
}

impl Store {
    /// The position of the customer with this phone number, if any.
    pub(crate) fn find_phone(&self, phone: &String) -> (r: Option<usize>)
        ensures
            match r {
                Some(i) => i < self@.customers.len() && self@.customers[i as int].phone == phone@,
                None => !knows_phone(self@.customers, phone@),
            },
    {
        let mut i: usize = 0;
        while i < self.customers.len()
            invariant
                i <= self.customers.len(),
                forall|j: int| 0 <= j < i ==> (#[trigger] self@.customers[j]).phone != phone@,
            decreases self.customers.len() - i,
        {
            if self.customers[i].phone == *phone {
                return Some(i);
            }
            i += 1;
        }
        None
    }

    /// The position of the customer with this id, if any.
    pub(crate) fn find_customer(&self, id: u128) -> (r: Option<usize>)
        ensures
            match r {
                Some(i) => i < self@.customers.len() && self@.customers[i as int].id == id,
                None => !has_customer(self@.customers, id),
            },
    {
        let mut i: usize = 0;
        while i < self.customers.len()
            invariant
                i <= self.customers.len(),
                forall|j: int| 0 <= j < i ==> (#[trigger] self@.customers[j]).id != id,
            decreases self.customers.len() - i,
        {
            if self.customers[i].id == id {
                return Some(i);
            }
            i += 1;
        }
        None
    }

    /// The position of this customer's vehicle with this number, if any.
    pub(crate) fn find_vehicle_key(&self, customer_id: u128, number: &String) -> (r: Option<usize>)
        ensures
            match r {
                Some(i) => i < self@.vehicles.len() && self@.vehicles[i as int].customer_id
                    == customer_id && self@.vehicles[i as int].vehicle_number == number@,
                None => !knows_vehicle(self@.vehicles, customer_id, number@),
            },
    {
        let mut i: usize = 0;
        while i < self.vehicles.len()
            invariant
                i <= self.vehicles.len(),
                forall|j: int|
                    0 <= j < i ==> !((#[trigger] self@.vehicles[j]).customer_id == customer_id
                        && self@.vehicles[j].vehicle_number == number@),
            decreases self.vehicles.len() - i,
        {
            if self.vehicles[i].customer_id == customer_id && self.vehicles[i].vehicle_number
                == *number {
                return Some(i);
            }
            i += 1;
        }
        None
    }

    /// The position of the vehicle with this id, if any.
    pub(crate) fn find_vehicle(&self, id: u128) -> (r: Option<usize>)
        ensures
            match r {
                Some(i) => i < self@.vehicles.len() && self@.vehicles[i as int].id == id,
                None => !has_vehicle(self@.vehicles, id),
            },
    {
        let mut i: usize = 0;
        while i < self.vehicles.len()
            invariant
                i <= self.vehicles.len(),
                forall|j: int| 0 <= j < i ==> (#[trigger] self@.vehicles[j]).id != id,
            decreases self.vehicles.len() - i,
        {
            if self.vehicles[i].id == id {
                return Some(i);
            }
            i += 1;
        }
        None
    }

    /// Resolves a customer by phone number: merges the name into the known
    /// row, or inserts a new row under `fresh_id`. Fails with `Conflict`,
    /// changing nothing, where the phone number is new and `fresh_id` is
    /// already some customer's id.
    pub fn resolve_customer(&mut self, phone: &String, name: &Option<String>, fresh_id: u128) -> (r:
        Result<u128, RepoError>)
        requires
            old(self).wf(),
        ensures
            final(self).wf(),
            final(self)@ == resolve_customer_spec(old(self)@, phone@, opt_text(*name), fresh_id).0,
            r == resolve_customer_spec(old(self)@, phone@, opt_text(*name), fresh_id).1,
    {
        match self.find_phone(phone) {
            Some(i) => {
                proof {
                    lemma_phone_pos(self@.customers, i as int);
                }
                let id = self.customers[i].id;
                let row = Customer {
                    id,
                    phone: self.customers[i].phone.clone(),
                    name: merge_text(name, &self.customers[i].name),
                };
                self.customers.set(i, row);
                proof {
                    let merged_row = CustomerView {
                        name: merged(opt_text(*name), old(self)@.customers[i as int].name),
                        ..old(self)@.customers[i as int]
                    };
                    assert(final(self)@.customers =~= old(self)@.customers.update(
                        i as int,
                        merged_row,
                    ));
                    lemma_customers_update(old(self)@.customers, i as int, merged_row);
                }
                Ok(id)
            },
            None => {
                match self.find_customer(fresh_id) {
                    Some(_) => Err(RepoError::Conflict),
                    None => {
                        self.customers.push(
                            Customer { id: fresh_id, phone: phone.clone(), name: clone_opt(name) },
                        );
                        proof {
                            let new_row = CustomerView {
                                id: fresh_id,
                                phone: phone@,
                                name: opt_text(*name),
                            };
                            assert(final(self)@.customers =~= old(self)@.customers.push(new_row));
                            lemma_customers_push(old(self)@.customers, new_row);
                        }
                        Ok(fresh_id)
                    },
                }
            },
        }
    }

    /// Resolves a vehicle by owner and registration number: merges make
    /// and model into the known row, or inserts a new row under `fresh_id`.
    /// Fails with `Conflict`, changing nothing, where the pair is new and
    /// `fresh_id` is already some vehicle's id.
    pub fn resolve_vehicle(
        &mut self,
        customer_id: u128,
        vehicle_number: &String,
        make: &Option<String>,
        model: &Option<String>,
        fresh_id: u128,
    ) -> (r: Result<u128, RepoError>)
        requires
            old(self).wf(),
        ensures
            final(self).wf(),
            final(self)@ == resolve_vehicle_spec(
                old(self)@,
                customer_id,
                vehicle_number@,
                opt_text(*make),
                opt_text(*model),
                fresh_id,
            ).0,
            r == resolve_vehicle_spec(
                old(self)@,
                customer_id,
                vehicle_number@,
                opt_text(*make),
                opt_text(*model),
                fresh_id,
            ).1,
    {
        match self.find_vehicle_key(customer_id, vehicle_number) {
            Some(i) => {
                proof {
                    lemma_vehicle_pos(self@.vehicles, i as int);
                }
                let id = self.vehicles[i].id;
                let row = Vehicle {
                    id,
                    customer_id,
                    vehicle_number: self.vehicles[i].vehicle_number.clone(),
                    make: merge_text(make, &self.vehicles[i].make),
                    model: merge_text(model, &self.vehicles[i].model),
                };
                self.vehicles.set(i, row);
                proof {
                    let merged_row = VehicleView {
                        make: merged(opt_text(*make), old(self)@.vehicles[i as int].make),
                        model: merged(opt_text(*model), old(self)@.vehicles[i as int].model),
                        ..old(self)@.vehicles[i as int]
                    };
                    assert(final(self)@.vehicles =~= old(self)@.vehicles.update(
                        i as int,
                        merged_row,
                    ));
                    lemma_vehicles_update(old(self)@.vehicles, i as int, merged_row);
                }
                Ok(id)
            },
            None => {
                match self.find_vehicle(fresh_id) {
                    Some(_) => Err(RepoError::Conflict),
                    None => {
                        self.vehicles.push(
                            Vehicle {
                                id: fresh_id,
                                customer_id,
                                vehicle_number: vehicle_number.clone(),
                                make: clone_opt(make),
                                model: clone_opt(model),
                            },
                        );
                        proof {
                            let new_row = VehicleView {
                                id: fresh_id,
                                customer_id,
                                vehicle_number: vehicle_number@,
                                make: opt_text(*make),
                                model: opt_text(*model),
                            };
                            assert(final(self)@.vehicles =~= old(self)@.vehicles.push(new_row));
                            lemma_vehicles_push(old(self)@.vehicles, new_row);
                        }
                        Ok(fresh_id)
                    },
                }
            },
        }
    }
}

} // verus!
