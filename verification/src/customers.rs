//! Customer records: employers, employees, or both, each owned by one
//! user.  A customer is visible to its owner alone; a lookup by another
//! user is indistinguishable from a missing row.

use vstd::prelude::*;
use crate::matchings::clone_opt_string;

verus! {

/// What a customer is to the agency.
#[derive(Clone, Copy, Debug, PartialEq, Eq, Structural)]
pub enum CustomerType {
    Employer,
    Employee,
    Both,
}

/// A customer record.  Timestamps are seconds since the Unix epoch; the
/// birth date is a day number.
#[derive(Clone, Debug)]
pub struct Customer {
    pub id: i64,
    pub user_id: i64,
    pub name: String,
    pub birth_date: Option<i64>,
    pub phone: String,
    pub address: Option<String>,
    pub profile_photo_id: Option<i64>,
    pub customer_type: CustomerType,
    pub created_at: i64,
    pub updated_at: i64,
    pub deleted_at: Option<i64>,
}

/// A request to create a customer.
#[derive(Clone, Debug)]
pub struct CreateCustomerRequest {
    pub name: String,
    pub birth_date: Option<i64>,
    pub phone: String,
    pub address: Option<String>,
    pub customer_type: CustomerType,
}

/// A partial update: supplied fields override the stored values, the
/// rest keep their current value.
#[derive(Clone, Debug)]
pub struct UpdateCustomerRequest {
    pub name: Option<String>,
    pub birth_date: Option<i64>,
    pub phone: Option<String>,
    pub address: Option<String>,
    pub profile_photo_id: Option<i64>,
    pub customer_type: Option<CustomerType>,
}

impl Customer {
    /// An exact copy of the customer.
    pub fn duplicate(&self) -> (r: Customer)
        ensures
            r == *self,
    {
        Customer {
            id: self.id,
            user_id: self.user_id,
            name: self.name.clone(),
            birth_date: self.birth_date,
            phone: self.phone.clone(),
            address: clone_opt_string(&self.address),
            profile_photo_id: self.profile_photo_id,
            customer_type: self.customer_type,
            created_at: self.created_at,
            updated_at: self.updated_at,
            deleted_at: self.deleted_at,
        }
    }

    /// Whether this row is visible to `user_id`: live and owned by them.
    /// A row of another owner is treated exactly like a missing one.
    pub open spec fn visible_to(self, user_id: i64) -> bool {
        self.user_id == user_id && self.deleted_at is None
    }

    /// Whether this row is live and owned by `user_id`.
    pub fn is_visible_to(&self, user_id: i64) -> (r: bool)
        ensures
            r == self.visible_to(user_id),
    {
        self.user_id == user_id && self.deleted_at.is_none()
    }

    /// Merge a partial update: each supplied field replaces the stored
    /// one; an unsupplied optional field keeps the stored value, so no
    /// update can clear a birth date, address or profile photo.
    pub fn apply_update(&self, req: &UpdateCustomerRequest, now: i64) -> (r: Customer)
        ensures
            r == (Customer {
                name: match req.name {
                    Some(n) => n,
                    None => self.name,
                },
                birth_date: match req.birth_date {
                    Some(b) => Some(b),
                    None => self.birth_date,
                },
                phone: match req.phone {
                    Some(p) => p,
                    None => self.phone,
                },
                address: match req.address {
                    Some(a) => Some(a),
                    None => self.address,
                },
                profile_photo_id: match req.profile_photo_id {
                    Some(p) => Some(p),
                    None => self.profile_photo_id,
                },
                customer_type: match req.customer_type {
                    Some(t) => t,
                    None => self.customer_type,
                },
                updated_at: now,
                ..*self
            }),
    {
        let mut updated = self.duplicate();
        updated.name = match &req.name {
            Some(n) => n.clone(),
            None => self.name.clone(),
        };
        updated.birth_date = match req.birth_date {
            Some(b) => Some(b),
            None => self.birth_date,
        };
        updated.phone = match &req.phone {
            Some(p) => p.clone(),
            None => self.phone.clone(),
        };
        updated.address = match &req.address {
            Some(a) => Some(a.clone()),
            None => clone_opt_string(&self.address),
        };
        updated.profile_photo_id = match req.profile_photo_id {
            Some(p) => Some(p),
            None => self.profile_photo_id,
        };
        updated.customer_type = match req.customer_type {
            Some(t) => t,
            None => self.customer_type,
        };
        updated.updated_at = now;
        updated
    }

    /// Soft-delete the customer: the row stays, with its deletion time
    /// set, and every later read filters it out.
    pub fn soft_delete(&self, now: i64) -> (r: Customer)
        ensures
            r == (Customer { deleted_at: Some(now), ..*self }),
    {
        let mut updated = self.duplicate();
        updated.deleted_at = Some(now);
        updated
    }
}

/// Build a customer row from a creation request, owned by `user_id`.
pub fn create_customer(user_id: i64, req: &CreateCustomerRequest, id: i64, now: i64) -> (r:
    Customer)
    ensures
        r == (Customer {
            id,
            user_id,
            name: req.name,
            birth_date: req.birth_date,
            phone: req.phone,
            address: req.address,
            profile_photo_id: None,
            customer_type: req.customer_type,
            created_at: now,
            updated_at: now,
            deleted_at: None,
        }),
{
    Customer {
        id,
        user_id,
        name: req.name.clone(),
        birth_date: req.birth_date,
        phone: req.phone.clone(),
        address: clone_opt_string(&req.address),
        profile_photo_id: None,
        customer_type: req.customer_type,
        created_at: now,
        updated_at: now,
        deleted_at: None,
    }
}

} // verus!
