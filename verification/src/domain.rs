//! Domain records for the three resources: users, products, orders.
//!
//! Identifiers are 128-bit values assigned by the storage layer at creation;
//! timestamps are integer instants. `created_at` is set once at insertion and
//! `updated_at` advances on every successful mutation.

use crate::model::{Entity, Keyed};
use vstd::prelude::*;

verus! {

/// Mathematical model of a stored user record.
pub struct UserView {
    pub id: u128,
    pub email: Seq<char>,
    pub name: Seq<char>,
    pub created_at: int,
    pub updated_at: int,
}

impl Entity for UserView {
    open spec fn eid(self) -> u128 {
        self.id
    }

    open spec fn created(self) -> int {
        self.created_at
    }

    open spec fn updated(self) -> int {
        self.updated_at
    }
}

impl Keyed for UserView {
    open spec fn ukey(self) -> Seq<char> {
        self.email
    }
}

/// A stored user record.
#[derive(Debug, PartialEq, Eq)]
pub struct User {
    pub id: u128,
    pub email: String,
    pub name: String,
    pub created_at: i64,
    pub updated_at: i64,
}

impl View for User {
    type V = UserView;

    open spec fn view(&self) -> UserView {
        UserView {
            id: self.id,
            email: self.email@,
            name: self.name@,
            created_at: self.created_at as int,
            updated_at: self.updated_at as int,
        }
    }
}

impl Clone for User {
    fn clone(&self) -> (r: Self)
        ensures
            r == *self,
    {
        User {
            id: self.id,
            email: self.email.clone(),
            name: self.name.clone(),
            created_at: self.created_at,
            updated_at: self.updated_at,
        }
    }
}

/// Mathematical model of a stored product record.
pub struct ProductView {
    pub id: u128,
    pub sku: Seq<char>,
    pub name: Seq<char>,
    pub price_cents: int,
    pub created_at: int,
    pub updated_at: int,
}

impl Entity for ProductView {
    open spec fn eid(self) -> u128 {
        self.id
    }

    open spec fn created(self) -> int {
        self.created_at
    }

    open spec fn updated(self) -> int {
        self.updated_at
    }
}

impl Keyed for ProductView {
    open spec fn ukey(self) -> Seq<char> {
        self.sku
    }
}

/// A stored product record.
#[derive(Debug, PartialEq, Eq)]
pub struct Product {
    pub id: u128,
    pub sku: String,
    pub name: String,
    pub price_cents: i64,
    pub created_at: i64,
    pub updated_at: i64,
}

impl View for Product {
    type V = ProductView;

    open spec fn view(&self) -> ProductView {
        ProductView {
            id: self.id,
            sku: self.sku@,
            name: self.name@,
            price_cents: self.price_cents as int,
            created_at: self.created_at as int,
            updated_at: self.updated_at as int,
        }
    }
}

impl Clone for Product {
    fn clone(&self) -> (r: Self)
        ensures
            r == *self,
    {
        Product {
            id: self.id,
            sku: self.sku.clone(),
            name: self.name.clone(),
            price_cents: self.price_cents,
            created_at: self.created_at,
            updated_at: self.updated_at,
        }
    }
}

/// Mathematical model of a stored order record.
pub struct OrderView {
    pub id: u128,
    pub user_id: u128,
    pub status: Seq<char>,
    pub total_cents: int,
    pub created_at: int,
    pub updated_at: int,
}

impl Entity for OrderView {
    open spec fn eid(self) -> u128 {
        self.id
    }

    open spec fn created(self) -> int {
        self.created_at
    }

    open spec fn updated(self) -> int {
        self.updated_at
    }
}

/// A stored order record. `user_id` references a user; no cascade behaviour
/// is enforced beyond what the storage layer provides.
#[derive(Debug, PartialEq, Eq)]
pub struct Order {
    pub id: u128,
    pub user_id: u128,
    pub status: String,
    pub total_cents: i64,
    pub created_at: i64,
    pub updated_at: i64,
}

impl View for Order {
    type V = OrderView;

    open spec fn view(&self) -> OrderView {
        OrderView {
            id: self.id,
            user_id: self.user_id,
            status: self.status@,
            total_cents: self.total_cents as int,
            created_at: self.created_at as int,
            updated_at: self.updated_at as int,
        }
    }
}

impl Clone for Order {
    fn clone(&self) -> (r: Self)
        ensures
            r == *self,
    {
        Order {
            id: self.id,
            user_id: self.user_id,
            status: self.status.clone(),
            total_cents: self.total_cents,
            created_at: self.created_at,
            updated_at: self.updated_at,
        }
    }
}

} // verus!
