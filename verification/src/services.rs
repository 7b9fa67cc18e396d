//! Service layer: one thin wrapper per resource over its repository port.
//!
//! A service adds no business logic; it gives callers a stable surface
//! independent of the concrete store, so a different implementer of the same
//! port can be substituted without touching them. Each operation delegates
//! and carries the port's contract through unchanged.

use crate::domain::{Order, OrderView, Product, ProductView, User, UserView};
use crate::model::{creation_sorted, ids_distinct, keys_distinct};
use crate::ports::{
    order_create_resolves, order_delete_resolves, order_get_resolves, order_list_resolves,
    order_update_resolves, product_create_resolves, product_delete_resolves,
    product_get_resolves, product_list_resolves, product_update_resolves, user_create_resolves,
    user_delete_resolves, user_get_resolves, user_list_resolves, user_update_resolves, NewOrder,
    NewProduct, NewUser, OrderRepository, ProductRepository, RepoError, UpdateOrder,
    UpdateProduct, UpdateUser, UserRepository,
};
use vstd::prelude::*;

verus! {

/// A user service over a user store.
pub struct UserService<R: UserRepository> {
    repo: R,
}

impl<R: UserRepository> UserService<R> {
    /// The wrapped store's invariant.
    pub closed spec fn inv(&self) -> bool {
        self.repo.inv()
    }

    /// The stored records, in ascending creation order.
    pub closed spec fn users(&self) -> Seq<UserView> {
        self.repo.users()
    }

    /// The wrapped store can still allocate.
    pub closed spec fn can_allocate(&self) -> bool {
        self.repo.can_allocate()
    }

    pub fn new(repo: R) -> (s: Self)
        ensures
            s.inv() == repo.inv(),
            s.users() == repo.users(),
            s.can_allocate() == repo.can_allocate(),
    {
        UserService { repo }
    }

    /// The invariant pins distinct identifiers, distinct emails and strictly
    /// ascending creation instants.
    pub proof fn inv_properties(&self)
        requires
            self.inv(),
        ensures
            ids_distinct(self.users()),
            keys_distinct(self.users()),
            creation_sorted(self.users()),
    {
        self.repo.inv_properties();
    }

    pub fn create(&mut self, input: NewUser) -> (r: Result<User, RepoError>)
        requires
            old(self).inv(),
        ensures
            final(self).inv(),
            user_create_resolves(
                old(self).users(),
                old(self).can_allocate(),
                input@,
                r,
                final(self).users(),
                final(self).can_allocate(),
            ),
    {
        self.repo.create(input)
    }

    pub fn list(&self) -> (r: Result<Vec<User>, RepoError>)
        requires
            self.inv(),
        ensures
            user_list_resolves(self.users(), r),
    {
        self.repo.list()
    }

    pub fn get(&self, id: u128) -> (r: Result<User, RepoError>)
        requires
            self.inv(),
        ensures
            user_get_resolves(self.users(), id, r),
    {
        self.repo.get(id)
    }

    pub fn update(&mut self, id: u128, input: UpdateUser) -> (r: Result<User, RepoError>)
        requires
            old(self).inv(),
        ensures
            final(self).inv(),
            user_update_resolves(
                old(self).users(),
                old(self).can_allocate(),
                id,
                input@,
                r,
                final(self).users(),
                final(self).can_allocate(),
            ),
    {
        self.repo.update(id, input)
    }

    pub fn delete(&mut self, id: u128) -> (r: Result<(), RepoError>)
        requires
            old(self).inv(),
        ensures
            final(self).inv(),
            final(self).can_allocate() == old(self).can_allocate(),
            user_delete_resolves(old(self).users(), id, r, final(self).users()),
    {
        self.repo.delete(id)
    }
}

/// A product service over a product store.
pub struct ProductService<R: ProductRepository> {
    repo: R,
}

impl<R: ProductRepository> ProductService<R> {
    /// The wrapped store's invariant.
    pub closed spec fn inv(&self) -> bool {
        self.repo.inv()
    }

    /// The stored records, in ascending creation order.
    pub closed spec fn products(&self) -> Seq<ProductView> {
        self.repo.products()
    }

    /// The wrapped store can still allocate.
    pub closed spec fn can_allocate(&self) -> bool {
        self.repo.can_allocate()
    }

    pub fn new(repo: R) -> (s: Self)
        ensures
            s.inv() == repo.inv(),
            s.products() == repo.products(),
            s.can_allocate() == repo.can_allocate(),
    {
        ProductService { repo }
    }

    /// The invariant pins distinct identifiers, distinct skus and strictly
    /// ascending creation instants.
    pub proof fn inv_properties(&self)
        requires
            self.inv(),
        ensures
            ids_distinct(self.products()),
            keys_distinct(self.products()),
            creation_sorted(self.products()),
    {
        self.repo.inv_properties();
    }

    pub fn create(&mut self, input: NewProduct) -> (r: Result<Product, RepoError>)
        requires
            old(self).inv(),
        ensures
            final(self).inv(),
            product_create_resolves(
                old(self).products(),
                old(self).can_allocate(),
                input@,
                r,
                final(self).products(),
                final(self).can_allocate(),
            ),
    {
        self.repo.create(input)
    }

    pub fn list(&self) -> (r: Result<Vec<Product>, RepoError>)
        requires
            self.inv(),
        ensures
            product_list_resolves(self.products(), r),
    {
        self.repo.list()
    }

    pub fn get(&self, id: u128) -> (r: Result<Product, RepoError>)
        requires
            self.inv(),
        ensures
            product_get_resolves(self.products(), id, r),
    {
        self.repo.get(id)
    }

    pub fn update(&mut self, id: u128, input: UpdateProduct) -> (r: Result<Product, RepoError>)
        requires
            old(self).inv(),
        ensures
            final(self).inv(),
            product_update_resolves(
                old(self).products(),
                old(self).can_allocate(),
                id,
                input@,
                r,
                final(self).products(),
                final(self).can_allocate(),
            ),
    {
        self.repo.update(id, input)
    }

    pub fn delete(&mut self, id: u128) -> (r: Result<(), RepoError>)
        requires
            old(self).inv(),
        ensures
            final(self).inv(),
            final(self).can_allocate() == old(self).can_allocate(),
            product_delete_resolves(old(self).products(), id, r, final(self).products()),
    {
        self.repo.delete(id)
    }
}

/// An order service over an order store.
pub struct OrderService<R: OrderRepository> {
    repo: R,
}

impl<R: OrderRepository> OrderService<R> {
    /// The wrapped store's invariant.
    pub closed spec fn inv(&self) -> bool {
        self.repo.inv()
    }

    /// The stored records, in ascending creation order.
    pub closed spec fn orders(&self) -> Seq<OrderView> {
        self.repo.orders()
    }

    /// The wrapped store can still allocate.
    pub closed spec fn can_allocate(&self) -> bool {
        self.repo.can_allocate()
    }

    pub fn new(repo: R) -> (s: Self)
        ensures
            s.inv() == repo.inv(),
            s.orders() == repo.orders(),
            s.can_allocate() == repo.can_allocate(),
    {
        OrderService { repo }
    }

    /// The invariant pins distinct identifiers and strictly ascending
    /// creation instants.
    pub proof fn inv_properties(&self)
        requires
            self.inv(),
        ensures
            ids_distinct(self.orders()),
            creation_sorted(self.orders()),
    {
        self.repo.inv_properties();
    }

    pub fn create(&mut self, input: NewOrder) -> (r: Result<Order, RepoError>)
        requires
            old(self).inv(),
        ensures
            final(self).inv(),
            order_create_resolves(
                old(self).orders(),
                old(self).can_allocate(),
                input@,
                r,
                final(self).orders(),
                final(self).can_allocate(),
            ),
    {
        self.repo.create(input)
    }

    pub fn list(&self) -> (r: Result<Vec<Order>, RepoError>)
        requires
            self.inv(),
        ensures
            order_list_resolves(self.orders(), r),
    {
        self.repo.list()
    }

    pub fn get(&self, id: u128) -> (r: Result<Order, RepoError>)
        requires
            self.inv(),
        ensures
            order_get_resolves(self.orders(), id, r),
    {
        self.repo.get(id)
    }

    pub fn update(&mut self, id: u128, input: UpdateOrder) -> (r: Result<Order, RepoError>)
        requires
            old(self).inv(),
        ensures
            final(self).inv(),
            order_update_resolves(
                old(self).orders(),
                old(self).can_allocate(),
                id,
                input@,
                r,
                final(self).orders(),
                final(self).can_allocate(),
            ),
    {
        self.repo.update(id, input)
    }

    pub fn delete(&mut self, id: u128) -> (r: Result<(), RepoError>)
        requires
            old(self).inv(),
        ensures
            final(self).inv(),
            final(self).can_allocate() == old(self).can_allocate(),
            order_delete_resolves(old(self).orders(), id, r, final(self).orders()),
    {
        self.repo.delete(id)
    }
}

} // verus!
