//! The repository port: the capability contract each resource's store
//! implements, together with the shared error taxonomy and the input types
//! for creation and partial update.
//!
//! Each port exposes the same five operations. `create` inserts a record with
//! a server-assigned identifier and equal creation and update instants;
//! `list` returns every record in descending creation order; `get` looks one
//! record up by identifier; `update` applies only the fields present in the
//! patch and always advances `updated_at`; `delete` removes the record. The
//! postconditions are stated once per resource as `..._resolves` predicates,
//! shared by every implementation and by the service layer.

use crate::domain::{Order, OrderView, Product, ProductView, User, UserView};
use crate::model::{
    create_step, creation_sorted, delete_step, found, has_id, has_key, ids_distinct,
    key_taken_by_other, keys_distinct, Entity,
};
use vstd::prelude::*;

verus! {

/// Shared error taxonomy of the repository layer.
///
/// `NotFound` and `Conflict` are expected, caller-recoverable conditions;
/// `Unexpected` carries the raw diagnostic text of an unanticipated storage
/// fault, preserved for operators and never parsed programmatically.
#[derive(Debug, PartialEq, Eq)]
pub enum RepoError {
    NotFound,
    Conflict,
    Unexpected(String),
}

/// Mathematical model of a `RepoError`.
pub enum RepoErrorView {
    NotFound,
    Conflict,
    Unexpected(Seq<char>),
}

impl View for RepoError {
    type V = RepoErrorView;

    open spec fn view(&self) -> RepoErrorView {
        match self {
            RepoError::NotFound => RepoErrorView::NotFound,
            RepoError::Conflict => RepoErrorView::Conflict,
            RepoError::Unexpected(detail) => RepoErrorView::Unexpected(detail@),
        }
    }
}

impl Clone for RepoError {
    fn clone(&self) -> (r: Self)
        ensures
            r == *self,
    {
        match self {
            RepoError::NotFound => RepoError::NotFound,
            RepoError::Conflict => RepoError::Conflict,
            RepoError::Unexpected(detail) => RepoError::Unexpected(detail.clone()),
        }
    }
}

// ===== Users =====

/// Creation input for a user.
#[derive(Debug)]
pub struct NewUser {
    pub email: String,
    pub name: String,
}

/// Mathematical model of a `NewUser`.
pub struct NewUserView {
    pub email: Seq<char>,
    pub name: Seq<char>,
}

impl View for NewUser {
    type V = NewUserView;

    open spec fn view(&self) -> NewUserView {
        NewUserView { email: self.email@, name: self.name@ }
    }
}

/// Partial-update input for a user. An absent field always means "leave
/// unchanged", never "clear".
#[derive(Debug)]
pub struct UpdateUser {
    pub email: Option<String>,
    pub name: Option<String>,
}

/// Mathematical model of an `UpdateUser`.
pub struct UpdateUserView {
    pub email: Option<Seq<char>>,
    pub name: Option<Seq<char>>,
}

impl View for UpdateUser {
    type V = UpdateUserView;

    open spec fn view(&self) -> UpdateUserView {
        UpdateUserView {
            email: match self.email {
                Option::Some(ref e) => Option::Some(e@),
                Option::None => Option::None,
            },
            name: match self.name {
                Option::Some(ref n) => Option::Some(n@),
                Option::None => Option::None,
            },
        }
    }
}

/// The record `pre` rewritten by the patch `p` at instant `t`: patched fields
/// take the patch value, absent fields keep their prior value, the identifier
/// and creation instant never change, and `updated_at` becomes `t`.
pub open spec fn user_patched(pre: UserView, p: UpdateUserView, t: int) -> UserView {
    UserView {
        id: pre.id,
        email: match p.email {
            Option::Some(e) => e,
            Option::None => pre.email,
        },
        name: match p.name {
            Option::Some(n) => n,
            Option::None => pre.name,
        },
        created_at: pre.created_at,
        updated_at: t,
    }
}

/// The patch `p` would write an email that another record already holds.
pub open spec fn user_update_conflict(pre: Seq<UserView>, id: u128, p: UpdateUserView) -> bool {
    match p.email {
        Option::Some(e) => key_taken_by_other(pre, id, e),
        Option::None => false,
    }
}

/// A successful update of the user `id`: the stored record is rewritten in
/// place by the patch, with `updated_at` strictly advanced, and no other
/// record moves.
pub open spec fn user_update_ok(
    pre: Seq<UserView>,
    id: u128,
    p: UpdateUserView,
    u: UserView,
    post: Seq<UserView>,
) -> bool {
    &&& !user_update_conflict(pre, id, p)
    &&& exists|i: int|
        0 <= i < pre.len() && (#[trigger] pre[i].eid()) == id
            && u == user_patched(pre[i], p, u.updated_at)
            && pre[i].updated_at < u.updated_at
            && post == pre.update(i, u)
}

/// Full outcome of `create` for users: `Ok` exactly when the store can
/// allocate and no record holds the email already, `Conflict` exactly on a
/// duplicate email, `Unexpected` exactly when allocation is exhausted; on
/// every error the store is unchanged.
pub open spec fn user_create_resolves(
    pre: Seq<UserView>,
    can: bool,
    input: NewUserView,
    r: Result<User, RepoError>,
    post: Seq<UserView>,
    post_can: bool,
) -> bool {
    match r {
        Result::Ok(u) => {
            &&& can
            &&& !has_key(pre, input.email)
            &&& u@.email == input.email
            &&& u@.name == input.name
            &&& create_step(pre, u@, post)
        },
        Result::Err(e) => {
            &&& post == pre
            &&& post_can == can
            &&& match e {
                RepoError::NotFound => false,
                RepoError::Conflict => can && has_key(pre, input.email),
                RepoError::Unexpected(_) => !can,
            }
        },
    }
}

/// Full outcome of `get` for users: the stored record with that identifier,
/// or `NotFound` exactly when no record carries it.
pub open spec fn user_get_resolves(s: Seq<UserView>, id: u128, r: Result<User, RepoError>) -> bool {
    match r {
        Result::Ok(u) => found(s, id, u@),
        Result::Err(e) => e == RepoError::NotFound && !has_id(s, id),
    }
}

/// Full outcome of `list` for users: every record, in descending creation
/// order; an empty store is not an error.
pub open spec fn user_list_resolves(s: Seq<UserView>, r: Result<Vec<User>, RepoError>) -> bool {
    match r {
        Result::Ok(v) => v@.map_values(|u: User| u@) == s.reverse(),
        Result::Err(_) => false,
    }
}

/// Full outcome of `update` for users.
pub open spec fn user_update_resolves(
    pre: Seq<UserView>,
    can: bool,
    id: u128,
    p: UpdateUserView,
    r: Result<User, RepoError>,
    post: Seq<UserView>,
    post_can: bool,
) -> bool {
    match r {
        Result::Ok(u) => can && user_update_ok(pre, id, p, u@, post),
        Result::Err(e) => {
            &&& post == pre
            &&& post_can == can
            &&& match e {
                RepoError::NotFound => !has_id(pre, id),
                RepoError::Conflict => has_id(pre, id) && can && user_update_conflict(pre, id, p),
                RepoError::Unexpected(_) => has_id(pre, id) && !can,
            }
        },
    }
}

/// Full outcome of `delete` for users: the record leaves the store, or
/// `NotFound` exactly when no record carries the identifier.
pub open spec fn user_delete_resolves(
    pre: Seq<UserView>,
    id: u128,
    r: Result<(), RepoError>,
    post: Seq<UserView>,
) -> bool {
    match r {
        Result::Ok(_) => delete_step(pre, id, post),
        Result::Err(e) => post == pre && e == RepoError::NotFound && !has_id(pre, id),
    }
}

// ===== Products =====

/// Creation input for a product.
#[derive(Debug)]
pub struct NewProduct {
    pub sku: String,
    pub name: String,
    pub price_cents: i64,
}

/// Mathematical model of a `NewProduct`.
pub struct NewProductView {
    pub sku: Seq<char>,
    pub name: Seq<char>,
    pub price_cents: int,
}

impl View for NewProduct {
    type V = NewProductView;

    open spec fn view(&self) -> NewProductView {
        NewProductView { sku: self.sku@, name: self.name@, price_cents: self.price_cents as int }
    }
}

/// Partial-update input for a product. An absent field always means "leave
/// unchanged", never "clear".
#[derive(Debug)]
pub struct UpdateProduct {
    pub sku: Option<String>,
    pub name: Option<String>,
    pub price_cents: Option<i64>,
}

/// Mathematical model of an `UpdateProduct`.
pub struct UpdateProductView {
    pub sku: Option<Seq<char>>,
    pub name: Option<Seq<char>>,
    pub price_cents: Option<int>,
}

impl View for UpdateProduct {
    type V = UpdateProductView;

    open spec fn view(&self) -> UpdateProductView {
        UpdateProductView {
            sku: match self.sku {
                Option::Some(ref s) => Option::Some(s@),
                Option::None => Option::None,
            },
            name: match self.name {
                Option::Some(ref n) => Option::Some(n@),
                Option::None => Option::None,
            },
            price_cents: match self.price_cents {
                Option::Some(p) => Option::Some(p as int),
                Option::None => Option::None,
            },
        }
    }
}

/// The record `pre` rewritten by the patch `p` at instant `t`.
pub open spec fn product_patched(pre: ProductView, p: UpdateProductView, t: int) -> ProductView {
    ProductView {
        id: pre.id,
        sku: match p.sku {
            Option::Some(s) => s,
            Option::None => pre.sku,
        },
        name: match p.name {
            Option::Some(n) => n,
            Option::None => pre.name,
        },
        price_cents: match p.price_cents {
            Option::Some(c) => c,
            Option::None => pre.price_cents,
        },
        created_at: pre.created_at,
        updated_at: t,
    }
}

/// The patch `p` would write a sku that another record already holds.
pub open spec fn product_update_conflict(
    pre: Seq<ProductView>,
    id: u128,
    p: UpdateProductView,
) -> bool {
    match p.sku {
        Option::Some(s) => key_taken_by_other(pre, id, s),
        Option::None => false,
    }
}

/// A successful update of the product `id`.
pub open spec fn product_update_ok(
    pre: Seq<ProductView>,
    id: u128,
    p: UpdateProductView,
    v: ProductView,
    post: Seq<ProductView>,
) -> bool {
    &&& !product_update_conflict(pre, id, p)
    &&& exists|i: int|
        0 <= i < pre.len() && (#[trigger] pre[i].eid()) == id
            && v == product_patched(pre[i], p, v.updated_at)
            && pre[i].updated_at < v.updated_at
            && post == pre.update(i, v)
}

/// Full outcome of `create` for products; `Conflict` exactly on a duplicate
/// sku.
pub open spec fn product_create_resolves(
    pre: Seq<ProductView>,
    can: bool,
    input: NewProductView,
    r: Result<Product, RepoError>,
    post: Seq<ProductView>,
    post_can: bool,
) -> bool {
    match r {
        Result::Ok(v) => {
            &&& can
            &&& !has_key(pre, input.sku)
            &&& v@.sku == input.sku
            &&& v@.name == input.name
            &&& v@.price_cents == input.price_cents
            &&& create_step(pre, v@, post)
        },
        Result::Err(e) => {
            &&& post == pre
            &&& post_can == can
            &&& match e {
                RepoError::NotFound => false,
                RepoError::Conflict => can && has_key(pre, input.sku),
                RepoError::Unexpected(_) => !can,
            }
        },
    }
}

/// Full outcome of `get` for products.
pub open spec fn product_get_resolves(
    s: Seq<ProductView>,
    id: u128,
    r: Result<Product, RepoError>,
) -> bool {
    match r {
        Result::Ok(v) => found(s, id, v@),
        Result::Err(e) => e == RepoError::NotFound && !has_id(s, id),
    }
}

/// Full outcome of `list` for products.
pub open spec fn product_list_resolves(
    s: Seq<ProductView>,
    r: Result<Vec<Product>, RepoError>,
) -> bool {
    match r {
        Result::Ok(v) => v@.map_values(|p: Product| p@) == s.reverse(),
        Result::Err(_) => false,
    }
}

/// Full outcome of `update` for products.
pub open spec fn product_update_resolves(
    pre: Seq<ProductView>,
    can: bool,
    id: u128,
    p: UpdateProductView,
    r: Result<Product, RepoError>,
    post: Seq<ProductView>,
    post_can: bool,
) -> bool {
    match r {
        Result::Ok(v) => can && product_update_ok(pre, id, p, v@, post),
        Result::Err(e) => {
            &&& post == pre
            &&& post_can == can
            &&& match e {
                RepoError::NotFound => !has_id(pre, id),
                RepoError::Conflict => has_id(pre, id) && can && product_update_conflict(
                    pre,
                    id,
                    p,
                ),
                RepoError::Unexpected(_) => has_id(pre, id) && !can,
            }
        },
    }
}

/// Full outcome of `delete` for products.
pub open spec fn product_delete_resolves(
    pre: Seq<ProductView>,
    id: u128,
    r: Result<(), RepoError>,
    post: Seq<ProductView>,
) -> bool {
    match r {
        Result::Ok(_) => delete_step(pre, id, post),
        Result::Err(e) => post == pre && e == RepoError::NotFound && !has_id(pre, id),
    }
}

// ===== Orders =====

/// Creation input for an order.
#[derive(Debug)]
pub struct NewOrder {
    pub user_id: u128,
    pub status: String,
    pub total_cents: i64,
}

/// Mathematical model of a `NewOrder`.
pub struct NewOrderView {
    pub user_id: u128,
    pub status: Seq<char>,
    pub total_cents: int,
}

impl View for NewOrder {
    type V = NewOrderView;

    open spec fn view(&self) -> NewOrderView {
        NewOrderView {
            user_id: self.user_id,
            status: self.status@,
            total_cents: self.total_cents as int,
        }
    }
}

/// Partial-update input for an order. An absent field always means "leave
/// unchanged", never "clear".
#[derive(Debug)]
pub struct UpdateOrder {
    pub status: Option<String>,
    pub total_cents: Option<i64>,
}

/// Mathematical model of an `UpdateOrder`.
pub struct UpdateOrderView {
    pub status: Option<Seq<char>>,
    pub total_cents: Option<int>,
}

impl View for UpdateOrder {
    type V = UpdateOrderView;

    open spec fn view(&self) -> UpdateOrderView {
        UpdateOrderView {
            status: match self.status {
                Option::Some(ref s) => Option::Some(s@),
                Option::None => Option::None,
            },
            total_cents: match self.total_cents {
                Option::Some(t) => Option::Some(t as int),
                Option::None => Option::None,
            },
        }
    }
}

/// The record `pre` rewritten by the patch `p` at instant `t`. Orders carry
/// no unique business field, so a patch can never conflict.
pub open spec fn order_patched(pre: OrderView, p: UpdateOrderView, t: int) -> OrderView {
    OrderView {
        id: pre.id,
        user_id: pre.user_id,
        status: match p.status {
            Option::Some(s) => s,
            Option::None => pre.status,
        },
        total_cents: match p.total_cents {
            Option::Some(c) => c,
            Option::None => pre.total_cents,
        },
        created_at: pre.created_at,
        updated_at: t,
    }
}

/// A successful update of the order `id`.
pub open spec fn order_update_ok(
    pre: Seq<OrderView>,
    id: u128,
    p: UpdateOrderView,
    v: OrderView,
    post: Seq<OrderView>,
) -> bool {
    exists|i: int|
        0 <= i < pre.len() && (#[trigger] pre[i].eid()) == id
            && v == order_patched(pre[i], p, v.updated_at)
            && pre[i].updated_at < v.updated_at
            && post == pre.update(i, v)
}

/// Full outcome of `create` for orders; no uniqueness constraint applies, so
/// `Conflict` never comes.
pub open spec fn order_create_resolves(
    pre: Seq<OrderView>,
    can: bool,
    input: NewOrderView,
    r: Result<Order, RepoError>,
    post: Seq<OrderView>,
    post_can: bool,
) -> bool {
    match r {
        Result::Ok(v) => {
            &&& can
            &&& v@.user_id == input.user_id
            &&& v@.status == input.status
            &&& v@.total_cents == input.total_cents
            &&& create_step(pre, v@, post)
        },
        Result::Err(e) => {
            &&& post == pre
            &&& post_can == can
            &&& match e {
                RepoError::NotFound => false,
                RepoError::Conflict => false,
                RepoError::Unexpected(_) => !can,
            }
        },
    }
}

/// Full outcome of `get` for orders.
pub open spec fn order_get_resolves(
    s: Seq<OrderView>,
    id: u128,
    r: Result<Order, RepoError>,
) -> bool {
    match r {
        Result::Ok(v) => found(s, id, v@),
        Result::Err(e) => e == RepoError::NotFound && !has_id(s, id),
    }
}

/// Full outcome of `list` for orders.
pub open spec fn order_list_resolves(s: Seq<OrderView>, r: Result<Vec<Order>, RepoError>) -> bool {
    match r {
        Result::Ok(v) => v@.map_values(|o: Order| o@) == s.reverse(),
        Result::Err(_) => false,
    }
}

/// Full outcome of `update` for orders.
pub open spec fn order_update_resolves(
    pre: Seq<OrderView>,
    can: bool,
    id: u128,
    p: UpdateOrderView,
    r: Result<Order, RepoError>,
    post: Seq<OrderView>,
    post_can: bool,
) -> bool {
    match r {
        Result::Ok(v) => can && order_update_ok(pre, id, p, v@, post),
        Result::Err(e) => {
            &&& post == pre
            &&& post_can == can
            &&& match e {
                RepoError::NotFound => !has_id(pre, id),
                RepoError::Conflict => false,
                RepoError::Unexpected(_) => has_id(pre, id) && !can,
            }
        },
    }
}

/// Full outcome of `delete` for orders.
pub open spec fn order_delete_resolves(
    pre: Seq<OrderView>,
    id: u128,
    r: Result<(), RepoError>,
    post: Seq<OrderView>,
) -> bool {
    match r {
        Result::Ok(_) => delete_step(pre, id, post),
        Result::Err(e) => post == pre && e == RepoError::NotFound && !has_id(pre, id),
    }
}

/// The capability contract of a user store.
pub trait UserRepository: Sized {
    /// The store's internal invariant.
    spec fn inv(&self) -> bool;

    /// The stored records, in ascending creation order.
    spec fn users(&self) -> Seq<UserView>;

    /// The store can still assign a fresh identifier and a fresh instant.
    spec fn can_allocate(&self) -> bool;

    /// The invariant pins distinct identifiers, distinct emails and strictly
    /// ascending creation instants.
    proof fn inv_properties(&self)
        requires
            self.inv(),
        ensures
            ids_distinct(self.users()),
            keys_distinct(self.users()),
            creation_sorted(self.users()),
    ;

    fn create(&mut self, input: NewUser) -> (r: Result<User, RepoError>)
        requires
            old(self).inv(),
        ensures
            final(self).inv(),
            user_create_resolves(
                old(self).users(),
                old(self).can_allocate(),
                input@,
                r,
                final(self).users(),
                final(self).can_allocate(),
            ),
    ;

    fn list(&self) -> (r: Result<Vec<User>, RepoError>)
        requires
            self.inv(),
        ensures
            user_list_resolves(self.users(), r),
    ;

    fn get(&self, id: u128) -> (r: Result<User, RepoError>)
        requires
            self.inv(),
        ensures
            user_get_resolves(self.users(), id, r),
    ;

    fn update(&mut self, id: u128, input: UpdateUser) -> (r: Result<User, RepoError>)
        requires
            old(self).inv(),
        ensures
            final(self).inv(),
            user_update_resolves(
                old(self).users(),
                old(self).can_allocate(),
                id,
                input@,
                r,
                final(self).users(),
                final(self).can_allocate(),
            ),
    ;

    fn delete(&mut self, id: u128) -> (r: Result<(), RepoError>)
        requires
            old(self).inv(),
        ensures
            final(self).inv(),
            final(self).can_allocate() == old(self).can_allocate(),
            user_delete_resolves(old(self).users(), id, r, final(self).users()),
    ;
}

/// The capability contract of a product store.
pub trait ProductRepository: Sized {
    /// The store's internal invariant.
    spec fn inv(&self) -> bool;

    /// The stored records, in ascending creation order.
    spec fn products(&self) -> Seq<ProductView>;

    /// The store can still assign a fresh identifier and a fresh instant.
    spec fn can_allocate(&self) -> bool;

    /// The invariant pins distinct identifiers, distinct skus and strictly
    /// ascending creation instants.
    proof fn inv_properties(&self)
        requires
            self.inv(),
        ensures
            ids_distinct(self.products()),
            keys_distinct(self.products()),
            creation_sorted(self.products()),
    ;

    fn create(&mut self, input: NewProduct) -> (r: Result<Product, RepoError>)
        requires
            old(self).inv(),
        ensures
            final(self).inv(),
            product_create_resolves(
                old(self).products(),
                old(self).can_allocate(),
                input@,
                r,
                final(self).products(),
                final(self).can_allocate(),
            ),
    ;

    fn list(&self) -> (r: Result<Vec<Product>, RepoError>)
        requires
            self.inv(),
        ensures
            product_list_resolves(self.products(), r),
    ;

    fn get(&self, id: u128) -> (r: Result<Product, RepoError>)
        requires
            self.inv(),
        ensures
            product_get_resolves(self.products(), id, r),
    ;

    fn update(&mut self, id: u128, input: UpdateProduct) -> (r: Result<Product, RepoError>)
        requires
            old(self).inv(),
        ensures
            final(self).inv(),
            product_update_resolves(
                old(self).products(),
                old(self).can_allocate(),
                id,
                input@,
                r,
                final(self).products(),
                final(self).can_allocate(),
            ),
    ;

    fn delete(&mut self, id: u128) -> (r: Result<(), RepoError>)
        requires
            old(self).inv(),
        ensures
            final(self).inv(),
            final(self).can_allocate() == old(self).can_allocate(),
            product_delete_resolves(old(self).products(), id, r, final(self).products()),
    ;
}

/// The capability contract of an order store.
pub trait OrderRepository: Sized {
    /// The store's internal invariant.
    spec fn inv(&self) -> bool;

    /// The stored records, in ascending creation order.
    spec fn orders(&self) -> Seq<OrderView>;

    /// The store can still assign a fresh identifier and a fresh instant.
    spec fn can_allocate(&self) -> bool;

    /// The invariant pins distinct identifiers and strictly ascending
    /// creation instants.
    proof fn inv_properties(&self)
        requires
            self.inv(),
        ensures
            ids_distinct(self.orders()),
            creation_sorted(self.orders()),
    ;

    fn create(&mut self, input: NewOrder) -> (r: Result<Order, RepoError>)
        requires
            old(self).inv(),
        ensures
            final(self).inv(),
            order_create_resolves(
                old(self).orders(),
                old(self).can_allocate(),
                input@,
                r,
                final(self).orders(),
                final(self).can_allocate(),
            ),
    ;

    fn list(&self) -> (r: Result<Vec<Order>, RepoError>)
        requires
            self.inv(),
        ensures
            order_list_resolves(self.orders(), r),
    ;

    fn get(&self, id: u128) -> (r: Result<Order, RepoError>)
        requires
            self.inv(),
        ensures
            order_get_resolves(self.orders(), id, r),
    ;

    fn update(&mut self, id: u128, input: UpdateOrder) -> (r: Result<Order, RepoError>)
        requires
            old(self).inv(),
        ensures
            final(self).inv(),
            order_update_resolves(
                old(self).orders(),
                old(self).can_allocate(),
                id,
                input@,
                r,
                final(self).orders(),
                final(self).can_allocate(),
            ),
    ;

    fn delete(&mut self, id: u128) -> (r: Result<(), RepoError>)
        requires
            old(self).inv(),
        ensures
            final(self).inv(),
            final(self).can_allocate() == old(self).can_allocate(),
            order_delete_resolves(old(self).orders(), id, r, final(self).orders()),
    ;
}

} // verus!
