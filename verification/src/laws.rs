//! The repository laws: consequences of the port contracts, stated and
//! proved once over the record models.
//!
//! The laws about identifiers and creation order hold for any record model,
//! so they are generic over `Entity`; the partial-update laws speak of the
//! concrete fields of each resource.

use crate::domain::{OrderView, ProductView, UserView};
use crate::model::{create_step, creation_sorted, delete_step, found, has_id, has_key,
    ids_distinct, Entity};
use crate::ports::{
    order_list_resolves, order_update_ok, product_create_resolves, product_list_resolves,
    product_update_ok, user_create_resolves, user_list_resolves, user_update_ok, NewProductView,
    NewUserView, RepoError, UpdateOrderView, UpdateProductView, UpdateUserView,
};
use crate::domain::{Order, Product, User};
use vstd::prelude::*;

verus! {

/// After a successful creation, looking the new identifier up finds exactly
/// the created record, whose creation and update instants coincide.
pub proof fn law_create_then_get<T: Entity>(pre: Seq<T>, v: T, post: Seq<T>)
    requires
        create_step(pre, v, post),
    ensures
        found(post, v.eid(), v),
        forall|w: T| found(post, v.eid(), w) ==> w == v,
        v.created() == v.updated(),
        post.len() == pre.len() + 1,
{
    assert(post[pre.len() as int] == v);
    assert(post.contains(v));
    assert forall|w: T| found(post, v.eid(), w) implies w == v by {
        let i = choose|i: int| 0 <= i < post.len() && post[i] == w;
        if i < pre.len() {
            assert(pre[i] == w);
            assert(pre[i].eid() == v.eid());
            assert(has_id(pre, v.eid()));
        } else {
            assert(w == v);
        }
    }
}

/// After a successful deletion, no record carries the removed identifier.
pub proof fn law_delete_then_get<T: Entity>(pre: Seq<T>, id: u128, post: Seq<T>)
    requires
        ids_distinct(pre),
        delete_step(pre, id, post),
    ensures
        !has_id(post, id),
        post.len() == pre.len() - 1,
{
    let i = choose|i: int|
        0 <= i < pre.len() && (#[trigger] pre[i].eid()) == id && post == pre.remove(i);
    pre.remove_ensures(i);
    assert forall|j: int| 0 <= j < post.len() implies (#[trigger] post[j].eid()) != id by {
        let j0 = if j < i { j } else { j + 1 };
        assert(post[j] == pre[j0]);
        assert(pre[j0].eid() != pre[i].eid());
    }
}

/// A store in strictly ascending creation order lists in strictly descending
/// creation order.
pub proof fn law_listing_descending<T: Entity>(s: Seq<T>)
    requires
        creation_sorted(s),
    ensures
        forall|i: int, j: int|
            #![trigger s.reverse()[i], s.reverse()[j]]
            0 <= i < j < s.reverse().len() ==> s.reverse()[i].created() > s.reverse()[j].created(),
{
    assert forall|i: int, j: int|
        0 <= i < j < s.reverse().len() implies (#[trigger] s.reverse()[i]).created() > (
    #[trigger] s.reverse()[j]).created() by {
        assert(s.reverse()[i] == s[s.len() - 1 - i]);
        assert(s.reverse()[j] == s[s.len() - 1 - j]);
        assert(s[s.len() - 1 - j].created() < s[s.len() - 1 - i].created());
    }
}

/// A successful creation prepends the new record to the listing and grows it
/// by exactly one entry.
pub proof fn law_create_prepends_listing<T: Entity>(pre: Seq<T>, v: T, post: Seq<T>)
    requires
        create_step(pre, v, post),
    ensures
        post.reverse() == seq![v] + pre.reverse(),
        post.len() == pre.len() + 1,
{
    assert(post.reverse() =~= seq![v] + pre.reverse()) by {
        assert forall|i: int| 0 <= i < post.reverse().len() implies #[trigger] post.reverse()[i]
            == (seq![v] + pre.reverse())[i] by {
            assert(post.reverse()[i] == post[post.len() - 1 - i]);
            if i == 0 {
                assert(post[pre.len() as int] == v);
            } else {
                assert((seq![v] + pre.reverse())[i] == pre.reverse()[i - 1]);
                assert(pre.reverse()[i - 1] == pre[pre.len() - i]);
                assert(post[post.len() - 1 - i] == pre[pre.len() as int - i]);
            }
        }
    }
}

/// Listing is a pure function of the store: two listings of the same state
/// hold the same records in the same order.
pub proof fn law_user_listing_stable(
    s: Seq<UserView>,
    r1: Result<Vec<User>, RepoError>,
    r2: Result<Vec<User>, RepoError>,
)
    requires
        user_list_resolves(s, r1),
        user_list_resolves(s, r2),
    ensures
        r1 matches Result::Ok(v1) && r2 matches Result::Ok(v2) && v1@.map_values(|u: User| u@)
            == v2@.map_values(|u: User| u@),
{
}

/// Listing is a pure function of the store: two listings of the same state
/// hold the same records in the same order.
pub proof fn law_product_listing_stable(
    s: Seq<ProductView>,
    r1: Result<Vec<Product>, RepoError>,
    r2: Result<Vec<Product>, RepoError>,
)
    requires
        product_list_resolves(s, r1),
        product_list_resolves(s, r2),
    ensures
        r1 matches Result::Ok(v1) && r2 matches Result::Ok(v2) && v1@.map_values(|p: Product| p@)
            == v2@.map_values(|p: Product| p@),
{
}

/// Listing is a pure function of the store: two listings of the same state
/// hold the same records in the same order.
pub proof fn law_order_listing_stable(
    s: Seq<OrderView>,
    r1: Result<Vec<Order>, RepoError>,
    r2: Result<Vec<Order>, RepoError>,
)
    requires
        order_list_resolves(s, r1),
        order_list_resolves(s, r2),
    ensures
        r1 matches Result::Ok(v1) && r2 matches Result::Ok(v2) && v1@.map_values(|o: Order| o@)
            == v2@.map_values(|o: Order| o@),
{
}

/// A creation with an email some record already holds returns `Conflict` and
/// leaves the store unchanged: no second record appears.
pub proof fn law_user_create_duplicate_email(
    pre: Seq<UserView>,
    can: bool,
    input: NewUserView,
    r: Result<User, RepoError>,
    post: Seq<UserView>,
    post_can: bool,
)
    requires
        user_create_resolves(pre, can, input, r, post, post_can),
        can,
        has_key(pre, input.email),
    ensures
        r matches Result::Err(e) && e == RepoError::Conflict,
        post == pre,
{
}

/// A creation with a sku some record already holds returns `Conflict` and
/// leaves the store unchanged: no second record appears.
pub proof fn law_product_create_duplicate_sku(
    pre: Seq<ProductView>,
    can: bool,
    input: NewProductView,
    r: Result<Product, RepoError>,
    post: Seq<ProductView>,
    post_can: bool,
)
    requires
        product_create_resolves(pre, can, input, r, post, post_can),
        can,
        has_key(pre, input.sku),
    ensures
        r matches Result::Err(e) && e == RepoError::Conflict,
        post == pre,
{
}

/// An update rewrites exactly the record with the given identifier: patched
/// fields take the patch value, absent fields keep their prior value, the
/// identifier and creation instant stand, `updated_at` strictly advances,
/// and every other record is untouched.
pub proof fn law_user_update_patches_fields(
    pre: Seq<UserView>,
    id: u128,
    p: UpdateUserView,
    u: UserView,
    post: Seq<UserView>,
)
    requires
        ids_distinct(pre),
        user_update_ok(pre, id, p, u, post),
    ensures
        post.len() == pre.len(),
        forall|j: int| 0 <= j < pre.len() && (#[trigger] pre[j].eid()) != id ==> post[j] == pre[j],
        forall|j: int|
            0 <= j < pre.len() && (#[trigger] pre[j].eid()) == id ==> {
                &&& post[j] == u
                &&& u.id == pre[j].id
                &&& u.created_at == pre[j].created_at
                &&& u.updated_at > pre[j].updated_at
                &&& match p.email {
                    Option::Some(e) => u.email == e,
                    Option::None => u.email == pre[j].email,
                }
                &&& match p.name {
                    Option::Some(n) => u.name == n,
                    Option::None => u.name == pre[j].name,
                }
            },
{
    let i = choose|i: int|
        0 <= i < pre.len() && (#[trigger] pre[i].eid()) == id && u == crate::ports::user_patched(
            pre[i],
            p,
            u.updated_at,
        ) && pre[i].updated_at < u.updated_at && post == pre.update(i, u);
    assert forall|j: int|
        0 <= j < pre.len() && (#[trigger] pre[j].eid()) == id implies j == i by {
        assert(pre[j].eid() != pre[i].eid() || j == i);
    }
}

/// An update whose patch names no field still strictly advances
/// `updated_at` and leaves every business field of the record, and every
/// other record, unchanged.
pub proof fn law_user_update_empty_patch(
    pre: Seq<UserView>,
    id: u128,
    u: UserView,
    post: Seq<UserView>,
)
    requires
        ids_distinct(pre),
        user_update_ok(
            pre,
            id,
            UpdateUserView { email: Option::None, name: Option::None },
            u,
            post,
        ),
    ensures
        post.len() == pre.len(),
        forall|j: int| 0 <= j < pre.len() && (#[trigger] pre[j].eid()) != id ==> post[j] == pre[j],
        forall|j: int|
            0 <= j < pre.len() && (#[trigger] pre[j].eid()) == id ==> {
                &&& post[j] == u
                &&& u.id == pre[j].id
                &&& u.email == pre[j].email
                &&& u.name == pre[j].name
                &&& u.created_at == pre[j].created_at
                &&& u.updated_at > pre[j].updated_at
            },
{
    law_user_update_patches_fields(
        pre,
        id,
        UpdateUserView { email: Option::None, name: Option::None },
        u,
        post,
    );
}

/// An update rewrites exactly the record with the given identifier; the
/// product analogue of the user law.
pub proof fn law_product_update_patches_fields(
    pre: Seq<ProductView>,
    id: u128,
    p: UpdateProductView,
    v: ProductView,
    post: Seq<ProductView>,
)
    requires
        ids_distinct(pre),
        product_update_ok(pre, id, p, v, post),
    ensures
        post.len() == pre.len(),
        forall|j: int| 0 <= j < pre.len() && (#[trigger] pre[j].eid()) != id ==> post[j] == pre[j],
        forall|j: int|
            0 <= j < pre.len() && (#[trigger] pre[j].eid()) == id ==> {
                &&& post[j] == v
                &&& v.id == pre[j].id
                &&& v.created_at == pre[j].created_at
                &&& v.updated_at > pre[j].updated_at
                &&& match p.sku {
                    Option::Some(s) => v.sku == s,
                    Option::None => v.sku == pre[j].sku,
                }
                &&& match p.name {
                    Option::Some(n) => v.name == n,
                    Option::None => v.name == pre[j].name,
                }
                &&& match p.price_cents {
                    Option::Some(c) => v.price_cents == c,
                    Option::None => v.price_cents == pre[j].price_cents,
                }
            },
{
    let i = choose|i: int|
        0 <= i < pre.len() && (#[trigger] pre[i].eid()) == id && v
            == crate::ports::product_patched(pre[i], p, v.updated_at) && pre[i].updated_at
            < v.updated_at && post == pre.update(i, v);
    assert forall|j: int|
        0 <= j < pre.len() && (#[trigger] pre[j].eid()) == id implies j == i by {
        assert(pre[j].eid() != pre[i].eid() || j == i);
    }
}

/// An update whose patch names no field still strictly advances
/// `updated_at` and changes nothing else; the product analogue.
pub proof fn law_product_update_empty_patch(
    pre: Seq<ProductView>,
    id: u128,
    v: ProductView,
    post: Seq<ProductView>,
)
    requires
        ids_distinct(pre),
        product_update_ok(
            pre,
            id,
            UpdateProductView { sku: Option::None, name: Option::None, price_cents: Option::None },
            v,
            post,
        ),
    ensures
        post.len() == pre.len(),
        forall|j: int| 0 <= j < pre.len() && (#[trigger] pre[j].eid()) != id ==> post[j] == pre[j],
        forall|j: int|
            0 <= j < pre.len() && (#[trigger] pre[j].eid()) == id ==> {
                &&& post[j] == v
                &&& v.id == pre[j].id
                &&& v.sku == pre[j].sku
                &&& v.name == pre[j].name
                &&& v.price_cents == pre[j].price_cents
                &&& v.created_at == pre[j].created_at
                &&& v.updated_at > pre[j].updated_at
            },
{
    law_product_update_patches_fields(
        pre,
        id,
        UpdateProductView { sku: Option::None, name: Option::None, price_cents: Option::None },
        v,
        post,
    );
}

/// An update rewrites exactly the record with the given identifier; the
/// order analogue of the user law. The referenced user never changes.
pub proof fn law_order_update_patches_fields(
    pre: Seq<OrderView>,
    id: u128,
    p: UpdateOrderView,
    v: OrderView,
    post: Seq<OrderView>,
)
    requires
        ids_distinct(pre),
        order_update_ok(pre, id, p, v, post),
    ensures
        post.len() == pre.len(),
        forall|j: int| 0 <= j < pre.len() && (#[trigger] pre[j].eid()) != id ==> post[j] == pre[j],
        forall|j: int|
            0 <= j < pre.len() && (#[trigger] pre[j].eid()) == id ==> {
                &&& post[j] == v
                &&& v.id == pre[j].id
                &&& v.user_id == pre[j].user_id
                &&& v.created_at == pre[j].created_at
                &&& v.updated_at > pre[j].updated_at
                &&& match p.status {
                    Option::Some(s) => v.status == s,
                    Option::None => v.status == pre[j].status,
                }
                &&& match p.total_cents {
                    Option::Some(t) => v.total_cents == t,
                    Option::None => v.total_cents == pre[j].total_cents,
                }
            },
{
    let i = choose|i: int|
        0 <= i < pre.len() && (#[trigger] pre[i].eid()) == id && v == crate::ports::order_patched(
            pre[i],
            p,
            v.updated_at,
        ) && pre[i].updated_at < v.updated_at && post == pre.update(i, v);
    assert forall|j: int|
        0 <= j < pre.len() && (#[trigger] pre[j].eid()) == id implies j == i by {
        assert(pre[j].eid() != pre[i].eid() || j == i);
    }
}

/// An update whose patch names no field still strictly advances
/// `updated_at` and changes nothing else; the order analogue.
pub proof fn law_order_update_empty_patch(
    pre: Seq<OrderView>,
    id: u128,
    v: OrderView,
    post: Seq<OrderView>,
)
    requires
        ids_distinct(pre),
        order_update_ok(
            pre,
            id,
            UpdateOrderView { status: Option::None, total_cents: Option::None },
            v,
            post,
        ),
    ensures
        post.len() == pre.len(),
        forall|j: int| 0 <= j < pre.len() && (#[trigger] pre[j].eid()) != id ==> post[j] == pre[j],
        forall|j: int|
            0 <= j < pre.len() && (#[trigger] pre[j].eid()) == id ==> {
                &&& post[j] == v
                &&& v.id == pre[j].id
                &&& v.user_id == pre[j].user_id
                &&& v.status == pre[j].status
                &&& v.total_cents == pre[j].total_cents
                &&& v.created_at == pre[j].created_at
                &&& v.updated_at > pre[j].updated_at
            },
{
    law_order_update_patches_fields(
        pre,
        id,
        UpdateOrderView { status: Option::None, total_cents: Option::None },
        v,
        post,
    );
}

} // verus!
