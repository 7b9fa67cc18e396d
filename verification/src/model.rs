//! Shared specification vocabulary for the repository layer.
//!
//! The three resources are structurally identical: every record carries a
//! server-assigned identifier and a pair of timestamps, and some records carry
//! one business field that the store keeps unique. The predicates here state
//! the repository contract once, over any such record model, and each concrete
//! record model instantiates them.

use vstd::prelude::*;

verus! {

/// A record model as the repository contract sees it: an identifier and the
/// two lifecycle timestamps.
pub trait Entity: Sized {
    /// The server-assigned identifier.
    spec fn eid(self) -> u128;

    /// The instant the record was inserted.
    spec fn created(self) -> int;

    /// The instant of the latest successful mutation.
    spec fn updated(self) -> int;
}

/// A record model with one business field that the store keeps unique
/// (a user's email, a product's sku).
pub trait Keyed: Entity {
    /// The uniquely-kept business field.
    spec fn ukey(self) -> Seq<char>;
}

/// No two records share an identifier.
pub open spec fn ids_distinct<T: Entity>(s: Seq<T>) -> bool {
    forall|i: int, j: int|
        #![trigger s[i].eid(), s[j].eid()]
        0 <= i < j < s.len() ==> s[i].eid() != s[j].eid()
}

/// No two records share the unique business field.
pub open spec fn keys_distinct<T: Keyed>(s: Seq<T>) -> bool {
    forall|i: int, j: int|
        #![trigger s[i].ukey(), s[j].ukey()]
        0 <= i < j < s.len() ==> s[i].ukey() != s[j].ukey()
}

/// Some record carries the identifier `id`.
pub open spec fn has_id<T: Entity>(s: Seq<T>, id: u128) -> bool {
    exists|i: int| 0 <= i < s.len() && (#[trigger] s[i].eid()) == id
}

/// Some record carries the unique business field `k`.
pub open spec fn has_key<T: Keyed>(s: Seq<T>, k: Seq<char>) -> bool {
    exists|i: int| 0 <= i < s.len() && (#[trigger] s[i].ukey()) == k
}

/// Some record other than the one with identifier `id` carries the unique
/// business field `k`; writing `k` into the record `id` would then violate
/// the uniqueness constraint.
pub open spec fn key_taken_by_other<T: Keyed>(s: Seq<T>, id: u128, k: Seq<char>) -> bool {
    exists|i: int| 0 <= i < s.len() && (#[trigger] s[i].ukey()) == k && s[i].eid() != id
}

/// `v` is the record with identifier `id` in `s`.
pub open spec fn found<T: Entity>(s: Seq<T>, id: u128, v: T) -> bool {
    v.eid() == id && s.contains(v)
}

/// Records stand in ascending creation order, strictly: the store appends
/// new records and the listing is this order reversed.
pub open spec fn creation_sorted<T: Entity>(s: Seq<T>) -> bool {
    forall|i: int, j: int|
        #![trigger s[i].created(), s[j].created()]
        0 <= i < j < s.len() ==> s[i].created() < s[j].created()
}

/// Every timestamp in `s` lies strictly before the instant `t`.
pub open spec fn all_before<T: Entity>(s: Seq<T>, t: int) -> bool {
    forall|i: int|
        #![trigger s[i]]
        0 <= i < s.len() ==> s[i].created() < t && s[i].updated() < t
}

/// The common shape of a successful insertion: the new record `v` carries a
/// fresh identifier, equal creation and update instants lying after every
/// existing timestamp, and is appended to the store.
pub open spec fn create_step<T: Entity>(pre: Seq<T>, v: T, post: Seq<T>) -> bool {
    &&& !has_id(pre, v.eid())
    &&& v.created() == v.updated()
    &&& all_before(pre, v.created())
    &&& post == pre.push(v)
}

/// The common shape of a successful removal: the record with identifier `id`
/// leaves the store and every other record stays, in order.
pub open spec fn delete_step<T: Entity>(pre: Seq<T>, id: u128, post: Seq<T>) -> bool {
    exists|i: int|
        0 <= i < pre.len() && (#[trigger] pre[i].eid()) == id && post == pre.remove(i)
}

} // verus!
