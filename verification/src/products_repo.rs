//! In-memory product store: a verified implementer of the product port.
//!
//! Identical in structure to the user store; the unique business field here
//! is the sku.

use crate::domain::{Product, ProductView};
use crate::model::{
    creation_sorted, has_id, has_key, ids_distinct, key_taken_by_other, keys_distinct, Entity,
    Keyed,
};
use crate::ports::{NewProduct, ProductRepository, RepoError, UpdateProduct};
use vstd::prelude::*;

verus! {

/// A product store backed by process memory.
pub struct MemProductRepository {
    store: Vec<Product>,
    next_id: u128,
    clock: i64,
}

impl MemProductRepository {
    /// The stored records as their models, in vector (creation) order.
    closed spec fn rows(&self) -> Seq<ProductView> {
        self.store@.map_values(|p: Product| p@)
    }

    /// Timestamps never pass the clock, identifiers never reach the counter,
    /// and both uniqueness constraints hold.
    closed spec fn wf(&self) -> bool {
        let s = self.rows();
        &&& 0 <= self.clock
        &&& 1 <= self.next_id
        &&& ids_distinct(s)
        &&& keys_distinct(s)
        &&& creation_sorted(s)
        &&& forall|i: int|
            0 <= i < s.len() ==> {
                &&& 0 < (#[trigger] s[i]).created_at
                &&& s[i].created_at <= s[i].updated_at
                &&& s[i].updated_at <= self.clock
                &&& s[i].id < self.next_id
            }
    }

    /// An empty store.
    pub fn new() -> (r: Self)
        ensures
            r.inv(),
            r.products() == Seq::<ProductView>::empty(),
            r.can_allocate(),
    {
        let r = MemProductRepository { store: Vec::new(), next_id: 1, clock: 0 };
        proof {
            assert(r.rows() =~= Seq::<ProductView>::empty());
        }
        r
    }

    /// The index of the record with identifier `id`, if any record holds it.
    fn index_of(&self, id: u128) -> (r: Option<usize>)
        ensures
            match r {
                Option::Some(i) => i < self.rows().len() && self.rows()[i as int].id == id
                    && has_id(self.rows(), id),
                Option::None => !has_id(self.rows(), id),
            },
    {
        let n = self.store.len();
        let mut k: usize = 0;
        while k < n
            invariant
                k <= n,
                n == self.store.len(),
                forall|j: int| 0 <= j < k ==> (#[trigger] self.rows()[j]).id != id,
            decreases n - k,
        {
            if self.store[k].id == id {
                proof {
                    assert(self.rows()[k as int].eid() == id);
                }
                return Option::Some(k);
            }
            k = k + 1;
        }
        proof {
            assert forall|j: int| 0 <= j < self.rows().len() implies (#[trigger] self.rows()[j]).eid()
                != id by {
                assert(self.rows()[j].id != id);
            }
        }
        Option::None
    }

    /// Whether any record already holds the sku `sku`.
    fn sku_taken(&self, sku: &String) -> (b: bool)
        ensures
            b == has_key(self.rows(), sku@),
    {
        let n = self.store.len();
        let mut k: usize = 0;
        while k < n
            invariant
                k <= n,
                n == self.store.len(),
                forall|j: int| 0 <= j < k ==> (#[trigger] self.rows()[j]).sku != sku@,
            decreases n - k,
        {
            if self.store[k].sku == *sku {
                proof {
                    assert(self.rows()[k as int].ukey() == sku@);
                }
                return true;
            }
            k = k + 1;
        }
        proof {
            assert forall|j: int| 0 <= j < self.rows().len() implies (#[trigger] self.rows()[j]).ukey()
                != sku@ by {
                assert(self.rows()[j].sku != sku@);
            }
        }
        false
    }

    /// Whether a record other than `id` already holds the sku `sku`.
    fn sku_taken_by_other(&self, sku: &String, id: u128) -> (b: bool)
        ensures
            b == key_taken_by_other(self.rows(), id, sku@),
    {
        let n = self.store.len();
        let mut k: usize = 0;
        while k < n
            invariant
                k <= n,
                n == self.store.len(),
                forall|j: int|
                    0 <= j < k ==> !((#[trigger] self.rows()[j]).sku == sku@ && self.rows()[j].id
                        != id),
            decreases n - k,
        {
            if self.store[k].id != id && self.store[k].sku == *sku {
                proof {
                    assert(self.rows()[k as int].ukey() == sku@ && self.rows()[k as int].eid()
                        != id);
                }
                return true;
            }
            k = k + 1;
        }
        proof {
            assert forall|j: int| 0 <= j < self.rows().len() implies !((#[trigger] self.rows()[j]).ukey()
                == sku@ && self.rows()[j].eid() != id) by {
                assert(!(self.rows()[j].sku == sku@ && self.rows()[j].id != id));
            }
        }
        false
    }
}

impl ProductRepository for MemProductRepository {
    closed spec fn inv(&self) -> bool {
        self.wf()
    }

    closed spec fn products(&self) -> Seq<ProductView> {
        self.rows()
    }

    closed spec fn can_allocate(&self) -> bool {
        self.next_id < u128::MAX && self.clock < i64::MAX
    }

    proof fn inv_properties(&self) {
    }

    fn create(&mut self, input: NewProduct) -> (r: Result<Product, RepoError>) {
        if self.next_id == u128::MAX || self.clock == i64::MAX {
            return Result::Err(RepoError::Unexpected("allocation exhausted".to_string()));
        }
        if self.sku_taken(&input.sku) {
            return Result::Err(RepoError::Conflict);
        }
        let now = self.clock + 1;
        let id = self.next_id;
        self.clock = now;
        self.next_id = id + 1;
        let p = Product {
            id,
            sku: input.sku,
            name: input.name,
            price_cents: input.price_cents,
            created_at: now,
            updated_at: now,
        };
        let stored = p.clone();
        self.store.push(stored);
        proof {
            let pre = old(self).rows();
            assert(self.rows() =~= pre.push(p@));
            assert forall|j: int| 0 <= j < pre.len() implies (#[trigger] pre[j]).eid() != p@.eid() by {
                assert(pre[j].id < id);
            }
        }
        Result::Ok(p)
    }

    fn list(&self) -> (r: Result<Vec<Product>, RepoError>) {
        let mut out: Vec<Product> = Vec::new();
        let n = self.store.len();
        let mut k = n;
        while k > 0
            invariant
                k <= n,
                n == self.store.len(),
                out@.len() == n - k,
                forall|m: int|
                    0 <= m < out@.len() ==> (#[trigger] out@[m])@ == self.rows()[n - 1 - m],
            decreases k,
        {
            k = k - 1;
            out.push(self.store[k].clone());
        }
        proof {
            assert(out@.map_values(|p: Product| p@) =~= self.rows().reverse());
        }
        Result::Ok(out)
    }

    fn get(&self, id: u128) -> (r: Result<Product, RepoError>) {
        match self.index_of(id) {
            Option::Some(i) => {
                let p = self.store[i].clone();
                proof {
                    assert(self.rows().contains(p@)) by {
                        assert(self.rows()[i as int] == p@);
                    }
                }
                Result::Ok(p)
            },
            Option::None => Result::Err(RepoError::NotFound),
        }
    }

    fn update(&mut self, id: u128, input: UpdateProduct) -> (r: Result<Product, RepoError>) {
        let i = match self.index_of(id) {
            Option::Some(i) => i,
            Option::None => {
                return Result::Err(RepoError::NotFound);
            },
        };
        if self.next_id == u128::MAX || self.clock == i64::MAX {
            return Result::Err(RepoError::Unexpected("allocation exhausted".to_string()));
        }
        let sku = match input.sku {
            Option::Some(s) => {
                if self.sku_taken_by_other(&s, id) {
                    return Result::Err(RepoError::Conflict);
                }
                s
            },
            Option::None => self.store[i].sku.clone(),
        };
        let name = match input.name {
            Option::Some(nm) => nm,
            Option::None => self.store[i].name.clone(),
        };
        let price_cents = match input.price_cents {
            Option::Some(c) => c,
            Option::None => self.store[i].price_cents,
        };
        let now = self.clock + 1;
        self.clock = now;
        let p = Product {
            id: self.store[i].id,
            sku,
            name,
            price_cents,
            created_at: self.store[i].created_at,
            updated_at: now,
        };
        let stored = p.clone();
        self.store[i] = stored;
        proof {
            let pre = old(self).rows();
            let post = self.rows();
            let ii = i as int;
            assert(post =~= pre.update(ii, p@));
            assert(pre[ii].eid() == id);
            assert(pre[ii].updated_at < p@.updated_at);
            assert(p@ == crate::ports::product_patched(pre[ii], input@, p@.updated_at));
            assert forall|a: int, b: int|
                0 <= a < b < post.len() implies (#[trigger] post[a].eid()) != (#[trigger] post[b].eid()) by {
                assert(pre[a].eid() != pre[b].eid());
                assert(a != ii ==> post[a] == pre[a]);
                assert(b != ii ==> post[b] == pre[b]);
            }
            assert forall|a: int, b: int|
                0 <= a < b < post.len() implies (#[trigger] post[a].ukey()) != (#[trigger] post[b].ukey()) by {
                if a != ii && b != ii {
                    assert(post[a] == pre[a] && post[b] == pre[b]);
                    assert(pre[a].ukey() != pre[b].ukey());
                } else {
                    let other = if a == ii { b } else { a };
                    assert(post[other] == pre[other]);
                    assert(pre[other].eid() != pre[ii].eid());
                    match input@.sku {
                        Option::Some(s) => {
                            assert(!(pre[other].ukey() == s && pre[other].eid() != id));
                            assert(post[ii].ukey() == s);
                        },
                        Option::None => {
                            assert(post[ii].ukey() == pre[ii].ukey());
                            assert(pre[other].ukey() != pre[ii].ukey());
                        },
                    }
                }
            }
            assert forall|a: int, b: int|
                0 <= a < b < post.len() implies (#[trigger] post[a].created()) < (#[trigger] post[b].created()) by {
                assert(pre[a].created() < pre[b].created());
                assert(post[a].created() == pre[a].created());
                assert(post[b].created() == pre[b].created());
            }
            assert forall|j: int| 0 <= j < post.len() implies {
                &&& 0 < (#[trigger] post[j]).created_at
                &&& post[j].created_at <= post[j].updated_at
                &&& post[j].updated_at <= self.clock
                &&& post[j].id < self.next_id
            } by {
                assert(j != ii ==> post[j] == pre[j]);
            }
        }
        Result::Ok(p)
    }

    fn delete(&mut self, id: u128) -> (r: Result<(), RepoError>) {
        match self.index_of(id) {
            Option::Some(i) => {
                self.store.remove(i);
                proof {
                    let pre = old(self).rows();
                    let post = self.rows();
                    let ii = i as int;
                    pre.remove_ensures(ii);
                    assert(post =~= pre.remove(ii));
                    assert forall|j: int| 0 <= j < post.len() implies #[trigger] post[j] == (
                        if j < ii {
                            pre[j]
                        } else {
                            pre[j + 1]
                        }) by {
                        assert(pre.remove(ii)[j] == if j < ii {
                            pre[j]
                        } else {
                            pre[j + 1]
                        });
                    }
                    assert forall|a: int, b: int|
                        0 <= a < b < post.len() implies (#[trigger] post[a].eid()) != (
                    #[trigger] post[b].eid()) && (#[trigger] post[a].ukey()) != (
                    #[trigger] post[b].ukey()) && (#[trigger] post[a].created()) < (
                    #[trigger] post[b].created()) by {
                        let a0 = if a < ii { a } else { a + 1 };
                        let b0 = if b < ii { b } else { b + 1 };
                        assert(post[a] == pre[a0] && post[b] == pre[b0]);
                        assert(pre[a0].eid() != pre[b0].eid());
                        assert(pre[a0].ukey() != pre[b0].ukey());
                        assert(pre[a0].created() < pre[b0].created());
                    }
                    assert forall|j: int| 0 <= j < post.len() implies {
                        &&& 0 < (#[trigger] post[j]).created_at
                        &&& post[j].created_at <= post[j].updated_at
                        &&& post[j].updated_at <= self.clock
                        &&& post[j].id < self.next_id
                    } by {
                        let j0 = if j < ii { j } else { j + 1 };
                        assert(post[j] == pre[j0]);
                    }
                    assert(pre[ii].eid() == id);
                }
                Result::Ok(())
            },
            Option::None => Result::Err(RepoError::NotFound),
        }
    }
}

} // verus!
