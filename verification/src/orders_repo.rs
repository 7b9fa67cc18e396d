//! In-memory order store: a verified implementer of the order port.
//!
//! Identical in structure to the user store, except that orders carry no
//! unique business field, so neither `create` nor `update` can conflict.
//! The referenced `user_id` is stored as given: no cascade or referential
//! check is enforced here, matching the port contract.

use crate::domain::{Order, OrderView};
use crate::model::{creation_sorted, has_id, ids_distinct, Entity};
use crate::ports::{NewOrder, OrderRepository, RepoError, UpdateOrder};
use vstd::prelude::*;

verus! {

/// An order store backed by process memory.
pub struct MemOrderRepository {
    store: Vec<Order>,
    next_id: u128,
    clock: i64,
}

impl MemOrderRepository {
    /// The stored records as their models, in vector (creation) order.
    closed spec fn rows(&self) -> Seq<OrderView> {
        self.store@.map_values(|o: Order| o@)
    }

    /// Timestamps never pass the clock, identifiers never reach the counter,
    /// and identifiers stay distinct.
    closed spec fn wf(&self) -> bool {
        let s = self.rows();
        &&& 0 <= self.clock
        &&& 1 <= self.next_id
        &&& ids_distinct(s)
        &&& creation_sorted(s)
        &&& forall|i: int|
            0 <= i < s.len() ==> {
                &&& 0 < (#[trigger] s[i]).created_at
                &&& s[i].created_at <= s[i].updated_at
                &&& s[i].updated_at <= self.clock
                &&& s[i].id < self.next_id
            }
    }

    /// An empty store.
    pub fn new() -> (r: Self)
        ensures
            r.inv(),
            r.orders() == Seq::<OrderView>::empty(),
            r.can_allocate(),
    {
        let r = MemOrderRepository { store: Vec::new(), next_id: 1, clock: 0 };
        proof {
            assert(r.rows() =~= Seq::<OrderView>::empty());
        }
        r
    }

    /// The index of the record with identifier `id`, if any record holds it.
    fn index_of(&self, id: u128) -> (r: Option<usize>)
        ensures
            match r {
                Option::Some(i) => i < self.rows().len() && self.rows()[i as int].id == id
                    && has_id(self.rows(), id),
                Option::None => !has_id(self.rows(), id),
            },
    {
        let n = self.store.len();
        let mut k: usize = 0;
        while k < n
            invariant
                k <= n,
                n == self.store.len(),
                forall|j: int| 0 <= j < k ==> (#[trigger] self.rows()[j]).id != id,
            decreases n - k,
        {
            if self.store[k].id == id {
                proof {
                    assert(self.rows()[k as int].eid() == id);
                }
                return Option::Some(k);
            }
            k = k + 1;
        }
        proof {
            assert forall|j: int| 0 <= j < self.rows().len() implies (#[trigger] self.rows()[j]).eid()
                != id by {
                assert(self.rows()[j].id != id);
            }
        }
        Option::None
    }
}

impl OrderRepository for MemOrderRepository {
    closed spec fn inv(&self) -> bool {
        self.wf()
    }

    closed spec fn orders(&self) -> Seq<OrderView> {
        self.rows()
    }

    closed spec fn can_allocate(&self) -> bool {
        self.next_id < u128::MAX && self.clock < i64::MAX
    }

    proof fn inv_properties(&self) {
    }

    fn create(&mut self, input: NewOrder) -> (r: Result<Order, RepoError>) {
        if self.next_id == u128::MAX || self.clock == i64::MAX {
            return Result::Err(RepoError::Unexpected("allocation exhausted".to_string()));
        }
        let now = self.clock + 1;
        let id = self.next_id;
        self.clock = now;
        self.next_id = id + 1;
        let o = Order {
            id,
            user_id: input.user_id,
            status: input.status,
            total_cents: input.total_cents,
            created_at: now,
            updated_at: now,
        };
        let stored = o.clone();
        self.store.push(stored);
        proof {
            let pre = old(self).rows();
            assert(self.rows() =~= pre.push(o@));
            assert forall|j: int| 0 <= j < pre.len() implies (#[trigger] pre[j]).eid() != o@.eid() by {
                assert(pre[j].id < id);
            }
        }
        Result::Ok(o)
    }

    fn list(&self) -> (r: Result<Vec<Order>, RepoError>) {
        let mut out: Vec<Order> = Vec::new();
        let n = self.store.len();
        let mut k = n;
        while k > 0
            invariant
                k <= n,
                n == self.store.len(),
                out@.len() == n - k,
                forall|m: int|
                    0 <= m < out@.len() ==> (#[trigger] out@[m])@ == self.rows()[n - 1 - m],
            decreases k,
        {
            k = k - 1;
            out.push(self.store[k].clone());
        }
        proof {
            assert(out@.map_values(|o: Order| o@) =~= self.rows().reverse());
        }
        Result::Ok(out)
    }

    fn get(&self, id: u128) -> (r: Result<Order, RepoError>) {
        match self.index_of(id) {
            Option::Some(i) => {
                let o = self.store[i].clone();
                proof {
                    assert(self.rows().contains(o@)) by {
                        assert(self.rows()[i as int] == o@);
                    }
                }
                Result::Ok(o)
            },
            Option::None => Result::Err(RepoError::NotFound),
        }
    }

    fn update(&mut self, id: u128, input: UpdateOrder) -> (r: Result<Order, RepoError>) {
        let i = match self.index_of(id) {
            Option::Some(i) => i,
            Option::None => {
                return Result::Err(RepoError::NotFound);
            },
        };
        if self.next_id == u128::MAX || self.clock == i64::MAX {
            return Result::Err(RepoError::Unexpected("allocation exhausted".to_string()));
        }
        let status = match input.status {
            Option::Some(s) => s,
            Option::None => self.store[i].status.clone(),
        };
        let total_cents = match input.total_cents {
            Option::Some(t) => t,
            Option::None => self.store[i].total_cents,
        };
        let now = self.clock + 1;
        self.clock = now;
        let o = Order {
            id: self.store[i].id,
            user_id: self.store[i].user_id,
            status,
            total_cents,
            created_at: self.store[i].created_at,
            updated_at: now,
        };
        let stored = o.clone();
        self.store[i] = stored;
        proof {
            let pre = old(self).rows();
            let post = self.rows();
            let ii = i as int;
            assert(post =~= pre.update(ii, o@));
            assert(pre[ii].eid() == id);
            assert(pre[ii].updated_at < o@.updated_at);
            assert(o@ == crate::ports::order_patched(pre[ii], input@, o@.updated_at));
            assert forall|a: int, b: int|
                0 <= a < b < post.len() implies (#[trigger] post[a].eid()) != (#[trigger] post[b].eid()) by {
                assert(pre[a].eid() != pre[b].eid());
                assert(a != ii ==> post[a] == pre[a]);
                assert(b != ii ==> post[b] == pre[b]);
            }
            assert forall|a: int, b: int|
                0 <= a < b < post.len() implies (#[trigger] post[a].created()) < (#[trigger] post[b].created()) by {
                assert(pre[a].created() < pre[b].created());
                assert(post[a].created() == pre[a].created());
                assert(post[b].created() == pre[b].created());
            }
            assert forall|j: int| 0 <= j < post.len() implies {
                &&& 0 < (#[trigger] post[j]).created_at
                &&& post[j].created_at <= post[j].updated_at
                &&& post[j].updated_at <= self.clock
                &&& post[j].id < self.next_id
            } by {
                assert(j != ii ==> post[j] == pre[j]);
            }
        }
        Result::Ok(o)
    }

    fn delete(&mut self, id: u128) -> (r: Result<(), RepoError>) {
        match self.index_of(id) {
            Option::Some(i) => {
                self.store.remove(i);
                proof {
                    let pre = old(self).rows();
                    let post = self.rows();
                    let ii = i as int;
                    pre.remove_ensures(ii);
                    assert(post =~= pre.remove(ii));
                    assert forall|j: int| 0 <= j < post.len() implies #[trigger] post[j] == (
                        if j < ii {
                            pre[j]
                        } else {
                            pre[j + 1]
                        }) by {
                        assert(pre.remove(ii)[j] == if j < ii {
                            pre[j]
                        } else {
                            pre[j + 1]
                        });
                    }
                    assert forall|a: int, b: int|
                        0 <= a < b < post.len() implies (#[trigger] post[a].eid()) != (
                    #[trigger] post[b].eid()) && (#[trigger] post[a].created()) < (
                    #[trigger] post[b].created()) by {
                        let a0 = if a < ii { a } else { a + 1 };
                        let b0 = if b < ii { b } else { b + 1 };
                        assert(post[a] == pre[a0] && post[b] == pre[b0]);
                        assert(pre[a0].eid() != pre[b0].eid());
                        assert(pre[a0].created() < pre[b0].created());
                    }
                    assert forall|j: int| 0 <= j < post.len() implies {
                        &&& 0 < (#[trigger] post[j]).created_at
                        &&& post[j].created_at <= post[j].updated_at
                        &&& post[j].updated_at <= self.clock
                        &&& post[j].id < self.next_id
                    } by {
                        let j0 = if j < ii { j } else { j + 1 };
                        assert(post[j] == pre[j0]);
                    }
                    assert(pre[ii].eid() == id);
                }
                Result::Ok(())
            },
            Option::None => Result::Err(RepoError::NotFound),
        }
    }
}

} // verus!
