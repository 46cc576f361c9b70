use std::collections::HashMap;
use std::sync::Arc;
use vstd::prelude::*;

verus! {

broadcast use vstd::std_specs::hash::group_hash_axioms;

/// What a lookup of `id` in a cache holding `m` gives.
pub open spec fn cached<T>(m: Map<i32, T>, id: i32) -> Option<T> {
    if m.contains_key(id) {
        Some(m[id])
    } else {
        None
    }
}

/// The cache contents after writing each `(id, value)` pair of `s` in order.
pub open spec fn insert_all<T>(m: Map<i32, T>, s: Seq<(i32, T)>) -> Map<i32, T>
    decreases s.len(),
{
    if s.len() == 0 {
        m
    } else {
        insert_all(m, s.drop_last()).insert(s.last().0, s.last().1)
    }
}

/// The cache contents after the results `vs` of fetches of `id` are written
/// in the order in which they arrive.
pub open spec fn store_all<T>(m: Map<i32, T>, id: i32, vs: Seq<T>) -> Map<i32, T>
    decreases vs.len(),
{
    if vs.len() == 0 {
        m
    } else {
        store_all(m, id, vs.drop_last()).insert(id, vs.last())
    }
}

/// Relies on `Arc::clone`: another handle to the same shared value.
#[verifier::external_body]
fn share<T>(a: &Arc<T>) -> (r: Arc<T>)
    ensures
        r == *a,
{
    Arc::clone(a)
}

/// The memoized objects of one resource type, by id. Entries are only ever
/// added or replaced, never removed.
pub struct ObjectCache<T> {
    entries: HashMap<i32, Arc<T>>,
}

impl<T> ObjectCache<T> {
    /// The cached value of each id.
    pub closed spec fn view(&self) -> Map<i32, T> {
        self.entries@.map_values(|a: Arc<T>| *a)
    }

    /// An empty cache.
    pub fn new() -> (r: Self)
        ensures
            r.view() == Map::<i32, T>::empty(),
    {
        ObjectCache { entries: HashMap::new() }
    }

    /// A handle to the value cached for `id`, if any.
    pub fn lookup(&self, id: i32) -> (r: Option<Arc<T>>)
        ensures
            match r {
                Some(h) => cached(self.view(), id) == Some(*h),
                None => cached(self.view(), id) is None,
            },
    {
        proof {
            if self.entries@.contains_key(id) {
                assert(self.view().contains_key(id));
            }
        }
        match self.entries.get(&id) {
            Some(v) => Some(share(v)),
            None => None,
        }
    }

    /// Writes `value` for `id`, replacing an earlier entry, and returns a
    /// handle to it.
    pub fn store(&mut self, id: i32, value: T) -> (r: Arc<T>)
        ensures
            final(self).view() == old(self).view().insert(id, value),
            *r == value,
    {
        let handle = Arc::new(value);
        let kept = share(&handle);
        self.entries.insert(id, handle);
        assert(self.view() =~= old(self).view().insert(id, value));
        kept
    }

    /// Writes each `(id, value)` pair in order; a later pair for an id
    /// replaces an earlier one.
    pub fn store_many(&mut self, objects: Vec<(i32, T)>)
        ensures
            final(self).view() == insert_all(old(self).view(), objects@),
    {
        let mut rest = objects;
        let ghost all = rest@;
        let ghost start = self.view();
        let total: usize = rest.len();
        let mut k: usize = 0;
        while rest.len() > 0
            invariant
                k + rest@.len() == all.len(),
                all.len() == total,
                rest@ == all.skip(k as int),
                self.view() == insert_all(start, all.take(k as int)),
            decreases rest.len(),
        {
            let (id, value) = rest.remove(0);
            proof {
                assert(all.take(k as int + 1).drop_last() =~= all.take(k as int));
                assert(all[k as int] == (id, value));
            }
            self.store(id, value);
            k = k + 1;
            assert(rest@ =~= all.skip(k as int));
        }
        assert(all.take(k as int) =~= all);
    }
}

} // verus!
