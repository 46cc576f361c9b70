use std::marker::PhantomData;
use vstd::prelude::*;

use crate::text::{dec, decimal};

verus! {

/// The filters held by a list of key/value pairs: later pairs overwrite
/// earlier ones with the same key.
pub open spec fn pairs_map(s: Seq<(String, String)>) -> Map<Seq<char>, Seq<char>>
    decreases s.len(),
{
    if s.len() == 0 {
        Map::empty()
    } else {
        pairs_map(s.drop_last()).insert(s.last().0@, s.last().1@)
    }
}

/// No key occurs twice in the list.
pub open spec fn keys_unique(s: Seq<(String, String)>) -> bool {
    forall|i: int, j: int| 0 <= i < j < s.len() ==> s[i].0@ != s[j].0@
}

/// Overwriting the value of a key that stands at `i` acts as a map insert.
proof fn lemma_update_is_insert(s: Seq<(String, String)>, i: int, p: (String, String))
    requires
        keys_unique(s),
        0 <= i < s.len(),
        s[i].0@ == p.0@,
    ensures
        pairs_map(s.update(i, p)) == pairs_map(s).insert(p.0@, p.1@),
        keys_unique(s.update(i, p)),
    decreases s.len(),
{
    let t = s.update(i, p);
    assert(t.drop_last() =~= if i == s.len() - 1 { s.drop_last() } else { s.drop_last().update(i, p) });
    if i == s.len() - 1 {
        assert(pairs_map(t) =~= pairs_map(s).insert(p.0@, p.1@));
    } else {
        lemma_update_is_insert(s.drop_last(), i, p);
        assert(s.last().0@ != p.0@);
        assert(pairs_map(t) =~= pairs_map(s).insert(p.0@, p.1@));
    }
}

/// A key absent from the list is absent from its map.
proof fn lemma_absent_key(s: Seq<(String, String)>, k: Seq<char>)
    requires
        forall|j: int| 0 <= j < s.len() ==> s[j].0@ != k,
    ensures
        !pairs_map(s).contains_key(k),
    decreases s.len(),
{
    if s.len() > 0 {
        lemma_absent_key(s.drop_last(), k);
    }
}

/// Sets `key` to `value` in a list of pairs with unique keys.
fn set_pair(queries: &mut Vec<(String, String)>, key: String, value: String)
    requires
        keys_unique(old(queries)@),
    ensures
        keys_unique(final(queries)@),
        pairs_map(final(queries)@) == pairs_map(old(queries)@).insert(key@, value@),
{
    let mut i: usize = 0;
    while i < queries.len()
        invariant
            0 <= i <= queries.len(),
            queries@ == old(queries)@,
            keys_unique(queries@),
            forall|j: int| 0 <= j < i ==> queries@[j].0@ != key@,
        decreases queries.len() - i,
    {
        if queries[i].0 == key {
            proof {
                lemma_update_is_insert(queries@, i as int, (key, value));
            }
            queries[i] = (key, value);
            return;
        }
        i = i + 1;
    }
    proof {
        lemma_absent_key(queries@, key@);
    }
    queries.push((key, value));
    assert(queries@.drop_last() =~= old(queries)@);
}

/// Accumulates the filters and the page of a paginated list query for the
/// resource type `T`.
pub struct QueryBuilder<T> {
    queries: Vec<(String, String)>,
    page: Option<u64>,
    _phantom: PhantomData<T>,
}

impl<T> QueryBuilder<T> {
    /// The filters set so far, by key.
    pub closed spec fn filters(&self) -> Map<Seq<char>, Seq<char>> {
        pairs_map(self.queries@)
    }

    /// The explicit zero-based page, if one was set.
    pub closed spec fn page_index(&self) -> Option<u64> {
        self.page
    }

    /// The builder's filter list holds each key once.
    pub closed spec fn wf(&self) -> bool {
        keys_unique(self.queries@)
    }

    /// A builder with no filters and no page.
    pub fn new() -> (r: Self)
        ensures
            r.wf(),
            r.filters() == Map::<Seq<char>, Seq<char>>::empty(),
            r.page_index() is None,
    {
        QueryBuilder { queries: Vec::new(), page: None, _phantom: PhantomData }
    }

    /// Sets the filter `key` to `value`, replacing an earlier value.
    pub fn query(self, key: &str, value: &str) -> (r: Self)
        requires
            self.wf(),
        ensures
            r.wf(),
            r.filters() == self.filters().insert(key@, value@),
            r.page_index() == self.page_index(),
    {
        let mut s = self;
        set_pair(&mut s.queries, String::from_str(key), String::from_str(value));
        s
    }

    /// Sets the ordering filter `order`.
    pub fn order(self, order: &str) -> (r: Self)
        requires
            self.wf(),
        ensures
            r.wf(),
            r.filters() == self.filters().insert("order"@, order@),
            r.page_index() == self.page_index(),
    {
        proof {
            reveal_strlit("order");
        }
        self.query("order", order)
    }

    /// Marks the boolean filter `flag` as present, by the value `1`.
    pub fn flag(self, flag: &str) -> (r: Self)
        requires
            self.wf(),
        ensures
            r.wf(),
            r.filters() == self.filters().insert(flag@, "1"@),
            r.page_index() == self.page_index(),
    {
        proof {
            reveal_strlit("1");
        }
        self.query(flag, "1")
    }

    /// Sets the `page_num` filter (page size) to `page_num` in decimal.
    pub fn page_num(self, page_num: u64) -> (r: Self)
        requires
            self.wf(),
        ensures
            r.wf(),
            r.filters() == self.filters().insert("page_num"@, dec(page_num as nat)),
            r.page_index() == self.page_index(),
    {
        proof {
            reveal_strlit("page_num");
        }
        let mut s = self;
        set_pair(&mut s.queries, String::from_str("page_num"), decimal(page_num as u128));
        s
    }

    /// Sets the explicit zero-based page.
    pub fn page(self, page: u64) -> (r: Self)
        requires
            self.wf(),
        ensures
            r.wf(),
            r.filters() == self.filters(),
            r.page_index() == Some(page),
    {
        let mut s = self;
        s.page = Some(page);
        s
    }

    /// The query string pairs sent with the list request: the filters, with
    /// `page` set to the one-based page number (the explicit page, or zero,
    /// plus one). Each key occurs once.
    pub fn wire_query(&self) -> (r: Vec<(String, String)>)
        requires
            self.wf(),
        ensures
            keys_unique(r@),
            pairs_map(r@) == self.filters().insert(
                "page"@,
                dec(
                    (match self.page_index() {
                        Some(p) => p as nat,
                        None => 0nat,
                    }) + 1,
                ),
            ),
    {
        let mut out: Vec<(String, String)> = Vec::new();
        let mut i: usize = 0;
        while i < self.queries.len()
            invariant
                0 <= i <= self.queries.len(),
                out@.len() == i,
                forall|j: int| 0 <= j < i ==> out@[j].0@ == self.queries@[j].0@ && out@[j].1@ == self.queries@[j].1@,
            decreases self.queries.len() - i,
        {
            let k = self.queries[i].0.clone();
            let v = self.queries[i].1.clone();
            out.push((k, v));
            i = i + 1;
        }
        proof {
            lemma_same_pairs(out@, self.queries@);
        }
        let page: u128 = match self.page {
            Some(p) => p as u128,
            None => 0,
        };
        proof {
            reveal_strlit("page");
        }
        set_pair(&mut out, String::from_str("page"), decimal(page + 1));
        out
    }
}

/// Two lists whose pairs have the same keys and values hold the same filters.
proof fn lemma_same_pairs(a: Seq<(String, String)>, b: Seq<(String, String)>)
    requires
        a.len() == b.len(),
        forall|j: int| 0 <= j < a.len() ==> a[j].0@ == b[j].0@ && a[j].1@ == b[j].1@,
    ensures
        pairs_map(a) == pairs_map(b),
        keys_unique(a) == keys_unique(b),
    decreases a.len(),
{
    if a.len() > 0 {
        lemma_same_pairs(a.drop_last(), b.drop_last());
    }
}

} // verus!
