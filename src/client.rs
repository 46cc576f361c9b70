use std::sync::Arc;
use vstd::prelude::*;

use crate::cache::{cached, insert_all, store_all, ObjectCache};
use crate::error::ClientError;
use crate::query::QueryBuilder;
use crate::response::{failure_text, recv_raw, success_status};
use crate::json::json_str_field;
use crate::session::{parse_tokens, Tokens};
use crate::text::{dec_int, signed_decimal};

verus! {

/// The base address of the service.
pub const API_URL: &'static str = "https://api.phira.cn:2925";

/// Path of the current user.
pub const ME_PATH: &'static str = "/me";

/// Path of the login endpoint.
pub const LOGIN_PATH: &'static str = "/login";

/// Path of the registration endpoint.
pub const REGISTER_PATH: &'static str = "/register";

/// Entry point of the client's operations.
pub struct Client;

impl Client {
    /// The full address of `path` on the service.
    pub fn url(path: &str) -> (r: String)
        ensures
            r@ == API_URL@ + path@,
    {
        String::from_str(API_URL).concat(path)
    }

    /// The path of the object `id` in `collection`: `/{collection}/{id}`.
    pub fn object_path(collection: &str, id: i32) -> (r: String)
        ensures
            r@ == seq!['/'] + collection@ + seq!['/'] + dec_int(id as int),
    {
        proof {
            reveal_strlit("/");
        }
        let s = String::from_str("/").concat(collection).concat("/");
        let n = signed_decimal(id as i64);
        s.concat(n.as_str())
    }

    /// The path of the list of `collection`: `/{collection}`.
    pub fn list_path(collection: &str) -> (r: String)
        ensures
            r@ == seq!['/'] + collection@,
    {
        proof {
            reveal_strlit("/");
        }
        String::from_str("/").concat(collection)
    }

    /// The path of the best record for the target `id`.
    pub fn best_record_path(id: i32) -> (r: String)
        ensures
            r@ == "/record/best/"@ + dec_int(id as int),
    {
        proof {
            reveal_strlit("/record/best/");
        }
        let n = signed_decimal(id as i64);
        String::from_str("/record/best/").concat(n.as_str())
    }

    /// A fresh list query for the resource type `T`.
    pub fn query<T>() -> (r: QueryBuilder<T>)
        ensures
            r.wf(),
            r.filters() == Map::<Seq<char>, Seq<char>>::empty(),
            r.page_index() is None,
    {
        QueryBuilder::new()
    }

    /// The cached handle for `id`, if there is one; `None` means the object
    /// has to be fetched.
    pub fn load<T>(cache: &ObjectCache<T>, id: i32) -> (r: Option<Arc<T>>)
        ensures
            match r {
                Some(h) => cached(cache.view(), id) == Some(*h),
                None => cached(cache.view(), id) is None,
            },
    {
        cache.lookup(id)
    }

    /// Records the outcome of fetching `id`: a found object replaces the
    /// cached one and is returned; an absent one is `NotFound` and leaves
    /// the cache alone.
    pub fn fetch<T>(cache: &mut ObjectCache<T>, id: i32, fetched: Option<T>) -> (r: Result<
        Arc<T>,
        ClientError,
    >)
        ensures
            match fetched {
                Some(v) => r matches Ok(h) && *h == v && final(cache).view() == old(
                    cache,
                ).view().insert(id, v),
                None => r matches Err(ClientError::NotFound) && final(cache).view() == old(
                    cache,
                ).view(),
            },
    {
        match fetched {
            Some(v) => Ok(cache.store(id, v)),
            None => Err(ClientError::NotFound),
        }
    }

    /// Caches a batch of objects, each under its own id, in order.
    pub fn cache_objects<T>(cache: &mut ObjectCache<T>, objects: Vec<(i32, T)>)
        ensures
            final(cache).view() == insert_all(old(cache).view(), objects@),
    {
        cache.store_many(objects)
    }

    /// The tokens of a login response with the given status and body.
    pub fn login_response(status: u16, body: &str) -> (r: Result<Tokens, ClientError>)
        ensures
            !success_status(status) ==> (r matches Err(ClientError::Request { message })
                && message@ == failure_text(body@)),
            success_status(status) ==> match (
                json_str_field(body@, "token"@),
                json_str_field(body@, "refreshToken"@),
            ) {
                (Some(t), Some(rt)) => r matches Ok(tk) && tk.token@ == t && tk.refresh_token@ == rt,
                _ => r matches Err(ClientError::MalformedResponse),
            },
    {
        match recv_raw(status, body) {
            Ok(()) => parse_tokens(body),
            Err(e) => Err(e),
        }
    }
}

/// Loading an id twice with no write in between: the first load returns the
/// cached value or, on a miss, the fetched one, which is then cached; the
/// second load finds that same value in the cache.
pub proof fn repeated_load_hits<T>(m: Map<i32, T>, id: i32, fetched: T)
    ensures
        ({
            let first = match cached(m, id) {
                Some(v) => v,
                None => fetched,
            };
            let after = match cached(m, id) {
                Some(_) => m,
                None => m.insert(id, fetched),
            };
            cached(after, id) == Some(first)
        }),
{
}

/// After caching the batch `[a, b]` of objects with distinct ids, loading
/// `a`'s id finds `a` without a fetch.
pub proof fn batch_then_load<T>(m: Map<i32, T>, a: (i32, T), b: (i32, T))
    requires
        a.0 != b.0,
    ensures
        cached(insert_all(m, seq![a, b]), a.0) == Some(a.1),
{
    let s = seq![a, b];
    assert(s.drop_last() =~= seq![a]);
    assert(seq![a].drop_last() =~= Seq::<(i32, T)>::empty());
    assert(insert_all(m, seq![a]) == insert_all(m, Seq::<(i32, T)>::empty()).insert(a.0, a.1));
    assert(insert_all(m, s) == insert_all(m, seq![a]).insert(b.0, b.1));
}

/// However many fetches of `id` complete, and in whatever order, the cache
/// ends holding one of the fetched values whole: the one written last.
pub proof fn fetches_converge<T>(m: Map<i32, T>, id: i32, vs: Seq<T>)
    requires
        vs.len() > 0,
    ensures
        cached(store_all(m, id, vs), id) == Some(vs.last()),
        exists|i: int| 0 <= i < vs.len() && cached(store_all(m, id, vs), id) == Some(#[trigger] vs[i]),
{
    assert(cached(store_all(m, id, vs), id) == Some(vs[vs.len() - 1]));
}

} // verus!
