//! The cache-aside read path for stored notifications: a read first
//! consults the cache and only falls back to the backing query on a miss,
//! writing the fresh result back under the same TTL. The backing query's
//! outcome is passed in by the caller, and the returned flag says whether
//! it was consulted, so a hit provably leaves the backing store alone.

use vstd::prelude::*;
use crate::cache::{cache_lookup, slots_find, KvCache};
use crate::errors::StorageError;

verus! {

/// A stored notification row, as the read path returns it.
#[derive(Debug)]
pub struct Message {
    pub id: String,
    pub target: String,
    pub message: String,
}

/// Copies one notification row.
fn clone_message(m: &Message) -> (r: Message)
    ensures
        r == *m,
{
    Message { id: m.id.clone(), target: m.target.clone(), message: m.message.clone() }
}

/// Copies a list of notification rows.
fn clone_messages(v: &Vec<Message>) -> (r: Vec<Message>)
    ensures
        r@ == v@,
{
    let mut r: Vec<Message> = Vec::new();
    let mut i: usize = 0;
    let n = v.len();
    while i < n
        invariant
            n == v.len(),
            0 <= i <= n,
            r@ =~= v@.subrange(0, i as int),
        decreases n - i,
    {
        r.push(clone_message(&v[i]));
        proof {
            assert(r@ =~= v@.subrange(0, i as int + 1));
        }
        i = i + 1;
    }
    proof {
        assert(v@.subrange(0, n as int) =~= v@);
    }
    r
}

/// Reads all stored notifications through the cache:
/// - a live cache entry is returned as it is, the backing outcome is not
///   consulted, and the cache is unchanged;
/// - on a miss, the backing query's rows are returned and written back
///   under the same TTL;
/// - a backing failure on a miss is passed through and nothing is cached.
/// The second component reports whether the backing outcome was consulted.
pub fn get_all_notifications(
    cache: &mut KvCache<Vec<Message>>,
    now: u64,
    ttl: u64,
    backend: Result<Vec<Message>, StorageError>,
) -> (r: (Result<Vec<Message>, StorageError>, bool))
    requires
        now + ttl <= u64::MAX,
    ensures
        match cache_lookup(old(cache)@, "messages_cache"@, now) {
            Some(rows) => (r.0 matches Ok(v) && v@ == rows@) && r.1 == false && final(cache)@
                == old(cache)@,
            None => r.1 == true && match backend {
                Ok(fresh) => (r.0 matches Ok(v) && v@ == fresh@) && (forall|t: u64|
                    cache_lookup(final(cache)@, "messages_cache"@, t) == (if t < now + ttl {
                        Some(fresh)
                    } else {
                        None::<Vec<Message>>
                    })) && (forall|k: Seq<char>|
                    k != "messages_cache"@ ==> slots_find(final(cache)@, k) == slots_find(
                        old(cache)@,
                        k,
                    )),
                Err(e) => r.0 == Err::<Vec<Message>, _>(e) && final(cache)@ == old(cache)@,
            },
        },
{
    let key: String = "messages_cache".to_owned();
    let cached = match cache.get_cache(&key, now) {
        Some(rows) => Some(clone_messages(rows)),
        None => None,
    };
    match cached {
        Some(rows) => (Ok(rows), false),
        None => match backend {
            Ok(fresh) => {
                let out = clone_messages(&fresh);
                cache.set_cache(&key, fresh, now, ttl);
                (Ok(out), true)
            },
            Err(e) => (Err(e), true),
        },
    }
}

} // verus!
