//! Reads over the key-value message store: a generic keyed lookup, and the
//! per-day message list stored under a date-derived key, where an absent
//! entry means "no messages that day" rather than a failure.

use vstd::prelude::*;
use vstd::string::StringExecFns;
use crate::cache::{cache_lookup, KvCache};
use crate::errors::StorageError;

verus! {

/// A stored message row of the key-value store, grouped by date.
#[derive(Debug)]
pub struct Message {
    pub id: String,
    pub date: String,
    pub message: String,
}

/// Copies one stored message row.
fn clone_message(m: &Message) -> (r: Message)
    ensures
        r == *m,
{
    Message { id: m.id.clone(), date: m.date.clone(), message: m.message.clone() }
}

/// Copies a list of stored message rows.
fn clone_messages(v: &Vec<Message>) -> (r: Vec<Message>)
    ensures
        r@ == v@,
{
    let mut r: Vec<Message> = Vec::new();
    let mut i: usize = 0;
    let n = v.len();
    while i < n
        invariant
            n == v.len(),
            0 <= i <= n,
            r@ =~= v@.subrange(0, i as int),
        decreases n - i,
    {
        r.push(clone_message(&v[i]));
        proof {
            assert(r@ =~= v@.subrange(0, i as int + 1));
        }
        i = i + 1;
    }
    proof {
        assert(v@.subrange(0, n as int) =~= v@);
    }
    r
}

/// The value stored under `key` in an optionally bound store, live at
/// `now`: `None` when the store binding is absent, the key unknown, or the
/// entry lapsed.
pub fn get_json<'a, V>(store: Option<&'a KvCache<V>>, key: &String, now: u64) -> (r: Option<
    &'a V,
>)
    ensures
        match store {
            None => r is None,
            Some(s) => match r {
                Some(v) => cache_lookup(s@, key@, now) == Some(*v),
                None => cache_lookup(s@, key@, now) is None,
            },
        },
{
    match store {
        None => None,
        Some(s) => s.get_cache(key, now),
    }
}

/// The storage key under which the messages of one day live.
pub open spec fn spec_date_key(date: Seq<char>) -> Seq<char> {
    "messages-"@ + date
}

/// The messages stored for the day named by `date_string`: an absent or
/// lapsed entry yields the empty list, not an error; only an unbound store
/// is a failure.
pub fn get_messages_with_date(
    store: Option<&KvCache<Vec<Message>>>,
    date_string: &String,
    now: u64,
) -> (r: Result<Vec<Message>, StorageError>)
    ensures
        match store {
            None => r == Err::<Vec<Message>, _>(StorageError::KvStorageNotFound),
            Some(s) => match cache_lookup(s@, spec_date_key(date_string@), now) {
                Some(rows) => r matches Ok(v) && v@ == rows@,
                None => r matches Ok(v) && v@ == Seq::<Message>::empty(),
            },
        },
{
    let store = match store {
        None => {
            return Err(StorageError::KvStorageNotFound);
        },
        Some(s) => s,
    };
    let mut key: String = "messages-".to_owned();
    key.append(date_string.as_str());
    match store.get_cache(&key, now) {
        Some(rows) => Ok(clone_messages(rows)),
        None => Ok(Vec::new()),
    }
}

} // verus!
