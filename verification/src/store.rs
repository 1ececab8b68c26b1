//! The secret store: the per-client record of the currently valid secret and
//! the granted permissions, keyed by client identifier. The store is
//! maintained by an external provisioning process and read-only to the
//! gateway; re-provisioning a client shadows its earlier record.

use vstd::prelude::*;

verus! {

/// A client's provisioning record: the currently valid secret and the
/// permissions the client holds. Absence of a record is a valid state (an
/// unprovisioned or revoked client).
#[derive(Debug)]
pub struct Secret {
    pub client_id: String,
    pub client_secret: String,
    pub permissions: Vec<String>,
}

/// The request-scoped result of successful authentication: who the caller is
/// and what it may do. Never persisted.
#[derive(Debug)]
pub struct AuthenticatedIdentity {
    pub client_id: String,
    pub permissions: Vec<String>,
}

/// The record for `client_id`, newest first.
pub open spec fn store_lookup(records: Seq<Secret>, client_id: Seq<char>) -> Option<Secret>
    decreases records.len(),
{
    if records.len() == 0 {
        None
    } else if records[0].client_id@ == client_id {
        Some(records[0])
    } else {
        store_lookup(records.drop_first(), client_id)
    }
}

/// A store whose first `i` records are not for `client_id` answers the
/// lookup as its remainder does.
proof fn lemma_store_lookup_skip(records: Seq<Secret>, client_id: Seq<char>, i: int)
    requires
        0 <= i <= records.len(),
        forall|j: int| 0 <= j < i ==> records[j].client_id@ != client_id,
    ensures
        store_lookup(records, client_id) == store_lookup(records.skip(i), client_id),
    decreases i,
{
    if i > 0 {
        lemma_store_lookup_skip(records, client_id, i - 1);
        assert(records.skip(i - 1).drop_first() =~= records.skip(i));
    } else {
        assert(records.skip(0) =~= records);
    }
}

/// The key-value store of provisioning records.
pub struct SecretStore {
    records: Vec<Secret>,
}

impl View for SecretStore {
    type V = Seq<Secret>;

    closed spec fn view(&self) -> Seq<Secret> {
        self.records@
    }
}

impl SecretStore {
    /// An empty store: every client is unprovisioned.
    pub fn new() -> (r: SecretStore)
        ensures
            r@ == Seq::<Secret>::empty(),
    {
        SecretStore { records: Vec::new() }
    }

    /// Provisions (or rotates) a client's record. The new record shadows any
    /// earlier one for the same client identifier.
    pub fn put(&mut self, record: Secret)
        ensures
            final(self)@ == seq![record].add(old(self)@),
    {
        self.records.insert(0, record);
        assert(self@ =~= seq![record].add(old(self)@));
    }

    /// The current record for `client_id`, if the client is provisioned.
    pub fn lookup(&self, client_id: &String) -> (r: Option<&Secret>)
        ensures
            match r {
                Some(rec) => store_lookup(self@, client_id@) == Some(*rec),
                None => store_lookup(self@, client_id@) is None,
            },
    {
        let n = self.records.len();
        let mut i: usize = 0;
        while i < n
            invariant
                n == self.records.len(),
                0 <= i <= n,
                forall|j: int| 0 <= j < i ==> self@[j].client_id@ != client_id@,
            decreases n - i,
        {
            if self.records[i].client_id == *client_id {
                proof {
                    lemma_store_lookup_skip(self@, client_id@, i as int);
                    assert(self@.skip(i as int)[0] == self@[i as int]);
                }
                return Some(&self.records[i]);
            }
            i = i + 1;
        }
        proof {
            lemma_store_lookup_skip(self@, client_id@, n as int);
            assert(self@.skip(n as int) =~= Seq::<Secret>::empty());
        }
        None
    }
}

} // verus!
