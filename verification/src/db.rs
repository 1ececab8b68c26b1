//! Row types of the backing database, as the read path hands them out.

use vstd::prelude::*;

verus! {

/// A stored user row.
#[derive(Debug)]
pub struct User {
    pub id: String,
    pub id_hash: String,
    pub display_name: String,
}

} // verus!
