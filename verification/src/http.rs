//! The slice of an HTTP request that the gateway reads: the verb and the
//! header list. Header names are matched case-insensitively, first match
//! winning, as the surrounding request layer does.

use vstd::prelude::*;
use crate::fold::{eq_case_insensitive, eq_ignore_case};

verus! {

/// The HTTP verb of an inbound request. Verbs beyond the four the gateway
/// maps to permissions are collapsed into `Other`.
#[derive(Clone, Copy, Debug, PartialEq, Eq, Structural)]
pub enum Method {
    Get,
    Post,
    Put,
    Delete,
    Other,
}

/// The value of the first header whose name equals `name` ignoring case, if
/// any.
pub open spec fn header_value(
    pairs: Seq<(Seq<char>, Seq<char>)>,
    name: Seq<char>,
) -> Option<Seq<char>>
    decreases pairs.len(),
{
    if pairs.len() == 0 {
        None
    } else if eq_ignore_case(pairs[0].0, name) {
        Some(pairs[0].1)
    } else {
        header_value(pairs.drop_first(), name)
    }
}

/// Searching headers that hold no match for `name` among their first `i`
/// entries finds the same value as searching from entry `i` on.
proof fn lemma_header_value_skip(pairs: Seq<(Seq<char>, Seq<char>)>, name: Seq<char>, i: int)
    requires
        0 <= i <= pairs.len(),
        forall|j: int| 0 <= j < i ==> !eq_ignore_case(pairs[j].0, name),
    ensures
        header_value(pairs, name) == header_value(pairs.skip(i), name),
    decreases i,
{
    if i > 0 {
        lemma_header_value_skip(pairs, name, i - 1);
        assert(pairs.skip(i - 1).drop_first() =~= pairs.skip(i));
    } else {
        assert(pairs.skip(0) =~= pairs);
    }
}

/// The header list of a request.
pub struct Headers {
    pairs: Vec<(String, String)>,
}

impl View for Headers {
    type V = Seq<(Seq<char>, Seq<char>)>;

    closed spec fn view(&self) -> Seq<(Seq<char>, Seq<char>)> {
        self.pairs.deep_view()
    }
}

impl Headers {
    /// An empty header list.
    pub fn new() -> (r: Headers)
        ensures
            r@ == Seq::<(Seq<char>, Seq<char>)>::empty(),
    {
        Headers { pairs: Vec::new() }
    }

    /// Appends a header.
    pub fn push(&mut self, name: String, value: String)
        ensures
            final(self)@ == old(self)@.push((name@, value@)),
    {
        self.pairs.push((name, value));
        assert(self@ =~= old(self)@.push((name@, value@)));
    }

    /// The value of the header called `name` (ignoring case), if present.
    pub fn get(&self, name: &str) -> (r: Option<String>)
        ensures
            match r {
                Some(v) => header_value(self@, name@) == Some(v@),
                None => header_value(self@, name@) is None,
            },
    {
        let n = self.pairs.len();
        let mut i: usize = 0;
        while i < n
            invariant
                n == self.pairs.len(),
                0 <= i <= n,
                forall|j: int| 0 <= j < i ==> !eq_ignore_case(self@[j].0, name@),
            decreases n - i,
        {
            let pair = &self.pairs[i];
            if eq_case_insensitive(pair.0.as_str(), name) {
                proof {
                    lemma_header_value_skip(self@, name@, i as int);
                    assert(self@.skip(i as int)[0] == self@[i as int]);
                }
                return Some(pair.1.clone());
            }
            i = i + 1;
        }
        proof {
            lemma_header_value_skip(self@, name@, n as int);
            assert(self@.skip(n as int) =~= Seq::<(Seq<char>, Seq<char>)>::empty());
        }
        None
    }
}

} // verus!
