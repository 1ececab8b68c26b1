//! Case folding for the case-insensitive comparisons of the gateway:
//! permission labels and header names are matched ignoring case.

use vstd::prelude::*;
use vstd::string::StrSliceExecFns;

verus! {

/// The lowercase folding of a sequence of characters, as computed by
/// `str::to_lowercase`. The folding itself is left uninterpreted; contracts
/// state case-insensitive equality as equality of the folded forms.
pub uninterp spec fn lower_of(s: Seq<char>) -> Seq<char>;

/// Relies on `str::to_lowercase` of std: its result depends on the characters
/// of the receiver alone.
#[verifier::external_body]
pub fn lowercase(s: &str) -> (r: String)
    ensures
        r@ == lower_of(s@),
{
    s.to_lowercase()
}

/// Whether `a` and `b` are the same string up to case.
pub open spec fn eq_ignore_case(a: Seq<char>, b: Seq<char>) -> bool {
    lower_of(a) == lower_of(b)
}

/// Compares two strings for equality ignoring case.
pub fn eq_case_insensitive(a: &str, b: &str) -> (r: bool)
    ensures
        r == eq_ignore_case(a@, b@),
{
    let fa = lowercase(a);
    let fb = lowercase(b);
    fa == fb
}

/// Compares two string slices for exact, case-sensitive equality.
pub fn str_eq(a: &str, b: &str) -> (r: bool)
    ensures
        r == (a@ == b@),
{
    let na = a.unicode_len();
    let nb = b.unicode_len();
    if na != nb {
        return false;
    }
    let mut i: usize = 0;
    while i < na
        invariant
            na == a@.len(),
            nb == b@.len(),
            na == nb,
            0 <= i <= na,
            forall|j: int| 0 <= j < i ==> a@[j] == b@[j],
        decreases na - i,
    {
        if a.get_char(i) != b.get_char(i) {
            return false;
        }
        i = i + 1;
    }
    proof {
        assert(a@ =~= b@);
    }
    true
}

} // verus!
