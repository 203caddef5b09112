//! Small verified helpers on text that the wire rules are written with.

use vstd::prelude::*;

use crate::catalog::ascii_lower_char;

verus! {

/// Whether two pieces of text hold the same characters.
pub fn same_text(a: &str, b: &str) -> (same: bool)
    ensures
        same == (a@ == b@),
{
    let n = a.unicode_len();
    if n != b.unicode_len() {
        return false;
    }
    let mut i: usize = 0;
    while i < n
        invariant
            n == a@.len(),
            n == b@.len(),
            i <= n,
            forall|j: int| 0 <= j < i ==> a@[j] == b@[j],
        decreases n - i,
    {
        if a.get_char(i) != b.get_char(i) {
            return false;
        }
        i = i + 1;
    }
    assert(a@ =~= b@);
    true
}

/// An owned copy of a piece of text.
pub fn owned_text(s: &str) -> (owned: String)
    ensures
        owned@ == s@,
{
    s.to_owned()
}

/// The snake_case form of the rest of a CamelCase name: each uppercase ASCII
/// letter becomes an underscore followed by its lowercase; every other
/// character stays.
pub open spec fn snake_case_rest(name: Seq<char>) -> Seq<char>
    decreases name.len(),
{
    if name.len() == 0 {
        Seq::empty()
    } else {
        let c = name[0];
        (if 'A' <= c && c <= 'Z' {
            seq!['_', ascii_lower_char(c)]
        } else {
            seq![c]
        }) + snake_case_rest(name.drop_first())
    }
}

/// The snake_case form of a CamelCase name, as serde's
/// `rename_all = "snake_case"` spells a variant: the first letter lowercased,
/// then an underscore before each later uppercase letter, which is
/// lowercased. For example `"UnsupportedGrantType"` gives
/// `"unsupported_grant_type"`.
pub open spec fn snake_case(name: Seq<char>) -> Seq<char> {
    if name.len() == 0 {
        Seq::empty()
    } else {
        seq![ascii_lower_char(name[0])] + snake_case_rest(name.drop_first())
    }
}

} // verus!
