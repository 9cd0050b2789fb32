use vstd::prelude::*;
use vstd::string::*;

verus! {

/// `p` is a prefix of `s`.
pub open spec fn is_prefix(p: Seq<char>, s: Seq<char>) -> bool {
    p.len() <= s.len() && s.take(p.len() as int) == p
}

/// Whether `s` starts with `prefix`, decided character by character.
pub fn starts_with_prefix(s: &str, prefix: &str) -> (r: bool)
    ensures
        r == is_prefix(prefix@, s@),
{
    let n = prefix.unicode_len();
    let s_len = s.unicode_len();
    if s_len < n {
        return false;
    }
    let mut i: usize = 0;
    while i < n
        invariant
            0 <= i <= n,
            n == prefix@.len(),
            n <= s@.len(),
            forall|j: int| 0 <= j < i ==> s@[j] == prefix@[j],
        decreases n - i,
    {
        if s.get_char(i) != prefix.get_char(i) {
            assert(s@.take(n as int)[i as int] != prefix@[i as int]);
            return false;
        }
        i += 1;
    }
    assert(s@.take(n as int) =~= prefix@);
    true
}

/// The remainder of `s` after its prefix `prefix`.
pub fn strip_prefix_of(s: &str, prefix: &str) -> (r: String)
    requires
        is_prefix(prefix@, s@),
    ensures
        r@ == s@.skip(prefix@.len() as int),
{
    let n = prefix.unicode_len();
    let len = s.unicode_len();
    let sub = s.substring_char(n, len);
    assert(sub@ =~= s@.skip(n as int));
    String::from_str(sub)
}

} // verus!
