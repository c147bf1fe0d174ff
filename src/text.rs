use vstd::prelude::*;

verus! {

/// Whether `c` is an ASCII decimal digit.
pub open spec fn is_digit(c: char) -> bool {
    '0' <= c && c <= '9'
}

/// Whether `s` names a primitive integer type: `u` or `i`, then either
/// `size` or one or more decimal digits.
pub open spec fn is_int_name(s: Seq<char>) -> bool {
    &&& s.len() >= 2
    &&& (s[0] == 'u' || s[0] == 'i')
    &&& (s.subrange(1, s.len() as int) == seq!['s', 'i', 'z', 'e']
        || forall|k: int| 1 <= k < s.len() ==> #[trigger] is_digit(s[k]))
}

/// Character-wise equality of two string slices.
pub fn str_eq(a: &str, b: &str) -> (r: bool)
    ensures
        r == (a@ == b@),
{
    let n = a.unicode_len();
    if n != b.unicode_len() {
        return false;
    }
    let mut i: usize = 0;
    while i < n
        invariant
            n == a@.len(),
            n == b@.len(),
            i <= n,
            forall|k: int| 0 <= k < i ==> a@[k] == b@[k],
        decreases n - i,
    {
        if a.get_char(i) != b.get_char(i) {
            return false;
        }
        i = i + 1;
    }
    assert(a@ =~= b@);
    true
}

/// Whether `s` names a primitive integer type (`u8`, `i32`, `usize`, ...).
pub fn is_int_ty(s: &str) -> (r: bool)
    ensures
        r == is_int_name(s@),
{
    let n = s.unicode_len();
    if n == 0 {
        return false;
    }
    let c = s.get_char(0);
    if c != 'u' && c != 'i' {
        return false;
    }
    if n == 1 {
        return false;
    }
    if n == 5 {
        let c1 = s.get_char(1);
        let c2 = s.get_char(2);
        let c3 = s.get_char(3);
        let c4 = s.get_char(4);
        if c1 == 's' && c2 == 'i' && c3 == 'z' && c4 == 'e' {
            assert(s@.subrange(1, 5) =~= seq!['s', 'i', 'z', 'e']);
            return true;
        }
        proof {
            if s@.subrange(1, 5) == seq!['s', 'i', 'z', 'e'] {
                assert(s@[1] == s@.subrange(1, 5)[0]);
                assert(s@[2] == s@.subrange(1, 5)[1]);
                assert(s@[3] == s@.subrange(1, 5)[2]);
                assert(s@[4] == s@.subrange(1, 5)[3]);
            }
        }
    }
    assert(s@.subrange(1, n as int) != seq!['s', 'i', 'z', 'e']) by {
        if n != 5 {
            assert(s@.subrange(1, n as int).len() != 4);
        }
    }
    let mut i: usize = 1;
    while i < n
        invariant
            n == s@.len(),
            1 <= i <= n,
            s@.subrange(1, n as int) != seq!['s', 'i', 'z', 'e'],
            forall|k: int| 1 <= k < i ==> #[trigger] is_digit(s@[k]),
        decreases n - i,
    {
        let d = s.get_char(i);
        if d < '0' || d > '9' {
            assert(!is_digit(s@[i as int]));
            return false;
        }
        i = i + 1;
    }
    true
}

} // verus!
