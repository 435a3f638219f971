//! Small operations on text that the other modules share.

use vstd::prelude::*;

verus! {

/// Whether two string slices hold the same characters.
pub fn str_eq(a: &str, b: &str) -> (r: bool)
    ensures
        r == (a@ == b@),
{
    let x = String::from_str(a);
    let y = String::from_str(b);
    x == y
}

/// `pat` occurs in `s` starting at index `i`.
pub open spec fn occurs_at(s: Seq<char>, pat: Seq<char>, i: int) -> bool {
    0 <= i && i + pat.len() <= s.len() && s.subrange(i, i + pat.len()) == pat
}

/// Char index of the first occurrence of `pat` in `s`, as `str::find`
/// locates it (there in bytes).
pub fn find_text(s: &str, pat: &str) -> (r: Option<usize>)
    ensures
        match r {
            Some(i) => occurs_at(s@, pat@, i as int) && forall|j: int|
                0 <= j < i ==> !occurs_at(s@, pat@, j),
            None => forall|j: int| !occurs_at(s@, pat@, j),
        },
{
    let n = s.unicode_len();
    let m = pat.unicode_len();
    if m > n {
        return None;
    }
    if m == 0 {
        assert(s@.subrange(0, 0) =~= pat@);
        return Some(0);
    }
    let mut i: usize = 0;
    while i <= n - m
        invariant
            n == s@.len(),
            m == pat@.len(),
            m <= n,
            1 <= m <= n,
            i <= n - m + 1,
            forall|j: int| 0 <= j < i ==> !occurs_at(s@, pat@, j),
        decreases n - m + 1 - i,
    {
        let mut k: usize = 0;
        let mut same = true;
        assert(s@.subrange(i as int, i as int) =~= pat@.take(0));
        while k < m
            invariant
                n == s@.len(),
                m == pat@.len(),
                i + m <= n,
                k <= m,
                same == (s@.subrange(i as int, i + k) =~= pat@.take(k as int)),
            decreases m - k,
        {
            let c = s.get_char(i + k);
            let d = pat.get_char(k);
            proof {
                let a = s@.subrange(i as int, i + k);
                let b = pat@.take(k as int);
                let a2 = s@.subrange(i as int, i + k + 1);
                let b2 = pat@.take(k + 1);
                assert(a2 =~= a.push(c));
                assert(b2 =~= b.push(d));
                if a2 =~= b2 {
                    assert(a =~= a2.drop_last());
                    assert(b =~= b2.drop_last());
                    assert(c == a2.last());
                    assert(d == b2.last());
                }
                if a =~= b && c == d {
                    assert(a2 =~= b2);
                }
            }
            same = same && c == d;
            k = k + 1;
        }
        assert(pat@.take(m as int) =~= pat@);
        if same {
            return Some(i);
        }
        i = i + 1;
    }
    proof {
        assert forall|j: int| !occurs_at(s@, pat@, j) by {
            if j > n - m {
                assert(!(j + pat@.len() <= s@.len()));
            }
        }
    }
    None
}

} // verus!
