use vstd::prelude::*;

verus! {

/// The characters of a string, in order.
pub fn chars_of(s: &str) -> (v: Vec<char>)
    ensures
        v@ == s@,
{
    let mut v: Vec<char> = Vec::new();
    let n = s.unicode_len();
    let mut i: usize = 0;
    while i < n
        invariant
            n == s@.len(),
            i <= n,
            v@ == s@.subrange(0, i as int),
        decreases n - i,
    {
        let c = s.get_char(i);
        proof {
            assert(s@.subrange(0, i + 1) =~= s@.subrange(0, i as int).push(c));
        }
        v.push(c);
        i = i + 1;
    }
    proof {
        assert(s@.subrange(0, n as int) =~= s@);
    }
    v
}

/// Whether the characters `c[start..end]` spell `word`.
pub fn spells(c: &Vec<char>, start: usize, end: usize, word: &str) -> (b: bool)
    requires
        start <= end <= c@.len(),
    ensures
        b == (c@.subrange(start as int, end as int) == word@),
{
    let n = word.unicode_len();
    if n != end - start {
        return false;
    }
    let mut k: usize = 0;
    while k < n
        invariant
            n == word@.len(),
            n == end - start,
            start <= end <= c@.len(),
            k <= n,
            forall|t: int| 0 <= t < k ==> c@[start + t] == word@[t],
        decreases n - k,
    {
        if c[start + k] != word.get_char(k) {
            proof {
                assert(c@.subrange(start as int, end as int)[k as int] != word@[k as int]);
            }
            return false;
        }
        k = k + 1;
    }
    proof {
        assert(c@.subrange(start as int, end as int) =~= word@);
    }
    true
}

} // verus!
