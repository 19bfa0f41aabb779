//! Byte-sequence helpers the primers are built from: first-occurrence search,
//! concatenation, splicing at an index, and decimal rendering.

use vstd::prelude::*;

verus! {

/// Index of the first occurrence of `b` in `s`, or `s.len()` if `b` does not
/// occur.
pub open spec fn first_index(s: Seq<u8>, b: u8) -> int
    decreases s.len(),
{
    if s.len() == 0 {
        0
    } else if s[0] == b {
        0
    } else {
        1 + first_index(s.drop_first(), b)
    }
}

/// `first_index` points at the first occurrence: nothing before it matches,
/// it lands on a match when there is one, and it is `s.len()` exactly when
/// there is none.
pub proof fn lemma_first_index(s: Seq<u8>, b: u8)
    ensures
        0 <= first_index(s, b) <= s.len(),
        first_index(s, b) < s.len() ==> s[first_index(s, b)] == b,
        forall|j: int| 0 <= j < first_index(s, b) ==> s[j] != b,
        first_index(s, b) == s.len() ==> !s.contains(b),
    decreases s.len(),
{
    if s.len() == 0 {
    } else if s[0] == b {
    } else {
        lemma_first_index(s.drop_first(), b);
        let i = first_index(s, b);
        assert(forall|j: int| 1 <= j < i ==> s[j] == s.drop_first()[j - 1]);
        if i == s.len() {
            assert forall|j: int| 0 <= j < s.len() implies s[j] != b by {
                if j > 0 {
                    assert(s[j] == s.drop_first()[j - 1]);
                }
            }
        }
    }
}

/// Any index with the first-occurrence characterization is `first_index`.
pub proof fn lemma_first_index_unique(s: Seq<u8>, b: u8, i: int)
    requires
        0 <= i <= s.len(),
        forall|j: int| 0 <= j < i ==> s[j] != b,
        i < s.len() ==> s[i] == b,
    ensures
        first_index(s, b) == i,
    decreases s.len(),
{
    if s.len() == 0 {
    } else if s[0] == b {
        assert(i == 0);
    } else {
        assert(i >= 1);
        assert(forall|j: int| 0 <= j < s.drop_first().len() ==> s.drop_first()[j] == s[j + 1]);
        lemma_first_index_unique(s.drop_first(), b, i - 1);
    }
}

/// First index of `b` in `v`, or `v.len()` if `b` does not occur.
pub fn find_byte(v: &Vec<u8>, b: u8) -> (i: usize)
    ensures
        i == first_index(v@, b),
{
    let n = v.len();
    for k in 0..n
        invariant
            n == v@.len(),
            forall|j: int| 0 <= j < k ==> v@[j] != b,
    {
        if v[k] == b {
            proof {
                lemma_first_index_unique(v@, b, k as int);
            }
            return k;
        }
    }
    proof {
        lemma_first_index_unique(v@, b, n as int);
    }
    n
}

/// Whether `b` occurs in `v`.
pub fn contains_byte(v: &Vec<u8>, b: u8) -> (r: bool)
    ensures
        r == v@.contains(b),
{
    let i = find_byte(v, b);
    proof {
        lemma_first_index(v@, b);
    }
    i < v.len()
}

/// Appends a copy of `src` to `dst`.
pub fn push_all(dst: &mut Vec<u8>, src: &Vec<u8>)
    ensures
        final(dst)@ == old(dst)@ + src@,
{
    let n = src.len();
    for k in 0..n
        invariant
            n == src@.len(),
            dst@ == old(dst)@ + src@.subrange(0, k as int),
    {
        dst.push(src[k]);
        proof {
            assert(dst@ =~= old(dst)@ + src@.subrange(0, k + 1));
        }
    }
    proof {
        assert(dst@ =~= old(dst)@ + src@);
    }
}

/// `a[0..at] + ins + a[at..]`: `ins` spliced into `a` at index `at`.
pub fn splice(a: &Vec<u8>, at: usize, ins: &Vec<u8>) -> (r: Vec<u8>)
    requires
        at <= a@.len(),
    ensures
        r@ == a@.subrange(0, at as int) + ins@ + a@.subrange(at as int, a@.len() as int),
{
    let mut r: Vec<u8> = Vec::new();
    for k in 0..at
        invariant
            at <= a@.len(),
            r@ == a@.subrange(0, k as int),
    {
        r.push(a[k]);
        proof {
            assert(r@ =~= a@.subrange(0, k + 1));
        }
    }
    push_all(&mut r, ins);
    let n = a.len();
    for k in at..n
        invariant
            at <= n == a@.len(),
            r@ == a@.subrange(0, at as int) + ins@ + a@.subrange(at as int, k as int),
    {
        r.push(a[k]);
        proof {
            assert(r@ =~= a@.subrange(0, at as int) + ins@ + a@.subrange(at as int, k + 1));
        }
    }
    proof {
        assert(r@ =~= a@.subrange(0, at as int) + ins@ + a@.subrange(at as int, a@.len() as int));
    }
    r
}

/// ASCII decimal digits of `n`, most significant first, no leading zeros
/// (a single `'0'` for zero).
pub open spec fn dec_rep(n: nat) -> Seq<u8>
    decreases n,
{
    if n < 10 {
        seq![(48 + n) as u8]
    } else {
        dec_rep(n / 10).push((48 + n % 10) as u8)
    }
}

/// Renders `n` in ASCII decimal.
pub fn u16_to_dec(n: u16) -> (r: Vec<u8>)
    ensures
        r@ == dec_rep(n as nat),
    decreases n,
{
    if n < 10 {
        let mut v: Vec<u8> = Vec::new();
        v.push(48 + n as u8);
        proof {
            assert(v@ =~= dec_rep(n as nat));
        }
        v
    } else {
        let mut v = u16_to_dec(n / 10);
        v.push(48 + (n % 10) as u8);
        proof {
            assert(v@ =~= dec_rep(n as nat));
        }
        v
    }
}

} // verus!
