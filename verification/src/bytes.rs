//! Byte-sequence scanning: the searches the multipart framing is defined by.

use vstd::prelude::*;

verus! {

/// The pattern occurs in `d` at position `i`.
pub open spec fn match_at(d: Seq<u8>, pat: Seq<u8>, i: int) -> bool {
    &&& 0 <= i
    &&& i + pat.len() <= d.len()
    &&& d.subrange(i, i + pat.len()) == pat
}

/// Position of the first occurrence of `pat` in `d` at or after `from`.
pub open spec fn find_from(d: Seq<u8>, pat: Seq<u8>, from: nat) -> Option<nat>
    decreases d.len() - from,
{
    if from + pat.len() > d.len() {
        None
    } else if pat.len() == 0 {
        Some(from)
    } else if match_at(d, pat, from as int) {
        Some(from)
    } else {
        find_from(d, pat, (from + 1) as nat)
    }
}

/// What a found position satisfies: it lies at or after `from`, and the
/// pattern occurs there.
pub proof fn lemma_find_from(d: Seq<u8>, pat: Seq<u8>, from: nat)
    ensures
        match find_from(d, pat, from) {
            Some(j) => from <= j && match_at(d, pat, j as int),
            None => true,
        },
    decreases d.len() - from,
{
    if from + pat.len() > d.len() {
    } else if pat.len() == 0 {
        assert(d.subrange(from as int, from as int) =~= pat);
    } else if match_at(d, pat, from as int) {
    } else {
        lemma_find_from(d, pat, (from + 1) as nat);
    }
}

/// A position where the pattern occurs, before which it nowhere occurs, is
/// the position the search finds.
pub proof fn lemma_find_first(d: Seq<u8>, pat: Seq<u8>, from: nat, k: nat)
    requires
        from <= k,
        pat.len() >= 1,
        match_at(d, pat, k as int),
        forall|j: int| from <= j < k ==> !match_at(d, pat, j),
    ensures
        find_from(d, pat, from) == Some(k),
    decreases k - from,
{
    if from < k {
        lemma_find_first(d, pat, (from + 1) as nat, k);
    }
}

/// Compares `pat` against `d` at position `i`.
pub fn bytes_eq_at(d: &Vec<u8>, pat: &Vec<u8>, i: usize) -> (r: bool)
    requires
        i + pat@.len() <= d@.len(),
    ensures
        r == match_at(d@, pat@, i as int),
{
    let n = d.len();
    let mut j: usize = 0;
    while j < pat.len()
        invariant
            j <= pat@.len(),
            i + pat@.len() <= d@.len(),
            n == d@.len(),
            forall|k: int| 0 <= k < j ==> d@[i + k] == pat@[k],
        decreases pat@.len() - j,
    {
        if d[i + j] != pat[j] {
            proof {
                assert(d@.subrange(i as int, i + pat@.len())[j as int] == d@[i + j]);
            }
            return false;
        }
        j += 1;
    }
    proof {
        assert(d@.subrange(i as int, i + pat@.len()) =~= pat@);
    }
    true
}

/// Finds the first occurrence of `pat` in `d` at or after `from`.
pub fn find_sub(d: &Vec<u8>, pat: &Vec<u8>, from: usize) -> (r: Option<usize>)
    requires
        pat@.len() >= 1,
    ensures
        match r {
            Some(j) => find_from(d@, pat@, from as nat) == Some(j as nat),
            None => find_from(d@, pat@, from as nat) is None,
        },
{
    if pat.len() > d.len() || from > d.len() - pat.len() {
        return None;
    }
    let last = d.len() - pat.len();
    let mut i: usize = from;
    while i <= last
        invariant
            from <= i <= last + 1,
            last == d@.len() - pat@.len(),
            last < usize::MAX,
            pat@.len() >= 1,
            find_from(d@, pat@, from as nat) == find_from(d@, pat@, i as nat),
        decreases last + 1 - i,
    {
        if bytes_eq_at(d, pat, i) {
            return Some(i);
        }
        i += 1;
    }
    None
}

/// Copies `d[start..end]` out.
pub fn sub_vec(d: &Vec<u8>, start: usize, end: usize) -> (r: Vec<u8>)
    requires
        start <= end <= d@.len(),
    ensures
        r@ == d@.subrange(start as int, end as int),
{
    let mut r: Vec<u8> = Vec::new();
    let mut k: usize = start;
    while k < end
        invariant
            start <= k <= end <= d@.len(),
            r@ == d@.subrange(start as int, k as int),
        decreases end - k,
    {
        r.push(d[k]);
        proof {
            assert(d@.subrange(start as int, k + 1) =~= d@.subrange(start as int, k as int).push(
                d@[k as int],
            ));
        }
        k += 1;
    }
    r
}

/// Appends a copy of `src` to `dst`.
pub fn push_bytes(dst: &mut Vec<u8>, src: &Vec<u8>)
    ensures
        final(dst)@ == old(dst)@ + src@,
{
    let mut k: usize = 0;
    while k < src.len()
        invariant
            k <= src@.len(),
            dst@ == old(dst)@ + src@.take(k as int),
        decreases src@.len() - k,
    {
        dst.push(src[k]);
        proof {
            assert(old(dst)@ + src@.take(k + 1) =~= (old(dst)@ + src@.take(k as int)).push(
                src@[k as int],
            ));
        }
        k += 1;
    }
    proof {
        assert(src@.take(src@.len() as int) =~= src@);
    }
}

} // verus!
