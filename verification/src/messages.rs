//! The compute half of the import-message channel between process
//! instances: a received datagram arrives in a fixed-size, zero-padded
//! buffer, and the path it carries is what remains once the padding is
//! stripped from both ends.

use vstd::prelude::*;

verus! {

/// Index of the first non-zero byte of `s`, or `s.len()` if there is none.
pub open spec fn first_non_nul(s: Seq<u8>) -> int
    decreases s.len(),
{
    if s.len() == 0 {
        0
    } else if s[0] != 0 {
        0
    } else {
        1 + first_non_nul(s.drop_first())
    }
}

/// Index of the last non-zero byte of `s`, or -1 if there is none.
pub open spec fn last_non_nul(s: Seq<u8>) -> int
    decreases s.len(),
{
    if s.len() == 0 {
        -1
    } else if s.last() != 0 {
        s.len() - 1
    } else {
        last_non_nul(s.drop_last())
    }
}

/// What stripping the zero padding from both ends of `s` leaves.
pub open spec fn spec_trim_nuls(s: Seq<u8>) -> Seq<u8> {
    if last_non_nul(s) < first_non_nul(s) {
        Seq::empty()
    } else {
        s.subrange(first_non_nul(s), last_non_nul(s) + 1)
    }
}

proof fn lemma_first_non_nul_bounds(s: Seq<u8>)
    ensures
        0 <= first_non_nul(s) <= s.len(),
        first_non_nul(s) < s.len() ==> s[first_non_nul(s)] != 0,
    decreases s.len(),
{
    if s.len() > 0 && s[0] == 0 {
        lemma_first_non_nul_bounds(s.drop_first());
    }
}

proof fn lemma_last_non_nul_bounds(s: Seq<u8>)
    ensures
        -1 <= last_non_nul(s) < s.len(),
        last_non_nul(s) >= 0 ==> s[last_non_nul(s)] != 0,
    decreases s.len(),
{
    if s.len() > 0 && s.last() == 0 {
        lemma_last_non_nul_bounds(s.drop_last());
    }
}

/// Strips the zero padding a fixed-size message buffer carries around its
/// payload.
pub fn trim_nuls(buffer: &[u8]) -> (r: Vec<u8>)
    ensures
        r@ == spec_trim_nuls(buffer@),
{
    proof {
        lemma_first_non_nul_bounds(buffer@);
        lemma_last_non_nul_bounds(buffer@);
    }
    let n: usize = buffer.len();
    proof {
        assert(buffer@.skip(0) =~= buffer@);
        assert(buffer@.take(n as int) =~= buffer@);
    }
    let mut start: usize = 0;
    while start < n && buffer[start] == 0
        invariant
            start <= n,
            n == buffer@.len(),
            first_non_nul(buffer@) == start + first_non_nul(buffer@.skip(start as int)),
        decreases n - start,
    {
        proof {
            assert(buffer@.skip(start as int).drop_first() =~= buffer@.skip(start + 1));
            assert(buffer@.skip(start as int)[0] == buffer@[start as int]);
        }
        start = start + 1;
    }
    proof {
        if start < n {
            assert(buffer@.skip(start as int)[0] == buffer@[start as int]);
        }
        assert(first_non_nul(buffer@) == start);
    }
    let mut end: usize = n;
    while end > 0 && buffer[end - 1] == 0
        invariant
            end <= n,
            n == buffer@.len(),
            last_non_nul(buffer@) == last_non_nul(buffer@.take(end as int)),
        decreases end,
    {
        proof {
            assert(buffer@.take(end as int).drop_last() =~= buffer@.take(end - 1));
            assert(buffer@.take(end as int).last() == buffer@[end - 1]);
        }
        end = end - 1;
    }
    proof {
        if end > 0 {
            assert(buffer@.take(end as int).last() == buffer@[end - 1]);
        }
        assert(last_non_nul(buffer@) == end - 1);
    }
    let mut r: Vec<u8> = Vec::new();
    if start >= end {
        proof {
            assert(r@ =~= spec_trim_nuls(buffer@));
        }
        return r;
    }
    let mut i: usize = start;
    while i < end
        invariant
            start <= i <= end <= n,
            n == buffer@.len(),
            r@ == buffer@.subrange(start as int, i as int),
        decreases end - i,
    {
        r.push(buffer[i]);
        proof {
            assert(r@ =~= buffer@.subrange(start as int, i + 1));
        }
        i = i + 1;
    }
    proof {
        assert(r@ =~= spec_trim_nuls(buffer@));
    }
    r
}

} // verus!
