use vstd::prelude::*;

verus! {

/// How many elements of `s` equal `val`.
pub open spec fn count_of(s: Seq<i32>, val: i32) -> nat
    decreases s.len(),
{
    if s.len() == 0 {
        0
    } else {
        count_of(s.drop_last(), val) + if s.last() == val { 1nat } else { 0nat }
    }
}

proof fn lemma_count_le_len(s: Seq<i32>, val: i32)
    ensures
        count_of(s, val) <= s.len(),
    decreases s.len(),
{
    if s.len() > 0 {
        lemma_count_le_len(s.drop_last(), val);
    }
}

/// Counts the elements of `v` equal to `val`.
pub fn count(v: &Vec<i32>, val: i32) -> (r: usize)
    ensures
        r == count_of(v@, val),
{
    let mut r: usize = 0;
    let mut i: usize = 0;
    while i < v.len()
        invariant
            i <= v@.len(),
            r == count_of(v@.subrange(0, i as int), val),
        decreases v@.len() - i,
    {
        assert(v@.subrange(0, i + 1).drop_last() =~= v@.subrange(0, i as int));
        proof {
            lemma_count_le_len(v@.subrange(0, i as int), val);
        }
        if v[i] == val {
            r = r + 1;
        }
        i = i + 1;
    }
    assert(v@.subrange(0, i as int) =~= v@);
    r
}

} // verus!
