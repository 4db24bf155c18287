//! Counting stored votes by choice.
use vstd::prelude::*;

verus! {

/// How many of `choices` equal `c`.
pub open spec fn count_of(choices: Seq<String>, c: Seq<char>) -> nat
    decreases choices.len(),
{
    if choices.len() == 0 {
        0
    } else {
        count_of(choices.drop_last(), c) + if choices.last()@ == c {
            1nat
        } else {
            0nat
        }
    }
}

/// Some vote names choice `c`.
pub open spec fn occurs_in(choices: Seq<String>, c: Seq<char>) -> bool {
    exists|k: int| 0 <= k < choices.len() && #[trigger] choices[k]@ == c
}

/// `r` is the tally of `choices`: one entry per distinct choice, none for a
/// choice that no vote names, each with the number of votes for it.
pub open spec fn is_tally(r: Seq<(String, usize)>, choices: Seq<String>) -> bool {
    &&& forall|i: int, j: int|
        0 <= i < r.len() && 0 <= j < r.len() && i != j ==> #[trigger] r[i].0@ != #[trigger] r[j].0@
    &&& forall|i: int| 0 <= i < r.len() ==> #[trigger] r[i].1 == count_of(choices, r[i].0@)
    &&& forall|i: int| 0 <= i < r.len() ==> #[trigger] r[i].1 > 0
    &&& forall|k: int|
        0 <= k < choices.len() ==> exists|i: int| 0 <= i < r.len() && #[trigger] r[i].0@ == #[trigger] choices[k]@
}

proof fn lemma_count_le(choices: Seq<String>, c: Seq<char>)
    ensures
        count_of(choices, c) <= choices.len(),
    decreases choices.len(),
{
    if choices.len() > 0 {
        lemma_count_le(choices.drop_last(), c);
    }
}

/// Groups the choices of the stored votes and counts each group, in the
/// order in which each choice first occurs.
pub fn tally(choices: &Vec<String>) -> (r: Vec<(String, usize)>)
    ensures
        is_tally(r@, choices@),
        forall|i: int| 0 <= i < r@.len() ==> occurs_in(choices@, #[trigger] r@[i].0@),
        choices@.len() == 0 ==> r@.len() == 0,
{
    let mut out: Vec<(String, usize)> = Vec::new();
    let mut i: usize = 0;
    while i < choices.len()
        invariant
            i <= choices@.len(),
            is_tally(out@, choices@.take(i as int)),
        decreases choices@.len() - i,
    {
        let c = &choices[i];
        let ghost before = out@;
        let ghost prefix = choices@.take(i as int);
        let ghost next = choices@.take(i + 1);
        proof {
            assert(next.drop_last() =~= prefix);
            assert(next.last() == *c);
        }
        let mut j: usize = 0;
        while j < out.len()
            invariant
                j <= out@.len(),
                out@ == before,
                forall|k: int| 0 <= k < j ==> (#[trigger] out@[k]).0@ != c@,
            ensures
                j <= out@.len(),
                out@ == before,
                forall|k: int| 0 <= k < j ==> (#[trigger] out@[k]).0@ != c@,
                j < out@.len() ==> out@[j as int].0@ == c@,
            decreases out@.len() - j,
        {
            if out[j].0 == *c {
                break;
            }
            j = j + 1;
        }
        if j < out.len() {
            let n = out[j].1;
            proof {
                lemma_count_le(prefix, c@);
                assert(n == count_of(prefix, c@));
            }
            let key = out[j].0.clone();
            out.set(j, (key, n + 1));
            proof {
                assert forall|k: int| 0 <= k < out@.len() implies #[trigger] out@[k].1 == count_of(
                    next,
                    out@[k].0@,
                ) by {
                    assert(before[k].1 == count_of(prefix, before[k].0@));
                    if k != j {
                        assert(before[k].0@ != before[j as int].0@);
                        assert(out@[k] == before[k]);
                    }
                }
                assert forall|k: int| 0 <= k < next.len() implies exists|m: int|
                    0 <= m < out@.len() && #[trigger] out@[m].0@ == #[trigger] next[k]@ by {
                    if k < i {
                        assert(next[k] == prefix[k]);
                        let m = choose|m: int| 0 <= m < before.len() && #[trigger] before[m].0@ == #[trigger] prefix[k]@;
                        assert(out@[m].0@ == next[k]@);
                    } else {
                        assert(out@[j as int].0@ == next[k]@);
                    }
                }
                assert forall|a: int, b: int|
                    0 <= a < out@.len() && 0 <= b < out@.len() && a != b implies #[trigger] out@[a].0@
                    != #[trigger] out@[b].0@ by {
                    assert(before[a].0@ != before[b].0@);
                }
            }
        } else {
            let key = c.clone();
            out.push((key, 1));
            proof {
                assert forall|k: int| 0 <= k < out@.len() implies #[trigger] out@[k].1 == count_of(
                    next,
                    out@[k].0@,
                ) by {
                    if k < before.len() {
                        assert(out@[k] == before[k]);
                    } else {
                        assert(count_of(prefix, c@) == 0) by {
                            if count_of(prefix, c@) > 0 {
                                lemma_count_pos_member(prefix, c@);
                                let q = choose|q: int| 0 <= q < prefix.len() && prefix[q]@ == c@;
                                let m = choose|m: int| 0 <= m < before.len() && #[trigger] before[m].0@ == #[trigger] prefix[q]@;
                                assert(out@[m].0@ == c@);
                            }
                        }
                    }
                }
                assert forall|k: int| 0 <= k < next.len() implies exists|m: int|
                    0 <= m < out@.len() && #[trigger] out@[m].0@ == #[trigger] next[k]@ by {
                    if k < i {
                        assert(next[k] == prefix[k]);
                        let m = choose|m: int| 0 <= m < before.len() && #[trigger] before[m].0@ == #[trigger] prefix[k]@;
                        assert(out@[m].0@ == next[k]@);
                    } else {
                        assert(out@[before.len() as int].0@ == next[k]@);
                    }
                }
                assert forall|a: int, b: int|
                    0 <= a < out@.len() && 0 <= b < out@.len() && a != b implies #[trigger] out@[a].0@
                    != #[trigger] out@[b].0@ by {
                    if a < before.len() && b < before.len() {
                        assert(before[a].0@ != before[b].0@);
                    } else if a < before.len() {
                        assert(out@[a] == before[a]);
                    } else {
                        assert(out@[b] == before[b]);
                    }
                }
                assert forall|k: int| 0 <= k < out@.len() implies #[trigger] out@[k].1 > 0 by {
                    if k < before.len() {
                        assert(out@[k] == before[k]);
                    }
                }
            }
        }
        i = i + 1;
    }
    assert(choices@.take(i as int) =~= choices@);
    proof {
        assert forall|m: int| 0 <= m < out@.len() implies occurs_in(choices@, #[trigger] out@[m].0@) by {
            assert(out@[m].1 > 0);
            assert(out@[m].1 == count_of(choices@, out@[m].0@));
            lemma_count_pos_member(choices@, out@[m].0@);
            let q = choose|q: int| 0 <= q < choices@.len() && choices@[q]@ == out@[m].0@;
            assert(out@[m].0@ == choices@[q]@);
        }
        if choices@.len() == 0 && out@.len() > 0 {
            assert(out@[0].1 > 0);
        }
    }
    out
}

proof fn lemma_count_pos_member(choices: Seq<String>, c: Seq<char>)
    requires
        count_of(choices, c) > 0,
    ensures
        exists|q: int| 0 <= q < choices.len() && choices[q]@ == c,
    decreases choices.len(),
{
    if choices.last()@ == c {
        assert(choices[choices.len() - 1]@ == c);
    } else {
        lemma_count_pos_member(choices.drop_last(), c);
        let q = choose|q: int| 0 <= q < choices.len() - 1 && choices.drop_last()[q]@ == c;
        assert(choices[q] == choices.drop_last()[q]);
    }
}

} // verus!
