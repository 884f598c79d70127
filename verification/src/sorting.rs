//! Sorting a list of identifiers and dropping what occurs twice.
use vstd::prelude::*;

verus! {

/// Every element is smaller than the one behind it.
pub open spec fn strictly_ascending(s: Seq<u32>) -> bool {
    forall|i: int, j: int| 0 <= i < j < s.len() ==> s[i] < s[j]
}

/// Sorts `list` in ascending order and keeps one of each value.
pub fn sort_dedup(list: &mut Vec<u32>)
    ensures
        strictly_ascending(final(list)@),
        forall|x: u32| final(list)@.contains(x) <==> old(list)@.contains(x),
{
    let mut out: Vec<u32> = Vec::new();
    let mut i: usize = 0;
    while i < list.len()
        invariant
            i <= list@.len(),
            list@ == old(list)@,
            strictly_ascending(out@),
            forall|x: u32| out@.contains(x) <==> list@.subrange(0, i as int).contains(x),
        decreases list@.len() - i,
    {
        let item = list[i];
        let mut pos: usize = 0;
        while pos < out.len() && out[pos] < item
            invariant
                pos <= out@.len(),
                strictly_ascending(out@),
                forall|k: int| 0 <= k < pos ==> out@[k] < item,
            decreases out@.len() - pos,
        {
            pos += 1;
        }
        let ghost before = out@;
        let ghost seen = list@.subrange(0, i as int);
        let ghost next = list@.subrange(0, i as int + 1);
        assert(next =~= seen.push(item));
        assert(forall|x: u32| before.contains(x) <==> seen.contains(x));
        if pos < out.len() && out[pos] == item {
            assert forall|x: u32| out@.contains(x) <==> next.contains(x) by {
                if next.contains(x) {
                    let k = choose|k: int| 0 <= k < next.len() && next[k] == x;
                    if k < seen.len() {
                        assert(seen[k] == x);
                        assert(seen.contains(x));
                    } else {
                        assert(out@[pos as int] == x);
                    }
                }
                if out@.contains(x) {
                    let k = choose|k: int| 0 <= k < seen.len() && seen[k] == x;
                    assert(next[k] == x);
                }
            }
        } else {
            out.insert(pos, item);
            assert(out@ =~= before.insert(pos as int, item));
            assert(strictly_ascending(out@)) by {
                assert forall|a: int, b: int| 0 <= a < b < out@.len() implies out@[a] < out@[b] by {
                    if b < pos {
                    } else if b == pos {
                    } else if a < pos {
                        assert(out@[b] == before[b - 1]);
                        if pos < before.len() {
                            assert(before[pos as int] <= before[b - 1]);
                        }
                    } else if a == pos {
                        assert(out@[b] == before[b - 1]);
                        assert(before[pos as int] <= before[b - 1]);
                    } else {
                        assert(out@[a] == before[a - 1]);
                        assert(out@[b] == before[b - 1]);
                    }
                }
            }
            assert forall|x: u32| out@.contains(x) <==> next.contains(x) by {
                if next.contains(x) {
                    let k = choose|k: int| 0 <= k < next.len() && next[k] == x;
                    if k < seen.len() {
                        assert(seen[k] == x);
                        assert(seen.contains(x));
                        assert(before.contains(x));
                        let m = choose|m: int| 0 <= m < before.len() && before[m] == x;
                        if m < pos {
                            assert(out@[m] == x);
                        } else {
                            assert(out@[m + 1] == x);
                        }
                    } else {
                        assert(out@[pos as int] == x);
                    }
                }
                if out@.contains(x) {
                    let m = choose|m: int| 0 <= m < out@.len() && out@[m] == x;
                    if m == pos {
                        assert(next[i as int] == x);
                    } else {
                        if m < pos {
                            assert(before[m] == x);
                        } else {
                            assert(before[m - 1] == x);
                        }
                        assert(before.contains(x));
                        let k = choose|k: int| 0 <= k < seen.len() && seen[k] == x;
                        assert(next[k] == x);
                    }
                }
            }
        }
        i += 1;
    }
    assert(list@.subrange(0, list@.len() as int) =~= list@);
    *list = out;
}

/// In a strictly ascending list no value occurs twice.
pub proof fn lemma_ascending_no_duplicates(s: Seq<u32>)
    requires
        strictly_ascending(s),
    ensures
        s.no_duplicates(),
{
}

} // verus!
