use vstd::prelude::*;
use crate::model::MessageId;

verus! {

/// Each element is smaller than every later one.
pub open spec fn strictly_ascending(s: Seq<u64>) -> bool {
    forall|i: int, j: int| 0 <= i < j < s.len() ==> s[i] < s[j]
}

/// The numbers of a list of message ids.
pub open spec fn message_numbers(ms: Seq<MessageId>) -> Seq<u64> {
    ms.map_values(|m: MessageId| m.0)
}

/// `t` lists every number of `ids` exactly once, in ascending order.
pub open spec fn in_order_once(t: Seq<u64>, ids: Seq<u64>) -> bool {
    strictly_ascending(t) && t.to_set() == ids.to_set()
}

/// The numbers of the given message ids, each once, in ascending order:
/// what sorting and then removing consecutive duplicates gives.
pub fn ascending_unique(ids: &[MessageId]) -> (out: Vec<u64>)
    ensures
        in_order_once(out@, message_numbers(ids@)),
{
    let mut out: Vec<u64> = Vec::new();
    let n = ids.len();
    for i in 0..n
        invariant
            n == ids@.len(),
            strictly_ascending(out@),
            forall|x: u64| out@.contains(x) <==> exists|j: int| 0 <= j < i && #[trigger] ids@[j].0 == x,
    {
        let x = ids[i].0;
        let mut p: usize = 0;
        while p < out.len() && out[p] < x
            invariant
                p <= out@.len(),
                forall|k: int| 0 <= k < p ==> out@[k] < x,
            decreases out@.len() - p,
        {
            p = p + 1;
        }
        let ghost before = out@;
        if p < out.len() && out[p] == x {
            assert(out@.contains(x));
        } else {
            out.insert(p, x);
            proof {
                before.insert_ensures(p as int, x);
                assert forall|a: int, b: int| 0 <= a < b < out@.len() implies out@[a] < out@[b] by {
                    if b < p {
                    } else if b == p {
                    } else if a < p {
                        assert(out@[b] == before[b - 1]);
                        if p < before.len() {
                            assert(before[p as int] > x);
                            assert(before[p as int] <= before[b - 1]);
                        }
                    } else if a == p {
                        assert(before[p as int] > x);
                        assert(before[p as int] <= before[b - 1]);
                    } else {
                        assert(out@[a] == before[a - 1]);
                    }
                }
                assert forall|y: u64| out@.contains(y) implies before.contains(y) || y == x by {
                    let k = choose|k: int| 0 <= k < out@.len() && out@[k] == y;
                    if k < p {
                        assert(before[k] == y);
                    } else if k > p {
                        assert(before[k - 1] == y);
                    }
                }
                assert forall|y: u64| before.contains(y) implies out@.contains(y) by {
                    let k = choose|k: int| 0 <= k < before.len() && before[k] == y;
                    if k < p {
                        assert(out@[k] == y);
                    } else {
                        assert(out@[k + 1] == y);
                    }
                }
                assert(out@[p as int] == x);
            }
        }
        proof {
            assert forall|y: u64| out@.contains(y) <==> exists|j: int| 0 <= j < i + 1 && #[trigger] ids@[j].0 == y by {
                if out@.contains(y) && y != x {
                    assert(before.contains(y));
                }
                if exists|j: int| 0 <= j < i + 1 && #[trigger] ids@[j].0 == y {
                    let j = choose|j: int| 0 <= j < i + 1 && #[trigger] ids@[j].0 == y;
                    if j < i {
                        assert(before.contains(y));
                    }
                }
                if y == x {
                    assert(ids@[i as int].0 == y);
                }
            }
        }
    }
    proof {
        let m = message_numbers(ids@);
        assert forall|y: u64| out@.to_set().contains(y) <==> m.to_set().contains(y) by {
            if out@.contains(y) {
                let j = choose|j: int| 0 <= j < n && #[trigger] ids@[j].0 == y;
                assert(m[j] == y);
            }
            if m.contains(y) {
                let j = choose|j: int| 0 <= j < m.len() && m[j] == y;
                assert(ids@[j].0 == y);
            }
        }
        assert(out@.to_set() =~= m.to_set());
    }
    out
}

proof fn lemma_ascending_no_duplicates(s: Seq<u64>)
    requires
        strictly_ascending(s),
    ensures
        s.no_duplicates(),
{
    assert forall|i: int, j: int| 0 <= i < s.len() && 0 <= j < s.len() && i != j implies s[i] != s[j] by {
        if i < j {
        } else {
        }
    }
}

/// There is only one ascending list of given distinct numbers: whichever
/// list two callers derive from the same ids, the bodies agree.
pub proof fn lemma_in_order_once_unique(a: Seq<u64>, b: Seq<u64>, ids: Seq<u64>)
    requires
        in_order_once(a, ids),
        in_order_once(b, ids),
    ensures
        a == b,
    decreases a.len(),
{
    lemma_ascending_no_duplicates(a);
    lemma_ascending_no_duplicates(b);
    a.unique_seq_to_set();
    b.unique_seq_to_set();
    if a.len() > 0 {
        let x = a.last();
        let y = b.last();
        assert(a.to_set().contains(x));
        assert(b.to_set().contains(x));
        assert(a.to_set().contains(y));
        let kx = choose|k: int| 0 <= k < b.len() && b[k] == x;
        let ky = choose|k: int| 0 <= k < a.len() && a[k] == y;
        assert(x <= y);
        assert(y <= x);
        let a1 = a.drop_last();
        let b1 = b.drop_last();
        assert(a1.to_set() =~= a.to_set().remove(x)) by {
            assert forall|z: u64| a1.to_set().contains(z) implies z != x by {
                let k = choose|k: int| 0 <= k < a1.len() && a1[k] == z;
            }
            assert forall|z: u64| a.to_set().contains(z) && z != x implies a1.to_set().contains(z) by {
                let k = choose|k: int| 0 <= k < a.len() && a[k] == z;
                assert(a1[k] == z);
            }
        }
        assert(b1.to_set() =~= b.to_set().remove(x)) by {
            assert forall|z: u64| b1.to_set().contains(z) implies z != x by {
                let k = choose|k: int| 0 <= k < b1.len() && b1[k] == z;
            }
            assert forall|z: u64| b.to_set().contains(z) && z != x implies b1.to_set().contains(z) by {
                let k = choose|k: int| 0 <= k < b.len() && b[k] == z;
                assert(b1[k] == z);
            }
        }
        lemma_in_order_once_unique(a1, b1, a1);
        assert(a =~= b) by {
            assert(a =~= a1.push(x));
            assert(b =~= b1.push(x));
        }
    } else {
        assert(b.len() == 0);
    }
}

/// An ascending list of distinct numbers is exactly as long as the set of
/// numbers it lists.
pub proof fn lemma_ascending_unique_count(t: Seq<u64>, ids: Seq<u64>)
    requires
        in_order_once(t, ids),
    ensures
        t.len() == ids.to_set().len(),
{
    lemma_ascending_no_duplicates(t);
    t.unique_seq_to_set();
}

} // verus!
