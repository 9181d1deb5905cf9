use vstd::prelude::*;

verus! {

/// Every element is smaller than the next: the sequence is sorted and holds no duplicate.
pub open spec fn strictly_increasing(s: Seq<u64>) -> bool {
    forall|i: int, j: int| 0 <= i < j < s.len() ==> s[i] < s[j]
}

/// Checks that each element of `v` is smaller than the one after it.
pub fn is_sorted_and_unique(v: &Vec<u64>) -> (r: bool)
    ensures
        r == strictly_increasing(v@),
{
    let mut i: usize = 1;
    while i < v.len()
        invariant
            1 <= i,
            v.len() > 0 ==> i <= v.len(),
            strictly_increasing(v@.subrange(0, if v.len() == 0 { 0 } else { i as int })),
        decreases v.len() - i,
    {
        if v[i - 1] >= v[i] {
            assert(!strictly_increasing(v@)) by {
                assert(!(v@[i - 1] < v@[i as int]));
            }
            return false;
        }
        assert forall|a: int, b: int| 0 <= a < b < i + 1 implies #[trigger] v@[a] < #[trigger] v@[b] by {
            if b < i {
                assert(v@.subrange(0, i as int)[a] == v@[a]);
                assert(v@.subrange(0, i as int)[b] == v@[b]);
            } else if a < i - 1 {
                assert(v@.subrange(0, i as int)[a] == v@[a]);
                assert(v@.subrange(0, i as int)[i - 1] == v@[i - 1]);
            }
        }
        i = i + 1;
    }
    proof {
        if v.len() > 0 {
            assert(v@.subrange(0, v.len() as int) =~= v@);
        }
    }
    true
}

/// The sequence `s` with `x` put in the place that keeps it in order.
pub open spec fn insert_sorted(s: Seq<u64>, x: u64) -> Seq<u64>
    decreases s.len(),
{
    if s.len() == 0 {
        seq![x]
    } else if x <= s[0] {
        seq![x] + s
    } else {
        seq![s[0]] + insert_sorted(s.drop_first(), x)
    }
}

/// Inserting at a position that splits the smaller elements from the larger ones
/// gives the same sequence as `insert_sorted`.
pub proof fn lemma_insert_at_split(s: Seq<u64>, x: u64, i: int)
    requires
        0 <= i <= s.len(),
        forall|k: int| 0 <= k < i ==> s[k] < x,
        forall|k: int| i <= k < s.len() ==> x < s[k],
    ensures
        s.insert(i, x) == insert_sorted(s, x),
    decreases s.len(),
{
    if s.len() == 0 {
        assert(s.insert(i, x) =~= seq![x]);
    } else if i == 0 {
        assert(s.insert(i, x) =~= seq![x] + s);
    } else {
        let t = s.drop_first();
        assert forall|k: int| 0 <= k < i - 1 implies t[k] < x by {
            assert(t[k] == s[k + 1]);
        }
        assert forall|k: int| i - 1 <= k < t.len() implies x < t[k] by {
            assert(t[k] == s[k + 1]);
        }
        lemma_insert_at_split(t, x, i - 1);
        assert(s.insert(i, x) =~= seq![s[0]] + t.insert(i - 1, x));
    }
}

/// Inserting a new element keeps a strictly increasing sequence strictly increasing,
/// and adds exactly that element.
pub proof fn lemma_insert_sorted(s: Seq<u64>, x: u64)
    requires
        strictly_increasing(s),
        !s.contains(x),
    ensures
        strictly_increasing(insert_sorted(s, x)),
        insert_sorted(s, x).len() == s.len() + 1,
        forall|y: u64| insert_sorted(s, x).contains(y) <==> (s.contains(y) || y == x),
    decreases s.len(),
{
    let r = insert_sorted(s, x);
    if s.len() == 0 {
        assert(r =~= seq![x]);
        assert forall|y: u64| r.contains(y) <==> (s.contains(y) || y == x) by {
            if r.contains(y) {
                let k = choose|k: int| 0 <= k < r.len() && r[k] == y;
                assert(k == 0);
            }
            if y == x {
                assert(r[0] == x);
            }
        }
    } else if x <= s[0] {
        assert(x < s[0]) by {
            assert(s[0] != x);
        }
        assert(r == seq![x] + s);
        assert forall|a: int, b: int| 0 <= a < b < r.len() implies r[a] < r[b] by {
            if a > 0 {
                assert(r[a] == s[a - 1] && r[b] == s[b - 1]);
            } else {
                assert(r[b] == s[b - 1]);
                assert(s[0] <= s[b - 1]) by {
                    if b - 1 > 0 {
                        assert(s[0] < s[b - 1]);
                    }
                }
            }
        }
        assert forall|y: u64| r.contains(y) <==> (s.contains(y) || y == x) by {
            if r.contains(y) {
                let k = choose|k: int| 0 <= k < r.len() && r[k] == y;
                if k > 0 {
                    assert(s[k - 1] == y);
                }
            }
            if s.contains(y) {
                let k = choose|k: int| 0 <= k < s.len() && s[k] == y;
                assert(r[k + 1] == y);
            }
            if y == x {
                assert(r[0] == x);
            }
        }
    } else {
        let t = s.drop_first();
        assert(strictly_increasing(t)) by {
            assert forall|a: int, b: int| 0 <= a < b < t.len() implies t[a] < t[b] by {
                assert(t[a] == s[a + 1] && t[b] == s[b + 1]);
            }
        }
        assert(!t.contains(x)) by {
            if t.contains(x) {
                let k = choose|k: int| 0 <= k < t.len() && t[k] == x;
                assert(s[k + 1] == x);
            }
        }
        lemma_insert_sorted(t, x);
        let rt = insert_sorted(t, x);
        assert(r == seq![s[0]] + rt);
        assert forall|a: int, b: int| 0 <= a < b < r.len() implies r[a] < r[b] by {
            if a > 0 {
                assert(r[a] == rt[a - 1] && r[b] == rt[b - 1]);
            } else {
                assert(r[b] == rt[b - 1]);
                assert(rt.contains(rt[b - 1]));
                if t.contains(rt[b - 1]) {
                    let k = choose|k: int| 0 <= k < t.len() && t[k] == rt[b - 1];
                    assert(s[k + 1] == rt[b - 1]);
                }
            }
        }
        assert forall|y: u64| r.contains(y) <==> (s.contains(y) || y == x) by {
            if r.contains(y) {
                let k = choose|k: int| 0 <= k < r.len() && r[k] == y;
                if k > 0 {
                    assert(rt[k - 1] == y);
                    assert(rt.contains(y));
                    if t.contains(y) {
                        let j = choose|j: int| 0 <= j < t.len() && t[j] == y;
                        assert(s[j + 1] == y);
                    }
                } else {
                    assert(s[0] == y);
                }
            }
            if s.contains(y) {
                let k = choose|k: int| 0 <= k < s.len() && s[k] == y;
                if k > 0 {
                    assert(t[k - 1] == y);
                    assert(t.contains(y));
                    let j = choose|j: int| 0 <= j < rt.len() && rt[j] == y;
                    assert(r[j + 1] == y);
                } else {
                    assert(r[0] == y);
                }
            }
            if y == x {
                assert(rt.contains(x));
                let j = choose|j: int| 0 <= j < rt.len() && rt[j] == x;
                assert(r[j + 1] == x);
            }
        }
    }
}

/// Binary search over a strictly increasing vector: `Ok` with the index of `x`, or
/// `Err` with the index at which `x` would keep the order.
pub fn search(v: &Vec<u64>, x: u64) -> (r: Result<usize, usize>)
    requires
        strictly_increasing(v@),
    ensures
        match r {
            Ok(i) => i < v.len() && v@[i as int] == x,
            Err(i) => i <= v.len() && !v@.contains(x) && (forall|k: int| 0 <= k < i ==> v@[k] < x)
                && (forall|k: int| i <= k < v.len() ==> x < v@[k]),
        },
{
    let mut lo: usize = 0;
    let mut hi: usize = v.len();
    while lo < hi
        invariant
            lo <= hi <= v.len(),
            strictly_increasing(v@),
            forall|k: int| 0 <= k < lo ==> v@[k] < x,
            forall|k: int| hi <= k < v.len() ==> x < v@[k],
        decreases hi - lo,
    {
        let mid = lo + (hi - lo) / 2;
        if v[mid] == x {
            return Ok(mid);
        } else if v[mid] < x {
            lo = mid + 1;
        } else {
            hi = mid;
        }
    }
    proof {
        if v@.contains(x) {
            let k = choose|k: int| 0 <= k < v.len() && v@[k] == x;
            assert(false);
        }
    }
    Err(lo)
}

/// Whether `x` is an element of the strictly increasing vector `v`.
pub fn contains_sorted(v: &Vec<u64>, x: u64) -> (r: bool)
    requires
        strictly_increasing(v@),
    ensures
        r == v@.contains(x),
{
    match search(v, x) {
        Ok(i) => {
            assert(v@[i as int] == x);
            true
        },
        Err(_) => false,
    }
}

/// Puts `x` into the strictly increasing vector `v` at its place in the order.
/// Returns `false`, with `v` unchanged, when `x` is there already.
pub fn insert_sorted_vec(v: &mut Vec<u64>, x: u64) -> (r: bool)
    requires
        strictly_increasing(old(v)@),
    ensures
        r == !old(v)@.contains(x),
        r ==> final(v)@ == insert_sorted(old(v)@, x),
        !r ==> final(v)@ == old(v)@,
        strictly_increasing(final(v)@),
{
    match search(v, x) {
        Ok(i) => {
            assert(v@[i as int] == x);
            false
        },
        Err(i) => {
            proof {
                lemma_insert_at_split(v@, x, i as int);
                lemma_insert_sorted(v@, x);
            }
            v.insert(i, x);
            true
        },
    }
}

} // verus!
