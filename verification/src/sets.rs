//! Address lists kept as sets: in insertion order (blacklists) or in the
//! ledger's address order (whitelists).

use vstd::prelude::*;

use crate::state::sorted_addresses;
use crate::types::{address_less, address_lt, Address};

verus! {

pub proof fn lemma_address_lt_trans(a: Address, b: Address, c: Address)
    requires
        address_lt(a, b),
        address_lt(b, c),
    ensures
        address_lt(a, c),
{
}

pub proof fn lemma_address_lt_total(a: Address, b: Address)
    ensures
        a == b || address_lt(a, b) || address_lt(b, a),
        !(address_lt(a, b) && address_lt(b, a)),
        !address_lt(a, a),
{
}

/// `s` with every occurrence of `x` left out, order kept.
pub open spec fn seq_without(s: Seq<Address>, x: Address) -> Seq<Address>
    decreases s.len(),
{
    if s.len() == 0 {
        s
    } else if s.last() == x {
        seq_without(s.drop_last(), x)
    } else {
        seq_without(s.drop_last(), x).push(s.last())
    }
}

pub proof fn lemma_contains_push(s: Seq<Address>, b: Address, a: Address)
    ensures
        s.push(b).contains(a) <==> (s.contains(a) || a == b),
{
    if s.push(b).contains(a) {
        let k = choose|k: int| 0 <= k < s.push(b).len() && s.push(b)[k] == a;
        if k < s.len() {
            assert(s[k] == a);
        }
    }
    if s.contains(a) {
        let k = choose|k: int| 0 <= k < s.len() && s[k] == a;
        assert(s.push(b)[k] == a);
    }
    if a == b {
        assert(s.push(b)[s.len() as int] == a);
    }
}

pub proof fn lemma_seq_without_contains(s: Seq<Address>, x: Address, a: Address)
    ensures
        seq_without(s, x).contains(a) <==> (s.contains(a) && a != x),
    decreases s.len(),
{
    if s.len() > 0 {
        let t = s.drop_last();
        lemma_seq_without_contains(t, x, a);
        assert(s =~= t.push(s.last()));
        lemma_contains_push(t, s.last(), a);
        if s.last() != x {
            lemma_contains_push(seq_without(t, x), s.last(), a);
        }
    }
}

pub proof fn lemma_seq_without_len(s: Seq<Address>, x: Address)
    ensures
        seq_without(s, x).len() <= s.len(),
    decreases s.len(),
{
    if s.len() > 0 {
        lemma_seq_without_len(s.drop_last(), x);
    }
}

pub proof fn lemma_seq_without_no_duplicates(s: Seq<Address>, x: Address)
    requires
        s.no_duplicates(),
    ensures
        seq_without(s, x).no_duplicates(),
    decreases s.len(),
{
    if s.len() > 0 {
        let t = s.drop_last();
        assert(t.no_duplicates());
        lemma_seq_without_no_duplicates(t, x);
        if s.last() != x {
            lemma_seq_without_contains(t, x, s.last());
            assert(!t.contains(s.last())) by {
                if t.contains(s.last()) {
                    let k = choose|k: int| 0 <= k < t.len() && t[k] == s.last();
                    assert(s[k] == s[s.len() - 1]);
                }
            }
        }
    }
}

/// A copy of `v` without `x`, order kept.
pub fn without(v: &Vec<Address>, x: &Address) -> (r: Vec<Address>)
    ensures
        r@ == seq_without(v@, *x),
{
    let mut r: Vec<Address> = Vec::new();
    let mut i: usize = 0;
    while i < v.len()
        invariant
            i <= v@.len(),
            r@ == seq_without(v@.subrange(0, i as int), *x),
        decreases v@.len() - i,
    {
        let a = v[i];
        assert(v@.subrange(0, i + 1).drop_last() =~= v@.subrange(0, i as int));
        if a != *x {
            r.push(a);
        }
        i = i + 1;
    }
    assert(v@.subrange(0, v@.len() as int) =~= v@);
    r
}

/// `s` with `x` appended unless it is already there.
pub open spec fn appended_once(s: Seq<Address>, x: Address) -> Seq<Address> {
    if s.contains(x) {
        s
    } else {
        s.push(x)
    }
}

/// Inserts `x` into the sorted `v` at its place, unless it is already there.
pub fn insert_sorted(v: &mut Vec<Address>, x: Address)
    requires
        sorted_addresses(old(v)@),
    ensures
        sorted_addresses(final(v)@),
        forall|a: Address| final(v)@.contains(a) <==> (old(v)@.contains(a) || a == x),
        old(v)@.contains(x) ==> final(v)@ == old(v)@,
{
    let ghost s = v@;
    let mut i: usize = 0;
    while i < v.len() && address_less(&v[i], &x)
        invariant
            v@ == s,
            i <= s.len(),
            forall|j: int| 0 <= j < i ==> address_lt(#[trigger] s[j], x),
        decreases s.len() - i,
    {
        i = i + 1;
    }
    if i < v.len() && v[i] == x {
        assert(s.contains(x));
        return;
    }
    proof {
        if i < s.len() {
            lemma_address_lt_total(s[i as int], x);
        }
    }
    assert(!s.contains(x)) by {
        if s.contains(x) {
            let k = choose|k: int| 0 <= k < s.len() && s[k] == x;
            lemma_address_lt_total(x, x);
            if k >= i {
                if k > i {
                    assert(address_lt(s[i as int], s[k]));
                    lemma_address_lt_total(s[i as int], x);
                }
            }
        }
    }
    v.insert(i, x);
    let ghost n = v@;
    assert(n == s.insert(i as int, x));
    assert forall|p: int, q: int| 0 <= p < q < n.len() implies address_lt(#[trigger] n[p], #[trigger] n[q]) by {
        if q < i {
        } else if q == i {
        } else if p < i {
            assert(n[q] == s[q - 1]);
            assert(address_lt(s[p], s[q - 1]));
        } else if p == i {
            assert(n[q] == s[q - 1]);
            if q - 1 > i {
                assert(address_lt(s[i as int], s[q - 1]));
                lemma_address_lt_trans(x, s[i as int], s[q - 1]);
            }
        } else {
            assert(n[p] == s[p - 1]);
            assert(n[q] == s[q - 1]);
        }
    }
    assert forall|a: Address| n.contains(a) <==> (s.contains(a) || a == x) by {
        if n.contains(a) {
            let k = choose|k: int| 0 <= k < n.len() && n[k] == a;
            if k < i {
                assert(s[k] == a);
            } else if k > i {
                assert(s[k - 1] == a);
            }
        }
        if s.contains(a) {
            let k = choose|k: int| 0 <= k < s.len() && s[k] == a;
            if k < i {
                assert(n[k] == a);
            } else {
                assert(n[k + 1] == a);
            }
        }
        if a == x {
            assert(n[i as int] == x);
        }
    }
}

/// Removes `x` from the sorted `v`, if present.
pub fn remove_sorted(v: &mut Vec<Address>, x: &Address)
    requires
        sorted_addresses(old(v)@),
    ensures
        sorted_addresses(final(v)@),
        forall|a: Address| final(v)@.contains(a) <==> (old(v)@.contains(a) && a != *x),
{
    let ghost s = v@;
    let mut i: usize = 0;
    while i < v.len()
        invariant
            v@ == s,
            s == old(v)@,
            sorted_addresses(s),
            i <= s.len(),
            forall|j: int| 0 <= j < i ==> s[j] != *x,
        decreases s.len() - i,
    {
        if v[i] == *x {
            v.remove(i);
            let ghost n = v@;
            assert(n == s.remove(i as int));
            assert forall|p: int, q: int| 0 <= p < q < n.len() implies address_lt(
                #[trigger] n[p],
                #[trigger] n[q],
            ) by {
                let p2 = if p < i {
                    p
                } else {
                    p + 1
                };
                let q2 = if q < i {
                    q
                } else {
                    q + 1
                };
                assert(n[p] == s[p2]);
                assert(n[q] == s[q2]);
            }
            assert forall|a: Address| n.contains(a) <==> (s.contains(a) && a != *x) by {
                if n.contains(a) {
                    let k = choose|k: int| 0 <= k < n.len() && n[k] == a;
                    let k2 = if k < i {
                        k
                    } else {
                        k + 1
                    };
                    assert(s[k2] == a);
                    if a == *x {
                        lemma_address_lt_total(a, a);
                        if k2 < i {
                        } else {
                            assert(address_lt(s[i as int], s[k2]));
                        }
                    }
                }
                if s.contains(a) && a != *x {
                    let k = choose|k: int| 0 <= k < s.len() && s[k] == a;
                    if k < i {
                        assert(n[k] == a);
                    } else {
                        assert(k != i);
                        assert(n[k - 1] == a);
                    }
                }
            }
            return;
        }
        i = i + 1;
    }
}

} // verus!
