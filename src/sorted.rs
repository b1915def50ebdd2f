//! Strictly sorted lists of names: the form in which dependency sets leave
//! the collector, so that equal sets always give equal lists.
use vstd::prelude::*;

use crate::text::{lemma_lt_asymmetric, lemma_lt_irreflexive, lemma_lt_total, lemma_lt_transitive, seq_lt, str_lt};

verus! {

/// The character sequences of a list of strings.
pub open spec fn names(v: Seq<String>) -> Seq<Seq<char>> {
    v.map_values(|x: String| x@)
}

/// Each name comes before every later one, so none repeats.
pub open spec fn strictly_sorted(s: Seq<Seq<char>>) -> bool {
    forall|i: int, j: int| 0 <= i < j < s.len() ==> seq_lt(#[trigger] s[i], #[trigger] s[j])
}

/// The strictly sorted list that holds exactly the names of `s`.
pub open spec fn sorted_list(s: Set<Seq<char>>) -> Seq<Seq<char>> {
    choose|q: Seq<Seq<char>>| strictly_sorted(q) && q.to_set() == s
}

/// Two strictly sorted lists with the same names are the same list.
pub proof fn lemma_sorted_unique(a: Seq<Seq<char>>, b: Seq<Seq<char>>)
    requires
        strictly_sorted(a),
        strictly_sorted(b),
        a.to_set() == b.to_set(),
    ensures
        a == b,
    decreases a.len(),
{
    if a.len() == 0 {
        if b.len() > 0 {
            assert(b.to_set().contains(b[0]));
        }
        assert(a =~= b);
    } else if b.len() == 0 {
        assert(a.to_set().contains(a[0]));
    } else {
        assert(a.to_set().contains(a[0]));
        assert(b.to_set().contains(a[0]));
        let j = choose|j: int| 0 <= j < b.len() && b[j] == a[0];
        assert(b.to_set().contains(b[0]));
        assert(a.to_set().contains(b[0]));
        let k = choose|k: int| 0 <= k < a.len() && a[k] == b[0];
        if j > 0 {
            assert(seq_lt(b[0], b[j]));
            if k > 0 {
                assert(seq_lt(a[0], a[k]));
                lemma_lt_asymmetric(a[0], b[0]);
            } else {
                lemma_lt_irreflexive(a[0]);
            }
        }
        assert(a[0] == b[0]);
        let ta = a.drop_first();
        let tb = b.drop_first();
        assert forall|x: Seq<char>| ta.to_set().contains(x) implies tb.to_set().contains(x) by {
            let p = choose|p: int| 0 <= p < ta.len() && ta[p] == x;
            assert(seq_lt(a[0], a[p + 1]));
            assert(a.to_set().contains(x));
            let q = choose|q: int| 0 <= q < b.len() && b[q] == x;
            if q == 0 {
                lemma_lt_irreflexive(x);
            }
            assert(tb[q - 1] == x);
        }
        assert forall|x: Seq<char>| tb.to_set().contains(x) implies ta.to_set().contains(x) by {
            let p = choose|p: int| 0 <= p < tb.len() && tb[p] == x;
            assert(seq_lt(b[0], b[p + 1]));
            assert(b.to_set().contains(x));
            let q = choose|q: int| 0 <= q < a.len() && a[q] == x;
            if q == 0 {
                lemma_lt_irreflexive(x);
            }
            assert(ta[q - 1] == x);
        }
        assert(ta.to_set() =~= tb.to_set());
        lemma_sorted_unique(ta, tb);
        assert(a =~= seq![a[0]] + ta);
        assert(b =~= seq![b[0]] + tb);
    }
}

/// A finite nonempty set of names has a least name.
pub proof fn lemma_least_exists(s: Set<Seq<char>>)
    requires
        s.finite(),
        s.len() > 0,
    ensures
        exists|x: Seq<char>|
            s.contains(x) && forall|y: Seq<char>| s.contains(y) && y != x ==> seq_lt(x, y),
    decreases s.len(),
{
    let x = s.choose();
    let rest = s.remove(x);
    if rest.len() == 0 {
        assert forall|y: Seq<char>| s.contains(y) && y != x implies seq_lt(x, y) by {
            assert(rest.contains(y));
        }
    } else {
        lemma_least_exists(rest);
        let m = choose|m: Seq<char>|
            rest.contains(m) && forall|y: Seq<char>| rest.contains(y) && y != m ==> seq_lt(m, y);
        lemma_lt_total(x, m);
        if seq_lt(x, m) {
            assert forall|y: Seq<char>| s.contains(y) && y != x implies seq_lt(x, y) by {
                if y != m {
                    assert(rest.contains(y));
                    lemma_lt_transitive(x, m, y);
                }
            }
        } else {
            assert forall|y: Seq<char>| s.contains(y) && y != m implies seq_lt(m, y) by {
                if y != x {
                    assert(rest.contains(y));
                }
            }
        }
    }
}

/// Every finite set of names has a sorted list.
pub proof fn lemma_sorted_list_exists(s: Set<Seq<char>>)
    requires
        s.finite(),
    ensures
        strictly_sorted(sorted_list(s)),
        sorted_list(s).to_set() == s,
    decreases s.len(),
{
    if s.len() == 0 {
        let e = Seq::<Seq<char>>::empty();
        assert(e.to_set() =~= s);
        assert(strictly_sorted(e));
    } else {
        lemma_least_exists(s);
        let x = choose|x: Seq<char>|
            s.contains(x) && forall|y: Seq<char>| s.contains(y) && y != x ==> seq_lt(x, y);
        let rest = s.remove(x);
        lemma_sorted_list_exists(rest);
        let tail = sorted_list(rest);
        let q = seq![x] + tail;
        assert forall|i: int, j: int| 0 <= i < j < q.len() implies seq_lt(
            #[trigger] q[i],
            #[trigger] q[j],
        ) by {
            if i == 0 {
                assert(tail.to_set().contains(tail[j - 1]));
            } else {
                assert(q[i] == tail[i - 1] && q[j] == tail[j - 1]);
            }
        }
        assert forall|y: Seq<char>| q.to_set().contains(y) <==> s.contains(y) by {
            if q.to_set().contains(y) {
                let k = choose|k: int| 0 <= k < q.len() && q[k] == y;
                if k > 0 {
                    assert(tail.to_set().contains(tail[k - 1]));
                }
            }
            if s.contains(y) && y != x {
                assert(tail.to_set().contains(y));
                let k = choose|k: int| 0 <= k < tail.len() && tail[k] == y;
                assert(q[k + 1] == y);
            }
            if y == x {
                assert(q[0] == y);
            }
        }
        assert(q.to_set() =~= s);
    }
}

/// A strictly sorted list is the sorted list of its own names.
pub proof fn lemma_is_sorted_list(a: Seq<Seq<char>>)
    requires
        strictly_sorted(a),
    ensures
        sorted_list(a.to_set()) == a,
{
    let q = sorted_list(a.to_set());
    assert(strictly_sorted(q) && q.to_set() == a.to_set());
    lemma_sorted_unique(q, a);
}

/// Adds `name` to a strictly sorted list, unless it is there already.
pub fn insert_sorted(deps: &mut Vec<String>, name: String)
    requires
        strictly_sorted(names(old(deps)@)),
    ensures
        strictly_sorted(names(final(deps)@)),
        names(final(deps)@).to_set() == names(old(deps)@).to_set().insert(name@),
{
    let ghost old_names = names(deps@);
    let mut i: usize = 0;
    while i < deps.len()
        invariant
            i <= deps.len(),
            deps@ == old(deps)@,
            old_names == names(deps@),
            strictly_sorted(old_names),
            forall|k: int| 0 <= k < i ==> seq_lt(#[trigger] old_names[k], name@),
        ensures
            i <= deps.len(),
            deps@ == old(deps)@,
            forall|k: int| 0 <= k < i ==> seq_lt(#[trigger] old_names[k], name@),
            i < deps.len() ==> !seq_lt(old_names[i as int], name@),
        decreases deps.len() - i,
    {
        if !str_lt(deps[i].as_str(), name.as_str()) {
            break;
        }
        i = i + 1;
    }
    if i < deps.len() && deps[i] == name {
        assert(old_names[i as int] == name@);
        assert(old_names.to_set() =~= old_names.to_set().insert(name@));
        return;
    }
    proof {
        if i < deps.len() {
            assert(!seq_lt(old_names[i as int], name@));
            lemma_lt_total(old_names[i as int], name@);
            assert(seq_lt(name@, old_names[i as int]));
            assert forall|k: int| i < k < old_names.len() implies seq_lt(name@, #[trigger] old_names[k]) by {
                lemma_lt_transitive(name@, old_names[i as int], old_names[k]);
            }
        }
    }
    deps.insert(i, name);
    let ghost new_names = names(deps@);
    assert(new_names =~= old_names.insert(i as int, name@));
    assert forall|a: int, b: int| 0 <= a < b < new_names.len() implies seq_lt(
        #[trigger] new_names[a],
        #[trigger] new_names[b],
    ) by {
        if b < i {
        } else if b == i {
        } else if a < i {
            assert(seq_lt(old_names[a], name@));
            if i < old_names.len() {
                assert(seq_lt(name@, old_names[b - 1]));
                lemma_lt_transitive(old_names[a], name@, old_names[b - 1]);
            }
        } else if a == i {
        } else {
            assert(old_names[a - 1] == new_names[a]);
        }
    }
    assert forall|x: Seq<char>| new_names.to_set().contains(x) <==> old_names.to_set().insert(
        name@,
    ).contains(x) by {
        if new_names.to_set().contains(x) {
            let p = choose|p: int| 0 <= p < new_names.len() && new_names[p] == x;
            if p < i {
                assert(old_names[p] == x);
            } else if p > i {
                assert(old_names[p - 1] == x);
            }
        }
        if old_names.to_set().contains(x) {
            let p = choose|p: int| 0 <= p < old_names.len() && old_names[p] == x;
            if p < i {
                assert(new_names[p] == x);
            } else {
                assert(new_names[p + 1] == x);
            }
        }
        if x == name@ {
            assert(new_names[i as int] == x);
        }
    }
    assert(new_names.to_set() =~= old_names.to_set().insert(name@));
}

} // verus!
