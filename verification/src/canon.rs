//! The canonical order of a property list: by key, then by value, each
//! compared character by character. Whatever order the pairs arrive in, the
//! same pairs leave in the same order.

use vstd::prelude::*;
use vstd::relations::*;
use vstd::seq_lib::*;
use vstd::string::*;
use crate::text::pairs_view;

verus! {

/// Dictionary order on texts: the first differing character decides, and a
/// text comes before each of its extensions.
pub open spec fn text_le(a: Seq<char>, b: Seq<char>) -> bool
    decreases a.len(),
{
    if a.len() == 0 {
        true
    } else if b.len() == 0 {
        false
    } else if a[0] != b[0] {
        a[0] < b[0]
    } else {
        text_le(a.drop_first(), b.drop_first())
    }
}

/// Order on key/value pairs: by key, and by value where the keys agree.
pub open spec fn pair_le(x: (Seq<char>, Seq<char>), y: (Seq<char>, Seq<char>)) -> bool {
    if x.0 == y.0 {
        text_le(x.1, y.1)
    } else {
        text_le(x.0, y.0)
    }
}

/// [`pair_le`] as a relation.
pub open spec fn pair_order() -> spec_fn((Seq<char>, Seq<char>), (Seq<char>, Seq<char>)) -> bool {
    |x: (Seq<char>, Seq<char>), y: (Seq<char>, Seq<char>)| pair_le(x, y)
}

/// The pairs of `props`, sorted by [`pair_le`].
pub open spec fn canonical(props: Seq<(Seq<char>, Seq<char>)>) -> Seq<(Seq<char>, Seq<char>)> {
    props.sort_by(pair_order())
}

/// Every text stands at or before itself.
pub proof fn lemma_text_le_reflexive(a: Seq<char>)
    ensures
        text_le(a, a),
    decreases a.len(),
{
    if a.len() > 0 {
        lemma_text_le_reflexive(a.drop_first());
    }
}

/// Two texts that each stand at or before the other are one text.
pub proof fn lemma_text_le_antisymmetric(a: Seq<char>, b: Seq<char>)
    requires
        text_le(a, b),
        text_le(b, a),
    ensures
        a == b,
    decreases a.len(),
{
    if a.len() == 0 || b.len() == 0 {
        assert(a =~= b);
    } else {
        lemma_text_le_antisymmetric(a.drop_first(), b.drop_first());
        assert(a =~= seq![a[0]] + a.drop_first());
        assert(b =~= seq![b[0]] + b.drop_first());
    }
}

/// The order passes along a chain.
pub proof fn lemma_text_le_transitive(a: Seq<char>, b: Seq<char>, c: Seq<char>)
    requires
        text_le(a, b),
        text_le(b, c),
    ensures
        text_le(a, c),
    decreases a.len(),
{
    if a.len() > 0 && a[0] == b[0] && b[0] == c[0] {
        lemma_text_le_transitive(a.drop_first(), b.drop_first(), c.drop_first());
    }
}

/// Any two texts compare, one way or the other.
pub proof fn lemma_text_le_connected(a: Seq<char>, b: Seq<char>)
    ensures
        text_le(a, b) || text_le(b, a),
    decreases a.len(),
{
    if a.len() > 0 && b.len() > 0 && a[0] == b[0] {
        lemma_text_le_connected(a.drop_first(), b.drop_first());
    }
}

/// [`pair_le`] is a total order: any two pairs compare, and only equal pairs
/// compare both ways.
pub proof fn lemma_pair_order_total()
    ensures
        total_ordering(pair_order()),
{
    let r = pair_order();
    assert forall|x: (Seq<char>, Seq<char>)| #[trigger] r(x, x) by {
        lemma_text_le_reflexive(x.1);
    }
    assert forall|x: (Seq<char>, Seq<char>), y: (Seq<char>, Seq<char>)|
        #[trigger] r(x, y) && #[trigger] r(y, x) implies x == y by {
        if x.0 == y.0 {
            lemma_text_le_antisymmetric(x.1, y.1);
        } else {
            lemma_text_le_antisymmetric(x.0, y.0);
        }
    }
    assert forall|x: (Seq<char>, Seq<char>), y: (Seq<char>, Seq<char>), z: (Seq<char>, Seq<char>)|
        #[trigger] r(x, y) && #[trigger] r(y, z) implies r(x, z) by {
        if x.0 == y.0 && y.0 == z.0 {
            lemma_text_le_transitive(x.1, y.1, z.1);
        } else if x.0 == y.0 {
        } else if y.0 == z.0 {
        } else {
            lemma_text_le_transitive(x.0, y.0, z.0);
            if x.0 == z.0 {
                lemma_text_le_antisymmetric(x.0, y.0);
            }
        }
    }
    assert forall|x: (Seq<char>, Seq<char>), y: (Seq<char>, Seq<char>)|
        #[trigger] r(x, y) || #[trigger] r(y, x) by {
        lemma_text_le_connected(x.0, y.0);
        lemma_text_le_connected(x.1, y.1);
    }
}

/// The canonical order is sorted and holds exactly the pairs it was given.
pub proof fn lemma_canonical_is_sorted_permutation(props: Seq<(Seq<char>, Seq<char>)>)
    ensures
        sorted_by(canonical(props), pair_order()),
        canonical(props).to_multiset() == props.to_multiset(),
        canonical(props).len() == props.len(),
{
    lemma_pair_order_total();
    props.lemma_sort_by_ensures(pair_order());
    props.to_multiset_ensures();
    canonical(props).to_multiset_ensures();
}

/// In the canonical order the keys never go down.
pub proof fn lemma_canonical_is_sorted_by_key(props: Seq<(Seq<char>, Seq<char>)>, i: int, j: int)
    requires
        0 <= i <= j < canonical(props).len(),
    ensures
        text_le(canonical(props)[i].0, canonical(props)[j].0),
{
    lemma_canonical_is_sorted_permutation(props);
    let sorted = canonical(props);
    if i < j {
        assert(pair_order()(sorted[i], sorted[j]));
    }
    lemma_text_le_reflexive(sorted[i].0);
}

/// Only one sorted arrangement of given pairs exists: a sorted list with the
/// pairs of `props` is the canonical order of `props`.
pub proof fn lemma_sorted_is_canonical(
    sorted: Seq<(Seq<char>, Seq<char>)>,
    props: Seq<(Seq<char>, Seq<char>)>,
)
    requires
        sorted_by(sorted, pair_order()),
        sorted.to_multiset() == props.to_multiset(),
    ensures
        sorted == canonical(props),
{
    lemma_canonical_is_sorted_permutation(props);
    lemma_pair_order_total();
    lemma_sorted_unique(sorted, canonical(props), pair_order());
}

/// The order in which pairs arrive does not matter.
pub proof fn lemma_canonical_ignores_order(
    a: Seq<(Seq<char>, Seq<char>)>,
    b: Seq<(Seq<char>, Seq<char>)>,
)
    requires
        a.to_multiset() == b.to_multiset(),
    ensures
        canonical(a) == canonical(b),
{
    lemma_canonical_is_sorted_permutation(a);
    lemma_sorted_is_canonical(canonical(a), b);
}

/// Compares two texts in dictionary order.
pub fn text_precedes(a: &str, b: &str) -> (le: bool)
    ensures
        le == text_le(a@, b@),
{
    let la = a.unicode_len();
    let lb = b.unicode_len();
    let mut i: usize = 0;
    proof {
        assert(a@.skip(0) =~= a@);
        assert(b@.skip(0) =~= b@);
    }
    loop
        invariant
            la == a@.len(),
            lb == b@.len(),
            i <= la,
            i <= lb,
            text_le(a@, b@) == text_le(a@.skip(i as int), b@.skip(i as int)),
        decreases la - i,
    {
        if i == la {
            return true;
        }
        if i == lb {
            return false;
        }
        let ca = a.get_char(i);
        let cb = b.get_char(i);
        proof {
            assert(a@.skip(i as int)[0] == ca);
            assert(b@.skip(i as int)[0] == cb);
            assert(a@.skip(i as int).drop_first() =~= a@.skip(i + 1));
            assert(b@.skip(i as int).drop_first() =~= b@.skip(i + 1));
        }
        if ca != cb {
            return ca < cb;
        }
        i = i + 1;
    }
}

/// Compares two pairs by key, then by value.
pub fn pair_precedes(x: &(String, String), y: &(String, String)) -> (le: bool)
    ensures
        le == pair_le((x.0@, x.1@), (y.0@, y.1@)),
{
    if x.0 == y.0 {
        text_precedes(x.1.as_str(), y.1.as_str())
    } else {
        text_precedes(x.0.as_str(), y.0.as_str())
    }
}

/// Sorts a property list into its canonical order.
pub fn canonical_order(props: &Vec<(String, String)>) -> (out: Vec<(String, String)>)
    ensures
        pairs_view(out@) == canonical(pairs_view(props@)),
{
    let mut out: Vec<(String, String)> = Vec::new();
    let n = props.len();
    let mut i: usize = 0;
    proof {
        assert(pairs_view(out@) =~= Seq::empty());
        assert(pairs_view(props@).subrange(0, 0) =~= Seq::empty());
    }
    while i < n
        invariant
            n == props@.len(),
            i <= n,
            sorted_by(pairs_view(out@), pair_order()),
            pairs_view(out@).to_multiset() == pairs_view(props@).subrange(
                0,
                i as int,
            ).to_multiset(),
        decreases n - i,
    {
        let item = (props[i].0.clone(), props[i].1.clone());
        let ghost x = (item.0@, item.1@);
        let ghost before = pairs_view(out@);
        let m = out.len();
        let mut pos: usize = 0;
        let mut searching = true;
        while searching && pos < m
            invariant
                m == out@.len(),
                pos <= m,
                before == pairs_view(out@),
                x == (item.0@, item.1@),
                forall|j: int| 0 <= j < pos ==> pair_le(before[j], x),
                !searching ==> pos < m && !pair_le(before[pos as int], x),
            decreases (if searching { 1int } else { 0int }), m - pos,
        {
            if pair_precedes(&out[pos], &item) {
                pos = pos + 1;
            } else {
                searching = false;
            }
        }
        out.insert(pos, item);
        proof {
            let after = pairs_view(out@);
            assert(after =~= before.insert(pos as int, x));
            lemma_pair_order_total();
            assert forall|a: int, b: int| 0 <= a < b < after.len() implies #[trigger] pair_order()(
                after[a],
                after[b],
            ) by {
                let p = pos as int;
                if b < p {
                    assert(pair_order()(before[a], before[b]));
                } else if b == p {
                    assert(pair_le(before[a], x));
                } else if a < p {
                    assert(after[b] == before[b - 1]);
                    assert(pair_order()(before[a], before[b - 1]));
                } else if a == p {
                    assert(after[b] == before[b - 1]);
                    assert(!pair_le(before[p], x));
                    assert(pair_order()(before[p], x) || pair_order()(x, before[p]));
                    if p < b - 1 {
                        assert(pair_order()(before[p], before[b - 1]));
                    } else {
                        assert(pair_order()(before[p], before[p]));
                    }
                    assert(pair_order()(x, before[p]) && pair_order()(before[p], before[b - 1]));
                } else {
                    assert(after[a] == before[a - 1]);
                    assert(after[b] == before[b - 1]);
                    assert(pair_order()(before[a - 1], before[b - 1]));
                }
            }
            let all = pairs_view(props@);
            assert(all.subrange(0, i + 1) =~= all.subrange(0, i as int).push(x));
            to_multiset_build(all.subrange(0, i as int), x);
            to_multiset_insert(before, pos as int, x);
        }
        i = i + 1;
    }
    proof {
        assert(pairs_view(props@).subrange(0, n as int) =~= pairs_view(props@));
        lemma_sorted_is_canonical(pairs_view(out@), pairs_view(props@));
    }
    out
}

} // verus!
