//! Lexicographic ordering of rows by a UTF-8 string key, used by the
//! listings that return rows sorted by name: byte-wise comparison, a
//! sortedness predicate, and an insertion-sort specification that the
//! executable listing code is proved against.

use vstd::prelude::*;
use vstd::string::StringSliceAdditionalSpecFns;

verus! {

/// Byte-wise lexicographic `a <= b`: true at the first position where
/// the byte of `a` is smaller, or when `a` runs out first.
pub open spec fn lex_le(a: Seq<u8>, b: Seq<u8>) -> bool
    decreases a.len(),
{
    if a.len() == 0 {
        true
    } else if b.len() == 0 {
        false
    } else if a[0] < b[0] {
        true
    } else if a[0] > b[0] {
        false
    } else {
        lex_le(a.skip(1), b.skip(1))
    }
}

/// The order is total.
pub proof fn lemma_lex_le_total(a: Seq<u8>, b: Seq<u8>)
    ensures
        lex_le(a, b) || lex_le(b, a),
    decreases a.len(),
{
    if a.len() != 0 && b.len() != 0 && a[0] == b[0] {
        lemma_lex_le_total(a.skip(1), b.skip(1));
    }
}

/// The order is transitive.
pub proof fn lemma_lex_le_trans(a: Seq<u8>, b: Seq<u8>, c: Seq<u8>)
    requires
        lex_le(a, b),
        lex_le(b, c),
    ensures
        lex_le(a, c),
    decreases a.len(),
{
    if a.len() != 0 && b.len() != 0 && c.len() != 0 && a[0] == b[0] && b[0] == c[0] {
        lemma_lex_le_trans(a.skip(1), b.skip(1), c.skip(1));
    }
}

/// Byte-wise `a <= b` on string slices.
pub fn str_le(a: &str, b: &str) -> (r: bool)
    ensures
        r == lex_le(a.spec_bytes(), b.spec_bytes()),
{
    let ab = a.as_bytes();
    let bb = b.as_bytes();
    let mut i: usize = 0;
    proof {
        assert(ab@.skip(0) =~= ab@);
        assert(bb@.skip(0) =~= bb@);
    }
    while i < ab.len()
        invariant
            i <= ab@.len(),
            i <= bb@.len(),
            ab@ == a.spec_bytes(),
            bb@ == b.spec_bytes(),
            lex_le(a.spec_bytes(), b.spec_bytes()) == lex_le(
                ab@.skip(i as int),
                bb@.skip(i as int),
            ),
        decreases ab@.len() - i,
    {
        if i >= bb.len() {
            return false;
        }
        if ab[i] < bb[i] {
            return true;
        }
        if ab[i] > bb[i] {
            return false;
        }
        proof {
            assert(ab@.skip(i as int).skip(1) =~= ab@.skip(i + 1));
            assert(bb@.skip(i as int).skip(1) =~= bb@.skip(i + 1));
        }
        i = i + 1;
    }
    true
}

/// The rows of `s` are in ascending key order.
pub open spec fn sorted_by_key<A>(s: Seq<A>, key: spec_fn(A) -> Seq<u8>) -> bool {
    forall|i: int, j: int| 0 <= i < j < s.len() ==> lex_le(key(s[i]), key(s[j]))
}

/// `x` placed before the first row of `s` whose key is not below it.
pub open spec fn insert_sorted<A>(s: Seq<A>, x: A, key: spec_fn(A) -> Seq<u8>) -> Seq<A>
    decreases s.len(),
{
    if s.len() == 0 {
        seq![x]
    } else if lex_le(key(x), key(s[0])) {
        seq![x] + s
    } else {
        seq![s[0]] + insert_sorted(s.skip(1), x, key)
    }
}

/// Insertion sort: the rows of `s` inserted one by one, in order.
/// Each row lands before the first row whose key is not below its
/// own, so among rows with equal keys the later-inserted one comes
/// out first.
pub open spec fn sort_by_key<A>(s: Seq<A>, key: spec_fn(A) -> Seq<u8>) -> Seq<A>
    decreases s.len(),
{
    if s.len() == 0 {
        Seq::empty()
    } else {
        insert_sorted(sort_by_key(s.drop_last(), key), s.last(), key)
    }
}

/// Inserting at the position the executable scan finds is exactly
/// `insert_sorted`: `p` is the first index whose key is not below
/// `x`'s.
pub proof fn lemma_insert_sorted_at<A>(s: Seq<A>, x: A, key: spec_fn(A) -> Seq<u8>, p: int)
    requires
        0 <= p <= s.len(),
        forall|j: int| 0 <= j < p ==> !lex_le(key(x), key(s[j])),
        p < s.len() ==> lex_le(key(x), key(s[p])),
    ensures
        insert_sorted(s, x, key) == s.insert(p, x),
    decreases p,
{
    if p == 0 {
        if s.len() == 0 {
            assert(insert_sorted(s, x, key) =~= s.insert(0, x));
        } else {
            assert(seq![x] + s =~= s.insert(0, x));
        }
    } else {
        assert(!lex_le(key(x), key(s[0])));
        lemma_insert_sorted_at(s.skip(1), x, key, p - 1);
        assert(seq![s[0]] + s.skip(1).insert(p - 1, x) =~= s.insert(p, x));
    }
}

/// Every row of `insert_sorted(s, x, _)` is `x` or a row of `s`.
pub proof fn lemma_insert_sorted_elems<A>(s: Seq<A>, x: A, key: spec_fn(A) -> Seq<u8>, i: int)
    requires
        0 <= i < insert_sorted(s, x, key).len(),
    ensures
        insert_sorted(s, x, key)[i] == x || exists|j: int|
            0 <= j < s.len() && insert_sorted(s, x, key)[i] == s[j],
    decreases s.len(),
{
    if s.len() == 0 {
    } else if lex_le(key(x), key(s[0])) {
        if i > 0 {
            assert(insert_sorted(s, x, key)[i] == s[i - 1]);
        }
    } else {
        if i > 0 {
            lemma_insert_sorted_elems(s.skip(1), x, key, i - 1);
            let t = insert_sorted(s.skip(1), x, key);
            if t[i - 1] != x {
                let j = choose|j: int| 0 <= j < s.skip(1).len() && t[i - 1] == s.skip(1)[j];
                assert(insert_sorted(s, x, key)[i] == s[j + 1]);
            }
        }
    }
}

/// Inserting into a sorted sequence keeps it sorted.
pub proof fn lemma_insert_sorted_sorted<A>(s: Seq<A>, x: A, key: spec_fn(A) -> Seq<u8>)
    requires
        sorted_by_key(s, key),
    ensures
        sorted_by_key(insert_sorted(s, x, key), key),
    decreases s.len(),
{
    let out = insert_sorted(s, x, key);
    if s.len() == 0 {
    } else if lex_le(key(x), key(s[0])) {
        assert forall|i: int, j: int| 0 <= i < j < out.len() implies lex_le(
            key(out[i]),
            key(out[j]),
        ) by {
            if i == 0 {
                if j >= 2 {
                    lemma_lex_le_trans(key(x), key(s[0]), key(s[j - 1]));
                }
            }
        }
    } else {
        lemma_lex_le_total(key(x), key(s[0]));
        assert(lex_le(key(s[0]), key(x)));
        assert(sorted_by_key(s.skip(1), key)) by {
            assert forall|i: int, j: int| 0 <= i < j < s.skip(1).len() implies lex_le(
                key(s.skip(1)[i]),
                key(s.skip(1)[j]),
            ) by {
                assert(s.skip(1)[i] == s[i + 1]);
                assert(s.skip(1)[j] == s[j + 1]);
            }
        }
        lemma_insert_sorted_sorted(s.skip(1), x, key);
        let t = insert_sorted(s.skip(1), x, key);
        assert forall|i: int, j: int| 0 <= i < j < out.len() implies lex_le(
            key(out[i]),
            key(out[j]),
        ) by {
            if i == 0 {
                assert(out[j] == t[j - 1]);
                lemma_insert_sorted_elems(s.skip(1), x, key, j - 1);
                if t[j - 1] == x {
                } else {
                    let k = choose|k: int| 0 <= k < s.skip(1).len() && t[j - 1] == s.skip(1)[k];
                    assert(s.skip(1)[k] == s[k + 1]);
                }
            } else {
                assert(out[i] == t[i - 1]);
                assert(out[j] == t[j - 1]);
            }
        }
    }
}

/// The insertion sort produces a sorted sequence: the general form of
/// the ordering contracts on the name-ordered listings.
pub proof fn lemma_sort_by_key_sorted<A>(s: Seq<A>, key: spec_fn(A) -> Seq<u8>)
    ensures
        sorted_by_key(sort_by_key(s, key), key),
    decreases s.len(),
{
    if s.len() != 0 {
        lemma_sort_by_key_sorted(s.drop_last(), key);
        lemma_insert_sorted_sorted(sort_by_key(s.drop_last(), key), s.last(), key);
    }
}

} // verus!
