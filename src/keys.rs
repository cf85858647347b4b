//! Byte keys: prefixes and the lexicographic order in which a store walks them.
use vstd::prelude::*;

verus! {

/// `k` starts with `p`.
pub open spec fn has_prefix(k: Seq<u8>, p: Seq<u8>) -> bool {
    p.len() <= k.len() && k.subrange(0, p.len() as int) == p
}

/// Strict lexicographic order on byte strings, a proper prefix coming first.
pub open spec fn lex_lt(a: Seq<u8>, b: Seq<u8>) -> bool
    decreases a.len(),
{
    if a.len() == 0 {
        b.len() > 0
    } else if b.len() == 0 {
        false
    } else if a[0] != b[0] {
        a[0] < b[0]
    } else {
        lex_lt(a.drop_first(), b.drop_first())
    }
}

/// `k` is a key of `m` that starts with `p`, and no such key comes before it.
pub open spec fn is_first_match(m: Map<Seq<u8>, Seq<u8>>, p: Seq<u8>, k: Seq<u8>) -> bool {
    &&& m.contains_key(k)
    &&& has_prefix(k, p)
    &&& forall|k2: Seq<u8>| #[trigger]
        m.contains_key(k2) && has_prefix(k2, p) ==> !lex_lt(k2, k)
}

/// Some key of `m` starts with `p`.
pub open spec fn any_match(m: Map<Seq<u8>, Seq<u8>>, p: Seq<u8>) -> bool {
    exists|k: Seq<u8>| #[trigger] m.contains_key(k) && has_prefix(k, p)
}

/// The first key of `m`, in lexicographic order, that starts with `p`.
pub open spec fn first_match(m: Map<Seq<u8>, Seq<u8>>, p: Seq<u8>) -> Option<Seq<u8>> {
    if exists|k: Seq<u8>| is_first_match(m, p, k) {
        Some(choose|k: Seq<u8>| is_first_match(m, p, k))
    } else {
        None
    }
}

/// Two distinct byte strings are ordered one way or the other.
pub proof fn lemma_lex_total(a: Seq<u8>, b: Seq<u8>)
    requires
        a != b,
    ensures
        lex_lt(a, b) || lex_lt(b, a),
    decreases a.len(),
{
    if a.len() == 0 || b.len() == 0 {
        if a.len() == 0 && b.len() == 0 {
            assert(a =~= b);
        }
    } else if a[0] == b[0] {
        if a.drop_first() == b.drop_first() {
            assert(a =~= seq![a[0]] + a.drop_first());
            assert(b =~= seq![b[0]] + b.drop_first());
        }
        lemma_lex_total(a.drop_first(), b.drop_first());
    }
}

/// No byte string comes before itself.
pub proof fn lemma_lex_irreflexive(a: Seq<u8>)
    ensures
        !lex_lt(a, a),
    decreases a.len(),
{
    if a.len() > 0 {
        lemma_lex_irreflexive(a.drop_first());
    }
}

/// A proper prefix comes before every longer string that starts with it.
pub proof fn lemma_prefix_first(p: Seq<u8>, k: Seq<u8>)
    requires
        has_prefix(k, p),
        k != p,
    ensures
        lex_lt(p, k),
    decreases p.len(),
{
    if p.len() > 0 {
        assert(k.len() > 0);
        assert(k[0] == k.subrange(0, p.len() as int)[0]);
        assert(k.drop_first().subrange(0, p.drop_first().len() as int)
            =~= k.subrange(0, p.len() as int).drop_first());
        if k.drop_first() == p.drop_first() {
            assert(k =~= seq![k[0]] + k.drop_first());
            assert(p =~= seq![p[0]] + p.drop_first());
        }
        lemma_prefix_first(p.drop_first(), k.drop_first());
    } else {
        assert(k.len() > 0) by {
            if k.len() == 0 {
                assert(k =~= p);
            }
        }
    }
}

/// The first match is unique, so `first_match` names it.
pub proof fn lemma_first_match_is(m: Map<Seq<u8>, Seq<u8>>, p: Seq<u8>, k: Seq<u8>)
    requires
        is_first_match(m, p, k),
    ensures
        first_match(m, p) == Some(k),
{
    let c = choose|k: Seq<u8>| is_first_match(m, p, k);
    assert(is_first_match(m, p, c));
    if c != k {
        lemma_lex_total(c, k);
        assert(m.contains_key(k) && has_prefix(k, p));
        assert(m.contains_key(c) && has_prefix(c, p));
    }
}

/// A key equal to the prefix itself is always the first match.
pub proof fn lemma_exact_key_first(m: Map<Seq<u8>, Seq<u8>>, p: Seq<u8>)
    requires
        m.contains_key(p),
    ensures
        first_match(m, p) == Some(p),
{
    assert(p.subrange(0, p.len() as int) =~= p);
    assert forall|k2: Seq<u8>| #[trigger]
        m.contains_key(k2) && has_prefix(k2, p) implies !lex_lt(k2, p) by {
        if k2 == p {
            lemma_lex_irreflexive(p);
        } else {
            lemma_prefix_first(p, k2);
            lemma_lex_asymmetric(p, k2);
        }
    }
    lemma_first_match_is(m, p, p);
}

/// The order is asymmetric.
pub proof fn lemma_lex_asymmetric(a: Seq<u8>, b: Seq<u8>)
    requires
        lex_lt(a, b),
    ensures
        !lex_lt(b, a),
    decreases a.len(),
{
    if a.len() > 0 && b.len() > 0 && a[0] == b[0] {
        lemma_lex_asymmetric(a.drop_first(), b.drop_first());
    }
}

/// Without a key that starts with `p` there is no first match.
pub proof fn lemma_no_match(m: Map<Seq<u8>, Seq<u8>>, p: Seq<u8>)
    requires
        !any_match(m, p),
    ensures
        first_match(m, p) is None,
{
    if exists|k: Seq<u8>| is_first_match(m, p, k) {
        let k = choose|k: Seq<u8>| is_first_match(m, p, k);
        assert(m.contains_key(k) && has_prefix(k, p));
    }
}

} // verus!
