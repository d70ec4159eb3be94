//! Pairs of entities. A pair has no direction: it is keyed by its two
//! identifiers in byte order, so that either order of asking finds one state.

use vstd::prelude::*;
use vstd::utf8::{encode_utf8, decode_utf8, encode_utf8_decode_utf8};

verus! {

/// Lexicographic order on byte strings: the first differing byte decides,
/// and a proper prefix comes first.
pub open spec fn lex_lt(a: Seq<u8>, b: Seq<u8>) -> bool
    decreases a.len(),
{
    if b.len() == 0 {
        false
    } else if a.len() == 0 {
        true
    } else if a[0] != b[0] {
        a[0] < b[0]
    } else {
        lex_lt(a.skip(1), b.skip(1))
    }
}

/// The order of identifiers: that of their UTF-8 encodings.
pub open spec fn id_lt(a: Seq<char>, b: Seq<char>) -> bool {
    lex_lt(encode_utf8(a), encode_utf8(b))
}

/// The key of the pair of `a` and `b`: the two in order. A pair of one
/// identifier with itself keeps it twice.
pub open spec fn canonical(a: Seq<char>, b: Seq<char>) -> (Seq<char>, Seq<char>) {
    if id_lt(a, b) {
        (a, b)
    } else {
        (b, a)
    }
}

/// Whether a record about `x` and `y` concerns the pair of `a` and `b`, in
/// either direction.
pub open spec fn same_pair(x: Seq<char>, y: Seq<char>, a: Seq<char>, b: Seq<char>) -> bool {
    (x == a && y == b) || (x == b && y == a)
}

/// No byte string is below itself, and of two only one is below the other.
pub proof fn lemma_lex_asymmetric(a: Seq<u8>, b: Seq<u8>)
    ensures
        !(lex_lt(a, b) && lex_lt(b, a)),
    decreases a.len(),
{
    if a.len() > 0 && b.len() > 0 && a[0] == b[0] {
        lemma_lex_asymmetric(a.skip(1), b.skip(1));
    }
}

/// Two byte strings of which neither is below the other are one.
pub proof fn lemma_lex_total(a: Seq<u8>, b: Seq<u8>)
    requires
        !lex_lt(a, b),
        !lex_lt(b, a),
    ensures
        a == b,
    decreases a.len(),
{
    if a.len() > 0 && b.len() > 0 {
        lemma_lex_total(a.skip(1), b.skip(1));
        assert(a =~= seq![a[0]] + a.skip(1));
        assert(b =~= seq![b[0]] + b.skip(1));
    }
    assert(a =~= b);
}

/// Below is transitive.
pub proof fn lemma_lex_transitive(a: Seq<u8>, b: Seq<u8>, c: Seq<u8>)
    requires
        lex_lt(a, b),
        lex_lt(b, c),
    ensures
        lex_lt(a, c),
    decreases a.len(),
{
    if a.len() > 0 && b.len() > 0 && c.len() > 0 && a[0] == b[0] && b[0] == c[0] {
        lemma_lex_transitive(a.skip(1), b.skip(1), c.skip(1));
    }
}

/// Of two different identifiers exactly one is below the other, and none
/// is below itself.
pub proof fn lemma_id_order(a: Seq<char>, b: Seq<char>)
    ensures
        !(id_lt(a, b) && id_lt(b, a)),
        a != b ==> id_lt(a, b) || id_lt(b, a),
        !id_lt(a, a),
{
    lemma_lex_asymmetric(encode_utf8(a), encode_utf8(b));
    lemma_lex_asymmetric(encode_utf8(a), encode_utf8(a));
    if !id_lt(a, b) && !id_lt(b, a) {
        lemma_lex_total(encode_utf8(a), encode_utf8(b));
        encode_utf8_decode_utf8(a);
        encode_utf8_decode_utf8(b);
        assert(a == decode_utf8(encode_utf8(a)));
        assert(b == decode_utf8(encode_utf8(b)));
    }
}

/// A pair has one key, in whichever order its two identifiers are given.
pub proof fn lemma_canonical_symmetric(a: Seq<char>, b: Seq<char>)
    ensures
        canonical(a, b) == canonical(b, a),
{
    lemma_id_order(a, b);
}

/// The key holds the two identifiers, the lower one first, and is its own
/// key.
pub proof fn lemma_canonical_ordered(a: Seq<char>, b: Seq<char>)
    ensures
        same_pair(canonical(a, b).0, canonical(a, b).1, a, b),
        !id_lt(canonical(a, b).1, canonical(a, b).0),
        canonical(canonical(a, b).0, canonical(a, b).1) == canonical(a, b),
{
    lemma_id_order(a, b);
}

/// Whether the byte string `a` is below `b`.
pub fn bytes_lt(a: &[u8], b: &[u8]) -> (r: bool)
    ensures
        r == lex_lt(a@, b@),
{
    let mut i: usize = 0;
    assert(a@.skip(0) =~= a@);
    assert(b@.skip(0) =~= b@);
    while i < a.len() && i < b.len()
        invariant
            i <= a@.len(),
            i <= b@.len(),
            lex_lt(a@, b@) == lex_lt(a@.skip(i as int), b@.skip(i as int)),
        decreases a@.len() - i,
    {
        let x: u8 = a[i];
        let y: u8 = b[i];
        assert(a@.skip(i as int)[0] == x);
        assert(b@.skip(i as int)[0] == y);
        if x != y {
            return x < y;
        }
        assert(a@.skip(i as int).skip(1) =~= a@.skip(i + 1));
        assert(b@.skip(i as int).skip(1) =~= b@.skip(i + 1));
        i += 1;
    }
    assert(a@.skip(i as int).len() == a@.len() - i);
    assert(b@.skip(i as int).len() == b@.len() - i);
    i < b.len()
}

/// Whether the identifier `a` is below `b`.
pub fn precedes(a: &str, b: &str) -> (r: bool)
    ensures
        r == id_lt(a@, b@),
{
    bytes_lt(a.as_bytes(), b.as_bytes())
}

/// The key of the pair of `a` and `b`.
pub fn dyad_key(a: &str, b: &str) -> (key: (String, String))
    ensures
        (key.0@, key.1@) == canonical(a@, b@),
{
    if precedes(a, b) {
        (a.to_owned(), b.to_owned())
    } else {
        (b.to_owned(), a.to_owned())
    }
}

} // verus!
