//! Lexicographic order on sequences, the building block of every order in
//! this crate: texts are ordered by their UTF-8 bytes, lists element by
//! element.

use std::cmp::Ordering;
use vstd::prelude::*;
use vstd::utf8::{encode_utf8, encode_utf8_decode_utf8};

verus! {

/// A value that is ordered, and told apart, by an integer key.
pub trait Keyed: Sized {
    /// The key: smaller keys come first.
    spec fn key(self) -> int;

    /// Two values with the same key are the same value.
    proof fn key_is_injective(a: Self, b: Self)
        requires
            a.key() == b.key(),
        ensures
            a == b,
    ;

    /// The key as a machine integer.
    fn key_value(&self) -> (k: u16)
        ensures
            k == self.key(),
    ;
}

impl Keyed for u8 {
    open spec fn key(self) -> int {
        self as int
    }

    proof fn key_is_injective(a: Self, b: Self) {
    }

    fn key_value(&self) -> (k: u16) {
        *self as u16
    }
}

/// `a` comes strictly before `b`: at the first position where they differ
/// `a` has the smaller key, or `a` is a proper prefix of `b`.
pub open spec fn lex_precedes<T: Keyed>(a: Seq<T>, b: Seq<T>) -> bool
    decreases a.len(),
{
    if b.len() == 0 {
        false
    } else if a.len() == 0 {
        true
    } else if a[0].key() != b[0].key() {
        a[0].key() < b[0].key()
    } else {
        lex_precedes(a.drop_first(), b.drop_first())
    }
}

/// The order of two texts: that of their UTF-8 encodings, byte by byte.
pub open spec fn text_precedes(a: Seq<char>, b: Seq<char>) -> bool {
    lex_precedes(encode_utf8(a), encode_utf8(b))
}

/// No sequence comes before itself.
pub proof fn lex_irreflexive<T: Keyed>(a: Seq<T>)
    ensures
        !lex_precedes(a, a),
    decreases a.len(),
{
    if a.len() > 0 {
        lex_irreflexive(a.drop_first());
    }
}

/// If `a` comes before `b` and `b` before `c`, then `a` comes before `c`.
pub proof fn lex_transitive<T: Keyed>(a: Seq<T>, b: Seq<T>, c: Seq<T>)
    requires
        lex_precedes(a, b),
        lex_precedes(b, c),
    ensures
        lex_precedes(a, c),
    decreases a.len(),
{
    if a.len() > 0 && a[0].key() == b[0].key() && b[0].key() == c[0].key() {
        lex_transitive(a.drop_first(), b.drop_first(), c.drop_first());
    }
}

/// Of two different sequences one comes before the other.
pub proof fn lex_connected<T: Keyed>(a: Seq<T>, b: Seq<T>)
    requires
        a != b,
    ensures
        lex_precedes(a, b) || lex_precedes(b, a),
    decreases a.len(),
{
    if a.len() > 0 && b.len() > 0 && a[0].key() == b[0].key() {
        T::key_is_injective(a[0], b[0]);
        if a.drop_first() == b.drop_first() {
            assert(a =~= seq![a[0]] + a.drop_first());
            assert(b =~= seq![b[0]] + b.drop_first());
        }
        lex_connected(a.drop_first(), b.drop_first());
    } else if a.len() == 0 && b.len() == 0 {
        assert(a =~= b);
    }
}

/// No text comes before itself.
pub proof fn text_irreflexive(a: Seq<char>)
    ensures
        !text_precedes(a, a),
{
    lex_irreflexive(encode_utf8(a));
}

/// The order of texts is transitive.
pub proof fn text_transitive(a: Seq<char>, b: Seq<char>, c: Seq<char>)
    requires
        text_precedes(a, b),
        text_precedes(b, c),
    ensures
        text_precedes(a, c),
{
    lex_transitive(encode_utf8(a), encode_utf8(b), encode_utf8(c));
}

/// Of two different texts one comes before the other.
pub proof fn text_connected(a: Seq<char>, b: Seq<char>)
    requires
        a != b,
    ensures
        text_precedes(a, b) || text_precedes(b, a),
{
    encode_utf8_decode_utf8(a);
    encode_utf8_decode_utf8(b);
    lex_connected(encode_utf8(a), encode_utf8(b));
}

/// Whether `a` comes strictly before `b`, element by element.
pub fn slice_precedes<T: Keyed>(a: &[T], b: &[T]) -> (r: bool)
    ensures
        r == lex_precedes(a@, b@),
{
    let mut i: usize = 0;
    assert(a@.skip(0) =~= a@ && b@.skip(0) =~= b@);
    while i < a.len() && i < b.len()
        invariant
            i <= a.len(),
            i <= b.len(),
            lex_precedes(a@, b@) == lex_precedes(a@.skip(i as int), b@.skip(i as int)),
        decreases a.len() - i,
    {
        let ka = a[i].key_value();
        let kb = b[i].key_value();
        proof {
            let sa = a@.skip(i as int);
            let sb = b@.skip(i as int);
            assert(sa[0] == a@[i as int]);
            assert(sb[0] == b@[i as int]);
            assert(sa.drop_first() =~= a@.skip(i + 1));
            assert(sb.drop_first() =~= b@.skip(i + 1));
        }
        if ka != kb {
            return ka < kb;
        }
        i += 1;
    }
    proof {
        assert(a@.skip(i as int).len() == a.len() - i);
        assert(b@.skip(i as int).len() == b.len() - i);
    }
    i < b.len()
}

/// Whether `a` and `b` hold the same elements in the same order.
pub fn slice_equal<T: Keyed>(a: &[T], b: &[T]) -> (r: bool)
    ensures
        r == (a@ == b@),
{
    if a.len() != b.len() {
        return false;
    }
    let mut i: usize = 0;
    while i < a.len()
        invariant
            i <= a.len(),
            a.len() == b.len(),
            forall|j: int| 0 <= j < i ==> a@[j] == b@[j],
        decreases a.len() - i,
    {
        if a[i].key_value() != b[i].key_value() {
            return false;
        }
        proof {
            T::key_is_injective(a@[i as int], b@[i as int]);
        }
        i += 1;
    }
    assert(a@ =~= b@);
    true
}

/// The three-way answer that belongs to the two strict answers `before`
/// ("the first comes before the second") and `after` (the converse).
pub open spec fn order_from(before: bool, after: bool) -> Option<Ordering> {
    Some(
        if before {
            Ordering::Less
        } else if after {
            Ordering::Greater
        } else {
            Ordering::Equal
        },
    )
}

/// Computes [`order_from`].
pub fn order_from_value(before: bool, after: bool) -> (r: Option<Ordering>)
    ensures
        r == order_from(before, after),
{
    if before {
        Some(Ordering::Less)
    } else if after {
        Some(Ordering::Greater)
    } else {
        Some(Ordering::Equal)
    }
}

/// Whether the text `a` comes strictly before the text `b`.
pub fn str_precedes(a: &str, b: &str) -> (r: bool)
    ensures
        r == text_precedes(a@, b@),
{
    slice_precedes(a.as_bytes(), b.as_bytes())
}

} // verus!
