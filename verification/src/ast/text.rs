//! Small immutable strings, as used for attribute names, string literals and
//! identifiers throughout the expression tree.

use smol_str::SmolStr;
use vstd::prelude::*;

verus! {

/// `smol_str::SmolStr`: an immutable string. Nothing is known of a value of
/// it but what the items below say.
#[verifier::external_type_specification]
#[verifier::external_body]
pub struct ExSmolStr(smol_str::SmolStr);

/// The characters that a `SmolStr` holds, in order.
pub uninterp spec fn text(s: SmolStr) -> Seq<char>;

/// `SmolStr::new`: the new string holds exactly the characters of `s`.
#[verifier::external_body]
pub(crate) fn smol_str_new(s: &str) -> (r: SmolStr)
    ensures
        text(r) == s@,
{
    SmolStr::new(s)
}

/// `SmolStr::as_str`: the slice returned holds exactly the characters of `s`.
#[verifier::external_body]
pub(crate) fn smol_str_as_str(s: &SmolStr) -> (r: &str)
    ensures
        r@ == text(*s),
{
    s.as_str()
}

/// `SmolStr::clone`: the copy holds the characters that the string holds.
pub assume_specification[ <SmolStr as Clone>::clone ](s: &SmolStr) -> (r: SmolStr)
    ensures
        text(r) == text(*s),
;

/// `SmolStr::eq`, the `==` of two `SmolStr`s: two strings are equal exactly
/// when they hold the same characters.
#[verifier::external_body]
pub(crate) fn smol_str_eq(a: &SmolStr, b: &SmolStr) -> (r: bool)
    ensures
        r == (text(*a) == text(*b)),
{
    a == b
}

/// `SmolStr::eq` with a `str`, the `==` of a `SmolStr` and a `str`: the two
/// are equal exactly when they hold the same characters.
#[verifier::external_body]
pub(crate) fn smol_str_eq_str(a: &SmolStr, b: &str) -> (r: bool)
    ensures
        r == (text(*a) == b@),
{
    a == b
}

/// Whether the key at position `j` also stands at an earlier position.
pub open spec fn repeats_earlier(keys: Seq<Seq<char>>, j: int) -> bool {
    exists|i: int| 0 <= i < j && keys[i] == keys[j]
}

/// Whether `j` is the first position whose key also stands at an earlier
/// position.
pub open spec fn is_first_repeat(keys: Seq<Seq<char>>, j: int) -> bool {
    &&& 0 <= j < keys.len()
    &&& repeats_earlier(keys, j)
    &&& forall|k: int| 0 <= k < j ==> !repeats_earlier(keys, k)
}

/// The keys of a list of keys and values, in order.
pub open spec fn keys_of<T>(pairs: Seq<(SmolStr, T)>) -> Seq<Seq<char>> {
    Seq::new(pairs.len(), |i: int| text(pairs[i].0))
}

/// Look for the first key that repeats an earlier one.
///
/// Returns its position, or `None` where all the keys differ.
pub fn find_first_repeat<T>(pairs: &Vec<(SmolStr, T)>) -> (r: Option<usize>)
    ensures
        r is None <==> keys_of(pairs@).no_duplicates(),
        r matches Some(j) ==> is_first_repeat(keys_of(pairs@), j as int),
{
    let ghost keys = keys_of(pairs@);
    let mut j: usize = 0;
    while j < pairs.len()
        invariant
            j <= pairs.len(),
            keys == keys_of(pairs@),
            forall|k: int| 0 <= k < j ==> !repeats_earlier(keys, k),
        decreases pairs.len() - j,
    {
        let mut i: usize = 0;
        while i < j
            invariant
                i <= j < pairs.len(),
                keys == keys_of(pairs@),
                forall|k: int| 0 <= k < j ==> !repeats_earlier(keys, k),
                forall|k: int| 0 <= k < i ==> keys[k] != keys[j as int],
            decreases j - i,
        {
            if smol_str_eq(&pairs[i].0, &pairs[j].0) {
                assert(keys[i as int] == keys[j as int]);
                assert(repeats_earlier(keys, j as int));
                assert(!keys.no_duplicates());
                return Some(j);
            }
            i = i + 1;
        }
        j = j + 1;
    }
    assert forall|a: int, b: int| 0 <= a < keys.len() && 0 <= b < keys.len() && a != b implies keys[a]
        != keys[b] by {
        if a < b {
            assert(!repeats_earlier(keys, b));
        } else {
            assert(!repeats_earlier(keys, a));
        }
    }
    None
}

/// Whether the string `a` comes before the string `b`: whether, at the first
/// position at which they differ, `a` has the lesser character, or `a` ends
/// there and `b` does not.
pub open spec fn comes_before(a: Seq<char>, b: Seq<char>) -> bool
    decreases a.len(),
{
    if b.len() == 0 {
        false
    } else if a.len() == 0 {
        true
    } else if a[0] != b[0] {
        (a[0] as int) < (b[0] as int)
    } else {
        comes_before(a.drop_first(), b.drop_first())
    }
}

/// `SmolStr::partial_cmp`, through `<`: strings are ordered as `str` orders
/// them, by their bytes one after the other, which is the order of their
/// characters one after the other.
#[verifier::external_body]
pub(crate) fn smol_str_lt(a: &SmolStr, b: &SmolStr) -> (r: bool)
    ensures
        r == comes_before(text(*a), text(*b)),
{
    a < b
}

/// No string comes before itself.
pub proof fn lemma_comes_before_irreflexive(a: Seq<char>)
    ensures
        !comes_before(a, a),
    decreases a.len(),
{
    if a.len() > 0 {
        lemma_comes_before_irreflexive(a.drop_first());
    }
}

/// Of two different strings, one comes before the other.
pub proof fn lemma_comes_before_total(a: Seq<char>, b: Seq<char>)
    ensures
        a == b || comes_before(a, b) || comes_before(b, a),
    decreases a.len(),
{
    if a.len() > 0 && b.len() > 0 {
        if a[0] == b[0] {
            lemma_comes_before_total(a.drop_first(), b.drop_first());
            if a.drop_first() == b.drop_first() {
                assert(a =~= seq![a[0]] + a.drop_first());
                assert(b =~= seq![b[0]] + b.drop_first());
            }
        }
    } else if a.len() == 0 && b.len() == 0 {
        assert(a =~= b);
    }
}

/// What comes before what comes before a string comes before that string.
pub proof fn lemma_comes_before_transitive(a: Seq<char>, b: Seq<char>, c: Seq<char>)
    requires
        comes_before(a, b),
        comes_before(b, c),
    ensures
        comes_before(a, c),
    decreases a.len(),
{
    if a.len() > 0 && a[0] == b[0] && b[0] == c[0] {
        lemma_comes_before_transitive(a.drop_first(), b.drop_first(), c.drop_first());
    }
}

/// The strings `parts` one after the other, with `sep` between each two.
pub open spec fn joined(parts: Seq<Seq<char>>, sep: Seq<char>) -> Seq<char>
    decreases parts.len(),
{
    if parts.len() == 0 {
        Seq::empty()
    } else if parts.len() == 1 {
        parts[0]
    } else {
        joined(parts.drop_last(), sep) + sep + parts.last()
    }
}

} // verus!
