//! Helpers on strings: editing a `String` by characters, and the order in
//! which names are listed.

use vstd::prelude::*;

verus! {

/// Lexicographic order on texts, character by character by Unicode scalar
/// value; a proper prefix comes first. This is the order of `str` and
/// `String` in the standard library.
pub open spec fn text_le(a: Seq<char>, b: Seq<char>) -> bool
    decreases a.len(),
{
    if a.len() == 0 {
        true
    } else if b.len() == 0 {
        false
    } else if a[0] != b[0] {
        (a[0] as u32) < (b[0] as u32)
    } else {
        text_le(a.drop_first(), b.drop_first())
    }
}

/// Every element is at most the elements after it.
pub open spec fn is_sorted(names: Seq<Seq<char>>) -> bool {
    forall|i: int, j: int| 0 <= i <= j < names.len() ==> text_le(#[trigger] names[i], #[trigger] names[j])
}

/// `sorted` holds the same texts as `names`, each as often, in ascending order.
pub open spec fn is_sorting_of(sorted: Seq<Seq<char>>, names: Seq<Seq<char>>) -> bool {
    &&& is_sorted(sorted)
    &&& sorted.to_multiset() == names.to_multiset()
}

/// `String::push` of the standard library: appends one character.
#[verifier::external_body]
pub(crate) fn push_char(s: &mut String, c: char)
    ensures
        final(s)@ == old(s)@.push(c),
{
    s.push(c);
}

/// `String::pop` of the standard library: removes the last character and
/// returns it, or returns `None` and leaves the string as it is when it is
/// empty.
#[verifier::external_body]
pub(crate) fn pop_char(s: &mut String) -> (last: Option<char>)
    ensures
        old(s)@.len() == 0 ==> last is None && final(s)@ == old(s)@,
        old(s)@.len() > 0 ==> last == Some(old(s)@.last()) && final(s)@ == old(s)@.drop_last(),
{
    s.pop()
}

/// The slice method `sort` of the standard library on strings: reorders the
/// vector into ascending order. Strings compare lexicographically by their
/// bytes, which for UTF-8 is the order of their characters' scalar values.
#[verifier::external_body]
pub(crate) fn sort_names(names: &mut Vec<String>)
    ensures
        is_sorting_of(final(names).deep_view(), old(names).deep_view()),
{
    names.sort();
}

/// The texts of `names` in ascending order.
pub open spec fn sorted_texts(names: Seq<Seq<char>>) -> Seq<Seq<char>> {
    choose|sorted: Seq<Seq<char>>| is_sorting_of(sorted, names)
}

/// Two texts that are each at most the other are the same text.
pub proof fn lemma_text_le_antisymmetric(a: Seq<char>, b: Seq<char>)
    requires
        text_le(a, b),
        text_le(b, a),
    ensures
        a == b,
    decreases a.len(),
{
    if a.len() == 0 {
        assert(a =~= b);
    } else {
        lemma_text_le_antisymmetric(a.drop_first(), b.drop_first());
        assert(a =~= seq![a[0]] + a.drop_first());
        assert(b =~= seq![b[0]] + b.drop_first());
    }
}

/// Two ascending sequences that hold the same texts, each as often, are the
/// same sequence.
pub proof fn lemma_sorted_unique(x: Seq<Seq<char>>, y: Seq<Seq<char>>)
    requires
        is_sorted(x),
        is_sorted(y),
        x.to_multiset() == y.to_multiset(),
    ensures
        x == y,
    decreases x.len(),
{
    x.to_multiset_ensures();
    y.to_multiset_ensures();
    if x.len() == 0 {
        assert(x =~= y);
    } else {
        assert(x.contains(x[0]));
        assert(y.contains(y[0]));
        assert(y.to_multiset().count(x[0]) > 0);
        assert(x.to_multiset().count(y[0]) > 0);
        let j = choose|j: int| 0 <= j < y.len() && y[j] == x[0];
        let i = choose|i: int| 0 <= i < x.len() && x[i] == y[0];
        assert(text_le(y[0], y[j]));
        assert(text_le(x[0], x[i]));
        lemma_text_le_antisymmetric(x[0], y[0]);
        assert(x.remove(0) =~= x.drop_first());
        assert(y.remove(0) =~= y.drop_first());
        assert(x.drop_first().to_multiset() =~= y.drop_first().to_multiset());
        assert(is_sorted(x.drop_first())) by {
            assert forall|a: int, b: int| 0 <= a <= b < x.drop_first().len() implies text_le(
                #[trigger] x.drop_first()[a],
                #[trigger] x.drop_first()[b],
            ) by {
                assert(text_le(x[a + 1], x[b + 1]));
            }
        }
        assert(is_sorted(y.drop_first())) by {
            assert forall|a: int, b: int| 0 <= a <= b < y.drop_first().len() implies text_le(
                #[trigger] y.drop_first()[a],
                #[trigger] y.drop_first()[b],
            ) by {
                assert(text_le(y[a + 1], y[b + 1]));
            }
        }
        lemma_sorted_unique(x.drop_first(), y.drop_first());
        assert(x =~= seq![x[0]] + x.drop_first());
        assert(y =~= seq![y[0]] + y.drop_first());
    }
}

/// The strings of `names` in ascending order.
pub fn sorted(names: Vec<String>) -> (sorted: Vec<String>)
    ensures
        is_sorting_of(sorted.deep_view(), names.deep_view()),
        sorted.deep_view() == sorted_texts(names.deep_view()),
        sorted.len() == names.len(),
{
    let mut sorted = names;
    sort_names(&mut sorted);
    proof {
        let chosen = sorted_texts(names.deep_view());
        assert(is_sorting_of(chosen, names.deep_view()));
        lemma_sorted_unique(sorted.deep_view(), chosen);
        sorted.deep_view().to_multiset_ensures();
        names.deep_view().to_multiset_ensures();
    }
    sorted
}

/// Moves the text out of `s` and leaves it empty.
pub fn take_text(s: &mut String) -> (taken: String)
    ensures
        taken@ == old(s)@,
        final(s)@ == Seq::<char>::empty(),
{
    let mut taken = String::new();
    std::mem::swap(s, &mut taken);
    taken
}

} // verus!
