//! Sequence helpers shared by the converters: keeping the present items of a
//! sequence of options, and joining a sequence of sequences.

use vstd::prelude::*;

verus! {

/// The present items of `s`, in order.
pub open spec fn somes<T>(s: Seq<Option<T>>) -> Seq<T>
    decreases s.len(),
{
    if s.len() == 0 {
        Seq::empty()
    } else {
        match s.last() {
            Some(x) => somes(s.drop_last()).push(x),
            None => somes(s.drop_last()),
        }
    }
}

/// The items of the sequences of `s`, one sequence after the other.
pub open spec fn joined<T>(s: Seq<Seq<T>>) -> Seq<T>
    decreases s.len(),
{
    if s.len() == 0 {
        Seq::empty()
    } else {
        joined(s.drop_last()) + s.last()
    }
}

/// `somes` of a prefix that is one longer.
pub proof fn lemma_somes_step<T>(s: Seq<Option<T>>, i: int)
    requires
        0 <= i < s.len(),
    ensures
        somes(s.take(i + 1)) == match s[i] {
            Some(x) => somes(s.take(i)).push(x),
            None => somes(s.take(i)),
        },
        somes(s.take(0)) == Seq::<T>::empty(),
        s.take(s.len() as int) == s,
{
    assert(s.take(i + 1).drop_last() =~= s.take(i));
    assert(s.take(i + 1).last() == s[i]);
    assert(s.take(s.len() as int) =~= s);
}

/// `joined` of a prefix that is one longer.
pub proof fn lemma_joined_step<T>(s: Seq<Seq<T>>, i: int)
    requires
        0 <= i < s.len(),
    ensures
        joined(s.take(i + 1)) == joined(s.take(i)) + s[i],
        joined(s.take(0)) == Seq::<T>::empty(),
        s.take(s.len() as int) == s,
{
    assert(s.take(i + 1).drop_last() =~= s.take(i));
    assert(s.take(i + 1).last() == s[i]);
    assert(s.take(s.len() as int) =~= s);
}

/// `somes(s)` is no longer than `s`.
pub proof fn lemma_somes_len<T>(s: Seq<Option<T>>)
    ensures
        somes(s).len() <= s.len(),
    decreases s.len(),
{
    if s.len() > 0 {
        lemma_somes_len(s.drop_last());
    }
}

/// Every item of `somes(s)` is an item of `s`.
pub proof fn lemma_somes_from<T>(s: Seq<Option<T>>, k: int)
    requires
        0 <= k < somes(s).len(),
    ensures
        exists|j: int| 0 <= j < s.len() && s[j] == Some(somes(s)[k]),
    decreases s.len(),
{
    if s.len() > 0 {
        let rest = s.drop_last();
        if k < somes(rest).len() {
            lemma_somes_from(rest, k);
            let j = choose|j: int| 0 <= j < rest.len() && rest[j] == Some(somes(rest)[k]);
            assert(s[j] == Some(somes(s)[k]));
        } else {
            assert(s[s.len() - 1] == Some(somes(s)[k]));
        }
    }
}

/// `somes` of the empty prefix and of the whole.
pub proof fn lemma_somes_ends<T>(s: Seq<Option<T>>)
    ensures
        somes(s.take(0)) == Seq::<T>::empty(),
        s.take(s.len() as int) == s,
{
    assert(s.take(s.len() as int) =~= s);
}

/// A vector without items.
pub fn empty_vec<T: DeepView>() -> (r: Vec<T>)
    ensures
        r@.len() == 0,
        r.deep_view() == Seq::<T::V>::empty(),
{
    let r: Vec<T> = Vec::new();
    assert(r.deep_view() =~= Seq::<T::V>::empty());
    r
}

/// Pushes the item, if there is one.
pub fn push_some<T: DeepView>(out: &mut Vec<T>, item: Option<T>)
    ensures
        final(out).deep_view() == match item {
            Some(x) => old(out).deep_view().push(x.deep_view()),
            None => old(out).deep_view(),
        },
{
    match item {
        Some(x) => {
            let ghost before = *out;
            out.push(x);
            proof {
                lemma_deep_push(before, *out, x);
            }
        },
        None => {},
    }
}

/// A deep view of a vector after a push.
pub proof fn lemma_deep_push<T: DeepView>(before: Vec<T>, after: Vec<T>, x: T)
    requires
        after@ == before@.push(x),
    ensures
        after.deep_view() == before.deep_view().push(x.deep_view()),
{
    assert(after.deep_view() =~= before.deep_view().push(x.deep_view()));
}

/// A deep view of a vector after another was appended.
pub proof fn lemma_deep_append<T: DeepView>(before: Vec<T>, after: Vec<T>, added: Vec<T>)
    requires
        after@ == before@ + added@,
    ensures
        after.deep_view() == before.deep_view() + added.deep_view(),
{
    assert(after.deep_view() =~= before.deep_view() + added.deep_view());
}

} // verus!
