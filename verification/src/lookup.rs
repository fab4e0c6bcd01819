//! Looking things up in sequences: where a text stands among others, and
//! which items of a sequence are marked.

use vstd::prelude::*;

verus! {

/// The views of a sequence of texts.
pub open spec fn texts_of(texts: Seq<String>) -> Seq<Seq<char>> {
    texts.map_values(|t: String| t@)
}

/// `wanted` stands at position `at`, and at no position before it.
pub open spec fn is_first_at(texts: Seq<Seq<char>>, wanted: Seq<char>, at: int) -> bool {
    &&& 0 <= at < texts.len()
    &&& texts[at] == wanted
    &&& forall|j: int| 0 <= j < at ==> #[trigger] texts[j] != wanted
}

/// `wanted` is one of the texts.
pub open spec fn holds_text(texts: Seq<Seq<char>>, wanted: Seq<char>) -> bool {
    exists|i: int| 0 <= i < texts.len() && #[trigger] texts[i] == wanted
}

/// The items whose mark is set, in their order. An item without a mark
/// counts as not marked.
pub open spec fn marked<T>(items: Seq<T>, marks: Seq<bool>) -> Seq<T>
    decreases items.len(),
{
    if items.len() == 0 {
        Seq::<T>::empty()
    } else {
        let front = marked(items.drop_last(), marks);
        if items.len() - 1 < marks.len() && marks[items.len() - 1] {
            front.push(items.last())
        } else {
            front
        }
    }
}

/// Where each mark says whether the item meets a condition, the marked
/// items are the items that meet it.
pub proof fn lemma_marked_is_filter<T>(items: Seq<T>, marks: Seq<bool>, wanted: spec_fn(T) -> bool)
    requires
        marks.len() >= items.len(),
        forall|i: int| 0 <= i < items.len() ==> #[trigger] marks[i] == wanted(items[i]),
    ensures
        marked(items, marks) == items.filter(wanted),
    decreases items.len(),
{
    reveal(Seq::filter);
    if items.len() > 0 {
        lemma_marked_is_filter(items.drop_last(), marks, wanted);
        assert(marks[items.len() - 1] == wanted(items[items.len() - 1]));
    }
}

/// The first position at which `wanted` stands among `texts`.
pub fn position_of_text(texts: &Vec<String>, wanted: &str) -> (r: Option<usize>)
    ensures
        match r {
            Some(at) => is_first_at(texts_of(texts@), wanted@, at as int),
            None => !holds_text(texts_of(texts@), wanted@),
        },
{
    let sought = wanted.to_owned();
    let mut i: usize = 0;
    while i < texts.len()
        invariant
            i <= texts.len(),
            sought@ == wanted@,
            forall|j: int| 0 <= j < i ==> #[trigger] texts_of(texts@)[j] != wanted@,
        decreases texts.len() - i,
    {
        if texts[i] == sought {
            return Some(i);
        }
        i += 1;
    }
    None
}

/// The items of `items` whose mark is set, in their order.
pub fn select_marked<'a, T>(items: &'a Vec<T>, marks: &Vec<bool>) -> (r: Vec<&'a T>)
    ensures
        r@.map_values(|t: &T| *t) == marked(items@, marks@),
{
    let mut found: Vec<&'a T> = Vec::new();
    let mut i: usize = 0;
    proof {
        assert(items@.take(0) =~= Seq::<T>::empty());
        assert(found@.map_values(|t: &T| *t) =~= Seq::<T>::empty());
    }
    while i < items.len()
        invariant
            i <= items.len(),
            found@.map_values(|t: &T| *t) == marked(items@.take(i as int), marks@),
        decreases items.len() - i,
    {
        proof {
            assert(items@.take(i + 1).drop_last() =~= items@.take(i as int));
            assert(items@.take(i + 1).last() == items@[i as int]);
        }
        let ghost before = found@;
        if i < marks.len() && marks[i] {
            found.push(&items[i]);
            assert(found@.map_values(|t: &T| *t) =~= before.map_values(|t: &T| *t).push(
                items@[i as int],
            ));
        }
        i += 1;
    }
    proof {
        assert(items@.take(items@.len() as int) =~= items@);
    }
    found
}

} // verus!
