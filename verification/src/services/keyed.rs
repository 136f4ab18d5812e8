//! The mathematical model of a list of entries that are found by name.
//!
//! The stores keep their entries in the order in which they were added and
//! look an entry up by scanning for the first one with the wanted name.

use vstd::prelude::*;

verus! {

/// An entry that is found by its name.
pub trait Named {
    /// The name under which the entry is found.
    spec fn key(&self) -> Seq<char>;
}

/// The index of the first entry named `key`, or the length of `items` where
/// there is none.
pub open spec fn position<T: Named>(items: Seq<T>, key: Seq<char>) -> int
    decreases items.len(),
{
    if items.len() == 0 {
        0
    } else if items[0].key() == key {
        0
    } else {
        1 + position(items.drop_first(), key)
    }
}

/// Some entry is named `key`.
pub open spec fn contains_key<T: Named>(items: Seq<T>, key: Seq<char>) -> bool {
    position(items, key) < items.len()
}

/// At most one entry is named `key`.
pub open spec fn at_most_once<T: Named>(items: Seq<T>, key: Seq<char>) -> bool {
    forall|i: int, j: int|
        0 <= i < items.len() && 0 <= j < items.len() && items[i].key() == key && items[j].key()
            == key ==> i == j
}

/// No two entries share a name.
pub open spec fn unique_keys<T: Named>(items: Seq<T>) -> bool {
    forall|i: int, j: int|
        0 <= i < items.len() && 0 <= j < items.len() && items[i].key() == items[j].key() ==> i
            == j
}

/// The first entry named `key` as a list of one, or the empty list.
pub open spec fn single<T: Named>(items: Seq<T>, key: Seq<char>) -> Seq<T> {
    if contains_key(items, key) {
        Seq::empty().push(items[position(items, key)])
    } else {
        Seq::empty()
    }
}

/// The first entry named `key`, if there is one.
pub open spec fn lookup<T: Named>(items: Seq<T>, key: Seq<char>) -> Option<T> {
    if contains_key(items, key) {
        Some(items[position(items, key)])
    } else {
        None
    }
}

/// `value` in the place of the first entry named `key`, or at the end where
/// there is none.
pub open spec fn upsert<T: Named>(items: Seq<T>, key: Seq<char>, value: T) -> Seq<T> {
    if contains_key(items, key) {
        items.update(position(items, key), value)
    } else {
        items.push(value)
    }
}

/// The list without its first entry named `key`.
pub open spec fn without<T: Named>(items: Seq<T>, key: Seq<char>) -> Seq<T> {
    if contains_key(items, key) {
        items.remove(position(items, key))
    } else {
        items
    }
}

/// `position` is in range, points at an entry named `key` when it is inside
/// the list, and no earlier entry has that name.
pub proof fn lemma_position<T: Named>(items: Seq<T>, key: Seq<char>)
    ensures
        0 <= position(items, key) <= items.len(),
        position(items, key) < items.len() ==> items[position(items, key)].key() == key,
        forall|j: int| 0 <= j < position(items, key) ==> (#[trigger] items[j]).key() != key,
    decreases items.len(),
{
    if items.len() != 0 && items[0].key() != key {
        let rest = items.drop_first();
        lemma_position(rest, key);
        assert forall|j: int| 0 <= j < position(items, key) implies (#[trigger] items[j]).key()
            != key by {
            if j > 0 {
                assert(items[j] == rest[j - 1]);
            }
        }
    }
}

/// An index whose entry is the first one named `key` is the `position`; so is
/// the length of a list that holds no such entry.
pub proof fn lemma_position_is<T: Named>(items: Seq<T>, key: Seq<char>, i: int)
    requires
        0 <= i <= items.len(),
        i < items.len() ==> items[i].key() == key,
        forall|j: int| 0 <= j < i ==> (#[trigger] items[j]).key() != key,
    ensures
        position(items, key) == i,
{
    lemma_position(items, key);
    let p = position(items, key);
    if p < i {
        assert(items[p].key() == key);
    } else if p > i {
        assert(items[i].key() == key);
    }
}

/// Setting an entry under its own name and then getting that name gives the
/// entry back.
pub proof fn law_set_then_get<T: Named>(items: Seq<T>, key: Seq<char>, value: T)
    requires
        value.key() == key,
    ensures
        single(upsert(items, key, value), key) == Seq::<T>::empty().push(value),
        lookup(upsert(items, key, value), key) == Some(value),
{
    lemma_position(items, key);
    let p = position(items, key);
    let after = upsert(items, key, value);
    lemma_position_is(after, key, p);
}

/// Where at most one entry is named `key`, deleting that name leaves no
/// entry with it: getting it gives nothing and no listed entry has it.
pub proof fn law_delete_then_get<T: Named>(items: Seq<T>, key: Seq<char>)
    requires
        at_most_once(items, key),
    ensures
        single(without(items, key), key) == Seq::<T>::empty(),
        lookup(without(items, key), key) == None::<T>,
        forall|i: int|
            0 <= i < without(items, key).len() ==> (#[trigger] without(items, key)[i]).key()
                != key,
{
    lemma_position(items, key);
    let p = position(items, key);
    let after = without(items, key);
    assert forall|i: int| 0 <= i < after.len() implies (#[trigger] after[i]).key() != key by {
        if p < items.len() {
            if i < p {
                assert(after[i] == items[i]);
            } else {
                assert(after[i] == items[i + 1]);
            }
        } else {
            assert(after[i] == items[i]);
        }
    }
    lemma_position_is(after, key, after.len() as int);
}

/// Setting an entry under its own name changes nothing that is found under
/// another name.
pub proof fn law_set_keeps_others<T: Named>(
    items: Seq<T>,
    key: Seq<char>,
    value: T,
    other: Seq<char>,
)
    requires
        value.key() == key,
        other != key,
    ensures
        lookup(upsert(items, key, value), other) == lookup(items, other),
        single(upsert(items, key, value), other) == single(items, other),
{
    lemma_position(items, key);
    lemma_position(items, other);
    let p = position(items, key);
    let q = position(items, other);
    let after = upsert(items, key, value);
    if q < items.len() {
        assert(q != p);
        assert forall|j: int| 0 <= j < q implies (#[trigger] after[j]).key() != other by {
            if j != p {
                assert(after[j] == items[j]);
            }
        }
        lemma_position_is(after, other, q);
    } else {
        assert forall|j: int| 0 <= j < after.len() implies (#[trigger] after[j]).key()
            != other by {
            if j < items.len() && j != p {
                assert(after[j] == items[j]);
            }
        }
        lemma_position_is(after, other, after.len() as int);
    }
}

/// Deleting a name changes nothing that is found under another name.
pub proof fn law_delete_keeps_others<T: Named>(items: Seq<T>, key: Seq<char>, other: Seq<char>)
    requires
        other != key,
    ensures
        lookup(without(items, key), other) == lookup(items, other),
{
    lemma_position(items, key);
    lemma_position(items, other);
    let p = position(items, key);
    let q = position(items, other);
    let after = without(items, key);
    if p < items.len() {
        let q2 = if q < p { q } else { q - 1 };
        assert forall|j: int| 0 <= j < q2 implies (#[trigger] after[j]).key() != other by {
            if j < p {
                assert(after[j] == items[j]);
            } else {
                assert(after[j] == items[j + 1]);
            }
        }
        if q < items.len() {
            assert(q != p);
            assert(after[q2] == items[q]);
        }
        lemma_position_is(after, other, q2);
    }
}

/// Setting an entry under its own name keeps the names of a list apart.
pub proof fn law_set_keeps_names_apart<T: Named>(items: Seq<T>, key: Seq<char>, value: T)
    requires
        unique_keys(items),
        value.key() == key,
    ensures
        unique_keys(upsert(items, key, value)),
{
    lemma_position(items, key);
    let p = position(items, key);
    let after = upsert(items, key, value);
    assert forall|i: int, j: int|
        0 <= i < after.len() && 0 <= j < after.len() && after[i].key() == after[j].key() implies i
        == j by {
        if p < items.len() {
            assert(after[i].key() == items[i].key());
            assert(after[j].key() == items[j].key());
        } else {
            if i < items.len() {
                assert(after[i] == items[i]);
            }
            if j < items.len() {
                assert(after[j] == items[j]);
            }
        }
    }
}

/// Deleting a name keeps the names of a list apart.
pub proof fn law_delete_keeps_names_apart<T: Named>(items: Seq<T>, key: Seq<char>)
    requires
        unique_keys(items),
    ensures
        unique_keys(without(items, key)),
{
    lemma_position(items, key);
    let p = position(items, key);
    let after = without(items, key);
    assert forall|i: int, j: int|
        0 <= i < after.len() && 0 <= j < after.len() && after[i].key() == after[j].key() implies i
        == j by {
        if p < items.len() {
            let a = if i < p { i } else { i + 1 };
            let b = if j < p { j } else { j + 1 };
            assert(after[i] == items[a]);
            assert(after[j] == items[b]);
        }
    }
}

/// A value that is kept in a list under its name.
pub trait Keyed: DeepView where <Self as DeepView>::V: Named {
    /// The name under which the value is found.
    fn name(&self) -> (r: &String)
        ensures
            r@ == self.deep_view().key(),
    ;
}

/// The index of the first item with the given name.
pub fn index_of<T: Keyed>(items: &Vec<T>, search: &String) -> (r: Option<usize>) where
    <T as DeepView>::V: Named,

    ensures
        match r {
            Some(i) => i < items@.len() && i == position(items.deep_view(), search@),
            None => !contains_key(items.deep_view(), search@),
        },
{
    let mut index: usize = 0;
    while index < items.len()
        invariant
            index <= items@.len(),
            forall|j: int| 0 <= j < index ==> (#[trigger] items.deep_view()[j]).key() != search@,
        decreases items@.len() - index,
    {
        if *items[index].name() == *search {
            proof {
                lemma_position_is(items.deep_view(), search@, index as int);
            }
            return Some(index);
        }
        index = index + 1;
    }
    proof {
        lemma_position_is(items.deep_view(), search@, items@.len() as int);
    }
    None
}

} // verus!
