//! Hash collections from `hashbrown`, as the input state uses them.
//!
//! The items stored are small integer codes (see the `code` methods of the
//! input vocabulary), so that what a collection holds can be described by a
//! mathematical set or map of integers. Everything in this module is trusted:
//! the contracts below restate what the `hashbrown` sources do and are not
//! proved by Verus.

use vstd::prelude::*;

verus! {

/// `hashbrown::HashSet`, opaque to Verus.
#[verifier::external_type_specification]
#[verifier::external_body]
#[verifier::reject_recursive_types(T)]
#[verifier::reject_recursive_types(S)]
pub struct ExHashSet<T, S>(hashbrown::HashSet<T, S>);

/// `hashbrown::HashMap`, opaque to Verus.
#[verifier::external_type_specification]
#[verifier::external_body]
#[verifier::reject_recursive_types(K)]
#[verifier::reject_recursive_types(V)]
#[verifier::reject_recursive_types(S)]
pub struct ExHashMap<K, V, S>(hashbrown::HashMap<K, V, S>);

/// The default hasher of `hashbrown`'s collections, opaque to Verus.
#[verifier::external_type_specification]
#[verifier::external_body]
pub struct ExDefaultHashBuilder(hashbrown::hash_map::DefaultHashBuilder);

/// A set of codes.
pub type CodeSet = hashbrown::HashSet<u8>;

/// A map from codes to the bits of a number.
pub type CodeMap = hashbrown::HashMap<u8, u32>;

/// The elements that a set of codes holds.
pub uninterp spec fn set_contents(set: hashbrown::HashSet<u8>) -> Set<u8>;

/// The key-value pairs that a map of codes holds.
pub uninterp spec fn map_contents(table: hashbrown::HashMap<u8, u32>) -> Map<u8, u32>;

/// `HashSet::new`: the new set holds nothing.
#[verifier::external_body]
pub(crate) fn set_new() -> (set: CodeSet)
    ensures
        set_contents(set) == Set::<u8>::empty(),
{
    hashbrown::HashSet::new()
}

/// `HashSet::insert`: afterwards the set holds `value` besides what it held,
/// and the result tells whether `value` was absent before.
#[verifier::external_body]
pub(crate) fn set_insert(set: &mut CodeSet, value: u8) -> (fresh: bool)
    ensures
        set_contents(*final(set)) == set_contents(*old(set)).insert(value),
        fresh == !set_contents(*old(set)).contains(value),
{
    set.insert(value)
}

/// `HashSet::remove`: afterwards the set holds what it held except `value`,
/// and the result tells whether `value` was present before.
#[verifier::external_body]
pub(crate) fn set_remove(set: &mut CodeSet, value: u8) -> (present: bool)
    ensures
        set_contents(*final(set)) == set_contents(*old(set)).remove(value),
        present == set_contents(*old(set)).contains(value),
{
    set.remove(&value)
}

/// `HashSet::contains`: membership of `value`.
#[verifier::external_body]
pub(crate) fn set_contains(set: &CodeSet, value: u8) -> (present: bool)
    ensures
        present == set_contents(*set).contains(value),
{
    set.contains(&value)
}

/// `HashSet::clone`: the copy holds the same elements.
#[verifier::external_body]
pub(crate) fn set_clone(set: &CodeSet) -> (copy: CodeSet)
    ensures
        set_contents(copy) == set_contents(*set),
{
    set.clone()
}

/// `HashSet::iter`, collected: every element of the set exactly once, in the
/// order in which the table is walked, of which nothing is promised.
#[verifier::external_body]
pub(crate) fn set_items(set: &CodeSet) -> (items: Vec<u8>)
    ensures
        items@.no_duplicates(),
        items@.to_set() == set_contents(*set),
{
    set.iter().copied().collect()
}

/// `HashSet::difference`, collected: every element of `set` that `other` does
/// not hold, exactly once, in the order in which `set` is walked, of which
/// nothing is promised.
#[verifier::external_body]
pub(crate) fn set_difference(set: &CodeSet, other: &CodeSet) -> (items: Vec<u8>)
    ensures
        items@.no_duplicates(),
        items@.to_set() == set_contents(*set).difference(set_contents(*other)),
{
    set.difference(other).copied().collect()
}

/// `HashMap::new`: the new map holds nothing.
#[verifier::external_body]
pub(crate) fn map_new() -> (table: CodeMap)
    ensures
        map_contents(table) == (Map::<u8, u32>::empty()),
{
    hashbrown::HashMap::new()
}

/// `HashMap::insert`: afterwards `key` maps to `value` and every other key is
/// as it was; the result is the value that `key` had before, if any.
#[verifier::external_body]
pub(crate) fn map_insert(table: &mut CodeMap, key: u8, value: u32) -> (previous: Option<u32>)
    ensures
        map_contents(*final(table)) == map_contents(*old(table)).insert(key, value),
        previous == map_contents(*old(table)).get(key),
{
    table.insert(key, value)
}

/// `HashMap::get`, copied: the value that `key` maps to, if any.
#[verifier::external_body]
pub(crate) fn map_get(table: &CodeMap, key: u8) -> (value: Option<u32>)
    ensures
        value == map_contents(*table).get(key),
{
    table.get(&key).copied()
}

} // verus!
