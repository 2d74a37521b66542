//! The properties of the collections of `std`.

use crate::property::{HasEmptyValue, HasLength, HasMember};
use std::collections::{BTreeMap, BTreeSet, HashMap, HashSet, VecDeque};
use std::hash::{BuildHasher, Hash};
use vstd::laws_cmp::obeys_cmp;
use vstd::prelude::*;
use vstd::std_specs::cmp::PartialEqSpec;
use vstd::std_specs::hash::{builds_valid_hashers, obeys_key_model};

verus! {

broadcast use {
    vstd::std_specs::hash::group_hash_axioms,
    vstd::std_specs::btree::group_btree_axioms,
    vstd::std_specs::vecdeque::group_vec_dequeue_axioms,
};

impl<T> HasEmptyValue for VecDeque<T> {
    fn is_empty_value(&self) -> (empty: bool)
        ensures
            empty == (self@.len() == 0),
    {
        self.len() == 0
    }
}

impl<T, S> HasEmptyValue for HashSet<T, S> {
    fn is_empty_value(&self) -> (empty: bool)
        ensures
            empty == self@.is_empty(),
    {
        self.is_empty()
    }
}

impl<K, V, S> HasEmptyValue for HashMap<K, V, S> {
    fn is_empty_value(&self) -> (empty: bool)
        ensures
            empty == self@.is_empty(),
    {
        self.is_empty()
    }
}

impl<T> HasEmptyValue for BTreeSet<T> {
    fn is_empty_value(&self) -> (empty: bool)
        ensures
            empty == self@.is_empty(),
    {
        self.is_empty()
    }
}

impl<K, V> HasEmptyValue for BTreeMap<K, V> {
    fn is_empty_value(&self) -> (empty: bool)
        ensures
            empty == self@.is_empty(),
    {
        self.is_empty()
    }
}

impl<T> HasLength for VecDeque<T> {
    fn length(&self) -> (length: usize)
        ensures
            length == self@.len(),
    {
        self.len()
    }
}

impl<T> HasLength for BTreeSet<T> {
    fn length(&self) -> (length: usize)
        ensures
            length == self.len(),
    {
        self.len()
    }
}

impl<K, V> HasLength for BTreeMap<K, V> {
    fn length(&self) -> (length: usize)
        ensures
            length == self.len(),
    {
        self.len()
    }
}

impl<T: PartialEq> HasMember<T> for VecDeque<T> {
    /// Where `==` of `T` obeys its specification: whether one of the items is equal to the
    /// element.
    fn has_member(&self, element: &T) -> (member: bool)
        ensures
            T::obeys_eq_spec() ==> member == (exists|i: int|
                0 <= i < self@.len() && (#[trigger] self@[i]).eq_spec(element)),
    {
        let mut index: usize = 0;
        while index < self.len()
            invariant
                index <= self@.len(),
                T::obeys_eq_spec() ==> forall|i: int|
                    0 <= i < index ==> !(#[trigger] self@[i]).eq_spec(element),
            decreases self@.len() - index,
        {
            if self[index] == *element {
                return true;
            }
            index += 1;
        }
        false
    }
}

impl<T: Eq + Hash, S: BuildHasher> HasMember<T> for HashSet<T, S> {
    fn has_member(&self, element: &T) -> (member: bool)
        ensures
            obeys_key_model::<T>() && builds_valid_hashers::<S>() ==> member == self@.contains(*element),
    {
        self.contains(element)
    }
}

impl<K: Eq + Hash, V, S: BuildHasher> HasMember<K> for HashMap<K, V, S> {
    fn has_member(&self, element: &K) -> (member: bool)
        ensures
            obeys_key_model::<K>() && builds_valid_hashers::<S>() ==> member == self@.contains_key(*element),
    {
        self.contains_key(element)
    }
}

impl<T: Ord> HasMember<T> for BTreeSet<T> {
    fn has_member(&self, element: &T) -> (member: bool)
        ensures
            obeys_cmp::<T>() ==> member == self@.contains(*element),
    {
        self.contains(element)
    }
}

impl<K: Ord, V> HasMember<K> for BTreeMap<K, V> {
    fn has_member(&self, element: &K) -> (member: bool)
        ensures
            obeys_cmp::<K>() ==> member == self@.contains_key(*element),
    {
        self.contains_key(element)
    }
}

} // verus!
