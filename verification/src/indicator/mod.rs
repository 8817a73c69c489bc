//! Technical indicators: the pattern tables, the keyed indicator collection
//! and the parameter records of the parameterised indicators.

pub mod box_range;
pub mod candle_pattern;
pub mod ichimoku;
pub mod ma;
pub mod macd;
pub mod market_structure;
pub mod orderbook;
pub mod price_action;
pub mod price_reference_gap;
pub mod slope;
pub mod support_resistance;
pub mod vwap;

use std::collections::HashMap;
use std::fmt::Debug;
use std::hash::Hash;
use vstd::prelude::*;
use vstd::std_specs::hash::obeys_key_model;

verus! {

broadcast use vstd::std_specs::hash::group_hash_axioms;

/// A named collection of indicator values, keyed by their parameters, that
/// remembers the order of its keys.
#[derive(Debug)]
pub struct TAs<K, T> where K: PartialEq + Eq + Hash + Debug {
    /// Name of the collection.
    name: String,
    /// Keys in the order they were given.
    keys: Vec<K>,
    /// Value of each key.
    data: HashMap<K, T>,
}

impl<K, T> TAs<K, T> where K: PartialEq + Eq + Hash + Debug {
    /// Name of the collection.
    pub closed spec fn name_view(&self) -> Seq<char> {
        self.name@
    }

    /// Keys, in order.
    pub closed spec fn key_seq(&self) -> Seq<K> {
        self.keys@
    }

    /// Value of each key.
    pub closed spec fn data_map(&self) -> Map<K, T> {
        self.data@
    }

    /// Every listed key has a value.
    pub open spec fn covers_keys(&self) -> bool {
        forall|i: int| 0 <= i < self.key_seq().len() ==> self.data_map().contains_key(
            #[trigger] self.key_seq()[i],
        )
    }

    /// Value of the `i`-th key.
    pub open spec fn value_at(&self, i: int) -> T {
        self.data_map()[self.key_seq()[i]]
    }

    /// A collection with the given name, key order and values.
    pub fn new(name: String, keys: Vec<K>, data: HashMap<K, T>) -> (r: TAs<K, T>)
        ensures
            r.name_view() == name@,
            r.key_seq() == keys@,
            r.data_map() == data@,
    {
        TAs { name, keys, data }
    }

    /// The keys, in order.
    pub fn get_keys(&self) -> (r: &Vec<K>)
        ensures
            r@ == self.key_seq(),
    {
        &self.keys
    }

    /// The value of `key`, which must be present.
    pub fn get(&self, key: &K) -> (r: &T)
        requires
            obeys_key_model::<K>(),
            self.data_map().contains_key(*key),
        ensures
            *r == self.data_map()[*key],
    {
        self.data.get(key).unwrap()
    }

    /// The value of the key at position `index` of the key order.
    pub fn get_by_key_index(&self, index: usize) -> (r: &T)
        requires
            obeys_key_model::<K>(),
            index < self.key_seq().len(),
            self.data_map().contains_key(self.key_seq()[index as int]),
        ensures
            *r == self.value_at(index as int),
    {
        let key = &self.keys[index];
        self.get(key)
    }

    /// The values of all keys, in key order.
    pub fn get_all(&self) -> (r: Vec<&T>)
        requires
            obeys_key_model::<K>(),
            self.covers_keys(),
        ensures
            r.len() == self.key_seq().len(),
            forall|i: int| 0 <= i < r.len() ==> *(#[trigger] r[i]) == self.value_at(i),
    {
        let mut all: Vec<&T> = Vec::new();
        let mut i: usize = 0;
        while i < self.keys.len()
            invariant
                obeys_key_model::<K>(),
                self.covers_keys(),
                i <= self.key_seq().len(),
                all.len() == i,
                forall|j: int| 0 <= j < i ==> *(#[trigger] all[j]) == self.value_at(j),
            decreases self.key_seq().len() - i,
        {
            let v = self.get(&self.keys[i]);
            all.push(v);
            i = i + 1;
        }
        all
    }

    /// Whether `is_fn` holds of every value, asked in key order and stopping
    /// at the first value it rejects.
    pub fn is_all(&self, is_fn: impl Fn(&T) -> bool) -> (r: bool)
        requires
            obeys_key_model::<K>(),
            self.covers_keys(),
            forall|i: int|
                0 <= i < self.key_seq().len() ==> call_requires(is_fn, (&#[trigger] self.value_at(i),)),
        ensures
            r ==> forall|i: int|
                0 <= i < self.key_seq().len() ==> call_ensures(
                    is_fn,
                    (&#[trigger] self.value_at(i),),
                    true,
                ),
            !r ==> exists|i: int|
                0 <= i < self.key_seq().len() && call_ensures(
                    is_fn,
                    (&#[trigger] self.value_at(i),),
                    false,
                ) && forall|j: int|
                    0 <= j < i ==> call_ensures(is_fn, (&#[trigger] self.value_at(j),), true),
    {
        let all = self.get_all();
        let mut i: usize = 0;
        while i < all.len()
            invariant
                all.len() == self.key_seq().len(),
                forall|j: int| 0 <= j < all.len() ==> *(#[trigger] all[j]) == self.value_at(j),
                forall|j: int|
                    0 <= j < self.key_seq().len() ==> call_requires(
                        is_fn,
                        (&#[trigger] self.value_at(j),),
                    ),
                i <= all.len(),
                forall|j: int|
                    0 <= j < i ==> call_ensures(is_fn, (&#[trigger] self.value_at(j),), true),
            decreases all.len() - i,
        {
            assert(*all[i as int] == self.value_at(i as int));
            let ok = is_fn(all[i]);
            if !ok {
                return false;
            }
            i = i + 1;
        }
        true
    }

    /// Text form, `TAs(<name>)`.
    pub fn to_string(&self) -> (s: String)
        ensures
            s@ == "TAs("@ + self.name_view() + ")"@,
    {
        let mut s = String::from_str("TAs(");
        s.append(self.name.as_str());
        s.append(")");
        s
    }
}

/// Looking a value up by its position in the key order gives the value of
/// the key at that position: what `get_by_key_index(i)` and the `i`-th entry
/// of `get_all()` return is what `get` returns for the `i`-th key.
pub proof fn lemma_position_lookup_matches_key_lookup<K, T>(tas: TAs<K, T>, i: int)
    where
        K: PartialEq + Eq + Hash + Debug,
    requires
        0 <= i < tas.key_seq().len(),
        tas.covers_keys(),
    ensures
        tas.data_map().contains_key(tas.key_seq()[i]),
        tas.value_at(i) == tas.data_map()[tas.key_seq()[i]],
{
}

} // verus!
