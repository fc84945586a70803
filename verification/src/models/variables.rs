//! The variables module contains the `VariablesData` struct and related types,
//! which are used to store and manage the current state of variable data.

use vstd::prelude::*;
use crate::models::entries::{KeyEq, entries_map, keys_distinct, find_key,
    lemma_entries_dom, lemma_entries_value, lemma_entries_update, lemma_push_distinct};
use crate::models::fox_variables::id::FoxVariables;

verus! {

impl KeyEq for FoxVariables {
    fn key_eq(&self, other: &Self) -> (r: bool) {
        *self == *other
    }
}

/// A single data point for a variable: the recorded value of the variable.
pub struct VariableDataPoint<V>(pub V);

/// A structure that maintains the current state of variable data.
///
/// The `VariablesData` struct is used to store and manage the latest data
/// associated with various variables: each tracked `FoxVariables` key has its
/// latest `VariableDataPoint`.
pub struct VariablesData<V> {
    pub(crate) data_points: Vec<(FoxVariables, VariableDataPoint<V>)>,
}

impl<V> VariablesData<V> {
    #[verifier::type_invariant]
    closed spec fn inv(&self) -> bool {
        keys_distinct(self.data_points@)
    }

    /// The latest value of each tracked variable.
    pub closed spec fn values(&self) -> Map<FoxVariables, V> {
        let m = entries_map(self.data_points@);
        Map::new(|p: FoxVariables| m.dom().contains(p), |p: FoxVariables| m[p].0)
    }

    /// Returns a structure that tracks no variable.
    pub fn new() -> (r: Self)
        ensures
            r.values() == Map::<FoxVariables, V>::empty(),
    {
        let r = VariablesData { data_points: Vec::new() };
        assert(r.values() =~= Map::<FoxVariables, V>::empty());
        r
    }

    /// Records `value` as the latest value of `p`.
    pub fn insert(&mut self, p: FoxVariables, value: V)
        ensures
            final(self).values() == old(self).values().insert(p, value),
    {
        proof { use_type_invariant(&*self); }
        let mut points: Vec<(FoxVariables, VariableDataPoint<V>)> = Vec::new();
        std::mem::swap(&mut points, &mut self.data_points);
        let ghost before = points@;
        match find_key(&points, &p) {
            Some(i) => {
                proof { lemma_entries_update(before, i as int, VariableDataPoint(value)); }
                points.set(i, (p, VariableDataPoint(value)));
                assert(points@ == before.update(i as int, (before[i as int].0, VariableDataPoint(value))));
            },
            None => {
                proof { lemma_push_distinct(before, p, VariableDataPoint(value)); }
                points.push((p, VariableDataPoint(value)));
            },
        }
        self.data_points = points;
        assert(self.values() =~= old(self).values().insert(p, value));
    }

    /// Retrieves the value of a variable associated with the given `FoxVariables` key.
    ///
    /// # Returns
    /// * `Some(value)` if the key exists in the data points.
    /// * `None` if the key does not exist.
    pub fn get(&self, p: FoxVariables) -> (r: Option<V>)
        where V: Copy,
        ensures
            r == (if self.values().dom().contains(p) { Some(self.values()[p]) } else { None }),
    {
        proof { use_type_invariant(self); }
        match find_key(&self.data_points, &p) {
            Some(i) => {
                proof {
                    lemma_entries_value(self.data_points@, i as int);
                }
                Some(self.data_points[i].1.0)
            },
            None => {
                proof { lemma_entries_dom(self.data_points@, p); }
                None
            },
        }
    }
}

/// A read of variables data gives back the value that the last write of that
/// variable wrote, and a write of one variable leaves the others as they were.
pub proof fn lemma_variables_read_after_write<V>(before: VariablesData<V>, after: VariablesData<V>,
    p: FoxVariables, value: V, q: FoxVariables)
    requires
        after.values() == before.values().insert(p, value),
    ensures
        after.values().dom().contains(p),
        after.values()[p] == value,
        q != p ==> (after.values().dom().contains(q) == before.values().dom().contains(q)),
        q != p && before.values().dom().contains(q) ==> after.values()[q] == before.values()[q],
{
}

/// Information about a variable that FoxESS Cloud offers.
pub struct VariableInfo {
    /// The key of the variable.
    pub variable: String,
    /// The English name of the variable, or its key when it has none.
    pub name: String,
    /// The unit of the variable, if any.
    pub unit: Option<String>,
    /// The values of an enumerated variable and their meanings, if any.
    pub enumeration: Option<Vec<(String, String)>>,
}

/// The variables that FoxESS Cloud offers.
pub struct AvailableVariables {
    /// Information about each variable.
    pub variables: Vec<VariableInfo>,
}

} // verus!
