//! The history module contains the `VariablesDataHistory` struct,
//! which is used to store and manage historical data associated with various variables.

use vstd::prelude::*;
use crate::models::entries::{entries_map, keys_distinct, find_key,
    lemma_entries_dom, lemma_entries_value, lemma_entries_update, lemma_push_distinct};
use crate::models::fox_variables::id::FoxVariables;

verus! {

/// A piece of data together with the instant at which it was recorded.
#[derive(Debug)]
pub struct VariableDataSet<V> {
    /// The instant at which the data was recorded, in milliseconds since the Unix epoch (UTC).
    pub date_time: i64,
    /// The actual data being stored.
    pub data: V,
}

/// The series of a variable, or the empty series when the map has none.
pub open spec fn series_or_empty<V>(m: Map<FoxVariables, Seq<VariableDataSet<V>>>, p: FoxVariables) -> Seq<VariableDataSet<V>> {
    if m.dom().contains(p) { m[p] } else { Seq::empty() }
}

/// The series that a list of per-variable runs of data points gives: the
/// runs of each variable concatenated in order; a variable whose runs hold
/// no point has no series.
pub open spec fn series_of<V>(runs: Seq<(FoxVariables, Seq<VariableDataSet<V>>)>) -> Map<FoxVariables, Seq<VariableDataSet<V>>>
    decreases runs.len(),
{
    if runs.len() == 0 {
        Map::empty()
    } else {
        let m = series_of(runs.drop_last());
        let (p, points) = runs.last();
        if points.len() == 0 {
            m
        } else {
            m.insert(p, series_or_empty(m, p) + points)
        }
    }
}

/// A structure that maintains a historical record of variable data: for each
/// tracked variable, the series of its data points in the order recorded.
pub struct VariablesDataHistory<V> {
    pub(crate) series: Vec<(FoxVariables, Vec<VariableDataSet<V>>)>,
}

impl<V> VariablesDataHistory<V> {
    #[verifier::type_invariant]
    closed spec fn inv(&self) -> bool {
        keys_distinct(self.series@)
    }

    /// The series of each tracked variable.
    pub closed spec fn series_map(&self) -> Map<FoxVariables, Seq<VariableDataSet<V>>> {
        let m = entries_map(self.series@);
        Map::new(|p: FoxVariables| m.dom().contains(p), |p: FoxVariables| m[p]@)
    }

    /// Returns a history that tracks no variable.
    pub fn new() -> (r: Self)
        ensures
            r.series_map() == Map::<FoxVariables, Seq<VariableDataSet<V>>>::empty(),
    {
        let r = VariablesDataHistory { series: Vec::new() };
        assert(r.series_map() =~= Map::<FoxVariables, Seq<VariableDataSet<V>>>::empty());
        r
    }

    /// Appends `points` to the series of `p`; a variable gets a series only
    /// once it has a point.
    pub fn append_points(&mut self, p: FoxVariables, points: Vec<VariableDataSet<V>>)
        ensures
            final(self).series_map() == (if points@.len() == 0 {
                old(self).series_map()
            } else {
                old(self).series_map().insert(p, series_or_empty(old(self).series_map(), p) + points@)
            }),
    {
        proof { use_type_invariant(&*self); }
        if points.len() == 0 {
            return;
        }
        let mut points = points;
        let ghost added = points@;
        let mut all: Vec<(FoxVariables, Vec<VariableDataSet<V>>)> = Vec::new();
        std::mem::swap(&mut all, &mut self.series);
        let ghost before = all@;
        match find_key(&all, &p) {
            Some(i) => {
                let (k, mut run) = all.remove(i);
                let ghost old_run = run@;
                run.append(&mut points);
                proof {
                    lemma_entries_value(before, i as int);
                    lemma_entries_update(before, i as int, run);
                }
                all.insert(i, (k, run));
                assert(all@ =~= before.update(i as int, (before[i as int].0, run)));
                proof {
                    lemma_entries_dom(before, p);
                }
                assert(run@ == old_run + added);
            },
            None => {
                proof {
                    lemma_push_distinct(before, p, points);
                    lemma_entries_dom(before, p);
                }
                all.push((p, points));
            },
        }
        self.series = all;
        assert(self.series_map() =~= old(self).series_map().insert(p, series_or_empty(old(self).series_map(), p) + added));
    }

    /// Retrieves the series of data points associated with the given `FoxVariables` key.
    ///
    /// # Returns
    /// * `Some(&[VariableDataSet<V>])` if the key exists in the series.
    /// * `None` if the key does not exist.
    pub fn get(&self, p: FoxVariables) -> (r: Option<&[VariableDataSet<V>]>)
        ensures
            match r {
                Some(s) => self.series_map().dom().contains(p) && s@ == self.series_map()[p],
                None => !self.series_map().dom().contains(p),
            },
    {
        proof { use_type_invariant(self); }
        match find_key(&self.series, &p) {
            Some(i) => {
                proof { lemma_entries_value(self.series@, i as int); }
                Some(self.series[i].1.as_slice())
            },
            None => {
                proof { lemma_entries_dom(self.series@, p); }
                None
            },
        }
    }
}

} // verus!
