//! Transformations of decoded response payloads into the library's models.

use vstd::prelude::*;
use crate::client::time::{cet_to_utc, fox_time_millis};
use crate::error::FoxError;
use crate::models::dto::{Data, DataSet, DeviceHistoryData, DeviceVariableInfo, RealTimeData};
use crate::models::fox_variables::id::FoxVariables;
use crate::models::history::{VariableDataSet, VariablesDataHistory, series_of};
use crate::models::variables::{AvailableVariables, VariableInfo, VariablesData};

verus! {

/// The data points of a run, with their timestamps read; or the message of
/// the first timestamp that cannot be read.
pub open spec fn timed_points<V>(data: Seq<Data<V>>) -> Result<Seq<VariableDataSet<V>>, Seq<char>>
    decreases data.len(),
{
    if data.len() == 0 {
        Ok(Seq::empty())
    } else {
        match timed_points(data.drop_last()) {
            Err(e) => Err(e),
            Ok(points) => match fox_time_millis(data.last().time@) {
                Err(e) => Err(e),
                Ok(ms) => Ok(points.push(VariableDataSet { date_time: ms, data: data.last().value })),
            },
        }
    }
}

/// The runs of data points of the data sets whose variable the registry
/// knows, in order; or the message of the first timestamp of such a run
/// that cannot be read. Data sets of unknown variables are skipped.
pub open spec fn timed_runs<V>(sets: Seq<DataSet<V>>) -> Result<Seq<(FoxVariables, Seq<VariableDataSet<V>>)>, Seq<char>>
    decreases sets.len(),
{
    if sets.len() == 0 {
        Ok(Seq::empty())
    } else {
        match timed_runs(sets.drop_last()) {
            Err(e) => Err(e),
            Ok(runs) => match FoxVariables::from_key_spec(sets.last().variable@) {
                None => Ok(runs),
                Some(p) => match timed_points(sets.last().data@) {
                    Err(e) => Err(e),
                    Ok(points) => Ok(runs.push((p, points))),
                },
            },
        }
    }
}

/// Reads the timestamps of the data points of a run.
fn read_points<V: Copy>(data: &Vec<Data<V>>) -> (r: Result<Vec<VariableDataSet<V>>, FoxError>)
    ensures
        match timed_points(data@) {
            Ok(points) => r matches Ok(v) && v@ == points,
            Err(e) => r matches Err(FoxError::ChronoParseError(m)) && m@ == e,
        },
{
    let mut out: Vec<VariableDataSet<V>> = Vec::new();
    let mut i: usize = 0;
    while i < data.len()
        invariant
            i <= data@.len(),
            timed_points(data@.take(i as int)) == Ok::<Seq<VariableDataSet<V>>, Seq<char>>(out@),
        decreases data@.len() - i,
    {
        let d = &data[i];
        proof {
            assert(data@.take(i + 1).drop_last() =~= data@.take(i as int));
            assert(data@.take(i + 1).last() == *d);
        }
        match cet_to_utc(d.time.as_str()) {
            Ok(ms) => {
                out.push(VariableDataSet { date_time: ms, data: d.value });
            },
            Err(e) => {
                proof {
                    lemma_timed_points_error_prefix(data@, i as int + 1);
                }
                return Err(e);
            },
        }
        i = i + 1;
    }
    assert(data@.take(data@.len() as int) =~= data@);
    Ok(out)
}

proof fn lemma_timed_points_error_prefix<V>(data: Seq<Data<V>>, k: int)
    requires
        0 <= k <= data.len(),
        timed_points(data.take(k)) is Err,
    ensures
        timed_points(data) == timed_points(data.take(k)),
    decreases data.len() - k,
{
    if k < data.len() {
        assert(data.take(k + 1).drop_last() =~= data.take(k));
        lemma_timed_points_error_prefix(data, k + 1);
    } else {
        assert(data.take(k) =~= data);
    }
}

proof fn lemma_timed_runs_error_prefix<V>(sets: Seq<DataSet<V>>, k: int)
    requires
        0 <= k <= sets.len(),
        timed_runs(sets.take(k)) is Err,
    ensures
        timed_runs(sets) == timed_runs(sets.take(k)),
    decreases sets.len() - k,
{
    if k < sets.len() {
        assert(sets.take(k + 1).drop_last() =~= sets.take(k));
        lemma_timed_runs_error_prefix(sets, k + 1);
    } else {
        assert(sets.take(k) =~= sets);
    }
}

/// What transforming a history payload gives: the series of the data sets
/// of its first entry (none when the payload is empty), or the message of
/// the first timestamp that cannot be read.
pub open spec fn history_outcome<V>(input: Seq<DeviceHistoryData<V>>)
    -> Result<Map<FoxVariables, Seq<VariableDataSet<V>>>, Seq<char>>
{
    if input.len() == 0 {
        Ok(Map::empty())
    } else {
        match timed_runs(input[0].data_set@) {
            Ok(runs) => Ok(series_of(runs)),
            Err(e) => Err(e),
        }
    }
}

/// Transforms device history data into per-variable series.
///
/// Only the first entry of the payload is read; data sets of variables that
/// the registry does not know are skipped; timestamps are converted to UTC.
pub fn transform_history_data<V: Copy>(input: &Vec<DeviceHistoryData<V>>) -> (r: Result<VariablesDataHistory<V>, FoxError>)
    ensures
        match history_outcome(input@) {
            Ok(m) => r matches Ok(h) && h.series_map() == m,
            Err(e) => r matches Err(FoxError::ChronoParseError(msg)) && msg@ == e,
        },
{
    let mut history = VariablesDataHistory::new();
    if input.len() == 0 {
        return Ok(history);
    }
    let sets = &input[0].data_set;
    let ghost runs: Seq<(FoxVariables, Seq<VariableDataSet<V>>)> = Seq::empty();
    let mut i: usize = 0;
    while i < sets.len()
        invariant
            i <= sets@.len(),
            input@.len() > 0,
            sets@ == input@[0].data_set@,
            timed_runs(sets@.take(i as int)) == Ok::<Seq<(FoxVariables, Seq<VariableDataSet<V>>)>, Seq<char>>(runs),
            history.series_map() == series_of(runs),
        decreases sets@.len() - i,
    {
        let set = &sets[i];
        proof {
            assert(sets@.take(i + 1).drop_last() =~= sets@.take(i as int));
            assert(sets@.take(i + 1).last() == *set);
        }
        match FoxVariables::from_key(set.variable.as_str()) {
            None => {},
            Some(p) => {
                match read_points(&set.data) {
                    Ok(points) => {
                        proof {
                            let next = runs.push((p, points@));
                            assert(next.drop_last() =~= runs);
                            runs = next;
                        }
                        history.append_points(p, points);
                    },
                    Err(e) => {
                        proof {
                            let msg = timed_points(set.data@)->Err_0;
                            assert(timed_runs(sets@.take(i + 1)) == Err::<Seq<(FoxVariables, Seq<VariableDataSet<V>>)>, Seq<char>>(msg));
                            lemma_timed_runs_error_prefix(sets@, i as int + 1);
                            assert(input@[0].data_set@ == sets@);
                            assert(history_outcome(input@) == Err::<Map<FoxVariables, Seq<VariableDataSet<V>>>, Seq<char>>(msg));
                        }
                        return Err(e);
                    },
                }
            },
        }
        i = i + 1;
    }
    assert(sets@.take(sets@.len() as int) =~= sets@);
    Ok(history)
}

/// The latest values that a list of real-time data gives: each entry of a
/// variable that the registry knows sets that variable's value, a later
/// entry overriding an earlier one; entries of unknown variables are skipped.
pub open spec fn realtime_values<V>(datas: Seq<RealTimeData<V>>) -> Map<FoxVariables, V>
    decreases datas.len(),
{
    if datas.len() == 0 {
        Map::empty()
    } else {
        let m = realtime_values(datas.drop_last());
        match FoxVariables::from_key_spec(datas.last().variable@) {
            Some(p) => m.insert(p, datas.last().value),
            None => m,
        }
    }
}

/// Collects the real-time values of the variables that the registry knows.
pub fn collect_realtime_values<V: Copy>(datas: &Vec<RealTimeData<V>>) -> (r: VariablesData<V>)
    ensures
        r.values() == realtime_values(datas@),
{
    let mut out = VariablesData::new();
    let mut i: usize = 0;
    while i < datas.len()
        invariant
            i <= datas@.len(),
            out.values() == realtime_values(datas@.take(i as int)),
        decreases datas@.len() - i,
    {
        let d = &datas[i];
        proof {
            assert(datas@.take(i + 1).drop_last() =~= datas@.take(i as int));
            assert(datas@.take(i + 1).last() == *d);
        }
        match FoxVariables::from_key(d.variable.as_str()) {
            Some(p) => out.insert(p, d.value),
            None => {},
        }
        i = i + 1;
    }
    assert(datas@.take(datas@.len() as int) =~= datas@);
    out
}

/// The value paired with the first occurrence of `key` in a list of pairs.
pub open spec fn lookup_first(pairs: Seq<(String, String)>, key: Seq<char>) -> Option<Seq<char>>
    decreases pairs.len(),
{
    if pairs.len() == 0 {
        None
    } else if pairs[0].0@ == key {
        Some(pairs[0].1@)
    } else {
        lookup_first(pairs.drop_first(), key)
    }
}

/// The name under which a variable is listed: its English name, or its key
/// when it has none.
pub open spec fn listed_name(names: Seq<(String, String)>, variable: Seq<char>) -> Seq<char> {
    match lookup_first(names, "en"@) {
        Some(n) => n,
        None => variable,
    }
}

fn find_english_name(names: &Vec<(String, String)>) -> (r: Option<String>)
    ensures
        match r {
            Some(n) => lookup_first(names@, "en"@) == Some(n@),
            None => lookup_first(names@, "en"@) is None,
        },
{
    let mut i: usize = 0;
    assert(names@.skip(0) =~= names@);
    while i < names.len()
        invariant
            i <= names@.len(),
            lookup_first(names@, "en"@) == lookup_first(names@.skip(i as int), "en"@),
        decreases names@.len() - i,
    {
        proof {
            assert(names@.skip(i as int)[0] == names@[i as int]);
            assert(names@.skip(i as int).drop_first() =~= names@.skip(i + 1));
        }
        if crate::text::str_eq(names[i].0.as_str(), "en") {
            return Some(names[i].1.clone());
        }
        i = i + 1;
    }
    None
}

/// Whether `info` is what an entry of the available-variables payload gives:
/// the first variable of the entry, under its listed name, with its unit and
/// enumeration.
pub open spec fn info_of_entry(entry: Seq<(String, DeviceVariableInfo)>, info: VariableInfo) -> bool {
    &&& entry.len() > 0
    &&& info.variable@ == entry[0].0@
    &&& info.name@ == listed_name(entry[0].1.name@, entry[0].0@)
    &&& info.unit == entry[0].1.unit
    &&& info.enumeration == entry[0].1.enumeration
}

/// The entries of the available-variables payload that list a variable:
/// those that are not empty, in order.
pub open spec fn listing_entries(entries: Seq<Vec<(String, DeviceVariableInfo)>>) -> Seq<Seq<(String, DeviceVariableInfo)>>
    decreases entries.len(),
{
    if entries.len() == 0 {
        Seq::empty()
    } else {
        let rest = listing_entries(entries.drop_last());
        if entries.last()@.len() > 0 {
            rest.push(entries.last()@)
        } else {
            rest
        }
    }
}

/// Collects the variables of the available-variables payload: one per
/// entry, the entry's first variable; empty entries are skipped.
pub fn collect_available_variables(entries: Vec<Vec<(String, DeviceVariableInfo)>>) -> (r: AvailableVariables)
    ensures
        r.variables@.len() == listing_entries(entries@).len(),
        forall|j: int| 0 <= j < r.variables@.len() ==>
            info_of_entry(#[trigger] listing_entries(entries@)[j], r.variables@[j]),
{
    let ghost all = entries@;
    let mut rest = entries;
    let mut out: Vec<VariableInfo> = Vec::new();
    let mut k: usize = 0;
    let n = rest.len();
    while rest.len() > 0
        invariant
            k <= all.len(),
            all.len() <= usize::MAX,
            rest@ == all.skip(k as int),
            out@.len() == listing_entries(all.take(k as int)).len(),
            forall|j: int| 0 <= j < out@.len() ==>
                info_of_entry(#[trigger] listing_entries(all.take(k as int))[j], out@[j]),
        decreases rest@.len(),
    {
        assert(k < all.len());
        let mut entry = rest.remove(0);
        proof {
            assert(entry == all[k as int]);
            assert(rest@ =~= all.skip(k + 1));
            assert(all.take(k + 1).drop_last() =~= all.take(k as int));
            assert(all.take(k + 1).last() == all[k as int]);
        }
        let ghost entry_view = entry@;
        let ghost prev_out = out@;
        if entry.len() > 0 {
            let (variable, info) = entry.remove(0);
            assert(variable == entry_view[0].0 && info == entry_view[0].1);
            let name = match find_english_name(&info.name) {
                Some(n) => n,
                None => variable.clone(),
            };
            out.push(VariableInfo {
                variable,
                name,
                unit: info.unit,
                enumeration: info.enumeration,
            });
            assert(forall|j: int| 0 <= j < prev_out.len() ==> out@[j] == prev_out[j]);
        }
        k = k + 1;
    }
    assert(all.take(k as int) =~= all);
    AvailableVariables { variables: out }
}

} // verus!
