//! The settings module contains the `SettingsData` struct and related types,
//! which are used to store and manage the current state of settings data.

use vstd::prelude::*;
use crate::models::entries::{KeyEq, entries_map, keys_distinct, find_key,
    lemma_entries_dom, lemma_entries_value, lemma_entries_update, lemma_push_distinct};
use crate::models::fox_settings::id::FoxSettings;
use crate::text::{IntParseError, parse_u8, parse_u8_spec};

verus! {

impl KeyEq for FoxSettings {
    fn key_eq(&self, other: &Self) -> (r: bool) {
        *self == *other
    }
}

/// A single data point for a setting: the string representation of its value.
pub struct SettingsDataPoint(pub String);

/// The value of a percentage setting: the number parsed from its text,
/// held to at most 100.
pub open spec fn percent_setting_spec(raw: Seq<char>) -> Result<u8, IntParseError> {
    match parse_u8_spec(raw) {
        Ok(v) => Ok(if v > 100 { 100u8 } else { v }),
        Err(e) => Err(e),
    }
}

/// Parses the text of a percentage setting as a `u8` and clamps it to 0..=100.
pub fn parse_percent_setting(raw: &str) -> (r: Result<u8, IntParseError>)
    ensures
        r == percent_setting_spec(raw@),
{
    match parse_u8(raw) {
        Ok(v) => Ok(if v > 100 { 100 } else { v }),
        Err(e) => Err(e),
    }
}

/// A structure that maintains the current state of settings data: each
/// tracked `FoxSettings` key has its latest `SettingsDataPoint`.
pub struct SettingsData {
    pub(crate) data_points: Vec<(FoxSettings, SettingsDataPoint)>,
}

impl SettingsData {
    #[verifier::type_invariant]
    closed spec fn inv(&self) -> bool {
        keys_distinct(self.data_points@)
    }

    /// The latest value of each tracked setting, as text.
    pub closed spec fn values(&self) -> Map<FoxSettings, Seq<char>> {
        let m = entries_map(self.data_points@);
        Map::new(|p: FoxSettings| m.dom().contains(p), |p: FoxSettings| m[p].0@)
    }

    /// Returns a structure that tracks no setting.
    pub fn new() -> (r: Self)
        ensures
            r.values() == Map::<FoxSettings, Seq<char>>::empty(),
    {
        let r = SettingsData { data_points: Vec::new() };
        assert(r.values() =~= Map::<FoxSettings, Seq<char>>::empty());
        r
    }

    /// Records `value` as the latest value of `p`.
    pub fn insert(&mut self, p: FoxSettings, value: SettingsDataPoint)
        ensures
            final(self).values() == old(self).values().insert(p, value.0@),
    {
        proof { use_type_invariant(&*self); }
        let ghost text = value.0@;
        let mut points: Vec<(FoxSettings, SettingsDataPoint)> = Vec::new();
        std::mem::swap(&mut points, &mut self.data_points);
        let ghost before = points@;
        match find_key(&points, &p) {
            Some(i) => {
                proof { lemma_entries_update(before, i as int, value); }
                points.set(i, (p, value));
            },
            None => {
                proof { lemma_push_distinct(before, p, value); }
                points.push((p, value));
            },
        }
        self.data_points = points;
        assert(self.values() =~= old(self).values().insert(p, text));
    }

    /// Retrieves the string value of a setting associated with the given `FoxSettings` key.
    ///
    /// # Returns
    /// * `Some(String)` if the key exists in the data points.
    /// * `None` if the key does not exist.
    pub fn get(&self, p: FoxSettings) -> (r: Option<String>)
        ensures
            match r {
                Some(s) => self.values().dom().contains(p) && s@ == self.values()[p],
                None => !self.values().dom().contains(p),
            },
    {
        proof { use_type_invariant(self); }
        match find_key(&self.data_points, &p) {
            Some(i) => {
                proof { lemma_entries_value(self.data_points@, i as int); }
                Some(self.data_points[i].1.0.clone())
            },
            None => {
                proof { lemma_entries_dom(self.data_points@, p); }
                None
            },
        }
    }

    /// Retrieves the value of a setting as a percentage (0-100) associated with the given `FoxSettings` key.
    ///
    /// The value is parsed as a `u8`, then clamped between 0 and 100.
    ///
    /// # Returns
    /// * `Ok(Some(u8))` if the key exists and the value was successfully parsed and clamped.
    /// * `Ok(None)` if the key does not exist.
    /// * `Err(IntParseError)` if the value exists but could not be parsed as a `u8`.
    pub fn get_u8_percent(&self, p: FoxSettings) -> (r: Result<Option<u8>, IntParseError>)
        ensures
            r == (if self.values().dom().contains(p) {
                match percent_setting_spec(self.values()[p]) {
                    Ok(v) => Ok(Some(v)),
                    Err(e) => Err(e),
                }
            } else {
                Ok(None)
            }),
    {
        proof { use_type_invariant(self); }
        match find_key(&self.data_points, &p) {
            Some(i) => {
                proof { lemma_entries_value(self.data_points@, i as int); }
                match parse_percent_setting(self.data_points[i].1.0.as_str()) {
                    Ok(v) => Ok(Some(v)),
                    Err(e) => Err(e),
                }
            },
            None => {
                proof { lemma_entries_dom(self.data_points@, p); }
                Ok(None)
            },
        }
    }
}

/// A read of settings data gives back what the last write of that setting
/// wrote, and a write of one setting leaves the others as they were.
pub proof fn lemma_settings_read_after_write(before: SettingsData, after: SettingsData,
    p: FoxSettings, text: Seq<char>, q: FoxSettings)
    requires
        after.values() == before.values().insert(p, text),
    ensures
        after.values().dom().contains(p),
        after.values()[p] == text,
        q != p ==> (after.values().dom().contains(q) == before.values().dom().contains(q)),
        q != p && before.values().dom().contains(q) ==> after.values()[q] == before.values()[q],
{
}

/// A percentage read from a setting never exceeds 100.
pub proof fn lemma_percent_setting_at_most_100(raw: Seq<char>)
    ensures
        percent_setting_spec(raw) matches Ok(v) ==> v <= 100,
{
}

} // verus!
