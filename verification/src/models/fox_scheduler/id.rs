//! The [FoxWorkModes] enumeration: the work modes of the FoxESS scheduler.
//!
//! More might be added over time, hence the enumeration is non-exhaustive.

use vstd::prelude::*;
use crate::text::str_eq;

verus! {

/// An enumeration representing the available scheduler work modes from FoxESS cloud.
#[derive(Debug, Clone, Copy, PartialEq, Eq, Hash, Structural)]
#[non_exhaustive]
pub enum FoxWorkModes {
    /// Forces the battery to discharge.
    ForceDischarge,
    /// Peak shaving mode.
    PeakShaving,
    /// Feed-in mode.
    Feedin,
    /// Backup mode.
    Backup,
    /// Self-use mode.
    SelfUse,
    /// Forces the battery to charge.
    ForceCharge,
    /// Unknown work mode.
    Unknown,
}

impl FoxWorkModes {
    /// The key by which FoxESS Cloud names this variant.
    pub open spec fn key(self) -> Seq<char> {
        match self {
            FoxWorkModes::ForceDischarge => "ForceDischarge"@,
            FoxWorkModes::PeakShaving => "PeakShaving"@,
            FoxWorkModes::Feedin => "Feedin"@,
            FoxWorkModes::Backup => "Backup"@,
            FoxWorkModes::SelfUse => "SelfUse"@,
            FoxWorkModes::ForceCharge => "ForceCharge"@,
            FoxWorkModes::Unknown => "Unknown"@,
        }
    }

    /// Returns the key by which FoxESS Cloud names this variant.
    pub fn as_str(&self) -> (r: &'static str)
        ensures
            r@ == self.key(),
    {
        match self {
            FoxWorkModes::ForceDischarge => "ForceDischarge",
            FoxWorkModes::PeakShaving => "PeakShaving",
            FoxWorkModes::Feedin => "Feedin",
            FoxWorkModes::Backup => "Backup",
            FoxWorkModes::SelfUse => "SelfUse",
            FoxWorkModes::ForceCharge => "ForceCharge",
            FoxWorkModes::Unknown => "Unknown",
        }
    }

    /// The position of this variant in the registry.
    pub closed spec fn index(self) -> int {
        match self {
            FoxWorkModes::ForceDischarge => 0,
            FoxWorkModes::PeakShaving => 1,
            FoxWorkModes::Feedin => 2,
            FoxWorkModes::Backup => 3,
            FoxWorkModes::SelfUse => 4,
            FoxWorkModes::ForceCharge => 5,
            FoxWorkModes::Unknown => 6,
        }
    }

    /// The variant at a position of the registry.
    closed spec fn of_index(i: int) -> FoxWorkModes {
        if i == 0 { FoxWorkModes::ForceDischarge }
        else if i == 1 { FoxWorkModes::PeakShaving }
        else if i == 2 { FoxWorkModes::Feedin }
        else if i == 3 { FoxWorkModes::Backup }
        else if i == 4 { FoxWorkModes::SelfUse }
        else if i == 5 { FoxWorkModes::ForceCharge }
        else { FoxWorkModes::Unknown }
    }

    /// The position of the key `s` in the registry, read from its length and a few of its characters.
    closed spec fn key_index(s: Seq<char>) -> int {
        if s.len() == 14 { 0 }
        else if s.len() == 11 && s[0] == 'P' { 1 }
        else if s.len() == 6 && s[0] == 'F' { 2 }
        else if s.len() == 6 && s[0] == 'B' { 3 }
        else if s.len() == 7 && s[0] == 'S' { 4 }
        else if s.len() == 11 && s[0] == 'F' { 5 }
        else if s.len() == 7 && s[0] == 'U' { 6 }
        else { -1 }
    }

    proof fn lemma_of_index(self)
        ensures
            Self::of_index(self.index()) == self,
    {
    }

    proof fn lemma_key_index(self)
        ensures
            Self::key_index(self.key()) == self.index(),
    {
        match self {
            FoxWorkModes::ForceDischarge => {
                reveal_strlit("ForceDischarge");
            },
            FoxWorkModes::PeakShaving => {
                reveal_strlit("PeakShaving");
            },
            FoxWorkModes::Feedin => {
                reveal_strlit("Feedin");
            },
            FoxWorkModes::Backup => {
                reveal_strlit("Backup");
            },
            FoxWorkModes::SelfUse => {
                reveal_strlit("SelfUse");
            },
            FoxWorkModes::ForceCharge => {
                reveal_strlit("ForceCharge");
            },
            FoxWorkModes::Unknown => {
                reveal_strlit("Unknown");
            },
        }
    }

    /// Distinct variants have distinct keys.
    pub proof fn lemma_key_injective(a: FoxWorkModes, b: FoxWorkModes)
        requires
            a.key() == b.key(),
        ensures
            a == b,
    {
        a.lemma_key_index();
        b.lemma_key_index();
        a.lemma_of_index();
        b.lemma_of_index();
    }

    /// The variant whose key is `s`, if there is one.
    pub open spec fn from_key_spec(s: Seq<char>) -> Option<FoxWorkModes> {
        if exists|v: FoxWorkModes| v.key() == s {
            Some(choose|v: FoxWorkModes| v.key() == s)
        } else {
            None
        }
    }

    /// The variant that the key of a variant names is that variant.
    pub proof fn lemma_from_key_of_key(v: FoxWorkModes)
        ensures
            Self::from_key_spec(v.key()) == Some(v),
    {
        let w = choose|w: FoxWorkModes| w.key() == v.key();
        Self::lemma_key_injective(v, w);
    }

    /// Returns the variant whose key is `s`, if there is one.
    pub fn from_key(s: &str) -> (r: Option<FoxWorkModes>)
        ensures
            r == Self::from_key_spec(s@),
    {
        if str_eq(s, "ForceDischarge") {
            proof { Self::lemma_from_key_of_key(FoxWorkModes::ForceDischarge); }
            return Some(FoxWorkModes::ForceDischarge);
        }
        if str_eq(s, "PeakShaving") {
            proof { Self::lemma_from_key_of_key(FoxWorkModes::PeakShaving); }
            return Some(FoxWorkModes::PeakShaving);
        }
        if str_eq(s, "Feedin") {
            proof { Self::lemma_from_key_of_key(FoxWorkModes::Feedin); }
            return Some(FoxWorkModes::Feedin);
        }
        if str_eq(s, "Backup") {
            proof { Self::lemma_from_key_of_key(FoxWorkModes::Backup); }
            return Some(FoxWorkModes::Backup);
        }
        if str_eq(s, "SelfUse") {
            proof { Self::lemma_from_key_of_key(FoxWorkModes::SelfUse); }
            return Some(FoxWorkModes::SelfUse);
        }
        if str_eq(s, "ForceCharge") {
            proof { Self::lemma_from_key_of_key(FoxWorkModes::ForceCharge); }
            return Some(FoxWorkModes::ForceCharge);
        }
        if str_eq(s, "Unknown") {
            proof { Self::lemma_from_key_of_key(FoxWorkModes::Unknown); }
            return Some(FoxWorkModes::Unknown);
        }
        None
    }

    /// The work mode that a name stands for: the one it names, or
    /// [`FoxWorkModes::Unknown`] when it names none.
    pub open spec fn from_name_spec(s: Seq<char>) -> FoxWorkModes {
        match Self::from_key_spec(s) {
            Some(m) => m,
            None => FoxWorkModes::Unknown,
        }
    }

    /// Returns the work mode that a name stands for; a name that the
    /// registry does not hold gives [`FoxWorkModes::Unknown`].
    pub fn from_name(s: &str) -> (r: FoxWorkModes)
        ensures
            r == Self::from_name_spec(s@),
    {
        match Self::from_key(s) {
            Some(m) => m,
            None => FoxWorkModes::Unknown,
        }
    }
}

impl core::str::FromStr for FoxWorkModes {
    type Err = ();

    /// Parses a work mode from its name; a string that names none of the
    /// modes is an error. Matching is case-sensitive.
    fn from_str(s: &str) -> (r: Result<Self, Self::Err>)
        ensures
            r == (match FoxWorkModes::from_key_spec(s@) {
                Some(m) => Ok::<FoxWorkModes, ()>(m),
                None => Err(()),
            }),
    {
        match FoxWorkModes::from_key(s) {
            Some(m) => Ok(m),
            None => Err(()),
        }
    }
}

} // verus!
