//! The [FoxParameter] enumeration: the four variables that the first releases
//! of the client requested, each with the key by which FoxESS Cloud names it.

use vstd::prelude::*;
use crate::text::str_eq;

verus! {

/// The variables of the first releases of the client, a subset of [`FoxVariables`](crate::FoxVariables)
/// with the same keys.
#[derive(Debug, Clone, Copy, PartialEq, Eq, Hash, Structural)]
#[non_exhaustive]
pub enum FoxParameter {
    /// PV power.
    PvPower,
    /// Load power.
    LoadsPower,
    /// Battery state of charge.
    SoC,
    /// Battery state of health.
    SoH,
}

impl FoxParameter {
    /// The key by which FoxESS Cloud names this variant.
    pub open spec fn key(self) -> Seq<char> {
        match self {
            FoxParameter::PvPower => "pvPower"@,
            FoxParameter::LoadsPower => "loadsPower"@,
            FoxParameter::SoC => "SoC"@,
            FoxParameter::SoH => "SOH"@,
        }
    }

    /// Returns the key by which FoxESS Cloud names this variant.
    pub fn as_str(&self) -> (r: &'static str)
        ensures
            r@ == self.key(),
    {
        match self {
            FoxParameter::PvPower => "pvPower",
            FoxParameter::LoadsPower => "loadsPower",
            FoxParameter::SoC => "SoC",
            FoxParameter::SoH => "SOH",
        }
    }

    /// The position of this variant in the registry.
    pub closed spec fn index(self) -> int {
        match self {
            FoxParameter::PvPower => 0,
            FoxParameter::LoadsPower => 1,
            FoxParameter::SoC => 2,
            FoxParameter::SoH => 3,
        }
    }

    /// The variant at a position of the registry.
    closed spec fn of_index(i: int) -> FoxParameter {
        if i == 0 { FoxParameter::PvPower }
        else if i == 1 { FoxParameter::LoadsPower }
        else if i == 2 { FoxParameter::SoC }
        else { FoxParameter::SoH }
    }

    /// The position of the key `s` in the registry, read from its length and a few of its characters.
    closed spec fn key_index(s: Seq<char>) -> int {
        if s.len() == 7 { 0 }
        else if s.len() == 10 { 1 }
        else if s.len() == 3 && s[1] == 'o' { 2 }
        else if s.len() == 3 && s[1] == 'O' { 3 }
        else { -1 }
    }

    proof fn lemma_of_index(self)
        ensures
            Self::of_index(self.index()) == self,
    {
    }

    proof fn lemma_key_index(self)
        ensures
            Self::key_index(self.key()) == self.index(),
    {
        match self {
            FoxParameter::PvPower => {
                reveal_strlit("pvPower");
            },
            FoxParameter::LoadsPower => {
                reveal_strlit("loadsPower");
            },
            FoxParameter::SoC => {
                reveal_strlit("SoC");
            },
            FoxParameter::SoH => {
                reveal_strlit("SOH");
            },
        }
    }

    /// Distinct variants have distinct keys.
    pub proof fn lemma_key_injective(a: FoxParameter, b: FoxParameter)
        requires
            a.key() == b.key(),
        ensures
            a == b,
    {
        a.lemma_key_index();
        b.lemma_key_index();
        a.lemma_of_index();
        b.lemma_of_index();
    }

    /// The variant whose key is `s`, if there is one.
    pub open spec fn from_key_spec(s: Seq<char>) -> Option<FoxParameter> {
        if exists|v: FoxParameter| v.key() == s {
            Some(choose|v: FoxParameter| v.key() == s)
        } else {
            None
        }
    }

    /// The variant that the key of a variant names is that variant.
    pub proof fn lemma_from_key_of_key(v: FoxParameter)
        ensures
            Self::from_key_spec(v.key()) == Some(v),
    {
        let w = choose|w: FoxParameter| w.key() == v.key();
        Self::lemma_key_injective(v, w);
    }

    /// Returns the variant whose key is `s`, if there is one.
    pub fn from_key(s: &str) -> (r: Option<FoxParameter>)
        ensures
            r == Self::from_key_spec(s@),
    {
        if str_eq(s, "pvPower") {
            proof { Self::lemma_from_key_of_key(FoxParameter::PvPower); }
            return Some(FoxParameter::PvPower);
        }
        if str_eq(s, "loadsPower") {
            proof { Self::lemma_from_key_of_key(FoxParameter::LoadsPower); }
            return Some(FoxParameter::LoadsPower);
        }
        if str_eq(s, "SoC") {
            proof { Self::lemma_from_key_of_key(FoxParameter::SoC); }
            return Some(FoxParameter::SoC);
        }
        if str_eq(s, "SOH") {
            proof { Self::lemma_from_key_of_key(FoxParameter::SoH); }
            return Some(FoxParameter::SoH);
        }
        None
    }
}

impl core::str::FromStr for FoxParameter {
    type Err = ();

    /// Parses the key by which FoxESS Cloud names a variant.
    fn from_str(s: &str) -> (r: Result<Self, Self::Err>)
        ensures
            r == (match FoxParameter::from_key_spec(s@) {
                Some(v) => Ok::<FoxParameter, ()>(v),
                None => Err::<FoxParameter, ()>(()),
            }),
    {
        match FoxParameter::from_key(s) {
            Some(v) => Ok(v),
            None => Err(()),
        }
    }
}

} // verus!
