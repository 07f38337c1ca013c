//! Life-form classification and the sapience grading used for authorization.

use vstd::prelude::*;

verus! {

/// A life form's classification: a display name paired with a sapience grade.
pub struct Species {
    pub name: String,
    pub sapience_level: SapienceScale,
}

/// Ordered sapience grading. Comparisons go through [`sapience_value`]
/// (the ordinal), never through the display string.
#[derive(Clone, Copy, Debug, PartialEq, Eq, Structural)]
pub enum SapienceScale {
    NoSapience,
    Low,
    Medium,
    High,
}

/// The ordinal of a sapience grade: `None` < `Low` < `Medium` < `High`.
pub open spec fn sapience_ordinal(level: SapienceScale) -> int {
    match level {
        SapienceScale::NoSapience => 0,
        SapienceScale::Low => 1,
        SapienceScale::Medium => 2,
        SapienceScale::High => 3,
    }
}

/// The display string of a sapience grade.
pub open spec fn sapience_label(level: SapienceScale) -> Seq<char> {
    match level {
        SapienceScale::NoSapience => "None"@,
        SapienceScale::Low => "Low"@,
        SapienceScale::Medium => "Medium"@,
        SapienceScale::High => "High"@,
    }
}

impl SapienceScale {
    /// The display name of this grade, for serialization boundaries only.
    pub fn as_str(&self) -> (r: &str)
        ensures
            r@ == sapience_label(*self),
    {
        match self {
            SapienceScale::NoSapience => "None",
            SapienceScale::Low => "Low",
            SapienceScale::Medium => "Medium",
            SapienceScale::High => "High",
        }
    }
}

/// The integer used for capability comparisons, `0` through `3`.
pub fn sapience_value(level: &SapienceScale) -> (r: u8)
    ensures
        r == sapience_ordinal(*level),
{
    match level {
        SapienceScale::NoSapience => 0,
        SapienceScale::Low => 1,
        SapienceScale::Medium => 2,
        SapienceScale::High => 3,
    }
}

/// A caller-asserted travel profile accompanying a transfer request.
pub struct Traveler {
    pub name: String,
    pub home: String,
    pub species: Species,
    pub cyberdized: bool,
}

/// A sentient being as the external authority reports it.
#[allow(dead_code)]
pub struct Sapient {
    name: String,
    telepathic: bool,
}

/// Answer of the external authority to a minimum-sapience query.
pub struct SapienceResponse {
    pub level: SapienceScale,
}

} // verus!
