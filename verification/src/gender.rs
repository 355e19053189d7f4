use vstd::prelude::*;

verus! {

/// The gender that the upstream API records for a person.
#[derive(Debug, Eq, PartialEq, Structural, Hash, Copy, Clone)]
pub enum Gender {
    NotSpecified,
    Female,
    Male,
    NonBinary,
}

impl Gender {
    /// The gender that the upstream API writes as `code`; a code without a
    /// meaning of its own reads as `NotSpecified`.
    pub open spec fn spec_from_code(code: u8) -> Gender {
        if code == 1 {
            Gender::Female
        } else if code == 2 {
            Gender::Male
        } else if code == 3 {
            Gender::NonBinary
        } else {
            Gender::NotSpecified
        }
    }

    /// The gender that the upstream API writes as `code`.
    pub fn from_code(code: u8) -> (gender: Gender)
        ensures
            gender == Gender::spec_from_code(code),
    {
        match code {
            1 => Gender::Female,
            2 => Gender::Male,
            3 => Gender::NonBinary,
            _ => Gender::NotSpecified,
        }
    }
}

impl Default for Gender {
    fn default() -> (gender: Gender)
        ensures
            gender == Gender::NotSpecified,
    {
        Gender::NotSpecified
    }
}

} // verus!
