use crate::text::{decimal, push_decimal};
use std::ops::Deref;
use vstd::prelude::*;
use vstd::std_specs::convert::FromSpecImpl;

verus! {

/// The number under which the upstream API lists a genre.
#[derive(Debug, Copy, Clone, Eq, PartialEq, Structural, Hash)]
pub struct GenreId(pub usize);

impl View for GenreId {
    type V = nat;

    open spec fn view(&self) -> nat {
        self.0 as nat
    }
}

impl From<usize> for GenreId {
    fn from(value: usize) -> (id: GenreId) {
        GenreId(value)
    }
}

impl FromSpecImpl<usize> for GenreId {
    open spec fn obeys_from_spec() -> bool {
        true
    }

    open spec fn from_spec(value: usize) -> GenreId {
        GenreId(value)
    }
}

impl Deref for GenreId {
    type Target = usize;

    fn deref(&self) -> (value: &usize)
        ensures
            *value == self.0,
    {
        &self.0
    }
}

impl GenreId {
    /// The number itself.
    pub fn get(&self) -> (value: usize)
        ensures
            value == self@,
    {
        self.0
    }

    /// The number in decimal digits.
    pub fn to_string(&self) -> (text: String)
        ensures
            text@ == decimal(self@),
    {
        let mut text = String::new();
        push_decimal(&mut text, self.0 as u64);
        text
    }
}

} // verus!
