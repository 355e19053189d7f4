use vstd::prelude::*;

verus! {

/// The versions of the upstream API that the library speaks.
#[derive(Debug, Copy, Clone)]
pub enum ApiVersion {
    V3,
}

impl ApiVersion {
    /// The path under the API root at which this version is served.
    pub open spec fn spec_base_path(&self) -> Seq<char> {
        match self {
            ApiVersion::V3 => "3/"@,
        }
    }

    /// The path under the API root at which this version is served.
    pub fn base_path(&self) -> (path: &'static str)
        ensures
            path@ == self.spec_base_path(),
    {
        match self {
            ApiVersion::V3 => "3/",
        }
    }
}

} // verus!
