//! Errors in creating parameters and graph items.

use vstd::prelude::*;

verus! {

/// Why a factory made nothing.
#[derive(Clone, Copy, Debug, PartialEq, Eq, Structural)]
pub enum CreateError {
    /// No factory is known under the given name.
    TypeNotFound,
    /// The arguments do not describe a value of the type asked for.
    InvalidArgs,
}

impl CreateError {
    /// The error's name, as it is shown.
    pub open spec fn name_spec(self) -> Seq<char> {
        match self {
            CreateError::TypeNotFound => "TypeNotFound"@,
            CreateError::InvalidArgs => "InvalidArgs"@,
        }
    }

    /// The error's name, as it is shown.
    pub fn name(&self) -> (s: &'static str)
        ensures
            s@ == self.name_spec(),
    {
        match self {
            CreateError::TypeNotFound => "TypeNotFound",
            CreateError::InvalidArgs => "InvalidArgs",
        }
    }
}

} // verus!
