//! Errors.

use vstd::prelude::*;

verus! {

/// Errors from vapours: boundary failures of the delegated conversion; the
/// pure scaling core itself has no error path.
#[derive(Clone, Debug)]
pub enum VapoursError {
    /// Missing dependency, carrying the name of the dependency that could
    /// not be found.
    DependencyNotFoundError(String),
    /// Frame property error, carrying the name of the property that could
    /// not be accessed.
    FramePropertyError(String),
}

impl VapoursError {
    /// The name this error carries: the missing dependency or the
    /// inaccessible frame property.
    pub fn subject(&self) -> (name: &String)
        ensures
            match self {
                VapoursError::DependencyNotFoundError(dependency) => name@ == dependency@,
                VapoursError::FramePropertyError(property) => name@ == property@,
            },
    {
        match self {
            VapoursError::DependencyNotFoundError(dependency) => dependency,
            VapoursError::FramePropertyError(property) => property,
        }
    }
}

} // verus!
