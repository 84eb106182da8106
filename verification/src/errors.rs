//! The conditions under which the library refuses a request.

use vstd::prelude::*;
use crate::handle::{MaterialHandle, PipelineHandle};

verus! {

/// Why a request was refused.
#[derive(Debug, Clone, Copy, PartialEq, Eq, Structural)]
pub enum Error {
    /// A resource that can be written after its creation was asked for under
    /// a shared location.
    CreateMutableSharedObject,
    /// The pipeline handle names no pipeline.
    PipelineHandleInvalid(PipelineHandle),
    /// The material handle names no material.
    MaterialHandleInvalid(MaterialHandle),
}

impl Error {
    /// Describes the error in words.
    pub fn message(&self) -> (s: String)
        ensures
            s@ == (match *self {
                Error::CreateMutableSharedObject => "can not create mutable shared object"@,
                Error::PipelineHandleInvalid(_) => "pipeline handle is invalid"@,
                Error::MaterialHandleInvalid(_) => "material handle is invalid"@,
            }),
    {
        match *self {
            Error::CreateMutableSharedObject => "can not create mutable shared object".to_owned(),
            Error::PipelineHandleInvalid(_) => "pipeline handle is invalid".to_owned(),
            Error::MaterialHandleInvalid(_) => "material handle is invalid".to_owned(),
        }
    }
}

} // verus!
