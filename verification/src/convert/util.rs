//! Required values of the wire model.

use vstd::prelude::*;

use crate::error::{DamlLfConvertError, DamlLfConvertResult};

verus! {

/// Taking a value the wire model leaves optional but the format requires:
/// a missing one is a wire violation.
pub trait Required<T>: Sized {
    fn req(self) -> DamlLfConvertResult<T>;
}

impl<T> Required<T> for Option<T> {
    fn req(self) -> (r: DamlLfConvertResult<T>)
        ensures
            match self {
                Some(v) => r == Ok::<T, DamlLfConvertError>(v),
                None => r == Err::<T, DamlLfConvertError>(DamlLfConvertError::MissingRequiredField),
            },
    {
        match self {
            Some(v) => Ok(v),
            None => Err(DamlLfConvertError::MissingRequiredField),
        }
    }
}

} // verus!
