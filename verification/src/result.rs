//! A specialized result type for connection-cell operations.

use vstd::prelude::*;

use crate::error::Error;

verus! {

/// The result type used across this crate for any operation which may
/// produce an [`Error`].
pub type DbResult<T> = core::result::Result<T, Error>;

} // verus!
