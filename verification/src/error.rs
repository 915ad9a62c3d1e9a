//! The failures that the adaptation layer reports.

use vstd::prelude::*;

verus! {

/// Why an operation did not produce its result.
#[derive(Clone, Copy, Debug, PartialEq, Eq, Structural)]
pub enum Error {
    /// The interface defines the operation or format, the backend lacks it.
    NotSupported,
    /// An optional collaborator, such as the image codec, is not linked in.
    MissingFeature,
    /// The drawing engine refused the request.
    BackendFailure,
}

} // verus!
