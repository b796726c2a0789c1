//! Error types.

use vstd::prelude::*;
use vstd::std_specs::convert::FromSpecImpl;
use sixbit::EncodeError;

verus! {

/// The reason for which a name has no key: `sixbit::EncodeError`, carried
/// as it is.
#[verifier::external_type_specification]
#[verifier::external_body]
pub struct ExEncodeError(sixbit::EncodeError);

/// The result of an operation that can fail with an [`EsperaError`].
pub type EsperaResult<N> = Result<N, EsperaError>;

/// What can go wrong.
#[non_exhaustive]
#[derive(Debug)]
pub enum EsperaError {
    /// A rate's name has no key: the reason as the encoder gave it.
    RateName(EncodeError),
}

impl From<EncodeError> for EsperaError {
    fn from(err: EncodeError) -> (e: EsperaError) {
        EsperaError::RateName(err)
    }
}

impl FromSpecImpl<EncodeError> for EsperaError {
    open spec fn obeys_from_spec() -> bool {
        true
    }

    open spec fn from_spec(err: EncodeError) -> EsperaError {
        EsperaError::RateName(err)
    }
}

} // verus!
