//! The error a caller of the actor can receive.

use redis::RedisError;
use vstd::prelude::*;

verus! {

/// Why an operation produced no result.
#[derive(Debug, PartialEq)]
pub enum Error {
    /// No usable connection existed when the command was about to be issued.
    Connection,
    /// The backend call itself failed; the client's error is kept as it came.
    Redis(RedisError),
}

impl From<RedisError> for Error {
    fn from(err: RedisError) -> (e: Error) {
        Error::Redis(err)
    }
}

impl vstd::std_specs::convert::FromSpecImpl<RedisError> for Error {
    open spec fn obeys_from_spec() -> bool {
        true
    }

    open spec fn from_spec(err: RedisError) -> Error {
        Error::Redis(err)
    }
}

/// Forwards the outcome of a backend call: a value is kept, a client error is
/// wrapped and never replaced or dropped.
pub fn forward<T>(outcome: Result<T, RedisError>) -> (r: Result<T, Error>)
    ensures
        r == spec_forward(outcome),
{
    match outcome {
        Ok(value) => Ok(value),
        Err(err) => Err(Error::from(err)),
    }
}

/// What [`forward`] returns.
pub open spec fn spec_forward<T>(outcome: Result<T, RedisError>) -> Result<T, Error> {
    match outcome {
        Ok(value) => Ok(value),
        Err(err) => Err(Error::Redis(err)),
    }
}

} // verus!
