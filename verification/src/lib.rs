//! A JSON-RPC 2.0 dispatcher for one message-oriented connection: the wire
//! shapes, the binding of typed functions to a uniform calling convention,
//! the registry of methods, and the decisions of the connection handler.

pub mod handler;
pub mod json;
pub mod method;
pub mod pairs;
pub mod request;
pub mod response;

pub use crate::method::rpc;

use crate::json::Json;
use crate::response::Error;
use vstd::prelude::*;
use vstd::std_specs::convert::FromSpec;

verus! {

/// Turns what a method returned into the outcome of the call: its encoded
/// result as it is, or its failure as an error object.
pub fn convert<E>(result: Result<Json, E>) -> (outcome: Result<Json, Error>) where Error: From<E>
    ensures
        match result {
            Ok(value) => outcome == Ok::<Json, Error>(value),
            Err(failure) => match outcome {
                Ok(_) => false,
                Err(error) => call_ensures(Error::from, (failure,), error) && (<Error as FromSpec<
                    E,
                >>::obeys_from_spec() ==> error == <Error as FromSpec<E>>::from_spec(failure)),
            },
        },
{
    match result {
        Ok(value) => Ok(value),
        Err(failure) => Err(Error::from(failure)),
    }
}

} // verus!
