//! Username lookup and email removal against a Cognito user pool, written as
//! verified decisions around a client that performs the remote calls.

pub mod env;
pub mod errors;
pub mod flow;
pub mod lookup;
pub mod protocol;
pub mod removal;
pub mod util;
