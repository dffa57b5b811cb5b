//! A runtime adapter for the AWS Lambda Runtime API: the data model of one
//! control-plane reply, the per-container environment, the per-invocation
//! context, and the decision logic of the polling loop.

use vstd::prelude::*;

pub mod backends;
pub mod data;
pub mod error;
pub mod prelude;
pub mod runtime;
pub mod text;
pub mod transport;

verus! {

/// The version of the runtime API that the Lambda service speaks.
pub const LAMBDA_VER: &'static str = "2018-06-01";

} // verus!
