//! What a program that drives the runtime imports.

pub use crate::data::context::{LambdaContext, RefLambdaContext};
pub use crate::data::env::{LambdaRuntimeEnv, RuntimeEnvVars};
pub use crate::backends::ureq::{RawReply, UreqResponse};
pub use crate::data::response::LambdaAPIResponse;
pub use crate::error::Error;
pub use crate::runtime::{perform, Action, DefaultRuntime, Event, LambdaRuntime};
pub use crate::transport::{Method, Request, Transport};
pub use crate::LAMBDA_VER;
