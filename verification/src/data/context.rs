//! The context of one invocation: what the event carries beside its
//! payload, what the container knows of itself, and the time that is left
//! until the deadline.

use vstd::prelude::*;
use crate::data::env::{EnvSnapshot, RuntimeEnvVars};
use crate::data::response::{LambdaAPIResponse, ResponseParts};
use crate::error::Error;
use crate::text::text_ref;

verus! {

/// The message of the error that reports an event without a deadline.
pub const MISSING_DEADLINE: &'static str = "Missing deadline info";

/// The message of the error that reports a deadline that has passed.
pub const DEADLINE_PASSED: &'static str = "Duration error";

/// The number of nanoseconds in a millisecond.
pub const NANOS_PER_MILLI: u128 = 1_000_000;

/// A deadline, given in milliseconds since the epoch, in nanoseconds.
pub open spec fn deadline_nanos(deadline_ms: u64) -> int {
    deadline_ms * 1_000_000
}

/// A point in time, as the system clock gives it.
#[verifier::external_type_specification]
#[verifier::external_body]
pub struct ExSystemTime(std::time::SystemTime);

/// The error of a clock that stands before the instant it is compared with.
#[verifier::external_type_specification]
#[verifier::external_body]
pub struct ExSystemTimeError(std::time::SystemTimeError);

/// Trusted: `SystemTime::now`. Nothing is claimed of the instant that is
/// returned: it differs from call to call.
#[verifier::external_body]
fn system_now() -> (now: std::time::SystemTime) {
    std::time::SystemTime::now()
}

/// Trusted: `SystemTime::duration_since`, with `UNIX_EPOCH` as the earlier
/// instant. Nothing is claimed of the result.
#[verifier::external_body]
fn since_epoch(instant: &std::time::SystemTime) -> (elapsed: Result<
    std::time::Duration,
    std::time::SystemTimeError,
>) {
    instant.duration_since(std::time::UNIX_EPOCH)
}

/// Trusted: `Duration::as_nanos`. Nothing is claimed of the result.
#[verifier::external_body]
fn nanos_of(elapsed: &std::time::Duration) -> (nanos: u128) {
    elapsed.as_nanos()
}

/// Trusted: `to_string` on a `SystemTimeError`. Nothing is claimed of the
/// text.
#[verifier::external_body]
fn clock_error_text(error: &std::time::SystemTimeError) -> (message: String) {
    error.to_string()
}

/// Reads the clock: the nanoseconds that have passed since the epoch, or
/// the text of the error where the clock stands before the epoch.
fn now_since_epoch() -> (r: Result<u128, String>) {
    let now = system_now();
    match since_epoch(&now) {
        Ok(elapsed) => Ok(nanos_of(&elapsed)),
        Err(e) => Err(clock_error_text(&e)),
    }
}

/// The context object that an event handler receives with each event.
pub trait LambdaContext {
    /// The container-level part of the context.
    spec fn env(&self) -> EnvSnapshot;

    /// The event-level part of the context.
    spec fn reply(&self) -> ResponseParts;

    /// The time in nanoseconds that is left at the instant `clock`, a
    /// reading in nanoseconds since the epoch, or the text of the error
    /// that reading the clock gave. A missing deadline is reported first;
    /// a deadline that lies before the reading is an error, never a
    /// negative or wrapped value.
    fn remaining_time_at(&self, clock: Result<u128, String>) -> (r: Result<u128, Error>)
        ensures
            match (self.reply().deadline, clock) {
                (None, _) => r is Err && r->Err_0@ == MISSING_DEADLINE@,
                (Some(_), Err(reason)) => r is Err && r->Err_0@ == reason@,
                (Some(deadline), Ok(now)) => if deadline_nanos(deadline) >= now {
                    r is Ok && r->Ok_0 == deadline_nanos(deadline) - now
                } else {
                    r is Err && r->Err_0@ == DEADLINE_PASSED@
                },
            },
    {
        match self.get_deadline() {
            None => Err(Error::new(String::from_str(MISSING_DEADLINE))),
            Some(deadline) => match clock {
                Err(reason) => Err(Error::new(reason)),
                Ok(now) => {
                    let end: u128 = (deadline as u128) * NANOS_PER_MILLI;
                    if end >= now {
                        Ok(end - now)
                    } else {
                        Err(Error::new(String::from_str(DEADLINE_PASSED)))
                    }
                },
            },
        }
    }

    /// The time in nanoseconds between now and the deadline of the event.
    /// Without a deadline this fails with the missing-deadline message,
    /// whatever the clock says; a time that is returned never exceeds the
    /// deadline.
    fn get_remaining_time_ms(&self) -> (r: Result<u128, Error>)
        ensures
            self.reply().deadline is None ==> r is Err && r->Err_0@ == MISSING_DEADLINE@,
            r is Ok ==> self.reply().deadline is Some && r->Ok_0 <= deadline_nanos(
                self.reply().deadline->Some_0,
            ),
    {
        self.remaining_time_at(now_since_epoch())
    }

    /// The deadline in milliseconds since the epoch.
    fn get_deadline(&self) -> (r: Option<u64>)
        ensures
            r == self.reply().deadline,
    ;

    fn invoked_function_arn(&self) -> (r: Option<&str>)
        ensures
            text_ref(r) == self.reply().arn,
    ;

    fn aws_request_id(&self) -> (r: Option<&str>)
        ensures
            text_ref(r) == self.reply().request_id,
    ;

    fn function_name(&self) -> (r: Option<&str>)
        ensures
            text_ref(r) == self.env().function_name,
    ;

    fn function_version(&self) -> (r: Option<&str>)
        ensures
            text_ref(r) == self.env().function_version,
    ;

    fn memory_limit_in_mb(&self) -> (r: Option<usize>)
        ensures
            r == self.env().function_memory_size,
    ;

    fn log_group_name(&self) -> (r: Option<&str>)
        ensures
            text_ref(r) == self.env().log_group_name,
    ;

    fn log_stream_name(&self) -> (r: Option<&str>)
        ensures
            text_ref(r) == self.env().log_stream_name,
    ;

    fn cognito_identity(&self) -> (r: Option<&str>)
        ensures
            text_ref(r) == self.reply().cognito_identity,
    ;

    fn client_context(&self) -> (r: Option<&str>)
        ensures
            text_ref(r) == self.reply().client_context,
    ;
}

/// A context that borrows the environment and the reply it speaks of, and
/// owns nothing.
pub struct RefLambdaContext<'a, E: RuntimeEnvVars, R: LambdaAPIResponse> {
    /// The environment of the container.
    pub env_vars: &'a E,
    /// The reply that carries the event.
    pub invo_resp: &'a R,
}

impl<'a, E: RuntimeEnvVars, R: LambdaAPIResponse> LambdaContext for RefLambdaContext<'a, E, R> {
    open spec fn env(&self) -> EnvSnapshot {
        self.env_vars.snapshot()
    }

    open spec fn reply(&self) -> ResponseParts {
        self.invo_resp.parts()
    }

    fn get_deadline(&self) -> (r: Option<u64>) {
        self.invo_resp.deadline()
    }

    fn invoked_function_arn(&self) -> (r: Option<&str>) {
        self.invo_resp.invoked_function_arn()
    }

    fn aws_request_id(&self) -> (r: Option<&str>) {
        self.invo_resp.aws_request_id()
    }

    fn function_name(&self) -> (r: Option<&str>) {
        self.env_vars.get_function_name()
    }

    fn function_version(&self) -> (r: Option<&str>) {
        self.env_vars.get_function_version()
    }

    fn memory_limit_in_mb(&self) -> (r: Option<usize>) {
        self.env_vars.get_function_memory_size()
    }

    fn log_group_name(&self) -> (r: Option<&str>) {
        self.env_vars.get_log_group_name()
    }

    fn log_stream_name(&self) -> (r: Option<&str>) {
        self.env_vars.get_log_stream_name()
    }

    fn cognito_identity(&self) -> (r: Option<&str>) {
        self.invo_resp.cognito_identity()
    }

    fn client_context(&self) -> (r: Option<&str>) {
        self.invo_resp.client_context()
    }
}

} // verus!
