//! One reply of the control plane, normalized: status, body and the
//! control headers, with the classification of the status into bands.

use vstd::prelude::*;
use crate::text::text_ref;

verus! {

/// The header that names the request.
pub const AWS_REQ_ID: &'static str = "Lambda-Runtime-Aws-Request-Id";

/// The header that gives the deadline, in milliseconds since the epoch.
pub const AWS_DEADLINE_MS: &'static str = "Lambda-Runtime-Deadline-Ms";

/// The header that names the function that was invoked.
pub const AWS_FUNC_ARN: &'static str = "Lambda-Runtime-Invoked-Function-Arn";

/// The header that carries the tracing id.
pub const AWS_TRACE_ID: &'static str = "Lambda-Runtime-Trace-Id";

/// The header that carries the context of the client.
pub const AWS_CLIENT_CTX: &'static str = "Lambda-Runtime-Client-Context";

/// The header that carries the identity of the caller.
pub const AWS_COG_ID: &'static str = "Lambda-Runtime-Cognito-Identity";

/// The header of an error report that names the kind of error.
pub const AWS_FUNC_ERR_TYPE: &'static str = "Lambda-Runtime-Function-Error-Type";

/// A status of the success band: the body, if any, is the event payload.
pub open spec fn is_success_status(code: u16) -> bool {
    200 <= code <= 299
}

/// A status of the client-error band: recoverable, the body is the detail.
pub open spec fn is_client_err_status(code: u16) -> bool {
    400 <= code <= 499
}

/// A status of the server-error band: the execution environment is lost.
pub open spec fn is_server_err_status(code: u16) -> bool {
    500 <= code <= 599
}

/// The mathematical content of a reply.
pub struct ResponseParts {
    pub body: Option<Seq<char>>,
    pub status: u16,
    pub request_id: Option<Seq<char>>,
    /// The deadline in milliseconds since the Unix epoch.
    pub deadline: Option<u64>,
    pub arn: Option<Seq<char>>,
    pub trace_id: Option<Seq<char>>,
    pub client_context: Option<Seq<char>>,
    pub cognito_identity: Option<Seq<char>>,
}

impl ResponseParts {
    /// The event payload: the body of a reply of the success band.
    pub open spec fn event(self) -> Option<Seq<char>> {
        if is_success_status(self.status) {
            self.body
        } else {
            None
        }
    }

    /// The error detail: the body of a reply of the client-error band.
    pub open spec fn error_detail(self) -> Option<Seq<char>> {
        if is_client_err_status(self.status) {
            self.body
        } else {
            None
        }
    }
}

/// A reply of the runtime API, readable without ownership of it.
pub trait LambdaAPIResponse {
    /// What the reply holds.
    spec fn parts(&self) -> ResponseParts;

    fn get_body(&self) -> (r: Option<&str>)
        ensures
            text_ref(r) == self.parts().body,
    ;

    fn get_status_code(&self) -> (r: u16)
        ensures
            r == self.parts().status,
    ;

    fn aws_request_id(&self) -> (r: Option<&str>)
        ensures
            text_ref(r) == self.parts().request_id,
    ;

    /// The deadline in milliseconds since the Unix epoch.
    fn deadline(&self) -> (r: Option<u64>)
        ensures
            r == self.parts().deadline,
    ;

    fn invoked_function_arn(&self) -> (r: Option<&str>)
        ensures
            text_ref(r) == self.parts().arn,
    ;

    fn trace_id(&self) -> (r: Option<&str>)
        ensures
            text_ref(r) == self.parts().trace_id,
    ;

    fn client_context(&self) -> (r: Option<&str>)
        ensures
            text_ref(r) == self.parts().client_context,
    ;

    fn cognito_identity(&self) -> (r: Option<&str>)
        ensures
            text_ref(r) == self.parts().cognito_identity,
    ;

    /// The body, where the status is of the success band.
    fn event_response(&self) -> (r: Option<&str>)
        ensures
            text_ref(r) == self.parts().event(),
    {
        if self.is_success() {
            self.get_body()
        } else {
            None
        }
    }

    /// The body, where the status is of the client-error band.
    fn error_response(&self) -> (r: Option<&str>)
        ensures
            text_ref(r) == self.parts().error_detail(),
    {
        if self.is_client_err() {
            self.get_body()
        } else {
            None
        }
    }

    fn status_response(&self) -> (r: Option<&str>)
        ensures
            text_ref(r) == self.parts().event(),
    {
        self.event_response()
    }

    fn is_success(&self) -> (r: bool)
        ensures
            r == is_success_status(self.parts().status),
    {
        let code: u16 = self.get_status_code();
        200 <= code && code <= 299
    }

    fn is_client_err(&self) -> (r: bool)
        ensures
            r == is_client_err_status(self.parts().status),
    {
        let code: u16 = self.get_status_code();
        400 <= code && code <= 499
    }

    fn is_server_err(&self) -> (r: bool)
        ensures
            r == is_server_err_status(self.parts().status),
    {
        let code: u16 = self.get_status_code();
        500 <= code && code <= 599
    }

    fn is_err(&self) -> (r: bool)
        ensures
            r == (is_client_err_status(self.parts().status) || is_server_err_status(
                self.parts().status,
            )),
    {
        let code: u16 = self.get_status_code();
        400 <= code && code <= 599
    }
}

/// The three bands exclude one another, and every status from 200 to 299
/// or from 400 to 599 lies in one of them: a success is neither kind of
/// error, and an error is exactly one kind.
pub proof fn lemma_status_bands(code: u16)
    ensures
        is_success_status(code) ==> !is_client_err_status(code) && !is_server_err_status(code),
        is_client_err_status(code) ==> !is_success_status(code) && !is_server_err_status(code),
        is_server_err_status(code) ==> !is_success_status(code) && !is_client_err_status(code),
        (200 <= code <= 299 || 400 <= code <= 599) ==> (is_success_status(code)
            || is_client_err_status(code) || is_server_err_status(code)),
        (is_success_status(code) || is_client_err_status(code) || is_server_err_status(code))
            ==> 100 <= code <= 599,
{
}

} // verus!
