//! The data half of an HTTP backend: a reply as it comes off the wire,
//! and the normalized reply that the runtime reads.

use vstd::prelude::*;
use crate::data::response::{LambdaAPIResponse, ResponseParts};
use crate::error::Error;
use crate::text::{as_text, parse_u64, text, text_ref, u64_from_text};

verus! {

/// A reply as the transport hands it over: the status, the text of each
/// recognized header that was present, and the body or the reason why it
/// could not be read.
#[derive(Debug)]
pub struct RawReply {
    pub status: u16,
    pub request_id: Option<String>,
    pub deadline_ms: Option<String>,
    pub arn: Option<String>,
    pub trace_id: Option<String>,
    pub client_context: Option<String>,
    pub cognito_identity: Option<String>,
    pub body: Result<String, String>,
}

/// The deadline that a header text stands for: the number that it parses
/// to, and none where the header is absent or does not parse.
pub open spec fn deadline_of(header: Option<Seq<char>>) -> Option<u64> {
    match header {
        Some(t) => u64_from_text(t),
        None => None,
    }
}

/// A reply with its headers cached and its body read.
#[derive(Clone, Debug, PartialEq, Eq)]
pub struct UreqResponse {
    body: Option<String>,
    status: u16,
    request_id: Option<String>,
    deadline: Option<u64>,
    arn: Option<String>,
    trace_id: Option<String>,
    cognito_id: Option<String>,
    client_context: Option<String>,
}

impl UreqResponse {
    /// Builds a reply from values that are already parsed.
    pub fn from_parts(
        status: u16,
        body: Option<String>,
        request_id: Option<String>,
        deadline: Option<u64>,
        arn: Option<String>,
        trace_id: Option<String>,
        client_context: Option<String>,
        cognito_identity: Option<String>,
    ) -> (r: Self)
        ensures
            r.parts() == (ResponseParts {
                body: text(body),
                status,
                request_id: text(request_id),
                deadline,
                arn: text(arn),
                trace_id: text(trace_id),
                client_context: text(client_context),
                cognito_identity: text(cognito_identity),
            }),
    {
        UreqResponse {
            body,
            status,
            request_id,
            deadline,
            arn,
            trace_id,
            cognito_id: cognito_identity,
            client_context,
        }
    }

    /// Normalizes a raw reply. Fails exactly when the body could not be
    /// read, with the reason as the message. Every header is optional; a
    /// deadline header that is no number counts as absent.
    pub fn from_response(resp: RawReply) -> (r: Result<Self, Error>)
        ensures
            match resp.body {
                Err(reason) => r is Err && r->Err_0@ == reason@,
                Ok(data) => r is Ok && r->Ok_0.parts() == (ResponseParts {
                    body: Some(data@),
                    status: resp.status,
                    request_id: text(resp.request_id),
                    deadline: deadline_of(text(resp.deadline_ms)),
                    arn: text(resp.arn),
                    trace_id: text(resp.trace_id),
                    client_context: text(resp.client_context),
                    cognito_identity: text(resp.cognito_identity),
                }),
            },
    {
        let deadline: Option<u64> = match &resp.deadline_ms {
            Some(ms) => parse_u64(ms.as_str()),
            None => None,
        };
        match resp.body {
            Err(reason) => Err(Error::new(reason)),
            Ok(data) => Ok(
                UreqResponse::from_parts(
                    resp.status,
                    Some(data),
                    resp.request_id,
                    deadline,
                    resp.arn,
                    resp.trace_id,
                    resp.client_context,
                    resp.cognito_identity,
                ),
            ),
        }
    }
}

impl LambdaAPIResponse for UreqResponse {
    closed spec fn parts(&self) -> ResponseParts {
        ResponseParts {
            body: text(self.body),
            status: self.status,
            request_id: text(self.request_id),
            deadline: self.deadline,
            arn: text(self.arn),
            trace_id: text(self.trace_id),
            client_context: text(self.client_context),
            cognito_identity: text(self.cognito_id),
        }
    }

    fn get_body(&self) -> (r: Option<&str>) {
        as_text(&self.body)
    }

    fn get_status_code(&self) -> (r: u16) {
        self.status
    }

    fn aws_request_id(&self) -> (r: Option<&str>) {
        as_text(&self.request_id)
    }

    fn deadline(&self) -> (r: Option<u64>) {
        self.deadline
    }

    fn invoked_function_arn(&self) -> (r: Option<&str>) {
        as_text(&self.arn)
    }

    fn trace_id(&self) -> (r: Option<&str>) {
        as_text(&self.trace_id)
    }

    fn client_context(&self) -> (r: Option<&str>) {
        as_text(&self.client_context)
    }

    fn cognito_identity(&self) -> (r: Option<&str>) {
        as_text(&self.cognito_id)
    }
}

} // verus!
