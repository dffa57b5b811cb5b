use rtlambda::backends::ureq::{RawReply, UreqResponse};
use rtlambda::data::response::{
    LambdaAPIResponse, AWS_CLIENT_CTX, AWS_COG_ID, AWS_DEADLINE_MS, AWS_FUNC_ARN,
    AWS_FUNC_ERR_TYPE, AWS_REQ_ID, AWS_TRACE_ID,
};
use rtlambda::error::{Error, CONTAINER_ERR};

fn reply_with_status(status: u16) -> UreqResponse {
    UreqResponse::from_parts(
        status,
        Some("payload".to_string()),
        Some("id-1".to_string()),
        None,
        None,
        None,
        None,
        None,
    )
}

fn raw_reply(deadline: Option<&str>, body: Result<String, String>) -> RawReply {
    RawReply {
        status: 200,
        request_id: Some("8476a536-e9f4-11e8-9739-2dfe598c3fcd".to_string()),
        deadline_ms: deadline.map(|d| d.to_string()),
        arn: Some("arn:aws:lambda:us-east-2:123456789012:function:custom-runtime".to_string()),
        trace_id: Some("Root=1-5bef4de7-ad49b0e87f6ef6c87fc2e700".to_string()),
        client_context: Some("{\"client\":1}".to_string()),
        cognito_identity: Some("{\"identity\":2}".to_string()),
        body,
    }
}

#[test]
fn error_wraps_its_message() {
    let e = Error::new("boom".to_string());
    assert_eq!(e.message(), "boom");
    assert_eq!(e.to_text(), "boom".to_string());
    assert_eq!(e, Error::new("boom".to_string()));
    assert_ne!(e, Error::new("bang".to_string()));
}

#[test]
fn container_error_text() {
    assert_eq!(CONTAINER_ERR, "Container error. Non-recoverable state.");
}

#[test]
fn header_names() {
    assert_eq!(AWS_REQ_ID, "Lambda-Runtime-Aws-Request-Id");
    assert_eq!(AWS_DEADLINE_MS, "Lambda-Runtime-Deadline-Ms");
    assert_eq!(AWS_FUNC_ARN, "Lambda-Runtime-Invoked-Function-Arn");
    assert_eq!(AWS_TRACE_ID, "Lambda-Runtime-Trace-Id");
    assert_eq!(AWS_CLIENT_CTX, "Lambda-Runtime-Client-Context");
    assert_eq!(AWS_COG_ID, "Lambda-Runtime-Cognito-Identity");
    assert_eq!(AWS_FUNC_ERR_TYPE, "Lambda-Runtime-Function-Error-Type");
}

#[test]
fn success_band_is_no_error() {
    for status in [200u16, 201, 204, 250, 299] {
        let r = reply_with_status(status);
        assert!(r.is_success());
        assert!(!r.is_client_err());
        assert!(!r.is_server_err());
        assert!(!r.is_err());
        assert_eq!(r.get_status_code(), status);
    }
}

#[test]
fn client_error_band() {
    for status in [400u16, 404, 499] {
        let r = reply_with_status(status);
        assert!(!r.is_success());
        assert!(r.is_client_err());
        assert!(!r.is_server_err());
        assert!(r.is_err());
    }
}

#[test]
fn server_error_band() {
    for status in [500u16, 503, 599] {
        let r = reply_with_status(status);
        assert!(!r.is_success());
        assert!(!r.is_client_err());
        assert!(r.is_server_err());
        assert!(r.is_err());
    }
}

#[test]
fn bands_exclude_one_another_for_every_status() {
    for status in 0u16..=1000 {
        let r = reply_with_status(status);
        let hits = [r.is_success(), r.is_client_err(), r.is_server_err()]
            .iter()
            .filter(|b| **b)
            .count();
        assert!(hits <= 1);
        let banded = (200..=299).contains(&status) || (400..=599).contains(&status);
        assert_eq!(hits == 1, banded);
    }
}

#[test]
fn statuses_outside_the_bands() {
    for status in [0u16, 100, 199, 300, 302, 399, 600, u16::MAX] {
        let r = reply_with_status(status);
        assert!(!r.is_success());
        assert!(!r.is_client_err());
        assert!(!r.is_server_err());
        assert!(!r.is_err());
        assert_eq!(r.event_response(), None);
        assert_eq!(r.error_response(), None);
    }
}

#[test]
fn body_is_event_only_on_success() {
    let ok = reply_with_status(200);
    assert_eq!(ok.event_response(), Some("payload"));
    assert_eq!(ok.status_response(), Some("payload"));
    assert_eq!(ok.error_response(), None);
    let refused = reply_with_status(403);
    assert_eq!(refused.event_response(), None);
    assert_eq!(refused.status_response(), None);
    assert_eq!(refused.error_response(), Some("payload"));
    let lost = reply_with_status(500);
    assert_eq!(lost.event_response(), None);
    assert_eq!(lost.error_response(), None);
    assert_eq!(lost.get_body(), Some("payload"));
}

#[test]
fn from_response_copies_headers_and_body() {
    let r = UreqResponse::from_response(raw_reply(
        Some("1542409706888"),
        Ok("{\"key\":\"value\"}".to_string()),
    ))
    .unwrap();
    assert_eq!(r.get_status_code(), 200);
    assert_eq!(r.get_body(), Some("{\"key\":\"value\"}"));
    assert_eq!(r.aws_request_id(), Some("8476a536-e9f4-11e8-9739-2dfe598c3fcd"));
    assert_eq!(r.deadline(), Some(1542409706888u64));
    assert_eq!(
        r.invoked_function_arn(),
        Some("arn:aws:lambda:us-east-2:123456789012:function:custom-runtime")
    );
    assert_eq!(r.trace_id(), Some("Root=1-5bef4de7-ad49b0e87f6ef6c87fc2e700"));
    assert_eq!(r.client_context(), Some("{\"client\":1}"));
    assert_eq!(r.cognito_identity(), Some("{\"identity\":2}"));
}

#[test]
fn malformed_deadline_is_absent() {
    for text in ["soon", "", "-5", "12.5", " 12", "18446744073709551616"] {
        let r = UreqResponse::from_response(raw_reply(Some(text), Ok(String::new()))).unwrap();
        assert_eq!(r.deadline(), None);
        assert_eq!(r.aws_request_id(), Some("8476a536-e9f4-11e8-9739-2dfe598c3fcd"));
    }
}

#[test]
fn deadline_bounds_parse() {
    let r = UreqResponse::from_response(raw_reply(Some("0"), Ok(String::new()))).unwrap();
    assert_eq!(r.deadline(), Some(0));
    let r = UreqResponse::from_response(raw_reply(Some("18446744073709551615"), Ok(String::new())))
        .unwrap();
    assert_eq!(r.deadline(), Some(u64::MAX));
}

#[test]
fn missing_deadline_header_is_absent() {
    let r = UreqResponse::from_response(raw_reply(None, Ok(String::new()))).unwrap();
    assert_eq!(r.deadline(), None);
}

#[test]
fn unreadable_body_is_an_error() {
    let r = UreqResponse::from_response(raw_reply(
        Some("1542409706888"),
        Err("stream did not contain valid UTF-8".to_string()),
    ));
    assert_eq!(r, Err(Error::new("stream did not contain valid UTF-8".to_string())));
}

#[test]
fn missing_request_id_does_not_prevent_classification() {
    let r = UreqResponse::from_response(RawReply {
        status: 404,
        request_id: None,
        deadline_ms: None,
        arn: None,
        trace_id: None,
        client_context: None,
        cognito_identity: None,
        body: Ok("not found".to_string()),
    })
    .unwrap();
    assert_eq!(r.aws_request_id(), None);
    assert!(r.is_client_err());
    assert_eq!(r.error_response(), Some("not found"));
}
