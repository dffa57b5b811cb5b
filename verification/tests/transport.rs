use rtlambda::backends::ureq::UreqResponse;
use rtlambda::data::response::LambdaAPIResponse;
use rtlambda::error::Error;
use rtlambda::runtime::{outcome_event, perform, Event};
use rtlambda::transport::{pair_headers, split_headers, Method, Request, Transport};
use std::cell::RefCell;

struct Recorder {
    calls: RefCell<Vec<String>>,
    fail: bool,
}

impl Recorder {
    fn answering() -> Recorder {
        Recorder { calls: RefCell::new(Vec::new()), fail: false }
    }

    fn record(
        &self,
        method: &str,
        url: &str,
        body: Option<&str>,
        headers: Option<(Vec<&str>, Vec<&str>)>,
    ) -> Result<UreqResponse, Error> {
        self.calls.borrow_mut().push(format!("{} {} {:?} {:?}", method, url, body, headers));
        if self.fail {
            return Err(Error::new("connection refused".to_string()));
        }
        Ok(UreqResponse::from_parts(
            202,
            Some(String::new()),
            None,
            None,
            None,
            None,
            None,
            None,
        ))
    }
}

impl Transport<UreqResponse> for Recorder {
    fn get(
        &self,
        url: &str,
        body: Option<&str>,
        headers: Option<(Vec<&str>, Vec<&str>)>,
    ) -> Result<UreqResponse, Error> {
        self.record("GET", url, body, headers)
    }

    fn post(
        &self,
        url: &str,
        body: Option<&str>,
        headers: Option<(Vec<&str>, Vec<&str>)>,
    ) -> Result<UreqResponse, Error> {
        self.record("POST", url, body, headers)
    }
}

#[test]
fn headers_pair_by_position() {
    let pairs = pair_headers(&vec!["A", "B"], &vec!["1", "2"]);
    assert_eq!(pairs, vec![("A", "1"), ("B", "2")]);
}

#[test]
fn unpaired_headers_are_left_out() {
    assert_eq!(pair_headers(&vec!["A", "B", "C"], &vec!["1"]), vec![("A", "1")]);
    assert_eq!(pair_headers(&vec!["A"], &vec!["1", "2", "3"]), vec![("A", "1")]);
    assert_eq!(pair_headers(&vec!["A"], &Vec::new()), Vec::<(&str, &str)>::new());
    assert_eq!(pair_headers(&Vec::new(), &vec!["1"]), Vec::<(&str, &str)>::new());
    assert_eq!(pair_headers(&Vec::new(), &Vec::new()), Vec::<(&str, &str)>::new());
}

#[test]
fn perform_sends_a_get_as_it_stands() {
    let transport = Recorder::answering();
    let request = Request {
        method: Method::Get,
        url: "http://host/v/runtime/invocation/next".to_string(),
        body: None,
        headers: Vec::new(),
    };
    match perform(&transport, &request) {
        Event::Reply(r) => assert_eq!(r.get_status_code(), 202),
        _ => panic!("a reply was expected"),
    }
    assert_eq!(
        *transport.calls.borrow(),
        vec!["GET http://host/v/runtime/invocation/next None None".to_string()]
    );
}

#[test]
fn perform_sends_a_post_with_body_and_headers() {
    let transport = Recorder::answering();
    let request = Request {
        method: Method::Post,
        url: "http://host/v/runtime/init/error".to_string(),
        body: Some("detail".to_string()),
        headers: vec![("Name".to_string(), "value".to_string()), ("N2".to_string(), "v2".to_string())],
    };
    assert!(matches!(perform(&transport, &request), Event::Reply(_)));
    assert_eq!(
        *transport.calls.borrow(),
        vec![
            "POST http://host/v/runtime/init/error Some(\"detail\") Some(([\"Name\", \"N2\"], [\"value\", \"v2\"]))"
                .to_string()
        ]
    );
}

#[test]
fn perform_hands_on_a_failure() {
    let transport = Recorder { calls: RefCell::new(Vec::new()), fail: true };
    let request = Request {
        method: Method::Post,
        url: "u".to_string(),
        body: None,
        headers: Vec::new(),
    };
    match perform(&transport, &request) {
        Event::TransportFailed(e) => assert_eq!(e.message(), "connection refused"),
        _ => panic!("a failure was expected"),
    }
    assert_eq!(transport.calls.borrow().len(), 1);
}

#[test]
fn headers_split_into_names_and_values() {
    let headers = vec![
        ("A".to_string(), "1".to_string()),
        ("B".to_string(), "2".to_string()),
        ("A".to_string(), "3".to_string()),
    ];
    assert_eq!(split_headers(&headers), Some((vec!["A", "B", "A"], vec!["1", "2", "3"])));
    assert_eq!(split_headers(&Vec::new()), None);
}

#[test]
fn split_headers_pair_again() {
    let headers = vec![("A".to_string(), "1".to_string()), ("B".to_string(), "2".to_string())];
    let (names, values) = split_headers(&headers).unwrap();
    assert_eq!(pair_headers(&names, &values), vec![("A", "1"), ("B", "2")]);
}

#[test]
fn outcome_becomes_the_event() {
    let reply = UreqResponse::from_parts(204, None, None, None, None, None, None, None);
    match outcome_event(Ok(reply.clone())) {
        Event::Reply(r) => assert_eq!(r, reply),
        _ => panic!("a reply was expected"),
    }
    match outcome_event::<UreqResponse>(Err(Error::new("reset".to_string()))) {
        Event::TransportFailed(e) => assert_eq!(e, Error::new("reset".to_string())),
        _ => panic!("a failure was expected"),
    }
}
