//! What the runtime asks of an HTTP backend: the requests it sends, and
//! the pairing of header names with header values.

use vstd::prelude::*;
use crate::data::response::LambdaAPIResponse;
use crate::error::Error;
use crate::text::{text, text_ref};

verus! {

/// The two methods that the runtime API is spoken with.
#[derive(Clone, Copy, Debug, PartialEq, Eq, Structural)]
pub enum Method {
    Get,
    Post,
}

/// One request to the control plane.
#[derive(Clone, Debug, PartialEq, Eq)]
pub struct Request {
    pub method: Method,
    pub url: String,
    pub body: Option<String>,
    /// Header names with their values, in the order in which they are sent.
    pub headers: Vec<(String, String)>,
}

/// The mathematical content of a request.
pub struct RequestModel {
    pub method: Method,
    pub url: Seq<char>,
    pub body: Option<Seq<char>>,
    pub headers: Seq<(Seq<char>, Seq<char>)>,
}

/// The characters of each name and value of a list of headers.
pub open spec fn header_texts(headers: Seq<(String, String)>) -> Seq<(Seq<char>, Seq<char>)> {
    Seq::new(headers.len(), |i: int| (headers[i].0@, headers[i].1@))
}

impl View for Request {
    type V = RequestModel;

    open spec fn view(&self) -> RequestModel {
        RequestModel {
            method: self.method,
            url: self.url@,
            body: text(self.body),
            headers: header_texts(self.headers@),
        }
    }
}

/// The smaller of two lengths.
pub open spec fn shorter(a: int, b: int) -> int {
    if a <= b {
        a
    } else {
        b
    }
}

/// The headers that two lists of names and values stand for: each name with
/// the value at its position, as far as both lists reach.
pub open spec fn paired(headers: Option<(Vec<&str>, Vec<&str>)>) -> Seq<(Seq<char>, Seq<char>)> {
    match headers {
        Some((names, values)) => Seq::new(
            shorter(names@.len() as int, values@.len() as int) as nat,
            |i: int| (names@[i]@, values@[i]@),
        ),
        None => Seq::empty(),
    }
}

/// The request that one call of a transport stands for.
pub open spec fn call_of(
    method: Method,
    url: &str,
    body: Option<&str>,
    headers: Option<(Vec<&str>, Vec<&str>)>,
) -> RequestModel {
    RequestModel { method, url: url@, body: text_ref(body), headers: paired(headers) }
}

/// An HTTP backend. Each operation sends one request to `url`, with the
/// body and the headers that are given, and returns the normalized reply,
/// or the failure of the transport below the protocol. The headers come
/// as names and values, paired by position.
pub trait Transport<T: LambdaAPIResponse> {
    /// Whether `outcome` is an answer of this transport to `request`. What
    /// counts as one is for each backend to say, and the runtime only hands
    /// it on; a backend that says nothing counts every outcome as one.
    open spec fn answered(&self, request: RequestModel, outcome: Result<T, Error>) -> bool {
        true
    }

    fn get(
        &self,
        url: &str,
        body: Option<&str>,
        headers: Option<(Vec<&str>, Vec<&str>)>,
    ) -> (outcome: Result<T, Error>)
        ensures
            self.answered(call_of(Method::Get, url, body, headers), outcome),
    ;

    fn post(
        &self,
        url: &str,
        body: Option<&str>,
        headers: Option<(Vec<&str>, Vec<&str>)>,
    ) -> (outcome: Result<T, Error>)
        ensures
            self.answered(call_of(Method::Post, url, body, headers), outcome),
    ;
}

/// Pairs header names with header values by position. Where one list is
/// longer than the other, what has no partner is left out.
pub fn pair_headers<'a>(keys: &Vec<&'a str>, values: &Vec<&'a str>) -> (pairs: Vec<
    (&'a str, &'a str),
>)
    ensures
        pairs@.len() == shorter(keys@.len() as int, values@.len() as int),
        forall|i: int|
            0 <= i < pairs@.len() ==> (#[trigger] pairs@[i]).0@ == keys@[i]@ && pairs@[i].1@
                == values@[i]@,
{
    let len: usize = if keys.len() <= values.len() {
        keys.len()
    } else {
        values.len()
    };
    let mut pairs: Vec<(&'a str, &'a str)> = Vec::new();
    let mut i: usize = 0;
    while i < len
        invariant
            i <= len,
            len == shorter(keys@.len() as int, values@.len() as int),
            pairs@.len() == i,
            forall|j: int|
                0 <= j < i ==> (#[trigger] pairs@[j]).0@ == keys@[j]@ && pairs@[j].1@
                    == values@[j]@,
        decreases len - i,
    {
        pairs.push((keys[i], values[i]));
        i += 1;
    }
    pairs
}

/// The headers of a request in the form in which a transport takes them:
/// the names and the values in two lists of one length, in the order of
/// the request, or nothing where the request has no header.
pub fn split_headers<'a>(headers: &'a Vec<(String, String)>) -> (lists: Option<
    (Vec<&'a str>, Vec<&'a str>),
>)
    ensures
        headers@.len() == 0 <==> lists is None,
        paired(lists) == header_texts(headers@),
        lists matches Some((names, values)) ==> {
            &&& names@.len() == headers@.len()
            &&& values@.len() == headers@.len()
            &&& forall|i: int|
                0 <= i < headers@.len() ==> (#[trigger] names@[i])@ == headers@[i].0@
            &&& forall|i: int|
                0 <= i < headers@.len() ==> (#[trigger] values@[i])@ == headers@[i].1@
        },
{
    if headers.len() == 0 {
        assert(paired(None) =~= header_texts(headers@));
        return None;
    }
    let mut names: Vec<&'a str> = Vec::new();
    let mut values: Vec<&'a str> = Vec::new();
    let mut i: usize = 0;
    while i < headers.len()
        invariant
            i <= headers.len(),
            names@.len() == i,
            values@.len() == i,
            forall|j: int| 0 <= j < i ==> (#[trigger] names@[j])@ == headers@[j].0@,
            forall|j: int| 0 <= j < i ==> (#[trigger] values@[j])@ == headers@[j].1@,
        decreases headers.len() - i,
    {
        names.push(headers[i].0.as_str());
        values.push(headers[i].1.as_str());
        i += 1;
    }
    let lists = Some((names, values));
    assert(paired(lists) =~= header_texts(headers@));
    lists
}

} // verus!
