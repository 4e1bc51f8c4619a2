//! A response as plain values: a status code, the headers that the handler
//! set itself, and a body.

use crate::decimal::{decimal_digits, decimal_string};
use vstd::prelude::*;

verus! {

/// One header line.
#[derive(Debug, Clone, PartialEq, Eq)]
pub struct Header {
    /// The header's name, in lower case.
    pub name: String,
    /// The header's value.
    pub value: String,
}

/// What a `Header` holds.
pub struct HeaderView {
    pub name: Seq<char>,
    pub value: Seq<char>,
}

impl View for Header {
    type V = HeaderView;

    open spec fn view(&self) -> HeaderView {
        HeaderView { name: self.name@, value: self.value@ }
    }
}

/// A response before it is handed to the HTTP layer.
#[derive(Debug, Clone, PartialEq, Eq)]
pub struct ImageResponse {
    /// The status code.
    pub status: u16,
    /// The headers that were set explicitly, in the order in which they were set.
    pub headers: Vec<Header>,
    /// The bytes to send.
    pub body: Vec<u8>,
}

/// What an `ImageResponse` holds.
pub struct ResponseView {
    pub status: u16,
    pub headers: Seq<HeaderView>,
    pub body: Seq<u8>,
}

impl View for ImageResponse {
    type V = ResponseView;

    open spec fn view(&self) -> ResponseView {
        ResponseView {
            status: self.status,
            headers: Seq::new(self.headers@.len(), |i: int| self.headers@[i]@),
            body: self.body@,
        }
    }
}

/// The name of the header that declares a body's length.
pub open spec fn content_length_name_spec() -> Seq<char> {
    "content-length"@
}

/// The value of the first header among `headers` from index `start` on whose
/// name is `name`, if there is one.
pub open spec fn header_value_from(
    headers: Seq<HeaderView>,
    name: Seq<char>,
    start: int,
) -> Option<Seq<char>>
    decreases headers.len() - start,
{
    if start < 0 || start >= headers.len() {
        None
    } else if headers[start].name == name {
        Some(headers[start].value)
    } else {
        header_value_from(headers, name, start + 1)
    }
}

/// The value of the first header named `name`, if there is one.
pub open spec fn header_value(headers: Seq<HeaderView>, name: Seq<char>) -> Option<Seq<char>> {
    header_value_from(headers, name, 0)
}

/// The content length that a client is told: the value of the explicit
/// header where one was set, else the length of the body in decimal, which
/// the HTTP layer writes when it sends the body.
pub open spec fn declared_content_length(r: ResponseView) -> Seq<char> {
    match header_value(r.headers, content_length_name_spec()) {
        Some(value) => value,
        None => decimal_digits(r.body.len()),
    }
}

/// `http::StatusCode::OK`, read with `StatusCode::as_u16`: the constant is
/// declared with the number 200, and `as_u16` hands that number out.
#[verifier::external_body]
pub(crate) fn status_ok() -> (code: u16)
    ensures
        code == 200,
{
    http::StatusCode::OK.as_u16()
}

/// `http::header::CONTENT_LENGTH`, read with `HeaderName::as_str`: the
/// constant is the standard header declared with the bytes `content-length`,
/// and `as_str` hands those bytes out as a string.
#[verifier::external_body]
pub(crate) fn content_length_name() -> (name: String)
    ensures
        name@ == content_length_name_spec(),
{
    http::header::CONTENT_LENGTH.as_str().to_owned()
}

impl ImageResponse {
    /// The value of the first header named `name`, if there is one. Names
    /// are compared as they are written, and this library writes them in
    /// lower case.
    pub fn header(&self, name: &str) -> (found: Option<String>)
        ensures
            found.is_some() == header_value(self@.headers, name@).is_some(),
            found.is_some() ==> found.unwrap()@ == header_value(self@.headers, name@).unwrap(),
    {
        let wanted: String = name.to_owned();
        let mut i: usize = 0;
        while i < self.headers.len()
            invariant
                i <= self.headers@.len(),
                wanted@ == name@,
                header_value(self@.headers, name@) == header_value_from(
                    self@.headers,
                    name@,
                    i as int,
                ),
            decreases self.headers@.len() - i,
        {
            if self.headers[i].name == wanted {
                return Some(self.headers[i].value.clone());
            }
            i += 1;
        }
        None
    }

    /// The content length that a client is told.
    pub fn declared_content_length(&self) -> (length: String)
        ensures
            length@ == declared_content_length(self@),
    {
        let name = content_length_name();
        match self.header(name.as_str()) {
            Some(value) => value,
            None => decimal_string(self.body.len()),
        }
    }
}

} // verus!
