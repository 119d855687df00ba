//! The description of a response that the pipelines hand to the transport.

use crate::text::{ascii_lower, eq_ignore_ascii_case, to_chars};
use vstd::prelude::*;
use vstd::utf8::encode_utf8;

verus! {

/// A response: status code, content type if one was chosen, further headers
/// in the order in which they were added, and the body's bytes.
#[derive(Debug, Clone, PartialEq, Eq)]
pub struct ResponseDescriptor {
    pub status: u16,
    pub content_type: Option<String>,
    pub headers: Vec<(String, String)>,
    pub body: Vec<u8>,
}

/// What a `ResponseDescriptor` holds, as mathematical values.
#[verifier::ext_equal]
pub struct ResponseView {
    pub status: u16,
    pub content_type: Option<Seq<char>>,
    pub headers: Seq<(Seq<char>, Seq<char>)>,
    pub body: Seq<u8>,
}

/// The characters of an optional string.
pub open spec fn optional_text(text: Option<String>) -> Option<Seq<char>> {
    match text {
        Some(s) => Some(s@),
        None => None,
    }
}

/// The names and values of a list of headers, as character sequences.
pub open spec fn header_views(headers: Seq<(String, String)>) -> Seq<(Seq<char>, Seq<char>)> {
    headers.map_values(|h: (String, String)| (h.0@, h.1@))
}

impl View for ResponseDescriptor {
    type V = ResponseView;

    open spec fn view(&self) -> ResponseView {
        ResponseView {
            status: self.status,
            content_type: optional_text(self.content_type),
            headers: header_views(self.headers@),
            body: self.body@,
        }
    }
}

/// A response with status `status` whose body is the text `message`, with
/// no content type and no further header.
pub open spec fn text_response(status: u16, message: Seq<char>) -> ResponseView {
    ResponseView {
        status: status,
        content_type: None,
        headers: Seq::empty(),
        body: encode_utf8(message),
    }
}

/// A response with status `status` and content type `content_type` whose
/// body is the text `text`.
pub open spec fn typed_text_response(
    status: u16,
    content_type: Seq<char>,
    text: Seq<char>,
) -> ResponseView {
    ResponseView {
        status: status,
        content_type: Some(content_type),
        headers: Seq::empty(),
        body: encode_utf8(text),
    }
}

/// The value of the first header of `headers` whose name is `name`,
/// compared without regard to the case of ASCII letters.
pub open spec fn header_value(headers: Seq<(Seq<char>, Seq<char>)>, name: Seq<char>) -> Option<
    Seq<char>,
>
    decreases headers.len(),
{
    if headers.len() == 0 {
        None
    } else if ascii_lower(headers[0].0) == ascii_lower(name) {
        Some(headers[0].1)
    } else {
        header_value(headers.drop_first(), name)
    }
}

/// The value of the first header of `headers` whose name is `name`,
/// compared without regard to the case of ASCII letters.
pub fn find_header<'a>(headers: &'a Vec<(String, String)>, name: &str) -> (value: Option<
    &'a String,
>)
    ensures
        match value {
            Some(v) => header_value(header_views(headers@), name@) == Some(v@),
            None => header_value(header_views(headers@), name@) is None,
        },
{
    let wanted = to_chars(name);
    let mut i: usize = 0;
    assert(header_views(headers@).skip(0) == header_views(headers@));
    while i < headers.len()
        invariant
            i <= headers.len(),
            wanted@ == name@,
            header_value(header_views(headers@), name@) == header_value(
                header_views(headers@).skip(i as int),
                name@,
            ),
        decreases headers.len() - i,
    {
        let candidate = to_chars(headers[i].0.as_str());
        assert(header_views(headers@).skip(i as int).drop_first() == header_views(headers@).skip(
            i + 1,
        ));
        if eq_ignore_ascii_case(candidate.as_slice(), wanted.as_slice()) {
            return Some(&headers[i].1);
        }
        i += 1;
    }
    None
}

impl ResponseDescriptor {
    /// A response with status `status` whose body is the text `message`.
    pub fn text(status: u16, message: &str) -> (response: Self)
        ensures
            response@ == text_response(status, message@),
    {
        ResponseDescriptor {
            status: status,
            content_type: None,
            headers: Vec::new(),
            body: message.as_bytes_vec(),
        }
    }

    /// A response with status `status` and content type `content_type`
    /// whose body is the text `text`.
    pub fn typed_text(status: u16, content_type: &str, text: &str) -> (response: Self)
        ensures
            response@ == typed_text_response(status, content_type@, text@),
    {
        ResponseDescriptor {
            status: status,
            content_type: Some(content_type.to_owned()),
            headers: Vec::new(),
            body: text.as_bytes_vec(),
        }
    }

    /// The value of the first header named `name`.
    pub fn header(&self, name: &str) -> (value: Option<&String>)
        ensures
            match value {
                Some(v) => header_value(self@.headers, name@) == Some(v@),
                None => header_value(self@.headers, name@) is None,
            },
    {
        find_header(&self.headers, name)
    }
}

} // verus!
