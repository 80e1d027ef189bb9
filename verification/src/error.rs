//! Errors reported by the request accessors, and the minimal response type
//! used to report query-string decode failures directly as a client error.

use vstd::prelude::*;

verus! {

/// An HTTP response skeleton: a status code and a text body.
///
/// Query-string decoding builds one of these (status 400, body set to the
/// decoder's message) so a handler can return it to the client unchanged.
#[derive(Debug)]
pub struct Response {
    pub status: u16,
    pub body: String,
}

impl Response {
    /// Create a response with the given status code and an empty body.
    pub fn new(status: u16) -> (r: Response)
        ensures
            r.status == status,
            r.body@ == Seq::<char>::empty(),
    {
        Response { status, body: String::new() }
    }

    /// Replace the body with the given text, builder-style.
    pub fn body_string(self, body: String) -> (r: Response)
        ensures
            r.status == self.status,
            r.body@ == body@,
    {
        Response { status: self.status, body }
    }
}

/// What a request accessor can fail with.
#[derive(Debug)]
pub enum Error {
    /// The transport failed while the body was being received.
    Io,
    /// The body bytes were not valid for the requested interpretation
    /// (not UTF-8, or not decodable as JSON for the target type).
    InvalidData,
    /// A route parameter was found but its value failed to parse into the
    /// requested type.
    Param,
    /// A form body could not be decoded; carries the decoder's message.
    FormDecode(String),
    /// The query string could not be decoded; carries the client-error
    /// response built from the decoder's message.
    BadQuery(Response),
}

} // verus!
