//! The per-request value handed to a handler.
//!
//! A dispatcher builds one [`Request`] per incoming HTTP request from the
//! shared application state, the request's metadata, the received payload,
//! and the parameter tables collected while matching the path. The handler
//! then reads metadata, route parameters, the query string, cookies, typed
//! locals, and the body through it.

use vstd::prelude::*;
use vstd::utf8::{decode_utf8, valid_utf8};

use std::sync::Arc;

use crate::body::{drain_result, view_result, Body};
use crate::codec::{append_str, form_from_bytes, json_from_slice, query_from_str,
    string_from_utf8};
use crate::cookies::{Cookie, CookieData};
use crate::error::{Error, Response};
use crate::http_types::{header_entries, header_get};
use crate::locals::new_extensions;
use crate::routing::{lookup, params_find, parse_str};

verus! {

/// An HTTP request.
///
/// Gives a handler access to basic information about the incoming request,
/// route parameters, per-request locals, and the request's body.
pub struct Request<State> {
    /// Shared, read-only application state; one value serves every
    /// concurrently live request.
    pub state: Arc<State>,
    pub method: http::Method,
    pub uri: http::Uri,
    pub version: http::Version,
    pub headers: http::HeaderMap<http::HeaderValue>,
    /// The query component of the URI, if the URI has one.
    pub query: Option<String>,
    /// The request payload; single-pass (see [`Body`]).
    pub body: Body,
    /// One parameter table per router level that matched, outermost first.
    pub route_params: Vec<route_recognizer::Params>,
    /// Type-keyed storage for middleware-to-handler data passing.
    pub locals: http::Extensions,
    /// The well-known entry the cookie-parsing step installs.
    pub cookie_jar: Option<CookieData>,
}

impl<State> Request<State> {
    /// Everything except the body agrees between `self` and `other`.
    pub open spec fn same_except_body(self, other: Request<State>) -> bool {
        &&& self.state == other.state
        &&& self.method == other.method
        &&& self.uri == other.uri
        &&& self.version == other.version
        &&& self.headers == other.headers
        &&& self.query == other.query
        &&& self.route_params == other.route_params
        &&& self.locals == other.locals
        &&& self.cookie_jar == other.cookie_jar
    }

    /// Everything except the cookie entry agrees between `self` and `other`.
    pub open spec fn same_except_cookie_jar(self, other: Request<State>) -> bool {
        &&& self.state == other.state
        &&& self.method == other.method
        &&& self.uri == other.uri
        &&& self.version == other.version
        &&& self.headers == other.headers
        &&& self.query == other.query
        &&& self.body == other.body
        &&& self.route_params == other.route_params
        &&& self.locals == other.locals
    }

    /// Everything except the extension map agrees between `self` and
    /// `other`.
    pub open spec fn same_except_locals(self, other: Request<State>) -> bool {
        &&& self.state == other.state
        &&& self.method == other.method
        &&& self.uri == other.uri
        &&& self.version == other.version
        &&& self.headers == other.headers
        &&& self.query == other.query
        &&& self.body == other.body
        &&& self.route_params == other.route_params
        &&& self.cookie_jar == other.cookie_jar
    }

    /// Assemble a request. The caller passes the URI's query component
    /// alongside the URI itself; the locals start empty and no cookie entry
    /// is installed yet.
    pub fn new(
        state: Arc<State>,
        method: http::Method,
        uri: http::Uri,
        version: http::Version,
        headers: http::HeaderMap<http::HeaderValue>,
        query: Option<String>,
        body: Body,
        route_params: Vec<route_recognizer::Params>,
    ) -> (r: Request<State>)
        ensures
            r.state == state,
            r.method == method,
            r.uri == uri,
            r.version == version,
            r.headers == headers,
            r.query == query,
            r.body == body,
            r.route_params == route_params,
            r.cookie_jar is None,
    {
        Request {
            state,
            method,
            uri,
            version,
            headers,
            query,
            body,
            route_params,
            locals: new_extensions(),
            cookie_jar: None,
        }
    }

    /// Access the request's HTTP method.
    pub fn method(&self) -> (r: &http::Method)
        ensures
            *r == self.method,
    {
        &self.method
    }

    /// Access the request's full URI.
    pub fn uri(&self) -> (r: &http::Uri)
        ensures
            *r == self.uri,
    {
        &self.uri
    }

    /// Access the request's HTTP version.
    pub fn version(&self) -> (r: http::Version)
        ensures
            r == self.version,
    {
        self.version
    }

    /// Access the request's headers.
    pub fn headers(&self) -> (r: &http::HeaderMap<http::HeaderValue>)
        ensures
            *r == self.headers,
    {
        &self.headers
    }

    /// Get an HTTP header: the first value stored under `key`, as text. A
    /// value that is present but not representable as text is reported as
    /// absent.
    pub fn header(&self, key: &str) -> (r: Option<String>)
        ensures
            r is Some <==> header_entries(self.headers).dom().contains(key@),
            r is Some ==> r->0@ == header_entries(self.headers)[key@],
    {
        header_get(&self.headers, key)
    }

    /// Access app-global state.
    pub fn state(&self) -> (r: &State)
        ensures
            *r == *self.state,
    {
        &*self.state
    }

    /// Get a local value: the value of type `T` stored in this request's
    /// extension map, if one was stored.
    ///
    /// Relies on `http::Extensions::get`; the map's contents are type-erased
    /// and not modeled, so nothing is stated of the result.
    #[verifier::external_body]
    pub fn local<T: Send + Sync + 'static>(&self) -> Option<&T> {
        self.locals.get()
    }

    /// Set a local value, builder-style: stores `val` keyed by its type `T`,
    /// overwriting any previous value of that exact type, and returns the
    /// updated request. Only the extension map changes; every other part of
    /// the request is returned as it was.
    ///
    /// Relies on `http::Extensions::insert`; what the map holds afterwards
    /// is type-erased and not modeled.
    #[verifier::external_body]
    pub fn set_local<T: Clone + Send + Sync + 'static>(self, val: T) -> (r: Self)
        ensures
            self.same_except_locals(r),
    {
        let mut this = self;
        this.locals.insert(val);
        this
    }

    /// Install the well-known cookie entry, builder-style. The dispatcher's
    /// cookie-parsing step calls this before the handler runs; [`Request::cookie`]
    /// requires it to have happened.
    pub fn set_cookie_data(self, data: CookieData) -> (r: Request<State>)
        ensures
            self.same_except_cookie_jar(r),
            r.cookie_jar == Some(data),
    {
        Request { cookie_jar: Some(data), ..self }
    }

    /// The innermost binding of a route parameter: searches the parameter
    /// tables innermost-first and returns the first value found under `key`,
    /// so a nested router's parameter shadows an outer router's parameter of
    /// the same name.
    pub fn param_value(&self, key: &str) -> (r: Option<String>)
        ensures
            r is Some <==> lookup(self.route_params@, key@) is Some,
            r is Some ==> Some(r->0@) == lookup(self.route_params@, key@),
    {
        let ghost tables = self.route_params@;
        let mut i: usize = self.route_params.len();
        proof {
            assert(tables.subrange(0, i as int) =~= tables);
        }
        while i > 0
            invariant
                i <= self.route_params@.len(),
                self.route_params@ == tables,
                lookup(tables, key@) == lookup(tables.subrange(0, i as int), key@),
            decreases i,
        {
            i = i - 1;
            proof {
                assert(tables.subrange(0, i as int + 1).last() == tables[i as int]);
                assert(tables.subrange(0, i as int + 1).drop_last() =~= tables.subrange(
                    0,
                    i as int,
                ));
            }
            let r = params_find(&self.route_params[i], key);
            if r.is_some() {
                return r;
            }
        }
        None
    }

    /// Extract and parse a route parameter by name: the innermost binding of
    /// `key`, parsed into `T` through `T`'s string conversion.
    ///
    /// The matched route must declare the parameter — looking up a name no
    /// matched route bound is a routing bug, which the precondition rules
    /// out. A binding that fails to parse is reported as a parameter error.
    pub fn param<T: core::str::FromStr>(&self, key: &str) -> (r: Result<T, Error>)
        requires
            lookup(self.route_params@, key@) is Some,
        ensures
            r is Err ==> r->Err_0 is Param,
    {
        let value = self.param_value(key).unwrap();
        match parse_str::<T>(value.as_str()) {
            Some(v) => Ok(v),
            None => Err(Error::Param),
        }
    }

    /// The reserved rest-of-path parameter a catch-all route segment
    /// captures, looked up in the innermost table alone; absence yields no
    /// value rather than an error.
    pub fn rest(&self) -> (r: Option<String>)
        ensures
            self.route_params@.len() == 0 ==> r is None,
            self.route_params@.len() > 0 ==> {
                let entries = crate::routing::params_entries(self.route_params@.last());
                &&& r is Some <==> entries.dom().contains("--tide-path-rest"@)
                &&& r is Some ==> r->0@ == entries["--tide-path-rest"@]
            },
    {
        if self.route_params.len() == 0 {
            None
        } else {
            params_find(&self.route_params[self.route_params.len() - 1], "--tide-path-rest")
        }
    }

    /// Reads the entire request body into a byte buffer.
    ///
    /// Can be called after the body has already been read; it then produces
    /// an empty buffer, never an error. A transport failure recorded for the
    /// body is reported once, as an I/O error.
    pub fn body_bytes(&mut self) -> (r: Result<Vec<u8>, Error>)
        ensures
            old(self).same_except_body(*final(self)),
            view_result(r) == drain_result(old(self).body),
            final(self).body.bytes() == Seq::<u8>::empty(),
            !final(self).body.is_failed(),
    {
        self.body.take_all()
    }

    /// Reads the entire request body into a string: exactly the characters
    /// the body's bytes encode as UTF-8, a data-format error if they are not
    /// valid UTF-8, an I/O error if the transport failed.
    pub fn body_string(&mut self) -> (r: Result<String, Error>)
        ensures
            old(self).same_except_body(*final(self)),
            final(self).body.bytes() == Seq::<u8>::empty(),
            !final(self).body.is_failed(),
            old(self).body.is_failed() ==> r is Err && r->Err_0 is Io,
            !old(self).body.is_failed() ==> (r is Ok <==> valid_utf8(old(self).body.bytes())),
            !old(self).body.is_failed() && r is Ok ==> r->Ok_0@ == decode_utf8(
                old(self).body.bytes(),
            ),
            !old(self).body.is_failed() && r is Err ==> r->Err_0 is InvalidData,
    {
        match self.body.take_all() {
            Ok(bytes) => string_from_utf8(bytes),
            Err(e) => Err(e),
        }
    }

    /// Reads and deserializes the entire request body as JSON into `T`: an
    /// I/O error if the transport failed, a data-format error if the bytes
    /// do not decode into `T`.
    pub fn body_json<T: serde::de::DeserializeOwned>(&mut self) -> (r: Result<T, Error>)
        ensures
            old(self).same_except_body(*final(self)),
            final(self).body.bytes() == Seq::<u8>::empty(),
            !final(self).body.is_failed(),
            old(self).body.is_failed() ==> r is Err && r->Err_0 is Io,
            !old(self).body.is_failed() && r is Err ==> r->Err_0 is InvalidData,
    {
        match self.body.take_all() {
            Ok(bytes) => json_from_slice(bytes.as_slice()),
            Err(e) => Err(e),
        }
    }

    /// Parse the request body as a form: an I/O error if the transport
    /// failed; otherwise, when the bytes do not decode into `T`, a
    /// descriptive error carrying the decoder's message.
    pub fn body_form<T: serde::de::DeserializeOwned>(&mut self) -> (r: Result<T, Error>)
        ensures
            old(self).same_except_body(*final(self)),
            final(self).body.bytes() == Seq::<u8>::empty(),
            !final(self).body.is_failed(),
            old(self).body.is_failed() ==> r is Err && r->Err_0 is Io,
            !old(self).body.is_failed() && r is Err ==> (match r->Err_0 {
                Error::FormDecode(m) => {
                    &&& m@.len() >= "could not decode form: "@.len()
                    &&& m@.subrange(0, "could not decode form: "@.len() as int)
                        == "could not decode form: "@
                },
                _ => false,
            }),
    {
        let bytes = match self.body.take_all() {
            Ok(bytes) => bytes,
            Err(e) => {
                return Err(e);
            },
        };
        match form_from_bytes::<T>(bytes.as_slice()) {
            Ok(v) => Ok(v),
            Err(msg) => {
                let mut text = "could not decode form: ".to_owned();
                append_str(&mut text, msg.as_str());
                proof {
                    assert(text@.subrange(0, "could not decode form: "@.len() as int)
                        =~= "could not decode form: "@);
                }
                Err(Error::FormDecode(text))
            },
        }
    }

    /// The text the query decoder is given: the URI's query component, with
    /// absence treated as the empty query string — so a target whose fields
    /// are all optional still decodes when no query was passed at all.
    pub fn query_str(&self) -> (r: &str)
        ensures
            self.query is Some ==> r@ == self.query->0@,
            self.query is None ==> r@ == Seq::<char>::empty(),
    {
        proof {
            reveal_strlit("");
        }
        match &self.query {
            Some(s) => s.as_str(),
            None => "",
        }
    }

    /// Get the URL query string, deserialized into `T`. A URI without a
    /// query component is treated as carrying the empty query string (see
    /// [`Request::query_str`]). On failure the error carries a ready
    /// client-error response: status 400, its body the decoder's message.
    pub fn query<T: serde::de::DeserializeOwned>(&self) -> (r: Result<T, Error>)
        ensures
            r is Err ==> (match r->Err_0 {
                Error::BadQuery(resp) => resp.status == 400,
                _ => false,
            }),
    {
        let text: &str = self.query_str();
        match query_from_str::<T>(text) {
            Ok(v) => Ok(v),
            Err(msg) => Err(Error::BadQuery(Response::new(400).body_string(msg))),
        }
    }

    /// Returns the cookie stored under `name`, or no value when the jar
    /// holds no such cookie.
    ///
    /// The cookie-parsing step must have installed the jar (see
    /// [`Request::set_cookie_data`]); its absence would mean the application
    /// was assembled incorrectly, so the precondition rules it out.
    pub fn cookie(&self, name: &str) -> (r: Result<Option<Cookie>, Error>)
        requires
            self.cookie_jar is Some,
        ensures
            r is Ok,
            ({
                let entries = self.cookie_jar->0.entries();
                match r->Ok_0 {
                    Some(c) => {
                        &&& entries.dom().contains(name@)
                        &&& c.name@ == name@
                        &&& c.value@ == entries[name@]
                    },
                    None => !entries.dom().contains(name@),
                }
            }),
    {
        let data = self.cookie_jar.as_ref().unwrap();
        Ok(data.get(name))
    }
}

} // verus!
