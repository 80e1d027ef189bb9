//! The request payload, modeled as a single-pass buffer.
//!
//! The transport hands the library the bytes it received (or a note that it
//! failed part-way); draining the body empties it, so a second drain yields
//! an empty buffer and never an error.

use vstd::prelude::*;

use crate::error::Error;

verus! {

/// The request payload: the bytes received for this request, together with a
/// flag recording that the transport failed while receiving them.
pub struct Body {
    data: Vec<u8>,
    failed: bool,
}

/// What draining a body returns, as a function of the body's state:
/// the transport failure if one was recorded, otherwise the buffered bytes.
pub open spec fn drain_result(b: Body) -> Result<Seq<u8>, Error> {
    if b.is_failed() {
        Err(Error::Io)
    } else {
        Ok(b.bytes())
    }
}

/// A `Result` of bytes, lifted to the specification level.
pub open spec fn view_result(r: Result<Vec<u8>, Error>) -> Result<Seq<u8>, Error> {
    match r {
        Ok(v) => Ok(v@),
        Err(e) => Err(e),
    }
}

impl Body {
    /// The bytes still buffered in this body.
    pub closed spec fn bytes(self) -> Seq<u8> {
        self.data@
    }

    /// Whether the transport recorded a failure for this body.
    pub closed spec fn is_failed(self) -> bool {
        self.failed
    }

    /// A body holding the given, fully received bytes.
    pub fn from_bytes(data: Vec<u8>) -> (b: Body)
        ensures
            b.bytes() == data@,
            !b.is_failed(),
    {
        Body { data, failed: false }
    }

    /// An empty body.
    pub fn empty() -> (b: Body)
        ensures
            b.bytes() == Seq::<u8>::empty(),
            !b.is_failed(),
    {
        Body { data: Vec::new(), failed: false }
    }

    /// A body whose transport failed before the payload was fully received.
    pub fn failed() -> (b: Body)
        ensures
            b.bytes() == Seq::<u8>::empty(),
            b.is_failed(),
    {
        Body { data: Vec::new(), failed: true }
    }

    /// Drain the body: report the transport failure if one was recorded,
    /// otherwise hand out all buffered bytes. Either way the body is left
    /// empty and unfailed, so a later drain yields `Ok` of no bytes.
    pub fn take_all(&mut self) -> (r: Result<Vec<u8>, Error>)
        ensures
            view_result(r) == drain_result(*old(self)),
            final(self).bytes() == Seq::<u8>::empty(),
            !final(self).is_failed(),
    {
        if self.failed {
            self.failed = false;
            self.data = Vec::new();
            Err(Error::Io)
        } else {
            let mut data: Vec<u8> = Vec::new();
            core::mem::swap(&mut self.data, &mut data);
            Ok(data)
        }
    }
}

/// Law: the body is single-pass. Draining a healthy body yields its contents,
/// and draining a body that an earlier drain emptied (left with no bytes and
/// no failure, as `Body::take_all` ensures) yields the empty sequence — never
/// an error.
pub proof fn lemma_body_single_pass(b: Body, emptied: Body)
    requires
        !b.is_failed(),
        emptied.bytes() == Seq::<u8>::empty(),
        !emptied.is_failed(),
    ensures
        drain_result(b) == Ok::<Seq<u8>, Error>(b.bytes()),
        drain_result(emptied) == Ok::<Seq<u8>, Error>(Seq::<u8>::empty()),
{
}

} // verus!
