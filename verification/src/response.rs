//! The response wrapper: untyped metadata is always available and passes
//! through unchanged; the typed decode path exists only where the descriptor
//! promises a decodable response body, and may be taken at most once.

use vstd::prelude::*;

use crate::codec::JsonPayload;
use crate::routes::Endpoint;
use crate::shape::BodyShape;

verus! {

/// Why a typed decode was refused or failed.
#[derive(Clone, Copy, PartialEq, Eq, Structural, Debug)]
pub enum RespError {
    /// The body was already consumed by an earlier decode.
    BodyConsumed,
    /// The descriptor does not promise a decodable response body of this
    /// payload type.
    ShapeMismatch,
    /// The body bytes do not parse as the declared payload type.
    Decode,
}

/// The wrapped transport response: the descriptor of the call that produced
/// it, its untyped metadata, the raw body bytes the transport delivered, and
/// whether the body was consumed already.
pub struct Response {
    pub endpoint: Endpoint,
    pub status: u16,
    pub headers: Vec<(String, String)>,
    pub body: Vec<u8>,
    pub consumed: bool,
}

/// The transition one typed decode performs: metadata is never touched; a
/// consumed body or an unpromised shape is refused with the response
/// unchanged; otherwise the body is consumed and the result is exactly what
/// the declared payload type parses from the body bytes.
pub open spec fn decode_step<R: JsonPayload>(
    pre: Response,
    post: Response,
    r: Result<R, RespError>,
) -> bool {
    &&& post.endpoint == pre.endpoint
    &&& post.status == pre.status
    &&& post.headers == pre.headers
    &&& post.body == pre.body
    &&& if pre.consumed {
        r == Err::<R, RespError>(RespError::BodyConsumed) && post.consumed == pre.consumed
    } else if pre.endpoint.response_body != BodyShape::Json(R::tag_spec()) {
        r == Err::<R, RespError>(RespError::ShapeMismatch) && post.consumed == pre.consumed
    } else {
        &&& post.consumed == true
        &&& (R::parseable(pre.body@) ==> r is Ok)
        &&& (r is Ok ==> R::parseable(pre.body@) && R::parses_to(pre.body@, r->Ok_0))
        &&& (!R::parseable(pre.body@) ==> r == Err::<R, RespError>(RespError::Decode))
    }
}

impl Response {
    /// The transport status code, untouched.
    pub fn status(&self) -> (r: u16)
        ensures
            r == self.status,
    {
        self.status
    }

    /// Whether the status lies in the success range.
    pub fn ok(&self) -> (r: bool)
        ensures
            r == (200 <= self.status < 300),
    {
        200 <= self.status && self.status < 300
    }

    /// The transport headers, untouched.
    pub fn headers(&self) -> (r: &Vec<(String, String)>)
        ensures
            r@ == self.headers@,
    {
        &self.headers
    }

    /// Whether the body was consumed by an earlier decode.
    pub fn body_used(&self) -> (r: bool)
        ensures
            r == self.consumed,
    {
        self.consumed
    }

    /// The single typed decode path: available only where the descriptor
    /// promises a response body of exactly this payload type, at most once.
    /// A failure leaves the metadata valid and inspectable.
    pub fn json<R: JsonPayload>(&mut self) -> (r: Result<R, RespError>)
        ensures
            decode_step::<R>(*old(self), *final(self), r),
    {
        if self.consumed {
            return Err(RespError::BodyConsumed);
        }
        match self.endpoint.response_body {
            BodyShape::NoGuarantee => Err(RespError::ShapeMismatch),
            BodyShape::Json(t) => {
                if t != R::type_tag() {
                    Err(RespError::ShapeMismatch)
                } else {
                    self.consumed = true;
                    match R::decode_json(&self.body) {
                        Ok(v) => Ok(v),
                        Err(_) => Err(RespError::Decode),
                    }
                }
            },
        }
    }
}

/// A typed decode cannot succeed twice on one response: however the two
/// transitions are typed, if the first handed a value out, the second is
/// refused for a consumed body.
pub proof fn lemma_decode_at_most_once<R1: JsonPayload, R2: JsonPayload>(
    s0: Response,
    s1: Response,
    s2: Response,
    r1: Result<R1, RespError>,
    r2: Result<R2, RespError>,
)
    requires
        decode_step::<R1>(s0, s1, r1),
        decode_step::<R2>(s1, s2, r2),
        r1 is Ok,
    ensures
        r2 == Err::<R2, RespError>(RespError::BodyConsumed),
{
}

} // verus!
