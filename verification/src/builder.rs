//! The staged request builder: a single-use accumulator that collects a
//! query value and a body value consistent with an endpoint descriptor, then
//! finalizes them into one immutable request. Every transition is legal only
//! in the states the descriptor allows; an illegal one fails with a
//! dedicated error, never silently.

use vstd::prelude::*;

use crate::codec::{encode_query_pairs, urlencoded_of, JsonPayload};
use crate::routes::Endpoint;
use crate::shape::{BodyShape, QueryShape};

verus! {

/// Why a builder transition or the finalize step was refused, or which
/// serialization step failed.
#[derive(Clone, Copy, PartialEq, Eq, Structural, Debug)]
pub enum BuildError {
    /// A query value was offered, but the descriptor declares no query
    /// guarantee.
    QueryNotDeclared,
    /// A query value was offered while one is already held.
    QueryAlreadySet,
    /// A body value was offered, but the descriptor declares no body
    /// guarantee.
    BodyNotDeclared,
    /// A body value was offered whose payload type is not the declared one.
    BodyTypeMismatch,
    /// A body value was offered while one is already held.
    BodyAlreadySet,
    /// Finalize was reached with the held query not matching the declared
    /// query shape.
    QueryShapeUnmet,
    /// Finalize was reached with the held body not matching the declared
    /// body shape.
    BodyShapeUnmet,
    /// The held query failed to serialize into the query string.
    QueryEncode,
    /// The held body failed to serialize into the document format.
    BodyEncode,
}

/// The finalized, immutable outgoing call: the descriptor it was built
/// against, the raw key/value pairs of its query, their encoded query
/// string, and its encoded body, if any. No network activity has happened
/// when a value of this type exists; sending it is the transport
/// collaborator's work.
#[derive(Debug)]
pub struct Request {
    pub endpoint: Endpoint,
    pub query_pairs: Vec<(String, String)>,
    pub query_string: String,
    pub body: Option<Vec<u8>>,
}

/// The query string of a pair list: empty for no pairs, else what the query
/// codec produces.
pub open spec fn query_string_of(pairs: Seq<(String, String)>) -> Seq<char> {
    if pairs.len() == 0 {
        Seq::empty()
    } else {
        urlencoded_of(pairs)
    }
}

/// The staged accumulator, fixed to one descriptor for its whole lifetime
/// and consumed exactly once by [`RequestBuilder::build`].
#[derive(Debug)]
pub struct RequestBuilder<B> {
    /// The descriptor this request is being built against.
    pub endpoint: Endpoint,
    /// The held typed query value: the flat string-to-string mapping the
    /// declared query type serializes to.
    pub query: Option<Vec<(String, String)>>,
    /// The held typed body value.
    pub body: Option<B>,
    /// Raw extra pairs, outside the typed query; legal in any state.
    pub extra: Vec<(String, String)>,
}

impl<B: JsonPayload> RequestBuilder<B> {
    /// Whether the held query channel exactly matches the declared query
    /// shape.
    pub open spec fn query_matches_shape(self) -> bool {
        match self.endpoint.query {
            QueryShape::NoGuarantee => self.query is None,
            QueryShape::Mapped(_) => self.query is Some,
        }
    }

    /// Whether the held body channel exactly matches the declared body
    /// shape, payload type included.
    pub open spec fn body_matches_shape(self) -> bool {
        match self.endpoint.request_body {
            BodyShape::NoGuarantee => self.body is None,
            BodyShape::Json(t) => self.body is Some && t == B::tag_spec(),
        }
    }

    /// A fresh builder against a descriptor: nothing held yet.
    pub fn new(endpoint: Endpoint) -> (r: Self)
        ensures
            r.endpoint == endpoint,
            r.query is None,
            r.body is None,
            r.extra@.len() == 0,
    {
        RequestBuilder { endpoint, query: None, body: None, extra: Vec::new() }
    }

    /// Appends raw query pairs that the route definition does not require.
    /// Legal in any state; the held typed values and the declared shape
    /// match are untouched.
    pub fn extra_query(self, params: Vec<(String, String)>) -> (r: Self)
        ensures
            r.endpoint == self.endpoint,
            r.query == self.query,
            r.body == self.body,
            r.extra@ == self.extra@ + params@,
    {
        let mut extra = self.extra;
        let mut params = params;
        extra.append(&mut params);
        RequestBuilder { endpoint: self.endpoint, query: self.query, body: self.body, extra }
    }

    /// Stores the typed query value: the flat mapping the declared query
    /// type serializes to. Legal only if the descriptor declares a query
    /// guarantee and no query is held yet.
    pub fn query(self, value: Vec<(String, String)>) -> (r: Result<Self, BuildError>)
        ensures
            r is Ok <==> (self.endpoint.query matches QueryShape::Mapped(_) && self.query is None),
            r matches Ok(b) ==> b.endpoint == self.endpoint && b.query == Some(value) && b.body
                == self.body && b.extra == self.extra,
            self.endpoint.query is NoGuarantee ==> r == Err::<Self, BuildError>(
                BuildError::QueryNotDeclared,
            ),
            self.endpoint.query matches QueryShape::Mapped(_) && self.query is Some ==> r
                == Err::<Self, BuildError>(BuildError::QueryAlreadySet),
    {
        match self.endpoint.query {
            QueryShape::NoGuarantee => Err(BuildError::QueryNotDeclared),
            QueryShape::Mapped(_) => {
                if self.query.is_some() {
                    Err(BuildError::QueryAlreadySet)
                } else {
                    Ok(
                        RequestBuilder {
                            endpoint: self.endpoint,
                            query: Some(value),
                            body: self.body,
                            extra: self.extra,
                        },
                    )
                }
            },
        }
    }

    /// Stores the typed body value. Legal only if the descriptor declares a
    /// body guarantee for exactly this payload type and no body is held yet.
    pub fn json(self, value: B) -> (r: Result<Self, BuildError>)
        ensures
            r is Ok <==> (self.endpoint.request_body == BodyShape::Json(B::tag_spec())
                && self.body is None),
            r matches Ok(b) ==> b.endpoint == self.endpoint && b.query == self.query && b.body
                == Some(value) && b.extra == self.extra,
            self.endpoint.request_body is NoGuarantee ==> r == Err::<Self, BuildError>(
                BuildError::BodyNotDeclared,
            ),
            (self.endpoint.request_body matches BodyShape::Json(t) && t != B::tag_spec()) ==> r
                == Err::<Self, BuildError>(BuildError::BodyTypeMismatch),
            self.endpoint.request_body == BodyShape::Json(B::tag_spec()) && self.body is Some
                ==> r == Err::<Self, BuildError>(BuildError::BodyAlreadySet),
    {
        match self.endpoint.request_body {
            BodyShape::NoGuarantee => Err(BuildError::BodyNotDeclared),
            BodyShape::Json(t) => {
                if t != B::type_tag() {
                    Err(BuildError::BodyTypeMismatch)
                } else if self.body.is_some() {
                    Err(BuildError::BodyAlreadySet)
                } else {
                    Ok(
                        RequestBuilder {
                            endpoint: self.endpoint,
                            query: self.query,
                            body: Some(value),
                            extra: self.extra,
                        },
                    )
                }
            },
        }
    }

    /// Finalizes the builder into an immutable request. Legal only when both
    /// held channels exactly match the declared shapes; then the query is
    /// serialized first, the body second, and each failure is tagged with
    /// its source. On success the request carries the extra pairs followed
    /// by the typed query pairs, their encoded query string, and the encoded
    /// body. No network activity occurs here.
    pub fn build(self) -> (r: Result<Request, BuildError>)
        ensures
            !self.query_matches_shape() ==> r == Err::<Request, BuildError>(
                BuildError::QueryShapeUnmet,
            ),
            self.query_matches_shape() && !self.body_matches_shape() ==> r == Err::<
                Request,
                BuildError,
            >(BuildError::BodyShapeUnmet),
            self.query_matches_shape() && self.body_matches_shape() ==> (r is Ok || r == Err::<
                Request,
                BuildError,
            >(BuildError::BodyEncode)),
            self.query_matches_shape() && self.body_matches_shape() && (self.body matches Some(b)
                ==> b.encodable()) ==> r is Ok,
            r matches Ok(req) ==> {
                &&& self.query_matches_shape()
                &&& self.body_matches_shape()
                &&& req.endpoint == self.endpoint
                &&& req.query_pairs@ == self.extra@ + (match self.query {
                    Some(q) => q@,
                    None => Seq::<(String, String)>::empty(),
                })
                &&& req.query_string@ == query_string_of(req.query_pairs@)
                &&& (match self.body {
                    None => req.body is None,
                    Some(b) => req.body matches Some(bytes) && bytes@ == b.encoding(),
                })
            },
    {
        let query_ok = match self.endpoint.query {
            QueryShape::NoGuarantee => self.query.is_none(),
            QueryShape::Mapped(_) => self.query.is_some(),
        };
        if !query_ok {
            return Err(BuildError::QueryShapeUnmet);
        }
        let body_ok = match self.endpoint.request_body {
            BodyShape::NoGuarantee => self.body.is_none(),
            BodyShape::Json(t) => self.body.is_some() && t == B::type_tag(),
        };
        if !body_ok {
            return Err(BuildError::BodyShapeUnmet);
        }
        let mut pairs = self.extra;
        match self.query {
            Some(q) => {
                let mut q = q;
                pairs.append(&mut q);
            },
            None => {},
        }
        let query_string = if pairs.len() == 0 {
            let s = String::from_str("");
            proof {
                reveal_strlit("");
                assert(s@ =~= query_string_of(pairs@));
            }
            s
        } else {
            match encode_query_pairs(&pairs) {
                Ok(s) => s,
                Err(_) => {
                    return Err(BuildError::QueryEncode);
                },
            }
        };
        let body = match self.body {
            None => None,
            Some(b) => match b.encode_json() {
                Ok(bytes) => Some(bytes),
                Err(_) => {
                    return Err(BuildError::BodyEncode);
                },
            },
        };
        Ok(Request { endpoint: self.endpoint, query_pairs: pairs, query_string, body })
    }
}

/// A fresh builder against a descriptor without query and body guarantees is
/// immediately finalizable: both channels already match the declared shapes,
/// so [`RequestBuilder::build`] succeeds on it, with an empty query string
/// and no body.
pub proof fn lemma_fresh_unconstrained_builder_finalizes<B: JsonPayload>(b: RequestBuilder<B>)
    requires
        b.endpoint.query is NoGuarantee,
        b.endpoint.request_body is NoGuarantee,
        b.query is None,
        b.body is None,
    ensures
        b.query_matches_shape(),
        b.body_matches_shape(),
{
}

/// A builder that holds a query and a body against a descriptor declaring
/// both, with the declared payload type, is finalizable: both channels match
/// the declared shapes, so [`RequestBuilder::build`] succeeds whenever the
/// held body serializes.
pub proof fn lemma_fully_set_builder_finalizes<B: JsonPayload>(b: RequestBuilder<B>)
    requires
        b.endpoint.query matches QueryShape::Mapped(_),
        b.endpoint.request_body == BodyShape::Json(B::tag_spec()),
        b.query is Some,
        b.body is Some,
    ensures
        b.query_matches_shape(),
        b.body_matches_shape(),
{
}

} // verus!
