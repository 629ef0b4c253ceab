//! The shape-tag vocabulary: HTTP verbs, the runtime tags that a descriptor
//! carries for its query and body channels, and the phantom marker types that
//! tie a handler signature to those tags at compile time.

use vstd::prelude::*;

verus! {

/// An opaque identity for a payload type. Two channels agree on their payload
/// type exactly when their tags are equal.
#[derive(Clone, Copy, PartialEq, Eq, Structural, Debug)]
pub struct TypeTag(pub u64);

/// The HTTP verbs the transport collaborator recognizes. A descriptor can
/// only ever name one of these, so no request reaches the transport with an
/// unrecognized verb.
#[derive(Clone, Copy, PartialEq, Eq, Structural, Debug)]
pub enum Method {
    Get,
    Post,
    Put,
    Delete,
    Head,
    Options,
    Connect,
    Patch,
    Trace,
}

impl Method {
    /// The verb's wire name.
    pub open spec fn name_spec(self) -> Seq<char> {
        match self {
            Method::Get => "GET"@,
            Method::Post => "POST"@,
            Method::Put => "PUT"@,
            Method::Delete => "DELETE"@,
            Method::Head => "HEAD"@,
            Method::Options => "OPTIONS"@,
            Method::Connect => "CONNECT"@,
            Method::Patch => "PATCH"@,
            Method::Trace => "TRACE"@,
        }
    }

    /// The verb's wire name, as the transport expects it.
    pub fn name(&self) -> (r: &'static str)
        ensures
            r@ == self.name_spec(),
    {
        match self {
            Method::Get => "GET",
            Method::Post => "POST",
            Method::Put => "PUT",
            Method::Delete => "DELETE",
            Method::Head => "HEAD",
            Method::Options => "OPTIONS",
            Method::Connect => "CONNECT",
            Method::Patch => "PATCH",
            Method::Trace => "TRACE",
        }
    }
}

/// What a descriptor promises about the query string.
#[derive(Clone, Copy, PartialEq, Eq, Structural, Debug)]
pub enum QueryShape {
    /// No guarantee about the query string.
    NoGuarantee,
    /// The query string decodes from a flat string-to-string mapping into the
    /// payload type the tag stands for, and such a payload serializes back
    /// into that mapping.
    Mapped(TypeTag),
}

/// What a descriptor promises about a request or response body.
#[derive(Clone, Copy, PartialEq, Eq, Structural, Debug)]
pub enum BodyShape {
    /// No guarantee that a body exists or what it contains.
    NoGuarantee,
    /// The body is a self-describing document that decodes into the payload
    /// type the tag stands for, and such a payload serializes back into that
    /// document format.
    Json(TypeTag),
}

/// A marker: the request makes no guarantee about its query string.
pub struct NoQuery;

/// A marker: the request's query string decodes into a `T`, and a `T`
/// serializes back into the query string.
pub struct Query<T>(pub T);

/// A marker: the request or response makes no guarantee about its body.
pub struct NoBody;

/// A marker: the request or response body is JSON that decodes into a `T`.
pub struct JsonBody<T>(pub T);

/// An extractor wrapper that opts out of the compatibility check for its
/// inner extractor. Useful for a third-party extractor that cannot take part
/// in the relation; for one's own extractors, implementing [`FromRequest`]
/// is preferable.
pub struct NoCheck<T>(pub T);

/// The definition-time relation: an extractor type is compatible with the
/// query and request-body shapes a descriptor declares.
pub trait FromRequest<Q, B> {

}

/// The definition-time relation: a handler result type is compatible with
/// the response-body shape a descriptor declares.
pub trait IntoResponse<B> {

}

/// A query extractor is compatible exactly with the matching query shape,
/// whatever the body shape is.
impl<T, B> FromRequest<Query<T>, B> for Query<T> {

}

/// A body extractor is compatible exactly with the matching body shape,
/// whatever the query shape is.
impl<T, Q> FromRequest<Q, JsonBody<T>> for JsonBody<T> {

}

/// The opt-out wrapper is compatible with every pair of shapes.
impl<T, Q, B> FromRequest<Q, B> for NoCheck<T> {

}

/// Every result type is compatible with an unconstrained response body.
impl<T> IntoResponse<NoBody> for T {

}

/// A two-variant outcome is compatible with a JSON response shape exactly
/// when its success variant is; the failure variant is not checked, since a
/// failure surfaces as a non-success status through the transport.
impl<R, T: IntoResponse<JsonBody<R>>, E> IntoResponse<JsonBody<R>> for Result<T, E> {

}

/// A JSON payload marker is itself compatible with its own response shape.
impl<T> IntoResponse<JsonBody<T>> for JsonBody<T> {

}

impl<Q, B> FromRequest<Q, B> for () {

}

impl<
    Q,
    B,
    A0: FromRequest<Q, B>,
> FromRequest<Q, B> for (A0,) {

}

impl<
    Q,
    B,
    A0: FromRequest<Q, B>,
    A1: FromRequest<Q, B>,
> FromRequest<Q, B> for (A0, A1) {

}

impl<
    Q,
    B,
    A0: FromRequest<Q, B>,
    A1: FromRequest<Q, B>,
    A2: FromRequest<Q, B>,
> FromRequest<Q, B> for (A0, A1, A2) {

}

impl<
    Q,
    B,
    A0: FromRequest<Q, B>,
    A1: FromRequest<Q, B>,
    A2: FromRequest<Q, B>,
    A3: FromRequest<Q, B>,
> FromRequest<Q, B> for (A0, A1, A2, A3) {

}

impl<
    Q,
    B,
    A0: FromRequest<Q, B>,
    A1: FromRequest<Q, B>,
    A2: FromRequest<Q, B>,
    A3: FromRequest<Q, B>,
    A4: FromRequest<Q, B>,
> FromRequest<Q, B> for (A0, A1, A2, A3, A4) {

}

impl<
    Q,
    B,
    A0: FromRequest<Q, B>,
    A1: FromRequest<Q, B>,
    A2: FromRequest<Q, B>,
    A3: FromRequest<Q, B>,
    A4: FromRequest<Q, B>,
    A5: FromRequest<Q, B>,
> FromRequest<Q, B> for (A0, A1, A2, A3, A4, A5) {

}

impl<
    Q,
    B,
    A0: FromRequest<Q, B>,
    A1: FromRequest<Q, B>,
    A2: FromRequest<Q, B>,
    A3: FromRequest<Q, B>,
    A4: FromRequest<Q, B>,
    A5: FromRequest<Q, B>,
    A6: FromRequest<Q, B>,
> FromRequest<Q, B> for (A0, A1, A2, A3, A4, A5, A6) {

}

impl<
    Q,
    B,
    A0: FromRequest<Q, B>,
    A1: FromRequest<Q, B>,
    A2: FromRequest<Q, B>,
    A3: FromRequest<Q, B>,
    A4: FromRequest<Q, B>,
    A5: FromRequest<Q, B>,
    A6: FromRequest<Q, B>,
    A7: FromRequest<Q, B>,
> FromRequest<Q, B> for (A0, A1, A2, A3, A4, A5, A6, A7) {

}

impl<
    Q,
    B,
    A0: FromRequest<Q, B>,
    A1: FromRequest<Q, B>,
    A2: FromRequest<Q, B>,
    A3: FromRequest<Q, B>,
    A4: FromRequest<Q, B>,
    A5: FromRequest<Q, B>,
    A6: FromRequest<Q, B>,
    A7: FromRequest<Q, B>,
    A8: FromRequest<Q, B>,
> FromRequest<Q, B> for (A0, A1, A2, A3, A4, A5, A6, A7, A8) {

}

impl<
    Q,
    B,
    A0: FromRequest<Q, B>,
    A1: FromRequest<Q, B>,
    A2: FromRequest<Q, B>,
    A3: FromRequest<Q, B>,
    A4: FromRequest<Q, B>,
    A5: FromRequest<Q, B>,
    A6: FromRequest<Q, B>,
    A7: FromRequest<Q, B>,
    A8: FromRequest<Q, B>,
    A9: FromRequest<Q, B>,
> FromRequest<Q, B> for (A0, A1, A2, A3, A4, A5, A6, A7, A8, A9) {

}

impl<
    Q,
    B,
    A0: FromRequest<Q, B>,
    A1: FromRequest<Q, B>,
    A2: FromRequest<Q, B>,
    A3: FromRequest<Q, B>,
    A4: FromRequest<Q, B>,
    A5: FromRequest<Q, B>,
    A6: FromRequest<Q, B>,
    A7: FromRequest<Q, B>,
    A8: FromRequest<Q, B>,
    A9: FromRequest<Q, B>,
    A10: FromRequest<Q, B>,
> FromRequest<Q, B> for (A0, A1, A2, A3, A4, A5, A6, A7, A8, A9, A10) {

}

impl<
    Q,
    B,
    A0: FromRequest<Q, B>,
    A1: FromRequest<Q, B>,
    A2: FromRequest<Q, B>,
    A3: FromRequest<Q, B>,
    A4: FromRequest<Q, B>,
    A5: FromRequest<Q, B>,
    A6: FromRequest<Q, B>,
    A7: FromRequest<Q, B>,
    A8: FromRequest<Q, B>,
    A9: FromRequest<Q, B>,
    A10: FromRequest<Q, B>,
    A11: FromRequest<Q, B>,
> FromRequest<Q, B> for (A0, A1, A2, A3, A4, A5, A6, A7, A8, A9, A10, A11) {

}

impl<
    Q,
    B,
    A0: FromRequest<Q, B>,
    A1: FromRequest<Q, B>,
    A2: FromRequest<Q, B>,
    A3: FromRequest<Q, B>,
    A4: FromRequest<Q, B>,
    A5: FromRequest<Q, B>,
    A6: FromRequest<Q, B>,
    A7: FromRequest<Q, B>,
    A8: FromRequest<Q, B>,
    A9: FromRequest<Q, B>,
    A10: FromRequest<Q, B>,
    A11: FromRequest<Q, B>,
    A12: FromRequest<Q, B>,
> FromRequest<Q, B> for (A0, A1, A2, A3, A4, A5, A6, A7, A8, A9, A10, A11, A12) {

}

impl<
    Q,
    B,
    A0: FromRequest<Q, B>,
    A1: FromRequest<Q, B>,
    A2: FromRequest<Q, B>,
    A3: FromRequest<Q, B>,
    A4: FromRequest<Q, B>,
    A5: FromRequest<Q, B>,
    A6: FromRequest<Q, B>,
    A7: FromRequest<Q, B>,
    A8: FromRequest<Q, B>,
    A9: FromRequest<Q, B>,
    A10: FromRequest<Q, B>,
    A11: FromRequest<Q, B>,
    A12: FromRequest<Q, B>,
    A13: FromRequest<Q, B>,
> FromRequest<Q, B> for (A0, A1, A2, A3, A4, A5, A6, A7, A8, A9, A10, A11, A12, A13) {

}

impl<
    Q,
    B,
    A0: FromRequest<Q, B>,
    A1: FromRequest<Q, B>,
    A2: FromRequest<Q, B>,
    A3: FromRequest<Q, B>,
    A4: FromRequest<Q, B>,
    A5: FromRequest<Q, B>,
    A6: FromRequest<Q, B>,
    A7: FromRequest<Q, B>,
    A8: FromRequest<Q, B>,
    A9: FromRequest<Q, B>,
    A10: FromRequest<Q, B>,
    A11: FromRequest<Q, B>,
    A12: FromRequest<Q, B>,
    A13: FromRequest<Q, B>,
    A14: FromRequest<Q, B>,
> FromRequest<Q, B> for (A0, A1, A2, A3, A4, A5, A6, A7, A8, A9, A10, A11, A12, A13, A14) {

}

impl<
    Q,
    B,
    A0: FromRequest<Q, B>,
    A1: FromRequest<Q, B>,
    A2: FromRequest<Q, B>,
    A3: FromRequest<Q, B>,
    A4: FromRequest<Q, B>,
    A5: FromRequest<Q, B>,
    A6: FromRequest<Q, B>,
    A7: FromRequest<Q, B>,
    A8: FromRequest<Q, B>,
    A9: FromRequest<Q, B>,
    A10: FromRequest<Q, B>,
    A11: FromRequest<Q, B>,
    A12: FromRequest<Q, B>,
    A13: FromRequest<Q, B>,
    A14: FromRequest<Q, B>,
    A15: FromRequest<Q, B>,
> FromRequest<Q, B> for (A0, A1, A2, A3, A4, A5, A6, A7, A8, A9, A10, A11, A12, A13, A14, A15) {

}

} // verus!
