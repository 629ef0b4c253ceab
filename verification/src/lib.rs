//! A contract layer that binds one endpoint definition -- method, composed
//! path, query shape, request-body shape, response-body shape -- to both the
//! handler that serves it and the client code that calls it.
//!
//! The endpoint descriptors, the compatibility relation between handler
//! signatures and declared shapes, the staged request builder, the response
//! wrapper and the route-table expansion are verified here; the HTTP
//! transport and the serialization codecs are external collaborators reached
//! through a few trusted wrappers.

pub mod shape;

pub mod compat;

pub mod routes;

pub mod codec;

pub mod builder;

pub mod response;

pub mod sample;
