//! The runtime mirror of the compatibility relation: a startup-time walk can
//! hold a handler's argument kinds and result kind against the shapes its
//! endpoint descriptor declares, instead of deferring the mismatch to request
//! time.

use vstd::prelude::*;

use crate::routes::Endpoint;
use crate::shape::{BodyShape, QueryShape, TypeTag};

verus! {

/// The largest handler argument list the relation supports; a longer list is
/// rejected outright, never truncated.
pub const MAX_HANDLER_ARITY: usize = 16;

/// What one handler argument extracts from a request.
#[derive(Clone, Copy, PartialEq, Eq, Structural, Debug)]
pub enum ArgKind {
    /// Performs no shape-specific extraction; compatible with every pair of
    /// shapes.
    Agnostic,
    /// Extracts the typed query value; compatible only with the matching
    /// mapped query shape.
    QueryExtractor(TypeTag),
    /// Extracts the typed body value; compatible only with the matching JSON
    /// body shape.
    BodyExtractor(TypeTag),
    /// Opted out of the check; compatible with every pair of shapes.
    Unchecked,
}

/// What a handler returns.
pub enum ResultKind {
    /// A value of the payload type the tag stands for.
    Value(TypeTag),
    /// A two-variant outcome whose success variant is the inner kind; the
    /// failure variant is never checked against the response shape.
    Fallible(Box<ResultKind>),
}

/// Why a handler was refused against a descriptor.
#[derive(Clone, Copy, PartialEq, Eq, Structural, Debug)]
pub enum CompatError {
    /// The argument list is longer than [`MAX_HANDLER_ARITY`].
    ArityExceeded,
    /// The argument at this position is incompatible with the declared
    /// shapes; the position is the first such one.
    IncompatibleArg(usize),
    /// The result kind is incompatible with the declared response shape.
    IncompatibleResult,
}

/// One argument against the declared query and request-body shapes.
pub open spec fn arg_compatible(a: ArgKind, q: QueryShape, b: BodyShape) -> bool {
    match a {
        ArgKind::Agnostic => true,
        ArgKind::Unchecked => true,
        ArgKind::QueryExtractor(t) => q == QueryShape::Mapped(t),
        ArgKind::BodyExtractor(t) => b == BodyShape::Json(t),
    }
}

/// A whole argument list: every element must be compatible on its own, and
/// the list must not exceed the arity ceiling. The empty list is compatible
/// with every pair of shapes.
pub open spec fn args_compatible(args: Seq<ArgKind>, q: QueryShape, b: BodyShape) -> bool {
    args.len() <= MAX_HANDLER_ARITY && (forall|i: int|
        0 <= i < args.len() ==> arg_compatible(args[i], q, b))
}

/// A result kind against the declared response shape: everything is
/// compatible with an unconstrained response body, and a fallible outcome is
/// compatible with a JSON shape exactly when its success variant is.
pub open spec fn result_compatible(k: ResultKind, resp: BodyShape) -> bool
    decreases k,
{
    match resp {
        BodyShape::NoGuarantee => true,
        BodyShape::Json(t) => match k {
            ResultKind::Value(u) => u == t,
            ResultKind::Fallible(inner) => result_compatible(*inner, resp),
        },
    }
}

/// The empty argument list is compatible with every pair of shapes.
pub proof fn lemma_empty_args_compatible(q: QueryShape, b: BodyShape)
    ensures
        args_compatible(Seq::<ArgKind>::empty(), q, b),
{
}

fn arg_ok(a: &ArgKind, q: &QueryShape, b: &BodyShape) -> (r: bool)
    ensures
        r == arg_compatible(*a, *q, *b),
{
    match a {
        ArgKind::Agnostic => true,
        ArgKind::Unchecked => true,
        ArgKind::QueryExtractor(t) => match q {
            QueryShape::Mapped(u) => *t == *u,
            QueryShape::NoGuarantee => false,
        },
        ArgKind::BodyExtractor(t) => match b {
            BodyShape::Json(u) => *t == *u,
            BodyShape::NoGuarantee => false,
        },
    }
}

/// Checks a handler's argument kinds against the declared query and
/// request-body shapes. Succeeds exactly on compatible lists; a list over the
/// arity ceiling is rejected as such, and otherwise the first incompatible
/// position is reported.
pub fn check_args(args: &Vec<ArgKind>, q: &QueryShape, b: &BodyShape) -> (r: Result<
    (),
    CompatError,
>)
    ensures
        r is Ok <==> args_compatible(args@, *q, *b),
        args@.len() > MAX_HANDLER_ARITY ==> r == Err::<(), CompatError>(CompatError::ArityExceeded),
        forall|k: usize|
            r == Err::<(), CompatError>(CompatError::IncompatibleArg(k)) ==> k < args@.len()
                && !arg_compatible(args@[k as int], *q, *b) && (forall|i: int|
                0 <= i < k ==> arg_compatible(args@[i], *q, *b)),
{
    if args.len() > MAX_HANDLER_ARITY {
        return Err(CompatError::ArityExceeded);
    }
    let mut i: usize = 0;
    while i < args.len()
        invariant
            i <= args@.len(),
            args@.len() <= MAX_HANDLER_ARITY,
            forall|j: int| 0 <= j < i ==> arg_compatible(args@[j], *q, *b),
        decreases args@.len() - i,
    {
        if !arg_ok(&args[i], q, b) {
            return Err(CompatError::IncompatibleArg(i));
        }
        i = i + 1;
    }
    Ok(())
}

/// The whole definition-time check of one handler against one endpoint:
/// every argument against the declared query and request-body shapes, and
/// the result against the declared response shape.
pub fn check_handler(args: &Vec<ArgKind>, result: &ResultKind, e: &Endpoint) -> (r: Result<
    (),
    CompatError,
>)
    ensures
        r is Ok <==> (args_compatible(args@, e.query, e.request_body) && result_compatible(
            *result,
            e.response_body,
        )),
        args@.len() > MAX_HANDLER_ARITY ==> r == Err::<(), CompatError>(CompatError::ArityExceeded),
        args_compatible(args@, e.query, e.request_body) && !result_compatible(
            *result,
            e.response_body,
        ) ==> r == Err::<(), CompatError>(CompatError::IncompatibleResult),
{
    check_args(args, &e.query, &e.request_body)?;
    if check_result(result, &e.response_body) {
        Ok(())
    } else {
        Err(CompatError::IncompatibleResult)
    }
}

/// Checks a handler's result kind against the declared response shape.
pub fn check_result(k: &ResultKind, resp: &BodyShape) -> (r: bool)
    ensures
        r == result_compatible(*k, *resp),
    decreases *k,
{
    match resp {
        BodyShape::NoGuarantee => true,
        BodyShape::Json(t) => match k {
            ResultKind::Value(u) => *u == *t,
            ResultKind::Fallible(inner) => check_result(inner, resp),
        },
    }
}

} // verus!
