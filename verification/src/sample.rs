//! A small route table of this crate's own: one scope under the root,
//! holding one endpoint that takes a JSON byte-list body and answers with a
//! JSON (text, byte) pair. It exercises expansion, the builder and the
//! response wrapper end to end.

use vstd::prelude::*;

use crate::codec::JsonPayload;
use crate::routes::{expand_tree, models_of, Endpoint, EndpointModel, Leaf, RouteTree};
use crate::shape::{BodyShape, Method, QueryShape};

verus! {

/// The request marker of the sample endpoint.
pub struct AbcRequest;

/// The model of the sample endpoint: POST on the fully composed path, no
/// query guarantee, a byte-list request body and a (text, byte) response
/// body.
pub open spec fn abc_model() -> EndpointModel {
    EndpointModel {
        method: Method::Post,
        path: "/123/xyz/abc"@,
        query: QueryShape::NoGuarantee,
        request_body: BodyShape::Json(<Vec<u8> as JsonPayload>::tag_spec()),
        response_body: BodyShape::Json(<(String, u8) as JsonPayload>::tag_spec()),
    }
}

/// The sample route table: the scope "/xyz" holding the single leaf "/abc".
/// Expanded under the root "/123", it yields exactly the sample endpoint.
pub fn sample_table() -> (r: RouteTree)
    ensures
        crate::routes::expand_tree_spec("/123"@, r) =~= seq![abc_model()],
{
    let leaf = Leaf {
        method: Method::Post,
        suffix: String::from_str("/abc"),
        query: QueryShape::NoGuarantee,
        request_body: BodyShape::Json(<Vec<u8> as JsonPayload>::type_tag()),
        response_body: BodyShape::Json(<(String, u8) as JsonPayload>::type_tag()),
    };
    let children = vec![RouteTree::Leaf(leaf)];
    let r = RouteTree::Scope(String::from_str("/xyz"), children);
    proof {
        reveal_strlit("/123");
        reveal_strlit("/xyz");
        reveal_strlit("/abc");
        reveal_strlit("/123/xyz/abc");
        assert("/123"@ + "/xyz"@ + "/abc"@ =~= "/123/xyz/abc"@);
        let p2 = "/123"@ + "/xyz"@;
        assert(children@[0] == RouteTree::Leaf(leaf));
        assert(crate::routes::expand_from(p2, children@, 1) =~= Seq::<EndpointModel>::empty());
        assert(crate::routes::expand_from(p2, children@, 0) =~= crate::routes::expand_tree_spec(
            p2,
            children@[0],
        ));
        assert(leaf.model_under(p2) == abc_model());
        assert(crate::routes::expand_tree_spec(p2, children@[0]) =~= seq![abc_model()]);
        assert(crate::routes::expand_tree_spec("/123"@, r) =~= seq![abc_model()]);
    }
    r
}

/// The expanded descriptors of the sample table under the root "/123":
/// exactly the sample endpoint, its path composed once.
pub fn sample_endpoints() -> (r: Vec<Endpoint>)
    ensures
        models_of(r@) =~= seq![abc_model()],
{
    let table = sample_table();
    expand_tree("/123", &table)
}

} // verus!
