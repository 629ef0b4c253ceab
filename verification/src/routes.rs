//! Endpoint descriptors and the declarative route table: a tree of path
//! scopes whose leaves expand, once and structurally, into descriptors with
//! fully composed paths.

use vstd::prelude::*;

use crate::shape::{BodyShape, Method, QueryShape};

verus! {

/// One immutable endpoint record: method, fully composed path, and the three
/// declared shapes. Computed once by expansion and never recomputed per
/// request.
#[derive(Clone, Debug)]
pub struct Endpoint {
    pub method: Method,
    pub path: String,
    pub query: QueryShape,
    pub request_body: BodyShape,
    pub response_body: BodyShape,
}

/// The mathematical image of an [`Endpoint`], with the path as a character
/// sequence.
pub struct EndpointModel {
    pub method: Method,
    pub path: Seq<char>,
    pub query: QueryShape,
    pub request_body: BodyShape,
    pub response_body: BodyShape,
}

impl Endpoint {
    pub open spec fn model(self) -> EndpointModel {
        EndpointModel {
            method: self.method,
            path: self.path@,
            query: self.query,
            request_body: self.request_body,
            response_body: self.response_body,
        }
    }
}

/// What one leaf of the route table declares locally: its verb, its local
/// path suffix, and its shapes.
pub struct Leaf {
    pub method: Method,
    pub suffix: String,
    pub query: QueryShape,
    pub request_body: BodyShape,
    pub response_body: BodyShape,
}

impl Leaf {
    /// The descriptor this leaf yields under a fully composed prefix.
    pub open spec fn model_under(self, prefix: Seq<char>) -> EndpointModel {
        EndpointModel {
            method: self.method,
            path: prefix + self.suffix@,
            query: self.query,
            request_body: self.request_body,
            response_body: self.response_body,
        }
    }
}

/// A node of the route table: either a leaf endpoint, or a scope that
/// prefixes every descendant with its local path fragment.
pub enum RouteTree {
    Leaf(Leaf),
    Scope(String, Vec<RouteTree>),
}

/// The descriptors a tree yields under an already-composed prefix: a leaf
/// yields one descriptor, a scope appends its fragment to the prefix and
/// expands its children in order.
pub open spec fn expand_tree_spec(prefix: Seq<char>, t: RouteTree) -> Seq<EndpointModel>
    decreases t, 0int,
{
    match t {
        RouteTree::Leaf(l) => seq![l.model_under(prefix)],
        RouteTree::Scope(p, children) => expand_from(prefix + p@, children@, 0),
    }
}

/// The descriptors of the trees of `ts` from position `i` on, in order.
pub open spec fn expand_from(prefix: Seq<char>, ts: Seq<RouteTree>, i: int) -> Seq<EndpointModel>
    decreases ts, ts.len() - i, 1int,
{
    if 0 <= i < ts.len() {
        expand_tree_spec(prefix, ts[i]) + expand_from(prefix, ts, i + 1)
    } else {
        Seq::empty()
    }
}

/// The number of nodes in a tree; the measure by which expansion terminates.
pub open spec fn tree_size(t: RouteTree) -> nat
    decreases t, 0int,
{
    match t {
        RouteTree::Leaf(_) => 1,
        RouteTree::Scope(_, children) => 1 + list_size(children@, 0),
    }
}

/// The number of nodes in the trees of `ts` from position `i` on.
pub open spec fn list_size(ts: Seq<RouteTree>, i: int) -> nat
    decreases ts, ts.len() - i, 1int,
{
    if 0 <= i < ts.len() {
        tree_size(ts[i]) + list_size(ts, i + 1)
    } else {
        0
    }
}

proof fn lemma_list_size_bound(ts: Seq<RouteTree>, i: int, j: int)
    requires
        0 <= i <= j < ts.len(),
    ensures
        tree_size(ts[j]) <= list_size(ts, i),
    decreases ts.len() - i,
{
    if i < j {
        lemma_list_size_bound(ts, i + 1, j);
    }
}

/// The models of a vector of descriptors.
pub open spec fn models_of(s: Seq<Endpoint>) -> Seq<EndpointModel> {
    s.map_values(|e: Endpoint| e.model())
}

/// Expands one tree under an already-composed prefix.
pub fn expand_tree(prefix: &str, t: &RouteTree) -> (r: Vec<Endpoint>)
    ensures
        models_of(r@) == expand_tree_spec(prefix@, *t),
    decreases tree_size(*t),
{
    match t {
        RouteTree::Leaf(l) => {
            let path = String::from_str(prefix).concat(l.suffix.as_str());
            let e = Endpoint {
                method: l.method,
                path,
                query: l.query,
                request_body: l.request_body,
                response_body: l.response_body,
            };
            let r = vec![e];
            proof {
                assert(models_of(r@) =~= expand_tree_spec(prefix@, *t));
            }
            r
        },
        RouteTree::Scope(p, children) => {
            let scoped = String::from_str(prefix).concat(p.as_str());
            let mut out: Vec<Endpoint> = Vec::new();
            let mut i: usize = 0;
            while i < children.len()
                invariant
                    i <= children@.len(),
                    *t == RouteTree::Scope(*p, *children),
                    models_of(out@) + expand_from(scoped@, children@, i as int) == expand_from(
                        scoped@,
                        children@,
                        0,
                    ),
                decreases children@.len() - i,
            {
                proof {
                    lemma_list_size_bound(children@, 0, i as int);
                    assert(tree_size(*t) == 1 + list_size(children@, 0));
                }
                let mut part = expand_tree(scoped.as_str(), &children[i]);
                let ghost prev = out@;
                out.append(&mut part);
                proof {
                    assert(models_of(out@) =~= models_of(prev) + expand_tree_spec(
                        scoped@,
                        children@[i as int],
                    ));
                    assert(models_of(out@) + expand_from(scoped@, children@, i + 1) =~= expand_from(
                        scoped@,
                        children@,
                        0,
                    ));
                }
                i = i + 1;
            }
            out
        },
    }
}

/// Expands a whole route table under its root prefix. Expansion happens once,
/// structurally; nothing is recomputed per request.
pub fn expand_routes(root: &str, tables: &Vec<RouteTree>) -> (r: Vec<Endpoint>)
    ensures
        models_of(r@) == expand_from(root@, tables@, 0),
{
    let mut out: Vec<Endpoint> = Vec::new();
    let mut i: usize = 0;
    while i < tables.len()
        invariant
            i <= tables@.len(),
            models_of(out@) + expand_from(root@, tables@, i as int) == expand_from(
                root@,
                tables@,
                0,
            ),
        decreases tables@.len() - i,
    {
        let mut part = expand_tree(root, &tables[i]);
        let ghost prev = out@;
        out.append(&mut part);
        proof {
            assert(models_of(out@) =~= models_of(prev) + expand_tree_spec(
                root@,
                tables@[i as int],
            ));
            assert(models_of(out@) + expand_from(root@, tables@, i + 1) =~= expand_from(
                root@,
                tables@,
                0,
            ));
        }
        i = i + 1;
    }
    out
}

/// Path composition is associative: expanding a tree under a prefix composed
/// of two fragments yields exactly the descriptors of the inner expansion
/// with the outer fragment prepended to every path. However the scopes are
/// nested or shared between siblings, each path is the concatenation of its
/// enclosing fragments, outermost first.
pub proof fn lemma_expand_compose(p1: Seq<char>, p2: Seq<char>, t: RouteTree)
    ensures
        expand_tree_spec(p1 + p2, t).len() == expand_tree_spec(p2, t).len(),
        forall|k: int|
            0 <= k < expand_tree_spec(p2, t).len() ==> #[trigger] expand_tree_spec(p1 + p2, t)[k]
                == prepend_path(p1, expand_tree_spec(p2, t)[k]),
    decreases t, 0int,
{
    match t {
        RouteTree::Leaf(l) => {
            assert((p1 + p2) + l.suffix@ =~= p1 + (p2 + l.suffix@));
        },
        RouteTree::Scope(p, children) => {
            assert((p1 + p2) + p@ =~= p1 + (p2 + p@));
            lemma_expand_from_compose(p1, p2 + p@, children@, 0);
        },
    }
}

/// The list form of [`lemma_expand_compose`].
pub proof fn lemma_expand_from_compose(p1: Seq<char>, p2: Seq<char>, ts: Seq<RouteTree>, i: int)
    ensures
        expand_from(p1 + p2, ts, i).len() == expand_from(p2, ts, i).len(),
        forall|k: int|
            0 <= k < expand_from(p2, ts, i).len() ==> #[trigger] expand_from(p1 + p2, ts, i)[k]
                == prepend_path(p1, expand_from(p2, ts, i)[k]),
    decreases ts, ts.len() - i, 1int,
{
    if 0 <= i < ts.len() {
        lemma_expand_compose(p1, p2, ts[i]);
        lemma_expand_from_compose(p1, p2, ts, i + 1);
    }
}

/// The same descriptor with a fragment prepended to its path.
pub open spec fn prepend_path(p: Seq<char>, e: EndpointModel) -> EndpointModel {
    EndpointModel {
        method: e.method,
        path: p + e.path,
        query: e.query,
        request_body: e.request_body,
        response_body: e.response_body,
    }
}

} // verus!
