use typed_routes::builder::{BuildError, RequestBuilder};
use typed_routes::codec::JsonPayload;
use typed_routes::compat::{
    check_args, check_handler, check_result, ArgKind, CompatError, ResultKind, MAX_HANDLER_ARITY,
};
use typed_routes::response::{RespError, Response};
use typed_routes::routes::{expand_routes, expand_tree, Endpoint, Leaf, RouteTree};
use typed_routes::sample::sample_endpoints;
use typed_routes::shape::{
    BodyShape, FromRequest, IntoResponse, JsonBody, Method, NoBody, NoCheck, Query, QueryShape,
    TypeTag,
};

fn endpoint(q: QueryShape, b: BodyShape, r: BodyShape) -> Endpoint {
    Endpoint {
        method: Method::Get,
        path: "/p".to_string(),
        query: q,
        request_body: b,
        response_body: r,
    }
}

fn pairs(raw: &[(&str, &str)]) -> Vec<(String, String)> {
    raw.iter().map(|(k, v)| (k.to_string(), v.to_string())).collect()
}

fn byte_list_shape() -> BodyShape {
    BodyShape::Json(<Vec<u8> as JsonPayload>::type_tag())
}

fn text_byte_shape() -> BodyShape {
    BodyShape::Json(<(String, u8) as JsonPayload>::type_tag())
}

#[test]
fn fresh_builder_finalizes_without_guarantees() {
    let ep = endpoint(QueryShape::NoGuarantee, BodyShape::NoGuarantee, BodyShape::NoGuarantee);
    let req = RequestBuilder::<Vec<u8>>::new(ep).build().unwrap();
    assert_eq!(req.query_string, "");
    assert!(req.query_pairs.is_empty());
    assert!(req.body.is_none());
    assert_eq!(req.endpoint.method, Method::Get);
}

#[test]
fn typed_query_and_body_build() {
    let ep = endpoint(QueryShape::Mapped(TypeTag(9)), byte_list_shape(), BodyShape::NoGuarantee);
    let q = pairs(&[("a", "1"), ("b", "two words")]);
    let req = RequestBuilder::<Vec<u8>>::new(ep)
        .query(q.clone())
        .unwrap()
        .json(vec![1, 2, 3])
        .unwrap()
        .build()
        .unwrap();
    let expected = serde_urlencoded::to_string(&q).unwrap();
    assert_eq!(req.query_string, expected);
    let decoded: Vec<u8> = serde_json::from_slice(req.body.as_ref().unwrap()).unwrap();
    assert_eq!(decoded, vec![1, 2, 3]);
}

#[test]
fn finalize_before_query_is_rejected() {
    let ep = endpoint(QueryShape::Mapped(TypeTag(9)), byte_list_shape(), BodyShape::NoGuarantee);
    let r = RequestBuilder::<Vec<u8>>::new(ep).build();
    assert_eq!(r.unwrap_err(), BuildError::QueryShapeUnmet);
}

#[test]
fn finalize_before_body_is_rejected() {
    let ep = endpoint(QueryShape::Mapped(TypeTag(9)), byte_list_shape(), BodyShape::NoGuarantee);
    let r = RequestBuilder::<Vec<u8>>::new(ep).query(pairs(&[("k", "v")])).unwrap().build();
    assert_eq!(r.unwrap_err(), BuildError::BodyShapeUnmet);
}

#[test]
fn query_not_declared_is_rejected() {
    let ep = endpoint(QueryShape::NoGuarantee, BodyShape::NoGuarantee, BodyShape::NoGuarantee);
    let r = RequestBuilder::<Vec<u8>>::new(ep).query(pairs(&[("k", "v")]));
    assert_eq!(r.unwrap_err(), BuildError::QueryNotDeclared);
}

#[test]
fn query_set_twice_is_rejected() {
    let ep = endpoint(QueryShape::Mapped(TypeTag(9)), BodyShape::NoGuarantee, BodyShape::NoGuarantee);
    let r = RequestBuilder::<Vec<u8>>::new(ep)
        .query(pairs(&[("k", "v")]))
        .unwrap()
        .query(pairs(&[("k", "w")]));
    assert_eq!(r.unwrap_err(), BuildError::QueryAlreadySet);
}

#[test]
fn body_not_declared_is_rejected() {
    let ep = endpoint(QueryShape::NoGuarantee, BodyShape::NoGuarantee, BodyShape::NoGuarantee);
    let r = RequestBuilder::<Vec<u8>>::new(ep).json(vec![1]);
    assert_eq!(r.unwrap_err(), BuildError::BodyNotDeclared);
}

#[test]
fn body_of_wrong_payload_type_is_rejected() {
    let ep = endpoint(QueryShape::NoGuarantee, text_byte_shape(), BodyShape::NoGuarantee);
    let r = RequestBuilder::<Vec<u8>>::new(ep).json(vec![1]);
    assert_eq!(r.unwrap_err(), BuildError::BodyTypeMismatch);
}

#[test]
fn body_set_twice_is_rejected() {
    let ep = endpoint(QueryShape::NoGuarantee, byte_list_shape(), BodyShape::NoGuarantee);
    let r = RequestBuilder::<Vec<u8>>::new(ep).json(vec![1]).unwrap().json(vec![2]);
    assert_eq!(r.unwrap_err(), BuildError::BodyAlreadySet);
}

#[test]
fn extra_pairs_precede_typed_query() {
    let ep = endpoint(QueryShape::Mapped(TypeTag(9)), BodyShape::NoGuarantee, BodyShape::NoGuarantee);
    let req = RequestBuilder::<Vec<u8>>::new(ep)
        .extra_query(pairs(&[("x", "0")]))
        .query(pairs(&[("k", "v")]))
        .unwrap()
        .build()
        .unwrap();
    assert_eq!(req.query_pairs, pairs(&[("x", "0"), ("k", "v")]));
    let expected = serde_urlencoded::to_string(&pairs(&[("x", "0"), ("k", "v")])).unwrap();
    assert_eq!(req.query_string, expected);
}

#[test]
fn extra_pairs_alone_are_encoded() {
    let ep = endpoint(QueryShape::NoGuarantee, BodyShape::NoGuarantee, BodyShape::NoGuarantee);
    let req = RequestBuilder::<Vec<u8>>::new(ep)
        .extra_query(pairs(&[("x", "a b"), ("y", "2")]))
        .build()
        .unwrap();
    let expected = serde_urlencoded::to_string(&pairs(&[("x", "a b"), ("y", "2")])).unwrap();
    assert_eq!(req.query_string, expected);
}

#[test]
fn byte_list_round_trips_through_the_document_format() {
    let v: Vec<u8> = vec![0, 1, 127, 255];
    let enc = v.encode_json().unwrap();
    let back = <Vec<u8> as JsonPayload>::decode_json(&enc).unwrap();
    assert_eq!(back, v);
}

#[test]
fn text_byte_pair_round_trips_through_the_document_format() {
    let v = ("ok".to_string(), 7u8);
    let enc = v.encode_json().unwrap();
    let back = <(String, u8) as JsonPayload>::decode_json(&enc).unwrap();
    assert_eq!(back, v);
}

#[test]
fn malformed_document_fails_to_decode() {
    let garbage = b"not json".to_vec();
    assert!(<Vec<u8> as JsonPayload>::decode_json(&garbage).is_err());
    assert!(<(String, u8) as JsonPayload>::decode_json(&garbage).is_err());
}

fn leaf(method: Method, suffix: &str) -> Leaf {
    Leaf {
        method,
        suffix: suffix.to_string(),
        query: QueryShape::NoGuarantee,
        request_body: BodyShape::NoGuarantee,
        response_body: BodyShape::NoGuarantee,
    }
}

#[test]
fn nested_scopes_compose_paths_outermost_first() {
    let tree = RouteTree::Scope(
        "/a".to_string(),
        vec![RouteTree::Scope(
            "/b".to_string(),
            vec![RouteTree::Scope("/c".to_string(), vec![RouteTree::Leaf(leaf(Method::Get, ""))])],
        )],
    );
    let eps = expand_tree("/123", &tree);
    assert_eq!(eps.len(), 1);
    assert_eq!(eps[0].path, "/123/a/b/c");
}

#[test]
fn siblings_share_intermediate_scopes() {
    let tree = RouteTree::Scope(
        "/a".to_string(),
        vec![RouteTree::Scope(
            "/b".to_string(),
            vec![
                RouteTree::Leaf(leaf(Method::Get, "/x")),
                RouteTree::Leaf(leaf(Method::Post, "/y")),
            ],
        )],
    );
    let eps = expand_routes("/123", &vec![tree]);
    assert_eq!(eps.len(), 2);
    assert_eq!(eps[0].path, "/123/a/b/x");
    assert_eq!(eps[0].method, Method::Get);
    assert_eq!(eps[1].path, "/123/a/b/y");
    assert_eq!(eps[1].method, Method::Post);
}

#[test]
fn sample_table_expands_to_the_composed_path() {
    let eps = sample_endpoints();
    assert_eq!(eps.len(), 1);
    assert_eq!(eps[0].path, "/123/xyz/abc");
    assert_eq!(eps[0].method, Method::Post);
    assert_eq!(eps[0].query, QueryShape::NoGuarantee);
    assert_eq!(eps[0].request_body, byte_list_shape());
    assert_eq!(eps[0].response_body, text_byte_shape());
}

#[test]
fn empty_argument_list_is_compatible_with_every_shape_pair() {
    let none: Vec<ArgKind> = Vec::new();
    let queries = [QueryShape::NoGuarantee, QueryShape::Mapped(TypeTag(1))];
    let bodies = [BodyShape::NoGuarantee, BodyShape::Json(TypeTag(2))];
    for q in queries.iter() {
        for b in bodies.iter() {
            assert!(check_args(&none, q, b).is_ok());
        }
    }
}

#[test]
fn argument_list_over_the_ceiling_is_rejected() {
    let too_many = vec![ArgKind::Agnostic; MAX_HANDLER_ARITY + 1];
    let r = check_args(&too_many, &QueryShape::NoGuarantee, &BodyShape::NoGuarantee);
    assert_eq!(r.unwrap_err(), CompatError::ArityExceeded);
}

#[test]
fn first_incompatible_argument_is_reported() {
    let args = vec![
        ArgKind::Agnostic,
        ArgKind::QueryExtractor(TypeTag(5)),
        ArgKind::BodyExtractor(TypeTag(6)),
    ];
    let r = check_args(&args, &QueryShape::NoGuarantee, &BodyShape::Json(TypeTag(6)));
    assert_eq!(r.unwrap_err(), CompatError::IncompatibleArg(1));
}

#[test]
fn matching_extractors_are_compatible() {
    let args = vec![
        ArgKind::Agnostic,
        ArgKind::QueryExtractor(TypeTag(5)),
        ArgKind::BodyExtractor(TypeTag(6)),
        ArgKind::Unchecked,
    ];
    let r = check_args(&args, &QueryShape::Mapped(TypeTag(5)), &BodyShape::Json(TypeTag(6)));
    assert!(r.is_ok());
}

#[test]
fn whole_handler_is_checked_against_an_endpoint() {
    let ep = endpoint(
        QueryShape::Mapped(TypeTag(5)),
        BodyShape::Json(TypeTag(6)),
        BodyShape::Json(TypeTag(7)),
    );
    let args = vec![ArgKind::QueryExtractor(TypeTag(5)), ArgKind::BodyExtractor(TypeTag(6))];
    let good = ResultKind::Fallible(Box::new(ResultKind::Value(TypeTag(7))));
    assert!(check_handler(&args, &good, &ep).is_ok());
    let bad = ResultKind::Value(TypeTag(8));
    assert_eq!(check_handler(&args, &bad, &ep).unwrap_err(), CompatError::IncompatibleResult);
    let bad_args = vec![ArgKind::QueryExtractor(TypeTag(9))];
    assert_eq!(check_handler(&bad_args, &good, &ep).unwrap_err(), CompatError::IncompatibleArg(0));
}

#[test]
fn result_kinds_check_against_response_shapes() {
    assert!(check_result(&ResultKind::Value(TypeTag(3)), &BodyShape::NoGuarantee));
    assert!(check_result(&ResultKind::Value(TypeTag(3)), &BodyShape::Json(TypeTag(3))));
    assert!(!check_result(&ResultKind::Value(TypeTag(3)), &BodyShape::Json(TypeTag(4))));
    let fallible = ResultKind::Fallible(Box::new(ResultKind::Value(TypeTag(3))));
    assert!(check_result(&fallible, &BodyShape::Json(TypeTag(3))));
    assert!(!check_result(&fallible, &BodyShape::Json(TypeTag(4))));
    assert!(check_result(&fallible, &BodyShape::NoGuarantee));
}

fn reply(ep: Endpoint, status: u16, body: Vec<u8>) -> Response {
    Response { endpoint: ep, status, headers: vec![("server".to_string(), "t".to_string())], body, consumed: false }
}

#[test]
fn decode_succeeds_once_then_reports_consumed_body() {
    let ep = endpoint(QueryShape::NoGuarantee, BodyShape::NoGuarantee, text_byte_shape());
    let body = serde_json::to_vec(&("ok".to_string(), 7u8)).unwrap();
    let mut resp = reply(ep, 200, body);
    assert!(!resp.body_used());
    let first: (String, u8) = resp.json().unwrap();
    assert_eq!(first, ("ok".to_string(), 7u8));
    assert!(resp.body_used());
    let second: Result<(String, u8), RespError> = resp.json();
    assert_eq!(second.unwrap_err(), RespError::BodyConsumed);
    assert_eq!(resp.status(), 200);
    assert_eq!(resp.headers().len(), 1);
}

#[test]
fn decode_without_a_promised_body_is_refused() {
    let ep = endpoint(QueryShape::NoGuarantee, BodyShape::NoGuarantee, BodyShape::NoGuarantee);
    let mut resp = reply(ep, 200, b"[1]".to_vec());
    let r: Result<Vec<u8>, RespError> = resp.json();
    assert_eq!(r.unwrap_err(), RespError::ShapeMismatch);
    assert!(!resp.body_used());
}

#[test]
fn decode_of_the_wrong_payload_type_is_refused() {
    let ep = endpoint(QueryShape::NoGuarantee, BodyShape::NoGuarantee, text_byte_shape());
    let mut resp = reply(ep, 200, b"[1]".to_vec());
    let r: Result<Vec<u8>, RespError> = resp.json();
    assert_eq!(r.unwrap_err(), RespError::ShapeMismatch);
    assert!(!resp.body_used());
}

#[test]
fn decode_of_a_malformed_body_fails_but_keeps_metadata() {
    let ep = endpoint(QueryShape::NoGuarantee, BodyShape::NoGuarantee, text_byte_shape());
    let mut resp = reply(ep, 502, b"oops".to_vec());
    let r: Result<(String, u8), RespError> = resp.json();
    assert_eq!(r.unwrap_err(), RespError::Decode);
    assert_eq!(resp.status(), 502);
    assert!(!resp.ok());
    assert_eq!(resp.headers().len(), 1);
}

#[test]
fn success_range_is_the_two_hundreds() {
    let ep = endpoint(QueryShape::NoGuarantee, BodyShape::NoGuarantee, BodyShape::NoGuarantee);
    assert!(!reply(ep.clone(), 199, Vec::new()).ok());
    assert!(reply(ep.clone(), 200, Vec::new()).ok());
    assert!(reply(ep.clone(), 299, Vec::new()).ok());
    assert!(!reply(ep, 300, Vec::new()).ok());
}

#[test]
fn method_names_match_the_wire_verbs() {
    assert_eq!(Method::Get.name(), "GET");
    assert_eq!(Method::Post.name(), "POST");
    assert_eq!(Method::Put.name(), "PUT");
    assert_eq!(Method::Delete.name(), "DELETE");
    assert_eq!(Method::Head.name(), "HEAD");
    assert_eq!(Method::Options.name(), "OPTIONS");
    assert_eq!(Method::Connect.name(), "CONNECT");
    assert_eq!(Method::Patch.name(), "PATCH");
    assert_eq!(Method::Trace.name(), "TRACE");
}

#[test]
fn scenario_post_bytes_and_decode_pair() {
    let eps = sample_endpoints();
    let ep = eps.into_iter().next().unwrap();
    assert_eq!(ep.method, Method::Post);
    assert_eq!(ep.path, "/123/xyz/abc");
    let req = RequestBuilder::<Vec<u8>>::new(ep)
        .json(vec![1, 2, 3])
        .unwrap()
        .build()
        .unwrap();
    assert_eq!(req.query_string, "");
    let sent: Vec<u8> = serde_json::from_slice(req.body.as_ref().unwrap()).unwrap();
    assert_eq!(sent, vec![1, 2, 3]);
    let server_reply = serde_json::to_vec(&("ok".to_string(), 7u8)).unwrap();
    let mut resp = reply(req.endpoint, 200, server_reply);
    assert!(resp.ok());
    let out: (String, u8) = resp.json().unwrap();
    assert_eq!(out, ("ok".to_string(), 7u8));
}

fn assert_from_request<Q, B, A: FromRequest<Q, B>>() {}

fn assert_into_response<B, T: IntoResponse<B>>() {}

#[test]
fn marker_relation_accepts_matching_extractors() {
    assert_from_request::<Query<u8>, JsonBody<String>, ()>();
    assert_from_request::<Query<u8>, JsonBody<String>, (Query<u8>,)>();
    assert_from_request::<Query<u8>, JsonBody<String>, (Query<u8>, JsonBody<String>)>();
    assert_from_request::<Query<u8>, JsonBody<String>, (NoCheck<i64>, Query<u8>, JsonBody<String>)>();
}

#[test]
fn marker_relation_accepts_matching_results() {
    assert_into_response::<NoBody, String>();
    assert_into_response::<NoBody, Result<String, u8>>();
    assert_into_response::<JsonBody<u8>, JsonBody<u8>>();
    assert_into_response::<JsonBody<u8>, Result<JsonBody<u8>, String>>();
    assert_into_response::<JsonBody<u8>, Result<Result<JsonBody<u8>, String>, u8>>();
}
