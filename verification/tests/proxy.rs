//! Forwarding requests and responses.

use oidc_stack::proxy::{
    build_proxy_response, send_proxy_request, Header, ProxyFailure, CONTENT_LENGTH_LIMIT,
};
use oidc_stack::status::StatusCode;

fn header(name: &str, value: &str) -> Header {
    Header {
        name: name.to_string(),
        value: value.as_bytes().to_vec(),
    }
}

#[test]
fn token_content_type_and_body_are_forwarded() {
    let request = send_proxy_request(
        "POST",
        "http://backend/x",
        "at",
        Some(b"application/json".to_vec()),
        Ok(b"{}".to_vec()),
    )
    .unwrap();
    assert_eq!(request.method, "POST");
    assert_eq!(request.url, "http://backend/x");
    assert_eq!(request.authorization, "Bearer at");
    assert_eq!(request.content_type, Some(b"application/json".to_vec()));
    assert_eq!(request.body, Some(b"{}".to_vec()));
}

#[test]
fn an_empty_body_is_not_sent() {
    let request = send_proxy_request("GET", "http://backend/x", "at", None, Ok(vec![])).unwrap();
    assert_eq!(request.content_type, None);
    assert_eq!(request.body, None);
}

#[test]
fn bodies_up_to_the_limit_are_taken() {
    assert_eq!(CONTENT_LENGTH_LIMIT, 20_971_520);
    let at = send_proxy_request("PUT", "u", "t", None, Ok(vec![7; CONTENT_LENGTH_LIMIT]));
    assert_eq!(at.unwrap().body.unwrap().len(), CONTENT_LENGTH_LIMIT);
    let over = send_proxy_request("PUT", "u", "t", None, Ok(vec![7; CONTENT_LENGTH_LIMIT + 1]));
    assert_eq!(over.unwrap_err(), StatusCode::BadRequest);
}

#[test]
fn an_unreadable_request_body_is_a_bad_request() {
    let request = send_proxy_request("PUT", "u", "t", None, Err("reset".to_string()));
    assert_eq!(request.unwrap_err().as_u16(), 400);
}

#[test]
fn hop_by_hop_headers_stay_behind() {
    let headers = vec![
        header("set-cookie", "a=1"),
        header("transfer-encoding", "chunked"),
        header("content-type", "text/plain"),
        header("connection", "close"),
        header("set-cookie", "b=2"),
        header("keep-alive", "5"),
    ];
    let response = build_proxy_response(201, &headers, Ok(b"hi".to_vec())).unwrap();
    assert_eq!(response.status, 201);
    assert_eq!(response.body, b"hi".to_vec());
    let kept: Vec<(&str, &[u8])> = response
        .headers
        .iter()
        .map(|h| (h.name.as_str(), h.value.as_slice()))
        .collect();
    assert_eq!(
        kept,
        vec![
            ("set-cookie", b"a=1".as_slice()),
            ("content-type", b"text/plain".as_slice()),
            ("set-cookie", b"b=2".as_slice()),
            ("keep-alive", b"5".as_slice()),
        ]
    );
}

#[test]
fn an_unreadable_response_body_is_a_bad_gateway() {
    let response = build_proxy_response(200, &vec![], Err("reset".to_string()));
    assert_eq!(response.unwrap_err().as_u16(), 502);
}

#[test]
fn failures_have_their_statuses() {
    assert_eq!(ProxyFailure::ReadRequest.status().as_u16(), 400);
    assert_eq!(ProxyFailure::Send.status().as_u16(), 502);
    assert_eq!(ProxyFailure::ReadResponse.status().as_u16(), 502);
    assert_eq!(ProxyFailure::BuildResponse.status().as_u16(), 500);
}
