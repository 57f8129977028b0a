//! Reverse proxy rules for forwarding requests to a backend API with the
//! session's bearer token (BFF pattern).
//!
//! The caller reads bodies and sends requests; what goes out, what comes back
//! and how failures are answered is decided here.

use vstd::prelude::*;

use crate::status::StatusCode;
use crate::text;

verus! {

/// Maximum request body size (20 MiB).
pub const CONTENT_LENGTH_LIMIT: usize = 20 * 1024 * 1024;

/// What can go wrong on the way to the backend and back.
#[derive(Debug, Clone, Copy, PartialEq, Eq, Structural)]
pub enum ProxyFailure {
    /// The request body cannot be read, or is larger than the limit.
    ReadRequest,
    /// The backend cannot be reached.
    Send,
    /// The backend's response body cannot be read.
    ReadResponse,
    /// The response cannot be put together.
    BuildResponse,
}

impl ProxyFailure {
    /// The status that a failure is answered with.
    pub open spec fn answer(self) -> StatusCode {
        match self {
            ProxyFailure::ReadRequest => StatusCode::BadRequest,
            ProxyFailure::Send => StatusCode::BadGateway,
            ProxyFailure::ReadResponse => StatusCode::BadGateway,
            ProxyFailure::BuildResponse => StatusCode::InternalServerError,
        }
    }

    /// The status that a failure is answered with.
    pub fn status(&self) -> (status: StatusCode)
        ensures
            status == self.answer(),
    {
        match self {
            ProxyFailure::ReadRequest => StatusCode::BadRequest,
            ProxyFailure::Send => StatusCode::BadGateway,
            ProxyFailure::ReadResponse => StatusCode::BadGateway,
            ProxyFailure::BuildResponse => StatusCode::InternalServerError,
        }
    }
}

/// A request to the backend. No header goes out but these two.
#[derive(Debug)]
pub struct OutboundRequest {
    /// Method of the incoming request.
    pub method: String,
    /// Where the request goes.
    pub url: String,
    /// `Authorization` header.
    pub authorization: String,
    /// `Content-Type` header of the incoming request, where it had one.
    pub content_type: Option<Vec<u8>>,
    /// Body of the incoming request, unless that was empty.
    pub body: Option<Vec<u8>>,
}

/// An [`OutboundRequest`] as characters and bytes.
pub struct Outbound {
    pub method: Seq<char>,
    pub url: Seq<char>,
    pub authorization: Seq<char>,
    pub content_type: Option<Seq<u8>>,
    pub body: Option<Seq<u8>>,
}

/// The bytes of an optional value.
pub open spec fn opt_bytes(value: Option<Vec<u8>>) -> Option<Seq<u8>> {
    match value {
        Some(v) => Some(v@),
        None => None,
    }
}

impl View for OutboundRequest {
    type V = Outbound;

    open spec fn view(&self) -> Outbound {
        Outbound {
            method: self.method@,
            url: self.url@,
            authorization: self.authorization@,
            content_type: opt_bytes(self.content_type),
            body: opt_bytes(self.body),
        }
    }
}

/// The request that a readable body of an acceptable size makes.
pub open spec fn outbound(
    method: Seq<char>,
    target_url: Seq<char>,
    access_token: Seq<char>,
    content_type: Option<Seq<u8>>,
    body: Seq<u8>,
) -> Outbound {
    Outbound {
        method,
        url: target_url,
        authorization: "Bearer "@ + access_token,
        content_type,
        body: if body.len() == 0 {
            None
        } else {
            Some(body)
        },
    }
}

/// The request to send to the backend, with the Bearer token injected.
///
/// Only the `Content-Type` header is forwarded from the incoming request.
/// `body` is what reading the incoming body came to; the request is answered
/// with 400 where that failed or brought more than [`CONTENT_LENGTH_LIMIT`]
/// bytes.
pub fn send_proxy_request(
    method: &str,
    target_url: &str,
    access_token: &str,
    content_type: Option<Vec<u8>>,
    body: Result<Vec<u8>, String>,
) -> (request: Result<OutboundRequest, StatusCode>)
    ensures
        match body {
            Ok(bytes) => if bytes@.len() > CONTENT_LENGTH_LIMIT {
                request == Err::<OutboundRequest, _>(StatusCode::BadRequest)
            } else {
                request is Ok && request->Ok_0@ == outbound(
                    method@,
                    target_url@,
                    access_token@,
                    opt_bytes(content_type),
                    bytes@,
                )
            },
            Err(_) => request == Err::<OutboundRequest, _>(StatusCode::BadRequest),
        },
        request is Ok <==> body is Ok && body->Ok_0@.len() <= 20_971_520,
        request matches Ok(sent) ==> {
            &&& sent.method@ == method@
            &&& sent.url@ == target_url@
            &&& sent.authorization@ == "Bearer "@ + access_token@
            &&& sent.content_type == content_type
            &&& body->Ok_0@.len() > 0 ==> sent.body is Some && sent.body->0@ == body->Ok_0@
            &&& body->Ok_0@.len() == 0 ==> sent.body is None
        },
{
    let bytes = match body {
        Ok(bytes) => bytes,
        Err(_) => return Err(ProxyFailure::ReadRequest.status()),
    };
    if bytes.len() > CONTENT_LENGTH_LIMIT {
        return Err(ProxyFailure::ReadRequest.status());
    }
    let body = if bytes.len() == 0 {
        None
    } else {
        Some(bytes)
    };
    Ok(
        OutboundRequest {
            method: method.to_owned(),
            url: target_url.to_owned(),
            authorization: text::joined("Bearer ", access_token),
            content_type,
            body,
        },
    )
}

/// A response header. Names are in lower case, as the `http` crate keeps them.
#[derive(Debug)]
pub struct Header {
    pub name: String,
    pub value: Vec<u8>,
}

impl View for Header {
    type V = (Seq<char>, Seq<u8>);

    open spec fn view(&self) -> (Seq<char>, Seq<u8>) {
        (self.name@, self.value@)
    }
}

/// A response for the client.
#[derive(Debug)]
pub struct ProxyResponse {
    /// Status of the backend's response.
    pub status: u16,
    /// Headers to send, in order.
    pub headers: Vec<Header>,
    /// Body of the backend's response.
    pub body: Vec<u8>,
}

/// The names and values of a list of headers.
pub open spec fn header_list(headers: Seq<Header>) -> Seq<(Seq<char>, Seq<u8>)> {
    headers.map_values(|h: Header| h@)
}

/// Whether a header concerns one connection only.
pub open spec fn hop_by_hop(name: Seq<char>) -> bool {
    name == "transfer-encoding"@ || name == "connection"@
}

/// The headers that reach the client: all but the hop-by-hop ones, in order.
pub open spec fn forwarded(headers: Seq<(Seq<char>, Seq<u8>)>) -> Seq<(Seq<char>, Seq<u8>)> {
    headers.filter(|h: (Seq<char>, Seq<u8>)| !hop_by_hop(h.0))
}

/// The headers that reach the client.
fn forward_headers(headers: &Vec<Header>) -> (kept: Vec<Header>)
    ensures
        header_list(kept@) == forwarded(header_list(headers@)),
{
    let ghost all = header_list(headers@);
    let mut kept: Vec<Header> = Vec::new();
    let mut i: usize = 0;
    proof {
        reveal(Seq::filter);
        assert(header_list(kept@) =~= forwarded(all.take(0)));
    }
    while i < headers.len()
        invariant
            i <= headers.len(),
            all == header_list(headers@),
            header_list(kept@) == forwarded(all.take(i as int)),
        decreases headers.len() - i,
    {
        let header = &headers[i];
        proof {
            reveal(Seq::filter);
            assert(all.take(i + 1).drop_last() =~= all.take(i as int));
            assert(all.take(i + 1).last() == header@);
        }
        let dropped = text::str_eq(&header.name, "transfer-encoding") || text::str_eq(
            &header.name,
            "connection",
        );
        if !dropped {
            let copy = Header { name: header.name.clone(), value: header.value.clone() };
            assert(copy.value@ =~= header.value@);
            let ghost before = kept@;
            kept.push(copy);
            assert(header_list(kept@) =~= header_list(before).push(header@));
        }
        i += 1;
    }
    assert(all.take(i as int) =~= all);
    kept
}

/// The response for the client, forwarding the backend's status, headers and
/// body. `body` is what reading the backend's body came to; where that failed
/// the client gets 502.
pub fn build_proxy_response(
    status: u16,
    headers: &Vec<Header>,
    body: Result<Vec<u8>, String>,
) -> (response: Result<ProxyResponse, StatusCode>)
    ensures
        match body {
            Ok(bytes) => {
                &&& response is Ok
                &&& response->Ok_0.status == status
                &&& header_list(response->Ok_0.headers@) == forwarded(header_list(headers@))
                &&& response->Ok_0.body@ == bytes@
            },
            Err(_) => response == Err::<ProxyResponse, _>(StatusCode::BadGateway),
        },
{
    match body {
        Ok(body) => Ok(ProxyResponse { status, headers: forward_headers(headers), body }),
        Err(_) => Err(ProxyFailure::ReadResponse.status()),
    }
}

/// A header reaches the client exactly when the backend sent it and it is not
/// a hop-by-hop header.
pub proof fn law_only_hop_by_hop_headers_are_dropped(
    headers: Seq<(Seq<char>, Seq<u8>)>,
    header: (Seq<char>, Seq<u8>),
)
    ensures
        forwarded(headers).contains(header) <==> headers.contains(header) && !hop_by_hop(header.0),
    decreases headers.len(),
{
    reveal(Seq::filter);
    if headers.len() > 0 {
        let rest = headers.drop_last();
        law_only_hop_by_hop_headers_are_dropped(rest, header);
        let kept = forwarded(rest);
        if headers.contains(header) {
            let i = choose|i: int| 0 <= i < headers.len() && headers[i] == header;
            if i < rest.len() {
                assert(rest[i] == header);
            }
        }
        if rest.contains(header) {
            let i = choose|i: int| 0 <= i < rest.len() && rest[i] == header;
            assert(headers[i] == header);
        }
        if !hop_by_hop(headers.last().0) {
            let grown = kept.push(headers.last());
            assert(grown[kept.len() as int] == headers.last());
            if kept.contains(header) {
                let i = choose|i: int| 0 <= i < kept.len() && kept[i] == header;
                assert(grown[i] == header);
            }
            if grown.contains(header) {
                let i = choose|i: int| 0 <= i < grown.len() && grown[i] == header;
                if i < kept.len() {
                    assert(kept[i] == header);
                }
            }
        }
    }
}

/// Headers keep the order the backend sent them in, one run after another.
pub proof fn law_header_order_is_kept(
    first: Seq<(Seq<char>, Seq<u8>)>,
    second: Seq<(Seq<char>, Seq<u8>)>,
)
    ensures
        forwarded(first + second) == forwarded(first) + forwarded(second),
    decreases second.len(),
{
    reveal(Seq::filter);
    if second.len() == 0 {
        assert(first + second =~= first);
        assert(forwarded(first) + forwarded(second) =~= forwarded(first));
    } else {
        law_header_order_is_kept(first, second.drop_last());
        assert((first + second).drop_last() =~= first + second.drop_last());
        assert(forwarded(first + second) =~= forwarded(first) + forwarded(second));
    }
}

/// Whatever the method, the request goes where it should, with the token, the
/// content type and a body that is not empty as they are, and without a body
/// that is empty.
pub proof fn law_requests_go_out_unchanged(
    method: Seq<char>,
    target_url: Seq<char>,
    access_token: Seq<char>,
    content_type: Option<Seq<u8>>,
    body: Seq<u8>,
)
    ensures
        ({
            let request = outbound(method, target_url, access_token, content_type, body);
            &&& request.method == method
            &&& request.url == target_url
            &&& request.authorization == "Bearer "@ + access_token
            &&& request.content_type == content_type
            &&& body.len() > 0 ==> request.body == Some(body)
            &&& body.len() == 0 ==> request.body is None
        }),
{
}

/// One header alone is dropped when it concerns the connection and kept as it
/// is otherwise. With the law on runs of headers this decides on every list.
pub proof fn law_each_header_is_kept_or_dropped(header: (Seq<char>, Seq<u8>))
    ensures
        header.0 == "transfer-encoding"@ || header.0 == "connection"@ ==> forwarded(
            seq![header],
        ).len() == 0,
        header.0 != "transfer-encoding"@ && header.0 != "connection"@ ==> forwarded(seq![header])
            == seq![header],
        forwarded(Seq::empty()).len() == 0,
{
    reveal(Seq::filter);
    let one = seq![header];
    assert(one.drop_last() =~= Seq::<(Seq<char>, Seq<u8>)>::empty());
    assert(forwarded(Seq::empty()) =~= Seq::<(Seq<char>, Seq<u8>)>::empty());
    assert(one.last() == header);
    if header.0 != "transfer-encoding"@ && header.0 != "connection"@ {
        assert(forwarded(one) =~= one);
    }
}

/// A header reaches the client exactly when the backend sent it and its name is
/// neither of the two that concern the connection.
pub proof fn law_forwarded_headers(
    headers: Seq<(Seq<char>, Seq<u8>)>,
    header: (Seq<char>, Seq<u8>),
)
    ensures
        forwarded(headers).contains(header) <==> headers.contains(header) && header.0
            != "transfer-encoding"@ && header.0 != "connection"@,
{
    law_only_hop_by_hop_headers_are_dropped(headers, header);
}

/// Failures on the request's side are the client's, failures to reach or to
/// read the backend are the gateway's.
pub proof fn law_failure_statuses()
    ensures
        ProxyFailure::ReadRequest.answer().code() == 400,
        ProxyFailure::Send.answer().code() == 502,
        ProxyFailure::ReadResponse.answer().code() == 502,
        ProxyFailure::BuildResponse.answer().code() == 500,
        CONTENT_LENGTH_LIMIT == 20_971_520,
{
}

/// What contracts say of a request or of headers is said of all of their parts.
pub proof fn law_proxy_views(request: OutboundRequest, headers: Seq<Header>, bytes: Vec<u8>)
    ensures
        request@.method == request.method@,
        request@.url == request.url@,
        request@.authorization == request.authorization@,
        request.content_type is None ==> request@.content_type is None,
        request.content_type is Some ==> request@.content_type == Some(request.content_type->0@),
        request.body is None ==> request@.body is None,
        request.body is Some ==> request@.body == Some(request.body->0@),
        header_list(headers).len() == headers.len(),
        forall|i: int|
            0 <= i < headers.len() ==> (#[trigger] header_list(headers)[i]).0 == headers[i].name@
                && header_list(headers)[i].1 == headers[i].value@,
        opt_bytes(Some(bytes)) == Some(bytes@),
        opt_bytes(None) is None,
{
}

} // verus!
