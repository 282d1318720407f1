/// Me endpoint.
pub mod me;
/// Photos endpoint.
pub mod photos;
/// Query-string encoding.
pub mod query;

use crate::error::{Cause, Error, ErrorKind};
use hyper::Error as HttpError;
use serde_json::Error as JsonError;
use vstd::prelude::*;

pub use self::query::{encode, ToQuery};
use self::query::{encoded_query, join, join_text, pairs_view, values_escaped};

verus! {

/// The status code of a response that refuses access.
pub const FORBIDDEN: u16 = 403;

/// List of errors returned from Unsplash: the server answers an unsuccessful
/// request with a JSON array of messages.
pub struct Errors(pub Vec<String>);

impl Errors {
    /// The messages as text.
    pub open spec fn messages(&self) -> Seq<Seq<char>> {
        self.0@.map_values(|m: String| m@)
    }

    /// The messages, one per line.
    pub fn message(&self) -> (r: String)
        ensures
            r@ == join_text(self.messages(), seq!['\n']),
    {
        proof {
            reveal_strlit("\n");
            assert("\n"@ =~= seq!['\n']);
        }
        join(&self.0, "\n")
    }
}

/// The method of an HTTP request.
#[derive(Debug, Clone, Copy, PartialEq, Eq, Structural)]
pub enum Method {
    /// GET
    Get,
    /// PUT
    Put,
    /// POST
    Post,
    /// DELETE
    Delete,
}

/// An outbound request, ready for a transport: its body is always empty.
pub struct Request {
    /// The method.
    pub method: Method,
    /// The absolute URI, query string included.
    pub uri: String,
    /// The headers, as (name, value), in order.
    pub headers: Vec<(String, String)>,
}

/// The headers every request carries: JSON is accepted, version 1 of the API
/// is asked for, and the caller's authorization value is passed on.
pub open spec fn request_headers(auth: Seq<char>) -> Seq<(Seq<char>, Seq<char>)> {
    seq![("Accept"@, "application/json"@), ("Accept-Version"@, "v1"@), ("Authorization"@, auth)]
}

/// Builds the request for `uri` with the query string of `query` appended.
/// An exchange is this request, sent by the caller's transport, then
/// [`transport_error`] where sending fails, [`fold`] over the body's chunks,
/// and [`finish`] on the status and the whole body.
pub fn request<T: ToQuery>(query: &T, auth: &str, uri: &str, method: Method) -> (r: Request)
    ensures
        r.method == method,
        r.uri@ == uri@ + encoded_query(query.query_fields_spec()),
        values_escaped(query.query_fields_spec()),
        pairs_view(r.headers@) == request_headers(auth@),
{
    let mut full = String::from_str(uri);
    let q = query.to_query();
    full.append(q.as_str());
    let mut headers: Vec<(String, String)> = Vec::new();
    headers.push((String::from_str("Accept"), String::from_str("application/json")));
    headers.push((String::from_str("Accept-Version"), String::from_str("v1")));
    headers.push((String::from_str("Authorization"), String::from_str(auth)));
    proof {
        assert(pairs_view(headers@) =~= request_headers(auth@));
    }
    Request { method, uri: full, headers }
}

/// Builds a GET request.
pub fn get<T: ToQuery>(query: &T, auth: &str, uri: &str) -> (r: Request)
    ensures
        r.method == Method::Get,
        r.uri@ == uri@ + encoded_query(query.query_fields_spec()),
        values_escaped(query.query_fields_spec()),
        pairs_view(r.headers@) == request_headers(auth@),
{
    request(query, auth, uri, Method::Get)
}

/// Builds a PUT request.
pub fn put<T: ToQuery>(query: &T, auth: &str, uri: &str) -> (r: Request)
    ensures
        r.method == Method::Put,
        r.uri@ == uri@ + encoded_query(query.query_fields_spec()),
        values_escaped(query.query_fields_spec()),
        pairs_view(r.headers@) == request_headers(auth@),
{
    request(query, auth, uri, Method::Put)
}

/// Builds a DELETE request.
pub fn delete<T: ToQuery>(query: &T, auth: &str, uri: &str) -> (r: Request)
    ensures
        r.method == Method::Delete,
        r.uri@ == uri@ + encoded_query(query.query_fields_spec()),
        values_escaped(query.query_fields_spec()),
        pairs_view(r.headers@) == request_headers(auth@),
{
    request(query, auth, uri, Method::Delete)
}

/// Builds a POST request.
pub fn post<T: ToQuery>(query: &T, auth: &str, uri: &str) -> (r: Request)
    ensures
        r.method == Method::Post,
        r.uri@ == uri@ + encoded_query(query.query_fields_spec()),
        values_escaped(query.query_fields_spec()),
        pairs_view(r.headers@) == request_headers(auth@),
{
    request(query, auth, uri, Method::Post)
}

/// Appends one chunk of a response body to what has arrived before it.
pub fn fold(v: Vec<u8>, chunk: &[u8]) -> (r: Vec<u8>)
    ensures
        r@ == v@ + chunk@,
{
    let mut v = v;
    let ghost start = v@;
    let mut i: usize = 0;
    while i < chunk.len()
        invariant
            i <= chunk@.len(),
            v@ == start + chunk@.take(i as int),
        decreases chunk.len() - i,
    {
        v.push(chunk[i]);
        proof {
            assert(chunk@.take(i as int + 1) =~= chunk@.take(i as int).push(chunk@[i as int]));
        }
        i += 1;
    }
    proof {
        assert(chunk@.take(chunk@.len() as int) =~= chunk@);
    }
    v
}


/// A status code in the success range.
pub open spec fn is_success(status: u16) -> bool {
    200 <= status && status < 300
}

/// The category of an error that arose while a response with `status` was
/// read: `kind`, unless the status refused access.
pub open spec fn tagged(status: u16, kind: ErrorKind) -> ErrorKind {
    if status == FORBIDDEN {
        ErrorKind::Forbidden
    } else {
        kind
    }
}

/// The result of decoding a success body: the value, or a malformed-response
/// error wrapping the decode failure.
pub open spec fn decoded<T>(d: Result<T, JsonError>) -> Result<T, Error> {
    match d {
        Ok(t) => Ok(t),
        Err(e) => Err(Error { kind: ErrorKind::MalformedResponse, cause: Cause::Json(e) }),
    }
}

/// What serde_json reads from `body` as a JSON array of strings: `None` where
/// the body is not one.
pub uninterp spec fn json_string_list(body: Seq<u8>) -> Option<Seq<Seq<char>>>;

/// The error made of a body read against the error-list schema: tagged
/// Forbidden for the forbidden status and MalformedResponse otherwise,
/// wrapping the server's messages, or the decode failure where the body is no
/// list of strings.
pub open spec fn error_list_error(status: u16, body: Seq<u8>, e: Error) -> bool {
    &&& e.kind == tagged(status, ErrorKind::MalformedResponse)
    &&& match json_string_list(body) {
        Some(list) => e.cause is Server && e.cause->Server_0.messages() == list,
        None => e.cause is Json,
    }
}

/// Relies on serde_json::from_slice::<Vec<String>>: decodes a JSON array of
/// strings, or fails with the decode error.
#[verifier::external_body]
fn parse_string_list(body: &[u8]) -> (r: Result<Vec<String>, JsonError>)
    ensures
        r is Ok <==> json_string_list(body@) is Some,
        r is Ok ==> json_string_list(body@) == Some(r->Ok_0@.map_values(|m: String| m@)),
{
    serde_json::from_slice::<Vec<String>>(body)
}

/// Reads an unsuccessful response's body as the list of errors that the
/// server reported.
pub fn parse_err(status: u16, body: &[u8]) -> (r: Error)
    ensures
        error_list_error(status, body@, r),
{
    let kind = if status == FORBIDDEN {
        ErrorKind::Forbidden
    } else {
        ErrorKind::MalformedResponse
    };
    match parse_string_list(body) {
        Ok(list) => Error { kind, cause: Cause::Server(Errors(list)) },
        Err(e) => Error { kind, cause: Cause::Json(e) },
    }
}

/// Turns the result of decoding a success body into the caller's result.
pub fn parse_data<T>(d: Result<T, JsonError>) -> (r: Result<T, Error>)
    ensures
        r == decoded(d),
{
    match d {
        Ok(t) => Ok(t),
        Err(e) => Err(Error { kind: ErrorKind::MalformedResponse, cause: Cause::Json(e) }),
    }
}

/// Classifies a fully read response. A status in the success range has the
/// body decoded by `decode`, as the caller's success type; any other status
/// has it read as the error list, and the forbidden status tags the
/// resulting error Forbidden.
pub fn classify<T, F: FnOnce(Vec<u8>) -> Result<T, JsonError>>(
    status: u16,
    body: Vec<u8>,
    decode: F,
) -> (r: Result<T, Error>)
    requires
        is_success(status) ==> decode.requires((body,)),
    ensures
        is_success(status) ==> exists|d: Result<T, JsonError>|
            decode.ensures((body,), d) && r == decoded(d),
        !is_success(status) ==> r is Err && error_list_error(status, body@, r->Err_0),
{
    if 200 <= status && status < 300 {
        let d = decode(body);
        parse_data(d)
    } else {
        Err(parse_err(status, body.as_slice()))
    }
}

/// The error for a transport that could not send the request or obtain a
/// response.
pub fn transport_error(e: HttpError) -> (r: Error)
    ensures
        r == (Error { kind: ErrorKind::Request, cause: Cause::Http(e) }),
{
    Error { kind: ErrorKind::Request, cause: Cause::Http(e) }
}

/// Finishes an exchange once the response's body stream has ended: a broken
/// stream is a malformed response (Forbidden under the forbidden status),
/// and a complete body is classified. A status in the success range has the
/// body decoded by `decode` alone, never as the error list; any other status
/// has it read as the error list alone, and the forbidden status tags the
/// resulting error Forbidden whether that list decoded or not.
pub fn finish<T, F: FnOnce(Vec<u8>) -> Result<T, JsonError>>(
    status: u16,
    body: Result<Vec<u8>, HttpError>,
    decode: F,
) -> (r: Result<T, Error>)
    requires
        body is Ok && is_success(status) ==> decode.requires((body->Ok_0,)),
    ensures
        body is Err ==> r == Err::<T, Error>(
            Error {
                kind: tagged(status, ErrorKind::MalformedResponse),
                cause: Cause::Http(body->Err_0),
            },
        ),
        body is Ok && is_success(status) ==> exists|d: Result<T, JsonError>|
            decode.ensures((body->Ok_0,), d) && r == decoded(d),
        body is Ok && !is_success(status) ==> r is Err && error_list_error(
            status,
            body->Ok_0@,
            r->Err_0,
        ),
{
    match body {
        Ok(bytes) => classify(status, bytes, decode),
        Err(e) => {
            let kind = if status == FORBIDDEN {
                ErrorKind::Forbidden
            } else {
                ErrorKind::MalformedResponse
            };
            Err(Error { kind, cause: Cause::Http(e) })
        },
    }
}

} // verus!
