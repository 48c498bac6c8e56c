use vstd::prelude::*;
use vstd::string::*;
use crate::framework::decode::ApiResult;
use crate::framework::query::{encode_query, query_string_is, QueryPayload};
use crate::json::{Json, JsonView};
use crate::syntax::{render_json, written};

verus! {

/// The HTTP methods that the endpoints use.
#[allow(clippy::upper_case_acronyms)]
#[derive(Clone, Copy, Debug, PartialEq, Eq, Structural)]
pub enum Method {
    GET,
    POST,
    PUT,
    PATCH,
    DELETE,
}

impl Method {
    /// The method's name as the request line holds it.
    pub open spec fn name(&self) -> Seq<char> {
        match self {
            Method::GET => "GET"@,
            Method::POST => "POST"@,
            Method::PUT => "PUT"@,
            Method::PATCH => "PATCH"@,
            Method::DELETE => "DELETE"@,
        }
    }

    pub fn as_str(&self) -> (s: &'static str)
        ensures
            s@ == self.name(),
    {
        match self {
            Method::GET => "GET",
            Method::POST => "POST",
            Method::PUT => "PUT",
            Method::PATCH => "PATCH",
            Method::DELETE => "DELETE",
        }
    }
}

/// The body of a request.
#[derive(Debug, PartialEq, Eq)]
pub enum RequestBody {
    Json(String),
    Raw(Vec<u8>),
}

/// A request could not be made of an endpoint description.
#[derive(Debug, PartialEq, Eq)]
pub enum RequestError {
    /// The body could not be written as JSON; holds the reason.
    Serialization(String),
}

/// Whether `r` is what becomes of a body that is written as the JSON value `json`:
/// no body where there is no value, the text where the value is written, and the
/// message where it is refused.
pub open spec fn body_is(
    json: Option<JsonView>,
    r: Result<Option<RequestBody>, RequestError>,
) -> bool {
    match json {
        None => r matches Ok(None),
        Some(j) => match written(j) {
            Ok(text) => r matches Ok(Some(RequestBody::Json(s))) && s@ == text,
            Err(message) => r matches Err(RequestError::Serialization(m)) && m@ == message,
        },
    }
}

/// The body that comes of the serializer's outcome.
pub fn json_body(rendering: Result<String, String>) -> (r: Result<
    Option<RequestBody>,
    RequestError,
>)
    ensures
        match rendering {
            Ok(text) => r matches Ok(Some(RequestBody::Json(s))) && s@ == text@,
            Err(message) => r matches Err(RequestError::Serialization(m)) && m@ == message@,
        },
{
    match rendering {
        Ok(text) => Ok(Some(RequestBody::Json(text))),
        Err(message) => Err(RequestError::Serialization(message)),
    }
}

/// Writes a JSON value as the body of a request.
pub fn render_body(j: &Json) -> (r: Result<Option<RequestBody>, RequestError>)
    ensures
        body_is(Some(j@), r),
{
    json_body(render_json(j))
}

/// Writes the present fields of a payload as a query string; gives none where no
/// field is present.
pub fn serialize_query<Q: QueryPayload>(q: &Q) -> (r: Option<String>)
    ensures
        query_string_is(q.query_pairs(), r),
{
    let pairs = q.to_query_pairs();
    encode_query(&pairs)
}

/// The description of one operation of the API: what it takes to make its request,
/// and the type that its response carries.
pub trait EndpointSpec {
    /// What the `result` of a successful response is decoded to.
    type JsonResponse: ApiResult;

    /// What a successful call hands back.
    type ResponseType;

    spec fn method_spec(&self) -> Method;

    spec fn path_spec(&self) -> Seq<char>;

    /// The pairs of the query; empty where the operation has no query.
    spec fn query_spec(&self) -> Seq<(Seq<char>, Seq<char>)>;

    /// The JSON value of the body; none where the operation has no body.
    spec fn body_spec(&self) -> Option<JsonView>;

    fn method(&self) -> (m: Method)
        ensures
            m == self.method_spec(),
    ;

    fn path(&self) -> (p: String)
        ensures
            p@ == self.path_spec(),
    ;

    fn query(&self) -> (q: Option<String>)
        ensures
            query_string_is(self.query_spec(), q),
    ;

    fn body(&self) -> (b: Result<Option<RequestBody>, RequestError>)
        ensures
            body_is(self.body_spec(), b),
    ;
}

/// A request as the transport takes it.
#[derive(Debug, PartialEq, Eq)]
pub struct Request {
    pub method: Method,
    pub path: String,
    pub query: Option<String>,
    pub body: Option<RequestBody>,
}

/// Makes the request of an endpoint description, or says why none can be made.
pub fn build_request<E: EndpointSpec>(endpoint: &E) -> (r: Result<Request, RequestError>)
    ensures
        match r {
            Ok(request) => {
                &&& request.method == endpoint.method_spec()
                &&& request.path@ == endpoint.path_spec()
                &&& query_string_is(endpoint.query_spec(), request.query)
                &&& body_is(endpoint.body_spec(), Ok(request.body))
            },
            Err(e) => body_is(endpoint.body_spec(), Err(e)),
        },
{
    match endpoint.body() {
        Ok(body) => Ok(
            Request {
                method: endpoint.method(),
                path: endpoint.path(),
                query: endpoint.query(),
                body,
            },
        ),
        Err(e) => Err(e),
    }
}

} // verus!
