use vstd::prelude::*;
use vstd::string::*;
use crate::framework::OrderDirection;
use crate::framework::decode::{
    listed, object_rejection, optional, optional_decodes, optional_rejection, require_object, then,
    ApiResult, DecodeError, DecodeErrorView,
};
use crate::framework::encode::{required_member, ObjectBuilder, ToJson};
use crate::framework::endpoint::{
    render_body, serialize_query, EndpointSpec, Method, RequestBody, RequestError,
};
use crate::framework::query::{optional_pair, QueryBuilder, QueryPayload};
use crate::framework::response::ApiSuccess;
use crate::framework::writable::{lemma_extend, lemma_required_part, Writable};
use crate::json::{Json, JsonView};
use crate::time::Timestamp;

verus! {

/// A destination address of email routing.
#[derive(Clone, Debug, PartialEq, Eq)]
pub struct Addresses {
    pub id: Option<String>,
    pub created: Option<Timestamp>,
    pub modified: Option<Timestamp>,
    pub email: Option<String>,
    pub tag: Option<String>,
    pub verified: Option<Timestamp>,
}

impl ApiResult for Addresses {
    open spec fn rejection(j: JsonView) -> Option<DecodeErrorView> {
        let e = object_rejection(j);
        let e = then(e, optional_rejection::<String>(j, "id"@));
        let e = then(e, optional_rejection::<Timestamp>(j, "created"@));
        let e = then(e, optional_rejection::<Timestamp>(j, "modified"@));
        let e = then(e, optional_rejection::<String>(j, "email"@));
        let e = then(e, optional_rejection::<String>(j, "tag"@));
        let e = then(e, optional_rejection::<Timestamp>(j, "verified"@));
        e
    }

    open spec fn decodes(j: JsonView, v: Self) -> bool {
        &&& optional_decodes::<String>(j, "id"@, v.id)
        &&& optional_decodes::<Timestamp>(j, "created"@, v.created)
        &&& optional_decodes::<Timestamp>(j, "modified"@, v.modified)
        &&& optional_decodes::<String>(j, "email"@, v.email)
        &&& optional_decodes::<String>(j, "tag"@, v.tag)
        &&& optional_decodes::<Timestamp>(j, "verified"@, v.verified)
    }

    fn from_json(j: &Json) -> (r: Result<Self, DecodeError>) {
        match require_object(j) {
            Ok(_) => {},
            Err(e) => {
                return Err(e);
            },
        }
        let id = match optional::<String>(j, "id") {
            Ok(v) => v,
            Err(e) => {
                return Err(e);
            },
        };
        let created = match optional::<Timestamp>(j, "created") {
            Ok(v) => v,
            Err(e) => {
                return Err(e);
            },
        };
        let modified = match optional::<Timestamp>(j, "modified") {
            Ok(v) => v,
            Err(e) => {
                return Err(e);
            },
        };
        let email = match optional::<String>(j, "email") {
            Ok(v) => v,
            Err(e) => {
                return Err(e);
            },
        };
        let tag = match optional::<String>(j, "tag") {
            Ok(v) => v,
            Err(e) => {
                return Err(e);
            },
        };
        let verified = match optional::<Timestamp>(j, "verified") {
            Ok(v) => v,
            Err(e) => {
                return Err(e);
            },
        };
        Ok(Addresses { id, created, modified, email, tag, verified })
    }
}

/// Create a destination address.
#[derive(Debug)]
pub struct CreateDestinationAddress<'a> {
    pub account_identifier: &'a str,
    pub params: CreateDestinationAddressParams,
}

impl<'a> EndpointSpec for CreateDestinationAddress<'a> {
    type JsonResponse = Option<Addresses>;

    type ResponseType = ApiSuccess<Self::JsonResponse>;

    open spec fn method_spec(&self) -> Method {
        Method::POST
    }

    open spec fn path_spec(&self) -> Seq<char> {
        "accounts/"@ + self.account_identifier@ + "/email/routing/addresses"@
    }

    open spec fn query_spec(&self) -> Seq<(Seq<char>, Seq<char>)> {
        Seq::empty()
    }

    open spec fn body_spec(&self) -> Option<JsonView> {
        Some(self.params.json())
    }

    fn method(&self) -> (m: Method) {
        Method::POST
    }

    fn path(&self) -> (p: String) {
        let mut p = String::from_str("accounts/");
        p.append(self.account_identifier);
        p.append("/email/routing/addresses");
        p
    }

    fn query(&self) -> (q: Option<String>) {
        None
    }

    fn body(&self) -> (b: Result<Option<RequestBody>, RequestError>) {
        render_body(&self.params.to_json())
    }
}

/// The address that is to become a destination.
#[derive(Clone, Debug, PartialEq, Eq)]
pub struct CreateDestinationAddressParams {
    pub email: String,
}

impl ToJson for CreateDestinationAddressParams {
    open spec fn json(&self) -> JsonView {
        JsonView::Object(
            Seq::<(Seq<char>, JsonView)>::empty()
                + required_member::<String>("email"@, self.email),
        )
    }

    fn to_json(&self) -> (j: Json) {
        let mut b = ObjectBuilder::new();
        b.field("email", &self.email);
        b.build()
    }
}

impl Writable for CreateDestinationAddressParams {
    open spec fn sound(&self) -> bool {
        &&& self.email.sound()
    }

    proof fn lemma_writable(v: Self) {
        reveal_strlit("email");
        let head0 = Seq::<(Seq<char>, JsonView)>::empty();
        let part0 = required_member::<String>("email"@, v.email);
        lemma_required_part::<String>("email"@, v.email);
        lemma_extend(head0, part0);
    }
}

/// Delete a destination address.
#[derive(Debug)]
pub struct DeleteDestinationAddress<'a> {
    pub account_identifier: &'a str,
    pub destination_address_identifier: &'a str,
}

impl<'a> EndpointSpec for DeleteDestinationAddress<'a> {
    type JsonResponse = Option<Addresses>;

    type ResponseType = ApiSuccess<Self::JsonResponse>;

    open spec fn method_spec(&self) -> Method {
        Method::DELETE
    }

    open spec fn path_spec(&self) -> Seq<char> {
        "accounts/"@
            + self.account_identifier@
            + "/email/routing/addresses/"@
            + self.destination_address_identifier@
    }

    open spec fn query_spec(&self) -> Seq<(Seq<char>, Seq<char>)> {
        Seq::empty()
    }

    open spec fn body_spec(&self) -> Option<JsonView> {
        None
    }

    fn method(&self) -> (m: Method) {
        Method::DELETE
    }

    fn path(&self) -> (p: String) {
        let mut p = String::from_str("accounts/");
        p.append(self.account_identifier);
        p.append("/email/routing/addresses/");
        p.append(self.destination_address_identifier);
        p
    }

    fn query(&self) -> (q: Option<String>) {
        None
    }

    fn body(&self) -> (b: Result<Option<RequestBody>, RequestError>) {
        Ok(None)
    }
}

/// Get a destination address.
#[derive(Debug)]
pub struct GetDestinationAddress<'a> {
    pub account_identifier: &'a str,
    pub destination_address_identifier: &'a str,
}

impl<'a> EndpointSpec for GetDestinationAddress<'a> {
    type JsonResponse = Option<Addresses>;

    type ResponseType = ApiSuccess<Self::JsonResponse>;

    open spec fn method_spec(&self) -> Method {
        Method::GET
    }

    open spec fn path_spec(&self) -> Seq<char> {
        "accounts/"@
            + self.account_identifier@
            + "/email/routing/addresses/"@
            + self.destination_address_identifier@
    }

    open spec fn query_spec(&self) -> Seq<(Seq<char>, Seq<char>)> {
        Seq::empty()
    }

    open spec fn body_spec(&self) -> Option<JsonView> {
        None
    }

    fn method(&self) -> (m: Method) {
        Method::GET
    }

    fn path(&self) -> (p: String) {
        let mut p = String::from_str("accounts/");
        p.append(self.account_identifier);
        p.append("/email/routing/addresses/");
        p.append(self.destination_address_identifier);
        p
    }

    fn query(&self) -> (q: Option<String>) {
        None
    }

    fn body(&self) -> (b: Result<Option<RequestBody>, RequestError>) {
        Ok(None)
    }
}

/// List the destination addresses of an account.
#[derive(Debug)]
pub struct ListDestinationAddress<'a> {
    pub account_identifier: &'a str,
    pub params: ListDestinationAddressParams,
}

impl<'a> EndpointSpec for ListDestinationAddress<'a> {
    type JsonResponse = Vec<Addresses>;

    type ResponseType = ApiSuccess<Self::JsonResponse>;

    open spec fn method_spec(&self) -> Method {
        Method::GET
    }

    open spec fn path_spec(&self) -> Seq<char> {
        "accounts/"@ + self.account_identifier@ + "/email/routing/addresses"@
    }

    open spec fn query_spec(&self) -> Seq<(Seq<char>, Seq<char>)> {
        self.params.query_pairs()
    }

    open spec fn body_spec(&self) -> Option<JsonView> {
        None
    }

    fn method(&self) -> (m: Method) {
        Method::GET
    }

    fn path(&self) -> (p: String) {
        let mut p = String::from_str("accounts/");
        p.append(self.account_identifier);
        p.append("/email/routing/addresses");
        p
    }

    fn query(&self) -> (q: Option<String>) {
        serialize_query(&self.params)
    }

    fn body(&self) -> (b: Result<Option<RequestBody>, RequestError>) {
        Ok(None)
    }
}

impl<'a> ListDestinationAddress<'a> {
    /// Whether every field is absent, empty or at its default.
    pub open spec fn is_default(&self) -> bool {
        &&& self.account_identifier@ == ""@
        &&& self.params.is_default()
    }
}

impl<'a> Default for ListDestinationAddress<'a> {
    fn default() -> (r: ListDestinationAddress<'a>)
        ensures
            r.is_default(),
    {
        ListDestinationAddress {
            account_identifier: "",
            params: ListDestinationAddressParams::default(),
        }
    }
}

/// Which destination addresses are listed, and in which order.
#[derive(Clone, Debug, PartialEq, Eq)]
pub struct ListDestinationAddressParams {
    pub direction: Option<OrderDirection>,
    pub page: Option<u32>,
    pub per_page: Option<u32>,
    pub verified: Option<bool>,
}

impl QueryPayload for ListDestinationAddressParams {
    open spec fn query_pairs(&self) -> Seq<(Seq<char>, Seq<char>)> {
        Seq::<(Seq<char>, Seq<char>)>::empty()
            + optional_pair::<OrderDirection>("direction"@, self.direction)
            + optional_pair::<u32>("page"@, self.page)
            + optional_pair::<u32>("per_page"@, self.per_page)
            + optional_pair::<bool>("verified"@, self.verified)
    }

    fn to_query_pairs(&self) -> (p: Vec<(String, String)>) {
        let mut b = QueryBuilder::new();
        b.optional("direction", &self.direction);
        b.optional("page", &self.page);
        b.optional("per_page", &self.per_page);
        b.optional("verified", &self.verified);
        b.build()
    }
}

impl ListDestinationAddressParams {
    /// Whether every field is absent, empty or at its default.
    pub open spec fn is_default(&self) -> bool {
        &&& self.direction is None
        &&& self.page is None
        &&& self.per_page is None
        &&& self.verified is None
    }
}

impl Default for ListDestinationAddressParams {
    fn default() -> (r: ListDestinationAddressParams)
        ensures
            r.is_default(),
    {
        ListDestinationAddressParams { direction: None, page: None, per_page: None, verified: None }
    }
}

} // verus!
