use vstd::prelude::*;
use vstd::string::*;
use crate::framework::codec::{lemma_required_lookup, Codec};
use crate::framework::decode::{
    listed, object_rejection, optional, optional_decodes, optional_rejection, require_object,
    required, required_decodes, required_rejection, then, ApiResult, DecodeError, DecodeErrorView,
};
use crate::framework::encode::{optional_member, required_member, ObjectBuilder, ToJson};
use crate::framework::endpoint::{
    render_body, serialize_query, EndpointSpec, Method, RequestBody, RequestError,
};
use crate::framework::query::{optional_pair, QueryBuilder, QueryPayload, QueryValue};
use crate::framework::response::ApiSuccess;
use crate::framework::variant::{
    tag, tag_of, tag_rejection, text_decodes, text_from_json, text_rejection, text_to_json,
    text_to_query, unknown_tag, TextEnum,
};
use crate::framework::writable::{lemma_extend, lemma_optional_part, lemma_required_part, Writable};
use crate::framework::{OrderDirection, SearchMatch};
use crate::json::{lemma_lookup_concat, Json, JsonView};
use crate::text::str_eq;
use crate::time::Timestamp;

verus! {

/// List, search, sort, and filter your zones.
#[derive(Debug)]
pub struct ListZones {
    pub params: ListZonesParams,
}

impl EndpointSpec for ListZones {
    type JsonResponse = Vec<Zone>;

    type ResponseType = ApiSuccess<Self::JsonResponse>;

    open spec fn method_spec(&self) -> Method {
        Method::GET
    }

    open spec fn path_spec(&self) -> Seq<char> {
        "zones"@
    }

    open spec fn query_spec(&self) -> Seq<(Seq<char>, Seq<char>)> {
        self.params.query_pairs()
    }

    open spec fn body_spec(&self) -> Option<JsonView> {
        None
    }

    fn method(&self) -> (m: Method) {
        Method::GET
    }

    fn path(&self) -> (p: String) {
        String::from_str("zones")
    }

    fn query(&self) -> (q: Option<String>) {
        serialize_query(&self.params)
    }

    fn body(&self) -> (b: Result<Option<RequestBody>, RequestError>) {
        Ok(None)
    }
}

/// Zone details.
#[derive(Debug)]
pub struct ZoneDetails<'a> {
    pub identifier: &'a str,
}

impl<'a> EndpointSpec for ZoneDetails<'a> {
    type JsonResponse = Zone;

    type ResponseType = ApiSuccess<Self::JsonResponse>;

    open spec fn method_spec(&self) -> Method {
        Method::GET
    }

    open spec fn path_spec(&self) -> Seq<char> {
        "zones/"@ + self.identifier@
    }

    open spec fn query_spec(&self) -> Seq<(Seq<char>, Seq<char>)> {
        Seq::empty()
    }

    open spec fn body_spec(&self) -> Option<JsonView> {
        None
    }

    fn method(&self) -> (m: Method) {
        Method::GET
    }

    fn path(&self) -> (p: String) {
        let mut p = String::from_str("zones/");
        p.append(self.identifier);
        p
    }

    fn query(&self) -> (q: Option<String>) {
        None
    }

    fn body(&self) -> (b: Result<Option<RequestBody>, RequestError>) {
        Ok(None)
    }
}

/// Ask for a new check of a zone's activation.
#[derive(Debug)]
pub struct ZoneActivationCheck<'a> {
    pub identifier: &'a str,
}

impl<'a> EndpointSpec for ZoneActivationCheck<'a> {
    type JsonResponse = Option<ZoneIdentifier>;

    type ResponseType = ApiSuccess<Self::JsonResponse>;

    open spec fn method_spec(&self) -> Method {
        Method::PUT
    }

    open spec fn path_spec(&self) -> Seq<char> {
        "zones/"@ + self.identifier@ + "/activation_check"@
    }

    open spec fn query_spec(&self) -> Seq<(Seq<char>, Seq<char>)> {
        Seq::empty()
    }

    open spec fn body_spec(&self) -> Option<JsonView> {
        None
    }

    fn method(&self) -> (m: Method) {
        Method::PUT
    }

    fn path(&self) -> (p: String) {
        let mut p = String::from_str("zones/");
        p.append(self.identifier);
        p.append("/activation_check");
        p
    }

    fn query(&self) -> (q: Option<String>) {
        None
    }

    fn body(&self) -> (b: Result<Option<RequestBody>, RequestError>) {
        Ok(None)
    }
}

/// Add a zone.
#[derive(Debug)]
pub struct CreateZone<'a> {
    pub params: CreateZoneParams<'a>,
}

impl<'a> EndpointSpec for CreateZone<'a> {
    type JsonResponse = Option<Zone>;

    type ResponseType = ApiSuccess<Self::JsonResponse>;

    open spec fn method_spec(&self) -> Method {
        Method::POST
    }

    open spec fn path_spec(&self) -> Seq<char> {
        "zones"@
    }

    open spec fn query_spec(&self) -> Seq<(Seq<char>, Seq<char>)> {
        Seq::empty()
    }

    open spec fn body_spec(&self) -> Option<JsonView> {
        Some(self.params.json())
    }

    fn method(&self) -> (m: Method) {
        Method::POST
    }

    fn path(&self) -> (p: String) {
        String::from_str("zones")
    }

    fn query(&self) -> (q: Option<String>) {
        None
    }

    fn body(&self) -> (b: Result<Option<RequestBody>, RequestError>) {
        render_body(&self.params.to_json())
    }
}

/// What a new zone is made of.
#[derive(Clone, Debug, PartialEq, Eq)]
pub struct CreateZoneParams<'a> {
    pub name: &'a str,
    pub account: AccountParams<'a>,
    pub zone_type: Option<Type>,
}

impl<'a> ToJson for CreateZoneParams<'a> {
    open spec fn json(&self) -> JsonView {
        JsonView::Object(
            Seq::<(Seq<char>, JsonView)>::empty()
                + required_member::<&'a str>("name"@, self.name)
                + required_member::<AccountParams<'a>>("account"@, self.account)
                + optional_member::<Type>("type"@, self.zone_type),
        )
    }

    fn to_json(&self) -> (j: Json) {
        let mut b = ObjectBuilder::new();
        b.field("name", &self.name);
        b.field("account", &self.account);
        b.optional("type", &self.zone_type);
        b.build()
    }
}

impl<'a> Writable for CreateZoneParams<'a> {
    open spec fn sound(&self) -> bool {
        &&& self.name.sound()
        &&& self.account.sound()
        &&& self.zone_type matches Some(x) ==> x.sound()
    }

    proof fn lemma_writable(v: Self) {
        reveal_strlit("name");
        reveal_strlit("account");
        reveal_strlit("type");
        assert("name"@.len() == 4);
        assert("account"@.len() == 7);
        assert("type"@.len() == 4);
        assert("name"@[0] != "type"@[0]);
        let head0 = Seq::<(Seq<char>, JsonView)>::empty();
        let part0 = required_member::<&'a str>("name"@, v.name);
        lemma_required_part::<&'a str>("name"@, v.name);
        lemma_extend(head0, part0);
        let head1 = head0 + part0;
        let part1 = required_member::<AccountParams<'a>>("account"@, v.account);
        lemma_required_part::<AccountParams<'a>>("account"@, v.account);
        lemma_required_lookup::<&'a str>("name"@, v.name, "account"@);
        lemma_lookup_concat(head0, part0, "account"@);
        lemma_extend(head1, part1);
        let head2 = head1 + part1;
        let part2 = optional_member::<Type>("type"@, v.zone_type);
        lemma_optional_part::<Type>("type"@, v.zone_type);
        lemma_required_lookup::<&'a str>("name"@, v.name, "type"@);
        lemma_lookup_concat(head0, part0, "type"@);
        lemma_required_lookup::<AccountParams<'a>>("account"@, v.account, "type"@);
        lemma_lookup_concat(head1, part1, "type"@);
        lemma_extend(head2, part2);
    }
}

impl<'a> CreateZoneParams<'a> {
    /// Whether every field is absent, empty or at its default.
    pub open spec fn is_default(&self) -> bool {
        &&& self.name@ == ""@
        &&& self.account.is_default()
        &&& self.zone_type is None
    }
}

impl<'a> Default for CreateZoneParams<'a> {
    fn default() -> (r: CreateZoneParams<'a>)
        ensures
            r.is_default(),
    {
        CreateZoneParams { name: "", account: AccountParams::default(), zone_type: None }
    }
}

/// The account that a new zone belongs to.
#[derive(Clone, Debug, PartialEq, Eq)]
pub struct AccountParams<'a> {
    /// Account identifier tag.
    pub id: Option<&'a str>,
}

impl<'a> ToJson for AccountParams<'a> {
    open spec fn json(&self) -> JsonView {
        JsonView::Object(
            Seq::<(Seq<char>, JsonView)>::empty()
                + optional_member::<&'a str>("id"@, self.id),
        )
    }

    fn to_json(&self) -> (j: Json) {
        let mut b = ObjectBuilder::new();
        b.optional("id", &self.id);
        b.build()
    }
}

impl<'a> Writable for AccountParams<'a> {
    open spec fn sound(&self) -> bool {
        &&& self.id matches Some(x) ==> x.sound()
    }

    proof fn lemma_writable(v: Self) {
        reveal_strlit("id");
        let head0 = Seq::<(Seq<char>, JsonView)>::empty();
        let part0 = optional_member::<&'a str>("id"@, v.id);
        lemma_optional_part::<&'a str>("id"@, v.id);
        lemma_extend(head0, part0);
    }
}

impl<'a> AccountParams<'a> {
    /// Whether every field is absent, empty or at its default.
    pub open spec fn is_default(&self) -> bool {
        &&& self.id is None
    }
}

impl<'a> Default for AccountParams<'a> {
    fn default() -> (r: AccountParams<'a>)
        ensures
            r.is_default(),
    {
        AccountParams { id: None }
    }
}

/// Which zones are listed, and in which order.
#[derive(Clone, Debug, PartialEq, Eq)]
pub struct ListZonesParams {
    pub name: Option<String>,
    pub status: Option<Status>,
    pub page: Option<u32>,
    pub per_page: Option<u32>,
    pub order: Option<ListZonesOrder>,
    pub direction: Option<OrderDirection>,
    pub search_match: Option<SearchMatch>,
}

impl QueryPayload for ListZonesParams {
    open spec fn query_pairs(&self) -> Seq<(Seq<char>, Seq<char>)> {
        Seq::<(Seq<char>, Seq<char>)>::empty()
            + optional_pair::<String>("name"@, self.name)
            + optional_pair::<Status>("status"@, self.status)
            + optional_pair::<u32>("page"@, self.page)
            + optional_pair::<u32>("per_page"@, self.per_page)
            + optional_pair::<ListZonesOrder>("order"@, self.order)
            + optional_pair::<OrderDirection>("direction"@, self.direction)
            + optional_pair::<SearchMatch>("match"@, self.search_match)
    }

    fn to_query_pairs(&self) -> (p: Vec<(String, String)>) {
        let mut b = QueryBuilder::new();
        b.optional("name", &self.name);
        b.optional("status", &self.status);
        b.optional("page", &self.page);
        b.optional("per_page", &self.per_page);
        b.optional("order", &self.order);
        b.optional("direction", &self.direction);
        b.optional("match", &self.search_match);
        b.build()
    }
}

impl ListZonesParams {
    /// Whether every field is absent, empty or at its default.
    pub open spec fn is_default(&self) -> bool {
        &&& self.name is None
        &&& self.status is None
        &&& self.page is None
        &&& self.per_page is None
        &&& self.order is None
        &&& self.direction is None
        &&& self.search_match is None
    }
}

impl Default for ListZonesParams {
    fn default() -> (r: ListZonesParams)
        ensures
            r.is_default(),
    {
        ListZonesParams {
            name: None,
            status: None,
            page: None,
            per_page: None,
            order: None,
            direction: None,
            search_match: None,
        }
    }
}

/// The field by which the zones are ordered.
#[derive(Clone, Copy, Debug, PartialEq, Eq, Structural)]
pub enum ListZonesOrder {
    Name,
    Status,
    Email,
}

impl TextEnum for ListZonesOrder {
    open spec fn text(&self) -> Seq<char> {
        match self {
            ListZonesOrder::Name => "name"@,
            ListZonesOrder::Status => "status"@,
            ListZonesOrder::Email => "email"@,
        }
    }

    open spec fn named(t: Seq<char>) -> Option<Self> {
        if t == "name"@ {
            Some(ListZonesOrder::Name)
        } else if t == "status"@ {
            Some(ListZonesOrder::Status)
        } else if t == "email"@ {
            Some(ListZonesOrder::Email)
        } else {
            None
        }
    }

    fn as_str(&self) -> (s: &'static str) {
        match self {
            ListZonesOrder::Name => "name",
            ListZonesOrder::Status => "status",
            ListZonesOrder::Email => "email",
        }
    }

    fn from_text(t: &str) -> (r: Option<Self>) {
        if str_eq(t, "name") {
            Some(ListZonesOrder::Name)
        } else if str_eq(t, "status") {
            Some(ListZonesOrder::Status)
        } else if str_eq(t, "email") {
            Some(ListZonesOrder::Email)
        } else {
            None
        }
    }

    proof fn lemma_named_text(v: Self) {
        reveal_strlit("name");
        reveal_strlit("status");
        reveal_strlit("email");
        assert("name"@.len() == 4);
        assert("status"@.len() == 6);
        assert("email"@.len() == 5);
    }
}

impl ToJson for ListZonesOrder {
    open spec fn json(&self) -> JsonView {
        JsonView::Text(self.text())
    }

    fn to_json(&self) -> (j: Json) {
        text_to_json(self)
    }
}

impl QueryValue for ListZonesOrder {
    open spec fn query_value(&self) -> Seq<char> {
        self.text()
    }

    fn to_query_value(&self) -> (s: String) {
        text_to_query(self)
    }
}

impl Writable for ListZonesOrder {
    open spec fn sound(&self) -> bool {
        true
    }

    proof fn lemma_writable(v: Self) {
    }
}

/// The state of a zone.
#[derive(Clone, Copy, Debug, PartialEq, Eq, Structural)]
pub enum Status {
    Active,
    Pending,
    Initializing,
    Moved,
    Deleted,
    Deactivated,
}

impl TextEnum for Status {
    open spec fn text(&self) -> Seq<char> {
        match self {
            Status::Active => "active"@,
            Status::Pending => "pending"@,
            Status::Initializing => "initializing"@,
            Status::Moved => "moved"@,
            Status::Deleted => "deleted"@,
            Status::Deactivated => "deactivated"@,
        }
    }

    open spec fn named(t: Seq<char>) -> Option<Self> {
        if t == "active"@ {
            Some(Status::Active)
        } else if t == "pending"@ {
            Some(Status::Pending)
        } else if t == "initializing"@ {
            Some(Status::Initializing)
        } else if t == "moved"@ {
            Some(Status::Moved)
        } else if t == "deleted"@ {
            Some(Status::Deleted)
        } else if t == "deactivated"@ {
            Some(Status::Deactivated)
        } else {
            None
        }
    }

    fn as_str(&self) -> (s: &'static str) {
        match self {
            Status::Active => "active",
            Status::Pending => "pending",
            Status::Initializing => "initializing",
            Status::Moved => "moved",
            Status::Deleted => "deleted",
            Status::Deactivated => "deactivated",
        }
    }

    fn from_text(t: &str) -> (r: Option<Self>) {
        if str_eq(t, "active") {
            Some(Status::Active)
        } else if str_eq(t, "pending") {
            Some(Status::Pending)
        } else if str_eq(t, "initializing") {
            Some(Status::Initializing)
        } else if str_eq(t, "moved") {
            Some(Status::Moved)
        } else if str_eq(t, "deleted") {
            Some(Status::Deleted)
        } else if str_eq(t, "deactivated") {
            Some(Status::Deactivated)
        } else {
            None
        }
    }

    proof fn lemma_named_text(v: Self) {
        reveal_strlit("active");
        reveal_strlit("pending");
        reveal_strlit("initializing");
        reveal_strlit("moved");
        reveal_strlit("deleted");
        reveal_strlit("deactivated");
        assert("active"@.len() == 6);
        assert("pending"@.len() == 7);
        assert("initializing"@.len() == 12);
        assert("moved"@.len() == 5);
        assert("deleted"@.len() == 7);
        assert("deactivated"@.len() == 11);
        assert("pending"@[0] != "deleted"@[0]);
    }
}

impl ToJson for Status {
    open spec fn json(&self) -> JsonView {
        JsonView::Text(self.text())
    }

    fn to_json(&self) -> (j: Json) {
        text_to_json(self)
    }
}

impl QueryValue for Status {
    open spec fn query_value(&self) -> Seq<char> {
        self.text()
    }

    fn to_query_value(&self) -> (s: String) {
        text_to_query(self)
    }
}

impl ApiResult for Status {
    open spec fn rejection(j: JsonView) -> Option<DecodeErrorView> {
        text_rejection::<Status>(j)
    }

    open spec fn decodes(j: JsonView, v: Self) -> bool {
        text_decodes::<Status>(j, v)
    }

    fn from_json(j: &Json) -> (r: Result<Self, DecodeError>) {
        text_from_json::<Status>(j)
    }
}

impl Writable for Status {
    open spec fn sound(&self) -> bool {
        true
    }

    proof fn lemma_writable(v: Self) {
    }
}

impl Codec for Status {
    proof fn lemma_round_trip(v: Self) {
        Self::lemma_named_text(v);
    }
}

/// Who owns a zone: a user or an organization, told apart by `type`.
#[derive(Debug, PartialEq, Eq)]
pub enum Owner {
    User { id: Option<String>, email: Option<String> },
    Organization { id: Option<String>, name: Option<String> },
}

impl ApiResult for Owner {
    open spec fn rejection(j: JsonView) -> Option<DecodeErrorView> {
        let t = tag_of(j, "type"@);
        if tag_rejection(j, "type"@) is Some {
            tag_rejection(j, "type"@)
        } else if t == "user"@ {
            then(optional_rejection::<String>(j, "id"@), optional_rejection::<String>(j, "email"@))
        } else if t == "organization"@ {
            then(optional_rejection::<String>(j, "id"@), optional_rejection::<String>(j, "name"@))
        } else {
            Some(unknown_tag(j, "type"@))
        }
    }

    open spec fn decodes(j: JsonView, v: Self) -> bool {
        match v {
            Owner::User { id, email } => {
                &&& tag_of(j, "type"@) == "user"@
                &&& optional_decodes::<String>(j, "id"@, id)
                &&& optional_decodes::<String>(j, "email"@, email)
            },
            Owner::Organization { id, name } => {
                &&& tag_of(j, "type"@) == "organization"@
                &&& optional_decodes::<String>(j, "id"@, id)
                &&& optional_decodes::<String>(j, "name"@, name)
            },
        }
    }

    fn from_json(j: &Json) -> (r: Result<Self, DecodeError>) {
        let t = match tag(j, "type") {
            Ok(t) => t,
            Err(e) => {
                return Err(e);
            },
        };
        let t = t.as_str();
        if str_eq(t, "user") {
            let id = match optional::<String>(j, "id") {
                Ok(v) => v,
                Err(e) => {
                    return Err(e);
                },
            };
            let email = match optional::<String>(j, "email") {
                Ok(v) => v,
                Err(e) => {
                    return Err(e);
                },
            };
            Ok(Owner::User { id, email })
        } else if str_eq(t, "organization") {
            let id = match optional::<String>(j, "id") {
                Ok(v) => v,
                Err(e) => {
                    return Err(e);
                },
            };
            let name = match optional::<String>(j, "name") {
                Ok(v) => v,
                Err(e) => {
                    return Err(e);
                },
            };
            Ok(Owner::Organization { id, name })
        } else {
            Err(DecodeError::UnknownDiscriminator(Json::Text(String::from_str(t))))
        }
    }
}

/// Whether the DNS of a zone is hosted with the service in full or in part.
#[derive(Clone, Copy, Debug, PartialEq, Eq, Structural)]
pub enum Type {
    Full,
    Partial,
}

impl TextEnum for Type {
    open spec fn text(&self) -> Seq<char> {
        match self {
            Type::Full => "full"@,
            Type::Partial => "partial"@,
        }
    }

    open spec fn named(t: Seq<char>) -> Option<Self> {
        if t == "full"@ {
            Some(Type::Full)
        } else if t == "partial"@ {
            Some(Type::Partial)
        } else {
            None
        }
    }

    fn as_str(&self) -> (s: &'static str) {
        match self {
            Type::Full => "full",
            Type::Partial => "partial",
        }
    }

    fn from_text(t: &str) -> (r: Option<Self>) {
        if str_eq(t, "full") {
            Some(Type::Full)
        } else if str_eq(t, "partial") {
            Some(Type::Partial)
        } else {
            None
        }
    }

    proof fn lemma_named_text(v: Self) {
        reveal_strlit("full");
        reveal_strlit("partial");
        assert("full"@.len() == 4);
        assert("partial"@.len() == 7);
    }
}

impl ToJson for Type {
    open spec fn json(&self) -> JsonView {
        JsonView::Text(self.text())
    }

    fn to_json(&self) -> (j: Json) {
        text_to_json(self)
    }
}

impl ApiResult for Type {
    open spec fn rejection(j: JsonView) -> Option<DecodeErrorView> {
        text_rejection::<Type>(j)
    }

    open spec fn decodes(j: JsonView, v: Self) -> bool {
        text_decodes::<Type>(j, v)
    }

    fn from_json(j: &Json) -> (r: Result<Self, DecodeError>) {
        text_from_json::<Type>(j)
    }
}

impl Writable for Type {
    open spec fn sound(&self) -> bool {
        true
    }

    proof fn lemma_writable(v: Self) {
    }
}

impl Codec for Type {
    proof fn lemma_round_trip(v: Self) {
        Self::lemma_named_text(v);
    }
}

/// The hosting partner through which a zone signed up.
#[derive(Debug, PartialEq, Eq)]
pub struct HostingPartner {
    /// Host company name
    pub name: String,
    /// The host's website URL
    pub website: String,
}

impl ApiResult for HostingPartner {
    open spec fn rejection(j: JsonView) -> Option<DecodeErrorView> {
        let e = object_rejection(j);
        let e = then(e, required_rejection::<String>(j, "name"@));
        let e = then(e, required_rejection::<String>(j, "website"@));
        e
    }

    open spec fn decodes(j: JsonView, v: Self) -> bool {
        &&& required_decodes::<String>(j, "name"@, v.name)
        &&& required_decodes::<String>(j, "website"@, v.website)
    }

    fn from_json(j: &Json) -> (r: Result<Self, DecodeError>) {
        match require_object(j) {
            Ok(_) => {},
            Err(e) => {
                return Err(e);
            },
        }
        let name = match required::<String>(j, "name") {
            Ok(v) => v,
            Err(e) => {
                return Err(e);
            },
        };
        let website = match required::<String>(j, "website") {
            Ok(v) => v,
            Err(e) => {
                return Err(e);
            },
        };
        Ok(HostingPartner { name, website })
    }
}

/// Metadata about a zone.
#[derive(Debug, PartialEq, Eq)]
pub struct Meta {
    /// Maximum custom certificates that can be uploaded/used.
    pub custom_certificate_quota: u32,
    /// Maximum page rules that can be created.
    pub page_rule_quota: u32,
    /// Indicates if URLs on the zone have been identified as hosting phishing content.
    pub phishing_detected: bool,
}

impl ApiResult for Meta {
    open spec fn rejection(j: JsonView) -> Option<DecodeErrorView> {
        let e = object_rejection(j);
        let e = then(e, required_rejection::<u32>(j, "custom_certificate_quota"@));
        let e = then(e, required_rejection::<u32>(j, "page_rule_quota"@));
        let e = then(e, required_rejection::<bool>(j, "phishing_detected"@));
        e
    }

    open spec fn decodes(j: JsonView, v: Self) -> bool {
        &&& required_decodes::<u32>(j, "custom_certificate_quota"@, v.custom_certificate_quota)
        &&& required_decodes::<u32>(j, "page_rule_quota"@, v.page_rule_quota)
        &&& required_decodes::<bool>(j, "phishing_detected"@, v.phishing_detected)
    }

    fn from_json(j: &Json) -> (r: Result<Self, DecodeError>) {
        match require_object(j) {
            Ok(_) => {},
            Err(e) => {
                return Err(e);
            },
        }
        let custom_certificate_quota = match required::<u32>(j, "custom_certificate_quota") {
            Ok(v) => v,
            Err(e) => {
                return Err(e);
            },
        };
        let page_rule_quota = match required::<u32>(j, "page_rule_quota") {
            Ok(v) => v,
            Err(e) => {
                return Err(e);
            },
        };
        let phishing_detected = match required::<bool>(j, "phishing_detected") {
            Ok(v) => v,
            Err(e) => {
                return Err(e);
            },
        };
        Ok(Meta { custom_certificate_quota, page_rule_quota, phishing_detected })
    }
}

/// A Zone is a domain name along with its subdomains and other identities
#[derive(Debug, PartialEq, Eq)]
pub struct Zone {
    /// Zone identifier tag
    pub id: String,
    /// The domain name
    pub name: String,
    /// Information about the account the zone belongs to, as the response holds it
    pub account: Json,
    /// The last time proof of ownership was detected and the zone was made active
    pub activated_on: Option<Timestamp>,
    /// A list of beta features in which the zone is participating
    pub betas: Option<Vec<String>>,
    /// When the zone was created
    pub created_on: Timestamp,
    /// Exists only with a deactivated status and indicates the reason the zone is not resolving on
    /// the Cloudflare network.
    pub deactivation_reason: Option<String>,
    /// The interval (in seconds) from when development mode expires (positive integer) or last
    /// expired (negative integer) for the domain. If development mode has never been enabled, this
    /// value is 0.
    pub development_mode: i32,
    /// Hosting partner information, if the zone signed up via a Cloudflare hosting partner
    pub host: Option<HostingPartner>,
    /// Metadata about the domain.
    pub meta: Meta,
    /// When the zone was last modified
    pub modified_on: Timestamp,
    /// Cloudflare-assigned name servers. This is only populated for zones that use Cloudflare DNS
    pub name_servers: Vec<String>,
    /// DNS host at the time of switching to Cloudflare
    pub original_dnshost: Option<String>,
    /// Original name servers before moving to Cloudflare
    pub original_name_servers: Option<Vec<String>>,
    /// Registrar for the domain at the time of switching to Cloudflare
    pub original_registrar: Option<String>,
    /// Information about the owner of the zone
    pub owner: Owner,
    /// Indicates if the zone is only using Cloudflare DNS services. A true value means the zone
    /// will not receive security or performance benefits.
    pub paused: bool,
    /// Available permissions on the zone for the current user requesting the item
    pub permissions: Vec<String>,
    /// A zone plan, as the response holds it
    pub plan: Option<Json>,
    /// A zone plan, as the response holds it
    pub plan_pending: Option<Json>,
    /// Status of the zone
    pub status: Status,
    /// An array of domains used for custom name servers. This is only available for Business and
    /// Enterprise plans.
    pub vanity_name_servers: Option<Vec<String>>,
    /// A full zone implies that DNS is hosted with Cloudflare. A partial zone is typically a
    /// partner-hosted zone or a CNAME setup.
    pub zone_type: Type,
}

impl ApiResult for Zone {
    open spec fn rejection(j: JsonView) -> Option<DecodeErrorView> {
        let e = object_rejection(j);
        let e = then(e, required_rejection::<String>(j, "id"@));
        let e = then(e, required_rejection::<String>(j, "name"@));
        let e = then(e, required_rejection::<Json>(j, "account"@));
        let e = then(e, optional_rejection::<Timestamp>(j, "activated_on"@));
        let e = then(e, optional_rejection::<Vec<String>>(j, "betas"@));
        let e = then(e, required_rejection::<Timestamp>(j, "created_on"@));
        let e = then(e, optional_rejection::<String>(j, "deactivation_reason"@));
        let e = then(e, required_rejection::<i32>(j, "development_mode"@));
        let e = then(e, optional_rejection::<HostingPartner>(j, "host"@));
        let e = then(e, required_rejection::<Meta>(j, "meta"@));
        let e = then(e, required_rejection::<Timestamp>(j, "modified_on"@));
        let e = then(e, required_rejection::<Vec<String>>(j, "name_servers"@));
        let e = then(e, optional_rejection::<String>(j, "original_dnshost"@));
        let e = then(e, optional_rejection::<Vec<String>>(j, "original_name_servers"@));
        let e = then(e, optional_rejection::<String>(j, "original_registrar"@));
        let e = then(e, required_rejection::<Owner>(j, "owner"@));
        let e = then(e, required_rejection::<bool>(j, "paused"@));
        let e = then(e, required_rejection::<Vec<String>>(j, "permissions"@));
        let e = then(e, optional_rejection::<Json>(j, "plan"@));
        let e = then(e, optional_rejection::<Json>(j, "plan_pending"@));
        let e = then(e, required_rejection::<Status>(j, "status"@));
        let e = then(e, optional_rejection::<Vec<String>>(j, "vanity_name_servers"@));
        let e = then(e, required_rejection::<Type>(j, "type"@));
        e
    }

    open spec fn decodes(j: JsonView, v: Self) -> bool {
        &&& required_decodes::<String>(j, "id"@, v.id)
        &&& required_decodes::<String>(j, "name"@, v.name)
        &&& required_decodes::<Json>(j, "account"@, v.account)
        &&& optional_decodes::<Timestamp>(j, "activated_on"@, v.activated_on)
        &&& optional_decodes::<Vec<String>>(j, "betas"@, v.betas)
        &&& required_decodes::<Timestamp>(j, "created_on"@, v.created_on)
        &&& optional_decodes::<String>(j, "deactivation_reason"@, v.deactivation_reason)
        &&& required_decodes::<i32>(j, "development_mode"@, v.development_mode)
        &&& optional_decodes::<HostingPartner>(j, "host"@, v.host)
        &&& required_decodes::<Meta>(j, "meta"@, v.meta)
        &&& required_decodes::<Timestamp>(j, "modified_on"@, v.modified_on)
        &&& required_decodes::<Vec<String>>(j, "name_servers"@, v.name_servers)
        &&& optional_decodes::<String>(j, "original_dnshost"@, v.original_dnshost)
        &&& optional_decodes::<Vec<String>>(j, "original_name_servers"@, v.original_name_servers)
        &&& optional_decodes::<String>(j, "original_registrar"@, v.original_registrar)
        &&& required_decodes::<Owner>(j, "owner"@, v.owner)
        &&& required_decodes::<bool>(j, "paused"@, v.paused)
        &&& required_decodes::<Vec<String>>(j, "permissions"@, v.permissions)
        &&& optional_decodes::<Json>(j, "plan"@, v.plan)
        &&& optional_decodes::<Json>(j, "plan_pending"@, v.plan_pending)
        &&& required_decodes::<Status>(j, "status"@, v.status)
        &&& optional_decodes::<Vec<String>>(j, "vanity_name_servers"@, v.vanity_name_servers)
        &&& required_decodes::<Type>(j, "type"@, v.zone_type)
    }

    fn from_json(j: &Json) -> (r: Result<Self, DecodeError>) {
        match require_object(j) {
            Ok(_) => {},
            Err(e) => {
                return Err(e);
            },
        }
        let id = match required::<String>(j, "id") {
            Ok(v) => v,
            Err(e) => {
                return Err(e);
            },
        };
        let name = match required::<String>(j, "name") {
            Ok(v) => v,
            Err(e) => {
                return Err(e);
            },
        };
        let account = match required::<Json>(j, "account") {
            Ok(v) => v,
            Err(e) => {
                return Err(e);
            },
        };
        let activated_on = match optional::<Timestamp>(j, "activated_on") {
            Ok(v) => v,
            Err(e) => {
                return Err(e);
            },
        };
        let betas = match optional::<Vec<String>>(j, "betas") {
            Ok(v) => v,
            Err(e) => {
                return Err(e);
            },
        };
        let created_on = match required::<Timestamp>(j, "created_on") {
            Ok(v) => v,
            Err(e) => {
                return Err(e);
            },
        };
        let deactivation_reason = match optional::<String>(j, "deactivation_reason") {
            Ok(v) => v,
            Err(e) => {
                return Err(e);
            },
        };
        let development_mode = match required::<i32>(j, "development_mode") {
            Ok(v) => v,
            Err(e) => {
                return Err(e);
            },
        };
        let host = match optional::<HostingPartner>(j, "host") {
            Ok(v) => v,
            Err(e) => {
                return Err(e);
            },
        };
        let meta = match required::<Meta>(j, "meta") {
            Ok(v) => v,
            Err(e) => {
                return Err(e);
            },
        };
        let modified_on = match required::<Timestamp>(j, "modified_on") {
            Ok(v) => v,
            Err(e) => {
                return Err(e);
            },
        };
        let name_servers = match required::<Vec<String>>(j, "name_servers") {
            Ok(v) => v,
            Err(e) => {
                return Err(e);
            },
        };
        let original_dnshost = match optional::<String>(j, "original_dnshost") {
            Ok(v) => v,
            Err(e) => {
                return Err(e);
            },
        };
        let original_name_servers = match optional::<Vec<String>>(j, "original_name_servers") {
            Ok(v) => v,
            Err(e) => {
                return Err(e);
            },
        };
        let original_registrar = match optional::<String>(j, "original_registrar") {
            Ok(v) => v,
            Err(e) => {
                return Err(e);
            },
        };
        let owner = match required::<Owner>(j, "owner") {
            Ok(v) => v,
            Err(e) => {
                return Err(e);
            },
        };
        let paused = match required::<bool>(j, "paused") {
            Ok(v) => v,
            Err(e) => {
                return Err(e);
            },
        };
        let permissions = match required::<Vec<String>>(j, "permissions") {
            Ok(v) => v,
            Err(e) => {
                return Err(e);
            },
        };
        let plan = match optional::<Json>(j, "plan") {
            Ok(v) => v,
            Err(e) => {
                return Err(e);
            },
        };
        let plan_pending = match optional::<Json>(j, "plan_pending") {
            Ok(v) => v,
            Err(e) => {
                return Err(e);
            },
        };
        let status = match required::<Status>(j, "status") {
            Ok(v) => v,
            Err(e) => {
                return Err(e);
            },
        };
        let vanity_name_servers = match optional::<Vec<String>>(j, "vanity_name_servers") {
            Ok(v) => v,
            Err(e) => {
                return Err(e);
            },
        };
        let zone_type = match required::<Type>(j, "type") {
            Ok(v) => v,
            Err(e) => {
                return Err(e);
            },
        };
        Ok(
            Zone {
                id,
                name,
                account,
                activated_on,
                betas,
                created_on,
                deactivation_reason,
                development_mode,
                host,
                meta,
                modified_on,
                name_servers,
                original_dnshost,
                original_name_servers,
                original_registrar,
                owner,
                paused,
                permissions,
                plan,
                plan_pending,
                status,
                vanity_name_servers,
                zone_type,
            },
        )
    }
}

/// The identifier of a zone.
#[derive(Debug, PartialEq, Eq)]
pub struct ZoneIdentifier {
    pub id: Option<String>,
}

impl ApiResult for ZoneIdentifier {
    open spec fn rejection(j: JsonView) -> Option<DecodeErrorView> {
        let e = object_rejection(j);
        let e = then(e, optional_rejection::<String>(j, "id"@));
        e
    }

    open spec fn decodes(j: JsonView, v: Self) -> bool {
        &&& optional_decodes::<String>(j, "id"@, v.id)
    }

    fn from_json(j: &Json) -> (r: Result<Self, DecodeError>) {
        match require_object(j) {
            Ok(_) => {},
            Err(e) => {
                return Err(e);
            },
        }
        let id = match optional::<String>(j, "id") {
            Ok(v) => v,
            Err(e) => {
                return Err(e);
            },
        };
        Ok(ZoneIdentifier { id })
    }
}

/// Delete a zone.
pub struct DeleteZone<'a> {
    pub zone_identifier: &'a str,
}

impl<'a> EndpointSpec for DeleteZone<'a> {
    type JsonResponse = DeleteZoneResponse;

    type ResponseType = ApiSuccess<Self::JsonResponse>;

    open spec fn method_spec(&self) -> Method {
        Method::DELETE
    }

    open spec fn path_spec(&self) -> Seq<char> {
        "zones/"@ + self.zone_identifier@
    }

    open spec fn query_spec(&self) -> Seq<(Seq<char>, Seq<char>)> {
        Seq::empty()
    }

    open spec fn body_spec(&self) -> Option<JsonView> {
        None
    }

    fn method(&self) -> (m: Method) {
        Method::DELETE
    }

    fn path(&self) -> (p: String) {
        let mut p = String::from_str("zones/");
        p.append(self.zone_identifier);
        p
    }

    fn query(&self) -> (q: Option<String>) {
        None
    }

    fn body(&self) -> (b: Result<Option<RequestBody>, RequestError>) {
        Ok(None)
    }
}

/// What deleting a zone hands back: the identifier of what was deleted.
#[derive(Debug, PartialEq, Eq)]
pub struct DeleteZoneResponse {
    pub id: String,
}

impl ApiResult for DeleteZoneResponse {
    open spec fn rejection(j: JsonView) -> Option<DecodeErrorView> {
        let e = object_rejection(j);
        let e = then(e, required_rejection::<String>(j, "id"@));
        e
    }

    open spec fn decodes(j: JsonView, v: Self) -> bool {
        &&& required_decodes::<String>(j, "id"@, v.id)
    }

    fn from_json(j: &Json) -> (r: Result<Self, DecodeError>) {
        match require_object(j) {
            Ok(_) => {},
            Err(e) => {
                return Err(e);
            },
        }
        let id = match required::<String>(j, "id") {
            Ok(v) => v,
            Err(e) => {
                return Err(e);
            },
        };
        Ok(DeleteZoneResponse { id })
    }
}

} // verus!
