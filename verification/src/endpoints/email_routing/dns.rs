use vstd::prelude::*;
use vstd::string::*;
use crate::endpoints::email_routing::routing::RoutingSettings;
use crate::framework::decode::{
    lemma_known_members, lemma_unknown_is_found, only_rejection, require_only, object_rejection,
    optional, optional_decodes, optional_rejection, require_object, required, required_decodes,
    required_rejection, then, ApiResult, DecodeError, DecodeErrorView,
};
use crate::framework::encode::{required_member, ObjectBuilder, ToJson};
use crate::framework::endpoint::{
    render_body, serialize_query, EndpointSpec, Method, RequestBody, RequestError,
};
use crate::framework::query::{required_pair, QueryBuilder, QueryPayload};
use crate::framework::response::ApiSuccess;
use crate::framework::writable::{lemma_extend, lemma_required_part, Writable};
use crate::json::{member, Json, JsonView};

verus! {

/// Enable email routing for a zone.
#[derive(Debug)]
pub struct EnableEmailRouting<'a> {
    pub zone_identifier: &'a str,
    pub params: EnableEmailRoutingParams,
}

impl<'a> EndpointSpec for EnableEmailRouting<'a> {
    type JsonResponse = RoutingSettings;

    type ResponseType = ApiSuccess<Self::JsonResponse>;

    open spec fn method_spec(&self) -> Method {
        Method::POST
    }

    open spec fn path_spec(&self) -> Seq<char> {
        "zones/"@ + self.zone_identifier@ + "/email/routing/dns"@
    }

    open spec fn query_spec(&self) -> Seq<(Seq<char>, Seq<char>)> {
        Seq::empty()
    }

    open spec fn body_spec(&self) -> Option<JsonView> {
        Some(self.params.json())
    }

    fn method(&self) -> (m: Method) {
        Method::POST
    }

    fn path(&self) -> (p: String) {
        let mut p = String::from_str("zones/");
        p.append(self.zone_identifier);
        p.append("/email/routing/dns");
        p
    }

    fn query(&self) -> (q: Option<String>) {
        None
    }

    fn body(&self) -> (b: Result<Option<RequestBody>, RequestError>) {
        render_body(&self.params.to_json())
    }
}

/// The domain for which email routing is switched on.
#[derive(Clone, Debug, PartialEq, Eq)]
pub struct EnableEmailRoutingParams {
    pub domain: String,
}

impl ToJson for EnableEmailRoutingParams {
    open spec fn json(&self) -> JsonView {
        JsonView::Object(
            Seq::<(Seq<char>, JsonView)>::empty()
                + required_member::<String>("domain"@, self.domain),
        )
    }

    fn to_json(&self) -> (j: Json) {
        let mut b = ObjectBuilder::new();
        b.field("domain", &self.domain);
        b.build()
    }
}

impl Writable for EnableEmailRoutingParams {
    open spec fn sound(&self) -> bool {
        &&& self.domain.sound()
    }

    proof fn lemma_writable(v: Self) {
        reveal_strlit("domain");
        let head0 = Seq::<(Seq<char>, JsonView)>::empty();
        let part0 = required_member::<String>("domain"@, v.domain);
        lemma_required_part::<String>("domain"@, v.domain);
        lemma_extend(head0, part0);
    }
}

/// Disable email routing for a zone.
#[derive(Debug)]
pub struct DisableEmailRouting<'a> {
    pub zone_identifier: &'a str,
    pub destination_address_identifier: &'a str,
}

impl<'a> EndpointSpec for DisableEmailRouting<'a> {
    type JsonResponse = Vec<RoutingDnsRecord>;

    type ResponseType = ApiSuccess<Self::JsonResponse>;

    open spec fn method_spec(&self) -> Method {
        Method::DELETE
    }

    open spec fn path_spec(&self) -> Seq<char> {
        "zones/"@ + self.zone_identifier@ + "/email/routing/dns"@
    }

    open spec fn query_spec(&self) -> Seq<(Seq<char>, Seq<char>)> {
        Seq::empty()
    }

    open spec fn body_spec(&self) -> Option<JsonView> {
        None
    }

    fn method(&self) -> (m: Method) {
        Method::DELETE
    }

    fn path(&self) -> (p: String) {
        let mut p = String::from_str("zones/");
        p.append(self.zone_identifier);
        p.append("/email/routing/dns");
        p
    }

    fn query(&self) -> (q: Option<String>) {
        None
    }

    fn body(&self) -> (b: Result<Option<RequestBody>, RequestError>) {
        Ok(None)
    }
}

/// Unlock the DNS records of email routing.
#[derive(Debug)]
pub struct UnlockEmailRouting<'a> {
    pub zone_identifier: &'a str,
    pub params: UnlockEmailRoutingParams,
}

impl<'a> EndpointSpec for UnlockEmailRouting<'a> {
    type JsonResponse = RoutingSettings;

    type ResponseType = ApiSuccess<Self::JsonResponse>;

    open spec fn method_spec(&self) -> Method {
        Method::PATCH
    }

    open spec fn path_spec(&self) -> Seq<char> {
        "zones/"@ + self.zone_identifier@ + "/email/routing/dns"@
    }

    open spec fn query_spec(&self) -> Seq<(Seq<char>, Seq<char>)> {
        Seq::empty()
    }

    open spec fn body_spec(&self) -> Option<JsonView> {
        Some(self.params.json())
    }

    fn method(&self) -> (m: Method) {
        Method::PATCH
    }

    fn path(&self) -> (p: String) {
        let mut p = String::from_str("zones/");
        p.append(self.zone_identifier);
        p.append("/email/routing/dns");
        p
    }

    fn query(&self) -> (q: Option<String>) {
        None
    }

    fn body(&self) -> (b: Result<Option<RequestBody>, RequestError>) {
        render_body(&self.params.to_json())
    }
}

/// The domain whose DNS records are unlocked.
#[derive(Debug, PartialEq, Eq)]
pub struct UnlockEmailRoutingParams {
    pub name: String,
}

impl ToJson for UnlockEmailRoutingParams {
    open spec fn json(&self) -> JsonView {
        JsonView::Object(
            Seq::<(Seq<char>, JsonView)>::empty()
                + required_member::<String>("name"@, self.name),
        )
    }

    fn to_json(&self) -> (j: Json) {
        let mut b = ObjectBuilder::new();
        b.field("name", &self.name);
        b.build()
    }
}

impl Writable for UnlockEmailRoutingParams {
    open spec fn sound(&self) -> bool {
        &&& self.name.sound()
    }

    proof fn lemma_writable(v: Self) {
        reveal_strlit("name");
        let head0 = Seq::<(Seq<char>, JsonView)>::empty();
        let part0 = required_member::<String>("name"@, v.name);
        lemma_required_part::<String>("name"@, v.name);
        lemma_extend(head0, part0);
    }
}

impl UnlockEmailRoutingParams {
    /// Whether every field is absent, empty or at its default.
    pub open spec fn is_default(&self) -> bool {
        &&& self.name@.len() == 0
    }
}

impl Default for UnlockEmailRoutingParams {
    fn default() -> (r: UnlockEmailRoutingParams)
        ensures
            r.is_default(),
    {
        UnlockEmailRoutingParams { name: String::new() }
    }
}

/// Get the DNS records that email routing needs.
#[derive(Debug)]
pub struct EmailRoutingSetting<'a> {
    pub zone_identifier: &'a str,
    pub params: EmailRoutingSettingParams,
}

impl<'a> EndpointSpec for EmailRoutingSetting<'a> {
    type JsonResponse = RoutingSettingUnion;

    type ResponseType = ApiSuccess<Self::JsonResponse>;

    open spec fn method_spec(&self) -> Method {
        Method::GET
    }

    open spec fn path_spec(&self) -> Seq<char> {
        "zones/"@ + self.zone_identifier@ + "/email/routing/dns"@
    }

    open spec fn query_spec(&self) -> Seq<(Seq<char>, Seq<char>)> {
        self.params.query_pairs()
    }

    open spec fn body_spec(&self) -> Option<JsonView> {
        None
    }

    fn method(&self) -> (m: Method) {
        Method::GET
    }

    fn path(&self) -> (p: String) {
        let mut p = String::from_str("zones/");
        p.append(self.zone_identifier);
        p.append("/email/routing/dns");
        p
    }

    fn query(&self) -> (q: Option<String>) {
        serialize_query(&self.params)
    }

    fn body(&self) -> (b: Result<Option<RequestBody>, RequestError>) {
        Ok(None)
    }
}

impl<'a> EmailRoutingSetting<'a> {
    /// Whether every field is absent, empty or at its default.
    pub open spec fn is_default(&self) -> bool {
        &&& self.zone_identifier@ == ""@
        &&& self.params.is_default()
    }
}

impl<'a> Default for EmailRoutingSetting<'a> {
    fn default() -> (r: EmailRoutingSetting<'a>)
        ensures
            r.is_default(),
    {
        EmailRoutingSetting { zone_identifier: "", params: EmailRoutingSettingParams::default() }
    }
}

/// What the routing settings of a zone's DNS hold: the records alone, or the records
/// together with what is wrong with them. The response says which by its shape: a
/// list is the first, an object with the members `record` and `errors` and no other
/// member is the second. The shapes do not overlap, as no list is an object.
#[derive(Debug, PartialEq, Eq)]
pub enum RoutingSettingUnion {
    Records(Vec<RoutingDnsRecord>),
    ErrorRecords { record: Vec<RoutingDnsRecord>, errors: Vec<RoutingRecordError> },
}

impl RoutingSettingUnion {
    /// Why `j` is not of the second shape.
    pub open spec fn error_records_rejection(j: JsonView) -> Option<DecodeErrorView> {
        let e = object_rejection(j);
        let e = then(e, only_rejection(j, "record"@, "errors"@));
        let e = then(e, required_rejection::<Vec<RoutingDnsRecord>>(j, "record"@));
        let e = then(e, required_rejection::<Vec<RoutingRecordError>>(j, "errors"@));
        e
    }

    fn error_records(j: &Json) -> (r: Result<RoutingSettingUnion, DecodeError>)
        ensures
            match r {
                Ok(v) => {
                    &&& Self::error_records_rejection(j@) is None
                    &&& v matches RoutingSettingUnion::ErrorRecords { record, errors }
                    &&& required_decodes::<Vec<RoutingDnsRecord>>(j@, "record"@, record)
                    &&& required_decodes::<Vec<RoutingRecordError>>(j@, "errors"@, errors)
                },
                Err(e) => Self::error_records_rejection(j@) == Some(e@),
            },
    {
        match require_object(j) {
            Ok(_) => {},
            Err(e) => {
                return Err(e);
            },
        }
        match require_only(j, "record", "errors") {
            Ok(_) => {},
            Err(e) => {
                return Err(e);
            },
        }
        let record = match required::<Vec<RoutingDnsRecord>>(j, "record") {
            Ok(v) => v,
            Err(e) => {
                return Err(e);
            },
        };
        let errors = match required::<Vec<RoutingRecordError>>(j, "errors") {
            Ok(v) => v,
            Err(e) => {
                return Err(e);
            },
        };
        Ok(RoutingSettingUnion::ErrorRecords { record, errors })
    }

    /// An object is never read as the plain list of records.
    pub proof fn lemma_object_is_error_records(j: JsonView, v: RoutingSettingUnion)
        requires
            j is Object,
            Self::decodes(j, v),
        ensures
            v is ErrorRecords,
    {
    }

    /// An object with a member that is named neither `record` nor `errors` matches no
    /// alternative, and is kept in the reason as it stands.
    pub proof fn lemma_unknown_member_is_refused(j: JsonView, i: int)
        requires
            j is Object,
            0 <= i < j->Object_0.len(),
            j->Object_0[i].0 != "record"@,
            j->Object_0[i].0 != "errors"@,
        ensures
            Self::rejection(j) == Some(DecodeErrorView::NoAlternative(j)),
    {
        lemma_unknown_is_found(j->Object_0, "record"@, "errors"@, i);
    }

    /// What is read as records with errors has the members `record` and `errors` and
    /// no other member.
    pub proof fn lemma_error_records_members(j: JsonView, v: RoutingSettingUnion, i: int)
        requires
            Self::decodes(j, v),
            v is ErrorRecords,
            j is Object,
            0 <= i < j->Object_0.len(),
        ensures
            j->Object_0[i].0 == "record"@ || j->Object_0[i].0 == "errors"@,
            member(j, "record"@) is Some,
            member(j, "errors"@) is Some,
    {
        lemma_known_members(j->Object_0, "record"@, "errors"@, i);
    }

    /// A list is never read as records with errors.
    pub proof fn lemma_list_is_records(j: JsonView, v: RoutingSettingUnion)
        requires
            j is List,
            Self::decodes(j, v),
        ensures
            v is Records,
    {
    }
}

impl ApiResult for RoutingSettingUnion {
    open spec fn rejection(j: JsonView) -> Option<DecodeErrorView> {
        if Vec::<RoutingDnsRecord>::rejection(j) is None {
            None
        } else if Self::error_records_rejection(j) is None {
            None
        } else {
            Some(DecodeErrorView::NoAlternative(j))
        }
    }

    open spec fn decodes(j: JsonView, v: Self) -> bool {
        match v {
            RoutingSettingUnion::Records(records) => {
                &&& Vec::<RoutingDnsRecord>::rejection(j) is None
                &&& Vec::<RoutingDnsRecord>::decodes(j, records)
            },
            RoutingSettingUnion::ErrorRecords { record, errors } => {
                &&& Vec::<RoutingDnsRecord>::rejection(j) is Some
                &&& Self::error_records_rejection(j) is None
                &&& required_decodes::<Vec<RoutingDnsRecord>>(j, "record"@, record)
                &&& required_decodes::<Vec<RoutingRecordError>>(j, "errors"@, errors)
            },
        }
    }

    fn from_json(j: &Json) -> (r: Result<Self, DecodeError>) {
        match Vec::<RoutingDnsRecord>::from_json(j) {
            Ok(records) => Ok(RoutingSettingUnion::Records(records)),
            Err(_) => match Self::error_records(j) {
                Ok(v) => Ok(v),
                Err(_) => Err(DecodeError::NoAlternative(j.duplicate())),
            },
        }
    }
}

/// What is wrong with the DNS records of email routing.
#[derive(Clone, Debug, PartialEq, Eq)]
pub struct RoutingRecordError {
    pub code: Option<String>,
    pub missing: Option<RoutingDnsRecord>,
}

impl ApiResult for RoutingRecordError {
    open spec fn rejection(j: JsonView) -> Option<DecodeErrorView> {
        let e = object_rejection(j);
        let e = then(e, optional_rejection::<String>(j, "code"@));
        let e = then(e, optional_rejection::<RoutingDnsRecord>(j, "missing"@));
        e
    }

    open spec fn decodes(j: JsonView, v: Self) -> bool {
        &&& optional_decodes::<String>(j, "code"@, v.code)
        &&& optional_decodes::<RoutingDnsRecord>(j, "missing"@, v.missing)
    }

    fn from_json(j: &Json) -> (r: Result<Self, DecodeError>) {
        match require_object(j) {
            Ok(_) => {},
            Err(e) => {
                return Err(e);
            },
        }
        let code = match optional::<String>(j, "code") {
            Ok(v) => v,
            Err(e) => {
                return Err(e);
            },
        };
        let missing = match optional::<RoutingDnsRecord>(j, "missing") {
            Ok(v) => v,
            Err(e) => {
                return Err(e);
            },
        };
        Ok(RoutingRecordError { code, missing })
    }
}

impl RoutingRecordError {
    /// Whether every field is absent, empty or at its default.
    pub open spec fn is_default(&self) -> bool {
        &&& self.code is None
        &&& self.missing is None
    }
}

impl Default for RoutingRecordError {
    fn default() -> (r: RoutingRecordError)
        ensures
            r.is_default(),
    {
        RoutingRecordError { code: None, missing: None }
    }
}

/// The subdomain whose records are asked for.
#[derive(Clone, Debug, PartialEq, Eq)]
pub struct EmailRoutingSettingParams {
    pub subdomain: String,
}

impl QueryPayload for EmailRoutingSettingParams {
    open spec fn query_pairs(&self) -> Seq<(Seq<char>, Seq<char>)> {
        Seq::<(Seq<char>, Seq<char>)>::empty()
            + required_pair::<String>("subdomain"@, self.subdomain)
    }

    fn to_query_pairs(&self) -> (p: Vec<(String, String)>) {
        let mut b = QueryBuilder::new();
        b.field("subdomain", &self.subdomain);
        b.build()
    }
}

impl EmailRoutingSettingParams {
    /// Whether every field is absent, empty or at its default.
    pub open spec fn is_default(&self) -> bool {
        &&& self.subdomain@.len() == 0
    }
}

impl Default for EmailRoutingSettingParams {
    fn default() -> (r: EmailRoutingSettingParams)
        ensures
            r.is_default(),
    {
        EmailRoutingSettingParams { subdomain: String::new() }
    }
}

/// A DNS record that email routing needs.
#[derive(Clone, Debug, PartialEq, Eq)]
pub struct RoutingDnsRecord {
    pub content: Option<String>,
    pub name: Option<String>,
    pub priority: Option<u32>,
    pub ttl: Option<u32>,
    pub record_type: Option<String>,
}

impl ApiResult for RoutingDnsRecord {
    open spec fn rejection(j: JsonView) -> Option<DecodeErrorView> {
        let e = object_rejection(j);
        let e = then(e, optional_rejection::<String>(j, "content"@));
        let e = then(e, optional_rejection::<String>(j, "name"@));
        let e = then(e, optional_rejection::<u32>(j, "priority"@));
        let e = then(e, optional_rejection::<u32>(j, "ttl"@));
        let e = then(e, optional_rejection::<String>(j, "type"@));
        e
    }

    open spec fn decodes(j: JsonView, v: Self) -> bool {
        &&& optional_decodes::<String>(j, "content"@, v.content)
        &&& optional_decodes::<String>(j, "name"@, v.name)
        &&& optional_decodes::<u32>(j, "priority"@, v.priority)
        &&& optional_decodes::<u32>(j, "ttl"@, v.ttl)
        &&& optional_decodes::<String>(j, "type"@, v.record_type)
    }

    fn from_json(j: &Json) -> (r: Result<Self, DecodeError>) {
        match require_object(j) {
            Ok(_) => {},
            Err(e) => {
                return Err(e);
            },
        }
        let content = match optional::<String>(j, "content") {
            Ok(v) => v,
            Err(e) => {
                return Err(e);
            },
        };
        let name = match optional::<String>(j, "name") {
            Ok(v) => v,
            Err(e) => {
                return Err(e);
            },
        };
        let priority = match optional::<u32>(j, "priority") {
            Ok(v) => v,
            Err(e) => {
                return Err(e);
            },
        };
        let ttl = match optional::<u32>(j, "ttl") {
            Ok(v) => v,
            Err(e) => {
                return Err(e);
            },
        };
        let record_type = match optional::<String>(j, "type") {
            Ok(v) => v,
            Err(e) => {
                return Err(e);
            },
        };
        Ok(RoutingDnsRecord { content, name, priority, ttl, record_type })
    }
}

impl RoutingDnsRecord {
    /// Whether every field is absent, empty or at its default.
    pub open spec fn is_default(&self) -> bool {
        &&& self.content is None
        &&& self.name is None
        &&& self.priority is None
        &&& self.ttl is None
        &&& self.record_type is None
    }
}

impl Default for RoutingDnsRecord {
    fn default() -> (r: RoutingDnsRecord)
        ensures
            r.is_default(),
    {
        RoutingDnsRecord { content: None, name: None, priority: None, ttl: None, record_type: None }
    }
}

} // verus!
