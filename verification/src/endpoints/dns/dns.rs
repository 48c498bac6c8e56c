use vstd::prelude::*;
use vstd::string::*;
use crate::framework::codec::{lemma_optional_lookup, lemma_required_lookup, Codec};
use crate::framework::decode::{
    listed, object_rejection, optional, optional_decodes, optional_rejection, require_object,
    required, required_decodes, required_rejection, then, ApiResult, DecodeError, DecodeErrorView,
};
use crate::framework::encode::{
    flattened_members, list_json, optional_member, required_member, ObjectBuilder, ToJson,
};
use crate::framework::endpoint::{
    render_body, serialize_query, EndpointSpec, Method, RequestBody, RequestError,
};
use crate::framework::query::{
    optional_pair, optional_pairs, QueryBuilder, QueryPayload, QueryValue,
};
use crate::framework::response::ApiSuccess;
use crate::framework::variant::{
    tag, tag_of, tag_rejection, text_to_json, text_to_query, unknown_tag, TextEnum,
};
use crate::framework::writable::{
    all_writable, lemma_extend, lemma_optional_part, lemma_required_part, Writable,
};
use crate::framework::{OrderDirection, SearchMatch};
use crate::json::{lemma_lookup_concat, lemma_lookup_push, member, Json, JsonView, Number};
use crate::syntax::{names_differ, writable};
use crate::text::str_eq;
use crate::time::Timestamp;

verus! {

/// List the DNS records of a zone.
#[derive(Debug)]
pub struct ListDnsRecords<'a> {
    pub zone_identifier: &'a str,
    pub params: ListDnsRecordsParams,
}

impl<'a> EndpointSpec for ListDnsRecords<'a> {
    type JsonResponse = Vec<DnsRecord>;

    type ResponseType = ApiSuccess<Self::JsonResponse>;

    open spec fn method_spec(&self) -> Method {
        Method::GET
    }

    open spec fn path_spec(&self) -> Seq<char> {
        "zones/"@ + self.zone_identifier@ + "/dns_records"@
    }

    open spec fn query_spec(&self) -> Seq<(Seq<char>, Seq<char>)> {
        self.params.query_pairs()
    }

    open spec fn body_spec(&self) -> Option<JsonView> {
        None
    }

    fn method(&self) -> (m: Method) {
        Method::GET
    }

    fn path(&self) -> (p: String) {
        let mut p = String::from_str("zones/");
        p.append(self.zone_identifier);
        p.append("/dns_records");
        p
    }

    fn query(&self) -> (q: Option<String>) {
        serialize_query(&self.params)
    }

    fn body(&self) -> (b: Result<Option<RequestBody>, RequestError>) {
        Ok(None)
    }
}

/// Create a DNS record.
#[derive(Debug)]
pub struct CreateDnsRecord<'a> {
    pub zone_identifier: &'a str,
    pub params: DnsRecordOperator,
}

impl<'a> EndpointSpec for CreateDnsRecord<'a> {
    type JsonResponse = DnsRecord;

    type ResponseType = ApiSuccess<Self::JsonResponse>;

    open spec fn method_spec(&self) -> Method {
        Method::POST
    }

    open spec fn path_spec(&self) -> Seq<char> {
        "zones/"@ + self.zone_identifier@ + "/dns_records"@
    }

    open spec fn query_spec(&self) -> Seq<(Seq<char>, Seq<char>)> {
        Seq::empty()
    }

    open spec fn body_spec(&self) -> Option<JsonView> {
        Some(self.params.json())
    }

    fn method(&self) -> (m: Method) {
        Method::POST
    }

    fn path(&self) -> (p: String) {
        let mut p = String::from_str("zones/");
        p.append(self.zone_identifier);
        p.append("/dns_records");
        p
    }

    fn query(&self) -> (q: Option<String>) {
        None
    }

    fn body(&self) -> (b: Result<Option<RequestBody>, RequestError>) {
        render_body(&self.params.to_json())
    }
}

/// Delete a DNS record.
#[derive(Debug)]
pub struct DeleteDnsRecord<'a> {
    pub zone_identifier: &'a str,
    pub identifier: &'a str,
}

impl<'a> EndpointSpec for DeleteDnsRecord<'a> {
    type JsonResponse = DeleteDnsRecordResponse;

    type ResponseType = ApiSuccess<Self::JsonResponse>;

    open spec fn method_spec(&self) -> Method {
        Method::DELETE
    }

    open spec fn path_spec(&self) -> Seq<char> {
        "zones/"@ + self.zone_identifier@ + "/dns_records/"@ + self.identifier@
    }

    open spec fn query_spec(&self) -> Seq<(Seq<char>, Seq<char>)> {
        Seq::empty()
    }

    open spec fn body_spec(&self) -> Option<JsonView> {
        None
    }

    fn method(&self) -> (m: Method) {
        Method::DELETE
    }

    fn path(&self) -> (p: String) {
        let mut p = String::from_str("zones/");
        p.append(self.zone_identifier);
        p.append("/dns_records/");
        p.append(self.identifier);
        p
    }

    fn query(&self) -> (q: Option<String>) {
        None
    }

    fn body(&self) -> (b: Result<Option<RequestBody>, RequestError>) {
        Ok(None)
    }
}

/// Update a DNS record.
#[derive(Debug)]
pub struct UpdateDnsRecord<'a> {
    pub zone_identifier: &'a str,
    pub identifier: &'a str,
    pub params: DnsRecordOperator,
}

impl<'a> EndpointSpec for UpdateDnsRecord<'a> {
    type JsonResponse = DnsRecord;

    type ResponseType = ApiSuccess<Self::JsonResponse>;

    open spec fn method_spec(&self) -> Method {
        Method::PUT
    }

    open spec fn path_spec(&self) -> Seq<char> {
        "zones/"@ + self.zone_identifier@ + "/dns_records/"@ + self.identifier@
    }

    open spec fn query_spec(&self) -> Seq<(Seq<char>, Seq<char>)> {
        Seq::empty()
    }

    open spec fn body_spec(&self) -> Option<JsonView> {
        Some(self.params.json())
    }

    fn method(&self) -> (m: Method) {
        Method::PUT
    }

    fn path(&self) -> (p: String) {
        let mut p = String::from_str("zones/");
        p.append(self.zone_identifier);
        p.append("/dns_records/");
        p.append(self.identifier);
        p
    }

    fn query(&self) -> (q: Option<String>) {
        None
    }

    fn body(&self) -> (b: Result<Option<RequestBody>, RequestError>) {
        render_body(&self.params.to_json())
    }
}

/// The field by which the DNS records are ordered.
#[derive(Clone, Copy, Debug, PartialEq, Eq, Structural)]
pub enum ListDnsRecordsOrder {
    Type,
    Name,
    Content,
    Ttl,
    Proxied,
}

impl TextEnum for ListDnsRecordsOrder {
    open spec fn text(&self) -> Seq<char> {
        match self {
            ListDnsRecordsOrder::Type => "type"@,
            ListDnsRecordsOrder::Name => "name"@,
            ListDnsRecordsOrder::Content => "content"@,
            ListDnsRecordsOrder::Ttl => "ttl"@,
            ListDnsRecordsOrder::Proxied => "proxied"@,
        }
    }

    open spec fn named(t: Seq<char>) -> Option<Self> {
        if t == "type"@ {
            Some(ListDnsRecordsOrder::Type)
        } else if t == "name"@ {
            Some(ListDnsRecordsOrder::Name)
        } else if t == "content"@ {
            Some(ListDnsRecordsOrder::Content)
        } else if t == "ttl"@ {
            Some(ListDnsRecordsOrder::Ttl)
        } else if t == "proxied"@ {
            Some(ListDnsRecordsOrder::Proxied)
        } else {
            None
        }
    }

    fn as_str(&self) -> (s: &'static str) {
        match self {
            ListDnsRecordsOrder::Type => "type",
            ListDnsRecordsOrder::Name => "name",
            ListDnsRecordsOrder::Content => "content",
            ListDnsRecordsOrder::Ttl => "ttl",
            ListDnsRecordsOrder::Proxied => "proxied",
        }
    }

    fn from_text(t: &str) -> (r: Option<Self>) {
        if str_eq(t, "type") {
            Some(ListDnsRecordsOrder::Type)
        } else if str_eq(t, "name") {
            Some(ListDnsRecordsOrder::Name)
        } else if str_eq(t, "content") {
            Some(ListDnsRecordsOrder::Content)
        } else if str_eq(t, "ttl") {
            Some(ListDnsRecordsOrder::Ttl)
        } else if str_eq(t, "proxied") {
            Some(ListDnsRecordsOrder::Proxied)
        } else {
            None
        }
    }

    proof fn lemma_named_text(v: Self) {
        reveal_strlit("type");
        reveal_strlit("name");
        reveal_strlit("content");
        reveal_strlit("ttl");
        reveal_strlit("proxied");
        assert("type"@.len() == 4);
        assert("name"@.len() == 4);
        assert("content"@.len() == 7);
        assert("ttl"@.len() == 3);
        assert("proxied"@.len() == 7);
        assert("type"@[0] != "name"@[0]);
        assert("content"@[0] != "proxied"@[0]);
    }
}

impl ToJson for ListDnsRecordsOrder {
    open spec fn json(&self) -> JsonView {
        JsonView::Text(self.text())
    }

    fn to_json(&self) -> (j: Json) {
        text_to_json(self)
    }
}

impl QueryValue for ListDnsRecordsOrder {
    open spec fn query_value(&self) -> Seq<char> {
        self.text()
    }

    fn to_query_value(&self) -> (s: String) {
        text_to_query(self)
    }
}

impl Writable for ListDnsRecordsOrder {
    open spec fn sound(&self) -> bool {
        true
    }

    proof fn lemma_writable(v: Self) {
    }
}

/// Which DNS records are listed, and in which order. The record type and its content
/// are written into the query beside the other fields.
#[derive(Clone, Debug, PartialEq, Eq)]
pub struct ListDnsRecordsParams {
    pub record_type: Option<DnsContent>,
    pub name: Option<String>,
    pub page: Option<u32>,
    pub per_page: Option<u32>,
    pub order: Option<ListDnsRecordsOrder>,
    pub direction: Option<OrderDirection>,
    pub search_match: Option<SearchMatch>,
}

impl QueryPayload for ListDnsRecordsParams {
    open spec fn query_pairs(&self) -> Seq<(Seq<char>, Seq<char>)> {
        Seq::<(Seq<char>, Seq<char>)>::empty()
            + optional_pairs::<DnsContent>(self.record_type)
            + optional_pair::<String>("name"@, self.name)
            + optional_pair::<u32>("page"@, self.page)
            + optional_pair::<u32>("per_page"@, self.per_page)
            + optional_pair::<ListDnsRecordsOrder>("order"@, self.order)
            + optional_pair::<OrderDirection>("direction"@, self.direction)
            + optional_pair::<SearchMatch>("match"@, self.search_match)
    }

    fn to_query_pairs(&self) -> (p: Vec<(String, String)>) {
        let mut b = QueryBuilder::new();
        b.flatten(&self.record_type);
        b.optional("name", &self.name);
        b.optional("page", &self.page);
        b.optional("per_page", &self.per_page);
        b.optional("order", &self.order);
        b.optional("direction", &self.direction);
        b.optional("match", &self.search_match);
        b.build()
    }
}

impl ListDnsRecordsParams {
    /// Whether every field is absent, empty or at its default.
    pub open spec fn is_default(&self) -> bool {
        &&& self.record_type is None
        &&& self.name is None
        &&& self.page is None
        &&& self.per_page is None
        &&& self.order is None
        &&& self.direction is None
        &&& self.search_match is None
    }
}

impl Default for ListDnsRecordsParams {
    fn default() -> (r: ListDnsRecordsParams)
        ensures
            r.is_default(),
    {
        ListDnsRecordsParams {
            record_type: None,
            name: None,
            page: None,
            per_page: None,
            order: None,
            direction: None,
            search_match: None,
        }
    }
}

/// What the service adds to a record beyond its fields.
#[derive(Debug, PartialEq, Eq)]
pub struct Meta {
}

impl ApiResult for Meta {
    open spec fn rejection(j: JsonView) -> Option<DecodeErrorView> {
        let e = object_rejection(j);
        e
    }

    open spec fn decodes(j: JsonView, v: Self) -> bool {
        true
    }

    fn from_json(j: &Json) -> (r: Result<Self, DecodeError>) {
        match require_object(j) {
            Ok(_) => {},
            Err(e) => {
                return Err(e);
            },
        }
        Ok(Meta {})
    }
}

/// The type of a DNS record together with the value that a record of this type
/// holds. The addresses of `A` and `AAAA` are kept as the text that stands for them.
#[allow(clippy::upper_case_acronyms)]
#[derive(Clone, Debug, PartialEq, Eq)]
pub enum DnsContent {
    A { content: String },
    AAAA { content: String },
    CNAME { content: String },
    NS { content: String },
    MX { content: String, priority: u16 },
    TXT { content: String },
    SRV { content: String },
}

impl DnsContent {
    /// The name of the record type, which is the discriminator.
    pub open spec fn record_type(&self) -> Seq<char> {
        match self {
            DnsContent::A { .. } => "A"@,
            DnsContent::AAAA { .. } => "AAAA"@,
            DnsContent::CNAME { .. } => "CNAME"@,
            DnsContent::NS { .. } => "NS"@,
            DnsContent::MX { .. } => "MX"@,
            DnsContent::TXT { .. } => "TXT"@,
            DnsContent::SRV { .. } => "SRV"@,
        }
    }

    /// The record's value.
    pub open spec fn content(&self) -> Seq<char> {
        match self {
            DnsContent::A { content } => content@,
            DnsContent::AAAA { content } => content@,
            DnsContent::CNAME { content } => content@,
            DnsContent::NS { content } => content@,
            DnsContent::MX { content, .. } => content@,
            DnsContent::TXT { content } => content@,
            DnsContent::SRV { content } => content@,
        }
    }

    /// The priority, which only an `MX` record has.
    pub open spec fn priority(&self) -> Option<u16> {
        match self {
            DnsContent::MX { priority, .. } => Some(*priority),
            _ => None,
        }
    }

    /// Whether a discriminator names one of the types that hold nothing but a
    /// content.
    pub open spec fn is_plain_type(t: Seq<char>) -> bool {
        t == "A"@ || t == "AAAA"@ || t == "CNAME"@ || t == "NS"@ || t == "TXT"@ || t == "SRV"@
    }

    pub fn as_record_type(&self) -> (s: &'static str)
        ensures
            s@ == self.record_type(),
    {
        match self {
            DnsContent::A { .. } => "A",
            DnsContent::AAAA { .. } => "AAAA",
            DnsContent::CNAME { .. } => "CNAME",
            DnsContent::NS { .. } => "NS",
            DnsContent::MX { .. } => "MX",
            DnsContent::TXT { .. } => "TXT",
            DnsContent::SRV { .. } => "SRV",
        }
    }

    pub fn as_content(&self) -> (s: &String)
        ensures
            s@ == self.content(),
    {
        match self {
            DnsContent::A { content } => content,
            DnsContent::AAAA { content } => content,
            DnsContent::CNAME { content } => content,
            DnsContent::NS { content } => content,
            DnsContent::MX { content, .. } => content,
            DnsContent::TXT { content } => content,
            DnsContent::SRV { content } => content,
        }
    }

    pub fn as_priority(&self) -> (p: Option<u16>)
        ensures
            p == self.priority(),
    {
        match self {
            DnsContent::MX { priority, .. } => Some(*priority),
            _ => None,
        }
    }
}

impl ToJson for DnsContent {
    open spec fn json(&self) -> JsonView {
        JsonView::Object(
            Seq::<(Seq<char>, JsonView)>::empty()
                + seq![("type"@, JsonView::Text(self.record_type()))]
                + seq![("content"@, JsonView::Text(self.content()))]
                + optional_member::<u16>("priority"@, self.priority()),
        )
    }

    fn to_json(&self) -> (j: Json) {
        let mut b = ObjectBuilder::new();
        b.member("type", Json::Text(String::from_str(self.as_record_type())));
        b.member("content", Json::Text(self.as_content().clone()));
        b.optional("priority", &self.as_priority());
        proof {
            assert(b@ =~= Seq::<(Seq<char>, JsonView)>::empty() + seq![
                ("type"@, JsonView::Text(self.record_type())),
            ] + seq![("content"@, JsonView::Text(self.content()))] + optional_member::<u16>(
                "priority"@,
                self.priority(),
            ));
        }
        b.build()
    }
}

impl QueryPayload for DnsContent {
    open spec fn query_pairs(&self) -> Seq<(Seq<char>, Seq<char>)> {
        Seq::<(Seq<char>, Seq<char>)>::empty()
            + seq![("type"@, self.record_type())]
            + seq![("content"@, self.content())]
            + optional_pair::<u16>("priority"@, self.priority())
    }

    fn to_query_pairs(&self) -> (p: Vec<(String, String)>) {
        let mut b = QueryBuilder::new();
        let name = String::from_str(self.as_record_type());
        b.field("type", &name);
        b.field("content", self.as_content());
        b.optional("priority", &self.as_priority());
        proof {
            assert(b@ =~= self.query_pairs());
        }
        b.build()
    }
}

impl ApiResult for DnsContent {
    open spec fn rejection(j: JsonView) -> Option<DecodeErrorView> {
        let t = tag_of(j, "type"@);
        if tag_rejection(j, "type"@) is Some {
            tag_rejection(j, "type"@)
        } else if DnsContent::is_plain_type(t) {
            required_rejection::<String>(j, "content"@)
        } else if t == "MX"@ {
            then(
                required_rejection::<String>(j, "content"@),
                required_rejection::<u16>(j, "priority"@),
            )
        } else {
            Some(unknown_tag(j, "type"@))
        }
    }

    open spec fn decodes(j: JsonView, v: Self) -> bool {
        &&& tag_of(j, "type"@) == v.record_type()
        &&& member(j, "content"@) == Some(JsonView::Text(v.content()))
        &&& match v.priority() {
            Some(p) => required_decodes::<u16>(j, "priority"@, p),
            None => true,
        }
    }

    fn from_json(j: &Json) -> (r: Result<Self, DecodeError>) {
        let t = match tag(j, "type") {
            Ok(t) => t,
            Err(e) => {
                return Err(e);
            },
        };
        let t = t.as_str();
        let plain = str_eq(t, "A") || str_eq(t, "AAAA") || str_eq(t, "CNAME") || str_eq(t, "NS")
            || str_eq(t, "TXT") || str_eq(t, "SRV");
        if !plain && !str_eq(t, "MX") {
            return Err(DecodeError::UnknownDiscriminator(Json::Text(String::from_str(t))));
        }
        let content = match required::<String>(j, "content") {
            Ok(v) => v,
            Err(e) => {
                return Err(e);
            },
        };
        if str_eq(t, "A") {
            Ok(DnsContent::A { content })
        } else if str_eq(t, "AAAA") {
            Ok(DnsContent::AAAA { content })
        } else if str_eq(t, "CNAME") {
            Ok(DnsContent::CNAME { content })
        } else if str_eq(t, "NS") {
            Ok(DnsContent::NS { content })
        } else if str_eq(t, "TXT") {
            Ok(DnsContent::TXT { content })
        } else if str_eq(t, "SRV") {
            Ok(DnsContent::SRV { content })
        } else {
            let priority = match required::<u16>(j, "priority") {
                Ok(v) => v,
                Err(e) => {
                    return Err(e);
                },
            };
            Ok(DnsContent::MX { content, priority })
        }
    }
}

/// A record's type and value, as a value of mathematics.
pub enum DnsContentView {
    A { content: Seq<char> },
    AAAA { content: Seq<char> },
    CNAME { content: Seq<char> },
    NS { content: Seq<char> },
    MX { content: Seq<char>, priority: u16 },
    TXT { content: Seq<char> },
    SRV { content: Seq<char> },
}

impl View for DnsContent {
    type V = DnsContentView;

    open spec fn view(&self) -> DnsContentView {
        match self {
            DnsContent::A { content } => DnsContentView::A { content: content@ },
            DnsContent::AAAA { content } => DnsContentView::AAAA { content: content@ },
            DnsContent::CNAME { content } => DnsContentView::CNAME { content: content@ },
            DnsContent::NS { content } => DnsContentView::NS { content: content@ },
            DnsContent::MX { content, priority } => DnsContentView::MX {
                content: content@,
                priority: *priority,
            },
            DnsContent::TXT { content } => DnsContentView::TXT { content: content@ },
            DnsContent::SRV { content } => DnsContentView::SRV { content: content@ },
        }
    }
}

impl DnsContent {
    /// The names of the record types differ from one another: records of the same
    /// type name are of the same alternative.
    pub proof fn lemma_record_types_differ(a: DnsContent, b: DnsContent)
        requires
            a.record_type() == b.record_type(),
        ensures
            a is A <==> b is A,
            a is AAAA <==> b is AAAA,
            a is CNAME <==> b is CNAME,
            a is NS <==> b is NS,
            a is MX <==> b is MX,
            a is TXT <==> b is TXT,
            a is SRV <==> b is SRV,
    {
        reveal_strlit("A");
        reveal_strlit("AAAA");
        reveal_strlit("CNAME");
        reveal_strlit("NS");
        reveal_strlit("MX");
        reveal_strlit("TXT");
        reveal_strlit("SRV");
        assert("A"@.len() == 1);
        assert("AAAA"@.len() == 4);
        assert("CNAME"@.len() == 5);
        assert("NS"@.len() == 2);
        assert("MX"@.len() == 2);
        assert("TXT"@.len() == 3);
        assert("SRV"@.len() == 3);
        assert("NS"@[0] != "MX"@[0]);
        assert("TXT"@[0] != "SRV"@[0]);
    }

    /// `MX` is none of the types that hold nothing but a content.
    proof fn lemma_mx_is_not_plain()
        ensures
            !DnsContent::is_plain_type("MX"@),
    {
        reveal_strlit("A");
        reveal_strlit("AAAA");
        reveal_strlit("CNAME");
        reveal_strlit("NS");
        reveal_strlit("MX");
        reveal_strlit("TXT");
        reveal_strlit("SRV");
        assert("A"@.len() == 1);
        assert("AAAA"@.len() == 4);
        assert("CNAME"@.len() == 5);
        assert("MX"@.len() == 2);
        assert("TXT"@.len() == 3);
        assert("SRV"@.len() == 3);
        assert("NS"@[0] != "MX"@[0]);
    }

    /// What the members of a record's JSON object are found to be.
    proof fn lemma_members(v: DnsContent)
        ensures
            v.json() is Object,
            member(v.json(), "type"@) == Some(JsonView::Text(v.record_type())),
            member(v.json(), "content"@) == Some(JsonView::Text(v.content())),
            member(v.json(), "priority"@) == (match v.priority() {
                Some(p) => Some(p.json()),
                None => None,
            }),
    {
        reveal_strlit("type");
        reveal_strlit("content");
        reveal_strlit("priority");
        assert("type"@.len() == 4);
        assert("content"@.len() == 7);
        assert("priority"@.len() == 8);
        let head0 = Seq::<(Seq<char>, JsonView)>::empty();
        let part0 = seq![("type"@, JsonView::Text(v.record_type()))];
        let part1 = seq![("content"@, JsonView::Text(v.content()))];
        let part2 = optional_member::<u16>("priority"@, v.priority());
        assert(part0 =~= head0.push(("type"@, JsonView::Text(v.record_type()))));
        assert(part1 =~= head0.push(("content"@, JsonView::Text(v.content()))));
        lemma_lookup_push(head0, "type"@, JsonView::Text(v.record_type()), "type"@);
        lemma_lookup_push(head0, "type"@, JsonView::Text(v.record_type()), "content"@);
        lemma_lookup_push(head0, "type"@, JsonView::Text(v.record_type()), "priority"@);
        lemma_lookup_push(head0, "content"@, JsonView::Text(v.content()), "type"@);
        lemma_lookup_push(head0, "content"@, JsonView::Text(v.content()), "content"@);
        lemma_lookup_push(head0, "content"@, JsonView::Text(v.content()), "priority"@);
        lemma_optional_lookup::<u16>("priority"@, v.priority(), "type"@);
        lemma_optional_lookup::<u16>("priority"@, v.priority(), "content"@);
        lemma_optional_lookup::<u16>("priority"@, v.priority(), "priority"@);
        lemma_lookup_concat(head0, part0, "type"@);
        lemma_lookup_concat(head0, part0, "content"@);
        lemma_lookup_concat(head0, part0, "priority"@);
        lemma_lookup_concat(head0 + part0, part1, "type"@);
        lemma_lookup_concat(head0 + part0, part1, "content"@);
        lemma_lookup_concat(head0 + part0, part1, "priority"@);
        lemma_lookup_concat(head0 + part0 + part1, part2, "type"@);
        lemma_lookup_concat(head0 + part0 + part1, part2, "content"@);
        lemma_lookup_concat(head0 + part0 + part1, part2, "priority"@);
    }

    /// What decodes from the JSON written for a record is that record: the same
    /// type, the same content, the same priority.
    pub proof fn lemma_round_trip_view(v: DnsContent, w: DnsContent)
        requires
            DnsContent::decodes(v.json(), w),
        ensures
            w@ == v@,
    {
        Self::lemma_members(v);
        Self::lemma_record_types_differ(v, w);
    }
}

impl Codec for DnsContent {
    proof fn lemma_round_trip(v: Self) {
        Self::lemma_members(v);
        Self::lemma_mx_is_not_plain();
        match v.priority() {
            Some(p) => {
                u16::lemma_round_trip(p);
            },
            None => {},
        }
        assert(Self::rejection(v.json()) is None);
        assert(Self::decodes(v.json(), v));
        assert forall|w: Self| Self::decodes(v.json(), w) implies w.json() == v.json() by {
            Self::lemma_round_trip_view(v, w);
            assert(w.record_type() == v.record_type());
            assert(w.content() == v.content());
            assert(w.priority() == v.priority());
        }
    }
}

impl DnsContent {
    /// The members of a record's JSON object: their names differ, their values can
    /// be written, and each is named `type`, `content` or `priority`.
    pub proof fn lemma_member_names(v: DnsContent)
        ensures
            v.json() == JsonView::Object(flattened_members(v.json())),
            names_differ(flattened_members(v.json())),
            all_writable(flattened_members(v.json())),
            forall|i: int|
                0 <= i < flattened_members(v.json()).len() ==> {
                    let name = (#[trigger] flattened_members(v.json())[i]).0;
                    name == "type"@ || name == "content"@ || name == "priority"@
                },
    {
        reveal_strlit("type");
        reveal_strlit("content");
        reveal_strlit("priority");
        assert("type"@.len() == 4);
        assert("content"@.len() == 7);
        assert("priority"@.len() == 8);
        let fields = flattened_members(v.json());
        assert(fields.len() == 2 || fields.len() == 3);
        assert(fields[0].0 == "type"@);
        assert(fields[1].0 == "content"@);
        if fields.len() == 3 {
            assert(fields[2].0 == "priority"@);
        }
        assert forall|i: int| 0 <= i < fields.len() implies writable((#[trigger] fields[i]).1) by {
            if i == 0 {
            } else if i == 1 {
            } else {
                assert(fields[2].1 is Number);
            }
        }
    }
}

impl Writable for DnsContent {
    open spec fn sound(&self) -> bool {
        true
    }

    proof fn lemma_writable(v: Self) {
        Self::lemma_member_names(v);
    }
}

/// What deleting a DNS record hands back.
#[derive(Debug, PartialEq, Eq)]
pub struct DeleteDnsRecordResponse {
    /// DNS record identifier tag
    pub id: String,
}

impl ApiResult for DeleteDnsRecordResponse {
    open spec fn rejection(j: JsonView) -> Option<DecodeErrorView> {
        let e = object_rejection(j);
        let e = then(e, required_rejection::<String>(j, "id"@));
        e
    }

    open spec fn decodes(j: JsonView, v: Self) -> bool {
        &&& required_decodes::<String>(j, "id"@, v.id)
    }

    fn from_json(j: &Json) -> (r: Result<Self, DecodeError>) {
        match require_object(j) {
            Ok(_) => {},
            Err(e) => {
                return Err(e);
            },
        }
        let id = match required::<String>(j, "id") {
            Ok(v) => v,
            Err(e) => {
                return Err(e);
            },
        };
        Ok(DeleteDnsRecordResponse { id })
    }
}

/// A DNS record as the service describes it.
#[derive(Debug, PartialEq, Eq)]
pub struct DnsRecord {
    /// What the service adds to the record
    pub meta: Meta,
    /// DNS record name
    pub name: String,
    /// Time to live for DNS record. Value of 1 is 'automatic'
    pub ttl: u32,
    /// When the record was last modified
    pub modified_on: Timestamp,
    /// When the record was created
    pub created_on: Timestamp,
    /// Whether this record can be modified or deleted
    pub proxiable: bool,
    /// Type of the DNS record that also holds the record value
    pub content: DnsContent,
    /// DNS record identifier tag
    pub id: String,
    /// Whether the record is proxied
    pub proxied: bool,
}

impl ApiResult for DnsRecord {
    open spec fn rejection(j: JsonView) -> Option<DecodeErrorView> {
        let e = object_rejection(j);
        let e = then(e, required_rejection::<Meta>(j, "meta"@));
        let e = then(e, required_rejection::<String>(j, "name"@));
        let e = then(e, required_rejection::<u32>(j, "ttl"@));
        let e = then(e, required_rejection::<Timestamp>(j, "modified_on"@));
        let e = then(e, required_rejection::<Timestamp>(j, "created_on"@));
        let e = then(e, required_rejection::<bool>(j, "proxiable"@));
        let e = then(e, DnsContent::rejection(j));
        let e = then(e, required_rejection::<String>(j, "id"@));
        let e = then(e, required_rejection::<bool>(j, "proxied"@));
        e
    }

    open spec fn decodes(j: JsonView, v: Self) -> bool {
        &&& required_decodes::<Meta>(j, "meta"@, v.meta)
        &&& required_decodes::<String>(j, "name"@, v.name)
        &&& required_decodes::<u32>(j, "ttl"@, v.ttl)
        &&& required_decodes::<Timestamp>(j, "modified_on"@, v.modified_on)
        &&& required_decodes::<Timestamp>(j, "created_on"@, v.created_on)
        &&& required_decodes::<bool>(j, "proxiable"@, v.proxiable)
        &&& DnsContent::decodes(j, v.content)
        &&& required_decodes::<String>(j, "id"@, v.id)
        &&& required_decodes::<bool>(j, "proxied"@, v.proxied)
    }

    fn from_json(j: &Json) -> (r: Result<Self, DecodeError>) {
        match require_object(j) {
            Ok(_) => {},
            Err(e) => {
                return Err(e);
            },
        }
        let meta = match required::<Meta>(j, "meta") {
            Ok(v) => v,
            Err(e) => {
                return Err(e);
            },
        };
        let name = match required::<String>(j, "name") {
            Ok(v) => v,
            Err(e) => {
                return Err(e);
            },
        };
        let ttl = match required::<u32>(j, "ttl") {
            Ok(v) => v,
            Err(e) => {
                return Err(e);
            },
        };
        let modified_on = match required::<Timestamp>(j, "modified_on") {
            Ok(v) => v,
            Err(e) => {
                return Err(e);
            },
        };
        let created_on = match required::<Timestamp>(j, "created_on") {
            Ok(v) => v,
            Err(e) => {
                return Err(e);
            },
        };
        let proxiable = match required::<bool>(j, "proxiable") {
            Ok(v) => v,
            Err(e) => {
                return Err(e);
            },
        };
        let content = match DnsContent::from_json(j) {
            Ok(v) => v,
            Err(e) => {
                return Err(e);
            },
        };
        let id = match required::<String>(j, "id") {
            Ok(v) => v,
            Err(e) => {
                return Err(e);
            },
        };
        let proxied = match required::<bool>(j, "proxied") {
            Ok(v) => v,
            Err(e) => {
                return Err(e);
            },
        };
        Ok(DnsRecord { meta, name, ttl, modified_on, created_on, proxiable, content, id, proxied })
    }
}

/// Submit deletes, patches, posts and puts of DNS records in one call.
#[derive(Debug)]
pub struct BatchDnsRecords<'a> {
    pub zone_identifier: &'a str,
    pub params: BatchDnsRecordsParams,
}

impl<'a> EndpointSpec for BatchDnsRecords<'a> {
    type JsonResponse = BatchDnsRecordsResponse;

    type ResponseType = ApiSuccess<Self::JsonResponse>;

    open spec fn method_spec(&self) -> Method {
        Method::POST
    }

    open spec fn path_spec(&self) -> Seq<char> {
        "zones/"@ + self.zone_identifier@ + "/dns_records/batch"@
    }

    open spec fn query_spec(&self) -> Seq<(Seq<char>, Seq<char>)> {
        Seq::empty()
    }

    open spec fn body_spec(&self) -> Option<JsonView> {
        Some(self.params.json())
    }

    fn method(&self) -> (m: Method) {
        Method::POST
    }

    fn path(&self) -> (p: String) {
        let mut p = String::from_str("zones/");
        p.append(self.zone_identifier);
        p.append("/dns_records/batch");
        p
    }

    fn query(&self) -> (q: Option<String>) {
        None
    }

    fn body(&self) -> (b: Result<Option<RequestBody>, RequestError>) {
        render_body(&self.params.to_json())
    }
}

/// The four buckets of a batch, each in the order in which it is to be carried out. An
/// absent bucket is left out of the body; an empty one is written as an empty list.
#[derive(Clone, Debug, PartialEq, Eq)]
pub struct BatchDnsRecordsParams {
    pub deletes: Option<Vec<BatchDelete>>,
    pub patches: Option<Vec<DnsRecordOperator>>,
    pub posts: Option<Vec<DnsRecordOperator>>,
    pub puts: Option<Vec<DnsRecordOperator>>,
}

impl ToJson for BatchDnsRecordsParams {
    open spec fn json(&self) -> JsonView {
        JsonView::Object(
            Seq::<(Seq<char>, JsonView)>::empty()
                + optional_member::<Vec<BatchDelete>>("deletes"@, self.deletes)
                + optional_member::<Vec<DnsRecordOperator>>("patches"@, self.patches)
                + optional_member::<Vec<DnsRecordOperator>>("posts"@, self.posts)
                + optional_member::<Vec<DnsRecordOperator>>("puts"@, self.puts),
        )
    }

    fn to_json(&self) -> (j: Json) {
        let mut b = ObjectBuilder::new();
        b.optional("deletes", &self.deletes);
        b.optional("patches", &self.patches);
        b.optional("posts", &self.posts);
        b.optional("puts", &self.puts);
        b.build()
    }
}

impl Writable for BatchDnsRecordsParams {
    open spec fn sound(&self) -> bool {
        &&& self.deletes matches Some(x) ==> x.sound()
        &&& self.patches matches Some(x) ==> x.sound()
        &&& self.posts matches Some(x) ==> x.sound()
        &&& self.puts matches Some(x) ==> x.sound()
    }

    proof fn lemma_writable(v: Self) {
        reveal_strlit("deletes");
        reveal_strlit("patches");
        reveal_strlit("posts");
        reveal_strlit("puts");
        assert("deletes"@.len() == 7);
        assert("patches"@.len() == 7);
        assert("posts"@.len() == 5);
        assert("puts"@.len() == 4);
        assert("deletes"@[0] != "patches"@[0]);
        let head0 = Seq::<(Seq<char>, JsonView)>::empty();
        let part0 = optional_member::<Vec<BatchDelete>>("deletes"@, v.deletes);
        lemma_optional_part::<Vec<BatchDelete>>("deletes"@, v.deletes);
        lemma_extend(head0, part0);
        let head1 = head0 + part0;
        let part1 = optional_member::<Vec<DnsRecordOperator>>("patches"@, v.patches);
        lemma_optional_part::<Vec<DnsRecordOperator>>("patches"@, v.patches);
        lemma_optional_lookup::<Vec<BatchDelete>>("deletes"@, v.deletes, "patches"@);
        lemma_lookup_concat(head0, part0, "patches"@);
        lemma_extend(head1, part1);
        let head2 = head1 + part1;
        let part2 = optional_member::<Vec<DnsRecordOperator>>("posts"@, v.posts);
        lemma_optional_part::<Vec<DnsRecordOperator>>("posts"@, v.posts);
        lemma_optional_lookup::<Vec<BatchDelete>>("deletes"@, v.deletes, "posts"@);
        lemma_lookup_concat(head0, part0, "posts"@);
        lemma_optional_lookup::<Vec<DnsRecordOperator>>("patches"@, v.patches, "posts"@);
        lemma_lookup_concat(head1, part1, "posts"@);
        lemma_extend(head2, part2);
        let head3 = head2 + part2;
        let part3 = optional_member::<Vec<DnsRecordOperator>>("puts"@, v.puts);
        lemma_optional_part::<Vec<DnsRecordOperator>>("puts"@, v.puts);
        lemma_optional_lookup::<Vec<BatchDelete>>("deletes"@, v.deletes, "puts"@);
        lemma_lookup_concat(head0, part0, "puts"@);
        lemma_optional_lookup::<Vec<DnsRecordOperator>>("patches"@, v.patches, "puts"@);
        lemma_lookup_concat(head1, part1, "puts"@);
        lemma_optional_lookup::<Vec<DnsRecordOperator>>("posts"@, v.posts, "puts"@);
        lemma_lookup_concat(head2, part2, "puts"@);
        lemma_extend(head3, part3);
    }
}

impl BatchDnsRecordsParams {
    /// Whether every field is absent, empty or at its default.
    pub open spec fn is_default(&self) -> bool {
        &&& self.deletes is None
        &&& self.patches is None
        &&& self.posts is None
        &&& self.puts is None
    }
}

impl Default for BatchDnsRecordsParams {
    fn default() -> (r: BatchDnsRecordsParams)
        ensures
            r.is_default(),
    {
        BatchDnsRecordsParams { deletes: None, patches: None, posts: None, puts: None }
    }
}

impl BatchDnsRecordsParams {
    /// The body of a batch holds each bucket that is present under its own name, with
    /// the operations in the order in which they were given, and holds no member for
    /// a bucket that is absent.
    pub proof fn lemma_buckets(v: BatchDnsRecordsParams)
        ensures
            v.json() is Object,
            member(v.json(), "deletes"@) == (match v.deletes {
                Some(bucket) => Some(JsonView::List(list_json::<BatchDelete>(bucket@))),
                None => None,
            }),
            member(v.json(), "patches"@) == (match v.patches {
                Some(bucket) => Some(JsonView::List(list_json::<DnsRecordOperator>(bucket@))),
                None => None,
            }),
            member(v.json(), "posts"@) == (match v.posts {
                Some(bucket) => Some(JsonView::List(list_json::<DnsRecordOperator>(bucket@))),
                None => None,
            }),
            member(v.json(), "puts"@) == (match v.puts {
                Some(bucket) => Some(JsonView::List(list_json::<DnsRecordOperator>(bucket@))),
                None => None,
            }),
    {
        reveal_strlit("deletes");
        reveal_strlit("patches");
        reveal_strlit("posts");
        reveal_strlit("puts");
        assert("deletes"@.len() == 7);
        assert("patches"@.len() == 7);
        assert("posts"@.len() == 5);
        assert("puts"@.len() == 4);
        assert("deletes"@[0] != "patches"@[0]);
        let head0 = Seq::<(Seq<char>, JsonView)>::empty();
        let part0 = optional_member::<Vec<BatchDelete>>("deletes"@, v.deletes);
        let head1 = head0 + part0;
        let part1 = optional_member::<Vec<DnsRecordOperator>>("patches"@, v.patches);
        let head2 = head1 + part1;
        let part2 = optional_member::<Vec<DnsRecordOperator>>("posts"@, v.posts);
        let head3 = head2 + part2;
        let part3 = optional_member::<Vec<DnsRecordOperator>>("puts"@, v.puts);
        lemma_optional_lookup::<Vec<BatchDelete>>("deletes"@, v.deletes, "deletes"@);
        lemma_optional_lookup::<Vec<BatchDelete>>("deletes"@, v.deletes, "patches"@);
        lemma_optional_lookup::<Vec<BatchDelete>>("deletes"@, v.deletes, "posts"@);
        lemma_optional_lookup::<Vec<BatchDelete>>("deletes"@, v.deletes, "puts"@);
        lemma_optional_lookup::<Vec<DnsRecordOperator>>("patches"@, v.patches, "deletes"@);
        lemma_optional_lookup::<Vec<DnsRecordOperator>>("patches"@, v.patches, "patches"@);
        lemma_optional_lookup::<Vec<DnsRecordOperator>>("patches"@, v.patches, "posts"@);
        lemma_optional_lookup::<Vec<DnsRecordOperator>>("patches"@, v.patches, "puts"@);
        lemma_optional_lookup::<Vec<DnsRecordOperator>>("posts"@, v.posts, "deletes"@);
        lemma_optional_lookup::<Vec<DnsRecordOperator>>("posts"@, v.posts, "patches"@);
        lemma_optional_lookup::<Vec<DnsRecordOperator>>("posts"@, v.posts, "posts"@);
        lemma_optional_lookup::<Vec<DnsRecordOperator>>("posts"@, v.posts, "puts"@);
        lemma_optional_lookup::<Vec<DnsRecordOperator>>("puts"@, v.puts, "deletes"@);
        lemma_optional_lookup::<Vec<DnsRecordOperator>>("puts"@, v.puts, "patches"@);
        lemma_optional_lookup::<Vec<DnsRecordOperator>>("puts"@, v.puts, "posts"@);
        lemma_optional_lookup::<Vec<DnsRecordOperator>>("puts"@, v.puts, "puts"@);
        lemma_lookup_concat(head0, part0, "deletes"@);
        lemma_lookup_concat(head0, part0, "patches"@);
        lemma_lookup_concat(head0, part0, "posts"@);
        lemma_lookup_concat(head0, part0, "puts"@);
        lemma_lookup_concat(head1, part1, "deletes"@);
        lemma_lookup_concat(head1, part1, "patches"@);
        lemma_lookup_concat(head1, part1, "posts"@);
        lemma_lookup_concat(head1, part1, "puts"@);
        lemma_lookup_concat(head2, part2, "deletes"@);
        lemma_lookup_concat(head2, part2, "patches"@);
        lemma_lookup_concat(head2, part2, "posts"@);
        lemma_lookup_concat(head2, part2, "puts"@);
        lemma_lookup_concat(head3, part3, "deletes"@);
        lemma_lookup_concat(head3, part3, "patches"@);
        lemma_lookup_concat(head3, part3, "posts"@);
        lemma_lookup_concat(head3, part3, "puts"@);
    }
}

/// The record that a batch is to delete.
#[derive(Clone, Debug, PartialEq, Eq)]
pub struct BatchDelete {
    pub id: String,
}

impl ToJson for BatchDelete {
    open spec fn json(&self) -> JsonView {
        JsonView::Object(
            Seq::<(Seq<char>, JsonView)>::empty()
                + required_member::<String>("id"@, self.id),
        )
    }

    fn to_json(&self) -> (j: Json) {
        let mut b = ObjectBuilder::new();
        b.field("id", &self.id);
        b.build()
    }
}

impl Writable for BatchDelete {
    open spec fn sound(&self) -> bool {
        &&& self.id.sound()
    }

    proof fn lemma_writable(v: Self) {
        reveal_strlit("id");
        let head0 = Seq::<(Seq<char>, JsonView)>::empty();
        let part0 = required_member::<String>("id"@, v.id);
        lemma_required_part::<String>("id"@, v.id);
        lemma_extend(head0, part0);
    }
}

impl BatchDelete {
    /// Whether every field is absent, empty or at its default.
    pub open spec fn is_default(&self) -> bool {
        &&& self.id@.len() == 0
    }
}

impl Default for BatchDelete {
    fn default() -> (r: BatchDelete)
        ensures
            r.is_default(),
    {
        BatchDelete { id: String::new() }
    }
}

/// What a DNS record is created or replaced with.
#[derive(Clone, Debug, PartialEq, Eq)]
pub struct DnsRecordOperator {
    /// Time to live for DNS record. Value of 1 is 'automatic'
    pub ttl: Option<u32>,
    /// Whether the record is proxied
    pub proxied: Option<bool>,
    /// DNS record name
    pub name: String,
    /// Type of the DNS record that also holds the record value
    pub content: DnsContent,
}

impl ToJson for DnsRecordOperator {
    open spec fn json(&self) -> JsonView {
        JsonView::Object(
            Seq::<(Seq<char>, JsonView)>::empty()
                + optional_member::<u32>("ttl"@, self.ttl)
                + optional_member::<bool>("proxied"@, self.proxied)
                + required_member::<String>("name"@, self.name)
                + flattened_members(self.content.json()),
        )
    }

    fn to_json(&self) -> (j: Json) {
        let mut b = ObjectBuilder::new();
        b.optional("ttl", &self.ttl);
        b.optional("proxied", &self.proxied);
        b.field("name", &self.name);
        b.flatten(self.content.to_json());
        b.build()
    }
}

impl Writable for DnsRecordOperator {
    open spec fn sound(&self) -> bool {
        true
    }

    proof fn lemma_writable(v: Self) {
        reveal_strlit("ttl");
        reveal_strlit("proxied");
        reveal_strlit("name");
        reveal_strlit("type");
        reveal_strlit("content");
        reveal_strlit("priority");
        assert("ttl"@.len() == 3);
        assert("proxied"@.len() == 7);
        assert("name"@.len() == 4);
        assert("type"@.len() == 4);
        assert("content"@.len() == 7);
        assert("priority"@.len() == 8);
        assert("name"@[0] != "type"@[0]);
        assert("proxied"@[0] != "content"@[0]);
        let head0 = Seq::<(Seq<char>, JsonView)>::empty();
        let part0 = optional_member::<u32>("ttl"@, v.ttl);
        lemma_optional_part::<u32>("ttl"@, v.ttl);
        lemma_extend(head0, part0);
        let head1 = head0 + part0;
        let part1 = optional_member::<bool>("proxied"@, v.proxied);
        lemma_optional_part::<bool>("proxied"@, v.proxied);
        lemma_optional_lookup::<u32>("ttl"@, v.ttl, "proxied"@);
        lemma_lookup_concat(head0, part0, "proxied"@);
        lemma_extend(head1, part1);
        let head2 = head1 + part1;
        let part2 = required_member::<String>("name"@, v.name);
        lemma_required_part::<String>("name"@, v.name);
        lemma_optional_lookup::<u32>("ttl"@, v.ttl, "name"@);
        lemma_lookup_concat(head0, part0, "name"@);
        lemma_optional_lookup::<bool>("proxied"@, v.proxied, "name"@);
        lemma_lookup_concat(head1, part1, "name"@);
        lemma_extend(head2, part2);
        let head3 = head2 + part2;
        let part3 = flattened_members(v.content.json());
        DnsContent::lemma_member_names(v.content);
        lemma_optional_lookup::<u32>("ttl"@, v.ttl, "type"@);
        lemma_lookup_concat(head0, part0, "type"@);
        lemma_optional_lookup::<bool>("proxied"@, v.proxied, "type"@);
        lemma_lookup_concat(head1, part1, "type"@);
        lemma_required_lookup::<String>("name"@, v.name, "type"@);
        lemma_lookup_concat(head2, part2, "type"@);
        lemma_optional_lookup::<u32>("ttl"@, v.ttl, "content"@);
        lemma_lookup_concat(head0, part0, "content"@);
        lemma_optional_lookup::<bool>("proxied"@, v.proxied, "content"@);
        lemma_lookup_concat(head1, part1, "content"@);
        lemma_required_lookup::<String>("name"@, v.name, "content"@);
        lemma_lookup_concat(head2, part2, "content"@);
        lemma_optional_lookup::<u32>("ttl"@, v.ttl, "priority"@);
        lemma_lookup_concat(head0, part0, "priority"@);
        lemma_optional_lookup::<bool>("proxied"@, v.proxied, "priority"@);
        lemma_lookup_concat(head1, part1, "priority"@);
        lemma_required_lookup::<String>("name"@, v.name, "priority"@);
        lemma_lookup_concat(head2, part2, "priority"@);
        lemma_extend(head3, part3);
    }
}

/// The four buckets of a batch response. Each bucket holds the records of the bucket of
/// the same name in the request, in the order of the response; a bucket that the response
/// leaves out is absent.
#[derive(Debug, PartialEq, Eq)]
pub struct BatchDnsRecordsResponse {
    pub deletes: Option<Vec<DnsRecord>>,
    pub patches: Option<Vec<DnsRecord>>,
    pub posts: Option<Vec<DnsRecord>>,
    pub puts: Option<Vec<DnsRecord>>,
}

impl ApiResult for BatchDnsRecordsResponse {
    open spec fn rejection(j: JsonView) -> Option<DecodeErrorView> {
        let e = object_rejection(j);
        let e = then(e, optional_rejection::<Vec<DnsRecord>>(j, "deletes"@));
        let e = then(e, optional_rejection::<Vec<DnsRecord>>(j, "patches"@));
        let e = then(e, optional_rejection::<Vec<DnsRecord>>(j, "posts"@));
        let e = then(e, optional_rejection::<Vec<DnsRecord>>(j, "puts"@));
        e
    }

    open spec fn decodes(j: JsonView, v: Self) -> bool {
        &&& optional_decodes::<Vec<DnsRecord>>(j, "deletes"@, v.deletes)
        &&& optional_decodes::<Vec<DnsRecord>>(j, "patches"@, v.patches)
        &&& optional_decodes::<Vec<DnsRecord>>(j, "posts"@, v.posts)
        &&& optional_decodes::<Vec<DnsRecord>>(j, "puts"@, v.puts)
    }

    fn from_json(j: &Json) -> (r: Result<Self, DecodeError>) {
        match require_object(j) {
            Ok(_) => {},
            Err(e) => {
                return Err(e);
            },
        }
        let deletes = match optional::<Vec<DnsRecord>>(j, "deletes") {
            Ok(v) => v,
            Err(e) => {
                return Err(e);
            },
        };
        let patches = match optional::<Vec<DnsRecord>>(j, "patches") {
            Ok(v) => v,
            Err(e) => {
                return Err(e);
            },
        };
        let posts = match optional::<Vec<DnsRecord>>(j, "posts") {
            Ok(v) => v,
            Err(e) => {
                return Err(e);
            },
        };
        let puts = match optional::<Vec<DnsRecord>>(j, "puts") {
            Ok(v) => v,
            Err(e) => {
                return Err(e);
            },
        };
        Ok(BatchDnsRecordsResponse { deletes, patches, posts, puts })
    }
}

impl BatchDnsRecordsResponse {
    /// A bucket of a batch response holds one record for each element of the list
    /// that the response has under the bucket's name, in the order of that list.
    pub proof fn lemma_bucket_order(j: JsonView, v: BatchDnsRecordsResponse, items: Seq<JsonView>)
        requires
            BatchDnsRecordsResponse::decodes(j, v),
            member(j, "posts"@) == Some(JsonView::List(items)),
        ensures
            v.posts matches Some(records) && records@.len() == items.len() && forall|i: int|
                0 <= i < items.len() ==> DnsRecord::decodes(#[trigger] items[i], records@[i]),
    {
    }
}

/// The records of a bucket of a batch response; an absent bucket holds none.
pub open spec fn bucket_records(bucket: Option<Vec<DnsRecord>>) -> Seq<DnsRecord> {
    match bucket {
        Some(records) => records@,
        None => Seq::empty(),
    }
}

/// The number of records in a bucket of a batch response; an absent bucket holds
/// none.
pub fn bucket_len(bucket: &Option<Vec<DnsRecord>>) -> (n: usize)
    ensures
        n == bucket_records(*bucket).len(),
{
    match bucket {
        Some(records) => records.len(),
        None => 0,
    }
}

/// Get one DNS record.
#[derive(Debug)]
pub struct GetDnsRecord<'a> {
    pub zone_identifier: &'a str,
    pub record_identifier: &'a str,
}

impl<'a> EndpointSpec for GetDnsRecord<'a> {
    type JsonResponse = DnsRecord;

    type ResponseType = ApiSuccess<Self::JsonResponse>;

    open spec fn method_spec(&self) -> Method {
        Method::GET
    }

    open spec fn path_spec(&self) -> Seq<char> {
        "zones/"@ + self.zone_identifier@ + "/dns_records/"@ + self.record_identifier@
    }

    open spec fn query_spec(&self) -> Seq<(Seq<char>, Seq<char>)> {
        Seq::empty()
    }

    open spec fn body_spec(&self) -> Option<JsonView> {
        None
    }

    fn method(&self) -> (m: Method) {
        Method::GET
    }

    fn path(&self) -> (p: String) {
        let mut p = String::from_str("zones/");
        p.append(self.zone_identifier);
        p.append("/dns_records/");
        p.append(self.record_identifier);
        p
    }

    fn query(&self) -> (q: Option<String>) {
        None
    }

    fn body(&self) -> (b: Result<Option<RequestBody>, RequestError>) {
        Ok(None)
    }
}

/// Scan for the common DNS records of a zone.
#[derive(Debug)]
pub struct ScanDnsRecords<'a> {
    pub zone_identifier: &'a str,
}

impl<'a> EndpointSpec for ScanDnsRecords<'a> {
    type JsonResponse = Option<ScanDnsRecordsResponse>;

    type ResponseType = ApiSuccess<Self::JsonResponse>;

    open spec fn method_spec(&self) -> Method {
        Method::POST
    }

    open spec fn path_spec(&self) -> Seq<char> {
        "zones/"@ + self.zone_identifier@ + "/dns_records/scan"@
    }

    open spec fn query_spec(&self) -> Seq<(Seq<char>, Seq<char>)> {
        Seq::empty()
    }

    open spec fn body_spec(&self) -> Option<JsonView> {
        None
    }

    fn method(&self) -> (m: Method) {
        Method::POST
    }

    fn path(&self) -> (p: String) {
        let mut p = String::from_str("zones/");
        p.append(self.zone_identifier);
        p.append("/dns_records/scan");
        p
    }

    fn query(&self) -> (q: Option<String>) {
        None
    }

    fn body(&self) -> (b: Result<Option<RequestBody>, RequestError>) {
        Ok(None)
    }
}

/// What a scan found.
#[derive(Debug, PartialEq, Eq)]
pub struct ScanDnsRecordsResponse {
    pub recs_added: Option<u32>,
    pub total_records_parsed: Option<u32>,
}

impl ApiResult for ScanDnsRecordsResponse {
    open spec fn rejection(j: JsonView) -> Option<DecodeErrorView> {
        let e = object_rejection(j);
        let e = then(e, optional_rejection::<u32>(j, "recs_added"@));
        let e = then(e, optional_rejection::<u32>(j, "total_records_parsed"@));
        e
    }

    open spec fn decodes(j: JsonView, v: Self) -> bool {
        &&& optional_decodes::<u32>(j, "recs_added"@, v.recs_added)
        &&& optional_decodes::<u32>(j, "total_records_parsed"@, v.total_records_parsed)
    }

    fn from_json(j: &Json) -> (r: Result<Self, DecodeError>) {
        match require_object(j) {
            Ok(_) => {},
            Err(e) => {
                return Err(e);
            },
        }
        let recs_added = match optional::<u32>(j, "recs_added") {
            Ok(v) => v,
            Err(e) => {
                return Err(e);
            },
        };
        let total_records_parsed = match optional::<u32>(j, "total_records_parsed") {
            Ok(v) => v,
            Err(e) => {
                return Err(e);
            },
        };
        Ok(ScanDnsRecordsResponse { recs_added, total_records_parsed })
    }
}

/// Overwrite a DNS record.
#[derive(Debug)]
pub struct OverwriteDnsRecord<'a> {
    pub zone_identifier: &'a str,
    pub record_identifier: &'a str,
    pub params: DnsRecordOperator,
}

impl<'a> EndpointSpec for OverwriteDnsRecord<'a> {
    type JsonResponse = DnsRecord;

    type ResponseType = ApiSuccess<Self::JsonResponse>;

    open spec fn method_spec(&self) -> Method {
        Method::PUT
    }

    open spec fn path_spec(&self) -> Seq<char> {
        "zones/"@ + self.zone_identifier@ + "/dns_records/"@ + self.record_identifier@
    }

    open spec fn query_spec(&self) -> Seq<(Seq<char>, Seq<char>)> {
        Seq::empty()
    }

    open spec fn body_spec(&self) -> Option<JsonView> {
        Some(self.params.json())
    }

    fn method(&self) -> (m: Method) {
        Method::PUT
    }

    fn path(&self) -> (p: String) {
        let mut p = String::from_str("zones/");
        p.append(self.zone_identifier);
        p.append("/dns_records/");
        p.append(self.record_identifier);
        p
    }

    fn query(&self) -> (q: Option<String>) {
        None
    }

    fn body(&self) -> (b: Result<Option<RequestBody>, RequestError>) {
        render_body(&self.params.to_json())
    }
}

} // verus!
