use vstd::prelude::*;
use vstd::string::*;
use crate::framework::codec::{lemma_optional_lookup, Codec};
use crate::framework::decode::{
    object_rejection, optional, optional_decodes, optional_rejection, require_object, required,
    required_decodes, required_rejection, then, ApiResult, DecodeError, DecodeErrorView,
};
use crate::framework::encode::{flattened_members, optional_member, ObjectBuilder, ToJson};
use crate::framework::endpoint::{render_body, EndpointSpec, Method, RequestBody, RequestError};
use crate::framework::response::ApiSuccess;
use crate::framework::variant::{tag, tag_of, tag_rejection, unknown_tag, TextEnum};
use crate::framework::writable::{all_writable, lemma_extend, lemma_optional_part, Writable};
use crate::framework::{BooleanValue, TlsVersion};
use crate::json::{lemma_lookup_concat, lemma_lookup_push, member, Json, JsonView, Number};
use crate::syntax::{names_differ, writable};
use crate::text::str_eq;
use crate::time::Timestamp;

verus! {

/// A setting of a zone and its value. The setting's identifier is the discriminator
/// in JSON and a segment of the path, and both take it from `id`.
#[allow(inconsistent_fields)]
#[derive(Clone, Copy, Debug, PartialEq, Eq, Structural)]
pub enum ZoneSettingValue {
    AlwaysUseHttps { value: BooleanValue },
    MinTlsVersion { value: TlsVersion },
}

impl ZoneSettingValue {
    /// The identifier of the setting.
    pub open spec fn id(&self) -> Seq<char> {
        match self {
            ZoneSettingValue::AlwaysUseHttps { .. } => "always_use_https"@,
            ZoneSettingValue::MinTlsVersion { .. } => "min_tls_version"@,
        }
    }

    /// The setting's value as JSON.
    pub open spec fn value_json(&self) -> JsonView {
        match self {
            ZoneSettingValue::AlwaysUseHttps { value } => value.json(),
            ZoneSettingValue::MinTlsVersion { value } => value.json(),
        }
    }

    /// The identifier of the setting, as the path and the JSON object hold it.
    pub fn as_ref(&self) -> (s: &'static str)
        ensures
            s@ == self.id(),
    {
        match self {
            ZoneSettingValue::AlwaysUseHttps { .. } => "always_use_https",
            ZoneSettingValue::MinTlsVersion { .. } => "min_tls_version",
        }
    }
}

impl ToJson for ZoneSettingValue {
    open spec fn json(&self) -> JsonView {
        JsonView::Object(
            Seq::<(Seq<char>, JsonView)>::empty()
                + seq![("id"@, JsonView::Text(self.id()))]
                + seq![("value"@, self.value_json())],
        )
    }

    fn to_json(&self) -> (j: Json) {
        let mut b = ObjectBuilder::new();
        b.member("id", Json::Text(String::from_str(self.as_ref())));
        match self {
            ZoneSettingValue::AlwaysUseHttps { value } => {
                b.member("value", value.to_json());
            },
            ZoneSettingValue::MinTlsVersion { value } => {
                b.member("value", value.to_json());
            },
        }
        proof {
            assert(b@ =~= Seq::<(Seq<char>, JsonView)>::empty() + seq![
                ("id"@, JsonView::Text(self.id())),
            ] + seq![("value"@, self.value_json())]);
        }
        b.build()
    }
}

impl ApiResult for ZoneSettingValue {
    open spec fn rejection(j: JsonView) -> Option<DecodeErrorView> {
        let t = tag_of(j, "id"@);
        if tag_rejection(j, "id"@) is Some {
            tag_rejection(j, "id"@)
        } else if t == "always_use_https"@ {
            required_rejection::<BooleanValue>(j, "value"@)
        } else if t == "min_tls_version"@ {
            required_rejection::<TlsVersion>(j, "value"@)
        } else {
            Some(unknown_tag(j, "id"@))
        }
    }

    open spec fn decodes(j: JsonView, v: Self) -> bool {
        &&& tag_of(j, "id"@) == v.id()
        &&& match v {
            ZoneSettingValue::AlwaysUseHttps { value } => required_decodes::<BooleanValue>(
                j,
                "value"@,
                value,
            ),
            ZoneSettingValue::MinTlsVersion { value } => required_decodes::<TlsVersion>(
                j,
                "value"@,
                value,
            ),
        }
    }

    fn from_json(j: &Json) -> (r: Result<Self, DecodeError>) {
        let t = match tag(j, "id") {
            Ok(t) => t,
            Err(e) => {
                return Err(e);
            },
        };
        let t = t.as_str();
        if str_eq(t, "always_use_https") {
            match required::<BooleanValue>(j, "value") {
                Ok(value) => Ok(ZoneSettingValue::AlwaysUseHttps { value }),
                Err(e) => Err(e),
            }
        } else if str_eq(t, "min_tls_version") {
            match required::<TlsVersion>(j, "value") {
                Ok(value) => Ok(ZoneSettingValue::MinTlsVersion { value }),
                Err(e) => Err(e),
            }
        } else {
            Err(DecodeError::UnknownDiscriminator(Json::Text(String::from_str(t))))
        }
    }
}

impl ZoneSettingValue {
    /// What the members of a setting's JSON object are found to be.
    proof fn lemma_members(v: ZoneSettingValue)
        ensures
            v.json() is Object,
            member(v.json(), "id"@) == Some(JsonView::Text(v.id())),
            member(v.json(), "value"@) == Some(v.value_json()),
    {
        reveal_strlit("id");
        reveal_strlit("value");
        assert("id"@.len() == 2);
        assert("value"@.len() == 5);
        let head0 = Seq::<(Seq<char>, JsonView)>::empty();
        let part0 = seq![("id"@, JsonView::Text(v.id()))];
        let part1 = seq![("value"@, v.value_json())];
        assert(part0 =~= head0.push(("id"@, JsonView::Text(v.id()))));
        assert(part1 =~= head0.push(("value"@, v.value_json())));
        lemma_lookup_push(head0, "id"@, JsonView::Text(v.id()), "id"@);
        lemma_lookup_push(head0, "id"@, JsonView::Text(v.id()), "value"@);
        lemma_lookup_push(head0, "value"@, v.value_json(), "id"@);
        lemma_lookup_push(head0, "value"@, v.value_json(), "value"@);
        lemma_lookup_concat(head0, part0, "id"@);
        lemma_lookup_concat(head0, part0, "value"@);
        lemma_lookup_concat(head0 + part0, part1, "id"@);
        lemma_lookup_concat(head0 + part0, part1, "value"@);
    }

    /// What decodes from the JSON written for a setting is that setting.
    pub proof fn lemma_round_trip_exact(v: ZoneSettingValue, w: ZoneSettingValue)
        requires
            ZoneSettingValue::decodes(v.json(), w),
        ensures
            w == v,
    {
        Self::lemma_members(v);
        reveal_strlit("always_use_https");
        reveal_strlit("min_tls_version");
        assert("always_use_https"@.len() == 16);
        assert("min_tls_version"@.len() == 15);
        match v {
            ZoneSettingValue::AlwaysUseHttps { value } => {
                BooleanValue::lemma_named_text(value);
            },
            ZoneSettingValue::MinTlsVersion { value } => {
                TlsVersion::lemma_named_text(value);
            },
        }
    }
}

impl Codec for ZoneSettingValue {
    proof fn lemma_round_trip(v: Self) {
        Self::lemma_members(v);
        reveal_strlit("always_use_https");
        reveal_strlit("min_tls_version");
        assert("always_use_https"@.len() == 16);
        assert("min_tls_version"@.len() == 15);
        match v {
            ZoneSettingValue::AlwaysUseHttps { value } => {
                BooleanValue::lemma_round_trip(value);
            },
            ZoneSettingValue::MinTlsVersion { value } => {
                TlsVersion::lemma_round_trip(value);
            },
        }
        assert(Self::rejection(v.json()) is None);
        assert(Self::decodes(v.json(), v));
        assert forall|w: Self| Self::decodes(v.json(), w) implies w.json() == v.json() by {
            Self::lemma_round_trip_exact(v, w);
        }
    }
}

impl ZoneSettingValue {
    /// The members of a setting's JSON object: their names differ, their values can
    /// be written, and each is named `id` or `value`.
    pub proof fn lemma_member_names(v: ZoneSettingValue)
        ensures
            v.json() == JsonView::Object(flattened_members(v.json())),
            names_differ(flattened_members(v.json())),
            all_writable(flattened_members(v.json())),
            forall|i: int|
                0 <= i < flattened_members(v.json()).len() ==> {
                    let name = (#[trigger] flattened_members(v.json())[i]).0;
                    name == "id"@ || name == "value"@
                },
    {
        reveal_strlit("id");
        reveal_strlit("value");
        assert("id"@.len() == 2);
        assert("value"@.len() == 5);
        let fields = flattened_members(v.json());
        assert(fields.len() == 2);
        assert(fields[0].0 == "id"@);
        assert(fields[1].0 == "value"@);
        assert forall|i: int| 0 <= i < fields.len() implies writable((#[trigger] fields[i]).1) by {
            if i == 0 {
            } else {
                assert(fields[1].1 is Text);
            }
        }
    }
}

impl Writable for ZoneSettingValue {
    open spec fn sound(&self) -> bool {
        true
    }

    proof fn lemma_writable(v: Self) {
        Self::lemma_member_names(v);
    }
}

/// Edit a setting of a zone.
#[derive(Debug, PartialEq, Eq)]
pub struct EditZoneSetting<'a> {
    /// The zone; it stands in the path and not in the body.
    pub zone_identifier: &'a str,
    pub enabled: Option<bool>,
    pub value: ZoneSettingValue,
}

impl<'a> ToJson for EditZoneSetting<'a> {
    open spec fn json(&self) -> JsonView {
        JsonView::Object(
            Seq::<(Seq<char>, JsonView)>::empty()
                + optional_member::<bool>("enabled"@, self.enabled)
                + flattened_members(self.value.json()),
        )
    }

    fn to_json(&self) -> (j: Json) {
        let mut b = ObjectBuilder::new();
        b.optional("enabled", &self.enabled);
        b.flatten(self.value.to_json());
        b.build()
    }
}

impl<'a> Writable for EditZoneSetting<'a> {
    open spec fn sound(&self) -> bool {
        true
    }

    proof fn lemma_writable(v: Self) {
        reveal_strlit("enabled");
        reveal_strlit("id");
        reveal_strlit("value");
        assert("enabled"@.len() == 7);
        assert("id"@.len() == 2);
        assert("value"@.len() == 5);
        let head0 = Seq::<(Seq<char>, JsonView)>::empty();
        let part0 = optional_member::<bool>("enabled"@, v.enabled);
        lemma_optional_part::<bool>("enabled"@, v.enabled);
        lemma_extend(head0, part0);
        let head1 = head0 + part0;
        let part1 = flattened_members(v.value.json());
        ZoneSettingValue::lemma_member_names(v.value);
        lemma_optional_lookup::<bool>("enabled"@, v.enabled, "id"@);
        lemma_lookup_concat(head0, part0, "id"@);
        lemma_optional_lookup::<bool>("enabled"@, v.enabled, "value"@);
        lemma_lookup_concat(head0, part0, "value"@);
        lemma_extend(head1, part1);
    }
}

impl<'a> EndpointSpec for EditZoneSetting<'a> {
    type JsonResponse = ZoneSettingResponse;

    type ResponseType = ApiSuccess<Self::JsonResponse>;

    open spec fn method_spec(&self) -> Method {
        Method::PATCH
    }

    open spec fn path_spec(&self) -> Seq<char> {
        "zones/"@ + self.zone_identifier@ + "/settings/"@ + self.value.id()
    }

    open spec fn query_spec(&self) -> Seq<(Seq<char>, Seq<char>)> {
        Seq::empty()
    }

    open spec fn body_spec(&self) -> Option<JsonView> {
        Some(self.json())
    }

    fn method(&self) -> (m: Method) {
        Method::PATCH
    }

    fn path(&self) -> (p: String) {
        let mut p = String::from_str("zones/");
        p.append(self.zone_identifier);
        p.append("/settings/");
        p.append(self.value.as_ref());
        p
    }

    fn query(&self) -> (q: Option<String>) {
        None
    }

    fn body(&self) -> (b: Result<Option<RequestBody>, RequestError>) {
        render_body(&self.to_json())
    }
}

/// Get a setting of a zone.
#[derive(Debug)]
pub struct GetZoneSetting<'a> {
    pub zone_identifier: &'a str,
    pub setting_id: &'a str,
}

impl<'a> EndpointSpec for GetZoneSetting<'a> {
    type JsonResponse = ZoneSettingResponse;

    type ResponseType = ApiSuccess<Self::JsonResponse>;

    open spec fn method_spec(&self) -> Method {
        Method::GET
    }

    open spec fn path_spec(&self) -> Seq<char> {
        "zones/"@ + self.zone_identifier@ + "/settings/"@ + self.setting_id@
    }

    open spec fn query_spec(&self) -> Seq<(Seq<char>, Seq<char>)> {
        Seq::empty()
    }

    open spec fn body_spec(&self) -> Option<JsonView> {
        None
    }

    fn method(&self) -> (m: Method) {
        Method::GET
    }

    fn path(&self) -> (p: String) {
        let mut p = String::from_str("zones/");
        p.append(self.zone_identifier);
        p.append("/settings/");
        p.append(self.setting_id);
        p
    }

    fn query(&self) -> (q: Option<String>) {
        None
    }

    fn body(&self) -> (b: Result<Option<RequestBody>, RequestError>) {
        Ok(None)
    }
}

/// A setting of a zone as the service describes it.
#[derive(Debug, PartialEq, Eq)]
pub struct ZoneSettingResponse {
    pub editable: bool,
    pub value: ZoneSettingValue,
    pub modified_on: Option<Timestamp>,
    pub enabled: Option<bool>,
    /// The seconds that remain, as the number that the response holds.
    pub time_remaining: Option<Number>,
}

impl ApiResult for ZoneSettingResponse {
    open spec fn rejection(j: JsonView) -> Option<DecodeErrorView> {
        let e = object_rejection(j);
        let e = then(e, required_rejection::<bool>(j, "editable"@));
        let e = then(e, ZoneSettingValue::rejection(j));
        let e = then(e, optional_rejection::<Timestamp>(j, "modified_on"@));
        let e = then(e, optional_rejection::<bool>(j, "enabled"@));
        let e = then(e, optional_rejection::<Number>(j, "time_remaining"@));
        e
    }

    open spec fn decodes(j: JsonView, v: Self) -> bool {
        &&& required_decodes::<bool>(j, "editable"@, v.editable)
        &&& ZoneSettingValue::decodes(j, v.value)
        &&& optional_decodes::<Timestamp>(j, "modified_on"@, v.modified_on)
        &&& optional_decodes::<bool>(j, "enabled"@, v.enabled)
        &&& optional_decodes::<Number>(j, "time_remaining"@, v.time_remaining)
    }

    fn from_json(j: &Json) -> (r: Result<Self, DecodeError>) {
        match require_object(j) {
            Ok(_) => {},
            Err(e) => {
                return Err(e);
            },
        }
        let editable = match required::<bool>(j, "editable") {
            Ok(v) => v,
            Err(e) => {
                return Err(e);
            },
        };
        let value = match ZoneSettingValue::from_json(j) {
            Ok(v) => v,
            Err(e) => {
                return Err(e);
            },
        };
        let modified_on = match optional::<Timestamp>(j, "modified_on") {
            Ok(v) => v,
            Err(e) => {
                return Err(e);
            },
        };
        let enabled = match optional::<bool>(j, "enabled") {
            Ok(v) => v,
            Err(e) => {
                return Err(e);
            },
        };
        let time_remaining = match optional::<Number>(j, "time_remaining") {
            Ok(v) => v,
            Err(e) => {
                return Err(e);
            },
        };
        Ok(ZoneSettingResponse { editable, value, modified_on, enabled, time_remaining })
    }
}

} // verus!
