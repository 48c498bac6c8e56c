use vstd::prelude::*;
use vstd::string::*;
use crate::framework::codec::Codec;
use crate::framework::decode::{
    listed, listed_decodes, listed_rejection, object_rejection, optional, optional_decodes,
    optional_rejection, require_object, then, ApiResult, DecodeError, DecodeErrorView,
};
use crate::framework::encode::{required_member, ObjectBuilder, ToJson};
use crate::framework::endpoint::{render_body, EndpointSpec, Method, RequestBody, RequestError};
use crate::framework::response::ApiSuccess;
use crate::framework::variant::{
    text_decodes, text_from_json, text_rejection, text_to_json, TextEnum,
};
use crate::framework::writable::{lemma_extend, lemma_required_part, Writable};
use crate::json::{Json, JsonView};
use crate::text::str_eq;
use crate::time::Timestamp;

verus! {

/// Delete the fallback origin of a zone's custom hostnames.
#[derive(Debug)]
pub struct DeleteFallbackOrigin<'a> {
    pub zone_identifier: &'a str,
}

impl<'a> EndpointSpec for DeleteFallbackOrigin<'a> {
    type JsonResponse = FallbackOriginStatus;

    type ResponseType = ApiSuccess<Self::JsonResponse>;

    open spec fn method_spec(&self) -> Method {
        Method::DELETE
    }

    open spec fn path_spec(&self) -> Seq<char> {
        "zones/"@ + self.zone_identifier@ + "/custom_hostnames/fallback_origin"@
    }

    open spec fn query_spec(&self) -> Seq<(Seq<char>, Seq<char>)> {
        Seq::empty()
    }

    open spec fn body_spec(&self) -> Option<JsonView> {
        None
    }

    fn method(&self) -> (m: Method) {
        Method::DELETE
    }

    fn path(&self) -> (p: String) {
        let mut p = String::from_str("zones/");
        p.append(self.zone_identifier);
        p.append("/custom_hostnames/fallback_origin");
        p
    }

    fn query(&self) -> (q: Option<String>) {
        None
    }

    fn body(&self) -> (b: Result<Option<RequestBody>, RequestError>) {
        Ok(None)
    }
}

/// Get the fallback origin of a zone's custom hostnames.
#[derive(Debug)]
pub struct GetFallbackOrigin<'a> {
    pub zone_identifier: &'a str,
}

impl<'a> EndpointSpec for GetFallbackOrigin<'a> {
    type JsonResponse = FallbackOriginStatus;

    type ResponseType = ApiSuccess<Self::JsonResponse>;

    open spec fn method_spec(&self) -> Method {
        Method::GET
    }

    open spec fn path_spec(&self) -> Seq<char> {
        "zones/"@ + self.zone_identifier@ + "/custom_hostnames/fallback_origin"@
    }

    open spec fn query_spec(&self) -> Seq<(Seq<char>, Seq<char>)> {
        Seq::empty()
    }

    open spec fn body_spec(&self) -> Option<JsonView> {
        None
    }

    fn method(&self) -> (m: Method) {
        Method::GET
    }

    fn path(&self) -> (p: String) {
        let mut p = String::from_str("zones/");
        p.append(self.zone_identifier);
        p.append("/custom_hostnames/fallback_origin");
        p
    }

    fn query(&self) -> (q: Option<String>) {
        None
    }

    fn body(&self) -> (b: Result<Option<RequestBody>, RequestError>) {
        Ok(None)
    }
}

/// Set the fallback origin of a zone's custom hostnames.
#[derive(Debug)]
pub struct UpdateFallbackOrigin<'a> {
    pub zone_identifier: &'a str,
    pub params: UpdateFallbackOriginParams,
}

impl<'a> EndpointSpec for UpdateFallbackOrigin<'a> {
    type JsonResponse = FallbackOriginStatus;

    type ResponseType = ApiSuccess<Self::JsonResponse>;

    open spec fn method_spec(&self) -> Method {
        Method::PUT
    }

    open spec fn path_spec(&self) -> Seq<char> {
        "zones/"@ + self.zone_identifier@ + "/custom_hostnames/fallback_origin"@
    }

    open spec fn query_spec(&self) -> Seq<(Seq<char>, Seq<char>)> {
        Seq::empty()
    }

    open spec fn body_spec(&self) -> Option<JsonView> {
        Some(self.params.json())
    }

    fn method(&self) -> (m: Method) {
        Method::PUT
    }

    fn path(&self) -> (p: String) {
        let mut p = String::from_str("zones/");
        p.append(self.zone_identifier);
        p.append("/custom_hostnames/fallback_origin");
        p
    }

    fn query(&self) -> (q: Option<String>) {
        None
    }

    fn body(&self) -> (b: Result<Option<RequestBody>, RequestError>) {
        render_body(&self.params.to_json())
    }
}

/// The new fallback origin.
#[derive(Clone, Debug, PartialEq, Eq)]
pub struct UpdateFallbackOriginParams {
    pub origin: String,
}

impl ToJson for UpdateFallbackOriginParams {
    open spec fn json(&self) -> JsonView {
        JsonView::Object(
            Seq::<(Seq<char>, JsonView)>::empty()
                + required_member::<String>("origin"@, self.origin),
        )
    }

    fn to_json(&self) -> (j: Json) {
        let mut b = ObjectBuilder::new();
        b.field("origin", &self.origin);
        b.build()
    }
}

impl Writable for UpdateFallbackOriginParams {
    open spec fn sound(&self) -> bool {
        &&& self.origin.sound()
    }

    proof fn lemma_writable(v: Self) {
        reveal_strlit("origin");
        let head0 = Seq::<(Seq<char>, JsonView)>::empty();
        let part0 = required_member::<String>("origin"@, v.origin);
        lemma_required_part::<String>("origin"@, v.origin);
        lemma_extend(head0, part0);
    }
}

/// The fallback origin of a zone and the state it is in.
#[derive(Clone, Debug, PartialEq, Eq)]
pub struct FallbackOriginStatus {
    pub created_at: Option<Timestamp>,
    pub errors: Vec<String>,
    pub origin: Option<String>,
    pub status: Option<FallbackOriginActivationStatus>,
    pub updated_at: Option<Timestamp>,
}

impl ApiResult for FallbackOriginStatus {
    open spec fn rejection(j: JsonView) -> Option<DecodeErrorView> {
        let e = object_rejection(j);
        let e = then(e, optional_rejection::<Timestamp>(j, "created_at"@));
        let e = then(e, listed_rejection::<String>(j, "errors"@));
        let e = then(e, optional_rejection::<String>(j, "origin"@));
        let e = then(e, optional_rejection::<FallbackOriginActivationStatus>(j, "status"@));
        let e = then(e, optional_rejection::<Timestamp>(j, "updated_at"@));
        e
    }

    open spec fn decodes(j: JsonView, v: Self) -> bool {
        &&& optional_decodes::<Timestamp>(j, "created_at"@, v.created_at)
        &&& listed_decodes::<String>(j, "errors"@, v.errors)
        &&& optional_decodes::<String>(j, "origin"@, v.origin)
        &&& optional_decodes::<FallbackOriginActivationStatus>(j, "status"@, v.status)
        &&& optional_decodes::<Timestamp>(j, "updated_at"@, v.updated_at)
    }

    fn from_json(j: &Json) -> (r: Result<Self, DecodeError>) {
        match require_object(j) {
            Ok(_) => {},
            Err(e) => {
                return Err(e);
            },
        }
        let created_at = match optional::<Timestamp>(j, "created_at") {
            Ok(v) => v,
            Err(e) => {
                return Err(e);
            },
        };
        let errors = match listed::<String>(j, "errors") {
            Ok(v) => v,
            Err(e) => {
                return Err(e);
            },
        };
        let origin = match optional::<String>(j, "origin") {
            Ok(v) => v,
            Err(e) => {
                return Err(e);
            },
        };
        let status = match optional::<FallbackOriginActivationStatus>(j, "status") {
            Ok(v) => v,
            Err(e) => {
                return Err(e);
            },
        };
        let updated_at = match optional::<Timestamp>(j, "updated_at") {
            Ok(v) => v,
            Err(e) => {
                return Err(e);
            },
        };
        Ok(FallbackOriginStatus { created_at, errors, origin, status, updated_at })
    }
}

/// The state of a fallback origin.
#[derive(Clone, Copy, Debug, PartialEq, Eq, Structural)]
pub enum FallbackOriginActivationStatus {
    Initializing,
    PendingDeployment,
    PendingDeletion,
    Active,
    DeploymentTimedOut,
    DeletionTimedOut,
}

impl TextEnum for FallbackOriginActivationStatus {
    open spec fn text(&self) -> Seq<char> {
        match self {
            FallbackOriginActivationStatus::Initializing => "initializing"@,
            FallbackOriginActivationStatus::PendingDeployment => "pending_deployment"@,
            FallbackOriginActivationStatus::PendingDeletion => "pending_deletion"@,
            FallbackOriginActivationStatus::Active => "active"@,
            FallbackOriginActivationStatus::DeploymentTimedOut => "deployment_timed_out"@,
            FallbackOriginActivationStatus::DeletionTimedOut => "deletion_timed_out"@,
        }
    }

    open spec fn named(t: Seq<char>) -> Option<Self> {
        if t == "initializing"@ {
            Some(FallbackOriginActivationStatus::Initializing)
        } else if t == "pending_deployment"@ {
            Some(FallbackOriginActivationStatus::PendingDeployment)
        } else if t == "pending_deletion"@ {
            Some(FallbackOriginActivationStatus::PendingDeletion)
        } else if t == "active"@ {
            Some(FallbackOriginActivationStatus::Active)
        } else if t == "deployment_timed_out"@ {
            Some(FallbackOriginActivationStatus::DeploymentTimedOut)
        } else if t == "deletion_timed_out"@ {
            Some(FallbackOriginActivationStatus::DeletionTimedOut)
        } else {
            None
        }
    }

    fn as_str(&self) -> (s: &'static str) {
        match self {
            FallbackOriginActivationStatus::Initializing => "initializing",
            FallbackOriginActivationStatus::PendingDeployment => "pending_deployment",
            FallbackOriginActivationStatus::PendingDeletion => "pending_deletion",
            FallbackOriginActivationStatus::Active => "active",
            FallbackOriginActivationStatus::DeploymentTimedOut => "deployment_timed_out",
            FallbackOriginActivationStatus::DeletionTimedOut => "deletion_timed_out",
        }
    }

    fn from_text(t: &str) -> (r: Option<Self>) {
        if str_eq(t, "initializing") {
            Some(FallbackOriginActivationStatus::Initializing)
        } else if str_eq(t, "pending_deployment") {
            Some(FallbackOriginActivationStatus::PendingDeployment)
        } else if str_eq(t, "pending_deletion") {
            Some(FallbackOriginActivationStatus::PendingDeletion)
        } else if str_eq(t, "active") {
            Some(FallbackOriginActivationStatus::Active)
        } else if str_eq(t, "deployment_timed_out") {
            Some(FallbackOriginActivationStatus::DeploymentTimedOut)
        } else if str_eq(t, "deletion_timed_out") {
            Some(FallbackOriginActivationStatus::DeletionTimedOut)
        } else {
            None
        }
    }

    proof fn lemma_named_text(v: Self) {
        reveal_strlit("initializing");
        reveal_strlit("pending_deployment");
        reveal_strlit("pending_deletion");
        reveal_strlit("active");
        reveal_strlit("deployment_timed_out");
        reveal_strlit("deletion_timed_out");
        assert("initializing"@.len() == 12);
        assert("pending_deployment"@.len() == 18);
        assert("pending_deletion"@.len() == 16);
        assert("active"@.len() == 6);
        assert("deployment_timed_out"@.len() == 20);
        assert("deletion_timed_out"@.len() == 18);
        assert("pending_deployment"@[0] != "deletion_timed_out"@[0]);
    }
}

impl ToJson for FallbackOriginActivationStatus {
    open spec fn json(&self) -> JsonView {
        JsonView::Text(self.text())
    }

    fn to_json(&self) -> (j: Json) {
        text_to_json(self)
    }
}

impl ApiResult for FallbackOriginActivationStatus {
    open spec fn rejection(j: JsonView) -> Option<DecodeErrorView> {
        text_rejection::<FallbackOriginActivationStatus>(j)
    }

    open spec fn decodes(j: JsonView, v: Self) -> bool {
        text_decodes::<FallbackOriginActivationStatus>(j, v)
    }

    fn from_json(j: &Json) -> (r: Result<Self, DecodeError>) {
        text_from_json::<FallbackOriginActivationStatus>(j)
    }
}

impl Writable for FallbackOriginActivationStatus {
    open spec fn sound(&self) -> bool {
        true
    }

    proof fn lemma_writable(v: Self) {
    }
}

impl Codec for FallbackOriginActivationStatus {
    proof fn lemma_round_trip(v: Self) {
        Self::lemma_named_text(v);
    }
}

} // verus!
