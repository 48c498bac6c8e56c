use vstd::prelude::*;
use vstd::string::*;
use crate::framework::codec::Codec;
use crate::framework::decode::{
    object_rejection, optional, optional_decodes, optional_rejection, require_object, required,
    required_decodes, required_rejection, then, ApiResult, DecodeError, DecodeErrorView,
};
use crate::framework::encode::ToJson;
use crate::framework::endpoint::{EndpointSpec, Method, RequestBody, RequestError};
use crate::framework::response::ApiSuccess;
use crate::framework::variant::{
    text_decodes, text_from_json, text_rejection, text_to_json, TextEnum,
};
use crate::framework::writable::Writable;
use crate::json::{Json, JsonView};
use crate::text::str_eq;
use crate::time::Timestamp;

verus! {

/// Get the email routing settings of a zone.
#[derive(Debug)]
pub struct GetRoutingSetting<'a> {
    pub zone_identifier: &'a str,
}

impl<'a> EndpointSpec for GetRoutingSetting<'a> {
    type JsonResponse = RoutingSettings;

    type ResponseType = ApiSuccess<Self::JsonResponse>;

    open spec fn method_spec(&self) -> Method {
        Method::GET
    }

    open spec fn path_spec(&self) -> Seq<char> {
        "zones/"@ + self.zone_identifier@ + "/email/routing"@
    }

    open spec fn query_spec(&self) -> Seq<(Seq<char>, Seq<char>)> {
        Seq::empty()
    }

    open spec fn body_spec(&self) -> Option<JsonView> {
        None
    }

    fn method(&self) -> (m: Method) {
        Method::GET
    }

    fn path(&self) -> (p: String) {
        let mut p = String::from_str("zones/");
        p.append(self.zone_identifier);
        p.append("/email/routing");
        p
    }

    fn query(&self) -> (q: Option<String>) {
        None
    }

    fn body(&self) -> (b: Result<Option<RequestBody>, RequestError>) {
        Ok(None)
    }
}

/// The email routing settings of a zone.
#[derive(Clone, Debug, PartialEq, Eq)]
pub struct RoutingSettings {
    pub id: String,
    pub enabled: bool,
    pub name: String,
    pub created: Option<Timestamp>,
    pub modified: Option<Timestamp>,
    pub status: Option<EmailRoutingStatus>,
    pub skip_wizard: Option<bool>,
}

impl ApiResult for RoutingSettings {
    open spec fn rejection(j: JsonView) -> Option<DecodeErrorView> {
        let e = object_rejection(j);
        let e = then(e, required_rejection::<String>(j, "id"@));
        let e = then(e, required_rejection::<bool>(j, "enabled"@));
        let e = then(e, required_rejection::<String>(j, "name"@));
        let e = then(e, optional_rejection::<Timestamp>(j, "created"@));
        let e = then(e, optional_rejection::<Timestamp>(j, "modified"@));
        let e = then(e, optional_rejection::<EmailRoutingStatus>(j, "status"@));
        let e = then(e, optional_rejection::<bool>(j, "skip_wizard"@));
        e
    }

    open spec fn decodes(j: JsonView, v: Self) -> bool {
        &&& required_decodes::<String>(j, "id"@, v.id)
        &&& required_decodes::<bool>(j, "enabled"@, v.enabled)
        &&& required_decodes::<String>(j, "name"@, v.name)
        &&& optional_decodes::<Timestamp>(j, "created"@, v.created)
        &&& optional_decodes::<Timestamp>(j, "modified"@, v.modified)
        &&& optional_decodes::<EmailRoutingStatus>(j, "status"@, v.status)
        &&& optional_decodes::<bool>(j, "skip_wizard"@, v.skip_wizard)
    }

    fn from_json(j: &Json) -> (r: Result<Self, DecodeError>) {
        match require_object(j) {
            Ok(_) => {},
            Err(e) => {
                return Err(e);
            },
        }
        let id = match required::<String>(j, "id") {
            Ok(v) => v,
            Err(e) => {
                return Err(e);
            },
        };
        let enabled = match required::<bool>(j, "enabled") {
            Ok(v) => v,
            Err(e) => {
                return Err(e);
            },
        };
        let name = match required::<String>(j, "name") {
            Ok(v) => v,
            Err(e) => {
                return Err(e);
            },
        };
        let created = match optional::<Timestamp>(j, "created") {
            Ok(v) => v,
            Err(e) => {
                return Err(e);
            },
        };
        let modified = match optional::<Timestamp>(j, "modified") {
            Ok(v) => v,
            Err(e) => {
                return Err(e);
            },
        };
        let status = match optional::<EmailRoutingStatus>(j, "status") {
            Ok(v) => v,
            Err(e) => {
                return Err(e);
            },
        };
        let skip_wizard = match optional::<bool>(j, "skip_wizard") {
            Ok(v) => v,
            Err(e) => {
                return Err(e);
            },
        };
        Ok(RoutingSettings { id, enabled, name, created, modified, status, skip_wizard })
    }
}

/// The state of email routing. `misconfigured/locked` is read as `Locked`.
#[derive(Clone, Copy, Debug, PartialEq, Eq, Structural)]
pub enum EmailRoutingStatus {
    Ready,
    Unconfigured,
    Misconfigured,
    Locked,
    Unlocked,
}

impl TextEnum for EmailRoutingStatus {
    open spec fn text(&self) -> Seq<char> {
        match self {
            EmailRoutingStatus::Ready => "ready"@,
            EmailRoutingStatus::Unconfigured => "unconfigured"@,
            EmailRoutingStatus::Misconfigured => "misconfigured"@,
            EmailRoutingStatus::Locked => "locked"@,
            EmailRoutingStatus::Unlocked => "unlocked"@,
        }
    }

    open spec fn named(t: Seq<char>) -> Option<Self> {
        if t == "ready"@ {
            Some(EmailRoutingStatus::Ready)
        } else if t == "unconfigured"@ {
            Some(EmailRoutingStatus::Unconfigured)
        } else if t == "misconfigured"@ {
            Some(EmailRoutingStatus::Misconfigured)
        } else if t == "locked"@ {
            Some(EmailRoutingStatus::Locked)
        } else if t == "unlocked"@ {
            Some(EmailRoutingStatus::Unlocked)
        } else if t == "misconfigured/locked"@ {
            Some(EmailRoutingStatus::Locked)
        } else {
            None
        }
    }

    fn as_str(&self) -> (s: &'static str) {
        match self {
            EmailRoutingStatus::Ready => "ready",
            EmailRoutingStatus::Unconfigured => "unconfigured",
            EmailRoutingStatus::Misconfigured => "misconfigured",
            EmailRoutingStatus::Locked => "locked",
            EmailRoutingStatus::Unlocked => "unlocked",
        }
    }

    fn from_text(t: &str) -> (r: Option<Self>) {
        if str_eq(t, "ready") {
            Some(EmailRoutingStatus::Ready)
        } else if str_eq(t, "unconfigured") {
            Some(EmailRoutingStatus::Unconfigured)
        } else if str_eq(t, "misconfigured") {
            Some(EmailRoutingStatus::Misconfigured)
        } else if str_eq(t, "locked") {
            Some(EmailRoutingStatus::Locked)
        } else if str_eq(t, "unlocked") {
            Some(EmailRoutingStatus::Unlocked)
        } else if str_eq(t, "misconfigured/locked") {
            Some(EmailRoutingStatus::Locked)
        } else {
            None
        }
    }

    proof fn lemma_named_text(v: Self) {
        reveal_strlit("ready");
        reveal_strlit("unconfigured");
        reveal_strlit("misconfigured");
        reveal_strlit("locked");
        reveal_strlit("unlocked");
        assert("ready"@.len() == 5);
        assert("unconfigured"@.len() == 12);
        assert("misconfigured"@.len() == 13);
        assert("locked"@.len() == 6);
        assert("unlocked"@.len() == 8);
    }
}

impl ToJson for EmailRoutingStatus {
    open spec fn json(&self) -> JsonView {
        JsonView::Text(self.text())
    }

    fn to_json(&self) -> (j: Json) {
        text_to_json(self)
    }
}

impl ApiResult for EmailRoutingStatus {
    open spec fn rejection(j: JsonView) -> Option<DecodeErrorView> {
        text_rejection::<EmailRoutingStatus>(j)
    }

    open spec fn decodes(j: JsonView, v: Self) -> bool {
        text_decodes::<EmailRoutingStatus>(j, v)
    }

    fn from_json(j: &Json) -> (r: Result<Self, DecodeError>) {
        text_from_json::<EmailRoutingStatus>(j)
    }
}

impl Writable for EmailRoutingStatus {
    open spec fn sound(&self) -> bool {
        true
    }

    proof fn lemma_writable(v: Self) {
    }
}

impl Codec for EmailRoutingStatus {
    proof fn lemma_round_trip(v: Self) {
        Self::lemma_named_text(v);
    }
}

} // verus!
