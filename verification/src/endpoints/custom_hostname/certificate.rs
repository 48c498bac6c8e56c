use vstd::prelude::*;
use vstd::string::*;
use crate::endpoints::custom_hostname::hostname::CustomHostnameDetails;
use crate::framework::codec::lemma_required_lookup;
use crate::framework::decode::{
    object_rejection, require_object, required, required_decodes, required_rejection, then,
    ApiResult, DecodeError, DecodeErrorView,
};
use crate::framework::encode::{required_member, ObjectBuilder, ToJson};
use crate::framework::endpoint::{render_body, EndpointSpec, Method, RequestBody, RequestError};
use crate::framework::response::ApiSuccess;
use crate::framework::writable::{lemma_extend, lemma_required_part, Writable};
use crate::json::{lemma_lookup_concat, Json, JsonView};

verus! {

/// Delete one certificate of a certificate pack of a custom hostname.
#[derive(Debug)]
pub struct DeleteCustomHostnameCertificate<'a> {
    pub zone_identifier: &'a str,
    pub custom_hostname_id: &'a str,
    pub certificate_pack_id: &'a str,
    pub certificate_id: &'a str,
}

impl<'a> EndpointSpec for DeleteCustomHostnameCertificate<'a> {
    type JsonResponse = DeleteCustomHostnameCertificateResponse;

    type ResponseType = ApiSuccess<Self::JsonResponse>;

    open spec fn method_spec(&self) -> Method {
        Method::DELETE
    }

    open spec fn path_spec(&self) -> Seq<char> {
        "/zones/"@
            + self.zone_identifier@
            + "/custom_hostnames/"@
            + self.custom_hostname_id@
            + "/certificate_pack/"@
            + self.certificate_pack_id@
            + "/certificates/"@
            + self.certificate_id@
    }

    open spec fn query_spec(&self) -> Seq<(Seq<char>, Seq<char>)> {
        Seq::empty()
    }

    open spec fn body_spec(&self) -> Option<JsonView> {
        None
    }

    fn method(&self) -> (m: Method) {
        Method::DELETE
    }

    fn path(&self) -> (p: String) {
        let mut p = String::from_str("/zones/");
        p.append(self.zone_identifier);
        p.append("/custom_hostnames/");
        p.append(self.custom_hostname_id);
        p.append("/certificate_pack/");
        p.append(self.certificate_pack_id);
        p.append("/certificates/");
        p.append(self.certificate_id);
        p
    }

    fn query(&self) -> (q: Option<String>) {
        None
    }

    fn body(&self) -> (b: Result<Option<RequestBody>, RequestError>) {
        Ok(None)
    }
}

/// What deleting a certificate hands back: the identifier of what was deleted.
#[derive(Clone, Debug, PartialEq, Eq)]
pub struct DeleteCustomHostnameCertificateResponse {
    pub id: String,
}

impl ApiResult for DeleteCustomHostnameCertificateResponse {
    open spec fn rejection(j: JsonView) -> Option<DecodeErrorView> {
        let e = object_rejection(j);
        let e = then(e, required_rejection::<String>(j, "id"@));
        e
    }

    open spec fn decodes(j: JsonView, v: Self) -> bool {
        &&& required_decodes::<String>(j, "id"@, v.id)
    }

    fn from_json(j: &Json) -> (r: Result<Self, DecodeError>) {
        match require_object(j) {
            Ok(_) => {},
            Err(e) => {
                return Err(e);
            },
        }
        let id = match required::<String>(j, "id") {
            Ok(v) => v,
            Err(e) => {
                return Err(e);
            },
        };
        Ok(DeleteCustomHostnameCertificateResponse { id })
    }
}

/// Replace one certificate of a certificate pack of a custom hostname.
#[derive(Debug)]
pub struct ReplaceCustomHostnameCertificate<'a> {
    pub zone_identifier: &'a str,
    pub custom_hostname_id: &'a str,
    pub certificate_pack_id: &'a str,
    pub certificate_id: &'a str,
    pub params: ReplaceCustomHostnameCertificateParams,
}

impl<'a> EndpointSpec for ReplaceCustomHostnameCertificate<'a> {
    type JsonResponse = CustomHostnameDetails;

    type ResponseType = ApiSuccess<Self::JsonResponse>;

    open spec fn method_spec(&self) -> Method {
        Method::PUT
    }

    open spec fn path_spec(&self) -> Seq<char> {
        "/zones/"@
            + self.zone_identifier@
            + "/custom_hostnames/"@
            + self.custom_hostname_id@
            + "/certificate_pack/"@
            + self.certificate_pack_id@
            + "/certificates/"@
            + self.certificate_id@
    }

    open spec fn query_spec(&self) -> Seq<(Seq<char>, Seq<char>)> {
        Seq::empty()
    }

    open spec fn body_spec(&self) -> Option<JsonView> {
        Some(self.params.json())
    }

    fn method(&self) -> (m: Method) {
        Method::PUT
    }

    fn path(&self) -> (p: String) {
        let mut p = String::from_str("/zones/");
        p.append(self.zone_identifier);
        p.append("/custom_hostnames/");
        p.append(self.custom_hostname_id);
        p.append("/certificate_pack/");
        p.append(self.certificate_pack_id);
        p.append("/certificates/");
        p.append(self.certificate_id);
        p
    }

    fn query(&self) -> (q: Option<String>) {
        None
    }

    fn body(&self) -> (b: Result<Option<RequestBody>, RequestError>) {
        render_body(&self.params.to_json())
    }
}

/// The certificate and the key that take the place of the old ones.
#[derive(Clone, Debug, PartialEq, Eq)]
pub struct ReplaceCustomHostnameCertificateParams {
    pub custom_certificate: String,
    pub custom_key: String,
}

impl ToJson for ReplaceCustomHostnameCertificateParams {
    open spec fn json(&self) -> JsonView {
        JsonView::Object(
            Seq::<(Seq<char>, JsonView)>::empty()
                + required_member::<String>("custom_certificate"@, self.custom_certificate)
                + required_member::<String>("custom_key"@, self.custom_key),
        )
    }

    fn to_json(&self) -> (j: Json) {
        let mut b = ObjectBuilder::new();
        b.field("custom_certificate", &self.custom_certificate);
        b.field("custom_key", &self.custom_key);
        b.build()
    }
}

impl Writable for ReplaceCustomHostnameCertificateParams {
    open spec fn sound(&self) -> bool {
        &&& self.custom_certificate.sound()
        &&& self.custom_key.sound()
    }

    proof fn lemma_writable(v: Self) {
        reveal_strlit("custom_certificate");
        reveal_strlit("custom_key");
        assert("custom_certificate"@.len() == 18);
        assert("custom_key"@.len() == 10);
        let head0 = Seq::<(Seq<char>, JsonView)>::empty();
        let part0 = required_member::<String>("custom_certificate"@, v.custom_certificate);
        lemma_required_part::<String>("custom_certificate"@, v.custom_certificate);
        lemma_extend(head0, part0);
        let head1 = head0 + part0;
        let part1 = required_member::<String>("custom_key"@, v.custom_key);
        lemma_required_part::<String>("custom_key"@, v.custom_key);
        lemma_required_lookup::<String>("custom_certificate"@, v.custom_certificate, "custom_key"@);
        lemma_lookup_concat(head0, part0, "custom_key"@);
        lemma_extend(head1, part1);
    }
}

} // verus!
