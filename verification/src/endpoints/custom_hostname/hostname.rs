use vstd::prelude::*;
use vstd::string::*;
use crate::framework::codec::{
    lemma_optional_lookup, lemma_required_lookup, lemma_texts_agree, Codec,
};
use crate::framework::decode::{
    listed, listed_decodes, listed_rejection, object_rejection, optional, optional_decodes,
    optional_rejection, require_object, required, required_decodes, required_rejection, then,
    ApiResult, DecodeError, DecodeErrorView,
};
use crate::framework::encode::{optional_member, required_member, ObjectBuilder, ToJson};
use crate::framework::endpoint::{
    render_body, serialize_query, EndpointSpec, Method, RequestBody, RequestError,
};
use crate::framework::pairs::{mapped, mapped_decodes, mapped_rejection, StringMap};
use crate::framework::query::{optional_pair, QueryBuilder, QueryPayload, QueryValue};
use crate::framework::response::ApiSuccess;
use crate::framework::variant::{
    text_decodes, text_from_json, text_rejection, text_to_json, text_to_query, TextEnum,
};
use crate::framework::writable::{lemma_extend, lemma_optional_part, lemma_required_part, Writable};
use crate::framework::{BooleanValue, OrderDirection, TlsVersion};
use crate::json::{lemma_lookup_concat, member, Json, JsonView};
use crate::text::str_eq;
use crate::time::Timestamp;

verus! {

/// Create a custom hostname for a zone.
#[derive(Debug)]
pub struct CreateCustomHostname<'a> {
    pub zone_identifier: &'a str,
    pub params: CreateCustomHostnameParams,
}

impl<'a> EndpointSpec for CreateCustomHostname<'a> {
    type JsonResponse = CustomHostnameDetails;

    type ResponseType = ApiSuccess<Self::JsonResponse>;

    open spec fn method_spec(&self) -> Method {
        Method::POST
    }

    open spec fn path_spec(&self) -> Seq<char> {
        "zones/"@ + self.zone_identifier@ + "/custom_hostnames"@
    }

    open spec fn query_spec(&self) -> Seq<(Seq<char>, Seq<char>)> {
        Seq::empty()
    }

    open spec fn body_spec(&self) -> Option<JsonView> {
        Some(self.params.json())
    }

    fn method(&self) -> (m: Method) {
        Method::POST
    }

    fn path(&self) -> (p: String) {
        let mut p = String::from_str("zones/");
        p.append(self.zone_identifier);
        p.append("/custom_hostnames");
        p
    }

    fn query(&self) -> (q: Option<String>) {
        None
    }

    fn body(&self) -> (b: Result<Option<RequestBody>, RequestError>) {
        render_body(&self.params.to_json())
    }
}

/// What a new custom hostname is made of.
#[derive(Clone, Debug, PartialEq, Eq)]
pub struct CreateCustomHostnameParams {
    pub hostname: String,
    pub ssl: HostnameSslProperties,
    pub custom_metadata: Option<StringMap>,
}

impl ToJson for CreateCustomHostnameParams {
    open spec fn json(&self) -> JsonView {
        JsonView::Object(
            Seq::<(Seq<char>, JsonView)>::empty()
                + required_member::<String>("hostname"@, self.hostname)
                + required_member::<HostnameSslProperties>("ssl"@, self.ssl)
                + optional_member::<StringMap>("custom_metadata"@, self.custom_metadata),
        )
    }

    fn to_json(&self) -> (j: Json) {
        let mut b = ObjectBuilder::new();
        b.field("hostname", &self.hostname);
        b.field("ssl", &self.ssl);
        b.optional("custom_metadata", &self.custom_metadata);
        b.build()
    }
}

impl Writable for CreateCustomHostnameParams {
    open spec fn sound(&self) -> bool {
        &&& self.hostname.sound()
        &&& self.ssl.sound()
        &&& self.custom_metadata matches Some(x) ==> x.sound()
    }

    proof fn lemma_writable(v: Self) {
        reveal_strlit("hostname");
        reveal_strlit("ssl");
        reveal_strlit("custom_metadata");
        assert("hostname"@.len() == 8);
        assert("ssl"@.len() == 3);
        assert("custom_metadata"@.len() == 15);
        let head0 = Seq::<(Seq<char>, JsonView)>::empty();
        let part0 = required_member::<String>("hostname"@, v.hostname);
        lemma_required_part::<String>("hostname"@, v.hostname);
        lemma_extend(head0, part0);
        let head1 = head0 + part0;
        let part1 = required_member::<HostnameSslProperties>("ssl"@, v.ssl);
        lemma_required_part::<HostnameSslProperties>("ssl"@, v.ssl);
        lemma_required_lookup::<String>("hostname"@, v.hostname, "ssl"@);
        lemma_lookup_concat(head0, part0, "ssl"@);
        lemma_extend(head1, part1);
        let head2 = head1 + part1;
        let part2 = optional_member::<StringMap>("custom_metadata"@, v.custom_metadata);
        lemma_optional_part::<StringMap>("custom_metadata"@, v.custom_metadata);
        lemma_required_lookup::<String>("hostname"@, v.hostname, "custom_metadata"@);
        lemma_lookup_concat(head0, part0, "custom_metadata"@);
        lemma_required_lookup::<HostnameSslProperties>("ssl"@, v.ssl, "custom_metadata"@);
        lemma_lookup_concat(head1, part1, "custom_metadata"@);
        lemma_extend(head2, part2);
    }
}

impl CreateCustomHostnameParams {
    /// Whether every field is absent, empty or at its default.
    pub open spec fn is_default(&self) -> bool {
        &&& self.hostname@.len() == 0
        &&& self.ssl.is_default()
        &&& self.custom_metadata is None
    }
}

impl Default for CreateCustomHostnameParams {
    fn default() -> (r: CreateCustomHostnameParams)
        ensures
            r.is_default(),
    {
        CreateCustomHostnameParams {
            hostname: String::new(),
            ssl: HostnameSslProperties::default(),
            custom_metadata: None,
        }
    }
}

/// How the certificate of a custom hostname is to be issued and used.
#[derive(Clone, Debug, PartialEq, Eq)]
pub struct HostnameSslProperties {
    pub bundle_method: Option<BundleMethod>,
    pub certificate_authority: Option<CertificateCA>,
    pub cloudflare_branding: Option<bool>,
    pub custom_cert_bundle: Option<Vec<CertificateBundle>>,
    pub custom_certificate: Option<String>,
    pub custom_key: Option<String>,
    pub method: Option<DomainValidationMethod>,
    pub settings: Option<SslSettings>,
    pub validation_type: DomainValidationType,
    pub wildcard: Option<bool>,
}

impl ToJson for HostnameSslProperties {
    open spec fn json(&self) -> JsonView {
        JsonView::Object(
            Seq::<(Seq<char>, JsonView)>::empty()
                + optional_member::<BundleMethod>("bundle_method"@, self.bundle_method)
                + optional_member::<CertificateCA>(
                    "certificate_authority"@,
                    self.certificate_authority,
                )
                + optional_member::<bool>("cloudflare_branding"@, self.cloudflare_branding)
                + optional_member::<Vec<CertificateBundle>>(
                    "custom_cert_bundle"@,
                    self.custom_cert_bundle,
                )
                + optional_member::<String>("custom_certificate"@, self.custom_certificate)
                + optional_member::<String>("custom_key"@, self.custom_key)
                + optional_member::<DomainValidationMethod>("method"@, self.method)
                + optional_member::<SslSettings>("settings"@, self.settings)
                + required_member::<DomainValidationType>("type"@, self.validation_type)
                + optional_member::<bool>("wildcard"@, self.wildcard),
        )
    }

    fn to_json(&self) -> (j: Json) {
        let mut b = ObjectBuilder::new();
        b.optional("bundle_method", &self.bundle_method);
        b.optional("certificate_authority", &self.certificate_authority);
        b.optional("cloudflare_branding", &self.cloudflare_branding);
        b.optional("custom_cert_bundle", &self.custom_cert_bundle);
        b.optional("custom_certificate", &self.custom_certificate);
        b.optional("custom_key", &self.custom_key);
        b.optional("method", &self.method);
        b.optional("settings", &self.settings);
        b.field("type", &self.validation_type);
        b.optional("wildcard", &self.wildcard);
        b.build()
    }
}

impl Writable for HostnameSslProperties {
    open spec fn sound(&self) -> bool {
        &&& self.bundle_method matches Some(x) ==> x.sound()
        &&& self.certificate_authority matches Some(x) ==> x.sound()
        &&& self.cloudflare_branding matches Some(x) ==> x.sound()
        &&& self.custom_cert_bundle matches Some(x) ==> x.sound()
        &&& self.custom_certificate matches Some(x) ==> x.sound()
        &&& self.custom_key matches Some(x) ==> x.sound()
        &&& self.method matches Some(x) ==> x.sound()
        &&& self.settings matches Some(x) ==> x.sound()
        &&& self.validation_type.sound()
        &&& self.wildcard matches Some(x) ==> x.sound()
    }

    proof fn lemma_writable(v: Self) {
        reveal_strlit("bundle_method");
        reveal_strlit("certificate_authority");
        reveal_strlit("cloudflare_branding");
        reveal_strlit("custom_cert_bundle");
        reveal_strlit("custom_certificate");
        reveal_strlit("custom_key");
        reveal_strlit("method");
        reveal_strlit("settings");
        reveal_strlit("type");
        reveal_strlit("wildcard");
        assert("bundle_method"@.len() == 13);
        assert("certificate_authority"@.len() == 21);
        assert("cloudflare_branding"@.len() == 19);
        assert("custom_cert_bundle"@.len() == 18);
        assert("custom_certificate"@.len() == 18);
        assert("custom_key"@.len() == 10);
        assert("method"@.len() == 6);
        assert("settings"@.len() == 8);
        assert("type"@.len() == 4);
        assert("wildcard"@.len() == 8);
        assert("custom_cert_bundle"@[11] != "custom_certificate"@[11]);
        assert("settings"@[0] != "wildcard"@[0]);
        let head0 = Seq::<(Seq<char>, JsonView)>::empty();
        let part0 = optional_member::<BundleMethod>("bundle_method"@, v.bundle_method);
        lemma_optional_part::<BundleMethod>("bundle_method"@, v.bundle_method);
        lemma_extend(head0, part0);
        let head1 = head0 + part0;
        let part1 = optional_member::<CertificateCA>(
            "certificate_authority"@,
            v.certificate_authority,
        );
        lemma_optional_part::<CertificateCA>("certificate_authority"@, v.certificate_authority);
        lemma_optional_lookup::<BundleMethod>(
            "bundle_method"@,
            v.bundle_method,
            "certificate_authority"@,
        );
        lemma_lookup_concat(head0, part0, "certificate_authority"@);
        lemma_extend(head1, part1);
        let head2 = head1 + part1;
        let part2 = optional_member::<bool>("cloudflare_branding"@, v.cloudflare_branding);
        lemma_optional_part::<bool>("cloudflare_branding"@, v.cloudflare_branding);
        lemma_optional_lookup::<BundleMethod>(
            "bundle_method"@,
            v.bundle_method,
            "cloudflare_branding"@,
        );
        lemma_lookup_concat(head0, part0, "cloudflare_branding"@);
        lemma_optional_lookup::<CertificateCA>(
            "certificate_authority"@,
            v.certificate_authority,
            "cloudflare_branding"@,
        );
        lemma_lookup_concat(head1, part1, "cloudflare_branding"@);
        lemma_extend(head2, part2);
        let head3 = head2 + part2;
        let part3 = optional_member::<Vec<CertificateBundle>>(
            "custom_cert_bundle"@,
            v.custom_cert_bundle,
        );
        lemma_optional_part::<Vec<CertificateBundle>>("custom_cert_bundle"@, v.custom_cert_bundle);
        lemma_optional_lookup::<BundleMethod>(
            "bundle_method"@,
            v.bundle_method,
            "custom_cert_bundle"@,
        );
        lemma_lookup_concat(head0, part0, "custom_cert_bundle"@);
        lemma_optional_lookup::<CertificateCA>(
            "certificate_authority"@,
            v.certificate_authority,
            "custom_cert_bundle"@,
        );
        lemma_lookup_concat(head1, part1, "custom_cert_bundle"@);
        lemma_optional_lookup::<bool>(
            "cloudflare_branding"@,
            v.cloudflare_branding,
            "custom_cert_bundle"@,
        );
        lemma_lookup_concat(head2, part2, "custom_cert_bundle"@);
        lemma_extend(head3, part3);
        let head4 = head3 + part3;
        let part4 = optional_member::<String>("custom_certificate"@, v.custom_certificate);
        lemma_optional_part::<String>("custom_certificate"@, v.custom_certificate);
        lemma_optional_lookup::<BundleMethod>(
            "bundle_method"@,
            v.bundle_method,
            "custom_certificate"@,
        );
        lemma_lookup_concat(head0, part0, "custom_certificate"@);
        lemma_optional_lookup::<CertificateCA>(
            "certificate_authority"@,
            v.certificate_authority,
            "custom_certificate"@,
        );
        lemma_lookup_concat(head1, part1, "custom_certificate"@);
        lemma_optional_lookup::<bool>(
            "cloudflare_branding"@,
            v.cloudflare_branding,
            "custom_certificate"@,
        );
        lemma_lookup_concat(head2, part2, "custom_certificate"@);
        lemma_optional_lookup::<Vec<CertificateBundle>>(
            "custom_cert_bundle"@,
            v.custom_cert_bundle,
            "custom_certificate"@,
        );
        lemma_lookup_concat(head3, part3, "custom_certificate"@);
        lemma_extend(head4, part4);
        let head5 = head4 + part4;
        let part5 = optional_member::<String>("custom_key"@, v.custom_key);
        lemma_optional_part::<String>("custom_key"@, v.custom_key);
        lemma_optional_lookup::<BundleMethod>("bundle_method"@, v.bundle_method, "custom_key"@);
        lemma_lookup_concat(head0, part0, "custom_key"@);
        lemma_optional_lookup::<CertificateCA>(
            "certificate_authority"@,
            v.certificate_authority,
            "custom_key"@,
        );
        lemma_lookup_concat(head1, part1, "custom_key"@);
        lemma_optional_lookup::<bool>("cloudflare_branding"@, v.cloudflare_branding, "custom_key"@);
        lemma_lookup_concat(head2, part2, "custom_key"@);
        lemma_optional_lookup::<Vec<CertificateBundle>>(
            "custom_cert_bundle"@,
            v.custom_cert_bundle,
            "custom_key"@,
        );
        lemma_lookup_concat(head3, part3, "custom_key"@);
        lemma_optional_lookup::<String>("custom_certificate"@, v.custom_certificate, "custom_key"@);
        lemma_lookup_concat(head4, part4, "custom_key"@);
        lemma_extend(head5, part5);
        let head6 = head5 + part5;
        let part6 = optional_member::<DomainValidationMethod>("method"@, v.method);
        lemma_optional_part::<DomainValidationMethod>("method"@, v.method);
        lemma_optional_lookup::<BundleMethod>("bundle_method"@, v.bundle_method, "method"@);
        lemma_lookup_concat(head0, part0, "method"@);
        lemma_optional_lookup::<CertificateCA>(
            "certificate_authority"@,
            v.certificate_authority,
            "method"@,
        );
        lemma_lookup_concat(head1, part1, "method"@);
        lemma_optional_lookup::<bool>("cloudflare_branding"@, v.cloudflare_branding, "method"@);
        lemma_lookup_concat(head2, part2, "method"@);
        lemma_optional_lookup::<Vec<CertificateBundle>>(
            "custom_cert_bundle"@,
            v.custom_cert_bundle,
            "method"@,
        );
        lemma_lookup_concat(head3, part3, "method"@);
        lemma_optional_lookup::<String>("custom_certificate"@, v.custom_certificate, "method"@);
        lemma_lookup_concat(head4, part4, "method"@);
        lemma_optional_lookup::<String>("custom_key"@, v.custom_key, "method"@);
        lemma_lookup_concat(head5, part5, "method"@);
        lemma_extend(head6, part6);
        let head7 = head6 + part6;
        let part7 = optional_member::<SslSettings>("settings"@, v.settings);
        lemma_optional_part::<SslSettings>("settings"@, v.settings);
        lemma_optional_lookup::<BundleMethod>("bundle_method"@, v.bundle_method, "settings"@);
        lemma_lookup_concat(head0, part0, "settings"@);
        lemma_optional_lookup::<CertificateCA>(
            "certificate_authority"@,
            v.certificate_authority,
            "settings"@,
        );
        lemma_lookup_concat(head1, part1, "settings"@);
        lemma_optional_lookup::<bool>("cloudflare_branding"@, v.cloudflare_branding, "settings"@);
        lemma_lookup_concat(head2, part2, "settings"@);
        lemma_optional_lookup::<Vec<CertificateBundle>>(
            "custom_cert_bundle"@,
            v.custom_cert_bundle,
            "settings"@,
        );
        lemma_lookup_concat(head3, part3, "settings"@);
        lemma_optional_lookup::<String>("custom_certificate"@, v.custom_certificate, "settings"@);
        lemma_lookup_concat(head4, part4, "settings"@);
        lemma_optional_lookup::<String>("custom_key"@, v.custom_key, "settings"@);
        lemma_lookup_concat(head5, part5, "settings"@);
        lemma_optional_lookup::<DomainValidationMethod>("method"@, v.method, "settings"@);
        lemma_lookup_concat(head6, part6, "settings"@);
        lemma_extend(head7, part7);
        let head8 = head7 + part7;
        let part8 = required_member::<DomainValidationType>("type"@, v.validation_type);
        lemma_required_part::<DomainValidationType>("type"@, v.validation_type);
        lemma_optional_lookup::<BundleMethod>("bundle_method"@, v.bundle_method, "type"@);
        lemma_lookup_concat(head0, part0, "type"@);
        lemma_optional_lookup::<CertificateCA>(
            "certificate_authority"@,
            v.certificate_authority,
            "type"@,
        );
        lemma_lookup_concat(head1, part1, "type"@);
        lemma_optional_lookup::<bool>("cloudflare_branding"@, v.cloudflare_branding, "type"@);
        lemma_lookup_concat(head2, part2, "type"@);
        lemma_optional_lookup::<Vec<CertificateBundle>>(
            "custom_cert_bundle"@,
            v.custom_cert_bundle,
            "type"@,
        );
        lemma_lookup_concat(head3, part3, "type"@);
        lemma_optional_lookup::<String>("custom_certificate"@, v.custom_certificate, "type"@);
        lemma_lookup_concat(head4, part4, "type"@);
        lemma_optional_lookup::<String>("custom_key"@, v.custom_key, "type"@);
        lemma_lookup_concat(head5, part5, "type"@);
        lemma_optional_lookup::<DomainValidationMethod>("method"@, v.method, "type"@);
        lemma_lookup_concat(head6, part6, "type"@);
        lemma_optional_lookup::<SslSettings>("settings"@, v.settings, "type"@);
        lemma_lookup_concat(head7, part7, "type"@);
        lemma_extend(head8, part8);
        let head9 = head8 + part8;
        let part9 = optional_member::<bool>("wildcard"@, v.wildcard);
        lemma_optional_part::<bool>("wildcard"@, v.wildcard);
        lemma_optional_lookup::<BundleMethod>("bundle_method"@, v.bundle_method, "wildcard"@);
        lemma_lookup_concat(head0, part0, "wildcard"@);
        lemma_optional_lookup::<CertificateCA>(
            "certificate_authority"@,
            v.certificate_authority,
            "wildcard"@,
        );
        lemma_lookup_concat(head1, part1, "wildcard"@);
        lemma_optional_lookup::<bool>("cloudflare_branding"@, v.cloudflare_branding, "wildcard"@);
        lemma_lookup_concat(head2, part2, "wildcard"@);
        lemma_optional_lookup::<Vec<CertificateBundle>>(
            "custom_cert_bundle"@,
            v.custom_cert_bundle,
            "wildcard"@,
        );
        lemma_lookup_concat(head3, part3, "wildcard"@);
        lemma_optional_lookup::<String>("custom_certificate"@, v.custom_certificate, "wildcard"@);
        lemma_lookup_concat(head4, part4, "wildcard"@);
        lemma_optional_lookup::<String>("custom_key"@, v.custom_key, "wildcard"@);
        lemma_lookup_concat(head5, part5, "wildcard"@);
        lemma_optional_lookup::<DomainValidationMethod>("method"@, v.method, "wildcard"@);
        lemma_lookup_concat(head6, part6, "wildcard"@);
        lemma_optional_lookup::<SslSettings>("settings"@, v.settings, "wildcard"@);
        lemma_lookup_concat(head7, part7, "wildcard"@);
        lemma_required_lookup::<DomainValidationType>("type"@, v.validation_type, "wildcard"@);
        lemma_lookup_concat(head8, part8, "wildcard"@);
        lemma_extend(head9, part9);
    }
}

impl HostnameSslProperties {
    /// Whether every field is absent, empty or at its default.
    pub open spec fn is_default(&self) -> bool {
        &&& self.bundle_method is None
        &&& self.certificate_authority is None
        &&& self.cloudflare_branding is None
        &&& self.custom_cert_bundle is None
        &&& self.custom_certificate is None
        &&& self.custom_key is None
        &&& self.method is None
        &&& self.settings is None
        &&& self.validation_type == DomainValidationType::Dv
        &&& self.wildcard is None
    }
}

impl Default for HostnameSslProperties {
    fn default() -> (r: HostnameSslProperties)
        ensures
            r.is_default(),
    {
        HostnameSslProperties {
            bundle_method: None,
            certificate_authority: None,
            cloudflare_branding: None,
            custom_cert_bundle: None,
            custom_certificate: None,
            custom_key: None,
            method: None,
            settings: None,
            validation_type: DomainValidationType::Dv,
            wildcard: None,
        }
    }
}

/// How the chain of a certificate is put together.
#[derive(Clone, Copy, Debug, PartialEq, Eq, Structural)]
pub enum BundleMethod {
    Ubiquitous,
    Optimal,
    Force,
}

impl TextEnum for BundleMethod {
    open spec fn text(&self) -> Seq<char> {
        match self {
            BundleMethod::Ubiquitous => "ubiquitous"@,
            BundleMethod::Optimal => "optimal"@,
            BundleMethod::Force => "force"@,
        }
    }

    open spec fn named(t: Seq<char>) -> Option<Self> {
        if t == "ubiquitous"@ {
            Some(BundleMethod::Ubiquitous)
        } else if t == "optimal"@ {
            Some(BundleMethod::Optimal)
        } else if t == "force"@ {
            Some(BundleMethod::Force)
        } else {
            None
        }
    }

    fn as_str(&self) -> (s: &'static str) {
        match self {
            BundleMethod::Ubiquitous => "ubiquitous",
            BundleMethod::Optimal => "optimal",
            BundleMethod::Force => "force",
        }
    }

    fn from_text(t: &str) -> (r: Option<Self>) {
        if str_eq(t, "ubiquitous") {
            Some(BundleMethod::Ubiquitous)
        } else if str_eq(t, "optimal") {
            Some(BundleMethod::Optimal)
        } else if str_eq(t, "force") {
            Some(BundleMethod::Force)
        } else {
            None
        }
    }

    proof fn lemma_named_text(v: Self) {
        reveal_strlit("ubiquitous");
        reveal_strlit("optimal");
        reveal_strlit("force");
        assert("ubiquitous"@.len() == 10);
        assert("optimal"@.len() == 7);
        assert("force"@.len() == 5);
    }
}

impl ToJson for BundleMethod {
    open spec fn json(&self) -> JsonView {
        JsonView::Text(self.text())
    }

    fn to_json(&self) -> (j: Json) {
        text_to_json(self)
    }
}

impl ApiResult for BundleMethod {
    open spec fn rejection(j: JsonView) -> Option<DecodeErrorView> {
        text_rejection::<BundleMethod>(j)
    }

    open spec fn decodes(j: JsonView, v: Self) -> bool {
        text_decodes::<BundleMethod>(j, v)
    }

    fn from_json(j: &Json) -> (r: Result<Self, DecodeError>) {
        text_from_json::<BundleMethod>(j)
    }
}

impl Writable for BundleMethod {
    open spec fn sound(&self) -> bool {
        true
    }

    proof fn lemma_writable(v: Self) {
    }
}

impl Codec for BundleMethod {
    proof fn lemma_round_trip(v: Self) {
        Self::lemma_named_text(v);
    }
}

impl Default for BundleMethod {
    fn default() -> (r: BundleMethod)
        ensures
            r == BundleMethod::Ubiquitous,
    {
        BundleMethod::Ubiquitous
    }
}

/// The authority that issues a certificate.
#[derive(Clone, Copy, Debug, PartialEq, Eq, Structural)]
pub enum CertificateCA {
    Digicert,
    Google,
    LetsEncrypt,
    SslCom,
}

impl TextEnum for CertificateCA {
    open spec fn text(&self) -> Seq<char> {
        match self {
            CertificateCA::Digicert => "digicert"@,
            CertificateCA::Google => "google"@,
            CertificateCA::LetsEncrypt => "lets_encrypt"@,
            CertificateCA::SslCom => "ssl_com"@,
        }
    }

    open spec fn named(t: Seq<char>) -> Option<Self> {
        if t == "digicert"@ {
            Some(CertificateCA::Digicert)
        } else if t == "google"@ {
            Some(CertificateCA::Google)
        } else if t == "lets_encrypt"@ {
            Some(CertificateCA::LetsEncrypt)
        } else if t == "ssl_com"@ {
            Some(CertificateCA::SslCom)
        } else {
            None
        }
    }

    fn as_str(&self) -> (s: &'static str) {
        match self {
            CertificateCA::Digicert => "digicert",
            CertificateCA::Google => "google",
            CertificateCA::LetsEncrypt => "lets_encrypt",
            CertificateCA::SslCom => "ssl_com",
        }
    }

    fn from_text(t: &str) -> (r: Option<Self>) {
        if str_eq(t, "digicert") {
            Some(CertificateCA::Digicert)
        } else if str_eq(t, "google") {
            Some(CertificateCA::Google)
        } else if str_eq(t, "lets_encrypt") {
            Some(CertificateCA::LetsEncrypt)
        } else if str_eq(t, "ssl_com") {
            Some(CertificateCA::SslCom)
        } else {
            None
        }
    }

    proof fn lemma_named_text(v: Self) {
        reveal_strlit("digicert");
        reveal_strlit("google");
        reveal_strlit("lets_encrypt");
        reveal_strlit("ssl_com");
        assert("digicert"@.len() == 8);
        assert("google"@.len() == 6);
        assert("lets_encrypt"@.len() == 12);
        assert("ssl_com"@.len() == 7);
    }
}

impl ToJson for CertificateCA {
    open spec fn json(&self) -> JsonView {
        JsonView::Text(self.text())
    }

    fn to_json(&self) -> (j: Json) {
        text_to_json(self)
    }
}

impl ApiResult for CertificateCA {
    open spec fn rejection(j: JsonView) -> Option<DecodeErrorView> {
        text_rejection::<CertificateCA>(j)
    }

    open spec fn decodes(j: JsonView, v: Self) -> bool {
        text_decodes::<CertificateCA>(j, v)
    }

    fn from_json(j: &Json) -> (r: Result<Self, DecodeError>) {
        text_from_json::<CertificateCA>(j)
    }
}

impl Writable for CertificateCA {
    open spec fn sound(&self) -> bool {
        true
    }

    proof fn lemma_writable(v: Self) {
    }
}

impl Codec for CertificateCA {
    proof fn lemma_round_trip(v: Self) {
        Self::lemma_named_text(v);
    }
}

impl Default for CertificateCA {
    fn default() -> (r: CertificateCA)
        ensures
            r == CertificateCA::Google,
    {
        CertificateCA::Google
    }
}

/// How the control over a domain is shown.
#[derive(Clone, Copy, Debug, PartialEq, Eq, Structural)]
pub enum DomainValidationMethod {
    Http,
    Text,
    Email,
}

impl TextEnum for DomainValidationMethod {
    open spec fn text(&self) -> Seq<char> {
        match self {
            DomainValidationMethod::Http => "http"@,
            DomainValidationMethod::Text => "text"@,
            DomainValidationMethod::Email => "email"@,
        }
    }

    open spec fn named(t: Seq<char>) -> Option<Self> {
        if t == "http"@ {
            Some(DomainValidationMethod::Http)
        } else if t == "text"@ {
            Some(DomainValidationMethod::Text)
        } else if t == "email"@ {
            Some(DomainValidationMethod::Email)
        } else {
            None
        }
    }

    fn as_str(&self) -> (s: &'static str) {
        match self {
            DomainValidationMethod::Http => "http",
            DomainValidationMethod::Text => "text",
            DomainValidationMethod::Email => "email",
        }
    }

    fn from_text(t: &str) -> (r: Option<Self>) {
        if str_eq(t, "http") {
            Some(DomainValidationMethod::Http)
        } else if str_eq(t, "text") {
            Some(DomainValidationMethod::Text)
        } else if str_eq(t, "email") {
            Some(DomainValidationMethod::Email)
        } else {
            None
        }
    }

    proof fn lemma_named_text(v: Self) {
        reveal_strlit("http");
        reveal_strlit("text");
        reveal_strlit("email");
        assert("http"@.len() == 4);
        assert("text"@.len() == 4);
        assert("email"@.len() == 5);
        assert("http"@[0] != "text"@[0]);
    }
}

impl ToJson for DomainValidationMethod {
    open spec fn json(&self) -> JsonView {
        JsonView::Text(self.text())
    }

    fn to_json(&self) -> (j: Json) {
        text_to_json(self)
    }
}

impl ApiResult for DomainValidationMethod {
    open spec fn rejection(j: JsonView) -> Option<DecodeErrorView> {
        text_rejection::<DomainValidationMethod>(j)
    }

    open spec fn decodes(j: JsonView, v: Self) -> bool {
        text_decodes::<DomainValidationMethod>(j, v)
    }

    fn from_json(j: &Json) -> (r: Result<Self, DecodeError>) {
        text_from_json::<DomainValidationMethod>(j)
    }
}

impl Writable for DomainValidationMethod {
    open spec fn sound(&self) -> bool {
        true
    }

    proof fn lemma_writable(v: Self) {
    }
}

impl Codec for DomainValidationMethod {
    proof fn lemma_round_trip(v: Self) {
        Self::lemma_named_text(v);
    }
}

impl Default for DomainValidationMethod {
    fn default() -> (r: DomainValidationMethod)
        ensures
            r == DomainValidationMethod::Http,
    {
        DomainValidationMethod::Http
    }
}

/// A certificate and its key.
#[derive(Clone, Debug, PartialEq, Eq)]
pub struct CertificateBundle {
    pub custom_certificate: String,
    pub custom_key: String,
}

impl ToJson for CertificateBundle {
    open spec fn json(&self) -> JsonView {
        JsonView::Object(
            Seq::<(Seq<char>, JsonView)>::empty()
                + required_member::<String>("custom_certificate"@, self.custom_certificate)
                + required_member::<String>("custom_key"@, self.custom_key),
        )
    }

    fn to_json(&self) -> (j: Json) {
        let mut b = ObjectBuilder::new();
        b.field("custom_certificate", &self.custom_certificate);
        b.field("custom_key", &self.custom_key);
        b.build()
    }
}

impl Writable for CertificateBundle {
    open spec fn sound(&self) -> bool {
        &&& self.custom_certificate.sound()
        &&& self.custom_key.sound()
    }

    proof fn lemma_writable(v: Self) {
        reveal_strlit("custom_certificate");
        reveal_strlit("custom_key");
        assert("custom_certificate"@.len() == 18);
        assert("custom_key"@.len() == 10);
        let head0 = Seq::<(Seq<char>, JsonView)>::empty();
        let part0 = required_member::<String>("custom_certificate"@, v.custom_certificate);
        lemma_required_part::<String>("custom_certificate"@, v.custom_certificate);
        lemma_extend(head0, part0);
        let head1 = head0 + part0;
        let part1 = required_member::<String>("custom_key"@, v.custom_key);
        lemma_required_part::<String>("custom_key"@, v.custom_key);
        lemma_required_lookup::<String>("custom_certificate"@, v.custom_certificate, "custom_key"@);
        lemma_lookup_concat(head0, part0, "custom_key"@);
        lemma_extend(head1, part1);
    }
}

impl CertificateBundle {
    /// Whether every field is absent, empty or at its default.
    pub open spec fn is_default(&self) -> bool {
        &&& self.custom_certificate@.len() == 0
        &&& self.custom_key@.len() == 0
    }
}

impl Default for CertificateBundle {
    fn default() -> (r: CertificateBundle)
        ensures
            r.is_default(),
    {
        CertificateBundle { custom_certificate: String::new(), custom_key: String::new() }
    }
}

/// The TLS settings of a custom hostname.
#[derive(Clone, Debug, PartialEq, Eq)]
pub struct SslSettings {
    pub ciphers: Vec<String>,
    pub early_hints: Option<BooleanValue>,
    pub http2: Option<BooleanValue>,
    pub min_tls_version: Option<TlsVersion>,
    pub tls_1_3: Option<BooleanValue>,
}

impl ToJson for SslSettings {
    open spec fn json(&self) -> JsonView {
        JsonView::Object(
            Seq::<(Seq<char>, JsonView)>::empty()
                + required_member::<Vec<String>>("ciphers"@, self.ciphers)
                + optional_member::<BooleanValue>("early_hints"@, self.early_hints)
                + optional_member::<BooleanValue>("http2"@, self.http2)
                + optional_member::<TlsVersion>("min_tls_version"@, self.min_tls_version)
                + optional_member::<BooleanValue>("tls_1_3"@, self.tls_1_3),
        )
    }

    fn to_json(&self) -> (j: Json) {
        let mut b = ObjectBuilder::new();
        b.field("ciphers", &self.ciphers);
        b.optional("early_hints", &self.early_hints);
        b.optional("http2", &self.http2);
        b.optional("min_tls_version", &self.min_tls_version);
        b.optional("tls_1_3", &self.tls_1_3);
        b.build()
    }
}

impl ApiResult for SslSettings {
    open spec fn rejection(j: JsonView) -> Option<DecodeErrorView> {
        let e = object_rejection(j);
        let e = then(e, listed_rejection::<String>(j, "ciphers"@));
        let e = then(e, optional_rejection::<BooleanValue>(j, "early_hints"@));
        let e = then(e, optional_rejection::<BooleanValue>(j, "http2"@));
        let e = then(e, optional_rejection::<TlsVersion>(j, "min_tls_version"@));
        let e = then(e, optional_rejection::<BooleanValue>(j, "tls_1_3"@));
        e
    }

    open spec fn decodes(j: JsonView, v: Self) -> bool {
        &&& listed_decodes::<String>(j, "ciphers"@, v.ciphers)
        &&& optional_decodes::<BooleanValue>(j, "early_hints"@, v.early_hints)
        &&& optional_decodes::<BooleanValue>(j, "http2"@, v.http2)
        &&& optional_decodes::<TlsVersion>(j, "min_tls_version"@, v.min_tls_version)
        &&& optional_decodes::<BooleanValue>(j, "tls_1_3"@, v.tls_1_3)
    }

    fn from_json(j: &Json) -> (r: Result<Self, DecodeError>) {
        match require_object(j) {
            Ok(_) => {},
            Err(e) => {
                return Err(e);
            },
        }
        let ciphers = match listed::<String>(j, "ciphers") {
            Ok(v) => v,
            Err(e) => {
                return Err(e);
            },
        };
        let early_hints = match optional::<BooleanValue>(j, "early_hints") {
            Ok(v) => v,
            Err(e) => {
                return Err(e);
            },
        };
        let http2 = match optional::<BooleanValue>(j, "http2") {
            Ok(v) => v,
            Err(e) => {
                return Err(e);
            },
        };
        let min_tls_version = match optional::<TlsVersion>(j, "min_tls_version") {
            Ok(v) => v,
            Err(e) => {
                return Err(e);
            },
        };
        let tls_1_3 = match optional::<BooleanValue>(j, "tls_1_3") {
            Ok(v) => v,
            Err(e) => {
                return Err(e);
            },
        };
        Ok(SslSettings { ciphers, early_hints, http2, min_tls_version, tls_1_3 })
    }
}

impl Writable for SslSettings {
    open spec fn sound(&self) -> bool {
        &&& self.ciphers.sound()
        &&& self.early_hints matches Some(x) ==> x.sound()
        &&& self.http2 matches Some(x) ==> x.sound()
        &&& self.min_tls_version matches Some(x) ==> x.sound()
        &&& self.tls_1_3 matches Some(x) ==> x.sound()
    }

    proof fn lemma_writable(v: Self) {
        reveal_strlit("ciphers");
        reveal_strlit("early_hints");
        reveal_strlit("http2");
        reveal_strlit("min_tls_version");
        reveal_strlit("tls_1_3");
        assert("ciphers"@.len() == 7);
        assert("early_hints"@.len() == 11);
        assert("http2"@.len() == 5);
        assert("min_tls_version"@.len() == 15);
        assert("tls_1_3"@.len() == 7);
        assert("ciphers"@[0] != "tls_1_3"@[0]);
        let head0 = Seq::<(Seq<char>, JsonView)>::empty();
        let part0 = required_member::<Vec<String>>("ciphers"@, v.ciphers);
        lemma_required_part::<Vec<String>>("ciphers"@, v.ciphers);
        lemma_extend(head0, part0);
        let head1 = head0 + part0;
        let part1 = optional_member::<BooleanValue>("early_hints"@, v.early_hints);
        lemma_optional_part::<BooleanValue>("early_hints"@, v.early_hints);
        lemma_required_lookup::<Vec<String>>("ciphers"@, v.ciphers, "early_hints"@);
        lemma_lookup_concat(head0, part0, "early_hints"@);
        lemma_extend(head1, part1);
        let head2 = head1 + part1;
        let part2 = optional_member::<BooleanValue>("http2"@, v.http2);
        lemma_optional_part::<BooleanValue>("http2"@, v.http2);
        lemma_required_lookup::<Vec<String>>("ciphers"@, v.ciphers, "http2"@);
        lemma_lookup_concat(head0, part0, "http2"@);
        lemma_optional_lookup::<BooleanValue>("early_hints"@, v.early_hints, "http2"@);
        lemma_lookup_concat(head1, part1, "http2"@);
        lemma_extend(head2, part2);
        let head3 = head2 + part2;
        let part3 = optional_member::<TlsVersion>("min_tls_version"@, v.min_tls_version);
        lemma_optional_part::<TlsVersion>("min_tls_version"@, v.min_tls_version);
        lemma_required_lookup::<Vec<String>>("ciphers"@, v.ciphers, "min_tls_version"@);
        lemma_lookup_concat(head0, part0, "min_tls_version"@);
        lemma_optional_lookup::<BooleanValue>("early_hints"@, v.early_hints, "min_tls_version"@);
        lemma_lookup_concat(head1, part1, "min_tls_version"@);
        lemma_optional_lookup::<BooleanValue>("http2"@, v.http2, "min_tls_version"@);
        lemma_lookup_concat(head2, part2, "min_tls_version"@);
        lemma_extend(head3, part3);
        let head4 = head3 + part3;
        let part4 = optional_member::<BooleanValue>("tls_1_3"@, v.tls_1_3);
        lemma_optional_part::<BooleanValue>("tls_1_3"@, v.tls_1_3);
        lemma_required_lookup::<Vec<String>>("ciphers"@, v.ciphers, "tls_1_3"@);
        lemma_lookup_concat(head0, part0, "tls_1_3"@);
        lemma_optional_lookup::<BooleanValue>("early_hints"@, v.early_hints, "tls_1_3"@);
        lemma_lookup_concat(head1, part1, "tls_1_3"@);
        lemma_optional_lookup::<BooleanValue>("http2"@, v.http2, "tls_1_3"@);
        lemma_lookup_concat(head2, part2, "tls_1_3"@);
        lemma_optional_lookup::<TlsVersion>("min_tls_version"@, v.min_tls_version, "tls_1_3"@);
        lemma_lookup_concat(head3, part3, "tls_1_3"@);
        lemma_extend(head4, part4);
    }
}

impl SslSettings {
    /// Whether every field is absent, empty or at its default.
    pub open spec fn is_default(&self) -> bool {
        &&& self.ciphers@.len() == 0
        &&& self.early_hints is None
        &&& self.http2 is None
        &&& self.min_tls_version is None
        &&& self.tls_1_3 is None
    }
}

impl Default for SslSettings {
    fn default() -> (r: SslSettings)
        ensures
            r.is_default(),
    {
        SslSettings {
            ciphers: Vec::new(),
            early_hints: None,
            http2: None,
            min_tls_version: None,
            tls_1_3: None,
        }
    }
}

impl SslSettings {
    /// What the members of the JSON object of a value are found to be.
    pub proof fn lemma_members(v: SslSettings)
        ensures
            v.json() is Object,
            member(v.json(), "ciphers"@) == Some(v.ciphers.json()),
            member(v.json(), "early_hints"@) == (match v.early_hints {
                Some(x) => Some(x.json()),
                None => None,
            }),
            member(v.json(), "http2"@) == (match v.http2 {
                Some(x) => Some(x.json()),
                None => None,
            }),
            member(v.json(), "min_tls_version"@) == (match v.min_tls_version {
                Some(x) => Some(x.json()),
                None => None,
            }),
            member(v.json(), "tls_1_3"@) == (match v.tls_1_3 {
                Some(x) => Some(x.json()),
                None => None,
            }),
    {
        reveal_strlit("ciphers");
        reveal_strlit("early_hints");
        reveal_strlit("http2");
        reveal_strlit("min_tls_version");
        reveal_strlit("tls_1_3");
        assert("ciphers"@.len() == 7);
        assert("early_hints"@.len() == 11);
        assert("http2"@.len() == 5);
        assert("min_tls_version"@.len() == 15);
        assert("tls_1_3"@.len() == 7);
        assert("ciphers"@[0] != "tls_1_3"@[0]);
        let head0 = Seq::<(Seq<char>, JsonView)>::empty();
        let part0 = required_member::<Vec<String>>("ciphers"@, v.ciphers);
        let head1 = head0 + part0;
        let part1 = optional_member::<BooleanValue>("early_hints"@, v.early_hints);
        let head2 = head1 + part1;
        let part2 = optional_member::<BooleanValue>("http2"@, v.http2);
        let head3 = head2 + part2;
        let part3 = optional_member::<TlsVersion>("min_tls_version"@, v.min_tls_version);
        let head4 = head3 + part3;
        let part4 = optional_member::<BooleanValue>("tls_1_3"@, v.tls_1_3);
        lemma_required_lookup::<Vec<String>>("ciphers"@, v.ciphers, "ciphers"@);
        lemma_lookup_concat(head0, part0, "ciphers"@);
        lemma_optional_lookup::<BooleanValue>("early_hints"@, v.early_hints, "ciphers"@);
        lemma_lookup_concat(head1, part1, "ciphers"@);
        lemma_optional_lookup::<BooleanValue>("http2"@, v.http2, "ciphers"@);
        lemma_lookup_concat(head2, part2, "ciphers"@);
        lemma_optional_lookup::<TlsVersion>("min_tls_version"@, v.min_tls_version, "ciphers"@);
        lemma_lookup_concat(head3, part3, "ciphers"@);
        lemma_optional_lookup::<BooleanValue>("tls_1_3"@, v.tls_1_3, "ciphers"@);
        lemma_lookup_concat(head4, part4, "ciphers"@);
        lemma_required_lookup::<Vec<String>>("ciphers"@, v.ciphers, "early_hints"@);
        lemma_lookup_concat(head0, part0, "early_hints"@);
        lemma_optional_lookup::<BooleanValue>("early_hints"@, v.early_hints, "early_hints"@);
        lemma_lookup_concat(head1, part1, "early_hints"@);
        lemma_optional_lookup::<BooleanValue>("http2"@, v.http2, "early_hints"@);
        lemma_lookup_concat(head2, part2, "early_hints"@);
        lemma_optional_lookup::<TlsVersion>("min_tls_version"@, v.min_tls_version, "early_hints"@);
        lemma_lookup_concat(head3, part3, "early_hints"@);
        lemma_optional_lookup::<BooleanValue>("tls_1_3"@, v.tls_1_3, "early_hints"@);
        lemma_lookup_concat(head4, part4, "early_hints"@);
        lemma_required_lookup::<Vec<String>>("ciphers"@, v.ciphers, "http2"@);
        lemma_lookup_concat(head0, part0, "http2"@);
        lemma_optional_lookup::<BooleanValue>("early_hints"@, v.early_hints, "http2"@);
        lemma_lookup_concat(head1, part1, "http2"@);
        lemma_optional_lookup::<BooleanValue>("http2"@, v.http2, "http2"@);
        lemma_lookup_concat(head2, part2, "http2"@);
        lemma_optional_lookup::<TlsVersion>("min_tls_version"@, v.min_tls_version, "http2"@);
        lemma_lookup_concat(head3, part3, "http2"@);
        lemma_optional_lookup::<BooleanValue>("tls_1_3"@, v.tls_1_3, "http2"@);
        lemma_lookup_concat(head4, part4, "http2"@);
        lemma_required_lookup::<Vec<String>>("ciphers"@, v.ciphers, "min_tls_version"@);
        lemma_lookup_concat(head0, part0, "min_tls_version"@);
        lemma_optional_lookup::<BooleanValue>("early_hints"@, v.early_hints, "min_tls_version"@);
        lemma_lookup_concat(head1, part1, "min_tls_version"@);
        lemma_optional_lookup::<BooleanValue>("http2"@, v.http2, "min_tls_version"@);
        lemma_lookup_concat(head2, part2, "min_tls_version"@);
        lemma_optional_lookup::<TlsVersion>(
            "min_tls_version"@,
            v.min_tls_version,
            "min_tls_version"@,
        );
        lemma_lookup_concat(head3, part3, "min_tls_version"@);
        lemma_optional_lookup::<BooleanValue>("tls_1_3"@, v.tls_1_3, "min_tls_version"@);
        lemma_lookup_concat(head4, part4, "min_tls_version"@);
        lemma_required_lookup::<Vec<String>>("ciphers"@, v.ciphers, "tls_1_3"@);
        lemma_lookup_concat(head0, part0, "tls_1_3"@);
        lemma_optional_lookup::<BooleanValue>("early_hints"@, v.early_hints, "tls_1_3"@);
        lemma_lookup_concat(head1, part1, "tls_1_3"@);
        lemma_optional_lookup::<BooleanValue>("http2"@, v.http2, "tls_1_3"@);
        lemma_lookup_concat(head2, part2, "tls_1_3"@);
        lemma_optional_lookup::<TlsVersion>("min_tls_version"@, v.min_tls_version, "tls_1_3"@);
        lemma_lookup_concat(head3, part3, "tls_1_3"@);
        lemma_optional_lookup::<BooleanValue>("tls_1_3"@, v.tls_1_3, "tls_1_3"@);
        lemma_lookup_concat(head4, part4, "tls_1_3"@);
    }

    /// What decodes from the JSON written for a value has the fields of that value.
    pub proof fn lemma_round_trip_fields(v: SslSettings, w: SslSettings)
        requires
            SslSettings::decodes(v.json(), w),
        ensures
            w.ciphers.deep_view() == v.ciphers.deep_view(),
            w.early_hints == v.early_hints,
            w.http2 == v.http2,
            w.min_tls_version == v.min_tls_version,
            w.tls_1_3 == v.tls_1_3,
    {
        Self::lemma_members(v);
        lemma_texts_agree(v.ciphers, w.ciphers);
        match v.early_hints {
            Some(x) => {
                BooleanValue::lemma_round_trip(x);
            },
            None => {},
        }
        match v.http2 {
            Some(x) => {
                BooleanValue::lemma_round_trip(x);
            },
            None => {},
        }
        match v.min_tls_version {
            Some(x) => {
                TlsVersion::lemma_round_trip(x);
            },
            None => {},
        }
        match v.tls_1_3 {
            Some(x) => {
                BooleanValue::lemma_round_trip(x);
            },
            None => {},
        }
    }
}

impl Codec for SslSettings {
    proof fn lemma_round_trip(v: Self) {
        Self::lemma_members(v);
        Vec::<String>::lemma_round_trip(v.ciphers);
        match v.early_hints {
            Some(x) => {
                BooleanValue::lemma_round_trip(x);
            },
            None => {},
        }
        match v.http2 {
            Some(x) => {
                BooleanValue::lemma_round_trip(x);
            },
            None => {},
        }
        match v.min_tls_version {
            Some(x) => {
                TlsVersion::lemma_round_trip(x);
            },
            None => {},
        }
        match v.tls_1_3 {
            Some(x) => {
                BooleanValue::lemma_round_trip(x);
            },
            None => {},
        }
        assert(Self::rejection(v.json()) is None);
        assert(Self::decodes(v.json(), v));
        assert forall|w: Self| Self::decodes(v.json(), w) implies w.json() == v.json() by {
            assert(required_member::<Vec<String>>("ciphers"@, w.ciphers) =~= required_member::<Vec<String>>("ciphers"@, v.ciphers));
            assert(optional_member::<BooleanValue>("early_hints"@, w.early_hints) =~= optional_member::<BooleanValue>("early_hints"@, v.early_hints));
            assert(optional_member::<BooleanValue>("http2"@, w.http2) =~= optional_member::<BooleanValue>("http2"@, v.http2));
            assert(optional_member::<TlsVersion>("min_tls_version"@, w.min_tls_version) =~= optional_member::<TlsVersion>("min_tls_version"@, v.min_tls_version));
            assert(optional_member::<BooleanValue>("tls_1_3"@, w.tls_1_3) =~= optional_member::<BooleanValue>("tls_1_3"@, v.tls_1_3));
        }
    }
}

/// The level at which a domain is validated.
#[derive(Clone, Copy, Debug, PartialEq, Eq, Structural)]
pub enum DomainValidationType {
    Dv,
}

impl TextEnum for DomainValidationType {
    open spec fn text(&self) -> Seq<char> {
        match self {
            DomainValidationType::Dv => "dv"@,
        }
    }

    open spec fn named(t: Seq<char>) -> Option<Self> {
        if t == "dv"@ {
            Some(DomainValidationType::Dv)
        } else {
            None
        }
    }

    fn as_str(&self) -> (s: &'static str) {
        match self {
            DomainValidationType::Dv => "dv",
        }
    }

    fn from_text(t: &str) -> (r: Option<Self>) {
        if str_eq(t, "dv") {
            Some(DomainValidationType::Dv)
        } else {
            None
        }
    }

    proof fn lemma_named_text(v: Self) {
        reveal_strlit("dv");
    }
}

impl ToJson for DomainValidationType {
    open spec fn json(&self) -> JsonView {
        JsonView::Text(self.text())
    }

    fn to_json(&self) -> (j: Json) {
        text_to_json(self)
    }
}

impl ApiResult for DomainValidationType {
    open spec fn rejection(j: JsonView) -> Option<DecodeErrorView> {
        text_rejection::<DomainValidationType>(j)
    }

    open spec fn decodes(j: JsonView, v: Self) -> bool {
        text_decodes::<DomainValidationType>(j, v)
    }

    fn from_json(j: &Json) -> (r: Result<Self, DecodeError>) {
        text_from_json::<DomainValidationType>(j)
    }
}

impl Writable for DomainValidationType {
    open spec fn sound(&self) -> bool {
        true
    }

    proof fn lemma_writable(v: Self) {
    }
}

impl Codec for DomainValidationType {
    proof fn lemma_round_trip(v: Self) {
        Self::lemma_named_text(v);
    }
}

impl Default for DomainValidationType {
    fn default() -> (r: DomainValidationType)
        ensures
            r == DomainValidationType::Dv,
    {
        DomainValidationType::Dv
    }
}

/// A custom hostname as the service describes it.
#[derive(Clone, Debug, PartialEq, Eq)]
pub struct CustomHostnameDetails {
    pub id: String,
    pub hostname: String,
    pub ssl: SslHostnameStatus,
    pub created_at: Option<Timestamp>,
    pub custom_metadata: StringMap,
    pub custom_origin_server: Option<String>,
    pub custom_origin_sni: Option<String>,
    pub ownership_verification: Option<OwnershipVerification>,
    pub ownership_verification_http: Option<OwnershipVerificationHttp>,
    pub status: HostnameActivationStatus,
    pub verification_errors: Vec<String>,
}

impl ApiResult for CustomHostnameDetails {
    open spec fn rejection(j: JsonView) -> Option<DecodeErrorView> {
        let e = object_rejection(j);
        let e = then(e, required_rejection::<String>(j, "id"@));
        let e = then(e, required_rejection::<String>(j, "hostname"@));
        let e = then(e, required_rejection::<SslHostnameStatus>(j, "ssl"@));
        let e = then(e, optional_rejection::<Timestamp>(j, "created_at"@));
        let e = then(e, mapped_rejection(j, "custom_metadata"@));
        let e = then(e, optional_rejection::<String>(j, "custom_origin_server"@));
        let e = then(e, optional_rejection::<String>(j, "custom_origin_sni"@));
        let e = then(e, optional_rejection::<OwnershipVerification>(j, "ownership_verification"@));
        let e = then(
            e,
            optional_rejection::<OwnershipVerificationHttp>(j, "ownership_verification_http"@),
        );
        let e = then(e, required_rejection::<HostnameActivationStatus>(j, "status"@));
        let e = then(e, listed_rejection::<String>(j, "verification_errors"@));
        e
    }

    open spec fn decodes(j: JsonView, v: Self) -> bool {
        &&& required_decodes::<String>(j, "id"@, v.id)
        &&& required_decodes::<String>(j, "hostname"@, v.hostname)
        &&& required_decodes::<SslHostnameStatus>(j, "ssl"@, v.ssl)
        &&& optional_decodes::<Timestamp>(j, "created_at"@, v.created_at)
        &&& mapped_decodes(j, "custom_metadata"@, v.custom_metadata)
        &&& optional_decodes::<String>(j, "custom_origin_server"@, v.custom_origin_server)
        &&& optional_decodes::<String>(j, "custom_origin_sni"@, v.custom_origin_sni)
        &&& optional_decodes::<OwnershipVerification>(
            j,
            "ownership_verification"@,
            v.ownership_verification,
        )
        &&& optional_decodes::<OwnershipVerificationHttp>(
            j,
            "ownership_verification_http"@,
            v.ownership_verification_http,
        )
        &&& required_decodes::<HostnameActivationStatus>(j, "status"@, v.status)
        &&& listed_decodes::<String>(j, "verification_errors"@, v.verification_errors)
    }

    fn from_json(j: &Json) -> (r: Result<Self, DecodeError>) {
        match require_object(j) {
            Ok(_) => {},
            Err(e) => {
                return Err(e);
            },
        }
        let id = match required::<String>(j, "id") {
            Ok(v) => v,
            Err(e) => {
                return Err(e);
            },
        };
        let hostname = match required::<String>(j, "hostname") {
            Ok(v) => v,
            Err(e) => {
                return Err(e);
            },
        };
        let ssl = match required::<SslHostnameStatus>(j, "ssl") {
            Ok(v) => v,
            Err(e) => {
                return Err(e);
            },
        };
        let created_at = match optional::<Timestamp>(j, "created_at") {
            Ok(v) => v,
            Err(e) => {
                return Err(e);
            },
        };
        let custom_metadata = match mapped(j, "custom_metadata") {
            Ok(v) => v,
            Err(e) => {
                return Err(e);
            },
        };
        let custom_origin_server = match optional::<String>(j, "custom_origin_server") {
            Ok(v) => v,
            Err(e) => {
                return Err(e);
            },
        };
        let custom_origin_sni = match optional::<String>(j, "custom_origin_sni") {
            Ok(v) => v,
            Err(e) => {
                return Err(e);
            },
        };
        let ownership_verification = match optional::<OwnershipVerification>(
            j,
            "ownership_verification",
        ) {
            Ok(v) => v,
            Err(e) => {
                return Err(e);
            },
        };
        let ownership_verification_http = match optional::<OwnershipVerificationHttp>(
            j,
            "ownership_verification_http",
        ) {
            Ok(v) => v,
            Err(e) => {
                return Err(e);
            },
        };
        let status = match required::<HostnameActivationStatus>(j, "status") {
            Ok(v) => v,
            Err(e) => {
                return Err(e);
            },
        };
        let verification_errors = match listed::<String>(j, "verification_errors") {
            Ok(v) => v,
            Err(e) => {
                return Err(e);
            },
        };
        Ok(
            CustomHostnameDetails {
                id,
                hostname,
                ssl,
                created_at,
                custom_metadata,
                custom_origin_server,
                custom_origin_sni,
                ownership_verification,
                ownership_verification_http,
                status,
                verification_errors,
            },
        )
    }
}

/// The DNS record that shows who owns a hostname.
#[derive(Clone, Debug, PartialEq, Eq)]
pub struct OwnershipVerification {
    pub name: Option<String>,
    pub record_type: Option<String>,
    pub value: Option<String>,
}

impl ApiResult for OwnershipVerification {
    open spec fn rejection(j: JsonView) -> Option<DecodeErrorView> {
        let e = object_rejection(j);
        let e = then(e, optional_rejection::<String>(j, "name"@));
        let e = then(e, optional_rejection::<String>(j, "type"@));
        let e = then(e, optional_rejection::<String>(j, "value"@));
        e
    }

    open spec fn decodes(j: JsonView, v: Self) -> bool {
        &&& optional_decodes::<String>(j, "name"@, v.name)
        &&& optional_decodes::<String>(j, "type"@, v.record_type)
        &&& optional_decodes::<String>(j, "value"@, v.value)
    }

    fn from_json(j: &Json) -> (r: Result<Self, DecodeError>) {
        match require_object(j) {
            Ok(_) => {},
            Err(e) => {
                return Err(e);
            },
        }
        let name = match optional::<String>(j, "name") {
            Ok(v) => v,
            Err(e) => {
                return Err(e);
            },
        };
        let record_type = match optional::<String>(j, "type") {
            Ok(v) => v,
            Err(e) => {
                return Err(e);
            },
        };
        let value = match optional::<String>(j, "value") {
            Ok(v) => v,
            Err(e) => {
                return Err(e);
            },
        };
        Ok(OwnershipVerification { name, record_type, value })
    }
}

/// The HTTP resource that shows who owns a hostname.
#[derive(Clone, Debug, PartialEq, Eq)]
pub struct OwnershipVerificationHttp {
    pub http_body: Option<String>,
    pub http_url: Option<String>,
}

impl ApiResult for OwnershipVerificationHttp {
    open spec fn rejection(j: JsonView) -> Option<DecodeErrorView> {
        let e = object_rejection(j);
        let e = then(e, optional_rejection::<String>(j, "http_body"@));
        let e = then(e, optional_rejection::<String>(j, "http_url"@));
        e
    }

    open spec fn decodes(j: JsonView, v: Self) -> bool {
        &&& optional_decodes::<String>(j, "http_body"@, v.http_body)
        &&& optional_decodes::<String>(j, "http_url"@, v.http_url)
    }

    fn from_json(j: &Json) -> (r: Result<Self, DecodeError>) {
        match require_object(j) {
            Ok(_) => {},
            Err(e) => {
                return Err(e);
            },
        }
        let http_body = match optional::<String>(j, "http_body") {
            Ok(v) => v,
            Err(e) => {
                return Err(e);
            },
        };
        let http_url = match optional::<String>(j, "http_url") {
            Ok(v) => v,
            Err(e) => {
                return Err(e);
            },
        };
        Ok(OwnershipVerificationHttp { http_body, http_url })
    }
}

/// The certificate of a custom hostname and the state it is in.
#[derive(Clone, Debug, PartialEq, Eq)]
pub struct SslHostnameStatus {
    pub id: Option<String>,
    pub bundle_method: Option<BundleMethod>,
    pub certificate_authority: Option<CertificateCA>,
    pub custom_certificate: Option<String>,
    pub custom_csr_id: Option<String>,
    pub custom_key: Option<String>,
    pub expires_on: Option<Timestamp>,
    pub hosts: Vec<String>,
    pub issuer: Option<String>,
    pub method: Option<DomainValidationMethod>,
    pub settings: Option<SslSettings>,
    pub signature: Option<String>,
    pub status: Option<SslCertificateStatus>,
    pub validation_type: Option<DomainValidationType>,
    pub uploaded_on: Option<Timestamp>,
    pub validation_errors: Vec<ValidationError>,
    pub validation_records: Vec<ValidationRecord>,
    pub wildcard: Option<bool>,
}

impl ApiResult for SslHostnameStatus {
    open spec fn rejection(j: JsonView) -> Option<DecodeErrorView> {
        let e = object_rejection(j);
        let e = then(e, optional_rejection::<String>(j, "id"@));
        let e = then(e, optional_rejection::<BundleMethod>(j, "bundle_method"@));
        let e = then(e, optional_rejection::<CertificateCA>(j, "certificate_authority"@));
        let e = then(e, optional_rejection::<String>(j, "custom_certificate"@));
        let e = then(e, optional_rejection::<String>(j, "custom_csr_id"@));
        let e = then(e, optional_rejection::<String>(j, "custom_key"@));
        let e = then(e, optional_rejection::<Timestamp>(j, "expires_on"@));
        let e = then(e, listed_rejection::<String>(j, "hosts"@));
        let e = then(e, optional_rejection::<String>(j, "issuer"@));
        let e = then(e, optional_rejection::<DomainValidationMethod>(j, "method"@));
        let e = then(e, optional_rejection::<SslSettings>(j, "settings"@));
        let e = then(e, optional_rejection::<String>(j, "signature"@));
        let e = then(e, optional_rejection::<SslCertificateStatus>(j, "status"@));
        let e = then(e, optional_rejection::<DomainValidationType>(j, "type"@));
        let e = then(e, optional_rejection::<Timestamp>(j, "uploaded_on"@));
        let e = then(e, listed_rejection::<ValidationError>(j, "validation_errors"@));
        let e = then(e, listed_rejection::<ValidationRecord>(j, "validation_records"@));
        let e = then(e, optional_rejection::<bool>(j, "wildcard"@));
        e
    }

    open spec fn decodes(j: JsonView, v: Self) -> bool {
        &&& optional_decodes::<String>(j, "id"@, v.id)
        &&& optional_decodes::<BundleMethod>(j, "bundle_method"@, v.bundle_method)
        &&& optional_decodes::<CertificateCA>(j, "certificate_authority"@, v.certificate_authority)
        &&& optional_decodes::<String>(j, "custom_certificate"@, v.custom_certificate)
        &&& optional_decodes::<String>(j, "custom_csr_id"@, v.custom_csr_id)
        &&& optional_decodes::<String>(j, "custom_key"@, v.custom_key)
        &&& optional_decodes::<Timestamp>(j, "expires_on"@, v.expires_on)
        &&& listed_decodes::<String>(j, "hosts"@, v.hosts)
        &&& optional_decodes::<String>(j, "issuer"@, v.issuer)
        &&& optional_decodes::<DomainValidationMethod>(j, "method"@, v.method)
        &&& optional_decodes::<SslSettings>(j, "settings"@, v.settings)
        &&& optional_decodes::<String>(j, "signature"@, v.signature)
        &&& optional_decodes::<SslCertificateStatus>(j, "status"@, v.status)
        &&& optional_decodes::<DomainValidationType>(j, "type"@, v.validation_type)
        &&& optional_decodes::<Timestamp>(j, "uploaded_on"@, v.uploaded_on)
        &&& listed_decodes::<ValidationError>(j, "validation_errors"@, v.validation_errors)
        &&& listed_decodes::<ValidationRecord>(j, "validation_records"@, v.validation_records)
        &&& optional_decodes::<bool>(j, "wildcard"@, v.wildcard)
    }

    fn from_json(j: &Json) -> (r: Result<Self, DecodeError>) {
        match require_object(j) {
            Ok(_) => {},
            Err(e) => {
                return Err(e);
            },
        }
        let id = match optional::<String>(j, "id") {
            Ok(v) => v,
            Err(e) => {
                return Err(e);
            },
        };
        let bundle_method = match optional::<BundleMethod>(j, "bundle_method") {
            Ok(v) => v,
            Err(e) => {
                return Err(e);
            },
        };
        let certificate_authority = match optional::<CertificateCA>(j, "certificate_authority") {
            Ok(v) => v,
            Err(e) => {
                return Err(e);
            },
        };
        let custom_certificate = match optional::<String>(j, "custom_certificate") {
            Ok(v) => v,
            Err(e) => {
                return Err(e);
            },
        };
        let custom_csr_id = match optional::<String>(j, "custom_csr_id") {
            Ok(v) => v,
            Err(e) => {
                return Err(e);
            },
        };
        let custom_key = match optional::<String>(j, "custom_key") {
            Ok(v) => v,
            Err(e) => {
                return Err(e);
            },
        };
        let expires_on = match optional::<Timestamp>(j, "expires_on") {
            Ok(v) => v,
            Err(e) => {
                return Err(e);
            },
        };
        let hosts = match listed::<String>(j, "hosts") {
            Ok(v) => v,
            Err(e) => {
                return Err(e);
            },
        };
        let issuer = match optional::<String>(j, "issuer") {
            Ok(v) => v,
            Err(e) => {
                return Err(e);
            },
        };
        let method = match optional::<DomainValidationMethod>(j, "method") {
            Ok(v) => v,
            Err(e) => {
                return Err(e);
            },
        };
        let settings = match optional::<SslSettings>(j, "settings") {
            Ok(v) => v,
            Err(e) => {
                return Err(e);
            },
        };
        let signature = match optional::<String>(j, "signature") {
            Ok(v) => v,
            Err(e) => {
                return Err(e);
            },
        };
        let status = match optional::<SslCertificateStatus>(j, "status") {
            Ok(v) => v,
            Err(e) => {
                return Err(e);
            },
        };
        let validation_type = match optional::<DomainValidationType>(j, "type") {
            Ok(v) => v,
            Err(e) => {
                return Err(e);
            },
        };
        let uploaded_on = match optional::<Timestamp>(j, "uploaded_on") {
            Ok(v) => v,
            Err(e) => {
                return Err(e);
            },
        };
        let validation_errors = match listed::<ValidationError>(j, "validation_errors") {
            Ok(v) => v,
            Err(e) => {
                return Err(e);
            },
        };
        let validation_records = match listed::<ValidationRecord>(j, "validation_records") {
            Ok(v) => v,
            Err(e) => {
                return Err(e);
            },
        };
        let wildcard = match optional::<bool>(j, "wildcard") {
            Ok(v) => v,
            Err(e) => {
                return Err(e);
            },
        };
        Ok(
            SslHostnameStatus {
                id,
                bundle_method,
                certificate_authority,
                custom_certificate,
                custom_csr_id,
                custom_key,
                expires_on,
                hosts,
                issuer,
                method,
                settings,
                signature,
                status,
                validation_type,
                uploaded_on,
                validation_errors,
                validation_records,
                wildcard,
            },
        )
    }
}

/// What went wrong when a domain was validated.
#[derive(Clone, Debug, PartialEq, Eq)]
pub struct ValidationError {
    pub message: Option<String>,
}

impl ApiResult for ValidationError {
    open spec fn rejection(j: JsonView) -> Option<DecodeErrorView> {
        let e = object_rejection(j);
        let e = then(e, optional_rejection::<String>(j, "message"@));
        e
    }

    open spec fn decodes(j: JsonView, v: Self) -> bool {
        &&& optional_decodes::<String>(j, "message"@, v.message)
    }

    fn from_json(j: &Json) -> (r: Result<Self, DecodeError>) {
        match require_object(j) {
            Ok(_) => {},
            Err(e) => {
                return Err(e);
            },
        }
        let message = match optional::<String>(j, "message") {
            Ok(v) => v,
            Err(e) => {
                return Err(e);
            },
        };
        Ok(ValidationError { message })
    }
}

/// What has to be in place for a domain to be validated.
#[derive(Clone, Debug, PartialEq, Eq)]
pub struct ValidationRecord {
    pub emails: Vec<String>,
    pub http_body: Option<String>,
    pub http_url: Option<String>,
    pub txt_name: Option<String>,
    pub txt_value: Option<String>,
}

impl ApiResult for ValidationRecord {
    open spec fn rejection(j: JsonView) -> Option<DecodeErrorView> {
        let e = object_rejection(j);
        let e = then(e, listed_rejection::<String>(j, "emails"@));
        let e = then(e, optional_rejection::<String>(j, "http_body"@));
        let e = then(e, optional_rejection::<String>(j, "http_url"@));
        let e = then(e, optional_rejection::<String>(j, "txt_name"@));
        let e = then(e, optional_rejection::<String>(j, "txt_value"@));
        e
    }

    open spec fn decodes(j: JsonView, v: Self) -> bool {
        &&& listed_decodes::<String>(j, "emails"@, v.emails)
        &&& optional_decodes::<String>(j, "http_body"@, v.http_body)
        &&& optional_decodes::<String>(j, "http_url"@, v.http_url)
        &&& optional_decodes::<String>(j, "txt_name"@, v.txt_name)
        &&& optional_decodes::<String>(j, "txt_value"@, v.txt_value)
    }

    fn from_json(j: &Json) -> (r: Result<Self, DecodeError>) {
        match require_object(j) {
            Ok(_) => {},
            Err(e) => {
                return Err(e);
            },
        }
        let emails = match listed::<String>(j, "emails") {
            Ok(v) => v,
            Err(e) => {
                return Err(e);
            },
        };
        let http_body = match optional::<String>(j, "http_body") {
            Ok(v) => v,
            Err(e) => {
                return Err(e);
            },
        };
        let http_url = match optional::<String>(j, "http_url") {
            Ok(v) => v,
            Err(e) => {
                return Err(e);
            },
        };
        let txt_name = match optional::<String>(j, "txt_name") {
            Ok(v) => v,
            Err(e) => {
                return Err(e);
            },
        };
        let txt_value = match optional::<String>(j, "txt_value") {
            Ok(v) => v,
            Err(e) => {
                return Err(e);
            },
        };
        Ok(ValidationRecord { emails, http_body, http_url, txt_name, txt_value })
    }
}

/// The state of a certificate.
#[derive(Clone, Copy, Debug, PartialEq, Eq, Structural)]
pub enum SslCertificateStatus {
    Initializing,
    PendingValidation,
    Deleted,
    PendingIssuance,
    PendingDeployment,
    PendingDeletion,
    PendingExpiration,
    Expired,
    Active,
    InitializingTimedOut,
    ValidationTimedOut,
    IssuanceTimedOut,
    DeploymentTimedOut,
    DeletionTimedOut,
    PendingCleanup,
    StagingDeployment,
    StagingActive,
    Deactivating,
    Inactive,
    BackupIssued,
    HoldingDeployment,
}

impl TextEnum for SslCertificateStatus {
    open spec fn text(&self) -> Seq<char> {
        match self {
            SslCertificateStatus::Initializing => "initializing"@,
            SslCertificateStatus::PendingValidation => "pending_validation"@,
            SslCertificateStatus::Deleted => "deleted"@,
            SslCertificateStatus::PendingIssuance => "pending_issuance"@,
            SslCertificateStatus::PendingDeployment => "pending_deployment"@,
            SslCertificateStatus::PendingDeletion => "pending_deletion"@,
            SslCertificateStatus::PendingExpiration => "pending_expiration"@,
            SslCertificateStatus::Expired => "expired"@,
            SslCertificateStatus::Active => "active"@,
            SslCertificateStatus::InitializingTimedOut => "initializing_timed_out"@,
            SslCertificateStatus::ValidationTimedOut => "validation_timed_out"@,
            SslCertificateStatus::IssuanceTimedOut => "issuance_timed_out"@,
            SslCertificateStatus::DeploymentTimedOut => "deployment_timed_out"@,
            SslCertificateStatus::DeletionTimedOut => "deletion_timed_out"@,
            SslCertificateStatus::PendingCleanup => "pending_cleanup"@,
            SslCertificateStatus::StagingDeployment => "staging_deployment"@,
            SslCertificateStatus::StagingActive => "staging_active"@,
            SslCertificateStatus::Deactivating => "deactivating"@,
            SslCertificateStatus::Inactive => "inactive"@,
            SslCertificateStatus::BackupIssued => "backup_issued"@,
            SslCertificateStatus::HoldingDeployment => "holding_deployment"@,
        }
    }

    open spec fn named(t: Seq<char>) -> Option<Self> {
        if t == "initializing"@ {
            Some(SslCertificateStatus::Initializing)
        } else if t == "pending_validation"@ {
            Some(SslCertificateStatus::PendingValidation)
        } else if t == "deleted"@ {
            Some(SslCertificateStatus::Deleted)
        } else if t == "pending_issuance"@ {
            Some(SslCertificateStatus::PendingIssuance)
        } else if t == "pending_deployment"@ {
            Some(SslCertificateStatus::PendingDeployment)
        } else if t == "pending_deletion"@ {
            Some(SslCertificateStatus::PendingDeletion)
        } else if t == "pending_expiration"@ {
            Some(SslCertificateStatus::PendingExpiration)
        } else if t == "expired"@ {
            Some(SslCertificateStatus::Expired)
        } else if t == "active"@ {
            Some(SslCertificateStatus::Active)
        } else if t == "initializing_timed_out"@ {
            Some(SslCertificateStatus::InitializingTimedOut)
        } else if t == "validation_timed_out"@ {
            Some(SslCertificateStatus::ValidationTimedOut)
        } else if t == "issuance_timed_out"@ {
            Some(SslCertificateStatus::IssuanceTimedOut)
        } else if t == "deployment_timed_out"@ {
            Some(SslCertificateStatus::DeploymentTimedOut)
        } else if t == "deletion_timed_out"@ {
            Some(SslCertificateStatus::DeletionTimedOut)
        } else if t == "pending_cleanup"@ {
            Some(SslCertificateStatus::PendingCleanup)
        } else if t == "staging_deployment"@ {
            Some(SslCertificateStatus::StagingDeployment)
        } else if t == "staging_active"@ {
            Some(SslCertificateStatus::StagingActive)
        } else if t == "deactivating"@ {
            Some(SslCertificateStatus::Deactivating)
        } else if t == "inactive"@ {
            Some(SslCertificateStatus::Inactive)
        } else if t == "backup_issued"@ {
            Some(SslCertificateStatus::BackupIssued)
        } else if t == "holding_deployment"@ {
            Some(SslCertificateStatus::HoldingDeployment)
        } else {
            None
        }
    }

    fn as_str(&self) -> (s: &'static str) {
        match self {
            SslCertificateStatus::Initializing => "initializing",
            SslCertificateStatus::PendingValidation => "pending_validation",
            SslCertificateStatus::Deleted => "deleted",
            SslCertificateStatus::PendingIssuance => "pending_issuance",
            SslCertificateStatus::PendingDeployment => "pending_deployment",
            SslCertificateStatus::PendingDeletion => "pending_deletion",
            SslCertificateStatus::PendingExpiration => "pending_expiration",
            SslCertificateStatus::Expired => "expired",
            SslCertificateStatus::Active => "active",
            SslCertificateStatus::InitializingTimedOut => "initializing_timed_out",
            SslCertificateStatus::ValidationTimedOut => "validation_timed_out",
            SslCertificateStatus::IssuanceTimedOut => "issuance_timed_out",
            SslCertificateStatus::DeploymentTimedOut => "deployment_timed_out",
            SslCertificateStatus::DeletionTimedOut => "deletion_timed_out",
            SslCertificateStatus::PendingCleanup => "pending_cleanup",
            SslCertificateStatus::StagingDeployment => "staging_deployment",
            SslCertificateStatus::StagingActive => "staging_active",
            SslCertificateStatus::Deactivating => "deactivating",
            SslCertificateStatus::Inactive => "inactive",
            SslCertificateStatus::BackupIssued => "backup_issued",
            SslCertificateStatus::HoldingDeployment => "holding_deployment",
        }
    }

    fn from_text(t: &str) -> (r: Option<Self>) {
        if str_eq(t, "initializing") {
            Some(SslCertificateStatus::Initializing)
        } else if str_eq(t, "pending_validation") {
            Some(SslCertificateStatus::PendingValidation)
        } else if str_eq(t, "deleted") {
            Some(SslCertificateStatus::Deleted)
        } else if str_eq(t, "pending_issuance") {
            Some(SslCertificateStatus::PendingIssuance)
        } else if str_eq(t, "pending_deployment") {
            Some(SslCertificateStatus::PendingDeployment)
        } else if str_eq(t, "pending_deletion") {
            Some(SslCertificateStatus::PendingDeletion)
        } else if str_eq(t, "pending_expiration") {
            Some(SslCertificateStatus::PendingExpiration)
        } else if str_eq(t, "expired") {
            Some(SslCertificateStatus::Expired)
        } else if str_eq(t, "active") {
            Some(SslCertificateStatus::Active)
        } else if str_eq(t, "initializing_timed_out") {
            Some(SslCertificateStatus::InitializingTimedOut)
        } else if str_eq(t, "validation_timed_out") {
            Some(SslCertificateStatus::ValidationTimedOut)
        } else if str_eq(t, "issuance_timed_out") {
            Some(SslCertificateStatus::IssuanceTimedOut)
        } else if str_eq(t, "deployment_timed_out") {
            Some(SslCertificateStatus::DeploymentTimedOut)
        } else if str_eq(t, "deletion_timed_out") {
            Some(SslCertificateStatus::DeletionTimedOut)
        } else if str_eq(t, "pending_cleanup") {
            Some(SslCertificateStatus::PendingCleanup)
        } else if str_eq(t, "staging_deployment") {
            Some(SslCertificateStatus::StagingDeployment)
        } else if str_eq(t, "staging_active") {
            Some(SslCertificateStatus::StagingActive)
        } else if str_eq(t, "deactivating") {
            Some(SslCertificateStatus::Deactivating)
        } else if str_eq(t, "inactive") {
            Some(SslCertificateStatus::Inactive)
        } else if str_eq(t, "backup_issued") {
            Some(SslCertificateStatus::BackupIssued)
        } else if str_eq(t, "holding_deployment") {
            Some(SslCertificateStatus::HoldingDeployment)
        } else {
            None
        }
    }

    proof fn lemma_named_text(v: Self) {
        reveal_strlit("initializing");
        reveal_strlit("pending_validation");
        reveal_strlit("deleted");
        reveal_strlit("pending_issuance");
        reveal_strlit("pending_deployment");
        reveal_strlit("pending_deletion");
        reveal_strlit("pending_expiration");
        reveal_strlit("expired");
        reveal_strlit("active");
        reveal_strlit("initializing_timed_out");
        reveal_strlit("validation_timed_out");
        reveal_strlit("issuance_timed_out");
        reveal_strlit("deployment_timed_out");
        reveal_strlit("deletion_timed_out");
        reveal_strlit("pending_cleanup");
        reveal_strlit("staging_deployment");
        reveal_strlit("staging_active");
        reveal_strlit("deactivating");
        reveal_strlit("inactive");
        reveal_strlit("backup_issued");
        reveal_strlit("holding_deployment");
        assert("initializing"@.len() == 12);
        assert("pending_validation"@.len() == 18);
        assert("deleted"@.len() == 7);
        assert("pending_issuance"@.len() == 16);
        assert("pending_deployment"@.len() == 18);
        assert("pending_deletion"@.len() == 16);
        assert("pending_expiration"@.len() == 18);
        assert("expired"@.len() == 7);
        assert("active"@.len() == 6);
        assert("initializing_timed_out"@.len() == 22);
        assert("validation_timed_out"@.len() == 20);
        assert("issuance_timed_out"@.len() == 18);
        assert("deployment_timed_out"@.len() == 20);
        assert("deletion_timed_out"@.len() == 18);
        assert("pending_cleanup"@.len() == 15);
        assert("staging_deployment"@.len() == 18);
        assert("staging_active"@.len() == 14);
        assert("deactivating"@.len() == 12);
        assert("inactive"@.len() == 8);
        assert("backup_issued"@.len() == 13);
        assert("holding_deployment"@.len() == 18);
        assert("pending_validation"@[8] != "pending_deployment"@[8]);
        assert("pending_issuance"@[8] != "pending_deletion"@[8]);
        assert("pending_validation"@[8] != "pending_expiration"@[8]);
        assert("pending_deployment"@[8] != "pending_expiration"@[8]);
        assert("deleted"@[0] != "expired"@[0]);
        assert("pending_validation"@[0] != "issuance_timed_out"@[0]);
        assert("pending_deployment"@[0] != "issuance_timed_out"@[0]);
        assert("pending_expiration"@[0] != "issuance_timed_out"@[0]);
        assert("validation_timed_out"@[0] != "deployment_timed_out"@[0]);
        assert("pending_validation"@[0] != "deletion_timed_out"@[0]);
        assert("pending_deployment"@[0] != "deletion_timed_out"@[0]);
        assert("pending_expiration"@[0] != "deletion_timed_out"@[0]);
        assert("issuance_timed_out"@[0] != "deletion_timed_out"@[0]);
        assert("pending_validation"@[0] != "staging_deployment"@[0]);
        assert("pending_deployment"@[0] != "staging_deployment"@[0]);
        assert("pending_expiration"@[0] != "staging_deployment"@[0]);
        assert("issuance_timed_out"@[0] != "staging_deployment"@[0]);
        assert("deletion_timed_out"@[0] != "staging_deployment"@[0]);
        assert("initializing"@[0] != "deactivating"@[0]);
        assert("pending_validation"@[0] != "holding_deployment"@[0]);
        assert("pending_deployment"@[0] != "holding_deployment"@[0]);
        assert("pending_expiration"@[0] != "holding_deployment"@[0]);
        assert("issuance_timed_out"@[0] != "holding_deployment"@[0]);
        assert("deletion_timed_out"@[0] != "holding_deployment"@[0]);
        assert("staging_deployment"@[0] != "holding_deployment"@[0]);
    }
}

impl ToJson for SslCertificateStatus {
    open spec fn json(&self) -> JsonView {
        JsonView::Text(self.text())
    }

    fn to_json(&self) -> (j: Json) {
        text_to_json(self)
    }
}

impl ApiResult for SslCertificateStatus {
    open spec fn rejection(j: JsonView) -> Option<DecodeErrorView> {
        text_rejection::<SslCertificateStatus>(j)
    }

    open spec fn decodes(j: JsonView, v: Self) -> bool {
        text_decodes::<SslCertificateStatus>(j, v)
    }

    fn from_json(j: &Json) -> (r: Result<Self, DecodeError>) {
        text_from_json::<SslCertificateStatus>(j)
    }
}

impl Writable for SslCertificateStatus {
    open spec fn sound(&self) -> bool {
        true
    }

    proof fn lemma_writable(v: Self) {
    }
}

impl Codec for SslCertificateStatus {
    proof fn lemma_round_trip(v: Self) {
        Self::lemma_named_text(v);
    }
}

/// The state of a custom hostname.
#[derive(Clone, Copy, Debug, PartialEq, Eq, Structural)]
pub enum HostnameActivationStatus {
    Active,
    Pending,
    ActiveRedeploying,
    Moved,
    PendingDeletion,
    Deleted,
    PendingBlocked,
    PendingMigration,
    PendingProvisioned,
    TestPending,
    TestActive,
    TestActiveApex,
    TestBlocked,
    TestFailed,
    Provisioned,
    Blocked,
}

impl TextEnum for HostnameActivationStatus {
    open spec fn text(&self) -> Seq<char> {
        match self {
            HostnameActivationStatus::Active => "active"@,
            HostnameActivationStatus::Pending => "pending"@,
            HostnameActivationStatus::ActiveRedeploying => "active_redeploying"@,
            HostnameActivationStatus::Moved => "moved"@,
            HostnameActivationStatus::PendingDeletion => "pending_deletion"@,
            HostnameActivationStatus::Deleted => "deleted"@,
            HostnameActivationStatus::PendingBlocked => "pending_blocked"@,
            HostnameActivationStatus::PendingMigration => "pending_migration"@,
            HostnameActivationStatus::PendingProvisioned => "pending_provisioned"@,
            HostnameActivationStatus::TestPending => "test_pending"@,
            HostnameActivationStatus::TestActive => "test_active"@,
            HostnameActivationStatus::TestActiveApex => "test_active_apex"@,
            HostnameActivationStatus::TestBlocked => "test_blocked"@,
            HostnameActivationStatus::TestFailed => "test_failed"@,
            HostnameActivationStatus::Provisioned => "provisioned"@,
            HostnameActivationStatus::Blocked => "blocked"@,
        }
    }

    open spec fn named(t: Seq<char>) -> Option<Self> {
        if t == "active"@ {
            Some(HostnameActivationStatus::Active)
        } else if t == "pending"@ {
            Some(HostnameActivationStatus::Pending)
        } else if t == "active_redeploying"@ {
            Some(HostnameActivationStatus::ActiveRedeploying)
        } else if t == "moved"@ {
            Some(HostnameActivationStatus::Moved)
        } else if t == "pending_deletion"@ {
            Some(HostnameActivationStatus::PendingDeletion)
        } else if t == "deleted"@ {
            Some(HostnameActivationStatus::Deleted)
        } else if t == "pending_blocked"@ {
            Some(HostnameActivationStatus::PendingBlocked)
        } else if t == "pending_migration"@ {
            Some(HostnameActivationStatus::PendingMigration)
        } else if t == "pending_provisioned"@ {
            Some(HostnameActivationStatus::PendingProvisioned)
        } else if t == "test_pending"@ {
            Some(HostnameActivationStatus::TestPending)
        } else if t == "test_active"@ {
            Some(HostnameActivationStatus::TestActive)
        } else if t == "test_active_apex"@ {
            Some(HostnameActivationStatus::TestActiveApex)
        } else if t == "test_blocked"@ {
            Some(HostnameActivationStatus::TestBlocked)
        } else if t == "test_failed"@ {
            Some(HostnameActivationStatus::TestFailed)
        } else if t == "provisioned"@ {
            Some(HostnameActivationStatus::Provisioned)
        } else if t == "blocked"@ {
            Some(HostnameActivationStatus::Blocked)
        } else {
            None
        }
    }

    fn as_str(&self) -> (s: &'static str) {
        match self {
            HostnameActivationStatus::Active => "active",
            HostnameActivationStatus::Pending => "pending",
            HostnameActivationStatus::ActiveRedeploying => "active_redeploying",
            HostnameActivationStatus::Moved => "moved",
            HostnameActivationStatus::PendingDeletion => "pending_deletion",
            HostnameActivationStatus::Deleted => "deleted",
            HostnameActivationStatus::PendingBlocked => "pending_blocked",
            HostnameActivationStatus::PendingMigration => "pending_migration",
            HostnameActivationStatus::PendingProvisioned => "pending_provisioned",
            HostnameActivationStatus::TestPending => "test_pending",
            HostnameActivationStatus::TestActive => "test_active",
            HostnameActivationStatus::TestActiveApex => "test_active_apex",
            HostnameActivationStatus::TestBlocked => "test_blocked",
            HostnameActivationStatus::TestFailed => "test_failed",
            HostnameActivationStatus::Provisioned => "provisioned",
            HostnameActivationStatus::Blocked => "blocked",
        }
    }

    fn from_text(t: &str) -> (r: Option<Self>) {
        if str_eq(t, "active") {
            Some(HostnameActivationStatus::Active)
        } else if str_eq(t, "pending") {
            Some(HostnameActivationStatus::Pending)
        } else if str_eq(t, "active_redeploying") {
            Some(HostnameActivationStatus::ActiveRedeploying)
        } else if str_eq(t, "moved") {
            Some(HostnameActivationStatus::Moved)
        } else if str_eq(t, "pending_deletion") {
            Some(HostnameActivationStatus::PendingDeletion)
        } else if str_eq(t, "deleted") {
            Some(HostnameActivationStatus::Deleted)
        } else if str_eq(t, "pending_blocked") {
            Some(HostnameActivationStatus::PendingBlocked)
        } else if str_eq(t, "pending_migration") {
            Some(HostnameActivationStatus::PendingMigration)
        } else if str_eq(t, "pending_provisioned") {
            Some(HostnameActivationStatus::PendingProvisioned)
        } else if str_eq(t, "test_pending") {
            Some(HostnameActivationStatus::TestPending)
        } else if str_eq(t, "test_active") {
            Some(HostnameActivationStatus::TestActive)
        } else if str_eq(t, "test_active_apex") {
            Some(HostnameActivationStatus::TestActiveApex)
        } else if str_eq(t, "test_blocked") {
            Some(HostnameActivationStatus::TestBlocked)
        } else if str_eq(t, "test_failed") {
            Some(HostnameActivationStatus::TestFailed)
        } else if str_eq(t, "provisioned") {
            Some(HostnameActivationStatus::Provisioned)
        } else if str_eq(t, "blocked") {
            Some(HostnameActivationStatus::Blocked)
        } else {
            None
        }
    }

    proof fn lemma_named_text(v: Self) {
        reveal_strlit("active");
        reveal_strlit("pending");
        reveal_strlit("active_redeploying");
        reveal_strlit("moved");
        reveal_strlit("pending_deletion");
        reveal_strlit("deleted");
        reveal_strlit("pending_blocked");
        reveal_strlit("pending_migration");
        reveal_strlit("pending_provisioned");
        reveal_strlit("test_pending");
        reveal_strlit("test_active");
        reveal_strlit("test_active_apex");
        reveal_strlit("test_blocked");
        reveal_strlit("test_failed");
        reveal_strlit("provisioned");
        reveal_strlit("blocked");
        assert("active"@.len() == 6);
        assert("pending"@.len() == 7);
        assert("active_redeploying"@.len() == 18);
        assert("moved"@.len() == 5);
        assert("pending_deletion"@.len() == 16);
        assert("deleted"@.len() == 7);
        assert("pending_blocked"@.len() == 15);
        assert("pending_migration"@.len() == 17);
        assert("pending_provisioned"@.len() == 19);
        assert("test_pending"@.len() == 12);
        assert("test_active"@.len() == 11);
        assert("test_active_apex"@.len() == 16);
        assert("test_blocked"@.len() == 12);
        assert("test_failed"@.len() == 11);
        assert("provisioned"@.len() == 11);
        assert("blocked"@.len() == 7);
        assert("pending"@[0] != "deleted"@[0]);
        assert("pending_deletion"@[0] != "test_active_apex"@[0]);
        assert("test_pending"@[5] != "test_blocked"@[5]);
        assert("test_active"@[5] != "test_failed"@[5]);
        assert("test_active"@[0] != "provisioned"@[0]);
        assert("test_failed"@[0] != "provisioned"@[0]);
        assert("pending"@[0] != "blocked"@[0]);
        assert("deleted"@[0] != "blocked"@[0]);
    }
}

impl ToJson for HostnameActivationStatus {
    open spec fn json(&self) -> JsonView {
        JsonView::Text(self.text())
    }

    fn to_json(&self) -> (j: Json) {
        text_to_json(self)
    }
}

impl ApiResult for HostnameActivationStatus {
    open spec fn rejection(j: JsonView) -> Option<DecodeErrorView> {
        text_rejection::<HostnameActivationStatus>(j)
    }

    open spec fn decodes(j: JsonView, v: Self) -> bool {
        text_decodes::<HostnameActivationStatus>(j, v)
    }

    fn from_json(j: &Json) -> (r: Result<Self, DecodeError>) {
        text_from_json::<HostnameActivationStatus>(j)
    }
}

impl Writable for HostnameActivationStatus {
    open spec fn sound(&self) -> bool {
        true
    }

    proof fn lemma_writable(v: Self) {
    }
}

impl Codec for HostnameActivationStatus {
    proof fn lemma_round_trip(v: Self) {
        Self::lemma_named_text(v);
    }
}

/// Delete a custom hostname of a zone.
#[derive(Debug)]
pub struct DeleteCustomHostname<'a> {
    pub zone_identifier: &'a str,
    pub custom_hostname_id: &'a str,
}

impl<'a> EndpointSpec for DeleteCustomHostname<'a> {
    type JsonResponse = DeleteCustomHostnameResponse;

    type ResponseType = ApiSuccess<Self::JsonResponse>;

    open spec fn method_spec(&self) -> Method {
        Method::DELETE
    }

    open spec fn path_spec(&self) -> Seq<char> {
        "zones/"@ + self.zone_identifier@ + "/custom_hostnames/"@ + self.custom_hostname_id@
    }

    open spec fn query_spec(&self) -> Seq<(Seq<char>, Seq<char>)> {
        Seq::empty()
    }

    open spec fn body_spec(&self) -> Option<JsonView> {
        None
    }

    fn method(&self) -> (m: Method) {
        Method::DELETE
    }

    fn path(&self) -> (p: String) {
        let mut p = String::from_str("zones/");
        p.append(self.zone_identifier);
        p.append("/custom_hostnames/");
        p.append(self.custom_hostname_id);
        p
    }

    fn query(&self) -> (q: Option<String>) {
        None
    }

    fn body(&self) -> (b: Result<Option<RequestBody>, RequestError>) {
        Ok(None)
    }
}

/// What deleting a custom hostname hands back: the identifier of what was deleted.
#[derive(Clone, Debug, PartialEq, Eq)]
pub struct DeleteCustomHostnameResponse {
    pub id: String,
}

impl ApiResult for DeleteCustomHostnameResponse {
    open spec fn rejection(j: JsonView) -> Option<DecodeErrorView> {
        let e = object_rejection(j);
        let e = then(e, required_rejection::<String>(j, "id"@));
        e
    }

    open spec fn decodes(j: JsonView, v: Self) -> bool {
        &&& required_decodes::<String>(j, "id"@, v.id)
    }

    fn from_json(j: &Json) -> (r: Result<Self, DecodeError>) {
        match require_object(j) {
            Ok(_) => {},
            Err(e) => {
                return Err(e);
            },
        }
        let id = match required::<String>(j, "id") {
            Ok(v) => v,
            Err(e) => {
                return Err(e);
            },
        };
        Ok(DeleteCustomHostnameResponse { id })
    }
}

/// Edit a custom hostname of a zone.
#[derive(Debug)]
pub struct EditCustomHostname<'a> {
    pub zone_identifier: &'a str,
    pub custom_hostname_id: &'a str,
    pub params: EditCustomHostnameParams,
}

impl<'a> EndpointSpec for EditCustomHostname<'a> {
    type JsonResponse = CustomHostnameDetails;

    type ResponseType = ApiSuccess<Self::JsonResponse>;

    open spec fn method_spec(&self) -> Method {
        Method::PATCH
    }

    open spec fn path_spec(&self) -> Seq<char> {
        "zones/"@ + self.zone_identifier@ + "/custom_hostnames/"@ + self.custom_hostname_id@
    }

    open spec fn query_spec(&self) -> Seq<(Seq<char>, Seq<char>)> {
        Seq::empty()
    }

    open spec fn body_spec(&self) -> Option<JsonView> {
        Some(self.params.json())
    }

    fn method(&self) -> (m: Method) {
        Method::PATCH
    }

    fn path(&self) -> (p: String) {
        let mut p = String::from_str("zones/");
        p.append(self.zone_identifier);
        p.append("/custom_hostnames/");
        p.append(self.custom_hostname_id);
        p
    }

    fn query(&self) -> (q: Option<String>) {
        None
    }

    fn body(&self) -> (b: Result<Option<RequestBody>, RequestError>) {
        render_body(&self.params.to_json())
    }
}

/// What is to be changed of a custom hostname; an absent field stays as it is.
#[derive(Clone, Debug, PartialEq, Eq)]
pub struct EditCustomHostnameParams {
    pub custom_metadata: Option<StringMap>,
    pub custom_original_server: Option<String>,
    pub custom_original_sni: Option<String>,
    pub ssl: Option<HostnameSslProperties>,
}

impl ToJson for EditCustomHostnameParams {
    open spec fn json(&self) -> JsonView {
        JsonView::Object(
            Seq::<(Seq<char>, JsonView)>::empty()
                + optional_member::<StringMap>("custom_metadata"@, self.custom_metadata)
                + optional_member::<String>("custom_original_server"@, self.custom_original_server)
                + optional_member::<String>("custom_original_sni"@, self.custom_original_sni)
                + optional_member::<HostnameSslProperties>("ssl"@, self.ssl),
        )
    }

    fn to_json(&self) -> (j: Json) {
        let mut b = ObjectBuilder::new();
        b.optional("custom_metadata", &self.custom_metadata);
        b.optional("custom_original_server", &self.custom_original_server);
        b.optional("custom_original_sni", &self.custom_original_sni);
        b.optional("ssl", &self.ssl);
        b.build()
    }
}

impl Writable for EditCustomHostnameParams {
    open spec fn sound(&self) -> bool {
        &&& self.custom_metadata matches Some(x) ==> x.sound()
        &&& self.custom_original_server matches Some(x) ==> x.sound()
        &&& self.custom_original_sni matches Some(x) ==> x.sound()
        &&& self.ssl matches Some(x) ==> x.sound()
    }

    proof fn lemma_writable(v: Self) {
        reveal_strlit("custom_metadata");
        reveal_strlit("custom_original_server");
        reveal_strlit("custom_original_sni");
        reveal_strlit("ssl");
        assert("custom_metadata"@.len() == 15);
        assert("custom_original_server"@.len() == 22);
        assert("custom_original_sni"@.len() == 19);
        assert("ssl"@.len() == 3);
        let head0 = Seq::<(Seq<char>, JsonView)>::empty();
        let part0 = optional_member::<StringMap>("custom_metadata"@, v.custom_metadata);
        lemma_optional_part::<StringMap>("custom_metadata"@, v.custom_metadata);
        lemma_extend(head0, part0);
        let head1 = head0 + part0;
        let part1 = optional_member::<String>("custom_original_server"@, v.custom_original_server);
        lemma_optional_part::<String>("custom_original_server"@, v.custom_original_server);
        lemma_optional_lookup::<StringMap>(
            "custom_metadata"@,
            v.custom_metadata,
            "custom_original_server"@,
        );
        lemma_lookup_concat(head0, part0, "custom_original_server"@);
        lemma_extend(head1, part1);
        let head2 = head1 + part1;
        let part2 = optional_member::<String>("custom_original_sni"@, v.custom_original_sni);
        lemma_optional_part::<String>("custom_original_sni"@, v.custom_original_sni);
        lemma_optional_lookup::<StringMap>(
            "custom_metadata"@,
            v.custom_metadata,
            "custom_original_sni"@,
        );
        lemma_lookup_concat(head0, part0, "custom_original_sni"@);
        lemma_optional_lookup::<String>(
            "custom_original_server"@,
            v.custom_original_server,
            "custom_original_sni"@,
        );
        lemma_lookup_concat(head1, part1, "custom_original_sni"@);
        lemma_extend(head2, part2);
        let head3 = head2 + part2;
        let part3 = optional_member::<HostnameSslProperties>("ssl"@, v.ssl);
        lemma_optional_part::<HostnameSslProperties>("ssl"@, v.ssl);
        lemma_optional_lookup::<StringMap>("custom_metadata"@, v.custom_metadata, "ssl"@);
        lemma_lookup_concat(head0, part0, "ssl"@);
        lemma_optional_lookup::<String>(
            "custom_original_server"@,
            v.custom_original_server,
            "ssl"@,
        );
        lemma_lookup_concat(head1, part1, "ssl"@);
        lemma_optional_lookup::<String>("custom_original_sni"@, v.custom_original_sni, "ssl"@);
        lemma_lookup_concat(head2, part2, "ssl"@);
        lemma_extend(head3, part3);
    }
}

impl EditCustomHostnameParams {
    /// Whether every field is absent, empty or at its default.
    pub open spec fn is_default(&self) -> bool {
        &&& self.custom_metadata is None
        &&& self.custom_original_server is None
        &&& self.custom_original_sni is None
        &&& self.ssl is None
    }
}

impl Default for EditCustomHostnameParams {
    fn default() -> (r: EditCustomHostnameParams)
        ensures
            r.is_default(),
    {
        EditCustomHostnameParams {
            custom_metadata: None,
            custom_original_server: None,
            custom_original_sni: None,
            ssl: None,
        }
    }
}

/// Get the details of a custom hostname.
#[derive(Debug)]
pub struct GetCustomHostname<'a> {
    pub zone_identifier: &'a str,
    pub custom_hostname_id: &'a str,
}

impl<'a> EndpointSpec for GetCustomHostname<'a> {
    type JsonResponse = CustomHostnameDetails;

    type ResponseType = ApiSuccess<Self::JsonResponse>;

    open spec fn method_spec(&self) -> Method {
        Method::GET
    }

    open spec fn path_spec(&self) -> Seq<char> {
        "zones/"@ + self.zone_identifier@ + "/custom_hostnames/"@ + self.custom_hostname_id@
    }

    open spec fn query_spec(&self) -> Seq<(Seq<char>, Seq<char>)> {
        Seq::empty()
    }

    open spec fn body_spec(&self) -> Option<JsonView> {
        None
    }

    fn method(&self) -> (m: Method) {
        Method::GET
    }

    fn path(&self) -> (p: String) {
        let mut p = String::from_str("zones/");
        p.append(self.zone_identifier);
        p.append("/custom_hostnames/");
        p.append(self.custom_hostname_id);
        p
    }

    fn query(&self) -> (q: Option<String>) {
        None
    }

    fn body(&self) -> (b: Result<Option<RequestBody>, RequestError>) {
        Ok(None)
    }
}

/// List the custom hostnames of a zone.
#[derive(Debug)]
pub struct ListCustomHostname<'a> {
    pub zone_identifier: &'a str,
    pub params: ListCustomHostnameParams,
}

impl<'a> EndpointSpec for ListCustomHostname<'a> {
    type JsonResponse = Vec<CustomHostnameDetails>;

    type ResponseType = ApiSuccess<Self::JsonResponse>;

    open spec fn method_spec(&self) -> Method {
        Method::GET
    }

    open spec fn path_spec(&self) -> Seq<char> {
        "zones/"@ + self.zone_identifier@ + "/custom_hostnames"@
    }

    open spec fn query_spec(&self) -> Seq<(Seq<char>, Seq<char>)> {
        self.params.query_pairs()
    }

    open spec fn body_spec(&self) -> Option<JsonView> {
        None
    }

    fn method(&self) -> (m: Method) {
        Method::GET
    }

    fn path(&self) -> (p: String) {
        let mut p = String::from_str("zones/");
        p.append(self.zone_identifier);
        p.append("/custom_hostnames");
        p
    }

    fn query(&self) -> (q: Option<String>) {
        serialize_query(&self.params)
    }

    fn body(&self) -> (b: Result<Option<RequestBody>, RequestError>) {
        Ok(None)
    }
}

impl<'a> ListCustomHostname<'a> {
    /// Whether every field is absent, empty or at its default.
    pub open spec fn is_default(&self) -> bool {
        &&& self.zone_identifier@ == ""@
        &&& self.params.is_default()
    }
}

impl<'a> Default for ListCustomHostname<'a> {
    fn default() -> (r: ListCustomHostname<'a>)
        ensures
            r.is_default(),
    {
        ListCustomHostname { zone_identifier: "", params: ListCustomHostnameParams::default() }
    }
}

/// Which custom hostnames are listed, and in which order.
#[derive(Clone, Debug, PartialEq, Eq)]
pub struct ListCustomHostnameParams {
    pub id: Option<String>,
    pub direction: Option<OrderDirection>,
    pub hostname: Option<String>,
    pub order: Option<ListCustomHostnameOrder>,
    pub page: Option<u32>,
    pub per_page: Option<u32>,
    pub ssl: Option<u8>,
}

impl QueryPayload for ListCustomHostnameParams {
    open spec fn query_pairs(&self) -> Seq<(Seq<char>, Seq<char>)> {
        Seq::<(Seq<char>, Seq<char>)>::empty()
            + optional_pair::<String>("id"@, self.id)
            + optional_pair::<OrderDirection>("direction"@, self.direction)
            + optional_pair::<String>("hostname"@, self.hostname)
            + optional_pair::<ListCustomHostnameOrder>("order"@, self.order)
            + optional_pair::<u32>("page"@, self.page)
            + optional_pair::<u32>("per_page"@, self.per_page)
            + optional_pair::<u8>("ssl"@, self.ssl)
    }

    fn to_query_pairs(&self) -> (p: Vec<(String, String)>) {
        let mut b = QueryBuilder::new();
        b.optional("id", &self.id);
        b.optional("direction", &self.direction);
        b.optional("hostname", &self.hostname);
        b.optional("order", &self.order);
        b.optional("page", &self.page);
        b.optional("per_page", &self.per_page);
        b.optional("ssl", &self.ssl);
        b.build()
    }
}

impl ListCustomHostnameParams {
    /// Whether every field is absent, empty or at its default.
    pub open spec fn is_default(&self) -> bool {
        &&& self.id is None
        &&& self.direction is None
        &&& self.hostname is None
        &&& self.order is None
        &&& self.page is None
        &&& self.per_page is None
        &&& self.ssl is None
    }
}

impl Default for ListCustomHostnameParams {
    fn default() -> (r: ListCustomHostnameParams)
        ensures
            r.is_default(),
    {
        ListCustomHostnameParams {
            id: None,
            direction: None,
            hostname: None,
            order: None,
            page: None,
            per_page: None,
            ssl: None,
        }
    }
}

/// The field by which the custom hostnames are ordered.
#[derive(Clone, Copy, Debug, PartialEq, Eq, Structural)]
pub enum ListCustomHostnameOrder {
    Ssl,
    SslStatus,
}

impl TextEnum for ListCustomHostnameOrder {
    open spec fn text(&self) -> Seq<char> {
        match self {
            ListCustomHostnameOrder::Ssl => "ssl"@,
            ListCustomHostnameOrder::SslStatus => "ssl_status"@,
        }
    }

    open spec fn named(t: Seq<char>) -> Option<Self> {
        if t == "ssl"@ {
            Some(ListCustomHostnameOrder::Ssl)
        } else if t == "ssl_status"@ {
            Some(ListCustomHostnameOrder::SslStatus)
        } else {
            None
        }
    }

    fn as_str(&self) -> (s: &'static str) {
        match self {
            ListCustomHostnameOrder::Ssl => "ssl",
            ListCustomHostnameOrder::SslStatus => "ssl_status",
        }
    }

    fn from_text(t: &str) -> (r: Option<Self>) {
        if str_eq(t, "ssl") {
            Some(ListCustomHostnameOrder::Ssl)
        } else if str_eq(t, "ssl_status") {
            Some(ListCustomHostnameOrder::SslStatus)
        } else {
            None
        }
    }

    proof fn lemma_named_text(v: Self) {
        reveal_strlit("ssl");
        reveal_strlit("ssl_status");
        assert("ssl"@.len() == 3);
        assert("ssl_status"@.len() == 10);
    }
}

impl ToJson for ListCustomHostnameOrder {
    open spec fn json(&self) -> JsonView {
        JsonView::Text(self.text())
    }

    fn to_json(&self) -> (j: Json) {
        text_to_json(self)
    }
}

impl QueryValue for ListCustomHostnameOrder {
    open spec fn query_value(&self) -> Seq<char> {
        self.text()
    }

    fn to_query_value(&self) -> (s: String) {
        text_to_query(self)
    }
}

impl Writable for ListCustomHostnameOrder {
    open spec fn sound(&self) -> bool {
        true
    }

    proof fn lemma_writable(v: Self) {
    }
}

} // verus!
