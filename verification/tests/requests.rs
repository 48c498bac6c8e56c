use cloudflare::endpoints::custom_hostname::certificate::DeleteCustomHostnameCertificate;
use cloudflare::endpoints::custom_hostname::hostname::{
    BundleMethod, CertificateCA, CreateCustomHostname, CreateCustomHostnameParams,
    DomainValidationMethod, DomainValidationType, HostnameSslProperties, ListCustomHostname,
    ListCustomHostnameOrder, ListCustomHostnameParams, SslSettings,
};
use cloudflare::endpoints::dns::dns::{
    BatchDelete, BatchDnsRecords, BatchDnsRecordsParams, CreateDnsRecord, DeleteDnsRecord,
    DnsContent, DnsRecordOperator, ListDnsRecords, ListDnsRecordsOrder, ListDnsRecordsParams,
};
use cloudflare::endpoints::email_routing::dns::{EmailRoutingSetting, EmailRoutingSettingParams};
use cloudflare::endpoints::email_routing::rules::{
    Action, ActionType, CreateRoutingRule, CreateRoutingRuleParams, Matcher, MatcherField,
    MatcherType,
};
use cloudflare::endpoints::zones::setting::{EditZoneSetting, GetZoneSetting, ZoneSettingValue};
use cloudflare::endpoints::zones::zone::{
    AccountParams, CreateZone, CreateZoneParams, ListZones, ListZonesParams, Status, Type,
};
use cloudflare::framework::endpoint::{
    build_request, serialize_query, EndpointSpec, Method, RequestBody,
};
use cloudflare::framework::pairs::StringMap;
use cloudflare::framework::response::decode_response;
use cloudflare::framework::variant::TextEnum;
use cloudflare::framework::{BooleanValue, OrderDirection, SearchMatch, TlsVersion};

fn json_body<E: EndpointSpec>(e: &E) -> String {
    match e.body() {
        Ok(Some(RequestBody::Json(text))) => text,
        other => panic!("unexpected body: {:?}", other),
    }
}

#[test]
fn paths_hold_the_identifiers() {
    let e = DeleteDnsRecord { zone_identifier: "z1", identifier: "r9" };
    assert_eq!(e.path(), "zones/z1/dns_records/r9");
    assert_eq!(e.method(), Method::DELETE);
    assert_eq!(e.query(), None);
    assert_eq!(e.body(), Ok(None));

    let e = DeleteCustomHostnameCertificate {
        zone_identifier: "z",
        custom_hostname_id: "h",
        certificate_pack_id: "p",
        certificate_id: "c",
    };
    assert_eq!(e.path(), "/zones/z/custom_hostnames/h/certificate_pack/p/certificates/c");

    let e = ListZones { params: ListZonesParams {
        name: None, status: None, page: None, per_page: None, order: None, direction: None,
        search_match: None,
    } };
    assert_eq!(e.path(), "zones");
    assert_eq!(e.method(), Method::GET);
    assert_eq!(e.query(), None);
}

#[test]
fn method_names() {
    assert_eq!(Method::GET.as_str(), "GET");
    assert_eq!(Method::POST.as_str(), "POST");
    assert_eq!(Method::PUT.as_str(), "PUT");
    assert_eq!(Method::PATCH.as_str(), "PATCH");
    assert_eq!(Method::DELETE.as_str(), "DELETE");
}

#[test]
fn query_holds_exactly_the_present_fields() {
    let params = ListZonesParams {
        name: Some("example.com".to_string()),
        status: Some(Status::Active),
        page: Some(2),
        per_page: None,
        order: None,
        direction: Some(OrderDirection::Descending),
        search_match: Some(SearchMatch::Any),
    };
    assert_eq!(
        serialize_query(&params),
        Some("name=example.com&status=active&page=2&direction=desc&match=any".to_string())
    );
}

#[test]
fn query_of_no_field_is_absent() {
    let params = ListCustomHostnameParams {
        id: None, direction: None, hostname: None, order: None, page: None, per_page: None,
        ssl: None,
    };
    assert_eq!(serialize_query(&params), None);
    let e = ListCustomHostname { zone_identifier: "z", params };
    assert_eq!(e.query(), None);
}

#[test]
fn query_escapes_what_is_not_plain() {
    let params = ListCustomHostnameParams {
        id: Some("a b&c=d/e".to_string()),
        direction: Some(OrderDirection::Ascending),
        hostname: Some("caf\u{e9}.example.com".to_string()),
        order: Some(ListCustomHostnameOrder::SslStatus),
        page: Some(0),
        per_page: Some(4294967295),
        ssl: Some(255),
    };
    assert_eq!(
        serialize_query(&params),
        Some(
            "id=a+b%26c%3Dd%2Fe&direction=asc&hostname=caf%C3%A9.example.com&order=ssl_status\
             &page=0&per_page=4294967295&ssl=255"
                .to_string()
        )
    );
}

#[test]
fn query_keeps_plain_punctuation() {
    let params = EmailRoutingSettingParams { subdomain: "a-b_c.d*e~f".to_string() };
    let e = EmailRoutingSetting { zone_identifier: "z", params };
    assert_eq!(e.query(), Some("subdomain=a-b_c.d*e%7Ef".to_string()));
    let params = EmailRoutingSettingParams { subdomain: String::new() };
    assert_eq!(serialize_query(&params), Some("subdomain=".to_string()));
}

#[test]
fn query_flattens_the_record_type() {
    let params = ListDnsRecordsParams {
        record_type: Some(DnsContent::MX { content: "mail.example.com".to_string(), priority: 10 }),
        name: Some("example.com".to_string()),
        page: None,
        per_page: Some(50),
        order: Some(ListDnsRecordsOrder::Ttl),
        direction: None,
        search_match: Some(SearchMatch::All),
    };
    let e = ListDnsRecords { zone_identifier: "z", params };
    assert_eq!(
        e.query(),
        Some(
            "type=MX&content=mail.example.com&priority=10&name=example.com&per_page=50&order=ttl&match=all"
                .to_string()
        )
    );
    assert_eq!(e.path(), "zones/z/dns_records");
    let params = ListDnsRecordsParams {
        record_type: Some(DnsContent::AAAA { content: "2001:db8::1".to_string() }),
        name: None, page: None, per_page: None, order: None, direction: None, search_match: None,
    };
    assert_eq!(serialize_query(&params), Some("type=AAAA&content=2001%3Adb8%3A%3A1".to_string()));
}

#[test]
fn body_omits_absent_fields_and_flattens_the_content() {
    let e = CreateDnsRecord {
        zone_identifier: "z",
        params: DnsRecordOperator {
            ttl: Some(120),
            proxied: None,
            name: "example.com".to_string(),
            content: DnsContent::A { content: "198.51.100.4".to_string() },
        },
    };
    assert_eq!(
        json_body(&e),
        r#"{"ttl":120,"name":"example.com","type":"A","content":"198.51.100.4"}"#
    );
    assert_eq!(e.method(), Method::POST);
    let e = CreateDnsRecord {
        zone_identifier: "z",
        params: DnsRecordOperator {
            ttl: None,
            proxied: Some(true),
            name: "m".to_string(),
            content: DnsContent::MX { content: "mail \"x\"".to_string(), priority: 5 },
        },
    };
    assert_eq!(
        json_body(&e),
        r#"{"proxied":true,"name":"m","type":"MX","content":"mail \"x\"","priority":5}"#
    );
}

#[test]
fn batch_body_holds_the_buckets_in_order() {
    let post = |name: &str, ip: &str| DnsRecordOperator {
        ttl: None,
        proxied: None,
        name: name.to_string(),
        content: DnsContent::A { content: ip.to_string() },
    };
    let e = BatchDnsRecords {
        zone_identifier: "z",
        params: BatchDnsRecordsParams {
            deletes: Some(vec![BatchDelete { id: "d1".to_string() }]),
            patches: None,
            posts: Some(vec![post("one", "1.1.1.1"), post("two", "2.2.2.2")]),
            puts: Some(vec![]),
        },
    };
    assert_eq!(
        json_body(&e),
        r#"{"deletes":[{"id":"d1"}],"posts":[{"name":"one","type":"A","content":"1.1.1.1"},{"name":"two","type":"A","content":"2.2.2.2"}],"puts":[]}"#
    );
    assert_eq!(e.path(), "zones/z/dns_records/batch");
}

#[test]
fn zone_setting_uses_one_identifier_for_path_and_body() {
    let e = EditZoneSetting {
        zone_identifier: "z",
        enabled: None,
        value: ZoneSettingValue::MinTlsVersion { value: TlsVersion::V1_2 },
    };
    assert_eq!(e.path(), "zones/z/settings/min_tls_version");
    assert_eq!(json_body(&e), r#"{"id":"min_tls_version","value":"1.2"}"#);
    assert_eq!(e.value.as_ref(), "min_tls_version");
    let e = EditZoneSetting {
        zone_identifier: "z",
        enabled: Some(true),
        value: ZoneSettingValue::AlwaysUseHttps { value: BooleanValue::On },
    };
    assert_eq!(e.path(), "zones/z/settings/always_use_https");
    assert_eq!(json_body(&e), r#"{"enabled":true,"id":"always_use_https","value":"on"}"#);
    assert_eq!(e.method(), Method::PATCH);
    let e = GetZoneSetting { zone_identifier: "z", setting_id: "always_use_https" };
    assert_eq!(e.path(), "zones/z/settings/always_use_https");
    assert_eq!(e.method(), Method::GET);
    assert_eq!(e.query(), None);
    assert_eq!(e.body(), Ok(None));
    let r = build_request(&e).expect("request");
    assert_eq!(r.body, None);
}

#[test]
fn nested_bodies() {
    let e = CreateCustomHostname {
        zone_identifier: "z",
        params: CreateCustomHostnameParams {
            hostname: "app.example.com".to_string(),
            ssl: HostnameSslProperties {
                bundle_method: Some(BundleMethod::Optimal),
                certificate_authority: Some(CertificateCA::LetsEncrypt),
                cloudflare_branding: None,
                custom_cert_bundle: None,
                custom_certificate: None,
                custom_key: None,
                method: Some(DomainValidationMethod::Http),
                settings: Some(SslSettings {
                    ciphers: vec!["ECDHE-RSA-AES128-GCM-SHA256".to_string()],
                    early_hints: None,
                    http2: Some(BooleanValue::On),
                    min_tls_version: Some(TlsVersion::V1_3),
                    tls_1_3: Some(BooleanValue::Off),
                }),
                validation_type: DomainValidationType::Dv,
                wildcard: Some(false),
            },
            custom_metadata: Some(StringMap {
                entries: vec![("k1".to_string(), "v1".to_string()), ("k2".to_string(), "v2".to_string())],
            }),
        },
    };
    assert_eq!(
        json_body(&e),
        r#"{"hostname":"app.example.com","ssl":{"bundle_method":"optimal","certificate_authority":"lets_encrypt","method":"http","settings":{"ciphers":["ECDHE-RSA-AES128-GCM-SHA256"],"http2":"on","min_tls_version":"1.3","tls_1_3":"off"},"type":"dv","wildcard":false},"custom_metadata":{"k1":"v1","k2":"v2"}}"#
    );
    let e = CreateZone {
        params: CreateZoneParams {
            name: "example.com",
            account: AccountParams { id: Some("acc") },
            zone_type: Some(Type::Partial),
        },
    };
    assert_eq!(json_body(&e), r#"{"name":"example.com","account":{"id":"acc"},"type":"partial"}"#);
    let e = CreateZone {
        params: CreateZoneParams { name: "example.com", account: AccountParams { id: None }, zone_type: None },
    };
    assert_eq!(json_body(&e), r#"{"name":"example.com","account":{}}"#);
}

#[test]
fn routing_rule_body() {
    let e = CreateRoutingRule {
        zone_identifier: "z",
        params: CreateRoutingRuleParams {
            actions: vec![Action { action_type: ActionType::Forward, value: Some(vec!["a@example.com".to_string()]) }],
            matchers: vec![Matcher {
                matcher_type: MatcherType::Literal,
                field: Some(MatcherField::To),
                value: Some("in@example.com".to_string()),
            }],
            enabled: Some(true),
            name: None,
            priority: Some(0),
        },
    };
    assert_eq!(
        json_body(&e),
        r#"{"actions":[{"type":"forward","value":["a@example.com"]}],"matchers":[{"type":"literal","field":"to","value":"in@example.com"}],"enabled":true,"priority":0}"#
    );
}

#[test]
fn request_is_made_of_the_four_parts() {
    let e = CreateDnsRecord {
        zone_identifier: "z",
        params: DnsRecordOperator {
            ttl: None,
            proxied: None,
            name: "n".to_string(),
            content: DnsContent::TXT { content: "t".to_string() },
        },
    };
    let r = build_request(&e).expect("request");
    assert_eq!(r.method, Method::POST);
    assert_eq!(r.path, "zones/z/dns_records");
    assert_eq!(r.query, None);
    assert_eq!(
        r.body,
        Some(RequestBody::Json(r#"{"name":"n","type":"TXT","content":"t"}"#.to_string()))
    );
}

#[test]
fn variant_records_come_back_as_they_went() {
    let values = vec![
        DnsContent::A { content: "1.2.3.4".to_string() },
        DnsContent::AAAA { content: "::1".to_string() },
        DnsContent::CNAME { content: "c.example.com".to_string() },
        DnsContent::NS { content: "ns.example.com".to_string() },
        DnsContent::MX { content: "mx.example.com".to_string(), priority: 65535 },
        DnsContent::TXT { content: "v=spf1 \u{2713} \\ \"q\"".to_string() },
        DnsContent::SRV { content: "0 5 5060 sip.example.com".to_string() },
    ];
    for v in values {
        let e = CreateDnsRecord {
            zone_identifier: "z",
            params: DnsRecordOperator { ttl: None, proxied: None, name: "n".to_string(), content: v },
        };
        let text = format!("{{\"success\":true,\"result\":{}}}", json_body(&e));
        let back = decode_response::<DnsContent>(text.as_bytes()).expect("success").result;
        assert_eq!(back, e.params.content);
    }
    for v in [
        ZoneSettingValue::AlwaysUseHttps { value: BooleanValue::Off },
        ZoneSettingValue::MinTlsVersion { value: TlsVersion::V1_0 },
    ] {
        let e = EditZoneSetting { zone_identifier: "z", enabled: None, value: v };
        let text = format!("{{\"success\":true,\"result\":{}}}", json_body(&e));
        let back = decode_response::<ZoneSettingValue>(text.as_bytes()).expect("success").result;
        assert_eq!(back, v);
    }
}

#[test]
fn texts_of_enumerations() {
    assert_eq!(CertificateCA::SslCom.as_str(), "ssl_com");
    assert_eq!(CertificateCA::from_text("lets_encrypt"), Some(CertificateCA::LetsEncrypt));
    assert_eq!(CertificateCA::from_text("LetsEncrypt"), None);
    assert_eq!(OrderDirection::Ascending.as_str(), "asc");
    assert_eq!(TlsVersion::V1_1.as_str(), "1.1");
    assert_eq!(TlsVersion::from_text("1.3"), Some(TlsVersion::V1_3));
    assert_eq!(BundleMethod::default(), BundleMethod::Ubiquitous);
    assert_eq!(CertificateCA::default(), CertificateCA::Google);
    assert_eq!(Status::from_text("deactivated"), Some(Status::Deactivated));
}
